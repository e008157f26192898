use careful_resume::roots::{after_cert, trust_root, CertOutcome, CertRead, CertStep};
use careful_resume::session::{
    Session, SessionAction, SessionFailure, SessionPhase, CLOSE_CODE, CLOSE_REASON, REBIND_ADDRESS,
};
use careful_resume::span::Span;
use careful_resume::target::{
    strip_ipv6_brackets, Target, TargetError, UrlParts, DEFAULT_PORT, UNRESOLVED,
};
use careful_resume::transport::{
    alpn_protocols, choose_controller, plan_transport, Controller, TransportOptions, MAX_VARINT,
};

#[test]
fn fixed_values() {
    assert_eq!(DEFAULT_PORT, 4433);
    assert_eq!(UNRESOLVED, "couldn't resolve to an address");
    assert_eq!((CLOSE_CODE, CLOSE_REASON, REBIND_ADDRESS), (0, "done", "[::]:0"));
}

#[test]
fn brackets() {
    assert_eq!(strip_ipv6_brackets("[::1]"), "::1");
    assert_eq!(strip_ipv6_brackets("[]"), "");
    assert_eq!(strip_ipv6_brackets("[[x]]"), "[x]");
    for host in ["", "[", "]", "][", "example.com", "[::1", "::1]", "é"] {
        assert_eq!(strip_ipv6_brackets(host), host);
    }
    assert_eq!(strip_ipv6_brackets("[é]"), "é");
}

#[test]
fn target_of_parts() {
    let parts = UrlParts { host: Some("[::1]".to_string()), port: None, path: "/a%20b".to_string() };
    let t = Target::new(parts, None);
    assert_eq!(t.address, "::1");
    assert_eq!(t.port, 4433);
    assert_eq!(t.server_name, "::1");
    assert_eq!(t.request, "GET /a%20b\r\n");
    let parts = UrlParts { host: Some("a.b".to_string()), port: Some(7), path: "/".to_string() };
    let t = Target::new(parts, Some("c.d".to_string()));
    assert_eq!((t.address.as_str(), t.port, t.server_name.as_str()), ("a.b", 7, "c.d"));
}

fn target(url: &str) -> Target {
    match Target::from_url(url, None) {
        Ok(t) => t,
        Err(_) => panic!("no target"),
    }
}

#[test]
fn target_of_url() {
    let t = target("https://[::1]:4434/Cargo.toml?x=1#y");
    assert_eq!(t.address, "::1");
    assert_eq!(t.port, 4434);
    assert_eq!(t.server_name, "::1");
    assert_eq!(t.request, "GET /Cargo.toml\r\n");
    let t = target("https://EXAMPLE.com");
    assert_eq!(t.address, "example.com");
    assert_eq!(t.port, 4433);
    assert_eq!(t.request, "GET /\r\n");
    // The default port of a scheme counts as none.
    assert_eq!(target("https://example.com:443/").port, 4433);
}

#[test]
fn server_name_can_be_given() {
    let t = Target::from_url("https://10.0.0.1/", Some("localhost".to_string()));
    assert!(matches!(t, Ok(t) if t.address == "10.0.0.1" && t.server_name == "localhost"));
}

#[test]
fn texts_that_give_no_target() {
    let r = Target::from_url("no url", None);
    assert!(matches!(r, Err(TargetError::InvalidUrl(why)) if why == "relative URL without a base"));
    let r = Target::from_url("data:text/plain,x", None);
    assert!(matches!(r, Err(TargetError::MissingHost)));
}

fn names(words: &[&str]) -> Vec<String> {
    words.iter().map(|w| w.to_string()).collect()
}

#[test]
fn controllers() {
    let pick = |words: &[&str]| choose_controller(&names(words), 12000);
    assert_eq!(pick(&["newReno"]), Controller::NewReno { by_name: true });
    assert_eq!(pick(&["cubic"]), Controller::Cubic { initial_window: 12000 });
    assert_eq!(pick(&["bbr"]), Controller::Bbr { initial_window: 12000 });
    assert_eq!(pick(&["Cubic"]), Controller::NewReno { by_name: false });
    assert_eq!(pick(&["cubic", "bbr"]), Controller::NewReno { by_name: false });
    assert_eq!(pick(&["", "cubic"]), Controller::NewReno { by_name: false });
    assert_eq!(pick(&[]), Controller::NewReno { by_name: false });
}

#[test]
fn transport() {
    let plan = plan_transport(&TransportOptions {
        initial_rtt_millis: 333,
        idle_timeout_millis: 100_000,
        requested_max_ack_delay_micros: 1_500_000,
        ack_eliciting_threshold: 10,
        congestion_control: names(&["cubic"]),
        initial_cwnd: 12_000,
    });
    assert_eq!(plan.initial_rtt, Span::new(0, 333_000_000));
    assert_eq!(plan.max_idle_timeout, Span::from_secs(100));
    assert_eq!(plan.ack_frequency.ack_eliciting_threshold, Some(10));
    assert_eq!(plan.ack_frequency.max_ack_delay, Span::new(1, 500_000_000));
    assert_eq!(plan.stream_receive_window, MAX_VARINT);
    assert_eq!(MAX_VARINT, (1 << 62) - 1);
    assert_eq!(plan.send_window, u64::MAX);
    assert_eq!(plan.controller, Controller::Cubic { initial_window: 12_000 });
}

#[test]
fn protocols() {
    assert_eq!(alpn_protocols(), vec![b"hq-29".to_vec(), b"hq-interop".to_vec()]);
}

#[test]
fn outcomes_of_a_certificate() {
    for asked_for in [false, true] {
        let taken = after_cert(asked_for, CertOutcome::Parsed(Ok(())));
        assert!(matches!(taken, CertStep::Trusted));
        let refused = after_cert(asked_for, CertOutcome::Parsed(Err("why".to_string())));
        assert!(matches!(refused, CertStep::Refused(reason) if reason == "why"));
    }
    assert!(matches!(after_cert(true, CertOutcome::NotFound), CertStep::GiveUp));
    assert!(matches!(after_cert(true, CertOutcome::Failed), CertStep::GiveUp));
    assert!(matches!(after_cert(false, CertOutcome::NotFound), CertStep::NoteMissing));
    assert!(matches!(after_cert(false, CertOutcome::Failed), CertStep::ReportFailure));
}

/// The smallest certificate of the first version: a serial number and empty
/// fields.
fn small_certificate() -> Vec<u8> {
    let mut der = vec![0x30, 0x14, 0x30, 0x0d, 0x02, 0x01, 0x01];
    for _ in 0..5 {
        der.extend([0x30, 0x00]);
    }
    der.extend([0x30, 0x00, 0x03, 0x01, 0x00]);
    der
}

#[test]
fn roots_from_bytes() {
    for asked_for in [false, true] {
        let taken = trust_root(asked_for, CertRead::Loaded(small_certificate()));
        assert!(matches!(taken, CertStep::Trusted));
        for der in [vec![], b"no certificate".to_vec(), small_certificate()[..10].to_vec()] {
            let refused = trust_root(asked_for, CertRead::Loaded(der));
            assert!(
                matches!(refused, CertStep::Refused(s) if s == "invalid peer certificate: BadEncoding")
            );
        }
    }
    assert!(matches!(trust_root(true, CertRead::NotFound), CertStep::GiveUp));
    assert!(matches!(trust_root(false, CertRead::NotFound), CertStep::NoteMissing));
    assert!(matches!(trust_root(true, CertRead::Failed), CertStep::GiveUp));
    assert!(matches!(trust_root(false, CertRead::Failed), CertStep::ReportFailure));
}

fn course(requests: u64, rebind: bool) -> Vec<SessionAction> {
    let mut session = Session::new(requests, rebind);
    let mut actions = Vec::new();
    while session.action() != SessionAction::Stop {
        actions.push(session.action());
        session.succeeded();
    }
    assert_eq!(session.phase(), SessionPhase::Finished);
    actions
}

#[test]
fn course_of_a_session() {
    assert_eq!(
        course(0, true),
        vec![SessionAction::Connect, SessionAction::Close, SessionAction::WaitIdle]
    );
    assert_eq!(
        course(2, false),
        vec![
            SessionAction::Connect,
            SessionAction::OpenStream,
            SessionAction::SendRequest,
            SessionAction::ReadResponse,
            SessionAction::OpenStream,
            SessionAction::SendRequest,
            SessionAction::ReadResponse,
            SessionAction::Close,
            SessionAction::WaitIdle,
        ]
    );
    assert_eq!(
        course(1, true),
        vec![
            SessionAction::Connect,
            SessionAction::OpenStream,
            SessionAction::Rebind,
            SessionAction::SendRequest,
            SessionAction::ReadResponse,
            SessionAction::Close,
            SessionAction::WaitIdle,
        ]
    );
}

#[test]
fn failures_of_a_session() {
    let expected = [
        Some(SessionFailure::Connect),
        Some(SessionFailure::OpenStream),
        None,
        Some(SessionFailure::SendRequest),
        Some(SessionFailure::ReadResponse),
        None,
        None,
        None,
    ];
    for (steps, failure) in expected.iter().enumerate() {
        let mut session = Session::new(1, true);
        for _ in 0..steps {
            session.succeeded();
        }
        let before = session.phase();
        assert_eq!(session.failed(), *failure);
        match *failure {
            Some(f) => {
                assert_eq!(session.phase(), SessionPhase::Failed(f));
                assert_eq!(session.action(), SessionAction::Stop);
                session.succeeded();
                assert_eq!(session.phase(), SessionPhase::Failed(f));
                assert_eq!(session.failed(), None);
            }
            None => assert_eq!(session.phase(), before),
        }
    }
}

#[test]
fn failure_messages() {
    assert_eq!(SessionFailure::Connect.message("x"), "failed to connect: x");
    assert_eq!(SessionFailure::OpenStream.message("x"), "failed to open stream: x");
    assert_eq!(SessionFailure::SendRequest.message("x"), "failed to send request: x");
    assert_eq!(SessionFailure::ReadResponse.message(""), "failed to read response: ");
}
