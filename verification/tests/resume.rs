use careful_resume::resume::{CrState, OwnResume};
use careful_resume::span::Span;
use std::time::{Duration, Instant};

fn resumed() -> OwnResume {
    OwnResume::new(Some("rtt,4,cwnd,80000,time,1000"), Span::from_secs(1000))
}

fn jumped() -> OwnResume {
    let mut r = resumed();
    assert_eq!(r.send_packet(Some(Span::from_secs(4)), 12000, false, true), 40000);
    r
}

#[test]
fn starts_in_reconnaissance() {
    assert_eq!(CrState::default(), CrState::Reconnaissance);
    let mut r = resumed();
    assert_eq!(r.get_state(), CrState::Reconnaissance);
    assert_eq!(r.get_pipesize(), 0);
    assert_eq!(r.get_jump_cwnd(), 0);
    assert_eq!(r.total_acked, 0);
    assert!(r.enabled());
}

#[test]
fn jump_to_half_of_the_saved_window() {
    let r = jumped();
    assert_eq!(r.get_state(), CrState::Unvalidated);
    assert_eq!(r.get_jump_cwnd(), 40000);
    assert_eq!(r.get_pipesize(), 12000);
}

#[test]
fn no_jump_while_limited() {
    let mut r = resumed();
    let rtt = Some(Span::from_secs(4));
    assert_eq!(r.send_packet(rtt, 12000, true, true), 0);
    assert_eq!(r.send_packet(rtt, 12000, false, false), 0);
    assert_eq!(r.get_state(), CrState::Reconnaissance);
    assert_eq!(r.get_jump_cwnd(), 0);
}

#[test]
fn jump_window_is_half_once_considered() {
    let mut r = resumed();
    r.process_ack(1, 1200, 0);
    r.send_packet(Some(Span::from_secs(4)), 12000, true, true);
    assert_eq!(r.get_jump_cwnd(), 0);
    r.send_packet(None, 12000, false, true);
    assert_eq!(r.get_jump_cwnd(), 40000);
    r.congestion_event(2);
    r.change_state(CrState::Reconnaissance);
    assert_eq!(r.get_jump_cwnd(), 40000);
}

#[test]
fn no_decision_without_a_sample() {
    let mut r = resumed();
    assert_eq!(r.send_packet(None, 12000, false, true), 12000);
    assert_eq!(r.get_state(), CrState::Reconnaissance);
    assert_eq!(r.get_jump_cwnd(), 40000);
    assert_eq!(r.get_pipesize(), 0);
    assert_eq!(r.send_packet(Some(Span::from_secs(4)), 13000, false, true), 40000);
    assert_eq!(r.get_pipesize(), 13000);
}

#[test]
fn no_jump_without_a_saved_window() {
    for file in ["rtt,4,cwnd,0,time,1000", "rtt,4,cwnd,1,time,1000", "rtt,4,cwnd,x,time,1000"] {
        let mut r = OwnResume::new(Some(file), Span::from_secs(1000));
        assert_eq!(r.send_packet(Some(Span::from_secs(4)), 12000, false, true), 0);
        assert_eq!(r.get_state(), CrState::Normal);
    }
}

#[test]
fn one_jump_per_connection() {
    let mut r = jumped();
    assert_eq!(r.send_packet(Some(Span::from_secs(4)), 40000, false, true), 0);
    r.process_ack(3, 1000, 0);
    assert_eq!(r.send_packet(Some(Span::from_secs(4)), 40000, false, true), 0);
}

#[test]
fn diverging_samples() {
    let r = resumed();
    let saved = Duration::from_secs(4);
    for nanos in [0, 1_999_999_999, 2_000_000_000, 2_000_000_001, 39_999_999_999, 40_000_000_000] {
        let sample = Duration::from_nanos(nanos);
        let span = Span::new(sample.as_secs(), sample.subsec_nanos());
        assert_eq!(r.rtt_diverges(span), sample <= saved / 2 || sample >= saved * 10);
    }
    assert!(r.rtt_diverges(Span::from_secs(2)));
    assert!(!r.rtt_diverges(Span::from_secs(3)));
    assert!(r.rtt_diverges(Span::from_secs(40)));
}

#[test]
fn diverging_sample_ends_careful_resume() {
    for secs in [0, 2, 40, 100] {
        let mut r = resumed();
        assert_eq!(r.send_packet(Some(Span::from_secs(secs)), 12000, false, true), 0);
        assert_eq!(r.get_state(), CrState::Normal);
        assert_eq!(r.get_pipesize(), 0);
        assert_eq!(r.get_jump_cwnd(), 40000);
        assert!(!r.enabled());
    }
    for secs in [3, 39] {
        let mut r = resumed();
        assert_eq!(r.send_packet(Some(Span::from_secs(secs)), 12000, false, true), 40000);
        assert_eq!(r.get_state(), CrState::Unvalidated);
    }
    let mut r = OwnResume::new(Some("rtt,2,cwnd,100000,time,1000"), Span::from_secs(1000));
    assert_eq!(r.send_packet(Some(Span::from_secs(20)), 12000, false, true), 0);
    assert_eq!(r.get_state(), CrState::Normal);
}

#[test]
fn window_has_no_part_in_the_jump() {
    for cwnd in [0, 12000, 1_000_000] {
        let mut r = resumed();
        assert_eq!(r.send_packet(Some(Span::from_secs(4)), cwnd, false, true), 40000);
        r.process_ack(1, 500, 0);
        assert_eq!(r.get_pipesize(), cwnd + 500);
    }
}

#[test]
fn sample_below_an_absent_saved_rtt() {
    let mut r = OwnResume::new(Some("rtt,?,cwnd,80000,time,1000"), Span::from_secs(1000));
    assert!(r.rtt_diverges(Span::from_secs(1)));
    assert_eq!(r.send_packet(Some(Span::from_secs(1)), 12000, false, true), 0);
    assert_eq!(r.get_state(), CrState::Normal);
}

#[test]
fn first_ack_with_all_validated() {
    let mut r = jumped();
    assert_eq!(r.process_ack(9, 3000, 15000), (Some(15000), None));
    assert_eq!(r.get_state(), CrState::Normal);
    assert_eq!(r.get_pipesize(), 15000);
    assert_eq!(r.total_acked, 3000);
}

#[test]
fn first_ack_with_more_in_flight() {
    let mut r = jumped();
    assert_eq!(r.process_ack(9, 3000, 15001), (Some(15001), None));
    assert_eq!(r.get_state(), CrState::Validating(9));
}

#[test]
fn validation_ends_with_its_packet() {
    let mut r = jumped();
    r.process_ack(9, 1000, 40000);
    assert_eq!(r.process_ack(8, 1000, 40000), (None, None));
    assert_eq!(r.get_state(), CrState::Validating(9));
    assert_eq!(r.process_ack(9, 1000, 40000), (None, None));
    assert_eq!(r.get_state(), CrState::Normal);
    assert_eq!(r.get_pipesize(), 15000);
}

#[test]
fn loss_while_validating() {
    let mut r = jumped();
    r.process_ack(9, 1000, 40000);
    assert_eq!(r.congestion_event(20), 0);
    assert_eq!(r.get_state(), CrState::Normal);
}

#[test]
fn retreat_ends_with_its_last_packet() {
    let mut r = jumped();
    assert_eq!(r.congestion_event(20), 0);
    assert_eq!(r.get_state(), CrState::SafeRetreat(20));
    assert_eq!(r.congestion_event(30), 0);
    assert_eq!(r.get_state(), CrState::SafeRetreat(20));
    assert_eq!(r.process_ack(19, 500, 0), (None, None));
    assert_eq!(r.get_pipesize(), 12500);
    assert_eq!(r.process_ack(20, 700, 0), (None, Some(12500)));
    assert_eq!(r.get_state(), CrState::Normal);
    assert_eq!(r.get_pipesize(), 12500);
    assert_eq!(r.get_total_acked(), 1200);
}

#[test]
fn loss_in_reconnaissance() {
    let mut r = resumed();
    assert_eq!(r.congestion_event(3), 0);
    assert_eq!(r.get_state(), CrState::Normal);
}

#[test]
fn nothing_is_left_in_normal() {
    let mut r = resumed();
    r.change_state(CrState::Normal);
    assert!(!r.enabled());
    assert_eq!(r.process_ack(5, 100, 7), (None, None));
    assert_eq!(r.send_packet(Some(Span::from_secs(4)), 12000, false, true), 0);
    assert_eq!(r.congestion_event(6), 0);
    assert_eq!(r.get_state(), CrState::Normal);
    assert_eq!((r.get_pipesize(), r.get_jump_cwnd(), r.total_acked), (0, 0, 100));
}

#[test]
fn acks_in_reconnaissance_are_only_counted() {
    let mut r = resumed();
    assert_eq!(r.process_ack(1, 1200, 0), (None, None));
    assert_eq!(r.get_state(), CrState::Reconnaissance);
    assert_eq!((r.get_pipesize(), r.total_acked), (0, 1200));
}

#[test]
fn disabled_connection_never_jumps() {
    let mut r = OwnResume::new(Some("rtt,4,cwnd,80000,time,1000"), Span::from_secs(1_000_000));
    assert!(!r.enabled());
    assert!(!r.enabled());
    assert_eq!(r.send_packet(Some(Span::from_secs(4)), 12000, false, true), 0);
}

#[test]
fn timer_leaves_the_rest() {
    let mut r = jumped();
    let line = r.debug_string();
    r.update_state_timer();
    r.start_state_timer(Instant::now());
    assert_eq!(r.debug_string(), line);
    assert_eq!(r.get_jump_cwnd(), 40000);
}

#[test]
fn phases_print_like_their_derived_debug() {
    for state in [
        CrState::Reconnaissance,
        CrState::Unvalidated,
        CrState::Validating(0),
        CrState::Validating(17),
        CrState::SafeRetreat(u64::MAX),
        CrState::Normal,
    ] {
        assert_eq!(state.to_text(), format!("{:?}", state));
    }
}

#[test]
fn line_of_text() {
    let r = jumped();
    assert_eq!(
        r.debug_string(),
        "cr_state=Unvalidated saved_rtt=4s saved_cwnd=80000 pipesize=12000 "
    );
    assert_eq!(
        r.debug_string_with("soon"),
        "cr_state=Unvalidated saved_rtt=soon saved_cwnd=80000 pipesize=12000 "
    );
    let none = OwnResume::new(Some("a,0,b,1,c,0"), Span::from_secs(0));
    assert_eq!(
        none.debug_string(),
        format!(
            "cr_state=Reconnaissance saved_rtt={:?} saved_cwnd=1 pipesize=0 ",
            Duration::ZERO
        )
    );
}

#[test]
fn clones_go_their_own_way() {
    let mut r = jumped();
    let copy = r.clone();
    r.congestion_event(2);
    assert_eq!(r.get_state(), CrState::SafeRetreat(2));
    assert_eq!(copy.get_state(), CrState::Unvalidated);
    assert_eq!(copy.get_pipesize(), 12000);
}
