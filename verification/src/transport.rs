//! What the transport is configured with.
use crate::span::Span;
use crate::text::{join, joined, string_views};
use vstd::prelude::*;

verus! {

/// The largest value of a QUIC variable-length integer.
pub const MAX_VARINT: u64 = 4_611_686_018_427_387_903;

/// A congestion controller.
#[derive(Clone, Copy, Debug, PartialEq, Eq, Structural)]
pub enum Controller {
    /// New Reno, by name or because no known controller is named.
    NewReno { by_name: bool },
    /// Cubic, from this initial window in bytes.
    Cubic { initial_window: u64 },
    /// BBR, from this initial window in bytes.
    Bbr { initial_window: u64 },
}

/// The controller that is named by the words `names`, put together with
/// spaces.
pub open spec fn controller_for(names: Seq<Seq<char>>, initial_window: u64) -> Controller {
    let name = joined(names, " "@);
    if name == "newReno"@ {
        Controller::NewReno { by_name: true }
    } else if name == "cubic"@ {
        Controller::Cubic { initial_window }
    } else if name == "bbr"@ {
        Controller::Bbr { initial_window }
    } else {
        Controller::NewReno { by_name: false }
    }
}

/// Picks the congestion controller that `names` asks for.
pub fn choose_controller(names: &Vec<String>, initial_window: u64) -> (r: Controller)
    ensures
        r == controller_for(string_views(names@), initial_window),
{
    let name = join(names, " ");
    if name == String::from_str("newReno") {
        Controller::NewReno { by_name: true }
    } else if name == String::from_str("cubic") {
        Controller::Cubic { initial_window }
    } else if name == String::from_str("bbr") {
        Controller::Bbr { initial_window }
    } else {
        Controller::NewReno { by_name: false }
    }
}

/// One word that names a controller picks it; every other word picks New Reno.
pub proof fn law_one_word_names_a_controller(name: Seq<char>, initial_window: u64)
    ensures
        controller_for(seq![name], initial_window) == (if name == "cubic"@ {
            Controller::Cubic { initial_window }
        } else if name == "bbr"@ {
            Controller::Bbr { initial_window }
        } else {
            Controller::NewReno { by_name: name == "newReno"@ }
        }),
{
    reveal_strlit("newReno");
    reveal_strlit("cubic");
    reveal_strlit("bbr");
    assert("newReno"@.len() == 7 && "cubic"@.len() == 5 && "bbr"@.len() == 3);
}

/// No word, or more than one, names no controller and so picks New Reno.
pub proof fn law_other_word_counts_fall_back(names: Seq<Seq<char>>, initial_window: u64)
    requires
        names.len() != 1,
    ensures
        controller_for(names, initial_window) == (Controller::NewReno { by_name: false }),
{
    reveal_strlit(" ");
    reveal_strlit("newReno");
    reveal_strlit("cubic");
    reveal_strlit("bbr");
    let name = joined(names, " "@);
    if names.len() == 0 {
        assert(name.len() == 0);
    } else {
        let at = joined(names.drop_last(), " "@).len() as int;
        assert(name[at] == ' ');
        assert(name.contains(' '));
        assert(!"newReno"@.contains(' '));
        assert(!"cubic"@.contains(' '));
        assert(!"bbr"@.contains(' '));
    }
}

/// The transport options of a client. Times are in the unit that each name
/// ends in.
pub struct TransportOptions {
    pub initial_rtt_millis: u64,
    pub idle_timeout_millis: u64,
    pub requested_max_ack_delay_micros: u64,
    pub ack_eliciting_threshold: u32,
    pub congestion_control: Vec<String>,
    pub initial_cwnd: u64,
}

/// A request to the peer on how often to acknowledge.
#[derive(Clone, Copy, Debug)]
pub struct AckFrequency {
    /// Packets that the peer may leave without an acknowledgement; the
    /// transport's default where `None`.
    pub ack_eliciting_threshold: Option<u32>,
    /// The longest wait before an acknowledgement.
    pub max_ack_delay: Span,
}

/// What the transport is configured with.
pub struct TransportPlan {
    pub initial_rtt: Span,
    pub max_idle_timeout: Span,
    pub ack_frequency: AckFrequency,
    pub stream_receive_window: u64,
    pub send_window: u64,
    pub controller: Controller,
}

/// Works out the configuration from the options. The windows are as large as
/// the protocol allows.
pub fn plan_transport(options: &TransportOptions) -> (r: TransportPlan)
    requires
        options.idle_timeout_millis <= MAX_VARINT,
    ensures
        r.initial_rtt@ == options.initial_rtt_millis as nat * 1_000_000,
        r.max_idle_timeout@ == options.idle_timeout_millis as nat * 1_000_000,
        r.ack_frequency.ack_eliciting_threshold == Some(options.ack_eliciting_threshold),
        r.ack_frequency.max_ack_delay@ == options.requested_max_ack_delay_micros as nat * 1_000,
        r.stream_receive_window == MAX_VARINT,
        r.send_window == u64::MAX,
        r.controller == controller_for(
            string_views(options.congestion_control@),
            options.initial_cwnd,
        ),
{
    TransportPlan {
        initial_rtt: Span::from_millis(options.initial_rtt_millis),
        max_idle_timeout: Span::from_millis(options.idle_timeout_millis),
        ack_frequency: AckFrequency {
            ack_eliciting_threshold: Some(options.ack_eliciting_threshold),
            max_ack_delay: Span::from_micros(options.requested_max_ack_delay_micros),
        },
        stream_receive_window: MAX_VARINT,
        send_window: u64::MAX,
        controller: choose_controller(&options.congestion_control, options.initial_cwnd),
    }
}

/// The names of the protocol, most preferred first: `hq-29` and `hq-interop`
/// in ASCII.
pub fn alpn_protocols() -> (r: Vec<Vec<u8>>)
    ensures
        r@.len() == 2,
        r@[0]@ == seq![104u8, 113, 45, 50, 57],
        r@[1]@ == seq![104u8, 113, 45, 105, 110, 116, 101, 114, 111, 112],
{
    let draft: Vec<u8> = vec![104u8, 113, 45, 50, 57];
    let interop: Vec<u8> = vec![104u8, 113, 45, 105, 110, 116, 101, 114, 111, 112];
    let mut names: Vec<Vec<u8>> = Vec::new();
    names.push(draft);
    names.push(interop);
    names
}

/// A known name is spelled out exactly: `newReno`, `cubic` and `bbr`. The
/// window goes to the controllers that take one, as it is.
pub proof fn law_names_of_controllers(name: Seq<char>, initial_window: u64)
    ensures
        name == seq!['c', 'u', 'b', 'i', 'c'] <==> controller_for(seq![name], initial_window)
            == (Controller::Cubic { initial_window }),
        name == seq!['b', 'b', 'r'] <==> controller_for(seq![name], initial_window) == (
        Controller::Bbr { initial_window }),
        name == seq!['n', 'e', 'w', 'R', 'e', 'n', 'o'] <==> controller_for(
            seq![name],
            initial_window,
        ) == (Controller::NewReno { by_name: true }),
{
    reveal_strlit("newReno");
    reveal_strlit("cubic");
    reveal_strlit("bbr");
    assert("cubic"@ =~= seq!['c', 'u', 'b', 'i', 'c']);
    assert("bbr"@ =~= seq!['b', 'b', 'r']);
    assert("newReno"@ =~= seq!['n', 'e', 'w', 'R', 'e', 'n', 'o']);
    law_one_word_names_a_controller(name, initial_window);
}

/// A variable-length integer has 62 bits.
pub proof fn law_variable_length_integers()
    ensures
        MAX_VARINT + 1 == 0x4000_0000_0000_0000,
{
}

/// Two plans differ only where their options do: each time and the threshold
/// come from the option of the same name and from no other, and the windows
/// from none.
pub proof fn law_plan_follows_its_options(
    o1: TransportOptions,
    o2: TransportOptions,
    p1: TransportPlan,
    p2: TransportPlan,
)
    requires
        call_ensures(plan_transport, (&o1,), p1),
        call_ensures(plan_transport, (&o2,), p2),
    ensures
        p1.initial_rtt@ == p2.initial_rtt@ <==> o1.initial_rtt_millis == o2.initial_rtt_millis,
        p1.max_idle_timeout@ == p2.max_idle_timeout@ <==> o1.idle_timeout_millis
            == o2.idle_timeout_millis,
        p1.ack_frequency.max_ack_delay@ == p2.ack_frequency.max_ack_delay@
            <==> o1.requested_max_ack_delay_micros == o2.requested_max_ack_delay_micros,
        p1.ack_frequency.ack_eliciting_threshold == p2.ack_frequency.ack_eliciting_threshold
            <==> o1.ack_eliciting_threshold == o2.ack_eliciting_threshold,
        p1.initial_rtt@ == p2.max_idle_timeout@ <==> o1.initial_rtt_millis
            == o2.idle_timeout_millis,
        p1.initial_rtt@ == p2.ack_frequency.max_ack_delay@ <==> 1_000 * o1.initial_rtt_millis
            == o2.requested_max_ack_delay_micros,
        1_000 * o1.requested_max_ack_delay_micros == p1.ack_frequency.max_ack_delay@,
        p1.ack_frequency.ack_eliciting_threshold is Some,
        p1.stream_receive_window == 0x3fff_ffff_ffff_ffff,
        p1.send_window == 0xffff_ffff_ffff_ffff,
{
}

} // verus!
