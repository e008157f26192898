//! What each operation does to a connection and what it returns, phase by
//! phase, and what that means for the operations that follow.
use crate::resume::{opt_nat, opt_span, CrState, ResumeModel};
use crate::resume_laws::{
    law_phases_only_advance, lemma_after_all_split, lemma_left_to_itself_prefix, left_to_itself,
    ResumeEvent,
};
use crate::saved::{contents_view, saved_file, SavedFile};
use crate::span::Span;
use std::time::Instant;
use vstd::prelude::*;

verus! {

/// Optional numbers, spans and texts stand for what they hold.
pub proof fn law_options_keep_their_value(n: u64, d: Span, text: &str)
    ensures
        opt_nat(None) is None,
        opt_nat(Some(n)) == Some(n as nat),
        opt_span(None) is None,
        opt_span(Some(d)) == Some(d@),
        contents_view(None) is None,
        contents_view(Some(text)) == Some(text@),
{
}

/// The window that the first acknowledgement after a jump returns is the
/// greater of the pipe, with the acknowledged bytes in it, and the flight. It
/// is below neither.
pub proof fn law_first_ack_returns_the_greater(m: ResumeModel, bytes: nat, flight: nat)
    requires
        m.state == CrState::Unvalidated,
    ensures
        m.cwnd_from_ack(bytes, flight) matches Some(w) && w >= m.pipesize + bytes && w >= flight
            && (w == m.pipesize + bytes || w == flight),
{
}

/// The first acknowledgement after a jump returns a window of at least what
/// was in use before the jump and the bytes acknowledged.
pub proof fn law_first_ack_keeps_the_window_before_the_jump(
    m: ResumeModel,
    sample: nat,
    cwnd: nat,
    bytes: nat,
    flight: nat,
)
    requires
        m.state == CrState::Reconnaissance,
        m.saved_cwnd >= 2,
        2 * sample > m.saved_rtt,
        sample < 10 * m.saved_rtt,
    ensures
        m.after_send(Some(sample), cwnd, false, true).cwnd_from_ack(bytes, flight) matches Some(w)
            && w >= cwnd + bytes && w >= flight,
{
    lemma_halves(sample, m.saved_rtt);
}

proof fn lemma_halves(sample: nat, saved: nat)
    ensures
        sample <= saved / 2 <==> 2 * sample <= saved,
{
}

/// In no phase but `Unvalidated` does an acknowledgement return a window.
pub proof fn law_other_phases_return_no_window(m: ResumeModel, bytes: nat, flight: nat)
    requires
        m.state != CrState::Unvalidated,
    ensures
        m.cwnd_from_ack(bytes, flight) is None,
{
}

/// The first acknowledgement after a jump ends Careful Resume where the pipe
/// covers the flight. Otherwise validation waits for the packet acknowledged.
pub proof fn law_first_ack_after_jump(m: ResumeModel, largest: u64, bytes: nat, flight: nat)
    requires
        m.state == CrState::Unvalidated,
    ensures
        flight <= m.pipesize + bytes ==> m.after_ack(largest, bytes, flight).state
            == CrState::Normal,
        flight > m.pipesize + bytes ==> m.after_ack(largest, bytes, flight).state
            == CrState::Validating(largest),
        m.after_ack(largest, bytes, flight) == (ResumeModel {
            state: m.after_ack(largest, bytes, flight).state,
            pipesize: m.pipesize + bytes,
            total_acked: m.total_acked + bytes,
            ..m
        }),
        m.ssthresh_from_ack(largest) is None,
{
}

/// While validating, an acknowledgement adds its bytes to the pipe, and ends
/// Careful Resume exactly if it reaches the packet waited for.
pub proof fn law_ack_while_validating(
    m: ResumeModel,
    last: u64,
    largest: u64,
    bytes: nat,
    flight: nat,
)
    requires
        m.state == CrState::Validating(last),
    ensures
        largest < last ==> m.after_ack(largest, bytes, flight).state == CrState::Validating(last),
        largest >= last ==> m.after_ack(largest, bytes, flight).state == CrState::Normal,
        m.after_ack(largest, bytes, flight) == (ResumeModel {
            state: m.after_ack(largest, bytes, flight).state,
            pipesize: m.pipesize + bytes,
            total_acked: m.total_acked + bytes,
            ..m
        }),
        m.ssthresh_from_ack(largest) is None,
{
}

/// While retreating, an acknowledgement short of the last packet adds its
/// bytes to the pipe and returns nothing. One that reaches it ends Careful
/// Resume, leaves the pipe and returns it as the threshold.
pub proof fn law_ack_while_retreating(
    m: ResumeModel,
    last: u64,
    largest: u64,
    bytes: nat,
    flight: nat,
)
    requires
        m.state == CrState::SafeRetreat(last),
    ensures
        largest < last ==> m.after_ack(largest, bytes, flight) == (ResumeModel {
            pipesize: m.pipesize + bytes,
            total_acked: m.total_acked + bytes,
            ..m
        }) && m.ssthresh_from_ack(largest) is None,
        largest >= last ==> m.after_ack(largest, bytes, flight) == (ResumeModel {
            state: CrState::Normal,
            total_acked: m.total_acked + bytes,
            ..m
        }) && m.ssthresh_from_ack(largest) == Some(m.pipesize),
{
}

/// Before a jump and after Careful Resume an acknowledgement is only counted.
pub proof fn law_ack_is_only_counted(m: ResumeModel, largest: u64, bytes: nat, flight: nat)
    requires
        m.state == CrState::Reconnaissance || m.state == CrState::Normal,
    ensures
        m.after_ack(largest, bytes, flight) == (ResumeModel {
            total_acked: m.total_acked + bytes,
            ..m
        }),
        m.ssthresh_from_ack(largest) is None,
{
}

/// A connection asks for a congestion window and a threshold never at once.
pub proof fn law_window_or_threshold(m: ResumeModel, largest: u64, bytes: nat, flight: nat)
    ensures
        m.cwnd_from_ack(bytes, flight) is None || m.ssthresh_from_ack(largest) is None,
        m.cwnd_from_ack(bytes, flight) is Some <==> m.state == CrState::Unvalidated,
        m.ssthresh_from_ack(largest) is Some <==> (m.state matches CrState::SafeRetreat(last)
            && largest >= last),
{
}

/// An acknowledgement never takes a byte out of the pipe, and two
/// acknowledgements short of ending a phase fill it like one of their sum.
pub proof fn law_acks_add_up(
    m: ResumeModel,
    last: u64,
    largest: u64,
    bytes1: nat,
    bytes2: nat,
    flight: nat,
)
    requires
        m.state == CrState::Validating(last) || m.state == CrState::SafeRetreat(last),
        largest < last,
    ensures
        m.after_ack(largest, bytes1, flight).after_ack(largest, bytes2, flight) == m.after_ack(
            largest,
            bytes1 + bytes2,
            flight,
        ),
        m.after_ack(largest, bytes1, flight).pipesize == m.pipesize + bytes1,
{
}

/// Outside reconnaissance a sending is given no window, whatever its
/// circumstances, and only notes the window and the sample.
pub proof fn law_only_reconnaissance_gives_a_window(
    m: ResumeModel,
    rtt: Option<nat>,
    cwnd: nat,
    app_limited: bool,
    iw_acked: bool,
)
    requires
        m.state != CrState::Reconnaissance,
    ensures
        m.cwnd_from_send(rtt, cwnd, app_limited, iw_acked) == 0,
        m.after_send(rtt, cwnd, app_limited, iw_acked) == (ResumeModel { cwnd, rtt, ..m }),
{
}

/// A sending in reconnaissance that nothing limits, with a sample strictly
/// between half and ten times the saved round-trip time and a saved window
/// worth halving, is given half of the saved window. The connection is then
/// unvalidated, with the window in use so far as its pipe.
pub proof fn law_jump(m: ResumeModel, sample: nat, cwnd: nat)
    requires
        m.state == CrState::Reconnaissance,
        m.saved_cwnd >= 2,
        2 * sample > m.saved_rtt,
        sample < 10 * m.saved_rtt,
    ensures
        m.saved_cwnd - 1 <= 2 * m.cwnd_from_send(Some(sample), cwnd, false, true) <= m.saved_cwnd,
        m.after_send(Some(sample), cwnd, false, true) == (ResumeModel {
            state: CrState::Unvalidated,
            jump_cwnd: m.cwnd_from_send(Some(sample), cwnd, false, true),
            pipesize: cwnd,
            cwnd,
            rtt: Some(sample),
            ..m
        }),
{
    lemma_halves(sample, m.saved_rtt);
}

/// A sample of at most half or at least ten times the saved round-trip time
/// ends Careful Resume at the first sending that nothing limits: no window is
/// given, and the pipe stays.
pub proof fn law_no_jump_on_another_path(m: ResumeModel, sample: nat, cwnd: nat)
    requires
        m.state == CrState::Reconnaissance,
        2 * sample <= m.saved_rtt || sample >= 10 * m.saved_rtt,
    ensures
        m.cwnd_from_send(Some(sample), cwnd, false, true) == 0,
        m.after_send(Some(sample), cwnd, false, true) == (ResumeModel {
            state: CrState::Normal,
            jump_cwnd: m.saved_cwnd / 2,
            cwnd,
            rtt: Some(sample),
            ..m
        }),
{
    lemma_halves(sample, m.saved_rtt);
}

/// Without a saved window worth halving the first sending that nothing limits
/// ends Careful Resume, with or without a sample.
pub proof fn law_no_jump_to_nothing(m: ResumeModel, rtt: Option<nat>, cwnd: nat)
    requires
        m.state == CrState::Reconnaissance,
        m.saved_cwnd < 2,
    ensures
        m.cwnd_from_send(rtt, cwnd, false, true) == 0,
        m.after_send(rtt, cwnd, false, true) == (ResumeModel {
            state: CrState::Normal,
            jump_cwnd: 0,
            cwnd,
            rtt,
            ..m
        }),
{
}

/// Without a sample a sending in reconnaissance is given the window in use and
/// the decision is put off.
pub proof fn law_no_decision_without_sample(m: ResumeModel, cwnd: nat)
    requires
        m.state == CrState::Reconnaissance,
        m.saved_cwnd >= 2,
    ensures
        m.cwnd_from_send(None, cwnd, false, true) == cwnd,
        m.after_send(None, cwnd, false, true) == (ResumeModel {
            jump_cwnd: m.saved_cwnd / 2,
            cwnd,
            rtt: None,
            ..m
        }),
{
}

/// A sending that the application limits, or that comes before the initial
/// window is acknowledged, is given no window in any phase and changes nothing
/// but the window and the sample noted.
pub proof fn law_limited_sending_is_only_noted(
    m: ResumeModel,
    rtt: Option<nat>,
    cwnd: nat,
    iw_acked: bool,
)
    ensures
        m.cwnd_from_send(rtt, cwnd, true, iw_acked) == 0,
        m.after_send(rtt, cwnd, true, iw_acked) == (ResumeModel { cwnd, rtt, ..m }),
        m.cwnd_from_send(rtt, cwnd, false, false) == 0,
        m.after_send(rtt, cwnd, false, false) == (ResumeModel { cwnd, rtt, ..m }),
{
}

/// A round-trip sample diverges exactly if it is at most half or at least ten
/// times the saved round-trip time, and can be compared exactly if it is at
/// most half or ten times the saved time is no more than `u64::MAX` seconds
/// and 999 999 999 nanoseconds.
pub proof fn law_bounds_of_a_sample(m: ResumeModel, sample: nat)
    ensures
        m.diverges(sample) <==> 2 * sample <= m.saved_rtt || sample >= 10 * m.saved_rtt,
        m.comparable(sample) <==> 2 * sample <= m.saved_rtt || 10 * m.saved_rtt
            < 0x1_0000_0000_0000_0000 * 1_000_000_000,
{
    lemma_halves(sample, m.saved_rtt);
}

/// A round-trip time can be compared with a sample in the only case in which a
/// sending needs it.
pub proof fn law_comparison_is_needed_for_a_jump_only(
    m: ResumeModel,
    rtt: Option<nat>,
    app_limited: bool,
    iw_acked: bool,
)
    ensures
        m.compares_rtt(rtt, app_limited, iw_acked) <==> m.state == CrState::Reconnaissance
            && !app_limited && iw_acked && m.saved_cwnd >= 2 && rtt is Some,
{
}

/// A loss changes the phase and nothing else: an unvalidated jump is retreated
/// from, up to the last packet sent; a retreat goes on with its own packet; in
/// every other phase, reconnaissance included, Careful Resume ends, whatever
/// was acknowledged or considered before.
pub proof fn law_loss(m: ResumeModel, largest_sent: u64)
    ensures
        m.state == CrState::Unvalidated ==> m.after_congestion(largest_sent) == (ResumeModel {
            state: CrState::SafeRetreat(largest_sent),
            ..m
        }),
        m.state is SafeRetreat ==> m.after_congestion(largest_sent) == m,
        m.state == CrState::Reconnaissance || m.state is Validating || m.state == CrState::Normal
            ==> m.after_congestion(largest_sent) == (ResumeModel { state: CrState::Normal, ..m }),
{
}

/// After a loss the phase is a retreat or `Normal`, and a second loss changes
/// nothing.
pub proof fn law_second_loss_changes_nothing(m: ResumeModel, sent1: u64, sent2: u64)
    ensures
        m.after_congestion(sent1).state is SafeRetreat || m.after_congestion(sent1).state
            == CrState::Normal,
        m.after_congestion(sent1).after_congestion(sent2) == m.after_congestion(sent1),
{
}

/// A connection left to itself is given no window after a loss: at no later
/// sending, with or without a sample, and it is never unvalidated again.
pub proof fn law_no_jump_after_loss(
    m: ResumeModel,
    largest_sent: u64,
    events: Seq<ResumeEvent>,
    rtt: Option<nat>,
    cwnd: nat,
    app_limited: bool,
    iw_acked: bool,
)
    requires
        left_to_itself(events),
    ensures
        m.after_congestion(largest_sent).after_all(events).cwnd_from_send(
            rtt,
            cwnd,
            app_limited,
            iw_acked,
        ) == 0,
        m.after_congestion(largest_sent).after_all(events).state != CrState::Unvalidated,
        m.after_congestion(largest_sent).after_all(events).state != CrState::Reconnaissance,
{
    law_phases_only_advance(m.after_congestion(largest_sent), events);
}

/// The window that an event is given, where it is a sending with a sample.
pub open spec fn window_with_sample(m: ResumeModel, e: ResumeEvent) -> nat {
    match e {
        ResumeEvent::Send { rtt: Some(sample), cwnd, app_limited, iw_acked } => m.cwnd_from_send(
            Some(sample),
            cwnd,
            app_limited,
            iw_acked,
        ),
        _ => 0,
    }
}

/// Of the sendings with a sample, at most one is given a window other than 0.
pub proof fn law_one_window_with_sample(
    m: ResumeModel,
    events: Seq<ResumeEvent>,
    i: int,
    j: int,
)
    requires
        0 <= i < j < events.len(),
        left_to_itself(events),
        window_with_sample(m.after_all(events.take(i)), events[i]) != 0,
    ensures
        window_with_sample(m.after_all(events.take(j)), events[j]) == 0,
{
    let before = events.take(j);
    assert(before.take(i + 1).drop_last() =~= events.take(i));
    assert(before.take(i + 1).last() == events[i]);
    lemma_after_all_split(m, before, i + 1);
    lemma_left_to_itself_prefix(events, j);
    lemma_left_to_itself_prefix(before, i + 1);
    law_phases_only_advance(m.after_all(before.take(i + 1)), before.skip(i + 1));
    assert(m.after_all(before.take(i + 1)).state != CrState::Reconnaissance);
}

/// Asking an enabled connection whether Careful Resume is active leaves it
/// exactly as it was. The answer is yes in every phase but `Normal`.
pub proof fn law_asking_an_enabled_connection(m: ResumeModel)
    requires
        m.enabled,
    ensures
        m.after_query() == m,
        m.is_active() <==> m.state == CrState::Reconnaissance || m.state == CrState::Unvalidated
            || m.state is Validating || m.state is SafeRetreat,
        m.is_active() <==> m.state != CrState::Normal,
{
}

/// Asking a disabled connection sends it to `Normal` and changes nothing else.
/// The answer is no.
pub proof fn law_asking_a_disabled_connection(m: ResumeModel)
    requires
        !m.enabled,
    ensures
        !m.is_active(),
        m.after_query() == (ResumeModel { state: CrState::Normal, ..m }),
{
}

/// Right after a jump of an enabled connection Careful Resume is active, and
/// having asked changes neither the answer to a loss nor the first
/// acknowledgement.
pub proof fn law_asking_after_a_jump(
    m: ResumeModel,
    sample: nat,
    cwnd: nat,
    largest_sent: u64,
    bytes: nat,
    flight: nat,
)
    requires
        m.enabled,
        m.state == CrState::Reconnaissance,
        m.saved_cwnd >= 2,
        2 * sample > m.saved_rtt,
        sample < 10 * m.saved_rtt,
    ensures
        m.after_send(Some(sample), cwnd, false, true).is_active(),
        m.after_send(Some(sample), cwnd, false, true).after_query().after_congestion(
            largest_sent,
        ).state == CrState::SafeRetreat(largest_sent),
        m.after_send(Some(sample), cwnd, false, true).after_query().cwnd_from_ack(
            bytes,
            flight,
        ) matches Some(w) && w >= cwnd + bytes && w >= flight,
{
    lemma_halves(sample, m.saved_rtt);
}

/// A connection starts in reconnaissance with nothing sent, acknowledged or
/// considered. It is enabled exactly if the file supplies a round-trip time and
/// a window and was written at most two hours before; a file without its time
/// counts as written at the epoch.
pub proof fn law_start_from_parameters(text: Seq<char>, now: nat, started: Instant)
    requires
        saved_file(text) is Params,
    ensures
        ({
            let p = saved_file(text)->Params_0;
            let m = ResumeModel::initial(Some(text), now, started);
            let written: int = if p.time_secs is Some {
                p.time_secs->0 as int
            } else {
                0
            };
            &&& m.enabled <==> p.rtt_secs is Some && p.cwnd is Some && now <= (written + 7_200)
                * 1_000_000_000
            &&& p.rtt_secs matches Some(secs) ==> m.saved_rtt == secs * 1_000_000_000
            &&& p.rtt_secs is None ==> m.saved_rtt == 0xffff_ffff_ffff_ffff * 1_000_000_000
            &&& p.cwnd matches Some(cwnd) ==> m.saved_cwnd == cwnd
            &&& p.cwnd is None ==> m.saved_cwnd == 0
            &&& m == (ResumeModel {
                enabled: m.enabled,
                state: CrState::Reconnaissance,
                saved_rtt: m.saved_rtt,
                saved_cwnd: m.saved_cwnd,
                pipesize: 0,
                jump_cwnd: 0,
                total_acked: 0,
                time_in_state: started,
                cwnd: 0,
                rtt: Some(0),
            })
        }),
{
}

/// Without a file, or with one that saves nothing, a connection starts disabled,
/// with the longest round-trip time and no window.
pub proof fn law_start_from_nothing(contents: Option<Seq<char>>, now: nat, started: Instant)
    requires
        contents matches Some(text) ==> !(saved_file(text) is Params),
    ensures
        ResumeModel::initial(contents, now, started) == (ResumeModel {
            enabled: false,
            state: CrState::Reconnaissance,
            saved_rtt: (0xffff_ffff_ffff_ffff * 1_000_000_000) as nat,
            saved_cwnd: 0,
            pipesize: 0,
            jump_cwnd: 0,
            total_acked: 0,
            time_in_state: started,
            cwnd: 0,
            rtt: Some(0),
        }),
{
}

} // verus!
