//! What holds of every connection over any sequence of events.
//!
//! The laws on phases are about connections that are left to themselves: a
//! caller that sets the phase with `change_state` can set any.
use crate::resume::{CrState, ResumeModel};
use crate::saved::{saved_file, usable, SavedFile};
use std::time::Instant;
use vstd::prelude::*;

verus! {

/// Something that happens to a connection.
pub enum ResumeEvent {
    /// The connection is asked whether Careful Resume is active.
    Query,
    /// Packets up to `largest` are acknowledged.
    Ack { largest: u64, bytes: nat, flight: nat },
    /// A packet is about to be sent.
    Send { rtt: Option<nat>, cwnd: nat, app_limited: bool, iw_acked: bool },
    /// A loss is seen.
    Congestion { largest_sent: u64 },
    /// The phase is set from outside.
    ChangeState { state: CrState },
    /// The start of the phase is noted.
    StartTimer { now: Instant },
}

impl ResumeModel {
    /// The connection after one event.
    pub open spec fn after(self, e: ResumeEvent) -> ResumeModel {
        match e {
            ResumeEvent::Query => self.after_query(),
            ResumeEvent::Ack { largest, bytes, flight } => self.after_ack(largest, bytes, flight),
            ResumeEvent::Send { rtt, cwnd, app_limited, iw_acked } => self.after_send(
                rtt,
                cwnd,
                app_limited,
                iw_acked,
            ),
            ResumeEvent::Congestion { largest_sent } => self.after_congestion(largest_sent),
            ResumeEvent::ChangeState { state } => ResumeModel { state, ..self },
            ResumeEvent::StartTimer { now } => ResumeModel { time_in_state: now, ..self },
        }
    }

    /// The connection after a sequence of events.
    pub open spec fn after_all(self, events: Seq<ResumeEvent>) -> ResumeModel
        decreases events.len(),
    {
        if events.len() == 0 {
            self
        } else {
            self.after_all(events.drop_last()).after(events.last())
        }
    }

    /// The event is not a query that sends a disabled connection to `Normal`.
    pub open spec fn survives_query(self, e: ResumeEvent) -> bool {
        self.enabled || !(e is Query)
    }

    /// The event makes the connection jump.
    pub open spec fn jumps_at(self, e: ResumeEvent) -> bool {
        match e {
            ResumeEvent::Send { rtt, cwnd, app_limited, iw_acked } => self.jumps(
                rtt,
                app_limited,
                iw_acked,
            ),
            _ => false,
        }
    }
}

/// A sending among the events makes the connection consider the jump.
pub open spec fn considered_jump(m: ResumeModel, events: Seq<ResumeEvent>) -> bool
    decreases events.len(),
{
    if events.len() == 0 {
        false
    } else {
        considered_jump(m, events.drop_last()) || (match events.last() {
            ResumeEvent::Send { rtt, cwnd, app_limited, iw_acked } => m.after_all(
                events.drop_last(),
            ).considers_jump(app_limited, iw_acked),
            _ => false,
        })
    }
}

/// The phase is never set from outside.
pub open spec fn left_to_itself(events: Seq<ResumeEvent>) -> bool {
    forall|i: int| 0 <= i < events.len() ==> !(#[trigger] events[i] is ChangeState)
}

/// The bytes that an event acknowledges.
pub open spec fn bytes_of(e: ResumeEvent) -> nat {
    match e {
        ResumeEvent::Ack { largest, bytes, flight } => bytes,
        _ => 0,
    }
}

/// The bytes that a sequence of events acknowledges.
pub open spec fn acked_bytes(events: Seq<ResumeEvent>) -> nat
    decreases events.len(),
{
    if events.len() == 0 {
        0
    } else {
        acked_bytes(events.drop_last()) + bytes_of(events.last())
    }
}

/// The event does not acknowledge packet `last`.
pub open spec fn acks_below(e: ResumeEvent, last: u64) -> bool {
    match e {
        ResumeEvent::Ack { largest, bytes, flight } => largest < last,
        _ => true,
    }
}

/// One event can take a connection from phase `a` to phase `b`.
pub open spec fn may_follow(a: CrState, b: CrState) -> bool {
    ||| a == b
    ||| b == CrState::Normal
    ||| a == CrState::Reconnaissance && b == CrState::Unvalidated
    ||| a == CrState::Unvalidated && b is Validating
    ||| a == CrState::Unvalidated && b is SafeRetreat
}

/// How far a phase is from the start.
pub open spec fn rank(s: CrState) -> nat {
    match s {
        CrState::Reconnaissance => 0,
        CrState::Unvalidated => 1,
        CrState::Validating(_) => 2,
        CrState::SafeRetreat(_) => 3,
        CrState::Normal => 4,
    }
}

/// Parts of a sequence that is left to itself are too.
pub proof fn lemma_left_to_itself_prefix(events: Seq<ResumeEvent>, k: int)
    requires
        0 <= k <= events.len(),
        left_to_itself(events),
    ensures
        left_to_itself(events.take(k)),
        left_to_itself(events.skip(k)),
{
    assert forall|i: int| 0 <= i < k implies !(#[trigger] events.take(k)[i] is ChangeState) by {
        assert(!(events[i] is ChangeState));
    }
    assert forall|i: int| 0 <= i < events.len() - k implies !(
    #[trigger] events.skip(k)[i] is ChangeState) by {
        assert(!(events[i + k] is ChangeState));
    }
}

/// One event keeps the phase or moves it one allowed step on.
pub proof fn law_phase_steps(m: ResumeModel, e: ResumeEvent)
    requires
        !(e is ChangeState),
    ensures
        may_follow(m.state, m.after(e).state),
{
}

/// A phase that was left is never entered again.
pub proof fn law_phases_only_advance(m: ResumeModel, events: Seq<ResumeEvent>)
    requires
        left_to_itself(events),
    ensures
        rank(m.state) <= rank(m.after_all(events).state),
        rank(m.state) == rank(m.after_all(events).state) ==> m.state == m.after_all(events).state,
    decreases events.len(),
{
    if events.len() > 0 {
        lemma_left_to_itself_prefix(events, events.len() - 1);
        assert(events.take(events.len() - 1) =~= events.drop_last());
        assert(!(events[events.len() - 1] is ChangeState));
        law_phases_only_advance(m, events.drop_last());
        law_phase_steps(m.after_all(events.drop_last()), events.last());
    }
}

/// In `Normal` nothing is left to Careful Resume: whatever happens, the phase,
/// the pipe and the jump window stay, and no window or threshold is asked for.
pub proof fn law_normal_is_final(
    m: ResumeModel,
    events: Seq<ResumeEvent>,
    largest: u64,
    bytes: nat,
    flight: nat,
    rtt: Option<nat>,
    cwnd: nat,
    app_limited: bool,
    iw_acked: bool,
)
    requires
        m.state == CrState::Normal,
        left_to_itself(events),
    ensures
        m.after_all(events).state == CrState::Normal,
        m.after_all(events).pipesize == m.pipesize,
        m.after_all(events).jump_cwnd == m.jump_cwnd,
        !m.after_all(events).is_active(),
        m.after_all(events).cwnd_from_ack(bytes, flight) is None,
        m.after_all(events).ssthresh_from_ack(largest) is None,
        m.after_all(events).cwnd_from_send(rtt, cwnd, app_limited, iw_acked) == 0,
    decreases events.len(),
{
    if events.len() > 0 {
        lemma_left_to_itself_prefix(events, events.len() - 1);
        assert(events.take(events.len() - 1) =~= events.drop_last());
        assert(!(events[events.len() - 1] is ChangeState));
        law_normal_is_final(
            m,
            events.drop_last(),
            largest,
            bytes,
            flight,
            rtt,
            cwnd,
            app_limited,
            iw_acked,
        );
    }
}

/// A sequence of events can be cut in two.
pub proof fn lemma_after_all_split(m: ResumeModel, events: Seq<ResumeEvent>, k: int)
    requires
        0 <= k <= events.len(),
    ensures
        m.after_all(events) == m.after_all(events.take(k)).after_all(events.skip(k)),
    decreases events.len(),
{
    if k == events.len() {
        assert(events.take(k) =~= events);
    } else {
        lemma_after_all_split(m, events.drop_last(), k);
        assert(events.drop_last().take(k) =~= events.take(k));
        assert(events.skip(k).drop_last() =~= events.drop_last().skip(k));
    }
}

/// A connection jumps at most once.
pub proof fn law_at_most_one_jump(m: ResumeModel, events: Seq<ResumeEvent>, i: int, j: int)
    requires
        0 <= i < j < events.len(),
        left_to_itself(events),
        m.after_all(events.take(i)).jumps_at(events[i]),
    ensures
        !m.after_all(events.take(j)).jumps_at(events[j]),
{
    let before = events.take(j);
    assert(before.take(i + 1).drop_last() =~= events.take(i));
    assert(before.take(i + 1).last() == events[i]);
    lemma_after_all_split(m, before, i + 1);
    lemma_left_to_itself_prefix(events, j);
    lemma_left_to_itself_prefix(before, i + 1);
    law_phases_only_advance(m.after_all(before.take(i + 1)), before.skip(i + 1));
}

/// What was saved and whether it may be used never change.
pub proof fn law_saved_values_stay(m: ResumeModel, events: Seq<ResumeEvent>)
    ensures
        m.after_all(events).enabled == m.enabled,
        m.after_all(events).saved_rtt == m.saved_rtt,
        m.after_all(events).saved_cwnd == m.saved_cwnd,
    decreases events.len(),
{
    if events.len() > 0 {
        law_saved_values_stay(m, events.drop_last());
    }
}

/// Only noting the start of the phase changes it.
pub proof fn law_only_the_timer_sets_the_time(m: ResumeModel, e: ResumeEvent)
    ensures
        m.after(e).time_in_state == (match e {
            ResumeEvent::StartTimer { now } => now,
            _ => m.time_in_state,
        }),
{
}

/// A jump goes to half of the saved window.
pub proof fn law_jump_is_half_of_saved(
    m: ResumeModel,
    events: Seq<ResumeEvent>,
    rtt: Option<nat>,
    cwnd: nat,
    app_limited: bool,
    iw_acked: bool,
)
    requires
        m.after_all(events).jumps(rtt, app_limited, iw_acked),
    ensures
        m.after_all(events).cwnd_from_send(rtt, cwnd, app_limited, iw_acked) == m.saved_cwnd / 2,
{
    law_saved_values_stay(m, events);
}

/// The jump window stays what it was until a sending makes the connection
/// consider the jump, and from then on is half of the saved window.
pub proof fn law_jump_window_is_half_once_considered(m: ResumeModel, events: Seq<ResumeEvent>)
    ensures
        m.after_all(events).jump_cwnd == (if considered_jump(m, events) {
            m.saved_cwnd / 2
        } else {
            m.jump_cwnd
        }),
    decreases events.len(),
{
    if events.len() > 0 {
        law_jump_window_is_half_once_considered(m, events.drop_last());
        law_saved_values_stay(m, events.drop_last());
    }
}

/// The jump window of a new connection is 0 until a sending makes it consider
/// the jump, and half of the saved window from then on.
pub proof fn law_jump_window_of_new_connection(
    contents: Option<Seq<char>>,
    now: nat,
    started: Instant,
    events: Seq<ResumeEvent>,
)
    ensures
        ({
            let m = ResumeModel::initial(contents, now, started);
            m.after_all(events).jump_cwnd == (if considered_jump(m, events) {
                m.saved_cwnd / 2
            } else {
                0
            })
        }),
{
    law_jump_window_is_half_once_considered(
        ResumeModel::initial(contents, now, started),
        events,
    );
}

/// A round-trip sample that diverges from the saved round-trip time ends
/// Careful Resume: there is no jump, no window is asked for and the pipe stays.
pub proof fn law_diverging_sample_ends_careful_resume(
    m: ResumeModel,
    sample: nat,
    cwnd: nat,
    app_limited: bool,
    iw_acked: bool,
)
    requires
        m.considers_jump(app_limited, iw_acked),
        m.diverges(sample),
    ensures
        m.after_send(Some(sample), cwnd, app_limited, iw_acked).state == CrState::Normal,
        m.after_send(Some(sample), cwnd, app_limited, iw_acked).pipesize == m.pipesize,
        m.cwnd_from_send(Some(sample), cwnd, app_limited, iw_acked) == 0,
        !m.jumps(Some(sample), app_limited, iw_acked),
{
}

/// With a round-trip sample the current window has no part in the jump: it is
/// only noted, and starts the pipe where there is a jump.
pub proof fn law_window_has_no_part_in_jump(
    m: ResumeModel,
    sample: nat,
    cwnd1: nat,
    cwnd2: nat,
    app_limited: bool,
    iw_acked: bool,
)
    ensures
        m.cwnd_from_send(Some(sample), cwnd1, app_limited, iw_acked) == m.cwnd_from_send(
            Some(sample),
            cwnd2,
            app_limited,
            iw_acked,
        ),
        m.after_send(Some(sample), cwnd1, app_limited, iw_acked) == (ResumeModel {
            cwnd: cwnd1,
            pipesize: if m.jumps(Some(sample), app_limited, iw_acked) {
                cwnd1
            } else {
                m.pipesize
            },
            ..m.after_send(Some(sample), cwnd2, app_limited, iw_acked)
        }),
{
}

/// The bytes in flight matter only to the first acknowledgement after a jump.
pub proof fn law_flight_matters_after_jump_only(
    m: ResumeModel,
    largest: u64,
    bytes: nat,
    flight1: nat,
    flight2: nat,
)
    requires
        m.state != CrState::Unvalidated,
    ensures
        m.after_ack(largest, bytes, flight1) == m.after_ack(largest, bytes, flight2),
        m.cwnd_from_ack(bytes, flight1) == m.cwnd_from_ack(bytes, flight2),
{
}

/// The first acknowledgement after a jump leaves in the pipe the window before
/// the jump and the bytes acknowledged, whatever phase it leads to.
pub proof fn law_pipe_after_first_ack(
    m: ResumeModel,
    rtt: Option<nat>,
    cwnd: nat,
    app_limited: bool,
    iw_acked: bool,
    largest: u64,
    bytes: nat,
    flight: nat,
)
    requires
        m.jumps(rtt, app_limited, iw_acked),
    ensures
        m.after_send(rtt, cwnd, app_limited, iw_acked).after_ack(largest, bytes, flight).pipesize
            == cwnd + bytes,
{
}

/// Without a saved window of at least two bytes there is no jump.
pub proof fn law_no_jump_without_saved_window(
    m: ResumeModel,
    events: Seq<ResumeEvent>,
    e: ResumeEvent,
)
    requires
        m.saved_cwnd < 2,
    ensures
        !m.after_all(events).jumps_at(e),
{
    law_saved_values_stay(m, events);
}

/// A connection that was not enabled never jumps once it has been asked
/// whether Careful Resume is active.
pub proof fn law_disabled_never_jumps(m: ResumeModel, events: Seq<ResumeEvent>, e: ResumeEvent)
    requires
        !m.enabled,
        left_to_itself(events),
    ensures
        !m.after(ResumeEvent::Query).after_all(events).jumps_at(e),
{
    law_phases_only_advance(m.after(ResumeEvent::Query), events);
}

/// A sending that the application limits, or that comes before the initial
/// window is acknowledged, leaves everything but the noted window and sample
/// as it was and asks for no window.
pub proof fn law_limited_sending_decides_nothing(
    m: ResumeModel,
    rtt: Option<nat>,
    cwnd: nat,
    app_limited: bool,
    iw_acked: bool,
)
    requires
        app_limited || !iw_acked,
    ensures
        m.after_send(rtt, cwnd, app_limited, iw_acked) == (ResumeModel { cwnd, rtt, ..m }),
        m.cwnd_from_send(rtt, cwnd, app_limited, iw_acked) == 0,
{
}

/// Asking whether Careful Resume is active does not change the answer, and
/// asking twice is asking once.
pub proof fn law_query_is_stable(m: ResumeModel)
    ensures
        m.after_query().is_active() == m.is_active(),
        m.after_query().after_query() == m.after_query(),
        !m.is_active() ==> m.after_query().state == CrState::Normal,
{
}

/// The counter of acknowledged bytes counts every acknowledgement once.
pub proof fn law_every_acked_byte_is_counted(m: ResumeModel, events: Seq<ResumeEvent>)
    ensures
        m.after_all(events).total_acked == m.total_acked + acked_bytes(events),
    decreases events.len(),
{
    if events.len() > 0 {
        law_every_acked_byte_is_counted(m, events.drop_last());
    }
}

/// After reconnaissance the pipe only grows, and by no more than what is
/// acknowledged.
pub proof fn law_pipe_grows_with_acks(m: ResumeModel, events: Seq<ResumeEvent>)
    requires
        m.state != CrState::Reconnaissance,
        left_to_itself(events),
    ensures
        m.pipesize <= m.after_all(events).pipesize <= m.pipesize + acked_bytes(events),
    decreases events.len(),
{
    if events.len() > 0 {
        lemma_left_to_itself_prefix(events, events.len() - 1);
        assert(events.take(events.len() - 1) =~= events.drop_last());
        law_pipe_grows_with_acks(m, events.drop_last());
        law_phases_only_advance(m, events.drop_last());
    }
}

/// A retreat lasts until the last packet sent before the loss is acknowledged.
/// The acknowledgement that ends it sets the slow-start threshold to the pipe,
/// which by then holds every byte acknowledged since the retreat began.
pub proof fn law_retreat_ends_with_its_last_packet(
    m: ResumeModel,
    last: u64,
    events: Seq<ResumeEvent>,
    largest: u64,
    bytes: nat,
    flight: nat,
)
    requires
        m.state == CrState::SafeRetreat(last),
        forall|i: int|
            0 <= i < events.len() ==> acks_below(#[trigger] events[i], last)
                && m.survives_query(events[i]) && !(events[i] is ChangeState),
        largest >= last,
    ensures
        m.after_all(events).state == CrState::SafeRetreat(last),
        m.after_all(events).pipesize == m.pipesize + acked_bytes(events),
        m.after_all(events).ssthresh_from_ack(largest) == Some(m.pipesize + acked_bytes(events)),
        m.after_all(events).after_ack(largest, bytes, flight).state == CrState::Normal,
    decreases events.len(),
{
    if events.len() > 0 {
        let front = events.drop_last();
        assert forall|i: int| 0 <= i < front.len() implies acks_below(#[trigger] front[i], last)
            && m.survives_query(front[i]) && !(front[i] is ChangeState) by {
            assert(front[i] == events[i]);
        }
        law_retreat_ends_with_its_last_packet(m, last, front, largest, bytes, flight);
        law_saved_values_stay(m, front);
        assert(acks_below(events[events.len() - 1], last));
    }
}

/// A loss right after a jump undoes it: the retreat starts from the window
/// that was in use before the jump.
pub proof fn law_loss_undoes_jump(
    m: ResumeModel,
    rtt: Option<nat>,
    cwnd: nat,
    app_limited: bool,
    iw_acked: bool,
    largest_sent: u64,
)
    requires
        m.jumps(rtt, app_limited, iw_acked),
    ensures
        m.after_send(rtt, cwnd, app_limited, iw_acked).after_congestion(largest_sent).state
            == CrState::SafeRetreat(largest_sent),
        m.after_send(rtt, cwnd, app_limited, iw_acked).after_congestion(largest_sent).pipesize
            == cwnd,
{
}

/// Validation lasts until its packet is acknowledged or a loss is seen; either
/// ends Careful Resume. Meanwhile the pipe takes in every acknowledged byte.
pub proof fn law_validation_ends_with_its_packet(
    m: ResumeModel,
    last: u64,
    events: Seq<ResumeEvent>,
    largest: u64,
    bytes: nat,
    flight: nat,
    largest_sent: u64,
)
    requires
        m.state == CrState::Validating(last),
        forall|i: int|
            0 <= i < events.len() ==> acks_below(#[trigger] events[i], last)
                && m.survives_query(events[i]) && !(events[i] is ChangeState)
                && !(events[i] is Congestion),
        largest >= last,
    ensures
        m.after_all(events).state == CrState::Validating(last),
        m.after_all(events).pipesize == m.pipesize + acked_bytes(events),
        m.after_all(events).after_ack(largest, bytes, flight).state == CrState::Normal,
        m.after_all(events).after_congestion(largest_sent).state == CrState::Normal,
    decreases events.len(),
{
    if events.len() > 0 {
        let front = events.drop_last();
        assert forall|i: int| 0 <= i < front.len() implies acks_below(#[trigger] front[i], last)
            && m.survives_query(front[i]) && !(front[i] is ChangeState)
            && !(front[i] is Congestion) by {
            assert(front[i] == events[i]);
        }
        law_validation_ends_with_its_packet(m, last, front, largest, bytes, flight, largest_sent);
        law_saved_values_stay(m, front);
        assert(acks_below(events[events.len() - 1], last));
    }
}

/// A file that does not supply a round-trip time and a window never enables
/// Careful Resume, however recent it is.
pub proof fn law_missing_parameter_disables(text: Seq<char>, now: nat, started: Instant)
    requires
        saved_file(text) matches SavedFile::Params(p) ==> p.rtt_secs is None || p.cwnd is None,
    ensures
        !ResumeModel::initial(Some(text), now, started).enabled,
{
}

/// Saved parameters only lose their use with time: what enables Careful Resume
/// at one time has enabled it at every earlier usable time.
pub proof fn law_saved_parameters_expire(
    contents: Option<Seq<char>>,
    earlier: nat,
    later: nat,
    started: Instant,
)
    requires
        usable(contents, earlier),
        earlier <= later,
        ResumeModel::initial(contents, later, started).enabled,
    ensures
        ResumeModel::initial(contents, earlier, started).enabled,
{
}

} // verus!
