//! The Careful Resume state machine of one connection.
//!
//! A connection starts in `Reconnaissance`. Once the initial window has been
//! acknowledged it may jump to half of the congestion window that an earlier
//! connection saved, which makes it `Unvalidated`. Acknowledgements then
//! validate the jump, or a loss makes the connection retreat. Every path ends
//! in `Normal`, where congestion control goes on by itself.
use crate::saved::{
    contents_view, number_or, read_saved_file, saved_file, usable, SavedFile, PARAMS_MAXIMUM_GAP_SECS,
};
use crate::span::{max_span, Span, NANOS_PER_SEC};
use crate::text::{decimal_text, write_u64};
use std::time::Instant;
use vstd::prelude::*;

verus! {

/// `std::time::Instant`, a reading of the monotonic clock. Nothing is claimed
/// of what is inside.
#[verifier::external_type_specification]
#[verifier::external_body]
pub struct ExInstant(std::time::Instant);

/// `Instant::now` reads the monotonic clock. Nothing is claimed of the reading.
pub assume_specification[ std::time::Instant::now ]() -> (r: std::time::Instant);

/// The phase of a connection.
///
/// There is no observing phase: that applies to the connection whose
/// parameters are saved, never to the one that resumes from them.
#[derive(Debug, Copy, Clone, Eq, PartialEq, Structural)]
pub enum CrState {
    /// The path is being compared with the saved one.
    Reconnaissance,
    /// The window has jumped and nothing sent since is acknowledged yet.
    Unvalidated,
    /// The jump is being validated, up to the acknowledgement of this packet.
    Validating(u64),
    /// The jump failed; this is the last packet sent before the loss was seen.
    SafeRetreat(u64),
    /// Careful Resume is over.
    Normal,
}

impl Default for CrState {
    fn default() -> (r: Self)
        ensures
            r == CrState::Reconnaissance,
    {
        CrState::Reconnaissance
    }
}

/// What a connection knows, as mathematical values. Times are in nanoseconds
/// and windows in bytes.
pub struct ResumeModel {
    pub enabled: bool,
    pub state: CrState,
    pub saved_rtt: nat,
    pub saved_cwnd: nat,
    pub pipesize: nat,
    pub jump_cwnd: nat,
    pub total_acked: nat,
    pub time_in_state: Instant,
    pub cwnd: nat,
    pub rtt: Option<nat>,
}

/// The number in `o`, if there is one.
pub open spec fn opt_nat(o: Option<u64>) -> Option<nat> {
    match o {
        None => None,
        Some(n) => Some(n as nat),
    }
}

/// The length of the span in `o`, if there is one.
pub open spec fn opt_span(o: Option<Span>) -> Option<nat> {
    match o {
        None => None,
        Some(d) => Some(d@),
    }
}

impl ResumeModel {
    /// A connection that starts with a saved round-trip time and window.
    pub open spec fn starting(
        enabled: bool,
        rtt_secs: u64,
        cwnd: u64,
        started: Instant,
    ) -> ResumeModel {
        ResumeModel {
            enabled,
            state: CrState::Reconnaissance,
            saved_rtt: rtt_secs as nat * NANOS_PER_SEC as nat,
            saved_cwnd: cwnd as nat,
            pipesize: 0,
            jump_cwnd: 0,
            total_acked: 0,
            time_in_state: started,
            cwnd: 0,
            rtt: Some(0),
        }
    }

    /// A connection that starts at `now`, in nanoseconds since the Unix epoch,
    /// next to a file with the given contents. Only a file that is recent
    /// enough and supplies both a round-trip time and a window enables Careful
    /// Resume.
    pub open spec fn initial(
        contents: Option<Seq<char>>,
        now: nat,
        started: Instant,
    ) -> ResumeModel {
        match contents {
            None => ResumeModel::starting(false, u64::MAX, 0, started),
            Some(text) => match saved_file(text) {
                SavedFile::Params(p) => ResumeModel::starting(
                    now - number_or(p.time_secs, 0) * NANOS_PER_SEC <= PARAMS_MAXIMUM_GAP_SECS
                        * NANOS_PER_SEC && p.rtt_secs is Some && p.cwnd is Some,
                    number_or(p.rtt_secs, u64::MAX),
                    number_or(p.cwnd, 0),
                    started,
                ),
                _ => ResumeModel::starting(false, u64::MAX, 0, started),
            },
        }
    }

    /// Careful Resume may still act on the connection.
    pub open spec fn is_active(self) -> bool {
        self.enabled && self.state != CrState::Normal
    }

    /// The connection after it was asked whether Careful Resume is active: one
    /// that never was enabled is sent to `Normal`.
    pub open spec fn after_query(self) -> ResumeModel {
        if self.enabled {
            self
        } else {
            ResumeModel { state: CrState::Normal, ..self }
        }
    }

    /// An acknowledgement up to packet `largest` adds its bytes to the pipe.
    pub open spec fn ack_fills_pipe(self, largest: u64) -> bool {
        match self.state {
            CrState::Unvalidated => true,
            CrState::Validating(_) => true,
            CrState::SafeRetreat(last) => largest < last,
            _ => false,
        }
    }

    /// The phase after an acknowledgement up to packet `largest` of `bytes`
    /// bytes, with `flight` bytes still in flight.
    pub open spec fn state_after_ack(self, largest: u64, bytes: nat, flight: nat) -> CrState {
        match self.state {
            CrState::Unvalidated => if flight <= self.pipesize + bytes {
                CrState::Normal
            } else {
                CrState::Validating(largest)
            },
            CrState::Validating(last) => if largest >= last {
                CrState::Normal
            } else {
                self.state
            },
            CrState::SafeRetreat(last) => if largest >= last {
                CrState::Normal
            } else {
                self.state
            },
            _ => self.state,
        }
    }

    /// The connection after an acknowledgement.
    pub open spec fn after_ack(self, largest: u64, bytes: nat, flight: nat) -> ResumeModel {
        ResumeModel {
            state: self.state_after_ack(largest, bytes, flight),
            pipesize: if self.ack_fills_pipe(largest) {
                self.pipesize + bytes
            } else {
                self.pipesize
            },
            total_acked: self.total_acked + bytes,
            ..self
        }
    }

    /// The congestion window that an acknowledgement asks for: the first one
    /// after the jump takes the window back to what is in the network, the
    /// larger of the pipe and the flight.
    pub open spec fn cwnd_from_ack(self, bytes: nat, flight: nat) -> Option<nat> {
        if self.state == CrState::Unvalidated {
            Some(
                if flight <= self.pipesize + bytes {
                    self.pipesize + bytes
                } else {
                    flight
                },
            )
        } else {
            None
        }
    }

    /// The slow-start threshold that an acknowledgement asks for: the pipe,
    /// when it ends a retreat.
    pub open spec fn ssthresh_from_ack(self, largest: u64) -> Option<nat> {
        match self.state {
            CrState::SafeRetreat(last) => if largest >= last {
                Some(self.pipesize)
            } else {
                None
            },
            _ => None,
        }
    }

    /// A packet about to be sent makes the connection consider the jump.
    pub open spec fn considers_jump(self, app_limited: bool, iw_acked: bool) -> bool {
        !app_limited && iw_acked && self.state == CrState::Reconnaissance
    }

    /// The window to jump to: half of the saved one.
    pub open spec fn jump_target(self) -> nat {
        self.saved_cwnd / 2
    }

    /// A packet about to be sent makes the connection compare a round-trip
    /// sample with the saved round-trip time.
    pub open spec fn compares_rtt(
        self,
        rtt: Option<nat>,
        app_limited: bool,
        iw_acked: bool,
    ) -> bool {
        self.considers_jump(app_limited, iw_acked) && self.jump_target() > 0 && rtt is Some
    }

    /// A packet about to be sent makes the connection jump.
    pub open spec fn jumps(self, rtt: Option<nat>, app_limited: bool, iw_acked: bool) -> bool {
        self.compares_rtt(rtt, app_limited, iw_acked) && !self.diverges(rtt->0)
    }

    /// The connection after a packet was about to be sent.
    pub open spec fn after_send(
        self,
        rtt: Option<nat>,
        cwnd: nat,
        app_limited: bool,
        iw_acked: bool,
    ) -> ResumeModel {
        let seen = ResumeModel { cwnd, rtt, ..self };
        if !self.considers_jump(app_limited, iw_acked) {
            seen
        } else if self.jump_target() == 0 {
            ResumeModel { state: CrState::Normal, jump_cwnd: 0, ..seen }
        } else if rtt is None {
            ResumeModel { jump_cwnd: self.jump_target(), ..seen }
        } else if self.diverges(rtt->0) {
            ResumeModel { state: CrState::Normal, jump_cwnd: self.jump_target(), ..seen }
        } else {
            ResumeModel {
                state: CrState::Unvalidated,
                jump_cwnd: self.jump_target(),
                pipesize: cwnd,
                ..seen
            }
        }
    }

    /// The window that a packet about to be sent asks for: the jump, the
    /// current window while there is no round-trip sample yet, otherwise 0.
    pub open spec fn cwnd_from_send(
        self,
        rtt: Option<nat>,
        cwnd: nat,
        app_limited: bool,
        iw_acked: bool,
    ) -> nat {
        if self.jumps(rtt, app_limited, iw_acked) {
            self.jump_target()
        } else if self.considers_jump(app_limited, iw_acked) && self.jump_target() > 0
            && rtt is None {
            cwnd
        } else {
            0
        }
    }

    /// The round-trip sample is at most half or at least ten times the saved
    /// round-trip time.
    pub open spec fn diverges(self, sample: nat) -> bool {
        sample <= self.saved_rtt / 2 || sample >= self.saved_rtt * 10
    }

    /// The comparison of a sample with the saved round-trip time stays within
    /// the longest span.
    pub open spec fn comparable(self, sample: nat) -> bool {
        sample <= self.saved_rtt / 2 || self.saved_rtt * 10 <= max_span()
    }

    /// The connection after a loss, with `largest_sent` the last packet sent.
    pub open spec fn after_congestion(self, largest_sent: u64) -> ResumeModel {
        ResumeModel {
            state: match self.state {
                CrState::Unvalidated => CrState::SafeRetreat(largest_sent),
                CrState::SafeRetreat(last) => CrState::SafeRetreat(last),
                _ => CrState::Normal,
            },
            ..self
        }
    }
}

/// The name that a phase is printed under, with the packet that it holds.
pub open spec fn state_text(state: CrState) -> Seq<char> {
    match state {
        CrState::Reconnaissance => "Reconnaissance"@,
        CrState::Unvalidated => "Unvalidated"@,
        CrState::Validating(p) => "Validating("@ + decimal_text(p as nat) + ")"@,
        CrState::SafeRetreat(p) => "SafeRetreat("@ + decimal_text(p as nat) + ")"@,
        CrState::Normal => "Normal"@,
    }
}

/// How a connection is printed, given how its saved round-trip time is.
pub open spec fn debug_text(m: ResumeModel, rtt_text: Seq<char>) -> Seq<char> {
    "cr_state="@ + state_text(m.state) + " saved_rtt="@ + rtt_text + " saved_cwnd="@
        + decimal_text(m.saved_cwnd) + " pipesize="@ + decimal_text(m.pipesize) + " "@
}

/// What the `Debug` impl of `std::time::Duration` prints of a duration of
/// `secs` seconds and `nanos` nanoseconds.
pub uninterp spec fn duration_debug_text(secs: u64, nanos: u32) -> Seq<char>;

/// The `Debug` impl of `std::time::Duration`. Claims only that the text is
/// determined by the seconds and the nanoseconds of the duration.
#[verifier::external_body]
fn duration_debug(secs: u64, nanos: u32) -> (r: String)
    requires
        nanos < NANOS_PER_SEC,
    ensures
        r@ == duration_debug_text(secs, nanos),
{
    format!("{:?}", std::time::Duration::new(secs, nanos))
}

impl CrState {
    /// The text that the phase is printed as.
    pub fn to_text(&self) -> (r: String)
        ensures
            r@ == state_text(*self),
    {
        match *self {
            CrState::Reconnaissance => String::from_str("Reconnaissance"),
            CrState::Unvalidated => String::from_str("Unvalidated"),
            CrState::Validating(p) => String::from_str("Validating(").concat(
                write_u64(p).as_str(),
            ).concat(")"),
            CrState::SafeRetreat(p) => String::from_str("SafeRetreat(").concat(
                write_u64(p).as_str(),
            ).concat(")"),
            CrState::Normal => String::from_str("Normal"),
        }
    }
}

/// Careful Resume on one connection.
pub struct OwnResume {
    enabled: bool,
    cr_state: CrState,
    saved_rtt: Span,
    saved_cwnd: u64,
    pipesize: u64,
    jump_cwnd: u64,
    /// Bytes acknowledged over the life of the connection.
    pub total_acked: u64,
    time_in_state: Instant,
    cwnd: u64,
    rtt: Option<Span>,
}

impl View for OwnResume {
    type V = ResumeModel;

    closed spec fn view(&self) -> ResumeModel {
        ResumeModel {
            enabled: self.enabled,
            state: self.cr_state,
            saved_rtt: self.saved_rtt@,
            saved_cwnd: self.saved_cwnd as nat,
            pipesize: self.pipesize as nat,
            jump_cwnd: self.jump_cwnd as nat,
            total_acked: self.total_acked as nat,
            time_in_state: self.time_in_state,
            cwnd: self.cwnd as nat,
            rtt: opt_span(self.rtt),
        }
    }
}

impl Clone for OwnResume {
    fn clone(&self) -> (r: Self)
        ensures
            r == *self,
    {
        OwnResume {
            enabled: self.enabled,
            cr_state: self.cr_state,
            saved_rtt: self.saved_rtt,
            saved_cwnd: self.saved_cwnd,
            pipesize: self.pipesize,
            jump_cwnd: self.jump_cwnd,
            total_acked: self.total_acked,
            time_in_state: self.time_in_state,
            cwnd: self.cwnd,
            rtt: self.rtt,
        }
    }
}

impl OwnResume {
    /// Starts a connection at `now`, the time since the Unix epoch, next to a
    /// file of saved parameters with the given contents, if there is one. The
    /// monotonic clock gives the start of its first phase.
    pub fn new(contents: Option<&str>, now: Span) -> (r: Self)
        requires
            usable(contents_view(contents), now@),
        ensures
            call_ensures(Instant::now, (), r@.time_in_state),
            r@ == ResumeModel::initial(contents_view(contents), now@, r@.time_in_state),
    {
        Self::new_at(contents, now, Instant::now())
    }

    /// Starts a connection as `new` does, with its first phase at `started`.
    pub fn new_at(contents: Option<&str>, now: Span, started: Instant) -> (r: Self)
        requires
            usable(contents_view(contents), now@),
        ensures
            r@ == ResumeModel::initial(contents_view(contents), now@, started),
    {
        let mut enabled = false;
        let mut rtt_secs: u64 = u64::MAX;
        let mut saved_cwnd: u64 = 0;
        if let Some(text) = contents {
            if let SavedFile::Params(p) = read_saved_file(text) {
                rtt_secs = p.rtt_secs.unwrap_or(u64::MAX);
                saved_cwnd = p.cwnd.unwrap_or(0);
                let written: u128 = p.time_secs.unwrap_or(0) as u128 * NANOS_PER_SEC as u128;
                let age: u128 = now.as_nanos() - written;
                enabled = age <= PARAMS_MAXIMUM_GAP_SECS as u128 * NANOS_PER_SEC as u128
                    && p.rtt_secs.is_some() && p.cwnd.is_some();
            }
        }
        OwnResume {
            enabled,
            cr_state: CrState::default(),
            saved_rtt: Span::from_secs(rtt_secs),
            saved_cwnd,
            pipesize: 0,
            jump_cwnd: 0,
            total_acked: 0,
            time_in_state: started,
            cwnd: 0,
            rtt: Some(Span::from_secs(0)),
        }
    }

    /// Tells whether Careful Resume is active. A connection without usable
    /// saved parameters is sent to `Normal`.
    pub fn enabled(&mut self) -> (r: bool)
        ensures
            r == old(self)@.is_active(),
            final(self)@ == old(self)@.after_query(),
    {
        if self.enabled {
            self.cr_state != CrState::Normal
        } else {
            if self.cr_state != CrState::Normal {
                self.change_state(CrState::Normal);
            }
            false
        }
    }

    /// The phase of the connection.
    pub fn get_state(&self) -> (r: CrState)
        ensures
            r == self@.state,
    {
        self.cr_state
    }

    /// The validated size of the pipe, in bytes.
    pub fn get_pipesize(&self) -> (r: u64)
        ensures
            r == self@.pipesize,
    {
        self.pipesize
    }

    /// The saved round-trip time, in whole seconds.
    pub fn get_saved_rtt(&self) -> (r: u64)
        ensures
            r == self@.saved_rtt / NANOS_PER_SEC as nat,
    {
        self.saved_rtt.as_secs()
    }

    /// The saved congestion window, in bytes.
    pub fn get_saved_cwnd(&self) -> (r: u64)
        ensures
            r == self@.saved_cwnd,
    {
        self.saved_cwnd
    }

    /// Moves the connection to another phase.
    pub fn change_state(&mut self, state: CrState)
        ensures
            final(self)@ == (ResumeModel { state, ..old(self)@ }),
    {
        self.cr_state = state;
    }

    /// The window of the last jump that was considered, in bytes.
    pub fn get_jump_cwnd(&self) -> (r: u64)
        ensures
            r == self@.jump_cwnd,
    {
        self.jump_cwnd
    }

    /// The bytes acknowledged over the life of the connection, as in the field
    /// `total_acked`.
    pub fn get_total_acked(&self) -> (r: u64)
        ensures
            r == self@.total_acked,
    {
        self.total_acked
    }

    /// Notes the current time, as `Instant::now` returns it, as the start of
    /// the phase.
    pub fn update_state_timer(&mut self)
        ensures
            call_ensures(Instant::now, (), final(self)@.time_in_state),
            final(self)@ == (ResumeModel {
                time_in_state: final(self)@.time_in_state,
                ..old(self)@
            }),
    {
        self.start_state_timer(Instant::now());
    }

    /// Notes `now` as the start of the phase.
    pub fn start_state_timer(&mut self, now: Instant)
        ensures
            final(self)@ == (ResumeModel { time_in_state: now, ..old(self)@ }),
    {
        self.time_in_state = now;
    }

    /// Takes in an acknowledgement up to packet `largest_pkt_ack` of
    /// `bytes_acked` bytes, with `flightsize` bytes in flight. Returns a new
    /// congestion window and a new slow-start threshold, both optional.
    pub fn process_ack(&mut self, largest_pkt_ack: u64, bytes_acked: u64, flightsize: u64) -> (r: (
        Option<u64>,
        Option<u64>,
    ))
        requires
            old(self)@.total_acked + bytes_acked <= u64::MAX,
            old(self)@.ack_fills_pipe(largest_pkt_ack) ==> old(self)@.pipesize + bytes_acked
                <= u64::MAX,
        ensures
            final(self)@ == old(self)@.after_ack(
                largest_pkt_ack,
                bytes_acked as nat,
                flightsize as nat,
            ),
            opt_nat(r.0) == old(self)@.cwnd_from_ack(bytes_acked as nat, flightsize as nat),
            opt_nat(r.1) == old(self)@.ssthresh_from_ack(largest_pkt_ack),
    {
        self.total_acked = self.total_acked + bytes_acked;
        match self.cr_state {
            CrState::Unvalidated => {
                self.pipesize = self.pipesize + bytes_acked;
                if flightsize <= self.pipesize {
                    self.change_state(CrState::Normal);
                    (Some(self.pipesize), None)
                } else {
                    self.change_state(CrState::Validating(largest_pkt_ack));
                    (Some(flightsize), None)
                }
            },
            CrState::Validating(last_packet) => {
                self.pipesize = self.pipesize + bytes_acked;
                if largest_pkt_ack >= last_packet {
                    self.change_state(CrState::Normal);
                }
                (None, None)
            },
            CrState::SafeRetreat(last_packet) => {
                if largest_pkt_ack >= last_packet {
                    self.change_state(CrState::Normal);
                    (None, Some(self.pipesize))
                } else {
                    self.pipesize = self.pipesize + bytes_acked;
                    (None, None)
                }
            },
            _ => (None, None),
        }
    }

    /// Tells whether a round-trip sample is too far from the saved round-trip
    /// time for the path to be the same.
    pub fn rtt_diverges(&self, sample: Span) -> (r: bool)
        requires
            self@.comparable(sample@),
        ensures
            r == self@.diverges(sample@),
    {
        let current: u128 = sample.as_nanos();
        let saved: u128 = self.saved_rtt.as_nanos();
        current <= saved / 2 || current >= saved * 10
    }

    /// Takes in that a packet is about to be sent under the window `cwnd`, and
    /// returns the window to send it under, or 0 where Careful Resume asks for
    /// none.
    ///
    /// Nothing is decided while the application limits the sending or before
    /// the initial window is acknowledged, nor without a round-trip sample. A
    /// sample that diverges from the saved round-trip time ends Careful Resume.
    pub fn send_packet(
        &mut self,
        rtt_sample: Option<Span>,
        cwnd: u64,
        app_limited: bool,
        iw_acked: bool,
    ) -> (r: u64)
        requires
            old(self)@.compares_rtt(opt_span(rtt_sample), app_limited, iw_acked) ==> old(
                self,
            )@.comparable(opt_span(rtt_sample)->0),
        ensures
            final(self)@ == old(self)@.after_send(
                opt_span(rtt_sample),
                cwnd as nat,
                app_limited,
                iw_acked,
            ),
            r == old(self)@.cwnd_from_send(
                opt_span(rtt_sample),
                cwnd as nat,
                app_limited,
                iw_acked,
            ),
    {
        self.cwnd = cwnd;
        self.rtt = rtt_sample;
        if app_limited || !iw_acked {
            return 0;
        }
        match self.cr_state {
            CrState::Reconnaissance => {
                self.jump_cwnd = self.saved_cwnd / 2;
                if self.jump_cwnd == 0 {
                    self.change_state(CrState::Normal);
                    return 0;
                }
                let current_rtt = match rtt_sample {
                    Some(s) => s,
                    None => {
                        return cwnd;
                    },
                };
                if self.rtt_diverges(current_rtt) {
                    self.change_state(CrState::Normal);
                    return 0;
                }
                self.change_state(CrState::Unvalidated);
                self.pipesize = cwnd;
                self.jump_cwnd
            },
            _ => 0,
        }
    }

    /// The connection as a line of text for a log.
    pub fn debug_string(&self) -> (r: String)
        ensures
            r@ == debug_text(
                self@,
                duration_debug_text(
                    (self@.saved_rtt / NANOS_PER_SEC as nat) as u64,
                    (self@.saved_rtt % NANOS_PER_SEC as nat) as u32,
                ),
            ),
    {
        let rtt_text = duration_debug(self.saved_rtt.as_secs(), self.saved_rtt.subsec_nanos());
        self.debug_string_with(rtt_text.as_str())
    }

    /// The connection as a line of text, with its saved round-trip time
    /// written as `rtt_text`.
    pub fn debug_string_with(&self, rtt_text: &str) -> (r: String)
        ensures
            r@ == debug_text(self@, rtt_text@),
    {
        String::from_str("cr_state=").concat(self.cr_state.to_text().as_str()).concat(
            " saved_rtt=",
        ).concat(rtt_text).concat(" saved_cwnd=").concat(write_u64(self.saved_cwnd).as_str()).concat(
            " pipesize=",
        ).concat(write_u64(self.pipesize).as_str()).concat(" ")
    }

    /// Takes in a loss, with `largest_pkt_sent` the last packet sent. Returns
    /// the window to fall back to, which is always 0.
    pub fn congestion_event(&mut self, largest_pkt_sent: u64) -> (r: usize)
        ensures
            final(self)@ == old(self)@.after_congestion(largest_pkt_sent),
            r == 0,
    {
        match self.cr_state {
            CrState::Unvalidated => {
                self.change_state(CrState::SafeRetreat(largest_pkt_sent));
                0
            },
            CrState::Validating(_) => {
                self.change_state(CrState::Normal);
                0
            },
            CrState::Reconnaissance => {
                self.change_state(CrState::Normal);
                0
            },
            _ => 0,
        }
    }
}

/// A phase is printed under its name, and one that holds a packet with the
/// number of the packet in round brackets behind it.
pub proof fn law_phase_texts(p: u64)
    ensures
        state_text(CrState::Reconnaissance) == "Reconnaissance"@,
        state_text(CrState::Unvalidated) == "Unvalidated"@,
        state_text(CrState::Normal) == "Normal"@,
        state_text(CrState::Validating(p)) == "Validating"@ + seq!['('] + decimal_text(p as nat)
            + seq![')'],
        state_text(CrState::SafeRetreat(p)) == "SafeRetreat"@ + seq!['('] + decimal_text(p as nat)
            + seq![')'],
{
    reveal_strlit("Validating");
    reveal_strlit("Validating(");
    reveal_strlit("SafeRetreat");
    reveal_strlit("SafeRetreat(");
    reveal_strlit(")");
    assert("Validating("@ =~= "Validating"@ + seq!['(']);
    assert("SafeRetreat("@ =~= "SafeRetreat"@ + seq!['(']);
    assert(")"@ =~= seq![')']);
}

/// A connection is printed as four named values, each with a space behind it:
/// the phase, the saved round-trip time, the saved window and the pipe.
pub proof fn law_printed_values(m: ResumeModel, rtt_text: Seq<char>)
    ensures
        debug_text(m, rtt_text) == "cr_state="@ + state_text(m.state) + seq![' '] + "saved_rtt="@
            + rtt_text + seq![' '] + "saved_cwnd="@ + decimal_text(m.saved_cwnd) + seq![' ']
            + "pipesize="@ + decimal_text(m.pipesize) + seq![' '],
{
    reveal_strlit(" saved_rtt=");
    reveal_strlit("saved_rtt=");
    reveal_strlit(" saved_cwnd=");
    reveal_strlit("saved_cwnd=");
    reveal_strlit(" pipesize=");
    reveal_strlit("pipesize=");
    reveal_strlit(" ");
    assert(" saved_rtt="@ =~= seq![' '] + "saved_rtt="@);
    assert(" saved_cwnd="@ =~= seq![' '] + "saved_cwnd="@);
    assert(" pipesize="@ =~= seq![' '] + "pipesize="@);
    assert(" "@ =~= seq![' ']);
    assert(debug_text(m, rtt_text) =~= "cr_state="@ + state_text(m.state) + seq![' ']
        + "saved_rtt="@ + rtt_text + seq![' '] + "saved_cwnd="@ + decimal_text(m.saved_cwnd)
        + seq![' '] + "pipesize="@ + decimal_text(m.pipesize) + seq![' ']);
}

} // verus!
