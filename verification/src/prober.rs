//! One hop: a probe with a given time-to-live, and the wait for its answer.
//!
//! A prober never acts itself. It names the next thing to do on the probe
//! socket, the resolver or the clock ([`HopProber::pending`]), and is told
//! how that went ([`HopProber::step`]). An event that does not answer the
//! pending action is ignored.

use crate::destination::{Destination, DestinationView};
use crate::report::{HopResult, HopResultView, IdentityView, Line, LineView, ResponderIdentity};
use crate::text::Text;
use vstd::prelude::*;
use vstd::string::*;

verus! {

/// What a probe carries: a single zero byte.
pub open spec fn probe_payload() -> Seq<u8> {
    seq![0u8]
}

/// An action as the contracts see it.
pub enum ProbeActionView {
    Configure { ttl: u32 },
    Send { destination: DestinationView, payload: Seq<u8> },
    Receive,
    Identify { address: Text },
    Sleep { millis: u64 },
    Rest,
}

/// What a prober wants done next.
#[derive(Debug, PartialEq, Eq)]
pub enum ProbeAction {
    /// Set the time-to-live of the packets that leave the probe socket.
    /// Answered by `Configured` or `ConfigureFailed`.
    Configure { ttl: u32 },
    /// Send one datagram with this payload to the destination. Answered by
    /// `Sent` or `SendFailed`.
    Send { destination: Destination, payload: Vec<u8> },
    /// Try once to read a datagram from the probe socket, the one that the
    /// probe left from, without waiting. Answered by `Datagram`, `NoData`
    /// or `ReceiveFailed`.
    Receive,
    /// Look up the name of this address. Answered by `Identified`.
    Identify { address: String },
    /// Sleep for this many milliseconds. Answered by `Slept`.
    Sleep { millis: u64 },
    /// Nothing: the hop is over.
    Rest,
}

impl View for ProbeAction {
    type V = ProbeActionView;

    open spec fn view(&self) -> ProbeActionView {
        match self {
            ProbeAction::Configure { ttl } => ProbeActionView::Configure { ttl: *ttl },
            ProbeAction::Send { destination, payload } => ProbeActionView::Send {
                destination: destination@,
                payload: payload@,
            },
            ProbeAction::Receive => ProbeActionView::Receive,
            ProbeAction::Identify { address } => ProbeActionView::Identify { address: address@ },
            ProbeAction::Sleep { millis } => ProbeActionView::Sleep { millis: *millis },
            ProbeAction::Rest => ProbeActionView::Rest,
        }
    }
}

/// An event as the contracts see it.
pub enum ProbeEventView {
    Configured,
    ConfigureFailed { detail: Text },
    Sent,
    SendFailed { detail: Text },
    Datagram { source: Text },
    NoData,
    ReceiveFailed { detail: Text },
    Identified { name: Option<Text> },
    Slept,
}

/// How an action of a prober went.
#[derive(Debug)]
pub enum ProbeEvent {
    /// The socket took the time-to-live.
    Configured,
    /// The socket refused the time-to-live.
    ConfigureFailed { detail: String },
    /// The probe left.
    Sent,
    /// The probe could not be sent.
    SendFailed { detail: String },
    /// A datagram was read; it came from the address `source`.
    Datagram { source: String },
    /// There was nothing to read.
    NoData,
    /// The read failed, and not for want of data.
    ReceiveFailed { detail: String },
    /// The reverse lookup ended: with a name, or without one.
    Identified { name: Option<String> },
    /// The sleep is over.
    Slept,
}

impl View for ProbeEvent {
    type V = ProbeEventView;

    open spec fn view(&self) -> ProbeEventView {
        match self {
            ProbeEvent::Configured => ProbeEventView::Configured,
            ProbeEvent::ConfigureFailed { detail } => ProbeEventView::ConfigureFailed {
                detail: detail@,
            },
            ProbeEvent::Sent => ProbeEventView::Sent,
            ProbeEvent::SendFailed { detail } => ProbeEventView::SendFailed { detail: detail@ },
            ProbeEvent::Datagram { source } => ProbeEventView::Datagram { source: source@ },
            ProbeEvent::NoData => ProbeEventView::NoData,
            ProbeEvent::ReceiveFailed { detail } => ProbeEventView::ReceiveFailed {
                detail: detail@,
            },
            ProbeEvent::Identified { name } => ProbeEventView::Identified {
                name: match name {
                    Some(name) => Some(name@),
                    None => None,
                },
            },
            ProbeEvent::Slept => ProbeEventView::Slept,
        }
    }
}

/// A stage as the contracts see it.
pub enum StageView {
    Configuring,
    Sending,
    Receiving,
    Identifying { source: Text },
    Sleeping,
    Finished,
    Aborted,
}

/// Where a prober stands in its hop.
#[derive(Debug)]
enum Stage {
    /// The time-to-live is being set.
    Configuring,
    /// The probe is being sent.
    Sending,
    /// The window is open and the socket is being read.
    Receiving,
    /// The first answer has come, from `source`; its name is being looked up.
    Identifying { source: String },
    /// The window is open and the prober sleeps until the next read.
    Sleeping,
    /// The window has closed and the outcome has been reported.
    Finished,
    /// The socket refused the time-to-live; no probe was sent.
    Aborted,
}

impl View for Stage {
    type V = StageView;

    closed spec fn view(&self) -> StageView {
        match self {
            Stage::Configuring => StageView::Configuring,
            Stage::Sending => StageView::Sending,
            Stage::Receiving => StageView::Receiving,
            Stage::Identifying { source } => StageView::Identifying { source: source@ },
            Stage::Sleeping => StageView::Sleeping,
            Stage::Finished => StageView::Finished,
            Stage::Aborted => StageView::Aborted,
        }
    }
}

/// A prober as the contracts see it.
pub struct ProberView {
    /// The time-to-live of the probe.
    pub ttl: u32,
    /// Where the probe goes.
    pub destination: DestinationView,
    /// The length of the window, in milliseconds.
    pub window_ms: u64,
    /// The length of one sleep, in milliseconds.
    pub poll_interval_ms: u64,
    pub stage: StageView,
    /// The clock reading at which the window opened; it means nothing
    /// before the probe was sent.
    pub started_at: u64,
    /// Whether an answer has been reported.
    pub visible: bool,
}

impl ProberView {
    /// A prober that has done nothing yet.
    pub open spec fn fresh(
        ttl: u32,
        destination: DestinationView,
        window_ms: u64,
        poll_interval_ms: u64,
    ) -> ProberView {
        ProberView {
            ttl,
            destination,
            window_ms,
            poll_interval_ms,
            stage: StageView::Configuring,
            started_at: 0,
            visible: false,
        }
    }

    /// Whether the probe has yet to leave.
    pub open spec fn awaits_send(self) -> bool {
        self.stage is Configuring || self.stage is Sending
    }

    /// Whether the hop is over, one way or the other.
    pub open spec fn at_rest(self) -> bool {
        self.stage is Finished || self.stage is Aborted
    }

    /// Whether the outcome of the hop has been reported: an answer was
    /// heard, or the window closed without one.
    pub open spec fn reported(self) -> bool {
        self.visible || self.stage is Finished
    }

    /// Whether this prober stands where a prober can come to stand: it has
    /// reported an answer only if its window has opened.
    pub open spec fn coherent(self) -> bool {
        self.visible ==> self.stage is Receiving || self.stage is Sleeping
            || self.stage is Finished
    }

    /// The prober for the hop after this one.
    pub open spec fn successor(self) -> ProberView
        recommends
            self.ttl < u32::MAX,
    {
        ProberView::fresh(
            (self.ttl + 1) as u32,
            self.destination,
            self.window_ms,
            self.poll_interval_ms,
        )
    }

    /// What this prober wants done next.
    pub open spec fn pending(self) -> ProbeActionView {
        match self.stage {
            StageView::Configuring => ProbeActionView::Configure { ttl: self.ttl },
            StageView::Sending => ProbeActionView::Send {
                destination: self.destination,
                payload: probe_payload(),
            },
            StageView::Receiving => ProbeActionView::Receive,
            StageView::Identifying { source } => ProbeActionView::Identify { address: source },
            StageView::Sleeping => ProbeActionView::Sleep { millis: self.poll_interval_ms },
            StageView::Finished => ProbeActionView::Rest,
            StageView::Aborted => ProbeActionView::Rest,
        }
    }

    /// Whether `event` says how the pending action went.
    pub open spec fn expects(self, event: ProbeEventView) -> bool {
        match self.stage {
            StageView::Configuring => event is Configured || event is ConfigureFailed,
            StageView::Sending => event is Sent || event is SendFailed,
            StageView::Receiving => event is Datagram || event is NoData || event is ReceiveFailed,
            StageView::Identifying { .. } => event is Identified,
            StageView::Sleeping => event is Slept,
            StageView::Finished => false,
            StageView::Aborted => false,
        }
    }

    /// The time that has passed since the window opened, when the clock
    /// reads `now`. A clock that reads less than it did then counts as not
    /// having moved.
    pub open spec fn elapsed(self, now: u64) -> int {
        if now >= self.started_at {
            now - self.started_at
        } else {
            0
        }
    }

    /// Whether the window is still open when the clock reads `now`.
    pub open spec fn window_open(self, now: u64) -> bool {
        self.elapsed(now) < self.window_ms
    }

    /// The line that reports this hop as unreachable.
    pub open spec fn unreachable_line(self) -> LineView {
        LineView::Hop { ttl: self.ttl, result: HopResultView::Unreachable }
    }

    /// The line that reports the responder at `source`, given what the
    /// lookup of its name found.
    pub open spec fn visible_line(self, source: Text, name: Option<Text>) -> LineView {
        LineView::Hop {
            ttl: self.ttl,
            result: HopResultView::Visible(IdentityView::of(source, name)),
        }
    }

    /// The top of the polling loop, reached when the clock reads `now`:
    /// read again while the window is open; otherwise the hop is over, and
    /// if nobody has answered it is reported as unreachable.
    pub open spec fn poll_or_close(self, now: u64) -> (ProberView, Seq<LineView>) {
        if self.window_open(now) {
            (ProberView { stage: StageView::Receiving, ..self }, seq![])
        } else if self.visible {
            (ProberView { stage: StageView::Finished, ..self }, seq![])
        } else {
            (ProberView { stage: StageView::Finished, ..self }, seq![self.unreachable_line()])
        }
    }

    /// The prober after `event`, observed when the clock read `now`, and
    /// the lines to print for it.
    pub open spec fn step(self, now: u64, event: ProbeEventView) -> (ProberView, Seq<LineView>) {
        match (self.stage, event) {
            (StageView::Configuring, ProbeEventView::Configured) => (
                ProberView { stage: StageView::Sending, ..self },
                seq![],
            ),
            (StageView::Configuring, ProbeEventView::ConfigureFailed { detail }) => (
                ProberView { stage: StageView::Aborted, ..self },
                seq![LineView::Diagnostic { detail }],
            ),
            (StageView::Sending, ProbeEventView::Sent) => (ProberView {
                started_at: now,
                ..self
            }).poll_or_close(now),
            (StageView::Sending, ProbeEventView::SendFailed { detail }) => {
                let (next, lines) = (ProberView { started_at: now, ..self }).poll_or_close(now);
                (next, seq![LineView::Diagnostic { detail }] + lines)
            },
            (StageView::Receiving, ProbeEventView::Datagram { source }) => if self.visible {
                (ProberView { stage: StageView::Sleeping, ..self }, seq![])
            } else {
                (ProberView { stage: StageView::Identifying { source }, ..self }, seq![])
            },
            (StageView::Receiving, ProbeEventView::NoData) => (
                ProberView { stage: StageView::Sleeping, ..self },
                seq![],
            ),
            (StageView::Receiving, ProbeEventView::ReceiveFailed { detail }) => (
                ProberView { stage: StageView::Sleeping, ..self },
                seq![LineView::Diagnostic { detail }],
            ),
            (StageView::Identifying { source }, ProbeEventView::Identified { name }) => (
                ProberView { stage: StageView::Sleeping, visible: true, ..self },
                seq![self.visible_line(source, name)],
            ),
            (StageView::Sleeping, ProbeEventView::Slept) => self.poll_or_close(now),
            _ => (self, seq![]),
        }
    }
}

/// The prober of one hop.
#[derive(Debug)]
pub struct HopProber {
    ttl: u32,
    destination: Destination,
    window_ms: u64,
    poll_interval_ms: u64,
    stage: Stage,
    started_at: u64,
    visible: bool,
}

impl View for HopProber {
    type V = ProberView;

    closed spec fn view(&self) -> ProberView {
        ProberView {
            ttl: self.ttl,
            destination: self.destination@,
            window_ms: self.window_ms,
            poll_interval_ms: self.poll_interval_ms,
            stage: self.stage@,
            started_at: self.started_at,
            visible: self.visible,
        }
    }
}

impl HopProber {
    /// A prober for the hop at distance `ttl` on the way to `destination`.
    /// It listens for `window_ms` milliseconds and sleeps
    /// `poll_interval_ms` milliseconds between two reads.
    pub fn new(
        ttl: u32,
        destination: Destination,
        window_ms: u64,
        poll_interval_ms: u64,
    ) -> (prober: HopProber)
        ensures
            prober@ == ProberView::fresh(ttl, destination@, window_ms, poll_interval_ms),
    {
        HopProber {
            ttl,
            destination,
            window_ms,
            poll_interval_ms,
            stage: Stage::Configuring,
            started_at: 0,
            visible: false,
        }
    }

    /// The time-to-live of this prober's probe.
    pub fn ttl(&self) -> (ttl: u32)
        ensures
            ttl == self@.ttl,
    {
        self.ttl
    }

    /// Whether the window has closed and the outcome has been reported.
    pub fn is_finished(&self) -> (finished: bool)
        ensures
            finished == (self@.stage is Finished),
    {
        match self.stage {
            Stage::Finished => true,
            _ => false,
        }
    }

    /// Whether the hop was given up because the socket refused the
    /// time-to-live.
    pub fn is_aborted(&self) -> (aborted: bool)
        ensures
            aborted == (self@.stage is Aborted),
    {
        match self.stage {
            Stage::Aborted => true,
            _ => false,
        }
    }

    /// Whether an answer has been reported for this hop.
    pub fn is_visible(&self) -> (visible: bool)
        ensures
            visible == self@.visible,
    {
        self.visible
    }

    /// The prober for the hop after this one, if time-to-live can still
    /// grow.
    pub fn successor(self) -> (next: Option<HopProber>)
        ensures
            self@.ttl == u32::MAX ==> next is None,
            self@.ttl < u32::MAX ==> next is Some && next->0@ == self@.successor(),
    {
        if self.ttl == u32::MAX {
            None
        } else {
            Some(
                HopProber::new(
                    self.ttl + 1,
                    self.destination,
                    self.window_ms,
                    self.poll_interval_ms,
                ),
            )
        }
    }

    /// What this prober wants done next.
    pub fn pending(&self) -> (action: ProbeAction)
        ensures
            action@ == self@.pending(),
    {
        match &self.stage {
            Stage::Configuring => ProbeAction::Configure { ttl: self.ttl },
            Stage::Sending => {
                let mut payload: Vec<u8> = Vec::new();
                payload.push(0u8);
                assert(payload@ =~= probe_payload());
                ProbeAction::Send { destination: self.destination.duplicate(), payload }
            },
            Stage::Receiving => ProbeAction::Receive,
            Stage::Identifying { source } => ProbeAction::Identify { address: source.clone() },
            Stage::Sleeping => ProbeAction::Sleep { millis: self.poll_interval_ms },
            Stage::Finished => ProbeAction::Rest,
            Stage::Aborted => ProbeAction::Rest,
        }
    }

    /// The top of the polling loop: see [`ProberView::poll_or_close`].
    fn poll_or_close(self, now: u64) -> (next: (HopProber, Vec<Line>))
        ensures
            (next.0@, next.1.deep_view()) == self@.poll_or_close(now),
    {
        let elapsed: u64 = if now >= self.started_at {
            now - self.started_at
        } else {
            0
        };
        let mut lines: Vec<Line> = Vec::new();
        let mut next: HopProber = self;
        if elapsed < next.window_ms {
            next.stage = Stage::Receiving;
        } else {
            if !next.visible {
                lines.push(Line::Hop { ttl: next.ttl, result: HopResult::Unreachable });
            }
            next.stage = Stage::Finished;
        }
        assert(lines.deep_view() =~= self@.poll_or_close(now).1);
        (next, lines)
    }

    /// Takes in how the pending action went, observed when the clock read
    /// `now` milliseconds. Gives the prober after it and the lines to
    /// print, in order: see [`ProberView::step`].
    pub fn step(self, now: u64, event: ProbeEvent) -> (next: (HopProber, Vec<Line>))
        ensures
            (next.0@, next.1.deep_view()) == self@.step(now, event@),
    {
        let mut lines: Vec<Line> = Vec::new();
        let mut next: HopProber = self;
        match (&next.stage, event) {
            (Stage::Configuring, ProbeEvent::Configured) => {
                next.stage = Stage::Sending;
            },
            (Stage::Configuring, ProbeEvent::ConfigureFailed { detail }) => {
                lines.push(Line::Diagnostic { detail });
                next.stage = Stage::Aborted;
            },
            (Stage::Sending, ProbeEvent::Sent) => {
                next.started_at = now;
                return next.poll_or_close(now);
            },
            (Stage::Sending, ProbeEvent::SendFailed { detail }) => {
                next.started_at = now;
                let (closed, mut rest) = next.poll_or_close(now);
                lines.push(Line::Diagnostic { detail });
                lines.append(&mut rest);
                assert(lines.deep_view() =~= self@.step(now, event@).1);
                return (closed, lines);
            },
            (Stage::Receiving, ProbeEvent::Datagram { source }) => {
                if next.visible {
                    next.stage = Stage::Sleeping;
                } else {
                    next.stage = Stage::Identifying { source };
                }
            },
            (Stage::Receiving, ProbeEvent::NoData) => {
                next.stage = Stage::Sleeping;
            },
            (Stage::Receiving, ProbeEvent::ReceiveFailed { detail }) => {
                lines.push(Line::Diagnostic { detail });
                next.stage = Stage::Sleeping;
            },
            (Stage::Identifying { source }, ProbeEvent::Identified { name }) => {
                let identity: ResponderIdentity = ResponderIdentity::of(source.clone(), name);
                lines.push(Line::Hop { ttl: next.ttl, result: HopResult::Visible(identity) });
                next.stage = Stage::Sleeping;
                next.visible = true;
            },
            (Stage::Sleeping, ProbeEvent::Slept) => {
                return next.poll_or_close(now);
            },
            _ => {},
        }
        assert(lines.deep_view() =~= self@.step(now, event@).1);
        (next, lines)
    }
}

} // verus!
