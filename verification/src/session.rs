//! A whole trace: one hop after the other, from the first name lookup to
//! the exit status.
//!
//! Like a prober, a session never acts itself. It names the next thing to
//! do ([`Session::pending`]) and is told how that went ([`Session::step`]);
//! an event that does not answer the pending action is ignored.
//!
//! A session probes every hop up to its limit, one at a time, and does not
//! stop when the destination itself answers. Only a failure before the
//! first probe, or a socket that refuses a time-to-live, ends it early.

use crate::config::{ConfigView, SessionConfig, EXIT_FAILURE, EXIT_SUCCESS};
use crate::destination::{chosen, Destination, DestinationView, PROBE_PORT};
use crate::prober::{
    HopProber, ProbeAction, ProbeActionView, ProbeEvent, ProbeEventView, ProberView,
};
use crate::report::{Line, LineView};
use crate::text::Text;
use vstd::prelude::*;
use vstd::string::*;

verus! {

/// The longest that one read of the probe socket may block, in
/// milliseconds. The socket does not block at all while a session polls
/// it; this is a bound in case it ever does.
pub const READ_TIMEOUT_MS: u64 = 10000;

/// The local address of the probe socket.
pub open spec fn local_address() -> Text {
    "127.0.0.1"@
}

/// What a session says when the lookup of the traced host ends without a
/// single address, so that there is nothing to send a probe to.
pub open spec fn no_destination() -> Text {
    "no address to probe"@
}

/// An action as the contracts see it.
pub enum ActionView {
    Start,
    Resolve { hostname: Text },
    Bind { address: Text, port: u16, read_timeout_ms: u64 },
    Probe(ProbeActionView),
    Exit { code: i32 },
}

/// What a session wants done next.
#[derive(Debug, PartialEq, Eq)]
pub enum Action {
    /// Nothing outside: the session waits to be started. Answered by
    /// `Started`.
    Start,
    /// Look up the addresses of this host. Answered by `Resolved` or
    /// `ResolveFailed`.
    Resolve { hostname: String },
    /// Open the probe socket: a datagram socket at this local address and
    /// port that never waits for data and gives a read up after this many
    /// milliseconds. Answered by `Bound` or `BindFailed`.
    Bind { address: String, port: u16, read_timeout_ms: u64 },
    /// What the prober of the current hop wants done. Answered by
    /// `Probe`.
    Probe(ProbeAction),
    /// Leave with this exit status: the session is over.
    Exit { code: i32 },
}

impl View for Action {
    type V = ActionView;

    open spec fn view(&self) -> ActionView {
        match self {
            Action::Start => ActionView::Start,
            Action::Resolve { hostname } => ActionView::Resolve { hostname: hostname@ },
            Action::Bind { address, port, read_timeout_ms } => ActionView::Bind {
                address: address@,
                port: *port,
                read_timeout_ms: *read_timeout_ms,
            },
            Action::Probe(action) => ActionView::Probe(action@),
            Action::Exit { code } => ActionView::Exit { code: *code },
        }
    }
}

/// An event as the contracts see it.
pub enum EventView {
    Started,
    Resolved { addresses: Seq<Text> },
    ResolveFailed { detail: Text },
    Bound,
    BindFailed { detail: Text },
    Probe(ProbeEventView),
}

/// How an action of a session went.
#[derive(Debug)]
pub enum Event {
    /// The session may begin.
    Started,
    /// The host has these addresses, in the resolver's order and in their
    /// textual form.
    Resolved { addresses: Vec<String> },
    /// The host's name could not be resolved.
    ResolveFailed { detail: String },
    /// The probe socket is open.
    Bound,
    /// The probe socket could not be opened or set up.
    BindFailed { detail: String },
    /// How the action of the current hop's prober went.
    Probe(ProbeEvent),
}

impl View for Event {
    type V = EventView;

    open spec fn view(&self) -> EventView {
        match self {
            Event::Started => EventView::Started,
            Event::Resolved { addresses } => EventView::Resolved {
                addresses: addresses.deep_view(),
            },
            Event::ResolveFailed { detail } => EventView::ResolveFailed { detail: detail@ },
            Event::Bound => EventView::Bound,
            Event::BindFailed { detail } => EventView::BindFailed { detail: detail@ },
            Event::Probe(event) => EventView::Probe(event@),
        }
    }
}

/// A phase as the contracts see it.
pub enum PhaseView {
    Idle,
    Resolving,
    Binding { destination: DestinationView },
    Probing { prober: ProberView },
    Done,
    Failed,
}

impl PhaseView {
    /// The phase of a session of `max_hops` hops once the prober of its
    /// current hop has become `prober`: on with the same hop while it
    /// lasts; then to the next hop, or to the end after the last one; and
    /// to failure if the hop was given up.
    pub open spec fn after_probe(prober: ProberView, max_hops: u32) -> PhaseView {
        if prober.stage is Aborted {
            PhaseView::Failed
        } else if !(prober.stage is Finished) {
            PhaseView::Probing { prober }
        } else if prober.ttl < max_hops {
            PhaseView::Probing { prober: prober.successor() }
        } else {
            PhaseView::Done
        }
    }
}

/// Where a session stands.
#[derive(Debug)]
enum Phase {
    /// Not started.
    Idle,
    /// The addresses of the host are being looked up.
    Resolving,
    /// The destination is known and the probe socket is being opened.
    Binding { destination: Destination },
    /// The hop of this prober is being probed.
    Probing { prober: HopProber },
    /// Every hop has been probed.
    Done,
    /// The session had to stop before its last hop.
    Failed,
}

impl View for Phase {
    type V = PhaseView;

    closed spec fn view(&self) -> PhaseView {
        match self {
            Phase::Idle => PhaseView::Idle,
            Phase::Resolving => PhaseView::Resolving,
            Phase::Binding { destination } => PhaseView::Binding { destination: destination@ },
            Phase::Probing { prober } => PhaseView::Probing { prober: prober@ },
            Phase::Done => PhaseView::Done,
            Phase::Failed => PhaseView::Failed,
        }
    }
}

/// A session as the contracts see it.
pub struct SessionView {
    pub config: ConfigView,
    pub phase: PhaseView,
}

impl SessionView {
    /// A session that has not been started.
    pub open spec fn fresh(config: ConfigView) -> SessionView {
        SessionView { config, phase: PhaseView::Idle }
    }

    /// The prober of the first hop on the way to `destination`.
    pub open spec fn first_prober(self, destination: DestinationView) -> ProberView {
        ProberView::fresh(1, destination, self.config.window_ms, self.config.poll_interval_ms)
    }

    /// What this session wants done next.
    pub open spec fn pending(self) -> ActionView {
        match self.phase {
            PhaseView::Idle => ActionView::Start,
            PhaseView::Resolving => ActionView::Resolve { hostname: self.config.hostname },
            PhaseView::Binding { .. } => ActionView::Bind {
                address: local_address(),
                port: PROBE_PORT,
                read_timeout_ms: READ_TIMEOUT_MS,
            },
            PhaseView::Probing { prober } => ActionView::Probe(prober.pending()),
            PhaseView::Done => ActionView::Exit { code: EXIT_SUCCESS },
            PhaseView::Failed => ActionView::Exit { code: EXIT_FAILURE },
        }
    }

    /// The session after `event`, observed when the clock read `now`, and
    /// the lines to print for it.
    pub open spec fn step(self, now: u64, event: EventView) -> (SessionView, Seq<LineView>) {
        match (self.phase, event) {
            (PhaseView::Idle, EventView::Started) => (
                SessionView { phase: PhaseView::Resolving, ..self },
                seq![LineView::Heading { hostname: self.config.hostname }],
            ),
            (PhaseView::Resolving, EventView::Resolved { addresses }) => match chosen(addresses) {
                Some(destination) => (
                    SessionView { phase: PhaseView::Binding { destination }, ..self },
                    seq![],
                ),
                None => (
                    SessionView { phase: PhaseView::Failed, ..self },
                    seq![LineView::Diagnostic { detail: no_destination() }],
                ),
            },
            (PhaseView::Resolving, EventView::ResolveFailed { detail }) => (
                SessionView { phase: PhaseView::Failed, ..self },
                seq![LineView::Diagnostic { detail }],
            ),
            (PhaseView::Binding { destination }, EventView::Bound) => (
                SessionView {
                    phase: PhaseView::Probing { prober: self.first_prober(destination) },
                    ..self
                },
                seq![],
            ),
            (PhaseView::Binding { .. }, EventView::BindFailed { detail }) => (
                SessionView { phase: PhaseView::Failed, ..self },
                seq![LineView::Diagnostic { detail }],
            ),
            (PhaseView::Probing { prober }, EventView::Probe(inner)) => {
                let (next, lines) = prober.step(now, inner);
                (
                    SessionView {
                        phase: PhaseView::after_probe(next, self.config.max_hops),
                        ..self
                    },
                    lines,
                )
            },
            _ => (self, seq![]),
        }
    }
}

/// One trace, from start to exit.
#[derive(Debug)]
pub struct Session {
    config: SessionConfig,
    phase: Phase,
}

impl View for Session {
    type V = SessionView;

    closed spec fn view(&self) -> SessionView {
        SessionView { config: self.config@, phase: self.phase@ }
    }
}

impl Session {
    /// While a hop is being probed, its prober has something left to do.
    #[verifier::type_invariant]
    spec fn prober_is_busy(&self) -> bool {
        self.phase@ matches PhaseView::Probing { prober } ==> !prober.at_rest()
    }

    /// A session with these settings, not yet started.
    pub fn new(config: SessionConfig) -> (session: Session)
        ensures
            session@ == SessionView::fresh(config@),
    {
        Session { config, phase: Phase::Idle }
    }

    /// The settings of this session.
    pub fn config(&self) -> (config: &SessionConfig)
        ensures
            config@ == self@.config,
    {
        &self.config
    }

    /// Whether the session is over, well or badly: nothing is left to do
    /// but to exit.
    pub fn is_over(&self) -> (over: bool)
        ensures
            over == (self@.phase is Done || self@.phase is Failed),
    {
        match self.phase {
            Phase::Done => true,
            Phase::Failed => true,
            _ => false,
        }
    }

    /// What this session wants done next. It is never a prober's `Rest`:
    /// a session whose hop is over has moved on.
    pub fn pending(&self) -> (action: Action)
        ensures
            action@ == self@.pending(),
            action@ != ActionView::Probe(ProbeActionView::Rest),
    {
        proof {
            use_type_invariant(self);
        }
        match &self.phase {
            Phase::Idle => Action::Start,
            Phase::Resolving => Action::Resolve { hostname: self.config.hostname().clone() },
            Phase::Binding { .. } => Action::Bind {
                address: String::from_str("127.0.0.1"),
                port: PROBE_PORT,
                read_timeout_ms: READ_TIMEOUT_MS,
            },
            Phase::Probing { prober } => Action::Probe(prober.pending()),
            Phase::Done => Action::Exit { code: EXIT_SUCCESS },
            Phase::Failed => Action::Exit { code: EXIT_FAILURE },
        }
    }

    /// Where the session goes once the prober of the current hop has
    /// become `prober`: see [`PhaseView::after_probe`].
    fn after_probe(config: &SessionConfig, prober: HopProber) -> (phase: Phase)
        ensures
            phase@ == PhaseView::after_probe(prober@, config@.max_hops),
    {
        if prober.is_aborted() {
            Phase::Failed
        } else if !prober.is_finished() {
            Phase::Probing { prober }
        } else if prober.ttl() < config.max_hops() {
            match prober.successor() {
                Some(next) => Phase::Probing { prober: next },
                None => Phase::Done,
            }
        } else {
            Phase::Done
        }
    }

    /// Takes in how the pending action went, observed when the clock read
    /// `now` milliseconds. Gives the session after it and the lines to
    /// print, in order: see [`SessionView::step`].
    pub fn step(self, now: u64, event: Event) -> (next: (Session, Vec<Line>))
        ensures
            (next.0@, next.1.deep_view()) == self@.step(now, event@),
    {
        proof {
            use_type_invariant(&self);
        }
        let Session { config, phase } = self;
        let mut lines: Vec<Line> = Vec::new();
        let after: Phase = match (phase, event) {
            (Phase::Idle, Event::Started) => {
                lines.push(Line::Heading { hostname: config.hostname().clone() });
                Phase::Resolving
            },
            (Phase::Resolving, Event::Resolved { addresses }) => {
                match Destination::select(&addresses) {
                    Some(destination) => Phase::Binding { destination },
                    None => {
                        lines.push(
                            Line::Diagnostic { detail: String::from_str("no address to probe") },
                        );
                        Phase::Failed
                    },
                }
            },
            (Phase::Resolving, Event::ResolveFailed { detail }) => {
                lines.push(Line::Diagnostic { detail });
                Phase::Failed
            },
            (Phase::Binding { destination }, Event::Bound) => {
                Phase::Probing {
                    prober: HopProber::new(
                        1,
                        destination,
                        config.window_ms(),
                        config.poll_interval_ms(),
                    ),
                }
            },
            (Phase::Binding { .. }, Event::BindFailed { detail }) => {
                lines.push(Line::Diagnostic { detail });
                Phase::Failed
            },
            (Phase::Probing { prober }, Event::Probe(inner)) => {
                let (stepped, printed) = prober.step(now, inner);
                lines = printed;
                Session::after_probe(&config, stepped)
            },
            (phase, _) => phase,
        };
        assert(lines.deep_view() =~= self@.step(now, event@).1);
        (Session { config, phase: after }, lines)
    }
}

} // verus!
