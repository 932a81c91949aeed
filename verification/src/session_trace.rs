//! Whole sessions: what a session makes of everything that happens to it,
//! and what holds of every such history.

use crate::config::ConfigView;
use crate::prober::{ProbeActionView, ProbeEventView, ProberView};
use crate::prober_trace::lemma_step_reports;
use crate::report::{
    hop_lines, lemma_hop_lines_of_few, lemma_hop_lines_of_sum, HopResultView, LineView,
};
use crate::session::{ActionView, EventView, PhaseView, SessionView};
use crate::text::Text;
use vstd::prelude::*;

verus! {

/// One event together with the clock reading at which it was observed.
pub struct Input {
    pub at: u64,
    pub event: EventView,
}

/// The session that `session` has become after `inputs`, in order, and all
/// the lines printed on the way.
pub open spec fn run(session: SessionView, inputs: Seq<Input>) -> (SessionView, Seq<LineView>)
    decreases inputs.len(),
{
    if inputs.len() == 0 {
        (session, seq![])
    } else {
        let (before, printed) = run(session, inputs.drop_last());
        let (after, lines) = before.step(inputs.last().at, inputs.last().event);
        (after, printed + lines)
    }
}

/// Whether `reports` are the outcomes of the first hops of a trace, one for
/// each hop and in the order of the hops: the first is for time-to-live 1,
/// the next for 2, and so on.
pub open spec fn in_hop_order(reports: Seq<LineView>) -> bool {
    forall|i: int|
        0 <= i < reports.len() ==> (#[trigger] reports[i]) is Hop && reports[i]->ttl == i + 1
}

/// A session and the lines it has printed, as they can come to stand: the
/// hops before the current one have each been reported, in order; the
/// current one has been reported if its prober says so; no other has.
spec fn on_course(config: ConfigView, now: SessionView, printed: Seq<LineView>) -> bool {
    let reports = hop_lines(printed);
    &&& now.config == config
    &&& in_hop_order(reports)
    &&& reports.len() <= config.max_hops
    &&& match now.phase {
        PhaseView::Idle => reports.len() == 0,
        PhaseView::Resolving => reports.len() == 0,
        PhaseView::Binding { .. } => reports.len() == 0,
        PhaseView::Probing { prober } => {
            &&& prober.coherent()
            &&& !prober.at_rest()
            &&& 1 <= prober.ttl <= config.max_hops
            &&& reports.len() == if prober.reported() {
                prober.ttl as int
            } else {
                prober.ttl - 1
            }
        },
        PhaseView::Done => reports.len() == config.max_hops,
        PhaseView::Failed => true,
    }
}

/// Outcomes in hop order stay so when nothing is added to them, or the
/// outcome of the next hop.
proof fn lemma_order_extends(reports: Seq<LineView>, added: Seq<LineView>)
    requires
        in_hop_order(reports),
        added.len() == 0 || (added.len() == 1 && added[0] is Hop && added[0]->ttl == reports.len()
            + 1),
    ensures
        in_hop_order(reports + added),
        (reports + added).len() == reports.len() + added.len(),
{
    assert forall|i: int| 0 <= i < (reports + added).len() implies (#[trigger] (reports
        + added)[i]) is Hop && (reports + added)[i]->ttl == i + 1 by {
        if i < reports.len() {
            assert((reports + added)[i] == reports[i]);
        } else {
            assert((reports + added)[i] == added[0]);
        }
    }
}

/// A session at the hop of `prober` stays on course when that prober
/// becomes `stepped` and prints `lines`, if these are what a step of a
/// prober can give.
proof fn lemma_hop_moves_on(
    config: ConfigView,
    prober: ProberView,
    stepped: ProberView,
    printed: Seq<LineView>,
    lines: Seq<LineView>,
)
    requires
        config.valid(),
        on_course(config, SessionView { config, phase: PhaseView::Probing { prober } }, printed),
        stepped.coherent(),
        stepped.ttl == prober.ttl,
        prober.reported() ==> stepped.reported(),
        if stepped.reported() && !prober.reported() {
            hop_lines(lines).len() == 1 && hop_lines(lines)[0] is Hop && hop_lines(lines)[0]->ttl
                == prober.ttl
        } else {
            hop_lines(lines).len() == 0
        },
    ensures
        on_course(
            config,
            SessionView { config, phase: PhaseView::after_probe(stepped, config.max_hops) },
            printed + lines,
        ),
{
    let reports = hop_lines(printed);
    let added = hop_lines(lines);
    lemma_hop_lines_of_sum(printed, lines);
    lemma_order_extends(reports, added);
}

/// A session that is not probing, or is told nothing of its probe, prints
/// no outcome.
proof fn lemma_other_step_stays_on_course(
    config: ConfigView,
    now: SessionView,
    printed: Seq<LineView>,
    at: u64,
    event: EventView,
)
    requires
        config.valid(),
        on_course(config, now, printed),
        !(now.phase is Probing && event is Probe),
    ensures
        on_course(config, now.step(at, event).0, printed + now.step(at, event).1),
{
    let (next, lines) = now.step(at, event);
    assert(lines.len() == 0 || (lines.len() == 1 && !lines[0].is_hop()));
    assert(next.config == config);
    lemma_hop_lines_of_few(lines);
    assert(hop_lines(lines).len() == 0);
    lemma_hop_lines_of_sum(printed, lines);
    assert(hop_lines(printed) + hop_lines(lines) =~= hop_lines(printed));
}

proof fn lemma_step_stays_on_course(
    config: ConfigView,
    now: SessionView,
    printed: Seq<LineView>,
    at: u64,
    event: EventView,
)
    requires
        config.valid(),
        on_course(config, now, printed),
    ensures
        on_course(config, now.step(at, event).0, printed + now.step(at, event).1),
{
    match (now.phase, event) {
        (PhaseView::Probing { prober }, EventView::Probe(inner)) => {
            let (stepped, lines) = prober.step(at, inner);
            lemma_step_reports(prober, at, inner);
            lemma_hop_moves_on(config, prober, stepped, printed, lines);
        },
        _ => {
            lemma_other_step_stays_on_course(config, now, printed, at, event);
        },
    }
}

proof fn lemma_run_stays_on_course(config: ConfigView, inputs: Seq<Input>)
    requires
        config.valid(),
    ensures
        on_course(
            config,
            run(SessionView::fresh(config), inputs).0,
            run(SessionView::fresh(config), inputs).1,
        ),
    decreases inputs.len(),
{
    if inputs.len() == 0 {
        lemma_hop_lines_of_few(seq![]);
    } else {
        lemma_run_stays_on_course(config, inputs.drop_last());
        let (before, printed) = run(SessionView::fresh(config), inputs.drop_last());
        lemma_step_stays_on_course(config, before, printed, inputs.last().at, inputs.last().event);
    }
}

/// One line for each hop, in order. Whatever happens to a session that
/// probes up to `max_hops` hops, the outcomes that it has printed are those
/// of the hops with time-to-live 1, 2, 3 and so on, one for each and in
/// that order, and never more than `max_hops` of them. While it probes a
/// hop, it has printed the outcome of every hop before that one, and of
/// that one if it is decided, and of no hop behind it: no probe leaves
/// before the hop before it is over. A session that has come to its end
/// has printed exactly `max_hops` outcomes.
pub proof fn law_one_line_per_hop_in_order(config: ConfigView, inputs: Seq<Input>)
    requires
        config.valid(),
    ensures
        ({
            let (end, printed) = run(SessionView::fresh(config), inputs);
            let reports = hop_lines(printed);
            &&& in_hop_order(reports)
            &&& reports.len() <= config.max_hops
            &&& end.phase matches PhaseView::Probing { prober } ==> 1 <= prober.ttl
                <= config.max_hops && reports.len() == if prober.reported() {
                prober.ttl as int
            } else {
                prober.ttl - 1
            }
            &&& end.phase is Done ==> reports.len() == config.max_hops
        }),
{
    lemma_run_stays_on_course(config, inputs);
}

/// Hops are probed in turn. Whenever a session asks for a time-to-live to
/// be set, it is the one after the hops whose outcomes it has printed, and
/// none above the hop limit; and whenever it asks for a probe to be sent,
/// it has printed the outcome of every hop before that probe's hop and of
/// no other. So the time-to-live is set to 1, 2, 3 and so on, and no probe
/// leaves before the hop before it is over and reported.
pub proof fn law_hops_are_probed_in_turn(config: ConfigView, inputs: Seq<Input>)
    requires
        config.valid(),
    ensures
        ({
            let (end, printed) = run(SessionView::fresh(config), inputs);
            let reports = hop_lines(printed);
            &&& end.pending() matches ActionView::Probe(ProbeActionView::Configure { ttl }) ==> 1
                <= ttl <= config.max_hops && reports.len() == ttl - 1
            &&& end.pending() matches ActionView::Probe(ProbeActionView::Send { .. })
                ==> end.phase matches PhaseView::Probing { prober } && 1 <= prober.ttl
                <= config.max_hops && reports.len() == prober.ttl - 1
        }),
{
    lemma_run_stays_on_course(config, inputs);
}

/// Whether `event` tells of a failure that ends a session: the name of the
/// host could not be resolved, or resolved to no address at all; the probe
/// socket could not be opened; or the socket refused a time-to-live.
pub open spec fn is_fatal(event: EventView) -> bool {
    match event {
        EventView::ResolveFailed { .. } => true,
        EventView::Resolved { addresses } => addresses.len() == 0,
        EventView::BindFailed { .. } => true,
        EventView::Probe(ProbeEventView::ConfigureFailed { .. }) => true,
        _ => false,
    }
}

proof fn lemma_run_stays_well(config: ConfigView, inputs: Seq<Input>)
    requires
        config.valid(),
        forall|i: int| 0 <= i < inputs.len() ==> !is_fatal(#[trigger] inputs[i].event),
    ensures
        !(run(SessionView::fresh(config), inputs).0.phase is Failed),
    decreases inputs.len(),
{
    if inputs.len() > 0 {
        let earlier = inputs.drop_last();
        assert forall|i: int| 0 <= i < earlier.len() implies !is_fatal(
            #[trigger] earlier[i].event,
        ) by {
            assert(earlier[i] == inputs[i]);
        }
        lemma_run_stays_well(config, earlier);
        lemma_run_stays_on_course(config, earlier);
        assert(!is_fatal(inputs[inputs.len() - 1].event));
    }
}

/// A session fails only on a failure. With a host that resolves to at
/// least one address, a probe socket that opens and takes every
/// time-to-live, a session never fails, whatever else happens: a probe
/// that cannot be sent, a read that fails, a name that is not found, an
/// event out of turn. It goes on to its last hop.
pub proof fn law_session_fails_only_on_failure(config: ConfigView, inputs: Seq<Input>)
    requires
        config.valid(),
        forall|i: int| 0 <= i < inputs.len() ==> !is_fatal(#[trigger] inputs[i].event),
    ensures
        !(run(SessionView::fresh(config), inputs).0.phase is Failed),
{
    lemma_run_stays_well(config, inputs);
}

/// The run over the first `n + 1` inputs is the run over the first `n`,
/// followed by one step.
proof fn lemma_run_unfolds(session: SessionView, inputs: Seq<Input>, n: int)
    requires
        0 <= n < inputs.len(),
    ensures
        run(session, inputs.take(n + 1)) == ({
            let (before, printed) = run(session, inputs.take(n));
            let (after, lines) = before.step(inputs[n].at, inputs[n].event);
            (after, printed + lines)
        }),
{
    assert(inputs.take(n + 1).drop_last() =~= inputs.take(n));
    assert(inputs.take(n + 1).last() == inputs[n]);
}

/// What is printed stays printed: the outcomes after the first `m` inputs
/// are the first of the outcomes after the first `n`, for `n` from `m` on.
proof fn lemma_reports_stay(session: SessionView, inputs: Seq<Input>, m: int, n: int)
    requires
        0 <= m <= n <= inputs.len(),
    ensures
        ({
            let early = hop_lines(run(session, inputs.take(m)).1);
            let late = hop_lines(run(session, inputs.take(n)).1);
            &&& early.len() <= late.len()
            &&& forall|j: int| 0 <= j < early.len() ==> #[trigger] late[j] == early[j]
        }),
    decreases n - m,
{
    if n > m {
        lemma_reports_stay(session, inputs, m, n - 1);
        lemma_run_unfolds(session, inputs, n - 1);
        let (before, printed) = run(session, inputs.take(n - 1));
        let lines = before.step(inputs[n - 1].at, inputs[n - 1].event).1;
        lemma_hop_lines_of_sum(printed, lines);
    }
}

/// An answer shows in its place. Let a session be at the hop of `prober`,
/// reading, with no answer heard so far, when a datagram from `source`
/// comes in and the lookup of that address ends. Then the outcome that the
/// session prints for that hop, at the place of that hop among all its
/// outcomes, is "visible", with that address and with the name that the
/// lookup found, or with the address alone where it found none. Whatever
/// comes later leaves that line as it is.
pub proof fn law_answer_shows_in_its_place(
    config: ConfigView,
    inputs: Seq<Input>,
    heard: int,
    prober: ProberView,
    source: Text,
    name: Option<Text>,
)
    requires
        config.valid(),
        0 <= heard,
        heard + 1 < inputs.len(),
        run(SessionView::fresh(config), inputs.take(heard)).0.phase == (PhaseView::Probing {
            prober,
        }),
        prober.stage is Receiving,
        !prober.visible,
        inputs[heard].event == EventView::Probe(ProbeEventView::Datagram { source }),
        inputs[heard + 1].event == EventView::Probe(ProbeEventView::Identified { name }),
    ensures
        ({
            let reports = hop_lines(run(SessionView::fresh(config), inputs).1);
            &&& 1 <= prober.ttl <= reports.len()
            &&& reports[prober.ttl - 1] == prober.visible_line(source, name)
        }),
{
    let start = SessionView::fresh(config);
    let (before, printed) = run(start, inputs.take(heard));
    let (asking, same) = run(start, inputs.take(heard + 1));
    let (told, more) = run(start, inputs.take(heard + 2));
    let line = prober.visible_line(source, name);
    lemma_run_stays_on_course(config, inputs.take(heard));
    lemma_run_unfolds(start, inputs, heard);
    lemma_run_unfolds(start, inputs, heard + 1);
    assert(same == printed + Seq::<LineView>::empty());
    assert(same =~= printed);
    assert(more == printed + seq![line]);
    lemma_hop_lines_of_sum(printed, seq![line]);
    lemma_hop_lines_of_few(seq![line]);
    assert(hop_lines(more)[prober.ttl - 1] == line);
    lemma_reports_stay(start, inputs, heard + 2, inputs.len() as int);
    assert(inputs.take(inputs.len() as int) =~= inputs);
}

/// Whether `session` is at the hop with time-to-live `ttl`.
pub open spec fn probes_hop(session: SessionView, ttl: u32) -> bool {
    session.phase matches PhaseView::Probing { prober } && prober.ttl == ttl
}

/// The line that reports the hop with time-to-live `ttl` as unreachable.
pub open spec fn unreachable_line(ttl: u32) -> LineView {
    LineView::Hop { ttl, result: HopResultView::Unreachable }
}

/// A session that has heard no answer at the hop with time-to-live `ttl`:
/// it has not printed the outcome of that hop, or has printed that it is
/// unreachable.
spec fn hushed(config: ConfigView, ttl: u32, now: SessionView, printed: Seq<LineView>) -> bool {
    let reports = hop_lines(printed);
    &&& on_course(config, now, printed)
    &&& now.phase matches PhaseView::Probing { prober } ==> prober.ttl == ttl ==> !prober.visible
        && !(prober.stage is Identifying)
    &&& reports.len() >= ttl ==> reports[ttl - 1] == unreachable_line(ttl)
}

proof fn lemma_step_stays_hushed(
    config: ConfigView,
    ttl: u32,
    now: SessionView,
    printed: Seq<LineView>,
    at: u64,
    event: EventView,
)
    requires
        config.valid(),
        ttl >= 1,
        hushed(config, ttl, now, printed),
        probes_hop(now, ttl) ==> !(event matches EventView::Probe(
            ProbeEventView::Datagram { .. },
        )),
    ensures
        hushed(config, ttl, now.step(at, event).0, printed + now.step(at, event).1),
{
    let (next, lines) = now.step(at, event);
    let reports = hop_lines(printed);
    let added = hop_lines(lines);
    lemma_step_stays_on_course(config, now, printed, at, event);
    lemma_hop_lines_of_sum(printed, lines);
    match (now.phase, event) {
        (PhaseView::Probing { prober }, EventView::Probe(inner)) => {
            lemma_step_reports(prober, at, inner);
            lemma_hop_lines_of_few(lines);
            if added.len() == 1 {
                assert(reports.len() == prober.ttl - 1);
                assert((reports + added)[prober.ttl - 1] == added[0]);
            }
        },
        _ => {
            lemma_hop_lines_of_few(lines);
            assert(added.len() == 0);
        },
    }
    if reports.len() >= ttl {
        assert((reports + added)[ttl - 1] == reports[ttl - 1]);
    }
}

proof fn lemma_run_stays_hushed(config: ConfigView, ttl: u32, inputs: Seq<Input>, n: int)
    requires
        config.valid(),
        ttl >= 1,
        0 <= n <= inputs.len(),
        forall|i: int|
            0 <= i < inputs.len() && #[trigger] probes_hop(
                run(SessionView::fresh(config), inputs.take(i)).0,
                ttl,
            ) ==> !(inputs[i].event matches EventView::Probe(ProbeEventView::Datagram { .. })),
    ensures
        hushed(
            config,
            ttl,
            run(SessionView::fresh(config), inputs.take(n)).0,
            run(SessionView::fresh(config), inputs.take(n)).1,
        ),
    decreases n,
{
    let start = SessionView::fresh(config);
    if n == 0 {
        assert(inputs.take(0) =~= Seq::<Input>::empty());
        lemma_hop_lines_of_few(seq![]);
    } else {
        lemma_run_stays_hushed(config, ttl, inputs, n - 1);
        lemma_run_unfolds(start, inputs, n - 1);
        let (before, printed) = run(start, inputs.take(n - 1));
        assert(probes_hop(before, ttl) ==> !(inputs[n - 1].event matches EventView::Probe(
            ProbeEventView::Datagram { .. },
        )));
        lemma_step_stays_hushed(
            config,
            ttl,
            before,
            printed,
            inputs[n - 1].at,
            inputs[n - 1].event,
        );
    }
}

/// A silent hop shows as three stars. If a session reads no datagram while
/// it is at the hop with time-to-live `ttl`, and has printed the outcome of
/// that hop, then that outcome, at the place of that hop among all its
/// outcomes, is "unreachable".
pub proof fn law_silent_hop_shows_stars(config: ConfigView, inputs: Seq<Input>, ttl: u32)
    requires
        config.valid(),
        forall|i: int|
            0 <= i < inputs.len() && #[trigger] probes_hop(
                run(SessionView::fresh(config), inputs.take(i)).0,
                ttl,
            ) ==> !(inputs[i].event matches EventView::Probe(ProbeEventView::Datagram { .. })),
        1 <= ttl <= hop_lines(run(SessionView::fresh(config), inputs).1).len(),
    ensures
        hop_lines(run(SessionView::fresh(config), inputs).1)[ttl - 1] == unreachable_line(ttl),
        unreachable_line(ttl).text() == "* * *"@,
{
    lemma_run_stays_hushed(config, ttl, inputs, inputs.len() as int);
    assert(inputs.take(inputs.len() as int) =~= inputs);
}

} // verus!
