//! Whole hops: what a prober makes of everything that happens to it, from
//! the first event to the last, and what holds of every such history.

use crate::prober::{ProbeEventView, ProberView, StageView};
use crate::report::{
    hop_lines, lemma_hop_lines_of_few, lemma_hop_lines_of_sum, HopResultView, IdentityView,
    LineView,
};
use crate::text::{decimal, Text};
use vstd::prelude::*;

verus! {

/// One event together with the clock reading at which it was observed.
pub struct ProbeInput {
    pub at: u64,
    pub event: ProbeEventView,
}

/// The prober that `prober` has become after `inputs`, in order, and all
/// the lines printed on the way.
pub open spec fn run(prober: ProberView, inputs: Seq<ProbeInput>) -> (ProberView, Seq<LineView>)
    decreases inputs.len(),
{
    if inputs.len() == 0 {
        (prober, seq![])
    } else {
        let (before, printed) = run(prober, inputs.drop_last());
        let (after, lines) = before.step(inputs.last().at, inputs.last().event);
        (after, printed + lines)
    }
}

/// Whether every one of `inputs` says how the action went that was pending
/// when it came, as it does when the caller does what the prober asks.
pub open spec fn answered(prober: ProberView, inputs: Seq<ProbeInput>) -> bool {
    forall|i: int|
        0 <= i < inputs.len() ==> (#[trigger] run(prober, inputs.take(i))).0.expects(
            inputs[i].event,
        )
}

/// Whether `prober` has done nothing yet.
pub open spec fn untouched(prober: ProberView) -> bool {
    prober.stage is Configuring && !prober.visible
}

/// The run over the first `n + 1` inputs is the run over the first `n`,
/// followed by one step.
proof fn lemma_run_unfolds(prober: ProberView, inputs: Seq<ProbeInput>, n: int)
    requires
        0 <= n < inputs.len(),
    ensures
        run(prober, inputs.take(n + 1)) == ({
            let (before, printed) = run(prober, inputs.take(n));
            let (after, lines) = before.step(inputs[n].at, inputs[n].event);
            (after, printed + lines)
        }),
{
    assert(inputs.take(n + 1).drop_last() =~= inputs.take(n));
    assert(inputs.take(n + 1).last() == inputs[n]);
}

/// What one step adds to the reports of a hop: the hop's outcome, if the
/// step is the one that reports it, and otherwise nothing. The settings of
/// the prober stay as they are.
pub proof fn lemma_step_reports(now: ProberView, at: u64, event: ProbeEventView)
    requires
        now.coherent(),
    ensures
        ({
            let (next, lines) = now.step(at, event);
            let reports = hop_lines(lines);
            &&& next.coherent()
            &&& next.ttl == now.ttl
            &&& next.destination == now.destination
            &&& next.window_ms == now.window_ms
            &&& next.poll_interval_ms == now.poll_interval_ms
            &&& now.reported() ==> next.reported()
            &&& if next.reported() && !now.reported() {
                reports.len() == 1 && reports[0] is Hop && reports[0]->ttl == now.ttl
            } else {
                reports.len() == 0
            }
        }),
{
    lemma_hop_lines_of_few(now.step(at, event).1);
}

/// What a prober has reported, judged by where it stands: one outcome once
/// it has seen an answer or closed its window, none before.
spec fn accounted(start: ProberView, now: ProberView, printed: Seq<LineView>) -> bool {
    let reports = hop_lines(printed);
    &&& now.coherent()
    &&& now.ttl == start.ttl
    &&& now.window_ms == start.window_ms
    &&& now.poll_interval_ms == start.poll_interval_ms
    &&& now.destination == start.destination
    &&& if now.reported() {
        reports.len() == 1 && reports[0] is Hop && reports[0]->ttl == start.ttl
    } else {
        reports.len() == 0
    }
}

proof fn lemma_step_keeps_account(
    start: ProberView,
    now: ProberView,
    printed: Seq<LineView>,
    at: u64,
    event: ProbeEventView,
)
    requires
        accounted(start, now, printed),
    ensures
        accounted(start, now.step(at, event).0, printed + now.step(at, event).1),
{
    lemma_hop_lines_of_sum(printed, now.step(at, event).1);
    lemma_step_reports(now, at, event);
}

proof fn lemma_run_keeps_account(start: ProberView, inputs: Seq<ProbeInput>, n: int)
    requires
        untouched(start),
        0 <= n <= inputs.len(),
    ensures
        accounted(start, run(start, inputs.take(n)).0, run(start, inputs.take(n)).1),
    decreases n,
{
    if n == 0 {
        reveal(Seq::filter);
        assert(inputs.take(0) =~= Seq::<ProbeInput>::empty());
    } else {
        lemma_run_keeps_account(start, inputs, n - 1);
        lemma_run_unfolds(start, inputs, n - 1);
        let (before, printed) = run(start, inputs.take(n - 1));
        lemma_step_keeps_account(start, before, printed, inputs[n - 1].at, inputs[n - 1].event);
    }
}

/// A hop has one outcome. Whatever happens to a prober that starts afresh,
/// and in whatever order, it never reports more than one outcome; once its
/// window has closed it has reported exactly one; and an outcome that it
/// reports is the outcome of its own hop.
pub proof fn law_one_outcome_per_hop(prober: ProberView, inputs: Seq<ProbeInput>)
    requires
        untouched(prober),
    ensures
        ({
            let (end, printed) = run(prober, inputs);
            let reports = hop_lines(printed);
            &&& reports.len() <= 1
            &&& end.stage is Finished ==> reports.len() == 1
            &&& forall|i: int|
                0 <= i < reports.len() ==> (#[trigger] reports[i]) is Hop && reports[i]->ttl
                    == prober.ttl
        }),
{
    lemma_run_keeps_account(prober, inputs, inputs.len() as int);
    assert(inputs.take(inputs.len() as int) =~= inputs);
}

/// A prober that has heard no answer so far: it has reported nothing, or,
/// with its window closed, that the hop is unreachable.
spec fn unanswered(start: ProberView, now: ProberView, printed: Seq<LineView>) -> bool {
    let reports = hop_lines(printed);
    &&& now.ttl == start.ttl
    &&& !now.visible
    &&& !(now.stage is Identifying)
    &&& if now.stage is Finished {
        reports.len() == 1 && reports[0] == start.unreachable_line()
    } else {
        reports.len() == 0
    }
}

/// What a step prints for the hop when no answer has been heard and none
/// comes with it: that the hop is unreachable, if the step closes the
/// window, and otherwise nothing.
proof fn lemma_silent_step(now: ProberView, at: u64, event: ProbeEventView)
    requires
        !now.visible,
        !(now.stage is Identifying),
        !(event is Datagram),
    ensures
        ({
            let (next, lines) = now.step(at, event);
            &&& next.ttl == now.ttl
            &&& !next.visible
            &&& !(next.stage is Identifying)
            &&& now.stage is Finished ==> next.stage is Finished
            &&& hop_lines(lines) == if next.stage is Finished && !(now.stage is Finished) {
                seq![now.unreachable_line()]
            } else {
                Seq::<LineView>::empty()
            }
        }),
{
    let lines = now.step(at, event).1;
    lemma_hop_lines_of_few(lines);
    match now.stage {
        StageView::Sending => {
            let opened = ProberView { started_at: at, ..now };
            assert(opened.unreachable_line() == now.unreachable_line());
        },
        _ => {},
    }
}

proof fn lemma_step_keeps_unanswered(
    start: ProberView,
    now: ProberView,
    printed: Seq<LineView>,
    at: u64,
    event: ProbeEventView,
)
    requires
        unanswered(start, now, printed),
        !(event is Datagram),
    ensures
        unanswered(start, now.step(at, event).0, printed + now.step(at, event).1),
{
    let lines = now.step(at, event).1;
    let reports = hop_lines(printed);
    let added = hop_lines(lines);
    lemma_hop_lines_of_sum(printed, lines);
    lemma_silent_step(now, at, event);
    assert(now.unreachable_line() == start.unreachable_line());
    if added.len() == 0 {
        assert(reports + added =~= reports);
    } else {
        assert(reports + added =~= added);
    }
}

proof fn lemma_silence_keeps_unanswered(start: ProberView, inputs: Seq<ProbeInput>, n: int)
    requires
        untouched(start),
        0 <= n <= inputs.len(),
        forall|j: int| 0 <= j < n ==> !((#[trigger] inputs[j]).event is Datagram),
    ensures
        unanswered(start, run(start, inputs.take(n)).0, run(start, inputs.take(n)).1),
    decreases n,
{
    if n == 0 {
        reveal(Seq::filter);
        assert(inputs.take(0) =~= Seq::<ProbeInput>::empty());
    } else {
        lemma_silence_keeps_unanswered(start, inputs, n - 1);
        lemma_run_unfolds(start, inputs, n - 1);
        let (before, printed) = run(start, inputs.take(n - 1));
        assert(!(inputs[n - 1].event is Datagram));
        lemma_step_keeps_unanswered(start, before, printed, inputs[n - 1].at, inputs[n - 1].event);
    }
}

/// A prober that has reported an answer: whatever comes later, seen or
/// unseen, changes neither that nor the report.
spec fn settled(now: ProberView, printed: Seq<LineView>, report: LineView) -> bool {
    &&& now.visible
    &&& !(now.stage is Identifying)
    &&& hop_lines(printed) == seq![report]
}

proof fn lemma_step_keeps_report(
    now: ProberView,
    printed: Seq<LineView>,
    report: LineView,
    at: u64,
    event: ProbeEventView,
)
    requires
        settled(now, printed, report),
    ensures
        settled(now.step(at, event).0, printed + now.step(at, event).1, report),
{
    let lines = now.step(at, event).1;
    lemma_hop_lines_of_sum(printed, lines);
    lemma_hop_lines_of_few(lines);
}

proof fn lemma_report_stays(
    start: ProberView,
    inputs: Seq<ProbeInput>,
    from: int,
    n: int,
    report: LineView,
)
    requires
        0 <= from <= n <= inputs.len(),
        settled(run(start, inputs.take(from)).0, run(start, inputs.take(from)).1, report),
    ensures
        settled(run(start, inputs.take(n)).0, run(start, inputs.take(n)).1, report),
    decreases n - from,
{
    if n > from {
        lemma_report_stays(start, inputs, from, n - 1, report);
        lemma_run_unfolds(start, inputs, n - 1);
        let (before, printed) = run(start, inputs.take(n - 1));
        lemma_step_keeps_report(before, printed, report, inputs[n - 1].at, inputs[n - 1].event);
    }
}

/// The two steps that take a prober from its first datagram to its report.
proof fn lemma_answer_is_reported(
    start: ProberView,
    heard: ProberView,
    printed: Seq<LineView>,
    datagram: ProbeInput,
    reply: ProbeInput,
)
    requires
        unanswered(start, heard, printed),
        datagram.event is Datagram,
        heard.expects(datagram.event),
        heard.step(datagram.at, datagram.event).0.expects(reply.event),
    ensures
        reply.event is Identified,
        ({
            let (asking, silence) = heard.step(datagram.at, datagram.event);
            let (told, lines) = asking.step(reply.at, reply.event);
            settled(
                told,
                printed + silence + lines,
                start.visible_line(datagram.event->source, reply.event->name),
            )
        }),
{
    let (asking, silence) = heard.step(datagram.at, datagram.event);
    let (told, lines) = asking.step(reply.at, reply.event);
    assert(printed + silence =~= printed);
    lemma_hop_lines_of_sum(printed, lines);
    lemma_hop_lines_of_few(lines);
    assert(hop_lines(printed) + lines =~= lines);
}

/// The first answer wins. Let a prober start afresh and be told, step by
/// step, how each of its actions went. If the first datagram that it reads
/// comes from `source`, and the lookup of that address has ended, then the
/// hop's one outcome is "visible", with that address and with the name that
/// the lookup found, or with the address alone where it found none. Nothing
/// that is read later in the window changes the report or adds to it.
pub proof fn law_first_answer_is_reported(prober: ProberView, inputs: Seq<ProbeInput>, first: int)
    requires
        untouched(prober),
        answered(prober, inputs),
        0 <= first,
        first + 1 < inputs.len(),
        inputs[first].event is Datagram,
        forall|j: int| 0 <= j < first ==> !((#[trigger] inputs[j]).event is Datagram),
    ensures
        inputs[first + 1].event is Identified,
        hop_lines(run(prober, inputs).1) == seq![
            prober.visible_line(
                inputs[first].event->source,
                inputs[first + 1].event->name,
            ),
        ],
{
    let (heard, printed) = run(prober, inputs.take(first));
    let report = prober.visible_line(inputs[first].event->source, inputs[first + 1].event->name);
    assert(settled(
        run(prober, inputs.take(first + 2)).0,
        run(prober, inputs.take(first + 2)).1,
        report,
    ) && inputs[first + 1].event is Identified) by {
        lemma_silence_keeps_unanswered(prober, inputs, first);
        lemma_run_unfolds(prober, inputs, first);
        lemma_run_unfolds(prober, inputs, first + 1);
        assert(heard.expects(inputs[first].event));
        assert(run(prober, inputs.take(first + 1)).0.expects(inputs[first + 1].event));
        lemma_answer_is_reported(prober, heard, printed, inputs[first], inputs[first + 1]);
    }
    lemma_report_stays(prober, inputs, first + 2, inputs.len() as int, report);
    assert(inputs.take(inputs.len() as int) =~= inputs);
}

/// A failed lookup costs the name, never the line. A prober that waits for
/// the name of the responder at `source` and is told that there is none
/// prints the outcome of its hop all the same, with the address in the
/// place of the name.
pub proof fn law_nameless_answer_is_reported(prober: ProberView, at: u64, source: Text)
    requires
        prober.stage == (StageView::Identifying { source }),
    ensures
        ({
            let (next, lines) = prober.step(at, ProbeEventView::Identified { name: None });
            &&& next.visible
            &&& lines == seq![
                LineView::Hop {
                    ttl: prober.ttl,
                    result: HopResultView::Visible(IdentityView { name: source, address: source }),
                },
            ]
            &&& lines[0].text() == decimal(prober.ttl as nat) + " "@ + source + " ("@ + source
                + ")"@
        }),
{
}

/// Silence is reported as such. If a prober that starts afresh reads no
/// datagram before its window closes, the hop's one outcome is
/// "unreachable", which is printed as three stars.
pub proof fn law_silence_is_unreachable(prober: ProberView, inputs: Seq<ProbeInput>)
    requires
        untouched(prober),
        forall|j: int| 0 <= j < inputs.len() ==> !((#[trigger] inputs[j]).event is Datagram),
        run(prober, inputs).0.stage is Finished,
    ensures
        hop_lines(run(prober, inputs).1) == seq![prober.unreachable_line()],
        prober.unreachable_line().text() == "* * *"@,
{
    lemma_silence_keeps_unanswered(prober, inputs, inputs.len() as int);
    assert(inputs.take(inputs.len() as int) =~= inputs);
    assert(hop_lines(run(prober, inputs).1) =~= seq![prober.unreachable_line()]);
}

/// Whether `event` brings a prober to the top of its polling loop, where
/// it looks at the clock: the probe has left, or has failed to, or a sleep
/// is over.
pub open spec fn tops_loop(event: ProbeEventView) -> bool {
    event is Sent || event is SendFailed || event is Slept
}

/// The position of the last input before position `i` that brought the
/// prober to the top of its polling loop, if there is one.
pub open spec fn last_top(inputs: Seq<ProbeInput>, i: int) -> Option<int>
    decreases i,
{
    if i <= 0 {
        None
    } else if tops_loop(inputs[i - 1].event) {
        Some(i - 1)
    } else {
        last_top(inputs, i - 1)
    }
}

/// Whether one round of the polling loop never takes longer than
/// `interval` milliseconds: every input is observed no earlier than the
/// polling loop was last entered, and no more than `interval` later. That
/// is so when a sleep lasts as long as it was asked to and nothing else
/// takes any time.
pub open spec fn paced(inputs: Seq<ProbeInput>, interval: u64) -> bool {
    forall|i: int|
        0 <= i < inputs.len() ==> match #[trigger] last_top(inputs, i) {
            Some(top) => inputs[top].at <= inputs[i].at <= inputs[top].at + interval,
            None => true,
        }
}

/// Whether it is input `i` that makes the prober report the outcome of its
/// hop.
pub open spec fn reports_at(prober: ProberView, inputs: Seq<ProbeInput>, i: int) -> bool {
    hop_lines(run(prober, inputs.take(i)).0.step(inputs[i].at, inputs[i].event).1).len() > 0
}

/// A prober whose probe left with input `sent`, as it stands after the
/// first `n` inputs: its window opened at the time of that input, and if
/// it is still polling, the round that it is in began while the window was
/// open.
spec fn on_time(start: ProberView, inputs: Seq<ProbeInput>, sent: int, n: int) -> bool {
    let now = run(start, inputs.take(n)).0;
    &&& now.window_ms == start.window_ms
    &&& now.poll_interval_ms == start.poll_interval_ms
    &&& now.started_at == inputs[sent].at
    &&& now.stage is Receiving || now.stage is Identifying || now.stage is Sleeping
        || now.stage is Finished
    &&& !(now.stage is Finished) ==> (last_top(inputs, n) matches Some(top) && inputs[sent].at
        <= inputs[top].at < inputs[sent].at + start.window_ms)
}

proof fn lemma_run_keeps_time(start: ProberView, inputs: Seq<ProbeInput>, sent: int, n: int)
    requires
        untouched(start),
        answered(start, inputs),
        paced(inputs, start.poll_interval_ms),
        0 <= sent < n <= inputs.len(),
        inputs[sent].event is Sent || inputs[sent].event is SendFailed,
    ensures
        on_time(start, inputs, sent, n),
    decreases n,
{
    lemma_run_unfolds(start, inputs, n - 1);
    let (before, printed) = run(start, inputs.take(n - 1));
    assert(before.expects(inputs[n - 1].event));
    if n == sent + 1 {
        lemma_run_keeps_account(start, inputs, sent);
    } else {
        lemma_run_keeps_time(start, inputs, sent, n - 1);
        assert(last_top(inputs, n - 1) is Some);
    }
}

/// One probe for each hop. A prober whose probe has left, or will never
/// leave, does not set the time-to-live or send again, whatever happens.
pub proof fn law_probe_is_sent_once(
    prober: ProberView,
    inputs: Seq<ProbeInput>,
    from: int,
    n: int,
)
    requires
        0 <= from <= n <= inputs.len(),
        !run(prober, inputs.take(from)).0.awaits_send(),
    ensures
        !run(prober, inputs.take(n)).0.awaits_send(),
        !(run(prober, inputs.take(n)).0.pending() is Configure),
        !(run(prober, inputs.take(n)).0.pending() is Send),
{
    lemma_run_sends_once(prober, inputs, from, n);
}

/// A prober whose probe has left, or will never leave, is not asked to
/// send again.
proof fn lemma_run_sends_once(start: ProberView, inputs: Seq<ProbeInput>, from: int, n: int)
    requires
        0 <= from <= n <= inputs.len(),
        !run(start, inputs.take(from)).0.awaits_send(),
    ensures
        !run(start, inputs.take(n)).0.awaits_send(),
    decreases n - from,
{
    if n > from {
        lemma_run_sends_once(start, inputs, from, n - 1);
        lemma_run_unfolds(start, inputs, n - 1);
    }
}

/// No outcome comes late. Let a prober start afresh and be told, step by
/// step, how each of its actions went, and let no round of its polling
/// loop take longer than its poll interval. Then whatever it reports for
/// its hop, it reports no later than the length of its window plus one
/// poll interval after the probe was sent.
pub proof fn law_outcome_is_timely(
    prober: ProberView,
    inputs: Seq<ProbeInput>,
    sent: int,
    reported: int,
)
    requires
        untouched(prober),
        answered(prober, inputs),
        paced(inputs, prober.poll_interval_ms),
        0 <= sent < inputs.len(),
        inputs[sent].event is Sent || inputs[sent].event is SendFailed,
        0 <= reported < inputs.len(),
        reports_at(prober, inputs, reported),
    ensures
        inputs[reported].at <= inputs[sent].at + prober.window_ms + prober.poll_interval_ms,
{
    let sending = run(prober, inputs.take(sent)).0;
    assert(sending.expects(inputs[sent].event));
    assert(sending.awaits_send());
    if reported < sent {
        let before = run(prober, inputs.take(reported)).0;
        lemma_run_keeps_account(prober, inputs, reported);
        lemma_step_reports(before, inputs[reported].at, inputs[reported].event);
        lemma_run_unfolds(prober, inputs, reported);
        assert(!run(prober, inputs.take(reported + 1)).0.awaits_send());
        lemma_run_sends_once(prober, inputs, reported + 1, sent);
    } else if reported > sent {
        lemma_run_keeps_time(prober, inputs, sent, reported);
        let polling = run(prober, inputs.take(reported)).0;
        assert(polling.expects(inputs[reported].event));
        assert(last_top(inputs, reported) is Some);
    }
}

} // verus!
