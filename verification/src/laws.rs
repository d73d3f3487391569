//! System-wide guarantees, stated over the models that the pipeline's
//! contracts use and proved once and for all.

use vstd::prelude::*;

use crate::metrics::MetricCounterSet;
use crate::pipeline::{gauge_after, outcome_labels, run_effect, CallPipeline, RunOutcome};
use crate::span::full_trace;

verus! {

/// The metric set after a sequence of runs, each folded in by
/// [`run_effect`] in order.
pub open spec fn metrics_after_runs(m: MetricCounterSet, outs: Seq<RunOutcome>) -> MetricCounterSet
    decreases outs.len(),
{
    if outs.len() == 0 {
        m
    } else {
        metrics_after_runs(run_effect(m, outs[0]), outs.drop_first())
    }
}

/// Folding in one more run at the end is one [`run_effect`] on the fold
/// of the runs before it.
pub proof fn lemma_metrics_after_runs_push(
    m: MetricCounterSet,
    outs: Seq<RunOutcome>,
    o: RunOutcome,
)
    ensures
        metrics_after_runs(m, outs.push(o)) == run_effect(metrics_after_runs(m, outs), o),
    decreases outs.len(),
{
    if outs.len() == 0 {
        assert(outs.push(o)[0] == o);
        assert(outs.push(o).drop_first() =~= Seq::<RunOutcome>::empty());
        assert(metrics_after_runs(run_effect(m, o), Seq::<RunOutcome>::empty()) == run_effect(
            m,
            o,
        ));
    } else {
        assert(outs.push(o)[0] == outs[0]);
        assert(outs.push(o).drop_first() =~= outs.drop_first().push(o));
        lemma_metrics_after_runs_push(run_effect(m, outs[0]), outs.drop_first(), o);
    }
}

/// Law: after any sequence of runs, the trigger counter has grown by
/// exactly the number of runs, however many of them failed.
pub proof fn lemma_trigger_counter_counts_runs(m: MetricCounterSet, outs: Seq<RunOutcome>)
    requires
        m.trigger_total + outs.len() <= u64::MAX,
    ensures
        metrics_after_runs(m, outs).trigger_total == m.trigger_total + outs.len(),
    decreases outs.len(),
{
    if outs.len() > 0 {
        lemma_trigger_counter_counts_runs(run_effect(m, outs[0]), outs.drop_first());
    }
}

/// Law: a stretch of runs in which every run failed leaves the gauge
/// exactly where it stood.
pub proof fn lemma_failed_runs_leave_gauge(m: MetricCounterSet, outs: Seq<RunOutcome>)
    requires
        forall|i: int| 0 <= i < outs.len() ==> outs[i] is Failed,
    ensures
        metrics_after_runs(m, outs).inventory_size == m.inventory_size,
    decreases outs.len(),
{
    if outs.len() > 0 {
        assert(outs[0] is Failed);
        assert(forall|i: int|
            0 <= i < outs.drop_first().len() ==> #[trigger] outs.drop_first()[i] is Failed);
        lemma_failed_runs_leave_gauge(run_effect(m, outs[0]), outs.drop_first());
    }
}

/// Law: after a sequence of runs whose last successful run returned
/// `count` entries, the gauge reads `count`, whatever ran before it and
/// however many runs failed after it.
pub proof fn lemma_gauge_is_last_success(m: MetricCounterSet, outs: Seq<RunOutcome>, i: int)
    requires
        0 <= i < outs.len(),
        outs[i] is Completed,
        forall|j: int| i < j < outs.len() ==> outs[j] is Failed,
    ensures
        metrics_after_runs(m, outs).inventory_size == outs[i]->Completed_0,
    decreases outs.len(),
{
    let m1 = run_effect(m, outs[0]);
    let rest = outs.drop_first();
    if i == 0 {
        assert(m1.inventory_size == outs[0]->Completed_0);
        assert(forall|j: int| 0 <= j < rest.len() ==> #[trigger] rest[j] is Failed);
        lemma_failed_runs_leave_gauge(m1, rest);
    } else {
        assert(forall|j: int| i - 1 < j < rest.len() ==> #[trigger] rest[j] is Failed);
        lemma_gauge_is_last_success(m1, rest, i - 1);
    }
}

/// Law: every finished run's label list is a prefix of the full trace —
/// the events stop exactly where the run's furthest successful stage left
/// off, never out of order and never beyond.
pub proof fn lemma_outcome_labels_prefix(o: RunOutcome)
    ensures
        outcome_labels(o).is_prefix_of(full_trace()),
{
    let labels = outcome_labels(o);
    assert(labels =~= full_trace().subrange(0, labels.len() as int));
}

/// Law: the pipeline never holds more than one open span. It owns the
/// only slot a run can live in, so a second span cannot be opened before
/// the first run's span is finalized and handed out.
pub proof fn lemma_at_most_one_open_span(p: CallPipeline)
    ensures
        p.open_runs() <= 1,
{
}

} // verus!
