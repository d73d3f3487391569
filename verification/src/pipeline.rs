//! The four-stage call pipeline and its serialization.
//!
//! A run walks `Connecting -> Handshaking -> Calling` and ends `Completed`
//! or `Failed`. The I/O of each stage (the connect, the protocol
//! handshake, the backend call) happens outside this crate; its result
//! comes back as a [`StageEvent`], and the functions here decide everything
//! else: what the next stage is, what the active span records, when the
//! span is finalized, and how the metric set changes. A stage failure ends
//! the run without touching the gauge and never tears the pipeline down.

use vstd::prelude::*;

use crate::metrics::MetricCounterSet;
use crate::span::{full_trace, Span, SpanEvent, StageLabel};

verus! {

/// The stage an in-flight run is in. A pipeline with no in-flight run is
/// idle; a finished run is a [`RunOutcome`], not a stage.
#[derive(Clone, Copy, PartialEq, Eq, Structural, Debug)]
pub enum Stage {
    /// Opening the transport-layer connection to the backend.
    Connecting,
    /// Negotiating the application protocol over that connection.
    Handshaking,
    /// Awaiting the single backend call.
    Calling,
}

/// Which stage a failed run gave up in.
#[derive(Clone, Copy, PartialEq, Eq, Structural, Debug)]
pub enum StageFailure {
    /// The transport-layer connection could not be opened.
    Connect,
    /// The protocol negotiation over the open connection failed.
    Handshake,
    /// The backend call failed or returned an error.
    Call,
}

/// How a finished run ended: with the entry count of the successful call,
/// or with the stage that failed.
#[derive(Clone, Copy, PartialEq, Eq, Structural, Debug)]
pub enum RunOutcome {
    Completed(u64),
    Failed(StageFailure),
}

/// The result of one stage's I/O, handed back by the caller that performed
/// it. A successful call carries the entry count of the response.
#[derive(Clone, Copy, PartialEq, Eq, Structural, Debug)]
pub enum StageEvent {
    ConnectOk,
    ConnectFailed,
    HandshakeOk,
    HandshakeFailed,
    CallOk(u64),
    CallFailed,
}

/// One in-flight run: its stage and the span it owns. No other run can
/// touch the span while the run is in flight.
pub struct RunState {
    pub stage: Stage,
    pub span: Span,
}

/// The labels a run has recorded by the time it stands in `stage`.
pub open spec fn progress_labels(stage: Stage) -> Seq<StageLabel> {
    match stage {
        Stage::Connecting => Seq::empty(),
        Stage::Handshaking => seq![StageLabel::TcpSocket],
        Stage::Calling => seq![
            StageLabel::TcpSocket,
            StageLabel::ProtocolConnection,
            StageLabel::RpcConnection,
        ],
    }
}

impl RunState {
    /// An in-flight run's span is open and has recorded exactly the labels
    /// of the stages it has passed.
    pub open spec fn wf(self) -> bool {
        &&& self.span.is_open()
        &&& self.span.labels() == progress_labels(self.stage)
    }
}

/// Which stage results belong to which stage.
pub open spec fn event_fits(stage: Stage, event: StageEvent) -> bool {
    match stage {
        Stage::Connecting => event is ConnectOk || event is ConnectFailed,
        Stage::Handshaking => event is HandshakeOk || event is HandshakeFailed,
        Stage::Calling => event is CallOk || event is CallFailed,
    }
}

/// The label list of a finished run: a prefix of the full trace ending
/// where the furthest successful stage left off.
pub open spec fn outcome_labels(o: RunOutcome) -> Seq<StageLabel> {
    match o {
        RunOutcome::Failed(StageFailure::Connect) => Seq::empty(),
        RunOutcome::Failed(StageFailure::Handshake) => seq![StageLabel::TcpSocket],
        RunOutcome::Failed(StageFailure::Call) => progress_labels(Stage::Calling),
        RunOutcome::Completed(_) => full_trace(),
    }
}

/// The gauge after a run: a successful call overwrites it with the entry
/// count, a failed run leaves the prior value standing.
pub open spec fn gauge_after(gauge: u64, o: RunOutcome) -> u64 {
    match o {
        RunOutcome::Completed(count) => count,
        RunOutcome::Failed(_) => gauge,
    }
}

/// The whole effect of one run on the metric set: the trigger counter
/// grows by one whatever happened, the gauge follows [`gauge_after`].
pub open spec fn run_effect(m: MetricCounterSet, o: RunOutcome) -> MetricCounterSet {
    MetricCounterSet {
        trigger_total: (m.trigger_total + 1) as u64,
        inventory_size: gauge_after(m.inventory_size, o),
    }
}

/// What one stage result led to: the run went on, or it is over and its
/// finalized span is ready for export.
pub enum StepResult {
    Advanced(RunState),
    Finished(Span, RunOutcome),
}

/// Consumes one trigger event: counts it and opens the run's span. The
/// caller performs the connect next.
pub fn start_run(id: u64, now: u64, metrics: &mut MetricCounterSet) -> (s: RunState)
    requires
        old(metrics).trigger_total < u64::MAX,
    ensures
        final(metrics).trigger_total == old(metrics).trigger_total + 1,
        final(metrics).inventory_size == old(metrics).inventory_size,
        s.wf(),
        s.stage == Stage::Connecting,
        s.span.id == id,
        s.span.start == now,
        s.span.events@ == Seq::<SpanEvent>::empty(),
{
    metrics.record_trigger();
    let s = RunState { stage: Stage::Connecting, span: Span::begin(id, now) };
    proof {
        assert(s.span.labels() =~= progress_labels(Stage::Connecting));
    }
    s
}

/// Advances one in-flight run by the result of its stage's I/O.
///
/// A successful connect or handshake appends the stage's labels at `now`
/// and moves the run on. A successful call appends the final label, writes
/// the entry count to the gauge, and finishes the run. Any failure
/// finishes the run as failed with the events recorded so far and leaves
/// the gauge untouched. Either way a finished run's span is finalized at
/// `now`, and the trigger counter never moves here.
pub fn step(state: RunState, event: StageEvent, now: u64, metrics: &mut MetricCounterSet) -> (r:
    StepResult)
    requires
        state.wf(),
        event_fits(state.stage, event),
    ensures
        final(metrics).trigger_total == old(metrics).trigger_total,
        match event {
            StageEvent::ConnectOk => {
                &&& r matches StepResult::Advanced(s2) && s2.stage == Stage::Handshaking
                    && s2.span.id == state.span.id && s2.span.start == state.span.start
                    && s2.span.events@ == state.span.events@.push(
                    (SpanEvent { label: StageLabel::TcpSocket, at: now }),
                ) && s2.wf()
                &&& *final(metrics) == *old(metrics)
            },
            StageEvent::HandshakeOk => {
                &&& r matches StepResult::Advanced(s2) && s2.stage == Stage::Calling
                    && s2.span.id == state.span.id && s2.span.start == state.span.start
                    && s2.span.events@ == state.span.events@.push(
                    (SpanEvent { label: StageLabel::ProtocolConnection, at: now }),
                ).push((SpanEvent { label: StageLabel::RpcConnection, at: now })) && s2.wf()
                &&& *final(metrics) == *old(metrics)
            },
            StageEvent::CallOk(count) => {
                &&& r matches StepResult::Finished(sp, out) && out == RunOutcome::Completed(count)
                    && sp.id == state.span.id && sp.start == state.span.start && sp.end == Some(now)
                    && sp.events@ == state.span.events@.push(
                    (SpanEvent { label: StageLabel::RpcCall, at: now }),
                ) && sp.labels() == outcome_labels(out)
                &&& final(metrics).inventory_size == count
            },
            StageEvent::ConnectFailed => {
                &&& r matches StepResult::Finished(sp, out) && out == RunOutcome::Failed(
                    StageFailure::Connect,
                ) && sp.id == state.span.id && sp.start == state.span.start && sp.end == Some(now)
                    && sp.events@ == state.span.events@ && sp.labels() == outcome_labels(out)
                &&& *final(metrics) == *old(metrics)
            },
            StageEvent::HandshakeFailed => {
                &&& r matches StepResult::Finished(sp, out) && out == RunOutcome::Failed(
                    StageFailure::Handshake,
                ) && sp.id == state.span.id && sp.start == state.span.start && sp.end == Some(now)
                    && sp.events@ == state.span.events@ && sp.labels() == outcome_labels(out)
                &&& *final(metrics) == *old(metrics)
            },
            StageEvent::CallFailed => {
                &&& r matches StepResult::Finished(sp, out) && out == RunOutcome::Failed(
                    StageFailure::Call,
                ) && sp.id == state.span.id && sp.start == state.span.start && sp.end == Some(now)
                    && sp.events@ == state.span.events@ && sp.labels() == outcome_labels(out)
                &&& *final(metrics) == *old(metrics)
            },
        },
{
    let RunState { stage, mut span } = state;
    match event {
        StageEvent::ConnectOk => {
            span.record(StageLabel::TcpSocket, now);
            let s2 = RunState { stage: Stage::Handshaking, span };
            proof {
                assert(s2.span.labels() =~= progress_labels(Stage::Handshaking));
            }
            StepResult::Advanced(s2)
        },
        StageEvent::HandshakeOk => {
            span.record(StageLabel::ProtocolConnection, now);
            span.record(StageLabel::RpcConnection, now);
            let s2 = RunState { stage: Stage::Calling, span };
            proof {
                assert(s2.span.labels() =~= progress_labels(Stage::Calling));
            }
            StepResult::Advanced(s2)
        },
        StageEvent::CallOk(count) => {
            span.record(StageLabel::RpcCall, now);
            span.finalize(now);
            metrics.set_inventory(count);
            proof {
                assert(span.labels() =~= full_trace());
            }
            StepResult::Finished(span, RunOutcome::Completed(count))
        },
        StageEvent::ConnectFailed => {
            span.finalize(now);
            StepResult::Finished(span, RunOutcome::Failed(StageFailure::Connect))
        },
        StageEvent::HandshakeFailed => {
            span.finalize(now);
            StepResult::Finished(span, RunOutcome::Failed(StageFailure::Handshake))
        },
        StageEvent::CallFailed => {
            span.finalize(now);
            StepResult::Finished(span, RunOutcome::Failed(StageFailure::Call))
        },
    }
}

/// Executes one whole run, the stage results given up front as `io`: the
/// composition of [`start_run`] and [`step`] that a live driver performs
/// around its I/O, stage by stage. The span comes back finalized with the
/// labels the outcome earned, every event stamped `now`, and the metric
/// set moves by exactly one run's effect.
pub fn execute_run(id: u64, now: u64, io: RunOutcome, metrics: &mut MetricCounterSet) -> (r: (
    Span,
    RunOutcome,
))
    requires
        old(metrics).trigger_total < u64::MAX,
    ensures
        r.1 == io,
        *final(metrics) == run_effect(*old(metrics), io),
        r.0.id == id,
        r.0.start == now,
        r.0.end == Some(now),
        r.0.labels() == outcome_labels(io),
{
    let state = start_run(id, now, metrics);
    let first = match io {
        RunOutcome::Failed(StageFailure::Connect) => StageEvent::ConnectFailed,
        _ => StageEvent::ConnectOk,
    };
    let mut r = step(state, first, now, metrics);
    loop
        invariant
            metrics.trigger_total == old(metrics).trigger_total + 1,
            match r {
                StepResult::Advanced(s) => {
                    &&& s.wf()
                    &&& s.span.id == id
                    &&& s.span.start == now
                    &&& !(s.stage is Connecting)
                    &&& s.stage is Handshaking ==> !(io matches RunOutcome::Failed(
                        StageFailure::Connect,
                    ))
                    &&& s.stage is Calling ==> (io matches RunOutcome::Failed(StageFailure::Call)
                        || io is Completed)
                    &&& metrics.inventory_size == old(metrics).inventory_size
                },
                StepResult::Finished(sp, out) => {
                    &&& out == io
                    &&& sp.id == id
                    &&& sp.start == now
                    &&& sp.end == Some(now)
                    &&& sp.labels() == outcome_labels(io)
                    &&& metrics.inventory_size == gauge_after(old(metrics).inventory_size, io)
                },
            },
        decreases (match r {
            StepResult::Advanced(s) => match s.stage {
                Stage::Connecting => 3int,
                Stage::Handshaking => 2int,
                Stage::Calling => 1int,
            },
            StepResult::Finished(_, _) => 0int,
        }),
    {
        match r {
            StepResult::Advanced(s) => {
                let ev = match (s.stage, io) {
                    (Stage::Handshaking, RunOutcome::Failed(StageFailure::Handshake)) => {
                        StageEvent::HandshakeFailed
                    },
                    (Stage::Handshaking, _) => StageEvent::HandshakeOk,
                    (_, RunOutcome::Completed(count)) => StageEvent::CallOk(count),
                    (_, _) => StageEvent::CallFailed,
                };
                r = step(s, ev, now, metrics);
            },
            StepResult::Finished(sp, out) => {
                return (sp, out);
            },
        }
    }
}

/// Consumes a whole sequence of trigger events strictly in order, one run
/// each: the fold the trigger source drives, with each run finished
/// before the next trigger is read. Run `i` gets id `first_id + i`; the
/// metric set moves by the fold of every run's effect, and the spans come
/// back finalized, one per run, with the labels its outcome earned.
pub fn consume_triggers(
    first_id: u64,
    now: u64,
    outcomes: &Vec<RunOutcome>,
    metrics: &mut MetricCounterSet,
) -> (spans: Vec<Span>)
    requires
        old(metrics).trigger_total + outcomes@.len() <= u64::MAX,
        first_id + outcomes@.len() <= u64::MAX,
    ensures
        *final(metrics) == crate::laws::metrics_after_runs(*old(metrics), outcomes@),
        final(metrics).trigger_total == old(metrics).trigger_total + outcomes@.len(),
        spans@.len() == outcomes@.len(),
        forall|j: int|
            0 <= j < spans@.len() ==> (#[trigger] spans@[j]).labels() == outcome_labels(
                outcomes@[j],
            ) && spans@[j].id == first_id + j && spans@[j].start == now && spans@[j].end == Some(
                now,
            ),
{
    let mut spans: Vec<Span> = Vec::new();
    let mut i: usize = 0;
    while i < outcomes.len()
        invariant
            i <= outcomes@.len(),
            old(metrics).trigger_total + outcomes@.len() <= u64::MAX,
            first_id + outcomes@.len() <= u64::MAX,
            *metrics == crate::laws::metrics_after_runs(*old(metrics), outcomes@.take(i as int)),
            metrics.trigger_total == old(metrics).trigger_total + i,
            spans@.len() == i,
            forall|j: int|
                0 <= j < i ==> (#[trigger] spans@[j]).labels() == outcome_labels(outcomes@[j])
                    && spans@[j].id == first_id + j && spans@[j].start == now && spans@[j].end
                    == Some(now),
        decreases outcomes@.len() - i,
    {
        let o = outcomes[i];
        let (sp, _) = execute_run(first_id + (i as u64), now, o, metrics);
        spans.push(sp);
        proof {
            assert(outcomes@.take((i + 1) as int) =~= outcomes@.take(i as int).push(o));
            crate::laws::lemma_metrics_after_runs_push(*old(metrics), outcomes@.take(i as int), o);
            crate::laws::lemma_trigger_counter_counts_runs(
                *old(metrics),
                outcomes@.take((i + 1) as int),
            );
        }
        i = i + 1;
    }
    proof {
        assert(outcomes@.take(i as int) =~= outcomes@);
    }
    spans
}

/// The pipeline: one single active-run slot and the id source for spans.
///
/// Triggers drive it strictly one run at a time: a new run can begin only
/// when the slot is empty ([`Self::on_trigger`]'s precondition), and the
/// slot empties exactly when the in-flight run finishes
/// ([`Self::on_stage_event`]'s postcondition). So no two runs' stages ever
/// interleave, at most one span is open at any instant, and ids are handed
/// out in increasing order, each to exactly one run.
pub struct CallPipeline {
    /// The in-flight run, if any. `None` is the idle pipeline.
    pub active: Option<RunState>,
    /// The identifier the next run will get.
    pub next_id: u64,
}

impl CallPipeline {
    /// An in-flight run is well formed and carries an id below the next
    /// one to be handed out.
    pub open spec fn wf(self) -> bool {
        self.active matches Some(s) ==> s.wf() && s.span.id < self.next_id
    }

    /// How many spans the pipeline holds open.
    pub open spec fn open_runs(self) -> nat {
        if self.active is Some {
            1nat
        } else {
            0nat
        }
    }

    /// A fresh pipeline: idle, ids from zero.
    pub fn new() -> (p: CallPipeline)
        ensures
            p.wf(),
            p.active is None,
            p.next_id == 0,
    {
        CallPipeline { active: None, next_id: 0 }
    }

    /// Consumes one trigger event. Only an idle pipeline takes one: the
    /// caller must not read the next trigger before the in-flight run has
    /// finished. The counter grows by one, the run's span opens at `now`
    /// under a fresh id, and the caller performs the connect next.
    pub fn on_trigger(&mut self, now: u64, metrics: &mut MetricCounterSet)
        requires
            old(self).wf(),
            old(self).active is None,
            old(self).next_id < u64::MAX,
            old(metrics).trigger_total < u64::MAX,
        ensures
            final(self).wf(),
            final(self).next_id == old(self).next_id + 1,
            final(self).active matches Some(s) && s.stage == Stage::Connecting && s.span.id == old(
                self,
            ).next_id && s.span.start == now && s.span.events@ == Seq::<SpanEvent>::empty(),
            final(metrics).trigger_total == old(metrics).trigger_total + 1,
            final(metrics).inventory_size == old(metrics).inventory_size,
    {
        let s = start_run(self.next_id, now, metrics);
        self.active = Some(s);
        self.next_id = self.next_id + 1;
    }

    /// Hands the in-flight run the result of its stage's I/O. `Some` comes
    /// back exactly when the run finished — with its finalized span, ready
    /// for export, and the slot left empty for the next trigger; `None`
    /// means the run advanced and stays in the slot.
    pub fn on_stage_event(
        &mut self,
        event: StageEvent,
        now: u64,
        metrics: &mut MetricCounterSet,
    ) -> (r: Option<(Span, RunOutcome)>)
        requires
            old(self).wf(),
            old(self).active matches Some(s) && event_fits(s.stage, event),
        ensures
            final(self).wf(),
            final(self).next_id == old(self).next_id,
            final(metrics).trigger_total == old(metrics).trigger_total,
            r is Some <==> final(self).active is None,
            match event {
                StageEvent::ConnectOk => {
                    &&& r is None
                    &&& final(self).active matches Some(s2) && s2.stage == Stage::Handshaking
                        && s2.span.id == old(self).active->0.span.id && s2.span.start == old(
                        self,
                    ).active->0.span.start && s2.span.events@ == old(
                        self,
                    ).active->0.span.events@.push(
                        (SpanEvent { label: StageLabel::TcpSocket, at: now }),
                    )
                    &&& *final(metrics) == *old(metrics)
                },
                StageEvent::HandshakeOk => {
                    &&& r is None
                    &&& final(self).active matches Some(s2) && s2.stage == Stage::Calling
                        && s2.span.id == old(self).active->0.span.id && s2.span.start == old(
                        self,
                    ).active->0.span.start && s2.span.events@ == old(
                        self,
                    ).active->0.span.events@.push(
                        (SpanEvent { label: StageLabel::ProtocolConnection, at: now }),
                    ).push((SpanEvent { label: StageLabel::RpcConnection, at: now }))
                    &&& *final(metrics) == *old(metrics)
                },
                StageEvent::CallOk(count) => {
                    &&& r matches Some((sp, out)) && out == RunOutcome::Completed(count)
                        && sp.labels() == outcome_labels(out) && sp.end == Some(now) && sp.id
                        == old(self).active->0.span.id && sp.start == old(
                        self,
                    ).active->0.span.start && sp.events@ == old(self).active->0.span.events@.push(
                        (SpanEvent { label: StageLabel::RpcCall, at: now }),
                    )
                    &&& final(metrics).inventory_size == count
                },
                StageEvent::ConnectFailed => {
                    &&& r matches Some((sp, out)) && out == RunOutcome::Failed(
                        StageFailure::Connect,
                    ) && sp.labels() == outcome_labels(out) && sp.end == Some(now) && sp.id == old(
                        self,
                    ).active->0.span.id && sp.start == old(self).active->0.span.start
                        && sp.events@ == old(self).active->0.span.events@
                    &&& *final(metrics) == *old(metrics)
                },
                StageEvent::HandshakeFailed => {
                    &&& r matches Some((sp, out)) && out == RunOutcome::Failed(
                        StageFailure::Handshake,
                    ) && sp.labels() == outcome_labels(out) && sp.end == Some(now) && sp.id == old(
                        self,
                    ).active->0.span.id && sp.start == old(self).active->0.span.start
                        && sp.events@ == old(self).active->0.span.events@
                    &&& *final(metrics) == *old(metrics)
                },
                StageEvent::CallFailed => {
                    &&& r matches Some((sp, out)) && out == RunOutcome::Failed(StageFailure::Call)
                        && sp.labels() == outcome_labels(out) && sp.end == Some(now) && sp.id
                        == old(self).active->0.span.id && sp.start == old(
                        self,
                    ).active->0.span.start && sp.events@ == old(self).active->0.span.events@
                    &&& *final(metrics) == *old(metrics)
                },
            },
    {
        let state = self.active.take().unwrap();
        match step(state, event, now, metrics) {
            StepResult::Advanced(s2) => {
                self.active = Some(s2);
                None
            },
            StepResult::Finished(sp, out) => Some((sp, out)),
        }
    }
}

} // verus!
