//! End-to-end behavior of the call pipeline: run scenarios, metric
//! effects, span contents and serialization.

use rkt_sidecar::metrics::MetricCounterSet;
use rkt_sidecar::pipeline::{
    consume_triggers, execute_run, start_run, step, CallPipeline, RunOutcome, Stage, StageEvent,
    StageFailure, StepResult,
};
use rkt_sidecar::span::{Span, StageLabel};

fn labels(span: &Span) -> Vec<StageLabel> {
    span.events.iter().map(|e| e.label).collect()
}

const FULL: [StageLabel; 4] = [
    StageLabel::TcpSocket,
    StageLabel::ProtocolConnection,
    StageLabel::RpcConnection,
    StageLabel::RpcCall,
];

#[test]
fn scenario_three_successful_runs() {
    let mut m = MetricCounterSet::new();
    let (s1, _) = execute_run(0, 1, RunOutcome::Completed(5), &mut m);
    let (s2, _) = execute_run(1, 2, RunOutcome::Completed(0), &mut m);
    let (s3, _) = execute_run(2, 3, RunOutcome::Completed(7), &mut m);
    assert_eq!(m.trigger_total, 3);
    assert_eq!(m.inventory_size, 7);
    assert_eq!(labels(&s1), FULL.to_vec());
    assert_eq!(labels(&s2), FULL.to_vec());
    assert_eq!(labels(&s3), FULL.to_vec());
}

#[test]
fn scenario_handshake_failure_then_success() {
    let mut m = MetricCounterSet::new();
    let (s1, o1) = execute_run(0, 1, RunOutcome::Failed(StageFailure::Handshake), &mut m);
    let (s2, o2) = execute_run(1, 2, RunOutcome::Completed(4), &mut m);
    assert_eq!(m.trigger_total, 2);
    assert_eq!(m.inventory_size, 4);
    assert_eq!(o1, RunOutcome::Failed(StageFailure::Handshake));
    assert_eq!(o2, RunOutcome::Completed(4));
    assert_eq!(labels(&s1), vec![StageLabel::TcpSocket]);
    assert_eq!(labels(&s2), FULL.to_vec());
}

#[test]
fn scenario_termination_mid_calling() {
    let mut m = MetricCounterSet::new();
    let mut p = CallPipeline::new();
    p.on_trigger(1, &mut m);
    let r1 = p.on_stage_event(StageEvent::ConnectOk, 2, &mut m);
    assert!(r1.is_none());
    let r2 = p.on_stage_event(StageEvent::HandshakeOk, 3, &mut m);
    assert!(r2.is_none());
    // The termination signal arrives while the run awaits the call: the
    // process ends here. The trigger was counted, the gauge is untouched,
    // and no finalized span was handed out for export.
    assert!(p.active.is_some());
    assert_eq!(m.trigger_total, 1);
    assert_eq!(m.inventory_size, 0);
    drop(p);
}

#[test]
fn trigger_counter_counts_failed_runs() {
    let mut m = MetricCounterSet::new();
    execute_run(0, 1, RunOutcome::Failed(StageFailure::Connect), &mut m);
    execute_run(1, 2, RunOutcome::Failed(StageFailure::Handshake), &mut m);
    execute_run(2, 3, RunOutcome::Failed(StageFailure::Call), &mut m);
    execute_run(3, 4, RunOutcome::Failed(StageFailure::Connect), &mut m);
    assert_eq!(m.trigger_total, 4);
    assert_eq!(m.inventory_size, 0);
}

#[test]
fn failed_runs_leave_gauge_standing() {
    let mut m = MetricCounterSet::new();
    execute_run(0, 1, RunOutcome::Completed(9), &mut m);
    assert_eq!(m.inventory_size, 9);
    execute_run(1, 2, RunOutcome::Failed(StageFailure::Call), &mut m);
    assert_eq!(m.inventory_size, 9);
    execute_run(2, 3, RunOutcome::Failed(StageFailure::Connect), &mut m);
    assert_eq!(m.inventory_size, 9);
    assert_eq!(m.trigger_total, 3);
}

#[test]
fn span_events_are_a_prefix_ending_at_the_failed_stage() {
    let cases = [
        (RunOutcome::Failed(StageFailure::Connect), 0),
        (RunOutcome::Failed(StageFailure::Handshake), 1),
        (RunOutcome::Failed(StageFailure::Call), 3),
        (RunOutcome::Completed(2), 4),
    ];
    for (outcome, prefix_len) in cases {
        let mut m = MetricCounterSet::new();
        let (span, _) = execute_run(5, 10, outcome, &mut m);
        assert_eq!(labels(&span), FULL[..prefix_len].to_vec());
        assert_eq!(span.end, Some(10));
        assert_eq!(span.id, 5);
        assert_eq!(span.start, 10);
    }
}

#[test]
fn runs_are_serialized_one_id_each() {
    let mut m = MetricCounterSet::new();
    let mut p = CallPipeline::new();

    p.on_trigger(1, &mut m);
    // While the first run is in flight the slot is occupied: the driver
    // must not read another trigger, and no second span exists.
    assert!(p.active.is_some());
    let finished = p.on_stage_event(StageEvent::ConnectFailed, 2, &mut m);
    let (s1, o1) = finished.expect("run must finish on a connect failure");
    assert!(p.active.is_none());
    assert_eq!(o1, RunOutcome::Failed(StageFailure::Connect));
    assert_eq!(s1.id, 0);
    assert!(labels(&s1).is_empty());

    p.on_trigger(3, &mut m);
    p.on_stage_event(StageEvent::ConnectOk, 4, &mut m);
    p.on_stage_event(StageEvent::HandshakeOk, 5, &mut m);
    let finished = p.on_stage_event(StageEvent::CallOk(6), 6, &mut m);
    let (s2, o2) = finished.expect("run must finish on a completed call");
    assert_eq!(s2.id, 1);
    assert_eq!(o2, RunOutcome::Completed(6));
    assert_eq!(labels(&s2), FULL.to_vec());
    assert_eq!(m.trigger_total, 2);
    assert_eq!(m.inventory_size, 6);
}

#[test]
fn consume_triggers_folds_all_runs() {
    let mut m = MetricCounterSet::new();
    let outcomes = vec![
        RunOutcome::Completed(5),
        RunOutcome::Failed(StageFailure::Call),
        RunOutcome::Completed(7),
        RunOutcome::Failed(StageFailure::Connect),
    ];
    let spans = consume_triggers(10, 99, &outcomes, &mut m);
    assert_eq!(m.trigger_total, 4);
    assert_eq!(m.inventory_size, 7);
    assert_eq!(spans.len(), 4);
    for (j, span) in spans.iter().enumerate() {
        assert_eq!(span.id, 10 + j as u64);
        assert_eq!(span.start, 99);
        assert_eq!(span.end, Some(99));
    }
    assert_eq!(labels(&spans[0]), FULL.to_vec());
    assert_eq!(labels(&spans[1]), FULL[..3].to_vec());
    assert_eq!(labels(&spans[2]), FULL.to_vec());
    assert!(labels(&spans[3]).is_empty());
}

#[test]
fn no_triggers_no_effect() {
    let mut m = MetricCounterSet::new();
    let spans = consume_triggers(0, 1, &Vec::new(), &mut m);
    assert!(spans.is_empty());
    assert_eq!(m.trigger_total, 0);
    assert_eq!(m.inventory_size, 0);
}

#[test]
fn step_walks_the_stages_in_order() {
    let mut m = MetricCounterSet::new();
    let s = start_run(7, 100, &mut m);
    assert_eq!(s.stage, Stage::Connecting);
    assert_eq!(s.span.id, 7);
    assert_eq!(s.span.start, 100);
    assert!(s.span.events.is_empty());
    assert_eq!(m.trigger_total, 1);

    let r = step(s, StageEvent::ConnectOk, 101, &mut m);
    let s = match r {
        StepResult::Advanced(s) => s,
        StepResult::Finished(..) => panic!("a successful connect must advance the run"),
    };
    assert_eq!(s.stage, Stage::Handshaking);
    assert_eq!(labels(&s.span), vec![StageLabel::TcpSocket]);
    assert_eq!(s.span.events[0].at, 101);

    let r = step(s, StageEvent::HandshakeOk, 102, &mut m);
    let s = match r {
        StepResult::Advanced(s) => s,
        StepResult::Finished(..) => panic!("a successful handshake must advance the run"),
    };
    assert_eq!(s.stage, Stage::Calling);
    assert_eq!(
        labels(&s.span),
        vec![
            StageLabel::TcpSocket,
            StageLabel::ProtocolConnection,
            StageLabel::RpcConnection
        ]
    );

    let r = step(s, StageEvent::CallFailed, 103, &mut m);
    let (span, outcome) = match r {
        StepResult::Finished(span, outcome) => (span, outcome),
        StepResult::Advanced(_) => panic!("a failed call must finish the run"),
    };
    assert_eq!(outcome, RunOutcome::Failed(StageFailure::Call));
    assert_eq!(span.end, Some(103));
    assert_eq!(m.inventory_size, 0);
    assert_eq!(m.trigger_total, 1);
}

#[test]
fn span_record_and_finalize() {
    let mut span = Span::begin(7, 100);
    assert_eq!(span.id, 7);
    assert_eq!(span.start, 100);
    assert_eq!(span.end, None);
    span.record(StageLabel::TcpSocket, 101);
    span.finalize(102);
    assert_eq!(span.events.len(), 1);
    assert_eq!(span.events[0].label, StageLabel::TcpSocket);
    assert_eq!(span.events[0].at, 101);
    assert_eq!(span.end, Some(102));
}

#[test]
fn stage_label_reporting_text() {
    assert_eq!(StageLabel::TcpSocket.text(), "TCP socket");
    assert_eq!(StageLabel::ProtocolConnection.text(), "protocol connection");
    assert_eq!(StageLabel::RpcConnection.text(), "RPC connection");
    assert_eq!(StageLabel::RpcCall.text(), "RPC call");
}
