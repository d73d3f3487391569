//! Trace spans: one per pipeline run, carrying the ordered list of
//! stage-completion events.

use vstd::prelude::*;

verus! {

/// The label appended to the active span after each successfully completed
/// piece of a run, in the order the stages run.
#[derive(Clone, Copy, PartialEq, Eq, Structural, Debug)]
pub enum StageLabel {
    /// The transport-layer connection to the backend is open.
    TcpSocket,
    /// The application protocol has been negotiated over that connection.
    ProtocolConnection,
    /// The typed client handle over the negotiated protocol is ready.
    RpcConnection,
    /// The backend call has returned.
    RpcCall,
}

/// The full event list of a run in which every stage succeeded. Every
/// finalized span's label list is a prefix of this sequence.
pub open spec fn full_trace() -> Seq<StageLabel> {
    seq![
        StageLabel::TcpSocket,
        StageLabel::ProtocolConnection,
        StageLabel::RpcConnection,
        StageLabel::RpcCall,
    ]
}

impl StageLabel {
    /// The text under which the label is reported to the trace collector.
    pub open spec fn spec_text(self) -> Seq<char> {
        match self {
            StageLabel::TcpSocket => "TCP socket"@,
            StageLabel::ProtocolConnection => "protocol connection"@,
            StageLabel::RpcConnection => "RPC connection"@,
            StageLabel::RpcCall => "RPC call"@,
        }
    }

    /// The reporting text of this label.
    pub fn text(self) -> (r: &'static str)
        ensures
            r@ == self.spec_text(),
    {
        match self {
            StageLabel::TcpSocket => "TCP socket",
            StageLabel::ProtocolConnection => "protocol connection",
            StageLabel::RpcConnection => "RPC connection",
            StageLabel::RpcCall => "RPC call",
        }
    }
}

/// One timestamped stage-completion event of a span.
#[derive(Clone, Copy, PartialEq, Eq, Structural, Debug)]
pub struct SpanEvent {
    pub label: StageLabel,
    /// The instant at which the stage completed, as the caller's clock
    /// reported it.
    pub at: u64,
}

/// The trace record of one pipeline run: a unique identifier, a start time,
/// the ordered stage-completion events, and, once the run has finished, an
/// end time. A span with no end time is open; only the single run that owns
/// it appends to it, and it is immutable once finalized.
#[derive(Debug)]
pub struct Span {
    pub id: u64,
    pub start: u64,
    pub events: Vec<SpanEvent>,
    pub end: Option<u64>,
}

impl Span {
    /// An open span has not been finalized yet.
    pub open spec fn is_open(self) -> bool {
        self.end is None
    }

    /// The labels of the recorded events, in order.
    pub open spec fn labels(self) -> Seq<StageLabel> {
        self.events@.map(|i: int, e: SpanEvent| e.label)
    }

    /// Opens the span of a fresh run: no events yet, no end time.
    pub fn begin(id: u64, now: u64) -> (s: Span)
        ensures
            s.id == id,
            s.start == now,
            s.events@ == Seq::<SpanEvent>::empty(),
            s.is_open(),
    {
        Span { id, start: now, events: Vec::new(), end: None }
    }

    /// Appends one stage-completion event to an open span.
    pub fn record(&mut self, label: StageLabel, now: u64)
        requires
            old(self).is_open(),
        ensures
            final(self).id == old(self).id,
            final(self).start == old(self).start,
            final(self).is_open(),
            final(self).events@ == old(self).events@.push(SpanEvent { label, at: now }),
            final(self).labels() == old(self).labels().push(label),
    {
        self.events.push(SpanEvent { label, at: now });
        proof {
            assert(self.labels() =~= old(self).labels().push(label));
        }
    }

    /// Finalizes an open span: sets the end time and leaves everything else
    /// as it stands. A finalized span is never written again.
    pub fn finalize(&mut self, now: u64)
        requires
            old(self).is_open(),
        ensures
            final(self).id == old(self).id,
            final(self).start == old(self).start,
            final(self).events@ == old(self).events@,
            final(self).end == Some(now),
            !final(self).is_open(),
    {
        self.end = Some(now);
    }
}

} // verus!
