//! The result sink: the sole consumer of the shared outbound channel. Every
//! worker forwards one terminate marker there, and the sink counts those
//! markers against the pool size — it reports the drain complete only once
//! every worker's marker has arrived, never on the first one.

use vstd::prelude::*;

use crate::types::AnimeSummary;

verus! {

/// What workers put on the shared outbound channel.
#[derive(Debug, PartialEq)]
pub enum OutboundMessage {
    Result(AnimeSummary),
    Terminate,
}

/// The sink's state: the results drained so far, in arrival order, and how
/// many workers have signalled termination.
pub struct ResultSink {
    pub pool_size: usize,
    pub collected: Vec<AnimeSummary>,
    pub terminated: usize,
}

impl ResultSink {
    pub open spec fn wf(self) -> bool {
        self.terminated <= self.pool_size
    }

    /// The drain is complete only when every worker of the pool has
    /// forwarded its terminate marker.
    pub open spec fn done(self) -> bool {
        self.terminated == self.pool_size
    }

    pub fn new(pool_size: usize) -> (s: ResultSink)
        ensures
            s.pool_size == pool_size,
            s.collected@ == Seq::<AnimeSummary>::empty(),
            s.terminated == 0,
            s.wf(),
            s.done() <==> pool_size == 0,
    {
        ResultSink { pool_size, collected: Vec::new(), terminated: 0 }
    }

    /// Drains one outbound message: a result is collected, a terminate marker
    /// is counted against the pool. Each worker sends its marker once, so the
    /// count never passes the pool size.
    pub fn accept(&mut self, msg: OutboundMessage)
        requires
            old(self).wf(),
            msg is Terminate ==> !old(self).done(),
        ensures
            final(self).wf(),
            final(self).pool_size == old(self).pool_size,
            msg matches OutboundMessage::Result(s) ==> final(self).collected@
                == old(self).collected@.push(s) && final(self).terminated == old(self).terminated,
            msg is Terminate ==> final(self).terminated == old(self).terminated + 1
                && final(self).collected == old(self).collected,
    {
        match msg {
            OutboundMessage::Result(s) => self.collected.push(s),
            OutboundMessage::Terminate => self.terminated = self.terminated + 1,
        }
    }

    /// Whether the sink may stop draining: true exactly when all of the
    /// pool's terminate markers have been counted.
    pub fn is_done(&self) -> (r: bool)
        ensures
            r == self.done(),
    {
        self.terminated == self.pool_size
    }
}

} // verus!
