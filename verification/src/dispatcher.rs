//! The dispatcher: a fair, pull-based hand-off from the source to the worker
//! pool. It never guesses which worker is free — it acts only on an explicit
//! readiness token, and it hands out each record of the batch exactly once,
//! in source order.

use vstd::prelude::*;

use crate::types::AnimeMetadata;
use crate::types::clone_metadata;

verus! {

/// A worker's request for its next assignment. It carries nothing beyond the
/// worker's identity and is consumed by the dispatch it authorizes.
pub struct ReadinessToken {
    pub worker_index: usize,
}

/// The dispatcher's state over one batch: the records in source order, and
/// how many of them have already been handed out.
pub struct Dispatcher {
    pub records: Vec<AnimeMetadata>,
    pub served: usize,
}

impl Dispatcher {
    pub open spec fn wf(self) -> bool {
        self.served <= self.records.len()
    }

    /// True once every record of the batch has been handed out.
    pub open spec fn exhausted(self) -> bool {
        self.served == self.records.len()
    }

    pub fn new(records: Vec<AnimeMetadata>) -> (d: Dispatcher)
        ensures
            d.records == records,
            d.served == 0,
            d.wf(),
    {
        Dispatcher { records, served: 0 }
    }

    /// Serves one readiness token: the next unserved record goes to the
    /// worker that sent the token, or nothing is handed out when the batch is
    /// exhausted. No record is ever handed out twice, and none is skipped:
    /// the `served` counter advances by exactly one per record handed out.
    pub fn dispatch(&mut self, token: ReadinessToken) -> (r: Option<(usize, AnimeMetadata)>)
        requires
            old(self).wf(),
        ensures
            final(self).wf(),
            final(self).records == old(self).records,
            old(self).exhausted() ==> r is None && final(self).served == old(self).served,
            !old(self).exhausted() ==> {
                &&& final(self).served == old(self).served + 1
                &&& r matches Some((w, m)) && w == token.worker_index && m@ == old(
                    self,
                ).records@[old(self).served as int]@
            },
    {
        if self.served < self.records.len() {
            let m = clone_metadata(&self.records[self.served]);
            self.served = self.served + 1;
            Some((token.worker_index, m))
        } else {
            None
        }
    }
}

} // verus!
