//! A verified core for a metadata-enrichment pipeline: a source that yields
//! eligible records partition by partition, a dispatcher that hands each
//! record to exactly one ready worker, workers that call an external
//! enrichment service under a bounded retry budget, and a sink that collects
//! the results and stops only once every worker has signalled termination.

pub mod dispatcher;
pub mod pipeline;
pub mod response;
pub mod sink;
pub mod source;
pub mod text;
pub mod types;
pub mod worker;
