//! Per-architecture execution-context machinery consumed by the
//! generic frame walker.

pub mod arch;
