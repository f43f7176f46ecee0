//! TPC-H table functions for a SQL engine: positional-argument invocations are
//! validated into a typed configuration, the generated rows are drained into a
//! fully materialized columnar table, and an orchestrator assembles all eight
//! relations into one session catalog.
//!
//! Row generation itself is owned by the `tpchgen` / `tpchgen_arrow` crates;
//! this crate verifies the invocation contract, the materialization, and the
//! orchestration around them.

pub mod args;
pub mod batch;
pub mod catalog;
pub mod orchestrator;
pub mod provider;
pub mod relations;
