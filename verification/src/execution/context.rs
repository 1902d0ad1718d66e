//! How a plan is to be executed.

use vstd::prelude::*;

verus! {

/// The kind of work an execution does.
#[derive(Debug, Clone, Copy, PartialEq, Eq, Structural)]
pub enum ExecutionMode {
    Query,
    Write,
    Delete,
    Schema,
    Metadata,
}

/// How to execute: in which mode, whether only to preview (`dry_run`), whether inside a
/// transaction, and how many rows a query returns at most.
#[derive(Debug, Clone, PartialEq, Eq)]
pub struct ExecutionOptions {
    pub mode: ExecutionMode,
    pub dry_run: bool,
    pub transactional: bool,
    pub max_rows: Option<usize>,
}

impl Default for ExecutionOptions {
    /// A query that runs for real, outside a transaction, with no row limit.
    fn default() -> (r: ExecutionOptions)
        ensures
            r.mode == ExecutionMode::Query,
            !r.dry_run,
            !r.transactional,
            r.max_rows is None,
    {
        ExecutionOptions { mode: ExecutionMode::Query, dry_run: false, transactional: false, max_rows: None }
    }
}

} // verus!
