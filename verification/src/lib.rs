use vstd::prelude::*;

pub mod agent;
pub mod api;
pub mod canvas;
pub mod calls_write;
pub mod canvas_state;
pub mod code;
pub mod code_writes;
pub mod codegraph;
pub mod config;
pub mod cypher;
pub mod diagnostics;
pub mod editor;
pub mod file_index;
pub mod ids;
pub mod indexer;
pub mod jina;
pub mod ladybug;
pub mod graph;
pub mod markdown;
pub mod model;
pub mod observability;
pub mod panels;
pub mod paths;
pub mod preview;
pub mod registry;
pub mod scip;
pub mod search;
pub mod session;
pub mod shell;
pub mod shim;
pub mod sidebar;
pub mod store;
pub mod vault;
pub mod text;

verus! {

/// The answer every caller of the smoke fixture expects.
pub fn answer() -> (r: i32)
    ensures
        r == 42,
{
    42
}

/// Calls [`answer`].
pub fn caller() -> (r: i32)
    ensures
        r == 42,
{
    answer()
}

} // verus!
