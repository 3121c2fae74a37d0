//! What the verifier can be asked to do.

use vstd::prelude::*;

verus! {

/// Verify traces that are read from files.
#[derive(Clone, Debug, PartialEq, Eq)]
pub struct RunFileCommand {
    /// The paths of the trace files.
    pub path: Vec<String>,
}

/// Verify traces that are fetched from a node.
#[derive(Clone, Debug, PartialEq, Eq)]
pub struct RunRpcCommand {
    /// The address of the node's RPC endpoint.
    pub url: String,
    /// The first block to verify; the latest one where none is given.
    pub start_block: Option<u64>,
    /// The last block to verify; none to go on with the chain.
    pub end_block: Option<u64>,
}

/// The two ways to run the verifier.
#[derive(Clone, Debug, PartialEq, Eq)]
pub enum Commands {
    /// Run and verify a trace file.
    RunFile(RunFileCommand),
    /// Fetch and verify traces from a node.
    RunRpc(RunRpcCommand),
}

} // verus!
