//! Protocol version constants

use vstd::prelude::*;

verus! {

/// The latest supported MCP protocol version
pub const LATEST_PROTOCOL_VERSION: &'static str = "2024-11-05";

/// The version of this crate, which the projects the generator writes
/// depend on
pub const CRATE_VERSION: &'static str = "0.2.3";

/// The JSON-RPC version used by MCP
pub const JSONRPC_VERSION: &'static str = "2.0";

} // verus!
