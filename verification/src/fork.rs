//! Decisions made when resolving a forked execution context from the
//! user's configuration: which RPC endpoint to use, which block to fork at,
//! and which chain id governs. The remote queries themselves — building the
//! block environment and asking the provider for its chain id — are network
//! I/O performed by the caller; this module chooses between their results
//! and the configured overrides.

use vstd::prelude::*;

verus! {

/// A point-in-time snapshot of remote chain state to execute against: the
/// endpoint serving it and the block to pin, `None` meaning the latest.
pub struct ForkDescriptor {
    pub rpc_url: String,
    pub block_number: Option<u64>,
}

/// The default local RPC endpoint, used when no endpoint is configured.
pub fn default_local_endpoint() -> (r: String)
    ensures
        r@ == "http://localhost:8545"@,
{
    "http://localhost:8545".to_owned()
}

/// Resolve the RPC endpoint: the configured URL when there is one,
/// otherwise the default local endpoint.
pub fn resolve_rpc_url(configured: Option<String>) -> (r: String)
    ensures
        match configured {
            Some(u) => r@ == u@,
            None => r@ == "http://localhost:8545"@,
        },
{
    match configured {
        Some(u) => u,
        None => default_local_endpoint(),
    }
}

/// Resolve the chain id: an explicit override wins; otherwise whatever the
/// remote provider reported, if anything.
pub fn resolve_chain_id(explicit: Option<u64>, remote: Option<u64>) -> (r: Option<u64>)
    ensures
        r == if explicit is Some {
            explicit
        } else {
            remote
        },
{
    match explicit {
        Some(id) => Some(id),
        None => remote,
    }
}

/// Resolve the material needed to fork: a descriptor naming the endpoint
/// (configured URL or local default) and the configured fork block, and the
/// governing chain id (explicit override or the remote provider's answer).
pub fn resolve_fork_material(
    configured_url: Option<String>,
    fork_block: Option<u64>,
    explicit_chain_id: Option<u64>,
    remote_chain_id: Option<u64>,
) -> (r: (ForkDescriptor, Option<u64>))
    ensures
        match configured_url {
            Some(u) => r.0.rpc_url@ == u@,
            None => r.0.rpc_url@ == "http://localhost:8545"@,
        },
        r.0.block_number == fork_block,
        r.1 == if explicit_chain_id is Some {
            explicit_chain_id
        } else {
            remote_chain_id
        },
{
    let url = resolve_rpc_url(configured_url);
    let chain = resolve_chain_id(explicit_chain_id, remote_chain_id);
    (ForkDescriptor { rpc_url: url, block_number: fork_block }, chain)
}

} // verus!
