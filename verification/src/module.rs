//! The relayer module for a pair of Cosmos SDK chains, and its
//! configuration.

use vstd::prelude::*;
use vstd::string::StringExecFns;

verus! {

/// The one-sided relayer module from a Cosmos SDK chain to a Cosmos SDK
/// chain.
#[derive(Clone, Copy, Debug)]
pub struct CosmosToCosmosRelayerModule;

/// The configuration of the module. It is read once, when the service is
/// made.
#[derive(Clone, Debug)]
pub struct CosmosToCosmosConfig {
    /// The source chain's RPC URL.
    pub src_rpc_url: String,
    /// The target chain's RPC URL.
    pub target_rpc_url: String,
    /// The address of the submitter, which the destination's messages name
    /// as their signer.
    pub signer_address: String,
}

impl CosmosToCosmosConfig {
    pub fn new(src_rpc_url: String, target_rpc_url: String, signer_address: String) -> (r: Self)
        ensures
            r.src_rpc_url == src_rpc_url,
            r.target_rpc_url == target_rpc_url,
            r.signer_address == signer_address,
    {
        CosmosToCosmosConfig { src_rpc_url, target_rpc_url, signer_address }
    }
}

impl CosmosToCosmosRelayerModule {
    /// The name under which the module is registered.
    pub fn name(&self) -> (r: &'static str)
        ensures
            r@ == "cosmos_to_cosmos"@,
    {
        "cosmos_to_cosmos"
    }
}

/// Looks a module up by its name: the registry holds this one module.
pub fn module_named(name: &str) -> (r: Option<CosmosToCosmosRelayerModule>)
    ensures
        r is Some <==> name@ == "cosmos_to_cosmos"@,
{
    let wanted = String::from_str(name);
    let known = String::from_str("cosmos_to_cosmos");
    if wanted == known {
        Some(CosmosToCosmosRelayerModule)
    } else {
        None
    }
}

} // verus!
