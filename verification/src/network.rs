use vstd::prelude::*;
use crate::error::NearError;
use crate::text::str_eq;
use crate::types::NetworkEndpoint;

verus! {

/// Resolves a network name to its endpoint. Only `mainnet` and `testnet`
/// are known; any other name is a configuration error.
pub fn select_network(network: &str, mainnet: NetworkEndpoint, testnet: NetworkEndpoint) -> (r:
    Result<NetworkEndpoint, NearError>)
    ensures
        network@ == "mainnet"@ ==> (r matches Ok(e) && e == mainnet),
        network@ == "testnet"@ ==> (r matches Ok(e) && e == testnet),
        !(network@ == "mainnet"@ || network@ == "testnet"@) ==> (r matches Err(e)
            && e matches NearError::ConfigError(m) && m@ == "Invalid network specified"@),
        r is Ok <==> (network@ == "mainnet"@ || network@ == "testnet"@),
{
    proof {
        reveal_strlit("mainnet");
        reveal_strlit("testnet");
        assert("mainnet"@[0] != "testnet"@[0]);
    }
    if str_eq(network, "mainnet") {
        Ok(mainnet)
    } else if str_eq(network, "testnet") {
        Ok(testnet)
    } else {
        Err(NearError::ConfigError(String::from_str("Invalid network specified")))
    }
}

} // verus!
