//! Defaults for the gRPC server endpoint.

use vstd::prelude::*;

verus! {

/// Default server port.
pub fn default_port() -> (r: u16)
    ensures
        r == 10124,
{
    10124
}

/// Default endpoint, as `ip:port`.
pub fn default_endpoint_str() -> (r: &'static str)
    ensures
        r@ == "0.0.0.0:10124"@,
{
    "0.0.0.0:10124"
}

} // verus!
