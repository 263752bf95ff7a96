//! The plan of the control server: where it listens, which routes it
//! binds, and whom it lets in.

use crate::web::api::{api_routes, create_api_routes, Endpoint};
use vstd::prelude::*;

verus! {

/// Which cross-origin requests the server accepts.
#[derive(Clone, Copy, Debug, PartialEq, Eq, Structural)]
pub struct CorsPolicy {
    /// Requests from every origin are accepted.
    pub any_origin: bool,
    /// Every method is accepted.
    pub any_method: bool,
    /// Every request header is accepted.
    pub any_header: bool,
}

/// What answers a path that no route matches.
#[derive(Clone, Copy, Debug, PartialEq, Eq, Structural)]
pub enum Fallback {
    /// The resolver of embedded assets.
    StaticFiles,
}

/// Everything that is fixed about a control server before it starts.
#[derive(Debug, PartialEq, Eq)]
pub struct ServerPlan {
    /// IPv4 address to listen on.
    pub address: [u8; 4],
    /// Port to listen on.
    pub port: u16,
    /// The routes of the API.
    pub routes: Vec<Endpoint>,
    /// What answers every other path.
    pub fallback: Fallback,
    /// The cross-origin policy.
    pub cors: CorsPolicy,
}

/// The policy of a server meant for the local machine and trusted
/// networks: nothing is refused.
pub open spec fn permissive() -> CorsPolicy {
    CorsPolicy { any_origin: true, any_method: true, any_header: true }
}

/// Plans the control server for a port: it listens on every interface,
/// binds the routes of the API, hands every other path to the embedded
/// assets, and accepts requests from any origin.
pub fn run_web_server(port: u16) -> (plan: ServerPlan)
    ensures
        plan.address@ == seq![0u8, 0u8, 0u8, 0u8],
        plan.port == port,
        plan.routes@ == api_routes(),
        plan.fallback == Fallback::StaticFiles,
        plan.cors == permissive(),
{
    let address: [u8; 4] = [0, 0, 0, 0];
    assert(address@ =~= seq![0u8, 0u8, 0u8, 0u8]);
    ServerPlan {
        address,
        port,
        routes: create_api_routes(),
        fallback: Fallback::StaticFiles,
        cors: CorsPolicy { any_origin: true, any_method: true, any_header: true },
    }
}

} // verus!
