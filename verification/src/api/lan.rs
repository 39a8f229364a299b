//! The endpoints of the discovery in the local network.

use vstd::prelude::*;

use crate::services::lan_discovery::{LanDiscovery, LanDiscoveryStats};
use crate::services::service_router;
use crate::services::service_router::ServiceEndpoint;

verus! {

/// The status of an answer that says that a service is not there.
pub const SERVICE_UNAVAILABLE: u16 = 503;

/// The body of an answer that says what failed.
#[derive(Debug)]
pub struct LanError {
    pub error: String,
}

/// The error of a request that needs the discovery, where it is not enabled.
pub fn require_discovery(present: bool) -> (r: Result<(), LanError>)
    ensures
        r is Ok <==> present,
        r matches Err(e) ==> e.error@ == "LAN discovery not enabled"@,
{
    if present {
        Ok(())
    } else {
        Err(LanError { error: "LAN discovery not enabled".to_owned() })
    }
}

/// The error of a request that needs the router, where it is not there.
pub fn require_router(present: bool) -> (r: Result<(), LanError>)
    ensures
        r is Ok <==> present,
        r matches Err(e) ==> e.error@ == "Service router not available"@,
{
    if present {
        Ok(())
    } else {
        Err(LanError { error: "Service router not available".to_owned() })
    }
}

/// The numbers of the discovery; all of them nothing where it is not enabled.
pub fn get_stats(discovery: Option<&LanDiscovery>) -> (r: LanDiscoveryStats)
    ensures
        match discovery {
            Some(d) => d.has_stats(r),
            None => {
                &&& !r.enabled
                &&& r.local_ip is None
                &&& r.agent_id@ == Seq::<char>::empty()
                &&& r.broadcast_port == 0
                &&& r.total_peers == 0
                &&& r.healthy_peers == 0
                &&& r.total_services == 0
                &&& r.local_services == 0
            },
        },
{
    match discovery {
        Some(d) => d.get_stats(),
        None => {
            let agent_id = String::new();
            assert(agent_id@ =~= Seq::<char>::empty());
            LanDiscoveryStats {
                enabled: false,
                local_ip: None,
                agent_id,
                broadcast_port: 0,
                total_peers: 0,
                healthy_peers: 0,
                total_services: 0,
                local_services: 0,
            }
        },
    }
}

/// A service, as a list shows it.
#[derive(Debug)]
pub struct ServiceInfo {
    pub service_id: String,
    pub url: String,
    /// The name of the source.
    pub source: String,
    pub latency_ns: Option<u64>,
    pub healthy: bool,
}

/// The list shows this endpoint.
pub open spec fn shows(
    info: ServiceInfo,
    service: (Seq<char>, service_router::EndpointView),
) -> bool {
    &&& info.service_id@ == service.0
    &&& info.url@ == service.1.url
    &&& info.source@ == service.1.source.name()
    &&& info.latency_ns == service.1.latency_ns
    &&& info.healthy == service.1.healthy
}

/// The services, as a list shows them.
pub fn service_infos(endpoints: &Vec<(String, ServiceEndpoint)>) -> (r: Vec<ServiceInfo>)
    ensures
        r@.len() == endpoints@.len(),
        forall|i: int|
            0 <= i < r@.len() ==> shows(
                #[trigger] r@[i],
                service_router::endpoint_list(endpoints@)[i],
            ),
{
    let mut r: Vec<ServiceInfo> = Vec::new();
    let mut i: usize = 0;
    while i < endpoints.len()
        invariant
            i <= endpoints@.len(),
            r@.len() == i,
            forall|j: int|
                0 <= j < i ==> shows(
                    #[trigger] r@[j],
                    service_router::endpoint_list(endpoints@)[j],
                ),
        decreases endpoints@.len() - i,
    {
        let e = &endpoints[i];
        r.push(
            ServiceInfo {
                service_id: e.0.clone(),
                url: e.1.url.clone(),
                source: e.1.source.as_str().to_owned(),
                latency_ns: e.1.latency_ns,
                healthy: e.1.healthy,
            },
        );
        i = i + 1;
    }
    r
}

} // verus!
