use vstd::prelude::*;

use crate::actor::ActorId;
use crate::ping_caller::ProxyPingCallerService;
use crate::proxy_service::{
    change_traffic_light_step, contracts_report, ContractsId, ProxyEvent, ProxyService,
};
use crate::state::{initial_state, ProxyState};
use crate::traffic_light_caller::ProxyTrafficLightCallerService;

verus! {

/// The deployed proxy: one configuration, shared by its three services.
///
/// Only one service is handed out at a time; the borrow of the configuration
/// that each holds makes that so.
pub struct ProxyProgram {
    pub proxy_state: ProxyState,
}

impl ProxyProgram {
    /// Deploys with the given downstream addresses; `deployer` becomes the sole admin.
    pub fn new_proxy(
        ping_contract_id: Option<ActorId>,
        traffic_light_contract_id: Option<ActorId>,
        deployer: ActorId,
    ) -> (r: ProxyProgram)
        ensures
            r.proxy_state@ == initial_state(traffic_light_contract_id, ping_contract_id, deployer),
            r.proxy_state@.wf(),
    {
        ProxyProgram {
            proxy_state: ProxyState::new(traffic_light_contract_id, ping_contract_id, deployer),
        }
    }

    /// Deploys with both downstream addresses set.
    pub fn new_with_contracts_id(
        ping_contract_id: ActorId,
        traffic_light_contract_id: ActorId,
        deployer: ActorId,
    ) -> (r: ProxyProgram)
        ensures
            r.proxy_state@ == initial_state(
                Some(traffic_light_contract_id),
                Some(ping_contract_id),
                deployer,
            ),
            r.proxy_state@.wf(),
    {
        Self::new_proxy(Some(ping_contract_id), Some(traffic_light_contract_id), deployer)
    }

    /// Deploys with neither downstream address set.
    pub fn new(deployer: ActorId) -> (r: ProxyProgram)
        ensures
            r.proxy_state@ == initial_state(None, None, deployer),
            r.proxy_state@.wf(),
    {
        Self::new_proxy(None, None, deployer)
    }

    /// The configuration service, borrowing the configuration mutably.
    pub fn proxy_svc(&mut self) -> (r: ProxyService<'_>)
        ensures
            *r.state == old(self).proxy_state,
            final(self).proxy_state == *final(r.state),
    {
        ProxyService::new(&mut self.proxy_state)
    }

    pub fn ping_caller_svc(&self) -> (r: ProxyPingCallerService<'_>)
        ensures
            *r.proxy_state == self.proxy_state,
    {
        ProxyPingCallerService::new(&self.proxy_state)
    }

    pub fn traffic_light_caller_svc(&self) -> (r: ProxyTrafficLightCallerService<'_>)
        ensures
            *r.proxy_state == self.proxy_state,
    {
        ProxyTrafficLightCallerService::new(&self.proxy_state)
    }
}

/// A proxy deployed with ping address `a` reports `a` as its ping address.
pub proof fn lemma_deployed_ping_is_reported(
    a: ActorId,
    traffic_light_contract_id: Option<ActorId>,
    deployer: ActorId,
)
    ensures
        contracts_report(initial_state(traffic_light_contract_id, Some(a), deployer))
            == ProxyEvent::ContractsId(
            ContractsId { ping_contract_id: Some(a), traffic_light_contract_id },
        ),
{
}

/// Deployed with no addresses, the deployer is the sole admin; when the deployer
/// then sets the traffic-light address to `x`, the success event comes back and
/// the addresses read afterwards show `x` for the traffic light and none for ping.
pub proof fn lemma_deploy_then_set_traffic_light(deployer: ActorId, x: ActorId)
    ensures
        initial_state(None, None, deployer).admins == seq![deployer],
        ({
            let (s, e) = change_traffic_light_step(initial_state(None, None, deployer), deployer, x);
            &&& e == ProxyEvent::PingContractIdSet
            &&& contracts_report(s) == ProxyEvent::ContractsId(
                ContractsId { ping_contract_id: None, traffic_light_contract_id: Some(x) },
            )
        }),
{
    assert(initial_state(None, None, deployer).admins[0] == deployer);
}

} // verus!
