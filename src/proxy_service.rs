use vstd::prelude::*;

use crate::actor::ActorId;
use crate::state::{ProxyState, ProxyStateView};

verus! {

/// Both downstream addresses as currently configured.
#[derive(Clone, Copy, Debug, PartialEq)]
pub struct ContractsId {
    pub ping_contract_id: Option<ActorId>,
    pub traffic_light_contract_id: Option<ActorId>,
}

/// Outcome of an operation of the configuration service.
#[derive(Clone, Copy, Debug, PartialEq)]
pub enum ProxyEvent {
    PingContractIdSet,
    TrafficLightContractIdSet,
    AdminAdded(ActorId),
    PingContractId(Option<ActorId>),
    TrafficLightContractId(Option<ActorId>),
    ContractsId(ContractsId),
    Error(ProxyErrors),
}

#[derive(Clone, Copy, Debug, PartialEq)]
pub enum ProxyErrors {
    OnlyAdminsCanChangeContactId,
    AdminExistsInContract(ActorId),
}

/// Setting the ping address on behalf of `caller`: new configuration and reply.
pub open spec fn change_ping_step(s: ProxyStateView, caller: ActorId, contract_id: ActorId) -> (
    ProxyStateView,
    ProxyEvent,
) {
    if !s.is_admin(caller) {
        (s, ProxyEvent::Error(ProxyErrors::OnlyAdminsCanChangeContactId))
    } else {
        (ProxyStateView { ping_contract_id: Some(contract_id), ..s }, ProxyEvent::PingContractIdSet)
    }
}

/// Setting the traffic-light address on behalf of `caller`. A success is reported
/// with the same event as for the ping address.
pub open spec fn change_traffic_light_step(
    s: ProxyStateView,
    caller: ActorId,
    contract_id: ActorId,
) -> (ProxyStateView, ProxyEvent) {
    if !s.is_admin(caller) {
        (s, ProxyEvent::Error(ProxyErrors::OnlyAdminsCanChangeContactId))
    } else {
        (
            ProxyStateView { traffic_light_contract_id: Some(contract_id), ..s },
            ProxyEvent::PingContractIdSet,
        )
    }
}

/// Adding `new_admin` on behalf of `caller`.
pub open spec fn add_admin_step(s: ProxyStateView, caller: ActorId, new_admin: ActorId) -> (
    ProxyStateView,
    ProxyEvent,
) {
    if !s.is_admin(caller) {
        (s, ProxyEvent::Error(ProxyErrors::OnlyAdminsCanChangeContactId))
    } else if s.is_admin(new_admin) {
        (s, ProxyEvent::Error(ProxyErrors::AdminExistsInContract(new_admin)))
    } else {
        (ProxyStateView { admins: s.admins.push(new_admin), ..s }, ProxyEvent::AdminAdded(new_admin))
    }
}

/// What a read of the configured addresses reports.
pub open spec fn contracts_report(s: ProxyStateView) -> ProxyEvent {
    ProxyEvent::ContractsId(
        ContractsId {
            ping_contract_id: s.ping_contract_id,
            traffic_light_contract_id: s.traffic_light_contract_id,
        },
    )
}

/// Both configured addresses, as `contracts_id` reports them; a read that needs
/// no admin and no exclusive borrow.
pub fn report_contracts(state: &ProxyState) -> (r: ProxyEvent)
    ensures
        r == contracts_report(state@),
{
    ProxyEvent::ContractsId(
        ContractsId {
            ping_contract_id: state.ping_contract_id,
            traffic_light_contract_id: state.traffic_light_contract_id,
        },
    )
}

/// Admin-gated access to the proxy's configuration.
///
/// Each mutating method is given the identity of the account that sent the
/// request. Besides its effect on the configuration, each states that the
/// service still holds the same borrow afterwards, so that what it wrote is
/// what the owner of the configuration sees once the service is gone.
pub struct ProxyService<'a> {
    pub state: &'a mut ProxyState,
}

impl<'a> ProxyService<'a> {
    /// The service over `state`; what it writes lands in `state`.
    pub fn new(state: &'a mut ProxyState) -> (r: ProxyService<'a>)
        ensures
            *r.state == *old(state),
            *final(state) == *final(r.state),
    {
        ProxyService { state }
    }

    /// Points forwarded ping calls at `contract_id`; admins only.
    pub fn change_ping_contract_id(&mut self, caller: ActorId, contract_id: ActorId) -> (r:
        ProxyEvent)
        ensures
            (final(self).state@, r) == change_ping_step(old(self).state@, caller, contract_id),
            old(self).state@.wf() ==> final(self).state@.wf(),
            *final(final(self).state) == *final(old(self).state),
    {
        if !self.state.is_admin(caller) {
            return ProxyEvent::Error(ProxyErrors::OnlyAdminsCanChangeContactId);
        }
        self.state.ping_contract_id = Some(contract_id);
        ProxyEvent::PingContractIdSet
    }

    /// Points forwarded traffic-light calls at `contract_id`; admins only.
    pub fn change_traffic_light_contract_id(&mut self, caller: ActorId, contract_id: ActorId) -> (r:
        ProxyEvent)
        ensures
            (final(self).state@, r) == change_traffic_light_step(
                old(self).state@,
                caller,
                contract_id,
            ),
            old(self).state@.wf() ==> final(self).state@.wf(),
            *final(final(self).state) == *final(old(self).state),
    {
        if !self.state.is_admin(caller) {
            return ProxyEvent::Error(ProxyErrors::OnlyAdminsCanChangeContactId);
        }
        self.state.traffic_light_contract_id = Some(contract_id);
        ProxyEvent::PingContractIdSet
    }

    /// Appends `new_admin` to the admins unless already there; admins only.
    pub fn add_admin(&mut self, caller: ActorId, new_admin: ActorId) -> (r: ProxyEvent)
        requires
            old(self).state.admins@.len() < usize::MAX,
        ensures
            (final(self).state@, r) == add_admin_step(old(self).state@, caller, new_admin),
            old(self).state@.wf() ==> final(self).state@.wf(),
            *final(final(self).state) == *final(old(self).state),
    {
        if !self.state.is_admin(caller) {
            return ProxyEvent::Error(ProxyErrors::OnlyAdminsCanChangeContactId);
        }
        if self.state.is_admin(new_admin) {
            return ProxyEvent::Error(ProxyErrors::AdminExistsInContract(new_admin));
        }
        self.state.admins.push(new_admin);
        ProxyEvent::AdminAdded(new_admin)
    }

    /// Both configured addresses; open to anyone. (The configuration is read
    /// through the borrow as it stands now, which a postcondition writes `old`.)
    pub fn contracts_id(&self) -> (r: ProxyEvent)
        ensures
            r == contracts_report(old(self.state)@),
    {
        report_contracts(self.state)
    }
}

/// A caller outside the admins who tries to set the ping address gets the
/// admin-only error, and the ping address stays as it was.
pub proof fn lemma_non_admin_cannot_change_ping(
    s: ProxyStateView,
    caller: ActorId,
    contract_id: ActorId,
)
    requires
        !s.is_admin(caller),
    ensures
        change_ping_step(s, caller, contract_id).1 == ProxyEvent::Error(
            ProxyErrors::OnlyAdminsCanChangeContactId,
        ),
        change_ping_step(s, caller, contract_id).0.ping_contract_id == s.ping_contract_id,
{
}

/// An admin who adds the same identity twice gets `AdminExistsInContract` for it
/// the second time, and the second call leaves the number of admins as it was.
pub proof fn lemma_add_admin_twice(s: ProxyStateView, caller: ActorId, new_admin: ActorId)
    requires
        s.is_admin(caller),
    ensures
        ({
            let once = add_admin_step(s, caller, new_admin).0;
            let twice = add_admin_step(once, caller, new_admin);
            &&& twice.1 == ProxyEvent::Error(ProxyErrors::AdminExistsInContract(new_admin))
            &&& twice.0.admins.len() == once.admins.len()
        }),
{
    let once = add_admin_step(s, caller, new_admin).0;
    if !s.is_admin(new_admin) {
        let i = choose|i: int| 0 <= i < s.admins.len() && s.admins[i] == caller;
        assert(once.admins[i] == caller);
        assert(once.admins[s.admins.len() as int] == new_admin);
    }
}

} // verus!
