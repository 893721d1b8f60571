use vstd::prelude::*;

use crate::actor::ActorId;

verus! {

/// Mathematical picture of the proxy's configuration.
pub ghost struct ProxyStateView {
    pub admins: Seq<ActorId>,
    pub traffic_light_contract_id: Option<ActorId>,
    pub ping_contract_id: Option<ActorId>,
}

/// The configuration at deployment: the given addresses and the deployer as sole admin.
pub open spec fn initial_state(
    traffic_light_id: Option<ActorId>,
    ping_id: Option<ActorId>,
    admin: ActorId,
) -> ProxyStateView {
    ProxyStateView {
        admins: seq![admin],
        traffic_light_contract_id: traffic_light_id,
        ping_contract_id: ping_id,
    }
}

impl ProxyStateView {
    /// No admin is listed twice, and there is at least one.
    pub open spec fn wf(self) -> bool {
        &&& self.admins.len() > 0
        &&& self.admins.no_duplicates()
    }

    pub open spec fn is_admin(self, address: ActorId) -> bool {
        self.admins.contains(address)
    }
}

/// Configuration of the proxy: who may change it, and where calls are forwarded.
pub struct ProxyState {
    pub admins: Vec<ActorId>,
    pub traffic_light_contract_id: Option<ActorId>,
    pub ping_contract_id: Option<ActorId>,
}

impl View for ProxyState {
    type V = ProxyStateView;

    open spec fn view(&self) -> ProxyStateView {
        ProxyStateView {
            admins: self.admins@,
            traffic_light_contract_id: self.traffic_light_contract_id,
            ping_contract_id: self.ping_contract_id,
        }
    }
}

impl ProxyState {
    pub fn new(traffic_light_id: Option<ActorId>, ping_id: Option<ActorId>, admin: ActorId) -> (r:
        ProxyState)
        ensures
            r@ == initial_state(traffic_light_id, ping_id, admin),
            r@.wf(),
    {
        let r = ProxyState {
            admins: vec![admin],
            traffic_light_contract_id: traffic_light_id,
            ping_contract_id: ping_id,
        };
        assert(r.admins@ =~= seq![admin]);
        r
    }

    /// Membership of `address` among the admins.
    pub fn is_admin(&self, address: ActorId) -> (r: bool)
        ensures
            r == self@.is_admin(address),
    {
        let mut i: usize = 0;
        while i < self.admins.len()
            invariant
                0 <= i <= self.admins@.len(),
                forall|j: int| 0 <= j < i ==> self.admins@[j] != address,
            decreases self.admins@.len() - i,
        {
            if self.admins[i] == address {
                return true;
            }
            i = i + 1;
        }
        false
    }
}

} // verus!
