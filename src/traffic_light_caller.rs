use vstd::prelude::*;

use crate::actor::ActorId;
use crate::clients::{IoTrafficLightState, TrafficLightEvent};
use crate::state::ProxyState;

verus! {

/// Outcome of a call forwarded to the traffic-light contract.
#[derive(Clone, Debug, PartialEq)]
pub enum ProxyTrafficLightCallerEvent {
    Test,
    TrafficLightContractResponse(TrafficLightEvent),
    TrafficLightContractState(IoTrafficLightState),
    Error(ProxyTrafficLightCallerError),
}

#[derive(Clone, Debug, PartialEq)]
pub enum ProxyTrafficLightCallerError {
    TrafficLightContractIdNotSet,
    TrafficLightContractError(String),
}

/// Event for a traffic-light command: "not set" without an address, else the
/// reply, or the transport error's text.
pub open spec fn light_command_event(
    target: Option<ActorId>,
    outcome: Result<TrafficLightEvent, String>,
) -> ProxyTrafficLightCallerEvent {
    match target {
        None => ProxyTrafficLightCallerEvent::Error(
            ProxyTrafficLightCallerError::TrafficLightContractIdNotSet,
        ),
        Some(_) => match outcome {
            Ok(reply) => ProxyTrafficLightCallerEvent::TrafficLightContractResponse(reply),
            Err(text) => ProxyTrafficLightCallerEvent::Error(
                ProxyTrafficLightCallerError::TrafficLightContractError(text),
            ),
        },
    }
}

/// Forwards calls to the traffic-light contract whose address the configuration
/// holds. As for the ping contract, the host asks `traffic_light_contract_id`
/// where to send, makes the round trip only when an address comes back, and
/// hands the outcome to the matching `call_*` method.
pub struct ProxyTrafficLightCallerService<'a> {
    pub proxy_state: &'a ProxyState,
}

impl<'a> ProxyTrafficLightCallerService<'a> {
    pub fn new(proxy_state: &'a ProxyState) -> (r: ProxyTrafficLightCallerService<'a>)
        ensures
            r.proxy_state == proxy_state,
    {
        ProxyTrafficLightCallerService { proxy_state }
    }

    /// Where calls go: the configured address, or the "not set" error.
    pub fn traffic_light_contract_id(&self) -> (r: Result<ActorId, ProxyTrafficLightCallerEvent>)
        ensures
            match self.proxy_state.traffic_light_contract_id {
                Some(id) => r == Ok::<ActorId, ProxyTrafficLightCallerEvent>(id),
                None => r == Err::<ActorId, ProxyTrafficLightCallerEvent>(
                    ProxyTrafficLightCallerEvent::Error(
                        ProxyTrafficLightCallerError::TrafficLightContractIdNotSet,
                    ),
                ),
            },
    {
        match self.proxy_state.traffic_light_contract_id {
            Some(id) => Ok(id),
            None => Err(
                ProxyTrafficLightCallerEvent::Error(
                    ProxyTrafficLightCallerError::TrafficLightContractIdNotSet,
                ),
            ),
        }
    }

    /// Turns the outcome of a command into the proxy's event.
    fn settle_command(&self, outcome: Result<TrafficLightEvent, String>) -> (r:
        ProxyTrafficLightCallerEvent)
        ensures
            r == light_command_event(self.proxy_state.traffic_light_contract_id, outcome),
    {
        match self.traffic_light_contract_id() {
            Err(e) => e,
            Ok(_) => match outcome {
                Ok(reply) => ProxyTrafficLightCallerEvent::TrafficLightContractResponse(reply),
                Err(text) => ProxyTrafficLightCallerEvent::Error(
                    ProxyTrafficLightCallerError::TrafficLightContractError(text),
                ),
            },
        }
    }

    /// Settles a `green` command given the downstream outcome.
    pub fn call_green(&self, outcome: Result<TrafficLightEvent, String>) -> (r:
        ProxyTrafficLightCallerEvent)
        ensures
            r == light_command_event(self.proxy_state.traffic_light_contract_id, outcome),
    {
        self.settle_command(outcome)
    }

    /// Settles a `yellow` command given the downstream outcome.
    pub fn call_yellow(&self, outcome: Result<TrafficLightEvent, String>) -> (r:
        ProxyTrafficLightCallerEvent)
        ensures
            r == light_command_event(self.proxy_state.traffic_light_contract_id, outcome),
    {
        self.settle_command(outcome)
    }

    /// Settles a `red` command given the downstream outcome.
    pub fn call_red(&self, outcome: Result<TrafficLightEvent, String>) -> (r:
        ProxyTrafficLightCallerEvent)
        ensures
            r == light_command_event(self.proxy_state.traffic_light_contract_id, outcome),
    {
        self.settle_command(outcome)
    }

    /// Settles the `traffic_light` query given the downstream outcome.
    pub fn call_traffic_light_state(&self, outcome: Result<IoTrafficLightState, String>) -> (r:
        ProxyTrafficLightCallerEvent)
        ensures
            match (self.proxy_state.traffic_light_contract_id, outcome) {
                (None, _) => r == ProxyTrafficLightCallerEvent::Error(
                    ProxyTrafficLightCallerError::TrafficLightContractIdNotSet,
                ),
                (Some(_), Ok(state)) => r == ProxyTrafficLightCallerEvent::TrafficLightContractState(
                    state,
                ),
                (Some(_), Err(text)) => r == ProxyTrafficLightCallerEvent::Error(
                    ProxyTrafficLightCallerError::TrafficLightContractError(text),
                ),
            },
    {
        match self.traffic_light_contract_id() {
            Err(e) => e,
            Ok(_) => match outcome {
                Ok(state) => ProxyTrafficLightCallerEvent::TrafficLightContractState(state),
                Err(text) => ProxyTrafficLightCallerEvent::Error(
                    ProxyTrafficLightCallerError::TrafficLightContractError(text),
                ),
            },
        }
    }
}

} // verus!
