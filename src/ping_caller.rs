use vstd::prelude::*;

use crate::actor::ActorId;
use crate::clients::PingEnum;
use crate::state::ProxyState;

verus! {

/// Outcome of a call forwarded to the ping contract.
#[derive(Debug, PartialEq)]
pub enum ProxyPingCallerEvent {
    Test,
    PingContractStateAllCalls(Vec<(ActorId, PingEnum)>),
    PingContractStateLastWhoCall((ActorId, PingEnum)),
    PingContractResponse(PingEnum),
    Error(ProxyPingCallerError),
}

#[derive(Clone, Debug, PartialEq)]
pub enum ProxyPingCallerError {
    PingContractIdNotSet,
    PingContractError(String),
}

/// Forwards calls to the ping contract whose address the configuration holds.
///
/// The round trip itself is made by the host: it asks `ping_contract_id` where
/// to send, sends only when an address is returned, and hands the reply (or the
/// text of the transport error) to the matching `call_*` method, which turns it
/// into the proxy's event.
pub struct ProxyPingCallerService<'a> {
    pub proxy_state: &'a ProxyState,
}

impl<'a> ProxyPingCallerService<'a> {
    pub fn new(proxy_state: &'a ProxyState) -> (r: ProxyPingCallerService<'a>)
        ensures
            r.proxy_state == proxy_state,
    {
        ProxyPingCallerService { proxy_state }
    }

    /// Where calls go: the configured address, or the "not set" error.
    pub fn ping_contract_id(&self) -> (r: Result<ActorId, ProxyPingCallerEvent>)
        ensures
            match self.proxy_state.ping_contract_id {
                Some(id) => r == Ok::<ActorId, ProxyPingCallerEvent>(id),
                None => r == Err::<ActorId, ProxyPingCallerEvent>(
                    ProxyPingCallerEvent::Error(ProxyPingCallerError::PingContractIdNotSet),
                ),
            },
    {
        match self.proxy_state.ping_contract_id {
            Some(id) => Ok(id),
            None => Err(ProxyPingCallerEvent::Error(ProxyPingCallerError::PingContractIdNotSet)),
        }
    }

    /// Turns the outcome of a command into the proxy's event.
    fn settle_command(&self, outcome: Result<PingEnum, String>) -> (r: ProxyPingCallerEvent)
        ensures
            r == command_event(self.proxy_state.ping_contract_id, outcome),
    {
        match self.ping_contract_id() {
            Err(e) => e,
            Ok(_) => match outcome {
                Ok(reply) => ProxyPingCallerEvent::PingContractResponse(reply),
                Err(text) => ProxyPingCallerEvent::Error(ProxyPingCallerError::PingContractError(text)),
            },
        }
    }

    /// Settles a `ping` command given the downstream outcome.
    pub fn call_ping(&self, outcome: Result<PingEnum, String>) -> (r: ProxyPingCallerEvent)
        ensures
            r == command_event(self.proxy_state.ping_contract_id, outcome),
    {
        self.settle_command(outcome)
    }

    /// Settles a `pong` command given the downstream outcome.
    pub fn call_pong(&self, outcome: Result<PingEnum, String>) -> (r: ProxyPingCallerEvent)
        ensures
            r == command_event(self.proxy_state.ping_contract_id, outcome),
    {
        self.settle_command(outcome)
    }

    /// Settles the `last_who_call` query given the downstream outcome.
    pub fn call_last_who_call(&self, outcome: Result<(ActorId, PingEnum), String>) -> (r:
        ProxyPingCallerEvent)
        ensures
            match (self.proxy_state.ping_contract_id, outcome) {
                (None, _) => r == ProxyPingCallerEvent::Error(
                    ProxyPingCallerError::PingContractIdNotSet,
                ),
                (Some(_), Ok(last)) => r == ProxyPingCallerEvent::PingContractStateLastWhoCall(last),
                (Some(_), Err(text)) => r == ProxyPingCallerEvent::Error(
                    ProxyPingCallerError::PingContractError(text),
                ),
            },
    {
        match self.ping_contract_id() {
            Err(e) => e,
            Ok(_) => match outcome {
                Ok(last) => ProxyPingCallerEvent::PingContractStateLastWhoCall(last),
                Err(text) => ProxyPingCallerEvent::Error(ProxyPingCallerError::PingContractError(text)),
            },
        }
    }

    /// Settles the `all_calls` query given the downstream outcome.
    pub fn call_all_calls(&self, outcome: Result<Vec<(ActorId, PingEnum)>, String>) -> (r:
        ProxyPingCallerEvent)
        ensures
            match (self.proxy_state.ping_contract_id, outcome) {
                (None, _) => r == ProxyPingCallerEvent::Error(
                    ProxyPingCallerError::PingContractIdNotSet,
                ),
                (Some(_), Ok(calls)) => r == ProxyPingCallerEvent::PingContractStateAllCalls(calls),
                (Some(_), Err(text)) => r == ProxyPingCallerEvent::Error(
                    ProxyPingCallerError::PingContractError(text),
                ),
            },
    {
        match self.ping_contract_id() {
            Err(e) => e,
            Ok(_) => match outcome {
                Ok(calls) => ProxyPingCallerEvent::PingContractStateAllCalls(calls),
                Err(text) => ProxyPingCallerEvent::Error(ProxyPingCallerError::PingContractError(text)),
            },
        }
    }
}

/// Event for a ping-contract command: "not set" without an address, else the
/// reply, or the transport error's text.
pub open spec fn command_event(target: Option<ActorId>, outcome: Result<PingEnum, String>) -> ProxyPingCallerEvent {
    match target {
        None => ProxyPingCallerEvent::Error(ProxyPingCallerError::PingContractIdNotSet),
        Some(_) => match outcome {
            Ok(reply) => ProxyPingCallerEvent::PingContractResponse(reply),
            Err(text) => ProxyPingCallerEvent::Error(ProxyPingCallerError::PingContractError(text)),
        },
    }
}

} // verus!
