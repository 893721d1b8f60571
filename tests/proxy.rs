use proxy_contract::actor::ActorId;
use proxy_contract::clients::{IoTrafficLightState, PingEnum, TrafficLightEvent};
use proxy_contract::ping_caller::{ProxyPingCallerError, ProxyPingCallerEvent};
use proxy_contract::program::ProxyProgram;
use proxy_contract::proxy_service::{ContractsId, ProxyErrors, ProxyEvent, ProxyService};
use proxy_contract::state::ProxyState;
use proxy_contract::traffic_light_caller::{
    ProxyTrafficLightCallerError, ProxyTrafficLightCallerEvent,
};

fn actor(n: u8) -> ActorId {
    let mut bytes = [0u8; 32];
    bytes[0] = n;
    bytes[31] = n.wrapping_mul(7);
    ActorId::from_bytes(bytes)
}

#[test]
fn actor_ids_compare_by_every_byte() {
    let a = actor(1);
    let mut bytes = a.to_bytes();
    assert!(a == ActorId::from_bytes(bytes));
    bytes[31] ^= 1;
    assert!(a != ActorId::from_bytes(bytes));
}

#[test]
fn state_starts_with_deployer_as_sole_admin() {
    let state = ProxyState::new(Some(actor(2)), None, actor(1));
    assert_eq!(state.admins, vec![actor(1)]);
    assert_eq!(state.traffic_light_contract_id, Some(actor(2)));
    assert_eq!(state.ping_contract_id, None);
    assert!(state.is_admin(actor(1)));
    assert!(!state.is_admin(actor(2)));
}

#[test]
fn deployed_ping_address_is_reported() {
    let mut program = ProxyProgram::new_proxy(Some(actor(5)), None, actor(1));
    let svc = program.proxy_svc();
    assert_eq!(
        svc.contracts_id(),
        ProxyEvent::ContractsId(ContractsId {
            ping_contract_id: Some(actor(5)),
            traffic_light_contract_id: None,
        })
    );
}

#[test]
fn deploy_with_both_addresses() {
    let mut program = ProxyProgram::new_with_contracts_id(actor(5), actor(6), actor(1));
    assert_eq!(program.proxy_state.admins, vec![actor(1)]);
    let svc = program.proxy_svc();
    assert_eq!(
        svc.contracts_id(),
        ProxyEvent::ContractsId(ContractsId {
            ping_contract_id: Some(actor(5)),
            traffic_light_contract_id: Some(actor(6)),
        })
    );
}

#[test]
fn non_admin_cannot_change_ping_address() {
    let mut state = ProxyState::new(None, Some(actor(5)), actor(1));
    let mut svc = ProxyService::new(&mut state);
    assert_eq!(
        svc.change_ping_contract_id(actor(9), actor(7)),
        ProxyEvent::Error(ProxyErrors::OnlyAdminsCanChangeContactId)
    );
    assert_eq!(state.ping_contract_id, Some(actor(5)));
}

#[test]
fn non_admin_cannot_change_traffic_light_address_or_add_admins() {
    let mut state = ProxyState::new(None, None, actor(1));
    let mut svc = ProxyService::new(&mut state);
    assert_eq!(
        svc.change_traffic_light_contract_id(actor(9), actor(7)),
        ProxyEvent::Error(ProxyErrors::OnlyAdminsCanChangeContactId)
    );
    assert_eq!(
        svc.add_admin(actor(9), actor(9)),
        ProxyEvent::Error(ProxyErrors::OnlyAdminsCanChangeContactId)
    );
    assert_eq!(state.traffic_light_contract_id, None);
    assert_eq!(state.admins, vec![actor(1)]);
}

#[test]
fn admin_changes_ping_address() {
    let mut state = ProxyState::new(None, Some(actor(5)), actor(1));
    let mut svc = ProxyService::new(&mut state);
    assert_eq!(svc.change_ping_contract_id(actor(1), actor(7)), ProxyEvent::PingContractIdSet);
    assert_eq!(state.ping_contract_id, Some(actor(7)));
}

#[test]
fn adding_an_admin_twice_is_refused_the_second_time() {
    let mut state = ProxyState::new(None, None, actor(1));
    let mut svc = ProxyService::new(&mut state);
    assert_eq!(svc.add_admin(actor(1), actor(3)), ProxyEvent::AdminAdded(actor(3)));
    assert_eq!(svc.state.admins.len(), 2);
    assert_eq!(
        svc.add_admin(actor(1), actor(3)),
        ProxyEvent::Error(ProxyErrors::AdminExistsInContract(actor(3)))
    );
    assert_eq!(state.admins, vec![actor(1), actor(3)]);
}

#[test]
fn new_admin_may_act() {
    let mut state = ProxyState::new(None, None, actor(1));
    let mut svc = ProxyService::new(&mut state);
    assert_eq!(svc.add_admin(actor(1), actor(3)), ProxyEvent::AdminAdded(actor(3)));
    assert_eq!(svc.add_admin(actor(3), actor(4)), ProxyEvent::AdminAdded(actor(4)));
    assert_eq!(
        svc.add_admin(actor(4), actor(1)),
        ProxyEvent::Error(ProxyErrors::AdminExistsInContract(actor(1)))
    );
    assert_eq!(state.admins, vec![actor(1), actor(3), actor(4)]);
}

#[test]
fn ping_without_address_is_not_set() {
    let program = ProxyProgram::new(actor(1));
    let svc = program.ping_caller_svc();
    let not_set = ProxyPingCallerEvent::Error(ProxyPingCallerError::PingContractIdNotSet);
    assert_eq!(svc.ping_contract_id(), Err(not_set));
    let not_set = ProxyPingCallerEvent::Error(ProxyPingCallerError::PingContractIdNotSet);
    assert_eq!(svc.call_ping(Ok(PingEnum::Pong)), not_set);
    let not_set = ProxyPingCallerEvent::Error(ProxyPingCallerError::PingContractIdNotSet);
    assert_eq!(svc.call_pong(Err("x".to_string())), not_set);
    let not_set = ProxyPingCallerEvent::Error(ProxyPingCallerError::PingContractIdNotSet);
    assert_eq!(svc.call_last_who_call(Ok((actor(2), PingEnum::Ping))), not_set);
    let not_set = ProxyPingCallerEvent::Error(ProxyPingCallerError::PingContractIdNotSet);
    assert_eq!(svc.call_all_calls(Ok(vec![])), not_set);
}

#[test]
fn ping_reply_is_passed_on() {
    let program = ProxyProgram::new_proxy(Some(actor(5)), None, actor(1));
    let svc = program.ping_caller_svc();
    assert_eq!(svc.ping_contract_id(), Ok(actor(5)));
    assert_eq!(
        svc.call_ping(Ok(PingEnum::Pong)),
        ProxyPingCallerEvent::PingContractResponse(PingEnum::Pong)
    );
    assert_eq!(
        svc.call_pong(Ok(PingEnum::Ping)),
        ProxyPingCallerEvent::PingContractResponse(PingEnum::Ping)
    );
}

#[test]
fn ping_queries_are_passed_on() {
    let program = ProxyProgram::new_proxy(Some(actor(5)), None, actor(1));
    let svc = program.ping_caller_svc();
    assert_eq!(
        svc.call_last_who_call(Ok((actor(2), PingEnum::Ping))),
        ProxyPingCallerEvent::PingContractStateLastWhoCall((actor(2), PingEnum::Ping))
    );
    let calls = vec![(actor(2), PingEnum::Ping), (actor(3), PingEnum::Pong)];
    assert_eq!(
        svc.call_all_calls(Ok(calls.clone())),
        ProxyPingCallerEvent::PingContractStateAllCalls(calls)
    );
}

#[test]
fn ping_transport_error_is_wrapped() {
    let program = ProxyProgram::new_proxy(Some(actor(5)), None, actor(1));
    let svc = program.ping_caller_svc();
    assert_eq!(
        svc.call_ping(Err("timeout".to_string())),
        ProxyPingCallerEvent::Error(ProxyPingCallerError::PingContractError(
            "timeout".to_string()
        ))
    );
    assert_eq!(
        svc.call_all_calls(Err("decode".to_string())),
        ProxyPingCallerEvent::Error(ProxyPingCallerError::PingContractError(
            "decode".to_string()
        ))
    );
}

#[test]
fn unreachable_traffic_light_gives_error_text() {
    let program = ProxyProgram::new_proxy(None, Some(actor(6)), actor(1));
    let svc = program.traffic_light_caller_svc();
    assert_eq!(svc.traffic_light_contract_id(), Ok(actor(6)));
    assert_eq!(
        svc.call_green(Err("actor not found".to_string())),
        ProxyTrafficLightCallerEvent::Error(
            ProxyTrafficLightCallerError::TrafficLightContractError("actor not found".to_string())
        )
    );
}

#[test]
fn traffic_light_without_address_is_not_set() {
    let program = ProxyProgram::new(actor(1));
    let svc = program.traffic_light_caller_svc();
    let not_set =
        ProxyTrafficLightCallerEvent::Error(ProxyTrafficLightCallerError::TrafficLightContractIdNotSet);
    assert_eq!(svc.traffic_light_contract_id(), Err(not_set.clone()));
    assert_eq!(svc.call_green(Ok(TrafficLightEvent::Green)), not_set);
    assert_eq!(svc.call_yellow(Ok(TrafficLightEvent::Yellow)), not_set);
    assert_eq!(svc.call_red(Err("x".to_string())), not_set);
    let state = IoTrafficLightState { current_light: "Red".to_string(), all_users: vec![] };
    assert_eq!(svc.call_traffic_light_state(Ok(state)), not_set);
}

#[test]
fn traffic_light_replies_are_passed_on() {
    let program = ProxyProgram::new_proxy(None, Some(actor(6)), actor(1));
    let svc = program.traffic_light_caller_svc();
    assert_eq!(
        svc.call_green(Ok(TrafficLightEvent::Green)),
        ProxyTrafficLightCallerEvent::TrafficLightContractResponse(TrafficLightEvent::Green)
    );
    assert_eq!(
        svc.call_yellow(Ok(TrafficLightEvent::Yellow)),
        ProxyTrafficLightCallerEvent::TrafficLightContractResponse(TrafficLightEvent::Yellow)
    );
    assert_eq!(
        svc.call_red(Ok(TrafficLightEvent::Red)),
        ProxyTrafficLightCallerEvent::TrafficLightContractResponse(TrafficLightEvent::Red)
    );
    let state = IoTrafficLightState {
        current_light: "Green".to_string(),
        all_users: vec![(actor(2), "Green".to_string())],
    };
    assert_eq!(
        svc.call_traffic_light_state(Ok(state.clone())),
        ProxyTrafficLightCallerEvent::TrafficLightContractState(state)
    );
    assert_eq!(
        svc.call_traffic_light_state(Err("gone".to_string())),
        ProxyTrafficLightCallerEvent::Error(
            ProxyTrafficLightCallerError::TrafficLightContractError("gone".to_string())
        )
    );
}

#[test]
fn deploy_then_set_traffic_light_address() {
    let deployer = actor(1);
    let mut program = ProxyProgram::new(deployer);
    assert_eq!(program.proxy_state.admins, vec![deployer]);
    assert_eq!(program.proxy_state.ping_contract_id, None);
    assert_eq!(program.proxy_state.traffic_light_contract_id, None);
    let mut svc = program.proxy_svc();
    assert_eq!(
        svc.change_traffic_light_contract_id(deployer, actor(8)),
        ProxyEvent::PingContractIdSet
    );
    assert_eq!(
        svc.contracts_id(),
        ProxyEvent::ContractsId(ContractsId {
            ping_contract_id: None,
            traffic_light_contract_id: Some(actor(8)),
        })
    );
    let lights = program.traffic_light_caller_svc();
    assert_eq!(lights.traffic_light_contract_id(), Ok(actor(8)));
}
