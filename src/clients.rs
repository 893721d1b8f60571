use vstd::prelude::*;

use crate::actor::ActorId;

verus! {

/// Reply of the ping contract to its two commands.
#[derive(Clone, Copy, Debug, PartialEq, Eq, Structural)]
pub enum PingEnum {
    Ping,
    Pong,
}

/// Reply of the traffic-light contract to its three commands.
#[derive(Clone, Copy, Debug, PartialEq, Eq, Structural)]
pub enum TrafficLightEvent {
    Green,
    Yellow,
    Red,
}

/// State reported by the traffic-light contract: the light now shown, and who
/// switched it to what.
#[derive(Clone, Debug, PartialEq)]
pub struct IoTrafficLightState {
    pub current_light: String,
    pub all_users: Vec<(ActorId, String)>,
}

} // verus!
