pub mod actor;
pub mod clients;
pub mod ping_caller;
pub mod program;
pub mod proxy_service;
pub mod state;
pub mod traffic_light_caller;
