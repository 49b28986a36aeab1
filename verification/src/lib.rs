//! Decision core of a controller for Interactive Brokers Gateway: the lifecycle state
//! machine, the command protocol, the configuration layers, the cold restart schedule and
//! the text formats that go with them.

pub mod agent_client;
pub mod agent_events;
pub mod clock;
pub mod cold_restart;
pub mod command_server;
pub mod config;
pub mod event_stream;
pub mod handlers;
pub mod logging;
pub mod port_probe;
pub mod state_machine;
pub mod supervisor;
pub mod text;
pub mod totp;
pub mod types;
pub mod windows;
