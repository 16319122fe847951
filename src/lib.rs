//! Role-based network configuration for a point-to-point IP tunnel endpoint.
//!
//! The library plans the host-network mutations for a client or server role,
//! orders their rollback, and drives a tunnel session as a state machine whose
//! outside work (acquiring the device, running commands) is done by the caller.
pub mod cidr;
pub mod config;
pub mod steps;
pub mod host;
pub mod session;
pub mod lifecycle;
pub mod argv;
pub mod gateway;

pub use argv::{argv, spell, Token, Word};
pub use cidr::{ipv4, Cidr};
pub use gateway::gateway_span;
pub use config::{ConfigError, NetworkConfig, Role, DEFAULT_MTU};
pub use session::{Action, CommandError, Event, Phase, StartError, TeardownError, TunnelSession};
pub use steps::{cleanup_when_sig_exit, ifconfig, plan, run_mode, setup_route_table, Command, RunMode, ConfigStep, Rule, Scope, Stage};
