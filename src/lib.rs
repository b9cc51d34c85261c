//! VLAN container network plugin: the decisions of the ADD, DEL and CHECK
//! verbs, the namespace switching protocol, configuration validation and the
//! wire format of the plugin's result, each stated as a contract.

pub mod commands;
pub mod config;
pub mod ctl;
pub mod integrations;
pub mod json;
pub mod plugin;
pub mod text;
pub mod types;
