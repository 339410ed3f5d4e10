//! Managing Minecraft servers from the terminal: the settings and the list of
//! servers, giving each server its own ports, preparing a server's files for
//! its first start, deciding how it is launched, and the decisions of the
//! server creation and of the live dashboard.

pub mod config;
pub mod creation;
pub mod dashboard;
pub mod launch;
pub mod manifest;
pub mod properties;
pub mod servers;
pub mod text;
