//! Verified core of a bastion-host gateway: SSO provider configuration,
//! TLS connector set-up decisions, MySQL packet stream framing, WebSocket
//! reconnect decisions, command-line decisions and target-test errors.

pub mod commands;
pub mod mysql;
pub mod protocols;
pub mod reconnect;
pub mod sso;
pub mod tls;
