//! The decisions of a sandbox plugin protocol, apart from its I/O.

pub mod channel;
pub mod client;
pub mod control;
pub mod diagnostics;
pub mod discovery;
pub mod dispatch;
pub mod driver;
pub mod frame;
pub mod limits;
pub mod methods;
pub mod operation;
pub mod provider;
pub mod registry;
pub mod request;
pub mod sandbox;
pub mod server;
pub mod services;
pub mod supervisor;
pub mod table;
pub mod text;
pub mod transfer;
pub mod wire;
