//! A Stratum V1 (Bitcoin mining protocol) proxy: the verified core.
//!
//! The library holds what the proxy decides: how a line is read as a message,
//! what the hooks may change of it, what is sent on, and how the proxy, its
//! sessions and its clients move from state to state. Sockets, tasks and the
//! console belong to the program around it.
pub mod backend;
pub mod client;
pub mod config;
pub mod forward;
pub mod forward_laws;
pub mod hook;
pub mod json;
pub mod line;
pub mod message;
pub mod proxy;
pub mod server;
pub mod session;
pub mod store;
pub mod stream_laws;
pub mod text;

pub use crate::client::ClientStub;
pub use crate::config::ProxyConfig;
pub use crate::hook::{Direction, Hook};
pub use crate::message::Message;
pub use crate::proxy::{run_proxy, Proxy};
