//! The control-plane server: the asset resolver, the configuration store
//! with its handlers, and the plan of the server that binds them.

pub mod api;
pub mod consistency;
pub mod server;
pub mod static_files;
