//! The decisions of a local control surface for a desktop code-review
//! tool: which operating mode a process runs in, how an automated request
//! is answered, what the embedded control server does with its shared
//! configuration, and which embedded asset answers a request path.
//!
//! Nothing here touches the process, the network or the disk. Callers read
//! the arguments, the environment and the durable store, hand plain values
//! in, and act on what comes back.

pub mod cli;
pub mod config;
pub mod text;
pub mod web;
