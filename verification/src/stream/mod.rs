pub mod buffer;
pub mod connection;
pub mod control;
pub mod error;
pub mod frame;
pub mod laws;
pub mod log;
pub mod server;
pub mod writer;
