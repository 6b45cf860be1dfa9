pub mod text;
pub mod protocol;
pub mod hardware;
pub mod server;
pub mod config;
pub mod tls;
pub mod hwq;
