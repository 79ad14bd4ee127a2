//! The coordination logic of a distributed video encoder: a server that cuts a
//! video into frame ranges and hands them to clients, and the clients that
//! encode them.

pub mod client;
pub mod error;
pub mod file_transfer;
pub mod laws;
pub mod models;
pub mod outside;
pub mod path;
pub mod probe;
pub mod protocol;
pub mod server;
pub mod sorted;
pub mod table;
pub mod text;
pub mod tools;
pub mod transfer_handler;

pub use error::FfmpegError;
