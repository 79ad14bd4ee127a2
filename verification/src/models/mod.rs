//! What client and server tell each other, and their settings.

pub mod capabilities;
pub mod config;
pub mod measure;
pub mod messages;
