//! The client: what it does about the server's messages, how it calls
//! `ffmpeg`, and how it uploads a file.

pub mod ffmpeg;
pub mod state;
pub mod storage;
pub mod upload;
