//! The server: its queue of jobs, the segments of the job at hand, and what it
//! answers to clients and operators.

pub mod chunks;
pub mod combine;
pub mod command;
pub mod cutting;
pub mod database;
pub mod disk;
pub mod ffmpeg;
pub mod frames;
pub mod job_queue;
pub mod segment_id;
pub mod segment_manager;
pub mod state;
pub mod upload;
pub mod upload_handler;
