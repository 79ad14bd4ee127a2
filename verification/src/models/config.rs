//! The server's settings.

use vstd::prelude::*;

verus! {

/// The seconds that the server waits for a read or a write.
pub const SOCKET_TIMEOUT: u64 = 60;

/// The greatest size of a message, in bytes.
pub const MAX_MESSAGE_SIZE: usize = 1000 * 1024 * 1024;

/// The server's settings.
#[derive(Debug)]
pub struct ServerConfig {
    pub required_clients: usize,
    pub benchmark_seconds: u32,
    pub file_name: String,
    pub ffmpeg_params: String,
    pub file_name_output: String,
    pub port: u16,
    pub exactly: bool,
    /// The size of the chunks in which data is streamed.
    pub chunk_size: usize,
    /// How often a failed operation is tried again.
    pub max_retries: u32,
    /// The seconds between two tries.
    pub retry_delay: u64,
    /// The seconds that a read may take.
    pub read_timeout: u64,
    /// The seconds that a write may take.
    pub write_timeout: u64,
    /// The greatest size of a message.
    pub max_message_size: usize,
    /// An authentication key, or nothing.
    pub key: String,
}

/// The settings that the operator chooses when the server is started.
#[derive(Debug)]
pub struct ServerOptions {
    pub required_clients: usize,
    pub benchmark_duration: u32,
    pub ffmpeg_params: String,
    pub file_name_output: String,
    pub port: u16,
    pub exactly: bool,
    pub chunk_size: usize,
    pub max_retries: u32,
    pub retry_delay: u64,
}

impl Default for ServerOptions {
    fn default() -> (r: Self)
        ensures
            r.required_clients == 3,
            r.benchmark_duration == 10,
            r.ffmpeg_params@ == "-c:v libx264 -preset medium"@,
            r.file_name_output@ == "output.mp4"@,
            r.port == 5001,
            r.exactly,
            r.chunk_size == 1048576,
            r.max_retries == 3,
            r.retry_delay == 5,
    {
        ServerOptions {
            required_clients: 3,
            benchmark_duration: 10,
            ffmpeg_params: "-c:v libx264 -preset medium".to_owned(),
            file_name_output: "output.mp4".to_owned(),
            port: 5001,
            exactly: true,
            chunk_size: 1048576,
            max_retries: 3,
            retry_delay: 5,
        }
    }
}

impl Default for ServerConfig {
    fn default() -> (r: Self)
        ensures
            r.required_clients == 3,
            r.benchmark_seconds == 10,
            r.file_name@.len() == 0,
            r.ffmpeg_params@ == "-c:v libx264 -preset medium"@,
            r.file_name_output@ == "output.mp4"@,
            r.port == 5001,
            r.exactly,
            r.chunk_size == 1024 * 1024,
            r.max_retries == 3,
            r.retry_delay == 5,
            r.read_timeout == 60,
            r.write_timeout == 60,
            r.max_message_size == 1000 * 1024 * 1024,
            r.key@.len() == 0,
    {
        ServerConfig {
            required_clients: 3,
            benchmark_seconds: 10,
            file_name: String::new(),
            ffmpeg_params: "-c:v libx264 -preset medium".to_owned(),
            file_name_output: "output.mp4".to_owned(),
            port: 5001,
            exactly: true,
            chunk_size: 1024 * 1024,
            max_retries: 3,
            retry_delay: 5,
            read_timeout: SOCKET_TIMEOUT,
            write_timeout: SOCKET_TIMEOUT,
            max_message_size: MAX_MESSAGE_SIZE,
            key: String::new(),
        }
    }
}

impl ServerConfig {
    /// The seconds after which an operation that failed is tried again, if it is;
    /// `retries` is how often it was tried again already.
    pub open spec fn spec_retry_after(self, retries: u32) -> Option<u64> {
        if retries < self.max_retries {
            Some(self.retry_delay)
        } else {
            None
        }
    }

    /// The seconds after which an operation that failed is tried again, if it is;
    /// `retries` is how often it was tried again already.
    pub fn retry_after(&self, retries: u32) -> (r: Option<u64>)
        ensures
            r == self.spec_retry_after(retries),
    {
        if retries < self.max_retries {
            Some(self.retry_delay)
        } else {
            None
        }
    }

    /// The settings of a server that is started with `options`.
    pub fn from_options(options: ServerOptions) -> (r: Self)
        ensures
            r.required_clients == options.required_clients,
            r.benchmark_seconds == options.benchmark_duration,
            r.file_name@.len() == 0,
            r.ffmpeg_params == options.ffmpeg_params,
            r.file_name_output == options.file_name_output,
            r.port == options.port,
            r.exactly == options.exactly,
            r.chunk_size == options.chunk_size,
            r.max_retries == options.max_retries,
            r.retry_delay == options.retry_delay,
            r.read_timeout == 60,
            r.write_timeout == 60,
            r.max_message_size == 1000 * 1024 * 1024,
            r.key@.len() == 0,
    {
        ServerConfig {
            required_clients: options.required_clients,
            benchmark_seconds: options.benchmark_duration,
            file_name: String::new(),
            ffmpeg_params: options.ffmpeg_params,
            file_name_output: options.file_name_output,
            port: options.port,
            exactly: options.exactly,
            chunk_size: options.chunk_size,
            max_retries: options.max_retries,
            retry_delay: options.retry_delay,
            read_timeout: SOCKET_TIMEOUT,
            write_timeout: SOCKET_TIMEOUT,
            max_message_size: MAX_MESSAGE_SIZE,
            key: String::new(),
        }
    }
}

} // verus!
