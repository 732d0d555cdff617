//! A small HTTP/1.x static-file server library.
//!
//! The wire codec, the path-safety resolution and the worker-pool queue
//! discipline are verified; binding sockets, reading files and spawning
//! threads are left to the embedding program.

pub mod config;
pub mod http;
pub mod server;
pub mod text;
pub mod thread_pool;
pub mod website_handler;

pub use config::Config;
pub use server::Server;
pub use website_handler::WebsiteHandler;
