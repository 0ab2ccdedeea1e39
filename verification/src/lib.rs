pub mod bot;
pub mod config_loader;
pub mod error;
pub mod server_thread;
pub mod text;
pub mod thread_interfacer;
pub mod threading;
