pub mod thread_interface;
