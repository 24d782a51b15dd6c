//! The features of the controller, each in a module of its own.

pub mod http_server;
pub mod storage;
pub mod trigger;
