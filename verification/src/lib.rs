//! Verified control logic for a cellular modem that carries PPP over a serial line.
pub mod action;
pub mod at;
pub mod clock;
pub mod command;
pub mod conduct;
pub mod config;
pub mod error;
pub mod handle;
pub mod laws;
pub mod reader;
pub mod runner;
pub mod session;
pub mod status;
pub mod stream;
pub mod text;
pub mod time;
pub mod transport;
