//! Brightness control for a networked LED light.
//!
//! The light exposes four brightness channels over an HTTP/JSON interface.
//! This crate holds the rules of the controller: how a requested change
//! alters the warm-white channel, which change a command line asks for,
//! the settings the controller starts from, and where on the device the
//! two endpoints live. Talking to the device and to the file system is left
//! to the caller, who hands this crate plain values and posts what it
//! returns.

pub mod brightness;
pub mod command;
pub mod config;
pub mod error;
pub mod status;
