//! Several chat backends behind one interface.
//!
//! A process registers one backend per configured service. From then on
//! events flow out, service by service: first the channels of the service,
//! then whatever its backend's feed yields. Commands flow in: each names a
//! service, is routed to that service's backend, and leaves every other
//! backend untouched.
//!
//! This crate holds the rules of that traffic and proves them. Sockets,
//! files, clocks and tasks belong to the program around it.

pub mod backend;
pub mod chat_backend;
pub mod command_processor;
pub mod config_loader;
pub mod dummy_backend;
pub mod event_streamer;
pub mod json;
pub mod registry;
pub mod text;
