//! Thread-confined instrumentation service.
//!
//! One actor owns every handle of the instrumentation toolkit. This crate
//! holds what that actor decides: which sessions and scripts are registered,
//! in which order they are torn down, when a cached process list may be
//! served, and which toolkit call comes next. The host performs each call
//! and hands the answer back; nothing here touches a handle.
//!
//! - [`context`] is the actor: every operation is started there and goes on
//!   with [`context::FridaContext::deliver`] for each answer of the toolkit.
//! - [`protocol`] is what actor and host say to each other.
//! - [`model`] and [`registry_model`] say in mathematical terms what the
//!   actor does; [`laws`] and [`traces`] prove what follows from that.
//! - [`registry`], [`agent`], [`validation`] and [`json`] are the parts the
//!   actor is made of.
//! - [`message`] normalises the messages of injected scripts, [`input`] the
//!   events of the global key listener.
//! - [`bridge`] and [`schedule`] decide for the worker thread around the
//!   actor.

pub mod agent;
pub mod bridge;
pub mod context;
pub mod error;
pub mod input;
pub mod json;
pub mod laws;
pub mod message;
pub mod model;
pub mod protocol;
pub mod registry;
pub mod registry_model;
pub mod schedule;
pub mod traces;
pub mod types;
pub mod validation;
