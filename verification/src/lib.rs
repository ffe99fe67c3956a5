//! Bridge between the control side and the audio side of a hosted audio unit.
//!
//! Control events (parameter changes, notes) are queued without blocking and
//! reach the unit's compute engine, in order, at the start of the next audio
//! block. The library decides what is to be done and in which order; the
//! caller does it: it fetches, parses, builds the engine and makes the
//! engine calls that the library hands out.
//!
//! - `command`: control events and engine calls.
//! - `queue`: the command queue.
//! - `module`: the audio module and its per-block dispatch.
//! - `loader`: construction of a module from remote assets, step by step.
//! - `bundle`: the manifest of a module.
//! - `utils`: outcomes of fetches, and addresses.

pub mod bundle;
pub mod command;
pub mod loader;
pub mod module;
pub mod queue;
pub mod utils;
