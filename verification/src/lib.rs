//! The core of a bridge between a host process and an embedded query engine.
//!
//! The host sends one JSON request per line and reads one JSON response per
//! line. This library holds everything the bridge decides:
//!
//! - `cache`: the fixed-capacity registry that hands out handles for prepared
//!   statements;
//! - `codec`: the conversion of wire values to engine parameters and of engine
//!   values to JSON;
//! - `wire`: which JSON value is which request, and which JSON value a
//!   response is;
//! - `dispatch`: what is to be done for a request, and which response follows
//!   from what the engine answered.
//!
//! The engine itself, and the reading and writing of lines, are the caller's.

pub mod cache;
pub mod codec;
pub mod dispatch;
pub mod encoding;
pub mod json;
pub mod protocol;
pub mod value;
pub mod wire;
