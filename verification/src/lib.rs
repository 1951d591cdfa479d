//! Driver logic for the PIM447 trackball breakout.
//!
//! The crate holds everything about the device that can be decided without
//! touching the wire: the register map, the colour model, the decoding of
//! motion samples, the planning of bus transactions for each command, and the
//! two state machines of the command/event pipeline. The transport itself is
//! the caller's business: the driver hands out [`protocol::BusRequest`]s and is
//! told what came back.

pub mod colour;
pub mod pim447;
pub mod pipeline;
pub mod plan;
pub mod protocol;
