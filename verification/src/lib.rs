//! Driver core for an ST7735-class TFT display controller.
//!
//! The library owns the controller's protocol logic: the lifecycle state
//! machine, the command/data framing, addressing-window computation, and the
//! blit pipeline that turns a bitmap into a pixel stream.  Every operation
//! returns the exact sequence of bus-level actions (control-line transitions,
//! bytes, delays) that must be performed on the physical link; an unverified
//! shell executes those actions against the real SPI bus and GPIO lines.

pub mod action;
pub mod config;
pub mod bitmap;
pub mod driver;
pub mod laws;
