//! Bus-level actions and the command/data framing rules.
//!
//! The controller sits on a half-duplex serial bus with two extra output
//! lines: a data/command select line and a reset line.  A driver operation is
//! specified by the exact sequence of [`BusAction`]s it emits; the spec
//! functions here define those sequences.

use vstd::prelude::*;

verus! {

/// Software-reset command opcode.
pub const CMD_SWRESET: u8 = 0x01;
/// Sleep-out command opcode.
pub const CMD_SLPOUT: u8 = 0x11;
/// Color-inversion-on command opcode.
pub const CMD_INVON: u8 = 0x21;
/// Display-on command opcode.
pub const CMD_DISPON: u8 = 0x29;
/// Column-address-set command opcode.
pub const CMD_CASET: u8 = 0x2A;
/// Row-address-set command opcode.
pub const CMD_RASET: u8 = 0x2B;
/// Write-to-RAM command opcode: primes the controller for a pixel stream.
pub const CMD_RAMWR: u8 = 0x2C;
/// Memory-access-control command opcode: orientation and color order.
pub const CMD_MADCTL: u8 = 0x36;
/// Pixel-format command opcode.
pub const CMD_COLMOD: u8 = 0x3A;

/// Pixel-format argument selecting the fixed 16-bit-per-pixel encoding.
pub const COLMOD_16BIT: u8 = 0x05;
/// Memory-access-control bit that selects BGR color order.
pub const MADCTL_BGR: u8 = 0x08;

/// Minimum width of the reset pulse, in milliseconds.
pub const RESET_PULSE_MS: u32 = 10;
/// Minimum settle delay after releasing the reset line, in milliseconds.
pub const RESET_SETTLE_MS: u32 = 120;
/// Mandatory settle delay after the software-reset command, in milliseconds.
pub const SWRESET_SETTLE_MS: u32 = 200;
/// Mandatory wake delay after the sleep-out command, in milliseconds.
pub const SLPOUT_WAKE_MS: u32 = 200;

/// One primitive step on the physical link.
///
/// `CommandMode`/`DataMode` drive the data/command select line low/high,
/// `ResetLow`/`ResetHigh` drive the reset line, `DelayMs` is a mandatory
/// minimum wait, and `WriteByte` transfers one byte over the serial bus.
#[derive(Clone, Copy, Debug, PartialEq, Eq, Structural)]
pub enum BusAction {
    CommandMode,
    DataMode,
    ResetLow,
    ResetHigh,
    DelayMs(u32),
    WriteByte(u8),
}

/// The two big-endian bytes of a 16-bit value.
pub open spec fn be_bytes(v: u16) -> Seq<u8> {
    seq![(v / 256) as u8, (v % 256) as u8]
}

/// Each byte of `bytes`, as one bus transfer, in order.
pub open spec fn byte_writes(bytes: Seq<u8>) -> Seq<BusAction> {
    Seq::new(bytes.len(), |i: int| BusAction::WriteByte(bytes[i]))
}

/// Framing of one command: the select line goes to "command" before the
/// opcode byte; if there are argument bytes, the line goes to "data" exactly
/// once before they are streamed.  A command with no arguments transitions
/// the line exactly once.
pub open spec fn command_actions(opcode: u8, args: Seq<u8>) -> Seq<BusAction> {
    if args.len() == 0 {
        seq![BusAction::CommandMode, BusAction::WriteByte(opcode)]
    } else {
        seq![BusAction::CommandMode, BusAction::WriteByte(opcode), BusAction::DataMode]
            + byte_writes(args)
    }
}

/// Framing of a pixel stream: the select line goes to "data" once and the
/// whole payload is streamed without any interleaved command.
pub open spec fn pixel_stream_actions(bytes: Seq<u8>) -> Seq<BusAction> {
    seq![BusAction::DataMode] + byte_writes(bytes)
}

/// The hardware reset pulse: reset low for at least the pulse width, then
/// high, then the mandatory settle delay.
pub open spec fn reset_actions() -> Seq<BusAction> {
    seq![
        BusAction::ResetLow,
        BusAction::DelayMs(RESET_PULSE_MS),
        BusAction::ResetHigh,
        BusAction::DelayMs(RESET_SETTLE_MS),
    ]
}

/// The addressing-window sequence: column bounds, row bounds (each pair as
/// big-endian 16-bit values), then write-to-RAM.
pub open spec fn window_actions(cx0: u16, cy0: u16, cx1: u16, cy1: u16) -> Seq<BusAction> {
    command_actions(CMD_CASET, be_bytes(cx0) + be_bytes(cx1))
        + command_actions(CMD_RASET, be_bytes(cy0) + be_bytes(cy1))
        + command_actions(CMD_RAMWR, seq![])
}

/// `count` repetitions of the big-endian bytes of `color`.
pub open spec fn repeated_color_bytes(color: u16, count: nat) -> Seq<u8> {
    Seq::new(2 * count, |i: int| if i % 2 == 0 { (color / 256) as u8 } else { (color % 256) as u8 })
}

} // verus!
