//! Laws relating the driver's operations, stated over the action sequences
//! that the operations' own contracts pin down.

use vstd::prelude::*;
use crate::action::{
    reset_actions, window_actions, BusAction, CMD_CASET, CMD_RAMWR, CMD_RASET, RESET_PULSE_MS,
    RESET_SETTLE_MS,
};
use crate::config::Config;
use crate::driver::{init_actions, window_in_bounds};

verus! {

/// The reset pulse is the same fixed sequence whatever the line's prior
/// state: reset low, the mandated minimum pulse width, reset high, the
/// mandated settle delay.
pub proof fn lemma_reset_pulse_shape()
    ensures
        reset_actions() == seq![
            BusAction::ResetLow,
            BusAction::DelayMs(RESET_PULSE_MS),
            BusAction::ResetHigh,
            BusAction::DelayMs(RESET_SETTLE_MS),
        ],
{
}

/// Initialization always begins with the full hardware reset pulse.
pub proof fn lemma_init_begins_with_reset(cfg: Config)
    ensures
        init_actions(cfg).len() >= reset_actions().len(),
        init_actions(cfg).take(reset_actions().len() as int) == reset_actions(),
{
    assert(init_actions(cfg).take(reset_actions().len() as int) =~= reset_actions());
}

/// The initialization sequence is a function of the configuration alone,
/// and initializing never changes the configuration: running
/// `initialize` twice therefore issues the identical command sequence both
/// times.
pub proof fn lemma_initialize_repeatable(first: Config, second: Config)
    requires
        second == first,
    ensures
        init_actions(second) == init_actions(first),
{
}

/// The addressing-window sequence, action by action: the column-address
/// command carrying both column bounds big-endian, the row-address command
/// carrying both row bounds big-endian, then write-to-RAM.
pub proof fn lemma_window_action_bytes(cx0: u16, cy0: u16, cx1: u16, cy1: u16)
    ensures
        window_actions(cx0, cy0, cx1, cy1) == seq![
            BusAction::CommandMode,
            BusAction::WriteByte(CMD_CASET),
            BusAction::DataMode,
            BusAction::WriteByte((cx0 / 256) as u8),
            BusAction::WriteByte((cx0 % 256) as u8),
            BusAction::WriteByte((cx1 / 256) as u8),
            BusAction::WriteByte((cx1 % 256) as u8),
            BusAction::CommandMode,
            BusAction::WriteByte(CMD_RASET),
            BusAction::DataMode,
            BusAction::WriteByte((cy0 / 256) as u8),
            BusAction::WriteByte((cy0 % 256) as u8),
            BusAction::WriteByte((cy1 / 256) as u8),
            BusAction::WriteByte((cy1 % 256) as u8),
            BusAction::CommandMode,
            BusAction::WriteByte(CMD_RAMWR),
        ],
{
    assert(window_actions(cx0, cy0, cx1, cy1) =~= seq![
        BusAction::CommandMode,
        BusAction::WriteByte(CMD_CASET),
        BusAction::DataMode,
        BusAction::WriteByte((cx0 / 256) as u8),
        BusAction::WriteByte((cx0 % 256) as u8),
        BusAction::WriteByte((cx1 / 256) as u8),
        BusAction::WriteByte((cx1 % 256) as u8),
        BusAction::CommandMode,
        BusAction::WriteByte(CMD_RASET),
        BusAction::DataMode,
        BusAction::WriteByte((cy0 / 256) as u8),
        BusAction::WriteByte((cy0 % 256) as u8),
        BusAction::WriteByte((cy1 / 256) as u8),
        BusAction::WriteByte((cy1 % 256) as u8),
        BusAction::CommandMode,
        BusAction::WriteByte(CMD_RAMWR),
    ]);
}

/// Any window of `w` by `h` pixels whose offset placement fits the panel —
/// `dx + w` within the panel width, `dy + h` within the panel height — is
/// accepted, and its planned addresses are exactly `dx`, `dx + w - 1`,
/// `dy`, `dy + h - 1`, which the window sequence carries big-endian.
pub proof fn lemma_window_addresses(cfg: Config, dx: u16, dy: u16, w: u16, h: u16)
    requires
        1 <= w,
        1 <= h,
        dx + w <= cfg.width,
        dy + h <= cfg.height,
    ensures
        window_in_bounds(cfg, dx, dy, 0u16, 0u16, (w - 1) as u16, (h - 1) as u16),
        window_actions(
            (0u16 + dx) as u16,
            (0u16 + dy) as u16,
            ((w - 1) as u16 + dx) as u16,
            ((h - 1) as u16 + dy) as u16,
        ) == window_actions(dx, dy, (dx + w - 1) as u16, (dy + h - 1) as u16),
{
}

} // verus!
