//! The controller state machine and the blit pipeline.
//!
//! A [`Driver`] tracks the controller's lifecycle and configuration and
//! turns each operation into the exact bus traffic it requires, as a
//! sequence of [`BusAction`]s.  Operations that need the controller in a
//! known state are refused with [`DriverError::SequenceError`] until
//! [`Driver::initialize`] has run; a refused operation plans no traffic at
//! all.

use vstd::prelude::*;
use crate::action::{
    be_bytes, byte_writes, command_actions, pixel_stream_actions, repeated_color_bytes,
    reset_actions, window_actions, BusAction, CMD_CASET, CMD_COLMOD, CMD_DISPON, CMD_INVON,
    CMD_MADCTL, CMD_RAMWR, CMD_RASET, CMD_SLPOUT, CMD_SWRESET, COLMOD_16BIT, RESET_PULSE_MS,
    RESET_SETTLE_MS, SLPOUT_WAKE_MS, SWRESET_SETTLE_MS,
};
use crate::bitmap::Bitmap;
use crate::config::{Config, DriverError, DriverState, Orientation};

verus! {

/// The full initialization sequence: hardware reset, software reset and its
/// settle delay, sleep-out and its wake delay, memory-access-control (color
/// order, normal orientation), pixel format, color inversion if configured,
/// then display-on.  It depends on the configuration alone.
pub open spec fn init_actions(cfg: Config) -> Seq<BusAction> {
    reset_actions()
        + command_actions(CMD_SWRESET, Seq::<u8>::empty())
        + seq![BusAction::DelayMs(SWRESET_SETTLE_MS)]
        + command_actions(CMD_SLPOUT, Seq::<u8>::empty())
        + seq![BusAction::DelayMs(SLPOUT_WAKE_MS)]
        + command_actions(CMD_MADCTL, seq![Orientation::Portrait.madctl_arg(cfg.rgb)])
        + command_actions(CMD_COLMOD, seq![COLMOD_16BIT])
        + (if cfg.inverted {
            command_actions(CMD_INVON, Seq::<u8>::empty())
        } else {
            Seq::<BusAction>::empty()
        })
        + command_actions(CMD_DISPON, Seq::<u8>::empty())
}

/// The window with corners `(x0, y0)` and `(x1, y1)`, shifted by the offset
/// `(dx, dy)`, lies inside the panel's addressable area.
pub open spec fn window_in_bounds(
    cfg: Config,
    dx: u16,
    dy: u16,
    x0: u16,
    y0: u16,
    x1: u16,
    y1: u16,
) -> bool {
    &&& x0 + dx < cfg.width
    &&& x1 + dx < cfg.width
    &&& y0 + dy < cfg.height
    &&& y1 + dy < cfg.height
}

/// The destination rectangle of `b` placed at `(x, y)`, shifted by the
/// offset `(dx, dy)`, lies inside the panel's addressable area.
pub open spec fn draw_in_bounds(cfg: Config, dx: u16, dy: u16, x: u16, y: u16, b: Bitmap) -> bool {
    &&& x + dx + b.width_px() - 1 < cfg.width
    &&& y + dy + b.height_px() - 1 < cfg.height
}

/// Appends the framing of a command with no arguments.
fn push_cmd0(plan: &mut Vec<BusAction>, opcode: u8)
    ensures
        final(plan)@ == old(plan)@ + command_actions(opcode, Seq::<u8>::empty()),
{
    plan.push(BusAction::CommandMode);
    plan.push(BusAction::WriteByte(opcode));
    proof {
        assert(final(plan)@ =~= old(plan)@ + command_actions(opcode, Seq::<u8>::empty()));
    }
}

/// Appends the framing of a command with one argument byte.
fn push_cmd1(plan: &mut Vec<BusAction>, opcode: u8, arg: u8)
    ensures
        final(plan)@ == old(plan)@ + command_actions(opcode, seq![arg]),
{
    plan.push(BusAction::CommandMode);
    plan.push(BusAction::WriteByte(opcode));
    plan.push(BusAction::DataMode);
    plan.push(BusAction::WriteByte(arg));
    proof {
        assert(final(plan)@ =~= old(plan)@ + command_actions(opcode, seq![arg]));
    }
}

/// Appends the framing of a command carrying two 16-bit values, each
/// big-endian.
fn push_cmd_pair16(plan: &mut Vec<BusAction>, opcode: u8, a: u16, b: u16)
    ensures
        final(plan)@ == old(plan)@ + command_actions(opcode, be_bytes(a) + be_bytes(b)),
{
    plan.push(BusAction::CommandMode);
    plan.push(BusAction::WriteByte(opcode));
    plan.push(BusAction::DataMode);
    plan.push(BusAction::WriteByte((a / 256) as u8));
    plan.push(BusAction::WriteByte((a % 256) as u8));
    plan.push(BusAction::WriteByte((b / 256) as u8));
    plan.push(BusAction::WriteByte((b % 256) as u8));
    proof {
        assert(final(plan)@ =~= old(plan)@ + command_actions(opcode, be_bytes(a) + be_bytes(b)));
    }
}

/// Appends the full addressing-window sequence.
fn push_window(plan: &mut Vec<BusAction>, cx0: u16, cy0: u16, cx1: u16, cy1: u16)
    ensures
        final(plan)@ == old(plan)@ + window_actions(cx0, cy0, cx1, cy1),
{
    push_cmd_pair16(plan, CMD_CASET, cx0, cx1);
    push_cmd_pair16(plan, CMD_RASET, cy0, cy1);
    push_cmd0(plan, CMD_RAMWR);
    proof {
        assert(final(plan)@ =~= old(plan)@ + window_actions(cx0, cy0, cx1, cy1));
    }
}

/// Appends a framed pixel stream: the select line goes to "data" once, then
/// every payload byte is transferred in order.
fn push_pixel_stream(plan: &mut Vec<BusAction>, bytes: &[u8])
    ensures
        final(plan)@ == old(plan)@ + pixel_stream_actions(bytes@),
{
    plan.push(BusAction::DataMode);
    let mut i: usize = 0;
    while i < bytes.len()
        invariant
            i <= bytes@.len(),
            plan@ == old(plan)@ + seq![BusAction::DataMode] + byte_writes(bytes@.take(i as int)),
        decreases bytes@.len() - i,
    {
        plan.push(BusAction::WriteByte(bytes[i]));
        i = i + 1;
        proof {
            assert(plan@ =~= old(plan)@ + seq![BusAction::DataMode]
                + byte_writes(bytes@.take(i as int)));
        }
    }
    proof {
        assert(bytes@.take(bytes@.len() as int) =~= bytes@);
        assert(plan@ =~= old(plan)@ + pixel_stream_actions(bytes@));
    }
}

/// The display controller driver: immutable panel configuration plus the
/// mutable lifecycle state, orientation, and coordinate offset.
pub struct Driver {
    cfg: Config,
    phase: DriverState,
    orient: Orientation,
    dx: u16,
    dy: u16,
}

impl Driver {
    /// The configuration fixed at construction.
    pub closed spec fn config(self) -> Config {
        self.cfg
    }

    /// Where the controller stands in its lifecycle.
    pub closed spec fn state(self) -> DriverState {
        self.phase
    }

    /// The orientation the controller was last told to use.
    pub closed spec fn orientation(self) -> Orientation {
        self.orient
    }

    /// The column offset added to every logical coordinate.
    pub closed spec fn offset_x(self) -> u16 {
        self.dx
    }

    /// The row offset added to every logical coordinate.
    pub closed spec fn offset_y(self) -> u16 {
        self.dy
    }

    /// The driver's invariant: its configuration is valid.
    pub open spec fn wf(self) -> bool {
        self.config().valid()
    }

    /// Builds a driver for a panel with the given configuration.  The
    /// controller starts uninitialized, in normal orientation, with a zero
    /// offset.
    pub fn new(cfg: Config) -> (d: Driver)
        requires
            cfg.valid(),
        ensures
            d.config() == cfg,
            d.state() == DriverState::Uninitialized,
            d.orientation() == Orientation::Portrait,
            d.offset_x() == 0u16,
            d.offset_y() == 0u16,
            d.wf(),
    {
        Driver { cfg, phase: DriverState::Uninitialized, orient: Orientation::Portrait, dx: 0, dy: 0 }
    }

    /// Plans the hardware reset pulse: reset low for the mandated minimum
    /// pulse width, then high, then the mandated settle delay — always the
    /// full pulse, whatever the line's prior state.  Afterwards the
    /// controller awaits initialization.
    pub fn reset(&mut self) -> (plan: Vec<BusAction>)
        requires
            old(self).wf(),
        ensures
            plan@ == reset_actions(),
            final(self).state() == DriverState::AwaitingInit,
            final(self).config() == old(self).config(),
            final(self).orientation() == old(self).orientation(),
            final(self).offset_x() == old(self).offset_x(),
            final(self).offset_y() == old(self).offset_y(),
            final(self).wf(),
    {
        self.phase = DriverState::AwaitingInit;
        let mut plan: Vec<BusAction> = Vec::new();
        plan.push(BusAction::ResetLow);
        plan.push(BusAction::DelayMs(RESET_PULSE_MS));
        plan.push(BusAction::ResetHigh);
        plan.push(BusAction::DelayMs(RESET_SETTLE_MS));
        proof {
            assert(plan@ =~= reset_actions());
        }
        plan
    }

    /// Plans the full initialization sequence, in fixed order, and leaves
    /// the controller addressable.  The sequence depends on the
    /// configuration alone, so running it again re-issues exactly the same
    /// traffic; it also puts the memory-access-control register back to the
    /// normal orientation.
    pub fn initialize(&mut self) -> (plan: Vec<BusAction>)
        requires
            old(self).wf(),
        ensures
            plan@ == init_actions(old(self).config()),
            final(self).state() == DriverState::Ready,
            final(self).config() == old(self).config(),
            final(self).orientation() == Orientation::Portrait,
            final(self).offset_x() == old(self).offset_x(),
            final(self).offset_y() == old(self).offset_y(),
            final(self).wf(),
    {
        self.phase = DriverState::Ready;
        self.orient = Orientation::Portrait;
        let mut plan: Vec<BusAction> = Vec::new();
        plan.push(BusAction::ResetLow);
        plan.push(BusAction::DelayMs(RESET_PULSE_MS));
        plan.push(BusAction::ResetHigh);
        plan.push(BusAction::DelayMs(RESET_SETTLE_MS));
        push_cmd0(&mut plan, CMD_SWRESET);
        plan.push(BusAction::DelayMs(SWRESET_SETTLE_MS));
        push_cmd0(&mut plan, CMD_SLPOUT);
        plan.push(BusAction::DelayMs(SLPOUT_WAKE_MS));
        push_cmd1(&mut plan, CMD_MADCTL, Orientation::Portrait.madctl_value(self.cfg.rgb));
        push_cmd1(&mut plan, CMD_COLMOD, COLMOD_16BIT);
        if self.cfg.inverted {
            push_cmd0(&mut plan, CMD_INVON);
        }
        push_cmd0(&mut plan, CMD_DISPON);
        proof {
            assert(plan@ =~= init_actions(old(self).config()));
        }
        plan
    }

    /// Issues the memory-access-control command for the new orientation,
    /// keeping the configured color order.  Refused before initialization.
    pub fn set_orientation(&mut self, o: Orientation) -> (r: Result<Vec<BusAction>, DriverError>)
        requires
            old(self).wf(),
        ensures
            final(self).state() == old(self).state(),
            final(self).config() == old(self).config(),
            final(self).offset_x() == old(self).offset_x(),
            final(self).offset_y() == old(self).offset_y(),
            final(self).wf(),
            old(self).state() != DriverState::Ready ==> {
                &&& r == Err::<Vec<BusAction>, DriverError>(DriverError::SequenceError)
                &&& final(self).orientation() == old(self).orientation()
            },
            old(self).state() == DriverState::Ready ==> {
                &&& r matches Ok(plan)
                    && plan@ == command_actions(
                        CMD_MADCTL,
                        seq![o.madctl_arg(old(self).config().rgb)],
                    )
                &&& final(self).orientation() == o
            },
    {
        if !matches!(self.phase, DriverState::Ready) {
            return Err(DriverError::SequenceError);
        }
        self.orient = o;
        let mut plan: Vec<BusAction> = Vec::new();
        push_cmd1(&mut plan, CMD_MADCTL, o.madctl_value(self.cfg.rgb));
        Ok(plan)
    }

    /// Records a new coordinate offset.  A pure local update: no bus
    /// traffic, allowed in any state, effective for all subsequent window
    /// and draw operations.
    pub fn set_offset(&mut self, dx: u16, dy: u16)
        requires
            old(self).wf(),
        ensures
            final(self).offset_x() == dx,
            final(self).offset_y() == dy,
            final(self).state() == old(self).state(),
            final(self).config() == old(self).config(),
            final(self).orientation() == old(self).orientation(),
            final(self).wf(),
    {
        self.dx = dx;
        self.dy = dy;
    }

    /// Plans the addressing-window sequence for the rectangle with corners
    /// `(x0, y0)` and `(x1, y1)`: each corner is shifted by the current
    /// offset, validated against the panel bounds, and sent as the column
    /// and row address commands (big-endian pairs) followed by write-to-RAM.
    /// Out-of-range windows are refused, never clamped; refusals plan no
    /// traffic.
    pub fn set_window(&self, x0: u16, y0: u16, x1: u16, y1: u16) -> (r: Result<
        Vec<BusAction>,
        DriverError,
    >)
        requires
            self.wf(),
        ensures
            self.state() != DriverState::Ready ==> r == Err::<Vec<BusAction>, DriverError>(
                DriverError::SequenceError,
            ),
            self.state() == DriverState::Ready && !window_in_bounds(
                self.config(),
                self.offset_x(),
                self.offset_y(),
                x0,
                y0,
                x1,
                y1,
            ) ==> r == Err::<Vec<BusAction>, DriverError>(DriverError::BoundsError),
            self.state() == DriverState::Ready && window_in_bounds(
                self.config(),
                self.offset_x(),
                self.offset_y(),
                x0,
                y0,
                x1,
                y1,
            ) ==> (r matches Ok(plan) && plan@ == window_actions(
                (x0 + self.offset_x()) as u16,
                (y0 + self.offset_y()) as u16,
                (x1 + self.offset_x()) as u16,
                (y1 + self.offset_y()) as u16,
            )),
    {
        if !matches!(self.phase, DriverState::Ready) {
            return Err(DriverError::SequenceError);
        }
        let w: u32 = self.cfg.width as u32;
        let h: u32 = self.cfg.height as u32;
        let cx0: u32 = x0 as u32 + self.dx as u32;
        let cx1: u32 = x1 as u32 + self.dx as u32;
        let cy0: u32 = y0 as u32 + self.dy as u32;
        let cy1: u32 = y1 as u32 + self.dy as u32;
        if !(cx0 < w && cx1 < w && cy0 < h && cy1 < h) {
            return Err(DriverError::BoundsError);
        }
        let mut plan: Vec<BusAction> = Vec::new();
        push_window(&mut plan, cx0 as u16, cy0 as u16, cx1 as u16, cy1 as u16);
        Ok(plan)
    }

    /// Plans a fill of the full panel with one 16-bit color: the addressing
    /// window for the whole panel, then width × height repetitions of the
    /// color's two big-endian bytes as a single pixel stream.  Refused
    /// before initialization, and refused — planning no traffic — when the
    /// current offset pushes the panel rectangle out of the addressable
    /// area.
    pub fn clear(&self, color: u16) -> (r: Result<Vec<BusAction>, DriverError>)
        requires
            self.wf(),
        ensures
            self.state() != DriverState::Ready ==> r == Err::<Vec<BusAction>, DriverError>(
                DriverError::SequenceError,
            ),
            self.state() == DriverState::Ready && !window_in_bounds(
                self.config(),
                self.offset_x(),
                self.offset_y(),
                0u16,
                0u16,
                (self.config().width - 1) as u16,
                (self.config().height - 1) as u16,
            ) ==> r == Err::<Vec<BusAction>, DriverError>(DriverError::BoundsError),
            self.state() == DriverState::Ready && window_in_bounds(
                self.config(),
                self.offset_x(),
                self.offset_y(),
                0u16,
                0u16,
                (self.config().width - 1) as u16,
                (self.config().height - 1) as u16,
            ) ==> (r matches Ok(plan) && plan@ == window_actions(
                self.offset_x(),
                self.offset_y(),
                (self.config().width - 1 + self.offset_x()) as u16,
                (self.config().height - 1 + self.offset_y()) as u16,
            ) + pixel_stream_actions(
                repeated_color_bytes(color, (self.config().width * self.config().height) as nat),
            )),
    {
        if !matches!(self.phase, DriverState::Ready) {
            return Err(DriverError::SequenceError);
        }
        let w: u32 = self.cfg.width as u32;
        let h: u32 = self.cfg.height as u32;
        let cx1: u32 = (self.cfg.width - 1) as u32 + self.dx as u32;
        let cy1: u32 = (self.cfg.height - 1) as u32 + self.dy as u32;
        if !((self.dx as u32) < w && cx1 < w && (self.dy as u32) < h && cy1 < h) {
            return Err(DriverError::BoundsError);
        }
        let mut plan: Vec<BusAction> = Vec::new();
        push_window(&mut plan, self.dx, self.dy, cx1 as u16, cy1 as u16);
        let count: u32 = w * h;
        let hi: u8 = (color / 256) as u8;
        let lo: u8 = (color % 256) as u8;
        let mut pix: Vec<u8> = Vec::new();
        let mut i: u32 = 0;
        while i < count
            invariant
                i <= count,
                pix@ == repeated_color_bytes(color, i as nat),
                hi == (color / 256) as u8,
                lo == (color % 256) as u8,
            decreases count - i,
        {
            pix.push(hi);
            pix.push(lo);
            i = i + 1;
            proof {
                assert(pix@ =~= repeated_color_bytes(color, i as nat));
            }
        }
        push_pixel_stream(&mut plan, pix.as_slice());
        Ok(plan)
    }

    /// Plans the blit of `bitmap` with its top-left corner at `(x, y)`.
    /// The destination rectangle is the bitmap's declared width by its
    /// derived height.  The operation is refused — planning no traffic —
    /// with a sequence error before initialization, a malformed-input error
    /// when the byte count does not split into whole rows of whole 16-bit
    /// pixels, and a bounds error when the rectangle's bottom-right corner
    /// leaves the addressable area (never clamped).  On success the plan is
    /// the addressing window followed by the bitmap's bytes, streamed once,
    /// in raster order.
    pub fn draw(&self, bitmap: &Bitmap, x: u16, y: u16) -> (r: Result<Vec<BusAction>, DriverError>)
        requires
            self.wf(),
        ensures
            self.state() != DriverState::Ready ==> r == Err::<Vec<BusAction>, DriverError>(
                DriverError::SequenceError,
            ),
            self.state() == DriverState::Ready && !bitmap.well_shaped() ==> r == Err::<
                Vec<BusAction>,
                DriverError,
            >(DriverError::MalformedInput),
            self.state() == DriverState::Ready && bitmap.well_shaped() && !draw_in_bounds(
                self.config(),
                self.offset_x(),
                self.offset_y(),
                x,
                y,
                *bitmap,
            ) ==> r == Err::<Vec<BusAction>, DriverError>(DriverError::BoundsError),
            self.state() == DriverState::Ready && bitmap.well_shaped() && draw_in_bounds(
                self.config(),
                self.offset_x(),
                self.offset_y(),
                x,
                y,
                *bitmap,
            ) ==> (r matches Ok(plan) && plan@ == window_actions(
                (x + self.offset_x()) as u16,
                (y + self.offset_y()) as u16,
                (x + self.offset_x() + bitmap.width_px() - 1) as u16,
                (y + self.offset_y() + bitmap.height_px() - 1) as u16,
            ) + pixel_stream_actions(bitmap.data@)),
    {
        if !matches!(self.phase, DriverState::Ready) {
            return Err(DriverError::SequenceError);
        }
        let len: usize = bitmap.data.len();
        if bitmap.width == 0 || len == 0 || len % 2 != 0 || (len / 2) % (bitmap.width as usize)
            != 0 {
            return Err(DriverError::MalformedInput);
        }
        proof {
            let p: int = (len as int) / 2;
            let wd: int = bitmap.width as int;
            vstd::arithmetic::div_mod::lemma_fundamental_div_mod(p, wd);
            assert(1 <= p / wd && p / wd <= p) by (nonlinear_arith)
                requires
                    p == wd * (p / wd),
                    1 <= wd,
                    1 <= p,
            ;
        }
        let bw: u64 = bitmap.width as u64;
        let bh: u64 = ((len / 2) / (bitmap.width as usize)) as u64;
        let w: u64 = self.cfg.width as u64;
        let h: u64 = self.cfg.height as u64;
        let cx0: u64 = x as u64 + self.dx as u64;
        let cy0: u64 = y as u64 + self.dy as u64;
        let cx1: u64 = cx0 + bw - 1;
        let cy1: u64 = cy0 + bh - 1;
        if !(cx0 < w && cx1 < w && cy0 < h && cy1 < h) {
            return Err(DriverError::BoundsError);
        }
        let mut plan: Vec<BusAction> = Vec::new();
        push_window(&mut plan, cx0 as u16, cy0 as u16, cx1 as u16, cy1 as u16);
        push_pixel_stream(&mut plan, bitmap.data.as_slice());
        Ok(plan)
    }
}

} // verus!
