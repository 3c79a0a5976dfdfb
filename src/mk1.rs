//! The simpler device generation: three-byte messages only.
use vstd::prelude::*;

use crate::error::LaunchpadError;
use crate::events::MidiEvent;
use crate::frames::{append_bytes, frames_view, short_frame, spec_short, CONTROL, PULSE};
use crate::session::Session;

verus! {

/// Address of the first top-row button.
pub const TOP_ROW: u8 = 0x68;
/// Address that moves the rapid-update cursor back to the first cell.
pub const GRID_CURSOR_RESET: u8 = 0x70;
/// Cells of the main grid.
pub const GRID_CELLS: usize = 64;
/// Buttons of the top row, and of the right column.
pub const EDGE_CELLS: usize = 8;

/// How grid buttons are numbered.
#[derive(Clone, Copy, Debug, PartialEq, Eq, PartialOrd, Ord, Hash, Structural)]
pub enum GridMappingMode {
    /// X-Y layout: 0xXY is the X-th column of the Y-th row, from the top left.
    XYLayout,
    /// Drum rack layout.
    DrumRackLayout,
}

/// Brightness of a full test pattern.
#[derive(Clone, Copy, Debug, PartialEq, Eq, PartialOrd, Ord, Hash, Structural)]
pub enum Brightness {
    Low,
    Medium,
    High,
}

impl GridMappingMode {
    pub open spec fn spec_code(self) -> u8 {
        match self {
            GridMappingMode::XYLayout => 1,
            GridMappingMode::DrumRackLayout => 2,
        }
    }

    /// The byte that selects this mode.
    pub fn code(&self) -> (r: u8)
        ensures
            r == self.spec_code(),
    {
        match self {
            GridMappingMode::XYLayout => 1,
            GridMappingMode::DrumRackLayout => 2,
        }
    }
}

impl Brightness {
    pub open spec fn spec_code(self) -> u8 {
        match self {
            Brightness::Low => 125,
            Brightness::Medium => 126,
            Brightness::High => 127,
        }
    }

    /// The byte that selects this brightness.
    pub fn code(&self) -> (r: u8)
        ensures
            r == self.spec_code(),
    {
        match self {
            Brightness::Low => 125,
            Brightness::Medium => 126,
            Brightness::High => 127,
        }
    }
}

/// A control message on the device's setup register.
pub open spec fn control_frame(value: u8) -> Seq<u8> {
    spec_short(CONTROL, 0x00, value)
}

/// The double-buffer control value: a base of 0x20, with the display,
/// update, flash and copy flags at bits 0, 2, 3 and 4.
pub open spec fn double_buffer_value(display: bool, update: bool, flash: bool, copy: bool) -> u8 {
    (0x20 + (if display { 1int } else { 0 }) + (if update { 4int } else { 0 }) + (if flash {
        8int
    } else {
        0
    }) + (if copy { 16int } else { 0 })) as u8
}

/// The rapid-update frames for a run of cells: two cells per frame, in order.
pub open spec fn grid_frames(cells: Seq<u8>) -> Seq<Seq<u8>> {
    Seq::new(cells.len() / 2, |i: int| spec_short(PULSE, cells[2 * i], cells[2 * i + 1]))
}

/// Every frame of a full grid update: the cursor reset, then the grid, the
/// top row and the right column, two cells per frame.
pub open spec fn light_grid_frames(grid: Seq<u8>, top: Seq<u8>, right: Seq<u8>) -> Seq<Seq<u8>> {
    seq![spec_short(CONTROL, GRID_CURSOR_RESET, 0)] + grid_frames(grid + top + right)
}

/// Packs the double-buffer flags into their control value.
pub fn double_buffer_flags(display: bool, update: bool, flash: bool, copy: bool) -> (r: u8)
    ensures
        r == double_buffer_value(display, update, flash, copy),
{
    let d: u8 = if display { 1 } else { 0 };
    let u: u8 = if update { 1 } else { 0 };
    let f: u8 = if flash { 1 } else { 0 };
    let c: u8 = if copy { 1 } else { 0 };
    let flags: u8 = 0b0100000 | d | (u << 2) | (f << 3) | (c << 4);
    assert(flags == 0x20 + d + 4 * u + 8 * f + 16 * c) by (bit_vector)
        requires
            d <= 1,
            u <= 1,
            f <= 1,
            c <= 1,
            flags == 0b0100000 | d | (u << 2) | (f << 3) | (c << 4),
    ;
    flags
}

/// A device of the simpler generation.
pub struct Launchpad {
    pub session: Session,
}

impl Launchpad {
    /// A session with nothing sent and nothing received.
    pub fn new() -> (r: Launchpad)
        ensures
            r.session.frames() == Seq::<Seq<u8>>::empty(),
            r.session.events() == Seq::<MidiEvent>::empty(),
    {
        Launchpad { session: Session::new() }
    }

    /// Turns every LED off and restores the default settings.
    pub fn reset(&mut self)
        ensures
            final(self).session.frames() == old(self).session.frames().push(control_frame(0)),
            final(self).session.events() == old(self).session.events(),
    {
        self.session.send(short_frame(CONTROL, 0x00, 0x00));
    }

    /// Chooses how the grid buttons are numbered.
    pub fn set_grid_mapping_mode(&mut self, mode: GridMappingMode)
        ensures
            final(self).session.frames() == old(self).session.frames().push(
                control_frame(mode.spec_code()),
            ),
            final(self).session.events() == old(self).session.events(),
    {
        self.session.send(short_frame(CONTROL, 0x00, mode.code()));
    }

    /// Sets the double-buffering flags.
    pub fn ctrl_double_buffer_display_update_flash_copy(
        &mut self,
        display: bool,
        update: bool,
        flash: bool,
        copy: bool,
    )
        ensures
            final(self).session.frames() == old(self).session.frames().push(
                control_frame(double_buffer_value(display, update, flash, copy)),
            ),
            final(self).session.events() == old(self).session.events(),
    {
        let flags = double_buffer_flags(display, update, flash, copy);
        self.session.send(short_frame(CONTROL, 0x00, flags));
    }

    /// Lights every LED in a test pattern at the given brightness.
    pub fn light_all(&mut self, brightness: Brightness)
        ensures
            final(self).session.frames() == old(self).session.frames().push(
                control_frame(brightness.spec_code()),
            ),
            final(self).session.events() == old(self).session.events(),
    {
        self.session.send(short_frame(CONTROL, 0x00, brightness.code()));
    }

    /// Sets one top-row button (`column` below 8) to `data` (below 128).
    pub fn light_top(&mut self, column: u8, data: u8) -> (r: Result<(), LaunchpadError>)
        ensures
            r == (if column >= 8 {
                Err(LaunchpadError::BadColumn)
            } else if data >= 128 {
                Err(LaunchpadError::BadColor)
            } else {
                Ok(())
            }),
            r is Ok ==> final(self).session.frames() == old(self).session.frames().push(
                spec_short(CONTROL, (TOP_ROW + column) as u8, data),
            ),
            r is Err ==> final(self).session.frames() == old(self).session.frames(),
            final(self).session.events() == old(self).session.events(),
    {
        if column >= 8 {
            return Err(LaunchpadError::BadColumn);
        }
        if data >= 128 {
            return Err(LaunchpadError::BadColor);
        }
        self.session.send(short_frame(CONTROL, TOP_ROW + column, data));
        Ok(())
    }

    /// Sets every LED at once: 64 grid cells, then 8 top-row and 8 right
    /// column buttons, two per frame after a cursor reset. Inputs of any
    /// other length are refused and nothing is sent.
    pub fn light_grid(&mut self, grid: &[u8], top: &[u8], right: &[u8]) -> (r: Result<
        (),
        LaunchpadError,
    >)
        ensures
            r is Ok <==> (grid@.len() == GRID_CELLS && top@.len() == EDGE_CELLS && right@.len()
                == EDGE_CELLS),
            r is Err ==> r == Err::<(), LaunchpadError>(LaunchpadError::BadLength),
            r is Ok ==> final(self).session.frames() == old(self).session.frames()
                + light_grid_frames(grid@, top@, right@),
            r is Err ==> final(self).session.frames() == old(self).session.frames(),
            final(self).session.events() == old(self).session.events(),
    {
        if grid.len() != GRID_CELLS || top.len() != EDGE_CELLS || right.len() != EDGE_CELLS {
            return Err(LaunchpadError::BadLength);
        }
        let mut cells: Vec<u8> = Vec::new();
        append_bytes(&mut cells, grid);
        append_bytes(&mut cells, top);
        append_bytes(&mut cells, right);
        assert(cells@ =~= grid@ + top@ + right@);
        let mut frames: Vec<Vec<u8>> = Vec::new();
        frames.push(short_frame(CONTROL, GRID_CURSOR_RESET, 0));
        let ghost head = seq![spec_short(CONTROL, GRID_CURSOR_RESET, 0)];
        assert(frames_view(frames@) =~= head);
        let n: usize = cells.len() / 2;
        let mut i: usize = 0;
        while i < n
            invariant
                cells@.len() == 80,
                n == 40,
                i <= n,
                frames_view(frames@) == head + grid_frames(cells@).take(i as int),
            decreases n - i,
        {
            let f = short_frame(PULSE, cells[2 * i], cells[2 * i + 1]);
            let ghost before = frames@;
            frames.push(f);
            assert(frames_view(frames@) =~= frames_view(before).push(f@));
            assert(grid_frames(cells@).take(i + 1) =~= grid_frames(cells@).take(i as int).push(
                f@,
            ));
            assert(head + grid_frames(cells@).take(i + 1) =~= (head + grid_frames(cells@).take(
                i as int,
            )).push(f@));
            i += 1;
        }
        assert(grid_frames(cells@).take(i as int) =~= grid_frames(cells@));
        self.session.send_all(frames);
        Ok(())
    }
}

} // verus!
