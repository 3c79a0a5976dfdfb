//! The richer device generation: palette colours and system-exclusive frames.
use vstd::prelude::*;
use vstd::string::StringSliceAdditionalSpecFns;

use crate::error::LaunchpadError;
use crate::events::MidiEvent;
use crate::frames::{
    append_bytes, frames_view, lemma_sysex_round_trip, short_frame, spec_parse_sysex, spec_short,
    spec_sysex, sysex_frame, FLASH,
    OP_LIGHT_ALL, OP_LIGHT_COLUMN, OP_LIGHT_LED, OP_LIGHT_ROW, OP_SCROLL_TEXT, PULSE,
};
use crate::session::Session;
use crate::validate::{
    batch_result, first_error, is_color, is_column, is_led_position, is_row,
    lemma_first_error_prefix, lemma_first_error_step, valid_color, valid_column,
    valid_led_position, valid_row,
};

verus! {

/// A palette index; only 0 to 127 name colours.
pub type Color = u8;

/// Most LEDs that one batch may set.
pub const MAX_LEDS: usize = 80;
/// Most rows or columns that one batch may set.
pub const MAX_LINES: usize = 9;

/// Scroll speed markers that may be embedded in scrolled text.
pub const SCROLL_SLOWEST: &'static str = "\u{01}";
pub const SCROLL_SLOWER: &'static str = "\u{02}";
pub const SCROLL_SLOW: &'static str = "\u{03}";
pub const SCROLL_NORMAL: &'static str = "\u{04}";
pub const SCROLL_FAST: &'static str = "\u{05}";
pub const SCROLL_FASTER: &'static str = "\u{06}";
pub const SCROLL_FASTEST: &'static str = "\u{07}";

/// A single button or LED and the colour it should show.
#[derive(Clone, Copy, Debug, PartialEq, Eq, Structural)]
pub struct ColorLed {
    pub color: Color,
    pub position: u8,
}

/// A single column (0 to 8) and its colour.
#[derive(Clone, Copy, Debug, PartialEq, Eq, Structural)]
pub struct ColorColumn {
    pub color: Color,
    pub column: u8,
}

/// A single row (0 to 8) and its colour.
#[derive(Clone, Copy, Debug, PartialEq, Eq, Structural)]
pub struct ColorRow {
    pub color: Color,
    pub row: u8,
}

/// What is wrong with an LED, position first.
pub open spec fn led_error(led: ColorLed) -> Option<LaunchpadError> {
    if !is_led_position(led.position) {
        Some(LaunchpadError::BadPosition)
    } else if !is_color(led.color) {
        Some(LaunchpadError::BadColor)
    } else {
        None
    }
}

/// What is wrong with a column command, index first.
pub open spec fn column_error(col: ColorColumn) -> Option<LaunchpadError> {
    if !is_column(col.column) {
        Some(LaunchpadError::BadColumn)
    } else if !is_color(col.color) {
        Some(LaunchpadError::BadColor)
    } else {
        None
    }
}

/// What is wrong with a row command, index first.
pub open spec fn row_error(row: ColorRow) -> Option<LaunchpadError> {
    if !is_row(row.row) {
        Some(LaunchpadError::BadRow)
    } else if !is_color(row.color) {
        Some(LaunchpadError::BadColor)
    } else {
        None
    }
}

pub open spec fn led_checks(leds: Seq<&ColorLed>) -> Seq<Option<LaunchpadError>> {
    leds.map_values(|l: &ColorLed| led_error(*l))
}

pub open spec fn column_checks(cols: Seq<&ColorColumn>) -> Seq<Option<LaunchpadError>> {
    cols.map_values(|c: &ColorColumn| column_error(*c))
}

pub open spec fn row_checks(rows: Seq<&ColorRow>) -> Seq<Option<LaunchpadError>> {
    rows.map_values(|r: &ColorRow| row_error(*r))
}

/// The frame that sets every LED to `color`.
pub open spec fn light_all_frame(color: Color) -> Seq<u8> {
    spec_sysex(OP_LIGHT_ALL, seq![color])
}

/// The frame that sets one LED.
pub open spec fn led_frame(led: ColorLed) -> Seq<u8> {
    spec_sysex(OP_LIGHT_LED, seq![led.position, led.color])
}

/// The frame that sets one column.
pub open spec fn column_frame(col: ColorColumn) -> Seq<u8> {
    spec_sysex(OP_LIGHT_COLUMN, seq![col.column, col.color])
}

/// The frame that sets one row.
pub open spec fn row_frame(row: ColorRow) -> Seq<u8> {
    spec_sysex(OP_LIGHT_ROW, seq![row.row, row.color])
}

/// The frame that scrolls `text`: colour, loop flag, then the text's bytes verbatim.
pub open spec fn scroll_frame(color: Color, doloop: bool, text: Seq<u8>) -> Seq<u8> {
    spec_sysex(OP_SCROLL_TEXT, seq![color, if doloop { 1u8 } else { 0u8 }] + text)
}

/// Reading back the frame of an LED gives its opcode, position and colour.
pub proof fn lemma_led_frame_round_trip(led: ColorLed)
    ensures
        spec_parse_sysex(led_frame(led)) == Some((OP_LIGHT_LED, seq![led.position, led.color])),
{
    lemma_sysex_round_trip(OP_LIGHT_LED, seq![led.position, led.color]);
}

/// Reading back a scroll frame gives its opcode, and a payload of colour,
/// loop flag and the text's bytes.
pub proof fn lemma_scroll_frame_round_trip(color: Color, doloop: bool, text: Seq<u8>)
    ensures
        spec_parse_sysex(scroll_frame(color, doloop, text)) == Some(
            (OP_SCROLL_TEXT, seq![color, if doloop { 1u8 } else { 0u8 }] + text),
        ),
{
    lemma_sysex_round_trip(OP_SCROLL_TEXT, seq![color, if doloop { 1u8 } else { 0u8 }] + text);
}

/// Checks every LED in order and reports the first fault.
pub fn check_leds(leds: &[&ColorLed]) -> (r: Option<LaunchpadError>)
    ensures
        r == first_error(led_checks(leds@)),
{
    let ghost checks = led_checks(leds@);
    let mut i: usize = 0;
    assert(checks.take(0) =~= Seq::<Option<LaunchpadError>>::empty());
    while i < leds.len()
        invariant
            i <= leds@.len(),
            checks == led_checks(leds@),
            first_error(checks.take(i as int)) is None,
        decreases leds@.len() - i,
    {
        let led = leds[i];
        proof {
            lemma_first_error_step(checks, i as int);
        }
        if !valid_led_position(led.position) {
            proof {
                lemma_first_error_prefix(checks, i + 1);
            }
            return Some(LaunchpadError::BadPosition);
        }
        if !valid_color(led.color) {
            proof {
                lemma_first_error_prefix(checks, i + 1);
            }
            return Some(LaunchpadError::BadColor);
        }
        i += 1;
    }
    assert(checks.take(i as int) =~= checks);
    None
}

/// Checks every column command in order and reports the first fault.
pub fn check_columns(cols: &[&ColorColumn]) -> (r: Option<LaunchpadError>)
    ensures
        r == first_error(column_checks(cols@)),
{
    let ghost checks = column_checks(cols@);
    let mut i: usize = 0;
    assert(checks.take(0) =~= Seq::<Option<LaunchpadError>>::empty());
    while i < cols.len()
        invariant
            i <= cols@.len(),
            checks == column_checks(cols@),
            first_error(checks.take(i as int)) is None,
        decreases cols@.len() - i,
    {
        let col = cols[i];
        proof {
            lemma_first_error_step(checks, i as int);
        }
        if !valid_column(col.column) {
            proof {
                lemma_first_error_prefix(checks, i + 1);
            }
            return Some(LaunchpadError::BadColumn);
        }
        if !valid_color(col.color) {
            proof {
                lemma_first_error_prefix(checks, i + 1);
            }
            return Some(LaunchpadError::BadColor);
        }
        i += 1;
    }
    assert(checks.take(i as int) =~= checks);
    None
}

/// Checks every row command in order and reports the first fault.
pub fn check_rows(rows: &[&ColorRow]) -> (r: Option<LaunchpadError>)
    ensures
        r == first_error(row_checks(rows@)),
{
    let ghost checks = row_checks(rows@);
    let mut i: usize = 0;
    assert(checks.take(0) =~= Seq::<Option<LaunchpadError>>::empty());
    while i < rows.len()
        invariant
            i <= rows@.len(),
            checks == row_checks(rows@),
            first_error(checks.take(i as int)) is None,
        decreases rows@.len() - i,
    {
        let row = rows[i];
        proof {
            lemma_first_error_step(checks, i as int);
        }
        if !valid_row(row.row) {
            proof {
                lemma_first_error_prefix(checks, i + 1);
            }
            return Some(LaunchpadError::BadRow);
        }
        if !valid_color(row.color) {
            proof {
                lemma_first_error_prefix(checks, i + 1);
            }
            return Some(LaunchpadError::BadColor);
        }
        i += 1;
    }
    assert(checks.take(i as int) =~= checks);
    None
}

/// One frame per LED, in order.
pub fn led_frames(leds: &[&ColorLed]) -> (r: Vec<Vec<u8>>)
    ensures
        frames_view(r@) == Seq::new(leds@.len(), |i: int| led_frame(*leds@[i])),
{
    let mut r: Vec<Vec<u8>> = Vec::new();
    let mut i: usize = 0;
    while i < leds.len()
        invariant
            i <= leds@.len(),
            frames_view(r@) == Seq::new(i as nat, |j: int| led_frame(*leds@[j])),
        decreases leds@.len() - i,
    {
        let led = leds[i];
        let payload: [u8; 2] = [led.position, led.color];
        let f = sysex_frame(OP_LIGHT_LED, &payload);
        assert(payload@ =~= seq![led.position, led.color]);
        let ghost before = r@;
        r.push(f);
        assert(frames_view(r@) =~= frames_view(before).push(f@));
        assert(frames_view(r@) =~= Seq::new((i + 1) as nat, |j: int| led_frame(*leds@[j])));
        i += 1;
    }
    r
}

/// One frame per column command, in order.
pub fn column_frames(cols: &[&ColorColumn]) -> (r: Vec<Vec<u8>>)
    ensures
        frames_view(r@) == Seq::new(cols@.len(), |i: int| column_frame(*cols@[i])),
{
    let mut r: Vec<Vec<u8>> = Vec::new();
    let mut i: usize = 0;
    while i < cols.len()
        invariant
            i <= cols@.len(),
            frames_view(r@) == Seq::new(i as nat, |j: int| column_frame(*cols@[j])),
        decreases cols@.len() - i,
    {
        let col = cols[i];
        let payload: [u8; 2] = [col.column, col.color];
        let f = sysex_frame(OP_LIGHT_COLUMN, &payload);
        assert(payload@ =~= seq![col.column, col.color]);
        let ghost before = r@;
        r.push(f);
        assert(frames_view(r@) =~= frames_view(before).push(f@));
        assert(frames_view(r@) =~= Seq::new((i + 1) as nat, |j: int| column_frame(*cols@[j])));
        i += 1;
    }
    r
}

/// One frame per row command, in order.
pub fn row_frames(rows: &[&ColorRow]) -> (r: Vec<Vec<u8>>)
    ensures
        frames_view(r@) == Seq::new(rows@.len(), |i: int| row_frame(*rows@[i])),
{
    let mut r: Vec<Vec<u8>> = Vec::new();
    let mut i: usize = 0;
    while i < rows.len()
        invariant
            i <= rows@.len(),
            frames_view(r@) == Seq::new(i as nat, |j: int| row_frame(*rows@[j])),
        decreases rows@.len() - i,
    {
        let row = rows[i];
        let payload: [u8; 2] = [row.row, row.color];
        let f = sysex_frame(OP_LIGHT_ROW, &payload);
        assert(payload@ =~= seq![row.row, row.color]);
        let ghost before = r@;
        r.push(f);
        assert(frames_view(r@) =~= frames_view(before).push(f@));
        assert(frames_view(r@) =~= Seq::new((i + 1) as nat, |j: int| row_frame(*rows@[j])));
        i += 1;
    }
    r
}

/// A device of the richer generation.
pub struct LaunchpadMk2 {
    pub session: Session,
}

impl LaunchpadMk2 {
    /// A session with nothing sent and nothing received.
    pub fn new() -> (r: LaunchpadMk2)
        ensures
            r.session.frames() == Seq::<Seq<u8>>::empty(),
            r.session.events() == Seq::<MidiEvent>::empty(),
    {
        LaunchpadMk2 { session: Session::new() }
    }

    /// Sets every LED to the same colour.
    pub fn light_all(&mut self, color: Color) -> (r: Result<(), LaunchpadError>)
        ensures
            r == (if is_color(color) { Ok(()) } else { Err(LaunchpadError::BadColor) }),
            r is Ok ==> final(self).session.frames() == old(self).session.frames().push(
                light_all_frame(color),
            ),
            r is Err ==> final(self).session.frames() == old(self).session.frames(),
            final(self).session.events() == old(self).session.events(),
    {
        if !valid_color(color) {
            return Err(LaunchpadError::BadColor);
        }
        let payload: [u8; 1] = [color];
        assert(payload@ =~= seq![color]);
        self.session.send(sysex_frame(OP_LIGHT_ALL, &payload));
        Ok(())
    }

    /// Sets one LED to flash, with the short three-byte message.
    pub fn flash_single(&mut self, led: &ColorLed) -> (r: Result<(), LaunchpadError>)
        ensures
            r == (match led_error(*led) {
                Some(e) => Err(e),
                None => Ok(()),
            }),
            r is Ok ==> final(self).session.frames() == old(self).session.frames().push(
                spec_short(FLASH, led.position, led.color),
            ),
            r is Err ==> final(self).session.frames() == old(self).session.frames(),
            final(self).session.events() == old(self).session.events(),
    {
        if !valid_led_position(led.position) {
            return Err(LaunchpadError::BadPosition);
        }
        if !valid_color(led.color) {
            return Err(LaunchpadError::BadColor);
        }
        self.session.send(short_frame(FLASH, led.position, led.color));
        Ok(())
    }

    /// Sets one LED to pulse, with the short three-byte message.
    pub fn pulse_single(&mut self, led: &ColorLed) -> (r: Result<(), LaunchpadError>)
        ensures
            r == (match led_error(*led) {
                Some(e) => Err(e),
                None => Ok(()),
            }),
            r is Ok ==> final(self).session.frames() == old(self).session.frames().push(
                spec_short(PULSE, led.position, led.color),
            ),
            r is Err ==> final(self).session.frames() == old(self).session.frames(),
            final(self).session.events() == old(self).session.events(),
    {
        if !valid_led_position(led.position) {
            return Err(LaunchpadError::BadPosition);
        }
        if !valid_color(led.color) {
            return Err(LaunchpadError::BadColor);
        }
        self.session.send(short_frame(PULSE, led.position, led.color));
        Ok(())
    }

    /// Sets LEDs to palette colours, one frame each, up to 80 at once. A
    /// single faulty LED, or too many, and nothing is sent.
    pub fn light_leds(&mut self, leds: &[&ColorLed]) -> (r: Result<(), LaunchpadError>)
        ensures
            r == batch_result(leds@.len(), MAX_LEDS as nat, led_checks(leds@)),
            r is Ok ==> final(self).session.frames() == old(self).session.frames() + Seq::new(
                leds@.len(),
                |i: int| led_frame(*leds@[i]),
            ),
            r is Err ==> final(self).session.frames() == old(self).session.frames(),
            final(self).session.events() == old(self).session.events(),
    {
        if leds.len() > MAX_LEDS {
            return Err(LaunchpadError::BadLength);
        }
        match check_leds(leds) {
            Some(e) => Err(e),
            None => {
                let frames = led_frames(leds);
                self.session.send_all(frames);
                Ok(())
            },
        }
    }

    /// Sets one LED to a palette colour.
    pub fn light_led(&mut self, led: &ColorLed) -> (r: Result<(), LaunchpadError>)
        ensures
            r == (match led_error(*led) {
                Some(e) => Err(e),
                None => Ok(()),
            }),
            r is Ok ==> final(self).session.frames() == old(self).session.frames().push(
                led_frame(*led),
            ),
            r is Err ==> final(self).session.frames() == old(self).session.frames(),
            final(self).session.events() == old(self).session.events(),
    {
        let leds: [&ColorLed; 1] = [led];
        proof {
            let checks = led_checks(leds@);
            assert(checks.drop_last() =~= Seq::<Option<LaunchpadError>>::empty());
            assert(first_error(checks.drop_last()) is None);
            assert(checks.last() == led_error(*led));
            assert(first_error(checks) == led_error(*led));
        }
        let r = self.light_leds(&leds);
        assert(Seq::new(leds@.len(), |i: int| led_frame(*leds@[i])) =~= seq![led_frame(*led)]);
        r
    }

    /// Lights columns, one frame each, up to 9 at once. A single faulty
    /// entry, or too many, and nothing is sent.
    pub fn light_columns(&mut self, cols: &[&ColorColumn]) -> (r: Result<(), LaunchpadError>)
        ensures
            r == batch_result(cols@.len(), MAX_LINES as nat, column_checks(cols@)),
            r is Ok ==> final(self).session.frames() == old(self).session.frames() + Seq::new(
                cols@.len(),
                |i: int| column_frame(*cols@[i]),
            ),
            r is Err ==> final(self).session.frames() == old(self).session.frames(),
            final(self).session.events() == old(self).session.events(),
    {
        if cols.len() > MAX_LINES {
            return Err(LaunchpadError::BadLength);
        }
        match check_columns(cols) {
            Some(e) => Err(e),
            None => {
                let frames = column_frames(cols);
                self.session.send_all(frames);
                Ok(())
            },
        }
    }

    /// Lights one column.
    pub fn light_column(&mut self, col: &ColorColumn) -> (r: Result<(), LaunchpadError>)
        ensures
            r == (match column_error(*col) {
                Some(e) => Err(e),
                None => Ok(()),
            }),
            r is Ok ==> final(self).session.frames() == old(self).session.frames().push(
                column_frame(*col),
            ),
            r is Err ==> final(self).session.frames() == old(self).session.frames(),
            final(self).session.events() == old(self).session.events(),
    {
        let cols: [&ColorColumn; 1] = [col];
        proof {
            let checks = column_checks(cols@);
            assert(checks.drop_last() =~= Seq::<Option<LaunchpadError>>::empty());
            assert(first_error(checks.drop_last()) is None);
            assert(checks.last() == column_error(*col));
            assert(first_error(checks) == column_error(*col));
        }
        let r = self.light_columns(&cols);
        assert(Seq::new(cols@.len(), |i: int| column_frame(*cols@[i])) =~= seq![
            column_frame(*col),
        ]);
        r
    }

    /// Lights rows, one frame each, up to 9 at once. A single faulty entry,
    /// or too many, and nothing is sent.
    pub fn light_rows(&mut self, rows: &[&ColorRow]) -> (r: Result<(), LaunchpadError>)
        ensures
            r == batch_result(rows@.len(), MAX_LINES as nat, row_checks(rows@)),
            r is Ok ==> final(self).session.frames() == old(self).session.frames() + Seq::new(
                rows@.len(),
                |i: int| row_frame(*rows@[i]),
            ),
            r is Err ==> final(self).session.frames() == old(self).session.frames(),
            final(self).session.events() == old(self).session.events(),
    {
        if rows.len() > MAX_LINES {
            return Err(LaunchpadError::BadLength);
        }
        match check_rows(rows) {
            Some(e) => Err(e),
            None => {
                let frames = row_frames(rows);
                self.session.send_all(frames);
                Ok(())
            },
        }
    }

    /// Lights one row.
    pub fn light_row(&mut self, row: &ColorRow) -> (r: Result<(), LaunchpadError>)
        ensures
            r == (match row_error(*row) {
                Some(e) => Err(e),
                None => Ok(()),
            }),
            r is Ok ==> final(self).session.frames() == old(self).session.frames().push(
                row_frame(*row),
            ),
            r is Err ==> final(self).session.frames() == old(self).session.frames(),
            final(self).session.events() == old(self).session.events(),
    {
        let rows: [&ColorRow; 1] = [row];
        proof {
            let checks = row_checks(rows@);
            assert(checks.drop_last() =~= Seq::<Option<LaunchpadError>>::empty());
            assert(first_error(checks.drop_last()) is None);
            assert(checks.last() == row_error(*row));
            assert(first_error(checks) == row_error(*row));
        }
        let r = self.light_rows(&rows);
        assert(Seq::new(rows@.len(), |i: int| row_frame(*rows@[i])) =~= seq![row_frame(*row)]);
        r
    }

    /// Starts scrolling `text` in one colour. Its bytes go out verbatim, so
    /// the speed markers 0x01 to 0x07 may be embedded. An empty text without
    /// looping stops a looping scroll.
    pub fn scroll_text(&mut self, color: Color, doloop: bool, text: &str) -> (r: Result<
        (),
        LaunchpadError,
    >)
        ensures
            r == (if is_color(color) { Ok(()) } else { Err(LaunchpadError::BadColor) }),
            r is Ok ==> final(self).session.frames() == old(self).session.frames().push(
                scroll_frame(color, doloop, text.spec_bytes()),
            ),
            r is Err ==> final(self).session.frames() == old(self).session.frames(),
            final(self).session.events() == old(self).session.events(),
    {
        if !valid_color(color) {
            return Err(LaunchpadError::BadColor);
        }
        let flag: u8 = if doloop { 1 } else { 0 };
        let mut payload: Vec<u8> = vec![color, flag];
        append_bytes(&mut payload, text.as_bytes());
        assert(payload@ =~= seq![color, if doloop { 1u8 } else { 0u8 }] + text.spec_bytes());
        self.session.send(sysex_frame(OP_SCROLL_TEXT, payload.as_slice()));
        Ok(())
    }

    /// Takes every event received since the last poll, oldest first.
    pub fn poll(&mut self) -> (r: Option<Vec<MidiEvent>>)
        ensures
            final(self).session.events() == Seq::<MidiEvent>::empty(),
            final(self).session.frames() == old(self).session.frames(),
            old(self).session.events().len() == 0 ==> r is None,
            old(self).session.events().len() > 0 ==> r is Some && r.unwrap()@
                == old(self).session.events(),
    {
        self.session.poll()
    }
}

} // verus!
