//! Byte frames of the two device generations.
use vstd::prelude::*;

use crate::events::MidiMessage;

verus! {

/// The status byte of a control-change message on the first channel.
pub const CONTROL: u8 = 0xB0;
/// Opens a system-exclusive frame.
pub const SYSEX_START: u8 = 0xF0;
/// Closes a system-exclusive frame.
pub const SYSEX_END: u8 = 0xF7;
/// Status byte of the flashing single-LED message.
pub const FLASH: u8 = 0x91;
/// Status byte of the pulsing single-LED message, also used for rapid grid updates.
pub const PULSE: u8 = 0x92;

/// Opcode that floods every LED with one colour.
pub const OP_LIGHT_ALL: u8 = 0x0E;
/// Opcode that lights one LED.
pub const OP_LIGHT_LED: u8 = 0x0A;
/// Opcode that lights a column.
pub const OP_LIGHT_COLUMN: u8 = 0x0C;
/// Opcode that lights a row.
pub const OP_LIGHT_ROW: u8 = 0x0D;
/// Opcode that scrolls text.
pub const OP_SCROLL_TEXT: u8 = 0x14;

/// The manufacturer and device prefix of every system-exclusive frame.
pub open spec fn sysex_header() -> Seq<u8> {
    seq![SYSEX_START, 0x00u8, 0x20u8, 0x29u8, 0x02u8, 0x18u8]
}

/// A system-exclusive frame: header, opcode, payload, terminator.
pub open spec fn spec_sysex(op: u8, payload: Seq<u8>) -> Seq<u8> {
    sysex_header().push(op) + payload + seq![SYSEX_END]
}

/// A short three-byte frame.
pub open spec fn spec_short(status: u8, data1: u8, data2: u8) -> Seq<u8> {
    seq![status, data1, data2]
}

/// The contents of a list of frames.
pub open spec fn frames_view(v: Seq<Vec<u8>>) -> Seq<Seq<u8>> {
    v.map_values(|f: Vec<u8>| f@)
}

/// Appends the bytes of `src` to `dst`.
pub fn append_bytes(dst: &mut Vec<u8>, src: &[u8])
    ensures
        final(dst)@ == old(dst)@ + src@,
{
    let mut i: usize = 0;
    while i < src.len()
        invariant
            i <= src@.len(),
            dst@ == old(dst)@ + src@.take(i as int),
        decreases src@.len() - i,
    {
        dst.push(src[i]);
        assert(src@.take(i + 1) =~= src@.take(i as int).push(src@[i as int]));
        assert(old(dst)@ + src@.take(i + 1) =~= (old(dst)@ + src@.take(i as int)).push(src@[i as int]));
        i += 1;
    }
    assert(src@.take(i as int) =~= src@);
}

/// Builds a system-exclusive frame.
pub fn sysex_frame(op: u8, payload: &[u8]) -> (r: Vec<u8>)
    ensures
        r@ == spec_sysex(op, payload@),
{
    let mut r: Vec<u8> = vec![SYSEX_START, 0x00, 0x20, 0x29, 0x02, 0x18, op];
    assert(r@ =~= sysex_header().push(op));
    append_bytes(&mut r, payload);
    r.push(SYSEX_END);
    assert(r@ =~= spec_sysex(op, payload@));
    r
}

/// Builds a three-byte frame.
pub fn short_frame(status: u8, data1: u8, data2: u8) -> (r: Vec<u8>)
    ensures
        r@ == spec_short(status, data1, data2),
{
    let r = vec![status, data1, data2];
    assert(r@ =~= spec_short(status, data1, data2));
    r
}

/// The message that a short frame carries.
pub open spec fn spec_parse_short(frame: Seq<u8>) -> Option<MidiMessage> {
    if frame.len() == 3 {
        Some(MidiMessage { status: frame[0], data1: frame[1], data2: frame[2] })
    } else {
        None
    }
}

/// Reads a short frame back into the message it carries.
pub fn parse_short(frame: &[u8]) -> (r: Option<MidiMessage>)
    ensures
        r == spec_parse_short(frame@),
{
    if frame.len() == 3 {
        Some(MidiMessage { status: frame[0], data1: frame[1], data2: frame[2] })
    } else {
        None
    }
}

/// An opcode and payload read back from a system-exclusive frame.
pub open spec fn spec_parse_sysex(frame: Seq<u8>) -> Option<(u8, Seq<u8>)> {
    if frame.len() >= 8 && frame.take(6) == sysex_header() && frame.last() == SYSEX_END {
        Some((frame[6], frame.subrange(7, frame.len() - 1)))
    } else {
        None
    }
}

/// Reads a system-exclusive frame back into its opcode and payload, or
/// `None` if the bytes do not form one.
pub fn parse_sysex(frame: &[u8]) -> (r: Option<(u8, Vec<u8>)>)
    ensures
        r matches Some(p) ==> spec_parse_sysex(frame@) == Some((p.0, p.1@)),
        r is None ==> spec_parse_sysex(frame@) is None,
{
    let n = frame.len();
    if n < 8 {
        return None;
    }
    if frame[0] != SYSEX_START || frame[1] != 0x00 || frame[2] != 0x20 || frame[3] != 0x29
        || frame[4] != 0x02 || frame[5] != 0x18 || frame[n - 1] != SYSEX_END {
        proof {
            if frame@.take(6) == sysex_header() {
                assert(frame@.take(6)[0] == frame@[0]);
                assert(frame@.take(6)[1] == frame@[1]);
                assert(frame@.take(6)[2] == frame@[2]);
                assert(frame@.take(6)[3] == frame@[3]);
                assert(frame@.take(6)[4] == frame@[4]);
                assert(frame@.take(6)[5] == frame@[5]);
            }
        }
        return None;
    }
    assert(frame@.take(6) =~= sysex_header());
    let mut payload: Vec<u8> = Vec::new();
    let mut i: usize = 7;
    while i < n - 1
        invariant
            n == frame@.len(),
            n >= 8,
            7 <= i <= n - 1,
            payload@ == frame@.subrange(7, i as int),
        decreases n - 1 - i,
    {
        payload.push(frame[i]);
        assert(frame@.subrange(7, i + 1) =~= frame@.subrange(7, i as int).push(frame@[i as int]));
        i += 1;
    }
    Some((frame[6], payload))
}

/// Reading a system-exclusive frame gives back the opcode and payload it was built from.
pub proof fn lemma_sysex_round_trip(op: u8, payload: Seq<u8>)
    ensures
        spec_parse_sysex(spec_sysex(op, payload)) == Some((op, payload)),
{
    let f = spec_sysex(op, payload);
    assert(f.take(6) =~= sysex_header());
    assert(f.subrange(7, f.len() - 1) =~= payload);
}

/// Reading a short frame gives back the message it was built from.
pub proof fn lemma_short_round_trip(m: MidiMessage)
    ensures
        spec_parse_short(spec_short(m.status, m.data1, m.data2)) == Some(m),
{
}

} // verus!
