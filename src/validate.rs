//! Range checks on positions, palette colours, rows and columns.
use vstd::prelude::*;

use crate::error::LaunchpadError;

verus! {

/// The addressable LED positions: row `r` in 1..=8 and column `c` in 1..=9
/// packed as `10 * r + c`, plus the top control buttons 104..=111.
pub open spec fn is_led_position(p: u8) -> bool {
    (11 <= p <= 19) || (21 <= p <= 29) || (31 <= p <= 39) || (41 <= p <= 49) || (51 <= p <= 59)
        || (61 <= p <= 69) || (71 <= p <= 79) || (81 <= p <= 89) || (104 <= p <= 111)
}

/// A palette index is at most 127.
pub open spec fn is_color(c: u8) -> bool {
    c <= 127
}

/// Column indices of column commands run from 0 to 8.
pub open spec fn is_column(c: u8) -> bool {
    c <= 8
}

/// Row indices of row commands run from 0 to 8.
pub open spec fn is_row(r: u8) -> bool {
    r <= 8
}

pub fn valid_led_position(p: u8) -> (r: bool)
    ensures
        r == is_led_position(p),
{
    match p {
        11..=19 => true,
        21..=29 => true,
        31..=39 => true,
        41..=49 => true,
        51..=59 => true,
        61..=69 => true,
        71..=79 => true,
        81..=89 => true,
        104..=111 => true,
        _ => false,
    }
}

pub fn valid_color(c: u8) -> (r: bool)
    ensures
        r == is_color(c),
{
    c <= 127
}

pub fn valid_column(c: u8) -> (r: bool)
    ensures
        r == is_column(c),
{
    c <= 8
}

pub fn valid_row(r: u8) -> (res: bool)
    ensures
        res == is_row(r),
{
    r <= 8
}

/// Accepts a valid LED position, rejects any other with `BadPosition`.
pub fn assert_position(pos: u8) -> (r: Result<(), LaunchpadError>)
    ensures
        r == (if is_led_position(pos) { Ok(()) } else { Err(LaunchpadError::BadPosition) }),
{
    if valid_led_position(pos) {
        Ok(())
    } else {
        Err(LaunchpadError::BadPosition)
    }
}

/// Accepts a palette colour, rejects any other value with `BadColor`.
pub fn assert_color(clr: u8) -> (r: Result<(), LaunchpadError>)
    ensures
        r == (if is_color(clr) { Ok(()) } else { Err(LaunchpadError::BadColor) }),
{
    if valid_color(clr) {
        Ok(())
    } else {
        Err(LaunchpadError::BadColor)
    }
}

/// Accepts a column index, rejects any other value with `BadColumn`.
pub fn assert_column(col: u8) -> (r: Result<(), LaunchpadError>)
    ensures
        r == (if is_column(col) { Ok(()) } else { Err(LaunchpadError::BadColumn) }),
{
    if valid_column(col) {
        Ok(())
    } else {
        Err(LaunchpadError::BadColumn)
    }
}

/// Accepts a row index, rejects any other value with `BadRow`.
pub fn assert_row(row: u8) -> (r: Result<(), LaunchpadError>)
    ensures
        r == (if is_row(row) { Ok(()) } else { Err(LaunchpadError::BadRow) }),
{
    if valid_row(row) {
        Ok(())
    } else {
        Err(LaunchpadError::BadRow)
    }
}

} // verus!

verus! {

/// The first error in a sequence of per-element checks, or `None` if every
/// element passed.
pub open spec fn first_error(s: Seq<Option<LaunchpadError>>) -> Option<LaunchpadError>
    decreases s.len(),
{
    if s.len() == 0 {
        None
    } else if first_error(s.drop_last()) is Some {
        first_error(s.drop_last())
    } else {
        s.last()
    }
}

/// The outcome of a batch: too long a batch is refused as a whole, otherwise
/// the first element that fails its check decides.
pub open spec fn batch_result(len: nat, max: nat, checks: Seq<Option<LaunchpadError>>) -> Result<
    (),
    LaunchpadError,
> {
    if len > max {
        Err(LaunchpadError::BadLength)
    } else {
        match first_error(checks) {
            Some(e) => Err(e),
            None => Ok(()),
        }
    }
}

/// Once a prefix holds an error, the whole sequence has that first error.
pub proof fn lemma_first_error_prefix(s: Seq<Option<LaunchpadError>>, k: int)
    requires
        0 <= k <= s.len(),
        first_error(s.take(k)) is Some,
    ensures
        first_error(s) == first_error(s.take(k)),
    decreases s.len() - k,
{
    if s.len() > k {
        assert(s.drop_last().take(k) =~= s.take(k));
        lemma_first_error_prefix(s.drop_last(), k);
    } else {
        assert(s.take(k) =~= s);
    }
}

/// One more passing element keeps a passing prefix passing; one more failing
/// element makes it the first error.
pub proof fn lemma_first_error_step(s: Seq<Option<LaunchpadError>>, i: int)
    requires
        0 <= i < s.len(),
        first_error(s.take(i)) is None,
    ensures
        first_error(s.take(i + 1)) == s[i],
{
    assert(s.take(i + 1).drop_last() =~= s.take(i));
}

/// Positions in the gaps between the addressable bands, and past both ends,
/// are not LED positions.
pub proof fn lemma_position_gaps(p: u8)
    requires
        p <= 10 || p == 20 || p == 90 || 100 <= p <= 103 || p >= 112,
    ensures
        !is_led_position(p),
{
}

/// Read as digits: a grid position has a row digit from 1 to 8 and a
/// column digit from 1 to 9; the control buttons run from 104 to 111.
pub proof fn lemma_position_digits(p: u8)
    ensures
        is_led_position(p) <==> ((1 <= p / 10 <= 8 && p % 10 != 0) || (104 <= p <= 111)),
{
}

/// Every palette index up to 127 is a colour and nothing above it is.
pub proof fn lemma_color_bound(c: u8)
    ensures
        is_color(c) <==> c <= 127,
        c >= 128 ==> !is_color(c),
{
}

} // verus!
