//! Picking a device's ports out of the names that the system reports.
use vstd::prelude::*;
use vstd::string::StringSliceAdditionalSpecFns;
use vstd::utf8::encode_utf8;

use crate::error::LaunchpadError;

verus! {

/// Port name looked for to find the simpler device.
pub const MINI_NAME: &'static str = "Launchpad Mini";
/// Port name looked for to find the richer device.
pub const MK2_NAME: &'static str = "Launchpad MK2";

/// `needle` occurs in `hay` as a contiguous run of bytes.
pub open spec fn bytes_contain(hay: Seq<u8>, needle: Seq<u8>) -> bool {
    exists|i: int|
        0 <= i && i + needle.len() <= hay.len() && #[trigger] hay.subrange(i, i + needle.len())
            == needle
}

/// A port name contains the expected text (case-sensitive).
pub open spec fn name_matches(name: Seq<char>, expected: Seq<char>) -> bool {
    bytes_contain(encode_utf8(name), encode_utf8(expected))
}

/// No name in the list contains the expected text.
pub open spec fn no_match(names: Seq<String>, expected: Seq<char>) -> bool {
    forall|j: int| 0 <= j < names.len() ==> !name_matches(#[trigger] names[j]@, expected)
}

/// `k` is the first name in the list that contains the expected text.
pub open spec fn is_first_match(names: Seq<String>, expected: Seq<char>, k: int) -> bool {
    &&& 0 <= k < names.len()
    &&& name_matches(names[k]@, expected)
    &&& forall|j: int| 0 <= j < k ==> !name_matches(#[trigger] names[j]@, expected)
}

/// The bytes of `needle` stand in `hay` from `start` on.
fn matches_at(hay: &[u8], needle: &[u8], start: usize) -> (r: bool)
    requires
        start + needle@.len() <= hay@.len(),
    ensures
        r == (hay@.subrange(start as int, start + needle@.len()) == needle@),
{
    let hay_len = hay.len();
    let mut j: usize = 0;
    while j < needle.len()
        invariant
            hay_len == hay@.len(),
            start + needle@.len() <= hay@.len(),
            j <= needle@.len(),
            forall|k: int| 0 <= k < j ==> hay@[start + k] == needle@[k],
        decreases needle@.len() - j,
    {
        if hay[start + j] != needle[j] {
            assert(hay@.subrange(start as int, start + needle@.len())[j as int] != needle@[j as int]);
            return false;
        }
        j += 1;
    }
    assert(hay@.subrange(start as int, start + needle@.len()) =~= needle@);
    true
}

/// Whether `name` contains `expected`, compared byte by byte.
pub fn name_contains(name: &str, expected: &str) -> (r: bool)
    ensures
        r == name_matches(name@, expected@),
{
    let hay = name.as_bytes();
    let needle = expected.as_bytes();
    assert(hay@ == encode_utf8(name@));
    assert(needle@ == encode_utf8(expected@));
    if needle.len() > hay.len() {
        return false;
    }
    let last: usize = hay.len() - needle.len();
    let mut i: usize = 0;
    loop
        invariant
            last + needle@.len() == hay@.len(),
            hay@ == encode_utf8(name@),
            needle@ == encode_utf8(expected@),
            i <= last,
            forall|k: int|
                0 <= k < i ==> #[trigger] hay@.subrange(k, k + needle@.len()) != needle@,
        decreases last - i,
    {
        if matches_at(hay, needle, i) {
            assert(hay@.subrange(i as int, i + needle@.len()) == needle@);
            return true;
        }
        if i == last {
            return false;
        }
        i += 1;
    }
}

/// The index of the first name that contains `expected`, or `None`.
pub fn find_port(names: &Vec<String>, expected: &str) -> (r: Option<usize>)
    ensures
        r matches Some(k) ==> is_first_match(names@, expected@, k as int),
        r is None ==> no_match(names@, expected@),
{
    let mut i: usize = 0;
    while i < names.len()
        invariant
            i <= names@.len(),
            forall|j: int| 0 <= j < i ==> !name_matches(#[trigger] names@[j]@, expected@),
        decreases names@.len() - i,
    {
        if name_contains(names[i].as_str(), expected) {
            return Some(i);
        }
        i += 1;
    }
    None
}

/// Picks the first input and the first output port whose names contain
/// `expected`. The two lists are searched independently; if either has no
/// match, no pair is returned.
pub fn guess_ports(inputs: &Vec<String>, outputs: &Vec<String>, expected: &str) -> (r: Result<
    (usize, usize),
    LaunchpadError,
>)
    ensures
        r matches Ok((a, b)) ==> is_first_match(inputs@, expected@, a as int) && is_first_match(
            outputs@,
            expected@,
            b as int,
        ),
        r == Err::<(usize, usize), LaunchpadError>(LaunchpadError::InputNotFound) <==> no_match(
            inputs@,
            expected@,
        ),
        r == Err::<(usize, usize), LaunchpadError>(LaunchpadError::OutputNotFound) <==> (!no_match(
            inputs@,
            expected@,
        ) && no_match(outputs@, expected@)),
        r is Err ==> r == Err::<(usize, usize), LaunchpadError>(LaunchpadError::InputNotFound)
            || r == Err::<(usize, usize), LaunchpadError>(LaunchpadError::OutputNotFound),
{
    let input = match find_port(inputs, expected) {
        Some(a) => a,
        None => {
            return Err(LaunchpadError::InputNotFound);
        },
    };
    let output = match find_port(outputs, expected) {
        Some(b) => b,
        None => {
            return Err(LaunchpadError::OutputNotFound);
        },
    };
    Ok((input, output))
}

} // verus!
