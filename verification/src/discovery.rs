//! Discovery decisions: which scanned peripheral to use, which of its
//! characteristics is the command characteristic, and the parsing of the
//! configured characteristic identifier from its hyphenated text form.
//! The BLE transport itself performs the scan and hands the advertised
//! names and characteristic identifiers in as plain byte values.

use vstd::prelude::*;

verus! {

/// `needle` occurs in `hay` starting at position `i`.
pub open spec fn is_match_at(hay: Seq<u8>, needle: Seq<u8>, i: int) -> bool {
    &&& 0 <= i
    &&& i + needle.len() <= hay.len()
    &&& hay.subrange(i, i + needle.len()) == needle
}

/// `needle` occurs somewhere in `hay`.
pub open spec fn spec_contains(hay: Seq<u8>, needle: Seq<u8>) -> bool {
    exists|i: int| is_match_at(hay, needle, i)
}

/// Compares `needle` against the bytes of `hay` starting at `i`.
fn match_at(hay: &Vec<u8>, needle: &Vec<u8>, i: usize) -> (r: bool)
    requires
        i + needle@.len() <= hay@.len(),
    ensures
        r == is_match_at(hay@, needle@, i as int),
{
    let n = hay.len();
    let mut j: usize = 0;
    while j < needle.len()
        invariant
            n == hay@.len(),
            i + needle@.len() <= hay@.len(),
            j <= needle@.len(),
            forall|k: int| 0 <= k < j ==> hay@[i + k] == needle@[k],
        decreases needle@.len() - j,
    {
        if hay[i + j] != needle[j] {
            proof {
                let s = hay@.subrange(i as int, i + needle@.len());
                assert(s[j as int] == hay@[i + j]);
            }
            return false;
        }
        j = j + 1;
    }
    proof {
        assert(hay@.subrange(i as int, i + needle@.len()) =~= needle@);
    }
    true
}

/// Substring search over byte strings: true iff `needle` occurs whole and
/// contiguous somewhere in `hay`.  An empty `needle` occurs in anything.
pub fn contains_subsequence(hay: &Vec<u8>, needle: &Vec<u8>) -> (r: bool)
    ensures
        r == spec_contains(hay@, needle@),
{
    if needle.len() > hay.len() {
        return false;
    }
    if needle.len() == 0 {
        proof {
            assert(hay@.subrange(0, 0) =~= needle@);
            assert(is_match_at(hay@, needle@, 0));
        }
        return true;
    }
    let n = hay.len();
    let bound: usize = n - needle.len();
    let mut i: usize = 0;
    while i <= bound
        invariant
            n == hay@.len(),
            1 <= needle@.len() <= hay@.len(),
            bound == hay@.len() - needle@.len(),
            i <= bound + 1,
            forall|ii: int| 0 <= ii < i ==> !is_match_at(hay@, needle@, ii),
        decreases bound + 1 - i,
    {
        if match_at(hay, needle, i) {
            return true;
        }
        i = i + 1;
    }
    false
}

/// An advertised name matches when it is present at all and holds the
/// configured target as a substring.
pub open spec fn entry_matches(entry: Option<Vec<u8>>, target: Seq<u8>) -> bool {
    match entry {
        Some(name) => spec_contains(name@, target),
        None => false,
    }
}

/// Picks the first scanned peripheral whose advertised name holds the
/// configured target as a substring; `None` exactly when no peripheral
/// matches.  `names` holds one entry per peripheral, in scan order, with
/// `None` for a peripheral that advertised no name.
pub fn select_peripheral(names: &Vec<Option<Vec<u8>>>, target: &Vec<u8>) -> (r: Option<usize>)
    ensures
        match r {
            Some(i) => i < names@.len() && entry_matches(names@[i as int], target@) && forall|
                j: int,
            | 0 <= j < i ==> !entry_matches(names@[j], target@),
            None => forall|j: int| 0 <= j < names@.len() ==> !entry_matches(names@[j], target@),
        },
{
    let mut i: usize = 0;
    while i < names.len()
        invariant
            i <= names@.len(),
            forall|j: int| 0 <= j < i ==> !entry_matches(names@[j], target@),
        decreases names@.len() - i,
    {
        let matched = match &names[i] {
            Some(name) => contains_subsequence(name, target),
            None => false,
        };
        if matched {
            return Some(i);
        }
        i = i + 1;
    }
    None
}

/// Two byte strings hold the same bytes.
pub fn bytes_equal(a: &Vec<u8>, b: &Vec<u8>) -> (r: bool)
    ensures
        r == (a@ == b@),
{
    if a.len() != b.len() {
        return false;
    }
    let mut i: usize = 0;
    while i < a.len()
        invariant
            a@.len() == b@.len(),
            i <= a@.len(),
            forall|j: int| 0 <= j < i ==> a@[j] == b@[j],
        decreases a@.len() - i,
    {
        if a[i] != b[i] {
            return false;
        }
        i = i + 1;
    }
    proof {
        assert(a@ =~= b@);
    }
    true
}

/// Picks the first characteristic whose 16-byte identifier equals the
/// configured one; `None` exactly when none does.  `uuids` holds the
/// identifiers of the discovered characteristics, in discovery order.
pub fn select_characteristic(uuids: &Vec<Vec<u8>>, target: &Vec<u8>) -> (r: Option<usize>)
    ensures
        match r {
            Some(i) => i < uuids@.len() && uuids@[i as int]@ == target@ && forall|j: int|
                0 <= j < i ==> uuids@[j]@ != target@,
            None => forall|j: int| 0 <= j < uuids@.len() ==> uuids@[j]@ != target@,
        },
{
    let mut i: usize = 0;
    while i < uuids.len()
        invariant
            i <= uuids@.len(),
            forall|j: int| 0 <= j < i ==> uuids@[j]@ != target@,
        decreases uuids@.len() - i,
    {
        if bytes_equal(&uuids[i], target) {
            return Some(i);
        }
        i = i + 1;
    }
    None
}

/// A byte is an ASCII hex digit, either case.
pub open spec fn is_hex_digit(b: u8) -> bool {
    ||| 0x30 <= b <= 0x39
    ||| 0x61 <= b <= 0x66
    ||| 0x41 <= b <= 0x46
}

/// The value of an ASCII hex digit.
pub open spec fn hex_val(b: u8) -> u8
    recommends
        is_hex_digit(b),
{
    if 0x30 <= b <= 0x39 {
        (b - 0x30) as u8
    } else if 0x61 <= b <= 0x66 {
        (b - 0x57) as u8
    } else {
        (b - 0x37) as u8
    }
}

/// Position of the `k`-th hex digit in the 36-byte hyphenated form: the
/// digits sit in groups of 8, 4, 4, 4 and 12, one hyphen between groups.
pub open spec fn digit_pos(k: int) -> int {
    k + (if k >= 8 {
        1int
    } else {
        0int
    }) + (if k >= 12 {
        1int
    } else {
        0int
    }) + (if k >= 16 {
        1int
    } else {
        0int
    }) + (if k >= 20 {
        1int
    } else {
        0int
    })
}

/// The text is a well-formed hyphenated identifier: 36 bytes, hyphens at
/// positions 8, 13, 18 and 23, hex digits everywhere else.
pub open spec fn valid_hyphenated_uuid(s: Seq<u8>) -> bool {
    &&& s.len() == 36
    &&& s[8] == 0x2D
    &&& s[13] == 0x2D
    &&& s[18] == 0x2D
    &&& s[23] == 0x2D
    &&& forall|k: int| 0 <= k < 32 ==> is_hex_digit(s[#[trigger] digit_pos(k)])
}

/// Byte `k` of the parsed identifier: its two hex digits, high first.
pub open spec fn spec_uuid_byte(s: Seq<u8>, k: int) -> u8 {
    (hex_val(s[digit_pos(2 * k)]) * 16 + hex_val(s[digit_pos(2 * k + 1)])) as u8
}

/// Decodes one ASCII hex digit; `None` exactly on a non-digit.
fn hex_digit_value(b: u8) -> (r: Option<u8>)
    ensures
        r matches Some(v) ==> is_hex_digit(b) && v == hex_val(b),
        r is None ==> !is_hex_digit(b),
{
    if 0x30 <= b && b <= 0x39 {
        Some(b - 0x30)
    } else if 0x61 <= b && b <= 0x66 {
        Some(b - 0x57)
    } else if 0x41 <= b && b <= 0x46 {
        Some(b - 0x37)
    } else {
        None
    }
}

/// Computes `digit_pos` on a machine integer.
fn digit_index(k: usize) -> (r: usize)
    requires
        k < 32,
    ensures
        r as int == digit_pos(k as int),
        r < 36,
{
    let mut r = k;
    if k >= 8 {
        r = r + 1;
    }
    if k >= 12 {
        r = r + 1;
    }
    if k >= 16 {
        r = r + 1;
    }
    if k >= 20 {
        r = r + 1;
    }
    r
}

/// Parses a characteristic identifier from its canonical hyphenated text
/// form (ASCII, either digit case) into its 16 bytes, most significant
/// first.  Returns `None` exactly when the text is not in that form.
pub fn parse_uuid_hyphenated(text: &Vec<u8>) -> (r: Option<Vec<u8>>)
    ensures
        r is Some <==> valid_hyphenated_uuid(text@),
        r matches Some(bytes) ==> bytes@.len() == 16 && forall|k: int|
            0 <= k < 16 ==> bytes@[k] == spec_uuid_byte(text@, k),
{
    if text.len() != 36 {
        return None;
    }
    if !(text[8] == 0x2D && text[13] == 0x2D && text[18] == 0x2D && text[23] == 0x2D) {
        return None;
    }
    let mut bytes: Vec<u8> = Vec::new();
    let mut k: usize = 0;
    while k < 16
        invariant
            text@.len() == 36,
            text@[8] == 0x2D,
            text@[13] == 0x2D,
            text@[18] == 0x2D,
            text@[23] == 0x2D,
            k <= 16,
            bytes@.len() == k,
            forall|m: int| 0 <= m < k ==> bytes@[m] == spec_uuid_byte(text@, m),
            forall|d: int| 0 <= d < 2 * k ==> is_hex_digit(text@[#[trigger] digit_pos(d)]),
        decreases 16 - k,
    {
        let hi_idx = digit_index(2 * k);
        let lo_idx = digit_index(2 * k + 1);
        let hi = match hex_digit_value(text[hi_idx]) {
            Some(v) => v,
            None => {
                proof {
                    assert(!is_hex_digit(text@[digit_pos(2 * k as int)]));
                }
                return None;
            },
        };
        let lo = match hex_digit_value(text[lo_idx]) {
            Some(v) => v,
            None => {
                proof {
                    assert(!is_hex_digit(text@[digit_pos(2 * k as int + 1)]));
                }
                return None;
            },
        };
        proof {
            assert(hi <= 15 && lo <= 15);
        }
        bytes.push(hi * 16 + lo);
        proof {
            assert(bytes@[k as int] == spec_uuid_byte(text@, k as int));
            assert(forall|d: int| 0 <= d < 2 * (k + 1) ==> is_hex_digit(
                text@[#[trigger] digit_pos(d)],
            ));
        }
        k = k + 1;
    }
    Some(bytes)
}

} // verus!
