//! The key codes and scan codes that SDL defines. A key event that carries
//! any other number reports the code 0, `Unknown`.

use vstd::prelude::*;

verus! {

/// The bit that SDL sets in the key code of a key that has no character:
/// such a key code is the key's scan code with this bit set.
pub const SCANCODE_MASK: i32 = 0x40000000;

/// Whether SDL defines a key code for the key with scan code `s` as that
/// scan code with [`SCANCODE_MASK`] set.
pub open spec fn is_scan_code_key(s: int) -> bool {
    ||| 57 <= s <= 75
    ||| 77 <= s <= 99
    ||| 101 <= s <= 129
    ||| s == 133
    ||| s == 134
    ||| 153 <= s <= 164
    ||| 176 <= s <= 221
    ||| 224 <= s <= 231
    ||| 257 <= s <= 282
}

/// Whether SDL defines the key code `k`: unknown (0), backspace, tab,
/// return, escape, the printable characters from space to `@` and from
/// `[` to `z`, delete, and the keys named by their scan code.
pub open spec fn is_sdl_key_code(k: i32) -> bool {
    ||| k == 0
    ||| k == 8
    ||| k == 9
    ||| k == 13
    ||| k == 27
    ||| 32 <= k <= 64
    ||| 91 <= k <= 122
    ||| k == 127
    ||| (k >= SCANCODE_MASK && is_scan_code_key(k - SCANCODE_MASK))
}

/// Whether SDL defines the scan code `s`.
pub open spec fn is_sdl_scan_code(s: u32) -> bool {
    ||| s == 0
    ||| 4 <= s <= 129
    ||| 133 <= s <= 164
    ||| 176 <= s <= 221
    ||| 224 <= s <= 231
    ||| 257 <= s <= 284
    ||| s == 512
}

/// The key code reported for the number `k` in a key event: `k` where SDL
/// defines it, else 0 (`Unknown`).
pub open spec fn spec_key_code(k: i32) -> i32 {
    if is_sdl_key_code(k) {
        k
    } else {
        0
    }
}

/// The scan code reported for the number `s` in a key event: `s` where
/// SDL defines it, else 0 (`Unknown`).
pub open spec fn spec_scan_code(s: u32) -> u32 {
    if is_sdl_scan_code(s) {
        s
    } else {
        0
    }
}

/// Whether SDL defines a key code for scan code `s` (see
/// [`is_scan_code_key`]).
fn scan_code_key(s: i32) -> (b: bool)
    ensures
        b == is_scan_code_key(s as int),
{
    (57 <= s && s <= 75) || (77 <= s && s <= 99) || (101 <= s && s <= 129) || s == 133 || s
        == 134 || (153 <= s && s <= 164) || (176 <= s && s <= 221) || (224 <= s && s <= 231)
        || (257 <= s && s <= 282)
}

/// The key code reported for the number `k` in a key event.
pub fn key_code(k: i32) -> (r: i32)
    ensures
        r == spec_key_code(k),
{
    let known = k == 0 || k == 8 || k == 9 || k == 13 || k == 27 || (32 <= k && k <= 64) || (91
        <= k && k <= 122) || k == 127 || (k >= SCANCODE_MASK && scan_code_key(k - SCANCODE_MASK));
    if known {
        k
    } else {
        0
    }
}

/// The scan code reported for the number `s` in a key event.
pub fn scan_code(s: u32) -> (r: u32)
    ensures
        r == spec_scan_code(s),
{
    let known = s == 0 || (4 <= s && s <= 129) || (133 <= s && s <= 164) || (176 <= s && s <= 221)
        || (224 <= s && s <= 231) || (257 <= s && s <= 284) || s == 512;
    if known {
        s
    } else {
        0
    }
}

/// A code reported for a key event is always one that SDL defines, and a
/// code that SDL defines is reported unchanged.
pub proof fn lemma_reported_codes_are_defined(k: i32, s: u32)
    ensures
        is_sdl_key_code(spec_key_code(k)),
        is_sdl_scan_code(spec_scan_code(s)),
        is_sdl_key_code(k) ==> spec_key_code(k) == k,
        is_sdl_scan_code(s) ==> spec_scan_code(s) == s,
{
}

} // verus!
