//! Identifiers for persisted objects (profiles, macros, snapshots): UUIDs
//! held as their 128-bit value, drawn by the caller.

use vstd::prelude::*;

verus! {

/// Lower-case hexadecimal digit for `d` (0..=15).
pub open spec fn hex_char(d: u128) -> char {
    if d < 10 {
        ((d + 48) as u8) as char
    } else {
        ((d + 87) as u8) as char
    }
}

/// The `k`-th hex digit of `id`, most significant first (`k` in 0..32).
pub open spec fn nibble(id: u128, k: int) -> u128 {
    (id >> ((124 - 4 * k) as u128)) & 15
}

/// Position `i` of the hyphenated text `xxxxxxxx-xxxx-xxxx-xxxx-xxxxxxxxxxxx`.
pub open spec fn id_text_char(id: u128, i: int) -> char {
    if i == 8 || i == 13 || i == 18 || i == 23 {
        '-'
    } else {
        let skipped: int = if i < 8 { 0 } else if i < 13 { 1 } else if i < 18 { 2 } else if i < 23 { 3 } else { 4 };
        hex_char(nibble(id, i - skipped))
    }
}

/// The canonical hyphenated lower-case text of a UUID value (as
/// `uuid::Uuid`'s `Display`).
pub open spec fn spec_id_text(id: u128) -> Seq<char> {
    Seq::new(36, |i: int| id_text_char(id, i))
}

/// Hyphenated lower-case text of a UUID value.
pub fn id_text(id: u128) -> (s: Vec<char>)
    ensures
        s@ == spec_id_text(id),
{
    let mut out: Vec<char> = Vec::new();
    let mut i: u32 = 0;
    while i < 36
        invariant
            i <= 36,
            out@ =~= Seq::new(i as nat, |j: int| id_text_char(id, j)),
        decreases 36 - i,
    {
        if i == 8 || i == 13 || i == 18 || i == 23 {
            out.push('-');
        } else {
            let skipped: u32 = if i < 8 { 0 } else if i < 13 { 1 } else if i < 18 { 2 } else if i < 23 { 3 } else { 4 };
            let k: u32 = i - skipped;
            let shift: u32 = 124 - 4 * k;
            let d: u128 = (id >> shift) & 15;
            assert(d < 16) by (bit_vector)
                requires
                    d == (id >> shift) & 15,
            ;
            let c = if d < 10 { ((d as u8) + 48) as char } else { ((d as u8) + 87) as char };
            proof {
                assert(nibble(id, k as int) == d);
            }
            out.push(c);
        }
        i = i + 1;
    }
    out
}

} // verus!
