//! Minimal EDID 1.x reader: physical image size and preferred (native)
//! resolution from a raw 128-byte base block.

use vstd::prelude::*;

verus! {

/// The fixed 8-byte EDID header `00 FF FF FF FF FF FF 00`.
pub open spec fn has_edid_header(e: Seq<u8>) -> bool {
    &&& e[0] == 0x00
    &&& e[1] == 0xFF
    &&& e[2] == 0xFF
    &&& e[3] == 0xFF
    &&& e[4] == 0xFF
    &&& e[5] == 0xFF
    &&& e[6] == 0xFF
    &&& e[7] == 0x00
}

/// A 12-bit field: low byte plus the high nibble of `shared` as bits 8..11.
pub open spec fn twelve_bit_hi(low: u8, shared: u8) -> u32 {
    (low as int + (shared as int / 16) * 256) as u32
}

/// A 12-bit field: low byte plus the low nibble of `shared` as bits 8..11.
pub open spec fn twelve_bit_lo(low: u8, shared: u8) -> u32 {
    (low as int + (shared as int % 16) * 256) as u32
}

/// What the base block says, as `(mm_w, mm_h, px_w, px_h)`: the preferred
/// Detailed Timing Descriptor (offset 54) gives the resolution; the image
/// size comes from that descriptor's millimetre fields, or, when either is
/// zero, from the base block's whole-centimetre fields (bytes 21 and 22).
pub open spec fn spec_parse_edid(e: Seq<u8>) -> Option<(u32, u32, u32, u32)> {
    if e.len() < 128 || !has_edid_header(e) {
        None
    } else if e[54] == 0 && e[55] == 0 {
        None
    } else {
        let px_w = twelve_bit_hi(e[56], e[58]);
        let px_h = twelve_bit_hi(e[59], e[61]);
        let mm_w = twelve_bit_hi(e[66], e[68]);
        let mm_h = twelve_bit_lo(e[67], e[68]);
        if px_w == 0 || px_h == 0 {
            None
        } else if mm_w > 0 && mm_h > 0 {
            Some((mm_w, mm_h, px_w, px_h))
        } else if e[21] > 0 && e[22] > 0 {
            Some(((e[21] as int * 10) as u32, (e[22] as int * 10) as u32, px_w, px_h))
        } else {
            None
        }
    }
}

fn combine_hi(low: u8, shared: u8) -> (r: u32)
    ensures
        r == twelve_bit_hi(low, shared),
{
    let r = (low as u32) | (((shared as u32) & 0xF0) << 4);
    assert(r == (low as u32) + ((shared as u32) / 16) * 256) by (bit_vector)
        requires
            r == (low as u32) | (((shared as u32) & 0xF0) << 4),
    ;
    r
}

fn combine_lo(low: u8, shared: u8) -> (r: u32)
    ensures
        r == twelve_bit_lo(low, shared),
{
    let r = (low as u32) | (((shared as u32) & 0x0F) << 8);
    assert(r == (low as u32) + ((shared as u32) % 16) * 256) by (bit_vector)
        requires
            r == (low as u32) | (((shared as u32) & 0x0F) << 8),
    ;
    r
}

/// Parse the physical size (whole millimetres) and preferred-timing
/// resolution (pixels) from an EDID base block: `(mm_w, mm_h, px_w, px_h)`.
/// `None` if the block is too short, the header is wrong, the first
/// descriptor is not a detailed timing, or no usable size is present.
pub fn parse_edid(edid: &[u8]) -> (r: Option<(u32, u32, u32, u32)>)
    ensures
        r == spec_parse_edid(edid@),
{
    if edid.len() < 128 {
        return None;
    }
    if !(edid[0] == 0x00 && edid[1] == 0xFF && edid[2] == 0xFF && edid[3] == 0xFF && edid[4]
        == 0xFF && edid[5] == 0xFF && edid[6] == 0xFF && edid[7] == 0x00) {
        return None;
    }
    if edid[54] == 0 && edid[55] == 0 {
        return None;
    }
    let h_active = combine_hi(edid[56], edid[58]);
    let v_active = combine_hi(edid[59], edid[61]);
    if h_active == 0 || v_active == 0 {
        return None;
    }
    let h_mm = combine_hi(edid[66], edid[68]);
    let v_mm = combine_lo(edid[67], edid[68]);
    if h_mm > 0 && v_mm > 0 {
        Some((h_mm, v_mm, h_active, v_active))
    } else {
        let cm_w = edid[21] as u32;
        let cm_h = edid[22] as u32;
        if cm_w > 0 && cm_h > 0 {
            Some((cm_w * 10, cm_h * 10, h_active, v_active))
        } else {
            None
        }
    }
}

} // verus!
