//! The fixed AT-to-XT scan-code table: 132 entries indexed by the raw AT
//! byte; any index past the table maps to 0.

use vstd::prelude::*;

verus! {

/// The table contents as a mathematical sequence.
pub open spec fn keycode_lut() -> Seq<u8> {
    seq![
        0x00u8, 0x43, 0x00, 0x3F, 0x3D, 0x3B, 0x3C, 0x58, 0x00, 0x44, 0x42, 0x40, 0x3E, 0x0F,
        0x29, 0x00, 0x00, 0x38, 0x2A, 0x00, 0x1D, 0x10, 0x02, 0x00, 0x00, 0x00, 0x2C, 0x1F, 0x1E,
        0x11, 0x03, 0x00, 0x00, 0x2E, 0x2D, 0x20, 0x12, 0x05, 0x04, 0x00, 0x00, 0x39, 0x2F, 0x21,
        0x14, 0x13, 0x06, 0x00, 0x00, 0x31, 0x30, 0x23, 0x22, 0x15, 0x07, 0x00, 0x00, 0x00, 0x32,
        0x24, 0x16, 0x08, 0x09, 0x00, 0x00, 0x33, 0x25, 0x17, 0x18, 0x0B, 0x0A, 0x00, 0x00, 0x34,
        0x35, 0x26, 0x27, 0x19, 0x0C, 0x00, 0x00, 0x00, 0x28, 0x00, 0x1A, 0x0D, 0x00, 0x00, 0x3A,
        0x36, 0x1C, 0x1B, 0x00, 0x2B, 0x00, 0x00, 0x00, 0x00, 0x00, 0x00, 0x00, 0x00, 0x0E, 0x00,
        0x00, 0x4F, 0x00, 0x4B, 0x47, 0x00, 0x00, 0x00, 0x52, 0x53, 0x50, 0x4C, 0x4D, 0x48, 0x01,
        0x45, 0x57, 0x4E, 0x51, 0x4A, 0x37, 0x49, 0x46, 0x00, 0x00, 0x00, 0x00, 0x41,
    ]
}

/// What a lookup returns: the table entry, or 0 past the table's end.
pub open spec fn lut_lookup(at_in: u8) -> u8 {
    if at_in < 132 {
        keycode_lut()[at_in as int]
    } else {
        0
    }
}

/// Translate a raw AT scan code to its XT code; indexes past the table
/// yield 0.
pub fn to_xt(at_in: u8) -> (r: u8)
    ensures
        r == lut_lookup(at_in),
{
    let lut: [u8; 132] = [
        0x00, 0x43, 0x00, 0x3F, 0x3D, 0x3B, 0x3C, 0x58, 0x00, 0x44, 0x42, 0x40, 0x3E, 0x0F, 0x29,
        0x00, 0x00, 0x38, 0x2A, 0x00, 0x1D, 0x10, 0x02, 0x00, 0x00, 0x00, 0x2C, 0x1F, 0x1E, 0x11,
        0x03, 0x00, 0x00, 0x2E, 0x2D, 0x20, 0x12, 0x05, 0x04, 0x00, 0x00, 0x39, 0x2F, 0x21, 0x14,
        0x13, 0x06, 0x00, 0x00, 0x31, 0x30, 0x23, 0x22, 0x15, 0x07, 0x00, 0x00, 0x00, 0x32, 0x24,
        0x16, 0x08, 0x09, 0x00, 0x00, 0x33, 0x25, 0x17, 0x18, 0x0B, 0x0A, 0x00, 0x00, 0x34, 0x35,
        0x26, 0x27, 0x19, 0x0C, 0x00, 0x00, 0x00, 0x28, 0x00, 0x1A, 0x0D, 0x00, 0x00, 0x3A, 0x36,
        0x1C, 0x1B, 0x00, 0x2B, 0x00, 0x00, 0x00, 0x00, 0x00, 0x00, 0x00, 0x00, 0x0E, 0x00, 0x00,
        0x4F, 0x00, 0x4B, 0x47, 0x00, 0x00, 0x00, 0x52, 0x53, 0x50, 0x4C, 0x4D, 0x48, 0x01, 0x45,
        0x57, 0x4E, 0x51, 0x4A, 0x37, 0x49, 0x46, 0x00, 0x00, 0x00, 0x00, 0x41,
    ];
    if at_in < 132 {
        let r = lut[at_in as usize];
        assert(lut@ =~= keycode_lut());
        r
    } else {
        0
    }
}

} // verus!
