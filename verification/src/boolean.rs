//! The single-byte boolean wire format used by the host.
//!
//! On the wire a boolean is one byte: zero means false and any nonzero
//! value means true.  Writes only ever produce the canonical bytes 0 and 1,
//! but any byte is accepted on read.

use vstd::prelude::*;

verus! {

/// What a `bool` looks like once encoded for the host: 1 for true, 0 for false.
pub open spec fn spec_encode_bool(value: bool) -> u8 {
    if value {
        1
    } else {
        0
    }
}

/// What a wire byte means when read back: any nonzero byte is true.
pub open spec fn spec_decode_bool(byte: u8) -> bool {
    byte != 0
}

/// The boolean type exchanged with the host: a single byte where zero is
/// false and any nonzero value is true.
#[derive(PartialEq, Eq, Structural, Clone, Copy, Debug)]
pub struct LVBool(pub u8);

impl View for LVBool {
    type V = u8;

    open spec fn view(&self) -> u8 {
        self.0
    }
}

impl LVBool {
    /// The canonical false value: the zero byte.
    pub fn lv_false() -> (b: LVBool)
        ensures
            b@ == 0,
    {
        LVBool(0)
    }

    /// The canonical true value: the byte 1.
    pub fn lv_true() -> (b: LVBool)
        ensures
            b@ == 1,
    {
        LVBool(1)
    }
}

impl From<bool> for LVBool {
    /// Encode a `bool` as its canonical wire byte.
    fn from(value: bool) -> (b: LVBool)
        ensures
            b@ == spec_encode_bool(value),
    {
        if value {
            LVBool(1)
        } else {
            LVBool(0)
        }
    }
}

impl vstd::std_specs::convert::FromSpecImpl<bool> for LVBool {
    open spec fn obeys_from_spec() -> bool {
        true
    }

    open spec fn from_spec(value: bool) -> LVBool {
        LVBool(spec_encode_bool(value))
    }
}

impl From<LVBool> for bool {
    /// Decode a wire byte: any nonzero value reads back as true.
    fn from(value: LVBool) -> (b: bool)
        ensures
            b == spec_decode_bool(value@),
    {
        value.0 != 0
    }
}

impl vstd::std_specs::convert::FromSpecImpl<LVBool> for bool {
    open spec fn obeys_from_spec() -> bool {
        true
    }

    open spec fn from_spec(value: LVBool) -> bool {
        spec_decode_bool(value@)
    }
}

/// Round trip: encoding a `bool` and decoding the resulting byte gives the
/// original value back, for both booleans.
pub proof fn lemma_bool_round_trip(value: bool)
    ensures
        spec_decode_bool(spec_encode_bool(value)) == value,
{
}

/// Any nonzero wire byte decodes to true, not only the canonical 1.
pub proof fn lemma_nonzero_decodes_true(byte: u8)
    requires
        byte != 0,
    ensures
        spec_decode_bool(byte),
{
}

} // verus!
