use vstd::prelude::*;

verus! {

/// Status bit 1: the last result was zero.
pub const ZERO_FLAG: u8 = 0b0000_0010;

/// Status bit 7: the last result had bit 7 set.
pub const NEGATIVE_FLAG: u8 = 0b1000_0000;

/// Whether the Zero flag is set in `status`.
pub open spec fn zero_flag(status: u8) -> bool {
    status & 0b0000_0010 != 0
}

/// Whether the Negative flag is set in `status`.
pub open spec fn negative_flag(status: u8) -> bool {
    status & 0b1000_0000 != 0
}

/// The status bits other than Zero and Negative.
pub open spec fn other_flags(status: u8) -> u8 {
    status & 0b0111_1101
}

/// The status register after the shared flag rule is applied to `result`:
/// Zero set iff `result == 0`, Negative set iff bit 7 of `result` is set,
/// every other bit kept.
pub open spec fn flags_for(status: u8, result: u8) -> u8 {
    other_flags(status) | (if result == 0 {
        0b0000_0010u8
    } else {
        0u8
    }) | (result & 0b1000_0000)
}

/// What `flags_for` means bit by bit.
pub proof fn lemma_flags_for(status: u8, result: u8)
    ensures
        zero_flag(flags_for(status, result)) == (result == 0),
        negative_flag(flags_for(status, result)) == (result & 0b1000_0000 != 0),
        other_flags(flags_for(status, result)) == other_flags(status),
{
    if result == 0 {
        assert((((status & 0x7D) | 2u8) | (result & 0x80)) & 2 != 0) by (bit_vector);
        assert((((status & 0x7D) | 2u8) | (result & 0x80)) & 0x80 == result & 0x80) by (bit_vector);
        assert((((status & 0x7D) | 2u8) | (result & 0x80)) & 0x7D == status & 0x7D) by (bit_vector);
    } else {
        assert((((status & 0x7D) | 0u8) | (result & 0x80)) & 2 == 0) by (bit_vector);
        assert((((status & 0x7D) | 0u8) | (result & 0x80)) & 0x80 == result & 0x80) by (bit_vector);
        assert((((status & 0x7D) | 0u8) | (result & 0x80)) & 0x7D == status & 0x7D) by (bit_vector);
    }
    assert((result & 0x80 != 0) == (result & 0x80 == 0x80)) by (bit_vector);
}

/// Applies the flag rule for `result` to `status`.
pub fn update_flags(status: u8, result: u8) -> (r: u8)
    ensures
        r == flags_for(status, result),
        zero_flag(r) == (result == 0),
        negative_flag(r) == (result & NEGATIVE_FLAG != 0),
        other_flags(r) == other_flags(status),
{
    proof {
        lemma_flags_for(status, result);
    }
    let mut s = status;
    if result == 0 {
        s = s | ZERO_FLAG;
    } else {
        s = s & !ZERO_FLAG;
    }
    if result & NEGATIVE_FLAG != 0 {
        s = s | NEGATIVE_FLAG;
    } else {
        s = s & !NEGATIVE_FLAG;
    }
    assert(s == flags_for(status, result)) by {
        if result == 0 {
            if result & 0x80 != 0 {
                assert(((status | 2u8) | 0x80u8) == (((status & 0x7D) | 2u8) | (result & 0x80))) by (bit_vector)
                    requires result & 0x80 != 0;
            } else {
                assert(((status | 2u8) & !0x80u8) == (((status & 0x7D) | 2u8) | (result & 0x80))) by (bit_vector)
                    requires result & 0x80 == 0;
            }
        } else {
            if result & 0x80 != 0 {
                assert(((status & !2u8) | 0x80u8) == (((status & 0x7D) | 0u8) | (result & 0x80))) by (bit_vector)
                    requires result & 0x80 != 0;
            } else {
                assert(((status & !2u8) & !0x80u8) == (((status & 0x7D) | 0u8) | (result & 0x80))) by (bit_vector)
                    requires result & 0x80 == 0;
            }
        }
    }
    s
}

} // verus!
