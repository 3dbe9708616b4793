//! Bit fields inside a register byte.
use vstd::prelude::*;

verus! {

/// `width` low bits set.
pub open spec fn field_mask(width: u8) -> u8 {
    if width >= 8 {
        0xff
    } else {
        ((1u8 << width) - 1) as u8
    }
}

/// `cur` with bits `offset .. offset + width` replaced by the low `width` bits of `bits`.
pub open spec fn with_field(cur: u8, offset: u8, width: u8, bits: u8) -> u8 {
    let mask = field_mask(width);
    ((cur & !((mask << offset) as u8)) | (((bits & mask) << offset) as u8)) as u8
}

/// Computes `with_field(cur, offset, width, bits)`.
pub fn update_field(cur: u8, offset: u8, width: u8, bits: u8) -> (r: u8)
    requires
        1 <= width,
        offset + width <= 8,
    ensures
        r == with_field(cur, offset, width, bits),
{
    let mask: u8 = if width >= 8 {
        0xff
    } else {
        assert(1u8 << width >= 1) by (bit_vector)
            requires
                width < 8,
        ;
        (1u8 << width) - 1
    };
    (cur & !(mask << offset)) | ((bits & mask) << offset)
}

/// Writing a field leaves every bit outside `offset .. offset + width` as it was in
/// `cur`, and the field then holds the low `width` bits of `bits`.
pub proof fn lemma_field_update(cur: u8, offset: u8, width: u8, bits: u8)
    requires
        1 <= width <= 8,
        offset + width <= 8,
    ensures
        forall|i: u8|
            #![trigger (with_field(cur, offset, width, bits) >> i)]
            i < 8 ==> ((with_field(cur, offset, width, bits) >> i) & 1) == if offset <= i
                && i < offset + width {
                (bits >> ((i - offset) as u8)) & 1
            } else {
                (cur >> i) & 1
            },
        (with_field(cur, offset, width, bits) >> offset) & field_mask(width) == bits & field_mask(
            width,
        ),
{
    let m = field_mask(width);
    let w = with_field(cur, offset, width, bits);
    assert forall|i: u8| i < 8 implies ((w >> i) & 1) == if offset <= i && i < offset + width {
        (bits >> ((i - offset) as u8)) & 1
    } else {
        (cur >> i) & 1
    } by {
        assert(((((cur & !((m << offset) as u8)) | (((bits & m) << offset) as u8)) as u8) >> i) & 1
            == if offset <= i && i < offset + width {
            (bits >> ((i - offset) as u8)) & 1
        } else {
            (cur >> i) & 1
        }) by (bit_vector)
            requires
                1 <= width <= 8,
                offset + width <= 8,
                i < 8,
                m == if width >= 8 {
                    0xffu8
                } else {
                    ((1u8 << width) - 1) as u8
                },
        ;
    }
    assert(((((cur & !((m << offset) as u8)) | (((bits & m) << offset) as u8)) as u8) >> offset)
        & m == bits & m) by (bit_vector)
        requires
            1 <= width <= 8,
            offset + width <= 8,
            m == if width >= 8 {
                0xffu8
            } else {
                ((1u8 << width) - 1) as u8
            },
    ;
}

} // verus!
