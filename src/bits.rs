//! Bitfields of 32-bit register values.
use vstd::prelude::*;

verus! {

/// Whether a field of `mask` (one or two bits wide) fits at `shift`.
pub open spec fn field_fits(shift: u32, mask: u32) -> bool {
    (mask == 1 && shift < 32) || (mask == 3 && shift < 31)
}

/// The field of `w` that starts at bit `shift` and spans `mask`.
pub open spec fn field(w: u32, shift: u32, mask: u32) -> u32 {
    (w >> shift) & mask
}

/// The bits of `w` outside the field at `shift` spanning `mask`.
pub open spec fn outside(w: u32, shift: u32, mask: u32) -> u32 {
    w & !(mask << shift)
}

/// `w` with the field at `shift` spanning `mask` replaced by `v`.
pub open spec fn with_field(w: u32, shift: u32, mask: u32, v: u32) -> u32 {
    outside(w, shift, mask) | (v << shift)
}

/// Replacing a field sets it to the new value and keeps every other bit.
pub proof fn lemma_with_field(w: u32, shift: u32, mask: u32, v: u32)
    requires
        field_fits(shift, mask),
        v <= mask,
    ensures
        field(with_field(w, shift, mask, v), shift, mask) == v,
        outside(with_field(w, shift, mask, v), shift, mask) == outside(w, shift, mask),
{
    assert(((((w & !(mask << shift)) | (v << shift)) >> shift) & mask) == v
        && (((w & !(mask << shift)) | (v << shift)) & !(mask << shift)) == (w & !(mask
        << shift))) by (bit_vector)
        requires
            (mask == 1 && shift < 32) || (mask == 3 && shift < 31),
            v <= mask,
    ;
}

/// Replacing a field twice with the same value is replacing it once.
pub proof fn lemma_with_field_twice(w: u32, shift: u32, mask: u32, v: u32)
    requires
        field_fits(shift, mask),
        v <= mask,
    ensures
        with_field(with_field(w, shift, mask, v), shift, mask, v) == with_field(w, shift, mask, v),
{
    assert(((((w & !(mask << shift)) | (v << shift)) & !(mask << shift)) | (v << shift)) == ((w
        & !(mask << shift)) | (v << shift))) by (bit_vector);
}

/// Reads the field at `shift` spanning `mask`.
pub fn get_field(w: u32, shift: u32, mask: u32) -> (r: u32)
    requires
        field_fits(shift, mask),
    ensures
        r == field(w, shift, mask),
        r <= mask,
{
    let r = (w >> shift) & mask;
    assert(((w >> shift) & mask) <= mask) by (bit_vector);
    r
}

/// Writes `v` into the field at `shift` spanning `mask`, keeping every
/// other bit of `w`.
pub fn set_field(w: u32, shift: u32, mask: u32, v: u32) -> (r: u32)
    requires
        field_fits(shift, mask),
        v <= mask,
    ensures
        r == with_field(w, shift, mask, v),
        field(r, shift, mask) == v,
        outside(r, shift, mask) == outside(w, shift, mask),
{
    proof {
        lemma_with_field(w, shift, mask, v);
    }
    (w & !(mask << shift)) | (v << shift)
}

} // verus!
