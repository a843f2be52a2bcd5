//! Immediate values: integers of an arbitrary, explicitly stored bit width.

use apint::ApInt;
use apint::Width;
use vstd::prelude::*;

verus! {

/// An immediate value: a bit pattern together with its exact width in bits.
pub type Bitvector = ApInt;

/// Declares `apint::ApInt` as an opaque type: values of it are carried
/// through, and what is known of them is said over their width and digits.
#[verifier::external_type_specification]
#[verifier::external_body]
pub struct ExApInt(ApInt);

/// The width in bits that a bitvector was made with.
pub uninterp spec fn bitvector_width(bv: ApInt) -> nat;

/// The 64-bit digits that hold the bits of a bitvector, least significant first.
pub uninterp spec fn bitvector_digits(bv: ApInt) -> Seq<u64>;

/// The mathematical value of an immediate: its width and its digits.
pub struct SpecBitvector {
    pub width: nat,
    pub digits: Seq<u64>,
}

/// What a bitvector stands for in contracts.
pub open spec fn bitvector_view(bv: ApInt) -> SpecBitvector {
    SpecBitvector { width: bitvector_width(bv), digits: bitvector_digits(bv) }
}

/// Calls `Width::width` of `ApInt` and `BitWidth::to_usize`: the result is the
/// width in bits that the value was made with.
#[verifier::external_body]
pub(crate) fn bit_width(bv: &ApInt) -> (width: usize)
    ensures
        width == bitvector_width(*bv),
{
    bv.width().to_usize()
}

/// `PartialEq::eq` of `ApInt` compares the widths and then the digit slices:
/// two values are equal exactly when both agree.
pub assume_specification[ <ApInt as PartialEq>::eq ](a: &ApInt, b: &ApInt) -> (equal: bool)
    ensures
        equal == (bitvector_width(*a) == bitvector_width(*b) && bitvector_digits(*a)
            == bitvector_digits(*b)),
;

/// `Clone::clone` of `ApInt` copies the width and every digit.
pub assume_specification[ <ApInt as Clone>::clone ](bv: &ApInt) -> (copy: ApInt)
    ensures
        bitvector_width(copy) == bitvector_width(*bv),
        bitvector_digits(copy) == bitvector_digits(*bv),
;

} // verus!
