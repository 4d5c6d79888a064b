//! The codec between configuration enums and register field codes.
//!
//! Each configuration axis is a closed enum. `code` gives every variant the
//! number that stands for it in a register; decoding is the inverse of
//! `code`, and yields nothing for a number that no variant has.

use crate::bits::fits;
use vstd::prelude::*;

verus! {

/// A configuration enum whose variants have register codes.
pub trait RegisterField: Sized {
    /// The code that stands for this variant in a register.
    spec fn code(self) -> u8;

    /// Whether `code` is one of the codes declared for this axis.
    spec fn declared(code: u8) -> bool;

    /// The number of bits that hold a code of this axis.
    spec fn width() -> u32;

    /// No two variants share a code.
    proof fn lemma_code_injective(a: Self, b: Self)
        requires
            a.code() == b.code(),
        ensures
            a == b,
    ;

    /// The declared codes are exactly the codes of the variants.
    proof fn lemma_declared(code: u8)
        ensures
            Self::declared(code) <==> exists|v: Self| #[trigger] v.code() == code,
    ;

    /// Every code fits in the axis's width.
    proof fn lemma_code_fits(v: Self)
        ensures
            1 <= Self::width() <= 8,
            fits(v.code() as u32, Self::width()),
    ;
}

/// The variant that `code` stands for: the inverse of `code`, and nothing
/// for a number that is the code of no variant.
pub open spec fn decoded<F: RegisterField>(code: u8) -> Option<F> {
    if exists|v: F| #[trigger] v.code() == code {
        Some(choose|v: F| #[trigger] v.code() == code)
    } else {
        None
    }
}

/// Decoding the code of a variant gives that variant back.
pub proof fn lemma_round_trip<F: RegisterField>(v: F)
    ensures
        decoded::<F>(v.code()) == Some(v),
{
    let w = choose|w: F| #[trigger] w.code() == v.code();
    F::lemma_code_injective(w, v);
}

/// A code outside the declared codes of an axis decodes to nothing, and a
/// declared code decodes to a variant that has that code.
pub proof fn lemma_decoded<F: RegisterField>(code: u8)
    ensures
        !F::declared(code) ==> decoded::<F>(code) is None,
        F::declared(code) ==> decoded::<F>(code) is Some && decoded::<F>(code)->0.code() == code,
{
    F::lemma_declared(code);
}

/// What `decode` owes for a code that the variant `v` has.
pub proof fn lemma_decoded_is<F: RegisterField>(code: u8, v: F)
    requires
        v.code() == code,
    ensures
        decoded::<F>(code) == Some(v),
{
    lemma_round_trip(v);
}

} // verus!
