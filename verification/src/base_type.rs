//! Nucleotide classes of sequence bytes.

use vstd::prelude::*;

verus! {

/// The class of a base call.
#[derive(Clone, Copy, Debug, PartialEq, Eq, Structural)]
pub enum BaseType {
    A,
    T,
    C,
    G,
    N,
}

/// The class of an ASCII base letter, in either case; every byte that is
/// no letter of `ATCG` counts as an unknown base.
pub open spec fn base_class(v: u8) -> BaseType {
    if v == 65 || v == 97 {
        BaseType::A
    } else if v == 84 || v == 116 {
        BaseType::T
    } else if v == 67 || v == 99 {
        BaseType::C
    } else if v == 71 || v == 103 {
        BaseType::G
    } else {
        BaseType::N
    }
}

impl BaseType {
    pub fn guess(v: u8) -> (class: Self)
        ensures
            class == base_class(v),
    {
        match v {
            65 | 97 => Self::A,
            84 | 116 => Self::T,
            67 | 99 => Self::C,
            71 | 103 => Self::G,
            _ => Self::N,
        }
    }
}

} // verus!
