//! Unit signs.

use vstd::prelude::*;

verus! {

/// One of the two unit signs, `+1` and `-1`.
///
/// A point's direction of travel along the index axis is a sign, and so is the
/// reversal sign of a run, which tells the two halves of the curve apart.
#[derive(Clone, Copy, Debug, PartialEq, Eq, Structural)]
pub enum Sign {
    Plus,
    Minus,
}

impl Sign {
    /// The sign as an integer.
    pub open spec fn spec_value(self) -> int {
        match self {
            Sign::Plus => 1,
            Sign::Minus => -1,
        }
    }

    /// The other sign.
    pub open spec fn spec_flipped(self) -> Sign {
        match self {
            Sign::Plus => Sign::Minus,
            Sign::Minus => Sign::Plus,
        }
    }

    /// The sign as the integer `1` or `-1`.
    pub fn value(self) -> (v: i8)
        ensures
            v == self.spec_value(),
            v == 1 || v == -1,
    {
        match self {
            Sign::Plus => 1,
            Sign::Minus => -1,
        }
    }

    /// The other sign.
    #[verifier::when_used_as_spec(spec_flipped)]
    pub fn flipped(self) -> (s: Sign)
        ensures
            s == self.spec_flipped(),
    {
        match self {
            Sign::Plus => Sign::Minus,
            Sign::Minus => Sign::Plus,
        }
    }
}

/// A sign is `+1` or `-1`, and nothing else.
pub proof fn lemma_sign_is_unit(s: Sign)
    ensures
        s.spec_value() == 1 || s.spec_value() == -1,
{
}

/// Flipping negates the value, and flipping twice gives the sign back.
pub proof fn lemma_flip_negates(s: Sign)
    ensures
        s.spec_flipped().spec_value() == -s.spec_value(),
        s.spec_flipped().spec_flipped() == s,
        s.spec_flipped() != s,
{
}

} // verus!
