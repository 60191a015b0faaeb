//! The index axis: how a point turns round at its two bounds, and how an
//! index is held between them.
//!
//! Coordinates are of the caller's type, so the caller compares them and
//! hands the outcome in. What the rules achieve is stated for every total
//! order on coordinates that the caller's comparisons may follow.

use vstd::prelude::*;
use crate::sign::Sign;

verus! {

impl Sign {
    /// The direction of a point after it has been held against the bounds of
    /// the index axis: at or below the lower bound it travels up, otherwise at
    /// or above the upper bound it travels down, otherwise it keeps going.
    /// Where both bounds are reached at once the lower one decides.
    pub open spec fn spec_reflected(self, at_upper: bool, at_lower: bool) -> Sign {
        if at_lower {
            Sign::Plus
        } else if at_upper {
            Sign::Minus
        } else {
            self
        }
    }

    /// Applies the bounds rule, see [`Sign::spec_reflected`]. `at_upper` says
    /// that the point's index is at or above the upper bound, `at_lower` that
    /// it is at or below the lower one; the caller compares.
    #[verifier::when_used_as_spec(spec_reflected)]
    pub fn reflected(self, at_upper: bool, at_lower: bool) -> (s: Sign)
        ensures
            s == self.spec_reflected(at_upper, at_lower),
    {
        if at_lower {
            Sign::Plus
        } else if at_upper {
            Sign::Minus
        } else {
            self
        }
    }
}

/// The index held to the axis: the upper bound where the index lies above it,
/// otherwise the lower bound where it lies below that, otherwise the index
/// itself.
pub open spec fn spec_clamp_index<C>(
    index: C,
    lower: C,
    upper: C,
    above_upper: bool,
    below_lower: bool,
) -> C {
    if above_upper {
        upper
    } else if below_lower {
        lower
    } else {
        index
    }
}

/// Holds an index to the axis between `lower` and `upper`, see
/// [`spec_clamp_index`]. `above_upper` says that the index is greater than
/// `upper`, `below_lower` that it is less than `lower`; the caller compares.
pub fn clamp_index<C: Copy>(
    index: C,
    lower: C,
    upper: C,
    above_upper: bool,
    below_lower: bool,
) -> (held: C)
    ensures
        held == spec_clamp_index(index, lower, upper, above_upper, below_lower),
{
    if above_upper {
        upper
    } else if below_lower {
        lower
    } else {
        index
    }
}

/// The direction of a point that set out in direction `start` and has since
/// been held against the bounds once for each entry of `readings`, oldest
/// first. An entry holds what [`Sign::spec_reflected`] takes: whether the
/// point was at or above the upper bound, and whether at or below the lower.
pub open spec fn heading_after(start: Sign, readings: Seq<(bool, bool)>) -> Sign
    decreases readings.len(),
{
    if readings.len() == 0 {
        start
    } else {
        heading_after(start, readings.drop_last()).spec_reflected(
            readings.last().0,
            readings.last().1,
        )
    }
}

/// Whether `le` orders the coordinates totally: any two of them compare one
/// way or the other, and the order carries through a third.
pub open spec fn orders_totally<C>(le: spec_fn(C, C) -> bool) -> bool {
    &&& forall|a: C, b: C| #[trigger] le(a, b) || le(b, a)
    &&& forall|a: C, b: C, c: C| #[trigger] le(a, b) && #[trigger] le(b, c) ==> le(a, c)
}

/// Whether an index lies on the axis in the order `le`: not below the lower
/// bound and not above the upper one.
pub open spec fn on_axis<C>(le: spec_fn(C, C) -> bool, index: C, lower: C, upper: C) -> bool {
    le(lower, index) && le(index, upper)
}

/// The bounds rule with its two readings taken in the order `le`: the index
/// is at or above the upper bound, and at or below the lower one.
pub open spec fn reflected_in_order<C>(
    le: spec_fn(C, C) -> bool,
    s: Sign,
    index: C,
    lower: C,
    upper: C,
) -> Sign {
    s.spec_reflected(le(upper, index), le(index, lower))
}

/// The index held to the axis with its two readings taken in the order `le`:
/// the index is above the upper bound, and below the lower one.
pub open spec fn clamped_in_order<C>(
    le: spec_fn(C, C) -> bool,
    index: C,
    lower: C,
    upper: C,
) -> C {
    spec_clamp_index(index, lower, upper, !le(index, upper), !le(lower, index))
}

/// What the bounds rule gives in each place. At or below the lower bound a
/// point travels upwards, whatever else holds; at or above the upper bound,
/// and above the lower one, it travels downwards; between the bounds it keeps
/// its direction.
pub proof fn lemma_turns_at_bounds(s: Sign, at_upper: bool, at_lower: bool)
    ensures
        at_lower ==> s.spec_reflected(at_upper, at_lower) == Sign::Plus,
        at_upper && !at_lower ==> s.spec_reflected(at_upper, at_lower) == Sign::Minus,
        !at_upper && !at_lower ==> s.spec_reflected(at_upper, at_lower) == s,
{
}

/// Applying the bounds rule a second time with the same readings changes
/// nothing.
pub proof fn lemma_reflect_idempotent(s: Sign, at_upper: bool, at_lower: bool)
    ensures
        s.spec_reflected(at_upper, at_lower).spec_reflected(at_upper, at_lower)
            == s.spec_reflected(at_upper, at_lower),
{
}

/// Reflection at the upper bound. A point that sets out upwards and is never
/// found at or above the upper bound keeps travelling upwards, however often
/// the rule is applied; the first time it is found there, above the lower
/// bound, it turns downwards.
pub proof fn lemma_reflects_at_upper_bound(readings: Seq<(bool, bool)>)
    requires
        forall|i: int| 0 <= i < readings.len() ==> !(#[trigger] readings[i]).0,
    ensures
        heading_after(Sign::Plus, readings) == Sign::Plus,
        heading_after(Sign::Plus, readings.push((true, false))) == Sign::Minus,
    decreases readings.len(),
{
    if readings.len() > 0 {
        lemma_reflects_at_upper_bound(readings.drop_last());
    }
    assert(readings.push((true, false)).drop_last() =~= readings);
}

/// On an axis whose lower bound lies below its upper bound, an index is never
/// at both bounds at once. So a point whose index has reached the upper bound
/// travels downwards from there, whatever its direction was; one whose index
/// has reached the lower bound travels upwards; and one between the bounds
/// keeps its direction.
pub proof fn lemma_turns_round_on_proper_axis<C>(
    le: spec_fn(C, C) -> bool,
    s: Sign,
    index: C,
    lower: C,
    upper: C,
)
    requires
        orders_totally(le),
        !le(upper, lower),
    ensures
        !(le(upper, index) && le(index, lower)),
        le(upper, index) ==> reflected_in_order(le, s, index, lower, upper) == Sign::Minus,
        le(index, lower) ==> reflected_in_order(le, s, index, lower, upper) == Sign::Plus,
        !le(upper, index) && !le(index, lower) ==> reflected_in_order(le, s, index, lower, upper)
            == s,
{
    if le(upper, index) && le(index, lower) {
        assert(le(upper, lower));
    }
}

/// An index that has been held to the axis lies on it, and one that lay on
/// the axis before is unchanged. This holds under every total order on
/// coordinates in which the lower bound is not above the upper one.
pub proof fn lemma_clamped_index_is_on_axis<C>(
    le: spec_fn(C, C) -> bool,
    index: C,
    lower: C,
    upper: C,
)
    requires
        orders_totally(le),
        le(lower, upper),
    ensures
        on_axis(le, clamped_in_order(le, index, lower, upper), lower, upper),
        on_axis(le, index, lower, upper) ==> clamped_in_order(le, index, lower, upper) == index,
{
    assert(le(lower, lower) || le(lower, lower));
    assert(le(upper, upper) || le(upper, upper));
}

} // verus!
