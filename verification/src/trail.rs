//! The trail: a sequence of fixed length that holds the most recent points.

use vstd::prelude::*;
use crate::point::Point;

verus! {

/// The trail after one more point has come: the oldest point is gone, the
/// others have moved up by one place, and `next` stands last.
pub open spec fn slid<T>(trail: Seq<T>, next: T) -> Seq<T> {
    trail.subrange(1, trail.len() as int).push(next)
}

/// The trail after each point of `nexts` has come in turn, first to last.
pub open spec fn slid_all<T>(trail: Seq<T>, nexts: Seq<T>) -> Seq<T>
    decreases nexts.len(),
{
    if nexts.len() == 0 {
        trail
    } else {
        slid(slid_all(trail, nexts.drop_last()), nexts.last())
    }
}

/// A trail that holds a point keeps its length, and each of its places lags
/// the next by one frame: what stood at a place stands one place earlier
/// afterwards.
pub proof fn lemma_slid_shifts<T>(trail: Seq<T>, next: T)
    requires
        trail.len() >= 1,
    ensures
        slid(trail, next).len() == trail.len(),
        slid(trail, next).last() == next,
        forall|i: int| 0 <= i < trail.len() - 1 ==> #[trigger] slid(trail, next)[i] == trail[i + 1],
{
}

/// The trail is a window onto the history of the run: after any number of
/// points have come, it holds the last `trail.len()` of all the points there
/// ever were, in the order in which they came.
pub proof fn lemma_trail_is_recent_history<T>(trail: Seq<T>, nexts: Seq<T>)
    requires
        trail.len() >= 1,
    ensures
        slid_all(trail, nexts).len() == trail.len(),
        slid_all(trail, nexts) == (trail + nexts).subrange(
            nexts.len() as int,
            (nexts.len() + trail.len()) as int,
        ),
    decreases nexts.len(),
{
    let window = (trail + nexts).subrange(
        nexts.len() as int,
        (nexts.len() + trail.len()) as int,
    );
    if nexts.len() == 0 {
        assert(slid_all(trail, nexts) =~= window);
    } else {
        let earlier = nexts.drop_last();
        lemma_trail_is_recent_history(trail, earlier);
        let before = (trail + earlier).subrange(
            earlier.len() as int,
            (earlier.len() + trail.len()) as int,
        );
        assert(slid(before, nexts.last()) =~= window);
    }
}

/// Moves the trail on by one frame: the result holds the points of
/// `init_location` but the first, in their order, and then `next`.
pub fn render<C: Copy>(init_location: &Vec<Point<C>>, next: Point<C>) -> (result: Vec<Point<C>>)
    requires
        init_location.len() >= 1,
    ensures
        result@ == slid(init_location@, next),
        result.len() == init_location.len(),
{
    let mut result: Vec<Point<C>> = Vec::new();
    let mut i: usize = 1;
    while i < init_location.len()
        invariant
            1 <= i <= init_location.len(),
            result@ == init_location@.subrange(1, i as int),
        decreases init_location.len() - i,
    {
        result.push(init_location[i]);
        i = i + 1;
        assert(result@ =~= init_location@.subrange(1, i as int));
    }
    result.push(next);
    result
}

} // verus!
