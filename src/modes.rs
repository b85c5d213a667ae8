//! Choosing the largest display mode.
use vstd::prelude::*;

verus! {

/// The pick after looking at `sizes` in order: the index and size of the
/// last mode that is at least as wide and as tall as the one picked before
/// it. A mode that could not be queried is `None` and never picked.
pub open spec fn best_so_far(sizes: Seq<Option<(usize, usize)>>) -> (Option<usize>, usize, usize)
    decreases sizes.len(),
{
    if sizes.len() == 0 {
        (None, 0, 0)
    } else {
        let prev = best_so_far(sizes.drop_last());
        match sizes.last() {
            Some((w, h)) => if w >= prev.1 && h >= prev.2 {
                (Some((sizes.len() - 1) as usize), w, h)
            } else {
                prev
            },
            None => prev,
        }
    }
}

/// The mode that the largest-mode search settles on.
pub open spec fn largest_mode(sizes: Seq<Option<(usize, usize)>>) -> Option<usize> {
    best_so_far(sizes).0
}

/// Picks the largest mode of those that could be queried, as
/// `largest_mode` says.
pub fn select_largest(sizes: &Vec<Option<(usize, usize)>>) -> (r: Option<usize>)
    ensures
        r == largest_mode(sizes@),
        r matches Some(i) ==> i < sizes@.len() && sizes@[i as int] is Some,
{
    let mut best: Option<usize> = None;
    let mut best_w: usize = 0;
    let mut best_h: usize = 0;
    let mut i: usize = 0;
    while i < sizes.len()
        invariant
            0 <= i <= sizes@.len(),
            (best, best_w, best_h) == best_so_far(sizes@.take(i as int)),
            best matches Some(k) ==> k < i && sizes@[k as int] is Some,
        decreases sizes@.len() - i,
    {
        proof {
            assert(sizes@.take(i + 1).drop_last() =~= sizes@.take(i as int));
        }
        match sizes[i] {
            Some((w, h)) => {
                if w >= best_w && h >= best_h {
                    best = Some(i);
                    best_w = w;
                    best_h = h;
                }
            },
            None => {},
        }
        i = i + 1;
    }
    proof {
        assert(sizes@.take(i as int) =~= sizes@);
    }
    best
}

} // verus!
