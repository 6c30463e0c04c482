use crate::history::BackgroundRows;
use crate::lane::{HedgeHalf, Lane, RowType};
use crate::random::{coin_flip, get_random_i32};
use vstd::prelude::*;

verus! {

/// Chance, in percent, that a cell of a fresh hedge starts as a gap.
pub const HEDGE_GAP_PERCENT: i32 = 1;

/// A mask's gaps can be walked through: there is at least one, and none stands
/// alone (a cell at either edge is checked against its one neighbour).
pub open spec fn gaps_reachable(mask: Seq<bool>) -> bool {
    &&& exists|i: int| 0 <= i < 12 && #[trigger] mask[i]
    &&& forall|i: int|
        0 <= i < 12 && #[trigger] mask[i] ==> (i > 0 && mask[i - 1]) || (i < 11 && mask[i + 1])
}

/// The gap at column `i` is widened towards its right neighbour: always at the
/// left edge, never at the right edge, elsewhere as drawn.
pub open spec fn points_right(right: Seq<bool>, i: int) -> bool {
    i == 0 || (i != 11 && right[i])
}

/// Column `j` is a gap when the left-to-right widening pass reaches it: it was
/// one already, or its left neighbour was reached and widened to the right.
pub open spec fn reached(m: Seq<bool>, right: Seq<bool>, j: int) -> bool
    decreases j,
{
    if j <= 0 {
        m[0]
    } else {
        m[j] || (reached(m, right, j - 1) && points_right(right, j - 1))
    }
}

/// Column `j` after widening: reached by the pass, or the left neighbour of a
/// reached gap widened to the left.
pub open spec fn widened(m: Seq<bool>, right: Seq<bool>, j: int) -> bool {
    reached(m, right, j) || (j < 11 && reached(m, right, j + 1) && !points_right(right, j + 1))
}

/// A widened mask's gaps are reachable whenever it started with a gap.
pub proof fn lemma_widened_gaps_reachable(m: Seq<bool>, right: Seq<bool>, forced: int)
    requires
        m.len() == 12,
        right.len() == 12,
        0 <= forced < 12,
        m[forced],
    ensures
        gaps_reachable(Seq::new(12, |j: int| widened(m, right, j))),
{
    let w = Seq::new(12, |j: int| widened(m, right, j));
    assert(reached(m, right, forced));
    assert(w[forced]);
    assert forall|i: int| 0 <= i < 12 && #[trigger] w[i] implies (i > 0 && w[i - 1]) || (i < 11
        && w[i + 1]) by {
        if reached(m, right, i) {
            if points_right(right, i) {
                assert(reached(m, right, i + 1));
                assert(w[i + 1]);
            } else {
                assert(w[i - 1]);
            }
        } else {
            assert(w[i + 1]);
        }
    }
}

/// Widens every gap of `mask` by one neighbour, left to right; `right[i]` says
/// which way the gap at column `i` grows.
pub fn widen_gaps(mask: [bool; 12], right: [bool; 12]) -> (r: [bool; 12])
    ensures
        forall|j: int| 0 <= j < 12 ==> r[j] == widened(mask@, right@, j),
{
    let mut a = mask;
    let mut i: usize = 0;
    while i < 12
        invariant
            i <= 12,
            forall|j: int|
                0 <= j < i ==> a[j] == (reached(mask@, right@, j) || (j + 1 < i && j < 11 && reached(
                    mask@,
                    right@,
                    j + 1,
                ) && !points_right(right@, j + 1))),
            i < 12 ==> a[i as int] == reached(mask@, right@, i as int),
            forall|j: int| i < j < 12 ==> a[j] == mask@[j],
        decreases 12 - i,
    {
        if a[i] {
            if i == 0 {
                a[1] = true;
            } else if i == 11 {
                a[10] = true;
            } else if right[i] {
                a[i + 1] = true;
            } else {
                a[i - 1] = true;
            }
        }
        proof {
            if i + 1 < 12 {
                assert(reached(mask@, right@, i + 1) == (mask@[i + 1] || (reached(mask@, right@, i as int)
                    && points_right(right@, i as int))));
            }
        }
        i = i + 1;
    }
    a
}

/// A hedge mask from its draws: the cells that start as gaps, one cell forced
/// open, and the way each gap grows.
pub fn row_mask_from_draws(initial: [bool; 12], forced: usize, right: [bool; 12]) -> (r: [bool; 12])
    requires
        forced < 12,
    ensures
        forall|j: int| 0 <= j < 12 ==> r[j] == widened(initial@.update(forced as int, true), right@, j),
        gaps_reachable(r@),
{
    let mut seeded = initial;
    seeded[forced] = true;
    assert(seeded@ =~= initial@.update(forced as int, true));
    let r = widen_gaps(seeded, right);
    proof {
        lemma_widened_gaps_reachable(seeded@, right@, forced as int);
        assert(r@ =~= Seq::new(12, |j: int| widened(seeded@, right@, j)));
    }
    r
}

/// A fresh random hedge mask, `true` for a gap.
pub fn get_random_row_mask() -> (r: [bool; 12])
    ensures
        gaps_reachable(r@),
{
    let mut initial = [false; 12];
    let mut right = [false; 12];
    let mut i: usize = 0;
    while i < 12
        invariant
            i <= 12,
        decreases 12 - i,
    {
        initial[i] = get_random_i32(0, 99) < HEDGE_GAP_PERCENT;
        right[i] = coin_flip();
        i = i + 1;
    }
    let forced = get_random_i32(0, 11) as usize;
    row_mask_from_draws(initial, forced, right)
}

/// The hedge a new lane of category `kind` and sub-index `index` receives, given
/// the lane below it: a grass lane above the bottom half of a hedge completes the
/// pair with the same mask; one above a top half stays clear, so hedges never
/// touch; otherwise a grass lane of sub-index 8 to 13 starts a hedge on `start`.
pub open spec fn hedge_plan(
    kind: RowType,
    index: int,
    previous: Option<Lane>,
    start: bool,
    fresh: [bool; 12],
) -> Option<([bool; 12], HedgeHalf)> {
    if kind != RowType::GRASS {
        None
    } else if previous is Some && previous.unwrap().mask() is Some {
        if previous.unwrap().half() == Some(HedgeHalf::Bottom) {
            Some((previous.unwrap().mask().unwrap(), HedgeHalf::Top))
        } else {
            None
        }
    } else if start && 7 < index < 14 {
        Some((fresh, HedgeHalf::Bottom))
    } else {
        None
    }
}

/// `after` is `before` with the hedge of `hedge_plan` and nothing else changed.
pub open spec fn hedged(before: Lane, after: Lane, previous: Option<Lane>, start: bool, fresh: [bool; 12]) -> bool {
    &&& after.kind() == before.kind()
    &&& after.sub_index() == before.sub_index()
    &&& after.id() == before.id()
    &&& after.pos() == before.pos()
    &&& hedge_matches(after, previous, start, fresh)
}

/// `lane` carries the hedge of `hedge_plan` for its own category and sub-index.
pub open spec fn hedge_matches(lane: Lane, previous: Option<Lane>, start: bool, fresh: [bool; 12]) -> bool {
    match hedge_plan(lane.kind(), lane.sub_index(), previous, start, fresh) {
        Some((m, h)) => lane.mask() == Some(m) && lane.half() == Some(h),
        None => lane.mask() is None && lane.half() is None,
    }
}

/// Gives a freshly generated lane its hedge, given the lane below it.
pub fn decorate_hedge(lane: &mut Lane, previous: Option<Lane>, start: bool, fresh: [bool; 12])
    requires
        old(lane).mask() is None,
    ensures
        hedged(*old(lane), *final(lane), previous, start, fresh),
{
    let kind = lane.get_row_type();
    let index = lane.get_index();
    if kind == RowType::GRASS {
        match previous {
            Some(p) => match p.get_row_mask() {
                Some(m) => {
                    if p.get_row_data() == Some(HedgeHalf::Bottom) {
                        lane.set_row_mask(m);
                        lane.set_row_data(true);
                    }
                    return;
                },
                None => {},
            },
            None => {},
        }
        if start && 7 < index && index < 14 {
            lane.set_row_mask(fresh);
        }
    }
}

/// Draws and applies the hedge of a lane about to join `bg_rows`.
pub fn generate_hedge(next_bg_row: &mut Lane, bg_rows: &BackgroundRows)
    requires
        old(next_bg_row).mask() is None,
    ensures
        exists|start: bool, fresh: [bool; 12]|
            gaps_reachable(fresh@) && #[trigger] hedged(
                *old(next_bg_row),
                *final(next_bg_row),
                bg_rows.last_row_spec(),
                start,
                fresh,
            ),
{
    let previous = bg_rows.last_row();
    let start = coin_flip();
    let fresh = if start {
        get_random_row_mask()
    } else {
        [true; 12]
    };
    assert(gaps_reachable(fresh@)) by {
        if !start {
            assert(fresh@[0]);
        }
    }
    decorate_hedge(next_bg_row, previous, start, fresh);
}

} // verus!
