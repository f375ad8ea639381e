//! Filtered views of a list and how a selection moves through them.
//!
//! A filtered view is described by the ascending positions of the items
//! that pass a predicate; the cursor holds a position in the full list.
use vstd::prelude::*;

verus! {

/// Ascending positions of the items of `items` that `keep` accepts.
pub open spec fn kept_indices<T>(items: Seq<T>, keep: spec_fn(T) -> bool) -> Seq<int>
    decreases items.len(),
{
    if items.len() == 0 {
        seq![]
    } else {
        let rest = kept_indices(items.drop_last(), keep);
        if keep(items.last()) {
            rest.push(items.len() - 1)
        } else {
            rest
        }
    }
}

/// The positions are strictly ascending.
pub open spec fn strictly_ascending(s: Seq<int>) -> bool {
    forall|a: int, b: int| 0 <= a < b < s.len() ==> s[a] < s[b]
}

/// The kept positions are ascending, lie inside the list, and are exactly
/// the positions of accepted items.
pub proof fn lemma_kept_indices<T>(items: Seq<T>, keep: spec_fn(T) -> bool)
    ensures
        strictly_ascending(kept_indices(items, keep)),
        kept_indices(items, keep).len() <= items.len(),
        forall|k: int|
            0 <= k < kept_indices(items, keep).len() ==> 0 <= #[trigger] kept_indices(
                items,
                keep,
            )[k] < items.len(),
        forall|i: int|
            0 <= i < items.len() ==> (kept_indices(items, keep).contains(i) <==> keep(
                #[trigger] items[i],
            )),
    decreases items.len(),
{
    if items.len() > 0 {
        let init = items.drop_last();
        lemma_kept_indices(init, keep);
        let rest = kept_indices(init, keep);
        let all = kept_indices(items, keep);
        assert forall|i: int| 0 <= i < items.len() implies (all.contains(i) <==> keep(
            #[trigger] items[i],
        )) by {
            if i < items.len() - 1 {
                assert(items[i] == init[i]);
                if all.contains(i) {
                    let k = choose|k: int| 0 <= k < all.len() && all[k] == i;
                    if k < rest.len() {
                        assert(rest[k] == i);
                    }
                }
                if rest.contains(i) {
                    let k = choose|k: int| 0 <= k < rest.len() && rest[k] == i;
                    assert(all[k] == i);
                }
            } else {
                if keep(items.last()) {
                    assert(all[all.len() - 1] == i);
                } else {
                    if all.contains(i) {
                        let k = choose|k: int| 0 <= k < all.len() && all[k] == i;
                        assert(rest[k] == i);
                    }
                }
            }
        }
    }
}

/// Every position of the list is kept when the predicate accepts every
/// item.
pub proof fn lemma_kept_all<T>(items: Seq<T>, keep: spec_fn(T) -> bool)
    requires
        forall|i: int| 0 <= i < items.len() ==> keep(#[trigger] items[i]),
    ensures
        kept_indices(items, keep) == Seq::new(items.len(), |i: int| i),
    decreases items.len(),
{
    if items.len() > 0 {
        let init = items.drop_last();
        assert forall|i: int| 0 <= i < init.len() implies keep(#[trigger] init[i]) by {
            assert(init[i] == items[i]);
        }
        lemma_kept_all(init, keep);
        assert(keep(items[items.len() - 1]));
        assert(kept_indices(items, keep) =~= Seq::new(items.len(), |i: int| i));
    }
}

/// The row of the filtered view at which `sel` sits, if any (its first
/// occurrence).
pub open spec fn row_of(vis: Seq<int>, sel: int) -> int {
    if exists|p: int| 0 <= p < vis.len() && vis[p] == sel {
        choose|p: int| 0 <= p < vis.len() && vis[p] == sel && forall|q: int| 0 <= q < p ==> vis[q] != sel
    } else {
        -1
    }
}

/// The selection after moving one row down in the filtered view: the next
/// visible position, or unchanged at the last row or when the selection is
/// not visible.
pub open spec fn step_down(vis: Seq<int>, sel: int) -> int {
    let p = row_of(vis, sel);
    if p >= 0 && p + 1 < vis.len() {
        vis[p + 1]
    } else {
        sel
    }
}

/// The selection after moving one row up in the filtered view: the
/// previous visible position, or unchanged at the first row or when the
/// selection is not visible.
pub open spec fn step_up(vis: Seq<int>, sel: int) -> int {
    let p = row_of(vis, sel);
    if p > 0 {
        vis[p - 1]
    } else {
        sel
    }
}

/// The selection after the filtered view changed: kept when still
/// visible, otherwise the first visible position, or 0 when nothing is
/// visible.
pub open spec fn clamp_to(vis: Seq<int>, sel: int) -> int {
    if vis.contains(sel) {
        sel
    } else if vis.len() > 0 {
        vis[0]
    } else {
        0
    }
}

/// `row_of` finds the row holding the selection.
pub proof fn lemma_row_of(vis: Seq<int>, sel: int)
    ensures
        row_of(vis, sel) >= -1,
        row_of(vis, sel) == -1 <==> !vis.contains(sel),
        row_of(vis, sel) >= 0 ==> 0 <= row_of(vis, sel) < vis.len() && vis[row_of(vis, sel)]
            == sel,
        forall|q: int| 0 <= q < row_of(vis, sel) ==> vis[q] != sel,
{
    if exists|p: int| 0 <= p < vis.len() && vis[p] == sel {
        let p0 = choose|p: int| 0 <= p < vis.len() && vis[p] == sel;
        lemma_first_witness(vis, sel, p0);
    }
}

proof fn lemma_first_witness(vis: Seq<int>, sel: int, p0: int)
    requires
        0 <= p0 < vis.len(),
        vis[p0] == sel,
    ensures
        exists|p: int| 0 <= p < vis.len() && vis[p] == sel && forall|q: int| 0 <= q < p ==> vis[q] != sel,
    decreases p0,
{
    if exists|q: int| 0 <= q < p0 && vis[q] == sel {
        let q = choose|q: int| 0 <= q < p0 && vis[q] == sel;
        lemma_first_witness(vis, sel, q);
    } else {
        assert(forall|q: int| 0 <= q < p0 ==> vis[q] != sel);
    }
}

/// The row of a position that sits at row `p` of a view is `p`.
pub proof fn lemma_row_of_at(vis: Seq<int>, sel: int, p: int)
    requires
        0 <= p < vis.len(),
        vis[p] == sel,
        forall|q: int| 0 <= q < p ==> vis[q] != sel,
    ensures
        row_of(vis, sel) == p,
{
    lemma_row_of(vis, sel);
    let r = row_of(vis, sel);
    if r < p {
        assert(vis[r] == sel);
    } else if r > p {
        assert(vis[p] != sel);
    }
}

/// Moving down and then up through a view returns to a visible selection
/// that was not on the last row.
pub proof fn lemma_step_down_up(vis: Seq<int>, sel: int)
    requires
        strictly_ascending(vis),
        vis.contains(sel),
        row_of(vis, sel) + 1 < vis.len(),
    ensures
        step_up(vis, step_down(vis, sel)) == sel,
{
    lemma_row_of(vis, sel);
    let p = row_of(vis, sel);
    let next = vis[p + 1];
    assert forall|q: int| 0 <= q < p + 1 implies vis[q] != next by {}
    lemma_row_of_at(vis, next, p + 1);
}

/// Moving up and then down through a view returns to a visible selection
/// that was not on the first row.
pub proof fn lemma_step_up_down(vis: Seq<int>, sel: int)
    requires
        strictly_ascending(vis),
        vis.contains(sel),
        row_of(vis, sel) > 0,
    ensures
        step_down(vis, step_up(vis, sel)) == sel,
{
    lemma_row_of(vis, sel);
    let p = row_of(vis, sel);
    let prev = vis[p - 1];
    assert forall|q: int| 0 <= q < p - 1 implies vis[q] != prev by {}
    lemma_row_of_at(vis, prev, p - 1);
}

/// Moving through a view keeps a visible selection visible.
pub proof fn lemma_steps_stay_visible(vis: Seq<int>, sel: int)
    requires
        vis.contains(sel),
    ensures
        vis.contains(step_down(vis, sel)),
        vis.contains(step_up(vis, sel)),
{
    lemma_row_of(vis, sel);
    let p = row_of(vis, sel);
    if p + 1 < vis.len() {
        assert(vis[p + 1] == step_down(vis, sel));
    }
    if p > 0 {
        assert(vis[p - 1] == step_up(vis, sel));
    }
}

/// After clamping, the selection is visible whenever anything is, and a
/// visible selection is left alone.
pub proof fn lemma_clamp(vis: Seq<int>, sel: int)
    ensures
        vis.len() > 0 ==> vis.contains(clamp_to(vis, sel)),
        vis.contains(sel) ==> clamp_to(vis, sel) == sel,
        clamp_to(vis, clamp_to(vis, sel)) == clamp_to(vis, sel),
{
    if vis.len() > 0 && !vis.contains(sel) {
        assert(vis[0] == clamp_to(vis, sel));
    }
}

/// Position `i` of `vis` holds `sel`, and no earlier position does.
pub fn find_row(vis: &Vec<usize>, sel: usize) -> (r: Option<usize>)
    ensures
        r is None ==> forall|k: int| 0 <= k < vis@.len() ==> vis@[k] != sel,
        r matches Some(p) ==> p < vis@.len() && vis@[p as int] == sel && forall|q: int|
            0 <= q < p ==> vis@[q] != sel,
{
    let mut i: usize = 0;
    while i < vis.len()
        invariant
            i <= vis@.len(),
            forall|k: int| 0 <= k < i ==> vis@[k] != sel,
        decreases vis@.len() - i,
    {
        if vis[i] == sel {
            return Some(i);
        }
        i = i + 1;
    }
    None
}

/// The positions of a view, as integers.
pub open spec fn as_ints(v: Seq<usize>) -> Seq<int> {
    v.map_values(|x: usize| x as int)
}

/// The new selection after moving down through the view `vis`.
pub fn move_down(vis: &Vec<usize>, sel: usize) -> (r: usize)
    ensures
        r as int == step_down(as_ints(vis@), sel as int),
{
    let ghost iv = as_ints(vis@);
    proof {
        lemma_row_of(iv, sel as int);
    }
    match find_row(vis, sel) {
        Some(p) => {
            proof {
                lemma_row_of_at(iv, sel as int, p as int);
            }
            if p < vis.len() - 1 {
                vis[p + 1]
            } else {
                sel
            }
        },
        None => {
            assert(!iv.contains(sel as int));
            sel
        },
    }
}

/// The new selection after moving up through the view `vis`.
pub fn move_up(vis: &Vec<usize>, sel: usize) -> (r: usize)
    ensures
        r as int == step_up(as_ints(vis@), sel as int),
{
    let ghost iv = as_ints(vis@);
    proof {
        lemma_row_of(iv, sel as int);
    }
    match find_row(vis, sel) {
        Some(p) => {
            proof {
                lemma_row_of_at(iv, sel as int, p as int);
            }
            if p > 0 {
                vis[p - 1]
            } else {
                sel
            }
        },
        None => {
            assert(!iv.contains(sel as int));
            sel
        },
    }
}

/// The selection after the view changed to `vis`.
pub fn clamp_selection(vis: &Vec<usize>, sel: usize) -> (r: usize)
    ensures
        r as int == clamp_to(as_ints(vis@), sel as int),
{
    let ghost iv = as_ints(vis@);
    match find_row(vis, sel) {
        Some(p) => {
            assert(iv[p as int] == sel as int);
            sel
        },
        None => {
            assert(!iv.contains(sel as int));
            if vis.len() > 0 {
                vis[0]
            } else {
                0
            }
        },
    }
}

} // verus!
