//! Laws of the focus engine and the button mapping, stated over the same
//! transition predicates the handlers' contracts use.

use vstd::prelude::*;
use vstd::arithmetic::div_mod::{
    lemma_add_mod_noop, lemma_add_mod_noop_right, lemma_fundamental_div_mod_converse,
    lemma_mod_bound, lemma_mod_multiples_vanish, lemma_small_mod,
};
use crate::state::{Cmd, Tabbed, button_index, cycle_index, cycle_post, swap_post, unmanage_post};

verus! {

/// A child list is held in a vector, so its length fits the machine.
proof fn lemma_children_len_bound(t: Tabbed)
    ensures
        t.children@.len() <= usize::MAX,
{
    assert(t.children@.len() == vstd::std_specs::vec::spec_vec_len(&t.children));
}

/// Stepping one tab up and then one tab down lands back where it
/// started, for any index within a non-empty list.
proof fn lemma_cycle_index_round_trip(f: int, n: int)
    requires
        0 < n,
        0 <= f < n,
    ensures
        cycle_index(cycle_index(f, 1, n), -1, n) == f,
{
    let g = (f + 1) % n;
    if f < n - 1 {
        lemma_small_mod((f + 1) as nat, n as nat);
        lemma_small_mod(f as nat, n as nat);
    } else {
        lemma_mod_multiples_vanish(1, 0, n);
        assert(g == 0);
        lemma_mod_multiples_vanish(1, -1, n);
        lemma_small_mod((n - 1) as nat, n as nat);
    }
}

/// Law: `cycle(+1)` followed by `cycle(-1)` restores the original focus
/// index, for any non-empty child list; the Euclidean remainder makes the
/// negative offset wrap instead of panicking.
pub proof fn lemma_cycle_round_trip(
    pre: Tabbed,
    mid: Tabbed,
    post: Tabbed,
    c1: Seq<Cmd>,
    c2: Seq<Cmd>,
)
    requires
        pre.wf(),
        pre.focused is Some,
        pre.children@.len() > 0,
        cycle_post(pre, mid, 1, c1),
        cycle_post(mid, post, -1, c2),
    ensures
        post.focused == pre.focused,
        post.children@ == pre.children@,
{
    lemma_children_len_bound(pre);
    let n = pre.children@.len() as int;
    let f = pre.focused.unwrap() as int;
    let g = cycle_index(f, 1, n);
    lemma_mod_bound(f + 1, n);
    lemma_mod_bound(g - 1, n);
    lemma_cycle_index_round_trip(f, n);
}

/// Stepping `offset` away and then `-offset` back lands where it
/// started, for any index within a non-empty list.
proof fn lemma_cycle_index_inverse(f: int, offset: int, n: int)
    requires
        0 < n,
        0 <= f < n,
    ensures
        cycle_index(cycle_index(f, offset, n), -offset, n) == f,
{
    let b = (f + offset) % n;
    lemma_add_mod_noop(f + offset, -offset, n);
    lemma_add_mod_noop_right(b % n, -offset, n);
    lemma_mod_bound(f + offset, n);
    lemma_small_mod(b as nat, n as nat);
    lemma_small_mod(f as nat, n as nat);
}

/// Law: `swap_with_neighbor(offset)` is its own inverse when reapplied
/// with `-offset` from the resulting focus position: the child order and
/// the focus both return to what they were, for any list of length at
/// least 2.
pub proof fn lemma_swap_round_trip(
    pre: Tabbed,
    mid: Tabbed,
    post: Tabbed,
    offset: int,
    c1: Seq<Cmd>,
    c2: Seq<Cmd>,
)
    requires
        pre.wf(),
        pre.focused is Some,
        pre.children@.len() >= 2,
        swap_post(pre, mid, offset, c1),
        swap_post(mid, post, -offset, c2),
    ensures
        post.focused == pre.focused,
        post.children@ == pre.children@,
{
    lemma_children_len_bound(pre);
    let n = pre.children@.len() as int;
    let a = pre.focused.unwrap() as int;
    let b = cycle_index(a, offset, n);
    lemma_mod_bound(a + offset, n);
    lemma_cycle_index_inverse(a, offset, n);
    assert(cycle_index(b, -offset, n) == a);
    assert(post.children@ =~= pre.children@);
}

/// Law: detaching the focused tab while other tabs remain moves the
/// focus to a valid neighboring tab: one step down, or, when the first
/// tab was focused, cyclically to the new last tab.
pub proof fn lemma_detach_focused_repair(pre: Tabbed, post: Tabbed, wid: u32, cmds: Seq<Cmd>)
    requires
        pre.wf(),
        pre.focused is Some,
        pre.children@.len() >= 2,
        pre.children@[pre.focused.unwrap() as int] == wid,
        unmanage_post(pre, post, wid, cmds),
    ensures
        post.children@.len() == pre.children@.len() - 1,
        post.focused is Some,
        (post.focused.unwrap() as int) < post.children@.len(),
        post.focused.unwrap() as int == (if pre.focused.unwrap() as int == 0 {
            post.children@.len() - 1
        } else {
            pre.focused.unwrap() as int - 1
        }),
{
    lemma_children_len_bound(pre);
    let n = pre.children@.len() as int;
    let f = pre.focused.unwrap() as int;
    assert(pre.children@.contains(wid));
    let idx = pre.children@.index_of(wid);
    assert(0 <= idx < n && pre.children@[idx] == wid);
    assert(idx == f) by {
        if idx < f {
            assert(pre.children@[idx] != pre.children@[f]);
        } else if f < idx {
            assert(pre.children@[f] != pre.children@[idx]);
        }
    }
    let t = cycle_index(f, -1, n - 1);
    if f == 0 {
        lemma_mod_multiples_vanish(1, -1, n - 1);
        lemma_small_mod((n - 2) as nat, (n - 1) as nat);
    } else {
        lemma_small_mod((f - 1) as nat, (n - 1) as nat);
    }
}

/// Law: with `n` tabs sharing width `w`, a press at `x = 0` selects tab
/// 0, and a press on the last column, `x = w - 1`, selects tab `n - 1` —
/// provided every slot is at least a pixel wide (`n <= w`; with more
/// tabs than pixels the last column falls into an earlier slot).
pub proof fn lemma_button_edges(n: int, w: int)
    requires
        0 < n <= w,
    ensures
        button_index(0, n, w) == 0,
        button_index(w - 1, n, w) == n - 1,
{
    lemma_fundamental_div_mod_converse(0, w, 0, 0);
    assert((w - 1) * n == w * (n - 1) + (w - n)) by (nonlinear_arith);
    lemma_fundamental_div_mod_converse((w - 1) * n, w, n - 1, w - n);
}

} // verus!
