//! The tab-container controller: an event-driven state machine over the
//! ordered child list, the focus index, the cached names and the container
//! geometry.  Every handler consumes one already-decoded protocol event,
//! mutates the controller state, and returns the list of commands the
//! unverified shell must carry to the transport.  Detach is asynchronous:
//! issuing a reparent command does not remove the window from `children`;
//! removal happens when the resulting reparent or destroy notification
//! arrives.

use vstd::prelude::*;
use vstd::arithmetic::div_mod::{
    lemma_add_mod_noop, lemma_fundamental_div_mod, lemma_mod_bound, lemma_mod_multiples_vanish,
    lemma_small_mod,
};
use std::collections::HashMap;
use crate::config::{Action, Config, Keybind, mods_fold};

verus! {

broadcast use vstd::std_specs::hash::group_hash_axioms;

/// Height of the tab-bar band at the top of the container, in pixels.
pub const BAR_HEIGHT: u16 = 20;

/// The core protocol's predefined atom for the legacy window-name
/// property.
pub const WM_NAME_ATOM: u32 = 39;

/// One incoming protocol event, decoded to plain values by the shell.
#[derive(Clone, Copy, Debug, PartialEq, Eq, Structural)]
pub enum Event {
    /// A grabbed key went down: physical key code plus modifier mask.
    KeyPress { detail: u8, state: u16 },
    /// `window` now has parent `parent`.
    ReparentNotify { window: u32, parent: u32 },
    /// `window` was destroyed.
    DestroyNotify { window: u32 },
    /// `window` now has the given width and height.
    ConfigureNotify { window: u32, width: u16, height: u16 },
    /// `window` became viewable.
    MapNotify { window: u32 },
    /// A property named by `atom` changed on `window`.
    PropertyNotify { window: u32, atom: u32 },
    /// A pointer button went down at the given container coordinates.
    ButtonPress { event_x: i16, event_y: i16 },
    /// A generic client message: destination window, data format, and the
    /// first data word.
    ClientMessage { window: u32, format: u8, data0: u32 },
    /// The container gained input focus.
    FocusIn,
    /// The container lost input focus.
    FocusOut,
}

/// One command for the shell to carry to the transport.
#[derive(Clone, Copy, Debug, PartialEq, Eq, Structural)]
pub enum Cmd {
    /// Raise `window` above its siblings and size it to fill the
    /// container below the tab-bar band, with no border.
    RaiseAndFill { window: u32, width: u16, height: u16 },
    /// Give `window` the input focus.
    SetInputFocus { window: u32 },
    /// Subscribe to property-change notifications on `window`.
    WatchProperties { window: u32 },
    /// Read `window`'s display name and hand it back through
    /// [`Tabbed::check_name`].
    FetchName { window: u32 },
    /// Reparent `window` back to the screen root (a detach request; the
    /// child list is updated only when the notification comes back).
    ReparentToRoot { window: u32 },
    /// Resize the rendering surface to the new container geometry.
    ResizeSurface { width: u16, height: u16 },
}

/// The controller state.  The shell owns a single instance for the
/// process lifetime and feeds it one event at a time.
#[derive(Debug)]
pub struct Tabbed {
    /// The resolved configuration; immutable once handed over.
    pub config: Config,
    /// The container window's identifier.
    pub win_id: u32,
    /// Current container width, authoritative for tab layout.
    pub win_width: u16,
    /// Current container height.
    pub win_height: u16,
    /// The managed children, in tab display order; no duplicates.
    pub children: Vec<u32>,
    /// Cached display names of children, keyed by window identifier.
    /// Stale entries for removed windows are harmless: lookups are keyed
    /// by currently-present children.
    pub child_names: HashMap<u32, String>,
    /// The focused tab, if any; always a valid index into `children`.
    pub focused: Option<usize>,
    /// Whether the container itself holds input focus (tracked only).
    pub is_focused: bool,
    /// Liveness flag; the shell's loop exits when this goes false.
    pub running: bool,
    /// Whether a redraw is owed before the next blocking wait.
    pub need_redraw: bool,
    /// Close the container when the last tab detaches.
    pub close_on_empty: bool,
    /// The interned atom of the cooperative delete protocol, used to
    /// recognise the close request addressed to the container.
    pub wm_delete_window: u32,
}

impl Tabbed {
    /// No window is tracked twice.
    pub open spec fn tabs_distinct(self) -> bool {
        forall|i: int, j: int|
            0 <= i < j < self.children@.len() ==> self.children@[i] != self.children@[j]
    }

    /// The focus index, when present, points into `children`.
    pub open spec fn focus_valid(self) -> bool {
        match self.focused {
            Some(f) => f < self.children@.len(),
            None => true,
        }
    }

    /// The controller invariant: distinct children and a valid focus.
    pub open spec fn wf(self) -> bool {
        self.tabs_distinct() && self.focus_valid()
    }
}

/// The fields only the constructor writes are carried over unchanged.
pub open spec fn keeps_env(pre: Tabbed, post: Tabbed) -> bool {
    &&& post.config == pre.config
    &&& post.win_id == pre.win_id
    &&& post.close_on_empty == pre.close_on_empty
    &&& post.wm_delete_window == pre.wm_delete_window
}

/// The container geometry is carried over unchanged.
pub open spec fn keeps_dims(pre: Tabbed, post: Tabbed) -> bool {
    post.win_width == pre.win_width && post.win_height == pre.win_height
}

/// The height left for the focused child below the tab-bar band.
pub open spec fn content_height(h: u16) -> u16 {
    if h >= BAR_HEIGHT {
        (h - BAR_HEIGHT) as u16
    } else {
        0u16
    }
}

/// The commands focusing the tab at index `i` of state `t` issues: raise
/// and resize the child to the content area, then hand it input focus.
pub open spec fn focus_cmds(t: Tabbed, i: int) -> Seq<Cmd> {
    seq![
        Cmd::RaiseAndFill {
            window: t.children@[i],
            width: t.win_width,
            height: content_height(t.win_height),
        },
        Cmd::SetInputFocus { window: t.children@[i] },
    ]
}

/// How `focus(target)` relates the state before to the state after.  An
/// out-of-range request (e.g. from a stale button press) is silently
/// ignored; a valid one records the new focus, owes a redraw when the
/// focus actually changed, and issues the raise/resize/input-focus
/// commands for the target.
pub open spec fn focus_post(pre: Tabbed, post: Tabbed, target: Option<usize>, cmds: Seq<Cmd>) -> bool {
    let ignored = match target {
        Some(i) => i >= pre.children@.len(),
        None => false,
    };
    if ignored {
        post == pre && cmds =~= Seq::<Cmd>::empty()
    } else {
        &&& keeps_env(pre, post)
        &&& keeps_dims(pre, post)
        &&& post.children@ == pre.children@
        &&& post.child_names@ == pre.child_names@
        &&& post.is_focused == pre.is_focused
        &&& post.running == pre.running
        &&& post.focused == target
        &&& post.need_redraw == (pre.need_redraw || pre.focused != target)
        &&& cmds =~= (match target {
            Some(i) => focus_cmds(post, i as int),
            None => Seq::<Cmd>::empty(),
        })
    }
}

/// The index `offset` steps away from `i`, cyclically: the Euclidean
/// remainder of `i + offset` by `len`, which lies in `[0, len)` for any
/// `i` and `offset` once `len > 0`.
pub open spec fn cycle_index(i: int, offset: int, len: int) -> int {
    (i + offset) % len
}

/// How `cycle_focus_relative(offset)` relates the states: with a focus
/// and a non-empty child list it focuses the tab `offset` steps away,
/// cyclically; otherwise it clears the focus.
pub open spec fn cycle_post(pre: Tabbed, post: Tabbed, offset: int, cmds: Seq<Cmd>) -> bool {
    match pre.focused {
        Some(f) => if pre.children@.len() > 0 {
            focus_post(
                pre,
                post,
                Some(cycle_index(f as int, offset, pre.children@.len() as int) as usize),
                cmds,
            )
        } else {
            focus_post(pre, post, None, cmds)
        },
        None => focus_post(pre, post, None, cmds),
    }
}

/// The child list with the entries at `a` and `b` exchanged.
pub open spec fn swap_pair(s: Seq<u32>, a: int, b: int) -> Seq<u32> {
    s.update(a, s[b]).update(b, s[a])
}

/// How `swap_focused_relative(offset)` relates the states: with a focus
/// and a non-empty list, the focused entry and the entry `offset` steps
/// away (cyclically) trade places, and focus follows the originally
/// focused tab to its new position; otherwise nothing happens.
pub open spec fn swap_post(pre: Tabbed, post: Tabbed, offset: int, cmds: Seq<Cmd>) -> bool {
    match pre.focused {
        Some(a) => if pre.children@.len() > 0 && a < pre.children@.len() {
            let n = pre.children@.len() as int;
            let b = cycle_index(a as int, offset, n);
            &&& keeps_env(pre, post)
            &&& keeps_dims(pre, post)
            &&& post.children@ == swap_pair(pre.children@, a as int, b)
            &&& post.child_names@ == pre.child_names@
            &&& post.is_focused == pre.is_focused
            &&& post.running == pre.running
            &&& post.focused == Some(b as usize)
            &&& post.need_redraw == (pre.need_redraw || a != b)
            &&& cmds =~= focus_cmds(post, b)
        } else {
            post == pre && cmds =~= Seq::<Cmd>::empty()
        },
        None => post == pre && cmds =~= Seq::<Cmd>::empty(),
    }
}

/// The Euclidean remainder of a negated non-negative number.
proof fn lemma_neg_mod(n: int, len: int)
    requires
        len > 0,
        n >= 0,
    ensures
        (-n) % len == (len - (n % len)) % len,
{
    lemma_fundamental_div_mod(n, len);
    let q = n / len;
    let r = n % len;
    lemma_mod_bound(n, len);
    assert(len * (-q) == -(len * q)) by (nonlinear_arith);
    assert(-n == len * (-q) + (len - r) + (-len)) by {
        assert(n == len * q + r);
    }
    assert(-n == len * (-q - 1) + (len - r)) by {
        assert(len * (-q - 1) == len * (-q) - len) by (nonlinear_arith);
    }
    lemma_mod_multiples_vanish(-q - 1, len - r, len);
}

/// Step `offset` tabs away from index `i` in a cyclic list of `len`
/// entries, using the always-non-negative (Euclidean) remainder, so that
/// negative offsets wrap instead of panicking.  `i` itself may be stale
/// (as after a removal) and is reduced as well.
fn euclid_step(i: usize, offset: i32, len: usize) -> (r: usize)
    requires
        len > 0,
    ensures
        r == cycle_index(i as int, offset as int, len as int),
        r < len,
{
    let m: usize = if offset >= 0 {
        proof {
            lemma_mod_bound(offset as int, len as int);
        }
        (offset as usize) % len
    } else {
        let neg: usize = ((-(offset as i64)) as usize) % len;
        proof {
            lemma_mod_bound(-(offset as int), len as int);
            lemma_mod_bound((0 - offset) as int, len as int);
            lemma_mod_bound((len - neg) as int, len as int);
            lemma_neg_mod(0 - offset, len as int);
        }
        (len - neg) % len
    };
    proof {
        lemma_mod_bound(offset as int, len as int);
        lemma_mod_bound(i as int, len as int);
        assert(m == (offset as int) % (len as int));
    }
    let base: usize = i % len;
    let r: usize = if m == 0 {
        base
    } else if base >= len - m {
        base - (len - m)
    } else {
        base + m
    };
    proof {
        let il = i as int;
        let ol = offset as int;
        let nl = len as int;
        assert(r == (base + m) % nl) by {
            if m == 0 {
                lemma_small_mod(base as nat, nl as nat);
            } else if base + m >= nl {
                lemma_mod_multiples_vanish(1, base + m - nl, nl);
                lemma_small_mod((base + m - nl) as nat, nl as nat);
            } else {
                lemma_small_mod((base + m) as nat, nl as nat);
            }
        }
        lemma_add_mod_noop(il, ol, nl);
        lemma_mod_bound(il + ol, nl);
    }
    r
}

/// Whether `v` holds `w`.
pub fn contains_window(v: &Vec<u32>, w: u32) -> (r: bool)
    ensures
        r == v@.contains(w),
{
    let mut i: usize = 0;
    while i < v.len()
        invariant
            i <= v@.len(),
            forall|k: int| 0 <= k < i ==> v@[k] != w,
        decreases v@.len() - i,
    {
        if v[i] == w {
            return true;
        }
        i = i + 1;
    }
    false
}

/// The position of `w` in `v`, if it is there.
pub fn position_window(v: &Vec<u32>, w: u32) -> (r: Option<usize>)
    ensures
        match r {
            Some(i) => i < v@.len() && v@[i as int] == w,
            None => !v@.contains(w),
        },
{
    let mut i: usize = 0;
    while i < v.len()
        invariant
            i <= v@.len(),
            forall|k: int| 0 <= k < i ==> v@[k] != w,
        decreases v@.len() - i,
    {
        if v[i] == w {
            return Some(i);
        }
        i = i + 1;
    }
    None
}

/// In a duplicate-free sequence, any position holding `w` is the one
/// `index_of` names.
pub proof fn lemma_index_of_unique(s: Seq<u32>, w: u32, i: int)
    requires
        forall|p: int, q: int| 0 <= p < q < s.len() ==> s[p] != s[q],
        0 <= i < s.len(),
        s[i] == w,
    ensures
        s.index_of(w) == i,
{
    assert(s.contains(w));
    let j = s.index_of(w);
    assert(0 <= j < s.len() && s[j] == w);
    if i < j {
        assert(s[i] != s[j]);
    } else if j < i {
        assert(s[j] != s[i]);
    }
}

/// How `manage(wid)` relates the states: the window is appended as the
/// last tab and focused, the shell is told to raise and fill it, give it
/// input focus, subscribe to its property changes, and fetch its name,
/// and a redraw is owed.
pub open spec fn manage_post(pre: Tabbed, post: Tabbed, wid: u32, cmds: Seq<Cmd>) -> bool {
    let n = pre.children@.len() as int;
    &&& keeps_env(pre, post)
    &&& keeps_dims(pre, post)
    &&& post.children@ == pre.children@.push(wid)
    &&& post.child_names@ == pre.child_names@
    &&& post.is_focused == pre.is_focused
    &&& post.running == pre.running
    &&& post.focused == Some(pre.children@.len() as usize)
    &&& post.need_redraw == true
    &&& cmds =~= focus_cmds(post, n) + seq![
        Cmd::WatchProperties { window: wid },
        Cmd::FetchName { window: wid },
    ]
}

/// How `unmanage(wid)` relates the states: an untracked window is a
/// no-op; otherwise the window leaves the child list, the close-on-empty
/// policy may end the loop, and when the removal was at or before the
/// focus index the focus is repaired one step down, cyclically.
pub open spec fn unmanage_post(pre: Tabbed, post: Tabbed, wid: u32, cmds: Seq<Cmd>) -> bool {
    if !pre.children@.contains(wid) {
        post == pre && cmds =~= Seq::<Cmd>::empty()
    } else {
        let idx = pre.children@.index_of(wid);
        let kids = pre.children@.remove(idx);
        &&& keeps_env(pre, post)
        &&& keeps_dims(pre, post)
        &&& post.children@ == kids
        &&& post.child_names@ == pre.child_names@
        &&& post.is_focused == pre.is_focused
        &&& post.running == (if pre.close_on_empty && kids.len() == 0 {
            false
        } else {
            pre.running
        })
        &&& post.need_redraw == true
        &&& (match pre.focused {
            Some(f) => if idx <= f {
                if kids.len() == 0 {
                    post.focused is None && cmds =~= Seq::<Cmd>::empty()
                } else {
                    let t = cycle_index(f as int, -1, kids.len() as int);
                    post.focused == Some(t as usize) && cmds =~= focus_cmds(post, t)
                }
            } else {
                post.focused == pre.focused && cmds =~= Seq::<Cmd>::empty()
            },
            None => post.focused is None && cmds =~= Seq::<Cmd>::empty(),
        })
    }
}

/// How `check_name(wid, name)` relates the states: the cache takes the
/// freshly read name, and a redraw is owed exactly when the resolved
/// value differs from what was cached.
pub open spec fn check_name_post(pre: Tabbed, post: Tabbed, wid: u32, name: String) -> bool {
    &&& keeps_env(pre, post)
    &&& keeps_dims(pre, post)
    &&& post.children@ == pre.children@
    &&& post.focused == pre.focused
    &&& post.is_focused == pre.is_focused
    &&& post.running == pre.running
    &&& post.child_names@ == pre.child_names@.insert(wid, name)
    &&& post.need_redraw == (pre.need_redraw || !(pre.child_names@.contains_key(wid)
        && pre.child_names@[wid]@ == name@))
}

/// How `detach_focused` relates the states: the state is untouched (the
/// removal arrives later as a notification); the focused child, if any,
/// is asked back to the root.
pub open spec fn detach_focused_post(pre: Tabbed, post: Tabbed, cmds: Seq<Cmd>) -> bool {
    &&& post == pre
    &&& cmds =~= (match pre.focused {
        Some(f) => seq![Cmd::ReparentToRoot { window: pre.children@[f as int] }],
        None => Seq::<Cmd>::empty(),
    })
}

/// How `detach_all` relates the states: the state is untouched; every
/// child is asked back to the root, in tab order.
pub open spec fn detach_all_post(pre: Tabbed, post: Tabbed, cmds: Seq<Cmd>) -> bool {
    &&& post == pre
    &&& cmds.len() == pre.children@.len()
    &&& forall|i: int|
        0 <= i < cmds.len() ==> cmds[i] == (Cmd::ReparentToRoot { window: pre.children@[i] })
}

impl Tabbed {
    /// Build the controller for a freshly created container window: no
    /// children, no focus, alive, with a first paint owed.
    pub fn new(
        config: Config,
        win_id: u32,
        win_width: u16,
        win_height: u16,
        close_on_empty: bool,
        wm_delete_window: u32,
    ) -> (t: Tabbed)
        ensures
            t.wf(),
            t.config == config,
            t.win_id == win_id,
            t.win_width == win_width,
            t.win_height == win_height,
            t.children@ =~= Seq::<u32>::empty(),
            t.child_names@ =~= Map::<u32, String>::empty(),
            t.focused is None,
            t.is_focused == true,
            t.running == true,
            t.need_redraw == true,
            t.close_on_empty == close_on_empty,
            t.wm_delete_window == wm_delete_window,
    {
        Tabbed {
            config,
            win_id,
            win_width,
            win_height,
            children: Vec::new(),
            child_names: HashMap::new(),
            focused: None,
            is_focused: true,
            running: true,
            need_redraw: true,
            close_on_empty,
            wm_delete_window,
        }
    }

    /// Focus the tab at `target` (or clear the focus for `None`): raise
    /// the child, size it to the content area below the tab bar, and ask
    /// the transport to hand it input focus.  An out-of-range index is
    /// silently ignored, never an error.
    pub fn focus(&mut self, target: Option<usize>) -> (cmds: Vec<Cmd>)
        requires
            old(self).tabs_distinct(),
        ensures
            final(self).tabs_distinct(),
            old(self).focus_valid() ==> final(self).wf(),
            (match target {
                Some(i) => i < old(self).children@.len(),
                None => true,
            }) ==> final(self).wf(),
            focus_post(*old(self), *final(self), target, cmds@),
    {
        let mut cmds: Vec<Cmd> = Vec::new();
        if let Some(i) = target {
            if i >= self.children.len() {
                return cmds;
            }
        }
        let changed: bool = match (self.focused, target) {
            (Some(a), Some(b)) => a != b,
            (None, None) => false,
            _ => true,
        };
        if changed {
            self.need_redraw = true;
        }
        self.focused = target;
        if let Some(i) = self.focused {
            let window = self.children[i];
            let height = if self.win_height >= BAR_HEIGHT {
                self.win_height - BAR_HEIGHT
            } else {
                0
            };
            cmds.push(Cmd::RaiseAndFill { window, width: self.win_width, height });
            cmds.push(Cmd::SetInputFocus { window });
        }
        cmds
    }

    /// Move the focus `offset` tabs away, cyclically; a no-op (cleared
    /// focus) when there is no focus or no child.
    pub fn cycle_focus_relative(&mut self, offset: i32) -> (cmds: Vec<Cmd>)
        requires
            old(self).tabs_distinct(),
        ensures
            final(self).wf(),
            cycle_post(*old(self), *final(self), offset as int, cmds@),
    {
        let len = self.children.len();
        let target: Option<usize> = match self.focused {
            Some(i) => if len > 0 {
                Some(euclid_step(i, offset, len))
            } else {
                None
            },
            None => None,
        };
        self.focus(target)
    }

    /// Cycle the focus one tab towards lower indices.
    pub fn cycle_focus_down(&mut self) -> (cmds: Vec<Cmd>)
        requires
            old(self).tabs_distinct(),
        ensures
            final(self).wf(),
            cycle_post(*old(self), *final(self), -1, cmds@),
    {
        self.cycle_focus_relative(-1)
    }

    /// Cycle the focus one tab towards higher indices.
    pub fn cycle_focus_up(&mut self) -> (cmds: Vec<Cmd>)
        requires
            old(self).tabs_distinct(),
        ensures
            final(self).wf(),
            cycle_post(*old(self), *final(self), 1, cmds@),
    {
        self.cycle_focus_relative(1)
    }

    /// Swap the focused tab with the tab `offset` steps away, cyclically,
    /// then re-focus the originally focused tab at its new position: the
    /// tab the user is looking at keeps keyboard focus while its list
    /// position moves.
    pub fn swap_focused_relative(&mut self, offset: i32) -> (cmds: Vec<Cmd>)
        requires
            old(self).wf(),
        ensures
            final(self).wf(),
            swap_post(*old(self), *final(self), offset as int, cmds@),
    {
        let len = self.children.len();
        if let Some(a) = self.focused {
            if len > 0 {
                let b = euclid_step(a, offset, len);
                let va = self.children[a];
                let vb = self.children[b];
                self.children.set(a, vb);
                self.children.set(b, va);
                proof {
                    assert(self.children@ == swap_pair(old(self).children@, a as int, b as int));
                    assert forall|i: int, j: int|
                        0 <= i < j < self.children@.len() implies self.children@[i]
                        != self.children@[j] by {
                        assert(old(self).tabs_distinct());
                    }
                }
                let cmds = self.focus(Some(b));
                proof {
                    assert(cmds@ =~= focus_cmds(*self, b as int));
                }
                cmds
            } else {
                Vec::new()
            }
        } else {
            Vec::new()
        }
    }

    /// Adopt `wid` as the newest tab and focus it.  The dispatcher
    /// guarantees `manage` is only invoked for windows not already
    /// tracked.
    pub fn manage(&mut self, wid: u32) -> (cmds: Vec<Cmd>)
        requires
            old(self).wf(),
            !old(self).children@.contains(wid),
        ensures
            final(self).wf(),
            manage_post(*old(self), *final(self), wid, cmds@),
    {
        self.children.push(wid);
        proof {
            assert forall|i: int, j: int|
                0 <= i < j < self.children@.len() implies self.children@[i]
                != self.children@[j] by {
                if j == self.children@.len() - 1 {
                    assert(old(self).children@[i] == self.children@[i]);
                    assert(old(self).children@.contains(self.children@[i])) by {
                        assert(old(self).children@[i] == self.children@[i]);
                    }
                }
            }
        }
        let idx = self.children.len() - 1;
        let mut cmds = self.focus(Some(idx));
        cmds.push(Cmd::WatchProperties { window: wid });
        cmds.push(Cmd::FetchName { window: wid });
        self.need_redraw = true;
        cmds
    }

    /// Drop `wid` from the tracked tabs, if it is one: apply the
    /// close-on-empty policy, and repair the focus one step down when the
    /// removal was at or before it.
    pub fn unmanage(&mut self, wid: u32) -> (cmds: Vec<Cmd>)
        requires
            old(self).wf(),
        ensures
            final(self).wf(),
            unmanage_post(*old(self), *final(self), wid, cmds@),
    {
        let maybe_index = position_window(&self.children, wid);
        if let Some(index) = maybe_index {
            proof {
                assert(old(self).children@.contains(wid));
                lemma_index_of_unique(old(self).children@, wid, index as int);
                old(self).children@.remove_ensures(index as int);
            }
            let _removed = self.children.remove(index);
            proof {
                assert forall|i: int, j: int|
                    0 <= i < j < self.children@.len() implies self.children@[i]
                    != self.children@[j] by {
                    assert(old(self).tabs_distinct());
                }
            }
            if self.close_on_empty && self.children.len() == 0 {
                self.running = false;
            }
            let repair: bool = match self.focused {
                Some(f) => index <= f,
                None => false,
            };
            let cmds = if repair {
                self.cycle_focus_down()
            } else {
                Vec::new()
            };
            self.need_redraw = true;
            let cur_len = self.children.len();
            proof {
                assert(cur_len == self.children@.len());
                let pre = *old(self);
                let idxg = pre.children@.index_of(wid);
                let kids = pre.children@.remove(idxg);
                match pre.focused {
                    Some(f) => if idxg <= f && kids.len() > 0 {
                        let t = cycle_index(f as int, -1, kids.len() as int);
                        lemma_mod_bound(f as int - 1, kids.len() as int);
                        assert(0 <= t < kids.len() as int);
                        assert(self.children@ == kids);
                        assert((t as usize) as int == t);
                        assert(cmds@ =~= focus_cmds(*self, t));
                    },
                    None => {},
                }
            }
            cmds
        } else {
            Vec::new()
        }
    }

    /// Take the freshly read display name of `wid` into the cache, and
    /// owe a redraw when it differs from what was cached.  The shell
    /// calls this in answer to a [`Cmd::FetchName`] command, with the
    /// empty string when the window no longer answers.
    pub fn check_name(&mut self, wid: u32, new_name: String)
        requires
            old(self).wf(),
        ensures
            final(self).wf(),
            check_name_post(*old(self), *final(self), wid, new_name),
    {
        let same: bool = match self.child_names.get(&wid) {
            Some(existing) => existing.eq(&new_name),
            None => false,
        };
        self.child_names.insert(wid, new_name);
        if !same {
            self.need_redraw = true;
        }
    }

    /// Ask the focused child, if any, back to the screen root.  The
    /// child list is deliberately left untouched: removal arrives with
    /// the reparent notification, and the attach point may reject or
    /// delay it.
    pub fn detach_focused(&mut self) -> (cmds: Vec<Cmd>)
        requires
            old(self).wf(),
        ensures
            final(self).wf(),
            detach_focused_post(*old(self), *final(self), cmds@),
    {
        let mut cmds: Vec<Cmd> = Vec::new();
        if let Some(index) = self.focused {
            let active = self.children[index];
            cmds.push(Cmd::ReparentToRoot { window: active });
        }
        cmds
    }

    /// Ask every child back to the screen root, in tab order, with the
    /// same asynchronous-removal property as `detach_focused`.
    pub fn detach_all(&mut self) -> (cmds: Vec<Cmd>)
        requires
            old(self).wf(),
        ensures
            final(self).wf(),
            detach_all_post(*old(self), *final(self), cmds@),
    {
        let mut cmds: Vec<Cmd> = Vec::new();
        let mut i: usize = 0;
        while i < self.children.len()
            invariant
                i <= self.children@.len(),
                cmds@.len() == i,
                forall|k: int|
                    0 <= k < i ==> cmds@[k] == (Cmd::ReparentToRoot {
                        window: self.children@[k],
                    }),
            decreases self.children@.len() - i,
        {
            cmds.push(Cmd::ReparentToRoot { window: self.children[i] });
            i = i + 1;
        }
        cmds
    }

    /// Apply one keybinding action through the focus engine and the
    /// detach protocol.
    pub fn do_action(&mut self, action: &Action) -> (cmds: Vec<Cmd>)
        requires
            old(self).wf(),
        ensures
            final(self).wf(),
            action_post(*old(self), *final(self), *action, cmds@),
    {
        match action {
            Action::FocusUp => self.cycle_focus_up(),
            Action::FocusDown => self.cycle_focus_down(),
            Action::ShiftUp => self.swap_focused_relative(1),
            Action::ShiftDown => self.swap_focused_relative(-1),
            Action::Focus(index) => self.focus(Some(*index)),
            Action::DetachFocused => self.detach_focused(),
            Action::DetachAll => self.detach_all(),
            Action::ToggleAutoAttach => Vec::new(),
        }
    }

    /// Answer a grabbed key: the first keybinding rule matching both the
    /// key code and the modifier mask, in list order, has its action
    /// applied; an unbound chord does nothing.
    pub fn handle_key_press(&mut self, detail: u8, state: u16) -> (cmds: Vec<Cmd>)
        requires
            old(self).wf(),
        ensures
            final(self).wf(),
            key_press_post(*old(self), *final(self), detail, state, cmds@),
    {
        let found = find_action(&self.config.keybinds, detail, state);
        match found {
            Some(action) => self.do_action(&action),
            None => Vec::new(),
        }
    }

    /// Answer a reparent notification: into the container it is a focus
    /// request for a tracked window and an attach for a new one; anywhere
    /// else it is a detach.
    pub fn handle_reparent_notify(&mut self, window: u32, parent: u32) -> (cmds: Vec<Cmd>)
        requires
            old(self).wf(),
        ensures
            final(self).wf(),
            reparent_post(*old(self), *final(self), window, parent, cmds@),
    {
        if parent == self.win_id {
            match position_window(&self.children, window) {
                Some(index) => {
                    proof {
                        assert(old(self).children@.contains(window));
                        lemma_index_of_unique(old(self).children@, window, index as int);
                    }
                    self.focus(Some(index))
                },
                None => self.manage(window),
            }
        } else {
            self.unmanage(window)
        }
    }

    /// Answer a destroy notification: the window is gone, drop it.
    pub fn handle_destroy_notify(&mut self, window: u32) -> (cmds: Vec<Cmd>)
        requires
            old(self).wf(),
        ensures
            final(self).wf(),
            unmanage_post(*old(self), *final(self), window, cmds@),
    {
        self.unmanage(window)
    }

    /// Answer a configure notification on the container: record a real
    /// geometry change, resize the surface, re-fit the focused child and
    /// owe a redraw.
    pub fn handle_configure_notify(&mut self, window: u32, width: u16, height: u16) -> (cmds:
        Vec<Cmd>)
        requires
            old(self).wf(),
        ensures
            final(self).wf(),
            configure_post(*old(self), *final(self), window, width, height, cmds@),
    {
        let mut cmds: Vec<Cmd> = Vec::new();
        if window == self.win_id {
            if width == self.win_width && height == self.win_height {
                return cmds;
            }
            self.win_width = width;
            self.win_height = height;
            cmds.push(Cmd::ResizeSurface { width, height });
            let target = self.focused;
            let mut fcmds = self.focus(target);
            cmds.append(&mut fcmds);
            self.need_redraw = true;
        }
        cmds
    }

    /// Answer a map notification: when the container (re)appears with a
    /// focused tab, owe a first paint.
    pub fn handle_map_notify(&mut self, window: u32) -> (cmds: Vec<Cmd>)
        requires
            old(self).wf(),
        ensures
            final(self).wf(),
            map_post(*old(self), *final(self), window, cmds@),
    {
        if window == self.win_id && self.focused.is_some() {
            self.need_redraw = true;
        }
        Vec::new()
    }

    /// Answer a property notification: a name change on a tracked child
    /// has the shell re-read the name and hand it back.
    pub fn handle_property_notify(&mut self, window: u32, atom: u32) -> (cmds: Vec<Cmd>)
        requires
            old(self).wf(),
        ensures
            final(self).wf(),
            property_post(*old(self), *final(self), window, atom, cmds@),
    {
        let mut cmds: Vec<Cmd> = Vec::new();
        if contains_window(&self.children, window) && atom == WM_NAME_ATOM {
            cmds.push(Cmd::FetchName { window });
        }
        cmds
    }

    /// Answer a button press: a press in the tab-bar band focuses the tab
    /// whose equal-width slot it hits; a press below the band or with no
    /// children is ignored.
    pub fn handle_button_press(&mut self, event_x: i16, event_y: i16) -> (cmds: Vec<Cmd>)
        requires
            old(self).wf(),
        ensures
            final(self).wf(),
            button_post(*old(self), *final(self), event_x, event_y, cmds@),
    {
        let none: Vec<Cmd> = Vec::new();
        let n = self.children.len();
        if n == 0 || event_y > 20 || self.win_width == 0 {
            return none;
        }
        let xi: u64 = if event_x < 0 {
            0
        } else {
            event_x as u64
        };
        proof {
            assert((xi as int) * (n as int) <= 0x8000 * 0xffff_ffff_ffff_ffff) by (nonlinear_arith)
                requires
                    0 <= xi as int <= 0x8000,
                    0 <= n as int <= 0xffff_ffff_ffff_ffff,
            ;
        }
        let prod: u128 = (xi as u128) * (n as u128);
        let bi: u128 = prod / (self.win_width as u128);
        if bi < n as u128 {
            self.focus(Some(bi as usize))
        } else {
            none
        }
    }

    /// Route one decoded protocol event to its handler.  This is the
    /// whole per-event step: after it, the shell redraws if a redraw is
    /// owed and synchronizes with the transport.
    pub fn handle_event(&mut self, event: &Event) -> (cmds: Vec<Cmd>)
        requires
            old(self).wf(),
        ensures
            final(self).wf(),
            event_post(*old(self), *final(self), *event, cmds@),
    {
        match *event {
            Event::KeyPress { detail, state } => self.handle_key_press(detail, state),
            Event::ReparentNotify { window, parent } => self.handle_reparent_notify(
                window,
                parent,
            ),
            Event::DestroyNotify { window } => self.handle_destroy_notify(window),
            Event::ConfigureNotify { window, width, height } => self.handle_configure_notify(
                window,
                width,
                height,
            ),
            Event::MapNotify { window } => self.handle_map_notify(window),
            Event::PropertyNotify { window, atom } => self.handle_property_notify(window, atom),
            Event::ButtonPress { event_x, event_y } => self.handle_button_press(event_x, event_y),
            Event::ClientMessage { window, format, data0 } => {
                if format == 32 && window == self.win_id && data0 == self.wm_delete_window {
                    self.running = false;
                }
                Vec::new()
            },
            Event::FocusIn => {
                self.is_focused = true;
                Vec::new()
            },
            Event::FocusOut => {
                self.is_focused = false;
                Vec::new()
            },
        }
    }

    /// Begin the cooperative shutdown: mark the loop as done and hand
    /// back the children still attached, so the shell can offer each one
    /// that advertises the delete protocol a delete request.
    pub fn cleanup(&mut self) -> (targets: Vec<u32>)
        requires
            old(self).wf(),
        ensures
            final(self).wf(),
            final(self).running == false,
            keeps_env(*old(self), *final(self)),
            keeps_dims(*old(self), *final(self)),
            final(self).children@ == old(self).children@,
            final(self).child_names@ == old(self).child_names@,
            final(self).focused == old(self).focused,
            final(self).is_focused == old(self).is_focused,
            final(self).need_redraw == old(self).need_redraw,
            targets@ == old(self).children@,
    {
        let mut targets: Vec<u32> = Vec::new();
        let mut i: usize = 0;
        while i < self.children.len()
            invariant
                i <= self.children@.len(),
                targets@ =~= self.children@.take(i as int),
                self == old(self),
            decreases self.children@.len() - i,
        {
            targets.push(self.children[i]);
            i = i + 1;
        }
        proof {
            assert(self.children@.take(self.children@.len() as int) =~= self.children@);
        }
        self.running = false;
        targets
    }
}

/// Whether a keybinding rule answers a key event: exact match on the key
/// code and on the modifier mask.
pub open spec fn kb_matches(kb: Keybind, detail: u8, state: u16) -> bool {
    kb.key == detail && mods_fold(kb.modifiers@) == state
}

/// The action of the first rule, in list order, that answers the key
/// event; rules may overlap, the first match wins.
pub open spec fn first_match(kbs: Seq<Keybind>, detail: u8, state: u16) -> Option<Action>
    decreases kbs.len(),
{
    if kbs.len() == 0 {
        None
    } else if kb_matches(kbs[0], detail, state) {
        Some(kbs[0].action)
    } else {
        first_match(kbs.drop_first(), detail, state)
    }
}

/// A prefix without a match does not change which rule answers first.
proof fn lemma_first_match_skip(kbs: Seq<Keybind>, detail: u8, state: u16, i: int)
    requires
        0 <= i <= kbs.len(),
        forall|k: int| 0 <= k < i ==> !kb_matches(kbs[k], detail, state),
    ensures
        first_match(kbs, detail, state) == first_match(kbs.skip(i), detail, state),
    decreases i,
{
    if i > 0 {
        assert(!kb_matches(kbs[0], detail, state));
        assert(kbs.drop_first() =~= kbs.skip(1));
        assert forall|k: int| 0 <= k < i - 1 implies !kb_matches(
            kbs.skip(1)[k],
            detail,
            state,
        ) by {
            assert(kbs.skip(1)[k] == kbs[k + 1]);
        }
        lemma_first_match_skip(kbs.skip(1), detail, state, i - 1);
        assert(kbs.skip(1).skip(i - 1) =~= kbs.skip(i));
    } else {
        assert(kbs.skip(0) =~= kbs);
    }
}

/// Find the action of the first keybinding rule that answers the key
/// event, scanning in list order.
pub fn find_action(keybinds: &Vec<Keybind>, detail: u8, state: u16) -> (r: Option<Action>)
    ensures
        r == first_match(keybinds@, detail, state),
{
    let mut i: usize = 0;
    while i < keybinds.len()
        invariant
            i <= keybinds@.len(),
            forall|k: int| 0 <= k < i ==> !kb_matches(keybinds@[k], detail, state),
        decreases keybinds@.len() - i,
    {
        let kb = &keybinds[i];
        if kb.key == detail && kb.key_but_mask() == state {
            proof {
                lemma_first_match_skip(keybinds@, detail, state, i as int);
                assert(keybinds@.skip(i as int)[0] == keybinds@[i as int]);
            }
            return Some(kb.action);
        }
        i = i + 1;
    }
    proof {
        lemma_first_match_skip(keybinds@, detail, state, keybinds@.len() as int);
    }
    None
}

/// How applying an action relates the states: each keybinding action maps
/// to its engine transition.
pub open spec fn action_post(pre: Tabbed, post: Tabbed, a: Action, cmds: Seq<Cmd>) -> bool {
    match a {
        Action::FocusUp => cycle_post(pre, post, 1, cmds),
        Action::FocusDown => cycle_post(pre, post, -1, cmds),
        Action::ShiftUp => swap_post(pre, post, 1, cmds),
        Action::ShiftDown => swap_post(pre, post, -1, cmds),
        Action::Focus(i) => focus_post(pre, post, Some(i), cmds),
        Action::DetachFocused => detach_focused_post(pre, post, cmds),
        Action::DetachAll => detach_all_post(pre, post, cmds),
        Action::ToggleAutoAttach => post == pre && cmds =~= Seq::<Cmd>::empty(),
    }
}

/// How a key press relates the states: the first matching rule's action
/// is applied; with no match nothing happens.
pub open spec fn key_press_post(pre: Tabbed, post: Tabbed, detail: u8, state: u16, cmds: Seq<Cmd>) -> bool {
    match first_match(pre.config.keybinds@, detail, state) {
        Some(a) => action_post(pre, post, a, cmds),
        None => post == pre && cmds =~= Seq::<Cmd>::empty(),
    }
}

/// How a reparent notification relates the states: a window reparented
/// into the container is focused when already tracked and adopted
/// otherwise; a window reparented anywhere else is dropped.
pub open spec fn reparent_post(pre: Tabbed, post: Tabbed, window: u32, parent: u32, cmds: Seq<Cmd>) -> bool {
    if parent == pre.win_id {
        if pre.children@.contains(window) {
            focus_post(pre, post, Some(pre.children@.index_of(window) as usize), cmds)
        } else {
            manage_post(pre, post, window, cmds)
        }
    } else {
        unmanage_post(pre, post, window, cmds)
    }
}

/// How a configure notification relates the states: a real geometry
/// change of the container is recorded, the surface resized, the focused
/// child re-fit to the new content area, and a redraw owed; anything else
/// is ignored.
pub open spec fn configure_post(pre: Tabbed, post: Tabbed, window: u32, width: u16, height: u16, cmds: Seq<Cmd>) -> bool {
    if window == pre.win_id && !(width == pre.win_width && height == pre.win_height) {
        &&& keeps_env(pre, post)
        &&& post.win_width == width
        &&& post.win_height == height
        &&& post.children@ == pre.children@
        &&& post.child_names@ == pre.child_names@
        &&& post.is_focused == pre.is_focused
        &&& post.running == pre.running
        &&& post.focused == pre.focused
        &&& post.need_redraw == true
        &&& cmds =~= seq![Cmd::ResizeSurface { width, height }] + (match pre.focused {
            Some(f) => focus_cmds(post, f as int),
            None => Seq::<Cmd>::empty(),
        })
    } else {
        post == pre && cmds =~= Seq::<Cmd>::empty()
    }
}

/// How a map notification relates the states: (re)mapping the container
/// owes a first paint when a tab is focused.
pub open spec fn map_post(pre: Tabbed, post: Tabbed, window: u32, cmds: Seq<Cmd>) -> bool {
    &&& cmds =~= Seq::<Cmd>::empty()
    &&& if window == pre.win_id && pre.focused is Some {
        &&& keeps_env(pre, post)
        &&& keeps_dims(pre, post)
        &&& post.children@ == pre.children@
        &&& post.child_names@ == pre.child_names@
        &&& post.focused == pre.focused
        &&& post.is_focused == pre.is_focused
        &&& post.running == pre.running
        &&& post.need_redraw == true
    } else {
        post == pre
    }
}

/// How a property notification relates the states: a name-property change
/// on a tracked child has its cached name re-read (the answer comes back
/// through `check_name`); everything else is ignored.
pub open spec fn property_post(pre: Tabbed, post: Tabbed, window: u32, atom: u32, cmds: Seq<Cmd>) -> bool {
    &&& post == pre
    &&& cmds =~= (if pre.children@.contains(window) && atom == WM_NAME_ATOM {
        seq![Cmd::FetchName { window }]
    } else {
        Seq::<Cmd>::empty()
    })
}

/// The tab slot a press at horizontal position `x` falls into when `n`
/// tabs share a width of `w`: the floor of `x / (w / n)`.
pub open spec fn button_index(x: int, n: int, w: int) -> int {
    x * n / w
}

/// How a button press relates the states: a press in the tab-bar band
/// focuses the tab whose slot it hits; presses below the band, with no
/// children, with no width, or mapping past the last tab are ignored.
pub open spec fn button_post(pre: Tabbed, post: Tabbed, x: i16, y: i16, cmds: Seq<Cmd>) -> bool {
    let n = pre.children@.len() as int;
    let w = pre.win_width as int;
    if n == 0 || y > BAR_HEIGHT as i16 || w == 0 {
        post == pre && cmds =~= Seq::<Cmd>::empty()
    } else {
        let xi: int = if x < 0 {
            0
        } else {
            x as int
        };
        let bi = button_index(xi, n, w);
        if bi < n {
            focus_post(pre, post, Some(bi as usize), cmds)
        } else {
            post == pre && cmds =~= Seq::<Cmd>::empty()
        }
    }
}

/// How a client message relates the states: a 32-bit-format delete
/// request addressed to the container ends the loop; anything else is
/// ignored.
pub open spec fn client_message_post(pre: Tabbed, post: Tabbed, window: u32, format: u8, data0: u32) -> bool {
    if format == 32 && window == pre.win_id && data0 == pre.wm_delete_window {
        &&& keeps_env(pre, post)
        &&& keeps_dims(pre, post)
        &&& post.children@ == pre.children@
        &&& post.child_names@ == pre.child_names@
        &&& post.focused == pre.focused
        &&& post.is_focused == pre.is_focused
        &&& post.need_redraw == pre.need_redraw
        &&& post.running == false
    } else {
        post == pre
    }
}

/// How a focus-change notification relates the states: only the
/// `is_focused` flag moves.
pub open spec fn focus_flag_post(pre: Tabbed, post: Tabbed, v: bool) -> bool {
    &&& keeps_env(pre, post)
    &&& keeps_dims(pre, post)
    &&& post.children@ == pre.children@
    &&& post.child_names@ == pre.child_names@
    &&& post.focused == pre.focused
    &&& post.running == pre.running
    &&& post.need_redraw == pre.need_redraw
    &&& post.is_focused == v
}

/// The dispatcher's routing table: what one processed event does to the
/// state and which commands it sends, by event kind.
pub open spec fn event_post(pre: Tabbed, post: Tabbed, e: Event, cmds: Seq<Cmd>) -> bool {
    match e {
        Event::KeyPress { detail, state } => key_press_post(pre, post, detail, state, cmds),
        Event::ReparentNotify { window, parent } => reparent_post(pre, post, window, parent, cmds),
        Event::DestroyNotify { window } => unmanage_post(pre, post, window, cmds),
        Event::ConfigureNotify { window, width, height } => configure_post(
            pre,
            post,
            window,
            width,
            height,
            cmds,
        ),
        Event::MapNotify { window } => map_post(pre, post, window, cmds),
        Event::PropertyNotify { window, atom } => property_post(pre, post, window, atom, cmds),
        Event::ButtonPress { event_x, event_y } => button_post(pre, post, event_x, event_y, cmds),
        Event::ClientMessage { window, format, data0 } => client_message_post(
            pre,
            post,
            window,
            format,
            data0,
        ) && cmds =~= Seq::<Cmd>::empty(),
        Event::FocusIn => focus_flag_post(pre, post, true) && cmds =~= Seq::<Cmd>::empty(),
        Event::FocusOut => focus_flag_post(pre, post, false) && cmds =~= Seq::<Cmd>::empty(),
    }
}

/// Whether a child's advertised protocol list names the cooperative
/// delete protocol, in which case the shutdown sends it a delete request
/// instead of leaving it alone.
pub fn should_send_delete(protocols: &Vec<u32>, wm_delete_window: u32) -> (r: bool)
    ensures
        r == protocols@.contains(wm_delete_window),
{
    contains_window(protocols, wm_delete_window)
}

} // verus!
