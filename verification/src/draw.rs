//! Tab-bar layout: a pure function of the container width, the child
//! list, the cached names and the focus, producing the drawing operations
//! the shell issues against the rendering surface.
//!
//! The container width is divided equally among the tabs.  To keep the
//! arithmetic exact, horizontal coordinates are rational: each slot
//! carries the numerators of its left edge and width over the common
//! denominator `den` (the child count), so slot `i` starts at
//! `i * width / n` and is `width / n` wide, with no remainder handling —
//! equal division is intentional, not pixel-perfect.

use vstd::prelude::*;
use crate::color::{Rgb, accent_spec, color_hash, floor_color};
use crate::state::Tabbed;

verus! {

broadcast use vstd::std_specs::hash::group_hash_axioms;

/// Minimum brightness of an accent channel (a numerator over 256), so no
/// tab's accent is fully black.
pub const MIN_ACCENT: u8 = 64;

/// Height of the active-tab outline; unfocused tabs draw none.
pub const FOCUS_OUTLINE_HEIGHT: u16 = 14;

/// The drawing of one tab slot: a background rectangle spanning the slot,
/// dim for unfocused and darker for the focused tab; an accent-colored
/// outline whose height is non-zero only for the focused tab; and the
/// cached display name, left-aligned and inset from the slot's left edge.
#[derive(Debug)]
pub struct TabOp {
    /// Numerator of the slot's left edge over `den`.
    pub left_num: u128,
    /// Numerator of the slot's width over `den`.
    pub width_num: u64,
    /// Common denominator of the horizontal coordinates: the child count.
    pub den: u64,
    /// Whether this slot holds the focused tab.
    pub focused: bool,
    /// The tab's accent color, every channel floored to `MIN_ACCENT`.
    pub accent: Rgb,
    /// Height of the active indicator: `FOCUS_OUTLINE_HEIGHT` when
    /// focused, 0 otherwise.
    pub outline_height: u16,
    /// The cached display name, or empty when none is cached.
    pub label: String,
}

/// What one redraw of the tab bar paints.
#[derive(Debug)]
pub enum BarRender {
    /// No children: a flat neutral band across the full width, so the
    /// header is never blank or garbage.
    Empty { width: u16 },
    /// One slot per tab, left to right.
    Tabs { tabs: Vec<TabOp> },
}

/// What the slot at index `i` must hold for state `t`.
pub open spec fn tab_op_spec(t: Tabbed, i: int, op: TabOp) -> bool {
    &&& op.left_num as int == i * (t.win_width as int)
    &&& op.width_num as int == t.win_width as int
    &&& op.den as int == t.children@.len() as int
    &&& op.focused == (t.focused == Some(i as usize))
    &&& op.outline_height as int == (if t.focused == Some(i as usize) {
        FOCUS_OUTLINE_HEIGHT as int
    } else {
        0
    })
    &&& op.accent == accent_spec(t.children@[i], MIN_ACCENT)
    &&& op.label@ == (if t.child_names@.contains_key(t.children@[i]) {
        t.child_names@[t.children@[i]]@
    } else {
        Seq::<char>::empty()
    })
}

/// What `drawbar` must produce for state `t`: the neutral band exactly
/// when there is no child (never a division by zero), else one correct
/// slot per tab.
pub open spec fn drawbar_spec(t: Tabbed, r: BarRender) -> bool {
    match r {
        BarRender::Empty { width } => t.children@.len() == 0 && width == t.win_width,
        BarRender::Tabs { tabs } => {
            &&& t.children@.len() > 0
            &&& tabs@.len() == t.children@.len()
            &&& forall|i: int| 0 <= i < tabs@.len() ==> tab_op_spec(t, i, #[trigger] tabs@[i])
        },
    }
}

impl Tabbed {
    /// Lay the tab bar out: equal-width slots left to right, the focused
    /// slot marked and outlined, each slot labelled with the cached name
    /// and tinted with the accent derived from its window identifier.
    pub fn drawbar(&self) -> (r: BarRender)
        ensures
            drawbar_spec(*self, r),
    {
        let n = self.children.len();
        if n == 0 {
            return BarRender::Empty { width: self.win_width };
        }
        let mut tabs: Vec<TabOp> = Vec::new();
        let mut i: usize = 0;
        while i < n
            invariant
                n == self.children@.len(),
                i <= n,
                tabs@.len() == i,
                forall|k: int| 0 <= k < i ==> tab_op_spec(*self, k, #[trigger] tabs@[k]),
            decreases n - i,
        {
            let wid = self.children[i];
            let focused_here: bool = match self.focused {
                Some(f) => f == i,
                None => false,
            };
            let label: String = match self.child_names.get(&wid) {
                Some(s) => s.clone(),
                None => String::new(),
            };
            let accent = floor_color(color_hash(wid), MIN_ACCENT);
            proof {
                assert(accent == accent_spec(wid, MIN_ACCENT));
                assert((i as int) * (self.win_width as int) <= 0xffff_ffff_ffff_ffff * 0x10000)
                    by (nonlinear_arith)
                    requires
                        0 <= i as int <= 0xffff_ffff_ffff_ffff,
                        0 <= self.win_width as int <= 0x10000,
                ;
            }
            let left_num: u128 = (i as u128) * (self.win_width as u128);
            tabs.push(
                TabOp {
                    left_num,
                    width_num: self.win_width as u64,
                    den: n as u64,
                    focused: focused_here,
                    accent,
                    outline_height: if focused_here {
                        FOCUS_OUTLINE_HEIGHT
                    } else {
                        0
                    },
                    label,
                },
            );
            i = i + 1;
        }
        BarRender::Tabs { tabs }
    }
}

} // verus!
