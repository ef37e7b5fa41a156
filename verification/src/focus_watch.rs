//! Hiding the clipboard window once it loses focus, after a short settling
//! period. A timer reports every 100 ms whether the window is visible and
//! whether it has focus; the watch decides when to hide it.
use vstd::prelude::*;

verus! {

/// Ticks of visibility (100 ms each) during which losing focus is ignored
/// while the window manager maps the window and settles focus.
pub const SETTLING_TICKS: i32 = 5;

/// One tick of the watch on its state (whether the window has had focus,
/// ticks counted): the state after the tick, and whether to hide the window.
/// A visible tick counts; the window counts as having had focus once it is
/// focused or has outlived the settling period, and is hidden when it has
/// outlived it, has had focus and is not focused now. Hiding, and an
/// invisible window, start the watch over.
pub open spec fn watch_step(state: (bool, int), visible: bool, focused: bool) -> ((bool, int), bool) {
    if !visible {
        ((false, 0), false)
    } else {
        let t = state.1 + 1;
        let had = state.0 || focused || t > SETTLING_TICKS;
        if t > SETTLING_TICKS && had && !focused {
            ((false, 0), true)
        } else {
            ((had, t), false)
        }
    }
}

/// The watch's state after a run of ticks, each given as (visible, focused).
pub open spec fn watch_after(state: (bool, int), ticks: Seq<(bool, bool)>) -> (bool, int)
    decreases ticks.len(),
{
    if ticks.len() == 0 {
        state
    } else {
        watch_step(watch_after(state, ticks.drop_last()), ticks.last().0, ticks.last().1).0
    }
}

/// Whether tick `k` of a run hides the window.
pub open spec fn hides_at(state: (bool, int), ticks: Seq<(bool, bool)>, k: int) -> bool {
    watch_step(watch_after(state, ticks.take(k)), ticks[k].0, ticks[k].1).1
}

proof fn lemma_after_one_more(state: (bool, int), ticks: Seq<(bool, bool)>, k: int)
    requires
        0 <= k < ticks.len(),
    ensures
        watch_after(state, ticks.take(k + 1)) == watch_step(
            watch_after(state, ticks.take(k)),
            ticks[k].0,
            ticks[k].1,
        ).0,
{
    assert(ticks.take(k + 1).drop_last() =~= ticks.take(k));
}

/// The count grows by at most one a tick and never goes below zero.
proof fn lemma_count_bounds(state: (bool, int), ticks: Seq<(bool, bool)>, j: int, k: int)
    requires
        0 <= state.1,
        0 <= j <= k <= ticks.len(),
    ensures
        0 <= watch_after(state, ticks.take(k)).1 <= watch_after(state, ticks.take(j)).1 + (k - j),
    decreases k - j,
{
    if j < k {
        lemma_count_bounds(state, ticks, j, k - 1);
        lemma_after_one_more(state, ticks, k - 1);
    } else {
        lemma_count_nonnegative(state, ticks, k);
    }
}

proof fn lemma_count_nonnegative(state: (bool, int), ticks: Seq<(bool, bool)>, k: int)
    requires
        0 <= state.1,
        0 <= k <= ticks.len(),
    ensures
        0 <= watch_after(state, ticks.take(k)).1,
    decreases k,
{
    if k == 0 {
        assert(ticks.take(0) =~= Seq::<(bool, bool)>::empty());
    } else {
        lemma_count_nonnegative(state, ticks, k - 1);
        lemma_after_one_more(state, ticks, k - 1);
    }
}

/// The window is hidden only on a tick where it is visible and not
/// focused, after at least `SETTLING_TICKS` counted ticks; hiding starts the
/// watch over, so the next hide again needs a full settling period.
pub proof fn lemma_hide_needs_settled_focus_loss(state: (bool, int), ticks: Seq<(bool, bool)>, k: int)
    requires
        0 <= k < ticks.len(),
        hides_at(state, ticks, k),
    ensures
        ticks[k].0,
        !ticks[k].1,
        watch_after(state, ticks.take(k)).1 >= SETTLING_TICKS,
        watch_after(state, ticks.take(k + 1)) == (false, 0int),
{
    lemma_after_one_more(state, ticks, k);
}

/// No tick hides the window while the settling period lasts: where the
/// count stood at `c` at tick `j`, the ticks up to `j + SETTLING_TICKS - c - 1`
/// never hide it. From a fresh watch, or just after a hide, that is the
/// first `SETTLING_TICKS` ticks.
pub proof fn lemma_no_hide_while_settling(
    state: (bool, int),
    ticks: Seq<(bool, bool)>,
    j: int,
    k: int,
)
    requires
        0 <= state.1,
        0 <= j <= k < ticks.len(),
        watch_after(state, ticks.take(j)).1 + (k - j) < SETTLING_TICKS,
    ensures
        !hides_at(state, ticks, k),
{
    lemma_count_bounds(state, ticks, j, k);
}

/// Once the window has been visible for more than `SETTLING_TICKS` ticks
/// in a row (counting the ticks the watch had already counted), a tick
/// where it is not focused hides it, unless an earlier tick of the run
/// already did.
pub proof fn lemma_focus_loss_after_settling_hides(
    state: (bool, int),
    ticks: Seq<(bool, bool)>,
    k: int,
)
    requires
        0 <= state.1,
        0 <= k < ticks.len(),
        forall|i: int| 0 <= i <= k ==> (#[trigger] ticks[i]).0,
        state.1 + k >= SETTLING_TICKS,
        !ticks[k].1,
    ensures
        exists|i: int| 0 <= i <= k && hides_at(state, ticks, i),
{
    if forall|i: int| 0 <= i < k ==> !hides_at(state, ticks, i) {
        lemma_count_while_shown(state, ticks, k);
        assert(hides_at(state, ticks, k));
    }
}

proof fn lemma_count_while_shown(state: (bool, int), ticks: Seq<(bool, bool)>, k: int)
    requires
        0 <= k <= ticks.len(),
        forall|i: int| 0 <= i < k ==> (#[trigger] ticks[i]).0,
        forall|i: int| 0 <= i < k ==> !hides_at(state, ticks, i),
    ensures
        watch_after(state, ticks.take(k)).1 == state.1 + k,
    decreases k,
{
    if k == 0 {
        assert(ticks.take(0) =~= Seq::<(bool, bool)>::empty());
    } else {
        lemma_count_while_shown(state, ticks, k - 1);
        lemma_after_one_more(state, ticks, k - 1);
        assert(ticks[k - 1].0);
        assert(!hides_at(state, ticks, k - 1));
    }
}

/// What the focus watch remembers between ticks.
pub struct FocusWatch {
    has_had_focus: bool,
    visible_ticks: i32,
}

impl FocusWatch {
    /// Whether the window has had focus (or outlived the settling period)
    /// since it was last shown.
    pub closed spec fn had_focus(&self) -> bool {
        self.has_had_focus
    }

    /// Ticks counted since the window was last shown.
    pub closed spec fn ticks(&self) -> int {
        self.visible_ticks as int
    }

    /// A watch for a window that has not been shown yet.
    pub fn new() -> (r: Self)
        ensures
            !r.had_focus(),
            r.ticks() == 0,
    {
        FocusWatch { has_had_focus: false, visible_ticks: 0 }
    }

    /// Ticks counted since the window was last shown.
    pub fn visible_ticks(&self) -> (r: i32)
        ensures
            r as int == self.ticks(),
    {
        self.visible_ticks
    }

    /// One timer tick. Returns whether to hide the window now: once it has
    /// been visible for more than `SETTLING_TICKS` ticks, it is hidden as soon
    /// as it does not have focus, and the watch starts over. While it is
    /// invisible, the watch stays at its start.
    pub fn on_tick(&mut self, visible: bool, focused: bool) -> (hide: bool)
        requires
            visible ==> old(self).ticks() < i32::MAX,
        ensures
            ((final(self).had_focus(), final(self).ticks()), hide) == watch_step(
                (old(self).had_focus(), old(self).ticks()),
                visible,
                focused,
            ),
            hide ==> visible && !focused && old(self).ticks() >= SETTLING_TICKS,
    {
        if visible {
            self.visible_ticks = self.visible_ticks + 1;
            if focused || self.visible_ticks > SETTLING_TICKS {
                self.has_had_focus = true;
            }
            if self.visible_ticks > SETTLING_TICKS && self.has_had_focus && !focused {
                self.has_had_focus = false;
                self.visible_ticks = 0;
                return true;
            }
            false
        } else {
            self.has_had_focus = false;
            self.visible_ticks = 0;
            false
        }
    }
}

} // verus!
