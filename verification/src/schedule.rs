//! The background watcher's timetable: it wakes every 500 ms, checks the
//! desktop theme every fourth wake-up (about 2 s) and trims the history
//! every sixtieth (about 30 s).
use vstd::prelude::*;

verus! {

/// Wake-ups between two theme checks.
pub const THEME_PERIOD: u32 = 4;

/// Wake-ups between two history clean-ups.
pub const CLEANUP_PERIOD: u32 = 60;

/// What is due on a wake-up.
#[derive(PartialEq, Eq, Structural, Clone, Copy, Debug)]
pub struct DueWork {
    /// Re-read the desktop theme.
    pub check_theme: bool,
    /// Trim old history entries.
    pub clean_history: bool,
}

/// Counts the wake-ups since the last theme check and the last clean-up.
pub struct WatchSchedule {
    theme_ticks: u32,
    clean_ticks: u32,
}

/// The theme counter after `n` wake-ups from the start.
pub open spec fn theme_count_after(n: nat) -> int
    decreases n,
{
    if n == 0 {
        0
    } else {
        (theme_count_after((n - 1) as nat) + 1) % (THEME_PERIOD as int)
    }
}

/// The clean-up counter after `n` wake-ups from the start.
pub open spec fn clean_count_after(n: nat) -> int
    decreases n,
{
    if n == 0 {
        0
    } else {
        (clean_count_after((n - 1) as nat) + 1) % (CLEANUP_PERIOD as int)
    }
}

impl WatchSchedule {
    #[verifier::type_invariant]
    spec fn counters_below_period(&self) -> bool {
        self.theme_ticks < THEME_PERIOD && self.clean_ticks < CLEANUP_PERIOD
    }

    /// Wake-ups since the last theme check.
    pub closed spec fn theme_count(&self) -> int {
        self.theme_ticks as int
    }

    /// Wake-ups since the last clean-up.
    pub closed spec fn clean_count(&self) -> int {
        self.clean_ticks as int
    }

    /// The timetable before the first wake-up.
    pub fn new() -> (r: Self)
        ensures
            r.theme_count() == 0,
            r.clean_count() == 0,
    {
        WatchSchedule { theme_ticks: 0, clean_ticks: 0 }
    }

    /// One wake-up: advances both counters and reports what is due; a
    /// counter that reaches its period is due and starts over.
    pub fn tick(&mut self) -> (due: DueWork)
        ensures
            final(self).theme_count() == (old(self).theme_count() + 1) % (THEME_PERIOD as int),
            final(self).clean_count() == (old(self).clean_count() + 1) % (CLEANUP_PERIOD as int),
            due.check_theme == (final(self).theme_count() == 0),
            due.clean_history == (final(self).clean_count() == 0),
    {
        proof {
            use_type_invariant(&*self);
        }
        let theme = self.theme_ticks + 1;
        let clean = self.clean_ticks + 1;
        let check_theme = theme >= THEME_PERIOD;
        let clean_history = clean >= CLEANUP_PERIOD;
        self.theme_ticks = if check_theme { 0 } else { theme };
        self.clean_ticks = if clean_history { 0 } else { clean };
        DueWork { check_theme, clean_history }
    }
}

/// From the start, the theme is checked exactly on the wake-ups whose number
/// is a multiple of four and the history is trimmed exactly on those whose
/// number is a multiple of sixty.
pub proof fn lemma_work_is_periodic(n: nat)
    ensures
        theme_count_after(n) == (n as int) % (THEME_PERIOD as int),
        clean_count_after(n) == (n as int) % (CLEANUP_PERIOD as int),
    decreases n,
{
    if n > 0 {
        lemma_work_is_periodic((n - 1) as nat);
    }
}

} // verus!
