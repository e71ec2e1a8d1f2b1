//! The watcher set, the per-tick update step, and the decision layer: pure
//! predicates that map the latest value transitions to timer decisions.

use vstd::prelude::*;
use crate::settings::Settings;
use crate::watcher::Watcher;

verus! {

/// The unfiltered level id shown on the title/intro screen.
pub const TITLE_SCREEN_LEVEL: u32 = 4;

/// The unfiltered level id a scene unloads to when a level is left.
pub const LEVEL_UNLOADED: u32 = 1;

/// A post-level transitional code; one of the two prior states accepted by
/// the level-transition split.
pub const POST_LEVEL_TRANSITION: u32 = 3;

/// Unfiltered level ids above this bound are menu/transition codes; the
/// other prior state accepted by the level-transition split.
pub const MENU_CODE_FLOOR: u32 = 1000;

/// Lowest valid filtered level code, also the seed before any valid read.
pub const FIRST_LEVEL: u32 = 101;

/// Highest valid filtered level code: the final level, Toc-Man's Lair.
pub const FINAL_LEVEL: u32 = 604;

/// One tick's raw reads, each `None` when the address could not be resolved
/// or the read failed this tick.
#[derive(Clone, Copy, Debug, PartialEq, Eq, Structural)]
pub struct TickReads {
    /// The engine's boolean "processing" loading indicator.
    pub loading_a: Option<bool>,
    /// The engine's "loadScr" counter; loading while non-zero.
    pub loading_b: Option<u64>,
    /// The raw level id, transient/invalid states included.
    pub level_id: Option<u32>,
    /// The final boss's quick-time-event success flag.
    pub tocman_qte: Option<bool>,
}

/// The fixed collection of watchers, one per tracked memory quantity.
#[derive(Clone, Copy, Debug, PartialEq, Eq, Structural)]
pub struct Watchers {
    /// The two loading indicators, combined by logical OR.
    pub is_loading: Watcher<bool>,
    /// The level id restricted to valid level codes (debounced).
    pub level_id: Watcher<u32>,
    /// The level id exactly as read each tick.
    pub level_id_unfiltered: Watcher<u32>,
    /// The final boss's quick-time-event success flag.
    pub tocman_qte: Watcher<bool>,
}

/// The combined loading flag for one tick: either indicator set, with a
/// failed read of either standing for "not loading".
pub open spec fn spec_combined_loading(reads: TickReads) -> bool {
    ||| (match reads.loading_a {
        Some(b) => b,
        None => false,
    })
    ||| (match reads.loading_b {
        Some(n) => n != 0,
        None => false,
    })
}

/// The raw level id for one tick; a failed read stands for `0`, which the
/// filter below rejects.
pub open spec fn spec_raw_level(reads: TickReads) -> u32 {
    match reads.level_id {
        Some(v) => v,
        None => 0u32,
    }
}

/// The debounced level value fed to the filtered watcher: a raw reading in
/// `(100, 604]` is accepted; anything else keeps the previous current value,
/// or the seed `101` if none exists yet.
pub open spec fn spec_filtered_level(prior: Watcher<u32>, raw: u32) -> u32 {
    if 100 < raw && raw <= FINAL_LEVEL {
        raw
    } else {
        match prior.pair {
            Some(p) => p.current,
            None => FIRST_LEVEL,
        }
    }
}

/// The whole watcher set after one tick's reads are applied.
pub open spec fn spec_updated(w: Watchers, reads: TickReads) -> Watchers {
    Watchers {
        is_loading: w.is_loading.spec_updated(spec_combined_loading(reads)),
        level_id: w.level_id.spec_updated(
            spec_filtered_level(w.level_id, spec_raw_level(reads)),
        ),
        level_id_unfiltered: w.level_id_unfiltered.spec_updated(spec_raw_level(reads)),
        tocman_qte: w.tocman_qte.spec_updated(
            match reads.tocman_qte {
                Some(b) => b,
                None => false,
            },
        ),
    }
}

impl Watchers {
    /// The filtered level watcher only ever holds valid level codes (or is
    /// still undefined).
    pub open spec fn level_id_in_range(self) -> bool {
        self.level_id.pair matches Some(p) ==> {
            &&& FIRST_LEVEL <= p.old <= FINAL_LEVEL
            &&& FIRST_LEVEL <= p.current <= FINAL_LEVEL
        }
    }

    /// Feed one tick's raw reads into every watcher, exactly once each.
    /// A failed boolean read stands for `false`, a failed level read for
    /// `0`; the filtered level watcher only accepts values in `(100, 604]`
    /// and otherwise keeps its last value (seeding with `101`).
    pub fn update(&mut self, reads: &TickReads)
        requires
            old(self).level_id_in_range(),
        ensures
            *final(self) == spec_updated(*old(self), *reads),
            final(self).level_id_in_range(),
    {
        let loading_a: bool = match reads.loading_a {
            Some(b) => b,
            None => false,
        };
        let loading_b: u64 = match reads.loading_b {
            Some(n) => n,
            None => 0,
        };
        self.is_loading.update(loading_a || loading_b != 0);

        let raw_level: u32 = match reads.level_id {
            Some(v) => v,
            None => 0,
        };
        let filtered: u32 = if raw_level > 100 && raw_level <= FINAL_LEVEL {
            raw_level
        } else {
            match &self.level_id.pair {
                Some(p) => p.current,
                None => FIRST_LEVEL,
            }
        };
        self.level_id.update(filtered);

        self.level_id_unfiltered.update(raw_level);

        let qte: bool = match reads.tocman_qte {
            Some(b) => b,
            None => false,
        };
        self.tocman_qte.update(qte);
    }
}

impl Default for Watchers {
    /// A fresh watcher set for a new process-attachment session: every
    /// watcher still undefined.
    fn default() -> (w: Watchers)
        ensures
            w.is_loading.pair is None,
            w.level_id.pair is None,
            w.level_id_unfiltered.pair is None,
            w.tocman_qte.pair is None,
    {
        Watchers {
            is_loading: Watcher::new(),
            level_id: Watcher::new(),
            level_id_unfiltered: Watcher::new(),
            tocman_qte: Watcher::new(),
        }
    }
}

/// The auto-start condition: auto start enabled, the unfiltered level id
/// currently on the title screen code, and the loading flag transitioning to
/// true this very tick.
pub open spec fn spec_start(w: Watchers, settings: Settings) -> bool {
    &&& settings.start
    &&& w.level_id_unfiltered.pair matches Some(p) && p.current == TITLE_SCREEN_LEVEL
    &&& w.is_loading.spec_changed_to(true)
}

/// The split condition. First the level-transition rule: the unfiltered
/// level id transitioned to `1` this tick from either `3` or a menu code
/// above `1000`, and the per-level flag of the current filtered level code
/// is enabled. Otherwise the final-boss rule: the unfiltered level id steady
/// at `604`, the final level's flag enabled, and the quick-time-event flag
/// transitioning to true this tick.
pub open spec fn spec_split(w: Watchers, settings: Settings) -> bool {
    &&& w.level_id_unfiltered.pair matches Some(u)
    &&& w.level_id.pair matches Some(l)
    &&& if u.spec_changed_to(LEVEL_UNLOADED) && (u.old == POST_LEVEL_TRANSITION || u.old
        > MENU_CODE_FLOOR) {
        settings.spec_split_enabled(l.current)
    } else {
        &&& u.current == FINAL_LEVEL
        &&& !u.spec_changed()
        &&& settings.toc_man_lair
        &&& w.tocman_qte.spec_changed_to(true)
    }
}

/// The loading state the timer should follow: the loading watcher's current
/// value, undefined before the first update.
pub open spec fn spec_is_loading(w: Watchers) -> Option<bool> {
    match w.is_loading.pair {
        Some(p) => Some(p.current),
        None => None,
    }
}

/// Should the timer auto-start this tick? True only with auto start enabled,
/// the unfiltered level id on the title screen code, and the loading flag
/// just turned true.
pub fn start(watchers: &Watchers, settings: &Settings) -> (r: bool)
    ensures
        r == spec_start(*watchers, *settings),
{
    if !settings.start {
        return false;
    }
    let on_title: bool = match &watchers.level_id_unfiltered.pair {
        Some(p) => p.current == TITLE_SCREEN_LEVEL,
        None => false,
    };
    on_title && watchers.is_loading.changed_to(true)
}

/// Should the timer split this tick? See `spec_split` for the two rules.
pub fn split(watchers: &Watchers, settings: &Settings) -> (r: bool)
    ensures
        r == spec_split(*watchers, *settings),
{
    let unfiltered = match &watchers.level_id_unfiltered.pair {
        Some(p) => *p,
        None => {
            return false;
        },
    };
    let filtered = match &watchers.level_id.pair {
        Some(p) => *p,
        None => {
            return false;
        },
    };
    if unfiltered.changed_to(LEVEL_UNLOADED) && (unfiltered.old == POST_LEVEL_TRANSITION
        || unfiltered.old > MENU_CODE_FLOOR) {
        settings.split_enabled(filtered.current)
    } else {
        unfiltered.current == FINAL_LEVEL && !unfiltered.changed() && settings.toc_man_lair
            && watchers.tocman_qte.changed_to(true)
    }
}

/// Should the timer reset this tick? Never: this game has no reliable reset
/// signal, so resetting is left to manual control.
pub fn reset(_watchers: &Watchers, _settings: &Settings) -> (r: bool)
    ensures
        r == false,
{
    false
}

/// Is the game loading this tick? `None` until the loading watcher has seen
/// its first update.
pub fn is_loading(watchers: &Watchers, _settings: &Settings) -> (r: Option<bool>)
    ensures
        r == spec_is_loading(*watchers),
{
    match &watchers.is_loading.pair {
        Some(p) => Some(p.current),
        None => None,
    }
}

/// An independent in-game-time source, in nanoseconds. There is none for
/// this game: elapsed time is driven entirely by pausing and resuming around
/// the loading flag, so this is always `None`.
pub fn game_time(_watchers: &Watchers, _settings: &Settings) -> (r: Option<i64>)
    ensures
        r is None,
{
    None
}

/// The watcher set after a whole sequence of ticks, applied in order.
pub open spec fn spec_run(w: Watchers, reads: Seq<TickReads>) -> Watchers
    decreases reads.len(),
{
    if reads.len() == 0 {
        w
    } else {
        spec_run(spec_updated(w, reads[0]), reads.drop_first())
    }
}

/// However many ticks pass and whatever raw level ids they carry, the
/// filtered level watcher only ever holds values in `101..=604` (or is
/// still undefined, before its first update): the debounce never lets a
/// transient code through, and the seed is `101`.
pub proof fn lemma_filtered_level_always_in_range(w: Watchers, reads: Seq<TickReads>)
    requires
        w.level_id_in_range(),
    ensures
        spec_run(w, reads).level_id_in_range(),
    decreases reads.len(),
{
    if reads.len() != 0 {
        assert(spec_updated(w, reads[0]).level_id_in_range());
        lemma_filtered_level_always_in_range(spec_updated(w, reads[0]), reads.drop_first());
    }
}

/// When neither loading indicator is set on one tick and the boolean
/// indicator is set on the next, the loading watcher reports loading and
/// registers the transition to true, whatever state it started from.
pub proof fn lemma_loading_transition(w: Watchers, first: TickReads, second: TickReads)
    requires
        first.loading_a == Some(false),
        first.loading_b == Some(0u64),
        second.loading_a == Some(true),
    ensures
        spec_is_loading(spec_updated(spec_updated(w, first), second)) == Some(true),
        spec_updated(spec_updated(w, first), second).is_loading.spec_changed_to(true),
{
}

/// The decision layer is pure: the contracts of `start`, `split`, `reset`
/// and `is_loading` pin each result to a function of the watcher set and the
/// settings alone, so two calls on the same unmutated watcher set agree.
/// The `requires` are exactly what those contracts give for two such calls.
pub proof fn lemma_decisions_deterministic(
    w: Watchers,
    settings: Settings,
    start_first: bool,
    start_second: bool,
    split_first: bool,
    split_second: bool,
    reset_first: bool,
    reset_second: bool,
    loading_first: Option<bool>,
    loading_second: Option<bool>,
)
    requires
        start_first == spec_start(w, settings),
        start_second == spec_start(w, settings),
        split_first == spec_split(w, settings),
        split_second == spec_split(w, settings),
        reset_first == false,
        reset_second == false,
        loading_first == spec_is_loading(w),
        loading_second == spec_is_loading(w),
    ensures
        start_first == start_second,
        split_first == split_second,
        reset_first == reset_second,
        loading_first == loading_second,
{
}

} // verus!
