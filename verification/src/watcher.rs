//! A watcher wraps one polled value and remembers, across polling ticks, the
//! previous and the current reading, so that the decision layer can ask
//! change questions about the latest tick.

use vstd::prelude::*;

verus! {

/// The previous and current reading of one polled value.
#[derive(Clone, Copy, Debug, PartialEq, Eq, Structural)]
pub struct Pair<T> {
    pub old: T,
    pub current: T,
}

impl<T> Pair<T> {
    /// The value changed this tick.
    pub open spec fn spec_changed(self) -> bool {
        self.old != self.current
    }

    /// The value transitioned from something else to `v` this tick.
    pub open spec fn spec_changed_to(self, v: T) -> bool {
        self.old != v && self.current == v
    }
}

impl Pair<bool> {
    pub fn changed(&self) -> (r: bool)
        ensures
            r == self.spec_changed(),
    {
        self.old != self.current
    }

    pub fn changed_to(&self, v: bool) -> (r: bool)
        ensures
            r == self.spec_changed_to(v),
    {
        self.old != v && self.current == v
    }
}

impl Pair<u32> {
    pub fn changed(&self) -> (r: bool)
        ensures
            r == self.spec_changed(),
    {
        self.old != self.current
    }

    pub fn changed_to(&self, v: u32) -> (r: bool)
        ensures
            r == self.spec_changed_to(v),
    {
        self.old != v && self.current == v
    }
}

/// Tracks one polled value across ticks. Before the first update the pair is
/// undefined; after it, both the previous and the current reading are kept.
#[derive(Clone, Copy, Debug, PartialEq, Eq, Structural)]
pub struct Watcher<T> {
    pub pair: Option<Pair<T>>,
}

impl<T> Watcher<T> {
    /// A watcher is defined once it has seen its first update.
    pub open spec fn defined(self) -> bool {
        self.pair is Some
    }

    /// The watcher state after feeding one new reading: the current value
    /// becomes the previous one (on the very first update the new reading
    /// stands for both), and the reading becomes current.
    pub open spec fn spec_updated(self, value: T) -> Watcher<T> {
        Watcher {
            pair: Some(
                Pair {
                    old: match self.pair {
                        Some(p) => p.current,
                        None => value,
                    },
                    current: value,
                },
            ),
        }
    }

    /// The tracked value changed this tick; false while undefined.
    pub open spec fn spec_changed(self) -> bool {
        match self.pair {
            Some(p) => p.spec_changed(),
            None => false,
        }
    }

    /// The tracked value transitioned to `v` this tick: true iff the old
    /// value differs from `v` and a defined current value equals `v`; false
    /// while the watcher is undefined.
    pub open spec fn spec_changed_to(self, v: T) -> bool {
        match self.pair {
            Some(p) => p.spec_changed_to(v),
            None => false,
        }
    }

    /// A fresh watcher that has not yet seen a value.
    pub fn new() -> (w: Watcher<T>)
        ensures
            w.pair is None,
    {
        Watcher { pair: None }
    }
}

impl Watcher<bool> {
    pub fn changed(&self) -> (r: bool)
        ensures
            r == self.spec_changed(),
    {
        match &self.pair {
            Some(p) => p.changed(),
            None => false,
        }
    }

    pub fn changed_to(&self, v: bool) -> (r: bool)
        ensures
            r == self.spec_changed_to(v),
    {
        match &self.pair {
            Some(p) => p.changed_to(v),
            None => false,
        }
    }
}

impl Watcher<u32> {
    pub fn changed(&self) -> (r: bool)
        ensures
            r == self.spec_changed(),
    {
        match &self.pair {
            Some(p) => p.changed(),
            None => false,
        }
    }

    pub fn changed_to(&self, v: u32) -> (r: bool)
        ensures
            r == self.spec_changed_to(v),
    {
        match &self.pair {
            Some(p) => p.changed_to(v),
            None => false,
        }
    }
}

impl<T: Copy> Watcher<T> {
    /// Feed this tick's reading into the watcher.
    pub fn update(&mut self, value: T)
        ensures
            *final(self) == old(self).spec_updated(value),
    {
        let old_value: T = match &self.pair {
            Some(p) => p.current,
            None => value,
        };
        self.pair = Some(Pair { old: old_value, current: value });
    }
}

impl<T> Default for Watcher<T> {
    /// A fresh watcher, same as `Watcher::new`.
    fn default() -> (w: Watcher<T>)
        ensures
            w.pair is None,
    {
        Watcher { pair: None }
    }
}

} // verus!
