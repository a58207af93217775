//! The rolling window of observations behind the behavioral baseline: the
//! most recent observations, at most `window` of them, and whether enough
//! have been seen for the baseline to count as established.

use std::collections::VecDeque;
use vstd::prelude::*;

verus! {

/// The last `n` items of `s` (all of them when there are fewer).
pub open spec fn keep_last<T>(s: Seq<T>, n: nat) -> Seq<T> {
    if s.len() > n {
        s.skip(s.len() - n)
    } else {
        s
    }
}

/// A bounded window keeping the most recent items.
pub struct RollingWindow<T> {
    items: VecDeque<T>,
    window: usize,
    min_observations: usize,
}

impl<T> RollingWindow<T> {
    /// The items, oldest first.
    pub closed spec fn spec_items(&self) -> Seq<T> {
        self.items@
    }

    /// The most items the window keeps.
    pub closed spec fn spec_window(&self) -> nat {
        self.window as nat
    }

    /// How many items establish the baseline.
    pub closed spec fn spec_min(&self) -> nat {
        self.min_observations as nat
    }

    /// The window never holds more than its size.
    pub closed spec fn wf(&self) -> bool {
        self.items@.len() <= self.window
    }

    /// An empty window keeping at most `window` items, established from
    /// `min_observations` items on.
    pub fn new(window: usize, min_observations: usize) -> (r: Self)
        ensures
            r.wf(),
            r.spec_items().len() == 0,
            r.spec_window() == window,
            r.spec_min() == min_observations,
    {
        RollingWindow { items: VecDeque::new(), window, min_observations }
    }

    /// Adds an item; the oldest is dropped when the window overflows.
    pub fn push(&mut self, item: T)
        requires
            old(self).wf(),
        ensures
            final(self).wf(),
            final(self).spec_items() == keep_last(old(self).spec_items().push(item), old(self).spec_window()),
            final(self).spec_window() == old(self).spec_window(),
            final(self).spec_min() == old(self).spec_min(),
    {
        self.items.push_back(item);
        if self.items.len() > self.window {
            let _ = self.items.pop_front();
            proof {
                let s = old(self).spec_items().push(item);
                assert(s.len() == self.window + 1);
                assert(self.items@ =~= s.skip(s.len() - self.window));
            }
        }
    }

    /// Adds a batch of items in order, then drops the oldest until the
    /// window fits.
    pub fn seed(&mut self, batch: Vec<T>)
        requires
            old(self).wf(),
        ensures
            final(self).wf(),
            final(self).spec_items() == keep_last(old(self).spec_items() + batch@, old(self).spec_window()),
            final(self).spec_window() == old(self).spec_window(),
            final(self).spec_min() == old(self).spec_min(),
    {
        let mut rest = batch;
        let ghost all = old(self).spec_items() + batch@;
        while rest.len() > 0
            invariant
                self.items@ + rest@ == all,
                self.window == old(self).window,
                self.min_observations == old(self).min_observations,
            decreases rest@.len(),
        {
            let ghost before = self.items@;
            let ghost r = rest@;
            let x = rest.remove(0);
            self.items.push_back(x);
            assert(self.items@ + rest@ =~= before + r);
        }
        assert(self.items@ =~= all);
        while self.items.len() > self.window
            invariant
                self.window == old(self).window,
                self.min_observations == old(self).min_observations,
                keep_last(self.items@, self.window as nat) == keep_last(all, self.window as nat),
            decreases self.items@.len(),
        {
            let ghost before = self.items@;
            let _ = self.items.pop_front();
            proof {
                let w = self.window as nat;
                if self.items@.len() > w {
                    assert(self.items@.skip(self.items@.len() - w) =~= before.skip(before.len() - w));
                } else {
                    assert(self.items@ =~= before.skip(before.len() - w));
                }
            }
        }
    }

    /// Drops every item.
    pub fn clear(&mut self)
        requires
            old(self).wf(),
        ensures
            final(self).wf(),
            final(self).spec_items().len() == 0,
            final(self).spec_window() == old(self).spec_window(),
            final(self).spec_min() == old(self).spec_min(),
    {
        self.items.clear();
    }

    /// The most recent item, if any.
    pub fn latest(&self) -> (r: Option<&T>)
        ensures
            self.spec_items().len() == 0 ==> r is None,
            self.spec_items().len() > 0 ==> r == Some(&self.spec_items().last()),
    {
        let n = self.items.len();
        if n == 0 {
            None
        } else {
            Some(&self.items[n - 1])
        }
    }

    /// The baseline is established once the window holds enough items.
    pub fn is_established(&self) -> (r: bool)
        ensures
            r == (self.spec_items().len() >= self.spec_min()),
    {
        self.items.len() >= self.min_observations
    }

    /// The number of items held.
    pub fn len(&self) -> (r: usize)
        ensures
            r == self.spec_items().len(),
    {
        self.items.len()
    }

    /// The items, oldest first.
    pub fn items(&self) -> (r: &VecDeque<T>)
        ensures
            r@ == self.spec_items(),
    {
        &self.items
    }
}

/// After a push into a window of positive size, the pushed item is the
/// latest, and the window holds no more than its size.
pub proof fn lemma_push_latest<T>(s: Seq<T>, x: T, window: nat)
    requires
        window > 0,
    ensures
        keep_last(s.push(x), window).last() == x,
        s.len() <= window ==> keep_last(s.push(x), window).len() <= window,
{
    let t = s.push(x);
    if t.len() > window {
        assert(t.skip(t.len() - window).last() == t.last());
    }
}

} // verus!
