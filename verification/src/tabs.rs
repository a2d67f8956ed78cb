//! The views of the interface, one of them active, walked in a circle.

use vstd::prelude::*;

verus! {

#[derive(Debug)]
pub struct StatefulTabs {
    pub titles: Vec<String>,
    pub active: usize,
}

impl StatefulTabs {
    /// The active index names a title.
    pub open spec fn wf(&self) -> bool {
        self.active < self.titles@.len()
    }

    /// The index that follows `active` in a circle of `count` tabs.
    pub open spec fn following(active: int, count: int) -> int {
        (active + 1) % count
    }

    /// The index that comes before `active` in a circle of `count` tabs.
    pub open spec fn preceding(active: int, count: int) -> int {
        if active > 0 {
            active - 1
        } else {
            count - 1
        }
    }

    /// Tabs under `titles`, the first of them active.
    pub fn new(titles: Vec<String>) -> (tabs: StatefulTabs)
        ensures
            tabs.titles == titles,
            tabs.active == 0,
    {
        StatefulTabs { titles, active: 0 }
    }

    /// Makes the following tab active, the first one after the last.
    pub fn next_tab(&mut self)
        requires
            old(self).titles@.len() > 0,
            old(self).active < usize::MAX,
        ensures
            final(self).titles == old(self).titles,
            final(self).active == Self::following(
                old(self).active as int,
                old(self).titles@.len() as int,
            ),
            final(self).wf(),
    {
        self.active = (self.active + 1) % self.titles.len();
    }

    /// Makes the preceding tab active, the last one before the first.
    pub fn prev_tab(&mut self)
        requires
            old(self).active > 0 || old(self).titles@.len() > 0,
        ensures
            final(self).titles == old(self).titles,
            final(self).active == Self::preceding(
                old(self).active as int,
                old(self).titles@.len() as int,
            ),
            old(self).wf() ==> final(self).wf(),
    {
        if self.active > 0 {
            self.active -= 1;
        } else {
            self.active = self.titles.len() - 1;
        }
    }
}

/// Among tabs of which one is active, a step forward and a step back undo
/// each other.
pub proof fn lemma_tab_steps_undo(active: int, count: int)
    requires
        0 <= active < count,
    ensures
        StatefulTabs::preceding(StatefulTabs::following(active, count), count) == active,
        StatefulTabs::following(StatefulTabs::preceding(active, count), count) == active,
        0 <= StatefulTabs::following(active, count) < count,
        0 <= StatefulTabs::preceding(active, count) < count,
{
    if active + 1 < count {
        vstd::arithmetic::div_mod::lemma_small_mod((active + 1) as nat, count as nat);
    } else {
        vstd::arithmetic::div_mod::lemma_mod_self_0(count);
    }
    if active == 0 {
        vstd::arithmetic::div_mod::lemma_mod_self_0(count);
    } else {
        vstd::arithmetic::div_mod::lemma_small_mod(active as nat, count as nat);
    }
}

} // verus!
