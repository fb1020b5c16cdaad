//! The per-monitor widget registry. It is populated once, while the bars are
//! built, and thereafter only ticked: every tick updates all clocks
//! synchronously and feeds each workspaces widget the result of its own
//! active-workspace query. A failure for one registrant never touches
//! the others.

use vstd::prelude::*;
use crate::clock::{ClockWidget, is_clock_markup};
use crate::errors::BarError;
use crate::workspaces::{WorkspacesWidget, refresh_step};

verus! {

/// Every key occurs at most once.
pub open spec fn unique_keys<T>(entries: Seq<(String, T)>) -> bool {
    forall|i: int, j: int|
        0 <= i < j < entries.len() ==> (#[trigger] entries[i]).0@ != (#[trigger] entries[j]).0@
}

/// Some entry carries key `k`.
pub open spec fn has_key<T>(entries: Seq<(String, T)>, k: Seq<char>) -> bool {
    exists|i: int| 0 <= i < entries.len() && (#[trigger] entries[i]).0@ == k
}

/// The index of the entry carrying key `k`, where one exists.
pub open spec fn key_index<T>(entries: Seq<(String, T)>, k: Seq<char>) -> int {
    choose|i: int| 0 <= i < entries.len() && (#[trigger] entries[i]).0@ == k
}

/// The registry of widget handles, keyed by monitor identity.
pub struct BarManager {
    /// The clock of each monitor's bar.
    pub clocks: Vec<(String, ClockWidget)>,
    /// The workspaces widget of each monitor's bar.
    pub workspaces: Vec<(String, WorkspacesWidget)>,
}

impl BarManager {
    /// Well-formedness: monitor keys are unique in each registry, and every
    /// registered workspaces widget is well-formed.
    pub open spec fn wf(&self) -> bool {
        &&& unique_keys(self.clocks@)
        &&& unique_keys(self.workspaces@)
        &&& forall|i: int|
            0 <= i < self.workspaces@.len() ==> (#[trigger] self.workspaces@[i]).1@.wf()
    }

    /// An empty registry.
    pub fn new() -> (r: Self)
        ensures
            r.wf(),
            r.clocks@.len() == 0,
            r.workspaces@.len() == 0,
    {
        BarManager { clocks: Vec::new(), workspaces: Vec::new() }
    }

    /// Register a monitor's clock: a fresh key is appended, a key seen
    /// before has its handle replaced.
    pub fn add_clock(&mut self, monitor_name: String, clock: ClockWidget)
        requires
            old(self).wf(),
        ensures
            final(self).wf(),
            final(self).workspaces@ == old(self).workspaces@,
            !has_key(old(self).clocks@, monitor_name@) ==> final(self).clocks@ == old(
                self,
            ).clocks@.push((monitor_name, clock)),
            has_key(old(self).clocks@, monitor_name@) ==> final(self).clocks@ == old(
                self,
            ).clocks@.update(key_index(old(self).clocks@, monitor_name@), (monitor_name, clock)),
    {
        let mut i: usize = 0;
        while i < self.clocks.len()
            invariant
                0 <= i <= self.clocks@.len(),
                old(self).wf(),
                self.clocks@ == old(self).clocks@,
                self.workspaces@ == old(self).workspaces@,
                forall|j: int| 0 <= j < i ==> (#[trigger] self.clocks@[j]).0@ != monitor_name@,
            decreases self.clocks@.len() - i,
        {
            if self.clocks[i].0.eq(&monitor_name) {
                proof {
                    assert(self.clocks@[i as int].0@ == monitor_name@);
                    assert(has_key(self.clocks@, monitor_name@));
                    assert(key_index(self.clocks@, monitor_name@) == i) by {
                        let k = key_index(self.clocks@, monitor_name@);
                        assert(0 <= k < self.clocks@.len() && self.clocks@[k].0@ == monitor_name@);
                        if k < i {
                            assert(self.clocks@[k].0@ != self.clocks@[i as int].0@);
                        }
                        if i < k {
                            assert(self.clocks@[i as int].0@ != self.clocks@[k].0@);
                        }
                    }
                }
                self.clocks[i] = (monitor_name, clock);
                proof {
                    assert(forall|a: int|
                        0 <= a < self.clocks@.len() ==> (#[trigger] self.clocks@[a]).0@ == old(
                        self,
                        ).clocks@[a].0@);
                }
                return ;
            }
            i = i + 1;
        }
        proof {
            assert(!has_key(self.clocks@, monitor_name@));
        }
        self.clocks.push((monitor_name, clock));
        proof {
            assert(forall|a: int, b: int|
                0 <= a < b < self.clocks@.len() ==> (#[trigger] self.clocks@[a]).0@ != (
                #[trigger] self.clocks@[b]).0@) by {
                assert(forall|a: int|
                    0 <= a < old(self).clocks@.len() ==> (#[trigger] self.clocks@[a]) == old(
                    self,
                    ).clocks@[a]);
            }
        }
    }

    /// Register a monitor's workspaces widget: a fresh key is appended, a key
    /// seen before has its handle replaced.
    pub fn add_workspaces(&mut self, monitor_name: String, workspaces: WorkspacesWidget)
        requires
            old(self).wf(),
            workspaces@.wf(),
        ensures
            final(self).wf(),
            final(self).clocks@ == old(self).clocks@,
            !has_key(old(self).workspaces@, monitor_name@) ==> final(self).workspaces@ == old(
                self,
            ).workspaces@.push((monitor_name, workspaces)),
            has_key(old(self).workspaces@, monitor_name@) ==> final(self).workspaces@ == old(
                self,
            ).workspaces@.update(
                key_index(old(self).workspaces@, monitor_name@),
                (monitor_name, workspaces),
            ),
    {
        let mut i: usize = 0;
        while i < self.workspaces.len()
            invariant
                0 <= i <= self.workspaces@.len(),
                old(self).wf(),
                workspaces@.wf(),
                self.clocks@ == old(self).clocks@,
                self.workspaces@ == old(self).workspaces@,
                forall|j: int| 0 <= j < i ==> (#[trigger] self.workspaces@[j]).0@ != monitor_name@,
            decreases self.workspaces@.len() - i,
        {
            if self.workspaces[i].0.eq(&monitor_name) {
                proof {
                    assert(self.workspaces@[i as int].0@ == monitor_name@);
                    assert(has_key(self.workspaces@, monitor_name@));
                    assert(key_index(self.workspaces@, monitor_name@) == i) by {
                        let k = key_index(self.workspaces@, monitor_name@);
                        assert(0 <= k < self.workspaces@.len() && self.workspaces@[k].0@
                            == monitor_name@);
                        if k < i {
                            assert(self.workspaces@[k].0@ != self.workspaces@[i as int].0@);
                        }
                        if i < k {
                            assert(self.workspaces@[i as int].0@ != self.workspaces@[k].0@);
                        }
                    }
                }
                self.workspaces[i] = (monitor_name, workspaces);
                proof {
                    assert(forall|a: int|
                        0 <= a < self.workspaces@.len() ==> (#[trigger] self.workspaces@[a]).0@
                            == old(self).workspaces@[a].0@);
                }
                return ;
            }
            i = i + 1;
        }
        proof {
            assert(!has_key(self.workspaces@, monitor_name@));
        }
        self.workspaces.push((monitor_name, workspaces));
        proof {
            assert(forall|a: int, b: int|
                0 <= a < b < self.workspaces@.len() ==> (#[trigger] self.workspaces@[a]).0@ != (
                #[trigger] self.workspaces@[b]).0@) by {
                assert(forall|a: int|
                    0 <= a < old(self).workspaces@.len() ==> (#[trigger] self.workspaces@[a])
                        == old(self).workspaces@[a]);
            }
        }
    }

    /// Tick every clock: each registered clock re-renders the current local
    /// time. The workspace registry is untouched.
    pub fn update_all_clocks(&mut self)
        requires
            old(self).wf(),
        ensures
            final(self).wf(),
            final(self).workspaces@ == old(self).workspaces@,
            final(self).clocks@.len() == old(self).clocks@.len(),
            forall|i: int|
                0 <= i < final(self).clocks@.len() ==> (#[trigger] final(self).clocks@[i]).0 == old(
                    self,
                ).clocks@[i].0,
            forall|i: int|
                0 <= i < final(self).clocks@.len() ==> is_clock_markup(
                    (#[trigger] final(self).clocks@[i]).1.label@,
                ),
    {
        let mut i: usize = 0;
        while i < self.clocks.len()
            invariant
                0 <= i <= self.clocks@.len(),
                self.clocks@.len() == old(self).clocks@.len(),
                self.workspaces@ == old(self).workspaces@,
                old(self).wf(),
                forall|j: int|
                    0 <= j < self.clocks@.len() ==> (#[trigger] self.clocks@[j]).0 == old(
                        self,
                    ).clocks@[j].0,
                forall|j: int|
                    0 <= j < i ==> is_clock_markup((#[trigger] self.clocks@[j]).1.label@),
            decreases self.clocks@.len() - i,
        {
            self.clocks[i].1.update();
            i = i + 1;
        }
        proof {
            assert(unique_keys(self.clocks@)) by {
                assert(forall|a: int, b: int|
                    0 <= a < b < self.clocks@.len() ==> (#[trigger] self.clocks@[a]).0@ != (
                    #[trigger] self.clocks@[b]).0@) by {
                    assert(forall|a: int|
                        0 <= a < self.clocks@.len() ==> (#[trigger] self.clocks@[a]).0 == old(
                        self,
                        ).clocks@[a].0);
                }
            }
        }
    }

    /// Tick every workspaces widget: widget `i` absorbs the result of its own
    /// active-workspace query, `observed[i]`. A failure recorded for one
    /// widget leaves that widget, and only that widget, unchanged; the clock
    /// registry is untouched.
    pub fn update_all_workspaces(&mut self, observed: &Vec<Result<i64, BarError>>)
        requires
            old(self).wf(),
            observed@.len() == old(self).workspaces@.len(),
        ensures
            final(self).wf(),
            final(self).clocks@ == old(self).clocks@,
            final(self).workspaces@.len() == old(self).workspaces@.len(),
            forall|i: int|
                0 <= i < final(self).workspaces@.len() ==> (#[trigger] final(self).workspaces@[i]).0
                    == old(self).workspaces@[i].0,
            forall|i: int|
                0 <= i < final(self).workspaces@.len() ==> (#[trigger] final(self).workspaces@[i]).1@
                    == refresh_step(old(self).workspaces@[i].1@, observed@[i]),
    {
        let mut i: usize = 0;
        while i < self.workspaces.len()
            invariant
                0 <= i <= self.workspaces@.len(),
                observed@.len() == old(self).workspaces@.len(),
                self.workspaces@.len() == old(self).workspaces@.len(),
                self.clocks@ == old(self).clocks@,
                old(self).wf(),
                forall|j: int|
                    0 <= j < self.workspaces@.len() ==> (#[trigger] self.workspaces@[j]).0 == old(
                        self,
                    ).workspaces@[j].0,
                forall|j: int|
                    i <= j < self.workspaces@.len() ==> (#[trigger] self.workspaces@[j]).1 == old(
                        self,
                    ).workspaces@[j].1,
                forall|j: int|
                    0 <= j < i ==> (#[trigger] self.workspaces@[j]).1@ == refresh_step(
                        old(self).workspaces@[j].1@,
                        observed@[j],
                    ),
            decreases self.workspaces@.len() - i,
        {
            proof {
                assert(self.workspaces@[i as int].1 == old(self).workspaces@[i as int].1);
                assert(self.workspaces@[i as int].1@.wf());
            }
            self.workspaces[i].1.update(observed[i]);
            i = i + 1;
        }
        proof {
            assert(unique_keys(self.workspaces@)) by {
                assert(forall|a: int|
                    0 <= a < self.workspaces@.len() ==> (#[trigger] self.workspaces@[a]).0 == old(
                    self,
                    ).workspaces@[a].0);
            }
            assert(forall|i: int|
                0 <= i < self.workspaces@.len() ==> (#[trigger] self.workspaces@[i]).1@.wf());
        }
    }

    /// One tick, as the 1 Hz driver schedules it: all clocks re-render
    /// synchronously, then every workspaces widget absorbs its own query
    /// result. Registration keys and order never change.
    pub fn tick(&mut self, observed: &Vec<Result<i64, BarError>>)
        requires
            old(self).wf(),
            observed@.len() == old(self).workspaces@.len(),
        ensures
            final(self).wf(),
            final(self).clocks@.len() == old(self).clocks@.len(),
            final(self).workspaces@.len() == old(self).workspaces@.len(),
            forall|i: int|
                0 <= i < final(self).clocks@.len() ==> (#[trigger] final(self).clocks@[i]).0 == old(
                    self,
                ).clocks@[i].0,
            forall|i: int|
                0 <= i < final(self).clocks@.len() ==> is_clock_markup(
                    (#[trigger] final(self).clocks@[i]).1.label@,
                ),
            forall|i: int|
                0 <= i < final(self).workspaces@.len() ==> (#[trigger] final(self).workspaces@[i]).0
                    == old(self).workspaces@[i].0,
            forall|i: int|
                0 <= i < final(self).workspaces@.len() ==> (#[trigger] final(self).workspaces@[i]).1@
                    == refresh_step(old(self).workspaces@[i].1@, observed@[i]),
    {
        self.update_all_clocks();
        self.update_all_workspaces(observed);
    }
}

} // verus!
