//! The list of monitors and of notification keys that the owner of the
//! monitors edits.
//!
//! There is one monitor for an account and a kind: two entries never have the
//! same kind and addresses that differ in case only. Keys are kept in the order
//! in which they were registered; a key may occur twice, and is then sent to
//! twice.

use crate::monitor::MonitorKind;
use crate::text::{contains, is_part_of, lowercase, lowercase_of, same_text};
use vstd::prelude::*;

verus! {

/// One entry of the list: an account, what is watched of it, and whether its
/// monitor runs.
#[derive(Debug, PartialEq, Eq)]
pub struct MonitorSpec {
    pub address: String,
    pub kind: MonitorKind,
    pub active: bool,
}

impl Clone for MonitorSpec {
    fn clone(&self) -> (copy: Self)
        ensures
            copy == *self,
    {
        MonitorSpec { address: self.address.clone(), kind: self.kind, active: self.active }
    }
}

/// What became of a request to add a monitor.
#[derive(Clone, Copy, Debug, PartialEq, Eq, Structural)]
pub enum AddOutcome {
    Added,
    /// No address was given. Nothing changed.
    EmptyAddress,
    /// The account is monitored for this kind already. Nothing changed.
    AlreadyMonitored,
}

/// `entry` is the monitor of `address` for `kind`: same kind, and the same
/// address but for case.
pub open spec fn is_monitor_of(entry: MonitorSpec, address: Seq<char>, kind: MonitorKind) -> bool {
    entry.kind == kind && lowercase_of(entry.address@) == lowercase_of(address)
}

/// The list holds a monitor of `address` for `kind`.
pub open spec fn is_listed(monitors: Seq<MonitorSpec>, address: Seq<char>, kind: MonitorKind) -> bool {
    exists|i: int| 0 <= i < monitors.len() && is_monitor_of(#[trigger] monitors[i], address, kind)
}

/// No two entries of the list are monitors of the same account and kind.
pub open spec fn all_distinct(monitors: Seq<MonitorSpec>) -> bool {
    forall|i: int, j: int|
        0 <= i < j < monitors.len() ==> !is_monitor_of(
            #[trigger] monitors[i],
            (#[trigger] monitors[j]).address@,
            monitors[j].kind,
        )
}

/// Whether an account is shown under a search: every account under an empty
/// search, else those whose address holds the search text. Case does not
/// matter.
pub open spec fn is_search_hit(address: Seq<char>, search: Seq<char>) -> bool {
    lowercase_of(search).len() == 0 || is_part_of(lowercase_of(search), lowercase_of(address))
}

/// Tells whether `address` is shown under `search`.
pub fn matches_search(address: &str, search: &str) -> (hit: bool)
    ensures
        hit == is_search_hit(address@, search@),
{
    let wanted = lowercase(search);
    if wanted.as_str().is_empty() {
        true
    } else {
        let held = lowercase(address);
        contains(held.as_str(), wanted.as_str())
    }
}

/// The monitors and the keys of one owner.
pub struct Registry {
    monitors: Vec<MonitorSpec>,
    keys: Vec<String>,
}

impl Registry {
    #[verifier::type_invariant]
    spec fn distinct(&self) -> bool {
        all_distinct(self.monitors@)
    }

    /// The monitors, in the order in which they were added.
    pub closed spec fn monitors(&self) -> Seq<MonitorSpec> {
        self.monitors@
    }

    /// The keys, in the order in which they were registered.
    pub closed spec fn keys(&self) -> Seq<String> {
        self.keys@
    }

    /// An empty registry.
    pub fn new() -> (registry: Self)
        ensures
            registry.monitors() == Seq::<MonitorSpec>::empty(),
            registry.keys() == Seq::<String>::empty(),
    {
        Registry { monitors: Vec::new(), keys: Vec::new() }
    }

    /// The monitors. No two of them watch the same account for the same kind.
    pub fn monitor_list(&self) -> (list: &Vec<MonitorSpec>)
        ensures
            list@ == self.monitors(),
            all_distinct(list@),
    {
        proof {
            use_type_invariant(self);
        }
        &self.monitors
    }

    pub fn key_list(&self) -> (list: &Vec<String>)
        ensures
            list@ == self.keys(),
    {
        &self.keys
    }

    /// Whether the account is monitored for this kind, whatever the case of
    /// the address.
    pub fn is_monitored(&self, address: &str, kind: MonitorKind) -> (listed: bool)
        ensures
            listed == is_listed(self.monitors(), address@, kind),
    {
        let wanted = lowercase(address);
        let mut i: usize = 0;
        while i < self.monitors.len()
            invariant
                i <= self.monitors.len(),
                wanted@ == lowercase_of(address@),
                forall|j: int| 0 <= j < i ==> !is_monitor_of(#[trigger] self.monitors[j], address@, kind),
            decreases self.monitors.len() - i,
        {
            let entry = &self.monitors[i];
            if entry.kind == kind {
                let held = lowercase(entry.address.as_str());
                if same_text(held.as_str(), wanted.as_str()) {
                    return true;
                }
            }
            i = i + 1;
        }
        false
    }

    /// Adds a monitor for the account, not yet running. An empty address is
    /// turned down, and so is an account that is monitored for this kind
    /// already.
    pub fn add_monitor(&mut self, address: &str, kind: MonitorKind) -> (outcome: AddOutcome)
        ensures
            final(self).keys() == old(self).keys(),
            outcome == (if address@.len() == 0 {
                AddOutcome::EmptyAddress
            } else if is_listed(old(self).monitors(), address@, kind) {
                AddOutcome::AlreadyMonitored
            } else {
                AddOutcome::Added
            }),
            outcome is Added ==> {
                &&& final(self).monitors().len() == old(self).monitors().len() + 1
                &&& final(self).monitors().drop_last() == old(self).monitors()
                &&& final(self).monitors().last().address@ == address@
                &&& final(self).monitors().last().kind == kind
                &&& !final(self).monitors().last().active
            },
            !(outcome is Added) ==> final(self).monitors() == old(self).monitors(),
    {
        if address.is_empty() {
            return AddOutcome::EmptyAddress;
        }
        if self.is_monitored(address, kind) {
            return AddOutcome::AlreadyMonitored;
        }
        proof {
            use_type_invariant(&*self);
        }
        let entry = MonitorSpec { address: String::from_str(address), kind, active: false };
        // The list is taken out while it changes: the registry stays whole.
        let mut monitors: Vec<MonitorSpec> = Vec::new();
        std::mem::swap(&mut self.monitors, &mut monitors);
        monitors.push(entry);
        proof {
            assert(monitors@.drop_last() =~= old(self).monitors());
            assert forall|i: int, j: int| 0 <= i < j < monitors.len() implies !is_monitor_of(
                #[trigger] monitors[i],
                (#[trigger] monitors[j]).address@,
                monitors[j].kind,
            ) by {
                if j == monitors.len() - 1 {
                    assert(old(self).monitors()[i] == monitors[i]);
                }
            }
        }
        std::mem::swap(&mut self.monitors, &mut monitors);
        AddOutcome::Added
    }

    /// Takes the monitor at `index` off the list and hands it back; `None`
    /// where there is none.
    pub fn remove_monitor(&mut self, index: usize) -> (removed: Option<MonitorSpec>)
        ensures
            final(self).keys() == old(self).keys(),
            index < old(self).monitors().len() ==> removed == Some(old(self).monitors()[index as int])
                && final(self).monitors() == old(self).monitors().remove(index as int),
            index >= old(self).monitors().len() ==> removed is None && final(self).monitors() == old(self).monitors(),
    {
        if index >= self.monitors.len() {
            return None;
        }
        proof {
            use_type_invariant(&*self);
        }
        let mut monitors: Vec<MonitorSpec> = Vec::new();
        std::mem::swap(&mut self.monitors, &mut monitors);
        let removed = monitors.remove(index);
        std::mem::swap(&mut self.monitors, &mut monitors);
        Some(removed)
    }

    /// Marks the monitor at `index` as running or not. Tells whether there is
    /// such a monitor.
    pub fn set_active(&mut self, index: usize, active: bool) -> (found: bool)
        ensures
            final(self).keys() == old(self).keys(),
            found == (index < old(self).monitors().len()),
            found ==> final(self).monitors() == old(self).monitors().update(
                index as int,
                MonitorSpec { active, ..old(self).monitors()[index as int] },
            ),
            !found ==> final(self).monitors() == old(self).monitors(),
    {
        if index >= self.monitors.len() {
            return false;
        }
        proof {
            use_type_invariant(&*self);
        }
        let mut monitors: Vec<MonitorSpec> = Vec::new();
        std::mem::swap(&mut self.monitors, &mut monitors);
        let mut entry = monitors[index].clone();
        entry.active = active;
        monitors.set(index, entry);
        std::mem::swap(&mut self.monitors, &mut monitors);
        true
    }

    /// Registers a key behind those that are there. An empty key is turned
    /// down. Tells whether the key was taken.
    pub fn add_key(&mut self, key: &str) -> (taken: bool)
        ensures
            final(self).monitors() == old(self).monitors(),
            taken == (key@.len() > 0),
            taken ==> final(self).keys().len() == old(self).keys().len() + 1 && final(self).keys().drop_last() == old(self).keys() && final(self).keys().last()@ == key@,
            !taken ==> final(self).keys() == old(self).keys(),
    {
        if key.is_empty() {
            return false;
        }
        proof {
            use_type_invariant(&*self);
        }
        let mut keys: Vec<String> = Vec::new();
        std::mem::swap(&mut self.keys, &mut keys);
        keys.push(String::from_str(key));
        proof {
            assert(keys@.drop_last() =~= old(self).keys());
        }
        std::mem::swap(&mut self.keys, &mut keys);
        true
    }

    /// Takes the key at `index` off the list and hands it back; `None` where
    /// there is none.
    pub fn remove_key(&mut self, index: usize) -> (removed: Option<String>)
        ensures
            final(self).monitors() == old(self).monitors(),
            index < old(self).keys().len() ==> removed == Some(old(self).keys()[index as int])
                && final(self).keys() == old(self).keys().remove(index as int),
            index >= old(self).keys().len() ==> removed is None && final(self).keys() == old(self).keys(),
    {
        if index >= self.keys.len() {
            return None;
        }
        proof {
            use_type_invariant(&*self);
        }
        let mut keys: Vec<String> = Vec::new();
        std::mem::swap(&mut self.keys, &mut keys);
        let removed = keys.remove(index);
        std::mem::swap(&mut self.keys, &mut keys);
        Some(removed)
    }
}

} // verus!
