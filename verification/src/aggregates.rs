//! The aggregate devices that the daemon keeps for each GoXLR it sees.
//!
//! Every poll the caller lists the GoXLR devices present. Devices that have
//! gone lose their aggregates, and devices that have appeared get new ones;
//! the registry remembers which aggregate device ids belong to which device.

use vstd::prelude::*;
use crate::patterns::string_views;

verus! {

/// A CoreAudio device id.
pub type AudioDeviceId = u32;

/// The aggregate devices made for one GoXLR device.
pub struct AggregateEntry {
    pub uid: String,
    pub devices: Vec<AudioDeviceId>,
}

impl View for AggregateEntry {
    type V = (Seq<char>, Seq<AudioDeviceId>);

    open spec fn view(&self) -> (Seq<char>, Seq<AudioDeviceId>) {
        (self.uid@, self.devices@)
    }
}

/// The text of each entry.
pub open spec fn entry_views(v: Seq<AggregateEntry>) -> Seq<(Seq<char>, Seq<AudioDeviceId>)> {
    v.map_values(|e: AggregateEntry| e@)
}

/// Whether an entry's device is among those present.
pub open spec fn still_present(present: Seq<Seq<char>>) -> spec_fn(
    (Seq<char>, Seq<AudioDeviceId>),
) -> bool {
    |e: (Seq<char>, Seq<AudioDeviceId>)| present.contains(e.0)
}

/// Whether an entry's device is missing from those present.
pub open spec fn gone(present: Seq<Seq<char>>) -> spec_fn((Seq<char>, Seq<AudioDeviceId>)) -> bool {
    |e: (Seq<char>, Seq<AudioDeviceId>)| !present.contains(e.0)
}

/// No device appears twice.
pub open spec fn uids_unique(s: Seq<(Seq<char>, Seq<AudioDeviceId>)>) -> bool {
    forall|i: int, j: int| 0 <= i < j < s.len() ==> s[i].0 != s[j].0
}

/// Whether the registry holds aggregates for the device.
pub open spec fn registered(s: Seq<(Seq<char>, Seq<AudioDeviceId>)>, uid: Seq<char>) -> bool {
    exists|i: int| 0 <= i < s.len() && #[trigger] s[i].0 == uid
}

/// The registry after aggregates were asked for a device: `outcome` holds
/// the ids when they were created. A device that is registered is not asked
/// for again and keeps its aggregates; one that is not joins when they were
/// created.
pub open spec fn after_create_attempt(
    s: Seq<(Seq<char>, Seq<AudioDeviceId>)>,
    uid: Seq<char>,
    outcome: Option<Seq<AudioDeviceId>>,
) -> Seq<(Seq<char>, Seq<AudioDeviceId>)> {
    match outcome {
        Some(ids) => if registered(s, uid) {
            s
        } else {
            s.push((uid, ids))
        },
        None => s,
    }
}

/// The registry after the devices present were each treated in order by
/// `after_create_attempt`, with `outcomes[i]` the outcome for `uids[i]`.
pub open spec fn after_create_attempts(
    s: Seq<(Seq<char>, Seq<AudioDeviceId>)>,
    uids: Seq<Seq<char>>,
    outcomes: Seq<Option<Seq<AudioDeviceId>>>,
) -> Seq<(Seq<char>, Seq<AudioDeviceId>)>
    decreases uids.len(),
{
    if uids.len() == 0 {
        s
    } else {
        after_create_attempt(
            after_create_attempts(s, uids.drop_last(), outcomes),
            uids.last(),
            outcomes[uids.len() - 1],
        )
    }
}

/// The registry after one poll that found the devices `present`: the devices
/// that have gone are removed, then each present device that is not
/// registered gets aggregates, with `outcomes[i]` the outcome for `present[i]`.
pub open spec fn after_poll(
    s: Seq<(Seq<char>, Seq<AudioDeviceId>)>,
    present: Seq<Seq<char>>,
    outcomes: Seq<Option<Seq<AudioDeviceId>>>,
) -> Seq<(Seq<char>, Seq<AudioDeviceId>)> {
    after_create_attempts(s.filter(still_present(present)), present, outcomes)
}

/// Whether the daemon manages aggregate devices, given the setting: it does
/// unless the setting says otherwise.
pub fn aggregates_enabled(setting: Option<bool>) -> (enabled: bool)
    ensures
        enabled == (match setting {
            Some(b) => b,
            None => true,
        }),
{
    match setting {
        Some(b) => b,
        None => true,
    }
}

/// The aggregate devices of each GoXLR device, in the order the devices were registered.
pub struct AggregateRegistry {
    entries: Vec<AggregateEntry>,
}

impl View for AggregateRegistry {
    type V = Seq<(Seq<char>, Seq<AudioDeviceId>)>;

    closed spec fn view(&self) -> Seq<(Seq<char>, Seq<AudioDeviceId>)> {
        entry_views(self.entries@)
    }
}

impl AggregateRegistry {
    #[verifier::type_invariant]
    spec fn unique(self) -> bool {
        uids_unique(entry_views(self.entries@))
    }

    /// An empty registry.
    pub fn new() -> (r: AggregateRegistry)
        ensures
            r@ == Seq::<(Seq<char>, Seq<AudioDeviceId>)>::empty(),
    {
        let r = AggregateRegistry { entries: Vec::new() };
        assert(r@ =~= Seq::<(Seq<char>, Seq<AudioDeviceId>)>::empty());
        r
    }

    /// Whether the device still needs aggregates: it is not registered.
    pub fn needs_aggregates(&self, uid: &String) -> (r: bool)
        ensures
            r == !registered(self@, uid@),
    {
        let ghost v = self@;
        for i in 0..self.entries.len()
            invariant
                v == self@,
                v.len() == self.entries@.len(),
                forall|k: int| 0 <= k < i ==> v[k].0 != uid@,
        {
            assert(v[i as int] == self.entries@[i as int]@);
            if self.entries[i].uid == *uid {
                assert(v[i as int].0 == uid@);
                return false;
            }
        }
        true
    }

    /// Registers the aggregates made for a device that is not registered;
    /// a registered device keeps its aggregates. Returns whether it registered.
    pub fn register(&mut self, uid: String, devices: Vec<AudioDeviceId>) -> (inserted: bool)
        ensures
            inserted == !registered(old(self)@, uid@),
            inserted ==> final(self)@ == old(self)@.push((uid@, devices@)),
            !inserted ==> final(self)@ == old(self)@,
            final(self)@ == after_create_attempt(old(self)@, uid@, Some(devices@)),
            uids_unique(final(self)@),
    {
        proof {
            use_type_invariant(&*self);
        }
        if !self.needs_aggregates(&uid) {
            return false;
        }
        let ghost before = self@;
        let mut entries: Vec<AggregateEntry> = Vec::new();
        std::mem::swap(&mut entries, &mut self.entries);
        assert(entry_views(entries@) == before);
        entries.push(AggregateEntry { uid, devices });
        assert(entry_views(entries@) =~= before.push((uid@, devices@)));
        self.entries = entries;
        proof {
            use_type_invariant(&*self);
        }
        true
    }

    /// Removes the devices that are not among those `present` and hands back
    /// their entries, so that their aggregates can be destroyed. Both the kept
    /// and the removed entries stay in registration order.
    pub fn take_stale(&mut self, present: &Vec<String>) -> (stale: Vec<AggregateEntry>)
        ensures
            final(self)@ == old(self)@.filter(still_present(string_views(present@))),
            entry_views(stale@) == old(self)@.filter(gone(string_views(present@))),
            uids_unique(final(self)@),
    {
        proof {
            use_type_invariant(&*self);
        }
        let ghost before = self@;
        let ghost ps = string_views(present@);
        let mut old_entries: Vec<AggregateEntry> = Vec::new();
        std::mem::swap(&mut old_entries, &mut self.entries);
        assert(entry_views(old_entries@) == before);
        let mut kept: Vec<AggregateEntry> = Vec::new();
        let mut stale: Vec<AggregateEntry> = Vec::new();
        let mut rest = old_entries;
        let ghost mut i: int = 0;
        while rest.len() > 0
            invariant
                0 <= i <= before.len(),
                uids_unique(before),
                entry_views(rest@) == before.skip(i),
                entry_views(kept@) == before.take(i).filter(still_present(ps)),
                entry_views(stale@) == before.take(i).filter(gone(ps)),
                uids_unique(entry_views(kept@)),
                forall|k: int|
                    #![trigger entry_views(kept@)[k]]
                    0 <= k < kept@.len() ==> exists|j: int|
                        0 <= j < i && #[trigger] before[j].0 == entry_views(kept@)[k].0,
                ps == string_views(present@),
            decreases rest.len(),
        {
            let ghost rest_before = entry_views(rest@);
            assert(rest_before.len() == rest@.len());
            assert(rest_before[0] == rest@[0]@);
            let ghost rest_seq = rest@;
            let e = rest.remove(0);
            proof {
                assert(before.skip(i)[0] == before[i]);
                assert(e@ == before[i]);
                assert(before.take(i + 1).drop_last() =~= before.take(i));
                assert(before.take(i + 1).last() == before[i]);
                reveal_with_fuel(Seq::filter, 1);
            }
            let ghost kept_before = entry_views(kept@);
            let ghost stale_before = entry_views(stale@);
            if is_present(present, &e.uid) {
                kept.push(e);
                proof {
                    assert(entry_views(kept@) =~= kept_before.push(before[i]));
                    assert forall|a: int, b: int|
                        0 <= a < b < entry_views(kept@).len() implies entry_views(kept@)[a].0
                        != entry_views(kept@)[b].0 by {
                        if b == kept_before.len() {
                            let j = choose|j: int| 0 <= j < i && #[trigger] before[j].0 == kept_before[a].0;
                            assert(before[j].0 != before[i].0);
                        } else {
                            assert(kept_before[a].0 != kept_before[b].0);
                        }
                    }
                    assert forall|k: int|
                        #![trigger entry_views(kept@)[k]]
                        0 <= k < kept@.len() implies exists|j: int|
                        0 <= j < i + 1 && #[trigger] before[j].0 == entry_views(kept@)[k].0 by {
                        if k < kept_before.len() {
                            let j = choose|j: int| 0 <= j < i && #[trigger] before[j].0 == kept_before[k].0;
                            assert(before[j].0 == entry_views(kept@)[k].0);
                        } else {
                            assert(before[i].0 == entry_views(kept@)[k].0);
                        }
                    }
                }
            } else {
                stale.push(e);
                proof {
                    assert(entry_views(stale@) =~= stale_before.push(before[i]));
                }
            }
            proof {
                assert forall|k: int| 0 <= k < rest@.len() implies #[trigger] entry_views(rest@)[k]
                    == before.skip(i + 1)[k] by {
                    assert(rest@[k] == rest_seq[k + 1]);
                    assert(rest_before[k + 1] == rest_seq[k + 1]@);
                }
                assert(entry_views(rest@) =~= before.skip(i + 1));
                i = i + 1;
            }
        }
        assert(before.take(i) =~= before);
        self.entries = kept;
        proof {
            use_type_invariant(&*self);
        }
        stale
    }

    /// The registered entries, in registration order.
    pub fn entries(&self) -> (e: &Vec<AggregateEntry>)
        ensures
            entry_views(e@) == self@,
    {
        &self.entries
    }
}

/// Whether a device is among those present.
pub fn is_present(present: &Vec<String>, uid: &String) -> (r: bool)
    ensures
        r == string_views(present@).contains(uid@),
{
    for i in 0..present.len()
        invariant
            forall|k: int| 0 <= k < i ==> present@[k]@ != uid@,
    {
        if present[i] == *uid {
            assert(string_views(present@)[i as int] == uid@);
            return true;
        }
    }
    assert(!string_views(present@).contains(uid@)) by {
        if string_views(present@).contains(uid@) {
            let k = choose|k: int| 0 <= k < present@.len() && string_views(present@)[k] == uid@;
            assert(present@[k]@ == uid@);
        }
    }
    false
}

} // verus!
