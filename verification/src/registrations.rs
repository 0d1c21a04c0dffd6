//! The registrations the I/O driver tracks: every live registration holds a
//! slot of a fixed-capacity slot map, and a deregistered one keeps its slot
//! until the next poll of the selector, so no event of that poll refers to a
//! released registration.

use vstd::prelude::*;

use crate::errors::CommonErrors;
use crate::vector_extension::{fixed_vec_capacity, fixed_vec_items, FixedVec};

verus! {

/// The slot map of `iceoryx2_bb_container`, holding `u64` values (the
/// identifiers of registrations), held in a private field: its generic type,
/// whose pointer parameter carries trait bounds, is not declared itself.
#[verifier::external_body]
pub struct SlotTable {
    inner: iceoryx2_bb_container::slotmap::SlotMap<u64>,
}

/// The entries of a slot map: the key of each occupied slot and its value.
pub uninterp spec fn slot_table_entries(t: SlotTable) -> Map<usize, u64>;

/// The number of slots a slot map was created with.
pub uninterp spec fn slot_table_capacity(t: SlotTable) -> nat;

impl SlotTable {
    /// `SlotMap::new` of `iceoryx2_bb_container`: a slot map with `capacity`
    /// free slots. A map without slots panics on its first insertion, and the
    /// allocation size is computed unchecked, so the capacity is positive and
    /// kept well inside the address space.
    #[verifier::external_body]
    pub(crate) fn new(capacity: usize) -> (r: SlotTable)
        requires
            0 < capacity <= 0x0FFF_FFFF_FFFF_FFFF,
        ensures
            slot_table_entries(r).dom() == Set::<usize>::empty(),
            slot_table_capacity(r) == capacity,
    {
        SlotTable { inner: iceoryx2_bb_container::slotmap::SlotMap::new(capacity) }
    }

    /// `SlotMap::insert` of `iceoryx2_bb_container`: stores `value` in a free
    /// slot and returns that slot's key; `None` when every slot is taken.
    /// Which free slot is taken is left open.
    #[verifier::external_body]
    pub(crate) fn insert(&mut self, value: u64) -> (r: Option<usize>)
        ensures
            slot_table_capacity(*final(self)) == slot_table_capacity(*old(self)),
            r is None <==> (forall|k: usize|
                k < slot_table_capacity(*old(self)) ==> #[trigger] slot_table_entries(*old(self)).dom().contains(k)),
            r is None ==> slot_table_entries(*final(self)) == slot_table_entries(*old(self)),
            r matches Some(k) ==> k < slot_table_capacity(*old(self)) && !slot_table_entries(
                *old(self),
            ).dom().contains(k) && slot_table_entries(*final(self)) == slot_table_entries(*old(self)).insert(k, value),
    {
        self.inner.insert(value).map(|key| key.value())
    }

    /// `SlotMap::remove` of `iceoryx2_bb_container`: frees the slot `key`;
    /// returns whether it was occupied.
    #[verifier::external_body]
    pub(crate) fn remove(&mut self, key: usize) -> (r: bool)
        requires
            key < slot_table_capacity(*old(self)),
        ensures
            slot_table_capacity(*final(self)) == slot_table_capacity(*old(self)),
            r == slot_table_entries(*old(self)).dom().contains(key),
            slot_table_entries(*final(self)) == slot_table_entries(*old(self)).remove(key),
    {
        self.inner.remove(iceoryx2_bb_container::slotmap::SlotMapKey::new(key))
    }
}

impl SlotTable {
    /// `SlotMap::get` of `iceoryx2_bb_container`: the value in slot `key`, if
    /// the slot is taken.
    #[verifier::external_body]
    pub(crate) fn get(&self, key: usize) -> (r: Option<u64>)
        requires
            key < slot_table_capacity(*self),
        ensures
            r == (if slot_table_entries(*self).dom().contains(key) {
                Some(slot_table_entries(*self)[key])
            } else {
                None
            }),
    {
        self.inner.get(iceoryx2_bb_container::slotmap::SlotMapKey::new(key)).copied()
    }
}

/// The identifiers a cleanup releases: the keys of `waiting` are processed
/// from the last to the first, and each key still tracked gives its
/// identifier and leaves the map.
pub open spec fn released_ids(entries: Map<usize, u64>, waiting: Seq<usize>) -> Seq<u64>
    decreases waiting.len(),
{
    if waiting.len() == 0 {
        Seq::empty()
    } else {
        let k = waiting.last();
        if entries.dom().contains(k) {
            seq![entries[k]] + released_ids(entries.remove(k), waiting.drop_last())
        } else {
            released_ids(entries, waiting.drop_last())
        }
    }
}

/// How many registrations the driver tracks at once, and how many released
/// ones it keeps until the next poll.
pub const REGISTRATIONS_CAPACITY: usize = 1234;

/// The registrations of an I/O driver, each stored by its identifier.
pub struct Registrations {
    tracking: SlotTable,
    waiting_release: FixedVec,
    pending_release_count: usize,
}

impl Registrations {
    /// The tracked registrations: slot key to identifier.
    pub closed spec fn entries(self) -> Map<usize, u64> {
        slot_table_entries(self.tracking)
    }

    /// The keys released since the last cleanup, in the order they came.
    pub closed spec fn waiting(self) -> Seq<usize> {
        fixed_vec_items(self.waiting_release)
    }

    /// The number of releases since the last cleanup (wrapping).
    pub closed spec fn pending(self) -> usize {
        self.pending_release_count
    }

    /// Both containers have the fixed capacity, every tracked key is a slot
    /// of the map, and no waiting key is the one key a removal panics on.
    pub closed spec fn wf(self) -> bool {
        &&& slot_table_capacity(self.tracking) == REGISTRATIONS_CAPACITY
        &&& fixed_vec_capacity(self.waiting_release) == REGISTRATIONS_CAPACITY
        &&& forall|k: usize| #[trigger] self.entries().dom().contains(k) ==> k < REGISTRATIONS_CAPACITY
        &&& forall|i: int| 0 <= i < self.waiting().len() ==> #[trigger] self.waiting()[i] != REGISTRATIONS_CAPACITY
    }

    /// No registration tracked, none waiting for release.
    pub fn new() -> (r: Self)
        ensures
            r.wf(),
            r.entries() == Map::<usize, u64>::empty(),
            r.waiting() == Seq::<usize>::empty(),
            r.pending() == 0,
    {
        Registrations {
            tracking: SlotTable::new(REGISTRATIONS_CAPACITY),
            waiting_release: FixedVec::new(REGISTRATIONS_CAPACITY),
            pending_release_count: 0,
        }
    }

    /// Tracks the registration `id` in a free slot and returns the slot's key,
    /// or `NoSpaceLeft` when every slot is taken.
    pub fn request_registration_info(&mut self, id: u64) -> (r: Result<usize, CommonErrors>)
        requires
            old(self).wf(),
        ensures
            final(self).wf(),
            final(self).waiting() == old(self).waiting(),
            final(self).pending() == old(self).pending(),
            r is Err <==> (forall|k: usize|
                k < REGISTRATIONS_CAPACITY ==> #[trigger] old(self).entries().dom().contains(k)),
            r is Err ==> r == Err::<usize, CommonErrors>(CommonErrors::NoSpaceLeft) && final(self).entries()
                == old(self).entries(),
            r matches Ok(k) ==> k < REGISTRATIONS_CAPACITY && !old(self).entries().dom().contains(k)
                && final(self).entries() == old(self).entries().insert(k, id),
    {
        let ghost before = self.entries();
        let inserted = self.tracking.insert(id);
        proof {
            assert(before == slot_table_entries(old(self).tracking));
            assert(self.waiting() == old(self).waiting());
            assert forall|k: usize| #[trigger] self.entries().dom().contains(k) implies k < REGISTRATIONS_CAPACITY by {
                if !before.dom().contains(k) {
                    assert(inserted == Some(k));
                }
            }
        }
        match inserted {
            Some(key) => Ok(key),
            None => Err(CommonErrors::NoSpaceLeft),
        }
    }

    /// Puts the registration with key `key` on the list released at the next
    /// cleanup (dropped silently when that list is full) and counts the release.
    pub fn schedule_registration_for_disposal(&mut self, key: usize)
        requires
            old(self).wf(),
            key != REGISTRATIONS_CAPACITY,
        ensures
            final(self).wf(),
            final(self).entries() == old(self).entries(),
            old(self).waiting().len() < REGISTRATIONS_CAPACITY ==> final(self).waiting() == old(self).waiting().push(
                key,
            ),
            old(self).waiting().len() >= REGISTRATIONS_CAPACITY ==> final(self).waiting() == old(self).waiting(),
            final(self).pending() == (if old(self).pending() == usize::MAX {
                0
            } else {
                old(self).pending() + 1
            }),
    {
        self.waiting_release.push(key);
        self.pending_release_count = self.pending_release_count.wrapping_add(1);
        assert(self.entries() == old(self).entries());
    }

    /// Releases every registration put on the release list since the last
    /// cleanup and returns the identifiers of those that were still tracked;
    /// does nothing when no release was counted.
    pub fn cleanup_disposed_registrations(&mut self) -> (r: Vec<u64>)
        requires
            old(self).wf(),
        ensures
            final(self).wf(),
            old(self).pending() == 0 ==> final(self).entries() == old(self).entries() && final(self).waiting()
                == old(self).waiting() && final(self).pending() == 0 && r@ == Seq::<u64>::empty(),
            old(self).pending() != 0 ==> final(self).entries() == old(self).entries().remove_keys(
                old(self).waiting().to_set(),
            ) && final(self).waiting() == Seq::<usize>::empty() && final(self).pending() == 0 && r@
                == released_ids(old(self).entries(), old(self).waiting()),
    {
        let mut released: Vec<u64> = Vec::new();
        if self.pending_release_count == 0 {
            return released;
        }
        let ghost entries0 = self.entries();
        let ghost waiting0 = self.waiting();
        loop
            invariant
                self.wf(),
                self.pending_release_count == old(self).pending_release_count,
                self.waiting().len() <= waiting0.len(),
                self.waiting() == waiting0.take(self.waiting().len() as int),
                self.entries() == entries0.remove_keys(waiting0.skip(self.waiting().len() as int).to_set()),
                forall|k: usize| #[trigger] entries0.dom().contains(k) ==> k < REGISTRATIONS_CAPACITY,
                released@ + released_ids(self.entries(), self.waiting()) == released_ids(entries0, waiting0),
            ensures
                self.wf(),
                self.waiting().len() == 0,
                self.entries() == entries0.remove_keys(waiting0.to_set()),
                released@ == released_ids(entries0, waiting0),
            decreases self.waiting().len(),
        {
            let ghost n = self.waiting().len() as int;
            let ghost entries_before = self.entries();
            let ghost waiting_before = self.waiting();
            let ghost released_before = released@;
            match self.waiting_release.pop() {
                Some(key) => {
                    if key < REGISTRATIONS_CAPACITY {
                        match self.tracking.get(key) {
                            Some(id) => {
                                released.push(id);
                            },
                            None => {},
                        }
                        self.tracking.remove(key);
                    }
                    proof {
                        assert(waiting_before.last() == key);
                        assert(waiting_before.drop_last() == self.waiting());
                        if entries_before.dom().contains(key) {
                            assert(released@ == released_before.push(entries_before[key]));
                            assert(released@ + released_ids(self.entries(), self.waiting()) =~= released_before + (
                            seq![entries_before[key]] + released_ids(self.entries(), self.waiting())));
                        } else {
                            assert(self.entries() =~= entries_before);
                            assert(released@ == released_before);
                        }
                    }
                    proof {
                        assert(waiting0[n - 1] == key);
                        assert(waiting0.skip(n - 1) =~= seq![key] + waiting0.skip(n));
                        assert(waiting0.skip(n - 1).to_set() =~= waiting0.skip(n).to_set().insert(key)) by {
                            assert forall|x: usize| #[trigger] waiting0.skip(n - 1).to_set().contains(x)
                                <==> waiting0.skip(n).to_set().insert(key).contains(x) by {
                                if waiting0.skip(n - 1).to_set().contains(x) {
                                    let j = choose|j: int| 0 <= j < waiting0.skip(n - 1).len()
                                        && #[trigger] waiting0.skip(n - 1)[j] == x;
                                    if j > 0 {
                                        assert(waiting0.skip(n)[j - 1] == x);
                                    }
                                }
                                if waiting0.skip(n).to_set().contains(x) {
                                    let j = choose|j: int| 0 <= j < waiting0.skip(n).len()
                                        && #[trigger] waiting0.skip(n)[j] == x;
                                    assert(waiting0.skip(n - 1)[j + 1] == x);
                                }
                                if x == key {
                                    assert(waiting0.skip(n - 1)[0] == x);
                                }
                            }
                        }
                        assert(self.entries() =~= entries0.remove_keys(
                            waiting0.skip(self.waiting().len() as int).to_set(),
                        ));
                    }
                },
                None => {
                    proof {
                        assert(waiting0.skip(0) =~= waiting0);
                        assert(released@ + Seq::<u64>::empty() =~= released@);
                    }
                    break ;
                },
            }
        }
        self.pending_release_count = 0;
        released
    }

    /// Releases the registration with key `key` at once.
    pub fn release_registration_info(&mut self, key: usize)
        requires
            old(self).wf(),
            key != REGISTRATIONS_CAPACITY,
        ensures
            final(self).wf(),
            final(self).entries() == old(self).entries().remove(key),
            final(self).waiting() == old(self).waiting(),
            final(self).pending() == old(self).pending(),
    {
        if key < REGISTRATIONS_CAPACITY {
            let ghost before = self.entries();
            self.tracking.remove(key);
            assert(self.waiting() == old(self).waiting());
            assert forall|k: usize| #[trigger] self.entries().dom().contains(k) implies k < REGISTRATIONS_CAPACITY by {
                assert(before.dom().contains(k));
            }
        } else {
            assert(self.entries().remove(key) =~= self.entries());
        }
    }
}

/// A registration put on the release list is no longer tracked after the
/// next cleanup, while every tracked registration not on the list keeps its
/// slot and identifier.
pub proof fn law_cleanup_releases_exactly_the_waiting(entries: Map<usize, u64>, waiting: Seq<usize>, key: usize)
    ensures
        !entries.remove_keys(waiting.push(key).to_set()).dom().contains(key),
        forall|k: usize|
            #![trigger entries.remove_keys(waiting.to_set()).dom().contains(k)]
            entries.dom().contains(k) && !waiting.contains(k) ==> entries.remove_keys(
                waiting.to_set(),
            ).dom().contains(k) && entries.remove_keys(waiting.to_set())[k] == entries[k],
{
    assert(waiting.push(key)[waiting.len() as int] == key);
    assert(waiting.push(key).to_set().contains(key));
}

} // verus!
