//! An in-memory hardware-access double.
//!
//! The engine's only collaborator is the hardware-slot interface; under test
//! it is substituted by this plain in-memory map from (trust level, slot) to
//! value. Slots never written read as zero. Each slot also carries a count of
//! the write operations issued to it, so a test can observe which slots an
//! operation wrote — in particular that the hot path skips the physical slot.

use vstd::prelude::*;

use crate::catalog::GuestVtl;
use crate::virtual_register::sat_inc;
use crate::virtual_register::VmcsAccess;

verus! {

/// One slot of the in-memory model: its identity, its current value, and how
/// many write operations have been issued to it.
#[derive(Clone, Copy, Debug)]
pub struct VmcsSlot {
    pub vtl: GuestVtl,
    pub field: u32,
    pub value: u64,
    pub writes: u64,
}

/// The value of a slot in a slot list: the first matching entry's value, or
/// zero when no entry matches.
pub open spec fn slot_value_of(s: Seq<VmcsSlot>, vtl: GuestVtl, field: u32) -> u64
    decreases s.len(),
{
    if s.len() == 0 {
        0
    } else if s[0].vtl == vtl && s[0].field == field {
        s[0].value
    } else {
        slot_value_of(s.skip(1), vtl, field)
    }
}

/// The write count of a slot in a slot list: the first matching entry's
/// count, or zero when no entry matches.
pub open spec fn write_count_of(s: Seq<VmcsSlot>, vtl: GuestVtl, field: u32) -> u64
    decreases s.len(),
{
    if s.len() == 0 {
        0
    } else if s[0].vtl == vtl && s[0].field == field {
        s[0].writes
    } else {
        write_count_of(s.skip(1), vtl, field)
    }
}

/// Replacing the first entry of a key with another entry of the same key
/// changes that key's value and count to the new entry's, and no other key's.
proof fn lemma_update_first(s: Seq<VmcsSlot>, i: int, e: VmcsSlot)
    requires
        0 <= i < s.len(),
        s[i].vtl == e.vtl && s[i].field == e.field,
        forall|j: int| 0 <= j < i ==> !(s[j].vtl == e.vtl && s[j].field == e.field),
    ensures
        slot_value_of(s.update(i, e), e.vtl, e.field) == e.value,
        write_count_of(s.update(i, e), e.vtl, e.field) == e.writes,
        forall|v: GuestVtl, f: u32|
            !(v == e.vtl && f == e.field) ==> slot_value_of(s.update(i, e), v, f)
                == slot_value_of(s, v, f) && write_count_of(s.update(i, e), v, f)
                == write_count_of(s, v, f),
    decreases i,
{
    let t = s.update(i, e);
    if i == 0 {
        assert(t[0] == e);
        assert(t.skip(1) =~= s.skip(1));
        assert forall|v: GuestVtl, f: u32| !(v == e.vtl && f == e.field) implies slot_value_of(
            t,
            v,
            f,
        ) == slot_value_of(s, v, f) && write_count_of(t, v, f) == write_count_of(s, v, f) by {
            assert(slot_value_of(t, v, f) == slot_value_of(t.skip(1), v, f));
            assert(slot_value_of(s, v, f) == slot_value_of(s.skip(1), v, f));
            assert(write_count_of(t, v, f) == write_count_of(t.skip(1), v, f));
            assert(write_count_of(s, v, f) == write_count_of(s.skip(1), v, f));
        }
    } else {
        assert(t[0] == s[0]);
        assert(t.skip(1) =~= s.skip(1).update(i - 1, e));
        lemma_update_first(s.skip(1), i - 1, e);
        assert forall|v: GuestVtl, f: u32| !(v == e.vtl && f == e.field) implies slot_value_of(
            t,
            v,
            f,
        ) == slot_value_of(s, v, f) && write_count_of(t, v, f) == write_count_of(s, v, f) by {
            if s[0].vtl == v && s[0].field == f {
                assert(slot_value_of(t, v, f) == t[0].value);
                assert(slot_value_of(s, v, f) == s[0].value);
                assert(write_count_of(t, v, f) == t[0].writes);
                assert(write_count_of(s, v, f) == s[0].writes);
            } else {
                assert(slot_value_of(t, v, f) == slot_value_of(t.skip(1), v, f));
                assert(slot_value_of(s, v, f) == slot_value_of(s.skip(1), v, f));
                assert(write_count_of(t, v, f) == write_count_of(t.skip(1), v, f));
                assert(write_count_of(s, v, f) == write_count_of(s.skip(1), v, f));
            }
        }
    }
}

/// An in-memory map of hardware slots, substituting for the hypervisor
/// backend's privileged slot access under test.
pub struct InMemoryVmcs {
    slots: Vec<VmcsSlot>,
}

impl InMemoryVmcs {
    /// An empty model: every slot reads as zero and has seen no write.
    pub fn new() -> (r: Self)
        ensures
            forall|v: GuestVtl, f: u32| r.slot(v, f) == 0,
            forall|v: GuestVtl, f: u32| r.write_count(v, f) == 0,
    {
        InMemoryVmcs { slots: Vec::new() }
    }

    /// First entry matching the slot identity, together with what it means
    /// for the slot's value and count.
    fn find_slot(&self, vtl: GuestVtl, field: u32) -> (r: Option<usize>)
        ensures
            match r {
                Some(i) => {
                    &&& i < self.slots@.len()
                    &&& self.slots@[i as int].vtl == vtl && self.slots@[i as int].field == field
                    &&& forall|j: int|
                        0 <= j < i ==> !(self.slots@[j].vtl == vtl && self.slots@[j].field
                            == field)
                    &&& slot_value_of(self.slots@, vtl, field) == self.slots@[i as int].value
                    &&& write_count_of(self.slots@, vtl, field) == self.slots@[i as int].writes
                },
                None => {
                    &&& forall|j: int|
                        0 <= j < self.slots@.len() ==> !(self.slots@[j].vtl == vtl
                            && self.slots@[j].field == field)
                    &&& slot_value_of(self.slots@, vtl, field) == 0
                    &&& write_count_of(self.slots@, vtl, field) == 0
                },
            },
    {
        let n = self.slots.len();
        let mut i: usize = 0;
        proof {
            assert(self.slots@.skip(0) =~= self.slots@);
        }
        while i < n
            invariant
                n == self.slots@.len(),
                i <= n,
                forall|j: int|
                    0 <= j < i ==> !(self.slots@[j].vtl == vtl && self.slots@[j].field == field),
                slot_value_of(self.slots@, vtl, field) == slot_value_of(
                    self.slots@.skip(i as int),
                    vtl,
                    field,
                ),
                write_count_of(self.slots@, vtl, field) == write_count_of(
                    self.slots@.skip(i as int),
                    vtl,
                    field,
                ),
            decreases n - i,
        {
            let e = self.slots[i];
            proof {
                assert(self.slots@.skip(i as int)[0] == self.slots@[i as int]);
            }
            if e.vtl == vtl && e.field == field {
                return Some(i);
            }
            proof {
                assert(self.slots@.skip(i as int).skip(1) =~= self.slots@.skip(i as int + 1));
            }
            i = i + 1;
        }
        proof {
            assert(self.slots@.skip(n as int).len() == 0);
        }
        None
    }

    /// How many write operations have been issued to a slot.
    pub fn writes_issued(&self, vtl: GuestVtl, field: u32) -> (r: u64)
        ensures
            r == self.write_count(vtl, field),
    {
        match self.find_slot(vtl, field) {
            Some(i) => self.slots[i].writes,
            None => 0,
        }
    }
}

impl VmcsAccess for InMemoryVmcs {
    closed spec fn slot(&self, vtl: GuestVtl, field: u32) -> u64 {
        slot_value_of(self.slots@, vtl, field)
    }

    closed spec fn write_count(&self, vtl: GuestVtl, field: u32) -> u64 {
        write_count_of(self.slots@, vtl, field)
    }

    fn read_vmcs64(&self, vtl: GuestVtl, field: u32) -> (value: u64) {
        match self.find_slot(vtl, field) {
            Some(i) => self.slots[i].value,
            None => 0,
        }
    }

    fn write_vmcs64(&mut self, vtl: GuestVtl, field: u32, mask: u64, value: u64) {
        match self.find_slot(vtl, field) {
            Some(i) => {
                let e = self.slots[i];
                let updated = VmcsSlot {
                    vtl: e.vtl,
                    field: e.field,
                    value: (e.value & !mask) | (value & mask),
                    writes: if e.writes < u64::MAX {
                        e.writes + 1
                    } else {
                        e.writes
                    },
                };
                self.slots.set(i, updated);
                proof {
                    lemma_update_first(old(self).slots@, i as int, updated);
                }
            },
            None => {
                let e = VmcsSlot { vtl, field, value: value & mask, writes: 1 };
                self.slots.insert(0, e);
                proof {
                    assert((0u64 & !mask) | (value & mask) == value & mask) by (bit_vector);
                    assert(sat_inc(0) == 1);
                    assert(self.slots@[0] == e);
                    assert(self.slots@.skip(1) =~= old(self).slots@);
                }
            },
        }
    }
}

} // verus!
