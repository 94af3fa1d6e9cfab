//! The shadow-register engine.
//!
//! A virtualized control register splits its bits between two owners. Bits in
//! the register kind's guest-owned mask are enforced by hardware and track the
//! guest's last write to the physical slot; they may change under direct guest
//! execution without this component's involvement. All other bits are
//! host-owned: their authoritative value is the shadow value recorded by the
//! last successful [`VirtualRegister::write`], and hardware is never trusted
//! for them on a read.

use vstd::prelude::*;

use crate::catalog::GuestVtl;
use crate::catalog::ShadowedRegister;

verus! {

/// The legality mask that a write is checked against: the configured mask, or
/// every bit when no mask is configured.
pub open spec fn allowed_mask(allowed_bits: Option<u64>) -> u64 {
    match allowed_bits {
        Some(m) => m,
        None => u64::MAX,
    }
}

/// A value is legal when it sets no bit outside the legality mask.
pub open spec fn is_allowed(value: u64, allowed_bits: Option<u64>) -> bool {
    value & !allowed_mask(allowed_bits) == 0
}

/// The physical slot needs a hardware write exactly when the new logical
/// value disagrees with hardware on at least one guest-owned bit.
pub open spec fn needs_hardware_sync(physical: u64, value: u64, guest_mask: u64) -> bool {
    (physical ^ value) & guest_mask != 0
}

/// The physical slot's value after a successful write: its guest-owned bits
/// are brought to the new value's, and it is left untouched when they already
/// agree.
pub open spec fn synced_physical(physical: u64, value: u64, guest_mask: u64) -> u64 {
    if needs_hardware_sync(physical, value, guest_mask) {
        (physical & !guest_mask) | (value & guest_mask)
    } else {
        physical
    }
}

/// What a read observes: host-owned bits from the shadow value, guest-owned
/// bits live from the physical slot.
pub open spec fn merged_read(shadow: u64, physical: u64, guest_mask: u64) -> u64 {
    (shadow & !guest_mask) | (physical & guest_mask)
}

/// The register state after a successful write of `value`: only the shadow
/// value changes.
pub open spec fn after_write(reg: VirtualRegister, value: u64) -> VirtualRegister {
    VirtualRegister { shadow_value: value, ..reg }
}

/// A write-operation counter one higher, saturating at the counter's limit.
pub open spec fn sat_inc(count: u64) -> u64 {
    if count < u64::MAX {
        (count + 1) as u64
    } else {
        count
    }
}

/// Synchronous access to hardware slots, scoped to a trust level and a named
/// slot. This is the only point where the engine touches privileged hardware
/// state; the surrounding hypervisor backend implements it, and an in-memory
/// map substitutes for it under test.
///
/// Besides each slot's value, the model exposes how many write operations
/// have been issued to each slot, so that callers can state which slots an
/// operation writes — and, on the hot path, which it avoids writing.
pub trait VmcsAccess: Sized {
    /// The current value of a slot.
    spec fn slot(&self, vtl: GuestVtl, field: u32) -> u64;

    /// How many write operations have been issued to a slot (saturating).
    spec fn write_count(&self, vtl: GuestVtl, field: u32) -> u64;

    /// Read the current value of one slot.
    fn read_vmcs64(&self, vtl: GuestVtl, field: u32) -> (value: u64)
        ensures
            value == self.slot(vtl, field),
    ;

    /// Write one slot: only the bits set in `mask` change, so a mask of all
    /// ones is a full overwrite. No other slot is affected.
    fn write_vmcs64(&mut self, vtl: GuestVtl, field: u32, mask: u64, value: u64)
        ensures
            final(self).slot(vtl, field) == (old(self).slot(vtl, field) & !mask) | (value
                & mask),
            forall|v: GuestVtl, f: u32|
                !(v == vtl && f == field) ==> final(self).slot(v, f) == old(self).slot(v, f),
            final(self).write_count(vtl, field) == sat_inc(old(self).write_count(vtl, field)),
            forall|v: GuestVtl, f: u32|
                !(v == vtl && f == field) ==> final(self).write_count(v, f) == old(
                    self,
                ).write_count(v, f),
    ;
}

/// A virtual register that is shadowed by the virtualization stack.
///
/// Some bits are owned by the guest while others are owned by the
/// virtualization stack, as the hardware extension requires.
pub struct VirtualRegister {
    /// The register being shadowed.
    pub register: ShadowedRegister,
    /// The trust level this register is shadowed for.
    pub vtl: GuestVtl,
    /// The value the guest sees; authoritative for all host-owned bits.
    pub shadow_value: u64,
    /// Additional constraints on bits: a write carrying any bit outside this
    /// mask is rejected wholesale.
    pub allowed_bits: Option<u64>,
}

#[derive(Debug)]
pub enum VirtualRegisterError {
    /// The attempted value and the display name of the register that
    /// rejected it.
    InvalidValue(u64, &'static str),
}

impl VirtualRegister {
    /// Pure value construction; the caller is responsible for a legal
    /// initial value.
    pub fn new(
        reg: ShadowedRegister,
        vtl: GuestVtl,
        initial_value: u64,
        allowed_bits: Option<u64>,
    ) -> (r: Self)
        ensures
            r == (VirtualRegister {
                register: reg,
                vtl,
                shadow_value: initial_value,
                allowed_bits,
            }),
    {
        Self { register: reg, vtl, shadow_value: initial_value, allowed_bits }
    }

    /// Write a new value to the virtual register. This updates host-owned
    /// bits in the shadowed value, and updates guest-owned bits in the
    /// physical register.
    ///
    /// An illegal value is rejected wholesale: no state, in this component or
    /// in hardware, changes. A legal value always reaches the shadow slot;
    /// the physical slot is written only when the value disagrees with
    /// hardware on a guest-owned bit, so an agreeing write costs no
    /// physical-slot access on the hot path.
    pub fn write<H: VmcsAccess>(&mut self, value: u64, hw: &mut H) -> (result: Result<
        (),
        VirtualRegisterError,
    >)
        ensures
            result is Ok <==> is_allowed(value, old(self).allowed_bits),
            result matches Err(VirtualRegisterError::InvalidValue(v, n)) ==> v == value && n@
                == old(self).register.spec_name(),
            result is Err ==> *final(self) == *old(self) && (forall|v: GuestVtl, f: u32|
                final(hw).slot(v, f) == old(hw).slot(v, f)) && (forall|v: GuestVtl, f: u32|
                final(hw).write_count(v, f) == old(hw).write_count(v, f)),
            result is Ok ==> ({
                let vtl = old(self).vtl;
                let gom = old(self).register.spec_guest_owned_mask();
                let pf = old(self).register.spec_physical_field();
                let sf = old(self).register.spec_shadow_field();
                let old_physical = old(hw).slot(vtl, pf);
                &&& *final(self) == after_write(*old(self), value)
                &&& final(hw).slot(vtl, pf) == synced_physical(old_physical, value, gom)
                &&& final(hw).slot(vtl, sf) == value
                &&& forall|v: GuestVtl, f: u32|
                    !(v == vtl && (f == pf || f == sf)) ==> final(hw).slot(v, f) == old(hw).slot(
                        v,
                        f,
                    )
                &&& final(hw).write_count(vtl, sf) == sat_inc(old(hw).write_count(vtl, sf))
                &&& final(hw).write_count(vtl, pf) == (if needs_hardware_sync(
                    old_physical,
                    value,
                    gom,
                ) {
                    sat_inc(old(hw).write_count(vtl, pf))
                } else {
                    old(hw).write_count(vtl, pf)
                })
                &&& forall|v: GuestVtl, f: u32|
                    !(v == vtl && (f == pf || f == sf)) ==> final(hw).write_count(v, f) == old(
                        hw,
                    ).write_count(v, f)
            }),
    {
        let allowed = match self.allowed_bits {
            Some(m) => m,
            None => u64::MAX,
        };
        if value & !allowed != 0 {
            return Err(VirtualRegisterError::InvalidValue(value, self.register.name()));
        }

        let vtl = self.vtl;
        let physical_field = self.register.physical_vmcs_field();
        let shadow_field = self.register.shadow_vmcs_field();
        proof {
            self.register.lemma_fields_distinct(self.register);
        }

        // If guest-owned bits of the physical register have changed, update
        // the guest-owned bits of the physical field.
        let old_physical_reg = hw.read_vmcs64(vtl, physical_field);
        let guest_owned_mask = self.register.guest_owned_mask();
        if (old_physical_reg ^ value) & guest_owned_mask != 0 {
            let new_physical_reg = (old_physical_reg & !guest_owned_mask) | (value
                & guest_owned_mask);
            hw.write_vmcs64(vtl, physical_field, !0u64, new_physical_reg);
            proof {
                assert((old_physical_reg & !(!0u64)) | (new_physical_reg & !0u64)
                    == new_physical_reg) by (bit_vector);
            }
        }

        self.shadow_value = value;
        proof {
            let shadow_before = hw.slot(vtl, shadow_field);
            assert((shadow_before & !(!0u64)) | (value & !0u64) == value) by (bit_vector);
        }
        hw.write_vmcs64(vtl, shadow_field, !0u64, value);
        Ok(())
    }

    /// Read the register's current logical value: host-owned bits from the
    /// shadow (the last validated write), guest-owned bits live from the
    /// physical slot, reflecting any direct guest-side mutation.
    pub fn read<H: VmcsAccess>(&self, hw: &H) -> (value: u64)
        ensures
            value == merged_read(
                self.shadow_value,
                hw.slot(self.vtl, self.register.spec_physical_field()),
                self.register.spec_guest_owned_mask(),
            ),
    {
        let physical_reg = hw.read_vmcs64(self.vtl, self.register.physical_vmcs_field());

        // Get the bits owned by the host from the shadow and the bits owned
        // by the guest from the physical value.
        let guest_owned_mask = self.register.guest_owned_mask();
        (self.shadow_value & !guest_owned_mask) | (physical_reg & guest_owned_mask)
    }
}

/// Round trip: for every legal value, a successful write followed by a read
/// with no intervening hardware mutation observes exactly the written value.
/// `synced_physical` is the physical slot's value established by the write,
/// and `merged_read` is what `read` then returns.
pub proof fn lemma_write_read_round_trip(reg: VirtualRegister, value: u64, physical: u64)
    requires
        is_allowed(value, reg.allowed_bits),
    ensures
        merged_read(
            after_write(reg, value).shadow_value,
            synced_physical(physical, value, reg.register.spec_guest_owned_mask()),
            reg.register.spec_guest_owned_mask(),
        ) == value,
{
    let gom = reg.register.spec_guest_owned_mask();
    assert(merged_read(value, synced_physical(physical, value, gom), gom) == value)
        by (bit_vector);
}

/// Idempotence: writing the same legal value twice in succession is
/// equivalent, in observable state, to writing it once. After the first
/// write the value agrees with hardware on every guest-owned bit, so the
/// second write is still legal, leaves the register and the physical slot as
/// they were, and issues no physical-slot hardware write.
pub proof fn lemma_write_idempotent(reg: VirtualRegister, value: u64, physical: u64)
    requires
        is_allowed(value, reg.allowed_bits),
    ensures
        ({
            let gom = reg.register.spec_guest_owned_mask();
            let reg1 = after_write(reg, value);
            let physical1 = synced_physical(physical, value, gom);
            &&& is_allowed(value, reg1.allowed_bits)
            &&& after_write(reg1, value) == reg1
            &&& !needs_hardware_sync(physical1, value, gom)
            &&& synced_physical(physical1, value, gom) == physical1
        }),
{
    let gom = reg.register.spec_guest_owned_mask();
    assert(!needs_hardware_sync(synced_physical(physical, value, gom), value, gom))
        by (bit_vector);
}

/// Ownership partition: if hardware mutates only guest-owned bits of the
/// physical slot between a successful write and a read — `mutated` agrees
/// with the written physical value on every host-owned bit — then the read
/// still observes the written value's host-owned bits, while its guest-owned
/// bits reflect the hardware mutation, not the stale written value.
pub proof fn lemma_ownership_partition(
    reg: VirtualRegister,
    value: u64,
    physical: u64,
    mutated: u64,
)
    requires
        is_allowed(value, reg.allowed_bits),
        mutated & !reg.register.spec_guest_owned_mask() == synced_physical(
            physical,
            value,
            reg.register.spec_guest_owned_mask(),
        ) & !reg.register.spec_guest_owned_mask(),
    ensures
        ({
            let gom = reg.register.spec_guest_owned_mask();
            let observed = merged_read(after_write(reg, value).shadow_value, mutated, gom);
            &&& observed & !gom == value & !gom
            &&& observed & gom == mutated & gom
        }),
{
    let gom = reg.register.spec_guest_owned_mask();
    assert(merged_read(value, mutated, gom) & !gom == value & !gom) by (bit_vector);
    assert(merged_read(value, mutated, gom) & gom == mutated & gom) by (bit_vector);
}

} // verus!
