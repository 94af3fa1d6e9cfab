//! Static metadata for the registers that can be virtualized.
//!
//! Each register kind carries three architecture-defined attributes: the
//! hardware slot holding the value hardware enforces (the physical slot), the
//! hardware slot the guest observes through the hardware's own shadowing
//! mechanism (the shadow slot), and the mask of bits whose enforced value
//! always tracks the guest's last write (the guest-owned mask). Adding a new
//! register kind means adding its attributes here and nowhere else.

use vstd::prelude::*;

verus! {

// CR0 bits.
pub const X64_CR0_PE: u64 = 0x0000_0001;
pub const X64_CR0_MP: u64 = 0x0000_0002;
pub const X64_CR0_EM: u64 = 0x0000_0004;
pub const X64_CR0_TS: u64 = 0x0000_0008;
pub const X64_CR0_ET: u64 = 0x0000_0010;
pub const X64_CR0_WP: u64 = 0x0001_0000;
pub const X64_CR0_AM: u64 = 0x0004_0000;
pub const X64_CR0_PG: u64 = 0x8000_0000;

// CR4 bits.
pub const X64_CR4_VME: u64 = 0x0000_0001;
pub const X64_CR4_PVI: u64 = 0x0000_0002;
pub const X64_CR4_TSD: u64 = 0x0000_0004;
pub const X64_CR4_DE: u64 = 0x0000_0008;
pub const X64_CR4_PSE: u64 = 0x0000_0010;
pub const X64_CR4_PAE: u64 = 0x0000_0020;
pub const X64_CR4_PGE: u64 = 0x0000_0080;
pub const X64_CR4_PCE: u64 = 0x0000_0100;
pub const X64_CR4_FXSR: u64 = 0x0000_0200;
pub const X64_CR4_XMMEXCPT: u64 = 0x0000_0400;
pub const X64_CR4_UMIP: u64 = 0x0000_0800;
pub const X64_CR4_LA57: u64 = 0x0000_1000;
pub const X64_CR4_RWFSGS: u64 = 0x0001_0000;
pub const X64_CR4_PCIDE: u64 = 0x0002_0000;
pub const X64_CR4_OSXSAVE: u64 = 0x0004_0000;
pub const X64_CR4_SMEP: u64 = 0x0010_0000;
pub const X64_CR4_SMAP: u64 = 0x0020_0000;
pub const X64_CR4_CET: u64 = 0x0080_0000;

// Hardware slot identifiers for the control-register fields. They come from
// an external hardware-definition catalog and are treated as opaque values.
pub const VMX_VMCS_GUEST_CR0: u32 = 0x6800;
pub const VMX_VMCS_GUEST_CR4: u32 = 0x6804;
pub const VMX_VMCS_CR0_READ_SHADOW: u32 = 0x6004;
pub const VMX_VMCS_CR4_READ_SHADOW: u32 = 0x6006;

/// An isolated execution context within one virtual processor. Each trust
/// level owns an independent copy of every virtualized register.
#[derive(Clone, Copy, Debug, PartialEq, Eq, Structural)]
pub enum GuestVtl {
    Vtl0,
    Vtl1,
}

/// Registers that can be virtual and shadowed.
#[derive(Clone, Copy, Debug, PartialEq, Eq, Structural)]
pub enum ShadowedRegister {
    Cr0,
    Cr4,
}

impl ShadowedRegister {
    /// Display name, for diagnostics.
    pub open spec fn spec_name(self) -> Seq<char> {
        match self {
            Self::Cr0 => "cr0"@,
            Self::Cr4 => "cr4"@,
        }
    }

    /// Hardware slot backing the bits hardware actually enforces.
    pub open spec fn spec_physical_field(self) -> u32 {
        match self {
            Self::Cr0 => VMX_VMCS_GUEST_CR0,
            Self::Cr4 => VMX_VMCS_GUEST_CR4,
        }
    }

    /// Hardware slot the guest sees when it reads the register through the
    /// hardware's shadowing mechanism.
    pub open spec fn spec_shadow_field(self) -> u32 {
        match self {
            Self::Cr0 => VMX_VMCS_CR0_READ_SHADOW,
            Self::Cr4 => VMX_VMCS_CR4_READ_SHADOW,
        }
    }

    /// Bits whose enforced hardware value always tracks the guest's last
    /// write to the physical register, independent of host mediation.
    pub open spec fn spec_guest_owned_mask(self) -> u64 {
        match self {
            Self::Cr0 => X64_CR0_ET | X64_CR0_MP | X64_CR0_EM | X64_CR0_TS | X64_CR0_WP
                | X64_CR0_AM | X64_CR0_PE | X64_CR0_PG,
            Self::Cr4 => X64_CR4_VME | X64_CR4_PVI | X64_CR4_TSD | X64_CR4_DE | X64_CR4_PSE
                | X64_CR4_PAE | X64_CR4_PGE | X64_CR4_PCE | X64_CR4_FXSR | X64_CR4_XMMEXCPT
                | X64_CR4_UMIP | X64_CR4_LA57 | X64_CR4_RWFSGS | X64_CR4_PCIDE
                | X64_CR4_OSXSAVE | X64_CR4_SMEP | X64_CR4_SMAP | X64_CR4_CET,
        }
    }

    pub fn name(&self) -> (r: &'static str)
        ensures
            r@ == self.spec_name(),
    {
        match self {
            Self::Cr0 => "cr0",
            Self::Cr4 => "cr4",
        }
    }

    pub fn physical_vmcs_field(&self) -> (r: u32)
        ensures
            r == self.spec_physical_field(),
    {
        match self {
            Self::Cr0 => VMX_VMCS_GUEST_CR0,
            Self::Cr4 => VMX_VMCS_GUEST_CR4,
        }
    }

    pub fn shadow_vmcs_field(&self) -> (r: u32)
        ensures
            r == self.spec_shadow_field(),
    {
        match self {
            Self::Cr0 => VMX_VMCS_CR0_READ_SHADOW,
            Self::Cr4 => VMX_VMCS_CR4_READ_SHADOW,
        }
    }

    pub fn guest_owned_mask(&self) -> (r: u64)
        ensures
            r == self.spec_guest_owned_mask(),
    {
        match self {
            Self::Cr0 => X64_CR0_ET | X64_CR0_MP | X64_CR0_EM | X64_CR0_TS | X64_CR0_WP
                | X64_CR0_AM | X64_CR0_PE | X64_CR0_PG,
            Self::Cr4 => X64_CR4_VME | X64_CR4_PVI | X64_CR4_TSD | X64_CR4_DE | X64_CR4_PSE
                | X64_CR4_PAE | X64_CR4_PGE | X64_CR4_PCE | X64_CR4_FXSR | X64_CR4_XMMEXCPT
                | X64_CR4_UMIP | X64_CR4_LA57 | X64_CR4_RWFSGS | X64_CR4_PCIDE
                | X64_CR4_OSXSAVE | X64_CR4_SMEP | X64_CR4_SMAP | X64_CR4_CET,
        }
    }

    /// The physical and shadow slots of a register kind never coincide, and
    /// slots of distinct register kinds never coincide either: one hardware
    /// write can affect at most one of the four slots.
    pub proof fn lemma_fields_distinct(self, other: Self)
        ensures
            self.spec_physical_field() != self.spec_shadow_field(),
            self != other ==> self.spec_physical_field() != other.spec_physical_field(),
            self != other ==> self.spec_shadow_field() != other.spec_shadow_field(),
            self.spec_physical_field() != other.spec_shadow_field(),
    {
    }
}

} // verus!
