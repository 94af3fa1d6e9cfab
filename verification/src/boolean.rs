//! An ABI-compatible UEFI boolean.
//!
//! This is similar to a `bool`, but allows values other than 0 or 1 to be
//! stored without it being undefined behavior. Any non-zero value is treated
//! as logically `true`.

use vstd::prelude::*;

verus! {

#[derive(Clone, Copy, Debug, Default, PartialEq, Eq, Hash, Structural)]
pub struct Boolean(pub u8);

impl Boolean {
    /// The logical reading of the stored byte: any non-zero bit pattern
    /// counts as `true`, as in C.
    pub open spec fn spec_truth(self) -> bool {
        self.0 != 0
    }
}

impl From<bool> for Boolean {
    fn from(value: bool) -> (r: Boolean) {
        match value {
            true => Boolean(1),
            false => Boolean(0),
        }
    }
}

impl vstd::std_specs::convert::FromSpecImpl<bool> for Boolean {
    open spec fn obeys_from_spec() -> bool {
        true
    }

    open spec fn from_spec(value: bool) -> Boolean {
        if value {
            Boolean(1)
        } else {
            Boolean(0)
        }
    }
}

impl From<Boolean> for bool {
    fn from(value: Boolean) -> (r: bool) {
        // Handled as in C: any bit pattern other than zero equals true.
        match value.0 {
            0 => false,
            _ => true,
        }
    }
}

impl vstd::std_specs::convert::FromSpecImpl<Boolean> for bool {
    open spec fn obeys_from_spec() -> bool {
        true
    }

    open spec fn from_spec(value: Boolean) -> bool {
        value.spec_truth()
    }
}

} // verus!
