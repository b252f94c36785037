//! Opaque caller identities.
//!
//! Authentication lives with the host: by the time an operation runs, the
//! caller's identity has been verified externally. The core only ever
//! compares identities for equality, so an identity is a plain 32-byte
//! value.

use vstd::prelude::*;

verus! {

/// A 32-byte identity, as supplied by the external identity oracle.
#[derive(Clone, Copy, Debug)]
pub struct Identity(pub [u8; 32]);

impl PartialEq for Identity {
    fn eq(&self, other: &Identity) -> (r: bool) {
        let mut i: usize = 0;
        while i < 32
            invariant
                i <= 32,
                forall|j: int| 0 <= j < i ==> self.0@[j] == other.0@[j],
            decreases 32 - i,
        {
            if self.0[i] != other.0[i] {
                return false;
            }
            i = i + 1;
        }
        proof {
            assert(self.0 =~= other.0);
        }
        true
    }
}

impl Eq for Identity {}

impl vstd::std_specs::cmp::PartialEqSpecImpl for Identity {
    open spec fn obeys_eq_spec() -> bool {
        true
    }

    open spec fn eq_spec(&self, other: &Identity) -> bool {
        self.0 == other.0
    }
}

} // verus!
