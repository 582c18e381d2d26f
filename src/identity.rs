use vstd::prelude::*;

verus! {

/// An authenticated participant, held as the 32 bytes of its public key.
/// The library only ever compares identities for equality.
#[derive(Clone, Copy, Debug)]
pub struct Identity {
    pub key: [u8; 32],
}

impl View for Identity {
    type V = Seq<u8>;

    open spec fn view(&self) -> Seq<u8> {
        self.key@
    }
}

impl Identity {
    /// Wraps the raw bytes of a public key.
    pub fn from_bytes(key: [u8; 32]) -> (r: Identity)
        ensures
            r.key == key,
    {
        Identity { key }
    }

    /// The all-zero key, which no signer can hold.
    pub fn zero() -> (r: Identity)
        ensures
            forall|i: int| 0 <= i < 32 ==> #[trigger] r@[i] == 0u8,
    {
        Identity { key: [0u8; 32] }
    }

    /// Byte-wise comparison of two keys.
    pub fn same_as(&self, other: &Identity) -> (r: bool)
        ensures
            r == (self@ == other@),
    {
        let mut i: usize = 0;
        while i < 32
            invariant
                0 <= i <= 32,
                self@.len() == 32,
                other@.len() == 32,
                forall|j: int| 0 <= j < i ==> self@[j] == other@[j],
            decreases 32 - i,
        {
            if self.key[i] != other.key[i] {
                return false;
            }
            i = i + 1;
        }
        assert(self@ =~= other@);
        true
    }
}

impl PartialEq for Identity {
    fn eq(&self, other: &Identity) -> (r: bool) {
        self.same_as(other)
    }
}

impl vstd::std_specs::cmp::PartialEqSpecImpl for Identity {
    open spec fn obeys_eq_spec() -> bool {
        true
    }

    open spec fn eq_spec(&self, other: &Identity) -> bool {
        self@ == other@
    }
}

impl Eq for Identity {
}

} // verus!
