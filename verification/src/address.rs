use vstd::prelude::*;

verus! {

/// A 32-byte identity on the ledger: a wallet, an asset, a marketplace or a
/// derived authority.
#[derive(Clone, Copy, Debug)]
pub struct Address {
    pub bytes: [u8; 32],
}

impl View for Address {
    type V = Seq<u8>;

    open spec fn view(&self) -> Seq<u8> {
        self.bytes@
    }
}

impl Address {
    /// The address made of the given bytes.
    pub fn new(bytes: [u8; 32]) -> (r: Address)
        ensures
            r.bytes == bytes,
    {
        Address { bytes }
    }

    /// Whether two addresses are the same identity.
    pub fn same(&self, other: &Address) -> (r: bool)
        ensures
            r == (*self == *other),
    {
        let mut i: usize = 0;
        while i < 32
            invariant
                i <= 32,
                forall|j: int| 0 <= j < i ==> self.bytes[j] == other.bytes[j],
            decreases 32 - i,
        {
            if self.bytes[i] != other.bytes[i] {
                return false;
            }
            i += 1;
        }
        proof {
            assert(self.bytes =~= other.bytes);
        }
        true
    }
}

/// Two addresses with the same bytes are the same address.
pub proof fn lemma_address_ext(a: Address, b: Address)
    requires
        a@ == b@,
    ensures
        a == b,
{
    assert(forall|i: int| 0 <= i < 32 ==> a.bytes[i] == a@[i]);
    assert(forall|i: int| 0 <= i < 32 ==> b.bytes[i] == b@[i]);
    assert(a.bytes =~= b.bytes);
}

} // verus!
