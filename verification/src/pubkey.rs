//! Public keys as plain 32-byte values.
use vstd::prelude::*;

verus! {

/// A 32-byte public key.
#[derive(Clone, Copy, Debug, Eq)]
pub struct Pubkey(pub [u8; 32]);

impl View for Pubkey {
    type V = Seq<u8>;

    open spec fn view(&self) -> Seq<u8> {
        self.0@
    }
}

impl PartialEq for Pubkey {
    fn eq(&self, other: &Self) -> (same: bool) {
        let mut i: usize = 0;
        while i < 32
            invariant
                0 <= i <= 32,
                forall|j: int| 0 <= j < i ==> self.0[j] == other.0[j],
            decreases 32 - i,
        {
            if self.0[i] != other.0[i] {
                return false;
            }
            i += 1;
        }
        proof {
            broadcast use vstd::array::axiom_array_ext_equal;
            assert(self.0 =~= other.0);
        }
        true
    }
}

impl vstd::std_specs::cmp::PartialEqSpecImpl for Pubkey {
    open spec fn obeys_eq_spec() -> bool {
        true
    }

    open spec fn eq_spec(&self, other: &Self) -> bool {
        *self == *other
    }
}

/// Two keys are equal exactly when their bytes are.
pub broadcast proof fn lemma_pubkey_view_injective(a: Pubkey, b: Pubkey)
    ensures
        (#[trigger] a@ == #[trigger] b@) <==> a == b,
{
    broadcast use vstd::array::axiom_array_ext_equal;

    if a@ == b@ {
        assert(a.0 =~= b.0);
    }
}

impl Pubkey {
    /// A key made of 32 bytes that all equal one.
    pub fn new_unique() -> (key: Self)
        ensures
            key@ == Seq::new(32, |_i: int| 1u8),
    {
        Pubkey([1u8; 32])
    }
}

} // verus!
