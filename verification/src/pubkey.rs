//! Account identities.
//!
//! An identity is 32 bytes. The split logic never looks inside one: it only
//! compares identities, and keeps one of them apart, the system program's.

use vstd::prelude::*;
use vstd::std_specs::cmp::PartialEqSpecImpl;

verus! {

/// A 32-byte account identity.
#[derive(Clone, Copy, Debug)]
pub struct Pubkey {
    pub bytes: [u8; 32],
}

impl View for Pubkey {
    type V = Seq<u8>;

    open spec fn view(&self) -> Seq<u8> {
        self.bytes@
    }
}

/// The bytes of the system program's identity.
pub open spec fn system_program_bytes() -> Seq<u8> {
    Seq::new(32, |i: int| 0u8)
}

/// Two identities with the same bytes are the same identity.
pub proof fn lemma_pubkey_view_injective(a: Pubkey, b: Pubkey)
    ensures
        a@.len() == 32,
        (a@ == b@) <==> (a == b),
{
    if a@ == b@ {
        assert forall|i: int| 0 <= i < 32 implies a.bytes[i] == b.bytes[i] by {
            assert(a@[i] == b@[i]);
        }
        assert(a.bytes =~= b.bytes);
    }
}

impl Pubkey {
    /// Whether this is the system program's identity, which no recipient may be.
    pub open spec fn is_system_program(&self) -> bool {
        self@ == system_program_bytes()
    }

    /// The identity with the given bytes.
    pub fn new_from_array(bytes: [u8; 32]) -> (r: Pubkey)
        ensures
            r.bytes == bytes,
            r@ == bytes@,
    {
        Pubkey { bytes }
    }

    /// The bytes of this identity.
    pub fn to_bytes(&self) -> (r: [u8; 32])
        ensures
            r == self.bytes,
            r@ == self@,
    {
        self.bytes
    }

    /// The system program's identity.
    pub fn system_program() -> (r: Pubkey)
        ensures
            r.is_system_program(),
    {
        let r = Pubkey { bytes: system_program_id_bytes() };
        assert(r@ =~= system_program_bytes());
        r
    }
}

impl PartialEq for Pubkey {
    fn eq(&self, other: &Self) -> (r: bool) {
        let mut i: usize = 0;
        while i < 32
            invariant
                i <= 32,
                forall|j: int| 0 <= j < i ==> self.bytes[j] == other.bytes[j],
            decreases 32 - i,
        {
            if self.bytes[i] != other.bytes[i] {
                return false;
            }
            i += 1;
        }
        assert(self.bytes =~= other.bytes);
        true
    }
}

impl Eq for Pubkey {

}

impl PartialEqSpecImpl for Pubkey {
    open spec fn obeys_eq_spec() -> bool {
        true
    }

    open spec fn eq_spec(&self, other: &Self) -> bool {
        *self == *other
    }
}

/// The bytes of `anchor_lang::system_program::ID`, the address that
/// `anchor_lang` declares for the system program. Trusted: that address,
/// written `11111111111111111111111111111111` in base 58, is 32 zero bytes.
#[verifier::external_body]
fn system_program_id_bytes() -> (r: [u8; 32])
    ensures
        forall|i: int| 0 <= i < 32 ==> r[i] == 0u8,
{
    anchor_lang::system_program::ID.to_bytes()
}

} // verus!
