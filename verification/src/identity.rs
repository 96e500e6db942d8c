//! Identities and the derivation of an escrow record's identity.
//!
//! An identity is 32 bytes. The identity of an escrow record is derived
//! from the program that owns it, its maker and the maker's sequence
//! number, so that anyone who knows the three can find the record again.

use anchor_lang::prelude::Pubkey;
use vstd::bytes::spec_u64_to_le_bytes;
use vstd::bytes::u64_to_le_bytes;
use vstd::prelude::*;
use vstd::std_specs::cmp::PartialEqSpecImpl;

verus! {

/// A 32-byte identity: of a party, of a program, or of an escrow record.
#[derive(Clone, Copy, Debug)]
pub struct Identity {
    pub bytes: [u8; 32],
}

impl View for Identity {
    type V = Seq<u8>;

    open spec fn view(&self) -> Seq<u8> {
        self.bytes@
    }
}

impl PartialEq for Identity {
    fn eq(&self, other: &Identity) -> (r: bool) {
        let mut i: usize = 0;
        while i < 32
            invariant
                i <= 32,
                forall|j: int| 0 <= j < i ==> self.bytes[j] == other.bytes[j],
            decreases 32 - i,
        {
            if self.bytes[i] != other.bytes[i] {
                return false;
            }
            i += 1;
        }
        assert(self.bytes =~= other.bytes);
        true
    }
}

impl Eq for Identity {

}

impl PartialEqSpecImpl for Identity {
    open spec fn obeys_eq_spec() -> bool {
        true
    }

    open spec fn eq_spec(&self, other: &Identity) -> bool {
        *self == *other
    }
}

impl Identity {
    /// The identity that holds the given bytes.
    pub fn new(bytes: [u8; 32]) -> (id: Identity)
        ensures
            id.bytes == bytes,
    {
        Identity { bytes }
    }

    /// The identity whose 32 bytes are `bytes`.
    pub open spec fn of_bytes(bytes: Seq<u8>) -> Identity {
        choose|id: Identity| id@ == bytes
    }

    /// Two identities with the same bytes are the same identity.
    pub proof fn lemma_view_is_injective(a: Identity, b: Identity)
        ensures
            a@ == b@ <==> a == b,
    {
        if a@ == b@ {
            assert(a.bytes =~= b.bytes);
        }
    }

    /// `of_bytes` gives back the identity that the bytes were read from.
    pub proof fn lemma_of_bytes(id: Identity)
        ensures
            Identity::of_bytes(id@) == id,
    {
        Identity::lemma_view_is_injective(Identity::of_bytes(id@), id);
    }
}

/// The tag that sets the identities of escrow records apart from every
/// other identity derived for the same program: the ASCII bytes of
/// `escrow`.
pub open spec fn escrow_tag() -> Seq<u8> {
    seq![101u8, 115u8, 99u8, 114u8, 111u8, 119u8]
}

/// The seeds of an escrow record: the tag, the maker's 32 bytes, and the
/// sequence number as 8 little-endian bytes.
pub open spec fn escrow_seeds(maker: Identity, escrow_id: u64) -> Seq<Seq<u8>> {
    seq![escrow_tag(), maker@, spec_u64_to_le_bytes(escrow_id)]
}

/// The address and bump seed that `Pubkey::try_find_program_address`
/// returns for the given seeds and program, or `None` where it finds
/// none.
pub uninterp spec fn program_address(seeds: Seq<Seq<u8>>, program_id: Seq<u8>) -> Option<
    (Seq<u8>, u8),
>;

/// The identity and nonce of the escrow record that `maker` opens under
/// `escrow_id` in the program `program_id`, where one exists.
pub open spec fn derived_identity(program_id: Identity, maker: Identity, escrow_id: u64) -> Option<
    (Identity, u8),
> {
    match program_address(escrow_seeds(maker, escrow_id), program_id@) {
        Some((address, bump)) => Some((Identity::of_bytes(address), bump)),
        None => None,
    }
}

/// Calls `Pubkey::try_find_program_address` of solana-program with three
/// seeds. The outcome depends on the seeds and on the program alone; the
/// contract gives it the name `program_address` and claims nothing else
/// of it.
#[verifier::external_body]
fn find_address(tag: &[u8], owner: &Identity, sequence: &[u8], program_id: &Identity) -> (r:
    Option<(Identity, u8)>)
    ensures
        program_address(seq![tag@, owner@, sequence@], program_id@) == match r {
            Some((address, bump)) => Some((address@, bump)),
            None => None,
        },
{
    let program = Pubkey::new_from_array(program_id.bytes);
    match Pubkey::try_find_program_address(&[tag, &owner.bytes, sequence], &program) {
        Some((address, bump)) => Some((Identity { bytes: address.to_bytes() }, bump)),
        None => None,
    }
}

/// Derives the identity of the escrow record that `maker` opens under
/// `escrow_id`, and the nonce that was needed to find it.
///
/// The same inputs give the same result. `None` means that no nonce
/// yields an identity for these inputs.
pub fn derive_identity(program_id: &Identity, maker: &Identity, escrow_id: u64) -> (r: Option<
    (Identity, u8),
>)
    ensures
        r == derived_identity(*program_id, *maker, escrow_id),
{
    let tag: [u8; 6] = [101, 115, 99, 114, 111, 119];
    let sequence = u64_to_le_bytes(escrow_id);
    assert(tag@ =~= escrow_tag());
    let found = find_address(&tag, maker, sequence.as_slice(), program_id);
    proof {
        if let Some((address, _)) = found {
            Identity::lemma_of_bytes(address);
        }
    }
    found
}

} // verus!
