//! Account addresses and program-derived addresses.
use vstd::prelude::*;

verus! {

broadcast use vstd::array::group_array_axioms;

/// A 32-byte account address.
#[derive(Clone, Copy, Debug, PartialEq, Eq)]
pub struct Pubkey {
    pub bytes: [u8; 32],
}

impl View for Pubkey {
    type V = Seq<u8>;

    open spec fn view(&self) -> Seq<u8> {
        self.bytes@
    }
}

impl Pubkey {
    /// Address equality, byte for byte.
    pub fn equals(&self, other: &Pubkey) -> (r: bool)
        ensures
            r == (*self == *other),
    {
        let mut i: usize = 0;
        while i < 32
            invariant
                0 <= i <= 32,
                forall|j: int| 0 <= j < i ==> self.bytes@[j] == other.bytes@[j],
            decreases 32 - i,
        {
            if self.bytes[i] != other.bytes[i] {
                return false;
            }
            i = i + 1;
        }
        assert(self.bytes =~= other.bytes);
        true
    }

    /// The address as a seed: its 32 bytes in order.
    pub fn to_seed(&self) -> (r: Vec<u8>)
        ensures
            r@ == self.bytes@,
    {
        let mut v: Vec<u8> = Vec::new();
        let mut i: usize = 0;
        while i < 32
            invariant
                0 <= i <= 32,
                v@ =~= self.bytes@.take(i as int),
            decreases 32 - i,
        {
            v.push(self.bytes[i]);
            i = i + 1;
        }
        v
    }
}

/// The program-derived address and canonical bump that the runtime's address
/// derivation gives for these seeds under this program id, or `None` where it
/// gives none (too many or too long seeds, or no bump off the curve).
pub uninterp spec fn program_address(seeds: Seq<Seq<u8>>, program_id: Seq<u8>) -> Option<(Seq<u8>, u8)>;

/// Calls `Pubkey::try_find_program_address` of the Solana SDK (re-exported by
/// anchor-lang). The contract claims only that the result is the one that
/// `program_address` names for the seeds and the program id: the derivation
/// hashes with SHA-256 and tests points on the ed25519 curve, none of which is
/// stated here.
#[verifier::external_body]
pub(crate) fn try_find_program_address(seeds: &Vec<Vec<u8>>, program_id: &Pubkey) -> (r: Option<(Pubkey, u8)>)
    ensures
        r is None <==> program_address(seeds.deep_view(), program_id@) is None,
        r matches Some(found) ==> program_address(seeds.deep_view(), program_id@) == Some((found.0@, found.1)),
{
    let refs: Vec<&[u8]> = seeds.iter().map(|seed| seed.as_slice()).collect();
    let id = anchor_lang::prelude::Pubkey::new_from_array(program_id.bytes);
    anchor_lang::prelude::Pubkey::try_find_program_address(&refs, &id)
        .map(|(key, bump)| (Pubkey { bytes: key.to_bytes() }, bump))
}

/// `key` is the program-derived address of `seeds` under `program_id`.
pub open spec fn is_program_address(key: Pubkey, seeds: Seq<Seq<u8>>, program_id: Pubkey) -> bool {
    program_address(seeds, program_id@) matches Some(found) && found.0 == key@
}

/// The canonical bump of `seeds` under `program_id`, where there is one.
pub open spec fn canonical_bump(seeds: Seq<Seq<u8>>, program_id: Pubkey) -> u8 {
    program_address(seeds, program_id@)->Some_0.1
}

/// The seeds-and-bump account constraint: derives the address of `seeds` and
/// returns the canonical bump when it is `key`.
pub fn check_program_address(key: &Pubkey, seeds: &Vec<Vec<u8>>, program_id: &Pubkey) -> (r: Option<u8>)
    ensures
        r is Some <==> is_program_address(*key, seeds.deep_view(), *program_id),
        r matches Some(bump) ==> bump == canonical_bump(seeds.deep_view(), *program_id),
{
    match try_find_program_address(seeds, program_id) {
        Some(found) => {
            if found.0.equals(key) {
                Some(found.1)
            } else {
                assert(found.0@ != key@) by {
                    if found.0@ == key@ {
                        assert(found.0.bytes =~= key.bytes);
                    }
                }
                None
            }
        },
        None => None,
    }
}

/// The seed bytes `b"escrow"`.
pub open spec fn escrow_seed() -> Seq<u8> {
    seq![101u8, 115u8, 99u8, 114u8, 111u8, 119u8]
}

/// The seed bytes `b"vault"`.
pub open spec fn vault_seed() -> Seq<u8> {
    seq![118u8, 97u8, 117u8, 108u8, 116u8]
}

/// The seed bytes `b"user"`.
pub open spec fn user_seed() -> Seq<u8> {
    seq![117u8, 115u8, 101u8, 114u8]
}

/// Seeds `[prefix]`.
pub(crate) fn seeds_one(prefix: Vec<u8>) -> (r: Vec<Vec<u8>>)
    ensures
        r.deep_view() == seq![prefix@],
{
    let mut r: Vec<Vec<u8>> = Vec::new();
    let ghost p = prefix@;
    r.push(prefix);
    assert(r@[0].deep_view() =~= p);
    assert(r.deep_view() =~= seq![p]);
    r
}

/// Seeds `[prefix, key]`.
pub(crate) fn seeds_with_key(prefix: Vec<u8>, key: &Pubkey) -> (r: Vec<Vec<u8>>)
    ensures
        r.deep_view() == seq![prefix@, key@],
{
    let mut r: Vec<Vec<u8>> = Vec::new();
    let ghost p = prefix@;
    r.push(prefix);
    r.push(key.to_seed());
    assert(r@[0].deep_view() =~= p);
    assert(r@[1].deep_view() =~= key@);
    assert(r.deep_view() =~= seq![p, key@]);
    r
}

/// The bytes of `escrow_seed`.
pub(crate) fn escrow_seed_bytes() -> (r: Vec<u8>)
    ensures
        r@ == escrow_seed(),
{
    let r: Vec<u8> = vec![101u8, 115u8, 99u8, 114u8, 111u8, 119u8];
    assert(r@ =~= escrow_seed());
    r
}

/// The bytes of `vault_seed`.
pub(crate) fn vault_seed_bytes() -> (r: Vec<u8>)
    ensures
        r@ == vault_seed(),
{
    let r: Vec<u8> = vec![118u8, 97u8, 117u8, 108u8, 116u8];
    assert(r@ =~= vault_seed());
    r
}

/// The bytes of `user_seed`.
pub(crate) fn user_seed_bytes() -> (r: Vec<u8>)
    ensures
        r@ == user_seed(),
{
    let r: Vec<u8> = vec![117u8, 115u8, 101u8, 114u8];
    assert(r@ =~= user_seed());
    r
}

} // verus!
