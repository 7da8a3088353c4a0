//! The marketplace's custodian: an address derived from a fixed seed and the
//! program's own identity, which no private key controls.
use anchor_lang::solana_program::pubkey::Pubkey;
use vstd::prelude::*;

verus! {

/// Address derived by the ledger from a list of seeds and a program identity,
/// or `None` where the derivation lands on the curve (no valid address).
pub uninterp spec fn program_address_of(seeds: Seq<Seq<u8>>, program: Seq<u8>) -> Option<Seq<u8>>;

/// The bytes of the seed that names the custodian: `b"authority"`.
pub open spec fn authority_seed() -> Seq<u8> {
    seq![97u8, 117u8, 116u8, 104u8, 111u8, 114u8, 105u8, 116u8, 121u8]
}

/// The address that `seed` followed by the one-byte `bump` derives under `program`.
pub open spec fn address_with_bump(seed: Seq<u8>, bump: u8, program: Seq<u8>) -> Option<Seq<u8>> {
    program_address_of(Seq::empty().push(seed).push(Seq::empty().push(bump)), program)
}

/// The custodian address that `bump` derives for `program`, if any.
pub open spec fn authority_for_bump(program: Seq<u8>, bump: u8) -> Option<Seq<u8>> {
    address_with_bump(authority_seed(), bump, program)
}

/// `bump` reproduces `authority` as the custodian of `program`.
pub open spec fn bump_signs_for(program: Seq<u8>, authority: Seq<u8>, bump: u8) -> bool {
    authority_for_bump(program, bump) == Some(authority)
}

/// Relies on `Pubkey::create_program_address`: with two seeds of at most 32
/// bytes it returns the derived address, or an error where the hash lies on
/// the curve; the address depends on the seeds and program alone.
#[verifier::external_body]
fn create_program_address(seed: &[u8], bump: u8, program: &[u8; 32]) -> (r: Option<[u8; 32]>)
    requires
        seed@.len() <= 32,
    ensures
        match r {
            Some(a) => program_address_of(Seq::empty().push(seed@).push(Seq::empty().push(bump)), program@) == Some(a@),
            None => program_address_of(Seq::empty().push(seed@).push(Seq::empty().push(bump)), program@) is None,
        },
{
    let program_id = Pubkey::new_from_array(*program);
    Pubkey::create_program_address(&[seed, &[bump]], &program_id).ok().map(|k| k.to_bytes())
}

/// Relies on `Pubkey::try_find_program_address`: it tries the bumps from 255
/// down to 1 after the given seed and returns the first that derives an
/// address, or `None` where none of them does.
#[verifier::external_body]
fn try_find_program_address(seed: &[u8], program: &[u8; 32]) -> (r: Option<([u8; 32], u8)>)
    requires
        seed@.len() <= 32,
    ensures
        match r {
            Some((a, b)) => {
                &&& 1 <= b
                &&& program_address_of(Seq::empty().push(seed@).push(Seq::empty().push(b)), program@) == Some(a@)
                &&& forall|c: u8| b < c ==> (#[trigger] program_address_of(Seq::empty().push(seed@).push(Seq::empty().push(c)), program@)) is None
            },
            None => forall|c: u8| 1 <= c ==> (#[trigger] program_address_of(Seq::empty().push(seed@).push(Seq::empty().push(c)), program@)) is None,
        },
{
    let program_id = Pubkey::new_from_array(*program);
    Pubkey::try_find_program_address(&[seed], &program_id).map(|(k, b)| (k.to_bytes(), b))
}

/// The seed bytes, as an executable value.
fn authority_seed_bytes() -> (r: [u8; 9])
    ensures
        r@ == authority_seed(),
{
    let r: [u8; 9] = [97u8, 117u8, 116u8, 104u8, 111u8, 114u8, 105u8, 116u8, 121u8];
    assert(r@ =~= authority_seed());
    r
}

/// Compares two 32-byte identities.
pub fn same_key(a: &[u8; 32], b: &[u8; 32]) -> (r: bool)
    ensures
        r == (a@ == b@),
{
    let mut i: usize = 0;
    while i < 32
        invariant
            0 <= i <= 32,
            a@.len() == 32,
            b@.len() == 32,
            forall|j: int| 0 <= j < i ==> a@[j] == b@[j],
        decreases 32 - i,
    {
        if a[i] != b[i] {
            return false;
        }
        i = i + 1;
    }
    assert(a@ =~= b@);
    true
}

/// Finds the custodian of `program`: the address of the highest bump that
/// derives one, with that bump.
pub fn derive_authority(program: &[u8; 32]) -> (r: Option<([u8; 32], u8)>)
    ensures
        match r {
            Some((a, b)) => {
                &&& 1 <= b
                &&& bump_signs_for(program@, a@, b)
                &&& forall|c: u8| b < c ==> (#[trigger] authority_for_bump(program@, c)) is None
            },
            None => forall|c: u8| 1 <= c ==> (#[trigger] authority_for_bump(program@, c)) is None,
        },
{
    let seed = authority_seed_bytes();
    let r = try_find_program_address(&seed, program);
    proof {
        match r {
            Some((a, b)) => {
                assert forall|c: u8| b < c implies (#[trigger] authority_for_bump(program@, c)) is None by {
                    assert(address_with_bump(seed@, c, program@) is None);
                }
            },
            None => {
                assert forall|c: u8| 1 <= c implies (#[trigger] authority_for_bump(program@, c)) is None by {
                    assert(address_with_bump(seed@, c, program@) is None);
                }
            },
        }
    }
    r
}

/// Re-derives the custodian from a candidate `bump` and accepts it only where
/// it reproduces `authority`.
pub fn check_authority(program: &[u8; 32], authority: &[u8; 32], bump: u8) -> (r: bool)
    ensures
        r == bump_signs_for(program@, authority@, bump),
{
    let seed = authority_seed_bytes();
    match create_program_address(&seed, bump, program) {
        Some(a) => same_key(&a, authority),
        None => false,
    }
}

} // verus!
