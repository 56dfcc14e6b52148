use crate::error::ErrorCode;
use crate::identity::Identity;
use anchor_lang::prelude::Pubkey;
use vstd::prelude::*;

verus! {

/// Whether the 32 bytes `b` are a point of the ed25519 curve, i.e. could be
/// the public key of some private key.
pub uninterp spec fn on_curve(b: Seq<u8>) -> bool;

/// The address derived from the seeds `[tag, seed, [bump]]` under
/// `program_id`, or `None` where that hash lands on the curve or a seed is
/// longer than 32 bytes.
pub uninterp spec fn program_address(tag: Seq<u8>, seed: Seq<u8>, bump: u8, program_id: Seq<u8>) -> Option<Seq<u8>>;

/// Relies on `Pubkey::create_program_address` (solana-program): a pure hash
/// of the seeds and the program id, which is an error exactly where the hash
/// is a curve point (or a seed is over-long), so that an address it returns
/// is never on the curve.
#[verifier::external_body]
fn create_program_address(tag: &Vec<u8>, seed: &Identity, bump: u8, program_id: &Identity) -> (r: Option<Identity>)
    ensures
        match r {
            Some(a) => program_address(tag@, seed@, bump, program_id@) == Some(a@) && !on_curve(a@),
            None => program_address(tag@, seed@, bump, program_id@) is None,
        },
{
    let key = Pubkey::new_from_array(program_id.bytes);
    match Pubkey::create_program_address(&[tag.as_slice(), &seed.bytes, &[bump]], &key) {
        Ok(k) => Some(Identity { bytes: k.to_bytes() }),
        Err(_) => None,
    }
}

/// The domain-separation tag that starts every vault's seeds: the ASCII
/// bytes of `manager`.
pub open spec fn vault_tag() -> Seq<u8> {
    seq![109u8, 97u8, 110u8, 97u8, 103u8, 101u8, 114u8]
}

/// The vault address of `authority` with the given bump, if that bump
/// yields one.
pub open spec fn vault_address(authority: Seq<u8>, bump: u8, program_id: Seq<u8>) -> Option<Seq<u8>> {
    program_address(vault_tag(), authority, bump, program_id)
}

/// Searches the bumps from `bump` down to 0 and gives the first that yields
/// a vault address, with that address.
pub open spec fn bump_search(authority: Seq<u8>, program_id: Seq<u8>, bump: u8) -> Option<(Seq<u8>, u8)>
    decreases bump,
{
    match vault_address(authority, bump, program_id) {
        Some(a) => Some((a, bump)),
        None => if bump == 0 {
            None
        } else {
            bump_search(authority, program_id, (bump - 1) as u8)
        },
    }
}

/// The canonical vault of `authority`: the highest bump that yields an
/// address, and that address.
pub open spec fn vault_derivation(authority: Seq<u8>, program_id: Seq<u8>) -> Option<(Seq<u8>, u8)> {
    bump_search(authority, program_id, 255)
}

/// A fresh copy of the vault tag.
pub fn vault_seed_tag() -> (r: Vec<u8>)
    ensures
        r@ == vault_tag(),
{
    let r = vec![109u8, 97u8, 110u8, 97u8, 103u8, 101u8, 114u8];
    assert(r@ =~= vault_tag());
    r
}

/// Finds the canonical vault address of `authority` under `program_id`,
/// with the bump seed that yields it.
pub fn derive_vault_address(authority: &Identity, program_id: &Identity) -> (r: Result<(Identity, u8), ErrorCode>)
    ensures
        match r {
            Ok((a, b)) => vault_derivation(authority@, program_id@) == Some((a@, b)) && !on_curve(a@),
            Err(e) => e == ErrorCode::NoValidDerivation && vault_derivation(authority@, program_id@) is None,
        },
{
    let tag = vault_seed_tag();
    let mut bump: u8 = 255;
    loop
        invariant
            tag@ == vault_tag(),
            vault_derivation(authority@, program_id@) == bump_search(authority@, program_id@, bump),
        decreases bump,
    {
        match create_program_address(&tag, authority, bump, program_id) {
            Some(a) => {
                return Ok((a, bump));
            },
            None => {
                if bump == 0 {
                    return Err(ErrorCode::NoValidDerivation);
                }
                bump = bump - 1;
            },
        }
    }
}

/// Whether `address` is the vault address that `authority` and `bump`
/// re-derive.
pub fn is_vault_address(authority: &Identity, bump: u8, program_id: &Identity, address: &Identity) -> (r: bool)
    ensures
        r == (vault_address(authority@, bump, program_id@) == Some(address@)),
{
    let tag = vault_seed_tag();
    match create_program_address(&tag, authority, bump, program_id) {
        Some(a) => a == *address,
        None => false,
    }
}

} // verus!
