//! The addresses at which the protocol's accounts stand.
use vstd::prelude::*;

use crate::account::Pubkey;
use crate::solana;

verus! {

/// The bytes `user`.
pub open spec fn user_tag() -> Seq<u8> {
    vstd::utf8::encode_utf8("user"@)
}

/// The bytes `edge`.
pub open spec fn edge_tag() -> Seq<u8> {
    vstd::utf8::encode_utf8("edge"@)
}

/// The bytes `rift_token_state`.
pub open spec fn token_state_tag() -> Seq<u8> {
    vstd::utf8::encode_utf8("rift_token_state"@)
}

/// The bytes `rift_mint_authority`.
pub open spec fn mint_authority_tag() -> Seq<u8> {
    vstd::utf8::encode_utf8("rift_mint_authority"@)
}

/// The address of the account of participant `authority`, with its bump.
pub open spec fn user_derivation(program_id: Pubkey, authority: Pubkey) -> Option<(Seq<u8>, u8)> {
    solana::program_address(seq![user_tag(), authority@], program_id@)
}

/// The address of the edge from `from` to `to`, with its bump.
pub open spec fn edge_derivation(program_id: Pubkey, from: Pubkey, to: Pubkey) -> Option<
    (Seq<u8>, u8),
> {
    solana::program_address(seq![edge_tag(), from@, to@], program_id@)
}

/// The address of the token program's state, with its bump.
pub open spec fn token_state_derivation(program_id: Pubkey) -> Option<(Seq<u8>, u8)> {
    solana::program_address(seq![token_state_tag()], program_id@)
}

/// The address of the mint authority, with its bump.
pub open spec fn mint_authority_derivation(program_id: Pubkey) -> Option<(Seq<u8>, u8)> {
    solana::program_address(seq![mint_authority_tag()], program_id@)
}

/// `key` is the derived address.
pub open spec fn is_at(key: Pubkey, derived: Option<(Seq<u8>, u8)>) -> bool {
    derived matches Some((address, _)) && address == key@
}

/// Each account stands at the address derived for its program from its tag and its
/// keys, the keys of an edge in the order of its direction; and a key is at a
/// derived address exactly where the derivation found it.
pub proof fn law_addresses(program_id: Pubkey, a: Pubkey, b: Pubkey, bump: u8)
    ensures
        user_derivation(program_id, a) == solana::program_address(
            seq![vstd::utf8::encode_utf8("user"@), a.bytes@],
            program_id.bytes@,
        ),
        edge_derivation(program_id, a, b) == solana::program_address(
            seq![vstd::utf8::encode_utf8("edge"@), a.bytes@, b.bytes@],
            program_id.bytes@,
        ),
        token_state_derivation(program_id) == solana::program_address(
            seq![vstd::utf8::encode_utf8("rift_token_state"@)],
            program_id.bytes@,
        ),
        mint_authority_derivation(program_id) == solana::program_address(
            seq![vstd::utf8::encode_utf8("rift_mint_authority"@)],
            program_id.bytes@,
        ),
        is_at(a, Some((b.bytes@, bump))) <==> a == b,
        !is_at(a, None),
{
    if a.bytes@ == b.bytes@ {
        assert(a.bytes =~= b.bytes);
    }
}

/// The address of the account of participant `authority`, with its bump.
pub fn user_address(program_id: &Pubkey, authority: &Pubkey) -> (found: Option<(Pubkey, u8)>)
    ensures
        solana::address_view(found) == user_derivation(*program_id, *authority),
{
    let seeds: Vec<Vec<u8>> = vec!["user".as_bytes_vec(), authority.to_vec()];
    assert(solana::seed_bytes(seeds@) =~~= seq![user_tag(), authority@]);
    solana::find_program_address(&seeds, program_id)
}

/// The address of the edge from `from` to `to`, with its bump.
pub fn edge_address(program_id: &Pubkey, from: &Pubkey, to: &Pubkey) -> (found: Option<
    (Pubkey, u8),
>)
    ensures
        solana::address_view(found) == edge_derivation(*program_id, *from, *to),
{
    let seeds: Vec<Vec<u8>> = vec!["edge".as_bytes_vec(), from.to_vec(), to.to_vec()];
    assert(solana::seed_bytes(seeds@) =~~= seq![edge_tag(), from@, to@]);
    solana::find_program_address(&seeds, program_id)
}

/// The seed under which the mint authority is derived: `rift_mint_authority`.
pub fn mint_authority_seed() -> (seed: Vec<u8>)
    ensures
        seed@ == mint_authority_tag(),
{
    "rift_mint_authority".as_bytes_vec()
}

/// The address of the mint authority, with its bump.
pub fn mint_authority_address(program_id: &Pubkey) -> (found: Option<(Pubkey, u8)>)
    ensures
        solana::address_view(found) == mint_authority_derivation(*program_id),
{
    let seeds: Vec<Vec<u8>> = vec![mint_authority_seed()];
    assert(solana::seed_bytes(seeds@) =~~= seq![mint_authority_tag()]);
    solana::find_program_address(&seeds, program_id)
}

/// The address of the token program's state, with its bump.
pub fn token_state_address(program_id: &Pubkey) -> (found: Option<(Pubkey, u8)>)
    ensures
        solana::address_view(found) == token_state_derivation(*program_id),
{
    let seeds: Vec<Vec<u8>> = vec!["rift_token_state".as_bytes_vec()];
    assert(solana::seed_bytes(seeds@) =~~= seq![token_state_tag()]);
    solana::find_program_address(&seeds, program_id)
}

/// Whether `key` is the derived address.
pub fn stands_at(key: &Pubkey, derived: &Option<(Pubkey, u8)>) -> (stands: bool)
    ensures
        stands == is_at(*key, solana::address_view(*derived)),
{
    match derived {
        Some((address, _)) => {
            let same: bool = *address == *key;
            proof {
                if address@ == key@ {
                    assert(address.bytes =~= key.bytes);
                }
            }
            same
        },
        None => false,
    }
}

} // verus!
