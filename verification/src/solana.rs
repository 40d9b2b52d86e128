//! Calls into the Solana runtime library.
//!
//! What stands here is believed, not proved: each contract says what the
//! called function is taken to do.
use vstd::prelude::*;

use crate::account::{AccountMeta, Instruction, Pubkey};

verus! {

/// The program address that `seeds` and a bump seed derive for the program
/// `program_id`, together with the bump, where there is one.
pub uninterp spec fn program_address(seeds: Seq<Seq<u8>>, program_id: Seq<u8>) -> Option<
    (Seq<u8>, u8),
>;

/// The bytes of each seed.
pub open spec fn seed_bytes(seeds: Seq<Vec<u8>>) -> Seq<Seq<u8>> {
    Seq::new(seeds.len(), |i: int| seeds[i]@)
}

/// A key and a bump by their values.
pub open spec fn address_view(found: Option<(Pubkey, u8)>) -> Option<(Seq<u8>, u8)> {
    match found {
        Some((key, bump)) => Some((key@, bump)),
        None => None,
    }
}

/// Calls `anchor_lang::solana_program::pubkey::Pubkey::try_find_program_address`.
///
/// The call hashes the seeds, a bump seed that counts down from 255, and the
/// program's key, and returns the first hash that is no point of the curve, with
/// its bump. The result depends on the seeds and the key alone; the contract
/// gives it a name and says no more of it.
#[verifier::external_body]
pub(crate) fn find_program_address(seeds: &Vec<Vec<u8>>, program_id: &Pubkey) -> (found: Option<
    (Pubkey, u8),
>)
    ensures
        address_view(found) == program_address(seed_bytes(seeds@), program_id@),
{
    let slices: Vec<&[u8]> = seeds.iter().map(|seed| seed.as_slice()).collect();
    let program = anchor_lang::solana_program::pubkey::Pubkey::new_from_array(program_id.bytes);
    anchor_lang::solana_program::pubkey::Pubkey::try_find_program_address(&slices, &program).map(
        |(key, bump)| (Pubkey { bytes: key.to_bytes() }, bump),
    )
}

/// The `n` bytes of `x` in little-endian order.
pub open spec fn little_endian(x: nat, n: nat) -> Seq<u8>
    decreases n,
{
    if n == 0 {
        Seq::empty()
    } else {
        seq![(x % 256) as u8] + little_endian(x / 256, (n - 1) as nat)
    }
}

/// The number that bytes in little-endian order stand for.
pub open spec fn number(bytes: Seq<u8>) -> nat
    decreases bytes.len(),
{
    if bytes.len() == 0 {
        0
    } else {
        bytes.first() as nat + 256 * number(bytes.drop_first())
    }
}

/// Bytes in little-endian order are read back as the number that was written, where
/// there are enough of them.
pub proof fn law_little_endian_is_read_back(x: nat, n: nat)
    ensures
        little_endian(x, n).len() == n,
        x < vstd::arithmetic::power::pow(256, n) ==> number(little_endian(x, n)) == x,
        n == 4 && x < 0x1_0000_0000 ==> number(little_endian(x, n)) == x,
        n == 8 && x < 0x1_0000_0000_0000_0000 ==> number(little_endian(x, n)) == x,
    decreases n,
{
    reveal_with_fuel(vstd::arithmetic::power::pow, 9);
    if n > 0 {
        law_little_endian_is_read_back(x / 256, (n - 1) as nat);
        assert(little_endian(x, n).drop_first() =~= little_endian(x / 256, (n - 1) as nat));
        let rest = vstd::arithmetic::power::pow(256, (n - 1) as nat);
        assert(vstd::arithmetic::power::pow(256, n) == 256 * rest);
    }
}

/// `instruction` moves `lamports` from `from` to `to`. It is addressed to the
/// system program, whose key is all zeros. It names `from` as a writable signer
/// and `to` as writable, in that order, and its data is the number 2 as four
/// bytes followed by `lamports` as eight bytes, both little-endian.
pub open spec fn moves_lamports(
    instruction: Instruction,
    from: Pubkey,
    to: Pubkey,
    lamports: nat,
) -> bool {
    &&& instruction.program_id@ == Seq::new(32, |i: int| 0u8)
    &&& instruction.accounts@ == seq![
        AccountMeta { pubkey: from, is_signer: true, is_writable: true },
        AccountMeta { pubkey: to, is_signer: false, is_writable: true },
    ]
    &&& instruction.data@ == little_endian(2, 4) + little_endian(lamports, 8)
}

/// Calls `anchor_lang::solana_program::system_instruction::transfer`.
///
/// The contract says what the instruction holds, byte for byte: the system
/// program's key, the two accounts, and the encoding of the transfer.
#[verifier::external_body]
pub(crate) fn system_transfer(from: &Pubkey, to: &Pubkey, lamports: u64) -> (instruction:
    Instruction)
    ensures
        moves_lamports(instruction, *from, *to, lamports as nat),
{
    let built = anchor_lang::solana_program::system_instruction::transfer(
        &anchor_lang::solana_program::pubkey::Pubkey::new_from_array(from.bytes),
        &anchor_lang::solana_program::pubkey::Pubkey::new_from_array(to.bytes),
        lamports,
    );
    let accounts = built.accounts.iter().map(
        |meta| AccountMeta {
            pubkey: Pubkey { bytes: meta.pubkey.to_bytes() },
            is_signer: meta.is_signer,
            is_writable: meta.is_writable,
        },
    ).collect();
    Instruction { program_id: Pubkey { bytes: built.program_id.to_bytes() }, accounts, data: built.data }
}

} // verus!
