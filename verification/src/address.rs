use crate::compression::u32_to_le;
use crate::pubkey::Pubkey;
use vstd::prelude::*;

verus! {

/// The address of this program, under which the identifiers of its records are
/// derived.
pub const PROGRAM_ID: [u8; 32] = [
    218, 7, 92, 178, 255, 94, 198, 129, 118, 19, 222, 83, 11, 105, 42, 135,
    53, 71, 119, 105, 218, 71, 67, 12, 189, 129, 84, 51, 92, 74, 131, 39,
];

/// The program address that two seeds derive under a program, where one of the
/// 255 bump seeds gives an address off the curve.
pub uninterp spec fn program_address(
    first_seed: Seq<u8>,
    second_seed: Seq<u8>,
    program_id: Seq<u8>,
) -> Option<Seq<u8>>;

/// Calls `Pubkey::try_find_program_address` of the Solana SDK with the two
/// seeds and the program's key, and takes the address without its bump seed.
/// Off chain the SDK computes it from these bytes alone.
#[verifier::external_body]
fn find_program_address(first_seed: &[u8], second_seed: &[u8], program_id: &[u8; 32]) -> (found:
    Option<Pubkey>)
    ensures
        match found {
            Some(address) => program_address(first_seed@, second_seed@, program_id@) == Some(
                address@,
            ),
            None => program_address(first_seed@, second_seed@, program_id@) is None,
        },
{
    let program = anchor_lang::prelude::Pubkey::new_from_array(*program_id);
    let seeds: [&[u8]; 2] = [first_seed, second_seed];
    match anchor_lang::prelude::Pubkey::try_find_program_address(&seeds, &program) {
        Some((address, _bump)) => Some(Pubkey(address.to_bytes())),
        None => None,
    }
}

/// The identifier of the record at `index` of the tree `tree`: the program
/// address of the tree's key and the index, little-endian, under this program.
pub open spec fn derived_asset_id(tree: Seq<u8>, index: u32) -> Option<Seq<u8>> {
    program_address(tree, u32_to_le(index), PROGRAM_ID@)
}

/// What `found` holds, with a key taken by its view.
pub open spec fn found_view(found: Option<Pubkey>) -> Option<Seq<u8>> {
    match found {
        Some(key) => Some(key@),
        None => None,
    }
}

/// Writes a number as four little-endian bytes.
pub fn u32_le_bytes(value: u32) -> (bytes: [u8; 4])
    ensures
        bytes@ == u32_to_le(value),
{
    let bytes: [u8; 4] = [
        (value % 0x100) as u8,
        (value / 0x100 % 0x100) as u8,
        (value / 0x1_0000 % 0x100) as u8,
        (value / 0x100_0000) as u8,
    ];
    assert(bytes@ =~= u32_to_le(value));
    bytes
}

/// Derives the identifier of the record that takes the place `index` in the
/// tree `tree`.
pub fn derive_asset_id(tree: &Pubkey, index: u32) -> (found: Option<Pubkey>)
    ensures
        found_view(found) == derived_asset_id(tree@, index),
{
    let index_bytes = u32_le_bytes(index);
    find_program_address(tree.0.as_slice(), index_bytes.as_slice(), &PROGRAM_ID)
}

} // verus!
