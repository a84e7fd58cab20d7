//! Program-derived addresses: where the program keeps its accounts.
//!
//! Every account of the program stands at an address that is derived from a few
//! seeds, one extra byte (the bump) and the program's own address.
use anchor_lang::solana_program::pubkey::{Pubkey as SolanaPubkey, PubkeyError};
use vstd::prelude::*;
#[allow(unused_imports)]
use vstd::utf8::*;

use crate::pubkey::Pubkey;

verus! {

/// The longest seed that an address can be derived from, in bytes.
pub const MAX_SEED_LEN: usize = 32;

/// The greatest number of seeds of one address, the bump included.
pub const MAX_SEEDS: usize = 16;

/// An outside error: why seeds give no program address.
#[verifier::external_type_specification]
#[verifier::external_body]
pub struct ExPubkeyError(PubkeyError);

/// The address that `Pubkey::create_program_address` derives from seeds (the
/// bump last, where there is one) for a program; `None` where it derives none.
pub uninterp spec fn program_address(seeds: Seq<Seq<u8>>, program_id: Seq<u8>) -> Option<Seq<u8>>;

/// The bytes of borrowed seeds.
pub open spec fn seed_bytes(seeds: Seq<&[u8]>) -> Seq<Seq<u8>> {
    seeds.map_values(|seed: &[u8]| seed@)
}

/// The bytes of owned seeds.
pub open spec fn owned_seed_bytes(seeds: Seq<Vec<u8>>) -> Seq<Seq<u8>> {
    seeds.map_values(|seed: Vec<u8>| seed@)
}

/// Some seed is longer than a seed may be.
pub open spec fn has_long_seed(seeds: Seq<Seq<u8>>) -> bool {
    exists|i: int| 0 <= i < seeds.len() && (#[trigger] seeds[i]).len() > MAX_SEED_LEN
}

/// The seeds with a bump behind them.
pub open spec fn with_bump(seeds: Seq<Seq<u8>>, bump: u8) -> Seq<Seq<u8>> {
    seeds.push(seq![bump])
}

/// The address that seeds and a bump derive.
pub open spec fn bumped_address(seeds: Seq<Seq<u8>>, bump: u8, program_id: Seq<u8>) -> Option<
    Seq<u8>,
> {
    program_address(with_bump(seeds, bump), program_id)
}

/// `bump` is the greatest nonzero bump with which the seeds derive an address.
pub open spec fn is_canonical_bump(seeds: Seq<Seq<u8>>, bump: u8, program_id: Seq<u8>) -> bool {
    &&& bump >= 1
    &&& bumped_address(seeds, bump, program_id) is Some
    &&& forall|higher: u8|
        higher > bump ==> (#[trigger] bumped_address(seeds, higher, program_id)) is None
}

/// The canonical bump of seeds that have one.
pub open spec fn canonical_bump(seeds: Seq<Seq<u8>>, program_id: Seq<u8>) -> u8 {
    choose|bump: u8| is_canonical_bump(seeds, bump, program_id)
}

/// The canonical address of seeds, and its bump: the one that the greatest
/// working bump derives. `None` where no nonzero bump works.
pub open spec fn canonical_address(seeds: Seq<Seq<u8>>, program_id: Seq<u8>) -> Option<
    (Seq<u8>, u8),
> {
    if exists|bump: u8| is_canonical_bump(seeds, bump, program_id) {
        let bump = canonical_bump(seeds, program_id);
        Some((bumped_address(seeds, bump, program_id)->0, bump))
    } else {
        None
    }
}

/// `key` is the address that the seeds derive with `bump`.
pub open spec fn is_at(key: Pubkey, seeds: Seq<Seq<u8>>, bump: u8, program_id: Pubkey) -> bool {
    bumped_address(seeds, bump, program_id@) == Some(key@)
}

/// Seeds have at most one canonical bump.
pub proof fn lemma_canonical_bump_unique(
    seeds: Seq<Seq<u8>>,
    program_id: Seq<u8>,
    first: u8,
    second: u8,
)
    requires
        is_canonical_bump(seeds, first, program_id),
        is_canonical_bump(seeds, second, program_id),
    ensures
        first == second,
{
    if first < second {
        assert(bumped_address(seeds, second, program_id) is None);
    } else if second < first {
        assert(bumped_address(seeds, first, program_id) is None);
    }
}

/// A derived address and its bump.
#[derive(Clone, Copy, Debug, PartialEq, Eq)]
pub struct ProgramAddress {
    pub key: Pubkey,
    pub bump: u8,
}

/// What an optional address holds, as plain values.
pub open spec fn opt_key_view(key: Option<Pubkey>) -> Option<Seq<u8>> {
    match key {
        Some(key) => Some(key@),
        None => None,
    }
}

/// What an optional address with its bump holds, as plain values.
pub open spec fn opt_address_view(address: Option<ProgramAddress>) -> Option<(Seq<u8>, u8)> {
    match address {
        Some(address) => Some((address.key@, address.bump)),
        None => None,
    }
}

/// Calls `Pubkey::create_program_address`. Its result is a function of the seeds
/// and the program's address, which `program_address` names. It fails, among other
/// cases, where there are too many seeds or one of them is too long. When it
/// fails otherwise is left unsaid: that rests on a hash of the seeds.
#[verifier::external_body]
fn create_program_address(seeds: &[&[u8]], program_id: &Pubkey) -> (res: Result<
    Pubkey,
    PubkeyError,
>)
    ensures
        res matches Ok(key) ==> program_address(seed_bytes(seeds@), program_id@) == Some(key@),
        res is Err ==> program_address(seed_bytes(seeds@), program_id@) is None,
        seeds@.len() > MAX_SEEDS || has_long_seed(seed_bytes(seeds@)) ==> res is Err,
{
    SolanaPubkey::create_program_address(seeds, &SolanaPubkey::new_from_array(program_id.bytes))
        .map(|key| Pubkey { bytes: key.to_bytes() })
}

/// Calls `Pubkey::try_find_program_address`, which tries the bumps from 255 down
/// to 1 and returns the first address that `Pubkey::create_program_address`
/// derives, with its bump; `None` where none of them derives an address, as with
/// too many or too long seeds.
#[verifier::external_body]
fn try_find_program_address(seeds: &[&[u8]], program_id: &Pubkey) -> (res: Option<(Pubkey, u8)>)
    ensures
        res matches Some((key, bump)) ==> {
            &&& is_canonical_bump(seed_bytes(seeds@), bump, program_id@)
            &&& bumped_address(seed_bytes(seeds@), bump, program_id@) == Some(key@)
        },
        res is None ==> forall|bump: u8|
            bump >= 1 ==> (#[trigger] bumped_address(
                seed_bytes(seeds@),
                bump,
                program_id@,
            )) is None,
        seeds@.len() >= MAX_SEEDS || has_long_seed(seed_bytes(seeds@)) ==> res is None,
{
    SolanaPubkey::try_find_program_address(seeds, &SolanaPubkey::new_from_array(program_id.bytes))
        .map(|found| (Pubkey { bytes: found.0.to_bytes() }, found.1))
}

/// The seeds of the one configuration account.
pub open spec fn config_seeds() -> Seq<Seq<u8>> {
    seq![encode_utf8("config"@)]
}

/// The seeds of a merchant's account.
pub open spec fn merchant_seeds(merchant_id: Seq<char>) -> Seq<Seq<u8>> {
    seq![encode_utf8("merchant"@), encode_utf8(merchant_id)]
}

/// The seeds of a merchant's escrow.
pub open spec fn escrow_seeds(merchant_id: Seq<char>) -> Seq<Seq<u8>> {
    seq![encode_utf8("escrow"@), encode_utf8(merchant_id)]
}

/// The seeds of a merchant's token vault.
pub open spec fn vault_seeds(merchant_id: Seq<char>) -> Seq<Seq<u8>> {
    seq![encode_utf8("vault"@), encode_utf8(merchant_id)]
}

/// Derives the address of seeds with a bump.
fn derive_address(seeds: Vec<&[u8]>, bump: u8, program_id: &Pubkey) -> (key: Option<Pubkey>)
    ensures
        opt_key_view(key) == bumped_address(seed_bytes(seeds@), bump, program_id@),
        has_long_seed(seed_bytes(seeds@)) ==> key is None,
{
    let bump_seed: [u8; 1] = [bump];
    let mut all: Vec<&[u8]> = seeds;
    let ghost before = all@;
    all.push(bump_seed.as_slice());
    proof {
        assert(bump_seed@ =~= seq![bump]);
        assert(seed_bytes(all@) =~= with_bump(seed_bytes(before), bump));
        if has_long_seed(seed_bytes(before)) {
            let i = choose|i: int|
                0 <= i < before.len() && (#[trigger] seed_bytes(before)[i]).len() > MAX_SEED_LEN;
            assert(seed_bytes(all@)[i] == seed_bytes(before)[i]);
        }
    }
    match create_program_address(all.as_slice(), program_id) {
        Ok(key) => Some(key),
        Err(_) => None,
    }
}

/// Searches for the canonical address of seeds.
fn find_address(seeds: Vec<&[u8]>, program_id: &Pubkey) -> (address: Option<ProgramAddress>)
    ensures
        opt_address_view(address) == canonical_address(seed_bytes(seeds@), program_id@),
        address matches Some(found) ==> is_at(
            found.key,
            seed_bytes(seeds@),
            found.bump,
            *program_id,
        ),
        has_long_seed(seed_bytes(seeds@)) ==> address is None,
{
    let ghost bytes = seed_bytes(seeds@);
    match try_find_program_address(seeds.as_slice(), program_id) {
        Some((key, bump)) => {
            proof {
                let chosen = canonical_bump(bytes, program_id@);
                lemma_canonical_bump_unique(bytes, program_id@, bump, chosen);
            }
            Some(ProgramAddress { key, bump })
        },
        None => {
            assert forall|b: u8| !is_canonical_bump(bytes, b, program_id@) by {
                if b >= 1 {
                    assert(bumped_address(bytes, b, program_id@) is None);
                }
            }
            None
        },
    }
}

/// Two seeds: a tag, and a merchant's identifier.
fn tagged_seeds<'a>(tag: &'a str, merchant_id: &'a String) -> (seeds: Vec<&'a [u8]>)
    ensures
        seed_bytes(seeds@) == seq![encode_utf8(tag@), encode_utf8(merchant_id@)],
{
    let mut seeds: Vec<&'a [u8]> = Vec::new();
    seeds.push(tag.as_bytes());
    seeds.push(merchant_id.as_str().as_bytes());
    assert(seed_bytes(seeds@) =~= seq![encode_utf8(tag@), encode_utf8(merchant_id@)]);
    seeds
}

/// An identifier too long for a seed makes its seeds too long.
pub proof fn lemma_long_merchant_id(tag: Seq<u8>, merchant_id: Seq<char>)
    requires
        encode_utf8(merchant_id).len() > MAX_SEED_LEN,
    ensures
        has_long_seed(seq![tag, encode_utf8(merchant_id)]),
{
    let seeds = seq![tag, encode_utf8(merchant_id)];
    assert(seeds[1].len() > MAX_SEED_LEN);
}

/// Searches for the address at which the configuration is created.
pub fn find_config_address(program_id: &Pubkey) -> (address: Option<ProgramAddress>)
    ensures
        opt_address_view(address) == canonical_address(config_seeds(), program_id@),
        address matches Some(found) ==> is_at(
            found.key,
            config_seeds(),
            found.bump,
            *program_id,
        ),
{
    let mut seeds: Vec<&[u8]> = Vec::new();
    seeds.push("config".as_bytes());
    assert(seed_bytes(seeds@) =~= config_seeds());
    find_address(seeds, program_id)
}

/// Searches for the address at which a merchant's account is created. There is
/// none for an identifier of more than 32 bytes.
pub fn find_merchant_address(merchant_id: &String, program_id: &Pubkey) -> (address: Option<
    ProgramAddress,
>)
    ensures
        opt_address_view(address) == canonical_address(merchant_seeds(merchant_id@), program_id@),
        address matches Some(found) ==> is_at(
            found.key,
            merchant_seeds(merchant_id@),
            found.bump,
            *program_id,
        ),
        encode_utf8(merchant_id@).len() > MAX_SEED_LEN ==> address is None,
{
    proof {
        if encode_utf8(merchant_id@).len() > MAX_SEED_LEN {
            lemma_long_merchant_id(encode_utf8("merchant"@), merchant_id@);
        }
    }
    find_address(tagged_seeds("merchant", merchant_id), program_id)
}

/// Searches for the address at which a merchant's escrow is created. There is
/// none for an identifier of more than 32 bytes.
pub fn find_escrow_address(merchant_id: &String, program_id: &Pubkey) -> (address: Option<
    ProgramAddress,
>)
    ensures
        opt_address_view(address) == canonical_address(escrow_seeds(merchant_id@), program_id@),
        address matches Some(found) ==> is_at(
            found.key,
            escrow_seeds(merchant_id@),
            found.bump,
            *program_id,
        ),
        encode_utf8(merchant_id@).len() > MAX_SEED_LEN ==> address is None,
{
    proof {
        if encode_utf8(merchant_id@).len() > MAX_SEED_LEN {
            lemma_long_merchant_id(encode_utf8("escrow"@), merchant_id@);
        }
    }
    find_address(tagged_seeds("escrow", merchant_id), program_id)
}

/// Searches for the address at which a merchant's vault is created. There is
/// none for an identifier of more than 32 bytes.
pub fn find_vault_address(merchant_id: &String, program_id: &Pubkey) -> (address: Option<
    ProgramAddress,
>)
    ensures
        opt_address_view(address) == canonical_address(vault_seeds(merchant_id@), program_id@),
        address matches Some(found) ==> is_at(
            found.key,
            vault_seeds(merchant_id@),
            found.bump,
            *program_id,
        ),
        encode_utf8(merchant_id@).len() > MAX_SEED_LEN ==> address is None,
{
    proof {
        if encode_utf8(merchant_id@).len() > MAX_SEED_LEN {
            lemma_long_merchant_id(encode_utf8("vault"@), merchant_id@);
        }
    }
    find_address(tagged_seeds("vault", merchant_id), program_id)
}

/// The configuration's address with a bump.
pub fn config_address(bump: u8, program_id: &Pubkey) -> (key: Option<Pubkey>)
    ensures
        opt_key_view(key) == bumped_address(config_seeds(), bump, program_id@),
{
    let mut seeds: Vec<&[u8]> = Vec::new();
    seeds.push("config".as_bytes());
    assert(seed_bytes(seeds@) =~= config_seeds());
    derive_address(seeds, bump, program_id)
}

/// The address of a merchant's account with a bump. An identifier of more than 32
/// bytes has none.
pub fn merchant_address(merchant_id: &String, bump: u8, program_id: &Pubkey) -> (key: Option<
    Pubkey,
>)
    ensures
        opt_key_view(key) == bumped_address(merchant_seeds(merchant_id@), bump, program_id@),
        encode_utf8(merchant_id@).len() > MAX_SEED_LEN ==> key is None,
{
    proof {
        if encode_utf8(merchant_id@).len() > MAX_SEED_LEN {
            lemma_long_merchant_id(encode_utf8("merchant"@), merchant_id@);
        }
    }
    derive_address(tagged_seeds("merchant", merchant_id), bump, program_id)
}

/// The address of a merchant's escrow with a bump. An identifier of more than 32
/// bytes has none.
pub fn escrow_address(merchant_id: &String, bump: u8, program_id: &Pubkey) -> (key: Option<Pubkey>)
    ensures
        opt_key_view(key) == bumped_address(escrow_seeds(merchant_id@), bump, program_id@),
        encode_utf8(merchant_id@).len() > MAX_SEED_LEN ==> key is None,
{
    proof {
        if encode_utf8(merchant_id@).len() > MAX_SEED_LEN {
            lemma_long_merchant_id(encode_utf8("escrow"@), merchant_id@);
        }
    }
    derive_address(tagged_seeds("escrow", merchant_id), bump, program_id)
}

/// The address of a merchant's vault with a bump. An identifier of more than 32
/// bytes has none.
pub fn vault_address(merchant_id: &String, bump: u8, program_id: &Pubkey) -> (key: Option<Pubkey>)
    ensures
        opt_key_view(key) == bumped_address(vault_seeds(merchant_id@), bump, program_id@),
        encode_utf8(merchant_id@).len() > MAX_SEED_LEN ==> key is None,
{
    proof {
        if encode_utf8(merchant_id@).len() > MAX_SEED_LEN {
            lemma_long_merchant_id(encode_utf8("vault"@), merchant_id@);
        }
    }
    derive_address(tagged_seeds("vault", merchant_id), bump, program_id)
}

} // verus!
