//! Program-derived addresses: the locations of an escrow's record and of its
//! vault are derived from fixed seeds and the program's own address, so that
//! no key held by a person can sign for them.
use vstd::prelude::*;
use vstd::slice::slice_to_vec;
use anchor_lang::solana_program::pubkey::Pubkey;
use crate::state::{Address, lemma_address_bytes};

verus! {

/// The address that a list of seeds and a program derive, or `None` where the
/// derivation fails (too many or too long seeds, or a hash that lies on the
/// curve and so could have a private key).
pub uninterp spec fn program_address_of(seeds: Seq<Seq<u8>>, program_id: Seq<u8>) -> Option<Seq<u8>>;

/// Most seeds that one derivation takes.
pub const MAX_SEEDS: usize = 16;

/// Most bytes that one seed may have.
pub const MAX_SEED_LEN: usize = 32;

pub open spec fn seeds_within_limits(seeds: Seq<Seq<u8>>) -> bool {
    &&& seeds.len() <= MAX_SEEDS
    &&& forall|i: int| 0 <= i < seeds.len() ==> #[trigger] seeds[i].len() <= MAX_SEED_LEN
}

pub open spec fn address_bytes(a: Option<Address>) -> Option<Seq<u8>> {
    match a {
        Some(a) => Some(a.bytes@),
        None => None,
    }
}

/// The seeds with a one-byte bump seed appended.
pub open spec fn with_bump(seeds: Seq<Seq<u8>>, bump: u8) -> Seq<Seq<u8>> {
    seeds.push(seq![bump])
}

/// `(address, bump)` is what a search from the highest bump down finds: the
/// highest bump, not below 1, for which the derivation succeeds.
pub open spec fn canonical(seeds: Seq<Seq<u8>>, program_id: Seq<u8>, address: Address, bump: u8) -> bool {
    &&& 1 <= bump
    &&& program_address_of(with_bump(seeds, bump), program_id) == Some(address.bytes@)
    &&& forall|b: u8| bump < b ==> #[trigger] program_address_of(with_bump(seeds, b), program_id) is None
}

/// Some bump from 1 up gives an address.
pub open spec fn derivable(seeds: Seq<Seq<u8>>, program_id: Seq<u8>) -> bool {
    exists|b: u8| 1 <= b && (#[trigger] program_address_of(with_bump(seeds, b), program_id)) is Some
}

/// Relies on `Pubkey::create_program_address`: the derived address, or an
/// error (mapped to `None`) where the seeds exceed `MAX_SEEDS` or
/// `MAX_SEED_LEN` or the hash lies on the curve.
#[verifier::external_body]
fn create_program_address(seeds: &Vec<Vec<u8>>, program_id: &Address) -> (r: Option<Address>)
    ensures
        address_bytes(r) == program_address_of(seeds.deep_view(), program_id.bytes@),
        !seeds_within_limits(seeds.deep_view()) ==> r is None,
{
    let s: Vec<&[u8]> = seeds.iter().map(|v| v.as_slice()).collect();
    let program = Pubkey::new_from_array(program_id.bytes);
    Pubkey::create_program_address(&s, &program).ok().map(|p| Address { bytes: p.to_bytes() })
}

/// Relies on `Pubkey::try_find_program_address`: off-chain it tries bumps 255
/// down to 1 through `create_program_address` and returns the first address
/// found; it gives up at once on an error other than a hash on the curve,
/// which no bump can then avoid.
#[verifier::external_body]
fn try_find_program_address(seeds: &Vec<Vec<u8>>, program_id: &Address) -> (r: Option<(Address, u8)>)
    ensures
        match r {
            Some((a, bump)) => canonical(seeds.deep_view(), program_id.bytes@, a, bump),
            None => !derivable(seeds.deep_view(), program_id.bytes@),
        },
{
    let s: Vec<&[u8]> = seeds.iter().map(|v| v.as_slice()).collect();
    let program = Pubkey::new_from_array(program_id.bytes);
    Pubkey::try_find_program_address(&s, &program).map(|(p, b)| (Address { bytes: p.to_bytes() }, b))
}

/// A search from the highest bump down has one outcome: two canonical
/// derivations of the same seeds agree on the address and the bump.
pub proof fn lemma_canonical_unique(
    seeds: Seq<Seq<u8>>,
    program_id: Seq<u8>,
    a: Address,
    bump_a: u8,
    b: Address,
    bump_b: u8,
)
    requires
        canonical(seeds, program_id, a, bump_a),
        canonical(seeds, program_id, b, bump_b),
    ensures
        a == b,
        bump_a == bump_b,
{
    if bump_a < bump_b {
        assert(program_address_of(with_bump(seeds, bump_b), program_id) is None);
    }
    if bump_b < bump_a {
        assert(program_address_of(with_bump(seeds, bump_a), program_id) is None);
    }
    lemma_address_bytes(a, b);
}

/// Both the record and the vault of the escrow between two parties can be
/// derived: the record's seeds give an address, and whatever canonical
/// address they give, the vault's seeds from it give one too.
pub open spec fn derivation_ok(initializer: Address, recipient: Address, program_id: Address) -> bool {
    &&& derivable(escrow_seeds(initializer, recipient), program_id.bytes@)
    &&& forall|k: Address, b: u8|
        #[trigger] canonical(escrow_seeds(initializer, recipient), program_id.bytes@, k, b)
            ==> derivable(vault_seeds(k), program_id.bytes@)
}

/// The seed that opens the record's derivation: the bytes of "escrow".
pub open spec fn escrow_tag() -> Seq<u8> {
    seq![101u8, 115u8, 99u8, 114u8, 111u8, 119u8]
}

/// The seed that opens the vault's derivation: the bytes of "vault".
pub open spec fn vault_tag() -> Seq<u8> {
    seq![118u8, 97u8, 117u8, 108u8, 116u8]
}

/// The seeds of the record of the escrow between two parties.
pub open spec fn escrow_seeds(initializer: Address, recipient: Address) -> Seq<Seq<u8>> {
    seq![escrow_tag(), initializer.bytes@, recipient.bytes@]
}

/// The seeds of the vault of the escrow whose record stands at `escrow`.
pub open spec fn vault_seeds(escrow: Address) -> Seq<Seq<u8>> {
    seq![vault_tag(), escrow.bytes@]
}

fn escrow_seed_list(initializer: &Address, recipient: &Address) -> (r: Vec<Vec<u8>>)
    ensures
        r.deep_view() == escrow_seeds(*initializer, *recipient),
{
    let tag = vec![101u8, 115u8, 99u8, 114u8, 111u8, 119u8];
    let a = slice_to_vec(initializer.bytes.as_slice());
    let b = slice_to_vec(recipient.bytes.as_slice());
    assert(tag.deep_view() =~= escrow_tag());
    assert(a.deep_view() =~= initializer.bytes@);
    assert(b.deep_view() =~= recipient.bytes@);
    let mut r: Vec<Vec<u8>> = Vec::new();
    r.push(tag);
    r.push(a);
    r.push(b);
    assert(r.deep_view() =~= escrow_seeds(*initializer, *recipient));
    r
}

fn vault_seed_list(escrow: &Address) -> (r: Vec<Vec<u8>>)
    ensures
        r.deep_view() == vault_seeds(*escrow),
{
    let tag = vec![118u8, 97u8, 117u8, 108u8, 116u8];
    let a = slice_to_vec(escrow.bytes.as_slice());
    assert(tag.deep_view() =~= vault_tag());
    assert(a.deep_view() =~= escrow.bytes@);
    let mut r: Vec<Vec<u8>> = Vec::new();
    r.push(tag);
    r.push(a);
    assert(r.deep_view() =~= vault_seeds(*escrow));
    r
}

fn push_bump(seeds: &Vec<Vec<u8>>, bump: u8) -> (r: Vec<Vec<u8>>)
    ensures
        r.deep_view() == with_bump(seeds.deep_view(), bump),
{
    let mut r: Vec<Vec<u8>> = Vec::new();
    let mut i: usize = 0;
    while i < seeds.len()
        invariant
            i <= seeds.len(),
            r@.len() == i,
            forall|j: int| 0 <= j < i ==> #[trigger] r@[j].deep_view() == seeds.deep_view()[j],
        decreases seeds.len() - i,
    {
        let s = slice_to_vec(seeds[i].as_slice());
        assert(s.deep_view() =~= seeds[i as int].deep_view());
        let ghost prev = r@;
        r.push(s);
        assert(r@ == prev.push(s));
        assert forall|j: int| 0 <= j < i + 1 implies #[trigger] r@[j].deep_view() == seeds.deep_view()[j] by {
            if j < i {
                assert(r@[j] == prev[j]);
            }
        }
        i = i + 1;
    }
    let b = vec![bump];
    assert(b.deep_view() =~= seq![bump]);
    let ghost prev = r@;
    r.push(b);
    assert(r@ == prev.push(b));
    assert forall|j: int| 0 <= j < seeds.len() implies #[trigger] r@[j].deep_view() == seeds.deep_view()[j] by {
        assert(r@[j] == prev[j]);
    }
    assert(r.deep_view() =~= with_bump(seeds.deep_view(), bump));
    r
}

/// Whether `key`, with `bump`, is what `seeds` derive under the program.
fn derives_to(seeds: &Vec<Vec<u8>>, bump: u8, key: &Address, program_id: &Address) -> (r: bool)
    ensures
        r == (program_address_of(with_bump(seeds.deep_view(), bump), program_id.bytes@) == Some(key.bytes@)),
{
    let with = push_bump(seeds, bump);
    match create_program_address(&with, program_id) {
        Some(a) => {
            proof {
                if a.bytes@ == key.bytes@ {
                    lemma_address_bytes(a, *key);
                }
            }
            a.same(key)
        },
        None => false,
    }
}

/// Finds the record address of the escrow between two parties, with its
/// bump: the highest bump for which the derivation succeeds.
pub fn find_escrow_address(initializer: &Address, recipient: &Address, program_id: &Address) -> (r: Option<(Address, u8)>)
    ensures
        match r {
            Some((a, bump)) => canonical(escrow_seeds(*initializer, *recipient), program_id.bytes@, a, bump),
            None => !derivable(escrow_seeds(*initializer, *recipient), program_id.bytes@),
        },
{
    let seeds = escrow_seed_list(initializer, recipient);
    try_find_program_address(&seeds, program_id)
}

/// Finds the vault address of the escrow whose record stands at `escrow`,
/// with its bump.
pub fn find_vault_address(escrow: &Address, program_id: &Address) -> (r: Option<(Address, u8)>)
    ensures
        match r {
            Some((a, bump)) => canonical(vault_seeds(*escrow), program_id.bytes@, a, bump),
            None => !derivable(vault_seeds(*escrow), program_id.bytes@),
        },
{
    let seeds = vault_seed_list(escrow);
    try_find_program_address(&seeds, program_id)
}

/// Whether `key` is the record address that the two parties and `bump` derive.
pub fn escrow_address_matches(
    initializer: &Address,
    recipient: &Address,
    bump: u8,
    key: &Address,
    program_id: &Address,
) -> (r: bool)
    ensures
        r == (program_address_of(with_bump(escrow_seeds(*initializer, *recipient), bump), program_id.bytes@)
            == Some(key.bytes@)),
{
    let seeds = escrow_seed_list(initializer, recipient);
    derives_to(&seeds, bump, key, program_id)
}

/// Whether `key` is the vault address that the record at `escrow` and `bump`
/// derive.
pub fn vault_address_matches(escrow: &Address, bump: u8, key: &Address, program_id: &Address) -> (r: bool)
    ensures
        r == (program_address_of(with_bump(vault_seeds(*escrow), bump), program_id.bytes@) == Some(key.bytes@)),
{
    let seeds = vault_seed_list(escrow);
    derives_to(&seeds, bump, key, program_id)
}

} // verus!
