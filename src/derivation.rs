//! Vault addresses: derived from a fixed domain tag, the owning authority,
//! the vault's name and a one-byte discriminant ("bump"), through the host
//! ledger's program-address scheme.
use anchor_lang::solana_program::pubkey::{Pubkey, PubkeyError};
use vstd::prelude::*;
use vstd::utf8::encode_utf8;
use vstd::slice::slice_to_vec;

use crate::identity::Identity;
use crate::vault::MAX_NAME_LEN;

verus! {

#[verifier::external_type_specification]
#[verifier::external_body]
pub struct ExPubkeyError(PubkeyError);

/// The program address that the ledger binds to `seeds` under `program_id`,
/// or `None` where the seeds are refused or hash onto a signing key.
pub uninterp spec fn program_address(seeds: Seq<Seq<u8>>, program_id: Seq<u8>) -> Option<Seq<u8>>;

/// The most seeds that a program address takes.
pub const MAX_SEEDS: usize = 16;

/// The longest seed that a program address takes, in bytes.
pub const MAX_SEED_LEN: usize = 32;

/// Whether the ledger takes `seeds` for a program address at all.
pub open spec fn seeds_fit(seeds: Seq<Seq<u8>>) -> bool {
    &&& seeds.len() <= MAX_SEEDS
    &&& forall|i: int| 0 <= i < seeds.len() ==> #[trigger] seeds[i].len() <= MAX_SEED_LEN
}

/// The first discriminant, searched downward from `bump` to 1, whose address
/// (with the discriminant appended to `seeds`) is a program address; with
/// that address.
pub open spec fn search_from(seeds: Seq<Seq<u8>>, program_id: Seq<u8>, bump: u8) -> Option<(Seq<u8>, u8)>
    decreases bump,
{
    if bump == 0 {
        None
    } else {
        match program_address(seeds.push(seq![bump]), program_id) {
            Some(a) => Some((a, bump)),
            None => search_from(seeds, program_id, (bump - 1) as u8),
        }
    }
}

/// The search for a program address: none where the seeds with a
/// discriminant appended are refused, else the first hit from 255 down.
pub open spec fn program_address_search(seeds: Seq<Seq<u8>>, program_id: Seq<u8>) -> Option<(Seq<u8>, u8)> {
    if seeds_fit(seeds.push(seq![255u8])) {
        search_from(seeds, program_id, 255)
    } else {
        None
    }
}

/// What a downward search finds is a program address, and every
/// discriminant above it, up to where the search began, gives none.
pub proof fn search_from_finds_first(seeds: Seq<Seq<u8>>, program_id: Seq<u8>, bump: u8)
    ensures
        search_from(seeds, program_id, bump) matches Some((a, b)) ==> {
            &&& 1 <= b <= bump
            &&& program_address(seeds.push(seq![b]), program_id) == Some(a)
            &&& forall|b2: u8|
                b < b2 <= bump ==> #[trigger] program_address(seeds.push(seq![b2]), program_id) is None
        },
    decreases bump,
{
    if bump > 0 {
        search_from_finds_first(seeds, program_id, (bump - 1) as u8);
    }
}

/// The domain tag that marks vault records: the bytes of `treasury`.
pub open spec fn vault_tag() -> Seq<u8> {
    seq![116u8, 114u8, 101u8, 97u8, 115u8, 117u8, 114u8, 121u8]
}

/// The bytes of a vault name, as UTF-8.
pub open spec fn name_bytes(name: Seq<char>) -> Seq<u8> {
    encode_utf8(name)
}

/// The seeds of the vault owned by `authority` under `name`, before the
/// discriminant.
pub open spec fn vault_seeds(authority: Seq<u8>, name: Seq<char>) -> Seq<Seq<u8>> {
    let bytes = name_bytes(name);
    let cut = name_cut(bytes.len());
    seq![vault_tag(), authority, bytes.subrange(0, cut), bytes.subrange(cut, bytes.len() as int)]
}

/// Where a name of `len` bytes is cut in two seeds: after its first
/// `MAX_SEED_LEN` bytes, or at its end if it is shorter.
pub open spec fn name_cut(len: nat) -> int {
    if len <= MAX_SEED_LEN {
        len as int
    } else {
        MAX_SEED_LEN as int
    }
}

/// What a search for a vault address found, over plain values.
pub open spec fn found_view(r: Option<(Identity, u8)>) -> Option<(Seq<u8>, u8)> {
    match r {
        Some((a, b)) => Some((a@, b)),
        None => None,
    }
}

/// The vault address and discriminant that belong to `authority` and `name`.
pub open spec fn derived(program_id: Seq<u8>, authority: Seq<u8>, name: Seq<char>) -> Option<(Seq<u8>, u8)> {
    program_address_search(vault_seeds(authority, name), program_id)
}

/// Whether `address` is the vault address of `authority` and `name` under
/// the discriminant `bump`.
pub open spec fn derivation_holds(
    program_id: Seq<u8>,
    authority: Seq<u8>,
    name: Seq<char>,
    bump: u8,
    address: Seq<u8>,
) -> bool {
    program_address(vault_seeds(authority, name).push(seq![bump]), program_id) == Some(address)
}

/// Relies on `Pubkey::create_program_address`: the address is a function of
/// the seeds and the program id, and too many or too long seeds are refused.
#[verifier::external_body]
fn create_address(seeds: &Vec<Vec<u8>>, program_id: &Identity) -> (r: Result<Identity, PubkeyError>)
    ensures
        program_address(seeds.deep_view(), program_id@) == match r {
            Ok(a) => Some(a@),
            Err(_) => None::<Seq<u8>>,
        },
        !seeds_fit(seeds.deep_view()) ==> r is Err,
{
    let slices: Vec<&[u8]> = seeds.iter().map(|s| s.as_slice()).collect();
    Pubkey::create_program_address(&slices, &Pubkey::new_from_array(program_id.bytes))
        .map(|a| Identity { bytes: a.to_bytes() })
}

/// Relies on `Pubkey::try_find_program_address`: it tries the discriminants
/// from 255 down to 1, each through `Pubkey::create_program_address` with
/// the discriminant appended to the seeds, and returns the first address
/// found; it gives up at once where those seeds are refused.
#[verifier::external_body]
fn find_address(seeds: &Vec<Vec<u8>>, program_id: &Identity) -> (r: Option<(Identity, u8)>)
    ensures
        found_view(r) == program_address_search(seeds.deep_view(), program_id@),
{
    let slices: Vec<&[u8]> = seeds.iter().map(|s| s.as_slice()).collect();
    Pubkey::try_find_program_address(&slices, &Pubkey::new_from_array(program_id.bytes))
        .map(|(a, b)| (Identity { bytes: a.to_bytes() }, b))
}

/// The seeds of the vault of `authority` and `name`, as owned byte vectors.
fn seeds_of(authority: &Identity, name: &str) -> (r: Vec<Vec<u8>>)
    ensures
        r.deep_view() == vault_seeds(authority@, name@),
{
    let tag: Vec<u8> = vec![116u8, 114u8, 101u8, 97u8, 115u8, 117u8, 114u8, 121u8];
    let key: Vec<u8> = slice_to_vec(authority.bytes.as_slice());
    let bytes = name.as_bytes();
    let cut: usize = if bytes.len() <= MAX_SEED_LEN {
        bytes.len()
    } else {
        MAX_SEED_LEN
    };
    let head: Vec<u8> = copy_range(bytes, 0, cut);
    let tail: Vec<u8> = copy_range(bytes, cut, bytes.len());
    let mut r: Vec<Vec<u8>> = Vec::new();
    r.push(tag);
    r.push(key);
    r.push(head);
    r.push(tail);
    proof {
        bytes_deep_view(r@[0]);
        bytes_deep_view(r@[1]);
        bytes_deep_view(r@[2]);
        bytes_deep_view(r@[3]);
        assert(r@[0]@ =~= vault_tag());
    }
    assert(r.deep_view() =~= vault_seeds(authority@, name@));
    r
}

/// The bytes of `bytes` from `lo` up to `hi`.
fn copy_range(bytes: &[u8], lo: usize, hi: usize) -> (r: Vec<u8>)
    requires
        lo <= hi <= bytes@.len(),
    ensures
        r@ == bytes@.subrange(lo as int, hi as int),
{
    let mut r: Vec<u8> = Vec::new();
    let mut i: usize = lo;
    while i < hi
        invariant
            lo <= i <= hi <= bytes@.len(),
            r@ == bytes@.subrange(lo as int, i as int),
        decreases hi - i,
    {
        r.push(bytes[i]);
        i = i + 1;
        assert(r@ =~= bytes@.subrange(lo as int, i as int));
    }
    r
}

proof fn bytes_deep_view(v: Vec<u8>)
    ensures
        v.deep_view() == v@,
{
    assert(v.deep_view() =~= v@);
}

/// Finds the vault address of `authority` and `name` and its discriminant,
/// or `None` where the ledger's scheme finds none.
pub fn derive(program_id: &Identity, authority: &Identity, name: &str) -> (r: Option<(Identity, u8)>)
    ensures
        found_view(r) == derived(program_id@, authority@, name@),
        r matches Some((a, b)) ==> derivation_holds(program_id@, authority@, name@, b, a@),
{
    let seeds = seeds_of(authority, name);
    let r = find_address(&seeds, program_id);
    proof {
        search_from_finds_first(seeds.deep_view(), program_id@, 255);
    }
    r
}

/// Whether `address` is the vault address of `authority` and `name` under
/// the discriminant `bump`.
pub fn verify_derivation(
    program_id: &Identity,
    authority: &Identity,
    name: &str,
    bump: u8,
    address: &Identity,
) -> (r: bool)
    ensures
        r == derivation_holds(program_id@, authority@, name@, bump, address@),
{
    let mut seeds = seeds_of(authority, name);
    let ghost base = seeds.deep_view();
    let last: Vec<u8> = vec![bump];
    proof {
        bytes_deep_view(last);
        assert(last@ =~= seq![bump]);
    }
    seeds.push(last);
    assert(seeds.deep_view() =~= base.push(seq![bump]));
    match create_address(&seeds, program_id) {
        Ok(a) => a.same_as(address),
        Err(_) => false,
    }
}

/// Deriving the address of one authority and name twice finds the same
/// address and discriminant, and that address passes the re-derivation
/// check under that discriminant.
pub proof fn derive_is_deterministic(
    program_id: Seq<u8>,
    authority: Seq<u8>,
    name: Seq<char>,
    first: Option<(Identity, u8)>,
    second: Option<(Identity, u8)>,
)
    requires
        found_view(first) == derived(program_id, authority, name),
        found_view(second) == derived(program_id, authority, name),
        first matches Some((a, b)) ==> derivation_holds(program_id, authority, name, b, a@),
    ensures
        found_view(first) == found_view(second),
        second matches Some((a, b)) ==> derivation_holds(program_id, authority, name, b, a@),
{
}

/// The discriminant that derivation finds is the first valid one searching
/// down from 255: its address re-derives, and no larger discriminant gives a
/// program address.
pub proof fn derived_bump_is_first(program_id: Seq<u8>, authority: Seq<u8>, name: Seq<char>)
    ensures
        derived(program_id, authority, name) matches Some((a, b)) ==> {
            &&& derivation_holds(program_id, authority, name, b, a)
            &&& forall|b2: u8|
                b < b2 ==> #[trigger] program_address(
                    vault_seeds(authority, name).push(seq![b2]),
                    program_id,
                ) is None
        },
{
    search_from_finds_first(vault_seeds(authority, name), program_id, 255);
}

/// Every name within the name limit, under any authority, makes seeds that
/// the ledger takes for a program address; so creating such a vault fails
/// only where no discriminant gives an address.
pub proof fn valid_names_fit_seeds(authority: Identity, name: Seq<char>)
    requires
        name_bytes(name).len() <= MAX_NAME_LEN,
    ensures
        seeds_fit(vault_seeds(authority@, name).push(seq![255u8])),
{
    let seeds = vault_seeds(authority@, name).push(seq![255u8]);
    assert(seeds[1].len() == 32);
    assert forall|i: int| 0 <= i < seeds.len() implies #[trigger] seeds[i].len() <= MAX_SEED_LEN by {
        if i == 0 {
            assert(seeds[0] == vault_tag());
        }
    }
}

} // verus!
