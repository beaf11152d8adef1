//! Deterministic addresses of records, derived from a typed seed list and
//! the program id.
//!
//! A seed list starts with the record kind's tag and continues with the
//! owning keys; the derivation appends a one-byte bump.
use vstd::prelude::*;
use vstd::slice::slice_to_vec;
use vstd::string::StringSliceAdditionalSpecFns;

use solana_program::pubkey::Pubkey;

use crate::address::Address;
use crate::constants::{
    AUTHORITY_SEED, CONFIG_SEED, FORK_SEED, GLOBAL_METADATA_SEED, LIFECYCLE_SEED, METRICS_SEED,
    MODULE_REPO_LINK_SEED, MODULE_SEED, MODULE_VERSION_SEED, REPO_SEED,
};
use crate::errors::Unit09Error;

verus! {

/// The program address and bump derived from a seed list and a program id,
/// or `None` when no address can be derived from them.
pub uninterp spec fn program_address_of(seeds: Seq<Seq<u8>>, program_id: Seq<u8>) -> Option<
    (Seq<u8>, u8),
>;

/// Whether a seed list is within the derivation's limits: at most 15 seeds
/// (the bump makes 16), each of at most 32 bytes.
pub open spec fn seeds_within_limits(seeds: Seq<Seq<u8>>) -> bool {
    seeds.len() <= 15 && forall|i: int| 0 <= i < seeds.len() ==> #[trigger] seeds[i].len() <= 32
}

/// Whether `r` is what the derivation gives for `seeds` and `program_id`.
pub open spec fn derived(r: Option<(Address, u8)>, seeds: Seq<Seq<u8>>, program_id: Seq<u8>) -> bool {
    match r {
        Some((a, bump)) => program_address_of(seeds, program_id) == Some((a@, bump)),
        None => program_address_of(seeds, program_id) is None,
    }
}

/// Relies on solana_program's `Pubkey::try_find_program_address`: the
/// address and bump it finds depend on the seeds and the program id alone,
/// and it returns `None` when the seeds exceed the limits of
/// `create_program_address` (more than 15 seeds, or a seed over 32 bytes).
#[verifier::external_body]
fn try_find_program_address(seeds: &Vec<Vec<u8>>, program_id: &Address) -> (r: Option<(Address, u8)>)
    ensures
        match r {
            Some((a, bump)) => program_address_of(seeds.deep_view(), program_id@) == Some(
                (a@, bump),
            ),
            None => program_address_of(seeds.deep_view(), program_id@) is None,
        },
        !seeds_within_limits(seeds.deep_view()) ==> r is None,
{
    let mut refs: Vec<&[u8]> = Vec::new();
    for s in seeds.iter() {
        refs.push(s.as_slice());
    }
    match Pubkey::try_find_program_address(&refs, &Pubkey::new_from_array(program_id.bytes)) {
        Some((key, bump)) => Some((Address { bytes: key.to_bytes() }, bump)),
        None => None,
    }
}

/// The little-endian bytes of a `u16`.
pub open spec fn le_bytes_u16(v: u16) -> Seq<u8> {
    seq![(v % 256) as u8, (v / 256) as u8]
}

/// Seeds of the configuration record.
pub open spec fn config_seed_list() -> Seq<Seq<u8>> {
    seq![CONFIG_SEED.spec_bytes()]
}

/// Seeds of the lifecycle record.
pub open spec fn lifecycle_seed_list() -> Seq<Seq<u8>> {
    seq![LIFECYCLE_SEED.spec_bytes()]
}

/// Seeds of the metrics record.
pub open spec fn metrics_seed_list() -> Seq<Seq<u8>> {
    seq![METRICS_SEED.spec_bytes()]
}

/// Seeds of the global metadata record.
pub open spec fn global_metadata_seed_list() -> Seq<Seq<u8>> {
    seq![GLOBAL_METADATA_SEED.spec_bytes()]
}

/// Seeds of an authority record.
pub open spec fn authority_seed_list(authority: Seq<u8>) -> Seq<Seq<u8>> {
    seq![AUTHORITY_SEED.spec_bytes(), authority]
}

/// Seeds of a repository, by its key.
pub open spec fn repo_seed_list(repo_key: Seq<u8>) -> Seq<Seq<u8>> {
    seq![REPO_SEED.spec_bytes(), repo_key]
}

/// Seeds of a module, by its repository's address and its key.
pub open spec fn module_seed_list(repo: Seq<u8>, module_key: Seq<u8>) -> Seq<Seq<u8>> {
    seq![MODULE_SEED.spec_bytes(), repo, module_key]
}

/// Seeds of a module version snapshot, by module address and version.
pub open spec fn module_version_seed_list(module: Seq<u8>, major: u16, minor: u16, patch: u16) -> Seq<
    Seq<u8>,
> {
    seq![
        MODULE_VERSION_SEED.spec_bytes(),
        module,
        le_bytes_u16(major),
        le_bytes_u16(minor),
        le_bytes_u16(patch),
    ]
}

/// Seeds of a fork, by its key.
pub open spec fn fork_seed_list(fork_key: Seq<u8>) -> Seq<Seq<u8>> {
    seq![FORK_SEED.spec_bytes(), fork_key]
}

/// Seeds of the link between a module and a repository.
pub open spec fn module_repo_link_seed_list(module: Seq<u8>, repo: Seq<u8>) -> Seq<Seq<u8>> {
    seq![MODULE_REPO_LINK_SEED.spec_bytes(), module, repo]
}

/// A seed list followed by its bump.
pub open spec fn with_bump(seeds: Seq<Seq<u8>>, bump: u8) -> Seq<Seq<u8>> {
    seeds.push(seq![bump])
}

/// A byte vector's deep view is its view.
proof fn lemma_bytes_deep_view(v: Vec<u8>)
    ensures
        v.deep_view() == v@,
{
    assert(v.deep_view() =~= v@);
}

fn tag_bytes(tag: &str) -> (r: Vec<u8>)
    ensures
        r@ == tag.spec_bytes(),
{
    slice_to_vec(tag.as_bytes())
}

fn address_bytes(a: &Address) -> (r: Vec<u8>)
    ensures
        r@ == a@,
{
    let mut r: Vec<u8> = Vec::new();
    let mut i: usize = 0;
    while i < 32
        invariant
            0 <= i <= 32,
            r@ == a@.subrange(0, i as int),
        decreases 32 - i,
    {
        r.push(a.bytes[i]);
        i = i + 1;
        assert(r@ =~= a@.subrange(0, i as int));
    }
    assert(a@.subrange(0, 32) =~= a@);
    r
}

fn u16_le_bytes(v: u16) -> (r: Vec<u8>)
    ensures
        r@ == le_bytes_u16(v),
{
    let r = vec![(v % 256) as u8, (v / 256) as u8];
    assert(r@ =~= le_bytes_u16(v));
    r
}

fn push_bump(seeds: &mut Vec<Vec<u8>>, bump: u8)
    ensures
        final(seeds).deep_view() == with_bump(old(seeds).deep_view(), bump),
{
    let b = vec![bump];
    proof {
        lemma_bytes_deep_view(b);
    }
    assert(b@ =~= seq![bump]);
    seeds.push(b);
    assert(final(seeds).deep_view() =~= with_bump(old(seeds).deep_view(), bump));
}

fn one_seed(tag: &str) -> (r: Vec<Vec<u8>>)
    ensures
        r.deep_view() == seq![tag.spec_bytes()],
{
    let r = vec![tag_bytes(tag)];
    proof {
        lemma_bytes_deep_view(r[0]);
    }
    assert(r.deep_view() =~= seq![tag.spec_bytes()]);
    r
}

fn two_seeds(tag: &str, a: &Address) -> (r: Vec<Vec<u8>>)
    ensures
        r.deep_view() == seq![tag.spec_bytes(), a@],
{
    let r = vec![tag_bytes(tag), address_bytes(a)];
    proof {
        lemma_bytes_deep_view(r[0]);
        lemma_bytes_deep_view(r[1]);
    }
    assert(r.deep_view() =~= seq![tag.spec_bytes(), a@]);
    r
}

fn three_seeds(tag: &str, a: &Address, b: &Address) -> (r: Vec<Vec<u8>>)
    ensures
        r.deep_view() == seq![tag.spec_bytes(), a@, b@],
{
    let r = vec![tag_bytes(tag), address_bytes(a), address_bytes(b)];
    proof {
        lemma_bytes_deep_view(r[0]);
        lemma_bytes_deep_view(r[1]);
        lemma_bytes_deep_view(r[2]);
    }
    assert(r.deep_view() =~= seq![tag.spec_bytes(), a@, b@]);
    r
}

fn version_seeds(module: &Address, major: u16, minor: u16, patch: u16) -> (r: Vec<Vec<u8>>)
    ensures
        r.deep_view() == module_version_seed_list(module@, major, minor, patch),
{
    let r = vec![
        tag_bytes(MODULE_VERSION_SEED),
        address_bytes(module),
        u16_le_bytes(major),
        u16_le_bytes(minor),
        u16_le_bytes(patch),
    ];
    proof {
        lemma_bytes_deep_view(r[0]);
        lemma_bytes_deep_view(r[1]);
        lemma_bytes_deep_view(r[2]);
        lemma_bytes_deep_view(r[3]);
        lemma_bytes_deep_view(r[4]);
    }
    assert(r.deep_view() =~= module_version_seed_list(module@, major, minor, patch));
    r
}

/// Address of the configuration record.
pub fn config_pda(program_id: &Address) -> (r: Option<(Address, u8)>)
    ensures
        derived(r, config_seed_list(), program_id@),
{
    try_find_program_address(&one_seed(CONFIG_SEED), program_id)
}

/// Seeds of the configuration record, with its bump.
pub fn config_seeds(bump: u8) -> (r: Vec<Vec<u8>>)
    ensures
        r.deep_view() == with_bump(config_seed_list(), bump),
{
    let mut r = one_seed(CONFIG_SEED);
    push_bump(&mut r, bump);
    r
}

/// Address of the lifecycle record.
pub fn lifecycle_pda(program_id: &Address) -> (r: Option<(Address, u8)>)
    ensures
        derived(r, lifecycle_seed_list(), program_id@),
{
    try_find_program_address(&one_seed(LIFECYCLE_SEED), program_id)
}

/// Seeds of the lifecycle record, with its bump.
pub fn lifecycle_seeds(bump: u8) -> (r: Vec<Vec<u8>>)
    ensures
        r.deep_view() == with_bump(lifecycle_seed_list(), bump),
{
    let mut r = one_seed(LIFECYCLE_SEED);
    push_bump(&mut r, bump);
    r
}

/// Address of the metrics record.
pub fn metrics_pda(program_id: &Address) -> (r: Option<(Address, u8)>)
    ensures
        derived(r, metrics_seed_list(), program_id@),
{
    try_find_program_address(&one_seed(METRICS_SEED), program_id)
}

/// Seeds of the metrics record, with its bump.
pub fn metrics_seeds(bump: u8) -> (r: Vec<Vec<u8>>)
    ensures
        r.deep_view() == with_bump(metrics_seed_list(), bump),
{
    let mut r = one_seed(METRICS_SEED);
    push_bump(&mut r, bump);
    r
}

/// Address of the global metadata record.
pub fn global_metadata_pda(program_id: &Address) -> (r: Option<(Address, u8)>)
    ensures
        derived(r, global_metadata_seed_list(), program_id@),
{
    try_find_program_address(&one_seed(GLOBAL_METADATA_SEED), program_id)
}

/// Seeds of the global metadata record, with its bump.
pub fn global_metadata_seeds(bump: u8) -> (r: Vec<Vec<u8>>)
    ensures
        r.deep_view() == with_bump(global_metadata_seed_list(), bump),
{
    let mut r = one_seed(GLOBAL_METADATA_SEED);
    push_bump(&mut r, bump);
    r
}

/// Address of an authority record.
pub fn authority_pda(program_id: &Address, authority: &Address) -> (r: Option<(Address, u8)>)
    ensures
        derived(r, authority_seed_list(authority@), program_id@),
{
    try_find_program_address(&two_seeds(AUTHORITY_SEED, authority), program_id)
}

/// Seeds of an authority record, with its bump.
pub fn authority_seeds(authority: &Address, bump: u8) -> (r: Vec<Vec<u8>>)
    ensures
        r.deep_view() == with_bump(authority_seed_list(authority@), bump),
{
    let mut r = two_seeds(AUTHORITY_SEED, authority);
    push_bump(&mut r, bump);
    r
}

/// Address of a repository.
pub fn repo_pda(program_id: &Address, repo_key: &Address) -> (r: Option<(Address, u8)>)
    ensures
        derived(r, repo_seed_list(repo_key@), program_id@),
{
    try_find_program_address(&two_seeds(REPO_SEED, repo_key), program_id)
}

/// Seeds of a repository, with its bump.
pub fn repo_seeds(repo_key: &Address, bump: u8) -> (r: Vec<Vec<u8>>)
    ensures
        r.deep_view() == with_bump(repo_seed_list(repo_key@), bump),
{
    let mut r = two_seeds(REPO_SEED, repo_key);
    push_bump(&mut r, bump);
    r
}

/// Address of a module, scoped under its repository's address.
pub fn module_pda(program_id: &Address, repo: &Address, module_key: &Address) -> (r: Option<
    (Address, u8),
>)
    ensures
        derived(r, module_seed_list(repo@, module_key@), program_id@),
{
    try_find_program_address(&three_seeds(MODULE_SEED, repo, module_key), program_id)
}

/// Seeds of a module, with its bump.
pub fn module_seeds(repo: &Address, module_key: &Address, bump: u8) -> (r: Vec<Vec<u8>>)
    ensures
        r.deep_view() == with_bump(module_seed_list(repo@, module_key@), bump),
{
    let mut r = three_seeds(MODULE_SEED, repo, module_key);
    push_bump(&mut r, bump);
    r
}

/// Address of a module version snapshot.
pub fn module_version_pda(program_id: &Address, module: &Address, major: u16, minor: u16, patch: u16) -> (r:
    Option<(Address, u8)>)
    ensures
        derived(r, module_version_seed_list(module@, major, minor, patch), program_id@),
{
    try_find_program_address(&version_seeds(module, major, minor, patch), program_id)
}

/// Seeds of a module version snapshot, with its bump.
pub fn module_version_seeds(module: &Address, major: u16, minor: u16, patch: u16, bump: u8) -> (r:
    Vec<Vec<u8>>)
    ensures
        r.deep_view() == with_bump(module_version_seed_list(module@, major, minor, patch), bump),
{
    let mut r = version_seeds(module, major, minor, patch);
    push_bump(&mut r, bump);
    r
}

/// Address of a fork.
pub fn fork_pda(program_id: &Address, fork_key: &Address) -> (r: Option<(Address, u8)>)
    ensures
        derived(r, fork_seed_list(fork_key@), program_id@),
{
    try_find_program_address(&two_seeds(FORK_SEED, fork_key), program_id)
}

/// Seeds of a fork, with its bump.
pub fn fork_seeds(fork_key: &Address, bump: u8) -> (r: Vec<Vec<u8>>)
    ensures
        r.deep_view() == with_bump(fork_seed_list(fork_key@), bump),
{
    let mut r = two_seeds(FORK_SEED, fork_key);
    push_bump(&mut r, bump);
    r
}

/// Address of the link between a module and a repository: one per pair.
pub fn module_repo_link_pda(program_id: &Address, module: &Address, repo: &Address) -> (r: Option<
    (Address, u8),
>)
    ensures
        derived(r, module_repo_link_seed_list(module@, repo@), program_id@),
{
    try_find_program_address(&three_seeds(MODULE_REPO_LINK_SEED, module, repo), program_id)
}

/// Seeds of the link between a module and a repository, with its bump.
pub fn module_repo_link_seeds(module: &Address, repo: &Address, bump: u8) -> (r: Vec<Vec<u8>>)
    ensures
        r.deep_view() == with_bump(module_repo_link_seed_list(module@, repo@), bump),
{
    let mut r = three_seeds(MODULE_REPO_LINK_SEED, module, repo);
    push_bump(&mut r, bump);
    r
}

/// Check that `account_key` is the address derived from `seeds`; on success
/// the bump of the derivation is returned.
pub fn assert_pda(account_key: &Address, seeds: &Vec<Vec<u8>>, program_id: &Address) -> (r: Result<
    u8,
    Unit09Error,
>)
    ensures
        match program_address_of(seeds.deep_view(), program_id@) {
            None => r == Err::<u8, Unit09Error>(Unit09Error::InternalError),
            Some((a, bump)) => r == if a == account_key@ {
                Ok::<u8, Unit09Error>(bump)
            } else {
                Err(Unit09Error::InvalidPda)
            },
        },
        !seeds_within_limits(seeds.deep_view()) ==> r == Err::<u8, Unit09Error>(
            Unit09Error::InternalError,
        ),
{
    match try_find_program_address(seeds, program_id) {
        None => Err(Unit09Error::InternalError),
        Some((expected, bump)) => {
            if expected.same(account_key) {
                Ok(bump)
            } else {
                Err(Unit09Error::InvalidPda)
            }
        },
    }
}

} // verus!
