//! Properties that hold across calls and for all inputs, proved over the
//! spec functions that the operations' contracts use.
use vstd::prelude::*;

use crate::address::Address;
use crate::config::{config_after_update, config_update_error, gate_error, Config, Lifecycle};
use crate::constants::{MAX_FILES_PER_OBSERVATION, MAX_LOC_PER_OBSERVATION};
use crate::errors::Unit09Error;
use crate::link::ModuleRepoLink;
use crate::link_module_to_repo::{linked, LinkModuleToRepoArgs};
use crate::metrics::{observation_error, Metrics};
use crate::module_version::{deprecation, same_core, ModuleVersionView};
use crate::register_module::{register_module_error, RegisterModuleArgs};
use crate::repo::Repo;
use crate::seeds::module_repo_link_seed_list;

verus! {

/// A configuration update never commits a fee outside 0..=10000 basis
/// points: a fee above 10000 is refused (and a refused update changes
/// nothing), and an accepted update of a well-formed configuration leaves
/// it well-formed.
pub proof fn fee_stays_in_range(
    config: Config,
    signer: Address,
    fee_bps: Option<u16>,
    max_modules_per_repo: Option<u32>,
    is_active: Option<bool>,
    policy_ref: Option<[u8; 32]>,
    now: i64,
)
    requires
        config.wf(),
    ensures
        fee_bps matches Some(f) && f > 10000 ==> config_update_error(
            config,
            signer,
            fee_bps,
            max_modules_per_repo,
        ) is Some,
        config_update_error(config, signer, fee_bps, max_modules_per_repo) is None ==> {
            let after = config_after_update(
                config,
                fee_bps,
                max_modules_per_repo,
                is_active,
                policy_ref,
                now,
            );
            &&& after.wf()
            &&& after.fee_bps <= 10000
        },
{
}

/// Repeating a link request for the same module and repository keeps one
/// record: whatever the second request's notes, flag, caller and time, the
/// record keeps its module, repository and creation time, and its update
/// time becomes the later request's time.
pub proof fn link_upsert_converges(
    before: Option<ModuleRepoLink>,
    module_address: Address,
    repo_address: Address,
    first_caller: Address,
    first_args: LinkModuleToRepoArgs,
    first_now: i64,
    second_caller: Address,
    second_args: LinkModuleToRepoArgs,
    second_now: i64,
)
    requires
        before matches Some(l) ==> l.module == module_address && l.repo == repo_address,
        first_now <= second_now,
    ensures
        ({
            let first = linked(before, module_address, repo_address, first_caller, first_args, first_now);
            let second = linked(
                Some(first),
                module_address,
                repo_address,
                second_caller,
                second_args,
                second_now,
            );
            &&& first.module == module_address && first.repo == repo_address
            &&& second.module == module_address && second.repo == repo_address
            &&& second.created_at == first.created_at
            &&& before matches Some(l) ==> first.created_at == l.created_at
            &&& second.updated_at == second_now
            &&& second.updated_at >= first.updated_at
            &&& second.notes == second_args.notes && second.is_primary == second_args.is_primary
        }),
{
}

/// The address of a link is a function of its (module, repository) pair
/// alone, and distinct pairs have distinct seed lists: one address, so one
/// record, per pair.
pub proof fn link_seeds_identify_pair(
    module_a: Address,
    repo_a: Address,
    module_b: Address,
    repo_b: Address,
)
    ensures
        (module_repo_link_seed_list(module_a@, repo_a@) == module_repo_link_seed_list(
            module_b@,
            repo_b@,
        )) <==> (module_a == module_b && repo_a == repo_b),
{
    if module_repo_link_seed_list(module_a@, repo_a@) == module_repo_link_seed_list(
        module_b@,
        repo_b@,
    ) {
        assert(module_repo_link_seed_list(module_a@, repo_a@)[1] == module_a@);
        assert(module_repo_link_seed_list(module_b@, repo_b@)[1] == module_b@);
        assert(module_repo_link_seed_list(module_a@, repo_a@)[2] == repo_a@);
        assert(module_repo_link_seed_list(module_b@, repo_b@)[2] == repo_b@);
        assert(module_a.bytes =~= module_b.bytes);
        assert(repo_a.bytes =~= repo_b.bytes);
    }
}

/// Deprecation changes a snapshot once and only in its status: the first
/// call keeps every core field, and a second call on the result is refused
/// with `AlreadyDeprecated`.
pub proof fn deprecation_happens_once(v: ModuleVersionView, first_now: i64, second_now: i64)
    ensures
        deprecation(v, first_now) matches Ok(after) ==> {
            &&& same_core(v, after)
            &&& after.is_deprecated
            &&& deprecation(after, second_now) == Err::<ModuleVersionView, Unit09Error>(
                Unit09Error::AlreadyDeprecated,
            )
        },
        v.is_deprecated ==> deprecation(v, first_now) == Err::<ModuleVersionView, Unit09Error>(
            Unit09Error::AlreadyDeprecated,
        ),
{
}

/// Once the global guards pass, registering a module under an inactive
/// repository is refused with `RepoInactive` (a refused registration
/// leaves the counters unchanged).
pub proof fn inactive_repo_refuses_modules(
    lifecycle: Lifecycle,
    config: Config,
    metrics: Metrics,
    repo: Repo,
    authority: Address,
    args: RegisterModuleArgs,
)
    requires
        !repo.is_active,
        gate_error(lifecycle, config) is None,
    ensures
        register_module_error(lifecycle, config, metrics, repo, authority, args) == Some(
            Unit09Error::RepoInactive,
        ),
{
}

/// An observation within the per-observation limits is refused with
/// `CounterOverflow` when the observation counter is at its maximum.
pub proof fn observation_counter_never_wraps(metrics: Metrics, lines_of_code: u64, files_processed: u32)
    requires
        metrics.total_observations == u64::MAX,
        lines_of_code <= MAX_LOC_PER_OBSERVATION,
        files_processed <= MAX_FILES_PER_OBSERVATION,
    ensures
        observation_error(metrics, lines_of_code, files_processed) == Some(
            Unit09Error::CounterOverflow,
        ),
{
}

} // verus!
