use unit09_registry::address::Address;
use unit09_registry::config::{Config, Lifecycle};
use unit09_registry::errors::Unit09Error;
use unit09_registry::events::Event;
use unit09_registry::initialize::{self, InitializeArgs};
use unit09_registry::link::ModuleRepoLink;
use unit09_registry::link_module_to_repo::{self, LinkModuleToRepoArgs};
use unit09_registry::metrics::Metrics;
use unit09_registry::module::Module;
use unit09_registry::register_module::{self, RegisterModuleArgs};
use unit09_registry::register_repo::{self, RegisterRepoArgs};
use unit09_registry::repo::Repo;
use unit09_registry::set_config::{self, SetConfigArgs};
use unit09_registry::update_module::{self, UpdateModuleArgs};
use unit09_registry::update_repo::{self, UpdateRepoArgs};

fn addr(b: u8) -> Address {
    Address { bytes: [b; 32] }
}

const ADMIN: u8 = 1;
const OWNER: u8 = 2;
const STRANGER: u8 = 3;
const REPO_ADDR: u8 = 10;
const MODULE_ADDR: u8 = 20;

fn bootstrap(fee_bps: u16, max_modules: u32) -> (Config, Lifecycle, Metrics) {
    let (config, lifecycle, metrics, events) = initialize::handle(
        addr(ADMIN),
        InitializeArgs { fee_bps, max_modules_per_repo: max_modules },
        100,
    )
    .unwrap();
    assert_eq!(events.len(), 1);
    (config, lifecycle, metrics)
}

fn repo_args(url: &str) -> RegisterRepoArgs {
    RegisterRepoArgs {
        repo_key: addr(9),
        name: "r1".to_string(),
        url: url.to_string(),
        tags: "solana,anchor".to_string(),
        allow_observation: true,
    }
}

fn module_args(version: (u16, u16, u16), snapshot: bool, label: &str) -> RegisterModuleArgs {
    RegisterModuleArgs {
        module_key: addr(19),
        name: "m1".to_string(),
        metadata_uri: "ipfs://manifest".to_string(),
        category: "library".to_string(),
        tags: String::new(),
        version,
        version_label: label.to_string(),
        changelog_uri: String::new(),
        is_stable: true,
        create_initial_version_snapshot: snapshot,
    }
}

fn registered_repo(config: &Config, lifecycle: &Lifecycle, metrics: &mut Metrics) -> Repo {
    let (repo, _) = register_repo::handle(
        lifecycle,
        config,
        metrics,
        addr(REPO_ADDR),
        addr(OWNER),
        repo_args("https://example.com/r1"),
        110,
    )
    .unwrap();
    repo
}

fn registered_module(
    config: &Config,
    lifecycle: &Lifecycle,
    metrics: &mut Metrics,
    repo: &mut Repo,
) -> Module {
    let (module, _, _) = register_module::handle(
        lifecycle,
        config,
        metrics,
        repo,
        addr(REPO_ADDR),
        addr(MODULE_ADDR),
        addr(OWNER),
        module_args((1, 0, 0), false, ""),
        120,
    )
    .unwrap();
    module
}

fn no_repo_update() -> UpdateRepoArgs {
    UpdateRepoArgs { name: None, url: None, tags: None, is_active: None, allow_observation: None }
}

fn no_module_update() -> UpdateModuleArgs {
    UpdateModuleArgs {
        name: None,
        metadata_uri: None,
        category: None,
        tags: None,
        is_active: None,
        is_deprecated: None,
        new_version: None,
        create_version_snapshot: false,
        version_label: None,
        changelog_uri: None,
        is_stable: None,
    }
}

#[test]
fn bootstrap_register_repo_and_module_with_snapshot() {
    let (config, lifecycle, mut metrics) = bootstrap(250, 10);
    assert_eq!(config.fee_bps, 250);
    assert_eq!(config.max_modules_per_repo, 10);
    let (mut repo, repo_events) = register_repo::handle(
        &lifecycle,
        &config,
        &mut metrics,
        addr(REPO_ADDR),
        addr(OWNER),
        repo_args("https://example.com/r1"),
        110,
    )
    .unwrap();
    assert_eq!(repo.url, "https://example.com/r1");
    assert!(matches!(&repo_events[0], Event::RepoRegistered(e) if e.url == "https://example.com/r1"));
    let (module, snapshot, events) = register_module::handle(
        &lifecycle,
        &config,
        &mut metrics,
        &mut repo,
        addr(REPO_ADDR),
        addr(MODULE_ADDR),
        addr(OWNER),
        module_args((1, 0, 0), true, "v1"),
        120,
    )
    .unwrap();
    assert_eq!(metrics.total_repos, 1);
    assert_eq!(metrics.total_modules, 1);
    assert_eq!(repo.module_count, 1);
    assert_eq!((module.major_version, module.minor_version, module.patch_version), (1, 0, 0));
    let snapshot = snapshot.expect("one version record");
    assert_eq!(snapshot.module(), addr(MODULE_ADDR));
    assert_eq!(snapshot.version(), (1, 0, 0));
    assert_eq!(snapshot.label(), "v1");
    assert_eq!(snapshot.metadata_uri(), "ipfs://manifest");
    assert_eq!(events.len(), 2);
    assert!(matches!(&events[0], Event::ModuleRegistered(e) if e.module == addr(MODULE_ADDR)));
    assert!(matches!(&events[1], Event::ModuleVersionRegistered(e)
        if (e.major_version, e.minor_version, e.patch_version) == (1, 0, 0) && e.is_stable));
}

#[test]
fn deactivating_repo_notifies_twice_and_blocks_modules() {
    let (config, lifecycle, mut metrics) = bootstrap(250, 10);
    let mut repo = registered_repo(&config, &lifecycle, &mut metrics);
    let mut args = no_repo_update();
    args.is_active = Some(false);
    let events =
        update_repo::handle(&lifecycle, &config, &mut repo, addr(REPO_ADDR), addr(OWNER), args, 130)
            .unwrap();
    assert_eq!(events.len(), 2);
    assert_eq!(events.iter().filter(|e| matches!(e, Event::RepoUpdated(_))).count(), 1);
    assert_eq!(
        events.iter().filter(|e| matches!(e, Event::RepoActivationChanged(c) if !c.is_active)).count(),
        1
    );
    let before = metrics.total_modules;
    let r = register_module::handle(
        &lifecycle,
        &config,
        &mut metrics,
        &mut repo,
        addr(REPO_ADDR),
        addr(MODULE_ADDR),
        addr(OWNER),
        module_args((1, 0, 0), false, ""),
        140,
    );
    assert_eq!(r.err(), Some(Unit09Error::RepoInactive));
    assert_eq!(metrics.total_modules, before);
    assert_eq!(repo.module_count, 0);
}

#[test]
fn update_repo_without_flip_notifies_once() {
    let (config, lifecycle, mut metrics) = bootstrap(250, 10);
    let mut repo = registered_repo(&config, &lifecycle, &mut metrics);
    let mut args = no_repo_update();
    args.url = Some("https://example.com/moved".to_string());
    args.is_active = Some(true);
    let events =
        update_repo::handle(&lifecycle, &config, &mut repo, addr(REPO_ADDR), addr(OWNER), args, 130)
            .unwrap();
    assert_eq!(events.len(), 1);
    assert!(matches!(&events[0], Event::RepoUpdated(e) if e.url == "https://example.com/moved"));
    assert_eq!(repo.name, "r1");
    assert_eq!(repo.updated_at, 130);
}

#[test]
fn update_repo_by_stranger_is_refused() {
    let (config, lifecycle, mut metrics) = bootstrap(250, 10);
    let mut repo = registered_repo(&config, &lifecycle, &mut metrics);
    let mut args = no_repo_update();
    args.name = Some("taken".to_string());
    let r = update_repo::handle(&lifecycle, &config, &mut repo, addr(REPO_ADDR), addr(STRANGER), args, 130);
    assert_eq!(r.err(), Some(Unit09Error::InvalidAuthority));
    assert_eq!(repo.name, "r1");
}

#[test]
fn fee_above_range_is_refused_and_config_unchanged() {
    let (mut config, _, _) = bootstrap(250, 10);
    let args = SetConfigArgs { fee_bps: Some(10001), max_modules_per_repo: Some(5), is_active: None, policy_ref: None };
    let r = set_config::handle(&mut config, addr(ADMIN), args, 200);
    assert_eq!(r.err(), Some(Unit09Error::InvalidFeeBps));
    assert_eq!(config.fee_bps, 250);
    assert_eq!(config.max_modules_per_repo, 10);
    assert_eq!(config.updated_at, 100);
    let args = SetConfigArgs { fee_bps: Some(10000), max_modules_per_repo: None, is_active: None, policy_ref: None };
    let events = set_config::handle(&mut config, addr(ADMIN), args, 210).unwrap();
    assert_eq!(config.fee_bps, 10000);
    assert_eq!(config.max_modules_per_repo, 10);
    assert!(matches!(&events[0], Event::ConfigUpdated(e) if e.fee_bps == 10000));
}

#[test]
fn set_config_needs_admin_and_positive_cap() {
    let (mut config, _, _) = bootstrap(250, 10);
    let args = SetConfigArgs { fee_bps: Some(1), max_modules_per_repo: None, is_active: None, policy_ref: None };
    assert_eq!(set_config::handle(&mut config, addr(STRANGER), args, 200).err(), Some(Unit09Error::InvalidAdmin));
    let args = SetConfigArgs { fee_bps: None, max_modules_per_repo: Some(0), is_active: None, policy_ref: None };
    assert_eq!(set_config::handle(&mut config, addr(ADMIN), args, 200).err(), Some(Unit09Error::ValueOutOfRange));
    assert_eq!(config.fee_bps, 250);
}

#[test]
fn bootstrap_rejects_bad_limits() {
    let r = initialize::handle(addr(ADMIN), InitializeArgs { fee_bps: 10001, max_modules_per_repo: 1 }, 0);
    assert_eq!(r.err(), Some(Unit09Error::InvalidFeeBps));
    let r = initialize::handle(addr(ADMIN), InitializeArgs { fee_bps: 0, max_modules_per_repo: 0 }, 0);
    assert_eq!(r.err(), Some(Unit09Error::ValueOutOfRange));
}

#[test]
fn repeated_link_keeps_one_record() {
    let (config, lifecycle, mut metrics) = bootstrap(250, 10);
    let mut repo = registered_repo(&config, &lifecycle, &mut metrics);
    let module = registered_module(&config, &lifecycle, &mut metrics, &mut repo);
    let mut link: Option<ModuleRepoLink> = None;
    let first = LinkModuleToRepoArgs { is_primary: true, notes: "first".to_string() };
    link_module_to_repo::handle(&lifecycle, &config, &repo, &module, &mut link, addr(REPO_ADDR), addr(MODULE_ADDR), addr(OWNER), first, 300)
        .unwrap();
    let second = LinkModuleToRepoArgs { is_primary: false, notes: "second".to_string() };
    let events = link_module_to_repo::handle(&lifecycle, &config, &repo, &module, &mut link, addr(REPO_ADDR), addr(MODULE_ADDR), addr(OWNER), second, 310)
        .unwrap();
    let l = link.expect("one link");
    assert_eq!(l.module, addr(MODULE_ADDR));
    assert_eq!(l.repo, addr(REPO_ADDR));
    assert_eq!(l.created_at, 300);
    assert_eq!(l.updated_at, 310);
    assert_eq!(l.notes, "second");
    assert!(!l.is_primary);
    assert!(matches!(&events[0], Event::ModuleLinkedToRepo(e) if e.updated_at == 310));
}

#[test]
fn link_by_stranger_or_long_notes_is_refused() {
    let (config, lifecycle, mut metrics) = bootstrap(250, 10);
    let mut repo = registered_repo(&config, &lifecycle, &mut metrics);
    let module = registered_module(&config, &lifecycle, &mut metrics, &mut repo);
    let mut link: Option<ModuleRepoLink> = None;
    let args = LinkModuleToRepoArgs { is_primary: true, notes: String::new() };
    let r = link_module_to_repo::handle(&lifecycle, &config, &repo, &module, &mut link, addr(REPO_ADDR), addr(MODULE_ADDR), addr(STRANGER), args, 300);
    assert_eq!(r.err(), Some(Unit09Error::InvalidAuthority));
    let args = LinkModuleToRepoArgs { is_primary: true, notes: "n".repeat(257) };
    let r = link_module_to_repo::handle(&lifecycle, &config, &repo, &module, &mut link, addr(REPO_ADDR), addr(MODULE_ADDR), addr(OWNER), args, 300);
    assert_eq!(r.err(), Some(Unit09Error::StringTooLong));
    assert!(link.is_none());
}

#[test]
fn snapshot_is_untouched_by_module_updates_and_deprecates_once() {
    let (config, lifecycle, mut metrics) = bootstrap(250, 10);
    let mut repo = registered_repo(&config, &lifecycle, &mut metrics);
    let (mut module, snapshot, _) = register_module::handle(
        &lifecycle, &config, &mut metrics, &mut repo, addr(REPO_ADDR), addr(MODULE_ADDR), addr(OWNER),
        module_args((1, 0, 0), true, "v1"), 120,
    )
    .unwrap();
    let mut snapshot = snapshot.unwrap();
    let mut args = no_module_update();
    args.metadata_uri = Some("https://example.com/m1.json".to_string());
    args.name = Some("renamed".to_string());
    update_module::handle(&lifecycle, &config, &repo, &mut module, addr(REPO_ADDR), addr(MODULE_ADDR), addr(OWNER), args, 150)
        .unwrap();
    assert_eq!(module.name, "renamed");
    assert_eq!(snapshot.metadata_uri(), "ipfs://manifest");
    assert_eq!(snapshot.label(), "v1");
    assert_eq!(snapshot.created_by(), addr(OWNER));
    assert_eq!(snapshot.created_at(), 120);
    assert!(snapshot.deprecate(160).is_ok());
    assert!(snapshot.is_deprecated());
    assert_eq!(snapshot.deprecated_at(), 160);
    assert_eq!(snapshot.deprecate(170), Err(Unit09Error::AlreadyDeprecated));
    assert_eq!(snapshot.deprecated_at(), 160);
    assert_eq!(snapshot.version(), (1, 0, 0));
}

#[test]
fn update_module_with_version_bump_creates_snapshot() {
    let (config, lifecycle, mut metrics) = bootstrap(250, 10);
    let mut repo = registered_repo(&config, &lifecycle, &mut metrics);
    let mut module = registered_module(&config, &lifecycle, &mut metrics, &mut repo);
    let mut args = no_module_update();
    args.new_version = Some((1, 1, 0));
    args.create_version_snapshot = true;
    args.version_label = Some("rc1".to_string());
    args.is_active = Some(false);
    let (snapshot, events) = update_module::handle(&lifecycle, &config, &repo, &mut module, addr(REPO_ADDR), addr(MODULE_ADDR), addr(OWNER), args, 150)
        .unwrap();
    let snapshot = snapshot.unwrap();
    assert_eq!(snapshot.version(), (1, 1, 0));
    assert_eq!(snapshot.label(), "rc1");
    assert_eq!(snapshot.changelog_uri(), "");
    assert!(!snapshot.is_stable());
    assert_eq!((module.major_version, module.minor_version, module.patch_version), (1, 1, 0));
    assert_eq!(events.len(), 2);
    assert!(matches!(&events[0], Event::ModuleUpdated(e)
        if e.previous_minor_version == 0 && e.new_minor_version == 1 && e.previous_is_active && !e.new_is_active));
    assert!(matches!(&events[1], Event::ModuleVersionRegistered(_)));
}

#[test]
fn update_module_snapshot_needs_version() {
    let (config, lifecycle, mut metrics) = bootstrap(250, 10);
    let mut repo = registered_repo(&config, &lifecycle, &mut metrics);
    let mut module = registered_module(&config, &lifecycle, &mut metrics, &mut repo);
    let mut args = no_module_update();
    args.create_version_snapshot = true;
    args.name = Some("kept-out".to_string());
    let r = update_module::handle(&lifecycle, &config, &repo, &mut module, addr(REPO_ADDR), addr(MODULE_ADDR), addr(OWNER), args, 150);
    assert_eq!(r.err(), Some(Unit09Error::ValueOutOfRange));
    assert_eq!(module.name, "m1");
    let mut args = no_module_update();
    args.new_version = Some((0, 0, 0));
    let r = update_module::handle(&lifecycle, &config, &repo, &mut module, addr(REPO_ADDR), addr(MODULE_ADDR), addr(OWNER), args, 150);
    assert_eq!(r.err(), Some(Unit09Error::ValueOutOfRange));
    let mut args = no_module_update();
    args.is_active = Some(false);
    let r = update_module::handle(&lifecycle, &config, &repo, &mut module, addr(99), addr(MODULE_ADDR), addr(OWNER), args, 150);
    assert_eq!(r.err(), Some(Unit09Error::InvalidPda));
    assert!(module.is_active);
}

#[test]
fn register_module_validation_errors() {
    let (config, lifecycle, mut metrics) = bootstrap(250, 10);
    let mut repo = registered_repo(&config, &lifecycle, &mut metrics);
    let cases: Vec<(RegisterModuleArgs, Unit09Error)> = vec![
        ({ let mut a = module_args((1, 0, 0), false, ""); a.name = String::new(); a }, Unit09Error::StringEmpty),
        ({ let mut a = module_args((1, 0, 0), false, ""); a.metadata_uri = "ftp://x".to_string(); a }, Unit09Error::MetadataInvalid),
        ({ let mut a = module_args((1, 0, 0), false, ""); a.category = "c".repeat(33); a }, Unit09Error::StringTooLong),
        (module_args((0, 0, 0), false, ""), Unit09Error::ValueOutOfRange),
        ({ let mut a = module_args((1, 0, 0), true, ""); a.changelog_uri = "notes.txt".to_string(); a }, Unit09Error::MetadataInvalid),
        (module_args((1, 0, 0), true, &"l".repeat(65)), Unit09Error::StringTooLong),
    ];
    for (args, expected) in cases {
        let r = register_module::handle(&lifecycle, &config, &mut metrics, &mut repo, addr(REPO_ADDR), addr(MODULE_ADDR), addr(OWNER), args, 120);
        assert_eq!(r.err(), Some(expected));
    }
    assert_eq!(metrics.total_modules, 0);
    let r = register_module::handle(&lifecycle, &config, &mut metrics, &mut repo, addr(REPO_ADDR), addr(MODULE_ADDR), addr(STRANGER), module_args((1, 0, 0), false, ""), 120);
    assert_eq!(r.err(), Some(Unit09Error::InvalidAuthority));
}

#[test]
fn module_cap_per_repo_is_enforced() {
    let (config, lifecycle, mut metrics) = bootstrap(250, 2);
    let mut repo = registered_repo(&config, &lifecycle, &mut metrics);
    registered_module(&config, &lifecycle, &mut metrics, &mut repo);
    registered_module(&config, &lifecycle, &mut metrics, &mut repo);
    let r = register_module::handle(&lifecycle, &config, &mut metrics, &mut repo, addr(REPO_ADDR), addr(MODULE_ADDR), addr(OWNER), module_args((1, 0, 0), false, ""), 120);
    assert_eq!(r.err(), Some(Unit09Error::ValueOutOfRange));
    assert_eq!(repo.module_count, 2);
    assert_eq!(metrics.total_modules, 2);
}

#[test]
fn global_guards_come_first() {
    let (mut config, mut lifecycle, mut metrics) = bootstrap(250, 10);
    lifecycle.writes_allowed = false;
    let r = register_repo::handle(&lifecycle, &config, &mut metrics, addr(REPO_ADDR), addr(OWNER), repo_args(""), 110);
    assert_eq!(r.err(), Some(Unit09Error::WritesDisabled));
    lifecycle.writes_allowed = true;
    config.is_active = false;
    let r = register_repo::handle(&lifecycle, &config, &mut metrics, addr(REPO_ADDR), addr(OWNER), repo_args(""), 110);
    assert_eq!(r.err(), Some(Unit09Error::DeploymentInactive));
    config.is_active = true;
    let r = register_repo::handle(&lifecycle, &config, &mut metrics, addr(REPO_ADDR), addr(OWNER), repo_args(""), 110);
    assert_eq!(r.err(), Some(Unit09Error::StringEmpty));
    assert_eq!(metrics.total_repos, 0);
}

#[test]
fn names_are_bounded_in_bytes() {
    let (config, lifecycle, mut metrics) = bootstrap(250, 10);
    let mut args = repo_args("https://example.com/r1");
    args.name = "é".repeat(33);
    let r = register_repo::handle(&lifecycle, &config, &mut metrics, addr(REPO_ADDR), addr(OWNER), args, 110);
    assert_eq!(r.err(), Some(Unit09Error::StringTooLong));
    let mut args = repo_args("https://example.com/r1");
    args.name = "é".repeat(32);
    assert!(register_repo::handle(&lifecycle, &config, &mut metrics, addr(REPO_ADDR), addr(OWNER), args, 110).is_ok());
}

#[test]
fn repo_counter_overflow_refuses_registration() {
    let (config, lifecycle, mut metrics) = bootstrap(250, 10);
    metrics.total_repos = u64::MAX;
    let r = register_repo::handle(&lifecycle, &config, &mut metrics, addr(REPO_ADDR), addr(OWNER), repo_args("https://example.com/r1"), 110);
    assert_eq!(r.err(), Some(Unit09Error::CounterOverflow));
    assert_eq!(metrics.total_repos, u64::MAX);
}
