use unit09_registry::address::Address;
use unit09_registry::config::{Config, GlobalMetadata, Lifecycle};
use unit09_registry::create_fork::{self, CreateForkArgs};
use unit09_registry::errors::Unit09Error;
use unit09_registry::events::Event;
use unit09_registry::metrics::Metrics;
use unit09_registry::module::Module;
use unit09_registry::record_metrics::{self, RecordMetricsArgs};
use unit09_registry::record_observation::{self, RecordObservationArgs};
use unit09_registry::seeds;
use unit09_registry::set_metadata::{self, SetMetadataArgs};
use unit09_registry::tags::assert_tags_reasonable;
use unit09_registry::update_fork_state::{self, UpdateForkStateArgs};
use unit09_registry::validators;

fn addr(b: u8) -> Address {
    Address { bytes: [b; 32] }
}

fn singletons() -> (Config, Lifecycle, Metrics) {
    let config = Config::new(addr(1), 250, 10, 0).unwrap();
    (config, Lifecycle::new(0), Metrics::init(0))
}

#[test]
fn counters_at_maximum_do_not_wrap() {
    let mut m = Metrics::init(5);
    m.total_repos = u64::MAX;
    m.total_modules = u64::MAX;
    m.total_forks = u64::MAX;
    assert_eq!(m.increment_repos(), Err(Unit09Error::CounterOverflow));
    assert_eq!(m.increment_modules(), Err(Unit09Error::CounterOverflow));
    assert_eq!(m.increment_forks(), Err(Unit09Error::CounterOverflow));
    assert_eq!(m.total_repos, u64::MAX);
    assert_eq!(m.total_modules, u64::MAX);
    assert_eq!(m.total_forks, u64::MAX);
}

#[test]
fn counters_do_not_go_below_zero() {
    let mut m = Metrics::init(5);
    assert_eq!(m.decrement_repos(), Err(Unit09Error::CounterOverflow));
    assert_eq!(m.decrement_modules(), Err(Unit09Error::CounterOverflow));
    assert_eq!(m.decrement_forks(), Err(Unit09Error::CounterOverflow));
    assert_eq!(m.increment_forks(), Ok(()));
    assert_eq!(m.decrement_forks(), Ok(()));
    assert_eq!(m.total_forks, 0);
}

#[test]
fn observation_counter_at_maximum_is_refused() {
    let mut m = Metrics::init(5);
    m.total_observations = u64::MAX;
    assert_eq!(m.record_observation(10, 2, 9), Err(Unit09Error::CounterOverflow));
    assert_eq!(m.total_lines_of_code, 0);
    assert_eq!(m.last_observation_at, 0);
}

#[test]
fn record_observation_aggregates_and_bounds() {
    let (config, lifecycle, mut metrics) = singletons();
    let args = RecordObservationArgs { lines_of_code: 1200, files_processed: 34 };
    let events = record_observation::handle(&lifecycle, &config, &mut metrics, addr(7), args, 50).unwrap();
    let args = RecordObservationArgs { lines_of_code: 300, files_processed: 6 };
    record_observation::handle(&lifecycle, &config, &mut metrics, addr(7), args, 60).unwrap();
    assert_eq!(metrics.total_observations, 2);
    assert_eq!(metrics.total_lines_of_code, 1500);
    assert_eq!(metrics.total_files_processed, 40);
    assert_eq!(metrics.last_observation_at, 60);
    assert!(matches!(&events[0], Event::ObservationRecorded(e) if e.lines_of_code == 1200 && e.observed_at == 50));
    let args = RecordObservationArgs { lines_of_code: 50000001, files_processed: 1 };
    let r = record_observation::handle(&lifecycle, &config, &mut metrics, addr(7), args, 70);
    assert_eq!(r.err(), Some(Unit09Error::ObservationDataTooLarge));
    let args = RecordObservationArgs { lines_of_code: 1, files_processed: 1000001 };
    let r = record_observation::handle(&lifecycle, &config, &mut metrics, addr(7), args, 70);
    assert_eq!(r.err(), Some(Unit09Error::ObservationDataTooLarge));
    assert_eq!(metrics.total_observations, 2);
}

#[test]
fn record_metrics_overwrites_given_counters() {
    let (config, lifecycle, mut metrics) = singletons();
    metrics.total_forks = 4;
    let args = RecordMetricsArgs {
        total_repos: Some(12),
        total_modules: None,
        total_forks: Some(1),
        total_observations: None,
        total_lines_of_code: Some(0),
        total_files_processed: None,
    };
    let events = record_metrics::handle(&lifecycle, &config, &mut metrics, args, 80).unwrap();
    assert_eq!(metrics.total_repos, 12);
    assert_eq!(metrics.total_forks, 1);
    assert_eq!(metrics.total_modules, 0);
    assert_eq!(metrics.updated_at, 80);
    assert!(matches!(&events[0], Event::MetricsUpdated(e) if e.total_repos == 12 && e.total_forks == 1));
    let s = metrics.summary();
    assert_eq!(s.total_repos, 12);
}

#[test]
fn forks_are_created_and_toggled_by_their_owner() {
    let (config, lifecycle, mut metrics) = singletons();
    let args = CreateForkArgs {
        fork_key: addr(30),
        parent: addr(31),
        label: "night-shift".to_string(),
        metadata_uri: String::new(),
    };
    let (mut fork, events) = create_fork::handle(&lifecycle, &config, &mut metrics, addr(32), addr(2), args, 10).unwrap();
    assert!(fork.is_active);
    assert_eq!(metrics.total_forks, 1);
    assert!(matches!(&events[0], Event::ForkCreated(e) if e.label == "night-shift" && e.fork == addr(32)));
    let args = UpdateForkStateArgs { is_active: Some(true), metadata_uri: Some("ar://tx".to_string()) };
    let events = update_fork_state::handle(&lifecycle, &config, &mut fork, addr(32), addr(2), args, 11).unwrap();
    assert!(events.is_empty());
    assert_eq!(fork.metadata_uri, "ar://tx");
    let args = UpdateForkStateArgs { is_active: Some(false), metadata_uri: None };
    let events = update_fork_state::handle(&lifecycle, &config, &mut fork, addr(32), addr(2), args, 12).unwrap();
    assert!(matches!(&events[0], Event::ForkStateUpdated(e) if !e.active));
    let args = UpdateForkStateArgs { is_active: Some(true), metadata_uri: None };
    let r = update_fork_state::handle(&lifecycle, &config, &mut fork, addr(32), addr(3), args, 13);
    assert_eq!(r.err(), Some(Unit09Error::InvalidAuthority));
    assert!(!fork.is_active);
    let args = CreateForkArgs { fork_key: addr(33), parent: addr(31), label: String::new(), metadata_uri: String::new() };
    let r = create_fork::handle(&lifecycle, &config, &mut metrics, addr(34), addr(2), args, 14);
    assert_eq!(r.err(), Some(Unit09Error::StringEmpty));
    assert_eq!(metrics.total_forks, 1);
}

#[test]
fn set_metadata_is_admin_only() {
    let (config, _, _) = singletons();
    let mut metadata: Option<GlobalMetadata> = None;
    let args = SetMetadataArgs { description: "registry".to_string(), tags: "a,b".to_string() };
    let r = set_metadata::handle(&config, &mut metadata, addr(2), args, 5);
    assert_eq!(r.err(), Some(Unit09Error::InvalidAdmin));
    assert!(metadata.is_none());
    let args = SetMetadataArgs { description: "registry".to_string(), tags: "a,b".to_string() };
    let events = set_metadata::handle(&config, &mut metadata, addr(1), args, 6).unwrap();
    assert_eq!(metadata.as_ref().unwrap().description, "registry");
    assert!(matches!(&events[0], Event::GlobalMetadataUpdated(e) if e.tags == "a,b"));
}

#[test]
fn module_usage_and_status_guards() {
    let mut m = Module::init(addr(1), addr(2), addr(3), "m".to_string(), "http://x".to_string(), "lib".to_string(), String::new(), (0, 0, 1), 4)
        .unwrap();
    assert_eq!(m.record_usage(9), Ok(()));
    assert_eq!(m.usage_count, 1);
    assert_eq!(m.last_used_at, 9);
    m.usage_count = u64::MAX;
    assert_eq!(m.record_usage(10), Err(Unit09Error::CounterOverflow));
    assert_eq!(m.last_used_at, 9);
    assert_eq!(m.assert_active(), Ok(()));
    assert_eq!(m.assert_not_deprecated(), Ok(()));
    assert_eq!(m.assert_authority(&addr(4)), Err(Unit09Error::InvalidAuthority));
    m.apply_update(None, None, None, None, Some(false), Some(true), None, 11).unwrap();
    assert_eq!(m.assert_active(), Err(Unit09Error::ModuleInactive));
    assert_eq!(m.assert_not_deprecated(), Err(Unit09Error::ModuleImmutable));
}

#[test]
fn validators_check_strings_and_numbers() {
    assert_eq!(validators::assert_url_like(""), Ok(()));
    assert_eq!(validators::assert_url_like("ipfs://cid"), Ok(()));
    assert_eq!(validators::assert_url_like("ar://tx"), Ok(()));
    assert_eq!(validators::assert_url_like("http:/x"), Err(Unit09Error::MetadataInvalid));
    assert_eq!(validators::assert_https_url("http://x"), Err(Unit09Error::MetadataInvalid));
    assert_eq!(validators::assert_https_url("https://x"), Ok(()));
    assert_eq!(validators::assert_non_empty_str(""), Err(Unit09Error::StringEmpty));
    assert_eq!(validators::assert_max_len("abcd", 3), Err(Unit09Error::StringTooLong));
    assert_eq!(validators::assert_max_len("abc", 3), Ok(()));
    assert_eq!(validators::assert_optional_str_len(&Some(String::new()), 3), Err(Unit09Error::StringEmpty));
    assert_eq!(validators::assert_optional_str_len(&None, 3), Ok(()));
    assert_eq!(validators::assert_fee_bps_in_range(10000), Ok(()));
    assert_eq!(validators::assert_fee_bps_in_range(10001), Err(Unit09Error::InvalidFeeBps));
    assert_eq!(validators::assert_semver_non_zero((0, 0, 0)), Err(Unit09Error::ValueOutOfRange));
    assert_eq!(validators::assert_semver_non_zero((0, 1, 0)), Ok(()));
    assert_eq!(validators::assert_non_zero_u64(0), Err(Unit09Error::ValueOutOfRange));
    assert_eq!(validators::assert_non_zero_u32(1), Ok(()));
    assert_eq!(validators::assert_not_greater_u64(5, 4), Err(Unit09Error::ValueOutOfRange));
    assert_eq!(validators::assert_not_greater_u32(4, 4), Ok(()));
    assert_eq!(validators::assert_admin_signer(&addr(1), &addr(2)), Err(Unit09Error::InvalidAdmin));
    assert_eq!(validators::assert_authority_signer(&addr(1), &addr(2)), Err(Unit09Error::InvalidAuthority));
    assert_eq!(validators::assert_flag_true(false, Unit09Error::RepoInactive), Err(Unit09Error::RepoInactive));
    assert_eq!(validators::assert_flag_false(false, Unit09Error::RepoInactive), Ok(()));
    assert_eq!(validators::assert_deployment_active(false), Err(Unit09Error::DeploymentInactive));
    assert_eq!(validators::assert_revision_len("abc", 2), Err(Unit09Error::StringTooLong));
    assert_eq!(validators::assert_observation_note_len("", 0), Ok(()));
}

#[test]
fn derived_addresses_are_deterministic_and_distinct() {
    let program = addr(200);
    let (a1, b1) = seeds::repo_pda(&program, &addr(1)).unwrap();
    let (a2, b2) = seeds::repo_pda(&program, &addr(1)).unwrap();
    let (other, _) = seeds::repo_pda(&program, &addr(2)).unwrap();
    assert_eq!((a1, b1), (a2, b2));
    assert_ne!(a1, other);
    assert_ne!(a1, program);
    let (config_addr, _) = seeds::config_pda(&program).unwrap();
    assert_ne!(config_addr, a1);
    let (l1, _) = seeds::module_repo_link_pda(&program, &addr(5), &addr(6)).unwrap();
    let (l2, _) = seeds::module_repo_link_pda(&program, &addr(6), &addr(5)).unwrap();
    assert_ne!(l1, l2);
    let (v1, _) = seeds::module_version_pda(&program, &addr(5), 1, 0, 0).unwrap();
    let (v2, _) = seeds::module_version_pda(&program, &addr(5), 1, 0, 1).unwrap();
    assert_ne!(v1, v2);
}

#[test]
fn seed_lists_carry_tag_keys_and_bump() {
    let s = seeds::module_version_seeds(&addr(5), 258, 0, 1, 254);
    assert_eq!(s.len(), 6);
    assert_eq!(s[0], b"module_version".to_vec());
    assert_eq!(s[1], vec![5u8; 32]);
    assert_eq!(s[2], vec![2u8, 1u8]);
    assert_eq!(s[5], vec![254u8]);
    assert_eq!(seeds::config_seeds(7), vec![b"config".to_vec(), vec![7u8]]);
    let (_, bump) = seeds::repo_pda(&addr(200), &addr(1)).unwrap();
    assert_eq!(seeds::repo_seeds(&addr(1), bump).len(), 3);
}

#[test]
fn assert_pda_matches_derivation() {
    let program = addr(200);
    let (expected, bump) = seeds::fork_pda(&program, &addr(8)).unwrap();
    let list = vec![b"fork".to_vec(), vec![8u8; 32]];
    assert_eq!(seeds::assert_pda(&expected, &list, &program), Ok(bump));
    assert_eq!(seeds::assert_pda(&addr(8), &list, &program), Err(Unit09Error::InvalidPda));
    let too_many: Vec<Vec<u8>> = (0..16).map(|i| vec![i as u8]).collect();
    assert_eq!(seeds::assert_pda(&expected, &too_many, &program), Err(Unit09Error::InternalError));
    let too_long = vec![vec![0u8; 33]];
    assert_eq!(seeds::assert_pda(&expected, &too_long, &program), Err(Unit09Error::InternalError));
}

#[test]
fn tag_lists_count_non_blank_segments() {
    assert_eq!(assert_tags_reasonable("", 0, 0), Ok(()));
    assert_eq!(assert_tags_reasonable("solana,anchor", 64, 2), Ok(()));
    assert_eq!(assert_tags_reasonable("solana,anchor,token", 64, 2), Err(Unit09Error::ValueOutOfRange));
    assert_eq!(assert_tags_reasonable("a, ,\t,b,", 64, 2), Ok(()));
    assert_eq!(assert_tags_reasonable("a,\u{3000},b", 64, 2), Ok(()));
    assert_eq!(assert_tags_reasonable("a,\u{e9},b", 64, 2), Err(Unit09Error::ValueOutOfRange));
    assert_eq!(assert_tags_reasonable("a,b", 2, 5), Err(Unit09Error::StringTooLong));
    assert_eq!(assert_tags_reasonable(",,,", 64, 0), Ok(()));
    assert_eq!(assert_tags_reasonable("x", 64, 0), Err(Unit09Error::ValueOutOfRange));
}
