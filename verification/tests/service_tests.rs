use koala_clash::ipc::{check_service_version, IpcReply, IpcResponse, ServiceError};
use koala_clash::json::{JsonNumber, JsonValue};
use koala_clash::service::{
    check_service_needs_reinstall, force_reinstall_begin, force_reinstall_service,
    reinstall_permit, reinstall_service, required_service_version, ServiceState, VergeConfig,
    MAX_REINSTALLS_PER_DAY, ONE_DAY_SECS, REINSTALL_COOLDOWN_SECS,
};
use koala_clash::store::DraftStore;

const SVC_T0: u64 = 1_700_000_000;

fn svc_state(last: u64, count: u32) -> ServiceState {
    ServiceState {
        last_install_time: last,
        install_count: count,
        last_check_time: 0,
        last_error: None,
        prefer_sidecar: false,
    }
}

#[test]
fn limits_are_five_minutes_three_times_one_day() {
    assert_eq!(REINSTALL_COOLDOWN_SECS, 300);
    assert_eq!(MAX_REINSTALLS_PER_DAY, 3);
    assert_eq!(ONE_DAY_SECS, 86400);
    assert_eq!(required_service_version(), "1.1.0");
}

#[test]
fn cooldown_blocks_reinstall_for_five_minutes() {
    let state = svc_state(SVC_T0, 1);
    assert!(!state.can_reinstall(SVC_T0));
    assert!(!state.can_reinstall(SVC_T0 + 299));
    assert!(state.can_reinstall(SVC_T0 + 300));
    assert!(state.can_reinstall(SVC_T0 + 301));
}

#[test]
fn three_installs_within_a_day_block_a_fourth() {
    let state = svc_state(SVC_T0, 3);
    assert!(!state.can_reinstall(SVC_T0 + 300));
    assert!(!state.can_reinstall(SVC_T0 + 3600));
    assert!(!state.can_reinstall(SVC_T0 + 86399));
    assert!(state.can_reinstall(SVC_T0 + 86400));
    assert!(state.can_reinstall(SVC_T0 + 86401));
    let two = svc_state(SVC_T0, 2);
    assert!(two.can_reinstall(SVC_T0 + 300));
    let many = svc_state(SVC_T0, 50);
    assert!(!many.can_reinstall(SVC_T0 + 4000));
}

#[test]
fn the_count_starts_anew_after_a_day() {
    let mut state = svc_state(SVC_T0, 3);
    state.record_install(SVC_T0 + 86401);
    assert_eq!(state.install_count, 1);
    assert_eq!(state.last_install_time, SVC_T0 + 86401);

    let mut state = svc_state(SVC_T0, 3);
    state.record_install(SVC_T0 + 86400);
    assert_eq!(state.install_count, 4);

    let mut state = svc_state(SVC_T0, 1);
    state.record_install(SVC_T0 + 600);
    assert_eq!(state.install_count, 2);
    assert_eq!(state.last_install_time, SVC_T0 + 600);
    assert!(!state.can_reinstall(SVC_T0 + 600));
}

#[test]
fn a_clock_that_went_back_counts_as_no_time_gone_by() {
    let state = svc_state(SVC_T0, 0);
    assert!(!state.can_reinstall(SVC_T0 - 10));
    let mut state = svc_state(SVC_T0, 2);
    state.record_install(SVC_T0 - 10);
    assert_eq!(state.install_count, 3);
    assert_eq!(state.last_install_time, SVC_T0 - 10);
    let mut full = svc_state(SVC_T0, u32::MAX);
    full.record_install(SVC_T0 + 1);
    assert_eq!(full.install_count, u32::MAX);
}

#[test]
fn a_fresh_state_allows_the_first_install() {
    let state = ServiceState::default();
    assert_eq!(state, svc_state(0, 0));
    assert!(state.can_reinstall(SVC_T0));
    assert!(!state.can_reinstall(299));
    assert_eq!(reinstall_permit(&state, SVC_T0), Ok(()));
    assert_eq!(reinstall_permit(&svc_state(SVC_T0, 1), SVC_T0 + 1), Err(ServiceError::RateLimited));
}

#[test]
fn a_successful_reinstall_is_recorded_and_clears_the_error() {
    let mut state = svc_state(SVC_T0, 1);
    state.last_error = Some("failed to install service: earlier".to_string());
    state.prefer_sidecar = true;
    assert_eq!(reinstall_service(&mut state, SVC_T0 + 1000, Ok(())), Ok(()));
    assert_eq!(state.install_count, 2);
    assert_eq!(state.last_install_time, SVC_T0 + 1000);
    assert_eq!(state.last_error, None);
    assert!(state.prefer_sidecar);
}

#[test]
fn a_failed_reinstall_sets_prefer_sidecar_and_keeps_the_error() {
    let mut state = svc_state(SVC_T0, 1);
    let outcome = reinstall_service(&mut state, SVC_T0 + 1000, Err("user declined".to_string()));
    assert_eq!(outcome, Err(ServiceError::InstallFailed { detail: "user declined".to_string() }));
    assert_eq!(outcome.unwrap_err().message(), "failed to install service: user declined");
    assert_eq!(state.install_count, 1);
    assert_eq!(state.last_install_time, SVC_T0);
    assert_eq!(state.last_error, Some("failed to install service: user declined".to_string()));
    assert!(state.prefer_sidecar);
}

#[test]
fn a_forced_reinstall_resets_the_bookkeeping_first() {
    let mut state = svc_state(SVC_T0, 3);
    state.prefer_sidecar = true;
    state.last_error = Some("old".to_string());
    assert_eq!(force_reinstall_begin(&mut state, SVC_T0 + 10), Ok(()));
    assert_eq!(state, ServiceState::default());
    assert_eq!(force_reinstall_service(&mut state, SVC_T0 + 20, Ok(())), Ok(()));
    assert_eq!(state.install_count, 1);
    assert_eq!(state.last_install_time, SVC_T0 + 20);

    let mut state = svc_state(SVC_T0, 3);
    force_reinstall_begin(&mut state, SVC_T0 + 10).unwrap();
    let failed = force_reinstall_service(&mut state, SVC_T0 + 20, Err("exit 5".to_string()));
    assert_eq!(
        failed.unwrap_err().message(),
        "Forced service reinstallation failed: failed to install service: exit 5"
    );
    assert!(state.prefer_sidecar);

    let mut early = svc_state(SVC_T0, 3);
    assert_eq!(
        force_reinstall_begin(&mut early, 100).unwrap_err().message(),
        "Forced service reinstallation failed: Service reinstallation is rate limited. Please try again later."
    );
}

#[test]
fn version_mismatch_needs_reinstall_subject_to_rate_limit() {
    let found: Result<String, ServiceError> = Ok("1.0.9".to_string());
    let unused: Result<(), ServiceError> = Ok(());
    assert!(check_service_needs_reinstall(&ServiceState::default(), SVC_T0, &found, &unused));
    let limited = svc_state(SVC_T0, 3);
    assert!(!check_service_needs_reinstall(&limited, SVC_T0 + 3600, &found, &unused));
    let cooling = svc_state(SVC_T0, 0);
    assert!(!check_service_needs_reinstall(&cooling, SVC_T0 + 10, &found, &unused));
    let matching: Result<String, ServiceError> = Ok("1.1.0".to_string());
    assert!(!check_service_needs_reinstall(&ServiceState::default(), SVC_T0, &matching, &unused));
}

#[test]
fn an_unversioned_service_is_reinstalled_only_when_it_is_gone() {
    let unknown: Result<String, ServiceError> = Err(ServiceError::NoVersion);
    let there: Result<(), ServiceError> = Ok(());
    let gone: Result<(), ServiceError> =
        Err(ServiceError::Unreachable { detail: "refused".to_string() });
    let state = ServiceState::default();
    assert!(!check_service_needs_reinstall(&state, SVC_T0, &unknown, &there));
    assert!(check_service_needs_reinstall(&state, SVC_T0, &unknown, &gone));
    let limited = svc_state(SVC_T0, 3);
    assert!(!check_service_needs_reinstall(&limited, SVC_T0 + 3600, &unknown, &gone));
}

#[test]
fn the_state_is_kept_in_the_configuration() {
    let mut config = DraftStore::new(VergeConfig::default());
    assert_eq!(ServiceState::get(&config), ServiceState::default());
    let mut changed = VergeConfig::default();
    changed.enable_tun_mode = Some(true);
    changed.clash_core = Some("koala-mihomo".to_string());
    let mut config2 = DraftStore::new(changed);
    let state = ServiceState {
        last_install_time: SVC_T0,
        install_count: 2,
        last_check_time: 5,
        last_error: Some("e".to_string()),
        prefer_sidecar: true,
    };
    state.save(&mut config2);
    assert!(!config2.has_draft());
    assert_eq!(ServiceState::get(&config2), state);
    assert_eq!(config2.latest().enable_tun_mode, Some(true));
    assert_eq!(config2.latest().clash_core, Some("koala-mihomo".to_string()));
    state.save(&mut config);
    assert_eq!(config.latest().service_state, Some(state.clone()));
}

#[test]
fn an_outdated_version_in_the_double_envelope_needs_reinstall() {
    let inner = JsonValue::Object(vec![
        ("code".to_string(), JsonValue::Number(JsonNumber::PosInt(0))),
        ("msg".to_string(), JsonValue::Text("ok".to_string())),
        (
            "data".to_string(),
            JsonValue::Object(vec![("version".to_string(), JsonValue::Text("1.0.9".to_string()))]),
        ),
    ]);
    let reply: IpcReply = Ok(IpcResponse { success: true, data: Some(inner), error: None });
    let version = check_service_version(&reply);
    assert_eq!(version, Ok("1.0.9".to_string()));
    let unused: Result<(), ServiceError> = Ok(());
    assert!(check_service_needs_reinstall(&ServiceState::default(), SVC_T0, &version, &unused));
    assert!(!check_service_needs_reinstall(&svc_state(SVC_T0, 3), SVC_T0 + 600, &version, &unused));
    assert!(!check_service_needs_reinstall(&svc_state(SVC_T0, 1), SVC_T0 + 60, &version, &unused));
    assert!(check_service_needs_reinstall(&svc_state(SVC_T0, 1), SVC_T0 + 600, &version, &unused));
}
