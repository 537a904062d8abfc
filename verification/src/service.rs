//! The bookkeeping of the privileged service and the rules that throttle its
//! reinstallation.
//!
//! Reinstalling the service interrupts the user: it can leave the machine
//! without filtering for a moment and it asks for elevated rights. So it is
//! throttled, whether or not it is needed: not within five minutes of the
//! last installation, and not more than three times in the day that the last
//! installation began.
//!
//! Times are seconds since the Unix epoch. A clock that reads earlier than
//! the last installation counts as no time gone by.

use crate::ipc::{ServiceError, ServiceErrorModel, unit_view};
use crate::store::DraftStore;
use crate::text::{clone_text, join};
use vstd::prelude::*;

verus! {

/// No reinstallation within this many seconds of the last installation.
pub const REINSTALL_COOLDOWN_SECS: u64 = 300;

/// No more installations than this within a day.
pub const MAX_REINSTALLS_PER_DAY: u32 = 3;

/// A day, in seconds.
pub const ONE_DAY_SECS: u64 = 86400;

/// The version of the service that this application works with.
pub open spec fn required_version_model() -> Seq<char> {
    "1.1.0"@
}

pub fn required_service_version() -> (version: String)
    ensures
        version@ == required_version_model(),
{
    "1.1.0".to_owned()
}

/// What is remembered of the service's installations.
#[derive(Debug, PartialEq, Eq)]
pub struct ServiceState {
    /// When the service was installed last.
    pub last_install_time: u64,
    /// How often it has been installed in the day that began then.
    pub install_count: u32,
    /// When the service was looked at last.
    pub last_check_time: u64,
    /// Why the last installation failed, if it did.
    pub last_error: Option<String>,
    /// Set when an installation failed: run the engine without the service
    /// rather than ask for an installation again. Cleared only by a reset.
    pub prefer_sidecar: bool,
}

/// The mathematical content of a [`ServiceState`].
pub struct ServiceStateModel {
    pub last_install_time: u64,
    pub install_count: u32,
    pub last_check_time: u64,
    pub last_error: Option<Seq<char>>,
    pub prefer_sidecar: bool,
}

impl View for ServiceState {
    type V = ServiceStateModel;

    open spec fn view(&self) -> ServiceStateModel {
        ServiceStateModel {
            last_install_time: self.last_install_time,
            install_count: self.install_count,
            last_check_time: self.last_check_time,
            last_error: self.last_error.deep_view(),
            prefer_sidecar: self.prefer_sidecar,
        }
    }
}

impl ServiceStateModel {
    /// The state before anything was installed, and after a reset.
    pub open spec fn fresh() -> Self {
        ServiceStateModel {
            last_install_time: 0,
            install_count: 0,
            last_check_time: 0,
            last_error: None,
            prefer_sidecar: false,
        }
    }

    /// The seconds gone by since the last installation.
    pub open spec fn elapsed(self, now: u64) -> int {
        if now >= self.last_install_time {
            now - self.last_install_time
        } else {
            0
        }
    }

    /// Whether the cooldown after the last installation is still running.
    pub open spec fn cooling_down(self, now: u64) -> bool {
        self.elapsed(now) < REINSTALL_COOLDOWN_SECS
    }

    /// Whether the day's installations are used up.
    pub open spec fn exhausted(self, now: u64) -> bool {
        self.elapsed(now) < ONE_DAY_SECS && self.install_count >= MAX_REINSTALLS_PER_DAY
    }

    /// Whether the service may be reinstalled now.
    pub open spec fn can_reinstall(self, now: u64) -> bool {
        !self.cooling_down(now) && !self.exhausted(now)
    }

    /// The count that an installation at `now` starts from: zero once more
    /// than a day has gone by.
    pub open spec fn count_in_window(self, now: u64) -> u32 {
        if self.elapsed(now) > ONE_DAY_SECS {
            0
        } else {
            self.install_count
        }
    }

    /// An installation at `now` is noted.
    pub open spec fn record_install(self, now: u64) -> Self {
        ServiceStateModel {
            last_install_time: now,
            install_count: if self.count_in_window(now) < u32::MAX {
                (self.count_in_window(now) + 1) as u32
            } else {
                u32::MAX
            },
            ..self
        }
    }

    /// An installation at `now` succeeded.
    pub open spec fn installed(self, now: u64) -> Self {
        ServiceStateModel { last_error: None, ..self.record_install(now) }
    }

    /// An installation failed with `detail`.
    pub open spec fn install_failed(self, detail: Seq<char>) -> Self {
        ServiceStateModel {
            last_error: Some("failed to install service: "@ + detail),
            prefer_sidecar: true,
            ..self
        }
    }

    /// The bookkeeping after the installer has run.
    pub open spec fn after_install(self, now: u64, failure: Option<Seq<char>>) -> Self {
        match failure {
            None => self.installed(now),
            Some(detail) => self.install_failed(detail),
        }
    }
}

/// The failure of an installer's run, if any.
pub open spec fn install_failure(installed: Result<(), String>) -> Option<Seq<char>> {
    match installed {
        Ok(_) => None,
        Err(detail) => Some(detail@),
    }
}

/// What a reinstallation returns once the installer has run.
pub open spec fn reinstall_outcome(failure: Option<Seq<char>>) -> Result<(), ServiceErrorModel> {
    match failure {
        None => Ok(()),
        Some(detail) => Err(ServiceErrorModel::InstallFailed { detail }),
    }
}

impl Clone for ServiceState {
    fn clone(&self) -> (copy: Self)
        ensures
            copy@ == self@,
    {
        ServiceState {
            last_install_time: self.last_install_time,
            install_count: self.install_count,
            last_check_time: self.last_check_time,
            last_error: clone_text(&self.last_error),
            prefer_sidecar: self.prefer_sidecar,
        }
    }
}

impl Default for ServiceState {
    fn default() -> (state: Self)
        ensures
            state@ == ServiceStateModel::fresh(),
    {
        ServiceState {
            last_install_time: 0,
            install_count: 0,
            last_check_time: 0,
            last_error: None,
            prefer_sidecar: false,
        }
    }
}

/// The part of the application's configuration that the decisions here read.
#[derive(Debug, PartialEq, Eq)]
pub struct VergeConfig {
    pub service_state: Option<ServiceState>,
    pub enable_tun_mode: Option<bool>,
    pub enable_system_proxy: Option<bool>,
    pub enable_auto_light_weight_mode: Option<bool>,
    /// The name of the proxy engine to run.
    pub clash_core: Option<String>,
}

/// The mathematical content of a [`VergeConfig`].
pub struct VergeConfigModel {
    pub service_state: Option<ServiceStateModel>,
    pub enable_tun_mode: Option<bool>,
    pub enable_system_proxy: Option<bool>,
    pub enable_auto_light_weight_mode: Option<bool>,
    pub clash_core: Option<Seq<char>>,
}

impl View for VergeConfig {
    type V = VergeConfigModel;

    open spec fn view(&self) -> VergeConfigModel {
        VergeConfigModel {
            service_state: match self.service_state {
                Some(state) => Some(state@),
                None => None,
            },
            enable_tun_mode: self.enable_tun_mode,
            enable_system_proxy: self.enable_system_proxy,
            enable_auto_light_weight_mode: self.enable_auto_light_weight_mode,
            clash_core: self.clash_core.deep_view(),
        }
    }
}

impl Clone for VergeConfig {
    fn clone(&self) -> (copy: Self)
        ensures
            copy@ == self@,
    {
        VergeConfig {
            service_state: match &self.service_state {
                Some(state) => Some(state.clone()),
                None => None,
            },
            enable_tun_mode: self.enable_tun_mode,
            enable_system_proxy: self.enable_system_proxy,
            enable_auto_light_weight_mode: self.enable_auto_light_weight_mode,
            clash_core: clone_text(&self.clash_core),
        }
    }
}

impl Default for VergeConfig {
    fn default() -> (config: Self)
        ensures
            config@ == (VergeConfigModel {
                service_state: None,
                enable_tun_mode: None,
                enable_system_proxy: None,
                enable_auto_light_weight_mode: None,
                clash_core: None,
            }),
    {
        VergeConfig {
            service_state: None,
            enable_tun_mode: None,
            enable_system_proxy: None,
            enable_auto_light_weight_mode: None,
            clash_core: None,
        }
    }
}

impl ServiceState {
    /// The state kept in the committed configuration; the fresh state where
    /// none is kept.
    pub fn get(config: &DraftStore<VergeConfig>) -> (state: Self)
        ensures
            state@ == (match config@.latest()@.service_state {
                Some(kept) => kept,
                None => ServiceStateModel::fresh(),
            }),
    {
        match &config.latest().service_state {
            Some(state) => state.clone(),
            None => ServiceState::default(),
        }
    }

    /// Commits the state to the configuration: the committed configuration
    /// is afterwards what it was, but for the state, and no draft is left.
    /// Writing the configuration to disk is the caller's to do.
    pub fn save(&self, config: &mut DraftStore<VergeConfig>)
        ensures
            final(config)@.pending.is_none(),
            final(config)@.latest()@ == (VergeConfigModel {
                service_state: Some(self@),
                ..old(config)@.latest()@
            }),
    {
        let mut latest = config.latest().clone();
        latest.service_state = Some(self.clone());
        config.draft(latest);
        let _ = config.apply();
    }

    fn elapsed(&self, now: u64) -> (seconds: u64)
        ensures
            seconds == self@.elapsed(now),
    {
        now.saturating_sub(self.last_install_time)
    }

    /// Notes an installation at `now`: the count starts again from zero when
    /// more than a day has gone by since the last one.
    pub fn record_install(&mut self, now: u64)
        ensures
            final(self)@ == old(self)@.record_install(now),
    {
        if self.elapsed(now) > ONE_DAY_SECS {
            self.install_count = 0;
        }
        self.last_install_time = now;
        self.install_count = self.install_count.saturating_add(1);
    }

    /// Whether the service may be reinstalled at `now`.
    pub fn can_reinstall(&self, now: u64) -> (allowed: bool)
        ensures
            allowed == self@.can_reinstall(now),
    {
        let elapsed = self.elapsed(now);
        if elapsed < REINSTALL_COOLDOWN_SECS {
            return false;
        }
        if elapsed < ONE_DAY_SECS && self.install_count >= MAX_REINSTALLS_PER_DAY {
            return false;
        }
        true
    }

    /// Notes what came of running the installer at `now`.
    pub fn note_install(&mut self, now: u64, installed: &Result<(), String>)
        ensures
            final(self)@ == old(self)@.after_install(now, install_failure(*installed)),
    {
        match installed {
            Ok(_) => {
                self.record_install(now);
                self.last_error = None;
            },
            Err(detail) => {
                self.last_error = Some(join("failed to install service: ", detail.as_str()));
                self.prefer_sidecar = true;
            },
        }
    }
}

/// Whether a reinstallation may begin at `now`. The installer is to be run
/// only after `Ok`.
pub fn reinstall_permit(state: &ServiceState, now: u64) -> (permit: Result<(), ServiceError>)
    ensures
        unit_view(permit) == (if state@.can_reinstall(now) {
            Ok::<(), ServiceErrorModel>(())
        } else {
            Err(ServiceErrorModel::RateLimited)
        }),
{
    if state.can_reinstall(now) {
        Ok(())
    } else {
        Err(ServiceError::RateLimited)
    }
}

/// Ends a reinstallation once the old service has been removed, as far as
/// that went, and the installer has run. Success is noted as an installation
/// and clears the last error. Failure is kept as the last error and sets
/// `prefer_sidecar`. The state is to be saved either way.
pub fn reinstall_service(state: &mut ServiceState, now: u64, installed: Result<(), String>) -> (outcome:
    Result<(), ServiceError>)
    ensures
        final(state)@ == old(state)@.after_install(now, install_failure(installed)),
        unit_view(outcome) == reinstall_outcome(install_failure(installed)),
{
    state.note_install(now, &installed);
    match installed {
        Ok(_) => Ok(()),
        Err(detail) => Err(ServiceError::InstallFailed { detail }),
    }
}

/// Begins a reinstallation that the user asked for: the bookkeeping is
/// reset, which also clears `prefer_sidecar`, and the reset state is to be
/// saved. The installer is to be run only after `Ok`.
pub fn force_reinstall_begin(state: &mut ServiceState, now: u64) -> (permit: Result<
    (),
    ServiceError,
>)
    ensures
        final(state)@ == ServiceStateModel::fresh(),
        unit_view(permit) == (if ServiceStateModel::fresh().can_reinstall(now) {
            Ok::<(), ServiceErrorModel>(())
        } else {
            Err(
                ServiceErrorModel::ForcedReinstallFailed {
                    detail: ServiceErrorModel::RateLimited.message(),
                },
            )
        }),
{
    *state = ServiceState::default();
    match reinstall_permit(state, now) {
        Ok(_) => Ok(()),
        Err(error) => Err(ServiceError::ForcedReinstallFailed { detail: error.message() }),
    }
}

/// Ends a reinstallation that the user asked for.
pub fn force_reinstall_service(state: &mut ServiceState, now: u64, installed: Result<(), String>) -> (outcome:
    Result<(), ServiceError>)
    ensures
        final(state)@ == old(state)@.after_install(now, install_failure(installed)),
        unit_view(outcome) == (match reinstall_outcome(install_failure(installed)) {
            Ok(_) => Ok::<(), ServiceErrorModel>(()),
            Err(error) => Err(ServiceErrorModel::ForcedReinstallFailed { detail: error.message() }),
        }),
{
    match reinstall_service(state, now, installed) {
        Ok(_) => Ok(()),
        Err(error) => Err(ServiceError::ForcedReinstallFailed { detail: error.message() }),
    }
}

/// Whether the service is to be reinstalled, given what is known of it:
/// never while reinstalling is throttled; with a version in hand, when it is
/// not the required one; without one, only when the service does not answer
/// at all. A service that answers but does not tell its version is left
/// alone.
pub open spec fn needs_reinstall(
    allowed: bool,
    version: Result<Seq<char>, ServiceErrorModel>,
    availability: Result<(), ServiceErrorModel>,
) -> bool {
    allowed && match version {
        Ok(found) => found != required_version_model(),
        Err(_) => availability is Err,
    }
}

/// Decides whether the service is to be reinstalled. `availability` counts
/// only where the version could not be had.
pub fn check_service_needs_reinstall(
    state: &ServiceState,
    now: u64,
    version: &Result<String, ServiceError>,
    availability: &Result<(), ServiceError>,
) -> (needed: bool)
    ensures
        needed == needs_reinstall(
            state@.can_reinstall(now),
            crate::ipc::text_view(*version),
            unit_view(*availability),
        ),
{
    if !state.can_reinstall(now) {
        return false;
    }
    match version {
        Ok(found) => {
            let required = required_service_version();
            !(*found == required)
        },
        Err(_) => availability.is_err(),
    }
}

/// Three installations within the day stop a fourth.
pub proof fn lemma_exhausted_blocks(state: ServiceStateModel, now: u64)
    requires
        state.install_count >= MAX_REINSTALLS_PER_DAY,
        state.last_install_time <= now,
        now - state.last_install_time < ONE_DAY_SECS,
    ensures
        !state.can_reinstall(now),
{
}

/// The cooldown stops a reinstallation whatever the count.
pub proof fn lemma_cooldown_blocks(state: ServiceStateModel, now: u64)
    requires
        state.last_install_time <= now,
        now - state.last_install_time < REINSTALL_COOLDOWN_SECS,
    ensures
        !state.can_reinstall(now),
{
}

/// A day after the last installation the service may be reinstalled again,
/// however often it was installed before, and the count starts anew: the
/// next installation is the first of its day.
pub proof fn lemma_window_expires(state: ServiceStateModel, now: u64)
    requires
        state.last_install_time <= now,
        now - state.last_install_time > ONE_DAY_SECS,
    ensures
        state.can_reinstall(now),
        state.record_install(now).install_count == 1,
        state.record_install(now).last_install_time == now,
{
}

/// Within the day every installation counts, and right after one the
/// cooldown runs.
pub proof fn lemma_install_counts(state: ServiceStateModel, now: u64)
    requires
        state.last_install_time <= now,
        now - state.last_install_time <= ONE_DAY_SECS,
        state.install_count < u32::MAX,
    ensures
        state.record_install(now).install_count == state.install_count + 1,
        !state.record_install(now).can_reinstall(now),
{
}

/// Reinstalling is allowed exactly when the cooldown is over and the day's
/// installations are not used up.
pub proof fn lemma_can_reinstall_exactly(state: ServiceStateModel, now: u64)
    requires
        state.last_install_time <= now,
    ensures
        state.can_reinstall(now) <==> (now - state.last_install_time >= REINSTALL_COOLDOWN_SECS
            && (now - state.last_install_time >= ONE_DAY_SECS || state.install_count
            < MAX_REINSTALLS_PER_DAY)),
{
}

/// A failed installation sets `prefer_sidecar`, and nothing but a reset
/// clears it: neither a later success nor a later failure does.
pub proof fn lemma_prefer_sidecar_sticks(state: ServiceStateModel, now: u64, failure: Option<Seq<char>>)
    ensures
        failure.is_some() ==> state.after_install(now, failure).prefer_sidecar,
        state.prefer_sidecar ==> state.after_install(now, failure).prefer_sidecar,
        !ServiceStateModel::fresh().prefer_sidecar,
{
}

/// A version other than the required one calls for a reinstallation exactly
/// when reinstalling is not throttled.
pub proof fn lemma_mismatch_needs_reinstall(
    allowed: bool,
    found: Seq<char>,
    availability: Result<(), ServiceErrorModel>,
)
    requires
        found != required_version_model(),
    ensures
        needs_reinstall(allowed, Ok(found), availability) == allowed,
{
}

} // verus!
