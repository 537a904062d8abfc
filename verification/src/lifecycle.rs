//! Starting the proxy engine through the privileged service.
//!
//! The manager asks the service for its version, probes whether it answers,
//! has it reinstalled where that is called for and allowed, and has the
//! engine started. It performs none of this itself: every step returns the
//! action to carry out, and the caller delivers what came of it. Every run
//! ends with the engine started or with an error for the user.
//!
//! One rule runs through all of it: a version that could not be had is never
//! by itself a reason to reinstall. Only a version that is known to differ,
//! or a service that does not answer at all, is.

use crate::ipc::{
    available, check_ipc_service_status, check_service_version, command_of, is_service_available,
    start_with_existing_service, status_of, unit_view, version_of, IpcCommand, IpcReply,
    ServiceError, ServiceErrorModel,
};
use crate::service::{
    install_failure, required_service_version, required_version_model, ServiceState,
    ServiceStateModel,
};
use vstd::prelude::*;

verus! {

/// Where a run of the manager stands: what it is waiting for.
#[derive(Clone, Copy, PartialEq, Eq, Structural, Debug)]
pub enum StartPhase {
    /// No run has begun.
    Idle,
    /// The service's version.
    CheckingVersion,
    /// Whether the service answers; its version is the required one or
    /// could not be had.
    ProbingAvailability,
    /// The start of the engine, whose result ends the run.
    StartingFinal,
    /// The start of the engine by a service of another version that may not
    /// be reinstalled now.
    StartingDegraded,
    /// The installer, after a version mismatch. The engine is started
    /// afterwards whatever came of the installer.
    ReinstallingThenStart,
    /// Whether the service answers, asked a second time.
    RecheckingStatus,
    /// The start of the engine by a service that answered the second time.
    StartingOrRecheck,
    /// The service's version, asked again to decide on a reinstallation.
    RecheckingVersion,
    /// Whether the service answers, asked to decide on a reinstallation.
    RecheckingAvailability,
    /// The installer, because the service is not there. Its failure ends
    /// the run.
    ReinstallingStrict,
    /// The run is over.
    Finished,
}

/// What is known of the service.
#[derive(Clone, Copy, PartialEq, Eq, Structural, Debug)]
pub enum ServiceStatus {
    Unknown,
    /// It does not answer.
    NotInstalled,
    /// It answers with another version than the required one.
    InstalledVersionMismatch,
    /// It answers with the required version, or has just been installed.
    InstalledCompatible,
    /// It runs the engine.
    Running,
    /// It is to be reinstalled.
    NeedsReinstall,
    /// The installer runs.
    Reinstalling,
    /// The installer failed: the engine is better run without the service.
    PreferSidecar,
}

/// What is delivered to the manager.
#[derive(Debug, PartialEq, Eq)]
pub enum ServiceEvent {
    /// A run is asked for.
    Begin,
    /// The reply to `GetVersion`.
    Version { reply: IpcReply },
    /// The reply to `GetStatus`.
    Status { reply: IpcReply },
    /// The reply to `Start`.
    Started { reply: IpcReply },
    /// What came of removing the old service, as far as that went, and
    /// running the installer.
    Installed { result: Result<(), String> },
}

/// What the caller is asked to do next.
#[derive(Debug, PartialEq, Eq)]
pub enum ServiceAction {
    /// Send `GetVersion` and deliver the reply.
    QueryVersion,
    /// Send `GetStatus` and deliver the reply.
    QueryStatus,
    /// Send `Start` and deliver the reply.
    StartCore,
    /// Remove the service, run the installer and deliver what came of it.
    Install,
    /// The run is over.
    Done(Result<(), ServiceError>),
    /// The event is not what the manager is waiting for.
    Ignored,
}

/// The mathematical content of a [`ServiceAction`].
pub enum ServiceActionModel {
    QueryVersion,
    QueryStatus,
    StartCore,
    Install,
    Done(Result<(), ServiceErrorModel>),
    Ignored,
}

impl View for ServiceAction {
    type V = ServiceActionModel;

    open spec fn view(&self) -> ServiceActionModel {
        match self {
            ServiceAction::QueryVersion => ServiceActionModel::QueryVersion,
            ServiceAction::QueryStatus => ServiceActionModel::QueryStatus,
            ServiceAction::StartCore => ServiceActionModel::StartCore,
            ServiceAction::Install => ServiceActionModel::Install,
            ServiceAction::Done(outcome) => ServiceActionModel::Done(unit_view(*outcome)),
            ServiceAction::Ignored => ServiceActionModel::Ignored,
        }
    }
}

/// What a step returns.
#[derive(Debug, PartialEq, Eq)]
pub struct ServiceStep {
    pub action: ServiceAction,
    /// Whether the bookkeeping has changed and is to be saved.
    pub persist: bool,
}

/// The manager's state.
pub struct LifecycleModel {
    pub state: ServiceStateModel,
    pub phase: StartPhase,
    pub status: ServiceStatus,
}

/// The result of one step.
pub struct LifecycleStepModel {
    pub manager: LifecycleModel,
    pub action: ServiceActionModel,
    pub persist: bool,
}

/// Whether a reply to `GetVersion` names the required version.
pub open spec fn version_matches(reply: IpcReply) -> bool {
    version_of(reply) == Ok::<Seq<char>, ServiceErrorModel>(required_version_model())
}

/// What the run ends with when a reinstallation is called for and throttled.
pub open spec fn throttled_error() -> ServiceErrorModel {
    ServiceErrorModel::ReinstallFailed { detail: ServiceErrorModel::RateLimited.message() }
}

impl LifecycleModel {
    pub open spec fn new(state: ServiceStateModel) -> Self {
        LifecycleModel { state, phase: StartPhase::Idle, status: ServiceStatus::Unknown }
    }

    /// The manager goes on to wait for something else.
    pub open spec fn wait(self, phase: StartPhase, status: ServiceStatus, action: ServiceActionModel) -> LifecycleStepModel {
        LifecycleStepModel {
            manager: LifecycleModel { phase, status, ..self },
            action,
            persist: false,
        }
    }

    /// The run ends.
    pub open spec fn done(self, status: ServiceStatus, outcome: Result<(), ServiceErrorModel>) -> LifecycleStepModel {
        LifecycleStepModel {
            manager: LifecycleModel { phase: StartPhase::Finished, status, ..self },
            action: ServiceActionModel::Done(outcome),
            persist: false,
        }
    }

    /// The event is turned away.
    pub open spec fn ignore(self) -> LifecycleStepModel {
        LifecycleStepModel { manager: self, action: ServiceActionModel::Ignored, persist: false }
    }

    /// The run ends with the result of starting the engine.
    pub open spec fn started(self, outcome: Result<(), ServiceErrorModel>) -> LifecycleStepModel {
        self.done(
            if outcome is Ok {
                ServiceStatus::Running
            } else {
                self.status
            },
            outcome,
        )
    }

    /// The service is not there, or did not start the engine: whether it is
    /// to be reinstalled is looked into, unless reinstalling is throttled.
    pub open spec fn look_into_reinstall(self, now: u64) -> LifecycleStepModel {
        if self.state.can_reinstall(now) {
            self.wait(StartPhase::RecheckingVersion, self.status, ServiceActionModel::QueryVersion)
        } else {
            self.done(self.status, Err(ServiceErrorModel::Unavailable))
        }
    }

    /// The service is to be reinstalled and the run depends on it.
    pub open spec fn reinstall_strict(self, now: u64) -> LifecycleStepModel {
        if self.state.can_reinstall(now) {
            self.wait(
                StartPhase::ReinstallingStrict,
                ServiceStatus::Reinstalling,
                ServiceActionModel::Install,
            )
        } else {
            self.done(ServiceStatus::NeedsReinstall, Err(throttled_error()))
        }
    }

    /// A run is asked for. It begins with the question for the version.
    pub open spec fn begin(self) -> LifecycleStepModel {
        if self.phase == StartPhase::Idle || self.phase == StartPhase::Finished {
            self.wait(
                StartPhase::CheckingVersion,
                ServiceStatus::Unknown,
                ServiceActionModel::QueryVersion,
            )
        } else {
            self.ignore()
        }
    }

    /// The reply to `GetVersion` arrives.
    ///
    /// At the beginning of a run: the required version, or none, leads to
    /// the probe whether the service answers. Another version leads to a
    /// reinstallation where that is allowed, and else to a start with the
    /// service as it is.
    ///
    /// While a reinstallation is looked into: another version calls for it,
    /// the required version rules it out, and no version leads to the probe.
    pub open spec fn version(self, reply: IpcReply, now: u64) -> LifecycleStepModel {
        match self.phase {
            StartPhase::CheckingVersion => match version_of(reply) {
                Ok(found) => if found == required_version_model() {
                    self.wait(
                        StartPhase::ProbingAvailability,
                        ServiceStatus::InstalledCompatible,
                        ServiceActionModel::QueryStatus,
                    )
                } else if self.state.can_reinstall(now) {
                    self.wait(
                        StartPhase::ReinstallingThenStart,
                        ServiceStatus::Reinstalling,
                        ServiceActionModel::Install,
                    )
                } else {
                    self.wait(
                        StartPhase::StartingDegraded,
                        ServiceStatus::InstalledVersionMismatch,
                        ServiceActionModel::StartCore,
                    )
                },
                Err(_) => self.wait(
                    StartPhase::ProbingAvailability,
                    ServiceStatus::Unknown,
                    ServiceActionModel::QueryStatus,
                ),
            },
            StartPhase::RecheckingVersion => match version_of(reply) {
                Ok(found) => if found == required_version_model() {
                    self.done(
                        ServiceStatus::InstalledCompatible,
                        Err(ServiceErrorModel::Unavailable),
                    )
                } else {
                    self.reinstall_strict(now)
                },
                Err(_) => self.wait(
                    StartPhase::RecheckingAvailability,
                    self.status,
                    ServiceActionModel::QueryStatus,
                ),
            },
            _ => self.ignore(),
        }
    }

    /// The reply to `GetStatus` arrives.
    pub open spec fn status(self, reply: IpcReply, now: u64) -> LifecycleStepModel {
        match self.phase {
            StartPhase::ProbingAvailability => if available(status_of(reply)) is Ok {
                self.wait(StartPhase::StartingFinal, self.status, ServiceActionModel::StartCore)
            } else {
                self.wait(
                    StartPhase::RecheckingStatus,
                    ServiceStatus::NotInstalled,
                    ServiceActionModel::QueryStatus,
                )
            },
            StartPhase::RecheckingStatus => if status_of(reply) is Ok {
                self.wait(
                    StartPhase::StartingOrRecheck,
                    ServiceStatus::Unknown,
                    ServiceActionModel::StartCore,
                )
            } else {
                self.look_into_reinstall(now)
            },
            StartPhase::RecheckingAvailability => if available(status_of(reply)) is Ok {
                self.done(ServiceStatus::Unknown, Err(ServiceErrorModel::Unavailable))
            } else {
                LifecycleModel { status: ServiceStatus::NotInstalled, ..self }.reinstall_strict(now)
            },
            _ => self.ignore(),
        }
    }

    /// The reply to `Start` arrives.
    pub open spec fn started_reply(self, reply: IpcReply, now: u64) -> LifecycleStepModel {
        match self.phase {
            StartPhase::StartingFinal => self.started(command_of(reply, IpcCommand::Start)),
            StartPhase::StartingDegraded => if command_of(reply, IpcCommand::Start) is Ok {
                self.started(Ok(()))
            } else {
                self.done(self.status, Err(ServiceErrorModel::MismatchNoReinstall))
            },
            StartPhase::StartingOrRecheck => if command_of(reply, IpcCommand::Start) is Ok {
                self.started(Ok(()))
            } else {
                self.look_into_reinstall(now)
            },
            _ => self.ignore(),
        }
    }

    /// The installer has run. The bookkeeping is brought up to date and is
    /// to be saved.
    pub open spec fn installed(self, failure: Option<Seq<char>>, now: u64) -> LifecycleStepModel {
        let noted = LifecycleModel {
            state: self.state.after_install(now, failure),
            status: if failure is None {
                ServiceStatus::InstalledCompatible
            } else {
                ServiceStatus::PreferSidecar
            },
            ..self
        };
        match self.phase {
            StartPhase::ReinstallingThenStart => LifecycleStepModel {
                manager: LifecycleModel { phase: StartPhase::StartingFinal, ..noted },
                action: ServiceActionModel::StartCore,
                persist: true,
            },
            StartPhase::ReinstallingStrict => match failure {
                None => LifecycleStepModel {
                    manager: LifecycleModel { phase: StartPhase::StartingFinal, ..noted },
                    action: ServiceActionModel::StartCore,
                    persist: true,
                },
                Some(detail) => LifecycleStepModel {
                    manager: LifecycleModel { phase: StartPhase::Finished, ..noted },
                    action: ServiceActionModel::Done(
                        Err(
                            ServiceErrorModel::ReinstallFailed {
                                detail: (ServiceErrorModel::InstallFailed { detail }).message(),
                            },
                        ),
                    ),
                    persist: true,
                },
            },
            _ => self.ignore(),
        }
    }

    /// One step of the manager.
    pub open spec fn step(self, event: ServiceEvent, now: u64) -> LifecycleStepModel {
        match event {
            ServiceEvent::Begin => self.begin(),
            ServiceEvent::Version { reply } => self.version(reply, now),
            ServiceEvent::Status { reply } => self.status(reply, now),
            ServiceEvent::Started { reply } => self.started_reply(reply, now),
            ServiceEvent::Installed { result } => self.installed(install_failure(result), now),
        }
    }

    /// How many deliveries a run can still take at most.
    pub open spec fn remaining(self) -> nat {
        match self.phase {
            StartPhase::Idle => 0,
            StartPhase::Finished => 0,
            StartPhase::StartingFinal => 1,
            StartPhase::StartingDegraded => 1,
            StartPhase::ReinstallingThenStart => 2,
            StartPhase::ReinstallingStrict => 2,
            StartPhase::RecheckingAvailability => 3,
            StartPhase::RecheckingVersion => 4,
            StartPhase::StartingOrRecheck => 5,
            StartPhase::RecheckingStatus => 6,
            StartPhase::ProbingAvailability => 7,
            StartPhase::CheckingVersion => 8,
        }
    }
}

/// Starts the proxy engine through the privileged service.
pub struct ServiceLifecycleManager {
    state: ServiceState,
    phase: StartPhase,
    status: ServiceStatus,
}

impl View for ServiceLifecycleManager {
    type V = LifecycleModel;

    closed spec fn view(&self) -> LifecycleModel {
        LifecycleModel { state: self.state@, phase: self.phase, status: self.status }
    }
}

impl ServiceLifecycleManager {
    pub fn new(state: ServiceState) -> (manager: Self)
        ensures
            manager@ == LifecycleModel::new(state@),
    {
        ServiceLifecycleManager { state, phase: StartPhase::Idle, status: ServiceStatus::Unknown }
    }

    /// The bookkeeping, to be saved whenever a step says so.
    pub fn state(&self) -> (state: &ServiceState)
        ensures
            state@ == self@.state,
    {
        &self.state
    }

    pub fn phase(&self) -> (phase: StartPhase)
        ensures
            phase == self@.phase,
    {
        self.phase
    }

    pub fn status(&self) -> (status: ServiceStatus)
        ensures
            status == self@.status,
    {
        self.status
    }

    fn wait(&mut self, phase: StartPhase, status: ServiceStatus, action: ServiceAction) -> (step:
        ServiceStep)
        ensures
            step_model(*final(self), step) == old(self)@.wait(phase, status, action@),
    {
        self.phase = phase;
        self.status = status;
        ServiceStep { action, persist: false }
    }

    fn done(&mut self, status: ServiceStatus, outcome: Result<(), ServiceError>) -> (step:
        ServiceStep)
        ensures
            step_model(*final(self), step) == old(self)@.done(status, unit_view(outcome)),
    {
        self.phase = StartPhase::Finished;
        self.status = status;
        ServiceStep { action: ServiceAction::Done(outcome), persist: false }
    }

    fn ignore(&self) -> (step: ServiceStep)
        ensures
            step_model(*self, step) == self@.ignore(),
    {
        ServiceStep { action: ServiceAction::Ignored, persist: false }
    }

    fn started(&mut self, outcome: Result<(), ServiceError>) -> (step: ServiceStep)
        ensures
            step_model(*final(self), step) == old(self)@.started(unit_view(outcome)),
    {
        let status = if outcome.is_ok() {
            ServiceStatus::Running
        } else {
            self.status
        };
        self.done(status, outcome)
    }

    fn look_into_reinstall(&mut self, now: u64) -> (step: ServiceStep)
        ensures
            step_model(*final(self), step) == old(self)@.look_into_reinstall(now),
    {
        if self.state.can_reinstall(now) {
            let status = self.status;
            self.wait(StartPhase::RecheckingVersion, status, ServiceAction::QueryVersion)
        } else {
            let status = self.status;
            self.done(status, Err(ServiceError::Unavailable))
        }
    }

    fn reinstall_strict(&mut self, now: u64) -> (step: ServiceStep)
        ensures
            step_model(*final(self), step) == old(self)@.reinstall_strict(now),
    {
        if self.state.can_reinstall(now) {
            self.wait(
                StartPhase::ReinstallingStrict,
                ServiceStatus::Reinstalling,
                ServiceAction::Install,
            )
        } else {
            self.done(
                ServiceStatus::NeedsReinstall,
                Err(ServiceError::ReinstallFailed { detail: ServiceError::RateLimited.message() }),
            )
        }
    }

    fn on_begin(&mut self) -> (step: ServiceStep)
        ensures
            step_model(*final(self), step) == old(self)@.begin(),
    {
        match self.phase {
            StartPhase::Idle => self.wait(
                StartPhase::CheckingVersion,
                ServiceStatus::Unknown,
                ServiceAction::QueryVersion,
            ),
            StartPhase::Finished => self.wait(
                StartPhase::CheckingVersion,
                ServiceStatus::Unknown,
                ServiceAction::QueryVersion,
            ),
            _ => self.ignore(),
        }
    }

    fn on_version(&mut self, reply: &IpcReply, now: u64) -> (step: ServiceStep)
        ensures
            step_model(*final(self), step) == old(self)@.version(*reply, now),
    {
        match self.phase {
            StartPhase::CheckingVersion => match check_service_version(reply) {
                Ok(found) => {
                    let required = required_service_version();
                    if found == required {
                        self.wait(
                            StartPhase::ProbingAvailability,
                            ServiceStatus::InstalledCompatible,
                            ServiceAction::QueryStatus,
                        )
                    } else if self.state.can_reinstall(now) {
                        self.wait(
                            StartPhase::ReinstallingThenStart,
                            ServiceStatus::Reinstalling,
                            ServiceAction::Install,
                        )
                    } else {
                        self.wait(
                            StartPhase::StartingDegraded,
                            ServiceStatus::InstalledVersionMismatch,
                            ServiceAction::StartCore,
                        )
                    }
                },
                Err(_) => self.wait(
                    StartPhase::ProbingAvailability,
                    ServiceStatus::Unknown,
                    ServiceAction::QueryStatus,
                ),
            },
            StartPhase::RecheckingVersion => match check_service_version(reply) {
                Ok(found) => {
                    let required = required_service_version();
                    if found == required {
                        self.done(ServiceStatus::InstalledCompatible, Err(ServiceError::Unavailable))
                    } else {
                        self.reinstall_strict(now)
                    }
                },
                Err(_) => {
                    let status = self.status;
                    self.wait(
                        StartPhase::RecheckingAvailability,
                        status,
                        ServiceAction::QueryStatus,
                    )
                },
            },
            _ => self.ignore(),
        }
    }

    fn on_status(&mut self, reply: &IpcReply, now: u64) -> (step: ServiceStep)
        ensures
            step_model(*final(self), step) == old(self)@.status(*reply, now),
    {
        match self.phase {
            StartPhase::ProbingAvailability => {
                if is_service_available(check_ipc_service_status(reply)).is_ok() {
                    let status = self.status;
                    self.wait(StartPhase::StartingFinal, status, ServiceAction::StartCore)
                } else {
                    self.wait(
                        StartPhase::RecheckingStatus,
                        ServiceStatus::NotInstalled,
                        ServiceAction::QueryStatus,
                    )
                }
            },
            StartPhase::RecheckingStatus => {
                if check_ipc_service_status(reply).is_ok() {
                    self.wait(
                        StartPhase::StartingOrRecheck,
                        ServiceStatus::Unknown,
                        ServiceAction::StartCore,
                    )
                } else {
                    self.look_into_reinstall(now)
                }
            },
            StartPhase::RecheckingAvailability => {
                if is_service_available(check_ipc_service_status(reply)).is_ok() {
                    self.done(ServiceStatus::Unknown, Err(ServiceError::Unavailable))
                } else {
                    self.status = ServiceStatus::NotInstalled;
                    self.reinstall_strict(now)
                }
            },
            _ => self.ignore(),
        }
    }

    fn on_started(&mut self, reply: &IpcReply, now: u64) -> (step: ServiceStep)
        ensures
            step_model(*final(self), step) == old(self)@.started_reply(*reply, now),
    {
        match self.phase {
            StartPhase::StartingFinal => {
                let outcome = start_with_existing_service(reply);
                self.started(outcome)
            },
            StartPhase::StartingDegraded => {
                if start_with_existing_service(reply).is_ok() {
                    self.started(Ok(()))
                } else {
                    let status = self.status;
                    self.done(status, Err(ServiceError::MismatchNoReinstall))
                }
            },
            StartPhase::StartingOrRecheck => {
                if start_with_existing_service(reply).is_ok() {
                    self.started(Ok(()))
                } else {
                    self.look_into_reinstall(now)
                }
            },
            _ => self.ignore(),
        }
    }

    fn on_installed(&mut self, result: Result<(), String>, now: u64) -> (step: ServiceStep)
        ensures
            step_model(*final(self), step) == old(self)@.installed(install_failure(result), now),
    {
        match self.phase {
            StartPhase::ReinstallingThenStart => {
                self.state.note_install(now, &result);
                self.status = if result.is_ok() {
                    ServiceStatus::InstalledCompatible
                } else {
                    ServiceStatus::PreferSidecar
                };
                self.phase = StartPhase::StartingFinal;
                ServiceStep { action: ServiceAction::StartCore, persist: true }
            },
            StartPhase::ReinstallingStrict => {
                self.state.note_install(now, &result);
                match result {
                    Ok(_) => {
                        self.status = ServiceStatus::InstalledCompatible;
                        self.phase = StartPhase::StartingFinal;
                        ServiceStep { action: ServiceAction::StartCore, persist: true }
                    },
                    Err(detail) => {
                        self.status = ServiceStatus::PreferSidecar;
                        self.phase = StartPhase::Finished;
                        let failure = ServiceError::InstallFailed { detail };
                        ServiceStep {
                            action: ServiceAction::Done(
                                Err(ServiceError::ReinstallFailed { detail: failure.message() }),
                            ),
                            persist: true,
                        }
                    },
                }
            },
            _ => self.ignore(),
        }
    }

    /// Delivers one event and returns what to do next. `now` is the time of
    /// the delivery, in seconds since the Unix epoch.
    pub fn run_core_by_service(&mut self, event: ServiceEvent, now: u64) -> (step: ServiceStep)
        ensures
            step_model(*final(self), step) == old(self)@.step(event, now),
    {
        match event {
            ServiceEvent::Begin => self.on_begin(),
            ServiceEvent::Version { reply } => self.on_version(&reply, now),
            ServiceEvent::Status { reply } => self.on_status(&reply, now),
            ServiceEvent::Started { reply } => self.on_started(&reply, now),
            ServiceEvent::Installed { result } => self.on_installed(result, now),
        }
    }
}

/// The manager after a step together with what the step returned.
pub open spec fn step_model(manager: ServiceLifecycleManager, step: ServiceStep) -> LifecycleStepModel {
    LifecycleStepModel { manager: manager@, action: step.action@, persist: step.persist }
}

/// The installer is asked for only while reinstalling is not throttled.
pub proof fn lemma_install_respects_throttle(manager: LifecycleModel, event: ServiceEvent, now: u64)
    requires
        manager.step(event, now).action is Install,
    ensures
        manager.state.can_reinstall(now),
{
}

/// A version that could not be had is no reason to reinstall: the manager
/// goes on to ask whether the service answers, and the bookkeeping stays as
/// it is.
pub proof fn lemma_unknown_version_never_reinstalls(manager: LifecycleModel, reply: IpcReply, now: u64)
    requires
        version_of(reply) is Err,
    ensures
        !(manager.step(ServiceEvent::Version { reply }, now).action is Install),
        manager.step(ServiceEvent::Version { reply }, now).manager.state == manager.state,
        manager.phase == StartPhase::CheckingVersion ==> manager.step(
            ServiceEvent::Version { reply },
            now,
        ).action == ServiceActionModel::QueryStatus,
{
}

/// The bookkeeping changes only when the installer has run, and every such
/// change is to be saved.
pub proof fn lemma_state_changes_with_installer_only(
    manager: LifecycleModel,
    event: ServiceEvent,
    now: u64,
)
    ensures
        manager.step(event, now).manager.state != manager.state ==> event is Installed
            && manager.step(event, now).persist,
{
}

/// Every run comes to an end: each event that the manager takes brings the
/// end closer, and a run takes eight deliveries at most after it has begun.
pub proof fn lemma_every_step_makes_progress(manager: LifecycleModel, event: ServiceEvent, now: u64)
    requires
        !(event is Begin),
        !(manager.step(event, now).action is Ignored),
    ensures
        manager.step(event, now).manager.remaining() < manager.remaining(),
        manager.remaining() <= 8,
{
}

/// A run is over exactly when the manager says so, and it says so with the
/// engine started or with an error.
pub proof fn lemma_done_ends_the_run(manager: LifecycleModel, event: ServiceEvent, now: u64)
    requires
        !(manager.step(event, now).action is Ignored),
    ensures
        manager.step(event, now).action is Done <==> manager.step(event, now).manager.phase
            == StartPhase::Finished,
        manager.step(event, now).action == ServiceActionModel::Done(Ok(())) ==> manager.step(
            event,
            now,
        ).manager.status == ServiceStatus::Running,
{
}

/// A run ends well only when the service has reported that it started the
/// engine: nothing else counts as success.
pub proof fn lemma_success_means_started(manager: LifecycleModel, event: ServiceEvent, now: u64)
    requires
        manager.step(event, now).action == ServiceActionModel::Done(Ok(())),
    ensures
        event is Started,
        command_of(event->Started_reply, IpcCommand::Start) is Ok,
{
}

/// A service of another version is reinstalled where that is allowed, and
/// is used as it is where it is not.
pub proof fn lemma_mismatch_reinstalls_or_degrades(manager: LifecycleModel, reply: IpcReply, now: u64)
    requires
        manager.phase == StartPhase::CheckingVersion,
        version_of(reply) is Ok,
        !version_matches(reply),
    ensures
        manager.step(ServiceEvent::Version { reply }, now).action == (if manager.state.can_reinstall(
            now,
        ) {
            ServiceActionModel::Install
        } else {
            ServiceActionModel::StartCore
        }),
{
}

} // verus!
