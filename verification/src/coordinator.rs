//! The profile switch coordinator.
//!
//! The coordinator owns the request counter, the update lock, the marker of
//! the profile being processed and the profile store. A caller accepts a
//! request, which yields a ticket, and then delivers events for that ticket
//! one at a time; each delivery returns the action to perform next. The
//! coordinator never waits and never performs I/O itself.
//!
//! What every delivery does is stated by the transition functions of
//! [`CoordinatorModel`].

use crate::notice::{notice_model, Notice, NoticeKind};
use crate::profiles::{ProfileError, ProfileItem, ProfilesState};
use crate::sequencer::{RequestSequencer, RequestTicket};
use crate::store::{DraftStore, StoreModel};
use crate::switch_laws::lemma_step_keeps_wf;
use crate::switch_model::{
    ActionModel, ActiveModel, CoordinatorModel, EventModel, KernelModel, ReportModel, StepModel,
    SwitchOutcome, SwitchPhase,
};
use crate::text::clone_text;
use crate::validation::{validate_document, DocumentRead, refusal, syntax_verdict, verdict_model};
use vstd::prelude::*;

verus! {

/// How long a request waits for the update lock before it looks whether it
/// has been overtaken, in milliseconds.
pub const LOCK_WAIT_MILLIS: u64 = 100;

/// The time limit for reading the target's document, in seconds.
pub const DOCUMENT_READ_SECS: u64 = 5;

/// The time limit for the proxy engine's answer, in seconds.
pub const KERNEL_UPDATE_SECS: u64 = 30;

/// What the proxy engine answered.
#[derive(Debug, PartialEq, Eq)]
pub enum KernelOutcome {
    /// It runs the new configuration.
    Validated,
    /// It refused the configuration, with these words.
    Rejected { message: String },
    /// The update failed before the engine gave a verdict.
    Failed { message: String },
    /// No answer came within the time limit.
    TimedOut,
}

impl View for KernelOutcome {
    type V = KernelModel;

    open spec fn view(&self) -> KernelModel {
        match self {
            KernelOutcome::Validated => KernelModel::Validated,
            KernelOutcome::Rejected { message } => KernelModel::Rejected { message: message@ },
            KernelOutcome::Failed { message } => KernelModel::Failed { message: message@ },
            KernelOutcome::TimedOut => KernelModel::TimedOut,
        }
    }
}

/// What is delivered to the coordinator.
#[derive(Debug, PartialEq, Eq)]
pub enum SwitchEvent {
    /// The ticket asks for the update lock.
    Acquire,
    /// The ticket has waited [`LOCK_WAIT_MILLIS`] for the lock.
    LockTimeout,
    /// The verdict on the target's document.
    Validation { verdict: Result<(), Notice> },
    /// The caller has nothing to report and goes on.
    Advance,
    /// The proxy engine's answer.
    Kernel { outcome: KernelOutcome },
    /// The caller gives the request up, wherever it stands. To be delivered
    /// when whoever drives the request stops before it is over.
    Cancel,
}

impl View for SwitchEvent {
    type V = EventModel;

    open spec fn view(&self) -> EventModel {
        match self {
            SwitchEvent::Acquire => EventModel::Acquire,
            SwitchEvent::LockTimeout => EventModel::LockTimeout,
            SwitchEvent::Validation { verdict } => EventModel::Validation {
                refusal: verdict_model(*verdict),
            },
            SwitchEvent::Advance => EventModel::Advance,
            SwitchEvent::Kernel { outcome } => EventModel::Kernel { outcome: outcome@ },
            SwitchEvent::Cancel => EventModel::Cancel,
        }
    }
}

/// What a finished request reports.
#[derive(Debug, PartialEq, Eq)]
pub struct SwitchReport {
    pub outcome: SwitchOutcome,
    /// The event to pass on to the user interface.
    pub notice: Option<Notice>,
    /// Whether caches and menus that show the active profile are to be
    /// refreshed. Best effort: a failure there does not undo the switch.
    pub refresh: bool,
    /// Whether the profiles are to be written to disk. Best effort too.
    pub save: bool,
}

impl View for SwitchReport {
    type V = ReportModel;

    open spec fn view(&self) -> ReportModel {
        ReportModel {
            outcome: self.outcome,
            notice: notice_model(self.notice),
            refresh: self.refresh,
            save: self.save,
        }
    }
}

impl SwitchReport {
    /// Whether the requested change took effect.
    pub fn applied(&self) -> (applied: bool)
        ensures
            applied == (self.outcome == SwitchOutcome::Committed),
    {
        match self.outcome {
            SwitchOutcome::Committed => true,
            _ => false,
        }
    }

    fn abandoned() -> (report: Self)
        ensures
            report@ == crate::switch_model::abandoned_report(),
    {
        SwitchReport { outcome: SwitchOutcome::Abandoned, notice: None, refresh: false, save: false }
    }
}

/// What the caller is asked to do next.
#[derive(Debug, PartialEq, Eq)]
pub enum SwitchAction {
    /// The lock is taken. Deliver `Acquire` again when it may be free, or
    /// `LockTimeout` after [`LOCK_WAIT_MILLIS`].
    WaitForLock,
    /// The lock is taken and this is the newest request. Deliver `Acquire`
    /// again when the lock may be free, however long that takes.
    BlockForLock,
    /// Read the document `file` of the profiles directory, within
    /// [`DOCUMENT_READ_SECS`], and deliver what came of it.
    ReadDocument { file: String },
    /// Deliver `Advance`.
    Proceed,
    /// Ask the proxy engine to take the draft over, within
    /// [`KERNEL_UPDATE_SECS`], and deliver its answer.
    UpdateKernel,
    /// The request is over.
    Finished(SwitchReport),
    /// The event does not apply to this ticket in this state.
    Ignored,
}

impl View for SwitchAction {
    type V = ActionModel;

    open spec fn view(&self) -> ActionModel {
        match self {
            SwitchAction::WaitForLock => ActionModel::WaitForLock,
            SwitchAction::BlockForLock => ActionModel::BlockForLock,
            SwitchAction::ReadDocument { file } => ActionModel::ReadDocument { file: file@ },
            SwitchAction::Proceed => ActionModel::Proceed,
            SwitchAction::UpdateKernel => ActionModel::UpdateKernel,
            SwitchAction::Finished(report) => ActionModel::Finished(report@),
            SwitchAction::Ignored => ActionModel::Ignored,
        }
    }
}

/// The request inside the critical section.
#[derive(Debug)]
struct ActiveSwitch {
    sequence: u64,
    target: Option<String>,
    previous: Option<String>,
    phase: SwitchPhase,
}

impl View for ActiveSwitch {
    type V = ActiveModel;

    closed spec fn view(&self) -> ActiveModel {
        ActiveModel {
            sequence: self.sequence,
            target: self.target.deep_view(),
            previous: self.previous.deep_view(),
            phase: self.phase,
        }
    }
}

/// Why the list of profiles could not be changed.
#[derive(Clone, Copy, PartialEq, Eq, Structural, Debug)]
pub enum EditError {
    /// A switch is under way; the list is changed between switches only.
    Busy,
    /// The list refused the change.
    Refused(ProfileError),
}

/// Serialises profile switches so that only the newest request takes
/// effect.
#[derive(Debug)]
pub struct ProfileSwitchCoordinator {
    sequencer: RequestSequencer,
    entered: u64,
    active: Option<ActiveSwitch>,
    store: DraftStore<ProfilesState>,
}

impl View for ProfileSwitchCoordinator {
    type V = CoordinatorModel;

    closed spec fn view(&self) -> CoordinatorModel {
        CoordinatorModel {
            counter: self.sequencer.current(),
            entered: self.entered,
            active: match self.active {
                Some(active) => Some(active@),
                None => None,
            },
            store: StoreModel {
                committed: self.store@.committed@,
                pending: match self.store@.pending {
                    Some(draft) => Some(draft@),
                    None => None,
                },
            },
        }
    }
}

impl Clone for ActiveSwitch {
    fn clone(&self) -> (copy: Self)
        ensures
            copy@ == self@,
    {
        ActiveSwitch {
            sequence: self.sequence,
            target: clone_text(&self.target),
            previous: clone_text(&self.previous),
            phase: self.phase,
        }
    }
}

impl Clone for ProfileSwitchCoordinator {
    /// A copy of the coordinator in the same state.
    fn clone(&self) -> (copy: Self)
        ensures
            copy@ == self@,
    {
        ProfileSwitchCoordinator {
            sequencer: self.sequencer.clone(),
            entered: self.entered,
            active: match &self.active {
                Some(active) => Some(active.clone()),
                None => None,
            },
            store: self.store.clone(),
        }
    }
}

impl ProfileSwitchCoordinator {
    /// A coordinator over `profiles` that has seen no request yet.
    pub fn new(profiles: ProfilesState) -> (coordinator: Self)
        ensures
            coordinator@ == CoordinatorModel::idle(profiles@),
            profiles@.wf() ==> coordinator@.wf(),
    {
        ProfileSwitchCoordinator {
            sequencer: RequestSequencer::new(),
            entered: 0,
            active: None,
            store: DraftStore::new(profiles),
        }
    }

    /// The committed profiles. A draft in the making is never seen here.
    pub fn latest(&self) -> (profiles: &ProfilesState)
        ensures
            profiles@ == self@.latest(),
    {
        self.store.latest()
    }

    /// The sequence number drawn last.
    pub fn current_sequence(&self) -> (counter: u64)
        ensures
            counter == self@.counter,
    {
        self.sequencer.load()
    }

    /// Whether the ticket has been overtaken by a later request.
    pub fn is_stale(&self, ticket: &RequestTicket) -> (stale: bool)
        ensures
            stale == self@.stale(ticket@),
    {
        self.sequencer.is_stale(ticket.sequence)
    }

    /// Whether a request holds the update lock.
    pub fn is_locked(&self) -> (locked: bool)
        ensures
            locked == self@.active.is_some(),
    {
        self.active.is_some()
    }

    /// Where the request inside the critical section stands.
    pub fn phase(&self) -> (phase: Option<SwitchPhase>)
        ensures
            phase == (match self@.active {
                Some(active) => Some(active.phase),
                None => None,
            }),
    {
        match &self.active {
            Some(active) => Some(active.phase),
            None => None,
        }
    }

    /// The profile that is being switched to right now.
    pub fn processing_profile(&self) -> (marker: Option<String>)
        ensures
            marker.deep_view() == self@.processing(),
    {
        match &self.active {
            Some(active) => match active.phase {
                SwitchPhase::DraftWritten => clone_text(&active.target),
                SwitchPhase::KernelUpdating => clone_text(&active.target),
                _ => None,
            },
            None => None,
        }
    }

    /// Whether another request can be numbered.
    pub fn can_accept(&self) -> (free: bool)
        ensures
            free == (self@.counter < u64::MAX),
    {
        self.sequencer.has_next()
    }

    /// Accepts a request to make `target` the active profile and hands out
    /// its ticket. Every ticket handed out before is stale from now on.
    pub fn accept(&mut self, target: Option<String>) -> (ticket: RequestTicket)
        requires
            old(self)@.counter < u64::MAX,
        ensures
            final(self)@ == old(self)@.accept(),
            ticket@ == old(self)@.next_ticket(target.deep_view()),
            old(self)@.wf() ==> final(self)@.wf(),
    {
        let sequence = self.sequencer.next_sequence();
        RequestTicket { sequence, target_profile: target }
    }

    fn issued(&self, ticket: &RequestTicket) -> (issued: bool)
        ensures
            issued == self@.issued(ticket@),
    {
        1 <= ticket.sequence && ticket.sequence <= self.sequencer.load()
    }

    fn holds(&self, ticket: &RequestTicket) -> (holds: bool)
        ensures
            holds == self@.holds(ticket@),
    {
        match &self.active {
            Some(active) => active.sequence == ticket.sequence,
            None => false,
        }
    }

    fn document_needed(&self, target: &Option<String>) -> (file: Option<String>)
        ensures
            file.deep_view() == self@.document_needed(target.deep_view()),
    {
        match target {
            Some(uid) => {
                let current = self.store.latest().get_current();
                let same = match &current {
                    Some(active) => *active == *uid,
                    None => false,
                };
                if same {
                    None
                } else {
                    match self.store.latest().get_item(uid) {
                        Ok(item) => clone_text(&item.file),
                        Err(_) => None,
                    }
                }
            },
            None => None,
        }
    }

    /// Leaves the critical section and drops the draft.
    fn release(&mut self)
        ensures
            final(self)@ == old(self)@.release(),
    {
        self.active = None;
        let _ = self.store.discard();
    }

    fn give_way(&mut self) -> (action: SwitchAction)
        ensures
            (StepModel { coordinator: final(self)@, action: action@ }) == old(self)@.give_way(),
    {
        self.release();
        SwitchAction::Finished(SwitchReport::abandoned())
    }

    fn roll_back(&mut self, previous: &Option<String>)
        ensures
            final(self)@ == old(self)@.roll_back(previous.deep_view()),
    {
        self.active = None;
        let _ = self.store.discard();
        match previous {
            Some(uid) => {
                let mut restored = self.store.latest().clone();
                restored.patch_config(previous);
                self.store.draft(restored);
                let _ = self.store.apply();
            },
            None => {},
        }
    }

    fn on_acquire(&mut self, ticket: &RequestTicket) -> (action: SwitchAction)
        ensures
            (StepModel { coordinator: final(self)@, action: action@ }) == old(self)@.acquire(
                ticket@,
            ),
    {
        if !self.issued(ticket) || ticket.sequence == self.entered {
            return SwitchAction::Ignored;
        }
        if self.active.is_some() {
            return SwitchAction::WaitForLock;
        }
        if self.sequencer.is_stale(ticket.sequence) {
            return SwitchAction::Finished(SwitchReport::abandoned());
        }
        let previous = self.store.latest().get_current();
        let needed = self.document_needed(&ticket.target_profile);
        self.entered = ticket.sequence;
        self.active = Some(
            ActiveSwitch {
                sequence: ticket.sequence,
                target: clone_text(&ticket.target_profile),
                previous,
                phase: SwitchPhase::LockAcquired,
            },
        );
        match needed {
            Some(file) => SwitchAction::ReadDocument { file },
            None => SwitchAction::Proceed,
        }
    }

    fn on_lock_timeout(&self, ticket: &RequestTicket) -> (action: SwitchAction)
        ensures
            (StepModel { coordinator: self@, action: action@ }) == self@.lock_timeout(ticket@),
    {
        if !self.issued(ticket) || ticket.sequence == self.entered {
            SwitchAction::Ignored
        } else if self.sequencer.is_stale(ticket.sequence) {
            SwitchAction::Finished(SwitchReport::abandoned())
        } else {
            SwitchAction::BlockForLock
        }
    }

    fn on_validation(&mut self, ticket: &RequestTicket, verdict: Result<(), Notice>) -> (action:
        SwitchAction)
        ensures
            (StepModel { coordinator: final(self)@, action: action@ }) == old(self)@.validation(
                ticket@,
                verdict_model(verdict),
            ),
    {
        if !self.holds(ticket) {
            return SwitchAction::Ignored;
        }
        let active = match self.active.take() {
            Some(active) => active,
            None => {
                return SwitchAction::Ignored;
            },
        };
        let awaited = match active.phase {
            SwitchPhase::LockAcquired => self.document_needed(&active.target).is_some(),
            _ => false,
        };
        if !awaited {
            self.active = Some(active);
            return SwitchAction::Ignored;
        }
        match verdict {
            Err(notice) => {
                let _ = self.store.discard();
                SwitchAction::Finished(
                    SwitchReport {
                        outcome: SwitchOutcome::Abandoned,
                        notice: Some(notice),
                        refresh: false,
                        save: false,
                    },
                )
            },
            Ok(_) => {
                self.active = Some(
                    ActiveSwitch {
                        sequence: active.sequence,
                        target: active.target,
                        previous: active.previous,
                        phase: SwitchPhase::TargetValidated,
                    },
                );
                SwitchAction::Proceed
            },
        }
    }

    fn on_advance(&mut self, ticket: &RequestTicket) -> (action: SwitchAction)
        ensures
            (StepModel { coordinator: final(self)@, action: action@ }) == old(self)@.advance(
                ticket@,
            ),
    {
        if !self.holds(ticket) {
            return SwitchAction::Ignored;
        }
        let stale = self.sequencer.is_stale(ticket.sequence);
        let active = match self.active.take() {
            Some(active) => active,
            None => {
                return SwitchAction::Ignored;
            },
        };
        match active.phase {
            SwitchPhase::LockAcquired => {
                let needed = self.document_needed(&active.target);
                match needed {
                    Some(file) => {
                        self.active = Some(active);
                        SwitchAction::ReadDocument { file }
                    },
                    None => {
                        self.active = Some(
                            ActiveSwitch {
                                sequence: active.sequence,
                                target: active.target,
                                previous: active.previous,
                                phase: SwitchPhase::TargetValidated,
                            },
                        );
                        SwitchAction::Proceed
                    },
                }
            },
            SwitchPhase::TargetValidated => {
                if stale {
                    self.give_way()
                } else {
                    let mut draft = self.store.latest().clone();
                    draft.patch_config(&active.target);
                    self.store.draft(draft);
                    self.active = Some(
                        ActiveSwitch {
                            sequence: active.sequence,
                            target: active.target,
                            previous: active.previous,
                            phase: SwitchPhase::DraftWritten,
                        },
                    );
                    SwitchAction::Proceed
                }
            },
            SwitchPhase::DraftWritten => {
                if stale {
                    self.give_way()
                } else {
                    self.active = Some(
                        ActiveSwitch {
                            sequence: active.sequence,
                            target: active.target,
                            previous: active.previous,
                            phase: SwitchPhase::KernelUpdating,
                        },
                    );
                    SwitchAction::UpdateKernel
                }
            },
            SwitchPhase::KernelUpdating => {
                self.active = Some(active);
                SwitchAction::Ignored
            },
        }
    }

    fn on_kernel(&mut self, ticket: &RequestTicket, outcome: KernelOutcome) -> (action:
        SwitchAction)
        ensures
            (StepModel { coordinator: final(self)@, action: action@ }) == old(self)@.kernel(
                ticket@,
                outcome@,
            ),
    {
        if !self.holds(ticket) {
            return SwitchAction::Ignored;
        }
        let stale = self.sequencer.is_stale(ticket.sequence);
        let active = match self.active.take() {
            Some(active) => active,
            None => {
                return SwitchAction::Ignored;
            },
        };
        match active.phase {
            SwitchPhase::KernelUpdating => {},
            _ => {
                self.active = Some(active);
                return SwitchAction::Ignored;
            },
        }
        match outcome {
            KernelOutcome::Validated => {
                if stale {
                    self.give_way()
                } else {
                    let _ = self.store.apply();
                    SwitchAction::Finished(
                        SwitchReport {
                            outcome: SwitchOutcome::Committed,
                            notice: match active.target {
                                Some(uid) => Some(
                                    Notice { kind: NoticeKind::ProfileChanged, detail: uid },
                                ),
                                None => None,
                            },
                            refresh: true,
                            save: true,
                        },
                    )
                }
            },
            KernelOutcome::Rejected { message } => {
                self.roll_back(&active.previous);
                SwitchAction::Finished(
                    SwitchReport {
                        outcome: SwitchOutcome::RolledBack,
                        notice: Some(Notice { kind: NoticeKind::ValidateError, detail: message }),
                        refresh: false,
                        save: active.previous.is_some(),
                    },
                )
            },
            KernelOutcome::Failed { message } => {
                self.release();
                SwitchAction::Finished(
                    SwitchReport {
                        outcome: SwitchOutcome::Abandoned,
                        notice: Some(Notice { kind: NoticeKind::BootError, detail: message }),
                        refresh: false,
                        save: false,
                    },
                )
            },
            KernelOutcome::TimedOut => {
                if stale {
                    self.give_way()
                } else {
                    self.roll_back(&active.previous);
                    SwitchAction::Finished(
                        SwitchReport {
                            outcome: SwitchOutcome::RolledBack,
                            notice: Some(
                                Notice {
                                    kind: NoticeKind::ValidateTimeout,
                                    detail: "Profile update timed out (30s), possibly due to validation or kernel communication".to_owned(),
                                },
                            ),
                            refresh: false,
                            save: active.previous.is_some(),
                        },
                    )
                }
            },
        }
    }

    fn on_cancel(&mut self, ticket: &RequestTicket) -> (action: SwitchAction)
        ensures
            (StepModel { coordinator: final(self)@, action: action@ }) == old(self)@.cancel(
                ticket@,
            ),
    {
        if self.holds(ticket) {
            self.give_way()
        } else if !self.issued(ticket) || ticket.sequence == self.entered {
            SwitchAction::Ignored
        } else {
            SwitchAction::Finished(SwitchReport::abandoned())
        }
    }

    /// Delivers one event for `ticket` and returns what to do next.
    pub fn step(&mut self, ticket: &RequestTicket, event: SwitchEvent) -> (action: SwitchAction)
        ensures
            (StepModel { coordinator: final(self)@, action: action@ }) == old(self)@.step(
                ticket@,
                event@,
            ),
            old(self)@.wf() ==> final(self)@.wf(),
    {
        proof {
            if self@.wf() {
                lemma_step_keeps_wf(self@, ticket@, event@);
            }
        }
        match event {
            SwitchEvent::Acquire => self.on_acquire(ticket),
            SwitchEvent::LockTimeout => self.on_lock_timeout(ticket),
            SwitchEvent::Validation { verdict } => self.on_validation(ticket, verdict),
            SwitchEvent::Advance => self.on_advance(ticket),
            SwitchEvent::Kernel { outcome } => self.on_kernel(ticket, outcome),
            SwitchEvent::Cancel => self.on_cancel(ticket),
        }
    }

    /// Judges what came of reading the target's document, running the YAML
    /// parser on a document that was read, and delivers the verdict.
    pub fn deliver_document(&mut self, ticket: &RequestTicket, read: DocumentRead) -> (action:
        SwitchAction)
        ensures
            (StepModel { coordinator: final(self)@, action: action@ }) == old(self)@.validation(
                ticket@,
                refusal(read, syntax_verdict(read)),
            ),
            old(self)@.wf() ==> final(self)@.wf(),
    {
        let verdict = validate_document(&read);
        self.step(ticket, SwitchEvent::Validation { verdict })
    }

    /// Adds an item to the committed profiles. Refused while a switch is
    /// under way.
    pub fn append_item(&mut self, item: ProfileItem) -> (outcome: Result<(), EditError>)
        ensures
            match outcome {
                Ok(_) => {
                    &&& old(self)@.active.is_none()
                    &&& old(self)@.latest().accepts(item@)
                    &&& final(self)@ == (CoordinatorModel {
                        store: StoreModel {
                            committed: old(self)@.latest().append(item@),
                            pending: None,
                        },
                        ..old(self)@
                    })
                },
                Err(error) => {
                    &&& final(self)@ == old(self)@
                    &&& error == (if old(self)@.active.is_some() {
                        EditError::Busy
                    } else if item@.uid.len() == 0 {
                        EditError::Refused(ProfileError::MissingUid)
                    } else {
                        EditError::Refused(ProfileError::DuplicateUid)
                    })
                    &&& old(self)@.active.is_some() || !old(self)@.latest().accepts(item@)
                },
            },
            old(self)@.wf() ==> final(self)@.wf(),
    {
        if self.active.is_some() {
            return Err(EditError::Busy);
        }
        let mut changed = self.store.latest().clone();
        match changed.append_item(item) {
            Ok(_) => {
                self.store.draft(changed);
                let _ = self.store.apply();
                Ok(())
            },
            Err(error) => Err(EditError::Refused(error)),
        }
    }

    /// Lays what `patch` says over an item of the committed profiles.
    /// Refused while a switch is under way.
    pub fn patch_item(&mut self, uid: &String, patch: &ProfileItem) -> (outcome: Result<
        (),
        EditError,
    >)
        ensures
            match outcome {
                Ok(_) => {
                    &&& old(self)@.active.is_none()
                    &&& old(self)@.latest().contains(uid@)
                    &&& final(self)@ == (CoordinatorModel {
                        store: StoreModel {
                            committed: old(self)@.latest().patch_item(uid@, patch@),
                            pending: None,
                        },
                        ..old(self)@
                    })
                },
                Err(error) => {
                    &&& final(self)@ == old(self)@
                    &&& error == (if old(self)@.active.is_some() {
                        EditError::Busy
                    } else {
                        EditError::Refused(ProfileError::NotFound)
                    })
                    &&& old(self)@.active.is_some() || !old(self)@.latest().contains(uid@)
                },
            },
            old(self)@.wf() ==> final(self)@.wf(),
    {
        if self.active.is_some() {
            return Err(EditError::Busy);
        }
        let mut changed = self.store.latest().clone();
        match changed.patch_item(uid, patch) {
            Ok(_) => {
                self.store.draft(changed);
                let _ = self.store.apply();
                Ok(())
            },
            Err(error) => Err(EditError::Refused(error)),
        }
    }

    /// Brings an item of the committed profiles up to date with what was
    /// fetched from its source. Refused while a switch is under way.
    pub fn update_item(&mut self, uid: &String, fetched: &ProfileItem) -> (outcome: Result<
        (),
        EditError,
    >)
        ensures
            match outcome {
                Ok(_) => {
                    &&& old(self)@.active.is_none()
                    &&& old(self)@.latest().contains(uid@)
                    &&& final(self)@ == (CoordinatorModel {
                        store: StoreModel {
                            committed: old(self)@.latest().update_item(uid@, fetched@),
                            pending: None,
                        },
                        ..old(self)@
                    })
                },
                Err(error) => {
                    &&& final(self)@ == old(self)@
                    &&& error == (if old(self)@.active.is_some() {
                        EditError::Busy
                    } else {
                        EditError::Refused(ProfileError::NotFound)
                    })
                    &&& old(self)@.active.is_some() || !old(self)@.latest().contains(uid@)
                },
            },
            old(self)@.wf() ==> final(self)@.wf(),
    {
        if self.active.is_some() {
            return Err(EditError::Busy);
        }
        let mut changed = self.store.latest().clone();
        match changed.update_item(uid, fetched) {
            Ok(_) => {
                self.store.draft(changed);
                let _ = self.store.apply();
                Ok(())
            },
            Err(error) => Err(EditError::Refused(error)),
        }
    }

    /// Moves an item of the committed profiles to the place of another.
    /// Refused while a switch is under way.
    pub fn reorder(&mut self, moved: &String, over: &String) -> (outcome: Result<(), EditError>)
        ensures
            match outcome {
                Ok(_) => {
                    &&& old(self)@.active.is_none()
                    &&& final(self)@ == (CoordinatorModel {
                        store: StoreModel {
                            committed: old(self)@.latest().reorder(moved@, over@),
                            pending: None,
                        },
                        ..old(self)@
                    })
                },
                Err(error) => {
                    &&& final(self)@ == old(self)@
                    &&& error == EditError::Busy
                    &&& old(self)@.active.is_some()
                },
            },
            old(self)@.wf() ==> final(self)@.wf(),
    {
        if self.active.is_some() {
            return Err(EditError::Busy);
        }
        let mut changed = self.store.latest().clone();
        changed.reorder(moved, over);
        self.store.draft(changed);
        let _ = self.store.apply();
        Ok(())
    }

    /// Removes an item from the committed profiles and says whether it was
    /// the active one. Refused while a switch is under way.
    pub fn delete_item(&mut self, uid: &String) -> (outcome: Result<bool, EditError>)
        ensures
            match outcome {
                Ok(was_current) => {
                    &&& old(self)@.active.is_none()
                    &&& old(self)@.latest().contains(uid@)
                    &&& was_current == (old(self)@.latest().current == Some(uid@))
                    &&& final(self)@ == (CoordinatorModel {
                        store: StoreModel {
                            committed: old(self)@.latest().remove(uid@),
                            pending: None,
                        },
                        ..old(self)@
                    })
                },
                Err(error) => {
                    &&& final(self)@ == old(self)@
                    &&& error == (if old(self)@.active.is_some() {
                        EditError::Busy
                    } else {
                        EditError::Refused(ProfileError::NotFound)
                    })
                    &&& old(self)@.active.is_some() || !old(self)@.latest().contains(uid@)
                },
            },
            old(self)@.wf() ==> final(self)@.wf(),
    {
        if self.active.is_some() {
            return Err(EditError::Busy);
        }
        let mut changed = self.store.latest().clone();
        match changed.delete_item(uid) {
            Ok(was_current) => {
                self.store.draft(changed);
                let _ = self.store.apply();
                Ok(was_current)
            },
            Err(error) => Err(EditError::Refused(error)),
        }
    }
}

} // verus!
