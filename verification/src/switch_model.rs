//! The profile switch as a state machine over mathematical values.
//!
//! A request is *accepted* (it draws a sequence number), waits for the update
//! lock, and then runs through the critical section: lock acquired, target
//! validated, draft written, kernel updating. It ends committed, rolled back
//! or abandoned. At every checkpoint a request that has been overtaken by a
//! later one gives way: it drops what it has drafted and ends abandoned,
//! without telling the user, since the later request will report.
//!
//! The functions here say, for every state, ticket and event, what the next
//! state is and what the caller is asked to do. The executable coordinator is
//! proved to compute exactly these.

use crate::notice::{NoticeKind, NoticeModel};
use crate::profiles::ProfilesModel;
use crate::sequencer::{stale_at, TicketModel};
use crate::store::StoreModel;
use vstd::prelude::*;

verus! {

/// Where the request inside the critical section stands. A request that
/// has its number and waits for the lock is in none of these phases yet, and
/// a coordinator without a request in the critical section is idle.
#[derive(Clone, Copy, PartialEq, Eq, Structural, Debug)]
pub enum SwitchPhase {
    /// It holds the update lock and has noted which profile is active.
    LockAcquired,
    /// The target's document has passed the check, or needs none.
    TargetValidated,
    /// The draft with the requested change is written.
    DraftWritten,
    /// The proxy engine has been asked to take the draft over.
    KernelUpdating,
}

/// How a request ended.
#[derive(Clone, Copy, PartialEq, Eq, Structural, Debug)]
pub enum SwitchOutcome {
    /// The draft became the committed state.
    Committed,
    /// The draft was dropped and the profile that was active before is
    /// active again.
    RolledBack,
    /// The request stopped without changing anything.
    Abandoned,
}

/// The request inside the critical section.
pub struct ActiveModel {
    pub sequence: u64,
    pub target: Option<Seq<char>>,
    /// The profile that was active when the lock was acquired.
    pub previous: Option<Seq<char>>,
    pub phase: SwitchPhase,
}

/// What a finished request reports.
pub struct ReportModel {
    pub outcome: SwitchOutcome,
    pub notice: Option<NoticeModel>,
    /// Whether caches and menus that show the active profile are to be
    /// refreshed.
    pub refresh: bool,
    /// Whether the profiles are to be written to disk.
    pub save: bool,
}

/// What the caller is asked to do next.
pub enum ActionModel {
    /// The lock is taken: wait for it, for a short while at most.
    WaitForLock,
    /// The lock is taken and this is the newest request: wait as long as it
    /// takes.
    BlockForLock,
    /// Read the target's document and report what came of it.
    ReadDocument { file: Seq<char> },
    /// Nothing to do outside: go on to the next checkpoint.
    Proceed,
    /// Ask the proxy engine to take the draft over and report its answer.
    UpdateKernel,
    /// The request is over.
    Finished(ReportModel),
    /// The event does not apply to this ticket in this state.
    Ignored,
}

/// What the proxy engine answered.
pub enum KernelModel {
    /// It runs the new configuration.
    Validated,
    /// It refused the configuration.
    Rejected { message: Seq<char> },
    /// The update failed before the engine gave a verdict.
    Failed { message: Seq<char> },
    /// No answer came within the time limit.
    TimedOut,
}

/// What is delivered to the state machine.
pub enum EventModel {
    /// The ticket asks for the update lock.
    Acquire,
    /// The ticket has waited for the lock as long as it waits at first.
    LockTimeout,
    /// The verdict on the target's document: `None` where it stands, else
    /// the notice that says why not.
    Validation { refusal: Option<NoticeModel> },
    /// The caller has nothing to report and goes on.
    Advance,
    /// The proxy engine's answer.
    Kernel { outcome: KernelModel },
    /// The caller gives the request up, wherever it stands.
    Cancel,
}

/// What the notice says when the engine gives no answer in time.
pub open spec fn kernel_timeout_text() -> Seq<char> {
    "Profile update timed out (30s), possibly due to validation or kernel communication"@
}

/// The report of a request that gave way or had nothing to do.
pub open spec fn abandoned_report() -> ReportModel {
    ReportModel { outcome: SwitchOutcome::Abandoned, notice: None, refresh: false, save: false }
}

/// The result of one step.
pub struct StepModel {
    pub coordinator: CoordinatorModel,
    pub action: ActionModel,
}

/// The coordinator's state.
pub struct CoordinatorModel {
    /// The sequence number drawn last.
    pub counter: u64,
    /// The highest sequence number that entered the critical section while
    /// it was the newest.
    pub entered: u64,
    /// The request that holds the update lock.
    pub active: Option<ActiveModel>,
    pub store: StoreModel<ProfilesModel>,
}

impl CoordinatorModel {
    /// A coordinator that has seen no request yet.
    pub open spec fn idle(profiles: ProfilesModel) -> Self {
        CoordinatorModel {
            counter: 0,
            entered: 0,
            active: None,
            store: StoreModel { committed: profiles, pending: None },
        }
    }

    /// The committed profiles.
    pub open spec fn latest(self) -> ProfilesModel {
        self.store.committed
    }

    pub open spec fn stale(self, ticket: TicketModel) -> bool {
        stale_at(ticket.sequence, self.counter)
    }

    /// The ticket's number was drawn from this coordinator's counter.
    pub open spec fn issued(self, ticket: TicketModel) -> bool {
        1 <= ticket.sequence <= self.counter
    }

    /// The ticket holds the update lock.
    pub open spec fn holds(self, ticket: TicketModel) -> bool {
        match self.active {
            Some(active) => active.sequence == ticket.sequence,
            None => false,
        }
    }

    /// The profile that is marked as being processed: the target of the
    /// request in the critical section, from the moment its draft is written.
    pub open spec fn processing(self) -> Option<Seq<char>> {
        match self.active {
            Some(active) => if active.phase == SwitchPhase::DraftWritten || active.phase
                == SwitchPhase::KernelUpdating {
                active.target
            } else {
                None
            },
            None => None,
        }
    }

    /// The document to check before switching to `target`: the file of the
    /// target's item, where the target is not already active.
    pub open spec fn document_needed(self, target: Option<Seq<char>>) -> Option<Seq<char>> {
        match target {
            Some(uid) => if self.latest().current == Some(uid) {
                None
            } else {
                match self.latest().lookup(uid) {
                    Some(item) => item.file,
                    None => None,
                }
            },
            None => None,
        }
    }

    /// The active request and its draft are bound together as they should
    /// be, and the committed profiles are well formed.
    pub open spec fn wf(self) -> bool {
        &&& self.entered <= self.counter
        &&& self.latest().wf()
        &&& match self.active {
            None => self.store.pending.is_none(),
            Some(active) => {
                &&& 1 <= active.sequence
                &&& active.sequence == self.entered
                &&& active.previous == self.latest().current
                &&& match active.phase {
                    SwitchPhase::LockAcquired => self.store.pending.is_none(),
                    SwitchPhase::TargetValidated => self.store.pending.is_none(),
                    SwitchPhase::DraftWritten => self.store.pending == Some(
                        self.latest().patch(active.target),
                    ),
                    SwitchPhase::KernelUpdating => self.store.pending == Some(
                        self.latest().patch(active.target),
                    ),
                }
            },
        }
    }

    /// A new request is accepted: it draws the next number.
    pub open spec fn accept(self) -> Self
        recommends
            self.counter < u64::MAX,
    {
        CoordinatorModel { counter: (self.counter + 1) as u64, ..self }
    }

    /// The ticket that `accept` hands out for `target`.
    pub open spec fn next_ticket(self, target: Option<Seq<char>>) -> TicketModel {
        TicketModel { sequence: (self.counter + 1) as u64, target }
    }

    /// The critical section is left and no draft remains.
    pub open spec fn release(self) -> Self {
        CoordinatorModel { active: None, store: self.store.discard(), ..self }
    }

    /// The critical section is left with the draft committed.
    pub open spec fn commit(self) -> Self {
        CoordinatorModel { active: None, store: self.store.apply(), ..self }
    }

    /// The critical section is left with the draft dropped and, where a
    /// profile was active before, a draft that makes it active again
    /// committed at once.
    pub open spec fn roll_back(self, previous: Option<Seq<char>>) -> Self {
        let dropped = self.store.discard();
        CoordinatorModel {
            active: None,
            store: match previous {
                Some(uid) => dropped.draft(dropped.latest().patch(Some(uid))).apply(),
                None => dropped,
            },
            ..self
        }
    }

    /// The active request moves on to `phase`.
    pub open spec fn enter(self, active: ActiveModel, phase: SwitchPhase) -> Self {
        CoordinatorModel { active: Some(ActiveModel { phase, ..active }), ..self }
    }

    /// The ticket gives way: the request is over and nothing is reported to
    /// the user.
    pub open spec fn give_way(self) -> StepModel {
        StepModel { coordinator: self.release(), action: ActionModel::Finished(abandoned_report()) }
    }

    /// The event is turned away and nothing changes.
    pub open spec fn ignore(self) -> StepModel {
        StepModel { coordinator: self, action: ActionModel::Ignored }
    }

    /// The ticket asks for the lock. A ticket that was never issued, or that
    /// has been through the critical section, is turned away. While the lock
    /// is taken the ticket waits. With the lock in hand a stale ticket gives
    /// way at once; another notes the active profile and is told whether the
    /// target's document needs checking.
    pub open spec fn acquire(self, ticket: TicketModel) -> StepModel {
        if !self.issued(ticket) || ticket.sequence == self.entered {
            self.ignore()
        } else if self.active.is_some() {
            StepModel { coordinator: self, action: ActionModel::WaitForLock }
        } else if self.stale(ticket) {
            StepModel { coordinator: self, action: ActionModel::Finished(abandoned_report()) }
        } else {
            StepModel {
                coordinator: CoordinatorModel {
                    entered: ticket.sequence,
                    active: Some(
                        ActiveModel {
                            sequence: ticket.sequence,
                            target: ticket.target,
                            previous: self.latest().current,
                            phase: SwitchPhase::LockAcquired,
                        },
                    ),
                    ..self
                },
                action: match self.document_needed(ticket.target) {
                    Some(file) => ActionModel::ReadDocument { file },
                    None => ActionModel::Proceed,
                },
            }
        }
    }

    /// The ticket has waited for the lock in vain. A stale ticket gives way;
    /// the newest one is told to wait as long as it takes.
    pub open spec fn lock_timeout(self, ticket: TicketModel) -> StepModel {
        if !self.issued(ticket) || ticket.sequence == self.entered {
            self.ignore()
        } else if self.stale(ticket) {
            StepModel { coordinator: self, action: ActionModel::Finished(abandoned_report()) }
        } else {
            StepModel { coordinator: self, action: ActionModel::BlockForLock }
        }
    }

    /// The verdict on the target's document arrives. It counts only while
    /// the request waits for it. A refusal ends the request with the notice
    /// that says why; nothing has been changed by then.
    pub open spec fn validation(self, ticket: TicketModel, refusal: Option<NoticeModel>) -> StepModel {
        if !self.holds(ticket) {
            self.ignore()
        } else {
            let active = self.active.unwrap();
            if active.phase != SwitchPhase::LockAcquired || self.document_needed(
                active.target,
            ).is_none() {
                self.ignore()
            } else {
                match refusal {
                    Some(notice) => StepModel {
                        coordinator: self.release(),
                        action: ActionModel::Finished(
                            ReportModel {
                                outcome: SwitchOutcome::Abandoned,
                                notice: Some(notice),
                                refresh: false,
                                save: false,
                            },
                        ),
                    },
                    None => StepModel {
                        coordinator: self.enter(active, SwitchPhase::TargetValidated),
                        action: ActionModel::Proceed,
                    },
                }
            }
        }
    }

    /// The request goes on to its next checkpoint.
    ///
    /// With the lock just acquired, a target whose document needs checking
    /// is sent back to have it checked. Before the draft is written and
    /// before the engine is asked, a stale request gives way.
    pub open spec fn advance(self, ticket: TicketModel) -> StepModel {
        if !self.holds(ticket) {
            self.ignore()
        } else {
            let active = self.active.unwrap();
            match active.phase {
                SwitchPhase::LockAcquired => match self.document_needed(active.target) {
                    Some(file) => StepModel {
                        coordinator: self,
                        action: ActionModel::ReadDocument { file },
                    },
                    None => StepModel {
                        coordinator: self.enter(active, SwitchPhase::TargetValidated),
                        action: ActionModel::Proceed,
                    },
                },
                SwitchPhase::TargetValidated => if self.stale(ticket) {
                    self.give_way()
                } else {
                    StepModel {
                        coordinator: CoordinatorModel {
                            active: Some(ActiveModel { phase: SwitchPhase::DraftWritten, ..active }),
                            store: self.store.draft(self.latest().patch(active.target)),
                            ..self
                        },
                        action: ActionModel::Proceed,
                    }
                },
                SwitchPhase::DraftWritten => if self.stale(ticket) {
                    self.give_way()
                } else {
                    StepModel {
                        coordinator: self.enter(active, SwitchPhase::KernelUpdating),
                        action: ActionModel::UpdateKernel,
                    }
                },
                SwitchPhase::KernelUpdating => self.ignore(),
            }
        }
    }

    /// The proxy engine's answer arrives.
    ///
    /// Success commits the draft, unless the request has been overtaken
    /// meanwhile. A refusal rolls back and passes the engine's words on. A
    /// failure before any verdict drops the draft and passes the error on. A
    /// timeout rolls back and says so, unless the request has been overtaken:
    /// then it only gives way.
    pub open spec fn kernel(self, ticket: TicketModel, outcome: KernelModel) -> StepModel {
        if !self.holds(ticket) {
            self.ignore()
        } else {
            let active = self.active.unwrap();
            if active.phase != SwitchPhase::KernelUpdating {
                self.ignore()
            } else {
                match outcome {
                    KernelModel::Validated => if self.stale(ticket) {
                        self.give_way()
                    } else {
                        StepModel {
                            coordinator: self.commit(),
                            action: ActionModel::Finished(
                                ReportModel {
                                    outcome: SwitchOutcome::Committed,
                                    notice: match active.target {
                                        Some(uid) => Some(
                                            NoticeModel {
                                                kind: NoticeKind::ProfileChanged,
                                                detail: uid,
                                            },
                                        ),
                                        None => None,
                                    },
                                    refresh: true,
                                    save: true,
                                },
                            ),
                        }
                    },
                    KernelModel::Rejected { message } => StepModel {
                        coordinator: self.roll_back(active.previous),
                        action: ActionModel::Finished(
                            ReportModel {
                                outcome: SwitchOutcome::RolledBack,
                                notice: Some(
                                    NoticeModel { kind: NoticeKind::ValidateError, detail: message },
                                ),
                                refresh: false,
                                save: active.previous.is_some(),
                            },
                        ),
                    },
                    KernelModel::Failed { message } => StepModel {
                        coordinator: self.release(),
                        action: ActionModel::Finished(
                            ReportModel {
                                outcome: SwitchOutcome::Abandoned,
                                notice: Some(
                                    NoticeModel { kind: NoticeKind::BootError, detail: message },
                                ),
                                refresh: false,
                                save: false,
                            },
                        ),
                    },
                    KernelModel::TimedOut => if self.stale(ticket) {
                        self.give_way()
                    } else {
                        StepModel {
                            coordinator: self.roll_back(active.previous),
                            action: ActionModel::Finished(
                                ReportModel {
                                    outcome: SwitchOutcome::RolledBack,
                                    notice: Some(
                                        NoticeModel {
                                            kind: NoticeKind::ValidateTimeout,
                                            detail: kernel_timeout_text(),
                                        },
                                    ),
                                    refresh: false,
                                    save: active.previous.is_some(),
                                },
                            ),
                        }
                    },
                }
            }
        }
    }

    /// The caller gives the request up. A request inside the critical
    /// section leaves it and drops its draft; one that waits for the lock
    /// just goes. Either way nobody is told.
    pub open spec fn cancel(self, ticket: TicketModel) -> StepModel {
        if self.holds(ticket) {
            self.give_way()
        } else if !self.issued(ticket) || ticket.sequence == self.entered {
            self.ignore()
        } else {
            StepModel { coordinator: self, action: ActionModel::Finished(abandoned_report()) }
        }
    }

    /// One step of the state machine.
    pub open spec fn step(self, ticket: TicketModel, event: EventModel) -> StepModel {
        match event {
            EventModel::Cancel => self.cancel(ticket),
            EventModel::Acquire => self.acquire(ticket),
            EventModel::LockTimeout => self.lock_timeout(ticket),
            EventModel::Validation { refusal } => self.validation(ticket, refusal),
            EventModel::Advance => self.advance(ticket),
            EventModel::Kernel { outcome } => self.kernel(ticket, outcome),
        }
    }

    /// The state after a sequence of deliveries, first to last.
    pub open spec fn run(self, deliveries: Seq<(TicketModel, EventModel)>) -> Self
        decreases deliveries.len(),
    {
        if deliveries.len() == 0 {
            self
        } else {
            self.step(deliveries[0].0, deliveries[0].1).coordinator.run(deliveries.drop_first())
        }
    }
}

} // verus!
