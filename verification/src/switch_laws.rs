//! What holds of every run of the profile switch.
//!
//! The laws are stated over [`CoordinatorModel`], whose transition functions
//! the executable coordinator is proved to compute.

use crate::notice::{NoticeKind, NoticeModel};
use crate::profiles::{lemma_patch_current_is_identity, lemma_patch_idempotent, lemma_patch_keeps_wf};
use crate::sequencer::TicketModel;
use crate::switch_model::{
    abandoned_report, ActionModel, CoordinatorModel, EventModel, KernelModel, ReportModel,
    StepModel, SwitchOutcome, SwitchPhase,
};
use vstd::prelude::*;

verus! {

/// Every step keeps the coordinator well formed, and no step draws a number.
pub proof fn lemma_step_keeps_wf(before: CoordinatorModel, ticket: TicketModel, event: EventModel)
    requires
        before.wf(),
    ensures
        before.step(ticket, event).coordinator.wf(),
        before.step(ticket, event).coordinator.counter == before.counter,
        before.step(ticket, event).coordinator.entered >= before.entered,
{
    let after = before.step(ticket, event).coordinator;
    match before.active {
        Some(active) => {
            lemma_patch_keeps_wf(before.latest(), active.target);
            lemma_patch_current_is_identity(before.latest());
        },
        None => {},
    }
}

/// Accepting a request keeps the coordinator well formed and changes
/// neither the profiles nor the critical section.
pub proof fn lemma_accept_keeps_wf(before: CoordinatorModel)
    requires
        before.wf(),
        before.counter < u64::MAX,
    ensures
        before.accept().wf(),
        before.accept().store == before.store,
        before.accept().active == before.active,
        before.accept().counter == before.counter + 1,
{
}

/// Only the newest request ever takes effect.
///
/// A step changes the committed profiles only when the proxy engine reports
/// success to the request that holds the lock and that request is the newest
/// one accepted. The change is then exactly the requested one, and the
/// request ends committed. In particular a request that has been overtaken
/// changes nothing, whatever is delivered for it.
pub proof fn lemma_only_the_newest_commits(
    before: CoordinatorModel,
    ticket: TicketModel,
    event: EventModel,
)
    requires
        before.wf(),
    ensures
        before.step(ticket, event).coordinator.latest() != before.latest() ==> {
            &&& event == (EventModel::Kernel { outcome: KernelModel::Validated })
            &&& before.holds(ticket)
            &&& ticket.sequence == before.counter
            &&& before.step(ticket, event).coordinator.latest() == before.latest().patch(
                before.active.unwrap().target,
            )
            &&& before.step(ticket, event).action is Finished
            &&& before.step(ticket, event).action->Finished_0.outcome == SwitchOutcome::Committed
        },
        before.stale(ticket) ==> before.step(ticket, event).coordinator.latest()
            == before.latest(),
{
    match before.active {
        Some(active) => {
            lemma_patch_current_is_identity(before.latest());
        },
        None => {},
    }
}

/// A step reports success only when it commits.
pub proof fn lemma_success_means_committed(
    before: CoordinatorModel,
    ticket: TicketModel,
    event: EventModel,
)
    requires
        before.wf(),
    ensures
        match before.step(ticket, event).action {
            ActionModel::Finished(report) => report.outcome == SwitchOutcome::Committed ==> {
                &&& before.holds(ticket)
                &&& !before.stale(ticket)
                &&& before.step(ticket, event).coordinator.latest() == before.latest().patch(
                    before.active.unwrap().target,
                )
            },
            _ => true,
        },
{
}

/// No request leaves a marker or a draft behind.
///
/// When a step ends the request that holds the lock, whatever the outcome,
/// the lock is free afterwards, no profile is marked as being processed and
/// no draft is pending.
pub proof fn lemma_finish_leaves_nothing_behind(
    before: CoordinatorModel,
    ticket: TicketModel,
    event: EventModel,
)
    requires
        before.wf(),
        before.holds(ticket),
        before.step(ticket, event).action is Finished,
    ensures
        before.step(ticket, event).coordinator.active.is_none(),
        before.step(ticket, event).coordinator.processing().is_none(),
        before.step(ticket, event).coordinator.store.pending.is_none(),
{
}

/// A request that does not hold the lock changes nothing but, at most, the
/// holder of the lock: it cannot touch the profiles, a draft or the marker
/// of another request.
pub proof fn lemma_outsider_changes_nothing(
    before: CoordinatorModel,
    ticket: TicketModel,
    event: EventModel,
)
    requires
        before.wf(),
        before.active.is_some(),
        !before.holds(ticket),
    ensures
        before.step(ticket, event).coordinator == before,
{
}

/// A request that is given up frees the lock, whatever it had reached,
/// and leaves the committed profiles as they were.
pub proof fn lemma_cancel_frees_the_lock(before: CoordinatorModel, ticket: TicketModel)
    requires
        before.wf(),
        before.holds(ticket),
    ensures
        before.step(ticket, EventModel::Cancel).coordinator.active.is_none(),
        before.step(ticket, EventModel::Cancel).coordinator.store.pending.is_none(),
        before.step(ticket, EventModel::Cancel).coordinator.processing().is_none(),
        before.step(ticket, EventModel::Cancel).coordinator.latest() == before.latest(),
        before.step(ticket, EventModel::Cancel).action == ActionModel::Finished(abandoned_report()),
{
}

/// A request that gave way reports nothing to the user.
pub proof fn lemma_overtaken_request_is_silent(
    before: CoordinatorModel,
    ticket: TicketModel,
    event: EventModel,
)
    requires
        before.wf(),
        before.stale(ticket),
        before.holds(ticket),
        event is Advance || event == (EventModel::Kernel { outcome: KernelModel::Validated })
            || event == (EventModel::Kernel { outcome: KernelModel::TimedOut }),
        before.active.unwrap().phase != SwitchPhase::LockAcquired,
        event is Advance ==> before.active.unwrap().phase != SwitchPhase::KernelUpdating,
        event is Kernel ==> before.active.unwrap().phase == SwitchPhase::KernelUpdating,
    ensures
        before.step(ticket, event).action == ActionModel::Finished(abandoned_report()),
        before.step(ticket, event).coordinator.latest() == before.latest(),
        before.step(ticket, event).coordinator.active.is_none(),
{
}

/// Every ticket with the number `sequence` in the deliveries asks for
/// `target`.
pub open spec fn speaks_for(
    deliveries: Seq<(TicketModel, EventModel)>,
    sequence: u64,
    target: Option<Seq<char>>,
) -> bool {
    forall|i: int|
        0 <= i < deliveries.len() && (#[trigger] deliveries[i]).0.sequence == sequence
            ==> deliveries[i].0.target == target
}

/// Among concurrent requests the newest one decides.
///
/// Take any number of requests that have all been accepted, the newest of
/// them asking for `target`, and deliver any events for any of their
/// tickets in any order. Then the committed profiles are in the end either
/// what they were or what the newest request asked for: no other request
/// leaves a trace.
pub proof fn lemma_newest_request_wins(
    start: CoordinatorModel,
    deliveries: Seq<(TicketModel, EventModel)>,
    target: Option<Seq<char>>,
)
    requires
        start.wf(),
        speaks_for(deliveries, start.counter, target),
        match start.active {
            Some(active) => active.sequence == start.counter ==> active.target == target,
            None => true,
        },
    ensures
        start.run(deliveries).wf(),
        start.run(deliveries).counter == start.counter,
        start.run(deliveries).latest() == start.latest() || start.run(deliveries).latest()
            == start.latest().patch(target),
    decreases deliveries.len(),
{
    if deliveries.len() > 0 {
        let ticket = deliveries[0].0;
        let event = deliveries[0].1;
        let next = start.step(ticket, event).coordinator;
        let rest = deliveries.drop_first();
        lemma_step_keeps_wf(start, ticket, event);
        lemma_only_the_newest_commits(start, ticket, event);
        assert forall|i: int|
            0 <= i < rest.len() && (#[trigger] rest[i]).0.sequence == next.counter implies rest[i].0.target
            == target by {
            assert(rest[i] == deliveries[i + 1]);
        }
        assert(match next.active {
            Some(active) => active.sequence == next.counter ==> active.target == target,
            None => true,
        }) by {
            assert(deliveries[0].0.sequence == start.counter ==> deliveries[0].0.target == target);
        }
        lemma_newest_request_wins(next, rest, target);
        lemma_patch_idempotent(start.latest(), target);
    }
}

/// The steps of a request that meets no other: it takes the lock, has the
/// target's document accepted where one needs checking, writes its draft,
/// asks the proxy engine and receives `outcome`.
pub open spec fn lone_request(
    start: CoordinatorModel,
    ticket: TicketModel,
    outcome: KernelModel,
) -> StepModel {
    let locked = start.step(ticket, EventModel::Acquire).coordinator;
    let checked = if start.document_needed(ticket.target).is_some() {
        locked.step(ticket, EventModel::Validation { refusal: None }).coordinator
    } else {
        locked.step(ticket, EventModel::Advance).coordinator
    };
    let drafted = checked.step(ticket, EventModel::Advance).coordinator;
    let asked = drafted.step(ticket, EventModel::Advance).coordinator;
    asked.step(ticket, EventModel::Kernel { outcome })
}

/// The ticket is the newest one and has not been through the critical
/// section, which is free.
pub open spec fn ready_for(start: CoordinatorModel, ticket: TicketModel) -> bool {
    &&& start.wf()
    &&& start.active.is_none()
    &&& 1 <= ticket.sequence
    &&& ticket.sequence == start.counter
    &&& start.entered < ticket.sequence
}

/// A request that meets no other and that the proxy engine accepts commits
/// exactly what it asked for, and says so.
pub proof fn lemma_lone_request_commits(start: CoordinatorModel, ticket: TicketModel)
    requires
        ready_for(start, ticket),
    ensures
        lone_request(start, ticket, KernelModel::Validated).coordinator.latest()
            == start.latest().patch(ticket.target),
        lone_request(start, ticket, KernelModel::Validated).coordinator.active.is_none(),
        lone_request(start, ticket, KernelModel::Validated).coordinator.store.pending.is_none(),
        lone_request(start, ticket, KernelModel::Validated).action == ActionModel::Finished(
            ReportModel {
                outcome: SwitchOutcome::Committed,
                notice: match ticket.target {
                    Some(uid) => Some(NoticeModel { kind: NoticeKind::ProfileChanged, detail: uid }),
                    None => None,
                },
                refresh: true,
                save: true,
            },
        ),
{
}

/// Switching to the profile that is already active succeeds and changes
/// nothing: the document is not checked again, nothing is rolled back, and
/// the committed profiles are afterwards what they were.
pub proof fn lemma_switch_to_current_is_noop_success(
    start: CoordinatorModel,
    ticket: TicketModel,
)
    requires
        ready_for(start, ticket),
        ticket.target.is_some(),
        ticket.target == start.latest().current,
    ensures
        start.step(ticket, EventModel::Acquire).action == ActionModel::Proceed,
        lone_request(start, ticket, KernelModel::Validated).coordinator.latest() == start.latest(),
        lone_request(start, ticket, KernelModel::Validated).action is Finished,
        lone_request(start, ticket, KernelModel::Validated).action->Finished_0.outcome
            == SwitchOutcome::Committed,
{
    lemma_patch_current_is_identity(start.latest());
    lemma_lone_request_commits(start, ticket);
}

/// A refusal by the proxy engine restores what was there before.
///
/// Whatever the request asked for and whatever it drafted, once the engine
/// refuses, the committed profiles are exactly what they were when the
/// request took the lock: the same active profile and the same list. No
/// draft remains, and the engine's words are passed on.
pub proof fn lemma_rejection_restores_previous(
    before: CoordinatorModel,
    ticket: TicketModel,
    message: Seq<char>,
)
    requires
        before.wf(),
        before.holds(ticket),
        before.active.unwrap().phase == SwitchPhase::KernelUpdating,
    ensures
        ({
            let after = before.step(
                ticket,
                EventModel::Kernel { outcome: KernelModel::Rejected { message } },
            );
            &&& after.coordinator.latest() == before.latest()
            &&& after.coordinator.latest().current == before.active.unwrap().previous
            &&& after.coordinator.store.pending.is_none()
            &&& after.coordinator.active.is_none()
            &&& after.action == ActionModel::Finished(
                ReportModel {
                    outcome: SwitchOutcome::RolledBack,
                    notice: Some(NoticeModel { kind: NoticeKind::ValidateError, detail: message }),
                    refresh: false,
                    save: before.active.unwrap().previous.is_some(),
                },
            )
        }),
{
    lemma_patch_current_is_identity(before.latest());
}

/// The same for a whole request: if the engine refuses the target, the
/// profile that was active when the request began is active afterwards.
pub proof fn lemma_refused_request_changes_nothing(
    start: CoordinatorModel,
    ticket: TicketModel,
    message: Seq<char>,
)
    requires
        ready_for(start, ticket),
    ensures
        lone_request(start, ticket, KernelModel::Rejected { message }).coordinator.latest()
            == start.latest(),
        lone_request(start, ticket, KernelModel::Rejected { message }).coordinator.active.is_none(),
        lone_request(
            start,
            ticket,
            KernelModel::Rejected { message },
        ).coordinator.store.pending.is_none(),
        lone_request(start, ticket, KernelModel::Rejected { message }).action is Finished,
        lone_request(start, ticket, KernelModel::Rejected { message }).action->Finished_0.outcome
            == SwitchOutcome::RolledBack,
{
    lemma_patch_current_is_identity(start.latest());
}

/// A document that fails its check ends the request before anything is
/// changed: the committed profiles stay as they are and the notice that
/// says why is passed on unchanged.
pub proof fn lemma_refused_document_changes_nothing(
    before: CoordinatorModel,
    ticket: TicketModel,
    notice: NoticeModel,
)
    requires
        before.wf(),
        before.holds(ticket),
        before.active.unwrap().phase == SwitchPhase::LockAcquired,
        before.document_needed(before.active.unwrap().target).is_some(),
    ensures
        ({
            let after = before.step(ticket, EventModel::Validation { refusal: Some(notice) });
            &&& after.coordinator.latest() == before.latest()
            &&& after.coordinator.active.is_none()
            &&& after.coordinator.store.pending.is_none()
            &&& after.action == ActionModel::Finished(
                ReportModel {
                    outcome: SwitchOutcome::Abandoned,
                    notice: Some(notice),
                    refresh: false,
                    save: false,
                },
            )
        }),
{
}

} // verus!
