use koala_clash::coordinator::{
    EditError, KernelOutcome, ProfileSwitchCoordinator, SwitchAction, SwitchEvent, SwitchReport,
    DOCUMENT_READ_SECS, KERNEL_UPDATE_SECS, LOCK_WAIT_MILLIS,
};
use koala_clash::notice::{Notice, NoticeKind};
use koala_clash::profiles::{ProfileItem, ProfileKind, ProfilesState};
use koala_clash::sequencer::RequestTicket;
use koala_clash::switch_model::{SwitchOutcome, SwitchPhase};
use koala_clash::validation::DocumentRead;

fn sw_item(uid: &str, file: Option<&str>) -> ProfileItem {
    ProfileItem {
        uid: uid.to_string(),
        kind: ProfileKind::Local,
        name: None,
        file: file.map(|f| f.to_string()),
        url: None,
        option: None,
    }
}

/// Profiles A, B and C with documents, D without one; A is active.
fn sw_profiles() -> ProfilesState {
    let mut profiles = ProfilesState::new();
    profiles.append_item(sw_item("A", Some("a.yaml"))).unwrap();
    profiles.append_item(sw_item("B", Some("b.yaml"))).unwrap();
    profiles.append_item(sw_item("C", Some("c.yaml"))).unwrap();
    profiles.append_item(sw_item("D", None)).unwrap();
    profiles
}

fn sw_abandoned() -> SwitchAction {
    SwitchAction::Finished(SwitchReport {
        outcome: SwitchOutcome::Abandoned,
        notice: None,
        refresh: false,
        save: false,
    })
}

fn sw_committed(uid: &str) -> SwitchAction {
    SwitchAction::Finished(SwitchReport {
        outcome: SwitchOutcome::Committed,
        notice: Some(Notice { kind: NoticeKind::ProfileChanged, detail: uid.to_string() }),
        refresh: true,
        save: true,
    })
}

fn sw_good_document() -> DocumentRead {
    DocumentRead::Content { text: "proxies: []\n".to_string() }
}

/// Drives a ticket from the lock up to the question for the proxy engine.
fn sw_drive_to_kernel(coordinator: &mut ProfileSwitchCoordinator, ticket: &RequestTicket, file: &str) {
    assert_eq!(
        coordinator.step(ticket, SwitchEvent::Acquire),
        SwitchAction::ReadDocument { file: file.to_string() }
    );
    assert_eq!(coordinator.deliver_document(ticket, sw_good_document()), SwitchAction::Proceed);
    assert_eq!(coordinator.step(ticket, SwitchEvent::Advance), SwitchAction::Proceed);
    assert_eq!(coordinator.step(ticket, SwitchEvent::Advance), SwitchAction::UpdateKernel);
}

#[test]
fn time_limits_are_as_documented() {
    assert_eq!(LOCK_WAIT_MILLIS, 100);
    assert_eq!(DOCUMENT_READ_SECS, 5);
    assert_eq!(KERNEL_UPDATE_SECS, 30);
}

#[test]
fn a_lone_request_commits_its_target() {
    let mut coordinator = ProfileSwitchCoordinator::new(sw_profiles());
    let ticket = coordinator.accept(Some("B".to_string()));
    assert_eq!(ticket, RequestTicket { sequence: 1, target_profile: Some("B".to_string()) });
    assert_eq!(coordinator.phase(), None);

    assert_eq!(
        coordinator.step(&ticket, SwitchEvent::Acquire),
        SwitchAction::ReadDocument { file: "b.yaml".to_string() }
    );
    assert_eq!(coordinator.phase(), Some(SwitchPhase::LockAcquired));
    assert_eq!(coordinator.processing_profile(), None);

    assert_eq!(coordinator.deliver_document(&ticket, sw_good_document()), SwitchAction::Proceed);
    assert_eq!(coordinator.phase(), Some(SwitchPhase::TargetValidated));

    assert_eq!(coordinator.step(&ticket, SwitchEvent::Advance), SwitchAction::Proceed);
    assert_eq!(coordinator.phase(), Some(SwitchPhase::DraftWritten));
    assert_eq!(coordinator.processing_profile(), Some("B".to_string()));
    assert_eq!(coordinator.latest().get_current(), Some("A".to_string()));

    assert_eq!(coordinator.step(&ticket, SwitchEvent::Advance), SwitchAction::UpdateKernel);
    assert_eq!(coordinator.phase(), Some(SwitchPhase::KernelUpdating));

    let action =
        coordinator.step(&ticket, SwitchEvent::Kernel { outcome: KernelOutcome::Validated });
    assert_eq!(action, sw_committed("B"));
    if let SwitchAction::Finished(report) = &action {
        assert!(report.applied());
    }
    assert_eq!(coordinator.latest().get_current(), Some("B".to_string()));
    assert_eq!(coordinator.latest().len(), 4);
    assert!(!coordinator.is_locked());
    assert_eq!(coordinator.processing_profile(), None);
}

#[test]
fn switching_to_the_active_profile_is_a_noop_success() {
    let before = sw_profiles();
    let mut coordinator = ProfileSwitchCoordinator::new(before.clone());
    let ticket = coordinator.accept(Some("A".to_string()));
    assert_eq!(coordinator.step(&ticket, SwitchEvent::Acquire), SwitchAction::Proceed);
    assert_eq!(coordinator.step(&ticket, SwitchEvent::Advance), SwitchAction::Proceed);
    assert_eq!(coordinator.step(&ticket, SwitchEvent::Advance), SwitchAction::Proceed);
    assert_eq!(coordinator.step(&ticket, SwitchEvent::Advance), SwitchAction::UpdateKernel);
    assert_eq!(
        coordinator.step(&ticket, SwitchEvent::Kernel { outcome: KernelOutcome::Validated }),
        sw_committed("A")
    );
    assert_eq!(*coordinator.latest(), before);
}

#[test]
fn a_target_without_a_document_needs_no_check() {
    let mut coordinator = ProfileSwitchCoordinator::new(sw_profiles());
    let ticket = coordinator.accept(Some("D".to_string()));
    assert_eq!(coordinator.step(&ticket, SwitchEvent::Acquire), SwitchAction::Proceed);
    assert_eq!(
        coordinator.deliver_document(&ticket, DocumentRead::ReadTimedOut),
        SwitchAction::Ignored
    );
    assert_eq!(coordinator.step(&ticket, SwitchEvent::Advance), SwitchAction::Proceed);
    assert_eq!(coordinator.step(&ticket, SwitchEvent::Advance), SwitchAction::Proceed);
    assert_eq!(coordinator.step(&ticket, SwitchEvent::Advance), SwitchAction::UpdateKernel);
    assert_eq!(
        coordinator.step(&ticket, SwitchEvent::Kernel { outcome: KernelOutcome::Validated }),
        sw_committed("D")
    );
    assert_eq!(coordinator.latest().get_current(), Some("D".to_string()));
}

#[test]
fn the_document_check_cannot_be_skipped() {
    let mut coordinator = ProfileSwitchCoordinator::new(sw_profiles());
    let ticket = coordinator.accept(Some("B".to_string()));
    coordinator.step(&ticket, SwitchEvent::Acquire);
    assert_eq!(
        coordinator.step(&ticket, SwitchEvent::Advance),
        SwitchAction::ReadDocument { file: "b.yaml".to_string() }
    );
    assert_eq!(coordinator.phase(), Some(SwitchPhase::LockAcquired));
}

#[test]
fn kernel_rejection_rolls_back_to_the_previous_profile() {
    let before = sw_profiles();
    let mut coordinator = ProfileSwitchCoordinator::new(before.clone());
    let ticket = coordinator.accept(Some("B".to_string()));
    sw_drive_to_kernel(&mut coordinator, &ticket, "b.yaml");
    let action = coordinator.step(
        &ticket,
        SwitchEvent::Kernel {
            outcome: KernelOutcome::Rejected { message: "proxy group PROXY not found".to_string() },
        },
    );
    assert_eq!(
        action,
        SwitchAction::Finished(SwitchReport {
            outcome: SwitchOutcome::RolledBack,
            notice: Some(Notice {
                kind: NoticeKind::ValidateError,
                detail: "proxy group PROXY not found".to_string(),
            }),
            refresh: false,
            save: true,
        })
    );
    assert_eq!(coordinator.latest().get_current(), Some("A".to_string()));
    assert_eq!(*coordinator.latest(), before);
    assert!(!coordinator.is_locked());
    assert_eq!(coordinator.processing_profile(), None);
}

#[test]
fn kernel_failure_drops_the_draft_and_reports_the_error() {
    let before = sw_profiles();
    let mut coordinator = ProfileSwitchCoordinator::new(before.clone());
    let ticket = coordinator.accept(Some("C".to_string()));
    sw_drive_to_kernel(&mut coordinator, &ticket, "c.yaml");
    let action = coordinator.step(
        &ticket,
        SwitchEvent::Kernel { outcome: KernelOutcome::Failed { message: "core is gone".to_string() } },
    );
    assert_eq!(
        action,
        SwitchAction::Finished(SwitchReport {
            outcome: SwitchOutcome::Abandoned,
            notice: Some(Notice { kind: NoticeKind::BootError, detail: "core is gone".to_string() }),
            refresh: false,
            save: false,
        })
    );
    assert_eq!(*coordinator.latest(), before);
    assert!(!coordinator.is_locked());
}

#[test]
fn kernel_timeout_of_the_newest_request_rolls_back_and_says_so() {
    let before = sw_profiles();
    let mut coordinator = ProfileSwitchCoordinator::new(before.clone());
    let ticket = coordinator.accept(Some("B".to_string()));
    sw_drive_to_kernel(&mut coordinator, &ticket, "b.yaml");
    let action =
        coordinator.step(&ticket, SwitchEvent::Kernel { outcome: KernelOutcome::TimedOut });
    assert_eq!(
        action,
        SwitchAction::Finished(SwitchReport {
            outcome: SwitchOutcome::RolledBack,
            notice: Some(Notice {
                kind: NoticeKind::ValidateTimeout,
                detail: "Profile update timed out (30s), possibly due to validation or kernel communication"
                    .to_string(),
            }),
            refresh: false,
            save: true,
        })
    );
    assert_eq!(*coordinator.latest(), before);
    assert_eq!(coordinator.processing_profile(), None);
}

#[test]
fn stalled_request_gives_way_to_the_newer_one() {
    let mut coordinator = ProfileSwitchCoordinator::new(sw_profiles());
    let first = coordinator.accept(Some("B".to_string()));
    assert_eq!(first.sequence, 1);
    sw_drive_to_kernel(&mut coordinator, &first, "b.yaml");

    // The second request arrives while the first waits for the proxy engine.
    let second = coordinator.accept(Some("C".to_string()));
    assert_eq!(second.sequence, 2);
    assert!(coordinator.is_stale(&first));
    assert!(!coordinator.is_stale(&second));
    assert_eq!(coordinator.step(&second, SwitchEvent::Acquire), SwitchAction::WaitForLock);
    assert_eq!(coordinator.step(&second, SwitchEvent::LockTimeout), SwitchAction::BlockForLock);
    assert_eq!(coordinator.processing_profile(), Some("B".to_string()));

    // The first request times out, finds itself overtaken and only gives way.
    assert_eq!(
        coordinator.step(&first, SwitchEvent::Kernel { outcome: KernelOutcome::TimedOut }),
        sw_abandoned()
    );
    assert_eq!(coordinator.latest().get_current(), Some("A".to_string()));
    assert!(!coordinator.is_locked());
    assert_eq!(coordinator.processing_profile(), None);

    // The second request takes the lock and commits.
    sw_drive_to_kernel(&mut coordinator, &second, "c.yaml");
    assert_eq!(
        coordinator.step(&second, SwitchEvent::Kernel { outcome: KernelOutcome::Validated }),
        sw_committed("C")
    );
    assert_eq!(coordinator.latest().get_current(), Some("C".to_string()));
}

#[test]
fn a_late_success_of_an_overtaken_request_is_dropped() {
    let mut coordinator = ProfileSwitchCoordinator::new(sw_profiles());
    let first = coordinator.accept(Some("B".to_string()));
    sw_drive_to_kernel(&mut coordinator, &first, "b.yaml");
    let _second = coordinator.accept(Some("C".to_string()));
    assert_eq!(
        coordinator.step(&first, SwitchEvent::Kernel { outcome: KernelOutcome::Validated }),
        sw_abandoned()
    );
    assert_eq!(coordinator.latest().get_current(), Some("A".to_string()));
    assert!(!coordinator.is_locked());
}

#[test]
fn validation_read_timeout_abandons_without_touching_state() {
    let before = sw_profiles();
    let mut coordinator = ProfileSwitchCoordinator::new(before.clone());
    let ticket = coordinator.accept(Some("B".to_string()));
    assert_eq!(
        coordinator.step(&ticket, SwitchEvent::Acquire),
        SwitchAction::ReadDocument { file: "b.yaml".to_string() }
    );
    let action = coordinator.deliver_document(&ticket, DocumentRead::ReadTimedOut);
    assert_eq!(
        action,
        SwitchAction::Finished(SwitchReport {
            outcome: SwitchOutcome::Abandoned,
            notice: Some(Notice {
                kind: NoticeKind::FileReadTimeout,
                detail: "Reading config file timed out (5s)".to_string(),
            }),
            refresh: false,
            save: false,
        })
    );
    if let SwitchAction::Finished(report) = &action {
        assert!(!report.applied());
        assert_eq!(
            report.notice.as_ref().unwrap().kind.name(),
            "config_validate::file_read_timeout"
        );
    }
    assert_eq!(coordinator.latest().get_current(), Some("A".to_string()));
    assert_eq!(*coordinator.latest(), before);
    assert!(!coordinator.is_locked());
}

#[test]
fn a_malformed_document_abandons_the_switch() {
    let before = sw_profiles();
    let mut coordinator = ProfileSwitchCoordinator::new(before.clone());
    let ticket = coordinator.accept(Some("B".to_string()));
    coordinator.step(&ticket, SwitchEvent::Acquire);
    let action = coordinator
        .deliver_document(&ticket, DocumentRead::Content { text: "rules: [a, b".to_string() });
    match action {
        SwitchAction::Finished(report) => {
            assert_eq!(report.outcome, SwitchOutcome::Abandoned);
            let notice = report.notice.unwrap();
            assert_eq!(notice.kind, NoticeKind::YamlSyntaxError);
            assert!(notice.detail.starts_with(' '));
            assert!(!report.refresh);
            assert!(!report.save);
        }
        other => panic!("expected the switch to end, got {other:?}"),
    }
    assert_eq!(*coordinator.latest(), before);
    assert!(!coordinator.is_locked());
}

#[test]
fn a_missing_document_abandons_the_switch() {
    let mut coordinator = ProfileSwitchCoordinator::new(sw_profiles());
    let ticket = coordinator.accept(Some("C".to_string()));
    coordinator.step(&ticket, SwitchEvent::Acquire);
    assert_eq!(
        coordinator
            .deliver_document(&ticket, DocumentRead::Missing { path: "/p/c.yaml".to_string() }),
        SwitchAction::Finished(SwitchReport {
            outcome: SwitchOutcome::Abandoned,
            notice: Some(Notice { kind: NoticeKind::FileNotFound, detail: "/p/c.yaml".to_string() }),
            refresh: false,
            save: false,
        })
    );
    assert_eq!(coordinator.latest().get_current(), Some("A".to_string()));
}

#[test]
fn among_concurrent_requests_only_the_newest_commits() {
    let mut coordinator = ProfileSwitchCoordinator::new(sw_profiles());
    let first = coordinator.accept(Some("B".to_string()));
    let second = coordinator.accept(Some("C".to_string()));
    let third = coordinator.accept(Some("D".to_string()));
    assert_eq!(coordinator.current_sequence(), 3);

    // The oldest gets the lock first and gives way at once.
    assert_eq!(coordinator.step(&first, SwitchEvent::Acquire), sw_abandoned());
    assert!(!coordinator.is_locked());
    // The second has waited in vain and gives way without the lock.
    assert_eq!(coordinator.step(&second, SwitchEvent::LockTimeout), sw_abandoned());
    assert_eq!(coordinator.step(&second, SwitchEvent::Acquire), sw_abandoned());
    // The newest goes through.
    assert_eq!(coordinator.step(&third, SwitchEvent::LockTimeout), SwitchAction::BlockForLock);
    assert_eq!(coordinator.step(&third, SwitchEvent::Acquire), SwitchAction::Proceed);
    assert_eq!(coordinator.step(&third, SwitchEvent::Advance), SwitchAction::Proceed);
    assert_eq!(coordinator.step(&third, SwitchEvent::Advance), SwitchAction::Proceed);
    assert_eq!(coordinator.step(&third, SwitchEvent::Advance), SwitchAction::UpdateKernel);
    assert_eq!(
        coordinator.step(&third, SwitchEvent::Kernel { outcome: KernelOutcome::Validated }),
        sw_committed("D")
    );
    assert_eq!(coordinator.latest().get_current(), Some("D".to_string()));
}

#[test]
fn a_request_overtaken_inside_the_critical_section_gives_way_at_the_next_checkpoint() {
    // Overtaken before the draft is written.
    let mut coordinator = ProfileSwitchCoordinator::new(sw_profiles());
    let first = coordinator.accept(Some("D".to_string()));
    assert_eq!(coordinator.step(&first, SwitchEvent::Acquire), SwitchAction::Proceed);
    assert_eq!(coordinator.step(&first, SwitchEvent::Advance), SwitchAction::Proceed);
    let _newer = coordinator.accept(Some("B".to_string()));
    assert_eq!(coordinator.step(&first, SwitchEvent::Advance), sw_abandoned());
    assert!(!coordinator.is_locked());

    // Overtaken after the draft is written: the draft is dropped.
    let mut coordinator = ProfileSwitchCoordinator::new(sw_profiles());
    let first = coordinator.accept(Some("D".to_string()));
    coordinator.step(&first, SwitchEvent::Acquire);
    coordinator.step(&first, SwitchEvent::Advance);
    assert_eq!(coordinator.step(&first, SwitchEvent::Advance), SwitchAction::Proceed);
    assert_eq!(coordinator.processing_profile(), Some("D".to_string()));
    let _newer = coordinator.accept(Some("B".to_string()));
    assert_eq!(coordinator.step(&first, SwitchEvent::Advance), sw_abandoned());
    assert_eq!(coordinator.processing_profile(), None);
    assert_eq!(coordinator.latest().get_current(), Some("A".to_string()));
    assert!(!coordinator.is_locked());
}

#[test]
fn tickets_that_were_never_issued_or_already_served_are_turned_away() {
    let mut coordinator = ProfileSwitchCoordinator::new(sw_profiles());
    let forged = RequestTicket { sequence: 9, target_profile: Some("B".to_string()) };
    assert_eq!(coordinator.step(&forged, SwitchEvent::Acquire), SwitchAction::Ignored);
    let zero = RequestTicket { sequence: 0, target_profile: None };
    assert_eq!(coordinator.step(&zero, SwitchEvent::Acquire), SwitchAction::Ignored);
    assert_eq!(coordinator.step(&zero, SwitchEvent::LockTimeout), SwitchAction::Ignored);

    let ticket = coordinator.accept(Some("D".to_string()));
    coordinator.step(&ticket, SwitchEvent::Acquire);
    // A stranger cannot drive the request that holds the lock.
    assert_eq!(coordinator.step(&forged, SwitchEvent::Advance), SwitchAction::Ignored);
    coordinator.step(&ticket, SwitchEvent::Advance);
    coordinator.step(&ticket, SwitchEvent::Advance);
    coordinator.step(&ticket, SwitchEvent::Advance);
    // The engine's answer is not expected before it was asked, nor twice.
    assert_eq!(coordinator.step(&ticket, SwitchEvent::Advance), SwitchAction::Ignored);
    coordinator.step(&ticket, SwitchEvent::Kernel { outcome: KernelOutcome::Validated });
    assert_eq!(
        coordinator.step(&ticket, SwitchEvent::Kernel { outcome: KernelOutcome::Validated }),
        SwitchAction::Ignored
    );
    assert_eq!(coordinator.step(&ticket, SwitchEvent::Acquire), SwitchAction::Ignored);
    assert_eq!(coordinator.latest().get_current(), Some("D".to_string()));
}

#[test]
fn an_unknown_target_commits_without_changing_the_choice() {
    let before = sw_profiles();
    let mut coordinator = ProfileSwitchCoordinator::new(before.clone());
    let ticket = coordinator.accept(Some("nowhere".to_string()));
    assert_eq!(coordinator.step(&ticket, SwitchEvent::Acquire), SwitchAction::Proceed);
    coordinator.step(&ticket, SwitchEvent::Advance);
    coordinator.step(&ticket, SwitchEvent::Advance);
    coordinator.step(&ticket, SwitchEvent::Advance);
    assert_eq!(
        coordinator.step(&ticket, SwitchEvent::Kernel { outcome: KernelOutcome::Validated }),
        sw_committed("nowhere")
    );
    assert_eq!(*coordinator.latest(), before);
}

#[test]
fn a_request_without_a_target_changes_nothing_and_tells_nobody() {
    let before = sw_profiles();
    let mut coordinator = ProfileSwitchCoordinator::new(before.clone());
    let ticket = coordinator.accept(None);
    assert_eq!(coordinator.step(&ticket, SwitchEvent::Acquire), SwitchAction::Proceed);
    coordinator.step(&ticket, SwitchEvent::Advance);
    coordinator.step(&ticket, SwitchEvent::Advance);
    assert_eq!(coordinator.processing_profile(), None);
    coordinator.step(&ticket, SwitchEvent::Advance);
    assert_eq!(
        coordinator.step(&ticket, SwitchEvent::Kernel { outcome: KernelOutcome::Validated }),
        SwitchAction::Finished(SwitchReport {
            outcome: SwitchOutcome::Committed,
            notice: None,
            refresh: true,
            save: true,
        })
    );
    assert_eq!(*coordinator.latest(), before);
}

#[test]
fn the_list_is_edited_between_switches_only() {
    let mut coordinator = ProfileSwitchCoordinator::new(sw_profiles());
    assert_eq!(coordinator.append_item(sw_item("E", None)), Ok(()));
    assert_eq!(coordinator.latest().len(), 5);
    let ticket = coordinator.accept(Some("D".to_string()));
    coordinator.step(&ticket, SwitchEvent::Acquire);
    assert_eq!(coordinator.append_item(sw_item("F", None)), Err(EditError::Busy));
    assert_eq!(coordinator.delete_item(&"E".to_string()), Err(EditError::Busy));
    assert_eq!(coordinator.patch_item(&"E".to_string(), &sw_item("E", None)), Err(EditError::Busy));
    assert_eq!(coordinator.update_item(&"E".to_string(), &sw_item("E", None)), Err(EditError::Busy));
    assert_eq!(coordinator.latest().len(), 5);
    coordinator.step(&ticket, SwitchEvent::Advance);
    coordinator.step(&ticket, SwitchEvent::Advance);
    coordinator.step(&ticket, SwitchEvent::Advance);
    coordinator.step(&ticket, SwitchEvent::Kernel { outcome: KernelOutcome::Validated });
    assert_eq!(coordinator.delete_item(&"E".to_string()), Ok(false));
    assert_eq!(coordinator.delete_item(&"D".to_string()), Ok(true));
    assert_eq!(coordinator.latest().get_current(), Some("A".to_string()));
}

fn sw_event(kind: usize) -> SwitchEvent {
    match kind {
        0 => SwitchEvent::Acquire,
        1 => SwitchEvent::LockTimeout,
        2 => SwitchEvent::Validation { verdict: Ok(()) },
        3 => SwitchEvent::Validation {
            verdict: Err(Notice { kind: NoticeKind::FileReadError, detail: "x".to_string() }),
        },
        4 => SwitchEvent::Advance,
        5 => SwitchEvent::Kernel { outcome: KernelOutcome::Validated },
        6 => SwitchEvent::Kernel { outcome: KernelOutcome::Rejected { message: "no".to_string() } },
        7 => SwitchEvent::Cancel,
        _ => SwitchEvent::Kernel { outcome: KernelOutcome::TimedOut },
    }
}

/// Delivers every sequence of `depth` events for the two tickets and looks
/// at the state after each delivery.
fn sw_explore(
    coordinator: &ProfileSwitchCoordinator,
    tickets: &[RequestTicket; 2],
    depth: usize,
    commits: &mut u64,
) {
    let current = coordinator.latest().get_current();
    assert!(current == Some("A".to_string()) || current == tickets[1].target_profile);
    assert_eq!(coordinator.latest().len(), 4);
    if !coordinator.is_locked() {
        assert_eq!(coordinator.processing_profile(), None);
    }
    if depth == 0 {
        return;
    }
    for who in 0..2 {
        for kind in 0..9 {
            let mut next = coordinator.clone();
            let action = next.step(&tickets[who], sw_event(kind));
            if let SwitchAction::Finished(report) = &action {
                if report.applied() {
                    assert_eq!(who, 1);
                    assert_eq!(next.latest().get_current(), tickets[1].target_profile);
                    *commits += 1;
                }
            }
            sw_explore(&next, tickets, depth - 1, commits);
        }
    }
}

#[test]
fn no_interleaving_lets_an_overtaken_request_take_effect() {
    // The newest request asks for a profile without a document.
    let mut coordinator = ProfileSwitchCoordinator::new(sw_profiles());
    let older = coordinator.accept(Some("B".to_string()));
    let newest = coordinator.accept(Some("D".to_string()));
    let mut commits = 0;
    sw_explore(&coordinator, &[older, newest], 5, &mut commits);
    assert!(commits > 0);

    // The newest request asks for a profile whose document is checked.
    let mut coordinator = ProfileSwitchCoordinator::new(sw_profiles());
    let older = coordinator.accept(Some("D".to_string()));
    let newest = coordinator.accept(Some("C".to_string()));
    let mut commits = 0;
    sw_explore(&coordinator, &[older, newest], 5, &mut commits);
    assert!(commits > 0);
}

#[test]
fn no_interleaving_with_a_request_under_way_lets_it_commit_once_overtaken() {
    // The older request is already waiting for the proxy engine when the
    // newer one is accepted.
    let mut coordinator = ProfileSwitchCoordinator::new(sw_profiles());
    let older = coordinator.accept(Some("B".to_string()));
    sw_drive_to_kernel(&mut coordinator, &older, "b.yaml");
    let newest = coordinator.accept(Some("D".to_string()));
    let mut commits = 0;
    sw_explore(&coordinator, &[older, newest], 5, &mut commits);
    assert_eq!(commits, 0);
}

#[test]
fn a_cancelled_request_frees_the_lock_wherever_it_stands() {
    for steps in 0..4 {
        let before = sw_profiles();
        let mut coordinator = ProfileSwitchCoordinator::new(before.clone());
        let ticket = coordinator.accept(Some("D".to_string()));
        coordinator.step(&ticket, SwitchEvent::Acquire);
        for _ in 0..steps {
            coordinator.step(&ticket, SwitchEvent::Advance);
        }
        assert!(coordinator.is_locked());
        assert_eq!(coordinator.step(&ticket, SwitchEvent::Cancel), sw_abandoned());
        assert!(!coordinator.is_locked());
        assert_eq!(coordinator.processing_profile(), None);
        assert_eq!(*coordinator.latest(), before);
        assert_eq!(coordinator.step(&ticket, SwitchEvent::Cancel), SwitchAction::Ignored);
        let next = coordinator.accept(Some("B".to_string()));
        assert_eq!(
            coordinator.step(&next, SwitchEvent::Acquire),
            SwitchAction::ReadDocument { file: "b.yaml".to_string() }
        );
    }
}

#[test]
fn a_waiting_request_can_be_cancelled_without_disturbing_the_holder() {
    let mut coordinator = ProfileSwitchCoordinator::new(sw_profiles());
    let holder = coordinator.accept(Some("D".to_string()));
    coordinator.step(&holder, SwitchEvent::Acquire);
    let waiting = coordinator.accept(Some("B".to_string()));
    assert_eq!(coordinator.step(&waiting, SwitchEvent::Acquire), SwitchAction::WaitForLock);
    assert_eq!(coordinator.step(&waiting, SwitchEvent::Cancel), sw_abandoned());
    assert!(coordinator.is_locked());
    assert_eq!(coordinator.phase(), Some(SwitchPhase::LockAcquired));
    let stranger = RequestTicket { sequence: 40, target_profile: None };
    assert_eq!(coordinator.step(&stranger, SwitchEvent::Cancel), SwitchAction::Ignored);
}
