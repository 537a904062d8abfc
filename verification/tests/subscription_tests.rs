use koala_clash::coordinator::{ProfileSwitchCoordinator, SwitchEvent};
use koala_clash::notice::{Notice, NoticeKind};
use koala_clash::profiles::{ProfileItem, ProfileKind, ProfileOption, ProfilesState};
use koala_clash::subscription::{
    SubscriptionUpdate, UpdateAction, UpdateError, UpdateEvent, UpdateStage, UpdateStep,
};

fn sub_option(with_proxy: Option<bool>, self_proxy: Option<bool>, interval: Option<u64>) -> ProfileOption {
    ProfileOption { update_interval: interval, with_proxy, self_proxy, update_always: None }
}

fn sub_item(uid: &str, kind: ProfileKind, url: Option<&str>) -> ProfileItem {
    ProfileItem {
        uid: uid.to_string(),
        kind,
        name: None,
        file: None,
        url: url.map(|u| u.to_string()),
        option: None,
    }
}

/// Remote A (active, with settings), remote B, local L, remote N without a URL.
fn sub_coordinator() -> ProfileSwitchCoordinator {
    let mut profiles = ProfilesState::new();
    let mut a = sub_item("A", ProfileKind::Remote, Some("https://example.com/a"));
    a.option = Some(sub_option(Some(true), None, Some(60)));
    profiles.append_item(a).unwrap();
    profiles.append_item(sub_item("B", ProfileKind::Remote, Some("https://example.com/b"))).unwrap();
    profiles.append_item(sub_item("L", ProfileKind::Local, None)).unwrap();
    profiles.append_item(sub_item("N", ProfileKind::Remote, None)).unwrap();
    ProfileSwitchCoordinator::new(profiles)
}

fn sub_quiet(action: UpdateAction) -> UpdateStep {
    UpdateStep { action, notice: None, refresh: false }
}

fn sub_fetched(name: Option<&str>, option: Option<ProfileOption>) -> ProfileItem {
    ProfileItem {
        uid: "fresh".to_string(),
        kind: ProfileKind::Remote,
        name: name.map(|n| n.to_string()),
        file: None,
        url: None,
        option,
    }
}

#[test]
fn updating_the_active_subscription_tells_the_engine() {
    let mut coordinator = sub_coordinator();
    let (mut update, step) = SubscriptionUpdate::update_profile(
        coordinator.latest(),
        "A".to_string(),
        Some(sub_option(None, Some(false), None)),
        None,
    );
    assert_eq!(
        step,
        sub_quiet(UpdateAction::Fetch {
            url: "https://example.com/a".to_string(),
            option: Some(sub_option(Some(true), Some(false), Some(60))),
        })
    );
    assert_eq!(update.stage(), UpdateStage::FirstFetch);
    let step = update.step(
        &mut coordinator,
        UpdateEvent::Fetched { result: Ok(sub_fetched(None, Some(sub_option(None, None, Some(90))))) },
    );
    assert_eq!(step, sub_quiet(UpdateAction::UpdateCore));
    assert_eq!(
        coordinator.latest().get_item(&"A".to_string()).unwrap().option,
        Some(sub_option(Some(true), None, Some(90)))
    );
    let step = update.step(&mut coordinator, UpdateEvent::CoreUpdated { outcome: Ok(()) });
    assert_eq!(step, UpdateStep { action: UpdateAction::Done(Ok(())), notice: None, refresh: true });
    assert_eq!(update.stage(), UpdateStage::Finished);
}

#[test]
fn updating_another_subscription_stops_after_the_fetch() {
    let mut coordinator = sub_coordinator();
    let (mut update, step) =
        SubscriptionUpdate::update_profile(coordinator.latest(), "B".to_string(), None, Some(true));
    assert_eq!(
        step,
        sub_quiet(UpdateAction::Fetch { url: "https://example.com/b".to_string(), option: None })
    );
    let step =
        update.step(&mut coordinator, UpdateEvent::Fetched { result: Ok(sub_fetched(None, None)) });
    assert_eq!(step, sub_quiet(UpdateAction::Done(Ok(()))));
    assert_eq!(coordinator.latest().get_current(), Some("A".to_string()));
}

#[test]
fn no_refresh_keeps_the_engine_out_of_it() {
    let mut coordinator = sub_coordinator();
    let (mut update, _) =
        SubscriptionUpdate::update_profile(coordinator.latest(), "A".to_string(), None, Some(false));
    let step =
        update.step(&mut coordinator, UpdateEvent::Fetched { result: Ok(sub_fetched(None, None)) });
    assert_eq!(step, sub_quiet(UpdateAction::Done(Ok(()))));
}

#[test]
fn a_failed_fetch_is_retried_through_the_engine() {
    let mut coordinator = sub_coordinator();
    let (mut update, _) =
        SubscriptionUpdate::update_profile(coordinator.latest(), "A".to_string(), None, None);
    let step = update
        .step(&mut coordinator, UpdateEvent::Fetched { result: Err("dns failure".to_string()) });
    assert_eq!(
        step,
        UpdateStep {
            action: UpdateAction::Fetch {
                url: "https://example.com/a".to_string(),
                option: Some(sub_option(Some(false), Some(true), Some(60))),
            },
            notice: Some(Notice { kind: NoticeKind::UpdateRetryWithClash, detail: "A".to_string() }),
            refresh: false,
        }
    );
    assert_eq!(update.stage(), UpdateStage::RetryFetch);
    let fetched = sub_fetched(Some("My Sub"), Some(sub_option(Some(false), Some(true), Some(45))));
    let step = update.step(&mut coordinator, UpdateEvent::Fetched { result: Ok(fetched) });
    assert_eq!(
        step,
        UpdateStep {
            action: UpdateAction::UpdateCore,
            notice: Some(Notice {
                kind: NoticeKind::UpdateWithClashProxy,
                detail: "My Sub".to_string(),
            }),
            refresh: false,
        }
    );
    // The proxy settings of the second attempt are not kept.
    assert_eq!(
        coordinator.latest().get_item(&"A".to_string()).unwrap().option,
        Some(sub_option(Some(true), None, Some(45)))
    );
    let step = update
        .step(&mut coordinator, UpdateEvent::CoreUpdated { outcome: Err("core down".to_string()) });
    assert_eq!(
        step,
        UpdateStep {
            action: UpdateAction::Done(Ok(())),
            notice: Some(Notice { kind: NoticeKind::UpdateFailed, detail: "core down".to_string() }),
            refresh: false,
        }
    );
}

#[test]
fn a_second_failure_ends_the_update() {
    let mut coordinator = sub_coordinator();
    let before = coordinator.latest().clone();
    let (mut update, _) =
        SubscriptionUpdate::update_profile(coordinator.latest(), "B".to_string(), None, None);
    let retry =
        update.step(&mut coordinator, UpdateEvent::Fetched { result: Err("timeout".to_string()) });
    assert_eq!(
        retry.action,
        UpdateAction::Fetch {
            url: "https://example.com/b".to_string(),
            option: Some(sub_option(Some(false), Some(true), None)),
        }
    );
    let step =
        update.step(&mut coordinator, UpdateEvent::Fetched { result: Err("still down".to_string()) });
    assert_eq!(
        step,
        UpdateStep {
            action: UpdateAction::Done(Err(UpdateError::FetchFailed {
                detail: "still down".to_string(),
            })),
            notice: Some(Notice {
                kind: NoticeKind::UpdateFailedEvenWithClash,
                detail: "still down".to_string(),
            }),
            refresh: false,
        }
    );
    assert_eq!(*coordinator.latest(), before);
    assert_eq!(
        update.step(&mut coordinator, UpdateEvent::Fetched { result: Err("again".to_string()) }),
        sub_quiet(UpdateAction::Ignored)
    );
}

#[test]
fn the_retry_notice_falls_back_to_the_identifier() {
    let mut coordinator = sub_coordinator();
    let (mut update, _) =
        SubscriptionUpdate::update_profile(coordinator.latest(), "B".to_string(), None, None);
    update.step(&mut coordinator, UpdateEvent::Fetched { result: Err("x".to_string()) });
    let step =
        update.step(&mut coordinator, UpdateEvent::Fetched { result: Ok(sub_fetched(None, None)) });
    assert_eq!(
        step,
        UpdateStep {
            action: UpdateAction::Done(Ok(())),
            notice: Some(Notice { kind: NoticeKind::UpdateWithClashProxy, detail: "B".to_string() }),
            refresh: false,
        }
    );
}

#[test]
fn items_that_are_not_remote_have_nothing_to_fetch() {
    let coordinator = sub_coordinator();
    let (update, step) =
        SubscriptionUpdate::update_profile(coordinator.latest(), "L".to_string(), None, None);
    assert_eq!(step, sub_quiet(UpdateAction::UpdateCore));
    assert_eq!(update.stage(), UpdateStage::CoreUpdate);
    let (update, step) =
        SubscriptionUpdate::update_profile(coordinator.latest(), "L".to_string(), None, Some(false));
    assert_eq!(step, sub_quiet(UpdateAction::Done(Ok(()))));
    assert_eq!(update.stage(), UpdateStage::Finished);
}

#[test]
fn updates_fail_for_unknown_items_and_missing_urls() {
    let coordinator = sub_coordinator();
    let (_, step) =
        SubscriptionUpdate::update_profile(coordinator.latest(), "Z".to_string(), None, None);
    assert_eq!(step, sub_quiet(UpdateAction::Done(Err(UpdateError::NotFound))));
    let (_, step) =
        SubscriptionUpdate::update_profile(coordinator.latest(), "N".to_string(), None, None);
    assert_eq!(step, sub_quiet(UpdateAction::Done(Err(UpdateError::MissingUrl))));
    assert_eq!(UpdateError::MissingUrl.message(), "failed to get the profile item url");
    assert_eq!(UpdateError::NotFound.message(), "failed to get the profile item");
    assert_eq!(UpdateError::FetchFailed { detail: "d".to_string() }.message(), "d");
}

#[test]
fn an_update_waits_for_a_switch_under_way() {
    let mut coordinator = sub_coordinator();
    let (mut update, _) =
        SubscriptionUpdate::update_profile(coordinator.latest(), "B".to_string(), None, None);
    let ticket = coordinator.accept(Some("L".to_string()));
    coordinator.step(&ticket, SwitchEvent::Acquire);
    let step =
        update.step(&mut coordinator, UpdateEvent::Fetched { result: Ok(sub_fetched(None, None)) });
    assert_eq!(step, sub_quiet(UpdateAction::Done(Err(UpdateError::Busy))));
    assert_eq!(update.stage(), UpdateStage::Finished);
}
