use koala_clash::profiles::{ProfileItem, ProfileKind, ProfilesState};
use koala_clash::store::DraftStore;

fn store_item(uid: &str) -> ProfileItem {
    ProfileItem {
        uid: uid.to_string(),
        kind: ProfileKind::Local,
        name: None,
        file: None,
        url: None,
        option: None,
    }
}

#[test]
fn draft_then_apply_commits_the_draft() {
    let mut store = DraftStore::new(1u32);
    store.draft(7);
    assert_eq!(*store.latest(), 1);
    assert_eq!(*store.data(), 7);
    assert_eq!(store.apply(), Some(1));
    assert_eq!(*store.latest(), 7);
    assert!(!store.has_draft());
}

#[test]
fn draft_then_discard_keeps_the_committed_value() {
    let mut store = DraftStore::new(1u32);
    store.draft(7);
    assert_eq!(store.discard(), Some(7));
    assert_eq!(*store.latest(), 1);
    assert_eq!(*store.data(), 1);
    assert_eq!(store.apply(), None);
}

#[test]
fn apply_without_a_draft_changes_nothing() {
    let mut store = DraftStore::new(String::from("committed"));
    assert!(!store.has_draft());
    assert_eq!(store.apply(), None);
    assert_eq!(store.discard(), None);
    assert_eq!(store.latest(), "committed");
}

#[test]
fn a_second_draft_replaces_the_first() {
    let mut store = DraftStore::new(0u8);
    store.draft(1);
    store.draft(2);
    assert_eq!(*store.data(), 2);
    assert_eq!(store.apply(), Some(0));
    assert_eq!(*store.latest(), 2);
}

#[test]
fn profiles_round_trip_through_the_store() {
    let mut before = ProfilesState::new();
    before.append_item(store_item("A")).unwrap();
    let mut wanted = before.clone();
    wanted.append_item(store_item("B")).unwrap();
    wanted.patch_config(&Some("B".to_string()));

    let mut store = DraftStore::new(before.clone());
    store.draft(wanted.clone());
    store.apply();
    assert_eq!(*store.latest(), wanted);

    let mut store = DraftStore::new(before.clone());
    store.draft(wanted.clone());
    store.discard();
    assert_eq!(*store.latest(), before);
}
