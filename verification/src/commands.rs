//! What the commands of the user interface decide.
//!
//! Each function here is the deciding part of one command. Reading files,
//! fetching subscriptions and telling the proxy engine is done by the caller,
//! before or after, as the results say.

use crate::coordinator::{EditError, ProfileSwitchCoordinator};
use crate::notice::{notice_model, Notice, NoticeKind, NoticeModel};
use crate::profiles::{ProfileError, ProfileItem, ProfileItemModel, ProfilesModel, ProfilesState};
use crate::sequencer::RequestTicket;
use crate::service::{VergeConfig, VergeConfigModel};
use crate::store::StoreModel;
use crate::switch_model::CoordinatorModel;
use vstd::prelude::*;

verus! {

/// The time limit for reading the committed profiles, in milliseconds.
pub const LATEST_FETCH_MILLIS: u64 = 500;

/// The time limit for reading the working profiles, in seconds.
pub const DATA_FETCH_SECS: u64 = 2;

/// The ways to get at the profiles, in the order in which they are tried.
#[derive(Clone, Copy, PartialEq, Eq, Structural, Debug)]
pub enum FetchStage {
    /// Read the committed profiles, within [`LATEST_FETCH_MILLIS`].
    Latest,
    /// Read the working profiles, within [`DATA_FETCH_SECS`].
    Data,
    /// Build the profiles anew from what is on disk.
    Rebuild,
}

/// What to do after a way to get at the profiles has been tried.
#[derive(Debug, PartialEq, Eq)]
pub enum FetchStep {
    /// Hand these profiles out.
    Return(ProfilesState),
    /// Try the next way.
    Try(FetchStage),
}

/// Decides how to go on after one way to get at the profiles has been
/// tried: what was found is handed out, and where nothing was found the next
/// way is tried. When the last way fails too, an empty list is handed out
/// rather than an error.
pub fn get_profiles(stage: FetchStage, found: Option<ProfilesState>) -> (step: FetchStep)
    ensures
        match found {
            Some(profiles) => step == FetchStep::Return(profiles),
            None => match stage {
                FetchStage::Latest => step == FetchStep::Try(FetchStage::Data),
                FetchStage::Data => step == FetchStep::Try(FetchStage::Rebuild),
                FetchStage::Rebuild => step is Return && step->Return_0@ == (ProfilesModel {
                    current: None,
                    items: Seq::empty(),
                }),
            },
        },
{
    match found {
        Some(profiles) => FetchStep::Return(profiles),
        None => match stage {
            FetchStage::Latest => FetchStep::Try(FetchStage::Data),
            FetchStage::Data => FetchStep::Try(FetchStage::Rebuild),
            FetchStage::Rebuild => FetchStep::Return(ProfilesState::new()),
        },
    }
}

/// What importing a URL comes to.
#[derive(Debug, PartialEq, Eq)]
pub enum ImportPlan {
    /// An item from this URL exists: update it.
    Update { uid: String },
    /// No item is from this URL: fetch it, create the item and switch to it.
    Create,
}

/// Decides what importing `url` comes to.
pub fn import_profile(profiles: &ProfilesState, url: &String) -> (plan: ImportPlan)
    ensures
        match profiles@.uid_by_url(url@) {
            Some(uid) => plan matches ImportPlan::Update { uid: found } && found@ == uid,
            None => plan is Create,
        },
{
    match profiles.find_uid_by_url(url) {
        Some(uid) => ImportPlan::Update { uid },
        None => ImportPlan::Create,
    }
}

/// Why a command did not go through.
#[derive(Clone, Copy, PartialEq, Eq, Structural, Debug)]
pub enum CommandError {
    /// The list of profiles refused the change.
    Edit(EditError),
    /// No more requests can be numbered.
    Exhausted,
}

/// Accepts a request to make `target` the active profile. The ticket that
/// comes back is to be driven through the coordinator; it is refused only
/// when no more requests can be numbered.
pub fn patch_profiles_config(coordinator: &mut ProfileSwitchCoordinator, target: Option<String>) -> (outcome:
    Result<RequestTicket, CommandError>)
    ensures
        match outcome {
            Ok(ticket) => {
                &&& old(coordinator)@.counter < u64::MAX
                &&& final(coordinator)@ == old(coordinator)@.accept()
                &&& ticket@ == old(coordinator)@.next_ticket(target.deep_view())
            },
            Err(error) => {
                &&& old(coordinator)@.counter == u64::MAX
                &&& final(coordinator)@ == old(coordinator)@
                &&& error == CommandError::Exhausted
            },
        },
        old(coordinator)@.wf() ==> final(coordinator)@.wf(),
{
    if coordinator.can_accept() {
        Ok(coordinator.accept(target))
    } else {
        Err(CommandError::Exhausted)
    }
}

/// Accepts a request to make the profile called `profile_index` the active
/// one.
pub fn patch_profiles_config_by_profile_index(
    coordinator: &mut ProfileSwitchCoordinator,
    profile_index: String,
) -> (outcome: Result<RequestTicket, CommandError>)
    ensures
        match outcome {
            Ok(ticket) => {
                &&& old(coordinator)@.counter < u64::MAX
                &&& final(coordinator)@ == old(coordinator)@.accept()
                &&& ticket@ == old(coordinator)@.next_ticket(Some(profile_index@))
            },
            Err(error) => {
                &&& old(coordinator)@.counter == u64::MAX
                &&& final(coordinator)@ == old(coordinator)@
                &&& error == CommandError::Exhausted
            },
        },
        old(coordinator)@.wf() ==> final(coordinator)@.wf(),
{
    patch_profiles_config(coordinator, Some(profile_index))
}

/// Adds a new item and accepts the request to switch to it. The ticket that
/// comes back is to be driven through the coordinator like any other.
pub fn create_profile(coordinator: &mut ProfileSwitchCoordinator, item: ProfileItem) -> (outcome:
    Result<RequestTicket, CommandError>)
    ensures
        match outcome {
            Ok(ticket) => {
                &&& old(coordinator)@.active.is_none()
                &&& old(coordinator)@.latest().accepts(item@)
                &&& old(coordinator)@.counter < u64::MAX
                &&& ticket@.sequence == old(coordinator)@.counter + 1
                &&& ticket@.target == Some(item@.uid)
                &&& final(coordinator)@ == (CoordinatorModel {
                    counter: ticket@.sequence,
                    store: StoreModel {
                        committed: old(coordinator)@.latest().append(item@),
                        pending: None,
                    },
                    ..old(coordinator)@
                })
            },
            Err(error) => {
                &&& final(coordinator)@ == old(coordinator)@
                &&& error == (if old(coordinator)@.counter == u64::MAX {
                    CommandError::Exhausted
                } else if old(coordinator)@.active.is_some() {
                    CommandError::Edit(EditError::Busy)
                } else if item@.uid.len() == 0 {
                    CommandError::Edit(EditError::Refused(ProfileError::MissingUid))
                } else {
                    CommandError::Edit(EditError::Refused(ProfileError::DuplicateUid))
                })
            },
        },
{
    if !coordinator.can_accept() {
        return Err(CommandError::Exhausted);
    }
    let uid = item.uid.clone();
    match coordinator.append_item(item) {
        Ok(_) => Ok(coordinator.accept(Some(uid))),
        Err(error) => Err(CommandError::Edit(error)),
    }
}

/// Moves the item called `active_id` to the place of the item called
/// `over_id`.
pub fn reorder_profile(
    coordinator: &mut ProfileSwitchCoordinator,
    active_id: &String,
    over_id: &String,
) -> (outcome: Result<(), EditError>)
    ensures
        match outcome {
            Ok(_) => old(coordinator)@.active.is_none() && final(coordinator)@.latest() == old(
                coordinator,
            )@.latest().reorder(active_id@, over_id@),
            Err(error) => final(coordinator)@ == old(coordinator)@ && error == EditError::Busy
                && old(coordinator)@.active.is_some(),
        },
        old(coordinator)@.wf() ==> final(coordinator)@.wf(),
{
    coordinator.reorder(active_id, over_id)
}

/// What remains to be done after an item was deleted.
#[derive(Debug, PartialEq, Eq)]
pub struct DeleteOutcome {
    /// Whether the deleted item was the active one, so that the proxy engine
    /// is to be told.
    pub update_core: bool,
    /// Whether the proxy modes were switched off, so that the configuration
    /// is to be saved and shown anew.
    pub proxies_disabled: bool,
    pub notice: Option<Notice>,
}

/// Whether the last configuration is gone while a proxy mode is on.
pub open spec fn strands_proxy(profiles: ProfilesModel, config: VergeConfigModel) -> bool {
    !profiles.has_proxy() && (config.enable_tun_mode == Some(true) || config.enable_system_proxy
        == Some(true))
}

/// The configuration with both proxy modes switched off.
pub open spec fn proxies_off(config: VergeConfigModel) -> VergeConfigModel {
    VergeConfigModel {
        enable_tun_mode: Some(false),
        enable_system_proxy: Some(false),
        ..config
    }
}

/// What is said when the last configuration is deleted.
pub open spec fn all_deleted_text() -> Seq<char> {
    "All profiles deleted, proxy disabled."@
}

/// Deletes an item. When the last configuration goes while a proxy mode is
/// on, both proxy modes are switched off and the user is told.
pub fn delete_profile(
    coordinator: &mut ProfileSwitchCoordinator,
    config: &mut VergeConfig,
    uid: &String,
) -> (outcome: Result<DeleteOutcome, EditError>)
    ensures
        match outcome {
            Ok(done) => {
                &&& old(coordinator)@.active.is_none()
                &&& old(coordinator)@.latest().contains(uid@)
                &&& final(coordinator)@.latest() == old(coordinator)@.latest().remove(uid@)
                &&& done.update_core == (old(coordinator)@.latest().current == Some(uid@))
                &&& done.proxies_disabled == strands_proxy(
                    final(coordinator)@.latest(),
                    old(config)@,
                )
                &&& final(config)@ == (if done.proxies_disabled {
                    proxies_off(old(config)@)
                } else {
                    old(config)@
                })
                &&& notice_model(done.notice) == (if done.proxies_disabled {
                    Some(NoticeModel { kind: NoticeKind::Info, detail: all_deleted_text() })
                } else {
                    None
                })
            },
            Err(error) => {
                &&& final(coordinator)@ == old(coordinator)@
                &&& final(config)@ == old(config)@
                &&& error == (if old(coordinator)@.active.is_some() {
                    EditError::Busy
                } else {
                    EditError::Refused(ProfileError::NotFound)
                })
            },
        },
{
    let update_core = match coordinator.delete_item(uid) {
        Ok(was_current) => was_current,
        Err(error) => {
            return Err(error);
        },
    };
    let proxy_on = match config.enable_tun_mode {
        Some(true) => true,
        _ => match config.enable_system_proxy {
            Some(true) => true,
            _ => false,
        },
    };
    if !coordinator.latest().has_proxy_profile() && proxy_on {
        config.enable_tun_mode = Some(false);
        config.enable_system_proxy = Some(false);
        Ok(
            DeleteOutcome {
                update_core,
                proxies_disabled: true,
                notice: Some(
                    Notice {
                        kind: NoticeKind::Info,
                        detail: "All profiles deleted, proxy disabled.".to_owned(),
                    },
                ),
            },
        )
    } else {
        Ok(DeleteOutcome { update_core, proxies_disabled: false, notice: None })
    }
}

/// The minutes between updates that an item's settings ask for.
pub open spec fn interval_of(item: ProfileItemModel) -> Option<u64> {
    match item.option {
        Some(option) => option.update_interval,
        None => None,
    }
}

fn interval(item: &ProfileItem) -> (minutes: Option<u64>)
    ensures
        minutes == interval_of(item@),
{
    match item.option {
        Some(option) => option.update_interval,
        None => None,
    }
}

/// Whether laying `patch` over the item called `uid` is a request to change
/// the time between its updates.
pub open spec fn interval_changes(
    profiles: ProfilesModel,
    uid: Seq<char>,
    patch: ProfileItemModel,
) -> bool {
    match profiles.lookup(uid) {
        Some(item) => interval_of(item) != interval_of(patch),
        None => false,
    }
}

/// Lays `patch` over an item and says whether the update timers are to be
/// refreshed because the patch asks for another time between updates.
pub fn patch_profile(coordinator: &mut ProfileSwitchCoordinator, uid: &String, patch: &ProfileItem) -> (outcome:
    Result<bool, EditError>)
    ensures
        match outcome {
            Ok(refresh_timers) => {
                &&& old(coordinator)@.active.is_none()
                &&& old(coordinator)@.latest().contains(uid@)
                &&& final(coordinator)@.latest() == old(coordinator)@.latest().patch_item(
                    uid@,
                    patch@,
                )
                &&& refresh_timers == interval_changes(old(coordinator)@.latest(), uid@, patch@)
            },
            Err(error) => {
                &&& final(coordinator)@ == old(coordinator)@
                &&& error == (if old(coordinator)@.active.is_some() {
                    EditError::Busy
                } else {
                    EditError::Refused(ProfileError::NotFound)
                })
            },
        },
{
    let changed = match coordinator.latest().get_item(uid) {
        Ok(item) => {
            let before = interval(item);
            let after = interval(patch);
            match (before, after) {
                (Some(a), Some(b)) => a != b,
                (None, None) => false,
                _ => true,
            }
        },
        Err(_) => false,
    };
    match coordinator.patch_item(uid, patch) {
        Ok(_) => Ok(changed),
        Err(error) => Err(error),
    }
}

/// Why a profile's document cannot be shown.
#[derive(Clone, Copy, PartialEq, Eq, Structural, Debug)]
pub enum ViewError {
    /// No item has the identifier.
    NotFound,
    /// The item has no document.
    NoFile,
    /// The document is not where it should be.
    Missing,
}

impl ViewError {
    pub fn message(&self) -> (text: String)
        ensures
            text@ == (match self {
                ViewError::NotFound => "failed to get the profile item"@,
                ViewError::NoFile => "the file field is null"@,
                ViewError::Missing => "the file not found"@,
            }),
    {
        match self {
            ViewError::NotFound => "failed to get the profile item".to_owned(),
            ViewError::NoFile => "the file field is null".to_owned(),
            ViewError::Missing => "the file not found".to_owned(),
        }
    }
}

/// The name of the document to show for the item called `uid`.
pub fn view_profile(profiles: &ProfilesState, uid: &String) -> (outcome: Result<String, ViewError>)
    ensures
        match outcome {
            Ok(file) => profiles@.lookup(uid@).is_some() && profiles@.lookup(uid@).unwrap().file
                == Some(file@),
            Err(error) => error == (match profiles@.lookup(uid@) {
                Some(item) => ViewError::NoFile,
                None => ViewError::NotFound,
            }) && (profiles@.lookup(uid@).is_none() || profiles@.lookup(uid@).unwrap().file.is_none()),
        },
{
    match profiles.get_item(uid) {
        Ok(item) => match &item.file {
            Some(file) => Ok(file.clone()),
            None => Err(ViewError::NoFile),
        },
        Err(_) => Err(ViewError::NotFound),
    }
}

/// Whether the item's document exists where it should: the last thing to
/// find out before it is shown.
pub fn view_profile_file(exists: bool) -> (outcome: Result<(), ViewError>)
    ensures
        outcome == (if exists {
            Ok::<(), ViewError>(())
        } else {
            Err(ViewError::Missing)
        }),
{
    if exists {
        Ok(())
    } else {
        Err(ViewError::Missing)
    }
}

/// The items to update when the application starts: those whose settings
/// ask for it, in the order of the list.
pub fn update_profiles_on_startup(profiles: &ProfilesState) -> (uids: Vec<String>)
    ensures
        uids.deep_view() == profiles@.always_updated(),
{
    profiles.update_always_uids()
}

/// Whether any of the updates succeeded, so that the proxy engine is to be
/// told.
pub fn any_update_succeeded(succeeded: &Vec<bool>) -> (any: bool)
    ensures
        any == succeeded@.contains(true),
{
    let mut i: usize = 0;
    while i < succeeded.len()
        invariant
            i <= succeeded.len(),
            forall|j: int| 0 <= j < i ==> !succeeded@[j],
        decreases succeeded.len() - i,
    {
        if succeeded[i] {
            return true;
        }
        i += 1;
    }
    false
}

} // verus!
