//! Updating a profile from its source.
//!
//! A remote item is fetched with its own settings. When that fails it is
//! fetched once more through the proxy engine, and what comes back keeps the
//! proxy settings that the item had, not those of the second attempt. An
//! item that is not remote has nothing to fetch. After an update of the
//! active item the proxy engine is told, unless the caller asked for no
//! refresh.
//!
//! The fetching is the caller's: each step returns the action to perform and
//! the notice to pass on.

use crate::coordinator::{EditError, ProfileSwitchCoordinator};
use crate::notice::{notice_model, Notice, NoticeKind, NoticeModel};
use crate::profiles::{
    ProfileItem, ProfileItemModel, ProfileKind, ProfileOption, ProfilesModel, ProfilesState,
};
use crate::store::StoreModel;
use crate::switch_model::CoordinatorModel;
use vstd::prelude::*;

verus! {

/// What an update is waiting for.
#[derive(Clone, Copy, PartialEq, Eq, Structural, Debug)]
pub enum UpdateStage {
    /// The first fetch.
    FirstFetch,
    /// The fetch through the proxy engine.
    RetryFetch,
    /// The proxy engine's taking over of the updated profile.
    CoreUpdate,
    /// Nothing: the update is over.
    Finished,
}

/// Why an update failed.
#[derive(Debug, PartialEq, Eq)]
pub enum UpdateError {
    /// No item has the identifier.
    NotFound,
    /// The item is remote and has no URL.
    MissingUrl,
    /// Both fetches failed; the detail is the second failure.
    FetchFailed { detail: String },
    /// A switch is under way, so the list cannot be changed now.
    Busy,
}

/// The mathematical content of an [`UpdateError`].
pub enum UpdateErrorModel {
    NotFound,
    MissingUrl,
    FetchFailed { detail: Seq<char> },
    Busy,
}

impl View for UpdateError {
    type V = UpdateErrorModel;

    open spec fn view(&self) -> UpdateErrorModel {
        match self {
            UpdateError::NotFound => UpdateErrorModel::NotFound,
            UpdateError::MissingUrl => UpdateErrorModel::MissingUrl,
            UpdateError::FetchFailed { detail } => UpdateErrorModel::FetchFailed {
                detail: detail@,
            },
            UpdateError::Busy => UpdateErrorModel::Busy,
        }
    }
}

impl UpdateError {
    /// What the user is told.
    pub fn message(&self) -> (text: String)
        ensures
            text@ == (match self@ {
                UpdateErrorModel::NotFound => "failed to get the profile item"@,
                UpdateErrorModel::MissingUrl => "failed to get the profile item url"@,
                UpdateErrorModel::FetchFailed { detail } => detail,
                UpdateErrorModel::Busy => "a profile switch is under way"@,
            }),
    {
        match self {
            UpdateError::NotFound => "failed to get the profile item".to_owned(),
            UpdateError::MissingUrl => "failed to get the profile item url".to_owned(),
            UpdateError::FetchFailed { detail } => detail.clone(),
            UpdateError::Busy => "a profile switch is under way".to_owned(),
        }
    }
}

/// What is delivered to an update.
#[derive(Debug, PartialEq, Eq)]
pub enum UpdateEvent {
    /// What came of fetching the item from its URL.
    Fetched { result: Result<ProfileItem, String> },
    /// What came of telling the proxy engine.
    CoreUpdated { outcome: Result<(), String> },
}

/// What the caller is asked to do next.
#[derive(Debug, PartialEq, Eq)]
pub enum UpdateAction {
    /// Fetch the item from `url` with these settings and deliver the result.
    Fetch { url: String, option: Option<ProfileOption> },
    /// Tell the proxy engine and deliver the result.
    UpdateCore,
    /// The update is over.
    Done(Result<(), UpdateError>),
    /// The event is not what the update is waiting for.
    Ignored,
}

/// The mathematical content of an [`UpdateAction`].
pub enum UpdateActionModel {
    Fetch { url: Seq<char>, option: Option<ProfileOption> },
    UpdateCore,
    Done(Result<(), UpdateErrorModel>),
    Ignored,
}

impl View for UpdateAction {
    type V = UpdateActionModel;

    open spec fn view(&self) -> UpdateActionModel {
        match self {
            UpdateAction::Fetch { url, option } => UpdateActionModel::Fetch {
                url: url@,
                option: *option,
            },
            UpdateAction::UpdateCore => UpdateActionModel::UpdateCore,
            UpdateAction::Done(outcome) => UpdateActionModel::Done(
                match outcome {
                    Ok(_) => Ok(()),
                    Err(error) => Err(error@),
                },
            ),
            UpdateAction::Ignored => UpdateActionModel::Ignored,
        }
    }
}

/// What a step returns.
#[derive(Debug, PartialEq, Eq)]
pub struct UpdateStep {
    pub action: UpdateAction,
    /// The event to pass on to the user interface.
    pub notice: Option<Notice>,
    /// Whether what shows the proxy engine's state is to be refreshed.
    pub refresh: bool,
}

/// The mathematical content of an [`UpdateStep`].
pub struct UpdateStepModel {
    pub action: UpdateActionModel,
    pub notice: Option<NoticeModel>,
    pub refresh: bool,
}

impl View for UpdateStep {
    type V = UpdateStepModel;

    open spec fn view(&self) -> UpdateStepModel {
        UpdateStepModel {
            action: self.action@,
            notice: notice_model(self.notice),
            refresh: self.refresh,
        }
    }
}

/// Settings that say nothing.
pub open spec fn silent_option() -> ProfileOption {
    ProfileOption { update_interval: None, with_proxy: None, self_proxy: None, update_always: None }
}

/// The settings of the second attempt: as before, but through the proxy
/// engine and not through the system proxy.
pub open spec fn fallback_option(merged: Option<ProfileOption>) -> ProfileOption {
    let base = match merged {
        Some(option) => option,
        None => silent_option(),
    };
    ProfileOption { with_proxy: Some(false), self_proxy: Some(true), ..base }
}

/// What was fetched on the second attempt, with the proxy settings of the
/// first put back.
pub open spec fn restored(fetched: ProfileItemModel, merged: Option<ProfileOption>) -> ProfileItemModel {
    match fetched.option {
        Some(option) => ProfileItemModel {
            option: Some(
                ProfileOption {
                    with_proxy: match merged {
                        Some(m) => m.with_proxy,
                        None => None,
                    },
                    self_proxy: match merged {
                        Some(m) => m.self_proxy,
                        None => None,
                    },
                    ..option
                },
            ),
            ..fetched
        },
        None => fetched,
    }
}

/// The mathematical content of a [`SubscriptionUpdate`].
pub struct UpdateModel {
    pub uid: Seq<char>,
    pub url: Seq<char>,
    pub auto_refresh: bool,
    /// The item's settings with the caller's laid over them.
    pub merged: Option<ProfileOption>,
    pub stage: UpdateStage,
}

/// The result of the first step.
pub struct BeginModel {
    pub update: UpdateModel,
    pub step: UpdateStepModel,
}

/// The result of a later step.
pub struct UpdateResultModel {
    pub update: UpdateModel,
    pub coordinator: CoordinatorModel,
    pub step: UpdateStepModel,
}

/// A step that passes nothing on.
pub open spec fn quiet(action: UpdateActionModel) -> UpdateStepModel {
    UpdateStepModel { action, notice: None, refresh: false }
}

impl UpdateModel {
    pub open spec fn at(self, stage: UpdateStage) -> Self {
        UpdateModel { stage, ..self }
    }

    /// The first step: what updating the item called `uid` begins with.
    pub open spec fn begin(
        profiles: ProfilesModel,
        uid: Seq<char>,
        option: Option<ProfileOption>,
        auto_refresh: Option<bool>,
    ) -> BeginModel {
        let refresh = match auto_refresh {
            Some(wanted) => wanted,
            None => true,
        };
        let blank = UpdateModel {
            uid,
            url: Seq::empty(),
            auto_refresh: refresh,
            merged: None,
            stage: UpdateStage::Finished,
        };
        match profiles.lookup(uid) {
            None => BeginModel {
                update: blank,
                step: quiet(UpdateActionModel::Done(Err(UpdateErrorModel::NotFound))),
            },
            Some(item) => if item.kind != ProfileKind::Remote {
                if refresh {
                    BeginModel {
                        update: blank.at(UpdateStage::CoreUpdate),
                        step: quiet(UpdateActionModel::UpdateCore),
                    }
                } else {
                    BeginModel { update: blank, step: quiet(UpdateActionModel::Done(Ok(()))) }
                }
            } else {
                match item.url {
                    None => BeginModel {
                        update: blank,
                        step: quiet(UpdateActionModel::Done(Err(UpdateErrorModel::MissingUrl))),
                    },
                    Some(url) => BeginModel {
                        update: UpdateModel {
                            uid,
                            url,
                            auto_refresh: refresh,
                            merged: ProfileOption::merged(item.option, option),
                            stage: UpdateStage::FirstFetch,
                        },
                        step: quiet(
                            UpdateActionModel::Fetch {
                                url,
                                option: ProfileOption::merged(item.option, option),
                            },
                        ),
                    },
                }
            },
        }
    }

    /// What was fetched is written into the list, and the proxy engine is
    /// told where the active item was updated and a refresh is wanted.
    pub open spec fn store(
        self,
        coordinator: CoordinatorModel,
        fetched: ProfileItemModel,
        notice: Option<NoticeModel>,
    ) -> UpdateResultModel {
        if coordinator.active.is_some() {
            UpdateResultModel {
                update: self.at(UpdateStage::Finished),
                coordinator,
                step: quiet(UpdateActionModel::Done(Err(UpdateErrorModel::Busy))),
            }
        } else if !coordinator.latest().contains(self.uid) {
            UpdateResultModel {
                update: self.at(UpdateStage::Finished),
                coordinator,
                step: quiet(UpdateActionModel::Done(Err(UpdateErrorModel::NotFound))),
            }
        } else {
            let stored = CoordinatorModel {
                store: StoreModel {
                    committed: coordinator.latest().update_item(self.uid, fetched),
                    pending: None,
                },
                ..coordinator
            };
            if coordinator.latest().current == Some(self.uid) && self.auto_refresh {
                UpdateResultModel {
                    update: self.at(UpdateStage::CoreUpdate),
                    coordinator: stored,
                    step: UpdateStepModel {
                        action: UpdateActionModel::UpdateCore,
                        notice,
                        refresh: false,
                    },
                }
            } else {
                UpdateResultModel {
                    update: self.at(UpdateStage::Finished),
                    coordinator: stored,
                    step: UpdateStepModel {
                        action: UpdateActionModel::Done(Ok(())),
                        notice,
                        refresh: false,
                    },
                }
            }
        }
    }

    /// A fetch has come back.
    pub open spec fn fetched(
        self,
        coordinator: CoordinatorModel,
        result: Result<ProfileItem, String>,
    ) -> UpdateResultModel {
        match self.stage {
            UpdateStage::FirstFetch => match result {
                Ok(item) => self.store(coordinator, item@, None),
                Err(_) => UpdateResultModel {
                    update: self.at(UpdateStage::RetryFetch),
                    coordinator,
                    step: UpdateStepModel {
                        action: UpdateActionModel::Fetch {
                            url: self.url,
                            option: Some(fallback_option(self.merged)),
                        },
                        notice: Some(
                            NoticeModel { kind: NoticeKind::UpdateRetryWithClash, detail: self.uid },
                        ),
                        refresh: false,
                    },
                },
            },
            UpdateStage::RetryFetch => match result {
                Ok(item) => self.store(
                    coordinator,
                    restored(item@, self.merged),
                    Some(
                        NoticeModel {
                            kind: NoticeKind::UpdateWithClashProxy,
                            detail: match item@.name {
                                Some(name) => name,
                                None => self.uid,
                            },
                        },
                    ),
                ),
                Err(detail) => UpdateResultModel {
                    update: self.at(UpdateStage::Finished),
                    coordinator,
                    step: UpdateStepModel {
                        action: UpdateActionModel::Done(
                            Err(UpdateErrorModel::FetchFailed { detail: detail@ }),
                        ),
                        notice: Some(
                            NoticeModel {
                                kind: NoticeKind::UpdateFailedEvenWithClash,
                                detail: detail@,
                            },
                        ),
                        refresh: false,
                    },
                },
            },
            _ => UpdateResultModel {
                update: self,
                coordinator,
                step: quiet(UpdateActionModel::Ignored),
            },
        }
    }

    /// The proxy engine has answered. Its failure is told to the user and
    /// does not undo the update.
    pub open spec fn core_updated(
        self,
        coordinator: CoordinatorModel,
        result: Result<(), String>,
    ) -> UpdateResultModel {
        match self.stage {
            UpdateStage::CoreUpdate => UpdateResultModel {
                update: self.at(UpdateStage::Finished),
                coordinator,
                step: match result {
                    Ok(_) => UpdateStepModel {
                        action: UpdateActionModel::Done(Ok(())),
                        notice: None,
                        refresh: true,
                    },
                    Err(detail) => UpdateStepModel {
                        action: UpdateActionModel::Done(Ok(())),
                        notice: Some(
                            NoticeModel { kind: NoticeKind::UpdateFailed, detail: detail@ },
                        ),
                        refresh: false,
                    },
                },
            },
            _ => UpdateResultModel {
                update: self,
                coordinator,
                step: quiet(UpdateActionModel::Ignored),
            },
        }
    }

    /// One step of an update.
    pub open spec fn step(self, coordinator: CoordinatorModel, event: UpdateEvent) -> UpdateResultModel {
        match event {
            UpdateEvent::Fetched { result } => self.fetched(coordinator, result),
            UpdateEvent::CoreUpdated { outcome } => self.core_updated(coordinator, outcome),
        }
    }
}

/// One update of one profile.
#[derive(Debug, PartialEq, Eq)]
pub struct SubscriptionUpdate {
    uid: String,
    url: String,
    auto_refresh: bool,
    merged: Option<ProfileOption>,
    stage: UpdateStage,
}

impl View for SubscriptionUpdate {
    type V = UpdateModel;

    closed spec fn view(&self) -> UpdateModel {
        UpdateModel {
            uid: self.uid@,
            url: self.url@,
            auto_refresh: self.auto_refresh,
            merged: self.merged,
            stage: self.stage,
        }
    }
}

fn quiet_step(action: UpdateAction) -> (step: UpdateStep)
    ensures
        step@ == quiet(action@),
{
    UpdateStep { action, notice: None, refresh: false }
}

impl SubscriptionUpdate {
    pub fn stage(&self) -> (stage: UpdateStage)
        ensures
            stage == self@.stage,
    {
        self.stage
    }

    /// Begins the update of the item called `uid`. `option` is laid over
    /// the item's own settings for the fetch; `auto_refresh` says whether
    /// the proxy engine is to be told afterwards, and counts as yes where it
    /// is left out.
    pub fn update_profile(
        profiles: &ProfilesState,
        uid: String,
        option: Option<ProfileOption>,
        auto_refresh: Option<bool>,
    ) -> (begun: (SubscriptionUpdate, UpdateStep))
        ensures
            (BeginModel { update: begun.0@, step: begun.1@ }) == UpdateModel::begin(
                profiles@,
                uid@,
                option,
                auto_refresh,
            ),
    {
        let refresh = match auto_refresh {
            Some(wanted) => wanted,
            None => true,
        };
        let item = match profiles.get_item(&uid) {
            Ok(item) => item,
            Err(_) => {
                return (
                    SubscriptionUpdate {
                        uid,
                        url: String::new(),
                        auto_refresh: refresh,
                        merged: None,
                        stage: UpdateStage::Finished,
                    },
                    quiet_step(UpdateAction::Done(Err(UpdateError::NotFound))),
                );
            },
        };
        let remote = match item.kind {
            ProfileKind::Remote => true,
            _ => false,
        };
        if !remote {
            if refresh {
                (
                    SubscriptionUpdate {
                        uid,
                        url: String::new(),
                        auto_refresh: refresh,
                        merged: None,
                        stage: UpdateStage::CoreUpdate,
                    },
                    quiet_step(UpdateAction::UpdateCore),
                )
            } else {
                (
                    SubscriptionUpdate {
                        uid,
                        url: String::new(),
                        auto_refresh: refresh,
                        merged: None,
                        stage: UpdateStage::Finished,
                    },
                    quiet_step(UpdateAction::Done(Ok(()))),
                )
            }
        } else {
            match &item.url {
                None => (
                    SubscriptionUpdate {
                        uid,
                        url: String::new(),
                        auto_refresh: refresh,
                        merged: None,
                        stage: UpdateStage::Finished,
                    },
                    quiet_step(UpdateAction::Done(Err(UpdateError::MissingUrl))),
                ),
                Some(url) => {
                    let merged = ProfileOption::merge(item.option, option);
                    let fetch = UpdateAction::Fetch { url: url.clone(), option: merged };
                    (
                        SubscriptionUpdate {
                            uid,
                            url: url.clone(),
                            auto_refresh: refresh,
                            merged,
                            stage: UpdateStage::FirstFetch,
                        },
                        quiet_step(fetch),
                    )
                },
            }
        }
    }

    fn store(
        &mut self,
        coordinator: &mut ProfileSwitchCoordinator,
        fetched: &ProfileItem,
        notice: Option<Notice>,
    ) -> (step: UpdateStep)
        ensures
            (UpdateResultModel {
                update: final(self)@,
                coordinator: final(coordinator)@,
                step: step@,
            }) == old(self)@.store(old(coordinator)@, fetched@, notice_model(notice)),
    {
        let current = coordinator.latest().get_current();
        let is_current = match &current {
            Some(active) => *active == self.uid,
            None => false,
        };
        match coordinator.update_item(&self.uid, fetched) {
            Ok(_) => {
                if is_current && self.auto_refresh {
                    self.stage = UpdateStage::CoreUpdate;
                    UpdateStep { action: UpdateAction::UpdateCore, notice, refresh: false }
                } else {
                    self.stage = UpdateStage::Finished;
                    UpdateStep { action: UpdateAction::Done(Ok(())), notice, refresh: false }
                }
            },
            Err(error) => {
                self.stage = UpdateStage::Finished;
                match error {
                    EditError::Busy => quiet_step(UpdateAction::Done(Err(UpdateError::Busy))),
                    EditError::Refused(_) => quiet_step(
                        UpdateAction::Done(Err(UpdateError::NotFound)),
                    ),
                }
            },
        }
    }

    fn on_fetched(
        &mut self,
        coordinator: &mut ProfileSwitchCoordinator,
        result: Result<ProfileItem, String>,
    ) -> (step: UpdateStep)
        ensures
            (UpdateResultModel {
                update: final(self)@,
                coordinator: final(coordinator)@,
                step: step@,
            }) == old(self)@.fetched(old(coordinator)@, result),
    {
        match self.stage {
            UpdateStage::FirstFetch => match result {
                Ok(item) => self.store(coordinator, &item, None),
                Err(_) => {
                    let base = match self.merged {
                        Some(option) => option,
                        None => ProfileOption {
                            update_interval: None,
                            with_proxy: None,
                            self_proxy: None,
                            update_always: None,
                        },
                    };
                    let fallback = ProfileOption {
                        update_interval: base.update_interval,
                        with_proxy: Some(false),
                        self_proxy: Some(true),
                        update_always: base.update_always,
                    };
                    self.stage = UpdateStage::RetryFetch;
                    UpdateStep {
                        action: UpdateAction::Fetch { url: self.url.clone(), option: Some(fallback) },
                        notice: Some(
                            Notice {
                                kind: NoticeKind::UpdateRetryWithClash,
                                detail: self.uid.clone(),
                            },
                        ),
                        refresh: false,
                    }
                },
            },
            UpdateStage::RetryFetch => match result {
                Ok(item) => {
                    let shown = match &item.name {
                        Some(name) => name.clone(),
                        None => self.uid.clone(),
                    };
                    let option = match item.option {
                        Some(option) => Some(
                            ProfileOption {
                                update_interval: option.update_interval,
                                with_proxy: match self.merged {
                                    Some(m) => m.with_proxy,
                                    None => None,
                                },
                                self_proxy: match self.merged {
                                    Some(m) => m.self_proxy,
                                    None => None,
                                },
                                update_always: option.update_always,
                            },
                        ),
                        None => None,
                    };
                    let put_back = ProfileItem {
                        uid: item.uid,
                        kind: item.kind,
                        name: item.name,
                        file: item.file,
                        url: item.url,
                        option,
                    };
                    self.store(
                        coordinator,
                        &put_back,
                        Some(Notice { kind: NoticeKind::UpdateWithClashProxy, detail: shown }),
                    )
                },
                Err(detail) => {
                    self.stage = UpdateStage::Finished;
                    UpdateStep {
                        action: UpdateAction::Done(
                            Err(UpdateError::FetchFailed { detail: detail.clone() }),
                        ),
                        notice: Some(
                            Notice { kind: NoticeKind::UpdateFailedEvenWithClash, detail },
                        ),
                        refresh: false,
                    }
                },
            },
            _ => quiet_step(UpdateAction::Ignored),
        }
    }

    fn on_core_updated(&mut self, result: Result<(), String>) -> (step: UpdateStep)
        ensures
            forall|coordinator: CoordinatorModel|
                (UpdateResultModel { update: final(self)@, coordinator, step: step@ }) == (
                #[trigger] old(self)@.core_updated(coordinator, result)),
    {
        match self.stage {
            UpdateStage::CoreUpdate => {
                self.stage = UpdateStage::Finished;
                match result {
                    Ok(_) => UpdateStep {
                        action: UpdateAction::Done(Ok(())),
                        notice: None,
                        refresh: true,
                    },
                    Err(detail) => UpdateStep {
                        action: UpdateAction::Done(Ok(())),
                        notice: Some(Notice { kind: NoticeKind::UpdateFailed, detail }),
                        refresh: false,
                    },
                }
            },
            _ => quiet_step(UpdateAction::Ignored),
        }
    }

    /// Delivers one event and returns what to do next.
    pub fn step(&mut self, coordinator: &mut ProfileSwitchCoordinator, event: UpdateEvent) -> (step:
        UpdateStep)
        ensures
            (UpdateResultModel {
                update: final(self)@,
                coordinator: final(coordinator)@,
                step: step@,
            }) == old(self)@.step(old(coordinator)@, event),
    {
        match event {
            UpdateEvent::Fetched { result } => self.on_fetched(coordinator, result),
            UpdateEvent::CoreUpdated { outcome } => self.on_core_updated(outcome),
        }
    }
}

/// The second attempt goes through the proxy engine, whatever the settings
/// say, and what it brings keeps the proxy settings that were there before.
pub proof fn lemma_fallback_leaves_no_trace(fetched: ProfileItemModel, merged: Option<ProfileOption>)
    ensures
        fallback_option(merged).self_proxy == Some(true),
        fallback_option(merged).with_proxy == Some(false),
        fetched.option.is_some() ==> restored(fetched, merged).option.unwrap().with_proxy == (
        match merged {
            Some(m) => m.with_proxy,
            None => None,
        }),
        fetched.option.is_some() ==> restored(fetched, merged).option.unwrap().self_proxy == (
        match merged {
            Some(m) => m.self_proxy,
            None => None,
        }),
{
}

/// An update never changes which profile is active, and it fetches at most
/// twice: a failed second attempt ends it.
pub proof fn lemma_update_keeps_the_choice(
    update: UpdateModel,
    coordinator: CoordinatorModel,
    event: UpdateEvent,
)
    ensures
        update.step(coordinator, event).coordinator.latest().current
            == coordinator.latest().current,
        update.step(coordinator, event).coordinator.counter == coordinator.counter,
        update.stage == UpdateStage::RetryFetch ==> !(update.step(coordinator, event).step.action
            is Fetch),
{
}

} // verus!
