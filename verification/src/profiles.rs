//! Profiles: the managed configurations and the choice of the active one.
//!
//! A [`ProfilesState`] is an ordered list of items with distinct identifiers
//! and, optionally, the identifier of the active item, which then names an
//! item of the list. Every operation here keeps that invariant.

use crate::text::clone_text;
use vstd::prelude::*;

verus! {

/// Where an item's document comes from.
#[derive(Clone, Copy, PartialEq, Eq, Structural, Debug)]
pub enum ProfileKind {
    /// Fetched from a URL.
    Remote,
    /// Kept in a local file.
    Local,
    /// An enhancement (merge, script, rules, ...) rather than a configuration.
    Other,
}

impl ProfileKind {
    /// Remote and local items are configurations that can be made active.
    pub open spec fn is_proxy_model(self) -> bool {
        self == ProfileKind::Remote || self == ProfileKind::Local
    }

    pub fn is_proxy(&self) -> (proxy: bool)
        ensures
            proxy == self.is_proxy_model(),
    {
        match self {
            ProfileKind::Remote => true,
            ProfileKind::Local => true,
            ProfileKind::Other => false,
        }
    }
}

/// Per-item settings. A field that is `None` leaves the matter to defaults.
#[derive(Clone, Copy, Debug, PartialEq, Eq)]
pub struct ProfileOption {
    /// Minutes between automatic updates.
    pub update_interval: Option<u64>,
    /// Fetch through the system proxy.
    pub with_proxy: Option<bool>,
    /// Fetch through the proxy engine itself.
    pub self_proxy: Option<bool>,
    /// Update whenever the application starts.
    pub update_always: Option<bool>,
}

/// The second choice where the first is silent.
pub open spec fn or_else<T>(first: Option<T>, second: Option<T>) -> Option<T> {
    match first {
        Some(_) => first,
        None => second,
    }
}

impl ProfileOption {
    /// The settings that hold when `other` is laid over `one`: field by
    /// field what `other` says, and what `one` says where `other` is silent.
    pub open spec fn merged(one: Option<ProfileOption>, other: Option<ProfileOption>) -> Option<
        ProfileOption,
    > {
        match (one, other) {
            (Some(a), Some(b)) => Some(
                ProfileOption {
                    update_interval: or_else(b.update_interval, a.update_interval),
                    with_proxy: or_else(b.with_proxy, a.with_proxy),
                    self_proxy: or_else(b.self_proxy, a.self_proxy),
                    update_always: or_else(b.update_always, a.update_always),
                },
            ),
            (Some(a), None) => Some(a),
            (None, other) => other,
        }
    }

    /// Lays `other` over `one`.
    pub fn merge(one: Option<ProfileOption>, other: Option<ProfileOption>) -> (merged: Option<
        ProfileOption,
    >)
        ensures
            merged == Self::merged(one, other),
    {
        match (one, other) {
            (Some(a), Some(b)) => Some(
                ProfileOption {
                    update_interval: match b.update_interval {
                        Some(value) => Some(value),
                        None => a.update_interval,
                    },
                    with_proxy: match b.with_proxy {
                        Some(value) => Some(value),
                        None => a.with_proxy,
                    },
                    self_proxy: match b.self_proxy {
                        Some(value) => Some(value),
                        None => a.self_proxy,
                    },
                    update_always: match b.update_always {
                        Some(value) => Some(value),
                        None => a.update_always,
                    },
                },
            ),
            (Some(a), None) => Some(a),
            (None, other) => other,
        }
    }
}

/// One managed configuration.
#[derive(Debug, PartialEq, Eq)]
pub struct ProfileItem {
    pub uid: String,
    pub kind: ProfileKind,
    pub name: Option<String>,
    /// The name of the item's document inside the profiles directory.
    pub file: Option<String>,
    /// The source of a remote item.
    pub url: Option<String>,
    pub option: Option<ProfileOption>,
}

/// The mathematical content of a [`ProfileItem`].
pub struct ProfileItemModel {
    pub uid: Seq<char>,
    pub kind: ProfileKind,
    pub name: Option<Seq<char>>,
    pub file: Option<Seq<char>>,
    pub url: Option<Seq<char>>,
    pub option: Option<ProfileOption>,
}

impl View for ProfileItem {
    type V = ProfileItemModel;

    open spec fn view(&self) -> ProfileItemModel {
        ProfileItemModel {
            uid: self.uid@,
            kind: self.kind,
            name: self.name.deep_view(),
            file: self.file.deep_view(),
            url: self.url.deep_view(),
            option: self.option,
        }
    }
}

impl Clone for ProfileItem {
    fn clone(&self) -> (copy: Self)
        ensures
            copy@ == self@,
    {
        ProfileItem {
            uid: self.uid.clone(),
            kind: self.kind,
            name: clone_text(&self.name),
            file: clone_text(&self.file),
            url: clone_text(&self.url),
            option: self.option,
        }
    }
}

impl ProfileItemModel {
    /// The item with what `patch` says laid over it. The identifier and the
    /// kind stay.
    pub open spec fn patched(self, patch: ProfileItemModel) -> Self {
        ProfileItemModel {
            uid: self.uid,
            kind: self.kind,
            name: or_else(patch.name, self.name),
            file: or_else(patch.file, self.file),
            url: or_else(patch.url, self.url),
            option: or_else(patch.option, self.option),
        }
    }

    /// The item after its source was fetched anew: the settings that came
    /// with the fetch are laid over the item's own.
    pub open spec fn refreshed(self, fetched: ProfileItemModel) -> Self {
        ProfileItemModel { option: ProfileOption::merged(self.option, fetched.option), ..self }
    }
}

impl ProfileItem {
    fn patched(&self, patch: &ProfileItem) -> (item: ProfileItem)
        ensures
            item@ == self@.patched(patch@),
    {
        ProfileItem {
            uid: self.uid.clone(),
            kind: self.kind,
            name: match &patch.name {
                Some(name) => Some(name.clone()),
                None => clone_text(&self.name),
            },
            file: match &patch.file {
                Some(file) => Some(file.clone()),
                None => clone_text(&self.file),
            },
            url: match &patch.url {
                Some(url) => Some(url.clone()),
                None => clone_text(&self.url),
            },
            option: match patch.option {
                Some(option) => Some(option),
                None => self.option,
            },
        }
    }

    fn refreshed(&self, fetched: &ProfileItem) -> (item: ProfileItem)
        ensures
            item@ == self@.refreshed(fetched@),
    {
        ProfileItem {
            uid: self.uid.clone(),
            kind: self.kind,
            name: clone_text(&self.name),
            file: clone_text(&self.file),
            url: clone_text(&self.url),
            option: ProfileOption::merge(self.option, fetched.option),
        }
    }
}

/// The views of a vector's items, in order.
pub open spec fn item_models(items: Seq<ProfileItem>) -> Seq<ProfileItemModel> {
    items.map_values(|item: ProfileItem| item@)
}

/// `index` is the place of the first item called `uid`.
pub open spec fn is_first(items: Seq<ProfileItemModel>, uid: Seq<char>, index: int) -> bool {
    &&& 0 <= index < items.len()
    &&& items[index].uid == uid
    &&& forall|j: int| 0 <= j < index ==> (#[trigger] items[j]).uid != uid
}

/// `index` is the place of the first item that can be made active.
pub open spec fn is_first_proxy(items: Seq<ProfileItemModel>, index: int) -> bool {
    &&& 0 <= index < items.len()
    &&& items[index].kind.is_proxy_model()
    &&& forall|j: int| 0 <= j < index ==> !(#[trigger] items[j]).kind.is_proxy_model()
}

/// No two items share an identifier.
pub open spec fn distinct_uids(items: Seq<ProfileItemModel>) -> bool {
    forall|i: int, j: int|
        0 <= i < j < items.len() ==> (#[trigger] items[i]).uid != (#[trigger] items[j]).uid
}

/// The mathematical content of a [`ProfilesState`].
pub struct ProfilesModel {
    pub current: Option<Seq<char>>,
    pub items: Seq<ProfileItemModel>,
}

impl ProfilesModel {
    pub open spec fn contains(self, uid: Seq<char>) -> bool {
        exists|i: int| 0 <= i < self.items.len() && (#[trigger] self.items[i]).uid == uid
    }

    /// The place of the first item called `uid`; meaningful where there is one.
    pub open spec fn position(self, uid: Seq<char>) -> int {
        choose|i: int| is_first(self.items, uid, i)
    }

    /// The first item called `uid`.
    pub open spec fn lookup(self, uid: Seq<char>) -> Option<ProfileItemModel> {
        if self.contains(uid) {
            Some(self.items[self.position(uid)])
        } else {
            None
        }
    }

    pub open spec fn has_proxy(self) -> bool {
        exists|i: int|
            0 <= i < self.items.len() && (#[trigger] self.items[i]).kind.is_proxy_model()
    }

    /// The identifier of the first item that can be made active.
    pub open spec fn first_proxy(self) -> Option<Seq<char>> {
        if self.has_proxy() {
            Some(self.items[choose|i: int| is_first_proxy(self.items, i)].uid)
        } else {
            None
        }
    }

    /// Identifiers are distinct and not empty, and the active identifier
    /// names an item.
    pub open spec fn wf(self) -> bool {
        &&& distinct_uids(self.items)
        &&& forall|i: int| 0 <= i < self.items.len() ==> (#[trigger] self.items[i]).uid.len() > 0
        &&& match self.current {
            Some(uid) => self.contains(uid),
            None => true,
        }
    }

    /// Makes `target` the active item where it names one; a target that
    /// names no item, or no target, changes nothing.
    pub open spec fn patch(self, target: Option<Seq<char>>) -> Self {
        match target {
            Some(uid) => if self.contains(uid) {
                ProfilesModel { current: Some(uid), items: self.items }
            } else {
                self
            },
            None => self,
        }
    }

    /// Whether `item` can be added: it has an identifier, and a new one.
    pub open spec fn accepts(self, item: ProfileItemModel) -> bool {
        item.uid.len() > 0 && !self.contains(item.uid)
    }

    /// Adds `item` at the end. The first configuration to arrive while none
    /// is active becomes the active one.
    pub open spec fn append(self, item: ProfileItemModel) -> Self {
        ProfilesModel {
            current: if self.current.is_none() && item.kind.is_proxy_model() {
                Some(item.uid)
            } else {
                self.current
            },
            items: self.items.push(item),
        }
    }

    /// Removes the item called `uid`. Where it was the active one, the first
    /// remaining configuration takes its place.
    pub open spec fn remove(self, uid: Seq<char>) -> Self {
        let rest = ProfilesModel {
            current: self.current,
            items: self.items.remove(self.position(uid)),
        };
        ProfilesModel {
            current: if self.current == Some(uid) {
                rest.first_proxy()
            } else {
                self.current
            },
            items: rest.items,
        }
    }

    /// The identifiers, in order, of the items that ask to be updated at
    /// every start.
    pub open spec fn always_updated(self) -> Seq<Seq<char>> {
        self.items.filter(|item: ProfileItemModel| asks_update_always(item)).map_values(
            |item: ProfileItemModel| item.uid,
        )
    }

    /// The identifier of the first item fetched from `url`.
    pub open spec fn uid_by_url(self, url: Seq<char>) -> Option<Seq<char>> {
        if exists|i: int| is_first_from(self.items, url, i) {
            Some(self.items[choose|i: int| is_first_from(self.items, url, i)].uid)
        } else {
            None
        }
    }
}

/// Whether the item's settings ask for an update at every start.
pub open spec fn asks_update_always(item: ProfileItemModel) -> bool {
    match item.option {
        Some(option) => option.update_always == Some(true),
        None => false,
    }
}

/// `index` is the place of the first item fetched from `url`.
pub open spec fn is_first_from(items: Seq<ProfileItemModel>, url: Seq<char>, index: int) -> bool {
    &&& 0 <= index < items.len()
    &&& items[index].url == Some(url)
    &&& forall|j: int| 0 <= j < index ==> (#[trigger] items[j]).url != Some(url)
}

/// The first place of an identifier is unique, so `position` finds it.
pub proof fn lemma_position(state: ProfilesModel, uid: Seq<char>, index: int)
    requires
        is_first(state.items, uid, index),
    ensures
        state.contains(uid),
        state.position(uid) == index,
        state.lookup(uid) == Some(state.items[index]),
{
    let found = state.position(uid);
    assert(is_first(state.items, uid, found));
    if found < index {
        assert(state.items[found].uid != uid);
    }
    if index < found {
        assert(state.items[index].uid != uid);
    }
}

/// The first configuration is unique, so `first_proxy` names it.
pub proof fn lemma_first_proxy(state: ProfilesModel, index: int)
    requires
        is_first_proxy(state.items, index),
    ensures
        state.has_proxy(),
        state.first_proxy() == Some(state.items[index].uid),
{
    let found = choose|i: int| is_first_proxy(state.items, i);
    assert(is_first_proxy(state.items, found));
    if found < index {
        assert(!state.items[found].kind.is_proxy_model());
    }
    if index < found {
        assert(!state.items[index].kind.is_proxy_model());
    }
}

/// The first item from a URL is unique, so `uid_by_url` names it.
pub proof fn lemma_uid_by_url(state: ProfilesModel, url: Seq<char>, index: int)
    requires
        is_first_from(state.items, url, index),
    ensures
        state.uid_by_url(url) == Some(state.items[index].uid),
{
    let found = choose|i: int| is_first_from(state.items, url, i);
    assert(is_first_from(state.items, url, found));
    if found < index {
        assert(state.items[found].url != Some(url));
    }
    if index < found {
        assert(state.items[index].url != Some(url));
    }
}

/// An identifier that occurs has a first place.
pub proof fn lemma_contains_has_first(items: Seq<ProfileItemModel>, uid: Seq<char>, bound: int)
    requires
        0 <= bound < items.len(),
        items[bound].uid == uid,
    ensures
        exists|i: int| is_first(items, uid, i),
    decreases bound,
{
    if exists|j: int| 0 <= j < bound && (#[trigger] items[j]).uid == uid {
        let j = choose|j: int| 0 <= j < bound && (#[trigger] items[j]).uid == uid;
        lemma_contains_has_first(items, uid, j);
    } else {
        assert(is_first(items, uid, bound));
    }
}

/// Making an item active keeps the state well formed and the list as it is.
pub proof fn lemma_patch_keeps_wf(state: ProfilesModel, target: Option<Seq<char>>)
    requires
        state.wf(),
    ensures
        state.patch(target).wf(),
        state.patch(target).items == state.items,
{
}

/// Making the active item active again changes nothing.
pub proof fn lemma_patch_current_is_identity(state: ProfilesModel)
    requires
        state.wf(),
    ensures
        state.patch(state.current) == state,
{
}

/// Making the same item active twice is the same as doing it once.
pub proof fn lemma_patch_idempotent(state: ProfilesModel, target: Option<Seq<char>>)
    ensures
        state.patch(target).patch(target) == state.patch(target),
{
    match target {
        Some(uid) => {
            if state.contains(uid) {
                let i = choose|i: int| 0 <= i < state.items.len() && (#[trigger] state.items[i]).uid == uid;
                assert(state.patch(target).items[i].uid == uid);
            }
        },
        None => {},
    }
}

/// Adding an acceptable item keeps the state well formed.
pub proof fn lemma_append_keeps_wf(state: ProfilesModel, item: ProfileItemModel)
    requires
        state.wf(),
        state.accepts(item),
    ensures
        state.append(item).wf(),
{
    let after = state.append(item);
    let n = state.items.len() as int;
    assert(after.items[n] == item);
    assert forall|i: int, j: int| 0 <= i < j < after.items.len() implies (#[trigger] after.items[i]).uid
        != (#[trigger] after.items[j]).uid by {
        if j == n {
            assert(after.items[i] == state.items[i]);
        } else {
            assert(after.items[i] == state.items[i]);
            assert(after.items[j] == state.items[j]);
        }
    }
    assert forall|i: int| 0 <= i < after.items.len() implies (#[trigger] after.items[i]).uid.len()
        > 0 by {
        if i < n {
            assert(after.items[i] == state.items[i]);
        }
    }
    match after.current {
        Some(uid) => {
            if state.current.is_none() {
                assert(after.items[n].uid == uid);
            } else {
                let i = choose|i: int| 0 <= i < state.items.len() && (#[trigger] state.items[i]).uid == uid;
                assert(after.items[i] == state.items[i]);
            }
        },
        None => {},
    }
}

/// Removing an item keeps the state well formed, and the item is gone.
pub proof fn lemma_remove_keeps_wf(state: ProfilesModel, uid: Seq<char>)
    requires
        state.wf(),
        state.contains(uid),
    ensures
        state.remove(uid).wf(),
        !state.remove(uid).contains(uid),
        state.remove(uid).items.len() + 1 == state.items.len(),
{
    let witness = choose|i: int| 0 <= i < state.items.len() && (#[trigger] state.items[i]).uid == uid;
    lemma_contains_has_first(state.items, uid, witness);
    let p = state.position(uid);
    assert(is_first(state.items, uid, p));
    let after = state.remove(uid);
    assert(after.items == state.items.remove(p));
    assert forall|i: int| 0 <= i < after.items.len() implies #[trigger] after.items[i] == state.items[if i
        < p {
        i
    } else {
        i + 1
    }] by {}
    assert forall|i: int, j: int| 0 <= i < j < after.items.len() implies (#[trigger] after.items[i]).uid
        != (#[trigger] after.items[j]).uid by {
        let si = if i < p { i } else { i + 1 };
        let sj = if j < p { j } else { j + 1 };
        assert(state.items[si].uid != state.items[sj].uid);
    }
    assert forall|i: int| 0 <= i < after.items.len() implies (#[trigger] after.items[i]).uid.len()
        > 0 by {
        let si = if i < p { i } else { i + 1 };
        assert(state.items[si].uid.len() > 0);
    }
    assert forall|i: int| 0 <= i < after.items.len() implies (#[trigger] after.items[i]).uid
        != uid by {
        let si = if i < p { i } else { i + 1 };
        if si < p {
            assert(state.items[si].uid != state.items[p].uid);
        } else {
            assert(state.items[p].uid != state.items[si].uid);
        }
    }
    match after.current {
        Some(now) => {
            if state.current == Some(uid) {
                let rest = ProfilesModel { current: state.current, items: after.items };
                let q = choose|i: int| is_first_proxy(rest.items, i);
                let any = choose|i: int|
                    0 <= i < rest.items.len() && (#[trigger] rest.items[i]).kind.is_proxy_model();
                lemma_proxy_has_first(rest.items, any);
                assert(is_first_proxy(rest.items, q));
                assert(after.items[q].uid == now);
            } else {
                let c = choose|i: int| 0 <= i < state.items.len() && (#[trigger] state.items[i]).uid == now;
                assert(c != p);
                let ai = if c < p { c } else { c - 1 };
                assert(after.items[ai] == state.items[c]);
            }
        },
        None => {},
    }
}

/// Where some item can be made active, there is a first such item.
pub proof fn lemma_proxy_has_first(items: Seq<ProfileItemModel>, bound: int)
    requires
        0 <= bound < items.len(),
        items[bound].kind.is_proxy_model(),
    ensures
        exists|i: int| is_first_proxy(items, i),
    decreases bound,
{
    if exists|j: int| 0 <= j < bound && (#[trigger] items[j]).kind.is_proxy_model() {
        let j = choose|j: int| 0 <= j < bound && (#[trigger] items[j]).kind.is_proxy_model();
        lemma_proxy_has_first(items, j);
    } else {
        assert(is_first_proxy(items, bound));
    }
}

impl ProfilesModel {
    /// The first item called `uid` gives way to `item`.
    pub open spec fn replace(self, uid: Seq<char>, item: ProfileItemModel) -> Self {
        ProfilesModel { current: self.current, items: self.items.update(self.position(uid), item) }
    }

    /// What `patch` says is laid over the first item called `uid`.
    pub open spec fn patch_item(self, uid: Seq<char>, patch: ProfileItemModel) -> Self {
        self.replace(uid, self.items[self.position(uid)].patched(patch))
    }

    /// The first item called `uid` is brought up to date with what was
    /// fetched.
    pub open spec fn update_item(self, uid: Seq<char>, fetched: ProfileItemModel) -> Self {
        self.replace(uid, self.items[self.position(uid)].refreshed(fetched))
    }
}

/// Replacing an item by one of the same name keeps the state well formed,
/// the names in place and the choice of the active item.
pub proof fn lemma_replace_keeps_wf(state: ProfilesModel, uid: Seq<char>, item: ProfileItemModel)
    requires
        state.wf(),
        state.contains(uid),
        item.uid == uid,
    ensures
        state.replace(uid, item).wf(),
        state.replace(uid, item).current == state.current,
        state.replace(uid, item).items.len() == state.items.len(),
        state.replace(uid, item).lookup(uid) == Some(item),
        forall|other: Seq<char>| state.replace(uid, item).contains(other) == state.contains(other),
{
    let witness = choose|i: int| 0 <= i < state.items.len() && (#[trigger] state.items[i]).uid == uid;
    lemma_contains_has_first(state.items, uid, witness);
    let p = state.position(uid);
    assert(is_first(state.items, uid, p));
    let after = state.replace(uid, item);
    assert forall|i: int| 0 <= i < after.items.len() implies (#[trigger] after.items[i]).uid
        == state.items[i].uid by {}
    assert forall|i: int, j: int| 0 <= i < j < after.items.len() implies (#[trigger] after.items[i]).uid
        != (#[trigger] after.items[j]).uid by {
        assert(state.items[i].uid != state.items[j].uid);
    }
    assert forall|i: int| 0 <= i < after.items.len() implies (#[trigger] after.items[i]).uid.len()
        > 0 by {
        assert(state.items[i].uid.len() > 0);
    }
    assert forall|other: Seq<char>| after.contains(other) == state.contains(other) by {
        if state.contains(other) {
            let i = choose|i: int| 0 <= i < state.items.len() && (#[trigger] state.items[i]).uid == other;
            assert(after.items[i].uid == other);
        }
        if after.contains(other) {
            let i = choose|i: int| 0 <= i < after.items.len() && (#[trigger] after.items[i]).uid == other;
            assert(state.items[i].uid == other);
        }
    }
    assert(is_first(after.items, uid, p)) by {
        assert forall|j: int| 0 <= j < p implies (#[trigger] after.items[j]).uid != uid by {
            assert(state.items[j].uid != uid);
        }
    }
    lemma_position(after, uid, p);
}

impl ProfilesModel {
    /// The item called `moved` is taken out and put in at the place where
    /// the item called `over` stood. Where either is missing nothing changes.
    pub open spec fn reorder(self, moved: Seq<char>, over: Seq<char>) -> Self {
        if self.contains(moved) && self.contains(over) {
            ProfilesModel {
                current: self.current,
                items: self.items.remove(self.position(moved)).insert(
                    self.position(over),
                    self.items[self.position(moved)],
                ),
            }
        } else {
            self
        }
    }
}

/// The place in the old list of what stands at `index` after the item at
/// `from` was moved to `to`.
pub open spec fn moved_from(from: int, to: int, index: int) -> int {
    if index == to {
        from
    } else {
        let rest = if index < to {
            index
        } else {
            index - 1
        };
        if rest < from {
            rest
        } else {
            rest + 1
        }
    }
}

/// Moving an item keeps the state well formed, the items the same and the
/// moved item at the place asked for.
pub proof fn lemma_reorder_keeps_wf(state: ProfilesModel, moved: Seq<char>, over: Seq<char>)
    requires
        state.wf(),
    ensures
        state.reorder(moved, over).wf(),
        state.reorder(moved, over).current == state.current,
        state.reorder(moved, over).items.len() == state.items.len(),
        forall|uid: Seq<char>| state.reorder(moved, over).contains(uid) == state.contains(uid),
        state.contains(moved) && state.contains(over) ==> state.reorder(
            moved,
            over,
        ).items[state.position(over)].uid == moved,
{
    if state.contains(moved) && state.contains(over) {
        let wm = choose|i: int| 0 <= i < state.items.len() && (#[trigger] state.items[i]).uid == moved;
        lemma_contains_has_first(state.items, moved, wm);
        let wo = choose|i: int| 0 <= i < state.items.len() && (#[trigger] state.items[i]).uid == over;
        lemma_contains_has_first(state.items, over, wo);
        let from = state.position(moved);
        let to = state.position(over);
        assert(is_first(state.items, moved, from));
        assert(is_first(state.items, over, to));
        let after = state.reorder(moved, over);
        let n = state.items.len() as int;
        assert(after.items.len() == n);
        assert forall|k: int| 0 <= k < n implies #[trigger] after.items[k] == state.items[moved_from(
            from,
            to,
            k,
        )] && 0 <= moved_from(from, to, k) < n by {}
        assert forall|i: int, j: int| 0 <= i < j < n implies (#[trigger] after.items[i]).uid != (
        #[trigger] after.items[j]).uid by {
            let a = moved_from(from, to, i);
            let b = moved_from(from, to, j);
            assert(a != b);
            if a < b {
                assert(state.items[a].uid != state.items[b].uid);
            } else {
                assert(state.items[b].uid != state.items[a].uid);
            }
        }
        assert forall|k: int| 0 <= k < n implies (#[trigger] after.items[k]).uid.len() > 0 by {
            assert(state.items[moved_from(from, to, k)].uid.len() > 0);
        }
        assert forall|uid: Seq<char>| after.contains(uid) == state.contains(uid) by {
            if after.contains(uid) {
                let k = choose|k: int| 0 <= k < after.items.len() && (#[trigger] after.items[k]).uid == uid;
                assert(state.items[moved_from(from, to, k)].uid == uid);
            }
            if state.contains(uid) {
                let s = choose|s: int| 0 <= s < state.items.len() && (#[trigger] state.items[s]).uid == uid;
                let k = if s == from {
                    to
                } else {
                    let rest = if s < from {
                        s
                    } else {
                        s - 1
                    };
                    if rest < to {
                        rest
                    } else {
                        rest + 1
                    }
                };
                assert(moved_from(from, to, k) == s);
                assert(after.items[k].uid == uid);
            }
        }
    }
}

/// Why an operation on the profiles was refused.
#[derive(Clone, Copy, PartialEq, Eq, Structural, Debug)]
pub enum ProfileError {
    /// The item has no identifier.
    MissingUid,
    /// Another item already has the identifier.
    DuplicateUid,
    /// No item has the identifier.
    NotFound,
}

impl ProfileError {
    pub fn message(&self) -> (text: String)
        ensures
            text@ == (match self {
                ProfileError::MissingUid => "the uid should not be null"@,
                ProfileError::DuplicateUid => "the uid is already in use"@,
                ProfileError::NotFound => "failed to get the profile item"@,
            }),
    {
        match self {
            ProfileError::MissingUid => "the uid should not be null".to_owned(),
            ProfileError::DuplicateUid => "the uid is already in use".to_owned(),
            ProfileError::NotFound => "failed to get the profile item".to_owned(),
        }
    }
}

/// The list of profiles and the choice of the active one.
#[derive(Debug, PartialEq, Eq)]
pub struct ProfilesState {
    current: Option<String>,
    items: Vec<ProfileItem>,
}

impl View for ProfilesState {
    type V = ProfilesModel;

    closed spec fn view(&self) -> ProfilesModel {
        ProfilesModel { current: self.current.deep_view(), items: item_models(self.items@) }
    }
}

impl Clone for ProfilesState {
    fn clone(&self) -> (copy: Self)
        ensures
            copy@ == self@,
    {
        let mut items: Vec<ProfileItem> = Vec::new();
        let mut i: usize = 0;
        while i < self.items.len()
            invariant
                i <= self.items.len(),
                items.len() == i,
                forall|j: int| 0 <= j < i ==> (#[trigger] items@[j])@ == self.items@[j]@,
            decreases self.items.len() - i,
        {
            items.push(self.items[i].clone());
            i += 1;
        }
        assert(item_models(items@) =~= item_models(self.items@));
        ProfilesState { current: clone_text(&self.current), items }
    }
}

impl ProfilesState {
    /// No items, nothing active.
    pub fn new() -> (state: Self)
        ensures
            state@ == (ProfilesModel { current: None, items: Seq::empty() }),
            state@.wf(),
    {
        let state = ProfilesState { current: None, items: Vec::new() };
        assert(state@.items =~= Seq::empty());
        state
    }

    /// The identifier of the active item.
    pub fn get_current(&self) -> (current: Option<String>)
        ensures
            current.deep_view() == self@.current,
    {
        clone_text(&self.current)
    }

    /// How many items there are.
    pub fn len(&self) -> (count: usize)
        ensures
            count == self@.items.len(),
    {
        self.items.len()
    }

    /// The item at a place in the list.
    pub fn item_at(&self, index: usize) -> (item: &ProfileItem)
        requires
            index < self@.items.len(),
        ensures
            item@ == self@.items[index as int],
    {
        &self.items[index]
    }

    /// The place of the first item called `uid`.
    pub fn position(&self, uid: &String) -> (place: Option<usize>)
        ensures
            match place {
                Some(index) => is_first(self@.items, uid@, index as int),
                None => !self@.contains(uid@),
            },
    {
        let mut i: usize = 0;
        while i < self.items.len()
            invariant
                i <= self.items.len(),
                forall|j: int| 0 <= j < i ==> (#[trigger] self@.items[j]).uid != uid@,
            decreases self.items.len() - i,
        {
            if self.items[i].uid == *uid {
                return Some(i);
            }
            i += 1;
        }
        None
    }

    pub fn contains(&self, uid: &String) -> (present: bool)
        ensures
            present == self@.contains(uid@),
    {
        match self.position(uid) {
            Some(index) => true,
            None => false,
        }
    }

    /// The first item called `uid`.
    pub fn get_item(&self, uid: &String) -> (found: Result<&ProfileItem, ProfileError>)
        ensures
            match found {
                Ok(item) => self@.lookup(uid@) == Some(item@),
                Err(error) => error == ProfileError::NotFound && self@.lookup(uid@).is_none(),
            },
    {
        match self.position(uid) {
            Some(index) => {
                proof {
                    lemma_position(self@, uid@, index as int);
                }
                Ok(&self.items[index])
            },
            None => Err(ProfileError::NotFound),
        }
    }

    /// Whether any item can be made active.
    pub fn has_proxy_profile(&self) -> (present: bool)
        ensures
            present == self@.has_proxy(),
    {
        match self.first_proxy_position() {
            Some(index) => true,
            None => false,
        }
    }

    fn first_proxy_position(&self) -> (place: Option<usize>)
        ensures
            match place {
                Some(index) => is_first_proxy(self@.items, index as int),
                None => !self@.has_proxy(),
            },
    {
        let mut i: usize = 0;
        while i < self.items.len()
            invariant
                i <= self.items.len(),
                forall|j: int| 0 <= j < i ==> !(#[trigger] self@.items[j]).kind.is_proxy_model(),
            decreases self.items.len() - i,
        {
            if self.items[i].kind.is_proxy() {
                return Some(i);
            }
            i += 1;
        }
        None
    }

    /// Makes `target` the active item where it names one.
    pub fn patch_config(&mut self, target: &Option<String>)
        ensures
            final(self)@ == old(self)@.patch(target.deep_view()),
    {
        match target {
            Some(uid) => {
                if self.contains(uid) {
                    self.current = Some(uid.clone());
                }
            },
            None => {},
        }
    }

    /// Adds an item at the end, unless it has no identifier or one that is
    /// taken.
    pub fn append_item(&mut self, item: ProfileItem) -> (outcome: Result<(), ProfileError>)
        ensures
            match outcome {
                Ok(_) => old(self)@.accepts(item@) && final(self)@ == old(self)@.append(item@),
                Err(error) => {
                    &&& final(self)@ == old(self)@
                    &&& !old(self)@.accepts(item@)
                    &&& error == (if item@.uid.len() == 0 {
                        ProfileError::MissingUid
                    } else {
                        ProfileError::DuplicateUid
                    })
                },
            },
            old(self)@.wf() ==> final(self)@.wf(),
    {
        if item.uid.as_str().is_empty() {
            return Err(ProfileError::MissingUid);
        }
        if self.contains(&item.uid) {
            return Err(ProfileError::DuplicateUid);
        }
        proof {
            if self@.wf() {
                lemma_append_keeps_wf(self@, item@);
            }
        }
        if self.current.is_none() && item.kind.is_proxy() {
            self.current = Some(item.uid.clone());
        }
        let ghost before = self.items@;
        self.items.push(item);
        assert(item_models(self.items@) =~= item_models(before).push(item@));
        Ok(())
    }

    /// Removes the item called `uid` and says whether it was the active one.
    pub fn delete_item(&mut self, uid: &String) -> (outcome: Result<bool, ProfileError>)
        ensures
            match outcome {
                Ok(was_current) => {
                    &&& old(self)@.contains(uid@)
                    &&& final(self)@ == old(self)@.remove(uid@)
                    &&& was_current == (old(self)@.current == Some(uid@))
                },
                Err(error) => {
                    &&& error == ProfileError::NotFound
                    &&& !old(self)@.contains(uid@)
                    &&& final(self)@ == old(self)@
                },
            },
            old(self)@.wf() ==> final(self)@.wf(),
    {
        let index = match self.position(uid) {
            Some(index) => index,
            None => {
                return Err(ProfileError::NotFound);
            },
        };
        proof {
            lemma_position(self@, uid@, index as int);
            if self@.wf() {
                lemma_remove_keeps_wf(self@, uid@);
            }
        }
        let was_current = match &self.current {
            Some(current) => *current == *uid,
            None => false,
        };
        let ghost before = self.items@;
        let removed = self.items.remove(index);
        assert(item_models(self.items@) =~= item_models(before).remove(index as int));
        if was_current {
            match self.first_proxy_position() {
                Some(first) => {
                    proof {
                        lemma_first_proxy(self@, first as int);
                    }
                    self.current = Some(self.items[first].uid.clone());
                },
                None => {
                    self.current = None;
                },
            }
        }
        Ok(was_current)
    }

    /// Lays what `patch` says over the first item called `uid`: every field
    /// of `patch` that is set replaces the item's, but for the identifier
    /// and the kind, which stay.
    pub fn patch_item(&mut self, uid: &String, patch: &ProfileItem) -> (outcome: Result<
        (),
        ProfileError,
    >)
        ensures
            match outcome {
                Ok(_) => old(self)@.contains(uid@) && final(self)@ == old(self)@.patch_item(
                    uid@,
                    patch@,
                ),
                Err(error) => {
                    &&& error == ProfileError::NotFound
                    &&& !old(self)@.contains(uid@)
                    &&& final(self)@ == old(self)@
                },
            },
            old(self)@.wf() ==> final(self)@.wf(),
    {
        let index = match self.position(uid) {
            Some(index) => index,
            None => {
                return Err(ProfileError::NotFound);
            },
        };
        proof {
            lemma_position(self@, uid@, index as int);
            if self@.wf() {
                lemma_replace_keeps_wf(self@, uid@, self@.items[index as int].patched(patch@));
            }
        }
        let item = self.items[index].patched(patch);
        let ghost before = self.items@;
        self.items.set(index, item);
        assert(item_models(self.items@) =~= item_models(before).update(index as int, item@));
        Ok(())
    }

    /// Brings the first item called `uid` up to date with what was fetched
    /// from its source.
    pub fn update_item(&mut self, uid: &String, fetched: &ProfileItem) -> (outcome: Result<
        (),
        ProfileError,
    >)
        ensures
            match outcome {
                Ok(_) => old(self)@.contains(uid@) && final(self)@ == old(self)@.update_item(
                    uid@,
                    fetched@,
                ),
                Err(error) => {
                    &&& error == ProfileError::NotFound
                    &&& !old(self)@.contains(uid@)
                    &&& final(self)@ == old(self)@
                },
            },
            old(self)@.wf() ==> final(self)@.wf(),
    {
        let index = match self.position(uid) {
            Some(index) => index,
            None => {
                return Err(ProfileError::NotFound);
            },
        };
        proof {
            lemma_position(self@, uid@, index as int);
            if self@.wf() {
                lemma_replace_keeps_wf(self@, uid@, self@.items[index as int].refreshed(fetched@));
            }
        }
        let item = self.items[index].refreshed(fetched);
        let ghost before = self.items@;
        self.items.set(index, item);
        assert(item_models(self.items@) =~= item_models(before).update(index as int, item@));
        Ok(())
    }

    /// Moves the item called `moved` to the place of the item called
    /// `over`. Where either is missing nothing changes.
    pub fn reorder(&mut self, moved: &String, over: &String)
        ensures
            final(self)@ == old(self)@.reorder(moved@, over@),
            old(self)@.wf() ==> final(self)@.wf(),
    {
        proof {
            if self@.wf() {
                lemma_reorder_keeps_wf(self@, moved@, over@);
            }
        }
        let from = match self.position(moved) {
            Some(index) => index,
            None => {
                return ;
            },
        };
        let to = match self.position(over) {
            Some(index) => index,
            None => {
                return ;
            },
        };
        proof {
            lemma_position(self@, moved@, from as int);
            lemma_position(self@, over@, to as int);
        }
        let ghost before = self.items@;
        let item = self.items.remove(from);
        self.items.insert(to, item);
        assert(item_models(self.items@) =~= item_models(before).remove(from as int).insert(
            to as int,
            item_models(before)[from as int],
        ));
    }

    /// The identifier of the first item fetched from `url`.
    pub fn find_uid_by_url(&self, url: &String) -> (found: Option<String>)
        ensures
            found.deep_view() == self@.uid_by_url(url@),
    {
        let mut i: usize = 0;
        while i < self.items.len()
            invariant
                i <= self.items.len(),
                forall|j: int| 0 <= j < i ==> (#[trigger] self@.items[j]).url != Some(url@),
            decreases self.items.len() - i,
        {
            let matches = match &self.items[i].url {
                Some(source) => *source == *url,
                None => false,
            };
            if matches {
                proof {
                    lemma_uid_by_url(self@, url@, i as int);
                }
                return Some(self.items[i].uid.clone());
            }
            i += 1;
        }
        None
    }

    /// The identifiers of the items that ask to be updated at every start.
    pub fn update_always_uids(&self) -> (uids: Vec<String>)
        ensures
            uids.deep_view() == self@.always_updated(),
    {
        let mut uids: Vec<String> = Vec::new();
        let mut i: usize = 0;
        let ghost wanted = |item: ProfileItemModel| asks_update_always(item);
        let ghost name = |item: ProfileItemModel| item.uid;
        proof {
            assert(self@.items.subrange(0, 0) =~= Seq::<ProfileItemModel>::empty());
            assert(uids.deep_view() =~= Seq::<ProfileItemModel>::empty().filter(wanted).map_values(
                name,
            )) by {
                reveal(Seq::filter);
            }
        }
        while i < self.items.len()
            invariant
                i <= self.items.len(),
                wanted == (|item: ProfileItemModel| asks_update_always(item)),
                name == (|item: ProfileItemModel| item.uid),
                uids.deep_view() == self@.items.subrange(0, i as int).filter(wanted).map_values(
                    name,
                ),
            decreases self.items.len() - i,
        {
            let asks = match &self.items[i].option {
                Some(option) => match option.update_always {
                    Some(always) => always,
                    None => false,
                },
                None => false,
            };
            proof {
                let before = self@.items.subrange(0, i as int);
                let item = self@.items[i as int];
                assert(self@.items.subrange(0, i as int + 1) =~= before.push(item));
                assert(before.push(item).drop_last() =~= before);
                reveal(Seq::filter);
                assert(before.push(item).filter(wanted) == if wanted(item) {
                    before.filter(wanted).push(item)
                } else {
                    before.filter(wanted)
                });
            }
            if asks {
                let ghost previous = uids.deep_view();
                uids.push(self.items[i].uid.clone());
                assert(uids.deep_view() =~= previous.push(self@.items[i as int].uid));
                assert(self@.items.subrange(0, i as int).filter(wanted).push(
                    self@.items[i as int],
                ).map_values(name) =~= previous.push(self@.items[i as int].uid));
            }
            i += 1;
        }
        assert(self@.items.subrange(0, i as int) =~= self@.items);
        uids
    }
}

} // verus!
