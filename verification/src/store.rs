//! A store with one committed value and at most one draft.
//!
//! A writer places a draft beside the committed value and then either applies
//! it, which makes it the committed value, or discards it, which leaves the
//! committed value as it was. Readers of the committed value never see a
//! draft. The store does not arbitrate between writers.

use vstd::prelude::*;

verus! {

/// The mathematical content of a [`DraftStore`].
pub struct StoreModel<T> {
    pub committed: T,
    pub pending: Option<T>,
}

impl<T> StoreModel<T> {
    /// The committed value.
    pub open spec fn latest(self) -> T {
        self.committed
    }

    /// The draft where there is one, else the committed value.
    pub open spec fn data(self) -> T {
        match self.pending {
            Some(draft) => draft,
            None => self.committed,
        }
    }

    /// Places `value` as the draft, replacing an earlier draft.
    pub open spec fn draft(self, value: T) -> Self {
        StoreModel { committed: self.committed, pending: Some(value) }
    }

    /// Makes the draft the committed value; without a draft nothing changes.
    pub open spec fn apply(self) -> Self {
        match self.pending {
            Some(draft) => StoreModel { committed: draft, pending: None },
            None => self,
        }
    }

    /// Drops the draft.
    pub open spec fn discard(self) -> Self {
        StoreModel { committed: self.committed, pending: None }
    }
}

/// A committed value and, while a change is in the making, its draft.
#[derive(Debug)]
pub struct DraftStore<T> {
    latest: T,
    draft: Option<T>,
}

impl<T> View for DraftStore<T> {
    type V = StoreModel<T>;

    closed spec fn view(&self) -> StoreModel<T> {
        StoreModel { committed: self.latest, pending: self.draft }
    }
}

impl<T: Clone> Clone for DraftStore<T> {
    /// A copy of the store: a copy of the committed value and, where there
    /// is a draft, a copy of the draft.
    fn clone(&self) -> (copy: Self)
        ensures
            cloned::<T>(self@.committed, copy@.committed),
            match self@.pending {
                Some(draft) => copy@.pending.is_some() && cloned::<T>(
                    draft,
                    copy@.pending.unwrap(),
                ),
                None => copy@.pending.is_none(),
            },
    {
        DraftStore {
            latest: self.latest.clone(),
            draft: match &self.draft {
                Some(draft) => Some(draft.clone()),
                None => None,
            },
        }
    }
}

impl<T> DraftStore<T> {
    pub fn new(data: T) -> (store: Self)
        ensures
            store@ == (StoreModel { committed: data, pending: None }),
    {
        DraftStore { latest: data, draft: None }
    }

    /// The committed value.
    pub fn latest(&self) -> (value: &T)
        ensures
            *value == self@.latest(),
    {
        &self.latest
    }

    /// The draft where there is one, else the committed value.
    pub fn data(&self) -> (value: &T)
        ensures
            *value == self@.data(),
    {
        match &self.draft {
            Some(draft) => draft,
            None => &self.latest,
        }
    }

    pub fn has_draft(&self) -> (present: bool)
        ensures
            present == self@.pending.is_some(),
    {
        self.draft.is_some()
    }

    /// Places `value` as the draft.
    pub fn draft(&mut self, value: T)
        ensures
            final(self)@ == old(self)@.draft(value),
    {
        self.draft = Some(value);
    }

    /// Commits the draft and hands back the value it replaced; `None`, and no
    /// change, where there was no draft.
    pub fn apply(&mut self) -> (replaced: Option<T>)
        ensures
            final(self)@ == old(self)@.apply(),
            replaced == (if old(self)@.pending.is_some() {
                Some(old(self)@.committed)
            } else {
                None
            }),
    {
        match self.draft.take() {
            Some(draft) => {
                let mut value = draft;
                core::mem::swap(&mut self.latest, &mut value);
                Some(value)
            },
            None => None,
        }
    }

    /// Drops the draft and hands it back.
    pub fn discard(&mut self) -> (dropped: Option<T>)
        ensures
            final(self)@ == old(self)@.discard(),
            dropped == old(self)@.pending,
    {
        self.draft.take()
    }
}

/// A draft that is applied becomes the committed value, exactly.
pub proof fn lemma_apply_commits_draft<T>(store: StoreModel<T>, value: T)
    ensures
        store.draft(value).apply().latest() == value,
        store.draft(value).apply().pending.is_none(),
{
}

/// A draft that is discarded leaves the committed value untouched.
pub proof fn lemma_discard_keeps_committed<T>(store: StoreModel<T>, value: T)
    ensures
        store.draft(value).discard().latest() == store.latest(),
        store.draft(value).discard().pending.is_none(),
{
}

/// Until it is applied, a draft is invisible to readers of the committed
/// value and visible to readers of the working data.
pub proof fn lemma_draft_is_private<T>(store: StoreModel<T>, value: T)
    ensures
        store.draft(value).latest() == store.latest(),
        store.draft(value).data() == value,
{
}

} // verus!
