//! Free-form ideas: plain persistence with no ordering and no update
//! timestamp. An update request that carries no field at all is a no-op
//! that succeeds without touching the store.

use vstd::prelude::*;

use crate::airdrops::blank_field;
use crate::models::{copy_opt_string, Idea};
use crate::store::{find_by_id, HasId, Store};
use crate::StoreError;

verus! {

#[derive(Debug)]
pub struct CreateIdeaRequest {
    pub title: String,
    pub notes: Option<String>,
}

#[derive(Debug)]
pub struct UpdateIdeaRequest {
    pub id: i64,
    pub title: Option<String>,
    pub notes: Option<String>,
}

/// How one idea looks after a sparse update; ideas carry no update
/// timestamp to stamp.
pub open spec fn patched_idea(pre: Idea, post: Idea, req: UpdateIdeaRequest) -> bool {
    &&& post.id == pre.id
    &&& post.created_at == pre.created_at
    &&& post.title == (match req.title {
        Some(t) => t,
        None => pre.title,
    })
    &&& post.notes == (if req.notes is Some {
        req.notes
    } else {
        pre.notes
    })
}

impl Store {
    /// Creates an idea. An empty title is a validation error and leaves
    /// the store untouched.
    pub fn create_idea(&mut self, req: CreateIdeaRequest, now: &str) -> (r: Result<i64, StoreError>)
        requires
            old(self).wf(),
            old(self).next_id < i64::MAX,
        ensures
            final(self).wf(),
            (r is Err) <==> req.title@.len() == 0,
            r is Err ==> r == Result::<i64, StoreError>::Err(StoreError::Validation) && *final(self)
                == *old(self),
            r matches Ok(id) ==> {
                &&& id == old(self).next_id
                &&& final(self).next_id == old(self).next_id + 1
                &&& final(self).ideas@.len() == old(self).ideas@.len() + 1
                &&& final(self).ideas@.drop_last() == old(self).ideas@
                &&& final(self).ideas@.last().id == id
                &&& final(self).ideas@.last().title == req.title
                &&& final(self).ideas@.last().notes == req.notes
                &&& final(self).ideas@.last().created_at@ == now@
                &&& final(self).airdrops@ == old(self).airdrops@
                &&& final(self).airdrop_types@ == old(self).airdrop_types@
                &&& final(self).airdrop_daily_tasks@ == old(self).airdrop_daily_tasks@
                &&& final(self).projects@ == old(self).projects@
                &&& final(self).project_tasks@ == old(self).project_tasks@
                &&& final(self).house_items@ == old(self).house_items@
            },
    {
        if req.title.as_str().unicode_len() == 0 {
            return Err(StoreError::Validation);
        }
        let id = self.next_id;
        let record = Idea {
            id,
            title: req.title,
            notes: req.notes,
            created_at: String::from_str(now),
        };
        self.ideas.push(record);
        self.next_id = id + 1;
        proof {
            assert(self.ideas@.drop_last() =~= old(self).ideas@);
        }
        Ok(id)
    }

    /// Applies a sparse update to one idea. A request with no field at all
    /// succeeds without touching the store — not even the id is looked up.
    /// Otherwise a present-but-empty title is a validation error and an
    /// unknown id a not-found error, each leaving the store untouched.
    pub fn update_idea(&mut self, req: UpdateIdeaRequest) -> (r: Result<(), StoreError>)
        requires
            old(self).wf(),
        ensures
            final(self).wf(),
            final(self).next_id == old(self).next_id,
            final(self).airdrops@ == old(self).airdrops@,
            final(self).airdrop_types@ == old(self).airdrop_types@,
            final(self).airdrop_daily_tasks@ == old(self).airdrop_daily_tasks@,
            final(self).projects@ == old(self).projects@,
            final(self).project_tasks@ == old(self).project_tasks@,
            final(self).house_items@ == old(self).house_items@,
            req.title is None && req.notes is None ==> r is Ok && *final(self) == *old(self),
            (r == Result::<(), StoreError>::Err(StoreError::Validation)) <==> blank_field(
                req.title,
            ),
            (!blank_field(req.title) && (req.title is Some || req.notes is Some)) ==> ((r
                == Result::<(), StoreError>::Err(StoreError::NotFound)) <==> (forall|j: int|
                0 <= j < old(self).ideas@.len() ==> old(self).ideas@[j].id != req.id)),
            r is Err ==> *final(self) == *old(self),
            (r is Ok && (req.title is Some || req.notes is Some)) ==> exists|i: int|
                #![auto]
                {
                    &&& 0 <= i < old(self).ideas@.len()
                    &&& old(self).ideas@[i].id == req.id
                    &&& final(self).ideas@.len() == old(self).ideas@.len()
                    &&& patched_idea(old(self).ideas@[i], final(self).ideas@[i], req)
                    &&& forall|j: int|
                        0 <= j < old(self).ideas@.len() && j != i ==> final(self).ideas@[j] == old(self).ideas@[j]
                },
    {
        if req.title.is_none() && req.notes.is_none() {
            return Ok(());
        }
        if let Some(t) = &req.title {
            if t.as_str().unicode_len() == 0 {
                return Err(StoreError::Validation);
            }
        }
        match find_by_id(&self.ideas, req.id) {
            None => Err(StoreError::NotFound),
            Some(i) => {
                let pre = &self.ideas[i];
                let record = Idea {
                    id: pre.id,
                    title: match req.title {
                        Some(t) => t,
                        None => pre.title.clone(),
                    },
                    notes: match req.notes {
                        Some(t) => Some(t),
                        None => copy_opt_string(&pre.notes),
                    },
                    created_at: pre.created_at.clone(),
                };
                self.ideas.set(i, record);
                proof {
                    assert(forall|j: int|
                        0 <= j < self.ideas@.len() ==> self.ideas@[j].key() == old(self).ideas@[j].key());
                }
                Ok(())
            },
        }
    }

    /// Deletes one idea. An unknown id is a not-found error and leaves the
    /// store untouched.
    pub fn delete_idea(&mut self, id: i64) -> (r: Result<(), StoreError>)
        requires
            old(self).wf(),
        ensures
            final(self).wf(),
            final(self).next_id == old(self).next_id,
            final(self).airdrops@ == old(self).airdrops@,
            final(self).airdrop_types@ == old(self).airdrop_types@,
            final(self).airdrop_daily_tasks@ == old(self).airdrop_daily_tasks@,
            final(self).projects@ == old(self).projects@,
            final(self).project_tasks@ == old(self).project_tasks@,
            final(self).house_items@ == old(self).house_items@,
            (r is Err) <==> (forall|j: int|
                0 <= j < old(self).ideas@.len() ==> old(self).ideas@[j].id != id),
            r is Err ==> r == Result::<(), StoreError>::Err(StoreError::NotFound) && *final(self)
                == *old(self),
            r is Ok ==> exists|i: int|
                #![auto]
                {
                    &&& 0 <= i < old(self).ideas@.len()
                    &&& old(self).ideas@[i].id == id
                    &&& final(self).ideas@ == old(self).ideas@.remove(i)
                },
    {
        match find_by_id(&self.ideas, id) {
            None => Err(StoreError::NotFound),
            Some(i) => {
                self.ideas.remove(i);
                proof {
                    old(self).ideas@.remove_ensures(i as int);
                    assert(crate::store::table_ok(self.ideas@, self.next_id)) by {
                        assert(forall|j: int|
                            0 <= j < self.ideas@.len() ==> self.ideas@[j] == (if j < i {
                                old(self).ideas@[j]
                            } else {
                                old(self).ideas@[j + 1]
                            }));
                    }
                }
                Ok(())
            },
        }
    }
}

} // verus!
