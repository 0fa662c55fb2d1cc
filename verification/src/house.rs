//! Household chores: plain persistence with a done flag and sparse
//! updates that always stamp the update timestamp.

use vstd::prelude::*;

use crate::airdrops::blank_field;
use crate::models::{copy_opt_string, HouseItem};
use crate::store::{find_by_id, HasId, Store};
use crate::StoreError;

verus! {

#[derive(Debug)]
pub struct CreateHouseItemRequest {
    pub title: String,
    pub notes: Option<String>,
}

#[derive(Debug)]
pub struct UpdateHouseItemRequest {
    pub id: i64,
    pub title: Option<String>,
    pub notes: Option<String>,
    pub done: Option<bool>,
}

/// How one chore looks after a sparse update: present fields replace the
/// stored ones and the update timestamp is stamped.
pub open spec fn patched_house_item(
    pre: HouseItem,
    post: HouseItem,
    req: UpdateHouseItemRequest,
    now: Seq<char>,
) -> bool {
    &&& post.id == pre.id
    &&& post.created_at == pre.created_at
    &&& post.updated_at@ == now
    &&& post.title == (match req.title {
        Some(t) => t,
        None => pre.title,
    })
    &&& post.notes == (if req.notes is Some {
        req.notes
    } else {
        pre.notes
    })
    &&& post.done == (match req.done {
        Some(d) => d,
        None => pre.done,
    })
}

impl Store {
    /// Creates a chore, not yet done. An empty title is a validation error
    /// and leaves the store untouched.
    pub fn create_house_item(&mut self, req: CreateHouseItemRequest, now: &str) -> (r: Result<
        i64,
        StoreError,
    >)
        requires
            old(self).wf(),
            old(self).next_id < i64::MAX,
        ensures
            final(self).wf(),
            (r is Err) <==> req.title@.len() == 0,
            r is Err ==> r == Result::<i64, StoreError>::Err(StoreError::Validation) && *final(self)
                == *old(self),
            r matches Ok(id) ==> {
                &&& id == old(self).next_id
                &&& final(self).next_id == old(self).next_id + 1
                &&& final(self).house_items@.len() == old(self).house_items@.len() + 1
                &&& final(self).house_items@.drop_last() == old(self).house_items@
                &&& final(self).house_items@.last().id == id
                &&& final(self).house_items@.last().title == req.title
                &&& final(self).house_items@.last().notes == req.notes
                &&& final(self).house_items@.last().done == false
                &&& final(self).house_items@.last().created_at@ == now@
                &&& final(self).house_items@.last().updated_at@ == now@
                &&& final(self).airdrops@ == old(self).airdrops@
                &&& final(self).airdrop_types@ == old(self).airdrop_types@
                &&& final(self).airdrop_daily_tasks@ == old(self).airdrop_daily_tasks@
                &&& final(self).projects@ == old(self).projects@
                &&& final(self).project_tasks@ == old(self).project_tasks@
                &&& final(self).ideas@ == old(self).ideas@
            },
    {
        if req.title.as_str().unicode_len() == 0 {
            return Err(StoreError::Validation);
        }
        let id = self.next_id;
        let record = HouseItem {
            id,
            title: req.title,
            notes: req.notes,
            done: false,
            created_at: String::from_str(now),
            updated_at: String::from_str(now),
        };
        self.house_items.push(record);
        self.next_id = id + 1;
        proof {
            assert(self.house_items@.drop_last() =~= old(self).house_items@);
        }
        Ok(id)
    }

    /// Applies a sparse update to one chore. A present-but-empty title is
    /// a validation error; an unknown id is a not-found error; either
    /// error leaves the store untouched.
    pub fn update_house_item(&mut self, req: UpdateHouseItemRequest, now: &str) -> (r: Result<
        (),
        StoreError,
    >)
        requires
            old(self).wf(),
        ensures
            final(self).wf(),
            final(self).next_id == old(self).next_id,
            final(self).airdrops@ == old(self).airdrops@,
            final(self).airdrop_types@ == old(self).airdrop_types@,
            final(self).airdrop_daily_tasks@ == old(self).airdrop_daily_tasks@,
            final(self).projects@ == old(self).projects@,
            final(self).project_tasks@ == old(self).project_tasks@,
            final(self).ideas@ == old(self).ideas@,
            (r == Result::<(), StoreError>::Err(StoreError::Validation)) <==> blank_field(
                req.title,
            ),
            !blank_field(req.title) ==> ((r == Result::<(), StoreError>::Err(StoreError::NotFound))
                <==> (forall|j: int|
                0 <= j < old(self).house_items@.len() ==> old(self).house_items@[j].id != req.id)),
            r is Err ==> *final(self) == *old(self),
            r is Ok ==> exists|i: int|
                #![auto]
                {
                    &&& 0 <= i < old(self).house_items@.len()
                    &&& old(self).house_items@[i].id == req.id
                    &&& final(self).house_items@.len() == old(self).house_items@.len()
                    &&& patched_house_item(
                        old(self).house_items@[i],
                        final(self).house_items@[i],
                        req,
                        now@,
                    )
                    &&& forall|j: int|
                        0 <= j < old(self).house_items@.len() && j != i ==> final(self).house_items@[j] == old(self).house_items@[j]
                },
    {
        if let Some(t) = &req.title {
            if t.as_str().unicode_len() == 0 {
                return Err(StoreError::Validation);
            }
        }
        match find_by_id(&self.house_items, req.id) {
            None => Err(StoreError::NotFound),
            Some(i) => {
                let pre = &self.house_items[i];
                let record = HouseItem {
                    id: pre.id,
                    title: match req.title {
                        Some(t) => t,
                        None => pre.title.clone(),
                    },
                    notes: match req.notes {
                        Some(t) => Some(t),
                        None => copy_opt_string(&pre.notes),
                    },
                    done: match req.done {
                        Some(d) => d,
                        None => pre.done,
                    },
                    created_at: pre.created_at.clone(),
                    updated_at: String::from_str(now),
                };
                self.house_items.set(i, record);
                proof {
                    assert(forall|j: int|
                        0 <= j < self.house_items@.len() ==> self.house_items@[j].key() == old(self).house_items@[j].key());
                }
                Ok(())
            },
        }
    }

    /// Deletes one chore. An unknown id is a not-found error and leaves
    /// the store untouched.
    pub fn delete_house_item(&mut self, id: i64) -> (r: Result<(), StoreError>)
        requires
            old(self).wf(),
        ensures
            final(self).wf(),
            final(self).next_id == old(self).next_id,
            final(self).airdrops@ == old(self).airdrops@,
            final(self).airdrop_types@ == old(self).airdrop_types@,
            final(self).airdrop_daily_tasks@ == old(self).airdrop_daily_tasks@,
            final(self).projects@ == old(self).projects@,
            final(self).project_tasks@ == old(self).project_tasks@,
            final(self).ideas@ == old(self).ideas@,
            (r is Err) <==> (forall|j: int|
                0 <= j < old(self).house_items@.len() ==> old(self).house_items@[j].id != id),
            r is Err ==> r == Result::<(), StoreError>::Err(StoreError::NotFound) && *final(self)
                == *old(self),
            r is Ok ==> exists|i: int|
                #![auto]
                {
                    &&& 0 <= i < old(self).house_items@.len()
                    &&& old(self).house_items@[i].id == id
                    &&& final(self).house_items@ == old(self).house_items@.remove(i)
                },
    {
        match find_by_id(&self.house_items, id) {
            None => Err(StoreError::NotFound),
            Some(i) => {
                self.house_items.remove(i);
                proof {
                    old(self).house_items@.remove_ensures(i as int);
                    assert(crate::store::table_ok(self.house_items@, self.next_id)) by {
                        assert(forall|j: int|
                            0 <= j < self.house_items@.len() ==> self.house_items@[j] == (if j < i {
                                old(self).house_items@[j]
                            } else {
                                old(self).house_items@[j + 1]
                            }));
                    }
                }
                Ok(())
            },
        }
    }
}

} // verus!
