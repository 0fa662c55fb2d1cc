//! Airdrop tracking: the ordered collection of airdrops, their reusable
//! type templates, and their recurring daily tasks with idempotent
//! date-keyed completion.
//!
//! Positions form the ordered-collection protocol: creation appends after
//! the largest position in the scope, a reorder batch overwrites positions
//! atomically and trusts the caller's permutation, and deletion leaves the
//! remaining positions untouched.

use vstd::prelude::*;

use crate::completion::{
    add_done_date, dates_of_json, decode_done_dates, encode_done_dates, spec_insert_date,
};
use crate::models::{copy_opt_string, Airdrop, AirdropDailyTask, AirdropType};
use crate::store::{find_by_id, lemma_surviving_wf, owned_by, surviving, HasId, Store};
use crate::StoreError;

verus! {

#[derive(Debug)]
pub struct CreateAirdropRequest {
    pub name: String,
    pub url: String,
    pub airdrop_type_id: Option<i64>,
    pub chain: Option<String>,
    pub wallet_address: Option<String>,
    pub notes: Option<String>,
    pub active: bool,
}

#[derive(Debug)]
pub struct UpdateAirdropRequest {
    pub id: i64,
    pub name: Option<String>,
    pub url: Option<String>,
    pub airdrop_type_id: Option<i64>,
    pub chain: Option<String>,
    pub wallet_address: Option<String>,
    pub notes: Option<String>,
    pub active: Option<bool>,
}

/// The template body is carried in its serialized JSON form.
#[derive(Debug)]
pub struct CreateAirdropTypeRequest {
    pub name: String,
    pub default_tasks: String,
}

/// `order` is accepted for wire compatibility; the stored order is assigned
/// by the append rule, like every other orderable record.
#[derive(Debug)]
pub struct CreateAirdropDailyTaskRequest {
    pub airdrop_id: i64,
    pub title: String,
    pub order: i64,
}

#[derive(Debug)]
pub struct ReorderAirdropsRequest {
    pub items: Vec<AirdropOrderItem>,
}

/// One entry of a reorder batch: the record `id` is to take `position`.
#[derive(Clone, Copy, Debug, PartialEq, Eq, Structural)]
pub struct AirdropOrderItem {
    pub id: i64,
    pub position: i64,
}

/// The largest position held by any airdrop, or -1 of an empty scope, so
/// that the next assigned position is always `max + 1` and 0 on an empty
/// scope.
pub open spec fn max_airdrop_position(s: Seq<Airdrop>) -> int
    decreases s.len(),
{
    if s.len() == 0 {
        -1
    } else {
        let m = max_airdrop_position(s.drop_last());
        if s.last().position as int > m {
            s.last().position as int
        } else {
            m
        }
    }
}

/// The largest `order` among the daily tasks of one airdrop, or -1 when it
/// has none.
pub open spec fn max_task_order(s: Seq<AirdropDailyTask>, airdrop_id: i64) -> int
    decreases s.len(),
{
    if s.len() == 0 {
        -1
    } else {
        let m = max_task_order(s.drop_last(), airdrop_id);
        if s.last().airdrop_id == airdrop_id && s.last().order as int > m {
            s.last().order as int
        } else {
            m
        }
    }
}

/// The position assigned to a newly created airdrop collides with no
/// existing one: it exceeds every position already in the scope.
pub proof fn lemma_fresh_airdrop_position(s: Seq<Airdrop>, i: int)
    requires
        0 <= i < s.len(),
    ensures
        s[i].position < max_airdrop_position(s) + 1,
    decreases s.len(),
{
    if i == s.len() - 1 {
    } else {
        lemma_fresh_airdrop_position(s.drop_last(), i);
        assert(s.drop_last()[i] == s[i]);
    }
}

/// The order assigned to a newly created daily task exceeds every order
/// already held by a task of the same airdrop.
pub proof fn lemma_fresh_task_order(s: Seq<AirdropDailyTask>, airdrop_id: i64, i: int)
    requires
        0 <= i < s.len(),
        s[i].airdrop_id == airdrop_id,
    ensures
        s[i].order < max_task_order(s, airdrop_id) + 1,
    decreases s.len(),
{
    if i == s.len() - 1 {
    } else {
        lemma_fresh_task_order(s.drop_last(), airdrop_id, i);
        assert(s.drop_last()[i] == s[i]);
    }
}

/// The append position for a new airdrop: one past the largest position in
/// use, 0 for an empty scope.
pub fn next_airdrop_position(airdrops: &Vec<Airdrop>) -> (r: i64)
    requires
        max_airdrop_position(airdrops@) < i64::MAX,
    ensures
        r as int == max_airdrop_position(airdrops@) + 1,
{
    let mut m: i64 = -1;
    let mut i: usize = 0;
    while i < airdrops.len()
        invariant
            i <= airdrops@.len(),
            m as int == max_airdrop_position(airdrops@.take(i as int)),
        decreases airdrops@.len() - i,
    {
        proof {
            assert(airdrops@.take(i + 1).drop_last() =~= airdrops@.take(i as int));
            assert(airdrops@.take(i + 1).last() == airdrops@[i as int]);
        }
        if airdrops[i].position > m {
            m = airdrops[i].position;
        }
        i = i + 1;
    }
    proof {
        assert(airdrops@.take(airdrops@.len() as int) =~= airdrops@);
    }
    m + 1
}

/// The append order for a new daily task of `airdrop_id`.
pub fn next_task_order(tasks: &Vec<AirdropDailyTask>, airdrop_id: i64) -> (r: i64)
    requires
        max_task_order(tasks@, airdrop_id) < i64::MAX,
    ensures
        r as int == max_task_order(tasks@, airdrop_id) + 1,
{
    let mut m: i64 = -1;
    let mut i: usize = 0;
    while i < tasks.len()
        invariant
            i <= tasks@.len(),
            m as int == max_task_order(tasks@.take(i as int), airdrop_id),
        decreases tasks@.len() - i,
    {
        proof {
            assert(tasks@.take(i + 1).drop_last() =~= tasks@.take(i as int));
            assert(tasks@.take(i + 1).last() == tasks@[i as int]);
        }
        if tasks[i].airdrop_id == airdrop_id && tasks[i].order > m {
            m = tasks[i].order;
        }
        i = i + 1;
    }
    proof {
        assert(tasks@.take(tasks@.len() as int) =~= tasks@);
    }
    m + 1
}

/// The reorder batch that renumbers `ids`, in the order given, to the
/// dense range starting at 0: what a full reorder submits to close the
/// gaps that deletions left behind.
pub fn sequential_reorder_batch(ids: &Vec<i64>) -> (r: Vec<AirdropOrderItem>)
    requires
        ids@.len() <= i64::MAX,
    ensures
        r@.len() == ids@.len(),
        forall|k: int|
            0 <= k < r@.len() ==> (#[trigger] r@[k]).id == ids@[k] && r@[k].position as int == k,
{
    let mut r: Vec<AirdropOrderItem> = Vec::new();
    let mut k: usize = 0;
    while k < ids.len()
        invariant
            k <= ids@.len(),
            ids@.len() <= i64::MAX,
            r@.len() == k,
            forall|j: int|
                0 <= j < k ==> (#[trigger] r@[j]).id == ids@[j] && r@[j].position as int == j,
        decreases ids@.len() - k,
    {
        r.push(AirdropOrderItem { id: ids[k], position: k as i64 });
        k = k + 1;
    }
    r
}

impl Store {
    /// Creates an airdrop at the end of the scope: its position is one past
    /// the largest in use, 0 when the scope is empty. An empty name is a
    /// validation error and leaves the store untouched.
    pub fn create_airdrop(&mut self, req: CreateAirdropRequest, now: &str) -> (r: Result<
        i64,
        StoreError,
    >)
        requires
            old(self).wf(),
            old(self).next_id < i64::MAX,
            max_airdrop_position(old(self).airdrops@) < i64::MAX,
        ensures
            final(self).wf(),
            (r is Err) <==> req.name@.len() == 0,
            r is Err ==> r == Result::<i64, StoreError>::Err(StoreError::Validation) && *final(self)
                == *old(self),
            r matches Ok(id) ==> {
                &&& id == old(self).next_id
                &&& final(self).next_id == old(self).next_id + 1
                &&& final(self).airdrops@.len() == old(self).airdrops@.len() + 1
                &&& final(self).airdrops@.drop_last() == old(self).airdrops@
                &&& final(self).airdrops@.last().id == id
                &&& final(self).airdrops@.last().position as int == max_airdrop_position(
                    old(self).airdrops@,
                ) + 1
                &&& final(self).airdrops@.last().name == req.name
                &&& final(self).airdrops@.last().url == req.url
                &&& final(self).airdrops@.last().airdrop_type_id == req.airdrop_type_id
                &&& final(self).airdrops@.last().chain == req.chain
                &&& final(self).airdrops@.last().wallet_address == req.wallet_address
                &&& final(self).airdrops@.last().notes == req.notes
                &&& final(self).airdrops@.last().active == req.active
                &&& final(self).airdrops@.last().created_at@ == now@
                &&& final(self).airdrops@.last().updated_at@ == now@
                &&& final(self).airdrop_types@ == old(self).airdrop_types@
                &&& final(self).airdrop_daily_tasks@ == old(self).airdrop_daily_tasks@
                &&& final(self).projects@ == old(self).projects@
                &&& final(self).project_tasks@ == old(self).project_tasks@
                &&& final(self).ideas@ == old(self).ideas@
                &&& final(self).house_items@ == old(self).house_items@
            },
    {
        if req.name.as_str().unicode_len() == 0 {
            return Err(StoreError::Validation);
        }
        let id = self.next_id;
        let position = next_airdrop_position(&self.airdrops);
        let record = Airdrop {
            id,
            name: req.name,
            url: req.url,
            airdrop_type_id: req.airdrop_type_id,
            chain: req.chain,
            wallet_address: req.wallet_address,
            position,
            notes: req.notes,
            active: req.active,
            created_at: String::from_str(now),
            updated_at: String::from_str(now),
        };
        self.airdrops.push(record);
        self.next_id = id + 1;
        proof {
            assert(self.airdrops@.drop_last() =~= old(self).airdrops@);
        }
        Ok(id)
    }

    /// Creates an airdrop type template. An empty name is a validation
    /// error and leaves the store untouched.
    pub fn create_airdrop_type(&mut self, req: CreateAirdropTypeRequest, now: &str) -> (r: Result<
        i64,
        StoreError,
    >)
        requires
            old(self).wf(),
            old(self).next_id < i64::MAX,
        ensures
            final(self).wf(),
            (r is Err) <==> req.name@.len() == 0,
            r is Err ==> r == Result::<i64, StoreError>::Err(StoreError::Validation) && *final(self)
                == *old(self),
            r matches Ok(id) ==> {
                &&& id == old(self).next_id
                &&& final(self).next_id == old(self).next_id + 1
                &&& final(self).airdrop_types@.len() == old(self).airdrop_types@.len() + 1
                &&& final(self).airdrop_types@.drop_last() == old(self).airdrop_types@
                &&& final(self).airdrop_types@.last().id == id
                &&& final(self).airdrop_types@.last().name == req.name
                &&& final(self).airdrop_types@.last().default_tasks == req.default_tasks
                &&& final(self).airdrop_types@.last().created_at@ == now@
                &&& final(self).airdrop_types@.last().updated_at@ == now@
                &&& final(self).airdrops@ == old(self).airdrops@
                &&& final(self).airdrop_daily_tasks@ == old(self).airdrop_daily_tasks@
                &&& final(self).projects@ == old(self).projects@
                &&& final(self).project_tasks@ == old(self).project_tasks@
                &&& final(self).ideas@ == old(self).ideas@
                &&& final(self).house_items@ == old(self).house_items@
            },
    {
        if req.name.as_str().unicode_len() == 0 {
            return Err(StoreError::Validation);
        }
        let id = self.next_id;
        let record = AirdropType {
            id,
            name: req.name,
            default_tasks: req.default_tasks,
            created_at: String::from_str(now),
            updated_at: String::from_str(now),
        };
        self.airdrop_types.push(record);
        self.next_id = id + 1;
        proof {
            assert(self.airdrop_types@.drop_last() =~= old(self).airdrop_types@);
        }
        Ok(id)
    }

    /// Creates a daily task at the end of its airdrop's scope, with an
    /// empty completion set. An empty title is a validation error and
    /// leaves the store untouched.
    pub fn create_airdrop_daily_task(
        &mut self,
        req: CreateAirdropDailyTaskRequest,
        now: &str,
    ) -> (r: Result<i64, StoreError>)
        requires
            old(self).wf(),
            old(self).next_id < i64::MAX,
            max_task_order(old(self).airdrop_daily_tasks@, req.airdrop_id) < i64::MAX,
        ensures
            final(self).wf(),
            (r is Err) <==> req.title@.len() == 0,
            r is Err ==> r == Result::<i64, StoreError>::Err(StoreError::Validation) && *final(self)
                == *old(self),
            r matches Ok(id) ==> {
                &&& id == old(self).next_id
                &&& final(self).next_id == old(self).next_id + 1
                &&& final(self).airdrop_daily_tasks@.len() == old(self).airdrop_daily_tasks@.len()
                    + 1
                &&& final(self).airdrop_daily_tasks@.drop_last() == old(self).airdrop_daily_tasks@
                &&& final(self).airdrop_daily_tasks@.last().id == id
                &&& final(self).airdrop_daily_tasks@.last().airdrop_id == req.airdrop_id
                &&& final(self).airdrop_daily_tasks@.last().title == req.title
                &&& final(self).airdrop_daily_tasks@.last().order as int == max_task_order(
                    old(self).airdrop_daily_tasks@,
                    req.airdrop_id,
                ) + 1
                &&& dates_of_json(final(self).airdrop_daily_tasks@.last().done_dates@)
                    == Seq::<Seq<char>>::empty()
                &&& final(self).airdrop_daily_tasks@.last().created_at@ == now@
                &&& final(self).airdrop_daily_tasks@.last().updated_at@ == now@
                &&& final(self).airdrops@ == old(self).airdrops@
                &&& final(self).airdrop_types@ == old(self).airdrop_types@
                &&& final(self).projects@ == old(self).projects@
                &&& final(self).project_tasks@ == old(self).project_tasks@
                &&& final(self).ideas@ == old(self).ideas@
                &&& final(self).house_items@ == old(self).house_items@
            },
    {
        if req.title.as_str().unicode_len() == 0 {
            return Err(StoreError::Validation);
        }
        let id = self.next_id;
        let order = next_task_order(&self.airdrop_daily_tasks, req.airdrop_id);
        let none_done: Vec<String> = Vec::new();
        let done_dates = encode_done_dates(&none_done);
        proof {
            assert(none_done.deep_view() =~= Seq::<Seq<char>>::empty());
        }
        let record = AirdropDailyTask {
            id,
            airdrop_id: req.airdrop_id,
            title: req.title,
            order,
            done_dates,
            created_at: String::from_str(now),
            updated_at: String::from_str(now),
        };
        self.airdrop_daily_tasks.push(record);
        self.next_id = id + 1;
        proof {
            assert(self.airdrop_daily_tasks@.drop_last() =~= old(self).airdrop_daily_tasks@);
        }
        Ok(id)
    }
}

/// A required field is present but empty.
pub open spec fn blank_field(o: Option<String>) -> bool {
    match o {
        Some(s) => s@.len() == 0,
        None => false,
    }
}

/// How one airdrop looks after a sparse update: every present field of the
/// request replaces the stored one, the update timestamp is stamped, and
/// everything else — the id and the position above all — is kept.
pub open spec fn patched_airdrop(
    pre: Airdrop,
    post: Airdrop,
    req: UpdateAirdropRequest,
    now: Seq<char>,
) -> bool {
    &&& post.id == pre.id
    &&& post.position == pre.position
    &&& post.created_at == pre.created_at
    &&& post.updated_at@ == now
    &&& post.name == (match req.name {
        Some(n) => n,
        None => pre.name,
    })
    &&& post.url == (match req.url {
        Some(u) => u,
        None => pre.url,
    })
    &&& post.airdrop_type_id == (if req.airdrop_type_id is Some {
        req.airdrop_type_id
    } else {
        pre.airdrop_type_id
    })
    &&& post.chain == (if req.chain is Some {
        req.chain
    } else {
        pre.chain
    })
    &&& post.wallet_address == (if req.wallet_address is Some {
        req.wallet_address
    } else {
        pre.wallet_address
    })
    &&& post.notes == (if req.notes is Some {
        req.notes
    } else {
        pre.notes
    })
    &&& post.active == (match req.active {
        Some(b) => b,
        None => pre.active,
    })
}

/// The position a reorder batch assigns to `id`, if any; when the batch
/// names an id twice, the later entry wins, as in sequential application.
pub open spec fn batch_assigns(items: Seq<AirdropOrderItem>, id: i64) -> Option<i64>
    decreases items.len(),
{
    if items.len() == 0 {
        None
    } else if items.last().id == id {
        Some(items.last().position)
    } else {
        batch_assigns(items.drop_last(), id)
    }
}

/// A batch that never names `id` assigns it nothing: a scope member omitted
/// from the batch is left entirely untouched by a reorder.
pub proof fn lemma_omitted_id_unassigned(items: Seq<AirdropOrderItem>, id: i64)
    requires
        forall|k: int| 0 <= k < items.len() ==> items[k].id != id,
    ensures
        batch_assigns(items, id) is None,
    decreases items.len(),
{
    if items.len() > 0 {
        assert(items.last() == items[items.len() - 1]);
        lemma_omitted_id_unassigned(items.drop_last(), id);
    }
}

/// A batch whose ids are pairwise distinct assigns each named id exactly
/// the position of its entry. With the sequential batch over all of a
/// scope's members, a reorder therefore leaves the scope dense: positions
/// are exactly 0 up to the member count.
pub proof fn lemma_distinct_batch_assigns(items: Seq<AirdropOrderItem>, k: int)
    requires
        0 <= k < items.len(),
        forall|a: int, b: int| 0 <= a < b < items.len() ==> items[a].id != items[b].id,
    ensures
        batch_assigns(items, items[k].id) == Some(items[k].position),
    decreases items.len(),
{
    if k == items.len() - 1 {
        assert(items.last() == items[k]);
    } else {
        assert(items.last() == items[items.len() - 1]);
        assert(items[k].id != items[items.len() - 1].id);
        lemma_distinct_batch_assigns(items.drop_last(), k);
        assert(items.drop_last()[k] == items[k]);
    }
}

/// How one record looks after a reorder batch: if the batch assigns it a
/// position it takes it, stamped; otherwise it is untouched.
pub open spec fn reorder_applied_record(
    pre: Airdrop,
    post: Airdrop,
    items: Seq<AirdropOrderItem>,
    now: Seq<char>,
) -> bool {
    match batch_assigns(items, pre.id) {
        Some(p) => {
            &&& post.id == pre.id
            &&& post.position == p
            &&& post.updated_at@ == now
            &&& post.name == pre.name
            &&& post.url == pre.url
            &&& post.airdrop_type_id == pre.airdrop_type_id
            &&& post.chain == pre.chain
            &&& post.wallet_address == pre.wallet_address
            &&& post.notes == pre.notes
            &&& post.active == pre.active
            &&& post.created_at == pre.created_at
        },
        None => post == pre,
    }
}

/// A fully applied reorder batch: the scope keeps its members, each record
/// the batch names holds its newly assigned position, and each member the
/// caller's batch omits is untouched.
pub open spec fn reorder_applied(
    pre: Seq<Airdrop>,
    post: Seq<Airdrop>,
    items: Seq<AirdropOrderItem>,
    now: Seq<char>,
) -> bool {
    &&& post.len() == pre.len()
    &&& forall|i: int|
        0 <= i < pre.len() ==> reorder_applied_record(pre[i], post[i], items, now)
}

/// After a reorder whose batch renumbers the scope's members — pairwise
/// distinct ids covering every member, entry `k` assigning position `k` —
/// the scope is dense: every record holds a position in `0..count` and no
/// two records share one. Gaps tolerated after deletions are closed
/// exactly by such a full reorder.
pub proof fn lemma_full_reorder_dense(
    pre: Seq<Airdrop>,
    post: Seq<Airdrop>,
    items: Seq<AirdropOrderItem>,
    now: Seq<char>,
)
    requires
        reorder_applied(pre, post, items, now),
        crate::store::ids_distinct(pre),
        items.len() == pre.len(),
        forall|a: int, b: int| 0 <= a < b < items.len() ==> items[a].id != items[b].id,
        forall|k: int| 0 <= k < items.len() ==> (#[trigger] items[k]).position as int == k,
        forall|j: int|
            0 <= j < pre.len() ==> exists|k: int|
                0 <= k < items.len() && (#[trigger] pre[j]).id == (#[trigger] items[k]).id,
    ensures
        forall|j: int| 0 <= j < post.len() ==> 0 <= (#[trigger] post[j]).position < post.len(),
        forall|j1: int, j2: int|
            0 <= j1 < j2 < post.len() ==> post[j1].position != post[j2].position,
{
    assert forall|j: int| 0 <= j < post.len() implies 0 <= (#[trigger] post[j]).position
        < post.len() by {
        let k = choose|k: int| 0 <= k < items.len() && pre[j].id == (#[trigger] items[k]).id;
        lemma_distinct_batch_assigns(items, k);
        assert(reorder_applied_record(pre[j], post[j], items, now));
    }
    assert forall|j1: int, j2: int| 0 <= j1 < j2 < post.len() implies post[j1].position
        != post[j2].position by {
        let k1 = choose|k: int| 0 <= k < items.len() && pre[j1].id == (#[trigger] items[k]).id;
        let k2 = choose|k: int| 0 <= k < items.len() && pre[j2].id == (#[trigger] items[k]).id;
        lemma_distinct_batch_assigns(items, k1);
        lemma_distinct_batch_assigns(items, k2);
        assert(reorder_applied_record(pre[j1], post[j1], items, now));
        assert(reorder_applied_record(pre[j2], post[j2], items, now));
        if post[j1].position == post[j2].position {
            assert(k1 == k2);
            assert(pre[j1].key() == pre[j2].key());
            assert(false);
        }
    }
}

/// The position the batch assigns to `id`, scanning forward so that the
/// last matching entry wins.
fn batch_position_for(items: &Vec<AirdropOrderItem>, id: i64) -> (r: Option<i64>)
    ensures
        r == batch_assigns(items@, id),
{
    let mut r: Option<i64> = None;
    let mut k: usize = 0;
    while k < items.len()
        invariant
            k <= items@.len(),
            r == batch_assigns(items@.take(k as int), id),
        decreases items@.len() - k,
    {
        proof {
            assert(items@.take(k + 1).drop_last() =~= items@.take(k as int));
            assert(items@.take(k + 1).last() == items@[k as int]);
        }
        if items[k].id == id {
            r = Some(items[k].position);
        }
        k = k + 1;
    }
    proof {
        assert(items@.take(items@.len() as int) =~= items@);
    }
    r
}

impl Store {
    /// Applies a sparse update to one airdrop: present fields replace the
    /// stored ones and the update timestamp is stamped; the id and the
    /// position are never touched. A present-but-empty name is a validation
    /// error; an unknown id is a not-found error; either error leaves the
    /// store untouched.
    pub fn update_airdrop(&mut self, req: UpdateAirdropRequest, now: &str) -> (r: Result<
        (),
        StoreError,
    >)
        requires
            old(self).wf(),
        ensures
            final(self).wf(),
            final(self).next_id == old(self).next_id,
            final(self).airdrop_types@ == old(self).airdrop_types@,
            final(self).airdrop_daily_tasks@ == old(self).airdrop_daily_tasks@,
            final(self).projects@ == old(self).projects@,
            final(self).project_tasks@ == old(self).project_tasks@,
            final(self).ideas@ == old(self).ideas@,
            final(self).house_items@ == old(self).house_items@,
            (r == Result::<(), StoreError>::Err(StoreError::Validation)) <==> blank_field(req.name),
            !blank_field(req.name) ==> ((r == Result::<(), StoreError>::Err(StoreError::NotFound))
                <==> (forall|j: int|
                0 <= j < old(self).airdrops@.len() ==> old(self).airdrops@[j].id != req.id)),
            r is Err ==> *final(self) == *old(self),
            r is Ok ==> exists|i: int|
                #![auto]
                {
                    &&& 0 <= i < old(self).airdrops@.len()
                    &&& old(self).airdrops@[i].id == req.id
                    &&& final(self).airdrops@.len() == old(self).airdrops@.len()
                    &&& patched_airdrop(old(self).airdrops@[i], final(self).airdrops@[i], req, now@)
                    &&& forall|j: int|
                        0 <= j < old(self).airdrops@.len() && j != i ==> final(self).airdrops@[j]
                            == old(self).airdrops@[j]
                },
    {
        if let Some(n) = &req.name {
            if n.as_str().unicode_len() == 0 {
                return Err(StoreError::Validation);
            }
        }
        match find_by_id(&self.airdrops, req.id) {
            None => Err(StoreError::NotFound),
            Some(i) => {
                let pre = &self.airdrops[i];
                let record = Airdrop {
                    id: pre.id,
                    name: match req.name {
                        Some(n) => n,
                        None => pre.name.clone(),
                    },
                    url: match req.url {
                        Some(u) => u,
                        None => pre.url.clone(),
                    },
                    airdrop_type_id: match req.airdrop_type_id {
                        Some(t) => Some(t),
                        None => pre.airdrop_type_id,
                    },
                    chain: match req.chain {
                        Some(c) => Some(c),
                        None => copy_opt_string(&pre.chain),
                    },
                    wallet_address: match req.wallet_address {
                        Some(w) => Some(w),
                        None => copy_opt_string(&pre.wallet_address),
                    },
                    position: pre.position,
                    notes: match req.notes {
                        Some(t) => Some(t),
                        None => copy_opt_string(&pre.notes),
                    },
                    active: match req.active {
                        Some(b) => b,
                        None => pre.active,
                    },
                    created_at: pre.created_at.clone(),
                    updated_at: String::from_str(now),
                };
                self.airdrops.set(i, record);
                proof {
                    assert(forall|j: int|
                        0 <= j < self.airdrops@.len() ==> self.airdrops@[j].key() == old(self).airdrops@[j].key());
                }
                Ok(())
            },
        }
    }

    /// Applies a reorder batch atomically: each record the batch names takes
    /// its assigned position, stamped with the update time; every scope
    /// member the batch omits is untouched. The batch is trusted as given —
    /// positions are not checked for contiguity, uniqueness or coverage —
    /// and ids that match no record are silently ignored.
    pub fn reorder_airdrops(&mut self, req: &ReorderAirdropsRequest, now: &str) -> (r: Result<
        (),
        StoreError,
    >)
        requires
            old(self).wf(),
        ensures
            final(self).wf(),
            r is Ok,
            reorder_applied(old(self).airdrops@, final(self).airdrops@, req.items@, now@),
            final(self).next_id == old(self).next_id,
            final(self).airdrop_types@ == old(self).airdrop_types@,
            final(self).airdrop_daily_tasks@ == old(self).airdrop_daily_tasks@,
            final(self).projects@ == old(self).projects@,
            final(self).project_tasks@ == old(self).project_tasks@,
            final(self).ideas@ == old(self).ideas@,
            final(self).house_items@ == old(self).house_items@,
    {
        let n = self.airdrops.len();
        let mut i: usize = 0;
        while i < n
            invariant
                i <= n,
                n == self.airdrops@.len(),
                self.airdrops@.len() == old(self).airdrops@.len(),
                self.next_id == old(self).next_id,
                self.airdrop_types@ == old(self).airdrop_types@,
                self.airdrop_daily_tasks@ == old(self).airdrop_daily_tasks@,
                self.projects@ == old(self).projects@,
                self.project_tasks@ == old(self).project_tasks@,
                self.ideas@ == old(self).ideas@,
                self.house_items@ == old(self).house_items@,
                forall|j: int|
                    0 <= j < i ==> reorder_applied_record(
                        old(self).airdrops@[j],
                        self.airdrops@[j],
                        req.items@,
                        now@,
                    ),
                forall|j: int| i <= j < n ==> self.airdrops@[j] == old(self).airdrops@[j],
            decreases n - i,
        {
            let id = self.airdrops[i].id_value();
            match batch_position_for(&req.items, id) {
                Some(p) => {
                    let pre = &self.airdrops[i];
                    let record = Airdrop {
                        id: pre.id,
                        name: pre.name.clone(),
                        url: pre.url.clone(),
                        airdrop_type_id: pre.airdrop_type_id,
                        chain: copy_opt_string(&pre.chain),
                        wallet_address: copy_opt_string(&pre.wallet_address),
                        position: p,
                        notes: copy_opt_string(&pre.notes),
                        active: pre.active,
                        created_at: pre.created_at.clone(),
                        updated_at: String::from_str(now),
                    };
                    self.airdrops.set(i, record);
                },
                None => {},
            }
            i = i + 1;
        }
        proof {
            assert(forall|j: int|
                0 <= j < self.airdrops@.len() ==> self.airdrops@[j].key() == old(self).airdrops@[j].key());
        }
        Ok(())
    }

    /// A reorder against a store whose backing transaction fails on the
    /// write with index `fault`, if any: a failed transaction rolls back
    /// and not one position changes; a transaction that completes applies
    /// the whole batch. Either way no partial reorder is ever observable.
    pub fn reorder_airdrops_with_fault(
        &mut self,
        req: &ReorderAirdropsRequest,
        now: &str,
        fault: Option<usize>,
    ) -> (r: Result<(), StoreError>)
        requires
            old(self).wf(),
        ensures
            final(self).wf(),
            (r is Ok) <==> (match fault {
                Some(k) => k >= req.items@.len(),
                None => true,
            }),
            r is Ok ==> {
                &&& reorder_applied(old(self).airdrops@, final(self).airdrops@, req.items@, now@)
                &&& final(self).next_id == old(self).next_id
                &&& final(self).airdrop_types@ == old(self).airdrop_types@
                &&& final(self).airdrop_daily_tasks@ == old(self).airdrop_daily_tasks@
                &&& final(self).projects@ == old(self).projects@
                &&& final(self).project_tasks@ == old(self).project_tasks@
                &&& final(self).ideas@ == old(self).ideas@
                &&& final(self).house_items@ == old(self).house_items@
            },
            r is Err ==> r == Result::<(), StoreError>::Err(StoreError::Persistence) && *final(self)
                == *old(self),
    {
        if let Some(k) = fault {
            if k < req.items.len() {
                return Err(StoreError::Persistence);
            }
        }
        self.reorder_airdrops(req, now)
    }

    /// Deletes one airdrop and, with it, all of its daily tasks. The
    /// positions of the remaining airdrops are not renumbered: a gap left
    /// by the deletion persists until an explicit reorder. An unknown id is
    /// a not-found error and leaves the store untouched.
    pub fn delete_airdrop(&mut self, id: i64) -> (r: Result<(), StoreError>)
        requires
            old(self).wf(),
        ensures
            final(self).wf(),
            final(self).next_id == old(self).next_id,
            final(self).airdrop_types@ == old(self).airdrop_types@,
            final(self).projects@ == old(self).projects@,
            final(self).project_tasks@ == old(self).project_tasks@,
            final(self).ideas@ == old(self).ideas@,
            final(self).house_items@ == old(self).house_items@,
            (r is Err) <==> (forall|j: int|
                0 <= j < old(self).airdrops@.len() ==> old(self).airdrops@[j].id != id),
            r is Err ==> r == Result::<(), StoreError>::Err(StoreError::NotFound) && *final(self)
                == *old(self),
            r is Ok ==> exists|i: int|
                #![auto]
                {
                    &&& 0 <= i < old(self).airdrops@.len()
                    &&& old(self).airdrops@[i].id == id
                    &&& final(self).airdrops@ == old(self).airdrops@.remove(i)
                },
            r is Ok ==> final(self).airdrop_daily_tasks@ == surviving(
                old(self).airdrop_daily_tasks@,
                id,
            ),
    {
        match find_by_id(&self.airdrops, id) {
            None => Err(StoreError::NotFound),
            Some(i) => {
                self.airdrops.remove(i);
                let ghost mid = *self;
                let mut kept: Vec<AirdropDailyTask> = Vec::new();
                let mut k: usize = 0;
                while k < self.airdrop_daily_tasks.len()
                    invariant
                        *self == mid,
                        k <= self.airdrop_daily_tasks@.len(),
                        kept@ == surviving(
                            self.airdrop_daily_tasks@.take(k as int),
                            id,
                        ),
                    decreases self.airdrop_daily_tasks@.len() - k,
                {
                    proof {
                        assert(self.airdrop_daily_tasks@.take(k + 1).drop_last()
                            =~= self.airdrop_daily_tasks@.take(k as int));
                        assert(self.airdrop_daily_tasks@.take(k + 1).last()
                            == self.airdrop_daily_tasks@[k as int]);
                    }
                    let t = &self.airdrop_daily_tasks[k];
                    if t.airdrop_id != id {
                        kept.push(t.duplicate());
                    }
                    k = k + 1;
                }
                proof {
                    assert(self.airdrop_daily_tasks@.take(self.airdrop_daily_tasks@.len() as int)
                        =~= self.airdrop_daily_tasks@);
                }
                self.airdrop_daily_tasks = kept;
                proof {
                    old(self).airdrops@.remove_ensures(i as int);
                    assert(crate::store::table_ok(self.airdrops@, self.next_id)) by {
                        assert(forall|j: int|
                            0 <= j < self.airdrops@.len() ==> self.airdrops@[j] == (if j < i {
                                old(self).airdrops@[j]
                            } else {
                                old(self).airdrops@[j + 1]
                            }));
                    }
                    lemma_surviving_wf(old(self).airdrop_daily_tasks@, id);
                    assert(crate::store::table_ok(self.airdrop_daily_tasks@, self.next_id)) by {
                        assert(forall|j: int|
                            0 <= j < self.airdrop_daily_tasks@.len() ==> old(self).airdrop_daily_tasks@.contains(#[trigger] self.airdrop_daily_tasks@[j]));
                    }
                }
                Ok(())
            },
        }
    }

    /// Deletes one daily task. An unknown id is a not-found error and
    /// leaves the store untouched.
    pub fn delete_airdrop_daily_task(&mut self, id: i64) -> (r: Result<(), StoreError>)
        requires
            old(self).wf(),
        ensures
            final(self).wf(),
            final(self).next_id == old(self).next_id,
            final(self).airdrops@ == old(self).airdrops@,
            final(self).airdrop_types@ == old(self).airdrop_types@,
            final(self).projects@ == old(self).projects@,
            final(self).project_tasks@ == old(self).project_tasks@,
            final(self).ideas@ == old(self).ideas@,
            final(self).house_items@ == old(self).house_items@,
            (r is Err) <==> (forall|j: int|
                0 <= j < old(self).airdrop_daily_tasks@.len() ==> old(self).airdrop_daily_tasks@[j].id != id),
            r is Err ==> r == Result::<(), StoreError>::Err(StoreError::NotFound) && *final(self)
                == *old(self),
            r is Ok ==> exists|i: int|
                #![auto]
                {
                    &&& 0 <= i < old(self).airdrop_daily_tasks@.len()
                    &&& old(self).airdrop_daily_tasks@[i].id == id
                    &&& final(self).airdrop_daily_tasks@ == old(self).airdrop_daily_tasks@.remove(i)
                },
    {
        match find_by_id(&self.airdrop_daily_tasks, id) {
            None => Err(StoreError::NotFound),
            Some(i) => {
                self.airdrop_daily_tasks.remove(i);
                proof {
                    old(self).airdrop_daily_tasks@.remove_ensures(i as int);
                    assert(crate::store::table_ok(self.airdrop_daily_tasks@, self.next_id)) by {
                        assert(forall|j: int|
                            0 <= j < self.airdrop_daily_tasks@.len()
                                ==> self.airdrop_daily_tasks@[j] == (if j < i {
                                old(self).airdrop_daily_tasks@[j]
                            } else {
                                old(self).airdrop_daily_tasks@[j + 1]
                            }));
                    }
                }
                Ok(())
            },
        }
    }

    /// Marks a daily task done for the caller-supplied calendar day, as an
    /// idempotent set update: a day the task already carries is not
    /// recorded again and the net completion set is unchanged; any other
    /// day is appended exactly once. An unknown task id is a not-found
    /// error and leaves the store untouched.
    pub fn mark_task_done_today(&mut self, task_id: i64, today: &str, now: &str) -> (r: Result<
        (),
        StoreError,
    >)
        requires
            old(self).wf(),
        ensures
            final(self).wf(),
            final(self).next_id == old(self).next_id,
            final(self).airdrops@ == old(self).airdrops@,
            final(self).airdrop_types@ == old(self).airdrop_types@,
            final(self).projects@ == old(self).projects@,
            final(self).project_tasks@ == old(self).project_tasks@,
            final(self).ideas@ == old(self).ideas@,
            final(self).house_items@ == old(self).house_items@,
            (r is Err) <==> (forall|j: int|
                0 <= j < old(self).airdrop_daily_tasks@.len() ==> old(self).airdrop_daily_tasks@[j].id != task_id),
            r is Err ==> r == Result::<(), StoreError>::Err(StoreError::NotFound) && *final(self)
                == *old(self),
            r is Ok ==> exists|i: int|
                #![auto]
                {
                    &&& 0 <= i < old(self).airdrop_daily_tasks@.len()
                    &&& old(self).airdrop_daily_tasks@[i].id == task_id
                    &&& final(self).airdrop_daily_tasks@.len() == old(self).airdrop_daily_tasks@.len()
                    &&& dates_of_json(final(self).airdrop_daily_tasks@[i].done_dates@)
                        == spec_insert_date(
                        dates_of_json(old(self).airdrop_daily_tasks@[i].done_dates@),
                        today@,
                    )
                    &&& final(self).airdrop_daily_tasks@[i].updated_at@ == now@
                    &&& final(self).airdrop_daily_tasks@[i].id == old(self).airdrop_daily_tasks@[i].id
                    &&& final(self).airdrop_daily_tasks@[i].airdrop_id == old(self).airdrop_daily_tasks@[i].airdrop_id
                    &&& final(self).airdrop_daily_tasks@[i].title == old(self).airdrop_daily_tasks@[i].title
                    &&& final(self).airdrop_daily_tasks@[i].order == old(self).airdrop_daily_tasks@[i].order
                    &&& final(self).airdrop_daily_tasks@[i].created_at == old(self).airdrop_daily_tasks@[i].created_at
                    &&& forall|j: int|
                        0 <= j < old(self).airdrop_daily_tasks@.len() && j != i ==> final(self).airdrop_daily_tasks@[j] == old(self).airdrop_daily_tasks@[j]
                },
    {
        match find_by_id(&self.airdrop_daily_tasks, task_id) {
            None => Err(StoreError::NotFound),
            Some(i) => {
                let pre = &self.airdrop_daily_tasks[i];
                let mut dates = decode_done_dates(pre.done_dates.as_str());
                add_done_date(&mut dates, today);
                let record = AirdropDailyTask {
                    id: pre.id,
                    airdrop_id: pre.airdrop_id,
                    title: pre.title.clone(),
                    order: pre.order,
                    done_dates: encode_done_dates(&dates),
                    created_at: pre.created_at.clone(),
                    updated_at: String::from_str(now),
                };
                self.airdrop_daily_tasks.set(i, record);
                proof {
                    assert(forall|j: int|
                        0 <= j < self.airdrop_daily_tasks@.len()
                            ==> self.airdrop_daily_tasks@[j].key() == old(self).airdrop_daily_tasks@[j].key());
                }
                Ok(())
            },
        }
    }

    /// The daily tasks of one airdrop, in storage order.
    pub fn list_airdrop_daily_tasks(&self, airdrop_id: i64) -> (r: Vec<AirdropDailyTask>)
        ensures
            r@ == owned_by(self.airdrop_daily_tasks@, airdrop_id),
    {
        let mut r: Vec<AirdropDailyTask> = Vec::new();
        let mut k: usize = 0;
        while k < self.airdrop_daily_tasks.len()
            invariant
                k <= self.airdrop_daily_tasks@.len(),
                r@ == owned_by(self.airdrop_daily_tasks@.take(k as int), airdrop_id),
            decreases self.airdrop_daily_tasks@.len() - k,
        {
            proof {
                assert(self.airdrop_daily_tasks@.take(k + 1).drop_last()
                    =~= self.airdrop_daily_tasks@.take(k as int));
                assert(self.airdrop_daily_tasks@.take(k + 1).last()
                    == self.airdrop_daily_tasks@[k as int]);
            }
            let t = &self.airdrop_daily_tasks[k];
            if t.airdrop_id == airdrop_id {
                r.push(t.duplicate());
            }
            k = k + 1;
        }
        proof {
            assert(self.airdrop_daily_tasks@.take(self.airdrop_daily_tasks@.len() as int)
                =~= self.airdrop_daily_tasks@);
        }
        r
    }
}

} // verus!
