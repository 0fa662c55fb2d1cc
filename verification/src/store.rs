//! The record store: one table per entity kind, held in memory and mutated
//! only through the operations of this crate. A single id counter assigns
//! every record an opaque identifier that is unique and never reused.

use vstd::prelude::*;

use crate::models::{Airdrop, AirdropDailyTask, AirdropType, HouseItem, Idea, Project, ProjectTask};

verus! {

/// A record that carries the store-assigned identifier.
pub trait HasId {
    spec fn key(&self) -> i64;

    fn id_value(&self) -> (r: i64)
        ensures
            r == self.key(),
    ;
}

impl HasId for AirdropType {
    open spec fn key(&self) -> i64 {
        self.id
    }

    fn id_value(&self) -> i64 {
        self.id
    }
}

impl HasId for Airdrop {
    open spec fn key(&self) -> i64 {
        self.id
    }

    fn id_value(&self) -> i64 {
        self.id
    }
}

impl HasId for AirdropDailyTask {
    open spec fn key(&self) -> i64 {
        self.id
    }

    fn id_value(&self) -> i64 {
        self.id
    }
}

impl HasId for Project {
    open spec fn key(&self) -> i64 {
        self.id
    }

    fn id_value(&self) -> i64 {
        self.id
    }
}

impl HasId for ProjectTask {
    open spec fn key(&self) -> i64 {
        self.id
    }

    fn id_value(&self) -> i64 {
        self.id
    }
}

impl HasId for Idea {
    open spec fn key(&self) -> i64 {
        self.id
    }

    fn id_value(&self) -> i64 {
        self.id
    }
}

impl HasId for HouseItem {
    open spec fn key(&self) -> i64 {
        self.id
    }

    fn id_value(&self) -> i64 {
        self.id
    }
}

/// A child record that belongs to one owning parent record.
pub trait Owned: HasId {
    spec fn owner(&self) -> i64;
}

impl Owned for AirdropDailyTask {
    open spec fn owner(&self) -> i64 {
        self.airdrop_id
    }
}

impl Owned for ProjectTask {
    open spec fn owner(&self) -> i64 {
        self.project_id
    }
}

/// No two records of the table share an id.
pub open spec fn ids_distinct<T: HasId>(s: Seq<T>) -> bool {
    forall|i: int, j: int| 0 <= i < j < s.len() ==> s[i].key() != s[j].key()
}

/// Every id of the table was assigned before `bound`.
pub open spec fn ids_below<T: HasId>(s: Seq<T>, bound: i64) -> bool {
    forall|i: int| 0 <= i < s.len() ==> 1 <= #[trigger] s[i].key() < bound
}

/// Well-formedness of one table.
pub open spec fn table_ok<T: HasId>(s: Seq<T>, bound: i64) -> bool {
    ids_distinct(s) && ids_below(s, bound)
}

/// Some record of the table carries `id`.
pub open spec fn table_has<T: HasId>(s: Seq<T>, id: i64) -> bool {
    exists|i: int| 0 <= i < s.len() && #[trigger] s[i].key() == id
}

/// The child records that survive deleting the parent `owner`: all those of
/// other parents, in their stored order.
pub open spec fn surviving<T: Owned>(s: Seq<T>, owner: i64) -> Seq<T>
    decreases s.len(),
{
    if s.len() == 0 {
        Seq::empty()
    } else if s.last().owner() == owner {
        surviving(s.drop_last(), owner)
    } else {
        surviving(s.drop_last(), owner).push(s.last())
    }
}

/// The child records that belong to the parent `owner`, in stored order.
pub open spec fn owned_by<T: Owned>(s: Seq<T>, owner: i64) -> Seq<T>
    decreases s.len(),
{
    if s.len() == 0 {
        Seq::empty()
    } else if s.last().owner() == owner {
        owned_by(s.drop_last(), owner).push(s.last())
    } else {
        owned_by(s.drop_last(), owner)
    }
}

/// Cascade deletion keeps a child table well formed: the survivors are
/// records of the old table, still pairwise distinct.
pub proof fn lemma_surviving_wf<T: Owned>(s: Seq<T>, owner: i64)
    requires
        ids_distinct(s),
    ensures
        ids_distinct(surviving(s, owner)),
        forall|i: int|
            0 <= i < surviving(s, owner).len() ==> s.contains(#[trigger] surviving(s, owner)[i]),
        forall|id: i64| table_has(surviving(s, owner), id) ==> table_has(s, id),
    decreases s.len(),
{
    if s.len() > 0 {
        let dl = s.drop_last();
        assert(forall|i: int| 0 <= i < dl.len() ==> dl[i] == s[i]);
        lemma_surviving_wf(dl, owner);
        let f = surviving(s, owner);
        let fdl = surviving(dl, owner);
        if s.last().owner() != owner {
            assert(f == fdl.push(s.last()));
            assert(s[s.len() - 1] == s.last());
            assert forall|i: int, j: int| 0 <= i < j < f.len() implies f[i].key() != f[j].key() by {
                if j == fdl.len() {
                    assert(f[i] == fdl[i]);
                    assert(f[j] == s.last());
                    if fdl[i].key() == s.last().key() {
                        assert(table_has(fdl, s.last().key())) by {
                            assert(fdl[i].key() == s.last().key());
                        }
                        assert(table_has(dl, s.last().key()));
                        let w = choose|w: int|
                            0 <= w < dl.len() && #[trigger] dl[w].key() == s.last().key();
                        assert(s[w].key() == s[s.len() - 1].key());
                        assert(false);
                    }
                } else {
                    assert(f[i] == fdl[i] && f[j] == fdl[j]);
                }
            }
            assert forall|id: i64| table_has(f, id) implies table_has(s, id) by {
                let w = choose|w: int| 0 <= w < f.len() && #[trigger] f[w].key() == id;
                if w < fdl.len() {
                    assert(table_has(fdl, id)) by {
                        assert(f[w] == fdl[w]);
                        assert(fdl[w].key() == id);
                    }
                    assert(table_has(dl, id));
                    let v = choose|v: int| 0 <= v < dl.len() && #[trigger] dl[v].key() == id;
                    assert(s[v].key() == id);
                } else {
                    assert(f[w] == s.last());
                    assert(s[s.len() - 1].key() == id);
                }
            }
            assert forall|i: int| 0 <= i < f.len() implies s.contains(f[i]) by {
                if i < fdl.len() {
                    assert(f[i] == fdl[i]);
                    assert(dl.contains(fdl[i]));
                    let v = choose|v: int| 0 <= v < dl.len() && dl[v] == fdl[i];
                    assert(s[v] == fdl[i]);
                } else {
                    assert(f[i] == s.last());
                }
            }
        } else {
            assert(f == fdl);
            assert forall|i: int| 0 <= i < f.len() implies s.contains(f[i]) by {
                assert(dl.contains(fdl[i]));
                let v = choose|v: int| 0 <= v < dl.len() && dl[v] == fdl[i];
                assert(s[v] == fdl[i]);
            }
            assert forall|id: i64| table_has(f, id) implies table_has(s, id) by {
                assert(table_has(dl, id));
                let v = choose|v: int| 0 <= v < dl.len() && #[trigger] dl[v].key() == id;
                assert(s[v].key() == id);
            }
        }
    }
}

/// The index of the first record with the given id, if any. Under
/// `ids_distinct` it is the only one.
pub fn find_by_id<T: HasId>(v: &Vec<T>, id: i64) -> (r: Option<usize>)
    ensures
        match r {
            Some(i) => i < v@.len() && v@[i as int].key() == id && (forall|j: int|
                0 <= j < i ==> v@[j].key() != id),
            None => forall|j: int| 0 <= j < v@.len() ==> v@[j].key() != id,
        },
{
    let mut i: usize = 0;
    while i < v.len()
        invariant
            i <= v@.len(),
            forall|j: int| 0 <= j < i ==> v@[j].key() != id,
        decreases v@.len() - i,
    {
        if v[i].id_value() == id {
            return Some(i);
        }
        i = i + 1;
    }
    None
}

/// The in-memory record store.
pub struct Store {
    pub airdrop_types: Vec<AirdropType>,
    pub airdrops: Vec<Airdrop>,
    pub airdrop_daily_tasks: Vec<AirdropDailyTask>,
    pub projects: Vec<Project>,
    pub project_tasks: Vec<ProjectTask>,
    pub ideas: Vec<Idea>,
    pub house_items: Vec<HouseItem>,
    /// The next identifier to assign; maintained by the store, never
    /// decreasing.
    pub next_id: i64,
}

impl Store {
    /// Every table holds pairwise distinct ids, all assigned below the
    /// counter. Constructors establish this and every operation preserves
    /// it.
    pub open spec fn wf(&self) -> bool {
        &&& 1 <= self.next_id
        &&& table_ok(self.airdrop_types@, self.next_id)
        &&& table_ok(self.airdrops@, self.next_id)
        &&& table_ok(self.airdrop_daily_tasks@, self.next_id)
        &&& table_ok(self.projects@, self.next_id)
        &&& table_ok(self.project_tasks@, self.next_id)
        &&& table_ok(self.ideas@, self.next_id)
        &&& table_ok(self.house_items@, self.next_id)
    }

    /// An empty store.
    pub fn new() -> (s: Store)
        ensures
            s.wf(),
            s.next_id == 1,
            s.airdrop_types@.len() == 0,
            s.airdrops@.len() == 0,
            s.airdrop_daily_tasks@.len() == 0,
            s.projects@.len() == 0,
            s.project_tasks@.len() == 0,
            s.ideas@.len() == 0,
            s.house_items@.len() == 0,
    {
        Store {
            airdrop_types: Vec::new(),
            airdrops: Vec::new(),
            airdrop_daily_tasks: Vec::new(),
            projects: Vec::new(),
            project_tasks: Vec::new(),
            ideas: Vec::new(),
            house_items: Vec::new(),
            next_id: 1,
        }
    }

    /// All airdrops, in storage order. Display order is by ascending
    /// `position`, a concern of the presentation layer.
    pub fn list_airdrops(&self) -> (r: &Vec<Airdrop>)
        ensures
            r@ == self.airdrops@,
    {
        &self.airdrops
    }

    /// All airdrop types, in storage order.
    pub fn list_airdrop_types(&self) -> (r: &Vec<AirdropType>)
        ensures
            r@ == self.airdrop_types@,
    {
        &self.airdrop_types
    }

    /// All projects, in storage order.
    pub fn list_projects(&self) -> (r: &Vec<Project>)
        ensures
            r@ == self.projects@,
    {
        &self.projects
    }

    /// All ideas, in storage order.
    pub fn list_ideas(&self) -> (r: &Vec<Idea>)
        ensures
            r@ == self.ideas@,
    {
        &self.ideas
    }

    /// All household chores, in storage order.
    pub fn list_house_items(&self) -> (r: &Vec<HouseItem>)
        ensures
            r@ == self.house_items@,
    {
        &self.house_items
    }
}

} // verus!
