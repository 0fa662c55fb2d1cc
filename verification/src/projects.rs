//! Projects and their task lists. Project tasks are orderable child
//! records: creation appends after the largest order in the project's
//! scope, and deletion never renumbers the survivors.

use vstd::prelude::*;

use crate::airdrops::blank_field;
use crate::models::{copy_opt_string, Project, ProjectTask};
use crate::status::{spec_status_of, ProjectStatus};
use crate::store::{find_by_id, lemma_surviving_wf, owned_by, surviving, HasId, Store};
use crate::StoreError;

verus! {

#[derive(Debug)]
pub struct CreateProjectRequest {
    pub name: String,
    pub description: Option<String>,
    pub status: Option<String>,
}

#[derive(Debug)]
pub struct UpdateProjectRequest {
    pub id: i64,
    pub name: Option<String>,
    pub description: Option<String>,
    pub status: Option<String>,
}

/// `order` is accepted for wire compatibility; the stored order is assigned
/// by the append rule, like every other orderable record.
#[derive(Debug)]
pub struct CreateProjectTaskRequest {
    pub project_id: i64,
    pub title: String,
    pub order: i64,
}

#[derive(Debug)]
pub struct UpdateProjectTaskRequest {
    pub id: i64,
    pub title: Option<String>,
    pub done: Option<bool>,
    pub order: Option<i64>,
}

/// The status a creation request asks for: the default when absent, the
/// parsed word when present, nothing when the word is unrecognized.
pub open spec fn requested_status(o: Option<String>) -> Option<ProjectStatus> {
    match o {
        None => Some(ProjectStatus::Active),
        Some(s) => spec_status_of(s@),
    }
}

/// A status field is present but spells no known status word.
pub open spec fn invalid_status_field(o: Option<String>) -> bool {
    match o {
        Some(s) => spec_status_of(s@) is None,
        None => false,
    }
}

/// The largest `order` among the tasks of one project, or -1 when it has
/// none.
pub open spec fn max_project_task_order(s: Seq<ProjectTask>, project_id: i64) -> int
    decreases s.len(),
{
    if s.len() == 0 {
        -1
    } else {
        let m = max_project_task_order(s.drop_last(), project_id);
        if s.last().project_id == project_id && s.last().order as int > m {
            s.last().order as int
        } else {
            m
        }
    }
}

/// The order assigned to a newly created project task exceeds every order
/// already held by a task of the same project.
pub proof fn lemma_fresh_project_task_order(s: Seq<ProjectTask>, project_id: i64, i: int)
    requires
        0 <= i < s.len(),
        s[i].project_id == project_id,
    ensures
        s[i].order < max_project_task_order(s, project_id) + 1,
    decreases s.len(),
{
    if i == s.len() - 1 {
    } else {
        lemma_fresh_project_task_order(s.drop_last(), project_id, i);
        assert(s.drop_last()[i] == s[i]);
    }
}

/// The append order for a new task of `project_id`.
pub fn next_project_task_order(tasks: &Vec<ProjectTask>, project_id: i64) -> (r: i64)
    requires
        max_project_task_order(tasks@, project_id) < i64::MAX,
    ensures
        r as int == max_project_task_order(tasks@, project_id) + 1,
{
    let mut m: i64 = -1;
    let mut i: usize = 0;
    while i < tasks.len()
        invariant
            i <= tasks@.len(),
            m as int == max_project_task_order(tasks@.take(i as int), project_id),
        decreases tasks@.len() - i,
    {
        proof {
            assert(tasks@.take(i + 1).drop_last() =~= tasks@.take(i as int));
            assert(tasks@.take(i + 1).last() == tasks@[i as int]);
        }
        if tasks[i].project_id == project_id && tasks[i].order > m {
            m = tasks[i].order;
        }
        i = i + 1;
    }
    proof {
        assert(tasks@.take(tasks@.len() as int) =~= tasks@);
    }
    m + 1
}

/// How one project looks after a sparse update: every present field of the
/// request replaces the stored one and the update timestamp is stamped.
pub open spec fn patched_project(
    pre: Project,
    post: Project,
    req: UpdateProjectRequest,
    now: Seq<char>,
) -> bool {
    &&& post.id == pre.id
    &&& post.created_at == pre.created_at
    &&& post.updated_at@ == now
    &&& post.name == (match req.name {
        Some(n) => n,
        None => pre.name,
    })
    &&& post.description == (if req.description is Some {
        req.description
    } else {
        pre.description
    })
    &&& post.status == (match req.status {
        Some(s) => spec_status_of(s@)->Some_0,
        None => pre.status,
    })
}

/// How one project task looks after a sparse update.
pub open spec fn patched_project_task(
    pre: ProjectTask,
    post: ProjectTask,
    req: UpdateProjectTaskRequest,
    now: Seq<char>,
) -> bool {
    &&& post.id == pre.id
    &&& post.project_id == pre.project_id
    &&& post.created_at == pre.created_at
    &&& post.updated_at@ == now
    &&& post.title == (match req.title {
        Some(t) => t,
        None => pre.title,
    })
    &&& post.done == (match req.done {
        Some(d) => d,
        None => pre.done,
    })
    &&& post.order == (match req.order {
        Some(o) => o,
        None => pre.order,
    })
}

impl Store {
    /// Creates a project. An absent status defaults to active; an
    /// unrecognized status word, like an empty name, is a validation error
    /// and leaves the store untouched.
    pub fn create_project(&mut self, req: CreateProjectRequest, now: &str) -> (r: Result<
        i64,
        StoreError,
    >)
        requires
            old(self).wf(),
            old(self).next_id < i64::MAX,
        ensures
            final(self).wf(),
            (r is Err) <==> (req.name@.len() == 0 || requested_status(req.status) is None),
            r is Err ==> r == Result::<i64, StoreError>::Err(StoreError::Validation) && *final(self)
                == *old(self),
            r matches Ok(id) ==> {
                &&& id == old(self).next_id
                &&& final(self).next_id == old(self).next_id + 1
                &&& final(self).projects@.len() == old(self).projects@.len() + 1
                &&& final(self).projects@.drop_last() == old(self).projects@
                &&& final(self).projects@.last().id == id
                &&& final(self).projects@.last().name == req.name
                &&& final(self).projects@.last().description == req.description
                &&& Some(final(self).projects@.last().status) == requested_status(req.status)
                &&& final(self).projects@.last().created_at@ == now@
                &&& final(self).projects@.last().updated_at@ == now@
                &&& final(self).airdrops@ == old(self).airdrops@
                &&& final(self).airdrop_types@ == old(self).airdrop_types@
                &&& final(self).airdrop_daily_tasks@ == old(self).airdrop_daily_tasks@
                &&& final(self).project_tasks@ == old(self).project_tasks@
                &&& final(self).ideas@ == old(self).ideas@
                &&& final(self).house_items@ == old(self).house_items@
            },
    {
        let status = match &req.status {
            None => ProjectStatus::Active,
            Some(s) => match ProjectStatus::from_str(s.as_str()) {
                Ok(st) => st,
                Err(_) => {
                    return Err(StoreError::Validation);
                },
            },
        };
        if req.name.as_str().unicode_len() == 0 {
            return Err(StoreError::Validation);
        }
        let id = self.next_id;
        let record = Project {
            id,
            name: req.name,
            description: req.description,
            status,
            created_at: String::from_str(now),
            updated_at: String::from_str(now),
        };
        self.projects.push(record);
        self.next_id = id + 1;
        proof {
            assert(self.projects@.drop_last() =~= old(self).projects@);
        }
        Ok(id)
    }

    /// Applies a sparse update to one project. A present-but-empty name or
    /// an unrecognized status word is a validation error; an unknown id is
    /// a not-found error; either error leaves the store untouched.
    pub fn update_project(&mut self, req: UpdateProjectRequest, now: &str) -> (r: Result<
        (),
        StoreError,
    >)
        requires
            old(self).wf(),
        ensures
            final(self).wf(),
            final(self).next_id == old(self).next_id,
            final(self).airdrops@ == old(self).airdrops@,
            final(self).airdrop_types@ == old(self).airdrop_types@,
            final(self).airdrop_daily_tasks@ == old(self).airdrop_daily_tasks@,
            final(self).project_tasks@ == old(self).project_tasks@,
            final(self).ideas@ == old(self).ideas@,
            final(self).house_items@ == old(self).house_items@,
            (r == Result::<(), StoreError>::Err(StoreError::Validation)) <==> (blank_field(req.name)
                || invalid_status_field(req.status)),
            (!blank_field(req.name) && !invalid_status_field(req.status)) ==> ((r == Result::<
                (),
                StoreError,
            >::Err(StoreError::NotFound)) <==> (forall|j: int|
                0 <= j < old(self).projects@.len() ==> old(self).projects@[j].id != req.id)),
            r is Err ==> *final(self) == *old(self),
            r is Ok ==> exists|i: int|
                #![auto]
                {
                    &&& 0 <= i < old(self).projects@.len()
                    &&& old(self).projects@[i].id == req.id
                    &&& final(self).projects@.len() == old(self).projects@.len()
                    &&& patched_project(old(self).projects@[i], final(self).projects@[i], req, now@)
                    &&& forall|j: int|
                        0 <= j < old(self).projects@.len() && j != i ==> final(self).projects@[j]
                            == old(self).projects@[j]
                },
    {
        let status = match &req.status {
            None => None,
            Some(s) => match ProjectStatus::from_str(s.as_str()) {
                Ok(st) => Some(st),
                Err(_) => {
                    return Err(StoreError::Validation);
                },
            },
        };
        if let Some(n) = &req.name {
            if n.as_str().unicode_len() == 0 {
                return Err(StoreError::Validation);
            }
        }
        match find_by_id(&self.projects, req.id) {
            None => Err(StoreError::NotFound),
            Some(i) => {
                let pre = &self.projects[i];
                let record = Project {
                    id: pre.id,
                    name: match req.name {
                        Some(n) => n,
                        None => pre.name.clone(),
                    },
                    description: match req.description {
                        Some(d) => Some(d),
                        None => copy_opt_string(&pre.description),
                    },
                    status: match status {
                        Some(st) => st,
                        None => pre.status,
                    },
                    created_at: pre.created_at.clone(),
                    updated_at: String::from_str(now),
                };
                self.projects.set(i, record);
                proof {
                    assert(forall|j: int|
                        0 <= j < self.projects@.len() ==> self.projects@[j].key() == old(self).projects@[j].key());
                }
                Ok(())
            },
        }
    }

    /// Deletes one project and, with it, all of its tasks. An unknown id
    /// is a not-found error and leaves the store untouched.
    pub fn delete_project(&mut self, id: i64) -> (r: Result<(), StoreError>)
        requires
            old(self).wf(),
        ensures
            final(self).wf(),
            final(self).next_id == old(self).next_id,
            final(self).airdrops@ == old(self).airdrops@,
            final(self).airdrop_types@ == old(self).airdrop_types@,
            final(self).airdrop_daily_tasks@ == old(self).airdrop_daily_tasks@,
            final(self).ideas@ == old(self).ideas@,
            final(self).house_items@ == old(self).house_items@,
            (r is Err) <==> (forall|j: int|
                0 <= j < old(self).projects@.len() ==> old(self).projects@[j].id != id),
            r is Err ==> r == Result::<(), StoreError>::Err(StoreError::NotFound) && *final(self)
                == *old(self),
            r is Ok ==> exists|i: int|
                #![auto]
                {
                    &&& 0 <= i < old(self).projects@.len()
                    &&& old(self).projects@[i].id == id
                    &&& final(self).projects@ == old(self).projects@.remove(i)
                },
            r is Ok ==> final(self).project_tasks@ == surviving(old(self).project_tasks@, id),
    {
        match find_by_id(&self.projects, id) {
            None => Err(StoreError::NotFound),
            Some(i) => {
                self.projects.remove(i);
                let ghost mid = *self;
                let mut kept: Vec<ProjectTask> = Vec::new();
                let mut k: usize = 0;
                while k < self.project_tasks.len()
                    invariant
                        *self == mid,
                        k <= self.project_tasks@.len(),
                        kept@ == surviving(self.project_tasks@.take(k as int), id),
                    decreases self.project_tasks@.len() - k,
                {
                    proof {
                        assert(self.project_tasks@.take(k + 1).drop_last()
                            =~= self.project_tasks@.take(k as int));
                        assert(self.project_tasks@.take(k + 1).last()
                            == self.project_tasks@[k as int]);
                    }
                    let t = &self.project_tasks[k];
                    if t.project_id != id {
                        kept.push(t.duplicate());
                    }
                    k = k + 1;
                }
                proof {
                    assert(self.project_tasks@.take(self.project_tasks@.len() as int)
                        =~= self.project_tasks@);
                }
                self.project_tasks = kept;
                proof {
                    old(self).projects@.remove_ensures(i as int);
                    assert(crate::store::table_ok(self.projects@, self.next_id)) by {
                        assert(forall|j: int|
                            0 <= j < self.projects@.len() ==> self.projects@[j] == (if j < i {
                                old(self).projects@[j]
                            } else {
                                old(self).projects@[j + 1]
                            }));
                    }
                    lemma_surviving_wf(old(self).project_tasks@, id);
                    assert(crate::store::table_ok(self.project_tasks@, self.next_id)) by {
                        assert(forall|j: int|
                            0 <= j < self.project_tasks@.len() ==> old(self).project_tasks@.contains(#[trigger] self.project_tasks@[j]));
                    }
                }
                Ok(())
            },
        }
    }

    /// The tasks of one project, in storage order.
    pub fn list_project_tasks(&self, project_id: i64) -> (r: Vec<ProjectTask>)
        ensures
            r@ == owned_by(self.project_tasks@, project_id),
    {
        let mut r: Vec<ProjectTask> = Vec::new();
        let mut k: usize = 0;
        while k < self.project_tasks.len()
            invariant
                k <= self.project_tasks@.len(),
                r@ == owned_by(self.project_tasks@.take(k as int), project_id),
            decreases self.project_tasks@.len() - k,
        {
            proof {
                assert(self.project_tasks@.take(k + 1).drop_last() =~= self.project_tasks@.take(
                    k as int,
                ));
                assert(self.project_tasks@.take(k + 1).last() == self.project_tasks@[k as int]);
            }
            let t = &self.project_tasks[k];
            if t.project_id == project_id {
                r.push(t.duplicate());
            }
            k = k + 1;
        }
        proof {
            assert(self.project_tasks@.take(self.project_tasks@.len() as int)
                =~= self.project_tasks@);
        }
        r
    }

    /// Creates a project task at the end of its project's scope, not yet
    /// done. An empty title is a validation error and leaves the store
    /// untouched.
    pub fn create_project_task(&mut self, req: CreateProjectTaskRequest, now: &str) -> (r: Result<
        i64,
        StoreError,
    >)
        requires
            old(self).wf(),
            old(self).next_id < i64::MAX,
            max_project_task_order(old(self).project_tasks@, req.project_id) < i64::MAX,
        ensures
            final(self).wf(),
            (r is Err) <==> req.title@.len() == 0,
            r is Err ==> r == Result::<i64, StoreError>::Err(StoreError::Validation) && *final(self)
                == *old(self),
            r matches Ok(id) ==> {
                &&& id == old(self).next_id
                &&& final(self).next_id == old(self).next_id + 1
                &&& final(self).project_tasks@.len() == old(self).project_tasks@.len() + 1
                &&& final(self).project_tasks@.drop_last() == old(self).project_tasks@
                &&& final(self).project_tasks@.last().id == id
                &&& final(self).project_tasks@.last().project_id == req.project_id
                &&& final(self).project_tasks@.last().title == req.title
                &&& final(self).project_tasks@.last().done == false
                &&& final(self).project_tasks@.last().order as int == max_project_task_order(
                    old(self).project_tasks@,
                    req.project_id,
                ) + 1
                &&& final(self).project_tasks@.last().created_at@ == now@
                &&& final(self).project_tasks@.last().updated_at@ == now@
                &&& final(self).airdrops@ == old(self).airdrops@
                &&& final(self).airdrop_types@ == old(self).airdrop_types@
                &&& final(self).airdrop_daily_tasks@ == old(self).airdrop_daily_tasks@
                &&& final(self).projects@ == old(self).projects@
                &&& final(self).ideas@ == old(self).ideas@
                &&& final(self).house_items@ == old(self).house_items@
            },
    {
        if req.title.as_str().unicode_len() == 0 {
            return Err(StoreError::Validation);
        }
        let id = self.next_id;
        let order = next_project_task_order(&self.project_tasks, req.project_id);
        let record = ProjectTask {
            id,
            project_id: req.project_id,
            title: req.title,
            done: false,
            order,
            created_at: String::from_str(now),
            updated_at: String::from_str(now),
        };
        self.project_tasks.push(record);
        self.next_id = id + 1;
        proof {
            assert(self.project_tasks@.drop_last() =~= old(self).project_tasks@);
        }
        Ok(id)
    }

    /// Applies a sparse update to one project task. A present-but-empty
    /// title is a validation error; an unknown id is a not-found error;
    /// either error leaves the store untouched.
    pub fn update_project_task(&mut self, req: UpdateProjectTaskRequest, now: &str) -> (r: Result<
        (),
        StoreError,
    >)
        requires
            old(self).wf(),
        ensures
            final(self).wf(),
            final(self).next_id == old(self).next_id,
            final(self).airdrops@ == old(self).airdrops@,
            final(self).airdrop_types@ == old(self).airdrop_types@,
            final(self).airdrop_daily_tasks@ == old(self).airdrop_daily_tasks@,
            final(self).projects@ == old(self).projects@,
            final(self).ideas@ == old(self).ideas@,
            final(self).house_items@ == old(self).house_items@,
            (r == Result::<(), StoreError>::Err(StoreError::Validation)) <==> blank_field(
                req.title,
            ),
            !blank_field(req.title) ==> ((r == Result::<(), StoreError>::Err(StoreError::NotFound))
                <==> (forall|j: int|
                0 <= j < old(self).project_tasks@.len() ==> old(self).project_tasks@[j].id
                    != req.id)),
            r is Err ==> *final(self) == *old(self),
            r is Ok ==> exists|i: int|
                #![auto]
                {
                    &&& 0 <= i < old(self).project_tasks@.len()
                    &&& old(self).project_tasks@[i].id == req.id
                    &&& final(self).project_tasks@.len() == old(self).project_tasks@.len()
                    &&& patched_project_task(
                        old(self).project_tasks@[i],
                        final(self).project_tasks@[i],
                        req,
                        now@,
                    )
                    &&& forall|j: int|
                        0 <= j < old(self).project_tasks@.len() && j != i ==> final(self).project_tasks@[j] == old(self).project_tasks@[j]
                },
    {
        if let Some(t) = &req.title {
            if t.as_str().unicode_len() == 0 {
                return Err(StoreError::Validation);
            }
        }
        match find_by_id(&self.project_tasks, req.id) {
            None => Err(StoreError::NotFound),
            Some(i) => {
                let pre = &self.project_tasks[i];
                let record = ProjectTask {
                    id: pre.id,
                    project_id: pre.project_id,
                    title: match req.title {
                        Some(t) => t,
                        None => pre.title.clone(),
                    },
                    done: match req.done {
                        Some(d) => d,
                        None => pre.done,
                    },
                    order: match req.order {
                        Some(o) => o,
                        None => pre.order,
                    },
                    created_at: pre.created_at.clone(),
                    updated_at: String::from_str(now),
                };
                self.project_tasks.set(i, record);
                proof {
                    assert(forall|j: int|
                        0 <= j < self.project_tasks@.len() ==> self.project_tasks@[j].key() == old(self).project_tasks@[j].key());
                }
                Ok(())
            },
        }
    }

    /// Deletes one project task. An unknown id is a not-found error and
    /// leaves the store untouched.
    pub fn delete_project_task(&mut self, id: i64) -> (r: Result<(), StoreError>)
        requires
            old(self).wf(),
        ensures
            final(self).wf(),
            final(self).next_id == old(self).next_id,
            final(self).airdrops@ == old(self).airdrops@,
            final(self).airdrop_types@ == old(self).airdrop_types@,
            final(self).airdrop_daily_tasks@ == old(self).airdrop_daily_tasks@,
            final(self).projects@ == old(self).projects@,
            final(self).ideas@ == old(self).ideas@,
            final(self).house_items@ == old(self).house_items@,
            (r is Err) <==> (forall|j: int|
                0 <= j < old(self).project_tasks@.len() ==> old(self).project_tasks@[j].id != id),
            r is Err ==> r == Result::<(), StoreError>::Err(StoreError::NotFound) && *final(self)
                == *old(self),
            r is Ok ==> exists|i: int|
                #![auto]
                {
                    &&& 0 <= i < old(self).project_tasks@.len()
                    &&& old(self).project_tasks@[i].id == id
                    &&& final(self).project_tasks@ == old(self).project_tasks@.remove(i)
                },
    {
        match find_by_id(&self.project_tasks, id) {
            None => Err(StoreError::NotFound),
            Some(i) => {
                self.project_tasks.remove(i);
                proof {
                    old(self).project_tasks@.remove_ensures(i as int);
                    assert(crate::store::table_ok(self.project_tasks@, self.next_id)) by {
                        assert(forall|j: int|
                            0 <= j < self.project_tasks@.len() ==> self.project_tasks@[j] == (if j
                                < i {
                                old(self).project_tasks@[j]
                            } else {
                                old(self).project_tasks@[j + 1]
                            }));
                    }
                }
                Ok(())
            },
        }
    }
}

} // verus!
