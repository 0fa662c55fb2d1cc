//! The persisted record types. Timestamps are kept as the RFC 3339 strings
//! the store holds; the completion dates of a daily task are kept in their
//! stored form, a JSON array of `YYYY-MM-DD` strings.

use vstd::prelude::*;

use crate::status::ProjectStatus;

verus! {

/// A reusable template for the daily tasks of an airdrop. `default_tasks`
/// holds the template body in its serialized JSON form; this module never
/// looks inside it.
#[derive(Debug)]
pub struct AirdropType {
    pub id: i64,
    pub name: String,
    pub default_tasks: String,
    pub created_at: String,
    pub updated_at: String,
}

/// An airdrop being farmed: a top-level orderable record. `position` is
/// unique among all airdrops and defines the display order, ascending.
#[derive(Debug)]
pub struct Airdrop {
    pub id: i64,
    pub name: String,
    pub url: String,
    pub airdrop_type_id: Option<i64>,
    pub chain: Option<String>,
    pub wallet_address: Option<String>,
    pub position: i64,
    pub notes: Option<String>,
    pub active: bool,
    pub created_at: String,
    pub updated_at: String,
}

/// A recurring task of one airdrop. `order` is unique among the tasks of the
/// same airdrop; `done_dates` is the serialized JSON array of the calendar
/// dates on which the task was completed, semantically a set.
#[derive(Debug)]
pub struct AirdropDailyTask {
    pub id: i64,
    pub airdrop_id: i64,
    pub title: String,
    pub order: i64,
    pub done_dates: String,
    pub created_at: String,
    pub updated_at: String,
}

/// A project with a lifecycle status.
#[derive(Debug)]
pub struct Project {
    pub id: i64,
    pub name: String,
    pub description: Option<String>,
    pub status: ProjectStatus,
    pub created_at: String,
    pub updated_at: String,
}

/// A task of one project. `order` is unique among the tasks of the same
/// project.
#[derive(Debug)]
pub struct ProjectTask {
    pub id: i64,
    pub project_id: i64,
    pub title: String,
    pub done: bool,
    pub order: i64,
    pub created_at: String,
    pub updated_at: String,
}

/// A free-form idea. Ideas carry no update timestamp.
#[derive(Debug)]
pub struct Idea {
    pub id: i64,
    pub title: String,
    pub notes: Option<String>,
    pub created_at: String,
}

/// A household chore.
#[derive(Debug)]
pub struct HouseItem {
    pub id: i64,
    pub title: String,
    pub notes: Option<String>,
    pub done: bool,
    pub created_at: String,
    pub updated_at: String,
}

pub(crate) fn copy_opt_string(o: &Option<String>) -> (r: Option<String>)
    ensures
        r == *o,
{
    match o {
        Some(s) => Some(s.clone()),
        None => None,
    }
}

impl AirdropDailyTask {
    /// A field-for-field copy of the record.
    pub fn duplicate(&self) -> (r: AirdropDailyTask)
        ensures
            r == *self,
    {
        AirdropDailyTask {
            id: self.id,
            airdrop_id: self.airdrop_id,
            title: self.title.clone(),
            order: self.order,
            done_dates: self.done_dates.clone(),
            created_at: self.created_at.clone(),
            updated_at: self.updated_at.clone(),
        }
    }
}

impl ProjectTask {
    /// A field-for-field copy of the record.
    pub fn duplicate(&self) -> (r: ProjectTask)
        ensures
            r == *self,
    {
        ProjectTask {
            id: self.id,
            project_id: self.project_id,
            title: self.title.clone(),
            done: self.done,
            order: self.order,
            created_at: self.created_at.clone(),
            updated_at: self.updated_at.clone(),
        }
    }
}

} // verus!
