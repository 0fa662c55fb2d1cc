//! Status parsing, sparse updates, validation and error surfacing across
//! the entity kinds.

use praetor_desk::house::{CreateHouseItemRequest, UpdateHouseItemRequest};
use praetor_desk::ideas::{CreateIdeaRequest, UpdateIdeaRequest};
use praetor_desk::airdrops::{CreateAirdropRequest, CreateAirdropTypeRequest, UpdateAirdropRequest};
use praetor_desk::projects::{CreateProjectRequest, CreateProjectTaskRequest, UpdateProjectRequest};
use praetor_desk::status::ProjectStatus;
use praetor_desk::store::Store;
use praetor_desk::StoreError;

const NOW: &str = "2024-05-01T10:00:00+00:00";
const LATER: &str = "2024-06-01T10:00:00+00:00";

#[test]
fn status_words_round_trip() {
    for st in [
        ProjectStatus::Active,
        ProjectStatus::Paused,
        ProjectStatus::Completed,
        ProjectStatus::Archived,
    ] {
        assert_eq!(ProjectStatus::from_str(st.as_str()), Ok(st));
    }
    assert_eq!(ProjectStatus::Active.as_str(), "active");
    assert_eq!(ProjectStatus::Archived.as_str(), "archived");
}

#[test]
fn status_parsing_ignores_ascii_case() {
    assert_eq!(ProjectStatus::from_str("Active"), Ok(ProjectStatus::Active));
    assert_eq!(ProjectStatus::from_str("PAUSED"), Ok(ProjectStatus::Paused));
    assert_eq!(
        ProjectStatus::from_str("ComPleTed"),
        Ok(ProjectStatus::Completed)
    );
}

#[test]
fn unrecognized_status_is_a_validation_error() {
    assert_eq!(
        ProjectStatus::from_str("done"),
        Err(StoreError::Validation)
    );
    assert_eq!(ProjectStatus::from_str(""), Err(StoreError::Validation));
    assert_eq!(
        ProjectStatus::from_str("activex"),
        Err(StoreError::Validation)
    );
}

#[test]
fn create_project_defaults_to_active_and_rejects_junk_status() {
    let mut store = Store::new();
    let id = store
        .create_project(
            CreateProjectRequest {
                name: "P".to_string(),
                description: None,
                status: None,
            },
            NOW,
        )
        .unwrap();
    assert_eq!(store.list_projects()[0].id, id);
    assert!(matches!(
        store.list_projects()[0].status,
        ProjectStatus::Active
    ));
    let r = store.create_project(
        CreateProjectRequest {
            name: "Q".to_string(),
            description: None,
            status: Some("launched".to_string()),
        },
        NOW,
    );
    assert_eq!(r, Err(StoreError::Validation));
    assert_eq!(store.list_projects().len(), 1);
}

#[test]
fn update_project_patches_only_present_fields() {
    let mut store = Store::new();
    let id = store
        .create_project(
            CreateProjectRequest {
                name: "P".to_string(),
                description: Some("old".to_string()),
                status: Some("paused".to_string()),
            },
            NOW,
        )
        .unwrap();
    store
        .update_project(
            UpdateProjectRequest {
                id,
                name: None,
                description: None,
                status: Some("Completed".to_string()),
            },
            LATER,
        )
        .unwrap();
    let p = &store.list_projects()[0];
    assert_eq!(p.name, "P");
    assert_eq!(p.description.as_deref(), Some("old"));
    assert!(matches!(p.status, ProjectStatus::Completed));
    assert_eq!(p.created_at, NOW);
    assert_eq!(p.updated_at, LATER);
}

#[test]
fn update_unknown_project_is_not_found() {
    let mut store = Store::new();
    let r = store.update_project(
        UpdateProjectRequest {
            id: 12,
            name: Some("x".to_string()),
            description: None,
            status: None,
        },
        NOW,
    );
    assert_eq!(r, Err(StoreError::NotFound));
}

#[test]
fn delete_project_cascades_to_its_tasks() {
    let mut store = Store::new();
    let p1 = store
        .create_project(
            CreateProjectRequest {
                name: "P".to_string(),
                description: None,
                status: None,
            },
            NOW,
        )
        .unwrap();
    let p2 = store
        .create_project(
            CreateProjectRequest {
                name: "Q".to_string(),
                description: None,
                status: None,
            },
            NOW,
        )
        .unwrap();
    store
        .create_project_task(
            CreateProjectTaskRequest {
                project_id: p1,
                title: "gone".to_string(),
                order: 0,
            },
            NOW,
        )
        .unwrap();
    let keep = store
        .create_project_task(
            CreateProjectTaskRequest {
                project_id: p2,
                title: "kept".to_string(),
                order: 0,
            },
            NOW,
        )
        .unwrap();
    store.delete_project(p1).unwrap();
    assert!(store.list_project_tasks(p1).is_empty());
    let survivors = store.list_project_tasks(p2);
    assert_eq!(survivors.len(), 1);
    assert_eq!(survivors[0].id, keep);
    assert_eq!(survivors[0].title, "kept");
}

#[test]
fn create_airdrop_requires_a_name() {
    let mut store = Store::new();
    let r = store.create_airdrop(
        CreateAirdropRequest {
            name: String::new(),
            url: "https://example.test".to_string(),
            airdrop_type_id: None,
            chain: None,
            wallet_address: None,
            notes: None,
            active: true,
        },
        NOW,
    );
    assert_eq!(r, Err(StoreError::Validation));
    assert!(store.list_airdrops().is_empty());
}

#[test]
fn update_airdrop_patches_only_present_fields() {
    let mut store = Store::new();
    let id = store
        .create_airdrop(
            CreateAirdropRequest {
                name: "A".to_string(),
                url: "https://one.test".to_string(),
                airdrop_type_id: None,
                chain: Some("base".to_string()),
                wallet_address: None,
                notes: None,
                active: true,
            },
            NOW,
        )
        .unwrap();
    store
        .update_airdrop(
            praetor_desk::airdrops::UpdateAirdropRequest {
                id,
                name: None,
                url: Some("https://two.test".to_string()),
                airdrop_type_id: Some(9),
                chain: None,
                wallet_address: None,
                notes: Some("n".to_string()),
                active: Some(false),
            },
            LATER,
        )
        .unwrap();
    let a = &store.list_airdrops()[0];
    assert_eq!(a.name, "A");
    assert_eq!(a.url, "https://two.test");
    assert_eq!(a.airdrop_type_id, Some(9));
    assert_eq!(a.chain.as_deref(), Some("base"));
    assert_eq!(a.notes.as_deref(), Some("n"));
    assert!(!a.active);
    assert_eq!(a.position, 0);
    assert_eq!(a.created_at, NOW);
    assert_eq!(a.updated_at, LATER);
}

#[test]
fn update_airdrop_rejects_blank_name() {
    let mut store = Store::new();
    let id = store
        .create_airdrop(
            CreateAirdropRequest {
                name: "A".to_string(),
                url: "u".to_string(),
                airdrop_type_id: None,
                chain: None,
                wallet_address: None,
                notes: None,
                active: true,
            },
            NOW,
        )
        .unwrap();
    let r = store.update_airdrop(
        UpdateAirdropRequest {
            id,
            name: Some(String::new()),
            url: None,
            airdrop_type_id: None,
            chain: None,
            wallet_address: None,
            notes: None,
            active: None,
        },
        LATER,
    );
    assert_eq!(r, Err(StoreError::Validation));
    assert_eq!(store.list_airdrops()[0].name, "A");
    assert_eq!(store.list_airdrops()[0].updated_at, NOW);
}

#[test]
fn airdrop_types_are_stored_verbatim() {
    let mut store = Store::new();
    let id = store
        .create_airdrop_type(
            CreateAirdropTypeRequest {
                name: "daily".to_string(),
                default_tasks: "[\"check in\"]".to_string(),
            },
            NOW,
        )
        .unwrap();
    let types = store.list_airdrop_types();
    assert_eq!(types.len(), 1);
    assert_eq!(types[0].id, id);
    assert_eq!(types[0].default_tasks, "[\"check in\"]");
}

#[test]
fn idea_update_without_fields_is_a_silent_no_op() {
    let mut store = Store::new();
    // Even an unknown id succeeds when there is nothing to update.
    let r = store.update_idea(UpdateIdeaRequest {
        id: 99,
        title: None,
        notes: None,
    });
    assert_eq!(r, Ok(()));
    let id = store
        .create_idea(
            CreateIdeaRequest {
                title: "i".to_string(),
                notes: None,
            },
            NOW,
        )
        .unwrap();
    store
        .update_idea(UpdateIdeaRequest {
            id,
            title: None,
            notes: Some("more".to_string()),
        })
        .unwrap();
    assert_eq!(store.list_ideas()[0].notes.as_deref(), Some("more"));
    assert_eq!(store.list_ideas()[0].title, "i");
}

#[test]
fn house_item_lifecycle() {
    let mut store = Store::new();
    let id = store
        .create_house_item(
            CreateHouseItemRequest {
                title: "fix door".to_string(),
                notes: None,
            },
            NOW,
        )
        .unwrap();
    assert!(!store.list_house_items()[0].done);
    store
        .update_house_item(
            UpdateHouseItemRequest {
                id,
                title: None,
                notes: None,
                done: Some(true),
            },
            LATER,
        )
        .unwrap();
    assert!(store.list_house_items()[0].done);
    assert_eq!(store.list_house_items()[0].updated_at, LATER);
    store.delete_house_item(id).unwrap();
    assert!(store.list_house_items().is_empty());
    assert_eq!(store.delete_house_item(id), Err(StoreError::NotFound));
}

#[test]
fn ids_are_assigned_in_order_and_never_reused() {
    let mut store = Store::new();
    let a = store
        .create_idea(
            CreateIdeaRequest {
                title: "a".to_string(),
                notes: None,
            },
            NOW,
        )
        .unwrap();
    let b = store
        .create_house_item(
            CreateHouseItemRequest {
                title: "b".to_string(),
                notes: None,
            },
            NOW,
        )
        .unwrap();
    store.delete_idea(a).unwrap();
    let c = store
        .create_idea(
            CreateIdeaRequest {
                title: "c".to_string(),
                notes: None,
            },
            NOW,
        )
        .unwrap();
    assert_eq!(a, 1);
    assert_eq!(b, 2);
    assert_eq!(c, 3);
}

#[test]
fn update_project_task_patches_only_present_fields() {
    let mut store = Store::new();
    let pid = store
        .create_project(
            CreateProjectRequest {
                name: "P".to_string(),
                description: None,
                status: None,
            },
            NOW,
        )
        .unwrap();
    let tid = store
        .create_project_task(
            CreateProjectTaskRequest {
                project_id: pid,
                title: "t".to_string(),
                order: 0,
            },
            NOW,
        )
        .unwrap();
    store
        .update_project_task(
            praetor_desk::projects::UpdateProjectTaskRequest {
                id: tid,
                title: None,
                done: Some(true),
                order: Some(7),
            },
            LATER,
        )
        .unwrap();
    let tasks = store.list_project_tasks(pid);
    assert_eq!(tasks[0].title, "t");
    assert!(tasks[0].done);
    assert_eq!(tasks[0].order, 7);
    assert_eq!(tasks[0].updated_at, LATER);
    let r = store.update_project_task(
        praetor_desk::projects::UpdateProjectTaskRequest {
            id: tid + 10,
            title: None,
            done: Some(false),
            order: None,
        },
        LATER,
    );
    assert_eq!(r, Err(StoreError::NotFound));
    store.delete_project_task(tid).unwrap();
    assert!(store.list_project_tasks(pid).is_empty());
    assert_eq!(store.delete_project_task(tid), Err(StoreError::NotFound));
}

#[test]
fn blank_present_fields_are_rejected_everywhere() {
    let mut store = Store::new();
    let r = store.create_airdrop_type(
        CreateAirdropTypeRequest {
            name: String::new(),
            default_tasks: "[]".to_string(),
        },
        NOW,
    );
    assert_eq!(r, Err(StoreError::Validation));
    let id = store
        .create_house_item(
            CreateHouseItemRequest {
                title: "h".to_string(),
                notes: None,
            },
            NOW,
        )
        .unwrap();
    let r = store.update_house_item(
        UpdateHouseItemRequest {
            id,
            title: Some(String::new()),
            notes: None,
            done: None,
        },
        LATER,
    );
    assert_eq!(r, Err(StoreError::Validation));
    let r = store.update_idea(UpdateIdeaRequest {
        id: 1,
        title: Some(String::new()),
        notes: None,
    });
    assert_eq!(r, Err(StoreError::Validation));
}

#[test]
fn delete_idea_surfaces_not_found() {
    let mut store = Store::new();
    let id = store
        .create_idea(
            CreateIdeaRequest {
                title: "i".to_string(),
                notes: None,
            },
            NOW,
        )
        .unwrap();
    store.delete_idea(id).unwrap();
    assert!(store.list_ideas().is_empty());
    assert_eq!(store.delete_idea(id), Err(StoreError::NotFound));
}

#[test]
fn error_messages_are_short_and_fixed() {
    assert_eq!(StoreError::Validation.message(), "invalid input");
    assert_eq!(StoreError::NotFound.message(), "not found");
    assert_eq!(StoreError::Persistence.message(), "store failure");
}
