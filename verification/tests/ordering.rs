//! The ordered-collection protocol: append positions on creation, atomic
//! batch reorder that trusts the caller, and deletion without renumbering.

use praetor_desk::airdrops::{
    sequential_reorder_batch, AirdropOrderItem, CreateAirdropDailyTaskRequest,
    CreateAirdropRequest, ReorderAirdropsRequest,
};
use praetor_desk::projects::{CreateProjectRequest, CreateProjectTaskRequest};
use praetor_desk::store::Store;
use praetor_desk::StoreError;

const NOW: &str = "2024-05-01T10:00:00+00:00";

fn airdrop_req(name: &str) -> CreateAirdropRequest {
    CreateAirdropRequest {
        name: name.to_string(),
        url: "https://example.test".to_string(),
        airdrop_type_id: None,
        chain: None,
        wallet_address: None,
        notes: None,
        active: true,
    }
}

fn position_of(store: &Store, id: i64) -> Option<i64> {
    store
        .list_airdrops()
        .iter()
        .find(|a| a.id == id)
        .map(|a| a.position)
}

#[test]
fn first_airdrop_takes_position_zero_then_one() {
    let mut store = Store::new();
    let a = store.create_airdrop(airdrop_req("A"), NOW).unwrap();
    let b = store.create_airdrop(airdrop_req("B"), NOW).unwrap();
    assert_eq!(position_of(&store, a), Some(0));
    assert_eq!(position_of(&store, b), Some(1));
}

#[test]
fn first_daily_task_takes_order_zero_then_one() {
    let mut store = Store::new();
    let drop_id = store.create_airdrop(airdrop_req("A"), NOW).unwrap();
    let t1 = store
        .create_airdrop_daily_task(
            CreateAirdropDailyTaskRequest {
                airdrop_id: drop_id,
                title: "check in".to_string(),
                order: 99,
            },
            NOW,
        )
        .unwrap();
    let t2 = store
        .create_airdrop_daily_task(
            CreateAirdropDailyTaskRequest {
                airdrop_id: drop_id,
                title: "swap".to_string(),
                order: 99,
            },
            NOW,
        )
        .unwrap();
    let tasks = store.list_airdrop_daily_tasks(drop_id);
    assert_eq!(tasks.iter().find(|t| t.id == t1).unwrap().order, 0);
    assert_eq!(tasks.iter().find(|t| t.id == t2).unwrap().order, 1);
}

#[test]
fn first_project_task_takes_order_zero_then_one() {
    let mut store = Store::new();
    let pid = store
        .create_project(
            CreateProjectRequest {
                name: "P".to_string(),
                description: None,
                status: None,
            },
            NOW,
        )
        .unwrap();
    let t1 = store
        .create_project_task(
            CreateProjectTaskRequest {
                project_id: pid,
                title: "one".to_string(),
                order: 42,
            },
            NOW,
        )
        .unwrap();
    let t2 = store
        .create_project_task(
            CreateProjectTaskRequest {
                project_id: pid,
                title: "two".to_string(),
                order: 42,
            },
            NOW,
        )
        .unwrap();
    let tasks = store.list_project_tasks(pid);
    assert_eq!(tasks.iter().find(|t| t.id == t1).unwrap().order, 0);
    assert_eq!(tasks.iter().find(|t| t.id == t2).unwrap().order, 1);
}

#[test]
fn position_scopes_are_partitioned_by_parent() {
    let mut store = Store::new();
    let d1 = store.create_airdrop(airdrop_req("A"), NOW).unwrap();
    let d2 = store.create_airdrop(airdrop_req("B"), NOW).unwrap();
    let t1 = store
        .create_airdrop_daily_task(
            CreateAirdropDailyTaskRequest {
                airdrop_id: d1,
                title: "a".to_string(),
                order: 0,
            },
            NOW,
        )
        .unwrap();
    let t2 = store
        .create_airdrop_daily_task(
            CreateAirdropDailyTaskRequest {
                airdrop_id: d2,
                title: "b".to_string(),
                order: 0,
            },
            NOW,
        )
        .unwrap();
    let one = store.list_airdrop_daily_tasks(d1);
    let two = store.list_airdrop_daily_tasks(d2);
    assert_eq!(one.len(), 1);
    assert_eq!(two.len(), 1);
    assert_eq!(one[0].id, t1);
    assert_eq!(one[0].order, 0);
    assert_eq!(two[0].id, t2);
    assert_eq!(two[0].order, 0);
}

#[test]
fn reorder_applies_whole_batch() {
    let mut store = Store::new();
    let a = store.create_airdrop(airdrop_req("A"), NOW).unwrap();
    let b = store.create_airdrop(airdrop_req("B"), NOW).unwrap();
    let c = store.create_airdrop(airdrop_req("C"), NOW).unwrap();
    let req = ReorderAirdropsRequest {
        items: vec![
            AirdropOrderItem { id: a, position: 2 },
            AirdropOrderItem { id: b, position: 0 },
            AirdropOrderItem { id: c, position: 1 },
        ],
    };
    assert!(store.reorder_airdrops(&req, NOW).is_ok());
    assert_eq!(position_of(&store, b), Some(0));
    assert_eq!(position_of(&store, c), Some(1));
    assert_eq!(position_of(&store, a), Some(2));
}

#[test]
fn interrupted_reorder_leaves_prior_state_intact() {
    let mut store = Store::new();
    let a = store.create_airdrop(airdrop_req("A"), NOW).unwrap();
    let b = store.create_airdrop(airdrop_req("B"), NOW).unwrap();
    let c = store.create_airdrop(airdrop_req("C"), NOW).unwrap();
    let req = ReorderAirdropsRequest {
        items: vec![
            AirdropOrderItem { id: a, position: 2 },
            AirdropOrderItem { id: b, position: 0 },
            AirdropOrderItem { id: c, position: 1 },
        ],
    };
    // The write for the last batch item fails: nothing may change.
    let r = store.reorder_airdrops_with_fault(&req, NOW, Some(2));
    assert_eq!(r, Err(StoreError::Persistence));
    assert_eq!(position_of(&store, a), Some(0));
    assert_eq!(position_of(&store, b), Some(1));
    assert_eq!(position_of(&store, c), Some(2));
    // A fault located past the batch is never reached: the batch lands.
    let r = store.reorder_airdrops_with_fault(&req, NOW, Some(3));
    assert_eq!(r, Ok(()));
    assert_eq!(position_of(&store, b), Some(0));
    assert_eq!(position_of(&store, c), Some(1));
    assert_eq!(position_of(&store, a), Some(2));
}

#[test]
fn reorder_ignores_unknown_ids() {
    let mut store = Store::new();
    let a = store.create_airdrop(airdrop_req("A"), NOW).unwrap();
    let req = ReorderAirdropsRequest {
        items: vec![
            AirdropOrderItem {
                id: a + 100,
                position: 7,
            },
            AirdropOrderItem { id: a, position: 5 },
        ],
    };
    assert!(store.reorder_airdrops(&req, NOW).is_ok());
    assert_eq!(store.list_airdrops().len(), 1);
    assert_eq!(position_of(&store, a), Some(5));
}

#[test]
fn reorder_omitting_a_member_leaves_it_untouched() {
    let mut store = Store::new();
    let a = store.create_airdrop(airdrop_req("A"), NOW).unwrap();
    let b = store.create_airdrop(airdrop_req("B"), NOW).unwrap();
    let c = store.create_airdrop(airdrop_req("C"), NOW).unwrap();
    let req = ReorderAirdropsRequest {
        items: vec![
            AirdropOrderItem { id: a, position: 9 },
            AirdropOrderItem { id: c, position: 4 },
        ],
    };
    assert!(store.reorder_airdrops(&req, NOW).is_ok());
    assert_eq!(position_of(&store, b), Some(1));
    let untouched = store
        .list_airdrops()
        .iter()
        .find(|x| x.id == b)
        .unwrap();
    assert_eq!(untouched.updated_at, NOW);
}

#[test]
fn delete_does_not_renumber() {
    let mut store = Store::new();
    let a = store.create_airdrop(airdrop_req("A"), NOW).unwrap();
    let b = store.create_airdrop(airdrop_req("B"), NOW).unwrap();
    let c = store.create_airdrop(airdrop_req("C"), NOW).unwrap();
    assert!(store.delete_airdrop(b).is_ok());
    assert_eq!(store.list_airdrops().len(), 2);
    assert_eq!(position_of(&store, a), Some(0));
    assert_eq!(position_of(&store, b), None);
    assert_eq!(position_of(&store, c), Some(2));
}

#[test]
fn sequential_batch_closes_gaps() {
    let mut store = Store::new();
    let a = store.create_airdrop(airdrop_req("A"), NOW).unwrap();
    let b = store.create_airdrop(airdrop_req("B"), NOW).unwrap();
    let c = store.create_airdrop(airdrop_req("C"), NOW).unwrap();
    store.delete_airdrop(b).unwrap();
    let ids = vec![a, c];
    let batch = sequential_reorder_batch(&ids);
    assert_eq!(batch.len(), 2);
    let req = ReorderAirdropsRequest { items: batch };
    assert!(store.reorder_airdrops(&req, NOW).is_ok());
    assert_eq!(position_of(&store, a), Some(0));
    assert_eq!(position_of(&store, c), Some(1));
}

#[test]
fn delete_airdrop_cascades_to_daily_tasks() {
    let mut store = Store::new();
    let d1 = store.create_airdrop(airdrop_req("A"), NOW).unwrap();
    let d2 = store.create_airdrop(airdrop_req("B"), NOW).unwrap();
    store
        .create_airdrop_daily_task(
            CreateAirdropDailyTaskRequest {
                airdrop_id: d1,
                title: "a".to_string(),
                order: 0,
            },
            NOW,
        )
        .unwrap();
    let keep = store
        .create_airdrop_daily_task(
            CreateAirdropDailyTaskRequest {
                airdrop_id: d2,
                title: "b".to_string(),
                order: 0,
            },
            NOW,
        )
        .unwrap();
    assert!(store.delete_airdrop(d1).is_ok());
    assert!(store.list_airdrop_daily_tasks(d1).is_empty());
    let survivors = store.list_airdrop_daily_tasks(d2);
    assert_eq!(survivors.len(), 1);
    assert_eq!(survivors[0].id, keep);
}

#[test]
fn delete_unknown_airdrop_is_not_found() {
    let mut store = Store::new();
    assert_eq!(store.delete_airdrop(7), Err(StoreError::NotFound));
}

#[test]
fn deleting_one_daily_task_leaves_sibling_orders_alone() {
    let mut store = Store::new();
    let d = store.create_airdrop(airdrop_req("A"), NOW).unwrap();
    let mut ids = Vec::new();
    for title in ["one", "two", "three"] {
        ids.push(
            store
                .create_airdrop_daily_task(
                    CreateAirdropDailyTaskRequest {
                        airdrop_id: d,
                        title: title.to_string(),
                        order: 0,
                    },
                    NOW,
                )
                .unwrap(),
        );
    }
    store.delete_airdrop_daily_task(ids[1]).unwrap();
    let tasks = store.list_airdrop_daily_tasks(d);
    assert_eq!(tasks.len(), 2);
    assert_eq!(tasks[0].id, ids[0]);
    assert_eq!(tasks[0].order, 0);
    assert_eq!(tasks[1].id, ids[2]);
    assert_eq!(tasks[1].order, 2);
    assert_eq!(
        store.delete_airdrop_daily_task(ids[1]),
        Err(StoreError::NotFound)
    );
}

#[test]
fn empty_reorder_batch_changes_nothing() {
    let mut store = Store::new();
    let a = store.create_airdrop(airdrop_req("A"), NOW).unwrap();
    let req = ReorderAirdropsRequest { items: Vec::new() };
    assert!(store.reorder_airdrops(&req, "2099-01-01T00:00:00+00:00").is_ok());
    assert_eq!(position_of(&store, a), Some(0));
    assert_eq!(store.list_airdrops()[0].updated_at, NOW);
}
