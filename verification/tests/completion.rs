//! Idempotent daily completion: the date set never records a calendar day
//! twice, however often the caller marks it.

use praetor_desk::airdrops::{CreateAirdropDailyTaskRequest, CreateAirdropRequest};
use praetor_desk::completion::{add_done_date, decode_done_dates, encode_done_dates};
use praetor_desk::store::Store;
use praetor_desk::StoreError;

const NOW: &str = "2024-05-01T10:00:00+00:00";

fn store_with_task() -> (Store, i64) {
    let mut store = Store::new();
    let drop_id = store
        .create_airdrop(
            CreateAirdropRequest {
                name: "A".to_string(),
                url: "https://example.test".to_string(),
                airdrop_type_id: None,
                chain: None,
                wallet_address: None,
                notes: None,
                active: true,
            },
            NOW,
        )
        .unwrap();
    let task_id = store
        .create_airdrop_daily_task(
            CreateAirdropDailyTaskRequest {
                airdrop_id: drop_id,
                title: "check in".to_string(),
                order: 0,
            },
            NOW,
        )
        .unwrap();
    (store, task_id)
}

fn done_dates_of(store: &Store, task_id: i64) -> Vec<String> {
    let tasks = store.list_airdrop_daily_tasks(1);
    let task = tasks.iter().find(|t| t.id == task_id).unwrap();
    decode_done_dates(&task.done_dates)
}

#[test]
fn new_task_has_empty_completion_set() {
    let (store, task_id) = store_with_task();
    assert_eq!(done_dates_of(&store, task_id), Vec::<String>::new());
}

#[test]
fn marking_thrice_records_the_date_once() {
    let (mut store, task_id) = store_with_task();
    for _ in 0..3 {
        assert!(store.mark_task_done_today(task_id, "2024-05-01", NOW).is_ok());
    }
    assert_eq!(done_dates_of(&store, task_id), vec!["2024-05-01".to_string()]);
}

#[test]
fn completion_set_is_a_true_set() {
    let (mut store, task_id) = store_with_task();
    store.mark_task_done_today(task_id, "2024-05-01", NOW).unwrap();
    store.mark_task_done_today(task_id, "2024-05-02", NOW).unwrap();
    store.mark_task_done_today(task_id, "2024-05-01", NOW).unwrap();
    let dates = done_dates_of(&store, task_id);
    assert_eq!(dates.len(), 2);
    assert_eq!(
        dates.iter().filter(|d| d.as_str() == "2024-05-01").count(),
        1
    );
    assert_eq!(
        dates.iter().filter(|d| d.as_str() == "2024-05-02").count(),
        1
    );
}

#[test]
fn marking_stamps_the_update_time_only_on_that_task() {
    let (mut store, task_id) = store_with_task();
    let later = "2024-05-02T08:00:00+00:00";
    store.mark_task_done_today(task_id, "2024-05-02", later).unwrap();
    let tasks = store.list_airdrop_daily_tasks(1);
    let task = tasks.iter().find(|t| t.id == task_id).unwrap();
    assert_eq!(task.updated_at, later);
    assert_eq!(task.created_at, NOW);
}

#[test]
fn marking_unknown_task_is_not_found() {
    let (mut store, task_id) = store_with_task();
    assert_eq!(
        store.mark_task_done_today(task_id + 50, "2024-05-01", NOW),
        Err(StoreError::NotFound)
    );
}

#[test]
fn stored_form_is_a_json_array_of_dates() {
    let (mut store, task_id) = store_with_task();
    {
        let tasks = store.list_airdrop_daily_tasks(1);
        let task = tasks.iter().find(|t| t.id == task_id).unwrap();
        assert_eq!(task.done_dates, "[]");
    }
    store.mark_task_done_today(task_id, "2024-05-01", NOW).unwrap();
    let tasks = store.list_airdrop_daily_tasks(1);
    let task = tasks.iter().find(|t| t.id == task_id).unwrap();
    assert_eq!(task.done_dates, "[\"2024-05-01\"]");
}

#[test]
fn codec_round_trips_and_rejects_junk() {
    let dates = vec!["2024-05-01".to_string(), "2024-06-30".to_string()];
    let text = encode_done_dates(&dates);
    assert_eq!(decode_done_dates(&text), dates);
    assert_eq!(decode_done_dates("not json"), Vec::<String>::new());
    assert_eq!(decode_done_dates("{\"a\":1}"), Vec::<String>::new());
}

#[test]
fn add_done_date_appends_only_new_dates() {
    let mut dates = vec!["2024-05-01".to_string()];
    add_done_date(&mut dates, "2024-05-01");
    assert_eq!(dates, vec!["2024-05-01".to_string()]);
    add_done_date(&mut dates, "2024-05-02");
    assert_eq!(
        dates,
        vec!["2024-05-01".to_string(), "2024-05-02".to_string()]
    );
}
