use sample_entity::entity::Timestamp;
use sample_entity::handler::{
    create_reply, create_text, handle_create, handle_list, list_reply, Reply, TextField,
};
use sample_entity::params::{page_window, parse_param, ListQuery, PageWindow};
use sample_entity::store::{MemoryTable, StoreError};

fn at(micros: i64) -> Timestamp {
    Timestamp { micros }
}

fn query(page: Option<&str>, count: Option<&str>) -> ListQuery {
    ListQuery { page: page.map(|s| s.to_string()), count: count.map(|s| s.to_string()) }
}

fn create(table: &mut MemoryTable, text: &str, micros: i64) {
    let reply = handle_create(table, TextField::Text(text.to_string()), at(micros));
    assert!(matches!(reply, Reply::Created));
}

fn listed(reply: Reply) -> Vec<(u64, String, i64)> {
    match reply {
        Reply::Listing(v) => v.into_iter().map(|e| (e.id, e.text, e.created_at.micros)).collect(),
        other => panic!("expected a listing, got {:?}", other),
    }
}

#[test]
fn create_then_first_page_shows_the_text() {
    let mut t = MemoryTable::new();
    create(&mut t, "earlier", 100);
    create(&mut t, "ユーザー入力値", 250);
    let rows = listed(handle_list(&t, &query(Some("0"), None)));
    assert_eq!(rows[0], (2, "ユーザー入力値".to_string(), 250));
    assert!(rows[0].0 > rows[1].0);
}

#[test]
fn created_at_never_goes_back() {
    let mut t = MemoryTable::new();
    create(&mut t, "a", 500);
    create(&mut t, "b", 300);
    let rows = listed(handle_list(&t, &query(None, None)));
    assert_eq!(rows, vec![(2, "b".to_string(), 500), (1, "a".to_string(), 500)]);
}

#[test]
fn page_holds_at_most_count_newest_first() {
    let mut t = MemoryTable::new();
    for (i, s) in ["a", "b", "c", "d", "e"].iter().enumerate() {
        create(&mut t, s, i as i64);
    }
    let rows = listed(handle_list(&t, &query(Some("0"), Some("3"))));
    let ids: Vec<u64> = rows.iter().map(|r| r.0).collect();
    assert_eq!(ids, vec![5, 4, 3]);
    let rows = listed(handle_list(&t, &query(Some("1"), Some("3"))));
    let ids: Vec<u64> = rows.iter().map(|r| r.0).collect();
    assert_eq!(ids, vec![2, 1]);
}

#[test]
fn offset_past_end_is_empty_not_error() {
    let mut t = MemoryTable::new();
    create(&mut t, "a", 1);
    create(&mut t, "b", 2);
    let reply = handle_list(&t, &query(Some("5"), Some("10")));
    assert_eq!(reply.status(), 200);
    assert!(listed(reply).is_empty());
    assert!(t.list(10, 2).unwrap().is_empty());
}

#[test]
fn count_zero_is_empty() {
    let mut t = MemoryTable::new();
    create(&mut t, "a", 1);
    assert!(listed(handle_list(&t, &query(Some("0"), Some("0")))).is_empty());
}

#[test]
fn missing_text_inserts_nothing_and_succeeds() {
    let mut t = MemoryTable::new();
    create(&mut t, "a", 1);
    let reply = handle_create(&mut t, TextField::Absent, at(2));
    assert!(matches!(reply, Reply::Created));
    assert_eq!(reply.status(), 200);
    assert_eq!(t.len(), 1);
}

#[test]
fn non_string_text_is_stored_as_json_text() {
    let mut t = MemoryTable::new();
    let reply = handle_create(&mut t, TextField::Other("42".to_string()), at(1));
    assert!(matches!(reply, Reply::Created));
    assert_eq!(listed(handle_list(&t, &query(None, None))), vec![(1, "42".to_string(), 1)]);
}

#[test]
fn unparseable_params_act_as_omitted() {
    let omitted = query(None, None).window();
    assert_eq!(omitted, PageWindow { limit: 10, offset: 0 });
    assert_eq!(query(Some("abc"), None).window(), omitted);
    assert_eq!(query(None, Some("ten")).window(), omitted);
    assert_eq!(query(Some("1.5"), Some(" 3")).window(), omitted);
    assert_eq!(query(Some("abc"), Some("4")).window(), query(None, Some("4")).window());
    assert_eq!(query(Some("2"), Some("")).window(), query(Some("2"), None).window());
}

#[test]
fn params_parse_as_decimal_integers() {
    assert_eq!(parse_param(&Some("7".to_string())), Some(7));
    assert_eq!(parse_param(&Some("+12".to_string())), Some(12));
    assert_eq!(parse_param(&Some("-3".to_string())), Some(-3));
    assert_eq!(parse_param(&Some("2147483647".to_string())), Some(2147483647));
    assert_eq!(parse_param(&Some("2147483648".to_string())), None);
    assert_eq!(parse_param(&Some("-".to_string())), None);
    assert_eq!(parse_param(&None), None);
}

#[test]
fn offset_is_count_times_page() {
    assert_eq!(query(Some("3"), Some("7")).window(), PageWindow { limit: 7, offset: 21 });
    assert_eq!(page_window(Some(2), None), PageWindow { limit: 10, offset: 20 });
    assert_eq!(
        page_window(Some(i32::MAX), Some(i32::MAX)),
        PageWindow { limit: i32::MAX, offset: (i32::MAX as i64) * (i32::MAX as i64) }
    );
}

#[test]
fn two_inserts_first_page_of_one() {
    let mut t = MemoryTable::new();
    create(&mut t, "a", 10);
    create(&mut t, "b", 20);
    let rows = listed(handle_list(&t, &query(Some("0"), Some("1"))));
    assert_eq!(rows, vec![(2, "b".to_string(), 20)]);
}

#[test]
fn three_records_second_page_of_one() {
    let mut t = MemoryTable::new();
    create(&mut t, "x", 1);
    create(&mut t, "y", 2);
    create(&mut t, "z", 3);
    let rows = listed(handle_list(&t, &query(Some("1"), Some("1"))));
    assert_eq!(rows, vec![(2, "y".to_string(), 2)]);
}

#[test]
fn negative_window_is_a_query_failure() {
    let mut t = MemoryTable::new();
    create(&mut t, "a", 1);
    let reply = handle_list(&t, &query(Some("-1"), None));
    assert_eq!(reply.status(), 500);
    assert!(matches!(reply, Reply::Failure(_)));
    assert!(matches!(t.list(-1, 0), Err(StoreError::Query(_))));
}

#[test]
fn store_failures_become_server_errors() {
    let reply = create_reply(Err(StoreError::Connection("pool timed out".to_string())));
    assert_eq!(reply.status(), 500);
    match reply {
        Reply::Failure(m) => assert_eq!(m, "pool timed out"),
        other => panic!("unexpected {:?}", other),
    }
    let reply = list_reply(Err(StoreError::Query("bad statement".to_string())));
    match reply {
        Reply::Failure(m) => assert_eq!(m, "bad statement"),
        other => panic!("unexpected {:?}", other),
    }
    assert!(matches!(create_reply(Ok(())), Reply::Created));
    assert_eq!(list_reply(Ok(Vec::new())).status(), 200);
}

#[test]
fn create_text_follows_the_field() {
    assert_eq!(create_text(TextField::Absent), None);
    assert_eq!(create_text(TextField::Text("hi".to_string())), Some("hi".to_string()));
    assert_eq!(create_text(TextField::Other("null".to_string())), Some("null".to_string()));
}
