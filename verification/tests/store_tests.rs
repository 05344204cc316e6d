use auth_gate::errors::Error;
use auth_gate::repo::client::DatabaseClient;
use auth_gate::repo::interface::{DBInterface, StorageRecord};
use auth_gate::repo::mem::MemClient;

fn rec(id: &str, data: u32) -> StorageRecord<u32> {
    StorageRecord { id: id.to_string(), data }
}

#[test]
fn insert_then_select_round_trip() {
    let mut db = MemClient::<u32>::new();
    let inserted = db.insert_record("widgets".to_string(), rec("w1", 7)).unwrap();
    let back = inserted.expect("insert returns the record");
    assert_eq!(back.id, "w1");
    assert_eq!(back.data, 7);
    let rows = db.select("widgets".to_string()).unwrap();
    assert!(rows.iter().any(|r| r.id == "w1" && r.data == 7));
}

#[test]
fn scenario_duplicate_insert_is_a_conflict() {
    let mut db = MemClient::<u32>::new();
    assert!(db.insert_record("widgets".to_string(), rec("w1", 7)).is_ok());
    let second = db.insert_record("widgets".to_string(), rec("w1", 8));
    match second {
        Err(e) => {
            assert!(matches!(&e, Error::RecordAlreadyExists(id) if id == "w1"));
            assert_eq!(e.status_code(), 406);
            assert_eq!(e.response_body(), "Data with w1 already registered");
        },
        Ok(_) => panic!("expected a conflict"),
    }
    // The conflicting insert changed nothing.
    let rows = db.select("widgets".to_string()).unwrap();
    assert_eq!(rows.len(), 1);
    assert_eq!(rows[0].data, 7);
}

#[test]
fn select_of_absent_table_is_empty() {
    let db = MemClient::<u32>::new();
    let rows = db.select("nothing".to_string()).unwrap();
    assert!(rows.is_empty());
}

#[test]
fn tables_are_independent() {
    let mut db = MemClient::<u32>::new();
    db.insert_record("widgets".to_string(), rec("w1", 1)).unwrap();
    db.insert_record("gadgets".to_string(), rec("w1", 2)).unwrap();
    let widgets = db.select("widgets".to_string()).unwrap();
    let gadgets = db.select("gadgets".to_string()).unwrap();
    assert_eq!(widgets.len(), 1);
    assert_eq!(gadgets.len(), 1);
    assert_eq!(widgets[0].data, 1);
    assert_eq!(gadgets[0].data, 2);
}

#[test]
fn update_of_missing_id_is_false_not_an_error() {
    let mut db = MemClient::<u32>::new();
    db.insert_record("widgets".to_string(), rec("w1", 1)).unwrap();
    let changed = db.update_record("w9".to_string(), "widgets".to_string(), &5).unwrap();
    assert!(!changed);
    let rows = db.select("widgets".to_string()).unwrap();
    assert_eq!(rows.len(), 1);
    assert_eq!(rows[0].data, 1);
}

#[test]
fn update_changes_only_the_matching_record() {
    let mut db = MemClient::<u32>::new();
    db.insert_record("widgets".to_string(), rec("w1", 1)).unwrap();
    db.insert_record("widgets".to_string(), rec("w2", 2)).unwrap();
    let changed = db.update_record("w2".to_string(), "widgets".to_string(), &20).unwrap();
    assert!(changed);
    let rows = db.select("widgets".to_string()).unwrap();
    assert_eq!(rows.len(), 2);
    assert!(rows.iter().any(|r| r.id == "w1" && r.data == 1));
    assert!(rows.iter().any(|r| r.id == "w2" && r.data == 20));
}

#[test]
fn delete_removes_exactly_the_named_record() {
    let mut db = MemClient::<u32>::new();
    db.insert_record("widgets".to_string(), rec("w1", 1)).unwrap();
    db.insert_record("widgets".to_string(), rec("w2", 2)).unwrap();
    assert!(db.delete("widgets".to_string(), "w1".to_string()).unwrap());
    let rows = db.select("widgets".to_string()).unwrap();
    assert_eq!(rows.len(), 1);
    assert_eq!(rows[0].id, "w2");
    assert!(!db.delete("widgets".to_string(), "w1".to_string()).unwrap());
}

#[test]
fn select_where_filters_by_id() {
    let mut db = MemClient::<u32>::new();
    db.insert_record("widgets".to_string(), rec("w1", 1)).unwrap();
    db.insert_record("widgets".to_string(), rec("w2", 2)).unwrap();
    let rows = db
        .select_where("widgets".to_string(), "id = w2".to_string(), "*".to_string())
        .unwrap();
    assert_eq!(rows.len(), 1);
    assert_eq!(rows[0].id, "w2");
    assert_eq!(rows[0].data, 2);
}

#[test]
fn select_where_miss_is_success_not_an_error() {
    let mut db = MemClient::<u32>::new();
    db.insert_record("widgets".to_string(), rec("w1", 1)).unwrap();
    let rows = db
        .select_where("widgets".to_string(), "id = w9".to_string(), "*".to_string())
        .unwrap();
    assert!(rows.is_empty());
}

#[test]
fn select_where_refuses_an_unknown_filter() {
    let db = MemClient::<u32>::new();
    let r = db.select_where("widgets".to_string(), "data > 3".to_string(), "*".to_string());
    match r {
        Err(e) => assert!(matches!(e, Error::StorageError(_))),
        Ok(_) => panic!("expected a storage error"),
    }
}

#[test]
fn database_client_dispatches_to_its_backend() {
    let mut db = DatabaseClient::Mem(MemClient::<u32>::new());
    db.insert_record("widgets".to_string(), rec("w1", 7)).unwrap();
    let dup = db.insert_record("widgets".to_string(), rec("w1", 9));
    assert!(matches!(dup, Err(Error::RecordAlreadyExists(_))));
    let rows = db.select("widgets".to_string()).unwrap();
    assert_eq!(rows.len(), 1);
    assert!(db.update_record("w1".to_string(), "widgets".to_string(), &8).unwrap());
    let rows = db
        .select_where("widgets".to_string(), "id = w1".to_string(), "*".to_string())
        .unwrap();
    assert_eq!(rows[0].data, 8);
    assert!(db.delete("widgets".to_string(), "w1".to_string()).unwrap());
    assert!(db.select("widgets".to_string()).unwrap().is_empty());
}
