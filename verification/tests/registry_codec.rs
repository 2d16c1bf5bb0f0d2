use meta_task::codec::{decode_names, encode_names, is_valid_task_name};
use meta_task::controller::{conclude, TransitionKind};
use meta_task::registry::Database;

fn db_with(names: &[&str]) -> Database {
    let mut db = Database::new();
    for n in names {
        conclude(TransitionKind::Create, true, &mut db, n);
    }
    db
}

#[test]
fn encode_of_empty_registry() {
    assert_eq!(Database::new().encode(), "tasks = []\n");
}

#[test]
fn encode_of_two_tasks() {
    let db = db_with(&["feature-x", "bugfix/name_2"]);
    assert_eq!(db.encode(), "tasks = [\"feature-x\", \"bugfix/name_2\"]\n");
}

#[test]
fn decode_of_empty_registry() {
    let db = Database::decode("tasks = []\n").expect("an empty registry file is valid");
    assert_eq!(db.list_tasks().len(), 0);
}

#[test]
fn decode_of_one_task() {
    let db = Database::decode("tasks = [\"feature-x\"]\n").expect("a valid registry file");
    assert!(db.task_exists("feature-x"));
    assert_eq!(db.list_tasks(), vec!["Task: feature-x".to_string()]);
}

#[test]
fn saved_registry_reloads_identically() {
    // Round trip: saving and reloading yields the same names in the same
    // order.
    let db = db_with(&["alpha", "beta-2", "gamma/three"]);
    let text = db.encode();
    let back = Database::decode(text.as_str()).expect("own encoding must decode");
    assert_eq!(back.encode(), text);
    assert_eq!(
        back.list_tasks(),
        vec![
            "Task: alpha".to_string(),
            "Task: beta-2".to_string(),
            "Task: gamma/three".to_string()
        ]
    );
}

#[test]
fn empty_registry_round_trips_too() {
    let db = Database::new();
    let text = db.encode();
    let back = Database::decode(text.as_str()).expect("own encoding must decode");
    assert_eq!(back.encode(), text);
    assert_eq!(back.list_tasks().len(), 0);
}

#[test]
fn decode_refuses_malformed_text() {
    assert!(Database::decode("").is_none());
    assert!(Database::decode("tasks = [").is_none());
    assert!(Database::decode("tasks = []").is_none());
    assert!(Database::decode("tasks = [\"a\"]").is_none());
    assert!(Database::decode("task = [\"a\"]\n").is_none());
    assert!(Database::decode("tasks = [\"a\",\"b\"]\n").is_none());
    assert!(Database::decode("tasks = [\"a\", ]\n").is_none());
    assert!(Database::decode("tasks = [\"\"]\n").is_none());
    assert!(Database::decode("tasks = [\"a b\"]\n").is_none());
}

#[test]
fn decode_refuses_a_repeated_name() {
    assert!(Database::decode("tasks = [\"a\", \"a\"]\n").is_none());
    assert!(Database::decode("tasks = [\"a\", \"b\", \"a\"]\n").is_none());
}

#[test]
fn raw_name_lists_encode_and_decode() {
    let names = vec!["one".to_string(), "two".to_string()];
    let text = encode_names(&names);
    assert_eq!(text, "tasks = [\"one\", \"two\"]\n");
    let back = decode_names(text.as_str()).expect("own encoding must decode");
    assert_eq!(back, names);
}

#[test]
fn name_validity_rules() {
    assert!(is_valid_task_name("feature-x"));
    assert!(is_valid_task_name("a"));
    assert!(is_valid_task_name("A-Z_0/9"));
    assert!(!is_valid_task_name(""));
    assert!(!is_valid_task_name("has space"));
    assert!(!is_valid_task_name("dot.ted"));
    assert!(!is_valid_task_name("co:lon"));
    assert!(!is_valid_task_name("qu\"ote"));
    assert!(!is_valid_task_name("comma,name"));
    assert!(!is_valid_task_name("line\nbreak"));
}

#[test]
fn removal_keeps_the_order_of_the_rest() {
    let mut db = db_with(&["one", "two", "three"]);
    conclude(TransitionKind::Retire, true, &mut db, "two");
    assert_eq!(
        db.list_tasks(),
        vec!["Task: one".to_string(), "Task: three".to_string()]
    );
    assert_eq!(db.encode(), "tasks = [\"one\", \"three\"]\n");
}

#[test]
fn removing_an_unknown_name_changes_nothing() {
    let mut db = db_with(&["one"]);
    conclude(TransitionKind::Retire, true, &mut db, "ghost");
    assert_eq!(db.list_tasks(), vec!["Task: one".to_string()]);
}
