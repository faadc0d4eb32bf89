use holochain_core::content::{Address, JsonString};
use holochain_core::table::{Key, Table};

fn text(s: &str) -> JsonString {
    JsonString::from_str(s)
}

#[test]
fn new_table_is_empty() {
    let table: Table<String, JsonString> = Table::new();
    assert_eq!(table.len(), 0);
    assert!(!table.contains_key(&"a".to_string()));
    assert!(table.get(&"a".to_string()).is_none());
}

#[test]
fn insert_adds_and_replaces() {
    let mut table: Table<String, JsonString> = Table::new();
    table.insert("a".to_string(), text("1"));
    table.insert("b".to_string(), text("2"));
    assert_eq!(table.len(), 2);
    assert_eq!(table.get(&"a".to_string()), Some(&text("1")));
    assert_eq!(table.get(&"b".to_string()), Some(&text("2")));
    table.insert("a".to_string(), text("3"));
    assert_eq!(table.len(), 2);
    assert_eq!(table.get(&"a".to_string()), Some(&text("3")));
    assert_eq!(table.get(&"b".to_string()), Some(&text("2")));
    assert!(table.contains_key(&"b".to_string()));
    assert!(!table.contains_key(&"c".to_string()));
}

#[test]
fn remove_takes_out_exactly_the_key() {
    let mut table: Table<Address, JsonString> = Table::new();
    table.insert(Address::from_str("x"), text("1"));
    table.insert(Address::from_str("y"), text("2"));
    table.insert(Address::from_str("z"), text("3"));
    table.remove(&Address::from_str("y"));
    assert_eq!(table.len(), 2);
    assert!(table.get(&Address::from_str("y")).is_none());
    assert_eq!(table.get(&Address::from_str("x")), Some(&text("1")));
    assert_eq!(table.get(&Address::from_str("z")), Some(&text("3")));
    table.remove(&Address::from_str("y"));
    table.remove(&Address::from_str("nothing"));
    assert_eq!(table.len(), 2);
    table.remove(&Address::from_str("x"));
    table.remove(&Address::from_str("z"));
    assert_eq!(table.len(), 0);
}

#[test]
fn keys_are_told_apart_by_identity() {
    assert!("a".to_string().same(&"a".to_string()));
    assert!(!"a".to_string().same(&"b".to_string()));
    assert!(Address::from_str("Qm").same(&Address::from_str("Qm")));
    assert!(!Address::from_str("Qm").same(&Address::from_str("Qn")));
    let one = snowflake::ProcessUniqueId::new();
    let two = snowflake::ProcessUniqueId::new();
    assert!(one.same(&one));
    assert!(!one.same(&two));
}
