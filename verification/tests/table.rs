use verilog_analysis::table::Table;

#[test]
fn new_table_is_empty() {
    let table: Table<i32> = Table::new();
    assert!(table.is_empty());
    assert_eq!(table.len(), 0);
    assert!(table.keys().is_empty());
    assert_eq!(table.get("a"), None);
    assert!(!table.contains_key("a"));
}

#[test]
fn inserted_value_is_found_under_its_key() {
    let mut table: Table<i32> = Table::new();
    table.insert("a".to_string(), 8);
    table.insert("b".to_string(), 1);
    assert_eq!(table.get("a"), Some(&8));
    assert_eq!(table.get("b"), Some(&1));
    assert_eq!(table.get("c"), None);
    assert!(table.contains_key("a"));
    assert!(!table.contains_key("c"));
    assert_eq!(table.len(), 2);
    assert!(!table.is_empty());
}

#[test]
fn insert_under_a_filed_key_replaces_the_value_and_keeps_the_place() {
    let mut table: Table<String> = Table::new();
    table.insert("pos clk".to_string(), "q <= a + b".to_string());
    table.insert("neg rst".to_string(), "r <= c | d".to_string());
    table.insert("pos clk".to_string(), "q <= a - b".to_string());
    assert_eq!(table.len(), 2);
    assert_eq!(table.get("pos clk"), Some(&"q <= a - b".to_string()));
    assert_eq!(table.get("neg rst"), Some(&"r <= c | d".to_string()));
    assert_eq!(table.keys(), &vec!["pos clk".to_string(), "neg rst".to_string()]);
}

#[test]
fn keys_come_in_order_of_first_insertion() {
    let mut table: Table<i32> = Table::new();
    for (key, value) in [("z", 1), ("a", 2), ("m", 3), ("a", 4), ("", 5), ("z", 6)] {
        table.insert(key.to_string(), value);
    }
    assert_eq!(
        table.keys(),
        &vec!["z".to_string(), "a".to_string(), "m".to_string(), String::new()]
    );
    let mut values: Vec<i32> = Vec::new();
    for key in table.keys() {
        values.push(*table.get(key).expect("a key of the table is filed"));
    }
    assert_eq!(values, vec![6, 4, 3, 5]);
    assert_eq!(table.len(), table.keys().len());
}
