use boundless_agent::table::RequestTable;

#[test]
fn a_key_leads_to_its_last_value() {
    let mut table: RequestTable<u32> = RequestTable::new();
    assert_eq!(table.get("a"), None);
    table.insert("a".to_string(), 1);
    table.insert("b".to_string(), 2);
    table.insert("a".to_string(), 3);
    assert_eq!(table.get("a"), Some(&3));
    assert_eq!(table.get("b"), Some(&2));
    assert_eq!(table.places(), 2);
    let mut values: Vec<u32> = (0..table.places()).map(|i| *table.entry(i)).collect();
    values.sort();
    assert_eq!(values, vec![2, 3]);
}

#[test]
fn a_removed_key_leads_nowhere() {
    let mut table: RequestTable<u32> = RequestTable::new();
    for (key, value) in [("a", 1), ("b", 2), ("c", 3)] {
        table.insert(key.to_string(), value);
    }
    assert_eq!(table.remove("b"), Some(2));
    assert_eq!(table.remove("b"), None);
    assert_eq!(table.get("b"), None);
    assert_eq!(table.get("a"), Some(&1));
    assert_eq!(table.get("c"), Some(&3));
    table.clear();
    assert_eq!(table.places(), 0);
    assert_eq!(table.get("a"), None);
}
