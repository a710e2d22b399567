use lance_gateway::registry::ConnectionManager;

#[test]
fn cascade_releases_every_table_of_the_connection() {
    let mut m: ConnectionManager<&str, u32> = ConnectionManager::new();
    let c1 = m.insert_connection("first");
    let c2 = m.insert_connection("second");
    assert_ne!(c1, c2);
    let t1 = m.insert_table("a".to_string(), 1, c1.clone());
    let t2 = m.insert_table("b".to_string(), 2, c1.clone());
    let t3 = m.insert_table("c".to_string(), 3, c2.clone());
    assert_eq!(m.get_table(&t1), Some(1));
    assert_eq!(m.get_table_name(&t2), Some("b".to_string()));

    assert_eq!(m.remove_connection(&c1), Some(2));
    assert_eq!(m.get_table(&t1), None);
    assert_eq!(m.get_table(&t2), None);
    assert_eq!(m.get_table_name(&t1), None);
    assert_eq!(m.get_connection(&c1), None);
    assert_eq!(m.get_table(&t3), Some(3));
    assert_eq!(m.get_connection(&c2), Some("second"));
}

#[test]
fn removing_unknown_connection_changes_nothing() {
    let mut m: ConnectionManager<u8, u8> = ConnectionManager::new();
    let c = m.insert_connection(1);
    let t = m.insert_table("t".to_string(), 9, c.clone());
    assert_eq!(m.remove_connection("missing"), None);
    assert_eq!(m.get_table(&t), Some(9));
    assert_eq!(m.get_connection(&c), Some(1));
}

#[test]
fn connection_without_tables_releases_none() {
    let mut m: ConnectionManager<u8, u8> = ConnectionManager::new();
    let c = m.insert_connection(1);
    assert_eq!(m.remove_connection(&c), Some(0));
    assert_eq!(m.remove_connection(&c), None);
}

#[test]
fn drop_table_leaves_connection_and_siblings() {
    let mut m: ConnectionManager<u8, u8> = ConnectionManager::new();
    let c = m.insert_connection(1);
    let a = m.insert_table("a".to_string(), 1, c.clone());
    let b = m.insert_table("b".to_string(), 2, c.clone());
    assert!(m.remove_table(&a));
    assert!(!m.remove_table(&a));
    assert_eq!(m.get_table(&a), None);
    assert_eq!(m.get_table(&b), Some(2));
    assert_eq!(m.get_connection(&c), Some(1));
    assert_eq!(m.remove_connection(&c), Some(1));
}

#[test]
fn handles_are_uuid_text_and_distinct() {
    let mut m: ConnectionManager<u8, u8> = ConnectionManager::new();
    let mut seen = Vec::new();
    for i in 0..20u8 {
        let h = m.insert_connection(i);
        assert_eq!(h.len(), 36);
        assert!(!seen.contains(&h));
        seen.push(h);
    }
    assert_eq!(m.get_connection(&seen[7]), Some(7));
    assert_eq!(m.get_connection("not-a-handle"), None);
}

#[test]
fn handles_are_not_reissued_after_release() {
    let mut m: ConnectionManager<u8, u8> = ConnectionManager::new();
    let mut seen = Vec::new();
    for i in 0..10u8 {
        let c = m.insert_connection(i);
        let t = m.insert_table("t".to_string(), i, c.clone());
        assert_ne!(c, t);
        assert!(!seen.contains(&c) && !seen.contains(&t));
        seen.push(c.clone());
        seen.push(t);
        assert_eq!(m.remove_connection(&c), Some(1));
    }
}
