use blanknet::nodetable::{Node, NodeTable, ITEM_HEIGHT};

fn ips(t: &NodeTable) -> Vec<String> {
    t.nodes.iter().map(|n| n.ip.clone()).collect()
}

fn small_table() -> NodeTable {
    NodeTable::from_pairs(vec![
        ("10.0.0.1".to_string(), "a".to_string()),
        ("10.0.0.2".to_string(), "b".to_string()),
        ("10.0.0.3".to_string(), "c".to_string()),
    ])
}

#[test]
fn default_table_holds_the_test_network() {
    let t = NodeTable::default();
    assert_eq!(
        ips(&t),
        vec![
            "192.168.1.201",
            "192.168.1.202",
            "192.168.1.200",
            "192.168.1.110",
            "192.168.1.112",
            "192.168.1.113",
            "192.168.1.114",
            "192.168.1.115",
            "129.168.1.116",
        ]
    );
    assert!(t.nodes.iter().all(|n| n.conn_status == "_"));
    assert_eq!(t.fields, vec!["IP".to_string(), "Connection status".to_string()]);
    assert_eq!(t.get_selected_idx(), 0);
    assert_eq!(t.scroll_length, 8 * ITEM_HEIGHT);
    assert_eq!(t.scroll_position, 0);
}

#[test]
fn new_keeps_fields_and_nodes() {
    let t = NodeTable::new(
        vec!["A".to_string()],
        vec![Node::from_tuple(("1.1.1.1".to_string(), "x".to_string()))],
    );
    assert_eq!(t.fields, vec!["A".to_string()]);
    assert_eq!(ips(&t), vec!["1.1.1.1"]);
    assert_eq!(t.nodes[0].conn_status, "x");
    assert_eq!(t.scroll_length, 0);
}

#[test]
fn next_stops_on_last_row() {
    let mut t = small_table();
    t.next();
    assert_eq!(t.get_selected_idx(), 1);
    assert_eq!(t.scroll_position, 2);
    t.next();
    t.next();
    assert_eq!(t.get_selected_idx(), 2);
    assert_eq!(t.scroll_position, 4);
}

#[test]
fn previous_stops_on_first_row() {
    let mut t = small_table();
    t.previous();
    assert_eq!(t.get_selected_idx(), 0);
    t.next();
    t.next();
    t.previous();
    assert_eq!(t.get_selected_idx(), 1);
    assert_eq!(t.scroll_position, 2);
}

#[test]
fn next_then_previous_returns() {
    let mut t = small_table();
    t.next();
    t.previous();
    assert_eq!(t.get_selected_idx(), 0);
    assert_eq!(t.scroll_position, 0);
}

#[test]
fn update_ip_changes_selected_node_only() {
    let mut t = small_table();
    t.next();
    t.update_ip("8.8.8.8".to_string());
    assert_eq!(ips(&t), vec!["10.0.0.1", "8.8.8.8", "10.0.0.3"]);
    assert_eq!(t.nodes[1].conn_status, "b");
    assert_eq!(t.get_selected_ip(), "8.8.8.8");
}

#[test]
fn update_and_reset_conn_status() {
    let mut t = small_table();
    t.update_conn_status(2, "connected".to_string());
    assert_eq!(t.nodes[2].conn_status, "connected");
    assert_eq!(t.nodes[0].conn_status, "a");
    t.reset_conn_status();
    assert!(t.nodes.iter().all(|n| n.conn_status == "-"));
    assert_eq!(ips(&t), vec!["10.0.0.1", "10.0.0.2", "10.0.0.3"]);
}

#[test]
fn create_appends_with_dash_status() {
    let mut t = small_table();
    t.create_ip("1.2.3.4".to_string());
    assert_eq!(ips(&t), vec!["10.0.0.1", "10.0.0.2", "10.0.0.3", "1.2.3.4"]);
    assert_eq!(t.nodes[3].conn_status, "-");
    assert_eq!(t.get_selected_idx(), 0);
    assert_eq!(t.scroll_length, 6);
}

#[test]
fn delete_removes_and_clamps_selection() {
    let mut t = small_table();
    t.next();
    t.next();
    t.delete_ip(2);
    assert_eq!(ips(&t), vec!["10.0.0.1", "10.0.0.2"]);
    assert_eq!(t.get_selected_idx(), 1);
    assert_eq!(t.scroll_position, 2);
    assert_eq!(t.scroll_length, 2);
    t.delete_ip(0);
    assert_eq!(ips(&t), vec!["10.0.0.2"]);
    assert_eq!(t.get_selected_idx(), 0);
}

#[test]
fn delete_keeps_last_node_and_ignores_missing_index() {
    let mut t = small_table();
    t.delete_ip(7);
    assert_eq!(t.nodes.len(), 3);
    t.delete_ip(0);
    t.delete_ip(0);
    t.delete_ip(0);
    assert_eq!(ips(&t), vec!["10.0.0.3"]);
}

#[test]
fn node_row_shows_address_then_status() {
    let n = Node::from_tuple(("1.2.3.4".to_string(), "connected".to_string()));
    assert_eq!(n.row(), ["1.2.3.4".to_string(), "connected".to_string()]);
}
