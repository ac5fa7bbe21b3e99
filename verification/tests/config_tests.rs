use blanknet::config::ConfigError;
use blanknet::nodetable::NodeTable;

fn ips(t: &NodeTable) -> Vec<String> {
    t.nodes.iter().map(|n| n.ip.clone()).collect()
}

#[test]
fn config_text_is_a_json_array_of_addresses() {
    let t = NodeTable::from_pairs(vec![
        ("10.0.0.1".to_string(), "x".to_string()),
        ("192.168.1.7".to_string(), "y".to_string()),
    ]);
    assert_eq!(t.config_text(), "[\"10.0.0.1\",\"192.168.1.7\"]");
}

#[test]
fn saved_config_loads_back() {
    let t = NodeTable::default();
    let text = t.config_text();
    let loaded = NodeTable::load_config(&text).unwrap();
    assert_eq!(ips(&loaded), ips(&t));
    assert!(loaded.nodes.iter().all(|n| n.conn_status == "-"));
    assert_eq!(loaded.get_selected_idx(), 0);
}

#[test]
fn load_config_reads_addresses() {
    let t = NodeTable::load_config("[\"1.2.3.4\", \"5.6.7.8\"]").unwrap();
    assert_eq!(ips(&t), vec!["1.2.3.4", "5.6.7.8"]);
    assert_eq!(t.fields, vec!["IP".to_string(), "Connection status".to_string()]);
}

#[test]
fn load_config_refuses_bad_json() {
    assert_eq!(NodeTable::load_config("not json").err(), Some(ConfigError::Json));
    assert_eq!(NodeTable::load_config("[1, 2]").err(), Some(ConfigError::Json));
    assert_eq!(NodeTable::load_config("{\"a\": 1}").err(), Some(ConfigError::Json));
}

#[test]
fn load_config_refuses_non_addresses() {
    assert_eq!(
        NodeTable::load_config("[\"1.2.3.4\", \"localhost\"]").err(),
        Some(ConfigError::NotIpv4)
    );
    assert_eq!(NodeTable::load_config("[\"1.2.3.256\"]").err(), Some(ConfigError::NotIpv4));
}

#[test]
fn load_config_refuses_empty_list() {
    assert_eq!(NodeTable::load_config("[]").err(), Some(ConfigError::Empty));
}

#[test]
fn from_ip_list_checks_addresses_before_emptiness() {
    assert_eq!(
        NodeTable::from_ip_list(vec!["x".to_string()]).err(),
        Some(ConfigError::NotIpv4)
    );
    assert_eq!(NodeTable::from_ip_list(vec![]).err(), Some(ConfigError::Empty));
    let t = NodeTable::from_ip_list(vec!["9.9.9.9".to_string()]).unwrap();
    assert_eq!(ips(&t), vec!["9.9.9.9"]);
    assert_eq!(t.nodes[0].conn_status, "-");
}

#[test]
fn config_text_escapes_strings() {
    let t = NodeTable::from_pairs(vec![
        ("a\"b\\c".to_string(), "-".to_string()),
        ("\n\t\u{1}\u{8}\u{c}\r\u{1f}é".to_string(), "-".to_string()),
    ]);
    let text = t.config_text();
    assert_eq!(text, "[\"a\\\"b\\\\c\",\"\\n\\t\\u0001\\b\\f\\r\\u001fé\"]");
    let back: Vec<String> = serde_json::from_str(&text).unwrap();
    assert_eq!(back, ips(&t));
}

#[test]
fn config_text_of_one_node() {
    let t = NodeTable::from_pairs(vec![("9.9.9.9".to_string(), "x".to_string())]);
    assert_eq!(t.config_text(), "[\"9.9.9.9\"]");
}
