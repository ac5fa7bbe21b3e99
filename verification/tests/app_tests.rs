use blanknet::app::{
    App, CurrentScreen, IpConnection, IpInputStatus, IpList, Key, KeyOutcome, Mode, PingStatus,
    TickAction,
};
use blanknet::config::ConfigError;

fn app() -> App {
    App::new(vec!["lo".to_string(), "wlan0".to_string()], "code".to_string())
}

fn ips(a: &App) -> Vec<String> {
    a.node_table.nodes.iter().map(|n| n.ip.clone()).collect()
}

fn type_text(a: &mut App, text: &str) {
    for c in text.chars() {
        assert_eq!(a.handle_key(Key::Char(c)), KeyOutcome::Continue);
    }
}

#[test]
fn new_app_starts_on_home() {
    let a = app();
    assert_eq!(a.current_screen, CurrentScreen::Home);
    assert_eq!(a.metrics, vec![String::new(); 6]);
    assert_eq!(a.analyzer_code, "code");
    assert_eq!(a.options_idx, 0);
    assert_eq!(a.options[0], "Connection test");
    assert_eq!(a.options[1], "GUSV network metrics");
    assert_eq!(a.options[2], "Something else");
    assert_eq!(a.interface, "");
    assert_eq!(a.interfaces, vec!["lo".to_string(), "wlan0".to_string()]);
    assert_eq!(a.ip_list.items.len(), 9);
    assert_eq!(a.ip_list.items[8].ip, "129.168.1.116");
    assert_eq!(a.ip_list.items[0].conn_status, "_");
    assert_eq!(a.ip_list.selected, None);
    assert_eq!(a.ping_status, PingStatus::Halt);
    assert_eq!(a.node_table.nodes.len(), 9);
    assert_eq!(
        a.node_table.fields,
        vec!["IP".to_string(), "Connection status".to_string()]
    );
    assert_eq!(a.ip_input, "");
    assert_eq!(a.ip_input_status, IpInputStatus::Normal);
    assert_eq!(a.help_scroll, 0);
}

#[test]
fn ip_connection_and_list_keep_pairs() {
    let c = IpConnection::new("1.2.3.4", "_");
    assert_eq!(c.ip, "1.2.3.4");
    assert_eq!(c.conn_status, "_");
    let l = IpList::from_pairs(&[("1.1.1.1", "a"), ("2.2.2.2", "b")]);
    assert_eq!(l.items.len(), 2);
    assert_eq!(l.items[1].ip, "2.2.2.2");
    assert_eq!(l.items[1].conn_status, "b");
    assert_eq!(l.selected, None);
}

#[test]
fn home_menu_wraps_both_ways() {
    let mut a = app();
    a.handle_key(Key::Up);
    assert_eq!(a.options_idx, 2);
    a.handle_key(Key::Down);
    assert_eq!(a.options_idx, 0);
    a.handle_key(Key::Down);
    a.handle_key(Key::Down);
    a.handle_key(Key::Down);
    assert_eq!(a.options_idx, 0);
}

#[test]
fn home_enter_opens_each_entry() {
    let mut a = app();
    a.handle_key(Key::Enter);
    assert_eq!(a.current_screen, CurrentScreen::NodeView(Mode::Normal));
    let mut a = app();
    a.handle_key(Key::Down);
    a.handle_key(Key::Enter);
    assert_eq!(a.current_screen, CurrentScreen::InterfaceView);
    let mut a = app();
    a.handle_key(Key::Up);
    a.handle_key(Key::Enter);
    assert_eq!(a.current_screen, CurrentScreen::Help);
}

#[test]
fn q_twice_quits() {
    let mut a = app();
    assert_eq!(a.handle_key(Key::Char('q')), KeyOutcome::Continue);
    assert_eq!(a.current_screen, CurrentScreen::Exiting);
    assert_eq!(a.handle_key(Key::Char('q')), KeyOutcome::Quit);
}

#[test]
fn other_key_cancels_exit() {
    let mut a = app();
    a.handle_key(Key::Char('q'));
    assert_eq!(a.handle_key(Key::Enter), KeyOutcome::Continue);
    assert_eq!(a.current_screen, CurrentScreen::Home);
}

#[test]
fn interface_choice_opens_metrics() {
    let mut a = app();
    a.handle_key(Key::Down);
    a.handle_key(Key::Enter);
    a.handle_key(Key::Up);
    assert_eq!(a.if_options_idx, 1);
    a.handle_key(Key::Down);
    assert_eq!(a.if_options_idx, 0);
    a.handle_key(Key::Down);
    a.handle_key(Key::Enter);
    assert_eq!(a.current_screen, CurrentScreen::Main);
    assert_eq!(a.interface, "wlan0");
    assert!(matches!(a.tick(), TickAction::SampleRadio));
    a.metrics = vec!["x".to_string(); 6];
    a.handle_key(Key::Char('q'));
    assert_eq!(a.current_screen, CurrentScreen::Home);
    assert_eq!(a.metrics, vec![String::new(); 6]);
}

#[test]
fn interface_q_goes_home() {
    let mut a = app();
    a.handle_key(Key::Down);
    a.handle_key(Key::Enter);
    a.handle_key(Key::Char('q'));
    assert_eq!(a.current_screen, CurrentScreen::Home);
    assert!(matches!(a.tick(), TickAction::Idle));
}

#[test]
fn metrics_screen_idles_without_interface() {
    let mut a = app();
    a.current_screen = CurrentScreen::Main;
    assert!(matches!(a.tick(), TickAction::Idle));
}

#[test]
fn help_scroll_stays_in_range() {
    let mut a = app();
    a.handle_key(Key::Up);
    a.handle_key(Key::Enter);
    a.handle_key(Key::Up);
    assert_eq!(a.help_scroll, 0);
    for _ in 0..25 {
        a.handle_key(Key::Down);
    }
    assert_eq!(a.help_scroll, 20);
    a.handle_key(Key::Up);
    assert_eq!(a.help_scroll, 19);
    a.handle_key(Key::Char('q'));
    assert_eq!(a.current_screen, CurrentScreen::Home);
    assert_eq!(a.ping_status, PingStatus::Halt);
}

#[test]
fn editing_a_node_saves_valid_address() {
    let mut a = app();
    a.handle_key(Key::Enter);
    a.handle_key(Key::Down);
    assert_eq!(a.handle_key(Key::Enter), KeyOutcome::Continue);
    assert_eq!(a.current_screen, CurrentScreen::NodeView(Mode::Edit));
    assert_eq!(a.ip_input, "192.168.1.202");
    a.handle_key(Key::Backspace);
    a.handle_key(Key::Backspace);
    type_text(&mut a, "50");
    assert_eq!(a.ip_input, "192.168.1.250");
    assert_eq!(a.handle_key(Key::Enter), KeyOutcome::SaveConfig);
    assert_eq!(a.current_screen, CurrentScreen::NodeView(Mode::Normal));
    assert_eq!(a.node_table.nodes[1].ip, "192.168.1.250");
    assert_eq!(a.node_table.config_text().contains("192.168.1.250"), true);
}

#[test]
fn refused_address_is_flagged_and_kept_out() {
    let mut a = app();
    a.handle_key(Key::Enter);
    a.handle_key(Key::Enter);
    type_text(&mut a, "9");
    let before = ips(&a);
    assert_eq!(a.handle_key(Key::Enter), KeyOutcome::Continue);
    assert_eq!(a.ip_input_status, IpInputStatus::Error);
    assert_eq!(a.current_screen, CurrentScreen::NodeView(Mode::Edit));
    assert_eq!(ips(&a), before);
    assert_eq!(a.ip_input, "192.168.1.2019");
}

#[test]
fn empty_input_leaves_without_change() {
    let mut a = app();
    a.handle_key(Key::Enter);
    a.handle_key(Key::Enter);
    for _ in 0..20 {
        a.handle_key(Key::Backspace);
    }
    assert_eq!(a.ip_input, "");
    a.ip_input_status = IpInputStatus::Error;
    assert_eq!(a.handle_key(Key::Enter), KeyOutcome::Continue);
    assert_eq!(a.current_screen, CurrentScreen::NodeView(Mode::Normal));
    assert_eq!(a.ip_input_status, IpInputStatus::Normal);
    assert_eq!(a.node_table.nodes[0].ip, "192.168.1.201");
}

#[test]
fn creating_a_node_appends_it() {
    let mut a = app();
    a.handle_key(Key::Enter);
    a.handle_key(Key::Char('c'));
    assert_eq!(a.current_screen, CurrentScreen::NodeView(Mode::Push));
    a.ip_input = String::new();
    type_text(&mut a, "10.1.2.3");
    assert_eq!(a.handle_key(Key::Enter), KeyOutcome::SaveConfig);
    assert_eq!(a.node_table.nodes.len(), 10);
    assert_eq!(a.node_table.nodes[9].ip, "10.1.2.3");
    assert_eq!(a.node_table.nodes[9].conn_status, "-");
}

#[test]
fn deleting_asks_first() {
    let mut a = app();
    a.handle_key(Key::Enter);
    a.handle_key(Key::Char('d'));
    assert_eq!(a.current_screen, CurrentScreen::NodeView(Mode::Delete));
    a.handle_key(Key::Char('x'));
    assert_eq!(a.current_screen, CurrentScreen::NodeView(Mode::Delete));
    a.handle_key(Key::Char('n'));
    assert_eq!(a.current_screen, CurrentScreen::NodeView(Mode::Normal));
    assert_eq!(a.node_table.nodes.len(), 9);
    a.handle_key(Key::Char('d'));
    assert_eq!(a.handle_key(Key::Char('y')), KeyOutcome::SaveConfig);
    assert_eq!(a.node_table.nodes.len(), 8);
    assert_eq!(a.node_table.nodes[0].ip, "192.168.1.202");
    assert_eq!(a.current_screen, CurrentScreen::NodeView(Mode::Normal));
}

#[test]
fn ping_pass_visits_every_node_then_halts() {
    let mut a = app();
    a.handle_key(Key::Enter);
    a.handle_key(Key::Char('p'));
    assert_eq!(a.ping_status, PingStatus::Running(0));
    assert!(a.node_table.nodes.iter().all(|n| n.conn_status == "-"));
    for i in 0..9u32 {
        match a.tick() {
            TickAction::Ping { index, target } => {
                assert_eq!(index, i);
                let expected: Vec<u8> = a.node_table.nodes[i as usize]
                    .ip
                    .split('.')
                    .map(|p| p.parse().unwrap())
                    .collect();
                assert_eq!(target.to_vec(), expected);
                a.record_ping(index, i % 2 == 0);
            }
            _ => panic!("expected a ping"),
        }
    }
    assert_eq!(a.ping_status, PingStatus::Running(9));
    assert!(matches!(a.tick(), TickAction::Idle));
    assert_eq!(a.ping_status, PingStatus::Halt);
    assert_eq!(a.node_table.nodes[0].conn_status, "connected");
    assert_eq!(a.node_table.nodes[1].conn_status, "disconnected");
    a.handle_key(Key::Char('q'));
    assert_eq!(a.current_screen, CurrentScreen::Home);
}

#[test]
fn ping_of_bad_address_is_reported() {
    let mut a = app();
    a.current_screen = CurrentScreen::NodeView(Mode::Normal);
    a.node_table.nodes[0].ip = "not-an-address".to_string();
    a.ping_status = PingStatus::Running(0);
    assert!(matches!(a.tick(), TickAction::BadAddress { index: 0 }));
}

#[test]
fn import_config_replaces_or_keeps_table() {
    let mut a = app();
    assert_eq!(a.import_config(""), Ok(()));
    assert_eq!(a.node_table.nodes.len(), 9);
    assert_eq!(a.import_config("[\"1.1.1.1\"]"), Ok(()));
    assert_eq!(ips(&a), vec!["1.1.1.1"]);
    assert_eq!(a.import_config("[\"nope\"]"), Err(ConfigError::NotIpv4));
    assert_eq!(ips(&a), vec!["1.1.1.1"]);
    assert_eq!(a.import_config("garbage"), Err(ConfigError::Json));
    assert_eq!(a.import_config("[]"), Err(ConfigError::Empty));
}

#[test]
fn deleting_the_only_node_is_refused_and_not_saved() {
    let mut a = app();
    a.import_config("[\"1.1.1.1\"]").unwrap();
    a.handle_key(Key::Enter);
    a.handle_key(Key::Char('d'));
    assert_eq!(a.handle_key(Key::Char('y')), KeyOutcome::Continue);
    assert_eq!(ips(&a), vec!["1.1.1.1"]);
    assert_eq!(a.current_screen, CurrentScreen::NodeView(Mode::Normal));
}

#[test]
fn deletion_is_saved_and_loads_back() {
    let mut a = app();
    a.handle_key(Key::Enter);
    a.handle_key(Key::Down);
    a.handle_key(Key::Char('d'));
    assert_eq!(a.handle_key(Key::Char('y')), KeyOutcome::SaveConfig);
    let saved = a.node_table.config_text();
    assert!(!saved.contains("192.168.1.202"));
    let mut b = app();
    b.import_config(&saved).unwrap();
    assert_eq!(ips(&b), ips(&a));
}
