//! The state of the tool and how it reacts to keys and to idle ticks.
//!
//! The driving program reads a key (or notices that none came within a tick),
//! hands it to `App::handle_key` (or `App::tick`), and performs what comes
//! back: saving the configuration, quitting, pinging a node, or sampling the
//! radio metrics.
use vstd::prelude::*;
use crate::address::{ipv4_text, is_ipv4_text, parse_ipv4};
use crate::config::{config_error, json_string_list, table_of_ips, ConfigError};
use crate::nodetable::{default_fields, default_ips, string_views, next_index, previous_index, Node, NodeTable};

verus! {

/// The sub-mode of the node table screen.
#[derive(PartialEq, Eq, Structural, Clone, Copy, Debug)]
pub enum Mode {
    /// Browsing the table.
    Normal,
    /// Typing a new address for the selected node.
    Edit,
    /// Typing the address of a node to append.
    Push,
    /// Asking whether to delete the selected node.
    Delete,
}

/// The screen that the tool shows.
#[derive(PartialEq, Eq, Structural, Clone, Copy, Debug)]
pub enum CurrentScreen {
    /// Choosing the network interface to sniff on.
    InterfaceView,
    /// The table of nodes of the connection test.
    NodeView(Mode),
    /// The help text.
    Help,
    /// The start menu.
    Home,
    /// The radio metrics.
    Main,
    /// Asking whether to quit.
    Exiting,
}

/// Whether a ping pass over the table runs, and at which node it stands.
#[derive(PartialEq, Eq, Structural, Clone, Copy, Debug)]
pub enum PingStatus {
    Halt,
    Running(u32),
}

/// Whether the typed address was refused.
#[derive(PartialEq, Eq, Structural, Clone, Copy, Debug)]
pub enum IpInputStatus {
    Normal,
    Error,
}

/// A key that the tool reacts to.
#[derive(PartialEq, Eq, Structural, Clone, Copy, Debug)]
pub enum Key {
    Char(char),
    Enter,
    Backspace,
    Up,
    Down,
    /// Any other key.
    Other,
}

/// What the driving program does after a key.
#[derive(PartialEq, Eq, Structural, Clone, Copy, Debug)]
pub enum KeyOutcome {
    /// Nothing more.
    Continue,
    /// Write the table's configuration text to the configuration file.
    SaveConfig,
    /// Leave the tool.
    Quit,
}

/// What the driving program does when no key came within a tick.
pub enum TickAction {
    /// Nothing.
    Idle,
    /// Ping the node at `index`, whose address is `target`, then report with
    /// `App::record_ping`.
    Ping { index: u32, target: [u8; 4] },
    /// The node at `index` holds no IPv4 address, so it cannot be pinged.
    BadAddress { index: u32 },
    /// Sample the radio metrics on the chosen interface.
    SampleRadio,
}

/// An address and the status of its last test.
#[derive(Debug)]
pub struct IpConnection {
    pub ip: String,
    pub conn_status: String,
}

impl IpConnection {
    /// A connection entry from an address and a status.
    pub fn new(ip: &str, conn_status: &str) -> (r: Self)
        ensures
            r.ip@ == ip@,
            r.conn_status@ == conn_status@,
    {
        IpConnection { ip: ip.to_owned(), conn_status: conn_status.to_owned() }
    }
}

/// A list of connection entries and its selection (none at first).
pub struct IpList {
    pub items: Vec<IpConnection>,
    pub selected: Option<usize>,
}

impl IpList {
    /// One entry per (address, status) pair, in order, with nothing selected.
    pub fn from_pairs(pairs: &[(&str, &str)]) -> (r: Self)
        ensures
            r.items@.len() == pairs@.len(),
            forall|i: int|
                0 <= i < pairs@.len() ==> (#[trigger] r.items@[i]).ip@ == pairs@[i].0@
                    && r.items@[i].conn_status@ == pairs@[i].1@,
            r.selected is None,
    {
        let mut items: Vec<IpConnection> = Vec::new();
        let mut i: usize = 0;
        while i < pairs.len()
            invariant
                i <= pairs@.len(),
                items@.len() == i,
                forall|j: int|
                    0 <= j < i ==> (#[trigger] items@[j]).ip@ == pairs@[j].0@
                        && items@[j].conn_status@ == pairs@[j].1@,
            decreases pairs@.len() - i,
        {
            let (ip, status) = pairs[i];
            items.push(IpConnection::new(ip, status));
            i = i + 1;
        }
        IpList { items, selected: None }
    }
}

/// Number of entries of the start menu.
pub const MENU_LEN: u32 = 3;

/// Number of radio metrics that the metrics screen shows.
pub const METRIC_COUNT: usize = 6;

/// How far the help text scrolls down.
pub const HELP_SCROLL_MAX: u16 = 20;

/// The state of the tool.
pub struct App {
    pub current_screen: CurrentScreen,
    /// The shown values of the radio metrics, in the order of their labels.
    pub metrics: Vec<String>,
    /// The source of the Python sniffer.
    pub analyzer_code: String,
    /// The highlighted entry of the start menu.
    pub options_idx: u32,
    /// The entries of the start menu.
    pub options: [String; 3],
    /// The interface chosen for sniffing; empty until one is chosen.
    pub interface: String,
    /// The highlighted entry of the interface list.
    pub if_options_idx: u32,
    /// The network interfaces of the machine.
    pub interfaces: Vec<String>,
    pub ip_list: IpList,
    pub ping_status: PingStatus,
    pub node_table: NodeTable,
    /// The address being typed.
    pub ip_input: String,
    pub ip_input_status: IpInputStatus,
    /// How many lines the help text is scrolled down.
    pub help_scroll: u16,
}

/// The entry highlighted after moving down from `i` in a list of `n`: the
/// next one, wrapping to the first.
pub open spec fn menu_down(i: int, n: int) -> int {
    (i + 1) % n
}

/// The entry highlighted after moving up from `i` in a list of `n`: the one
/// before, wrapping to the last.
pub open spec fn menu_up(i: int, n: int) -> int {
    if i == 0 {
        n - 1
    } else {
        i - 1
    }
}

/// The help scroll after a step down: one line more, up to the maximum.
pub open spec fn help_scroll_down(s: int) -> int {
    if s != HELP_SCROLL_MAX {
        s + 1
    } else {
        HELP_SCROLL_MAX as int
    }
}

/// The help scroll after a step up: one line less, down to zero.
pub open spec fn help_scroll_up(s: int) -> int {
    if s != 0 {
        s - 1
    } else {
        0
    }
}

/// The metrics shown before any sample: six empty values.
pub open spec fn metrics_cleared(m: Vec<String>) -> bool {
    &&& m@.len() == METRIC_COUNT
    &&& forall|i: int| 0 <= i < METRIC_COUNT ==> (#[trigger] m@[i])@ == Seq::<char>::empty()
}

/// The screen that the start menu's `Enter` opens from entry `i`.
pub open spec fn menu_target(i: int) -> CurrentScreen {
    if i == 0 {
        CurrentScreen::NodeView(Mode::Normal)
    } else if i == 1 {
        CurrentScreen::InterfaceView
    } else if i == 2 {
        CurrentScreen::Help
    } else {
        CurrentScreen::Main
    }
}

/// `b` is `a` with the selection of the table moved to `sel`.
pub open spec fn table_selects(a: NodeTable, b: NodeTable, sel: int) -> bool {
    &&& b.wf()
    &&& b.fields == a.fields
    &&& b.nodes == a.nodes
    &&& b.selection() == sel
}

/// `b` is `a` with the address of the selected node set to `ip`.
pub open spec fn table_ip_updated(a: NodeTable, b: NodeTable, ip: String) -> bool {
    &&& b.wf()
    &&& b.fields == a.fields
    &&& b.selection() == a.selection()
    &&& b.nodes@ == a.nodes@.update(
        a.selection(),
        Node { ip: ip, conn_status: a.nodes@[a.selection()].conn_status },
    )
}

/// `b` is `a` with a node of address `ip` and status "-" appended.
pub open spec fn table_ip_created(a: NodeTable, b: NodeTable, ip: String) -> bool {
    &&& b.wf()
    &&& b.fields == a.fields
    &&& b.selection() == a.selection()
    &&& b.nodes@.len() == a.nodes@.len() + 1
    &&& b.nodes@.drop_last() == a.nodes@
    &&& b.nodes@.last().ip == ip
    &&& b.nodes@.last().conn_status@ == "-"@
}

/// `b` is `a` without its selected node, unless that is the only node; the
/// selection keeps its index, or moves to the new last row.
pub open spec fn table_selected_deleted(a: NodeTable, b: NodeTable) -> bool {
    let n = a.nodes@.len();
    &&& b.wf()
    &&& b.fields == a.fields
    &&& if n > 1 {
        &&& b.nodes@ == a.nodes@.remove(a.selection())
        &&& b.selection() == if a.selection() >= n - 1 {
            n - 2
        } else {
            a.selection()
        }
    } else {
        &&& b.nodes@ == a.nodes@
        &&& b.selection() == a.selection()
    }
}

/// `b` is `a` with the status of every node set to "-".
pub open spec fn table_statuses_reset(a: NodeTable, b: NodeTable) -> bool {
    &&& b.wf()
    &&& b.fields == a.fields
    &&& b.selection() == a.selection()
    &&& b.nodes@.len() == a.nodes@.len()
    &&& forall|i: int|
        0 <= i < a.nodes@.len() ==> (#[trigger] b.nodes@[i]).ip == a.nodes@[i].ip
            && b.nodes@[i].conn_status@ == "-"@
}

/// `b` is `a` with the status of the node at `idx` set to `status`.
pub open spec fn table_status_set(a: NodeTable, b: NodeTable, idx: int, status: Seq<char>) -> bool {
    &&& b.wf()
    &&& b.fields == a.fields
    &&& b.selection() == a.selection()
    &&& b.nodes@.len() == a.nodes@.len()
    &&& forall|i: int| 0 <= i < a.nodes@.len() && i != idx ==> #[trigger] b.nodes@[i] == a.nodes@[i]
    &&& b.nodes@[idx].ip == a.nodes@[idx].ip
    &&& b.nodes@[idx].conn_status@ == status
}

/// What a key does on the screen where a node is about to be deleted:
/// `y` deletes the selected node and, when one was removed, asks for the
/// configuration to be saved; `n` keeps it; both go back to browsing.
pub open spec fn delete_key_effect(a: App, key: Key, b: App, out: KeyOutcome) -> bool {
    if key == Key::Char('y') {
        &&& b == App { node_table: b.node_table, current_screen: CurrentScreen::NodeView(Mode::Normal), ..a }
        &&& table_selected_deleted(a.node_table, b.node_table)
        &&& out == if a.node_table.nodes@.len() > 1 {
            KeyOutcome::SaveConfig
        } else {
            KeyOutcome::Continue
        }
    } else if key == Key::Char('n') {
        out == KeyOutcome::Continue && b == App { current_screen: CurrentScreen::NodeView(Mode::Normal), ..a }
    } else {
        out == KeyOutcome::Continue && b == a
    }
}

/// What a key does while an address is typed (`push` when it will be
/// appended, else it replaces the selected node's address).
///
/// `Enter` takes a valid address into the table and asks for the
/// configuration to be saved; with nothing typed it just leaves; otherwise it
/// marks the input as refused and changes nothing else.
pub open spec fn input_key_effect(a: App, key: Key, b: App, out: KeyOutcome, push: bool) -> bool {
    if key == Key::Enter {
        if is_ipv4_text(a.ip_input@) {
            &&& out == KeyOutcome::SaveConfig
            &&& b == App {
                node_table: b.node_table,
                ip_input_status: IpInputStatus::Normal,
                current_screen: CurrentScreen::NodeView(Mode::Normal),
                ..a
            }
            &&& if push {
                table_ip_created(a.node_table, b.node_table, a.ip_input)
            } else {
                table_ip_updated(a.node_table, b.node_table, a.ip_input)
            }
        } else if a.ip_input@.len() == 0 {
            &&& out == KeyOutcome::Continue
            &&& b == App {
                ip_input_status: IpInputStatus::Normal,
                current_screen: CurrentScreen::NodeView(Mode::Normal),
                ..a
            }
        } else {
            &&& out == KeyOutcome::Continue
            &&& b == App { ip_input_status: IpInputStatus::Error, ..a }
        }
    } else if key == Key::Backspace {
        &&& out == KeyOutcome::Continue
        &&& b == App { ip_input: b.ip_input, ..a }
        &&& b.ip_input@ == if a.ip_input@.len() > 0 {
            a.ip_input@.drop_last()
        } else {
            a.ip_input@
        }
    } else if key is Char {
        &&& out == KeyOutcome::Continue
        &&& b == App { ip_input: b.ip_input, ..a }
        &&& b.ip_input@ == a.ip_input@.push(key->Char_0)
    } else {
        out == KeyOutcome::Continue && b == a
    }
}

/// What a key does while the table is browsed.
pub open spec fn browse_key_effect(a: App, key: Key, b: App) -> bool {
    if key == Key::Char('q') {
        b == App { current_screen: CurrentScreen::Home, ping_status: PingStatus::Halt, ..a }
    } else if key == Key::Char('p') {
        &&& b == App { node_table: b.node_table, ping_status: PingStatus::Running(0), ..a }
        &&& table_statuses_reset(a.node_table, b.node_table)
    } else if key == Key::Down {
        &&& b == App { node_table: b.node_table, ..a }
        &&& table_selects(
            a.node_table,
            b.node_table,
            next_index(a.node_table.selection(), a.node_table.nodes@.len() as int),
        )
    } else if key == Key::Up {
        &&& b == App { node_table: b.node_table, ..a }
        &&& table_selects(a.node_table, b.node_table, previous_index(a.node_table.selection()))
    } else if key == Key::Char('c') {
        b == App { current_screen: CurrentScreen::NodeView(Mode::Push), ..a }
    } else if key == Key::Char('d') {
        b == App { current_screen: CurrentScreen::NodeView(Mode::Delete), ..a }
    } else if key == Key::Enter {
        b == App {
            ip_input: a.node_table.nodes@[a.node_table.selection()].ip,
            current_screen: CurrentScreen::NodeView(Mode::Edit),
            ..a
        }
    } else {
        b == a
    }
}

/// Leaving the help or metrics screen: back to the start menu, the ping pass
/// halted and the metrics cleared.
pub open spec fn leave_to_home(a: App, b: App) -> bool {
    &&& b == App {
        current_screen: CurrentScreen::Home,
        ping_status: PingStatus::Halt,
        metrics: b.metrics,
        ..a
    }
    &&& metrics_cleared(b.metrics)
}

/// What a key does on the help screen: `q` leaves, the arrows scroll.
pub open spec fn help_key_effect(a: App, key: Key, b: App) -> bool {
    if key == Key::Char('q') {
        leave_to_home(a, b)
    } else if key == Key::Down {
        b == App { help_scroll: help_scroll_down(a.help_scroll as int) as u16, ..a }
    } else if key == Key::Up {
        b == App { help_scroll: help_scroll_up(a.help_scroll as int) as u16, ..a }
    } else {
        b == a
    }
}

/// What a key does on the interface list: `q` goes back, `Enter` chooses the
/// highlighted interface and shows the metrics, the arrows move with wrap-around.
pub open spec fn interface_key_effect(a: App, key: Key, b: App) -> bool {
    let n = a.interfaces@.len() as int;
    if key == Key::Char('q') {
        b == App { current_screen: CurrentScreen::Home, ..a }
    } else if key == Key::Enter {
        b == App {
            current_screen: CurrentScreen::Main,
            interface: a.interfaces@[a.if_options_idx as int],
            ..a
        }
    } else if key == Key::Up {
        b == App { if_options_idx: menu_up(a.if_options_idx as int, n) as u32, ..a }
    } else if key == Key::Down {
        b == App { if_options_idx: menu_down(a.if_options_idx as int, n) as u32, ..a }
    } else {
        b == a
    }
}

/// What a key does on the start menu: `q` asks whether to quit, the arrows
/// move with wrap-around, `Enter` opens the highlighted entry.
pub open spec fn home_key_effect(a: App, key: Key, b: App) -> bool {
    if key == Key::Char('q') {
        b == App { current_screen: CurrentScreen::Exiting, ..a }
    } else if key == Key::Up {
        b == App { options_idx: menu_up(a.options_idx as int, MENU_LEN as int) as u32, ..a }
    } else if key == Key::Down {
        b == App { options_idx: menu_down(a.options_idx as int, MENU_LEN as int) as u32, ..a }
    } else if key == Key::Enter {
        b == App { current_screen: menu_target(a.options_idx as int), ..a }
    } else {
        b == a
    }
}

/// What `key` does to the state `a`, giving `b` and the outcome `out`.
pub open spec fn key_effect(a: App, key: Key, b: App, out: KeyOutcome) -> bool {
    match a.current_screen {
        CurrentScreen::NodeView(Mode::Delete) => delete_key_effect(a, key, b, out),
        CurrentScreen::NodeView(Mode::Edit) => input_key_effect(a, key, b, out, false),
        CurrentScreen::NodeView(Mode::Push) => input_key_effect(a, key, b, out, true),
        CurrentScreen::NodeView(Mode::Normal) => out == KeyOutcome::Continue && browse_key_effect(
            a,
            key,
            b,
        ),
        CurrentScreen::Help => out == KeyOutcome::Continue && help_key_effect(a, key, b),
        CurrentScreen::Main => out == KeyOutcome::Continue && if key == Key::Char('q') {
            leave_to_home(a, b)
        } else {
            b == a
        },
        CurrentScreen::InterfaceView => out == KeyOutcome::Continue && interface_key_effect(
            a,
            key,
            b,
        ),
        CurrentScreen::Home => out == KeyOutcome::Continue && home_key_effect(a, key, b),
        CurrentScreen::Exiting => if key == Key::Char('q') {
            out == KeyOutcome::Quit && b == a
        } else {
            out == KeyOutcome::Continue && b == App { current_screen: CurrentScreen::Home, ..a }
        },
    }
}

/// What an idle tick does to `a`, giving `b` and the action `r`.
///
/// On the table screen, a running ping pass asks for its current node to be
/// pinged, and halts once it has passed the last node. On the metrics screen,
/// a sample is asked for once an interface is chosen.
pub open spec fn tick_effect(a: App, b: App, r: TickAction) -> bool {
    if a.current_screen is NodeView && a.ping_status is Running {
        let idx = a.ping_status->Running_0;
        if idx >= a.node_table.nodes@.len() {
            b == App { ping_status: PingStatus::Halt, ..a } && r is Idle
        } else {
            &&& b == a
            &&& if is_ipv4_text(a.node_table.nodes@[idx as int].ip@) {
                &&& r is Ping
                &&& r->Ping_index == idx
                &&& a.node_table.nodes@[idx as int].ip@ == ipv4_text(r->Ping_target@)
            } else {
                r is BadAddress && r->BadAddress_index == idx
            }
        }
    } else if a.current_screen == CurrentScreen::Main {
        &&& b == a
        &&& if a.interface@.len() == 0 {
            r is Idle
        } else {
            r is SampleRadio
        }
    } else {
        b == a && r is Idle
    }
}

/// The status that a ping's answer gives a node.
pub open spec fn ping_status_text(reachable: bool) -> Seq<char> {
    if reachable {
        "connected"@
    } else {
        "disconnected"@
    }
}

/// `b` is `a` after the answer `reachable` of the ping of node `index`.
pub open spec fn ping_recorded(a: App, b: App, index: u32, reachable: bool) -> bool {
    &&& b == App {
        node_table: b.node_table,
        ping_status: PingStatus::Running((index + 1) as u32),
        ..a
    }
    &&& table_status_set(a.node_table, b.node_table, index as int, ping_status_text(reachable))
}

/// `String::push`: appends `c`.
#[verifier::external_body]
fn push_char(s: &mut String, c: char)
    ensures
        final(s)@ == old(s)@.push(c),
{
    s.push(c)
}

/// `String::pop`: removes and returns the last character, if any.
#[verifier::external_body]
fn pop_char(s: &mut String) -> (r: Option<char>)
    ensures
        old(s)@.len() > 0 ==> r == Some(old(s)@.last()) && final(s)@ == old(s)@.drop_last(),
        old(s)@.len() == 0 ==> r is None && final(s)@ == old(s)@,
{
    s.pop()
}

/// Six empty metric values.
pub fn cleared_metrics() -> (r: Vec<String>)
    ensures
        metrics_cleared(r),
{
    let mut m: Vec<String> = Vec::new();
    let mut i: usize = 0;
    while i < METRIC_COUNT
        invariant
            i <= METRIC_COUNT,
            m@.len() == i,
            forall|j: int| 0 <= j < i ==> (#[trigger] m@[j])@ == Seq::<char>::empty(),
        decreases METRIC_COUNT - i,
    {
        m.push(String::new());
        i = i + 1;
    }
    m
}

impl App {
    /// The invariant of the state: the table is well formed and its rows can
    /// be counted in 32 bits, the highlighted
    /// menu entries exist, the help scroll is within its range, and six metric
    /// values are shown.
    pub open spec fn wf(&self) -> bool {
        &&& self.node_table.wf()
        &&& self.node_table.nodes@.len() <= u32::MAX
        &&& self.options_idx < MENU_LEN
        &&& self.help_scroll <= HELP_SCROLL_MAX
        &&& self.interfaces@.len() <= u32::MAX
        &&& self.interfaces@.len() > 0 ==> self.if_options_idx < self.interfaces@.len()
        &&& self.interfaces@.len() == 0 ==> self.if_options_idx == 0
        &&& self.metrics@.len() == METRIC_COUNT
    }

    /// The state at start: the start menu, the default node table, no ping
    /// pass, nothing typed, no interface chosen among `interfaces`.
    pub fn new(interfaces: Vec<String>, analyzer_code: String) -> (r: App)
        requires
            interfaces@.len() <= u32::MAX,
        ensures
            r.wf(),
            r.current_screen == CurrentScreen::Home,
            metrics_cleared(r.metrics),
            r.analyzer_code == analyzer_code,
            r.options_idx == 0,
            r.options[0]@ == "Connection test"@,
            r.options[1]@ == "GUSV network metrics"@,
            r.options[2]@ == "Something else"@,
            r.interface@ == Seq::<char>::empty(),
            r.if_options_idx == 0,
            r.interfaces == interfaces,
            r.ip_list.items@.len() == 9,
            forall|i: int|
                0 <= i < 9 ==> (#[trigger] r.ip_list.items@[i]).ip@ == default_ips()[i]
                    && r.ip_list.items@[i].conn_status@ == "_"@,
            r.ip_list.selected is None,
            r.ping_status == PingStatus::Halt,
            r.node_table.ips() == default_ips(),
            string_views(r.node_table.fields@) == default_fields(),
            forall|i: int|
                0 <= i < r.node_table.nodes@.len() ==> (#[trigger] r.node_table.nodes@[i]).conn_status@
                    == "_"@,
            r.node_table.selection() == 0,
            r.ip_input@ == Seq::<char>::empty(),
            r.ip_input_status == IpInputStatus::Normal,
            r.help_scroll == 0,
    {
        let pairs = [
            ("192.168.1.201", "_"),
            ("192.168.1.202", "_"),
            ("192.168.1.200", "_"),
            ("192.168.1.110", "_"),
            ("192.168.1.112", "_"),
            ("192.168.1.113", "_"),
            ("192.168.1.114", "_"),
            ("192.168.1.115", "_"),
            ("129.168.1.116", "_"),
        ];
        let ip_list = IpList::from_pairs(&pairs);
        let node_table = NodeTable::default();
        assert(node_table.nodes@.len() == node_table.ips().len());
        let options = [
            "Connection test".to_owned(),
            "GUSV network metrics".to_owned(),
            "Something else".to_owned(),
        ];
        App {
            current_screen: CurrentScreen::Home,
            metrics: cleared_metrics(),
            analyzer_code,
            options_idx: 0,
            if_options_idx: 0,
            options,
            node_table,
            ip_list,
            interfaces,
            interface: String::new(),
            ping_status: PingStatus::Halt,
            ip_input: String::new(),
            ip_input_status: IpInputStatus::Normal,
            help_scroll: 0,
        }
    }

    /// Reacts to `key` on the current screen (see `key_effect`).
    pub fn handle_key(&mut self, key: Key) -> (out: KeyOutcome)
        requires
            old(self).wf(),
            old(self).node_table.nodes@.len() < u32::MAX,
            old(self).node_table.nodes@.len() < usize::MAX / 2,
            old(self).current_screen == CurrentScreen::InterfaceView && (key == Key::Up || key
                == Key::Down || key == Key::Enter) ==> old(self).interfaces@.len() > 0,
        ensures
            final(self).wf(),
            key_effect(*old(self), key, *final(self), out),
    {
        match self.current_screen {
            CurrentScreen::NodeView(Mode::Delete) => {
                match key {
                    Key::Char('y') => {
                        let removed = self.node_table.nodes.len() > 1;
                        let idx = self.node_table.get_selected_idx();
                        self.node_table.delete_ip(idx as u32);
                        self.current_screen = CurrentScreen::NodeView(Mode::Normal);
                        if removed {
                            return KeyOutcome::SaveConfig;
                        }
                    },
                    Key::Char('n') => {
                        self.current_screen = CurrentScreen::NodeView(Mode::Normal);
                    },
                    _ => {},
                }
                KeyOutcome::Continue
            },
            CurrentScreen::NodeView(Mode::Edit) | CurrentScreen::NodeView(Mode::Push) => {
                match key {
                    Key::Enter => {
                        let parsed = parse_ipv4(self.ip_input.as_str());
                        if parsed.is_some() {
                            proof {
                                let a = parsed->0;
                                assert(self.ip_input@ == ipv4_text(a@));
                                assert(is_ipv4_text(self.ip_input@));
                            }
                            if self.current_screen == CurrentScreen::NodeView(Mode::Push) {
                                self.node_table.create_ip(self.ip_input.clone());
                            } else {
                                self.node_table.update_ip(self.ip_input.clone());
                            }
                            self.ip_input_status = IpInputStatus::Normal;
                            self.current_screen = CurrentScreen::NodeView(Mode::Normal);
                            return KeyOutcome::SaveConfig;
                        } else if self.ip_input.as_str().is_empty() {
                            self.ip_input_status = IpInputStatus::Normal;
                            self.current_screen = CurrentScreen::NodeView(Mode::Normal);
                        } else {
                            self.ip_input_status = IpInputStatus::Error;
                        }
                    },
                    Key::Backspace => {
                        pop_char(&mut self.ip_input);
                    },
                    Key::Char(c) => {
                        push_char(&mut self.ip_input, c);
                    },
                    _ => {},
                }
                KeyOutcome::Continue
            },
            CurrentScreen::NodeView(Mode::Normal) => {
                match key {
                    Key::Char('q') => {
                        self.current_screen = CurrentScreen::Home;
                        self.ping_status = PingStatus::Halt;
                    },
                    Key::Char('p') => {
                        self.node_table.reset_conn_status();
                        self.ping_status = PingStatus::Running(0);
                    },
                    Key::Down => {
                        self.node_table.next();
                    },
                    Key::Up => {
                        self.node_table.previous();
                    },
                    Key::Char('c') => {
                        self.current_screen = CurrentScreen::NodeView(Mode::Push);
                    },
                    Key::Char('d') => {
                        self.current_screen = CurrentScreen::NodeView(Mode::Delete);
                    },
                    Key::Enter => {
                        self.ip_input = self.node_table.get_selected_ip();
                        self.current_screen = CurrentScreen::NodeView(Mode::Edit);
                    },
                    _ => {},
                }
                KeyOutcome::Continue
            },
            CurrentScreen::Help => {
                match key {
                    Key::Char('q') => {
                        self.current_screen = CurrentScreen::Home;
                        self.ping_status = PingStatus::Halt;
                        self.metrics = cleared_metrics();
                    },
                    Key::Down => {
                        self.help_scroll = if self.help_scroll != HELP_SCROLL_MAX {
                            self.help_scroll + 1
                        } else {
                            HELP_SCROLL_MAX
                        };
                    },
                    Key::Up => {
                        self.help_scroll = if self.help_scroll != 0 {
                            self.help_scroll - 1
                        } else {
                            0
                        };
                    },
                    _ => {},
                }
                KeyOutcome::Continue
            },
            CurrentScreen::Main => {
                match key {
                    Key::Char('q') => {
                        self.current_screen = CurrentScreen::Home;
                        self.ping_status = PingStatus::Halt;
                        self.metrics = cleared_metrics();
                    },
                    _ => {},
                }
                KeyOutcome::Continue
            },
            CurrentScreen::InterfaceView => {
                match key {
                    Key::Char('q') => {
                        self.current_screen = CurrentScreen::Home;
                    },
                    Key::Enter => {
                        self.current_screen = CurrentScreen::Main;
                        self.interface = self.interfaces[self.if_options_idx as usize].clone();
                    },
                    Key::Up => {
                        self.if_options_idx = if self.if_options_idx == 0 {
                            (self.interfaces.len() - 1) as u32
                        } else {
                            self.if_options_idx - 1
                        };
                    },
                    Key::Down => {
                        self.if_options_idx = (self.if_options_idx + 1) % (
                        self.interfaces.len() as u32);
                    },
                    _ => {},
                }
                KeyOutcome::Continue
            },
            CurrentScreen::Home => {
                match key {
                    Key::Char('q') => {
                        self.current_screen = CurrentScreen::Exiting;
                    },
                    Key::Up => {
                        self.options_idx = if self.options_idx == 0 {
                            MENU_LEN - 1
                        } else {
                            self.options_idx - 1
                        };
                    },
                    Key::Down => {
                        self.options_idx = (self.options_idx + 1) % MENU_LEN;
                    },
                    Key::Enter => {
                        if self.options_idx == 0 {
                            self.current_screen = CurrentScreen::NodeView(Mode::Normal);
                        } else if self.options_idx == 1 {
                            self.current_screen = CurrentScreen::InterfaceView;
                        } else if self.options_idx == 2 {
                            self.current_screen = CurrentScreen::Help;
                        } else {
                            self.current_screen = CurrentScreen::Main;
                        }
                    },
                    _ => {},
                }
                KeyOutcome::Continue
            },
            CurrentScreen::Exiting => {
                match key {
                    Key::Char('q') => {
                        return KeyOutcome::Quit;
                    },
                    _ => {
                        self.current_screen = CurrentScreen::Home;
                    },
                }
                KeyOutcome::Continue
            },
        }
    }

    /// Reacts to a tick in which no key came (see `tick_effect`).
    pub fn tick(&mut self) -> (r: TickAction)
        requires
            old(self).wf(),
        ensures
            final(self).wf(),
            tick_effect(*old(self), *final(self), r),
    {
        match self.current_screen {
            CurrentScreen::NodeView(_) => {
                match self.ping_status {
                    PingStatus::Running(idx) => {
                        if idx as usize >= self.node_table.nodes.len() {
                            self.ping_status = PingStatus::Halt;
                            TickAction::Idle
                        } else {
                            match parse_ipv4(self.node_table.nodes[idx as usize].ip.as_str()) {
                                Some(target) => {
                                    TickAction::Ping { index: idx, target }
                                },
                                None => TickAction::BadAddress { index: idx },
                            }
                        }
                    },
                    PingStatus::Halt => TickAction::Idle,
                }
            },
            CurrentScreen::Main => {
                if self.interface.as_str().is_empty() {
                    TickAction::Idle
                } else {
                    TickAction::SampleRadio
                }
            },
            _ => TickAction::Idle,
        }
    }

    /// Records the answer of a ping of the node at `index`: its status becomes
    /// "connected" or "disconnected", and the pass moves to the next node.
    pub fn record_ping(&mut self, index: u32, reachable: bool)
        requires
            old(self).wf(),
            index < old(self).node_table.nodes@.len(),
        ensures
            final(self).wf(),
            ping_recorded(*old(self), *final(self), index, reachable),
    {
        let status = if reachable {
            "connected".to_owned()
        } else {
            "disconnected".to_owned()
        };
        self.node_table.update_conn_status(index as usize, status);
        self.ping_status = PingStatus::Running(index + 1);
    }

    /// Takes the node table from the text of the configuration file: an
    /// empty file keeps the current table; otherwise the file's addresses
    /// replace it, or, when the text gives no table, nothing changes and the
    /// reason is returned.
    pub fn import_config(&mut self, text: &str) -> (r: Result<(), ConfigError>)
        requires
            old(self).wf(),
        ensures
            final(self).wf(),
            text@.len() == 0 ==> r is Ok && *final(self) == *old(self),
            text@.len() > 0 ==> (r is Ok <==> config_error(text@) is None),
            text@.len() > 0 && r is Ok ==> *final(self) == (App {
                node_table: final(self).node_table,
                ..*old(self)
            }) && table_of_ips(final(self).node_table, json_string_list(text@)->0),
            r matches Err(e) ==> config_error(text@) == Some(e) && *final(self) == *old(self),
    {
        if text.is_empty() {
            return Ok(());
        }
        match NodeTable::load_config(text) {
            Ok(table) => {
                proof {
                    assert(table.nodes@.len() == table.ips().len());
                }
                self.node_table = table;
                Ok(())
            },
            Err(e) => Err(e),
        }
    }
}

} // verus!
