//! Properties of the tool that span several keys, ticks and pings.
use vstd::prelude::*;
use crate::address::{ipv4_text, is_ipv4_text};
use crate::app::{
    key_effect, menu_down, menu_up, ping_recorded, ping_status_text, tick_effect, App, CurrentScreen, IpInputStatus, Key,
    KeyOutcome, Mode, PingStatus, TickAction, MENU_LEN,
};
use crate::config::{all_ipv4, config_error, ip_list_error, json_string_list, table_of_ips, ConfigError};
use crate::icmp::{ping_progress_spec, PingProgress, PingReply};
use crate::screen::{hints_of, view_of, Hint, ScreenBody};
use crate::nodetable::{next_index, previous_index, NodeTable};

verus! {

/// In a list of `n` entries, moving down then up, or up then down, comes
/// back to the same entry, and both moves stay in the list.
pub proof fn lemma_menu_moves_undo(i: int, n: int)
    requires
        0 <= i < n,
    ensures
        0 <= menu_down(i, n) < n,
        0 <= menu_up(i, n) < n,
        i + 1 < n ==> menu_down(i, n) == i + 1,
        i == n - 1 ==> menu_down(i, n) == 0,
        i > 0 ==> menu_up(i, n) == i - 1,
        i == 0 ==> menu_up(i, n) == n - 1,
        menu_up(menu_down(i, n), n) == i,
        menu_down(menu_up(i, n), n) == i,
{
    if i + 1 < n {
        vstd::arithmetic::div_mod::lemma_small_mod((i + 1) as nat, n as nat);
    } else {
        vstd::arithmetic::div_mod::lemma_mod_self_0(n);
    }
    if i == 0 {
        vstd::arithmetic::div_mod::lemma_mod_self_0(n);
    } else {
        vstd::arithmetic::div_mod::lemma_small_mod(i as nat, n as nat);
    }
}

/// On the start menu, `Down` then `Up` leaves the state as it was.
pub proof fn lemma_home_down_then_up(a: App, b: App, c: App, o1: KeyOutcome, o2: KeyOutcome)
    requires
        a.wf(),
        a.current_screen == CurrentScreen::Home,
        key_effect(a, Key::Down, b, o1),
        key_effect(b, Key::Up, c, o2),
    ensures
        c == a,
        o1 == KeyOutcome::Continue && o2 == KeyOutcome::Continue,
{
    lemma_menu_moves_undo(a.options_idx as int, MENU_LEN as int);
}

/// On the interface list, `Down` then `Up` leaves the state as it was.
pub proof fn lemma_interface_down_then_up(a: App, b: App, c: App, o1: KeyOutcome, o2: KeyOutcome)
    requires
        a.wf(),
        a.current_screen == CurrentScreen::InterfaceView,
        a.interfaces@.len() > 0,
        key_effect(a, Key::Down, b, o1),
        key_effect(b, Key::Up, c, o2),
    ensures
        c == a,
{
    lemma_menu_moves_undo(a.if_options_idx as int, a.interfaces@.len() as int);
}

/// Two tables that agree on their titles, rows and selection are the same
/// table: the scrollbar follows from the rows and the selection.
pub proof fn lemma_table_determined(s: NodeTable, t: NodeTable)
    requires
        s.wf(),
        t.wf(),
        s.fields == t.fields,
        s.nodes == t.nodes,
        s.selection() == t.selection(),
    ensures
        s == t,
{
}

/// Browsing the table, `Down` then `Up` from any row but the last, or `Up`
/// then `Down` from any row but the first, leaves the state as it was.
pub proof fn lemma_table_moves_undo(a: App, k1: Key, b: App, k2: Key, c: App, o1: KeyOutcome, o2: KeyOutcome)
    requires
        a.wf(),
        a.current_screen == CurrentScreen::NodeView(Mode::Normal),
        (k1 == Key::Down && k2 == Key::Up && a.node_table.selection() < a.node_table.nodes@.len() - 1)
            || (k1 == Key::Up && k2 == Key::Down && a.node_table.selection() > 0),
        key_effect(a, k1, b, o1),
        key_effect(b, k2, c, o2),
    ensures
        c == a,
{
    lemma_table_determined(c.node_table, a.node_table);
}

/// A refused address changes nothing but the mark on the input: while an
/// address is typed, `Enter` on a text that is neither empty nor an IPv4
/// address leaves the table, the screen and the input as they were.
pub proof fn lemma_refused_address_changes_nothing(a: App, b: App, out: KeyOutcome)
    requires
        a.current_screen == CurrentScreen::NodeView(Mode::Edit) || a.current_screen
            == CurrentScreen::NodeView(Mode::Push),
        a.ip_input@.len() > 0,
        !is_ipv4_text(a.ip_input@),
        key_effect(a, Key::Enter, b, out),
    ensures
        b == (App { ip_input_status: IpInputStatus::Error, ..a }),
        out == KeyOutcome::Continue,
{
}

/// An accepted address is in the table, and the configuration is saved:
/// `Enter` on an IPv4 address puts it at the selected row (editing) or at a
/// new last row (appending), and asks for the configuration to be written.
pub proof fn lemma_accepted_address_is_saved(a: App, b: App, out: KeyOutcome)
    requires
        a.wf(),
        a.current_screen == CurrentScreen::NodeView(Mode::Edit) || a.current_screen
            == CurrentScreen::NodeView(Mode::Push),
        is_ipv4_text(a.ip_input@),
        key_effect(a, Key::Enter, b, out),
    ensures
        out == KeyOutcome::SaveConfig,
        b.current_screen == CurrentScreen::NodeView(Mode::Normal),
        a.current_screen == CurrentScreen::NodeView(Mode::Edit) ==> b.node_table.ips()
            == a.node_table.ips().update(a.node_table.selection(), a.ip_input@),
        a.current_screen == CurrentScreen::NodeView(Mode::Push) ==> b.node_table.ips()
            == a.node_table.ips().push(a.ip_input@),
{
    if a.current_screen == CurrentScreen::NodeView(Mode::Edit) {
        assert(b.node_table.ips() =~= a.node_table.ips().update(a.node_table.selection(), a.ip_input@));
    } else {
        assert(b.node_table.nodes@ =~= a.node_table.nodes@.push(b.node_table.nodes@.last()));
        assert(b.node_table.ips() =~= a.node_table.ips().push(a.ip_input@));
    }
}

/// Only IPv4 addresses enter the table: if every address of the table is an
/// IPv4 address, it still is after any key.
pub proof fn lemma_keys_keep_addresses_valid(a: App, key: Key, b: App, out: KeyOutcome)
    requires
        a.wf(),
        all_ipv4(a.node_table.ips()),
        key_effect(a, key, b, out),
    ensures
        all_ipv4(b.node_table.ips()),
{
    let ta = a.node_table;
    let tb = b.node_table;
    if tb.nodes@ != ta.nodes@ {
        assert forall|i: int| 0 <= i < tb.ips().len() implies is_ipv4_text(#[trigger] tb.ips()[i]) by {
            match a.current_screen {
                CurrentScreen::NodeView(Mode::Delete) => {
                    if ta.nodes@.len() > 1 {
                        if i < ta.selection() {
                            assert(tb.ips()[i] == ta.ips()[i]);
                        } else {
                            assert(tb.ips()[i] == ta.ips()[i + 1]);
                        }
                    }
                },
                CurrentScreen::NodeView(Mode::Edit) => {
                    if i != ta.selection() {
                        assert(tb.ips()[i] == ta.ips()[i]);
                    }
                },
                CurrentScreen::NodeView(Mode::Push) => {
                    if i < ta.nodes@.len() {
                        assert(tb.nodes@[i] == tb.nodes@.drop_last()[i]);
                        assert(tb.ips()[i] == ta.ips()[i]);
                    }
                },
                CurrentScreen::NodeView(Mode::Normal) => {
                    assert(tb.ips()[i] == ta.ips()[i]);
                },
                _ => {},
            }
        }
    }
}

/// `q` on the start menu, then `q` again, leaves the tool; the first `q`
/// only asks.
pub proof fn lemma_q_twice_quits(a: App, b: App, c: App, o1: KeyOutcome, o2: KeyOutcome)
    requires
        a.current_screen == CurrentScreen::Home,
        key_effect(a, Key::Char('q'), b, o1),
        key_effect(b, Key::Char('q'), c, o2),
    ensures
        o1 == KeyOutcome::Continue,
        b == (App { current_screen: CurrentScreen::Exiting, ..a }),
        o2 == KeyOutcome::Quit,
        c == b,
{
}

/// A ping pass visits the nodes in order: once the answer for node `index`
/// is recorded, the next tick asks for node `index + 1`, or, after the last
/// node, halts the pass. When every address of the table is an IPv4 address,
/// the next node is asked to be pinged at its address.
pub proof fn lemma_ping_pass_advances(
    a: App,
    index: u32,
    reachable: bool,
    b: App,
    c: App,
    r: TickAction,
)
    requires
        a.wf(),
        a.current_screen is NodeView,
        index < a.node_table.nodes@.len(),
        ping_recorded(a, b, index, reachable),
        tick_effect(b, c, r),
    ensures
        index + 1 == a.node_table.nodes@.len() ==> r is Idle && c.ping_status == PingStatus::Halt,
        index + 1 < a.node_table.nodes@.len() ==> c == b && (r is Ping && r->Ping_index == index + 1
            || r is BadAddress && r->BadAddress_index == index + 1),
        index + 1 < a.node_table.nodes@.len() && all_ipv4(a.node_table.ips()) ==> r is Ping
            && b.node_table.nodes@[index + 1].ip@ == ipv4_text(r->Ping_target@),
{
    if index + 1 < a.node_table.nodes@.len() && all_ipv4(a.node_table.ips()) {
        let j = index + 1;
        assert(b.node_table.nodes@[j] == a.node_table.nodes@[j]);
        assert(is_ipv4_text(a.node_table.ips()[j as int]));
    }
}

/// `p` on the table starts a pass at the first node with every status reset
/// to "-"; the next tick asks for the first node.
pub proof fn lemma_ping_pass_starts_at_first_node(a: App, b: App, o: KeyOutcome, c: App, r: TickAction)
    requires
        a.wf(),
        a.current_screen == CurrentScreen::NodeView(Mode::Normal),
        key_effect(a, Key::Char('p'), b, o),
        tick_effect(b, c, r),
    ensures
        b.ping_status == PingStatus::Running(0),
        forall|i: int| 0 <= i < b.node_table.nodes@.len() ==> (#[trigger] b.node_table.nodes@[i]).conn_status@ == "-"@,
        c == b,
        r is Ping && r->Ping_index == 0 || r is BadAddress && r->BadAddress_index == 0,
{
}

/// The steps of a ping pass over a table of `n` nodes: `states[k]` stands at
/// node `k`, and `states[k + 1]` is `states[k]` after the answer `replies[k]`
/// for node `k` was recorded.
pub open spec fn ping_pass_steps(states: Seq<App>, replies: Seq<bool>) -> bool {
    &&& states.len() == replies.len() + 1
    &&& forall|k: int|
        0 <= k < replies.len() ==> ping_recorded(
            #[trigger] states[k],
            states[k + 1],
            k as u32,
            replies[k],
        )
}

/// Along a ping pass, up to step `k`: the pass stands at node `k`, the screen,
/// the addresses, titles and selection are unchanged, and each node before
/// `k` shows the answer of its ping.
proof fn lemma_ping_pass_prefix(states: Seq<App>, replies: Seq<bool>, k: int)
    requires
        ping_pass_steps(states, replies),
        states[0].wf(),
        states[0].ping_status == PingStatus::Running(0),
        replies.len() == states[0].node_table.nodes@.len(),
        0 <= k <= replies.len(),
    ensures
        states[k].wf(),
        states[k].ping_status == PingStatus::Running(k as u32),
        states[k].current_screen == states[0].current_screen,
        states[k].node_table.fields == states[0].node_table.fields,
        states[k].node_table.selection() == states[0].node_table.selection(),
        states[k].node_table.nodes@.len() == replies.len(),
        forall|i: int|
            0 <= i < replies.len() ==> (#[trigger] states[k].node_table.nodes@[i]).ip
                == states[0].node_table.nodes@[i].ip,
        forall|i: int|
            0 <= i < k ==> (#[trigger] states[k].node_table.nodes@[i]).conn_status@
                == ping_status_text(replies[i]),
    decreases k,
{
    if k > 0 {
        lemma_ping_pass_prefix(states, replies, k - 1);
        let a = states[k - 1];
        let b = states[k];
        assert(ping_recorded(a, b, (k - 1) as u32, replies[k - 1]));
        assert forall|i: int| 0 <= i < replies.len() implies (#[trigger] b.node_table.nodes@[i]).ip
            == states[0].node_table.nodes@[i].ip by {
            if i != k - 1 {
                assert(b.node_table.nodes@[i] == a.node_table.nodes@[i]);
            }
        }
        assert forall|i: int| 0 <= i < k implies (#[trigger] b.node_table.nodes@[i]).conn_status@
            == ping_status_text(replies[i]) by {
            if i != k - 1 {
                assert(b.node_table.nodes@[i] == a.node_table.nodes@[i]);
            }
        }
    }
}

/// A whole ping pass: started at node 0 on the table screen, each tick asks
/// for the node where the pass stands and the answer is recorded; after the
/// last of the `n` nodes, the next tick halts the pass. Then every node shows
/// the answer of its own ping, and the addresses are unchanged.
pub proof fn lemma_ping_pass_complete(
    states: Seq<App>,
    replies: Seq<bool>,
    last: App,
    r: TickAction,
)
    requires
        states.len() > 0,
        states[0].wf(),
        states[0].current_screen is NodeView,
        states[0].ping_status == PingStatus::Running(0),
        replies.len() == states[0].node_table.nodes@.len(),
        ping_pass_steps(states, replies),
        tick_effect(states[replies.len() as int], last, r),
    ensures
        forall|k: int, b: App, rk: TickAction|
            0 <= k < replies.len() && #[trigger] tick_effect(states[k], b, rk) ==> b == states[k]
                && (rk is Ping && rk->Ping_index == k || rk is BadAddress && rk->BadAddress_index
                == k),
        r is Idle,
        last.ping_status == PingStatus::Halt,
        last.node_table.ips() == states[0].node_table.ips(),
        forall|i: int|
            0 <= i < replies.len() ==> (#[trigger] last.node_table.nodes@[i]).conn_status@
                == ping_status_text(replies[i]),
{
    let n = replies.len() as int;
    assert forall|k: int, b: App, rk: TickAction|
        0 <= k < n && #[trigger] tick_effect(states[k], b, rk) implies b == states[k] && (
    rk is Ping && rk->Ping_index == k || rk is BadAddress && rk->BadAddress_index == k) by {
        lemma_ping_pass_prefix(states, replies, k);
    }
    lemma_ping_pass_prefix(states, replies, n);
    assert(last.node_table.ips() =~= states[0].node_table.ips());
}

/// One ping's decision: the target is reachable exactly when the reply is an
/// echo reply from the target's own address (all four octets equal); any other
/// reply, or none, sends another request while fewer than five were sent, and
/// gives up as unreachable at the fifth.
pub proof fn lemma_ping_decision(target: [u8; 4], reply: PingReply, attempts: u32)
    requires
        1 <= attempts <= 5,
    ensures
        (ping_progress_spec(target, reply, attempts) == PingProgress::Reachable) <==> (
        reply matches PingReply::From(a) && a@ == target@),
        !(reply matches PingReply::From(a) && a@ == target@) && attempts < 5 ==> ping_progress_spec(
            target,
            reply,
            attempts,
        ) == PingProgress::SendAgain,
        !(reply matches PingReply::From(a) && a@ == target@) && attempts == 5 ==> ping_progress_spec(
            target,
            reply,
            attempts,
        ) == PingProgress::Unreachable,
        ping_progress_spec(target, reply, attempts) == PingProgress::Unreachable ==> attempts == 5,
{
}

/// A tick of a running ping pass pings the node where the pass stands, at
/// that node's own address, whatever row is selected; past the last node it
/// halts the pass and does nothing else.
pub proof fn lemma_tick_pings_node_at_its_address(a: App, idx: u32, b: App, r: TickAction)
    requires
        a.wf(),
        a.current_screen is NodeView,
        a.ping_status == PingStatus::Running(idx),
        tick_effect(a, b, r),
    ensures
        idx < a.node_table.nodes@.len() ==> b == a,
        idx < a.node_table.nodes@.len() && is_ipv4_text(a.node_table.nodes@[idx as int].ip@) ==> (
        r matches TickAction::Ping { index, target } && index == idx
            && a.node_table.nodes@[idx as int].ip@ == ipv4_text(target@)),
        idx < a.node_table.nodes@.len() && !is_ipv4_text(a.node_table.nodes@[idx as int].ip@) ==> (
        r matches TickAction::BadAddress { index } && index == idx),
        idx >= a.node_table.nodes@.len() ==> r is Idle && b == (App {
            ping_status: PingStatus::Halt,
            ..a
        }),
{
}

/// `Enter` on the interface list chooses the highlighted interface, whichever
/// it is, and shows the metrics; nothing else changes.
pub proof fn lemma_interface_enter_picks_highlighted(a: App, b: App, out: KeyOutcome)
    requires
        a.wf(),
        a.current_screen == CurrentScreen::InterfaceView,
        a.interfaces@.len() > 0,
        key_effect(a, Key::Enter, b, out),
    ensures
        b.interface == a.interfaces@[a.if_options_idx as int],
        b.current_screen == CurrentScreen::Main,
        b.interfaces == a.interfaces,
        b.if_options_idx == a.if_options_idx,
        b.node_table == a.node_table,
        out == KeyOutcome::Continue,
{
}

/// A list of strings gives a table only when every string in it is an IPv4
/// address; any string that is not refuses the whole list as `NotIpv4`; an
/// empty list is refused as `Empty`; and a list of IPv4 addresses of a size
/// the tool can count is accepted.
pub proof fn lemma_config_accepts_only_addresses(ips: Seq<Seq<char>>)
    ensures
        ip_list_error(ips) is None ==> forall|i: int| 0 <= i < ips.len() ==> is_ipv4_text(#[trigger] ips[i]),
        (exists|i: int| 0 <= i < ips.len() && !is_ipv4_text(#[trigger] ips[i])) ==> ip_list_error(ips)
            == Some(ConfigError::NotIpv4),
        ips.len() == 0 ==> ip_list_error(ips) == Some(ConfigError::Empty),
        (forall|i: int| 0 <= i < ips.len() ==> is_ipv4_text(#[trigger] ips[i])) && 1 <= ips.len()
            <= u32::MAX && ips.len() <= usize::MAX / 2 ==> ip_list_error(ips) is None,
{
}

/// A table loaded from a configuration text holds exactly the text's
/// strings, in order, and each of them is an IPv4 address.
pub proof fn lemma_loaded_table_holds_only_addresses(t: NodeTable, text: Seq<char>)
    requires
        config_error(text) is None,
        table_of_ips(t, json_string_list(text)->0),
    ensures
        json_string_list(text) is Some,
        t.ips() == json_string_list(text)->0,
        forall|i: int| 0 <= i < t.ips().len() ==> is_ipv4_text(#[trigger] t.ips()[i]),
        t.nodes@.len() >= 1,
{
}

/// Moving down the table selects the next row, or stays on the last one;
/// moving up selects the previous row, or stays on the first one.
pub proof fn lemma_table_selection_steps(i: int, len: int)
    requires
        0 <= i < len,
    ensures
        0 <= next_index(i, len) < len,
        0 <= previous_index(i) < len,
        i + 1 < len ==> next_index(i, len) == i + 1,
        i == len - 1 ==> next_index(i, len) == i,
        i > 0 ==> previous_index(i) == i - 1,
        i == 0 ==> previous_index(i) == 0,
{
}

/// On the help screen, `Down` scrolls one line further until the bottom (20
/// lines), `Up` one line back until the top, each within 0 to 20.
pub proof fn lemma_help_scroll_steps(a: App, key: Key, b: App, out: KeyOutcome)
    requires
        a.wf(),
        a.current_screen == CurrentScreen::Help,
        key == Key::Down || key == Key::Up,
        key_effect(a, key, b, out),
    ensures
        key == Key::Down && a.help_scroll < 20 ==> b.help_scroll == a.help_scroll + 1,
        key == Key::Down && a.help_scroll == 20 ==> b.help_scroll == 20,
        key == Key::Up && a.help_scroll > 0 ==> b.help_scroll == a.help_scroll - 1,
        key == Key::Up && a.help_scroll == 0 ==> b.help_scroll == 0,
        b == (App { help_scroll: b.help_scroll, ..a }),
{
}

/// `Enter` on the start menu opens the highlighted entry: the connection
/// test, the interface list, or the help.
pub proof fn lemma_home_enter_opens_entry(a: App, b: App, out: KeyOutcome)
    requires
        a.wf(),
        a.current_screen == CurrentScreen::Home,
        key_effect(a, Key::Enter, b, out),
    ensures
        a.options_idx == 0 ==> b.current_screen == CurrentScreen::NodeView(Mode::Normal),
        a.options_idx == 1 ==> b.current_screen == CurrentScreen::InterfaceView,
        a.options_idx == 2 ==> b.current_screen == CurrentScreen::Help,
        b == (App { current_screen: b.current_screen, ..a }),
        out == KeyOutcome::Continue,
{
}

/// The answer of a ping shows on its own node: "connected" when it answered,
/// "disconnected" when not; the other nodes are untouched and the pass moves
/// to the next node.
pub proof fn lemma_ping_answer_shown(a: App, index: u32, reachable: bool, b: App)
    requires
        index < a.node_table.nodes@.len(),
        ping_recorded(a, b, index, reachable),
    ensures
        reachable ==> b.node_table.nodes@[index as int].conn_status@ == "connected"@,
        !reachable ==> b.node_table.nodes@[index as int].conn_status@ == "disconnected"@,
        b.node_table.nodes@[index as int].ip == a.node_table.nodes@[index as int].ip,
        b.node_table.nodes@.len() == a.node_table.nodes@.len(),
        forall|i: int|
            0 <= i < a.node_table.nodes@.len() && i != index ==> #[trigger] b.node_table.nodes@[i]
                == a.node_table.nodes@[i],
        b.ping_status == PingStatus::Running((index + 1) as u32),
        b.current_screen == a.current_screen,
{
}

/// `y` on the delete prompt removes the selected node, keeping the others in
/// order, and asks for the save; the only node of a table is kept and nothing
/// is saved. Either way the table is browsed again.
pub proof fn lemma_delete_removes_selected(a: App, b: App, out: KeyOutcome)
    requires
        a.wf(),
        a.current_screen == CurrentScreen::NodeView(Mode::Delete),
        key_effect(a, Key::Char('y'), b, out),
    ensures
        a.node_table.nodes@.len() > 1 ==> b.node_table.ips() == a.node_table.ips().remove(
            a.node_table.selection(),
        ) && out == KeyOutcome::SaveConfig,
        a.node_table.nodes@.len() == 1 ==> b.node_table.ips() == a.node_table.ips() && out
            == KeyOutcome::Continue,
        b.current_screen == CurrentScreen::NodeView(Mode::Normal),
{
    if a.node_table.nodes@.len() > 1 {
        assert(b.node_table.ips() =~= a.node_table.ips().remove(a.node_table.selection()));
    }
}

/// While an address is typed, a character key appends that character and
/// `Backspace` removes the last one; nothing else changes.
pub proof fn lemma_typing_edits_input(a: App, key: Key, b: App, out: KeyOutcome)
    requires
        a.current_screen == CurrentScreen::NodeView(Mode::Edit) || a.current_screen
            == CurrentScreen::NodeView(Mode::Push),
        key is Char || key == Key::Backspace,
        key_effect(a, key, b, out),
    ensures
        key matches Key::Char(c) ==> b.ip_input@ == a.ip_input@ + seq![c],
        key == Key::Backspace && a.ip_input@.len() > 0 ==> b.ip_input@ == a.ip_input@.subrange(
            0,
            a.ip_input@.len() - 1,
        ),
        key == Key::Backspace && a.ip_input@.len() == 0 ==> b.ip_input@ == a.ip_input@,
        b == (App { ip_input: b.ip_input, ..a }),
        out == KeyOutcome::Continue,
{
    if let Key::Char(c) = key {
        assert(a.ip_input@.push(c) =~= a.ip_input@ + seq![c]);
    }
}

/// Browsing the table: `Enter` starts editing the selected node with its
/// address as the typed text; `c` starts typing a node to append; `d` asks
/// whether to delete; `q` goes back to the start menu and halts a ping pass.
pub proof fn lemma_browse_keys(a: App, key: Key, b: App, out: KeyOutcome)
    requires
        a.wf(),
        a.current_screen == CurrentScreen::NodeView(Mode::Normal),
        key_effect(a, key, b, out),
    ensures
        key == Key::Enter ==> b.ip_input == a.node_table.nodes@[a.node_table.selection()].ip
            && b.current_screen == CurrentScreen::NodeView(Mode::Edit) && b.node_table
            == a.node_table,
        key == Key::Char('c') ==> b.current_screen == CurrentScreen::NodeView(Mode::Push)
            && b.node_table == a.node_table,
        key == Key::Char('d') ==> b.current_screen == CurrentScreen::NodeView(Mode::Delete)
            && b.node_table == a.node_table,
        key == Key::Char('q') ==> b.current_screen == CurrentScreen::Home && b.ping_status
            == PingStatus::Halt && b.node_table == a.node_table,
        out == KeyOutcome::Continue,
{
}

/// Leaving the help or metrics screen with `q` goes back to the start menu,
/// halts a ping pass and shows six empty metric values; on the exit prompt
/// any key but `q` goes back to the start menu.
pub proof fn lemma_leaving_screens(a: App, key: Key, b: App, out: KeyOutcome)
    requires
        a.wf(),
        key_effect(a, key, b, out),
    ensures
        (a.current_screen == CurrentScreen::Help || a.current_screen == CurrentScreen::Main) && key
            == Key::Char('q') ==> b.current_screen == CurrentScreen::Home && b.ping_status
            == PingStatus::Halt && b.metrics@.len() == 6 && forall|i: int|
            0 <= i < 6 ==> (#[trigger] b.metrics@[i])@.len() == 0,
        a.current_screen == CurrentScreen::Exiting && key != Key::Char('q') ==> b.current_screen
            == CurrentScreen::Home && out == KeyOutcome::Continue,
        a.current_screen == CurrentScreen::Exiting && key == Key::Char('q') ==> out
            == KeyOutcome::Quit,
        out == KeyOutcome::Quit ==> a.current_screen == CurrentScreen::Exiting && key
            == Key::Char('q'),
        out == KeyOutcome::SaveConfig ==> a.current_screen is NodeView,
{
}

/// What each screen shows: the input box exactly while an address is typed;
/// the metrics grid on the metrics screen once chosen from the start menu's
/// second entry; the footer asks to confirm on the exit prompt and offers the
/// ping test and editing on the table.
pub proof fn lemma_screen_shows(screen: CurrentScreen, options_idx: u32)
    ensures
        screen matches CurrentScreen::NodeView(m) ==> view_of(screen, options_idx)
            == (ScreenBody::Table { input_box: m == Mode::Edit || m == Mode::Push }),
        screen == CurrentScreen::Help ==> view_of(screen, options_idx) == ScreenBody::Help,
        screen == CurrentScreen::InterfaceView ==> view_of(screen, options_idx)
            == ScreenBody::InterfaceMenu,
        screen == CurrentScreen::Home || screen == CurrentScreen::Exiting ==> view_of(
            screen,
            options_idx,
        ) == ScreenBody::HomeMenu,
        screen == CurrentScreen::Main && options_idx == 1 ==> view_of(screen, options_idx)
            == ScreenBody::Metrics,
        hints_of(screen)[0] == if screen == CurrentScreen::Exiting {
            Hint::ConfirmExit
        } else {
            Hint::Quit
        },
        screen is NodeView ==> hints_of(screen) =~= seq![hints_of(screen)[0], Hint::StartPing, Hint::EditNode],
        !(screen is NodeView) ==> hints_of(screen).len() == 1,
{
}

} // verus!
