//! The configuration file: the node addresses as a JSON array of strings.
//!
//! The tool writes the addresses of its table there after each accepted edit,
//! and reads them back at start, when the file is not empty.
use vstd::prelude::*;
use crate::address::{is_ipv4_text, parse_ipv4};
use crate::nodetable::{default_fields, string_views, Node, NodeTable};

verus! {

#[verifier::external_type_specification]
#[verifier::external_body]
pub struct ExJsonError(serde_json::Error);

/// The strings that `serde_json::from_str` reads from `text` as a JSON array
/// of strings; `None` where it gives an error.
pub uninterp spec fn json_string_list(text: Seq<char>) -> Option<Seq<Seq<char>>>;

/// The lower-case hexadecimal digit of `d`, for `0 <= d < 16`.
pub open spec fn hex_digit(d: int) -> char {
    seq!['0', '1', '2', '3', '4', '5', '6', '7', '8', '9', 'a', 'b', 'c', 'd', 'e', 'f'][d]
}

/// How a character stands inside a JSON string that serde_json writes: the
/// quote, the backslash and the control characters are escaped (the usual
/// short escapes where JSON has one, else `\u00` and two hexadecimal digits);
/// every other character stands for itself.
pub open spec fn json_escaped_char(c: char) -> Seq<char> {
    if c == '"' {
        seq!['\\', '"']
    } else if c == '\\' {
        seq!['\\', '\\']
    } else if c == '\u{8}' {
        seq!['\\', 'b']
    } else if c == '\t' {
        seq!['\\', 't']
    } else if c == '\n' {
        seq!['\\', 'n']
    } else if c == '\u{c}' {
        seq!['\\', 'f']
    } else if c == '\r' {
        seq!['\\', 'r']
    } else if (c as int) < 0x20 {
        seq!['\\', 'u', '0', '0', hex_digit(c as int / 16), hex_digit(c as int % 16)]
    } else {
        seq![c]
    }
}

/// The escaped characters of `s`.
pub open spec fn json_escaped(s: Seq<char>) -> Seq<char>
    decreases s.len(),
{
    if s.len() == 0 {
        Seq::empty()
    } else {
        json_escaped(s.drop_last()) + json_escaped_char(s.last())
    }
}

/// The JSON string literal of `s`.
pub open spec fn json_quoted(s: Seq<char>) -> Seq<char> {
    seq!['"'] + json_escaped(s) + seq!['"']
}

/// The string literals of `items`, separated by commas.
pub open spec fn json_joined(items: Seq<Seq<char>>) -> Seq<char>
    decreases items.len(),
{
    if items.len() == 0 {
        Seq::empty()
    } else if items.len() == 1 {
        json_quoted(items[0])
    } else {
        json_joined(items.drop_last()) + seq![','] + json_quoted(items.last())
    }
}

/// The compact JSON array of the strings `items`, as serde_json writes it.
pub open spec fn json_array_text(items: Seq<Seq<char>>) -> Seq<char> {
    seq!['['] + json_joined(items) + seq![']']
}

/// `serde_json::from_str::<Vec<String>>`: reads a JSON array of strings.
/// Its result depends on the text alone; it is named, not described.
#[verifier::external_body]
fn read_json_string_list(text: &str) -> (r: Result<Vec<String>, serde_json::Error>)
    ensures
        r is Ok <==> json_string_list(text@) is Some,
        r matches Ok(v) ==> json_string_list(text@) == Some(string_views(v@)),
{
    serde_json::from_str(text)
}

/// `serde_json::Value::from` on a vector of strings, then its `Display`:
/// the compact JSON array of the strings, each quoted and escaped as
/// `json_array_text` states. serde_json's own reader gives the same strings
/// back from that text.
#[verifier::external_body]
fn write_json_string_list(items: Vec<String>) -> (r: String)
    ensures
        r@ == json_array_text(string_views(items@)),
        json_string_list(r@) == Some(string_views(items@)),
{
    serde_json::Value::from(items).to_string()
}

/// Why a configuration text gives no table.
#[derive(PartialEq, Eq, Structural, Clone, Copy, Debug)]
pub enum ConfigError {
    /// The text is not a JSON array of strings.
    Json,
    /// One of the strings is not an IPv4 address in dotted-decimal notation.
    NotIpv4,
    /// The array is empty: a table has at least one node.
    Empty,
    /// More nodes than the tool's 32-bit row counters and its scrollbar
    /// arithmetic can count.
    TooManyNodes,
}

/// Every string of `ips` is an IPv4 address.
pub open spec fn all_ipv4(ips: Seq<Seq<char>>) -> bool {
    forall|i: int| 0 <= i < ips.len() ==> is_ipv4_text(#[trigger] ips[i])
}

/// Why a list of addresses gives no table, checked in this order; `None`
/// when it gives one.
pub open spec fn ip_list_error(ips: Seq<Seq<char>>) -> Option<ConfigError> {
    if !all_ipv4(ips) {
        Some(ConfigError::NotIpv4)
    } else if ips.len() == 0 {
        Some(ConfigError::Empty)
    } else if ips.len() > usize::MAX / 2 || ips.len() > u32::MAX {
        Some(ConfigError::TooManyNodes)
    } else {
        None
    }
}

/// `t` is the table that a list of addresses gives: one node per address, in
/// order, each with status "-", the first row selected.
pub open spec fn table_of_ips(t: NodeTable, ips: Seq<Seq<char>>) -> bool {
    &&& t.wf()
    &&& t.ips() == ips
    &&& forall|i: int| 0 <= i < t.nodes@.len() ==> (#[trigger] t.nodes@[i]).conn_status@ == "-"@
    &&& string_views(t.fields@) == default_fields()
    &&& t.selection() == 0
}

/// Why a configuration text gives no table; `None` when it gives one.
pub open spec fn config_error(text: Seq<char>) -> Option<ConfigError> {
    match json_string_list(text) {
        None => Some(ConfigError::Json),
        Some(ips) => ip_list_error(ips),
    }
}

impl NodeTable {
    /// The table of a list of addresses, each with status "-".
    ///
    /// Fails with `NotIpv4` when some string is not an IPv4 address, then with
    /// `Empty` when there is none, then with `TooManyNodes`.
    pub fn from_ip_list(ips: Vec<String>) -> (r: Result<NodeTable, ConfigError>)
        ensures
            r is Ok <==> ip_list_error(string_views(ips@)) is None,
            r matches Err(e) ==> ip_list_error(string_views(ips@)) == Some(e),
            r matches Ok(t) ==> table_of_ips(t, string_views(ips@)),
    {
        let ghost views = string_views(ips@);
        let n = ips.len();
        let mut i: usize = 0;
        while i < n
            invariant
                n == ips@.len(),
                views == string_views(ips@),
                i <= n,
                forall|j: int| 0 <= j < i ==> is_ipv4_text(#[trigger] views[j]),
            decreases n - i,
        {
            if parse_ipv4(ips[i].as_str()).is_none() {
                assert(!is_ipv4_text(views[i as int]));
                return Err(ConfigError::NotIpv4);
            }
            i = i + 1;
        }
        assert(all_ipv4(views));
        if n == 0 {
            return Err(ConfigError::Empty);
        }
        if n > usize::MAX / 2 || n > 0xffff_ffff {
            return Err(ConfigError::TooManyNodes);
        }
        let mut pairs: Vec<(String, String)> = Vec::new();
        let mut k: usize = 0;
        while k < n
            invariant
                n == ips@.len(),
                k <= n,
                pairs@.len() == k,
                forall|j: int|
                    0 <= j < k ==> (#[trigger] pairs@[j]).0 == ips@[j] && pairs@[j].1@ == "-"@,
            decreases n - k,
        {
            pairs.push((ips[k].clone(), "-".to_owned()));
            k = k + 1;
        }
        let t = NodeTable::from_pairs(pairs);
        assert(t.ips() =~= views);
        Ok(t)
    }

    /// Reads a configuration text: a JSON array of IPv4 addresses, which
    /// becomes a table with status "-" on every node.
    ///
    /// Fails with `Json` when the text is not a JSON array of strings, and
    /// otherwise as `from_ip_list` does.
    pub fn load_config(text: &str) -> (r: Result<NodeTable, ConfigError>)
        ensures
            r is Ok <==> config_error(text@) is None,
            r matches Err(e) ==> config_error(text@) == Some(e),
            r matches Ok(t) ==> table_of_ips(t, json_string_list(text@)->0),
    {
        match read_json_string_list(text) {
            Ok(ips) => NodeTable::from_ip_list(ips),
            Err(_) => Err(ConfigError::Json),
        }
    }

    /// The configuration text of the table: the JSON array of its addresses,
    /// in order. Reading it back gives the same addresses.
    pub fn config_text(&self) -> (r: String)
        ensures
            r@ == json_array_text(self.ips()),
            r@.len() >= 2,
            json_string_list(r@) == Some(self.ips()),
    {
        let mut ips: Vec<String> = Vec::new();
        let mut i: usize = 0;
        while i < self.nodes.len()
            invariant
                i <= self.nodes@.len(),
                ips@.len() == i,
                forall|j: int| 0 <= j < i ==> (#[trigger] ips@[j]) == self.nodes@[j].ip,
            decreases self.nodes@.len() - i,
        {
            ips.push(self.nodes[i].ip.clone());
            i = i + 1;
        }
        assert(string_views(ips@) =~= self.ips());
        write_json_string_list(ips)
    }
}

/// A character that serde_json writes as itself inside a JSON string.
pub open spec fn json_plain_char(c: char) -> bool {
    c != '"' && c != '\\' && (c as int) >= 0x20
}

proof fn lemma_json_escaped_plain(s: Seq<char>)
    requires
        forall|i: int| 0 <= i < s.len() ==> json_plain_char(#[trigger] s[i]),
    ensures
        json_escaped(s) == s,
    decreases s.len(),
{
    if s.len() > 0 {
        let p = s.drop_last();
        assert forall|i: int| 0 <= i < p.len() implies json_plain_char(#[trigger] p[i]) by {
            assert(p[i] == s[i]);
        }
        lemma_json_escaped_plain(p);
        assert(json_escaped_char(s.last()) =~= seq![s.last()]);
        assert(s =~= p.push(s.last()));
    } else {
        assert(s =~= Seq::<char>::empty());
    }
}

/// Strings without quotes, backslashes or control characters are written
/// unchanged inside their quotes, and the array text is bracketed.
pub proof fn lemma_json_plain_text(s: Seq<char>, items: Seq<Seq<char>>)
    ensures
        (forall|i: int| 0 <= i < s.len() ==> json_plain_char(#[trigger] s[i])) ==> json_escaped(s)
            == s,
        json_array_text(items)[0] == '[',
        json_array_text(items).last() == ']',
        json_array_text(items).len() >= 2,
        items.len() == 1 && (forall|i: int| 0 <= i < items[0].len() ==> json_plain_char(#[trigger] items[0][i]))
            ==> json_array_text(items) == seq!['[', '"'] + items[0] + seq!['"', ']'],
{
    if forall|i: int| 0 <= i < s.len() ==> json_plain_char(#[trigger] s[i]) {
        lemma_json_escaped_plain(s);
    }
    if items.len() == 1 && (forall|i: int| 0 <= i < items[0].len() ==> json_plain_char(#[trigger] items[0][i])) {
        lemma_json_escaped_plain(items[0]);
        assert(json_array_text(items) =~= seq!['[', '"'] + items[0] + seq!['"', ']']);
    }
}

/// What is saved of a table is loaded back: the configuration text of a
/// well-formed table whose rows fit the tool's 32-bit row counters and whose
/// addresses are all IPv4 addresses is not empty (so the import at start does
/// not skip it), and gives a table again, with the same addresses in the same
/// order.
pub proof fn lemma_saved_config_loads_back(t: NodeTable, saved: Seq<char>)
    requires
        t.wf(),
        t.nodes@.len() <= u32::MAX,
        all_ipv4(t.ips()),
        saved == json_array_text(t.ips()),
        json_string_list(saved) == Some(t.ips()),
    ensures
        saved.len() > 0,
        config_error(saved) is None,
        json_string_list(saved)->0 == t.ips(),
{
}

} // verus!
