//! The table of nodes (IP address and connection status) that the connection
//! test pings, with its selected row and the position of its scrollbar.
use vstd::prelude::*;

verus! {

/// Height in terminal lines of one row of the table; the scrollbar moves by
/// this much per row.
pub const ITEM_HEIGHT: usize = 2;

/// One node of the table.
pub struct Node {
    pub ip: String,
    pub conn_status: String,
}

impl Node {
    /// A node from an (IP address, connection status) pair.
    pub fn from_tuple(tuple: (String, String)) -> (r: Self)
        ensures
            r.ip == tuple.0,
            r.conn_status == tuple.1,
    {
        Node { ip: tuple.0, conn_status: tuple.1 }
    }

    /// The two cells that the node shows in its row: address, then status.
    pub fn row(&self) -> (r: [String; 2])
        ensures
            r@[0] == self.ip,
            r@[1] == self.conn_status,
    {
        [self.ip.clone(), self.conn_status.clone()]
    }
}

/// The table of nodes.
///
/// Its model: the column titles `fields`, the `nodes` in display order, the
/// index of the selected row, and the scrollbar, whose content length is
/// `ITEM_HEIGHT` lines per row after the first and whose position follows the
/// selected row.
pub struct NodeTable {
    pub fields: Vec<String>,
    pub nodes: Vec<Node>,
    pub selected: usize,
    pub scroll_length: usize,
    pub scroll_position: usize,
}

/// The row selected after moving down from row `i` of `len` rows: the next
/// one, or `i` itself on the last row.
pub open spec fn next_index(i: int, len: int) -> int {
    if i >= len - 1 {
        i
    } else {
        i + 1
    }
}

/// The row selected after moving up from row `i`: the one before, or row 0.
pub open spec fn previous_index(i: int) -> int {
    if i == 0 {
        0
    } else {
        i - 1
    }
}

/// The addresses of `nodes`, in order.
pub open spec fn node_ips(nodes: Seq<Node>) -> Seq<Seq<char>> {
    nodes.map_values(|n: Node| n.ip@)
}

/// The connection statuses of `nodes`, in order.
pub open spec fn node_statuses(nodes: Seq<Node>) -> Seq<Seq<char>> {
    nodes.map_values(|n: Node| n.conn_status@)
}

/// The column titles of a table built from pairs.
pub open spec fn default_fields() -> Seq<Seq<char>> {
    seq!["IP"@, "Connection status"@]
}

/// The addresses of the table that the tool starts with.
pub open spec fn default_ips() -> Seq<Seq<char>> {
    seq![
        "192.168.1.201"@,
        "192.168.1.202"@,
        "192.168.1.200"@,
        "192.168.1.110"@,
        "192.168.1.112"@,
        "192.168.1.113"@,
        "192.168.1.114"@,
        "192.168.1.115"@,
        "129.168.1.116"@,
    ]
}

/// The views of a vector of strings.
pub open spec fn string_views(v: Seq<String>) -> Seq<Seq<char>> {
    v.map_values(|s: String| s@)
}

impl NodeTable {
    /// The index of the selected row.
    pub open spec fn selection(&self) -> int {
        self.selected as int
    }

    /// The table has at least one row, the selected row exists, and the
    /// scrollbar matches the rows and the selection.
    pub open spec fn wf(&self) -> bool {
        &&& 1 <= self.nodes@.len() <= usize::MAX / 2
        &&& 0 <= self.selection() < self.nodes@.len()
        &&& self.scroll_length == (self.nodes@.len() - 1) * ITEM_HEIGHT
        &&& self.scroll_position == self.selection() * ITEM_HEIGHT
    }

    /// The addresses of the rows, in order.
    pub open spec fn ips(&self) -> Seq<Seq<char>> {
        node_ips(self.nodes@)
    }

    /// The connection statuses of the rows, in order.
    pub open spec fn statuses(&self) -> Seq<Seq<char>> {
        node_statuses(self.nodes@)
    }

    /// A table of `nodes` under the column titles `fields`, with the first row
    /// selected and the scrollbar at the top.
    pub fn new(fields: Vec<String>, nodes: Vec<Node>) -> (r: Self)
        requires
            1 <= nodes@.len() <= usize::MAX / 2,
        ensures
            r.wf(),
            r.fields == fields,
            r.nodes == nodes,
            r.selection() == 0,
    {
        let length = nodes.len();
        NodeTable {
            fields,
            nodes,
            selected: 0,
            scroll_length: (length - 1) * ITEM_HEIGHT,
            scroll_position: 0,
        }
    }

    /// A table of one node per (address, status) pair, in order, under the
    /// titles "IP" and "Connection status".
    pub fn from_pairs(pairs: Vec<(String, String)>) -> (r: Self)
        requires
            1 <= pairs@.len() <= usize::MAX / 2,
        ensures
            r.wf(),
            string_views(r.fields@) == default_fields(),
            r.nodes@.len() == pairs@.len(),
            forall|i: int|
                0 <= i < pairs@.len() ==> (#[trigger] r.nodes@[i]).ip == pairs@[i].0
                    && r.nodes@[i].conn_status == pairs@[i].1,
            r.selection() == 0,
    {
        let mut nodes: Vec<Node> = Vec::new();
        let mut i: usize = 0;
        while i < pairs.len()
            invariant
                i <= pairs@.len(),
                nodes@.len() == i,
                forall|j: int|
                    0 <= j < i ==> (#[trigger] nodes@[j]).ip == pairs@[j].0 && nodes@[j].conn_status
                        == pairs@[j].1,
            decreases pairs@.len() - i,
        {
            let pair = (pairs[i].0.clone(), pairs[i].1.clone());
            nodes.push(Node::from_tuple(pair));
            i = i + 1;
        }
        let fields = vec!["IP".to_owned(), "Connection status".to_owned()];
        proof {
            assert(string_views(fields@) =~= default_fields());
        }
        NodeTable::new(fields, nodes)
    }

    /// The table that the tool starts with: nine nodes of the test network,
    /// each with status "_".
    pub fn default() -> (r: Self)
        ensures
            r.wf(),
            string_views(r.fields@) == default_fields(),
            r.ips() == default_ips(),
            forall|i: int| 0 <= i < r.nodes@.len() ==> (#[trigger] r.nodes@[i]).conn_status@ == "_"@,
            r.selection() == 0,
    {
        let ips = [
            "192.168.1.201",
            "192.168.1.202",
            "192.168.1.200",
            "192.168.1.110",
            "192.168.1.112",
            "192.168.1.113",
            "192.168.1.114",
            "192.168.1.115",
            "129.168.1.116",
        ];
        let mut pairs: Vec<(String, String)> = Vec::new();
        let mut i: usize = 0;
        while i < 9
            invariant
                i <= 9,
                pairs@.len() == i,
                forall|j: int|
                    0 <= j < i ==> (#[trigger] pairs@[j]).0@ == ips@[j]@ && pairs@[j].1@ == "_"@,
            decreases 9 - i,
        {
            pairs.push((ips[i].to_owned(), "_".to_owned()));
            i = i + 1;
        }
        let r = NodeTable::from_pairs(pairs);
        assert(r.ips() =~= default_ips());
        r
    }

    /// The index of the selected row.
    pub fn get_selected_idx(&self) -> (r: usize)
        ensures
            r == self.selection(),
    {
        self.selected
    }

    /// Selects the next row, staying on the last one.
    pub fn next(&mut self)
        requires
            old(self).wf(),
        ensures
            final(self).wf(),
            final(self).fields == old(self).fields,
            final(self).nodes == old(self).nodes,
            final(self).selection() == next_index(old(self).selection(), old(self).nodes@.len() as int),
    {
        let i = if self.selected >= self.nodes.len() - 1 {
            self.selected
        } else {
            self.selected + 1
        };
        self.selected = i;
        self.scroll_position = i * ITEM_HEIGHT;
    }

    /// Selects the previous row, staying on the first one.
    pub fn previous(&mut self)
        requires
            old(self).wf(),
        ensures
            final(self).wf(),
            final(self).fields == old(self).fields,
            final(self).nodes == old(self).nodes,
            final(self).selection() == previous_index(old(self).selection()),
    {
        let i = if self.selected == 0 {
            0
        } else {
            self.selected - 1
        };
        self.selected = i;
        self.scroll_position = i * ITEM_HEIGHT;
    }

    /// Sets the address of the selected node.
    pub fn update_ip(&mut self, ip: String)
        requires
            old(self).wf(),
        ensures
            final(self).wf(),
            final(self).fields == old(self).fields,
            final(self).selection() == old(self).selection(),
            final(self).nodes@ == old(self).nodes@.update(
                old(self).selection(),
                Node { ip: ip, conn_status: old(self).nodes@[old(self).selection()].conn_status },
            ),
    {
        let i = self.selected;
        self.nodes[i].ip = ip;
    }

    /// The address of the selected node.
    pub fn get_selected_ip(&mut self) -> (r: String)
        requires
            old(self).wf(),
        ensures
            *final(self) == *old(self),
            r == old(self).nodes@[old(self).selection()].ip,
    {
        self.nodes[self.selected].ip.clone()
    }

    /// Sets the connection status of the node at `idx`.
    pub fn update_conn_status(&mut self, idx: usize, status: String)
        requires
            old(self).wf(),
            idx < old(self).nodes@.len(),
        ensures
            final(self).wf(),
            final(self).fields == old(self).fields,
            final(self).selection() == old(self).selection(),
            final(self).nodes@ == old(self).nodes@.update(
                idx as int,
                Node { ip: old(self).nodes@[idx as int].ip, conn_status: status },
            ),
    {
        self.nodes[idx].conn_status = status;
    }

    /// Sets the connection status of every node to "-".
    pub fn reset_conn_status(&mut self)
        requires
            old(self).wf(),
        ensures
            final(self).wf(),
            final(self).fields == old(self).fields,
            final(self).selection() == old(self).selection(),
            final(self).nodes@.len() == old(self).nodes@.len(),
            forall|i: int|
                0 <= i < old(self).nodes@.len() ==> (#[trigger] final(self).nodes@[i]).ip == old(
                    self,
                ).nodes@[i].ip && final(self).nodes@[i].conn_status@ == "-"@,
    {
        let n = self.nodes.len();
        let mut i: usize = 0;
        while i < n
            invariant
                n == old(self).nodes@.len(),
                i <= n,
                self.wf(),
                self.fields == old(self).fields,
                self.selection() == old(self).selection(),
                self.nodes@.len() == n,
                forall|j: int|
                    0 <= j < n ==> (#[trigger] self.nodes@[j]).ip == old(self).nodes@[j].ip,
                forall|j: int| 0 <= j < i ==> (#[trigger] self.nodes@[j]).conn_status@ == "-"@,
            decreases n - i,
        {
            self.nodes[i].conn_status = "-".to_owned();
            i = i + 1;
        }
    }

    /// Appends a node with address `ip` and status "-"; the selection stays.
    pub fn create_ip(&mut self, ip: String)
        requires
            old(self).wf(),
            old(self).nodes@.len() < usize::MAX / 2,
        ensures
            final(self).wf(),
            final(self).fields == old(self).fields,
            final(self).selection() == old(self).selection(),
            final(self).nodes@.len() == old(self).nodes@.len() + 1,
            final(self).nodes@.drop_last() == old(self).nodes@,
            final(self).nodes@.last().ip == ip,
            final(self).nodes@.last().conn_status@ == "-"@,
    {
        self.nodes.push(Node { ip, conn_status: "-".to_owned() });
        self.scroll_length = (self.nodes.len() - 1) * ITEM_HEIGHT;
        assert(self.nodes@.drop_last() =~= old(self).nodes@);
    }

    /// Removes the node at `idx` when it exists and is not the only one; the
    /// selection then stays on its index, or moves to the new last row.
    pub fn delete_ip(&mut self, idx: u32)
        requires
            old(self).wf(),
        ensures
            final(self).wf(),
            final(self).fields == old(self).fields,
            ({
                let n = old(self).nodes@.len();
                if (idx as int) < n && n > 1 {
                    &&& final(self).nodes@ == old(self).nodes@.remove(idx as int)
                    &&& final(self).selection() == if old(self).selection() >= n - 1 {
                        n - 2
                    } else {
                        old(self).selection()
                    }
                } else {
                    &&& final(self).nodes@ == old(self).nodes@
                    &&& final(self).selection() == old(self).selection()
                }
            }),
    {
        let i = idx as usize;
        if i < self.nodes.len() && self.nodes.len() > 1 {
            self.nodes.remove(i);
            let len = self.nodes.len();
            if self.selected >= len {
                self.selected = len - 1;
            }
            self.scroll_length = (len - 1) * ITEM_HEIGHT;
            self.scroll_position = self.selected * ITEM_HEIGHT;
        }
    }
}

} // verus!
