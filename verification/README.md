# blanknet

A terminal tool that pings a list of IPv4 nodes, lets the operator edit that
list (saved as a JSON array of addresses), and shows radio metrics sampled by a
Python sniffer.

- `src/` is the library, verified with Verus: the tool's state and how it
  reacts to keys and idle ticks (`app`), the node table (`nodetable`), the
  configuration text (`config`), IPv4 address reading (`address`), the ICMP
  echo request and the ping decisions (`icmp`), what each screen shows
  (`screen`), and properties that span several steps (`laws`).
- `app/` is the program around it: the terminal (ratatui), the raw sockets of
  the ping (pnet), the Python sniffer (pyo3), the configuration file and the
  command line (clap).
- `tests/` runs the library on concrete values.
