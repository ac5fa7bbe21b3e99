//! The verified core of a terminal tool that tests whether a list of IPv4
//! nodes answers to ping, edits and saves that list, and shows radio metrics.
//!
//! The library holds the state of the tool and every decision it takes; the
//! terminal, the network, the Python sniffer and the file system stay with
//! the program that drives it.
pub mod address;
pub mod app;
pub mod config;
pub mod icmp;
pub mod laws;
pub mod nodetable;
pub mod screen;
