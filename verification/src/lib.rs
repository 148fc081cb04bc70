//! Verified core of a network-attached actuator controller.
//!
//! A small device joins a WiFi network, waits for an address, and serves a
//! minimal HTTP-like endpoint on port 80.  Request bytes are scanned for two
//! control tokens that drive a pair of mutually exclusive digital output
//! lines (an up/down actuator).  This crate holds the decision logic of that
//! firmware: the command interpreter, the actuator controller with its
//! mutual-exclusion invariant, the per-connection lifecycle state machine,
//! and the association/bring-up state machines.  A driver binary performs
//! the radio, timer and socket operations and feeds their outcomes to these
//! machines as plain events.

pub mod actuator;
pub mod command;
pub mod lifecycle;
pub mod response;
pub mod wifi;
