//! Screen capture: display enumeration, capture options, and the decisions of
//! two capture backends (a callback-driven display stream with a latest-wins
//! handoff, and a synchronous device-context copy), each with its contract.

pub mod capture;
pub mod display;
