//! A verified core for a terminal status dashboard.
//!
//! The dashboard is a fixed-order stack of segments (identity, network
//! address, operating system, uptime, load, memory, disks, containers,
//! decorative heading and quote).  Acquisition of the underlying system
//! data is concurrent and fallible; this crate holds the pure part of the
//! pipeline: the immutable per-segment snapshots, the formatting rules
//! that turn a snapshot into text lines, and the layout algorithm that
//! stacks every segment's lines into one gapless frame.

pub mod command;
pub mod disk;
pub mod docker;
pub mod duration;
pub mod fortune;
pub mod heading;
pub mod load;
pub mod ip;
pub mod layout;
pub mod level;
pub mod memory;
pub mod os;
pub mod pipeline;
pub mod quote;
pub mod outside;
pub mod render;
pub mod temperatures;
pub mod text;
pub mod units;
pub mod updates;
pub mod uptime;
pub mod user;
