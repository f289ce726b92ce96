//! Point-in-time health metrics of a node process: the most specific mount
//! that holds a path, disk usage of that mount, network counter totals and
//! the assembly of one health snapshot from independently gathered readings.

pub mod path;
pub mod mount;
pub mod network;
pub mod health;
