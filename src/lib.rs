//! Scoped guards over ambient operating-system state: advisory file locks and
//! signal dispositions, with the decisions around them verified.

pub mod config_files;
pub mod fs;
pub mod os;
pub mod signals;
