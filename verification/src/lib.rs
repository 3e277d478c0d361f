//! A library behind a small terminal browser for mounted disks and
//! directory entries: a wraparound selection over a fixed list of labels,
//! command-line flag parsing, and the formatting of the detail panel that
//! describes the selected disk, file or folder.

pub mod selection;
pub mod numfmt;
pub mod error;
pub mod paths;
pub mod disks;
pub mod files;
pub mod cli;
