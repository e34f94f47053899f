//! Core of a launcher for packaged applications ("japp" files): a command
//! dispatcher that selects a subcommand from the first argument, and a
//! splitter that partitions the arguments following `run` into leading
//! launcher options and one target file name.

pub mod dispatch;
pub mod splitter;
