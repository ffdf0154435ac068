//! Verified core of rinode: lexical path handling, the deletion safety policy,
//! exclusion rules, restore planning and the small text formatters that the
//! command-line front end prints.

pub mod text;
pub mod storage;
pub mod theme;
pub mod ceremony;
pub mod cli;
pub mod commands;
pub mod dashboard;
pub mod config;
pub mod display;
pub mod hasher;
pub mod init;
pub mod inode;
pub mod notices;
pub mod migration;
pub mod numfmt;
pub mod path;
pub mod patterns;
pub mod queries;
pub mod records;
pub mod restore;
pub mod safety;
pub mod sizes;
pub mod vault;
