//! A ports collection for SeeleOS: what each package is, what it needs,
//! and the steps that fetch, patch, configure, build and install it into
//! the staged sysroot.

pub mod layout;
pub mod text;
pub mod path;
pub mod command;
pub mod error;
pub mod types;
pub mod cli;
pub mod misc;
pub mod libtool;
pub mod gnu_config;
pub mod config_sub_facts;
pub mod edit_facts;
pub mod order;
pub mod patch;
pub mod busybox_config;
pub mod cross;
pub mod configure;
pub mod plan;
pub mod fetch;
pub mod building;
pub mod install;
pub mod registry;
pub mod workflow;
pub mod recipes;
pub mod packages;
pub mod desktop;
pub mod clang;

