//! Supervision logic of the dsh desktop shell.

pub mod child;
pub mod dsh;
pub mod install;
pub mod launch;
pub mod listener;
pub mod nodejs;
pub mod orphan;
pub mod outside;
pub mod paths;
pub mod plugin;
pub mod resolve;
pub mod runtime;
pub mod shell;
pub mod start;
pub mod text;
pub mod update;
pub mod watch;
