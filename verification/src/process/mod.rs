//! Shell selection, command formatting and classification of finished processes.

pub mod command_exec;
pub mod exec_utils;
pub mod file_exec;
