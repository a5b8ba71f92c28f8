//! The values exchanged with the controller.

pub mod manage_inject;
pub mod manage_reporting;
