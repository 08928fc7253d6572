//! Start-up logic of a desktop application shell: the phases that launching the
//! runtime goes through, and the table of commands that the front end may invoke.

pub mod commands;
pub mod startup;
