//! Quartz: the decision logic of a desktop front end for the Geode command-line tool.
//!
//! Every screen of the program is a state machine here: a message comes in, the state
//! changes, and an effect tells the program around the library which outside work to run.

pub mod text;
pub mod ansi;
pub mod profiles;
pub mod command;
pub mod new;
pub mod geode_new;
pub mod build_tab;
pub mod setup;
pub mod app;
pub mod theme;
