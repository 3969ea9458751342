//! The option records and pure rendering of the command-line front
//! end. Argument parsing, configuration files and printing stay with
//! the front end itself; what it computes is here.

pub mod config;
pub mod list_posts;
pub mod profile;
