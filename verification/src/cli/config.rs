//! Options of the configuration command.

use vstd::prelude::*;

verus! {

/// Options of the configuration command.
#[derive(Debug, Clone)]
pub struct Options {
    pub subcommand: Subcommand,
}

/// The configuration subcommand to run.
#[derive(Debug, Clone)]
pub enum Subcommand {
    Edit(EditOptions),
    SetValue(SetOptions),
}

/// Options of the edit subcommand: the configuration is opened in
/// the default editor.
#[derive(Debug, Clone)]
pub struct EditOptions {}

/// Options of the set subcommand: one key is given one new value.
#[derive(Debug, Clone)]
pub struct SetOptions {
    /// The key to set.
    pub key: String,
    /// The new value.
    pub value: String,
}

} // verus!
