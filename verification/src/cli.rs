//! The logical command surface: the four requests an orchestrator can make of
//! a settings extension, as plain data. Reading them from a textual command
//! line belongs to the surrounding program, not to this crate.

use vstd::prelude::*;

use crate::value::Value;

verus! {

/// Modify a value owned by this setting.
#[derive(Debug, PartialEq)]
pub struct SetCommand {
    /// The version of the setting which should be used.
    pub setting_version: String,
    /// The requested value to be set for the incoming setting.
    pub value: Value,
    /// The current value of this settings tree.
    pub current_value: Option<Value>,
}

/// Generate default values for this setting.
#[derive(Debug, PartialEq)]
pub struct GenerateCommand {
    /// The version of the setting which should be used.
    pub setting_version: String,
    /// Any partially generated data for this setting.
    pub existing_partial: Option<Value>,
    /// Any settings this one depends on for its generation.
    pub required_settings: Option<Value>,
}

/// Validate a value created by external settings.
#[derive(Debug, PartialEq)]
pub struct ValidateCommand {
    /// The version of the setting which should be used.
    pub setting_version: String,
    /// The value to check.
    pub value: Value,
    /// Any settings this one depends on for its validation.
    pub required_settings: Option<Value>,
}

/// Migrate a value from one version to another.
#[derive(Debug, PartialEq)]
pub struct MigrateCommand {
    /// The value to migrate.
    pub value: Value,
    /// The version the value currently has.
    pub from_version: String,
    /// The version to migrate the value to.
    pub target_version: String,
}

/// One request of the first settings extension protocol.
#[derive(Debug, PartialEq)]
pub enum Proto1Command {
    /// Modify values owned by this setting.
    SetValue(SetCommand),
    /// Generate default values for this setting.
    Generate(GenerateCommand),
    /// Validate values created by external settings.
    Validate(ValidateCommand),
    /// Migrate this setting from one given version to another.
    Migrate(MigrateCommand),
}

/// The first settings extension protocol.
#[derive(Debug, PartialEq)]
pub struct Protocol1 {
    /// The requested command.
    pub command: Proto1Command,
}

/// The protocol an invocation selects.
#[derive(Debug, PartialEq)]
pub enum Protocol {
    /// Settings extension protocol 1.
    Proto1(Protocol1),
}

/// A parsed invocation of a settings extension.
#[derive(Debug, PartialEq)]
pub struct Cli {
    /// The selected protocol.
    pub protocol: Protocol,
}

} // verus!
