//! A settings SDK: versioned configuration schemas, a version registry, and a
//! migration engine that routes and folds an exchange value between any two
//! registered schema versions.

pub mod cli;
pub mod error;
pub mod extension;
pub mod model;
pub mod motd;
pub mod value;

pub use error::{Error, ErrorView};
pub use extension::{MigrationDirection, SettingsExtension};
pub use model::{BottlerocketSetting, GenerateResult, Model, NoMigration, SettingsModel, ValueConvert};
pub use value::{Value, ValueView};
