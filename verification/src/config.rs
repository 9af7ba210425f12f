//! The configuration of one invocation: the face collection to index into
//! and the table that takes the records.

use crate::model::text_opt;
use vstd::prelude::*;
use vstd::string::*;

verus! {

/// The variable that names the face collection.
pub const COLLECTION_VARIABLE: &'static str = "RECOGNITION_COLLECTION";

/// The variable that names the table of records.
pub const TABLE_VARIABLE: &'static str = "RECORD_TABLE";

/// A required setting that is absent.
#[derive(Debug, Clone, Copy, PartialEq, Eq, Structural)]
pub enum ConfigError {
    MissingCollection,
    MissingTable,
}

impl ConfigError {
    /// The variable whose absence this error reports.
    pub open spec fn variable(self) -> Seq<char> {
        match self {
            ConfigError::MissingCollection => COLLECTION_VARIABLE@,
            ConfigError::MissingTable => TABLE_VARIABLE@,
        }
    }

    /// The text that describes this error.
    pub fn message(&self) -> (text: String)
        ensures
            text@ == "Environment variable "@ + self.variable() + " not set"@,
    {
        let mut text = "Environment variable ".to_owned();
        match self {
            ConfigError::MissingCollection => text.append(COLLECTION_VARIABLE),
            ConfigError::MissingTable => text.append(TABLE_VARIABLE),
        }
        text.append(" not set");
        text
    }
}

/// The settings of one invocation.
#[derive(Debug, PartialEq, Eq)]
pub struct Config {
    pub collection_id: String,
    pub table_name: String,
}

/// The view of a [`Config`].
pub struct ConfigView {
    pub collection_id: Seq<char>,
    pub table_name: Seq<char>,
}

impl View for Config {
    type V = ConfigView;

    open spec fn view(&self) -> ConfigView {
        ConfigView { collection_id: self.collection_id@, table_name: self.table_name@ }
    }
}

/// The settings that the two values give: both are required, and the
/// collection is looked at first.
pub open spec fn resolved(collection: Option<Seq<char>>, table: Option<Seq<char>>) -> Result<
    ConfigView,
    ConfigError,
> {
    match collection {
        None => Err(ConfigError::MissingCollection),
        Some(collection_id) => match table {
            None => Err(ConfigError::MissingTable),
            Some(table_name) => Ok(ConfigView { collection_id, table_name }),
        },
    }
}

/// The view of what [`resolve`] returns.
pub open spec fn resolution_view(r: Result<Config, ConfigError>) -> Result<
    ConfigView,
    ConfigError,
> {
    match r {
        Ok(config) => Ok(config@),
        Err(e) => Err(e),
    }
}

/// Settles the configuration from the values of the two variables, each
/// `None` where the variable is not set.
pub fn resolve(collection: Option<String>, table: Option<String>) -> (config: Result<
    Config,
    ConfigError,
>)
    ensures
        resolution_view(config) == resolved(text_opt(collection), text_opt(table)),
{
    match collection {
        None => Err(ConfigError::MissingCollection),
        Some(collection_id) => match table {
            None => Err(ConfigError::MissingTable),
            Some(table_name) => Ok(Config { collection_id, table_name }),
        },
    }
}

} // verus!
