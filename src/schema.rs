//! The data model of game-server configuration schemas.

use std::collections::HashMap;
use vstd::prelude::*;
use vstd::string::StringExecFns;

verus! {

/// Constraints on a text argument.
#[derive(Debug, Clone, PartialEq)]
pub struct StringConfig {
    /// A regular expression the text must match.
    pub pattern: Option<String>,
    pub max_length: Option<usize>,
    pub min_length: Option<usize>,
}

/// The choices of a selection argument.
#[derive(Debug, Clone, PartialEq)]
pub struct EnumConfig {
    pub values: Vec<String>,
    /// Human-readable names of some of the values.
    pub display_names: Option<HashMap<String, String>>,
}

/// How a condition compares a field's value.
#[derive(Debug, Clone, Copy, PartialEq, Eq, Structural)]
pub enum ConditionOperator {
    Equals,
    NotEquals,
    LessThan,
    GreaterThan,
    LessThanOrEqual,
    GreaterThanOrEqual,
    /// The value contains the operand as a substring.
    Contains,
    /// The value matches the operand as a regular expression.
    Matches,
    /// The value is one of the operands.
    In,
}

/// The operand of a condition.
#[derive(Debug, Clone, PartialEq)]
pub enum ConditionValue {
    Single(String),
    /// Operands of the `In` operator.
    Multiple(Vec<String>),
}

/// A test on the value of one field.
#[derive(Debug, Clone, PartialEq)]
pub struct Condition {
    pub field_name: String,
    pub operator: ConditionOperator,
    pub value: ConditionValue,
}

/// The parts of the server command line, in order; a part `{{name}}`
/// stands for the value of field `name`.
#[derive(Debug, Clone, PartialEq)]
pub struct CommandBuilder {
    pub structure: Vec<String>,
}

/// The fixed part of a server configuration.
#[derive(Debug, Clone)]
pub struct StaticConfig {
    pub steam_app_id: i32,
    /// File name of the server executable.
    pub executable_name: String,
    pub display_name: String,
    pub schema_version: String,
}

/// The summary of a stored schema.
#[derive(Debug, Clone)]
pub struct SchemaMetadata {
    pub id: i32,
    pub name: String,
    pub schema_version: String,
    pub steam_app_id: i32,
}

/// The schema version assumed when a document names none.
pub fn default_schema_version() -> (r: String)
    ensures
        r@ == "1.0.0"@,
{
    broadcast use vstd::string::to_string_from_display_ensures_for_str;

    "1.0.0".to_string()
}

/// A problem found when checking a configuration against its schema.
#[derive(Debug, Clone, PartialEq)]
pub enum SchemaValidationError {
    /// A required field has no value.
    MissingField(String),
    /// The field's value breaks a constraint; the reason follows.
    InvalidFieldValue(String, String),
    GeneralError(String),
}

impl SchemaValidationError {
    pub open spec fn spec_message(&self) -> Seq<char> {
        match self {
            SchemaValidationError::MissingField(f) => "Missing required field: "@ + f@,
            SchemaValidationError::InvalidFieldValue(f, why) => "Invalid value for field '"@ + f@
                + "': "@ + why@,
            SchemaValidationError::GeneralError(why) => "General validation error: "@ + why@,
        }
    }

    /// The human-readable description of the problem.
    pub fn message(&self) -> (r: String)
        ensures
            r@ == self.spec_message(),
    {
        broadcast use vstd::string::to_string_from_display_ensures_for_str;

        match self {
            SchemaValidationError::MissingField(f) => {
                let mut r = "Missing required field: ".to_string();
                r.append(f.as_str());
                r
            },
            SchemaValidationError::InvalidFieldValue(f, why) => {
                let mut r = "Invalid value for field '".to_string();
                r.append(f.as_str());
                r.append("': ");
                r.append(why.as_str());
                r
            },
            SchemaValidationError::GeneralError(why) => {
                let mut r = "General validation error: ".to_string();
                r.append(why.as_str());
                r
            },
        }
    }
}

} // verus!
