//! The shape that a configuration is expected to have.

use std::collections::HashMap;
use vstd::prelude::*;
use crate::value::ConfigValue;

verus! {

/// The kind of value that a field is expected to hold.
#[derive(Debug, Clone, Copy, PartialEq, Eq)]
pub enum SchemaType {
    String,
    Number,
    Boolean,
    Array,
    Object,
}

/// A check on a configuration value.
pub trait Validator: Send + Sync {
    /// Whether `value` passes the check.
    fn validate(&self, value: &ConfigValue) -> bool;

    /// What to report of a value that does not pass.
    fn error_message(&self) -> String;
}

/// The fields that a configuration must have, the kinds of their values, and
/// further checks.
pub struct ConfigSchema {
    required_fields: Vec<String>,
    field_types: HashMap<String, SchemaType>,
    validators: Vec<Box<dyn Validator>>,
}

} // verus!
