//! The errors of the library.

use vstd::prelude::*;

verus! {

/// `std::io::Error`: the cause of a failed read. The library carries it
/// through and asks it only for its text.
#[verifier::external_type_specification]
#[verifier::external_body]
pub struct ExIoError(std::io::Error);

/// What can go wrong while configuration is loaded.
#[derive(Debug)]
pub enum ConfigError {
    /// A source could not produce its raw data.
    SourceError(String),
    /// Raw data could not be parsed into a value, or the merged value could
    /// not be decoded into the typed configuration.
    DeserializationError(String),
    /// A failure of the file system.
    IoError(std::io::Error),
}

impl ConfigError {
    /// The text of the error: a label for its kind, then what it carries.
    pub fn message(&self) -> (text: String)
        ensures
            match self {
                ConfigError::SourceError(m) => text@ == "Source error: "@ + m@,
                ConfigError::DeserializationError(m) => text@ == "Deserialization error: "@ + m@,
                ConfigError::IoError(e) => exists|cause: String|
                    vstd::string::to_string_from_display_ensures::<std::io::Error>(e, cause) && text@
                        == "IO error: "@ + cause@,
            },
    {
        match self {
            ConfigError::SourceError(m) => String::from_str("Source error: ").concat(m.as_str()),
            ConfigError::DeserializationError(m) => String::from_str("Deserialization error: ").concat(
                m.as_str(),
            ),
            ConfigError::IoError(e) => {
                let cause = e.to_string();
                String::from_str("IO error: ").concat(cause.as_str())
            },
        }
    }
}

impl From<std::io::Error> for ConfigError {
    /// A failure of the file system as an error of the library.
    fn from(cause: std::io::Error) -> (r: ConfigError) {
        ConfigError::IoError(cause)
    }
}

impl vstd::std_specs::convert::FromSpecImpl<std::io::Error> for ConfigError {
    open spec fn obeys_from_spec() -> bool {
        true
    }

    open spec fn from_spec(cause: std::io::Error) -> ConfigError {
        ConfigError::IoError(cause)
    }
}

} // verus!
