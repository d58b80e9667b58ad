//! Configuration from a file.

use std::path::PathBuf;
use vstd::prelude::*;
use vstd::string::to_string_from_display_ensures;
use crate::error::ConfigError;
use crate::json::{from_json, json_from_str, json_parsed, json_text, json_to_string, json_tree};
use crate::model::Tree;
use crate::source::ConfigSource;
use crate::value::ConfigValue;

verus! {

/// `std::path::PathBuf`: the path of a file. The library keeps it and hands
/// it back.
#[verifier::external_type_specification]
#[verifier::external_body]
pub struct ExPathBuf(PathBuf);

/// `serde_yaml::Error`: why a text is no YAML document.
#[verifier::external_type_specification]
#[verifier::external_body]
pub struct ExYamlError(serde_yaml::Error);

/// `toml::Value`: a TOML document.
#[verifier::external_type_specification]
#[verifier::external_body]
pub struct ExTomlValue(toml::Value);

/// `toml::de::Error`: why a text is no TOML document.
#[verifier::external_type_specification]
#[verifier::external_body]
pub struct ExTomlError(toml::de::Error);

/// What `serde_yaml::from_str` makes of a text, read as a JSON value: the
/// tree of that value, or why the text stands for none.
pub uninterp spec fn yaml_parsed(text: Seq<char>) -> Result<Tree, serde_yaml::Error>;

/// What `toml::from_str` makes of a text.
pub uninterp spec fn toml_parsed(text: Seq<char>) -> Result<toml::Value, toml::de::Error>;

/// What `serde_json::to_value` makes of a TOML document: the tree of the
/// JSON value, or why there is none.
pub uninterp spec fn json_of_toml(document: toml::Value) -> Result<Tree, serde_json::Error>;

/// `serde_yaml::from_str` at `serde_json::Value`: the tree of the value, or
/// the error, is `yaml_parsed` of the text.
#[verifier::external_body]
fn yaml_from_str(text: &str) -> (r: Result<serde_json::Value, serde_yaml::Error>)
    ensures
        match r {
            Ok(v) => yaml_parsed(text@) == Ok::<Tree, serde_yaml::Error>(json_tree(v)),
            Err(e) => yaml_parsed(text@) == Err::<Tree, serde_yaml::Error>(e),
        },
{
    serde_yaml::from_str::<serde_json::Value>(text)
}

/// `toml::from_str` at `toml::Value`: the result is `toml_parsed` of the
/// text.
#[verifier::external_body]
fn toml_from_str(text: &str) -> (r: Result<toml::Value, toml::de::Error>)
    ensures
        r == toml_parsed(text@),
{
    toml::from_str::<toml::Value>(text)
}

/// `serde_json::to_value` of a `toml::Value`: the tree of the value, or the
/// error, is `json_of_toml` of the document.
#[verifier::external_body]
fn json_from_toml(document: toml::Value) -> (r: Result<serde_json::Value, serde_json::Error>)
    ensures
        match r {
            Ok(v) => json_of_toml(document) == Ok::<Tree, serde_json::Error>(json_tree(v)),
            Err(e) => json_of_toml(document) == Err::<Tree, serde_json::Error>(e),
        },
{
    serde_json::to_value(document)
}

/// The format in which a file holds its configuration.
#[derive(Clone, Copy, Debug, PartialEq, Eq, Structural)]
pub enum FileFormat {
    Yaml,
    Toml,
}

impl Default for FileFormat {
    /// YAML, unless a source says otherwise.
    fn default() -> (format: Self)
        ensures
            format == FileFormat::Yaml,
    {
        FileFormat::Yaml
    }
}

/// Whether `outcome` is the failure to decode that the cause `cause`
/// stands for: a `DeserializationError` with the text of the cause.
pub open spec fn is_decode_failure<E: std::fmt::Display>(
    cause: E,
    outcome: Result<ConfigValue, ConfigError>,
) -> bool {
    outcome matches Err(ConfigError::DeserializationError(text)) && to_string_from_display_ensures::<E>(
        &cause,
        text,
    )
}

/// Whether `outcome` is what a parsed document stands for: the value with
/// the tree of the document, or the failure to decode it.
pub open spec fn is_decode_outcome<E: std::fmt::Display>(
    parsed: Result<Tree, E>,
    outcome: Result<ConfigValue, ConfigError>,
) -> bool {
    match parsed {
        Ok(tree) => outcome matches Ok(value) && value@ == tree,
        Err(cause) => is_decode_failure(cause, outcome),
    }
}

/// The tree of a parsed document, or why there is none.
pub open spec fn parsed_tree<E>(parsed: Result<serde_json::Value, E>) -> Result<Tree, E> {
    match parsed {
        Ok(document) => Ok(json_tree(document)),
        Err(cause) => Err(cause),
    }
}

/// Whether `outcome` is what the YAML text `text` stands for. The text is
/// parsed as YAML into a JSON value, which is written out as JSON text and
/// parsed again; the first of these steps that fails decides the error.
pub open spec fn is_yaml_outcome(text: Seq<char>, outcome: Result<ConfigValue, ConfigError>) -> bool {
    match yaml_parsed(text) {
        Err(cause) => is_decode_failure(cause, outcome),
        Ok(tree) => match json_text(tree) {
            Err(cause) => is_decode_failure(cause, outcome),
            Ok(written) => is_decode_outcome(json_parsed(written), outcome),
        },
    }
}

/// Whether `outcome` is what the TOML text `text` stands for. The text is
/// parsed as TOML and the document turned into a JSON value; the first of
/// these steps that fails decides the error.
pub open spec fn is_toml_outcome(text: Seq<char>, outcome: Result<ConfigValue, ConfigError>) -> bool {
    match toml_parsed(text) {
        Err(cause) => is_decode_failure(cause, outcome),
        Ok(document) => is_decode_outcome(json_of_toml(document), outcome),
    }
}

/// The failure to decode that `cause` stands for.
pub fn decode_failure<E: std::fmt::Display>(cause: &E) -> (error: ConfigError)
    ensures
        error matches ConfigError::DeserializationError(text) && to_string_from_display_ensures::<E>(
            cause,
            text,
        ),
{
    ConfigError::DeserializationError(cause.to_string())
}

/// What a parsed document stands for: the value with its tree, or the
/// failure to decode it.
pub fn decode_outcome<E: std::fmt::Display>(parsed: Result<serde_json::Value, E>) -> (outcome: Result<
    ConfigValue,
    ConfigError,
>)
    ensures
        is_decode_outcome(parsed_tree(parsed), outcome),
{
    match parsed {
        Ok(document) => Ok(from_json(&document)),
        Err(cause) => Err(decode_failure(&cause)),
    }
}

/// A source that reads one file in a given format.
pub struct FileSource {
    path: PathBuf,
    format: FileFormat,
}

impl FileSource {
    /// The path of the file.
    pub closed spec fn path(&self) -> PathBuf {
        self.path
    }

    /// The format of the file.
    pub closed spec fn format(&self) -> FileFormat {
        self.format
    }

    /// A source for the file at `path`, in YAML.
    pub fn new(path: PathBuf) -> (source: Self)
        ensures
            source.path() == path,
            source.format() == FileFormat::Yaml,
    {
        Self { path, format: FileFormat::default() }
    }

    /// The same source, reading its file in `format`.
    pub fn with_format(self, format: FileFormat) -> (source: Self)
        ensures
            source.path() == self.path(),
            source.format() == format,
    {
        Self { path: self.path, format }
    }

    /// The path of the file, for the caller that reads it.
    pub fn file_path(&self) -> (path: &PathBuf)
        ensures
            *path == self.path(),
    {
        &self.path
    }

    /// The format of the file.
    pub fn file_format(&self) -> (format: FileFormat)
        ensures
            format == self.format(),
    {
        self.format
    }

    /// The value that the contents of the file produce in the format of the
    /// source, or the failure to decode them. Nothing else can go wrong
    /// here.
    pub fn load_text(&self, contents: &str) -> (outcome: Result<ConfigValue, ConfigError>)
        ensures
            self.format() == FileFormat::Yaml ==> is_yaml_outcome(contents@, outcome),
            self.format() == FileFormat::Toml ==> is_toml_outcome(contents@, outcome),
    {
        match self.format {
            FileFormat::Yaml => {
                let document = match yaml_from_str(contents) {
                    Ok(document) => document,
                    Err(cause) => {
                        return Err(decode_failure(&cause));
                    },
                };
                let written = match json_to_string(&document) {
                    Ok(written) => written,
                    Err(cause) => {
                        return Err(decode_failure(&cause));
                    },
                };
                decode_outcome(json_from_str(written.as_str()))
            },
            FileFormat::Toml => {
                let document = match toml_from_str(contents) {
                    Ok(document) => document,
                    Err(cause) => {
                        return Err(decode_failure(&cause));
                    },
                };
                decode_outcome(json_from_toml(document))
            },
        }
    }
}

impl ConfigSource for FileSource {
    /// A file source cannot signal changes of its file.
    fn supports_hot_reload(&self) -> (supported: bool)
        ensures
            !supported,
    {
        false
    }
}

} // verus!
