//! Configuration from environment variables.

use vstd::prelude::*;
use vstd::string::StrSliceExecFns;
use crate::model::Tree;
use crate::source::ConfigSource;
use crate::value::{ConfigValue, ObjectMap};

verus! {

/// The lower-case form of a text, as `str::to_lowercase` gives it.
pub uninterp spec fn lowercase(text: Seq<char>) -> Seq<char>;

/// `str::starts_with` with a string as the pattern: whether `prefix` is a
/// prefix of `text`.
#[verifier::external_body]
fn starts_with(text: &str, prefix: &str) -> (found: bool)
    ensures
        found == prefix@.is_prefix_of(text@),
{
    text.starts_with(prefix)
}

/// `str::to_lowercase`: the result is `lowercase` of the text.
#[verifier::external_body]
fn to_lowercase(text: &str) -> (lower: String)
    ensures
        lower@ == lowercase(text@),
{
    text.to_lowercase()
}

/// The key under which the variable `name` is stored: what follows the
/// prefix, in lower case.
pub open spec fn env_key(prefix: Seq<char>, name: Seq<char>) -> Seq<char> {
    lowercase(name.skip(prefix.len() as int))
}

/// The object that the variables `vars` give under `prefix`: each variable
/// whose name starts with the prefix is stored under `env_key` of its name
/// with its value as a text, a later variable replacing an earlier one with
/// the same key.
pub open spec fn env_record(prefix: Seq<char>, vars: Seq<(String, String)>) -> Map<Seq<char>, Tree>
    decreases vars.len(),
{
    if vars.len() == 0 {
        Map::empty()
    } else {
        let rest = env_record(prefix, vars.drop_last());
        let last = vars.last();
        if prefix.is_prefix_of(last.0@) {
            rest.insert(env_key(prefix, last.0@), Tree::Text(last.1@))
        } else {
            rest
        }
    }
}

/// A source that reads the environment variables whose names start with a
/// prefix.
pub struct EnvSource {
    prefix: String,
}

impl EnvSource {
    /// The prefix of the source.
    pub closed spec fn prefix(&self) -> Seq<char> {
        self.prefix@
    }

    /// A source for the variables whose names start with `prefix`.
    pub fn new(prefix: String) -> (source: Self)
        ensures
            source.prefix() == prefix@,
    {
        Self { prefix }
    }

    /// The value that the variables `vars`, given as names with their
    /// values, produce: a flat object of texts.
    pub fn load_vars(&self, vars: &Vec<(String, String)>) -> (value: ConfigValue)
        ensures
            value@ == Tree::Record(env_record(self.prefix(), vars@)),
    {
        let mut map = ObjectMap::new();
        let prefix_len = self.prefix.as_str().unicode_len();
        let mut i: usize = 0;
        assert(vars@.take(0) =~= Seq::<(String, String)>::empty());
        while i < vars.len()
            invariant
                i <= vars@.len(),
                prefix_len == self.prefix@.len(),
                map@ == env_record(self.prefix@, vars@.take(i as int)),
            decreases vars@.len() - i,
        {
            assert(vars@.take(i as int + 1).drop_last() =~= vars@.take(i as int));
            assert(vars@.take(i as int + 1).last() == vars@[i as int]);
            let name = vars[i].0.as_str();
            if starts_with(name, self.prefix.as_str()) {
                let name_len = name.unicode_len();
                let rest = name.substring_char(prefix_len, name_len);
                let key = to_lowercase(rest);
                map.insert(key, ConfigValue::String(vars[i].1.clone()));
            }
            i += 1;
        }
        assert(vars@.take(i as int) =~= vars@);
        ConfigValue::Object(map)
    }
}

impl ConfigSource for EnvSource {
}

} // verus!
