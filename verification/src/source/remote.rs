//! Configuration from a remote endpoint.

use vstd::prelude::*;
use vstd::std_specs::convert::IntoSpec;
use crate::source::ConfigSource;

verus! {

/// A source that names a remote endpoint. How the endpoint is asked is left
/// to the caller.
pub struct RemoteSource {
    url: String,
}

impl RemoteSource {
    /// The address of the endpoint.
    pub closed spec fn url(&self) -> String {
        self.url
    }

    /// A source for the endpoint at `url`: its address is what `url` converts
    /// into.
    pub fn new<U: Into<String>>(url: U) -> (source: Self)
        ensures
            call_ensures(<U as Into<String>>::into, (url,), source.url()),
            U::obeys_into_spec() ==> source.url() == U::into_spec(url),
    {
        Self { url: url.into() }
    }

    /// The address of the endpoint.
    pub fn address(&self) -> (text: &str)
        ensures
            text@ == self.url()@,
    {
        self.url.as_str()
    }
}

impl ConfigSource for RemoteSource {
}

} // verus!
