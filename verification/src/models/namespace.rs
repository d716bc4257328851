use crate::utils::text::owned;
use vstd::prelude::*;

verus! {

/// The namespace of an index
#[derive(Debug, Clone, PartialEq, Eq, Hash, Default, PartialOrd, Ord)]
pub struct Namespace {
    /// The name of the namespace
    pub name: String,
}

impl From<String> for Namespace {
    fn from(name: String) -> (r: Namespace)
        ensures
            r.name == name,
    {
        Self { name }
    }
}

impl vstd::std_specs::convert::FromSpecImpl<String> for Namespace {
    open spec fn obeys_from_spec() -> bool {
        true
    }

    open spec fn from_spec(v: String) -> Namespace {
        Namespace { name: v }
    }
}

impl Namespace {
    /// The namespace with the given name.
    pub fn named(name: &str) -> (r: Namespace)
        ensures
            r.name@ == name@,
    {
        Self { name: owned(name) }
    }
}

impl From<&str> for Namespace {
    /// The namespace with the given name (see `Namespace::named`).
    fn from(name: &str) -> (r: Namespace)
        ensures
            r.name@ == name@,
    {
        Namespace::named(name)
    }
}

impl vstd::std_specs::convert::FromSpecImpl<&str> for Namespace {
    /// No value can be written for the result in spec code (it owns a copy of the name), so
    /// the generic conversion law is not claimed; `from` states the result itself.
    open spec fn obeys_from_spec() -> bool {
        false
    }

    open spec fn from_spec(v: &str) -> Namespace {
        vstd::pervasive::arbitrary()
    }
}

} // verus!
