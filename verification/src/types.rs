//! Small value types shared by the log store and the tool proxy.

use crate::text::{decimal, decimal_text};
use vstd::prelude::*;

verus! {

/// Identifier that the log store hands out for each entry it records.
#[derive(Debug, Clone, Copy, PartialEq, Eq, Hash, Structural)]
pub struct RequestId(pub usize);

impl RequestId {
    /// Wraps a raw number.
    pub fn new(id: usize) -> (r: Self)
        ensures
            r.0 == id,
    {
        RequestId(id)
    }

    /// The raw number.
    pub fn inner(&self) -> (r: usize)
        ensures
            r == self.0,
    {
        self.0
    }
}

/// Name of a tool.
#[derive(Debug, Clone, Hash)]
pub struct ToolName(pub String);

impl View for ToolName {
    type V = Seq<char>;

    open spec fn view(&self) -> Seq<char> {
        self.0@
    }
}

impl ToolName {
    /// Wraps a name.
    pub fn new(name: String) -> (r: Self)
        ensures
            r@ == name@,
    {
        ToolName(name)
    }

    /// The name as a string slice.
    pub fn as_str(&self) -> (r: &str)
        ensures
            r@ == self@,
    {
        self.0.as_str()
    }

    /// The name as an owned string.
    pub fn into_inner(self) -> (r: String)
        ensures
            r@ == self@,
    {
        self.0
    }
}

impl RequestId {
    /// The number in decimal.
    pub fn to_text(&self) -> (r: String)
        ensures
            r@ == decimal_text(self.0 as nat),
    {
        decimal(self.0)
    }
}

impl From<usize> for RequestId {
    fn from(value: usize) -> (r: Self) {
        RequestId(value)
    }
}

impl vstd::std_specs::convert::FromSpecImpl<usize> for RequestId {
    open spec fn obeys_from_spec() -> bool {
        true
    }

    open spec fn from_spec(value: usize) -> Self {
        RequestId(value)
    }
}

impl From<RequestId> for usize {
    fn from(value: RequestId) -> (r: usize) {
        value.0
    }
}

impl vstd::std_specs::convert::FromSpecImpl<RequestId> for usize {
    open spec fn obeys_from_spec() -> bool {
        true
    }

    open spec fn from_spec(value: RequestId) -> usize {
        value.0
    }
}

impl From<String> for ToolName {
    fn from(value: String) -> (r: Self) {
        ToolName(value)
    }
}

impl vstd::std_specs::convert::FromSpecImpl<String> for ToolName {
    open spec fn obeys_from_spec() -> bool {
        true
    }

    open spec fn from_spec(value: String) -> Self {
        ToolName(value)
    }
}

impl ToolName {
    /// The name as text.
    pub fn to_text(&self) -> (r: String)
        ensures
            r@ == self@,
    {
        self.0.clone()
    }
}

impl<'a> From<&'a str> for ToolName {
    fn from(value: &'a str) -> (r: Self)
        ensures
            r@ == value@,
    {
        ToolName(value.to_owned())
    }
}

impl<'a> vstd::std_specs::convert::FromSpecImpl<&'a str> for ToolName {
    open spec fn obeys_from_spec() -> bool {
        false
    }

    open spec fn from_spec(value: &'a str) -> Self {
        arbitrary()
    }
}

impl PartialEq for ToolName {
    fn eq(&self, other: &Self) -> (r: bool) {
        self.0 == other.0
    }
}

impl vstd::std_specs::cmp::PartialEqSpecImpl for ToolName {
    open spec fn obeys_eq_spec() -> bool {
        true
    }

    open spec fn eq_spec(&self, other: &Self) -> bool {
        self@ == other@
    }
}

impl Eq for ToolName {

}

impl AsRef<str> for ToolName {
    fn as_ref(&self) -> (r: &str)
        ensures
            r@ == self@,
    {
        self.0.as_str()
    }
}

} // verus!
