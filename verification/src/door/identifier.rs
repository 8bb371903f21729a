//! Names of doors.

use vstd::prelude::*;

verus! {

/// The name of a door: the key under which the door is configured.
#[derive(Debug, Clone, PartialEq, Eq, Hash)]
pub struct Identifier(pub String);

impl View for Identifier {
    type V = Seq<char>;

    open spec fn view(&self) -> Seq<char> {
        self.0@
    }
}

impl From<String> for Identifier {
    fn from(string: String) -> (identifier: Identifier) {
        Identifier(string)
    }
}

impl vstd::std_specs::convert::FromSpecImpl<String> for Identifier {
    open spec fn obeys_from_spec() -> bool {
        true
    }

    open spec fn from_spec(string: String) -> Identifier {
        Identifier(string)
    }
}

} // verus!
