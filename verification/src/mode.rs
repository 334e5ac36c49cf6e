//! Request mode: plain listing or search.

use vstd::prelude::*;

verus! {

/// What kind of request is being made: a search, or a plain listing of
/// recent torrents.
#[derive(Clone, Copy, Debug, PartialEq, Eq, Structural)]
pub enum Mode {
    Search,
    List,
}

impl Mode {
    /// The wire value of this mode.
    pub open spec fn spec_str(self) -> Seq<char> {
        match self {
            Mode::Search => "search"@,
            Mode::List => "list"@,
        }
    }

    /// Serialize the mode for the query string.
    pub fn as_str(&self) -> (r: &str)
        ensures
            r@ == self.spec_str(),
    {
        match self {
            Mode::Search => "search",
            Mode::List => "list",
        }
    }
}

} // verus!
