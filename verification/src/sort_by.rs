//! Sort order for results.

use vstd::prelude::*;

verus! {

/// Sorting criterion for the returned torrents.
#[derive(Clone, Copy, Debug, PartialEq, Eq, Structural)]
pub enum SortBy {
    Seeders,
    Leechers,
    Last,
}

impl SortBy {
    /// The wire value of this sort order.
    pub open spec fn spec_str(self) -> Seq<char> {
        match self {
            SortBy::Seeders => "seeders"@,
            SortBy::Leechers => "leechers"@,
            SortBy::Last => "last"@,
        }
    }

    /// Serialize the sort order for the query string.
    pub fn as_str(&self) -> (r: &str)
        ensures
            r@ == self.spec_str(),
    {
        match self {
            SortBy::Seeders => "seeders",
            SortBy::Leechers => "leechers",
            SortBy::Last => "last",
        }
    }
}

impl Default for SortBy {
    /// Most recently uploaded first unless the caller asks otherwise.
    fn default() -> (r: Self)
        ensures
            r == SortBy::Last,
    {
        SortBy::Last
    }
}

} // verus!
