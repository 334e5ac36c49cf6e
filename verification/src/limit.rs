//! Result-count limit accepted by the API: 25, 50 or 100 torrents.

use vstd::prelude::*;

verus! {

/// How many torrents one request may return. The API accepts exactly
/// these three counts.
#[derive(Clone, Copy, Debug, PartialEq, Eq, Structural)]
pub enum Limit {
    TwentyFive,
    Fifty,
    OneHundred,
}

impl Limit {
    /// The wire value of this limit: its count in decimal.
    pub open spec fn spec_str(self) -> Seq<char> {
        match self {
            Limit::TwentyFive => "25"@,
            Limit::Fifty => "50"@,
            Limit::OneHundred => "100"@,
        }
    }

    /// Serialize the limit for the query string.
    pub fn as_str(&self) -> (r: &str)
        ensures
            r@ == self.spec_str(),
    {
        match self {
            Limit::TwentyFive => "25",
            Limit::Fifty => "50",
            Limit::OneHundred => "100",
        }
    }
}

impl Default for Limit {
    /// The API's default page size.
    fn default() -> (r: Self)
        ensures
            r == Limit::TwentyFive,
    {
        Limit::TwentyFive
    }
}

} // verus!
