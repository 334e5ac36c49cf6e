//! Response format selector: compact or extended detail per torrent.

use vstd::prelude::*;

verus! {

/// How much detail the server puts into each returned torrent. `Json` is
/// the compact form; `JsonExtended` adds seeders, leechers, size, dates
/// and episode metadata.
#[derive(Clone, Copy, Debug, PartialEq, Eq, Structural)]
pub enum Format {
    Json,
    JsonExtended,
}

impl Format {
    /// The wire value of this format.
    pub open spec fn spec_str(self) -> Seq<char> {
        match self {
            Format::Json => "json"@,
            Format::JsonExtended => "json_extended"@,
        }
    }

    /// Serialize the format for the query string.
    pub fn as_str(&self) -> (r: &str)
        ensures
            r@ == self.spec_str(),
    {
        match self {
            Format::Json => "json",
            Format::JsonExtended => "json_extended",
        }
    }
}

impl Default for Format {
    /// Compact responses unless the caller asks for more.
    fn default() -> (r: Self)
        ensures
            r == Format::Json,
    {
        Format::Json
    }
}

} // verus!
