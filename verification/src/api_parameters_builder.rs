//! Mutable builder for [`ApiParameters`], discarded after `build`.

use vstd::prelude::*;

use crate::api_parameters::{ApiParameters, ApiParametersView};
use crate::category::Category;
use crate::format::Format;
use crate::limit::Limit;
use crate::sort_by::SortBy;

verus! {

/// Accumulates query options field by field; `build` produces the
/// immutable [`ApiParameters`]. Each setter returns the builder again so
/// that calls chain.
#[derive(Clone, Debug)]
pub struct ApiParametersBuilder {
    ranked: bool,
    limit: Limit,
    categories: Option<Vec<Category>>,
    sort_by: SortBy,
    minimum_seeders: Option<u32>,
    minimum_leechers: Option<u32>,
    format: Format,
}

impl View for ApiParametersBuilder {
    type V = ApiParametersView;

    closed spec fn view(&self) -> ApiParametersView {
        ApiParametersView {
            ranked: self.ranked,
            limit: self.limit,
            categories: match self.categories {
                Some(cs) => Some(cs@),
                None => None,
            },
            sort_by: self.sort_by,
            minimum_seeders: self.minimum_seeders,
            minimum_leechers: self.minimum_leechers,
            format: self.format,
        }
    }
}

/// An element-by-element copy of a category list.
fn copy_categories(cs: &Vec<Category>) -> (r: Vec<Category>)
    ensures
        r@ == cs@,
{
    let mut out: Vec<Category> = Vec::new();
    let mut i: usize = 0;
    while i < cs.len()
        invariant
            i <= cs.len(),
            out@ == cs@.take(i as int),
        decreases cs.len() - i,
    {
        out.push(cs[i]);
        i = i + 1;
        proof {
            assert(out@ =~= cs@.take(i as int));
        }
    }
    proof {
        assert(cs@.take(cs@.len() as int) =~= cs@);
    }
    out
}

impl ApiParametersBuilder {
    /// Restrict the listing to ranked torrents (scene, rarbg and rartv
    /// releases), or open it to all.
    pub fn ranked(&mut self, ranked: bool) -> (r: &mut ApiParametersBuilder)
        ensures
            r@ == (ApiParametersView { ranked, ..old(self)@ }),
            *final(self) == *final(r),
    {
        self.ranked = ranked;
        self
    }

    /// Bound the number of returned torrents by 25, 50 or 100.
    pub fn limit(&mut self, limit: Limit) -> (r: &mut ApiParametersBuilder)
        ensures
            r@ == (ApiParametersView { limit, ..old(self)@ }),
            *final(self) == *final(r),
    {
        self.limit = limit;
        self
    }

    /// Restrict the request to the given categories.
    pub fn categories(&mut self, categories: Vec<Category>) -> (r: &mut ApiParametersBuilder)
        ensures
            r@ == (ApiParametersView { categories: Some(categories@), ..old(self)@ }),
            *final(self) == *final(r),
    {
        self.categories = Some(categories);
        self
    }

    /// Sort the returned torrents by seeders, leechers or last upload.
    pub fn sort_by(&mut self, sort_by: SortBy) -> (r: &mut ApiParametersBuilder)
        ensures
            r@ == (ApiParametersView { sort_by, ..old(self)@ }),
            *final(self) == *final(r),
    {
        self.sort_by = sort_by;
        self
    }

    /// Require at least this many seeders per torrent.
    pub fn minimum_seeders(&mut self, minimum_seeders: u32) -> (r: &mut ApiParametersBuilder)
        ensures
            r@ == (ApiParametersView {
                minimum_seeders: Some(minimum_seeders),
                ..old(self)@
            }),
            *final(self) == *final(r),
    {
        self.minimum_seeders = Some(minimum_seeders);
        self
    }

    /// Require at least this many leechers per torrent.
    pub fn minimum_leechers(&mut self, minimum_leechers: u32) -> (r: &mut ApiParametersBuilder)
        ensures
            r@ == (ApiParametersView {
                minimum_leechers: Some(minimum_leechers),
                ..old(self)@
            }),
            *final(self) == *final(r),
    {
        self.minimum_leechers = Some(minimum_leechers);
        self
    }

    /// Choose how much detail the response carries per torrent.
    pub fn format(&mut self, format: Format) -> (r: &mut ApiParametersBuilder)
        ensures
            r@ == (ApiParametersView { format, ..old(self)@ }),
            *final(self) == *final(r),
    {
        self.format = format;
        self
    }

    /// A builder holding the defaults: ranked torrents only, 25 results,
    /// no category restriction, sorted by last upload, no seeder or
    /// leecher floor, compact format.
    pub fn new() -> (r: Self)
        ensures
            r@ == (ApiParametersView {
                ranked: true,
                limit: Limit::TwentyFive,
                categories: None::<Seq<Category>>,
                sort_by: SortBy::Last,
                minimum_seeders: None::<u32>,
                minimum_leechers: None::<u32>,
                format: Format::Json,
            }),
    {
        ApiParametersBuilder {
            ranked: true,
            limit: Limit::default(),
            categories: None,
            sort_by: SortBy::default(),
            minimum_seeders: None,
            minimum_leechers: None,
            format: Format::default(),
        }
    }

    /// Freeze the options gathered so far into an immutable
    /// [`ApiParameters`]. Every field carries over unchanged.
    pub fn build(&self) -> (r: ApiParameters)
        ensures
            r@ == self@,
    {
        let categories = match &self.categories {
            Some(cs) => Some(copy_categories(cs)),
            None => None,
        };
        ApiParameters::from_parts(
            self.ranked,
            self.limit,
            categories,
            self.sort_by,
            self.minimum_seeders,
            self.minimum_leechers,
            self.format,
        )
    }
}

} // verus!
