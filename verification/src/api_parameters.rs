//! The immutable bundle of query-shaping options.

use vstd::prelude::*;

use crate::category::Category;
use crate::format::Format;
use crate::limit::Limit;
use crate::sort_by::SortBy;

verus! {

/// Specification-level content of an [`ApiParameters`].
pub struct ApiParametersView {
    pub ranked: bool,
    pub limit: Limit,
    pub categories: Option<Seq<Category>>,
    pub sort_by: SortBy,
    pub minimum_seeders: Option<u32>,
    pub minimum_leechers: Option<u32>,
    pub format: Format,
}

/// Validated, immutable query options: once built, no field changes.
/// Construct one through [`crate::api_parameters_builder::ApiParametersBuilder`].
#[derive(Clone, Debug)]
pub struct ApiParameters {
    ranked: bool,
    limit: Limit,
    categories: Option<Vec<Category>>,
    sort_by: SortBy,
    minimum_seeders: Option<u32>,
    minimum_leechers: Option<u32>,
    format: Format,
}

impl View for ApiParameters {
    type V = ApiParametersView;

    closed spec fn view(&self) -> ApiParametersView {
        ApiParametersView {
            ranked: self.ranked,
            limit: self.limit,
            categories: match self.categories {
                Some(cs) => Some(cs@),
                None => None,
            },
            sort_by: self.sort_by,
            minimum_seeders: self.minimum_seeders,
            minimum_leechers: self.minimum_leechers,
            format: self.format,
        }
    }
}

impl ApiParameters {
    /// Assemble a parameter bundle from its parts. Crate-internal: the
    /// public way to one is the builder.
    pub(crate) fn from_parts(
        ranked: bool,
        limit: Limit,
        categories: Option<Vec<Category>>,
        sort_by: SortBy,
        minimum_seeders: Option<u32>,
        minimum_leechers: Option<u32>,
        format: Format,
    ) -> (r: ApiParameters)
        ensures
            r@ == (ApiParametersView {
                ranked,
                limit,
                categories: match categories {
                    Some(cs) => Some(cs@),
                    None => None,
                },
                sort_by,
                minimum_seeders,
                minimum_leechers,
                format,
            }),
    {
        ApiParameters {
            ranked,
            limit,
            categories,
            sort_by,
            minimum_seeders,
            minimum_leechers,
            format,
        }
    }

    /// True if the request will show only the scene, rarbg and rartv
    /// releases; false if it will show all releases.
    pub fn ranked(&self) -> (r: &bool)
        ensures
            *r == self@.ranked,
    {
        &self.ranked
    }

    /// The number of torrents that the request will return.
    pub fn limit(&self) -> (r: &Limit)
        ensures
            *r == self@.limit,
    {
        &self.limit
    }

    /// The categories the request is restricted to, if any.
    pub fn categories(&self) -> (r: Option<&Vec<Category>>)
        ensures
            match r {
                Some(cs) => self@.categories == Some(cs@),
                None => self@.categories is None,
            },
    {
        self.categories.as_ref()
    }

    /// The sorting criterion.
    pub fn sort_by(&self) -> (r: &SortBy)
        ensures
            *r == self@.sort_by,
    {
        &self.sort_by
    }

    /// The number of seeders a torrent must at least have, if bounded.
    pub fn minimum_seeders(&self) -> (r: Option<&u32>)
        ensures
            match r {
                Some(n) => self@.minimum_seeders == Some(*n),
                None => self@.minimum_seeders is None,
            },
    {
        self.minimum_seeders.as_ref()
    }

    /// The number of leechers a torrent must at least have, if bounded.
    pub fn minimum_leechers(&self) -> (r: Option<&u32>)
        ensures
            match r {
                Some(n) => self@.minimum_leechers == Some(*n),
                None => self@.minimum_leechers is None,
            },
    {
        self.minimum_leechers.as_ref()
    }

    /// The response format of the request.
    pub fn format(&self) -> (r: &Format)
        ensures
            *r == self@.format,
    {
        &self.format
    }
}

} // verus!
