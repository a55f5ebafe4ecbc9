//! Structured query parameters for the API endpoints.

use vstd::prelude::*;
use crate::attribute_models::AttributesSelect;
use crate::attribute_models::SortField;
use crate::format_models::Format;
use crate::format_models::MediaType;
use crate::text::join_sep;
use crate::text::join_strings;

verus! {

/// Query parameters shared by the search-style endpoints.
///
/// Every field is optional; the URL builder resolves defaults, not the
/// struct itself, so an unset field stays unset until a URL is built.
#[derive(Debug, Clone)]
pub struct CommonParams {
    /// The format of the returned results (`fo=json` or `fo=yaml`).
    pub format: Option<Format>,
    /// Response sections to add or leave out.
    pub attributes: Option<AttributesSelect>,
    /// A keyword search in the metadata and any available full text (`q`).
    pub query: Option<String>,
    /// Facet filters narrowing the search results (`fa`).
    pub filter: Option<FacetReq>,
    /// The number of results per page (`c`).
    pub per_page: Option<u32>,
    /// The page number to retrieve (`sp`); the first page is 1.
    pub page: Option<u32>,
    /// The sort order of the results (`sb`).
    pub sort: Option<SortField>,
}

/// Whether every field of the parameter set is unset.
pub open spec fn spec_params_unset(p: CommonParams) -> bool {
    &&& p.format is None
    &&& p.attributes is None
    &&& p.query is None
    &&& p.filter is None
    &&& p.per_page is None
    &&& p.page is None
    &&& p.sort is None
}

impl Default for CommonParams {
    /// A parameter set with every field unset.
    fn default() -> (r: Self)
        ensures
            spec_params_unset(r),
    {
        CommonParams {
            format: None,
            attributes: None,
            query: None,
            filter: None,
            per_page: None,
            page: None,
            sort: None,
        }
    }
}

/// Parameters of the `/search/` endpoint.
#[derive(Debug, Clone)]
pub struct SearchParams {
    /// The shared query parameters.
    pub common: CommonParams,
    /// Whether collections take part in the search results.
    ///
    /// A placeholder for potential future extensions; it contributes no
    /// clause to the query string.
    pub include_collections: bool,
}

impl Default for SearchParams {
    /// A parameter set with every field unset.
    fn default() -> (r: Self)
        ensures
            spec_params_unset(r.common),
            r.include_collections == false,
    {
        SearchParams { common: CommonParams::default(), include_collections: false }
    }
}

/// Parameters of the `/item/{item_id}/` endpoint.
#[derive(Debug, Clone)]
pub struct ItemParams {
    /// The format of the returned results (`fo=json` or `fo=yaml`).
    pub format: Option<Format>,
    /// The attribute flags of the item endpoint.
    pub attributes: Option<crate::attribute_models::ItemAttributes>,
}

impl Default for ItemParams {
    /// A parameter set with every field unset.
    fn default() -> (r: Self)
        ensures
            r.format is None,
            r.attributes is None,
    {
        ItemParams { format: None, attributes: None }
    }
}

/// Parameters of the `/resource/{resource_id}/` endpoint.
#[derive(Debug, Clone)]
pub struct ResourceParams {
    /// The format of the returned results (`fo=json` or `fo=yaml`).
    pub format: Option<Format>,
    /// The attribute flags of the resource endpoint.
    pub attributes: Option<crate::attribute_models::ResourceAttributes>,
}

impl Default for ResourceParams {
    /// A parameter set with every field unset.
    fn default() -> (r: Self)
        ensures
            r.format is None,
            r.attributes is None,
    {
        ResourceParams { format: None, attributes: None }
    }
}

/// The facet filters of a request (the `fa` parameter).
#[derive(Debug, Clone)]
pub struct FacetReq {
    /// Filter strings of the shape `field:value` (the vocabulary is the
    /// server's; this layer does not validate it).
    pub filters: Vec<String>,
}

/// The encoded facet fragment: the filters joined by `|`, with no leading or
/// trailing separator.
pub open spec fn spec_facet_query(filters: Seq<Seq<char>>) -> Seq<char> {
    join_sep(filters, "|"@)
}

impl FacetReq {
    /// Renders the filters as the value of the `fa` parameter: the filters
    /// joined by `|`.
    pub fn to_query_param(&self) -> (r: String)
        ensures
            r@ == spec_facet_query(self.filters@.map_values(|s: String| s@)),
    {
        join_strings(&self.filters, "|")
    }
}

/// A query-parameter set together with the route it belongs to.
#[derive(Debug, Clone)]
pub enum QueryParam {
    /// The shared query parameters on their own.
    Common(CommonParams),
    /// Parameters of the search endpoint.
    Search(SearchParams),
    /// Parameters of the collections endpoint.
    Collections(CommonParams),
    /// Parameters of a single named collection.
    Collection {
        /// The name of the collection in kebab-case.
        name: String,
        /// The shared query parameters.
        params: CommonParams,
    },
    /// Parameters of a format endpoint.
    Format {
        /// The media type whose route is requested.
        format: MediaType,
        /// The shared query parameters.
        params: CommonParams,
    },
    /// Parameters of an item endpoint.
    Item {
        /// The unique identifier of the item.
        item_id: String,
        /// Parameters of the item endpoint.
        params: ItemParams,
    },
    /// Parameters of a resource endpoint.
    Resource {
        /// The unique identifier of the resource.
        resource_id: String,
        /// Parameters of the resource endpoint.
        params: ResourceParams,
    },
}

} // verus!
