//! The endpoints of the API and the construction of their request URLs.
//!
//! Each route maps to a fixed path template under one base authority; the
//! query string is assembled from the parameters in a fixed clause order:
//! format, attributes, query, filter, per-page, page, sort.

use vstd::prelude::*;
use vstd::string::StringExecFns;
use crate::attribute_models::spec_attrs_query;
use crate::attribute_models::spec_sort_slug;
use crate::attribute_models::AttributesSelect;
use crate::attribute_models::ItemAttributes;
use crate::attribute_models::ResourceAttributes;
use crate::attribute_models::SortField;
use crate::errors::BuildError;
use crate::format_models::spec_format_slug;
use crate::format_models::spec_media_slug;
use crate::format_models::Format;
use crate::format_models::MediaType;
use crate::param_models::spec_params_unset;
use crate::param_models::spec_facet_query;
use crate::param_models::CommonParams;
use crate::param_models::ItemParams;
use crate::param_models::ResourceParams;
use crate::param_models::SearchParams;
use crate::text::join_sep;
use crate::text::replace_char;
use crate::text::replace_char_seq;
use crate::text::spec_dec_digits;
use crate::text::u32_to_dec;

verus! {

/// The authority every built URL is rooted at.
pub open spec fn spec_base_url() -> Seq<char> {
    "https://www.loc.gov"@
}

/// Returns the authority every built URL is rooted at.
pub fn base_url() -> (r: &'static str)
    ensures
        r@ == spec_base_url(),
{
    "https://www.loc.gov"
}

/// The format clause: `?fo=` then the chosen format's slug (JSON when none
/// is chosen) then `&`.
pub open spec fn spec_format_clause(f: Option<Format>) -> Seq<char> {
    "?fo="@ + spec_format_slug(match f {
        Some(x) => x,
        None => Format::Json,
    }) + "&"@
}

/// The attribute-selection clause; an unset selection contributes nothing.
pub open spec fn spec_attrs_clause(a: Option<AttributesSelect>) -> Seq<char> {
    match a {
        Some(sel) => spec_attrs_query(
            sel.includes@.map_values(|s: String| s@),
            sel.excludes@.map_values(|s: String| s@),
        ),
        None => Seq::<char>::empty(),
    }
}

/// The free-text query clause `&q=<text>`; an unset query contributes nothing.
pub open spec fn spec_query_clause(q: Option<String>) -> Seq<char> {
    match q {
        Some(s) => "&q="@ + s@,
        None => Seq::<char>::empty(),
    }
}

/// The facet clause `&fa=<filters joined by |>`; unset contributes nothing.
pub open spec fn spec_filter_clause(f: Option<crate::param_models::FacetReq>) -> Seq<char> {
    match f {
        Some(fr) => "&fa="@ + spec_facet_query(fr.filters@.map_values(|s: String| s@)),
        None => Seq::<char>::empty(),
    }
}

/// The page-size clause `&c=<n>`; unset contributes nothing.
pub open spec fn spec_per_page_clause(c: Option<u32>) -> Seq<char> {
    match c {
        Some(n) => "&c="@ + spec_dec_digits(n as nat),
        None => Seq::<char>::empty(),
    }
}

/// The page clause `&sp=<n>`. Unlike every other clause, an unset page does
/// not vanish: it falls back to the bare default page number `1`, the
/// upstream behaviour this layer reproduces rather than redesigns.
pub open spec fn spec_page_clause(p: Option<u32>) -> Seq<char> {
    match p {
        Some(n) => "&sp="@ + spec_dec_digits(n as nat),
        None => "1"@,
    }
}

/// The sort clause `&sb=<slug>`; unset contributes nothing.
pub open spec fn spec_sort_clause(s: Option<SortField>) -> Seq<char> {
    match s {
        Some(f) => "&sb="@ + spec_sort_slug(f),
        None => Seq::<char>::empty(),
    }
}

/// The full query string of the search-style routes, clauses in fixed order.
pub open spec fn spec_query_fragment(p: CommonParams) -> Seq<char> {
    spec_format_clause(p.format) + spec_attrs_clause(p.attributes) + spec_query_clause(p.query)
        + spec_filter_clause(p.filter) + spec_per_page_clause(p.per_page) + spec_page_clause(
        p.page,
    ) + spec_sort_clause(p.sort)
}

/// The `at=<flag>` clauses of an item request, one per flag set to `true`,
/// in the fixed order item, resources, cite_this.
pub open spec fn spec_item_flag_clauses(a: ItemAttributes) -> Seq<Seq<char>> {
    (if a.item == Some(true) {
        seq!["at=item"@]
    } else {
        Seq::<Seq<char>>::empty()
    }) + (if a.resources == Some(true) {
        seq!["at=resources"@]
    } else {
        Seq::<Seq<char>>::empty()
    }) + (if a.cite_this == Some(true) {
        seq!["at=cite_this"@]
    } else {
        Seq::<Seq<char>>::empty()
    })
}

/// The `at=<flag>` clauses of a resource request, one per flag set to
/// `true`, in the fixed order resource, page, segments, cite_this, resources.
pub open spec fn spec_resource_flag_clauses(a: ResourceAttributes) -> Seq<Seq<char>> {
    (if a.resource == Some(true) {
        seq!["at=resource"@]
    } else {
        Seq::<Seq<char>>::empty()
    }) + (if a.page == Some(true) {
        seq!["at=page"@]
    } else {
        Seq::<Seq<char>>::empty()
    }) + (if a.segments == Some(true) {
        seq!["at=segments"@]
    } else {
        Seq::<Seq<char>>::empty()
    }) + (if a.cite_this == Some(true) {
        seq!["at=cite_this"@]
    } else {
        Seq::<Seq<char>>::empty()
    }) + (if a.resources == Some(true) {
        seq!["at=resources"@]
    } else {
        Seq::<Seq<char>>::empty()
    })
}

/// The query string of an item request: the format clause, then the flag
/// clauses joined by `&`.
pub open spec fn spec_item_query(p: ItemParams) -> Seq<char> {
    spec_format_clause(p.format) + (match p.attributes {
        Some(a) => join_sep(spec_item_flag_clauses(a), "&"@),
        None => Seq::<char>::empty(),
    })
}

/// The query string of a resource request: the format clause, then the flag
/// clauses joined by `&`.
pub open spec fn spec_resource_query(p: ResourceParams) -> Seq<char> {
    spec_format_clause(p.format) + (match p.attributes {
        Some(a) => join_sep(spec_resource_flag_clauses(a), "&"@),
        None => Seq::<char>::empty(),
    })
}

/// The routes of the API.
#[derive(Debug, Clone)]
pub enum Endpoints {
    /// The `/search/` endpoint for general searches across the catalog.
    Search(SearchParams),
    /// The `/collections/` endpoint listing all digital collections.
    Collections(CommonParams),
    /// The `/collections/{name_of_collection}/` endpoint for one collection.
    Collection {
        /// The name of the collection in kebab-case.
        name: String,
        /// The shared query parameters.
        params: CommonParams,
    },
    /// The `/{format}/` endpoint for items of one media type.
    Format {
        /// The media type whose route is requested.
        format: MediaType,
        /// The shared query parameters.
        params: CommonParams,
    },
    /// The `/item/{item_id}/` endpoint for one item.
    Item {
        /// The unique identifier of the item.
        item_id: String,
        /// Parameters of the item endpoint.
        params: ItemParams,
    },
    /// The `/resource/{resource_id}/` endpoint for one resource.
    Resource {
        /// The unique identifier of the resource.
        resource_id: String,
        /// Parameters of the resource endpoint.
        params: ResourceParams,
    },
}

/// The URL an endpoint builds, when it builds one.
///
/// The collection routes take their query string with every space turned
/// into a hyphen, since collection names are kebab-case.
pub open spec fn spec_endpoint_url(e: Endpoints) -> Seq<char> {
    match e {
        Endpoints::Search(sp) => spec_base_url() + "/search/"@ + spec_query_fragment(sp.common),
        Endpoints::Collections(p) => spec_base_url() + "/collections/"@ + replace_char_seq(
            spec_query_fragment(p),
            ' ',
            '-',
        ),
        Endpoints::Collection { name, params } => spec_base_url() + "/collections/"@ + name@
            + "/"@ + replace_char_seq(spec_query_fragment(params), ' ', '-'),
        Endpoints::Format { format, params } => spec_base_url() + "/"@ + spec_media_slug(format)
            + "/"@ + spec_query_fragment(params),
        Endpoints::Item { item_id, params } => spec_base_url() + "/item/"@ + item_id@ + "/"@
            + spec_item_query(params),
        Endpoints::Resource { resource_id, params } => spec_base_url() + "/resource/"@
            + resource_id@ + "/"@ + spec_resource_query(params),
    }
}

/// Builds the format clause.
fn format_clause(f: &Option<Format>) -> (r: String)
    ensures
        r@ == spec_format_clause(*f),
{
    let mut r = String::from_str("?fo=");
    let chosen = match f {
        Some(x) => *x,
        None => Format::Json,
    };
    r.append(chosen.slug());
    r.append("&");
    r
}

/// Builds the attribute-selection clause.
fn attrs_clause(a: &Option<AttributesSelect>) -> (r: String)
    ensures
        r@ == spec_attrs_clause(*a),
{
    match a {
        Some(sel) => sel.to_query_param(),
        None => String::new(),
    }
}

/// Builds the free-text query clause.
fn query_clause(q: &Option<String>) -> (r: String)
    ensures
        r@ == spec_query_clause(*q),
{
    match q {
        Some(s) => {
            let mut r = String::from_str("&q=");
            r.append(s.as_str());
            r
        },
        None => String::new(),
    }
}

/// Builds the facet clause.
fn filter_clause(f: &Option<crate::param_models::FacetReq>) -> (r: String)
    ensures
        r@ == spec_filter_clause(*f),
{
    match f {
        Some(fr) => {
            let mut r = String::from_str("&fa=");
            r.append(fr.to_query_param().as_str());
            r
        },
        None => String::new(),
    }
}

/// Builds the page-size clause.
fn per_page_clause(c: &Option<u32>) -> (r: String)
    ensures
        r@ == spec_per_page_clause(*c),
{
    match c {
        Some(n) => {
            let mut r = String::from_str("&c=");
            r.append(u32_to_dec(*n).as_str());
            r
        },
        None => String::new(),
    }
}

/// Builds the page clause, falling back to the bare default page number.
fn page_clause(p: &Option<u32>) -> (r: String)
    ensures
        r@ == spec_page_clause(*p),
{
    match p {
        Some(n) => {
            let mut r = String::from_str("&sp=");
            r.append(u32_to_dec(*n).as_str());
            r
        },
        None => String::from_str("1"),
    }
}

/// Builds the sort clause.
fn sort_clause(s: &Option<SortField>) -> (r: String)
    ensures
        r@ == spec_sort_clause(*s),
{
    match s {
        Some(f) => {
            let mut r = String::from_str("&sb=");
            r.append(f.slug());
            r
        },
        None => String::new(),
    }
}

/// Builds the query string of the search-style routes.
fn to_url_helper(common: &CommonParams) -> (r: String)
    ensures
        r@ == spec_query_fragment(*common),
{
    let mut url = format_clause(&common.format);
    url.append(attrs_clause(&common.attributes).as_str());
    url.append(query_clause(&common.query).as_str());
    url.append(filter_clause(&common.filter).as_str());
    url.append(per_page_clause(&common.per_page).as_str());
    url.append(page_clause(&common.page).as_str());
    url.append(sort_clause(&common.sort).as_str());
    url
}

/// Builds the `at=<flag>` clauses of an item request, joined by `&`.
fn item_flags_fragment(attrs: &ItemAttributes) -> (r: String)
    ensures
        r@ == join_sep(spec_item_flag_clauses(*attrs), "&"@),
{
    let mut parts: Vec<String> = Vec::new();
    if let Some(true) = attrs.item {
        parts.push(String::from_str("at=item"));
    }
    if let Some(true) = attrs.resources {
        parts.push(String::from_str("at=resources"));
    }
    if let Some(true) = attrs.cite_this {
        parts.push(String::from_str("at=cite_this"));
    }
    let r = crate::text::join_strings(&parts, "&");
    proof {
        assert(parts@.map_values(|s: String| s@) =~= spec_item_flag_clauses(*attrs));
    }
    r
}

/// Builds the `at=<flag>` clauses of a resource request, joined by `&`.
fn resource_flags_fragment(attrs: &ResourceAttributes) -> (r: String)
    ensures
        r@ == join_sep(spec_resource_flag_clauses(*attrs), "&"@),
{
    let mut parts: Vec<String> = Vec::new();
    if let Some(true) = attrs.resource {
        parts.push(String::from_str("at=resource"));
    }
    if let Some(true) = attrs.page {
        parts.push(String::from_str("at=page"));
    }
    if let Some(true) = attrs.segments {
        parts.push(String::from_str("at=segments"));
    }
    if let Some(true) = attrs.cite_this {
        parts.push(String::from_str("at=cite_this"));
    }
    if let Some(true) = attrs.resources {
        parts.push(String::from_str("at=resources"));
    }
    let r = crate::text::join_strings(&parts, "&");
    proof {
        assert(parts@.map_values(|s: String| s@) =~= spec_resource_flag_clauses(*attrs));
    }
    r
}

impl Endpoints {
    /// Builds the full request URL for this endpoint.
    ///
    /// Only a search with every parameter unset fails; every other endpoint
    /// always yields a URL, since its path alone already identifies the
    /// request. The result is a pure function of the endpoint value.
    pub fn to_url(&self) -> (r: Result<String, BuildError>)
        ensures
            r is Err <==> (self matches Endpoints::Search(sp) && spec_params_unset(sp.common)),
            r matches Ok(u) ==> u@ == spec_endpoint_url(*self),
    {
        match self {
            Endpoints::Search(params) => {
                if params.common.format.is_none() && params.common.attributes.is_none()
                    && params.common.query.is_none() && params.common.filter.is_none()
                    && params.common.per_page.is_none() && params.common.page.is_none()
                    && params.common.sort.is_none() {
                    return Err(BuildError::EmptyParams);
                }
                let mut url = String::from_str(base_url());
                url.append("/search/");
                url.append(to_url_helper(&params.common).as_str());
                Ok(url)
            },
            Endpoints::Collections(params) => {
                let mut url = String::from_str(base_url());
                url.append("/collections/");
                let query_string = to_url_helper(params);
                url.append(replace_char(query_string.as_str(), ' ', '-').as_str());
                Ok(url)
            },
            Endpoints::Collection { name, params } => {
                let mut url = String::from_str(base_url());
                url.append("/collections/");
                url.append(name.as_str());
                url.append("/");
                let query_string = to_url_helper(params);
                url.append(replace_char(query_string.as_str(), ' ', '-').as_str());
                Ok(url)
            },
            Endpoints::Format { format, params } => {
                let mut url = String::from_str(base_url());
                url.append("/");
                url.append(format.slug());
                url.append("/");
                url.append(to_url_helper(params).as_str());
                Ok(url)
            },
            Endpoints::Item { item_id, params } => {
                let mut url = String::from_str(base_url());
                url.append("/item/");
                url.append(item_id.as_str());
                url.append("/");
                url.append("?fo=");
                let f = match params.format {
                    Some(x) => x,
                    None => Format::Json,
                };
                url.append(f.slug());
                url.append("&");
                match &params.attributes {
                    Some(attrs) => {
                        url.append(item_flags_fragment(attrs).as_str());
                    },
                    None => {},
                }
                proof {
                    assert(url@ =~= spec_endpoint_url(*self));
                }
                Ok(url)
            },
            Endpoints::Resource { resource_id, params } => {
                let mut url = String::from_str(base_url());
                url.append("/resource/");
                url.append(resource_id.as_str());
                url.append("/");
                url.append("?fo=");
                let f = match params.format {
                    Some(x) => x,
                    None => Format::Json,
                };
                url.append(f.slug());
                url.append("&");
                match &params.attributes {
                    Some(attrs) => {
                        url.append(resource_flags_fragment(attrs).as_str());
                    },
                    None => {},
                }
                proof {
                    assert(url@ =~= spec_endpoint_url(*self));
                }
                Ok(url)
            },
        }
    }
}

/// The query-string encoding is a pure function: equal parameter sets yield
/// byte-identical query strings, with no hidden state anywhere.
pub proof fn lemma_query_fragment_deterministic(p1: CommonParams, p2: CommonParams)
    requires
        p1 == p2,
    ensures
        spec_query_fragment(p1) == spec_query_fragment(p2),
{
}

} // verus!
