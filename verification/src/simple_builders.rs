//! The pure half of the client facade: each operation's parameters turned
//! into the final request URL, with the deployment base URL substituted for
//! the builder's fixed authority.
//!
//! The transport itself — performing the GET and decoding the body — lives
//! outside the library; these functions hand it a fully built URL.

use vstd::prelude::*;
use vstd::string::StringExecFns;
use crate::attribute_models::AttributesSelect;
use crate::attribute_models::ItemAttributes;
use crate::attribute_models::SortField;
use crate::endpoints::base_url;
use crate::endpoints::spec_attrs_clause;
use crate::endpoints::spec_base_url;
use crate::endpoints::spec_filter_clause;
use crate::endpoints::spec_format_clause;
use crate::endpoints::spec_item_query;
use crate::endpoints::spec_page_clause;
use crate::endpoints::spec_per_page_clause;
use crate::endpoints::spec_query_fragment;
use crate::endpoints::spec_sort_clause;
use crate::endpoints::Endpoints;
use crate::errors::ClientError;
use crate::errors::ConfigError;
use crate::format_models::Format;
use crate::format_models::MediaType;
use crate::format_models::spec_media_slug;
use crate::param_models::CommonParams;
use crate::param_models::FacetReq;
use crate::param_models::ItemParams;
use crate::param_models::SearchParams;
use crate::text::lemma_concat_assoc;
use crate::text::lemma_concat_head5;
use crate::text::lemma_concat_parts;
use crate::text::replace_char;
use crate::text::replace_char_seq;
use crate::text::spec_starts_with;
use crate::text::str_starts_with;
use vstd::string::StrSliceExecFns;

verus! {

/// The base URL a client falls back to when no deployment override is given.
pub fn default_base_url() -> (r: &'static str)
    ensures
        r@ == "https://www.loc.gov/"@,
{
    "https://www.loc.gov/"
}

/// Swaps the builder's fixed authority for the configured base URL.
///
/// A URL that does not start with the fixed authority breaks an internal
/// invariant and is reported rather than patched.
pub fn replace_base_url(url: &str, base: &str) -> (r: Result<String, ConfigError>)
    ensures
        r is Ok <==> spec_starts_with(url@, spec_base_url()),
        r matches Ok(s) ==> s@ == base@ + url@.skip(spec_base_url().len() as int),
{
    let prefix = base_url();
    if str_starts_with(url, prefix) {
        let rest = url.substring_char(prefix.unicode_len(), url.unicode_len());
        let mut out = String::from_str(base);
        out.append(rest);
        Ok(out)
    } else {
        Err(ConfigError::BaseMismatch)
    }
}

/// The free-text clause as the facade prepares it: spaces in the caller's
/// words become `+` before the text enters the query string.
pub open spec fn spec_plussed_query_clause(q: Option<&str>) -> Seq<char> {
    match q {
        Some(s) => "&q="@ + replace_char_seq(s@, ' ', '+'),
        None => Seq::<char>::empty(),
    }
}

/// The query string a facade operation produces: the defaulted JSON format
/// clause, then the remaining clauses in the builder's fixed order.
pub open spec fn spec_facade_fragment(
    q: Option<&str>,
    a: Option<AttributesSelect>,
    f: Option<FacetReq>,
    c: Option<u32>,
    p: Option<u32>,
    s: Option<SortField>,
) -> Seq<char> {
    spec_format_clause(Some(Format::Json)) + spec_attrs_clause(a) + spec_plussed_query_clause(q)
        + spec_filter_clause(f) + spec_per_page_clause(c) + spec_page_clause(p)
        + spec_sort_clause(s)
}

/// A collection name turned kebab-case: spaces and underscores to hyphens.
pub open spec fn spec_kebab(name: Seq<char>) -> Seq<char> {
    replace_char_seq(replace_char_seq(name, ' ', '-'), '_', '-')
}

/// Builds the final `/search/` URL for the given semantic parameters.
///
/// Never fails: the defaulted format and the mandatory query text mean the
/// parameter set is never empty.
pub fn search_url(
    base: &str,
    query: &str,
    include_collections: bool,
    attributes: Option<AttributesSelect>,
    filters: Option<FacetReq>,
    per_page: Option<u32>,
    page: Option<u32>,
    sort: Option<SortField>,
) -> (r: Result<String, ClientError>)
    ensures
        r is Ok,
        r matches Ok(u) ==> u@ == base@ + "/search/"@ + spec_facade_fragment(
            Some(query),
            attributes,
            filters,
            per_page,
            page,
            sort,
        ),
{
    let replaced = replace_char(query, ' ', '+');
    let common = CommonParams {
        format: Some(Format::Json),
        attributes,
        query: Some(replaced),
        filter: filters,
        per_page,
        page,
        sort,
    };
    let ghost gc = common;
    let endpoint = Endpoints::Search(SearchParams { common, include_collections });
    let url = match endpoint.to_url() {
        Ok(u) => u,
        Err(e) => {
            return Err(ClientError::Build(e));
        },
    };
    proof {
        lemma_concat_assoc(spec_base_url(), "/search/"@, spec_query_fragment(gc));
        lemma_concat_parts(spec_base_url(), "/search/"@ + spec_query_fragment(gc));
    }
    let final_url = match replace_base_url(url.as_str(), base) {
        Ok(u) => u,
        Err(e) => {
            return Err(ClientError::Config(e));
        },
    };
    proof {
        lemma_concat_assoc(base@, "/search/"@, spec_query_fragment(gc));
        assert(spec_query_fragment(gc) == spec_facade_fragment(
            Some(query),
            attributes,
            filters,
            per_page,
            page,
            sort,
        ));
    }
    Ok(final_url)
}

/// Builds the final `/item/{item_id}/` URL for the given item. Never fails.
pub fn item_url(base: &str, item_id: &str, attributes: Option<ItemAttributes>) -> (r: Result<
    String,
    ClientError,
>)
    ensures
        r is Ok,
        r matches Ok(u) ==> u@ == base@ + "/item/"@ + item_id@ + "/"@ + spec_item_query(
            (ItemParams { format: Some(Format::Json), attributes }),
        ),
{
    let params = ItemParams { format: Some(Format::Json), attributes };
    let ghost gp = params;
    let endpoint = Endpoints::Item { item_id: String::from_str(item_id), params };
    let url = match endpoint.to_url() {
        Ok(u) => u,
        Err(e) => {
            return Err(ClientError::Build(e));
        },
    };
    proof {
        lemma_concat_head5(spec_base_url(), "/item/"@, item_id@, "/"@, spec_item_query(gp));
        lemma_concat_parts(
            spec_base_url(),
            (("/item/"@ + item_id@) + "/"@) + spec_item_query(gp),
        );
    }
    let final_url = match replace_base_url(url.as_str(), base) {
        Ok(u) => u,
        Err(e) => {
            return Err(ClientError::Config(e));
        },
    };
    proof {
        lemma_concat_head5(base@, "/item/"@, item_id@, "/"@, spec_item_query(gp));
    }
    Ok(final_url)
}

/// Builds the final `/{format}/` URL for one media type. Never fails.
pub fn format_url(
    base: &str,
    format_type: MediaType,
    query: Option<&str>,
    attributes: Option<AttributesSelect>,
    filters: Option<FacetReq>,
    per_page: Option<u32>,
    page: Option<u32>,
    sort: Option<SortField>,
) -> (r: Result<String, ClientError>)
    ensures
        r is Ok,
        r matches Ok(u) ==> u@ == base@ + "/"@ + spec_media_slug(format_type) + "/"@
            + spec_facade_fragment(query, attributes, filters, per_page, page, sort),
{
    let replaced: Option<String> = match query {
        Some(q) => Some(replace_char(q, ' ', '+')),
        None => None,
    };
    let common = CommonParams {
        format: Some(Format::Json),
        attributes,
        query: replaced,
        filter: filters,
        per_page,
        page,
        sort,
    };
    let ghost gc = common;
    let endpoint = Endpoints::Format { format: format_type, params: common };
    let url = match endpoint.to_url() {
        Ok(u) => u,
        Err(e) => {
            return Err(ClientError::Build(e));
        },
    };
    proof {
        lemma_concat_head5(
            spec_base_url(),
            "/"@,
            spec_media_slug(format_type),
            "/"@,
            spec_query_fragment(gc),
        );
        lemma_concat_parts(
            spec_base_url(),
            (("/"@ + spec_media_slug(format_type)) + "/"@) + spec_query_fragment(gc),
        );
    }
    let final_url = match replace_base_url(url.as_str(), base) {
        Ok(u) => u,
        Err(e) => {
            return Err(ClientError::Config(e));
        },
    };
    proof {
        lemma_concat_head5(
            base@,
            "/"@,
            spec_media_slug(format_type),
            "/"@,
            spec_query_fragment(gc),
        );
        assert(spec_query_fragment(gc) == spec_facade_fragment(
            query,
            attributes,
            filters,
            per_page,
            page,
            sort,
        ));
    }
    Ok(final_url)
}

/// Builds the final `/collections/{name}/` URL for one named collection,
/// turning the caller's name kebab-case first. Never fails.
pub fn collection_url(
    base: &str,
    collection_name: &str,
    query: Option<&str>,
    attributes: Option<AttributesSelect>,
    filters: Option<FacetReq>,
    per_page: Option<u32>,
    page: Option<u32>,
    sort: Option<SortField>,
) -> (r: Result<String, ClientError>)
    ensures
        r is Ok,
        r matches Ok(u) ==> u@ == base@ + "/collections/"@ + spec_kebab(collection_name@) + "/"@
            + replace_char_seq(
            spec_facade_fragment(query, attributes, filters, per_page, page, sort),
            ' ',
            '-',
        ),
{
    let replaced: Option<String> = match query {
        Some(q) => Some(replace_char(q, ' ', '+')),
        None => None,
    };
    let common = CommonParams {
        format: Some(Format::Json),
        attributes,
        query: replaced,
        filter: filters,
        per_page,
        page,
        sort,
    };
    let ghost gc = common;
    let kebab = replace_char(replace_char(collection_name, ' ', '-').as_str(), '_', '-');
    let ghost gkebab = kebab@;
    let endpoint = Endpoints::Collection { name: kebab, params: common };
    let url = match endpoint.to_url() {
        Ok(u) => u,
        Err(e) => {
            return Err(ClientError::Build(e));
        },
    };
    proof {
        lemma_concat_head5(
            spec_base_url(),
            "/collections/"@,
            gkebab,
            "/"@,
            replace_char_seq(spec_query_fragment(gc), ' ', '-'),
        );
        lemma_concat_parts(
            spec_base_url(),
            (("/collections/"@ + gkebab) + "/"@) + replace_char_seq(
                spec_query_fragment(gc),
                ' ',
                '-',
            ),
        );
    }
    let final_url = match replace_base_url(url.as_str(), base) {
        Ok(u) => u,
        Err(e) => {
            return Err(ClientError::Config(e));
        },
    };
    proof {
        lemma_concat_head5(
            base@,
            "/collections/"@,
            gkebab,
            "/"@,
            replace_char_seq(spec_query_fragment(gc), ' ', '-'),
        );
        assert(spec_query_fragment(gc) == spec_facade_fragment(
            query,
            attributes,
            filters,
            per_page,
            page,
            sort,
        ));
    }
    Ok(final_url)
}

/// Builds the final `/collections/` URL listing all collections. Never fails.
pub fn collections_url(
    base: &str,
    query: Option<&str>,
    attributes: Option<AttributesSelect>,
    filters: Option<FacetReq>,
    per_page: Option<u32>,
    page: Option<u32>,
    sort: Option<SortField>,
) -> (r: Result<String, ClientError>)
    ensures
        r is Ok,
        r matches Ok(u) ==> u@ == base@ + "/collections/"@ + replace_char_seq(
            spec_facade_fragment(query, attributes, filters, per_page, page, sort),
            ' ',
            '-',
        ),
{
    let replaced: Option<String> = match query {
        Some(q) => Some(replace_char(q, ' ', '+')),
        None => None,
    };
    let common = CommonParams {
        format: Some(Format::Json),
        attributes,
        query: replaced,
        filter: filters,
        per_page,
        page,
        sort,
    };
    let ghost gc = common;
    let endpoint = Endpoints::Collections(common);
    let url = match endpoint.to_url() {
        Ok(u) => u,
        Err(e) => {
            return Err(ClientError::Build(e));
        },
    };
    proof {
        lemma_concat_assoc(
            spec_base_url(),
            "/collections/"@,
            replace_char_seq(spec_query_fragment(gc), ' ', '-'),
        );
        lemma_concat_parts(
            spec_base_url(),
            "/collections/"@ + replace_char_seq(spec_query_fragment(gc), ' ', '-'),
        );
    }
    let final_url = match replace_base_url(url.as_str(), base) {
        Ok(u) => u,
        Err(e) => {
            return Err(ClientError::Config(e));
        },
    };
    proof {
        lemma_concat_assoc(
            base@,
            "/collections/"@,
            replace_char_seq(spec_query_fragment(gc), ' ', '-'),
        );
        assert(spec_query_fragment(gc) == spec_facade_fragment(
            query,
            attributes,
            filters,
            per_page,
            page,
            sort,
        ));
    }
    Ok(final_url)
}

} // verus!
