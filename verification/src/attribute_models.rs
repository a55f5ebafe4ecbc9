//! Attribute (query-parameter) selections and sort fields for API requests.

use vstd::prelude::*;
use vstd::string::StringExecFns;
use crate::text::join_sep;
use crate::text::join_strings;

verus! {

/// The attribute set that applies to a request, by endpoint family.
#[derive(Debug, Clone, Copy)]
pub enum Attributes {
    /// Attributes shared by the search-style endpoints.
    Common(CommonAttributes),
    /// Attributes specific to the item endpoint.
    Item(ItemAttributes),
    /// Attributes specific to the resource endpoint.
    Resource(ResourceAttributes),
}

/// Attributes shared by the search-style endpoints.
#[derive(Debug, Clone, Copy)]
pub struct CommonAttributes {
    /// Include facet information in the response (`at=facets`).
    pub facets: Option<bool>,
    /// Include pagination information in the response (`at=pagination`).
    pub pagination: Option<bool>,
    /// Include result summaries in the response (`at=results`).
    pub results: Option<bool>,
}

impl Default for CommonAttributes {
    /// A selection with no attribute chosen.
    fn default() -> (r: Self)
        ensures
            r.facets is None,
            r.pagination is None,
            r.results is None,
    {
        CommonAttributes { facets: None, pagination: None, results: None }
    }
}

/// Boolean attribute flags of the item endpoint.
///
/// Each flag that is set to `true` contributes one `at=<name>` clause.
#[derive(Debug, Clone, Copy)]
pub struct ItemAttributes {
    /// Include citation information in the response (`at=cite_this`).
    pub cite_this: Option<bool>,
    /// Include the item details in the response (`at=item`).
    pub item: Option<bool>,
    /// Include resource links in the response (`at=resources`).
    pub resources: Option<bool>,
}

impl Default for ItemAttributes {
    /// A selection with no attribute chosen.
    fn default() -> (r: Self)
        ensures
            r.cite_this is None,
            r.item is None,
            r.resources is None,
    {
        ItemAttributes { cite_this: None, item: None, resources: None }
    }
}

/// Boolean attribute flags of the resource endpoint.
#[derive(Debug, Clone, Copy)]
pub struct ResourceAttributes {
    /// Include citation information in the response (`at=cite_this`).
    pub cite_this: Option<bool>,
    /// Include the item details in the response (`at=item`).
    pub item: Option<bool>,
    /// Include page information in the response (`at=page`).
    pub page: Option<bool>,
    /// Include individual resource details in the response (`at=resource`).
    pub resource: Option<bool>,
    /// Include multiple resource links in the response (`at=resources`).
    pub resources: Option<bool>,
    /// Include segment information in the response (`at=segments`).
    pub segments: Option<bool>,
}

impl Default for ResourceAttributes {
    /// A selection with no attribute chosen.
    fn default() -> (r: Self)
        ensures
            r.cite_this is None,
            r.item is None,
            r.page is None,
            r.resource is None,
            r.resources is None,
            r.segments is None,
    {
        ResourceAttributes {
            cite_this: None,
            item: None,
            page: None,
            resource: None,
            resources: None,
            segments: None,
        }
    }
}

/// The sort orders the server accepts for the `sb` parameter.
#[derive(Debug, Clone, Copy, PartialEq, Eq)]
pub enum SortField {
    /// Sort by date, earliest to latest (`sb=date`).
    Date,
    /// Sort by date, latest to earliest (`sb=date_desc`).
    DateDesc,
    /// Sort by title (`sb=title_s`).
    TitleS,
    /// Sort by title, descending (`sb=title_s_desc`).
    TitleSDesc,
    /// Sort by shelf identifier (`sb=shelf_id`).
    ShelfId,
    /// Sort by shelf identifier, descending (`sb=shelf_id_desc`).
    ShelfIdDesc,
}

/// The slug of a [`SortField`], as it appears after `sb=` in a query string.
pub open spec fn spec_sort_slug(f: SortField) -> Seq<char> {
    match f {
        SortField::Date => "date"@,
        SortField::DateDesc => "date_desc"@,
        SortField::TitleS => "title_s"@,
        SortField::TitleSDesc => "title_s_desc"@,
        SortField::ShelfId => "shelf_id"@,
        SortField::ShelfIdDesc => "shelf_id_desc"@,
    }
}

impl SortField {
    /// Returns the slug used in the request URL for this sort order.
    pub fn slug(&self) -> (r: &'static str)
        ensures
            r@ == spec_sort_slug(*self),
    {
        match self {
            SortField::Date => "date",
            SortField::DateDesc => "date_desc",
            SortField::TitleS => "title_s",
            SortField::TitleSDesc => "title_s_desc",
            SortField::ShelfId => "shelf_id",
            SortField::ShelfIdDesc => "shelf_id_desc",
        }
    }
}

/// Named response sections the caller asks the server to add or leave out.
///
/// Order is preserved; duplicates are permitted but meaningless.
#[derive(Debug, Clone)]
pub struct AttributesSelect {
    /// Section names the response should carry, rendered as `at=<comma-joined names>`.
    pub includes: Vec<String>,
    /// Section names the response should leave out, rendered as `at!=<comma-joined names>`.
    pub excludes: Vec<String>,
}

impl Default for AttributesSelect {
    /// A selection with both lists empty.
    fn default() -> (r: Self)
        ensures
            r.includes@.len() == 0,
            r.excludes@.len() == 0,
    {
        AttributesSelect { includes: Vec::new(), excludes: Vec::new() }
    }
}

/// The clause list of an attribute selection: an `at=` clause when the
/// includes list is non-empty, then an `at!=` clause when the excludes list is
/// non-empty. An empty list contributes no clause at all.
pub open spec fn spec_attr_clauses(incl: Seq<Seq<char>>, excl: Seq<Seq<char>>) -> Seq<Seq<char>> {
    (if incl.len() > 0 {
        seq!["at="@ + join_sep(incl, ","@)]
    } else {
        Seq::<Seq<char>>::empty()
    }) + (if excl.len() > 0 {
        seq!["at!="@ + join_sep(excl, ","@)]
    } else {
        Seq::<Seq<char>>::empty()
    })
}

/// The encoded attribute-selection fragment: the clauses joined by `&`.
pub open spec fn spec_attrs_query(incl: Seq<Seq<char>>, excl: Seq<Seq<char>>) -> Seq<char> {
    join_sep(spec_attr_clauses(incl, excl), "&"@)
}

impl AttributesSelect {
    /// Renders the selection as a query-string fragment.
    ///
    /// Includes are comma-joined after `at=`, excludes after `at!=`; the two
    /// clauses are joined by `&`, and an empty list omits its clause.
    pub fn to_query_param(&self) -> (r: String)
        ensures
            r@ == spec_attrs_query(
                self.includes@.map_values(|s: String| s@),
                self.excludes@.map_values(|s: String| s@),
            ),
    {
        let ghost incl = self.includes@.map_values(|s: String| s@);
        let ghost excl = self.excludes@.map_values(|s: String| s@);
        let mut parts: Vec<String> = Vec::new();

        if self.includes.len() > 0 {
            let mut clause = String::from_str("at=");
            clause.append(join_strings(&self.includes, ",").as_str());
            parts.push(clause);
        }

        if self.excludes.len() > 0 {
            let mut clause = String::from_str("at!=");
            clause.append(join_strings(&self.excludes, ",").as_str());
            parts.push(clause);
        }

        let r = join_strings(&parts, "&");
        proof {
            assert(parts@.map_values(|s: String| s@) =~= spec_attr_clauses(incl, excl));
        }
        r
    }
}

/// With a non-empty includes list and an empty excludes list, the encoding is
/// exactly one includes clause — `at=` followed by the comma-joined names —
/// and no excludes clause appears in it.
pub proof fn lemma_attrs_query_includes_only(incl: Seq<Seq<char>>, excl: Seq<Seq<char>>)
    requires
        incl.len() > 0,
        excl.len() == 0,
    ensures
        spec_attrs_query(incl, excl) == "at="@ + join_sep(incl, ","@),
{
    assert(spec_attr_clauses(incl, excl) =~= seq!["at="@ + join_sep(incl, ","@)]);
}

/// With both name lists empty, the encoded fragment is the empty string.
pub proof fn lemma_attrs_query_empty(incl: Seq<Seq<char>>, excl: Seq<Seq<char>>)
    requires
        incl.len() == 0,
        excl.len() == 0,
    ensures
        spec_attrs_query(incl, excl) == Seq::<char>::empty(),
{
    assert(spec_attr_clauses(incl, excl) =~= Seq::<Seq<char>>::empty());
}

} // verus!
