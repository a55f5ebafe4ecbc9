//! The response shapes of the item and resource routes.
//!
//! These records are the deepest part of the response model: files,
//! bibliographic attributes and resource objects, each with independently
//! optional fields and a catch-all bag for any key the server adds later.

use vstd::prelude::*;
use crate::errors::DecodeError;
use crate::json::json_view;
use crate::json::lookup;
use crate::json::spec_unknown_entries;
use crate::json::JsonValue;
use crate::json::JsonView;
use crate::response_models::field_bool_or_string;
use crate::response_models::field_number_or_string;
use crate::response_models::field_string_or_array;
use crate::response_models::field_texts;
use crate::response_models::spec_decode_bool_or_string;
use crate::response_models::spec_decode_cite_this;
use crate::response_models::spec_decode_field;
use crate::response_models::spec_decode_item_or_array;
use crate::response_models::spec_decode_number_or_string;
use crate::response_models::spec_decode_pagination;
use crate::response_models::spec_decode_string_or_array;
use crate::response_models::spec_decode_text;
use crate::response_models::view_result;
use crate::response_models::BoolOrString;
use crate::response_models::BoolOrStringView;
use crate::response_models::CiteThis;
use crate::response_models::CiteThisView;
use crate::response_models::ItemOrArray;
use crate::response_models::ItemOrArrayView;
use crate::response_models::NumberOrString;
use crate::response_models::NumberOrStringView;
use crate::response_models::Pagination;
use crate::response_models::PaginationView;
use crate::response_models::StringOrArray;
use crate::response_models::StringOrArrayView;
use crate::text::str_eq;

verus! {

/// How a field kept as raw JSON decodes: any value stays as it is, as a
/// single item — the catch-all single form matches before the list form
/// under the upstream wire format's greedy first-variant rule.
pub open spec fn spec_decode_raw_item(v: JsonView) -> Result<
    ItemOrArrayView<JsonView>,
    DecodeError,
> {
    Ok(ItemOrArrayView::Item(v))
}

fn field_raw_item(entries: &Vec<(String, JsonValue)>, key: &str) -> (r: Result<
    Option<ItemOrArray<JsonValue>>,
    DecodeError,
>)
    ensures
        view_result(r) == spec_decode_field(
            |x: JsonView| spec_decode_raw_item(x),
            entries.deep_view(),
            key@,
        ),
{
    match lookup(entries, key) {
        None => Ok(None),
        Some(val) => match val {
            JsonValue::Null => Ok(None),
            _ => Ok(Some(ItemOrArray::Item(val.duplicate()))),
        },
    }
}

/// Whether a key is one of the known keys of a [`Page`].
pub open spec fn spec_page_record_known(k: Seq<char>) -> bool {
    false
}

fn is_page_record_key(k: &str) -> (r: bool)
    ensures
        r == spec_page_record_known(k@),
{
    let _ = k;
    false
}

fn page_record_unknown_entries(entries: &Vec<(String, JsonValue)>) -> (r: Vec<(String, JsonValue)>)
    ensures
        r.deep_view() == spec_unknown_entries(
            entries.deep_view(),
            |k: Seq<char>| spec_page_record_known(k),
        ),
{
    let ghost known = |k: Seq<char>| spec_page_record_known(k);
    let ghost dv = entries.deep_view();
    let mut out: Vec<(String, JsonValue)> = Vec::new();
    proof {
        assert(out.deep_view() =~= spec_unknown_entries(dv.take(0), known));
    }
    let mut i: usize = 0;
    while i < entries.len()
        invariant
            known == (|k: Seq<char>| spec_page_record_known(k)),
            dv == entries.deep_view(),
            dv.len() == entries@.len(),
            i <= entries@.len(),
            out.deep_view() == spec_unknown_entries(dv.take(i as int), known),
        decreases entries@.len() - i,
    {
        proof {
            assert(dv[i as int] == (entries@[i as int].0@, json_view(entries@[i as int].1)));
            assert(dv.take(i as int + 1).drop_last() =~= dv.take(i as int));
            assert(dv.take(i as int + 1).last() == dv[i as int]);
            assert(known(entries@[i as int].0@) == spec_page_record_known(entries@[i as int].0@));
        }
        if !is_page_record_key(entries[i].0.as_str()) {
            let key = entries[i].0.clone();
            let val = entries[i].1.duplicate();
            out.push((key, val));
            proof {
                assert(out.deep_view() =~= spec_unknown_entries(dv.take(i as int + 1), known));
            }
        } else {
            proof {
                assert(out.deep_view() =~= spec_unknown_entries(dv.take(i as int + 1), known));
            }
        }
        i += 1;
    }
    proof {
        assert(dv.take(entries@.len() as int) =~= dv);
    }
    out
}

/// One page of a resource, as the server describes it.
///
/// Every known field is independently optional; every other top-level
/// key is kept verbatim in `additional`.
#[derive(Debug)]
pub struct Page {
    /// Any other entries of the object, kept verbatim.
    pub additional: Vec<(String, JsonValue)>,
}

/// The shape of a [`Page`].
pub struct PageView {
    /// Any other entries of the object, kept verbatim.
    pub additional: Seq<(Seq<char>, JsonView)>,
}

impl DeepView for Page {
    type V = PageView;

    open spec fn deep_view(&self) -> PageView {
        PageView {
            additional: self.additional.deep_view(),
        }
    }
}

/// How a [`Page`] decodes from an object's entries.
pub open spec fn spec_decode_page_record(v: JsonView) -> Result<PageView, DecodeError> {
    match v {
        JsonView::Object(es) => {
            Ok(
                PageView {
                    additional: spec_unknown_entries(es, |k: Seq<char>| spec_page_record_known(k)),
                },
            )
        },
        _ => Err(DecodeError::WrongShape),
    }
}

impl Page {
    /// Decodes this record from a JSON object, keeping unknown keys.
    pub fn from_json(v: &JsonValue) -> (r: Result<Page, DecodeError>)
        ensures
            view_result(r) == spec_decode_page_record(v.deep_view()),
    {
        let entries = match v {
            JsonValue::Object(es) => es,
            _ => {
                return Err(DecodeError::WrongShape);
            },
        };
        proof {
            assert(json_view(*v)->Object_0 =~= entries.deep_view());
        }
        let additional = page_record_unknown_entries(entries);
        Ok(
            Page {
                additional,
            },
        )
    }
}

/// Whether a key is one of the known keys of a [`Segment`].
pub open spec fn spec_segment_known(k: Seq<char>) -> bool {
    false
}

fn is_segment_key(k: &str) -> (r: bool)
    ensures
        r == spec_segment_known(k@),
{
    let _ = k;
    false
}

fn segment_unknown_entries(entries: &Vec<(String, JsonValue)>) -> (r: Vec<(String, JsonValue)>)
    ensures
        r.deep_view() == spec_unknown_entries(
            entries.deep_view(),
            |k: Seq<char>| spec_segment_known(k),
        ),
{
    let ghost known = |k: Seq<char>| spec_segment_known(k);
    let ghost dv = entries.deep_view();
    let mut out: Vec<(String, JsonValue)> = Vec::new();
    proof {
        assert(out.deep_view() =~= spec_unknown_entries(dv.take(0), known));
    }
    let mut i: usize = 0;
    while i < entries.len()
        invariant
            known == (|k: Seq<char>| spec_segment_known(k)),
            dv == entries.deep_view(),
            dv.len() == entries@.len(),
            i <= entries@.len(),
            out.deep_view() == spec_unknown_entries(dv.take(i as int), known),
        decreases entries@.len() - i,
    {
        proof {
            assert(dv[i as int] == (entries@[i as int].0@, json_view(entries@[i as int].1)));
            assert(dv.take(i as int + 1).drop_last() =~= dv.take(i as int));
            assert(dv.take(i as int + 1).last() == dv[i as int]);
            assert(known(entries@[i as int].0@) == spec_segment_known(entries@[i as int].0@));
        }
        if !is_segment_key(entries[i].0.as_str()) {
            let key = entries[i].0.clone();
            let val = entries[i].1.duplicate();
            out.push((key, val));
            proof {
                assert(out.deep_view() =~= spec_unknown_entries(dv.take(i as int + 1), known));
            }
        } else {
            proof {
                assert(out.deep_view() =~= spec_unknown_entries(dv.take(i as int + 1), known));
            }
        }
        i += 1;
    }
    proof {
        assert(dv.take(entries@.len() as int) =~= dv);
    }
    out
}

/// One segment within a resource.
///
/// Every known field is independently optional; every other top-level
/// key is kept verbatim in `additional`.
#[derive(Debug)]
pub struct Segment {
    /// Any other entries of the object, kept verbatim.
    pub additional: Vec<(String, JsonValue)>,
}

/// The shape of a [`Segment`].
pub struct SegmentView {
    /// Any other entries of the object, kept verbatim.
    pub additional: Seq<(Seq<char>, JsonView)>,
}

impl DeepView for Segment {
    type V = SegmentView;

    open spec fn deep_view(&self) -> SegmentView {
        SegmentView {
            additional: self.additional.deep_view(),
        }
    }
}

/// How a [`Segment`] decodes from an object's entries.
pub open spec fn spec_decode_segment(v: JsonView) -> Result<SegmentView, DecodeError> {
    match v {
        JsonView::Object(es) => {
            Ok(
                SegmentView {
                    additional: spec_unknown_entries(es, |k: Seq<char>| spec_segment_known(k)),
                },
            )
        },
        _ => Err(DecodeError::WrongShape),
    }
}

impl Segment {
    /// Decodes this record from a JSON object, keeping unknown keys.
    pub fn from_json(v: &JsonValue) -> (r: Result<Segment, DecodeError>)
        ensures
            view_result(r) == spec_decode_segment(v.deep_view()),
    {
        let entries = match v {
            JsonValue::Object(es) => es,
            _ => {
                return Err(DecodeError::WrongShape);
            },
        };
        proof {
            assert(json_view(*v)->Object_0 =~= entries.deep_view());
        }
        let additional = segment_unknown_entries(entries);
        Ok(
            Segment {
                additional,
            },
        )
    }
}

/// Whether a key is one of the known keys of a [`RelatedItem`].
pub open spec fn spec_related_item_known(k: Seq<char>) -> bool {
    false
}

fn is_related_item_key(k: &str) -> (r: bool)
    ensures
        r == spec_related_item_known(k@),
{
    let _ = k;
    false
}

fn related_item_unknown_entries(entries: &Vec<(String, JsonValue)>) -> (r: Vec<(String, JsonValue)>)
    ensures
        r.deep_view() == spec_unknown_entries(
            entries.deep_view(),
            |k: Seq<char>| spec_related_item_known(k),
        ),
{
    let ghost known = |k: Seq<char>| spec_related_item_known(k);
    let ghost dv = entries.deep_view();
    let mut out: Vec<(String, JsonValue)> = Vec::new();
    proof {
        assert(out.deep_view() =~= spec_unknown_entries(dv.take(0), known));
    }
    let mut i: usize = 0;
    while i < entries.len()
        invariant
            known == (|k: Seq<char>| spec_related_item_known(k)),
            dv == entries.deep_view(),
            dv.len() == entries@.len(),
            i <= entries@.len(),
            out.deep_view() == spec_unknown_entries(dv.take(i as int), known),
        decreases entries@.len() - i,
    {
        proof {
            assert(dv[i as int] == (entries@[i as int].0@, json_view(entries@[i as int].1)));
            assert(dv.take(i as int + 1).drop_last() =~= dv.take(i as int));
            assert(dv.take(i as int + 1).last() == dv[i as int]);
            assert(known(entries@[i as int].0@) == spec_related_item_known(entries@[i as int].0@));
        }
        if !is_related_item_key(entries[i].0.as_str()) {
            let key = entries[i].0.clone();
            let val = entries[i].1.duplicate();
            out.push((key, val));
            proof {
                assert(out.deep_view() =~= spec_unknown_entries(dv.take(i as int + 1), known));
            }
        } else {
            proof {
                assert(out.deep_view() =~= spec_unknown_entries(dv.take(i as int + 1), known));
            }
        }
        i += 1;
    }
    proof {
        assert(dv.take(entries@.len() as int) =~= dv);
    }
    out
}

/// An item related to the current item or resource.
///
/// Every known field is independently optional; every other top-level
/// key is kept verbatim in `additional`.
#[derive(Debug)]
pub struct RelatedItem {
    /// Any other entries of the object, kept verbatim.
    pub additional: Vec<(String, JsonValue)>,
}

/// The shape of a [`RelatedItem`].
pub struct RelatedItemView {
    /// Any other entries of the object, kept verbatim.
    pub additional: Seq<(Seq<char>, JsonView)>,
}

impl DeepView for RelatedItem {
    type V = RelatedItemView;

    open spec fn deep_view(&self) -> RelatedItemView {
        RelatedItemView {
            additional: self.additional.deep_view(),
        }
    }
}

/// How a [`RelatedItem`] decodes from an object's entries.
pub open spec fn spec_decode_related_item(v: JsonView) -> Result<RelatedItemView, DecodeError> {
    match v {
        JsonView::Object(es) => {
            Ok(
                RelatedItemView {
                    additional: spec_unknown_entries(es, |k: Seq<char>| spec_related_item_known(k)),
                },
            )
        },
        _ => Err(DecodeError::WrongShape),
    }
}

impl RelatedItem {
    /// Decodes this record from a JSON object, keeping unknown keys.
    pub fn from_json(v: &JsonValue) -> (r: Result<RelatedItem, DecodeError>)
        ensures
            view_result(r) == spec_decode_related_item(v.deep_view()),
    {
        let entries = match v {
            JsonValue::Object(es) => es,
            _ => {
                return Err(DecodeError::WrongShape);
            },
        };
        proof {
            assert(json_view(*v)->Object_0 =~= entries.deep_view());
        }
        let additional = related_item_unknown_entries(entries);
        Ok(
            RelatedItem {
                additional,
            },
        )
    }
}

/// Whether a key is one of the known keys of a [`MoreLikeThis`].
pub open spec fn spec_more_like_this_known(k: Seq<char>) -> bool {
    false
}

fn is_more_like_this_key(k: &str) -> (r: bool)
    ensures
        r == spec_more_like_this_known(k@),
{
    let _ = k;
    false
}

fn more_like_this_unknown_entries(entries: &Vec<(String, JsonValue)>) -> (r: Vec<(String, JsonValue)>)
    ensures
        r.deep_view() == spec_unknown_entries(
            entries.deep_view(),
            |k: Seq<char>| spec_more_like_this_known(k),
        ),
{
    let ghost known = |k: Seq<char>| spec_more_like_this_known(k);
    let ghost dv = entries.deep_view();
    let mut out: Vec<(String, JsonValue)> = Vec::new();
    proof {
        assert(out.deep_view() =~= spec_unknown_entries(dv.take(0), known));
    }
    let mut i: usize = 0;
    while i < entries.len()
        invariant
            known == (|k: Seq<char>| spec_more_like_this_known(k)),
            dv == entries.deep_view(),
            dv.len() == entries@.len(),
            i <= entries@.len(),
            out.deep_view() == spec_unknown_entries(dv.take(i as int), known),
        decreases entries@.len() - i,
    {
        proof {
            assert(dv[i as int] == (entries@[i as int].0@, json_view(entries@[i as int].1)));
            assert(dv.take(i as int + 1).drop_last() =~= dv.take(i as int));
            assert(dv.take(i as int + 1).last() == dv[i as int]);
            assert(known(entries@[i as int].0@) == spec_more_like_this_known(entries@[i as int].0@));
        }
        if !is_more_like_this_key(entries[i].0.as_str()) {
            let key = entries[i].0.clone();
            let val = entries[i].1.duplicate();
            out.push((key, val));
            proof {
                assert(out.deep_view() =~= spec_unknown_entries(dv.take(i as int + 1), known));
            }
        } else {
            proof {
                assert(out.deep_view() =~= spec_unknown_entries(dv.take(i as int + 1), known));
            }
        }
        i += 1;
    }
    proof {
        assert(dv.take(entries@.len() as int) =~= dv);
    }
    out
}

/// A recommendation similar to the current item.
///
/// Every known field is independently optional; every other top-level
/// key is kept verbatim in `additional`.
#[derive(Debug)]
pub struct MoreLikeThis {
    /// Any other entries of the object, kept verbatim.
    pub additional: Vec<(String, JsonValue)>,
}

/// The shape of a [`MoreLikeThis`].
pub struct MoreLikeThisView {
    /// Any other entries of the object, kept verbatim.
    pub additional: Seq<(Seq<char>, JsonView)>,
}

impl DeepView for MoreLikeThis {
    type V = MoreLikeThisView;

    open spec fn deep_view(&self) -> MoreLikeThisView {
        MoreLikeThisView {
            additional: self.additional.deep_view(),
        }
    }
}

/// How a [`MoreLikeThis`] decodes from an object's entries.
pub open spec fn spec_decode_more_like_this(v: JsonView) -> Result<MoreLikeThisView, DecodeError> {
    match v {
        JsonView::Object(es) => {
            Ok(
                MoreLikeThisView {
                    additional: spec_unknown_entries(es, |k: Seq<char>| spec_more_like_this_known(k)),
                },
            )
        },
        _ => Err(DecodeError::WrongShape),
    }
}

impl MoreLikeThis {
    /// Decodes this record from a JSON object, keeping unknown keys.
    pub fn from_json(v: &JsonValue) -> (r: Result<MoreLikeThis, DecodeError>)
        ensures
            view_result(r) == spec_decode_more_like_this(v.deep_view()),
    {
        let entries = match v {
            JsonValue::Object(es) => es,
            _ => {
                return Err(DecodeError::WrongShape);
            },
        };
        proof {
            assert(json_view(*v)->Object_0 =~= entries.deep_view());
        }
        let additional = more_like_this_unknown_entries(entries);
        Ok(
            MoreLikeThis {
                additional,
            },
        )
    }
}

/// Whether a key is one of the known keys of a [`CollectionDetail`].
pub open spec fn spec_collection_detail_known(k: Seq<char>) -> bool {
    false
}

fn is_collection_detail_key(k: &str) -> (r: bool)
    ensures
        r == spec_collection_detail_known(k@),
{
    let _ = k;
    false
}

fn collection_detail_unknown_entries(entries: &Vec<(String, JsonValue)>) -> (r: Vec<(String, JsonValue)>)
    ensures
        r.deep_view() == spec_unknown_entries(
            entries.deep_view(),
            |k: Seq<char>| spec_collection_detail_known(k),
        ),
{
    let ghost known = |k: Seq<char>| spec_collection_detail_known(k);
    let ghost dv = entries.deep_view();
    let mut out: Vec<(String, JsonValue)> = Vec::new();
    proof {
        assert(out.deep_view() =~= spec_unknown_entries(dv.take(0), known));
    }
    let mut i: usize = 0;
    while i < entries.len()
        invariant
            known == (|k: Seq<char>| spec_collection_detail_known(k)),
            dv == entries.deep_view(),
            dv.len() == entries@.len(),
            i <= entries@.len(),
            out.deep_view() == spec_unknown_entries(dv.take(i as int), known),
        decreases entries@.len() - i,
    {
        proof {
            assert(dv[i as int] == (entries@[i as int].0@, json_view(entries@[i as int].1)));
            assert(dv.take(i as int + 1).drop_last() =~= dv.take(i as int));
            assert(dv.take(i as int + 1).last() == dv[i as int]);
            assert(known(entries@[i as int].0@) == spec_collection_detail_known(entries@[i as int].0@));
        }
        if !is_collection_detail_key(entries[i].0.as_str()) {
            let key = entries[i].0.clone();
            let val = entries[i].1.duplicate();
            out.push((key, val));
            proof {
                assert(out.deep_view() =~= spec_unknown_entries(dv.take(i as int + 1), known));
            }
        } else {
            proof {
                assert(out.deep_view() =~= spec_unknown_entries(dv.take(i as int + 1), known));
            }
        }
        i += 1;
    }
    proof {
        assert(dv.take(entries@.len() as int) =~= dv);
    }
    out
}

/// The detailed description of a single collection item.
///
/// Every known field is independently optional; every other top-level
/// key is kept verbatim in `additional`.
#[derive(Debug)]
pub struct CollectionDetail {
    /// Any other entries of the object, kept verbatim.
    pub additional: Vec<(String, JsonValue)>,
}

/// The shape of a [`CollectionDetail`].
pub struct CollectionDetailView {
    /// Any other entries of the object, kept verbatim.
    pub additional: Seq<(Seq<char>, JsonView)>,
}

impl DeepView for CollectionDetail {
    type V = CollectionDetailView;

    open spec fn deep_view(&self) -> CollectionDetailView {
        CollectionDetailView {
            additional: self.additional.deep_view(),
        }
    }
}

/// How a [`CollectionDetail`] decodes from an object's entries.
pub open spec fn spec_decode_collection_detail(v: JsonView) -> Result<CollectionDetailView, DecodeError> {
    match v {
        JsonView::Object(es) => {
            Ok(
                CollectionDetailView {
                    additional: spec_unknown_entries(es, |k: Seq<char>| spec_collection_detail_known(k)),
                },
            )
        },
        _ => Err(DecodeError::WrongShape),
    }
}

impl CollectionDetail {
    /// Decodes this record from a JSON object, keeping unknown keys.
    pub fn from_json(v: &JsonValue) -> (r: Result<CollectionDetail, DecodeError>)
        ensures
            view_result(r) == spec_decode_collection_detail(v.deep_view()),
    {
        let entries = match v {
            JsonValue::Object(es) => es,
            _ => {
                return Err(DecodeError::WrongShape);
            },
        };
        proof {
            assert(json_view(*v)->Object_0 =~= entries.deep_view());
        }
        let additional = collection_detail_unknown_entries(entries);
        Ok(
            CollectionDetail {
                additional,
            },
        )
    }
}

/// Whether a key is one of the known keys of a [`File`].
pub open spec fn spec_file_known(k: Seq<char>) -> bool {
    k == "caption"@
        || k == "duration"@
        || k == "format"@
        || k == "height"@
        || k == "info"@
        || k == "levels"@
        || k == "mimetype"@
        || k == "other_name"@
        || k == "profile"@
        || k == "protocol"@
        || k == "size"@
        || k == "streams"@
        || k == "tiles"@
        || k == "type_field"@
        || k == "url"@
        || k == "use_field"@
        || k == "width"@
}

fn is_file_key(k: &str) -> (r: bool)
    ensures
        r == spec_file_known(k@),
{
    str_eq(k, "caption")
        || str_eq(k, "duration")
        || str_eq(k, "format")
        || str_eq(k, "height")
        || str_eq(k, "info")
        || str_eq(k, "levels")
        || str_eq(k, "mimetype")
        || str_eq(k, "other_name")
        || str_eq(k, "profile")
        || str_eq(k, "protocol")
        || str_eq(k, "size")
        || str_eq(k, "streams")
        || str_eq(k, "tiles")
        || str_eq(k, "type_field")
        || str_eq(k, "url")
        || str_eq(k, "use_field")
        || str_eq(k, "width")
}

fn file_unknown_entries(entries: &Vec<(String, JsonValue)>) -> (r: Vec<(String, JsonValue)>)
    ensures
        r.deep_view() == spec_unknown_entries(
            entries.deep_view(),
            |k: Seq<char>| spec_file_known(k),
        ),
{
    let ghost known = |k: Seq<char>| spec_file_known(k);
    let ghost dv = entries.deep_view();
    let mut out: Vec<(String, JsonValue)> = Vec::new();
    proof {
        assert(out.deep_view() =~= spec_unknown_entries(dv.take(0), known));
    }
    let mut i: usize = 0;
    while i < entries.len()
        invariant
            known == (|k: Seq<char>| spec_file_known(k)),
            dv == entries.deep_view(),
            dv.len() == entries@.len(),
            i <= entries@.len(),
            out.deep_view() == spec_unknown_entries(dv.take(i as int), known),
        decreases entries@.len() - i,
    {
        proof {
            assert(dv[i as int] == (entries@[i as int].0@, json_view(entries@[i as int].1)));
            assert(dv.take(i as int + 1).drop_last() =~= dv.take(i as int));
            assert(dv.take(i as int + 1).last() == dv[i as int]);
            assert(known(entries@[i as int].0@) == spec_file_known(entries@[i as int].0@));
        }
        if !is_file_key(entries[i].0.as_str()) {
            let key = entries[i].0.clone();
            let val = entries[i].1.duplicate();
            out.push((key, val));
            proof {
                assert(out.deep_view() =~= spec_unknown_entries(dv.take(i as int + 1), known));
            }
        } else {
            proof {
                assert(out.deep_view() =~= spec_unknown_entries(dv.take(i as int + 1), known));
            }
        }
        i += 1;
    }
    proof {
        assert(dv.take(entries@.len() as int) =~= dv);
    }
    out
}

/// One file associated with a resource.
///
/// Every known field is independently optional; every other top-level
/// key is kept verbatim in `additional`.
#[derive(Debug)]
pub struct File {
    /// Captions associated with the file.
    pub caption: Option<ItemOrArray<String>>,
    /// The duration of the file in seconds, if applicable.
    pub duration: Option<NumberOrString>,
    /// Format information of the file, kept as raw JSON.
    pub format: Option<ItemOrArray<JsonValue>>,
    /// The height of the media file in pixels, if applicable.
    pub height: Option<NumberOrString>,
    /// A URL with more information about the file.
    pub info: Option<StringOrArray>,
    /// Zoom levels available for the file.
    pub levels: Option<NumberOrString>,
    /// The MIME type of the file.
    pub mimetype: Option<StringOrArray>,
    /// An alternative name for the file, if any.
    pub other_name: Option<StringOrArray>,
    /// Profile information of the file.
    pub profile: Option<ItemOrArray<String>>,
    /// The protocol used to access the file.
    pub protocol: Option<StringOrArray>,
    /// The size of the file in bytes.
    pub size: Option<NumberOrString>,
    /// Streams associated with the file, if any.
    pub streams: Option<ItemOrArray<String>>,
    /// Tiles associated with the file.
    pub tiles: Option<ItemOrArray<String>>,
    /// The type of the file.
    pub type_field: Option<StringOrArray>,
    /// The URL to access the file.
    pub url: Option<StringOrArray>,
    /// The usage description of the file.
    pub use_field: Option<StringOrArray>,
    /// The width of the media file in pixels, if applicable.
    pub width: Option<NumberOrString>,
    /// Any other entries of the object, kept verbatim.
    pub additional: Vec<(String, JsonValue)>,
}

/// The shape of a [`File`].
pub struct FileView {
    /// Captions associated with the file.
    pub caption: Option<ItemOrArrayView<Seq<char>>>,
    /// The duration of the file in seconds, if applicable.
    pub duration: Option<NumberOrStringView>,
    /// Format information of the file, kept as raw JSON.
    pub format: Option<ItemOrArrayView<JsonView>>,
    /// The height of the media file in pixels, if applicable.
    pub height: Option<NumberOrStringView>,
    /// A URL with more information about the file.
    pub info: Option<StringOrArrayView>,
    /// Zoom levels available for the file.
    pub levels: Option<NumberOrStringView>,
    /// The MIME type of the file.
    pub mimetype: Option<StringOrArrayView>,
    /// An alternative name for the file, if any.
    pub other_name: Option<StringOrArrayView>,
    /// Profile information of the file.
    pub profile: Option<ItemOrArrayView<Seq<char>>>,
    /// The protocol used to access the file.
    pub protocol: Option<StringOrArrayView>,
    /// The size of the file in bytes.
    pub size: Option<NumberOrStringView>,
    /// Streams associated with the file, if any.
    pub streams: Option<ItemOrArrayView<Seq<char>>>,
    /// Tiles associated with the file.
    pub tiles: Option<ItemOrArrayView<Seq<char>>>,
    /// The type of the file.
    pub type_field: Option<StringOrArrayView>,
    /// The URL to access the file.
    pub url: Option<StringOrArrayView>,
    /// The usage description of the file.
    pub use_field: Option<StringOrArrayView>,
    /// The width of the media file in pixels, if applicable.
    pub width: Option<NumberOrStringView>,
    /// Any other entries of the object, kept verbatim.
    pub additional: Seq<(Seq<char>, JsonView)>,
}

impl DeepView for File {
    type V = FileView;

    open spec fn deep_view(&self) -> FileView {
        FileView {
            caption: self.caption.deep_view(),
            duration: self.duration.deep_view(),
            format: self.format.deep_view(),
            height: self.height.deep_view(),
            info: self.info.deep_view(),
            levels: self.levels.deep_view(),
            mimetype: self.mimetype.deep_view(),
            other_name: self.other_name.deep_view(),
            profile: self.profile.deep_view(),
            protocol: self.protocol.deep_view(),
            size: self.size.deep_view(),
            streams: self.streams.deep_view(),
            tiles: self.tiles.deep_view(),
            type_field: self.type_field.deep_view(),
            url: self.url.deep_view(),
            use_field: self.use_field.deep_view(),
            width: self.width.deep_view(),
            additional: self.additional.deep_view(),
        }
    }
}

/// How a [`File`] decodes from an object's entries.
pub open spec fn spec_decode_file(v: JsonView) -> Result<FileView, DecodeError> {
    match v {
        JsonView::Object(es) => {
            let caption = spec_decode_field(
                |x: JsonView| spec_decode_item_or_array(|y: JsonView| spec_decode_text(y), x),
                es,
                "caption"@,
            );
            let duration = spec_decode_field(
                |x: JsonView| spec_decode_number_or_string(x),
                es,
                "duration"@,
            );
            let format = spec_decode_field(
                |x: JsonView| spec_decode_raw_item(x),
                es,
                "format"@,
            );
            let height = spec_decode_field(
                |x: JsonView| spec_decode_number_or_string(x),
                es,
                "height"@,
            );
            let info = spec_decode_field(
                |x: JsonView| spec_decode_string_or_array(x),
                es,
                "info"@,
            );
            let levels = spec_decode_field(
                |x: JsonView| spec_decode_number_or_string(x),
                es,
                "levels"@,
            );
            let mimetype = spec_decode_field(
                |x: JsonView| spec_decode_string_or_array(x),
                es,
                "mimetype"@,
            );
            let other_name = spec_decode_field(
                |x: JsonView| spec_decode_string_or_array(x),
                es,
                "other_name"@,
            );
            let profile = spec_decode_field(
                |x: JsonView| spec_decode_item_or_array(|y: JsonView| spec_decode_text(y), x),
                es,
                "profile"@,
            );
            let protocol = spec_decode_field(
                |x: JsonView| spec_decode_string_or_array(x),
                es,
                "protocol"@,
            );
            let size = spec_decode_field(
                |x: JsonView| spec_decode_number_or_string(x),
                es,
                "size"@,
            );
            let streams = spec_decode_field(
                |x: JsonView| spec_decode_item_or_array(|y: JsonView| spec_decode_text(y), x),
                es,
                "streams"@,
            );
            let tiles = spec_decode_field(
                |x: JsonView| spec_decode_item_or_array(|y: JsonView| spec_decode_text(y), x),
                es,
                "tiles"@,
            );
            let type_field = spec_decode_field(
                |x: JsonView| spec_decode_string_or_array(x),
                es,
                "type_field"@,
            );
            let url = spec_decode_field(
                |x: JsonView| spec_decode_string_or_array(x),
                es,
                "url"@,
            );
            let use_field = spec_decode_field(
                |x: JsonView| spec_decode_string_or_array(x),
                es,
                "use_field"@,
            );
            let width = spec_decode_field(
                |x: JsonView| spec_decode_number_or_string(x),
                es,
                "width"@,
            );
            if caption is Ok && duration is Ok && format is Ok && height is Ok && info is Ok && levels is Ok && mimetype is Ok && other_name is Ok && profile is Ok && protocol is Ok && size is Ok && streams is Ok && tiles is Ok && type_field is Ok && url is Ok && use_field is Ok && width is Ok {
                Ok(
                    FileView {
                        caption: caption->Ok_0,
                        duration: duration->Ok_0,
                        format: format->Ok_0,
                        height: height->Ok_0,
                        info: info->Ok_0,
                        levels: levels->Ok_0,
                        mimetype: mimetype->Ok_0,
                        other_name: other_name->Ok_0,
                        profile: profile->Ok_0,
                        protocol: protocol->Ok_0,
                        size: size->Ok_0,
                        streams: streams->Ok_0,
                        tiles: tiles->Ok_0,
                        type_field: type_field->Ok_0,
                        url: url->Ok_0,
                        use_field: use_field->Ok_0,
                        width: width->Ok_0,
                        additional: spec_unknown_entries(es, |k: Seq<char>| spec_file_known(k)),
                    },
                )
            } else {
                Err(DecodeError::WrongShape)
            }
        },
        _ => Err(DecodeError::WrongShape),
    }
}

impl File {
    /// Decodes this record from a JSON object, keeping unknown keys.
    #[verifier::rlimit(60)]
    pub fn from_json(v: &JsonValue) -> (r: Result<File, DecodeError>)
        ensures
            view_result(r) == spec_decode_file(v.deep_view()),
    {
        let entries = match v {
            JsonValue::Object(es) => es,
            _ => {
                return Err(DecodeError::WrongShape);
            },
        };
        proof {
            assert(json_view(*v)->Object_0 =~= entries.deep_view());
        }
        let caption = match field_texts(entries, "caption") {
            Ok(x) => x,
            Err(e) => {
                return Err(e);
            },
        };
        let duration = match field_number_or_string(entries, "duration") {
            Ok(x) => x,
            Err(e) => {
                return Err(e);
            },
        };
        let format = match field_raw_item(entries, "format") {
            Ok(x) => x,
            Err(e) => {
                return Err(e);
            },
        };
        let height = match field_number_or_string(entries, "height") {
            Ok(x) => x,
            Err(e) => {
                return Err(e);
            },
        };
        let info = match field_string_or_array(entries, "info") {
            Ok(x) => x,
            Err(e) => {
                return Err(e);
            },
        };
        let levels = match field_number_or_string(entries, "levels") {
            Ok(x) => x,
            Err(e) => {
                return Err(e);
            },
        };
        let mimetype = match field_string_or_array(entries, "mimetype") {
            Ok(x) => x,
            Err(e) => {
                return Err(e);
            },
        };
        let other_name = match field_string_or_array(entries, "other_name") {
            Ok(x) => x,
            Err(e) => {
                return Err(e);
            },
        };
        let profile = match field_texts(entries, "profile") {
            Ok(x) => x,
            Err(e) => {
                return Err(e);
            },
        };
        let protocol = match field_string_or_array(entries, "protocol") {
            Ok(x) => x,
            Err(e) => {
                return Err(e);
            },
        };
        let size = match field_number_or_string(entries, "size") {
            Ok(x) => x,
            Err(e) => {
                return Err(e);
            },
        };
        let streams = match field_texts(entries, "streams") {
            Ok(x) => x,
            Err(e) => {
                return Err(e);
            },
        };
        let tiles = match field_texts(entries, "tiles") {
            Ok(x) => x,
            Err(e) => {
                return Err(e);
            },
        };
        let type_field = match field_string_or_array(entries, "type_field") {
            Ok(x) => x,
            Err(e) => {
                return Err(e);
            },
        };
        let url = match field_string_or_array(entries, "url") {
            Ok(x) => x,
            Err(e) => {
                return Err(e);
            },
        };
        let use_field = match field_string_or_array(entries, "use_field") {
            Ok(x) => x,
            Err(e) => {
                return Err(e);
            },
        };
        let width = match field_number_or_string(entries, "width") {
            Ok(x) => x,
            Err(e) => {
                return Err(e);
            },
        };
        let additional = file_unknown_entries(entries);
        Ok(
            File {
                caption,
                duration,
                format,
                height,
                info,
                levels,
                mimetype,
                other_name,
                profile,
                protocol,
                size,
                streams,
                tiles,
                type_field,
                url,
                use_field,
                width,
                additional,
            },
        )
    }
}

fn item_or_array_file_items_from_json(v: &JsonValue) -> (r: Result<
    ItemOrArray<File>,
    DecodeError,
>)
    ensures
        view_result(r) == spec_decode_item_or_array(
            |x: JsonView| spec_decode_file(x),
            v.deep_view(),
        ),
{
    let ghost elem = |x: JsonView| spec_decode_file(x);
    match v {
        JsonValue::List(items) => {
            let ghost jitems = json_view(*v)->List_0;
            proof {
                assert(json_view(*v) == JsonView::List(jitems));
            }
            let mut out: Vec<File> = Vec::new();
            let mut i: usize = 0;
            while i < items.len()
                invariant
                    elem == (|x: JsonView| spec_decode_file(x)),
                    json_view(*v) == JsonView::List(jitems),
                    jitems == json_view(JsonValue::List(*items))->List_0,
                    jitems.len() == items@.len(),
                    i <= items@.len(),
                    forall|j: int| 0 <= j < i ==> (#[trigger] elem(jitems[j])) is Ok,
                    out@.len() == i,
                    forall|j: int| 0 <= j < i ==> out@[j].deep_view() == elem(jitems[j])->Ok_0,
                decreases items@.len() - i,
            {
                proof {
                    assert(jitems[i as int] == json_view(items@[i as int]));
                    assert(elem(jitems[i as int]) == spec_decode_file(jitems[i as int]));
                }
                match File::from_json(&items[i]) {
                    Ok(x) => {
                        out.push(x);
                    },
                    Err(e) => {
                        proof {
                            assert(!(forall|j: int|
                                0 <= j < jitems.len() ==> (#[trigger] elem(jitems[j])) is Ok))
                                by {
                                assert(0 <= i < jitems.len() && !(elem(jitems[i as int]) is Ok));
                            }
                        }
                        return Err(e);
                    },
                }
                i += 1;
            }
            proof {
                assert(out.deep_view() =~= Seq::new(jitems.len(), |j: int| elem(jitems[j])->Ok_0));
            }
            Ok(ItemOrArray::Array(out))
        },
        _ => {
            proof {
                assert(elem(v.deep_view()) == spec_decode_file(v.deep_view()));
            }
            match File::from_json(v) {
                Ok(x) => Ok(ItemOrArray::Item(x)),
                Err(e) => Err(e),
            }
        },
    }
}

/// How a strict list of [`File`] records decodes: the value must be a
/// JSON list whose every element decodes.
pub open spec fn spec_decode_files_list(v: JsonView) -> Result<Seq<FileView>, DecodeError> {
    match v {
        JsonView::List(items) => if forall|i: int|
            0 <= i < items.len() ==> (#[trigger] spec_decode_file(items[i])) is Ok {
            Ok(Seq::new(items.len(), |i: int| spec_decode_file(items[i])->Ok_0))
        } else {
            Err(DecodeError::WrongShape)
        },
        _ => Err(DecodeError::WrongShape),
    }
}

fn files_list_from_json(v: &JsonValue) -> (r: Result<Vec<File>, DecodeError>)
    ensures
        view_result(r) == spec_decode_files_list(v.deep_view()),
{
    match v {
        JsonValue::List(items) => {
            let ghost jitems = json_view(*v)->List_0;
            proof {
                assert(json_view(*v) == JsonView::List(jitems));
            }
            let mut out: Vec<File> = Vec::new();
            let mut i: usize = 0;
            while i < items.len()
                invariant
                    json_view(*v) == JsonView::List(jitems),
                    jitems == json_view(JsonValue::List(*items))->List_0,
                    jitems.len() == items@.len(),
                    i <= items@.len(),
                    forall|j: int| 0 <= j < i ==> (#[trigger] spec_decode_file(jitems[j])) is Ok,
                    out@.len() == i,
                    forall|j: int|
                        0 <= j < i ==> out@[j].deep_view() == spec_decode_file(jitems[j])->Ok_0,
                decreases items@.len() - i,
            {
                proof {
                    assert(jitems[i as int] == json_view(items@[i as int]));
                }
                match File::from_json(&items[i]) {
                    Ok(x) => {
                        out.push(x);
                    },
                    Err(e) => {
                        proof {
                            assert(!(forall|j: int|
                                0 <= j < jitems.len() ==> (#[trigger] spec_decode_file(
                                    jitems[j],
                                )) is Ok)) by {
                                assert(0 <= i < jitems.len() && !(spec_decode_file(
                                    jitems[i as int],
                                ) is Ok));
                            }
                        }
                        return Err(e);
                    },
                }
                i += 1;
            }
            proof {
                assert(out.deep_view() =~= Seq::new(
                    jitems.len(),
                    |j: int| spec_decode_file(jitems[j])->Ok_0,
                ));
            }
            Ok(out)
        },
        _ => Err(DecodeError::WrongShape),
    }
}

/// How a single-or-list of [`File`] records decodes.
pub open spec fn spec_decode_ioa_file(v: JsonView) -> Result<
    ItemOrArrayView<FileView>,
    DecodeError,
> {
    spec_decode_item_or_array(|y: JsonView| spec_decode_file(y), v)
}

fn ioa_file_from_json(v: &JsonValue) -> (r: Result<ItemOrArray<File>, DecodeError>)
    ensures
        view_result(r) == spec_decode_ioa_file(v.deep_view()),
{
    item_or_array_file_items_from_json(v)
}

/// How `a flat file list` groups decode: a value that itself decodes as one
/// group stays a single group — mirroring the greedy first-variant rule of
/// the upstream wire format — and otherwise a list of groups decodes
/// elementwise.
pub open spec fn spec_decode_files_groups(v: JsonView) -> Result<
    ItemOrArrayView<Seq<FileView>>,
    DecodeError,
> {
    match spec_decode_files_list(v) {
        Ok(x) => Ok(ItemOrArrayView::Item(x)),
        Err(_) => match v {
            JsonView::List(items) => if forall|i: int|
                0 <= i < items.len() ==> (#[trigger] spec_decode_files_list(items[i])) is Ok {
                Ok(
                    ItemOrArrayView::Array(
                        Seq::new(items.len(), |i: int| spec_decode_files_list(items[i])->Ok_0),
                    ),
                )
            } else {
                Err(DecodeError::WrongShape)
            },
            _ => Err(DecodeError::WrongShape),
        },
    }
}

fn files_groups_from_json(v: &JsonValue) -> (r: Result<
    ItemOrArray<Vec<File>>,
    DecodeError,
>)
    ensures
        view_result(r) == spec_decode_files_groups(v.deep_view()),
{
    match files_list_from_json(v) {
        Ok(x) => {
            return Ok(ItemOrArray::Item(x));
        },
        Err(_) => {},
    }
    match v {
        JsonValue::List(items) => {
            let ghost jitems = json_view(*v)->List_0;
            proof {
                assert(json_view(*v) == JsonView::List(jitems));
            }
            let mut out: Vec<Vec<File>> = Vec::new();
            let mut i: usize = 0;
            while i < items.len()
                invariant
                    spec_decode_files_list(v.deep_view()) is Err,
                    json_view(*v) == JsonView::List(jitems),
                    jitems == json_view(JsonValue::List(*items))->List_0,
                    jitems.len() == items@.len(),
                    i <= items@.len(),
                    forall|j: int| 0 <= j < i ==> (#[trigger] spec_decode_files_list(jitems[j])) is Ok,
                    out@.len() == i,
                    forall|j: int|
                        0 <= j < i ==> out@[j].deep_view() == spec_decode_files_list(jitems[j])->Ok_0,
                decreases items@.len() - i,
            {
                proof {
                    assert(jitems[i as int] == json_view(items@[i as int]));
                }
                match files_list_from_json(&items[i]) {
                    Ok(x) => {
                        out.push(x);
                    },
                    Err(e) => {
                        proof {
                            assert(!(forall|j: int|
                                0 <= j < jitems.len() ==> (#[trigger] spec_decode_files_list(
                                    jitems[j],
                                )) is Ok)) by {
                                assert(0 <= i < jitems.len() && !(spec_decode_files_list(
                                    jitems[i as int],
                                ) is Ok));
                            }
                        }
                        return Err(e);
                    },
                }
                i += 1;
            }
            proof {
                assert(out.deep_view() =~= Seq::new(
                    jitems.len(),
                    |j: int| spec_decode_files_list(jitems[j])->Ok_0,
                ));
            }
            Ok(ItemOrArray::Array(out))
        },
        _ => Err(DecodeError::WrongShape),
    }
}

fn field_files_groups(entries: &Vec<(String, JsonValue)>, key: &str) -> (r: Result<
    Option<ItemOrArray<Vec<File>>>,
    DecodeError,
>)
    ensures
        view_result(r) == spec_decode_field(
            |x: JsonView| spec_decode_files_groups(x),
            entries.deep_view(),
            key@,
        ),
{
    let ghost elem = |x: JsonView| spec_decode_files_groups(x);
    match lookup(entries, key) {
        None => Ok(None),
        Some(val) => match val {
            JsonValue::Null => Ok(None),
            _ => {
                proof {
                    assert(elem(val.deep_view()) == spec_decode_files_groups(val.deep_view()));
                }
                match files_groups_from_json(val) {
                    Ok(x) => Ok(Some(x)),
                    Err(e) => Err(e),
                }
            },
        },
    }
}

/// How `a single-or-list file` groups decode: a value that itself decodes as one
/// group stays a single group — mirroring the greedy first-variant rule of
/// the upstream wire format — and otherwise a list of groups decodes
/// elementwise.
pub open spec fn spec_decode_file_groups(v: JsonView) -> Result<
    ItemOrArrayView<ItemOrArrayView<FileView>>,
    DecodeError,
> {
    match spec_decode_ioa_file(v) {
        Ok(x) => Ok(ItemOrArrayView::Item(x)),
        Err(_) => match v {
            JsonView::List(items) => if forall|i: int|
                0 <= i < items.len() ==> (#[trigger] spec_decode_ioa_file(items[i])) is Ok {
                Ok(
                    ItemOrArrayView::Array(
                        Seq::new(items.len(), |i: int| spec_decode_ioa_file(items[i])->Ok_0),
                    ),
                )
            } else {
                Err(DecodeError::WrongShape)
            },
            _ => Err(DecodeError::WrongShape),
        },
    }
}

fn file_groups_from_json(v: &JsonValue) -> (r: Result<
    ItemOrArray<ItemOrArray<File>>,
    DecodeError,
>)
    ensures
        view_result(r) == spec_decode_file_groups(v.deep_view()),
{
    match ioa_file_from_json(v) {
        Ok(x) => {
            return Ok(ItemOrArray::Item(x));
        },
        Err(_) => {},
    }
    match v {
        JsonValue::List(items) => {
            let ghost jitems = json_view(*v)->List_0;
            proof {
                assert(json_view(*v) == JsonView::List(jitems));
            }
            let mut out: Vec<ItemOrArray<File>> = Vec::new();
            let mut i: usize = 0;
            while i < items.len()
                invariant
                    spec_decode_ioa_file(v.deep_view()) is Err,
                    json_view(*v) == JsonView::List(jitems),
                    jitems == json_view(JsonValue::List(*items))->List_0,
                    jitems.len() == items@.len(),
                    i <= items@.len(),
                    forall|j: int| 0 <= j < i ==> (#[trigger] spec_decode_ioa_file(jitems[j])) is Ok,
                    out@.len() == i,
                    forall|j: int|
                        0 <= j < i ==> out@[j].deep_view() == spec_decode_ioa_file(jitems[j])->Ok_0,
                decreases items@.len() - i,
            {
                proof {
                    assert(jitems[i as int] == json_view(items@[i as int]));
                }
                match ioa_file_from_json(&items[i]) {
                    Ok(x) => {
                        out.push(x);
                    },
                    Err(e) => {
                        proof {
                            assert(!(forall|j: int|
                                0 <= j < jitems.len() ==> (#[trigger] spec_decode_ioa_file(
                                    jitems[j],
                                )) is Ok)) by {
                                assert(0 <= i < jitems.len() && !(spec_decode_ioa_file(
                                    jitems[i as int],
                                ) is Ok));
                            }
                        }
                        return Err(e);
                    },
                }
                i += 1;
            }
            proof {
                assert(out.deep_view() =~= Seq::new(
                    jitems.len(),
                    |j: int| spec_decode_ioa_file(jitems[j])->Ok_0,
                ));
            }
            Ok(ItemOrArray::Array(out))
        },
        _ => Err(DecodeError::WrongShape),
    }
}

fn field_file_groups(entries: &Vec<(String, JsonValue)>, key: &str) -> (r: Result<
    Option<ItemOrArray<ItemOrArray<File>>>,
    DecodeError,
>)
    ensures
        view_result(r) == spec_decode_field(
            |x: JsonView| spec_decode_file_groups(x),
            entries.deep_view(),
            key@,
        ),
{
    let ghost elem = |x: JsonView| spec_decode_file_groups(x);
    match lookup(entries, key) {
        None => Ok(None),
        Some(val) => match val {
            JsonValue::Null => Ok(None),
            _ => {
                proof {
                    assert(elem(val.deep_view()) == spec_decode_file_groups(val.deep_view()));
                }
                match file_groups_from_json(val) {
                    Ok(x) => Ok(Some(x)),
                    Err(e) => Err(e),
                }
            },
        },
    }
}

/// Whether a key is one of the known keys of an [`ItemAttribute`].
pub open spec fn spec_item_attribute_known(k: Seq<char>) -> bool {
    k == "place_of_publication"@
        || k == "source_collection"@
        || k == "display_offsite"@
        || k == "contributors"@
        || k == "location_county"@
        || k == "access_restricted"@
        || k == "site"@
        || k == "original_format"@
        || k == "partof_title"@
        || k == "date"@
        || k == "item_type"@
        || k == "url"@
        || k == "subject_headings"@
        || k == "newspaper_title"@
        || k == "created_published"@
        || k == "extract_urls"@
        || k == "partof_division"@
        || k == "contents"@
        || k == "subject"@
        || k == "index"@
        || k == "digital_id"@
        || k == "call_number"@
        || k == "group"@
        || k == "score"@
        || k == "location_country"@
        || k == "title"@
        || k == "description"@
        || k == "related_items"@
        || k == "id"@
        || k == "online_format"@
        || k == "subjects"@
        || k == "language"@
        || k == "rights"@
        || k == "locations"@
        || k == "notes"@
        || k == "shelf_id"@
        || k == "batch"@
        || k == "summary"@
        || k == "digitized"@
        || k == "publication_frequency"@
        || k == "resources"@
        || k == "aka"@
        || k == "contributor_names"@
        || k == "image_url"@
        || k == "access_advisory"@
}

fn is_item_attribute_key(k: &str) -> (r: bool)
    ensures
        r == spec_item_attribute_known(k@),
{
    str_eq(k, "place_of_publication")
        || str_eq(k, "source_collection")
        || str_eq(k, "display_offsite")
        || str_eq(k, "contributors")
        || str_eq(k, "location_county")
        || str_eq(k, "access_restricted")
        || str_eq(k, "site")
        || str_eq(k, "original_format")
        || str_eq(k, "partof_title")
        || str_eq(k, "date")
        || str_eq(k, "item_type")
        || str_eq(k, "url")
        || str_eq(k, "subject_headings")
        || str_eq(k, "newspaper_title")
        || str_eq(k, "created_published")
        || str_eq(k, "extract_urls")
        || str_eq(k, "partof_division")
        || str_eq(k, "contents")
        || str_eq(k, "subject")
        || str_eq(k, "index")
        || str_eq(k, "digital_id")
        || str_eq(k, "call_number")
        || str_eq(k, "group")
        || str_eq(k, "score")
        || str_eq(k, "location_country")
        || str_eq(k, "title")
        || str_eq(k, "description")
        || str_eq(k, "related_items")
        || str_eq(k, "id")
        || str_eq(k, "online_format")
        || str_eq(k, "subjects")
        || str_eq(k, "language")
        || str_eq(k, "rights")
        || str_eq(k, "locations")
        || str_eq(k, "notes")
        || str_eq(k, "shelf_id")
        || str_eq(k, "batch")
        || str_eq(k, "summary")
        || str_eq(k, "digitized")
        || str_eq(k, "publication_frequency")
        || str_eq(k, "resources")
        || str_eq(k, "aka")
        || str_eq(k, "contributor_names")
        || str_eq(k, "image_url")
        || str_eq(k, "access_advisory")
}

fn item_attribute_unknown_entries(entries: &Vec<(String, JsonValue)>) -> (r: Vec<(String, JsonValue)>)
    ensures
        r.deep_view() == spec_unknown_entries(
            entries.deep_view(),
            |k: Seq<char>| spec_item_attribute_known(k),
        ),
{
    let ghost known = |k: Seq<char>| spec_item_attribute_known(k);
    let ghost dv = entries.deep_view();
    let mut out: Vec<(String, JsonValue)> = Vec::new();
    proof {
        assert(out.deep_view() =~= spec_unknown_entries(dv.take(0), known));
    }
    let mut i: usize = 0;
    while i < entries.len()
        invariant
            known == (|k: Seq<char>| spec_item_attribute_known(k)),
            dv == entries.deep_view(),
            dv.len() == entries@.len(),
            i <= entries@.len(),
            out.deep_view() == spec_unknown_entries(dv.take(i as int), known),
        decreases entries@.len() - i,
    {
        proof {
            assert(dv[i as int] == (entries@[i as int].0@, json_view(entries@[i as int].1)));
            assert(dv.take(i as int + 1).drop_last() =~= dv.take(i as int));
            assert(dv.take(i as int + 1).last() == dv[i as int]);
            assert(known(entries@[i as int].0@) == spec_item_attribute_known(entries@[i as int].0@));
        }
        if !is_item_attribute_key(entries[i].0.as_str()) {
            let key = entries[i].0.clone();
            let val = entries[i].1.duplicate();
            out.push((key, val));
            proof {
                assert(out.deep_view() =~= spec_unknown_entries(dv.take(i as int + 1), known));
            }
        } else {
            proof {
                assert(out.deep_view() =~= spec_unknown_entries(dv.take(i as int + 1), known));
            }
        }
        i += 1;
    }
    proof {
        assert(dv.take(entries@.len() as int) =~= dv);
    }
    out
}

/// The detailed bibliographic record of an item.
///
/// Every known field is independently optional; every other top-level
/// key is kept verbatim in `additional`.
#[derive(Debug)]
pub struct ItemAttribute {
    /// The `place_of_publication` section.
    pub place_of_publication: Option<StringOrArray>,
    /// The `source_collection` section.
    pub source_collection: Option<ItemOrArray<String>>,
    /// The `display_offsite` section.
    pub display_offsite: Option<BoolOrString>,
    /// The `contributors` section.
    pub contributors: Option<ItemOrArray<String>>,
    /// The `location_county` section.
    pub location_county: Option<ItemOrArray<String>>,
    /// The `access_restricted` section.
    pub access_restricted: Option<BoolOrString>,
    /// The `site` section.
    pub site: Option<ItemOrArray<String>>,
    /// The `original_format` section.
    pub original_format: Option<ItemOrArray<String>>,
    /// The `partof_title` section.
    pub partof_title: Option<ItemOrArray<String>>,
    /// The `date` section.
    pub date: Option<StringOrArray>,
    /// The `item_type` section.
    pub item_type: Option<StringOrArray>,
    /// The `url` section.
    pub url: Option<StringOrArray>,
    /// The `subject_headings` section.
    pub subject_headings: Option<ItemOrArray<String>>,
    /// The `newspaper_title` section.
    pub newspaper_title: Option<ItemOrArray<String>>,
    /// The `created_published` section.
    pub created_published: Option<ItemOrArray<String>>,
    /// The `extract_urls` section.
    pub extract_urls: Option<ItemOrArray<String>>,
    /// The `partof_division` section.
    pub partof_division: Option<ItemOrArray<String>>,
    /// The `contents` section.
    pub contents: Option<ItemOrArray<String>>,
    /// The `subject` section.
    pub subject: Option<ItemOrArray<String>>,
    /// The `index` section.
    pub index: Option<NumberOrString>,
    /// The `digital_id` section.
    pub digital_id: Option<ItemOrArray<String>>,
    /// The `call_number` section.
    pub call_number: Option<ItemOrArray<String>>,
    /// The `group` section.
    pub group: Option<ItemOrArray<String>>,
    /// The `score` section.
    pub score: Option<NumberOrString>,
    /// The `location_country` section.
    pub location_country: Option<ItemOrArray<String>>,
    /// The `title` section.
    pub title: Option<StringOrArray>,
    /// The `description` section.
    pub description: Option<StringOrArray>,
    /// The `related_items` section.
    pub related_items: Option<ItemOrArray<String>>,
    /// The `id` section.
    pub id: Option<StringOrArray>,
    /// The `online_format` section.
    pub online_format: Option<ItemOrArray<String>>,
    /// The `subjects` section.
    pub subjects: Option<ItemOrArray<String>>,
    /// The `language` section.
    pub language: Option<ItemOrArray<String>>,
    /// The `rights` section.
    pub rights: Option<ItemOrArray<String>>,
    /// The `locations` section.
    pub locations: Option<ItemOrArray<String>>,
    /// The `notes` section.
    pub notes: Option<ItemOrArray<String>>,
    /// The `shelf_id` section.
    pub shelf_id: Option<StringOrArray>,
    /// The `batch` section.
    pub batch: Option<ItemOrArray<String>>,
    /// The `summary` section.
    pub summary: Option<StringOrArray>,
    /// The `digitized` section.
    pub digitized: Option<BoolOrString>,
    /// The `publication_frequency` section.
    pub publication_frequency: Option<ItemOrArray<String>>,
    /// The `resources` section.
    pub resources: Option<ItemOrArray<String>>,
    /// The `aka` section.
    pub aka: Option<ItemOrArray<String>>,
    /// The `contributor_names` section.
    pub contributor_names: Option<ItemOrArray<String>>,
    /// The `image_url` section.
    pub image_url: Option<ItemOrArray<String>>,
    /// The `access_advisory` section.
    pub access_advisory: Option<ItemOrArray<String>>,
    /// Any other entries of the object, kept verbatim.
    pub additional: Vec<(String, JsonValue)>,
}

/// The shape of an [`ItemAttribute`].
pub struct ItemAttributeView {
    /// The `place_of_publication` section.
    pub place_of_publication: Option<StringOrArrayView>,
    /// The `source_collection` section.
    pub source_collection: Option<ItemOrArrayView<Seq<char>>>,
    /// The `display_offsite` section.
    pub display_offsite: Option<BoolOrStringView>,
    /// The `contributors` section.
    pub contributors: Option<ItemOrArrayView<Seq<char>>>,
    /// The `location_county` section.
    pub location_county: Option<ItemOrArrayView<Seq<char>>>,
    /// The `access_restricted` section.
    pub access_restricted: Option<BoolOrStringView>,
    /// The `site` section.
    pub site: Option<ItemOrArrayView<Seq<char>>>,
    /// The `original_format` section.
    pub original_format: Option<ItemOrArrayView<Seq<char>>>,
    /// The `partof_title` section.
    pub partof_title: Option<ItemOrArrayView<Seq<char>>>,
    /// The `date` section.
    pub date: Option<StringOrArrayView>,
    /// The `item_type` section.
    pub item_type: Option<StringOrArrayView>,
    /// The `url` section.
    pub url: Option<StringOrArrayView>,
    /// The `subject_headings` section.
    pub subject_headings: Option<ItemOrArrayView<Seq<char>>>,
    /// The `newspaper_title` section.
    pub newspaper_title: Option<ItemOrArrayView<Seq<char>>>,
    /// The `created_published` section.
    pub created_published: Option<ItemOrArrayView<Seq<char>>>,
    /// The `extract_urls` section.
    pub extract_urls: Option<ItemOrArrayView<Seq<char>>>,
    /// The `partof_division` section.
    pub partof_division: Option<ItemOrArrayView<Seq<char>>>,
    /// The `contents` section.
    pub contents: Option<ItemOrArrayView<Seq<char>>>,
    /// The `subject` section.
    pub subject: Option<ItemOrArrayView<Seq<char>>>,
    /// The `index` section.
    pub index: Option<NumberOrStringView>,
    /// The `digital_id` section.
    pub digital_id: Option<ItemOrArrayView<Seq<char>>>,
    /// The `call_number` section.
    pub call_number: Option<ItemOrArrayView<Seq<char>>>,
    /// The `group` section.
    pub group: Option<ItemOrArrayView<Seq<char>>>,
    /// The `score` section.
    pub score: Option<NumberOrStringView>,
    /// The `location_country` section.
    pub location_country: Option<ItemOrArrayView<Seq<char>>>,
    /// The `title` section.
    pub title: Option<StringOrArrayView>,
    /// The `description` section.
    pub description: Option<StringOrArrayView>,
    /// The `related_items` section.
    pub related_items: Option<ItemOrArrayView<Seq<char>>>,
    /// The `id` section.
    pub id: Option<StringOrArrayView>,
    /// The `online_format` section.
    pub online_format: Option<ItemOrArrayView<Seq<char>>>,
    /// The `subjects` section.
    pub subjects: Option<ItemOrArrayView<Seq<char>>>,
    /// The `language` section.
    pub language: Option<ItemOrArrayView<Seq<char>>>,
    /// The `rights` section.
    pub rights: Option<ItemOrArrayView<Seq<char>>>,
    /// The `locations` section.
    pub locations: Option<ItemOrArrayView<Seq<char>>>,
    /// The `notes` section.
    pub notes: Option<ItemOrArrayView<Seq<char>>>,
    /// The `shelf_id` section.
    pub shelf_id: Option<StringOrArrayView>,
    /// The `batch` section.
    pub batch: Option<ItemOrArrayView<Seq<char>>>,
    /// The `summary` section.
    pub summary: Option<StringOrArrayView>,
    /// The `digitized` section.
    pub digitized: Option<BoolOrStringView>,
    /// The `publication_frequency` section.
    pub publication_frequency: Option<ItemOrArrayView<Seq<char>>>,
    /// The `resources` section.
    pub resources: Option<ItemOrArrayView<Seq<char>>>,
    /// The `aka` section.
    pub aka: Option<ItemOrArrayView<Seq<char>>>,
    /// The `contributor_names` section.
    pub contributor_names: Option<ItemOrArrayView<Seq<char>>>,
    /// The `image_url` section.
    pub image_url: Option<ItemOrArrayView<Seq<char>>>,
    /// The `access_advisory` section.
    pub access_advisory: Option<ItemOrArrayView<Seq<char>>>,
    /// Any other entries of the object, kept verbatim.
    pub additional: Seq<(Seq<char>, JsonView)>,
}

impl DeepView for ItemAttribute {
    type V = ItemAttributeView;

    open spec fn deep_view(&self) -> ItemAttributeView {
        ItemAttributeView {
            place_of_publication: self.place_of_publication.deep_view(),
            source_collection: self.source_collection.deep_view(),
            display_offsite: self.display_offsite.deep_view(),
            contributors: self.contributors.deep_view(),
            location_county: self.location_county.deep_view(),
            access_restricted: self.access_restricted.deep_view(),
            site: self.site.deep_view(),
            original_format: self.original_format.deep_view(),
            partof_title: self.partof_title.deep_view(),
            date: self.date.deep_view(),
            item_type: self.item_type.deep_view(),
            url: self.url.deep_view(),
            subject_headings: self.subject_headings.deep_view(),
            newspaper_title: self.newspaper_title.deep_view(),
            created_published: self.created_published.deep_view(),
            extract_urls: self.extract_urls.deep_view(),
            partof_division: self.partof_division.deep_view(),
            contents: self.contents.deep_view(),
            subject: self.subject.deep_view(),
            index: self.index.deep_view(),
            digital_id: self.digital_id.deep_view(),
            call_number: self.call_number.deep_view(),
            group: self.group.deep_view(),
            score: self.score.deep_view(),
            location_country: self.location_country.deep_view(),
            title: self.title.deep_view(),
            description: self.description.deep_view(),
            related_items: self.related_items.deep_view(),
            id: self.id.deep_view(),
            online_format: self.online_format.deep_view(),
            subjects: self.subjects.deep_view(),
            language: self.language.deep_view(),
            rights: self.rights.deep_view(),
            locations: self.locations.deep_view(),
            notes: self.notes.deep_view(),
            shelf_id: self.shelf_id.deep_view(),
            batch: self.batch.deep_view(),
            summary: self.summary.deep_view(),
            digitized: self.digitized.deep_view(),
            publication_frequency: self.publication_frequency.deep_view(),
            resources: self.resources.deep_view(),
            aka: self.aka.deep_view(),
            contributor_names: self.contributor_names.deep_view(),
            image_url: self.image_url.deep_view(),
            access_advisory: self.access_advisory.deep_view(),
            additional: self.additional.deep_view(),
        }
    }
}

/// How an [`ItemAttribute`] decodes from an object's entries.
pub open spec fn spec_decode_item_attribute(v: JsonView) -> Result<ItemAttributeView, DecodeError> {
    match v {
        JsonView::Object(es) => {
            let place_of_publication = spec_decode_field(
                |x: JsonView| spec_decode_string_or_array(x),
                es,
                "place_of_publication"@,
            );
            let source_collection = spec_decode_field(
                |x: JsonView| spec_decode_item_or_array(|y: JsonView| spec_decode_text(y), x),
                es,
                "source_collection"@,
            );
            let display_offsite = spec_decode_field(
                |x: JsonView| spec_decode_bool_or_string(x),
                es,
                "display_offsite"@,
            );
            let contributors = spec_decode_field(
                |x: JsonView| spec_decode_item_or_array(|y: JsonView| spec_decode_text(y), x),
                es,
                "contributors"@,
            );
            let location_county = spec_decode_field(
                |x: JsonView| spec_decode_item_or_array(|y: JsonView| spec_decode_text(y), x),
                es,
                "location_county"@,
            );
            let access_restricted = spec_decode_field(
                |x: JsonView| spec_decode_bool_or_string(x),
                es,
                "access_restricted"@,
            );
            let site = spec_decode_field(
                |x: JsonView| spec_decode_item_or_array(|y: JsonView| spec_decode_text(y), x),
                es,
                "site"@,
            );
            let original_format = spec_decode_field(
                |x: JsonView| spec_decode_item_or_array(|y: JsonView| spec_decode_text(y), x),
                es,
                "original_format"@,
            );
            let partof_title = spec_decode_field(
                |x: JsonView| spec_decode_item_or_array(|y: JsonView| spec_decode_text(y), x),
                es,
                "partof_title"@,
            );
            let date = spec_decode_field(
                |x: JsonView| spec_decode_string_or_array(x),
                es,
                "date"@,
            );
            let item_type = spec_decode_field(
                |x: JsonView| spec_decode_string_or_array(x),
                es,
                "item_type"@,
            );
            let url = spec_decode_field(
                |x: JsonView| spec_decode_string_or_array(x),
                es,
                "url"@,
            );
            let subject_headings = spec_decode_field(
                |x: JsonView| spec_decode_item_or_array(|y: JsonView| spec_decode_text(y), x),
                es,
                "subject_headings"@,
            );
            let newspaper_title = spec_decode_field(
                |x: JsonView| spec_decode_item_or_array(|y: JsonView| spec_decode_text(y), x),
                es,
                "newspaper_title"@,
            );
            let created_published = spec_decode_field(
                |x: JsonView| spec_decode_item_or_array(|y: JsonView| spec_decode_text(y), x),
                es,
                "created_published"@,
            );
            let extract_urls = spec_decode_field(
                |x: JsonView| spec_decode_item_or_array(|y: JsonView| spec_decode_text(y), x),
                es,
                "extract_urls"@,
            );
            let partof_division = spec_decode_field(
                |x: JsonView| spec_decode_item_or_array(|y: JsonView| spec_decode_text(y), x),
                es,
                "partof_division"@,
            );
            let contents = spec_decode_field(
                |x: JsonView| spec_decode_item_or_array(|y: JsonView| spec_decode_text(y), x),
                es,
                "contents"@,
            );
            let subject = spec_decode_field(
                |x: JsonView| spec_decode_item_or_array(|y: JsonView| spec_decode_text(y), x),
                es,
                "subject"@,
            );
            let index = spec_decode_field(
                |x: JsonView| spec_decode_number_or_string(x),
                es,
                "index"@,
            );
            let digital_id = spec_decode_field(
                |x: JsonView| spec_decode_item_or_array(|y: JsonView| spec_decode_text(y), x),
                es,
                "digital_id"@,
            );
            let call_number = spec_decode_field(
                |x: JsonView| spec_decode_item_or_array(|y: JsonView| spec_decode_text(y), x),
                es,
                "call_number"@,
            );
            let group = spec_decode_field(
                |x: JsonView| spec_decode_item_or_array(|y: JsonView| spec_decode_text(y), x),
                es,
                "group"@,
            );
            let score = spec_decode_field(
                |x: JsonView| spec_decode_number_or_string(x),
                es,
                "score"@,
            );
            let location_country = spec_decode_field(
                |x: JsonView| spec_decode_item_or_array(|y: JsonView| spec_decode_text(y), x),
                es,
                "location_country"@,
            );
            let title = spec_decode_field(
                |x: JsonView| spec_decode_string_or_array(x),
                es,
                "title"@,
            );
            let description = spec_decode_field(
                |x: JsonView| spec_decode_string_or_array(x),
                es,
                "description"@,
            );
            let related_items = spec_decode_field(
                |x: JsonView| spec_decode_item_or_array(|y: JsonView| spec_decode_text(y), x),
                es,
                "related_items"@,
            );
            let id = spec_decode_field(
                |x: JsonView| spec_decode_string_or_array(x),
                es,
                "id"@,
            );
            let online_format = spec_decode_field(
                |x: JsonView| spec_decode_item_or_array(|y: JsonView| spec_decode_text(y), x),
                es,
                "online_format"@,
            );
            let subjects = spec_decode_field(
                |x: JsonView| spec_decode_item_or_array(|y: JsonView| spec_decode_text(y), x),
                es,
                "subjects"@,
            );
            let language = spec_decode_field(
                |x: JsonView| spec_decode_item_or_array(|y: JsonView| spec_decode_text(y), x),
                es,
                "language"@,
            );
            let rights = spec_decode_field(
                |x: JsonView| spec_decode_item_or_array(|y: JsonView| spec_decode_text(y), x),
                es,
                "rights"@,
            );
            let locations = spec_decode_field(
                |x: JsonView| spec_decode_item_or_array(|y: JsonView| spec_decode_text(y), x),
                es,
                "locations"@,
            );
            let notes = spec_decode_field(
                |x: JsonView| spec_decode_item_or_array(|y: JsonView| spec_decode_text(y), x),
                es,
                "notes"@,
            );
            let shelf_id = spec_decode_field(
                |x: JsonView| spec_decode_string_or_array(x),
                es,
                "shelf_id"@,
            );
            let batch = spec_decode_field(
                |x: JsonView| spec_decode_item_or_array(|y: JsonView| spec_decode_text(y), x),
                es,
                "batch"@,
            );
            let summary = spec_decode_field(
                |x: JsonView| spec_decode_string_or_array(x),
                es,
                "summary"@,
            );
            let digitized = spec_decode_field(
                |x: JsonView| spec_decode_bool_or_string(x),
                es,
                "digitized"@,
            );
            let publication_frequency = spec_decode_field(
                |x: JsonView| spec_decode_item_or_array(|y: JsonView| spec_decode_text(y), x),
                es,
                "publication_frequency"@,
            );
            let resources = spec_decode_field(
                |x: JsonView| spec_decode_item_or_array(|y: JsonView| spec_decode_text(y), x),
                es,
                "resources"@,
            );
            let aka = spec_decode_field(
                |x: JsonView| spec_decode_item_or_array(|y: JsonView| spec_decode_text(y), x),
                es,
                "aka"@,
            );
            let contributor_names = spec_decode_field(
                |x: JsonView| spec_decode_item_or_array(|y: JsonView| spec_decode_text(y), x),
                es,
                "contributor_names"@,
            );
            let image_url = spec_decode_field(
                |x: JsonView| spec_decode_item_or_array(|y: JsonView| spec_decode_text(y), x),
                es,
                "image_url"@,
            );
            let access_advisory = spec_decode_field(
                |x: JsonView| spec_decode_item_or_array(|y: JsonView| spec_decode_text(y), x),
                es,
                "access_advisory"@,
            );
            if place_of_publication is Ok && source_collection is Ok && display_offsite is Ok && contributors is Ok && location_county is Ok && access_restricted is Ok && site is Ok && original_format is Ok && partof_title is Ok && date is Ok && item_type is Ok && url is Ok && subject_headings is Ok && newspaper_title is Ok && created_published is Ok && extract_urls is Ok && partof_division is Ok && contents is Ok && subject is Ok && index is Ok && digital_id is Ok && call_number is Ok && group is Ok && score is Ok && location_country is Ok && title is Ok && description is Ok && related_items is Ok && id is Ok && online_format is Ok && subjects is Ok && language is Ok && rights is Ok && locations is Ok && notes is Ok && shelf_id is Ok && batch is Ok && summary is Ok && digitized is Ok && publication_frequency is Ok && resources is Ok && aka is Ok && contributor_names is Ok && image_url is Ok && access_advisory is Ok {
                Ok(
                    ItemAttributeView {
                        place_of_publication: place_of_publication->Ok_0,
                        source_collection: source_collection->Ok_0,
                        display_offsite: display_offsite->Ok_0,
                        contributors: contributors->Ok_0,
                        location_county: location_county->Ok_0,
                        access_restricted: access_restricted->Ok_0,
                        site: site->Ok_0,
                        original_format: original_format->Ok_0,
                        partof_title: partof_title->Ok_0,
                        date: date->Ok_0,
                        item_type: item_type->Ok_0,
                        url: url->Ok_0,
                        subject_headings: subject_headings->Ok_0,
                        newspaper_title: newspaper_title->Ok_0,
                        created_published: created_published->Ok_0,
                        extract_urls: extract_urls->Ok_0,
                        partof_division: partof_division->Ok_0,
                        contents: contents->Ok_0,
                        subject: subject->Ok_0,
                        index: index->Ok_0,
                        digital_id: digital_id->Ok_0,
                        call_number: call_number->Ok_0,
                        group: group->Ok_0,
                        score: score->Ok_0,
                        location_country: location_country->Ok_0,
                        title: title->Ok_0,
                        description: description->Ok_0,
                        related_items: related_items->Ok_0,
                        id: id->Ok_0,
                        online_format: online_format->Ok_0,
                        subjects: subjects->Ok_0,
                        language: language->Ok_0,
                        rights: rights->Ok_0,
                        locations: locations->Ok_0,
                        notes: notes->Ok_0,
                        shelf_id: shelf_id->Ok_0,
                        batch: batch->Ok_0,
                        summary: summary->Ok_0,
                        digitized: digitized->Ok_0,
                        publication_frequency: publication_frequency->Ok_0,
                        resources: resources->Ok_0,
                        aka: aka->Ok_0,
                        contributor_names: contributor_names->Ok_0,
                        image_url: image_url->Ok_0,
                        access_advisory: access_advisory->Ok_0,
                        additional: spec_unknown_entries(es, |k: Seq<char>| spec_item_attribute_known(k)),
                    },
                )
            } else {
                Err(DecodeError::WrongShape)
            }
        },
        _ => Err(DecodeError::WrongShape),
    }
}

impl ItemAttribute {
    /// Decodes this record from a JSON object, keeping unknown keys.
    #[verifier::rlimit(100)]
    pub fn from_json(v: &JsonValue) -> (r: Result<ItemAttribute, DecodeError>)
        ensures
            view_result(r) == spec_decode_item_attribute(v.deep_view()),
    {
        let entries = match v {
            JsonValue::Object(es) => es,
            _ => {
                return Err(DecodeError::WrongShape);
            },
        };
        proof {
            assert(json_view(*v)->Object_0 =~= entries.deep_view());
        }
        let place_of_publication = match field_string_or_array(entries, "place_of_publication") {
            Ok(x) => x,
            Err(e) => {
                return Err(e);
            },
        };
        let source_collection = match field_texts(entries, "source_collection") {
            Ok(x) => x,
            Err(e) => {
                return Err(e);
            },
        };
        let display_offsite = match field_bool_or_string(entries, "display_offsite") {
            Ok(x) => x,
            Err(e) => {
                return Err(e);
            },
        };
        let contributors = match field_texts(entries, "contributors") {
            Ok(x) => x,
            Err(e) => {
                return Err(e);
            },
        };
        let location_county = match field_texts(entries, "location_county") {
            Ok(x) => x,
            Err(e) => {
                return Err(e);
            },
        };
        let access_restricted = match field_bool_or_string(entries, "access_restricted") {
            Ok(x) => x,
            Err(e) => {
                return Err(e);
            },
        };
        let site = match field_texts(entries, "site") {
            Ok(x) => x,
            Err(e) => {
                return Err(e);
            },
        };
        let original_format = match field_texts(entries, "original_format") {
            Ok(x) => x,
            Err(e) => {
                return Err(e);
            },
        };
        let partof_title = match field_texts(entries, "partof_title") {
            Ok(x) => x,
            Err(e) => {
                return Err(e);
            },
        };
        let date = match field_string_or_array(entries, "date") {
            Ok(x) => x,
            Err(e) => {
                return Err(e);
            },
        };
        let item_type = match field_string_or_array(entries, "item_type") {
            Ok(x) => x,
            Err(e) => {
                return Err(e);
            },
        };
        let url = match field_string_or_array(entries, "url") {
            Ok(x) => x,
            Err(e) => {
                return Err(e);
            },
        };
        let subject_headings = match field_texts(entries, "subject_headings") {
            Ok(x) => x,
            Err(e) => {
                return Err(e);
            },
        };
        let newspaper_title = match field_texts(entries, "newspaper_title") {
            Ok(x) => x,
            Err(e) => {
                return Err(e);
            },
        };
        let created_published = match field_texts(entries, "created_published") {
            Ok(x) => x,
            Err(e) => {
                return Err(e);
            },
        };
        let extract_urls = match field_texts(entries, "extract_urls") {
            Ok(x) => x,
            Err(e) => {
                return Err(e);
            },
        };
        let partof_division = match field_texts(entries, "partof_division") {
            Ok(x) => x,
            Err(e) => {
                return Err(e);
            },
        };
        let contents = match field_texts(entries, "contents") {
            Ok(x) => x,
            Err(e) => {
                return Err(e);
            },
        };
        let subject = match field_texts(entries, "subject") {
            Ok(x) => x,
            Err(e) => {
                return Err(e);
            },
        };
        let index = match field_number_or_string(entries, "index") {
            Ok(x) => x,
            Err(e) => {
                return Err(e);
            },
        };
        let digital_id = match field_texts(entries, "digital_id") {
            Ok(x) => x,
            Err(e) => {
                return Err(e);
            },
        };
        let call_number = match field_texts(entries, "call_number") {
            Ok(x) => x,
            Err(e) => {
                return Err(e);
            },
        };
        let group = match field_texts(entries, "group") {
            Ok(x) => x,
            Err(e) => {
                return Err(e);
            },
        };
        let score = match field_number_or_string(entries, "score") {
            Ok(x) => x,
            Err(e) => {
                return Err(e);
            },
        };
        let location_country = match field_texts(entries, "location_country") {
            Ok(x) => x,
            Err(e) => {
                return Err(e);
            },
        };
        let title = match field_string_or_array(entries, "title") {
            Ok(x) => x,
            Err(e) => {
                return Err(e);
            },
        };
        let description = match field_string_or_array(entries, "description") {
            Ok(x) => x,
            Err(e) => {
                return Err(e);
            },
        };
        let related_items = match field_texts(entries, "related_items") {
            Ok(x) => x,
            Err(e) => {
                return Err(e);
            },
        };
        let id = match field_string_or_array(entries, "id") {
            Ok(x) => x,
            Err(e) => {
                return Err(e);
            },
        };
        let online_format = match field_texts(entries, "online_format") {
            Ok(x) => x,
            Err(e) => {
                return Err(e);
            },
        };
        let subjects = match field_texts(entries, "subjects") {
            Ok(x) => x,
            Err(e) => {
                return Err(e);
            },
        };
        let language = match field_texts(entries, "language") {
            Ok(x) => x,
            Err(e) => {
                return Err(e);
            },
        };
        let rights = match field_texts(entries, "rights") {
            Ok(x) => x,
            Err(e) => {
                return Err(e);
            },
        };
        let locations = match field_texts(entries, "locations") {
            Ok(x) => x,
            Err(e) => {
                return Err(e);
            },
        };
        let notes = match field_texts(entries, "notes") {
            Ok(x) => x,
            Err(e) => {
                return Err(e);
            },
        };
        let shelf_id = match field_string_or_array(entries, "shelf_id") {
            Ok(x) => x,
            Err(e) => {
                return Err(e);
            },
        };
        let batch = match field_texts(entries, "batch") {
            Ok(x) => x,
            Err(e) => {
                return Err(e);
            },
        };
        let summary = match field_string_or_array(entries, "summary") {
            Ok(x) => x,
            Err(e) => {
                return Err(e);
            },
        };
        let digitized = match field_bool_or_string(entries, "digitized") {
            Ok(x) => x,
            Err(e) => {
                return Err(e);
            },
        };
        let publication_frequency = match field_texts(entries, "publication_frequency") {
            Ok(x) => x,
            Err(e) => {
                return Err(e);
            },
        };
        let resources = match field_texts(entries, "resources") {
            Ok(x) => x,
            Err(e) => {
                return Err(e);
            },
        };
        let aka = match field_texts(entries, "aka") {
            Ok(x) => x,
            Err(e) => {
                return Err(e);
            },
        };
        let contributor_names = match field_texts(entries, "contributor_names") {
            Ok(x) => x,
            Err(e) => {
                return Err(e);
            },
        };
        let image_url = match field_texts(entries, "image_url") {
            Ok(x) => x,
            Err(e) => {
                return Err(e);
            },
        };
        let access_advisory = match field_texts(entries, "access_advisory") {
            Ok(x) => x,
            Err(e) => {
                return Err(e);
            },
        };
        let additional = item_attribute_unknown_entries(entries);
        Ok(
            ItemAttribute {
                place_of_publication,
                source_collection,
                display_offsite,
                contributors,
                location_county,
                access_restricted,
                site,
                original_format,
                partof_title,
                date,
                item_type,
                url,
                subject_headings,
                newspaper_title,
                created_published,
                extract_urls,
                partof_division,
                contents,
                subject,
                index,
                digital_id,
                call_number,
                group,
                score,
                location_country,
                title,
                description,
                related_items,
                id,
                online_format,
                subjects,
                language,
                rights,
                locations,
                notes,
                shelf_id,
                batch,
                summary,
                digitized,
                publication_frequency,
                resources,
                aka,
                contributor_names,
                image_url,
                access_advisory,
                additional,
            },
        )
    }
}

impl Default for ItemAttribute {
    /// A record with every field absent and an empty bag.
    fn default() -> (r: Self)
        ensures
            r.place_of_publication is None,
            r.source_collection is None,
            r.display_offsite is None,
            r.contributors is None,
            r.location_county is None,
            r.access_restricted is None,
            r.site is None,
            r.original_format is None,
            r.partof_title is None,
            r.date is None,
            r.item_type is None,
            r.url is None,
            r.subject_headings is None,
            r.newspaper_title is None,
            r.created_published is None,
            r.extract_urls is None,
            r.partof_division is None,
            r.contents is None,
            r.subject is None,
            r.index is None,
            r.digital_id is None,
            r.call_number is None,
            r.group is None,
            r.score is None,
            r.location_country is None,
            r.title is None,
            r.description is None,
            r.related_items is None,
            r.id is None,
            r.online_format is None,
            r.subjects is None,
            r.language is None,
            r.rights is None,
            r.locations is None,
            r.notes is None,
            r.shelf_id is None,
            r.batch is None,
            r.summary is None,
            r.digitized is None,
            r.publication_frequency is None,
            r.resources is None,
            r.aka is None,
            r.contributor_names is None,
            r.image_url is None,
            r.access_advisory is None,
            r.additional@.len() == 0,
    {
        ItemAttribute {
            place_of_publication: None,
            source_collection: None,
            display_offsite: None,
            contributors: None,
            location_county: None,
            access_restricted: None,
            site: None,
            original_format: None,
            partof_title: None,
            date: None,
            item_type: None,
            url: None,
            subject_headings: None,
            newspaper_title: None,
            created_published: None,
            extract_urls: None,
            partof_division: None,
            contents: None,
            subject: None,
            index: None,
            digital_id: None,
            call_number: None,
            group: None,
            score: None,
            location_country: None,
            title: None,
            description: None,
            related_items: None,
            id: None,
            online_format: None,
            subjects: None,
            language: None,
            rights: None,
            locations: None,
            notes: None,
            shelf_id: None,
            batch: None,
            summary: None,
            digitized: None,
            publication_frequency: None,
            resources: None,
            aka: None,
            contributor_names: None,
            image_url: None,
            access_advisory: None,
            additional: Vec::new(),
        }
    }
}

fn item_or_array_item_attributes_from_json(v: &JsonValue) -> (r: Result<
    ItemOrArray<ItemAttribute>,
    DecodeError,
>)
    ensures
        view_result(r) == spec_decode_item_or_array(
            |x: JsonView| spec_decode_item_attribute(x),
            v.deep_view(),
        ),
{
    let ghost elem = |x: JsonView| spec_decode_item_attribute(x);
    match v {
        JsonValue::List(items) => {
            let ghost jitems = json_view(*v)->List_0;
            proof {
                assert(json_view(*v) == JsonView::List(jitems));
            }
            let mut out: Vec<ItemAttribute> = Vec::new();
            let mut i: usize = 0;
            while i < items.len()
                invariant
                    elem == (|x: JsonView| spec_decode_item_attribute(x)),
                    json_view(*v) == JsonView::List(jitems),
                    jitems == json_view(JsonValue::List(*items))->List_0,
                    jitems.len() == items@.len(),
                    i <= items@.len(),
                    forall|j: int| 0 <= j < i ==> (#[trigger] elem(jitems[j])) is Ok,
                    out@.len() == i,
                    forall|j: int| 0 <= j < i ==> out@[j].deep_view() == elem(jitems[j])->Ok_0,
                decreases items@.len() - i,
            {
                proof {
                    assert(jitems[i as int] == json_view(items@[i as int]));
                    assert(elem(jitems[i as int]) == spec_decode_item_attribute(jitems[i as int]));
                }
                match ItemAttribute::from_json(&items[i]) {
                    Ok(x) => {
                        out.push(x);
                    },
                    Err(e) => {
                        proof {
                            assert(!(forall|j: int|
                                0 <= j < jitems.len() ==> (#[trigger] elem(jitems[j])) is Ok))
                                by {
                                assert(0 <= i < jitems.len() && !(elem(jitems[i as int]) is Ok));
                            }
                        }
                        return Err(e);
                    },
                }
                i += 1;
            }
            proof {
                assert(out.deep_view() =~= Seq::new(jitems.len(), |j: int| elem(jitems[j])->Ok_0));
            }
            Ok(ItemOrArray::Array(out))
        },
        _ => {
            proof {
                assert(elem(v.deep_view()) == spec_decode_item_attribute(v.deep_view()));
            }
            match ItemAttribute::from_json(v) {
                Ok(x) => Ok(ItemOrArray::Item(x)),
                Err(e) => Err(e),
            }
        },
    }
}

fn field_item_attributes(entries: &Vec<(String, JsonValue)>, key: &str) -> (r: Result<
    Option<ItemOrArray<ItemAttribute>>,
    DecodeError,
>)
    ensures
        view_result(r) == spec_decode_field(
            |x: JsonView| spec_decode_item_or_array(
                |y: JsonView| spec_decode_item_attribute(y),
                x,
            ),
            entries.deep_view(),
            key@,
        ),
{
    let ghost elem = |x: JsonView| spec_decode_item_or_array(
        |y: JsonView| spec_decode_item_attribute(y),
        x,
    );
    match lookup(entries, key) {
        None => Ok(None),
        Some(val) => match val {
            JsonValue::Null => Ok(None),
            _ => {
                proof {
                    assert(elem(val.deep_view()) == spec_decode_item_or_array(
                        |y: JsonView| spec_decode_item_attribute(y),
                        val.deep_view(),
                    ));
                }
                match item_or_array_item_attributes_from_json(val) {
                    Ok(x) => Ok(Some(x)),
                    Err(e) => Err(e),
                }
            },
        },
    }
}

fn item_or_array_nos_items_from_json(v: &JsonValue) -> (r: Result<
    ItemOrArray<NumberOrString>,
    DecodeError,
>)
    ensures
        view_result(r) == spec_decode_item_or_array(
            |x: JsonView| spec_decode_number_or_string(x),
            v.deep_view(),
        ),
{
    let ghost elem = |x: JsonView| spec_decode_number_or_string(x);
    match v {
        JsonValue::List(items) => {
            let ghost jitems = json_view(*v)->List_0;
            proof {
                assert(json_view(*v) == JsonView::List(jitems));
            }
            let mut out: Vec<NumberOrString> = Vec::new();
            let mut i: usize = 0;
            while i < items.len()
                invariant
                    elem == (|x: JsonView| spec_decode_number_or_string(x)),
                    json_view(*v) == JsonView::List(jitems),
                    jitems == json_view(JsonValue::List(*items))->List_0,
                    jitems.len() == items@.len(),
                    i <= items@.len(),
                    forall|j: int| 0 <= j < i ==> (#[trigger] elem(jitems[j])) is Ok,
                    out@.len() == i,
                    forall|j: int| 0 <= j < i ==> out@[j].deep_view() == elem(jitems[j])->Ok_0,
                decreases items@.len() - i,
            {
                proof {
                    assert(jitems[i as int] == json_view(items@[i as int]));
                    assert(elem(jitems[i as int]) == spec_decode_number_or_string(jitems[i as int]));
                }
                match NumberOrString::from_json(&items[i]) {
                    Ok(x) => {
                        out.push(x);
                    },
                    Err(e) => {
                        proof {
                            assert(!(forall|j: int|
                                0 <= j < jitems.len() ==> (#[trigger] elem(jitems[j])) is Ok))
                                by {
                                assert(0 <= i < jitems.len() && !(elem(jitems[i as int]) is Ok));
                            }
                        }
                        return Err(e);
                    },
                }
                i += 1;
            }
            proof {
                assert(out.deep_view() =~= Seq::new(jitems.len(), |j: int| elem(jitems[j])->Ok_0));
            }
            Ok(ItemOrArray::Array(out))
        },
        _ => {
            proof {
                assert(elem(v.deep_view()) == spec_decode_number_or_string(v.deep_view()));
            }
            match NumberOrString::from_json(v) {
                Ok(x) => Ok(ItemOrArray::Item(x)),
                Err(e) => Err(e),
            }
        },
    }
}

fn field_nos_items(entries: &Vec<(String, JsonValue)>, key: &str) -> (r: Result<
    Option<ItemOrArray<NumberOrString>>,
    DecodeError,
>)
    ensures
        view_result(r) == spec_decode_field(
            |x: JsonView| spec_decode_item_or_array(
                |y: JsonView| spec_decode_number_or_string(y),
                x,
            ),
            entries.deep_view(),
            key@,
        ),
{
    let ghost elem = |x: JsonView| spec_decode_item_or_array(
        |y: JsonView| spec_decode_number_or_string(y),
        x,
    );
    match lookup(entries, key) {
        None => Ok(None),
        Some(val) => match val {
            JsonValue::Null => Ok(None),
            _ => {
                proof {
                    assert(elem(val.deep_view()) == spec_decode_item_or_array(
                        |y: JsonView| spec_decode_number_or_string(y),
                        val.deep_view(),
                    ));
                }
                match item_or_array_nos_items_from_json(val) {
                    Ok(x) => Ok(Some(x)),
                    Err(e) => Err(e),
                }
            },
        },
    }
}

/// Whether a key is one of the known keys of a [`ResourceObject`].
pub open spec fn spec_resource_object_known(k: Seq<char>) -> bool {
    k == "files"@
        || k == "caption"@
        || k == "url"@
        || k == "image"@
        || k == "type_field"@
        || k == "height"@
        || k == "width"@
        || k == "duration"@
        || k == "mimetype"@
        || k == "size"@
        || k == "id"@
        || k == "title"@
}

fn is_resource_object_key(k: &str) -> (r: bool)
    ensures
        r == spec_resource_object_known(k@),
{
    str_eq(k, "files")
        || str_eq(k, "caption")
        || str_eq(k, "url")
        || str_eq(k, "image")
        || str_eq(k, "type_field")
        || str_eq(k, "height")
        || str_eq(k, "width")
        || str_eq(k, "duration")
        || str_eq(k, "mimetype")
        || str_eq(k, "size")
        || str_eq(k, "id")
        || str_eq(k, "title")
}

fn resource_object_unknown_entries(entries: &Vec<(String, JsonValue)>) -> (r: Vec<(String, JsonValue)>)
    ensures
        r.deep_view() == spec_unknown_entries(
            entries.deep_view(),
            |k: Seq<char>| spec_resource_object_known(k),
        ),
{
    let ghost known = |k: Seq<char>| spec_resource_object_known(k);
    let ghost dv = entries.deep_view();
    let mut out: Vec<(String, JsonValue)> = Vec::new();
    proof {
        assert(out.deep_view() =~= spec_unknown_entries(dv.take(0), known));
    }
    let mut i: usize = 0;
    while i < entries.len()
        invariant
            known == (|k: Seq<char>| spec_resource_object_known(k)),
            dv == entries.deep_view(),
            dv.len() == entries@.len(),
            i <= entries@.len(),
            out.deep_view() == spec_unknown_entries(dv.take(i as int), known),
        decreases entries@.len() - i,
    {
        proof {
            assert(dv[i as int] == (entries@[i as int].0@, json_view(entries@[i as int].1)));
            assert(dv.take(i as int + 1).drop_last() =~= dv.take(i as int));
            assert(dv.take(i as int + 1).last() == dv[i as int]);
            assert(known(entries@[i as int].0@) == spec_resource_object_known(entries@[i as int].0@));
        }
        if !is_resource_object_key(entries[i].0.as_str()) {
            let key = entries[i].0.clone();
            let val = entries[i].1.duplicate();
            out.push((key, val));
            proof {
                assert(out.deep_view() =~= spec_unknown_entries(dv.take(i as int + 1), known));
            }
        } else {
            proof {
                assert(out.deep_view() =~= spec_unknown_entries(dv.take(i as int + 1), known));
            }
        }
        i += 1;
    }
    proof {
        assert(dv.take(entries@.len() as int) =~= dv);
    }
    out
}

/// One resource object inside an item or resource response.
///
/// Every known field is independently optional; every other top-level
/// key is kept verbatim in `additional`.
#[derive(Debug)]
pub struct ResourceObject {
    /// Files associated with the resource, grouped as the server sent them.
    pub files: Option<ItemOrArray<ItemOrArray<File>>>,
    /// Captions of the resource.
    pub caption: Option<ItemOrArray<String>>,
    /// URLs of the resource.
    pub url: Option<ItemOrArray<String>>,
    /// Image URLs of the resource.
    pub image: Option<ItemOrArray<String>>,
    /// The type of the resource.
    pub type_field: Option<StringOrArray>,
    /// Heights of the resource in pixels.
    pub height: Option<ItemOrArray<NumberOrString>>,
    /// Widths of the resource in pixels.
    pub width: Option<ItemOrArray<NumberOrString>>,
    /// Durations of the resource in seconds.
    pub duration: Option<ItemOrArray<NumberOrString>>,
    /// MIME types of the resource.
    pub mimetype: Option<ItemOrArray<String>>,
    /// Sizes of the resource in bytes.
    pub size: Option<ItemOrArray<NumberOrString>>,
    /// Identifiers of the resource.
    pub id: Option<ItemOrArray<String>>,
    /// Titles of the resource.
    pub title: Option<ItemOrArray<String>>,
    /// Any other entries of the object, kept verbatim.
    pub additional: Vec<(String, JsonValue)>,
}

/// The shape of a [`ResourceObject`].
pub struct ResourceObjectView {
    /// Files associated with the resource, grouped as the server sent them.
    pub files: Option<ItemOrArrayView<ItemOrArrayView<FileView>>>,
    /// Captions of the resource.
    pub caption: Option<ItemOrArrayView<Seq<char>>>,
    /// URLs of the resource.
    pub url: Option<ItemOrArrayView<Seq<char>>>,
    /// Image URLs of the resource.
    pub image: Option<ItemOrArrayView<Seq<char>>>,
    /// The type of the resource.
    pub type_field: Option<StringOrArrayView>,
    /// Heights of the resource in pixels.
    pub height: Option<ItemOrArrayView<NumberOrStringView>>,
    /// Widths of the resource in pixels.
    pub width: Option<ItemOrArrayView<NumberOrStringView>>,
    /// Durations of the resource in seconds.
    pub duration: Option<ItemOrArrayView<NumberOrStringView>>,
    /// MIME types of the resource.
    pub mimetype: Option<ItemOrArrayView<Seq<char>>>,
    /// Sizes of the resource in bytes.
    pub size: Option<ItemOrArrayView<NumberOrStringView>>,
    /// Identifiers of the resource.
    pub id: Option<ItemOrArrayView<Seq<char>>>,
    /// Titles of the resource.
    pub title: Option<ItemOrArrayView<Seq<char>>>,
    /// Any other entries of the object, kept verbatim.
    pub additional: Seq<(Seq<char>, JsonView)>,
}

impl DeepView for ResourceObject {
    type V = ResourceObjectView;

    open spec fn deep_view(&self) -> ResourceObjectView {
        ResourceObjectView {
            files: self.files.deep_view(),
            caption: self.caption.deep_view(),
            url: self.url.deep_view(),
            image: self.image.deep_view(),
            type_field: self.type_field.deep_view(),
            height: self.height.deep_view(),
            width: self.width.deep_view(),
            duration: self.duration.deep_view(),
            mimetype: self.mimetype.deep_view(),
            size: self.size.deep_view(),
            id: self.id.deep_view(),
            title: self.title.deep_view(),
            additional: self.additional.deep_view(),
        }
    }
}

/// How a [`ResourceObject`] decodes from an object's entries.
pub open spec fn spec_decode_resource_object(v: JsonView) -> Result<ResourceObjectView, DecodeError> {
    match v {
        JsonView::Object(es) => {
            let files = spec_decode_field(
                |x: JsonView| spec_decode_file_groups(x),
                es,
                "files"@,
            );
            let caption = spec_decode_field(
                |x: JsonView| spec_decode_item_or_array(|y: JsonView| spec_decode_text(y), x),
                es,
                "caption"@,
            );
            let url = spec_decode_field(
                |x: JsonView| spec_decode_item_or_array(|y: JsonView| spec_decode_text(y), x),
                es,
                "url"@,
            );
            let image = spec_decode_field(
                |x: JsonView| spec_decode_item_or_array(|y: JsonView| spec_decode_text(y), x),
                es,
                "image"@,
            );
            let type_field = spec_decode_field(
                |x: JsonView| spec_decode_string_or_array(x),
                es,
                "type_field"@,
            );
            let height = spec_decode_field(
                |x: JsonView| spec_decode_item_or_array(|y: JsonView| spec_decode_number_or_string(y), x),
                es,
                "height"@,
            );
            let width = spec_decode_field(
                |x: JsonView| spec_decode_item_or_array(|y: JsonView| spec_decode_number_or_string(y), x),
                es,
                "width"@,
            );
            let duration = spec_decode_field(
                |x: JsonView| spec_decode_item_or_array(|y: JsonView| spec_decode_number_or_string(y), x),
                es,
                "duration"@,
            );
            let mimetype = spec_decode_field(
                |x: JsonView| spec_decode_item_or_array(|y: JsonView| spec_decode_text(y), x),
                es,
                "mimetype"@,
            );
            let size = spec_decode_field(
                |x: JsonView| spec_decode_item_or_array(|y: JsonView| spec_decode_number_or_string(y), x),
                es,
                "size"@,
            );
            let id = spec_decode_field(
                |x: JsonView| spec_decode_item_or_array(|y: JsonView| spec_decode_text(y), x),
                es,
                "id"@,
            );
            let title = spec_decode_field(
                |x: JsonView| spec_decode_item_or_array(|y: JsonView| spec_decode_text(y), x),
                es,
                "title"@,
            );
            if files is Ok && caption is Ok && url is Ok && image is Ok && type_field is Ok && height is Ok && width is Ok && duration is Ok && mimetype is Ok && size is Ok && id is Ok && title is Ok {
                Ok(
                    ResourceObjectView {
                        files: files->Ok_0,
                        caption: caption->Ok_0,
                        url: url->Ok_0,
                        image: image->Ok_0,
                        type_field: type_field->Ok_0,
                        height: height->Ok_0,
                        width: width->Ok_0,
                        duration: duration->Ok_0,
                        mimetype: mimetype->Ok_0,
                        size: size->Ok_0,
                        id: id->Ok_0,
                        title: title->Ok_0,
                        additional: spec_unknown_entries(es, |k: Seq<char>| spec_resource_object_known(k)),
                    },
                )
            } else {
                Err(DecodeError::WrongShape)
            }
        },
        _ => Err(DecodeError::WrongShape),
    }
}

impl ResourceObject {
    /// Decodes this record from a JSON object, keeping unknown keys.
    #[verifier::rlimit(60)]
    pub fn from_json(v: &JsonValue) -> (r: Result<ResourceObject, DecodeError>)
        ensures
            view_result(r) == spec_decode_resource_object(v.deep_view()),
    {
        let entries = match v {
            JsonValue::Object(es) => es,
            _ => {
                return Err(DecodeError::WrongShape);
            },
        };
        proof {
            assert(json_view(*v)->Object_0 =~= entries.deep_view());
        }
        let files = match field_file_groups(entries, "files") {
            Ok(x) => x,
            Err(e) => {
                return Err(e);
            },
        };
        let caption = match field_texts(entries, "caption") {
            Ok(x) => x,
            Err(e) => {
                return Err(e);
            },
        };
        let url = match field_texts(entries, "url") {
            Ok(x) => x,
            Err(e) => {
                return Err(e);
            },
        };
        let image = match field_texts(entries, "image") {
            Ok(x) => x,
            Err(e) => {
                return Err(e);
            },
        };
        let type_field = match field_string_or_array(entries, "type_field") {
            Ok(x) => x,
            Err(e) => {
                return Err(e);
            },
        };
        let height = match field_nos_items(entries, "height") {
            Ok(x) => x,
            Err(e) => {
                return Err(e);
            },
        };
        let width = match field_nos_items(entries, "width") {
            Ok(x) => x,
            Err(e) => {
                return Err(e);
            },
        };
        let duration = match field_nos_items(entries, "duration") {
            Ok(x) => x,
            Err(e) => {
                return Err(e);
            },
        };
        let mimetype = match field_texts(entries, "mimetype") {
            Ok(x) => x,
            Err(e) => {
                return Err(e);
            },
        };
        let size = match field_nos_items(entries, "size") {
            Ok(x) => x,
            Err(e) => {
                return Err(e);
            },
        };
        let id = match field_texts(entries, "id") {
            Ok(x) => x,
            Err(e) => {
                return Err(e);
            },
        };
        let title = match field_texts(entries, "title") {
            Ok(x) => x,
            Err(e) => {
                return Err(e);
            },
        };
        let additional = resource_object_unknown_entries(entries);
        Ok(
            ResourceObject {
                files,
                caption,
                url,
                image,
                type_field,
                height,
                width,
                duration,
                mimetype,
                size,
                id,
                title,
                additional,
            },
        )
    }
}

impl Default for ResourceObject {
    /// A record with every field absent and an empty bag.
    fn default() -> (r: Self)
        ensures
            r.files is None,
            r.caption is None,
            r.url is None,
            r.image is None,
            r.type_field is None,
            r.height is None,
            r.width is None,
            r.duration is None,
            r.mimetype is None,
            r.size is None,
            r.id is None,
            r.title is None,
            r.additional@.len() == 0,
    {
        ResourceObject {
            files: None,
            caption: None,
            url: None,
            image: None,
            type_field: None,
            height: None,
            width: None,
            duration: None,
            mimetype: None,
            size: None,
            id: None,
            title: None,
            additional: Vec::new(),
        }
    }
}

fn item_or_array_resource_objects_from_json(v: &JsonValue) -> (r: Result<
    ItemOrArray<ResourceObject>,
    DecodeError,
>)
    ensures
        view_result(r) == spec_decode_item_or_array(
            |x: JsonView| spec_decode_resource_object(x),
            v.deep_view(),
        ),
{
    let ghost elem = |x: JsonView| spec_decode_resource_object(x);
    match v {
        JsonValue::List(items) => {
            let ghost jitems = json_view(*v)->List_0;
            proof {
                assert(json_view(*v) == JsonView::List(jitems));
            }
            let mut out: Vec<ResourceObject> = Vec::new();
            let mut i: usize = 0;
            while i < items.len()
                invariant
                    elem == (|x: JsonView| spec_decode_resource_object(x)),
                    json_view(*v) == JsonView::List(jitems),
                    jitems == json_view(JsonValue::List(*items))->List_0,
                    jitems.len() == items@.len(),
                    i <= items@.len(),
                    forall|j: int| 0 <= j < i ==> (#[trigger] elem(jitems[j])) is Ok,
                    out@.len() == i,
                    forall|j: int| 0 <= j < i ==> out@[j].deep_view() == elem(jitems[j])->Ok_0,
                decreases items@.len() - i,
            {
                proof {
                    assert(jitems[i as int] == json_view(items@[i as int]));
                    assert(elem(jitems[i as int]) == spec_decode_resource_object(jitems[i as int]));
                }
                match ResourceObject::from_json(&items[i]) {
                    Ok(x) => {
                        out.push(x);
                    },
                    Err(e) => {
                        proof {
                            assert(!(forall|j: int|
                                0 <= j < jitems.len() ==> (#[trigger] elem(jitems[j])) is Ok))
                                by {
                                assert(0 <= i < jitems.len() && !(elem(jitems[i as int]) is Ok));
                            }
                        }
                        return Err(e);
                    },
                }
                i += 1;
            }
            proof {
                assert(out.deep_view() =~= Seq::new(jitems.len(), |j: int| elem(jitems[j])->Ok_0));
            }
            Ok(ItemOrArray::Array(out))
        },
        _ => {
            proof {
                assert(elem(v.deep_view()) == spec_decode_resource_object(v.deep_view()));
            }
            match ResourceObject::from_json(v) {
                Ok(x) => Ok(ItemOrArray::Item(x)),
                Err(e) => Err(e),
            }
        },
    }
}

fn field_resource_objects(entries: &Vec<(String, JsonValue)>, key: &str) -> (r: Result<
    Option<ItemOrArray<ResourceObject>>,
    DecodeError,
>)
    ensures
        view_result(r) == spec_decode_field(
            |x: JsonView| spec_decode_item_or_array(
                |y: JsonView| spec_decode_resource_object(y),
                x,
            ),
            entries.deep_view(),
            key@,
        ),
{
    let ghost elem = |x: JsonView| spec_decode_item_or_array(
        |y: JsonView| spec_decode_resource_object(y),
        x,
    );
    match lookup(entries, key) {
        None => Ok(None),
        Some(val) => match val {
            JsonValue::Null => Ok(None),
            _ => {
                proof {
                    assert(elem(val.deep_view()) == spec_decode_item_or_array(
                        |y: JsonView| spec_decode_resource_object(y),
                        val.deep_view(),
                    ));
                }
                match item_or_array_resource_objects_from_json(val) {
                    Ok(x) => Ok(Some(x)),
                    Err(e) => Err(e),
                }
            },
        },
    }
}

/// Whether a key is one of the known keys of a [`ResourceDetail`].
pub open spec fn spec_resource_detail_known(k: Seq<char>) -> bool {
    k == "caption"@
        || k == "files"@
        || k == "audio"@
        || k == "background"@
        || k == "begin"@
        || k == "capture_range"@
        || k == "djvu_text_file"@
        || k == "download_restricted"@
        || k == "duration"@
        || k == "end"@
        || k == "fulltext_derivative"@
        || k == "fulltext_file"@
        || k == "height"@
        || k == "id"@
        || k == "info"@
        || k == "image"@
        || k == "paprika_resource_path"@
        || k == "pdf"@
        || k == "representative_index"@
        || k == "type_field"@
        || k == "url"@
        || k == "uuid"@
        || k == "version"@
        || k == "video_stream"@
        || k == "video"@
        || k == "width"@
        || k == "word_coordinates"@
}

fn is_resource_detail_key(k: &str) -> (r: bool)
    ensures
        r == spec_resource_detail_known(k@),
{
    str_eq(k, "caption")
        || str_eq(k, "files")
        || str_eq(k, "audio")
        || str_eq(k, "background")
        || str_eq(k, "begin")
        || str_eq(k, "capture_range")
        || str_eq(k, "djvu_text_file")
        || str_eq(k, "download_restricted")
        || str_eq(k, "duration")
        || str_eq(k, "end")
        || str_eq(k, "fulltext_derivative")
        || str_eq(k, "fulltext_file")
        || str_eq(k, "height")
        || str_eq(k, "id")
        || str_eq(k, "info")
        || str_eq(k, "image")
        || str_eq(k, "paprika_resource_path")
        || str_eq(k, "pdf")
        || str_eq(k, "representative_index")
        || str_eq(k, "type_field")
        || str_eq(k, "url")
        || str_eq(k, "uuid")
        || str_eq(k, "version")
        || str_eq(k, "video_stream")
        || str_eq(k, "video")
        || str_eq(k, "width")
        || str_eq(k, "word_coordinates")
}

fn resource_detail_unknown_entries(entries: &Vec<(String, JsonValue)>) -> (r: Vec<(String, JsonValue)>)
    ensures
        r.deep_view() == spec_unknown_entries(
            entries.deep_view(),
            |k: Seq<char>| spec_resource_detail_known(k),
        ),
{
    let ghost known = |k: Seq<char>| spec_resource_detail_known(k);
    let ghost dv = entries.deep_view();
    let mut out: Vec<(String, JsonValue)> = Vec::new();
    proof {
        assert(out.deep_view() =~= spec_unknown_entries(dv.take(0), known));
    }
    let mut i: usize = 0;
    while i < entries.len()
        invariant
            known == (|k: Seq<char>| spec_resource_detail_known(k)),
            dv == entries.deep_view(),
            dv.len() == entries@.len(),
            i <= entries@.len(),
            out.deep_view() == spec_unknown_entries(dv.take(i as int), known),
        decreases entries@.len() - i,
    {
        proof {
            assert(dv[i as int] == (entries@[i as int].0@, json_view(entries@[i as int].1)));
            assert(dv.take(i as int + 1).drop_last() =~= dv.take(i as int));
            assert(dv.take(i as int + 1).last() == dv[i as int]);
            assert(known(entries@[i as int].0@) == spec_resource_detail_known(entries@[i as int].0@));
        }
        if !is_resource_detail_key(entries[i].0.as_str()) {
            let key = entries[i].0.clone();
            let val = entries[i].1.duplicate();
            out.push((key, val));
            proof {
                assert(out.deep_view() =~= spec_unknown_entries(dv.take(i as int + 1), known));
            }
        } else {
            proof {
                assert(out.deep_view() =~= spec_unknown_entries(dv.take(i as int + 1), known));
            }
        }
        i += 1;
    }
    proof {
        assert(dv.take(entries@.len() as int) =~= dv);
    }
    out
}

/// The detailed information about one resource.
///
/// Every known field is independently optional; every other top-level
/// key is kept verbatim in `additional`.
#[derive(Debug)]
pub struct ResourceDetail {
    /// The `caption` section.
    pub caption: Option<ItemOrArray<String>>,
    /// The `files` section.
    pub files: Option<ItemOrArray<Vec<File>>>,
    /// The `audio` section.
    pub audio: Option<StringOrArray>,
    /// The `background` section.
    pub background: Option<StringOrArray>,
    /// The `begin` section.
    pub begin: Option<StringOrArray>,
    /// The `capture_range` section.
    pub capture_range: Option<ItemOrArray<String>>,
    /// The `djvu_text_file` section.
    pub djvu_text_file: Option<StringOrArray>,
    /// The `download_restricted` section.
    pub download_restricted: Option<BoolOrString>,
    /// The `duration` section.
    pub duration: Option<NumberOrString>,
    /// The `end` section.
    pub end: Option<StringOrArray>,
    /// The `fulltext_derivative` section.
    pub fulltext_derivative: Option<StringOrArray>,
    /// The `fulltext_file` section.
    pub fulltext_file: Option<StringOrArray>,
    /// The `height` section.
    pub height: Option<NumberOrString>,
    /// The `id` section.
    pub id: Option<StringOrArray>,
    /// The `info` section.
    pub info: Option<StringOrArray>,
    /// The `image` section.
    pub image: Option<StringOrArray>,
    /// The `paprika_resource_path` section.
    pub paprika_resource_path: Option<StringOrArray>,
    /// The `pdf` section.
    pub pdf: Option<StringOrArray>,
    /// The `representative_index` section.
    pub representative_index: Option<NumberOrString>,
    /// The `type_field` section.
    pub type_field: Option<StringOrArray>,
    /// The `url` section.
    pub url: Option<StringOrArray>,
    /// The `uuid` section.
    pub uuid: Option<StringOrArray>,
    /// The `version` section.
    pub version: Option<NumberOrString>,
    /// The `video_stream` section.
    pub video_stream: Option<StringOrArray>,
    /// The `video` section.
    pub video: Option<StringOrArray>,
    /// The `width` section.
    pub width: Option<NumberOrString>,
    /// The `word_coordinates` section.
    pub word_coordinates: Option<StringOrArray>,
    /// Any other entries of the object, kept verbatim.
    pub additional: Vec<(String, JsonValue)>,
}

/// The shape of a [`ResourceDetail`].
pub struct ResourceDetailView {
    /// The `caption` section.
    pub caption: Option<ItemOrArrayView<Seq<char>>>,
    /// The `files` section.
    pub files: Option<ItemOrArrayView<Seq<FileView>>>,
    /// The `audio` section.
    pub audio: Option<StringOrArrayView>,
    /// The `background` section.
    pub background: Option<StringOrArrayView>,
    /// The `begin` section.
    pub begin: Option<StringOrArrayView>,
    /// The `capture_range` section.
    pub capture_range: Option<ItemOrArrayView<Seq<char>>>,
    /// The `djvu_text_file` section.
    pub djvu_text_file: Option<StringOrArrayView>,
    /// The `download_restricted` section.
    pub download_restricted: Option<BoolOrStringView>,
    /// The `duration` section.
    pub duration: Option<NumberOrStringView>,
    /// The `end` section.
    pub end: Option<StringOrArrayView>,
    /// The `fulltext_derivative` section.
    pub fulltext_derivative: Option<StringOrArrayView>,
    /// The `fulltext_file` section.
    pub fulltext_file: Option<StringOrArrayView>,
    /// The `height` section.
    pub height: Option<NumberOrStringView>,
    /// The `id` section.
    pub id: Option<StringOrArrayView>,
    /// The `info` section.
    pub info: Option<StringOrArrayView>,
    /// The `image` section.
    pub image: Option<StringOrArrayView>,
    /// The `paprika_resource_path` section.
    pub paprika_resource_path: Option<StringOrArrayView>,
    /// The `pdf` section.
    pub pdf: Option<StringOrArrayView>,
    /// The `representative_index` section.
    pub representative_index: Option<NumberOrStringView>,
    /// The `type_field` section.
    pub type_field: Option<StringOrArrayView>,
    /// The `url` section.
    pub url: Option<StringOrArrayView>,
    /// The `uuid` section.
    pub uuid: Option<StringOrArrayView>,
    /// The `version` section.
    pub version: Option<NumberOrStringView>,
    /// The `video_stream` section.
    pub video_stream: Option<StringOrArrayView>,
    /// The `video` section.
    pub video: Option<StringOrArrayView>,
    /// The `width` section.
    pub width: Option<NumberOrStringView>,
    /// The `word_coordinates` section.
    pub word_coordinates: Option<StringOrArrayView>,
    /// Any other entries of the object, kept verbatim.
    pub additional: Seq<(Seq<char>, JsonView)>,
}

impl DeepView for ResourceDetail {
    type V = ResourceDetailView;

    open spec fn deep_view(&self) -> ResourceDetailView {
        ResourceDetailView {
            caption: self.caption.deep_view(),
            files: self.files.deep_view(),
            audio: self.audio.deep_view(),
            background: self.background.deep_view(),
            begin: self.begin.deep_view(),
            capture_range: self.capture_range.deep_view(),
            djvu_text_file: self.djvu_text_file.deep_view(),
            download_restricted: self.download_restricted.deep_view(),
            duration: self.duration.deep_view(),
            end: self.end.deep_view(),
            fulltext_derivative: self.fulltext_derivative.deep_view(),
            fulltext_file: self.fulltext_file.deep_view(),
            height: self.height.deep_view(),
            id: self.id.deep_view(),
            info: self.info.deep_view(),
            image: self.image.deep_view(),
            paprika_resource_path: self.paprika_resource_path.deep_view(),
            pdf: self.pdf.deep_view(),
            representative_index: self.representative_index.deep_view(),
            type_field: self.type_field.deep_view(),
            url: self.url.deep_view(),
            uuid: self.uuid.deep_view(),
            version: self.version.deep_view(),
            video_stream: self.video_stream.deep_view(),
            video: self.video.deep_view(),
            width: self.width.deep_view(),
            word_coordinates: self.word_coordinates.deep_view(),
            additional: self.additional.deep_view(),
        }
    }
}

/// How a [`ResourceDetail`] decodes from an object's entries.
pub open spec fn spec_decode_resource_detail(v: JsonView) -> Result<ResourceDetailView, DecodeError> {
    match v {
        JsonView::Object(es) => {
            let caption = spec_decode_field(
                |x: JsonView| spec_decode_item_or_array(|y: JsonView| spec_decode_text(y), x),
                es,
                "caption"@,
            );
            let files = spec_decode_field(
                |x: JsonView| spec_decode_files_groups(x),
                es,
                "files"@,
            );
            let audio = spec_decode_field(
                |x: JsonView| spec_decode_string_or_array(x),
                es,
                "audio"@,
            );
            let background = spec_decode_field(
                |x: JsonView| spec_decode_string_or_array(x),
                es,
                "background"@,
            );
            let begin = spec_decode_field(
                |x: JsonView| spec_decode_string_or_array(x),
                es,
                "begin"@,
            );
            let capture_range = spec_decode_field(
                |x: JsonView| spec_decode_item_or_array(|y: JsonView| spec_decode_text(y), x),
                es,
                "capture_range"@,
            );
            let djvu_text_file = spec_decode_field(
                |x: JsonView| spec_decode_string_or_array(x),
                es,
                "djvu_text_file"@,
            );
            let download_restricted = spec_decode_field(
                |x: JsonView| spec_decode_bool_or_string(x),
                es,
                "download_restricted"@,
            );
            let duration = spec_decode_field(
                |x: JsonView| spec_decode_number_or_string(x),
                es,
                "duration"@,
            );
            let end = spec_decode_field(
                |x: JsonView| spec_decode_string_or_array(x),
                es,
                "end"@,
            );
            let fulltext_derivative = spec_decode_field(
                |x: JsonView| spec_decode_string_or_array(x),
                es,
                "fulltext_derivative"@,
            );
            let fulltext_file = spec_decode_field(
                |x: JsonView| spec_decode_string_or_array(x),
                es,
                "fulltext_file"@,
            );
            let height = spec_decode_field(
                |x: JsonView| spec_decode_number_or_string(x),
                es,
                "height"@,
            );
            let id = spec_decode_field(
                |x: JsonView| spec_decode_string_or_array(x),
                es,
                "id"@,
            );
            let info = spec_decode_field(
                |x: JsonView| spec_decode_string_or_array(x),
                es,
                "info"@,
            );
            let image = spec_decode_field(
                |x: JsonView| spec_decode_string_or_array(x),
                es,
                "image"@,
            );
            let paprika_resource_path = spec_decode_field(
                |x: JsonView| spec_decode_string_or_array(x),
                es,
                "paprika_resource_path"@,
            );
            let pdf = spec_decode_field(
                |x: JsonView| spec_decode_string_or_array(x),
                es,
                "pdf"@,
            );
            let representative_index = spec_decode_field(
                |x: JsonView| spec_decode_number_or_string(x),
                es,
                "representative_index"@,
            );
            let type_field = spec_decode_field(
                |x: JsonView| spec_decode_string_or_array(x),
                es,
                "type_field"@,
            );
            let url = spec_decode_field(
                |x: JsonView| spec_decode_string_or_array(x),
                es,
                "url"@,
            );
            let uuid = spec_decode_field(
                |x: JsonView| spec_decode_string_or_array(x),
                es,
                "uuid"@,
            );
            let version = spec_decode_field(
                |x: JsonView| spec_decode_number_or_string(x),
                es,
                "version"@,
            );
            let video_stream = spec_decode_field(
                |x: JsonView| spec_decode_string_or_array(x),
                es,
                "video_stream"@,
            );
            let video = spec_decode_field(
                |x: JsonView| spec_decode_string_or_array(x),
                es,
                "video"@,
            );
            let width = spec_decode_field(
                |x: JsonView| spec_decode_number_or_string(x),
                es,
                "width"@,
            );
            let word_coordinates = spec_decode_field(
                |x: JsonView| spec_decode_string_or_array(x),
                es,
                "word_coordinates"@,
            );
            if caption is Ok && files is Ok && audio is Ok && background is Ok && begin is Ok && capture_range is Ok && djvu_text_file is Ok && download_restricted is Ok && duration is Ok && end is Ok && fulltext_derivative is Ok && fulltext_file is Ok && height is Ok && id is Ok && info is Ok && image is Ok && paprika_resource_path is Ok && pdf is Ok && representative_index is Ok && type_field is Ok && url is Ok && uuid is Ok && version is Ok && video_stream is Ok && video is Ok && width is Ok && word_coordinates is Ok {
                Ok(
                    ResourceDetailView {
                        caption: caption->Ok_0,
                        files: files->Ok_0,
                        audio: audio->Ok_0,
                        background: background->Ok_0,
                        begin: begin->Ok_0,
                        capture_range: capture_range->Ok_0,
                        djvu_text_file: djvu_text_file->Ok_0,
                        download_restricted: download_restricted->Ok_0,
                        duration: duration->Ok_0,
                        end: end->Ok_0,
                        fulltext_derivative: fulltext_derivative->Ok_0,
                        fulltext_file: fulltext_file->Ok_0,
                        height: height->Ok_0,
                        id: id->Ok_0,
                        info: info->Ok_0,
                        image: image->Ok_0,
                        paprika_resource_path: paprika_resource_path->Ok_0,
                        pdf: pdf->Ok_0,
                        representative_index: representative_index->Ok_0,
                        type_field: type_field->Ok_0,
                        url: url->Ok_0,
                        uuid: uuid->Ok_0,
                        version: version->Ok_0,
                        video_stream: video_stream->Ok_0,
                        video: video->Ok_0,
                        width: width->Ok_0,
                        word_coordinates: word_coordinates->Ok_0,
                        additional: spec_unknown_entries(es, |k: Seq<char>| spec_resource_detail_known(k)),
                    },
                )
            } else {
                Err(DecodeError::WrongShape)
            }
        },
        _ => Err(DecodeError::WrongShape),
    }
}

impl ResourceDetail {
    /// Decodes this record from a JSON object, keeping unknown keys.
    #[verifier::rlimit(100)]
    pub fn from_json(v: &JsonValue) -> (r: Result<ResourceDetail, DecodeError>)
        ensures
            view_result(r) == spec_decode_resource_detail(v.deep_view()),
    {
        let entries = match v {
            JsonValue::Object(es) => es,
            _ => {
                return Err(DecodeError::WrongShape);
            },
        };
        proof {
            assert(json_view(*v)->Object_0 =~= entries.deep_view());
        }
        let caption = match field_texts(entries, "caption") {
            Ok(x) => x,
            Err(e) => {
                return Err(e);
            },
        };
        let files = match field_files_groups(entries, "files") {
            Ok(x) => x,
            Err(e) => {
                return Err(e);
            },
        };
        let audio = match field_string_or_array(entries, "audio") {
            Ok(x) => x,
            Err(e) => {
                return Err(e);
            },
        };
        let background = match field_string_or_array(entries, "background") {
            Ok(x) => x,
            Err(e) => {
                return Err(e);
            },
        };
        let begin = match field_string_or_array(entries, "begin") {
            Ok(x) => x,
            Err(e) => {
                return Err(e);
            },
        };
        let capture_range = match field_texts(entries, "capture_range") {
            Ok(x) => x,
            Err(e) => {
                return Err(e);
            },
        };
        let djvu_text_file = match field_string_or_array(entries, "djvu_text_file") {
            Ok(x) => x,
            Err(e) => {
                return Err(e);
            },
        };
        let download_restricted = match field_bool_or_string(entries, "download_restricted") {
            Ok(x) => x,
            Err(e) => {
                return Err(e);
            },
        };
        let duration = match field_number_or_string(entries, "duration") {
            Ok(x) => x,
            Err(e) => {
                return Err(e);
            },
        };
        let end = match field_string_or_array(entries, "end") {
            Ok(x) => x,
            Err(e) => {
                return Err(e);
            },
        };
        let fulltext_derivative = match field_string_or_array(entries, "fulltext_derivative") {
            Ok(x) => x,
            Err(e) => {
                return Err(e);
            },
        };
        let fulltext_file = match field_string_or_array(entries, "fulltext_file") {
            Ok(x) => x,
            Err(e) => {
                return Err(e);
            },
        };
        let height = match field_number_or_string(entries, "height") {
            Ok(x) => x,
            Err(e) => {
                return Err(e);
            },
        };
        let id = match field_string_or_array(entries, "id") {
            Ok(x) => x,
            Err(e) => {
                return Err(e);
            },
        };
        let info = match field_string_or_array(entries, "info") {
            Ok(x) => x,
            Err(e) => {
                return Err(e);
            },
        };
        let image = match field_string_or_array(entries, "image") {
            Ok(x) => x,
            Err(e) => {
                return Err(e);
            },
        };
        let paprika_resource_path = match field_string_or_array(entries, "paprika_resource_path") {
            Ok(x) => x,
            Err(e) => {
                return Err(e);
            },
        };
        let pdf = match field_string_or_array(entries, "pdf") {
            Ok(x) => x,
            Err(e) => {
                return Err(e);
            },
        };
        let representative_index = match field_number_or_string(entries, "representative_index") {
            Ok(x) => x,
            Err(e) => {
                return Err(e);
            },
        };
        let type_field = match field_string_or_array(entries, "type_field") {
            Ok(x) => x,
            Err(e) => {
                return Err(e);
            },
        };
        let url = match field_string_or_array(entries, "url") {
            Ok(x) => x,
            Err(e) => {
                return Err(e);
            },
        };
        let uuid = match field_string_or_array(entries, "uuid") {
            Ok(x) => x,
            Err(e) => {
                return Err(e);
            },
        };
        let version = match field_number_or_string(entries, "version") {
            Ok(x) => x,
            Err(e) => {
                return Err(e);
            },
        };
        let video_stream = match field_string_or_array(entries, "video_stream") {
            Ok(x) => x,
            Err(e) => {
                return Err(e);
            },
        };
        let video = match field_string_or_array(entries, "video") {
            Ok(x) => x,
            Err(e) => {
                return Err(e);
            },
        };
        let width = match field_number_or_string(entries, "width") {
            Ok(x) => x,
            Err(e) => {
                return Err(e);
            },
        };
        let word_coordinates = match field_string_or_array(entries, "word_coordinates") {
            Ok(x) => x,
            Err(e) => {
                return Err(e);
            },
        };
        let additional = resource_detail_unknown_entries(entries);
        Ok(
            ResourceDetail {
                caption,
                files,
                audio,
                background,
                begin,
                capture_range,
                djvu_text_file,
                download_restricted,
                duration,
                end,
                fulltext_derivative,
                fulltext_file,
                height,
                id,
                info,
                image,
                paprika_resource_path,
                pdf,
                representative_index,
                type_field,
                url,
                uuid,
                version,
                video_stream,
                video,
                width,
                word_coordinates,
                additional,
            },
        )
    }
}

fn item_or_array_resource_details_from_json(v: &JsonValue) -> (r: Result<
    ItemOrArray<ResourceDetail>,
    DecodeError,
>)
    ensures
        view_result(r) == spec_decode_item_or_array(
            |x: JsonView| spec_decode_resource_detail(x),
            v.deep_view(),
        ),
{
    let ghost elem = |x: JsonView| spec_decode_resource_detail(x);
    match v {
        JsonValue::List(items) => {
            let ghost jitems = json_view(*v)->List_0;
            proof {
                assert(json_view(*v) == JsonView::List(jitems));
            }
            let mut out: Vec<ResourceDetail> = Vec::new();
            let mut i: usize = 0;
            while i < items.len()
                invariant
                    elem == (|x: JsonView| spec_decode_resource_detail(x)),
                    json_view(*v) == JsonView::List(jitems),
                    jitems == json_view(JsonValue::List(*items))->List_0,
                    jitems.len() == items@.len(),
                    i <= items@.len(),
                    forall|j: int| 0 <= j < i ==> (#[trigger] elem(jitems[j])) is Ok,
                    out@.len() == i,
                    forall|j: int| 0 <= j < i ==> out@[j].deep_view() == elem(jitems[j])->Ok_0,
                decreases items@.len() - i,
            {
                proof {
                    assert(jitems[i as int] == json_view(items@[i as int]));
                    assert(elem(jitems[i as int]) == spec_decode_resource_detail(jitems[i as int]));
                }
                match ResourceDetail::from_json(&items[i]) {
                    Ok(x) => {
                        out.push(x);
                    },
                    Err(e) => {
                        proof {
                            assert(!(forall|j: int|
                                0 <= j < jitems.len() ==> (#[trigger] elem(jitems[j])) is Ok))
                                by {
                                assert(0 <= i < jitems.len() && !(elem(jitems[i as int]) is Ok));
                            }
                        }
                        return Err(e);
                    },
                }
                i += 1;
            }
            proof {
                assert(out.deep_view() =~= Seq::new(jitems.len(), |j: int| elem(jitems[j])->Ok_0));
            }
            Ok(ItemOrArray::Array(out))
        },
        _ => {
            proof {
                assert(elem(v.deep_view()) == spec_decode_resource_detail(v.deep_view()));
            }
            match ResourceDetail::from_json(v) {
                Ok(x) => Ok(ItemOrArray::Item(x)),
                Err(e) => Err(e),
            }
        },
    }
}

fn field_resource_details(entries: &Vec<(String, JsonValue)>, key: &str) -> (r: Result<
    Option<ItemOrArray<ResourceDetail>>,
    DecodeError,
>)
    ensures
        view_result(r) == spec_decode_field(
            |x: JsonView| spec_decode_item_or_array(
                |y: JsonView| spec_decode_resource_detail(y),
                x,
            ),
            entries.deep_view(),
            key@,
        ),
{
    let ghost elem = |x: JsonView| spec_decode_item_or_array(
        |y: JsonView| spec_decode_resource_detail(y),
        x,
    );
    match lookup(entries, key) {
        None => Ok(None),
        Some(val) => match val {
            JsonValue::Null => Ok(None),
            _ => {
                proof {
                    assert(elem(val.deep_view()) == spec_decode_item_or_array(
                        |y: JsonView| spec_decode_resource_detail(y),
                        val.deep_view(),
                    ));
                }
                match item_or_array_resource_details_from_json(val) {
                    Ok(x) => Ok(Some(x)),
                    Err(e) => Err(e),
                }
            },
        },
    }
}

fn item_or_array_page_records_from_json(v: &JsonValue) -> (r: Result<
    ItemOrArray<Page>,
    DecodeError,
>)
    ensures
        view_result(r) == spec_decode_item_or_array(
            |x: JsonView| spec_decode_page_record(x),
            v.deep_view(),
        ),
{
    let ghost elem = |x: JsonView| spec_decode_page_record(x);
    match v {
        JsonValue::List(items) => {
            let ghost jitems = json_view(*v)->List_0;
            proof {
                assert(json_view(*v) == JsonView::List(jitems));
            }
            let mut out: Vec<Page> = Vec::new();
            let mut i: usize = 0;
            while i < items.len()
                invariant
                    elem == (|x: JsonView| spec_decode_page_record(x)),
                    json_view(*v) == JsonView::List(jitems),
                    jitems == json_view(JsonValue::List(*items))->List_0,
                    jitems.len() == items@.len(),
                    i <= items@.len(),
                    forall|j: int| 0 <= j < i ==> (#[trigger] elem(jitems[j])) is Ok,
                    out@.len() == i,
                    forall|j: int| 0 <= j < i ==> out@[j].deep_view() == elem(jitems[j])->Ok_0,
                decreases items@.len() - i,
            {
                proof {
                    assert(jitems[i as int] == json_view(items@[i as int]));
                    assert(elem(jitems[i as int]) == spec_decode_page_record(jitems[i as int]));
                }
                match Page::from_json(&items[i]) {
                    Ok(x) => {
                        out.push(x);
                    },
                    Err(e) => {
                        proof {
                            assert(!(forall|j: int|
                                0 <= j < jitems.len() ==> (#[trigger] elem(jitems[j])) is Ok))
                                by {
                                assert(0 <= i < jitems.len() && !(elem(jitems[i as int]) is Ok));
                            }
                        }
                        return Err(e);
                    },
                }
                i += 1;
            }
            proof {
                assert(out.deep_view() =~= Seq::new(jitems.len(), |j: int| elem(jitems[j])->Ok_0));
            }
            Ok(ItemOrArray::Array(out))
        },
        _ => {
            proof {
                assert(elem(v.deep_view()) == spec_decode_page_record(v.deep_view()));
            }
            match Page::from_json(v) {
                Ok(x) => Ok(ItemOrArray::Item(x)),
                Err(e) => Err(e),
            }
        },
    }
}

fn field_page_records(entries: &Vec<(String, JsonValue)>, key: &str) -> (r: Result<
    Option<ItemOrArray<Page>>,
    DecodeError,
>)
    ensures
        view_result(r) == spec_decode_field(
            |x: JsonView| spec_decode_item_or_array(
                |y: JsonView| spec_decode_page_record(y),
                x,
            ),
            entries.deep_view(),
            key@,
        ),
{
    let ghost elem = |x: JsonView| spec_decode_item_or_array(
        |y: JsonView| spec_decode_page_record(y),
        x,
    );
    match lookup(entries, key) {
        None => Ok(None),
        Some(val) => match val {
            JsonValue::Null => Ok(None),
            _ => {
                proof {
                    assert(elem(val.deep_view()) == spec_decode_item_or_array(
                        |y: JsonView| spec_decode_page_record(y),
                        val.deep_view(),
                    ));
                }
                match item_or_array_page_records_from_json(val) {
                    Ok(x) => Ok(Some(x)),
                    Err(e) => Err(e),
                }
            },
        },
    }
}

fn item_or_array_segments_from_json(v: &JsonValue) -> (r: Result<
    ItemOrArray<Segment>,
    DecodeError,
>)
    ensures
        view_result(r) == spec_decode_item_or_array(
            |x: JsonView| spec_decode_segment(x),
            v.deep_view(),
        ),
{
    let ghost elem = |x: JsonView| spec_decode_segment(x);
    match v {
        JsonValue::List(items) => {
            let ghost jitems = json_view(*v)->List_0;
            proof {
                assert(json_view(*v) == JsonView::List(jitems));
            }
            let mut out: Vec<Segment> = Vec::new();
            let mut i: usize = 0;
            while i < items.len()
                invariant
                    elem == (|x: JsonView| spec_decode_segment(x)),
                    json_view(*v) == JsonView::List(jitems),
                    jitems == json_view(JsonValue::List(*items))->List_0,
                    jitems.len() == items@.len(),
                    i <= items@.len(),
                    forall|j: int| 0 <= j < i ==> (#[trigger] elem(jitems[j])) is Ok,
                    out@.len() == i,
                    forall|j: int| 0 <= j < i ==> out@[j].deep_view() == elem(jitems[j])->Ok_0,
                decreases items@.len() - i,
            {
                proof {
                    assert(jitems[i as int] == json_view(items@[i as int]));
                    assert(elem(jitems[i as int]) == spec_decode_segment(jitems[i as int]));
                }
                match Segment::from_json(&items[i]) {
                    Ok(x) => {
                        out.push(x);
                    },
                    Err(e) => {
                        proof {
                            assert(!(forall|j: int|
                                0 <= j < jitems.len() ==> (#[trigger] elem(jitems[j])) is Ok))
                                by {
                                assert(0 <= i < jitems.len() && !(elem(jitems[i as int]) is Ok));
                            }
                        }
                        return Err(e);
                    },
                }
                i += 1;
            }
            proof {
                assert(out.deep_view() =~= Seq::new(jitems.len(), |j: int| elem(jitems[j])->Ok_0));
            }
            Ok(ItemOrArray::Array(out))
        },
        _ => {
            proof {
                assert(elem(v.deep_view()) == spec_decode_segment(v.deep_view()));
            }
            match Segment::from_json(v) {
                Ok(x) => Ok(ItemOrArray::Item(x)),
                Err(e) => Err(e),
            }
        },
    }
}

fn field_segments(entries: &Vec<(String, JsonValue)>, key: &str) -> (r: Result<
    Option<ItemOrArray<Segment>>,
    DecodeError,
>)
    ensures
        view_result(r) == spec_decode_field(
            |x: JsonView| spec_decode_item_or_array(
                |y: JsonView| spec_decode_segment(y),
                x,
            ),
            entries.deep_view(),
            key@,
        ),
{
    let ghost elem = |x: JsonView| spec_decode_item_or_array(
        |y: JsonView| spec_decode_segment(y),
        x,
    );
    match lookup(entries, key) {
        None => Ok(None),
        Some(val) => match val {
            JsonValue::Null => Ok(None),
            _ => {
                proof {
                    assert(elem(val.deep_view()) == spec_decode_item_or_array(
                        |y: JsonView| spec_decode_segment(y),
                        val.deep_view(),
                    ));
                }
                match item_or_array_segments_from_json(val) {
                    Ok(x) => Ok(Some(x)),
                    Err(e) => Err(e),
                }
            },
        },
    }
}

fn item_or_array_related_items_from_json(v: &JsonValue) -> (r: Result<
    ItemOrArray<RelatedItem>,
    DecodeError,
>)
    ensures
        view_result(r) == spec_decode_item_or_array(
            |x: JsonView| spec_decode_related_item(x),
            v.deep_view(),
        ),
{
    let ghost elem = |x: JsonView| spec_decode_related_item(x);
    match v {
        JsonValue::List(items) => {
            let ghost jitems = json_view(*v)->List_0;
            proof {
                assert(json_view(*v) == JsonView::List(jitems));
            }
            let mut out: Vec<RelatedItem> = Vec::new();
            let mut i: usize = 0;
            while i < items.len()
                invariant
                    elem == (|x: JsonView| spec_decode_related_item(x)),
                    json_view(*v) == JsonView::List(jitems),
                    jitems == json_view(JsonValue::List(*items))->List_0,
                    jitems.len() == items@.len(),
                    i <= items@.len(),
                    forall|j: int| 0 <= j < i ==> (#[trigger] elem(jitems[j])) is Ok,
                    out@.len() == i,
                    forall|j: int| 0 <= j < i ==> out@[j].deep_view() == elem(jitems[j])->Ok_0,
                decreases items@.len() - i,
            {
                proof {
                    assert(jitems[i as int] == json_view(items@[i as int]));
                    assert(elem(jitems[i as int]) == spec_decode_related_item(jitems[i as int]));
                }
                match RelatedItem::from_json(&items[i]) {
                    Ok(x) => {
                        out.push(x);
                    },
                    Err(e) => {
                        proof {
                            assert(!(forall|j: int|
                                0 <= j < jitems.len() ==> (#[trigger] elem(jitems[j])) is Ok))
                                by {
                                assert(0 <= i < jitems.len() && !(elem(jitems[i as int]) is Ok));
                            }
                        }
                        return Err(e);
                    },
                }
                i += 1;
            }
            proof {
                assert(out.deep_view() =~= Seq::new(jitems.len(), |j: int| elem(jitems[j])->Ok_0));
            }
            Ok(ItemOrArray::Array(out))
        },
        _ => {
            proof {
                assert(elem(v.deep_view()) == spec_decode_related_item(v.deep_view()));
            }
            match RelatedItem::from_json(v) {
                Ok(x) => Ok(ItemOrArray::Item(x)),
                Err(e) => Err(e),
            }
        },
    }
}

fn field_related_items(entries: &Vec<(String, JsonValue)>, key: &str) -> (r: Result<
    Option<ItemOrArray<RelatedItem>>,
    DecodeError,
>)
    ensures
        view_result(r) == spec_decode_field(
            |x: JsonView| spec_decode_item_or_array(
                |y: JsonView| spec_decode_related_item(y),
                x,
            ),
            entries.deep_view(),
            key@,
        ),
{
    let ghost elem = |x: JsonView| spec_decode_item_or_array(
        |y: JsonView| spec_decode_related_item(y),
        x,
    );
    match lookup(entries, key) {
        None => Ok(None),
        Some(val) => match val {
            JsonValue::Null => Ok(None),
            _ => {
                proof {
                    assert(elem(val.deep_view()) == spec_decode_item_or_array(
                        |y: JsonView| spec_decode_related_item(y),
                        val.deep_view(),
                    ));
                }
                match item_or_array_related_items_from_json(val) {
                    Ok(x) => Ok(Some(x)),
                    Err(e) => Err(e),
                }
            },
        },
    }
}

fn item_or_array_more_like_this_items_from_json(v: &JsonValue) -> (r: Result<
    ItemOrArray<MoreLikeThis>,
    DecodeError,
>)
    ensures
        view_result(r) == spec_decode_item_or_array(
            |x: JsonView| spec_decode_more_like_this(x),
            v.deep_view(),
        ),
{
    let ghost elem = |x: JsonView| spec_decode_more_like_this(x);
    match v {
        JsonValue::List(items) => {
            let ghost jitems = json_view(*v)->List_0;
            proof {
                assert(json_view(*v) == JsonView::List(jitems));
            }
            let mut out: Vec<MoreLikeThis> = Vec::new();
            let mut i: usize = 0;
            while i < items.len()
                invariant
                    elem == (|x: JsonView| spec_decode_more_like_this(x)),
                    json_view(*v) == JsonView::List(jitems),
                    jitems == json_view(JsonValue::List(*items))->List_0,
                    jitems.len() == items@.len(),
                    i <= items@.len(),
                    forall|j: int| 0 <= j < i ==> (#[trigger] elem(jitems[j])) is Ok,
                    out@.len() == i,
                    forall|j: int| 0 <= j < i ==> out@[j].deep_view() == elem(jitems[j])->Ok_0,
                decreases items@.len() - i,
            {
                proof {
                    assert(jitems[i as int] == json_view(items@[i as int]));
                    assert(elem(jitems[i as int]) == spec_decode_more_like_this(jitems[i as int]));
                }
                match MoreLikeThis::from_json(&items[i]) {
                    Ok(x) => {
                        out.push(x);
                    },
                    Err(e) => {
                        proof {
                            assert(!(forall|j: int|
                                0 <= j < jitems.len() ==> (#[trigger] elem(jitems[j])) is Ok))
                                by {
                                assert(0 <= i < jitems.len() && !(elem(jitems[i as int]) is Ok));
                            }
                        }
                        return Err(e);
                    },
                }
                i += 1;
            }
            proof {
                assert(out.deep_view() =~= Seq::new(jitems.len(), |j: int| elem(jitems[j])->Ok_0));
            }
            Ok(ItemOrArray::Array(out))
        },
        _ => {
            proof {
                assert(elem(v.deep_view()) == spec_decode_more_like_this(v.deep_view()));
            }
            match MoreLikeThis::from_json(v) {
                Ok(x) => Ok(ItemOrArray::Item(x)),
                Err(e) => Err(e),
            }
        },
    }
}

fn field_more_like_this_items(entries: &Vec<(String, JsonValue)>, key: &str) -> (r: Result<
    Option<ItemOrArray<MoreLikeThis>>,
    DecodeError,
>)
    ensures
        view_result(r) == spec_decode_field(
            |x: JsonView| spec_decode_item_or_array(
                |y: JsonView| spec_decode_more_like_this(y),
                x,
            ),
            entries.deep_view(),
            key@,
        ),
{
    let ghost elem = |x: JsonView| spec_decode_item_or_array(
        |y: JsonView| spec_decode_more_like_this(y),
        x,
    );
    match lookup(entries, key) {
        None => Ok(None),
        Some(val) => match val {
            JsonValue::Null => Ok(None),
            _ => {
                proof {
                    assert(elem(val.deep_view()) == spec_decode_item_or_array(
                        |y: JsonView| spec_decode_more_like_this(y),
                        val.deep_view(),
                    ));
                }
                match item_or_array_more_like_this_items_from_json(val) {
                    Ok(x) => Ok(Some(x)),
                    Err(e) => Err(e),
                }
            },
        },
    }
}

fn item_or_array_cite_items_from_json(v: &JsonValue) -> (r: Result<
    ItemOrArray<CiteThis>,
    DecodeError,
>)
    ensures
        view_result(r) == spec_decode_item_or_array(
            |x: JsonView| spec_decode_cite_this(x),
            v.deep_view(),
        ),
{
    let ghost elem = |x: JsonView| spec_decode_cite_this(x);
    match v {
        JsonValue::List(items) => {
            let ghost jitems = json_view(*v)->List_0;
            proof {
                assert(json_view(*v) == JsonView::List(jitems));
            }
            let mut out: Vec<CiteThis> = Vec::new();
            let mut i: usize = 0;
            while i < items.len()
                invariant
                    elem == (|x: JsonView| spec_decode_cite_this(x)),
                    json_view(*v) == JsonView::List(jitems),
                    jitems == json_view(JsonValue::List(*items))->List_0,
                    jitems.len() == items@.len(),
                    i <= items@.len(),
                    forall|j: int| 0 <= j < i ==> (#[trigger] elem(jitems[j])) is Ok,
                    out@.len() == i,
                    forall|j: int| 0 <= j < i ==> out@[j].deep_view() == elem(jitems[j])->Ok_0,
                decreases items@.len() - i,
            {
                proof {
                    assert(jitems[i as int] == json_view(items@[i as int]));
                    assert(elem(jitems[i as int]) == spec_decode_cite_this(jitems[i as int]));
                }
                match CiteThis::from_json(&items[i]) {
                    Ok(x) => {
                        out.push(x);
                    },
                    Err(e) => {
                        proof {
                            assert(!(forall|j: int|
                                0 <= j < jitems.len() ==> (#[trigger] elem(jitems[j])) is Ok))
                                by {
                                assert(0 <= i < jitems.len() && !(elem(jitems[i as int]) is Ok));
                            }
                        }
                        return Err(e);
                    },
                }
                i += 1;
            }
            proof {
                assert(out.deep_view() =~= Seq::new(jitems.len(), |j: int| elem(jitems[j])->Ok_0));
            }
            Ok(ItemOrArray::Array(out))
        },
        _ => {
            proof {
                assert(elem(v.deep_view()) == spec_decode_cite_this(v.deep_view()));
            }
            match CiteThis::from_json(v) {
                Ok(x) => Ok(ItemOrArray::Item(x)),
                Err(e) => Err(e),
            }
        },
    }
}

fn field_cite_items(entries: &Vec<(String, JsonValue)>, key: &str) -> (r: Result<
    Option<ItemOrArray<CiteThis>>,
    DecodeError,
>)
    ensures
        view_result(r) == spec_decode_field(
            |x: JsonView| spec_decode_item_or_array(
                |y: JsonView| spec_decode_cite_this(y),
                x,
            ),
            entries.deep_view(),
            key@,
        ),
{
    let ghost elem = |x: JsonView| spec_decode_item_or_array(
        |y: JsonView| spec_decode_cite_this(y),
        x,
    );
    match lookup(entries, key) {
        None => Ok(None),
        Some(val) => match val {
            JsonValue::Null => Ok(None),
            _ => {
                proof {
                    assert(elem(val.deep_view()) == spec_decode_item_or_array(
                        |y: JsonView| spec_decode_cite_this(y),
                        val.deep_view(),
                    ));
                }
                match item_or_array_cite_items_from_json(val) {
                    Ok(x) => Ok(Some(x)),
                    Err(e) => Err(e),
                }
            },
        },
    }
}

fn item_or_array_paginations_from_json(v: &JsonValue) -> (r: Result<
    ItemOrArray<Pagination>,
    DecodeError,
>)
    ensures
        view_result(r) == spec_decode_item_or_array(
            |x: JsonView| spec_decode_pagination(x),
            v.deep_view(),
        ),
{
    let ghost elem = |x: JsonView| spec_decode_pagination(x);
    match v {
        JsonValue::List(items) => {
            let ghost jitems = json_view(*v)->List_0;
            proof {
                assert(json_view(*v) == JsonView::List(jitems));
            }
            let mut out: Vec<Pagination> = Vec::new();
            let mut i: usize = 0;
            while i < items.len()
                invariant
                    elem == (|x: JsonView| spec_decode_pagination(x)),
                    json_view(*v) == JsonView::List(jitems),
                    jitems == json_view(JsonValue::List(*items))->List_0,
                    jitems.len() == items@.len(),
                    i <= items@.len(),
                    forall|j: int| 0 <= j < i ==> (#[trigger] elem(jitems[j])) is Ok,
                    out@.len() == i,
                    forall|j: int| 0 <= j < i ==> out@[j].deep_view() == elem(jitems[j])->Ok_0,
                decreases items@.len() - i,
            {
                proof {
                    assert(jitems[i as int] == json_view(items@[i as int]));
                    assert(elem(jitems[i as int]) == spec_decode_pagination(jitems[i as int]));
                }
                match Pagination::from_json(&items[i]) {
                    Ok(x) => {
                        out.push(x);
                    },
                    Err(e) => {
                        proof {
                            assert(!(forall|j: int|
                                0 <= j < jitems.len() ==> (#[trigger] elem(jitems[j])) is Ok))
                                by {
                                assert(0 <= i < jitems.len() && !(elem(jitems[i as int]) is Ok));
                            }
                        }
                        return Err(e);
                    },
                }
                i += 1;
            }
            proof {
                assert(out.deep_view() =~= Seq::new(jitems.len(), |j: int| elem(jitems[j])->Ok_0));
            }
            Ok(ItemOrArray::Array(out))
        },
        _ => {
            proof {
                assert(elem(v.deep_view()) == spec_decode_pagination(v.deep_view()));
            }
            match Pagination::from_json(v) {
                Ok(x) => Ok(ItemOrArray::Item(x)),
                Err(e) => Err(e),
            }
        },
    }
}

fn field_paginations(entries: &Vec<(String, JsonValue)>, key: &str) -> (r: Result<
    Option<ItemOrArray<Pagination>>,
    DecodeError,
>)
    ensures
        view_result(r) == spec_decode_field(
            |x: JsonView| spec_decode_item_or_array(
                |y: JsonView| spec_decode_pagination(y),
                x,
            ),
            entries.deep_view(),
            key@,
        ),
{
    let ghost elem = |x: JsonView| spec_decode_item_or_array(
        |y: JsonView| spec_decode_pagination(y),
        x,
    );
    match lookup(entries, key) {
        None => Ok(None),
        Some(val) => match val {
            JsonValue::Null => Ok(None),
            _ => {
                proof {
                    assert(elem(val.deep_view()) == spec_decode_item_or_array(
                        |y: JsonView| spec_decode_pagination(y),
                        val.deep_view(),
                    ));
                }
                match item_or_array_paginations_from_json(val) {
                    Ok(x) => Ok(Some(x)),
                    Err(e) => Err(e),
                }
            },
        },
    }
}

/// Whether a key is one of the known keys of an [`ItemResponse`].
pub open spec fn spec_item_response_known(k: Seq<char>) -> bool {
    k == "views"@
        || k == "timestamp"@
        || k == "locations"@
        || k == "fulltext_service"@
        || k == "next_issue"@
        || k == "newspaper_holdings_url"@
        || k == "title_url"@
        || k == "page"@
        || k == "pagination"@
        || k == "resource"@
        || k == "cite_this"@
        || k == "calendar_url"@
        || k == "previous_issue"@
        || k == "segments"@
        || k == "related_items"@
        || k == "word_coordinates_query"@
        || k == "more_like_this"@
        || k == "articles_and_essays"@
        || k == "traditional_knowledge_labels"@
        || k == "item"@
        || k == "word_coordinates_pages"@
        || k == "type_field"@
        || k == "options"@
        || k == "resources"@
}

fn is_item_response_key(k: &str) -> (r: bool)
    ensures
        r == spec_item_response_known(k@),
{
    str_eq(k, "views")
        || str_eq(k, "timestamp")
        || str_eq(k, "locations")
        || str_eq(k, "fulltext_service")
        || str_eq(k, "next_issue")
        || str_eq(k, "newspaper_holdings_url")
        || str_eq(k, "title_url")
        || str_eq(k, "page")
        || str_eq(k, "pagination")
        || str_eq(k, "resource")
        || str_eq(k, "cite_this")
        || str_eq(k, "calendar_url")
        || str_eq(k, "previous_issue")
        || str_eq(k, "segments")
        || str_eq(k, "related_items")
        || str_eq(k, "word_coordinates_query")
        || str_eq(k, "more_like_this")
        || str_eq(k, "articles_and_essays")
        || str_eq(k, "traditional_knowledge_labels")
        || str_eq(k, "item")
        || str_eq(k, "word_coordinates_pages")
        || str_eq(k, "type_field")
        || str_eq(k, "options")
        || str_eq(k, "resources")
}

fn item_response_unknown_entries(entries: &Vec<(String, JsonValue)>) -> (r: Vec<(String, JsonValue)>)
    ensures
        r.deep_view() == spec_unknown_entries(
            entries.deep_view(),
            |k: Seq<char>| spec_item_response_known(k),
        ),
{
    let ghost known = |k: Seq<char>| spec_item_response_known(k);
    let ghost dv = entries.deep_view();
    let mut out: Vec<(String, JsonValue)> = Vec::new();
    proof {
        assert(out.deep_view() =~= spec_unknown_entries(dv.take(0), known));
    }
    let mut i: usize = 0;
    while i < entries.len()
        invariant
            known == (|k: Seq<char>| spec_item_response_known(k)),
            dv == entries.deep_view(),
            dv.len() == entries@.len(),
            i <= entries@.len(),
            out.deep_view() == spec_unknown_entries(dv.take(i as int), known),
        decreases entries@.len() - i,
    {
        proof {
            assert(dv[i as int] == (entries@[i as int].0@, json_view(entries@[i as int].1)));
            assert(dv.take(i as int + 1).drop_last() =~= dv.take(i as int));
            assert(dv.take(i as int + 1).last() == dv[i as int]);
            assert(known(entries@[i as int].0@) == spec_item_response_known(entries@[i as int].0@));
        }
        if !is_item_response_key(entries[i].0.as_str()) {
            let key = entries[i].0.clone();
            let val = entries[i].1.duplicate();
            out.push((key, val));
            proof {
                assert(out.deep_view() =~= spec_unknown_entries(dv.take(i as int + 1), known));
            }
        } else {
            proof {
                assert(out.deep_view() =~= spec_unknown_entries(dv.take(i as int + 1), known));
            }
        }
        i += 1;
    }
    proof {
        assert(dv.take(entries@.len() as int) =~= dv);
    }
    out
}

/// The envelope of the `/item/{item_id}/` route.
///
/// Every known field is independently optional; every other top-level
/// key is kept verbatim in `additional`.
#[derive(Debug)]
pub struct ItemResponse {
    /// Views available for this record, kept as raw JSON.
    pub views: Option<ItemOrArray<JsonValue>>,
    /// When the record was indexed.
    pub timestamp: Option<NumberOrString>,
    /// Locations associated with the record.
    pub locations: Option<ItemOrArray<String>>,
    /// The URL of the full-text service.
    pub fulltext_service: Option<StringOrArray>,
    /// Information about the next issue.
    pub next_issue: Option<StringOrArray>,
    /// The URL of newspaper holdings.
    pub newspaper_holdings_url: Option<StringOrArray>,
    /// The URL of the title page.
    pub title_url: Option<StringOrArray>,
    /// Pages associated with the record.
    pub page: Option<ItemOrArray<Page>>,
    /// Pagination details.
    pub pagination: Option<ItemOrArray<Pagination>>,
    /// The resource section of the record.
    pub resource: Option<ItemOrArray<JsonValue>>,
    /// Citation renderings in the common styles.
    pub cite_this: Option<ItemOrArray<CiteThis>>,
    /// A calendar URL related to the record.
    pub calendar_url: Option<StringOrArray>,
    /// Information about the previous issue.
    pub previous_issue: Option<StringOrArray>,
    /// Segments within the resource.
    pub segments: Option<ItemOrArray<Segment>>,
    /// Items related to this record.
    pub related_items: Option<ItemOrArray<RelatedItem>>,
    /// Query details for word coordinates, kept as raw JSON.
    pub word_coordinates_query: Option<ItemOrArray<JsonValue>>,
    /// Recommendations similar to this record.
    pub more_like_this: Option<ItemOrArray<MoreLikeThis>>,
    /// Articles and essays related to the record.
    pub articles_and_essays: Option<ItemOrArray<String>>,
    /// Traditional knowledge labels of the record.
    pub traditional_knowledge_labels: Option<ItemOrArray<String>>,
    /// The detailed bibliographic record.
    pub item: Option<ItemOrArray<ItemAttribute>>,
    /// Word coordinates on pages, kept as raw JSON.
    pub word_coordinates_pages: Option<ItemOrArray<JsonValue>>,
    /// The type of the response.
    pub type_field: Option<StringOrArray>,
    /// Additional options or metadata, kept as raw JSON.
    pub options: Option<ItemOrArray<JsonValue>>,
    /// The resources associated with the record.
    pub resources: Option<ItemOrArray<ResourceObject>>,
    /// Any other entries of the object, kept verbatim.
    pub additional: Vec<(String, JsonValue)>,
}

/// The shape of an [`ItemResponse`].
pub struct ItemResponseView {
    /// Views available for this record, kept as raw JSON.
    pub views: Option<ItemOrArrayView<JsonView>>,
    /// When the record was indexed.
    pub timestamp: Option<NumberOrStringView>,
    /// Locations associated with the record.
    pub locations: Option<ItemOrArrayView<Seq<char>>>,
    /// The URL of the full-text service.
    pub fulltext_service: Option<StringOrArrayView>,
    /// Information about the next issue.
    pub next_issue: Option<StringOrArrayView>,
    /// The URL of newspaper holdings.
    pub newspaper_holdings_url: Option<StringOrArrayView>,
    /// The URL of the title page.
    pub title_url: Option<StringOrArrayView>,
    /// Pages associated with the record.
    pub page: Option<ItemOrArrayView<PageView>>,
    /// Pagination details.
    pub pagination: Option<ItemOrArrayView<PaginationView>>,
    /// The resource section of the record.
    pub resource: Option<ItemOrArrayView<JsonView>>,
    /// Citation renderings in the common styles.
    pub cite_this: Option<ItemOrArrayView<CiteThisView>>,
    /// A calendar URL related to the record.
    pub calendar_url: Option<StringOrArrayView>,
    /// Information about the previous issue.
    pub previous_issue: Option<StringOrArrayView>,
    /// Segments within the resource.
    pub segments: Option<ItemOrArrayView<SegmentView>>,
    /// Items related to this record.
    pub related_items: Option<ItemOrArrayView<RelatedItemView>>,
    /// Query details for word coordinates, kept as raw JSON.
    pub word_coordinates_query: Option<ItemOrArrayView<JsonView>>,
    /// Recommendations similar to this record.
    pub more_like_this: Option<ItemOrArrayView<MoreLikeThisView>>,
    /// Articles and essays related to the record.
    pub articles_and_essays: Option<ItemOrArrayView<Seq<char>>>,
    /// Traditional knowledge labels of the record.
    pub traditional_knowledge_labels: Option<ItemOrArrayView<Seq<char>>>,
    /// The detailed bibliographic record.
    pub item: Option<ItemOrArrayView<ItemAttributeView>>,
    /// Word coordinates on pages, kept as raw JSON.
    pub word_coordinates_pages: Option<ItemOrArrayView<JsonView>>,
    /// The type of the response.
    pub type_field: Option<StringOrArrayView>,
    /// Additional options or metadata, kept as raw JSON.
    pub options: Option<ItemOrArrayView<JsonView>>,
    /// The resources associated with the record.
    pub resources: Option<ItemOrArrayView<ResourceObjectView>>,
    /// Any other entries of the object, kept verbatim.
    pub additional: Seq<(Seq<char>, JsonView)>,
}

impl DeepView for ItemResponse {
    type V = ItemResponseView;

    open spec fn deep_view(&self) -> ItemResponseView {
        ItemResponseView {
            views: self.views.deep_view(),
            timestamp: self.timestamp.deep_view(),
            locations: self.locations.deep_view(),
            fulltext_service: self.fulltext_service.deep_view(),
            next_issue: self.next_issue.deep_view(),
            newspaper_holdings_url: self.newspaper_holdings_url.deep_view(),
            title_url: self.title_url.deep_view(),
            page: self.page.deep_view(),
            pagination: self.pagination.deep_view(),
            resource: self.resource.deep_view(),
            cite_this: self.cite_this.deep_view(),
            calendar_url: self.calendar_url.deep_view(),
            previous_issue: self.previous_issue.deep_view(),
            segments: self.segments.deep_view(),
            related_items: self.related_items.deep_view(),
            word_coordinates_query: self.word_coordinates_query.deep_view(),
            more_like_this: self.more_like_this.deep_view(),
            articles_and_essays: self.articles_and_essays.deep_view(),
            traditional_knowledge_labels: self.traditional_knowledge_labels.deep_view(),
            item: self.item.deep_view(),
            word_coordinates_pages: self.word_coordinates_pages.deep_view(),
            type_field: self.type_field.deep_view(),
            options: self.options.deep_view(),
            resources: self.resources.deep_view(),
            additional: self.additional.deep_view(),
        }
    }
}

/// How an [`ItemResponse`] decodes from an object's entries.
pub open spec fn spec_decode_item_response(v: JsonView) -> Result<ItemResponseView, DecodeError> {
    match v {
        JsonView::Object(es) => {
            let views = spec_decode_field(
                |x: JsonView| spec_decode_raw_item(x),
                es,
                "views"@,
            );
            let timestamp = spec_decode_field(
                |x: JsonView| spec_decode_number_or_string(x),
                es,
                "timestamp"@,
            );
            let locations = spec_decode_field(
                |x: JsonView| spec_decode_item_or_array(|y: JsonView| spec_decode_text(y), x),
                es,
                "locations"@,
            );
            let fulltext_service = spec_decode_field(
                |x: JsonView| spec_decode_string_or_array(x),
                es,
                "fulltext_service"@,
            );
            let next_issue = spec_decode_field(
                |x: JsonView| spec_decode_string_or_array(x),
                es,
                "next_issue"@,
            );
            let newspaper_holdings_url = spec_decode_field(
                |x: JsonView| spec_decode_string_or_array(x),
                es,
                "newspaper_holdings_url"@,
            );
            let title_url = spec_decode_field(
                |x: JsonView| spec_decode_string_or_array(x),
                es,
                "title_url"@,
            );
            let page = spec_decode_field(
                |x: JsonView| spec_decode_item_or_array(|y: JsonView| spec_decode_page_record(y), x),
                es,
                "page"@,
            );
            let pagination = spec_decode_field(
                |x: JsonView| spec_decode_item_or_array(|y: JsonView| spec_decode_pagination(y), x),
                es,
                "pagination"@,
            );
            let resource = spec_decode_field(
                |x: JsonView| spec_decode_raw_item(x),
                es,
                "resource"@,
            );
            let cite_this = spec_decode_field(
                |x: JsonView| spec_decode_item_or_array(|y: JsonView| spec_decode_cite_this(y), x),
                es,
                "cite_this"@,
            );
            let calendar_url = spec_decode_field(
                |x: JsonView| spec_decode_string_or_array(x),
                es,
                "calendar_url"@,
            );
            let previous_issue = spec_decode_field(
                |x: JsonView| spec_decode_string_or_array(x),
                es,
                "previous_issue"@,
            );
            let segments = spec_decode_field(
                |x: JsonView| spec_decode_item_or_array(|y: JsonView| spec_decode_segment(y), x),
                es,
                "segments"@,
            );
            let related_items = spec_decode_field(
                |x: JsonView| spec_decode_item_or_array(|y: JsonView| spec_decode_related_item(y), x),
                es,
                "related_items"@,
            );
            let word_coordinates_query = spec_decode_field(
                |x: JsonView| spec_decode_raw_item(x),
                es,
                "word_coordinates_query"@,
            );
            let more_like_this = spec_decode_field(
                |x: JsonView| spec_decode_item_or_array(|y: JsonView| spec_decode_more_like_this(y), x),
                es,
                "more_like_this"@,
            );
            let articles_and_essays = spec_decode_field(
                |x: JsonView| spec_decode_item_or_array(|y: JsonView| spec_decode_text(y), x),
                es,
                "articles_and_essays"@,
            );
            let traditional_knowledge_labels = spec_decode_field(
                |x: JsonView| spec_decode_item_or_array(|y: JsonView| spec_decode_text(y), x),
                es,
                "traditional_knowledge_labels"@,
            );
            let item_v = spec_decode_field(
                |x: JsonView| spec_decode_item_or_array(|y: JsonView| spec_decode_item_attribute(y), x),
                es,
                "item"@,
            );
            let word_coordinates_pages = spec_decode_field(
                |x: JsonView| spec_decode_raw_item(x),
                es,
                "word_coordinates_pages"@,
            );
            let type_field = spec_decode_field(
                |x: JsonView| spec_decode_string_or_array(x),
                es,
                "type_field"@,
            );
            let options = spec_decode_field(
                |x: JsonView| spec_decode_raw_item(x),
                es,
                "options"@,
            );
            let resources = spec_decode_field(
                |x: JsonView| spec_decode_item_or_array(|y: JsonView| spec_decode_resource_object(y), x),
                es,
                "resources"@,
            );
            if views is Ok && timestamp is Ok && locations is Ok && fulltext_service is Ok && next_issue is Ok && newspaper_holdings_url is Ok && title_url is Ok && page is Ok && pagination is Ok && resource is Ok && cite_this is Ok && calendar_url is Ok && previous_issue is Ok && segments is Ok && related_items is Ok && word_coordinates_query is Ok && more_like_this is Ok && articles_and_essays is Ok && traditional_knowledge_labels is Ok && item_v is Ok && word_coordinates_pages is Ok && type_field is Ok && options is Ok && resources is Ok {
                Ok(
                    ItemResponseView {
                        views: views->Ok_0,
                        timestamp: timestamp->Ok_0,
                        locations: locations->Ok_0,
                        fulltext_service: fulltext_service->Ok_0,
                        next_issue: next_issue->Ok_0,
                        newspaper_holdings_url: newspaper_holdings_url->Ok_0,
                        title_url: title_url->Ok_0,
                        page: page->Ok_0,
                        pagination: pagination->Ok_0,
                        resource: resource->Ok_0,
                        cite_this: cite_this->Ok_0,
                        calendar_url: calendar_url->Ok_0,
                        previous_issue: previous_issue->Ok_0,
                        segments: segments->Ok_0,
                        related_items: related_items->Ok_0,
                        word_coordinates_query: word_coordinates_query->Ok_0,
                        more_like_this: more_like_this->Ok_0,
                        articles_and_essays: articles_and_essays->Ok_0,
                        traditional_knowledge_labels: traditional_knowledge_labels->Ok_0,
                        item: item_v->Ok_0,
                        word_coordinates_pages: word_coordinates_pages->Ok_0,
                        type_field: type_field->Ok_0,
                        options: options->Ok_0,
                        resources: resources->Ok_0,
                        additional: spec_unknown_entries(es, |k: Seq<char>| spec_item_response_known(k)),
                    },
                )
            } else {
                Err(DecodeError::WrongShape)
            }
        },
        _ => Err(DecodeError::WrongShape),
    }
}

impl ItemResponse {
    /// Decodes this record from a JSON object, keeping unknown keys.
    #[verifier::rlimit(100)]
    pub fn from_json(v: &JsonValue) -> (r: Result<ItemResponse, DecodeError>)
        ensures
            view_result(r) == spec_decode_item_response(v.deep_view()),
    {
        let entries = match v {
            JsonValue::Object(es) => es,
            _ => {
                return Err(DecodeError::WrongShape);
            },
        };
        proof {
            assert(json_view(*v)->Object_0 =~= entries.deep_view());
        }
        let views = match field_raw_item(entries, "views") {
            Ok(x) => x,
            Err(e) => {
                return Err(e);
            },
        };
        let timestamp = match field_number_or_string(entries, "timestamp") {
            Ok(x) => x,
            Err(e) => {
                return Err(e);
            },
        };
        let locations = match field_texts(entries, "locations") {
            Ok(x) => x,
            Err(e) => {
                return Err(e);
            },
        };
        let fulltext_service = match field_string_or_array(entries, "fulltext_service") {
            Ok(x) => x,
            Err(e) => {
                return Err(e);
            },
        };
        let next_issue = match field_string_or_array(entries, "next_issue") {
            Ok(x) => x,
            Err(e) => {
                return Err(e);
            },
        };
        let newspaper_holdings_url = match field_string_or_array(entries, "newspaper_holdings_url") {
            Ok(x) => x,
            Err(e) => {
                return Err(e);
            },
        };
        let title_url = match field_string_or_array(entries, "title_url") {
            Ok(x) => x,
            Err(e) => {
                return Err(e);
            },
        };
        let page = match field_page_records(entries, "page") {
            Ok(x) => x,
            Err(e) => {
                return Err(e);
            },
        };
        let pagination = match field_paginations(entries, "pagination") {
            Ok(x) => x,
            Err(e) => {
                return Err(e);
            },
        };
        let resource = match field_raw_item(entries, "resource") {
            Ok(x) => x,
            Err(e) => {
                return Err(e);
            },
        };
        let cite_this = match field_cite_items(entries, "cite_this") {
            Ok(x) => x,
            Err(e) => {
                return Err(e);
            },
        };
        let calendar_url = match field_string_or_array(entries, "calendar_url") {
            Ok(x) => x,
            Err(e) => {
                return Err(e);
            },
        };
        let previous_issue = match field_string_or_array(entries, "previous_issue") {
            Ok(x) => x,
            Err(e) => {
                return Err(e);
            },
        };
        let segments = match field_segments(entries, "segments") {
            Ok(x) => x,
            Err(e) => {
                return Err(e);
            },
        };
        let related_items = match field_related_items(entries, "related_items") {
            Ok(x) => x,
            Err(e) => {
                return Err(e);
            },
        };
        let word_coordinates_query = match field_raw_item(entries, "word_coordinates_query") {
            Ok(x) => x,
            Err(e) => {
                return Err(e);
            },
        };
        let more_like_this = match field_more_like_this_items(entries, "more_like_this") {
            Ok(x) => x,
            Err(e) => {
                return Err(e);
            },
        };
        let articles_and_essays = match field_texts(entries, "articles_and_essays") {
            Ok(x) => x,
            Err(e) => {
                return Err(e);
            },
        };
        let traditional_knowledge_labels = match field_texts(entries, "traditional_knowledge_labels") {
            Ok(x) => x,
            Err(e) => {
                return Err(e);
            },
        };
        let item_v = match field_item_attributes(entries, "item") {
            Ok(x) => x,
            Err(e) => {
                return Err(e);
            },
        };
        let word_coordinates_pages = match field_raw_item(entries, "word_coordinates_pages") {
            Ok(x) => x,
            Err(e) => {
                return Err(e);
            },
        };
        let type_field = match field_string_or_array(entries, "type_field") {
            Ok(x) => x,
            Err(e) => {
                return Err(e);
            },
        };
        let options = match field_raw_item(entries, "options") {
            Ok(x) => x,
            Err(e) => {
                return Err(e);
            },
        };
        let resources = match field_resource_objects(entries, "resources") {
            Ok(x) => x,
            Err(e) => {
                return Err(e);
            },
        };
        let additional = item_response_unknown_entries(entries);
        Ok(
            ItemResponse {
                views,
                timestamp,
                locations,
                fulltext_service,
                next_issue,
                newspaper_holdings_url,
                title_url,
                page,
                pagination,
                resource,
                cite_this,
                calendar_url,
                previous_issue,
                segments,
                related_items,
                word_coordinates_query,
                more_like_this,
                articles_and_essays,
                traditional_knowledge_labels,
                item: item_v,
                word_coordinates_pages,
                type_field,
                options,
                resources,
                additional,
            },
        )
    }
}

/// Whether a key is one of the known keys of a [`ResourceResponse`].
pub open spec fn spec_resource_response_known(k: Seq<char>) -> bool {
    k == "views"@
        || k == "timestamp"@
        || k == "locations"@
        || k == "fulltext_service"@
        || k == "next_issue"@
        || k == "newspaper_holdings_url"@
        || k == "title_url"@
        || k == "page"@
        || k == "pagination"@
        || k == "resource"@
        || k == "cite_this"@
        || k == "calendar_url"@
        || k == "previous_issue"@
        || k == "segments"@
        || k == "related_items"@
        || k == "word_coordinates_query"@
        || k == "more_like_this"@
        || k == "articles_and_essays"@
        || k == "traditional_knowledge_labels"@
        || k == "item"@
        || k == "word_coordinates_pages"@
        || k == "type_field"@
        || k == "options"@
        || k == "resources"@
}

fn is_resource_response_key(k: &str) -> (r: bool)
    ensures
        r == spec_resource_response_known(k@),
{
    str_eq(k, "views")
        || str_eq(k, "timestamp")
        || str_eq(k, "locations")
        || str_eq(k, "fulltext_service")
        || str_eq(k, "next_issue")
        || str_eq(k, "newspaper_holdings_url")
        || str_eq(k, "title_url")
        || str_eq(k, "page")
        || str_eq(k, "pagination")
        || str_eq(k, "resource")
        || str_eq(k, "cite_this")
        || str_eq(k, "calendar_url")
        || str_eq(k, "previous_issue")
        || str_eq(k, "segments")
        || str_eq(k, "related_items")
        || str_eq(k, "word_coordinates_query")
        || str_eq(k, "more_like_this")
        || str_eq(k, "articles_and_essays")
        || str_eq(k, "traditional_knowledge_labels")
        || str_eq(k, "item")
        || str_eq(k, "word_coordinates_pages")
        || str_eq(k, "type_field")
        || str_eq(k, "options")
        || str_eq(k, "resources")
}

fn resource_response_unknown_entries(entries: &Vec<(String, JsonValue)>) -> (r: Vec<(String, JsonValue)>)
    ensures
        r.deep_view() == spec_unknown_entries(
            entries.deep_view(),
            |k: Seq<char>| spec_resource_response_known(k),
        ),
{
    let ghost known = |k: Seq<char>| spec_resource_response_known(k);
    let ghost dv = entries.deep_view();
    let mut out: Vec<(String, JsonValue)> = Vec::new();
    proof {
        assert(out.deep_view() =~= spec_unknown_entries(dv.take(0), known));
    }
    let mut i: usize = 0;
    while i < entries.len()
        invariant
            known == (|k: Seq<char>| spec_resource_response_known(k)),
            dv == entries.deep_view(),
            dv.len() == entries@.len(),
            i <= entries@.len(),
            out.deep_view() == spec_unknown_entries(dv.take(i as int), known),
        decreases entries@.len() - i,
    {
        proof {
            assert(dv[i as int] == (entries@[i as int].0@, json_view(entries@[i as int].1)));
            assert(dv.take(i as int + 1).drop_last() =~= dv.take(i as int));
            assert(dv.take(i as int + 1).last() == dv[i as int]);
            assert(known(entries@[i as int].0@) == spec_resource_response_known(entries@[i as int].0@));
        }
        if !is_resource_response_key(entries[i].0.as_str()) {
            let key = entries[i].0.clone();
            let val = entries[i].1.duplicate();
            out.push((key, val));
            proof {
                assert(out.deep_view() =~= spec_unknown_entries(dv.take(i as int + 1), known));
            }
        } else {
            proof {
                assert(out.deep_view() =~= spec_unknown_entries(dv.take(i as int + 1), known));
            }
        }
        i += 1;
    }
    proof {
        assert(dv.take(entries@.len() as int) =~= dv);
    }
    out
}

/// The envelope of the `/resource/{resource_id}/` route.
///
/// Every known field is independently optional; every other top-level
/// key is kept verbatim in `additional`.
#[derive(Debug)]
pub struct ResourceResponse {
    /// Views available for this record, kept as raw JSON.
    pub views: Option<ItemOrArray<JsonValue>>,
    /// When the record was indexed.
    pub timestamp: Option<NumberOrString>,
    /// Locations associated with the record.
    pub locations: Option<ItemOrArray<String>>,
    /// The URL of the full-text service.
    pub fulltext_service: Option<StringOrArray>,
    /// Information about the next issue.
    pub next_issue: Option<StringOrArray>,
    /// The URL of newspaper holdings.
    pub newspaper_holdings_url: Option<StringOrArray>,
    /// The URL of the title page.
    pub title_url: Option<StringOrArray>,
    /// Pages associated with the record.
    pub page: Option<ItemOrArray<Page>>,
    /// Pagination details.
    pub pagination: Option<ItemOrArray<Pagination>>,
    /// The resource section of the record.
    pub resource: Option<ItemOrArray<ResourceDetail>>,
    /// Citation renderings in the common styles.
    pub cite_this: Option<ItemOrArray<CiteThis>>,
    /// A calendar URL related to the record.
    pub calendar_url: Option<StringOrArray>,
    /// Information about the previous issue.
    pub previous_issue: Option<StringOrArray>,
    /// Segments within the resource.
    pub segments: Option<ItemOrArray<Segment>>,
    /// Items related to this record.
    pub related_items: Option<ItemOrArray<RelatedItem>>,
    /// Query details for word coordinates, kept as raw JSON.
    pub word_coordinates_query: Option<ItemOrArray<JsonValue>>,
    /// Recommendations similar to this record.
    pub more_like_this: Option<ItemOrArray<MoreLikeThis>>,
    /// Articles and essays related to the record.
    pub articles_and_essays: Option<ItemOrArray<String>>,
    /// Traditional knowledge labels of the record.
    pub traditional_knowledge_labels: Option<ItemOrArray<String>>,
    /// The detailed bibliographic record.
    pub item: Option<ItemOrArray<ItemAttribute>>,
    /// Word coordinates on pages, kept as raw JSON.
    pub word_coordinates_pages: Option<ItemOrArray<JsonValue>>,
    /// The type of the response.
    pub type_field: Option<StringOrArray>,
    /// Additional options or metadata, kept as raw JSON.
    pub options: Option<ItemOrArray<JsonValue>>,
    /// The resources associated with the record.
    pub resources: Option<ItemOrArray<ResourceObject>>,
    /// Any other entries of the object, kept verbatim.
    pub additional: Vec<(String, JsonValue)>,
}

/// The shape of a [`ResourceResponse`].
pub struct ResourceResponseView {
    /// Views available for this record, kept as raw JSON.
    pub views: Option<ItemOrArrayView<JsonView>>,
    /// When the record was indexed.
    pub timestamp: Option<NumberOrStringView>,
    /// Locations associated with the record.
    pub locations: Option<ItemOrArrayView<Seq<char>>>,
    /// The URL of the full-text service.
    pub fulltext_service: Option<StringOrArrayView>,
    /// Information about the next issue.
    pub next_issue: Option<StringOrArrayView>,
    /// The URL of newspaper holdings.
    pub newspaper_holdings_url: Option<StringOrArrayView>,
    /// The URL of the title page.
    pub title_url: Option<StringOrArrayView>,
    /// Pages associated with the record.
    pub page: Option<ItemOrArrayView<PageView>>,
    /// Pagination details.
    pub pagination: Option<ItemOrArrayView<PaginationView>>,
    /// The resource section of the record.
    pub resource: Option<ItemOrArrayView<ResourceDetailView>>,
    /// Citation renderings in the common styles.
    pub cite_this: Option<ItemOrArrayView<CiteThisView>>,
    /// A calendar URL related to the record.
    pub calendar_url: Option<StringOrArrayView>,
    /// Information about the previous issue.
    pub previous_issue: Option<StringOrArrayView>,
    /// Segments within the resource.
    pub segments: Option<ItemOrArrayView<SegmentView>>,
    /// Items related to this record.
    pub related_items: Option<ItemOrArrayView<RelatedItemView>>,
    /// Query details for word coordinates, kept as raw JSON.
    pub word_coordinates_query: Option<ItemOrArrayView<JsonView>>,
    /// Recommendations similar to this record.
    pub more_like_this: Option<ItemOrArrayView<MoreLikeThisView>>,
    /// Articles and essays related to the record.
    pub articles_and_essays: Option<ItemOrArrayView<Seq<char>>>,
    /// Traditional knowledge labels of the record.
    pub traditional_knowledge_labels: Option<ItemOrArrayView<Seq<char>>>,
    /// The detailed bibliographic record.
    pub item: Option<ItemOrArrayView<ItemAttributeView>>,
    /// Word coordinates on pages, kept as raw JSON.
    pub word_coordinates_pages: Option<ItemOrArrayView<JsonView>>,
    /// The type of the response.
    pub type_field: Option<StringOrArrayView>,
    /// Additional options or metadata, kept as raw JSON.
    pub options: Option<ItemOrArrayView<JsonView>>,
    /// The resources associated with the record.
    pub resources: Option<ItemOrArrayView<ResourceObjectView>>,
    /// Any other entries of the object, kept verbatim.
    pub additional: Seq<(Seq<char>, JsonView)>,
}

impl DeepView for ResourceResponse {
    type V = ResourceResponseView;

    open spec fn deep_view(&self) -> ResourceResponseView {
        ResourceResponseView {
            views: self.views.deep_view(),
            timestamp: self.timestamp.deep_view(),
            locations: self.locations.deep_view(),
            fulltext_service: self.fulltext_service.deep_view(),
            next_issue: self.next_issue.deep_view(),
            newspaper_holdings_url: self.newspaper_holdings_url.deep_view(),
            title_url: self.title_url.deep_view(),
            page: self.page.deep_view(),
            pagination: self.pagination.deep_view(),
            resource: self.resource.deep_view(),
            cite_this: self.cite_this.deep_view(),
            calendar_url: self.calendar_url.deep_view(),
            previous_issue: self.previous_issue.deep_view(),
            segments: self.segments.deep_view(),
            related_items: self.related_items.deep_view(),
            word_coordinates_query: self.word_coordinates_query.deep_view(),
            more_like_this: self.more_like_this.deep_view(),
            articles_and_essays: self.articles_and_essays.deep_view(),
            traditional_knowledge_labels: self.traditional_knowledge_labels.deep_view(),
            item: self.item.deep_view(),
            word_coordinates_pages: self.word_coordinates_pages.deep_view(),
            type_field: self.type_field.deep_view(),
            options: self.options.deep_view(),
            resources: self.resources.deep_view(),
            additional: self.additional.deep_view(),
        }
    }
}

/// How a [`ResourceResponse`] decodes from an object's entries.
pub open spec fn spec_decode_resource_response(v: JsonView) -> Result<ResourceResponseView, DecodeError> {
    match v {
        JsonView::Object(es) => {
            let views = spec_decode_field(
                |x: JsonView| spec_decode_raw_item(x),
                es,
                "views"@,
            );
            let timestamp = spec_decode_field(
                |x: JsonView| spec_decode_number_or_string(x),
                es,
                "timestamp"@,
            );
            let locations = spec_decode_field(
                |x: JsonView| spec_decode_item_or_array(|y: JsonView| spec_decode_text(y), x),
                es,
                "locations"@,
            );
            let fulltext_service = spec_decode_field(
                |x: JsonView| spec_decode_string_or_array(x),
                es,
                "fulltext_service"@,
            );
            let next_issue = spec_decode_field(
                |x: JsonView| spec_decode_string_or_array(x),
                es,
                "next_issue"@,
            );
            let newspaper_holdings_url = spec_decode_field(
                |x: JsonView| spec_decode_string_or_array(x),
                es,
                "newspaper_holdings_url"@,
            );
            let title_url = spec_decode_field(
                |x: JsonView| spec_decode_string_or_array(x),
                es,
                "title_url"@,
            );
            let page = spec_decode_field(
                |x: JsonView| spec_decode_item_or_array(|y: JsonView| spec_decode_page_record(y), x),
                es,
                "page"@,
            );
            let pagination = spec_decode_field(
                |x: JsonView| spec_decode_item_or_array(|y: JsonView| spec_decode_pagination(y), x),
                es,
                "pagination"@,
            );
            let resource = spec_decode_field(
                |x: JsonView| spec_decode_item_or_array(|y: JsonView| spec_decode_resource_detail(y), x),
                es,
                "resource"@,
            );
            let cite_this = spec_decode_field(
                |x: JsonView| spec_decode_item_or_array(|y: JsonView| spec_decode_cite_this(y), x),
                es,
                "cite_this"@,
            );
            let calendar_url = spec_decode_field(
                |x: JsonView| spec_decode_string_or_array(x),
                es,
                "calendar_url"@,
            );
            let previous_issue = spec_decode_field(
                |x: JsonView| spec_decode_string_or_array(x),
                es,
                "previous_issue"@,
            );
            let segments = spec_decode_field(
                |x: JsonView| spec_decode_item_or_array(|y: JsonView| spec_decode_segment(y), x),
                es,
                "segments"@,
            );
            let related_items = spec_decode_field(
                |x: JsonView| spec_decode_item_or_array(|y: JsonView| spec_decode_related_item(y), x),
                es,
                "related_items"@,
            );
            let word_coordinates_query = spec_decode_field(
                |x: JsonView| spec_decode_raw_item(x),
                es,
                "word_coordinates_query"@,
            );
            let more_like_this = spec_decode_field(
                |x: JsonView| spec_decode_item_or_array(|y: JsonView| spec_decode_more_like_this(y), x),
                es,
                "more_like_this"@,
            );
            let articles_and_essays = spec_decode_field(
                |x: JsonView| spec_decode_item_or_array(|y: JsonView| spec_decode_text(y), x),
                es,
                "articles_and_essays"@,
            );
            let traditional_knowledge_labels = spec_decode_field(
                |x: JsonView| spec_decode_item_or_array(|y: JsonView| spec_decode_text(y), x),
                es,
                "traditional_knowledge_labels"@,
            );
            let item_v = spec_decode_field(
                |x: JsonView| spec_decode_item_or_array(|y: JsonView| spec_decode_item_attribute(y), x),
                es,
                "item"@,
            );
            let word_coordinates_pages = spec_decode_field(
                |x: JsonView| spec_decode_raw_item(x),
                es,
                "word_coordinates_pages"@,
            );
            let type_field = spec_decode_field(
                |x: JsonView| spec_decode_string_or_array(x),
                es,
                "type_field"@,
            );
            let options = spec_decode_field(
                |x: JsonView| spec_decode_raw_item(x),
                es,
                "options"@,
            );
            let resources = spec_decode_field(
                |x: JsonView| spec_decode_item_or_array(|y: JsonView| spec_decode_resource_object(y), x),
                es,
                "resources"@,
            );
            if views is Ok && timestamp is Ok && locations is Ok && fulltext_service is Ok && next_issue is Ok && newspaper_holdings_url is Ok && title_url is Ok && page is Ok && pagination is Ok && resource is Ok && cite_this is Ok && calendar_url is Ok && previous_issue is Ok && segments is Ok && related_items is Ok && word_coordinates_query is Ok && more_like_this is Ok && articles_and_essays is Ok && traditional_knowledge_labels is Ok && item_v is Ok && word_coordinates_pages is Ok && type_field is Ok && options is Ok && resources is Ok {
                Ok(
                    ResourceResponseView {
                        views: views->Ok_0,
                        timestamp: timestamp->Ok_0,
                        locations: locations->Ok_0,
                        fulltext_service: fulltext_service->Ok_0,
                        next_issue: next_issue->Ok_0,
                        newspaper_holdings_url: newspaper_holdings_url->Ok_0,
                        title_url: title_url->Ok_0,
                        page: page->Ok_0,
                        pagination: pagination->Ok_0,
                        resource: resource->Ok_0,
                        cite_this: cite_this->Ok_0,
                        calendar_url: calendar_url->Ok_0,
                        previous_issue: previous_issue->Ok_0,
                        segments: segments->Ok_0,
                        related_items: related_items->Ok_0,
                        word_coordinates_query: word_coordinates_query->Ok_0,
                        more_like_this: more_like_this->Ok_0,
                        articles_and_essays: articles_and_essays->Ok_0,
                        traditional_knowledge_labels: traditional_knowledge_labels->Ok_0,
                        item: item_v->Ok_0,
                        word_coordinates_pages: word_coordinates_pages->Ok_0,
                        type_field: type_field->Ok_0,
                        options: options->Ok_0,
                        resources: resources->Ok_0,
                        additional: spec_unknown_entries(es, |k: Seq<char>| spec_resource_response_known(k)),
                    },
                )
            } else {
                Err(DecodeError::WrongShape)
            }
        },
        _ => Err(DecodeError::WrongShape),
    }
}

impl ResourceResponse {
    /// Decodes this record from a JSON object, keeping unknown keys.
    #[verifier::rlimit(100)]
    pub fn from_json(v: &JsonValue) -> (r: Result<ResourceResponse, DecodeError>)
        ensures
            view_result(r) == spec_decode_resource_response(v.deep_view()),
    {
        let entries = match v {
            JsonValue::Object(es) => es,
            _ => {
                return Err(DecodeError::WrongShape);
            },
        };
        proof {
            assert(json_view(*v)->Object_0 =~= entries.deep_view());
        }
        let views = match field_raw_item(entries, "views") {
            Ok(x) => x,
            Err(e) => {
                return Err(e);
            },
        };
        let timestamp = match field_number_or_string(entries, "timestamp") {
            Ok(x) => x,
            Err(e) => {
                return Err(e);
            },
        };
        let locations = match field_texts(entries, "locations") {
            Ok(x) => x,
            Err(e) => {
                return Err(e);
            },
        };
        let fulltext_service = match field_string_or_array(entries, "fulltext_service") {
            Ok(x) => x,
            Err(e) => {
                return Err(e);
            },
        };
        let next_issue = match field_string_or_array(entries, "next_issue") {
            Ok(x) => x,
            Err(e) => {
                return Err(e);
            },
        };
        let newspaper_holdings_url = match field_string_or_array(entries, "newspaper_holdings_url") {
            Ok(x) => x,
            Err(e) => {
                return Err(e);
            },
        };
        let title_url = match field_string_or_array(entries, "title_url") {
            Ok(x) => x,
            Err(e) => {
                return Err(e);
            },
        };
        let page = match field_page_records(entries, "page") {
            Ok(x) => x,
            Err(e) => {
                return Err(e);
            },
        };
        let pagination = match field_paginations(entries, "pagination") {
            Ok(x) => x,
            Err(e) => {
                return Err(e);
            },
        };
        let resource = match field_resource_details(entries, "resource") {
            Ok(x) => x,
            Err(e) => {
                return Err(e);
            },
        };
        let cite_this = match field_cite_items(entries, "cite_this") {
            Ok(x) => x,
            Err(e) => {
                return Err(e);
            },
        };
        let calendar_url = match field_string_or_array(entries, "calendar_url") {
            Ok(x) => x,
            Err(e) => {
                return Err(e);
            },
        };
        let previous_issue = match field_string_or_array(entries, "previous_issue") {
            Ok(x) => x,
            Err(e) => {
                return Err(e);
            },
        };
        let segments = match field_segments(entries, "segments") {
            Ok(x) => x,
            Err(e) => {
                return Err(e);
            },
        };
        let related_items = match field_related_items(entries, "related_items") {
            Ok(x) => x,
            Err(e) => {
                return Err(e);
            },
        };
        let word_coordinates_query = match field_raw_item(entries, "word_coordinates_query") {
            Ok(x) => x,
            Err(e) => {
                return Err(e);
            },
        };
        let more_like_this = match field_more_like_this_items(entries, "more_like_this") {
            Ok(x) => x,
            Err(e) => {
                return Err(e);
            },
        };
        let articles_and_essays = match field_texts(entries, "articles_and_essays") {
            Ok(x) => x,
            Err(e) => {
                return Err(e);
            },
        };
        let traditional_knowledge_labels = match field_texts(entries, "traditional_knowledge_labels") {
            Ok(x) => x,
            Err(e) => {
                return Err(e);
            },
        };
        let item_v = match field_item_attributes(entries, "item") {
            Ok(x) => x,
            Err(e) => {
                return Err(e);
            },
        };
        let word_coordinates_pages = match field_raw_item(entries, "word_coordinates_pages") {
            Ok(x) => x,
            Err(e) => {
                return Err(e);
            },
        };
        let type_field = match field_string_or_array(entries, "type_field") {
            Ok(x) => x,
            Err(e) => {
                return Err(e);
            },
        };
        let options = match field_raw_item(entries, "options") {
            Ok(x) => x,
            Err(e) => {
                return Err(e);
            },
        };
        let resources = match field_resource_objects(entries, "resources") {
            Ok(x) => x,
            Err(e) => {
                return Err(e);
            },
        };
        let additional = resource_response_unknown_entries(entries);
        Ok(
            ResourceResponse {
                views,
                timestamp,
                locations,
                fulltext_service,
                next_issue,
                newspaper_holdings_url,
                title_url,
                page,
                pagination,
                resource,
                cite_this,
                calendar_url,
                previous_issue,
                segments,
                related_items,
                word_coordinates_query,
                more_like_this,
                articles_and_essays,
                traditional_knowledge_labels,
                item: item_v,
                word_coordinates_pages,
                type_field,
                options,
                resources,
                additional,
            },
        )
    }
}


} // verus!
