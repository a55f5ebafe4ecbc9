//! The response envelopes of the routes, and the records inside them.
//!
//! Each route has one top-level response shape: the known, documented
//! fields are independently optional, and every unrecognized top-level key
//! is captured verbatim in a catch-all bag, so the client survives the
//! upstream schema growing new fields.

use vstd::prelude::*;
use crate::errors::DecodeError;
use crate::json::json_view;
use crate::json::lookup;
use crate::json::spec_unknown_entries;
use crate::json::JsonValue;
use crate::json::JsonView;
use crate::response_models::field_bool_or_string;
use crate::response_models::field_number_or_string;
use crate::response_models::field_string_or_array;
use crate::response_models::field_texts;
use crate::response_models::spec_decode_bool_or_string;
use crate::response_models::spec_decode_facet_res;
use crate::response_models::spec_decode_field;
use crate::response_models::spec_decode_item_or_array;
use crate::response_models::spec_decode_number_or_string;
use crate::response_models::spec_decode_pagination;
use crate::response_models::spec_decode_string_or_array;
use crate::response_models::spec_decode_text;
use crate::response_models::view_result;
use crate::response_models::BoolOrString;
use crate::response_models::BoolOrStringView;
use crate::response_models::FacetRes;
use crate::response_models::FacetResView;
use crate::response_models::ItemOrArray;
use crate::response_models::ItemOrArrayView;
use crate::response_models::NumberOrString;
use crate::response_models::NumberOrStringView;
use crate::response_models::Pagination;
use crate::response_models::PaginationView;
use crate::response_models::StringOrArray;
use crate::response_models::StringOrArrayView;
use crate::text::str_eq;

verus! {

/// Whether a key is one of the known keys of an [`ItemSummary`].
pub open spec fn spec_item_summary_known(k: Seq<char>) -> bool {
    k == "call_number"@
        || k == "contributor_names"@
        || k == "created_published"@
        || k == "date_issued"@
        || k == "digitized_label"@
        || k == "genre"@
        || k == "language"@
        || k == "location"@
        || k == "medium"@
        || k == "other_title"@
        || k == "publication_frequency"@
        || k == "score"@
        || k == "subject_headings"@
        || k == "subjects"@
        || k == "summary"@
        || k == "title"@
}

fn is_item_summary_key(k: &str) -> (r: bool)
    ensures
        r == spec_item_summary_known(k@),
{
    str_eq(k, "call_number")
        || str_eq(k, "contributor_names")
        || str_eq(k, "created_published")
        || str_eq(k, "date_issued")
        || str_eq(k, "digitized_label")
        || str_eq(k, "genre")
        || str_eq(k, "language")
        || str_eq(k, "location")
        || str_eq(k, "medium")
        || str_eq(k, "other_title")
        || str_eq(k, "publication_frequency")
        || str_eq(k, "score")
        || str_eq(k, "subject_headings")
        || str_eq(k, "subjects")
        || str_eq(k, "summary")
        || str_eq(k, "title")
}

fn item_summary_unknown_entries(entries: &Vec<(String, JsonValue)>) -> (r: Vec<(String, JsonValue)>)
    ensures
        r.deep_view() == spec_unknown_entries(
            entries.deep_view(),
            |k: Seq<char>| spec_item_summary_known(k),
        ),
{
    let ghost known = |k: Seq<char>| spec_item_summary_known(k);
    let ghost dv = entries.deep_view();
    let mut out: Vec<(String, JsonValue)> = Vec::new();
    proof {
        assert(out.deep_view() =~= spec_unknown_entries(dv.take(0), known));
    }
    let mut i: usize = 0;
    while i < entries.len()
        invariant
            known == (|k: Seq<char>| spec_item_summary_known(k)),
            dv == entries.deep_view(),
            dv.len() == entries@.len(),
            i <= entries@.len(),
            out.deep_view() == spec_unknown_entries(dv.take(i as int), known),
        decreases entries@.len() - i,
    {
        proof {
            assert(dv[i as int] == (entries@[i as int].0@, json_view(entries@[i as int].1)));
            assert(dv.take(i as int + 1).drop_last() =~= dv.take(i as int));
            assert(dv.take(i as int + 1).last() == dv[i as int]);
            assert(known(entries@[i as int].0@) == spec_item_summary_known(entries@[i as int].0@));
        }
        if !is_item_summary_key(entries[i].0.as_str()) {
            let key = entries[i].0.clone();
            let val = entries[i].1.duplicate();
            out.push((key, val));
            proof {
                assert(out.deep_view() =~= spec_unknown_entries(dv.take(i as int + 1), known));
            }
        } else {
            proof {
                assert(out.deep_view() =~= spec_unknown_entries(dv.take(i as int + 1), known));
            }
        }
        i += 1;
    }
    proof {
        assert(dv.take(entries@.len() as int) =~= dv);
    }
    out
}

/// The summary information of one item in the search results.
///
/// Every known field is independently optional; every other top-level
/// key is kept verbatim in `additional`, so a schema the server grows
/// tomorrow is carried through rather than dropped.
#[derive(Debug)]
pub struct ItemSummary {
    /// Call numbers associated with the item.
    pub call_number: Option<ItemOrArray<String>>,
    /// Names of contributors to the item.
    pub contributor_names: Option<ItemOrArray<String>>,
    /// Where the item was created or published.
    pub created_published: Option<ItemOrArray<String>>,
    /// The date the item was issued.
    pub date_issued: Option<StringOrArray>,
    /// A label saying whether the item has been digitized.
    pub digitized_label: Option<StringOrArray>,
    /// Genres associated with the item.
    pub genre: Option<ItemOrArray<String>>,
    /// Languages associated with the item.
    pub language: Option<ItemOrArray<String>>,
    /// Locations related to the item.
    pub location: Option<ItemOrArray<String>>,
    /// The medium of the item.
    pub medium: Option<StringOrArray>,
    /// Alternative titles of the item.
    pub other_title: Option<ItemOrArray<String>>,
    /// Publication frequency details.
    pub publication_frequency: Option<ItemOrArray<String>>,
    /// The relevance score of the item in search results.
    pub score: Option<NumberOrString>,
    /// Subject headings associated with the item.
    pub subject_headings: Option<ItemOrArray<String>>,
    /// Subjects associated with the item.
    pub subjects: Option<ItemOrArray<String>>,
    /// Summary descriptions of the item.
    pub summary: Option<StringOrArray>,
    /// The title of the item.
    pub title: Option<StringOrArray>,
    /// Any other top-level entries, kept verbatim.
    pub additional: Vec<(String, JsonValue)>,
}

/// The shape of an [`ItemSummary`].
pub struct ItemSummaryView {
    /// Call numbers associated with the item.
    pub call_number: Option<ItemOrArrayView<Seq<char>>>,
    /// Names of contributors to the item.
    pub contributor_names: Option<ItemOrArrayView<Seq<char>>>,
    /// Where the item was created or published.
    pub created_published: Option<ItemOrArrayView<Seq<char>>>,
    /// The date the item was issued.
    pub date_issued: Option<StringOrArrayView>,
    /// A label saying whether the item has been digitized.
    pub digitized_label: Option<StringOrArrayView>,
    /// Genres associated with the item.
    pub genre: Option<ItemOrArrayView<Seq<char>>>,
    /// Languages associated with the item.
    pub language: Option<ItemOrArrayView<Seq<char>>>,
    /// Locations related to the item.
    pub location: Option<ItemOrArrayView<Seq<char>>>,
    /// The medium of the item.
    pub medium: Option<StringOrArrayView>,
    /// Alternative titles of the item.
    pub other_title: Option<ItemOrArrayView<Seq<char>>>,
    /// Publication frequency details.
    pub publication_frequency: Option<ItemOrArrayView<Seq<char>>>,
    /// The relevance score of the item in search results.
    pub score: Option<NumberOrStringView>,
    /// Subject headings associated with the item.
    pub subject_headings: Option<ItemOrArrayView<Seq<char>>>,
    /// Subjects associated with the item.
    pub subjects: Option<ItemOrArrayView<Seq<char>>>,
    /// Summary descriptions of the item.
    pub summary: Option<StringOrArrayView>,
    /// The title of the item.
    pub title: Option<StringOrArrayView>,
    /// Any other top-level entries, kept verbatim.
    pub additional: Seq<(Seq<char>, JsonView)>,
}

impl DeepView for ItemSummary {
    type V = ItemSummaryView;

    open spec fn deep_view(&self) -> ItemSummaryView {
        ItemSummaryView {
            call_number: self.call_number.deep_view(),
            contributor_names: self.contributor_names.deep_view(),
            created_published: self.created_published.deep_view(),
            date_issued: self.date_issued.deep_view(),
            digitized_label: self.digitized_label.deep_view(),
            genre: self.genre.deep_view(),
            language: self.language.deep_view(),
            location: self.location.deep_view(),
            medium: self.medium.deep_view(),
            other_title: self.other_title.deep_view(),
            publication_frequency: self.publication_frequency.deep_view(),
            score: self.score.deep_view(),
            subject_headings: self.subject_headings.deep_view(),
            subjects: self.subjects.deep_view(),
            summary: self.summary.deep_view(),
            title: self.title.deep_view(),
            additional: self.additional.deep_view(),
        }
    }
}

/// How an [`ItemSummary`] decodes from an object's entries.
pub open spec fn spec_decode_item_summary(v: JsonView) -> Result<ItemSummaryView, DecodeError> {
    match v {
        JsonView::Object(es) => {
            let call_number = spec_decode_field(
                |x: JsonView| spec_decode_item_or_array(|y: JsonView| spec_decode_text(y), x),
                es,
                "call_number"@,
            );
            let contributor_names = spec_decode_field(
                |x: JsonView| spec_decode_item_or_array(|y: JsonView| spec_decode_text(y), x),
                es,
                "contributor_names"@,
            );
            let created_published = spec_decode_field(
                |x: JsonView| spec_decode_item_or_array(|y: JsonView| spec_decode_text(y), x),
                es,
                "created_published"@,
            );
            let date_issued = spec_decode_field(
                |x: JsonView| spec_decode_string_or_array(x),
                es,
                "date_issued"@,
            );
            let digitized_label = spec_decode_field(
                |x: JsonView| spec_decode_string_or_array(x),
                es,
                "digitized_label"@,
            );
            let genre = spec_decode_field(
                |x: JsonView| spec_decode_item_or_array(|y: JsonView| spec_decode_text(y), x),
                es,
                "genre"@,
            );
            let language = spec_decode_field(
                |x: JsonView| spec_decode_item_or_array(|y: JsonView| spec_decode_text(y), x),
                es,
                "language"@,
            );
            let location = spec_decode_field(
                |x: JsonView| spec_decode_item_or_array(|y: JsonView| spec_decode_text(y), x),
                es,
                "location"@,
            );
            let medium = spec_decode_field(
                |x: JsonView| spec_decode_string_or_array(x),
                es,
                "medium"@,
            );
            let other_title = spec_decode_field(
                |x: JsonView| spec_decode_item_or_array(|y: JsonView| spec_decode_text(y), x),
                es,
                "other_title"@,
            );
            let publication_frequency = spec_decode_field(
                |x: JsonView| spec_decode_item_or_array(|y: JsonView| spec_decode_text(y), x),
                es,
                "publication_frequency"@,
            );
            let score = spec_decode_field(
                |x: JsonView| spec_decode_number_or_string(x),
                es,
                "score"@,
            );
            let subject_headings = spec_decode_field(
                |x: JsonView| spec_decode_item_or_array(|y: JsonView| spec_decode_text(y), x),
                es,
                "subject_headings"@,
            );
            let subjects = spec_decode_field(
                |x: JsonView| spec_decode_item_or_array(|y: JsonView| spec_decode_text(y), x),
                es,
                "subjects"@,
            );
            let summary = spec_decode_field(
                |x: JsonView| spec_decode_string_or_array(x),
                es,
                "summary"@,
            );
            let title = spec_decode_field(
                |x: JsonView| spec_decode_string_or_array(x),
                es,
                "title"@,
            );
            if call_number is Ok && contributor_names is Ok && created_published is Ok && date_issued is Ok && digitized_label is Ok && genre is Ok && language is Ok && location is Ok && medium is Ok && other_title is Ok && publication_frequency is Ok && score is Ok && subject_headings is Ok && subjects is Ok && summary is Ok && title is Ok {
                Ok(
                    ItemSummaryView {
                        call_number: call_number->Ok_0,
                        contributor_names: contributor_names->Ok_0,
                        created_published: created_published->Ok_0,
                        date_issued: date_issued->Ok_0,
                        digitized_label: digitized_label->Ok_0,
                        genre: genre->Ok_0,
                        language: language->Ok_0,
                        location: location->Ok_0,
                        medium: medium->Ok_0,
                        other_title: other_title->Ok_0,
                        publication_frequency: publication_frequency->Ok_0,
                        score: score->Ok_0,
                        subject_headings: subject_headings->Ok_0,
                        subjects: subjects->Ok_0,
                        summary: summary->Ok_0,
                        title: title->Ok_0,
                        additional: spec_unknown_entries(es, |k: Seq<char>| spec_item_summary_known(k)),
                    },
                )
            } else {
                Err(DecodeError::WrongShape)
            }
        },
        _ => Err(DecodeError::WrongShape),
    }
}

impl ItemSummary {
    /// Decodes this record from a JSON object, keeping unknown keys.
    #[verifier::rlimit(40)]
    pub fn from_json(v: &JsonValue) -> (r: Result<ItemSummary, DecodeError>)
        ensures
            view_result(r) == spec_decode_item_summary(v.deep_view()),
    {
        let entries = match v {
            JsonValue::Object(es) => es,
            _ => {
                return Err(DecodeError::WrongShape);
            },
        };
        proof {
            assert(json_view(*v)->Object_0 =~= entries.deep_view());
        }
        let call_number = match field_texts(entries, "call_number") {
            Ok(x) => x,
            Err(e) => {
                return Err(e);
            },
        };
        let contributor_names = match field_texts(entries, "contributor_names") {
            Ok(x) => x,
            Err(e) => {
                return Err(e);
            },
        };
        let created_published = match field_texts(entries, "created_published") {
            Ok(x) => x,
            Err(e) => {
                return Err(e);
            },
        };
        let date_issued = match field_string_or_array(entries, "date_issued") {
            Ok(x) => x,
            Err(e) => {
                return Err(e);
            },
        };
        let digitized_label = match field_string_or_array(entries, "digitized_label") {
            Ok(x) => x,
            Err(e) => {
                return Err(e);
            },
        };
        let genre = match field_texts(entries, "genre") {
            Ok(x) => x,
            Err(e) => {
                return Err(e);
            },
        };
        let language = match field_texts(entries, "language") {
            Ok(x) => x,
            Err(e) => {
                return Err(e);
            },
        };
        let location = match field_texts(entries, "location") {
            Ok(x) => x,
            Err(e) => {
                return Err(e);
            },
        };
        let medium = match field_string_or_array(entries, "medium") {
            Ok(x) => x,
            Err(e) => {
                return Err(e);
            },
        };
        let other_title = match field_texts(entries, "other_title") {
            Ok(x) => x,
            Err(e) => {
                return Err(e);
            },
        };
        let publication_frequency = match field_texts(entries, "publication_frequency") {
            Ok(x) => x,
            Err(e) => {
                return Err(e);
            },
        };
        let score = match field_number_or_string(entries, "score") {
            Ok(x) => x,
            Err(e) => {
                return Err(e);
            },
        };
        let subject_headings = match field_texts(entries, "subject_headings") {
            Ok(x) => x,
            Err(e) => {
                return Err(e);
            },
        };
        let subjects = match field_texts(entries, "subjects") {
            Ok(x) => x,
            Err(e) => {
                return Err(e);
            },
        };
        let summary = match field_string_or_array(entries, "summary") {
            Ok(x) => x,
            Err(e) => {
                return Err(e);
            },
        };
        let title = match field_string_or_array(entries, "title") {
            Ok(x) => x,
            Err(e) => {
                return Err(e);
            },
        };
        let additional = item_summary_unknown_entries(entries);
        Ok(
            ItemSummary {
                call_number,
                contributor_names,
                created_published,
                date_issued,
                digitized_label,
                genre,
                language,
                location,
                medium,
                other_title,
                publication_frequency,
                score,
                subject_headings,
                subjects,
                summary,
                title,
                additional,
            },
        )
    }
}

impl Default for ItemSummary {
    /// A record with every field absent and an empty bag.
    fn default() -> (r: Self)
        ensures
            r.call_number is None,
            r.contributor_names is None,
            r.created_published is None,
            r.date_issued is None,
            r.digitized_label is None,
            r.genre is None,
            r.language is None,
            r.location is None,
            r.medium is None,
            r.other_title is None,
            r.publication_frequency is None,
            r.score is None,
            r.subject_headings is None,
            r.subjects is None,
            r.summary is None,
            r.title is None,
            r.additional@.len() == 0,
    {
        ItemSummary {
            call_number: None,
            contributor_names: None,
            created_published: None,
            date_issued: None,
            digitized_label: None,
            genre: None,
            language: None,
            location: None,
            medium: None,
            other_title: None,
            publication_frequency: None,
            score: None,
            subject_headings: None,
            subjects: None,
            summary: None,
            title: None,
            additional: Vec::new(),
        }
    }
}

fn item_or_array_item_summaries_from_json(v: &JsonValue) -> (r: Result<
    ItemOrArray<ItemSummary>,
    DecodeError,
>)
    ensures
        view_result(r) == spec_decode_item_or_array(
            |x: JsonView| spec_decode_item_summary(x),
            v.deep_view(),
        ),
{
    let ghost elem = |x: JsonView| spec_decode_item_summary(x);
    match v {
        JsonValue::List(items) => {
            let ghost jitems = json_view(*v)->List_0;
            proof {
                assert(json_view(*v) == JsonView::List(jitems));
            }
            let mut out: Vec<ItemSummary> = Vec::new();
            let mut i: usize = 0;
            while i < items.len()
                invariant
                    elem == (|x: JsonView| spec_decode_item_summary(x)),
                    json_view(*v) == JsonView::List(jitems),
                    jitems == json_view(JsonValue::List(*items))->List_0,
                    jitems.len() == items@.len(),
                    i <= items@.len(),
                    forall|j: int| 0 <= j < i ==> (#[trigger] elem(jitems[j])) is Ok,
                    out@.len() == i,
                    forall|j: int| 0 <= j < i ==> out@[j].deep_view() == elem(jitems[j])->Ok_0,
                decreases items@.len() - i,
            {
                proof {
                    assert(jitems[i as int] == json_view(items@[i as int]));
                    assert(elem(jitems[i as int]) == spec_decode_item_summary(jitems[i as int]));
                }
                match ItemSummary::from_json(&items[i]) {
                    Ok(x) => {
                        out.push(x);
                    },
                    Err(e) => {
                        proof {
                            assert(!(forall|j: int|
                                0 <= j < jitems.len() ==> (#[trigger] elem(jitems[j])) is Ok))
                                by {
                                assert(0 <= i < jitems.len() && !(elem(jitems[i as int]) is Ok));
                            }
                        }
                        return Err(e);
                    },
                }
                i += 1;
            }
            proof {
                assert(out.deep_view() =~= Seq::new(jitems.len(), |j: int| elem(jitems[j])->Ok_0));
            }
            Ok(ItemOrArray::Array(out))
        },
        _ => {
            proof {
                assert(elem(v.deep_view()) == spec_decode_item_summary(v.deep_view()));
            }
            match ItemSummary::from_json(v) {
                Ok(x) => Ok(ItemOrArray::Item(x)),
                Err(e) => Err(e),
            }
        },
    }
}

fn field_item_summaries(entries: &Vec<(String, JsonValue)>, key: &str) -> (r: Result<
    Option<ItemOrArray<ItemSummary>>,
    DecodeError,
>)
    ensures
        view_result(r) == spec_decode_field(
            |x: JsonView| spec_decode_item_or_array(
                |y: JsonView| spec_decode_item_summary(y),
                x,
            ),
            entries.deep_view(),
            key@,
        ),
{
    let ghost elem = |x: JsonView| spec_decode_item_or_array(
        |y: JsonView| spec_decode_item_summary(y),
        x,
    );
    match lookup(entries, key) {
        None => Ok(None),
        Some(val) => match val {
            JsonValue::Null => Ok(None),
            _ => {
                proof {
                    assert(elem(val.deep_view()) == spec_decode_item_or_array(
                        |y: JsonView| spec_decode_item_summary(y),
                        val.deep_view(),
                    ));
                }
                match item_or_array_item_summaries_from_json(val) {
                    Ok(x) => Ok(Some(x)),
                    Err(e) => Err(e),
                }
            },
        },
    }
}

/// Whether a key is one of the known keys of a [`ResultItem`].
pub open spec fn spec_result_item_known(k: Seq<char>) -> bool {
    k == "access_restricted"@
        || k == "aka"@
        || k == "campaigns"@
        || k == "contributor"@
        || k == "date"@
        || k == "dates"@
        || k == "description"@
        || k == "digitized"@
        || k == "extract_timestamp"@
        || k == "group"@
        || k == "hassegments"@
        || k == "id"@
        || k == "image_url"@
        || k == "index"@
        || k == "item"@
        || k == "language"@
        || k == "location"@
        || k == "mime_type"@
        || k == "number_field"@
        || k == "online_format"@
        || k == "original_format"@
        || k == "other_title"@
        || k == "partof"@
        || k == "publication_frequency"@
        || k == "shelf_id"@
        || k == "site"@
        || k == "subject"@
        || k == "type_field"@
}

fn is_result_item_key(k: &str) -> (r: bool)
    ensures
        r == spec_result_item_known(k@),
{
    str_eq(k, "access_restricted")
        || str_eq(k, "aka")
        || str_eq(k, "campaigns")
        || str_eq(k, "contributor")
        || str_eq(k, "date")
        || str_eq(k, "dates")
        || str_eq(k, "description")
        || str_eq(k, "digitized")
        || str_eq(k, "extract_timestamp")
        || str_eq(k, "group")
        || str_eq(k, "hassegments")
        || str_eq(k, "id")
        || str_eq(k, "image_url")
        || str_eq(k, "index")
        || str_eq(k, "item")
        || str_eq(k, "language")
        || str_eq(k, "location")
        || str_eq(k, "mime_type")
        || str_eq(k, "number_field")
        || str_eq(k, "online_format")
        || str_eq(k, "original_format")
        || str_eq(k, "other_title")
        || str_eq(k, "partof")
        || str_eq(k, "publication_frequency")
        || str_eq(k, "shelf_id")
        || str_eq(k, "site")
        || str_eq(k, "subject")
        || str_eq(k, "type_field")
}

fn result_item_unknown_entries(entries: &Vec<(String, JsonValue)>) -> (r: Vec<(String, JsonValue)>)
    ensures
        r.deep_view() == spec_unknown_entries(
            entries.deep_view(),
            |k: Seq<char>| spec_result_item_known(k),
        ),
{
    let ghost known = |k: Seq<char>| spec_result_item_known(k);
    let ghost dv = entries.deep_view();
    let mut out: Vec<(String, JsonValue)> = Vec::new();
    proof {
        assert(out.deep_view() =~= spec_unknown_entries(dv.take(0), known));
    }
    let mut i: usize = 0;
    while i < entries.len()
        invariant
            known == (|k: Seq<char>| spec_result_item_known(k)),
            dv == entries.deep_view(),
            dv.len() == entries@.len(),
            i <= entries@.len(),
            out.deep_view() == spec_unknown_entries(dv.take(i as int), known),
        decreases entries@.len() - i,
    {
        proof {
            assert(dv[i as int] == (entries@[i as int].0@, json_view(entries@[i as int].1)));
            assert(dv.take(i as int + 1).drop_last() =~= dv.take(i as int));
            assert(dv.take(i as int + 1).last() == dv[i as int]);
            assert(known(entries@[i as int].0@) == spec_result_item_known(entries@[i as int].0@));
        }
        if !is_result_item_key(entries[i].0.as_str()) {
            let key = entries[i].0.clone();
            let val = entries[i].1.duplicate();
            out.push((key, val));
            proof {
                assert(out.deep_view() =~= spec_unknown_entries(dv.take(i as int + 1), known));
            }
        } else {
            proof {
                assert(out.deep_view() =~= spec_unknown_entries(dv.take(i as int + 1), known));
            }
        }
        i += 1;
    }
    proof {
        assert(dv.take(entries@.len() as int) =~= dv);
    }
    out
}

/// One item of a search-style result list.
///
/// Every known field is independently optional; every other top-level
/// key is kept verbatim in `additional`, so a schema the server grows
/// tomorrow is carried through rather than dropped.
#[derive(Debug)]
pub struct ResultItem {
    /// Whether access to the item is restricted.
    pub access_restricted: Option<BoolOrString>,
    /// Alternative identifiers of the item.
    pub aka: Option<ItemOrArray<String>>,
    /// Campaigns associated with the item.
    pub campaigns: Option<ItemOrArray<String>>,
    /// Contributors to the creation of the item.
    pub contributor: Option<ItemOrArray<String>>,
    /// The publication date of the item.
    pub date: Option<StringOrArray>,
    /// Dates related to the item.
    pub dates: Option<ItemOrArray<String>>,
    /// Descriptions of the item.
    pub description: Option<StringOrArray>,
    /// Whether the item has been digitized.
    pub digitized: Option<BoolOrString>,
    /// The timestamp of the latest extraction.
    pub extract_timestamp: Option<StringOrArray>,
    /// Groups associated with the item.
    pub group: Option<ItemOrArray<String>>,
    /// Whether the item has segmented data.
    pub hassegments: Option<BoolOrString>,
    /// The URL identifier of the item.
    pub id: Option<StringOrArray>,
    /// URLs of images associated with the item.
    pub image_url: Option<ItemOrArray<String>>,
    /// The index of the item in the results.
    pub index: Option<NumberOrString>,
    /// Summary information of the item.
    pub item: Option<ItemOrArray<ItemSummary>>,
    /// Languages associated with the item.
    pub language: Option<ItemOrArray<String>>,
    /// Locations related to the item.
    pub location: Option<ItemOrArray<String>>,
    /// MIME types available for the item.
    pub mime_type: Option<ItemOrArray<String>>,
    /// Numeric identifiers associated with the item.
    pub number_field: Option<ItemOrArray<String>>,
    /// Online formats available for the item.
    pub online_format: Option<ItemOrArray<String>>,
    /// Original formats of the item.
    pub original_format: Option<ItemOrArray<String>>,
    /// Alternative titles of the item.
    pub other_title: Option<ItemOrArray<String>>,
    /// Collections or divisions the item is part of.
    pub partof: Option<ItemOrArray<String>>,
    /// Publication frequency details.
    pub publication_frequency: Option<ItemOrArray<String>>,
    /// The shelf identifier used for sorting.
    pub shelf_id: Option<StringOrArray>,
    /// Sites associated with the item.
    pub site: Option<ItemOrArray<String>>,
    /// Subjects associated with the item.
    pub subject: Option<ItemOrArray<String>>,
    /// The type of the item.
    pub type_field: Option<StringOrArray>,
    /// Any other top-level entries, kept verbatim.
    pub additional: Vec<(String, JsonValue)>,
}

/// The shape of a [`ResultItem`].
pub struct ResultItemView {
    /// Whether access to the item is restricted.
    pub access_restricted: Option<BoolOrStringView>,
    /// Alternative identifiers of the item.
    pub aka: Option<ItemOrArrayView<Seq<char>>>,
    /// Campaigns associated with the item.
    pub campaigns: Option<ItemOrArrayView<Seq<char>>>,
    /// Contributors to the creation of the item.
    pub contributor: Option<ItemOrArrayView<Seq<char>>>,
    /// The publication date of the item.
    pub date: Option<StringOrArrayView>,
    /// Dates related to the item.
    pub dates: Option<ItemOrArrayView<Seq<char>>>,
    /// Descriptions of the item.
    pub description: Option<StringOrArrayView>,
    /// Whether the item has been digitized.
    pub digitized: Option<BoolOrStringView>,
    /// The timestamp of the latest extraction.
    pub extract_timestamp: Option<StringOrArrayView>,
    /// Groups associated with the item.
    pub group: Option<ItemOrArrayView<Seq<char>>>,
    /// Whether the item has segmented data.
    pub hassegments: Option<BoolOrStringView>,
    /// The URL identifier of the item.
    pub id: Option<StringOrArrayView>,
    /// URLs of images associated with the item.
    pub image_url: Option<ItemOrArrayView<Seq<char>>>,
    /// The index of the item in the results.
    pub index: Option<NumberOrStringView>,
    /// Summary information of the item.
    pub item: Option<ItemOrArrayView<ItemSummaryView>>,
    /// Languages associated with the item.
    pub language: Option<ItemOrArrayView<Seq<char>>>,
    /// Locations related to the item.
    pub location: Option<ItemOrArrayView<Seq<char>>>,
    /// MIME types available for the item.
    pub mime_type: Option<ItemOrArrayView<Seq<char>>>,
    /// Numeric identifiers associated with the item.
    pub number_field: Option<ItemOrArrayView<Seq<char>>>,
    /// Online formats available for the item.
    pub online_format: Option<ItemOrArrayView<Seq<char>>>,
    /// Original formats of the item.
    pub original_format: Option<ItemOrArrayView<Seq<char>>>,
    /// Alternative titles of the item.
    pub other_title: Option<ItemOrArrayView<Seq<char>>>,
    /// Collections or divisions the item is part of.
    pub partof: Option<ItemOrArrayView<Seq<char>>>,
    /// Publication frequency details.
    pub publication_frequency: Option<ItemOrArrayView<Seq<char>>>,
    /// The shelf identifier used for sorting.
    pub shelf_id: Option<StringOrArrayView>,
    /// Sites associated with the item.
    pub site: Option<ItemOrArrayView<Seq<char>>>,
    /// Subjects associated with the item.
    pub subject: Option<ItemOrArrayView<Seq<char>>>,
    /// The type of the item.
    pub type_field: Option<StringOrArrayView>,
    /// Any other top-level entries, kept verbatim.
    pub additional: Seq<(Seq<char>, JsonView)>,
}

impl DeepView for ResultItem {
    type V = ResultItemView;

    open spec fn deep_view(&self) -> ResultItemView {
        ResultItemView {
            access_restricted: self.access_restricted.deep_view(),
            aka: self.aka.deep_view(),
            campaigns: self.campaigns.deep_view(),
            contributor: self.contributor.deep_view(),
            date: self.date.deep_view(),
            dates: self.dates.deep_view(),
            description: self.description.deep_view(),
            digitized: self.digitized.deep_view(),
            extract_timestamp: self.extract_timestamp.deep_view(),
            group: self.group.deep_view(),
            hassegments: self.hassegments.deep_view(),
            id: self.id.deep_view(),
            image_url: self.image_url.deep_view(),
            index: self.index.deep_view(),
            item: self.item.deep_view(),
            language: self.language.deep_view(),
            location: self.location.deep_view(),
            mime_type: self.mime_type.deep_view(),
            number_field: self.number_field.deep_view(),
            online_format: self.online_format.deep_view(),
            original_format: self.original_format.deep_view(),
            other_title: self.other_title.deep_view(),
            partof: self.partof.deep_view(),
            publication_frequency: self.publication_frequency.deep_view(),
            shelf_id: self.shelf_id.deep_view(),
            site: self.site.deep_view(),
            subject: self.subject.deep_view(),
            type_field: self.type_field.deep_view(),
            additional: self.additional.deep_view(),
        }
    }
}

/// How a [`ResultItem`] decodes from an object's entries.
pub open spec fn spec_decode_result_item(v: JsonView) -> Result<ResultItemView, DecodeError> {
    match v {
        JsonView::Object(es) => {
            let access_restricted = spec_decode_field(
                |x: JsonView| spec_decode_bool_or_string(x),
                es,
                "access_restricted"@,
            );
            let aka = spec_decode_field(
                |x: JsonView| spec_decode_item_or_array(|y: JsonView| spec_decode_text(y), x),
                es,
                "aka"@,
            );
            let campaigns = spec_decode_field(
                |x: JsonView| spec_decode_item_or_array(|y: JsonView| spec_decode_text(y), x),
                es,
                "campaigns"@,
            );
            let contributor = spec_decode_field(
                |x: JsonView| spec_decode_item_or_array(|y: JsonView| spec_decode_text(y), x),
                es,
                "contributor"@,
            );
            let date = spec_decode_field(
                |x: JsonView| spec_decode_string_or_array(x),
                es,
                "date"@,
            );
            let dates = spec_decode_field(
                |x: JsonView| spec_decode_item_or_array(|y: JsonView| spec_decode_text(y), x),
                es,
                "dates"@,
            );
            let description = spec_decode_field(
                |x: JsonView| spec_decode_string_or_array(x),
                es,
                "description"@,
            );
            let digitized = spec_decode_field(
                |x: JsonView| spec_decode_bool_or_string(x),
                es,
                "digitized"@,
            );
            let extract_timestamp = spec_decode_field(
                |x: JsonView| spec_decode_string_or_array(x),
                es,
                "extract_timestamp"@,
            );
            let group = spec_decode_field(
                |x: JsonView| spec_decode_item_or_array(|y: JsonView| spec_decode_text(y), x),
                es,
                "group"@,
            );
            let hassegments = spec_decode_field(
                |x: JsonView| spec_decode_bool_or_string(x),
                es,
                "hassegments"@,
            );
            let id = spec_decode_field(
                |x: JsonView| spec_decode_string_or_array(x),
                es,
                "id"@,
            );
            let image_url = spec_decode_field(
                |x: JsonView| spec_decode_item_or_array(|y: JsonView| spec_decode_text(y), x),
                es,
                "image_url"@,
            );
            let index = spec_decode_field(
                |x: JsonView| spec_decode_number_or_string(x),
                es,
                "index"@,
            );
            let item_v = spec_decode_field(
                |x: JsonView| spec_decode_item_or_array(|y: JsonView| spec_decode_item_summary(y), x),
                es,
                "item"@,
            );
            let language = spec_decode_field(
                |x: JsonView| spec_decode_item_or_array(|y: JsonView| spec_decode_text(y), x),
                es,
                "language"@,
            );
            let location = spec_decode_field(
                |x: JsonView| spec_decode_item_or_array(|y: JsonView| spec_decode_text(y), x),
                es,
                "location"@,
            );
            let mime_type = spec_decode_field(
                |x: JsonView| spec_decode_item_or_array(|y: JsonView| spec_decode_text(y), x),
                es,
                "mime_type"@,
            );
            let number_field = spec_decode_field(
                |x: JsonView| spec_decode_item_or_array(|y: JsonView| spec_decode_text(y), x),
                es,
                "number_field"@,
            );
            let online_format = spec_decode_field(
                |x: JsonView| spec_decode_item_or_array(|y: JsonView| spec_decode_text(y), x),
                es,
                "online_format"@,
            );
            let original_format = spec_decode_field(
                |x: JsonView| spec_decode_item_or_array(|y: JsonView| spec_decode_text(y), x),
                es,
                "original_format"@,
            );
            let other_title = spec_decode_field(
                |x: JsonView| spec_decode_item_or_array(|y: JsonView| spec_decode_text(y), x),
                es,
                "other_title"@,
            );
            let partof = spec_decode_field(
                |x: JsonView| spec_decode_item_or_array(|y: JsonView| spec_decode_text(y), x),
                es,
                "partof"@,
            );
            let publication_frequency = spec_decode_field(
                |x: JsonView| spec_decode_item_or_array(|y: JsonView| spec_decode_text(y), x),
                es,
                "publication_frequency"@,
            );
            let shelf_id = spec_decode_field(
                |x: JsonView| spec_decode_string_or_array(x),
                es,
                "shelf_id"@,
            );
            let site = spec_decode_field(
                |x: JsonView| spec_decode_item_or_array(|y: JsonView| spec_decode_text(y), x),
                es,
                "site"@,
            );
            let subject = spec_decode_field(
                |x: JsonView| spec_decode_item_or_array(|y: JsonView| spec_decode_text(y), x),
                es,
                "subject"@,
            );
            let type_field = spec_decode_field(
                |x: JsonView| spec_decode_string_or_array(x),
                es,
                "type_field"@,
            );
            if access_restricted is Ok && aka is Ok && campaigns is Ok && contributor is Ok && date is Ok && dates is Ok && description is Ok && digitized is Ok && extract_timestamp is Ok && group is Ok && hassegments is Ok && id is Ok && image_url is Ok && index is Ok && item_v is Ok && language is Ok && location is Ok && mime_type is Ok && number_field is Ok && online_format is Ok && original_format is Ok && other_title is Ok && partof is Ok && publication_frequency is Ok && shelf_id is Ok && site is Ok && subject is Ok && type_field is Ok {
                Ok(
                    ResultItemView {
                        access_restricted: access_restricted->Ok_0,
                        aka: aka->Ok_0,
                        campaigns: campaigns->Ok_0,
                        contributor: contributor->Ok_0,
                        date: date->Ok_0,
                        dates: dates->Ok_0,
                        description: description->Ok_0,
                        digitized: digitized->Ok_0,
                        extract_timestamp: extract_timestamp->Ok_0,
                        group: group->Ok_0,
                        hassegments: hassegments->Ok_0,
                        id: id->Ok_0,
                        image_url: image_url->Ok_0,
                        index: index->Ok_0,
                        item: item_v->Ok_0,
                        language: language->Ok_0,
                        location: location->Ok_0,
                        mime_type: mime_type->Ok_0,
                        number_field: number_field->Ok_0,
                        online_format: online_format->Ok_0,
                        original_format: original_format->Ok_0,
                        other_title: other_title->Ok_0,
                        partof: partof->Ok_0,
                        publication_frequency: publication_frequency->Ok_0,
                        shelf_id: shelf_id->Ok_0,
                        site: site->Ok_0,
                        subject: subject->Ok_0,
                        type_field: type_field->Ok_0,
                        additional: spec_unknown_entries(es, |k: Seq<char>| spec_result_item_known(k)),
                    },
                )
            } else {
                Err(DecodeError::WrongShape)
            }
        },
        _ => Err(DecodeError::WrongShape),
    }
}

impl ResultItem {
    /// Decodes this record from a JSON object, keeping unknown keys.
    #[verifier::rlimit(80)]
    pub fn from_json(v: &JsonValue) -> (r: Result<ResultItem, DecodeError>)
        ensures
            view_result(r) == spec_decode_result_item(v.deep_view()),
    {
        let entries = match v {
            JsonValue::Object(es) => es,
            _ => {
                return Err(DecodeError::WrongShape);
            },
        };
        proof {
            assert(json_view(*v)->Object_0 =~= entries.deep_view());
        }
        let access_restricted = match field_bool_or_string(entries, "access_restricted") {
            Ok(x) => x,
            Err(e) => {
                return Err(e);
            },
        };
        let aka = match field_texts(entries, "aka") {
            Ok(x) => x,
            Err(e) => {
                return Err(e);
            },
        };
        let campaigns = match field_texts(entries, "campaigns") {
            Ok(x) => x,
            Err(e) => {
                return Err(e);
            },
        };
        let contributor = match field_texts(entries, "contributor") {
            Ok(x) => x,
            Err(e) => {
                return Err(e);
            },
        };
        let date = match field_string_or_array(entries, "date") {
            Ok(x) => x,
            Err(e) => {
                return Err(e);
            },
        };
        let dates = match field_texts(entries, "dates") {
            Ok(x) => x,
            Err(e) => {
                return Err(e);
            },
        };
        let description = match field_string_or_array(entries, "description") {
            Ok(x) => x,
            Err(e) => {
                return Err(e);
            },
        };
        let digitized = match field_bool_or_string(entries, "digitized") {
            Ok(x) => x,
            Err(e) => {
                return Err(e);
            },
        };
        let extract_timestamp = match field_string_or_array(entries, "extract_timestamp") {
            Ok(x) => x,
            Err(e) => {
                return Err(e);
            },
        };
        let group = match field_texts(entries, "group") {
            Ok(x) => x,
            Err(e) => {
                return Err(e);
            },
        };
        let hassegments = match field_bool_or_string(entries, "hassegments") {
            Ok(x) => x,
            Err(e) => {
                return Err(e);
            },
        };
        let id = match field_string_or_array(entries, "id") {
            Ok(x) => x,
            Err(e) => {
                return Err(e);
            },
        };
        let image_url = match field_texts(entries, "image_url") {
            Ok(x) => x,
            Err(e) => {
                return Err(e);
            },
        };
        let index = match field_number_or_string(entries, "index") {
            Ok(x) => x,
            Err(e) => {
                return Err(e);
            },
        };
        let item_v = match field_item_summaries(entries, "item") {
            Ok(x) => x,
            Err(e) => {
                return Err(e);
            },
        };
        let language = match field_texts(entries, "language") {
            Ok(x) => x,
            Err(e) => {
                return Err(e);
            },
        };
        let location = match field_texts(entries, "location") {
            Ok(x) => x,
            Err(e) => {
                return Err(e);
            },
        };
        let mime_type = match field_texts(entries, "mime_type") {
            Ok(x) => x,
            Err(e) => {
                return Err(e);
            },
        };
        let number_field = match field_texts(entries, "number_field") {
            Ok(x) => x,
            Err(e) => {
                return Err(e);
            },
        };
        let online_format = match field_texts(entries, "online_format") {
            Ok(x) => x,
            Err(e) => {
                return Err(e);
            },
        };
        let original_format = match field_texts(entries, "original_format") {
            Ok(x) => x,
            Err(e) => {
                return Err(e);
            },
        };
        let other_title = match field_texts(entries, "other_title") {
            Ok(x) => x,
            Err(e) => {
                return Err(e);
            },
        };
        let partof = match field_texts(entries, "partof") {
            Ok(x) => x,
            Err(e) => {
                return Err(e);
            },
        };
        let publication_frequency = match field_texts(entries, "publication_frequency") {
            Ok(x) => x,
            Err(e) => {
                return Err(e);
            },
        };
        let shelf_id = match field_string_or_array(entries, "shelf_id") {
            Ok(x) => x,
            Err(e) => {
                return Err(e);
            },
        };
        let site = match field_texts(entries, "site") {
            Ok(x) => x,
            Err(e) => {
                return Err(e);
            },
        };
        let subject = match field_texts(entries, "subject") {
            Ok(x) => x,
            Err(e) => {
                return Err(e);
            },
        };
        let type_field = match field_string_or_array(entries, "type_field") {
            Ok(x) => x,
            Err(e) => {
                return Err(e);
            },
        };
        let additional = result_item_unknown_entries(entries);
        Ok(
            ResultItem {
                access_restricted,
                aka,
                campaigns,
                contributor,
                date,
                dates,
                description,
                digitized,
                extract_timestamp,
                group,
                hassegments,
                id,
                image_url,
                index,
                item: item_v,
                language,
                location,
                mime_type,
                number_field,
                online_format,
                original_format,
                other_title,
                partof,
                publication_frequency,
                shelf_id,
                site,
                subject,
                type_field,
                additional,
            },
        )
    }
}

/// How a strict list of [`ResultItem`] records decodes: the value must be
/// a JSON list whose every element decodes.
pub open spec fn spec_decode_result_items(v: JsonView) -> Result<
    Seq<ResultItemView>,
    DecodeError,
> {
    match v {
        JsonView::List(items) => if forall|i: int|
            0 <= i < items.len() ==> (#[trigger] spec_decode_result_item(items[i])) is Ok {
            Ok(Seq::new(items.len(), |i: int| spec_decode_result_item(items[i])->Ok_0))
        } else {
            Err(DecodeError::WrongShape)
        },
        _ => Err(DecodeError::WrongShape),
    }
}

fn result_items_from_json(v: &JsonValue) -> (r: Result<Vec<ResultItem>, DecodeError>)
    ensures
        view_result(r) == spec_decode_result_items(v.deep_view()),
{
    match v {
        JsonValue::List(items) => {
            let ghost jitems = json_view(*v)->List_0;
            proof {
                assert(json_view(*v) == JsonView::List(jitems));
            }
            let mut out: Vec<ResultItem> = Vec::new();
            let mut i: usize = 0;
            while i < items.len()
                invariant
                    json_view(*v) == JsonView::List(jitems),
                    jitems == json_view(JsonValue::List(*items))->List_0,
                    jitems.len() == items@.len(),
                    i <= items@.len(),
                    forall|j: int|
                        0 <= j < i ==> (#[trigger] spec_decode_result_item(jitems[j])) is Ok,
                    out@.len() == i,
                    forall|j: int|
                        0 <= j < i ==> out@[j].deep_view() == spec_decode_result_item(
                            jitems[j],
                        )->Ok_0,
                decreases items@.len() - i,
            {
                proof {
                    assert(jitems[i as int] == json_view(items@[i as int]));
                }
                match ResultItem::from_json(&items[i]) {
                    Ok(x) => {
                        out.push(x);
                    },
                    Err(e) => {
                        proof {
                            assert(!(forall|j: int|
                                0 <= j < jitems.len() ==> (#[trigger] spec_decode_result_item(
                                    jitems[j],
                                )) is Ok)) by {
                                assert(0 <= i < jitems.len() && !(spec_decode_result_item(
                                    jitems[i as int],
                                ) is Ok));
                            }
                        }
                        return Err(e);
                    },
                }
                i += 1;
            }
            proof {
                assert(out.deep_view() =~= Seq::new(
                    jitems.len(),
                    |j: int| spec_decode_result_item(jitems[j])->Ok_0,
                ));
            }
            Ok(out)
        },
        _ => Err(DecodeError::WrongShape),
    }
}

fn field_result_items(entries: &Vec<(String, JsonValue)>, key: &str) -> (r: Result<
    Option<Vec<ResultItem>>,
    DecodeError,
>)
    ensures
        view_result(r) == spec_decode_field(
            |x: JsonView| spec_decode_result_items(x),
            entries.deep_view(),
            key@,
        ),
{
    let ghost elem = |x: JsonView| spec_decode_result_items(x);
    match lookup(entries, key) {
        None => Ok(None),
        Some(val) => match val {
            JsonValue::Null => Ok(None),
            _ => {
                proof {
                    assert(elem(val.deep_view()) == spec_decode_result_items(val.deep_view()));
                }
                match result_items_from_json(val) {
                    Ok(x) => Ok(Some(x)),
                    Err(e) => Err(e),
                }
            },
        },
    }
}

/// Whether a key is one of the known keys of a [`CollectionItem`].
pub open spec fn spec_collection_item_known(k: Seq<char>) -> bool {
    k == "id"@
        || k == "title"@
        || k == "description"@
        || k == "private_note"@
        || k == "collection_slug"@
        || k == "organization"@
        || k == "url"@
        || k == "site_map"@
        || k == "type_field"@
        || k == "normalized_slug"@
        || k == "created_at"@
        || k == "updated_at"@
}

fn is_collection_item_key(k: &str) -> (r: bool)
    ensures
        r == spec_collection_item_known(k@),
{
    str_eq(k, "id")
        || str_eq(k, "title")
        || str_eq(k, "description")
        || str_eq(k, "private_note")
        || str_eq(k, "collection_slug")
        || str_eq(k, "organization")
        || str_eq(k, "url")
        || str_eq(k, "site_map")
        || str_eq(k, "type_field")
        || str_eq(k, "normalized_slug")
        || str_eq(k, "created_at")
        || str_eq(k, "updated_at")
}

fn collection_item_unknown_entries(entries: &Vec<(String, JsonValue)>) -> (r: Vec<(String, JsonValue)>)
    ensures
        r.deep_view() == spec_unknown_entries(
            entries.deep_view(),
            |k: Seq<char>| spec_collection_item_known(k),
        ),
{
    let ghost known = |k: Seq<char>| spec_collection_item_known(k);
    let ghost dv = entries.deep_view();
    let mut out: Vec<(String, JsonValue)> = Vec::new();
    proof {
        assert(out.deep_view() =~= spec_unknown_entries(dv.take(0), known));
    }
    let mut i: usize = 0;
    while i < entries.len()
        invariant
            known == (|k: Seq<char>| spec_collection_item_known(k)),
            dv == entries.deep_view(),
            dv.len() == entries@.len(),
            i <= entries@.len(),
            out.deep_view() == spec_unknown_entries(dv.take(i as int), known),
        decreases entries@.len() - i,
    {
        proof {
            assert(dv[i as int] == (entries@[i as int].0@, json_view(entries@[i as int].1)));
            assert(dv.take(i as int + 1).drop_last() =~= dv.take(i as int));
            assert(dv.take(i as int + 1).last() == dv[i as int]);
            assert(known(entries@[i as int].0@) == spec_collection_item_known(entries@[i as int].0@));
        }
        if !is_collection_item_key(entries[i].0.as_str()) {
            let key = entries[i].0.clone();
            let val = entries[i].1.duplicate();
            out.push((key, val));
            proof {
                assert(out.deep_view() =~= spec_unknown_entries(dv.take(i as int + 1), known));
            }
        } else {
            proof {
                assert(out.deep_view() =~= spec_unknown_entries(dv.take(i as int + 1), known));
            }
        }
        i += 1;
    }
    proof {
        assert(dv.take(entries@.len() as int) =~= dv);
    }
    out
}

/// One collection in a collections listing.
///
/// Every known field is independently optional; every other top-level
/// key is kept verbatim in `additional`, so a schema the server grows
/// tomorrow is carried through rather than dropped.
#[derive(Debug)]
pub struct CollectionItem {
    /// The unique identifier of the collection.
    pub id: Option<StringOrArray>,
    /// The title of the collection.
    pub title: Option<StringOrArray>,
    /// Descriptions of the collection.
    pub description: Option<StringOrArray>,
    /// Private notes regarding the collection.
    pub private_note: Option<StringOrArray>,
    /// The slug used in the collection URL.
    pub collection_slug: Option<StringOrArray>,
    /// The organization responsible for the collection.
    pub organization: Option<StringOrArray>,
    /// The URL of the collection page.
    pub url: Option<StringOrArray>,
    /// The URL of the site map, if any.
    pub site_map: Option<StringOrArray>,
    /// The type of the collection.
    pub type_field: Option<StringOrArray>,
    /// The normalized slug of the collection.
    pub normalized_slug: Option<StringOrArray>,
    /// When the collection was created.
    pub created_at: Option<StringOrArray>,
    /// When the collection was last updated.
    pub updated_at: Option<StringOrArray>,
    /// Any other top-level entries, kept verbatim.
    pub additional: Vec<(String, JsonValue)>,
}

/// The shape of a [`CollectionItem`].
pub struct CollectionItemView {
    /// The unique identifier of the collection.
    pub id: Option<StringOrArrayView>,
    /// The title of the collection.
    pub title: Option<StringOrArrayView>,
    /// Descriptions of the collection.
    pub description: Option<StringOrArrayView>,
    /// Private notes regarding the collection.
    pub private_note: Option<StringOrArrayView>,
    /// The slug used in the collection URL.
    pub collection_slug: Option<StringOrArrayView>,
    /// The organization responsible for the collection.
    pub organization: Option<StringOrArrayView>,
    /// The URL of the collection page.
    pub url: Option<StringOrArrayView>,
    /// The URL of the site map, if any.
    pub site_map: Option<StringOrArrayView>,
    /// The type of the collection.
    pub type_field: Option<StringOrArrayView>,
    /// The normalized slug of the collection.
    pub normalized_slug: Option<StringOrArrayView>,
    /// When the collection was created.
    pub created_at: Option<StringOrArrayView>,
    /// When the collection was last updated.
    pub updated_at: Option<StringOrArrayView>,
    /// Any other top-level entries, kept verbatim.
    pub additional: Seq<(Seq<char>, JsonView)>,
}

impl DeepView for CollectionItem {
    type V = CollectionItemView;

    open spec fn deep_view(&self) -> CollectionItemView {
        CollectionItemView {
            id: self.id.deep_view(),
            title: self.title.deep_view(),
            description: self.description.deep_view(),
            private_note: self.private_note.deep_view(),
            collection_slug: self.collection_slug.deep_view(),
            organization: self.organization.deep_view(),
            url: self.url.deep_view(),
            site_map: self.site_map.deep_view(),
            type_field: self.type_field.deep_view(),
            normalized_slug: self.normalized_slug.deep_view(),
            created_at: self.created_at.deep_view(),
            updated_at: self.updated_at.deep_view(),
            additional: self.additional.deep_view(),
        }
    }
}

/// How a [`CollectionItem`] decodes from an object's entries.
pub open spec fn spec_decode_collection_item(v: JsonView) -> Result<CollectionItemView, DecodeError> {
    match v {
        JsonView::Object(es) => {
            let id = spec_decode_field(
                |x: JsonView| spec_decode_string_or_array(x),
                es,
                "id"@,
            );
            let title = spec_decode_field(
                |x: JsonView| spec_decode_string_or_array(x),
                es,
                "title"@,
            );
            let description = spec_decode_field(
                |x: JsonView| spec_decode_string_or_array(x),
                es,
                "description"@,
            );
            let private_note = spec_decode_field(
                |x: JsonView| spec_decode_string_or_array(x),
                es,
                "private_note"@,
            );
            let collection_slug = spec_decode_field(
                |x: JsonView| spec_decode_string_or_array(x),
                es,
                "collection_slug"@,
            );
            let organization = spec_decode_field(
                |x: JsonView| spec_decode_string_or_array(x),
                es,
                "organization"@,
            );
            let url = spec_decode_field(
                |x: JsonView| spec_decode_string_or_array(x),
                es,
                "url"@,
            );
            let site_map = spec_decode_field(
                |x: JsonView| spec_decode_string_or_array(x),
                es,
                "site_map"@,
            );
            let type_field = spec_decode_field(
                |x: JsonView| spec_decode_string_or_array(x),
                es,
                "type_field"@,
            );
            let normalized_slug = spec_decode_field(
                |x: JsonView| spec_decode_string_or_array(x),
                es,
                "normalized_slug"@,
            );
            let created_at = spec_decode_field(
                |x: JsonView| spec_decode_string_or_array(x),
                es,
                "created_at"@,
            );
            let updated_at = spec_decode_field(
                |x: JsonView| spec_decode_string_or_array(x),
                es,
                "updated_at"@,
            );
            if id is Ok && title is Ok && description is Ok && private_note is Ok && collection_slug is Ok && organization is Ok && url is Ok && site_map is Ok && type_field is Ok && normalized_slug is Ok && created_at is Ok && updated_at is Ok {
                Ok(
                    CollectionItemView {
                        id: id->Ok_0,
                        title: title->Ok_0,
                        description: description->Ok_0,
                        private_note: private_note->Ok_0,
                        collection_slug: collection_slug->Ok_0,
                        organization: organization->Ok_0,
                        url: url->Ok_0,
                        site_map: site_map->Ok_0,
                        type_field: type_field->Ok_0,
                        normalized_slug: normalized_slug->Ok_0,
                        created_at: created_at->Ok_0,
                        updated_at: updated_at->Ok_0,
                        additional: spec_unknown_entries(es, |k: Seq<char>| spec_collection_item_known(k)),
                    },
                )
            } else {
                Err(DecodeError::WrongShape)
            }
        },
        _ => Err(DecodeError::WrongShape),
    }
}

impl CollectionItem {
    /// Decodes this record from a JSON object, keeping unknown keys.
    #[verifier::rlimit(40)]
    pub fn from_json(v: &JsonValue) -> (r: Result<CollectionItem, DecodeError>)
        ensures
            view_result(r) == spec_decode_collection_item(v.deep_view()),
    {
        let entries = match v {
            JsonValue::Object(es) => es,
            _ => {
                return Err(DecodeError::WrongShape);
            },
        };
        proof {
            assert(json_view(*v)->Object_0 =~= entries.deep_view());
        }
        let id = match field_string_or_array(entries, "id") {
            Ok(x) => x,
            Err(e) => {
                return Err(e);
            },
        };
        let title = match field_string_or_array(entries, "title") {
            Ok(x) => x,
            Err(e) => {
                return Err(e);
            },
        };
        let description = match field_string_or_array(entries, "description") {
            Ok(x) => x,
            Err(e) => {
                return Err(e);
            },
        };
        let private_note = match field_string_or_array(entries, "private_note") {
            Ok(x) => x,
            Err(e) => {
                return Err(e);
            },
        };
        let collection_slug = match field_string_or_array(entries, "collection_slug") {
            Ok(x) => x,
            Err(e) => {
                return Err(e);
            },
        };
        let organization = match field_string_or_array(entries, "organization") {
            Ok(x) => x,
            Err(e) => {
                return Err(e);
            },
        };
        let url = match field_string_or_array(entries, "url") {
            Ok(x) => x,
            Err(e) => {
                return Err(e);
            },
        };
        let site_map = match field_string_or_array(entries, "site_map") {
            Ok(x) => x,
            Err(e) => {
                return Err(e);
            },
        };
        let type_field = match field_string_or_array(entries, "type_field") {
            Ok(x) => x,
            Err(e) => {
                return Err(e);
            },
        };
        let normalized_slug = match field_string_or_array(entries, "normalized_slug") {
            Ok(x) => x,
            Err(e) => {
                return Err(e);
            },
        };
        let created_at = match field_string_or_array(entries, "created_at") {
            Ok(x) => x,
            Err(e) => {
                return Err(e);
            },
        };
        let updated_at = match field_string_or_array(entries, "updated_at") {
            Ok(x) => x,
            Err(e) => {
                return Err(e);
            },
        };
        let additional = collection_item_unknown_entries(entries);
        Ok(
            CollectionItem {
                id,
                title,
                description,
                private_note,
                collection_slug,
                organization,
                url,
                site_map,
                type_field,
                normalized_slug,
                created_at,
                updated_at,
                additional,
            },
        )
    }
}

/// How a strict list of [`CollectionItem`] records decodes: the value must be
/// a JSON list whose every element decodes.
pub open spec fn spec_decode_collection_items(v: JsonView) -> Result<
    Seq<CollectionItemView>,
    DecodeError,
> {
    match v {
        JsonView::List(items) => if forall|i: int|
            0 <= i < items.len() ==> (#[trigger] spec_decode_collection_item(items[i])) is Ok {
            Ok(Seq::new(items.len(), |i: int| spec_decode_collection_item(items[i])->Ok_0))
        } else {
            Err(DecodeError::WrongShape)
        },
        _ => Err(DecodeError::WrongShape),
    }
}

fn collection_items_from_json(v: &JsonValue) -> (r: Result<Vec<CollectionItem>, DecodeError>)
    ensures
        view_result(r) == spec_decode_collection_items(v.deep_view()),
{
    match v {
        JsonValue::List(items) => {
            let ghost jitems = json_view(*v)->List_0;
            proof {
                assert(json_view(*v) == JsonView::List(jitems));
            }
            let mut out: Vec<CollectionItem> = Vec::new();
            let mut i: usize = 0;
            while i < items.len()
                invariant
                    json_view(*v) == JsonView::List(jitems),
                    jitems == json_view(JsonValue::List(*items))->List_0,
                    jitems.len() == items@.len(),
                    i <= items@.len(),
                    forall|j: int|
                        0 <= j < i ==> (#[trigger] spec_decode_collection_item(jitems[j])) is Ok,
                    out@.len() == i,
                    forall|j: int|
                        0 <= j < i ==> out@[j].deep_view() == spec_decode_collection_item(
                            jitems[j],
                        )->Ok_0,
                decreases items@.len() - i,
            {
                proof {
                    assert(jitems[i as int] == json_view(items@[i as int]));
                }
                match CollectionItem::from_json(&items[i]) {
                    Ok(x) => {
                        out.push(x);
                    },
                    Err(e) => {
                        proof {
                            assert(!(forall|j: int|
                                0 <= j < jitems.len() ==> (#[trigger] spec_decode_collection_item(
                                    jitems[j],
                                )) is Ok)) by {
                                assert(0 <= i < jitems.len() && !(spec_decode_collection_item(
                                    jitems[i as int],
                                ) is Ok));
                            }
                        }
                        return Err(e);
                    },
                }
                i += 1;
            }
            proof {
                assert(out.deep_view() =~= Seq::new(
                    jitems.len(),
                    |j: int| spec_decode_collection_item(jitems[j])->Ok_0,
                ));
            }
            Ok(out)
        },
        _ => Err(DecodeError::WrongShape),
    }
}

fn field_collection_items(entries: &Vec<(String, JsonValue)>, key: &str) -> (r: Result<
    Option<Vec<CollectionItem>>,
    DecodeError,
>)
    ensures
        view_result(r) == spec_decode_field(
            |x: JsonView| spec_decode_collection_items(x),
            entries.deep_view(),
            key@,
        ),
{
    let ghost elem = |x: JsonView| spec_decode_collection_items(x);
    match lookup(entries, key) {
        None => Ok(None),
        Some(val) => match val {
            JsonValue::Null => Ok(None),
            _ => {
                proof {
                    assert(elem(val.deep_view()) == spec_decode_collection_items(val.deep_view()));
                }
                match collection_items_from_json(val) {
                    Ok(x) => Ok(Some(x)),
                    Err(e) => Err(e),
                }
            },
        },
    }
}

fn field_facet_res(entries: &Vec<(String, JsonValue)>, key: &str) -> (r: Result<
    Option<FacetRes>,
    DecodeError,
>)
    ensures
        view_result(r) == spec_decode_field(
            |x: JsonView| spec_decode_facet_res(x),
            entries.deep_view(),
            key@,
        ),
{
    let ghost elem = |x: JsonView| spec_decode_facet_res(x);
    match lookup(entries, key) {
        None => Ok(None),
        Some(val) => match val {
            JsonValue::Null => Ok(None),
            _ => {
                proof {
                    assert(elem(val.deep_view()) == spec_decode_facet_res(val.deep_view()));
                }
                match FacetRes::from_json(val) {
                    Ok(x) => Ok(Some(x)),
                    Err(e) => Err(e),
                }
            },
        },
    }
}

fn field_pagination(entries: &Vec<(String, JsonValue)>, key: &str) -> (r: Result<
    Option<Pagination>,
    DecodeError,
>)
    ensures
        view_result(r) == spec_decode_field(
            |x: JsonView| spec_decode_pagination(x),
            entries.deep_view(),
            key@,
        ),
{
    let ghost elem = |x: JsonView| spec_decode_pagination(x);
    match lookup(entries, key) {
        None => Ok(None),
        Some(val) => match val {
            JsonValue::Null => Ok(None),
            _ => {
                proof {
                    assert(elem(val.deep_view()) == spec_decode_pagination(val.deep_view()));
                }
                match Pagination::from_json(val) {
                    Ok(x) => Ok(Some(x)),
                    Err(e) => Err(e),
                }
            },
        },
    }
}

/// Whether a key is one of the known top-level keys of a response envelope.
pub open spec fn spec_envelope_known(k: Seq<char>) -> bool {
    k == "facets"@
        || k == "pagination"@
        || k == "results"@
}

fn is_envelope_key(k: &str) -> (r: bool)
    ensures
        r == spec_envelope_known(k@),
{
    str_eq(k, "facets")
        || str_eq(k, "pagination")
        || str_eq(k, "results")
}

fn envelope_unknown_entries(entries: &Vec<(String, JsonValue)>) -> (r: Vec<(String, JsonValue)>)
    ensures
        r.deep_view() == spec_unknown_entries(
            entries.deep_view(),
            |k: Seq<char>| spec_envelope_known(k),
        ),
{
    let ghost known = |k: Seq<char>| spec_envelope_known(k);
    let ghost dv = entries.deep_view();
    let mut out: Vec<(String, JsonValue)> = Vec::new();
    proof {
        assert(out.deep_view() =~= spec_unknown_entries(dv.take(0), known));
    }
    let mut i: usize = 0;
    while i < entries.len()
        invariant
            known == (|k: Seq<char>| spec_envelope_known(k)),
            dv == entries.deep_view(),
            dv.len() == entries@.len(),
            i <= entries@.len(),
            out.deep_view() == spec_unknown_entries(dv.take(i as int), known),
        decreases entries@.len() - i,
    {
        proof {
            assert(dv[i as int] == (entries@[i as int].0@, json_view(entries@[i as int].1)));
            assert(dv.take(i as int + 1).drop_last() =~= dv.take(i as int));
            assert(dv.take(i as int + 1).last() == dv[i as int]);
            assert(known(entries@[i as int].0@) == spec_envelope_known(entries@[i as int].0@));
        }
        if !is_envelope_key(entries[i].0.as_str()) {
            let key = entries[i].0.clone();
            let val = entries[i].1.duplicate();
            out.push((key, val));
            proof {
                assert(out.deep_view() =~= spec_unknown_entries(dv.take(i as int + 1), known));
            }
        } else {
            proof {
                assert(out.deep_view() =~= spec_unknown_entries(dv.take(i as int + 1), known));
            }
        }
        i += 1;
    }
    proof {
        assert(dv.take(entries@.len() as int) =~= dv);
    }
    out
}

/// The envelope of the `/search/` style routes.
///
/// Every known field is independently optional; every other top-level
/// key is kept verbatim in `additional`, so a schema the server grows
/// tomorrow is carried through rather than dropped.
#[derive(Debug)]
pub struct SearchResultResponse {
    /// Facet information for narrowing the results.
    pub facets: Option<FacetRes>,
    /// Pagination details for walking the result pages.
    pub pagination: Option<Pagination>,
    /// The result items of the current page.
    pub results: Option<Vec<ResultItem>>,
    /// Any other top-level entries, kept verbatim.
    pub additional: Vec<(String, JsonValue)>,
}

/// The shape of a [`SearchResultResponse`].
pub struct SearchResultResponseView {
    /// Facet information for narrowing the results.
    pub facets: Option<FacetResView>,
    /// Pagination details for walking the result pages.
    pub pagination: Option<PaginationView>,
    /// The result items of the current page.
    pub results: Option<Seq<ResultItemView>>,
    /// Any other top-level entries, kept verbatim.
    pub additional: Seq<(Seq<char>, JsonView)>,
}

impl DeepView for SearchResultResponse {
    type V = SearchResultResponseView;

    open spec fn deep_view(&self) -> SearchResultResponseView {
        SearchResultResponseView {
            facets: self.facets.deep_view(),
            pagination: self.pagination.deep_view(),
            results: self.results.deep_view(),
            additional: self.additional.deep_view(),
        }
    }
}

/// How a [`SearchResultResponse`] decodes from an object's entries.
pub open spec fn spec_decode_search_result_response(v: JsonView) -> Result<SearchResultResponseView, DecodeError> {
    match v {
        JsonView::Object(es) => {
            let facets = spec_decode_field(
                |x: JsonView| spec_decode_facet_res(x),
                es,
                "facets"@,
            );
            let pagination = spec_decode_field(
                |x: JsonView| spec_decode_pagination(x),
                es,
                "pagination"@,
            );
            let results = spec_decode_field(
                |x: JsonView| spec_decode_result_items(x),
                es,
                "results"@,
            );
            if facets is Ok && pagination is Ok && results is Ok {
                Ok(
                    SearchResultResponseView {
                        facets: facets->Ok_0,
                        pagination: pagination->Ok_0,
                        results: results->Ok_0,
                        additional: spec_unknown_entries(es, |k: Seq<char>| spec_envelope_known(k)),
                    },
                )
            } else {
                Err(DecodeError::WrongShape)
            }
        },
        _ => Err(DecodeError::WrongShape),
    }
}

impl SearchResultResponse {
    /// Decodes this record from a JSON object, keeping unknown keys.
    #[verifier::rlimit(30)]
    pub fn from_json(v: &JsonValue) -> (r: Result<SearchResultResponse, DecodeError>)
        ensures
            view_result(r) == spec_decode_search_result_response(v.deep_view()),
    {
        let entries = match v {
            JsonValue::Object(es) => es,
            _ => {
                return Err(DecodeError::WrongShape);
            },
        };
        proof {
            assert(json_view(*v)->Object_0 =~= entries.deep_view());
        }
        let facets = match field_facet_res(entries, "facets") {
            Ok(x) => x,
            Err(e) => {
                return Err(e);
            },
        };
        let pagination = match field_pagination(entries, "pagination") {
            Ok(x) => x,
            Err(e) => {
                return Err(e);
            },
        };
        let results = match field_result_items(entries, "results") {
            Ok(x) => x,
            Err(e) => {
                return Err(e);
            },
        };
        let additional = envelope_unknown_entries(entries);
        Ok(
            SearchResultResponse {
                facets,
                pagination,
                results,
                additional,
            },
        )
    }
}

/// The envelope of the `/{format}/` route.
///
/// Every known field is independently optional; every other top-level
/// key is kept verbatim in `additional`, so a schema the server grows
/// tomorrow is carried through rather than dropped.
#[derive(Debug)]
pub struct FormatResponse {
    /// Facet information for narrowing the results.
    pub facets: Option<FacetRes>,
    /// Pagination details for walking the result pages.
    pub pagination: Option<Pagination>,
    /// The result items of the current page.
    pub results: Option<Vec<ResultItem>>,
    /// Any other top-level entries, kept verbatim.
    pub additional: Vec<(String, JsonValue)>,
}

/// The shape of a [`FormatResponse`].
pub struct FormatResponseView {
    /// Facet information for narrowing the results.
    pub facets: Option<FacetResView>,
    /// Pagination details for walking the result pages.
    pub pagination: Option<PaginationView>,
    /// The result items of the current page.
    pub results: Option<Seq<ResultItemView>>,
    /// Any other top-level entries, kept verbatim.
    pub additional: Seq<(Seq<char>, JsonView)>,
}

impl DeepView for FormatResponse {
    type V = FormatResponseView;

    open spec fn deep_view(&self) -> FormatResponseView {
        FormatResponseView {
            facets: self.facets.deep_view(),
            pagination: self.pagination.deep_view(),
            results: self.results.deep_view(),
            additional: self.additional.deep_view(),
        }
    }
}

/// How a [`FormatResponse`] decodes from an object's entries.
pub open spec fn spec_decode_format_response(v: JsonView) -> Result<FormatResponseView, DecodeError> {
    match v {
        JsonView::Object(es) => {
            let facets = spec_decode_field(
                |x: JsonView| spec_decode_facet_res(x),
                es,
                "facets"@,
            );
            let pagination = spec_decode_field(
                |x: JsonView| spec_decode_pagination(x),
                es,
                "pagination"@,
            );
            let results = spec_decode_field(
                |x: JsonView| spec_decode_result_items(x),
                es,
                "results"@,
            );
            if facets is Ok && pagination is Ok && results is Ok {
                Ok(
                    FormatResponseView {
                        facets: facets->Ok_0,
                        pagination: pagination->Ok_0,
                        results: results->Ok_0,
                        additional: spec_unknown_entries(es, |k: Seq<char>| spec_envelope_known(k)),
                    },
                )
            } else {
                Err(DecodeError::WrongShape)
            }
        },
        _ => Err(DecodeError::WrongShape),
    }
}

impl FormatResponse {
    /// Decodes this record from a JSON object, keeping unknown keys.
    #[verifier::rlimit(30)]
    pub fn from_json(v: &JsonValue) -> (r: Result<FormatResponse, DecodeError>)
        ensures
            view_result(r) == spec_decode_format_response(v.deep_view()),
    {
        let entries = match v {
            JsonValue::Object(es) => es,
            _ => {
                return Err(DecodeError::WrongShape);
            },
        };
        proof {
            assert(json_view(*v)->Object_0 =~= entries.deep_view());
        }
        let facets = match field_facet_res(entries, "facets") {
            Ok(x) => x,
            Err(e) => {
                return Err(e);
            },
        };
        let pagination = match field_pagination(entries, "pagination") {
            Ok(x) => x,
            Err(e) => {
                return Err(e);
            },
        };
        let results = match field_result_items(entries, "results") {
            Ok(x) => x,
            Err(e) => {
                return Err(e);
            },
        };
        let additional = envelope_unknown_entries(entries);
        Ok(
            FormatResponse {
                facets,
                pagination,
                results,
                additional,
            },
        )
    }
}

/// A generic search envelope shared by several routes.
///
/// Every known field is independently optional; every other top-level
/// key is kept verbatim in `additional`, so a schema the server grows
/// tomorrow is carried through rather than dropped.
#[derive(Debug)]
pub struct SearchResponse {
    /// Facet information for narrowing the results.
    pub facets: Option<FacetRes>,
    /// Pagination details for walking the result pages.
    pub pagination: Option<Pagination>,
    /// The result items of the current page.
    pub results: Option<Vec<ResultItem>>,
    /// Any other top-level entries, kept verbatim.
    pub additional: Vec<(String, JsonValue)>,
}

/// The shape of a [`SearchResponse`].
pub struct SearchResponseView {
    /// Facet information for narrowing the results.
    pub facets: Option<FacetResView>,
    /// Pagination details for walking the result pages.
    pub pagination: Option<PaginationView>,
    /// The result items of the current page.
    pub results: Option<Seq<ResultItemView>>,
    /// Any other top-level entries, kept verbatim.
    pub additional: Seq<(Seq<char>, JsonView)>,
}

impl DeepView for SearchResponse {
    type V = SearchResponseView;

    open spec fn deep_view(&self) -> SearchResponseView {
        SearchResponseView {
            facets: self.facets.deep_view(),
            pagination: self.pagination.deep_view(),
            results: self.results.deep_view(),
            additional: self.additional.deep_view(),
        }
    }
}

/// How a [`SearchResponse`] decodes from an object's entries.
pub open spec fn spec_decode_search_response(v: JsonView) -> Result<SearchResponseView, DecodeError> {
    match v {
        JsonView::Object(es) => {
            let facets = spec_decode_field(
                |x: JsonView| spec_decode_facet_res(x),
                es,
                "facets"@,
            );
            let pagination = spec_decode_field(
                |x: JsonView| spec_decode_pagination(x),
                es,
                "pagination"@,
            );
            let results = spec_decode_field(
                |x: JsonView| spec_decode_result_items(x),
                es,
                "results"@,
            );
            if facets is Ok && pagination is Ok && results is Ok {
                Ok(
                    SearchResponseView {
                        facets: facets->Ok_0,
                        pagination: pagination->Ok_0,
                        results: results->Ok_0,
                        additional: spec_unknown_entries(es, |k: Seq<char>| spec_envelope_known(k)),
                    },
                )
            } else {
                Err(DecodeError::WrongShape)
            }
        },
        _ => Err(DecodeError::WrongShape),
    }
}

impl SearchResponse {
    /// Decodes this record from a JSON object, keeping unknown keys.
    #[verifier::rlimit(30)]
    pub fn from_json(v: &JsonValue) -> (r: Result<SearchResponse, DecodeError>)
        ensures
            view_result(r) == spec_decode_search_response(v.deep_view()),
    {
        let entries = match v {
            JsonValue::Object(es) => es,
            _ => {
                return Err(DecodeError::WrongShape);
            },
        };
        proof {
            assert(json_view(*v)->Object_0 =~= entries.deep_view());
        }
        let facets = match field_facet_res(entries, "facets") {
            Ok(x) => x,
            Err(e) => {
                return Err(e);
            },
        };
        let pagination = match field_pagination(entries, "pagination") {
            Ok(x) => x,
            Err(e) => {
                return Err(e);
            },
        };
        let results = match field_result_items(entries, "results") {
            Ok(x) => x,
            Err(e) => {
                return Err(e);
            },
        };
        let additional = envelope_unknown_entries(entries);
        Ok(
            SearchResponse {
                facets,
                pagination,
                results,
                additional,
            },
        )
    }
}

/// The envelope of the `/collections/` route.
///
/// Every known field is independently optional; every other top-level
/// key is kept verbatim in `additional`, so a schema the server grows
/// tomorrow is carried through rather than dropped.
#[derive(Debug)]
pub struct CollectionsResponse {
    /// Facet information for narrowing the results.
    pub facets: Option<FacetRes>,
    /// Pagination details for walking the result pages.
    pub pagination: Option<Pagination>,
    /// The result items of the current page.
    pub results: Option<Vec<CollectionItem>>,
    /// Any other top-level entries, kept verbatim.
    pub additional: Vec<(String, JsonValue)>,
}

/// The shape of a [`CollectionsResponse`].
pub struct CollectionsResponseView {
    /// Facet information for narrowing the results.
    pub facets: Option<FacetResView>,
    /// Pagination details for walking the result pages.
    pub pagination: Option<PaginationView>,
    /// The result items of the current page.
    pub results: Option<Seq<CollectionItemView>>,
    /// Any other top-level entries, kept verbatim.
    pub additional: Seq<(Seq<char>, JsonView)>,
}

impl DeepView for CollectionsResponse {
    type V = CollectionsResponseView;

    open spec fn deep_view(&self) -> CollectionsResponseView {
        CollectionsResponseView {
            facets: self.facets.deep_view(),
            pagination: self.pagination.deep_view(),
            results: self.results.deep_view(),
            additional: self.additional.deep_view(),
        }
    }
}

/// How a [`CollectionsResponse`] decodes from an object's entries.
pub open spec fn spec_decode_collections_response(v: JsonView) -> Result<CollectionsResponseView, DecodeError> {
    match v {
        JsonView::Object(es) => {
            let facets = spec_decode_field(
                |x: JsonView| spec_decode_facet_res(x),
                es,
                "facets"@,
            );
            let pagination = spec_decode_field(
                |x: JsonView| spec_decode_pagination(x),
                es,
                "pagination"@,
            );
            let results = spec_decode_field(
                |x: JsonView| spec_decode_collection_items(x),
                es,
                "results"@,
            );
            if facets is Ok && pagination is Ok && results is Ok {
                Ok(
                    CollectionsResponseView {
                        facets: facets->Ok_0,
                        pagination: pagination->Ok_0,
                        results: results->Ok_0,
                        additional: spec_unknown_entries(es, |k: Seq<char>| spec_envelope_known(k)),
                    },
                )
            } else {
                Err(DecodeError::WrongShape)
            }
        },
        _ => Err(DecodeError::WrongShape),
    }
}

impl CollectionsResponse {
    /// Decodes this record from a JSON object, keeping unknown keys.
    #[verifier::rlimit(30)]
    pub fn from_json(v: &JsonValue) -> (r: Result<CollectionsResponse, DecodeError>)
        ensures
            view_result(r) == spec_decode_collections_response(v.deep_view()),
    {
        let entries = match v {
            JsonValue::Object(es) => es,
            _ => {
                return Err(DecodeError::WrongShape);
            },
        };
        proof {
            assert(json_view(*v)->Object_0 =~= entries.deep_view());
        }
        let facets = match field_facet_res(entries, "facets") {
            Ok(x) => x,
            Err(e) => {
                return Err(e);
            },
        };
        let pagination = match field_pagination(entries, "pagination") {
            Ok(x) => x,
            Err(e) => {
                return Err(e);
            },
        };
        let results = match field_collection_items(entries, "results") {
            Ok(x) => x,
            Err(e) => {
                return Err(e);
            },
        };
        let additional = envelope_unknown_entries(entries);
        Ok(
            CollectionsResponse {
                facets,
                pagination,
                results,
                additional,
            },
        )
    }
}

/// The envelope of the `/collections/{name_of_collection}/` route.
///
/// Every known field is independently optional; every other top-level
/// key is kept verbatim in `additional`, so a schema the server grows
/// tomorrow is carried through rather than dropped.
#[derive(Debug)]
pub struct CollectionResponse {
    /// Facet information for narrowing the results.
    pub facets: Option<FacetRes>,
    /// Pagination details for walking the result pages.
    pub pagination: Option<Pagination>,
    /// The result items of the current page.
    pub results: Option<Vec<CollectionItem>>,
    /// Any other top-level entries, kept verbatim.
    pub additional: Vec<(String, JsonValue)>,
}

/// The shape of a [`CollectionResponse`].
pub struct CollectionResponseView {
    /// Facet information for narrowing the results.
    pub facets: Option<FacetResView>,
    /// Pagination details for walking the result pages.
    pub pagination: Option<PaginationView>,
    /// The result items of the current page.
    pub results: Option<Seq<CollectionItemView>>,
    /// Any other top-level entries, kept verbatim.
    pub additional: Seq<(Seq<char>, JsonView)>,
}

impl DeepView for CollectionResponse {
    type V = CollectionResponseView;

    open spec fn deep_view(&self) -> CollectionResponseView {
        CollectionResponseView {
            facets: self.facets.deep_view(),
            pagination: self.pagination.deep_view(),
            results: self.results.deep_view(),
            additional: self.additional.deep_view(),
        }
    }
}

/// How a [`CollectionResponse`] decodes from an object's entries.
pub open spec fn spec_decode_collection_response(v: JsonView) -> Result<CollectionResponseView, DecodeError> {
    match v {
        JsonView::Object(es) => {
            let facets = spec_decode_field(
                |x: JsonView| spec_decode_facet_res(x),
                es,
                "facets"@,
            );
            let pagination = spec_decode_field(
                |x: JsonView| spec_decode_pagination(x),
                es,
                "pagination"@,
            );
            let results = spec_decode_field(
                |x: JsonView| spec_decode_collection_items(x),
                es,
                "results"@,
            );
            if facets is Ok && pagination is Ok && results is Ok {
                Ok(
                    CollectionResponseView {
                        facets: facets->Ok_0,
                        pagination: pagination->Ok_0,
                        results: results->Ok_0,
                        additional: spec_unknown_entries(es, |k: Seq<char>| spec_envelope_known(k)),
                    },
                )
            } else {
                Err(DecodeError::WrongShape)
            }
        },
        _ => Err(DecodeError::WrongShape),
    }
}

impl CollectionResponse {
    /// Decodes this record from a JSON object, keeping unknown keys.
    #[verifier::rlimit(30)]
    pub fn from_json(v: &JsonValue) -> (r: Result<CollectionResponse, DecodeError>)
        ensures
            view_result(r) == spec_decode_collection_response(v.deep_view()),
    {
        let entries = match v {
            JsonValue::Object(es) => es,
            _ => {
                return Err(DecodeError::WrongShape);
            },
        };
        proof {
            assert(json_view(*v)->Object_0 =~= entries.deep_view());
        }
        let facets = match field_facet_res(entries, "facets") {
            Ok(x) => x,
            Err(e) => {
                return Err(e);
            },
        };
        let pagination = match field_pagination(entries, "pagination") {
            Ok(x) => x,
            Err(e) => {
                return Err(e);
            },
        };
        let results = match field_collection_items(entries, "results") {
            Ok(x) => x,
            Err(e) => {
                return Err(e);
            },
        };
        let additional = envelope_unknown_entries(entries);
        Ok(
            CollectionResponse {
                facets,
                pagination,
                results,
                additional,
            },
        )
    }
}

impl Default for CollectionResponse {
    /// A record with every field absent and an empty bag.
    fn default() -> (r: Self)
        ensures
            r.facets is None,
            r.pagination is None,
            r.results is None,
            r.additional@.len() == 0,
    {
        CollectionResponse {
            facets: None,
            pagination: None,
            results: None,
            additional: Vec::new(),
        }
    }
}


} // verus!
