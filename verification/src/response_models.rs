//! The shape-tolerant response model.
//!
//! The server serializes many fields as either a bare scalar or an array of
//! scalars, and some counts as numbers or as quoted strings, depending on
//! result cardinality. The types here absorb that variance: decoding never
//! fails merely because the cardinality differs, a `null` decodes to an
//! absent field, and a one-element array stays an array.

use vstd::prelude::*;
use crate::errors::DecodeError;
use crate::json::json_view;
use crate::json::lookup;
use crate::json::spec_lookup;
use crate::json::JsonValue;
use crate::json::JsonView;

verus! {

/// A value the server gives as one string or as a list of strings.
#[derive(Debug, Clone, PartialEq, Eq)]
pub enum StringOrArray {
    /// A single string.
    Text(String),
    /// A list of strings.
    Array(Vec<String>),
}

/// The shape of a [`StringOrArray`].
pub enum StringOrArrayView {
    /// A single string.
    Text(Seq<char>),
    /// A list of strings.
    Array(Seq<Seq<char>>),
}

impl DeepView for StringOrArray {
    type V = StringOrArrayView;

    open spec fn deep_view(&self) -> StringOrArrayView {
        match self {
            StringOrArray::Text(s) => StringOrArrayView::Text(s@),
            StringOrArray::Array(v) => StringOrArrayView::Array(v.deep_view()),
        }
    }
}

/// A value the server gives as a number or as its string rendering.
#[derive(Debug, Clone, PartialEq, Eq)]
pub enum NumberOrString {
    /// A plain number.
    Number(u32),
    /// The number as a quoted string.
    Text(String),
}

/// The shape of a [`NumberOrString`].
pub enum NumberOrStringView {
    /// A plain number.
    Number(u32),
    /// The number as a quoted string.
    Text(Seq<char>),
}

impl DeepView for NumberOrString {
    type V = NumberOrStringView;

    open spec fn deep_view(&self) -> NumberOrStringView {
        match self {
            NumberOrString::Number(n) => NumberOrStringView::Number(*n),
            NumberOrString::Text(s) => NumberOrStringView::Text(s@),
        }
    }
}

/// A value the server gives as a boolean or as its string rendering.
#[derive(Debug, Clone, PartialEq, Eq)]
pub enum BoolOrString {
    /// A plain boolean.
    Bool(bool),
    /// The boolean as a quoted string.
    Text(String),
}

/// The shape of a [`BoolOrString`].
pub enum BoolOrStringView {
    /// A plain boolean.
    Bool(bool),
    /// The boolean as a quoted string.
    Text(Seq<char>),
}

impl DeepView for BoolOrString {
    type V = BoolOrStringView;

    open spec fn deep_view(&self) -> BoolOrStringView {
        match self {
            BoolOrString::Bool(b) => BoolOrStringView::Bool(*b),
            BoolOrString::Text(s) => BoolOrStringView::Text(s@),
        }
    }
}

/// A value the server gives as one item or as a list of items.
///
/// A one-element list stays a list: cardinality round-trips, it is not
/// normalized away.
#[derive(Debug, Clone, PartialEq, Eq)]
pub enum ItemOrArray<T> {
    /// A single item.
    Item(T),
    /// A list of items.
    Array(Vec<T>),
}

/// The shape of an [`ItemOrArray`].
pub enum ItemOrArrayView<V> {
    /// A single item.
    Item(V),
    /// A list of items.
    Array(Seq<V>),
}

impl<T: DeepView> DeepView for ItemOrArray<T> {
    type V = ItemOrArrayView<T::V>;

    open spec fn deep_view(&self) -> ItemOrArrayView<T::V> {
        match self {
            ItemOrArray::Item(t) => ItemOrArrayView::Item(t.deep_view()),
            ItemOrArray::Array(v) => ItemOrArrayView::Array(v.deep_view()),
        }
    }
}

/// A decode result carried over to the level of shapes.
pub open spec fn view_result<T: DeepView>(r: Result<T, DecodeError>) -> Result<
    T::V,
    DecodeError,
> {
    match r {
        Ok(x) => Ok(x.deep_view()),
        Err(e) => Err(e),
    }
}

/// Whether every element of the list is a JSON string.
pub open spec fn spec_all_texts(items: Seq<JsonView>) -> bool {
    forall|i: int| 0 <= i < items.len() ==> items[i] is Text
}

/// The strings of a list of JSON strings.
pub open spec fn spec_text_seq(items: Seq<JsonView>) -> Seq<Seq<char>> {
    Seq::new(items.len(), |i: int| items[i]->Text_0)
}

/// How a [`StringOrArray`] decodes: a JSON string stays single, a list of
/// JSON strings becomes the list of its strings, and any other shape —
/// `null` among them — is refused.
pub open spec fn spec_decode_string_or_array(v: JsonView) -> Result<
    StringOrArrayView,
    DecodeError,
> {
    match v {
        JsonView::Text(s) => Ok(StringOrArrayView::Text(s)),
        JsonView::List(items) => if spec_all_texts(items) {
            Ok(StringOrArrayView::Array(spec_text_seq(items)))
        } else {
            Err(DecodeError::WrongShape)
        },
        _ => Err(DecodeError::WrongShape),
    }
}

impl StringOrArray {
    /// Decodes a JSON value that is either one string or a list of strings.
    pub fn from_json(v: &JsonValue) -> (r: Result<StringOrArray, DecodeError>)
        ensures
            view_result(r) == spec_decode_string_or_array(v.deep_view()),
    {
        match v {
            JsonValue::Text(s) => Ok(StringOrArray::Text(s.clone())),
            JsonValue::List(items) => {
                let ghost jitems = json_view(*v)->List_0;
                proof {
                    assert(json_view(*v) == JsonView::List(jitems));
                }
                let mut out: Vec<String> = Vec::new();
                let mut i: usize = 0;
                while i < items.len()
                    invariant
                        json_view(*v) == JsonView::List(jitems),
                        jitems == json_view(JsonValue::List(*items))->List_0,
                        jitems.len() == items@.len(),
                        i <= items@.len(),
                        forall|j: int| 0 <= j < i ==> jitems[j] is Text,
                        out@.len() == i,
                        forall|j: int| 0 <= j < i ==> out@[j]@ == jitems[j]->Text_0,
                    decreases items@.len() - i,
                {
                    proof {
                        assert(jitems[i as int] == json_view(items@[i as int]));
                    }
                    match &items[i] {
                        JsonValue::Text(s) => {
                            out.push(s.clone());
                        },
                        _ => {
                            proof {
                                assert(!(jitems[i as int] is Text));
                                assert(!spec_all_texts(jitems)) by {
                                    assert(0 <= i < jitems.len() && !(jitems[i as int] is Text));
                                }
                            }
                            return Err(DecodeError::WrongShape);
                        },
                    }
                    i += 1;
                }
                proof {
                    assert(spec_all_texts(jitems));
                    assert(out.deep_view() =~= spec_text_seq(jitems));
                }
                Ok(StringOrArray::Array(out))
            },
            _ => Err(DecodeError::WrongShape),
        }
    }
}

/// How a [`NumberOrString`] decodes: a number that fits, or a string; any
/// other shape is refused.
pub open spec fn spec_decode_number_or_string(v: JsonView) -> Result<
    NumberOrStringView,
    DecodeError,
> {
    match v {
        JsonView::UInt(n) => if n <= u32::MAX {
            Ok(NumberOrStringView::Number(n as u32))
        } else {
            Err(DecodeError::WrongShape)
        },
        JsonView::Text(s) => Ok(NumberOrStringView::Text(s)),
        _ => Err(DecodeError::WrongShape),
    }
}

impl NumberOrString {
    /// Decodes a JSON value that is either a number or a string.
    pub fn from_json(v: &JsonValue) -> (r: Result<NumberOrString, DecodeError>)
        ensures
            view_result(r) == spec_decode_number_or_string(v.deep_view()),
    {
        match v {
            JsonValue::UInt(n) => {
                if *n <= u32::MAX as u64 {
                    Ok(NumberOrString::Number(*n as u32))
                } else {
                    Err(DecodeError::WrongShape)
                }
            },
            JsonValue::Text(s) => Ok(NumberOrString::Text(s.clone())),
            _ => Err(DecodeError::WrongShape),
        }
    }
}

/// How a [`BoolOrString`] decodes: a boolean or a string; any other shape
/// is refused.
pub open spec fn spec_decode_bool_or_string(v: JsonView) -> Result<BoolOrStringView, DecodeError> {
    match v {
        JsonView::Bool(b) => Ok(BoolOrStringView::Bool(b)),
        JsonView::Text(s) => Ok(BoolOrStringView::Text(s)),
        _ => Err(DecodeError::WrongShape),
    }
}

impl BoolOrString {
    /// Decodes a JSON value that is either a boolean or a string.
    pub fn from_json(v: &JsonValue) -> (r: Result<BoolOrString, DecodeError>)
        ensures
            view_result(r) == spec_decode_bool_or_string(v.deep_view()),
    {
        match v {
            JsonValue::Bool(b) => Ok(BoolOrString::Bool(*b)),
            JsonValue::Text(s) => Ok(BoolOrString::Text(s.clone())),
            _ => Err(DecodeError::WrongShape),
        }
    }
}

/// A single JSON string decodes to the single form, whatever the string:
/// decoding never fails merely because the value came alone.
pub proof fn lemma_decode_single_text(s: Seq<char>)
    ensures
        spec_decode_string_or_array(JsonView::Text(s)) == Ok::<StringOrArrayView, DecodeError>(
            StringOrArrayView::Text(s),
        ),
{
}

/// A list of JSON strings decodes to the list form holding exactly those
/// strings; in particular a one-element list stays a list, so cardinality
/// round-trips and is not normalized away.
pub proof fn lemma_decode_text_list(items: Seq<JsonView>)
    requires
        spec_all_texts(items),
    ensures
        spec_decode_string_or_array(JsonView::List(items)) == Ok::<
            StringOrArrayView,
            DecodeError,
        >(StringOrArrayView::Array(spec_text_seq(items))),
        spec_text_seq(items).len() == items.len(),
{
}

/// A field bound to `null` decodes as absent — not as an empty list:
/// optionality and cardinality are orthogonal.
pub proof fn lemma_null_field_absent<V>(
    elem: spec_fn(JsonView) -> Result<V, DecodeError>,
    es: Seq<(Seq<char>, JsonView)>,
    key: Seq<char>,
)
    requires
        spec_lookup(es, key) == Some(JsonView::Null),
    ensures
        spec_decode_field(elem, es, key) == Ok::<Option<V>, DecodeError>(None),
{
}

/// How a `u32` element decodes: a number that fits; any other shape is
/// refused.
pub open spec fn spec_decode_u32(v: JsonView) -> Result<u32, DecodeError> {
    match v {
        JsonView::UInt(n) => if n <= u32::MAX {
            Ok(n as u32)
        } else {
            Err(DecodeError::WrongShape)
        },
        _ => Err(DecodeError::WrongShape),
    }
}

fn u32_from_json(v: &JsonValue) -> (r: Result<u32, DecodeError>)
    ensures
        view_result(r) == spec_decode_u32(v.deep_view()),
{
    match v {
        JsonValue::UInt(n) => {
            if *n <= u32::MAX as u64 {
                Ok(*n as u32)
            } else {
                Err(DecodeError::WrongShape)
            }
        },
        _ => Err(DecodeError::WrongShape),
    }
}

/// How an [`ItemOrArray`] decodes for a given element decoding: a JSON list
/// becomes a list of decoded elements — a one-element list stays a list —
/// and any other value decodes as a single element.
pub open spec fn spec_decode_item_or_array<V>(
    elem: spec_fn(JsonView) -> Result<V, DecodeError>,
    v: JsonView,
) -> Result<ItemOrArrayView<V>, DecodeError> {
    match v {
        JsonView::List(items) => if forall|i: int|
            0 <= i < items.len() ==> (#[trigger] elem(items[i])) is Ok {
            Ok(ItemOrArrayView::Array(Seq::new(items.len(), |i: int| elem(items[i])->Ok_0)))
        } else {
            Err(DecodeError::WrongShape)
        },
        _ => match elem(v) {
            Ok(x) => Ok(ItemOrArrayView::Item(x)),
            Err(e) => Err(e),
        },
    }
}

/// How an optional field of an object decodes: a missing key and a `null`
/// value both leave the field absent — optionality and cardinality are
/// orthogonal — and anything else decodes as the element.
pub open spec fn spec_decode_field<V>(
    elem: spec_fn(JsonView) -> Result<V, DecodeError>,
    es: Seq<(Seq<char>, JsonView)>,
    key: Seq<char>,
) -> Result<Option<V>, DecodeError> {
    match spec_lookup(es, key) {
        None => Ok(None),
        Some(j) => if j is Null {
            Ok(None)
        } else {
            match elem(j) {
                Ok(x) => Ok(Some(x)),
                Err(e) => Err(e),
            }
        },
    }
}

fn item_or_array_u32_from_json(v: &JsonValue) -> (r: Result<ItemOrArray<u32>, DecodeError>)
    ensures
        view_result(r) == spec_decode_item_or_array(
            |x: JsonView| spec_decode_u32(x),
            v.deep_view(),
        ),
{
    let ghost elem = |x: JsonView| spec_decode_u32(x);
    match v {
        JsonValue::List(items) => {
            let ghost jitems = json_view(*v)->List_0;
            proof {
                assert(json_view(*v) == JsonView::List(jitems));
            }
            let mut out: Vec<u32> = Vec::new();
            let mut i: usize = 0;
            while i < items.len()
                invariant
                    elem == (|x: JsonView| spec_decode_u32(x)),
                    json_view(*v) == JsonView::List(jitems),
                    jitems == json_view(JsonValue::List(*items))->List_0,
                    jitems.len() == items@.len(),
                    i <= items@.len(),
                    forall|j: int| 0 <= j < i ==> (#[trigger] elem(jitems[j])) is Ok,
                    out@.len() == i,
                    forall|j: int| 0 <= j < i ==> out@[j] == elem(jitems[j])->Ok_0,
                decreases items@.len() - i,
            {
                proof {
                    assert(jitems[i as int] == json_view(items@[i as int]));
                    assert(elem(jitems[i as int]) == spec_decode_u32(jitems[i as int]));
                }
                match u32_from_json(&items[i]) {
                    Ok(x) => {
                        out.push(x);
                    },
                    Err(e) => {
                        proof {
                            assert(!(forall|j: int|
                                0 <= j < jitems.len() ==> (#[trigger] elem(jitems[j])) is Ok))
                                by {
                                assert(0 <= i < jitems.len() && !(elem(jitems[i as int]) is Ok));
                            }
                        }
                        return Err(e);
                    },
                }
                i += 1;
            }
            proof {
                assert(out.deep_view() =~= Seq::new(jitems.len(), |j: int| elem(jitems[j])->Ok_0));
            }
            Ok(ItemOrArray::Array(out))
        },
        _ => {
            proof {
                assert(elem(v.deep_view()) == spec_decode_u32(v.deep_view()));
            }
            match u32_from_json(v) {
                Ok(x) => Ok(ItemOrArray::Item(x)),
                Err(e) => Err(e),
            }
        },
    }
}

/// A single page entry in a pagination list.
#[derive(Debug, Clone, PartialEq, Eq)]
pub struct PageListItem {
    /// The URL of the page, if available.
    pub url: Option<StringOrArray>,
    /// The page number or a placeholder.
    pub number: Option<NumberOrString>,
}

/// The shape of a [`PageListItem`].
pub struct PageListItemView {
    /// The URL of the page, if available.
    pub url: Option<StringOrArrayView>,
    /// The page number or a placeholder.
    pub number: Option<NumberOrStringView>,
}

impl DeepView for PageListItem {
    type V = PageListItemView;

    open spec fn deep_view(&self) -> PageListItemView {
        PageListItemView { url: self.url.deep_view(), number: self.number.deep_view() }
    }
}

pub(crate) fn field_string_or_array(entries: &Vec<(String, JsonValue)>, key: &str) -> (r: Result<
    Option<StringOrArray>,
    DecodeError,
>)
    ensures
        view_result(r) == spec_decode_field(
            |x: JsonView| spec_decode_string_or_array(x),
            entries.deep_view(),
            key@,
        ),
{
    match lookup(entries, key) {
        None => Ok(None),
        Some(val) => match val {
            JsonValue::Null => Ok(None),
            _ => match StringOrArray::from_json(val) {
                Ok(x) => Ok(Some(x)),
                Err(e) => Err(e),
            },
        },
    }
}

pub(crate) fn field_number_or_string(entries: &Vec<(String, JsonValue)>, key: &str) -> (r: Result<
    Option<NumberOrString>,
    DecodeError,
>)
    ensures
        view_result(r) == spec_decode_field(
            |x: JsonView| spec_decode_number_or_string(x),
            entries.deep_view(),
            key@,
        ),
{
    match lookup(entries, key) {
        None => Ok(None),
        Some(val) => match val {
            JsonValue::Null => Ok(None),
            _ => match NumberOrString::from_json(val) {
                Ok(x) => Ok(Some(x)),
                Err(e) => Err(e),
            },
        },
    }
}

/// How a [`PageListItem`] decodes from an object's entries.
pub open spec fn spec_decode_page_list_item(v: JsonView) -> Result<PageListItemView, DecodeError> {
    match v {
        JsonView::Object(es) => {
            let url = spec_decode_field(|x: JsonView| spec_decode_string_or_array(x), es, "url"@);
            let number = spec_decode_field(
                |x: JsonView| spec_decode_number_or_string(x),
                es,
                "number"@,
            );
            if url is Ok && number is Ok {
                Ok(PageListItemView { url: url->Ok_0, number: number->Ok_0 })
            } else {
                Err(DecodeError::WrongShape)
            }
        },
        _ => Err(DecodeError::WrongShape),
    }
}

impl PageListItem {
    /// Decodes one pagination page entry from a JSON object.
    pub fn from_json(v: &JsonValue) -> (r: Result<PageListItem, DecodeError>)
        ensures
            view_result(r) == spec_decode_page_list_item(v.deep_view()),
    {
        let entries = match v {
            JsonValue::Object(es) => es,
            _ => {
                return Err(DecodeError::WrongShape);
            },
        };
        proof {
            assert(json_view(*v)->Object_0 =~= entries.deep_view());
        }
        let url = match field_string_or_array(entries, "url") {
            Ok(x) => x,
            Err(e) => {
                return Err(e);
            },
        };
        let number = match field_number_or_string(entries, "number") {
            Ok(x) => x,
            Err(e) => {
                return Err(e);
            },
        };
        Ok(PageListItem { url, number })
    }
}

/// One filter inside a facet category.
#[derive(Debug, Clone, PartialEq, Eq)]
pub struct FilterItem {
    /// The number of results matching this filter.
    pub count: Option<NumberOrString>,
    /// The URL that negates this filter.
    pub not: Option<StringOrArray>,
    /// The URL that toggles this filter off.
    pub off: Option<StringOrArray>,
    /// The URL that toggles this filter on.
    pub on: Option<StringOrArray>,
    /// The term of the filter.
    pub term: Option<StringOrArray>,
    /// The display title of the filter.
    pub title: Option<StringOrArray>,
}

/// The shape of a [`FilterItem`].
pub struct FilterItemView {
    /// The number of results matching this filter.
    pub count: Option<NumberOrStringView>,
    /// The URL that negates this filter.
    pub not: Option<StringOrArrayView>,
    /// The URL that toggles this filter off.
    pub off: Option<StringOrArrayView>,
    /// The URL that toggles this filter on.
    pub on: Option<StringOrArrayView>,
    /// The term of the filter.
    pub term: Option<StringOrArrayView>,
    /// The display title of the filter.
    pub title: Option<StringOrArrayView>,
}

impl DeepView for FilterItem {
    type V = FilterItemView;

    open spec fn deep_view(&self) -> FilterItemView {
        FilterItemView {
            count: self.count.deep_view(),
            not: self.not.deep_view(),
            off: self.off.deep_view(),
            on: self.on.deep_view(),
            term: self.term.deep_view(),
            title: self.title.deep_view(),
        }
    }
}

/// How a [`FilterItem`] decodes from an object's entries.
pub open spec fn spec_decode_filter_item(v: JsonView) -> Result<FilterItemView, DecodeError> {
    match v {
        JsonView::Object(es) => {
            let count = spec_decode_field(
                |x: JsonView| spec_decode_number_or_string(x),
                es,
                "count"@,
            );
            let not_v = spec_decode_field(|x: JsonView| spec_decode_string_or_array(x), es, "not"@);
            let off_v = spec_decode_field(|x: JsonView| spec_decode_string_or_array(x), es, "off"@);
            let on_v = spec_decode_field(|x: JsonView| spec_decode_string_or_array(x), es, "on"@);
            let term = spec_decode_field(|x: JsonView| spec_decode_string_or_array(x), es, "term"@);
            let title = spec_decode_field(
                |x: JsonView| spec_decode_string_or_array(x),
                es,
                "title"@,
            );
            if count is Ok && not_v is Ok && off_v is Ok && on_v is Ok && term is Ok
                && title is Ok {
                Ok(
                    FilterItemView {
                        count: count->Ok_0,
                        not: not_v->Ok_0,
                        off: off_v->Ok_0,
                        on: on_v->Ok_0,
                        term: term->Ok_0,
                        title: title->Ok_0,
                    },
                )
            } else {
                Err(DecodeError::WrongShape)
            }
        },
        _ => Err(DecodeError::WrongShape),
    }
}

impl FilterItem {
    /// Decodes one facet filter from a JSON object.
    pub fn from_json(v: &JsonValue) -> (r: Result<FilterItem, DecodeError>)
        ensures
            view_result(r) == spec_decode_filter_item(v.deep_view()),
    {
        let entries = match v {
            JsonValue::Object(es) => es,
            _ => {
                return Err(DecodeError::WrongShape);
            },
        };
        proof {
            assert(json_view(*v)->Object_0 =~= entries.deep_view());
        }
        let count = match field_number_or_string(entries, "count") {
            Ok(x) => x,
            Err(e) => {
                return Err(e);
            },
        };
        let not_v = match field_string_or_array(entries, "not") {
            Ok(x) => x,
            Err(e) => {
                return Err(e);
            },
        };
        let off_v = match field_string_or_array(entries, "off") {
            Ok(x) => x,
            Err(e) => {
                return Err(e);
            },
        };
        let on_v = match field_string_or_array(entries, "on") {
            Ok(x) => x,
            Err(e) => {
                return Err(e);
            },
        };
        let term = match field_string_or_array(entries, "term") {
            Ok(x) => x,
            Err(e) => {
                return Err(e);
            },
        };
        let title = match field_string_or_array(entries, "title") {
            Ok(x) => x,
            Err(e) => {
                return Err(e);
            },
        };
        Ok(FilterItem { count, not: not_v, off: off_v, on: on_v, term, title })
    }
}

/// Citation renderings of an item in the common reference styles.
#[derive(Debug, Clone, PartialEq, Eq)]
pub struct CiteThis {
    /// The citation in Chicago style.
    pub chicago: Option<StringOrArray>,
    /// The citation in MLA style.
    pub mla: Option<StringOrArray>,
    /// The citation in APA style.
    pub apa: Option<StringOrArray>,
}

/// The shape of a [`CiteThis`].
pub struct CiteThisView {
    /// The citation in Chicago style.
    pub chicago: Option<StringOrArrayView>,
    /// The citation in MLA style.
    pub mla: Option<StringOrArrayView>,
    /// The citation in APA style.
    pub apa: Option<StringOrArrayView>,
}

impl DeepView for CiteThis {
    type V = CiteThisView;

    open spec fn deep_view(&self) -> CiteThisView {
        CiteThisView {
            chicago: self.chicago.deep_view(),
            mla: self.mla.deep_view(),
            apa: self.apa.deep_view(),
        }
    }
}

/// How a [`CiteThis`] decodes from an object's entries.
pub open spec fn spec_decode_cite_this(v: JsonView) -> Result<CiteThisView, DecodeError> {
    match v {
        JsonView::Object(es) => {
            let chicago = spec_decode_field(
                |x: JsonView| spec_decode_string_or_array(x),
                es,
                "chicago"@,
            );
            let mla = spec_decode_field(|x: JsonView| spec_decode_string_or_array(x), es, "mla"@);
            let apa = spec_decode_field(|x: JsonView| spec_decode_string_or_array(x), es, "apa"@);
            if chicago is Ok && mla is Ok && apa is Ok {
                Ok(CiteThisView { chicago: chicago->Ok_0, mla: mla->Ok_0, apa: apa->Ok_0 })
            } else {
                Err(DecodeError::WrongShape)
            }
        },
        _ => Err(DecodeError::WrongShape),
    }
}

impl CiteThis {
    /// Decodes the citation section from a JSON object.
    pub fn from_json(v: &JsonValue) -> (r: Result<CiteThis, DecodeError>)
        ensures
            view_result(r) == spec_decode_cite_this(v.deep_view()),
    {
        let entries = match v {
            JsonValue::Object(es) => es,
            _ => {
                return Err(DecodeError::WrongShape);
            },
        };
        proof {
            assert(json_view(*v)->Object_0 =~= entries.deep_view());
        }
        let chicago = match field_string_or_array(entries, "chicago") {
            Ok(x) => x,
            Err(e) => {
                return Err(e);
            },
        };
        let mla = match field_string_or_array(entries, "mla") {
            Ok(x) => x,
            Err(e) => {
                return Err(e);
            },
        };
        let apa = match field_string_or_array(entries, "apa") {
            Ok(x) => x,
            Err(e) => {
                return Err(e);
            },
        };
        Ok(CiteThis { chicago, mla, apa })
    }
}

fn item_or_array_page_list_from_json(v: &JsonValue) -> (r: Result<
    ItemOrArray<PageListItem>,
    DecodeError,
>)
    ensures
        view_result(r) == spec_decode_item_or_array(
            |x: JsonView| spec_decode_page_list_item(x),
            v.deep_view(),
        ),
{
    let ghost elem = |x: JsonView| spec_decode_page_list_item(x);
    match v {
        JsonValue::List(items) => {
            let ghost jitems = json_view(*v)->List_0;
            proof {
                assert(json_view(*v) == JsonView::List(jitems));
            }
            let mut out: Vec<PageListItem> = Vec::new();
            let mut i: usize = 0;
            while i < items.len()
                invariant
                    elem == (|x: JsonView| spec_decode_page_list_item(x)),
                    json_view(*v) == JsonView::List(jitems),
                    jitems == json_view(JsonValue::List(*items))->List_0,
                    jitems.len() == items@.len(),
                    i <= items@.len(),
                    forall|j: int| 0 <= j < i ==> (#[trigger] elem(jitems[j])) is Ok,
                    out@.len() == i,
                    forall|j: int| 0 <= j < i ==> out@[j].deep_view() == elem(jitems[j])->Ok_0,
                decreases items@.len() - i,
            {
                proof {
                    assert(jitems[i as int] == json_view(items@[i as int]));
                    assert(elem(jitems[i as int]) == spec_decode_page_list_item(jitems[i as int]));
                }
                match PageListItem::from_json(&items[i]) {
                    Ok(x) => {
                        out.push(x);
                    },
                    Err(e) => {
                        proof {
                            assert(!(forall|j: int|
                                0 <= j < jitems.len() ==> (#[trigger] elem(jitems[j])) is Ok))
                                by {
                                assert(0 <= i < jitems.len() && !(elem(jitems[i as int]) is Ok));
                            }
                        }
                        return Err(e);
                    },
                }
                i += 1;
            }
            proof {
                assert(out.deep_view() =~= Seq::new(jitems.len(), |j: int| elem(jitems[j])->Ok_0));
            }
            Ok(ItemOrArray::Array(out))
        },
        _ => {
            proof {
                assert(elem(v.deep_view()) == spec_decode_page_list_item(v.deep_view()));
            }
            match PageListItem::from_json(v) {
                Ok(x) => Ok(ItemOrArray::Item(x)),
                Err(e) => Err(e),
            }
        },
    }
}

fn item_or_array_filters_from_json(v: &JsonValue) -> (r: Result<
    ItemOrArray<FilterItem>,
    DecodeError,
>)
    ensures
        view_result(r) == spec_decode_item_or_array(
            |x: JsonView| spec_decode_filter_item(x),
            v.deep_view(),
        ),
{
    let ghost elem = |x: JsonView| spec_decode_filter_item(x);
    match v {
        JsonValue::List(items) => {
            let ghost jitems = json_view(*v)->List_0;
            proof {
                assert(json_view(*v) == JsonView::List(jitems));
            }
            let mut out: Vec<FilterItem> = Vec::new();
            let mut i: usize = 0;
            while i < items.len()
                invariant
                    elem == (|x: JsonView| spec_decode_filter_item(x)),
                    json_view(*v) == JsonView::List(jitems),
                    jitems == json_view(JsonValue::List(*items))->List_0,
                    jitems.len() == items@.len(),
                    i <= items@.len(),
                    forall|j: int| 0 <= j < i ==> (#[trigger] elem(jitems[j])) is Ok,
                    out@.len() == i,
                    forall|j: int| 0 <= j < i ==> out@[j].deep_view() == elem(jitems[j])->Ok_0,
                decreases items@.len() - i,
            {
                proof {
                    assert(jitems[i as int] == json_view(items@[i as int]));
                    assert(elem(jitems[i as int]) == spec_decode_filter_item(jitems[i as int]));
                }
                match FilterItem::from_json(&items[i]) {
                    Ok(x) => {
                        out.push(x);
                    },
                    Err(e) => {
                        proof {
                            assert(!(forall|j: int|
                                0 <= j < jitems.len() ==> (#[trigger] elem(jitems[j])) is Ok))
                                by {
                                assert(0 <= i < jitems.len() && !(elem(jitems[i as int]) is Ok));
                            }
                        }
                        return Err(e);
                    },
                }
                i += 1;
            }
            proof {
                assert(out.deep_view() =~= Seq::new(jitems.len(), |j: int| elem(jitems[j])->Ok_0));
            }
            Ok(ItemOrArray::Array(out))
        },
        _ => {
            proof {
                assert(elem(v.deep_view()) == spec_decode_filter_item(v.deep_view()));
            }
            match FilterItem::from_json(v) {
                Ok(x) => Ok(ItemOrArray::Item(x)),
                Err(e) => Err(e),
            }
        },
    }
}

/// One facet category of a search response.
#[derive(Debug, Clone, PartialEq, Eq)]
pub struct FacetRes {
    /// The filters within the facet.
    pub filters: Option<ItemOrArray<FilterItem>>,
}

/// The shape of a [`FacetRes`].
pub struct FacetResView {
    /// The filters within the facet.
    pub filters: Option<ItemOrArrayView<FilterItemView>>,
}

impl DeepView for FacetRes {
    type V = FacetResView;

    open spec fn deep_view(&self) -> FacetResView {
        FacetResView { filters: self.filters.deep_view() }
    }
}

/// How a [`FacetRes`] decodes from an object's entries.
pub open spec fn spec_decode_facet_res(v: JsonView) -> Result<FacetResView, DecodeError> {
    match v {
        JsonView::Object(es) => {
            let filters = spec_decode_field(
                |x: JsonView| spec_decode_item_or_array(
                    |y: JsonView| spec_decode_filter_item(y),
                    x,
                ),
                es,
                "filters"@,
            );
            match filters {
                Ok(f) => Ok(FacetResView { filters: f }),
                Err(e) => Err(e),
            }
        },
        _ => Err(DecodeError::WrongShape),
    }
}

impl FacetRes {
    /// Decodes one facet category from a JSON object.
    pub fn from_json(v: &JsonValue) -> (r: Result<FacetRes, DecodeError>)
        ensures
            view_result(r) == spec_decode_facet_res(v.deep_view()),
    {
        let entries = match v {
            JsonValue::Object(es) => es,
            _ => {
                return Err(DecodeError::WrongShape);
            },
        };
        proof {
            assert(json_view(*v)->Object_0 =~= entries.deep_view());
        }
        let ghost elem = |x: JsonView| spec_decode_item_or_array(
            |y: JsonView| spec_decode_filter_item(y),
            x,
        );
        let filters = match lookup(entries, "filters") {
            None => None,
            Some(val) => match val {
                JsonValue::Null => None,
                _ => {
                    proof {
                        assert(elem(val.deep_view()) == spec_decode_item_or_array(
                            |y: JsonView| spec_decode_filter_item(y),
                            val.deep_view(),
                        ));
                    }
                    match item_or_array_filters_from_json(val) {
                        Ok(x) => Some(x),
                        Err(e) => {
                            return Err(e);
                        },
                    }
                },
            },
        };
        Ok(FacetRes { filters })
    }
}

pub(crate) fn field_u32_item_or_array(entries: &Vec<(String, JsonValue)>, key: &str) -> (r: Result<
    Option<ItemOrArray<u32>>,
    DecodeError,
>)
    ensures
        view_result(r) == spec_decode_field(
            |x: JsonView| spec_decode_item_or_array(|y: JsonView| spec_decode_u32(y), x),
            entries.deep_view(),
            key@,
        ),
{
    let ghost elem = |x: JsonView| spec_decode_item_or_array(|y: JsonView| spec_decode_u32(y), x);
    match lookup(entries, key) {
        None => Ok(None),
        Some(val) => match val {
            JsonValue::Null => Ok(None),
            _ => {
                proof {
                    assert(elem(val.deep_view()) == spec_decode_item_or_array(
                        |y: JsonView| spec_decode_u32(y),
                        val.deep_view(),
                    ));
                }
                match item_or_array_u32_from_json(val) {
                    Ok(x) => Ok(Some(x)),
                    Err(e) => Err(e),
                }
            },
        },
    }
}

pub(crate) fn field_page_list(entries: &Vec<(String, JsonValue)>, key: &str) -> (r: Result<
    Option<ItemOrArray<PageListItem>>,
    DecodeError,
>)
    ensures
        view_result(r) == spec_decode_field(
            |x: JsonView| spec_decode_item_or_array(
                |y: JsonView| spec_decode_page_list_item(y),
                x,
            ),
            entries.deep_view(),
            key@,
        ),
{
    let ghost elem = |x: JsonView| spec_decode_item_or_array(
        |y: JsonView| spec_decode_page_list_item(y),
        x,
    );
    match lookup(entries, key) {
        None => Ok(None),
        Some(val) => match val {
            JsonValue::Null => Ok(None),
            _ => {
                proof {
                    assert(elem(val.deep_view()) == spec_decode_item_or_array(
                        |y: JsonView| spec_decode_page_list_item(y),
                        val.deep_view(),
                    ));
                }
                match item_or_array_page_list_from_json(val) {
                    Ok(x) => Ok(Some(x)),
                    Err(e) => Err(e),
                }
            },
        },
    }
}

/// How a bare string element decodes: a JSON string; any other shape is
/// refused.
pub open spec fn spec_decode_text(v: JsonView) -> Result<Seq<char>, DecodeError> {
    match v {
        JsonView::Text(s) => Ok(s),
        _ => Err(DecodeError::WrongShape),
    }
}

fn text_from_json(v: &JsonValue) -> (r: Result<String, DecodeError>)
    ensures
        view_result(r) == spec_decode_text(v.deep_view()),
{
    match v {
        JsonValue::Text(s) => Ok(s.clone()),
        _ => Err(DecodeError::WrongShape),
    }
}

pub(crate) fn item_or_array_texts_from_json(v: &JsonValue) -> (r: Result<
    ItemOrArray<String>,
    DecodeError,
>)
    ensures
        view_result(r) == spec_decode_item_or_array(
            |x: JsonView| spec_decode_text(x),
            v.deep_view(),
        ),
{
    let ghost elem = |x: JsonView| spec_decode_text(x);
    match v {
        JsonValue::List(items) => {
            let ghost jitems = json_view(*v)->List_0;
            proof {
                assert(json_view(*v) == JsonView::List(jitems));
            }
            let mut out: Vec<String> = Vec::new();
            let mut i: usize = 0;
            while i < items.len()
                invariant
                    elem == (|x: JsonView| spec_decode_text(x)),
                    json_view(*v) == JsonView::List(jitems),
                    jitems == json_view(JsonValue::List(*items))->List_0,
                    jitems.len() == items@.len(),
                    i <= items@.len(),
                    forall|j: int| 0 <= j < i ==> (#[trigger] elem(jitems[j])) is Ok,
                    out@.len() == i,
                    forall|j: int| 0 <= j < i ==> out@[j].deep_view() == elem(jitems[j])->Ok_0,
                decreases items@.len() - i,
            {
                proof {
                    assert(jitems[i as int] == json_view(items@[i as int]));
                    assert(elem(jitems[i as int]) == spec_decode_text(jitems[i as int]));
                }
                match text_from_json(&items[i]) {
                    Ok(x) => {
                        out.push(x);
                    },
                    Err(e) => {
                        proof {
                            assert(!(forall|j: int|
                                0 <= j < jitems.len() ==> (#[trigger] elem(jitems[j])) is Ok))
                                by {
                                assert(0 <= i < jitems.len() && !(elem(jitems[i as int]) is Ok));
                            }
                        }
                        return Err(e);
                    },
                }
                i += 1;
            }
            proof {
                assert(out.deep_view() =~= Seq::new(jitems.len(), |j: int| elem(jitems[j])->Ok_0));
            }
            Ok(ItemOrArray::Array(out))
        },
        _ => {
            proof {
                assert(elem(v.deep_view()) == spec_decode_text(v.deep_view()));
            }
            match text_from_json(v) {
                Ok(x) => Ok(ItemOrArray::Item(x)),
                Err(e) => Err(e),
            }
        },
    }
}

pub(crate) fn field_bool_or_string(entries: &Vec<(String, JsonValue)>, key: &str) -> (r: Result<
    Option<BoolOrString>,
    DecodeError,
>)
    ensures
        view_result(r) == spec_decode_field(
            |x: JsonView| spec_decode_bool_or_string(x),
            entries.deep_view(),
            key@,
        ),
{
    match lookup(entries, key) {
        None => Ok(None),
        Some(val) => match val {
            JsonValue::Null => Ok(None),
            _ => match BoolOrString::from_json(val) {
                Ok(x) => Ok(Some(x)),
                Err(e) => Err(e),
            },
        },
    }
}

pub(crate) fn field_texts(entries: &Vec<(String, JsonValue)>, key: &str) -> (r: Result<
    Option<ItemOrArray<String>>,
    DecodeError,
>)
    ensures
        view_result(r) == spec_decode_field(
            |x: JsonView| spec_decode_item_or_array(|y: JsonView| spec_decode_text(y), x),
            entries.deep_view(),
            key@,
        ),
{
    let ghost elem = |x: JsonView| spec_decode_item_or_array(|y: JsonView| spec_decode_text(y), x);
    match lookup(entries, key) {
        None => Ok(None),
        Some(val) => match val {
            JsonValue::Null => Ok(None),
            _ => {
                proof {
                    assert(elem(val.deep_view()) == spec_decode_item_or_array(
                        |y: JsonView| spec_decode_text(y),
                        val.deep_view(),
                    ));
                }
                match item_or_array_texts_from_json(val) {
                    Ok(x) => Ok(Some(x)),
                    Err(e) => Err(e),
                }
            },
        },
    }
}

/// The pagination section of a response.
#[derive(Debug, Clone, PartialEq, Eq)]
pub struct Pagination {
    /// The index of the first result item on the current page.
    pub from: Option<NumberOrString>,
    /// The range of result items on the current page.
    pub results: Option<StringOrArray>,
    /// The URL of the last page of results.
    pub last: Option<StringOrArray>,
    /// The total number of result items across all pages.
    pub total: Option<NumberOrString>,
    /// The URL of the previous page of results, if any.
    pub previous: Option<StringOrArray>,
    /// The number of result items per page.
    pub perpage: Option<NumberOrString>,
    /// The page sizes the server offers.
    pub perpage_options: Option<ItemOrArray<u32>>,
    /// The total number of pages available.
    pub of: Option<NumberOrString>,
    /// The URL of the next page of results, if any.
    pub next: Option<StringOrArray>,
    /// The current page number.
    pub current: Option<NumberOrString>,
    /// The index of the last result item on the current page.
    pub to: Option<NumberOrString>,
    /// The pages available for navigation.
    pub page_list: Option<ItemOrArray<PageListItem>>,
    /// The URL of the first page of results.
    pub first: Option<StringOrArray>,
}

/// The shape of a [`Pagination`].
pub struct PaginationView {
    /// The index of the first result item on the current page.
    pub from: Option<NumberOrStringView>,
    /// The range of result items on the current page.
    pub results: Option<StringOrArrayView>,
    /// The URL of the last page of results.
    pub last: Option<StringOrArrayView>,
    /// The total number of result items across all pages.
    pub total: Option<NumberOrStringView>,
    /// The URL of the previous page of results, if any.
    pub previous: Option<StringOrArrayView>,
    /// The number of result items per page.
    pub perpage: Option<NumberOrStringView>,
    /// The page sizes the server offers.
    pub perpage_options: Option<ItemOrArrayView<u32>>,
    /// The total number of pages available.
    pub of: Option<NumberOrStringView>,
    /// The URL of the next page of results, if any.
    pub next: Option<StringOrArrayView>,
    /// The current page number.
    pub current: Option<NumberOrStringView>,
    /// The index of the last result item on the current page.
    pub to: Option<NumberOrStringView>,
    /// The pages available for navigation.
    pub page_list: Option<ItemOrArrayView<PageListItemView>>,
    /// The URL of the first page of results.
    pub first: Option<StringOrArrayView>,
}

impl DeepView for Pagination {
    type V = PaginationView;

    open spec fn deep_view(&self) -> PaginationView {
        PaginationView {
            from: self.from.deep_view(),
            results: self.results.deep_view(),
            last: self.last.deep_view(),
            total: self.total.deep_view(),
            previous: self.previous.deep_view(),
            perpage: self.perpage.deep_view(),
            perpage_options: self.perpage_options.deep_view(),
            of: self.of.deep_view(),
            next: self.next.deep_view(),
            current: self.current.deep_view(),
            to: self.to.deep_view(),
            page_list: self.page_list.deep_view(),
            first: self.first.deep_view(),
        }
    }
}

/// How a [`Pagination`] decodes from an object's entries.
pub open spec fn spec_decode_pagination(v: JsonView) -> Result<PaginationView, DecodeError> {
    match v {
        JsonView::Object(es) => {
            let from = spec_decode_field(
                |x: JsonView| spec_decode_number_or_string(x),
                es,
                "from"@,
            );
            let results = spec_decode_field(
                |x: JsonView| spec_decode_string_or_array(x),
                es,
                "results"@,
            );
            let last = spec_decode_field(
                |x: JsonView| spec_decode_string_or_array(x),
                es,
                "last"@,
            );
            let total = spec_decode_field(
                |x: JsonView| spec_decode_number_or_string(x),
                es,
                "total"@,
            );
            let previous = spec_decode_field(
                |x: JsonView| spec_decode_string_or_array(x),
                es,
                "previous"@,
            );
            let perpage = spec_decode_field(
                |x: JsonView| spec_decode_number_or_string(x),
                es,
                "perpage"@,
            );
            let perpage_options = spec_decode_field(
                |x: JsonView| spec_decode_item_or_array(|y: JsonView| spec_decode_u32(y), x),
                es,
                "perpage_options"@,
            );
            let of_v = spec_decode_field(
                |x: JsonView| spec_decode_number_or_string(x),
                es,
                "of"@,
            );
            let next = spec_decode_field(
                |x: JsonView| spec_decode_string_or_array(x),
                es,
                "next"@,
            );
            let current = spec_decode_field(
                |x: JsonView| spec_decode_number_or_string(x),
                es,
                "current"@,
            );
            let to_v = spec_decode_field(
                |x: JsonView| spec_decode_number_or_string(x),
                es,
                "to"@,
            );
            let page_list = spec_decode_field(
                |x: JsonView| spec_decode_item_or_array(
                    |y: JsonView| spec_decode_page_list_item(y),
                    x,
                ),
                es,
                "page_list"@,
            );
            let first = spec_decode_field(
                |x: JsonView| spec_decode_string_or_array(x),
                es,
                "first"@,
            );
            if from is Ok && results is Ok && last is Ok && total is Ok && previous is Ok
                && perpage is Ok && perpage_options is Ok && of_v is Ok && next is Ok
                && current is Ok && to_v is Ok && page_list is Ok && first is Ok {
                Ok(
                    PaginationView {
                        from: from->Ok_0,
                        results: results->Ok_0,
                        last: last->Ok_0,
                        total: total->Ok_0,
                        previous: previous->Ok_0,
                        perpage: perpage->Ok_0,
                        perpage_options: perpage_options->Ok_0,
                        of: of_v->Ok_0,
                        next: next->Ok_0,
                        current: current->Ok_0,
                        to: to_v->Ok_0,
                        page_list: page_list->Ok_0,
                        first: first->Ok_0,
                    },
                )
            } else {
                Err(DecodeError::WrongShape)
            }
        },
        _ => Err(DecodeError::WrongShape),
    }
}

impl Pagination {
    /// Decodes the pagination section from a JSON object.
    #[verifier::rlimit(30)]
    pub fn from_json(v: &JsonValue) -> (r: Result<Pagination, DecodeError>)
        ensures
            view_result(r) == spec_decode_pagination(v.deep_view()),
    {
        let entries = match v {
            JsonValue::Object(es) => es,
            _ => {
                return Err(DecodeError::WrongShape);
            },
        };
        proof {
            assert(json_view(*v)->Object_0 =~= entries.deep_view());
        }
        let from = match field_number_or_string(entries, "from") {
            Ok(x) => x,
            Err(e) => {
                return Err(e);
            },
        };
        let results = match field_string_or_array(entries, "results") {
            Ok(x) => x,
            Err(e) => {
                return Err(e);
            },
        };
        let last = match field_string_or_array(entries, "last") {
            Ok(x) => x,
            Err(e) => {
                return Err(e);
            },
        };
        let total = match field_number_or_string(entries, "total") {
            Ok(x) => x,
            Err(e) => {
                return Err(e);
            },
        };
        let previous = match field_string_or_array(entries, "previous") {
            Ok(x) => x,
            Err(e) => {
                return Err(e);
            },
        };
        let perpage = match field_number_or_string(entries, "perpage") {
            Ok(x) => x,
            Err(e) => {
                return Err(e);
            },
        };
        let perpage_options = match field_u32_item_or_array(entries, "perpage_options") {
            Ok(x) => x,
            Err(e) => {
                return Err(e);
            },
        };
        let of_v = match field_number_or_string(entries, "of") {
            Ok(x) => x,
            Err(e) => {
                return Err(e);
            },
        };
        let next = match field_string_or_array(entries, "next") {
            Ok(x) => x,
            Err(e) => {
                return Err(e);
            },
        };
        let current = match field_number_or_string(entries, "current") {
            Ok(x) => x,
            Err(e) => {
                return Err(e);
            },
        };
        let to_v = match field_number_or_string(entries, "to") {
            Ok(x) => x,
            Err(e) => {
                return Err(e);
            },
        };
        let page_list = match field_page_list(entries, "page_list") {
            Ok(x) => x,
            Err(e) => {
                return Err(e);
            },
        };
        let first = match field_string_or_array(entries, "first") {
            Ok(x) => x,
            Err(e) => {
                return Err(e);
            },
        };
        Ok(
            Pagination {
                from,
                results,
                last,
                total,
                previous,
                perpage,
                perpage_options,
                of: of_v,
                next,
                current,
                to: to_v,
                page_list,
                first,
            },
        )
    }
}

} // verus!
