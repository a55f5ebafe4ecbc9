use loc_api::errors::DecodeError;
use loc_api::json::JsonValue;
use loc_api::response_models::BoolOrString;
use loc_api::response_models::CiteThis;
use loc_api::response_models::FacetRes;
use loc_api::response_models::FilterItem;
use loc_api::response_models::ItemOrArray;
use loc_api::response_models::NumberOrString;
use loc_api::response_models::PageListItem;
use loc_api::response_models::Pagination;
use loc_api::response_models::StringOrArray;

fn text(s: &str) -> JsonValue {
    JsonValue::Text(s.to_string())
}

fn obj(entries: Vec<(&str, JsonValue)>) -> JsonValue {
    JsonValue::Object(entries.into_iter().map(|(k, v)| (k.to_string(), v)).collect())
}

#[test]
fn a_single_string_decodes_as_single() {
    let r = StringOrArray::from_json(&text("x"));
    assert_eq!(r, Ok(StringOrArray::Text("x".to_string())));
}

#[test]
fn a_string_list_decodes_as_list() {
    let r = StringOrArray::from_json(&JsonValue::List(vec![text("x"), text("y")]));
    assert_eq!(
        r,
        Ok(StringOrArray::Array(vec!["x".to_string(), "y".to_string()]))
    );
}

#[test]
fn a_one_element_list_stays_a_list() {
    let r = StringOrArray::from_json(&JsonValue::List(vec![text("x")]));
    assert_eq!(r, Ok(StringOrArray::Array(vec!["x".to_string()])));
}

#[test]
fn a_number_is_not_a_string_or_array() {
    let r = StringOrArray::from_json(&JsonValue::UInt(3));
    assert_eq!(r, Err(DecodeError::WrongShape));
}

#[test]
fn a_list_with_a_non_string_is_refused() {
    let r = StringOrArray::from_json(&JsonValue::List(vec![text("x"), JsonValue::UInt(1)]));
    assert_eq!(r, Err(DecodeError::WrongShape));
}

#[test]
fn bare_null_is_not_a_string_or_array() {
    let r = StringOrArray::from_json(&JsonValue::Null);
    assert_eq!(r, Err(DecodeError::WrongShape));
}

#[test]
fn a_count_decodes_from_a_number_or_its_text() {
    assert_eq!(
        NumberOrString::from_json(&JsonValue::UInt(5)),
        Ok(NumberOrString::Number(5))
    );
    assert_eq!(
        NumberOrString::from_json(&text("12")),
        Ok(NumberOrString::Text("12".to_string()))
    );
}

#[test]
fn a_count_too_large_for_u32_is_refused() {
    let r = NumberOrString::from_json(&JsonValue::UInt(5_000_000_000));
    assert_eq!(r, Err(DecodeError::WrongShape));
}

#[test]
fn a_negative_number_is_refused() {
    let r = NumberOrString::from_json(&JsonValue::OtherNum("-1".to_string()));
    assert_eq!(r, Err(DecodeError::WrongShape));
}

#[test]
fn a_flag_decodes_from_a_bool_or_its_text() {
    assert_eq!(
        BoolOrString::from_json(&JsonValue::Bool(true)),
        Ok(BoolOrString::Bool(true))
    );
    assert_eq!(
        BoolOrString::from_json(&text("true")),
        Ok(BoolOrString::Text("true".to_string()))
    );
    assert_eq!(
        BoolOrString::from_json(&JsonValue::UInt(1)),
        Err(DecodeError::WrongShape)
    );
}

#[test]
fn filter_item_decodes_its_fields() {
    let v = obj(vec![
        ("count", JsonValue::UInt(10)),
        ("term", text("geography")),
        ("title", text("Geography")),
    ]);
    let f = FilterItem::from_json(&v).unwrap();
    assert_eq!(f.count, Some(NumberOrString::Number(10)));
    assert_eq!(f.term, Some(StringOrArray::Text("geography".to_string())));
    assert_eq!(f.title, Some(StringOrArray::Text("Geography".to_string())));
    assert_eq!(f.not, None);
    assert_eq!(f.off, None);
    assert_eq!(f.on, None);
}

#[test]
fn a_null_field_is_absent_not_an_empty_list() {
    let v = obj(vec![("term", JsonValue::Null), ("count", JsonValue::UInt(2))]);
    let f = FilterItem::from_json(&v).unwrap();
    assert_eq!(f.term, None);
    assert_eq!(f.count, Some(NumberOrString::Number(2)));
}

#[test]
fn a_missing_field_is_absent() {
    let f = FilterItem::from_json(&obj(vec![])).unwrap();
    assert_eq!(f.count, None);
    assert_eq!(f.term, None);
}

#[test]
fn a_field_of_the_wrong_shape_fails_the_record() {
    let v = obj(vec![("count", JsonValue::Bool(true))]);
    assert_eq!(FilterItem::from_json(&v), Err(DecodeError::WrongShape));
}

#[test]
fn a_filter_item_must_be_an_object() {
    assert_eq!(FilterItem::from_json(&text("x")), Err(DecodeError::WrongShape));
}

#[test]
fn unknown_keys_are_tolerated() {
    let v = obj(vec![
        ("brand_new_field", JsonValue::Bool(true)),
        ("count", JsonValue::UInt(1)),
    ]);
    let f = FilterItem::from_json(&v).unwrap();
    assert_eq!(f.count, Some(NumberOrString::Number(1)));
}

#[test]
fn pagination_decodes_counts_in_either_shape() {
    let v = obj(vec![
        ("from", JsonValue::UInt(1)),
        ("total", text("12000")),
        ("perpage", JsonValue::UInt(25)),
        ("perpage_options", JsonValue::List(vec![JsonValue::UInt(10), JsonValue::UInt(25)])),
        ("current", JsonValue::UInt(1)),
    ]);
    let p = Pagination::from_json(&v).unwrap();
    assert_eq!(p.from, Some(NumberOrString::Number(1)));
    assert_eq!(p.total, Some(NumberOrString::Text("12000".to_string())));
    assert_eq!(p.perpage, Some(NumberOrString::Number(25)));
    assert_eq!(p.perpage_options, Some(ItemOrArray::Array(vec![10, 25])));
    assert_eq!(p.current, Some(NumberOrString::Number(1)));
    assert_eq!(p.next, None);
    assert_eq!(p.page_list, None);
}

#[test]
fn pagination_page_list_decodes_single_or_many() {
    let one = obj(vec![(
        "page_list",
        obj(vec![("number", JsonValue::UInt(1)), ("url", JsonValue::Null)]),
    )]);
    let p = Pagination::from_json(&one).unwrap();
    assert_eq!(
        p.page_list,
        Some(ItemOrArray::Item(PageListItem { url: None, number: Some(NumberOrString::Number(1)) }))
    );

    let many = obj(vec![(
        "page_list",
        JsonValue::List(vec![
            obj(vec![("number", JsonValue::UInt(1))]),
            obj(vec![("number", text("..."))]),
        ]),
    )]);
    let p = Pagination::from_json(&many).unwrap();
    match p.page_list {
        Some(ItemOrArray::Array(pages)) => {
            assert_eq!(pages.len(), 2);
            assert_eq!(pages[0].number, Some(NumberOrString::Number(1)));
            assert_eq!(pages[1].number, Some(NumberOrString::Text("...".to_string())));
        }
        other => panic!("expected an array of pages, got {:?}", other),
    }
}

#[test]
fn facet_res_decodes_a_filter_list() {
    let v = obj(vec![(
        "filters",
        JsonValue::List(vec![obj(vec![("count", JsonValue::UInt(7)), ("term", text("maps"))])]),
    )]);
    let f = FacetRes::from_json(&v).unwrap();
    match f.filters {
        Some(ItemOrArray::Array(filters)) => {
            assert_eq!(filters.len(), 1);
            assert_eq!(filters[0].count, Some(NumberOrString::Number(7)));
            assert_eq!(filters[0].term, Some(StringOrArray::Text("maps".to_string())));
        }
        other => panic!("expected an array of filters, got {:?}", other),
    }
}

#[test]
fn cite_this_decodes_the_three_styles() {
    let v = obj(vec![
        ("chicago", text("Chicago citation")),
        ("mla", text("MLA citation")),
        ("apa", JsonValue::Null),
    ]);
    let c = CiteThis::from_json(&v).unwrap();
    assert_eq!(c.chicago, Some(StringOrArray::Text("Chicago citation".to_string())));
    assert_eq!(c.mla, Some(StringOrArray::Text("MLA citation".to_string())));
    assert_eq!(c.apa, None);
}
