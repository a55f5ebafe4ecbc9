use loc_api::envelopes::CollectionsResponse;
use loc_api::envelopes::ItemSummary;
use loc_api::envelopes::ResultItem;
use loc_api::envelopes::SearchResultResponse;
use loc_api::errors::DecodeError;
use loc_api::json::JsonValue;
use loc_api::resource_models::CollectionDetail;
use loc_api::resource_models::File;
use loc_api::resource_models::ItemResponse;
use loc_api::resource_models::ResourceDetail;
use loc_api::resource_models::ResourceObject;
use loc_api::response_models::ItemOrArray;
use loc_api::response_models::NumberOrString;
use loc_api::response_models::StringOrArray;

fn text(s: &str) -> JsonValue {
    JsonValue::Text(s.to_string())
}

fn obj(entries: Vec<(&str, JsonValue)>) -> JsonValue {
    JsonValue::Object(entries.into_iter().map(|(k, v)| (k.to_string(), v)).collect())
}

#[test]
fn search_result_response_decodes_its_sections() {
    let v = obj(vec![
        ("pagination", obj(vec![("total", JsonValue::UInt(120)), ("current", JsonValue::UInt(1))])),
        (
            "results",
            JsonValue::List(vec![
                obj(vec![("id", text("https://www.loc.gov/item/1/"))]),
                obj(vec![("id", text("https://www.loc.gov/item/2/"))]),
            ]),
        ),
    ]);
    let r = SearchResultResponse::from_json(&v).unwrap();
    let pagination = r.pagination.unwrap();
    assert_eq!(pagination.total, Some(NumberOrString::Number(120)));
    let results = r.results.unwrap();
    assert_eq!(results.len(), 2);
    assert_eq!(results[0].id, Some(StringOrArray::Text("https://www.loc.gov/item/1/".to_string())));
    assert!(r.facets.is_none());
    assert!(r.additional.is_empty());
}

#[test]
fn unknown_top_level_keys_are_kept_verbatim() {
    let v = obj(vec![
        ("brand_new_section", JsonValue::Bool(true)),
        ("pagination", obj(vec![])),
        ("another_novelty", text("kept")),
    ]);
    let r = SearchResultResponse::from_json(&v).unwrap();
    assert_eq!(r.additional.len(), 2);
    assert_eq!(r.additional[0].0, "brand_new_section");
    assert!(matches!(r.additional[0].1, JsonValue::Bool(true)));
    assert_eq!(r.additional[1].0, "another_novelty");
    assert!(matches!(r.additional[1].1, JsonValue::Text(ref s) if s == "kept"));
    assert!(r.pagination.is_some());
}

#[test]
fn a_search_envelope_must_be_an_object() {
    assert!(matches!(
        SearchResultResponse::from_json(&JsonValue::List(vec![])),
        Err(DecodeError::WrongShape)
    ));
}

#[test]
fn result_item_tolerates_single_or_many_everywhere() {
    let single = obj(vec![
        ("title", text("A map")),
        ("subject", text("geography")),
        ("item", obj(vec![("title", text("A map"))])),
    ]);
    let r = ResultItem::from_json(&single).unwrap();
    assert_eq!(r.subject, Some(ItemOrArray::Item("geography".to_string())));
    match r.item.unwrap() {
        ItemOrArray::Item(summary) => {
            assert_eq!(summary.title, Some(StringOrArray::Text("A map".to_string())));
        }
        other => panic!("expected a single summary, got {:?}", other),
    }

    let many = obj(vec![
        ("subject", JsonValue::List(vec![text("geography"), text("maps")])),
        ("item", JsonValue::List(vec![obj(vec![("title", text("A map"))])])),
    ]);
    let r = ResultItem::from_json(&many).unwrap();
    assert_eq!(
        r.subject,
        Some(ItemOrArray::Array(vec!["geography".to_string(), "maps".to_string()]))
    );
    assert!(matches!(r.item, Some(ItemOrArray::Array(ref items)) if items.len() == 1));
}

#[test]
fn item_summary_keeps_unknown_fields() {
    let v = obj(vec![
        ("title", text("On rivers")),
        ("completely_new", JsonValue::UInt(9)),
    ]);
    let s = ItemSummary::from_json(&v).unwrap();
    assert_eq!(s.title, Some(StringOrArray::Text("On rivers".to_string())));
    assert_eq!(s.additional.len(), 1);
    assert_eq!(s.additional[0].0, "completely_new");
}

#[test]
fn collections_response_decodes_collection_items() {
    let v = obj(vec![(
        "results",
        JsonValue::List(vec![obj(vec![
            ("title", text("Civil War Maps")),
            ("collection_slug", text("civil-war-maps")),
        ])]),
    )]);
    let r = CollectionsResponse::from_json(&v).unwrap();
    let results = r.results.unwrap();
    assert_eq!(results.len(), 1);
    assert_eq!(results[0].title, Some(StringOrArray::Text("Civil War Maps".to_string())));
    assert_eq!(
        results[0].collection_slug,
        Some(StringOrArray::Text("civil-war-maps".to_string()))
    );
}

#[test]
fn collection_detail_keeps_everything() {
    let v = obj(vec![("anything", text("at all")), ("numbers", JsonValue::UInt(3))]);
    let d = CollectionDetail::from_json(&v).unwrap();
    assert_eq!(d.additional.len(), 2);
}

#[test]
fn item_response_decodes_citation_and_item() {
    let v = obj(vec![
        ("cite_this", obj(vec![("apa", text("APA citation"))])),
        ("item", obj(vec![("title", text("A photograph")), ("digitized", JsonValue::Bool(true))])),
        ("timestamp", JsonValue::UInt(1700000000)),
    ]);
    let r = ItemResponse::from_json(&v).unwrap();
    match r.cite_this.unwrap() {
        ItemOrArray::Item(c) => {
            assert_eq!(c.apa, Some(StringOrArray::Text("APA citation".to_string())));
        }
        other => panic!("expected a single citation, got {:?}", other),
    }
    match r.item.unwrap() {
        ItemOrArray::Item(attr) => {
            assert_eq!(attr.title, Some(StringOrArray::Text("A photograph".to_string())));
        }
        other => panic!("expected a single item record, got {:?}", other),
    }
    assert_eq!(r.timestamp, Some(NumberOrString::Number(1700000000)));
}

#[test]
fn raw_sections_keep_any_shape() {
    let v = obj(vec![("views", JsonValue::List(vec![text("a"), JsonValue::UInt(1)]))]);
    let r = ItemResponse::from_json(&v).unwrap();
    match r.views.unwrap() {
        ItemOrArray::Item(JsonValue::List(items)) => assert_eq!(items.len(), 2),
        other => panic!("expected the raw list kept whole, got {:?}", other),
    }
}

#[test]
fn file_decodes_its_fields() {
    let v = obj(vec![
        ("mimetype", text("image/jpeg")),
        ("width", JsonValue::UInt(640)),
        ("height", text("480")),
        ("format", obj(vec![("profile", text("iiif"))])),
    ]);
    let f = File::from_json(&v).unwrap();
    assert_eq!(f.mimetype, Some(StringOrArray::Text("image/jpeg".to_string())));
    assert_eq!(f.width, Some(NumberOrString::Number(640)));
    assert_eq!(f.height, Some(NumberOrString::Text("480".to_string())));
    assert!(matches!(f.format, Some(ItemOrArray::Item(JsonValue::Object(_)))));
}

#[test]
fn resource_object_groups_a_flat_file_list_as_one_group() {
    let v = obj(vec![(
        "files",
        JsonValue::List(vec![
            obj(vec![("mimetype", text("image/jpeg"))]),
            obj(vec![("mimetype", text("image/gif"))]),
        ]),
    )]);
    let r = ResourceObject::from_json(&v).unwrap();
    match r.files.unwrap() {
        ItemOrArray::Item(ItemOrArray::Array(files)) => assert_eq!(files.len(), 2),
        other => panic!("expected one group of two files, got {:?}", other),
    }
}

#[test]
fn resource_detail_file_lists_single_or_nested() {
    let flat = obj(vec![(
        "files",
        JsonValue::List(vec![obj(vec![("mimetype", text("audio/mp3"))])]),
    )]);
    let r = ResourceDetail::from_json(&flat).unwrap();
    assert!(matches!(r.files, Some(ItemOrArray::Item(ref files)) if files.len() == 1));

    let nested = obj(vec![(
        "files",
        JsonValue::List(vec![
            JsonValue::List(vec![obj(vec![("mimetype", text("audio/mp3"))])]),
            JsonValue::List(vec![]),
        ]),
    )]);
    let r = ResourceDetail::from_json(&nested).unwrap();
    match r.files.unwrap() {
        ItemOrArray::Array(groups) => {
            assert_eq!(groups.len(), 2);
            assert_eq!(groups[0].len(), 1);
            assert_eq!(groups[1].len(), 0);
        }
        other => panic!("expected two groups, got {:?}", other),
    }
}

#[test]
fn a_wrongly_shaped_known_field_fails_the_envelope() {
    let v = obj(vec![("results", text("not a list"))]);
    assert!(matches!(
        SearchResultResponse::from_json(&v),
        Err(DecodeError::WrongShape)
    ));
}

#[test]
fn resource_response_decodes_resource_details() {
    let v = obj(vec![(
        "resource",
        JsonValue::List(vec![obj(vec![
            ("uuid", text("ab-12")),
            ("height", JsonValue::UInt(480)),
        ])]),
    )]);
    let r = loc_api::resource_models::ResourceResponse::from_json(&v).unwrap();
    match r.resource.unwrap() {
        ItemOrArray::Array(details) => {
            assert_eq!(details.len(), 1);
            assert_eq!(details[0].uuid, Some(StringOrArray::Text("ab-12".to_string())));
            assert_eq!(details[0].height, Some(NumberOrString::Number(480)));
        }
        other => panic!("expected an array of details, got {:?}", other),
    }
}

#[test]
fn format_and_collection_envelopes_decode() {
    let v = obj(vec![(
        "results",
        JsonValue::List(vec![obj(vec![("date", text("1863"))])]),
    )]);
    let f = loc_api::envelopes::FormatResponse::from_json(&v).unwrap();
    assert_eq!(f.results.unwrap()[0].date, Some(StringOrArray::Text("1863".to_string())));

    let s = loc_api::envelopes::SearchResponse::from_json(&v).unwrap();
    assert!(s.results.is_some());

    let c = obj(vec![(
        "results",
        JsonValue::List(vec![obj(vec![("normalized_slug", text("maps"))])]),
    )]);
    let cr = loc_api::envelopes::CollectionResponse::from_json(&c).unwrap();
    assert_eq!(
        cr.results.unwrap()[0].normalized_slug,
        Some(StringOrArray::Text("maps".to_string()))
    );
}

#[test]
fn json_values_duplicate_structurally() {
    let v = obj(vec![
        ("a", JsonValue::List(vec![JsonValue::UInt(1), JsonValue::Null])),
        ("b", JsonValue::OtherNum("-2.5".to_string())),
    ]);
    let copy = v.duplicate();
    match (v, copy) {
        (JsonValue::Object(orig), JsonValue::Object(dup)) => {
            assert_eq!(orig.len(), dup.len());
            assert_eq!(orig[0].0, dup[0].0);
            assert!(matches!(dup[0].1, JsonValue::List(ref l) if l.len() == 2));
            assert!(matches!(dup[1].1, JsonValue::OtherNum(ref s) if s == "-2.5"));
        }
        _ => panic!("expected objects"),
    }
}
