use loc_api::attribute_models::AttributesSelect;
use loc_api::attribute_models::ItemAttributes;
use loc_api::attribute_models::SortField;
use loc_api::errors::ConfigError;
use loc_api::format_models::MediaType;
use loc_api::param_models::FacetReq;
use loc_api::simple_builders::collection_url;
use loc_api::simple_builders::collections_url;
use loc_api::simple_builders::default_base_url;
use loc_api::simple_builders::format_url;
use loc_api::simple_builders::item_url;
use loc_api::simple_builders::replace_base_url;
use loc_api::simple_builders::search_url;

const BASE: &str = "https://www.loc.gov";

fn attrs(includes: &[&str], excludes: &[&str]) -> AttributesSelect {
    AttributesSelect {
        includes: includes.iter().map(|s| s.to_string()).collect(),
        excludes: excludes.iter().map(|s| s.to_string()).collect(),
    }
}

#[test]
fn default_base_url_is_the_public_host() {
    assert_eq!(default_base_url(), "https://www.loc.gov/");
}

#[test]
fn replace_base_url_swaps_the_authority() {
    let swapped = replace_base_url(
        "https://www.loc.gov/search/?fo=json&",
        "http://localhost:8000",
    )
    .unwrap();
    assert_eq!(swapped, "http://localhost:8000/search/?fo=json&");
}

#[test]
fn replace_base_url_rejects_a_foreign_authority() {
    let r = replace_base_url("https://elsewhere.example/search/", BASE);
    assert_eq!(r, Err(ConfigError::BaseMismatch));
}

#[test]
fn search_url_builds_the_full_search_request() {
    let url = search_url(
        BASE,
        "baseball",
        false,
        Some(attrs(&["pagination", "results"], &[])),
        Some(FacetReq { filters: vec!["subject:sports".to_string()] }),
        Some(25),
        Some(1),
        Some(SortField::DateDesc),
    )
    .unwrap();
    assert_eq!(
        url,
        "https://www.loc.gov/search/?fo=json&at=pagination,results&q=baseball&fa=subject:sports&c=25&sp=1&sb=date_desc"
    );
}

#[test]
fn search_url_turns_spaces_into_plus() {
    let url = search_url(BASE, "civil war", false, None, None, None, None, None).unwrap();
    assert_eq!(url, "https://www.loc.gov/search/?fo=json&&q=civil+war1");
}

#[test]
fn collection_url_builds_the_civil_war_maps_request() {
    let url = collection_url(
        BASE,
        "civil war maps",
        None,
        Some(attrs(&["pagination", "results"], &[])),
        Some(FacetReq { filters: vec!["subject:geography".to_string()] }),
        Some(10),
        Some(1),
        Some(SortField::TitleS),
    )
    .unwrap();
    assert_eq!(
        url,
        "https://www.loc.gov/collections/civil-war-maps/?fo=json&at=pagination,results&fa=subject:geography&c=10&sp=1&sb=title_s"
    );
    assert!(!url.contains("q="));
}

#[test]
fn collection_url_turns_underscores_into_hyphens() {
    let url = collection_url(BASE, "abraham_lincoln papers", None, None, None, None, Some(1), None)
        .unwrap();
    assert_eq!(url, "https://www.loc.gov/collections/abraham-lincoln-papers/?fo=json&&sp=1");
}

#[test]
fn collections_url_lists_all_collections() {
    let url = collections_url(
        BASE,
        Some("mountain"),
        Some(attrs(&["pagination", "results"], &[])),
        Some(FacetReq { filters: vec!["subject:geography".to_string()] }),
        Some(10),
        Some(1),
        Some(SortField::TitleS),
    )
    .unwrap();
    assert_eq!(
        url,
        "https://www.loc.gov/collections/?fo=json&at=pagination,results&q=mountain&fa=subject:geography&c=10&sp=1&sb=title_s"
    );
}

#[test]
fn format_url_builds_the_maps_request() {
    let url = format_url(
        BASE,
        MediaType::Maps,
        Some("mountain"),
        Some(attrs(&["pagination", "results"], &[])),
        Some(FacetReq { filters: vec!["subject:geography".to_string()] }),
        Some(10),
        Some(1),
        Some(SortField::TitleS),
    )
    .unwrap();
    assert_eq!(
        url,
        "https://www.loc.gov/maps/?fo=json&at=pagination,results&q=mountain&fa=subject:geography&c=10&sp=1&sb=title_s"
    );
}

#[test]
fn item_url_with_cite_this_only() {
    let url = item_url(
        BASE,
        "2014717546",
        Some(ItemAttributes { cite_this: Some(true), item: None, resources: None }),
    )
    .unwrap();
    assert_eq!(url, "https://www.loc.gov/item/2014717546/?fo=json&at=cite_this");
    assert_eq!(url.matches("at=").count(), 1);
}

#[test]
fn item_url_with_all_flags() {
    let url = item_url(
        BASE,
        "2014717546",
        Some(ItemAttributes { cite_this: Some(true), item: Some(true), resources: Some(true) }),
    )
    .unwrap();
    assert_eq!(
        url,
        "https://www.loc.gov/item/2014717546/?fo=json&at=item&at=resources&at=cite_this"
    );
}

#[test]
fn facade_urls_use_the_given_base() {
    let url = item_url("http://localhost:8000", "7", None).unwrap();
    assert_eq!(url, "http://localhost:8000/item/7/?fo=json&");
}
