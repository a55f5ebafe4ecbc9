use loc_api::attribute_models::AttributesSelect;
use loc_api::attribute_models::ItemAttributes;
use loc_api::attribute_models::ResourceAttributes;
use loc_api::attribute_models::SortField;
use loc_api::endpoints::Endpoints;
use loc_api::errors::BuildError;
use loc_api::format_models::Format;
use loc_api::format_models::MediaType;
use loc_api::param_models::CommonParams;
use loc_api::param_models::FacetReq;
use loc_api::param_models::ItemParams;
use loc_api::param_models::ResourceParams;
use loc_api::param_models::SearchParams;

fn attrs(includes: &[&str], excludes: &[&str]) -> AttributesSelect {
    AttributesSelect {
        includes: includes.iter().map(|s| s.to_string()).collect(),
        excludes: excludes.iter().map(|s| s.to_string()).collect(),
    }
}

#[test]
fn attributes_select_includes_and_excludes() {
    let a = attrs(&["item", "resources"], &["more_like_this"]);
    assert_eq!(a.to_query_param(), "at=item,resources&at!=more_like_this");
}

#[test]
fn attributes_select_includes_only_has_one_clause() {
    let a = attrs(&["pagination", "results"], &[]);
    let q = a.to_query_param();
    assert_eq!(q, "at=pagination,results");
    assert_eq!(q.matches("at=").count(), 1);
    assert_eq!(q.matches("at!=").count(), 0);
}

#[test]
fn attributes_select_excludes_only() {
    let a = attrs(&[], &["facets"]);
    assert_eq!(a.to_query_param(), "at!=facets");
}

#[test]
fn attributes_select_empty_is_empty_string() {
    let a = attrs(&[], &[]);
    assert_eq!(a.to_query_param(), "");
}

#[test]
fn facet_req_joins_with_pipe() {
    let f = FacetReq {
        filters: vec!["location:ohio".to_string(), "subject:wildlife".to_string()],
    };
    assert_eq!(f.to_query_param(), "location:ohio|subject:wildlife");
}

#[test]
fn facet_req_single_filter_has_no_separator() {
    let f = FacetReq { filters: vec!["subject:sports".to_string()] };
    assert_eq!(f.to_query_param(), "subject:sports");
}

#[test]
fn sort_field_slugs() {
    assert_eq!(SortField::Date.slug(), "date");
    assert_eq!(SortField::DateDesc.slug(), "date_desc");
    assert_eq!(SortField::TitleS.slug(), "title_s");
    assert_eq!(SortField::TitleSDesc.slug(), "title_s_desc");
    assert_eq!(SortField::ShelfId.slug(), "shelf_id");
    assert_eq!(SortField::ShelfIdDesc.slug(), "shelf_id_desc");
}

#[test]
fn format_and_media_slugs() {
    assert_eq!(Format::Json.slug(), "json");
    assert_eq!(Format::Yaml.slug(), "yaml");
    assert_eq!(Format::default().slug(), "json");
    assert_eq!(MediaType::FilmAndVideos.slug(), "film-and-videos");
    assert_eq!(MediaType::Maps.slug(), "maps");
    assert_eq!(MediaType::NotatedMusic.slug(), "notated-music");
    assert_eq!(MediaType::WebArchives.slug(), "web-archives");
}

#[test]
fn format_endpoint_full_url() {
    let common_params = CommonParams {
        format: Some(Format::Json),
        attributes: Some(attrs(&["pagination", "results"], &[])),
        query: Some("dog".to_string()),
        filter: Some(FacetReq { filters: vec!["subject:animals".to_string()] }),
        per_page: Some(25),
        page: Some(1),
        sort: Some(SortField::TitleS),
    };
    let endpoint = Endpoints::Format { format: MediaType::FilmAndVideos, params: common_params };
    let url = endpoint.to_url().unwrap();
    assert_eq!(
        url,
        "https://www.loc.gov/film-and-videos/?fo=json&at=pagination,results&q=dog&fa=subject:animals&c=25&sp=1&sb=title_s"
    );
}

#[test]
fn search_with_no_parameters_is_a_build_error() {
    let endpoint = Endpoints::Search(SearchParams::default());
    assert_eq!(endpoint.to_url(), Err(BuildError::EmptyParams));
}

#[test]
fn search_with_a_query_builds() {
    let mut params = SearchParams::default();
    params.common.query = Some("maps".to_string());
    let url = Endpoints::Search(params).to_url().unwrap();
    assert_eq!(url, "https://www.loc.gov/search/?fo=json&&q=maps1");
}

#[test]
fn format_endpoint_with_defaults_still_builds() {
    let endpoint = Endpoints::Format { format: MediaType::Maps, params: CommonParams::default() };
    let url = endpoint.to_url().unwrap();
    assert!(url.starts_with("https://www.loc.gov/maps/?fo=json&"));
    // The bare default page number is the one upstream oddity kept as is.
    assert_eq!(url, "https://www.loc.gov/maps/?fo=json&1");
}

#[test]
fn url_building_is_deterministic() {
    let params = CommonParams {
        format: Some(Format::Json),
        attributes: Some(attrs(&["results"], &["facets"])),
        query: Some("rivers".to_string()),
        filter: Some(FacetReq { filters: vec!["subject:water".to_string()] }),
        per_page: Some(50),
        page: Some(3),
        sort: Some(SortField::DateDesc),
    };
    let a = Endpoints::Collections(params.clone()).to_url().unwrap();
    let b = Endpoints::Collections(params).to_url().unwrap();
    assert_eq!(a, b);
}

#[test]
fn collections_endpoint_hyphenates_spaces_in_query_string() {
    let params = CommonParams {
        format: Some(Format::Json),
        attributes: None,
        query: None,
        filter: Some(FacetReq { filters: vec!["subject:civil war".to_string()] }),
        per_page: None,
        page: Some(2),
        sort: None,
    };
    let url = Endpoints::Collections(params).to_url().unwrap();
    assert_eq!(url, "https://www.loc.gov/collections/?fo=json&&fa=subject:civil-war&sp=2");
}

#[test]
fn item_endpoint_with_cite_this_only() {
    let params = ItemParams {
        format: Some(Format::Json),
        attributes: Some(ItemAttributes { cite_this: Some(true), item: None, resources: None }),
    };
    let endpoint = Endpoints::Item { item_id: "2014717546".to_string(), params };
    let url = endpoint.to_url().unwrap();
    assert_eq!(url, "https://www.loc.gov/item/2014717546/?fo=json&at=cite_this");
    assert_eq!(url.matches("at=").count(), 1);
}

#[test]
fn item_endpoint_flag_order() {
    let params = ItemParams {
        format: None,
        attributes: Some(
            ItemAttributes { cite_this: Some(true), item: Some(true), resources: Some(true) },
        ),
    };
    let endpoint = Endpoints::Item { item_id: "99".to_string(), params };
    let url = endpoint.to_url().unwrap();
    assert_eq!(url, "https://www.loc.gov/item/99/?fo=json&at=item&at=resources&at=cite_this");
}

#[test]
fn item_endpoint_false_or_unset_flags_contribute_nothing() {
    let params = ItemParams {
        format: None,
        attributes: Some(
            ItemAttributes { cite_this: Some(false), item: None, resources: Some(false) },
        ),
    };
    let endpoint = Endpoints::Item { item_id: "99".to_string(), params };
    let url = endpoint.to_url().unwrap();
    assert_eq!(url, "https://www.loc.gov/item/99/?fo=json&");
}

#[test]
fn resource_endpoint_flag_order() {
    let params = ResourceParams {
        format: None,
        attributes: Some(ResourceAttributes {
            cite_this: Some(true),
            item: Some(true),
            page: Some(true),
            resource: Some(true),
            resources: Some(true),
            segments: Some(true),
        }),
    };
    let endpoint = Endpoints::Resource { resource_id: "r1".to_string(), params };
    let url = endpoint.to_url().unwrap();
    assert_eq!(
        url,
        "https://www.loc.gov/resource/r1/?fo=json&at=resource&at=page&at=segments&at=cite_this&at=resources"
    );
}

#[test]
fn yaml_format_is_respected() {
    let params = ItemParams { format: Some(Format::Yaml), attributes: None };
    let endpoint = Endpoints::Item { item_id: "5".to_string(), params };
    assert_eq!(endpoint.to_url().unwrap(), "https://www.loc.gov/item/5/?fo=yaml&");
}

#[test]
fn per_page_and_page_render_in_decimal() {
    let params = CommonParams {
        format: None,
        attributes: None,
        query: Some("x".to_string()),
        filter: None,
        per_page: Some(0),
        page: Some(4294967295),
        sort: None,
    };
    let url = Endpoints::Search(SearchParams { common: params, include_collections: false })
        .to_url()
        .unwrap();
    assert_eq!(url, "https://www.loc.gov/search/?fo=json&&q=x&c=0&sp=4294967295");
}
