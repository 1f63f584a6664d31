use vndb_api::fields::vn::{VnField, VnFieldChoices};
use vndb_api::filter::{Filter, FilterOp};
use vndb_api::query::{QueryBuilder, SortField, VnQuery};
use vndb_api::response::Response;

#[test]
fn default_query_renders_exactly() {
    let q = QueryBuilder::<VnQuery>::new().build();
    assert_eq!(
        q.to_wire(),
        "{\"sort\":\"id\",\"reverse\":false,\"results\":10,\"page\":1,\"count\":false,\
         \"compact_filters\":false,\"normalized_filters\":false}"
    );
}

#[test]
fn unset_options_are_omitted_not_null() {
    let q = QueryBuilder::<VnQuery>::new().build();
    let wire = q.to_wire();
    assert!(!wire.contains("null"));
    assert!(!wire.contains("\"filters\""));
    assert!(!wire.contains("\"fields\""));
    assert!(!wire.contains("\"user\""));
}

#[test]
fn full_query_round_trips_through_json() {
    // Set every field, render to wire form, and parse it back: the parsed
    // object carries exactly the set fields, and its flag pattern tells
    // which echo fields a response may legitimately carry.
    let user = String::from("u1234");
    let q = QueryBuilder::<VnQuery>::new()
        .filters(Filter::Leaf(String::from("olang"), FilterOp::Eq, String::from("ja")))
        .fields(VnFieldChoices::from(vec![VnField::Title, VnField::Rating]))
        .sort(SortField::Rating)
        .reverse()
        .results(42)
        .page(3)
        .user(&user)
        .enable_count()
        .enable_compact_filters()
        .enable_normalized_filters()
        .build();
    let wire = q.to_wire();
    let v: serde_json::Value = serde_json::from_str(&wire).unwrap();
    let obj = v.as_object().unwrap();
    assert_eq!(obj.len(), 10);
    assert_eq!(v.get("fields").unwrap().as_str().unwrap(), "title,rating");
    assert_eq!(v.get("sort").unwrap().as_str().unwrap(), "rating");
    assert_eq!(v.get("reverse").unwrap().as_bool().unwrap(), true);
    assert_eq!(v.get("results").unwrap().as_i64().unwrap(), 42);
    assert_eq!(v.get("page").unwrap().as_i64().unwrap(), 3);
    assert_eq!(v.get("user").unwrap().as_str().unwrap(), "u1234");
    assert_eq!(v.get("count").unwrap().as_bool().unwrap(), true);
    assert_eq!(v.get("compact_filters").unwrap().as_bool().unwrap(), true);
    assert_eq!(v.get("normalized_filters").unwrap().as_bool().unwrap(), true);
    let filters = v.get("filters").unwrap().as_array().unwrap();
    assert_eq!(filters.len(), 3);
    assert_eq!(filters[0].as_str().unwrap(), "olang");

    // A response echoing all three diagnostics is compatible with this
    // query, since every corresponding flag was set.
    let r: Response<String> = Response {
        results: vec![],
        more: false,
        count: Some(7),
        compact_filters: Some(String::from("olang=ja")),
        normalized_filters: Some(String::from("[\"olang\",\"=\",\"ja\"]")),
    };
    assert!(r.echo_allowed(&q));
}

#[test]
fn echo_without_flag_is_rejected() {
    let q = QueryBuilder::<VnQuery>::new().build();
    let r: Response<String> = Response {
        results: vec![],
        more: true,
        count: Some(1),
        compact_filters: None,
        normalized_filters: None,
    };
    assert!(!r.echo_allowed(&q));
}

#[test]
fn echoless_response_is_always_allowed() {
    let q = QueryBuilder::<VnQuery>::new().build();
    let r: Response<String> = Response {
        results: vec![String::from("row")],
        more: false,
        count: None,
        compact_filters: None,
        normalized_filters: None,
    };
    assert!(r.echo_allowed(&q));
}

#[test]
fn structured_filters_embed_in_query_body() {
    let q = QueryBuilder::<VnQuery>::new()
        .filters(Filter::And(vec![
            Filter::Leaf(String::from("olang"), FilterOp::Neq, String::from("en")),
            Filter::Leaf(String::from("released"), FilterOp::Gte, String::from("2020-01-01")),
        ]))
        .build();
    let wire = q.to_wire();
    assert!(wire.starts_with(
        "{\"filters\":[\"and\",[\"olang\",\"!=\",\"en\"],[\"released\",\">=\",\"2020-01-01\"]],"
    ));
    serde_json::from_str::<serde_json::Value>(&wire).unwrap();
}

#[test]
fn empty_field_selection_is_an_absent_parameter() {
    let q = QueryBuilder::<VnQuery>::new().fields(VnFieldChoices::new()).build();
    assert!(!q.to_wire().contains("\"fields\""));
}

#[test]
fn user_value_is_escaped_in_query() {
    let user = String::from("a\"b");
    let q = QueryBuilder::<VnQuery>::new().user(&user).build();
    let v: serde_json::Value = serde_json::from_str(&q.to_wire()).unwrap();
    assert_eq!(v.get("user").unwrap().as_str().unwrap(), "a\"b");
}
