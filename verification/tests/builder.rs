use vndb_api::query::{QueryBuilder, ReleaseQuery, SortField, UListQuery, VnQuery};

#[test]
fn results_clamps_above_100() {
    let b = QueryBuilder::<VnQuery>::new().results(150);
    assert_eq!(b.results, Some(100));
}

#[test]
fn results_keeps_zero() {
    let b = QueryBuilder::<VnQuery>::new().results(0);
    assert_eq!(b.results, Some(0));
}

#[test]
fn results_clamps_255() {
    let b = QueryBuilder::<VnQuery>::new().results(255);
    assert_eq!(b.results, Some(100));
}

#[test]
fn results_keeps_in_range() {
    let b = QueryBuilder::<VnQuery>::new().results(73);
    assert_eq!(b.results, Some(73));
}

#[test]
fn defaults_are_documented_ones() {
    let b = QueryBuilder::<VnQuery>::new();
    assert_eq!(b.sort, Some(SortField::Id));
    assert_eq!(b.reverse, Some(false));
    assert_eq!(b.results, Some(10));
    assert_eq!(b.page, Some(1));
    assert_eq!(b.user, None);
    assert_eq!(b.count, Some(false));
    assert_eq!(b.compact_filters, Some(false));
    assert_eq!(b.normalized_filters, Some(false));
    assert!(b.filters.is_none());
    assert!(b.fields.is_none());
}

#[test]
fn out_of_whitelist_sort_is_ignored() {
    // `Rating` does not apply to releases: the prior default sort stays.
    let b = QueryBuilder::<ReleaseQuery>::new().sort(SortField::Rating);
    assert_eq!(b.sort, Some(SortField::Id));
}

#[test]
fn out_of_whitelist_sort_keeps_previous_choice() {
    let b = QueryBuilder::<ReleaseQuery>::new()
        .sort(SortField::Released)
        .sort(SortField::Name);
    assert_eq!(b.sort, Some(SortField::Released));
}

#[test]
fn in_whitelist_sort_is_taken() {
    let b = QueryBuilder::<UListQuery>::new().sort(SortField::Vote);
    assert_eq!(b.sort, Some(SortField::Vote));
}

#[test]
fn reverse_is_idempotent() {
    let once = QueryBuilder::<VnQuery>::new().reverse();
    let twice = QueryBuilder::<VnQuery>::new().reverse().reverse();
    assert_eq!(once.reverse, Some(true));
    assert_eq!(twice.reverse, Some(true));
}

#[test]
fn builder_chain_is_consumed_by_build() {
    // Each setter and `build` take the builder by value; a built query can
    // only come from one complete chain.
    let user = String::from("u12");
    let q = QueryBuilder::<UListQuery>::new()
        .user(&user)
        .results(25)
        .page(2)
        .build();
    let wire = q.to_wire();
    assert!(wire.contains("\"user\":\"u12\""));
    assert!(wire.contains("\"results\":25"));
    assert!(wire.contains("\"page\":2"));
}
