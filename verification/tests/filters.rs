use vndb_api::filter::{Filter, FilterOp};

#[test]
fn structured_tree_serializes_exactly() {
    let f = Filter::And(vec![
        Filter::Leaf(String::from("olang"), FilterOp::Neq, String::from("en")),
        Filter::Leaf(String::from("released"), FilterOp::Gte, String::from("2020-01-01")),
    ]);
    assert_eq!(
        f.to_wire(),
        "[\"and\",[\"olang\",\"!=\",\"en\"],[\"released\",\">=\",\"2020-01-01\"]]"
    );
}

#[test]
fn single_leaf_serializes_exactly() {
    let f = Filter::Leaf(String::from("search"), FilterOp::Eq, String::from("Saya no Uta"));
    assert_eq!(f.to_wire(), "[\"search\",\"=\",\"Saya no Uta\"]");
}

#[test]
fn raw_filter_passes_through_unchanged() {
    let f = Filter::Raw(String::from("[\"id\",\"=\",\"v17\"]"));
    assert_eq!(f.to_wire(), "[\"id\",\"=\",\"v17\"]");
}

#[test]
fn nested_or_inside_and() {
    let f = Filter::And(vec![
        Filter::Or(vec![
            Filter::Leaf(String::from("lang"), FilterOp::Eq, String::from("en")),
            Filter::Leaf(String::from("lang"), FilterOp::Eq, String::from("de")),
        ]),
        Filter::Leaf(String::from("olang"), FilterOp::Neq, String::from("ja")),
    ]);
    assert_eq!(
        f.to_wire(),
        "[\"and\",[\"or\",[\"lang\",\"=\",\"en\"],[\"lang\",\"=\",\"de\"]],[\"olang\",\"!=\",\"ja\"]]"
    );
}

#[test]
fn empty_compound_passes_through() {
    // An empty child list is permitted locally; the remote service is the
    // one to reject it.
    let f = Filter::Or(vec![]);
    assert_eq!(f.to_wire(), "[\"or\"]");
}

#[test]
fn leaf_value_is_json_escaped() {
    let f = Filter::Leaf(String::from("search"), FilterOp::Eq, String::from("a\"b\\c"));
    assert_eq!(f.to_wire(), "[\"search\",\"=\",\"a\\\"b\\\\c\"]");
}

#[test]
fn every_operator_has_its_wire_form() {
    let cases = vec![
        (FilterOp::Eq, "="),
        (FilterOp::Neq, "!="),
        (FilterOp::Gt, ">"),
        (FilterOp::Gte, ">="),
        (FilterOp::Lt, "<"),
        (FilterOp::Lte, "<="),
    ];
    for (op, text) in cases {
        let f = Filter::Leaf(String::from("x"), op, String::from("y"));
        assert_eq!(f.to_wire(), format!("[\"x\",\"{}\",\"y\"]", text));
    }
}
