use vndb_api::rlist::RListPatch;
use vndb_api::ulist::{Date, LabelId, UListPatchBuilder, UListStatus};

#[test]
fn vote_clamps_below_10() {
    let b = UListPatchBuilder::new().vote(5);
    assert_eq!(b.vote, Some(10));
}

#[test]
fn vote_keeps_in_range() {
    let b = UListPatchBuilder::new().vote(97);
    assert_eq!(b.vote, Some(97));
}

#[test]
fn vote_clamps_above_100() {
    let b = UListPatchBuilder::new().vote(200);
    assert_eq!(b.vote, Some(100));
}

#[test]
fn notes_only_patch_has_solely_the_notes_key() {
    let p = UListPatchBuilder::new().notes(String::from("finally got around to it")).build();
    let json = p.to_json();
    assert_eq!(json, "{\"notes\":\"finally got around to it\"}");
    let v: serde_json::Value = serde_json::from_str(&json).unwrap();
    let obj = v.as_object().unwrap();
    assert_eq!(obj.len(), 1);
    assert!(obj.contains_key("notes"));
}

#[test]
fn empty_patch_is_empty_object() {
    let p = UListPatchBuilder::new().build();
    assert_eq!(p.to_json(), "{}");
}

#[test]
fn dates_render_zero_padded() {
    let b = UListPatchBuilder::new()
        .started(Date { year: 2024, month: 3, day: 7 })
        .finished(Date { year: 987, month: 12, day: 31 });
    assert_eq!(b.started, Some(String::from("2024-03-07")));
    assert_eq!(b.finished, Some(String::from("0987-12-31")));
}

#[test]
fn malformed_dates_pass_through() {
    // No calendar validity check is made locally.
    let b = UListPatchBuilder::new().started(Date { year: 2024, month: 13, day: 32 });
    assert_eq!(b.started, Some(String::from("2024-13-32")));
}

#[test]
fn full_patch_renders_every_set_field_in_order() {
    let p = UListPatchBuilder::new()
        .vote(88)
        .notes(String::from("ok"))
        .started(Date { year: 2023, month: 1, day: 2 })
        .finished(Date { year: 2023, month: 2, day: 3 })
        .labels(vec![LabelId::Playing, LabelId::WishList])
        .labels_set(vec![LabelId::Finished])
        .labels_unset(vec![LabelId::Dropped])
        .build();
    assert_eq!(
        p.to_json(),
        "{\"vote\":88,\"notes\":\"ok\",\"started\":\"2023-01-02\",\"finished\":\"2023-02-03\",\
         \"labels\":[1,5],\"labels_set\":[2],\"labels_unset\":[4]}"
    );
}

#[test]
fn notes_are_json_escaped() {
    let p = UListPatchBuilder::new().notes(String::from("line1\nline2 \"quoted\"")).build();
    let json = p.to_json();
    let v: serde_json::Value = serde_json::from_str(&json).unwrap();
    assert_eq!(v.get("notes").unwrap().as_str().unwrap(), "line1\nline2 \"quoted\"");
}

#[test]
fn rlist_patch_defaults_to_unknown() {
    let p = RListPatch::new();
    assert_eq!(p.status, Some(UListStatus::Unknown));
    assert_eq!(p.to_json(), "{\"status\":0}");
}

#[test]
fn rlist_patch_carries_chosen_status() {
    let p = RListPatch::new().status(UListStatus::Obtained);
    assert_eq!(p.to_json(), "{\"status\":2}");
}

#[test]
fn label_codes_are_stable() {
    assert_eq!(LabelId::Playing.code(), 1);
    assert_eq!(LabelId::Finished.code(), 2);
    assert_eq!(LabelId::Stalled.code(), 3);
    assert_eq!(LabelId::Dropped.code(), 4);
    assert_eq!(LabelId::WishList.code(), 5);
    assert_eq!(LabelId::BlackList.code(), 6);
}
