use std::collections::HashSet;

use vndb_api::fields::character::{CharacterField, CharacterFieldChoices};
use vndb_api::fields::producer::{ProducerField, ProducerFieldChoices};
use vndb_api::fields::release::ReleaseFieldChoices;
use vndb_api::fields::staff::StaffFieldChoices;
use vndb_api::fields::tag::TagFieldChoices;
use vndb_api::fields::traits::TraitFieldChoices;
use vndb_api::fields::ulist::UListFieldChoices;
use vndb_api::fields::vn::{VnField, VnFieldChoices};
use vndb_api::ulist::UListLabelsFieldChoices;
use vndb_api::user::UserSearchFields;

fn csv_names_once_in_order(csv: &str, expected_len: usize) {
    let names: Vec<&str> = csv.split(',').collect();
    assert_eq!(names.len(), expected_len);
    let mut seen: HashSet<&str> = HashSet::new();
    for name in &names {
        assert!(!name.is_empty());
        assert!(seen.insert(name), "duplicated identifier in CSV");
    }
    assert!(!csv.ends_with(','));
    assert!(!csv.starts_with(','));
}

#[test]
fn producer_all_csv_is_exact() {
    assert_eq!(
        ProducerFieldChoices::all().to_csv(),
        "id,name,original,aliases,lang,type,description"
    );
}

#[test]
fn tag_all_csv_is_exact() {
    assert_eq!(
        TagFieldChoices::all().to_csv(),
        "id,name,aliases,description,category,searchable,applicable"
    );
}

#[test]
fn trait_all_csv_is_exact() {
    assert_eq!(
        TraitFieldChoices::all().to_csv(),
        "id,name,aliases,description,searchable,applicable,group_id,group_name,char_count"
    );
}

#[test]
fn user_all_csv_is_exact() {
    assert_eq!(UserSearchFields::all().to_csv(), "lengthvotes,lengthvotes_sum");
}

#[test]
fn ulist_labels_all_csv_is_exact() {
    assert_eq!(UListLabelsFieldChoices::all().to_csv(), "count");
}

#[test]
fn vn_all_csv_lists_each_field_once() {
    let csv = VnFieldChoices::all().to_csv();
    csv_names_once_in_order(&csv, 96);
    assert!(csv.starts_with("id,title,alttitle,titles.lang,"));
    assert!(csv.ends_with("va.staff.aliases.latin,va.staff.aliases.ismain"));
}

#[test]
fn release_all_csv_lists_each_field_once() {
    let csv = ReleaseFieldChoices::all().to_csv();
    csv_names_once_in_order(&csv, 40);
    assert!(csv.starts_with("id,title,alttitle,languages.lang,"));
    assert!(csv.ends_with("extlinks.name,extlinks.id"));
}

#[test]
fn character_all_csv_lists_each_field_once() {
    let csv = CharacterFieldChoices::all().to_csv();
    csv_names_once_in_order(&csv, 38);
    assert!(csv.starts_with("id,name,original,aliases,"));
    assert!(csv.contains("vns.release.id"));
    assert!(csv.ends_with("traits.group_name,traits.char_count"));
}

#[test]
fn staff_all_csv_lists_each_field_once() {
    let csv = StaffFieldChoices::all().to_csv();
    csv_names_once_in_order(&csv, 15);
    assert_eq!(
        csv,
        "id,aid,ismain,name,lang,gender,description,extlinks.url,extlinks.label,\
         extlinks.name,extlinks.id,aliases.aid,aliases.name,aliases.latin,aliases.ismain"
    );
}

#[test]
fn ulist_all_csv_lists_each_field_once() {
    let csv = UListFieldChoices::all().to_csv();
    csv_names_once_in_order(&csv, 147);
    assert!(csv.starts_with("id,added,voted,lastmod,vote,started,finished,notes,"));
    assert!(csv.contains("vn.staff.aliases.name"));
    assert!(csv.ends_with("releases.extlinks.name,releases.extlinks.id"));
}

#[test]
fn empty_selection_renders_empty() {
    assert_eq!(VnFieldChoices::new().to_csv(), "");
}

#[test]
fn chosen_subset_keeps_order_and_duplicates() {
    let c = CharacterFieldChoices::from(vec![
        CharacterField::Name,
        CharacterField::Age,
        CharacterField::Name,
    ]);
    assert_eq!(c.to_csv(), "name,age,name");
}

#[test]
fn single_field_has_no_separator() {
    let c = VnFieldChoices::from(vec![VnField::Title]);
    assert_eq!(c.to_csv(), "title");
}

#[test]
fn dotted_paths_render_verbatim() {
    let c = VnFieldChoices::from(vec![VnField::StaffAliasesName, VnField::ImageThumbnailDims]);
    assert_eq!(c.to_csv(), "staff.aliases.name,image.thumbnail_dims");
}

#[test]
fn producer_field_names_follow_wire_casing() {
    let c = ProducerFieldChoices::from(vec![ProducerField::Type, ProducerField::Description]);
    assert_eq!(c.to_csv(), "type,description");
}
