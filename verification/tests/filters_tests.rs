use stash_mcp::json::JsonValue;
use stash_mcp::stash::filters::{
    all_pages, int_criterion, int_criterion_between, performers_criterion, string_criterion,
    tags_criterion, PerformerFilterBuilder, SceneFilterBuilder, StudioFilterBuilder, TagFilterBuilder,
};

fn at<'a>(v: &'a JsonValue, key: &str) -> &'a JsonValue {
    v.get(key).unwrap_or_else(|| panic!("missing field {key}"))
}

fn s(v: &JsonValue) -> &str {
    v.as_str().expect("expected string")
}

fn i(v: &JsonValue) -> i64 {
    v.as_i64().expect("expected integer")
}

fn empty_object() -> JsonValue {
    JsonValue::Object(Vec::new())
}

// ── helpers ──────────────────────────────────────────────────────────

#[test]
fn all_pages_has_per_page_minus_one() {
    let v = all_pages();
    assert_eq!(at(&v, "per_page"), &JsonValue::integer(-1));
}

#[test]
fn string_criterion_structure() {
    let v = string_criterion("US", "EQUALS");
    assert_eq!(s(at(&v, "value")), "US");
    assert_eq!(s(at(&v, "modifier")), "EQUALS");
}

#[test]
fn int_criterion_structure() {
    let v = int_criterion(170, "GREATER_THAN");
    assert_eq!(i(at(&v, "value")), 170);
    assert_eq!(s(at(&v, "modifier")), "GREATER_THAN");
}

#[test]
fn int_criterion_between_structure() {
    let v = int_criterion_between(160, 180);
    assert_eq!(i(at(&v, "value")), 160);
    assert_eq!(i(at(&v, "value2")), 180);
    assert_eq!(s(at(&v, "modifier")), "BETWEEN");
}

#[test]
fn tags_criterion_structure() {
    let ids = vec!["1".to_owned(), "2".to_owned()];
    let v = tags_criterion(&ids, "INCLUDES");
    assert_eq!(s(at(&v, "modifier")), "INCLUDES");
    assert!(at(&v, "value").is_array());
    let items = at(&v, "value").as_array().unwrap();
    assert_eq!(items.len(), 2);
    assert_eq!(s(&items[1]), "2");
}

#[test]
fn performers_criterion_structure() {
    let v = performers_criterion(&["7", "9"], "INCLUDES");
    let items = at(&v, "value").as_array().unwrap();
    assert_eq!(s(&items[0]), "7");
    assert_eq!(s(&items[1]), "9");
    assert_eq!(s(at(&v, "modifier")), "INCLUDES");
}

// ── PerformerFilterBuilder ────────────────────────────────────────────

#[test]
fn performer_filter_empty_by_default() {
    let v = PerformerFilterBuilder::new().build();
    assert_eq!(v, empty_object());
}

#[test]
fn performer_filter_favorites_only() {
    let v = PerformerFilterBuilder::new().favorites_only(true).build();
    assert_eq!(at(&v, "filter_favorites"), &JsonValue::boolean(true));
}

#[test]
fn performer_filter_favorites_only_false_not_set() {
    let v = PerformerFilterBuilder::new().favorites_only(false).build();
    assert!(v.get("filter_favorites").is_none());
}

#[test]
fn performer_filter_country() {
    let v = PerformerFilterBuilder::new().country("US", "EQUALS").build();
    assert_eq!(s(at(at(&v, "country"), "value")), "US");
    assert_eq!(s(at(at(&v, "country"), "modifier")), "EQUALS");
}

#[test]
fn performer_filter_piercings_uses_includes() {
    let v = PerformerFilterBuilder::new().piercings("nose").build();
    assert_eq!(s(at(at(&v, "piercings"), "modifier")), "INCLUDES");
}

#[test]
fn performer_filter_height_between() {
    let v = PerformerFilterBuilder::new().height_cm(160, "BETWEEN", Some(175)).build();
    assert_eq!(s(at(at(&v, "height_cm"), "modifier")), "BETWEEN");
    assert_eq!(i(at(at(&v, "height_cm"), "value2")), 175);
}

#[test]
fn performer_filter_not_between_keeps_its_modifier() {
    let v = PerformerFilterBuilder::new().weight(50, "NOT_BETWEEN", Some(60)).build();
    assert_eq!(s(at(at(&v, "weight"), "modifier")), "NOT_BETWEEN");
    assert_eq!(i(at(at(&v, "weight"), "value")), 50);
    assert_eq!(i(at(at(&v, "weight"), "value2")), 60);
}

#[test]
fn performer_filter_second_value_ignored_without_range_modifier() {
    let v = PerformerFilterBuilder::new().height_cm(170, "GREATER_THAN", Some(180)).build();
    assert_eq!(s(at(at(&v, "height_cm"), "modifier")), "GREATER_THAN");
    assert!(at(&v, "height_cm").get("value2").is_none());
}

#[test]
fn performer_filter_name_equals() {
    let v = PerformerFilterBuilder::new().name_equals("Alice").build();
    assert_eq!(s(at(at(&v, "name"), "value")), "Alice");
    assert_eq!(s(at(at(&v, "name"), "modifier")), "EQUALS");
}

#[test]
fn performer_filter_later_setting_replaces_earlier() {
    let v = PerformerFilterBuilder::new()
        .country("US", "EQUALS")
        .ethnicity("x", "EQUALS")
        .country("FR", "NOT_EQUALS")
        .build();
    let members = v.as_object().unwrap();
    assert_eq!(members.len(), 2);
    assert_eq!(members[0].0, "country");
    assert_eq!(s(at(at(&v, "country"), "value")), "FR");
}

// ── SceneFilterBuilder ────────────────────────────────────────────────

#[test]
fn scene_filter_organized_only() {
    let v = SceneFilterBuilder::new().organized_only(true).build();
    assert_eq!(at(&v, "organized"), &JsonValue::boolean(true));
}

#[test]
fn scene_filter_organized_only_false_not_set() {
    let v = SceneFilterBuilder::new().organized_only(false).build();
    assert!(v.get("organized").is_none());
}

#[test]
fn scene_filter_min_rating_is_inclusive() {
    let v = SceneFilterBuilder::new().min_rating(80).build();
    assert_eq!(i(at(at(&v, "rating100"), "value")), 79);
    assert_eq!(s(at(at(&v, "rating100"), "modifier")), "GREATER_THAN");
}

#[test]
fn scene_filter_max_rating_is_inclusive() {
    let v = SceneFilterBuilder::new().max_rating(90).build();
    assert_eq!(i(at(at(&v, "rating100"), "value")), 91);
    assert_eq!(s(at(at(&v, "rating100"), "modifier")), "LESS_THAN");
}

#[test]
fn scene_filter_rating_range() {
    let v = SceneFilterBuilder::new().rating_range(70, 90).build();
    assert_eq!(i(at(at(&v, "rating100"), "value")), 70);
    assert_eq!(i(at(at(&v, "rating100"), "value2")), 90);
    assert_eq!(s(at(at(&v, "rating100"), "modifier")), "BETWEEN");
}

#[test]
fn scene_filter_performer_id() {
    let v = SceneFilterBuilder::new().performer_id("42").build();
    assert_eq!(s(at(at(&v, "performers"), "modifier")), "INCLUDES");
    assert_eq!(s(&at(at(&v, "performers"), "value").as_array().unwrap()[0]), "42");
}

#[test]
fn scene_filter_has_tags() {
    let v = SceneFilterBuilder::new().has_tags().build();
    assert_eq!(s(at(at(&v, "tag_count"), "modifier")), "GREATER_THAN");
    assert_eq!(i(at(at(&v, "tag_count"), "value")), 0);
}

#[test]
fn scene_filter_include_and_exclude_tags() {
    let ids = vec!["3".to_owned()];
    let inc = SceneFilterBuilder::new().include_tags(&ids).build();
    assert_eq!(s(at(at(&inc, "tags"), "modifier")), "INCLUDES");
    let exc = SceneFilterBuilder::new().exclude_tags(&ids).build();
    assert_eq!(s(at(at(&exc, "tags"), "modifier")), "EXCLUDES");
}

// ── StudioFilterBuilder ───────────────────────────────────────────────

#[test]
fn studio_filter_favorites() {
    let v = StudioFilterBuilder::new().favorites_only(true).build();
    assert_eq!(at(&v, "favorite"), &JsonValue::boolean(true));
}

#[test]
fn studio_filter_empty() {
    let v = StudioFilterBuilder::new().build();
    assert_eq!(v, empty_object());
}

// ── TagFilterBuilder ──────────────────────────────────────────────────

#[test]
fn tag_filter_favorites() {
    let v = TagFilterBuilder::new().favorites_only(true).build();
    assert_eq!(at(&v, "favorite"), &JsonValue::boolean(true));
}

#[test]
fn tag_filter_name_equals() {
    let v = TagFilterBuilder::new().name_equals("comedy").build();
    assert_eq!(s(at(at(&v, "name"), "value")), "comedy");
    assert_eq!(s(at(at(&v, "name"), "modifier")), "EQUALS");
}
