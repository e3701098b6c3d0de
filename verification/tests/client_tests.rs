use stash_mcp::error::StashError;
use stash_mcp::json::{JsonNumber, JsonValue};
use stash_mcp::stash::client::{
    count_by_rating, count_names, find_performer_by_name_variables, find_studio_by_name_variables,
    graphql_body, graphql_data, name_position, rating_sum_count, scenes_for_performer_filter,
    studio_position, tag_frequency, tag_position, tag_resolution,
};
use stash_mcp::stash::queries::{FIND_PERFORMERS, FIND_SCENES, FIND_STUDIOS, FIND_TAGS, HEALTH_CHECK};
use stash_mcp::stash::types::{Scene, Studio, Tag, TagRef};

fn make_scene(rating: Option<i64>, tag_names: &[&str]) -> Scene {
    Scene {
        id: "1".to_owned(),
        rating100: rating,
        tags: if tag_names.is_empty() {
            None
        } else {
            Some(
                tag_names
                    .iter()
                    .map(|n| TagRef { id: "0".to_owned(), name: n.to_string() })
                    .collect(),
            )
        },
        ..Default::default()
    }
}

fn obj(members: Vec<(&str, JsonValue)>) -> JsonValue {
    JsonValue::Object(members.into_iter().map(|(k, v)| (k.to_owned(), v)).collect())
}

// ── average rating inputs ─────────────────────────────────────────────

#[test]
fn average_rating_no_scenes() {
    assert_eq!(rating_sum_count(&[]), (0, 0));
}

#[test]
fn average_rating_all_null() {
    let scenes = vec![make_scene(None, &[]), make_scene(None, &[])];
    assert_eq!(rating_sum_count(&scenes).1, 0);
}

#[test]
fn average_rating_mixed() {
    let scenes = vec![make_scene(Some(80), &[]), make_scene(None, &[]), make_scene(Some(100), &[])];
    let (sum, count) = rating_sum_count(&scenes);
    assert_eq!((sum, count), (180, 2));
    assert!((sum as f64 / count as f64 - 90.0).abs() < f64::EPSILON);
}

#[test]
fn average_rating_single() {
    let scenes = vec![make_scene(Some(75), &[])];
    let (sum, count) = rating_sum_count(&scenes);
    assert!((sum as f64 / count as f64 - 75.0).abs() < f64::EPSILON);
}

#[test]
fn rating_sum_does_not_overflow_i64() {
    let scenes = vec![make_scene(Some(i64::MAX), &[]), make_scene(Some(i64::MAX), &[])];
    assert_eq!(rating_sum_count(&scenes), (2 * i64::MAX as i128, 2));
}

// ── count_by_rating ───────────────────────────────────────────────────

#[test]
fn count_by_rating_inclusive_range() {
    let scenes = vec![
        make_scene(Some(70), &[]),
        make_scene(Some(80), &[]),
        make_scene(Some(90), &[]),
        make_scene(Some(50), &[]),
    ];
    assert_eq!(count_by_rating(&scenes, 70, 90), 3);
}

#[test]
fn count_by_rating_no_match() {
    let scenes = vec![make_scene(Some(40), &[]), make_scene(None, &[])];
    assert_eq!(count_by_rating(&scenes, 70, 100), 0);
}

#[test]
fn count_by_rating_null_ratings_excluded() {
    let scenes = vec![make_scene(None, &[]), make_scene(None, &[])];
    assert_eq!(count_by_rating(&scenes, 0, 100), 0);
}

#[test]
fn count_by_rating_unbounded_max() {
    let scenes = vec![make_scene(Some(95), &[]), make_scene(Some(100), &[]), make_scene(Some(89), &[])];
    assert_eq!(count_by_rating(&scenes, 90, i64::MAX), 2);
}

// ── tag_frequency ─────────────────────────────────────────────────────

#[test]
fn tag_frequency_empty() {
    assert!(tag_frequency(&[]).is_empty());
}

#[test]
fn tag_frequency_counts_correctly() {
    let scenes = vec![
        make_scene(None, &["comedy", "drama"]),
        make_scene(None, &["comedy"]),
        make_scene(None, &["action"]),
    ];
    let freq = tag_frequency(&scenes);
    assert_eq!(freq.get("comedy"), Some(&2));
    assert_eq!(freq.get("drama"), Some(&1));
    assert_eq!(freq.get("action"), Some(&1));
}

#[test]
fn tag_frequency_scene_with_no_tags() {
    let scenes = vec![make_scene(None, &[]), make_scene(None, &["x"])];
    let freq = tag_frequency(&scenes);
    assert_eq!(freq.get("x"), Some(&1));
    assert_eq!(freq.len(), 1);
}

#[test]
fn tag_frequency_keeps_first_occurrence_order() {
    let scenes = vec![make_scene(None, &["b", "a"]), make_scene(None, &["a", "c"])];
    let freq = tag_frequency(&scenes);
    let keys: Vec<&str> = freq.entries().iter().map(|(k, _)| k.as_str()).collect();
    assert_eq!(keys, vec!["b", "a", "c"]);
}

#[test]
fn count_names_counts_duplicates() {
    let names: Vec<String> = ["US", "FR", "US"].iter().map(|s| s.to_string()).collect();
    let counts = count_names(&names);
    assert_eq!(counts.get("US"), Some(&2));
    assert_eq!(counts.get("FR"), Some(&1));
}

// ── requests ──────────────────────────────────────────────────────────

#[test]
fn graphql_body_has_query_and_variables() {
    let body = graphql_body("{ q }", JsonValue::Null);
    assert_eq!(body.get("query").unwrap().as_str(), Some("{ q }"));
    assert!(body.get("variables").unwrap().is_null());
}

#[test]
fn performer_by_name_variables_shape() {
    let v = find_performer_by_name_variables("Alice");
    assert_eq!(v.get("filter").unwrap().get("per_page").unwrap().as_i64(), Some(-1));
    let name = v.get("performer_filter").unwrap().get("name").unwrap();
    assert_eq!(name.get("value").unwrap().as_str(), Some("Alice"));
    assert_eq!(name.get("modifier").unwrap().as_str(), Some("EQUALS"));
}

#[test]
fn studio_by_name_variables_use_text_search() {
    let v = find_studio_by_name_variables("Acme");
    assert_eq!(v.get("filter").unwrap().get("q").unwrap().as_str(), Some("Acme"));
    assert_eq!(v.get("studio_filter").unwrap(), &JsonValue::Object(Vec::new()));
}

#[test]
fn scenes_for_performer_filter_shape() {
    let v = scenes_for_performer_filter("42", true);
    assert_eq!(v.get("organized"), Some(&JsonValue::Bool(true)));
    let v = scenes_for_performer_filter("42", false);
    assert!(v.get("organized").is_none());
    assert_eq!(v.get("performers").unwrap().get("value").unwrap().as_array().unwrap()[0].as_str(), Some("42"));
}

// ── responses ─────────────────────────────────────────────────────────

#[test]
fn graphql_data_returns_data() {
    let payload = obj(vec![("data", obj(vec![("x", JsonValue::integer(1))]))]);
    let data = graphql_data(payload).unwrap();
    assert_eq!(data.get("x").unwrap().as_i64(), Some(1));
}

#[test]
fn graphql_data_reports_error_messages() {
    let errors = JsonValue::Array(vec![
        obj(vec![("message", JsonValue::string("first"))]),
        obj(vec![("code", JsonValue::integer(3))]),
        obj(vec![("message", JsonValue::string("second"))]),
    ]);
    let payload = obj(vec![("errors", errors), ("data", JsonValue::Null)]);
    match graphql_data(payload) {
        Err(StashError::GraphQl(msgs)) => assert_eq!(msgs, vec!["first".to_owned(), "second".to_owned()]),
        other => panic!("unexpected {other:?}"),
    }
}

#[test]
fn graphql_data_ignores_empty_error_list() {
    let payload = obj(vec![("errors", JsonValue::Array(vec![])), ("data", JsonValue::Bool(true))]);
    assert_eq!(graphql_data(payload).unwrap(), JsonValue::Bool(true));
}

#[test]
fn graphql_data_missing_data_field() {
    let payload = obj(vec![("other", JsonValue::Number(JsonNumber::Int(1)))]);
    match graphql_data(payload) {
        Err(StashError::MissingField(f)) => assert_eq!(f, "data"),
        other => panic!("unexpected {other:?}"),
    }
}

// ── lookup by name ────────────────────────────────────────────────────

#[test]
fn studio_position_ignores_case() {
    let studios = vec![
        Studio { id: "1".into(), name: "Acme Sub".into(), ..Default::default() },
        Studio { id: "2".into(), name: "ACME".into(), ..Default::default() },
    ];
    assert_eq!(studio_position(&studios, "acme"), Some(1));
    assert_eq!(studio_position(&studios, "none"), None);
}

#[test]
fn tag_position_picks_first_match() {
    let tags = vec![
        Tag { id: "1".into(), name: "Comedy".into(), ..Default::default() },
        Tag { id: "2".into(), name: "comedy".into(), ..Default::default() },
    ];
    assert_eq!(tag_position(&tags, "COMEDY"), Some(0));
}

#[test]
fn name_position_uses_unicode_lowercase() {
    let names = vec!["Ünïcode".to_owned()];
    assert_eq!(name_position(&names, "üNÏCODE"), Some(0));
}

// ── tag resolution ────────────────────────────────────────────────────

#[test]
fn tag_resolution_all_found() {
    let names = vec!["a".to_owned(), "b".to_owned()];
    let ids = tag_resolution(&names, vec![Some("1".to_owned()), Some("2".to_owned())]).unwrap();
    assert_eq!(ids, vec!["1".to_owned(), "2".to_owned()]);
}

#[test]
fn tag_resolution_lists_unknown_tags() {
    let names = vec!["a".to_owned(), "b".to_owned(), "c".to_owned()];
    let err = tag_resolution(&names, vec![None, Some("2".to_owned()), None]).unwrap_err();
    assert_eq!(err.to_string(), "GraphQL errors: unknown tags: a, c");
}

// ── queries ───────────────────────────────────────────────────────────

#[test]
fn queries_are_non_empty() {
    assert!(!HEALTH_CHECK.is_empty());
    assert!(!FIND_PERFORMERS.is_empty());
    assert!(!FIND_SCENES.is_empty());
    assert!(!FIND_STUDIOS.is_empty());
    assert!(!FIND_TAGS.is_empty());
}

#[test]
fn find_performers_contains_expected_fields() {
    assert!(FIND_PERFORMERS.contains("findPerformers"));
    assert!(FIND_PERFORMERS.contains("performer_filter"));
    assert!(FIND_PERFORMERS.contains("height_cm"));
    assert!(FIND_PERFORMERS.contains("ethnicity"));
    assert!(FIND_PERFORMERS.contains("favorite"));
}

#[test]
fn find_scenes_contains_expected_fields() {
    assert!(FIND_SCENES.contains("findScenes"));
    assert!(FIND_SCENES.contains("scene_filter"));
    assert!(FIND_SCENES.contains("organized"));
    assert!(FIND_SCENES.contains("rating100"));
    assert!(FIND_SCENES.contains("performers"));
}

#[test]
fn find_studios_contains_expected_fields() {
    assert!(FIND_STUDIOS.contains("findStudios"));
    assert!(FIND_STUDIOS.contains("parent_studio"));
    assert!(FIND_STUDIOS.contains("child_studios"));
    assert!(FIND_STUDIOS.contains("scene_count"));
}

#[test]
fn find_tags_contains_expected_fields() {
    assert!(FIND_TAGS.contains("findTags"));
    assert!(FIND_TAGS.contains("scene_marker_count"));
    assert!(FIND_TAGS.contains("parents"));
    assert!(FIND_TAGS.contains("children"));
}

// ── errors ────────────────────────────────────────────────────────────

#[test]
fn test_graphql_error_display() {
    let err = StashError::graphql(vec!["first".into(), "second".into()]);
    assert_eq!(err.to_string(), "GraphQL errors: first, second");
}

#[test]
fn test_not_found_display() {
    let err = StashError::not_found("performer 'Alice'".to_owned());
    assert_eq!(err.to_string(), "Not found: performer 'Alice'");
}

#[test]
fn test_missing_field_display() {
    let err = StashError::MissingField("findPerformers");
    assert_eq!(err.to_string(), "Missing field 'findPerformers' in response");
}

#[test]
fn count_by_rating_split_ranges_add_up() {
    let scenes: Vec<Scene> = [Some(10), Some(50), Some(51), Some(99), None, Some(-3)]
        .iter()
        .map(|r| make_scene(*r, &[]))
        .collect();
    let whole = count_by_rating(&scenes, 0, 100);
    assert_eq!(whole, 4);
    assert_eq!(count_by_rating(&scenes, 0, 50) + count_by_rating(&scenes, 51, 100), whole);
    assert_eq!(count_by_rating(&scenes, i64::MIN, i64::MAX), 5);
}

#[test]
fn tag_frequency_counts_each_occurrence() {
    let scenes = vec![make_scene(None, &["a", "b", "a"]), make_scene(None, &["a"])];
    let freq = tag_frequency(&scenes);
    assert_eq!(freq.get("a"), Some(&3));
    assert_eq!(freq.get("b"), Some(&1));
    assert_eq!(freq.get("c"), None);
}

#[test]
fn count_by_rating_empty_range_and_order() {
    let scenes: Vec<Scene> = [Some(10), Some(60), None, Some(90)].iter().map(|r| make_scene(*r, &[])).collect();
    assert_eq!(count_by_rating(&scenes, 80, 20), 0);
    let mut reversed = scenes.clone();
    reversed.reverse();
    assert_eq!(count_by_rating(&scenes, 0, 70), count_by_rating(&reversed, 0, 70));
    assert!(count_by_rating(&scenes, i64::MIN, i64::MAX) <= scenes.len());
}
