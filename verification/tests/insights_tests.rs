use stash_mcp::error::StashError;
use stash_mcp::json::JsonValue;
use stash_mcp::mcp::insights::{
    analysis_plan, analysis_report, batch_summary, found_or_error, or_empty, performer_name_arg, similar_query,
    AnalysisPlan,
};
use stash_mcp::stash::types::{Performer, Scene, TagRef};

fn obj(members: Vec<(&str, JsonValue)>) -> JsonValue {
    JsonValue::Object(members.into_iter().map(|(k, v)| (k.to_owned(), v)).collect())
}

fn s(v: &str) -> JsonValue {
    JsonValue::Str(v.to_owned())
}

fn performer(name: &str, country: Option<&str>) -> Performer {
    Performer { id: "1".into(), name: name.into(), country: country.map(str::to_owned), ..Default::default() }
}

fn scene(rating: Option<i64>, tags: &[&str]) -> Scene {
    Scene {
        id: "1".into(),
        rating100: rating,
        tags: Some(tags.iter().map(|t| TagRef { id: "0".into(), name: t.to_string() }).collect()),
        ..Default::default()
    }
}

fn plan(name: &str, include_similar: bool, deep: bool) -> AnalysisPlan {
    AnalysisPlan { name: name.into(), include_similar, deep }
}

#[test]
fn performer_name_arg_missing_is_reported() {
    assert_eq!(performer_name_arg(&obj(vec![])).unwrap_err(), "missing required argument 'performer_name'");
    assert_eq!(performer_name_arg(&obj(vec![("performer_name", s("Alice"))])).unwrap(), "Alice");
}

#[test]
fn lookup_found_not_found_and_failed() {
    let p = performer("Alice", None);
    assert_eq!(found_or_error("performer", "Alice", Ok(Some(p.clone()))).unwrap(), p);
    assert_eq!(found_or_error::<Performer>("performer", "Zed", Ok(None)).unwrap_err(), "performer 'Zed' not found");
    assert_eq!(found_or_error::<Performer>("tag", "x", Ok(None)).unwrap_err(), "tag 'x' not found");
    let err = found_or_error::<Performer>("performer", "Zed", Err(StashError::MissingField("findPerformers"))).unwrap_err();
    assert_eq!(err, "Missing field 'findPerformers' in response");
}

#[test]
fn or_empty_drops_failures() {
    assert_eq!(or_empty(Ok(vec![1, 2])), vec![1, 2]);
    assert!(or_empty::<u8>(Err(StashError::NotFound("x".into()))).is_empty());
}

#[test]
fn analysis_plan_defaults() {
    let p = analysis_plan(&obj(vec![("performer_name", s("Alice"))])).unwrap();
    assert_eq!(p.name, "Alice");
    assert!(p.include_similar);
    assert!(!p.deep);
    let p = analysis_plan(&obj(vec![
        ("performer_name", s("Bob")),
        ("include_similar", JsonValue::Bool(false)),
        ("deep_scene_analysis", JsonValue::Bool(true)),
    ]))
    .unwrap();
    assert!(!p.include_similar);
    assert!(p.deep);
    assert_eq!(analysis_plan(&obj(vec![])).unwrap_err(), "missing required argument 'performer_name'");
}

#[test]
fn similar_query_only_when_asked() {
    let p = performer("Alice", Some("Japan"));
    assert!(similar_query(&plan("Alice", false, false), &p).is_none());
    let f = similar_query(&plan("Alice", true, false), &p).unwrap();
    let country = f.get("country").unwrap();
    assert_eq!(country.get("value").and_then(JsonValue::as_str), Some("Japan"));
    assert_eq!(country.get("modifier").and_then(JsonValue::as_str), Some("EQUALS"));
}

#[test]
fn analysis_report_of_scenes_and_candidates() {
    let scenes = vec![
        scene(Some(95), &["a", "b"]),
        scene(None, &["a"]),
        scene(Some(50), &[]),
        scene(Some(85), &["c", "a", "b"]),
    ];
    let candidates = vec![performer("alice", None), performer("Carol", None), performer("Dave", None)];
    let r = analysis_report(&plan("Alice", true, true), &scenes, Some(&candidates));
    assert_eq!(r.total_scenes, 4);
    assert_eq!((r.rating_sum, r.rated_scenes), (230, 3));
    assert_eq!(r.top_rated, vec![0, 3]);
    assert_eq!(r.top_tags, vec![("a".to_owned(), 3), ("b".to_owned(), 2), ("c".to_owned(), 1)]);
    assert_eq!(r.tag_counts.get("b"), Some(&2));
    assert_eq!(r.similar, Some(vec![1, 2]));
    let b = r.breakdown.unwrap();
    assert_eq!(
        (b.excellent_90_plus, b.good_70_to_89, b.average_50_to_69, b.below_average_0_to_49),
        (1, 1, 1, 0)
    );
}

#[test]
fn analysis_report_without_options() {
    let r = analysis_report(&plan("Alice", false, false), &[], None);
    assert_eq!(r.total_scenes, 0);
    assert_eq!((r.rating_sum, r.rated_scenes), (0, 0));
    assert!(r.top_rated.is_empty());
    assert!(r.top_tags.is_empty());
    assert!(r.similar.is_none());
    assert!(r.breakdown.is_none());
}

#[test]
fn batch_summary_splits_found_and_failed() {
    let outcomes = vec![
        Some((performer("A", Some("JP")), 3)),
        None,
        Some((performer("B", None), 4)),
        Some((performer("C", Some("JP")), 0)),
    ];
    let r = batch_summary(&outcomes);
    assert_eq!(r.total_requested, 4);
    assert_eq!(r.processed, vec![0, 2, 3]);
    assert_eq!(r.failed, vec![1]);
    assert_eq!(r.total_scenes, 7);
    assert_eq!(r.country_distribution.len(), 1);
    assert_eq!(r.country_distribution.get("JP"), Some(&2));
}

#[test]
fn batch_summary_of_nothing() {
    let r = batch_summary(&vec![]);
    assert_eq!(r.total_requested, 0);
    assert!(r.processed.is_empty() && r.failed.is_empty());
    assert_eq!(r.total_scenes, 0);
    assert!(r.country_distribution.is_empty());
}

#[test]
fn analysis_report_counts_large_ratings_exactly() {
    let scenes = vec![scene(Some(i64::MAX), &[]), scene(Some(i64::MAX), &[])];
    let r = analysis_report(&plan("x", false, false), &scenes, None);
    assert_eq!(r.rating_sum, 2 * i64::MAX as i128);
}
