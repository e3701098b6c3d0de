use stash_mcp::json::{JsonNumber, JsonValue};
use stash_mcp::mcp::prompts::{get_prompt, list_prompts};
use stash_mcp::mcp::resources::{
    list_resource_templates, list_resources, performer_stats, resource_query, route_resource, studio_stats, summarize,
    tag_stats, text_resource_contents, ResourceQuery, ResourceRoute, MIME_JSON,
};
use stash_mcp::mcp::server_description;
use stash_mcp::mcp::tools::{
    arg_bool, arg_i64, arg_str, batch_names, country_distribution, list_tools, performer_filter_from_args,
    rating_breakdown, scene_filter_from_args, scene_tag_selection, similar_indices, similar_performers_filter,
    split_tag_names, tool_kind, top_rated_indices, top_tags, TagSelection, ToolKind,
};
use stash_mcp::stash::client::tag_frequency;
use stash_mcp::stash::types::{Performer, Scene, Studio, StudioRef, Tag, TagRef};
use stash_mcp::strmap::StrMap;

fn obj(members: Vec<(&str, JsonValue)>) -> JsonValue {
    JsonValue::Object(members.into_iter().map(|(k, v)| (k.to_owned(), v)).collect())
}

fn s(v: &str) -> JsonValue {
    JsonValue::Str(v.to_owned())
}

fn num(v: i64) -> JsonValue {
    JsonValue::Number(JsonNumber::Int(v))
}

fn str_at<'a>(v: &'a JsonValue, path: &[&str]) -> Option<&'a str> {
    let mut cur = v;
    for k in path {
        cur = cur.get(k)?;
    }
    cur.as_str()
}

fn int_at(v: &JsonValue, path: &[&str]) -> Option<i64> {
    let mut cur = v;
    for k in path {
        cur = cur.get(k)?;
    }
    cur.as_i64()
}

fn rated(rating: Option<i64>) -> Scene {
    Scene { id: "1".to_owned(), rating100: rating, ..Default::default() }
}

fn tagged(names: &[&str]) -> Scene {
    Scene {
        id: "1".to_owned(),
        tags: Some(names.iter().map(|n| TagRef { id: "0".to_owned(), name: n.to_string() }).collect()),
        ..Default::default()
    }
}

// ── server description ────────────────────────────────────────────────

#[test]
fn get_info_has_correct_server_name() {
    assert_eq!(server_description().name, "stash-mcp");
}

#[test]
fn get_info_advertises_tools_resources_prompts() {
    let info = server_description();
    assert!(info.tools);
    assert!(info.resources);
    assert!(info.prompts);
}

#[test]
fn get_info_has_instructions() {
    assert!(server_description().instructions.is_some());
}

// ── prompts ───────────────────────────────────────────────────────────

#[test]
fn list_prompts_returns_four_prompts() {
    assert_eq!(list_prompts().len(), 4);
}

#[test]
fn list_prompts_names_are_correct() {
    let prompts = list_prompts();
    let names: Vec<&str> = prompts.iter().map(|p| p.name.as_str()).collect();
    assert!(names.contains(&"analyze-performer"));
    assert!(names.contains(&"library-insights"));
    assert!(names.contains(&"recommend-scenes"));
    assert!(names.contains(&"discover-performers"));
}

#[test]
fn list_prompts_analyze_performer_has_required_arg() {
    let prompts = list_prompts();
    let p = prompts.iter().find(|p| p.name == "analyze-performer").unwrap();
    let args = p.arguments.as_ref().unwrap();
    assert_eq!(args.len(), 1);
    assert_eq!(args[0].name, "performer_name");
    assert!(args[0].required);
}

#[test]
fn list_prompts_library_insights_has_no_args() {
    let prompts = list_prompts();
    let p = prompts.iter().find(|p| p.name == "library-insights").unwrap();
    assert!(p.arguments.is_none());
}

#[test]
fn get_prompt_analyze_performer_contains_name() {
    let args = obj(vec![("performer_name", s("Alice"))]);
    let text = get_prompt("analyze-performer", Some(&args)).expect("expected text");
    assert!(text.contains("Alice"));
    assert!(text.contains("get_performer_info"));
}

#[test]
fn get_prompt_unknown_returns_error() {
    let err = get_prompt("nonexistent-prompt", None).unwrap_err();
    assert_eq!(err.message, "unknown prompt 'nonexistent-prompt'");
}

#[test]
fn get_prompt_library_insights_works_without_args() {
    let text = get_prompt("library-insights", None).unwrap();
    assert!(!text.is_empty());
}

#[test]
fn get_prompt_recommend_scenes_embeds_preferences() {
    let args = obj(vec![("preferences", s("tall blonde performers"))]);
    let text = get_prompt("recommend-scenes", Some(&args)).expect("expected text");
    assert!(text.contains("tall blonde performers"));
}

#[test]
fn get_prompt_discover_performers_embeds_criteria() {
    let args = obj(vec![("criteria", s("tattooed Japanese women"))]);
    let text = get_prompt("discover-performers", Some(&args)).expect("expected text");
    assert!(text.contains("tattooed Japanese women"));
}

#[test]
fn get_prompt_missing_argument_renders_empty_text() {
    let text = get_prompt("analyze-performer", None).unwrap();
    assert!(text.starts_with("Completely analyze the performer '' using"));
}

#[test]
fn every_listed_prompt_renders() {
    for p in list_prompts() {
        assert!(get_prompt(&p.name, None).is_ok(), "prompt '{}' does not render", p.name);
    }
}

// ── resources ─────────────────────────────────────────────────────────

#[test]
fn list_resources_returns_six_static() {
    assert_eq!(list_resources().len(), 6);
}

#[test]
fn list_resources_uris_are_correct() {
    let resources = list_resources();
    let uris: Vec<&str> = resources.iter().map(|r| r.uri.as_str()).collect();
    assert!(uris.contains(&"stash://performer/all"));
    assert!(uris.contains(&"stash://performer/stats"));
    assert!(uris.contains(&"stash://studio/all"));
    assert!(uris.contains(&"stash://studio/stats"));
    assert!(uris.contains(&"stash://tag/all"));
    assert!(uris.contains(&"stash://tag/stats"));
}

#[test]
fn list_resources_all_have_json_mime() {
    for r in &list_resources() {
        assert_eq!(r.mime_type, MIME_JSON, "resource '{}' has wrong MIME", r.uri);
    }
}

#[test]
fn list_resource_templates_returns_five() {
    assert_eq!(list_resource_templates().len(), 5);
}

#[test]
fn list_resource_templates_contain_placeholders() {
    for t in &list_resource_templates() {
        assert!(t.uri_template.contains('{'), "template '{}' has no placeholder", t.uri_template);
    }
}

#[test]
fn text_resource_contents_sets_mime() {
    let rc = text_resource_contents("stash://test", "{}".to_owned());
    assert_eq!(rc.uri, "stash://test");
    assert_eq!(rc.mime_type, MIME_JSON);
    assert_eq!(rc.text, "{}");
}

#[test]
fn every_listed_resource_routes() {
    let expected = [
        ResourceRoute::AllPerformers,
        ResourceRoute::PerformerStats,
        ResourceRoute::AllStudios,
        ResourceRoute::StudioStats,
        ResourceRoute::AllTags,
        ResourceRoute::TagStats,
    ];
    for (r, want) in list_resources().iter().zip(expected) {
        assert_eq!(route_resource(&r.uri).unwrap(), want);
    }
}

#[test]
fn filled_templates_route_to_their_parameter() {
    assert_eq!(
        route_resource("stash://performer/country/Japan").unwrap(),
        ResourceRoute::PerformersByCountry("Japan".to_owned())
    );
    assert_eq!(
        route_resource("stash://performer/ethnicity/Asian").unwrap(),
        ResourceRoute::PerformersByEthnicity("Asian".to_owned())
    );
    assert_eq!(route_resource("stash://performer/Alice").unwrap(), ResourceRoute::PerformerByName("Alice".to_owned()));
    assert_eq!(route_resource("stash://studio/Acme").unwrap(), ResourceRoute::StudioByName("Acme".to_owned()));
    assert_eq!(route_resource("stash://tag/comedy").unwrap(), ResourceRoute::TagByName("comedy".to_owned()));
}

#[test]
fn static_uri_wins_over_template() {
    assert_eq!(route_resource("stash://tag/stats").unwrap(), ResourceRoute::TagStats);
    assert_eq!(
        route_resource("stash://performer/country/").unwrap(),
        ResourceRoute::PerformersByCountry(String::new())
    );
}

#[test]
fn unknown_resource_uri_is_refused() {
    let err = route_resource("file:///etc/passwd").unwrap_err();
    assert_eq!(err.message, "unknown resource URI 'file:///etc/passwd'");
}

#[test]
fn summarize_empty_is_none() {
    assert!(summarize(&vec![]).is_none());
}

#[test]
fn summarize_bounds_every_value() {
    let sum = summarize(&vec![170, 155, 182]).unwrap();
    assert_eq!(sum.sum, 507);
    assert_eq!(sum.min, 155);
    assert_eq!(sum.max, 182);
    assert_eq!(sum.count, 3);
    assert!(sum.min as i128 * 3 <= sum.sum && sum.sum <= sum.max as i128 * 3);
}

#[test]
fn summarize_extreme_values_do_not_overflow() {
    let sum = summarize(&vec![i64::MAX, i64::MAX]).unwrap();
    assert_eq!(sum.sum, 2 * i64::MAX as i128);
}

#[test]
fn performer_stats_counts_and_distributions() {
    let performers = vec![
        Performer { name: "A".into(), country: Some("JP".into()), height_cm: Some(160), ..Default::default() },
        Performer { name: "B".into(), country: Some("US".into()), weight: Some(55), ..Default::default() },
        Performer { name: "C".into(), country: Some("JP".into()), ethnicity: Some("Asian".into()), ..Default::default() },
    ];
    let stats = performer_stats(&performers);
    assert_eq!(stats.total_performers, 3);
    assert_eq!(stats.country_distribution.get("JP"), Some(&2));
    assert_eq!(stats.country_distribution.get("US"), Some(&1));
    assert_eq!(stats.ethnicity_distribution.get("Asian"), Some(&1));
    let h = stats.height.unwrap();
    assert_eq!((h.min, h.max, h.count), (160, 160, 1));
    assert_eq!(stats.weight.unwrap().sum, 55);
}

#[test]
fn studio_stats_counts_hierarchy_and_ratings() {
    let studios = vec![
        Studio {
            name: "Parent".into(),
            scene_count: Some(10),
            rating100: Some(80),
            child_studios: Some(vec![StudioRef { id: "2".into(), name: "Child".into() }]),
            ..Default::default()
        },
        Studio {
            name: "Child".into(),
            scene_count: Some(5),
            parent_studio: Some(StudioRef { id: "1".into(), name: "Parent".into() }),
            child_studios: Some(vec![]),
            ..Default::default()
        },
    ];
    let stats = studio_stats(&studios);
    assert_eq!(stats.total_studios, 2);
    assert_eq!(stats.total_scenes, 15);
    assert_eq!(stats.studios_with_parent, 1);
    assert_eq!(stats.studios_with_children, 1);
    assert_eq!(stats.ratings.unwrap().count, 1);
}

#[test]
fn tag_stats_counts_associations() {
    let tags = vec![
        Tag {
            name: "a".into(),
            scene_count: Some(3),
            scene_marker_count: Some(1),
            children: Some(vec![TagRef { id: "2".into(), name: "b".into() }]),
            ..Default::default()
        },
        Tag {
            name: "b".into(),
            scene_count: Some(4),
            parents: Some(vec![TagRef { id: "1".into(), name: "a".into() }]),
            ..Default::default()
        },
    ];
    let stats = tag_stats(&tags);
    assert_eq!(stats.total_tags, 2);
    assert_eq!(stats.total_scene_associations, 7);
    assert_eq!(stats.total_marker_associations, 1);
    assert_eq!(stats.tags_with_parents, 1);
    assert_eq!(stats.tags_with_children, 1);
}

// ── tools ─────────────────────────────────────────────────────────────

#[test]
fn list_tools_returns_seven_tools() {
    assert_eq!(list_tools().len(), 7);
}

#[test]
fn list_tools_names_are_correct() {
    let tools = list_tools();
    let names: Vec<&str> = tools.iter().map(|t| t.name.as_str()).collect();
    assert!(names.contains(&"get_performer_info"));
    assert!(names.contains(&"get_all_performers"));
    assert!(names.contains(&"get_all_scenes"));
    assert!(names.contains(&"get_all_scenes_from_performer"));
    assert!(names.contains(&"health_check"));
    assert!(names.contains(&"advanced_performer_analysis"));
    assert!(names.contains(&"batch_performer_insights"));
}

#[test]
fn list_tools_all_have_descriptions() {
    for tool in &list_tools() {
        assert!(!tool.description.is_empty(), "tool '{}' has no description", tool.name);
    }
}

#[test]
fn list_tools_all_have_schemas() {
    for tool in &list_tools() {
        assert_eq!(
            str_at(&tool.input_schema, &["type"]),
            Some("object"),
            "tool '{}' schema root is not 'object'",
            tool.name
        );
    }
}

#[test]
fn every_listed_tool_dispatches() {
    let expected = [
        ToolKind::GetPerformerInfo,
        ToolKind::GetAllPerformers,
        ToolKind::GetAllScenes,
        ToolKind::GetAllScenesFromPerformer,
        ToolKind::HealthCheck,
        ToolKind::AdvancedPerformerAnalysis,
        ToolKind::BatchPerformerInsights,
    ];
    for (t, want) in list_tools().iter().zip(expected) {
        assert_eq!(tool_kind(&t.name).unwrap(), want);
    }
}

#[test]
fn unknown_tool_is_refused() {
    let err = tool_kind("__no_such_tool__").unwrap_err();
    assert_eq!(err.message, "unknown tool '__no_such_tool__'");
}

#[test]
fn required_arguments_are_listed_in_schema() {
    let tools = list_tools();
    let info = tools.iter().find(|t| t.name == "get_performer_info").unwrap();
    let required = info.input_schema.get("required").unwrap().as_array().unwrap();
    assert_eq!(required.len(), 1);
    assert_eq!(required[0].as_str(), Some("performer_name"));
}

#[test]
fn arg_str_extracts_string() {
    let map = obj(vec![("key", s("value"))]);
    assert_eq!(arg_str(&map, "key"), Some("value"));
    assert!(arg_str(&map, "missing").is_none());
}

#[test]
fn arg_bool_uses_default_when_missing() {
    let map = obj(vec![]);
    assert!(arg_bool(&map, "flag", true));
    assert!(!arg_bool(&map, "flag", false));
}

#[test]
fn arg_bool_reads_value() {
    let map = obj(vec![("flag", JsonValue::Bool(false))]);
    assert!(!arg_bool(&map, "flag", true));
}

#[test]
fn arg_i64_extracts_integer() {
    let map = obj(vec![("n", num(42))]);
    assert_eq!(arg_i64(&map, "n"), Some(42));
    assert!(arg_i64(&map, "missing").is_none());
}

#[test]
fn arg_helpers_ignore_values_of_another_type() {
    let map = obj(vec![("n", s("42")), ("flag", s("yes"))]);
    assert_eq!(arg_i64(&map, "n"), None);
    assert!(arg_bool(&map, "flag", true));
    assert_eq!(arg_str(&map, "flag"), Some("yes"));
}

#[test]
fn performer_filter_from_args_defaults_to_favorites() {
    let f = performer_filter_from_args(&obj(vec![]));
    assert_eq!(f.get("filter_favorites"), Some(&JsonValue::Bool(true)));
}

#[test]
fn performer_filter_from_args_reads_criteria() {
    let args = obj(vec![
        ("favorites_only", JsonValue::Bool(false)),
        ("country", s("Japan")),
        ("height_cm", num(160)),
        ("height_cm_modifier", s("BETWEEN")),
        ("height_cm_value2", num(175)),
        ("tattoos", s("rose")),
    ]);
    let f = performer_filter_from_args(&args);
    assert!(f.get("filter_favorites").is_none());
    assert_eq!(str_at(&f, &["country", "value"]), Some("Japan"));
    assert_eq!(str_at(&f, &["country", "modifier"]), Some("EQUALS"));
    assert_eq!(int_at(&f, &["height_cm", "value"]), Some(160));
    assert_eq!(int_at(&f, &["height_cm", "value2"]), Some(175));
    assert_eq!(str_at(&f, &["height_cm", "modifier"]), Some("BETWEEN"));
    assert_eq!(str_at(&f, &["tattoos", "modifier"]), Some("INCLUDES"));
}

#[test]
fn split_tag_names_trims_each_piece() {
    assert_eq!(split_tag_names(" comedy, drama ,action"), vec!["comedy", "drama", "action"]);
    assert_eq!(split_tag_names(""), vec![""]);
    assert_eq!(split_tag_names("a,,b"), vec!["a", "", "b"]);
}

#[test]
fn scene_tag_selection_keeps_both_lists() {
    let args = obj(vec![("include_tags", s("a, b")), ("exclude_tags", s("c"))]);
    assert_eq!(
        scene_tag_selection(&args),
        TagSelection { included: Some(vec!["a".to_owned(), "b".to_owned()]), excluded: Some(vec!["c".to_owned()]) }
    );
    let args = obj(vec![("exclude_tags", s("c"))]);
    assert_eq!(scene_tag_selection(&args), TagSelection { included: None, excluded: Some(vec!["c".to_owned()]) });
    assert_eq!(scene_tag_selection(&obj(vec![])), TagSelection { included: None, excluded: None });
}

#[test]
fn scene_filter_from_args_includes_and_excludes_together() {
    let tags = TagSelection { included: Some(vec!["1".to_owned()]), excluded: Some(vec!["7".to_owned()]) };
    let f = scene_filter_from_args(&obj(vec![]), tags);
    assert_eq!(str_at(&f, &["tags", "modifier"]), Some("INCLUDES"));
    assert_eq!(f.get("tags").unwrap().get("value").unwrap().as_array().unwrap()[0].as_str(), Some("1"));
    assert_eq!(str_at(&f, &["AND", "tags", "modifier"]), Some("EXCLUDES"));
    assert_eq!(f.get("AND").unwrap().get("tags").unwrap().get("value").unwrap().as_array().unwrap()[0].as_str(), Some("7"));
}

#[test]
fn scene_filter_from_args_builds_rating_range() {
    let args = obj(vec![("organized_only", JsonValue::Bool(false)), ("min_rating", num(70)), ("max_rating", num(90))]);
    let f = scene_filter_from_args(&args, TagSelection { included: None, excluded: Some(vec!["7".to_owned()]) });
    assert!(f.get("organized").is_none());
    assert_eq!(str_at(&f, &["tag_count", "modifier"]), Some("GREATER_THAN"));
    assert_eq!(str_at(&f, &["tags", "modifier"]), Some("EXCLUDES"));
    assert_eq!(int_at(&f, &["rating100", "value"]), Some(70));
    assert_eq!(int_at(&f, &["rating100", "value2"]), Some(90));
    assert_eq!(str_at(&f, &["rating100", "modifier"]), Some("BETWEEN"));
}

#[test]
fn scene_filter_from_args_single_bounds_are_inclusive() {
    let f = scene_filter_from_args(&obj(vec![("min_rating", num(80))]), TagSelection { included: None, excluded: None });
    assert_eq!(f.get("organized"), Some(&JsonValue::Bool(true)));
    assert_eq!(int_at(&f, &["rating100", "value"]), Some(79));
    let f = scene_filter_from_args(&obj(vec![("max_rating", num(90))]), TagSelection { included: None, excluded: None });
    assert_eq!(int_at(&f, &["rating100", "value"]), Some(91));
    assert_eq!(str_at(&f, &["rating100", "modifier"]), Some("LESS_THAN"));
}

#[test]
fn top_rated_indices_takes_first_five_above_eighty() {
    let ratings = [Some(81), Some(80), None, Some(95), Some(90), Some(99), Some(85), Some(100)];
    let scenes: Vec<Scene> = ratings.iter().map(|r| rated(*r)).collect();
    assert_eq!(top_rated_indices(&scenes), vec![0, 3, 4, 5, 6]);
}

#[test]
fn top_tags_sorted_by_count_and_cut_to_ten() {
    let mut names = vec![];
    for (i, n) in ["t0", "t1", "t2", "t3", "t4", "t5", "t6", "t7", "t8", "t9", "t10", "t11"].iter().enumerate() {
        for _ in 0..(i % 4 + 1) {
            names.push(*n);
        }
    }
    let scenes = vec![tagged(&names)];
    let freq = tag_frequency(&scenes);
    let top = top_tags(&freq);
    assert_eq!(top.len(), 10);
    for w in top.windows(2) {
        assert!(w[0].1 >= w[1].1);
    }
    assert_eq!(top[0], ("t3".to_owned(), 4));
    assert_eq!(top[1], ("t7".to_owned(), 4));
    assert_eq!(top[2], ("t11".to_owned(), 4));
    for (name, count) in &top {
        assert_eq!(freq.get(name), Some(count));
    }
}

#[test]
fn top_tags_of_few_tags_keeps_all() {
    let freq = tag_frequency(&[tagged(&["a", "b", "b"])]);
    assert_eq!(top_tags(&freq), vec![("b".to_owned(), 2), ("a".to_owned(), 1)]);
    let empty: StrMap<usize> = StrMap::new();
    assert!(top_tags(&empty).is_empty());
}

#[test]
fn similar_performers_filter_uses_country_and_ethnicity() {
    let p = Performer {
        name: "A".into(),
        country: Some("Japan".into()),
        ethnicity: Some("Asian".into()),
        ..Default::default()
    };
    let f = similar_performers_filter(&p);
    assert_eq!(str_at(&f, &["country", "value"]), Some("Japan"));
    assert_eq!(str_at(&f, &["ethnicity", "value"]), Some("Asian"));
    let f = similar_performers_filter(&Performer::default());
    assert_eq!(f, JsonValue::Object(vec![]));
}

#[test]
fn similar_indices_skip_the_performer_and_stop_at_five() {
    let names = ["alice", "Bob", "ALICE", "c", "d", "e", "f", "g"];
    let performers: Vec<Performer> =
        names.iter().map(|n| Performer { name: n.to_string(), ..Default::default() }).collect();
    assert_eq!(similar_indices(&performers, "Alice"), vec![1, 3, 4, 5, 6]);
}

#[test]
fn rating_breakdown_bands() {
    let ratings = [Some(95), Some(90), Some(89), Some(70), Some(69), Some(50), Some(49), Some(0), None];
    let scenes: Vec<Scene> = ratings.iter().map(|r| rated(*r)).collect();
    let b = rating_breakdown(&scenes);
    assert_eq!(b.excellent_90_plus, 2);
    assert_eq!(b.good_70_to_89, 2);
    assert_eq!(b.average_50_to_69, 2);
    assert_eq!(b.below_average_0_to_49, 2);
    assert_eq!(b.excellent_90_plus + b.good_70_to_89 + b.average_50_to_69 + b.below_average_0_to_49, 8);
}

#[test]
fn rating_breakdown_ignores_negative_ratings() {
    let b = rating_breakdown(&[rated(Some(-5))]);
    assert_eq!(b.excellent_90_plus + b.good_70_to_89 + b.average_50_to_69 + b.below_average_0_to_49, 0);
}

#[test]
fn batch_names_keeps_strings_up_to_limit() {
    let args = obj(vec![
        ("performer_names", JsonValue::Array(vec![s("a"), num(3), s("b"), s("c")])),
        ("max_performers", num(2)),
    ]);
    assert_eq!(batch_names(&args).unwrap(), vec!["a", "b"]);
    let args = obj(vec![("performer_names", JsonValue::Array(vec![s("a"), s("b")]))]);
    assert_eq!(batch_names(&args).unwrap(), vec!["a", "b"]);
}

#[test]
fn batch_names_errors() {
    let err = batch_names(&obj(vec![])).unwrap_err();
    assert_eq!(err.message, "missing required argument 'performer_names'");
    let err = batch_names(&obj(vec![("performer_names", s("Alice"))])).unwrap_err();
    assert_eq!(err.message, "'performer_names' must be an array");
}

#[test]
fn country_distribution_counts_known_countries() {
    let performers = vec![
        Performer { country: Some("JP".into()), ..Default::default() },
        Performer::default(),
        Performer { country: Some("JP".into()), ..Default::default() },
    ];
    let d = country_distribution(&performers);
    assert_eq!(d.len(), 1);
    assert_eq!(d.get("JP"), Some(&2));
}

#[test]
fn resources_follow_the_favorites_setting() {
    match resource_query(ResourceRoute::PerformerStats, false) {
        ResourceQuery::Performers(f) => assert_eq!(f, JsonValue::Object(vec![])),
        other => panic!("unexpected {other:?}"),
    }
    match resource_query(ResourceRoute::PerformerStats, true) {
        ResourceQuery::Performers(f) => assert_eq!(f.get("filter_favorites"), Some(&JsonValue::Bool(true))),
        other => panic!("unexpected {other:?}"),
    }
    match resource_query(ResourceRoute::StudioStats, false) {
        ResourceQuery::Studios(f) => assert_eq!(f, JsonValue::Object(vec![])),
        other => panic!("unexpected {other:?}"),
    }
    match resource_query(ResourceRoute::TagStats, true) {
        ResourceQuery::Tags(f) => assert_eq!(f.get("favorite"), Some(&JsonValue::Bool(true))),
        other => panic!("unexpected {other:?}"),
    }
    match resource_query(ResourceRoute::PerformersByCountry("JP".to_owned()), false) {
        ResourceQuery::Performers(f) => {
            assert!(f.get("filter_favorites").is_none());
            assert_eq!(str_at(&f, &["country", "value"]), Some("JP"));
        }
        other => panic!("unexpected {other:?}"),
    }
}
