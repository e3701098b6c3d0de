//! The tools the server offers: their catalog, how their arguments become
//! GraphQL filters, and the analyses they compute from what Stash returns.

use vstd::prelude::*;
use crate::json::{bool_of, entries_model, field, i64_of, items_model, jint, jstr, str_of, JsonModel, JsonValue};
use crate::mcp::InvalidRequest;
use crate::stash::client::{
    count_by_rating, count_names, count_rated_in, counts_view, law_count_full_range, law_count_split, ratings,
    scene_tag_names, tally,
};
use crate::stash::filters::{
    between_criterion_model, int_criterion_model, multi_criterion_model, ranged_criterion_model,
    law_filter_set_then_read, string_criterion_model, PerformerFilterBuilder, SceneFilterBuilder,
};
use crate::stash::types::{Performer, Scene};
use crate::strmap::{keys_distinct, lemma_upsert, upsert, StrMap};
use crate::text::{chars_of, lowercase, owned, split_on, str_eq, string_of_range, to_lowercase, trim, trim_range};

verus! {

// ── Arguments ───────────────────────────────────────────────────────────────

/// A string argument.
pub open spec fn str_arg(args: JsonModel, key: Seq<char>) -> Option<Seq<char>> {
    match field(args, key) {
        Some(v) => str_of(v),
        None => None,
    }
}

/// An integer argument that fits `i64`.
pub open spec fn int_arg(args: JsonModel, key: Seq<char>) -> Option<i64> {
    match field(args, key) {
        Some(v) => i64_of(v),
        None => None,
    }
}

/// A boolean argument, or `default` when it is missing or not a boolean.
pub open spec fn bool_arg(args: JsonModel, key: Seq<char>, default: bool) -> bool {
    match field(args, key) {
        Some(v) => match bool_of(v) {
            Some(b) => b,
            None => default,
        },
        None => default,
    }
}

/// The string argument `key` of a tool call.
pub fn arg_str<'a>(args: &'a JsonValue, key: &str) -> (r: Option<&'a str>)
    ensures
        r matches Some(s) ==> str_arg(args.model(), key@) == Some(s@),
        r is None ==> str_arg(args.model(), key@) is None,
{
    match args.get(key) {
        Some(v) => v.as_str(),
        None => None,
    }
}

/// The boolean argument `key` of a tool call, or `default`.
pub fn arg_bool(args: &JsonValue, key: &str, default: bool) -> (r: bool)
    ensures
        r == bool_arg(args.model(), key@, default),
{
    match args.get(key) {
        Some(v) => match v.as_bool() {
            Some(b) => b,
            None => default,
        },
        None => default,
    }
}

/// The integer argument `key` of a tool call.
pub fn arg_i64(args: &JsonValue, key: &str) -> (r: Option<i64>)
    ensures
        r == int_arg(args.model(), key@),
{
    match args.get(key) {
        Some(v) => v.as_i64(),
        None => None,
    }
}

// ── Dispatch ────────────────────────────────────────────────────────────────

/// The tools of the server.
#[derive(Debug, Clone, Copy, PartialEq, Eq)]
pub enum ToolKind {
    GetPerformerInfo,
    GetAllPerformers,
    GetAllScenes,
    GetAllScenesFromPerformer,
    HealthCheck,
    AdvancedPerformerAnalysis,
    BatchPerformerInsights,
}

/// The tool a name designates.
pub open spec fn tool_of(name: Seq<char>) -> Option<ToolKind> {
    if name == "get_performer_info"@ {
        Some(ToolKind::GetPerformerInfo)
    } else if name == "get_all_performers"@ {
        Some(ToolKind::GetAllPerformers)
    } else if name == "get_all_scenes"@ {
        Some(ToolKind::GetAllScenes)
    } else if name == "get_all_scenes_from_performer"@ {
        Some(ToolKind::GetAllScenesFromPerformer)
    } else if name == "health_check"@ {
        Some(ToolKind::HealthCheck)
    } else if name == "advanced_performer_analysis"@ {
        Some(ToolKind::AdvancedPerformerAnalysis)
    } else if name == "batch_performer_insights"@ {
        Some(ToolKind::BatchPerformerInsights)
    } else {
        None
    }
}

/// Every tool the server lists can be called: each name that `list_tools`
/// gives designates its own tool.
pub proof fn law_listed_tools_dispatch()
    ensures
        tool_of("get_performer_info"@) == Some(ToolKind::GetPerformerInfo),
        tool_of("get_all_performers"@) == Some(ToolKind::GetAllPerformers),
        tool_of("get_all_scenes"@) == Some(ToolKind::GetAllScenes),
        tool_of("get_all_scenes_from_performer"@) == Some(ToolKind::GetAllScenesFromPerformer),
        tool_of("health_check"@) == Some(ToolKind::HealthCheck),
        tool_of("advanced_performer_analysis"@) == Some(ToolKind::AdvancedPerformerAnalysis),
        tool_of("batch_performer_insights"@) == Some(ToolKind::BatchPerformerInsights),
{
    reveal_strlit("get_performer_info");
    reveal_strlit("get_all_performers");
    reveal_strlit("get_all_scenes");
    reveal_strlit("get_all_scenes_from_performer");
    reveal_strlit("health_check");
    reveal_strlit("advanced_performer_analysis");
    reveal_strlit("batch_performer_insights");
    assert("get_all_performers"@[4] != "get_performer_info"@[4]);
    assert("get_all_scenes"@.len() != "get_performer_info"@.len());
    assert("get_all_scenes"@.len() != "get_all_performers"@.len());
    assert("get_all_scenes_from_performer"@.len() != "get_performer_info"@.len());
    assert("get_all_scenes_from_performer"@.len() != "get_all_performers"@.len());
    assert("get_all_scenes_from_performer"@.len() != "get_all_scenes"@.len());
    assert("health_check"@.len() != "get_performer_info"@.len());
    assert("health_check"@.len() != "get_all_performers"@.len());
    assert("health_check"@.len() != "get_all_scenes"@.len());
    assert("health_check"@.len() != "get_all_scenes_from_performer"@.len());
    assert("advanced_performer_analysis"@.len() != "get_performer_info"@.len());
    assert("advanced_performer_analysis"@.len() != "get_all_performers"@.len());
    assert("advanced_performer_analysis"@.len() != "get_all_scenes"@.len());
    assert("advanced_performer_analysis"@.len() != "get_all_scenes_from_performer"@.len());
    assert("advanced_performer_analysis"@.len() != "health_check"@.len());
    assert("batch_performer_insights"@.len() != "get_performer_info"@.len());
    assert("batch_performer_insights"@.len() != "get_all_performers"@.len());
    assert("batch_performer_insights"@.len() != "get_all_scenes"@.len());
    assert("batch_performer_insights"@.len() != "get_all_scenes_from_performer"@.len());
    assert("batch_performer_insights"@.len() != "health_check"@.len());
    assert("batch_performer_insights"@.len() != "advanced_performer_analysis"@.len());
}

/// The tool a call names; an unknown name is refused with `unknown tool '<name>'`.
pub fn tool_kind(name: &str) -> (r: Result<ToolKind, InvalidRequest>)
    ensures
        match tool_of(name@) {
            Some(k) => r == Ok::<ToolKind, InvalidRequest>(k),
            None => r matches Err(e) && e.message@ == "unknown tool '"@ + name@ + "'"@,
        },
{
    if str_eq(name, "get_performer_info") {
        Ok(ToolKind::GetPerformerInfo)
    } else if str_eq(name, "get_all_performers") {
        Ok(ToolKind::GetAllPerformers)
    } else if str_eq(name, "get_all_scenes") {
        Ok(ToolKind::GetAllScenes)
    } else if str_eq(name, "get_all_scenes_from_performer") {
        Ok(ToolKind::GetAllScenesFromPerformer)
    } else if str_eq(name, "health_check") {
        Ok(ToolKind::HealthCheck)
    } else if str_eq(name, "advanced_performer_analysis") {
        Ok(ToolKind::AdvancedPerformerAnalysis)
    } else if str_eq(name, "batch_performer_insights") {
        Ok(ToolKind::BatchPerformerInsights)
    } else {
        Err(InvalidRequest::quoted("unknown tool '", name))
    }
}

// ── get_all_performers ──────────────────────────────────────────────────────

/// The modifier argument `key`, `EQUALS` by default.
pub open spec fn modifier_arg(args: JsonModel, key: Seq<char>) -> Seq<char> {
    match str_arg(args, key) {
        Some(m) => m,
        None => "EQUALS"@,
    }
}

/// The members after a string criterion: set when the argument `key` is a
/// string, with the modifier argument `modifier_key`.
pub open spec fn with_string_arg(
    f: Seq<(Seq<char>, JsonModel)>,
    args: JsonModel,
    key: Seq<char>,
    modifier_key: Seq<char>,
) -> Seq<(Seq<char>, JsonModel)> {
    match str_arg(args, key) {
        Some(v) => upsert(f, key, string_criterion_model(v, modifier_arg(args, modifier_key))),
        None => f,
    }
}

/// The members after an `INCLUDES` string criterion on argument `key`.
pub open spec fn with_includes_arg(f: Seq<(Seq<char>, JsonModel)>, args: JsonModel, key: Seq<char>) -> Seq<(Seq<char>, JsonModel)> {
    match str_arg(args, key) {
        Some(v) => upsert(f, key, string_criterion_model(v, "INCLUDES"@)),
        None => f,
    }
}

/// The members after a numeric criterion on argument `key`, with the
/// modifier argument `<key>_modifier` and the second value `<key>_value2`.
pub open spec fn with_ranged_arg(
    f: Seq<(Seq<char>, JsonModel)>,
    args: JsonModel,
    key: Seq<char>,
    modifier_key: Seq<char>,
    value2_key: Seq<char>,
) -> Seq<(Seq<char>, JsonModel)> {
    match int_arg(args, key) {
        Some(v) => upsert(f, key, ranged_criterion_model(v, modifier_arg(args, modifier_key), int_arg(args, value2_key))),
        None => f,
    }
}

/// The performer filter the `get_all_performers` arguments describe, member by member.
pub open spec fn performer_filter_fields(args: JsonModel) -> Seq<(Seq<char>, JsonModel)> {
    let f0 = if bool_arg(args, "favorites_only"@, true) {
        seq![("filter_favorites"@, JsonModel::Bool(true))]
    } else {
        Seq::empty()
    };
    let f1 = with_string_arg(f0, args, "country"@, "country_modifier"@);
    let f2 = with_string_arg(f1, args, "ethnicity"@, "ethnicity_modifier"@);
    let f3 = with_string_arg(f2, args, "eye_color"@, "eye_color_modifier"@);
    let f4 = with_string_arg(f3, args, "hair_color"@, "hair_color_modifier"@);
    let f5 = with_ranged_arg(f4, args, "height_cm"@, "height_cm_modifier"@, "height_cm_value2"@);
    let f6 = with_string_arg(f5, args, "measurements"@, "measurements_modifier"@);
    let f7 = with_includes_arg(f6, args, "piercings"@);
    let f8 = with_includes_arg(f7, args, "tattoos"@);
    with_ranged_arg(f8, args, "weight"@, "weight_modifier"@, "weight_value2"@)
}

proof fn lemma_set_read(f: Seq<(Seq<char>, JsonModel)>, k: Seq<char>, v: JsonModel, other: Seq<char>)
    requires
        keys_distinct(f),
    ensures
        keys_distinct(upsert(f, k, v)),
        field(JsonModel::Object(upsert(f, k, v)), other) == if other == k {
            Some(v)
        } else {
            field(JsonModel::Object(f), other)
        },
{
    lemma_upsert(f, k, v);
    law_filter_set_then_read(f, k, v, other);
}

proof fn lemma_string_step(
    f: Seq<(Seq<char>, JsonModel)>,
    args: JsonModel,
    key: Seq<char>,
    modifier_key: Seq<char>,
    other: Seq<char>,
)
    requires
        keys_distinct(f),
    ensures
        keys_distinct(with_string_arg(f, args, key, modifier_key)),
        field(JsonModel::Object(with_string_arg(f, args, key, modifier_key)), other) == if other == key
            && str_arg(args, key) is Some {
            Some(string_criterion_model(str_arg(args, key)->0, modifier_arg(args, modifier_key)))
        } else {
            field(JsonModel::Object(f), other)
        },
{
    if let Some(v) = str_arg(args, key) {
        lemma_set_read(f, key, string_criterion_model(v, modifier_arg(args, modifier_key)), other);
    }
}

proof fn lemma_includes_step(f: Seq<(Seq<char>, JsonModel)>, args: JsonModel, key: Seq<char>, other: Seq<char>)
    requires
        keys_distinct(f),
    ensures
        keys_distinct(with_includes_arg(f, args, key)),
        field(JsonModel::Object(with_includes_arg(f, args, key)), other) == if other == key && str_arg(args, key) is Some {
            Some(string_criterion_model(str_arg(args, key)->0, "INCLUDES"@))
        } else {
            field(JsonModel::Object(f), other)
        },
{
    if let Some(v) = str_arg(args, key) {
        lemma_set_read(f, key, string_criterion_model(v, "INCLUDES"@), other);
    }
}

proof fn lemma_ranged_step(
    f: Seq<(Seq<char>, JsonModel)>,
    args: JsonModel,
    key: Seq<char>,
    modifier_key: Seq<char>,
    value2_key: Seq<char>,
    other: Seq<char>,
)
    requires
        keys_distinct(f),
    ensures
        keys_distinct(with_ranged_arg(f, args, key, modifier_key, value2_key)),
        field(JsonModel::Object(with_ranged_arg(f, args, key, modifier_key, value2_key)), other) == if other == key
            && int_arg(args, key) is Some {
            Some(ranged_criterion_model(int_arg(args, key)->0, modifier_arg(args, modifier_key), int_arg(args, value2_key)))
        } else {
            field(JsonModel::Object(f), other)
        },
{
    if let Some(v) = int_arg(args, key) {
        lemma_set_read(f, key, ranged_criterion_model(v, modifier_arg(args, modifier_key), int_arg(args, value2_key)), other);
    }
}

/// Every string filter of `get_all_performers` reaches the performer filter:
/// for each of `country`, `ethnicity`, `eye_color`, `hair_color` and
/// `measurements`, the filter has a member of that name exactly when the
/// argument is a string, and the member is `{"value": the argument,
/// "modifier": its `_modifier` argument, or "EQUALS"}`.
pub proof fn law_performer_filter_string_arguments(args: JsonModel, key: Seq<char>, modifier_key: Seq<char>)
    requires
        (key == "country"@ && modifier_key == "country_modifier"@) || (key == "ethnicity"@ && modifier_key
            == "ethnicity_modifier"@) || (key == "eye_color"@ && modifier_key == "eye_color_modifier"@) || (key
            == "hair_color"@ && modifier_key == "hair_color_modifier"@) || (key == "measurements"@ && modifier_key
            == "measurements_modifier"@),
    ensures
        str_arg(args, key) is None ==> field(JsonModel::Object(performer_filter_fields(args)), key) is None,
        (str_arg(args, key), str_arg(args, modifier_key)) matches (Some(v), Some(m)) ==> field(
            JsonModel::Object(performer_filter_fields(args)),
            key,
        ) == Some(JsonModel::Object(seq![("value"@, jstr(v)), ("modifier"@, jstr(m))])),
        (str_arg(args, key), str_arg(args, modifier_key)) matches (Some(v), None) ==> field(
            JsonModel::Object(performer_filter_fields(args)),
            key,
        ) == Some(JsonModel::Object(seq![("value"@, jstr(v)), ("modifier"@, jstr("EQUALS"@))])),
{
    reveal_strlit("filter_favorites");
    reveal_strlit("country");
    reveal_strlit("ethnicity");
    reveal_strlit("eye_color");
    reveal_strlit("hair_color");
    reveal_strlit("height_cm");
    reveal_strlit("measurements");
    reveal_strlit("piercings");
    reveal_strlit("tattoos");
    reveal_strlit("weight");
    assert("country"@.len() != "filter_favorites"@.len());
    assert("ethnicity"@.len() != "filter_favorites"@.len());
    assert("ethnicity"@.len() != "country"@.len());
    assert("eye_color"@.len() != "filter_favorites"@.len());
    assert("eye_color"@.len() != "country"@.len());
    assert("eye_color"@[1] != "ethnicity"@[1]);
    assert("hair_color"@.len() != "filter_favorites"@.len());
    assert("hair_color"@.len() != "country"@.len());
    assert("hair_color"@.len() != "ethnicity"@.len());
    assert("hair_color"@.len() != "eye_color"@.len());
    assert("height_cm"@.len() != "filter_favorites"@.len());
    assert("height_cm"@.len() != "country"@.len());
    assert("height_cm"@[0] != "ethnicity"@[0]);
    assert("height_cm"@[0] != "eye_color"@[0]);
    assert("height_cm"@.len() != "hair_color"@.len());
    assert("measurements"@.len() != "filter_favorites"@.len());
    assert("measurements"@.len() != "country"@.len());
    assert("measurements"@.len() != "ethnicity"@.len());
    assert("measurements"@.len() != "eye_color"@.len());
    assert("measurements"@.len() != "hair_color"@.len());
    assert("measurements"@.len() != "height_cm"@.len());
    assert("piercings"@.len() != "filter_favorites"@.len());
    assert("piercings"@.len() != "country"@.len());
    assert("piercings"@[0] != "ethnicity"@[0]);
    assert("piercings"@[0] != "eye_color"@[0]);
    assert("piercings"@.len() != "hair_color"@.len());
    assert("piercings"@[0] != "height_cm"@[0]);
    assert("piercings"@.len() != "measurements"@.len());
    assert("tattoos"@.len() != "filter_favorites"@.len());
    assert("tattoos"@[0] != "country"@[0]);
    assert("tattoos"@.len() != "ethnicity"@.len());
    assert("tattoos"@.len() != "eye_color"@.len());
    assert("tattoos"@.len() != "hair_color"@.len());
    assert("tattoos"@.len() != "height_cm"@.len());
    assert("tattoos"@.len() != "measurements"@.len());
    assert("tattoos"@.len() != "piercings"@.len());
    assert("weight"@.len() != "filter_favorites"@.len());
    assert("weight"@.len() != "country"@.len());
    assert("weight"@.len() != "ethnicity"@.len());
    assert("weight"@.len() != "eye_color"@.len());
    assert("weight"@.len() != "hair_color"@.len());
    assert("weight"@.len() != "height_cm"@.len());
    assert("weight"@.len() != "measurements"@.len());
    assert("weight"@.len() != "piercings"@.len());
    assert("weight"@.len() != "tattoos"@.len());
    let f0 = if bool_arg(args, "favorites_only"@, true) {
        seq![("filter_favorites"@, JsonModel::Bool(true))]
    } else {
        Seq::empty()
    };
    assert(keys_distinct(f0));
    assert forall|j: int| 0 <= j < f0.len() implies f0[j].0 != key by {}
    crate::json::lemma_member_none(f0, key);
    let f1 = with_string_arg(f0, args, "country"@, "country_modifier"@);
    let f2 = with_string_arg(f1, args, "ethnicity"@, "ethnicity_modifier"@);
    let f3 = with_string_arg(f2, args, "eye_color"@, "eye_color_modifier"@);
    let f4 = with_string_arg(f3, args, "hair_color"@, "hair_color_modifier"@);
    let f5 = with_ranged_arg(f4, args, "height_cm"@, "height_cm_modifier"@, "height_cm_value2"@);
    let f6 = with_string_arg(f5, args, "measurements"@, "measurements_modifier"@);
    let f7 = with_includes_arg(f6, args, "piercings"@);
    let f8 = with_includes_arg(f7, args, "tattoos"@);
    lemma_string_step(f0, args, "country"@, "country_modifier"@, key);
    lemma_string_step(f1, args, "ethnicity"@, "ethnicity_modifier"@, key);
    lemma_string_step(f2, args, "eye_color"@, "eye_color_modifier"@, key);
    lemma_string_step(f3, args, "hair_color"@, "hair_color_modifier"@, key);
    lemma_ranged_step(f4, args, "height_cm"@, "height_cm_modifier"@, "height_cm_value2"@, key);
    lemma_string_step(f5, args, "measurements"@, "measurements_modifier"@, key);
    lemma_includes_step(f6, args, "piercings"@, key);
    lemma_includes_step(f7, args, "tattoos"@, key);
    lemma_ranged_step(f8, args, "weight"@, "weight_modifier"@, "weight_value2"@, key);
    let fin = with_ranged_arg(f8, args, "weight"@, "weight_modifier"@, "weight_value2"@);
    assert(performer_filter_fields(args) == fin);
    let expected = match str_arg(args, key) {
        Some(v) => Some(string_criterion_model(v, modifier_arg(args, modifier_key))),
        None => None,
    };
    if key == "country"@ {
        assert(field(JsonModel::Object(f1), key) == expected);
    } else if key == "ethnicity"@ {
        assert(field(JsonModel::Object(f2), key) == expected);
    } else if key == "eye_color"@ {
        assert(field(JsonModel::Object(f3), key) == expected);
    } else if key == "hair_color"@ {
        assert(field(JsonModel::Object(f4), key) == expected);
    } else {
        assert(field(JsonModel::Object(f6), key) == expected);
    }
    assert(field(JsonModel::Object(fin), key) == expected);
    if let Some(v) = str_arg(args, key) {
        let m = match str_arg(args, modifier_key) {
            Some(m) => m,
            None => "EQUALS"@,
        };
        assert(modifier_arg(args, modifier_key) == m);
        assert(string_criterion_model(v, m) == JsonModel::Object(seq![("value"@, jstr(v)), ("modifier"@, jstr(m))]));
        assert(expected == Some(JsonModel::Object(seq![("value"@, jstr(v)), ("modifier"@, jstr(m))])));
    } else {
        assert(expected is None);
    }
    assert(field(JsonModel::Object(performer_filter_fields(args)), key) == expected);
}

/// The favorites flag of `get_all_performers` reaches the performer filter:
/// it asks for favorites (`"filter_favorites": true`) unless `favorites_only`
/// is `false`, and then it has no such member.
pub proof fn law_performer_filter_favorites(args: JsonModel)
    ensures
        field(args, "favorites_only"@) == Some(JsonModel::Bool(false)) ==> field(
            JsonModel::Object(performer_filter_fields(args)),
            "filter_favorites"@,
        ) is None,
        field(args, "favorites_only"@) != Some(JsonModel::Bool(false)) ==> field(
            JsonModel::Object(performer_filter_fields(args)),
            "filter_favorites"@,
        ) == Some(JsonModel::Bool(true)),
{
    reveal_strlit("filter_favorites");
    reveal_strlit("country");
    reveal_strlit("ethnicity");
    reveal_strlit("eye_color");
    reveal_strlit("hair_color");
    reveal_strlit("height_cm");
    reveal_strlit("measurements");
    reveal_strlit("piercings");
    reveal_strlit("tattoos");
    reveal_strlit("weight");
    assert("country"@.len() != "filter_favorites"@.len());
    assert("ethnicity"@.len() != "filter_favorites"@.len());
    assert("ethnicity"@.len() != "country"@.len());
    assert("eye_color"@.len() != "filter_favorites"@.len());
    assert("eye_color"@.len() != "country"@.len());
    assert("eye_color"@[1] != "ethnicity"@[1]);
    assert("hair_color"@.len() != "filter_favorites"@.len());
    assert("hair_color"@.len() != "country"@.len());
    assert("hair_color"@.len() != "ethnicity"@.len());
    assert("hair_color"@.len() != "eye_color"@.len());
    assert("height_cm"@.len() != "filter_favorites"@.len());
    assert("height_cm"@.len() != "country"@.len());
    assert("height_cm"@[0] != "ethnicity"@[0]);
    assert("height_cm"@[0] != "eye_color"@[0]);
    assert("height_cm"@.len() != "hair_color"@.len());
    assert("measurements"@.len() != "filter_favorites"@.len());
    assert("measurements"@.len() != "country"@.len());
    assert("measurements"@.len() != "ethnicity"@.len());
    assert("measurements"@.len() != "eye_color"@.len());
    assert("measurements"@.len() != "hair_color"@.len());
    assert("measurements"@.len() != "height_cm"@.len());
    assert("piercings"@.len() != "filter_favorites"@.len());
    assert("piercings"@.len() != "country"@.len());
    assert("piercings"@[0] != "ethnicity"@[0]);
    assert("piercings"@[0] != "eye_color"@[0]);
    assert("piercings"@.len() != "hair_color"@.len());
    assert("piercings"@[0] != "height_cm"@[0]);
    assert("piercings"@.len() != "measurements"@.len());
    assert("tattoos"@.len() != "filter_favorites"@.len());
    assert("tattoos"@[0] != "country"@[0]);
    assert("tattoos"@.len() != "ethnicity"@.len());
    assert("tattoos"@.len() != "eye_color"@.len());
    assert("tattoos"@.len() != "hair_color"@.len());
    assert("tattoos"@.len() != "height_cm"@.len());
    assert("tattoos"@.len() != "measurements"@.len());
    assert("tattoos"@.len() != "piercings"@.len());
    assert("weight"@.len() != "filter_favorites"@.len());
    assert("weight"@.len() != "country"@.len());
    assert("weight"@.len() != "ethnicity"@.len());
    assert("weight"@.len() != "eye_color"@.len());
    assert("weight"@.len() != "hair_color"@.len());
    assert("weight"@.len() != "height_cm"@.len());
    assert("weight"@.len() != "measurements"@.len());
    assert("weight"@.len() != "piercings"@.len());
    assert("weight"@.len() != "tattoos"@.len());
    let f0 = if bool_arg(args, "favorites_only"@, true) {
        seq![("filter_favorites"@, JsonModel::Bool(true))]
    } else {
        Seq::empty()
    };
    assert(keys_distinct(f0));
    let f1 = with_string_arg(f0, args, "country"@, "country_modifier"@);
    let f2 = with_string_arg(f1, args, "ethnicity"@, "ethnicity_modifier"@);
    let f3 = with_string_arg(f2, args, "eye_color"@, "eye_color_modifier"@);
    let f4 = with_string_arg(f3, args, "hair_color"@, "hair_color_modifier"@);
    let f5 = with_ranged_arg(f4, args, "height_cm"@, "height_cm_modifier"@, "height_cm_value2"@);
    let f6 = with_string_arg(f5, args, "measurements"@, "measurements_modifier"@);
    let f7 = with_includes_arg(f6, args, "piercings"@);
    let f8 = with_includes_arg(f7, args, "tattoos"@);
    lemma_string_step(f0, args, "country"@, "country_modifier"@, "filter_favorites"@);
    lemma_string_step(f1, args, "ethnicity"@, "ethnicity_modifier"@, "filter_favorites"@);
    lemma_string_step(f2, args, "eye_color"@, "eye_color_modifier"@, "filter_favorites"@);
    lemma_string_step(f3, args, "hair_color"@, "hair_color_modifier"@, "filter_favorites"@);
    lemma_ranged_step(f4, args, "height_cm"@, "height_cm_modifier"@, "height_cm_value2"@, "filter_favorites"@);
    lemma_string_step(f5, args, "measurements"@, "measurements_modifier"@, "filter_favorites"@);
    lemma_includes_step(f6, args, "piercings"@, "filter_favorites"@);
    lemma_includes_step(f7, args, "tattoos"@, "filter_favorites"@);
    lemma_ranged_step(f8, args, "weight"@, "weight_modifier"@, "weight_value2"@, "filter_favorites"@);
    let fin = with_ranged_arg(f8, args, "weight"@, "weight_modifier"@, "weight_value2"@);
    assert(performer_filter_fields(args) == fin);

    if bool_arg(args, "favorites_only"@, true) {
        crate::json::lemma_member_at(f0, "filter_favorites"@, 0);
    } else {
        crate::json::lemma_member_none(f0, "filter_favorites"@);
    }
}

/// The piercings and tattoos filters of `get_all_performers` reach the
/// performer filter as `INCLUDES` matches: a member of that name exactly when
/// the argument is a string, `{"value": the argument, "modifier": "INCLUDES"}`.
pub proof fn law_performer_filter_includes_arguments(args: JsonModel, key: Seq<char>)
    requires
        key == "piercings"@ || key == "tattoos"@,
    ensures
        str_arg(args, key) is None ==> field(JsonModel::Object(performer_filter_fields(args)), key) is None,
        str_arg(args, key) matches Some(v) ==> field(JsonModel::Object(performer_filter_fields(args)), key) == Some(
            JsonModel::Object(seq![("value"@, jstr(v)), ("modifier"@, jstr("INCLUDES"@))]),
        ),
{
    reveal_strlit("filter_favorites");
    reveal_strlit("country");
    reveal_strlit("ethnicity");
    reveal_strlit("eye_color");
    reveal_strlit("hair_color");
    reveal_strlit("height_cm");
    reveal_strlit("measurements");
    reveal_strlit("piercings");
    reveal_strlit("tattoos");
    reveal_strlit("weight");
    assert("country"@.len() != "filter_favorites"@.len());
    assert("ethnicity"@.len() != "filter_favorites"@.len());
    assert("ethnicity"@.len() != "country"@.len());
    assert("eye_color"@.len() != "filter_favorites"@.len());
    assert("eye_color"@.len() != "country"@.len());
    assert("eye_color"@[1] != "ethnicity"@[1]);
    assert("hair_color"@.len() != "filter_favorites"@.len());
    assert("hair_color"@.len() != "country"@.len());
    assert("hair_color"@.len() != "ethnicity"@.len());
    assert("hair_color"@.len() != "eye_color"@.len());
    assert("height_cm"@.len() != "filter_favorites"@.len());
    assert("height_cm"@.len() != "country"@.len());
    assert("height_cm"@[0] != "ethnicity"@[0]);
    assert("height_cm"@[0] != "eye_color"@[0]);
    assert("height_cm"@.len() != "hair_color"@.len());
    assert("measurements"@.len() != "filter_favorites"@.len());
    assert("measurements"@.len() != "country"@.len());
    assert("measurements"@.len() != "ethnicity"@.len());
    assert("measurements"@.len() != "eye_color"@.len());
    assert("measurements"@.len() != "hair_color"@.len());
    assert("measurements"@.len() != "height_cm"@.len());
    assert("piercings"@.len() != "filter_favorites"@.len());
    assert("piercings"@.len() != "country"@.len());
    assert("piercings"@[0] != "ethnicity"@[0]);
    assert("piercings"@[0] != "eye_color"@[0]);
    assert("piercings"@.len() != "hair_color"@.len());
    assert("piercings"@[0] != "height_cm"@[0]);
    assert("piercings"@.len() != "measurements"@.len());
    assert("tattoos"@.len() != "filter_favorites"@.len());
    assert("tattoos"@[0] != "country"@[0]);
    assert("tattoos"@.len() != "ethnicity"@.len());
    assert("tattoos"@.len() != "eye_color"@.len());
    assert("tattoos"@.len() != "hair_color"@.len());
    assert("tattoos"@.len() != "height_cm"@.len());
    assert("tattoos"@.len() != "measurements"@.len());
    assert("tattoos"@.len() != "piercings"@.len());
    assert("weight"@.len() != "filter_favorites"@.len());
    assert("weight"@.len() != "country"@.len());
    assert("weight"@.len() != "ethnicity"@.len());
    assert("weight"@.len() != "eye_color"@.len());
    assert("weight"@.len() != "hair_color"@.len());
    assert("weight"@.len() != "height_cm"@.len());
    assert("weight"@.len() != "measurements"@.len());
    assert("weight"@.len() != "piercings"@.len());
    assert("weight"@.len() != "tattoos"@.len());
    let f0 = if bool_arg(args, "favorites_only"@, true) {
        seq![("filter_favorites"@, JsonModel::Bool(true))]
    } else {
        Seq::empty()
    };
    assert(keys_distinct(f0));
    let f1 = with_string_arg(f0, args, "country"@, "country_modifier"@);
    let f2 = with_string_arg(f1, args, "ethnicity"@, "ethnicity_modifier"@);
    let f3 = with_string_arg(f2, args, "eye_color"@, "eye_color_modifier"@);
    let f4 = with_string_arg(f3, args, "hair_color"@, "hair_color_modifier"@);
    let f5 = with_ranged_arg(f4, args, "height_cm"@, "height_cm_modifier"@, "height_cm_value2"@);
    let f6 = with_string_arg(f5, args, "measurements"@, "measurements_modifier"@);
    let f7 = with_includes_arg(f6, args, "piercings"@);
    let f8 = with_includes_arg(f7, args, "tattoos"@);
    lemma_string_step(f0, args, "country"@, "country_modifier"@, key);
    lemma_string_step(f1, args, "ethnicity"@, "ethnicity_modifier"@, key);
    lemma_string_step(f2, args, "eye_color"@, "eye_color_modifier"@, key);
    lemma_string_step(f3, args, "hair_color"@, "hair_color_modifier"@, key);
    lemma_ranged_step(f4, args, "height_cm"@, "height_cm_modifier"@, "height_cm_value2"@, key);
    lemma_string_step(f5, args, "measurements"@, "measurements_modifier"@, key);
    lemma_includes_step(f6, args, "piercings"@, key);
    lemma_includes_step(f7, args, "tattoos"@, key);
    lemma_ranged_step(f8, args, "weight"@, "weight_modifier"@, "weight_value2"@, key);
    let fin = with_ranged_arg(f8, args, "weight"@, "weight_modifier"@, "weight_value2"@);
    assert(performer_filter_fields(args) == fin);

    assert forall|j: int| 0 <= j < f0.len() implies f0[j].0 != key by {}
    crate::json::lemma_member_none(f0, key);
}

/// The height and weight filters of `get_all_performers` reach the performer
/// filter: a member of that name exactly when the argument is an integer;
/// with a second value and the modifier `BETWEEN` or `NOT_BETWEEN` it is the
/// range `{"value", "value2", "modifier"}` with that same modifier, otherwise
/// `{"value", "modifier"}` with the `_modifier` argument, or `EQUALS`.
pub proof fn law_performer_filter_numeric_arguments(
    args: JsonModel,
    key: Seq<char>,
    modifier_key: Seq<char>,
    value2_key: Seq<char>,
)
    requires
        (key == "height_cm"@ && modifier_key == "height_cm_modifier"@ && value2_key == "height_cm_value2"@) || (key
            == "weight"@ && modifier_key == "weight_modifier"@ && value2_key == "weight_value2"@),
    ensures
        int_arg(args, key) is None ==> field(JsonModel::Object(performer_filter_fields(args)), key) is None,
        (int_arg(args, key), str_arg(args, modifier_key), int_arg(args, value2_key)) matches (Some(v), Some(m), Some(w))
            ==> (m == "BETWEEN"@ || m == "NOT_BETWEEN"@ ==> field(JsonModel::Object(performer_filter_fields(args)), key)
            == Some(JsonModel::Object(seq![("value"@, jint(v)), ("value2"@, jint(w)), ("modifier"@, jstr(m))])))
            && (!(m == "BETWEEN"@ || m == "NOT_BETWEEN"@) ==> field(
            JsonModel::Object(performer_filter_fields(args)),
            key,
        ) == Some(JsonModel::Object(seq![("value"@, jint(v)), ("modifier"@, jstr(m))]))),
        (int_arg(args, key), str_arg(args, modifier_key), int_arg(args, value2_key)) matches (Some(v), Some(m), None)
            ==> field(JsonModel::Object(performer_filter_fields(args)), key) == Some(
            JsonModel::Object(seq![("value"@, jint(v)), ("modifier"@, jstr(m))]),
        ),
        (int_arg(args, key), str_arg(args, modifier_key)) matches (Some(v), None) ==> field(
            JsonModel::Object(performer_filter_fields(args)),
            key,
        ) == Some(JsonModel::Object(seq![("value"@, jint(v)), ("modifier"@, jstr("EQUALS"@))])),
{
    reveal_strlit("filter_favorites");
    reveal_strlit("country");
    reveal_strlit("ethnicity");
    reveal_strlit("eye_color");
    reveal_strlit("hair_color");
    reveal_strlit("height_cm");
    reveal_strlit("measurements");
    reveal_strlit("piercings");
    reveal_strlit("tattoos");
    reveal_strlit("weight");
    assert("country"@.len() != "filter_favorites"@.len());
    assert("ethnicity"@.len() != "filter_favorites"@.len());
    assert("ethnicity"@.len() != "country"@.len());
    assert("eye_color"@.len() != "filter_favorites"@.len());
    assert("eye_color"@.len() != "country"@.len());
    assert("eye_color"@[1] != "ethnicity"@[1]);
    assert("hair_color"@.len() != "filter_favorites"@.len());
    assert("hair_color"@.len() != "country"@.len());
    assert("hair_color"@.len() != "ethnicity"@.len());
    assert("hair_color"@.len() != "eye_color"@.len());
    assert("height_cm"@.len() != "filter_favorites"@.len());
    assert("height_cm"@.len() != "country"@.len());
    assert("height_cm"@[0] != "ethnicity"@[0]);
    assert("height_cm"@[0] != "eye_color"@[0]);
    assert("height_cm"@.len() != "hair_color"@.len());
    assert("measurements"@.len() != "filter_favorites"@.len());
    assert("measurements"@.len() != "country"@.len());
    assert("measurements"@.len() != "ethnicity"@.len());
    assert("measurements"@.len() != "eye_color"@.len());
    assert("measurements"@.len() != "hair_color"@.len());
    assert("measurements"@.len() != "height_cm"@.len());
    assert("piercings"@.len() != "filter_favorites"@.len());
    assert("piercings"@.len() != "country"@.len());
    assert("piercings"@[0] != "ethnicity"@[0]);
    assert("piercings"@[0] != "eye_color"@[0]);
    assert("piercings"@.len() != "hair_color"@.len());
    assert("piercings"@[0] != "height_cm"@[0]);
    assert("piercings"@.len() != "measurements"@.len());
    assert("tattoos"@.len() != "filter_favorites"@.len());
    assert("tattoos"@[0] != "country"@[0]);
    assert("tattoos"@.len() != "ethnicity"@.len());
    assert("tattoos"@.len() != "eye_color"@.len());
    assert("tattoos"@.len() != "hair_color"@.len());
    assert("tattoos"@.len() != "height_cm"@.len());
    assert("tattoos"@.len() != "measurements"@.len());
    assert("tattoos"@.len() != "piercings"@.len());
    assert("weight"@.len() != "filter_favorites"@.len());
    assert("weight"@.len() != "country"@.len());
    assert("weight"@.len() != "ethnicity"@.len());
    assert("weight"@.len() != "eye_color"@.len());
    assert("weight"@.len() != "hair_color"@.len());
    assert("weight"@.len() != "height_cm"@.len());
    assert("weight"@.len() != "measurements"@.len());
    assert("weight"@.len() != "piercings"@.len());
    assert("weight"@.len() != "tattoos"@.len());
    let f0 = if bool_arg(args, "favorites_only"@, true) {
        seq![("filter_favorites"@, JsonModel::Bool(true))]
    } else {
        Seq::empty()
    };
    assert(keys_distinct(f0));
    let f1 = with_string_arg(f0, args, "country"@, "country_modifier"@);
    let f2 = with_string_arg(f1, args, "ethnicity"@, "ethnicity_modifier"@);
    let f3 = with_string_arg(f2, args, "eye_color"@, "eye_color_modifier"@);
    let f4 = with_string_arg(f3, args, "hair_color"@, "hair_color_modifier"@);
    let f5 = with_ranged_arg(f4, args, "height_cm"@, "height_cm_modifier"@, "height_cm_value2"@);
    let f6 = with_string_arg(f5, args, "measurements"@, "measurements_modifier"@);
    let f7 = with_includes_arg(f6, args, "piercings"@);
    let f8 = with_includes_arg(f7, args, "tattoos"@);
    lemma_string_step(f0, args, "country"@, "country_modifier"@, key);
    lemma_string_step(f1, args, "ethnicity"@, "ethnicity_modifier"@, key);
    lemma_string_step(f2, args, "eye_color"@, "eye_color_modifier"@, key);
    lemma_string_step(f3, args, "hair_color"@, "hair_color_modifier"@, key);
    lemma_ranged_step(f4, args, "height_cm"@, "height_cm_modifier"@, "height_cm_value2"@, key);
    lemma_string_step(f5, args, "measurements"@, "measurements_modifier"@, key);
    lemma_includes_step(f6, args, "piercings"@, key);
    lemma_includes_step(f7, args, "tattoos"@, key);
    lemma_ranged_step(f8, args, "weight"@, "weight_modifier"@, "weight_value2"@, key);
    let fin = with_ranged_arg(f8, args, "weight"@, "weight_modifier"@, "weight_value2"@);
    assert(performer_filter_fields(args) == fin);

    reveal_strlit("EQUALS");
    reveal_strlit("BETWEEN");
    reveal_strlit("NOT_BETWEEN");
    assert("EQUALS"@[0] != "BETWEEN"@[0] && "EQUALS"@[0] != "NOT_BETWEEN"@[0]);
    assert forall|j: int| 0 <= j < f0.len() implies f0[j].0 != key by {}
    crate::json::lemma_member_none(f0, key);
}

fn modifier_or_equals<'a>(args: &'a JsonValue, key: &str) -> (r: &'a str)
    ensures
        r@ == modifier_arg(args.model(), key@),
{
    match arg_str(args, key) {
        Some(m) => m,
        None => "EQUALS",
    }
}

/// The performer filter of a `get_all_performers` call: favorites only unless
/// `favorites_only` is false; string criteria for country, ethnicity, eye and
/// hair color and measurements with their `_modifier` (default `EQUALS`);
/// `INCLUDES` criteria for piercings and tattoos; numeric criteria for height
/// and weight with their `_modifier` and `_value2`.
pub fn performer_filter_from_args(args: &JsonValue) -> (r: JsonValue)
    ensures
        r.model() == JsonModel::Object(performer_filter_fields(args.model())),
{
    let ghost a = args.model();
    let favorites_only = arg_bool(args, "favorites_only", true);
    let mut fb = PerformerFilterBuilder::new().favorites_only(favorites_only);
    proof {
        assert(upsert(Seq::<(Seq<char>, JsonModel)>::empty(), "filter_favorites"@, JsonModel::Bool(true))
            =~= seq![("filter_favorites"@, JsonModel::Bool(true))]);
    }
    match arg_str(args, "country") {
        Some(v) => {
            fb = fb.country(v, modifier_or_equals(args, "country_modifier"));
        },
        None => {},
    }
    match arg_str(args, "ethnicity") {
        Some(v) => {
            fb = fb.ethnicity(v, modifier_or_equals(args, "ethnicity_modifier"));
        },
        None => {},
    }
    match arg_str(args, "eye_color") {
        Some(v) => {
            fb = fb.eye_color(v, modifier_or_equals(args, "eye_color_modifier"));
        },
        None => {},
    }
    match arg_str(args, "hair_color") {
        Some(v) => {
            fb = fb.hair_color(v, modifier_or_equals(args, "hair_color_modifier"));
        },
        None => {},
    }
    match arg_i64(args, "height_cm") {
        Some(h) => {
            let m = modifier_or_equals(args, "height_cm_modifier");
            let v2 = arg_i64(args, "height_cm_value2");
            fb = fb.height_cm(h, m, v2);
        },
        None => {},
    }
    match arg_str(args, "measurements") {
        Some(v) => {
            fb = fb.measurements(v, modifier_or_equals(args, "measurements_modifier"));
        },
        None => {},
    }
    match arg_str(args, "piercings") {
        Some(v) => {
            fb = fb.piercings(v);
        },
        None => {},
    }
    match arg_str(args, "tattoos") {
        Some(v) => {
            fb = fb.tattoos(v);
        },
        None => {},
    }
    match arg_i64(args, "weight") {
        Some(w) => {
            let m = modifier_or_equals(args, "weight_modifier");
            let v2 = arg_i64(args, "weight_value2");
            fb = fb.weight(w, m, v2);
        },
        None => {},
    }
    fb.build()
}

// ── get_all_scenes ──────────────────────────────────────────────────────────

/// Tag names (or the ids they resolve to) that scenes must carry, and those
/// they must not carry.
#[derive(Debug, PartialEq)]
pub struct TagSelection {
    pub included: Option<Vec<String>>,
    pub excluded: Option<Vec<String>>,
}

/// The pieces of a comma-separated list, each trimmed.
pub open spec fn csv_names(csv: Seq<char>) -> Seq<Seq<char>> {
    split_on(csv, ',').map_values(|p: Seq<char>| trim(p))
}

/// The names of a comma-separated list, each trimmed (`csv.split(',').map(str::trim)`).
pub fn split_tag_names(csv: &str) -> (r: Vec<String>)
    ensures
        r@.map_values(|s: String| s@) == csv_names(csv@),
{
    let chars = chars_of(csv);
    let mut out: Vec<String> = Vec::new();
    let mut start: usize = 0;
    let mut i: usize = 0;
    let ghost mut done: Seq<Seq<char>> = Seq::empty();
    assert(chars@.take(0) =~= Seq::<char>::empty());
    assert(split_on(chars@.take(0), ',') =~= done.push(chars@.subrange(0, 0)));
    while i < chars.len()
        invariant
            start <= i <= chars.len(),
            split_on(chars@.take(i as int), ',') == done.push(chars@.subrange(start as int, i as int)),
            out@.map_values(|s: String| s@) == done.map_values(|p: Seq<char>| trim(p)),
        decreases chars.len() - i,
    {
        proof {
            crate::text::lemma_split_on_push(chars@.take(i as int), ',', chars@[i as int]);
            assert(chars@.take(i + 1) =~= chars@.take(i as int).push(chars@[i as int]));
        }
        if chars[i] == ',' {
            let (a, b) = trim_range(&chars, start, i);
            let piece = string_of_range(&chars, a, b);
            let ghost before = out@;
            out.push(piece);
            proof {
                let p = chars@.subrange(start as int, i as int);
                assert(out@.map_values(|s: String| s@) =~= before.map_values(|s: String| s@).push(trim(p)));
                assert(done.push(p).map_values(|q: Seq<char>| trim(q)) =~= done.map_values(|q: Seq<char>| trim(q)).push(trim(p)));
                done = done.push(p);
                assert(chars@.subrange(i + 1, i + 1) =~= Seq::<char>::empty());
            }
            start = i + 1;
        } else {
            proof {
                let prev = done.push(chars@.subrange(start as int, i as int));
                assert(chars@.subrange(start as int, i + 1) =~= chars@.subrange(start as int, i as int).push(chars@[i as int]));
                assert(prev.update(prev.len() - 1, prev.last().push(chars@[i as int])) =~= done.push(
                    chars@.subrange(start as int, i + 1),
                ));
            }
        }
        i += 1;
    }
    let (a, b) = trim_range(&chars, start, chars.len());
    let piece = string_of_range(&chars, a, b);
    let ghost before = out@;
    out.push(piece);
    proof {
        let p = chars@.subrange(start as int, chars.len() as int);
        assert(chars@.take(chars.len() as int) =~= chars@);
        assert(out@.map_values(|s: String| s@) =~= before.map_values(|s: String| s@).push(trim(p)));
        assert(done.push(p).map_values(|q: Seq<char>| trim(q)) =~= done.map_values(|q: Seq<char>| trim(q)).push(trim(p)));
    }
    out
}

/// The names of a comma-separated string argument, each trimmed.
pub open spec fn csv_arg(args: JsonModel, key: Seq<char>) -> Option<Seq<Seq<char>>> {
    match str_arg(args, key) {
        Some(csv) => Some(csv_names(csv)),
        None => None,
    }
}

/// The tag selection of a `get_all_scenes` call: the names of `include_tags`
/// and the names of `exclude_tags`, each where given.
pub open spec fn tag_selection_of(args: JsonModel) -> (Option<Seq<Seq<char>>>, Option<Seq<Seq<char>>>) {
    (csv_arg(args, "include_tags"@), csv_arg(args, "exclude_tags"@))
}

/// The entries of an optional list of strings.
pub open spec fn names_model(v: Option<Vec<String>>) -> Option<Seq<Seq<char>>> {
    match v {
        Some(items) => Some(items@.map_values(|x: String| x@)),
        None => None,
    }
}

/// The model of a tag selection: the included tags and the excluded ones.
pub open spec fn selection_model(s: TagSelection) -> (Option<Seq<Seq<char>>>, Option<Seq<Seq<char>>>) {
    (names_model(s.included), names_model(s.excluded))
}

fn csv_arg_names(args: &JsonValue, key: &str) -> (r: Option<Vec<String>>)
    ensures
        names_model(r) == csv_arg(args.model(), key@),
{
    match arg_str(args, key) {
        Some(csv) => Some(split_tag_names(csv)),
        None => None,
    }
}

/// The tag names a `get_all_scenes` call selects by.
pub fn scene_tag_selection(args: &JsonValue) -> (r: TagSelection)
    ensures
        selection_model(r) == tag_selection_of(args.model()),
{
    TagSelection { included: csv_arg_names(args, "include_tags"), excluded: csv_arg_names(args, "exclude_tags") }
}

/// The scene filter a `get_all_scenes` call describes, once its tag names are
/// resolved to the ids in `tags` (included, excluded): organized scenes
/// only unless `organized_only` is false; only tagged scenes; an `INCLUDES`
/// criterion for the included tags and an `EXCLUDES` criterion for the
/// excluded ones (joined by `AND` when both are given); and the inclusive
/// rating bounds `min_rating` / `max_rating`.
pub open spec fn scene_filter_fields(
    args: JsonModel,
    tags: (Option<Seq<Seq<char>>>, Option<Seq<Seq<char>>>),
) -> Seq<(Seq<char>, JsonModel)> {
    let f0 = if bool_arg(args, "organized_only"@, true) {
        seq![("organized"@, JsonModel::Bool(true))]
    } else {
        Seq::empty()
    };
    let f1 = upsert(f0, "tag_count"@, int_criterion_model(0, "GREATER_THAN"@));
    let f2 = match tags {
        (Some(inc), Some(exc)) => upsert(
            upsert(f1, "tags"@, multi_criterion_model(inc, "INCLUDES"@)),
            "AND"@,
            JsonModel::Object(seq![("tags"@, multi_criterion_model(exc, "EXCLUDES"@))]),
        ),
        (Some(inc), None) => upsert(f1, "tags"@, multi_criterion_model(inc, "INCLUDES"@)),
        (None, Some(exc)) => upsert(f1, "tags"@, multi_criterion_model(exc, "EXCLUDES"@)),
        (None, None) => f1,
    };
    match (int_arg(args, "min_rating"@), int_arg(args, "max_rating"@)) {
        (Some(min), Some(max)) => upsert(f2, "rating100"@, between_criterion_model(min, max)),
        (Some(min), None) => upsert(f2, "rating100"@, int_criterion_model((min - 1) as i64, "GREATER_THAN"@)),
        (None, Some(max)) => upsert(f2, "rating100"@, int_criterion_model((max + 1) as i64, "LESS_THAN"@)),
        (None, None) => f2,
    }
}

/// The tag arguments of `get_all_scenes` reach the scene filter as asked: the
/// included ids form an `INCLUDES` criterion under `tags`, whether or not
/// tags are excluded too; the excluded ids form an `EXCLUDES` criterion, under
/// `tags` when nothing is included and under `AND` → `tags` otherwise; with
/// neither, the filter holds no tag criterion.
pub proof fn law_scene_filter_tags(
    args: JsonModel,
    included: Option<Seq<Seq<char>>>,
    excluded: Option<Seq<Seq<char>>>,
)
    ensures
        included matches Some(inc) ==> field(
            JsonModel::Object(scene_filter_fields(args, (included, excluded))),
            "tags"@,
        ) == Some(
            JsonModel::Object(
                seq![
                    ("value"@, JsonModel::Array(Seq::new(inc.len(), |i: int| jstr(inc[i])))),
                    ("modifier"@, jstr("INCLUDES"@)),
                ],
            ),
        ),
        (included, excluded) matches (None, Some(exc)) ==> field(
            JsonModel::Object(scene_filter_fields(args, (included, excluded))),
            "tags"@,
        ) == Some(
            JsonModel::Object(
                seq![
                    ("value"@, JsonModel::Array(Seq::new(exc.len(), |i: int| jstr(exc[i])))),
                    ("modifier"@, jstr("EXCLUDES"@)),
                ],
            ),
        ),
        (included, excluded) matches (Some(_), Some(exc)) ==> field(
            JsonModel::Object(scene_filter_fields(args, (included, excluded))),
            "AND"@,
        ) == Some(
            JsonModel::Object(
                seq![
                    (
                        "tags"@,
                        JsonModel::Object(
                            seq![
                                ("value"@, JsonModel::Array(Seq::new(exc.len(), |i: int| jstr(exc[i])))),
                                ("modifier"@, jstr("EXCLUDES"@)),
                            ],
                        ),
                    ),
                ],
            ),
        ),
        included is None && excluded is None ==> field(
            JsonModel::Object(scene_filter_fields(args, (included, excluded))),
            "tags"@,
        ) is None,
        excluded is None || included is None ==> field(
            JsonModel::Object(scene_filter_fields(args, (included, excluded))),
            "AND"@,
        ) is None,
{
    reveal_strlit("organized");
    reveal_strlit("tag_count");
    reveal_strlit("tags");
    reveal_strlit("AND");
    reveal_strlit("rating100");
    assert("tag_count"@[0] != "organized"@[0]);
    assert("tags"@.len() != "organized"@.len());
    assert("tags"@.len() != "tag_count"@.len());
    assert("AND"@.len() != "organized"@.len());
    assert("AND"@.len() != "tag_count"@.len());
    assert("AND"@.len() != "tags"@.len());
    assert("rating100"@[0] != "organized"@[0]);
    assert("rating100"@[0] != "tag_count"@[0]);
    assert("rating100"@.len() != "tags"@.len());
    assert("rating100"@.len() != "AND"@.len());
    let f0 = if bool_arg(args, "organized_only"@, true) {
        seq![("organized"@, JsonModel::Bool(true))]
    } else {
        Seq::empty()
    };
    assert(keys_distinct(f0));
    assert forall|j: int| 0 <= j < f0.len() implies f0[j].0 != "tags"@ && f0[j].0 != "AND"@ by {}
    crate::json::lemma_member_none(f0, "tags"@);
    crate::json::lemma_member_none(f0, "AND"@);
    let f1 = upsert(f0, "tag_count"@, int_criterion_model(0, "GREATER_THAN"@));
    lemma_set_read(f0, "tag_count"@, int_criterion_model(0, "GREATER_THAN"@), "tags"@);
    lemma_set_read(f0, "tag_count"@, int_criterion_model(0, "GREATER_THAN"@), "AND"@);
    let f2 = match (included, excluded) {
        (Some(inc), Some(exc)) => {
            let g = upsert(f1, "tags"@, multi_criterion_model(inc, "INCLUDES"@));
            lemma_set_read(f1, "tags"@, multi_criterion_model(inc, "INCLUDES"@), "tags"@);
            lemma_set_read(f1, "tags"@, multi_criterion_model(inc, "INCLUDES"@), "AND"@);
            let and_tags = JsonModel::Object(seq![("tags"@, multi_criterion_model(exc, "EXCLUDES"@))]);
            lemma_set_read(g, "AND"@, and_tags, "tags"@);
            lemma_set_read(g, "AND"@, and_tags, "AND"@);
            upsert(g, "AND"@, and_tags)
        },
        (Some(inc), None) => {
            lemma_set_read(f1, "tags"@, multi_criterion_model(inc, "INCLUDES"@), "tags"@);
            lemma_set_read(f1, "tags"@, multi_criterion_model(inc, "INCLUDES"@), "AND"@);
            upsert(f1, "tags"@, multi_criterion_model(inc, "INCLUDES"@))
        },
        (None, Some(exc)) => {
            lemma_set_read(f1, "tags"@, multi_criterion_model(exc, "EXCLUDES"@), "tags"@);
            lemma_set_read(f1, "tags"@, multi_criterion_model(exc, "EXCLUDES"@), "AND"@);
            upsert(f1, "tags"@, multi_criterion_model(exc, "EXCLUDES"@))
        },
        (None, None) => f1,
    };
    match (int_arg(args, "min_rating"@), int_arg(args, "max_rating"@)) {
        (Some(min), Some(max)) => {
            lemma_set_read(f2, "rating100"@, between_criterion_model(min, max), "tags"@);
            lemma_set_read(f2, "rating100"@, between_criterion_model(min, max), "AND"@);
        },
        (Some(min), None) => {
            lemma_set_read(f2, "rating100"@, int_criterion_model((min - 1) as i64, "GREATER_THAN"@), "tags"@);
            lemma_set_read(f2, "rating100"@, int_criterion_model((min - 1) as i64, "GREATER_THAN"@), "AND"@);
        },
        (None, Some(max)) => {
            lemma_set_read(f2, "rating100"@, int_criterion_model((max + 1) as i64, "LESS_THAN"@), "tags"@);
            lemma_set_read(f2, "rating100"@, int_criterion_model((max + 1) as i64, "LESS_THAN"@), "AND"@);
        },
        (None, None) => {},
    }
}

/// The organized flag and the rating bounds of `get_all_scenes` reach the
/// scene filter: it asks for organized scenes unless `organized_only` is
/// `false`; it always asks for tagged scenes (`tag_count` greater than 0); and
/// the bounds are inclusive: both give `BETWEEN min and max`, a lone
/// `min_rating` gives "greater than `min - 1`", a lone `max_rating` "less than
/// `max + 1`", and neither leaves the rating unconstrained.
pub proof fn law_scene_filter_organized_and_ratings(
    args: JsonModel,
    tags: (Option<Seq<Seq<char>>>, Option<Seq<Seq<char>>>),
)
    ensures
        field(args, "organized_only"@) == Some(JsonModel::Bool(false)) ==> field(
            JsonModel::Object(scene_filter_fields(args, tags)),
            "organized"@,
        ) is None,
        field(args, "organized_only"@) != Some(JsonModel::Bool(false)) ==> field(
            JsonModel::Object(scene_filter_fields(args, tags)),
            "organized"@,
        ) == Some(JsonModel::Bool(true)),
        field(JsonModel::Object(scene_filter_fields(args, tags)), "tag_count"@) == Some(
            JsonModel::Object(seq![("value"@, jint(0)), ("modifier"@, jstr("GREATER_THAN"@))]),
        ),
        (int_arg(args, "min_rating"@), int_arg(args, "max_rating"@)) matches (Some(lo), Some(hi)) ==> field(
            JsonModel::Object(scene_filter_fields(args, tags)),
            "rating100"@,
        ) == Some(JsonModel::Object(seq![("value"@, jint(lo)), ("value2"@, jint(hi)), ("modifier"@, jstr("BETWEEN"@))])),
        (int_arg(args, "min_rating"@), int_arg(args, "max_rating"@)) matches (Some(lo), None) ==> field(
            JsonModel::Object(scene_filter_fields(args, tags)),
            "rating100"@,
        ) == Some(JsonModel::Object(seq![("value"@, jint((lo - 1) as i64)), ("modifier"@, jstr("GREATER_THAN"@))])),
        (int_arg(args, "min_rating"@), int_arg(args, "max_rating"@)) matches (None, Some(hi)) ==> field(
            JsonModel::Object(scene_filter_fields(args, tags)),
            "rating100"@,
        ) == Some(JsonModel::Object(seq![("value"@, jint((hi + 1) as i64)), ("modifier"@, jstr("LESS_THAN"@))])),
        int_arg(args, "min_rating"@) is None && int_arg(args, "max_rating"@) is None ==> field(
            JsonModel::Object(scene_filter_fields(args, tags)),
            "rating100"@,
        ) is None,
{
    lemma_scene_filter_read(args, tags, "organized"@);
    lemma_scene_filter_read(args, tags, "tag_count"@);
    lemma_scene_filter_read(args, tags, "rating100"@);
}

proof fn lemma_scene_filter_read(args: JsonModel, tags: (Option<Seq<Seq<char>>>, Option<Seq<Seq<char>>>), k: Seq<char>)
    requires
        k == "organized"@ || k == "tag_count"@ || k == "rating100"@,
    ensures
        k == "organized"@ ==> field(JsonModel::Object(scene_filter_fields(args, tags)), k) == if bool_arg(
            args,
            "organized_only"@,
            true,
        ) {
            Some(JsonModel::Bool(true))
        } else {
            None
        },
        k == "tag_count"@ ==> field(JsonModel::Object(scene_filter_fields(args, tags)), k) == Some(
            int_criterion_model(0, "GREATER_THAN"@),
        ),
        k == "rating100"@ ==> field(JsonModel::Object(scene_filter_fields(args, tags)), k) == match (
            int_arg(args, "min_rating"@),
            int_arg(args, "max_rating"@),
        ) {
            (Some(lo), Some(hi)) => Some(between_criterion_model(lo, hi)),
            (Some(lo), None) => Some(int_criterion_model((lo - 1) as i64, "GREATER_THAN"@)),
            (None, Some(hi)) => Some(int_criterion_model((hi + 1) as i64, "LESS_THAN"@)),
            (None, None) => None,
        },
{
    reveal_strlit("organized");
    reveal_strlit("tag_count");
    reveal_strlit("tags");
    reveal_strlit("AND");
    reveal_strlit("rating100");
    assert("tag_count"@[0] != "organized"@[0]);
    assert("tags"@.len() != "organized"@.len());
    assert("tags"@.len() != "tag_count"@.len());
    assert("AND"@.len() != "organized"@.len());
    assert("AND"@.len() != "tag_count"@.len());
    assert("AND"@.len() != "tags"@.len());
    assert("rating100"@[0] != "organized"@[0]);
    assert("rating100"@[0] != "tag_count"@[0]);
    assert("rating100"@.len() != "tags"@.len());
    assert("rating100"@.len() != "AND"@.len());
    let f0 = if bool_arg(args, "organized_only"@, true) {
        seq![("organized"@, JsonModel::Bool(true))]
    } else {
        Seq::empty()
    };
    assert(keys_distinct(f0));
    let f1 = upsert(f0, "tag_count"@, int_criterion_model(0, "GREATER_THAN"@));
    lemma_upsert(f0, "tag_count"@, int_criterion_model(0, "GREATER_THAN"@));
    let f2 = match tags {
        (Some(inc), Some(exc)) => upsert(
            upsert(f1, "tags"@, multi_criterion_model(inc, "INCLUDES"@)),
            "AND"@,
            JsonModel::Object(seq![("tags"@, multi_criterion_model(exc, "EXCLUDES"@))]),
        ),
        (Some(inc), None) => upsert(f1, "tags"@, multi_criterion_model(inc, "INCLUDES"@)),
        (None, Some(exc)) => upsert(f1, "tags"@, multi_criterion_model(exc, "EXCLUDES"@)),
        (None, None) => f1,
    };

    if bool_arg(args, "organized_only"@, true) {
        crate::json::lemma_member_at(f0, "organized"@, 0);
    } else {
        crate::json::lemma_member_none(f0, "organized"@);
    }
    assert forall|j: int| 0 <= j < f0.len() implies f0[j].0 != "rating100"@ && f0[j].0 != "tag_count"@ by {}
    crate::json::lemma_member_none(f0, "rating100"@);
    crate::json::lemma_member_none(f0, "tag_count"@);
    lemma_set_read(f0, "tag_count"@, int_criterion_model(0, "GREATER_THAN"@), k);
    match tags {
        (Some(inc), Some(exc)) => {
            let g = upsert(f1, "tags"@, multi_criterion_model(inc, "INCLUDES"@));
            lemma_set_read(f1, "tags"@, multi_criterion_model(inc, "INCLUDES"@), k);
            lemma_set_read(g, "AND"@, JsonModel::Object(seq![("tags"@, multi_criterion_model(exc, "EXCLUDES"@))]), k);
        },
        (Some(inc), None) => {
            lemma_set_read(f1, "tags"@, multi_criterion_model(inc, "INCLUDES"@), k);
        },
        (None, Some(exc)) => {
            lemma_set_read(f1, "tags"@, multi_criterion_model(exc, "EXCLUDES"@), k);
        },
        (None, None) => {},
    }
    match (int_arg(args, "min_rating"@), int_arg(args, "max_rating"@)) {
        (Some(min), Some(max)) => {
            lemma_set_read(f2, "rating100"@, between_criterion_model(min, max), k);
        },
        (Some(min), None) => {
            lemma_set_read(f2, "rating100"@, int_criterion_model((min - 1) as i64, "GREATER_THAN"@), k);
        },
        (None, Some(max)) => {
            lemma_set_read(f2, "rating100"@, int_criterion_model((max + 1) as i64, "LESS_THAN"@), k);
        },
        (None, None) => {},
    }

}

/// The rating bounds of a `get_all_scenes` call can be sent: a lone
/// `min_rating` above `i64::MIN`, a lone `max_rating` below `i64::MAX`.
pub open spec fn rating_args_in_range(args: JsonModel) -> bool {
    &&& (int_arg(args, "max_rating"@) is None && int_arg(args, "min_rating"@) is Some ==> int_arg(args, "min_rating"@)->0 > i64::MIN)
    &&& (int_arg(args, "min_rating"@) is None && int_arg(args, "max_rating"@) is Some ==> int_arg(args, "max_rating"@)->0 < i64::MAX)
}

/// Whether the rating bounds of a `get_all_scenes` call can be sent (a lone
/// `min_rating` of `i64::MIN` or a lone `max_rating` of `i64::MAX` cannot).
pub fn rating_args_fit(args: &JsonValue) -> (r: bool)
    ensures
        r == rating_args_in_range(args.model()),
{
    match (arg_i64(args, "min_rating"), arg_i64(args, "max_rating")) {
        (Some(min), None) => min > i64::MIN,
        (None, Some(max)) => max < i64::MAX,
        _ => true,
    }
}

/// The scene filter of a `get_all_scenes` call, with its tag names resolved to `tags`.
pub fn scene_filter_from_args(args: &JsonValue, tags: TagSelection) -> (r: JsonValue)
    requires
        rating_args_in_range(args.model()),
    ensures
        r.model() == JsonModel::Object(scene_filter_fields(args.model(), selection_model(tags))),
{
    let organized_only = arg_bool(args, "organized_only", true);
    let mut sf = SceneFilterBuilder::new().organized_only(organized_only).has_tags();
    proof {
        assert(upsert(Seq::<(Seq<char>, JsonModel)>::empty(), "organized"@, JsonModel::Bool(true))
            =~= seq![("organized"@, JsonModel::Bool(true))]);
    }
    let TagSelection { included, excluded } = tags;
    match included {
        Some(inc) => {
            sf = sf.include_tags(inc.as_slice());
            match excluded {
                Some(exc) => {
                    sf = sf.and_exclude_tags(exc.as_slice());
                },
                None => {},
            }
        },
        None => match excluded {
            Some(exc) => {
                sf = sf.exclude_tags(exc.as_slice());
            },
            None => {},
        },
    }
    let min = arg_i64(args, "min_rating");
    let max = arg_i64(args, "max_rating");
    sf = match (min, max) {
        (Some(lo), Some(hi)) => sf.rating_range(lo, hi),
        (Some(lo), None) => sf.min_rating(lo),
        (None, Some(hi)) => sf.max_rating(hi),
        (None, None) => sf,
    };
    sf.build()
}

// ── advanced_performer_analysis ─────────────────────────────────────────────

/// The first `n` elements of `s` (all of them when there are fewer).
pub open spec fn first_n<A>(s: Seq<A>, n: nat) -> Seq<A> {
    if s.len() <= n {
        s
    } else {
        s.take(n as int)
    }
}

/// A scene counts as top rated when its rating (0 when missing) is above 80.
pub open spec fn is_top_rated(s: Scene) -> bool {
    match s.rating100 {
        Some(r) => r > 80,
        None => false,
    }
}

/// The positions of the top-rated scenes, in order.
pub open spec fn top_rated_positions(scenes: Seq<Scene>) -> Seq<int>
    decreases scenes.len(),
{
    if scenes.len() == 0 {
        Seq::empty()
    } else {
        let prev = top_rated_positions(scenes.drop_last());
        if is_top_rated(scenes.last()) {
            prev.push(scenes.len() - 1)
        } else {
            prev
        }
    }
}

/// The positions of the first five top-rated scenes.
pub fn top_rated_indices(scenes: &[Scene]) -> (r: Vec<usize>)
    ensures
        r@.map_values(|i: usize| i as int) == first_n(top_rated_positions(scenes@), 5),
{
    let mut out: Vec<usize> = Vec::new();
    let mut i: usize = 0;
    assert(scenes@.take(0) =~= Seq::<Scene>::empty());
    assert(out@.map_values(|i: usize| i as int) =~= first_n(top_rated_positions(scenes@.take(0)), 5));
    while i < scenes.len()
        invariant
            i <= scenes@.len(),
            out@.map_values(|k: usize| k as int) == first_n(top_rated_positions(scenes@.take(i as int)), 5),
        decreases scenes@.len() - i,
    {
        let ghost prev = top_rated_positions(scenes@.take(i as int));
        assert(scenes@.take(i + 1).drop_last() =~= scenes@.take(i as int));
        assert(scenes@.take(i + 1).last() == scenes@[i as int]);
        let top = match scenes[i].rating100 {
            Some(r) => r > 80,
            None => false,
        };
        if top {
            let ghost before = out@;
            if out.len() < 5 {
                out.push(i);
                assert(out@.map_values(|k: usize| k as int) =~= before.map_values(|k: usize| k as int).push(i as int));
                assert(first_n(prev.push(i as int), 5) =~= first_n(prev, 5).push(i as int));
            } else {
                assert(first_n(prev.push(i as int), 5) =~= first_n(prev, 5));
            }
        }
        i += 1;
    }
    assert(scenes@.take(scenes@.len() as int) =~= scenes@);
    out
}

/// The first position at which a count smaller than `c` stands.
pub open spec fn first_smaller(s: Seq<(Seq<char>, usize)>, c: usize) -> int
    decreases s.len(),
{
    if s.len() == 0 {
        0
    } else if s[0].1 < c {
        0
    } else {
        first_smaller(s.drop_first(), c) + 1
    }
}

/// `s` (sorted by count, largest first) with `x` placed after every entry whose
/// count is at least as large.
pub open spec fn insert_by_count(s: Seq<(Seq<char>, usize)>, x: (Seq<char>, usize)) -> Seq<(Seq<char>, usize)> {
    s.insert(first_smaller(s, x.1), x)
}

/// `s` sorted by count, largest first; entries with equal counts keep their order.
pub open spec fn sorted_by_count(s: Seq<(Seq<char>, usize)>) -> Seq<(Seq<char>, usize)>
    decreases s.len(),
{
    if s.len() == 0 {
        Seq::empty()
    } else {
        insert_by_count(sorted_by_count(s.drop_last()), s.last())
    }
}

pub proof fn lemma_sorted_by_count_len(s: Seq<(Seq<char>, usize)>)
    ensures
        sorted_by_count(s).len() == s.len(),
    decreases s.len(),
{
    if s.len() > 0 {
        lemma_sorted_by_count_len(s.drop_last());
        lemma_first_smaller_bound(sorted_by_count(s.drop_last()), s.last().1);
    }
}

pub proof fn lemma_first_smaller_bound(s: Seq<(Seq<char>, usize)>, c: usize)
    ensures
        0 <= first_smaller(s, c) <= s.len(),
        forall|j: int| 0 <= j < first_smaller(s, c) ==> s[j].1 >= c,
        first_smaller(s, c) < s.len() ==> s[first_smaller(s, c)].1 < c,
    decreases s.len(),
{
    if s.len() > 0 && s[0].1 >= c {
        lemma_first_smaller_bound(s.drop_first(), c);
        assert forall|j: int| 0 <= j < first_smaller(s, c) implies s[j].1 >= c by {
            if j > 0 {
                assert(s[j] == s.drop_first()[j - 1]);
            }
        }
    }
}

pub proof fn lemma_first_smaller_at(s: Seq<(Seq<char>, usize)>, c: usize, p: int)
    requires
        0 <= p <= s.len(),
        forall|j: int| 0 <= j < p ==> s[j].1 >= c,
        p < s.len() ==> s[p].1 < c,
    ensures
        first_smaller(s, c) == p,
    decreases p,
{
    if p > 0 {
        assert forall|j: int| 0 <= j < p - 1 implies s.drop_first()[j].1 >= c by {
            assert(s.drop_first()[j] == s[j + 1]);
        }
        lemma_first_smaller_at(s.drop_first(), c, p - 1);
    }
}

/// Counts never grow along `s`.
pub open spec fn non_increasing_counts(s: Seq<(Seq<char>, usize)>) -> bool {
    forall|i: int, j: int| 0 <= i < j < s.len() ==> s[i].1 >= s[j].1
}

proof fn lemma_insert_by_count(s: Seq<(Seq<char>, usize)>, x: (Seq<char>, usize))
    requires
        non_increasing_counts(s),
    ensures
        non_increasing_counts(insert_by_count(s, x)),
        insert_by_count(s, x).to_multiset() == s.to_multiset().insert(x),
{
    let p = first_smaller(s, x.1);
    lemma_first_smaller_bound(s, x.1);
    let t = insert_by_count(s, x);
    assert(t == s.insert(p, x));
    assert forall|i: int, j: int| 0 <= i < j < t.len() implies t[i].1 >= t[j].1 by {
        if j < p {
            assert(t[i] == s[i] && t[j] == s[j]);
        } else if j == p {
            assert(t[i] == s[i]);
        } else if i < p {
            assert(t[i] == s[i] && t[j] == s[j - 1]);
        } else if i == p {
            assert(t[j] == s[j - 1]);
            assert(s[p].1 < x.1);
            if j - 1 > p {
                assert(s[p].1 >= s[j - 1].1);
            }
        } else {
            assert(t[i] == s[i - 1] && t[j] == s[j - 1]);
        }
    }
    vstd::seq_lib::to_multiset_insert(s, p, x);
}

/// Sorting by count orders the entries largest count first and keeps exactly
/// the entries it was given, each as often as it occurred.
pub proof fn law_sorted_by_count(s: Seq<(Seq<char>, usize)>)
    ensures
        non_increasing_counts(sorted_by_count(s)),
        sorted_by_count(s).to_multiset() == s.to_multiset(),
    decreases s.len(),
{
    if s.len() == 0 {
        assert(sorted_by_count(s) =~= s);
    } else {
        law_sorted_by_count(s.drop_last());
        lemma_insert_by_count(sorted_by_count(s.drop_last()), s.last());
        assert(s.drop_last().push(s.last()) =~= s);
        vstd::seq_lib::to_multiset_build(s.drop_last(), s.last());
    }
}

/// The top tags are at most ten entries of the tag counts, largest count
/// first, and every one of them is a name with its count from the input.
pub proof fn law_top_tags(freq: Seq<(Seq<char>, usize)>)
    ensures
        non_increasing_counts(first_n(sorted_by_count(freq), 10)),
        first_n(sorted_by_count(freq), 10).len() == if freq.len() <= 10 {
            freq.len()
        } else {
            10
        },
        forall|i: int|
            0 <= i < first_n(sorted_by_count(freq), 10).len() ==> freq.contains(
                #[trigger] first_n(sorted_by_count(freq), 10)[i],
            ),
{
    law_sorted_by_count(freq);
    lemma_sorted_by_count_len(freq);
    let t = sorted_by_count(freq);
    let top = first_n(t, 10);
    assert forall|i: int| 0 <= i < top.len() implies freq.contains(#[trigger] top[i]) by {
        assert(top[i] == t[i]);
        assert(t.contains(t[i]));
        vstd::seq_lib::to_multiset_contains(t, t[i]);
        vstd::seq_lib::to_multiset_contains(freq, t[i]);
    }
}

/// The tag counts sorted by count, largest first (equal counts keep their
/// order), and cut to the first ten.
pub fn top_tags(freq: &StrMap<usize>) -> (r: Vec<(String, usize)>)
    ensures
        r@.map_values(|p: (String, usize)| (p.0@, p.1)) == first_n(sorted_by_count(freq.pairs()), 10),
{
    let entries = freq.entries();
    let ghost pairs = freq.pairs();
    let mut sorted: Vec<(String, usize)> = Vec::new();
    let mut i: usize = 0;
    assert(pairs.take(0) =~= Seq::<(Seq<char>, usize)>::empty());
    while i < entries.len()
        invariant
            i <= entries@.len(),
            entries@.len() == pairs.len(),
            forall|k: int| 0 <= k < entries@.len() ==> (#[trigger] entries@[k]).0@ == pairs[k].0 && entries@[k].1 == pairs[k].1,
            sorted@.map_values(|p: (String, usize)| (p.0@, p.1)) == sorted_by_count(pairs.take(i as int)),
        decreases entries@.len() - i,
    {
        let ghost sv = sorted@.map_values(|p: (String, usize)| (p.0@, p.1));
        let c = entries[i].1;
        let mut pos: usize = 0;
        while pos < sorted.len() && sorted[pos].1 >= c
            invariant
                pos <= sorted@.len(),
                sv == sorted@.map_values(|p: (String, usize)| (p.0@, p.1)),
                forall|j: int| 0 <= j < pos ==> sv[j].1 >= c,
            decreases sorted@.len() - pos,
        {
            assert(sv[pos as int].1 == sorted@[pos as int].1);
            pos += 1;
        }
        proof {
            if pos < sorted@.len() {
                assert(sv[pos as int].1 == sorted@[pos as int].1);
            }
            lemma_first_smaller_at(sv, c, pos as int);
            assert(pairs.take(i + 1).drop_last() =~= pairs.take(i as int));
            assert(pairs.take(i + 1).last() == pairs[i as int]);
        }
        let name = entries[i].0.clone();
        sorted.insert(pos, (name, c));
        assert(sorted@.map_values(|p: (String, usize)| (p.0@, p.1)) =~= sv.insert(pos as int, (pairs[i as int].0, c)));
        i += 1;
    }
    assert(pairs.take(entries@.len() as int) =~= pairs);
    let ghost sv = sorted@.map_values(|p: (String, usize)| (p.0@, p.1));
    if sorted.len() > 10 {
        sorted.truncate(10);
        assert(sorted@.map_values(|p: (String, usize)| (p.0@, p.1)) =~= sv.take(10));
    }
    sorted
}

/// The members of the filter for performers similar to `performer`: same
/// country and same ethnicity, where known.
pub open spec fn similar_filter_fields(performer: Performer) -> Seq<(Seq<char>, JsonModel)> {
    let f0 = Seq::<(Seq<char>, JsonModel)>::empty();
    let f1 = match performer.country {
        Some(c) => upsert(f0, "country"@, string_criterion_model(c@, "EQUALS"@)),
        None => f0,
    };
    match performer.ethnicity {
        Some(e) => upsert(f1, "ethnicity"@, string_criterion_model(e@, "EQUALS"@)),
        None => f1,
    }
}

/// The performer filter that finds performers similar to `performer`.
pub fn similar_performers_filter(performer: &Performer) -> (r: JsonValue)
    ensures
        r.model() == JsonModel::Object(similar_filter_fields(*performer)),
{
    let mut fb = PerformerFilterBuilder::new();
    match &performer.country {
        Some(c) => {
            fb = fb.country(c.as_str(), "EQUALS");
        },
        None => {},
    }
    match &performer.ethnicity {
        Some(e) => {
            fb = fb.ethnicity(e.as_str(), "EQUALS");
        },
        None => {},
    }
    fb.build()
}

/// The positions of the entries different from `target`, in order.
pub open spec fn positions_unequal(entries: Seq<Seq<char>>, target: Seq<char>) -> Seq<int>
    decreases entries.len(),
{
    if entries.len() == 0 {
        Seq::empty()
    } else {
        let prev = positions_unequal(entries.drop_last(), target);
        if entries.last() != target {
            prev.push(entries.len() - 1)
        } else {
            prev
        }
    }
}

/// The positions of the first `limit` entries that differ from `target`.
pub fn first_unequal(entries: &Vec<String>, target: &str, limit: usize) -> (r: Vec<usize>)
    ensures
        r@.map_values(|i: usize| i as int) == first_n(
            positions_unequal(entries@.map_values(|s: String| s@), target@),
            limit as nat,
        ),
{
    let ghost ev = entries@.map_values(|s: String| s@);
    let mut out: Vec<usize> = Vec::new();
    let mut i: usize = 0;
    assert(ev.take(0) =~= Seq::<Seq<char>>::empty());
    assert(out@.map_values(|k: usize| k as int) =~= first_n(positions_unequal(ev.take(0), target@), limit as nat));
    while i < entries.len()
        invariant
            i <= entries@.len(),
            ev == entries@.map_values(|s: String| s@),
            out@.map_values(|k: usize| k as int) == first_n(positions_unequal(ev.take(i as int), target@), limit as nat),
        decreases entries@.len() - i,
    {
        let ghost prev = positions_unequal(ev.take(i as int), target@);
        assert(ev.take(i + 1).drop_last() =~= ev.take(i as int));
        assert(ev.take(i + 1).last() == entries@[i as int]@);
        if !str_eq(entries[i].as_str(), target) {
            let ghost before = out@;
            if out.len() < limit {
                out.push(i);
                assert(out@.map_values(|k: usize| k as int) =~= before.map_values(|k: usize| k as int).push(i as int));
                assert(first_n(prev.push(i as int), limit as nat) =~= first_n(prev, limit as nat).push(i as int));
            } else {
                assert(first_n(prev.push(i as int), limit as nat) =~= first_n(prev, limit as nat));
            }
        }
        i += 1;
    }
    assert(ev.take(entries@.len() as int) =~= ev);
    out
}

/// The lowercase forms of the performers' names.
pub open spec fn lowered_names(performers: Seq<Performer>) -> Seq<Seq<char>> {
    performers.map_values(|p: Performer| lowercase(p.name@))
}

/// The positions of the first five performers whose name differs from `name`
/// ignoring case (both compared by their lowercase forms).
pub fn similar_indices(performers: &Vec<Performer>, name: &str) -> (r: Vec<usize>)
    ensures
        r@.map_values(|i: usize| i as int) == first_n(positions_unequal(lowered_names(performers@), lowercase(name@)), 5),
{
    let mut lowered: Vec<String> = Vec::new();
    let mut i: usize = 0;
    while i < performers.len()
        invariant
            i <= performers@.len(),
            lowered@.len() == i,
            forall|j: int| 0 <= j < i ==> (#[trigger] lowered@[j])@ == lowercase(performers@[j].name@),
        decreases performers@.len() - i,
    {
        lowered.push(to_lowercase(performers[i].name.as_str()));
        i += 1;
    }
    let target = to_lowercase(name);
    assert(lowered@.map_values(|s: String| s@) =~= lowered_names(performers@));
    first_unequal(&lowered, target.as_str(), 5)
}

/// How many scenes fall in each rating band.
#[derive(Debug, Clone, Copy, PartialEq, Eq)]
pub struct RatingBreakdown {
    pub excellent_90_plus: usize,
    pub good_70_to_89: usize,
    pub average_50_to_69: usize,
    pub below_average_0_to_49: usize,
}

/// The rating bands of the deep analysis: 90 and up, 70 to 89, 50 to 69 and
/// 0 to 49, all inclusive.
pub fn rating_breakdown(scenes: &[Scene]) -> (r: RatingBreakdown)
    ensures
        r.excellent_90_plus == count_rated_in(scenes@, 90, i64::MAX),
        r.good_70_to_89 == count_rated_in(scenes@, 70, 89),
        r.average_50_to_69 == count_rated_in(scenes@, 50, 69),
        r.below_average_0_to_49 == count_rated_in(scenes@, 0, 49),
{
    RatingBreakdown {
        excellent_90_plus: count_by_rating(scenes, 90, i64::MAX),
        good_70_to_89: count_by_rating(scenes, 70, 89),
        average_50_to_69: count_by_rating(scenes, 50, 69),
        below_average_0_to_49: count_by_rating(scenes, 0, 49),
    }
}

/// No scene is rated below the given value.
pub open spec fn ratings_at_least(scenes: Seq<Scene>, lo: i64) -> bool {
    forall|i: int| 0 <= i < scenes.len() ==> (#[trigger] scenes[i].rating100 matches Some(r) ==> r >= lo)
}

proof fn lemma_none_below(scenes: Seq<Scene>)
    requires
        ratings_at_least(scenes, 0),
    ensures
        count_rated_in(scenes, i64::MIN, -1i64) == 0,
    decreases scenes.len(),
{
    if scenes.len() > 0 {
        assert(scenes.last() == scenes[scenes.len() - 1]);
        lemma_none_below(scenes.drop_last());
    }
}

/// The four bands of the rating breakdown split the rated scenes: when no
/// rating is negative, every rated scene falls in exactly one band, so the
/// bands add up to the number of rated scenes.
pub proof fn law_breakdown_covers_rated(scenes: Seq<Scene>)
    requires
        ratings_at_least(scenes, 0),
    ensures
        count_rated_in(scenes, 90, i64::MAX) + count_rated_in(scenes, 70, 89) + count_rated_in(scenes, 50, 69)
            + count_rated_in(scenes, 0, 49) == ratings(scenes).len(),
{
    law_count_full_range(scenes);
    law_count_split(scenes, i64::MIN, -1i64, i64::MAX);
    lemma_none_below(scenes);
    law_count_split(scenes, 0, 49, i64::MAX);
    law_count_split(scenes, 50, 69, i64::MAX);
    law_count_split(scenes, 70, 89, i64::MAX);
}

// ── batch_performer_insights ────────────────────────────────────────────────

/// The texts among a list of values, in order.
pub open spec fn string_items(items: Seq<JsonModel>) -> Seq<Seq<char>>
    decreases items.len(),
{
    if items.len() == 0 {
        Seq::empty()
    } else {
        let prev = string_items(items.drop_last());
        match str_of(items.last()) {
            Some(s) => prev.push(s),
            None => prev,
        }
    }
}

/// The limit on performers of a batch: `max_performers` (10 by default), as
/// `usize`.
pub open spec fn batch_limit(args: JsonModel) -> usize {
    match int_arg(args, "max_performers"@) {
        Some(m) => m as usize,
        None => 10,
    }
}

/// Without `max_performers`, a batch asks about every name it is given when
/// there are at most ten, and about the first ten otherwise.
pub proof fn law_batch_default_limit(args: JsonModel, items: Seq<JsonModel>)
    requires
        int_arg(args, "max_performers"@) is None,
    ensures
        string_items(items).len() <= 10 ==> first_n(string_items(items), batch_limit(args) as nat) == string_items(items),
        string_items(items).len() > 10 ==> first_n(string_items(items), batch_limit(args) as nat) == string_items(items).take(10),
        first_n(string_items(items), batch_limit(args) as nat).len() == if string_items(items).len() <= 10 {
            string_items(items).len()
        } else {
            10
        },
{
}

/// The names a `batch_performer_insights` call asks about: the strings of
/// `performer_names`, at most `max_performers` of them. A call without
/// `performer_names`, or with one that is not an array, is refused.
pub fn batch_names(args: &JsonValue) -> (r: Result<Vec<String>, InvalidRequest>)
    ensures
        match field(args.model(), "performer_names"@) {
            None => r matches Err(e) && e.message@ == "missing required argument 'performer_names'"@,
            Some(JsonModel::Array(items)) => r matches Ok(names) && names@.map_values(|s: String| s@)
                == first_n(string_items(items), batch_limit(args.model()) as nat),
            Some(_) => r matches Err(e) && e.message@ == "'performer_names' must be an array"@,
        },
{
    let names_val = match args.get("performer_names") {
        Some(v) => v,
        None => {
            return Err(InvalidRequest::new("missing required argument 'performer_names'"));
        },
    };
    let arr = match names_val.as_array() {
        Some(a) => a,
        None => {
            return Err(InvalidRequest::new("'performer_names' must be an array"));
        },
    };
    let max: usize = match arg_i64(args, "max_performers") {
        Some(m) => m as usize,
        None => 10,
    };
    let ghost items = items_model(arr@);
    let mut names: Vec<String> = Vec::new();
    let mut i: usize = 0;
    assert(items.take(0) =~= Seq::<JsonModel>::empty());
    assert(names@.map_values(|s: String| s@) =~= first_n(string_items(items.take(0)), max as nat));
    while i < arr.len()
        invariant
            i <= arr@.len(),
            items == items_model(arr@),
            names@.map_values(|s: String| s@) == first_n(string_items(items.take(i as int)), max as nat),
        decreases arr@.len() - i,
    {
        let ghost prev = string_items(items.take(i as int));
        assert(items.take(i + 1).drop_last() =~= items.take(i as int));
        assert(items.take(i + 1).last() == arr@[i as int].model());
        match arr[i].as_str() {
            Some(s) => {
                let ghost before = names@;
                if names.len() < max {
                    names.push(owned(s));
                    assert(names@.map_values(|x: String| x@) =~= before.map_values(|x: String| x@).push(s@));
                    assert(first_n(prev.push(s@), max as nat) =~= first_n(prev, max as nat).push(s@));
                } else {
                    assert(first_n(prev.push(s@), max as nat) =~= first_n(prev, max as nat));
                }
            },
            None => {},
        }
        i += 1;
    }
    assert(items.take(arr@.len() as int) =~= items);
    Ok(names)
}

/// The countries the performers come from, where known, in order.
pub open spec fn known_countries(performers: Seq<Performer>) -> Seq<Seq<char>>
    decreases performers.len(),
{
    if performers.len() == 0 {
        Seq::empty()
    } else {
        let prev = known_countries(performers.drop_last());
        match performers.last().country {
            Some(c) => prev.push(c@),
            None => prev,
        }
    }
}

/// How many of the performers come from each country.
pub fn country_distribution(performers: &[Performer]) -> (r: StrMap<usize>)
    ensures
        r.wf(),
        counts_view(r@) == tally(known_countries(performers@)),
{
    let mut countries: Vec<String> = Vec::new();
    let mut i: usize = 0;
    assert(performers@.take(0) =~= Seq::<Performer>::empty());
    while i < performers.len()
        invariant
            i <= performers@.len(),
            countries@.map_values(|s: String| s@) == known_countries(performers@.take(i as int)),
        decreases performers@.len() - i,
    {
        assert(performers@.take(i + 1).drop_last() =~= performers@.take(i as int));
        assert(performers@.take(i + 1).last() == performers@[i as int]);
        match &performers[i].country {
            Some(c) => {
                let ghost before = countries@;
                countries.push(c.clone());
                assert(countries@.map_values(|x: String| x@) =~= before.map_values(|x: String| x@).push(c@));
            },
            None => {},
        }
        i += 1;
    }
    assert(performers@.take(performers@.len() as int) =~= performers@);
    count_names(&countries)
}

// ── Catalog ─────────────────────────────────────────────────────────────────

/// A tool of the catalog.
#[derive(Debug)]
pub struct ToolInfo {
    pub name: String,
    pub description: String,
    pub input_schema: JsonValue,
}

/// A property schema: its type, then its description and its default where given.
pub open spec fn property_model(ty: Seq<char>, description: Option<Seq<char>>, default: Option<Seq<char>>) -> JsonModel {
    let t = seq![("type"@, jstr(ty))];
    let d = match description {
        Some(text) => t.push(("description"@, jstr(text))),
        None => t,
    };
    JsonModel::Object(
        match default {
            Some(v) => d.push(("default"@, jstr(v))),
            None => d,
        },
    )
}

/// The schema of an array of strings, with a description.
pub open spec fn string_array_model(description: Seq<char>) -> JsonModel {
    JsonModel::Object(
        seq![
            ("type"@, jstr("array"@)),
            ("items"@, JsonModel::Object(seq![("type"@, jstr("string"@))])),
            ("description"@, jstr(description)),
        ],
    )
}

/// An object schema with the given properties, in order, and required arguments.
pub open spec fn schema_model(props: Seq<(Seq<char>, JsonModel)>, required: Seq<Seq<char>>) -> JsonModel {
    JsonModel::Object(
        seq![
            ("type"@, jstr("object"@)),
            ("properties"@, JsonModel::Object(props)),
            ("required"@, JsonModel::Array(required.map_values(|s: Seq<char>| jstr(s)))),
        ],
    )
}

/// The input schema of a tool without arguments.
pub open spec fn empty_schema_model() -> JsonModel {
    JsonModel::Object(seq![("type"@, jstr("object"@)), ("properties"@, JsonModel::Object(Seq::empty()))])
}

fn member(key: &str, value: JsonValue) -> (r: (String, JsonValue))
    ensures
        r.0@ == key@,
        r.1 == value,
{
    (owned(key), value)
}

/// A property schema: its type, and optionally a description and a default.
fn property(ty: &str, description: Option<&str>, default: Option<&str>) -> (r: JsonValue)
    ensures
        r.model() == property_model(
            ty@,
            match description {
                Some(d) => Some(d@),
                None => None,
            },
            match default {
                Some(d) => Some(d@),
                None => None,
            },
        ),
{
    let mut v: Vec<(String, JsonValue)> = Vec::new();
    v.push(member("type", JsonValue::string(ty)));
    let ghost t = entries_model(v@);
    assert(t =~= seq![("type"@, jstr(ty@))]);
    match description {
        Some(d) => {
            let ghost before = v@;
            v.push(member("description", JsonValue::string(d)));
            assert(entries_model(v@) =~= entries_model(before).push(("description"@, jstr(d@))));
        },
        None => {},
    }
    match default {
        Some(d) => {
            let ghost before = v@;
            v.push(member("default", JsonValue::string(d)));
            assert(entries_model(v@) =~= entries_model(before).push(("default"@, jstr(d@))));
        },
        None => {},
    }
    JsonValue::object(v)
}

/// The schema of an array of strings, with a description.
fn string_array_property(description: &str) -> (r: JsonValue)
    ensures
        r.model() == string_array_model(description@),
{
    let mut items: Vec<(String, JsonValue)> = Vec::new();
    items.push(member("type", JsonValue::string("string")));
    assert(entries_model(items@) =~= seq![("type"@, jstr("string"@))]);
    let items_value = JsonValue::object(items);
    let ghost im = items_value.model();
    let mut v: Vec<(String, JsonValue)> = Vec::new();
    v.push(member("type", JsonValue::string("array")));
    v.push(member("items", items_value));
    v.push(member("description", JsonValue::string(description)));
    assert(entries_model(v@) =~= seq![("type"@, jstr("array"@)), ("items"@, im), ("description"@, jstr(description@))]);
    JsonValue::object(v)
}

/// An object schema with the given properties and required arguments.
fn schema(properties: JsonValue, required: &[&str]) -> (r: JsonValue)
    requires
        properties.model() is Object,
    ensures
        r.model() == schema_model(properties.model()->Object_0, required@.map_values(|s: &str| s@)),
{
    let ghost pm = properties.model();
    let mut req: Vec<JsonValue> = Vec::new();
    let mut i: usize = 0;
    while i < required.len()
        invariant
            i <= required@.len(),
            req@.len() == i,
            forall|j: int| 0 <= j < i ==> (#[trigger] req@[j]).model() == jstr(required@[j]@),
        decreases required@.len() - i,
    {
        req.push(JsonValue::string(required[i]));
        i += 1;
    }
    let ghost rv = req@;
    let req_value = JsonValue::Array(req);
    proof {
        crate::json::lemma_model_array(req);
        assert(items_model(rv) =~= required@.map_values(|s: &str| s@).map_values(|s: Seq<char>| jstr(s)));
    }
    let ghost reqm = req_value.model();
    let mut v: Vec<(String, JsonValue)> = Vec::new();
    v.push(member("type", JsonValue::string("object")));
    v.push(member("properties", properties));
    v.push(member("required", req_value));
    assert(entries_model(v@) =~= seq![("type"@, jstr("object"@)), ("properties"@, pm), ("required"@, reqm)]);
    JsonValue::object(v)
}

/// The schema of a tool without arguments.
fn empty_schema() -> (r: JsonValue)
    ensures
        r.model() == empty_schema_model(),
{
    let none: Vec<(String, JsonValue)> = Vec::new();
    let props = JsonValue::object(none);
    assert(entries_model(none@) =~= Seq::<(Seq<char>, JsonModel)>::empty());
    let mut v: Vec<(String, JsonValue)> = Vec::new();
    v.push(member("type", JsonValue::string("object")));
    v.push(member("properties", props));
    let r = JsonValue::object(v);
    assert(entries_model(v@) =~= empty_schema_model()->Object_0);
    r
}

/// The input schema of `get_performer_info`.
pub open spec fn performer_info_schema() -> JsonModel {
    schema_model(
        seq![
            ("performer_name"@, property_model("string"@, Some("Exact name of the performer"@), None)),
        ],
        seq!["performer_name"@],
    )
}

/// The input schema of `get_all_performers`.
pub open spec fn all_performers_schema() -> JsonModel {
    schema_model(
        seq![
            ("favorites_only"@, property_model("boolean"@, Some("Limit to favorite performers (default: true)"@), None)),
            ("country"@, property_model("string"@, Some("Filter by country"@), None)),
            ("country_modifier"@, property_model("string"@, Some("Modifier for country filter (EQUALS|INCLUDES|NOT_EQUALS)"@), Some("EQUALS"@))),
            ("ethnicity"@, property_model("string"@, Some("Filter by ethnicity"@), None)),
            ("ethnicity_modifier"@, property_model("string"@, None, Some("EQUALS"@))),
            ("eye_color"@, property_model("string"@, Some("Filter by eye color"@), None)),
            ("eye_color_modifier"@, property_model("string"@, None, Some("EQUALS"@))),
            ("hair_color"@, property_model("string"@, Some("Filter by hair color"@), None)),
            ("hair_color_modifier"@, property_model("string"@, None, Some("EQUALS"@))),
            ("height_cm"@, property_model("integer"@, Some("Filter by height (cm)"@), None)),
            ("height_cm_modifier"@, property_model("string"@, None, Some("EQUALS"@))),
            ("height_cm_value2"@, property_model("integer"@, Some("Upper bound when modifier is BETWEEN"@), None)),
            ("measurements"@, property_model("string"@, Some("Filter by measurements"@), None)),
            ("measurements_modifier"@, property_model("string"@, None, Some("EQUALS"@))),
            ("piercings"@, property_model("string"@, Some("Filter by piercings (INCLUDES)"@), None)),
            ("tattoos"@, property_model("string"@, Some("Filter by tattoos (INCLUDES)"@), None)),
            ("weight"@, property_model("integer"@, Some("Filter by weight (kg)"@), None)),
            ("weight_modifier"@, property_model("string"@, None, Some("EQUALS"@))),
            ("weight_value2"@, property_model("integer"@, Some("Upper bound when modifier is BETWEEN"@), None)),
        ],
        seq![],
    )
}

/// The input schema of `get_all_scenes`.
pub open spec fn all_scenes_schema() -> JsonModel {
    schema_model(
        seq![
            ("organized_only"@, property_model("boolean"@, Some("Only return organized scenes (default: true)"@), None)),
            ("include_tags"@, property_model("string"@, Some("Comma-separated tag names that must be present"@), None)),
            ("exclude_tags"@, property_model("string"@, Some("Comma-separated tag names to exclude"@), None)),
            ("min_rating"@, property_model("integer"@, Some("Minimum rating 0–100 (inclusive)"@), None)),
            ("max_rating"@, property_model("integer"@, Some("Maximum rating 0–100 (inclusive)"@), None)),
        ],
        seq![],
    )
}

/// The input schema of `get_all_scenes_from_performer`.
pub open spec fn performer_scenes_schema() -> JsonModel {
    schema_model(
        seq![
            ("performer_name"@, property_model("string"@, Some("Exact name of the performer"@), None)),
            ("organized_only"@, property_model("boolean"@, Some("Only return organized scenes (default: true)"@), None)),
        ],
        seq!["performer_name"@],
    )
}

/// The input schema of `advanced_performer_analysis`.
pub open spec fn performer_analysis_schema() -> JsonModel {
    schema_model(
        seq![
            ("performer_name"@, property_model("string"@, Some("Name of the performer to analyze"@), None)),
            ("include_similar"@, property_model("boolean"@, Some("Include similar performer suggestions (default: true)"@), None)),
            ("deep_scene_analysis"@, property_model("boolean"@, Some("Perform deep rating breakdown analysis (default: false)"@), None)),
        ],
        seq!["performer_name"@],
    )
}

/// The input schema of `batch_performer_insights`.
pub open spec fn batch_insights_schema() -> JsonModel {
    schema_model(
        seq![
            ("performer_names"@, string_array_model("List of performer names to analyze"@)),
            ("max_performers"@, property_model("integer"@, Some("Maximum number of performers to process (default: 10)"@), None)),
        ],
        seq!["performer_names"@],
    )
}

fn tool_get_performer_info() -> (r: ToolInfo)
    ensures
        r.name@ == "get_performer_info"@,
        r.description@ == "Return detailed information for a single performer by exact name"@,
        r.input_schema.model() == performer_info_schema(),
{
    let mut props: Vec<(String, JsonValue)> = Vec::new();
    props.push(member("performer_name", property("string", Some("Exact name of the performer"), None)));
    assert(entries_model(props@) =~= seq![
        ("performer_name"@, property_model("string"@, Some("Exact name of the performer"@), None)),
    ]);
    let required: Vec<&str> = vec!["performer_name"];
    assert(required@.map_values(|s: &str| s@) =~= seq!["performer_name"@]);
    let schema = schema(JsonValue::object(props), required.as_slice());
    ToolInfo { name: owned("get_performer_info"), description: owned("Return detailed information for a single performer by exact name"), input_schema: schema }
}

fn tool_get_all_performers() -> (r: ToolInfo)
    ensures
        r.name@ == "get_all_performers"@,
        r.description@ == "Return a list of performers with advanced filtering options"@,
        r.input_schema.model() == all_performers_schema(),
{
    let mut props: Vec<(String, JsonValue)> = Vec::new();
    props.push(member("favorites_only", property("boolean", Some("Limit to favorite performers (default: true)"), None)));
    props.push(member("country", property("string", Some("Filter by country"), None)));
    props.push(member("country_modifier", property("string", Some("Modifier for country filter (EQUALS|INCLUDES|NOT_EQUALS)"), Some("EQUALS"))));
    props.push(member("ethnicity", property("string", Some("Filter by ethnicity"), None)));
    props.push(member("ethnicity_modifier", property("string", None, Some("EQUALS"))));
    props.push(member("eye_color", property("string", Some("Filter by eye color"), None)));
    props.push(member("eye_color_modifier", property("string", None, Some("EQUALS"))));
    props.push(member("hair_color", property("string", Some("Filter by hair color"), None)));
    props.push(member("hair_color_modifier", property("string", None, Some("EQUALS"))));
    props.push(member("height_cm", property("integer", Some("Filter by height (cm)"), None)));
    props.push(member("height_cm_modifier", property("string", None, Some("EQUALS"))));
    props.push(member("height_cm_value2", property("integer", Some("Upper bound when modifier is BETWEEN"), None)));
    props.push(member("measurements", property("string", Some("Filter by measurements"), None)));
    props.push(member("measurements_modifier", property("string", None, Some("EQUALS"))));
    props.push(member("piercings", property("string", Some("Filter by piercings (INCLUDES)"), None)));
    props.push(member("tattoos", property("string", Some("Filter by tattoos (INCLUDES)"), None)));
    props.push(member("weight", property("integer", Some("Filter by weight (kg)"), None)));
    props.push(member("weight_modifier", property("string", None, Some("EQUALS"))));
    props.push(member("weight_value2", property("integer", Some("Upper bound when modifier is BETWEEN"), None)));
    assert(entries_model(props@) =~= seq![
        ("favorites_only"@, property_model("boolean"@, Some("Limit to favorite performers (default: true)"@), None)),
        ("country"@, property_model("string"@, Some("Filter by country"@), None)),
        ("country_modifier"@, property_model("string"@, Some("Modifier for country filter (EQUALS|INCLUDES|NOT_EQUALS)"@), Some("EQUALS"@))),
        ("ethnicity"@, property_model("string"@, Some("Filter by ethnicity"@), None)),
        ("ethnicity_modifier"@, property_model("string"@, None, Some("EQUALS"@))),
        ("eye_color"@, property_model("string"@, Some("Filter by eye color"@), None)),
        ("eye_color_modifier"@, property_model("string"@, None, Some("EQUALS"@))),
        ("hair_color"@, property_model("string"@, Some("Filter by hair color"@), None)),
        ("hair_color_modifier"@, property_model("string"@, None, Some("EQUALS"@))),
        ("height_cm"@, property_model("integer"@, Some("Filter by height (cm)"@), None)),
        ("height_cm_modifier"@, property_model("string"@, None, Some("EQUALS"@))),
        ("height_cm_value2"@, property_model("integer"@, Some("Upper bound when modifier is BETWEEN"@), None)),
        ("measurements"@, property_model("string"@, Some("Filter by measurements"@), None)),
        ("measurements_modifier"@, property_model("string"@, None, Some("EQUALS"@))),
        ("piercings"@, property_model("string"@, Some("Filter by piercings (INCLUDES)"@), None)),
        ("tattoos"@, property_model("string"@, Some("Filter by tattoos (INCLUDES)"@), None)),
        ("weight"@, property_model("integer"@, Some("Filter by weight (kg)"@), None)),
        ("weight_modifier"@, property_model("string"@, None, Some("EQUALS"@))),
        ("weight_value2"@, property_model("integer"@, Some("Upper bound when modifier is BETWEEN"@), None)),
    ]);
    let required: Vec<&str> = vec![];
    assert(required@.map_values(|s: &str| s@) =~= seq![]);
    let schema = schema(JsonValue::object(props), required.as_slice());
    ToolInfo { name: owned("get_all_performers"), description: owned("Return a list of performers with advanced filtering options"), input_schema: schema }
}

fn tool_get_all_scenes() -> (r: ToolInfo)
    ensures
        r.name@ == "get_all_scenes"@,
        r.description@ == "Return all scenes from Stash with advanced filtering options"@,
        r.input_schema.model() == all_scenes_schema(),
{
    let mut props: Vec<(String, JsonValue)> = Vec::new();
    props.push(member("organized_only", property("boolean", Some("Only return organized scenes (default: true)"), None)));
    props.push(member("include_tags", property("string", Some("Comma-separated tag names that must be present"), None)));
    props.push(member("exclude_tags", property("string", Some("Comma-separated tag names to exclude"), None)));
    props.push(member("min_rating", property("integer", Some("Minimum rating 0–100 (inclusive)"), None)));
    props.push(member("max_rating", property("integer", Some("Maximum rating 0–100 (inclusive)"), None)));
    assert(entries_model(props@) =~= seq![
        ("organized_only"@, property_model("boolean"@, Some("Only return organized scenes (default: true)"@), None)),
        ("include_tags"@, property_model("string"@, Some("Comma-separated tag names that must be present"@), None)),
        ("exclude_tags"@, property_model("string"@, Some("Comma-separated tag names to exclude"@), None)),
        ("min_rating"@, property_model("integer"@, Some("Minimum rating 0–100 (inclusive)"@), None)),
        ("max_rating"@, property_model("integer"@, Some("Maximum rating 0–100 (inclusive)"@), None)),
    ]);
    let required: Vec<&str> = vec![];
    assert(required@.map_values(|s: &str| s@) =~= seq![]);
    let schema = schema(JsonValue::object(props), required.as_slice());
    ToolInfo { name: owned("get_all_scenes"), description: owned("Return all scenes from Stash with advanced filtering options"), input_schema: schema }
}

fn tool_get_all_scenes_from_performer() -> (r: ToolInfo)
    ensures
        r.name@ == "get_all_scenes_from_performer"@,
        r.description@ == "Return all scenes for a given performer"@,
        r.input_schema.model() == performer_scenes_schema(),
{
    let mut props: Vec<(String, JsonValue)> = Vec::new();
    props.push(member("performer_name", property("string", Some("Exact name of the performer"), None)));
    props.push(member("organized_only", property("boolean", Some("Only return organized scenes (default: true)"), None)));
    assert(entries_model(props@) =~= seq![
        ("performer_name"@, property_model("string"@, Some("Exact name of the performer"@), None)),
        ("organized_only"@, property_model("boolean"@, Some("Only return organized scenes (default: true)"@), None)),
    ]);
    let required: Vec<&str> = vec!["performer_name"];
    assert(required@.map_values(|s: &str| s@) =~= seq!["performer_name"@]);
    let schema = schema(JsonValue::object(props), required.as_slice());
    ToolInfo { name: owned("get_all_scenes_from_performer"), description: owned("Return all scenes for a given performer"), input_schema: schema }
}

fn tool_health_check() -> (r: ToolInfo)
    ensures
        r.name@ == "health_check"@,
        r.description@ == "Return basic health/connectivity information for the MCP server"@,
        r.input_schema.model() == empty_schema_model(),
{
    ToolInfo { name: owned("health_check"), description: owned("Return basic health/connectivity information for the MCP server"), input_schema: empty_schema() }
}

fn tool_advanced_performer_analysis() -> (r: ToolInfo)
    ensures
        r.name@ == "advanced_performer_analysis"@,
        r.description@ == "Advanced performer analysis: scene stats, tag frequency, and similar performers"@,
        r.input_schema.model() == performer_analysis_schema(),
{
    let mut props: Vec<(String, JsonValue)> = Vec::new();
    props.push(member("performer_name", property("string", Some("Name of the performer to analyze"), None)));
    props.push(member("include_similar", property("boolean", Some("Include similar performer suggestions (default: true)"), None)));
    props.push(member("deep_scene_analysis", property("boolean", Some("Perform deep rating breakdown analysis (default: false)"), None)));
    assert(entries_model(props@) =~= seq![
        ("performer_name"@, property_model("string"@, Some("Name of the performer to analyze"@), None)),
        ("include_similar"@, property_model("boolean"@, Some("Include similar performer suggestions (default: true)"@), None)),
        ("deep_scene_analysis"@, property_model("boolean"@, Some("Perform deep rating breakdown analysis (default: false)"@), None)),
    ]);
    let required: Vec<&str> = vec!["performer_name"];
    assert(required@.map_values(|s: &str| s@) =~= seq!["performer_name"@]);
    let schema = schema(JsonValue::object(props), required.as_slice());
    ToolInfo { name: owned("advanced_performer_analysis"), description: owned("Advanced performer analysis: scene stats, tag frequency, and similar performers"), input_schema: schema }
}

fn tool_batch_performer_insights() -> (r: ToolInfo)
    ensures
        r.name@ == "batch_performer_insights"@,
        r.description@ == "Generate insights for multiple performers at once"@,
        r.input_schema.model() == batch_insights_schema(),
{
    let mut props: Vec<(String, JsonValue)> = Vec::new();
    props.push(member("performer_names", string_array_property("List of performer names to analyze")));
    props.push(member("max_performers", property("integer", Some("Maximum number of performers to process (default: 10)"), None)));
    assert(entries_model(props@) =~= seq![
        ("performer_names"@, string_array_model("List of performer names to analyze"@)),
        ("max_performers"@, property_model("integer"@, Some("Maximum number of performers to process (default: 10)"@), None)),
    ]);
    let required: Vec<&str> = vec!["performer_names"];
    assert(required@.map_values(|s: &str| s@) =~= seq!["performer_names"@]);
    let schema = schema(JsonValue::object(props), required.as_slice());
    ToolInfo { name: owned("batch_performer_insights"), description: owned("Generate insights for multiple performers at once"), input_schema: schema }
}

/// The tools the server offers, in order, with their descriptions and input
/// schemas.
pub fn list_tools() -> (r: Vec<ToolInfo>)
    ensures
        r@.len() == 7,
        r@[0].name@ == "get_performer_info"@,
        r@[0].description@ == "Return detailed information for a single performer by exact name"@,
        r@[0].input_schema.model() == performer_info_schema(),
        r@[1].name@ == "get_all_performers"@,
        r@[1].description@ == "Return a list of performers with advanced filtering options"@,
        r@[1].input_schema.model() == all_performers_schema(),
        r@[2].name@ == "get_all_scenes"@,
        r@[2].description@ == "Return all scenes from Stash with advanced filtering options"@,
        r@[2].input_schema.model() == all_scenes_schema(),
        r@[3].name@ == "get_all_scenes_from_performer"@,
        r@[3].description@ == "Return all scenes for a given performer"@,
        r@[3].input_schema.model() == performer_scenes_schema(),
        r@[4].name@ == "health_check"@,
        r@[4].description@ == "Return basic health/connectivity information for the MCP server"@,
        r@[4].input_schema.model() == empty_schema_model(),
        r@[5].name@ == "advanced_performer_analysis"@,
        r@[5].description@ == "Advanced performer analysis: scene stats, tag frequency, and similar performers"@,
        r@[5].input_schema.model() == performer_analysis_schema(),
        r@[6].name@ == "batch_performer_insights"@,
        r@[6].description@ == "Generate insights for multiple performers at once"@,
        r@[6].input_schema.model() == batch_insights_schema(),
{
    let mut r: Vec<ToolInfo> = Vec::new();
    r.push(tool_get_performer_info());
    r.push(tool_get_all_performers());
    r.push(tool_get_all_scenes());
    r.push(tool_get_all_scenes_from_performer());
    r.push(tool_health_check());
    r.push(tool_advanced_performer_analysis());
    r.push(tool_batch_performer_insights());
    r
}

} // verus!
