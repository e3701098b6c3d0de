//! The request and response logic of the Stash GraphQL client, and the
//! scene statistics its callers compute.

use vstd::prelude::*;
use crate::error::StashError;
use crate::json::{
    entries_model, field, items_model, jint, jstr, str_of, JsonModel, JsonValue,
};
use crate::stash::filters::{
    all_pages, all_pages_model, multi_criterion_model, string_criterion_model, PerformerFilterBuilder,
    SceneFilterBuilder, TagFilterBuilder,
};
use crate::stash::types::{Scene, Studio, Tag, TagRef};
use crate::strmap::{upsert, StrMap};
use crate::text::{join, join_strings, lowercase, owned, str_eq, to_lowercase};

verus! {

// ── Requests ────────────────────────────────────────────────────────────────

fn member(key: &str, value: JsonValue) -> (r: (String, JsonValue))
    ensures
        r.0@ == key@,
        r.1 == value,
{
    (owned(key), value)
}

/// An object with two members.
fn object2(k1: &str, v1: JsonValue, k2: &str, v2: JsonValue) -> (r: JsonValue)
    ensures
        r.model() == JsonModel::Object(seq![(k1@, v1.model()), (k2@, v2.model())]),
{
    let ghost (m1, m2) = (v1.model(), v2.model());
    let mut v: Vec<(String, JsonValue)> = Vec::new();
    v.push(member(k1, v1));
    v.push(member(k2, v2));
    let r = JsonValue::object(v);
    assert(entries_model(v@) =~= seq![(k1@, m1), (k2@, m2)]);
    r
}

/// The value of the `ApiKey` header of a request: the configured key, or no
/// header when the key is empty.
pub fn api_key_header(api_key: &str) -> (r: Option<String>)
    ensures
        api_key@.len() == 0 ==> r is None,
        api_key@.len() > 0 ==> (r matches Some(v) && v@ == api_key@),
{
    if api_key.unicode_len() == 0 {
        None
    } else {
        Some(owned(api_key))
    }
}

/// The body of a GraphQL request: `{"query": query, "variables": variables}`.
pub fn graphql_body(query: &str, variables: JsonValue) -> (r: JsonValue)
    ensures
        r.model() == JsonModel::Object(seq![("query"@, jstr(query@)), ("variables"@, variables.model())]),
{
    object2("query", JsonValue::string(query), "variables", variables)
}

/// The variables of a listing query: all results, with the given filter.
pub open spec fn listing_model(filter_key: Seq<char>, filter: JsonModel) -> JsonModel {
    JsonModel::Object(seq![("filter"@, all_pages_model()), (filter_key, filter)])
}

/// Variables of `FindPerformers` with the given performer filter.
pub fn find_performers_variables(performer_filter: JsonValue) -> (r: JsonValue)
    ensures
        r.model() == listing_model("performer_filter"@, performer_filter.model()),
{
    object2("filter", all_pages(), "performer_filter", performer_filter)
}

/// Variables of `FindScenes` with the given scene filter.
pub fn find_scenes_variables(scene_filter: JsonValue) -> (r: JsonValue)
    ensures
        r.model() == listing_model("scene_filter"@, scene_filter.model()),
{
    object2("filter", all_pages(), "scene_filter", scene_filter)
}

/// Variables of `FindStudios` with the given studio filter.
pub fn find_studios_variables(studio_filter: JsonValue) -> (r: JsonValue)
    ensures
        r.model() == listing_model("studio_filter"@, studio_filter.model()),
{
    object2("filter", all_pages(), "studio_filter", studio_filter)
}

/// Variables of `FindTags` with the given tag filter.
pub fn find_tags_variables(tag_filter: JsonValue) -> (r: JsonValue)
    ensures
        r.model() == listing_model("tag_filter"@, tag_filter.model()),
{
    object2("filter", all_pages(), "tag_filter", tag_filter)
}

/// Variables that look a performer up by exact name.
pub fn find_performer_by_name_variables(name: &str) -> (r: JsonValue)
    ensures
        r.model() == listing_model(
            "performer_filter"@,
            JsonModel::Object(seq![("name"@, string_criterion_model(name@, "EQUALS"@))]),
        ),
{
    let pf = PerformerFilterBuilder::new().name_equals(name);
    proof {
        assert(upsert(Seq::<(Seq<char>, JsonModel)>::empty(), "name"@, string_criterion_model(name@, "EQUALS"@))
            =~= seq![("name"@, string_criterion_model(name@, "EQUALS"@))]);
    }
    find_performers_variables(pf.build())
}

/// Variables that search studios by name: Stash's studio filter has no name
/// criterion, so the text search `q` of the find filter is used, with an empty
/// studio filter.
pub fn find_studio_by_name_variables(name: &str) -> (r: JsonValue)
    ensures
        r.model() == JsonModel::Object(
            seq![
                ("filter"@, JsonModel::Object(seq![("per_page"@, jint(-1i64)), ("q"@, jstr(name@))])),
                ("studio_filter"@, JsonModel::Object(Seq::empty())),
            ],
        ),
{
    let filter = object2("per_page", JsonValue::integer(-1), "q", JsonValue::string(name));
    let empty: Vec<(String, JsonValue)> = Vec::new();
    let studio_filter = JsonValue::object(empty);
    assert(entries_model(empty@) =~= Seq::<(Seq<char>, JsonModel)>::empty());
    object2("filter", filter, "studio_filter", studio_filter)
}

/// The tag filter that looks a tag up by exact name.
pub fn find_tag_by_name_filter(name: &str) -> (r: JsonValue)
    ensures
        r.model() == JsonModel::Object(seq![("name"@, string_criterion_model(name@, "EQUALS"@))]),
{
    let tf = TagFilterBuilder::new().name_equals(name);
    proof {
        assert(upsert(Seq::<(Seq<char>, JsonModel)>::empty(), "name"@, string_criterion_model(name@, "EQUALS"@))
            =~= seq![("name"@, string_criterion_model(name@, "EQUALS"@))]);
    }
    tf.build()
}

/// The scene filter for every scene of one performer (by database id),
/// optionally only organized ones.
pub fn scenes_for_performer_filter(performer_id: &str, organized_only: bool) -> (r: JsonValue)
    ensures
        r.model() == JsonModel::Object(
            if organized_only {
                seq![
                    ("organized"@, JsonModel::Bool(true)),
                    ("performers"@, multi_criterion_model(seq![performer_id@], "INCLUDES"@)),
                ]
            } else {
                seq![("performers"@, multi_criterion_model(seq![performer_id@], "INCLUDES"@))]
            },
        ),
{
    let sf = SceneFilterBuilder::new().organized_only(organized_only).performer_id(performer_id);
    proof {
        let e = Seq::<(Seq<char>, JsonModel)>::empty();
        let o = upsert(e, "organized"@, JsonModel::Bool(true));
        assert(o =~= seq![("organized"@, JsonModel::Bool(true))]);
        crate::strmap::lemma_key_index(o, "performers"@);
        assert(o[0].0 != "performers"@) by {
            reveal_strlit("organized");
            reveal_strlit("performers");
            assert(o[0].0.len() != "performers"@.len());
        }
        assert(upsert(o, "performers"@, multi_criterion_model(seq![performer_id@], "INCLUDES"@)) =~= seq![
            ("organized"@, JsonModel::Bool(true)),
            ("performers"@, multi_criterion_model(seq![performer_id@], "INCLUDES"@)),
        ]);
        assert(upsert(e, "performers"@, multi_criterion_model(seq![performer_id@], "INCLUDES"@)) =~= seq![
            ("performers"@, multi_criterion_model(seq![performer_id@], "INCLUDES"@)),
        ]);
    }
    sf.build()
}

// ── Responses ───────────────────────────────────────────────────────────────

/// The messages of GraphQL errors: the `message` of each error that has a
/// string one, in order.
pub open spec fn error_messages(items: Seq<JsonModel>) -> Seq<Seq<char>>
    decreases items.len(),
{
    if items.len() == 0 {
        Seq::empty()
    } else {
        let prev = error_messages(items.drop_last());
        match field(items.last(), "message"@) {
            Some(m) => match str_of(m) {
                Some(s) => prev.push(s),
                None => prev,
            },
            None => prev,
        }
    }
}

/// The errors a GraphQL answer reports: its `errors` member when that is a
/// non-empty array.
pub open spec fn graphql_errors(payload: JsonModel) -> Option<Seq<JsonModel>> {
    match field(payload, "errors"@) {
        Some(JsonModel::Array(items)) => if items.len() > 0 {
            Some(items)
        } else {
            None
        },
        _ => None,
    }
}

/// The `data` of a GraphQL answer. An answer that reports errors gives
/// `GraphQl` with their messages; one without `data` gives `MissingField("data")`.
pub fn graphql_data(payload: JsonValue) -> (r: Result<JsonValue, StashError>)
    ensures
        match graphql_errors(payload.model()) {
            Some(items) => r matches Err(StashError::GraphQl(m)) && m@.map_values(|s: String| s@)
                == error_messages(items),
            None => match field(payload.model(), "data"@) {
                Some(d) => r matches Ok(v) && v.model() == d,
                None => r matches Err(StashError::MissingField(f)) && f@ == "data"@,
            },
        },
{
    let mut failure: Option<Vec<String>> = None;
    match payload.get("errors") {
        Some(e) => match e.as_array() {
            Some(arr) => {
                if arr.len() > 0 {
                    let ghost items = items_model(arr@);
                    let mut msgs: Vec<String> = Vec::new();
                    let mut i: usize = 0;
                    while i < arr.len()
                        invariant
                            i <= arr@.len(),
                            items == items_model(arr@),
                            msgs@.map_values(|s: String| s@) == error_messages(items.take(i as int)),
                        decreases arr@.len() - i,
                    {
                        let ghost before = msgs@;
                        assert(items.take(i + 1).drop_last() =~= items.take(i as int));
                        assert(items.take(i + 1).last() == arr@[i as int].model());
                        match arr[i].get("message") {
                            Some(m) => match m.as_str() {
                                Some(s) => {
                                    msgs.push(owned(s));
                                    assert(msgs@.map_values(|s: String| s@) =~= before.map_values(
                                        |s: String| s@,
                                    ).push(s@));
                                },
                                None => {},
                            },
                            None => {},
                        }
                        i += 1;
                    }
                    assert(items.take(arr@.len() as int) =~= items);
                    failure = Some(msgs);
                }
            },
            None => {},
        },
        None => {},
    }
    match failure {
        Some(msgs) => Err(StashError::GraphQl(msgs)),
        None => match payload.take_field("data") {
            Some(d) => Ok(d),
            None => Err(StashError::MissingField("data")),
        },
    }
}

// ── Lookup by name ──────────────────────────────────────────────────────────

/// The position of the first entry equal to `target`.
pub fn first_equal(entries: &Vec<String>, target: &str) -> (r: Option<usize>)
    ensures
        r matches Some(i) ==> i < entries@.len() && entries@[i as int]@ == target@ && forall|j: int|
            0 <= j < i ==> entries@[j]@ != target@,
        r is None ==> forall|j: int| 0 <= j < entries@.len() ==> entries@[j]@ != target@,
{
    let mut i: usize = 0;
    while i < entries.len()
        invariant
            i <= entries@.len(),
            forall|j: int| 0 <= j < i ==> entries@[j]@ != target@,
        decreases entries@.len() - i,
    {
        if str_eq(entries[i].as_str(), target) {
            return Some(i);
        }
        i += 1;
    }
    None
}

/// The position of the first name that equals `name` ignoring case (both
/// compared by their lowercase forms).
pub fn name_position(names: &Vec<String>, name: &str) -> (r: Option<usize>)
    ensures
        r matches Some(i) ==> i < names@.len() && lowercase(names@[i as int]@) == lowercase(name@)
            && forall|j: int| 0 <= j < i ==> lowercase(names@[j]@) != lowercase(name@),
        r is None ==> forall|j: int| 0 <= j < names@.len() ==> lowercase(names@[j]@) != lowercase(name@),
{
    let mut lowered: Vec<String> = Vec::new();
    let mut i: usize = 0;
    while i < names.len()
        invariant
            i <= names@.len(),
            lowered@.len() == i,
            forall|j: int| 0 <= j < i ==> (#[trigger] lowered@[j])@ == lowercase(names@[j]@),
        decreases names@.len() - i,
    {
        lowered.push(to_lowercase(names[i].as_str()));
        i += 1;
    }
    let target = to_lowercase(name);
    let r = first_equal(&lowered, target.as_str());
    assert forall|j: int| #![trigger names@[j]] 0 <= j < names@.len() implies lowered@[j]@ == lowercase(names@[j]@) by {}
    r
}

/// The position of the first studio named `name`, ignoring case.
pub fn studio_position(studios: &Vec<Studio>, name: &str) -> (r: Option<usize>)
    ensures
        r matches Some(i) ==> i < studios@.len() && lowercase(studios@[i as int].name@) == lowercase(name@)
            && forall|j: int| 0 <= j < i ==> lowercase(studios@[j].name@) != lowercase(name@),
        r is None ==> forall|j: int| 0 <= j < studios@.len() ==> lowercase(studios@[j].name@) != lowercase(name@),
{
    let mut names: Vec<String> = Vec::new();
    let mut i: usize = 0;
    while i < studios.len()
        invariant
            i <= studios@.len(),
            names@.len() == i,
            forall|j: int| 0 <= j < i ==> (#[trigger] names@[j])@ == studios@[j].name@,
        decreases studios@.len() - i,
    {
        names.push(studios[i].name.clone());
        i += 1;
    }
    let r = name_position(&names, name);
    assert forall|j: int| #![trigger studios@[j]] 0 <= j < studios@.len() implies names@[j]@ == studios@[j].name@ by {}
    r
}

/// The position of the first tag named `name`, ignoring case.
pub fn tag_position(tags: &Vec<Tag>, name: &str) -> (r: Option<usize>)
    ensures
        r matches Some(i) ==> i < tags@.len() && lowercase(tags@[i as int].name@) == lowercase(name@)
            && forall|j: int| 0 <= j < i ==> lowercase(tags@[j].name@) != lowercase(name@),
        r is None ==> forall|j: int| 0 <= j < tags@.len() ==> lowercase(tags@[j].name@) != lowercase(name@),
{
    let mut names: Vec<String> = Vec::new();
    let mut i: usize = 0;
    while i < tags.len()
        invariant
            i <= tags@.len(),
            names@.len() == i,
            forall|j: int| 0 <= j < i ==> (#[trigger] names@[j])@ == tags@[j].name@,
        decreases tags@.len() - i,
    {
        names.push(tags[i].name.clone());
        i += 1;
    }
    let r = name_position(&names, name);
    assert forall|j: int| #![trigger tags@[j]] 0 <= j < tags@.len() implies names@[j]@ == tags@[j].name@ by {}
    r
}

// ── Tag resolution ──────────────────────────────────────────────────────────

/// The ids of the tags that were found, in order.
pub open spec fn found_ids(found: Seq<Option<String>>) -> Seq<Seq<char>>
    decreases found.len(),
{
    if found.len() == 0 {
        Seq::empty()
    } else {
        let prev = found_ids(found.drop_last());
        match found.last() {
            Some(id) => prev.push(id@),
            None => prev,
        }
    }
}

/// The names whose tag was not found, in order.
pub open spec fn missing_names(names: Seq<Seq<char>>, found: Seq<Option<String>>) -> Seq<Seq<char>>
    decreases found.len(),
{
    if found.len() == 0 || names.len() == 0 {
        Seq::empty()
    } else {
        let prev = missing_names(names.drop_last(), found.drop_last());
        match found.last() {
            Some(_) => prev,
            None => prev.push(names.last()),
        }
    }
}

/// The outcome of resolving tag names to ids, given what the lookup of each
/// name found: the ids in order when every name was found, otherwise a
/// `GraphQl` error `unknown tags: ...` listing the names that were not.
pub fn tag_resolution(names: &Vec<String>, found: Vec<Option<String>>) -> (r: Result<Vec<String>, StashError>)
    requires
        names@.len() == found@.len(),
    ensures
        ({
            let missing = missing_names(names@.map_values(|s: String| s@), found@);
            if missing.len() == 0 {
                r matches Ok(ids) && ids@.map_values(|s: String| s@) == found_ids(found@)
            } else {
                r matches Err(StashError::GraphQl(m)) && m@.map_values(|s: String| s@) == seq![
                    "unknown tags: "@ + join(missing, ", "@),
                ]
            }
        }),
{
    let ghost nv = names@.map_values(|s: String| s@);
    let ghost fv = found@;
    let n = found.len();
    let mut ids: Vec<String> = Vec::new();
    let mut missing: Vec<String> = Vec::new();
    let mut k: usize = 0;
    assert(fv.take(0) =~= Seq::<Option<String>>::empty());
    while k < n
        invariant
            k <= n,
            n == fv.len(),
            fv == found@,
            nv.len() == n,
            nv == names@.map_values(|s: String| s@),
            ids@.map_values(|s: String| s@) == found_ids(fv.take(k as int)),
            missing@.map_values(|s: String| s@) == missing_names(nv.take(k as int), fv.take(k as int)),
        decreases n - k,
    {
        assert(fv.take(k + 1).drop_last() =~= fv.take(k as int));
        assert(nv.take(k + 1).drop_last() =~= nv.take(k as int));
        assert(fv.take(k + 1).last() == fv[k as int]);
        assert(nv.take(k + 1).last() == nv[k as int]);
        let ghost ids_before = ids@;
        let ghost missing_before = missing@;
        match &found[k] {
            Some(id) => {
                ids.push(id.clone());
                assert(ids@.map_values(|s: String| s@) =~= ids_before.map_values(|s: String| s@).push(id@));
            },
            None => {
                missing.push(names[k].clone());
                assert(missing@.map_values(|s: String| s@) =~= missing_before.map_values(|s: String| s@).push(nv[k as int]));
            },
        }
        k += 1;
    }
    assert(fv.take(n as int) =~= fv);
    assert(nv.take(n as int) =~= nv);
    if missing.len() > 0 {
        let mut msg = owned("unknown tags: ");
        msg.append(join_strings(&missing, ", ").as_str());
        let mut msgs: Vec<String> = Vec::new();
        msgs.push(msg);
        assert(msgs@.map_values(|s: String| s@) =~= seq![msg@]);
        Err(StashError::GraphQl(msgs))
    } else {
        Ok(ids)
    }
}

// ── Scene statistics ────────────────────────────────────────────────────────

/// The ratings present among the scenes, in order.
pub open spec fn ratings(scenes: Seq<Scene>) -> Seq<i64>
    decreases scenes.len(),
{
    if scenes.len() == 0 {
        Seq::empty()
    } else {
        let prev = ratings(scenes.drop_last());
        match scenes.last().rating100 {
            Some(r) => prev.push(r),
            None => prev,
        }
    }
}

/// The sum of a sequence of integers.
pub open spec fn sum(s: Seq<i64>) -> int
    decreases s.len(),
{
    if s.len() == 0 {
        0
    } else {
        sum(s.drop_last()) + s.last()
    }
}

/// The number of scenes with a rating in the inclusive range `[min, max]`.
pub open spec fn count_rated_in(scenes: Seq<Scene>, min: i64, max: i64) -> nat
    decreases scenes.len(),
{
    if scenes.len() == 0 {
        0
    } else {
        count_rated_in(scenes.drop_last(), min, max) + match scenes.last().rating100 {
            Some(r) => if min <= r && r <= max {
                1nat
            } else {
                0nat
            },
            None => 0nat,
        }
    }
}

/// The names of a list of tag references.
pub open spec fn ref_names(tags: Seq<TagRef>) -> Seq<Seq<char>> {
    tags.map_values(|t: TagRef| t.name@)
}

/// The tag names of the scenes, scene by scene and in each scene's order.
pub open spec fn scene_tag_names(scenes: Seq<Scene>) -> Seq<Seq<char>>
    decreases scenes.len(),
{
    if scenes.len() == 0 {
        Seq::empty()
    } else {
        scene_tag_names(scenes.drop_last()) + match scenes.last().tags {
            Some(tags) => ref_names(tags@),
            None => Seq::empty(),
        }
    }
}

/// How often each name occurs.
pub open spec fn tally(names: Seq<Seq<char>>) -> Map<Seq<char>, nat>
    decreases names.len(),
{
    if names.len() == 0 {
        Map::empty()
    } else {
        let m = tally(names.drop_last());
        let k = names.last();
        m.insert(
            k,
            if m.contains_key(k) {
                m[k] + 1
            } else {
                1
            },
        )
    }
}

/// A map of counts with the counts taken as natural numbers.
pub open spec fn counts_view(m: Map<Seq<char>, usize>) -> Map<Seq<char>, nat> {
    Map::new(|k: Seq<char>| m.contains_key(k), |k: Seq<char>| m[k] as nat)
}

pub proof fn lemma_tally_bound(names: Seq<Seq<char>>, k: Seq<char>)
    ensures
        tally(names).contains_key(k) ==> tally(names)[k] <= names.len(),
    decreases names.len(),
{
    if names.len() > 0 {
        lemma_tally_bound(names.drop_last(), k);
    }
}

/// Splitting a rating range in two splits the count: the scenes rated in
/// `[lo, hi]` are those rated in `[lo, mid]` plus those rated in `[mid + 1, hi]`.
pub proof fn law_count_split(scenes: Seq<Scene>, lo: i64, mid: i64, hi: i64)
    requires
        lo <= mid < hi,
    ensures
        count_rated_in(scenes, lo, hi) == count_rated_in(scenes, lo, mid) + count_rated_in(
            scenes,
            (mid + 1) as i64,
            hi,
        ),
    decreases scenes.len(),
{
    if scenes.len() > 0 {
        law_count_split(scenes.drop_last(), lo, mid, hi);
    }
}

/// Over the whole range of ratings, the count is the number of rated scenes:
/// a scene without a rating is never counted, a rated one always is.
pub proof fn law_count_full_range(scenes: Seq<Scene>)
    ensures
        count_rated_in(scenes, i64::MIN, i64::MAX) == ratings(scenes).len(),
    decreases scenes.len(),
{
    if scenes.len() > 0 {
        law_count_full_range(scenes.drop_last());
    }
}

/// No count exceeds the number of rated scenes, which does not exceed the
/// number of scenes.
pub proof fn law_count_at_most_rated(scenes: Seq<Scene>, min: i64, max: i64)
    ensures
        count_rated_in(scenes, min, max) <= ratings(scenes).len(),
        ratings(scenes).len() <= scenes.len(),
    decreases scenes.len(),
{
    if scenes.len() > 0 {
        law_count_at_most_rated(scenes.drop_last(), min, max);
    }
}

/// An empty range counts nothing: with `min > max` no rating lies in `[min, max]`.
pub proof fn law_count_empty_range(scenes: Seq<Scene>, min: i64, max: i64)
    requires
        min > max,
    ensures
        count_rated_in(scenes, min, max) == 0,
    decreases scenes.len(),
{
    if scenes.len() > 0 {
        law_count_empty_range(scenes.drop_last(), min, max);
    }
}

/// Whether a scene's rating lies in `[min, max]`, as a number.
pub open spec fn rated_in(s: Scene, min: i64, max: i64) -> nat {
    match s.rating100 {
        Some(r) => if min <= r && r <= max {
            1nat
        } else {
            0nat
        },
        None => 0nat,
    }
}

proof fn lemma_count_remove(scenes: Seq<Scene>, i: int, min: i64, max: i64)
    requires
        0 <= i < scenes.len(),
    ensures
        count_rated_in(scenes, min, max) == count_rated_in(scenes.remove(i), min, max) + rated_in(
            scenes[i],
            min,
            max,
        ),
    decreases scenes.len(),
{
    if i == scenes.len() - 1 {
        assert(scenes.remove(i) =~= scenes.drop_last());
    } else {
        lemma_count_remove(scenes.drop_last(), i, min, max);
        let r = scenes.remove(i);
        assert(r.drop_last() =~= scenes.drop_last().remove(i));
        assert(r.last() == scenes.last());
        assert(scenes.drop_last()[i] == scenes[i]);
    }
}

/// The order of the scenes does not matter: scenes holding the same elements,
/// each as often, give the same count.
pub proof fn law_count_ignores_order(scenes: Seq<Scene>, other: Seq<Scene>, min: i64, max: i64)
    requires
        scenes.to_multiset() == other.to_multiset(),
    ensures
        count_rated_in(scenes, min, max) == count_rated_in(other, min, max),
    decreases other.len(),
{
    broadcast use vstd::multiset::group_multiset_axioms;
    vstd::seq_lib::to_multiset_len(scenes);
    vstd::seq_lib::to_multiset_len(other);
    if other.len() > 0 {
        let x = other.last();
        let rest = other.drop_last();
        assert(rest.push(x) =~= other);
        vstd::seq_lib::to_multiset_build(rest, x);
        vstd::seq_lib::to_multiset_contains(scenes, x);
        assert(scenes.to_multiset().count(x) > 0);
        assert(scenes.contains(x));
        let i = choose|i: int| 0 <= i < scenes.len() && scenes[i] == x;
        vstd::seq_lib::to_multiset_remove(scenes, i);
        assert(scenes.remove(i).to_multiset() =~= rest.to_multiset());
        law_count_ignores_order(scenes.remove(i), rest, min, max);
        lemma_count_remove(scenes, i, min, max);
    }
}

/// How often a name occurs among `names`.
pub open spec fn occurrences(names: Seq<Seq<char>>, k: Seq<char>) -> nat {
    names.filter(|x: Seq<char>| x == k).len()
}

/// The tally of a list of names counts each name exactly as often as it
/// occurs, and holds no other name.
pub proof fn law_tally_counts_occurrences(names: Seq<Seq<char>>, k: Seq<char>)
    ensures
        tally(names).contains_key(k) <==> occurrences(names, k) > 0,
        tally(names).contains_key(k) ==> tally(names)[k] == occurrences(names, k),
    decreases names.len(),
{
    reveal(Seq::filter);
    if names.len() > 0 {
        law_tally_counts_occurrences(names.drop_last(), k);
    }
}

/// The number of scenes whose rating lies in the inclusive range `[min, max]`;
/// scenes without a rating are not counted. Pass `i64::MAX` as `max` for no
/// upper bound.
pub fn count_by_rating(scenes: &[Scene], min: i64, max: i64) -> (r: usize)
    ensures
        r == count_rated_in(scenes@, min, max),
{
    let mut count: usize = 0;
    let mut i: usize = 0;
    while i < scenes.len()
        invariant
            i <= scenes@.len(),
            count == count_rated_in(scenes@.take(i as int), min, max),
            count <= i,
        decreases scenes@.len() - i,
    {
        assert(scenes@.take(i + 1).drop_last() =~= scenes@.take(i as int));
        match scenes[i].rating100 {
            Some(r) => {
                if r >= min && r <= max {
                    count += 1;
                }
            },
            None => {},
        }
        i += 1;
    }
    assert(scenes@.take(scenes@.len() as int) =~= scenes@);
    count
}

/// The sum and the number of the ratings present among the scenes (their
/// average is the sum divided by the number).
pub fn rating_sum_count(scenes: &[Scene]) -> (r: (i128, usize))
    ensures
        r.0 == sum(ratings(scenes@)),
        r.1 == ratings(scenes@).len(),
{
    let mut total: i128 = 0;
    let mut count: usize = 0;
    let mut i: usize = 0;
    while i < scenes.len()
        invariant
            i <= scenes@.len(),
            total == sum(ratings(scenes@.take(i as int))),
            count == ratings(scenes@.take(i as int)).len(),
            count <= i,
            -0x8000_0000_0000_0000 * count <= total <= 0x7fff_ffff_ffff_ffff * count,
        decreases scenes@.len() - i,
    {
        assert(scenes@.take(i + 1).drop_last() =~= scenes@.take(i as int));
        assert(scenes@.take(i + 1).last() == scenes@[i as int]);
        match scenes[i].rating100 {
            Some(r) => {
                let ghost prev = ratings(scenes@.take(i as int));
                assert(ratings(scenes@.take(i + 1)) == prev.push(r));
                assert(prev.push(r).drop_last() =~= prev);
                assert(-0x8000_0000_0000_0000 * count <= total <= 0x7fff_ffff_ffff_ffff * count);
                assert(count < 0x1_0000_0000_0000_0000);
                assert(-0x8000_0000_0000_0000 * (count + 1) <= total + r <= 0x7fff_ffff_ffff_ffff * (count + 1)
                    && 0x7fff_ffff_ffff_ffff * (count + 1) < 0x8000_0000_0000_0000_0000_0000_0000_0000
                    && -0x8000_0000_0000_0000 * (count + 1) > -0x8000_0000_0000_0000_0000_0000_0000_0001)
                    by (nonlinear_arith)
                    requires
                        -0x8000_0000_0000_0000 * count <= total <= 0x7fff_ffff_ffff_ffff * count,
                        count < 0x1_0000_0000_0000_0000,
                        -0x8000_0000_0000_0000 <= r <= 0x7fff_ffff_ffff_ffff,
                ;
                total = total + r as i128;
                count += 1;
            },
            None => {},
        }
        i += 1;
    }
    assert(scenes@.take(scenes@.len() as int) =~= scenes@);
    (total, count)
}

/// How often each name occurs, in the order in which names first occur.
pub fn count_names(names: &Vec<String>) -> (r: StrMap<usize>)
    ensures
        r.wf(),
        counts_view(r@) == tally(names@.map_values(|s: String| s@)),
{
    let ghost nv = names@.map_values(|s: String| s@);
    let mut counts: StrMap<usize> = StrMap::new();
    let mut i: usize = 0;
    assert(counts_view(counts@) =~= tally(nv.take(0)));
    while i < names.len()
        invariant
            i <= names@.len(),
            nv == names@.map_values(|s: String| s@),
            counts.wf(),
            counts_view(counts@) == tally(nv.take(i as int)),
        decreases names@.len() - i,
    {
        let ghost prefix = nv.take(i as int);
        assert(nv.take(i + 1).drop_last() =~= prefix);
        assert(nv.take(i + 1).last() == names@[i as int]@);
        let name = &names[i];
        let next: usize = match counts.get(name.as_str()) {
            Some(c) => {
                proof {
                    lemma_tally_bound(prefix, name@);
                    assert(counts_view(counts@).contains_key(name@));
                }
                *c + 1
            },
            None => 1,
        };
        let ghost before = counts@;
        counts.insert(name.clone(), next);
        assert(counts_view(counts@) =~= tally(nv.take(i + 1)));
        i += 1;
    }
    assert(nv.take(names@.len() as int) =~= nv);
    counts
}

/// How often each tag name occurs across the scenes, in the order in which
/// names first occur.
pub fn tag_frequency(scenes: &[Scene]) -> (r: StrMap<usize>)
    ensures
        r.wf(),
        counts_view(r@) == tally(scene_tag_names(scenes@)),
{
    let mut names: Vec<String> = Vec::new();
    let mut i: usize = 0;
    while i < scenes.len()
        invariant
            i <= scenes@.len(),
            names@.map_values(|s: String| s@) == scene_tag_names(scenes@.take(i as int)),
        decreases scenes@.len() - i,
    {
        assert(scenes@.take(i + 1).drop_last() =~= scenes@.take(i as int));
        match &scenes[i].tags {
            Some(tags) => {
                let ghost start = names@.map_values(|s: String| s@);
                let mut j: usize = 0;
                while j < tags.len()
                    invariant
                        j <= tags@.len(),
                        names@.map_values(|s: String| s@) == start + ref_names(tags@.take(j as int)),
                    decreases tags@.len() - j,
                {
                    let ghost before = names@;
                    assert(tags@.take(j + 1) =~= tags@.take(j as int).push(tags@[j as int]));
                    assert(ref_names(tags@.take(j + 1)) =~= ref_names(tags@.take(j as int)).push(tags@[j as int].name@));
                    names.push(tags[j].name.clone());
                    assert(names@ == before.push(tags@[j as int].name));
                    assert(names@.map_values(|s: String| s@) =~= before.map_values(|s: String| s@).push(tags@[j as int].name@));
                    assert(names@.map_values(|s: String| s@) =~= start + ref_names(tags@.take(j + 1)));
                    j += 1;
                }
                assert(tags@.take(tags@.len() as int) =~= tags@);
            },
            None => {
                assert(names@.map_values(|s: String| s@) =~= scene_tag_names(scenes@.take(i + 1)));
            },
        }
        i += 1;
    }
    assert(scenes@.take(scenes@.len() as int) =~= scenes@);
    count_names(&names)
}

} // verus!
