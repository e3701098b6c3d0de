//! Builders for the GraphQL filter inputs that Stash accepts.

use vstd::prelude::*;
use crate::json::{entries_model, field, jint, jstr, lemma_member_at, lemma_member_none, JsonModel, JsonValue};
use crate::strmap::{
    key_index, keys_distinct, lemma_key_index, lemma_pairs_map_lookup, lemma_upsert, pairs_map, upsert, StrMap,
};
use crate::text::{owned, str_eq};

verus! {

/// The members of a filter object, with values taken by their models.
pub open spec fn fields_model(pairs: Seq<(Seq<char>, JsonValue)>) -> Seq<(Seq<char>, JsonModel)> {
    pairs.map_values(|p: (Seq<char>, JsonValue)| (p.0, p.1.model()))
}

/// `{"value": value, "modifier": modifier}` with a string value.
pub open spec fn string_criterion_model(value: Seq<char>, modifier: Seq<char>) -> JsonModel {
    JsonModel::Object(seq![("value"@, jstr(value)), ("modifier"@, jstr(modifier))])
}

/// `{"value": value, "modifier": modifier}` with an integer value.
pub open spec fn int_criterion_model(value: i64, modifier: Seq<char>) -> JsonModel {
    JsonModel::Object(seq![("value"@, jint(value)), ("modifier"@, jstr(modifier))])
}

/// `{"value": value, "value2": value2, "modifier": modifier}`: a range criterion.
pub open spec fn range_criterion_model(value: i64, value2: i64, modifier: Seq<char>) -> JsonModel {
    JsonModel::Object(
        seq![("value"@, jint(value)), ("value2"@, jint(value2)), ("modifier"@, jstr(modifier))],
    )
}

/// `{"value": value, "value2": value2, "modifier": "BETWEEN"}`.
pub open spec fn between_criterion_model(value: i64, value2: i64) -> JsonModel {
    range_criterion_model(value, value2, "BETWEEN"@)
}

/// `{"value": [ids...], "modifier": modifier}`.
pub open spec fn multi_criterion_model(ids: Seq<Seq<char>>, modifier: Seq<char>) -> JsonModel {
    JsonModel::Object(
        seq![
            ("value"@, JsonModel::Array(Seq::new(ids.len(), |i: int| jstr(ids[i])))),
            ("modifier"@, jstr(modifier)),
        ],
    )
}

/// The criterion of a numeric performer field: a range with the given
/// modifier when a second value is given together with `BETWEEN` or
/// `NOT_BETWEEN`, otherwise a single value with the given modifier.
pub open spec fn ranged_criterion_model(value: i64, modifier: Seq<char>, value2: Option<i64>) -> JsonModel {
    if value2 is Some && (modifier == "BETWEEN"@ || modifier == "NOT_BETWEEN"@) {
        range_criterion_model(value, value2->0, modifier)
    } else {
        int_criterion_model(value, modifier)
    }
}

pub proof fn lemma_fields_key_index(s: Seq<(Seq<char>, JsonValue)>, k: Seq<char>)
    ensures
        key_index(fields_model(s), k) == key_index(s, k),
    decreases s.len(),
{
    if s.len() > 0 {
        assert(fields_model(s).drop_first() =~= fields_model(s.drop_first()));
        lemma_fields_key_index(s.drop_first(), k);
    }
}

pub proof fn lemma_fields_upsert(s: Seq<(Seq<char>, JsonValue)>, k: Seq<char>, v: JsonValue)
    ensures
        fields_model(upsert(s, k, v)) == upsert(fields_model(s), k, v.model()),
        keys_distinct(s) ==> keys_distinct(fields_model(s)),
{
    lemma_fields_key_index(s, k);
    crate::strmap::lemma_key_index(s, k);
    match key_index(s, k) {
        Some(i) => {
            assert(fields_model(s.update(i, (k, v))) =~= fields_model(s).update(i, (k, v.model())));
        },
        None => {
            assert(fields_model(s.push((k, v))) =~= fields_model(s).push((k, v.model())));
        },
    }
    if keys_distinct(s) {
        assert forall|i: int, j: int| 0 <= i < j < fields_model(s).len() implies fields_model(s)[i].0
            != fields_model(s)[j].0 by {
            assert(s[i].0 != s[j].0);
        }
    }
}

/// With distinct keys, the member named `k` is the value the pairs map `k` to.
proof fn lemma_member_of_distinct(s: Seq<(Seq<char>, JsonModel)>, k: Seq<char>)
    requires
        keys_distinct(s),
    ensures
        crate::json::member(s, k) == if pairs_map(s).contains_key(k) {
            Some(pairs_map(s)[k])
        } else {
            None
        },
{
    lemma_pairs_map_lookup(s);
    lemma_key_index(s, k);
    match key_index(s, k) {
        Some(i) => {
            assert forall|j: int| 0 <= j < i implies s[j].0 != k by {
                assert(s[j].0 != s[i].0);
            }
            lemma_member_at(s, k, i);
        },
        None => {
            lemma_member_none(s, k);
            if pairs_map(s).contains_key(k) {
                let i = choose|i: int| 0 <= i < s.len() && s[i].0 == k;
                assert(s[i].0 == k);
            }
        },
    }
}

/// What is set in a filter reads back from it: after setting member `k` to
/// `v`, the filter object's field `k` is `v`, and every other field reads as
/// it did before.
pub proof fn law_filter_set_then_read(f: Seq<(Seq<char>, JsonModel)>, k: Seq<char>, v: JsonModel, other: Seq<char>)
    requires
        keys_distinct(f),
    ensures
        field(JsonModel::Object(upsert(f, k, v)), k) == Some(v),
        other != k ==> field(JsonModel::Object(upsert(f, k, v)), other) == field(JsonModel::Object(f), other),
{
    lemma_upsert(f, k, v);
    lemma_member_of_distinct(upsert(f, k, v), k);
    lemma_member_of_distinct(upsert(f, k, v), other);
    lemma_member_of_distinct(f, other);
}

/// Sets member `key` of a filter under construction.
fn set_field(inner: &mut StrMap<JsonValue>, key: &str, value: JsonValue)
    requires
        old(inner).wf(),
    ensures
        final(inner).wf(),
        fields_model(final(inner).pairs()) == upsert(fields_model(old(inner).pairs()), key@, value.model()),
{
    proof {
        lemma_fields_upsert(inner.pairs(), key@, value);
    }
    inner.insert(owned(key), value);
}

/// The filter object with the members set so far.
fn fields_object(inner: StrMap<JsonValue>) -> (r: JsonValue)
    ensures
        r.model() == JsonModel::Object(fields_model(inner.pairs())),
{
    let ghost pairs = inner.pairs();
    let entries = inner.into_entries();
    let r = JsonValue::object(entries);
    proof {
        assert(entries_model(entries@) =~= fields_model(pairs)) by {
            assert forall|i: int| 0 <= i < entries@.len() implies entries_model(entries@)[i] == fields_model(pairs)[i] by {
                assert(entries@.map_values(|e: (String, JsonValue)| (e.0@, e.1))[i] == pairs[i]);
            }
        }
    }
    r
}

fn member(key: &str, value: JsonValue) -> (r: (String, JsonValue))
    ensures
        r.0@ == key@,
        r.1 == value,
{
    (owned(key), value)
}

/// `{"per_page": -1}`: every result on one page.
pub open spec fn all_pages_model() -> JsonModel {
    JsonModel::Object(seq![("per_page"@, jint(-1i64))])
}

/// A `FindFilterType` that requests all results (no pagination).
pub fn all_pages() -> (r: JsonValue)
    ensures
        r.model() == all_pages_model(),
{
    let mut v: Vec<(String, JsonValue)> = Vec::new();
    v.push(member("per_page", JsonValue::integer(-1)));
    let r = JsonValue::object(v);
    assert(entries_model(v@) =~= seq![("per_page"@, jint(-1i64))]);
    r
}

/// A `StringCriterionInput`.
pub fn string_criterion(value: &str, modifier: &str) -> (r: JsonValue)
    ensures
        r.model() == string_criterion_model(value@, modifier@),
{
    let mut v: Vec<(String, JsonValue)> = Vec::new();
    v.push(member("value", JsonValue::string(value)));
    v.push(member("modifier", JsonValue::string(modifier)));
    let r = JsonValue::object(v);
    assert(entries_model(v@) =~= seq![("value"@, jstr(value@)), ("modifier"@, jstr(modifier@))]);
    r
}

/// An `IntCriterionInput` with a single value.
pub fn int_criterion(value: i64, modifier: &str) -> (r: JsonValue)
    ensures
        r.model() == int_criterion_model(value, modifier@),
{
    let mut v: Vec<(String, JsonValue)> = Vec::new();
    v.push(member("value", JsonValue::integer(value)));
    v.push(member("modifier", JsonValue::string(modifier)));
    let r = JsonValue::object(v);
    assert(entries_model(v@) =~= seq![("value"@, jint(value)), ("modifier"@, jstr(modifier@))]);
    r
}

/// An `IntCriterionInput` with two values and the given range modifier
/// (`BETWEEN` or `NOT_BETWEEN`).
fn int_range_criterion(value: i64, value2: i64, modifier: &str) -> (r: JsonValue)
    ensures
        r.model() == range_criterion_model(value, value2, modifier@),
{
    let mut v: Vec<(String, JsonValue)> = Vec::new();
    v.push(member("value", JsonValue::integer(value)));
    v.push(member("value2", JsonValue::integer(value2)));
    v.push(member("modifier", JsonValue::string(modifier)));
    let r = JsonValue::object(v);
    assert(entries_model(v@) =~= seq![
        ("value"@, jint(value)),
        ("value2"@, jint(value2)),
        ("modifier"@, jstr(modifier@)),
    ]);
    r
}

/// An `IntCriterionInput` for the inclusive range from `value` to `value2`.
pub fn int_criterion_between(value: i64, value2: i64) -> (r: JsonValue)
    ensures
        r.model() == between_criterion_model(value, value2),
{
    int_range_criterion(value, value2, "BETWEEN")
}

/// A `HierarchicalMultiCriterionInput` for tag filtering.
pub fn tags_criterion(tag_ids: &[String], modifier: &str) -> (r: JsonValue)
    ensures
        r.model() == multi_criterion_model(tag_ids@.map_values(|t: String| t@), modifier@),
{
    let ids = JsonValue::string_array(tag_ids);
    let mut v: Vec<(String, JsonValue)> = Vec::new();
    v.push(member("value", ids));
    v.push(member("modifier", JsonValue::string(modifier)));
    let r = JsonValue::object(v);
    let ghost views = tag_ids@.map_values(|t: String| t@);
    assert(Seq::new(tag_ids@.len(), |i: int| jstr(tag_ids@[i]@)) =~= Seq::new(views.len(), |i: int| jstr(views[i])));
    assert(entries_model(v@) =~= multi_criterion_model(views, modifier@)->Object_0);
    r
}

/// A `MultiCriterionInput` for performer filtering inside scenes.
pub fn performers_criterion(performer_ids: &[&str], modifier: &str) -> (r: JsonValue)
    ensures
        r.model() == multi_criterion_model(performer_ids@.map_values(|t: &str| t@), modifier@),
{
    let mut owned_ids: Vec<String> = Vec::new();
    let mut i: usize = 0;
    while i < performer_ids.len()
        invariant
            i <= performer_ids@.len(),
            owned_ids@.len() == i,
            forall|j: int| 0 <= j < i ==> (#[trigger] owned_ids@[j])@ == performer_ids@[j]@,
        decreases performer_ids@.len() - i,
    {
        owned_ids.push(owned(performer_ids[i]));
        i += 1;
    }
    let r = tags_criterion(owned_ids.as_slice(), modifier);
    assert(owned_ids@.map_values(|t: String| t@) =~= performer_ids@.map_values(|t: &str| t@));
    r
}

/// Builds a `PerformerFilterType` object member by member.
#[derive(Debug)]
pub struct PerformerFilterBuilder {
    inner: StrMap<JsonValue>,
}

/// Builds a `SceneFilterType` object member by member.
#[derive(Debug)]
pub struct SceneFilterBuilder {
    inner: StrMap<JsonValue>,
}

/// Builds a `StudioFilterType` object member by member.
#[derive(Debug)]
pub struct StudioFilterBuilder {
    inner: StrMap<JsonValue>,
}

/// Builds a `TagFilterType` object member by member.
#[derive(Debug)]
pub struct TagFilterBuilder {
    inner: StrMap<JsonValue>,
}

impl PerformerFilterBuilder {
    /// The members set so far, in the order they were first set.
    pub closed spec fn fields(&self) -> Seq<(Seq<char>, JsonModel)> {
        fields_model(self.inner.pairs())
    }

    pub closed spec fn wf(&self) -> bool {
        self.inner.wf()
    }

    /// A builder with no members.
    pub fn new() -> (r: Self)
        ensures
            r.wf(),
            r.fields() == Seq::<(Seq<char>, JsonModel)>::empty(),
    {
        let r = PerformerFilterBuilder { inner: StrMap::new() };
        assert(r.fields() =~= Seq::<(Seq<char>, JsonModel)>::empty());
        r
    }

    fn set(self, key: &str, value: JsonValue) -> (r: Self)
        requires
            self.wf(),
        ensures
            r.wf(),
            r.fields() == upsert(self.fields(), key@, value.model()),
    {
        let mut b = self;
        set_field(&mut b.inner, key, value);
        b
    }

    /// Restricts to favorite performers when `yes`; otherwise leaves the filter unchanged.
    pub fn favorites_only(self, yes: bool) -> (r: Self)
        requires
            self.wf(),
        ensures
            r.wf(),
            r.fields() == if yes {
                upsert(self.fields(), "filter_favorites"@, JsonModel::Bool(true))
            } else {
                self.fields()
            },
    {
        if yes {
            self.set("filter_favorites", JsonValue::boolean(true))
        } else {
            self
        }
    }

    /// Filters by country.
    pub fn country(self, value: &str, modifier: &str) -> (r: Self)
        requires
            self.wf(),
        ensures
            r.wf(),
            r.fields() == upsert(self.fields(), "country"@, string_criterion_model(value@, modifier@)),
    {
        self.set("country", string_criterion(value, modifier))
    }

    /// Filters by ethnicity.
    pub fn ethnicity(self, value: &str, modifier: &str) -> (r: Self)
        requires
            self.wf(),
        ensures
            r.wf(),
            r.fields() == upsert(self.fields(), "ethnicity"@, string_criterion_model(value@, modifier@)),
    {
        self.set("ethnicity", string_criterion(value, modifier))
    }

    /// Filters by eye color.
    pub fn eye_color(self, value: &str, modifier: &str) -> (r: Self)
        requires
            self.wf(),
        ensures
            r.wf(),
            r.fields() == upsert(self.fields(), "eye_color"@, string_criterion_model(value@, modifier@)),
    {
        self.set("eye_color", string_criterion(value, modifier))
    }

    /// Filters by hair color.
    pub fn hair_color(self, value: &str, modifier: &str) -> (r: Self)
        requires
            self.wf(),
        ensures
            r.wf(),
            r.fields() == upsert(self.fields(), "hair_color"@, string_criterion_model(value@, modifier@)),
    {
        self.set("hair_color", string_criterion(value, modifier))
    }

    /// Filters by height in centimetres.
    pub fn height_cm(self, value: i64, modifier: &str, value2: Option<i64>) -> (r: Self)
        requires
            self.wf(),
        ensures
            r.wf(),
            r.fields() == upsert(self.fields(), "height_cm"@, ranged_criterion_model(value, modifier@, value2)),
    {
        let criterion = ranged_criterion(value, modifier, value2);
        self.set("height_cm", criterion)
    }

    /// Filters by measurements.
    pub fn measurements(self, value: &str, modifier: &str) -> (r: Self)
        requires
            self.wf(),
        ensures
            r.wf(),
            r.fields() == upsert(self.fields(), "measurements"@, string_criterion_model(value@, modifier@)),
    {
        self.set("measurements", string_criterion(value, modifier))
    }

    /// Filters by piercings (always an `INCLUDES` match).
    pub fn piercings(self, value: &str) -> (r: Self)
        requires
            self.wf(),
        ensures
            r.wf(),
            r.fields() == upsert(self.fields(), "piercings"@, string_criterion_model(value@, "INCLUDES"@)),
    {
        self.set("piercings", string_criterion(value, "INCLUDES"))
    }

    /// Filters by tattoos (always an `INCLUDES` match).
    pub fn tattoos(self, value: &str) -> (r: Self)
        requires
            self.wf(),
        ensures
            r.wf(),
            r.fields() == upsert(self.fields(), "tattoos"@, string_criterion_model(value@, "INCLUDES"@)),
    {
        self.set("tattoos", string_criterion(value, "INCLUDES"))
    }

    /// Filters by weight in kilograms.
    pub fn weight(self, value: i64, modifier: &str, value2: Option<i64>) -> (r: Self)
        requires
            self.wf(),
        ensures
            r.wf(),
            r.fields() == upsert(self.fields(), "weight"@, ranged_criterion_model(value, modifier@, value2)),
    {
        let criterion = ranged_criterion(value, modifier, value2);
        self.set("weight", criterion)
    }

    /// Exact name match, used to resolve a performer by name.
    pub fn name_equals(self, name: &str) -> (r: Self)
        requires
            self.wf(),
        ensures
            r.wf(),
            r.fields() == upsert(self.fields(), "name"@, string_criterion_model(name@, "EQUALS"@)),
    {
        self.set("name", string_criterion(name, "EQUALS"))
    }

    /// The filter object.
    pub fn build(self) -> (r: JsonValue)
        ensures
            r.model() == JsonModel::Object(self.fields()),
    {
        fields_object(self.inner)
    }
}

/// The criterion of a numeric performer field.
fn ranged_criterion(value: i64, modifier: &str, value2: Option<i64>) -> (r: JsonValue)
    ensures
        r.model() == ranged_criterion_model(value, modifier@, value2),
{
    match value2 {
        Some(v2) => {
            if str_eq(modifier, "BETWEEN") || str_eq(modifier, "NOT_BETWEEN") {
                int_range_criterion(value, v2, modifier)
            } else {
                int_criterion(value, modifier)
            }
        },
        None => int_criterion(value, modifier),
    }
}

impl SceneFilterBuilder {
    /// The members set so far, in the order they were first set.
    pub closed spec fn fields(&self) -> Seq<(Seq<char>, JsonModel)> {
        fields_model(self.inner.pairs())
    }

    pub closed spec fn wf(&self) -> bool {
        self.inner.wf()
    }

    /// A builder with no members.
    pub fn new() -> (r: Self)
        ensures
            r.wf(),
            r.fields() == Seq::<(Seq<char>, JsonModel)>::empty(),
    {
        let r = SceneFilterBuilder { inner: StrMap::new() };
        assert(r.fields() =~= Seq::<(Seq<char>, JsonModel)>::empty());
        r
    }

    fn set(self, key: &str, value: JsonValue) -> (r: Self)
        requires
            self.wf(),
        ensures
            r.wf(),
            r.fields() == upsert(self.fields(), key@, value.model()),
    {
        let mut b = self;
        set_field(&mut b.inner, key, value);
        b
    }

    /// Restricts to organized scenes when `yes`; otherwise leaves the filter unchanged.
    pub fn organized_only(self, yes: bool) -> (r: Self)
        requires
            self.wf(),
        ensures
            r.wf(),
            r.fields() == if yes {
                upsert(self.fields(), "organized"@, JsonModel::Bool(true))
            } else {
                self.fields()
            },
    {
        if yes {
            self.set("organized", JsonValue::boolean(true))
        } else {
            self
        }
    }

    /// Only scenes with at least one tag.
    pub fn has_tags(self) -> (r: Self)
        requires
            self.wf(),
        ensures
            r.wf(),
            r.fields() == upsert(self.fields(), "tag_count"@, int_criterion_model(0, "GREATER_THAN"@)),
    {
        self.set("tag_count", int_criterion(0, "GREATER_THAN"))
    }

    /// Scenes rated `min` or more: `GREATER_THAN` is exclusive, so `min - 1` is sent.
    pub fn min_rating(self, min: i64) -> (r: Self)
        requires
            self.wf(),
            min > i64::MIN,
        ensures
            r.wf(),
            r.fields() == upsert(self.fields(), "rating100"@, int_criterion_model((min - 1) as i64, "GREATER_THAN"@)),
    {
        self.set("rating100", int_criterion(min - 1, "GREATER_THAN"))
    }

    /// Scenes rated `max` or less: `LESS_THAN` is exclusive, so `max + 1` is sent.
    pub fn max_rating(self, max: i64) -> (r: Self)
        requires
            self.wf(),
            max < i64::MAX,
        ensures
            r.wf(),
            r.fields() == upsert(self.fields(), "rating100"@, int_criterion_model((max + 1) as i64, "LESS_THAN"@)),
    {
        self.set("rating100", int_criterion(max + 1, "LESS_THAN"))
    }

    /// Scenes rated from `min` to `max`, both inclusive.
    pub fn rating_range(self, min: i64, max: i64) -> (r: Self)
        requires
            self.wf(),
        ensures
            r.wf(),
            r.fields() == upsert(self.fields(), "rating100"@, between_criterion_model(min, max)),
    {
        self.set("rating100", int_criterion_between(min, max))
    }

    /// Scenes that carry the given tags.
    pub fn include_tags(self, tag_ids: &[String]) -> (r: Self)
        requires
            self.wf(),
        ensures
            r.wf(),
            r.fields() == upsert(
                self.fields(),
                "tags"@,
                multi_criterion_model(tag_ids@.map_values(|t: String| t@), "INCLUDES"@),
            ),
    {
        self.set("tags", tags_criterion(tag_ids, "INCLUDES"))
    }

    /// Scenes that carry none of the given tags.
    pub fn exclude_tags(self, tag_ids: &[String]) -> (r: Self)
        requires
            self.wf(),
        ensures
            r.wf(),
            r.fields() == upsert(
                self.fields(),
                "tags"@,
                multi_criterion_model(tag_ids@.map_values(|t: String| t@), "EXCLUDES"@),
            ),
    {
        self.set("tags", tags_criterion(tag_ids, "EXCLUDES"))
    }

    /// Scenes that also carry none of the given tags: a second `tags`
    /// criterion, `EXCLUDES`, joined to the filter by `AND`. With
    /// `include_tags`, this selects scenes that carry the included tags and
    /// none of the excluded ones.
    pub fn and_exclude_tags(self, tag_ids: &[String]) -> (r: Self)
        requires
            self.wf(),
        ensures
            r.wf(),
            r.fields() == upsert(
                self.fields(),
                "AND"@,
                JsonModel::Object(
                    seq![("tags"@, multi_criterion_model(tag_ids@.map_values(|t: String| t@), "EXCLUDES"@))],
                ),
            ),
    {
        let criterion = tags_criterion(tag_ids, "EXCLUDES");
        let ghost cm = criterion.model();
        let mut members: Vec<(String, JsonValue)> = Vec::new();
        members.push(member("tags", criterion));
        assert(entries_model(members@) =~= seq![("tags"@, cm)]);
        self.set("AND", JsonValue::object(members))
    }

    /// Scenes that include the performer with the given database id.
    pub fn performer_id(self, id: &str) -> (r: Self)
        requires
            self.wf(),
        ensures
            r.wf(),
            r.fields() == upsert(self.fields(), "performers"@, multi_criterion_model(seq![id@], "INCLUDES"@)),
    {
        let mut ids: Vec<&str> = Vec::new();
        ids.push(id);
        let c = performers_criterion(ids.as_slice(), "INCLUDES");
        assert(ids@.map_values(|t: &str| t@) =~= seq![id@]);
        self.set("performers", c)
    }

    /// The filter object.
    pub fn build(self) -> (r: JsonValue)
        ensures
            r.model() == JsonModel::Object(self.fields()),
    {
        fields_object(self.inner)
    }
}

impl StudioFilterBuilder {
    /// The members set so far, in the order they were first set.
    pub closed spec fn fields(&self) -> Seq<(Seq<char>, JsonModel)> {
        fields_model(self.inner.pairs())
    }

    pub closed spec fn wf(&self) -> bool {
        self.inner.wf()
    }

    /// A builder with no members.
    pub fn new() -> (r: Self)
        ensures
            r.wf(),
            r.fields() == Seq::<(Seq<char>, JsonModel)>::empty(),
    {
        let r = StudioFilterBuilder { inner: StrMap::new() };
        assert(r.fields() =~= Seq::<(Seq<char>, JsonModel)>::empty());
        r
    }

    /// Restricts to favorite studios when `yes`; otherwise leaves the filter unchanged.
    pub fn favorites_only(self, yes: bool) -> (r: Self)
        requires
            self.wf(),
        ensures
            r.wf(),
            r.fields() == if yes {
                upsert(self.fields(), "favorite"@, JsonModel::Bool(true))
            } else {
                self.fields()
            },
    {
        let mut b = self;
        if yes {
            set_field(&mut b.inner, "favorite", JsonValue::boolean(true));
        }
        b
    }

    /// The filter object.
    pub fn build(self) -> (r: JsonValue)
        ensures
            r.model() == JsonModel::Object(self.fields()),
    {
        fields_object(self.inner)
    }
}

impl TagFilterBuilder {
    /// The members set so far, in the order they were first set.
    pub closed spec fn fields(&self) -> Seq<(Seq<char>, JsonModel)> {
        fields_model(self.inner.pairs())
    }

    pub closed spec fn wf(&self) -> bool {
        self.inner.wf()
    }

    /// A builder with no members.
    pub fn new() -> (r: Self)
        ensures
            r.wf(),
            r.fields() == Seq::<(Seq<char>, JsonModel)>::empty(),
    {
        let r = TagFilterBuilder { inner: StrMap::new() };
        assert(r.fields() =~= Seq::<(Seq<char>, JsonModel)>::empty());
        r
    }

    /// Restricts to favorite tags when `yes`; otherwise leaves the filter unchanged.
    pub fn favorites_only(self, yes: bool) -> (r: Self)
        requires
            self.wf(),
        ensures
            r.wf(),
            r.fields() == if yes {
                upsert(self.fields(), "favorite"@, JsonModel::Bool(true))
            } else {
                self.fields()
            },
    {
        let mut b = self;
        if yes {
            set_field(&mut b.inner, "favorite", JsonValue::boolean(true));
        }
        b
    }

    /// Exact name match.
    pub fn name_equals(self, name: &str) -> (r: Self)
        requires
            self.wf(),
        ensures
            r.wf(),
            r.fields() == upsert(self.fields(), "name"@, string_criterion_model(name@, "EQUALS"@)),
    {
        let mut b = self;
        set_field(&mut b.inner, "name", string_criterion(name, "EQUALS"));
        b
    }

    /// The filter object.
    pub fn build(self) -> (r: JsonValue)
        ensures
            r.model() == JsonModel::Object(self.fields()),
    {
        fields_object(self.inner)
    }
}

} // verus!
