//! The resources the server offers: their catalog, how a URI selects one,
//! and the statistics the summary resources report.

use vstd::prelude::*;
use crate::json::{field, jstr, JsonModel, JsonValue};
use crate::mcp::InvalidRequest;
use crate::stash::filters::{
    law_filter_set_then_read, string_criterion_model, PerformerFilterBuilder, StudioFilterBuilder, TagFilterBuilder,
};
use crate::strmap::{keys_distinct, lemma_upsert, upsert};
use crate::stash::client::{counts_view, count_names, tally};
use crate::stash::types::{Performer, Studio, Tag};
use crate::strmap::StrMap;
use crate::text::{chars_of, has_prefix, owned, starts_with, str_eq, string_of_range};

verus! {

/// The MIME type of every resource.
pub const MIME_JSON: &'static str = "application/json";

// ── Catalog ─────────────────────────────────────────────────────────────────

/// A static resource of the catalog.
#[derive(Debug)]
pub struct ResourceInfo {
    pub uri: String,
    pub name: String,
    pub description: String,
    pub mime_type: String,
}

/// A resource template of the catalog.
#[derive(Debug)]
pub struct ResourceTemplateInfo {
    pub uri_template: String,
    pub name: String,
    pub description: String,
    pub mime_type: String,
}

/// The text contents of a resource read: the URI read, the MIME type, and the text.
#[derive(Debug)]
pub struct TextContents {
    pub uri: String,
    pub mime_type: String,
    pub text: String,
}

/// The contents of a resource read: `text` for `uri`, as JSON.
pub fn text_resource_contents(uri: &str, text: String) -> (r: TextContents)
    ensures
        r.uri@ == uri@,
        r.mime_type@ == MIME_JSON@,
        r.text@ == text@,
{
    TextContents { uri: owned(uri), mime_type: owned(MIME_JSON), text }
}

fn resource(uri: &str, name: &str, description: &str) -> (r: ResourceInfo)
    ensures
        r.uri@ == uri@,
        r.name@ == name@,
        r.description@ == description@,
        r.mime_type@ == MIME_JSON@,
{
    ResourceInfo { uri: owned(uri), name: owned(name), description: owned(description), mime_type: owned(MIME_JSON) }
}

fn template(uri_template: &str, name: &str, description: &str) -> (r: ResourceTemplateInfo)
    ensures
        r.uri_template@ == uri_template@,
        r.name@ == name@,
        r.description@ == description@,
        r.mime_type@ == MIME_JSON@,
{
    ResourceTemplateInfo {
        uri_template: owned(uri_template),
        name: owned(name),
        description: owned(description),
        mime_type: owned(MIME_JSON),
    }
}

/// The static resources, in order; all are JSON.
pub fn list_resources() -> (r: Vec<ResourceInfo>)
    ensures
        r@.len() == 6,
        forall|i: int| 0 <= i < 6 ==> (#[trigger] r@[i]).mime_type@ == MIME_JSON@,
        r@[0].uri@ == "stash://performer/all"@ && r@[0].name@ == "All performers"@
            && r@[0].description@ == "List of all favorite performers in Stash"@,
        r@[1].uri@ == "stash://performer/stats"@ && r@[1].name@ == "Performers Statistics"@
            && r@[1].description@ == "Statistical summary of all performers"@,
        r@[2].uri@ == "stash://studio/all"@ && r@[2].name@ == "All studios"@
            && r@[2].description@ == "List of all favorite studios in Stash"@,
        r@[3].uri@ == "stash://studio/stats"@ && r@[3].name@ == "Studios Statistics"@
            && r@[3].description@ == "Statistical summary of all studios"@,
        r@[4].uri@ == "stash://tag/all"@ && r@[4].name@ == "All tags"@
            && r@[4].description@ == "List of all favorite tags in Stash"@,
        r@[5].uri@ == "stash://tag/stats"@ && r@[5].name@ == "Tags Statistics"@
            && r@[5].description@ == "Statistical summary of all tags"@,
{
    let mut r: Vec<ResourceInfo> = Vec::new();
    r.push(resource("stash://performer/all", "All performers", "List of all favorite performers in Stash"));
    r.push(resource("stash://performer/stats", "Performers Statistics", "Statistical summary of all performers"));
    r.push(resource("stash://studio/all", "All studios", "List of all favorite studios in Stash"));
    r.push(resource("stash://studio/stats", "Studios Statistics", "Statistical summary of all studios"));
    r.push(resource("stash://tag/all", "All tags", "List of all favorite tags in Stash"));
    r.push(resource("stash://tag/stats", "Tags Statistics", "Statistical summary of all tags"));
    r
}

/// The resource templates, in order; all are JSON.
pub fn list_resource_templates() -> (r: Vec<ResourceTemplateInfo>)
    ensures
        r@.len() == 5,
        forall|i: int| 0 <= i < 5 ==> (#[trigger] r@[i]).mime_type@ == MIME_JSON@,
        r@[0].uri_template@ == "stash://performer/{name}"@ && r@[0].name@ == "Performer Information"@
            && r@[0].description@ == "Detailed information about a specific performer"@,
        r@[1].uri_template@ == "stash://performer/country/{country}"@ && r@[1].name@ == "Performers by Country"@
            && r@[1].description@ == "List of performers from a specific country"@,
        r@[2].uri_template@ == "stash://performer/ethnicity/{ethnicity}"@ && r@[2].name@
            == "Performers by Ethnicity"@ && r@[2].description@ == "List of performers with a specific ethnicity"@,
        r@[3].uri_template@ == "stash://studio/{name}"@ && r@[3].name@ == "Studio Information"@
            && r@[3].description@ == "Detailed information about a specific studio"@,
        r@[4].uri_template@ == "stash://tag/{name}"@ && r@[4].name@ == "Tag Information"@
            && r@[4].description@ == "Detailed information about a specific tag"@,
{
    let mut r: Vec<ResourceTemplateInfo> = Vec::new();
    r.push(template("stash://performer/{name}", "Performer Information", "Detailed information about a specific performer"));
    r.push(template("stash://performer/country/{country}", "Performers by Country", "List of performers from a specific country"));
    r.push(
        template(
            "stash://performer/ethnicity/{ethnicity}",
            "Performers by Ethnicity",
            "List of performers with a specific ethnicity",
        ),
    );
    r.push(template("stash://studio/{name}", "Studio Information", "Detailed information about a specific studio"));
    r.push(template("stash://tag/{name}", "Tag Information", "Detailed information about a specific tag"));
    r
}

// ── Routing ─────────────────────────────────────────────────────────────────

/// The resource a URI selects.
#[derive(Debug, Clone, PartialEq)]
pub enum ResourceRoute {
    AllPerformers,
    PerformerStats,
    AllStudios,
    StudioStats,
    AllTags,
    TagStats,
    PerformersByCountry(String),
    PerformersByEthnicity(String),
    PerformerByName(String),
    StudioByName(String),
    TagByName(String),
}

/// The mathematical form of a [`ResourceRoute`].
pub enum RouteModel {
    AllPerformers,
    PerformerStats,
    AllStudios,
    StudioStats,
    AllTags,
    TagStats,
    PerformersByCountry(Seq<char>),
    PerformersByEthnicity(Seq<char>),
    PerformerByName(Seq<char>),
    StudioByName(Seq<char>),
    TagByName(Seq<char>),
}

impl ResourceRoute {
    pub open spec fn model(&self) -> RouteModel {
        match self {
            ResourceRoute::AllPerformers => RouteModel::AllPerformers,
            ResourceRoute::PerformerStats => RouteModel::PerformerStats,
            ResourceRoute::AllStudios => RouteModel::AllStudios,
            ResourceRoute::StudioStats => RouteModel::StudioStats,
            ResourceRoute::AllTags => RouteModel::AllTags,
            ResourceRoute::TagStats => RouteModel::TagStats,
            ResourceRoute::PerformersByCountry(s) => RouteModel::PerformersByCountry(s@),
            ResourceRoute::PerformersByEthnicity(s) => RouteModel::PerformersByEthnicity(s@),
            ResourceRoute::PerformerByName(s) => RouteModel::PerformerByName(s@),
            ResourceRoute::StudioByName(s) => RouteModel::StudioByName(s@),
            ResourceRoute::TagByName(s) => RouteModel::TagByName(s@),
        }
    }
}

/// The resource a URI selects: the static URIs exactly, then the templates
/// by prefix in this order: `stash://performer/country/`,
/// `stash://performer/ethnicity/`, `stash://performer/`, `stash://studio/`,
/// `stash://tag/`, the rest of the URI being the parameter.
pub open spec fn route_of(uri: Seq<char>) -> Option<RouteModel> {
    if uri == "stash://performer/all"@ {
        Some(RouteModel::AllPerformers)
    } else if uri == "stash://performer/stats"@ {
        Some(RouteModel::PerformerStats)
    } else if uri == "stash://studio/all"@ {
        Some(RouteModel::AllStudios)
    } else if uri == "stash://studio/stats"@ {
        Some(RouteModel::StudioStats)
    } else if uri == "stash://tag/all"@ {
        Some(RouteModel::AllTags)
    } else if uri == "stash://tag/stats"@ {
        Some(RouteModel::TagStats)
    } else if starts_with(uri, "stash://performer/country/"@) {
        Some(RouteModel::PerformersByCountry(uri.skip("stash://performer/country/"@.len() as int)))
    } else if starts_with(uri, "stash://performer/ethnicity/"@) {
        Some(RouteModel::PerformersByEthnicity(uri.skip("stash://performer/ethnicity/"@.len() as int)))
    } else if starts_with(uri, "stash://performer/"@) {
        Some(RouteModel::PerformerByName(uri.skip("stash://performer/"@.len() as int)))
    } else if starts_with(uri, "stash://studio/"@) {
        Some(RouteModel::StudioByName(uri.skip("stash://studio/"@.len() as int)))
    } else if starts_with(uri, "stash://tag/"@) {
        Some(RouteModel::TagByName(uri.skip("stash://tag/"@.len() as int)))
    } else {
        None
    }
}

/// Every static resource the server lists can be read: its URI selects it.
pub proof fn law_listed_resources_route()
    ensures
        route_of("stash://performer/all"@) == Some(RouteModel::AllPerformers),
        route_of("stash://performer/stats"@) == Some(RouteModel::PerformerStats),
        route_of("stash://studio/all"@) == Some(RouteModel::AllStudios),
        route_of("stash://studio/stats"@) == Some(RouteModel::StudioStats),
        route_of("stash://tag/all"@) == Some(RouteModel::AllTags),
        route_of("stash://tag/stats"@) == Some(RouteModel::TagStats),
{
    reveal_strlit("stash://performer/all");
    reveal_strlit("stash://performer/stats");
    reveal_strlit("stash://studio/all");
    reveal_strlit("stash://studio/stats");
    reveal_strlit("stash://tag/all");
    reveal_strlit("stash://tag/stats");
    assert("stash://performer/stats"@.len() != "stash://performer/all"@.len());
    assert("stash://studio/all"@.len() != "stash://performer/all"@.len());
    assert("stash://studio/all"@.len() != "stash://performer/stats"@.len());
    assert("stash://studio/stats"@.len() != "stash://performer/all"@.len());
    assert("stash://studio/stats"@.len() != "stash://performer/stats"@.len());
    assert("stash://studio/stats"@.len() != "stash://studio/all"@.len());
    assert("stash://tag/all"@.len() != "stash://performer/all"@.len());
    assert("stash://tag/all"@.len() != "stash://performer/stats"@.len());
    assert("stash://tag/all"@.len() != "stash://studio/all"@.len());
    assert("stash://tag/all"@.len() != "stash://studio/stats"@.len());
    assert("stash://tag/stats"@.len() != "stash://performer/all"@.len());
    assert("stash://tag/stats"@.len() != "stash://performer/stats"@.len());
    assert("stash://tag/stats"@.len() != "stash://studio/all"@.len());
    assert("stash://tag/stats"@.len() != "stash://studio/stats"@.len());
    assert("stash://tag/stats"@.len() != "stash://tag/all"@.len());
}

/// `prefix + v` begins with `prefix`, and what follows it is `v`.
proof fn lemma_prefix_concat(prefix: Seq<char>, v: Seq<char>)
    ensures
        starts_with(prefix + v, prefix),
        (prefix + v).skip(prefix.len() as int) == v,
{
    assert((prefix + v).take(prefix.len() as int) =~= prefix);
    assert((prefix + v).skip(prefix.len() as int) =~= v);
}

/// Filling the country or the ethnicity template with any value selects the
/// performers of that country or of that ethnicity.
pub proof fn law_country_ethnicity_templates_route(v: Seq<char>)
    ensures
        route_of("stash://performer/country/"@ + v) == Some(RouteModel::PerformersByCountry(v)),
        route_of("stash://performer/ethnicity/"@ + v) == Some(RouteModel::PerformersByEthnicity(v)),
{
    reveal_strlit("stash://performer/all");
    reveal_strlit("stash://performer/stats");
    reveal_strlit("stash://studio/all");
    reveal_strlit("stash://studio/stats");
    reveal_strlit("stash://tag/all");
    reveal_strlit("stash://tag/stats");
    reveal_strlit("stash://performer/country/");
    reveal_strlit("stash://performer/ethnicity/");
    let c = "stash://performer/country/"@;
    let e = "stash://performer/ethnicity/"@;
    lemma_prefix_concat(c, v);
    lemma_prefix_concat(e, v);
    let ue = e + v;
    assert(ue[18] == 'e');
    assert(!starts_with(ue, c)) by {
        if starts_with(ue, c) {
            assert(ue.take(c.len() as int)[18] == c[18]);
        }
    }
}

/// Filling the performer template with a name selects that performer, for
/// any name that is not `all` or `stats` and does not begin with `country/`
/// or `ethnicity/` (those URIs select the static resources and the other
/// templates).
pub proof fn law_performer_template_routes(v: Seq<char>)
    requires
        v != "all"@,
        v != "stats"@,
        !starts_with(v, "country/"@),
        !starts_with(v, "ethnicity/"@),
    ensures
        route_of("stash://performer/"@ + v) == Some(RouteModel::PerformerByName(v)),
{
    reveal_strlit("stash://performer/all");
    reveal_strlit("stash://performer/stats");
    reveal_strlit("stash://studio/all");
    reveal_strlit("stash://studio/stats");
    reveal_strlit("stash://tag/all");
    reveal_strlit("stash://tag/stats");
    reveal_strlit("stash://performer/country/");
    reveal_strlit("stash://performer/ethnicity/");
    reveal_strlit("stash://performer/");
    reveal_strlit("all");
    reveal_strlit("stats");
    reveal_strlit("country/");
    reveal_strlit("ethnicity/");
    let p = "stash://performer/"@;
    let u = p + v;
    lemma_prefix_concat(p, v);
    assert("stash://performer/all"@ =~= p + "all"@);
    assert("stash://performer/stats"@ =~= p + "stats"@);
    assert("stash://performer/country/"@ =~= p + "country/"@);
    assert("stash://performer/ethnicity/"@ =~= p + "ethnicity/"@);
    lemma_prefix_concat(p, "all"@);
    lemma_prefix_concat(p, "stats"@);
    assert(u[8] == 'p');
    assert(u != "stash://studio/all"@ && u != "stash://studio/stats"@ && u != "stash://tag/all"@ && u
        != "stash://tag/stats"@) by {
        assert("stash://studio/all"@[8] == 's' && "stash://studio/stats"@[8] == 's');
        assert("stash://tag/all"@[8] == 't' && "stash://tag/stats"@[8] == 't');
    }
    assert(!starts_with(u, "stash://performer/country/"@)) by {
        let c = "stash://performer/country/"@;
        if starts_with(u, c) {
            assert(v.take(8) =~= u.take(c.len() as int).skip(18));
            assert(c.skip(18) =~= "country/"@);
        }
    }
    assert(!starts_with(u, "stash://performer/ethnicity/"@)) by {
        let e = "stash://performer/ethnicity/"@;
        if starts_with(u, e) {
            assert(v.take(10) =~= u.take(e.len() as int).skip(18));
            assert(e.skip(18) =~= "ethnicity/"@);
        }
    }
}

/// Filling the studio or the tag template with a name selects that studio or
/// tag, for any name but `all` and `stats` (those URIs select the static
/// resources).
pub proof fn law_studio_tag_templates_route(v: Seq<char>)
    requires
        v != "all"@,
        v != "stats"@,
    ensures
        route_of("stash://studio/"@ + v) == Some(RouteModel::StudioByName(v)),
        route_of("stash://tag/"@ + v) == Some(RouteModel::TagByName(v)),
{
    reveal_strlit("stash://performer/all");
    reveal_strlit("stash://performer/stats");
    reveal_strlit("stash://studio/all");
    reveal_strlit("stash://studio/stats");
    reveal_strlit("stash://tag/all");
    reveal_strlit("stash://tag/stats");
    reveal_strlit("stash://performer/country/");
    reveal_strlit("stash://performer/ethnicity/");
    reveal_strlit("stash://performer/");
    reveal_strlit("stash://studio/");
    reveal_strlit("stash://tag/");
    reveal_strlit("all");
    reveal_strlit("stats");
    let s = "stash://studio/"@;
    let t = "stash://tag/"@;
    let us = s + v;
    let ut = t + v;
    lemma_prefix_concat(s, v);
    lemma_prefix_concat(t, v);
    assert("stash://studio/all"@ =~= s + "all"@);
    assert("stash://studio/stats"@ =~= s + "stats"@);
    assert("stash://tag/all"@ =~= t + "all"@);
    assert("stash://tag/stats"@ =~= t + "stats"@);
    lemma_prefix_concat(s, "all"@);
    lemma_prefix_concat(s, "stats"@);
    lemma_prefix_concat(t, "all"@);
    lemma_prefix_concat(t, "stats"@);
    assert(us[8] == 's' && ut[8] == 't');
    assert("stash://performer/all"@[8] == 'p' && "stash://performer/stats"@[8] == 'p');
    assert("stash://performer/"@[8] == 'p');
    assert(!starts_with(us, "stash://performer/country/"@) && !starts_with(ut, "stash://performer/country/"@)) by {
        let c = "stash://performer/country/"@;
        if starts_with(us, c) {
            assert(us.take(c.len() as int)[8] == c[8]);
        }
        if starts_with(ut, c) {
            assert(ut.take(c.len() as int)[8] == c[8]);
        }
    }
    assert(!starts_with(us, "stash://performer/ethnicity/"@) && !starts_with(ut, "stash://performer/ethnicity/"@)) by {
        let e = "stash://performer/ethnicity/"@;
        if starts_with(us, e) {
            assert(us.take(e.len() as int)[8] == e[8]);
        }
        if starts_with(ut, e) {
            assert(ut.take(e.len() as int)[8] == e[8]);
        }
    }
    assert(!starts_with(us, "stash://performer/"@) && !starts_with(ut, "stash://performer/"@)) by {
        let p = "stash://performer/"@;
        if starts_with(us, p) {
            assert(us.take(p.len() as int)[8] == p[8]);
        }
        if starts_with(ut, p) {
            assert(ut.take(p.len() as int)[8] == p[8]);
        }
    }
    assert(!starts_with(ut, s)) by {
        if starts_with(ut, s) {
            assert(ut.take(s.len() as int)[8] == s[8]);
        }
    }
}

/// The rest of `s` after `prefix`, when `s` begins with it (`str::strip_prefix`).
fn strip_prefix(s: &Vec<char>, prefix: &str) -> (r: Option<String>)
    ensures
        r matches Some(rest) ==> starts_with(s@, prefix@) && rest@ == s@.skip(prefix@.len() as int),
        r is None ==> !starts_with(s@, prefix@),
{
    if has_prefix(s, prefix) {
        let n = prefix.unicode_len();
        let rest = string_of_range(s, n, s.len());
        assert(s@.subrange(n as int, s@.len() as int) =~= s@.skip(n as int));
        Some(rest)
    } else {
        None
    }
}

/// The resource a URI selects; any other URI is refused with
/// `unknown resource URI '<uri>'`.
pub fn route_resource(uri: &str) -> (r: Result<ResourceRoute, InvalidRequest>)
    ensures
        match route_of(uri@) {
            Some(m) => r matches Ok(route) && route.model() == m,
            None => r matches Err(e) && e.message@ == "unknown resource URI '"@ + uri@ + "'"@,
        },
{
    if str_eq(uri, "stash://performer/all") {
        return Ok(ResourceRoute::AllPerformers);
    }
    if str_eq(uri, "stash://performer/stats") {
        return Ok(ResourceRoute::PerformerStats);
    }
    if str_eq(uri, "stash://studio/all") {
        return Ok(ResourceRoute::AllStudios);
    }
    if str_eq(uri, "stash://studio/stats") {
        return Ok(ResourceRoute::StudioStats);
    }
    if str_eq(uri, "stash://tag/all") {
        return Ok(ResourceRoute::AllTags);
    }
    if str_eq(uri, "stash://tag/stats") {
        return Ok(ResourceRoute::TagStats);
    }
    let chars = chars_of(uri);
    if let Some(rest) = strip_prefix(&chars, "stash://performer/country/") {
        return Ok(ResourceRoute::PerformersByCountry(rest));
    }
    if let Some(rest) = strip_prefix(&chars, "stash://performer/ethnicity/") {
        return Ok(ResourceRoute::PerformersByEthnicity(rest));
    }
    if let Some(rest) = strip_prefix(&chars, "stash://performer/") {
        return Ok(ResourceRoute::PerformerByName(rest));
    }
    if let Some(rest) = strip_prefix(&chars, "stash://studio/") {
        return Ok(ResourceRoute::StudioByName(rest));
    }
    if let Some(rest) = strip_prefix(&chars, "stash://tag/") {
        return Ok(ResourceRoute::TagByName(rest));
    }
    Err(InvalidRequest::quoted("unknown resource URI '", uri))
}

// ── Statistics ──────────────────────────────────────────────────────────────

/// How many elements satisfy `p`.
pub open spec fn count_where<A>(s: Seq<A>, p: spec_fn(A) -> bool) -> nat
    decreases s.len(),
{
    if s.len() == 0 {
        0
    } else {
        count_where(s.drop_last(), p) + if p(s.last()) {
            1nat
        } else {
            0nat
        }
    }
}

/// The values `f` finds, in order.
pub open spec fn present<A>(s: Seq<A>, f: spec_fn(A) -> Option<i64>) -> Seq<i64>
    decreases s.len(),
{
    if s.len() == 0 {
        Seq::empty()
    } else {
        let prev = present(s.drop_last(), f);
        match f(s.last()) {
            Some(v) => prev.push(v),
            None => prev,
        }
    }
}

/// The texts `f` finds, in order.
pub open spec fn present_texts<A>(s: Seq<A>, f: spec_fn(A) -> Option<String>) -> Seq<Seq<char>>
    decreases s.len(),
{
    if s.len() == 0 {
        Seq::empty()
    } else {
        let prev = present_texts(s.drop_last(), f);
        match f(s.last()) {
            Some(v) => prev.push(v@),
            None => prev,
        }
    }
}

// ── Queries ─────────────────────────────────────────────────────────────────

/// What a resource asks the Stash server for.
#[derive(Debug)]
pub enum ResourceQuery {
    /// Performers matching a performer filter.
    Performers(JsonValue),
    /// The performer with this exact name.
    PerformerByName(String),
    /// Studios matching a studio filter.
    Studios(JsonValue),
    /// The studio with this name.
    StudioByName(String),
    /// Tags matching a tag filter.
    Tags(JsonValue),
    /// The tag with this name.
    TagByName(String),
}

/// The mathematical form of a [`ResourceQuery`].
pub enum QueryModel {
    Performers(JsonModel),
    PerformerByName(Seq<char>),
    Studios(JsonModel),
    StudioByName(Seq<char>),
    Tags(JsonModel),
    TagByName(Seq<char>),
}

impl ResourceQuery {
    pub open spec fn model(&self) -> QueryModel {
        match self {
            ResourceQuery::Performers(f) => QueryModel::Performers(f.model()),
            ResourceQuery::PerformerByName(n) => QueryModel::PerformerByName(n@),
            ResourceQuery::Studios(f) => QueryModel::Studios(f.model()),
            ResourceQuery::StudioByName(n) => QueryModel::StudioByName(n@),
            ResourceQuery::Tags(f) => QueryModel::Tags(f.model()),
            ResourceQuery::TagByName(n) => QueryModel::TagByName(n@),
        }
    }
}

/// The members of a filter restricted to favorites (member `key` set to
/// `true`) when `yes`, of an empty filter otherwise.
pub open spec fn favorites_fields(key: Seq<char>, yes: bool) -> Seq<(Seq<char>, JsonModel)> {
    if yes {
        upsert(Seq::empty(), key, JsonModel::Bool(true))
    } else {
        Seq::empty()
    }
}

/// What each resource asks for. Every listing, summary and template of
/// performers, studios and tags follows the configured favorites setting:
/// restricted to favorites when it is on, everything when it is off.
pub open spec fn resource_query_model(route: RouteModel, favorites_only: bool) -> QueryModel {
    match route {
        RouteModel::AllPerformers => QueryModel::Performers(
            JsonModel::Object(favorites_fields("filter_favorites"@, favorites_only)),
        ),
        RouteModel::PerformerStats => QueryModel::Performers(
            JsonModel::Object(favorites_fields("filter_favorites"@, favorites_only)),
        ),
        RouteModel::AllStudios => QueryModel::Studios(JsonModel::Object(favorites_fields("favorite"@, favorites_only))),
        RouteModel::StudioStats => QueryModel::Studios(JsonModel::Object(favorites_fields("favorite"@, favorites_only))),
        RouteModel::AllTags => QueryModel::Tags(JsonModel::Object(favorites_fields("favorite"@, favorites_only))),
        RouteModel::TagStats => QueryModel::Tags(JsonModel::Object(favorites_fields("favorite"@, favorites_only))),
        RouteModel::PerformersByCountry(c) => QueryModel::Performers(
            JsonModel::Object(
                upsert(
                    favorites_fields("filter_favorites"@, favorites_only),
                    "country"@,
                    string_criterion_model(c, "EQUALS"@),
                ),
            ),
        ),
        RouteModel::PerformersByEthnicity(e) => QueryModel::Performers(
            JsonModel::Object(
                upsert(
                    favorites_fields("filter_favorites"@, favorites_only),
                    "ethnicity"@,
                    string_criterion_model(e, "EQUALS"@),
                ),
            ),
        ),
        RouteModel::PerformerByName(n) => QueryModel::PerformerByName(n),
        RouteModel::StudioByName(n) => QueryModel::StudioByName(n),
        RouteModel::TagByName(n) => QueryModel::TagByName(n),
    }
}

/// The country and ethnicity templates each constrain their own field: the
/// query for the country template filled with `v` is a performer filter
/// whose `country` member is `{"value": v, "modifier": "EQUALS"}` and which has
/// no `ethnicity` member, and symmetrically for the ethnicity template; both
/// are restricted to favorites exactly when the setting is on.
pub proof fn law_templates_constrain_their_field(v: Seq<char>, favorites_only: bool)
    ensures
        resource_query_model(RouteModel::PerformersByCountry(v), favorites_only) matches QueryModel::Performers(f)
            && field(f, "country"@) == Some(
            JsonModel::Object(seq![("value"@, jstr(v)), ("modifier"@, jstr("EQUALS"@))]),
        ) && field(f, "ethnicity"@) is None && field(f, "filter_favorites"@) == if favorites_only {
            Some(JsonModel::Bool(true))
        } else {
            None
        },
        resource_query_model(RouteModel::PerformersByEthnicity(v), favorites_only) matches QueryModel::Performers(f)
            && field(f, "ethnicity"@) == Some(
            JsonModel::Object(seq![("value"@, jstr(v)), ("modifier"@, jstr("EQUALS"@))]),
        ) && field(f, "country"@) is None && field(f, "filter_favorites"@) == if favorites_only {
            Some(JsonModel::Bool(true))
        } else {
            None
        },
{
    reveal_strlit("filter_favorites");
    reveal_strlit("country");
    reveal_strlit("ethnicity");
    assert("filter_favorites"@[0] != "country"@[0]);
    assert("filter_favorites"@[0] != "ethnicity"@[0]);
    assert("country"@[0] != "ethnicity"@[0]);
    let e = Seq::<(Seq<char>, JsonModel)>::empty();
    let base = favorites_fields("filter_favorites"@, favorites_only);
    crate::json::lemma_member_none(e, "country"@);
    crate::json::lemma_member_none(e, "ethnicity"@);
    crate::json::lemma_member_none(e, "filter_favorites"@);
    if favorites_only {
        lemma_upsert(e, "filter_favorites"@, JsonModel::Bool(true));
        law_filter_set_then_read(e, "filter_favorites"@, JsonModel::Bool(true), "country"@);
        law_filter_set_then_read(e, "filter_favorites"@, JsonModel::Bool(true), "ethnicity"@);
    }
    assert(keys_distinct(base));
    let c = string_criterion_model(v, "EQUALS"@);
    lemma_upsert(base, "country"@, c);
    law_filter_set_then_read(base, "country"@, c, "country"@);
    law_filter_set_then_read(base, "country"@, c, "ethnicity"@);
    law_filter_set_then_read(base, "country"@, c, "filter_favorites"@);
    lemma_upsert(base, "ethnicity"@, c);
    law_filter_set_then_read(base, "ethnicity"@, c, "ethnicity"@);
    law_filter_set_then_read(base, "ethnicity"@, c, "country"@);
    law_filter_set_then_read(base, "ethnicity"@, c, "filter_favorites"@);
}

/// Every listing and summary resource asks for all entities of its kind,
/// restricted to favorites exactly when the setting is on, and for nothing
/// else; the name templates look the named entity up.
pub proof fn law_resource_queries_follow_favorites(favorites_only: bool, name: Seq<char>)
    ensures
        resource_query_model(RouteModel::AllPerformers, favorites_only) == QueryModel::Performers(
            JsonModel::Object(
                if favorites_only {
                    seq![("filter_favorites"@, JsonModel::Bool(true))]
                } else {
                    Seq::empty()
                },
            ),
        ),
        resource_query_model(RouteModel::PerformerStats, favorites_only) == QueryModel::Performers(
            JsonModel::Object(
                if favorites_only {
                    seq![("filter_favorites"@, JsonModel::Bool(true))]
                } else {
                    Seq::empty()
                },
            ),
        ),
        resource_query_model(RouteModel::AllStudios, favorites_only) == QueryModel::Studios(
            JsonModel::Object(
                if favorites_only {
                    seq![("favorite"@, JsonModel::Bool(true))]
                } else {
                    Seq::empty()
                },
            ),
        ),
        resource_query_model(RouteModel::StudioStats, favorites_only) == QueryModel::Studios(
            JsonModel::Object(
                if favorites_only {
                    seq![("favorite"@, JsonModel::Bool(true))]
                } else {
                    Seq::empty()
                },
            ),
        ),
        resource_query_model(RouteModel::AllTags, favorites_only) == QueryModel::Tags(
            JsonModel::Object(
                if favorites_only {
                    seq![("favorite"@, JsonModel::Bool(true))]
                } else {
                    Seq::empty()
                },
            ),
        ),
        resource_query_model(RouteModel::TagStats, favorites_only) == QueryModel::Tags(
            JsonModel::Object(
                if favorites_only {
                    seq![("favorite"@, JsonModel::Bool(true))]
                } else {
                    Seq::empty()
                },
            ),
        ),
        resource_query_model(RouteModel::PerformerByName(name), favorites_only) == QueryModel::PerformerByName(name),
        resource_query_model(RouteModel::StudioByName(name), favorites_only) == QueryModel::StudioByName(name),
        resource_query_model(RouteModel::TagByName(name), favorites_only) == QueryModel::TagByName(name),
{
    let e = Seq::<(Seq<char>, JsonModel)>::empty();
    assert(upsert(e, "filter_favorites"@, JsonModel::Bool(true)) =~= seq![("filter_favorites"@, JsonModel::Bool(true))]);
    assert(upsert(e, "favorite"@, JsonModel::Bool(true)) =~= seq![("favorite"@, JsonModel::Bool(true))]);
}

/// What reading the resource `route` asks the Stash server for.
pub fn resource_query(route: ResourceRoute, favorites_only: bool) -> (r: ResourceQuery)
    ensures
        r.model() == resource_query_model(route.model(), favorites_only),
{
    match route {
        ResourceRoute::AllPerformers => ResourceQuery::Performers(
            PerformerFilterBuilder::new().favorites_only(favorites_only).build(),
        ),
        ResourceRoute::PerformerStats => ResourceQuery::Performers(
            PerformerFilterBuilder::new().favorites_only(favorites_only).build(),
        ),
        ResourceRoute::AllStudios => ResourceQuery::Studios(StudioFilterBuilder::new().favorites_only(favorites_only).build()),
        ResourceRoute::StudioStats => ResourceQuery::Studios(StudioFilterBuilder::new().favorites_only(favorites_only).build()),
        ResourceRoute::AllTags => ResourceQuery::Tags(TagFilterBuilder::new().favorites_only(favorites_only).build()),
        ResourceRoute::TagStats => ResourceQuery::Tags(TagFilterBuilder::new().favorites_only(favorites_only).build()),
        ResourceRoute::PerformersByCountry(c) => ResourceQuery::Performers(
            PerformerFilterBuilder::new().favorites_only(favorites_only).country(c.as_str(), "EQUALS").build(),
        ),
        ResourceRoute::PerformersByEthnicity(e) => ResourceQuery::Performers(
            PerformerFilterBuilder::new().favorites_only(favorites_only).ethnicity(e.as_str(), "EQUALS").build(),
        ),
        ResourceRoute::PerformerByName(n) => ResourceQuery::PerformerByName(n),
        ResourceRoute::StudioByName(n) => ResourceQuery::StudioByName(n),
        ResourceRoute::TagByName(n) => ResourceQuery::TagByName(n),
    }
}

/// The sum of a sequence of integers.
pub open spec fn total(s: Seq<i64>) -> int
    decreases s.len(),
{
    if s.len() == 0 {
        0
    } else {
        total(s.drop_last()) + s.last()
    }
}

/// The smallest element of a non-empty sequence.
pub open spec fn smallest(s: Seq<i64>) -> i64
    decreases s.len(),
{
    if s.len() <= 1 {
        s[0]
    } else if s.last() < smallest(s.drop_last()) {
        s.last()
    } else {
        smallest(s.drop_last())
    }
}

/// The largest element of a non-empty sequence.
pub open spec fn largest(s: Seq<i64>) -> i64
    decreases s.len(),
{
    if s.len() <= 1 {
        s[0]
    } else if s.last() > largest(s.drop_last()) {
        s.last()
    } else {
        largest(s.drop_last())
    }
}

/// The smallest and the largest value of a non-empty list are values of the
/// list, they bound every value, and the sum lies between `count` times the
/// smallest and `count` times the largest.
pub proof fn law_summary_bounds(values: Seq<i64>)
    requires
        values.len() > 0,
    ensures
        values.contains(smallest(values)),
        values.contains(largest(values)),
        forall|i: int| 0 <= i < values.len() ==> smallest(values) <= #[trigger] values[i] <= largest(values),
        smallest(values) * values.len() <= total(values) <= largest(values) * values.len(),
    decreases values.len(),
{
    if values.len() == 1 {
        assert(values[0] == values.last());
        assert(values.drop_last() =~= Seq::<i64>::empty());
        assert(total(values.drop_last()) == 0);
    } else {
        let prev = values.drop_last();
        law_summary_bounds(prev);
        let lo = smallest(prev);
        let hi = largest(prev);
        let n = prev.len();
        assert(values[values.len() - 1] == values.last());
        assert forall|i: int| 0 <= i < values.len() implies smallest(values) <= #[trigger] values[i] <= largest(values) by {
            if i < values.len() - 1 {
                assert(values[i] == prev[i]);
            }
        }
        if prev.contains(lo) {
            let j = choose|j: int| 0 <= j < prev.len() && prev[j] == lo;
            assert(values[j] == lo);
        }
        if prev.contains(hi) {
            let j = choose|j: int| 0 <= j < prev.len() && prev[j] == hi;
            assert(values[j] == hi);
        }
        let x = values.last();
        let m = smallest(values);
        let mx = largest(values);
        assert(m <= lo && m <= x && mx >= hi && mx >= x);
        assert(m * n <= lo * n) by (nonlinear_arith)
            requires
                m <= lo,
                n >= 0,
        ;
        assert(hi * n <= mx * n) by (nonlinear_arith)
            requires
                hi <= mx,
                n >= 0,
        ;
        assert(m * (n + 1) == m * n + m && mx * (n + 1) == mx * n + mx) by (nonlinear_arith);
        assert(total(values) == total(prev) + x);
        assert(values.len() == n + 1);
    }
}

/// Sum, smallest and largest value, and number of values of a non-empty list
/// (the average is the sum divided by the number).
#[derive(Debug, Clone, Copy, PartialEq, Eq)]
pub struct IntSummary {
    pub sum: i128,
    pub min: i64,
    pub max: i64,
    pub count: usize,
}

/// The summary of `values`, or `None` when there are none.
pub open spec fn summarizes(r: Option<IntSummary>, values: Seq<i64>) -> bool {
    if values.len() == 0 {
        r is None
    } else {
        r matches Some(s) && s.sum == total(values) && s.min == smallest(values) && s.max == largest(values)
            && s.count == values.len()
    }
}

/// The summary of a list of integers.
pub fn summarize(values: &Vec<i64>) -> (r: Option<IntSummary>)
    ensures
        summarizes(r, values@),
{
    if values.len() == 0 {
        return None;
    }
    let mut sum: i128 = values[0] as i128;
    let mut min: i64 = values[0];
    let mut max: i64 = values[0];
    let mut i: usize = 1;
    assert(values@.take(1).drop_last() =~= Seq::<i64>::empty());
    assert(values@.take(1).last() == values@[0]);
    assert(total(values@.take(1).drop_last()) == 0);
    assert(total(values@.take(1)) == values@[0]);
    while i < values.len()
        invariant
            1 <= i <= values@.len(),
            sum == total(values@.take(i as int)),
            min == smallest(values@.take(i as int)),
            max == largest(values@.take(i as int)),
            -0x8000_0000_0000_0000 * i <= sum <= 0x7fff_ffff_ffff_ffff * i,
        decreases values@.len() - i,
    {
        let v = values[i];
        assert(values@.take(i + 1).drop_last() =~= values@.take(i as int));
        assert(values@.take(i + 1).last() == v);
        assert(i < 0x1_0000_0000_0000_0000);
        assert(-0x8000_0000_0000_0000 * (i + 1) <= sum + v <= 0x7fff_ffff_ffff_ffff * (i + 1)
            && 0x7fff_ffff_ffff_ffff * (i + 1) < 0x8000_0000_0000_0000_0000_0000_0000_0000
            && -0x8000_0000_0000_0000 * (i + 1) > -0x8000_0000_0000_0000_0000_0000_0000_0001)
            by (nonlinear_arith)
            requires
                -0x8000_0000_0000_0000 * i <= sum <= 0x7fff_ffff_ffff_ffff * i,
                i < 0x1_0000_0000_0000_0000,
                -0x8000_0000_0000_0000 <= v <= 0x7fff_ffff_ffff_ffff,
        ;
        sum = sum + v as i128;
        if v < min {
            min = v;
        }
        if v > max {
            max = v;
        }
        i += 1;
    }
    assert(values@.take(values@.len() as int) =~= values@);
    Some(IntSummary { sum, min, max, count: values.len() })
}

/// The heights of the performers, where known.
pub open spec fn heights(ps: Seq<Performer>) -> Seq<i64> {
    present(ps, |p: Performer| p.height_cm)
}

/// The weights of the performers, where known.
pub open spec fn weights(ps: Seq<Performer>) -> Seq<i64> {
    present(ps, |p: Performer| p.weight)
}

/// The countries of the performers, where known.
pub open spec fn countries(ps: Seq<Performer>) -> Seq<Seq<char>> {
    present_texts(ps, |p: Performer| p.country)
}

/// The ethnicities of the performers, where known.
pub open spec fn ethnicities(ps: Seq<Performer>) -> Seq<Seq<char>> {
    present_texts(ps, |p: Performer| p.ethnicity)
}

/// The statistics of the performer summary resource.
#[derive(Debug)]
pub struct PerformerStats {
    pub total_performers: usize,
    pub country_distribution: StrMap<usize>,
    pub ethnicity_distribution: StrMap<usize>,
    pub height: Option<IntSummary>,
    pub weight: Option<IntSummary>,
}

/// Country and ethnicity distributions and height and weight summaries of the performers.
pub fn performer_stats(performers: &[Performer]) -> (r: PerformerStats)
    ensures
        r.total_performers == performers@.len(),
        r.country_distribution.wf(),
        counts_view(r.country_distribution@) == tally(countries(performers@)),
        r.ethnicity_distribution.wf(),
        counts_view(r.ethnicity_distribution@) == tally(ethnicities(performers@)),
        summarizes(r.height, heights(performers@)),
        summarizes(r.weight, weights(performers@)),
{
    let mut cs: Vec<String> = Vec::new();
    let mut es: Vec<String> = Vec::new();
    let mut hs: Vec<i64> = Vec::new();
    let mut ws: Vec<i64> = Vec::new();
    let mut i: usize = 0;
    assert(performers@.take(0) =~= Seq::<Performer>::empty());
    while i < performers.len()
        invariant
            i <= performers@.len(),
            cs@.map_values(|s: String| s@) == countries(performers@.take(i as int)),
            es@.map_values(|s: String| s@) == ethnicities(performers@.take(i as int)),
            hs@ == heights(performers@.take(i as int)),
            ws@ == weights(performers@.take(i as int)),
        decreases performers@.len() - i,
    {
        let p = &performers[i];
        assert(performers@.take(i + 1).drop_last() =~= performers@.take(i as int));
        assert(performers@.take(i + 1).last() == performers@[i as int]);
        match &p.country {
            Some(c) => {
                let ghost before = cs@;
                cs.push(c.clone());
                assert(cs@.map_values(|s: String| s@) =~= before.map_values(|s: String| s@).push(c@));
            },
            None => {},
        }
        match &p.ethnicity {
            Some(e) => {
                let ghost before = es@;
                es.push(e.clone());
                assert(es@.map_values(|s: String| s@) =~= before.map_values(|s: String| s@).push(e@));
            },
            None => {},
        }
        match p.height_cm {
            Some(h) => hs.push(h),
            None => {},
        }
        match p.weight {
            Some(w) => ws.push(w),
            None => {},
        }
        i += 1;
    }
    assert(performers@.take(performers@.len() as int) =~= performers@);
    PerformerStats {
        total_performers: performers.len(),
        country_distribution: count_names(&cs),
        ethnicity_distribution: count_names(&es),
        height: summarize(&hs),
        weight: summarize(&ws),
    }
}

/// The scene counts of the studios, where known.
pub open spec fn studio_scene_counts(ss: Seq<Studio>) -> Seq<i64> {
    present(ss, |s: Studio| s.scene_count)
}

/// The ratings of the studios, where known.
pub open spec fn studio_ratings(ss: Seq<Studio>) -> Seq<i64> {
    present(ss, |s: Studio| s.rating100)
}

/// The number of studios with a parent studio.
pub open spec fn studios_with_parent(ss: Seq<Studio>) -> nat {
    count_where(ss, |s: Studio| s.parent_studio is Some)
}

/// The number of studios with at least one child studio.
pub open spec fn studios_with_children(ss: Seq<Studio>) -> nat {
    count_where(ss, |s: Studio| s.child_studios matches Some(c) && c@.len() > 0)
}

/// The statistics of the studio summary resource.
#[derive(Debug, Clone, Copy, PartialEq, Eq)]
pub struct StudioStats {
    pub total_studios: usize,
    pub total_scenes: i128,
    pub studios_with_parent: usize,
    pub studios_with_children: usize,
    pub ratings: Option<IntSummary>,
}

/// Scene total, hierarchy counts and rating summary of the studios.
pub fn studio_stats(studios: &[Studio]) -> (r: StudioStats)
    ensures
        r.total_studios == studios@.len(),
        r.total_scenes == total(studio_scene_counts(studios@)),
        r.studios_with_parent == studios_with_parent(studios@),
        r.studios_with_children == studios_with_children(studios@),
        summarizes(r.ratings, studio_ratings(studios@)),
{
    let mut counts: Vec<i64> = Vec::new();
    let mut ratings: Vec<i64> = Vec::new();
    let mut with_parent: usize = 0;
    let mut with_children: usize = 0;
    let mut i: usize = 0;
    assert(studios@.take(0) =~= Seq::<Studio>::empty());
    while i < studios.len()
        invariant
            i <= studios@.len(),
            counts@ == studio_scene_counts(studios@.take(i as int)),
            ratings@ == studio_ratings(studios@.take(i as int)),
            with_parent == studios_with_parent(studios@.take(i as int)),
            with_children == studios_with_children(studios@.take(i as int)),
            with_parent <= i,
            with_children <= i,
        decreases studios@.len() - i,
    {
        let s = &studios[i];
        assert(studios@.take(i + 1).drop_last() =~= studios@.take(i as int));
        assert(studios@.take(i + 1).last() == studios@[i as int]);
        match s.scene_count {
            Some(c) => counts.push(c),
            None => {},
        }
        match s.rating100 {
            Some(v) => ratings.push(v),
            None => {},
        }
        if s.parent_studio.is_some() {
            with_parent += 1;
        }
        match &s.child_studios {
            Some(c) => {
                if c.len() > 0 {
                    with_children += 1;
                }
            },
            None => {},
        }
        i += 1;
    }
    assert(studios@.take(studios@.len() as int) =~= studios@);
    let total_scenes = match summarize(&counts) {
        Some(s) => s.sum,
        None => 0,
    };
    StudioStats {
        total_studios: studios.len(),
        total_scenes,
        studios_with_parent: with_parent,
        studios_with_children: with_children,
        ratings: summarize(&ratings),
    }
}

/// The scene counts of the tags, where known.
pub open spec fn tag_scene_counts(ts: Seq<Tag>) -> Seq<i64> {
    present(ts, |t: Tag| t.scene_count)
}

/// The marker counts of the tags, where known.
pub open spec fn tag_marker_counts(ts: Seq<Tag>) -> Seq<i64> {
    present(ts, |t: Tag| t.scene_marker_count)
}

/// The number of tags with at least one parent tag.
pub open spec fn tags_with_parents(ts: Seq<Tag>) -> nat {
    count_where(ts, |t: Tag| t.parents matches Some(p) && p@.len() > 0)
}

/// The number of tags with at least one child tag.
pub open spec fn tags_with_children(ts: Seq<Tag>) -> nat {
    count_where(ts, |t: Tag| t.children matches Some(c) && c@.len() > 0)
}

/// The statistics of the tag summary resource.
#[derive(Debug, Clone, Copy, PartialEq, Eq)]
pub struct TagStats {
    pub total_tags: usize,
    pub total_scene_associations: i128,
    pub total_marker_associations: i128,
    pub tags_with_parents: usize,
    pub tags_with_children: usize,
}

/// Association totals and hierarchy counts of the tags.
pub fn tag_stats(tags: &[Tag]) -> (r: TagStats)
    ensures
        r.total_tags == tags@.len(),
        r.total_scene_associations == total(tag_scene_counts(tags@)),
        r.total_marker_associations == total(tag_marker_counts(tags@)),
        r.tags_with_parents == tags_with_parents(tags@),
        r.tags_with_children == tags_with_children(tags@),
{
    let mut scenes: Vec<i64> = Vec::new();
    let mut markers: Vec<i64> = Vec::new();
    let mut with_parents: usize = 0;
    let mut with_children: usize = 0;
    let mut i: usize = 0;
    assert(tags@.take(0) =~= Seq::<Tag>::empty());
    while i < tags.len()
        invariant
            i <= tags@.len(),
            scenes@ == tag_scene_counts(tags@.take(i as int)),
            markers@ == tag_marker_counts(tags@.take(i as int)),
            with_parents == tags_with_parents(tags@.take(i as int)),
            with_children == tags_with_children(tags@.take(i as int)),
            with_parents <= i,
            with_children <= i,
        decreases tags@.len() - i,
    {
        let t = &tags[i];
        assert(tags@.take(i + 1).drop_last() =~= tags@.take(i as int));
        assert(tags@.take(i + 1).last() == tags@[i as int]);
        match t.scene_count {
            Some(c) => scenes.push(c),
            None => {},
        }
        match t.scene_marker_count {
            Some(c) => markers.push(c),
            None => {},
        }
        match &t.parents {
            Some(p) => {
                if p.len() > 0 {
                    with_parents += 1;
                }
            },
            None => {},
        }
        match &t.children {
            Some(c) => {
                if c.len() > 0 {
                    with_children += 1;
                }
            },
            None => {},
        }
        i += 1;
    }
    assert(tags@.take(tags@.len() as int) =~= tags@);
    let total_scene_associations = match summarize(&scenes) {
        Some(s) => s.sum,
        None => 0,
    };
    let total_marker_associations = match summarize(&markers) {
        Some(s) => s.sum,
        None => 0,
    };
    TagStats {
        total_tags: tags.len(),
        total_scene_associations,
        total_marker_associations,
        tags_with_parents: with_parents,
        tags_with_children: with_children,
    }
}

} // verus!
