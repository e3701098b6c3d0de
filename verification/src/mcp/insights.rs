//! The decisions of the tools that ask the Stash server several things in
//! turn. The server is asked by the caller; each answer comes back here, and
//! what to ask next, or what to report, is decided from it.

use vstd::prelude::*;
use crate::error::{describes, StashError};
use crate::json::{JsonModel, JsonValue};
use crate::mcp::tools::{
    arg_bool, arg_str, bool_arg, first_n, known_countries, lowered_names,
    positions_unequal, rating_breakdown, similar_filter_fields, similar_indices, similar_performers_filter,
    sorted_by_count, str_arg, top_rated_indices, top_rated_positions, top_tags, RatingBreakdown,
};
use crate::stash::client::{count_names, counts_view, count_rated_in, rating_sum_count, ratings, scene_tag_names, sum, tag_frequency, tally};
use crate::stash::types::{Performer, Scene};
use crate::strmap::StrMap;
use crate::text::{lowercase, owned};

verus! {

/// The error text of a call without the performer's name.
pub const MISSING_PERFORMER_NAME: &'static str = "missing required argument 'performer_name'";

/// The `performer_name` argument of a tool call; a call without it is answered
/// with [`MISSING_PERFORMER_NAME`].
pub fn performer_name_arg(args: &JsonValue) -> (r: Result<String, String>)
    ensures
        match str_arg(args.model(), "performer_name"@) {
            Some(n) => r matches Ok(name) && name@ == n,
            None => r matches Err(t) && t@ == MISSING_PERFORMER_NAME@,
        },
{
    match arg_str(args, "performer_name") {
        Some(n) => Ok(owned(n)),
        None => Err(owned(MISSING_PERFORMER_NAME)),
    }
}

/// What a lookup of the `kind` named `name` gave; otherwise the error text
/// answered: `<kind> '<name>' not found`, or the message of the failure.
pub fn found_or_error<T>(kind: &str, name: &str, outcome: Result<Option<T>, StashError>) -> (r: Result<T, String>)
    ensures
        match outcome {
            Ok(Some(x)) => r == Ok::<T, String>(x),
            Ok(None) => r matches Err(t) && t@ == kind@ + " '"@ + name@ + "' not found"@,
            Err(e) => r matches Err(t) && describes(&e, t@),
        },
{
    match outcome {
        Ok(Some(x)) => Ok(x),
        Ok(None) => {
            let mut t = owned(kind);
            t.append(" '");
            t.append(name);
            t.append("' not found");
            Err(t)
        },
        Err(e) => Err(e.to_string()),
    }
}

/// The items of a listing, or none when asking for them failed.
pub fn or_empty<T>(outcome: Result<Vec<T>, StashError>) -> (r: Vec<T>)
    ensures
        outcome matches Ok(items) ==> r == items,
        outcome is Err ==> r@.len() == 0,
{
    match outcome {
        Ok(items) => items,
        Err(_) => Vec::new(),
    }
}

// ── advanced_performer_analysis ─────────────────────────────────────────────

/// What an `advanced_performer_analysis` call asks for.
#[derive(Debug)]
pub struct AnalysisPlan {
    /// The performer to analyze.
    pub name: String,
    /// Whether to look for similar performers (default: yes).
    pub include_similar: bool,
    /// Whether to break the ratings down by band (default: no).
    pub deep: bool,
}

/// The plan of an `advanced_performer_analysis` call; a call without the
/// performer's name is answered with [`MISSING_PERFORMER_NAME`].
pub fn analysis_plan(args: &JsonValue) -> (r: Result<AnalysisPlan, String>)
    ensures
        match str_arg(args.model(), "performer_name"@) {
            Some(n) => r matches Ok(plan) && plan.name@ == n && plan.include_similar == bool_arg(
                args.model(),
                "include_similar"@,
                true,
            ) && plan.deep == bool_arg(args.model(), "deep_scene_analysis"@, false),
            None => r matches Err(t) && t@ == MISSING_PERFORMER_NAME@,
        },
{
    let name = performer_name_arg(args)?;
    let include_similar = arg_bool(args, "include_similar", true);
    let deep = arg_bool(args, "deep_scene_analysis", false);
    Ok(AnalysisPlan { name, include_similar, deep })
}

/// The performer filter to ask for similar performers with, when the plan
/// includes them.
pub fn similar_query(plan: &AnalysisPlan, performer: &Performer) -> (r: Option<JsonValue>)
    ensures
        plan.include_similar ==> (r matches Some(f) && f.model() == JsonModel::Object(similar_filter_fields(*performer))),
        !plan.include_similar ==> r is None,
{
    if plan.include_similar {
        Some(similar_performers_filter(performer))
    } else {
        None
    }
}

/// What the analysis of a performer reports, positions referring to the
/// scenes and candidates it was computed from.
#[derive(Debug)]
pub struct PerformerAnalysis {
    pub total_scenes: usize,
    /// Sum and number of the ratings present (their average is the quotient).
    pub rating_sum: i128,
    pub rated_scenes: usize,
    /// Positions of the first five scenes rated above 80.
    pub top_rated: Vec<usize>,
    /// How often each tag occurs across the scenes.
    pub tag_counts: StrMap<usize>,
    /// The ten most frequent tags, most frequent first.
    pub top_tags: Vec<(String, usize)>,
    /// Positions of the first five candidates with another name, when asked.
    pub similar: Option<Vec<usize>>,
    /// The rating bands, when a deep analysis was asked.
    pub breakdown: Option<RatingBreakdown>,
}

/// The analysis of the performer of `plan`, from their scenes and, when
/// similar performers were asked for, the candidates found.
pub fn analysis_report(plan: &AnalysisPlan, scenes: &[Scene], candidates: Option<&Vec<Performer>>) -> (r: PerformerAnalysis)
    ensures
        r.total_scenes == scenes@.len(),
        r.rating_sum == sum(ratings(scenes@)),
        r.rated_scenes == ratings(scenes@).len(),
        r.top_rated@.map_values(|i: usize| i as int) == first_n(top_rated_positions(scenes@), 5),
        r.tag_counts.wf(),
        counts_view(r.tag_counts@) == tally(scene_tag_names(scenes@)),
        r.top_tags@.map_values(|p: (String, usize)| (p.0@, p.1)) == first_n(sorted_by_count(r.tag_counts.pairs()), 10),
        match candidates {
            Some(c) => r.similar matches Some(ix) && ix@.map_values(|i: usize| i as int) == first_n(
                positions_unequal(lowered_names(c@), lowercase(plan.name@)),
                5,
            ),
            None => r.similar is None,
        },
        plan.deep ==> (r.breakdown matches Some(b) && b.excellent_90_plus == count_rated_in(scenes@, 90, i64::MAX)
            && b.good_70_to_89 == count_rated_in(scenes@, 70, 89) && b.average_50_to_69 == count_rated_in(
            scenes@,
            50,
            69,
        ) && b.below_average_0_to_49 == count_rated_in(scenes@, 0, 49)),
        !plan.deep ==> r.breakdown is None,
{
    let (rating_sum, rated_scenes) = rating_sum_count(scenes);
    let tag_counts = tag_frequency(scenes);
    let top = top_tags(&tag_counts);
    let similar = match candidates {
        Some(c) => Some(similar_indices(c, plan.name.as_str())),
        None => None,
    };
    let breakdown = if plan.deep {
        Some(rating_breakdown(scenes))
    } else {
        None
    };
    PerformerAnalysis {
        total_scenes: scenes.len(),
        rating_sum,
        rated_scenes,
        top_rated: top_rated_indices(scenes),
        tag_counts,
        top_tags: top,
        similar,
        breakdown,
    }
}

// ── batch_performer_insights ────────────────────────────────────────────────

/// The positions of the names whose performer was found.
pub open spec fn found_positions(outcomes: Seq<Option<(Performer, usize)>>) -> Seq<int>
    decreases outcomes.len(),
{
    if outcomes.len() == 0 {
        Seq::empty()
    } else {
        let prev = found_positions(outcomes.drop_last());
        if outcomes.last() is Some {
            prev.push(outcomes.len() - 1)
        } else {
            prev
        }
    }
}

/// The positions of the names whose performer was not found or could not be
/// looked up.
pub open spec fn missing_positions(outcomes: Seq<Option<(Performer, usize)>>) -> Seq<int>
    decreases outcomes.len(),
{
    if outcomes.len() == 0 {
        Seq::empty()
    } else {
        let prev = missing_positions(outcomes.drop_last());
        if outcomes.last() is None {
            prev.push(outcomes.len() - 1)
        } else {
            prev
        }
    }
}

/// The performers found, in order.
pub open spec fn found_performers(outcomes: Seq<Option<(Performer, usize)>>) -> Seq<Performer>
    decreases outcomes.len(),
{
    if outcomes.len() == 0 {
        Seq::empty()
    } else {
        let prev = found_performers(outcomes.drop_last());
        match outcomes.last() {
            Some(found) => prev.push(found.0),
            None => prev,
        }
    }
}

/// The number of scenes of the performers found, together.
pub open spec fn scene_total(outcomes: Seq<Option<(Performer, usize)>>) -> int
    decreases outcomes.len(),
{
    if outcomes.len() == 0 {
        0
    } else {
        scene_total(outcomes.drop_last()) + match outcomes.last() {
            Some(found) => found.1 as int,
            None => 0,
        }
    }
}

/// The summary of a batch of performer lookups.
#[derive(Debug)]
pub struct BatchSummary {
    pub total_requested: usize,
    /// Positions of the names whose performer was found.
    pub processed: Vec<usize>,
    /// Positions of the names that failed.
    pub failed: Vec<usize>,
    /// The scenes of the performers found, together.
    pub total_scenes: u128,
    /// How many of the performers found come from each country.
    pub country_distribution: StrMap<usize>,
}

/// The summary of a batch, from what each requested name gave: the performer
/// and the number of their scenes, or nothing when the lookup failed.
pub fn batch_summary(outcomes: &Vec<Option<(Performer, usize)>>) -> (r: BatchSummary)
    ensures
        r.total_requested == outcomes@.len(),
        r.processed@.map_values(|i: usize| i as int) == found_positions(outcomes@),
        r.failed@.map_values(|i: usize| i as int) == missing_positions(outcomes@),
        r.total_scenes == scene_total(outcomes@),
        r.country_distribution.wf(),
        counts_view(r.country_distribution@) == tally(known_countries(found_performers(outcomes@))),
{
    let mut processed: Vec<usize> = Vec::new();
    let mut failed: Vec<usize> = Vec::new();
    let mut countries: Vec<String> = Vec::new();
    let mut total: u128 = 0;
    let mut i: usize = 0;
    assert(outcomes@.take(0) =~= Seq::<Option<(Performer, usize)>>::empty());
    while i < outcomes.len()
        invariant
            i <= outcomes@.len(),
            processed@.map_values(|k: usize| k as int) == found_positions(outcomes@.take(i as int)),
            failed@.map_values(|k: usize| k as int) == missing_positions(outcomes@.take(i as int)),
            countries@.map_values(|s: String| s@) == known_countries(found_performers(outcomes@.take(i as int))),
            total == scene_total(outcomes@.take(i as int)),
            total <= i * 0xffff_ffff_ffff_ffff,
        decreases outcomes@.len() - i,
    {
        let ghost prefix = outcomes@.take(i as int);
        assert(outcomes@.take(i + 1).drop_last() =~= prefix);
        assert(outcomes@.take(i + 1).last() == outcomes@[i as int]);
        assert(outcomes@.take(i + 1).len() - 1 == i);
        match &outcomes[i] {
            Some(found) => {
                let ghost before = processed@;
                processed.push(i);
                assert(processed@.map_values(|k: usize| k as int) =~= before.map_values(|k: usize| k as int).push(i as int));
                let ghost found_before = found_performers(prefix);
                assert(found_performers(outcomes@.take(i + 1)) == found_before.push(found.0));
                assert(found_before.push(found.0).drop_last() =~= found_before);
                match &found.0.country {
                    Some(c) => {
                        let ghost cs = countries@;
                        countries.push(c.clone());
                        assert(countries@.map_values(|s: String| s@) =~= cs.map_values(|s: String| s@).push(c@));
                    },
                    None => {},
                }
                assert(found.1 <= 0xffff_ffff_ffff_ffff);
                assert(total + found.1 <= (i + 1) * 0xffff_ffff_ffff_ffff) by (nonlinear_arith)
                    requires
                        total <= i * 0xffff_ffff_ffff_ffff,
                        found.1 <= 0xffff_ffff_ffff_ffff,
                ;
                assert((i + 1) * 0xffff_ffff_ffff_ffff < 0x1_0000_0000_0000_0000_0000_0000_0000_0000) by (nonlinear_arith)
                    requires
                        i < 0x1_0000_0000_0000_0000,
                ;
                total = total + found.1 as u128;
            },
            None => {
                let ghost before = failed@;
                failed.push(i);
                assert(failed@.map_values(|k: usize| k as int) =~= before.map_values(|k: usize| k as int).push(i as int));
            },
        }
        i += 1;
    }
    assert(outcomes@.take(outcomes@.len() as int) =~= outcomes@);
    BatchSummary {
        total_requested: outcomes.len(),
        processed,
        failed,
        total_scenes: total,
        country_distribution: count_names(&countries),
    }
}

} // verus!
