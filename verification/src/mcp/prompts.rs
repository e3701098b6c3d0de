//! The prompts the server offers: their catalog and their texts.

use vstd::prelude::*;
use crate::json::{field, str_of, JsonModel, JsonValue};
use crate::mcp::InvalidRequest;
use crate::text::{has_infix, lemma_infix_joined, owned, starts_with};

verus! {

/// Piece 0 of the `analyze-performer` prompt text; the `name` argument stands between pieces.
pub const ANALYZE_PERFORMER_0: &'static str = "Completely analyze the performer '";

pub const ANALYZE_PERFORMER_1: &'static str = "' using the available Stash MCP server tools.\n\nREQUIRED ANALYSIS:\n\n1. **Basic Performer Information:**\n   - Use `get_performer_info('";

pub const ANALYZE_PERFORMER_2: &'static str = "')` to get demographic data\n   - Include: country, ethnicity, physical characteristics, measurements, tattoos, piercings\n\n2. **Scene Analysis:**\n   - Use `get_all_scenes_from_performer('";

pub const ANALYZE_PERFORMER_3: &'static str = "')` to get all their scenes\n   - Calculate statistics: total scenes, average rating\n   - Identify top-rated scenes (rating > 80)\n\n3. **Tag Analysis:**\n   - Extract all unique tags from their scenes\n   - Identify most frequent tags (top 10)\n   - Categorize tags by type (genre, position, characteristics)\n\n4. **Similar Performers:**\n   - Use `get_all_performers()` with filters based on the performer's characteristics\n   - Find performers with similar country, ethnicity, or physical measurements\n   - Suggest up to 5 similar performers\n\n5. **Recommendations:**\n   - Suggest standout scenes to watch first\n   - Identify gaps in the collection (popular tags that are missing)\n   - Recommend related searches\n\nOUTPUT FORMAT:\n- Use markdown for formatting\n- Include clear numerical statistics\n- Provide actionable insights\n- Highlight interesting or unusual findings";

/// The text of the `library-insights` prompt.
pub const LIBRARY_INSIGHTS: &'static str = "Analyze the complete Stash library and provide strategic insights using the available MCP tools.\n\nREQUIRED ANALYSIS:\n\n1. **Library Overview:**\n   - Use `health_check()` to get connectivity and cache statistics\n   - Use `get_all_performers(favorites_only=false)` to get performer statistics\n   - Calculate: total performers, geographic distribution, ethnic diversity\n\n2. **Favorites Analysis:**\n   - Compare `get_all_performers(favorites_only=true)` vs all performers\n   - Calculate percentage of favorites\n   - Identify patterns in favorite performers (common characteristics)\n\n3. **Content Analysis:**\n   - For a sample of favorite performers, analyze their scenes using `get_all_scenes_from_performer()`\n   - Identify most popular genres/tags\n   - Calculate rating statistics\n\n4. **Gap Detection:**\n   - Identify underrepresented countries/ethnicities\n   - Find physical characteristic ranges with few performers\n   - Suggest areas to expand the collection\n\n5. **Organization Recommendations:**\n   - Suggest consistent tagging strategies\n   - Identify performers that might need more attention\n   - Propose useful filters for content discovery\n\nOUTPUT FORMAT:\n- Use markdown with clear sections\n- Include specific statistics and percentages\n- Provide actionable recommendations";

/// Piece 0 of the `recommend-scenes` prompt text; the `preferences` argument stands between pieces.
pub const RECOMMEND_SCENES_0: &'static str = "Generate personalized scene recommendations based on the following user preferences: \"";

pub const RECOMMEND_SCENES_1: &'static str = "\"\n\nRECOMMENDATION PROCESS:\n\n1. **Preference Analysis:**\n   - Extract key keywords from: \"";

pub const RECOMMEND_SCENES_2: &'static str = "\"\n   - Identify preferred physical characteristics\n   - Detect tags/genres of interest\n   - Determine if there are geographic/ethnic preferences\n\n2. **Search for Relevant Performers:**\n   - Use `get_all_performers()` with appropriate filters\n   - If physical characteristics are mentioned, use them as filters\n   - Prioritize favorite performers if no specific criteria\n\n3. **Scene Analysis by Performer:**\n   - For each relevant performer, use `get_all_scenes_from_performer()`\n   - Filter scenes with high ratings (rating > 75)\n   - Identify scenes that match preferred tags\n\n4. **Final Selection:**\n   - Select top 10 recommended scenes\n   - Ensure diversity in the selection\n\nOUTPUT FORMAT:\nFor each recommended scene include:\n- **Scene Title**\n- **Performers**: Names and brief description\n- **Rating**: Numerical rating\n- **Why recommended**: Specific explanation of match with preferences\n- **Relevant tags**";

/// Piece 0 of the `discover-performers` prompt text; the `criteria` argument stands between pieces.
pub const DISCOVER_PERFORMERS_0: &'static str = "Discover performers that match the following criteria: \"";

pub const DISCOVER_PERFORMERS_1: &'static str = "\"\n\nDISCOVERY PROCESS:\n\n1. **Criteria Interpretation:**\n   - Analyze criteria: \"";

pub const DISCOVER_PERFORMERS_2: &'static str = "\"\n   - Identify applicable filters:\n     * Physical characteristics (height, weight, measurements)\n     * Demographics (country, ethnicity)\n     * Distinctive features (tattoos, piercings)\n\n2. **Stratified Search:**\n   - **Level 1**: Exact search with all criteria using `get_all_performers()` with full filters\n   - **Level 2**: Relaxed search with main criteria only\n   - **Level 3**: Exploratory search with partial criteria\n\n3. **Analysis of Each Found Performer:**\n   - Use `get_performer_info()` for detailed data\n   - Use `get_all_scenes_from_performer()` to evaluate content quality\n\n4. **Result Categorization:**\n   - **Perfect Matches**: Meet all criteria\n   - **Strong Matches**: Meet main criteria\n   - **Interesting Discoveries**: Partial criteria but high potential\n\nOUTPUT FORMAT:\nFor each performer include:\n- **Performer Name**\n- **Demographics**: Country, ethnicity\n- **Physical Characteristics**: Height, weight, measurements, distinctive features\n- **Content Statistics**: Scene count, average rating\n- **Criteria Match**: How they meet the criteria\n- **Recommendation Level**: High / Medium / Exploratory";

/// The text of the `analyze-performer` prompt for the given `name`.
pub open spec fn analyze_performer_prompt(name: Seq<char>) -> Seq<char> {
    ANALYZE_PERFORMER_0@ + name + ANALYZE_PERFORMER_1@ + name + ANALYZE_PERFORMER_2@ + name + ANALYZE_PERFORMER_3@
}

/// The text of the `library-insights` prompt.
pub open spec fn library_insights_prompt() -> Seq<char> {
    LIBRARY_INSIGHTS@
}

/// The text of the `recommend-scenes` prompt for the given `preferences`.
pub open spec fn recommend_scenes_prompt(preferences: Seq<char>) -> Seq<char> {
    RECOMMEND_SCENES_0@ + preferences + RECOMMEND_SCENES_1@ + preferences + RECOMMEND_SCENES_2@
}

/// The text of the `discover-performers` prompt for the given `criteria`.
pub open spec fn discover_performers_prompt(criteria: Seq<char>) -> Seq<char> {
    DISCOVER_PERFORMERS_0@ + criteria + DISCOVER_PERFORMERS_1@ + criteria + DISCOVER_PERFORMERS_2@
}

/// The text of the `analyze-performer` prompt for the given `name`.
pub fn analyze_performer_text(name: &str) -> (r: String)
    ensures
        r@ == analyze_performer_prompt(name@),
{
    let mut r = owned(ANALYZE_PERFORMER_0);
    r.append(name);
    r.append(ANALYZE_PERFORMER_1);
    r.append(name);
    r.append(ANALYZE_PERFORMER_2);
    r.append(name);
    r.append(ANALYZE_PERFORMER_3);
    r
}

/// The text of the `library-insights` prompt.
pub fn library_insights_text() -> (r: String)
    ensures
        r@ == library_insights_prompt(),
{
    owned(LIBRARY_INSIGHTS)
}

/// The text of the `recommend-scenes` prompt for the given `preferences`.
pub fn recommend_scenes_text(preferences: &str) -> (r: String)
    ensures
        r@ == recommend_scenes_prompt(preferences@),
{
    let mut r = owned(RECOMMEND_SCENES_0);
    r.append(preferences);
    r.append(RECOMMEND_SCENES_1);
    r.append(preferences);
    r.append(RECOMMEND_SCENES_2);
    r
}

/// The text of the `discover-performers` prompt for the given `criteria`.
pub fn discover_performers_text(criteria: &str) -> (r: String)
    ensures
        r@ == discover_performers_prompt(criteria@),
{
    let mut r = owned(DISCOVER_PERFORMERS_0);
    r.append(criteria);
    r.append(DISCOVER_PERFORMERS_1);
    r.append(criteria);
    r.append(DISCOVER_PERFORMERS_2);
    r
}

/// The text of a string argument; empty when the argument is missing or not
/// a string, or when no arguments were given.
pub open spec fn arg_text(args: Option<JsonModel>, key: Seq<char>) -> Seq<char> {
    match args {
        Some(a) => match field(a, key) {
            Some(v) => match str_of(v) {
                Some(s) => s,
                None => Seq::empty(),
            },
            None => Seq::empty(),
        },
        None => Seq::empty(),
    }
}

/// The text of the prompt `name` with the given arguments; `None` for an
/// unknown prompt.
pub open spec fn prompt_body(name: Seq<char>, args: Option<JsonModel>) -> Option<Seq<char>> {
    if name == "analyze-performer"@ {
        Some(analyze_performer_prompt(arg_text(args, "performer_name"@)))
    } else if name == "library-insights"@ {
        Some(library_insights_prompt())
    } else if name == "recommend-scenes"@ {
        Some(recommend_scenes_prompt(arg_text(args, "preferences"@)))
    } else if name == "discover-performers"@ {
        Some(discover_performers_prompt(arg_text(args, "criteria"@)))
    } else {
        None
    }
}

/// Every prompt the server lists can be fetched with any arguments, and the
/// text of each embeds its argument.
pub proof fn law_listed_prompts_render(args: Option<JsonModel>)
    ensures
        prompt_body("analyze-performer"@, args) == Some(
            analyze_performer_prompt(arg_text(args, "performer_name"@)),
        ),
        prompt_body("library-insights"@, args) == Some(library_insights_prompt()),
        prompt_body("recommend-scenes"@, args) == Some(recommend_scenes_prompt(arg_text(args, "preferences"@))),
        prompt_body("discover-performers"@, args) == Some(
            discover_performers_prompt(arg_text(args, "criteria"@)),
        ),
{
    reveal_strlit("analyze-performer");
    reveal_strlit("library-insights");
    reveal_strlit("recommend-scenes");
    reveal_strlit("discover-performers");
    assert("library-insights"@.len() != "analyze-performer"@.len());
    assert("recommend-scenes"@.len() != "analyze-performer"@.len());
    assert("recommend-scenes"@[0] != "library-insights"@[0]);
    assert("discover-performers"@.len() != "analyze-performer"@.len());
    assert("discover-performers"@.len() != "library-insights"@.len());
    assert("discover-performers"@.len() != "recommend-scenes"@.len());
}

/// The analyze-performer text is about the performer it is given: it opens
/// by naming them, and the two tool calls it prescribes name them too.
pub proof fn law_analyze_prompt_names_the_performer(name: Seq<char>)
    ensures
        starts_with(analyze_performer_prompt(name), "Completely analyze the performer '"@ + name + "' using"@),
        has_infix(analyze_performer_prompt(name), "Use `get_performer_info('"@ + name + "')` to get demographic data"@),
        has_infix(
            analyze_performer_prompt(name),
            "Use `get_all_scenes_from_performer('"@ + name + "')` to get all their scenes"@,
        ),
{
    reveal_strlit("Completely analyze the performer '");
    reveal_strlit("' using the available Stash MCP server tools.\n\nREQUIRED ANALYSIS:\n\n1. **Basic Performer Information:**\n   - Use `get_performer_info('");
    reveal_strlit("')` to get demographic data\n   - Include: country, ethnicity, physical characteristics, measurements, tattoos, piercings\n\n2. **Scene Analysis:**\n   - Use `get_all_scenes_from_performer('");
    reveal_strlit("')` to get all their scenes\n   - Calculate statistics: total scenes, average rating\n   - Identify top-rated scenes (rating > 80)\n\n3. **Tag Analysis:**\n   - Extract all unique tags from their scenes\n   - Identify most frequent tags (top 10)\n   - Categorize tags by type (genre, position, characteristics)\n\n4. **Similar Performers:**\n   - Use `get_all_performers()` with filters based on the performer's characteristics\n   - Find performers with similar country, ethnicity, or physical measurements\n   - Suggest up to 5 similar performers\n\n5. **Recommendations:**\n   - Suggest standout scenes to watch first\n   - Identify gaps in the collection (popular tags that are missing)\n   - Recommend related searches\n\nOUTPUT FORMAT:\n- Use markdown for formatting\n- Include clear numerical statistics\n- Provide actionable insights\n- Highlight interesting or unusual findings");
    reveal_strlit("Completely analyze the performer '");
    reveal_strlit("' using");
    reveal_strlit("Use `get_performer_info('");
    reveal_strlit("')` to get demographic data");
    reveal_strlit("Use `get_all_scenes_from_performer('");
    reveal_strlit("')` to get all their scenes");
    let a0 = ANALYZE_PERFORMER_0@;
    let a1 = ANALYZE_PERFORMER_1@;
    let a2 = ANALYZE_PERFORMER_2@;
    let a3 = ANALYZE_PERFORMER_3@;
    let x1 = "Use `get_performer_info('"@;
    let y1 = "')` to get demographic data"@;
    let x2 = "Use `get_all_scenes_from_performer('"@;
    let y2 = "')` to get all their scenes"@;
    let u = "' using"@;
    let s = analyze_performer_prompt(name);
    let k1 = a1.len() - x1.len();
    assert(a1.skip(k1) =~= x1);
    assert(a1 =~= a1.take(k1) + x1);
    assert(a2.take(y1.len() as int) =~= y1);
    assert(a2 =~= y1 + a2.skip(y1.len() as int));
    let k2 = a2.len() - x2.len();
    assert(a2.skip(k2) =~= x2);
    assert(a2 =~= a2.take(k2) + x2);
    assert(a3.take(y2.len() as int) =~= y2);
    assert(a3 =~= y2 + a3.skip(y2.len() as int));
    assert(a1.take(u.len() as int) =~= u);
    let p1 = a0 + name + a1.take(k1);
    let r1 = a2.skip(y1.len() as int) + name + a3;
    assert(s =~= p1 + x1 + name + y1 + r1);
    lemma_infix_joined(p1, x1, name, y1, r1);
    let p2 = a0 + name + a1 + name + a2.take(k2);
    let r2 = a3.skip(y2.len() as int);
    assert(s =~= p2 + x2 + name + y2 + r2);
    lemma_infix_joined(p2, x2, name, y2, r2);
    assert(s.take((a0 + name + u).len() as int) =~= a0 + name + u);
}

/// The recommend-scenes text is about the preferences it is given: it opens
/// by quoting them, and the analysis it prescribes quotes them again.
pub proof fn law_recommend_prompt_embeds_preferences(text: Seq<char>)
    ensures
        starts_with(recommend_scenes_prompt(text), "Generate personalized scene recommendations based on the following user preferences: \""@ + text + "\""@),
        has_infix(recommend_scenes_prompt(text), "Extract key keywords from: \""@ + text + "\""@),
{
    reveal_strlit("Generate personalized scene recommendations based on the following user preferences: \"");
    reveal_strlit("\"\n\nRECOMMENDATION PROCESS:\n\n1. **Preference Analysis:**\n   - Extract key keywords from: \"");
    reveal_strlit("\"\n   - Identify preferred physical characteristics\n   - Detect tags/genres of interest\n   - Determine if there are geographic/ethnic preferences\n\n2. **Search for Relevant Performers:**\n   - Use `get_all_performers()` with appropriate filters\n   - If physical characteristics are mentioned, use them as filters\n   - Prioritize favorite performers if no specific criteria\n\n3. **Scene Analysis by Performer:**\n   - For each relevant performer, use `get_all_scenes_from_performer()`\n   - Filter scenes with high ratings (rating > 75)\n   - Identify scenes that match preferred tags\n\n4. **Final Selection:**\n   - Select top 10 recommended scenes\n   - Ensure diversity in the selection\n\nOUTPUT FORMAT:\nFor each recommended scene include:\n- **Scene Title**\n- **Performers**: Names and brief description\n- **Rating**: Numerical rating\n- **Why recommended**: Specific explanation of match with preferences\n- **Relevant tags**");
    reveal_strlit("Generate personalized scene recommendations based on the following user preferences: \"");
    reveal_strlit("Extract key keywords from: \"");
    reveal_strlit("\"");
    let a0 = RECOMMEND_SCENES_0@;
    let a1 = RECOMMEND_SCENES_1@;
    let a2 = RECOMMEND_SCENES_2@;
    let x = "Extract key keywords from: \""@;
    let q = "\""@;
    let s = recommend_scenes_prompt(text);
    let k = a1.len() - x.len();
    assert(a1.skip(k) =~= x);
    assert(a1 =~= a1.take(k) + x);
    assert(a2 =~= q + a2.skip(1));
    assert(a1 =~= q + a1.skip(1));
    assert(a0 =~= "Generate personalized scene recommendations based on the following user preferences: \""@);
    let p = a0 + text + a1.take(k);
    let r = a2.skip(1);
    assert(s =~= p + x + text + q + r);
    lemma_infix_joined(p, x, text, q, r);
    assert(s.take((a0 + text + q).len() as int) =~= a0 + text + q);
}

/// The discover-performers text is about the criteria it is given: it opens
/// by quoting them, and the interpretation it prescribes quotes them again.
pub proof fn law_discover_prompt_embeds_criteria(text: Seq<char>)
    ensures
        starts_with(discover_performers_prompt(text), "Discover performers that match the following criteria: \""@ + text + "\""@),
        has_infix(discover_performers_prompt(text), "Analyze criteria: \""@ + text + "\""@),
{
    reveal_strlit("Discover performers that match the following criteria: \"");
    reveal_strlit("\"\n\nDISCOVERY PROCESS:\n\n1. **Criteria Interpretation:**\n   - Analyze criteria: \"");
    reveal_strlit("\"\n   - Identify applicable filters:\n     * Physical characteristics (height, weight, measurements)\n     * Demographics (country, ethnicity)\n     * Distinctive features (tattoos, piercings)\n\n2. **Stratified Search:**\n   - **Level 1**: Exact search with all criteria using `get_all_performers()` with full filters\n   - **Level 2**: Relaxed search with main criteria only\n   - **Level 3**: Exploratory search with partial criteria\n\n3. **Analysis of Each Found Performer:**\n   - Use `get_performer_info()` for detailed data\n   - Use `get_all_scenes_from_performer()` to evaluate content quality\n\n4. **Result Categorization:**\n   - **Perfect Matches**: Meet all criteria\n   - **Strong Matches**: Meet main criteria\n   - **Interesting Discoveries**: Partial criteria but high potential\n\nOUTPUT FORMAT:\nFor each performer include:\n- **Performer Name**\n- **Demographics**: Country, ethnicity\n- **Physical Characteristics**: Height, weight, measurements, distinctive features\n- **Content Statistics**: Scene count, average rating\n- **Criteria Match**: How they meet the criteria\n- **Recommendation Level**: High / Medium / Exploratory");
    reveal_strlit("Discover performers that match the following criteria: \"");
    reveal_strlit("Analyze criteria: \"");
    reveal_strlit("\"");
    let a0 = DISCOVER_PERFORMERS_0@;
    let a1 = DISCOVER_PERFORMERS_1@;
    let a2 = DISCOVER_PERFORMERS_2@;
    let x = "Analyze criteria: \""@;
    let q = "\""@;
    let s = discover_performers_prompt(text);
    let k = a1.len() - x.len();
    assert(a1.skip(k) =~= x);
    assert(a1 =~= a1.take(k) + x);
    assert(a2 =~= q + a2.skip(1));
    assert(a1 =~= q + a1.skip(1));
    assert(a0 =~= "Discover performers that match the following criteria: \""@);
    let p = a0 + text + a1.take(k);
    let r = a2.skip(1);
    assert(s =~= p + x + text + q + r);
    lemma_infix_joined(p, x, text, q, r);
    assert(s.take((a0 + text + q).len() as int) =~= a0 + text + q);
}

/// An argument a prompt takes.
#[derive(Debug)]
pub struct PromptArgumentInfo {
    pub name: String,
    pub description: String,
    pub required: bool,
}

/// A prompt of the catalog.
#[derive(Debug)]
pub struct PromptInfo {
    pub name: String,
    pub description: String,
    pub arguments: Option<Vec<PromptArgumentInfo>>,
}

/// The single required argument of a prompt, by name and description.
pub open spec fn has_single_argument(p: PromptInfo, name: Seq<char>, description: Seq<char>) -> bool {
    &&& p.arguments matches Some(args)
    &&& args@.len() == 1
    &&& args@[0].name@ == name
    &&& args@[0].description@ == description
    &&& args@[0].required
}

fn prompt(name: &str, description: &str, argument: Option<(&str, &str)>) -> (r: PromptInfo)
    ensures
        r.name@ == name@,
        r.description@ == description@,
        argument matches Some(a) ==> has_single_argument(r, a.0@, a.1@),
        argument is None ==> r.arguments is None,
{
    let arguments = match argument {
        Some((arg_name, arg_description)) => {
            let mut args: Vec<PromptArgumentInfo> = Vec::new();
            args.push(
                PromptArgumentInfo {
                    name: owned(arg_name),
                    description: owned(arg_description),
                    required: true,
                },
            );
            Some(args)
        },
        None => None,
    };
    PromptInfo { name: owned(name), description: owned(description), arguments }
}

/// The prompts the server offers, in order: `analyze-performer`
/// (`performer_name`), `library-insights` (no arguments), `recommend-scenes`
/// (`preferences`) and `discover-performers` (`criteria`); every argument is
/// required.
pub fn list_prompts() -> (r: Vec<PromptInfo>)
    ensures
        r@.len() == 4,
        r@[0].name@ == "analyze-performer"@,
        r@[0].description@ == "Generates a complete analysis of a performer: statistics, popular scenes, frequent tags, and similar recommendations"@,
        has_single_argument(r@[0], "performer_name"@, "Exact name of the performer to analyze"@),
        r@[1].name@ == "library-insights"@,
        r@[1].description@ == "Generates insights about the library: trends, metadata gaps, organization recommendations"@,
        r@[1].arguments is None,
        r@[2].name@ == "recommend-scenes"@,
        r@[2].description@ == "Based on user preferences, recommends specific scenes with explanation of why each was chosen"@,
        has_single_argument(r@[2], "preferences"@, "User preferences: tags, performer characteristics, genres, etc."@),
        r@[3].name@ == "discover-performers"@,
        r@[3].description@ == "Discover performers based on specific user criteria"@,
        has_single_argument(r@[3], "criteria"@, "Search criteria: physical characteristics, demographics, content preferences"@),
{
    let mut r: Vec<PromptInfo> = Vec::new();
    r.push(
        prompt(
            "analyze-performer",
            "Generates a complete analysis of a performer: statistics, popular scenes, frequent tags, and similar recommendations",
            Some(("performer_name", "Exact name of the performer to analyze")),
        ),
    );
    r.push(
        prompt(
            "library-insights",
            "Generates insights about the library: trends, metadata gaps, organization recommendations",
            None,
        ),
    );
    r.push(
        prompt(
            "recommend-scenes",
            "Based on user preferences, recommends specific scenes with explanation of why each was chosen",
            Some(("preferences", "User preferences: tags, performer characteristics, genres, etc.")),
        ),
    );
    r.push(
        prompt(
            "discover-performers",
            "Discover performers based on specific user criteria",
            Some(("criteria", "Search criteria: physical characteristics, demographics, content preferences")),
        ),
    );
    r
}

/// A string argument of a prompt, or empty text.
fn prompt_arg(args: Option<&JsonValue>, key: &str) -> (r: String)
    ensures
        r@ == arg_text(
            match args {
                Some(a) => Some(a.model()),
                None => None,
            },
            key@,
        ),
{
    match args {
        Some(a) => match a.get(key) {
            Some(v) => match v.as_str() {
                Some(s) => owned(s),
                None => String::new(),
            },
            None => String::new(),
        },
        None => String::new(),
    }
}

/// The text of the prompt `name` with the given arguments (an object of
/// strings; a missing or non-string argument counts as empty text). An
/// unknown prompt is refused with `unknown prompt '<name>'`.
pub fn get_prompt(name: &str, arguments: Option<&JsonValue>) -> (r: Result<String, InvalidRequest>)
    ensures
        match prompt_body(
            name@,
            match arguments {
                Some(a) => Some(a.model()),
                None => None,
            },
        ) {
            Some(t) => r matches Ok(s) && s@ == t,
            None => r matches Err(e) && e.message@ == "unknown prompt '"@ + name@ + "'"@,
        },
{
    if crate::text::str_eq(name, "analyze-performer") {
        let n = prompt_arg(arguments, "performer_name");
        Ok(analyze_performer_text(n.as_str()))
    } else if crate::text::str_eq(name, "library-insights") {
        Ok(library_insights_text())
    } else if crate::text::str_eq(name, "recommend-scenes") {
        let p = prompt_arg(arguments, "preferences");
        Ok(recommend_scenes_text(p.as_str()))
    } else if crate::text::str_eq(name, "discover-performers") {
        let c = prompt_arg(arguments, "criteria");
        Ok(discover_performers_text(c.as_str()))
    } else {
        Err(InvalidRequest::quoted("unknown prompt '", name))
    }
}

} // verus!
