//! The Stash entities the server reads.

use vstd::prelude::*;

verus! {

/// A slim tag reference returned inside other objects.
#[derive(Debug, Clone, Default, PartialEq)]
pub struct TagRef {
    pub id: String,
    pub name: String,
}

/// Full tag object.
#[derive(Debug, Clone, Default, PartialEq)]
pub struct Tag {
    pub id: String,
    pub name: String,
    pub description: Option<String>,
    pub favorite: Option<bool>,
    pub scene_count: Option<i64>,
    pub scene_marker_count: Option<i64>,
    pub aliases: Option<Vec<String>>,
    pub parents: Option<Vec<TagRef>>,
    pub children: Option<Vec<TagRef>>,
}

/// Performer object.
#[derive(Debug, Clone, Default, PartialEq)]
pub struct Performer {
    pub id: String,
    pub name: String,
    pub favorite: bool,
    pub country: Option<String>,
    pub details: Option<String>,
    pub ethnicity: Option<String>,
    pub eye_color: Option<String>,
    pub hair_color: Option<String>,
    pub height_cm: Option<i64>,
    pub measurements: Option<String>,
    pub piercings: Option<String>,
    pub tattoos: Option<String>,
    pub weight: Option<i64>,
    pub tags: Option<Vec<TagRef>>,
}

/// Performer as it appears nested inside a scene.
#[derive(Debug, Clone, Default, PartialEq)]
pub struct ScenePerformer {
    pub name: String,
    pub rating100: Option<i64>,
    pub tags: Option<Vec<TagRef>>,
}

/// Scene object.
#[derive(Debug, Clone, Default, PartialEq)]
pub struct Scene {
    pub id: String,
    pub title: Option<String>,
    pub details: Option<String>,
    pub organized: bool,
    pub rating100: Option<i64>,
    pub performers: Option<Vec<ScenePerformer>>,
    pub tags: Option<Vec<TagRef>>,
}

/// Slim studio reference returned inside other objects.
#[derive(Debug, Clone, Default, PartialEq)]
pub struct StudioRef {
    pub id: String,
    pub name: String,
}

/// Full studio object.
#[derive(Debug, Clone, Default, PartialEq)]
pub struct Studio {
    pub id: String,
    pub name: String,
    pub url: Option<String>,
    pub details: Option<String>,
    pub rating100: Option<i64>,
    pub favorite: Option<bool>,
    pub scene_count: Option<i64>,
    pub parent_studio: Option<StudioRef>,
    pub child_studios: Option<Vec<StudioRef>>,
    pub aliases: Option<Vec<String>>,
    pub tags: Option<Vec<TagRef>>,
}

/// Stash version info (used for the health check).
#[derive(Debug, Clone)]
pub struct StashVersion {
    pub version: String,
    pub build_time: Option<String>,
}

} // verus!
