//! The GraphQL documents the client sends.

use vstd::prelude::*;

verus! {

/// Queries all fields used for the health check.
pub const HEALTH_CHECK: &'static str = "{ version { version build_time } }";

/// Query to list/search performers.
/// Variables: `$filter: FindFilterType`, `$performer_filter: PerformerFilterType`
pub const FIND_PERFORMERS: &'static str = r#"
query FindPerformers($filter: FindFilterType, $performer_filter: PerformerFilterType) {
  findPerformers(filter: $filter, performer_filter: $performer_filter) {
    count
    performers {
      id name favorite country details ethnicity eye_color hair_color
      height_cm measurements piercings tattoos weight
      tags { id name }
    }
  }
}
"#;

/// Query to list/search scenes.
/// Variables: `$filter: FindFilterType`, `$scene_filter: SceneFilterType`
pub const FIND_SCENES: &'static str = r#"
query FindScenes($filter: FindFilterType, $scene_filter: SceneFilterType) {
  findScenes(filter: $filter, scene_filter: $scene_filter) {
    count
    scenes {
      id title details organized rating100
      performers { name rating100 tags { id name } }
      tags { id name }
    }
  }
}
"#;

/// Query to list/search studios.
/// Variables: `$filter: FindFilterType`, `$studio_filter: StudioFilterType`
pub const FIND_STUDIOS: &'static str = r#"
query FindStudios($filter: FindFilterType, $studio_filter: StudioFilterType) {
  findStudios(filter: $filter, studio_filter: $studio_filter) {
    count
    studios {
      id name url details rating100 favorite scene_count
      parent_studio { id name }
      child_studios { id name }
      aliases
      tags { id name }
    }
  }
}
"#;

/// Query to list/search tags.
/// Variables: `$filter: FindFilterType`, `$tag_filter: TagFilterType`
pub const FIND_TAGS: &'static str = r#"
query FindTags($filter: FindFilterType, $tag_filter: TagFilterType) {
  findTags(filter: $filter, tag_filter: $tag_filter) {
    count
    tags {
      id name description favorite scene_count scene_marker_count
      aliases
      parents { id name }
      children { id name }
    }
  }
}
"#;

} // verus!
