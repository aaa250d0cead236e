//! A directory-scanning status reporter for version-controlled working
//! trees: a target directory (or each of its immediate children) is
//! classified as a repository or a plain entry, each repository's
//! working-tree cleanliness and remote synchronization are judged, and one
//! colored report line is rendered per entry.

pub mod paths;
pub mod render;
pub mod repo;
pub mod scan;
pub mod status;
