//! The logic of a small AppImage launcher: where its settings live, which
//! directory entries count as AppImages, how the thumbnail jobs and icon
//! paths are formed, and how the launcher window reacts to its events.

pub mod config;
pub mod paths;
pub mod text;
pub mod scan;
pub mod thumbnails;
pub mod launcher;
