//! Prompt segments for Mercurial working directories: branch or bookmark,
//! current commit, and file-status counts.
pub mod text;
pub mod segment;
pub mod repo;
pub mod config;
pub mod hg_status;
pub mod hg_commit;
pub mod hg_branch;
pub mod layers;
