//! Drafts a commit message from a repository's changes: it builds a diff
//! document from what the version-control tool reports, checks it against a
//! line ceiling and the stored AI settings, asks a chat service for a summary
//! and a subject line, and hands back the commit to make.
pub mod ai;
pub mod cli;
pub mod client;
pub mod commit;
pub mod diff;
pub mod output;
pub mod prompt;
pub mod text;
pub mod types;
