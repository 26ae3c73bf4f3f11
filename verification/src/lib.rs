//! Fetches the files of one folder of a remote git repository into a single
//! text file: a web URL is parsed into a repository address and a folder
//! path, the repository is shallow-cloned by an external tool, and the
//! folder's immediate files are concatenated with per-file headers.
//!
//! This crate holds the verified logic: URL-segment parsing, the clone
//! command line, output naming, and the concatenated output text. The
//! process spawning and filesystem work live in the surrounding binary.
pub mod fetch;
pub mod output;
pub mod parse;
pub mod text;
