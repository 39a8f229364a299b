//! Code browsing.

use vstd::prelude::*;

use crate::collections::StrMap;

verus! {

/// A repository that can be browsed.
#[derive(Clone, Debug)]
pub struct CodeRepo {
    /// Identifier, such as "backend".
    pub name: String,
    /// Root directory.
    pub root_path: String,
    pub display_name: String,
    /// Prefixes of the paths that may be read; none means all.
    pub allowed_paths: Vec<String>,
    /// Patterns of the files that may not be read.
    pub blocked_patterns: Vec<String>,
}

/// A node of the file tree.
#[derive(Debug)]
pub struct FileNode {
    pub id: String,
    pub name: String,
    /// Path relative to the root of the repository.
    pub path: String,
    pub is_directory: bool,
    /// Children of a directory.
    pub children: Vec<FileNode>,
    /// Size of a file in bytes.
    pub size: Option<u64>,
    pub modified: Option<String>,
}

/// The content of a file, or of a range of its lines.
#[derive(Clone, Debug)]
pub struct FileContent {
    pub path: String,
    pub language: String,
    pub content: String,
    pub total_lines: usize,
    pub start_line: usize,
    pub end_line: usize,
}

/// One match of a search.
#[derive(Clone, Debug)]
pub struct SearchResult {
    pub file: String,
    pub line: usize,
    pub content: String,
    pub match_start: usize,
    pub match_end: usize,
}

/// A branch.
#[derive(Clone, Debug)]
pub struct GitBranch {
    pub name: String,
    pub sha: String,
    pub current: bool,
}

/// A commit.
#[derive(Clone, Debug)]
pub struct GitCommit {
    pub sha: String,
    pub message: String,
    pub author: String,
    pub email: String,
    pub date: String,
}

/// Statistics of a repository.
pub struct CodeStats {
    pub total_files: usize,
    pub total_directories: usize,
    /// Number of files by language.
    pub languages: StrMap<usize>,
    pub scanned_at: String,
}

} // verus!
