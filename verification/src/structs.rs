//! The data shapes the prompt is built from.

use vstd::prelude::*;

verus! {

/// Options for the git status reporter.
#[derive(Debug)]
pub struct GetGitInfoOptions {
    /// Start folder. `None` means the current folder.
    pub start_folder: Option<String>,
    /// Reference name to ask information for.
    pub reference_name: String,
    /// Whether the status should include submodules information.
    pub include_submodules: bool,
    /// Whether the status should include untracked files.
    pub include_untracked: bool,
    /// Whether the status query may softly refresh the index.
    pub refresh_status: bool,
    /// Whether ahead/behind information should be computed.
    pub include_ahead_behind: bool,
    /// Whether the status should look at the working directory.
    pub include_workdir_stats: bool,
}

/// Everything a theme needs to render one prompt.
#[derive(Debug)]
pub struct ThemeData {
    pub last_exit_status: u8,
    pub datetime: DateTime,
    pub hostname: Option<String>,
    pub username: Option<String>,
    pub python: Option<String>,
    pub git: Option<GitOutputOptions>,
}

/// The symbols one theme draws the git summary with.
#[derive(Debug, Clone, Copy)]
pub struct ThemeSymbols {
    pub git_branch: &'static str,
    pub git_has_no_upstream: &'static str,
    pub git_branch_detached: &'static str,
    pub git_is_ahead: &'static str,
    pub git_is_behind: &'static str,
    pub git_has_conflict: &'static str,
    pub git_has_untracked: &'static str,
    pub git_has_typechange: &'static str,
    pub git_has_unstaged: &'static str,
    pub git_has_staged: &'static str,
}

/// The three independently optional results of the repository inspection.
#[derive(Debug)]
pub struct GitOutputOptions {
    pub head_info: Option<GitHeadInfo>,
    pub file_status: Option<GitFileStatus>,
    pub branch_ahead_behind: Option<GitBranchAheadBehind>,
}

/// A date and a time, already rendered to text.
#[derive(Debug)]
pub struct DateTime {
    pub date: String,
    pub time: String,
}

/// The packaged head summary a theme renders.
#[derive(Debug, PartialEq, Eq)]
pub struct GitHeadInfo {
    pub reference_short: Option<String>,
    pub oid_short: Option<String>,
    pub detached: bool,
}

/// The five working-tree/index classification flags.
#[derive(Debug, PartialEq, Eq)]
pub struct GitFileStatus {
    pub conflict: bool,
    pub untracked: bool,
    pub typechange: bool,
    pub unstaged: bool,
    pub staged: bool,
}

/// Commit counts along the divergence graph against the upstream branch.
#[derive(Debug, PartialEq, Eq)]
pub struct GitBranchAheadBehind {
    pub ahead: usize,
    pub behind: usize,
}

impl ThemeSymbols {
    /// The symbol set for terminals with a powerline font.
    pub fn utf8_power() -> (r: ThemeSymbols)
        ensures
            r.git_branch@ == "\u{e0a0}"@,
            r.git_has_no_upstream@ == "\u{25B2}"@,
            r.git_branch_detached@ == "\u{2630}"@,
            r.git_is_ahead@ == "\u{2191}"@,
            r.git_is_behind@ == "\u{2193}"@,
            r.git_has_conflict@ == "\u{2718}"@,
            r.git_has_untracked@ == "?"@,
            r.git_has_typechange@ == "\u{2021}"@,
            r.git_has_unstaged@ == "\u{25cf}"@,
            r.git_has_staged@ == "\u{25cf}"@,
    {
        ThemeSymbols {
            git_branch: "\u{e0a0}",
            git_has_no_upstream: "\u{25B2}",
            git_branch_detached: "\u{2630}",
            git_is_ahead: "\u{2191}",
            git_is_behind: "\u{2193}",
            git_has_conflict: "\u{2718}",
            git_has_untracked: "?",
            git_has_typechange: "\u{2021}",
            git_has_unstaged: "\u{25cf}",
            git_has_staged: "\u{25cf}",
        }
    }

    /// The symbol set for any UTF-8 terminal.
    pub fn utf8() -> (r: ThemeSymbols)
        ensures
            r.git_branch@ == "\u{16a0}"@,
            r.git_has_no_upstream@ == "\u{16d8}"@,
            r.git_branch_detached@ == "\u{2630}"@,
            r.git_is_ahead@ == "\u{2191}"@,
            r.git_is_behind@ == "\u{2193}"@,
            r.git_has_conflict@ == "\u{2718}"@,
            r.git_has_untracked@ == "?"@,
            r.git_has_typechange@ == "\u{2021}"@,
            r.git_has_unstaged@ == "\u{25cf}"@,
            r.git_has_staged@ == "\u{25cf}"@,
    {
        ThemeSymbols {
            git_branch: "\u{16a0}",
            git_has_no_upstream: "\u{16d8}",
            git_branch_detached: "\u{2630}",
            git_is_ahead: "\u{2191}",
            git_is_behind: "\u{2193}",
            git_has_conflict: "\u{2718}",
            git_has_untracked: "?",
            git_has_typechange: "\u{2021}",
            git_has_unstaged: "\u{25cf}",
            git_has_staged: "\u{25cf}",
        }
    }

    /// The plain-ASCII symbol set.
    pub fn ascii() -> (r: ThemeSymbols)
        ensures
            r.git_branch@ == ""@,
            r.git_has_no_upstream@ == "&"@,
            r.git_branch_detached@ == "||"@,
            r.git_is_ahead@ == "^"@,
            r.git_is_behind@ == "v"@,
            r.git_has_conflict@ == "x"@,
            r.git_has_untracked@ == "?"@,
            r.git_has_typechange@ == "T"@,
            r.git_has_unstaged@ == "*"@,
            r.git_has_staged@ == "*"@,
    {
        ThemeSymbols {
            git_branch: "",
            git_has_no_upstream: "&",
            git_branch_detached: "||",
            git_is_ahead: "^",
            git_is_behind: "v",
            git_has_conflict: "x",
            git_has_untracked: "?",
            git_has_typechange: "T",
            git_has_unstaged: "*",
            git_has_staged: "*",
        }
    }
}

} // verus!
