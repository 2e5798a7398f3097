//! The repository inspector: locating the repository, resolving its head,
//! classifying the working-tree status and counting the divergence against
//! the upstream branch, then packaging the three independently optional
//! results into one report.

use vstd::prelude::*;

use crate::error::{LogError, MapLog, PromptError};
use crate::git_ext;
use crate::git_ext::{RefKind, StatusQuery, StatusShowKind};
use crate::path_probe;
use crate::structs::{
    GetGitInfoOptions, GitBranchAheadBehind, GitFileStatus, GitHeadInfo, GitOutputOptions,
};
use crate::util;
use crate::util::LastPart;

verus! {

// ------------------------------------------------------------------
// Repository locator
// ------------------------------------------------------------------

/// The position of the first directory of the chain that holds a `.git`
/// entry, or `None` when no directory of the chain holds one.
pub open spec fn first_git_index(flags: Seq<bool>) -> Option<int>
    decreases flags.len(),
{
    if flags.len() == 0 {
        None
    } else if flags[0] {
        Some(0)
    } else {
        match first_git_index(flags.drop_first()) {
            Some(i) => Some(i + 1),
            None => None,
        }
    }
}

pub proof fn lemma_first_git_index_characterization(flags: Seq<bool>)
    ensures
        match first_git_index(flags) {
            None => forall|j: int| 0 <= j < flags.len() ==> !flags[j],
            Some(i) => 0 <= i < flags.len() && flags[i] && forall|j: int| 0 <= j < i ==> !flags[j],
        },
    decreases flags.len(),
{
    if flags.len() > 0 && !flags[0] {
        let rest = flags.drop_first();
        lemma_first_git_index_characterization(rest);
        assert forall|j: int| 1 <= j < flags.len() implies flags[j] == rest[j - 1] by {
            assert(rest[j - 1] == flags[j]);
        }
    }
}

/// Locator idempotence: restarting the walk at the located repository root
/// finds that same root at once, however deep the original start was.
pub proof fn lemma_locator_idempotent(flags: Seq<bool>, i: int)
    requires
        first_git_index(flags) == Some(i),
    ensures
        first_git_index(flags.skip(i)) == Some(0int),
{
    lemma_first_git_index_characterization(flags);
    assert(flags.skip(i)[0] == flags[i]);
}

/// The first directory of `chain` whose flag is set, or `None`.
pub fn locate_first_with_git(chain: &Vec<String>, flags: &Vec<bool>) -> (r: Option<String>)
    requires
        chain@.len() == flags@.len(),
    ensures
        match first_git_index(flags@) {
            None => r is None,
            Some(i) => r matches Some(p) && p@ == chain@[i]@,
        },
{
    let mut i: usize = 0;
    while i < flags.len()
        invariant
            chain@.len() == flags@.len(),
            i <= flags@.len(),
            forall|j: int| 0 <= j < i ==> !flags@[j],
        decreases flags@.len() - i,
    {
        if flags[i] {
            proof {
                lemma_first_git_index_characterization(flags@);
            }
            return Some(chain[i].clone());
        }
        i = i + 1;
    }
    proof {
        lemma_first_git_index_characterization(flags@);
    }
    None
}

/// The "path does not exist" message for the start path `p`.
pub open spec fn path_missing_message(p: Seq<char>) -> Seq<char> {
    "Path '"@ + p + "' doesn't exist"@
}

/// Whether `m` is the "path does not exist" message of some start path.
pub open spec fn is_path_missing_message(m: Seq<char>) -> bool {
    exists|p: Seq<char>| m == path_missing_message(p)
}

/// Walks the ancestors of the start folder (the current directory when none
/// is given) and returns the first one holding a `.git` entry, `Ok(None)`
/// when the chain exhausts without a hit, and an error when the start folder
/// cannot be resolved or does not exist. Every failure is a domain message:
/// either the current folder was unresolvable, or the start path is missing;
/// with a given start folder, only the latter, with that path in the text.
pub(crate) fn git_subfolder(options: &GetGitInfoOptions) -> (r: Result<
    Option<String>,
    PromptError,
>)
    ensures
        r matches Err(e) ==> (e matches PromptError::Message(m) && (m@
            == "Current folder can't be resolved"@ || is_path_missing_message(m@))),
        options.start_folder matches Some(p) ==> (r matches Err(e) ==> (e
            matches PromptError::Message(m) && m@ == path_missing_message(p@))),
{
    let start: String = match &options.start_folder {
        Some(folder) => folder.clone(),
        None => match path_probe::current_dir_string() {
            Some(dir) => dir,
            None => {
                return Err(
                    PromptError::Message(String::from_str("Current folder can't be resolved")),
                );
            },
        },
    };

    if !path_probe::path_exists(start.as_str()) {
        let mut message = String::from_str("Path '");
        message.append(start.as_str());
        message.append("' doesn't exist");
        proof {
            assert(message@ =~= path_missing_message(start@));
        }
        return Err(PromptError::Message(message));
    }

    let chain = path_probe::ancestors_of(start.as_str());
    let mut flags: Vec<bool> = Vec::new();
    let mut i: usize = 0;
    while i < chain.len()
        invariant
            flags@.len() == i,
            i <= chain@.len(),
        decreases chain@.len() - i,
    {
        flags.push(path_probe::has_child(chain[i].as_str(), ".git"));
        i = i + 1;
    }
    Ok(locate_first_with_git(&chain, &flags))
}

// ------------------------------------------------------------------
// Head resolver
// ------------------------------------------------------------------

/// The raw head facts: the resolved reference name, its 20-byte object id,
/// and whether HEAD is detached.
#[derive(Debug)]
pub struct GitHeadInfoInternal {
    pub reference_name: Option<String>,
    pub oid: Option<Vec<u8>>,
    pub detached: bool,
}

/// The head-resolution state machine over the discovered reference kind:
/// an absent kind yields no name and no id; a symbolic reference takes its
/// symbolic target and the id of its resolution; a direct reference takes
/// its own name and target.
pub fn classify_head(
    kind: Option<RefKind>,
    symbolic_target: Option<String>,
    resolved_oid: Option<Vec<u8>>,
    direct_name: Option<String>,
    direct_oid: Option<Vec<u8>>,
    detached: bool,
) -> (r: GitHeadInfoInternal)
    ensures
        r.detached == detached,
        kind is None ==> r.reference_name is None && r.oid is None,
        kind matches Some(RefKind::Symbolic) ==> r.reference_name == symbolic_target && r.oid
            == resolved_oid,
        kind matches Some(RefKind::Direct) ==> r.reference_name == direct_name && r.oid
            == direct_oid,
{
    match kind {
        None => GitHeadInfoInternal { reference_name: None, oid: None, detached },
        Some(RefKind::Symbolic) => GitHeadInfoInternal {
            reference_name: symbolic_target,
            oid: resolved_oid,
            detached,
        },
        Some(RefKind::Direct) => GitHeadInfoInternal {
            reference_name: direct_name,
            oid: direct_oid,
            detached,
        },
    }
}

/// Resolves the configured reference of `options` into head facts. The
/// detached probe recovers to `false` on failure; a failing resolution of a
/// symbolic reference is logged and leaves the id absent; only the failure
/// of the top-level reference lookup propagates, as the repository
/// library's own error.
pub fn head_info(repo: &git2::Repository, options: &GetGitInfoOptions) -> (r: Result<
    GitHeadInfoInternal,
    PromptError,
>)
    ensures
        r matches Ok(facts) ==> (facts.oid matches Some(oid) ==> oid@.len() == 20),
        r matches Err(e) ==> e matches PromptError::Git(_),
{
    let detached = match git_ext::head_detached_raw(repo) {
        Ok(d) => d,
        Err(_) => false,
    };
    let reference = match git_ext::find_reference_in(repo, options.reference_name.as_str()) {
        Ok(reference) => reference,
        Err(err) => {
            return Err(PromptError::Git(err));
        },
    };

    let head_info = match git_ext::reference_kind_of(&reference) {
        None => classify_head(None, None, None, None, None, detached),
        Some(RefKind::Symbolic) => {
            let reference_name = git_ext::symbolic_target_of(&reference);
            let oid = match git_ext::resolve_reference(&reference) {
                Ok(resolved) => git_ext::reference_target_bytes(&resolved),
                Err(err) => {
                    PromptError::Git(err).log();
                    None
                },
            };
            classify_head(Some(RefKind::Symbolic), reference_name, oid, None, None, detached)
        },
        Some(RefKind::Direct) => {
            let reference_name = git_ext::reference_name_of(&reference);
            let oid = git_ext::reference_target_bytes(&reference);
            classify_head(Some(RefKind::Direct), None, None, reference_name, oid, detached)
        },
    };
    Ok(head_info)
}

/// Packages head facts for the renderer: the short reference is the part of
/// the name after its last `/`, and the short id is the first 8 characters
/// of the lowercase hex encoding of the 20-byte object id.
pub fn head_summary(facts: GitHeadInfoInternal) -> (r: GitHeadInfo)
    requires
        facts.oid matches Some(oid) ==> oid@.len() == 20,
    ensures
        r.detached == facts.detached,
        facts.reference_name matches Some(name) ==> r.reference_short matches Some(short)
            && short@ == util::last_part_spec(name@),
        facts.reference_name is None ==> r.reference_short is None,
        facts.oid matches Some(oid) ==> r.oid_short matches Some(hex) && hex@ == util::hex_of_bytes(
            oid@,
        ).take(8),
        facts.oid is None ==> r.oid_short is None,
{
    let reference_short = match facts.reference_name {
        Some(name) => Some(String::from_str(name.as_str().last_part())),
        None => None,
    };
    let oid_short = match facts.oid {
        Some(oid) => {
            let hex = util::bytes_to_hex(&oid, 4);
            proof {
                util::lemma_hex_of_bytes_prefix(oid@, 4);
            }
            Some(hex)
        },
        None => None,
    };
    GitHeadInfo { reference_short, oid_short, detached: facts.detached }
}

// ------------------------------------------------------------------
// Working-tree status summariser
// ------------------------------------------------------------------

/// The raw status bits of the repository library, as its sources define
/// them: `INDEX_*` compare HEAD to the index, `WT_*` the index to the
/// working tree.
pub const INDEX_NEW: u32 = 1;

pub const INDEX_MODIFIED: u32 = 2;

pub const INDEX_DELETED: u32 = 4;

pub const INDEX_RENAMED: u32 = 8;

pub const INDEX_TYPECHANGE: u32 = 16;

pub const WT_NEW: u32 = 128;

pub const WT_MODIFIED: u32 = 256;

pub const WT_DELETED: u32 = 512;

pub const WT_TYPECHANGE: u32 = 1024;

pub const WT_RENAMED: u32 = 2048;

pub const IGNORED: u32 = 16384;

pub const CONFLICTED: u32 = 32768;

/// The bitwise union of all per-entry status bitsets.
pub open spec fn union_bits(entries: Seq<u32>) -> u32
    decreases entries.len(),
{
    if entries.len() == 0 {
        0u32
    } else {
        union_bits(entries.drop_last()) | entries.last()
    }
}

/// The five classification flags of a status bitset union: each flag is the
/// OR over all entries of its defined subset of change kinds, and every
/// other bit (an unchanged or ignored entry among them) sets none.
pub open spec fn classify_spec(entries: Seq<u32>) -> GitFileStatus {
    let union = union_bits(entries);
    GitFileStatus {
        conflict: union & CONFLICTED != 0,
        untracked: union & WT_NEW != 0,
        typechange: union & WT_TYPECHANGE != 0,
        unstaged: union & (WT_MODIFIED | WT_DELETED | WT_RENAMED) != 0,
        staged: union & (INDEX_NEW | INDEX_MODIFIED | INDEX_DELETED | INDEX_RENAMED
            | INDEX_TYPECHANGE) != 0,
    }
}

/// Classification monotonicity: one entry more can only set additional
/// flags, never clear one already set.
pub proof fn lemma_classification_monotonic(entries: Seq<u32>, extra: u32)
    ensures
        classify_spec(entries).conflict ==> classify_spec(entries.push(extra)).conflict,
        classify_spec(entries).untracked ==> classify_spec(entries.push(extra)).untracked,
        classify_spec(entries).typechange ==> classify_spec(entries.push(extra)).typechange,
        classify_spec(entries).unstaged ==> classify_spec(entries.push(extra)).unstaged,
        classify_spec(entries).staged ==> classify_spec(entries.push(extra)).staged,
{
    assert(entries.push(extra).drop_last() =~= entries);
    assert(entries.push(extra).last() == extra);
    let union = union_bits(entries);
    assert forall|m: u32| (union & m) != 0 implies ((union | extra) & m) != 0 by {
        assert((union & m) != 0 ==> ((union | extra) & m) != 0) by (bit_vector);
    }
}

/// Folds the per-entry bitsets and classifies their union.
pub fn classify_status(entries: &Vec<u32>) -> (r: GitFileStatus)
    ensures
        r == classify_spec(entries@),
{
    let mut union: u32 = 0;
    let mut i: usize = 0;
    while i < entries.len()
        invariant
            i <= entries@.len(),
            union == union_bits(entries@.take(i as int)),
        decreases entries@.len() - i,
    {
        proof {
            assert(entries@.take(i + 1).drop_last() =~= entries@.take(i as int));
            assert(entries@.take(i + 1).last() == entries@[i as int]);
        }
        union = union | entries[i];
        i = i + 1;
    }
    proof {
        assert(entries@.take(entries@.len() as int) =~= entries@);
    }
    GitFileStatus {
        conflict: union & CONFLICTED != 0,
        untracked: union & WT_NEW != 0,
        typechange: union & WT_TYPECHANGE != 0,
        unstaged: union & (WT_MODIFIED | WT_DELETED | WT_RENAMED) != 0,
        staged: union & (INDEX_NEW | INDEX_MODIFIED | INDEX_DELETED | INDEX_RENAMED
            | INDEX_TYPECHANGE) != 0,
    }
}

/// The status query configuration for the given options: the index is
/// always looked at and the working directory only when asked; refresh and
/// index update are gated together; submodules are excluded unless
/// included; ignored and unreadable files are never shown; untracked files
/// only when asked.
pub fn status_query(options: &GetGitInfoOptions) -> (q: StatusQuery)
    ensures
        options.include_workdir_stats ==> q.show matches StatusShowKind::IndexAndWorkdir,
        !options.include_workdir_stats ==> q.show matches StatusShowKind::Index,
        q.no_refresh == !options.refresh_status,
        q.update_index == options.refresh_status,
        q.exclude_submodules == !options.include_submodules,
        !q.include_ignored,
        !q.include_unreadable,
        q.include_untracked == options.include_untracked,
{
    StatusQuery {
        show: if options.include_workdir_stats {
            StatusShowKind::IndexAndWorkdir
        } else {
            StatusShowKind::Index
        },
        no_refresh: !options.refresh_status,
        update_index: options.refresh_status,
        exclude_submodules: !options.include_submodules,
        include_ignored: false,
        include_unreadable: false,
        include_untracked: options.include_untracked,
    }
}

/// Asks the repository for the per-entry status bitsets, configured by
/// `status_query`, and classifies their union. The only failure is the
/// repository library's own error from the status query.
pub fn file_status(repo: &git2::Repository, options: &GetGitInfoOptions) -> (r: Result<
    GitFileStatus,
    PromptError,
>)
    ensures
        r matches Err(e) ==> e matches PromptError::Git(_),
{
    let query = status_query(options);
    let status_options = git_ext::build_status_options(&query);
    match git_ext::statuses_bits(repo, status_options) {
        Ok(bits) => Ok(classify_status(&bits)),
        Err(err) => Err(PromptError::Git(err)),
    }
}

// ------------------------------------------------------------------
// Upstream comparator
// ------------------------------------------------------------------

/// Whether head facts carry both a reference name and an object id — the
/// precondition for an upstream comparison.
pub open spec fn head_complete(head: Option<GitHeadInfoInternal>) -> bool {
    head matches Some(facts) && facts.reference_name is Some && facts.oid is Some
}

/// Counts the commits ahead of and behind the configured upstream of the
/// head reference. Head facts without a name or id are rejected at once,
/// and only then, with the missing-tracking message; with complete facts,
/// an unconfigured or unresolvable upstream surfaces as the repository
/// library's error, and a non-UTF-8 upstream name or an upstream without
/// an id as its own message.
pub fn graph_ahead_behind(repo: &git2::Repository, head: &Option<GitHeadInfoInternal>) -> (r:
    Result<GitBranchAheadBehind, PromptError>)
    ensures
        !head_complete(*head) ==> (r matches Err(e) && e matches PromptError::Message(m) && m@
            == "tracking branch doesn't exist"@),
        r is Ok ==> head_complete(*head),
        head_complete(*head) ==> (r matches Err(e) ==> ((e matches PromptError::Git(_)) || (e
            matches PromptError::Message(m) && (m@
            == "tracking branch can't be converted to an UTF-8 string"@ || m@
            == "tracking branch {:?} has no oid"@)))),
{
    let (reference_name, head_oid): (&Option<String>, &Option<Vec<u8>>) = match head {
        Some(facts) => (&facts.reference_name, &facts.oid),
        None => {
            return Err(PromptError::Message(String::from_str("tracking branch doesn't exist")));
        },
    };
    let reference = match reference_name {
        Some(name) => name,
        None => {
            return Err(PromptError::Message(String::from_str("tracking branch doesn't exist")));
        },
    };
    let local_oid = match head_oid {
        Some(oid) => oid,
        None => {
            return Err(PromptError::Message(String::from_str("tracking branch doesn't exist")));
        },
    };

    let tracking_branch = match git_ext::upstream_name_of(repo, reference.as_str()) {
        Ok(tracking) => tracking,
        Err(err) => {
            return Err(PromptError::Git(err));
        },
    };
    let tracking_name = match tracking_branch {
        Some(name) => name,
        None => {
            return Err(
                PromptError::Message(
                    String::from_str("tracking branch can't be converted to an UTF-8 string"),
                ),
            );
        },
    };

    let tracking_reference = match git_ext::find_reference_in(repo, tracking_name.as_str()) {
        Ok(reference) => reference,
        Err(err) => {
            return Err(PromptError::Git(err));
        },
    };
    let tracking_oid = match git_ext::reference_target_bytes(&tracking_reference) {
        Some(oid) => oid,
        None => {
            return Err(PromptError::Message(String::from_str("tracking branch {:?} has no oid")));
        },
    };

    match git_ext::ahead_behind_counts(repo, local_oid, &tracking_oid) {
        Ok((ahead, behind)) => Ok(GitBranchAheadBehind { ahead, behind }),
        Err(err) => Err(PromptError::Git(err)),
    }
}

// ------------------------------------------------------------------
// Orchestrator
// ------------------------------------------------------------------

/// A report made of the three given fields, each taken as it is.
pub open spec fn report_of(
    head_info: Option<GitHeadInfo>,
    file_status: Option<GitFileStatus>,
    branch_ahead_behind: Option<GitBranchAheadBehind>,
) -> GitOutputOptions {
    GitOutputOptions { head_info, file_status, branch_ahead_behind }
}

/// Packages the three optional results; each field of the report carries
/// exactly its own result, untouched by the others.
pub fn assemble_report(
    head_info: Option<GitHeadInfo>,
    file_status: Option<GitFileStatus>,
    branch_ahead_behind: Option<GitBranchAheadBehind>,
) -> (r: GitOutputOptions)
    ensures
        r == report_of(head_info, file_status, branch_ahead_behind),
{
    GitOutputOptions { head_info, file_status, branch_ahead_behind }
}

/// Partial failure independence: forcing any one of the three results to be
/// absent leaves the other two fields of the report exactly as they were.
pub proof fn lemma_partial_failure_independence(
    head_info: Option<GitHeadInfo>,
    file_status: Option<GitFileStatus>,
    branch_ahead_behind: Option<GitBranchAheadBehind>,
)
    ensures
        report_of(None, file_status, branch_ahead_behind).file_status == report_of(
            head_info,
            file_status,
            branch_ahead_behind,
        ).file_status,
        report_of(None, file_status, branch_ahead_behind).branch_ahead_behind == report_of(
            head_info,
            file_status,
            branch_ahead_behind,
        ).branch_ahead_behind,
        report_of(head_info, None, branch_ahead_behind).head_info == report_of(
            head_info,
            file_status,
            branch_ahead_behind,
        ).head_info,
        report_of(head_info, None, branch_ahead_behind).branch_ahead_behind == report_of(
            head_info,
            file_status,
            branch_ahead_behind,
        ).branch_ahead_behind,
        report_of(head_info, file_status, None).head_info == report_of(
            head_info,
            file_status,
            branch_ahead_behind,
        ).head_info,
        report_of(head_info, file_status, None).file_status == report_of(
            head_info,
            file_status,
            branch_ahead_behind,
        ).file_status,
{
}

/// Inspects the repository at `path`: one pass computes the head facts and,
/// when asked, the ahead/behind counts against the upstream; an independent
/// pass over its own repository handle computes the file status. A failure
/// of any one computation is logged and leaves only its own field absent;
/// a present ahead/behind field entails a head summary with both short
/// fields, since the comparison needs a complete head.
pub fn process_repo(path: &str, options: &GetGitInfoOptions) -> (r: Result<
    GitOutputOptions,
    PromptError,
>)
    ensures
        r matches Ok(report) ==> (!options.include_ahead_behind
            ==> report.branch_ahead_behind is None),
        r matches Ok(report) ==> (report.branch_ahead_behind is Some ==> (report.head_info
            matches Some(h) && h.reference_short is Some && h.oid_short is Some)),
        r is Ok,
{
    let mut head_info_result: Option<GitHeadInfo> = None;
    let mut branch_ahead_behind_result: Option<GitBranchAheadBehind> = None;
    let mut file_status_result: Option<GitFileStatus> = None;

    match git_ext::repo_open(path) {
        Err(err) => {
            PromptError::Git(err).log();
        },
        Ok(repo) => {
            let head_info_internal = head_info(&repo, options).map_log();
            if options.include_ahead_behind {
                branch_ahead_behind_result = graph_ahead_behind(&repo, &head_info_internal)
                    .map_log();
            }
            proof {
                assert(branch_ahead_behind_result is Some ==> head_complete(head_info_internal));
            }
            head_info_result = match head_info_internal {
                Some(facts) => Some(head_summary(facts)),
                None => None,
            };
        },
    }

    match git_ext::repo_open(path) {
        Err(err) => {
            PromptError::Git(err).log();
        },
        Ok(repo) => {
            file_status_result = file_status(&repo, options).map_log();
        },
    }

    Ok(assemble_report(head_info_result, file_status_result, branch_ahead_behind_result))
}

/// Locates the repository enclosing the start folder and inspects it; no
/// repository, an unresolvable start folder and a start folder that does
/// not exist are the report-level failures, each a domain message of a
/// known shape — inspection itself never fails the report.
pub fn process_current_dir(options: &GetGitInfoOptions) -> (r: Result<
    GitOutputOptions,
    PromptError,
>)
    ensures
        r matches Ok(report) ==> (!options.include_ahead_behind
            ==> report.branch_ahead_behind is None),
        r matches Ok(report) ==> (report.branch_ahead_behind is Some ==> (report.head_info
            matches Some(h) && h.reference_short is Some && h.oid_short is Some)),
        r matches Err(e) ==> (e matches PromptError::Message(m) && (m@ == "Not found .git folder"@
            || m@ == "Current folder can't be resolved"@ || is_path_missing_message(m@))),
        options.start_folder matches Some(p) ==> (r matches Err(e) ==> (e
            matches PromptError::Message(m) && (m@ == "Not found .git folder"@ || m@
            == path_missing_message(p@)))),
{
    match git_subfolder(options) {
        Err(err) => Err(err),
        Ok(None) => Err(PromptError::Message(String::from_str("Not found .git folder"))),
        Ok(Some(git_dir)) => process_repo(git_dir.as_str(), options),
    }
}

} // verus!
