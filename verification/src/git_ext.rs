//! Trusted bindings to the `git2` crate.
//!
//! Every function here is an `external_body` wrapper around exactly one
//! repository operation; the rest of the library is verified against the
//! contracts stated on these wrappers. Results that depend on the repository
//! on disk carry no stronger promise than what holds of every outcome.

use vstd::prelude::*;

verus! {

#[verifier::external_type_specification]
#[verifier::external_body]
pub struct ExGitError(git2::Error);

#[verifier::external_type_specification]
#[verifier::external_body]
pub struct ExRepository(git2::Repository);

#[verifier::external_type_specification]
#[verifier::external_body]
pub struct ExReference<'a>(git2::Reference<'a>);

#[verifier::external_type_specification]
#[verifier::external_body]
pub struct ExStatusOptions(git2::StatusOptions);

/// The two reference kinds the repository distinguishes on lookup.
pub enum RefKind {
    Symbolic,
    Direct,
}

/// Which side of the repository a status query looks at.
pub enum StatusShowKind {
    IndexAndWorkdir,
    Index,
}

/// The full configuration handed to the repository's status query.
pub struct StatusQuery {
    pub show: StatusShowKind,
    pub no_refresh: bool,
    pub update_index: bool,
    pub exclude_submodules: bool,
    pub include_ignored: bool,
    pub include_unreadable: bool,
    pub include_untracked: bool,
}

/// Relies on git2::Repository::open: opens the repository at `path`.
#[verifier::external_body]
pub(crate) fn repo_open(path: &str) -> Result<git2::Repository, git2::Error> {
    git2::Repository::open(path)
}

/// Relies on git2::Repository::head_detached: whether HEAD is detached.
#[verifier::external_body]
pub(crate) fn head_detached_raw(repo: &git2::Repository) -> Result<bool, git2::Error> {
    repo.head_detached()
}

/// Relies on git2::Repository::find_reference: looks the named reference up.
#[verifier::external_body]
pub(crate) fn find_reference_in<'r>(
    repo: &'r git2::Repository,
    name: &str,
) -> Result<git2::Reference<'r>, git2::Error> {
    repo.find_reference(name)
}

/// Relies on git2::Reference::kind: `None` when the kind is unknown.
#[verifier::external_body]
pub(crate) fn reference_kind_of(reference: &git2::Reference<'_>) -> Option<RefKind> {
    match reference.kind() {
        Some(git2::ReferenceType::Symbolic) => Some(RefKind::Symbolic),
        Some(git2::ReferenceType::Direct) => Some(RefKind::Direct),
        None => None,
    }
}

/// Relies on git2::Reference::name: the reference's own full name, `None`
/// when it is not valid UTF-8.
#[verifier::external_body]
pub(crate) fn reference_name_of(reference: &git2::Reference<'_>) -> Option<String> {
    match reference.name() {
        Ok(name) => Some(name.to_string()),
        Err(_) => None,
    }
}

/// Relies on git2::Reference::symbolic_target: the name of the reference a
/// symbolic reference points to; `None` for a direct reference or a target
/// that is not valid UTF-8.
#[verifier::external_body]
pub(crate) fn symbolic_target_of(reference: &git2::Reference<'_>) -> Option<String> {
    match reference.symbolic_target() {
        Ok(Some(target)) => Some(target.to_string()),
        Ok(None) => None,
        Err(_) => None,
    }
}

/// Relies on git2::Reference::resolve: peels a symbolic reference to a
/// direct one (a direct reference resolves to a copy of itself).
#[verifier::external_body]
pub(crate) fn resolve_reference<'r>(
    reference: &git2::Reference<'r>,
) -> Result<git2::Reference<'r>, git2::Error> {
    reference.resolve()
}

/// Relies on git2::Reference::target and git2::Oid::as_bytes: the 20-byte
/// object id of a direct reference, `None` for a symbolic one.
#[verifier::external_body]
pub(crate) fn reference_target_bytes(reference: &git2::Reference<'_>) -> (r: Option<Vec<u8>>)
    ensures
        r matches Some(oid) ==> oid@.len() == 20,
{
    reference.target().map(|oid| oid.as_bytes().to_vec())
}

/// Relies on git2::StatusOptions: a fresh set of options with each field of
/// the query forwarded to its setter.
#[verifier::external_body]
pub(crate) fn build_status_options(query: &StatusQuery) -> git2::StatusOptions {
    let mut options = git2::StatusOptions::new();
    options.show(match query.show {
        StatusShowKind::IndexAndWorkdir => git2::StatusShow::IndexAndWorkdir,
        StatusShowKind::Index => git2::StatusShow::Index,
    });
    options.no_refresh(query.no_refresh);
    options.update_index(query.update_index);
    options.exclude_submodules(query.exclude_submodules);
    options.include_ignored(query.include_ignored);
    options.include_unreadable(query.include_unreadable);
    options.include_untracked(query.include_untracked);
    options
}

/// Relies on git2::Repository::statuses, git2::StatusEntry::status and
/// git2::Status::bits: one raw status bitset per reported entry.
#[verifier::external_body]
pub(crate) fn statuses_bits(
    repo: &git2::Repository,
    options: git2::StatusOptions,
) -> Result<Vec<u32>, git2::Error> {
    let mut options = options;
    let statuses = repo.statuses(Some(&mut options))?;
    Ok(statuses.iter().map(|entry| entry.status().bits()).collect())
}

/// Relies on git2::Repository::branch_upstream_name and git2::Buf::as_str:
/// the configured upstream reference name of the named local branch,
/// `Ok(None)` when that name is not valid UTF-8.
#[verifier::external_body]
pub(crate) fn upstream_name_of(
    repo: &git2::Repository,
    refname: &str,
) -> Result<Option<String>, git2::Error> {
    let buf = repo.branch_upstream_name(refname)?;
    Ok(match buf.as_str() {
        Ok(name) => Some(name.to_string()),
        Err(_) => None,
    })
}

/// Relies on git2::Repository::graph_ahead_behind, with git2::Oid::from_bytes
/// converting each 20-byte id: the count of commits reachable from `local`
/// but not `upstream`, then the reverse.
#[verifier::external_body]
pub(crate) fn ahead_behind_counts(
    repo: &git2::Repository,
    local: &Vec<u8>,
    upstream: &Vec<u8>,
) -> Result<(usize, usize), git2::Error> {
    let local_oid = git2::Oid::from_bytes(local)?;
    let upstream_oid = git2::Oid::from_bytes(upstream)?;
    repo.graph_ahead_behind(local_oid, upstream_oid)
}

/// Relies on git2::Error::message: the human-readable message.
#[verifier::external_body]
pub(crate) fn git_error_text(err: &git2::Error) -> String {
    err.message().to_string()
}

} // verus!
