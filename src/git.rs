//! The version-control operations: one clone attempt, reading the commit a
//! fresh clone stands at, and refreshing an existing working copy to a ref.
use vstd::prelude::*;
use vstd::string::*;

use git2::{Commit, Cred, Error, FetchOptions, Reference, Remote, RemoteCallbacks, Repository};
use tempfile::TempDir;

use crate::error::ApsError;
use crate::fallback::CloneFallback;
use crate::refs::{candidates, clone_plan, refresh_plan, ssh_user};

verus! {

#[verifier::external_type_specification]
#[verifier::external_body]
pub struct ExRepository(Repository);

#[verifier::external_type_specification]
#[verifier::external_body]
pub struct ExError(Error);

#[verifier::external_type_specification]
#[verifier::external_body]
pub struct ExCred(Cred);

#[verifier::external_type_specification]
#[verifier::external_body]
pub struct ExRemote<'repo>(Remote<'repo>);

#[verifier::external_type_specification]
#[verifier::external_body]
pub struct ExReference<'repo>(Reference<'repo>);

#[verifier::external_type_specification]
#[verifier::external_body]
pub struct ExCommit<'repo>(Commit<'repo>);

#[verifier::external_type_specification]
#[verifier::external_body]
pub struct ExTempDir(TempDir);

#[verifier::external_type_specification]
#[verifier::external_body]
pub struct ExIoError(std::io::Error);

/// A full commit identity: forty lowercase hexadecimal digits.
pub open spec fn commit_hex(s: Seq<char>) -> bool {
    s.len() == 40 && forall|i: int|
        0 <= i < s.len() ==> (('0' <= #[trigger] s[i] && s[i] <= '9') || ('a' <= s[i] && s[i] <= 'f'))
}

/// `context: detail`, the shape of every error message built here.
pub open spec fn with_detail(context: Seq<char>, detail: Seq<char>) -> Seq<char> {
    context + ": "@ + detail
}

/// An error message that begins with `context: `.
pub open spec fn reports(message: Seq<char>, context: Seq<char>) -> bool {
    exists|detail: Seq<char>| message == #[trigger] with_detail(context, detail)
}

/// Relies on `tempfile::TempDir::new`: makes a fresh temporary directory,
/// removed when the handle is dropped.
#[verifier::external_body]
fn temp_dir_new() -> (r: Result<TempDir, std::io::Error>) {
    TempDir::new()
}

/// Relies on `tempfile::TempDir::path` and `Path::to_str`: the directory's
/// path as text, or `None` where it is not valid UTF-8.
#[verifier::external_body]
fn temp_dir_path(dir: &TempDir) -> (r: Option<String>) {
    dir.path().to_str().map(String::from)
}

/// Relies on `std::io::Error`'s `Display`: the description of the failure.
#[verifier::external_body]
fn io_error_text(e: &std::io::Error) -> (r: String) {
    e.to_string()
}

/// Relies on `git2::Error`'s `Display`: the library's message, class and code.
#[verifier::external_body]
fn git_error_text(e: &Error) -> (r: String) {
    e.to_string()
}

/// Relies on `git2::Cred::ssh_key_from_agent`: asks the running SSH agent
/// for a key of `user`.
#[verifier::external_body]
fn cred_from_agent(user: &str) -> (r: Result<Cred, Error>) {
    Cred::ssh_key_from_agent(user)
}

/// Relies on `git2::build::RepoBuilder::clone`: clones `url` into `into`,
/// checking out `branch`, fetching `depth` commits (all for zero), with
/// credentials asked of the SSH agent. `RepoBuilder::branch` panics on a
/// branch name that holds a NUL.
#[verifier::external_body]
fn clone_with_agent(url: &str, into: &str, branch: &str, depth: i32) -> (r: Result<
    Repository,
    Error,
>)
    requires
        !branch@.contains('\0'),
{
    let mut callbacks = RemoteCallbacks::new();
    callbacks.credentials(|_url, user, _allowed| agent_credential(user));
    let mut opts = FetchOptions::new();
    opts.remote_callbacks(callbacks);
    opts.depth(depth);
    let mut builder = git2::build::RepoBuilder::new();
    builder.fetch_options(opts);
    builder.branch(branch);
    builder.clone(url, std::path::Path::new(into))
}

/// Relies on `git2::build::RepoBuilder::clone`: clones `url` into `into`,
/// checking out `branch`, fetching `depth` commits (all for zero), with no
/// credential callback. `RepoBuilder::branch` panics on a branch name that
/// holds a NUL.
#[verifier::external_body]
fn clone_without_agent(url: &str, into: &str, branch: &str, depth: i32) -> (r: Result<
    Repository,
    Error,
>)
    requires
        !branch@.contains('\0'),
{
    let mut opts = FetchOptions::new();
    opts.depth(depth);
    let mut builder = git2::build::RepoBuilder::new();
    builder.fetch_options(opts);
    builder.branch(branch);
    builder.clone(url, std::path::Path::new(into))
}

/// Relies on `git2::Repository::open`: opens the repository at `path`.
#[verifier::external_body]
fn repository_open(path: &str) -> (r: Result<Repository, Error>) {
    Repository::open(path)
}

/// Relies on `git2::Repository::find_remote`: the remote called `name`.
#[verifier::external_body]
fn repository_find_remote<'repo>(repo: &'repo Repository, name: &str) -> (r: Result<
    Remote<'repo>,
    Error,
>) {
    repo.find_remote(name)
}

/// Relies on `git2::Remote::fetch`: fetches `refspec`, `depth` commits
/// deep (all for zero), with credentials asked of the SSH agent.
#[verifier::external_body]
fn fetch_with_agent(remote: &mut Remote, refspec: &str, depth: i32) -> (r: Result<(), Error>) {
    let mut callbacks = RemoteCallbacks::new();
    callbacks.credentials(|_url, user, _allowed| agent_credential(user));
    let mut opts = FetchOptions::new();
    opts.remote_callbacks(callbacks);
    opts.depth(depth);
    remote.fetch(&[refspec], Some(&mut opts), None)
}

/// Relies on `git2::Remote::fetch`: fetches `refspec`, `depth` commits
/// deep (all for zero), with no credential callback.
#[verifier::external_body]
fn fetch_without_agent(remote: &mut Remote, refspec: &str, depth: i32) -> (r: Result<(), Error>) {
    let mut opts = FetchOptions::new();
    opts.depth(depth);
    remote.fetch(&[refspec], Some(&mut opts), None)
}

/// Relies on `git2::Repository::head`: the reference HEAD points to.
#[verifier::external_body]
fn repository_head<'repo>(repo: &'repo Repository) -> (r: Result<Reference<'repo>, Error>) {
    repo.head()
}

/// Relies on `git2::Repository::find_reference`: the reference called `name`.
#[verifier::external_body]
fn repository_find_reference<'repo>(repo: &'repo Repository, name: &str) -> (r: Result<
    Reference<'repo>,
    Error,
>) {
    repo.find_reference(name)
}

/// Relies on `git2::Reference::peel_to_commit`: the commit a reference leads to.
#[verifier::external_body]
fn reference_peel_to_commit<'repo>(reference: &Reference<'repo>) -> (r: Result<
    Commit<'repo>,
    Error,
>) {
    reference.peel_to_commit()
}

/// Relies on `git2::Commit::id` and `git2::Oid`'s `Display`, which writes a
/// SHA-1 object id as forty lowercase hexadecimal digits.
#[verifier::external_body]
fn commit_id_text(commit: &Commit) -> (r: String)
    ensures
        commit_hex(r@),
{
    commit.id().to_string()
}

/// Relies on `git2::Repository::checkout_tree`: updates the index and the
/// working tree to the tree of `commit`.
#[verifier::external_body]
fn repository_checkout_tree(repo: &Repository, commit: &Commit) -> (r: Result<(), Error>) {
    repo.checkout_tree(commit.as_object(), None)
}

/// The credential of a remote operation: a key from the SSH agent, for the
/// user named in the URL, else for `git`.
fn agent_credential(user_from_url: Option<&str>) -> (r: Result<Cred, Error>) {
    cred_from_agent(ssh_user(user_from_url))
}

/// A git error whose message is `context: ` and the description of `e`.
fn git_failure(context: &str, e: &Error) -> (r: ApsError)
    ensures
        r is GitError,
        reports(r.message_spec(), context@),
{
    let detail = git_error_text(e);
    let mut message = String::from_str(context);
    message.append(": ");
    message.append(detail.as_str());
    assert(message@ == with_detail(context@, detail@));
    ApsError::GitError { message }
}

/// The message of the failure to make the working directory.
pub open spec fn workdir_context() -> Seq<char> {
    "Failed to create temp directory for git clone"@
}

/// Makes the fresh temporary directory that a clone goes into, with its path.
pub fn create_workdir() -> (r: Result<(TempDir, String), ApsError>)
    ensures
        r matches Err(e) ==> (e is Io && reports(e.message_spec(), workdir_context())),
{
    match temp_dir_new() {
        Ok(dir) => match temp_dir_path(&dir) {
            Some(path) => Ok((dir, path)),
            None => {
                let mut message = String::from_str("Failed to create temp directory for git clone");
                message.append(": ");
                message.append("its path is not valid UTF-8");
                assert(message@ == with_detail(workdir_context(), "its path is not valid UTF-8"@));
                Err(ApsError::Io { message })
            },
        },
        Err(e) => {
            let detail = io_error_text(&e);
            let mut message = String::from_str("Failed to create temp directory for git clone");
            message.append(": ");
            message.append(detail.as_str());
            assert(message@ == with_detail(workdir_context(), detail@));
            Err(ApsError::Io { message })
        },
    }
}

/// The failure of a clone attempt whose ref name holds a NUL character,
/// which no branch name can.
pub open spec fn nul_ref_message() -> Seq<char> {
    "ref name contains a NUL character"@
}

/// Whether `s` holds a NUL character.
fn holds_nul(s: &str) -> (r: bool)
    ensures
        r == s@.contains('\0'),
{
    let n = s.unicode_len();
    let mut i: usize = 0;
    while i < n
        invariant
            n == s@.len(),
            i <= n,
            forall|j: int| 0 <= j < i ==> s@[j] != '\0',
        decreases n - i,
    {
        if s.get_char(i) == '\0' {
            return true;
        }
        i = i + 1;
    }
    false
}

/// Why a clone attempt failed.
pub enum CloneFailure {
    /// The ref name holds a NUL character, which no branch name can; no
    /// clone was made.
    NulRef,
    /// The clone failed, with the version-control layer's description.
    Clone(String),
}

impl CloneFailure {
    pub open spec fn text(&self) -> Seq<char> {
        match self {
            CloneFailure::NulRef => nul_ref_message(),
            CloneFailure::Clone(d) => d@,
        }
    }

    /// The description of the failure.
    pub fn describe(&self) -> (r: String)
        ensures
            r@ == self.text(),
    {
        match self {
            CloneFailure::NulRef => String::from_str("ref name contains a NUL character"),
            CloneFailure::Clone(d) => d.clone(),
        }
    }
}

/// One clone attempt: clones the branch `ref_name` of `url` into `path`, with
/// the fetch options of `clone_plan(url, shallow)`. A ref name that holds a
/// NUL, and only such a name, fails without a clone.
pub fn clone_attempt(url: &str, path: &str, ref_name: &str, shallow: bool) -> (r: Result<
    Repository,
    CloneFailure,
>)
    ensures
        (r matches Err(e) && e is NulRef) <==> ref_name@.contains('\0'),
{
    if holds_nul(ref_name) {
        return Err(CloneFailure::NulRef);
    }
    let plan = clone_plan(url, shallow);
    let cloned = if plan.agent_credentials {
        clone_with_agent(url, path, ref_name, plan.depth)
    } else {
        clone_without_agent(url, path, ref_name, plan.depth)
    };
    match cloned {
        Ok(repo) => Ok(repo),
        Err(e) => Err(CloneFailure::Clone(git_error_text(&e))),
    }
}

/// The failure to read HEAD, or to resolve it to a commit.
pub open spec fn head_failure(message: Seq<char>) -> bool {
    reports(message, "Failed to get HEAD"@) || reports(message, "Failed to get commit"@)
}

/// The full identity of the commit that HEAD of `repo` resolves to.
pub fn head_commit_sha(repo: &Repository) -> (r: Result<String, ApsError>)
    ensures
        r matches Ok(sha) ==> commit_hex(sha@),
        r matches Err(e) ==> e is GitError && head_failure(e.message_spec()),
{
    let head = match repository_head(repo) {
        Ok(h) => h,
        Err(e) => {
            return Err(git_failure("Failed to get HEAD", &e));
        },
    };
    match reference_peel_to_commit(&head) {
        Ok(commit) => Ok(commit_id_text(&commit)),
        Err(e) => Err(git_failure("Failed to get commit", &e)),
    }
}

/// A working copy obtained by a clone, with the ref and commit it stands at.
pub struct ResolvedGitSource {
    /// The temporary directory that holds the clone; dropping it removes the clone.
    pub temp_dir: TempDir,
    /// The path of the working copy, inside `temp_dir`.
    pub repo_path: String,
    /// The candidate ref that was cloned.
    pub resolved_ref: String,
    /// The full identity of the commit that `resolved_ref` pointed to.
    pub commit_sha: String,
}

/// Completes the clone attempt of `fallback`'s current candidate, which
/// succeeded into `repo_path`: reads the commit that `repo` stands at. A
/// clone whose head cannot be resolved fails the whole resolution.
pub fn resolve_source(
    fallback: &CloneFallback,
    temp_dir: TempDir,
    repo_path: String,
    repo: &Repository,
) -> (r: Result<ResolvedGitSource, ApsError>)
    requires
        fallback.wf(),
        fallback.tried < fallback.refs@.len(),
    ensures
        r matches Ok(s) ==> s.repo_path == repo_path && s.resolved_ref@ == fallback.names()[
            fallback.tried as int] && candidates(fallback.requested@).contains(s.resolved_ref@)
            && commit_hex(s.commit_sha@),
        r matches Err(e) ==> e is GitError && head_failure(e.message_spec()),
{
    let resolved_ref = fallback.succeeded();
    match head_commit_sha(repo) {
        Ok(commit_sha) => Ok(ResolvedGitSource { temp_dir, repo_path, resolved_ref, commit_sha }),
        Err(e) => Err(e),
    }
}

/// The contexts of the failures of a refresh, one for each step.
pub open spec fn refresh_failure(message: Seq<char>) -> bool {
    reports(message, "Failed to open repository"@)
        || reports(message, "Failed to find remote 'origin'"@)
        || reports(message, "Failed to fetch"@)
        || reports(message, "Failed to find FETCH_HEAD"@)
        || reports(message, "Failed to get commit"@)
        || reports(message, "Failed to checkout"@)
}

/// Refreshes the working copy at `repo_path` to `git_ref`: fetches the ref
/// from the remote `origin`, always with agent credentials, and checks the
/// fetched commit out. Returns the ref unchanged and the commit's identity.
pub fn fetch_and_checkout(repo_path: &str, git_ref: &str) -> (r: Result<(String, String), ApsError>)
    ensures
        r matches Ok((fetched, sha)) ==> fetched@ == git_ref@ && commit_hex(sha@),
        r matches Err(e) ==> e is GitError && refresh_failure(e.message_spec()),
{
    let repo = match repository_open(repo_path) {
        Ok(repo) => repo,
        Err(e) => {
            return Err(git_failure("Failed to open repository", &e));
        },
    };
    let mut remote = match repository_find_remote(&repo, "origin") {
        Ok(remote) => remote,
        Err(e) => {
            return Err(git_failure("Failed to find remote 'origin'", &e));
        },
    };
    let plan = refresh_plan();
    let fetched = if plan.agent_credentials {
        fetch_with_agent(&mut remote, git_ref, plan.depth)
    } else {
        fetch_without_agent(&mut remote, git_ref, plan.depth)
    };
    match fetched {
        Ok(()) => {},
        Err(e) => {
            return Err(git_failure("Failed to fetch", &e));
        },
    }
    let fetch_head = match repository_find_reference(&repo, "FETCH_HEAD") {
        Ok(reference) => reference,
        Err(e) => {
            return Err(git_failure("Failed to find FETCH_HEAD", &e));
        },
    };
    let commit = match reference_peel_to_commit(&fetch_head) {
        Ok(commit) => commit,
        Err(e) => {
            return Err(git_failure("Failed to get commit", &e));
        },
    };
    let commit_sha = commit_id_text(&commit);
    match repository_checkout_tree(&repo, &commit) {
        Ok(()) => Ok((String::from_str(git_ref), commit_sha)),
        Err(e) => Err(git_failure("Failed to checkout", &e)),
    }
}

} // verus!
