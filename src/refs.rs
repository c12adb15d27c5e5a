//! Which refs a clone tries, and which fetch options each remote operation uses.
use vstd::prelude::*;
use vstd::string::*;

verus! {

/// The ref name that asks for the repository's default branch.
pub open spec fn auto_ref() -> Seq<char> {
    "automatic"@
}

/// The first branch tried for the automatic ref.
pub open spec fn primary_branch() -> Seq<char> {
    "main"@
}

/// The second branch tried for the automatic ref.
pub open spec fn secondary_branch() -> Seq<char> {
    "master"@
}

/// The ordered refs that a clone of `git_ref` tries, first success wins.
pub open spec fn candidates(git_ref: Seq<char>) -> Seq<Seq<char>> {
    if git_ref == auto_ref() {
        seq![primary_branch(), secondary_branch()]
    } else {
        seq![git_ref]
    }
}

/// A URL that names an SSH remote, whose operations need credentials.
pub open spec fn ssh_url(url: Seq<char>) -> bool {
    "git@"@.is_prefix_of(url) || "ssh://"@.is_prefix_of(url)
}

/// The user name asked of the SSH agent when the URL carries none.
pub open spec fn default_ssh_user() -> Seq<char> {
    "git"@
}

/// Relies on `str::starts_with`: true exactly when `prefix` begins `s`.
#[verifier::external_body]
fn starts_with(s: &str, prefix: &str) -> (r: bool)
    ensures
        r == prefix@.is_prefix_of(s@),
{
    s.starts_with(prefix)
}

/// Whether `url` is an SSH-style URL (`git@...` or `ssh://...`).
pub fn is_ssh_url(url: &str) -> (r: bool)
    ensures
        r == ssh_url(url@),
{
    starts_with(url, "git@") || starts_with(url, "ssh://")
}

/// The refs to try, in order, for a requested ref.
pub fn ref_candidates(git_ref: &str) -> (r: Vec<String>)
    ensures
        r@.map_values(|s: String| s@) == candidates(git_ref@),
{
    let requested = String::from_str(git_ref);
    if requested == String::from_str("automatic") {
        proof {
            reveal_strlit("main");
            reveal_strlit("master");
        }
        let r = vec![String::from_str("main"), String::from_str("master")];
        assert(r@.map_values(|s: String| s@) =~= candidates(git_ref@));
        r
    } else {
        let r = vec![requested];
        assert(r@.map_values(|s: String| s@) =~= candidates(git_ref@));
        r
    }
}

/// How a remote operation fetches: to what history depth, and whether an
/// SSH-agent credential callback is attached.
pub struct FetchPlan {
    /// A positive depth limits the fetched history to that many commits;
    /// zero fetches all of it.
    pub depth: i32,
    /// Whether credentials are asked of the SSH agent.
    pub agent_credentials: bool,
}

/// The fetch options of one clone attempt: depth one when `shallow`, and
/// agent credentials exactly for SSH URLs.
pub fn clone_plan(url: &str, shallow: bool) -> (r: FetchPlan)
    ensures
        r.depth == (if shallow { 1i32 } else { 0i32 }),
        r.agent_credentials == ssh_url(url@),
{
    let depth: i32 = if shallow { 1 } else { 0 };
    FetchPlan { depth, agent_credentials: is_ssh_url(url) }
}

/// The fetch options of a refresh: full depth, agent credentials always.
pub fn refresh_plan() -> (r: FetchPlan)
    ensures
        r.depth == 0,
        r.agent_credentials,
{
    FetchPlan { depth: 0, agent_credentials: true }
}

/// The user name asked of the SSH agent: the one in the URL, else `git`.
pub fn ssh_user(user_from_url: Option<&str>) -> (r: &str)
    ensures
        r@ == (match user_from_url {
            Some(u) => u@,
            None => default_ssh_user(),
        }),
{
    match user_from_url {
        Some(u) => u,
        None => "git",
    }
}

/// The automatic ref has exactly two candidates: the primary branch, then
/// the secondary branch.
pub proof fn lemma_auto_candidates()
    ensures
        candidates(auto_ref()) == seq![primary_branch(), secondary_branch()],
        candidates(auto_ref()).len() == 2,
{
}

/// Any other ref is its own single candidate.
pub proof fn lemma_named_ref_candidates(git_ref: Seq<char>)
    requires
        git_ref != auto_ref(),
    ensures
        candidates(git_ref) == seq![git_ref],
{
}

/// A URL that begins with `https://` is no SSH URL, so its clone attempts
/// carry no credential callback.
pub proof fn lemma_https_url_needs_no_credentials(url: Seq<char>)
    requires
        "https://"@.is_prefix_of(url),
    ensures
        !ssh_url(url),
{
    reveal_strlit("https://");
    reveal_strlit("git@");
    reveal_strlit("ssh://");
    let head = url.subrange(0, 8);
    assert(head =~= "https://"@);
    assert(url[0] == head[0]);
    assert(url[0] == 'h');
    assert("git@"@[0] == 'g');
    assert(url[1] == head[1]);
    assert(url[1] == 't');
    assert("ssh://"@[1] == 's');
}

/// A URL that begins with `git@` or `ssh://` is an SSH URL, so its clone
/// attempts carry the agent credential callback.
pub proof fn lemma_ssh_url_needs_credentials(url: Seq<char>)
    requires
        "git@"@.is_prefix_of(url) || "ssh://"@.is_prefix_of(url),
    ensures
        ssh_url(url),
{
}

} // verus!
