//! Resolve a git source (a URL and a ref) into a working copy on disk,
//! refresh such a working copy to another ref, and check that an asset path
//! exists inside it.
pub mod error;
pub mod fallback;
pub mod git;
pub mod path;
pub mod refs;

pub use error::ApsError;
pub use fallback::{CloneFallback, FallbackStep};
pub use git::{
    clone_attempt, create_workdir, CloneFailure, fetch_and_checkout, head_commit_sha, resolve_source,
    ResolvedGitSource,
};
pub use path::{check_path, validate_path_exists};
pub use refs::{clone_plan, is_ssh_url, ref_candidates, refresh_plan, ssh_user, FetchPlan};
