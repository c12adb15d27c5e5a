use aps_git::{
    check_path, clone_attempt, clone_plan, create_workdir, fetch_and_checkout, head_commit_sha,
    is_ssh_url, ref_candidates, refresh_plan, resolve_source, ssh_user, validate_path_exists,
    ApsError, CloneFailure, CloneFallback, FallbackStep,
};
use git2::{ObjectType, Oid, Repository, RepositoryInitOptions, Signature};
use std::io::Write;
use std::path::Path;
use tempfile::{NamedTempFile, TempDir};

fn path_text(p: &Path) -> &str {
    p.to_str().unwrap()
}

fn init_repo(dir: &Path, branch: &str) -> Repository {
    let mut opts = RepositoryInitOptions::new();
    opts.initial_head(branch);
    Repository::init_opts(dir, &opts).unwrap()
}

fn write_file(dir: &Path, name: &str, content: &str) {
    let mut file = NamedTempFile::new_in(dir).unwrap();
    file.write_all(content.as_bytes()).unwrap();
    file.persist(dir.join(name)).unwrap();
}

/// Commits `name` with `content` on top of HEAD, through the object database only.
fn commit_file(repo: &Repository, name: &str, content: &str) -> Oid {
    let blob = repo.blob(content.as_bytes()).unwrap();
    let parents = match repo.refname_to_id("HEAD") {
        Ok(id) => vec![repo.find_commit(id).unwrap()],
        Err(_) => vec![],
    };
    let base = parents.first().map(|c| c.tree().unwrap());
    let mut builder = repo.treebuilder(base.as_ref()).unwrap();
    builder.insert(name, blob, 0o100644).unwrap();
    let tree = repo.find_tree(builder.write().unwrap()).unwrap();
    let sig = Signature::now("tester", "tester@example.com").unwrap();
    let parent_refs: Vec<&git2::Commit> = parents.iter().collect();
    repo.commit(Some("HEAD"), &sig, &sig, "change", &tree, &parent_refs).unwrap()
}

fn is_commit_hex(s: &str) -> bool {
    s.len() == 40 && s.chars().all(|c| c.is_ascii_digit() || ('a'..='f').contains(&c))
}

#[test]
fn test_validate_path_exists() {
    let temp_dir = TempDir::new().unwrap();
    write_file(temp_dir.path(), "test.txt", "test");

    // Should succeed for existing file
    let result = validate_path_exists(path_text(temp_dir.path()), "test.txt");
    assert!(result.is_ok());

    // Should fail for non-existing file
    let result = validate_path_exists(path_text(temp_dir.path()), "nonexistent.txt");
    assert!(result.is_err());
}

#[test]
fn validate_returns_joined_path() {
    let temp_dir = TempDir::new().unwrap();
    let assets = TempDir::new_in(temp_dir.path()).unwrap();
    let name = assets.path().file_name().unwrap().to_str().unwrap();
    let root = path_text(temp_dir.path());
    let result = validate_path_exists(root, name);
    assert_eq!(result.ok(), Some(format!("{}/{}", root, name)));
}

#[test]
fn validate_absolute_asset_path_replaces_root() {
    let root = TempDir::new().unwrap();
    let other = TempDir::new().unwrap();
    write_file(other.path(), "x.txt", "x");
    let absolute = format!("{}/x.txt", path_text(other.path()));
    let result = validate_path_exists(path_text(root.path()), &absolute);
    assert_eq!(result.ok(), Some(absolute));
}

#[test]
fn validate_missing_carries_joined_path() {
    let temp_dir = TempDir::new().unwrap();
    let root = path_text(temp_dir.path());
    match validate_path_exists(root, "missing/file.md") {
        Err(ApsError::SourcePathNotFound { path }) => {
            assert_eq!(path, format!("{}/missing/file.md", root))
        }
        _ => panic!("expected SourcePathNotFound"),
    }
}

#[test]
fn check_path_decides_on_existence() {
    assert_eq!(check_path("/r/a".to_string(), true).ok(), Some("/r/a".to_string()));
    match check_path("/r/b".to_string(), false) {
        Err(ApsError::SourcePathNotFound { path }) => assert_eq!(path, "/r/b"),
        _ => panic!("expected SourcePathNotFound"),
    }
}

#[test]
fn auto_ref_has_two_candidates_in_order() {
    assert_eq!(ref_candidates("automatic"), vec!["main".to_string(), "master".to_string()]);
}

#[test]
fn short_auto_is_an_ordinary_ref() {
    assert_eq!(ref_candidates("auto"), vec!["auto".to_string()]);
}

#[test]
fn clone_attempt_refuses_ref_with_nul() {
    let dir = TempDir::new().unwrap();
    let target = format!("{}/clone", path_text(dir.path()));
    match clone_attempt(path_text(dir.path()), &target, "ma\0in", false) {
        Err(failure) => {
            assert!(matches!(failure, CloneFailure::NulRef));
            assert_eq!(failure.describe(), "ref name contains a NUL character");
        }
        Ok(_) => panic!("expected a failure"),
    }
}

#[test]
fn clone_attempt_reports_clone_failure() {
    let dir = TempDir::new().unwrap();
    let target = format!("{}/clone", path_text(dir.path()));
    let missing = format!("{}/no-such-repo", path_text(dir.path()));
    match clone_attempt(&missing, &target, "main", false) {
        Err(CloneFailure::Clone(detail)) => assert!(!detail.is_empty()),
        _ => panic!("expected a clone failure"),
    }
}

#[test]
fn exhausted_message_escapes_names_as_debug() {
    let mut f = CloneFallback::new("a\"b\\c");
    f.record_failure("x".to_string());
    match f.next_step() {
        FallbackStep::GiveUp(e) => {
            assert_eq!(e.message(), format!("Failed to clone with refs {:?}: x", vec!["a\"b\\c"]))
        }
        _ => panic!("expected to give up"),
    }
}

#[test]
fn validate_root_with_trailing_slash() {
    let temp_dir = TempDir::new().unwrap();
    write_file(temp_dir.path(), "t.txt", "t");
    let root = format!("{}/", path_text(temp_dir.path()));
    assert_eq!(validate_path_exists(&root, "t.txt").ok(), Some(format!("{}t.txt", root)));
}

#[test]
fn fallback_gives_up_after_nul_ref_fails() {
    match run_fallback("/nowhere", "bad\0ref") {
        Err(ApsError::GitError { message }) => assert_eq!(
            message,
            "Failed to clone with refs [\"bad\\0ref\"]: ref name contains a NUL character"
        ),
        _ => panic!("expected a git error"),
    }
}

#[test]
fn named_ref_is_its_own_candidate() {
    assert_eq!(ref_candidates("v1.2.0"), vec!["v1.2.0".to_string()]);
    assert_eq!(ref_candidates(""), vec!["".to_string()]);
}

#[test]
fn ssh_urls_are_recognised() {
    assert!(is_ssh_url("git@github.com:org/repo.git"));
    assert!(is_ssh_url("ssh://git@example.com/repo.git"));
    assert!(!is_ssh_url("https://example.com/repo.git"));
    assert!(!is_ssh_url("/local/repo"));
    assert!(!is_ssh_url(""));
}

#[test]
fn clone_plan_follows_scheme_and_depth() {
    let p = clone_plan("https://example.com/repo.git", false);
    assert!(!p.agent_credentials);
    assert_eq!(p.depth, 0);
    let p = clone_plan("git@example.com:repo.git", true);
    assert!(p.agent_credentials);
    assert_eq!(p.depth, 1);
}

#[test]
fn refresh_plan_always_uses_agent() {
    let p = refresh_plan();
    assert!(p.agent_credentials);
    assert_eq!(p.depth, 0);
}

#[test]
fn ssh_user_defaults_to_git() {
    assert_eq!(ssh_user(None), "git");
    assert_eq!(ssh_user(Some("deploy")), "deploy");
}

#[test]
fn fallback_tries_primary_then_secondary_then_gives_up() {
    let mut f = CloneFallback::new("automatic");
    match f.next_step() {
        FallbackStep::Attempt(r) => assert_eq!(r, "main"),
        _ => panic!("expected an attempt"),
    }
    f.record_failure("first".to_string());
    match f.next_step() {
        FallbackStep::Attempt(r) => assert_eq!(r, "master"),
        _ => panic!("expected an attempt"),
    }
    f.record_failure("remote branch not found".to_string());
    match f.next_step() {
        FallbackStep::GiveUp(ApsError::GitError { message }) => assert_eq!(
            message,
            "Failed to clone with refs [\"main\", \"master\"]: remote branch not found"
        ),
        _ => panic!("expected to give up"),
    }
}

#[test]
fn fallback_with_named_ref_gives_up_after_one() {
    let mut f = CloneFallback::new("release");
    match f.next_step() {
        FallbackStep::Attempt(r) => assert_eq!(r, "release"),
        _ => panic!("expected an attempt"),
    }
    f.record_failure("boom".to_string());
    match f.next_step() {
        FallbackStep::GiveUp(e) => {
            assert_eq!(e.message(), "Failed to clone with refs [\"release\"]: boom")
        }
        _ => panic!("expected to give up"),
    }
}

#[test]
fn workdir_is_created_and_exists() {
    let (dir, path) = create_workdir().ok().unwrap();
    assert!(Path::new(&path).is_dir());
    assert_eq!(dir.path(), Path::new(&path));
}

#[test]
fn head_commit_sha_reads_full_identity() {
    let dir = TempDir::new().unwrap();
    let repo = init_repo(dir.path(), "master");
    let id = commit_file(&repo, "a.txt", "one");
    let sha = head_commit_sha(&repo).ok().unwrap();
    assert_eq!(sha, id.to_string());
    assert!(is_commit_hex(&sha));
}

#[test]
fn head_commit_sha_fails_on_empty_repository() {
    let dir = TempDir::new().unwrap();
    let repo = init_repo(dir.path(), "master");
    match head_commit_sha(&repo) {
        Err(ApsError::GitError { message }) => assert!(message.starts_with("Failed to get HEAD: ")),
        _ => panic!("expected a git error"),
    }
}

fn run_fallback(
    url: &str,
    git_ref: &str,
) -> Result<aps_git::ResolvedGitSource, ApsError> {
    let (temp_dir, repo_path) = create_workdir()?;
    let mut fallback = CloneFallback::new(git_ref);
    loop {
        match fallback.next_step() {
            FallbackStep::Attempt(ref_name) => {
                // A failed clone removes what it wrote into the target.
                match clone_attempt(url, &repo_path, &ref_name, false) {
                    Ok(repo) => return resolve_source(&fallback, temp_dir, repo_path, &repo),
                    Err(failure) => fallback.record_failure(failure.describe()),
                }
            }
            FallbackStep::GiveUp(e) => return Err(e),
        }
    }
}

#[test]
fn auto_ref_falls_back_to_secondary_branch() {
    let origin_dir = TempDir::new().unwrap();
    let origin = init_repo(origin_dir.path(), "master");
    let id = commit_file(&origin, "README.md", "hello");
    let resolved = run_fallback(path_text(origin_dir.path()), "automatic").ok().unwrap();
    assert_eq!(resolved.resolved_ref, "master");
    assert_eq!(resolved.commit_sha, id.to_string());
    assert!(Path::new(&resolved.repo_path).join("README.md").exists());
}

#[test]
fn auto_ref_takes_primary_branch_first() {
    let origin_dir = TempDir::new().unwrap();
    let origin = init_repo(origin_dir.path(), "main");
    let id = commit_file(&origin, "README.md", "hello");
    let resolved = run_fallback(path_text(origin_dir.path()), "automatic").ok().unwrap();
    assert_eq!(resolved.resolved_ref, "main");
    assert_eq!(resolved.commit_sha, id.to_string());
    assert!(is_commit_hex(&resolved.commit_sha));
}

#[test]
fn auto_ref_fails_when_both_candidates_fail() {
    let origin_dir = TempDir::new().unwrap();
    let origin = init_repo(origin_dir.path(), "trunk");
    commit_file(&origin, "README.md", "hello");
    match run_fallback(path_text(origin_dir.path()), "automatic") {
        Err(ApsError::GitError { message }) => {
            assert!(message.starts_with("Failed to clone with refs [\"main\", \"master\"]: "));
            assert!(message.len() > "Failed to clone with refs [\"main\", \"master\"]: ".len());
        }
        _ => panic!("expected a git error"),
    }
}

#[test]
fn refresh_fetches_and_checks_out_ref() {
    let origin_dir = TempDir::new().unwrap();
    let origin = init_repo(origin_dir.path(), "master");
    let first = commit_file(&origin, "README.md", "hello");
    let resolved = run_fallback(path_text(origin_dir.path()), "master").ok().unwrap();
    assert_eq!(resolved.commit_sha, first.to_string());

    let head = origin.find_commit(first).unwrap();
    origin.branch("feature-x", &head, false).unwrap();
    origin.set_head("refs/heads/feature-x").unwrap();
    let second = commit_file(&origin, "feature.txt", "new");

    let (fetched, sha) = fetch_and_checkout(&resolved.repo_path, "feature-x").ok().unwrap();
    assert_eq!(fetched, "feature-x");
    assert_eq!(sha, second.to_string());
    let checked_out = Path::new(&resolved.repo_path).join("feature.txt");
    assert_eq!(
        Oid::hash_file(ObjectType::Blob, &checked_out).unwrap(),
        Oid::hash_object(ObjectType::Blob, b"new").unwrap()
    );
}

#[test]
fn refresh_fails_outside_a_repository() {
    let dir = TempDir::new().unwrap();
    match fetch_and_checkout(path_text(dir.path()), "main") {
        Err(ApsError::GitError { message }) => {
            assert!(message.starts_with("Failed to open repository: "))
        }
        _ => panic!("expected a git error"),
    }
}

#[test]
fn refresh_fails_without_origin() {
    let dir = TempDir::new().unwrap();
    let repo = init_repo(dir.path(), "master");
    commit_file(&repo, "a.txt", "one");
    match fetch_and_checkout(path_text(dir.path()), "master") {
        Err(ApsError::GitError { message }) => {
            assert!(message.starts_with("Failed to find remote 'origin': "))
        }
        _ => panic!("expected a git error"),
    }
}
