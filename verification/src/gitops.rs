//! Trusted boundary to the version-control library. Each function here
//! wraps one git operation on a workspace addressed by a plain path
//! string, handing back `Ok(())` or the text of the underlying error.
//! Every outcome depends on the network, the disk or both, so no
//! contract promises success; the callers in `repo` state what holds of
//! whatever comes back.

use vstd::prelude::*;

verus! {

/// Relies on std::path::Path::exists: asks the filesystem whether an
/// entry is present at `path`. The answer depends on the machine's disk,
/// so nothing is promised of it.
#[verifier::external_body]
pub(crate) fn workspace_exists(path: &str) -> bool {
    std::path::Path::new(path).exists()
}

/// Relies on git2::build::RepoBuilder::clone: creates a bare repository
/// at `path` whose origin remote fetches the refs `refspec` names from
/// `source`, and runs the initial fetch. Credentials are resolved through
/// the ssh agent at call time, never stored.
#[verifier::external_body]
pub(crate) fn git_clone_refs(source: &str, path: &str, refspec: &str) -> Result<(), String> {
    let mut callbacks = git2::RemoteCallbacks::new();
    callbacks.credentials(|_, user, _| git2::Cred::ssh_key_from_agent(user.unwrap_or("git")));
    let mut fetch_opts = git2::FetchOptions::new();
    fetch_opts.remote_callbacks(callbacks);
    let spec = refspec.to_string();
    let mut builder = git2::build::RepoBuilder::new();
    builder.bare(true).fetch_options(fetch_opts);
    builder.remote_create(move |repo, name, url| repo.remote_with_fetch(name, url, &spec));
    builder.clone(source, std::path::Path::new(path)).map(|_| ()).map_err(|e| e.message().to_string())
}

/// Relies on git2::Repository::branches: the names of the local branches
/// recorded in the repository at `path`. The list depends on the state of
/// the disk, so nothing is promised of it. A branch whose name is not
/// valid text is an error: silently skipping it would leave a partial
/// mirror behind a reported success.
#[verifier::external_body]
pub(crate) fn git_local_branches(path: &str) -> Result<Vec<String>, String> {
    let repo = git2::Repository::open(path).map_err(|e| e.message().to_string())?;
    let branches = repo.branches(Some(git2::BranchType::Local)).map_err(|e| e.message().to_string())?;
    let mut names: Vec<String> = Vec::new();
    for entry in branches {
        let (branch, _) = entry.map_err(|e| e.message().to_string())?;
        match branch.name().map_err(|e| e.message().to_string())? {
            Some(name) => names.push(name.to_string()),
            None => return Err("a local branch name is not valid UTF-8".to_string()),
        }
    }
    Ok(names)
}

/// Relies on git2::Repository::references: the full names of all refs
/// recorded in the repository at `path` (branches, tags, remote-tracking
/// refs). The list depends on the state of the disk, so nothing is
/// promised of it. A ref whose name is not valid text is an error, for
/// the same reason as in `git_local_branches`.
#[verifier::external_body]
pub(crate) fn git_local_refs(path: &str) -> Result<Vec<String>, String> {
    let repo = git2::Repository::open(path).map_err(|e| e.message().to_string())?;
    let refs = repo.references().map_err(|e| e.message().to_string())?;
    let mut names: Vec<String> = Vec::new();
    for entry in refs {
        let reference = entry.map_err(|e| e.message().to_string())?;
        let name = reference.name().map_err(|e| e.message().to_string())?;
        names.push(name.to_string());
    }
    Ok(names)
}


/// Relies on git2::Remote::fetch: fetches exactly the refs `refspec`
/// names from the remote recorded under `remote` in the repository at
/// `path`, pruning remote-tracking refs that no longer exist upstream
/// and following no tags beyond the refspec. Credentials are resolved
/// through the ssh agent at call time.
#[verifier::external_body]
pub(crate) fn git_fetch(path: &str, remote: &str, refspec: &str) -> Result<(), String> {
    let repo = git2::Repository::open(path).map_err(|e| e.message().to_string())?;
    let mut callbacks = git2::RemoteCallbacks::new();
    callbacks.credentials(|_, user, _| git2::Cred::ssh_key_from_agent(user.unwrap_or("git")));
    let mut opts = git2::FetchOptions::new();
    opts.remote_callbacks(callbacks);
    opts.prune(git2::FetchPrune::On);
    opts.download_tags(git2::AutotagOption::None);
    let mut origin = repo.find_remote(remote).map_err(|e| e.message().to_string())?;
    origin.fetch(&[refspec], Some(&mut opts), None).map_err(|e| e.message().to_string())
}

/// Relies on git2::Repository::reference: forcibly points the reference
/// named `branch_ref` at the commit `upstream_ref` points at, discarding
/// whatever `branch_ref` pointed at before.
#[verifier::external_body]
pub(crate) fn git_reset_ref(path: &str, branch_ref: &str, upstream_ref: &str) -> Result<
    (),
    String,
> {
    let repo = git2::Repository::open(path).map_err(|e| e.message().to_string())?;
    let upstream = repo.find_reference(upstream_ref).map_err(|e| e.message().to_string())?;
    let id = match upstream.target() {
        Some(id) => id,
        None => return Err("upstream tip is not a direct reference".to_string()),
    };
    let reset = repo.reference(branch_ref, id, true, "reset to upstream tip");
    reset.map(|_| ()).map_err(|e| e.message().to_string())
}

/// Relies on git2::Repository::remote_delete and remote_with_fetch:
/// drops whatever remote is recorded under `name` in the repository at
/// `path`, then records a fresh one pointing at `url`, fetching per
/// `fetch_refspec`, and marks it for mirror pushes, so that an edited
/// target location takes effect without manual cleanup.
#[verifier::external_body]
pub(crate) fn git_rebuild_remote(
    path: &str,
    name: &str,
    url: &str,
    fetch_refspec: &str,
) -> Result<(), String> {
    let repo = git2::Repository::open(path).map_err(|e| e.message().to_string())?;
    if repo.find_remote(name).is_ok() {
        repo.remote_delete(name).map_err(|e| e.message().to_string())?;
    }
    repo.remote_with_fetch(name, url, fetch_refspec).map_err(|e| e.message().to_string())?;
    let mut cfg = repo.config().map_err(|e| e.message().to_string())?;
    cfg.set_bool(&format!("remote.{}.mirror", name), true).map_err(|e| e.message().to_string())
}

/// Relies on git2::Remote::push: pushes the refs the given refspecs name
/// to the remote recorded under `remote` in the repository at `path`, in
/// one push. A ref the target rejects fails the push: per-reference
/// rejections surface only through the push_update_reference callback,
/// so one is set that turns any rejection into an error. Credentials are
/// resolved through the ssh agent at call time.
#[verifier::external_body]
pub(crate) fn git_push(path: &str, remote: &str, refspecs: &Vec<String>) -> Result<(), String> {
    let mut callbacks = git2::RemoteCallbacks::new();
    callbacks.credentials(|_, user, _| git2::Cred::ssh_key_from_agent(user.unwrap_or("git")));
    callbacks.push_update_reference(|_, status| match status {
        Some(msg) => Err(git2::Error::from_str(msg)),
        None => Ok(()),
    });
    let mut opts = git2::PushOptions::new();
    opts.remote_callbacks(callbacks);
    let refs: Vec<&str> = refspecs.iter().map(|s| s.as_str()).collect();
    let pushed = git2::Repository::open(path).and_then(|repo| {
        repo.find_remote(remote)?.push(&refs, Some(&mut opts))
    });
    pushed.map_err(|e| e.message().to_string())
}

} // verus!
