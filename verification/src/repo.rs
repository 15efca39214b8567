//! One mirror job: its definition and the synchronization protocol that
//! brings a local workspace up to date with the source location and
//! propagates it to the target location.

use crate::discover::name_views;
use crate::gitops;
use vstd::prelude::*;

verus! {

/// The definition of one mirror job, loaded from a job definition file:
/// the job's name (which keys its workspace), the location the mirror is
/// populated from, and the location it is pushed to.
#[derive(Debug)]
pub struct RepositoryDetails {
    pub name: String,
    pub source: String,
    pub target: String,
}

/// A synchronization failure of one job: the job's name, for log
/// correlation, and the text of the underlying cause.
#[derive(Debug)]
pub struct Error {
    pub name: String,
    pub cause: String,
}

impl Error {
    /// One line describing the failure, in place of a formatter.
    pub fn describe(&self) -> (r: String)
        ensures
            r@ == self.name@ + ": mirroring failed: "@ + self.cause@,
    {
        let mut line = String::from_str(self.name.as_str());
        line.append(": mirroring failed: ");
        line.append(self.cause.as_str());
        line
    }
}

impl RepositoryDetails {
    /// A usable definition: all three fields are present and non-empty.
    pub open spec fn wf(self) -> bool {
        self.name@.len() > 0 && self.source@.len() > 0 && self.target@.len() > 0
    }

    /// Validates a loaded record. All three fields are required: the
    /// record is returned exactly when none of them is empty, and an
    /// empty field is a load error for this job alone, carrying the
    /// job's name when one was given.
    pub fn new(name: String, source: String, target: String) -> (r: Result<Self, Error>)
        ensures
            (r matches Ok(d)) <==> (name@.len() > 0 && source@.len() > 0 && target@.len() > 0),
            r matches Ok(d) ==> d.name@ == name@ && d.source@ == source@ && d.target@ == target@
                && d.wf(),
            r matches Err(e) ==> e.name@ == name@,
    {
        if name.unicode_len() == 0 || source.unicode_len() == 0 || target.unicode_len() == 0 {
            let cause = String::from_str("name, source and target are all required");
            return Err(Error { name, cause });
        }
        Ok(RepositoryDetails { name, source, target })
    }

    /// The workspace directory owned by this job, derived from its name
    /// so that no two jobs with distinct names share a workspace.
    pub fn workspace_path(&self) -> (p: String)
        ensures
            p@ == "workspace/"@ + self.name@,
    {
        let mut p = String::from_str("workspace/");
        p.append(self.name.as_str());
        p
    }

    /// Wraps a failure of this job, keeping its name for log correlation.
    pub fn wrap_err(&self, cause: String) -> (e: Error)
        ensures
            e.name@ == self.name@,
            e.cause@ == cause@,
    {
        Error { name: String::from_str(self.name.as_str()), cause }
    }

    /// Brings the workspace at `output_path` up to date with the source
    /// location: a full mirror clone when the workspace does not exist
    /// yet (the clone alone establishes the desired end state), otherwise
    /// a per-branch fetch and hard reset. Any failure aborts the job, and
    /// the error carries this job's name.
    pub fn fetch(&self, output_path: &str) -> (r: Result<(), Error>)
        ensures
            r matches Err(e) ==> e.name@ == self.name@,
    {
        if !gitops::workspace_exists(output_path) {
            return self.clone_from_source(output_path);
        }
        self.update_branches(output_path)
    }

    /// Populates a new workspace at `output_path` with a mirror clone of
    /// the source location, capturing all refs rather than branch tips
    /// alone. On failure the error carries this job's name.
    pub fn clone_from_source(&self, output_path: &str) -> (r: Result<(), Error>)
        ensures
            r matches Err(e) ==> e.name@ == self.name@,
    {
        let refspec = mirror_clone_refspec();
        match gitops::git_clone_refs(self.source.as_str(), output_path, refspec.as_str()) {
            Ok(_) => Ok(()),
            Err(e) => Err(self.wrap_err(e)),
        }
    }

    /// Updates an existing workspace: for every local branch recorded in
    /// it, fetches the corresponding ref from the origin remote (pruning
    /// remote-tracking refs gone upstream) and hard-resets the branch to
    /// the fetched upstream tip, discarding local-only history. The first
    /// branch that fails to fetch or reset aborts the whole job — a
    /// partial mirror is incorrect and must surface as failure — and the
    /// error carries this job's name.
    fn update_branches(&self, output_path: &str) -> (r: Result<(), Error>)
        ensures
            r matches Err(e) ==> e.name@ == self.name@,
    {
        let branches = match gitops::git_local_branches(output_path) {
            Ok(b) => b,
            Err(e) => return Err(self.wrap_err(e)),
        };
        let mut i: usize = 0;
        while i < branches.len()
            invariant
                i <= branches@.len(),
            decreases branches@.len() - i,
        {
            let branch = &branches[i];
            let refspec = branch_fetch_refspec(branch.as_str());
            let remote = source_remote();
            if let Err(e) = gitops::git_fetch(output_path, remote.as_str(), refspec.as_str()) {
                return Err(self.wrap_err(e));
            }
            let local_ref = branch_ref(branch.as_str());
            let upstream = upstream_ref(branch.as_str());
            if let Err(e) = gitops::git_reset_ref(
                output_path,
                local_ref.as_str(),
                upstream.as_str(),
            ) {
                return Err(self.wrap_err(e));
            }
            i = i + 1;
        }
        Ok(())
    }

    /// Propagates the workspace at `work_path` to the target location as
    /// a mirror push: rebuilds the reserved remote binding from scratch
    /// (removing any stale binding first, so an edited target takes
    /// effect), fetches the target's refs into the reserved probe
    /// namespace so its state can be read from the workspace itself,
    /// then, in one push, force-pushes every workspace ref under
    /// `refs/` — branches, tags and remote-tracking refs alike — and
    /// deletes every target ref the workspace no longer has. The
    /// refspecs handed to the push are exactly `spec_mirror_refspecs`
    /// of the workspace's ref list. On failure the error carries this
    /// job's name.
    pub fn mirror_to_target(&self, work_path: &str) -> (r: Result<(), Error>)
        ensures
            r matches Err(e) ==> e.name@ == self.name@,
    {
        let remote = target_remote();
        let probe = probe_refspec();
        if let Err(e) = gitops::git_rebuild_remote(
            work_path,
            remote.as_str(),
            self.target.as_str(),
            probe.as_str(),
        ) {
            return Err(self.wrap_err(e));
        }
        if let Err(e) = gitops::git_fetch(work_path, remote.as_str(), probe.as_str()) {
            return Err(self.wrap_err(e));
        }
        let local = match gitops::git_local_refs(work_path) {
            Ok(l) => l,
            Err(e) => return Err(self.wrap_err(e)),
        };
        let refspecs = mirror_refspecs(&local);
        if let Err(e) = gitops::git_push(work_path, remote.as_str(), &refspecs) {
            return Err(self.wrap_err(e));
        }
        Ok(())
    }

    /// One full synchronization of this job against the workspace at
    /// `workspace`: bring the local mirror up to date with the source,
    /// then propagate it to the target. The synchronizer performs no
    /// retries: a failure surfaces here, carrying this job's name, and
    /// the next scheduled cycle naturally retries.
    pub fn synchronize(&self, workspace: &str) -> (r: Result<(), Error>)
        ensures
            r matches Err(e) ==> e.name@ == self.name@,
    {
        if let Err(e) = self.fetch(workspace) {
            return Err(e);
        }
        self.mirror_to_target(workspace)
    }
}

/// Workspace ownership: the workspace path is derived injectively from
/// the job's name, so jobs with distinct names never share a workspace —
/// each workspace has exactly one writer.
pub proof fn lemma_workspace_ownership(a: Seq<char>, b: Seq<char>)
    requires
        a != b,
    ensures
        "workspace/"@ + a != "workspace/"@ + b,
{
    let p = "workspace/"@;
    if p + a == p + b {
        assert((p + a).len() == p.len() + a.len());
        assert((p + b).len() == p.len() + b.len());
        assert(a.len() == b.len());
        assert forall|i: int| 0 <= i < a.len() implies a[i] == b[i] by {
            assert((p + a)[p.len() + i] == a[i]);
            assert((p + b)[p.len() + i] == b[i]);
        }
        assert(a =~= b);
    }
}

/// Whether `s` begins with `p`.
fn has_prefix(s: &str, p: &str) -> (b: bool)
    ensures
        b == (s@.len() >= p@.len() && s@.subrange(0, p@.len() as int) == p@),
{
    let n = s.unicode_len();
    let m = p.unicode_len();
    if n < m {
        return false;
    }
    let mut i: usize = 0;
    while i < m
        invariant
            i <= m,
            m == p@.len(),
            n == s@.len(),
            n >= m,
            forall|j: int| 0 <= j < i ==> s@[j] == p@[j],
        decreases m - i,
    {
        if s.get_char(i) != p.get_char(i) {
            proof {
                if s@.subrange(0, m as int) == p@ {
                    assert(s@.subrange(0, m as int)[i as int] == s@[i as int]);
                    assert(false);
                }
            }
            return false;
        }
        i = i + 1;
    }
    proof {
        assert(s@.subrange(0, m as int) =~= p@);
    }
    true
}

/// Whether a ref name lies under the `refs/` namespace. The mirror push
/// covers exactly this namespace: a repository also holds symbolic
/// names such as `HEAD`, which cannot be pushed or deleted.
pub open spec fn spec_is_under_refs(name: Seq<char>) -> bool {
    name.len() >= 5 && name.subrange(0, 5) == "refs/"@
}

/// Whether one ref name lies under the `refs/` namespace.
fn is_under_refs(name: &str) -> (b: bool)
    ensures
        b == spec_is_under_refs(name@),
{
    proof {
        reveal_strlit("refs/");
    }
    has_prefix(name, "refs/")
}

/// Whether a ref name lies in the reserved probe namespace, where the
/// target's refs are fetched before a push so they can be read from
/// disk. Probe refs record the target's state: they are never pushed
/// themselves, and each one stands for one ref at the target.
pub open spec fn spec_is_probe_ref(name: Seq<char>) -> bool {
    name.len() >= 20 && name.subrange(0, 20) == "refs/remotes/target/"@
}

/// Whether one ref name lies in the reserved probe namespace.
fn is_probe_ref(name: &str) -> (b: bool)
    ensures
        b == spec_is_probe_ref(name@),
{
    proof {
        reveal_strlit("refs/remotes/target/");
    }
    has_prefix(name, "refs/remotes/target/")
}

/// The target-side ref a probe ref stands for: the probe namespace
/// mirrors everything under the target's `refs/`.
pub open spec fn spec_target_name(probe: Seq<char>) -> Seq<char> {
    "refs/"@ + probe.skip(20)
}

/// Builds the target-side name of one probe ref.
fn target_name(probe: &str) -> (s: String)
    requires
        spec_is_probe_ref(probe@),
    ensures
        s@ == spec_target_name(probe@),
{
    proof {
        reveal_strlit("refs/remotes/target/");
    }
    let n = probe.unicode_len();
    let tail = probe.substring_char(20, n);
    let mut s = String::from_str("refs/");
    s.append(tail);
    proof {
        assert(probe@.subrange(20, n as int) =~= probe@.skip(20));
    }
    s
}

/// The refspec that forcibly updates one ref on the target to the
/// workspace's tip of that ref.
pub open spec fn spec_update_refspec(r: Seq<char>) -> Seq<char> {
    "+"@ + r + ":"@ + r
}

/// The refspec that deletes one ref at the target.
pub open spec fn spec_delete_refspec(r: Seq<char>) -> Seq<char> {
    ":"@ + r
}

/// The forced update refspecs of a mirror push: one per workspace ref
/// under `refs/`, in order, save the probe refs, which record the
/// target's own state and must not be sent back to it.
pub open spec fn spec_update_refspecs(local: Seq<Seq<char>>) -> Seq<Seq<char>>
    decreases local.len(),
{
    if local.len() == 0 {
        Seq::empty()
    } else {
        let rest = spec_update_refspecs(local.drop_last());
        if spec_is_under_refs(local.last()) && !spec_is_probe_ref(local.last()) {
            rest.push(spec_update_refspec(local.last()))
        } else {
            rest
        }
    }
}

/// The deletion refspecs of a mirror push: one per probe ref whose
/// target-side ref the workspace no longer has, in order — those are
/// exactly the target's stale refs.
pub open spec fn spec_delete_refspecs(
    local: Seq<Seq<char>>,
    scan: Seq<Seq<char>>,
) -> Seq<Seq<char>>
    decreases scan.len(),
{
    if scan.len() == 0 {
        Seq::empty()
    } else {
        let rest = spec_delete_refspecs(local, scan.drop_last());
        let t = scan.last();
        if spec_is_probe_ref(t) && !local.contains(spec_target_name(t)) {
            rest.push(spec_delete_refspec(spec_target_name(t)))
        } else {
            rest
        }
    }
}

/// The refspecs of one mirror push, computed from the workspace's refs
/// after the target's refs were fetched into the probe namespace: every
/// workspace ref under `refs/` outside that namespace is force-pushed,
/// and every target ref the workspace no longer has is deleted —
/// full-fidelity replication, stale refs removed.
pub open spec fn spec_mirror_refspecs(local: Seq<Seq<char>>) -> Seq<Seq<char>> {
    spec_update_refspecs(local) + spec_delete_refspecs(local, local)
}

/// Builds the forced update refspec of one ref.
fn update_refspec(r: &str) -> (s: String)
    ensures
        s@ == spec_update_refspec(r@),
{
    let mut s = String::from_str("+");
    s.append(r);
    s.append(":");
    s.append(r);
    proof {
        assert(s@ =~= spec_update_refspec(r@));
    }
    s
}

/// Builds the deletion refspec of one ref.
fn delete_refspec(r: &str) -> (s: String)
    ensures
        s@ == spec_delete_refspec(r@),
{
    let mut s = String::from_str(":");
    s.append(r);
    s
}

/// Builds the refspecs of one mirror push from the workspace's refs.
fn mirror_refspecs(local: &Vec<String>) -> (r: Vec<String>)
    ensures
        name_views(r@) == spec_mirror_refspecs(name_views(local@)),
{
    let ghost lv = name_views(local@);
    let mut r: Vec<String> = Vec::new();
    let mut i: usize = 0;
    proof {
        assert(name_views(r@) =~= Seq::<Seq<char>>::empty());
        assert(lv.take(0) =~= Seq::<Seq<char>>::empty());
    }
    while i < local.len()
        invariant
            i <= local@.len(),
            lv == name_views(local@),
            name_views(r@) == spec_update_refspecs(lv.take(i as int)),
        decreases local@.len() - i,
    {
        let ghost prev = r@;
        if is_under_refs(local[i].as_str()) && !is_probe_ref(local[i].as_str()) {
            r.push(update_refspec(local[i].as_str()));
        }
        proof {
            let step = lv.take(i + 1);
            assert(step.len() == i + 1);
            assert(step.last() == local@[i as int]@);
            assert(step.drop_last() =~= lv.take(i as int));
            if spec_is_under_refs(local@[i as int]@) && !spec_is_probe_ref(local@[i as int]@) {
                assert(name_views(r@) =~= name_views(prev).push(
                    spec_update_refspec(local@[i as int]@),
                ));
            }
            assert(name_views(r@) == spec_update_refspecs(step));
        }
        i = i + 1;
    }
    proof {
        assert(lv.take(local@.len() as int) =~= lv);
        assert(name_views(r@) =~= spec_update_refspecs(lv) + spec_delete_refspecs(lv, lv.take(0)));
    }
    let mut j: usize = 0;
    while j < local.len()
        invariant
            j <= local@.len(),
            lv == name_views(local@),
            name_views(r@) == spec_update_refspecs(lv) + spec_delete_refspecs(
                lv,
                lv.take(j as int),
            ),
        decreases local@.len() - j,
    {
        let ghost prev = r@;
        if is_probe_ref(local[j].as_str()) {
            let orig = target_name(local[j].as_str());
            if !crate::discover::contains_name(local, &orig) {
                r.push(delete_refspec(orig.as_str()));
            }
        }
        proof {
            let step = lv.take(j + 1);
            assert(step.len() == j + 1);
            assert(step.last() == local@[j as int]@);
            assert(step.drop_last() =~= lv.take(j as int));
            if spec_is_probe_ref(local@[j as int]@) && !lv.contains(
                spec_target_name(local@[j as int]@),
            ) {
                assert(name_views(r@) =~= name_views(prev).push(
                    spec_delete_refspec(spec_target_name(local@[j as int]@)),
                ));
            }
            assert(name_views(r@) =~= spec_update_refspecs(lv) + spec_delete_refspecs(lv, step));
        }
        j = j + 1;
    }
    proof {
        assert(lv.take(local@.len() as int) =~= lv);
    }
    r
}

/// The refspec of a mirror clone: every ref of the source, captured
/// under its own name.
fn mirror_clone_refspec() -> (s: String)
    ensures
        s@ == "+refs/*:refs/*"@,
{
    String::from_str("+refs/*:refs/*")
}

/// The refspec that fetches every ref of the target into the reserved
/// probe namespace, forcibly, pruning probe refs whose target ref is
/// gone, so the probe records the target's state exactly.
fn probe_refspec() -> (s: String)
    ensures
        s@ == "+refs/*:refs/remotes/target/*"@,
{
    String::from_str("+refs/*:refs/remotes/target/*")
}

/// The reserved name of the remote a clone binds to the source.
fn source_remote() -> (s: String)
    ensures
        s@ == "origin"@,
{
    String::from_str("origin")
}

/// The reserved name of the remote binding to the target, rebuilt from
/// scratch every run.
fn target_remote() -> (s: String)
    ensures
        s@ == "target"@,
{
    String::from_str("target")
}

/// The refspec that fetches one branch's upstream tip into its
/// remote-tracking ref, forcibly, so divergence never blocks the fetch.
fn branch_fetch_refspec(branch: &str) -> (r: String)
    ensures
        r@ == "+refs/heads/"@ + branch@ + ":refs/remotes/origin/"@ + branch@,
{
    let mut r = String::from_str("+refs/heads/");
    r.append(branch);
    r.append(":refs/remotes/origin/");
    r.append(branch);
    proof {
        assert(r@ =~= "+refs/heads/"@ + branch@ + ":refs/remotes/origin/"@ + branch@);
    }
    r
}

/// The fully qualified name of a local branch.
fn branch_ref(branch: &str) -> (r: String)
    ensures
        r@ == "refs/heads/"@ + branch@,
{
    let mut r = String::from_str("refs/heads/");
    r.append(branch);
    r
}

/// The remote-tracking ref holding a branch's fetched upstream tip.
fn upstream_ref(branch: &str) -> (r: String)
    ensures
        r@ == "refs/remotes/origin/"@ + branch@,
{
    let mut r = String::from_str("refs/remotes/origin/");
    r.append(branch);
    r
}

} // verus!
