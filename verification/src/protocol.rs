//! The synchronization protocol's effect on a workspace's refs, as
//! mathematics: branches as a map from branch name to the commit id at
//! its tip. The git operations behind `repo` are trusted to carry these
//! effects out on disk; what is proved here is that the protocol's two
//! paths — mirror clone of a fresh workspace, per-branch hard reset of
//! an existing one — both converge on the upstream state, and that
//! running a successful synchronization again with no upstream change
//! changes nothing.

use vstd::prelude::*;

verus! {

/// What a mirror clone leaves in a fresh workspace: exactly the
/// upstream refs, nothing added, nothing kept back.
pub open spec fn clone_effect(upstream: Map<Seq<char>, int>) -> Map<Seq<char>, int> {
    upstream
}

/// What the per-branch update leaves in an existing workspace: every
/// local branch hard-reset to its upstream tip, local-only history
/// discarded. It describes the runs on which the update succeeds, which
/// requires each local branch to still exist upstream: fetching a
/// branch gone upstream fails, and any branch's failure aborts the job
/// rather than leave a partial mirror.
pub open spec fn update_effect(
    local: Map<Seq<char>, int>,
    upstream: Map<Seq<char>, int>,
) -> Map<Seq<char>, int> {
    Map::new(|b: Seq<char>| local.dom().contains(b), |b: Seq<char>| upstream[b])
}

/// The refs a successful synchronization leaves in the workspace: a
/// fresh workspace is populated by a mirror clone and that alone
/// establishes the desired end state; an existing one is updated branch
/// by branch.
pub open spec fn sync_effect(
    local: Option<Map<Seq<char>, int>>,
    upstream: Map<Seq<char>, int>,
) -> Map<Seq<char>, int> {
    match local {
        None => clone_effect(upstream),
        Some(l) => update_effect(l, upstream),
    }
}

/// Synchronizing a job whose workspace does not exist yet leaves a
/// workspace holding a mirror of the source's refs, exactly: the clone
/// path alone establishes the end state, and no update step is needed.
pub proof fn lemma_clone_creates_mirror(upstream: Map<Seq<char>, int>)
    ensures
        sync_effect(None, upstream) == upstream,
{
}

/// Convergence of the update path: after synchronizing an existing
/// workspace whose local branches may have diverged from upstream,
/// every local branch's tip equals its upstream tip — hard-reset
/// semantics, so local-only commits are discarded, never preserved.
pub proof fn lemma_update_converges(local: Map<Seq<char>, int>, upstream: Map<Seq<char>, int>)
    requires
        local.dom().subset_of(upstream.dom()),
    ensures
        sync_effect(Some(local), upstream).dom() == local.dom(),
        forall|b: Seq<char>|
            local.dom().contains(b) ==> #[trigger] sync_effect(Some(local), upstream)[b]
                == upstream[b],
{
    assert(sync_effect(Some(local), upstream).dom() =~= local.dom());
}

/// Idempotence: running a successful synchronization twice with no
/// upstream change between the runs leaves after the second run exactly
/// the refs the first run left — the second run changes nothing,
/// whatever the state before the first run was.
pub proof fn lemma_sync_idempotent(
    local: Option<Map<Seq<char>, int>>,
    upstream: Map<Seq<char>, int>,
)
    ensures
        sync_effect(Some(sync_effect(local, upstream)), upstream) == sync_effect(local, upstream),
{
    let first = sync_effect(local, upstream);
    assert(sync_effect(Some(first), upstream) =~= first);
}

} // verus!
