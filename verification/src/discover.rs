//! Job discovery's decisions: which files in the jobs directory are job
//! definition files, and which loaded definitions enter the cycle. The
//! directory scan itself and the parsing of each file live with the
//! caller; the filtering rules are here.

use crate::repo::RepositoryDetails;
use vstd::prelude::*;

verus! {

/// A job definition file is recognized by its extension: the name ends
/// in `.toml` and the dot is not the name's first character (a bare
/// dotfile has no extension).
pub open spec fn spec_is_job_file(name: Seq<char>) -> bool {
    name.len() >= 6 && name.subrange(name.len() - 5, name.len() as int) == ".toml"@
}

/// Whether one file name, without its directory, names a job definition
/// file.
pub fn is_job_file(name: &str) -> (r: bool)
    ensures
        r == spec_is_job_file(name@),
{
    proof {
        reveal_strlit(".toml");
    }
    let n = name.unicode_len();
    if n < 6 {
        return false;
    }
    let r = name.get_char(n - 5) == '.' && name.get_char(n - 4) == 't' && name.get_char(n - 3)
        == 'o' && name.get_char(n - 2) == 'm' && name.get_char(n - 1) == 'l';
    proof {
        let s = name@.subrange(n as int - 5, n as int);
        assert(s.len() == 5);
        assert(s[0] == name@[n as int - 5]);
        assert(s[1] == name@[n as int - 4]);
        assert(s[2] == name@[n as int - 3]);
        assert(s[3] == name@[n as int - 2]);
        assert(s[4] == name@[n as int - 1]);
        assert(".toml"@.len() == 5);
        if r {
            assert(s =~= ".toml"@);
        }
        if s == ".toml"@ {
            assert(r);
        }
    }
    r
}

/// The views of a sequence of names.
pub open spec fn name_views(names: Seq<String>) -> Seq<Seq<char>> {
    names.map_values(|s: String| s@)
}

/// Discovery's filter: of the file names found in the jobs directory,
/// exactly those with the job definition extension are kept, in the
/// order given; every other file is ignored. Ordering carries no
/// meaning for correctness — jobs are independent — but nothing is
/// reordered here.
pub fn select_job_files(names: &Vec<String>) -> (r: Vec<String>)
    ensures
        name_views(r@) == name_views(names@).filter(|n: Seq<char>| spec_is_job_file(n)),
{
    let mut out: Vec<String> = Vec::new();
    let mut i: usize = 0;
    proof {
        reveal(Seq::filter);
        assert(name_views(names@.take(0)) =~= Seq::<Seq<char>>::empty());
    }
    while i < names.len()
        invariant
            i <= names@.len(),
            name_views(out@) == name_views(names@.take(i as int)).filter(
                |n: Seq<char>| spec_is_job_file(n),
            ),
        decreases names@.len() - i,
    {
        let ghost pred = (|n: Seq<char>| spec_is_job_file(n));
        let ghost prev = out@;
        let s = &names[i];
        if is_job_file(s.as_str()) {
            out.push(String::from_str(s.as_str()));
        }
        proof {
            reveal(Seq::filter);
            let u = name_views(names@.take(i + 1));
            assert(u.len() == i + 1);
            assert(u.last() == names@[i as int]@);
            assert(u.drop_last() =~= name_views(names@.take(i as int)));
            assert(u.filter(pred) == if pred(u.last()) {
                u.drop_last().filter(pred).push(u.last())
            } else {
                u.drop_last().filter(pred)
            });
            if pred(names@[i as int]@) {
                assert(name_views(out@) =~= name_views(prev).push(names@[i as int]@));
            }
        }
        i = i + 1;
    }
    proof {
        assert(names@.take(names@.len() as int) =~= names@);
    }
    out
}

/// Whether `name` is one of `names`.
pub(crate) fn contains_name(names: &Vec<String>, name: &String) -> (b: bool)
    ensures
        b == name_views(names@).contains(name@),
{
    let mut i: usize = 0;
    while i < names.len()
        invariant
            i <= names@.len(),
            forall|k: int| 0 <= k < i ==> name_views(names@)[k] != name@,
        decreases names@.len() - i,
    {
        if names[i] == *name {
            proof {
                assert(name_views(names@)[i as int] == name@);
            }
            return true;
        }
        proof {
            assert(name_views(names@)[i as int] == names@[i as int]@);
        }
        i = i + 1;
    }
    proof {
        if name_views(names@).contains(name@) {
            let k = choose|k: int|
                0 <= k < name_views(names@).len() && name_views(names@)[k] == name@;
            assert(false);
        }
    }
    false
}

/// Of a sequence of per-file load results, the definitions that loaded,
/// in order.
pub open spec fn loaded_jobs(loaded: Seq<Option<RepositoryDetails>>) -> Seq<RepositoryDetails>
    decreases loaded.len(),
{
    if loaded.len() == 0 {
        Seq::empty()
    } else {
        match loaded.last() {
            Some(d) => loaded_jobs(loaded.drop_last()).push(d),
            None => loaded_jobs(loaded.drop_last()),
        }
    }
}

/// A load failure for one definition file is that file's alone: the
/// definitions that loaded are kept, in order, and each file that did
/// not load is skipped without aborting discovery for the rest.
pub fn collect_valid(loaded: Vec<Option<RepositoryDetails>>) -> (jobs: Vec<RepositoryDetails>)
    ensures
        jobs@ == loaded_jobs(loaded@),
{
    let ghost orig = loaded@;
    let mut rest = loaded;
    let mut jobs: Vec<RepositoryDetails> = Vec::new();
    let mut k: usize = 0;
    let total = rest.len();
    proof {
        assert(orig.len() == total);
        assert(orig.take(0) =~= Seq::<Option<RepositoryDetails>>::empty());
        assert(rest@ =~= orig.skip(0));
    }
    while rest.len() > 0
        invariant
            k <= orig.len(),
            orig.len() <= usize::MAX,
            k + rest@.len() == orig.len(),
            rest@ == orig.skip(k as int),
            jobs@ == loaded_jobs(orig.take(k as int)),
        decreases rest@.len(),
    {
        let d = rest.remove(0);
        proof {
            assert(d == orig[k as int]);
            assert(rest@ =~= orig.skip(k as int + 1));
        }
        match d {
            Some(job) => jobs.push(job),
            None => (),
        }
        proof {
            let step = orig.take(k as int + 1);
            assert(step.len() == k + 1);
            assert(step.last() == orig[k as int]);
            assert(step.drop_last() =~= orig.take(k as int));
            assert(jobs@ == loaded_jobs(step));
        }
        k = k + 1;
    }
    proof {
        assert(orig.skip(k as int).len() == 0);
        assert(orig.take(k as int) =~= orig);
    }
    jobs
}

/// Whether some definition in `jobs` carries `name`.
pub open spec fn has_name(jobs: Seq<RepositoryDetails>, name: Seq<char>) -> bool {
    exists|i: int| 0 <= i < jobs.len() && jobs[i].name@ == name
}

/// Of a sequence of definitions, the first definition of each name, in
/// order: every later definition whose name was already seen is dropped.
pub open spec fn unique_names(jobs: Seq<RepositoryDetails>) -> Seq<RepositoryDetails>
    decreases jobs.len(),
{
    if jobs.len() == 0 {
        Seq::empty()
    } else {
        let rest = unique_names(jobs.drop_last());
        if has_name(jobs.drop_last(), jobs.last().name@) {
            rest
        } else {
            rest.push(jobs.last())
        }
    }
}

/// Deduplication keeps membership: a name occurs among the kept
/// definitions exactly when it occurred among the given ones.
pub proof fn lemma_unique_names_same_names(jobs: Seq<RepositoryDetails>, name: Seq<char>)
    ensures
        has_name(unique_names(jobs), name) == has_name(jobs, name),
    decreases jobs.len(),
{
    if jobs.len() > 0 {
        let d = jobs.drop_last();
        let last = jobs.last();
        lemma_unique_names_same_names(d, name);
        assert(has_name(jobs, name) == (has_name(d, name) || last.name@ == name)) by {
            if has_name(jobs, name) {
                let i = choose|i: int| 0 <= i < jobs.len() && jobs[i].name@ == name;
                if i < jobs.len() - 1 {
                    assert(d[i].name@ == name);
                    assert(has_name(d, name));
                }
            }
            if has_name(d, name) {
                let i = choose|i: int| 0 <= i < d.len() && d[i].name@ == name;
                assert(jobs[i].name@ == name);
                assert(has_name(jobs, name));
            }
            if last.name@ == name {
                assert(jobs[jobs.len() - 1].name@ == name);
                assert(has_name(jobs, name));
            }
        }
        let u = unique_names(jobs);
        let ud = unique_names(d);
        if has_name(d, last.name@) {
            assert(u == ud);
        } else {
            assert(u == ud.push(last));
            assert(has_name(u, name) == (has_name(ud, name) || last.name@ == name)) by {
                assert(u.drop_last() =~= ud);
                if has_name(u, name) {
                    let i = choose|i: int| 0 <= i < u.len() && u[i].name@ == name;
                    if i < u.len() - 1 {
                        assert(ud[i].name@ == name);
                        assert(has_name(ud, name));
                    }
                }
                if has_name(ud, name) {
                    let i = choose|i: int| 0 <= i < ud.len() && ud[i].name@ == name;
                    assert(u[i].name@ == name);
                    assert(has_name(u, name));
                }
                if last.name@ == name {
                    assert(u[u.len() - 1].name@ == name);
                    assert(has_name(u, name));
                }
            }
        }
    }
}

/// No two definitions the deduplication keeps share a name — so, with
/// the workspace path derived injectively from the name, no two jobs of
/// one cycle can touch one workspace.
pub proof fn lemma_unique_names_distinct(jobs: Seq<RepositoryDetails>, i: int, j: int)
    requires
        0 <= i < j < unique_names(jobs).len(),
    ensures
        unique_names(jobs)[i].name@ != unique_names(jobs)[j].name@,
    decreases jobs.len(),
{
    let u = unique_names(jobs);
    let d = jobs.drop_last();
    let ud = unique_names(d);
    let last = jobs.last();
    if has_name(d, last.name@) {
        lemma_unique_names_distinct(d, i, j);
    } else {
        if j < ud.len() {
            lemma_unique_names_distinct(d, i, j);
        } else {
            assert(u[j] == last);
            assert(u[i] == ud[i]);
            if ud[i].name@ == last.name@ {
                assert(has_name(ud, last.name@));
                lemma_unique_names_same_names(d, last.name@);
                assert(false);
            }
        }
    }
}

/// Whether some definition among `jobs` carries `name`.
fn contains_details_name(jobs: &Vec<RepositoryDetails>, name: &String) -> (b: bool)
    ensures
        b == has_name(jobs@, name@),
{
    let mut i: usize = 0;
    while i < jobs.len()
        invariant
            i <= jobs@.len(),
            forall|k: int| 0 <= k < i ==> jobs@[k].name@ != name@,
        decreases jobs@.len() - i,
    {
        if jobs[i].name == *name {
            proof {
                assert(jobs@[i as int].name@ == name@);
            }
            return true;
        }
        i = i + 1;
    }
    proof {
        if has_name(jobs@, name@) {
            let k = choose|k: int| 0 <= k < jobs@.len() && jobs@[k].name@ == name@;
            assert(false);
        }
    }
    false
}

/// Discovery must hand the scheduler at most one job per name: the
/// workspace is keyed by the name, so two same-named definitions in one
/// cycle would write one workspace concurrently. The first definition of
/// each name is kept; every later one is dropped for this cycle.
pub fn unique_by_name(jobs: Vec<RepositoryDetails>) -> (r: Vec<RepositoryDetails>)
    ensures
        r@ == unique_names(jobs@),
{
    let ghost orig = jobs@;
    let mut rest = jobs;
    let mut r: Vec<RepositoryDetails> = Vec::new();
    let mut k: usize = 0;
    let total = rest.len();
    proof {
        assert(orig.len() == total);
        assert(orig.take(0) =~= Seq::<RepositoryDetails>::empty());
        assert(rest@ =~= orig.skip(0));
    }
    while rest.len() > 0
        invariant
            k <= orig.len(),
            orig.len() <= usize::MAX,
            k + rest@.len() == orig.len(),
            rest@ == orig.skip(k as int),
            r@ == unique_names(orig.take(k as int)),
        decreases rest@.len(),
    {
        let job = rest.remove(0);
        proof {
            assert(job == orig[k as int]);
            assert(rest@ =~= orig.skip(k as int + 1));
            lemma_unique_names_same_names(orig.take(k as int), job.name@);
        }
        if !contains_details_name(&r, &job.name) {
            r.push(job);
        }
        proof {
            let step = orig.take(k as int + 1);
            assert(step.len() == k + 1);
            assert(step.last() == orig[k as int]);
            assert(step.drop_last() =~= orig.take(k as int));
            assert(r@ == unique_names(step));
        }
        k = k + 1;
    }
    proof {
        assert(orig.take(k as int) =~= orig);
    }
    r
}

} // verus!
