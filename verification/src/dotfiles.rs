use vstd::prelude::*;

use crate::expand::{may_expand_to, shell_expand, ExpandError};
use crate::text::{owned, same_text, starts_with, strip_suffix, text_starts_with, text_strip_suffix};

verus! {

/// The dotfiles shipped with the installer. The files themselves are
/// embedded by the program; the library decides where each one goes.
#[derive(Debug, Clone, Copy, PartialEq, Eq)]
pub struct Dotfiles;

/// The directory an embedded file goes to, for a mapping entry whose source
/// is `file` and whose target is `target`: `target` without a trailing copy
/// of `file`, where it ends with one.
pub open spec fn target_base(target: Seq<char>, file: Seq<char>) -> Seq<char> {
    match strip_suffix(target, file) {
        Some(t) => t,
        None => target,
    }
}

/// The embedded files (from `files`, in order) that the mapping entry
/// `(file, target)` covers, each with the directory it goes to.
pub open spec fn entry_matches(file: Seq<char>, target: Seq<char>, files: Seq<Seq<char>>) -> Seq<(Seq<char>, Seq<char>)>
    decreases files.len(),
{
    if files.len() == 0 {
        Seq::empty()
    } else {
        let front = entry_matches(file, target, files.drop_last());
        if starts_with(files.last(), file) {
            front.push((files.last(), target_base(target, file)))
        } else {
            front
        }
    }
}

/// For each mapping entry in order, the embedded files it covers with the
/// directory each goes to.
pub open spec fn copy_matches(mapping: Seq<(Seq<char>, Seq<char>)>, files: Seq<Seq<char>>) -> Seq<(Seq<char>, Seq<char>)>
    decreases mapping.len(),
{
    if mapping.len() == 0 {
        Seq::empty()
    } else {
        copy_matches(mapping.drop_last(), files) + entry_matches(
            mapping.last().0,
            mapping.last().1,
            files,
        )
    }
}

/// No two entries of `mapping` have the same source, as in a map keyed by
/// source.
pub open spec fn distinct_sources(mapping: Seq<(Seq<char>, Seq<char>)>) -> bool {
    forall|i: int, j: int|
        0 <= i < j < mapping.len() ==> (#[trigger] mapping[i]).0 != (#[trigger] mapping[j]).0
}

/// Where the files covered by the mapping entry `(file, target)` go: the
/// target without its trailing copy of `file`, where it ends with one, and
/// the target itself otherwise.
pub open spec fn directory_for(file: Seq<char>, target: Seq<char>) -> Seq<char> {
    if file.len() <= target.len() && target.subrange(target.len() - file.len(), target.len() as int)
        == file {
        target.subrange(0, target.len() - file.len())
    } else {
        target
    }
}

/// `p` pairs an embedded file of `files` that begins with `file` with the
/// directory `dir`.
pub open spec fn covered_by(p: (Seq<char>, Seq<char>), file: Seq<char>, dir: Seq<char>, files: Seq<Seq<char>>) -> bool {
    exists|j: int| 0 <= j < files.len() && starts_with(#[trigger] files[j], file) && p == (files[j], dir)
}

/// `p` pairs an embedded file that the entry `i` of `mapping` covers with
/// the directory that entry gives.
pub open spec fn entry_covers(mapping: Seq<(Seq<char>, Seq<char>)>, i: int, files: Seq<Seq<char>>, p: (Seq<char>, Seq<char>)) -> bool {
    0 <= i < mapping.len() && covered_by(p, mapping[i].0, directory_for(mapping[i].0, mapping[i].1), files)
}

/// Every pair of `m` is an embedded file of `files` that begins with the
/// source of an entry of `mapping`, with the directory that entry gives.
pub open spec fn only_covered_files(m: Seq<(Seq<char>, Seq<char>)>, mapping: Seq<(Seq<char>, Seq<char>)>, files: Seq<Seq<char>>) -> bool {
    forall|k: int| 0 <= k < m.len() ==> #[trigger] covered_at(m, k, mapping, files)
}

/// The pair at `k` of `m` is one that some entry of `mapping` covers.
pub open spec fn covered_at(m: Seq<(Seq<char>, Seq<char>)>, k: int, mapping: Seq<(Seq<char>, Seq<char>)>, files: Seq<Seq<char>>) -> bool {
    exists|i: int| #[trigger] entry_covers(mapping, i, files, m[k])
}

/// Every embedded file of `files` that begins with the source of an entry
/// of `mapping` is in `m`, with the directory that entry gives.
pub open spec fn all_covered_files(m: Seq<(Seq<char>, Seq<char>)>, mapping: Seq<(Seq<char>, Seq<char>)>, files: Seq<Seq<char>>) -> bool {
    forall|i: int, j: int|
        0 <= i < mapping.len() && 0 <= j < files.len() && starts_with(files[j], #[trigger] mapping[i].0)
            ==> m.contains((#[trigger] files[j], directory_for(mapping[i].0, mapping[i].1)))
}

proof fn lemma_entry_matches(file: Seq<char>, target: Seq<char>, files: Seq<Seq<char>>)
    ensures
        forall|k: int|
            0 <= k < entry_matches(file, target, files).len() ==> #[trigger] covered_by(
                entry_matches(file, target, files)[k],
                file,
                directory_for(file, target),
                files,
            ),
        forall|j: int|
            0 <= j < files.len() && starts_with(#[trigger] files[j], file) ==> entry_matches(
                file,
                target,
                files,
            ).contains((files[j], directory_for(file, target))),
    decreases files.len(),
{
    let dir = directory_for(file, target);
    assert(target_base(target, file) == dir);
    if files.len() > 0 {
        let front = files.drop_last();
        lemma_entry_matches(file, target, front);
        let em = entry_matches(file, target, files);
        let ef = entry_matches(file, target, front);
        assert forall|k: int| 0 <= k < em.len() implies #[trigger] covered_by(em[k], file, dir, files) by {
            if k < ef.len() {
                assert(em[k] == ef[k]);
                assert(covered_by(ef[k], file, dir, front));
                let j = choose|j: int|
                    0 <= j < front.len() && starts_with(#[trigger] front[j], file) && ef[k] == (front[j], dir);
                assert(files[j] == front[j]);
            } else {
                let j = files.len() - 1;
                assert(files[j] == files.last());
            }
        }
        assert forall|j: int| 0 <= j < files.len() && starts_with(#[trigger] files[j], file) implies em.contains(
            (files[j], dir),
        ) by {
            if j < front.len() {
                assert(front[j] == files[j]);
                let k = choose|k: int| 0 <= k < ef.len() && ef[k] == (front[j], dir);
                assert(em[k] == ef[k]);
            } else {
                assert(files.last() == files[j]);
                assert(em[em.len() - 1] == (files[j], dir));
            }
        }
    }
}

/// Law: the matches are exactly the embedded files that begin with the
/// source of a mapping entry, each paired with the directory that entry
/// gives: its target without a trailing copy of the source (where the
/// target ends with it), else the target itself.
pub proof fn law_matches_cover_exactly(mapping: Seq<(Seq<char>, Seq<char>)>, files: Seq<Seq<char>>)
    ensures
        only_covered_files(copy_matches(mapping, files), mapping, files),
        all_covered_files(copy_matches(mapping, files), mapping, files),
    decreases mapping.len(),
{
    if mapping.len() > 0 {
        let front = mapping.drop_last();
        let e = mapping.last();
        law_matches_cover_exactly(front, files);
        lemma_entry_matches(e.0, e.1, files);
        let m = copy_matches(mapping, files);
        let mf = copy_matches(front, files);
        let em = entry_matches(e.0, e.1, files);
        assert(m == mf + em);
        let last = mapping.len() - 1;
        assert(mapping[last] == e);
        assert forall|k: int| 0 <= k < m.len() implies #[trigger] covered_at(m, k, mapping, files) by {
            if k < mf.len() {
                assert(m[k] == mf[k]);
                assert(covered_at(mf, k, front, files));
                let i = choose|i: int| #[trigger] entry_covers(front, i, files, mf[k]);
                assert(mapping[i] == front[i]);
                assert(entry_covers(mapping, i, files, m[k]));
            } else {
                assert(m[k] == em[k - mf.len()]);
                assert(covered_by(em[k - mf.len()], e.0, directory_for(e.0, e.1), files));
                assert(entry_covers(mapping, last, files, m[k]));
            }
        }
        assert(only_covered_files(m, mapping, files));
        assert forall|i: int, j: int|
            0 <= i < mapping.len() && 0 <= j < files.len() && starts_with(files[j], #[trigger] mapping[i].0)
                implies m.contains((#[trigger] files[j], directory_for(mapping[i].0, mapping[i].1))) by {
            if i < front.len() {
                assert(front[i] == mapping[i]);
                assert(mf.contains((files[j], directory_for(front[i].0, front[i].1))));
                let k = choose|k: int| 0 <= k < mf.len() && mf[k] == (files[j], directory_for(front[i].0, front[i].1));
                assert(m[k] == mf[k]);
            } else {
                assert(em.contains((files[j], directory_for(e.0, e.1))));
                let k = choose|k: int| 0 <= k < em.len() && em[k] == (files[j], directory_for(e.0, e.1));
                assert(m[mf.len() + k] == em[k]);
            }
        }
    }
}

impl Dotfiles {
    /// Whether no two entries of `mapping` have the same source.
    pub fn has_distinct_sources(mapping: &Vec<(String, String)>) -> (res: bool)
        ensures
            res == distinct_sources(mapping.deep_view()),
    {
        let ghost m = mapping.deep_view();
        let mut j: usize = 0;
        while j < mapping.len()
            invariant
                j <= mapping.len(),
                m == mapping.deep_view(),
                forall|a: int, b: int| 0 <= a < b < j ==> (#[trigger] m[a]).0 != (#[trigger] m[b]).0,
            decreases mapping.len() - j,
        {
            let mut i: usize = 0;
            while i < j
                invariant
                    i <= j < mapping.len(),
                    m == mapping.deep_view(),
                    forall|a: int| 0 <= a < i ==> (#[trigger] m[a]).0 != m[j as int].0,
                decreases j - i,
            {
                assert(m[i as int].0 == mapping[i as int].0@ && m[j as int].0 == mapping[j as int].0@);
                if same_text(mapping[i].0.as_str(), mapping[j].0.as_str()) {
                    assert(!distinct_sources(m));
                    return false;
                }
                i += 1;
            }
            j += 1;
        }
        true
    }

    /// Pairs each embedded file that a mapping entry covers (its name
    /// begins with the entry's source) with the directory it is copied to,
    /// before shell expansion.
    pub fn matches(mapping: &Vec<(String, String)>, files: &Vec<String>) -> (res: Vec<(String, String)>)
        ensures
            res.deep_view() == copy_matches(mapping.deep_view(), files.deep_view()),
            only_covered_files(res.deep_view(), mapping.deep_view(), files.deep_view()),
            all_covered_files(res.deep_view(), mapping.deep_view(), files.deep_view()),
    {
        proof {
            law_matches_cover_exactly(mapping.deep_view(), files.deep_view());
        }
        let mut res: Vec<(String, String)> = Vec::new();
        let mut i: usize = 0;
        while i < mapping.len()
            invariant
                i <= mapping.len(),
                res.deep_view() == copy_matches(mapping.deep_view().take(i as int), files.deep_view()),
            decreases mapping.len() - i,
        {
            let file = mapping[i].0.as_str();
            let target = mapping[i].1.as_str();
            let base = match text_strip_suffix(target, file) {
                Some(t) => t,
                None => owned(target),
            };
            assert(base@ == target_base(target@, file@));
            let ghost before = res.deep_view();
            let mut j: usize = 0;
            while j < files.len()
                invariant
                    j <= files.len(),
                    base@ == target_base(target@, file@),
                    res.deep_view() == before + entry_matches(file@, target@, files.deep_view().take(j as int)),
                decreases files.len() - j,
            {
                assert(files.deep_view().take(j + 1).drop_last() =~= files.deep_view().take(j as int));
                assert(files.deep_view().take(j + 1).last() == files[j as int]@);
                if text_starts_with(files[j].as_str(), file) {
                    let ghost old_dv = res.deep_view();
                    res.push((owned(files[j].as_str()), owned(base.as_str())));
                    assert(res.deep_view() =~= old_dv.push((files[j as int]@, base@)));
                }
                assert(res.deep_view() =~= before + entry_matches(file@, target@, files.deep_view().take(j + 1)));
                j += 1;
            }
            assert(files.deep_view().take(files.len() as int) == files.deep_view());
            assert(mapping.deep_view().take(i + 1).drop_last() =~= mapping.deep_view().take(i as int));
            assert(mapping.deep_view().take(i + 1).last() == (file@, target@));
            i += 1;
        }
        assert(mapping.deep_view().take(mapping.len() as int) == mapping.deep_view());
        res
    }

    /// The copies to make: each embedded file that a mapping entry covers,
    /// with its target directory after shell expansion. Expansion stops at
    /// the first target that cannot be expanded; the copies before it are
    /// returned with the error. The mapping is keyed by source: no source
    /// occurs twice.
    pub fn copy_jobs(mapping: &Vec<(String, String)>, files: &Vec<String>) -> (res: (Vec<(String, String)>, Option<ExpandError>))
        requires
            distinct_sources(mapping.deep_view()),
        ensures
            ({
                let m = copy_matches(mapping.deep_view(), files.deep_view());
                let jobs = res.0.deep_view();
                &&& jobs.len() <= m.len()
                &&& forall|i: int|
                    0 <= i < jobs.len() ==> (#[trigger] jobs[i]).0 == m[i].0 && may_expand_to(
                        m[i].1,
                        jobs[i].1,
                    )
                &&& res.1 is None <==> jobs.len() == m.len()
                &&& res.1 is Some ==> m[jobs.len() as int].1.contains('$')
            }),
    {
        let found = Dotfiles::matches(mapping, files);
        let ghost m = found.deep_view();
        let mut expansions: Vec<Result<String, ExpandError>> = Vec::new();
        let mut stopped = false;
        let mut k: usize = 0;
        while k < found.len() && !stopped
            invariant
                k <= found.len(),
                m == found.deep_view(),
                m == copy_matches(mapping.deep_view(), files.deep_view()),
                expansions@.len() == k,
                forall|i: int|
                    0 <= i < k ==> {
                        &&& (#[trigger] expansions@[i]) matches Ok(t) ==> may_expand_to(m[i].1, t@)
                        &&& !m[i].1.contains('$') ==> expansions@[i] is Ok
                        &&& expansions@[i] is Err ==> stopped && i == k - 1
                    },
                stopped ==> k > 0 && expansions@[k - 1] is Err,
            decreases found.len() - k,
        {
            assert(m[k as int] == (found[k as int].0@, found[k as int].1@));
            let r = shell_expand(found[k].1.as_str());
            stopped = r.is_err();
            expansions.push(r);
            k += 1;
        }
        let res = Dotfiles::jobs_from(&found, &expansions);
        proof {
            if res.1 is None && stopped {
                assert(expansions@[k - 1] is Ok);
            }
        }
        res
    }

    /// The copies to make, given the matches of [`Dotfiles::matches`] and
    /// the shell expansions of their target directories, in order: the
    /// matches whose target expanded, up to the first failed expansion,
    /// whose error is handed on.
    pub fn jobs_from(found: &Vec<(String, String)>, expansions: &Vec<Result<String, ExpandError>>) -> (res: (Vec<(String, String)>, Option<ExpandError>))
        requires
            expansions@.len() <= found@.len(),
        ensures
            ({
                let jobs = res.0.deep_view();
                &&& jobs.len() <= expansions@.len()
                &&& forall|i: int| 0 <= i < jobs.len() ==> (#[trigger] expansions@[i]) is Ok
                &&& forall|i: int|
                    0 <= i < jobs.len() ==> #[trigger] jobs[i] == (
                        found[i].0@,
                        expansions@[i]->Ok_0@,
                    )
                &&& res.1 is None ==> jobs.len() == expansions@.len()
                &&& res.1 matches Some(e) ==> jobs.len() < expansions@.len()
                    && expansions@[jobs.len() as int] is Err && e.message@
                    == expansions@[jobs.len() as int]->Err_0.message@
            }),
    {
        let mut jobs: Vec<(String, String)> = Vec::new();
        let mut k: usize = 0;
        while k < expansions.len()
            invariant
                k <= expansions@.len() <= found@.len(),
                jobs.deep_view().len() == k,
                forall|i: int| 0 <= i < k ==> (#[trigger] expansions@[i]) is Ok,
                forall|i: int|
                    0 <= i < k ==> #[trigger] jobs.deep_view()[i] == (
                        found[i].0@,
                        expansions@[i]->Ok_0@,
                    ),
            decreases expansions.len() - k,
        {
            let r = &expansions[k];
            assert(*r == expansions@[k as int]);
            match r {
                Ok(dir) => {
                    assert(expansions@[k as int]->Ok_0 == *dir);
                    let ghost old_dv = jobs.deep_view();
                    jobs.push((owned(found[k].0.as_str()), owned(dir.as_str())));
                    assert(jobs.deep_view() =~= old_dv.push((found[k as int].0@, dir@)));
                    assert forall|i: int| 0 <= i < k + 1 implies #[trigger] jobs.deep_view()[i] == (
                        found[i].0@,
                        expansions@[i]->Ok_0@,
                    ) by {
                        if i < k {
                            assert(old_dv[i] == (found[i].0@, expansions@[i]->Ok_0@));
                        }
                    }
                },
                Err(e) => {
                    assert(expansions@[k as int]->Err_0 == *e);
                    let error = ExpandError { message: owned(e.message.as_str()) };
                    return (jobs, Some(error));
                },
            }
            k += 1;
        }
        (jobs, None)
    }
}

} // verus!
