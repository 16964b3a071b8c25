//! The change-set side of the workflow: change entries, the merge of the
//! deleted and modified listings that the repository reports, and the
//! errors that repository commands can produce.
use vstd::prelude::*;

use crate::text::str_eq;
use vstd::seq_lib::*;

verus! {

/// Status of one pending change in the working tree.
#[derive(Clone, Copy, Debug, PartialEq, Eq, Structural)]
pub enum ChangeStatus {
    Modified,
    Deleted,
}

/// One file with a pending change.
#[derive(Clone, Debug)]
pub struct ChangeEntry {
    pub path: String,
    pub status: ChangeStatus,
}

impl View for ChangeEntry {
    type V = (Seq<char>, ChangeStatus);

    open spec fn view(&self) -> (Seq<char>, ChangeStatus) {
        (self.path@, self.status)
    }
}

impl DeepView for ChangeEntry {
    type V = (Seq<char>, ChangeStatus);

    open spec fn deep_view(&self) -> (Seq<char>, ChangeStatus) {
        self@
    }
}

/// An error from a repository command, with the failing command's context.
#[derive(Clone, Debug)]
pub enum GitError {
    ListingError(String),
    DiffError(String),
    StageError(String),
    CommitError(String),
    PushError(String),
    IoError(String),
    Utf8Error(String),
}

/// The merged change listing: every deleted path first, then every modified
/// path that the deleted listing does not already name.
pub open spec fn merged_listing(deleted: Seq<Seq<char>>, modified: Seq<Seq<char>>) -> Seq<
    (Seq<char>, ChangeStatus),
> {
    deleted.map_values(|p: Seq<char>| (p, ChangeStatus::Deleted)) + modified.filter(
        |p: Seq<char>| !deleted.contains(p),
    ).map_values(|p: Seq<char>| (p, ChangeStatus::Modified))
}

fn contains_string(v: &Vec<String>, s: &String) -> (r: bool)
    ensures
        r == v.deep_view().contains(s@),
{
    let mut i: usize = 0;
    while i < v.len()
        invariant
            i <= v@.len(),
            v.deep_view().len() == v@.len(),
            forall|k: int| 0 <= k < i ==> v.deep_view()[k] != s@,
        decreases v@.len() - i,
    {
        assert(v.deep_view()[i as int] == v@[i as int]@);
        if str_eq(v[i].as_str(), s.as_str()) {
            assert(v.deep_view().contains(s@));
            return true;
        }
        i += 1;
    }
    assert(forall|k: int| 0 <= k < v.deep_view().len() ==> v.deep_view()[k] != s@);
    false
}

/// Provides the pure side of the repository commands: the merge of the raw
/// listings into one sequence of change entries.
pub struct GitCommands;

impl GitCommands {
    /// Merges the deleted and modified listings that the repository reports
    /// into one change listing: deleted paths first, and a path named by
    /// both listings reported once, as deleted.
    pub fn merge_listings(deleted: &Vec<String>, modified: &Vec<String>) -> (r: Vec<ChangeEntry>)
        ensures
            r.deep_view() == merged_listing(deleted.deep_view(), modified.deep_view()),
    {
        let ghost d = deleted.deep_view();
        let ghost m = modified.deep_view();
        let ghost pred = |p: Seq<char>| !d.contains(p);
        let mut r: Vec<ChangeEntry> = Vec::new();
        let mut i: usize = 0;
        while i < deleted.len()
            invariant
                i <= deleted@.len(),
                d == deleted.deep_view(),
                d.len() == deleted@.len(),
                r@.len() == i,
                forall|k: int|
                    0 <= k < i ==> (#[trigger] r@[k]).path@ == d[k] && r@[k].status
                        == ChangeStatus::Deleted,
            decreases deleted@.len() - i,
        {
            r.push(ChangeEntry { path: deleted[i].clone(), status: ChangeStatus::Deleted });
            i += 1;
        }
        let mut j: usize = 0;
        while j < modified.len()
            invariant
                j <= modified@.len(),
                d == deleted.deep_view(),
                m == modified.deep_view(),
                d.len() == deleted@.len(),
                m.len() == modified@.len(),
                pred == (|p: Seq<char>| !d.contains(p)),
                r@.len() == d.len() + m.subrange(0, j as int).filter(pred).len(),
                forall|k: int|
                    0 <= k < d.len() ==> (#[trigger] r@[k]).path@ == d[k] && r@[k].status
                        == ChangeStatus::Deleted,
                forall|k: int|
                    d.len() <= k < r@.len() ==> (#[trigger] r@[k]).path@ == m.subrange(
                        0,
                        j as int,
                    ).filter(pred)[k - d.len()] && r@[k].status == ChangeStatus::Modified,
            decreases modified@.len() - j,
        {
            let ghost prefix = m.subrange(0, j as int);
            assert(m.subrange(0, j + 1) =~= prefix.push(m[j as int]));
            proof {
                reveal_with_fuel(Seq::filter, 2);
                assert(prefix.push(m[j as int]).drop_last() =~= prefix);
                assert(prefix.push(m[j as int]).filter(pred) == if pred(m[j as int]) {
                    prefix.filter(pred).push(m[j as int])
                } else {
                    prefix.filter(pred)
                });
            }
            if !contains_string(deleted, &modified[j]) {
                assert(pred(m[j as int]));
                r.push(ChangeEntry { path: modified[j].clone(), status: ChangeStatus::Modified });
            } else {
                assert(!pred(m[j as int]));
            }
            j += 1;
        }
        assert(m.subrange(0, m.len() as int) =~= m);
        proof {
            let out = merged_listing(d, m);
            let kept = m.filter(pred);
            assert(r.deep_view().len() == out.len());
            assert forall|k: int| 0 <= k < out.len() implies r.deep_view()[k] == out[k] by {
                assert(r.deep_view()[k] == r@[k].deep_view());
                if k < d.len() {
                    assert(out[k] == (d[k], ChangeStatus::Deleted));
                } else {
                    assert(out[k] == (kept[k - d.len()], ChangeStatus::Modified));
                }
            }
            assert(r.deep_view() =~= out);
        }
        r
    }

    /// Decides the outcome of a change listing command: its lines on
    /// success, and a listing error carrying the command's complaint on a
    /// failing status.
    pub fn listing_outcome(success: bool, lines: Vec<String>, stderr: &str) -> (r: Result<
        Vec<String>,
        GitError,
    >)
        ensures
            success ==> (r matches Ok(l) && l == lines),
            !success ==> (r matches Err(GitError::ListingError(m)) && m@ == "Git ls-files failed: "@
                + stderr@),
    {
        if success {
            Ok(lines)
        } else {
            let mut m = "Git ls-files failed: ".to_owned();
            m.append(stderr);
            Err(GitError::ListingError(m))
        }
    }

    /// Decides the outcome of the diff command: its output on success, and
    /// a diff error on a failing status.
    pub fn diff_outcome(success: bool, stdout: String) -> (r: Result<String, GitError>)
        ensures
            success ==> (r matches Ok(d) && d == stdout),
            !success ==> (r matches Err(GitError::DiffError(m)) && m@
                == "Failed to execute git diff"@),
    {
        if success {
            Ok(stdout)
        } else {
            Err(GitError::DiffError("Failed to execute git diff".to_owned()))
        }
    }

    /// Decides the outcome of staging one file: a stage error naming the
    /// file and the command's complaint on a failing status.
    pub fn stage_outcome(path: &str, success: bool, stderr: &str) -> (r: Result<(), GitError>)
        ensures
            success ==> r is Ok,
            !success ==> (r matches Err(GitError::StageError(m)) && m@ == "Failed to stage file "@
                + path@ + ": "@ + stderr@),
    {
        if success {
            Ok(())
        } else {
            let mut m = "Failed to stage file ".to_owned();
            m.append(path);
            m.append(": ");
            m.append(stderr);
            Err(GitError::StageError(m))
        }
    }

    /// Decides the outcome of the commit command: a commit error carrying
    /// the command's complaint on a failing status.
    pub fn commit_outcome(success: bool, stderr: &str) -> (r: Result<(), GitError>)
        ensures
            success ==> r is Ok,
            !success ==> (r matches Err(GitError::CommitError(m)) && m@ == "Git commit failed: "@
                + stderr@),
    {
        if success {
            Ok(())
        } else {
            let mut m = "Git commit failed: ".to_owned();
            m.append(stderr);
            Err(GitError::CommitError(m))
        }
    }

    /// Decides the outcome of the push command: a push error carrying the
    /// command's complaint on a failing status.
    pub fn push_outcome(success: bool, stderr: &str) -> (r: Result<(), GitError>)
        ensures
            success ==> r is Ok,
            !success ==> (r matches Err(GitError::PushError(m)) && m@ == "Git push failed: "@
                + stderr@),
    {
        if success {
            Ok(())
        } else {
            let mut m = "Git push failed: ".to_owned();
            m.append(stderr);
            Err(GitError::PushError(m))
        }
    }
}

/// Every entry of a merged listing that carries a deleted path is tagged
/// deleted; no path is reported both as deleted and as modified; and every
/// deleted entry stands before every modified entry.
pub proof fn lemma_merged_listing_well_formed(deleted: Seq<Seq<char>>, modified: Seq<Seq<char>>)
    ensures
        forall|i: int, j: int|
            {
                &&& 0 <= i < merged_listing(deleted, modified).len()
                &&& 0 <= j < merged_listing(deleted, modified).len()
                &&& merged_listing(deleted, modified)[i].1 == ChangeStatus::Deleted
                &&& merged_listing(deleted, modified)[j].1 == ChangeStatus::Modified
            } ==> merged_listing(deleted, modified)[i].0 != merged_listing(deleted, modified)[j].0
                && i < j,
{
    let r = merged_listing(deleted, modified);
    let dpart = deleted.map_values(|p: Seq<char>| (p, ChangeStatus::Deleted));
    let pred = |p: Seq<char>| !deleted.contains(p);
    let kept = modified.filter(pred);
    let mpart = kept.map_values(|p: Seq<char>| (p, ChangeStatus::Modified));
    assert forall|i: int, j: int|
        {
            &&& 0 <= i < r.len()
            &&& 0 <= j < r.len()
            &&& r[i].1 == ChangeStatus::Deleted
            &&& r[j].1 == ChangeStatus::Modified
        } implies r[i].0 != r[j].0 && i < j by {
        assert(forall|k: int| 0 <= k < dpart.len() ==> dpart[k].1 == ChangeStatus::Deleted);
        assert(forall|k: int| 0 <= k < mpart.len() ==> mpart[k].1 == ChangeStatus::Modified);
        assert(i < dpart.len());
        assert(j >= dpart.len());
        let jj = j - dpart.len();
        assert(r[j].0 == kept[jj]);
        modified.lemma_filter_pred(pred, jj);
        assert(!deleted.contains(kept[jj]));
        assert(r[i].0 == deleted[i]);
        assert(deleted.contains(deleted[i]));
    }
}

} // verus!

