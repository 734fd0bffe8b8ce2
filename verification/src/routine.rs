//! Tools for routinely cleaning folders.
//!
//! A routine couples a directory, a pattern, and a repetition interval. One
//! pass of a routine lists the directory's immediate entries and removes
//! those whose path matches the pattern. The listing and the removals are
//! operating-system work and belong to a runner; the routine's verified
//! part takes the listing's outcome as a value and plans the pass: it says
//! exactly which entries are to be removed, and that a listing failure
//! aborts the pass with no removal at all.

use vstd::prelude::*;

use crate::fs_utils::error::OsError;
use crate::fs_utils::pattern::FilePattern;

verus! {

/// A routine to clear a directory based on a pattern.
///
/// `directory` is the path of the directory to clean. `interval` is the
/// number of milliseconds a runner should let pass between the end of one
/// pass and the start of the next; a useful routine has a strictly positive
/// one, which configuration is expected to enforce. `pattern` selects the
/// entries a pass removes.
pub struct Routine {
    pub directory: String,
    pub interval: u64,
    pub pattern: FilePattern,
}

/// The paths one pass removes, given the entries the directory listing
/// yielded: the paths of the successfully listed entries that match the
/// pattern, in listing order. Entries that themselves errored during
/// enumeration are skipped silently.
pub open spec fn planned(pattern: FilePattern, items: Seq<Result<String, OsError>>) -> Seq<
    Seq<char>,
>
    decreases items.len(),
{
    if items.len() == 0 {
        Seq::empty()
    } else {
        let rest = planned(pattern, items.drop_last());
        match items.last() {
            Ok(p) => if pattern.spec_matches(p@) {
                rest.push(p@)
            } else {
                rest
            },
            Err(_) => rest,
        }
    }
}

/// The views of a sequence of owned paths.
pub open spec fn path_views(paths: Seq<String>) -> Seq<Seq<char>> {
    paths.map_values(|p: String| p@)
}

impl Routine {
    /// Executes a routine once: the decision half.
    ///
    /// `listing` is what reading the routine's `directory` yielded: either
    /// the entries' paths, each one `Ok` or the error its enumeration hit,
    /// or the error that made the directory unreadable. The result is the
    /// pass's plan: the paths to remove, exactly the successfully listed
    /// entries matching the routine's `pattern`, in listing order.
    ///
    /// # Errors
    ///
    /// When the directory could not be listed at all, the pass fails with
    /// that error and plans no removal. An error on a single entry merely
    /// skips that entry.
    pub fn run(&self, listing: Result<Vec<Result<String, OsError>>, OsError>) -> (r: Result<
        Vec<String>,
        OsError,
    >)
        ensures
            (match listing {
                Ok(items) => r matches Ok(plan) && path_views(plan@) == planned(
                    self.pattern,
                    items@,
                ),
                Err(e) => r matches Err(e2) && e2 == e,
            }),
    {
        match listing {
            Ok(items) => {
                let mut plan: Vec<String> = Vec::new();
                let n = items.len();
                let mut i: usize = 0;
                while i < n
                    invariant
                        n == items@.len(),
                        i <= n,
                        path_views(plan@) == planned(self.pattern, items@.take(i as int)),
                    decreases n - i,
                {
                    proof {
                        assert(items@.take(i as int + 1).drop_last() =~= items@.take(i as int));
                        assert(items@.take(i as int + 1).last() == items@[i as int]);
                    }
                    match &items[i] {
                        Ok(p) => {
                            if self.pattern.matches(p.as_str()) {
                                plan.push(p.clone());
                                proof {
                                    assert(path_views(plan@) =~= planned(
                                        self.pattern,
                                        items@.take(i as int + 1),
                                    ));
                                }
                            }
                        },
                        Err(_) => {},
                    }
                    i = i + 1;
                }
                proof {
                    assert(items@.take(n as int) =~= items@);
                }
                Ok(plan)
            },
            Err(e) => Err(e),
        }
    }
}

/// Did entry `i` of the listing yield the path `q`?
pub open spec fn listed_as(items: Seq<Result<String, OsError>>, i: int, q: Seq<char>) -> bool {
    items[i] matches Ok(p) && p@ == q
}

/// A pass removes exactly what it should: a path is in the plan of a pass
/// if and only if it matches the pattern and some successfully listed entry
/// bears it. In particular, no entry whose path does not match the pattern
/// is ever removed, and every matching entry is.
pub proof fn lemma_planned_exact(
    pattern: FilePattern,
    items: Seq<Result<String, OsError>>,
    q: Seq<char>,
)
    ensures
        planned(pattern, items).contains(q) <==> (pattern.spec_matches(q) && exists|i: int|
            0 <= i < items.len() && #[trigger] listed_as(items, i, q)),
    decreases items.len(),
{
    if items.len() == 0 {
    } else {
        lemma_planned_exact(pattern, items.drop_last(), q);
        let rest = planned(pattern, items.drop_last());
        let l = planned(pattern, items);
        assert(forall|i: int|
            0 <= i < items.len() - 1 ==> items.drop_last()[i] == #[trigger] items[i]);
        if l.contains(q) {
            if rest.contains(q) {
                let i = choose|i: int|
                    0 <= i < items.drop_last().len() && #[trigger] listed_as(
                        items.drop_last(),
                        i,
                        q,
                    );
                assert(listed_as(items, i, q));
            } else {
                let j = choose|j: int| 0 <= j < l.len() && l[j] == q;
                assert(items.last() matches Ok(p) && pattern.spec_matches(p@));
                assert(l == rest.push(items.last()->Ok_0@));
                assert(j == rest.len());
                assert(listed_as(items, items.len() - 1, q));
            }
        }
        if pattern.spec_matches(q) && exists|i: int|
            0 <= i < items.len() && #[trigger] listed_as(items, i, q) {
            let i = choose|i: int| 0 <= i < items.len() && #[trigger] listed_as(items, i, q);
            if i < items.len() - 1 {
                assert(listed_as(items.drop_last(), i, q));
                assert(rest.contains(q));
                if items.last() matches Ok(p) && pattern.spec_matches(p@) {
                    let j = choose|j: int| 0 <= j < rest.len() && rest[j] == q;
                    assert(l[j] == q);
                } else {
                    assert(l == rest);
                }
            } else {
                assert(items.last() matches Ok(p) && p@ == q);
                assert(l == rest.push(q));
                assert(l[l.len() - 1] == q);
            }
            assert(l.contains(q));
        }
    }
}

} // verus!
