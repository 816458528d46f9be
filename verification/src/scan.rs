//! The source-scan rule of the repository helper that hunts for `map_err`
//! call sites without a following `tracing` line: given a file's path and
//! its lines as plain values, decide exactly which lines to report.

use vstd::prelude::*;
use crate::text::{contains_seq, str_contains};

verus! {

/// The file is in scope for the scan: an `xcm` path that is neither a
/// benchmarking nor a tests path.
pub open spec fn path_in_scope(path: Seq<char>) -> bool {
    &&& contains_seq(path, "xcm"@)
    &&& !contains_seq(path, "benchmarking"@)
    &&& !contains_seq(path, "tests"@)
}

/// Line `i` is reported: the file is in scope, the line mentions both
/// `map_err` and `Error`, and the following line exists but does not
/// mention `tracing`.
pub open spec fn line_flagged(path: Seq<char>, lines: Seq<Seq<char>>, i: int) -> bool {
    &&& 0 <= i
    &&& i + 1 < lines.len()
    &&& path_in_scope(path)
    &&& contains_seq(lines[i], "map_err"@)
    &&& contains_seq(lines[i], "Error"@)
    &&& !contains_seq(lines[i + 1], "tracing"@)
}

/// The reported line positions among `lines[0 .. n]`, in order.
pub open spec fn flagged_indices(path: Seq<char>, lines: Seq<Seq<char>>, n: int) -> Seq<int>
    decreases n,
{
    if n <= 0 {
        Seq::<int>::empty()
    } else {
        let prefix = flagged_indices(path, lines, n - 1);
        if line_flagged(path, lines, n - 1) {
            prefix.push(n - 1)
        } else {
            prefix
        }
    }
}

/// Scan one file's lines and return the positions of every line that lacks
/// the expected `tracing` follow-up, in order.
pub fn flag_missing_tracing(path: &str, lines: &Vec<String>) -> (r: Vec<usize>)
    ensures
        r@.map_values(|u: usize| u as int) == flagged_indices(
            path@,
            lines.deep_view(),
            lines@.len() as int,
        ),
        forall|k: int| 0 <= k < r@.len() ==> r@[k] < lines@.len(),
{
    let ghost gpath = path@;
    let ghost glines = lines.deep_view();
    let in_scope = str_contains(path, "xcm") && !str_contains(path, "benchmarking")
        && !str_contains(path, "tests");
    assert(in_scope == path_in_scope(gpath));
    let n = lines.len();
    let mut r: Vec<usize> = Vec::new();
    if !in_scope || n == 0 {
        assert(flagged_indices(gpath, glines, n as int) =~= Seq::<int>::empty()) by {
            lemma_flagged_empty(gpath, glines, n as int);
        }
        return r;
    }
    let mut i: usize = 0;
    while i < n
        invariant
            n == lines@.len(),
            glines == lines.deep_view(),
            gpath == path@,
            glines.len() == n,
            path_in_scope(gpath),
            i <= n,
            r@.map_values(|u: usize| u as int) == flagged_indices(gpath, glines, i as int),
            forall|k: int| 0 <= k < r@.len() ==> r@[k] < n,
        decreases n - i,
    {
        assert(glines[i as int] == lines@[i as int]@);
        if i + 1 < n {
            assert(glines[i + 1] == lines@[i + 1]@);
            let hit = str_contains(lines[i].as_str(), "map_err")
                && str_contains(lines[i].as_str(), "Error")
                && !str_contains(lines[i + 1].as_str(), "tracing");
            if hit {
                r.push(i);
                assert(r@.map_values(|u: usize| u as int) =~= flagged_indices(
                    gpath,
                    glines,
                    i + 1,
                ));
            }
        }
        i += 1;
    }
    r
}

proof fn lemma_flagged_empty(path: Seq<char>, lines: Seq<Seq<char>>, n: int)
    requires
        !path_in_scope(path) || n <= 0,
    ensures
        flagged_indices(path, lines, n) == Seq::<int>::empty(),
    decreases n,
{
    if n > 0 {
        lemma_flagged_empty(path, lines, n - 1);
    }
}

} // verus!
