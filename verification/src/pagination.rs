//! The orchestration decisions of the pagination loop: which items of a
//! page survive the filter, and whether a follow-up fetch is due. The loop
//! itself performs one network call per decision and terminates exactly
//! when a page carries no next cursor.

use vstd::prelude::*;
use crate::filter::{should_ignore_spec, AssigneePolicy, IssueFilter};
use crate::model::{Identity, Item, Page};

verus! {

/// What the loop does after a page has been handled: dereference the next
/// cursor, or stop because the chain is exhausted.
#[derive(Debug, Clone)]
pub enum PageAction {
    Fetch(String),
    Stop,
}

/// The positions, in server order, of the items among `items[0 .. n]` that
/// the filter keeps.
pub open spec fn kept_indices(
    items: Seq<Item>,
    me: &Identity,
    policy: AssigneePolicy,
    n: int,
) -> Seq<int>
    decreases n,
{
    if n <= 0 {
        Seq::<int>::empty()
    } else {
        let prefix = kept_indices(items, me, policy, n - 1);
        if should_ignore_spec(&items[n - 1], me, policy) {
            prefix
        } else {
            prefix.push(n - 1)
        }
    }
}

impl Page {
    /// The positions of the items this page keeps under the filter, in the
    /// order the server returned them (the order is authoritative; survivors
    /// are never re-sorted).
    pub fn surviving_indices(&self, me: &Identity, policy: AssigneePolicy) -> (r: Vec<usize>)
        ensures
            r@.map_values(|u: usize| u as int) == kept_indices(
                self.items@,
                me,
                policy,
                self.items@.len() as int,
            ),
            forall|k: int| 0 <= k < r@.len() ==> r@[k] < self.items@.len(),
    {
        let mut r: Vec<usize> = Vec::new();
        let n = self.items.len();
        let mut i: usize = 0;
        while i < n
            invariant
                n == self.items@.len(),
                i <= n,
                r@.map_values(|u: usize| u as int) == kept_indices(
                    self.items@,
                    me,
                    policy,
                    i as int,
                ),
                forall|k: int| 0 <= k < r@.len() ==> r@[k] < n,
            decreases n - i,
        {
            let keep = !IssueFilter::should_ignore_with(&self.items[i], me, policy);
            if keep {
                r.push(i);
                assert(r@.map_values(|u: usize| u as int) =~= kept_indices(
                    self.items@,
                    me,
                    policy,
                    i + 1,
                ));
            }
            i += 1;
        }
        r
    }

    /// Decide the next step: fetch through the next cursor when one is
    /// present, otherwise stop with no further network call.
    pub fn plan_next(&self) -> (a: PageAction)
        ensures
            self.next_cursor matches Some(c) ==> (a matches PageAction::Fetch(u) && u@ == c@),
            self.next_cursor is None ==> a is Stop,
    {
        match &self.next_cursor {
            Some(c) => PageAction::Fetch(c.clone()),
            None => PageAction::Stop,
        }
    }
}

/// How many pages the loop visits when run against the chain `chain`: it
/// always handles the first page, and goes on only while the page just
/// handled carries a next cursor.
pub open spec fn pages_visited(chain: Seq<Page>) -> int
    decreases chain.len(),
{
    if chain.len() == 0 {
        0
    } else if chain[0].next_cursor is None {
        1
    } else {
        1 + pages_visited(chain.subrange(1, chain.len() as int))
    }
}

/// Pagination termination: when page `k` is the first of the chain without a
/// next cursor, the loop handles exactly pages `0 ..= k` — it issues `k`
/// follow-up fetches, and none after the cursorless page.
pub proof fn lemma_pagination_terminates(chain: Seq<Page>, k: int)
    requires
        0 <= k < chain.len(),
        chain[k].next_cursor is None,
        forall|j: int| 0 <= j < k ==> chain[j].next_cursor is Some,
    ensures
        pages_visited(chain) == k + 1,
    decreases k,
{
    if k == 0 {
    } else {
        let rest = chain.subrange(1, chain.len() as int);
        assert(rest[k - 1] == chain[k]);
        assert(forall|j: int| 0 <= j < k - 1 ==> rest[j] == chain[j + 1]);
        lemma_pagination_terminates(rest, k - 1);
    }
}

} // verus!
