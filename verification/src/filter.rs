//! The post-fetch result filter: which returned items are suppressed from
//! output. The bot-backport rule is an injectable pattern so the tool
//! generalizes beyond one bot-naming convention; the assignee rule is a
//! configuration toggle, off in the canonical policy.

use vstd::prelude::*;
use vstd::string::StringExecFns;
use crate::model::{Identity, Item};
use crate::text::{contains_seq, is_prefix_of, is_suffix_of, str_contains, str_ends_with,
    str_starts_with};

verus! {

/// An ignore pattern over an item: the title must contain `title_marker`,
/// and the author login must both start with `author_prefix` and end with
/// `author_suffix`.
#[derive(Debug, Clone)]
pub struct IgnorePattern {
    pub title_marker: String,
    pub author_prefix: String,
    pub author_suffix: String,
}

/// `item` matches the ignore pattern `p`.
pub open spec fn pattern_matches(p: &IgnorePattern, item: &Item) -> bool {
    &&& contains_seq(item.title@, p.title_marker@)
    &&& is_prefix_of(p.author_prefix@, item.author_login@)
    &&& is_suffix_of(p.author_suffix@, item.author_login@)
}

/// The built-in rule: a backport filed by a release-automation bot account.
pub open spec fn bot_backport_spec(item: &Item) -> bool {
    &&& contains_seq(item.title@, "Backport #"@)
    &&& is_prefix_of("paritytech-"@, item.author_login@)
    &&& is_suffix_of("[bot]"@, item.author_login@)
}

impl IgnorePattern {
    /// The backport-bot convention: titles that contain `"Backport #"`,
    /// filed by an author whose login starts with `"paritytech-"` and ends
    /// with `"[bot]"`.
    pub fn bot_backport() -> (p: Self)
        ensures
            p.title_marker@ == "Backport #"@,
            p.author_prefix@ == "paritytech-"@,
            p.author_suffix@ == "[bot]"@,
            forall|item: &Item| pattern_matches(&p, item) == bot_backport_spec(item),
    {
        IgnorePattern {
            title_marker: String::from_str("Backport #"),
            author_prefix: String::from_str("paritytech-"),
            author_suffix: String::from_str("[bot]"),
        }
    }

    /// Whether `item` matches this pattern.
    pub fn matches_item(&self, item: &Item) -> (r: bool)
        ensures
            r == pattern_matches(self, item),
    {
        str_contains(item.title.as_str(), self.title_marker.as_str())
            && str_starts_with(item.author_login.as_str(), self.author_prefix.as_str())
            && str_ends_with(item.author_login.as_str(), self.author_suffix.as_str())
    }
}

/// Which assignee rule to apply. `KeepAll` is the canonical policy: results
/// are already scoped by the query itself, and unassigned items are shown.
/// `RequireAssignedToMe` is the stricter historical policy: an item whose
/// assignee is someone else is dropped.
#[derive(Debug, Clone, Copy, PartialEq, Eq, Structural)]
pub enum AssigneePolicy {
    KeepAll,
    RequireAssignedToMe,
}

/// The item has an assignee and it is not `me`.
pub open spec fn assignee_mismatch(item: &Item, me: &Identity) -> bool {
    match item.assignee_login {
        Some(a) => a@ != me.login@,
        None => false,
    }
}

/// The item is suppressed: it matches the bot-backport rule, or, under the
/// strict policy, it is assigned to someone other than `me`.
pub open spec fn should_ignore_spec(item: &Item, me: &Identity, policy: AssigneePolicy) -> bool {
    bot_backport_spec(item) || (policy is RequireAssignedToMe && assignee_mismatch(item, me))
}

pub struct IssueFilter {}

impl IssueFilter {
    /// The canonical filter: only the bot-backport rule; assignees are not
    /// filtered, the query's own scope is trusted.
    pub fn should_ignore(item: &Item, me: &Identity) -> (r: bool)
        ensures
            r == should_ignore_spec(item, me, AssigneePolicy::KeepAll),
    {
        Self::should_ignore_with(item, me, AssigneePolicy::KeepAll)
    }

    /// The filter under an explicit assignee policy.
    pub fn should_ignore_with(item: &Item, me: &Identity, policy: AssigneePolicy) -> (r: bool)
        ensures
            r == should_ignore_spec(item, me, policy),
    {
        let pattern = IgnorePattern::bot_backport();
        if pattern.matches_item(item) {
            return true;
        }
        match policy {
            AssigneePolicy::KeepAll => false,
            AssigneePolicy::RequireAssignedToMe => match &item.assignee_login {
                Some(a) => !(*a == me.login),
                None => false,
            },
        }
    }
}

} // verus!
