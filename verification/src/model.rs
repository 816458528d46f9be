//! The plain data that flows through the pipeline: the authenticated
//! identity, one search-result item, and one page of the cursor chain.

use vstd::prelude::*;

verus! {

/// The authenticated user, fetched once per run and used for
/// assignee-match filtering.
#[derive(Debug, Clone)]
pub struct Identity {
    pub login: String,
}

/// The open/closed state reported for an item. Values the remote API may
/// add later are carried through as text.
#[derive(Debug, Clone)]
pub enum ItemState {
    Open,
    Closed,
    Other(String),
}

/// One search-result item, constructed fresh from a response page, never
/// mutated, and discarded after being printed or filtered out.
#[derive(Debug, Clone)]
pub struct Item {
    pub number: u64,
    pub title: String,
    pub is_pull_request: bool,
    pub author_login: String,
    pub assignee_login: Option<String>,
    pub updated_at: String,
    pub state: ItemState,
    pub url: String,
    pub body: Option<String>,
}

/// One page of search results. The next cursor, when present, is the sole
/// input needed to fetch the successor page; its absence ends pagination.
#[derive(Debug, Clone)]
pub struct Page {
    pub items: Vec<Item>,
    pub total_count: Option<u64>,
    pub next_cursor: Option<String>,
}

} // verus!
