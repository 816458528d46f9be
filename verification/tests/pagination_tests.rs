use dot_pr_review::filter::AssigneePolicy;
use dot_pr_review::model::{Identity, Item, ItemState, Page};
use dot_pr_review::pagination::PageAction;

fn item(number: u64, title: &str, author: &str) -> Item {
    Item {
        number,
        title: String::from(title),
        is_pull_request: false,
        author_login: String::from(author),
        assignee_login: None,
        updated_at: String::from("2024-06-01T12:00:00Z"),
        state: ItemState::Open,
        url: String::from("https://example.invalid/org/repo/issues/1"),
        body: Some(String::from("a body")),
    }
}

fn page(numbers: &[u64], next: Option<&str>) -> Page {
    Page {
        items: numbers.iter().map(|n| item(*n, "Fix a bug", "alice")).collect(),
        total_count: Some(numbers.len() as u64),
        next_cursor: next.map(String::from),
    }
}

/// Drive the pagination loop against a stubbed chain of pages; count the
/// follow-up fetches and the processed items.
#[test]
fn loop_stops_at_the_cursorless_page() {
    let chain = vec![
        page(&[1, 2], Some("cursor-a")),
        page(&[3], Some("cursor-b")),
        page(&[4, 5, 6], None),
        page(&[7], None), // never reachable: the loop must not get here
    ];
    let me = Identity { login: String::from("someone") };
    let mut fetches = 0usize;
    let mut processed: Vec<u64> = Vec::new();
    let mut pos = 0usize;
    loop {
        let current = &chain[pos];
        for i in current.surviving_indices(&me, AssigneePolicy::KeepAll) {
            processed.push(current.items[i].number);
        }
        match current.plan_next() {
            PageAction::Fetch(cursor) => {
                fetches += 1;
                assert_eq!(cursor, chain[pos].next_cursor.clone().unwrap());
                pos += 1;
            }
            PageAction::Stop => break,
        }
    }
    assert_eq!(fetches, 2);
    assert_eq!(pos, 2);
    assert_eq!(processed, vec![1, 2, 3, 4, 5, 6]);
}

#[test]
fn single_cursorless_page_needs_no_fetch() {
    let only = page(&[42], None);
    match only.plan_next() {
        PageAction::Stop => {}
        PageAction::Fetch(_) => panic!("a cursorless page must end the loop"),
    }
}

#[test]
fn survivors_keep_server_order() {
    let me = Identity { login: String::from("someone") };
    let mut p = page(&[10, 11, 12], None);
    p.items[1] = Item {
        title: String::from("Backport #77 into stable"),
        author_login: String::from("paritytech-release-team[bot]"),
        ..item(11, "", "")
    };
    let kept = p.surviving_indices(&me, AssigneePolicy::KeepAll);
    assert_eq!(kept, vec![0, 2]);
    let strict: Vec<usize> = p.surviving_indices(&me, AssigneePolicy::RequireAssignedToMe);
    assert_eq!(strict, vec![0, 2]);
}
