use dot_pr_review::query::Args;

fn all_set() -> Args {
    Args {
        updated_since: String::from("2024-06-01"),
        repo: Some(String::from("org/repo")),
        type_filter: Some(String::from("pr")),
        state_filter: Some(String::from("open")),
    }
}

#[test]
fn query_is_deterministic_for_equal_filters() {
    let a = all_set();
    let b = all_set();
    let qa = a.prepare().unwrap();
    let qb = b.prepare().unwrap();
    assert_eq!(qa, qb);
    let qa_again = a.prepare().unwrap();
    assert_eq!(qa, qa_again);
}

#[test]
fn query_token_order_with_all_fields_set() {
    let q = all_set().prepare().unwrap();
    let i_involves = q.find("involves:").unwrap();
    let i_updated = q.find("updated:").unwrap();
    let i_repo = q.find("repo:").unwrap();
    let i_is = q.find("is:").unwrap();
    let i_state = q.find("state:").unwrap();
    let i_sort = q.find("sort:").unwrap();
    assert!(i_involves < i_updated);
    assert!(i_updated < i_repo);
    assert!(i_repo < i_is);
    assert!(i_is < i_state);
    assert!(i_state < i_sort);
}

#[test]
fn end_to_end_query_scenario() {
    let q = all_set().prepare().unwrap();
    assert_eq!(
        q,
        "involves:@me updated:>=2024-06-01 repo:org/repo is:pr state:open sort:updated-desc"
    );
}

#[test]
fn invalid_month_is_a_validation_error() {
    let a = Args {
        updated_since: String::from("2024-13-01"),
        repo: None,
        type_filter: None,
        state_filter: None,
    };
    let e = a.prepare().unwrap_err();
    assert_eq!(e.input, "2024-13-01");
}

#[test]
fn valid_date_embeds_updated_token() {
    let a = Args {
        updated_since: String::from("2024-01-15"),
        repo: None,
        type_filter: None,
        state_filter: None,
    };
    let q = a.prepare().unwrap();
    assert!(q.contains("updated:>=2024-01-15"));
    assert_eq!(q, "involves:@me updated:>=2024-01-15 sort:updated-desc");
}

#[test]
fn optional_tokens_appear_only_when_set() {
    let a = Args {
        updated_since: String::from("2024-01-15"),
        repo: None,
        type_filter: Some(String::from("issue")),
        state_filter: None,
    };
    let q = a.prepare().unwrap();
    assert_eq!(q, "involves:@me updated:>=2024-01-15 is:issue sort:updated-desc");
    assert!(!q.contains("repo:"));
    assert!(!q.contains("state:"));
}
