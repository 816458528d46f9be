use dot_pr_review::scan::flag_missing_tracing;

fn lines(v: &[&str]) -> Vec<String> {
    v.iter().map(|s| String::from(*s)).collect()
}

#[test]
fn map_err_without_tracing_is_flagged() {
    let content = lines(&[
        "fn f() {",
        "    do_it().map_err(|_| Error::Bad)?;",
        "    Ok(())",
        "}",
    ]);
    let flagged = flag_missing_tracing("pallets/xcm/src/lib.rs", &content);
    assert_eq!(flagged, vec![1]);
}

#[test]
fn map_err_followed_by_tracing_is_clean() {
    let content = lines(&[
        "    do_it().map_err(|_| Error::Bad)?;",
        "    tracing::warn!(\"failed\");",
    ]);
    let flagged = flag_missing_tracing("pallets/xcm/src/lib.rs", &content);
    assert!(flagged.is_empty());
}

#[test]
fn out_of_scope_paths_are_skipped() {
    let content = lines(&["x.map_err(|_| Error::Bad)?;", "y();"]);
    assert!(flag_missing_tracing("pallets/balances/src/lib.rs", &content).is_empty());
    assert!(flag_missing_tracing("pallets/xcm/benchmarking/lib.rs", &content).is_empty());
    assert!(flag_missing_tracing("pallets/xcm/tests/lib.rs", &content).is_empty());
}

#[test]
fn last_line_is_never_flagged() {
    let content = lines(&["x.map_err(|_| Error::Bad)?;"]);
    assert!(flag_missing_tracing("pallets/xcm/src/lib.rs", &content).is_empty());
}

#[test]
fn both_markers_are_needed_on_the_line() {
    let content = lines(&["x.map_err(drop)?;", "y();", "z.or(Error::Bad);", "w();"]);
    assert!(flag_missing_tracing("pallets/xcm/src/lib.rs", &content).is_empty());
}
