use submerge::server::service::{
    all_failed_error, error_lines, fetch_concurrency, kind_of_text, merge_results, plan_reads,
    remote_outcome, select_sources, single_outcome, ReadPlan, SourceError, SourceKind, SourceRow,
};

fn row(id: i64, name: &str) -> SourceRow {
    SourceRow {
        id,
        name: name.to_string(),
        url: format!("https://x/{id}"),
        kind: SourceKind::Remote,
    }
}

#[test]
fn remote_outcome_without_nodes_is_an_error() {
    let r: Result<Vec<u8>, String> = remote_outcome(Ok((vec![], 3)));
    assert_eq!(r.unwrap_err(), "no nodes parsed (3 line(s) skipped)");
    let r: Result<Vec<u8>, String> = remote_outcome(Ok((vec![], 0)));
    assert_eq!(r.unwrap_err(), "no nodes parsed (0 line(s) skipped)");
    let r = remote_outcome(Ok((vec![1u8, 2], 7)));
    assert_eq!(r.unwrap(), vec![1, 2]);
    let r: Result<Vec<u8>, String> = remote_outcome(Err("request failed: timeout".into()));
    assert_eq!(r.unwrap_err(), "request failed: timeout");
}

#[test]
fn single_outcome_wraps_parse_errors() {
    assert_eq!(single_outcome(Ok(5u8)).unwrap(), vec![5]);
    let r: Result<Vec<u8>, String> = single_outcome(Err("unknown scheme".into()));
    assert_eq!(r.unwrap_err(), "parse failed: unknown scheme");
}

#[test]
fn merge_keeps_order_and_truncates() {
    let results = vec![
        ("a".to_string(), Ok(vec![1, 2])),
        ("b".to_string(), Err("http status 404 Not Found".to_string())),
        ("c".to_string(), Ok(vec![3, 4, 5])),
        ("d".to_string(), Err("timeout".to_string())),
    ];
    let (nodes, errors) = merge_results(results, 4);
    assert_eq!(nodes, vec![1, 2, 3, 4]);
    assert_eq!(errors.len(), 2);
    assert_eq!(errors[0].source_name, "b");
    assert_eq!(errors[0].reason, "http status 404 Not Found");
    assert_eq!(errors[1].source_name, "d");
}

#[test]
fn merge_under_the_cap_keeps_everything() {
    let results = vec![("a".to_string(), Ok(vec![1])), ("b".to_string(), Ok(vec![2]))];
    let (nodes, errors) = merge_results(results, 2000);
    assert_eq!(nodes, vec![1, 2]);
    assert!(errors.is_empty());
    let (nodes, errors) = merge_results::<u8>(vec![], 10);
    assert!(nodes.is_empty() && errors.is_empty());
}

#[test]
fn error_lines_and_all_failed() {
    let errors = vec![
        SourceError { source_name: "A".into(), reason: "timeout".into() },
        SourceError { source_name: "B".into(), reason: "no nodes parsed (1 line(s) skipped)".into() },
    ];
    assert_eq!(
        error_lines(&errors),
        vec!["A: timeout".to_string(), "B: no nodes parsed (1 line(s) skipped)".to_string()]
    );
    let e = all_failed_error(0, &errors).unwrap();
    assert_eq!(e.status, 502);
    assert_eq!(e.code, "bad_gateway");
    assert_eq!(
        e.message,
        "all sources failed: A: timeout; B: no nodes parsed (1 line(s) skipped)"
    );
    assert!(all_failed_error(1, &errors).is_none());
    assert!(all_failed_error(0, &vec![]).is_none());
}

#[test]
fn select_sources_by_membership() {
    let rows = vec![row(1, "a"), row(2, "b"), row(3, "c")];
    let all = select_sources(rows.clone(), None);
    assert_eq!(all.len(), 3);
    let picked = select_sources(rows.clone(), Some(&vec![3, 1, 99]));
    let ids: Vec<i64> = picked.iter().map(|r| r.id).collect();
    assert_eq!(ids, vec![1, 3]);
    assert!(select_sources(rows, Some(&vec![])).is_empty());
}

#[test]
fn source_kind_text() {
    assert_eq!(kind_of_text("single"), SourceKind::Single);
    assert_eq!(kind_of_text("remote"), SourceKind::Remote);
    assert_eq!(kind_of_text(""), SourceKind::Remote);
}

#[test]
fn concurrency_is_at_least_one() {
    assert_eq!(fetch_concurrency(0), 1);
    assert_eq!(fetch_concurrency(8), 8);
}

#[test]
fn failed_source_is_skipped() {
    let with_failure = vec![
        ("a".to_string(), Ok(vec![1, 2])),
        ("dead".to_string(), Err("request failed: refused".to_string())),
        ("c".to_string(), Ok(vec![3])),
    ];
    let without = vec![("a".to_string(), Ok(vec![1, 2])), ("c".to_string(), Ok(vec![3]))];
    assert_eq!(merge_results(with_failure, 2000).0, merge_results(without, 2000).0);
}

#[test]
fn reads_follow_selection_and_kind() {
    let mut single = row(2, "s2");
    single.kind = SourceKind::Single;
    single.url = "ss://node".to_string();
    let rows = vec![row(1, "r1"), single, row(3, "r3")];
    let all = plan_reads(rows.clone(), None);
    assert_eq!(
        all,
        vec![
            ("r1".to_string(), ReadPlan::Fetch("https://x/1".to_string())),
            ("s2".to_string(), ReadPlan::Parse("ss://node".to_string())),
            ("r3".to_string(), ReadPlan::Fetch("https://x/3".to_string())),
        ]
    );
    let members = vec![3, 2, 99];
    let some = plan_reads(rows, Some(&members));
    assert_eq!(some.iter().map(|r| r.0.as_str()).collect::<Vec<_>>(), vec!["s2", "r3"]);
}
