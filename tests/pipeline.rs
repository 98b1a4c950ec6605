use couchdb_purge::changes::ChangeRecord;
use couchdb_purge::pipeline::{Action, Event, Fatal, Outcome, Pipeline, Stage};
use couchdb_purge::remote::Request;

fn names(v: &[&str]) -> Vec<String> {
    v.iter().map(|s| s.to_string()).collect()
}

fn record(id: &str, revs: &[&str], deleted: Option<bool>) -> ChangeRecord {
    ChangeRecord { id: id.to_string(), revisions: names(revs), deleted }
}

/// What a call or prompt was, in a form easy to compare.
fn describe(a: &Action) -> String {
    match a {
        Action::Call(Request::ListDatabases) => "list_databases".to_string(),
        Action::Call(Request::ListChanges { database }) => format!("changes {}", database),
        Action::Call(Request::Purge { database, request }) => {
            format!("purge {} {} [{}]", database, request.document, request.revisions.join(","))
        }
        Action::Call(Request::Compact { database }) => format!("compact {}", database),
        Action::Call(Request::CleanViews { database }) => format!("clean {}", database),
        Action::Confirm => "confirm".to_string(),
        Action::Finish => "finish".to_string(),
        Action::Abort(f) => format!("abort {:?}", f),
    }
}

/// Answers each action from the given script and returns every action handed out.
fn drive(explicit: Option<Vec<String>>, force_yes: bool, events: Vec<Event>) -> (Pipeline, Vec<String>) {
    let (mut p, mut a) = Pipeline::start(explicit, force_yes);
    let mut seen = vec![describe(&a)];
    for e in events {
        let (q, b) = p.step(e);
        p = q;
        a = b;
        seen.push(describe(&a));
    }
    (p, seen)
}

fn is_mutation(s: &str) -> bool {
    s.starts_with("purge") || s.starts_with("compact") || s.starts_with("clean")
}

#[test]
fn sales_database_is_purged_then_compacted_and_cleaned() {
    let feed = vec![record("doc1", &["2-abc"], Some(true))];
    let (p, seen) = drive(
        Some(names(&["sales"])),
        true,
        vec![
            Event::Changes(Some(feed)),
            Event::Purged(true),
            Event::Compacted(true),
            Event::ViewsCleaned(true),
        ],
    );
    assert_eq!(
        seen,
        vec![
            "changes sales",
            "purge sales doc1 [2-abc]",
            "compact sales",
            "clean sales",
            "finish"
        ]
    );
    assert_eq!(p.reports().len(), 1);
    assert_eq!(p.reports()[0].database, "sales");
    assert_eq!(
        p.reports()[0].outcome,
        Outcome::Purged { purged: 1, failed: 0, compacted: true, cleaned: true }
    );
    assert_eq!(p.stage(), Stage::Finished);
}

#[test]
fn feed_without_deletions_purges_nothing() {
    let feed = vec![record("doc1", &["1-a"], None), record("doc2", &["3-b"], None)];
    let (p, seen) = drive(Some(names(&["sales"])), true, vec![Event::Changes(Some(feed))]);
    assert_eq!(seen, vec!["changes sales", "finish"]);
    assert!(!seen.iter().any(|s| is_mutation(s)));
    assert_eq!(p.reports()[0].outcome, Outcome::NoDeletedDocuments);
}

#[test]
fn named_databases_are_not_discovered() {
    let (p, seen) = drive(
        Some(names(&["x", "y"])),
        false,
        vec![Event::Answer(true), Event::Changes(Some(vec![])), Event::Changes(Some(vec![]))],
    );
    assert_eq!(seen, vec!["confirm", "changes x", "changes y", "finish"]);
    assert!(!seen.iter().any(|s| s == "list_databases"));
    assert_eq!(p.databases(), &names(&["x", "y"]));
}

#[test]
fn empty_named_list_falls_back_to_discovery() {
    let (_, seen) = drive(Some(vec![]), true, vec![]);
    assert_eq!(seen, vec!["list_databases"]);
}

#[test]
fn discovered_list_is_kept_in_order() {
    let (p, seen) = drive(None, false, vec![Event::Databases(Some(names(&["a", "b"])))]);
    assert_eq!(seen, vec!["list_databases", "confirm"]);
    assert_eq!(p.databases(), &names(&["a", "b"]));
}

#[test]
fn discovery_failure_stops_the_run() {
    let (p, seen) = drive(None, true, vec![Event::Databases(None)]);
    assert_eq!(seen, vec!["list_databases", "abort DiscoveryFailed"]);
    assert_eq!(p.stage(), Stage::Aborted(Fatal::DiscoveryFailed));
}

#[test]
fn refusal_makes_no_call() {
    let (p, seen) = drive(
        None,
        false,
        vec![
            Event::Databases(Some(names(&["a", "b"]))),
            Event::Answer(false),
            Event::Changes(Some(vec![record("d", &["1-x"], Some(true))])),
            Event::Purged(true),
        ],
    );
    assert_eq!(
        seen,
        vec!["list_databases", "confirm", "abort Declined", "abort Declined", "abort Declined"]
    );
    assert!(!seen.iter().any(|s| is_mutation(s)));
    assert!(p.reports().is_empty());
}

#[test]
fn forced_run_skips_the_question() {
    let (_, seen) = drive(None, true, vec![Event::Databases(Some(names(&["a"])))]);
    assert_eq!(seen, vec!["list_databases", "changes a"]);
}

#[test]
fn failures_do_not_stop_later_databases() {
    let feed_b = vec![record("d1", &["1-x"], Some(true)), record("d2", &["4-y", "5-z"], Some(true))];
    let (p, seen) = drive(
        Some(names(&["a", "b", "c"])),
        true,
        vec![
            Event::Changes(None),
            Event::Changes(Some(feed_b)),
            Event::Purged(false),
            Event::Purged(false),
            Event::Changes(Some(vec![])),
        ],
    );
    assert_eq!(
        seen,
        vec![
            "changes a",
            "changes b",
            "purge b d1 [1-x]",
            "purge b d2 [4-y,5-z]",
            "changes c",
            "finish"
        ]
    );
    let outcomes: Vec<Outcome> = p.reports().iter().map(|r| r.outcome).collect();
    assert_eq!(
        outcomes,
        vec![Outcome::ScanFailed, Outcome::NoDeletedDocuments, Outcome::NoDeletedDocuments]
    );
}

#[test]
fn one_success_among_failures_leads_to_maintenance() {
    let feed = vec![
        record("d1", &["1-x"], Some(true)),
        record("d2", &["2-y"], Some(true)),
        record("d3", &["3-z"], Some(true)),
    ];
    let (p, seen) = drive(
        Some(names(&["a", "b"])),
        true,
        vec![
            Event::Changes(Some(feed)),
            Event::Purged(false),
            Event::Purged(true),
            Event::Purged(false),
            Event::Compacted(true),
            Event::ViewsCleaned(true),
        ],
    );
    assert_eq!(
        seen,
        vec![
            "changes a",
            "purge a d1 [1-x]",
            "purge a d2 [2-y]",
            "purge a d3 [3-z]",
            "compact a",
            "clean a",
            "changes b"
        ]
    );
    assert_eq!(
        p.reports()[0].outcome,
        Outcome::Purged { purged: 1, failed: 2, compacted: true, cleaned: true }
    );
}

#[test]
fn failed_compaction_still_cleans_views() {
    let feed = vec![record("d1", &["1-x"], Some(true))];
    let (p, seen) = drive(
        Some(names(&["a"])),
        true,
        vec![
            Event::Changes(Some(feed)),
            Event::Purged(true),
            Event::Compacted(false),
            Event::ViewsCleaned(false),
        ],
    );
    assert_eq!(seen, vec!["changes a", "purge a d1 [1-x]", "compact a", "clean a", "finish"]);
    assert_eq!(
        p.reports()[0].outcome,
        Outcome::Purged { purged: 1, failed: 0, compacted: false, cleaned: false }
    );
}

#[test]
fn unexpected_answer_stops_the_run() {
    let (p, seen) = drive(Some(names(&["a"])), false, vec![Event::Purged(true)]);
    assert_eq!(seen, vec!["confirm", "abort UnexpectedEvent"]);
    assert_eq!(p.stage(), Stage::Aborted(Fatal::UnexpectedEvent));
}

#[test]
fn finished_run_stays_finished() {
    let (_, seen) = drive(
        Some(names(&["a"])),
        true,
        vec![Event::Changes(Some(vec![])), Event::Answer(true)],
    );
    assert_eq!(seen, vec!["changes a", "finish", "finish"]);
}
