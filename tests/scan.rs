use couchdb_purge::changes::{scan_deletions, ChangeRecord};
use couchdb_purge::command::Command;
use couchdb_purge::remote::{Method, Request};
use couchdb_purge::changes::PurgeRequest;

fn record(id: &str, revs: &[&str], deleted: Option<bool>) -> ChangeRecord {
    ChangeRecord { id: id.to_string(), revisions: revs.iter().map(|s| s.to_string()).collect(), deleted }
}

fn pairs(v: &[PurgeRequest]) -> Vec<(String, Vec<String>)> {
    v.iter().map(|p| (p.document.clone(), p.revisions.clone())).collect()
}

#[test]
fn scan_keeps_deleted_records_in_feed_order() {
    let feed = vec![
        record("a", &["1-a"], Some(true)),
        record("b", &["2-b"], None),
        record("c", &["3-c", "4-c"], Some(true)),
        record("d", &["5-d"], None),
    ];
    let out = scan_deletions(&feed);
    assert_eq!(
        pairs(&out),
        vec![
            ("a".to_string(), vec!["1-a".to_string()]),
            ("c".to_string(), vec!["3-c".to_string(), "4-c".to_string()]),
        ]
    );
}

#[test]
fn scan_skips_deleted_record_without_revisions() {
    let feed = vec![record("a", &[], Some(true)), record("b", &["9-b"], Some(true))];
    assert_eq!(pairs(&scan_deletions(&feed)), vec![("b".to_string(), vec!["9-b".to_string()])]);
}

#[test]
fn scan_takes_any_present_deleted_marker() {
    let feed = vec![record("a", &["1-a"], Some(false))];
    assert_eq!(scan_deletions(&feed).len(), 1);
}

#[test]
fn scan_of_empty_feed_is_empty() {
    assert!(scan_deletions(&vec![]).is_empty());
}

fn command(protocol: &str, host: &str, port: u16) -> Command {
    Command {
        debug: false,
        protocol: protocol.to_string(),
        host: host.to_string(),
        port,
        database: None,
        username: "admin".to_string(),
        password: "secret".to_string(),
        force_yes: false,
    }
}

#[test]
fn base_url_joins_protocol_host_and_port() {
    assert_eq!(command("http", "localhost", 5984).base_url(), "http://localhost:5984");
    assert_eq!(command("https", "db.example", 0).base_url(), "https://db.example:0");
    assert_eq!(command("http", "h", 65535).base_url(), "http://h:65535");
    assert_eq!(command("http", "h", 10).base_url(), "http://h:10");
}

#[test]
fn request_urls_and_methods() {
    let base = "http://localhost:5984";
    let db = "sales".to_string();
    assert_eq!(Request::ListDatabases.url(base), "http://localhost:5984/_all_dbs");
    assert_eq!(Request::ListChanges { database: db.clone() }.url(base), "http://localhost:5984/sales/_changes");
    assert_eq!(Request::Compact { database: db.clone() }.url(base), "http://localhost:5984/sales/_compact");
    assert_eq!(
        Request::CleanViews { database: db.clone() }.url(base),
        "http://localhost:5984/sales/_view_cleanup"
    );
    let purge = Request::Purge {
        database: db.clone(),
        request: PurgeRequest { document: "doc1".to_string(), revisions: vec!["2-abc".to_string()] },
    };
    assert_eq!(purge.url(base), "http://localhost:5984/sales/_purge");
    assert_eq!(purge.method(), Method::Write);
    assert_eq!(Request::ListDatabases.method(), Method::Read);
    assert_eq!(Request::Compact { database: db }.method(), Method::Read);
}
