use vstd::prelude::*;

verus! {

/// One entry of a database's change feed.
pub struct ChangeRecord {
    pub id: String,
    /// The revisions named by the change event, in feed order.
    pub revisions: Vec<String>,
    /// The deleted marker; present on tombstones.
    pub deleted: Option<bool>,
}

pub ghost struct ChangeRecordView {
    pub id: Seq<char>,
    pub revisions: Seq<Seq<char>>,
    pub deleted: Option<bool>,
}

pub open spec fn strings_view(v: Seq<String>) -> Seq<Seq<char>> {
    v.map_values(|s: String| s@)
}

impl View for ChangeRecord {
    type V = ChangeRecordView;

    open spec fn view(&self) -> ChangeRecordView {
        ChangeRecordView { id: self.id@, revisions: strings_view(self.revisions@), deleted: self.deleted }
    }
}

/// The revisions of one document that a single purge call removes.
pub struct PurgeRequest {
    pub document: String,
    pub revisions: Vec<String>,
}

pub ghost struct PurgeRequestView {
    pub document: Seq<char>,
    pub revisions: Seq<Seq<char>>,
}

impl View for PurgeRequest {
    type V = PurgeRequestView;

    open spec fn view(&self) -> PurgeRequestView {
        PurgeRequestView { document: self.document@, revisions: strings_view(self.revisions@) }
    }
}

pub open spec fn records_view(v: Seq<ChangeRecord>) -> Seq<ChangeRecordView> {
    v.map_values(|r: ChangeRecord| r@)
}

pub open spec fn requests_view(v: Seq<PurgeRequest>) -> Seq<PurgeRequestView> {
    v.map_values(|p: PurgeRequest| p@)
}

/// A record is purged when it carries the deleted marker and names at least one revision.
pub open spec fn is_eligible(r: ChangeRecordView) -> bool {
    r.deleted is Some && r.revisions.len() > 0
}

/// The purge of exactly the revisions that a record names.
pub open spec fn request_of(r: ChangeRecordView) -> PurgeRequestView {
    PurgeRequestView { document: r.id, revisions: r.revisions }
}

/// The purge requests of a change feed: one per eligible record, in feed order.
pub open spec fn deletions(rs: Seq<ChangeRecordView>) -> Seq<PurgeRequestView> {
    rs.filter(|r: ChangeRecordView| is_eligible(r)).map_values(|r: ChangeRecordView| request_of(r))
}

pub(crate) fn copy_strings(v: &Vec<String>) -> (r: Vec<String>)
    ensures
        r@ == v@,
{
    let mut r: Vec<String> = Vec::new();
    let mut i: usize = 0;
    while i < v.len()
        invariant
            i <= v@.len(),
            r@ == v@.subrange(0, i as int),
        decreases v@.len() - i,
    {
        r.push(v[i].clone());
        i = i + 1;
        assert(r@ =~= v@.subrange(0, i as int));
    }
    assert(r@ =~= v@);
    r
}

pub(crate) fn copy_request(p: &PurgeRequest) -> (r: PurgeRequest)
    ensures
        r@ == p@,
{
    PurgeRequest { document: p.document.clone(), revisions: copy_strings(&p.revisions) }
}

proof fn lemma_deletions_push(rs: Seq<ChangeRecordView>, r: ChangeRecordView)
    ensures
        deletions(rs.push(r)) == if is_eligible(r) {
            deletions(rs).push(request_of(r))
        } else {
            deletions(rs)
        },
{
    let pred = |x: ChangeRecordView| is_eligible(x);
    let f = |x: ChangeRecordView| request_of(x);
    reveal(Seq::filter);
    assert(rs.push(r).drop_last() =~= rs);
    assert(rs.push(r).filter(pred) == if pred(r) {
        rs.filter(pred).push(r)
    } else {
        rs.filter(pred)
    });
    if pred(r) {
        assert(rs.filter(pred).push(r).map_values(f) =~= rs.filter(pred).map_values(f).push(f(r)));
    }
}

/// Keeps, in feed order, one purge request for each record that carries the deleted
/// marker and names at least one revision; the request names exactly those revisions.
pub fn scan_deletions(records: &Vec<ChangeRecord>) -> (r: Vec<PurgeRequest>)
    ensures
        requests_view(r@) == deletions(records_view(records@)),
{
    let mut out: Vec<PurgeRequest> = Vec::new();
    let mut i: usize = 0;
    while i < records.len()
        invariant
            i <= records@.len(),
            requests_view(out@) == deletions(records_view(records@.subrange(0, i as int))),
        decreases records@.len() - i,
    {
        let rec = &records[i];
        proof {
            let prefix = records_view(records@.subrange(0, i as int));
            assert(records_view(records@.subrange(0, i + 1)) =~= prefix.push(rec@));
            lemma_deletions_push(prefix, rec@);
        }
        if rec.deleted.is_some() && rec.revisions.len() > 0 {
            let p = PurgeRequest { document: rec.id.clone(), revisions: copy_strings(&rec.revisions) };
            out.push(p);
            assert(requests_view(out@) =~= deletions(records_view(records@.subrange(0, i as int))).push(p@));
        }
        i = i + 1;
    }
    assert(records@.subrange(0, records@.len() as int) =~= records@);
    out
}

} // verus!
