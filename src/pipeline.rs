use vstd::prelude::*;
use crate::changes::{
    ChangeRecord, ChangeRecordView, PurgeRequest, PurgeRequestView, copy_request, deletions,
    records_view, requests_view, scan_deletions, strings_view,
};
use crate::remote::{Request, RequestView};

verus! {

/// Why a run stops before its end.
#[derive(Clone, Copy, Debug, PartialEq, Eq, Structural)]
pub enum Fatal {
    /// No database was named and the server's list could not be read.
    DiscoveryFailed,
    /// The operator did not confirm.
    Declined,
    /// An answer came that does not answer the last action.
    UnexpectedEvent,
}

/// What became of one database.
#[derive(Clone, Copy, Debug, PartialEq, Eq, Structural)]
pub enum Outcome {
    /// Its change feed could not be read.
    ScanFailed,
    /// No purge succeeded, whether or not there were deleted documents to purge.
    NoDeletedDocuments,
    /// At least one purge succeeded; compaction and view cleanup were then attempted.
    Purged { purged: usize, failed: usize, compacted: bool, cleaned: bool },
}

pub struct Report {
    pub database: String,
    pub outcome: Outcome,
}

pub ghost struct ReportView {
    pub database: Seq<char>,
    pub outcome: Outcome,
}

impl View for Report {
    type V = ReportView;

    open spec fn view(&self) -> ReportView {
        ReportView { database: self.database@, outcome: self.outcome }
    }
}

pub open spec fn reports_view(v: Seq<Report>) -> Seq<ReportView> {
    v.map_values(|r: Report| r@)
}

/// The answer to the last action.
pub enum Event {
    /// The server's list of databases, or `None` when it could not be read.
    Databases(Option<Vec<String>>),
    /// The operator's answer to the confirmation.
    Answer(bool),
    /// The change feed of the current database, or `None` when it could not be read.
    Changes(Option<Vec<ChangeRecord>>),
    /// Whether the last purge call succeeded.
    Purged(bool),
    /// Whether the compaction call succeeded.
    Compacted(bool),
    /// Whether the view cleanup call succeeded.
    ViewsCleaned(bool),
}

pub ghost enum EventView {
    Databases(Option<Seq<Seq<char>>>),
    Answer(bool),
    Changes(Option<Seq<ChangeRecordView>>),
    Purged(bool),
    Compacted(bool),
    ViewsCleaned(bool),
}

impl View for Event {
    type V = EventView;

    open spec fn view(&self) -> EventView {
        match self {
            Event::Databases(d) => EventView::Databases(opt_strings_view(*d)),
            Event::Answer(b) => EventView::Answer(*b),
            Event::Changes(c) => EventView::Changes(
                match c {
                    Some(v) => Some(records_view(v@)),
                    None => None,
                },
            ),
            Event::Purged(b) => EventView::Purged(*b),
            Event::Compacted(b) => EventView::Compacted(*b),
            Event::ViewsCleaned(b) => EventView::ViewsCleaned(*b),
        }
    }
}

/// What the caller is to do next, and answer with an [`Event`].
pub enum Action {
    /// Make the remote call.
    Call(Request),
    /// Ask the operator whether to go on with the databases of `Pipeline::databases`.
    Confirm,
    /// The run is complete; the reports are final.
    Finish,
    /// The run stops.
    Abort(Fatal),
}

pub ghost enum ActionView {
    Call(RequestView),
    Confirm,
    Finish,
    Abort(Fatal),
}

impl View for Action {
    type V = ActionView;

    open spec fn view(&self) -> ActionView {
        match self {
            Action::Call(r) => ActionView::Call(r@),
            Action::Confirm => ActionView::Confirm,
            Action::Finish => ActionView::Finish,
            Action::Abort(f) => ActionView::Abort(*f),
        }
    }
}

#[derive(Clone, Copy, Debug, PartialEq, Eq, Structural)]
pub enum Stage {
    Resolving,
    Confirming,
    Scanning,
    Purging,
    Compacting,
    CleaningViews,
    Finished,
    Aborted(Fatal),
}

/// The decisions of one run: which databases, whether to go on, what to purge, and
/// when to compact and clean views. It makes no call itself: each step hands out the
/// next [`Action`] and takes the answer to it.
pub struct Pipeline {
    force_yes: bool,
    stage: Stage,
    databases: Vec<String>,
    current: usize,
    pending: Vec<PurgeRequest>,
    next_doc: usize,
    purged: usize,
    failed: usize,
    compacted: bool,
    reports: Vec<Report>,
}

pub ghost struct PipelineView {
    pub force_yes: bool,
    pub stage: Stage,
    pub databases: Seq<Seq<char>>,
    /// The database being worked on.
    pub current: nat,
    /// The purge requests of the current database.
    pub pending: Seq<PurgeRequestView>,
    /// How many of them have been answered.
    pub next_doc: nat,
    pub purged: nat,
    pub failed: nat,
    pub compacted: bool,
    pub reports: Seq<ReportView>,
}

impl View for Pipeline {
    type V = PipelineView;

    closed spec fn view(&self) -> PipelineView {
        PipelineView {
            force_yes: self.force_yes,
            stage: self.stage,
            databases: strings_view(self.databases@),
            current: self.current as nat,
            pending: requests_view(self.pending@),
            next_doc: self.next_doc as nat,
            purged: self.purged as nat,
            failed: self.failed as nat,
            compacted: self.compacted,
            reports: reports_view(self.reports@),
        }
    }
}

pub open spec fn at_database(st: Stage) -> bool {
    st is Scanning || st is Purging || st is Compacting || st is CleaningViews
}

pub open spec fn wf(s: PipelineView) -> bool {
    &&& s.current <= s.databases.len()
    &&& at_database(s.stage) ==> s.current < s.databases.len()
    &&& s.stage is Purging ==> s.next_doc < s.pending.len() && s.purged + s.failed == s.next_doc
    &&& (s.stage is Compacting || s.stage is CleaningViews) ==> s.purged > 0 && s.purged
        + s.failed == s.pending.len()
    &&& (s.stage is Resolving || s.stage is Confirming || s.stage is Scanning) ==> fresh(s)
}

/// No purge of the current database has begun.
pub open spec fn fresh(s: PipelineView) -> bool {
    &&& s.pending.len() == 0
    &&& s.next_doc == 0
    &&& s.purged == 0
    &&& s.failed == 0
    &&& !s.compacted
}

/// Goes to the database at `i`, or finishes when there is none.
pub open spec fn enter(s: PipelineView, i: nat) -> (PipelineView, ActionView) {
    let t = PipelineView {
        pending: Seq::empty(),
        next_doc: 0,
        purged: 0,
        failed: 0,
        compacted: false,
        ..s
    };
    if i < s.databases.len() {
        (
            PipelineView { stage: Stage::Scanning, current: i, ..t },
            ActionView::Call(RequestView::ListChanges { database: s.databases[i as int] }),
        )
    } else {
        (PipelineView { stage: Stage::Finished, current: s.databases.len(), ..t }, ActionView::Finish)
    }
}

/// Records what became of the current database and goes to the next one.
pub open spec fn close(s: PipelineView, o: Outcome) -> (PipelineView, ActionView) {
    enter(
        PipelineView {
            reports: s.reports.push(ReportView { database: s.databases[s.current as int], outcome: o }),
            ..s
        },
        s.current + 1,
    )
}

/// Once the databases are known: ask, unless the run is forced.
pub open spec fn resolved(s: PipelineView, dbs: Seq<Seq<char>>) -> (PipelineView, ActionView) {
    let t = PipelineView { databases: dbs, current: 0, ..s };
    if s.force_yes {
        enter(t, 0)
    } else {
        (PipelineView { stage: Stage::Confirming, ..t }, ActionView::Confirm)
    }
}

pub open spec fn abort(s: PipelineView, f: Fatal) -> (PipelineView, ActionView) {
    (PipelineView { stage: Stage::Aborted(f), ..s }, ActionView::Abort(f))
}

pub open spec fn purge_call(s: PipelineView, i: nat) -> ActionView {
    ActionView::Call(
        RequestView::Purge { database: s.databases[s.current as int], request: s.pending[i as int] },
    )
}

/// The state of a run before any answer.
pub open spec fn initial(explicit: Option<Seq<Seq<char>>>, force_yes: bool) -> (
    PipelineView,
    ActionView,
) {
    let s = PipelineView {
        force_yes,
        stage: Stage::Resolving,
        databases: Seq::empty(),
        current: 0,
        pending: Seq::empty(),
        next_doc: 0,
        purged: 0,
        failed: 0,
        compacted: false,
        reports: Seq::empty(),
    };
    match explicit {
        Some(dbs) if dbs.len() > 0 => resolved(s, dbs),
        _ => (s, ActionView::Call(RequestView::ListDatabases)),
    }
}

/// The next state and action once event `e` answers the last action.
pub open spec fn transition(s: PipelineView, e: EventView) -> (PipelineView, ActionView) {
    match (s.stage, e) {
        (Stage::Resolving, EventView::Databases(Some(dbs))) => resolved(s, dbs),
        (Stage::Resolving, EventView::Databases(None)) => abort(s, Fatal::DiscoveryFailed),
        (Stage::Confirming, EventView::Answer(yes)) => if yes {
            enter(s, 0)
        } else {
            abort(s, Fatal::Declined)
        },
        (Stage::Scanning, EventView::Changes(None)) => close(s, Outcome::ScanFailed),
        (Stage::Scanning, EventView::Changes(Some(rs))) => {
            let p = deletions(rs);
            if p.len() == 0 {
                close(s, Outcome::NoDeletedDocuments)
            } else {
                let t = PipelineView {
                    stage: Stage::Purging,
                    pending: p,
                    next_doc: 0,
                    purged: 0,
                    failed: 0,
                    ..s
                };
                (t, purge_call(t, 0))
            }
        },
        (Stage::Purging, EventView::Purged(ok)) => {
            let t = PipelineView {
                next_doc: s.next_doc + 1,
                purged: if ok {
                    s.purged + 1
                } else {
                    s.purged
                },
                failed: if ok {
                    s.failed
                } else {
                    s.failed + 1
                },
                ..s
            };
            if t.next_doc < t.pending.len() {
                (t, purge_call(t, t.next_doc))
            } else if t.purged > 0 {
                (
                    PipelineView { stage: Stage::Compacting, ..t },
                    ActionView::Call(
                        RequestView::Compact { database: s.databases[s.current as int] },
                    ),
                )
            } else {
                close(t, Outcome::NoDeletedDocuments)
            }
        },
        (Stage::Compacting, EventView::Compacted(ok)) => (
            PipelineView { stage: Stage::CleaningViews, compacted: ok, ..s },
            ActionView::Call(RequestView::CleanViews { database: s.databases[s.current as int] }),
        ),
        (Stage::CleaningViews, EventView::ViewsCleaned(ok)) => close(
            s,
            Outcome::Purged {
                purged: s.purged as usize,
                failed: s.failed as usize,
                compacted: s.compacted,
                cleaned: ok,
            },
        ),
        (Stage::Finished, _) => (s, ActionView::Finish),
        (Stage::Aborted(f), _) => (s, ActionView::Abort(f)),
        _ => abort(s, Fatal::UnexpectedEvent),
    }
}

pub open spec fn opt_strings_view(o: Option<Vec<String>>) -> Option<Seq<Seq<char>>> {
    match o {
        Some(v) => Some(strings_view(v@)),
        None => None,
    }
}

impl Pipeline {
    #[verifier::type_invariant]
    spec fn inv(self) -> bool {
        wf(self@)
    }

    /// Goes to the database at `i` of `databases`, or finishes when there is none.
    fn enter_at(
        force_yes: bool,
        databases: Vec<String>,
        reports: Vec<Report>,
        i: usize,
        Ghost(s): Ghost<PipelineView>,
    ) -> (r: (Pipeline, Action))
        requires
            i <= databases@.len(),
            s.force_yes == force_yes,
            s.databases == strings_view(databases@),
            s.reports == reports_view(reports@),
        ensures
            (r.0@, r.1@) == enter(s, i as nat),
    {
        let n = databases.len();
        if i < n {
            let database = databases[i].clone();
            let p = Pipeline {
                force_yes,
                stage: Stage::Scanning,
                databases,
                current: i,
                pending: Vec::new(),
                next_doc: 0,
                purged: 0,
                failed: 0,
                compacted: false,
                reports,
            };
            proof {
                assert(p@.pending =~= Seq::<PurgeRequestView>::empty());
                assert(p@ == enter(s, i as nat).0);
            }
            (p, Action::Call(Request::ListChanges { database }))
        } else {
            let p = Pipeline {
                force_yes,
                stage: Stage::Finished,
                databases,
                current: n,
                pending: Vec::new(),
                next_doc: 0,
                purged: 0,
                failed: 0,
                compacted: false,
                reports,
            };
            proof {
                assert(p@.pending =~= Seq::<PurgeRequestView>::empty());
                assert(p@ == enter(s, i as nat).0);
            }
            (p, Action::Finish)
        }
    }

    /// Once the databases are known: asks, unless the run is forced.
    fn resolved_with(
        force_yes: bool,
        databases: Vec<String>,
        reports: Vec<Report>,
        Ghost(s): Ghost<PipelineView>,
    ) -> (r: (Pipeline, Action))
        requires
            s.force_yes == force_yes,
            s.reports == reports_view(reports@),
            fresh(s),
        ensures
            (r.0@, r.1@) == resolved(s, strings_view(databases@)),
    {
        let ghost t = PipelineView { databases: strings_view(databases@), current: 0, ..s };
        if force_yes {
            Self::enter_at(force_yes, databases, reports, 0, Ghost(t))
        } else {
            let p = Pipeline {
                force_yes,
                stage: Stage::Confirming,
                databases,
                current: 0,
                pending: Vec::new(),
                next_doc: 0,
                purged: 0,
                failed: 0,
                compacted: false,
                reports,
            };
            proof {
                assert(p@.pending =~= s.pending);
            }
            (p, Action::Confirm)
        }
    }

    /// A run on `explicit` databases, or on all of the server's when none are named.
    pub fn start(explicit: Option<Vec<String>>, force_yes: bool) -> (r: (Pipeline, Action))
        ensures
            (r.0@, r.1@) == initial(opt_strings_view(explicit), force_yes),
    {
        let ghost s = initial(None, force_yes).0;
        match explicit {
            Some(dbs) if dbs.len() > 0 => {
                let reports: Vec<Report> = Vec::new();
                proof {
                    assert(reports_view(reports@) =~= s.reports);
                }
                Self::resolved_with(force_yes, dbs, reports, Ghost(s))
            },
            _ => {
                let p = Pipeline {
                    force_yes,
                    stage: Stage::Resolving,
                    databases: Vec::new(),
                    current: 0,
                    pending: Vec::new(),
                    next_doc: 0,
                    purged: 0,
                    failed: 0,
                    compacted: false,
                    reports: Vec::new(),
                };
                proof {
                    assert(p@.databases =~= Seq::<Seq<char>>::empty());
                    assert(p@.pending =~= Seq::<PurgeRequestView>::empty());
                    assert(p@.reports =~= Seq::<ReportView>::empty());
                }
                (p, Action::Call(Request::ListDatabases))
            },
        }
    }
    fn halt(self, f: Fatal) -> (r: (Pipeline, Action))
        ensures
            (r.0@, r.1@) == abort(self@, f),
    {
        proof {
            use_type_invariant(&self);
        }
        (Pipeline { stage: Stage::Aborted(f), ..self }, Action::Abort(f))
    }

    /// Records what became of the current database and goes to the next one.
    fn close_with(self, o: Outcome) -> (r: (Pipeline, Action))
        requires
            at_database(self.stage),
        ensures
            (r.0@, r.1@) == close(self@, o),
    {
        proof {
            use_type_invariant(&self);
        }
        let ghost s = self@;
        let n = self.databases.len();
        assert(self.current < n);
        let database = self.databases[self.current].clone();
        let mut reports = self.reports;
        reports.push(Report { database, outcome: o });
        let ghost t = PipelineView { reports: reports_view(reports@), ..s };
        proof {
            assert(reports_view(reports@) =~= s.reports.push(
                ReportView { database: s.databases[s.current as int], outcome: o },
            ));
        }
        Self::enter_at(self.force_yes, self.databases, reports, self.current + 1, Ghost(t))
    }

    /// Takes the answer to the last action and gives the next action.
    pub fn step(self, event: Event) -> (r: (Pipeline, Action))
        ensures
            (r.0@, r.1@) == transition(self@, event@),
    {
        proof {
            use_type_invariant(&self);
        }
        let ghost s = self@;
        match self.stage {
            Stage::Resolving => match event {
                Event::Databases(Some(dbs)) => Self::resolved_with(
                    self.force_yes,
                    dbs,
                    self.reports,
                    Ghost(s),
                ),
                Event::Databases(None) => self.halt(Fatal::DiscoveryFailed),
                _ => self.halt(Fatal::UnexpectedEvent),
            },
            Stage::Confirming => match event {
                Event::Answer(true) => Self::enter_at(
                    self.force_yes,
                    self.databases,
                    self.reports,
                    0,
                    Ghost(s),
                ),
                Event::Answer(false) => self.halt(Fatal::Declined),
                _ => self.halt(Fatal::UnexpectedEvent),
            },
            Stage::Scanning => match event {
                Event::Changes(None) => self.close_with(Outcome::ScanFailed),
                Event::Changes(Some(records)) => {
                    let pending = scan_deletions(&records);
                    if pending.len() == 0 {
                        self.close_with(Outcome::NoDeletedDocuments)
                    } else {
                        let database = self.databases[self.current].clone();
                        let request = copy_request(&pending[0]);
                        let p = Pipeline {
                            stage: Stage::Purging,
                            pending,
                            next_doc: 0,
                            purged: 0,
                            failed: 0,
                            ..self
                        };
                        (p, Action::Call(Request::Purge { database, request }))
                    }
                },
                _ => self.halt(Fatal::UnexpectedEvent),
            },
            Stage::Purging => match event {
                Event::Purged(ok) => {
                    let n = self.pending.len();
                    assert(self.next_doc < n);
                    let next_doc = self.next_doc + 1;
                    let purged = if ok {
                        self.purged + 1
                    } else {
                        self.purged
                    };
                    let failed = if ok {
                        self.failed
                    } else {
                        self.failed + 1
                    };
                    let database = self.databases[self.current].clone();
                    if next_doc < self.pending.len() {
                        let request = copy_request(&self.pending[next_doc]);
                        let p = Pipeline { next_doc, purged, failed, ..self };
                        (p, Action::Call(Request::Purge { database, request }))
                    } else if purged > 0 {
                        let p = Pipeline {
                            stage: Stage::Compacting,
                            next_doc,
                            purged,
                            failed,
                            ..self
                        };
                        (p, Action::Call(Request::Compact { database }))
                    } else {
                        self.close_with(Outcome::NoDeletedDocuments)
                    }
                },
                _ => self.halt(Fatal::UnexpectedEvent),
            },
            Stage::Compacting => match event {
                Event::Compacted(ok) => {
                    let database = self.databases[self.current].clone();
                    let p = Pipeline { stage: Stage::CleaningViews, compacted: ok, ..self };
                    (p, Action::Call(Request::CleanViews { database }))
                },
                _ => self.halt(Fatal::UnexpectedEvent),
            },
            Stage::CleaningViews => match event {
                Event::ViewsCleaned(ok) => {
                    let o = Outcome::Purged {
                        purged: self.purged,
                        failed: self.failed,
                        compacted: self.compacted,
                        cleaned: ok,
                    };
                    self.close_with(o)
                },
                _ => self.halt(Fatal::UnexpectedEvent),
            },
            Stage::Finished => (self, Action::Finish),
            Stage::Aborted(f) => (self, Action::Abort(f)),
        }
    }
    /// The databases of the run, once they are known.
    pub fn databases(&self) -> (r: &Vec<String>)
        ensures
            strings_view(r@) == self@.databases,
    {
        &self.databases
    }

    /// What became of each database dealt with so far, in list order.
    pub fn reports(&self) -> (r: &Vec<Report>)
        ensures
            reports_view(r@) == self@.reports,
    {
        &self.reports
    }

    pub fn stage(&self) -> (r: Stage)
        ensures
            r == self@.stage,
    {
        self.stage
    }
}

} // verus!
