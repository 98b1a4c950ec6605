use vstd::prelude::*;
use crate::pipeline::{
    ActionView, EventView, PipelineView, Stage, at_database, initial, transition, wf,
};
use crate::remote::RequestView;

verus! {

/// The actions that a run hands out when it gets the events `es` in turn from `s`.
pub open spec fn run(s: PipelineView, es: Seq<EventView>) -> Seq<ActionView>
    decreases es.len(),
{
    if es.len() == 0 {
        Seq::empty()
    } else {
        let (t, a) = transition(s, es[0]);
        seq![a] + run(t, es.drop_first())
    }
}

/// A remote call that reads or changes a database's documents.
pub open spec fn touches_databases(a: ActionView) -> bool {
    a matches ActionView::Call(r) && !(r is ListDatabases)
}

pub open spec fn is_discovery(a: ActionView) -> bool {
    a == ActionView::Call(RequestView::ListDatabases)
}

/// The first answer to a confirmation among `es` is a refusal.
pub open spec fn first_answer_is_no(es: Seq<EventView>) -> bool
    decreases es.len(),
{
    es.len() > 0 && match es[0] {
        EventView::Answer(yes) => !yes,
        _ => first_answer_is_no(es.drop_first()),
    }
}

/// The event that answers an action of a per-database stage.
pub open spec fn answers(st: Stage, e: EventView) -> bool {
    ||| st is Scanning && e is Changes
    ||| st is Purging && e is Purged
    ||| st is Compacting && e is Compacted
    ||| st is CleaningViews && e is ViewsCleaned
}

/// Once stopped, a run stays stopped and only repeats why.
pub proof fn lemma_aborted_run_is_idle(s: PipelineView, es: Seq<EventView>)
    requires
        s.stage is Aborted,
    ensures
        forall|k: int| 0 <= k < run(s, es).len() ==> #[trigger] run(s, es)[k] is Abort,
    decreases es.len(),
{
    if es.len() > 0 {
        lemma_aborted_run_is_idle(s, es.drop_first());
    }
}

proof fn lemma_unconfirmed_run_is_idle(s: PipelineView, es: Seq<EventView>)
    requires
        s.stage is Resolving || s.stage is Confirming,
        !s.force_yes,
        first_answer_is_no(es),
    ensures
        forall|k: int| 0 <= k < run(s, es).len() ==> !touches_databases(#[trigger] run(s, es)[k]),
    decreases es.len(),
{
    let (t, a) = transition(s, es[0]);
    let rest = es.drop_first();
    assert(run(s, es) == seq![a] + run(t, rest));
    if t.stage is Aborted {
        lemma_aborted_run_is_idle(t, rest);
    } else {
        lemma_unconfirmed_run_is_idle(t, rest);
    }
    assert forall|k: int| 0 <= k < run(s, es).len() implies !touches_databases(
        #[trigger] run(s, es)[k],
    ) by {
        if k > 0 {
            assert(run(s, es)[k] == run(t, rest)[k - 1]);
        }
    }
}

/// Without the forced flag, a run whose operator refuses the confirmation makes no call
/// on any database: no change feed is read, nothing is purged, compacted or cleaned.
pub proof fn lemma_refusal_touches_nothing(explicit: Option<Seq<Seq<char>>>, es: Seq<EventView>)
    requires
        first_answer_is_no(es),
    ensures
        !touches_databases(initial(explicit, false).1),
        forall|k: int|
            0 <= k < run(initial(explicit, false).0, es).len() ==> !touches_databases(
                #[trigger] run(initial(explicit, false).0, es)[k],
            ),
{
    lemma_unconfirmed_run_is_idle(initial(explicit, false).0, es);
}

/// Compaction and view cleanup are asked for only in the database being worked on, and
/// only once a purge in it has succeeded: compaction right after its last purge answer,
/// view cleanup right after the compaction answer.
pub proof fn lemma_maintenance_follows_a_purge(s: PipelineView, e: EventView)
    requires
        wf(s),
    ensures
        ({
            let (t, a) = transition(s, e);
            a matches ActionView::Call(RequestView::Compact { database }) ==> {
                &&& s.stage is Purging
                &&& s.next_doc + 1 == s.pending.len()
                &&& t.purged > 0
                &&& t.current == s.current
                &&& database == s.databases[s.current as int]
            }
        }),
        ({
            let (t, a) = transition(s, e);
            a matches ActionView::Call(RequestView::CleanViews { database }) ==> {
                &&& s.stage is Compacting
                &&& t.purged > 0
                &&& t.current == s.current
                &&& database == s.databases[s.current as int]
            }
        }),
{
}

/// Once a purge has succeeded in a database, its last purge answer leads to compaction,
/// the compaction answer, whatever it is, to view cleanup, and the view cleanup answer
/// to the next database.
pub proof fn lemma_purge_success_leads_to_maintenance(s: PipelineView, ok: bool)
    requires
        wf(s),
    ensures
        s.stage is Purging && s.next_doc + 1 == s.pending.len() && (s.purged > 0 || ok) ==> {
            let (t, a) = transition(s, EventView::Purged(ok));
            &&& t.stage is Compacting
            &&& a == ActionView::Call(
                RequestView::Compact { database: s.databases[s.current as int] },
            )
        },
        s.stage is Compacting ==> {
            let (t, a) = transition(s, EventView::Compacted(ok));
            &&& t.stage is CleaningViews
            &&& t.current == s.current
            &&& a == ActionView::Call(
                RequestView::CleanViews { database: s.databases[s.current as int] },
            )
        },
        s.stage is CleaningViews ==> {
            let (t, a) = transition(s, EventView::ViewsCleaned(ok));
            &&& t.current == s.current + 1 || t.stage is Finished
            &&& !(t.stage is Compacting || t.stage is CleaningViews)
        },
{
}

/// When a purge of a database has succeeded, its last purge answer, a compaction answer
/// and a view cleanup answer, whatever they say, give exactly one compaction and then
/// exactly one view cleanup of that database, and then the scan of the next database or
/// the end of the run.
pub proof fn lemma_maintenance_runs_once(s: PipelineView, ok: bool, compacted: bool, cleaned: bool)
    requires
        wf(s),
        s.stage is Purging,
        s.next_doc + 1 == s.pending.len(),
        s.purged > 0 || ok,
    ensures
        ({
            let db = s.databases[s.current as int];
            let acts = run(
                s,
                seq![
                    EventView::Purged(ok),
                    EventView::Compacted(compacted),
                    EventView::ViewsCleaned(cleaned),
                ],
            );
            &&& acts.len() == 3
            &&& acts[0] == ActionView::Call(RequestView::Compact { database: db })
            &&& acts[1] == ActionView::Call(RequestView::CleanViews { database: db })
            &&& s.current + 1 < s.databases.len() ==> acts[2] == ActionView::Call(
                RequestView::ListChanges { database: s.databases[s.current + 1 as int] },
            )
            &&& s.current + 1 == s.databases.len() ==> acts[2] == ActionView::Finish
        }),
{
    let es = seq![
        EventView::Purged(ok),
        EventView::Compacted(compacted),
        EventView::ViewsCleaned(cleaned),
    ];
    let (t1, a1) = transition(s, es[0]);
    let (t2, a2) = transition(t1, es[1]);
    let (t3, a3) = transition(t2, es[2]);
    let es1 = es.drop_first();
    let es2 = es1.drop_first();
    assert(es1 =~= seq![EventView::Compacted(compacted), EventView::ViewsCleaned(cleaned)]);
    assert(es2 =~= seq![EventView::ViewsCleaned(cleaned)]);
    assert(es2.drop_first() =~= Seq::<EventView>::empty());
    assert(es1[0] == es[1] && es2[0] == es[2]);
    assert(run(t3, es2.drop_first()) =~= Seq::<ActionView>::empty());
    assert(run(t2, es2) == seq![a3] + run(t3, es2.drop_first()));
    assert(run(t2, es2) =~= seq![a3]);
    assert(run(t1, es1) =~= seq![a2, a3]);
    assert(run(s, es) =~= seq![a1, a2, a3]);
}

/// An answer to a per-database action, failed or not, never stops the run: the run
/// stays on the same database, or goes on to scan the next one, or finishes after the
/// last.
pub proof fn lemma_failures_stay_in_their_database(s: PipelineView, e: EventView)
    requires
        wf(s),
        at_database(s.stage),
        answers(s.stage, e),
    ensures
        ({
            let (t, a) = transition(s, e);
            &&& !(t.stage is Aborted)
            &&& t.current == s.current || t.current == s.current + 1
            &&& t.current == s.current + 1 && t.current < s.databases.len() ==> {
                &&& t.stage is Scanning
                &&& a == ActionView::Call(
                    RequestView::ListChanges { database: s.databases[t.current as int] },
                )
            }
            &&& t.current == s.databases.len() ==> t.stage is Finished && a is Finish
        }),
{
}

proof fn lemma_run_never_discovers(s: PipelineView, es: Seq<EventView>)
    ensures
        forall|k: int| 0 <= k < run(s, es).len() ==> !is_discovery(#[trigger] run(s, es)[k]),
    decreases es.len(),
{
    if es.len() > 0 {
        let (t, a) = transition(s, es[0]);
        let rest = es.drop_first();
        lemma_run_never_discovers(t, rest);
        assert forall|k: int| 0 <= k < run(s, es).len() implies !is_discovery(
            #[trigger] run(s, es)[k],
        ) by {
            if k > 0 {
                assert(run(s, es)[k] == run(t, rest)[k - 1]);
            }
        }
    }
}

/// A run on named databases works on exactly those, in that order, and never asks the
/// server for its list of databases.
pub proof fn lemma_named_databases_are_not_discovered(
    dbs: Seq<Seq<char>>,
    force_yes: bool,
    es: Seq<EventView>,
)
    requires
        dbs.len() > 0,
    ensures
        initial(Some(dbs), force_yes).0.databases == dbs,
        !is_discovery(initial(Some(dbs), force_yes).1),
        forall|k: int|
            0 <= k < run(initial(Some(dbs), force_yes).0, es).len() ==> !is_discovery(
                #[trigger] run(initial(Some(dbs), force_yes).0, es)[k],
            ),
{
    lemma_run_never_discovers(initial(Some(dbs), force_yes).0, es);
}

/// The server's list of databases is taken as it is, in its order.
pub proof fn lemma_discovered_list_is_kept(s: PipelineView, dbs: Seq<Seq<char>>)
    requires
        s.stage is Resolving,
    ensures
        transition(s, EventView::Databases(Some(dbs))).0.databases == dbs,
{
}

} // verus!
