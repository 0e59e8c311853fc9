//! What holds of every generation, however the collaborators answer.

use crate::catalog::{catalog, Kind};
use crate::context::{
    lemma_minimal_context, lemma_model_context, minimal_context, model_context, Datum, Timestamp,
};
use crate::dispatch::{
    advance, begin, demand, final_report, outcomes_of, Demand, Lookup, Phase, Progress, Signal,
};
use crate::error::Failure;
use crate::component::Request;
use crate::report::Outcome;
use vstd::prelude::*;

verus! {

/// None of the outcomes is a failure.
pub open spec fn all_succeeded(outcomes: Seq<Outcome>) -> bool {
    forall|i: int| 0 <= i < outcomes.len() ==> !(#[trigger] outcomes[i]).failed()
}

/// The context that a request of this kind is rendered with, for some
/// reading of the clock and some package.
pub open spec fn context_fits(request: Request, context: Map<Seq<char>, Datum>) -> bool {
    if request.kind == Kind::Model {
        exists|ts: Timestamp, pkg_name: Seq<char>|
            context == #[trigger] model_context(request.name, ts, pkg_name)
    } else {
        context == minimal_context(request.name)
    }
}

/// What holds of a generation at every moment.
///
/// - Only a model waits for the package or the clock.
/// - While rendering, a template is left to render, no render has failed,
///   and the context is the one of the request's kind.
/// - At the end there is one outcome for each template of the kind, none of
///   them a failure, and the report is the one of the kind.
/// - Given up for want of metadata: a model, and nothing was rendered.
///   Given up for a render: the last outcome is that failure, of the
///   template at its position, and no outcome before it is a failure.
pub open spec fn sound(p: Progress) -> bool {
    let kind = p.request.kind;
    match p.phase {
        Phase::AwaitPackage => kind == Kind::Model,
        Phase::AwaitClock { .. } => kind == Kind::Model,
        Phase::Rendering { context, done } => {
            &&& done.len() < catalog(kind).len()
            &&& all_succeeded(done)
            &&& context_fits(p.request, context)
        },
        Phase::Finished { outcomes, report } => {
            &&& outcomes.len() == catalog(kind).len()
            &&& all_succeeded(outcomes)
            &&& report == final_report(kind, outcomes)
        },
        Phase::Aborted { error, outcomes } => match error {
            Failure::MetadataUnavailable { .. } => kind == Kind::Model && outcomes.len() == 0,
            Failure::RenderFailure { template, detail } => {
                &&& 1 <= outcomes.len() <= catalog(kind).len()
                &&& outcomes.last() == Outcome::Failed { detail }
                &&& template == catalog(kind)[outcomes.len() - 1]
                &&& all_succeeded(outcomes.drop_last())
            },
        },
    }
}

/// Whether the generation has ended, well or not.
pub open spec fn over(p: Progress) -> bool {
    p.phase is Finished || p.phase is Aborted
}

/// The generation after a sequence of signals.
pub open spec fn run(p: Progress, signals: Seq<Signal>) -> Progress
    decreases signals.len(),
{
    if signals.len() == 0 {
        p
    } else {
        advance(run(p, signals.drop_last()), signals.last())
    }
}

/// A generation is sound when it begins.
pub proof fn lemma_begin_sound(request: Request, working_dir: Seq<char>)
    ensures
        sound(begin(request, working_dir)),
{
    crate::catalog::lemma_catalog_nonempty(request.kind);
}

/// A sound generation stays sound, whatever the signal.
pub proof fn lemma_advance_sound(p: Progress, signal: Signal)
    requires
        sound(p),
    ensures
        sound(advance(p, signal)),
{
    let kind = p.request.kind;
    crate::catalog::lemma_catalog_nonempty(kind);
    match (p.phase, signal) {
        (Phase::AwaitClock { pkg_name }, Signal::Clock(ts)) => {
            assert(context_fits(p.request, model_context(p.request.name, ts, pkg_name)));
        },
        (Phase::Rendering { context, done }, Signal::Rendered(outcome)) => {
            let outcomes = done.push(outcome);
            assert(outcomes.drop_last() =~= done);
            assert(outcomes.last() == outcome);
            if !outcome.failed() {
                assert forall|i: int| 0 <= i < outcomes.len() implies !(
                #[trigger] outcomes[i]).failed() by {
                    if i < done.len() {
                        assert(outcomes[i] == done[i]);
                    }
                }
            }
        },
        _ => {},
    }
}

/// A generation is sound after every sequence of signals.
pub proof fn lemma_run_sound(request: Request, working_dir: Seq<char>, signals: Seq<Signal>)
    ensures
        sound(run(begin(request, working_dir), signals)),
    decreases signals.len(),
{
    if signals.len() == 0 {
        lemma_begin_sound(request, working_dir);
    } else {
        lemma_run_sound(request, working_dir, signals.drop_last());
        lemma_advance_sound(run(begin(request, working_dir), signals.drop_last()), signals.last());
    }
}

/// Running a sequence of signals is running its first `k`, then the rest.
pub proof fn lemma_run_split(p: Progress, signals: Seq<Signal>, k: int)
    requires
        0 <= k <= signals.len(),
    ensures
        run(p, signals) == run(run(p, signals.take(k)), signals.skip(k)),
    decreases signals.len() - k,
{
    if k == signals.len() {
        assert(signals.take(k) =~= signals);
        assert(signals.skip(k) =~= Seq::<Signal>::empty());
    } else {
        let shorter = signals.drop_last();
        lemma_run_split(p, shorter, k);
        assert(shorter.take(k) =~= signals.take(k));
        assert(signals.skip(k).drop_last() =~= shorter.skip(k));
        assert(signals.skip(k).last() == signals.last());
    }
}

/// One more signal is one more step.
pub proof fn lemma_run_next(p: Progress, signals: Seq<Signal>, k: int)
    requires
        0 <= k < signals.len(),
    ensures
        run(p, signals.take(k + 1)) == advance(run(p, signals.take(k)), signals[k]),
{
    assert(signals.take(k + 1).drop_last() =~= signals.take(k));
    assert(signals.take(k + 1).last() == signals[k]);
}

/// How far a generation has come: asking for the package, asking for the
/// clock, rendering, over.
pub open spec fn rank(p: Progress) -> nat {
    match p.phase {
        Phase::AwaitPackage => 0,
        Phase::AwaitClock { .. } => 1,
        Phase::Rendering { .. } => 2,
        Phase::Finished { .. } => 3,
        Phase::Aborted { .. } => 3,
    }
}

/// A generation never goes back, and the answer to a question moves it on. So
/// the package is asked for at most once in a generation, and the clock is
/// read at most once.
pub proof fn lemma_asked_once(p: Progress, lookup: Lookup, ts: Timestamp, signals: Seq<Signal>)
    ensures
        rank(p) <= rank(run(p, signals)),
        p.phase is AwaitPackage ==> rank(advance(p, Signal::Package(lookup))) > 0,
        p.phase is AwaitClock ==> rank(advance(p, Signal::Clock(ts))) == 2,
    decreases signals.len(),
{
    if signals.len() > 0 {
        lemma_asked_once(p, lookup, ts, signals.drop_last());
    }
}

/// Once a generation has ended, no signal changes it: nothing is retried,
/// and nothing more is rendered.
pub proof fn lemma_over_stays(p: Progress, signals: Seq<Signal>)
    requires
        over(p),
    ensures
        run(p, signals) == p,
    decreases signals.len(),
{
    if signals.len() > 0 {
        lemma_over_stays(p, signals.drop_last());
    }
}

/// From the first render on, the context never changes: whatever follows,
/// the generation is either still rendering with the same context, or over.
pub proof fn lemma_context_kept(p: Progress, signals: Seq<Signal>)
    requires
        p.phase is Rendering,
    ensures
        over(run(p, signals)) || (run(p, signals).phase matches Phase::Rendering { context, .. }
            && context == p.phase->Rendering_context),
    decreases signals.len(),
{
    if signals.len() > 0 {
        let earlier = run(p, signals.drop_last());
        lemma_context_kept(p, signals.drop_last());
        if over(earlier) {
            assert(advance(earlier, signals.last()) == earlier);
        }
    }
}

/// Every render of one generation gets the same context, and so the same
/// instant under `ts`: of the actions pending after `i` and after `j` of the
/// signals, if both are renders, their contexts are equal.
pub proof fn lemma_one_context(p: Progress, signals: Seq<Signal>, i: int, j: int)
    requires
        0 <= i <= j <= signals.len(),
    ensures
        ({
            let first = demand(run(p, signals.take(i)));
            let second = demand(run(p, signals.take(j)));
            first is Render && second is Render ==> first->context == second->context
        }),
{
    let at_i = run(p, signals.take(i));
    if demand(at_i) is Render {
        let upto_j = signals.take(j);
        lemma_run_split(p, upto_j, i);
        assert(upto_j.take(i) =~= signals.take(i));
        lemma_context_kept(at_i, upto_j.skip(i));
    }
}

/// A render is asked for with the context of the request's kind. For a
/// model it holds `name`, `ts` and `pkg_name`; for every other kind it holds
/// `name` and nothing else. The name is the request's.
pub proof fn lemma_render_context(p: Progress)
    requires
        sound(p),
        demand(p) is Render,
    ensures
        ({
            let context = demand(p)->context;
            &&& context.dom() == if p.request.kind == Kind::Model {
                set!["name"@, "ts"@, "pkg_name"@]
            } else {
                set!["name"@]
            }
            &&& context["name"@] == Datum::Text(p.request.name)
        }),
{
    let context = demand(p)->context;
    if p.request.kind == Kind::Model {
        let (ts, pkg_name) = choose|ts: Timestamp, pkg_name: Seq<char>|
            context == #[trigger] model_context(p.request.name, ts, pkg_name);
        lemma_model_context(p.request.name, ts, pkg_name);
    } else {
        lemma_minimal_context(p.request.name);
    }
}

/// Renders go by the catalog: the template asked for is the one at the
/// position of the next outcome, and it is asked for only after every
/// template before it was rendered without failure.
pub proof fn lemma_render_position(p: Progress)
    requires
        sound(p),
        demand(p) is Render,
    ensures
        outcomes_of(p).len() < catalog(p.request.kind).len(),
        demand(p)->template == catalog(p.request.kind)[outcomes_of(p).len() as int],
        all_succeeded(outcomes_of(p)),
{
}

/// Fail-fast: when the render that is pending after `k` signals fails, the
/// generation is given up for that failure, and stays so. After any further
/// signals the pending action is still to abort, and no outcome was added
/// after the failed one.
pub proof fn lemma_fail_fast(p: Progress, signals: Seq<Signal>, k: int, j: int)
    requires
        0 <= k < j <= signals.len(),
        demand(run(p, signals.take(k))) is Render,
        signals[k] matches Signal::Rendered(outcome) && outcome.failed(),
    ensures
        ({
            let before = run(p, signals.take(k));
            let after = run(p, signals.take(j));
            &&& demand(after) == Demand::Abort {
                error: Failure::RenderFailure {
                    template: demand(before)->template,
                    detail: signals[k]->Rendered_0->detail,
                },
            }
            &&& outcomes_of(after) == outcomes_of(before).push(signals[k]->Rendered_0)
        }),
{
    let before = run(p, signals.take(k));
    let failed = run(p, signals.take(k + 1));
    lemma_run_next(p, signals, k);
    let upto_j = signals.take(j);
    lemma_run_split(p, upto_j, k + 1);
    assert(upto_j.take(k + 1) =~= signals.take(k + 1));
    lemma_over_stays(failed, upto_j.skip(k + 1));
}

/// While no render fails, one outcome is recorded for each template, in the
/// catalog's order: a render that does not fail adds its outcome at the end
/// and nothing else.
pub proof fn lemma_render_recorded(p: Progress, outcome: Outcome)
    requires
        p.phase is Rendering,
    ensures
        outcomes_of(advance(p, Signal::Rendered(outcome))) == outcomes_of(p).push(outcome),
{
}

/// A generation that ends well has one outcome for each template of the
/// kind, none of them a failure, and shows a report for a model only.
pub proof fn lemma_finished(p: Progress)
    requires
        sound(p),
        p.phase is Finished,
    ensures
        outcomes_of(p).len() == catalog(p.request.kind).len(),
        all_succeeded(outcomes_of(p)),
        demand(p) == (Demand::Finish { report: final_report(p.request.kind, outcomes_of(p)) }),
        (demand(p)->report is Some) == (p.request.kind == Kind::Model),
{
}

/// Only a model asks for the package or the clock: every other kind starts
/// with its first render and never asks.
pub proof fn lemma_only_models_ask(request: Request, working_dir: Seq<char>, signals: Seq<Signal>)
    requires
        request.kind != Kind::Model,
    ensures
        demand(begin(request, working_dir)) == (Demand::Render {
            template: catalog(request.kind)[0],
            context: minimal_context(request.name),
        }),
        !(demand(run(begin(request, working_dir), signals)) is ResolvePackage),
        !(demand(run(begin(request, working_dir), signals)) is ReadClock),
{
    lemma_run_sound(request, working_dir, signals);
    lemma_run_request(begin(request, working_dir), signals);
}

/// The request and the directory never change.
pub proof fn lemma_run_request(p: Progress, signals: Seq<Signal>)
    ensures
        run(p, signals).request == p.request,
        run(p, signals).working_dir == p.working_dir,
    decreases signals.len(),
{
    if signals.len() > 0 {
        lemma_run_request(p, signals.drop_last());
    }
}

/// A model whose package cannot be had is given up before anything is
/// rendered: whatever follows, the pending action is to abort for want of
/// metadata, and there is no outcome.
pub proof fn lemma_no_package_no_render(
    request: Request,
    working_dir: Seq<char>,
    lookup: Lookup,
    rest: Seq<Signal>,
)
    requires
        request.kind == Kind::Model,
        !(lookup is Found),
    ensures
        ({
            let end = run(advance(begin(request, working_dir), Signal::Package(lookup)), rest);
            &&& demand(end) is Abort
            &&& demand(end)->error is MetadataUnavailable
            &&& outcomes_of(end).len() == 0
        }),
{
    lemma_over_stays(advance(begin(request, working_dir), Signal::Package(lookup)), rest);
}

/// A model is rendered with the package that was found and the instant that
/// was read, and with the name of the request.
pub proof fn lemma_model_start(
    request: Request,
    working_dir: Seq<char>,
    pkg_name: Seq<char>,
    ts: Timestamp,
)
    requires
        request.kind == Kind::Model,
    ensures
        ({
            let asked = begin(request, working_dir);
            let found = advance(asked, Signal::Package(Lookup::Found { name: pkg_name }));
            let read = advance(found, Signal::Clock(ts));
            &&& demand(asked) == Demand::ResolvePackage {
                manifest_path: "./Cargo.toml"@,
                working_dir,
            }
            &&& demand(found) == Demand::ReadClock
            &&& demand(read) == Demand::Render {
                template: catalog(Kind::Model)[0],
                context: model_context(request.name, ts, pkg_name),
            }
        }),
{
}

} // verus!
