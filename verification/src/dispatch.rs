//! The dispatcher: a state machine that names one action at a time and is
//! advanced with the event that reports how the action went.

use crate::catalog::{catalog, reports, shows_report, templates_for, Kind, Template};
use crate::clock::{clock_reading, utc_now};
use crate::component::{Component, Request};
use crate::context::{minimal_context, model_context, Context, Datum, Timestamp};
use crate::error::{Error, Failure};
use crate::laws::{lemma_advance_sound, lemma_begin_sound, sound};
use crate::report::{
    collect_messages, outcome_views, report_block, report_block_text, report_text, Outcome,
    RenderOutcome,
};
use vstd::prelude::*;

verus! {

/// What the metadata source found.
#[derive(Debug, PartialEq, Eq)]
pub enum PackageLookup {
    /// The manifest declares a root package of this name.
    Found { name: String },
    /// The manifest was read and declares no root package.
    NoRootPackage,
    /// The manifest could not be found or read.
    Unavailable { detail: String },
}

/// A [`PackageLookup`] as mathematical values.
pub enum Lookup {
    Found { name: Seq<char> },
    NoRootPackage,
    Unavailable { detail: Seq<char> },
}

impl View for PackageLookup {
    type V = Lookup;

    open spec fn view(&self) -> Lookup {
        match self {
            PackageLookup::Found { name } => Lookup::Found { name: name@ },
            PackageLookup::NoRootPackage => Lookup::NoRootPackage,
            PackageLookup::Unavailable { detail } => Lookup::Unavailable { detail: detail@ },
        }
    }
}

/// How an action went.
#[derive(Debug, PartialEq, Eq)]
pub enum Event {
    /// Answers [`Action::ResolvePackage`].
    Package(PackageLookup),
    /// Answers [`Action::ReadClock`].
    Clock(Timestamp),
    /// Answers [`Action::Render`].
    Rendered(RenderOutcome),
}

/// An [`Event`] as mathematical values.
pub enum Signal {
    Package(Lookup),
    Clock(Timestamp),
    Rendered(Outcome),
}

impl View for Event {
    type V = Signal;

    open spec fn view(&self) -> Signal {
        match self {
            Event::Package(lookup) => Signal::Package(lookup@),
            Event::Clock(ts) => Signal::Clock(*ts),
            Event::Rendered(outcome) => Signal::Rendered(outcome@),
        }
    }
}

/// What is to be done next.
#[derive(Debug)]
pub enum Action<'a> {
    /// Ask the metadata source for the root package's name: the manifest at
    /// `manifest_path`, seen from `working_dir`.
    ResolvePackage { manifest_path: &'a str, working_dir: &'a str },
    /// Read the clock.
    ReadClock,
    /// Render `template` with `context`.
    Render { template: Template, context: &'a Context },
    /// Every template is rendered. `report` is to be shown, if there is one.
    Finish { report: Option<&'a str> },
    /// The generation is given up.
    Abort { error: &'a Error },
}

/// An [`Action`] as mathematical values.
pub enum Demand {
    ResolvePackage { manifest_path: Seq<char>, working_dir: Seq<char> },
    ReadClock,
    Render { template: Template, context: Map<Seq<char>, Datum> },
    Finish { report: Option<Seq<char>> },
    Abort { error: Failure },
}

impl<'a> View for Action<'a> {
    type V = Demand;

    open spec fn view(&self) -> Demand {
        match self {
            Action::ResolvePackage { manifest_path, working_dir } => Demand::ResolvePackage {
                manifest_path: manifest_path@,
                working_dir: working_dir@,
            },
            Action::ReadClock => Demand::ReadClock,
            Action::Render { template, context } => Demand::Render {
                template: *template,
                context: context@,
            },
            Action::Finish { report: Some(text) } => Demand::Finish { report: Some(text@) },
            Action::Finish { report: None } => Demand::Finish { report: None },
            Action::Abort { error } => Demand::Abort { error: error@ },
        }
    }
}

/// Where a generation stands.
pub enum Phase {
    /// The root package's name is asked for.
    AwaitPackage,
    /// The package is known; the clock is asked for.
    AwaitClock { pkg_name: Seq<char> },
    /// The context is assembled. `done` holds the outcomes so far; the
    /// template at that position is the next to render.
    Rendering { context: Map<Seq<char>, Datum>, done: Seq<Outcome> },
    /// Every template was rendered.
    Finished { outcomes: Seq<Outcome>, report: Option<Seq<char>> },
    /// The generation was given up.
    Aborted { error: Failure, outcomes: Seq<Outcome> },
}

/// A generation as mathematical values: the request, the directory from
/// which the manifest is looked for, and the phase.
pub struct Progress {
    pub request: Request,
    pub working_dir: Seq<char>,
    pub phase: Phase,
}

/// The detail of the failure where the manifest declares no root package.
pub open spec fn no_root_package() -> Seq<char> {
    "cannot find root package in Cargo.toml"@
}

/// The start of a generation. Only a model needs the package and the clock;
/// every other kind has its context at once and begins to render.
pub open spec fn begin(request: Request, working_dir: Seq<char>) -> Progress {
    Progress {
        request,
        working_dir,
        phase: if request.kind == Kind::Model {
            Phase::AwaitPackage
        } else {
            Phase::Rendering { context: minimal_context(request.name), done: Seq::empty() }
        },
    }
}

/// The report that is shown at the end: for the kinds that show one, the
/// messages of the outcomes between two rules.
pub open spec fn final_report(kind: Kind, outcomes: Seq<Outcome>) -> Option<Seq<char>> {
    if reports(kind) {
        Some(report_block_text(report_text(outcomes)))
    } else {
        None
    }
}

/// The phase after the render at position `done.len()` has ended in
/// `outcome`. A failure ends the generation at once.
pub open spec fn after_render(
    kind: Kind,
    context: Map<Seq<char>, Datum>,
    done: Seq<Outcome>,
    outcome: Outcome,
) -> Phase {
    let outcomes = done.push(outcome);
    match outcome {
        Outcome::Failed { detail } => Phase::Aborted {
            error: Failure::RenderFailure { template: catalog(kind)[done.len() as int], detail },
            outcomes,
        },
        _ => if outcomes.len() < catalog(kind).len() {
            Phase::Rendering { context, done: outcomes }
        } else {
            Phase::Finished { outcomes, report: final_report(kind, outcomes) }
        },
    }
}

/// The generation after `signal`. A signal that does not answer the action
/// that is pending changes nothing.
pub open spec fn advance(p: Progress, signal: Signal) -> Progress {
    let phase = match (p.phase, signal) {
        (Phase::AwaitPackage, Signal::Package(Lookup::Found { name })) => Phase::AwaitClock {
            pkg_name: name,
        },
        (Phase::AwaitPackage, Signal::Package(Lookup::NoRootPackage)) => Phase::Aborted {
            error: Failure::MetadataUnavailable { detail: no_root_package() },
            outcomes: Seq::empty(),
        },
        (Phase::AwaitPackage, Signal::Package(Lookup::Unavailable { detail })) => Phase::Aborted {
            error: Failure::MetadataUnavailable { detail },
            outcomes: Seq::empty(),
        },
        (Phase::AwaitClock { pkg_name }, Signal::Clock(ts)) => Phase::Rendering {
            context: model_context(p.request.name, ts, pkg_name),
            done: Seq::empty(),
        },
        (Phase::Rendering { context, done }, Signal::Rendered(outcome)) => after_render(
            p.request.kind,
            context,
            done,
            outcome,
        ),
        _ => p.phase,
    };
    Progress { request: p.request, working_dir: p.working_dir, phase }
}

/// The action that is pending.
pub open spec fn demand(p: Progress) -> Demand {
    match p.phase {
        Phase::AwaitPackage => Demand::ResolvePackage {
            manifest_path: "./Cargo.toml"@,
            working_dir: p.working_dir,
        },
        Phase::AwaitClock { .. } => Demand::ReadClock,
        Phase::Rendering { context, done } => Demand::Render {
            template: catalog(p.request.kind)[done.len() as int],
            context,
        },
        Phase::Finished { report, .. } => Demand::Finish { report },
        Phase::Aborted { error, .. } => Demand::Abort { error },
    }
}

/// The outcomes of the renders so far, the failed one included.
pub open spec fn outcomes_of(p: Progress) -> Seq<Outcome> {
    match p.phase {
        Phase::Rendering { done, .. } => done,
        Phase::Finished { outcomes, .. } => outcomes,
        Phase::Aborted { outcomes, .. } => outcomes,
        _ => Seq::empty(),
    }
}

enum Stage {
    AwaitPackage,
    AwaitClock { pkg_name: String },
    Rendering { context: Context, done: Vec<RenderOutcome> },
    Finished { outcomes: Vec<RenderOutcome>, report: Option<String> },
    Aborted { error: Error, outcomes: Vec<RenderOutcome> },
}

impl Stage {
    spec fn phase(self) -> Phase {
        match self {
            Stage::AwaitPackage => Phase::AwaitPackage,
            Stage::AwaitClock { pkg_name } => Phase::AwaitClock { pkg_name: pkg_name@ },
            Stage::Rendering { context, done } => Phase::Rendering {
                context: context@,
                done: outcome_views(done@),
            },
            Stage::Finished { outcomes, report } => Phase::Finished {
                outcomes: outcome_views(outcomes@),
                report: match report {
                    Some(text) => Some(text@),
                    None => None,
                },
            },
            Stage::Aborted { error, outcomes } => Phase::Aborted {
                error: error@,
                outcomes: outcome_views(outcomes@),
            },
        }
    }
}

/// One generation, from the request to its end.
pub struct Generation {
    request: Component,
    working_dir: String,
    stage: Stage,
}

impl View for Generation {
    type V = Progress;

    closed spec fn view(&self) -> Progress {
        Progress {
            request: self.request@,
            working_dir: self.working_dir@,
            phase: self.stage.phase(),
        }
    }
}

/// Begins the generation of `component`. The manifest is looked for from
/// `manifest_dir`, or from the current directory where none is given.
pub fn generate(component: Component, manifest_dir: Option<String>) -> (generation: Generation)
    ensures
        generation@ == begin(
            component@,
            match manifest_dir {
                Some(dir) => dir@,
                None => "."@,
            },
        ),
{
    let working_dir = match manifest_dir {
        Some(dir) => dir,
        None => ".".to_owned(),
    };
    proof {
        lemma_begin_sound(component@, working_dir@);
    }
    let stage = match component.kind() {
        Kind::Model => Stage::AwaitPackage,
        _ => {
            let done: Vec<RenderOutcome> = Vec::new();
            assert(outcome_views(done@) =~= Seq::<Outcome>::empty());
            Stage::Rendering { context: Context::minimal(component.name()), done }
        },
    };
    Generation { request: component, working_dir, stage }
}

impl Generation {
    #[verifier::type_invariant]
    spec fn well_formed(self) -> bool {
        sound(self@)
    }

    /// The request that is being served.
    pub fn request(&self) -> (request: &Component)
        ensures
            request@ == self@.request,
    {
        &self.request
    }

    /// The action to perform next. Every generation is sound.
    pub fn pending(&self) -> (action: Action<'_>)
        ensures
            action@ == demand(self@),
            sound(self@),
    {
        proof {
            use_type_invariant(self);
        }
        match &self.stage {
            Stage::AwaitPackage => Action::ResolvePackage {
                manifest_path: "./Cargo.toml",
                working_dir: self.working_dir.as_str(),
            },
            Stage::AwaitClock { .. } => Action::ReadClock,
            Stage::Rendering { context, done } => {
                let templates = templates_for(self.request.kind());
                Action::Render { template: templates[done.len()], context }
            },
            Stage::Finished { report, .. } => match report {
                Some(text) => Action::Finish { report: Some(text.as_str()) },
                None => Action::Finish { report: None },
            },
            Stage::Aborted { error, .. } => Action::Abort { error },
        }
    }

    /// The outcomes of the renders so far, in the order of the renders, the
    /// failed one included.
    pub fn outcomes(&self) -> (outcomes: &[RenderOutcome])
        ensures
            outcome_views(outcomes@) == outcomes_of(self@),
    {
        match &self.stage {
            Stage::Rendering { done, .. } => done.as_slice(),
            Stage::Finished { outcomes, .. } => outcomes.as_slice(),
            Stage::Aborted { outcomes, .. } => outcomes.as_slice(),
            _ => {
                let none: &[RenderOutcome] = &[];
                assert(outcome_views(none@) =~= Seq::<Outcome>::empty());
                none
            },
        }
    }

    /// The generation after `event`. An event that does not answer the
    /// pending action changes nothing.
    pub fn step(self, event: Event) -> (after: Generation)
        ensures
            after@ == advance(self@, event@),
    {
        proof {
            use_type_invariant(&self);
            lemma_advance_sound(self@, event@);
        }
        let Generation { request, working_dir, stage } = self;
        let stage = match (stage, event) {
            (Stage::AwaitPackage, Event::Package(PackageLookup::Found { name })) => {
                Stage::AwaitClock { pkg_name: name }
            },
            (Stage::AwaitPackage, Event::Package(PackageLookup::NoRootPackage)) => {
                let outcomes: Vec<RenderOutcome> = Vec::new();
                assert(outcome_views(outcomes@) =~= Seq::<Outcome>::empty());
                Stage::Aborted {
                    error: Error::MetadataUnavailable {
                        detail: "cannot find root package in Cargo.toml".to_owned(),
                    },
                    outcomes,
                }
            },
            (Stage::AwaitPackage, Event::Package(PackageLookup::Unavailable { detail })) => {
                let outcomes: Vec<RenderOutcome> = Vec::new();
                assert(outcome_views(outcomes@) =~= Seq::<Outcome>::empty());
                Stage::Aborted { error: Error::MetadataUnavailable { detail }, outcomes }
            },
            (Stage::AwaitClock { pkg_name }, Event::Clock(ts)) => {
                let done: Vec<RenderOutcome> = Vec::new();
                assert(outcome_views(done@) =~= Seq::<Outcome>::empty());
                Stage::Rendering {
                    context: Context::for_model(request.name(), ts, pkg_name.as_str()),
                    done,
                }
            },
            (Stage::Rendering { context, done }, Event::Rendered(outcome)) => rendered(
                request.kind(),
                context,
                done,
                outcome,
            ),
            (stage, _) => stage,
        };
        Generation { request, working_dir, stage }
    }

    /// Reads the clock and hands the reading in as [`Event::Clock`].
    pub fn read_clock(self) -> (after: Generation)
        ensures
            exists|now: Timestamp|
                clock_reading(now) && after@ == #[trigger] advance(self@, Signal::Clock(now)),
    {
        let now = utc_now();
        self.step(Event::Clock(now))
    }
}

fn rendered(kind: Kind, context: Context, done: Vec<RenderOutcome>, outcome: RenderOutcome) -> (stage:
    Stage)
    requires
        done@.len() < catalog(kind).len(),
    ensures
        stage.phase() == after_render(kind, context@, outcome_views(done@), outcome@),
{
    let templates = templates_for(kind);
    let template = templates[done.len()];
    let mut outcomes = done;
    let ghost before = outcome_views(done@);
    match outcome {
        RenderOutcome::Failed { detail } => {
            let error = Error::RenderFailure { template, detail: detail.clone() };
            outcomes.push(RenderOutcome::Failed { detail });
            assert(outcome_views(outcomes@) =~= before.push(outcome@));
            Stage::Aborted { error, outcomes }
        },
        other => {
            outcomes.push(other);
            assert(outcome_views(outcomes@) =~= before.push(outcome@));
            if outcomes.len() < templates.len() {
                Stage::Rendering { context, done: outcomes }
            } else {
                let report = if shows_report(kind) {
                    let messages = collect_messages(&outcomes);
                    Some(report_block(messages.as_str()))
                } else {
                    None
                };
                Stage::Finished { outcomes, report }
            }
        },
    }
}

} // verus!
