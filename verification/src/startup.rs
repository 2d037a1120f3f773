//! The way from a fresh process to the framework's run loop.
//!
//! The host program owns the loop: it calls [`begin`], carries out the step
//! it is given, and after a probe calls [`resume`] with what it found. It
//! enters the run loop on [`Step::Run`] and nowhere else.

use crate::arguments::{input_of, Arguments};
use crate::status::PathStatus;
use vstd::prelude::*;

verus! {

/// What the host program has to do next.
#[derive(Debug, PartialEq, Eq)]
pub enum Step {
    /// Examine this path and come back with its status.
    Probe(String),
    /// Register the commands and enter the run loop.
    Run,
    /// End the process abnormally; the run loop is never entered.
    Abort,
}

/// A [`Step`] with its path as text.
pub enum StepView {
    Probe(Seq<char>),
    Run,
    Abort,
}

impl View for Step {
    type V = StepView;

    open spec fn view(&self) -> StepView {
        match self {
            Step::Probe(path) => StepView::Probe(path@),
            Step::Run => StepView::Run,
            Step::Abort => StepView::Abort,
        }
    }
}

/// The first step of a launch with `args`: an input path is probed before
/// anything else, and without one there is nothing to validate.
pub open spec fn first_step(args: Seq<Seq<char>>) -> StepView {
    match input_of(args) {
        Some(path) => StepView::Probe(path),
        None => StepView::Run,
    }
}

/// The step that follows a probe of the input path.
pub open spec fn step_after_probe(status: PathStatus) -> StepView {
    if status.present() {
        StepView::Run
    } else {
        StepView::Abort
    }
}

/// Whether a launch with `args` gets as far as the run loop, where `status`
/// is what a probe of the input path finds.
pub open spec fn reaches_run_loop(args: Seq<Seq<char>>, status: PathStatus) -> bool {
    match first_step(args) {
        StepView::Probe(_) => step_after_probe(status) is Run,
        StepView::Run => true,
        StepView::Abort => false,
    }
}

/// Decides how a launch with `args` starts.
pub fn begin(args: &Arguments) -> (step: Step)
    ensures
        step@ == first_step(args@),
{
    match args.input() {
        Some(path) => Step::Probe(path),
        None => Step::Run,
    }
}

/// Decides how a launch goes on once the input path has been examined.
pub fn resume(status: PathStatus) -> (step: Step)
    ensures
        step@ == step_after_probe(status),
{
    if status.is_present() {
        Step::Run
    } else {
        Step::Abort
    }
}

} // verus!
