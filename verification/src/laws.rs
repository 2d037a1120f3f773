//! How startup and the input-path command agree, for every argument list and
//! every state of the file system.

use crate::arguments::{input_of, INPUT_INDEX};
use crate::commands::input_path_answer;
use crate::failure::Failure;
use crate::startup::{first_step, reaches_run_loop, step_after_probe, StepView};
use crate::status::PathStatus;
use vstd::prelude::*;

verus! {

/// Where the launch names an input path and that path exists, the path is
/// probed, the launch reaches the run loop, and the input-path command
/// answers with that very path.
pub proof fn existing_input_is_served(args: Seq<Seq<char>>, status: PathStatus)
    requires
        args.len() > INPUT_INDEX,
        status.present(),
    ensures
        first_step(args) == StepView::Probe(args[INPUT_INDEX as int]),
        step_after_probe(status) == StepView::Run,
        reaches_run_loop(args, status),
        input_path_answer(args, status) == Ok::<Option<Seq<char>>, Failure>(Some(args[INPUT_INDEX as int])),
{
}

/// Where the launch names an input path and nothing exists there, the launch
/// is aborted before the run loop, and the input-path command fails.
pub proof fn missing_input_is_fatal(args: Seq<Seq<char>>, status: PathStatus)
    requires
        args.len() > INPUT_INDEX,
        !status.present(),
    ensures
        first_step(args) == StepView::Probe(args[INPUT_INDEX as int]),
        step_after_probe(status) == StepView::Abort,
        !reaches_run_loop(args, status),
        input_path_answer(args, status) == Err::<Option<Seq<char>>, Failure>(
            Failure::PreconditionFailed,
        ),
{
}

/// Where the launch names no input path, nothing is probed: the first step
/// is the run loop, whatever the file system holds, and the input-path
/// command answers with nothing.
pub proof fn absent_input_is_not_validated(args: Seq<Seq<char>>, status: PathStatus)
    requires
        args.len() <= INPUT_INDEX,
    ensures
        input_of(args) is None,
        first_step(args) == StepView::Run,
        reaches_run_loop(args, status),
        input_path_answer(args, status) == Ok::<Option<Seq<char>>, Failure>(None),
{
}

/// A launch reaches the run loop exactly when the input-path command has an
/// answer: the command cannot fail in a process that got that far with the
/// file system unchanged.
pub proof fn run_loop_iff_input_path_answers(args: Seq<Seq<char>>, status: PathStatus)
    ensures
        reaches_run_loop(args, status) <==> input_path_answer(args, status) is Ok,
{
}

} // verus!
