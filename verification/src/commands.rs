//! What the commands offered to the front end answer.
//!
//! Each command is a function of the argument snapshot and of what the host
//! program learned from the operating system on its behalf. None keeps state.

use crate::arguments::{input_of, Arguments};
use crate::failure::Failure;
use crate::status::PathStatus;
use vstd::prelude::*;

verus! {

/// The answer of [`get_input_path`]: nothing where no input path was named,
/// the path where it exists, and a failure where it does not.
pub open spec fn input_path_answer(args: Seq<Seq<char>>, status: PathStatus) -> Result<
    Option<Seq<char>>,
    Failure,
> {
    match input_of(args) {
        None => Ok(None),
        Some(path) => if status.present() {
            Ok(Some(path))
        } else {
            Err(Failure::PreconditionFailed)
        },
    }
}

/// The answer of [`is_dir`].
pub open spec fn is_dir_answer(status: PathStatus) -> Result<bool, Failure> {
    match status {
        PathStatus::Missing => Err(Failure::QueryFailed),
        PathStatus::File => Ok(false),
        PathStatus::Directory => Ok(true),
    }
}

/// The answer of [`get_cwd`].
pub open spec fn cwd_answer(reported: Option<Seq<char>>) -> Result<Seq<char>, Failure> {
    match reported {
        Some(directory) => Ok(directory),
        None => Err(Failure::QueryFailed),
    }
}

/// The working directory as the operating system reported it at the time of
/// the call; `reported` is `None` where it could not say, or where the
/// directory's name is not valid Unicode.
pub fn get_cwd(reported: Option<String>) -> (answer: Result<String, Failure>)
    ensures
        match answer {
            Ok(directory) => cwd_answer(reported.deep_view()) == Ok::<Seq<char>, Failure>(
                directory@,
            ),
            Err(failure) => cwd_answer(reported.deep_view()) == Err::<Seq<char>, Failure>(failure),
        },
{
    match reported {
        Some(directory) => Ok(directory),
        None => Err(Failure::QueryFailed),
    }
}

/// The full argument list, program name first.
pub fn get_argv(args: &Arguments) -> (list: Vec<String>)
    ensures
        list.deep_view() == args@,
{
    let mut list: Vec<String> = Vec::new();
    let mut i: usize = 0;
    while i < args.len()
        invariant
            i <= args@.len(),
            list.len() == i,
            forall|j: int| 0 <= j < i ==> list[j]@ == args@[j],
        decreases args@.len() - i,
    {
        list.push(args.arg(i).to_owned());
        i = i + 1;
    }
    assert(list.deep_view() =~= args@);
    list
}

/// The input path named at launch, validated anew. `status` is what the host
/// program found at that path just now; it is not looked at where the launch
/// named no input path.
pub fn get_input_path(args: &Arguments, status: PathStatus) -> (answer: Result<
    Option<String>,
    Failure,
>)
    ensures
        match answer {
            Ok(path) => input_path_answer(args@, status) == Ok::<Option<Seq<char>>, Failure>(
                path.deep_view(),
            ),
            Err(failure) => input_path_answer(args@, status) == Err::<Option<Seq<char>>, Failure>(
                failure,
            ),
        },
{
    match args.input() {
        None => Ok(None),
        Some(path) => if status.is_present() {
            Ok(Some(path))
        } else {
            Err(Failure::PreconditionFailed)
        },
    }
}

/// Whether the path that was examined is a directory. A path that could not
/// be examined has no answer.
pub fn is_dir(status: PathStatus) -> (answer: Result<bool, Failure>)
    ensures
        answer == is_dir_answer(status),
{
    match status {
        PathStatus::Missing => Err(Failure::QueryFailed),
        PathStatus::File => Ok(false),
        PathStatus::Directory => Ok(true),
    }
}

} // verus!
