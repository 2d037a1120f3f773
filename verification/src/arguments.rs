//! The process arguments as an immutable snapshot.

use vstd::prelude::*;

verus! {

/// Position of the input path in the argument list. Position 0 holds the
/// program's own name.
pub const INPUT_INDEX: usize = 1;

/// The argument that names the input path, where the list is long enough to
/// hold one.
pub open spec fn input_of(args: Seq<Seq<char>>) -> Option<Seq<char>> {
    if args.len() > INPUT_INDEX {
        Some(args[INPUT_INDEX as int])
    } else {
        None
    }
}

/// The arguments a process was launched with, captured once and never
/// changed afterwards. Its view is the list of arguments, each as its text.
pub struct Arguments {
    items: Vec<String>,
}

impl View for Arguments {
    type V = Seq<Seq<char>>;

    closed spec fn view(&self) -> Seq<Seq<char>> {
        self.items.deep_view()
    }
}

impl Arguments {
    /// Captures `items`, program name first, as they were handed over.
    pub fn new(items: Vec<String>) -> (args: Arguments)
        ensures
            args@ == items.deep_view(),
    {
        Arguments { items }
    }

    /// How many arguments there are, the program name included.
    pub fn len(&self) -> (n: usize)
        ensures
            n == self@.len(),
    {
        self.items.len()
    }

    /// The argument at position `index`.
    pub fn arg(&self, index: usize) -> (text: &str)
        requires
            index < self@.len(),
        ensures
            text@ == self@[index as int],
    {
        self.items[index].as_str()
    }

    /// A copy of the argument at [`INPUT_INDEX`]; `None` when the process was
    /// launched without one.
    pub fn input(&self) -> (path: Option<String>)
        ensures
            path.deep_view() == input_of(self@),
    {
        if self.items.len() > INPUT_INDEX {
            Some(self.items[INPUT_INDEX].clone())
        } else {
            None
        }
    }
}

} // verus!
