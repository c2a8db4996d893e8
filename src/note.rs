//! Note diagnostics. No note has wording yet: the one kind is a placeholder,
//! which the renderer refuses rather than print an empty line.
use vstd::prelude::*;

verus! {

/// A note raised by a compiler pass.
#[derive(Clone, Debug)]
pub enum CompilationNote {
    /// A note kind that has no wording yet; it cannot be rendered.
    Todo(String),
}

impl CompilationNote {
    /// Marks a note kind that has no wording yet, with a note of what it is.
    pub fn todo(message: &str) -> (r: Self)
        ensures
            r matches CompilationNote::Todo(m) && m@ == message@,
    {
        CompilationNote::Todo(message.to_string())
    }
}

} // verus!
