//! Warning diagnostics. No warning has wording yet: the one kind is a placeholder,
//! which the renderer refuses rather than print an empty line.
use vstd::prelude::*;

verus! {

/// A warning raised by a compiler pass.
#[derive(Clone, Debug)]
pub enum CompilationWarning {
    /// A warning kind that has no wording yet; it cannot be rendered.
    Todo(String),
}

impl CompilationWarning {
    /// Marks a warning kind that has no wording yet, with a note of what it is.
    pub fn todo(message: &str) -> (r: Self)
        ensures
            r matches CompilationWarning::Todo(m) && m@ == message@,
    {
        CompilationWarning::Todo(message.to_string())
    }
}

} // verus!
