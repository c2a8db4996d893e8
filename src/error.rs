//! Error diagnostics: the kinds of error a compiler pass raises and the one
//! line of text that explains each.
use vstd::prelude::*;
use vstd::string::*;
use crate::styling::{paint, styled, Styling};
use crate::text::{decimal, push_decimal};

verus! {

/// An error raised by a compiler pass. Types are held by their displayed
/// names, copied when the error is made, so the error stays valid however the
/// inference state changes afterwards.
#[derive(Clone, Debug)]
pub enum CompilationError {
    MismatchedParameters { got: String, expected: String },
    RefRequiredForAssignment { got: String },
    CannotAssignToRef { got: String, expected: String },
    ValueIsNotAFunction { got: String },
    InvalidNumberOfParameters { function: String, got: usize, expected: usize },
    /// An error kind that has no wording yet; it cannot be rendered.
    Todo(String),
}

/// `s` unless exactly the singular is called for: nothing below 2.
pub open spec fn plural_suffix(n: nat) -> Seq<char> {
    if n < 2 {
        Seq::<char>::empty()
    } else {
        seq!['s']
    }
}

/// The line that explains an error, newline included.
pub open spec fn error_line(e: CompilationError, st: Styling) -> Seq<char> {
    match e {
        CompilationError::MismatchedParameters { got, expected } => "Mismatched parameters: expected "@
            + styled(expected@, st.type_) + ", got "@ + styled(got@, st.wrong_type) + "\n"@,
        CompilationError::RefRequiredForAssignment { got } => "Expression of type "@ + styled(
            got@,
            st.wrong_type,
        ) + " must be a mutable-reference type to be assigned to\n"@,
        CompilationError::CannotAssignToRef { got, expected } => "Cannot assign expression of type "@
            + styled(got@, st.wrong_type) + " to a reference of type "@ + styled(
            expected@,
            st.type_,
        ) + "\n"@,
        CompilationError::ValueIsNotAFunction { got } => "Value being called is not a function, it is a "@
            + styled(got@, st.wrong_type) + "\n"@,
        CompilationError::InvalidNumberOfParameters { function, got, expected } => "Function "@
            + styled(function@, st.wrong_type) + " declared to take "@ + styled(
            decimal(expected as nat),
            st.type_,
        ) + " parameter"@ + plural_suffix(expected as nat) + ", but "@ + styled(
            decimal(got as nat),
            st.wrong_type,
        ) + " were supplied\n"@,
        CompilationError::Todo(_) => Seq::<char>::empty(),
    }
}

/// Appends `text` under `st` to `out`.
pub(crate) fn push_styled(out: &mut String, text: &str, st: &crate::styling::TextStyle)
    ensures
        final(out)@ == old(out)@ + styled(text@, *st),
{
    let p = paint(text, st);
    out.append(p.as_str());
}

/// Appends the decimal notation of `n` under `st` to `out`.
pub(crate) fn push_styled_number(out: &mut String, n: usize, st: &crate::styling::TextStyle)
    ensures
        final(out)@ == old(out)@ + styled(decimal(n as nat), *st),
{
    let mut digits = String::new();
    push_decimal(&mut digits, n as u64);
    push_styled(out, digits.as_str(), st);
}

impl CompilationError {
    pub open spec fn is_todo(self) -> bool {
        self is Todo
    }

    /// Marks an error kind that has no wording yet, with a note of what it is.
    pub fn todo(message: &str) -> (r: Self)
        ensures
            r matches CompilationError::Todo(m) && m@ == message@,
    {
        CompilationError::Todo(message.to_string())
    }

    pub fn mismatched_parameters(expected: &str, got: &str) -> (r: Self)
        ensures
            r matches CompilationError::MismatchedParameters { got: g, expected: e } && e@
                == expected@ && g@ == got@,
    {
        CompilationError::MismatchedParameters { got: got.to_string(), expected: expected.to_string() }
    }

    pub fn ref_required_for_assignment(got: &str) -> (r: Self)
        ensures
            r matches CompilationError::RefRequiredForAssignment { got: g } && g@ == got@,
    {
        CompilationError::RefRequiredForAssignment { got: got.to_string() }
    }

    pub fn cannot_assign_to_ref(expected: &str, got: &str) -> (r: Self)
        ensures
            r matches CompilationError::CannotAssignToRef { got: g, expected: e } && e@ == expected@
                && g@ == got@,
    {
        CompilationError::CannotAssignToRef { got: got.to_string(), expected: expected.to_string() }
    }

    pub fn value_is_not_a_function(got: &str) -> (r: Self)
        ensures
            r matches CompilationError::ValueIsNotAFunction { got: g } && g@ == got@,
    {
        CompilationError::ValueIsNotAFunction { got: got.to_string() }
    }

    /// The line that explains this error, or `None` for a kind without wording.
    pub fn display(&self, styling: &Styling) -> (r: Option<String>)
        ensures
            r is None <==> self.is_todo(),
            r matches Some(s) ==> s@ == error_line(*self, *styling),
    {
        let mut out = String::new();
        match self {
            CompilationError::MismatchedParameters { got, expected } => {
                out.append("Mismatched parameters: expected ");
                push_styled(&mut out, expected.as_str(), &styling.type_);
                out.append(", got ");
                push_styled(&mut out, got.as_str(), &styling.wrong_type);
                out.append("\n");
            },
            CompilationError::RefRequiredForAssignment { got } => {
                out.append("Expression of type ");
                push_styled(&mut out, got.as_str(), &styling.wrong_type);
                out.append(" must be a mutable-reference type to be assigned to\n");
            },
            CompilationError::CannotAssignToRef { got, expected } => {
                out.append("Cannot assign expression of type ");
                push_styled(&mut out, got.as_str(), &styling.wrong_type);
                out.append(" to a reference of type ");
                push_styled(&mut out, expected.as_str(), &styling.type_);
                out.append("\n");
            },
            CompilationError::ValueIsNotAFunction { got } => {
                out.append("Value being called is not a function, it is a ");
                push_styled(&mut out, got.as_str(), &styling.wrong_type);
                out.append("\n");
            },
            CompilationError::InvalidNumberOfParameters { function, got, expected } => {
                out.append("Function ");
                push_styled(&mut out, function.as_str(), &styling.wrong_type);
                out.append(" declared to take ");
                push_styled_number(&mut out, *expected, &styling.type_);
                out.append(" parameter");
                if *expected >= 2 {
                    out.append("s");
                    proof {
                        reveal_strlit("s");
                    }
                }
                out.append(", but ");
                push_styled_number(&mut out, *got, &styling.wrong_type);
                out.append(" were supplied\n");
            },
            CompilationError::Todo(_) => {
                return None;
            },
        }
        assert(out@ =~= error_line(*self, *styling));
        Some(out)
    }
}

} // verus!
