//! Compiler diagnostics: what the engine reports through its compiler-error
//! hook, and what a compile operation returns once the engine has answered.
use vstd::prelude::*;
use vstd::string::StringExecFns;
use crate::sys::{SQInteger, SQRESULT, SQ_SUCCEEDED};
use crate::text::{decimal, decimal_text};

verus! {

/// Represents a compiler error thrown by a VM.
#[derive(Debug, Clone, PartialEq, Eq)]
pub struct CompilerError {
    /// A description of the error.
    pub desc: String,
    /// The source name of the script that caused the error.
    pub source: String,
    /// The line the error is on.
    pub line: SQInteger,
    /// The column the error is on.
    pub column: SQInteger,
}

impl CompilerError {
    /// The error as one line of text for the user.
    pub open spec fn message(self) -> Seq<char> {
        "Error: "@ + self.desc@ + " in '"@ + self.source@ + "' on line '"@ + decimal(
            self.line as int,
        ) + "', column "@ + decimal(self.column as int)
    }

    /// The error as one line of text for the user: description, source
    /// label, line and column.
    pub fn to_string(&self) -> (text: String)
        ensures
            text@ == self.message(),
    {
        let mut text = String::from_str("Error: ");
        text.append(self.desc.as_str());
        text.append(" in '");
        text.append(self.source.as_str());
        text.append("' on line '");
        text.append(decimal_text(self.line).as_str());
        text.append("', column ");
        text.append(decimal_text(self.column).as_str());
        text
    }

    /// A description of the error.
    pub fn description(&self) -> (desc: &str)
        ensures
            desc@ == self.desc@,
    {
        self.desc.as_str()
    }
}

/// How a compile operation ended.
#[derive(Debug, Clone, PartialEq, Eq)]
pub enum CompileOutcome {
    /// The engine compiled the source; the new closure is on top of the stack.
    Compiled,
    /// The engine rejected the source and said why.
    Rejected(CompilerError),
    /// The engine reported failure although its hook never ran: the bridge
    /// between handle and engine is broken, and the handle's session is over.
    Unreported,
}

/// The outcome of a compile, given the engine's result code and what the
/// diagnostic slot held when the engine returned.
pub open spec fn compile_outcome(result: SQRESULT, slot: Option<CompilerError>) -> CompileOutcome {
    if result >= 0 {
        CompileOutcome::Compiled
    } else {
        match slot {
            Some(error) => CompileOutcome::Rejected(error),
            None => CompileOutcome::Unreported,
        }
    }
}

/// What the diagnostic slot holds after a compile has been answered: a
/// success leaves it alone, a failure empties it.
pub open spec fn slot_after_compile(result: SQRESULT, slot: Option<CompilerError>) -> Option<
    CompilerError,
> {
    if result >= 0 {
        slot
    } else {
        None
    }
}

/// Reads the diagnostic slot for a compile that the engine has answered with
/// `result`, emptying it where the compile failed.
pub fn read_diagnostic(result: SQRESULT, slot: &mut Option<CompilerError>) -> (outcome:
    CompileOutcome)
    ensures
        outcome == compile_outcome(result, *old(slot)),
        *final(slot) == slot_after_compile(result, *old(slot)),
{
    if SQ_SUCCEEDED(result) {
        CompileOutcome::Compiled
    } else {
        match slot.take() {
            Some(error) => CompileOutcome::Rejected(error),
            None => CompileOutcome::Unreported,
        }
    }
}

} // verus!
