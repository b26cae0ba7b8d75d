//! What the engine's answers mean to the host.
use vstd::prelude::*;
use crate::sys::{
    SQInteger, SQRESULT, SQ_FAILED, SQ_SUCCEEDED, SQ_VMSTATE_IDLE, SQ_VMSTATE_RUNNING,
    SQ_VMSTATE_SUSPENDED,
};

verus! {

/// Turns an engine result code into a `Result`: `t` on success, `e` on
/// failure.
pub fn get_result<T, E>(r: SQRESULT, t: T, e: E) -> (res: Result<T, E>)
    ensures
        res == if r >= 0 { Ok::<T, E>(t) } else { Err::<T, E>(e) },
{
    if SQ_SUCCEEDED(r) {
        Ok(t)
    } else {
        Err(e)
    }
}

/// Represents the state of a virtual machine
#[derive(Debug, Clone, Copy, PartialEq, Eq, Structural)]
pub enum State {
    Idle,
    Running,
    Suspended,
}

impl State {
    /// The code by which the engine reports this state.
    pub open spec fn code(self) -> SQInteger {
        match self {
            State::Idle => SQ_VMSTATE_IDLE,
            State::Running => SQ_VMSTATE_RUNNING,
            State::Suspended => SQ_VMSTATE_SUSPENDED,
        }
    }

    /// The state that the engine reports by `code`, if it is one of the
    /// three state codes.
    pub fn from_code(code: SQInteger) -> (state: Option<State>)
        ensures
            match state {
                Some(s) => s.code() == code,
                None => code != SQ_VMSTATE_IDLE && code != SQ_VMSTATE_RUNNING && code
                    != SQ_VMSTATE_SUSPENDED,
            },
    {
        if code == SQ_VMSTATE_IDLE {
            Some(State::Idle)
        } else if code == SQ_VMSTATE_RUNNING {
            Some(State::Running)
        } else if code == SQ_VMSTATE_SUSPENDED {
            Some(State::Suspended)
        } else {
            None
        }
    }
}

/// Contains stack information for a virtual machine
#[derive(Debug, Clone, PartialEq, Eq)]
pub struct StackInfo {
    pub func_name: String,
    pub source: String,
    pub line: SQInteger,
}

/// The text of a name that the engine may have left out: empty where it did.
pub open spec fn name_or_empty(name: Option<String>) -> Seq<char> {
    match name {
        Some(text) => text@,
        None => Seq::<char>::empty(),
    }
}

fn text_or_empty(name: Option<String>) -> (text: String)
    ensures
        text@ == name_or_empty(name),
{
    match name {
        Some(text) => text,
        None => String::new(),
    }
}

impl StackInfo {
    /// The stack information of one call level, from what the engine
    /// answered: nothing where it reported failure; else the function name
    /// and the source name it gave, each empty where it gave none, and the
    /// line.
    pub fn from_raw(
        result: SQRESULT,
        funcname: Option<String>,
        source: Option<String>,
        line: SQInteger,
    ) -> (info: Result<StackInfo, ()>)
        ensures
            match info {
                Ok(si) => {
                    &&& result >= 0
                    &&& si.func_name@ == name_or_empty(funcname)
                    &&& si.source@ == name_or_empty(source)
                    &&& si.line == line
                },
                Err(_) => result < 0,
            },
    {
        if SQ_FAILED(result) {
            return Err(());
        }
        let func_name = text_or_empty(funcname);
        let source = text_or_empty(source);
        Ok(StackInfo { func_name: func_name, source: source, line: line })
    }
}

} // verus!
