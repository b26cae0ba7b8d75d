//! Conversion of host values into the forms the engine's interface takes.
use vstd::prelude::*;
use vstd::string::StringSliceAdditionalSpecFns;
use crate::sys::{SQBool, SQInteger, SQUIRREL_EOB, SQ_ERROR};

verus! {

/// Why a text cannot be handed to the engine: it holds a zero byte, which
/// would end it early on the engine's side.
#[derive(Debug, Clone, Copy, PartialEq, Eq)]
pub struct NulError {
    /// Byte offset of the first zero byte.
    pub position: usize,
}

/// A byte string the engine can read up to a terminating zero without loss.
pub open spec fn is_c_text(bytes: Seq<u8>) -> bool {
    forall|i: int| 0 <= i < bytes.len() ==> bytes[i] != 0
}

/// `position` is where the first zero byte of `bytes` stands.
pub open spec fn is_first_nul(bytes: Seq<u8>, position: int) -> bool {
    &&& 0 <= position < bytes.len()
    &&& bytes[position] == 0
    &&& is_c_text(bytes.take(position))
}

/// Owns a copy of `text` for the engine, or reports its first zero byte.
pub fn c_text(text: &str) -> (r: Result<String, NulError>)
    ensures
        match r {
            Ok(owned) => is_c_text(text.spec_bytes()) && owned@ == text@,
            Err(e) => is_first_nul(text.spec_bytes(), e.position as int),
        },
{
    let bytes = text.as_bytes();
    let mut i: usize = 0;
    while i < bytes.len()
        invariant
            i <= bytes.len(),
            bytes@ == text.spec_bytes(),
            forall|j: int| 0 <= j < i ==> bytes@[j] != 0,
        decreases bytes.len() - i,
    {
        if bytes[i] == 0 {
            return Err(NulError { position: i });
        }
        i += 1;
    }
    Ok(text.to_owned())
}

/// The length of `text` in bytes, as the engine's integer.
pub fn buffer_size(text: &str) -> (size: SQInteger)
    ensures
        size == text.spec_bytes().len() as SQInteger,
{
    let len: usize = text.as_bytes().len();
    #[verifier::truncate]
    (len as SQInteger)
}

/// A host size as the engine's integer. A size beyond the integer's range
/// wraps round, as the conversion between the two machine types does.
pub fn to_integer(n: usize) -> (value: SQInteger)
    ensures
        value == n as SQInteger,
{
    #[verifier::truncate]
    (n as SQInteger)
}

/// The engine's boolean: one for true, zero for false.
pub open spec fn sq_flag(b: bool) -> SQBool {
    if b {
        1
    } else {
        0
    }
}

/// The engine's boolean: one for true, zero for false.
pub fn sq_bool(b: bool) -> (v: SQBool)
    ensures
        v == sq_flag(b),
{
    if b { 1 } else { 0 }
}

/// The code of a character as the engine's integer.
fn char_code(c: char) -> (code: SQInteger)
    ensures
        code == c as int,
{
    let scalar: u32 = c as u32;
    scalar as SQInteger
}

/// What the lexer callback hands the engine for the next character of a
/// source: the character's code, or the end-of-buffer mark when none is left.
pub fn read_fn(next: Option<char>) -> (code: SQInteger)
    ensures
        code == match next {
            Some(c) => c as int,
            None => SQUIRREL_EOB as int,
        },
{
    match next {
        Some(c) => char_code(c),
        None => SQUIRREL_EOB,
    }
}

/// What a host function that the engine calls as a native closure tells the
/// engine when it returns.
#[derive(Debug, Clone, Copy, PartialEq, Eq, Structural)]
pub enum NativeReturn {
    /// The function returns nothing.
    Nothing,
    /// The function has pushed its return value.
    Value,
    /// The function has thrown an error.
    Error,
}

impl NativeReturn {
    /// The integer by which the engine is told: zero for no value, one for
    /// a value on the stack, the error code for a thrown error.
    pub fn code(self) -> (code: SQInteger)
        ensures
            code == match self {
                NativeReturn::Nothing => 0,
                NativeReturn::Value => 1,
                NativeReturn::Error => SQ_ERROR,
            },
    {
        match self {
            NativeReturn::Nothing => 0,
            NativeReturn::Value => 1,
            NativeReturn::Error => SQ_ERROR,
        }
    }
}

} // verus!
