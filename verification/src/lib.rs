//! Verified core of a host-side adapter for the Squirrel scripting engine.
//!
//! The engine is reached through foreign calls that a host shell performs.
//! This crate decides what is asked of the engine and what each answer means.
#![allow(non_snake_case, non_camel_case_types, non_upper_case_globals)]

pub mod bridge;
pub mod call;
pub mod diagnostics;
pub mod marshal;
pub mod protocol;
pub mod reply;
pub mod stack;
pub mod sys;
pub mod text;
pub mod vm;

pub use bridge::{ByteLog, ByteSink, SinkError, SquirrelData};
pub use call::EngineCall;
pub use diagnostics::{CompileOutcome, CompilerError};
pub use marshal::{read_fn, NativeReturn, NulError};
pub use protocol::get_version;
pub use reply::{get_result, StackInfo, State};
pub use sys::{SQ_FAILED, SQ_SUCCEEDED, _RAW_TYPE};
pub use vm::{Lifecycle, SquirrelVM, Teardown};
