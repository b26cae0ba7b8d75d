//! The requests a handle makes of the engine.
//!
//! A handle never reaches the engine itself. Each of its operations yields
//! one `EngineCall` with its arguments already in the engine's own types;
//! the host shell performs it on the VM instance the handle stands for.
use vstd::prelude::*;
use crate::sys::{SQBool, SQInteger, SQUnsignedInteger};

verus! {

/// One entry point of the engine together with its arguments.
#[derive(Debug, Clone, PartialEq, Eq)]
pub enum EngineCall {
    /// Create a VM instance with a stack of the given initial size.
    Open { initial_stack: SQInteger },
    /// Create a friend VM instance of this one.
    NewThread { initial_stack: SQInteger },
    /// Store the address of the foreign data record in the instance's
    /// foreign-pointer slot.
    SetForeignPtr,
    /// Install the print and error trampolines on the instance.
    SetPrintFunc,
    /// Install the compiler-error hook on the instance.
    SetCompilerErrorHandler,
    /// Bind the process-wide trampolines to the sink types of this handle.
    SetPrintCallbacks,
    /// Pop a function and make it the runtime error handler.
    SetErrorHandler,
    /// Close the VM instance.
    Close,
    Suspend,
    WakeUp { resumed_return: SQBool, return_value: SQBool, raise_error: SQBool, throw_error: SQBool },
    GetVmState,
    GetVersion,
    /// Compile a source that the lexer callback feeds character by character.
    Compile { source_name: String, raise_error: SQBool },
    /// Compile a source held in one buffer of `size` bytes.
    CompileBuffer { source: String, size: SQInteger, source_name: String, raise_error: SQBool },
    EnableDebugInfo { enable: SQBool },
    NotifyAllExceptions { enable: SQBool },
    Push { idx: SQInteger },
    Pop { count: SQInteger },
    PopTop,
    Remove { idx: SQInteger },
    GetTop,
    SetTop { new_top: SQInteger },
    ReserveStack { size: SQInteger },
    /// Compare the two topmost values.
    Compare,
    /// Copy the value at `idx` of this instance onto another instance's stack.
    Move { idx: SQInteger },
    NewUserData { size: SQUnsignedInteger },
    NewTable,
    NewTableEx { initial_capacity: SQInteger },
    NewArray { size: SQInteger },
    /// Pop `free_vars` values and push a closure over a host function that
    /// holds them as its free variables.
    NewClosure { free_vars: SQUnsignedInteger },
    SetParamsCheck { count: SQInteger, type_mask: String },
    BindEnv { idx: SQInteger },
    /// Push a string; a negative `len` lets the engine measure it.
    PushString { text: String, len: SQInteger },
    PushInteger { value: SQInteger },
    PushBool { value: SQBool },
    PushNull,
    PushRootTable,
    PushRegistryTable,
    PushConstTable,
    SetRootTable,
    SetConstTable,
    NewSlot { idx: SQInteger, is_static: SQBool },
    DeleteSlot { idx: SQInteger, push_value: SQBool },
    /// Pop a key and a value and store the value under the key in the object at `idx`.
    SetValue { idx: SQInteger },
    /// Pop a key and push the value stored under it in the object at `idx`.
    GetValue { idx: SQInteger },
    Call { params: SQInteger, return_value: SQBool, raise_error: SQBool },
    Resume { return_value: SQBool, raise_error: SQBool },
    GetLocal { level: SQUnsignedInteger, idx: SQUnsignedInteger },
    GetCallee,
    GetFreeVariable { idx: SQInteger, nval: SQUnsignedInteger },
    ThrowError { message: String },
    ThrowObject,
    ResetError,
    GetLastError,
    CollectGarbage,
    ResurrectUnreachable,
    StackInfos { level: SQInteger },
    SetDebugHook,
    RegisterBlobLib,
    RegisterIoLib,
    RegisterMathLib,
    RegisterStringLib,
    RegisterSystemLib,
}

} // verus!
