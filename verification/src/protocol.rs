//! The operations of a handle that the engine carries out.
//!
//! Each operation checks and converts its arguments and yields the call for
//! the host shell to perform. What the engine answers is read by
//! `get_result` where it is a result code, and by the function that the
//! operation names where it is more.
use vstd::prelude::*;
use vstd::string::StringSliceAdditionalSpecFns;
use crate::bridge::ByteSink;
use crate::call::EngineCall;
use crate::marshal::{c_text, is_c_text, is_first_nul, sq_bool, sq_flag, to_integer, NulError};
use crate::sys::SQInteger;
use crate::vm::SquirrelVM;

verus! {

/// Asks the engine for its version number.
pub fn get_version() -> (call: EngineCall)
    ensures
        call == EngineCall::GetVersion,
{
    EngineCall::GetVersion
}

impl<P: ByteSink, E: ByteSink> SquirrelVM<P, E> {
    /// Pops a function from the stack and sets it to be the runtime error handler.
    pub fn set_error_handler(&mut self) -> (call: EngineCall)
        requires
            old(self).is_live(),
        ensures
            call == EngineCall::SetErrorHandler,
            *final(self) == *old(self),
    {
        EngineCall::SetErrorHandler
    }

    /// Asks the engine to suspend the machine. Whether it does is the engine's to decide; its result code says so.
    pub fn suspend(&mut self) -> (call: EngineCall)
        requires
            old(self).is_live(),
        ensures
            call == EngineCall::Suspend,
            *final(self) == *old(self),
    {
        EngineCall::Suspend
    }

    /// Asks the engine to wake a suspended machine up.
    pub fn wake_up(
        &mut self,
        resumed_return: bool,
        return_value: bool,
        raise_error: bool,
        throw_error: bool,
    ) -> (call: EngineCall)
        requires
            old(self).is_live(),
        ensures
            call == (EngineCall::WakeUp { resumed_return: sq_flag(resumed_return), return_value: sq_flag(return_value), raise_error: sq_flag(raise_error), throw_error: sq_flag(throw_error) }),
            *final(self) == *old(self),
    {
        EngineCall::WakeUp { resumed_return: sq_bool(resumed_return), return_value: sq_bool(return_value), raise_error: sq_bool(raise_error), throw_error: sq_bool(throw_error) }
    }

    /// Asks the engine for the state of the machine; `State::from_code` reads the answer.
    pub fn get_vm_state(&self) -> (call: EngineCall)
        requires
            self.is_live(),
        ensures
            call == EngineCall::GetVmState,
    {
        EngineCall::GetVmState
    }

    /// Enables or disables debug info.
    pub fn set_debug_info(&mut self, enable: bool) -> (call: EngineCall)
        requires
            old(self).is_live(),
        ensures
            call == (EngineCall::EnableDebugInfo { enable: sq_flag(enable) }),
            *final(self) == *old(self),
    {
        EngineCall::EnableDebugInfo { enable: sq_bool(enable) }
    }

    /// Enables or disables notification of all exceptions.
    pub fn set_notify_all_exceptions(&mut self, enable: bool) -> (call: EngineCall)
        requires
            old(self).is_live(),
        ensures
            call == (EngineCall::NotifyAllExceptions { enable: sq_flag(enable) }),
            *final(self) == *old(self),
    {
        EngineCall::NotifyAllExceptions { enable: sq_bool(enable) }
    }

    /// Pushes a copy of the value at `idx`.
    pub fn push(&mut self, idx: SQInteger) -> (call: EngineCall)
        requires
            old(self).is_live(),
        ensures
            call == (EngineCall::Push { idx: idx }),
            *final(self) == *old(self),
    {
        EngineCall::Push { idx: idx }
    }

    /// Pops `element_count` values.
    pub fn pop(&mut self, element_count: SQInteger) -> (call: EngineCall)
        requires
            old(self).is_live(),
        ensures
            call == (EngineCall::Pop { count: element_count }),
            *final(self) == *old(self),
    {
        EngineCall::Pop { count: element_count }
    }

    /// Pops one value.
    pub fn pop_top(&mut self) -> (call: EngineCall)
        requires
            old(self).is_live(),
        ensures
            call == EngineCall::PopTop,
            *final(self) == *old(self),
    {
        EngineCall::PopTop
    }

    /// Removes the value at `idx`; the values above it move down.
    pub fn remove(&mut self, idx: SQInteger) -> (call: EngineCall)
        requires
            old(self).is_live(),
        ensures
            call == (EngineCall::Remove { idx: idx }),
            *final(self) == *old(self),
    {
        EngineCall::Remove { idx: idx }
    }

    /// Asks for the depth of the stack, which is also the index of its top.
    pub fn get_top(&self) -> (call: EngineCall)
        requires
            self.is_live(),
        ensures
            call == EngineCall::GetTop,
    {
        EngineCall::GetTop
    }

    /// Cuts the stack down, or fills it up with nulls, to `new_top` values.
    pub fn set_top(&mut self, new_top: SQInteger) -> (call: EngineCall)
        requires
            old(self).is_live(),
        ensures
            call == (EngineCall::SetTop { new_top: new_top }),
            *final(self) == *old(self),
    {
        EngineCall::SetTop { new_top: new_top }
    }

    /// Makes room for `n_size` more values.
    pub fn reserve_stack(&self, n_size: SQInteger) -> (call: EngineCall)
        requires
            self.is_live(),
        ensures
            call == (EngineCall::ReserveStack { size: n_size }),
    {
        EngineCall::ReserveStack { size: n_size }
    }

    /// Pushes a new table.
    pub fn new_table(&mut self) -> (call: EngineCall)
        requires
            old(self).is_live(),
        ensures
            call == EngineCall::NewTable,
            *final(self) == *old(self),
    {
        EngineCall::NewTable
    }

    /// Pushes a new table with room for `capacity` slots.
    pub fn new_table_with_capacity(&mut self, capacity: usize) -> (call: EngineCall)
        requires
            old(self).is_live(),
        ensures
            call == (EngineCall::NewTableEx { initial_capacity: capacity as SQInteger }),
            *final(self) == *old(self),
    {
        EngineCall::NewTableEx { initial_capacity: to_integer(capacity) }
    }

    /// Pushes a new array of `size` nulls.
    pub fn new_array(&mut self, size: usize) -> (call: EngineCall)
        requires
            old(self).is_live(),
        ensures
            call == (EngineCall::NewArray { size: size as SQInteger }),
            *final(self) == *old(self),
    {
        EngineCall::NewArray { size: to_integer(size) }
    }

    /// Pushes a new userdata of `size` bytes; the engine answers with its address.
    pub fn new_user_data(&mut self, size: usize) -> (call: EngineCall)
        requires
            old(self).is_live(),
        ensures
            call == (EngineCall::NewUserData { size: size }),
            *final(self) == *old(self),
    {
        EngineCall::NewUserData { size: size }
    }

    /// Pushes a closure over a host function.
    ///
    /// The engine pops `n_free_vars` values, which become the free variables
    /// of the closure, and pushes the closure. The function itself stays with
    /// the host, which hands the engine a native entry point for it. When the
    /// closure is called, that entry point finds the implicit environment
    /// object at index 1 and the arguments above it, and answers with the code of
    /// a `NativeReturn`.
    pub fn new_closure(&mut self, n_free_vars: usize) -> (call: EngineCall)
        requires
            old(self).is_live(),
        ensures
            call == (EngineCall::NewClosure { free_vars: n_free_vars }),
            *final(self) == *old(self),
    {
        EngineCall::NewClosure { free_vars: n_free_vars }
    }

    /// Pops an environment object and pushes the closure at `idx` bound to it.
    pub fn bind_env(&mut self, idx: SQInteger) -> (call: EngineCall)
        requires
            old(self).is_live(),
        ensures
            call == (EngineCall::BindEnv { idx: idx }),
            *final(self) == *old(self),
    {
        EngineCall::BindEnv { idx: idx }
    }

    /// Pushes an integer.
    pub fn push_integer(&mut self, n: SQInteger) -> (call: EngineCall)
        requires
            old(self).is_live(),
        ensures
            call == (EngineCall::PushInteger { value: n }),
            *final(self) == *old(self),
    {
        EngineCall::PushInteger { value: n }
    }

    /// Pushes a boolean.
    pub fn push_bool(&mut self, b: bool) -> (call: EngineCall)
        requires
            old(self).is_live(),
        ensures
            call == (EngineCall::PushBool { value: sq_flag(b) }),
            *final(self) == *old(self),
    {
        EngineCall::PushBool { value: sq_bool(b) }
    }

    /// Pushes a null.
    pub fn push_null(&mut self) -> (call: EngineCall)
        requires
            old(self).is_live(),
        ensures
            call == EngineCall::PushNull,
            *final(self) == *old(self),
    {
        EngineCall::PushNull
    }

    /// Pushes the root table.
    pub fn push_root_table(&mut self) -> (call: EngineCall)
        requires
            old(self).is_live(),
        ensures
            call == EngineCall::PushRootTable,
            *final(self) == *old(self),
    {
        EngineCall::PushRootTable
    }

    /// Pushes the registry table.
    pub fn push_registry_table(&mut self) -> (call: EngineCall)
        requires
            old(self).is_live(),
        ensures
            call == EngineCall::PushRegistryTable,
            *final(self) == *old(self),
    {
        EngineCall::PushRegistryTable
    }

    /// Pushes the table of constants.
    pub fn push_const_table(&mut self) -> (call: EngineCall)
        requires
            old(self).is_live(),
        ensures
            call == EngineCall::PushConstTable,
            *final(self) == *old(self),
    {
        EngineCall::PushConstTable
    }

    /// Pops a table and makes it the root table.
    pub fn set_root_table(&mut self) -> (call: EngineCall)
        requires
            old(self).is_live(),
        ensures
            call == EngineCall::SetRootTable,
            *final(self) == *old(self),
    {
        EngineCall::SetRootTable
    }

    /// Pops a table and makes it the table of constants.
    pub fn set_const_table(&mut self) -> (call: EngineCall)
        requires
            old(self).is_live(),
        ensures
            call == EngineCall::SetConstTable,
            *final(self) == *old(self),
    {
        EngineCall::SetConstTable
    }

    /// Pops a key and a value and creates the slot in the object at `idx`.
    pub fn new_slot(&mut self, idx: SQInteger, bstatic: bool) -> (call: EngineCall)
        requires
            old(self).is_live(),
        ensures
            call == (EngineCall::NewSlot { idx: idx, is_static: sq_flag(bstatic) }),
            *final(self) == *old(self),
    {
        EngineCall::NewSlot { idx: idx, is_static: sq_bool(bstatic) }
    }

    /// Pops a key and deletes its slot from the object at `idx`; pushes the deleted value where `push_val` is set.
    pub fn delete_slot(&mut self, idx: SQInteger, push_val: bool) -> (call: EngineCall)
        requires
            old(self).is_live(),
        ensures
            call == (EngineCall::DeleteSlot { idx: idx, push_value: sq_flag(push_val) }),
            *final(self) == *old(self),
    {
        EngineCall::DeleteSlot { idx: idx, push_value: sq_bool(push_val) }
    }

    /// Pops a key and a value and stores the value under the key in the object at `idx`.
    pub fn set(&mut self, idx: SQInteger) -> (call: EngineCall)
        requires
            old(self).is_live(),
        ensures
            call == (EngineCall::SetValue { idx: idx }),
            *final(self) == *old(self),
    {
        EngineCall::SetValue { idx: idx }
    }

    /// Pops a key and pushes the value stored under it in the object at `idx`.
    pub fn get(&mut self, idx: SQInteger) -> (call: EngineCall)
        requires
            old(self).is_live(),
        ensures
            call == (EngineCall::GetValue { idx: idx }),
            *final(self) == *old(self),
    {
        EngineCall::GetValue { idx: idx }
    }

    /// Calls the callable that sits below `param_count` arguments, the first of
    /// which is the implicit environment object. The engine pops the
    /// arguments and, where `retval` is set, pushes the value returned. After
    /// a failure the stack is the engine's to define: the caller restores
    /// its depth.
    pub fn call(
        &mut self,
        param_count: SQInteger,
        retval: bool,
        raise_error: bool,
    ) -> (call: EngineCall)
        requires
            old(self).is_live(),
        ensures
            call == (EngineCall::Call { params: param_count, return_value: sq_flag(retval), raise_error: sq_flag(raise_error) }),
            *final(self) == *old(self),
    {
        EngineCall::Call { params: param_count, return_value: sq_bool(retval), raise_error: sq_bool(raise_error) }
    }

    /// Continues a suspended machine from where it last yielded.
    pub fn resume(&mut self, retval: bool, raise_error: bool) -> (call: EngineCall)
        requires
            old(self).is_live(),
        ensures
            call == (EngineCall::Resume { return_value: sq_flag(retval), raise_error: sq_flag(raise_error) }),
            *final(self) == *old(self),
    {
        EngineCall::Resume { return_value: sq_bool(retval), raise_error: sq_bool(raise_error) }
    }

    /// Asks for the name of a local variable of a call level, and pushes its value.
    pub fn get_local(&mut self, level: usize, idx: usize) -> (call: EngineCall)
        requires
            old(self).is_live(),
        ensures
            call == (EngineCall::GetLocal { level: level, idx: idx }),
            *final(self) == *old(self),
    {
        EngineCall::GetLocal { level: level, idx: idx }
    }

    /// Pushes the function that is running.
    pub fn get_callee(&mut self) -> (call: EngineCall)
        requires
            old(self).is_live(),
        ensures
            call == EngineCall::GetCallee,
            *final(self) == *old(self),
    {
        EngineCall::GetCallee
    }

    /// Asks for the name of a free variable of the closure at `idx`, and pushes its value.
    pub fn get_free_variable(&mut self, idx: SQInteger, nval: usize) -> (call: EngineCall)
        requires
            old(self).is_live(),
        ensures
            call == (EngineCall::GetFreeVariable { idx: idx, nval: nval }),
            *final(self) == *old(self),
    {
        EngineCall::GetFreeVariable { idx: idx, nval: nval }
    }

    /// Pops a value and throws it as an exception.
    pub fn throw_object(&mut self) -> (call: EngineCall)
        requires
            old(self).is_live(),
        ensures
            call == EngineCall::ThrowObject,
            *final(self) == *old(self),
    {
        EngineCall::ThrowObject
    }

    /// Resets the last error to null.
    pub fn reset_error(&mut self) -> (call: EngineCall)
        requires
            old(self).is_live(),
        ensures
            call == EngineCall::ResetError,
            *final(self) == *old(self),
    {
        EngineCall::ResetError
    }

    /// Pushes the last error.
    pub fn get_last_error(&mut self) -> (call: EngineCall)
        requires
            old(self).is_live(),
        ensures
            call == EngineCall::GetLastError,
            *final(self) == *old(self),
    {
        EngineCall::GetLastError
    }

    /// Runs the garbage collector; the engine answers with the number of objects it freed.
    pub fn collect_garbage(&mut self) -> (call: EngineCall)
        requires
            old(self).is_live(),
        ensures
            call == EngineCall::CollectGarbage,
            *final(self) == *old(self),
    {
        EngineCall::CollectGarbage
    }

    /// Pushes an array of the objects that nothing reaches any more.
    pub fn resurrect_unreachable(&mut self) -> (call: EngineCall)
        requires
            old(self).is_live(),
        ensures
            call == EngineCall::ResurrectUnreachable,
            *final(self) == *old(self),
    {
        EngineCall::ResurrectUnreachable
    }

    /// Asks for the stack information of a call level; `StackInfo::from_raw` reads the answer.
    pub fn stack_info(&self, level: SQInteger) -> (call: EngineCall)
        requires
            self.is_live(),
        ensures
            call == (EngineCall::StackInfos { level: level }),
    {
        EngineCall::StackInfos { level: level }
    }

    /// Pops a closure and makes it the debug hook.
    pub fn set_debug_hook(&mut self) -> (call: EngineCall)
        requires
            old(self).is_live(),
        ensures
            call == EngineCall::SetDebugHook,
            *final(self) == *old(self),
    {
        EngineCall::SetDebugHook
    }

    /// Registers the `stdblob` lib for use with this virtual machine.
    pub fn register_blob_lib(&mut self) -> (call: EngineCall)
        requires
            old(self).is_live(),
        ensures
            call == EngineCall::RegisterBlobLib,
            *final(self) == *old(self),
    {
        EngineCall::RegisterBlobLib
    }

    /// Registers the `stdio` lib for use with this virtual machine.
    pub fn register_io_lib(&mut self) -> (call: EngineCall)
        requires
            old(self).is_live(),
        ensures
            call == EngineCall::RegisterIoLib,
            *final(self) == *old(self),
    {
        EngineCall::RegisterIoLib
    }

    /// Registers the `stdmath` lib for use with this virtual machine.
    pub fn register_math_lib(&self) -> (call: EngineCall)
        requires
            self.is_live(),
        ensures
            call == EngineCall::RegisterMathLib,
    {
        EngineCall::RegisterMathLib
    }

    /// Registers the `stdstring` lib for use with this virtual machine.
    pub fn register_string_lib(&mut self) -> (call: EngineCall)
        requires
            old(self).is_live(),
        ensures
            call == EngineCall::RegisterStringLib,
            *final(self) == *old(self),
    {
        EngineCall::RegisterStringLib
    }

    /// Registers the `stdsystem` lib for use with this virtual machine.
    pub fn register_system_lib(&mut self) -> (call: EngineCall)
        requires
            old(self).is_live(),
        ensures
            call == EngineCall::RegisterSystemLib,
            *final(self) == *old(self),
    {
        EngineCall::RegisterSystemLib
    }

    /// Compares the two topmost values; the engine answers with a negative
    /// number, zero or a positive number.
    pub fn cmp(&self) -> (call: EngineCall)
        requires
            self.is_live(),
        ensures
            call == EngineCall::Compare,
    {
        EngineCall::Compare
    }

    /// Copies the value at `idx` of this machine onto the stack of `dest`;
    /// each machine keeps its own copy.
    pub fn move_item<Q: ByteSink, F: ByteSink>(
        &mut self,
        dest: &mut SquirrelVM<Q, F>,
        idx: SQInteger,
    ) -> (call: EngineCall)
        requires
            old(self).is_live(),
            old(dest).is_live(),
        ensures
            call == (EngineCall::Move { idx: idx }),
            *final(self) == *old(self),
            *final(dest) == *old(dest),
    {
        EngineCall::Move { idx: idx }
    }

    /// Sets the parameter check of the native closure on top of the stack:
    /// the number of parameters and a mask of their types. The mask may
    /// hold no zero byte; its first one is reported.
    pub fn set_params_check(&mut self, n_params_check: SQInteger, type_mask: &str) -> (r: Result<
        EngineCall,
        NulError,
    >)
        requires
            old(self).is_live(),
        ensures
            *final(self) == *old(self),
            match r {
                Ok(call) => {
                    &&& is_c_text(type_mask.spec_bytes())
                    &&& call matches EngineCall::SetParamsCheck { count, type_mask: mask }
                    &&& count == n_params_check
                    &&& mask@ == type_mask@
                },
                Err(e) => is_first_nul(type_mask.spec_bytes(), e.position as int),
            },
    {
        match c_text(type_mask) {
            Ok(mask) => Ok(EngineCall::SetParamsCheck { count: n_params_check, type_mask: mask }),
            Err(e) => Err(e),
        }
    }

    /// Pushes a string, which the engine measures itself, up to its end.
    /// The string may hold no zero byte; its first one is reported.
    pub fn push_str(&mut self, s: &str) -> (r: Result<EngineCall, NulError>)
        requires
            old(self).is_live(),
        ensures
            *final(self) == *old(self),
            match r {
                Ok(call) => {
                    &&& is_c_text(s.spec_bytes())
                    &&& call matches EngineCall::PushString { text, len }
                    &&& text@ == s@
                    &&& len == -1
                },
                Err(e) => is_first_nul(s.spec_bytes(), e.position as int),
            },
    {
        match c_text(s) {
            Ok(text) => Ok(EngineCall::PushString { text: text, len: -1 }),
            Err(e) => Err(e),
        }
    }

    /// Throws an exception with `error` as its message. The message may
    /// hold no zero byte; its first one is reported.
    pub fn throw_error(&mut self, error: &str) -> (r: Result<EngineCall, NulError>)
        requires
            old(self).is_live(),
        ensures
            *final(self) == *old(self),
            match r {
                Ok(call) => {
                    &&& is_c_text(error.spec_bytes())
                    &&& call matches EngineCall::ThrowError { message }
                    &&& message@ == error@
                },
                Err(e) => is_first_nul(error.spec_bytes(), e.position as int),
            },
    {
        match c_text(error) {
            Ok(message) => Ok(EngineCall::ThrowError { message: message }),
            Err(e) => Err(e),
        }
    }
}

} // verus!
