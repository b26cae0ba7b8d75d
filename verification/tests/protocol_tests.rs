use squirrel::{get_version, ByteLog, EngineCall, NulError, SquirrelVM};

fn machine() -> SquirrelVM<ByteLog, ByteLog> {
    SquirrelVM::new(1024, ByteLog::new(), ByteLog::new())
}

#[test]
fn version_is_asked_of_the_engine() {
    assert_eq!(get_version(), EngineCall::GetVersion);
}

#[test]
fn calls_without_arguments() {
    let mut vm = machine();
    assert_eq!(vm.set_error_handler(), EngineCall::SetErrorHandler);
    assert_eq!(vm.suspend(), EngineCall::Suspend);
    assert_eq!(vm.get_vm_state(), EngineCall::GetVmState);
    assert_eq!(vm.pop_top(), EngineCall::PopTop);
    assert_eq!(vm.get_top(), EngineCall::GetTop);
    assert_eq!(vm.cmp(), EngineCall::Compare);
    assert_eq!(vm.new_table(), EngineCall::NewTable);
    assert_eq!(vm.push_null(), EngineCall::PushNull);
    assert_eq!(vm.push_root_table(), EngineCall::PushRootTable);
    assert_eq!(vm.push_registry_table(), EngineCall::PushRegistryTable);
    assert_eq!(vm.push_const_table(), EngineCall::PushConstTable);
    assert_eq!(vm.set_root_table(), EngineCall::SetRootTable);
    assert_eq!(vm.set_const_table(), EngineCall::SetConstTable);
    assert_eq!(vm.get_callee(), EngineCall::GetCallee);
    assert_eq!(vm.throw_object(), EngineCall::ThrowObject);
    assert_eq!(vm.reset_error(), EngineCall::ResetError);
    assert_eq!(vm.get_last_error(), EngineCall::GetLastError);
    assert_eq!(vm.collect_garbage(), EngineCall::CollectGarbage);
    assert_eq!(vm.resurrect_unreachable(), EngineCall::ResurrectUnreachable);
    assert_eq!(vm.set_debug_hook(), EngineCall::SetDebugHook);
}

#[test]
fn library_registrations() {
    let mut vm = machine();
    assert_eq!(vm.register_blob_lib(), EngineCall::RegisterBlobLib);
    assert_eq!(vm.register_io_lib(), EngineCall::RegisterIoLib);
    assert_eq!(vm.register_math_lib(), EngineCall::RegisterMathLib);
    assert_eq!(vm.register_string_lib(), EngineCall::RegisterStringLib);
    assert_eq!(vm.register_system_lib(), EngineCall::RegisterSystemLib);
}

#[test]
fn stack_calls_carry_their_indices() {
    let mut vm = machine();
    assert_eq!(vm.push(-1), EngineCall::Push { idx: -1 });
    assert_eq!(vm.push(3), EngineCall::Push { idx: 3 });
    assert_eq!(vm.pop(2), EngineCall::Pop { count: 2 });
    assert_eq!(vm.remove(-2), EngineCall::Remove { idx: -2 });
    assert_eq!(vm.set_top(1), EngineCall::SetTop { new_top: 1 });
    assert_eq!(vm.reserve_stack(20), EngineCall::ReserveStack { size: 20 });
    assert_eq!(vm.bind_env(-2), EngineCall::BindEnv { idx: -2 });
    assert_eq!(vm.set(-3), EngineCall::SetValue { idx: -3 });
    assert_eq!(vm.get(-2), EngineCall::GetValue { idx: -2 });
    assert_eq!(vm.stack_info(1), EngineCall::StackInfos { level: 1 });
    assert_eq!(vm.get_local(1, 2), EngineCall::GetLocal { level: 1, idx: 2 });
    assert_eq!(vm.get_free_variable(-1, 0), EngineCall::GetFreeVariable { idx: -1, nval: 0 });
}

#[test]
fn move_item_names_the_index_on_the_source() {
    let mut from = machine();
    let mut to = from.new_thread(64, ByteLog::new(), ByteLog::new());
    assert_eq!(from.move_item(&mut to, -1), EngineCall::Move { idx: -1 });
    assert_eq!(to.move_item(&mut from, 2), EngineCall::Move { idx: 2 });
}

#[test]
fn host_values_are_pushed_in_the_engine_s_types() {
    let mut vm = machine();
    assert_eq!(vm.push_integer(-42), EngineCall::PushInteger { value: -42 });
    assert_eq!(vm.push_integer(isize::MAX), EngineCall::PushInteger { value: isize::MAX });
    assert_eq!(vm.push_bool(true), EngineCall::PushBool { value: 1 });
    assert_eq!(vm.push_bool(false), EngineCall::PushBool { value: 0 });
}

#[test]
fn push_str_lets_the_engine_measure() {
    let mut vm = machine();
    assert_eq!(
        vm.push_str("hello"),
        Ok(EngineCall::PushString { text: String::from("hello"), len: -1 })
    );
    assert_eq!(vm.push_str(""), Ok(EngineCall::PushString { text: String::new(), len: -1 }));
}

#[test]
fn push_str_refuses_zero_bytes() {
    let mut vm = machine();
    assert_eq!(vm.push_str("he\0llo"), Err(NulError { position: 2 }));
}

#[test]
fn throw_error_carries_its_message() {
    let mut vm = machine();
    assert_eq!(
        vm.throw_error("out of cheese"),
        Ok(EngineCall::ThrowError { message: String::from("out of cheese") })
    );
    assert_eq!(vm.throw_error("\0"), Err(NulError { position: 0 }));
}

#[test]
fn set_params_check_carries_count_and_mask() {
    let mut vm = machine();
    assert_eq!(
        vm.set_params_check(-2, "t.s"),
        Ok(EngineCall::SetParamsCheck { count: -2, type_mask: String::from("t.s") })
    );
    assert_eq!(vm.set_params_check(1, "ts\0"), Err(NulError { position: 2 }));
}

#[test]
fn flags_become_engine_booleans() {
    let mut vm = machine();
    assert_eq!(vm.set_debug_info(true), EngineCall::EnableDebugInfo { enable: 1 });
    assert_eq!(vm.set_debug_info(false), EngineCall::EnableDebugInfo { enable: 0 });
    assert_eq!(vm.set_notify_all_exceptions(true), EngineCall::NotifyAllExceptions { enable: 1 });
    assert_eq!(vm.new_slot(-3, false), EngineCall::NewSlot { idx: -3, is_static: 0 });
    assert_eq!(vm.new_slot(-3, true), EngineCall::NewSlot { idx: -3, is_static: 1 });
    assert_eq!(vm.delete_slot(-2, true), EngineCall::DeleteSlot { idx: -2, push_value: 1 });
    assert_eq!(
        vm.wake_up(true, false, true, false),
        EngineCall::WakeUp { resumed_return: 1, return_value: 0, raise_error: 1, throw_error: 0 }
    );
    assert_eq!(
        vm.wake_up(false, true, false, true),
        EngineCall::WakeUp { resumed_return: 0, return_value: 1, raise_error: 0, throw_error: 1 }
    );
}

#[test]
fn call_and_resume_carry_their_flags() {
    let mut vm = machine();
    assert_eq!(
        vm.call(1, false, true),
        EngineCall::Call { params: 1, return_value: 0, raise_error: 1 }
    );
    assert_eq!(
        vm.call(3, true, false),
        EngineCall::Call { params: 3, return_value: 1, raise_error: 0 }
    );
    assert_eq!(vm.resume(true, true), EngineCall::Resume { return_value: 1, raise_error: 1 });
    assert_eq!(vm.resume(false, false), EngineCall::Resume { return_value: 0, raise_error: 0 });
}

#[test]
fn sizes_become_engine_integers() {
    let mut vm = machine();
    assert_eq!(vm.new_table_with_capacity(16), EngineCall::NewTableEx { initial_capacity: 16 });
    assert_eq!(vm.new_array(0), EngineCall::NewArray { size: 0 });
    assert_eq!(vm.new_array(3), EngineCall::NewArray { size: 3 });
    assert_eq!(vm.new_user_data(24), EngineCall::NewUserData { size: 24 });
}

#[test]
fn sizes_beyond_the_integer_wrap() {
    let mut vm = machine();
    assert_eq!(
        vm.new_table_with_capacity(usize::MAX),
        EngineCall::NewTableEx { initial_capacity: -1 }
    );
    assert_eq!(vm.new_array(isize::MAX as usize + 1), EngineCall::NewArray { size: isize::MIN });
}

#[test]
fn new_closure_names_its_free_variables() {
    let mut vm = machine();
    assert_eq!(vm.new_closure(0), EngineCall::NewClosure { free_vars: 0 });
    assert_eq!(vm.new_closure(2), EngineCall::NewClosure { free_vars: 2 });
}
