use squirrel::stack::{Value, ValueStack};
use squirrel::{ByteLog, EngineCall, SquirrelVM};

fn stack_of(values: &[isize]) -> ValueStack {
    ValueStack { slots: values.iter().map(|n| Value::Integer(*n)).collect() }
}

#[test]
fn positive_and_negative_indices_name_the_same_value() {
    let stack = stack_of(&[10, 20, 30, 40]);
    let depth: isize = 4;
    for i in 1..=depth {
        assert_eq!(stack.locate(i), stack.locate(i - depth - 1));
        assert_eq!(stack.get(i), stack.get(i - depth - 1));
        assert_eq!(stack.get(i), Some(&Value::Integer(10 * i)));
    }
}

#[test]
fn index_one_is_the_bottom_and_minus_one_the_top() {
    let stack = stack_of(&[10, 20, 30]);
    assert_eq!(stack.locate(1), Some(0));
    assert_eq!(stack.locate(3), Some(2));
    assert_eq!(stack.locate(-1), Some(2));
    assert_eq!(stack.locate(-3), Some(0));
    assert_eq!(stack.get(1), Some(&Value::Integer(10)));
    assert_eq!(stack.get(-1), Some(&Value::Integer(30)));
}

#[test]
fn indices_off_the_stack_name_nothing() {
    let stack = stack_of(&[10, 20, 30]);
    assert_eq!(stack.locate(0), None);
    assert_eq!(stack.locate(4), None);
    assert_eq!(stack.locate(-4), None);
    assert_eq!(stack.locate(isize::MAX), None);
    assert_eq!(stack.locate(isize::MIN), None);
    assert_eq!(stack.get(0), None);
    let empty = ValueStack::new();
    assert_eq!(empty.depth(), 0);
    assert_eq!(empty.locate(1), None);
    assert_eq!(empty.locate(-1), None);
}

#[test]
fn push_then_pop_leaves_the_stack_as_it_was() {
    let mut vm = SquirrelVM::new(16, ByteLog::new(), ByteLog::new());
    let pushes = vec![
        vm.push_integer(7),
        vm.push_bool(true),
        vm.push_null(),
        vm.push_str("seven").unwrap(),
        vm.push(-2),
        vm.push(1),
    ];
    for push in pushes {
        let before = stack_of(&[1, 2, 3]);
        let mut stack = before.clone();
        assert!(stack.perform(&push));
        assert_eq!(stack.depth(), 4);
        assert!(stack.perform(&vm.pop(1)));
        assert_eq!(stack, before);
        assert!(stack.perform(&push));
        assert!(stack.perform(&vm.pop_top()));
        assert_eq!(stack, before);
    }
}

#[test]
fn pushes_put_host_values_on_top() {
    let mut stack = ValueStack::new();
    assert!(stack.perform(&EngineCall::PushInteger { value: -5 }));
    assert!(stack.perform(&EngineCall::PushBool { value: 1 }));
    assert!(stack.perform(&EngineCall::PushBool { value: 0 }));
    assert!(stack.perform(&EngineCall::PushNull));
    assert!(stack.perform(&EngineCall::PushString { text: String::from("a b"), len: -1 }));
    assert_eq!(
        stack.slots,
        vec![
            Value::Integer(-5),
            Value::Bool(true),
            Value::Bool(false),
            Value::Null,
            Value::Text(String::from("a b")),
        ]
    );
}

#[test]
fn push_of_an_index_copies_the_value() {
    let mut stack = stack_of(&[10, 20, 30]);
    assert!(stack.perform(&EngineCall::Push { idx: 1 }));
    assert_eq!(stack, stack_of(&[10, 20, 30, 10]));
    assert!(stack.perform(&EngineCall::Push { idx: -2 }));
    assert_eq!(stack, stack_of(&[10, 20, 30, 10, 30]));
    assert!(stack.perform(&EngineCall::Push { idx: 9 }));
    assert_eq!(stack, stack_of(&[10, 20, 30, 10, 30]));
}

#[test]
fn pop_removes_from_the_top() {
    let mut stack = stack_of(&[10, 20, 30, 40]);
    assert!(stack.perform(&EngineCall::Pop { count: 2 }));
    assert_eq!(stack, stack_of(&[10, 20]));
    assert!(stack.perform(&EngineCall::Pop { count: 0 }));
    assert_eq!(stack, stack_of(&[10, 20]));
    assert!(stack.perform(&EngineCall::Pop { count: 2 }));
    assert_eq!(stack, stack_of(&[]));
}

#[test]
fn pop_of_too_much_does_nothing() {
    let mut stack = stack_of(&[10, 20]);
    assert!(stack.perform(&EngineCall::Pop { count: 3 }));
    assert_eq!(stack, stack_of(&[10, 20]));
    assert!(stack.perform(&EngineCall::Pop { count: -1 }));
    assert_eq!(stack, stack_of(&[10, 20]));
    assert!(stack.perform(&EngineCall::Pop { count: isize::MIN }));
    assert_eq!(stack, stack_of(&[10, 20]));
    let mut empty = ValueStack::new();
    assert!(empty.perform(&EngineCall::PopTop));
    assert_eq!(empty, ValueStack::new());
}

#[test]
fn remove_closes_the_gap() {
    let mut stack = stack_of(&[10, 20, 30, 40]);
    assert!(stack.perform(&EngineCall::Remove { idx: 2 }));
    assert_eq!(stack, stack_of(&[10, 30, 40]));
    assert!(stack.perform(&EngineCall::Remove { idx: -1 }));
    assert_eq!(stack, stack_of(&[10, 30]));
    assert!(stack.perform(&EngineCall::Remove { idx: 0 }));
    assert_eq!(stack, stack_of(&[10, 30]));
}

#[test]
fn set_top_cuts_down_and_fills_up() {
    let mut stack = stack_of(&[10, 20, 30]);
    assert!(stack.perform(&EngineCall::SetTop { new_top: 1 }));
    assert_eq!(stack, stack_of(&[10]));
    assert!(stack.perform(&EngineCall::SetTop { new_top: 3 }));
    assert_eq!(stack.slots, vec![Value::Integer(10), Value::Null, Value::Null]);
    assert!(stack.perform(&EngineCall::SetTop { new_top: 3 }));
    assert_eq!(stack.depth(), 3);
    assert!(stack.perform(&EngineCall::SetTop { new_top: -1 }));
    assert_eq!(stack.depth(), 3);
    assert!(stack.perform(&EngineCall::SetTop { new_top: 0 }));
    assert_eq!(stack, ValueStack::new());
}

#[test]
fn get_top_changes_nothing() {
    let mut stack = stack_of(&[10, 20]);
    assert!(stack.perform(&EngineCall::GetTop));
    assert_eq!(stack, stack_of(&[10, 20]));
    assert_eq!(stack.depth(), 2);
}

#[test]
fn other_calls_are_the_engine_s_to_define() {
    let mut stack = stack_of(&[10, 20]);
    assert!(!stack.perform(&EngineCall::Call { params: 1, return_value: 1, raise_error: 1 }));
    assert!(!stack.perform(&EngineCall::NewTable));
    assert!(!stack.perform(&EngineCall::GetValue { idx: -2 }));
    assert!(!stack.perform(&EngineCall::Move { idx: -1 }));
    assert!(!stack.perform(&EngineCall::Close));
    assert_eq!(stack, stack_of(&[10, 20]));
}

#[test]
fn resize_keeps_what_is_below() {
    let mut stack = stack_of(&[10, 20, 30]);
    stack.resize(5);
    assert_eq!(
        stack.slots,
        vec![Value::Integer(10), Value::Integer(20), Value::Integer(30), Value::Null, Value::Null]
    );
    stack.resize(2);
    assert_eq!(stack, stack_of(&[10, 20]));
}

#[test]
fn move_item_copies_between_stacks() {
    let source = stack_of(&[10, 20, 30]);
    let mut dest = stack_of(&[1]);
    source.move_item(&mut dest, -1);
    assert_eq!(dest, stack_of(&[1, 30]));
    source.move_item(&mut dest, 1);
    assert_eq!(dest, stack_of(&[1, 30, 10]));
    assert_eq!(source, stack_of(&[10, 20, 30]));
    source.move_item(&mut dest, 4);
    assert_eq!(dest, stack_of(&[1, 30, 10]));
}

#[test]
fn duplicate_gives_an_equal_value() {
    for value in [Value::Null, Value::Integer(3), Value::Bool(true), Value::Text(String::from("t"))] {
        assert_eq!(value.duplicate(), value);
    }
}
