use squirrel::diagnostics::read_diagnostic;
use squirrel::sys::{SQ_ERROR, SQ_OK, SQ_VMSTATE_IDLE, SQ_VMSTATE_RUNNING, SQ_VMSTATE_SUSPENDED};
use squirrel::{get_result, CompileOutcome, CompilerError, StackInfo, State};

fn sample_error() -> CompilerError {
    CompilerError {
        desc: String::from("expression expected"),
        source: String::from("t"),
        line: 1,
        column: 6,
    }
}

#[test]
fn get_result_is_ok_on_success() {
    assert_eq!(get_result(SQ_OK, 5, "bad"), Ok(5));
    assert_eq!(get_result(1, 5, "bad"), Ok(5));
    assert_eq!(get_result(isize::MAX, (), ()), Ok(()));
}

#[test]
fn get_result_is_err_on_failure() {
    assert_eq!(get_result(SQ_ERROR, 5, "bad"), Err("bad"));
    assert_eq!(get_result(-2, (), ()), Err(()));
    assert_eq!(get_result(isize::MIN, (), ()), Err(()));
}

#[test]
fn state_codes_are_decoded() {
    assert_eq!(State::from_code(SQ_VMSTATE_IDLE), Some(State::Idle));
    assert_eq!(State::from_code(SQ_VMSTATE_RUNNING), Some(State::Running));
    assert_eq!(State::from_code(SQ_VMSTATE_SUSPENDED), Some(State::Suspended));
    assert_eq!(State::from_code(0), Some(State::Idle));
    assert_eq!(State::from_code(1), Some(State::Running));
    assert_eq!(State::from_code(2), Some(State::Suspended));
}

#[test]
fn other_state_codes_are_refused() {
    assert_eq!(State::from_code(3), None);
    assert_eq!(State::from_code(-1), None);
    assert_eq!(State::from_code(isize::MAX), None);
}

#[test]
fn stack_info_is_built_from_what_the_engine_gave() {
    let info = StackInfo::from_raw(SQ_OK, Some(String::from("main")), Some(String::from("program")), 12);
    assert_eq!(
        info,
        Ok(StackInfo { func_name: String::from("main"), source: String::from("program"), line: 12 })
    );
}

#[test]
fn stack_info_has_empty_names_where_the_engine_gave_none() {
    let info = StackInfo::from_raw(SQ_OK, None, None, -1);
    assert_eq!(info, Ok(StackInfo { func_name: String::new(), source: String::new(), line: -1 }));
    let info = StackInfo::from_raw(3, None, Some(String::from("s")), 0);
    assert_eq!(info, Ok(StackInfo { func_name: String::new(), source: String::from("s"), line: 0 }));
}

#[test]
fn stack_info_fails_where_the_engine_failed() {
    assert_eq!(StackInfo::from_raw(SQ_ERROR, Some(String::from("main")), Some(String::from("p")), 1), Err(()));
    assert_eq!(StackInfo::from_raw(-7, None, None, 0), Err(()));
}

#[test]
fn compiler_error_reads_as_one_line() {
    assert_eq!(
        sample_error().to_string(),
        "Error: expression expected in 't' on line '1', column 6"
    );
}

#[test]
fn compiler_error_line_with_odd_numbers() {
    let error = CompilerError { desc: String::new(), source: String::from("a'b"), line: -3, column: 0 };
    assert_eq!(error.to_string(), "Error:  in 'a'b' on line '-3', column 0");
    let error = CompilerError { desc: String::from("x"), source: String::new(), line: 120, column: 4005 };
    assert_eq!(error.to_string(), "Error: x in '' on line '120', column 4005");
}

#[test]
fn compiler_error_description_is_its_desc() {
    assert_eq!(sample_error().description(), "expression expected");
}

#[test]
fn read_diagnostic_leaves_the_slot_on_success() {
    let mut slot = Some(sample_error());
    assert_eq!(read_diagnostic(SQ_OK, &mut slot), CompileOutcome::Compiled);
    assert_eq!(slot, Some(sample_error()));
    let mut slot = None;
    assert_eq!(read_diagnostic(0, &mut slot), CompileOutcome::Compiled);
    assert_eq!(slot, None);
}

#[test]
fn read_diagnostic_takes_the_error_on_failure() {
    let mut slot = Some(sample_error());
    assert_eq!(read_diagnostic(SQ_ERROR, &mut slot), CompileOutcome::Rejected(sample_error()));
    assert_eq!(slot, None);
}

#[test]
fn read_diagnostic_says_when_nothing_was_reported() {
    let mut slot = None;
    assert_eq!(read_diagnostic(SQ_ERROR, &mut slot), CompileOutcome::Unreported);
    assert_eq!(slot, None);
}
