//! The VM handle: the host's side of one VM instance.
use vstd::prelude::*;
use crate::bridge::{ByteSink, SinkError, SquirrelData};
use crate::call::EngineCall;
use crate::diagnostics::{compile_outcome, read_diagnostic, slot_after_compile, CompileOutcome, CompilerError};
use crate::marshal::{buffer_size, c_text, is_c_text, is_first_nul, sq_bool, NulError};
use crate::sys::{SQInteger, SQRESULT};
use vstd::string::StringSliceAdditionalSpecFns;

verus! {

/// Where a handle stands between creation and the end of its instance.
#[derive(Debug, Clone, Copy, PartialEq, Eq, Structural)]
pub enum Lifecycle {
    /// The instance is open and carries its foreign data record.
    Live,
    /// The record has been reclaimed; the instance is still open.
    Released,
    /// The instance is closed.
    Closed,
}

/// One step of taking a handle down.
#[derive(Debug, Clone, Copy, PartialEq, Eq, Structural)]
pub enum Teardown {
    /// Free the memory that the instance's foreign-pointer slot refers to.
    FreeForeignData,
    /// Close the VM instance.
    CloseVm,
}

/// The steps that take a handle down from a point of its life, in the order
/// in which they must be performed.
pub open spec fn teardown_plan(from: Lifecycle) -> Seq<Teardown> {
    match from {
        Lifecycle::Live => seq![Teardown::FreeForeignData, Teardown::CloseVm],
        Lifecycle::Released => seq![Teardown::CloseVm],
        Lifecycle::Closed => seq![],
    }
}

/// What a handle holds at each point of its life. Only a live handle has a
/// record, so a closed instance can never carry one.
enum Stage<P, E> {
    Live(SquirrelData<P, E>),
    Released,
    Closed,
}

/// Teardown ordering: in every plan the record is freed before the instance
/// is closed, no step occurs twice, and a plan that starts from a live
/// handle does free the record.
pub proof fn teardown_frees_before_close(from: Lifecycle)
    ensures
        forall|i: int, j: int|
            0 <= i < teardown_plan(from).len() && 0 <= j < teardown_plan(from).len()
                && teardown_plan(from)[i] == Teardown::FreeForeignData && teardown_plan(from)[j]
                == Teardown::CloseVm ==> i < j,
        forall|i: int, j: int|
            0 <= i < j < teardown_plan(from).len() ==> teardown_plan(from)[i] != teardown_plan(
                from,
            )[j],
        from == Lifecycle::Live ==> teardown_plan(from).contains(Teardown::FreeForeignData),
        from != Lifecycle::Closed <==> teardown_plan(from).contains(Teardown::CloseVm),
{
    if from == Lifecycle::Live {
        assert(teardown_plan(from)[0] == Teardown::FreeForeignData);
        assert(teardown_plan(from)[1] == Teardown::CloseVm);
    }
    if from == Lifecycle::Released {
        assert(teardown_plan(from)[0] == Teardown::CloseVm);
    }
}

/// Represents a Squirrel virtual machine.
pub struct SquirrelVM<P, E> {
    stage: Stage<P, E>,
    friend: bool,
    initial_stack: SQInteger,
}

impl<P, E> SquirrelVM<P, E> {
    /// The foreign data record, while the handle holds one.
    pub closed spec fn data(self) -> Option<SquirrelData<P, E>> {
        match self.stage {
            Stage::Live(data) => Some(data),
            _ => None,
        }
    }

    /// Whether the instance has been closed.
    pub closed spec fn is_closed(self) -> bool {
        self.stage is Closed
    }

    /// Whether the instance is a friend of another one.
    pub closed spec fn is_friend(self) -> bool {
        self.friend
    }

    /// The stack size the instance is created with.
    pub closed spec fn stack_size(self) -> SQInteger {
        self.initial_stack
    }

    pub open spec fn lifecycle(self) -> Lifecycle {
        if self.is_closed() {
            Lifecycle::Closed
        } else if self.data() is Some {
            Lifecycle::Live
        } else {
            Lifecycle::Released
        }
    }

    pub open spec fn is_live(self) -> bool {
        self.lifecycle() == Lifecycle::Live
    }

    /// The diagnostic slot of a live handle.
    pub open spec fn slot(self) -> Option<CompilerError>
        recommends
            self.is_live(),
    {
        self.data().unwrap().compiler_error
    }

    /// A closed instance carries no record: whatever has been done to a
    /// handle, its record was reclaimed before its instance was closed.
    pub proof fn closed_holds_no_record(self)
        ensures
            self.is_closed() ==> self.data() is None,
    {
    }
}

impl<P: ByteSink, E: ByteSink> SquirrelVM<P, E> {
    /// Create a new Squirrel virtual machine.
    ///
    /// Takes an initial stack size, a stream to print to, and a stream to
    /// write errors to. The handle starts live, with its own record and an
    /// empty diagnostic slot; `setup` lists what the engine must be asked.
    pub fn new(initial_stack: SQInteger, print_stream: P, error_stream: E) -> (vm: SquirrelVM<P, E>)
        ensures
            vm.is_live(),
            !vm.is_friend(),
            vm.stack_size() == initial_stack,
            vm.data() == Some(
                SquirrelData { compiler_error: None, print: print_stream, error: error_stream },
            ),
    {
        SquirrelVM {
            stage: Stage::Live(SquirrelData::new(print_stream, error_stream)),
            friend: false,
            initial_stack: initial_stack,
        }
    }

    /// Creates a new Squirrel virtual machine that is a friend of this
    /// machine: it shares this machine's root namespace, and has a record, a
    /// stack and a life of its own. This machine is left as it is.
    pub fn new_thread<Q: ByteSink, F: ByteSink>(
        &self,
        initial_stack: SQInteger,
        print_stream: Q,
        error_stream: F,
    ) -> (vm: SquirrelVM<Q, F>)
        requires
            self.is_live(),
        ensures
            vm.is_live(),
            vm.is_friend(),
            vm.stack_size() == initial_stack,
            vm.data() == Some(
                SquirrelData { compiler_error: None, print: print_stream, error: error_stream },
            ),
    {
        SquirrelVM {
            stage: Stage::Live(SquirrelData::new(print_stream, error_stream)),
            friend: true,
            initial_stack: initial_stack,
        }
    }

    /// The calls that bring the instance of a fresh handle into being, in
    /// order: create it (on the parent, for a friend), store the record in
    /// its foreign-pointer slot, then install the trampolines and the
    /// compiler-error hook.
    pub fn setup(&self) -> (calls: Vec<EngineCall>)
        requires
            self.is_live(),
        ensures
            calls@ == seq![
                if self.is_friend() {
                    EngineCall::NewThread { initial_stack: self.stack_size() }
                } else {
                    EngineCall::Open { initial_stack: self.stack_size() }
                },
                EngineCall::SetForeignPtr,
                EngineCall::SetPrintFunc,
                EngineCall::SetCompilerErrorHandler,
                EngineCall::SetPrintCallbacks,
            ],
    {
        let create = if self.friend {
            EngineCall::NewThread { initial_stack: self.initial_stack }
        } else {
            EngineCall::Open { initial_stack: self.initial_stack }
        };
        let mut calls: Vec<EngineCall> = Vec::new();
        calls.push(create);
        calls.push(EngineCall::SetForeignPtr);
        calls.push(EngineCall::SetPrintFunc);
        calls.push(EngineCall::SetCompilerErrorHandler);
        calls.push(EngineCall::SetPrintCallbacks);
        assert(calls@ =~= seq![
            create,
            EngineCall::SetForeignPtr,
            EngineCall::SetPrintFunc,
            EngineCall::SetCompilerErrorHandler,
            EngineCall::SetPrintCallbacks,
        ]);
        calls
    }

    /// Where the handle stands.
    pub fn get_lifecycle(&self) -> (at: Lifecycle)
        ensures
            at == self.lifecycle(),
    {
        match &self.stage {
            Stage::Live(_) => Lifecycle::Live,
            Stage::Released => Lifecycle::Released,
            Stage::Closed => Lifecycle::Closed,
        }
    }

    /// Reclaims the foreign data record of a live handle and hands it to the
    /// caller; any other handle is left as it is.
    pub fn release_foreign_data(&mut self) -> (data: Option<SquirrelData<P, E>>)
        ensures
            data == old(self).data(),
            final(self).data() is None,
            final(self).is_closed() == old(self).is_closed(),
            final(self).is_friend() == old(self).is_friend(),
            final(self).stack_size() == old(self).stack_size(),
    {
        let mut stage = Stage::Released;
        core::mem::swap(&mut self.stage, &mut stage);
        match stage {
            Stage::Live(data) => Some(data),
            Stage::Released => None,
            Stage::Closed => {
                self.stage = Stage::Closed;
                None
            },
        }
    }

    /// Takes the handle down, from wherever it stands: frees the record if
    /// the handle still holds it, and returns the steps the host must
    /// perform on the engine's side, in order. The record is always freed
    /// before the instance is closed, and nothing is done twice.
    pub fn dispose(&mut self) -> (steps: Vec<Teardown>)
        ensures
            steps@ == teardown_plan(old(self).lifecycle()),
            final(self).lifecycle() == Lifecycle::Closed,
            final(self).data() is None,
            final(self).is_friend() == old(self).is_friend(),
            final(self).stack_size() == old(self).stack_size(),
    {
        let mut stage = Stage::Closed;
        core::mem::swap(&mut self.stage, &mut stage);
        let mut steps: Vec<Teardown> = Vec::new();
        match stage {
            Stage::Live(_) => {
                steps.push(Teardown::FreeForeignData);
                steps.push(Teardown::CloseVm);
            },
            Stage::Released => {
                steps.push(Teardown::CloseVm);
            },
            Stage::Closed => {},
        }
        assert(steps@ =~= teardown_plan(old(self).lifecycle()));
        steps
    }
}

impl<P: ByteSink, E: ByteSink> SquirrelVM<P, E> {
    /// Print trampoline of a live handle: hands the engine's output to the
    /// handle's print sink, once and whole.
    pub fn print_fn(&mut self, buffer: &[u8]) -> (outcome: Result<usize, SinkError>)
        requires
            old(self).is_live(),
        ensures
            final(self).is_live(),
            P::wrote(
                old(self).data().unwrap().print,
                buffer@,
                final(self).data().unwrap().print,
                outcome,
            ),
            final(self).data().unwrap().error == old(self).data().unwrap().error,
            final(self).slot() == old(self).slot(),
            final(self).is_friend() == old(self).is_friend(),
            final(self).stack_size() == old(self).stack_size(),
    {
        match &mut self.stage {
            Stage::Live(data) => data.print_fn(buffer),
            _ => Err(SinkError),
        }
    }

    /// Error trampoline of a live handle: hands the engine's output to the
    /// handle's error sink, once and whole.
    pub fn err_fn(&mut self, buffer: &[u8]) -> (outcome: Result<usize, SinkError>)
        requires
            old(self).is_live(),
        ensures
            final(self).is_live(),
            E::wrote(
                old(self).data().unwrap().error,
                buffer@,
                final(self).data().unwrap().error,
                outcome,
            ),
            final(self).data().unwrap().print == old(self).data().unwrap().print,
            final(self).slot() == old(self).slot(),
            final(self).is_friend() == old(self).is_friend(),
            final(self).stack_size() == old(self).stack_size(),
    {
        match &mut self.stage {
            Stage::Live(data) => data.err_fn(buffer),
            _ => Err(SinkError),
        }
    }

    /// Compiler-error hook of a live handle: stores the engine's report in
    /// the handle's diagnostic slot.
    pub fn err_handler(&mut self, desc: String, source: String, line: SQInteger, column: SQInteger)
        requires
            old(self).is_live(),
        ensures
            final(self).is_live(),
            final(self).slot() == Some(
                CompilerError { desc: desc, source: source, line: line, column: column },
            ),
            final(self).data().unwrap().print == old(self).data().unwrap().print,
            final(self).data().unwrap().error == old(self).data().unwrap().error,
            final(self).is_friend() == old(self).is_friend(),
            final(self).stack_size() == old(self).stack_size(),
    {
        match &mut self.stage {
            Stage::Live(data) => data.err_handler(desc, source, line, column),
            _ => {},
        }
    }
}

impl<P: ByteSink, E: ByteSink> SquirrelVM<P, E> {
    /// Whether `self` is `before` with its diagnostic slot set to `slot`.
    pub open spec fn is_with_slot(self, before: Self, slot: Option<CompilerError>) -> bool {
        &&& self.is_live()
        &&& before.is_live()
        &&& self.slot() == slot
        &&& self.data().unwrap().print == before.data().unwrap().print
        &&& self.data().unwrap().error == before.data().unwrap().error
        &&& self.is_friend() == before.is_friend()
        &&& self.stack_size() == before.stack_size()
    }

    fn set_slot(&mut self, slot: Option<CompilerError>)
        requires
            old(self).is_live(),
        ensures
            final(self).is_with_slot(*old(self), slot),
    {
        match &mut self.stage {
            Stage::Live(data) => {
                data.compiler_error = slot;
            },
            _ => {},
        }
    }

    /// Compiles a Squirrel script stored in a `&str`.
    ///
    /// `src` holds the source code of the script, `name` is the symbolic
    /// name of the script, which diagnostics carry as their source label.
    /// Neither may hold a zero byte: the first one found, in `src` before
    /// `name`, is reported and nothing else happens. Otherwise the
    /// diagnostic slot is emptied and the call to make is returned: the
    /// whole source in one buffer, measured in bytes, with errors raised.
    pub fn compile_str(&mut self, src: &str, name: &str) -> (r: Result<EngineCall, NulError>)
        requires
            old(self).is_live(),
        ensures
            match r {
                Ok(call) => {
                    &&& is_c_text(src.spec_bytes())
                    &&& is_c_text(name.spec_bytes())
                    &&& final(self).is_with_slot(*old(self), None)
                    &&& call matches EngineCall::CompileBuffer { source, size, source_name, raise_error }
                    &&& source@ == src@
                    &&& size == src.spec_bytes().len() as SQInteger
                    &&& source_name@ == name@
                    &&& raise_error == 1
                },
                Err(e) => {
                    &&& *final(self) == *old(self)
                    &&& if is_c_text(src.spec_bytes()) {
                        is_first_nul(name.spec_bytes(), e.position as int)
                    } else {
                        is_first_nul(src.spec_bytes(), e.position as int)
                    }
                },
            },
    {
        let source = match c_text(src) {
            Ok(owned) => owned,
            Err(e) => {
                return Err(e);
            },
        };
        let source_name = match c_text(name) {
            Ok(owned) => owned,
            Err(e) => {
                return Err(e);
            },
        };
        let size = buffer_size(src);
        self.set_slot(None);
        Ok(
            EngineCall::CompileBuffer {
                source: source,
                size: size,
                source_name: source_name,
                raise_error: sq_bool(true),
            },
        )
    }

    /// Compiles a Squirrel script that is read character by character.
    ///
    /// `name` is the symbolic name of the script, which diagnostics carry
    /// as their source label; it may hold no zero byte. The host feeds the
    /// engine the characters, each through `read_fn`. The diagnostic slot is
    /// emptied and the call to make is returned, with errors raised.
    pub fn compile(&mut self, name: &str) -> (r: Result<EngineCall, NulError>)
        requires
            old(self).is_live(),
        ensures
            match r {
                Ok(call) => {
                    &&& is_c_text(name.spec_bytes())
                    &&& final(self).is_with_slot(*old(self), None)
                    &&& call matches EngineCall::Compile { source_name, raise_error }
                    &&& source_name@ == name@
                    &&& raise_error == 1
                },
                Err(e) => {
                    &&& *final(self) == *old(self)
                    &&& is_first_nul(name.spec_bytes(), e.position as int)
                },
            },
    {
        let source_name = match c_text(name) {
            Ok(owned) => owned,
            Err(e) => {
                return Err(e);
            },
        };
        self.set_slot(None);
        Ok(EngineCall::Compile { source_name: source_name, raise_error: sq_bool(true) })
    }

    /// Ends a compile that the engine has answered with `result`.
    ///
    /// A success is reported as such and leaves the diagnostic slot alone.
    /// A failure empties the slot and returns what it held: the compiler
    /// error that the hook stored, or, where the hook never ran, the report
    /// that none was made. On failure the engine leaves the depth of the
    /// stack undefined: the caller restores it.
    pub fn compile_result(&mut self, result: SQRESULT) -> (outcome: CompileOutcome)
        requires
            old(self).is_live(),
        ensures
            outcome == compile_outcome(result, old(self).slot()),
            final(self).is_with_slot(*old(self), slot_after_compile(result, old(self).slot())),
    {
        match &mut self.stage {
            Stage::Live(data) => read_diagnostic(result, &mut data.compiler_error),
            _ => CompileOutcome::Unreported,
        }
    }
}

} // verus!
