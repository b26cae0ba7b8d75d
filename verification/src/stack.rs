//! The value stack protocol: how positions on a VM's operand stack are
//! named, and what the stack calls do to it.
//!
//! The engine owns the stack. What is fixed on the host's side is the index
//! convention and the effect of the calls that move values by position; this
//! module states both over a model of the stack, bottom first.
use vstd::prelude::*;
use crate::call::EngineCall;
use crate::sys::SQInteger;

verus! {

/// A value on the stack, as far as the host can tell values apart.
#[derive(Debug, Clone, PartialEq, Eq)]
pub enum Value {
    Null,
    Integer(SQInteger),
    Bool(bool),
    Text(String),
}

impl Value {
    /// A second copy of the value.
    pub fn duplicate(&self) -> (copy: Value)
        ensures
            copy == *self,
    {
        match self {
            Value::Null => Value::Null,
            Value::Integer(n) => Value::Integer(*n),
            Value::Bool(b) => Value::Bool(*b),
            Value::Text(text) => Value::Text(text.clone()),
        }
    }
}

/// The place, counted from zero at the bottom, that `idx` names on a stack
/// of `depth` values: positive indices count from the bottom, starting at
/// one; negative indices count from the top, starting at minus one.
pub open spec fn position(depth: int, idx: int) -> Option<int> {
    if 1 <= idx <= depth {
        Some(idx - 1)
    } else if -depth <= idx <= -1 {
        Some(depth + idx)
    } else {
        None
    }
}

/// The value that `idx` names on `stack`.
pub open spec fn value_at(stack: Seq<Value>, idx: int) -> Option<Value> {
    match position(stack.len() as int, idx) {
        Some(at) => Some(stack[at]),
        None => None,
    }
}

/// `stack` cut down or filled up with nulls to `depth` values.
pub open spec fn resized(stack: Seq<Value>, depth: int) -> Seq<Value>
    recommends
        depth >= 0,
{
    Seq::new(
        depth as nat,
        |i: int|
            if i < stack.len() {
                stack[i]
            } else {
                Value::Null
            },
    )
}

/// What a call of the value stack protocol makes of `stack`; `None` for
/// every call whose effect on the stack only the engine knows. A call that
/// names a position the stack does not have, or asks to pop more than it
/// holds, leaves the stack as it is.
pub open spec fn stack_effect(stack: Seq<Value>, call: EngineCall) -> Option<Seq<Value>> {
    match call {
        EngineCall::PushNull => Some(stack.push(Value::Null)),
        EngineCall::PushInteger { value } => Some(stack.push(Value::Integer(value))),
        EngineCall::PushBool { value } => Some(stack.push(Value::Bool(value != 0))),
        EngineCall::PushString { text, len } => Some(stack.push(Value::Text(text))),
        EngineCall::Push { idx } => match value_at(stack, idx as int) {
            Some(value) => Some(stack.push(value)),
            None => Some(stack),
        },
        EngineCall::Pop { count } => if 0 <= count <= stack.len() {
            Some(stack.take(stack.len() - count))
        } else {
            Some(stack)
        },
        EngineCall::PopTop => if stack.len() >= 1 {
            Some(stack.drop_last())
        } else {
            Some(stack)
        },
        EngineCall::Remove { idx } => match position(stack.len() as int, idx as int) {
            Some(at) => Some(stack.remove(at)),
            None => Some(stack),
        },
        EngineCall::SetTop { new_top } => if new_top >= 0 {
            Some(resized(stack, new_top as int))
        } else {
            Some(stack)
        },
        EngineCall::GetTop => Some(stack),
        _ => None,
    }
}

/// Stack index duality: on a stack of depth `d`, the index `i` between one
/// and `d` and its negative form `i - d - 1` name the same place, and so the
/// same value.
pub proof fn index_duality(stack: Seq<Value>, i: int)
    requires
        1 <= i <= stack.len(),
    ensures
        position(stack.len() as int, i) == position(stack.len() as int, i - stack.len() - 1),
        value_at(stack, i) == value_at(stack, i - stack.len() - 1),
        value_at(stack, i) == Some(stack[i - 1]),
{
}

/// Whether `call` puts exactly one more value on `stack`: a push of a host
/// value, or of a copy of a value that the stack holds.
pub open spec fn is_push(stack: Seq<Value>, call: EngineCall) -> bool {
    ||| call is PushNull
    ||| call is PushInteger
    ||| call is PushBool
    ||| call is PushString
    ||| (call matches EngineCall::Push { idx } && position(stack.len() as int, idx as int) is Some)
}

/// Push then pop: a push followed at once by a pop of one value, in either
/// form, leaves the depth of the stack and every slot as they were.
pub proof fn push_then_pop_restores(stack: Seq<Value>, push: EngineCall)
    requires
        is_push(stack, push),
    ensures
        stack_effect(stack, push) is Some,
        stack_effect(stack, push).unwrap().len() == stack.len() + 1,
        stack_effect(stack_effect(stack, push).unwrap(), EngineCall::Pop { count: 1 }) == Some(
            stack,
        ),
        stack_effect(stack_effect(stack, push).unwrap(), EngineCall::PopTop) == Some(stack),
{
    let pushed = stack_effect(stack, push).unwrap();
    assert(pushed.take(pushed.len() - 1) =~= stack);
    assert(pushed.drop_last() =~= stack);
}

/// A model of one operand stack, bottom first.
#[derive(Debug, Clone, PartialEq, Eq)]
pub struct ValueStack {
    pub slots: Vec<Value>,
}

impl View for ValueStack {
    type V = Seq<Value>;

    open spec fn view(&self) -> Seq<Value> {
        self.slots@
    }
}

impl ValueStack {
    /// An empty stack.
    pub fn new() -> (stack: ValueStack)
        ensures
            stack@ == Seq::<Value>::empty(),
    {
        ValueStack { slots: Vec::new() }
    }

    /// The number of values on the stack.
    pub fn depth(&self) -> (depth: usize)
        ensures
            depth == self@.len(),
    {
        self.slots.len()
    }

    /// The place that `idx` names on this stack, counted from zero at the
    /// bottom, if it names one.
    pub fn locate(&self, idx: SQInteger) -> (at: Option<usize>)
        ensures
            match at {
                Some(k) => position(self@.len() as int, idx as int) == Some(k as int),
                None => position(self@.len() as int, idx as int) is None,
            },
    {
        let depth: i128 = self.slots.len() as i128;
        let wanted: i128 = idx as i128;
        if 1 <= wanted && wanted <= depth {
            Some((wanted - 1) as usize)
        } else if -depth <= wanted && wanted <= -1 {
            Some((depth + wanted) as usize)
        } else {
            None
        }
    }

    /// The value that `idx` names, if it names one.
    pub fn get(&self, idx: SQInteger) -> (value: Option<&Value>)
        ensures
            match value {
                Some(v) => value_at(self@, idx as int) == Some(*v),
                None => value_at(self@, idx as int) is None,
            },
    {
        match self.locate(idx) {
            Some(at) => Some(&self.slots[at]),
            None => None,
        }
    }

    /// Cuts the stack down, or fills it up with nulls, to `depth` values.
    pub fn resize(&mut self, depth: usize)
        ensures
            final(self)@ == resized(old(self)@, depth as int),
    {
        if depth <= self.slots.len() {
            self.slots.truncate(depth);
        } else {
            while self.slots.len() < depth
                invariant
                    old(self)@.len() <= self.slots@.len() <= depth,
                    self.slots@ =~= resized(old(self)@, self.slots@.len() as int),
                decreases depth - self.slots.len(),
            {
                self.slots.push(Value::Null);
            }
        }
        assert(self.slots@ =~= resized(old(self)@, depth as int));
    }

    /// Does to the stack what `call` does to the engine's, where the value
    /// stack protocol fixes that; says whether it does.
    pub fn perform(&mut self, call: &EngineCall) -> (known: bool)
        ensures
            match stack_effect(old(self)@, *call) {
                Some(after) => known && final(self)@ == after,
                None => !known && final(self)@ == old(self)@,
            },
    {
        match call {
            EngineCall::PushNull => {
                self.slots.push(Value::Null);
                true
            },
            EngineCall::PushInteger { value } => {
                self.slots.push(Value::Integer(*value));
                true
            },
            EngineCall::PushBool { value } => {
                self.slots.push(Value::Bool(*value != 0));
                true
            },
            EngineCall::PushString { text, len } => {
                self.slots.push(Value::Text(text.clone()));
                true
            },
            EngineCall::Push { idx } => {
                match self.locate(*idx) {
                    Some(at) => {
                        let copy = self.slots[at].duplicate();
                        self.slots.push(copy);
                    },
                    None => {},
                }
                true
            },
            EngineCall::Pop { count } => {
                let depth: usize = self.slots.len();
                if 0 <= *count && (*count as i128) <= (depth as i128) {
                    self.slots.truncate(depth - (*count as usize));
                }
                true
            },
            EngineCall::PopTop => {
                let depth: usize = self.slots.len();
                if depth >= 1 {
                    self.slots.truncate(depth - 1);
                    assert(self.slots@ =~= old(self)@.drop_last());
                }
                true
            },
            EngineCall::Remove { idx } => {
                match self.locate(*idx) {
                    Some(at) => {
                        let _ = self.slots.remove(at);
                    },
                    None => {},
                }
                true
            },
            EngineCall::SetTop { new_top } => {
                if *new_top >= 0 {
                    self.resize(*new_top as usize);
                }
                true
            },
            EngineCall::GetTop => true,
            _ => false,
        }
    }

    /// Copies the value that `idx` names on this stack onto the top of
    /// `dest`; both stacks hold their own copy afterwards. Where `idx` names
    /// no value, `dest` is left as it is.
    pub fn move_item(&self, dest: &mut ValueStack, idx: SQInteger)
        ensures
            final(dest)@ == match value_at(self@, idx as int) {
                Some(value) => old(dest)@.push(value),
                None => old(dest)@,
            },
    {
        match self.locate(idx) {
            Some(at) => {
                let copy = self.slots[at].duplicate();
                dest.slots.push(copy);
            },
            None => {},
        }
    }
}

} // verus!
