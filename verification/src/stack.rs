//! The per-invocation stack frame: a locals array and a LIFO operand
//! stack, with typed push/pop helpers.

use vstd::prelude::*;
use crate::interpreter::InterpreterError;
use crate::value::Value;

verus! {

/// One method invocation's working state: the locals array, sized at
/// frame construction, and the operand stack.
#[derive(Debug)]
pub struct StackFrame {
    pub locals: Vec<Value>,
    pub stack: Vec<Value>,
}

/// The view of a [`StackFrame`].
#[verifier::ext_equal]
pub ghost struct FrameV {
    pub locals: Seq<Value>,
    pub stack: Seq<Value>,
}

impl View for StackFrame {
    type V = FrameV;

    open spec fn view(&self) -> FrameV {
        FrameV { locals: self.locals@, stack: self.stack@ }
    }
}

/// Popping an untyped operand: the top of stack and what remains, or a
/// stack-underflow error.
pub open spec fn spop(stack: Seq<Value>) -> Result<(Value, Seq<Value>), InterpreterError> {
    if stack.len() == 0 {
        Err(InterpreterError::StackUnderflow)
    } else {
        Ok((stack.last(), stack.drop_last()))
    }
}

/// Popping an integer operand: underflow if the stack is empty, a
/// wrong-operand error if the top is not the integer variant.
pub open spec fn spop_int(stack: Seq<Value>) -> Result<(i32, Seq<Value>), InterpreterError> {
    match spop(stack) {
        Ok((v, rest)) => match v {
            Value::Integer(i) => Ok((i, rest)),
            _ => Err(InterpreterError::UnexpectedOperand),
        },
        Err(e) => Err(e),
    }
}

/// Popping an object-reference operand, giving the handle it carries.
pub open spec fn spop_object_ref(stack: Seq<Value>) -> Result<(usize, Seq<Value>), InterpreterError> {
    match spop(stack) {
        Ok((v, rest)) => match v {
            Value::ObjectRef(h) => Ok((h, rest)),
            _ => Err(InterpreterError::UnexpectedOperand),
        },
        Err(e) => Err(e),
    }
}

/// Popping an integer-array-reference operand, giving the handle it
/// carries.
pub open spec fn spop_int_array(stack: Seq<Value>) -> Result<(usize, Seq<Value>), InterpreterError> {
    match spop(stack) {
        Ok((v, rest)) => match v {
            Value::IntegerArrayRef(h) => Ok((h, rest)),
            _ => Err(InterpreterError::UnexpectedOperand),
        },
        Err(e) => Err(e),
    }
}

/// The top `count` stack values in pop order: the topmost first.
pub open spec fn popped_lifo(stack: Seq<Value>, count: int) -> Seq<Value> {
    Seq::new(count as nat, |i: int| stack[stack.len() - 1 - i])
}

impl StackFrame {
    /// Pops the top operand; `None` on an empty stack.
    pub fn pop(&mut self) -> (r: Option<Value>)
        ensures
            final(self)@.locals == old(self)@.locals,
            match spop(old(self)@.stack) {
                Ok((v, rest)) => r == Some(v) && final(self)@.stack == rest,
                Err(_) => r is None && final(self)@.stack == old(self)@.stack,
            },
    {
        self.stack.pop()
    }

    /// Pops `count` operands in LIFO order (topmost first); `None`,
    /// leaving the stack drained, when fewer are present.
    pub fn pop_many(&mut self, count: usize) -> (r: Option<Vec<Value>>)
        ensures
            final(self)@.locals == old(self)@.locals,
            match r {
                Some(values) => {
                    &&& count <= old(self)@.stack.len()
                    &&& values@ == popped_lifo(old(self)@.stack, count as int)
                    &&& final(self)@.stack == old(self)@.stack.take(
                        old(self)@.stack.len() - count,
                    )
                },
                None => count > old(self)@.stack.len() && final(self)@.stack == Seq::<
                    Value,
                >::empty(),
            },
    {
        let mut values: Vec<Value> = Vec::new();
        let mut i: usize = 0;
        while i < count
            invariant
                i <= count,
                i <= old(self)@.stack.len(),
                self@.locals == old(self)@.locals,
                self@.stack == old(self)@.stack.take(old(self)@.stack.len() - i),
                values@.len() == i,
                forall|k: int|
                    0 <= k < i ==> values@[k] == old(self)@.stack[old(self)@.stack.len() - 1 - k],
            decreases count - i,
        {
            let value = match self.pop() {
                Some(v) => v,
                None => {
                    proof {
                        assert(old(self)@.stack.len() == i);
                        assert(self@.stack =~= Seq::<Value>::empty());
                    }
                    return None;
                },
            };
            proof {
                let os = old(self)@.stack;
                assert(os.take(os.len() - i).last() == os[os.len() - 1 - i]);
                assert(os.take(os.len() - i).drop_last() =~= os.take(os.len() - (i + 1)));
            }
            values.push(value);
            i = i + 1;
        }
        proof {
            assert(values@ =~= popped_lifo(old(self)@.stack, count as int));
        }
        Some(values)
    }

    /// Pushes an operand.
    pub fn push(&mut self, operand: Value)
        ensures
            final(self)@.locals == old(self)@.locals,
            final(self)@.stack == old(self)@.stack.push(operand),
    {
        self.stack.push(operand)
    }

    /// The value in local slot `index`.
    pub fn get_local(&self, index: usize) -> (r: &Value)
        requires
            index < self@.locals.len(),
        ensures
            *r == self@.locals[index as int],
    {
        &self.locals[index]
    }

    /// Replaces the value in local slot `index`.
    pub fn set_local(&mut self, index: usize, var: Value)
        requires
            index < old(self)@.locals.len(),
        ensures
            final(self)@.locals == old(self)@.locals.update(index as int, var),
            final(self)@.stack == old(self)@.stack,
    {
        self.locals[index] = var
    }

    /// Pushes an integer operand.
    pub fn push_int(&mut self, integer: i32)
        ensures
            final(self)@.locals == old(self)@.locals,
            final(self)@.stack == old(self)@.stack.push(Value::Integer(integer)),
    {
        self.push(Value::Integer(integer))
    }

    /// Pops an operand that must be the integer variant.
    pub fn pop_int(&mut self) -> (r: Result<i32, InterpreterError>)
        ensures
            final(self)@.locals == old(self)@.locals,
            match spop_int(old(self)@.stack) {
                Ok((i, rest)) => r == Ok::<_, InterpreterError>(i) && final(self)@.stack == rest,
                Err(e) => r == Err::<i32, _>(e),
            },
    {
        match self.pop() {
            Some(Value::Integer(i)) => Ok(i),
            Some(_) => Err(InterpreterError::UnexpectedOperand),
            None => Err(InterpreterError::StackUnderflow),
        }
    }

    /// The integer in local slot `index`; a wrong-operand error when the
    /// slot holds another variant.
    pub fn get_int_local(&self, index: usize) -> (r: Result<i32, InterpreterError>)
        requires
            index < self@.locals.len(),
        ensures
            match self@.locals[index as int] {
                Value::Integer(i) => r == Ok::<_, InterpreterError>(i),
                _ => r == Err::<i32, _>(InterpreterError::UnexpectedOperand),
            },
    {
        let operand = self.get_local(index);
        match operand {
            Value::Integer(i) => Ok(*i),
            _ => Err(InterpreterError::UnexpectedOperand),
        }
    }

    /// Stores an integer into local slot `index`.
    pub fn set_int_local(&mut self, index: usize, value: i32)
        requires
            index < old(self)@.locals.len(),
        ensures
            final(self)@.locals == old(self)@.locals.update(
                index as int,
                Value::Integer(value),
            ),
            final(self)@.stack == old(self)@.stack,
    {
        self.set_local(index, Value::Integer(value))
    }

    /// Pops an operand that must be an integer-array reference, giving
    /// its handle.
    pub fn pop_int_array(&mut self) -> (r: Result<usize, InterpreterError>)
        ensures
            final(self)@.locals == old(self)@.locals,
            match spop_int_array(old(self)@.stack) {
                Ok((h, rest)) => r == Ok::<_, InterpreterError>(h) && final(self)@.stack == rest,
                Err(e) => r == Err::<usize, _>(e),
            },
    {
        match self.pop() {
            Some(Value::IntegerArrayRef(reference)) => Ok(reference),
            Some(_) => Err(InterpreterError::UnexpectedOperand),
            None => Err(InterpreterError::StackUnderflow),
        }
    }

    /// Pushes an object reference.
    pub fn push_object_reference(&mut self, reference: usize)
        ensures
            final(self)@.locals == old(self)@.locals,
            final(self)@.stack == old(self)@.stack.push(Value::ObjectRef(reference)),
    {
        self.push(Value::ObjectRef(reference))
    }

    /// Pops an operand that must be an object reference, giving its
    /// handle.
    pub fn pop_object_reference(&mut self) -> (r: Result<usize, InterpreterError>)
        ensures
            final(self)@.locals == old(self)@.locals,
            match spop_object_ref(old(self)@.stack) {
                Ok((h, rest)) => r == Ok::<_, InterpreterError>(h) && final(self)@.stack == rest,
                Err(e) => r == Err::<usize, _>(e),
            },
    {
        match self.pop() {
            Some(Value::ObjectRef(reference)) => Ok(reference),
            Some(_) => Err(InterpreterError::UnexpectedOperand),
            None => Err(InterpreterError::StackUnderflow),
        }
    }

    /// A frame with `max_locals` null-initialized local slots and an
    /// empty operand stack.
    pub fn new_frame(max_stack: u16, max_locals: u16) -> (r: StackFrame)
        ensures
            r@.locals == Seq::new(max_locals as nat, |i: int| Value::Null),
            r@.stack == Seq::<Value>::empty(),
    {
        Self::new_frame_with_locals(max_stack, max_locals, Vec::new())
    }

    /// A frame whose local slots start with `locals` (the invocation's
    /// receiver and arguments, in order) padded with nulls up to
    /// `max_locals`, and an empty operand stack.
    pub fn new_frame_with_locals(max_stack: u16, max_locals: u16, locals: Vec<Value>) -> (r:
        StackFrame)
        requires
            locals@.len() <= max_locals,
        ensures
            r@.locals == locals@ + Seq::new(
                (max_locals - locals@.len()) as nat,
                |i: int| Value::Null,
            ),
            r@.stack == Seq::<Value>::empty(),
    {
        let ghost orig = locals@;
        let mut locals = locals;
        let target = max_locals as usize;
        while locals.len() < target
            invariant
                orig.len() <= locals@.len() <= target,
                locals@ == orig + Seq::new((locals@.len() - orig.len()) as nat, |i: int| Value::Null),
            decreases target - locals@.len(),
        {
            proof {
                let k = (locals@.len() - orig.len()) as nat;
                assert(locals@.push(Value::Null) =~= orig + Seq::new(
                    (k + 1) as nat,
                    |i: int| Value::Null,
                ));
            }
            locals.push(Value::Null);
        }
        proof {
            assert(locals@ == orig + Seq::new((target - orig.len()) as nat, |i: int| Value::Null));
        }
        let frame = StackFrame { locals, stack: Vec::new() };
        frame
    }
}

} // verus!
