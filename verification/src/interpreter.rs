//! The instruction-dispatch loop: drives a stack frame through a method's
//! decoded instruction sequence, performing control transfer, arithmetic,
//! field and array access, and method invocation.

use vstd::prelude::*;
use vstd::wrapping::i32_specs;
use crate::classfile::{cp_class_name, cp_field_ref, cp_method_ref};
use crate::descriptor::{MethodDescriptor, parse_method_descriptor};
use crate::heap::{Heap, HeapV, ObjectV};
use crate::instruction::{Instruction, TaggedInstruction};
use crate::rtclass::{
    ClassTable, RuntimeClass, RuntimeClassV, RuntimeMethod, RuntimeMethodV, default_fields_spec,
    field_slot, find_class_index, find_runtime_method,
};
use crate::stack::{FrameV, StackFrame, spop, spop_int, spop_int_array, spop_object_ref};
use crate::value::Value;

verus! {

/// What executing one instruction asks of the dispatch loop: advance,
/// transfer control by a byte-relative offset, or leave the method.
#[derive(Clone, Copy, Debug, PartialEq, Eq, Structural)]
pub enum Step {
    Next,
    Jump(i16),
    Return(Value),
    ReturnVoid,
    /// Exception dispatch is a stub: no instruction currently yields this
    /// step, and the dispatch loop maps it to an error.
    Throw(Value),
}

/// What an invocation produced for its caller.
#[derive(Clone, Copy, Debug, PartialEq, Eq, Structural)]
pub enum InvokeResult {
    Void,
    Value(Value),
    Exception,
}

/// Why an interpretation aborted. A method invocation either fully
/// completes with an [`InvokeResult`] or aborts with one of these; there
/// is no partial-completion state.
#[derive(Clone, Copy, Debug, PartialEq, Eq, Structural)]
pub enum InterpreterError {
    /// The instruction is decoded but not supported by this interpreter.
    UnhandledInstruction(Instruction),
    /// An operand was present but carried the wrong tag.
    UnexpectedOperand,
    /// `newarray` named an array-type code other than the integer one.
    InvalidArrayType,
    /// A pop found the operand stack empty.
    StackUnderflow,
    /// A local-variable or array index lay outside its bounds.
    IndexOutOfBounds,
    /// A reference value carried a handle with no record behind it.
    InvalidReference,
    /// `newarray` popped a negative element count.
    NegativeArraySize,
    /// A named class was not registered in the class table.
    ClassNotFound,
    /// A named field is not declared by the owning class.
    FieldNotFound,
    /// A named method is not declared by the owning class.
    MethodNotFound,
    /// A constant-pool entry was missing or of the wrong kind.
    InvalidConstantPoolEntry,
    /// A method descriptor failed to parse.
    InvalidMethodDescriptor,
    /// A branch target named a byte offset at which no instruction starts.
    InvalidBranchTarget,
    /// Execution ran past the last instruction without returning.
    MissingReturn,
    /// An invocation carried more arguments than the callee has local
    /// slots.
    TooManyArguments,
    /// Nested invocation exhausted the call-depth allowance.
    CallDepthExceeded,
    /// The dispatch loop exhausted its step allowance.
    StepLimitExceeded,
}

/// The whole machine state one instruction acts on: the current frame and
/// the heap.
#[verifier::ext_equal]
pub ghost struct State {
    pub frame: FrameV,
    pub heap: HeapV,
}

/// `s` with the operand stack replaced.
pub open spec fn with_stack(s: State, stack: Seq<Value>) -> State {
    State { frame: FrameV { locals: s.frame.locals, stack }, heap: s.heap }
}

/// `s` with locals and operand stack replaced.
pub open spec fn with_frame(s: State, locals: Seq<Value>, stack: Seq<Value>) -> State {
    State { frame: FrameV { locals, stack }, heap: s.heap }
}

/// Loading local slot `idx` onto the stack, untyped.
pub open spec fn step_aload(s: State, idx: int) -> Result<(Step, State), InterpreterError> {
    if idx >= s.frame.locals.len() {
        Err(InterpreterError::IndexOutOfBounds)
    } else {
        Ok((Step::Next, with_stack(s, s.frame.stack.push(s.frame.locals[idx]))))
    }
}

/// Popping the top of stack, untyped, into local slot `idx`.
pub open spec fn step_astore(s: State, idx: int) -> Result<(Step, State), InterpreterError> {
    match spop(s.frame.stack) {
        Ok((v, rest)) => if idx >= s.frame.locals.len() {
            Err(InterpreterError::IndexOutOfBounds)
        } else {
            Ok((Step::Next, with_frame(s, s.frame.locals.update(idx, v), rest)))
        },
        Err(e) => Err(e),
    }
}

/// Loading the integer in local slot `idx` onto the stack.
pub open spec fn step_iload(s: State, idx: int) -> Result<(Step, State), InterpreterError> {
    if idx >= s.frame.locals.len() {
        Err(InterpreterError::IndexOutOfBounds)
    } else {
        match s.frame.locals[idx] {
            Value::Integer(i) => Ok(
                (Step::Next, with_stack(s, s.frame.stack.push(Value::Integer(i)))),
            ),
            _ => Err(InterpreterError::UnexpectedOperand),
        }
    }
}

/// Popping an integer into local slot `idx`.
pub open spec fn step_istore(s: State, idx: int) -> Result<(Step, State), InterpreterError> {
    match spop_int(s.frame.stack) {
        Ok((i, rest)) => if idx >= s.frame.locals.len() {
            Err(InterpreterError::IndexOutOfBounds)
        } else {
            Ok((Step::Next, with_frame(s, s.frame.locals.update(idx, Value::Integer(i)), rest)))
        },
        Err(e) => Err(e),
    }
}

/// Pushing an integer constant.
pub open spec fn step_push_int(s: State, i: i32) -> Result<(Step, State), InterpreterError> {
    Ok((Step::Next, with_stack(s, s.frame.stack.push(Value::Integer(i)))))
}

/// A two-operand integer instruction: pops the second then the first
/// operand and pushes `f(first, second)`.
pub open spec fn step_arith(s: State, f: spec_fn(i32, i32) -> i32) -> Result<
    (Step, State),
    InterpreterError,
> {
    match spop_int(s.frame.stack) {
        Ok((v2, st1)) => match spop_int(st1) {
            Ok((v1, st2)) => Ok(
                (Step::Next, with_stack(s, st2.push(Value::Integer(f(v1, v2))))),
            ),
            Err(e) => Err(e),
        },
        Err(e) => Err(e),
    }
}

/// A two-operand comparison branch: pops the second then the first
/// operand and jumps when `taken(first, second)` holds.
pub open spec fn step_if_icmp(s: State, off: i16, taken: spec_fn(i32, i32) -> bool) -> Result<
    (Step, State),
    InterpreterError,
> {
    match spop_int(s.frame.stack) {
        Ok((v2, st1)) => match spop_int(st1) {
            Ok((v1, st2)) => Ok(
                (if taken(v1, v2) {
                    Step::Jump(off)
                } else {
                    Step::Next
                }, with_stack(s, st2)),
            ),
            Err(e) => Err(e),
        },
        Err(e) => Err(e),
    }
}

/// A one-operand comparison branch against zero.
pub open spec fn step_if(s: State, off: i16, taken: spec_fn(i32) -> bool) -> Result<
    (Step, State),
    InterpreterError,
> {
    match spop_int(s.frame.stack) {
        Ok((v, rest)) => Ok(
            (if taken(v) {
                Step::Jump(off)
            } else {
                Step::Next
            }, with_stack(s, rest)),
        ),
        Err(e) => Err(e),
    }
}

/// A null-check branch: pops a value and branches on its null-ness
/// without type-checking the non-null case.
pub open spec fn step_ifnull(s: State, off: i16, jump_on_null: bool) -> Result<
    (Step, State),
    InterpreterError,
> {
    match spop(s.frame.stack) {
        Ok((v, rest)) => {
            let is_null = v is Null;
            Ok(
                (if is_null == jump_on_null {
                    Step::Jump(off)
                } else {
                    Step::Next
                }, with_stack(s, rest)),
            )
        },
        Err(e) => Err(e),
    }
}

/// Incrementing the integer in local slot `idx` by a constant, with
/// wrap-around arithmetic.
pub open spec fn step_iinc(s: State, idx: int, constant: i8) -> Result<
    (Step, State),
    InterpreterError,
> {
    if idx >= s.frame.locals.len() {
        Err(InterpreterError::IndexOutOfBounds)
    } else {
        match s.frame.locals[idx] {
            Value::Integer(l) => Ok(
                (
                    Step::Next,
                    with_frame(
                        s,
                        s.frame.locals.update(
                            idx,
                            Value::Integer(i32_specs::wrapping_add(l, constant as i32)),
                        ),
                        s.frame.stack,
                    ),
                ),
            ),
            _ => Err(InterpreterError::UnexpectedOperand),
        }
    }
}

/// Reading a named field out of the object whose reference is on top of
/// the stack.
pub open spec fn step_getfield(
    table: Seq<RuntimeClassV>,
    cls: RuntimeClassV,
    s: State,
    index: u16,
) -> Result<(Step, State), InterpreterError> {
    match spop_object_ref(s.frame.stack) {
        Ok((h, rest)) => match cp_field_ref(cls.constant_pool, index) {
            Ok(mref) => if h >= s.heap.objects.len() {
                Err(InterpreterError::InvalidReference)
            } else {
                let obj = s.heap.objects[h as int];
                if obj.class_index >= table.len() {
                    Err(InterpreterError::InvalidReference)
                } else {
                    match field_slot(table[obj.class_index as int].fields, mref.name, 0) {
                        Some(i) => if 0 <= i < obj.fields.len() {
                            Ok((Step::Next, with_stack(s, rest.push(obj.fields[i]))))
                        } else {
                            Err(InterpreterError::FieldNotFound)
                        },
                        None => Err(InterpreterError::FieldNotFound),
                    }
                }
            },
            Err(_) => Err(InterpreterError::InvalidConstantPoolEntry),
        },
        Err(e) => Err(e),
    }
}

/// Writing a named field of the object whose reference sits under the
/// value on top of the stack.
pub open spec fn step_putfield(
    table: Seq<RuntimeClassV>,
    cls: RuntimeClassV,
    s: State,
    index: u16,
) -> Result<(Step, State), InterpreterError> {
    match spop(s.frame.stack) {
        Ok((v, st1)) => match spop_object_ref(st1) {
            Ok((h, st2)) => match cp_field_ref(cls.constant_pool, index) {
                Ok(mref) => if h >= s.heap.objects.len() {
                    Err(InterpreterError::InvalidReference)
                } else {
                    let obj = s.heap.objects[h as int];
                    if obj.class_index >= table.len() {
                        Err(InterpreterError::InvalidReference)
                    } else {
                        match field_slot(table[obj.class_index as int].fields, mref.name, 0) {
                            Some(i) => if 0 <= i < obj.fields.len() {
                                Ok(
                                    (
                                        Step::Next,
                                        State {
                                            frame: FrameV { locals: s.frame.locals, stack: st2 },
                                            heap: HeapV {
                                                objects: s.heap.objects.update(
                                                    h as int,
                                                    ObjectV {
                                                        class_index: obj.class_index,
                                                        fields: obj.fields.update(i, v),
                                                    },
                                                ),
                                                arrays: s.heap.arrays,
                                            },
                                        },
                                    ),
                                )
                            } else {
                                Err(InterpreterError::FieldNotFound)
                            },
                            None => Err(InterpreterError::FieldNotFound),
                        }
                    }
                },
                Err(_) => Err(InterpreterError::InvalidConstantPoolEntry),
            },
            Err(e) => Err(e),
        },
        Err(e) => Err(e),
    }
}

/// Loading an element of the integer array whose reference sits under the
/// index on top of the stack.
pub open spec fn step_iaload(s: State) -> Result<(Step, State), InterpreterError> {
    match spop_int(s.frame.stack) {
        Ok((index, st1)) => match spop_int_array(st1) {
            Ok((h, st2)) => if h >= s.heap.arrays.len() {
                Err(InterpreterError::InvalidReference)
            } else if index < 0 || index >= s.heap.arrays[h as int].len() {
                Err(InterpreterError::IndexOutOfBounds)
            } else {
                Ok(
                    (
                        Step::Next,
                        with_stack(
                            s,
                            st2.push(Value::Integer(s.heap.arrays[h as int][index as int])),
                        ),
                    ),
                )
            },
            Err(e) => Err(e),
        },
        Err(e) => Err(e),
    }
}

/// Storing an element of the integer array addressed by the reference
/// under the index and value on top of the stack.
pub open spec fn step_iastore(s: State) -> Result<(Step, State), InterpreterError> {
    match spop_int(s.frame.stack) {
        Ok((value, st1)) => match spop_int(st1) {
            Ok((index, st2)) => match spop_int_array(st2) {
                Ok((h, st3)) => if h >= s.heap.arrays.len() {
                    Err(InterpreterError::InvalidReference)
                } else if index < 0 || index >= s.heap.arrays[h as int].len() {
                    Err(InterpreterError::IndexOutOfBounds)
                } else {
                    Ok(
                        (
                            Step::Next,
                            State {
                                frame: FrameV { locals: s.frame.locals, stack: st3 },
                                heap: HeapV {
                                    objects: s.heap.objects,
                                    arrays: s.heap.arrays.update(
                                        h as int,
                                        s.heap.arrays[h as int].update(index as int, value),
                                    ),
                                },
                            },
                        ),
                    )
                },
                Err(e) => Err(e),
            },
            Err(e) => Err(e),
        },
        Err(e) => Err(e),
    }
}

/// Allocating a fresh object of the class the constant pool names,
/// seeded with its default field values.
pub open spec fn step_new(
    table: Seq<RuntimeClassV>,
    cls: RuntimeClassV,
    s: State,
    index: u16,
) -> Result<(Step, State), InterpreterError> {
    match cp_class_name(cls.constant_pool, index) {
        Ok(name) => match find_class_index(table, name, 0) {
            Some(tci) => {
                let h = s.heap.objects.len();
                Ok(
                    (
                        Step::Next,
                        State {
                            frame: FrameV {
                                locals: s.frame.locals,
                                stack: s.frame.stack.push(Value::ObjectRef(h as usize)),
                            },
                            heap: HeapV {
                                objects: s.heap.objects.push(
                                    ObjectV {
                                        class_index: tci as usize,
                                        fields: default_fields_spec(table[tci].fields),
                                    },
                                ),
                                arrays: s.heap.arrays,
                            },
                        },
                    ),
                )
            },
            None => Err(InterpreterError::ClassNotFound),
        },
        Err(_) => Err(InterpreterError::InvalidConstantPoolEntry),
    }
}

/// Allocating a zero-filled integer array whose length is popped off the
/// stack; only the integer array-type code is supported.
pub open spec fn step_newarray(s: State, atype: u8) -> Result<(Step, State), InterpreterError> {
    match spop_int(s.frame.stack) {
        Ok((count, rest)) => if atype == 10 {
            if count < 0 {
                Err(InterpreterError::NegativeArraySize)
            } else {
                let h = s.heap.arrays.len();
                Ok(
                    (
                        Step::Next,
                        State {
                            frame: FrameV {
                                locals: s.frame.locals,
                                stack: rest.push(Value::IntegerArrayRef(h as usize)),
                            },
                            heap: HeapV {
                                objects: s.heap.objects,
                                arrays: s.heap.arrays.push(
                                    Seq::new(count as nat, |i: int| 0i32),
                                ),
                            },
                        },
                    ),
                )
            }
        } else {
            Err(InterpreterError::InvalidArrayType)
        },
        Err(e) => Err(e),
    }
}

/// The constructor-invocation stub: discards up to two operands and
/// advances.
pub open spec fn step_invokespecial(s: State) -> Result<(Step, State), InterpreterError> {
    let st1 = if s.frame.stack.len() > 0 {
        s.frame.stack.drop_last()
    } else {
        s.frame.stack
    };
    let st2 = if st1.len() > 0 {
        st1.drop_last()
    } else {
        st1
    };
    Ok((Step::Next, with_stack(s, st2)))
}

/// Resolving an invocation site: the method reference, the invoked class
/// and method, and the arguments (in declaration order) popped off the
/// stack, together with what remains of the stack.
pub open spec fn resolve_invoke(
    table: Seq<RuntimeClassV>,
    cls: RuntimeClassV,
    stack: Seq<Value>,
    index: u16,
) -> Result<(RuntimeClassV, RuntimeMethodV, Seq<Value>, Seq<Value>), InterpreterError> {
    match cp_method_ref(cls.constant_pool, index) {
        Ok(mref) => match find_class_index(table, mref.class_name, 0) {
            Some(tci) => {
                let invoked = table[tci];
                match find_runtime_method(invoked.methods, mref.name, 0) {
                    Some(mi) => {
                        let m = invoked.methods[mi];
                        match parse_method_descriptor(mref.descriptor) {
                            Some(md) => {
                                let n = md.params.len() as int;
                                if stack.len() < n {
                                    Err(InterpreterError::StackUnderflow)
                                } else {
                                    Ok(
                                        (
                                            invoked,
                                            m,
                                            stack.subrange(stack.len() - n, stack.len() as int),
                                            stack.take(stack.len() - n),
                                        ),
                                    )
                                }
                            },
                            None => Err(InterpreterError::InvalidMethodDescriptor),
                        }
                    },
                    None => Err(InterpreterError::MethodNotFound),
                }
            },
            None => Err(InterpreterError::ClassNotFound),
        },
        Err(_) => Err(InterpreterError::InvalidConstantPoolEntry),
    }
}

/// What invoking a method on a fresh frame produces: the callee's result
/// and the heap it leaves behind. The seed locals are the receiver (for
/// virtual invocation) followed by the arguments in declaration order.
pub open spec fn invoke_spec(
    table: Seq<RuntimeClassV>,
    invoked: RuntimeClassV,
    method: RuntimeMethodV,
    seed: Seq<Value>,
    heap: HeapV,
    depth: nat,
    fuel: nat,
    budget: nat,
) -> (Result<InvokeResult, InterpreterError>, HeapV)
    decreases depth, fuel, 2int,
{
    let ml = method.code.max_locals as int;
    if seed.len() > ml {
        (Err(InterpreterError::TooManyArguments), heap)
    } else {
        let callee = State {
            frame: FrameV {
                locals: seed + Seq::new((ml - seed.len()) as nat, |i: int| Value::Null),
                stack: Seq::empty(),
            },
            heap,
        };
        let rr = run_spec(table, invoked, method.code.instructions, callee, 0, depth, fuel, budget);
        (rr.0, rr.1.heap)
    }
}

/// One instruction's effect on the machine state: the step it yields and
/// the state it leaves, or the error that aborts interpretation.
pub open spec fn step_spec(
    table: Seq<RuntimeClassV>,
    cls: RuntimeClassV,
    inst: Instruction,
    s: State,
    depth: nat,
    budget: nat,
) -> Result<(Step, State), InterpreterError>
    decreases depth, 0int, 0int,
{
    match inst {
        Instruction::AconstNull => Ok(
            (Step::Next, with_stack(s, s.frame.stack.push(Value::Null))),
        ),
        Instruction::Aload { index } => step_aload(s, index as int),
        Instruction::Aload0 => step_aload(s, 0),
        Instruction::Aload1 => step_aload(s, 1),
        Instruction::Aload2 => step_aload(s, 2),
        Instruction::Aload3 => step_aload(s, 3),
        Instruction::Astore0 => step_astore(s, 0),
        Instruction::Astore1 => step_astore(s, 1),
        Instruction::Astore2 => step_astore(s, 2),
        Instruction::Astore3 => step_astore(s, 3),
        Instruction::Bipush { byte } => step_push_int(s, byte as i32),
        Instruction::Dup => if s.frame.stack.len() == 0 {
            Err(InterpreterError::StackUnderflow)
        } else {
            Ok((Step::Next, with_stack(s, s.frame.stack.push(s.frame.stack.last()))))
        },
        Instruction::Getfield { index } => step_getfield(table, cls, s, index),
        Instruction::Goto { branch_offset } => Ok((Step::Jump(branch_offset), s)),
        Instruction::Iadd => step_arith(s, |a: i32, b: i32| i32_specs::wrapping_add(a, b)),
        Instruction::Iaload => step_iaload(s),
        Instruction::Iastore => step_iastore(s),
        Instruction::Iconst0 => step_push_int(s, 0),
        Instruction::Iconst1 => step_push_int(s, 1),
        Instruction::Iconst2 => step_push_int(s, 2),
        Instruction::Iconst3 => step_push_int(s, 3),
        Instruction::Iconst4 => step_push_int(s, 4),
        Instruction::Iconst5 => step_push_int(s, 5),
        Instruction::IfIcmpeq { branch_offset } => step_if_icmp(
            s,
            branch_offset,
            |a: i32, b: i32| a == b,
        ),
        Instruction::IfIcmpne { branch_offset } => step_if_icmp(
            s,
            branch_offset,
            |a: i32, b: i32| a != b,
        ),
        Instruction::IfIcmplt { branch_offset } => step_if_icmp(
            s,
            branch_offset,
            |a: i32, b: i32| a < b,
        ),
        Instruction::IfIcmpge { branch_offset } => step_if_icmp(
            s,
            branch_offset,
            |a: i32, b: i32| a >= b,
        ),
        Instruction::IfIcmpgt { branch_offset } => step_if_icmp(
            s,
            branch_offset,
            |a: i32, b: i32| a > b,
        ),
        Instruction::IfIcmple { branch_offset } => step_if_icmp(
            s,
            branch_offset,
            |a: i32, b: i32| a <= b,
        ),
        Instruction::Ifeq { branch_offset } => step_if(s, branch_offset, |a: i32| a == 0),
        Instruction::Ifne { branch_offset } => step_if(s, branch_offset, |a: i32| a != 0),
        Instruction::Iflt { branch_offset } => step_if(s, branch_offset, |a: i32| a < 0),
        Instruction::Ifge { branch_offset } => step_if(s, branch_offset, |a: i32| a >= 0),
        Instruction::Ifgt { branch_offset } => step_if(s, branch_offset, |a: i32| a > 0),
        Instruction::Ifle { branch_offset } => step_if(s, branch_offset, |a: i32| a <= 0),
        Instruction::Ifnonnull { branch_offset } => step_ifnull(s, branch_offset, false),
        Instruction::Ifnull { branch_offset } => step_ifnull(s, branch_offset, true),
        Instruction::Iinc { index, constant } => step_iinc(s, index as int, constant),
        Instruction::Iload { index } => step_iload(s, index as int),
        Instruction::Iload0 => step_iload(s, 0),
        Instruction::Iload1 => step_iload(s, 1),
        Instruction::Iload2 => step_iload(s, 2),
        Instruction::Iload3 => step_iload(s, 3),
        Instruction::Invokespecial { index: _ } => step_invokespecial(s),
        Instruction::Invokestatic { index } => match resolve_invoke(
            table,
            cls,
            s.frame.stack,
            index,
        ) {
            Ok(res) => if depth == 0 {
                Err(InterpreterError::CallDepthExceeded)
            } else {
                let rr = invoke_spec(
                    table,
                    res.0,
                    res.1,
                    res.2,
                    s.heap,
                    (depth - 1) as nat,
                    budget,
                    budget,
                );
                match rr.0 {
                    Ok(InvokeResult::Value(v)) => Ok(
                        (
                            Step::Next,
                            State {
                                frame: FrameV { locals: s.frame.locals, stack: res.3.push(v) },
                                heap: rr.1,
                            },
                        ),
                    ),
                    Ok(_) => Ok(
                        (
                            Step::Next,
                            State {
                                frame: FrameV { locals: s.frame.locals, stack: res.3 },
                                heap: rr.1,
                            },
                        ),
                    ),
                    Err(e) => Err(e),
                }
            },
            Err(e) => Err(e),
        },
        Instruction::Invokevirtual { index } => match resolve_invoke(
            table,
            cls,
            s.frame.stack,
            index,
        ) {
            Ok(res) => match spop_object_ref(res.3) {
                Ok((h, rest2)) => if depth == 0 {
                    Err(InterpreterError::CallDepthExceeded)
                } else {
                    let rr = invoke_spec(
                        table,
                        res.0,
                        res.1,
                        seq![Value::ObjectRef(h)] + res.2,
                        s.heap,
                        (depth - 1) as nat,
                        budget,
                        budget,
                    );
                    match rr.0 {
                        Ok(InvokeResult::Value(v)) => Ok(
                            (
                                Step::Next,
                                State {
                                    frame: FrameV { locals: s.frame.locals, stack: rest2.push(v) },
                                    heap: rr.1,
                                },
                            ),
                        ),
                        Ok(_) => Ok(
                            (
                                Step::Next,
                                State {
                                    frame: FrameV { locals: s.frame.locals, stack: rest2 },
                                    heap: rr.1,
                                },
                            ),
                        ),
                        Err(e) => Err(e),
                    }
                },
                Err(e) => Err(e),
            },
            Err(e) => Err(e),
        },
        Instruction::Imul => step_arith(s, |a: i32, b: i32| i32_specs::wrapping_mul(a, b)),
        Instruction::Ireturn => match spop(s.frame.stack) {
            Ok((v, rest)) => Ok((Step::Return(v), with_stack(s, rest))),
            Err(e) => Err(e),
        },
        Instruction::Istore { index } => step_istore(s, index as int),
        Instruction::Istore0 => step_istore(s, 0),
        Instruction::Istore1 => step_istore(s, 1),
        Instruction::Istore2 => step_istore(s, 2),
        Instruction::Istore3 => step_istore(s, 3),
        Instruction::Isub => step_arith(s, |a: i32, b: i32| i32_specs::wrapping_sub(a, b)),
        Instruction::New { index } => step_new(table, cls, s, index),
        Instruction::Newarray { atype } => step_newarray(s, atype),
        Instruction::Pop => Ok(
            (
                Step::Next,
                with_stack(
                    s,
                    if s.frame.stack.len() > 0 {
                        s.frame.stack.drop_last()
                    } else {
                        s.frame.stack
                    },
                ),
            ),
        ),
        Instruction::Putfield { index } => step_putfield(table, cls, s, index),
        Instruction::Sipush { value } => step_push_int(s, value as i32),
        Instruction::Return => Ok((Step::ReturnVoid, s)),
        _ => Err(InterpreterError::UnhandledInstruction(inst)),
    }
}

/// The first position at or after `from` of the instruction that starts
/// at byte offset `target`.
pub open spec fn find_instruction_index(
    instrs: Seq<TaggedInstruction>,
    target: int,
    from: int,
) -> Option<int>
    decreases instrs.len() - from,
{
    if from < 0 || from >= instrs.len() {
        None
    } else if instrs[from].index as int == target {
        Some(from)
    } else {
        find_instruction_index(instrs, target, from + 1)
    }
}

/// Running the dispatch loop from instruction position `pc`: the
/// invocation's result and the state it leaves. `fuel` bounds the steps
/// left in this frame, `depth` the invocation nesting, and `budget` is
/// the per-frame step allowance handed to callees.
pub open spec fn run_spec(
    table: Seq<RuntimeClassV>,
    cls: RuntimeClassV,
    instrs: Seq<TaggedInstruction>,
    s: State,
    pc: int,
    depth: nat,
    fuel: nat,
    budget: nat,
) -> (Result<InvokeResult, InterpreterError>, State)
    decreases depth, fuel, 1int,
{
    if fuel == 0 {
        (Err(InterpreterError::StepLimitExceeded), s)
    } else if pc < 0 || pc >= instrs.len() {
        (Err(InterpreterError::MissingReturn), s)
    } else {
        let ti = instrs[pc];
        match step_spec(table, cls, ti.instruction, s, depth, budget) {
            Ok((step, s2)) => match step {
                Step::Next => run_spec(
                    table,
                    cls,
                    instrs,
                    s2,
                    pc + 1,
                    depth,
                    (fuel - 1) as nat,
                    budget,
                ),
                Step::Jump(off) => {
                    let target = ti.index as int + off as int;
                    match find_instruction_index(instrs, target, 0) {
                        Some(ni) => run_spec(
                            table,
                            cls,
                            instrs,
                            s2,
                            ni,
                            depth,
                            (fuel - 1) as nat,
                            budget,
                        ),
                        None => (Err(InterpreterError::InvalidBranchTarget), s2),
                    }
                },
                Step::Return(v) => (Ok(InvokeResult::Value(v)), s2),
                Step::ReturnVoid => (Ok(InvokeResult::Void), s2),
                Step::Throw(_) => (Err(InterpreterError::MissingReturn), s2),
            },
            Err(e) => (Err(e), s),
        }
    }
}

/// The values of `values` in reverse order.
fn reverse_values(values: Vec<Value>) -> (r: Vec<Value>)
    ensures
        r@ == values@.reverse(),
{
    let mut out: Vec<Value> = Vec::new();
    let mut remaining = values.len();
    while remaining > 0
        invariant
            remaining <= values@.len(),
            out@.len() == values@.len() - remaining,
            forall|k: int|
                0 <= k < out@.len() ==> out@[k] == values@[values@.len() - 1 - k],
        decreases remaining,
    {
        remaining = remaining - 1;
        out.push(values[remaining]);
    }
    proof {
        assert(out@ =~= values@.reverse());
    }
    out
}

/// The decoded-list position of the instruction that starts at byte
/// offset `target`.
fn find_target_index(instructions: &Vec<TaggedInstruction>, target: i32) -> (r: Option<usize>)
    ensures
        match r {
            Some(i) => find_instruction_index(instructions@, target as int, 0) == Some(i as int),
            None => find_instruction_index(instructions@, target as int, 0) is None,
        },
{
    let n = instructions.len();
    let mut i: usize = 0;
    while i < n
        invariant
            i <= n,
            n == instructions@.len(),
            find_instruction_index(instructions@, target as int, 0) == find_instruction_index(
                instructions@,
                target as int,
                i as int,
            ),
        decreases n - i,
    {
        if instructions[i].index as i32 == target {
            return Some(i);
        }
        i = i + 1;
    }
    None
}

/// Executes one instruction against the frame and heap, yielding the step
/// the dispatch loop must take. On an error the frame and heap may be
/// left mid-mutation; the dispatch loop then aborts the whole invocation.
#[verifier::rlimit(60)]
fn interpret_instruction(
    instruction: &Instruction,
    stack_frame: &mut StackFrame,
    class: &RuntimeClass,
    class_table: &ClassTable,
    heap: &mut Heap,
    depth: u64,
    budget: u64,
) -> (r: Result<Step, InterpreterError>)
    ensures
        ({
            let pre = State { frame: old(stack_frame)@, heap: old(heap)@ };
            match (r, step_spec(class_table@, class@, *instruction, pre, depth as nat,
            budget as nat)) {
                (Ok(st), Ok(p)) => st == p.0 && final(stack_frame)@.locals == p.1.frame.locals
                    && final(stack_frame)@.stack == p.1.frame.stack && final(heap)@.objects
                    == p.1.heap.objects && final(heap)@.arrays == p.1.heap.arrays,
                (Err(e), Err(e2)) => e == e2,
                _ => false,
            }
        }),
    decreases depth, 0int,
{
    match instruction {
        Instruction::AconstNull => {
            stack_frame.push(Value::Null);
            Ok(Step::Next)
        },
        Instruction::Aload { index } => {
            let idx = *index as usize;
            if idx >= stack_frame.locals.len() {
                return Err(InterpreterError::IndexOutOfBounds);
            }
            let operand = *stack_frame.get_local(idx);
            stack_frame.push(operand);
            Ok(Step::Next)
        },
        Instruction::Aload0 => {
            if stack_frame.locals.len() < 1 {
                return Err(InterpreterError::IndexOutOfBounds);
            }
            let operand = *stack_frame.get_local(0);
            stack_frame.push(operand);
            Ok(Step::Next)
        },
        Instruction::Aload1 => {
            if stack_frame.locals.len() < 2 {
                return Err(InterpreterError::IndexOutOfBounds);
            }
            let operand = *stack_frame.get_local(1);
            stack_frame.push(operand);
            Ok(Step::Next)
        },
        Instruction::Aload2 => {
            if stack_frame.locals.len() < 3 {
                return Err(InterpreterError::IndexOutOfBounds);
            }
            let operand = *stack_frame.get_local(2);
            stack_frame.push(operand);
            Ok(Step::Next)
        },
        Instruction::Aload3 => {
            if stack_frame.locals.len() < 4 {
                return Err(InterpreterError::IndexOutOfBounds);
            }
            let operand = *stack_frame.get_local(3);
            stack_frame.push(operand);
            Ok(Step::Next)
        },
        Instruction::Astore0 => exec_astore(stack_frame, 0),
        Instruction::Astore1 => exec_astore(stack_frame, 1),
        Instruction::Astore2 => exec_astore(stack_frame, 2),
        Instruction::Astore3 => exec_astore(stack_frame, 3),
        Instruction::Bipush { byte } => {
            stack_frame.push_int(*byte as i32);
            Ok(Step::Next)
        },
        Instruction::Dup => {
            let operand = match stack_frame.pop() {
                Some(v) => v,
                None => {
                    return Err(InterpreterError::StackUnderflow);
                },
            };
            stack_frame.push(operand);
            stack_frame.push(operand);
            proof {
                assert(old(stack_frame)@.stack.drop_last().push(operand).push(operand)
                    =~= old(stack_frame)@.stack.push(operand));
            }
            Ok(Step::Next)
        },
        Instruction::Getfield { index } => {
            let object_reference = match stack_frame.pop_object_reference() {
                Ok(h) => h,
                Err(e) => {
                    return Err(e);
                },
            };
            let field_ref = match class.constant_pool.get_field_ref(*index) {
                Ok(m) => m,
                Err(_) => {
                    return Err(InterpreterError::InvalidConstantPoolEntry);
                },
            };
            if object_reference >= heap.object_count() {
                return Err(InterpreterError::InvalidReference);
            }
            let ci = heap.object_class_index(object_reference);
            if ci >= class_table.len() {
                return Err(InterpreterError::InvalidReference);
            }
            let owner = class_table.class_at(ci);
            match heap.get_object_field(object_reference, owner, field_ref.name.as_str()) {
                Some(value) => {
                    stack_frame.push(value);
                    Ok(Step::Next)
                },
                None => Err(InterpreterError::FieldNotFound),
            }
        },
        Instruction::Goto { branch_offset } => Ok(Step::Jump(*branch_offset)),
        Instruction::Iadd => {
            let v2 = match stack_frame.pop_int() {
                Ok(v) => v,
                Err(e) => {
                    return Err(e);
                },
            };
            let v1 = match stack_frame.pop_int() {
                Ok(v) => v,
                Err(e) => {
                    return Err(e);
                },
            };
            stack_frame.push_int(v1.wrapping_add(v2));
            Ok(Step::Next)
        },
        Instruction::Iaload => {
            let index = match stack_frame.pop_int() {
                Ok(v) => v,
                Err(e) => {
                    return Err(e);
                },
            };
            let array = match stack_frame.pop_int_array() {
                Ok(h) => h,
                Err(e) => {
                    return Err(e);
                },
            };
            if array >= heap.array_count() {
                return Err(InterpreterError::InvalidReference);
            }
            if index < 0 {
                return Err(InterpreterError::IndexOutOfBounds);
            }
            let iu = index as usize;
            if iu >= heap.array_len(array) {
                return Err(InterpreterError::IndexOutOfBounds);
            }
            let value = heap.array_get(array, iu);
            stack_frame.push_int(value);
            Ok(Step::Next)
        },
        Instruction::Iastore => {
            let value = match stack_frame.pop_int() {
                Ok(v) => v,
                Err(e) => {
                    return Err(e);
                },
            };
            let index = match stack_frame.pop_int() {
                Ok(v) => v,
                Err(e) => {
                    return Err(e);
                },
            };
            let array = match stack_frame.pop_int_array() {
                Ok(h) => h,
                Err(e) => {
                    return Err(e);
                },
            };
            if array >= heap.array_count() {
                return Err(InterpreterError::InvalidReference);
            }
            if index < 0 {
                return Err(InterpreterError::IndexOutOfBounds);
            }
            let iu = index as usize;
            if iu >= heap.array_len(array) {
                return Err(InterpreterError::IndexOutOfBounds);
            }
            heap.array_set(array, iu, value);
            Ok(Step::Next)
        },
        Instruction::Iconst0 => {
            stack_frame.push_int(0);
            Ok(Step::Next)
        },
        Instruction::Iconst1 => {
            stack_frame.push_int(1);
            Ok(Step::Next)
        },
        Instruction::Iconst2 => {
            stack_frame.push_int(2);
            Ok(Step::Next)
        },
        Instruction::Iconst3 => {
            stack_frame.push_int(3);
            Ok(Step::Next)
        },
        Instruction::Iconst4 => {
            stack_frame.push_int(4);
            Ok(Step::Next)
        },
        Instruction::Iconst5 => {
            stack_frame.push_int(5);
            Ok(Step::Next)
        },
        Instruction::IfIcmpeq { branch_offset } => {
            let (v1, v2) = exec_pop_two_ints(stack_frame)?;
            if v1 == v2 {
                Ok(Step::Jump(*branch_offset))
            } else {
                Ok(Step::Next)
            }
        },
        Instruction::IfIcmpne { branch_offset } => {
            let (v1, v2) = exec_pop_two_ints(stack_frame)?;
            if v1 != v2 {
                Ok(Step::Jump(*branch_offset))
            } else {
                Ok(Step::Next)
            }
        },
        Instruction::IfIcmplt { branch_offset } => {
            let (v1, v2) = exec_pop_two_ints(stack_frame)?;
            if v1 < v2 {
                Ok(Step::Jump(*branch_offset))
            } else {
                Ok(Step::Next)
            }
        },
        Instruction::IfIcmpge { branch_offset } => {
            let (v1, v2) = exec_pop_two_ints(stack_frame)?;
            if v1 >= v2 {
                Ok(Step::Jump(*branch_offset))
            } else {
                Ok(Step::Next)
            }
        },
        Instruction::IfIcmpgt { branch_offset } => {
            let (v1, v2) = exec_pop_two_ints(stack_frame)?;
            if v1 > v2 {
                Ok(Step::Jump(*branch_offset))
            } else {
                Ok(Step::Next)
            }
        },
        Instruction::IfIcmple { branch_offset } => {
            let (v1, v2) = exec_pop_two_ints(stack_frame)?;
            if v1 <= v2 {
                Ok(Step::Jump(*branch_offset))
            } else {
                Ok(Step::Next)
            }
        },
        Instruction::Ifeq { branch_offset } => {
            let value = stack_frame.pop_int()?;
            if value == 0 {
                Ok(Step::Jump(*branch_offset))
            } else {
                Ok(Step::Next)
            }
        },
        Instruction::Ifne { branch_offset } => {
            let value = stack_frame.pop_int()?;
            if value != 0 {
                Ok(Step::Jump(*branch_offset))
            } else {
                Ok(Step::Next)
            }
        },
        Instruction::Iflt { branch_offset } => {
            let value = stack_frame.pop_int()?;
            if value < 0 {
                Ok(Step::Jump(*branch_offset))
            } else {
                Ok(Step::Next)
            }
        },
        Instruction::Ifge { branch_offset } => {
            let value = stack_frame.pop_int()?;
            if value >= 0 {
                Ok(Step::Jump(*branch_offset))
            } else {
                Ok(Step::Next)
            }
        },
        Instruction::Ifgt { branch_offset } => {
            let value = stack_frame.pop_int()?;
            if value > 0 {
                Ok(Step::Jump(*branch_offset))
            } else {
                Ok(Step::Next)
            }
        },
        Instruction::Ifle { branch_offset } => {
            let value = stack_frame.pop_int()?;
            if value <= 0 {
                Ok(Step::Jump(*branch_offset))
            } else {
                Ok(Step::Next)
            }
        },
        Instruction::Ifnonnull { branch_offset } => {
            let reference = match stack_frame.pop() {
                Some(v) => v,
                None => {
                    return Err(InterpreterError::StackUnderflow);
                },
            };
            match reference {
                Value::Null => Ok(Step::Next),
                _ => Ok(Step::Jump(*branch_offset)),
            }
        },
        Instruction::Ifnull { branch_offset } => {
            let reference = match stack_frame.pop() {
                Some(v) => v,
                None => {
                    return Err(InterpreterError::StackUnderflow);
                },
            };
            match reference {
                Value::Null => Ok(Step::Jump(*branch_offset)),
                _ => Ok(Step::Next),
            }
        },
        Instruction::Iinc { index, constant } => {
            let idx = *index as usize;
            if idx >= stack_frame.locals.len() {
                return Err(InterpreterError::IndexOutOfBounds);
            }
            let local = stack_frame.get_int_local(idx)?;
            stack_frame.set_int_local(idx, local.wrapping_add(*constant as i32));
            Ok(Step::Next)
        },
        Instruction::Iload { index } => exec_iload(stack_frame, *index as usize),
        Instruction::Iload0 => exec_iload(stack_frame, 0),
        Instruction::Iload1 => exec_iload(stack_frame, 1),
        Instruction::Iload2 => exec_iload(stack_frame, 2),
        Instruction::Iload3 => exec_iload(stack_frame, 3),
        Instruction::Invokespecial { index: _ } => {
            let _ = stack_frame.pop();
            let _ = stack_frame.pop();
            Ok(Step::Next)
        },
        Instruction::Invokestatic { index } => {
            let method_ref = match class.constant_pool.get_method_ref(*index) {
                Ok(m) => m,
                Err(_) => {
                    return Err(InterpreterError::InvalidConstantPoolEntry);
                },
            };
            let invoked_index = match class_table.find_class(method_ref.class_name.as_str()) {
                Some(i) => i,
                None => {
                    return Err(InterpreterError::ClassNotFound);
                },
            };
            let invoked_class = class_table.class_at(invoked_index);
            let method = match invoked_class.get_method(method_ref.name.as_str()) {
                Some(m) => m,
                None => {
                    return Err(InterpreterError::MethodNotFound);
                },
            };
            let descriptor = match MethodDescriptor::parse(method_ref.descriptor.as_str()) {
                Some(d) => d,
                None => {
                    return Err(InterpreterError::InvalidMethodDescriptor);
                },
            };
            let count = descriptor.parameters_length();
            let lifo = match stack_frame.pop_many(count) {
                Some(v) => v,
                None => {
                    return Err(InterpreterError::StackUnderflow);
                },
            };
            let arguments = reverse_values(lifo);
            proof {
                let os = old(stack_frame)@.stack;
                assert(arguments@ =~= os.subrange(os.len() - count, os.len() as int));
            }
            if depth == 0 {
                return Err(InterpreterError::CallDepthExceeded);
            }
            let invoke_result = invoke_static_method(
                arguments,
                method,
                invoked_class,
                class_table,
                heap,
                depth - 1,
                budget,
            );
            match invoke_result {
                Ok(InvokeResult::Value(value)) => {
                    stack_frame.push(value);
                    Ok(Step::Next)
                },
                Ok(_) => Ok(Step::Next),
                Err(e) => Err(e),
            }
        },
        Instruction::Invokevirtual { index } => {
            let method_ref = match class.constant_pool.get_method_ref(*index) {
                Ok(m) => m,
                Err(_) => {
                    return Err(InterpreterError::InvalidConstantPoolEntry);
                },
            };
            let invoked_index = match class_table.find_class(method_ref.class_name.as_str()) {
                Some(i) => i,
                None => {
                    return Err(InterpreterError::ClassNotFound);
                },
            };
            let invoked_class = class_table.class_at(invoked_index);
            let method = match invoked_class.get_method(method_ref.name.as_str()) {
                Some(m) => m,
                None => {
                    return Err(InterpreterError::MethodNotFound);
                },
            };
            let descriptor = match MethodDescriptor::parse(method_ref.descriptor.as_str()) {
                Some(d) => d,
                None => {
                    return Err(InterpreterError::InvalidMethodDescriptor);
                },
            };
            let count = descriptor.parameters_length();
            let lifo = match stack_frame.pop_many(count) {
                Some(v) => v,
                None => {
                    return Err(InterpreterError::StackUnderflow);
                },
            };
            let arguments = reverse_values(lifo);
            proof {
                let os = old(stack_frame)@.stack;
                assert(arguments@ =~= os.subrange(os.len() - count, os.len() as int));
            }
            let object = stack_frame.pop_object_reference()?;
            if depth == 0 {
                return Err(InterpreterError::CallDepthExceeded);
            }
            let invoke_result = invoke_virtual_method(
                object,
                method,
                arguments,
                invoked_class,
                class_table,
                heap,
                depth - 1,
                budget,
            );
            match invoke_result {
                Ok(InvokeResult::Value(value)) => {
                    stack_frame.push(value);
                    Ok(Step::Next)
                },
                Ok(_) => Ok(Step::Next),
                Err(e) => Err(e),
            }
        },
        Instruction::Imul => {
            let v2 = match stack_frame.pop_int() {
                Ok(v) => v,
                Err(e) => {
                    return Err(e);
                },
            };
            let v1 = match stack_frame.pop_int() {
                Ok(v) => v,
                Err(e) => {
                    return Err(e);
                },
            };
            stack_frame.push_int(v1.wrapping_mul(v2));
            Ok(Step::Next)
        },
        Instruction::Ireturn => {
            let value = match stack_frame.pop() {
                Some(v) => v,
                None => {
                    return Err(InterpreterError::StackUnderflow);
                },
            };
            Ok(Step::Return(value))
        },
        Instruction::Istore { index } => exec_istore(stack_frame, *index as usize),
        Instruction::Istore0 => exec_istore(stack_frame, 0),
        Instruction::Istore1 => exec_istore(stack_frame, 1),
        Instruction::Istore2 => exec_istore(stack_frame, 2),
        Instruction::Istore3 => exec_istore(stack_frame, 3),
        Instruction::Isub => {
            let value2 = match stack_frame.pop_int() {
                Ok(v) => v,
                Err(e) => {
                    return Err(e);
                },
            };
            let value1 = match stack_frame.pop_int() {
                Ok(v) => v,
                Err(e) => {
                    return Err(e);
                },
            };
            stack_frame.push_int(value1.wrapping_sub(value2));
            Ok(Step::Next)
        },
        Instruction::New { index } => {
            let class_name = match class.constant_pool.get_class_name(*index) {
                Ok(n) => n,
                Err(_) => {
                    return Err(InterpreterError::InvalidConstantPoolEntry);
                },
            };
            let target_index = match class_table.find_class(class_name.as_str()) {
                Some(i) => i,
                None => {
                    return Err(InterpreterError::ClassNotFound);
                },
            };
            let runtime_class = class_table.class_at(target_index);
            let memory = runtime_class.default_fields();
            let handle = heap.alloc_object(target_index, memory);
            stack_frame.push_object_reference(handle);
            Ok(Step::Next)
        },
        Instruction::Newarray { atype } => {
            let count = match stack_frame.pop_int() {
                Ok(v) => v,
                Err(e) => {
                    return Err(e);
                },
            };
            if *atype == 10 {
                if count < 0 {
                    return Err(InterpreterError::NegativeArraySize);
                }
                let handle = heap.alloc_int_array(count as usize);
                stack_frame.push(Value::IntegerArrayRef(handle));
                Ok(Step::Next)
            } else {
                Err(InterpreterError::InvalidArrayType)
            }
        },
        Instruction::Pop => {
            let _ = stack_frame.pop();
            Ok(Step::Next)
        },
        Instruction::Putfield { index } => {
            let value = match stack_frame.pop() {
                Some(v) => v,
                None => {
                    return Err(InterpreterError::StackUnderflow);
                },
            };
            let object_reference = stack_frame.pop_object_reference()?;
            let field_ref = match class.constant_pool.get_field_ref(*index) {
                Ok(m) => m,
                Err(_) => {
                    return Err(InterpreterError::InvalidConstantPoolEntry);
                },
            };
            if object_reference >= heap.object_count() {
                return Err(InterpreterError::InvalidReference);
            }
            let ci = heap.object_class_index(object_reference);
            if ci >= class_table.len() {
                return Err(InterpreterError::InvalidReference);
            }
            let owner = class_table.class_at(ci);
            if heap.put_object_field(object_reference, owner, field_ref.name.as_str(), value) {
                Ok(Step::Next)
            } else {
                Err(InterpreterError::FieldNotFound)
            }
        },
        Instruction::Sipush { value } => {
            stack_frame.push_int(*value as i32);
            Ok(Step::Next)
        },
        Instruction::Return => Ok(Step::ReturnVoid),
        x => Err(InterpreterError::UnhandledInstruction(*x)),
    }
}

/// Pops the untyped top of stack into local slot `idx`.
fn exec_astore(stack_frame: &mut StackFrame, idx: usize) -> (r: Result<Step, InterpreterError>)
    ensures
        match (r, step_astore(
            State {
                frame: old(stack_frame)@,
                heap: HeapV { objects: Seq::empty(), arrays: Seq::empty() },
            },
            idx as int,
        )) {
            (Ok(st), Ok(p)) => st == p.0 && final(stack_frame)@.locals == p.1.frame.locals
                && final(stack_frame)@.stack == p.1.frame.stack,
            (Err(e), Err(e2)) => e == e2,
            _ => false,
        },
{
    let operand = match stack_frame.pop() {
        Some(v) => v,
        None => {
            return Err(InterpreterError::StackUnderflow);
        },
    };
    if idx >= stack_frame.locals.len() {
        return Err(InterpreterError::IndexOutOfBounds);
    }
    stack_frame.set_local(idx, operand);
    Ok(Step::Next)
}

/// Pushes the integer in local slot `idx`.
fn exec_iload(stack_frame: &mut StackFrame, idx: usize) -> (r: Result<Step, InterpreterError>)
    ensures
        match (r, step_iload(
            State {
                frame: old(stack_frame)@,
                heap: HeapV { objects: Seq::empty(), arrays: Seq::empty() },
            },
            idx as int,
        )) {
            (Ok(st), Ok(p)) => st == p.0 && final(stack_frame)@.locals == p.1.frame.locals
                && final(stack_frame)@.stack == p.1.frame.stack,
            (Err(e), Err(e2)) => e == e2,
            _ => false,
        },
{
    if idx >= stack_frame.locals.len() {
        return Err(InterpreterError::IndexOutOfBounds);
    }
    let loaded = stack_frame.get_int_local(idx)?;
    stack_frame.push_int(loaded);
    Ok(Step::Next)
}

/// Pops an integer into local slot `idx`.
fn exec_istore(stack_frame: &mut StackFrame, idx: usize) -> (r: Result<Step, InterpreterError>)
    ensures
        match (r, step_istore(
            State {
                frame: old(stack_frame)@,
                heap: HeapV { objects: Seq::empty(), arrays: Seq::empty() },
            },
            idx as int,
        )) {
            (Ok(st), Ok(p)) => st == p.0 && final(stack_frame)@.locals == p.1.frame.locals
                && final(stack_frame)@.stack == p.1.frame.stack,
            (Err(e), Err(e2)) => e == e2,
            _ => false,
        },
{
    let popped = stack_frame.pop_int()?;
    if idx >= stack_frame.locals.len() {
        return Err(InterpreterError::IndexOutOfBounds);
    }
    stack_frame.set_int_local(idx, popped);
    Ok(Step::Next)
}

/// Pops the two integer operands of a binary instruction: the second
/// operand first, per stack convention.
fn exec_pop_two_ints(stack_frame: &mut StackFrame) -> (r: Result<(i32, i32), InterpreterError>)
    ensures
        final(stack_frame)@.locals == old(stack_frame)@.locals,
        match spop_int(old(stack_frame)@.stack) {
            Ok((v2, st1)) => match spop_int(st1) {
                Ok((v1, st2)) => r == Ok::<_, InterpreterError>((v1, v2)) && final(stack_frame)@.stack == st2,
                Err(e) => r == Err::<(i32, i32), _>(e),
            },
            Err(e) => r == Err::<(i32, i32), _>(e),
        },
{
    let v2 = stack_frame.pop_int()?;
    let v1 = stack_frame.pop_int()?;
    Ok((v1, v2))
}

/// Invokes a static method: binds the arguments, in order, to the first
/// local slots of a fresh frame and interprets the method's code.
pub fn invoke_static_method(
    arguments: Vec<Value>,
    method: &RuntimeMethod,
    class: &RuntimeClass,
    class_table: &ClassTable,
    heap: &mut Heap,
    depth: u64,
    fuel: u64,
) -> (r: Result<InvokeResult, InterpreterError>)
    ensures
        ({
            let rr = invoke_spec(class_table@, class@, method@, arguments@, old(heap)@,
            depth as nat, fuel as nat, fuel as nat);
            r == rr.0 && (r is Ok ==> final(heap)@.objects == rr.1.objects && final(heap)@.arrays
                == rr.1.arrays)
        }),
    decreases depth, 2int,
{
    let max_locals = method.code.max_locals;
    if arguments.len() > max_locals as usize {
        return Err(InterpreterError::TooManyArguments);
    }
    let mut stack_frame = StackFrame::new_frame_with_locals(
        method.code.max_stack,
        max_locals,
        arguments,
    );
    interpret(&mut stack_frame, method, class, class_table, heap, depth, fuel)
}

/// Invokes an instance method: binds the receiver to local slot 0 and the
/// arguments, in order, to the following slots of a fresh frame, then
/// interprets the method's code.
pub fn invoke_virtual_method(
    this: usize,
    method: &RuntimeMethod,
    arguments: Vec<Value>,
    class: &RuntimeClass,
    class_table: &ClassTable,
    heap: &mut Heap,
    depth: u64,
    fuel: u64,
) -> (r: Result<InvokeResult, InterpreterError>)
    ensures
        ({
            let rr = invoke_spec(class_table@, class@, method@, seq![Value::ObjectRef(this)]
                + arguments@, old(heap)@, depth as nat, fuel as nat, fuel as nat);
            r == rr.0 && (r is Ok ==> final(heap)@.objects == rr.1.objects && final(heap)@.arrays
                == rr.1.arrays)
        }),
    decreases depth, 2int,
{
    let ghost argsv = arguments@;
    let mut locals = arguments;
    locals.insert(0, Value::ObjectRef(this));
    proof {
        assert(locals@ =~= seq![Value::ObjectRef(this)] + argsv);
    }
    let max_locals = method.code.max_locals;
    if locals.len() > max_locals as usize {
        return Err(InterpreterError::TooManyArguments);
    }
    let mut stack_frame = StackFrame::new_frame_with_locals(
        method.code.max_stack,
        max_locals,
        locals,
    );
    interpret(&mut stack_frame, method, class, class_table, heap, depth, fuel)
}

/// Drives the dispatch loop from the first instruction until a return
/// instruction, an error, or exhaustion of the step allowance. `depth`
/// bounds nested invocation, `fuel` bounds the steps of each frame.
///
/// On success the frame and heap are exactly as the dispatch semantics
/// leave them; a failed interpretation aborts the invocation as a whole
/// and may leave the frame and heap mid-mutation.
pub fn interpret(
    stack_frame: &mut StackFrame,
    method: &RuntimeMethod,
    class: &RuntimeClass,
    class_table: &ClassTable,
    heap: &mut Heap,
    depth: u64,
    fuel: u64,
) -> (r: Result<InvokeResult, InterpreterError>)
    ensures
        ({
            let rr = run_spec(class_table@, class@, method.code.instructions@,
            State { frame: old(stack_frame)@, heap: old(heap)@ }, 0, depth as nat, fuel as nat,
            fuel as nat);
            r == rr.0 && (r is Ok ==> final(stack_frame)@.locals == rr.1.frame.locals && final(stack_frame)@.stack == rr.1.frame.stack && final(heap)@.objects == rr.1.heap.objects && final(heap)@.arrays == rr.1.heap.arrays)
        }),
    decreases depth, 1int,
{
    let ghost tablev = class_table@;
    let ghost clsv = class@;
    let ghost instrs = method.code.instructions@;
    let ghost rr = run_spec(
        tablev,
        clsv,
        instrs,
        State { frame: old(stack_frame)@, heap: old(heap)@ },
        0,
        depth as nat,
        fuel as nat,
        fuel as nat,
    );
    let mut current_index: usize = 0;
    let mut fuel_left: u64 = fuel;
    loop
        invariant
            tablev == class_table@,
            clsv == class@,
            instrs == method.code.instructions@,
            fuel_left <= fuel,
            rr == run_spec(
                tablev,
                clsv,
                instrs,
                State { frame: old(stack_frame)@, heap: old(heap)@ },
                0,
                depth as nat,
                fuel as nat,
                fuel as nat,
            ),
            rr == run_spec(
                tablev,
                clsv,
                instrs,
                State { frame: stack_frame@, heap: heap@ },
                current_index as int,
                depth as nat,
                fuel_left as nat,
                fuel as nat,
            ),
        decreases fuel_left,
    {
        if fuel_left == 0 {
            return Err(InterpreterError::StepLimitExceeded);
        }
        if current_index >= method.code.instructions.len() {
            return Err(InterpreterError::MissingReturn);
        }
        let tagged_instruction = method.code.instructions[current_index];
        let ghost s_pre = State { frame: stack_frame@, heap: heap@ };
        let result = interpret_instruction(
            &tagged_instruction.instruction,
            stack_frame,
            class,
            class_table,
            heap,
            depth,
            fuel,
        );
        match result {
            Ok(step) => {
                let ghost p = step_spec(
                    tablev,
                    clsv,
                    tagged_instruction.instruction,
                    s_pre,
                    depth as nat,
                    fuel as nat,
                )->Ok_0;
                proof {
                    assert(step_spec(tablev, clsv, tagged_instruction.instruction, s_pre,
                    depth as nat, fuel as nat) == Ok::<_, InterpreterError>(p));
                    assert(p.1.frame =~= stack_frame@);
                    assert(p.1.heap =~= heap@);
                }
                match step {
                    Step::Next => {
                        current_index = current_index + 1;
                        fuel_left = fuel_left - 1;
                    },
                    Step::Jump(offset) => {
                        let target = tagged_instruction.index as i32 + offset as i32;
                        match find_target_index(&method.code.instructions, target) {
                            Some(next_index) => {
                                current_index = next_index;
                                fuel_left = fuel_left - 1;
                            },
                            None => {
                                return Err(InterpreterError::InvalidBranchTarget);
                            },
                        }
                    },
                    Step::Return(value) => {
                        return Ok(InvokeResult::Value(value));
                    },
                    Step::ReturnVoid => {
                        return Ok(InvokeResult::Void);
                    },
                    Step::Throw(_) => {
                        return Err(InterpreterError::MissingReturn);
                    },
                }
            },
            Err(e) => {
                return Err(e);
            },
        }
    }
}

} // verus!
