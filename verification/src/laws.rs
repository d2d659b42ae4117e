//! Proved laws of the dispatch semantics: arithmetic results, local and
//! heap round trips, branch resolution, default field values, and the
//! argument-binding order of invocation.
//!
//! Each law is stated against [`crate::interpreter::run_spec`] or its
//! helpers, which the executable interpreter provably implements, so what
//! is proved here holds of the interpreter itself.

use vstd::prelude::*;
use vstd::wrapping::i32_specs;
use crate::classfile::{cp_class_name, cp_field_ref, cp_method_ref};
use crate::descriptor::parse_method_descriptor;
use crate::heap::{HeapV, ObjectV};
use crate::instruction::{Instruction, TaggedInstruction};
use crate::interpreter::{run_spec, invoke_spec, InvokeResult, State};
use crate::rtclass::{
    RuntimeClassV, RuntimeFieldV, default_fields_spec, default_value, field_slot,
    find_class_index, find_runtime_method,
};
use crate::stack::FrameV;
use crate::value::Value;

verus! {

/// `push a; push b; isub; ireturn`, with byte offsets as the disassembler
/// tags them.
pub open spec fn isub_program(a: i16, b: i16) -> Seq<TaggedInstruction> {
    seq![
        TaggedInstruction { index: 0, instruction: Instruction::Sipush { value: a } },
        TaggedInstruction { index: 3, instruction: Instruction::Sipush { value: b } },
        TaggedInstruction { index: 6, instruction: Instruction::Isub },
        TaggedInstruction { index: 7, instruction: Instruction::Ireturn },
    ]
}

/// `push a; push b; iadd; ireturn`.
pub open spec fn iadd_program(a: i16, b: i16) -> Seq<TaggedInstruction> {
    seq![
        TaggedInstruction { index: 0, instruction: Instruction::Sipush { value: a } },
        TaggedInstruction { index: 3, instruction: Instruction::Sipush { value: b } },
        TaggedInstruction { index: 6, instruction: Instruction::Iadd },
        TaggedInstruction { index: 7, instruction: Instruction::Ireturn },
    ]
}

/// `push a; push b; imul; ireturn`.
pub open spec fn imul_program(a: i16, b: i16) -> Seq<TaggedInstruction> {
    seq![
        TaggedInstruction { index: 0, instruction: Instruction::Sipush { value: a } },
        TaggedInstruction { index: 3, instruction: Instruction::Sipush { value: b } },
        TaggedInstruction { index: 6, instruction: Instruction::Imul },
        TaggedInstruction { index: 7, instruction: Instruction::Ireturn },
    ]
}

/// Arithmetic correctness of subtraction: for all immediate operand pairs,
/// interpreting `push a; push b; isub; ireturn` yields exactly `a - b`,
/// computed as `first pushed - second pushed`, from any starting frame and
/// heap.
pub proof fn lemma_isub_arithmetic(
    table: Seq<RuntimeClassV>,
    cls: RuntimeClassV,
    s: State,
    a: i16,
    b: i16,
    depth: nat,
    fuel: nat,
    budget: nat,
)
    requires
        fuel >= 4,
    ensures
        ({
            let r = run_spec(table, cls, isub_program(a, b), s, 0, depth, fuel, budget);
            r.0 == Ok::<_, crate::interpreter::InterpreterError>(
                InvokeResult::Value(Value::Integer((a as int - b as int) as i32)),
            ) && r.1.heap == s.heap
        }),
{
    reveal_with_fuel(crate::interpreter::run_spec, 8);
    reveal_with_fuel(crate::interpreter::step_spec, 8);
    let prog = isub_program(a, b);
    let av = a as i32;
    let bv = b as i32;
    let s1 = State {
        frame: FrameV {
            locals: s.frame.locals,
            stack: s.frame.stack.push(Value::Integer(av)),
        },
        heap: s.heap,
    };
    let s2 = State {
        frame: FrameV {
            locals: s.frame.locals,
            stack: s1.frame.stack.push(Value::Integer(bv)),
        },
        heap: s.heap,
    };
    let d = i32_specs::wrapping_sub(av, bv);
    let s3 = State {
        frame: FrameV {
            locals: s.frame.locals,
            stack: s.frame.stack.push(Value::Integer(d)),
        },
        heap: s.heap,
    };
    assert(run_spec(table, cls, prog, s, 0, depth, fuel, budget) == run_spec(
        table,
        cls,
        prog,
        s1,
        1,
        depth,
        (fuel - 1) as nat,
        budget,
    ));
    assert(run_spec(table, cls, prog, s1, 1, depth, (fuel - 1) as nat, budget) == run_spec(
        table,
        cls,
        prog,
        s2,
        2,
        depth,
        (fuel - 2) as nat,
        budget,
    ));
    assert(s2.frame.stack.drop_last() =~= s1.frame.stack);
    assert(s1.frame.stack.drop_last() =~= s.frame.stack);
    assert(run_spec(table, cls, prog, s2, 2, depth, (fuel - 2) as nat, budget) == run_spec(
        table,
        cls,
        prog,
        s3,
        3,
        depth,
        (fuel - 3) as nat,
        budget,
    ));
    assert(s3.frame.stack.drop_last() =~= s.frame.stack);
    assert(run_spec(table, cls, prog, s3, 3, depth, (fuel - 3) as nat, budget).0 == Ok::<
        _,
        crate::interpreter::InterpreterError,
    >(InvokeResult::Value(Value::Integer(d))));
    assert(d == (a as int - b as int) as i32);
}

/// Arithmetic correctness of addition: `push a; push b; iadd; ireturn`
/// yields exactly `a + b`.
pub proof fn lemma_iadd_arithmetic(
    table: Seq<RuntimeClassV>,
    cls: RuntimeClassV,
    s: State,
    a: i16,
    b: i16,
    depth: nat,
    fuel: nat,
    budget: nat,
)
    requires
        fuel >= 4,
    ensures
        ({
            let r = run_spec(table, cls, iadd_program(a, b), s, 0, depth, fuel, budget);
            r.0 == Ok::<_, crate::interpreter::InterpreterError>(
                InvokeResult::Value(Value::Integer((a as int + b as int) as i32)),
            ) && r.1.heap == s.heap
        }),
{
    reveal_with_fuel(crate::interpreter::run_spec, 8);
    reveal_with_fuel(crate::interpreter::step_spec, 8);
    let prog = iadd_program(a, b);
    let av = a as i32;
    let bv = b as i32;
    let s1 = State {
        frame: FrameV {
            locals: s.frame.locals,
            stack: s.frame.stack.push(Value::Integer(av)),
        },
        heap: s.heap,
    };
    let s2 = State {
        frame: FrameV {
            locals: s.frame.locals,
            stack: s1.frame.stack.push(Value::Integer(bv)),
        },
        heap: s.heap,
    };
    let d = i32_specs::wrapping_add(av, bv);
    let s3 = State {
        frame: FrameV {
            locals: s.frame.locals,
            stack: s.frame.stack.push(Value::Integer(d)),
        },
        heap: s.heap,
    };
    assert(run_spec(table, cls, prog, s, 0, depth, fuel, budget) == run_spec(
        table,
        cls,
        prog,
        s1,
        1,
        depth,
        (fuel - 1) as nat,
        budget,
    ));
    assert(run_spec(table, cls, prog, s1, 1, depth, (fuel - 1) as nat, budget) == run_spec(
        table,
        cls,
        prog,
        s2,
        2,
        depth,
        (fuel - 2) as nat,
        budget,
    ));
    assert(s2.frame.stack.drop_last() =~= s1.frame.stack);
    assert(s1.frame.stack.drop_last() =~= s.frame.stack);
    assert(run_spec(table, cls, prog, s2, 2, depth, (fuel - 2) as nat, budget) == run_spec(
        table,
        cls,
        prog,
        s3,
        3,
        depth,
        (fuel - 3) as nat,
        budget,
    ));
    assert(s3.frame.stack.drop_last() =~= s.frame.stack);
    assert(run_spec(table, cls, prog, s3, 3, depth, (fuel - 3) as nat, budget).0 == Ok::<
        _,
        crate::interpreter::InterpreterError,
    >(InvokeResult::Value(Value::Integer(d))));
    assert(d == (a as int + b as int) as i32);
}

/// Arithmetic correctness of multiplication: `push a; push b; imul;
/// ireturn` yields exactly `a * b`.
pub proof fn lemma_imul_arithmetic(
    table: Seq<RuntimeClassV>,
    cls: RuntimeClassV,
    s: State,
    a: i16,
    b: i16,
    depth: nat,
    fuel: nat,
    budget: nat,
)
    requires
        fuel >= 4,
    ensures
        ({
            let r = run_spec(table, cls, imul_program(a, b), s, 0, depth, fuel, budget);
            r.0 == Ok::<_, crate::interpreter::InterpreterError>(
                InvokeResult::Value(Value::Integer((a as int * b as int) as i32)),
            ) && r.1.heap == s.heap
        }),
{
    reveal_with_fuel(crate::interpreter::run_spec, 8);
    reveal_with_fuel(crate::interpreter::step_spec, 8);
    let prog = imul_program(a, b);
    let av = a as i32;
    let bv = b as i32;
    let s1 = State {
        frame: FrameV {
            locals: s.frame.locals,
            stack: s.frame.stack.push(Value::Integer(av)),
        },
        heap: s.heap,
    };
    let s2 = State {
        frame: FrameV {
            locals: s.frame.locals,
            stack: s1.frame.stack.push(Value::Integer(bv)),
        },
        heap: s.heap,
    };
    let d = i32_specs::wrapping_mul(av, bv);
    let s3 = State {
        frame: FrameV {
            locals: s.frame.locals,
            stack: s.frame.stack.push(Value::Integer(d)),
        },
        heap: s.heap,
    };
    assert(run_spec(table, cls, prog, s, 0, depth, fuel, budget) == run_spec(
        table,
        cls,
        prog,
        s1,
        1,
        depth,
        (fuel - 1) as nat,
        budget,
    ));
    assert(run_spec(table, cls, prog, s1, 1, depth, (fuel - 1) as nat, budget) == run_spec(
        table,
        cls,
        prog,
        s2,
        2,
        depth,
        (fuel - 2) as nat,
        budget,
    ));
    assert(s2.frame.stack.drop_last() =~= s1.frame.stack);
    assert(s1.frame.stack.drop_last() =~= s.frame.stack);
    assert(run_spec(table, cls, prog, s2, 2, depth, (fuel - 2) as nat, budget) == run_spec(
        table,
        cls,
        prog,
        s3,
        3,
        depth,
        (fuel - 3) as nat,
        budget,
    ));
    assert(s3.frame.stack.drop_last() =~= s.frame.stack);
    assert(run_spec(table, cls, prog, s3, 3, depth, (fuel - 3) as nat, budget).0 == Ok::<
        _,
        crate::interpreter::InterpreterError,
    >(InvokeResult::Value(Value::Integer(d))));
    assert((av as int) * (bv as int) <= 0x40000000 && (av as int) * (bv as int)
        >= -0x40000000) by (nonlinear_arith)
        requires
            -0x8000 <= av <= 0x7FFF,
            -0x8000 <= bv <= 0x7FFF,
    ;
    assert(d == (a as int * b as int) as i32);
}

/// `push n; istore i; iload i; ireturn`.
pub open spec fn local_round_trip_program(n: i16, i: u8) -> Seq<TaggedInstruction> {
    seq![
        TaggedInstruction { index: 0, instruction: Instruction::Sipush { value: n } },
        TaggedInstruction { index: 3, instruction: Instruction::Istore { index: i } },
        TaggedInstruction { index: 5, instruction: Instruction::Iload { index: i } },
        TaggedInstruction { index: 7, instruction: Instruction::Ireturn },
    ]
}

/// Local round trip: for every immediate value and every local slot within
/// bounds, `push n; istore i; iload i; ireturn` yields `n` back.
pub proof fn lemma_local_round_trip(
    table: Seq<RuntimeClassV>,
    cls: RuntimeClassV,
    s: State,
    n: i16,
    i: u8,
    depth: nat,
    fuel: nat,
    budget: nat,
)
    requires
        fuel >= 4,
        (i as int) < s.frame.locals.len(),
    ensures
        run_spec(table, cls, local_round_trip_program(n, i), s, 0, depth, fuel, budget).0 == Ok::<
            _,
            crate::interpreter::InterpreterError,
        >(InvokeResult::Value(Value::Integer(n as i32))),
{
    reveal_with_fuel(crate::interpreter::run_spec, 8);
    reveal_with_fuel(crate::interpreter::step_spec, 8);
    let prog = local_round_trip_program(n, i);
    let nv = n as i32;
    let s1 = State {
        frame: FrameV {
            locals: s.frame.locals,
            stack: s.frame.stack.push(Value::Integer(nv)),
        },
        heap: s.heap,
    };
    let s2 = State {
        frame: FrameV {
            locals: s.frame.locals.update(i as int, Value::Integer(nv)),
            stack: s.frame.stack,
        },
        heap: s.heap,
    };
    let s3 = State {
        frame: FrameV {
            locals: s2.frame.locals,
            stack: s.frame.stack.push(Value::Integer(nv)),
        },
        heap: s.heap,
    };
    assert(run_spec(table, cls, prog, s, 0, depth, fuel, budget) == run_spec(
        table,
        cls,
        prog,
        s1,
        1,
        depth,
        (fuel - 1) as nat,
        budget,
    ));
    assert(s1.frame.stack.drop_last() =~= s.frame.stack);
    assert(run_spec(table, cls, prog, s1, 1, depth, (fuel - 1) as nat, budget) == run_spec(
        table,
        cls,
        prog,
        s2,
        2,
        depth,
        (fuel - 2) as nat,
        budget,
    ));
    assert(run_spec(table, cls, prog, s2, 2, depth, (fuel - 2) as nat, budget) == run_spec(
        table,
        cls,
        prog,
        s3,
        3,
        depth,
        (fuel - 3) as nat,
        budget,
    ));
    assert(s3.frame.stack.drop_last() =~= s.frame.stack);
    assert(run_spec(table, cls, prog, s3, 3, depth, (fuel - 3) as nat, budget).0 == Ok::<
        _,
        crate::interpreter::InterpreterError,
    >(InvokeResult::Value(Value::Integer(nv))));
}

/// `push a; push b; if_icmpeq +5; iconst_0; ireturn; iconst_1; ireturn`:
/// the branch, taken only on equality, lands on the instruction at byte
/// offset 11.
pub open spec fn branch_program(a: i16, b: i16) -> Seq<TaggedInstruction> {
    seq![
        TaggedInstruction { index: 0, instruction: Instruction::Sipush { value: a } },
        TaggedInstruction { index: 3, instruction: Instruction::Sipush { value: b } },
        TaggedInstruction { index: 6, instruction: Instruction::IfIcmpeq { branch_offset: 5 } },
        TaggedInstruction { index: 9, instruction: Instruction::Iconst0 },
        TaggedInstruction { index: 10, instruction: Instruction::Ireturn },
        TaggedInstruction { index: 11, instruction: Instruction::Iconst1 },
        TaggedInstruction { index: 12, instruction: Instruction::Ireturn },
    ]
}

/// Branch correctness: comparing `a` and `b` for equality reaches the
/// branch target (which returns 1) exactly when they are equal, and falls
/// through (returning 0) otherwise — so byte-offset-to-instruction-index
/// resolution is exact.
pub proof fn lemma_branch_correctness(
    table: Seq<RuntimeClassV>,
    cls: RuntimeClassV,
    s: State,
    a: i16,
    b: i16,
    depth: nat,
    fuel: nat,
    budget: nat,
)
    requires
        fuel >= 5,
    ensures
        run_spec(table, cls, branch_program(a, b), s, 0, depth, fuel, budget).0 == Ok::<
            _,
            crate::interpreter::InterpreterError,
        >(InvokeResult::Value(Value::Integer(if a == b {
            1i32
        } else {
            0i32
        }))),
{
    reveal_with_fuel(crate::interpreter::run_spec, 8);
    reveal_with_fuel(crate::interpreter::step_spec, 8);
    let prog = branch_program(a, b);
    let av = a as i32;
    let bv = b as i32;
    let s1 = State {
        frame: FrameV {
            locals: s.frame.locals,
            stack: s.frame.stack.push(Value::Integer(av)),
        },
        heap: s.heap,
    };
    let s2 = State {
        frame: FrameV {
            locals: s.frame.locals,
            stack: s1.frame.stack.push(Value::Integer(bv)),
        },
        heap: s.heap,
    };
    assert(run_spec(table, cls, prog, s, 0, depth, fuel, budget) == run_spec(
        table,
        cls,
        prog,
        s1,
        1,
        depth,
        (fuel - 1) as nat,
        budget,
    ));
    assert(run_spec(table, cls, prog, s1, 1, depth, (fuel - 1) as nat, budget) == run_spec(
        table,
        cls,
        prog,
        s2,
        2,
        depth,
        (fuel - 2) as nat,
        budget,
    ));
    assert(s2.frame.stack.drop_last() =~= s1.frame.stack);
    assert(s1.frame.stack.drop_last() =~= s.frame.stack);
    let s3 = State { frame: FrameV { locals: s.frame.locals, stack: s.frame.stack }, heap: s.heap };
    assert(s3 =~= s);
    if a == b {
        reveal_with_fuel(crate::interpreter::find_instruction_index, 8);
        assert(crate::interpreter::find_instruction_index(prog, 11, 0) == Some(5int));
        assert(run_spec(table, cls, prog, s2, 2, depth, (fuel - 2) as nat, budget) == run_spec(
            table,
            cls,
            prog,
            s3,
            5,
            depth,
            (fuel - 3) as nat,
            budget,
        ));
        let s4 = State {
            frame: FrameV {
                locals: s.frame.locals,
                stack: s.frame.stack.push(Value::Integer(1)),
            },
            heap: s.heap,
        };
        assert(run_spec(table, cls, prog, s3, 5, depth, (fuel - 3) as nat, budget) == run_spec(
            table,
            cls,
            prog,
            s4,
            6,
            depth,
            (fuel - 4) as nat,
            budget,
        ));
        assert(s4.frame.stack.drop_last() =~= s.frame.stack);
        assert(run_spec(table, cls, prog, s4, 6, depth, (fuel - 4) as nat, budget).0 == Ok::<
            _,
            crate::interpreter::InterpreterError,
        >(InvokeResult::Value(Value::Integer(1))));
    } else {
        assert(run_spec(table, cls, prog, s2, 2, depth, (fuel - 2) as nat, budget) == run_spec(
            table,
            cls,
            prog,
            s3,
            3,
            depth,
            (fuel - 3) as nat,
            budget,
        ));
        let s4 = State {
            frame: FrameV {
                locals: s.frame.locals,
                stack: s.frame.stack.push(Value::Integer(0)),
            },
            heap: s.heap,
        };
        assert(run_spec(table, cls, prog, s3, 3, depth, (fuel - 3) as nat, budget) == run_spec(
            table,
            cls,
            prog,
            s4,
            4,
            depth,
            (fuel - 4) as nat,
            budget,
        ));
        assert(s4.frame.stack.drop_last() =~= s.frame.stack);
        assert(run_spec(table, cls, prog, s4, 4, depth, (fuel - 4) as nat, budget).0 == Ok::<
            _,
            crate::interpreter::InterpreterError,
        >(InvokeResult::Value(Value::Integer(0))));
    }
}

/// `new C; dup; push v; putfield f; getfield f; ireturn`.
pub open spec fn field_round_trip_program(ci: u16, fi: u16, v: i16) -> Seq<TaggedInstruction> {
    seq![
        TaggedInstruction { index: 0, instruction: Instruction::New { index: ci } },
        TaggedInstruction { index: 3, instruction: Instruction::Dup },
        TaggedInstruction { index: 4, instruction: Instruction::Sipush { value: v } },
        TaggedInstruction { index: 7, instruction: Instruction::Putfield { index: fi } },
        TaggedInstruction { index: 10, instruction: Instruction::Getfield { index: fi } },
        TaggedInstruction { index: 13, instruction: Instruction::Ireturn },
    ]
}

/// Object field round trip: on a class with a single integer field,
/// `new C; dup; push v; putfield f; getfield f; ireturn` yields `v` back.
/// The store goes through one copy of the duplicated reference and the
/// load through the other, so both alias the same heap record.
pub proof fn lemma_object_field_round_trip(
    table: Seq<RuntimeClassV>,
    cls: RuntimeClassV,
    s: State,
    v: i16,
    ci: u16,
    fi: u16,
    cname: Seq<char>,
    fname: Seq<char>,
    tci: usize,
    depth: nat,
    fuel: nat,
    budget: nat,
)
    requires
        fuel >= 6,
        s.heap.objects.len() <= usize::MAX,
        cp_class_name(cls.constant_pool, ci) == Ok::<_, crate::classfile::ResolutionError>(cname),
        cp_field_ref(cls.constant_pool, fi) matches Ok(m) && m.name == fname,
        find_class_index(table, cname, 0) == Some(tci as int),
        (tci as int) < table.len(),
        table[tci as int].fields.len() == 1,
        table[tci as int].fields[0].name == fname,
        table[tci as int].fields[0].descriptor is Integer,
    ensures
        run_spec(table, cls, field_round_trip_program(ci, fi, v), s, 0, depth, fuel, budget).0
            == Ok::<_, crate::interpreter::InterpreterError>(
            InvokeResult::Value(Value::Integer(v as i32)),
        ),
{
    reveal_with_fuel(crate::interpreter::run_spec, 10);
    reveal_with_fuel(crate::interpreter::step_spec, 10);
    reveal_with_fuel(crate::rtclass::field_slot, 4);
    let prog = field_round_trip_program(ci, fi, v);
    let vv = v as i32;
    let h = s.heap.objects.len() as usize;
    let defaults = default_fields_spec(table[tci as int].fields);
    assert(defaults =~= seq![Value::Integer(0)]);
    let obj0 = ObjectV { class_index: tci, fields: defaults };
    let heap1 = HeapV { objects: s.heap.objects.push(obj0), arrays: s.heap.arrays };
    let s1 = State {
        frame: FrameV {
            locals: s.frame.locals,
            stack: s.frame.stack.push(Value::ObjectRef(h)),
        },
        heap: heap1,
    };
    assert(run_spec(table, cls, prog, s, 0, depth, fuel, budget) == run_spec(
        table,
        cls,
        prog,
        s1,
        1,
        depth,
        (fuel - 1) as nat,
        budget,
    ));
    let s2 = State {
        frame: FrameV {
            locals: s.frame.locals,
            stack: s1.frame.stack.push(Value::ObjectRef(h)),
        },
        heap: heap1,
    };
    assert(run_spec(table, cls, prog, s1, 1, depth, (fuel - 1) as nat, budget) == run_spec(
        table,
        cls,
        prog,
        s2,
        2,
        depth,
        (fuel - 2) as nat,
        budget,
    ));
    let s3 = State {
        frame: FrameV {
            locals: s.frame.locals,
            stack: s2.frame.stack.push(Value::Integer(vv)),
        },
        heap: heap1,
    };
    assert(run_spec(table, cls, prog, s2, 2, depth, (fuel - 2) as nat, budget) == run_spec(
        table,
        cls,
        prog,
        s3,
        3,
        depth,
        (fuel - 3) as nat,
        budget,
    ));
    let mref = cp_field_ref(cls.constant_pool, fi)->Ok_0;
    assert(field_slot(table[tci as int].fields, mref.name, 0) == Some(0int));
    assert(s3.frame.stack.drop_last() =~= s2.frame.stack);
    assert(s2.frame.stack.drop_last() =~= s1.frame.stack);
    let obj1 = ObjectV { class_index: tci, fields: defaults.update(0, Value::Integer(vv)) };
    let heap2 = HeapV { objects: heap1.objects.update(h as int, obj1), arrays: s.heap.arrays };
    let s4 = State {
        frame: FrameV { locals: s.frame.locals, stack: s1.frame.stack },
        heap: heap2,
    };
    assert(run_spec(table, cls, prog, s3, 3, depth, (fuel - 3) as nat, budget) == run_spec(
        table,
        cls,
        prog,
        s4,
        4,
        depth,
        (fuel - 4) as nat,
        budget,
    ));
    assert(s4.frame.stack.drop_last() =~= s.frame.stack);
    assert(heap2.objects[h as int].fields[0] == Value::Integer(vv));
    let s5 = State {
        frame: FrameV {
            locals: s.frame.locals,
            stack: s.frame.stack.push(Value::Integer(vv)),
        },
        heap: heap2,
    };
    assert(run_spec(table, cls, prog, s4, 4, depth, (fuel - 4) as nat, budget) == run_spec(
        table,
        cls,
        prog,
        s5,
        5,
        depth,
        (fuel - 5) as nat,
        budget,
    ));
    assert(s5.frame.stack.drop_last() =~= s.frame.stack);
    assert(run_spec(table, cls, prog, s5, 5, depth, (fuel - 5) as nat, budget).0 == Ok::<
        _,
        crate::interpreter::InterpreterError,
    >(InvokeResult::Value(Value::Integer(vv))));
}

/// `newarray int[3]; dup; push 0; push v; iastore; push 0; iaload;
/// ireturn`.
pub open spec fn array_round_trip_program(v: i16) -> Seq<TaggedInstruction> {
    seq![
        TaggedInstruction { index: 0, instruction: Instruction::Iconst3 },
        TaggedInstruction { index: 1, instruction: Instruction::Newarray { atype: 10 } },
        TaggedInstruction { index: 3, instruction: Instruction::Dup },
        TaggedInstruction { index: 4, instruction: Instruction::Iconst0 },
        TaggedInstruction { index: 5, instruction: Instruction::Sipush { value: v } },
        TaggedInstruction { index: 8, instruction: Instruction::Iastore },
        TaggedInstruction { index: 9, instruction: Instruction::Iconst0 },
        TaggedInstruction { index: 10, instruction: Instruction::Iaload },
        TaggedInstruction { index: 11, instruction: Instruction::Ireturn },
    ]
}

/// Array round trip and aliasing: allocating a three-element integer
/// array, storing `v` at index 0 through one copy of the duplicated
/// reference and loading index 0 through the other yields `v` — the two
/// copies observe the same array record.
pub proof fn lemma_array_round_trip(
    table: Seq<RuntimeClassV>,
    cls: RuntimeClassV,
    s: State,
    v: i16,
    depth: nat,
    fuel: nat,
    budget: nat,
)
    requires
        fuel >= 9,
        s.heap.arrays.len() <= usize::MAX,
    ensures
        run_spec(table, cls, array_round_trip_program(v), s, 0, depth, fuel, budget).0 == Ok::<
            _,
            crate::interpreter::InterpreterError,
        >(InvokeResult::Value(Value::Integer(v as i32))),
{
    reveal_with_fuel(crate::interpreter::run_spec, 12);
    reveal_with_fuel(crate::interpreter::step_spec, 12);
    let prog = array_round_trip_program(v);
    let vv = v as i32;
    let h = s.heap.arrays.len() as usize;
    let zeros = Seq::new(3nat, |i: int| 0i32);
    let s1 = State {
        frame: FrameV {
            locals: s.frame.locals,
            stack: s.frame.stack.push(Value::Integer(3)),
        },
        heap: s.heap,
    };
    assert(run_spec(table, cls, prog, s, 0, depth, fuel, budget) == run_spec(
        table,
        cls,
        prog,
        s1,
        1,
        depth,
        (fuel - 1) as nat,
        budget,
    ));
    assert(s1.frame.stack.drop_last() =~= s.frame.stack);
    let heap1 = HeapV { objects: s.heap.objects, arrays: s.heap.arrays.push(zeros) };
    let s2 = State {
        frame: FrameV {
            locals: s.frame.locals,
            stack: s.frame.stack.push(Value::IntegerArrayRef(h)),
        },
        heap: heap1,
    };
    assert(run_spec(table, cls, prog, s1, 1, depth, (fuel - 1) as nat, budget) == run_spec(
        table,
        cls,
        prog,
        s2,
        2,
        depth,
        (fuel - 2) as nat,
        budget,
    ));
    let s3 = State {
        frame: FrameV {
            locals: s.frame.locals,
            stack: s2.frame.stack.push(Value::IntegerArrayRef(h)),
        },
        heap: heap1,
    };
    assert(run_spec(table, cls, prog, s2, 2, depth, (fuel - 2) as nat, budget) == run_spec(
        table,
        cls,
        prog,
        s3,
        3,
        depth,
        (fuel - 3) as nat,
        budget,
    ));
    let s4 = State {
        frame: FrameV {
            locals: s.frame.locals,
            stack: s3.frame.stack.push(Value::Integer(0)),
        },
        heap: heap1,
    };
    assert(run_spec(table, cls, prog, s3, 3, depth, (fuel - 3) as nat, budget) == run_spec(
        table,
        cls,
        prog,
        s4,
        4,
        depth,
        (fuel - 4) as nat,
        budget,
    ));
    let s5 = State {
        frame: FrameV {
            locals: s.frame.locals,
            stack: s4.frame.stack.push(Value::Integer(vv)),
        },
        heap: heap1,
    };
    assert(run_spec(table, cls, prog, s4, 4, depth, (fuel - 4) as nat, budget) == run_spec(
        table,
        cls,
        prog,
        s5,
        5,
        depth,
        (fuel - 5) as nat,
        budget,
    ));
    assert(s5.frame.stack.drop_last() =~= s4.frame.stack);
    assert(s4.frame.stack.drop_last() =~= s3.frame.stack);
    assert(s3.frame.stack.drop_last() =~= s2.frame.stack);
    let stored = zeros.update(0, vv);
    let heap2 = HeapV {
        objects: s.heap.objects,
        arrays: heap1.arrays.update(h as int, stored),
    };
    let s6 = State {
        frame: FrameV { locals: s.frame.locals, stack: s2.frame.stack },
        heap: heap2,
    };
    assert(run_spec(table, cls, prog, s5, 5, depth, (fuel - 5) as nat, budget) == run_spec(
        table,
        cls,
        prog,
        s6,
        6,
        depth,
        (fuel - 6) as nat,
        budget,
    ));
    let s7 = State {
        frame: FrameV {
            locals: s.frame.locals,
            stack: s6.frame.stack.push(Value::Integer(0)),
        },
        heap: heap2,
    };
    assert(run_spec(table, cls, prog, s6, 6, depth, (fuel - 6) as nat, budget) == run_spec(
        table,
        cls,
        prog,
        s7,
        7,
        depth,
        (fuel - 7) as nat,
        budget,
    ));
    assert(s7.frame.stack.drop_last() =~= s6.frame.stack);
    assert(s6.frame.stack.drop_last() =~= s.frame.stack);
    assert(heap2.arrays[h as int][0] == vv);
    let s8 = State {
        frame: FrameV {
            locals: s.frame.locals,
            stack: s.frame.stack.push(Value::Integer(vv)),
        },
        heap: heap2,
    };
    assert(run_spec(table, cls, prog, s7, 7, depth, (fuel - 7) as nat, budget) == run_spec(
        table,
        cls,
        prog,
        s8,
        8,
        depth,
        (fuel - 8) as nat,
        budget,
    ));
    assert(s8.frame.stack.drop_last() =~= s.frame.stack);
    assert(run_spec(table, cls, prog, s8, 8, depth, (fuel - 8) as nat, budget).0 == Ok::<
        _,
        crate::interpreter::InterpreterError,
    >(InvokeResult::Value(Value::Integer(vv))));
}

/// `push a; push b; invokestatic m; ireturn`.
pub open spec fn static_invoke_program(a: i16, b: i16, mi: u16) -> Seq<TaggedInstruction> {
    seq![
        TaggedInstruction { index: 0, instruction: Instruction::Sipush { value: a } },
        TaggedInstruction { index: 3, instruction: Instruction::Sipush { value: b } },
        TaggedInstruction { index: 6, instruction: Instruction::Invokestatic { index: mi } },
        TaggedInstruction { index: 9, instruction: Instruction::Ireturn },
    ]
}

/// A method body that returns the integer in one local slot:
/// `iload slot; ireturn`.
pub open spec fn return_int_local_body(slot: u8) -> Seq<TaggedInstruction> {
    seq![
        TaggedInstruction { index: 0, instruction: Instruction::Iload { index: slot } },
        TaggedInstruction { index: 1, instruction: Instruction::Ireturn },
    ]
}

/// A method body that returns whatever one local slot holds:
/// `aload slot; ireturn`.
pub open spec fn return_local_body(slot: u8) -> Seq<TaggedInstruction> {
    seq![
        TaggedInstruction { index: 0, instruction: Instruction::Aload { index: slot } },
        TaggedInstruction { index: 1, instruction: Instruction::Ireturn },
    ]
}

/// Static invocation argument order: invoking a two-argument static
/// method with arguments pushed in order `(a, b)` binds local slot 0 to
/// `a` and slot 1 to `b` — a callee returning slot 0 yields `a`, one
/// returning slot 1 yields `b`.
pub proof fn lemma_static_invocation_argument_order(
    table: Seq<RuntimeClassV>,
    cls: RuntimeClassV,
    s: State,
    a: i16,
    b: i16,
    mi: u16,
    cname: Seq<char>,
    mname: Seq<char>,
    dsc: Seq<char>,
    tci: usize,
    mj: int,
    slot: u8,
    depth: nat,
    fuel: nat,
    budget: nat,
)
    requires
        fuel >= 4,
        depth >= 1,
        budget >= 2,
        slot < 2,
        cp_method_ref(cls.constant_pool, mi) matches Ok(m) && m.class_name == cname && m.name
            == mname && m.descriptor == dsc,
        find_class_index(table, cname, 0) == Some(tci as int),
        (tci as int) < table.len(),
        find_runtime_method(table[tci as int].methods, mname, 0) == Some(mj),
        0 <= mj < table[tci as int].methods.len(),
        table[tci as int].methods[mj].code.instructions == return_int_local_body(slot),
        table[tci as int].methods[mj].code.max_locals >= 2,
        parse_method_descriptor(dsc) matches Some(md) && md.params.len() == 2,
    ensures
        run_spec(table, cls, static_invoke_program(a, b, mi), s, 0, depth, fuel, budget).0 == Ok::<
            _,
            crate::interpreter::InterpreterError,
        >(InvokeResult::Value(Value::Integer(if slot == 0 {
            a as i32
        } else {
            b as i32
        }))),
{
    reveal_with_fuel(crate::interpreter::run_spec, 8);
    reveal_with_fuel(crate::interpreter::step_spec, 8);
    reveal_with_fuel(crate::interpreter::invoke_spec, 4);
    let prog = static_invoke_program(a, b, mi);
    let av = a as i32;
    let bv = b as i32;
    let s1 = State {
        frame: FrameV {
            locals: s.frame.locals,
            stack: s.frame.stack.push(Value::Integer(av)),
        },
        heap: s.heap,
    };
    let s2 = State {
        frame: FrameV {
            locals: s.frame.locals,
            stack: s1.frame.stack.push(Value::Integer(bv)),
        },
        heap: s.heap,
    };
    assert(run_spec(table, cls, prog, s, 0, depth, fuel, budget) == run_spec(
        table,
        cls,
        prog,
        s1,
        1,
        depth,
        (fuel - 1) as nat,
        budget,
    ));
    assert(run_spec(table, cls, prog, s1, 1, depth, (fuel - 1) as nat, budget) == run_spec(
        table,
        cls,
        prog,
        s2,
        2,
        depth,
        (fuel - 2) as nat,
        budget,
    ));
    let invoked = table[tci as int];
    let method = invoked.methods[mj];
    let args = seq![Value::Integer(av), Value::Integer(bv)];
    assert(s2.frame.stack.subrange(
        s2.frame.stack.len() - 2,
        s2.frame.stack.len() as int,
    ) =~= args);
    assert(s2.frame.stack.take(s2.frame.stack.len() - 2) =~= s.frame.stack);
    assert(crate::interpreter::resolve_invoke(table, cls, s2.frame.stack, mi) == Ok::<
        _,
        crate::interpreter::InterpreterError,
    >((invoked, method, args, s.frame.stack)));
    let ml = method.code.max_locals as int;
    let callee_locals = args + Seq::new((ml - 2) as nat, |i: int| Value::Null);
    let callee0 = State {
        frame: FrameV { locals: callee_locals, stack: Seq::empty() },
        heap: s.heap,
    };
    assert(callee_locals.len() == ml);
    assert(callee_locals[slot as int] == args[slot as int]);
    let body = return_int_local_body(slot);
    let x: i32 = if slot == 0 {
        av
    } else {
        bv
    };
    let c1 = State {
        frame: FrameV {
            locals: callee_locals,
            stack: Seq::<Value>::empty().push(Value::Integer(x)),
        },
        heap: s.heap,
    };
    assert(run_spec(table, invoked, body, callee0, 0, (depth - 1) as nat, budget, budget)
        == run_spec(table, invoked, body, c1, 1, (depth - 1) as nat, (budget - 1) as nat, budget));
    assert(c1.frame.stack.drop_last() =~= Seq::<Value>::empty());
    assert(run_spec(table, invoked, body, c1, 1, (depth - 1) as nat, (budget - 1) as nat,
    budget).0 == Ok::<_, crate::interpreter::InterpreterError>(
        InvokeResult::Value(Value::Integer(x)),
    ));
    let rr = invoke_spec(table, invoked, method, args, s.heap, (depth - 1) as nat, budget, budget);
    assert(rr.0 == Ok::<_, crate::interpreter::InterpreterError>(
        InvokeResult::Value(Value::Integer(x)),
    ));
    let s3 = State {
        frame: FrameV {
            locals: s.frame.locals,
            stack: s.frame.stack.push(Value::Integer(x)),
        },
        heap: rr.1,
    };
    assert(run_spec(table, cls, prog, s2, 2, depth, (fuel - 2) as nat, budget) == run_spec(
        table,
        cls,
        prog,
        s3,
        3,
        depth,
        (fuel - 3) as nat,
        budget,
    ));
    assert(s3.frame.stack.drop_last() =~= s.frame.stack);
    assert(run_spec(table, cls, prog, s3, 3, depth, (fuel - 3) as nat, budget).0 == Ok::<
        _,
        crate::interpreter::InterpreterError,
    >(InvokeResult::Value(Value::Integer(x))));
}

/// `new C; push a; invokevirtual m; ireturn`.
pub open spec fn virtual_invoke_program(ci: u16, a: i16, mi: u16) -> Seq<TaggedInstruction> {
    seq![
        TaggedInstruction { index: 0, instruction: Instruction::New { index: ci } },
        TaggedInstruction { index: 3, instruction: Instruction::Sipush { value: a } },
        TaggedInstruction { index: 6, instruction: Instruction::Invokevirtual { index: mi } },
        TaggedInstruction { index: 9, instruction: Instruction::Ireturn },
    ]
}

/// Virtual invocation argument order: invoking a one-argument instance
/// method binds the receiver to local slot 0 and shifts the declared
/// argument to slot 1 — a callee returning slot 0 yields the receiver
/// reference, one returning slot 1 yields the argument.
pub proof fn lemma_virtual_invocation_argument_order(
    table: Seq<RuntimeClassV>,
    cls: RuntimeClassV,
    s: State,
    a: i16,
    ci: u16,
    mi: u16,
    cname: Seq<char>,
    mname: Seq<char>,
    dsc: Seq<char>,
    tci: usize,
    mj: int,
    slot: u8,
    depth: nat,
    fuel: nat,
    budget: nat,
)
    requires
        fuel >= 4,
        depth >= 1,
        budget >= 2,
        slot < 2,
        s.heap.objects.len() <= usize::MAX,
        cp_class_name(cls.constant_pool, ci) == Ok::<_, crate::classfile::ResolutionError>(cname),
        cp_method_ref(cls.constant_pool, mi) matches Ok(m) && m.class_name == cname && m.name
            == mname && m.descriptor == dsc,
        find_class_index(table, cname, 0) == Some(tci as int),
        (tci as int) < table.len(),
        find_runtime_method(table[tci as int].methods, mname, 0) == Some(mj),
        0 <= mj < table[tci as int].methods.len(),
        table[tci as int].methods[mj].code.instructions == return_local_body(slot),
        table[tci as int].methods[mj].code.max_locals >= 2,
        parse_method_descriptor(dsc) matches Some(md) && md.params.len() == 1,
    ensures
        run_spec(table, cls, virtual_invoke_program(ci, a, mi), s, 0, depth, fuel, budget).0
            == Ok::<_, crate::interpreter::InterpreterError>(
            InvokeResult::Value(
                if slot == 0 {
                    Value::ObjectRef(s.heap.objects.len() as usize)
                } else {
                    Value::Integer(a as i32)
                },
            ),
        ),
{
    reveal_with_fuel(crate::interpreter::run_spec, 8);
    reveal_with_fuel(crate::interpreter::step_spec, 8);
    reveal_with_fuel(crate::interpreter::invoke_spec, 4);
    let prog = virtual_invoke_program(ci, a, mi);
    let av = a as i32;
    let h = s.heap.objects.len() as usize;
    let obj0 = ObjectV {
        class_index: tci,
        fields: default_fields_spec(table[tci as int].fields),
    };
    let heap1 = HeapV { objects: s.heap.objects.push(obj0), arrays: s.heap.arrays };
    let s1 = State {
        frame: FrameV {
            locals: s.frame.locals,
            stack: s.frame.stack.push(Value::ObjectRef(h)),
        },
        heap: heap1,
    };
    assert(run_spec(table, cls, prog, s, 0, depth, fuel, budget) == run_spec(
        table,
        cls,
        prog,
        s1,
        1,
        depth,
        (fuel - 1) as nat,
        budget,
    ));
    let s2 = State {
        frame: FrameV {
            locals: s.frame.locals,
            stack: s1.frame.stack.push(Value::Integer(av)),
        },
        heap: heap1,
    };
    assert(run_spec(table, cls, prog, s1, 1, depth, (fuel - 1) as nat, budget) == run_spec(
        table,
        cls,
        prog,
        s2,
        2,
        depth,
        (fuel - 2) as nat,
        budget,
    ));
    let invoked = table[tci as int];
    let method = invoked.methods[mj];
    let args = seq![Value::Integer(av)];
    assert(s2.frame.stack.subrange(
        s2.frame.stack.len() - 1,
        s2.frame.stack.len() as int,
    ) =~= args);
    assert(s2.frame.stack.take(s2.frame.stack.len() - 1) =~= s1.frame.stack);
    assert(crate::interpreter::resolve_invoke(table, cls, s2.frame.stack, mi) == Ok::<
        _,
        crate::interpreter::InterpreterError,
    >((invoked, method, args, s1.frame.stack)));
    assert(s1.frame.stack.drop_last() =~= s.frame.stack);
    let seed = seq![Value::ObjectRef(h)] + args;
    let ml = method.code.max_locals as int;
    let callee_locals = seed + Seq::new((ml - 2) as nat, |i: int| Value::Null);
    let callee0 = State {
        frame: FrameV { locals: callee_locals, stack: Seq::empty() },
        heap: heap1,
    };
    assert(seed.len() == 2);
    assert(callee_locals.len() == ml);
    assert(callee_locals[0] == Value::ObjectRef(h));
    assert(callee_locals[1] == Value::Integer(av));
    let body = return_local_body(slot);
    let x: Value = if slot == 0 {
        Value::ObjectRef(h)
    } else {
        Value::Integer(av)
    };
    assert(callee_locals[slot as int] == x);
    let c1 = State {
        frame: FrameV { locals: callee_locals, stack: Seq::<Value>::empty().push(x) },
        heap: heap1,
    };
    assert(run_spec(table, invoked, body, callee0, 0, (depth - 1) as nat, budget, budget)
        == run_spec(table, invoked, body, c1, 1, (depth - 1) as nat, (budget - 1) as nat, budget));
    assert(c1.frame.stack.drop_last() =~= Seq::<Value>::empty());
    assert(run_spec(table, invoked, body, c1, 1, (depth - 1) as nat, (budget - 1) as nat,
    budget).0 == Ok::<_, crate::interpreter::InterpreterError>(InvokeResult::Value(x)));
    let rr = invoke_spec(table, invoked, method, seed, heap1, (depth - 1) as nat, budget, budget);
    assert(rr.0 == Ok::<_, crate::interpreter::InterpreterError>(InvokeResult::Value(x)));
    let s3 = State {
        frame: FrameV { locals: s.frame.locals, stack: s.frame.stack.push(x) },
        heap: rr.1,
    };
    assert(run_spec(table, cls, prog, s2, 2, depth, (fuel - 2) as nat, budget) == run_spec(
        table,
        cls,
        prog,
        s3,
        3,
        depth,
        (fuel - 3) as nat,
        budget,
    ));
    assert(s3.frame.stack.drop_last() =~= s.frame.stack);
    assert(run_spec(table, cls, prog, s3, 3, depth, (fuel - 3) as nat, budget).0 == Ok::<
        _,
        crate::interpreter::InterpreterError,
    >(InvokeResult::Value(x)));
}

/// Default field values: a class declaring one integer field and one
/// class-reference field yields the default vector `[0, null]`, so a
/// freshly constructed object starts with those values.
pub proof fn lemma_default_field_values(f_int: RuntimeFieldV, f_ref: RuntimeFieldV)
    requires
        f_int.descriptor is Integer,
        f_ref.descriptor is ClassReference,
    ensures
        default_fields_spec(seq![f_int, f_ref]) =~= seq![Value::Integer(0), Value::Null],
{
    assert(default_value(f_int.descriptor) == Value::Integer(0));
    assert(default_value(f_ref.descriptor) == Value::Null);
}

} // verus!
