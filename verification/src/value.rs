//! The tagged union of runtime operand types.

use vstd::prelude::*;

verus! {

/// A value that can be stored in a local-variable slot or on the operand
/// stack: a primitive, a reference to a heap record, or the null marker.
///
/// Reference variants carry a handle (an index into the [`crate::heap::Heap`]
/// arena) rather than a pointer, so copying a `Value` copies the handle and
/// every copy aliases the same heap record.
#[derive(Clone, Copy, Debug, PartialEq, Eq, Structural)]
pub enum Value {
    Long(i64),
    Integer(i32),
    Short(i16),
    Byte(i8),
    Character(char),
    ObjectRef(usize),
    IntegerArrayRef(usize),
    Null,
}

} // verus!
