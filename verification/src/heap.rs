//! Heap records: field-indexed object instances and fixed-length integer
//! arrays, held in an arena and shared by handle.
//!
//! A [`crate::value::Value`] carries a handle (an index into the arena)
//! rather than a pointer, so every copy of a reference value aliases the
//! same record, and a mutation through one copy is visible through all.

use vstd::prelude::*;
use crate::rtclass::{RuntimeClass, field_slot};
use crate::value::Value;

verus! {

/// An object instance: the table position of its defining class, and one
/// value slot per declared field, in declaration order.
#[derive(Debug)]
pub struct Object {
    pub class_index: usize,
    pub fields: Vec<Value>,
}

/// The view of an [`Object`].
#[verifier::ext_equal]
pub ghost struct ObjectV {
    pub class_index: usize,
    pub fields: Seq<Value>,
}

impl View for Object {
    type V = ObjectV;

    open spec fn view(&self) -> ObjectV {
        ObjectV { class_index: self.class_index, fields: self.fields@ }
    }
}

impl Object {
    /// Writes the named field's slot; `false`, leaving the object
    /// unchanged, when the class declares no such field or the object has
    /// no slot for it.
    pub fn put_field(&mut self, class: &RuntimeClass, field_name: &str, value: Value) -> (r: bool)
        ensures
            match field_slot(class@.fields, field_name@, 0) {
                Some(i) => if 0 <= i < old(self)@.fields.len() {
                    r && final(self)@ == (ObjectV {
                        class_index: old(self)@.class_index,
                        fields: old(self)@.fields.update(i, value),
                    })
                } else {
                    !r && final(self)@ == old(self)@
                },
                None => !r && final(self)@ == old(self)@,
            },
    {
        match class.find_field_slot(field_name) {
            Some(i) => {
                if i < self.fields.len() {
                    self.fields[i] = value;
                    true
                } else {
                    false
                }
            },
            None => false,
        }
    }

    /// Reads the named field's slot; `None` when the class declares no
    /// such field or the object has no slot for it.
    pub fn get_field(&self, class: &RuntimeClass, field_name: &str) -> (r: Option<Value>)
        ensures
            match field_slot(class@.fields, field_name@, 0) {
                Some(i) => if 0 <= i < self@.fields.len() {
                    r == Some(self@.fields[i])
                } else {
                    r is None
                },
                None => r is None,
            },
    {
        match class.find_field_slot(field_name) {
            Some(i) => {
                if i < self.fields.len() {
                    Some(self.fields[i])
                } else {
                    None
                }
            },
            None => None,
        }
    }
}

/// A fixed-length, zero-initialized array of 32-bit integers.
#[derive(Debug)]
pub struct IntArray {
    array: Vec<i32>,
}

impl View for IntArray {
    type V = Seq<i32>;

    closed spec fn view(&self) -> Seq<i32> {
        self.array@
    }
}

impl IntArray {
    /// A zero-filled array of `size` elements.
    pub fn new(size: usize) -> (r: IntArray)
        ensures
            r@ == Seq::new(size as nat, |i: int| 0i32),
    {
        let mut array: Vec<i32> = Vec::new();
        let mut i: usize = 0;
        while i < size
            invariant
                i <= size,
                array@.len() == i,
                forall|k: int| 0 <= k < i ==> array@[k] == 0i32,
            decreases size - i,
        {
            array.push(0);
            i = i + 1;
        }
        proof {
            assert(array@ =~= Seq::new(size as nat, |j: int| 0i32));
        }
        IntArray { array }
    }

    /// The element at `index`.
    pub fn get(&self, index: usize) -> (r: i32)
        requires
            index < self@.len(),
        ensures
            r == self@[index as int],
    {
        self.array[index]
    }

    /// Replaces the element at `index`.
    pub fn set(&mut self, index: usize, value: i32)
        requires
            index < old(self)@.len(),
        ensures
            final(self)@ == old(self)@.update(index as int, value),
    {
        self.array[index] = value;
    }

    /// The number of elements.
    pub fn len(&self) -> (r: usize)
        ensures
            r == self@.len(),
    {
        self.array.len()
    }
}

/// The view of a [`Heap`]: the object records and the integer arrays, each
/// addressed by the handle a reference value carries.
#[verifier::ext_equal]
pub ghost struct HeapV {
    pub objects: Seq<ObjectV>,
    pub arrays: Seq<Seq<i32>>,
}

/// The arena holding every heap record of one runtime. Handles index into
/// it and stay valid for its whole lifetime: records are never removed.
#[derive(Debug)]
pub struct Heap {
    objects: Vec<Object>,
    arrays: Vec<IntArray>,
}

impl View for Heap {
    type V = HeapV;

    closed spec fn view(&self) -> HeapV {
        HeapV {
            objects: self.objects@.map_values(|o: Object| o@),
            arrays: self.arrays@.map_values(|a: IntArray| a@),
        }
    }
}

impl Heap {
    /// An empty heap.
    pub fn new() -> (r: Heap)
        ensures
            r@.objects == Seq::<ObjectV>::empty(),
            r@.arrays == Seq::<Seq<i32>>::empty(),
    {
        let h = Heap { objects: Vec::new(), arrays: Vec::new() };
        proof {
            assert(h@.objects =~= Seq::<ObjectV>::empty());
            assert(h@.arrays =~= Seq::<Seq<i32>>::empty());
        }
        h
    }

    /// How many objects have been allocated.
    pub fn object_count(&self) -> (r: usize)
        ensures
            r == self@.objects.len(),
    {
        proof {
            assert(self@.objects.len() == self.objects@.len());
        }
        self.objects.len()
    }

    /// How many arrays have been allocated.
    pub fn array_count(&self) -> (r: usize)
        ensures
            r == self@.arrays.len(),
    {
        proof {
            assert(self@.arrays.len() == self.arrays@.len());
        }
        self.arrays.len()
    }

    /// Allocates a fresh object and returns its handle.
    pub fn alloc_object(&mut self, class_index: usize, fields: Vec<Value>) -> (h: usize)
        ensures
            h == old(self)@.objects.len(),
            final(self)@.objects == old(self)@.objects.push(
                ObjectV { class_index, fields: fields@ },
            ),
            final(self)@.arrays == old(self)@.arrays,
    {
        let h = self.objects.len();
        self.objects.push(Object { class_index, fields });
        proof {
            assert forall|k: int| 0 <= k < self@.objects.len() implies self@.objects[k] == old(
                self,
            )@.objects.push(ObjectV { class_index, fields: fields@ })[k] by {
                assert(self@.objects[k] == self.objects@[k]@);
            }
            assert(self@.objects =~= old(self)@.objects.push(
                ObjectV { class_index, fields: fields@ },
            ));
            assert(self@.arrays =~= old(self)@.arrays);
        }
        h
    }

    /// Allocates a fresh zero-filled integer array and returns its handle.
    pub fn alloc_int_array(&mut self, size: usize) -> (h: usize)
        ensures
            h == old(self)@.arrays.len(),
            final(self)@.arrays == old(self)@.arrays.push(Seq::new(size as nat, |i: int| 0i32)),
            final(self)@.objects == old(self)@.objects,
    {
        let h = self.arrays.len();
        self.arrays.push(IntArray::new(size));
        proof {
            assert forall|k: int| 0 <= k < self@.arrays.len() implies self@.arrays[k] == old(
                self,
            )@.arrays.push(Seq::new(size as nat, |i: int| 0i32))[k] by {
                assert(self@.arrays[k] == self.arrays@[k]@);
            }
            assert(self@.arrays =~= old(self)@.arrays.push(Seq::new(size as nat, |i: int| 0i32)));
            assert(self@.objects =~= old(self)@.objects);
        }
        h
    }

    /// The table position of the class of the object behind `h`.
    pub fn object_class_index(&self, h: usize) -> (r: usize)
        requires
            h < self@.objects.len(),
        ensures
            r == self@.objects[h as int].class_index,
    {
        proof {
            assert(self@.objects[h as int] == self.objects@[h as int]@);
        }
        self.objects[h].class_index
    }

    /// Writes the named field of the object behind `h`; `false` when the
    /// class declares no such field or the object has no slot for it.
    pub fn put_object_field(
        &mut self,
        h: usize,
        class: &RuntimeClass,
        field_name: &str,
        value: Value,
    ) -> (r: bool)
        requires
            h < old(self)@.objects.len(),
        ensures
            final(self)@.arrays == old(self)@.arrays,
            match field_slot(class@.fields, field_name@, 0) {
                Some(i) => if 0 <= i < old(self)@.objects[h as int].fields.len() {
                    r && final(self)@.objects == old(self)@.objects.update(
                        h as int,
                        ObjectV {
                            class_index: old(self)@.objects[h as int].class_index,
                            fields: old(self)@.objects[h as int].fields.update(i, value),
                        },
                    )
                } else {
                    !r && final(self)@ == old(self)@
                },
                None => !r && final(self)@ == old(self)@,
            },
    {
        proof {
            assert(self@.objects[h as int] == self.objects@[h as int]@);
        }
        let r = self.objects[h].put_field(class, field_name, value);
        proof {
            assert forall|k: int|
                0 <= k < self@.objects.len() && k != h implies self@.objects[k] == old(
                self,
            )@.objects[k] by {
                assert(self@.objects[k] == self.objects@[k]@);
                assert(old(self)@.objects[k] == old(self).objects@[k]@);
            }
            assert(self@.objects[h as int] == self.objects@[h as int]@);
            assert(self@.arrays =~= old(self)@.arrays);
            if r {
                match field_slot(class@.fields, field_name@, 0) {
                    Some(i) => {
                        assert(self@.objects =~= old(self)@.objects.update(
                            h as int,
                            ObjectV {
                                class_index: old(self)@.objects[h as int].class_index,
                                fields: old(self)@.objects[h as int].fields.update(i, value),
                            },
                        ));
                    },
                    None => {},
                }
            } else {
                assert(self@.objects =~= old(self)@.objects);
            }
        }
        r
    }

    /// Reads the named field of the object behind `h`; `None` when the
    /// class declares no such field or the object has no slot for it.
    pub fn get_object_field(&self, h: usize, class: &RuntimeClass, field_name: &str) -> (r: Option<
        Value,
    >)
        requires
            h < self@.objects.len(),
        ensures
            match field_slot(class@.fields, field_name@, 0) {
                Some(i) => if 0 <= i < self@.objects[h as int].fields.len() {
                    r == Some(self@.objects[h as int].fields[i])
                } else {
                    r is None
                },
                None => r is None,
            },
    {
        proof {
            assert(self@.objects[h as int] == self.objects@[h as int]@);
        }
        self.objects[h].get_field(class, field_name)
    }

    /// The length of the array behind `h`.
    pub fn array_len(&self, h: usize) -> (r: usize)
        requires
            h < self@.arrays.len(),
        ensures
            r == self@.arrays[h as int].len(),
    {
        proof {
            assert(self@.arrays[h as int] == self.arrays@[h as int]@);
        }
        self.arrays[h].len()
    }

    /// The element at `index` of the array behind `h`.
    pub fn array_get(&self, h: usize, index: usize) -> (r: i32)
        requires
            h < self@.arrays.len(),
            index < self@.arrays[h as int].len(),
        ensures
            r == self@.arrays[h as int][index as int],
    {
        proof {
            assert(self@.arrays[h as int] == self.arrays@[h as int]@);
        }
        self.arrays[h].get(index)
    }

    /// Replaces the element at `index` of the array behind `h`.
    pub fn array_set(&mut self, h: usize, index: usize, value: i32)
        requires
            h < old(self)@.arrays.len(),
            index < old(self)@.arrays[h as int].len(),
        ensures
            final(self)@.objects == old(self)@.objects,
            final(self)@.arrays == old(self)@.arrays.update(
                h as int,
                old(self)@.arrays[h as int].update(index as int, value),
            ),
    {
        proof {
            assert(self@.arrays[h as int] == self.arrays@[h as int]@);
        }
        self.arrays[h].set(index, value);
        proof {
            assert forall|k: int|
                0 <= k < self@.arrays.len() && k != h implies self@.arrays[k] == old(
                self,
            )@.arrays[k] by {
                assert(self@.arrays[k] == self.arrays@[k]@);
                assert(old(self)@.arrays[k] == old(self).arrays@[k]@);
            }
            assert(self@.arrays[h as int] == self.arrays@[h as int]@);
            assert(self@.objects =~= old(self)@.objects);
            assert(self@.arrays =~= old(self)@.arrays.update(
                h as int,
                old(self)@.arrays[h as int].update(index as int, value),
            ));
        }
    }
}

} // verus!
