//! The resolved runtime form of a class: fields and methods with their
//! names and descriptors decoded, and the table registering loaded classes
//! by name.

use vstd::prelude::*;
use crate::classfile::{
    Attribute, ClassFile, ConstantPool, ConstantPoolEntry, Field, Method, ResolutionError, cp_utf8,
    cp_class_name,
};
use crate::descriptor::{FieldDescriptor, FieldDescriptorV, parse_field_descriptor};
use crate::disassembler::{disassemble_code, disassemble_spec};
use crate::instruction::TaggedInstruction;
use crate::text::str_eq;
use crate::value::Value;

verus! {

/// A resolved field: access flags, name, and decoded type descriptor.
#[derive(Debug)]
pub struct RuntimeField {
    pub access_flags: u16,
    pub name: String,
    pub descriptor: FieldDescriptor,
}

/// The view of a [`RuntimeField`].
#[verifier::ext_equal]
pub ghost struct RuntimeFieldV {
    pub access_flags: u16,
    pub name: Seq<char>,
    pub descriptor: FieldDescriptorV,
}

impl View for RuntimeField {
    type V = RuntimeFieldV;

    open spec fn view(&self) -> RuntimeFieldV {
        RuntimeFieldV {
            access_flags: self.access_flags,
            name: self.name@,
            descriptor: self.descriptor@,
        }
    }
}

/// A method's executable body: declared stack and locals bounds, and the
/// decoded instruction list.
#[derive(Debug)]
pub struct Code {
    pub max_stack: u16,
    pub max_locals: u16,
    pub instructions: Vec<TaggedInstruction>,
}

/// The view of a [`Code`].
#[verifier::ext_equal]
pub ghost struct CodeV {
    pub max_stack: u16,
    pub max_locals: u16,
    pub instructions: Seq<TaggedInstruction>,
}

impl View for Code {
    type V = CodeV;

    open spec fn view(&self) -> CodeV {
        CodeV {
            max_stack: self.max_stack,
            max_locals: self.max_locals,
            instructions: self.instructions@,
        }
    }
}

/// A resolved method: name, access flags, and its code.
#[derive(Debug)]
pub struct RuntimeMethod {
    pub name: String,
    pub access_flags: u16,
    pub code: Code,
}

/// The view of a [`RuntimeMethod`].
#[verifier::ext_equal]
pub ghost struct RuntimeMethodV {
    pub name: Seq<char>,
    pub access_flags: u16,
    pub code: CodeV,
}

impl View for RuntimeMethod {
    type V = RuntimeMethodV;

    open spec fn view(&self) -> RuntimeMethodV {
        RuntimeMethodV { name: self.name@, access_flags: self.access_flags, code: self.code@ }
    }
}

/// A resolved class: its name, its constant pool, and its resolved fields
/// and methods, in declaration order.
#[derive(Debug)]
pub struct RuntimeClass {
    pub class_name: String,
    pub constant_pool: ConstantPool,
    pub fields: Vec<RuntimeField>,
    pub methods: Vec<RuntimeMethod>,
}

/// The view of a [`RuntimeClass`].
#[verifier::ext_equal]
pub ghost struct RuntimeClassV {
    pub class_name: Seq<char>,
    pub constant_pool: Seq<ConstantPoolEntry>,
    pub fields: Seq<RuntimeFieldV>,
    pub methods: Seq<RuntimeMethodV>,
}

impl View for RuntimeClass {
    type V = RuntimeClassV;

    open spec fn view(&self) -> RuntimeClassV {
        RuntimeClassV {
            class_name: self.class_name@,
            constant_pool: self.constant_pool.entries@,
            fields: self.fields@.map_values(|f: RuntimeField| f@),
            methods: self.methods@.map_values(|m: RuntimeMethod| m@),
        }
    }
}

/// What a class-file field resolves to: name and descriptor read from the
/// constant pool, the descriptor decoded; `None` when either fails.
pub open spec fn runtime_field_spec(field: Field, entries: Seq<ConstantPoolEntry>) -> Option<
    RuntimeFieldV,
> {
    match cp_utf8(entries, field.name_index) {
        Ok(name) => match cp_utf8(entries, field.descriptor_index) {
            Ok(d) => match parse_field_descriptor(d) {
                Some(fd) => Some(
                    RuntimeFieldV { access_flags: field.access_flags, name, descriptor: fd },
                ),
                None => None,
            },
            Err(_) => None,
        },
        Err(_) => None,
    }
}

/// The code body carried by the first code attribute from position `from`
/// on; `None` when there is none or its byte stream fails to decode.
pub open spec fn code_from_attributes(attrs: Seq<Attribute>, from: int) -> Option<CodeV>
    decreases attrs.len() - from,
{
    if from < 0 || from >= attrs.len() {
        None
    } else {
        match attrs[from] {
            Attribute::Code { max_stack, max_locals, code, .. } => match disassemble_spec(code@) {
                Ok(instructions) => Some(CodeV { max_stack, max_locals, instructions }),
                Err(_) => None,
            },
            _ => code_from_attributes(attrs, from + 1),
        }
    }
}

/// What a class-file method resolves to: an error when its name cannot be
/// read from the constant pool; otherwise its resolved form, or `None`
/// when it has no decodable code body.
pub open spec fn runtime_method_spec(method: Method, entries: Seq<ConstantPoolEntry>) -> Result<
    Option<RuntimeMethodV>,
    ResolutionError,
> {
    match cp_utf8(entries, method.name_index) {
        Ok(name) => match code_from_attributes(method.attributes@, 0) {
            Some(code) => Ok(
                Some(RuntimeMethodV { name, access_flags: method.access_flags, code }),
            ),
            None => Ok(None),
        },
        Err(e) => Err(e),
    }
}

/// The resolved forms of the declared fields from position `from` on;
/// `None` as soon as one fails to resolve.
pub open spec fn runtime_fields_spec(
    fields: Seq<Field>,
    entries: Seq<ConstantPoolEntry>,
    from: int,
) -> Option<Seq<RuntimeFieldV>>
    decreases fields.len() - from,
{
    if from < 0 || from >= fields.len() {
        Some(Seq::empty())
    } else {
        match runtime_field_spec(fields[from], entries) {
            Some(rf) => match runtime_fields_spec(fields, entries, from + 1) {
                Some(rest) => Some(seq![rf] + rest),
                None => None,
            },
            None => None,
        }
    }
}

/// The resolved forms of the declared methods from position `from` on,
/// dropping those without a code body; an error as soon as a method name
/// fails to resolve.
pub open spec fn runtime_methods_spec(
    methods: Seq<Method>,
    entries: Seq<ConstantPoolEntry>,
    from: int,
) -> Result<Seq<RuntimeMethodV>, ResolutionError>
    decreases methods.len() - from,
{
    if from < 0 || from >= methods.len() {
        Ok(Seq::empty())
    } else {
        match runtime_method_spec(methods[from], entries) {
            Ok(Some(rm)) => match runtime_methods_spec(methods, entries, from + 1) {
                Ok(rest) => Ok(seq![rm] + rest),
                Err(e) => Err(e),
            },
            Ok(None) => runtime_methods_spec(methods, entries, from + 1),
            Err(e) => Err(e),
        }
    }
}

/// What a parsed class file resolves to: its own name read through the
/// constant pool, every field resolved, and every method with a code body
/// resolved.
pub open spec fn runtime_class_spec(cf: ClassFile) -> Result<RuntimeClassV, ResolutionError> {
    let entries = cf.constant_pool.entries@;
    match cp_class_name(entries, cf.this_class) {
        Ok(class_name) => match runtime_fields_spec(cf.fields@, entries, 0) {
            Some(fields) => match runtime_methods_spec(cf.methods@, entries, 0) {
                Ok(methods) => Ok(
                    RuntimeClassV { class_name, constant_pool: entries, fields, methods },
                ),
                Err(e) => Err(e),
            },
            None => Err(ResolutionError::InvalidFieldDescriptor),
        },
        Err(e) => Err(e),
    }
}

/// The default value a field of the given type starts with: zero for the
/// integer primitive, the null marker for every other type. This mirrors
/// the resolution rule this runtime applies, which special-cases only the
/// integer kind.
pub open spec fn default_value(d: FieldDescriptorV) -> Value {
    match d {
        FieldDescriptorV::Integer => Value::Integer(0),
        _ => Value::Null,
    }
}

/// The default field vector of a class: one default value per declared
/// field, in declaration order.
pub open spec fn default_fields_spec(fields: Seq<RuntimeFieldV>) -> Seq<Value> {
    Seq::new(fields.len(), |i: int| default_value(fields[i].descriptor))
}

/// The first field from `from` on whose name matches, giving the stable
/// field-slot index used by object storage.
pub open spec fn field_slot(fields: Seq<RuntimeFieldV>, name: Seq<char>, from: int) -> Option<int>
    decreases fields.len() - from,
{
    if from < 0 || from >= fields.len() {
        None
    } else if fields[from].name == name {
        Some(from)
    } else {
        field_slot(fields, name, from + 1)
    }
}

/// The first method from `from` on whose name matches.
pub open spec fn find_runtime_method(
    methods: Seq<RuntimeMethodV>,
    name: Seq<char>,
    from: int,
) -> Option<int>
    decreases methods.len() - from,
{
    if from < 0 || from >= methods.len() {
        None
    } else if methods[from].name == name {
        Some(from)
    } else {
        find_runtime_method(methods, name, from + 1)
    }
}

impl RuntimeField {
    /// Resolves one declared field: reads its name and descriptor strings
    /// from the constant pool and decodes the descriptor.
    pub fn from_class_field(field: &Field, cp: &ConstantPool) -> (r: Option<RuntimeField>)
        ensures
            match r {
                Some(rf) => runtime_field_spec(*field, cp.entries@) == Some(rf@),
                None => runtime_field_spec(*field, cp.entries@) is None,
            },
    {
        let name = match cp.get_utf8(field.name_index) {
            Ok(n) => n,
            Err(_) => {
                return None;
            },
        };
        let descriptor_tag = match cp.get_utf8(field.descriptor_index) {
            Ok(d) => d,
            Err(_) => {
                return None;
            },
        };
        let descriptor = match FieldDescriptor::from_str(descriptor_tag.as_str()) {
            Some(d) => d,
            None => {
                return None;
            },
        };
        Some(RuntimeField { access_flags: field.access_flags, name, descriptor })
    }
}

impl RuntimeMethod {
    /// Resolves one declared method; `Ok(None)` when the method carries no
    /// decodable code body (it is then dropped from the resolved class),
    /// an error when its name cannot be read from the constant pool.
    pub fn from_class_method(method: &Method, cp: &ConstantPool) -> (r: Result<
        Option<RuntimeMethod>,
        ResolutionError,
    >)
        ensures
            match r {
                Ok(Some(rm)) => runtime_method_spec(*method, cp.entries@) == Ok::<
                    _,
                    ResolutionError,
                >(Some(rm@)),
                Ok(None) => runtime_method_spec(*method, cp.entries@) == Ok::<
                    _,
                    ResolutionError,
                >(None::<RuntimeMethodV>),
                Err(e) => runtime_method_spec(*method, cp.entries@) == Err::<
                    Option<RuntimeMethodV>,
                    _,
                >(e),
            },
    {
        let name = match cp.get_utf8(method.name_index) {
            Ok(n) => n,
            Err(_) => {
                proof {
                    assert(cp_utf8(cp.entries@, method.name_index) is Err);
                }
                let e = match cp.get(method.name_index) {
                    Some(_) => ResolutionError::UnexpectedConstantPoolEntry,
                    None => ResolutionError::ConstantPoolIndexOutOfBounds,
                };
                return Err(e);
            },
        };
        match Self::get_code(method) {
            Some(code) => Ok(
                Some(RuntimeMethod { name, access_flags: method.access_flags, code }),
            ),
            None => Ok(None),
        }
    }

    /// The first code attribute's body, disassembled; `None` when there is
    /// none or its bytes fail to decode.
    fn get_code(method: &Method) -> (r: Option<Code>)
        ensures
            match r {
                Some(c) => code_from_attributes(method.attributes@, 0) == Some(c@),
                None => code_from_attributes(method.attributes@, 0) is None,
            },
    {
        let n = method.attributes.len();
        let mut i: usize = 0;
        while i < n
            invariant
                i <= n,
                n == method.attributes@.len(),
                code_from_attributes(method.attributes@, 0) == code_from_attributes(
                    method.attributes@,
                    i as int,
                ),
            decreases n - i,
        {
            match &method.attributes[i] {
                Attribute::Code { max_stack, max_locals, code, .. } => {
                    match disassemble_code(code) {
                        Ok(instructions) => {
                            return Some(
                                Code {
                                    max_stack: *max_stack,
                                    max_locals: *max_locals,
                                    instructions,
                                },
                            );
                        },
                        Err(_) => {
                            return None;
                        },
                    }
                },
                _ => {},
            }
            i = i + 1;
        }
        None
    }
}

impl RuntimeClass {
    /// One default value per declared field, in declaration order: zero
    /// for integer fields, null for every other field type.
    pub fn default_fields(&self) -> (r: Vec<Value>)
        ensures
            r@ == default_fields_spec(self@.fields),
    {
        let n = self.fields.len();
        let mut out: Vec<Value> = Vec::new();
        let mut i: usize = 0;
        while i < n
            invariant
                i <= n,
                n == self.fields@.len(),
                out@.len() == i,
                forall|k: int|
                    0 <= k < i ==> out@[k] == default_value(self@.fields[k].descriptor),
            decreases n - i,
        {
            proof {
                assert(self@.fields[i as int] == self.fields@[i as int]@);
            }
            match &self.fields[i].descriptor {
                FieldDescriptor::Integer => out.push(Value::Integer(0)),
                _ => out.push(Value::Null),
            }
            i = i + 1;
        }
        proof {
            assert(out@ =~= default_fields_spec(self@.fields));
        }
        out
    }

    /// The first declared method with the given name; name collisions
    /// resolve to the earliest declaration.
    pub fn get_method(&self, name: &str) -> (r: Option<&RuntimeMethod>)
        ensures
            match r {
                Some(m) => {
                    &&& find_runtime_method(self@.methods, name@, 0) matches Some(i)
                    &&& 0 <= i < self@.methods.len()
                    &&& m@ == self@.methods[find_runtime_method(self@.methods, name@, 0)->Some_0]
                },
                None => find_runtime_method(self@.methods, name@, 0) is None,
            },
    {
        let n = self.methods.len();
        let mut i: usize = 0;
        while i < n
            invariant
                i <= n,
                n == self.methods@.len(),
                find_runtime_method(self@.methods, name@, 0) == find_runtime_method(
                    self@.methods,
                    name@,
                    i as int,
                ),
            decreases n - i,
        {
            proof {
                assert(self@.methods[i as int] == self.methods@[i as int]@);
            }
            if str_eq(self.methods[i].name.as_str(), name) {
                return Some(&self.methods[i]);
            }
            i = i + 1;
        }
        None
    }

    /// The declaration-order slot of the first field with the given name.
    pub fn find_field_slot(&self, name: &str) -> (r: Option<usize>)
        ensures
            match r {
                Some(i) => field_slot(self@.fields, name@, 0) == Some(i as int),
                None => field_slot(self@.fields, name@, 0) is None,
            },
    {
        let n = self.fields.len();
        let mut i: usize = 0;
        while i < n
            invariant
                i <= n,
                n == self.fields@.len(),
                field_slot(self@.fields, name@, 0) == field_slot(self@.fields, name@, i as int),
            decreases n - i,
        {
            proof {
                assert(self@.fields[i as int] == self.fields@[i as int]@);
            }
            if str_eq(self.fields[i].name.as_str(), name) {
                return Some(i);
            }
            i = i + 1;
        }
        None
    }

    /// Resolves a parsed class file into its runtime form: the class's own
    /// name, every declared field, and every method with a code body.
    pub fn from_class_file(class_file: &ClassFile) -> (r: Result<RuntimeClass, ResolutionError>)
        ensures
            match r {
                Ok(rc) => runtime_class_spec(*class_file) == Ok::<_, ResolutionError>(rc@),
                Err(e) => runtime_class_spec(*class_file) == Err::<RuntimeClassV, _>(e),
            },
    {
        let ghost entries = class_file.constant_pool.entries@;
        let class_name = match class_file.constant_pool.get_class_name(class_file.this_class) {
            Ok(n) => n,
            Err(e) => {
                return Err(e);
            },
        };
        let nf = class_file.fields.len();
        let mut fields: Vec<RuntimeField> = Vec::new();
        let mut i: usize = 0;
        while i < nf
            invariant
                i <= nf,
                nf == class_file.fields@.len(),
                entries == class_file.constant_pool.entries@,
                cp_class_name(entries, class_file.this_class) is Ok,
                fields@.len() == i,
                runtime_fields_spec(class_file.fields@, entries, 0) == (match runtime_fields_spec(
                    class_file.fields@,
                    entries,
                    i as int,
                ) {
                    Some(rest) => Some(fields@.map_values(|f: RuntimeField| f@) + rest),
                    None => None::<Seq<RuntimeFieldV>>,
                }),
            decreases nf - i,
        {
            let field_ref = &class_file.fields[i];
            proof {
                assert(*field_ref == class_file.fields@[i as int]);
            }
            match RuntimeField::from_class_field(field_ref, &class_file.constant_pool) {
                Some(rf) => {
                    proof {
                        assert(runtime_field_spec(*field_ref, entries) == Some(rf@));
                        assert(runtime_field_spec(class_file.fields@[i as int], entries) == Some(
                            rf@,
                        ));
                        assert(runtime_fields_spec(class_file.fields@, entries, i as int) == (
                        match runtime_fields_spec(class_file.fields@, entries, i + 1) {
                            Some(rest) => Some(seq![rf@] + rest),
                            None => None::<Seq<RuntimeFieldV>>,
                        }));
                        let pre = fields@.map_values(|f: RuntimeField| f@);
                        assert(fields@.push(rf).map_values(|f: RuntimeField| f@) =~= pre + seq![
                            rf@,
                        ]);
                        match runtime_fields_spec(class_file.fields@, entries, i + 1) {
                            Some(rest) => {
                                assert((pre + seq![rf@]) + rest =~= pre + (seq![rf@] + rest));
                            },
                            None => {},
                        }
                    }
                    fields.push(rf);
                },
                None => {
                    proof {
                        assert(runtime_field_spec(class_file.fields@[i as int], entries) is None);
                        assert(runtime_fields_spec(class_file.fields@, entries, i as int) is None);
                        assert(runtime_fields_spec(class_file.fields@, entries, 0) is None);
                    }
                    return Err(ResolutionError::InvalidFieldDescriptor);
                },
            }
            i = i + 1;
        }
        proof {
            assert(fields@.map_values(|f: RuntimeField| f@) + Seq::<RuntimeFieldV>::empty()
                =~= fields@.map_values(|f: RuntimeField| f@));
        }
        let nm = class_file.methods.len();
        let mut methods: Vec<RuntimeMethod> = Vec::new();
        let mut j: usize = 0;
        while j < nm
            invariant
                j <= nm,
                nm == class_file.methods@.len(),
                entries == class_file.constant_pool.entries@,
                cp_class_name(entries, class_file.this_class) is Ok,
                runtime_fields_spec(class_file.fields@, entries, 0) is Some,
                runtime_methods_spec(class_file.methods@, entries, 0) == (
                match runtime_methods_spec(class_file.methods@, entries, j as int) {
                    Ok(rest) => Ok::<_, ResolutionError>(
                        methods@.map_values(|m: RuntimeMethod| m@) + rest,
                    ),
                    Err(e) => Err(e),
                }),
            decreases nm - j,
        {
            match RuntimeMethod::from_class_method(
                &class_file.methods[j],
                &class_file.constant_pool,
            ) {
                Ok(Some(rm)) => {
                    proof {
                        assert(runtime_method_spec(class_file.methods@[j as int], entries) == Ok::<
                            _,
                            ResolutionError,
                        >(Some(rm@)));
                        assert(runtime_methods_spec(class_file.methods@, entries, j as int) == (
                        match runtime_methods_spec(class_file.methods@, entries, j + 1) {
                            Ok(rest) => Ok::<_, ResolutionError>(seq![rm@] + rest),
                            Err(e) => Err(e),
                        }));
                        let pre = methods@.map_values(|m: RuntimeMethod| m@);
                        assert(methods@.push(rm).map_values(|m: RuntimeMethod| m@) =~= pre + seq![
                            rm@,
                        ]);
                        match runtime_methods_spec(class_file.methods@, entries, j + 1) {
                            Ok(rest) => {
                                assert((pre + seq![rm@]) + rest =~= pre + (seq![rm@] + rest));
                            },
                            Err(_) => {},
                        }
                    }
                    methods.push(rm);
                },
                Ok(None) => {
                    proof {
                        assert(runtime_method_spec(class_file.methods@[j as int], entries) == Ok::<
                            Option<RuntimeMethodV>,
                            ResolutionError,
                        >(None));
                        assert(runtime_methods_spec(class_file.methods@, entries, j as int)
                            == runtime_methods_spec(class_file.methods@, entries, j + 1));
                    }
                },
                Err(e) => {
                    proof {
                        assert(runtime_method_spec(class_file.methods@[j as int], entries)
                            == Err::<Option<RuntimeMethodV>, ResolutionError>(e));
                        assert(runtime_methods_spec(class_file.methods@, entries, j as int)
                            == Err::<Seq<RuntimeMethodV>, ResolutionError>(e));
                    }
                    return Err(e);
                },
            }
            j = j + 1;
        }
        proof {
            assert(methods@.map_values(|m: RuntimeMethod| m@) + Seq::<RuntimeMethodV>::empty()
                =~= methods@.map_values(|m: RuntimeMethod| m@));
        }
        let constant_pool = class_file.constant_pool.duplicate();
        Ok(RuntimeClass { class_name, constant_pool, fields, methods })
    }
}

/// The registry of loaded classes, consulted during object creation and
/// method invocation. Populated by explicit loads before interpretation;
/// loading a class under an already-registered name replaces that entry.
#[derive(Debug)]
pub struct ClassTable {
    classes: Vec<RuntimeClass>,
}

/// The first class from `from` on whose name matches.
pub open spec fn find_class_index(
    table: Seq<RuntimeClassV>,
    name: Seq<char>,
    from: int,
) -> Option<int>
    decreases table.len() - from,
{
    if from < 0 || from >= table.len() {
        None
    } else if table[from].class_name == name {
        Some(from)
    } else {
        find_class_index(table, name, from + 1)
    }
}

impl View for ClassTable {
    type V = Seq<RuntimeClassV>;

    closed spec fn view(&self) -> Seq<RuntimeClassV> {
        self.classes@.map_values(|c: RuntimeClass| c@)
    }
}

impl ClassTable {
    /// An empty table.
    pub fn new() -> (r: ClassTable)
        ensures
            r@ == Seq::<RuntimeClassV>::empty(),
    {
        let t = ClassTable { classes: Vec::new() };
        proof {
            assert(t@ =~= Seq::<RuntimeClassV>::empty());
        }
        t
    }

    /// Registers a class under its name, replacing any class already
    /// registered under the same name.
    pub fn load_class(&mut self, class: RuntimeClass)
        ensures
            final(self)@ == (match find_class_index(old(self)@, class@.class_name, 0) {
                Some(i) => old(self)@.update(i, class@),
                None => old(self)@.push(class@),
            }),
    {
        let ghost oldv = self@;
        let ghost cv = class@;
        let n = self.classes.len();
        let mut i: usize = 0;
        while i < n
            invariant
                i <= n,
                n == self.classes@.len(),
                oldv == old(self)@,
                self@ == oldv,
                find_class_index(oldv, cv.class_name, 0) == find_class_index(
                    oldv,
                    cv.class_name,
                    i as int,
                ),
                cv == class@,
            decreases n - i,
        {
            proof {
                assert(oldv[i as int] == self.classes@[i as int]@);
            }
            if str_eq(self.classes[i].class_name.as_str(), class.class_name.as_str()) {
                proof {
                    assert(oldv[i as int].class_name == cv.class_name);
                    assert(find_class_index(oldv, cv.class_name, i as int) == Some(i as int));
                }
                self.classes[i] = class;
                proof {
                    assert forall|k: int| 0 <= k < oldv.len() implies self@[k] == oldv.update(
                        i as int,
                        cv,
                    )[k] by {
                        assert(self@[k] == self.classes@[k]@);
                    }
                    assert(self@ =~= oldv.update(i as int, cv));
                }
                return ;
            }
            i = i + 1;
        }
        proof {
            assert(find_class_index(oldv, cv.class_name, n as int) is None);
        }
        self.classes.push(class);
        proof {
            assert forall|k: int| 0 <= k < self@.len() implies self@[k] == oldv.push(cv)[k] by {
                assert(self@[k] == self.classes@[k]@);
            }
            assert(self@ =~= oldv.push(cv));
        }
    }

    /// The class registered under `name`, if any.
    pub fn get_class(&self, name: &str) -> (r: Option<&RuntimeClass>)
        ensures
            match r {
                Some(c) => {
                    &&& find_class_index(self@, name@, 0) matches Some(i)
                    &&& 0 <= i < self@.len()
                    &&& c@ == self@[find_class_index(self@, name@, 0)->Some_0]
                },
                None => find_class_index(self@, name@, 0) is None,
            },
    {
        let n = self.classes.len();
        let mut i: usize = 0;
        while i < n
            invariant
                i <= n,
                n == self.classes@.len(),
                find_class_index(self@, name@, 0) == find_class_index(self@, name@, i as int),
            decreases n - i,
        {
            proof {
                assert(self@[i as int] == self.classes@[i as int]@);
            }
            if str_eq(self.classes[i].class_name.as_str(), name) {
                return Some(&self.classes[i]);
            }
            i = i + 1;
        }
        None
    }

    /// The class at a table position, which object records use as their
    /// stable class handle.
    pub fn class_at(&self, index: usize) -> (r: &RuntimeClass)
        requires
            index < self@.len(),
        ensures
            r@ == self@[index as int],
    {
        proof {
            assert(self@[index as int] == self.classes@[index as int]@);
        }
        &self.classes[index]
    }

    /// The table position of the class registered under `name`, if any.
    pub fn find_class(&self, name: &str) -> (r: Option<usize>)
        ensures
            match r {
                Some(i) => find_class_index(self@, name@, 0) == Some(i as int) && i < self@.len(),
                None => find_class_index(self@, name@, 0) is None,
            },
    {
        let n = self.classes.len();
        let mut i: usize = 0;
        while i < n
            invariant
                i <= n,
                n == self.classes@.len(),
                n == self@.len(),
                find_class_index(self@, name@, 0) == find_class_index(self@, name@, i as int),
            decreases n - i,
        {
            proof {
                assert(self@[i as int] == self.classes@[i as int]@);
            }
            if str_eq(self.classes[i].class_name.as_str(), name) {
                return Some(i);
            }
            i = i + 1;
        }
        None
    }

    /// How many classes the table holds.
    pub fn len(&self) -> (r: usize)
        ensures
            r == self@.len(),
    {
        proof {
            assert(self@.len() == self.classes@.len());
        }
        self.classes.len()
    }
}

} // verus!
