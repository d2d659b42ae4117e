//! The structured representation of a parsed class file: the constant pool,
//! field and method records, and attributes, together with the symbolic
//! lookups the runtime performs against the constant pool.

use vstd::prelude::*;
use crate::text::str_eq;

verus! {

/// A parsed class file, as handed over by a class-file reader.
pub struct ClassFile {
    pub magic: u32,
    pub minor_version: u16,
    pub major_version: u16,
    pub constant_pool: ConstantPool,
    pub access_flags: u16,
    pub this_class: u16,
    pub super_class: u16,
    pub interfaces: Vec<u16>,
    pub fields: Vec<Field>,
    pub methods: Vec<Method>,
    pub attributes: Vec<Attribute>,
}

/// The tags that classify constant-pool entries in the binary format.
pub enum ConstantPoolTag {
    Class,
    Fieldref,
    Methodref,
    InterfaceMethodref,
    String,
    Integer,
    Float,
    Long,
    Double,
    NameAndType,
    Utf8,
    MethodHandle,
    MethodType,
    InvokeDynamic,
}

/// The per-class table of symbolic references, addressed by 1-based index.
#[derive(Debug)]
pub struct ConstantPool {
    pub entries: Vec<ConstantPoolEntry>,
}

#[derive(Clone, Debug)]
pub enum ConstantPoolEntry {
    Class { name_index: u16 },
    Fieldref { class_index: u16, name_and_type_index: u16 },
    Methodref { class_index: u16, name_and_type_index: u16 },
    InterfaceMethodref { class_index: u16, name_and_type_index: u16 },
    String { string_index: u16 },
    Integer { bytes: u32 },
    Float { bytes: u32 },
    Long { high_bytes: u32, low_bytes: u32 },
    Double { high_bytes: u32, low_bytes: u32 },
    NameAndType { name_index: u16, descriptor_index: u16 },
    Utf8(String),
    MethodHandle { reference_kind: u8, reference_index: u16 },
    MethodType { descriptor_index: u16 },
    InvokeDynamic { bootstrap_method_attr_index: u16, name_and_type_index: u16 },
    Placeholder,
}

/// Why a symbolic lookup against the constant pool failed.
#[derive(Clone, Copy, Debug, PartialEq, Eq, Structural)]
pub enum ResolutionError {
    ConstantPoolIndexOutOfBounds,
    UnexpectedConstantPoolEntry,
    InvalidFieldDescriptor,
}

/// A resolved field or method reference: the owning class's name and the
/// member's name and type descriptor, all read out of the constant pool.
pub struct MemberRef {
    pub class_name: String,
    pub name: String,
    pub descriptor: String,
}

/// The view of a [`MemberRef`]: the three resolved strings.
#[verifier::ext_equal]
pub ghost struct MemberRefV {
    pub class_name: Seq<char>,
    pub name: Seq<char>,
    pub descriptor: Seq<char>,
}

impl View for MemberRef {
    type V = MemberRefV;

    open spec fn view(&self) -> MemberRefV {
        MemberRefV {
            class_name: self.class_name@,
            name: self.name@,
            descriptor: self.descriptor@,
        }
    }
}

/// The entry at 1-based `index`, or `None` when the index is zero or past
/// the end of the pool.
pub open spec fn cp_get(entries: Seq<ConstantPoolEntry>, index: u16) -> Option<ConstantPoolEntry> {
    if 1 <= index && index <= entries.len() {
        Some(entries[index - 1])
    } else {
        None
    }
}

/// The characters of the UTF-8 entry at `index`.
pub open spec fn cp_utf8(entries: Seq<ConstantPoolEntry>, index: u16) -> Result<
    Seq<char>,
    ResolutionError,
> {
    match cp_get(entries, index) {
        Some(ConstantPoolEntry::Utf8(s)) => Ok(s@),
        Some(_) => Err(ResolutionError::UnexpectedConstantPoolEntry),
        None => Err(ResolutionError::ConstantPoolIndexOutOfBounds),
    }
}

/// The class name reached through the class entry at `index`.
pub open spec fn cp_class_name(entries: Seq<ConstantPoolEntry>, index: u16) -> Result<
    Seq<char>,
    ResolutionError,
> {
    match cp_get(entries, index) {
        Some(ConstantPoolEntry::Class { name_index }) => cp_utf8(entries, name_index),
        Some(_) => Err(ResolutionError::UnexpectedConstantPoolEntry),
        None => Err(ResolutionError::ConstantPoolIndexOutOfBounds),
    }
}

/// The name and descriptor reached through the name-and-type entry at
/// `index`.
pub open spec fn cp_name_and_type(entries: Seq<ConstantPoolEntry>, index: u16) -> Result<
    (Seq<char>, Seq<char>),
    ResolutionError,
> {
    match cp_get(entries, index) {
        Some(ConstantPoolEntry::NameAndType { name_index, descriptor_index }) => match (
            cp_utf8(entries, name_index),
            cp_utf8(entries, descriptor_index),
        ) {
            (Ok(name), Ok(descriptor)) => Ok((name, descriptor)),
            (Err(e), _) => Err(e),
            (_, Err(e)) => Err(e),
        },
        Some(_) => Err(ResolutionError::UnexpectedConstantPoolEntry),
        None => Err(ResolutionError::ConstantPoolIndexOutOfBounds),
    }
}

/// The resolved member reference behind a field-reference entry.
pub open spec fn cp_field_ref(entries: Seq<ConstantPoolEntry>, index: u16) -> Result<
    MemberRefV,
    ResolutionError,
> {
    match cp_get(entries, index) {
        Some(ConstantPoolEntry::Fieldref { class_index, name_and_type_index }) => cp_member_parts(
            entries,
            class_index,
            name_and_type_index,
        ),
        Some(_) => Err(ResolutionError::UnexpectedConstantPoolEntry),
        None => Err(ResolutionError::ConstantPoolIndexOutOfBounds),
    }
}

/// The resolved member reference behind a method-reference entry.
pub open spec fn cp_method_ref(entries: Seq<ConstantPoolEntry>, index: u16) -> Result<
    MemberRefV,
    ResolutionError,
> {
    match cp_get(entries, index) {
        Some(ConstantPoolEntry::Methodref { class_index, name_and_type_index }) => cp_member_parts(
            entries,
            class_index,
            name_and_type_index,
        ),
        Some(_) => Err(ResolutionError::UnexpectedConstantPoolEntry),
        None => Err(ResolutionError::ConstantPoolIndexOutOfBounds),
    }
}

/// The class name, member name and descriptor assembled from a class entry
/// and a name-and-type entry.
pub open spec fn cp_member_parts(
    entries: Seq<ConstantPoolEntry>,
    class_index: u16,
    name_and_type_index: u16,
) -> Result<MemberRefV, ResolutionError> {
    match (cp_class_name(entries, class_index), cp_name_and_type(entries, name_and_type_index)) {
        (Ok(class_name), Ok(nt)) => Ok(
            MemberRefV { class_name, name: nt.0, descriptor: nt.1 },
        ),
        (Err(e), _) => Err(e),
        (_, Err(e)) => Err(e),
    }
}

impl ConstantPool {
    /// The entry at the 1-based `index`; `None` when the index is zero or
    /// out of range.
    pub fn get(&self, index: u16) -> (r: Option<&ConstantPoolEntry>)
        ensures
            match r {
                Some(e) => cp_get(self.entries@, index) == Some(*e),
                None => cp_get(self.entries@, index) is None,
            },
    {
        if index == 0 {
            None
        } else {
            let i = (index - 1) as usize;
            if i < self.entries.len() {
                Some(&self.entries[i])
            } else {
                None
            }
        }
    }

    /// The number of entries the pool holds.
    pub fn size(&self) -> (r: usize)
        ensures
            r == self.entries@.len(),
    {
        self.entries.len()
    }

    /// The string of the UTF-8 entry at `index`, or a message naming why
    /// the lookup failed.
    pub fn get_utf8(&self, index: u16) -> (r: Result<String, &'static str>)
        ensures
            match cp_utf8(self.entries@, index) {
                Ok(chars) => r matches Ok(s) && s@ == chars,
                Err(ResolutionError::UnexpectedConstantPoolEntry) => r matches Err(m) && m@
                    == "Expected Utf8 attribute"@,
                Err(_) => r matches Err(m) && m@ == "Constant pool index out of bounds"@,
            },
    {
        match self.get(index) {
            Some(e) => match e {
                ConstantPoolEntry::Utf8(string) => Ok(string.clone()),
                _ => Err("Expected Utf8 attribute"),
            },
            None => Err("Constant pool index out of bounds"),
        }
    }

    /// The class name behind the class entry at `index`.
    pub fn get_class_name(&self, index: u16) -> (r: Result<String, ResolutionError>)
        ensures
            match r {
                Ok(s) => cp_class_name(self.entries@, index) == Ok::<_, ResolutionError>(s@),
                Err(e) => cp_class_name(self.entries@, index) == Err::<Seq<char>, _>(e),
            },
    {
        match self.get(index) {
            Some(e) => match e {
                ConstantPoolEntry::Class { name_index } => {
                    let ni = *name_index;
                    match self.get(ni) {
                        Some(ConstantPoolEntry::Utf8(string)) => Ok(string.clone()),
                        Some(_) => Err(ResolutionError::UnexpectedConstantPoolEntry),
                        None => Err(ResolutionError::ConstantPoolIndexOutOfBounds),
                    }
                },
                _ => Err(ResolutionError::UnexpectedConstantPoolEntry),
            },
            None => Err(ResolutionError::ConstantPoolIndexOutOfBounds),
        }
    }

    /// The name and descriptor behind the name-and-type entry at `index`.
    fn get_name_and_type(&self, index: u16) -> (r: Result<(String, String), ResolutionError>)
        ensures
            match r {
                Ok(nt) => cp_name_and_type(self.entries@, index) == Ok::<_, ResolutionError>(
                    (nt.0@, nt.1@),
                ),
                Err(e) => cp_name_and_type(self.entries@, index) == Err::<(Seq<char>, Seq<char>), _>(
                    e,
                ),
            },
    {
        match self.get(index) {
            Some(e) => match e {
                ConstantPoolEntry::NameAndType { name_index, descriptor_index } => {
                    let ni = *name_index;
                    let di = *descriptor_index;
                    let name = match self.get(ni) {
                        Some(ConstantPoolEntry::Utf8(string)) => string.clone(),
                        Some(_) => {
                            return Err(ResolutionError::UnexpectedConstantPoolEntry);
                        },
                        None => {
                            return Err(ResolutionError::ConstantPoolIndexOutOfBounds);
                        },
                    };
                    let descriptor = match self.get(di) {
                        Some(ConstantPoolEntry::Utf8(string)) => string.clone(),
                        Some(_) => {
                            return Err(ResolutionError::UnexpectedConstantPoolEntry);
                        },
                        None => {
                            return Err(ResolutionError::ConstantPoolIndexOutOfBounds);
                        },
                    };
                    Ok((name, descriptor))
                },
                _ => Err(ResolutionError::UnexpectedConstantPoolEntry),
            },
            None => Err(ResolutionError::ConstantPoolIndexOutOfBounds),
        }
    }

    /// The resolved member reference behind the field-reference entry at
    /// `index`.
    pub fn get_field_ref(&self, index: u16) -> (r: Result<MemberRef, ResolutionError>)
        ensures
            match r {
                Ok(m) => cp_field_ref(self.entries@, index) == Ok::<_, ResolutionError>(m@),
                Err(e) => cp_field_ref(self.entries@, index) == Err::<MemberRefV, _>(e),
            },
    {
        match self.get(index) {
            Some(e) => match e {
                ConstantPoolEntry::Fieldref { class_index, name_and_type_index } => {
                    let ci = *class_index;
                    let ni = *name_and_type_index;
                    self.get_member_parts(ci, ni)
                },
                _ => Err(ResolutionError::UnexpectedConstantPoolEntry),
            },
            None => Err(ResolutionError::ConstantPoolIndexOutOfBounds),
        }
    }

    /// The resolved member reference behind the method-reference entry at
    /// `index`.
    pub fn get_method_ref(&self, index: u16) -> (r: Result<MemberRef, ResolutionError>)
        ensures
            match r {
                Ok(m) => cp_method_ref(self.entries@, index) == Ok::<_, ResolutionError>(m@),
                Err(e) => cp_method_ref(self.entries@, index) == Err::<MemberRefV, _>(e),
            },
    {
        match self.get(index) {
            Some(e) => match e {
                ConstantPoolEntry::Methodref { class_index, name_and_type_index } => {
                    let ci = *class_index;
                    let ni = *name_and_type_index;
                    self.get_member_parts(ci, ni)
                },
                _ => Err(ResolutionError::UnexpectedConstantPoolEntry),
            },
            None => Err(ResolutionError::ConstantPoolIndexOutOfBounds),
        }
    }

    /// A copy of the pool with the same entries.
    pub fn duplicate(&self) -> (r: ConstantPool)
        ensures
            r.entries@ == self.entries@,
    {
        let n = self.entries.len();
        let mut entries: Vec<ConstantPoolEntry> = Vec::new();
        let mut i: usize = 0;
        while i < n
            invariant
                i <= n,
                n == self.entries@.len(),
                entries@.len() == i,
                forall|k: int| 0 <= k < i ==> entries@[k] == self.entries@[k],
            decreases n - i,
        {
            let e = duplicate_entry(&self.entries[i]);
            entries.push(e);
            i = i + 1;
        }
        proof {
            assert(entries@ =~= self.entries@);
        }
        ConstantPool { entries }
    }

    fn get_member_parts(&self, class_index: u16, name_and_type_index: u16) -> (r: Result<
        MemberRef,
        ResolutionError,
    >)
        ensures
            match r {
                Ok(m) => cp_member_parts(self.entries@, class_index, name_and_type_index)
                    == Ok::<_, ResolutionError>(m@),
                Err(e) => cp_member_parts(self.entries@, class_index, name_and_type_index)
                    == Err::<MemberRefV, _>(e),
            },
    {
        match self.get_class_name(class_index) {
            Ok(class_name) => match self.get_name_and_type(name_and_type_index) {
                Ok(nt) => Ok(MemberRef { class_name, name: nt.0, descriptor: nt.1 }),
                Err(e) => Err(e),
            },
            Err(e) => Err(e),
        }
    }
}

/// A copy of one constant-pool entry, equal to the original.
fn duplicate_entry(e: &ConstantPoolEntry) -> (r: ConstantPoolEntry)
    ensures
        r == *e,
{
    match e {
        ConstantPoolEntry::Class { name_index } => ConstantPoolEntry::Class {
            name_index: *name_index,
        },
        ConstantPoolEntry::Fieldref { class_index, name_and_type_index } =>
            ConstantPoolEntry::Fieldref {
            class_index: *class_index,
            name_and_type_index: *name_and_type_index,
        },
        ConstantPoolEntry::Methodref { class_index, name_and_type_index } =>
            ConstantPoolEntry::Methodref {
            class_index: *class_index,
            name_and_type_index: *name_and_type_index,
        },
        ConstantPoolEntry::InterfaceMethodref { class_index, name_and_type_index } =>
            ConstantPoolEntry::InterfaceMethodref {
            class_index: *class_index,
            name_and_type_index: *name_and_type_index,
        },
        ConstantPoolEntry::String { string_index } => ConstantPoolEntry::String {
            string_index: *string_index,
        },
        ConstantPoolEntry::Integer { bytes } => ConstantPoolEntry::Integer { bytes: *bytes },
        ConstantPoolEntry::Float { bytes } => ConstantPoolEntry::Float { bytes: *bytes },
        ConstantPoolEntry::Long { high_bytes, low_bytes } => ConstantPoolEntry::Long {
            high_bytes: *high_bytes,
            low_bytes: *low_bytes,
        },
        ConstantPoolEntry::Double { high_bytes, low_bytes } => ConstantPoolEntry::Double {
            high_bytes: *high_bytes,
            low_bytes: *low_bytes,
        },
        ConstantPoolEntry::NameAndType { name_index, descriptor_index } =>
            ConstantPoolEntry::NameAndType {
            name_index: *name_index,
            descriptor_index: *descriptor_index,
        },
        ConstantPoolEntry::Utf8(s) => ConstantPoolEntry::Utf8(s.clone()),
        ConstantPoolEntry::MethodHandle { reference_kind, reference_index } =>
            ConstantPoolEntry::MethodHandle {
            reference_kind: *reference_kind,
            reference_index: *reference_index,
        },
        ConstantPoolEntry::MethodType { descriptor_index } => ConstantPoolEntry::MethodType {
            descriptor_index: *descriptor_index,
        },
        ConstantPoolEntry::InvokeDynamic { bootstrap_method_attr_index, name_and_type_index } =>
            ConstantPoolEntry::InvokeDynamic {
            bootstrap_method_attr_index: *bootstrap_method_attr_index,
            name_and_type_index: *name_and_type_index,
        },
        ConstantPoolEntry::Placeholder => ConstantPoolEntry::Placeholder,
    }
}

/// The first method whose resolved name matches `name` and whose access
/// flags contain every bit of `access_flags`; the search stops with `None`
/// as soon as a method's name cannot be resolved.
pub open spec fn find_method_from(
    methods: Seq<Method>,
    entries: Seq<ConstantPoolEntry>,
    name: Seq<char>,
    access_flags: u16,
    from: int,
) -> Option<int>
    decreases methods.len() - from,
{
    if from < 0 || from >= methods.len() {
        None
    } else {
        match cp_utf8(entries, methods[from].name_index) {
            Ok(n) => if n == name && methods[from].access_flags & access_flags == access_flags {
                Some(from)
            } else {
                find_method_from(methods, entries, name, access_flags, from + 1)
            },
            Err(_) => None,
        }
    }
}

impl ClassFile {
    /// Whether this class sits at the root of the class hierarchy, which the
    /// binary format marks with a zero superclass index.
    pub fn is_java_lang_object(&self) -> (r: bool)
        ensures
            r == (self.super_class == 0),
    {
        self.super_class == 0
    }

    /// The first declared method with the given name whose access flags
    /// contain `access_flags`.
    pub fn find_method(&self, name: &str, access_flags: u16) -> (r: Option<&Method>)
        ensures
            match r {
                Some(m) => {
                    &&& find_method_from(self.methods@, self.constant_pool.entries@, name@,
                        access_flags, 0) matches Some(i)
                    &&& 0 <= i < self.methods@.len()
                    &&& *m == self.methods@[
                        find_method_from(self.methods@, self.constant_pool.entries@, name@,
                        access_flags, 0)->Some_0]
                },
                None => find_method_from(self.methods@, self.constant_pool.entries@, name@,
                    access_flags, 0) is None,
            },
    {
        let mut i: usize = 0;
        while i < self.methods.len()
            invariant
                i <= self.methods@.len(),
                find_method_from(self.methods@, self.constant_pool.entries@, name@, access_flags, 0)
                    == find_method_from(self.methods@, self.constant_pool.entries@, name@,
                    access_flags, i as int),
            decreases self.methods@.len() - i,
        {
            let method = &self.methods[i];
            match self.constant_pool.get_utf8(method.name_index) {
                Ok(name_item) => {
                    if str_eq(name_item.as_str(), name) && method.access_flags & access_flags
                        == access_flags {
                        return Some(&self.methods[i]);
                    }
                },
                Err(_) => {
                    return None;
                },
            }
            i = i + 1;
        }
        None
    }
}

/// A declared field as it appears in the class file: indices into the
/// constant pool rather than resolved strings.
pub struct Field {
    pub access_flags: u16,
    pub name_index: u16,
    pub descriptor_index: u16,
    pub attributes: Vec<Attribute>,
}

/// The access-flag bits a field declaration may carry.
pub enum FieldAccessFlag {
    Public,
    Private,
    Protected,
    Static,
    Final,
    Volatile,
    Transient,
    Synthetic,
    Enum,
}

/// A declared method as it appears in the class file.
pub struct Method {
    pub access_flags: u16,
    pub name_index: u16,
    pub descriptor_index: u16,
    pub attributes: Vec<Attribute>,
}

/// The access-flag bits a method declaration may carry.
pub enum MethodAccessFlag {
    Public,
    Private,
    Protected,
    Static,
    Final,
    Synchronized,
    Bridge,
    Varargs,
    Native,
    Abstract,
    Strict,
    Synthetic,
}

/// A raw attribute: its name index and undecoded payload.
pub struct AttributeInfo {
    pub attribute_name_index: u16,
    pub bytes: Vec<u8>,
}

/// A decoded attribute of a class, field, method or code body.
pub enum Attribute {
    ConstantValue { index: u16 },
    Code {
        max_stack: u16,
        max_locals: u16,
        code: Vec<u8>,
        exceptions: Vec<ExceptionTableEntry>,
        attributes: Vec<Attribute>,
    },
    StackMapTable { entries: Vec<StackMapFrame> },
    Exceptions { exception_index: Vec<u16> },
    InnerClasses { classes: Vec<InnerClassTableEntry> },
    EnclosingMethod {},
    Synthetic {},
    Signature { index: u16 },
    SourceFile { index: u16 },
    SourceDebugExtension {},
    LineNumberTable(Vec<LineNumberTableEntry>),
    LocalVariableTable {},
    LocalVariableTypeTable {},
    Deprecated {},
    RuntimeVisibleAnnotations {},
    ElementValue {},
    RuntimeInvisibleAnnotations {},
    RuntimeVisibleParameterAnnotations {},
    RuntimeInvisibleParameterAnnotations {},
    AnnotationDefault {},
    BootstrapMethods {},
}

/// A run-time annotation record.
pub struct Annotation {
    pub type_index: u16,
    pub elements: Vec<AnnotationElementPair>,
}

/// One element-name/value pair inside an annotation.
pub struct AnnotationElementPair {
    pub element_name_index: u16,
    pub element_value: AnnotationElementValue,
}

/// The value of an annotation element.
pub enum AnnotationElementValue {
    Const(u16),
    EnumConst { type_name_index: u16, const_name_index: u16 },
    ClassInfo(u16),
    Annotation(Annotation),
    Array(Vec<AnnotationElementValue>),
}

/// One frame of a stack-map table.
pub enum StackMapFrame {
    SameFrame,
    SameLocals1StackItemFrame { info: VerificationTypeInfo },
    SameLocals1StackItemFrameExtended { info: VerificationTypeInfo },
    ChopFrame { offset_delta: u16 },
    SameFrameExtended { offset_delta: u16 },
    AppendFrame { offset_delta: u16, locals: Vec<VerificationTypeInfo> },
    FullFrame {
        offset_delta: u16,
        locals: Vec<VerificationTypeInfo>,
        stack: Vec<VerificationTypeInfo>,
    },
}

/// A verification-type record inside a stack-map frame.
pub enum VerificationTypeInfo {
    Top,
    Integer,
    Float,
    Null,
    UninitializedThis,
    Object(u16),
    Uninitialized(u16),
    Long,
    Double,
}

/// One row of a code body's exception table.
pub struct ExceptionTableEntry {
    pub start_pc: u16,
    pub end_pc: u16,
    pub handler_pc: u16,
    pub catch_type: u16,
}

/// One row of an inner-classes table.
pub struct InnerClassTableEntry {
    pub inner_class_info_index: u16,
    pub outer_class_info_index: u16,
    pub inner_name_index: u16,
    pub inner_class_access_flags: u16,
}

/// One row of a line-number table.
pub struct LineNumberTableEntry {
    pub start_pc: u16,
    pub line_number: u16,
}

} // verus!
