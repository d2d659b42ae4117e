//! Field and method type descriptors: the compact textual encodings of
//! field types and method signatures, and their parsers.

use vstd::prelude::*;
use vstd::string::StrSliceExecFns;

verus! {

/// The decoded type of a single field.
#[derive(Clone, Debug)]
pub enum FieldDescriptor {
    Byte,
    Character,
    Double,
    Float,
    Integer,
    Long,
    ClassReference { class_name: String },
    Short,
    Boolean,
    ArrayReference(),
}

/// The view of a [`FieldDescriptor`], with the class name as a character
/// sequence.
#[verifier::ext_equal]
pub ghost enum FieldDescriptorV {
    Byte,
    Character,
    Double,
    Float,
    Integer,
    Long,
    ClassReference(Seq<char>),
    Short,
    Boolean,
    ArrayReference,
}

impl View for FieldDescriptor {
    type V = FieldDescriptorV;

    open spec fn view(&self) -> FieldDescriptorV {
        match self {
            FieldDescriptor::Byte => FieldDescriptorV::Byte,
            FieldDescriptor::Character => FieldDescriptorV::Character,
            FieldDescriptor::Double => FieldDescriptorV::Double,
            FieldDescriptor::Float => FieldDescriptorV::Float,
            FieldDescriptor::Integer => FieldDescriptorV::Integer,
            FieldDescriptor::Long => FieldDescriptorV::Long,
            FieldDescriptor::ClassReference { class_name } => FieldDescriptorV::ClassReference(
                class_name@,
            ),
            FieldDescriptor::Short => FieldDescriptorV::Short,
            FieldDescriptor::Boolean => FieldDescriptorV::Boolean,
            FieldDescriptor::ArrayReference() => FieldDescriptorV::ArrayReference,
        }
    }
}

/// What a field-descriptor string denotes: a one-letter primitive code, or
/// `L<class-name>;` for a class reference. Array descriptors are not
/// recognized.
pub open spec fn parse_field_descriptor(s: Seq<char>) -> Option<FieldDescriptorV> {
    if s.len() == 1 {
        if s[0] == 'B' {
            Some(FieldDescriptorV::Byte)
        } else if s[0] == 'C' {
            Some(FieldDescriptorV::Character)
        } else if s[0] == 'D' {
            Some(FieldDescriptorV::Double)
        } else if s[0] == 'F' {
            Some(FieldDescriptorV::Float)
        } else if s[0] == 'I' {
            Some(FieldDescriptorV::Integer)
        } else if s[0] == 'J' {
            Some(FieldDescriptorV::Long)
        } else if s[0] == 'S' {
            Some(FieldDescriptorV::Short)
        } else if s[0] == 'Z' {
            Some(FieldDescriptorV::Boolean)
        } else {
            None
        }
    } else if s.len() >= 2 && s[0] == 'L' && s[s.len() - 1] == ';' {
        Some(FieldDescriptorV::ClassReference(s.subrange(1, s.len() - 1)))
    } else {
        None
    }
}

impl FieldDescriptor {
    /// Decodes a field-descriptor string; `None` when the string is not a
    /// recognized descriptor.
    pub fn from_str(s: &str) -> (r: Option<FieldDescriptor>)
        ensures
            match r {
                Some(d) => parse_field_descriptor(s@) == Some(d@),
                None => parse_field_descriptor(s@) is None,
            },
    {
        let len = s.unicode_len();
        if len == 1 {
            let c = s.get_char(0);
            match c {
                'B' => Some(FieldDescriptor::Byte),
                'C' => Some(FieldDescriptor::Character),
                'D' => Some(FieldDescriptor::Double),
                'F' => Some(FieldDescriptor::Float),
                'I' => Some(FieldDescriptor::Integer),
                'J' => Some(FieldDescriptor::Long),
                'S' => Some(FieldDescriptor::Short),
                'Z' => Some(FieldDescriptor::Boolean),
                _ => None,
            }
        } else if len >= 2 {
            let c0 = s.get_char(0);
            let cl = s.get_char(len - 1);
            if c0 == 'L' && cl == ';' {
                let name = s.substring_char(1, len - 1);
                Some(FieldDescriptor::ClassReference { class_name: name.to_owned() })
            } else {
                None
            }
        } else {
            None
        }
    }
}

/// One token of a method-descriptor string.
#[derive(Clone, Debug)]
pub enum Lexeme {
    LeftParentheses,
    RightParentheses,
    Byte,
    Character,
    Double,
    Float,
    Integer,
    Long,
    Class(String),
    Short,
    Boolean,
    LeftSquareBracket,
    Void,
}

/// The view of a [`Lexeme`].
#[verifier::ext_equal]
pub ghost enum LexemeV {
    LeftParentheses,
    RightParentheses,
    Byte,
    Character,
    Double,
    Float,
    Integer,
    Long,
    Class(Seq<char>),
    Short,
    Boolean,
    LeftSquareBracket,
    Void,
}

impl View for Lexeme {
    type V = LexemeV;

    open spec fn view(&self) -> LexemeV {
        match self {
            Lexeme::LeftParentheses => LexemeV::LeftParentheses,
            Lexeme::RightParentheses => LexemeV::RightParentheses,
            Lexeme::Byte => LexemeV::Byte,
            Lexeme::Character => LexemeV::Character,
            Lexeme::Double => LexemeV::Double,
            Lexeme::Float => LexemeV::Float,
            Lexeme::Integer => LexemeV::Integer,
            Lexeme::Long => LexemeV::Long,
            Lexeme::Class(name) => LexemeV::Class(name@),
            Lexeme::Short => LexemeV::Short,
            Lexeme::Boolean => LexemeV::Boolean,
            Lexeme::LeftSquareBracket => LexemeV::LeftSquareBracket,
            Lexeme::Void => LexemeV::Void,
        }
    }
}

/// The lexeme a single character stands for, where one exists.
pub open spec fn single_lexeme(c: char) -> Option<LexemeV> {
    if c == '(' {
        Some(LexemeV::LeftParentheses)
    } else if c == ')' {
        Some(LexemeV::RightParentheses)
    } else if c == 'B' {
        Some(LexemeV::Byte)
    } else if c == 'C' {
        Some(LexemeV::Character)
    } else if c == 'D' {
        Some(LexemeV::Double)
    } else if c == 'F' {
        Some(LexemeV::Float)
    } else if c == 'I' {
        Some(LexemeV::Integer)
    } else if c == 'J' {
        Some(LexemeV::Long)
    } else if c == 'S' {
        Some(LexemeV::Short)
    } else if c == '[' {
        Some(LexemeV::LeftSquareBracket)
    } else if c == 'V' {
        Some(LexemeV::Void)
    } else {
        None
    }
}

/// The position of the first occurrence of `c` in `s` at or after `from`.
pub open spec fn find_char(s: Seq<char>, c: char, from: int) -> Option<int>
    decreases s.len() - from,
{
    if from < 0 || from >= s.len() {
        None
    } else if s[from] == c {
        Some(from)
    } else {
        find_char(s, c, from + 1)
    }
}

/// The lexemes of the descriptor characters from position `i` on: single
/// character codes, or a class reference delimited by `L` and `;`. `None`
/// when an unrecognized character or an unterminated class reference is
/// met.
pub open spec fn lex_from(s: Seq<char>, i: int) -> Option<Seq<LexemeV>>
    decreases s.len() - i,
{
    if i < 0 || i >= s.len() {
        Some(Seq::empty())
    } else {
        match single_lexeme(s[i]) {
            Some(l) => match lex_from(s, i + 1) {
                Some(rest) => Some(seq![l] + rest),
                None => None,
            },
            None => if s[i] == 'L' {
                match find_char(s, ';', i + 1) {
                    Some(end) => if i < end && end < s.len() {
                        match lex_from(s, end + 1) {
                            Some(rest) => Some(seq![LexemeV::Class(s.subrange(i + 1, end))] + rest),
                            None => None,
                        }
                    } else {
                        None
                    },
                    None => None,
                }
            } else {
                None
            },
        }
    }
}

/// Whether a lexeme is a field type usable as a parameter or return type.
pub open spec fn lexeme_is_field_type(l: LexemeV) -> bool {
    match l {
        LexemeV::Byte => true,
        LexemeV::Character => true,
        LexemeV::Double => true,
        LexemeV::Float => true,
        LexemeV::Integer => true,
        LexemeV::Long => true,
        LexemeV::Class(_) => true,
        LexemeV::Short => true,
        LexemeV::Boolean => true,
        _ => false,
    }
}

/// The field type a field-type lexeme stands for.
pub open spec fn lexeme_field_type(l: LexemeV) -> FieldTypeV {
    match l {
        LexemeV::Byte => FieldTypeV::Byte,
        LexemeV::Character => FieldTypeV::Character,
        LexemeV::Double => FieldTypeV::Double,
        LexemeV::Float => FieldTypeV::Float,
        LexemeV::Integer => FieldTypeV::Integer,
        LexemeV::Long => FieldTypeV::Long,
        LexemeV::Class(name) => FieldTypeV::Class(name),
        LexemeV::Short => FieldTypeV::Short,
        LexemeV::Boolean => FieldTypeV::Boolean,
        _ => FieldTypeV::Array,
    }
}

/// The number of consecutive field-type lexemes starting at `from`.
pub open spec fn count_params_from(lx: Seq<LexemeV>, from: int) -> int
    decreases lx.len() - from,
{
    if from < 0 || from >= lx.len() || !lexeme_is_field_type(lx[from]) {
        0
    } else {
        1 + count_params_from(lx, from + 1)
    }
}

/// What a lexed method descriptor denotes: `(` zero or more field types
/// `)` and a field type or `V`. Lexemes after the return descriptor are
/// ignored.
pub open spec fn parse_lexemes(lx: Seq<LexemeV>) -> Option<MethodDescriptorV> {
    if lx.len() == 0 || lx[0] != LexemeV::LeftParentheses {
        None
    } else {
        let n = count_params_from(lx, 1);
        let j = 1 + n;
        if j >= lx.len() || lx[j] != LexemeV::RightParentheses {
            None
        } else {
            let k = j + 1;
            if k >= lx.len() {
                None
            } else {
                let params = Seq::new(n as nat, |i: int| lexeme_field_type(lx[1 + i]));
                if lexeme_is_field_type(lx[k]) {
                    Some(
                        MethodDescriptorV {
                            params,
                            ret: ReturnDescriptorV::Field(lexeme_field_type(lx[k])),
                        },
                    )
                } else if lx[k] == LexemeV::Void {
                    Some(MethodDescriptorV { params, ret: ReturnDescriptorV::Void })
                } else {
                    None
                }
            }
        }
    }
}

/// What a method-descriptor string denotes, through lexing then parsing.
pub open spec fn parse_method_descriptor(s: Seq<char>) -> Option<MethodDescriptorV> {
    match lex_from(s, 0) {
        Some(lx) => parse_lexemes(lx),
        None => None,
    }
}

/// The number of parameters a method-descriptor string declares, where it
/// parses.
pub open spec fn descriptor_param_count(s: Seq<char>) -> Option<int> {
    match parse_method_descriptor(s) {
        Some(md) => Some(md.params.len() as int),
        None => None,
    }
}

/// The type of one parameter or of a non-void return value.
#[derive(Clone, Debug)]
pub enum FieldType {
    Byte,
    Character,
    Double,
    Float,
    Integer,
    Long,
    Class(String),
    Short,
    Boolean,
    Array(),
}

/// The view of a [`FieldType`].
#[verifier::ext_equal]
pub ghost enum FieldTypeV {
    Byte,
    Character,
    Double,
    Float,
    Integer,
    Long,
    Class(Seq<char>),
    Short,
    Boolean,
    Array,
}

impl View for FieldType {
    type V = FieldTypeV;

    open spec fn view(&self) -> FieldTypeV {
        match self {
            FieldType::Byte => FieldTypeV::Byte,
            FieldType::Character => FieldTypeV::Character,
            FieldType::Double => FieldTypeV::Double,
            FieldType::Float => FieldTypeV::Float,
            FieldType::Integer => FieldTypeV::Integer,
            FieldType::Long => FieldTypeV::Long,
            FieldType::Class(name) => FieldTypeV::Class(name@),
            FieldType::Short => FieldTypeV::Short,
            FieldType::Boolean => FieldTypeV::Boolean,
            FieldType::Array() => FieldTypeV::Array,
        }
    }
}

/// A method's return descriptor: void, or a field type.
#[derive(Clone, Debug)]
pub enum ReturnDescriptor {
    Void,
    Field(FieldType),
}

/// The view of a [`ReturnDescriptor`].
#[verifier::ext_equal]
pub ghost enum ReturnDescriptorV {
    Void,
    Field(FieldTypeV),
}

impl View for ReturnDescriptor {
    type V = ReturnDescriptorV;

    open spec fn view(&self) -> ReturnDescriptorV {
        match self {
            ReturnDescriptor::Void => ReturnDescriptorV::Void,
            ReturnDescriptor::Field(ft) => ReturnDescriptorV::Field(ft@),
        }
    }
}

/// A decoded method signature: the parameter types in order, and the
/// return descriptor.
#[derive(Clone, Debug)]
pub struct MethodDescriptor {
    pub parameter_descriptors: Vec<FieldType>,
    pub return_descriptor: ReturnDescriptor,
}

/// The view of a [`MethodDescriptor`].
#[verifier::ext_equal]
pub ghost struct MethodDescriptorV {
    pub params: Seq<FieldTypeV>,
    pub ret: ReturnDescriptorV,
}

impl View for MethodDescriptor {
    type V = MethodDescriptorV;

    open spec fn view(&self) -> MethodDescriptorV {
        MethodDescriptorV {
            params: self.parameter_descriptors@.map_values(|ft: FieldType| ft@),
            ret: self.return_descriptor@,
        }
    }
}

impl MethodDescriptor {
    /// How many parameters the signature declares, and so how many operands
    /// an invocation consumes beyond the receiver.
    pub fn parameters_length(&self) -> (r: usize)
        ensures
            r == self@.params.len(),
    {
        self.parameter_descriptors.len()
    }

    /// Decodes a method-descriptor string; `None` when the string does not
    /// follow the `(<params>)<return>` grammar.
    pub fn parse(input: &str) -> (r: Option<MethodDescriptor>)
        ensures
            match r {
                Some(md) => parse_method_descriptor(input@) == Some(md@),
                None => parse_method_descriptor(input@) is None,
            },
    {
        let lexemes = match Self::lex(input) {
            Some(v) => v,
            None => {
                return None;
            },
        };
        let n = lexemes.len();
        let ghost lxv = lexemes@.map_values(|l: Lexeme| l@);
        if n == 0 {
            return None;
        }
        match &lexemes[0] {
            Lexeme::LeftParentheses => {},
            _ => {
                return None;
            },
        }
        let mut params: Vec<FieldType> = Vec::new();
        let mut j: usize = 1;
        while j < n && Self::is_field_type_lexeme(&lexemes[j])
            invariant
                1 <= j <= n,
                n == lxv.len(),
                lxv == lexemes@.map_values(|l: Lexeme| l@),
                forall|k: int| 1 <= k < j ==> lexeme_is_field_type(lxv[k]),
                count_params_from(lxv, 1) == (j - 1) + count_params_from(lxv, j as int),
                params@.len() == j - 1,
                forall|idx: int|
                    0 <= idx < j - 1 ==> (#[trigger] params@[idx])@ == lexeme_field_type(
                        lxv[1 + idx],
                    ),
            decreases n - j,
        {
            let ft = Self::to_field_type(&lexemes[j]);
            proof {
                assert(lxv[j as int] == lexemes@[j as int]@);
            }
            params.push(ft);
            j = j + 1;
        }
        proof {
            assert(count_params_from(lxv, j as int) == 0);
            let m = params@.map_values(|ft: FieldType| ft@);
            let expect = Seq::new((j - 1) as nat, |i: int| lexeme_field_type(lxv[1 + i]));
            assert forall|idx: int| 0 <= idx < j - 1 implies m[idx] == expect[idx] by {
                assert((#[trigger] params@[idx])@ == lexeme_field_type(lxv[1 + idx]));
            }
            assert(m =~= expect);
        }
        if j >= n {
            return None;
        }
        match &lexemes[j] {
            Lexeme::RightParentheses => {},
            _ => {
                return None;
            },
        }
        let k = j + 1;
        if k >= n {
            return None;
        }
        if Self::is_field_type_lexeme(&lexemes[k]) {
            let ret = Self::to_field_type(&lexemes[k]);
            Some(
                MethodDescriptor {
                    parameter_descriptors: params,
                    return_descriptor: ReturnDescriptor::Field(ret),
                },
            )
        } else {
            match &lexemes[k] {
                Lexeme::Void => Some(
                    MethodDescriptor {
                        parameter_descriptors: params,
                        return_descriptor: ReturnDescriptor::Void,
                    },
                ),
                _ => None,
            }
        }
    }

    /// Whether a lexeme can stand as a parameter or return field type.
    fn is_field_type_lexeme(l: &Lexeme) -> (r: bool)
        ensures
            r == lexeme_is_field_type(l@),
    {
        match l {
            Lexeme::Byte => true,
            Lexeme::Character => true,
            Lexeme::Double => true,
            Lexeme::Float => true,
            Lexeme::Integer => true,
            Lexeme::Long => true,
            Lexeme::Class(_) => true,
            Lexeme::Short => true,
            Lexeme::Boolean => true,
            _ => false,
        }
    }

    /// The field type a field-type lexeme stands for.
    fn to_field_type(l: &Lexeme) -> (r: FieldType)
        requires
            lexeme_is_field_type(l@),
        ensures
            r@ == lexeme_field_type(l@),
    {
        match l {
            Lexeme::Byte => FieldType::Byte,
            Lexeme::Character => FieldType::Character,
            Lexeme::Double => FieldType::Double,
            Lexeme::Float => FieldType::Float,
            Lexeme::Integer => FieldType::Integer,
            Lexeme::Long => FieldType::Long,
            Lexeme::Class(name) => FieldType::Class(name.clone()),
            Lexeme::Short => FieldType::Short,
            _ => FieldType::Boolean,
        }
    }

    /// Scans the descriptor left to right into lexemes; `None` when a
    /// character is not part of the descriptor alphabet or a class
    /// reference has no terminating semicolon.
    fn lex(input: &str) -> (r: Option<Vec<Lexeme>>)
        ensures
            match r {
                Some(v) => lex_from(input@, 0) == Some(v@.map_values(|l: Lexeme| l@)),
                None => lex_from(input@, 0) is None,
            },
    {
        let len = input.unicode_len();
        let mut out: Vec<Lexeme> = Vec::new();
        let mut i: usize = 0;
        while i < len
            invariant
                i <= len,
                len == input@.len(),
                lex_from(input@, 0) == (match lex_from(input@, i as int) {
                    Some(rest) => Some(out@.map_values(|l: Lexeme| l@) + rest),
                    None => None::<Seq<LexemeV>>,
                }),
            decreases len - i,
        {
            let ghost i0 = i as int;
            let c = input.get_char(i);
            let lx: Lexeme;
            let next_i: usize;
            match c {
                '(' => {
                    lx = Lexeme::LeftParentheses;
                    next_i = i + 1;
                },
                ')' => {
                    lx = Lexeme::RightParentheses;
                    next_i = i + 1;
                },
                'B' => {
                    lx = Lexeme::Byte;
                    next_i = i + 1;
                },
                'C' => {
                    lx = Lexeme::Character;
                    next_i = i + 1;
                },
                'D' => {
                    lx = Lexeme::Double;
                    next_i = i + 1;
                },
                'F' => {
                    lx = Lexeme::Float;
                    next_i = i + 1;
                },
                'I' => {
                    lx = Lexeme::Integer;
                    next_i = i + 1;
                },
                'J' => {
                    lx = Lexeme::Long;
                    next_i = i + 1;
                },
                'S' => {
                    lx = Lexeme::Short;
                    next_i = i + 1;
                },
                '[' => {
                    lx = Lexeme::LeftSquareBracket;
                    next_i = i + 1;
                },
                'V' => {
                    lx = Lexeme::Void;
                    next_i = i + 1;
                },
                'L' => {
                    let mut j: usize = i + 1;
                    let mut end: Option<usize> = None;
                    while j < len && end.is_none()
                        invariant
                            i + 1 <= j <= len,
                            len == input@.len(),
                            match end {
                                Some(e) => find_char(input@, ';', i0 + 1) == Some(e as int)
                                    && i + 1 <= e < len,
                                None => find_char(input@, ';', i0 + 1) == find_char(
                                    input@,
                                    ';',
                                    j as int,
                                ),
                            },
                        decreases len - j + (if end is Some {
                            0int
                        } else {
                            1int
                        }),
                    {
                        if input.get_char(j) == ';' {
                            end = Some(j);
                        } else {
                            j = j + 1;
                        }
                    }
                    match end {
                        Some(e) => {
                            let name = input.substring_char(i + 1, e);
                            lx = Lexeme::Class(name.to_owned());
                            next_i = e + 1;
                        },
                        None => {
                            proof {
                                assert(find_char(input@, ';', i0 + 1) is None);
                                assert(lex_from(input@, i0) is None);
                            }
                            return None;
                        },
                    }
                },
                _ => {
                    proof {
                        assert(single_lexeme(c) is None);
                        assert(lex_from(input@, i0) is None);
                    }
                    return None;
                },
            }
            proof {
                let lxs = out@.map_values(|l: Lexeme| l@);
                assert(lex_from(input@, i0) == (match lex_from(input@, next_i as int) {
                    Some(rest) => Some(seq![lx@] + rest),
                    None => None::<Seq<LexemeV>>,
                }));
                assert(out@.push(lx).map_values(|l: Lexeme| l@) =~= lxs + seq![lx@]);
                match lex_from(input@, next_i as int) {
                    Some(rest) => {
                        assert((lxs + seq![lx@]) + rest =~= lxs + (seq![lx@] + rest));
                    },
                    None => {},
                }
            }
            out.push(lx);
            i = next_i;
        }
        Some(out)
    }
}

} // verus!
