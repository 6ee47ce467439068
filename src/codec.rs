use vstd::prelude::*;
use crate::text::{bool_of, decimal_in, read_bool, read_decimal};

verus! {

/// Shape of a parameter or result as a component's interface schema declares it.
#[derive(Debug)]
pub enum TypeDescriptor {
    Bool,
    U8,
    U16,
    U32,
    U64,
    S8,
    S16,
    S32,
    S64,
    Float32,
    Float64,
    String,
    /// An enumeration, with the names of its cases.
    Enum(Vec<String>),
    /// A list of elements of one shape.
    List(Box<TypeDescriptor>),
    /// Any other shape (records, tuples, options, ...), by its printed form.
    Other(String),
}

/// The tag of a `TypeDescriptor`, without what it carries.
#[derive(Debug, Clone, Copy, PartialEq, Eq, Structural)]
pub enum TypeKind {
    Bool,
    U8,
    U16,
    U32,
    U64,
    S8,
    S16,
    S32,
    S64,
    Float32,
    Float64,
    String,
    Enum,
    List,
    Other,
}

impl TypeDescriptor {
    pub open spec fn kind_spec(&self) -> TypeKind {
        match self {
            TypeDescriptor::Bool => TypeKind::Bool,
            TypeDescriptor::U8 => TypeKind::U8,
            TypeDescriptor::U16 => TypeKind::U16,
            TypeDescriptor::U32 => TypeKind::U32,
            TypeDescriptor::U64 => TypeKind::U64,
            TypeDescriptor::S8 => TypeKind::S8,
            TypeDescriptor::S16 => TypeKind::S16,
            TypeDescriptor::S32 => TypeKind::S32,
            TypeDescriptor::S64 => TypeKind::S64,
            TypeDescriptor::Float32 => TypeKind::Float32,
            TypeDescriptor::Float64 => TypeKind::Float64,
            TypeDescriptor::String => TypeKind::String,
            TypeDescriptor::Enum(_) => TypeKind::Enum,
            TypeDescriptor::List(_) => TypeKind::List,
            TypeDescriptor::Other(_) => TypeKind::Other,
        }
    }

    #[verifier::when_used_as_spec(kind_spec)]
    pub fn kind(&self) -> (r: TypeKind)
        ensures
            r == self.kind_spec(),
    {
        match self {
            TypeDescriptor::Bool => TypeKind::Bool,
            TypeDescriptor::U8 => TypeKind::U8,
            TypeDescriptor::U16 => TypeKind::U16,
            TypeDescriptor::U32 => TypeKind::U32,
            TypeDescriptor::U64 => TypeKind::U64,
            TypeDescriptor::S8 => TypeKind::S8,
            TypeDescriptor::S16 => TypeKind::S16,
            TypeDescriptor::S32 => TypeKind::S32,
            TypeDescriptor::S64 => TypeKind::S64,
            TypeDescriptor::Float32 => TypeKind::Float32,
            TypeDescriptor::Float64 => TypeKind::Float64,
            TypeDescriptor::String => TypeKind::String,
            TypeDescriptor::Enum(_) => TypeKind::Enum,
            TypeDescriptor::List(_) => TypeKind::List,
            TypeDescriptor::Other(_) => TypeKind::Other,
        }
    }
}

/// A concrete value of one of the supported shapes. Floating-point values are
/// held as their IEEE-754 bit patterns.
#[derive(Debug, PartialEq, Eq)]
pub enum Value {
    Bool(bool),
    U8(u8),
    U16(u16),
    U32(u32),
    U64(u64),
    S8(i8),
    S16(i16),
    S32(i32),
    S64(i64),
    Float32(u32),
    Float64(u64),
    String(String),
    Enum(String),
}

/// One command-line token, with what the platform's float parser made of it
/// at each width (as IEEE-754 bit patterns; `None` where it refused the text).
#[derive(Debug)]
pub struct Token {
    pub text: String,
    pub float32: Option<u32>,
    pub float64: Option<u64>,
}

impl Token {
    /// A token that no float parser has read: it is refused where a float is due.
    pub fn plain(text: String) -> (r: Token)
        ensures
            r.text@ == text@,
            r.float32 is None,
            r.float64 is None,
    {
        Token { text, float32: None, float64: None }
    }
}

#[derive(Debug, Clone, Copy, PartialEq, Eq, Structural)]
pub enum ConversionErrorKind {
    TypeMismatch,
    ParseFailure,
    UnsupportedType,
}

/// The shapes the codec handles: every one but lists and the catch-all.
pub open spec fn is_supported(t: TypeDescriptor) -> bool {
    !(t is List || t is Other)
}

/// Inclusive range and signedness of an integer shape.
pub open spec fn int_bounds(t: TypeDescriptor) -> Option<(int, int)> {
    match t {
        TypeDescriptor::U8 => Some((0, 0xff)),
        TypeDescriptor::U16 => Some((0, 0xffff)),
        TypeDescriptor::U32 => Some((0, 0xffff_ffff)),
        TypeDescriptor::U64 => Some((0, 0xffff_ffff_ffff_ffff)),
        TypeDescriptor::S8 => Some((-0x80, 0x7f)),
        TypeDescriptor::S16 => Some((-0x8000, 0x7fff)),
        TypeDescriptor::S32 => Some((-0x8000_0000, 0x7fff_ffff)),
        TypeDescriptor::S64 => Some((-0x8000_0000_0000_0000, 0x7fff_ffff_ffff_ffff)),
        _ => None,
    }
}

/// The integer that `s` writes for the integer shape `t`, if it is in range.
pub open spec fn int_reading(t: TypeDescriptor, s: Seq<char>) -> Option<int> {
    match int_bounds(t) {
        Some((lo, hi)) => decimal_in(s, lo < 0, lo, hi),
        None => None,
    }
}

/// Why `tok` cannot be encoded as a `t`, if it cannot.
pub open spec fn encode_error(t: TypeDescriptor, tok: Token) -> Option<ConversionErrorKind> {
    match t {
        TypeDescriptor::List(_) => Some(ConversionErrorKind::UnsupportedType),
        TypeDescriptor::Other(_) => Some(ConversionErrorKind::UnsupportedType),
        TypeDescriptor::String => None,
        TypeDescriptor::Enum(_) => None,
        TypeDescriptor::Bool => if bool_of(tok.text@) is Some {
            None
        } else {
            Some(ConversionErrorKind::ParseFailure)
        },
        TypeDescriptor::Float32 => if tok.float32 is Some {
            None
        } else {
            Some(ConversionErrorKind::ParseFailure)
        },
        TypeDescriptor::Float64 => if tok.float64 is Some {
            None
        } else {
            Some(ConversionErrorKind::ParseFailure)
        },
        _ => if int_reading(t, tok.text@) is Some {
            None
        } else {
            Some(ConversionErrorKind::ParseFailure)
        },
    }
}

/// `v` is what `tok` encodes to as a `t`: the integer it writes, its truth
/// value, the float the parser read, or the text itself for strings and enums.
pub open spec fn encoded_as(t: TypeDescriptor, tok: Token, v: Value) -> bool {
    let s = tok.text@;
    match (t, v) {
        (TypeDescriptor::Bool, Value::Bool(b)) => bool_of(s) == Some(b),
        (TypeDescriptor::U8, Value::U8(x)) => int_reading(t, s) == Some(x as int),
        (TypeDescriptor::U16, Value::U16(x)) => int_reading(t, s) == Some(x as int),
        (TypeDescriptor::U32, Value::U32(x)) => int_reading(t, s) == Some(x as int),
        (TypeDescriptor::U64, Value::U64(x)) => int_reading(t, s) == Some(x as int),
        (TypeDescriptor::S8, Value::S8(x)) => int_reading(t, s) == Some(x as int),
        (TypeDescriptor::S16, Value::S16(x)) => int_reading(t, s) == Some(x as int),
        (TypeDescriptor::S32, Value::S32(x)) => int_reading(t, s) == Some(x as int),
        (TypeDescriptor::S64, Value::S64(x)) => int_reading(t, s) == Some(x as int),
        (TypeDescriptor::Float32, Value::Float32(b)) => tok.float32 == Some(b),
        (TypeDescriptor::Float64, Value::Float64(b)) => tok.float64 == Some(b),
        (TypeDescriptor::String, Value::String(x)) => x@ == s,
        (TypeDescriptor::Enum(_), Value::Enum(x)) => x@ == s,
        _ => false,
    }
}

/// `v` is a value of the shape `t`.
pub open spec fn kind_matches(t: TypeDescriptor, v: Value) -> bool {
    match (t, v) {
        (TypeDescriptor::Bool, Value::Bool(_)) => true,
        (TypeDescriptor::U8, Value::U8(_)) => true,
        (TypeDescriptor::U16, Value::U16(_)) => true,
        (TypeDescriptor::U32, Value::U32(_)) => true,
        (TypeDescriptor::U64, Value::U64(_)) => true,
        (TypeDescriptor::S8, Value::S8(_)) => true,
        (TypeDescriptor::S16, Value::S16(_)) => true,
        (TypeDescriptor::S32, Value::S32(_)) => true,
        (TypeDescriptor::S64, Value::S64(_)) => true,
        (TypeDescriptor::Float32, Value::Float32(_)) => true,
        (TypeDescriptor::Float64, Value::Float64(_)) => true,
        (TypeDescriptor::String, Value::String(_)) => true,
        (TypeDescriptor::Enum(_), Value::Enum(_)) => true,
        _ => false,
    }
}

/// `v` is the canonical zero of `t`: false, 0, +0.0, or the empty string.
pub open spec fn is_zero_of(t: TypeDescriptor, v: Value) -> bool {
    match (t, v) {
        (TypeDescriptor::Bool, Value::Bool(b)) => !b,
        (TypeDescriptor::U8, Value::U8(x)) => x == 0,
        (TypeDescriptor::U16, Value::U16(x)) => x == 0,
        (TypeDescriptor::U32, Value::U32(x)) => x == 0,
        (TypeDescriptor::U64, Value::U64(x)) => x == 0,
        (TypeDescriptor::S8, Value::S8(x)) => x == 0,
        (TypeDescriptor::S16, Value::S16(x)) => x == 0,
        (TypeDescriptor::S32, Value::S32(x)) => x == 0,
        (TypeDescriptor::S64, Value::S64(x)) => x == 0,
        (TypeDescriptor::Float32, Value::Float32(b)) => b == 0,
        (TypeDescriptor::Float64, Value::Float64(b)) => b == 0,
        (TypeDescriptor::String, Value::String(x)) => x@.len() == 0,
        (TypeDescriptor::Enum(_), Value::Enum(x)) => x@.len() == 0,
        _ => false,
    }
}

/// Two values of one kind holding the same data (strings compared as text).
pub open spec fn same_value(a: Value, b: Value) -> bool {
    match (a, b) {
        (Value::String(x), Value::String(y)) => x@ == y@,
        (Value::Enum(x), Value::Enum(y)) => x@ == y@,
        (Value::String(_), _) => false,
        (Value::Enum(_), _) => false,
        _ => a == b,
    }
}

fn read_int(t: &TypeDescriptor, s: &str, lo: i128, hi: i128) -> (r: Option<i128>)
    requires
        int_bounds(*t) == Some((lo as int, hi as int)),
    ensures
        r matches Some(v) ==> int_reading(*t, s@) == Some(v as int),
        r is None ==> int_reading(*t, s@) is None,
{
    read_decimal(s, lo < 0, lo, hi)
}

/// Converts one token to a value of the shape `t`. Integers are read in
/// decimal at the shape's exact width and signedness, truth values as `true`
/// or `false` in any case; strings and enum cases take the text unchanged.
pub fn encode(t: &TypeDescriptor, tok: &Token) -> (r: Result<Value, ConversionErrorKind>)
    ensures
        r matches Ok(v) ==> encode_error(*t, *tok) is None && encoded_as(*t, *tok, v)
            && kind_matches(*t, v),
        r matches Err(k) ==> encode_error(*t, *tok) == Some(k),
{
    let s = tok.text.as_str();
    let parse = ConversionErrorKind::ParseFailure;
    match t {
        TypeDescriptor::Bool => match read_bool(s) {
            Some(b) => Ok(Value::Bool(b)),
            None => Err(parse),
        },
        TypeDescriptor::U8 => match read_int(t, s, 0, 0xff) {
            Some(v) => Ok(Value::U8(v as u8)),
            None => Err(parse),
        },
        TypeDescriptor::U16 => match read_int(t, s, 0, 0xffff) {
            Some(v) => Ok(Value::U16(v as u16)),
            None => Err(parse),
        },
        TypeDescriptor::U32 => match read_int(t, s, 0, 0xffff_ffff) {
            Some(v) => Ok(Value::U32(v as u32)),
            None => Err(parse),
        },
        TypeDescriptor::U64 => match read_int(t, s, 0, 0xffff_ffff_ffff_ffff) {
            Some(v) => Ok(Value::U64(v as u64)),
            None => Err(parse),
        },
        TypeDescriptor::S8 => match read_int(t, s, -0x80, 0x7f) {
            Some(v) => Ok(Value::S8(v as i8)),
            None => Err(parse),
        },
        TypeDescriptor::S16 => match read_int(t, s, -0x8000, 0x7fff) {
            Some(v) => Ok(Value::S16(v as i16)),
            None => Err(parse),
        },
        TypeDescriptor::S32 => match read_int(t, s, -0x8000_0000, 0x7fff_ffff) {
            Some(v) => Ok(Value::S32(v as i32)),
            None => Err(parse),
        },
        TypeDescriptor::S64 => match read_int(t, s, -0x8000_0000_0000_0000, 0x7fff_ffff_ffff_ffff) {
            Some(v) => Ok(Value::S64(v as i64)),
            None => Err(parse),
        },
        TypeDescriptor::Float32 => match tok.float32 {
            Some(b) => Ok(Value::Float32(b)),
            None => Err(parse),
        },
        TypeDescriptor::Float64 => match tok.float64 {
            Some(b) => Ok(Value::Float64(b)),
            None => Err(parse),
        },
        TypeDescriptor::String => Ok(Value::String(tok.text.clone())),
        TypeDescriptor::Enum(_) => Ok(Value::Enum(tok.text.clone())),
        TypeDescriptor::List(_) => Err(ConversionErrorKind::UnsupportedType),
        TypeDescriptor::Other(_) => Err(ConversionErrorKind::UnsupportedType),
    }
}

/// The canonical zero of a supported shape, to fill a result slot before a
/// call; `None` for a shape outside the supported set.
pub fn zero_value(t: &TypeDescriptor) -> (r: Option<Value>)
    ensures
        r is Some <==> is_supported(*t),
        r matches Some(v) ==> is_zero_of(*t, v) && kind_matches(*t, v),
{
    match t {
        TypeDescriptor::Bool => Some(Value::Bool(false)),
        TypeDescriptor::U8 => Some(Value::U8(0)),
        TypeDescriptor::U16 => Some(Value::U16(0)),
        TypeDescriptor::U32 => Some(Value::U32(0)),
        TypeDescriptor::U64 => Some(Value::U64(0)),
        TypeDescriptor::S8 => Some(Value::S8(0)),
        TypeDescriptor::S16 => Some(Value::S16(0)),
        TypeDescriptor::S32 => Some(Value::S32(0)),
        TypeDescriptor::S64 => Some(Value::S64(0)),
        TypeDescriptor::Float32 => Some(Value::Float32(0)),
        TypeDescriptor::Float64 => Some(Value::Float64(0)),
        TypeDescriptor::String => Some(Value::String(String::new())),
        TypeDescriptor::Enum(_) => Some(Value::Enum(String::new())),
        TypeDescriptor::List(_) => None,
        TypeDescriptor::Other(_) => None,
    }
}

/// Whether `v` is a value of the shape `t`.
pub fn value_fits(t: &TypeDescriptor, v: &Value) -> (r: bool)
    ensures
        r == kind_matches(*t, *v),
{
    match (t, v) {
        (TypeDescriptor::Bool, Value::Bool(_)) => true,
        (TypeDescriptor::U8, Value::U8(_)) => true,
        (TypeDescriptor::U16, Value::U16(_)) => true,
        (TypeDescriptor::U32, Value::U32(_)) => true,
        (TypeDescriptor::U64, Value::U64(_)) => true,
        (TypeDescriptor::S8, Value::S8(_)) => true,
        (TypeDescriptor::S16, Value::S16(_)) => true,
        (TypeDescriptor::S32, Value::S32(_)) => true,
        (TypeDescriptor::S64, Value::S64(_)) => true,
        (TypeDescriptor::Float32, Value::Float32(_)) => true,
        (TypeDescriptor::Float64, Value::Float64(_)) => true,
        (TypeDescriptor::String, Value::String(_)) => true,
        (TypeDescriptor::Enum(_), Value::Enum(_)) => true,
        _ => false,
    }
}

/// Every token encodes, as every shape, either to a value of that very shape
/// or to a classified failure: unsupported shapes and nothing else fail with
/// `UnsupportedType`, and an integer out of range fails rather than wrapping.
pub proof fn lemma_encode_classified(t: TypeDescriptor, tok: Token, v: Value)
    ensures
        encoded_as(t, tok, v) ==> kind_matches(t, v),
        encode_error(t, tok) == Some(ConversionErrorKind::UnsupportedType) <==> !is_supported(t),
        encode_error(t, tok) is None || encode_error(t, tok) == Some(
            ConversionErrorKind::UnsupportedType,
        ) || encode_error(t, tok) == Some(ConversionErrorKind::ParseFailure),
        int_bounds(t) is Some && encode_error(t, tok) is None ==> int_reading(t, tok.text@)
            is Some,
{
}

/// The zero of a shape is unique: any two zeros of `t` hold the same data, so
/// filling result slots twice gives the same values.
pub proof fn lemma_zero_unique(t: TypeDescriptor, a: Value, b: Value)
    requires
        is_zero_of(t, a),
        is_zero_of(t, b),
    ensures
        same_value(a, b),
        kind_matches(t, a),
{
    match (a, b) {
        (Value::String(x), Value::String(y)) => assert(x@ =~= y@),
        (Value::Enum(x), Value::Enum(y)) => assert(x@ =~= y@),
        _ => {},
    }
}

} // verus!
