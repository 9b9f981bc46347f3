//! The dynamic value marshaler: native values to and from the runtime's
//! tagged-union value, and the bounds-tracked arrays that carry argument lists.

use vstd::prelude::*;
use crate::error::ClrError;
use crate::wide::{decode_wide, encode_wide, utf16_encode, utf16_lossy};

verus! {

/// Native tag of an empty value.
pub const VT_EMPTY: u16 = 0;
/// Native tag of a 16-bit signed integer.
pub const VT_I2: u16 = 2;
/// Native tag of a 32-bit signed integer.
pub const VT_I4: u16 = 3;
/// Native tag of a length-prefixed wide string.
pub const VT_BSTR: u16 = 8;
/// Native tag of an automation object reference.
pub const VT_DISPATCH: u16 = 9;
/// Native tag of a boolean.
pub const VT_BOOL: u16 = 11;
/// Native tag of an object reference.
pub const VT_UNKNOWN: u16 = 13;
/// Native tag of an 8-bit signed integer.
pub const VT_I1: u16 = 16;
/// Native tag of an 8-bit unsigned integer.
pub const VT_UI1: u16 = 17;
/// Native tag of a 16-bit unsigned integer.
pub const VT_UI2: u16 = 18;
/// Native tag of a 32-bit unsigned integer.
pub const VT_UI4: u16 = 19;
/// Native tag of a 64-bit signed integer.
pub const VT_I8: u16 = 20;
/// Native tag of a 64-bit unsigned integer.
pub const VT_UI8: u16 = 21;
/// Native tag of a pointer-sized signed integer.
pub const VT_INT: u16 = 22;
/// Native tag bit that marks an array of the base type.
pub const VT_ARRAY: u16 = 0x2000;
/// Native encoding of boolean truth (all bits of the 16-bit field set).
pub const VARIANT_TRUE: u64 = 0xffff;
/// Status the runtime gives for an array index outside the bounds.
pub const DISP_E_BADINDEX: i32 = -2147352565;

/// What a dynamic value holds, in mathematical terms.
pub enum DynValue {
    Empty,
    Bool(bool),
    I8(i8),
    U8(u8),
    I16(i16),
    U16(u16),
    I32(i32),
    U32(u32),
    I64(i64),
    U64(u64),
    Text(Seq<u16>),
    Object(usize),
    Pointer(usize),
    TextArray(Seq<Seq<u16>>),
}

/// One value crossing the native boundary.
#[derive(Debug, Clone, PartialEq)]
pub enum Variant {
    /// No value.
    Empty,
    Bool(bool),
    I8(i8),
    U8(u8),
    I16(i16),
    U16(u16),
    I32(i32),
    U32(u32),
    I64(i64),
    U64(u64),
    /// Wide text, without its terminator.
    Text(Vec<u16>),
    /// A reference to a runtime object (for instance a resolved member).
    Object(usize),
    /// A pointer-sized integer, as native addresses are handed out.
    Pointer(usize),
    /// An array of wide texts, as a program's entry point takes its arguments.
    TextArray(Vec<Vec<u16>>),
}

impl View for Variant {
    type V = DynValue;

    open spec fn view(&self) -> DynValue {
        match self {
            Variant::Empty => DynValue::Empty,
            Variant::Bool(b) => DynValue::Bool(*b),
            Variant::I8(x) => DynValue::I8(*x),
            Variant::U8(x) => DynValue::U8(*x),
            Variant::I16(x) => DynValue::I16(*x),
            Variant::U16(x) => DynValue::U16(*x),
            Variant::I32(x) => DynValue::I32(*x),
            Variant::U32(x) => DynValue::U32(*x),
            Variant::I64(x) => DynValue::I64(*x),
            Variant::U64(x) => DynValue::U64(*x),
            Variant::Text(u) => DynValue::Text(u@),
            Variant::Object(p) => DynValue::Object(*p),
            Variant::Pointer(p) => DynValue::Pointer(*p),
            Variant::TextArray(a) => DynValue::TextArray(crate::array::texts_of(a@)),
        }
    }
}

/// The kind of a dynamic value, one for each native tag that is supported.
#[derive(Debug, Clone, Copy, PartialEq, Eq, Structural)]
pub enum VarKind {
    Empty,
    Bool,
    I8,
    U8,
    I16,
    U16,
    I32,
    U32,
    I64,
    U64,
    Text,
    Object,
    Pointer,
    TextArray,
}

/// The native tag of each kind.
pub open spec fn tag_of(k: VarKind) -> u16 {
    match k {
        VarKind::Empty => VT_EMPTY,
        VarKind::Bool => VT_BOOL,
        VarKind::I8 => VT_I1,
        VarKind::U8 => VT_UI1,
        VarKind::I16 => VT_I2,
        VarKind::U16 => VT_UI2,
        VarKind::I32 => VT_I4,
        VarKind::U32 => VT_UI4,
        VarKind::I64 => VT_I8,
        VarKind::U64 => VT_UI8,
        VarKind::Text => VT_BSTR,
        VarKind::Object => VT_UNKNOWN,
        VarKind::Pointer => VT_INT,
        VarKind::TextArray => (VT_ARRAY | VT_BSTR) as u16,
    }
}

/// The kind that a native tag names; any other tag is refused, never
/// reinterpreted.
pub open spec fn kind_of_tag(vt: u16) -> Result<VarKind, ClrError> {
    if vt == VT_EMPTY {
        Ok(VarKind::Empty)
    } else if vt == VT_BOOL {
        Ok(VarKind::Bool)
    } else if vt == VT_I1 {
        Ok(VarKind::I8)
    } else if vt == VT_UI1 {
        Ok(VarKind::U8)
    } else if vt == VT_I2 {
        Ok(VarKind::I16)
    } else if vt == VT_UI2 {
        Ok(VarKind::U16)
    } else if vt == VT_I4 {
        Ok(VarKind::I32)
    } else if vt == VT_UI4 {
        Ok(VarKind::U32)
    } else if vt == VT_I8 {
        Ok(VarKind::I64)
    } else if vt == VT_UI8 {
        Ok(VarKind::U64)
    } else if vt == VT_BSTR {
        Ok(VarKind::Text)
    } else if vt == VT_UNKNOWN || vt == VT_DISPATCH {
        Ok(VarKind::Object)
    } else if vt == VT_INT {
        Ok(VarKind::Pointer)
    } else if vt == (VT_ARRAY | VT_BSTR) as u16 {
        Ok(VarKind::TextArray)
    } else {
        Err(ClrError::VariantUnsupported)
    }
}

/// The kind of a value.
pub open spec fn kind_of(v: DynValue) -> VarKind {
    match v {
        DynValue::Empty => VarKind::Empty,
        DynValue::Bool(_) => VarKind::Bool,
        DynValue::I8(_) => VarKind::I8,
        DynValue::U8(_) => VarKind::U8,
        DynValue::I16(_) => VarKind::I16,
        DynValue::U16(_) => VarKind::U16,
        DynValue::I32(_) => VarKind::I32,
        DynValue::U32(_) => VarKind::U32,
        DynValue::I64(_) => VarKind::I64,
        DynValue::U64(_) => VarKind::U64,
        DynValue::Text(_) => VarKind::Text,
        DynValue::Object(_) => VarKind::Object,
        DynValue::Pointer(_) => VarKind::Pointer,
        DynValue::TextArray(_) => VarKind::TextArray,
    }
}

/// Kinds whose whole payload is the 8-byte native word.
pub open spec fn is_word_kind(k: VarKind) -> bool {
    k != VarKind::Text && k != VarKind::TextArray
}

/// The 8-byte native payload of a value whose kind carries one: integers in
/// two's complement, zero-extended from their width.
pub open spec fn word_of(v: DynValue) -> u64 {
    match v {
        DynValue::Bool(b) => if b { VARIANT_TRUE } else { 0 },
        DynValue::I8(x) => (x as u8) as u64,
        DynValue::U8(x) => x as u64,
        DynValue::I16(x) => (x as u16) as u64,
        DynValue::U16(x) => x as u64,
        DynValue::I32(x) => (x as u32) as u64,
        DynValue::U32(x) => x as u64,
        DynValue::I64(x) => x as u64,
        DynValue::U64(x) => x,
        DynValue::Object(p) => p as u64,
        DynValue::Pointer(p) => p as u64,
        _ => 0,
    }
}

/// The value that a native word of the given kind holds: only the bits of the
/// kind's width are read.
pub open spec fn value_of_word(k: VarKind, w: u64) -> DynValue {
    match k {
        VarKind::Bool => DynValue::Bool((w as u16) != 0),
        VarKind::I8 => DynValue::I8((w as u8) as i8),
        VarKind::U8 => DynValue::U8(w as u8),
        VarKind::I16 => DynValue::I16((w as u16) as i16),
        VarKind::U16 => DynValue::U16(w as u16),
        VarKind::I32 => DynValue::I32((w as u32) as i32),
        VarKind::U32 => DynValue::U32(w as u32),
        VarKind::I64 => DynValue::I64(w as i64),
        VarKind::U64 => DynValue::U64(w),
        VarKind::Object => DynValue::Object(w as usize),
        VarKind::Pointer => DynValue::Pointer(w as usize),
        _ => DynValue::Empty,
    }
}

impl VarKind {
    /// The native tag of this kind.
    pub fn tag(self) -> (r: u16)
        ensures
            r == tag_of(self),
    {
        match self {
            VarKind::Empty => VT_EMPTY,
            VarKind::Bool => VT_BOOL,
            VarKind::I8 => VT_I1,
            VarKind::U8 => VT_UI1,
            VarKind::I16 => VT_I2,
            VarKind::U16 => VT_UI2,
            VarKind::I32 => VT_I4,
            VarKind::U32 => VT_UI4,
            VarKind::I64 => VT_I8,
            VarKind::U64 => VT_UI8,
            VarKind::Text => VT_BSTR,
            VarKind::Object => VT_UNKNOWN,
            VarKind::Pointer => VT_INT,
            VarKind::TextArray => VT_ARRAY | VT_BSTR,
        }
    }

    /// The kind that a native tag names, or `VariantUnsupported`.
    pub fn from_tag(vt: u16) -> (r: Result<VarKind, ClrError>)
        ensures
            r == kind_of_tag(vt),
    {
        if vt == VT_EMPTY {
            Ok(VarKind::Empty)
        } else if vt == VT_BOOL {
            Ok(VarKind::Bool)
        } else if vt == VT_I1 {
            Ok(VarKind::I8)
        } else if vt == VT_UI1 {
            Ok(VarKind::U8)
        } else if vt == VT_I2 {
            Ok(VarKind::I16)
        } else if vt == VT_UI2 {
            Ok(VarKind::U16)
        } else if vt == VT_I4 {
            Ok(VarKind::I32)
        } else if vt == VT_UI4 {
            Ok(VarKind::U32)
        } else if vt == VT_I8 {
            Ok(VarKind::I64)
        } else if vt == VT_UI8 {
            Ok(VarKind::U64)
        } else if vt == VT_BSTR {
            Ok(VarKind::Text)
        } else if vt == VT_UNKNOWN || vt == VT_DISPATCH {
            Ok(VarKind::Object)
        } else if vt == VT_INT {
            Ok(VarKind::Pointer)
        } else if vt == VT_ARRAY | VT_BSTR {
            Ok(VarKind::TextArray)
        } else {
            Err(ClrError::VariantUnsupported)
        }
    }
}

/// The refusal of a value whose kind is not the one asked for.
pub open spec fn unsupported<T>() -> Result<T, ClrError> {
    Err(ClrError::VariantUnsupported)
}

impl Variant {
    /// The kind of this value.
    pub fn kind(&self) -> (r: VarKind)
        ensures
            r == kind_of(self@),
    {
        match self {
            Variant::Empty => VarKind::Empty,
            Variant::Bool(_) => VarKind::Bool,
            Variant::I8(_) => VarKind::I8,
            Variant::U8(_) => VarKind::U8,
            Variant::I16(_) => VarKind::I16,
            Variant::U16(_) => VarKind::U16,
            Variant::I32(_) => VarKind::I32,
            Variant::U32(_) => VarKind::U32,
            Variant::I64(_) => VarKind::I64,
            Variant::U64(_) => VarKind::U64,
            Variant::Text(_) => VarKind::Text,
            Variant::Object(_) => VarKind::Object,
            Variant::Pointer(_) => VarKind::Pointer,
            Variant::TextArray(_) => VarKind::TextArray,
        }
    }

    /// The native tag of this value.
    pub fn tag(&self) -> (r: u16)
        ensures
            r == tag_of(kind_of(self@)),
    {
        self.kind().tag()
    }

    /// The 8-byte native payload of this value (zero for kinds that carry
    /// their payload elsewhere).
    pub fn word(&self) -> (r: u64)
        ensures
            r == word_of(self@),
    {
        match self {
            Variant::Bool(b) => if *b { VARIANT_TRUE } else { 0 },
            Variant::I8(x) => (*x as u8) as u64,
            Variant::U8(x) => *x as u64,
            Variant::I16(x) => (*x as u16) as u64,
            Variant::U16(x) => *x as u64,
            Variant::I32(x) => (*x as u32) as u64,
            Variant::U32(x) => *x as u64,
            Variant::I64(x) => *x as u64,
            Variant::U64(x) => *x,
            Variant::Object(p) => *p as u64,
            Variant::Pointer(p) => *p as u64,
            _ => 0,
        }
    }

    /// The value held by a native word of the given kind; `None` for the
    /// kinds whose payload is not a word.
    pub fn from_word(kind: VarKind, w: u64) -> (r: Option<Variant>)
        ensures
            is_word_kind(kind) ==> (r matches Some(v) && v@ == value_of_word(kind, w)),
            !is_word_kind(kind) ==> r is None,
    {
        match kind {
            VarKind::Empty => Some(Variant::Empty),
            VarKind::Bool => Some(Variant::Bool((w as u16) != 0)),
            VarKind::I8 => Some(Variant::I8((w as u8) as i8)),
            VarKind::U8 => Some(Variant::U8(w as u8)),
            VarKind::I16 => Some(Variant::I16((w as u16) as i16)),
            VarKind::U16 => Some(Variant::U16(w as u16)),
            VarKind::I32 => Some(Variant::I32((w as u32) as i32)),
            VarKind::U32 => Some(Variant::U32(w as u32)),
            VarKind::I64 => Some(Variant::I64(w as i64)),
            VarKind::U64 => Some(Variant::U64(w)),
            VarKind::Object => Some(Variant::Object(w as usize)),
            VarKind::Pointer => Some(Variant::Pointer(w as usize)),
            VarKind::Text => None,
            VarKind::TextArray => None,
        }
    }

    /// Reads a value from its native tag and word; a tag that is not
    /// supported is refused, and so is a text tag, whose payload is no word.
    pub fn from_native(vt: u16, w: u64) -> (r: Result<Variant, ClrError>)
        ensures
            match kind_of_tag(vt) {
                Ok(k) => if is_word_kind(k) {
                    (r matches Ok(v) && v@ == value_of_word(k, w))
                } else {
                    r == unsupported::<Variant>()
                },
                Err(e) => r == Err::<Variant, ClrError>(e),
            },
    {
        match VarKind::from_tag(vt) {
            Ok(k) => match Variant::from_word(k, w) {
                Some(v) => Ok(v),
                None => Err(ClrError::VariantUnsupported),
            },
            Err(e) => Err(e),
        }
    }

    pub fn from_bool(b: bool) -> (r: Variant)
        ensures
            r@ == DynValue::Bool(b),
    {
        Variant::Bool(b)
    }

    pub fn from_i8(x: i8) -> (r: Variant)
        ensures
            r@ == DynValue::I8(x),
    {
        Variant::I8(x)
    }

    pub fn from_u8(x: u8) -> (r: Variant)
        ensures
            r@ == DynValue::U8(x),
    {
        Variant::U8(x)
    }

    pub fn from_i16(x: i16) -> (r: Variant)
        ensures
            r@ == DynValue::I16(x),
    {
        Variant::I16(x)
    }

    pub fn from_u16(x: u16) -> (r: Variant)
        ensures
            r@ == DynValue::U16(x),
    {
        Variant::U16(x)
    }

    pub fn from_i32(x: i32) -> (r: Variant)
        ensures
            r@ == DynValue::I32(x),
    {
        Variant::I32(x)
    }

    pub fn from_u32(x: u32) -> (r: Variant)
        ensures
            r@ == DynValue::U32(x),
    {
        Variant::U32(x)
    }

    pub fn from_i64(x: i64) -> (r: Variant)
        ensures
            r@ == DynValue::I64(x),
    {
        Variant::I64(x)
    }

    pub fn from_u64(x: u64) -> (r: Variant)
        ensures
            r@ == DynValue::U64(x),
    {
        Variant::U64(x)
    }

    /// A text value: the UTF-16 code units of `s`.
    pub fn from_str(s: &str) -> (r: Variant)
        ensures
            r@ == DynValue::Text(utf16_encode(s@)),
    {
        Variant::Text(encode_wide(s))
    }

    /// A reference to a runtime object.
    pub fn from_object(p: usize) -> (r: Variant)
        ensures
            r@ == DynValue::Object(p),
    {
        Variant::Object(p)
    }

    pub fn as_bool(&self) -> (r: Result<bool, ClrError>)
        ensures
            r == (match self@ { DynValue::Bool(b) => Ok(b), _ => unsupported::<bool>() }),
    {
        match self {
            Variant::Bool(b) => Ok(*b),
            _ => Err(ClrError::VariantUnsupported),
        }
    }

    pub fn as_i8(&self) -> (r: Result<i8, ClrError>)
        ensures
            r == (match self@ { DynValue::I8(x) => Ok(x), _ => unsupported::<i8>() }),
    {
        match self {
            Variant::I8(x) => Ok(*x),
            _ => Err(ClrError::VariantUnsupported),
        }
    }

    pub fn as_u8(&self) -> (r: Result<u8, ClrError>)
        ensures
            r == (match self@ { DynValue::U8(x) => Ok(x), _ => unsupported::<u8>() }),
    {
        match self {
            Variant::U8(x) => Ok(*x),
            _ => Err(ClrError::VariantUnsupported),
        }
    }

    pub fn as_i16(&self) -> (r: Result<i16, ClrError>)
        ensures
            r == (match self@ { DynValue::I16(x) => Ok(x), _ => unsupported::<i16>() }),
    {
        match self {
            Variant::I16(x) => Ok(*x),
            _ => Err(ClrError::VariantUnsupported),
        }
    }

    pub fn as_u16(&self) -> (r: Result<u16, ClrError>)
        ensures
            r == (match self@ { DynValue::U16(x) => Ok(x), _ => unsupported::<u16>() }),
    {
        match self {
            Variant::U16(x) => Ok(*x),
            _ => Err(ClrError::VariantUnsupported),
        }
    }

    pub fn as_i32(&self) -> (r: Result<i32, ClrError>)
        ensures
            r == (match self@ { DynValue::I32(x) => Ok(x), _ => unsupported::<i32>() }),
    {
        match self {
            Variant::I32(x) => Ok(*x),
            _ => Err(ClrError::VariantUnsupported),
        }
    }

    pub fn as_u32(&self) -> (r: Result<u32, ClrError>)
        ensures
            r == (match self@ { DynValue::U32(x) => Ok(x), _ => unsupported::<u32>() }),
    {
        match self {
            Variant::U32(x) => Ok(*x),
            _ => Err(ClrError::VariantUnsupported),
        }
    }

    pub fn as_i64(&self) -> (r: Result<i64, ClrError>)
        ensures
            r == (match self@ { DynValue::I64(x) => Ok(x), _ => unsupported::<i64>() }),
    {
        match self {
            Variant::I64(x) => Ok(*x),
            _ => Err(ClrError::VariantUnsupported),
        }
    }

    pub fn as_u64(&self) -> (r: Result<u64, ClrError>)
        ensures
            r == (match self@ { DynValue::U64(x) => Ok(x), _ => unsupported::<u64>() }),
    {
        match self {
            Variant::U64(x) => Ok(*x),
            _ => Err(ClrError::VariantUnsupported),
        }
    }

    /// The referenced runtime object.
    pub fn as_object(&self) -> (r: Result<usize, ClrError>)
        ensures
            r == (match self@ { DynValue::Object(p) => Ok(p), _ => unsupported::<usize>() }),
    {
        match self {
            Variant::Object(p) => Ok(*p),
            _ => Err(ClrError::VariantUnsupported),
        }
    }

    /// The text held by a text value; code units that encode a text give back
    /// exactly that text.
    pub fn as_string(&self) -> (r: Result<String, ClrError>)
        ensures
            match self@ {
                DynValue::Text(u) => (r matches Ok(s) && s@ == utf16_lossy(u)
                    && forall|t: Seq<char>| #[trigger] utf16_encode(t) == u ==> s@ == t),
                _ => r == unsupported::<String>(),
            },
    {
        match self {
            Variant::Text(u) => Ok(decode_wide(u.as_slice())),
            _ => Err(ClrError::VariantUnsupported),
        }
    }
}

/// Every supported kind survives the trip to its native tag and back.
pub proof fn lemma_tag_round_trip(k: VarKind)
    ensures
        kind_of_tag(tag_of(k)) == Ok::<VarKind, ClrError>(k),
{
    assert((VT_ARRAY | VT_BSTR) as u16 == 0x2008u16) by (bit_vector);
}

/// Every value whose payload is a native word survives the trip to its tag
/// and word and back: nothing is truncated or reinterpreted.
pub proof fn lemma_word_round_trip(v: DynValue)
    requires
        is_word_kind(kind_of(v)),
    ensures
        value_of_word(kind_of(v), word_of(v)) == v,
        kind_of_tag(tag_of(kind_of(v))) == Ok::<VarKind, ClrError>(kind_of(v)),
{
    lemma_tag_round_trip(kind_of(v));
    match v {
        DynValue::Bool(b) => {
            assert((0xffffu64 as u16) != 0u16) by (bit_vector);
            assert((0u64 as u16) == 0u16) by (bit_vector);
        },
        DynValue::I8(x) => {
            assert((((x as u8) as u64) as u8) as i8 == x) by (bit_vector);
        },
        DynValue::I16(x) => {
            assert((((x as u16) as u64) as u16) as i16 == x) by (bit_vector);
        },
        DynValue::I32(x) => {
            assert((((x as u32) as u64) as u32) as i32 == x) by (bit_vector);
        },
        DynValue::I64(x) => {
            assert(((x as u64) as i64) == x) by (bit_vector);
        },
        DynValue::U8(x) => {
            assert(((x as u64) as u8) == x) by (bit_vector);
        },
        DynValue::U16(x) => {
            assert(((x as u64) as u16) == x) by (bit_vector);
        },
        DynValue::U32(x) => {
            assert(((x as u64) as u32) == x) by (bit_vector);
        },
        DynValue::Object(p) => {
            assert(((p as u64) as usize) == p) by (bit_vector);
        },
        DynValue::Pointer(p) => {
            assert(((p as u64) as usize) == p) by (bit_vector);
        },
        _ => {},
    }
}

} // verus!
