//! Vocabulary of the engine's interface: integer types, result codes,
//! state codes and object type tags.
use vstd::prelude::*;

pub mod stdstring;

verus! {

pub type SQInteger = isize;

pub type SQUnsignedInteger = usize;

pub type SQHash = usize;

pub type SQInt32 = i32;

pub type SQUnsignedInteger32 = u32;

pub type SQBool = SQUnsignedInteger;

pub type SQRESULT = SQInteger;

pub const SQ_OK: SQRESULT = 0;

pub const SQ_ERROR: SQRESULT = -1;

/// A result code reports failure exactly when it is negative.
pub fn SQ_FAILED(res: SQRESULT) -> (failed: bool)
    ensures
        failed == (res < 0),
{
    res < 0
}

/// A result code reports success exactly when it is not negative.
pub fn SQ_SUCCEEDED(res: SQRESULT) -> (succeeded: bool)
    ensures
        succeeded == (res >= 0),
{
    res >= 0
}

pub const SQ_VMSTATE_IDLE: isize = 0;

pub const SQ_VMSTATE_RUNNING: isize = 1;

pub const SQ_VMSTATE_SUSPENDED: isize = 2;

/// What the lexer callback returns at the end of the source.
pub const SQUIRREL_EOB: isize = 0;

pub const SQ_BYTECODE_STREAM_TAG: isize = 0xFAFA;

pub const SQOBJECT_REF_COUNTED: isize = 0x08000000;

pub const SQOBJECT_NUMERIC: isize = 0x04000000;

pub const SQOBJECT_DELEGABLE: isize = 0x02000000;

pub const SQOBJECT_CANBEFALSE: isize = 0x01000000;

pub const SQ_MATCHTYPEMASKSTRING: isize = -99999;

pub const _RT_MASK: isize = 0x00FFFFFF;

pub const _RT_NULL: isize = 0x00000001;

pub const _RT_INTEGER: isize = 0x00000002;

pub const _RT_FLOAT: isize = 0x00000004;

pub const _RT_BOOL: isize = 0x00000008;

pub const _RT_STRING: isize = 0x00000010;

pub const _RT_TABLE: isize = 0x00000020;

pub const _RT_ARRAY: isize = 0x00000040;

pub const _RT_USERDATA: isize = 0x00000080;

pub const _RT_CLOSURE: isize = 0x00000100;

pub const _RT_NATIVECLOSURE: isize = 0x00000200;

pub const _RT_GENERATOR: isize = 0x00000400;

pub const _RT_USERPOINTER: isize = 0x00000800;

pub const _RT_THREAD: isize = 0x00001000;

pub const _RT_FUNCPROTO: isize = 0x00002000;

pub const _RT_CLASS: isize = 0x00004000;

pub const _RT_INSTANCE: isize = 0x00008000;

pub const _RT_WEAKREF: isize = 0x00010000;

pub const _RT_OUTER: isize = 0x00020000;

/// The raw type of a type tag: the tag with its flag bits cleared.
pub fn _RAW_TYPE(kind: isize) -> (raw: isize)
    ensures
        raw == kind & _RT_MASK,
{
    kind & _RT_MASK
}

/// The type tag of an engine object: one raw type bit joined with flag bits.
#[derive(Clone, Copy, Debug, PartialEq, Eq, Structural)]
pub enum SQObjectType {
    OT_NULL,
    OT_INTEGER,
    OT_FLOAT,
    OT_BOOL,
    OT_STRING,
    OT_TABLE,
    OT_ARRAY,
    OT_USERDATA,
    OT_CLOSURE,
    OT_NATIVECLOSURE,
    OT_GENERATOR,
    OT_USERPOINTER,
    OT_THREAD,
    OT_FUNCPROTO,
    OT_CLASS,
    OT_INSTANCE,
    OT_WEAKREF,
    OT_OUTER,
}

impl SQObjectType {
    /// The single raw type bit of the tag.
    pub open spec fn raw_type(self) -> isize {
        match self {
            SQObjectType::OT_NULL => _RT_NULL,
            SQObjectType::OT_INTEGER => _RT_INTEGER,
            SQObjectType::OT_FLOAT => _RT_FLOAT,
            SQObjectType::OT_BOOL => _RT_BOOL,
            SQObjectType::OT_STRING => _RT_STRING,
            SQObjectType::OT_TABLE => _RT_TABLE,
            SQObjectType::OT_ARRAY => _RT_ARRAY,
            SQObjectType::OT_USERDATA => _RT_USERDATA,
            SQObjectType::OT_CLOSURE => _RT_CLOSURE,
            SQObjectType::OT_NATIVECLOSURE => _RT_NATIVECLOSURE,
            SQObjectType::OT_GENERATOR => _RT_GENERATOR,
            SQObjectType::OT_USERPOINTER => _RT_USERPOINTER,
            SQObjectType::OT_THREAD => _RT_THREAD,
            SQObjectType::OT_FUNCPROTO => _RT_FUNCPROTO,
            SQObjectType::OT_CLASS => _RT_CLASS,
            SQObjectType::OT_INSTANCE => _RT_INSTANCE,
            SQObjectType::OT_WEAKREF => _RT_WEAKREF,
            SQObjectType::OT_OUTER => _RT_OUTER,
        }
    }

    /// The flag bits of the tag.
    pub open spec fn flags(self) -> isize {
        match self {
            SQObjectType::OT_NULL => SQOBJECT_CANBEFALSE,
            SQObjectType::OT_INTEGER => SQOBJECT_NUMERIC | SQOBJECT_CANBEFALSE,
            SQObjectType::OT_FLOAT => SQOBJECT_NUMERIC | SQOBJECT_CANBEFALSE,
            SQObjectType::OT_BOOL => SQOBJECT_CANBEFALSE,
            SQObjectType::OT_STRING => SQOBJECT_REF_COUNTED,
            SQObjectType::OT_TABLE => SQOBJECT_REF_COUNTED | SQOBJECT_DELEGABLE,
            SQObjectType::OT_ARRAY => SQOBJECT_REF_COUNTED,
            SQObjectType::OT_USERDATA => SQOBJECT_REF_COUNTED | SQOBJECT_DELEGABLE,
            SQObjectType::OT_CLOSURE => SQOBJECT_REF_COUNTED,
            SQObjectType::OT_NATIVECLOSURE => SQOBJECT_REF_COUNTED,
            SQObjectType::OT_GENERATOR => SQOBJECT_REF_COUNTED,
            SQObjectType::OT_USERPOINTER => 0,
            SQObjectType::OT_THREAD => SQOBJECT_REF_COUNTED,
            SQObjectType::OT_FUNCPROTO => SQOBJECT_REF_COUNTED,
            SQObjectType::OT_CLASS => SQOBJECT_REF_COUNTED,
            SQObjectType::OT_INSTANCE => SQOBJECT_REF_COUNTED | SQOBJECT_DELEGABLE,
            SQObjectType::OT_WEAKREF => SQOBJECT_REF_COUNTED,
            SQObjectType::OT_OUTER => SQOBJECT_REF_COUNTED,
        }
    }

    /// The tag as the engine stores it.
    pub open spec fn tag(self) -> isize {
        self.raw_type() | self.flags()
    }

    /// The tag as the engine stores it.
    pub fn bits(self) -> (tag: isize)
        ensures
            tag == self.tag(),
    {
        match self {
            SQObjectType::OT_NULL => _RT_NULL | SQOBJECT_CANBEFALSE,
            SQObjectType::OT_INTEGER => _RT_INTEGER | (SQOBJECT_NUMERIC | SQOBJECT_CANBEFALSE),
            SQObjectType::OT_FLOAT => _RT_FLOAT | (SQOBJECT_NUMERIC | SQOBJECT_CANBEFALSE),
            SQObjectType::OT_BOOL => _RT_BOOL | SQOBJECT_CANBEFALSE,
            SQObjectType::OT_STRING => _RT_STRING | SQOBJECT_REF_COUNTED,
            SQObjectType::OT_TABLE => _RT_TABLE | (SQOBJECT_REF_COUNTED | SQOBJECT_DELEGABLE),
            SQObjectType::OT_ARRAY => _RT_ARRAY | SQOBJECT_REF_COUNTED,
            SQObjectType::OT_USERDATA => _RT_USERDATA | (SQOBJECT_REF_COUNTED | SQOBJECT_DELEGABLE),
            SQObjectType::OT_CLOSURE => _RT_CLOSURE | SQOBJECT_REF_COUNTED,
            SQObjectType::OT_NATIVECLOSURE => _RT_NATIVECLOSURE | SQOBJECT_REF_COUNTED,
            SQObjectType::OT_GENERATOR => _RT_GENERATOR | SQOBJECT_REF_COUNTED,
            SQObjectType::OT_USERPOINTER => _RT_USERPOINTER | 0,
            SQObjectType::OT_THREAD => _RT_THREAD | SQOBJECT_REF_COUNTED,
            SQObjectType::OT_FUNCPROTO => _RT_FUNCPROTO | SQOBJECT_REF_COUNTED,
            SQObjectType::OT_CLASS => _RT_CLASS | SQOBJECT_REF_COUNTED,
            SQObjectType::OT_INSTANCE => _RT_INSTANCE | (SQOBJECT_REF_COUNTED | SQOBJECT_DELEGABLE),
            SQObjectType::OT_WEAKREF => _RT_WEAKREF | SQOBJECT_REF_COUNTED,
            SQObjectType::OT_OUTER => _RT_OUTER | SQOBJECT_REF_COUNTED,
        }
    }
}

/// Engine-owned `vm`; the host only ever holds its address.
pub struct SQVM;

/// Engine-owned `table`; the host only ever holds its address.
pub struct SQTable;

/// Engine-owned `array`; the host only ever holds its address.
pub struct SQArray;

/// Engine-owned `string`; the host only ever holds its address.
pub struct SQString;

/// Engine-owned `closure`; the host only ever holds its address.
pub struct SQClosure;

/// Engine-owned `generator`; the host only ever holds its address.
pub struct SQGenerator;

/// Engine-owned `nativeclosure`; the host only ever holds its address.
pub struct SQNativeClosure;

/// Engine-owned `userdata`; the host only ever holds its address.
pub struct SQUserData;

/// Engine-owned `functionproto`; the host only ever holds its address.
pub struct SQFunctionProto;

/// Engine-owned `refcounted`; the host only ever holds its address.
pub struct SQRefCounted;

/// Engine-owned `class`; the host only ever holds its address.
pub struct SQClass;

/// Engine-owned `instance`; the host only ever holds its address.
pub struct SQInstance;

/// Engine-owned `delegable`; the host only ever holds its address.
pub struct SQDelegable;

/// Engine-owned `outer`; the host only ever holds its address.
pub struct SQOuter;

/// The untyped payload of an engine object.
pub type SQRawObjectVal = i64;

pub struct SQObjectValue {
    pub raw: SQRawObjectVal,
}

/// An engine object as the host sees it: a type tag and an untyped payload.
pub struct SQObject {
    pub _type: SQObjectType,
    pub _unVal: SQObjectValue,
}

/// Names one member of a class, for access without a lookup by name.
pub struct SQMemberHandle {
    pub _static: SQBool,
    pub _index: SQInteger,
}

pub type HSQOBJECT = SQObject;

pub type HSQMEMBERHANDLE = SQMemberHandle;

/// Masking a tag with `_RT_MASK` leaves exactly its raw type bit.
pub proof fn raw_type_of_tag(t: SQObjectType)
    ensures
        t.tag() & _RT_MASK == t.raw_type(),
{
    assert(forall|r: isize| r & 0x00FFFFFF == r ==> #[trigger] (r | (0isize)) & 0x00FFFFFF == r) by (bit_vector);
    assert(forall|r: isize| r & 0x00FFFFFF == r ==> #[trigger] (r | (0x01000000isize)) & 0x00FFFFFF == r) by (bit_vector);
    assert(forall|r: isize| r & 0x00FFFFFF == r ==> #[trigger] (r | (0x04000000isize | 0x01000000isize)) & 0x00FFFFFF == r) by (bit_vector);
    assert(forall|r: isize| r & 0x00FFFFFF == r ==> #[trigger] (r | (0x08000000isize)) & 0x00FFFFFF == r) by (bit_vector);
    assert(forall|r: isize| r & 0x00FFFFFF == r ==> #[trigger] (r | (0x08000000isize | 0x02000000isize)) & 0x00FFFFFF == r) by (bit_vector);
    assert(0x00000001isize & 0x00FFFFFF == 0x00000001isize) by (bit_vector);
    assert(0x00000002isize & 0x00FFFFFF == 0x00000002isize) by (bit_vector);
    assert(0x00000004isize & 0x00FFFFFF == 0x00000004isize) by (bit_vector);
    assert(0x00000008isize & 0x00FFFFFF == 0x00000008isize) by (bit_vector);
    assert(0x00000010isize & 0x00FFFFFF == 0x00000010isize) by (bit_vector);
    assert(0x00000020isize & 0x00FFFFFF == 0x00000020isize) by (bit_vector);
    assert(0x00000040isize & 0x00FFFFFF == 0x00000040isize) by (bit_vector);
    assert(0x00000080isize & 0x00FFFFFF == 0x00000080isize) by (bit_vector);
    assert(0x00000100isize & 0x00FFFFFF == 0x00000100isize) by (bit_vector);
    assert(0x00000200isize & 0x00FFFFFF == 0x00000200isize) by (bit_vector);
    assert(0x00000400isize & 0x00FFFFFF == 0x00000400isize) by (bit_vector);
    assert(0x00000800isize & 0x00FFFFFF == 0x00000800isize) by (bit_vector);
    assert(0x00001000isize & 0x00FFFFFF == 0x00001000isize) by (bit_vector);
    assert(0x00002000isize & 0x00FFFFFF == 0x00002000isize) by (bit_vector);
    assert(0x00004000isize & 0x00FFFFFF == 0x00004000isize) by (bit_vector);
    assert(0x00008000isize & 0x00FFFFFF == 0x00008000isize) by (bit_vector);
    assert(0x00010000isize & 0x00FFFFFF == 0x00010000isize) by (bit_vector);
    assert(0x00020000isize & 0x00FFFFFF == 0x00020000isize) by (bit_vector);
}

} // verus!
