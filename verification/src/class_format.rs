use vstd::prelude::*;
use vstd::utf8::{decode_utf8, valid_utf8};

use byteorder::{BigEndian, ByteOrder};

use crate::constant_pool::{
    CP_CLASS, CP_DOUBLE, CP_FIELDREF, CP_FLOAT, CP_INTEGER, CP_INTERFACE_METHODREF, CP_LONG,
    CP_METHODREF, CP_NAMEANDTYPE, CP_STRING, CP_UTF8, CpEntry,
};
use crate::error::JvmError;

verus! {

/// `n` bytes are available at position `p` of `b`.
pub open spec fn avail(b: Seq<u8>, p: int, n: int) -> bool {
    0 <= p && 0 <= n && p + n <= b.len()
}

/// The big-endian unsigned 16-bit number at `p`.
pub open spec fn be16(b: Seq<u8>, p: int) -> int {
    b[p] as int * 0x100 + b[p + 1] as int
}

/// The big-endian unsigned 32-bit number at `p`.
pub open spec fn be32(b: Seq<u8>, p: int) -> int {
    b[p] as int * 0x100_0000 + b[p + 1] as int * 0x1_0000 + b[p + 2] as int * 0x100 + b[p + 3] as int
}

/// The big-endian unsigned 64-bit number at `p`.
pub open spec fn be64(b: Seq<u8>, p: int) -> int {
    be32(b, p) * 0x1_0000_0000 + be32(b, p + 4)
}

/// The two's-complement reading of an unsigned 32-bit number.
pub open spec fn signed32(v: int) -> int {
    if v < 0x8000_0000 {
        v
    } else {
        v - 0x1_0000_0000
    }
}

/// The two's-complement reading of an unsigned 64-bit number.
pub open spec fn signed64(v: int) -> int {
    if v < 0x8000_0000_0000_0000 {
        v
    } else {
        v - 0x1_0000_0000_0000_0000
    }
}

/// Calls `BigEndian::read_u32` on the bytes from `p`: the first four of them
/// read as a big-endian number.
#[verifier::external_body]
pub(crate) fn read_u32_at(b: &[u8], p: usize) -> (r: u32)
    requires
        avail(b@, p as int, 4),
    ensures
        r as int == be32(b@, p as int),
{
    BigEndian::read_u32(&b[p..])
}

/// Calls `BigEndian::read_i32` on the bytes from `p`: the first four of them
/// read as a big-endian two's-complement number.
#[verifier::external_body]
pub(crate) fn read_i32_at(b: &[u8], p: usize) -> (r: i32)
    requires
        avail(b@, p as int, 4),
    ensures
        r as int == signed32(be32(b@, p as int)),
{
    BigEndian::read_i32(&b[p..])
}

/// Calls `BigEndian::read_u64` on the bytes from `p`: the first eight of them
/// read as a big-endian number.
#[verifier::external_body]
pub(crate) fn read_u64_at(b: &[u8], p: usize) -> (r: u64)
    requires
        avail(b@, p as int, 8),
    ensures
        r as int == be64(b@, p as int),
{
    BigEndian::read_u64(&b[p..])
}

/// Calls `BigEndian::read_i64` on the bytes from `p`: the first eight of them
/// read as a big-endian two's-complement number.
#[verifier::external_body]
pub(crate) fn read_i64_at(b: &[u8], p: usize) -> (r: i64)
    requires
        avail(b@, p as int, 8),
    ensures
        r as int == signed64(be64(b@, p as int)),
{
    BigEndian::read_i64(&b[p..])
}

/// Calls `std::str::from_utf8`: the text that the bytes encode when they are
/// valid UTF-8, `None` otherwise.
#[verifier::external_body]
pub(crate) fn utf8_to_string(bytes: &[u8]) -> (r: Option<String>)
    ensures
        r is Some <==> valid_utf8(bytes@),
        r matches Some(s) ==> s@ == decode_utf8(bytes@),
{
    match std::str::from_utf8(bytes) {
        Ok(s) => Some(s.to_owned()),
        Err(_) => None,
    }
}

/// The big-endian 16-bit number at `p` (two bytes must be there).
pub fn read_u16_at(b: &[u8], p: usize) -> (r: u16)
    requires
        avail(b@, p as int, 2),
    ensures
        r as int == be16(b@, p as int),
{
    (b[p] as u16) * 256 + (b[p + 1] as u16)
}

/// The abstract content of a constant-pool entry.
pub enum CpView {
    Utf8(Seq<char>),
    Integer(i32),
    Float(u32),
    Long(i64),
    Double(u64),
    Class(u16),
    String(u16),
    FieldRef { clz_idx: u16, nt_idx: u16 },
    MethodRef { clz_idx: u16, nt_idx: u16 },
    InterfaceMethodRef { clz_idx: u16, nt_idx: u16 },
    NameAndType { name_idx: u16, type_idx: u16 },
}

impl View for CpEntry {
    type V = CpView;

    open spec fn view(&self) -> CpView {
        match self {
            CpEntry::Utf8(s) => CpView::Utf8(s@),
            CpEntry::Integer(v) => CpView::Integer(*v),
            CpEntry::Float(v) => CpView::Float(*v),
            CpEntry::Long(v) => CpView::Long(*v),
            CpEntry::Double(v) => CpView::Double(*v),
            CpEntry::Class(i) => CpView::Class(*i),
            CpEntry::String(i) => CpView::String(*i),
            CpEntry::FieldRef { clz_idx, nt_idx } => CpView::FieldRef {
                clz_idx: *clz_idx,
                nt_idx: *nt_idx,
            },
            CpEntry::MethodRef { clz_idx, nt_idx } => CpView::MethodRef {
                clz_idx: *clz_idx,
                nt_idx: *nt_idx,
            },
            CpEntry::InterfaceMethodRef { clz_idx, nt_idx } => CpView::InterfaceMethodRef {
                clz_idx: *clz_idx,
                nt_idx: *nt_idx,
            },
            CpEntry::NameAndType { name_idx, type_idx } => CpView::NameAndType {
                name_idx: *name_idx,
                type_idx: *type_idx,
            },
        }
    }
}

/// One constant-pool entry read at `p`: the entry, the position after it,
/// and whether it takes two pool slots (longs and doubles).
pub open spec fn spec_cp_entry(b: Seq<u8>, p: int) -> Result<(CpView, int, bool), JvmError> {
    let eof = JvmError::UnexpectedEndOfInput;
    if !avail(b, p, 1) {
        Err(eof)
    } else {
        let tag = b[p];
        let q = p + 1;
        if tag == CP_UTF8 {
            if !avail(b, q, 2) || !avail(b, q + 2, be16(b, q)) {
                Err(eof)
            } else {
                let bytes = b.subrange(q + 2, q + 2 + be16(b, q));
                if valid_utf8(bytes) {
                    Ok((CpView::Utf8(decode_utf8(bytes)), q + 2 + be16(b, q), false))
                } else {
                    Err(JvmError::InvalidUtf8)
                }
            }
        } else if tag == CP_INTEGER {
            if !avail(b, q, 4) {
                Err(eof)
            } else {
                Ok((CpView::Integer(signed32(be32(b, q)) as i32), q + 4, false))
            }
        } else if tag == CP_FLOAT {
            if !avail(b, q, 4) {
                Err(eof)
            } else {
                Ok((CpView::Float(be32(b, q) as u32), q + 4, false))
            }
        } else if tag == CP_LONG {
            if !avail(b, q, 8) {
                Err(eof)
            } else {
                Ok((CpView::Long(signed64(be64(b, q)) as i64), q + 8, true))
            }
        } else if tag == CP_DOUBLE {
            if !avail(b, q, 8) {
                Err(eof)
            } else {
                Ok((CpView::Double(be64(b, q) as u64), q + 8, true))
            }
        } else if tag == CP_CLASS {
            if !avail(b, q, 2) {
                Err(eof)
            } else {
                Ok((CpView::Class(be16(b, q) as u16), q + 2, false))
            }
        } else if tag == CP_STRING {
            if !avail(b, q, 2) {
                Err(eof)
            } else {
                Ok((CpView::String(be16(b, q) as u16), q + 2, false))
            }
        } else if tag == CP_FIELDREF || tag == CP_METHODREF || tag == CP_INTERFACE_METHODREF
            || tag == CP_NAMEANDTYPE {
            if !avail(b, q, 4) {
                Err(eof)
            } else {
                let x = be16(b, q) as u16;
                let y = be16(b, q + 2) as u16;
                let e = if tag == CP_FIELDREF {
                    CpView::FieldRef { clz_idx: x, nt_idx: y }
                } else if tag == CP_METHODREF {
                    CpView::MethodRef { clz_idx: x, nt_idx: y }
                } else if tag == CP_INTERFACE_METHODREF {
                    CpView::InterfaceMethodRef { clz_idx: x, nt_idx: y }
                } else {
                    CpView::NameAndType { name_idx: x, type_idx: y }
                };
                Ok((e, q + 4, false))
            }
        } else {
            Err(JvmError::UnsupportedConstantPoolTag(tag))
        }
    }
}

/// The pool slots from `cur` below `count`, read from `p` into `cp`. An entry
/// that takes two slots is stored in the second of them; the first keeps what
/// it held. Answers the filled pool and the position after it.
pub open spec fn spec_pool(b: Seq<u8>, p: int, cur: int, count: int, cp: Seq<CpView>) -> Result<
    (Seq<CpView>, int),
    JvmError,
>
    decreases if cur < count {
        count - cur
    } else {
        0
    },
{
    if cur >= count {
        Ok((cp, p))
    } else {
        match spec_cp_entry(b, p) {
            Err(e) => Err(e),
            Ok((e, p2, wide)) => {
                let idx = if wide {
                    cur + 1
                } else {
                    cur
                };
                spec_pool(b, p2, idx + 1, count, cp.update(idx, e))
            },
        }
    }
}

/// The text of UTF-8 entry `idx` of a pool.
pub open spec fn utf8_at(cp: Seq<CpView>, idx: int) -> Option<Seq<char>> {
    if 0 <= idx < cp.len() {
        match cp[idx] {
            CpView::Utf8(s) => Some(s),
            _ => None,
        }
    } else {
        None
    }
}

/// The name that class entry `idx` of a pool points at.
pub open spec fn class_name_at(cp: Seq<CpView>, idx: int) -> Option<Seq<char>> {
    if 0 <= idx < cp.len() {
        match cp[idx] {
            CpView::Class(icl) => utf8_at(cp, icl as int),
            _ => None,
        }
    } else {
        None
    }
}

/// A field as declared in a class file.
pub struct FieldInfo {
    pub flags: u16,
    pub name_idx: u16,
    pub desc_idx: u16,
    pub name: Seq<char>,
    pub desc: Seq<char>,
}

/// A method as declared in a class file; `code` is the content of its last
/// `Code` attribute, empty if it has none.
pub struct MethodInfo {
    pub flags: u16,
    pub name_idx: u16,
    pub desc_idx: u16,
    pub name: Seq<char>,
    pub desc: Seq<char>,
    pub code: Seq<u8>,
}

/// The parts of a class file that are read.
pub struct ClassFile {
    pub minor: u16,
    pub major: u16,
    pub pool_item_count: u16,
    pub cp: Seq<CpView>,
    pub flags: u16,
    pub this_idx: u16,
    pub super_idx: u16,
    pub interfaces: Seq<u16>,
    pub fields: Seq<FieldInfo>,
    pub methods: Seq<MethodInfo>,
    pub end: int,
}

/// The end of an attribute whose six-byte header is at `p`.
pub open spec fn attr_end(b: Seq<u8>, p: int) -> int {
    p + 6 + be32(b, p + 2)
}

/// One field attribute read at `p`: it must be `ConstantValue` or
/// `Signature`, whose two-byte body must fill the attribute exactly.
/// Answers the position after it.
pub open spec fn spec_field_attr(b: Seq<u8>, p: int, cp: Seq<CpView>) -> Result<int, JvmError> {
    if !avail(b, p, 6) || attr_end(b, p) > usize::MAX {
        Err(JvmError::UnexpectedEndOfInput)
    } else {
        let name_idx = be16(b, p) as u16;
        match utf8_at(cp, name_idx as int) {
            None => Err(JvmError::BadConstantPoolIndex(name_idx)),
            Some(s) => if s == "ConstantValue"@ || s == "Signature"@ {
                if p + 8 != attr_end(b, p) {
                    Err(JvmError::InconsistentAttributeLength)
                } else {
                    Ok(p + 8)
                }
            } else {
                Err(JvmError::UnsupportedAttribute(name_idx))
            },
        }
    }
}

/// `n` field attributes read from `p`; answers the position after them.
pub open spec fn spec_field_attrs(b: Seq<u8>, p: int, n: int, cp: Seq<CpView>) -> Result<int, JvmError>
    decreases n,
{
    if n <= 0 {
        Ok(p)
    } else {
        match spec_field_attr(b, p, cp) {
            Err(e) => Err(e),
            Ok(p2) => spec_field_attrs(b, p2, n - 1, cp),
        }
    }
}

/// One method attribute read at `p`. A `Code` attribute's bytecode (as much
/// of it as the input holds) replaces `code`; `Signature`, `Exceptions`,
/// `Deprecated` and `RuntimeVisibleAnnotations` are skipped; any other is an
/// error. The attribute ends where its length says. Answers the code and the
/// position after the attribute.
pub open spec fn spec_method_attr(b: Seq<u8>, p: int, cp: Seq<CpView>, code: Seq<u8>) -> Result<
    (Seq<u8>, int),
    JvmError,
> {
    if !avail(b, p, 6) || attr_end(b, p) > usize::MAX {
        Err(JvmError::UnexpectedEndOfInput)
    } else {
        let name_idx = be16(b, p) as u16;
        match utf8_at(cp, name_idx as int) {
            None => Err(JvmError::BadConstantPoolIndex(name_idx)),
            Some(s) => if s == "Code"@ {
                if !avail(b, p + 10, 4) {
                    Err(JvmError::UnexpectedEndOfInput)
                } else {
                    let start = p + 14;
                    let want = start + be32(b, p + 10);
                    let stop = if want <= b.len() {
                        want
                    } else {
                        b.len() as int
                    };
                    Ok((b.subrange(start, stop), attr_end(b, p)))
                }
            } else if s == "Signature"@ || s == "Exceptions"@ || s == "Deprecated"@ || s
                == "RuntimeVisibleAnnotations"@ {
                Ok((code, attr_end(b, p)))
            } else {
                Err(JvmError::UnsupportedAttribute(name_idx))
            },
        }
    }
}

/// `n` method attributes read from `p`, starting from `code`.
pub open spec fn spec_method_attrs(
    b: Seq<u8>,
    p: int,
    n: int,
    cp: Seq<CpView>,
    code: Seq<u8>,
) -> Result<(Seq<u8>, int), JvmError>
    decreases n,
{
    if n <= 0 {
        Ok((code, p))
    } else {
        match spec_method_attr(b, p, cp, code) {
            Err(e) => Err(e),
            Ok((c2, p2)) => spec_method_attrs(b, p2, n - 1, cp, c2),
        }
    }
}

/// The flags, name index, descriptor index and attribute count of a field
/// or method header at `p`, with its name and descriptor and the class's
/// own name; each must resolve, in that order.
pub open spec fn spec_member_header(b: Seq<u8>, p: int, cp: Seq<CpView>, this_idx: u16) -> Result<
    (u16, u16, u16, int, Seq<char>, Seq<char>),
    JvmError,
> {
    if !avail(b, p, 8) {
        Err(JvmError::UnexpectedEndOfInput)
    } else {
        let flags = be16(b, p) as u16;
        let name_idx = be16(b, p + 2) as u16;
        let desc_idx = be16(b, p + 4) as u16;
        let attr_count = be16(b, p + 6);
        match (utf8_at(cp, name_idx as int), utf8_at(cp, desc_idx as int), class_name_at(cp, this_idx as int)) {
            (None, _, _) => Err(JvmError::BadConstantPoolIndex(name_idx)),
            (Some(_), None, _) => Err(JvmError::BadConstantPoolIndex(desc_idx)),
            (Some(_), Some(_), None) => Err(JvmError::BadConstantPoolIndex(this_idx)),
            (Some(name), Some(desc), Some(_)) => Ok((flags, name_idx, desc_idx, attr_count, name, desc)),
        }
    }
}

/// One field read at `p`, with the position after it.
pub open spec fn spec_field(b: Seq<u8>, p: int, cp: Seq<CpView>, this_idx: u16) -> Result<(FieldInfo, int), JvmError> {
    match spec_member_header(b, p, cp, this_idx) {
        Err(e) => Err(e),
        Ok((flags, name_idx, desc_idx, attr_count, name, desc)) => match spec_field_attrs(b, p + 8, attr_count, cp) {
            Err(e) => Err(e),
            Ok(p2) => Ok((FieldInfo { flags, name_idx, desc_idx, name, desc }, p2)),
        },
    }
}

/// One method read at `p`, with the position after it.
pub open spec fn spec_method(b: Seq<u8>, p: int, cp: Seq<CpView>, this_idx: u16) -> Result<(MethodInfo, int), JvmError> {
    match spec_member_header(b, p, cp, this_idx) {
        Err(e) => Err(e),
        Ok((flags, name_idx, desc_idx, attr_count, name, desc)) => match spec_method_attrs(b, p + 8, attr_count, cp, Seq::empty()) {
            Err(e) => Err(e),
            Ok((code, p2)) => Ok((MethodInfo { flags, name_idx, desc_idx, name, desc, code }, p2)),
        },
    }
}

/// `n` fields read from `p` and appended to `acc`.
pub open spec fn spec_fields(
    b: Seq<u8>,
    p: int,
    n: int,
    cp: Seq<CpView>,
    this_idx: u16,
    acc: Seq<FieldInfo>,
) -> Result<(Seq<FieldInfo>, int), JvmError>
    decreases n,
{
    if n <= 0 {
        Ok((acc, p))
    } else {
        match spec_field(b, p, cp, this_idx) {
            Err(e) => Err(e),
            Ok((f, p2)) => spec_fields(b, p2, n - 1, cp, this_idx, acc.push(f)),
        }
    }
}

/// `n` methods read from `p` and appended to `acc`.
pub open spec fn spec_methods(
    b: Seq<u8>,
    p: int,
    n: int,
    cp: Seq<CpView>,
    this_idx: u16,
    acc: Seq<MethodInfo>,
) -> Result<(Seq<MethodInfo>, int), JvmError>
    decreases n,
{
    if n <= 0 {
        Ok((acc, p))
    } else {
        match spec_method(b, p, cp, this_idx) {
            Err(e) => Err(e),
            Ok((m, p2)) => spec_methods(b, p2, n - 1, cp, this_idx, acc.push(m)),
        }
    }
}

/// The flags, own and super class indices and interface indices at `p`,
/// with the position after them.
pub open spec fn spec_basic_info(b: Seq<u8>, p: int) -> Result<(u16, u16, u16, Seq<u16>, int), JvmError> {
    if !avail(b, p, 8) || !avail(b, p + 8, 2 * be16(b, p + 6)) {
        Err(JvmError::UnexpectedEndOfInput)
    } else {
        let icount = be16(b, p + 6);
        Ok((
            be16(b, p) as u16,
            be16(b, p + 2) as u16,
            be16(b, p + 4) as u16,
            Seq::new(icount as nat, |i: int| be16(b, p + 8 + 2 * i) as u16),
            p + 8 + 2 * icount,
        ))
    }
}

/// The constant pool of a class whose pool count is `count`: slots 1 to
/// count - 1 of a pool of count + 1 slots that start as `Integer(0)`.
pub open spec fn spec_class_pool(b: Seq<u8>, count: u16) -> Result<(Seq<CpView>, int), JvmError> {
    spec_pool(b, 10, 1, count as int, Seq::new(count as nat + 1, |i: int| CpView::Integer(0)))
}

/// A class file read as this reader does: the magic number, versions and
/// pool size; the constant pool; flags, own and super class indices and
/// interfaces; the fields; the methods. Nothing after the methods is read.
pub open spec fn spec_parse_class(b: Seq<u8>) -> Result<ClassFile, JvmError> {
    if b.len() >= 4 && !(b[0] == 0xca && b[1] == 0xfe && b[2] == 0xba && b[3] == 0xbe) {
        Err(JvmError::BadMagic)
    } else if b.len() < 10 {
        Err(JvmError::UnexpectedEndOfInput)
    } else if be16(b, 8) == 0 {
        Err(JvmError::BadConstantPoolIndex(0))
    } else {
        let count = be16(b, 8) as u16;
        match spec_class_pool(b, count) {
            Err(e) => Err(e),
            Ok((cp, p)) => match spec_basic_info(b, p) {
                Err(e) => Err(e),
                Ok((flags, this_idx, super_idx, interfaces, p1)) => if !avail(b, p1, 2) {
                    Err(JvmError::UnexpectedEndOfInput)
                } else {
                    match spec_fields(b, p1 + 2, be16(b, p1), cp, this_idx, Seq::empty()) {
                        Err(e) => Err(e),
                        Ok((fields, p2)) => if !avail(b, p2, 2) {
                            Err(JvmError::UnexpectedEndOfInput)
                        } else {
                            match spec_methods(b, p2 + 2, be16(b, p2), cp, this_idx, Seq::empty()) {
                                Err(e) => Err(e),
                                Ok((methods, p3)) => Ok(
                                    ClassFile {
                                        minor: be16(b, 4) as u16,
                                        major: be16(b, 6) as u16,
                                        pool_item_count: count,
                                        cp,
                                        flags,
                                        this_idx,
                                        super_idx,
                                        interfaces,
                                        fields,
                                        methods,
                                        end: p3,
                                    },
                                ),
                            }
                        },
                    }
                },
            },
        }
    }
}

/// Reading the constant pool fills slots but never adds or removes any.
pub proof fn law_pool_keeps_its_size(b: Seq<u8>, p: int, cur: int, count: int, cp: Seq<CpView>)
    requires
        0 <= cur,
        count < cp.len(),
    ensures
        spec_pool(b, p, cur, count, cp) matches Ok((cp2, _q)) ==> cp2.len() == cp.len(),
    decreases if cur < count {
        count - cur
    } else {
        0
    },
{
    if cur < count {
        match spec_cp_entry(b, p) {
            Err(_) => {},
            Ok((e, p2, wide)) => {
                let idx = if wide {
                    cur + 1
                } else {
                    cur
                };
                law_pool_keeps_its_size(b, p2, idx + 1, count, cp.update(idx, e));
            },
        }
    }
}

/// A class file's constant pool, when it can be read, has one slot more
/// than the pool count it declares.
pub proof fn law_class_pool_size(b: Seq<u8>, count: u16)
    ensures
        spec_class_pool(b, count) matches Ok((cp, _q)) ==> cp.len() == count + 1,
{
    law_pool_keeps_its_size(b, 10, 1, count as int, Seq::new(count as nat + 1, |i: int| CpView::Integer(0)));
}

/// A `Code` attribute gives the method the bytes of its code: after the
/// six-byte header, the two stack and locals counts and the four-byte code
/// length `n`, the next `n` bytes; reading goes on at the end of the
/// attribute, past any exception table and nested attributes.
pub proof fn law_code_attribute(b: Seq<u8>, p: int, cp: Seq<CpView>, code: Seq<u8>)
    requires
        avail(b, p, 14),
        utf8_at(cp, be16(b, p)) == Some("Code"@),
        p + 14 + be32(b, p + 10) <= attr_end(b, p) <= b.len() <= usize::MAX,
    ensures
        spec_method_attr(b, p, cp, code) == Ok::<(Seq<u8>, int), JvmError>(
            (b.subrange(p + 14, p + 14 + be32(b, p + 10)), p + 6 + be32(b, p + 2)),
        ),
{
}

/// A constant-pool entry that cannot be read (an unsupported tag, text that
/// is not UTF-8, or bytes that run out) fails the whole pool with its error:
/// no partly read pool is given back.
pub proof fn law_bad_entry_fails_the_pool(b: Seq<u8>, p: int, cur: int, count: int, cp: Seq<CpView>)
    requires
        cur < count,
        spec_cp_entry(b, p) is Err,
    ensures
        spec_pool(b, p, cur, count, cp) == Err::<(Seq<CpView>, int), JvmError>(
            spec_cp_entry(b, p)->Err_0,
        ),
{
}

/// The eight bytes from `p` read as an unsigned big-endian number, the
/// first byte the most significant.
pub open spec fn bytes_be8(b: Seq<u8>, p: int) -> int {
    b[p] as int * 0x100_0000_0000_0000 + b[p + 1] as int * 0x1_0000_0000_0000 + b[p + 2] as int
        * 0x100_0000_0000 + b[p + 3] as int * 0x1_0000_0000 + b[p + 4] as int * 0x100_0000 + b[p
        + 5] as int * 0x1_0000 + b[p + 6] as int * 0x100 + b[p + 7] as int
}

/// The four bytes from `p` read as an unsigned big-endian number.
pub open spec fn bytes_be4(b: Seq<u8>, p: int) -> int {
    b[p] as int * 0x100_0000 + b[p + 1] as int * 0x1_0000 + b[p + 2] as int * 0x100 + b[p + 3] as int
}

/// The numeric constant-pool entries hold the bytes after their tag, read
/// big-endian: a `Double` the bits of all eight, a `Long` all eight as a
/// two's-complement number, a `Float` the bits of four and an `Integer`
/// four as a two's-complement number. Longs and doubles take two slots and
/// nine bytes, ints and floats one slot and five bytes.
pub proof fn law_numeric_entries(b: Seq<u8>, p: int)
    requires
        avail(b, p, 9),
    ensures
        b[p] == CP_DOUBLE ==> (spec_cp_entry(b, p) matches Ok((CpView::Double(x), q, wide)) && x
            == bytes_be8(b, p + 1) && q == p + 9 && wide),
        b[p] == CP_LONG ==> (spec_cp_entry(b, p) matches Ok((CpView::Long(x), q, wide)) && x
            == bytes_be8(b, p + 1) - (if b[p + 1] >= 0x80 {
            0x1_0000_0000_0000_0000int
        } else {
            0int
        }) && q == p + 9 && wide),
        b[p] == CP_FLOAT ==> (spec_cp_entry(b, p) matches Ok((CpView::Float(x), q, wide)) && x
            == bytes_be4(b, p + 1) && q == p + 5 && !wide),
        b[p] == CP_INTEGER ==> (spec_cp_entry(b, p) matches Ok((CpView::Integer(x), q, wide)) && x
            == bytes_be4(b, p + 1) - (if b[p + 1] >= 0x80 { 0x1_0000_0000int } else { 0int }) && q
            == p + 5 && !wide),
{
    let q = p + 1;
    assert(0 <= be32(b, q) < 0x1_0000_0000);
    assert(0 <= be32(b, q + 4) < 0x1_0000_0000);
    assert(be64(b, q) == bytes_be8(b, q));
    assert(be32(b, q) == bytes_be4(b, q));
    assert(be32(b, q) >= 0x8000_0000 <==> b[q] >= 0x80);
    assert(be64(b, q) >= 0x8000_0000_0000_0000 <==> b[q] >= 0x80);
}

} // verus!
