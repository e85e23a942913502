use vstd::prelude::*;
use vstd::slice::{slice_subrange, slice_to_vec};

use crate::class_format::{
    ClassFile, CpView, FieldInfo, MethodInfo, attr_end, avail, be16, be32, class_name_at,
    read_i32_at, read_i64_at, read_u16_at, read_u32_at, read_u64_at, spec_basic_info,
    spec_class_pool, spec_cp_entry, spec_field, spec_field_attr, spec_field_attrs, spec_fields,
    spec_member_header, spec_method, spec_method_attr, spec_method_attrs, spec_methods,
    spec_parse_class, spec_pool, utf8_at, utf8_to_string,
};
use crate::constant_pool::{
    CP_CLASS, CP_DOUBLE, CP_FIELDREF, CP_FLOAT, CP_INTEGER, CP_INTERFACE_METHODREF, CP_LONG,
    CP_METHODREF, CP_NAMEANDTYPE, CP_STRING, CP_UTF8, CpEntry,
};
use crate::error::JvmError;
use crate::otfield::OtField;
use crate::otklass::{KlassView, OtKlass, split_fields, static_defaults};
use crate::otmethod::{MethodView, OtMethod};
use crate::strings::str_is;

verus! {

/// A constant pool as abstract entries.
pub open spec fn pool_view(cp: Seq<CpEntry>) -> Seq<CpView> {
    cp.map_values(|e: CpEntry| e@)
}

/// The text of UTF-8 entry `idx` of the pool.
fn utf8_entry(cp: &Vec<CpEntry>, idx: u16) -> (r: Option<&String>)
    ensures
        r is Some <==> utf8_at(pool_view(cp@), idx as int) is Some,
        r matches Some(s) ==> utf8_at(pool_view(cp@), idx as int) == Some(s@),
{
    if (idx as usize) < cp.len() {
        match &cp[idx as usize] {
            CpEntry::Utf8(s) => Some(s),
            _ => None,
        }
    } else {
        None
    }
}

/// The name that class entry `idx` of the pool points at.
fn class_name_entry(cp: &Vec<CpEntry>, idx: u16) -> (r: Option<&String>)
    ensures
        r is Some <==> class_name_at(pool_view(cp@), idx as int) is Some,
        r matches Some(s) ==> class_name_at(pool_view(cp@), idx as int) == Some(s@),
{
    if (idx as usize) < cp.len() {
        match &cp[idx as usize] {
            CpEntry::Class(icl) => utf8_entry(cp, *icl),
            _ => None,
        }
    } else {
        None
    }
}

/// Two indices read at `p`, as a reference entry of kind `tag`.
fn ref_entry(tag: u8, x: u16, y: u16) -> (r: CpEntry)
    requires
        tag == CP_FIELDREF || tag == CP_METHODREF || tag == CP_INTERFACE_METHODREF || tag
            == CP_NAMEANDTYPE,
    ensures
        r@ == (if tag == CP_FIELDREF {
            CpView::FieldRef { clz_idx: x, nt_idx: y }
        } else if tag == CP_METHODREF {
            CpView::MethodRef { clz_idx: x, nt_idx: y }
        } else if tag == CP_INTERFACE_METHODREF {
            CpView::InterfaceMethodRef { clz_idx: x, nt_idx: y }
        } else {
            CpView::NameAndType { name_idx: x, type_idx: y }
        }),
{
    if tag == CP_FIELDREF {
        CpEntry::FieldRef { clz_idx: x, nt_idx: y }
    } else if tag == CP_METHODREF {
        CpEntry::MethodRef { clz_idx: x, nt_idx: y }
    } else if tag == CP_INTERFACE_METHODREF {
        CpEntry::InterfaceMethodRef { clz_idx: x, nt_idx: y }
    } else {
        CpEntry::NameAndType { name_idx: x, type_idx: y }
    }
}

/// Reads the constant-pool entry at `p` (see `spec_cp_entry`).
fn parse_cp_entry(b: &[u8], p: usize) -> (r: Result<(CpEntry, usize, bool), JvmError>)
    ensures
        r is Ok <==> spec_cp_entry(b@, p as int) is Ok,
        r matches Ok((e, q, w)) ==> spec_cp_entry(b@, p as int) == Ok::<
            (CpView, int, bool),
            JvmError,
        >((e@, q as int, w)),
        r matches Err(x) ==> spec_cp_entry(b@, p as int) == Err::<(CpView, int, bool), JvmError>(x),
{
    if p >= b.len() {
        return Err(JvmError::UnexpectedEndOfInput);
    }
    let tag = b[p];
    let q = p + 1;
    let rest = b.len() - q;
    if tag == CP_UTF8 {
        if rest < 2 {
            return Err(JvmError::UnexpectedEndOfInput);
        }
        let len = read_u16_at(b, q) as usize;
        let start = q + 2;
        if b.len() - start < len {
            return Err(JvmError::UnexpectedEndOfInput);
        }
        let bytes = slice_subrange(b, start, start + len);
        match utf8_to_string(bytes) {
            Some(s) => Ok((CpEntry::Utf8(s), start + len, false)),
            None => Err(JvmError::InvalidUtf8),
        }
    } else if tag == CP_INTEGER {
        if rest < 4 {
            return Err(JvmError::UnexpectedEndOfInput);
        }
        let v = read_i32_at(b, q);
        Ok((CpEntry::Integer(v), q + 4, false))
    } else if tag == CP_FLOAT {
        if rest < 4 {
            return Err(JvmError::UnexpectedEndOfInput);
        }
        let v = read_u32_at(b, q);
        Ok((CpEntry::Float(v), q + 4, false))
    } else if tag == CP_LONG {
        if rest < 8 {
            return Err(JvmError::UnexpectedEndOfInput);
        }
        let v = read_i64_at(b, q);
        Ok((CpEntry::Long(v), q + 8, true))
    } else if tag == CP_DOUBLE {
        if rest < 8 {
            return Err(JvmError::UnexpectedEndOfInput);
        }
        let v = read_u64_at(b, q);
        Ok((CpEntry::Double(v), q + 8, true))
    } else if tag == CP_CLASS {
        if rest < 2 {
            return Err(JvmError::UnexpectedEndOfInput);
        }
        let v = read_u16_at(b, q);
        Ok((CpEntry::Class(v), q + 2, false))
    } else if tag == CP_STRING {
        if rest < 2 {
            return Err(JvmError::UnexpectedEndOfInput);
        }
        let v = read_u16_at(b, q);
        Ok((CpEntry::String(v), q + 2, false))
    } else if tag == CP_FIELDREF || tag == CP_METHODREF || tag == CP_INTERFACE_METHODREF || tag
        == CP_NAMEANDTYPE {
        if rest < 4 {
            return Err(JvmError::UnexpectedEndOfInput);
        }
        let x = read_u16_at(b, q);
        let y = read_u16_at(b, q + 2);
        Ok((ref_entry(tag, x, y), q + 4, false))
    } else {
        Err(JvmError::UnsupportedConstantPoolTag(tag))
    }
}

/// Why reading the constant pool of `count` slots at byte 10 fails (see
/// `spec_class_pool`), or `None` when it is well formed.
fn constant_pool_error(b: &[u8], count: u16) -> (r: Option<JvmError>)
    ensures
        r is None <==> spec_class_pool(b@, count) is Ok,
        r matches Some(e) ==> spec_class_pool(b@, count) == Err::<(Seq<CpView>, int), JvmError>(e),
{
    let n: usize = count as usize + 1;
    let ghost mut cpg: Seq<CpView> = Seq::new(count as nat + 1, |i: int| CpView::Integer(0));
    let mut cur: usize = 1;
    let mut p: usize = 10;
    while cur < count as usize
        invariant
            n == count + 1,
            cpg.len() == n,
            1 <= cur <= n,
            spec_class_pool(b@, count) == spec_pool(b@, p as int, cur as int, count as int, cpg),
        decreases n - cur,
    {
        match parse_cp_entry(b, p) {
            Err(e) => {
                return Some(e);
            },
            Ok((e, p2, wide)) => {
                let idx = if wide {
                    cur + 1
                } else {
                    cur
                };
                proof {
                    cpg = cpg.update(idx as int, e@);
                }
                cur = idx + 1;
                p = p2;
            },
        }
    }
    None
}

/// Reads the well-formed constant pool of `count` slots that starts at
/// byte 10 (see `spec_class_pool`), with the position after it.
fn parse_constant_pool(b: &[u8], count: u16) -> (r: (Vec<CpEntry>, usize))
    requires
        spec_class_pool(b@, count) is Ok,
    ensures
        spec_class_pool(b@, count) == Ok::<(Seq<CpView>, int), JvmError>((pool_view(r.0@), r.1 as int)),
{
    let n: usize = count as usize + 1;
    let mut cp: Vec<CpEntry> = Vec::new();
    while cp.len() < n
        invariant
            n == count + 1,
            cp@.len() <= n,
            forall|i: int| 0 <= i < cp@.len() ==> cp@[i] == CpEntry::Integer(0),
        decreases n - cp@.len(),
    {
        cp.push(CpEntry::Integer(0));
    }
    proof {
        assert(pool_view(cp@) =~= Seq::new(count as nat + 1, |i: int| CpView::Integer(0)));
    }
    let mut cur: usize = 1;
    let mut p: usize = 10;
    while cur < count as usize
        invariant
            n == count + 1,
            cp@.len() == n,
            1 <= cur <= n,
            spec_class_pool(b@, count) == spec_pool(b@, p as int, cur as int, count as int, pool_view(cp@)),
            spec_class_pool(b@, count) is Ok,
        decreases n - cur,
    {
        match parse_cp_entry(b, p) {
            Err(_) => {
                proof {
                    assert(false);
                }
                return (cp, p);
            },
            Ok((e, p2, wide)) => {
                let idx = if wide {
                    cur + 1
                } else {
                    cur
                };
                let ghost ev = e@;
                let ghost old_cp = cp@;
                cp.set(idx, e);
                proof {
                    assert(pool_view(cp@) =~= pool_view(old_cp).update(idx as int, ev));
                }
                cur = idx + 1;
                p = p2;
            },
        }
    }
    (cp, p)
}

/// Reads the flags, own and super class indices and interfaces at `p` (see
/// `spec_basic_info`).
fn parse_basic_type_info(b: &[u8], p: usize) -> (r: Result<(u16, u16, u16, Vec<u16>, usize), JvmError>)
    ensures
        r is Ok <==> spec_basic_info(b@, p as int) is Ok,
        r matches Ok((f, t, s, ifs, q)) ==> spec_basic_info(b@, p as int) == Ok::<
            (u16, u16, u16, Seq<u16>, int),
            JvmError,
        >((f, t, s, ifs@, q as int)),
        r matches Err(e) ==> spec_basic_info(b@, p as int) == Err::<
            (u16, u16, u16, Seq<u16>, int),
            JvmError,
        >(e),
{
    if p > b.len() || b.len() - p < 8 {
        return Err(JvmError::UnexpectedEndOfInput);
    }
    let flags = read_u16_at(b, p);
    let this_idx = read_u16_at(b, p + 2);
    let super_idx = read_u16_at(b, p + 4);
    let count = read_u16_at(b, p + 6);
    let start = p + 8;
    if b.len() - start < 2 * (count as usize) {
        return Err(JvmError::UnexpectedEndOfInput);
    }
    let mut interfaces: Vec<u16> = Vec::new();
    let mut i: usize = 0;
    while i < count as usize
        invariant
            start == p + 8,
            start + 2 * count <= b.len(),
            i <= count,
            interfaces@ == Seq::new(i as nat, |j: int| be16(b@, start + 2 * j) as u16),
        decreases count - i,
    {
        let v = read_u16_at(b, start + 2 * i);
        interfaces.push(v);
        i = i + 1;
        proof {
            assert(interfaces@ =~= Seq::new(i as nat, |j: int| be16(b@, start + 2 * j) as u16));
        }
    }
    Ok((flags, this_idx, super_idx, interfaces, start + 2 * (count as usize)))
}

/// The position after the six-byte header of the attribute at `p` and the
/// attribute's end, when the header is there and the end is addressable.
fn attribute_bounds(b: &[u8], p: usize) -> (r: Option<(u16, usize)>)
    ensures
        r is Some <==> (avail(b@, p as int, 6) && attr_end(b@, p as int) <= usize::MAX),
        r matches Some((name_idx, end)) ==> name_idx == be16(b@, p as int) as u16 && end
            == attr_end(b@, p as int),
{
    if p > b.len() || b.len() - p < 6 {
        return None;
    }
    let name_idx = read_u16_at(b, p);
    let attr_len = read_u32_at(b, p + 2);
    match (p + 6).checked_add(attr_len as usize) {
        Some(end) => Some((name_idx, end)),
        None => None,
    }
}

/// Reads one field attribute at `p` (see `spec_field_attr`).
fn parse_field_attribute(b: &[u8], p: usize, cp: &Vec<CpEntry>) -> (r: Result<usize, JvmError>)
    ensures
        r is Ok <==> spec_field_attr(b@, p as int, pool_view(cp@)) is Ok,
        r matches Ok(q) ==> spec_field_attr(b@, p as int, pool_view(cp@)) == Ok::<int, JvmError>(
            q as int,
        ),
        r matches Err(e) ==> spec_field_attr(b@, p as int, pool_view(cp@)) == Err::<int, JvmError>(e),
{
    let (name_idx, end_index) = match attribute_bounds(b, p) {
        None => {
            return Err(JvmError::UnexpectedEndOfInput);
        },
        Some(x) => x,
    };
    match utf8_entry(cp, name_idx) {
        None => Err(JvmError::BadConstantPoolIndex(name_idx)),
        Some(s) => {
            proof {
                reveal_strlit("ConstantValue");
                reveal_strlit("Signature");
            }
            if str_is(s, "ConstantValue") || str_is(s, "Signature") {
                if end_index - p != 8 {
                    Err(JvmError::InconsistentAttributeLength)
                } else {
                    Ok(end_index)
                }
            } else {
                Err(JvmError::UnsupportedAttribute(name_idx))
            }
        },
    }
}

/// Reads one method attribute at `p` (see `spec_method_attr`); a `Code`
/// attribute sets the method's bytecode.
fn parse_method_attribute(b: &[u8], p: usize, cp: &Vec<CpEntry>, method: &mut OtMethod) -> (r:
    Result<usize, JvmError>)
    ensures
        r is Ok <==> spec_method_attr(b@, p as int, pool_view(cp@), old(method)@.code) is Ok,
        r matches Ok(q) ==> spec_method_attr(b@, p as int, pool_view(cp@), old(method)@.code)
            == Ok::<(Seq<u8>, int), JvmError>((final(method)@.code, q as int)),
        r matches Err(e) ==> spec_method_attr(b@, p as int, pool_view(cp@), old(method)@.code)
            == Err::<(Seq<u8>, int), JvmError>(e),
        final(method)@ == (MethodView { code: final(method)@.code, ..old(method)@ }),
{
    let (name_idx, end_index) = match attribute_bounds(b, p) {
        None => {
            return Err(JvmError::UnexpectedEndOfInput);
        },
        Some(x) => x,
    };
    match utf8_entry(cp, name_idx) {
        None => Err(JvmError::BadConstantPoolIndex(name_idx)),
        Some(s) => {
            proof {
                reveal_strlit("Code");
                reveal_strlit("Signature");
                reveal_strlit("Exceptions");
                reveal_strlit("Deprecated");
                reveal_strlit("RuntimeVisibleAnnotations");
            }
            if str_is(s, "Code") {
                if b.len() - (p + 6) < 8 {
                    return Err(JvmError::UnexpectedEndOfInput);
                }
                let code_len = read_u32_at(b, p + 10) as usize;
                let start = p + 14;
                let stop = if code_len <= b.len() - start {
                    start + code_len
                } else {
                    b.len()
                };
                let code = slice_to_vec(slice_subrange(b, start, stop));
                method.set_code(code);
                Ok(end_index)
            } else if str_is(s, "Signature") || str_is(s, "Exceptions") || str_is(s, "Deprecated")
                || str_is(s, "RuntimeVisibleAnnotations") {
                Ok(end_index)
            } else {
                Err(JvmError::UnsupportedAttribute(name_idx))
            }
        },
    }
}

/// A field of class `cname` made from what the class file declares, not yet
/// placed at an offset.
pub open spec fn field_from(f: OtField, fi: FieldInfo, cname: Seq<char>) -> bool {
    &&& f.spec_klass_name() == cname
    &&& f.spec_name() == fi.name
    &&& f.spec_desc() == fi.desc
    &&& f.spec_flags() == fi.flags
    &&& f.spec_offset() == 0
}

/// Fields of class `cname` made, in order, from what the class file declares.
pub open spec fn fields_from(fs: Seq<OtField>, infos: Seq<FieldInfo>, cname: Seq<char>) -> bool {
    &&& fs.len() == infos.len()
    &&& forall|i: int| 0 <= i < fs.len() ==> field_from(#[trigger] fs[i], infos[i], cname)
}

/// The method of class `cname` that a class file declares.
pub open spec fn method_from(mi: MethodInfo, cname: Seq<char>) -> MethodView {
    MethodView {
        klass_name: cname,
        flags: mi.flags,
        name: mi.name,
        name_desc: mi.name + seq![':'] + mi.desc,
        code: mi.code,
        native_code: None,
    }
}

/// Methods of class `cname` made, in order, from what the class file declares.
pub open spec fn methods_from(ms: Seq<OtMethod>, infos: Seq<MethodInfo>, cname: Seq<char>) -> bool {
    &&& ms.len() == infos.len()
    &&& forall|i: int| 0 <= i < ms.len() ==> (#[trigger] ms[i])@ == method_from(infos[i], cname)
}

/// The name of the class that the class file `cf` declares.
pub open spec fn file_klass_name(cf: ClassFile) -> Option<Seq<char>> {
    class_name_at(cf.cp, cf.this_idx as int)
}

/// The name of its superclass; `java/lang/Object` is its own.
pub open spec fn file_super_name(cf: ClassFile) -> Option<Seq<char>> {
    if file_klass_name(cf) == Some("java/lang/Object"@) {
        file_klass_name(cf)
    } else {
        class_name_at(cf.cp, cf.super_idx as int)
    }
}

/// Why no class can be built from `cf`: a name that its pool lacks.
pub open spec fn klass_build_error(cf: ClassFile) -> Option<JvmError> {
    if file_klass_name(cf) is None {
        Some(JvmError::BadConstantPoolIndex(cf.this_idx))
    } else if file_super_name(cf) is None {
        Some(JvmError::BadConstantPoolIndex(cf.super_idx))
    } else {
        None
    }
}

/// `k` is the class that the class file `cf` declares: its names, flags,
/// pool and methods as declared, and its fields laid out as `split_fields`
/// lays out the declared ones.
pub open spec fn klass_from_file(k: KlassView, cf: ClassFile) -> bool {
    let cname = file_klass_name(cf)->0;
    &&& k.id == 0
    &&& k.name == cname
    &&& k.super_name == file_super_name(cf)->0
    &&& k.flags == cf.flags
    &&& pool_view(k.cp) == cf.cp
    &&& k.methods == cf.methods.map_values(|mi: MethodInfo| method_from(mi, cname))
    &&& exists|fs: Seq<OtField>|
        #![trigger split_fields(fs)]
        {
            &&& fields_from(fs, cf.fields, cname)
            &&& k.i_fields == split_fields(fs).0
            &&& k.s_fields == split_fields(fs).1
            &&& k.f_lookup == split_fields(fs).2
            &&& k.s_vals == static_defaults(split_fields(fs).1)
        }
}

/// Reads the header of a field or method at `p` (see `spec_member_header`):
/// flags, name index, descriptor index, attribute count, name, descriptor
/// and the class's own name.
fn parse_member_header<'a>(b: &[u8], p: usize, cp: &'a Vec<CpEntry>, this_idx: u16) -> (r: Result<
    (u16, u16, u16, u16, &'a String, &'a String, &'a String),
    JvmError,
>)
    ensures
        r is Ok <==> spec_member_header(b@, p as int, pool_view(cp@), this_idx) is Ok,
        r matches Ok((f, ni, di, n, name, desc, kname)) ==> spec_member_header(
            b@,
            p as int,
            pool_view(cp@),
            this_idx,
        ) == Ok::<(u16, u16, u16, int, Seq<char>, Seq<char>), JvmError>(
            (f, ni, di, n as int, name@, desc@),
        ) && class_name_at(pool_view(cp@), this_idx as int) == Some(kname@),
        r is Ok ==> p + 8 <= b.len(),
        r matches Err(e) ==> spec_member_header(b@, p as int, pool_view(cp@), this_idx) == Err::<
            (u16, u16, u16, int, Seq<char>, Seq<char>),
            JvmError,
        >(e),
{
    if p > b.len() || b.len() - p < 8 {
        return Err(JvmError::UnexpectedEndOfInput);
    }
    let flags = read_u16_at(b, p);
    let name_idx = read_u16_at(b, p + 2);
    let desc_idx = read_u16_at(b, p + 4);
    let attr_count = read_u16_at(b, p + 6);
    let name = match utf8_entry(cp, name_idx) {
        None => {
            return Err(JvmError::BadConstantPoolIndex(name_idx));
        },
        Some(s) => s,
    };
    let desc = match utf8_entry(cp, desc_idx) {
        None => {
            return Err(JvmError::BadConstantPoolIndex(desc_idx));
        },
        Some(s) => s,
    };
    let kname = match class_name_entry(cp, this_idx) {
        None => {
            return Err(JvmError::BadConstantPoolIndex(this_idx));
        },
        Some(s) => s,
    };
    Ok((flags, name_idx, desc_idx, attr_count, name, desc, kname))
}

/// Reads one field at `p` (see `spec_field`), with the position after it.
fn parse_field(b: &[u8], p: usize, cp: &Vec<CpEntry>, this_idx: u16) -> (r: Result<
    (OtField, usize),
    JvmError,
>)
    ensures
        r is Ok <==> spec_field(b@, p as int, pool_view(cp@), this_idx) is Ok,
        r matches Ok((f, q)) ==> spec_field(b@, p as int, pool_view(cp@), this_idx) matches Ok(
            (fi, q2),
        ) && q2 == q && field_from(f, fi, class_name_at(pool_view(cp@), this_idx as int)->0),
        r matches Err(e) ==> spec_field(b@, p as int, pool_view(cp@), this_idx) == Err::<
            (FieldInfo, int),
            JvmError,
        >(e),
{
    let (flags, name_idx, desc_idx, attr_count, name, desc, kname) = match parse_member_header(
        b,
        p,
        cp,
        this_idx,
    ) {
        Err(e) => {
            return Err(e);
        },
        Ok(x) => x,
    };
    let f = OtField::of(kname.clone(), name.clone(), desc.clone(), flags, name_idx, desc_idx);
    let mut cur = p + 8;
    let mut k: u16 = 0;
    let ghost cpv = pool_view(cp@);
    while k < attr_count
        invariant
            k <= attr_count,
            cpv == pool_view(cp@),
            spec_member_header(b@, p as int, cpv, this_idx) == Ok::<
                (u16, u16, u16, int, Seq<char>, Seq<char>),
                JvmError,
            >((flags, name_idx, desc_idx, attr_count as int, name@, desc@)),
            spec_field_attrs(b@, p + 8, attr_count as int, cpv) == spec_field_attrs(
                b@,
                cur as int,
                (attr_count - k) as int,
                cpv,
            ),
        decreases attr_count - k,
    {
        match parse_field_attribute(b, cur, cp) {
            Err(e) => {
                return Err(e);
            },
            Ok(q) => {
                cur = q;
            },
        }
        k = k + 1;
    }
    Ok((f, cur))
}

/// Why reading `n` fields from `p` fails (see `spec_fields`), or `None`
/// when the fields table is well formed.
fn fields_error(b: &[u8], p: usize, n: u16, cp: &Vec<CpEntry>, this_idx: u16) -> (r: Option<
    JvmError,
>)
    ensures
        r is None <==> spec_fields(b@, p as int, n as int, pool_view(cp@), this_idx, Seq::empty()) is Ok,
        r matches Some(e) ==> spec_fields(b@, p as int, n as int, pool_view(cp@), this_idx, Seq::empty())
            == Err::<(Seq<FieldInfo>, int), JvmError>(e),
{
    let ghost cpv = pool_view(cp@);
    let ghost mut acc: Seq<FieldInfo> = Seq::empty();
    let mut cur = p;
    let mut k: u16 = 0;
    while k < n
        invariant
            k <= n,
            cpv == pool_view(cp@),
            spec_fields(b@, p as int, n as int, cpv, this_idx, Seq::empty()) == spec_fields(
                b@,
                cur as int,
                (n - k) as int,
                cpv,
                this_idx,
                acc,
            ),
        decreases n - k,
    {
        match parse_field(b, cur, cp, this_idx) {
            Err(e) => {
                return Some(e);
            },
            Ok((_f, q)) => {
                proof {
                    let fi = spec_field(b@, cur as int, cpv, this_idx)->Ok_0.0;
                    acc = acc.push(fi);
                }
                cur = q;
            },
        }
        k = k + 1;
    }
    None
}

/// Reads the `n` fields of a well-formed fields table at `p` (see
/// `spec_fields`), in order, with the position after them.
fn parse_fields(b: &[u8], p: usize, n: u16, cp: &Vec<CpEntry>, this_idx: u16) -> (r: (
    Vec<OtField>,
    usize,
))
    requires
        spec_fields(b@, p as int, n as int, pool_view(cp@), this_idx, Seq::empty()) is Ok,
    ensures
        spec_fields(b@, p as int, n as int, pool_view(cp@), this_idx, Seq::empty()) matches Ok(
            (infos, q),
        ) && q == r.1 && fields_from(r.0@, infos, class_name_at(pool_view(cp@), this_idx as int)->0),
{
    let ghost cpv = pool_view(cp@);
    let ghost cname = class_name_at(cpv, this_idx as int)->0;
    let ghost mut acc: Seq<FieldInfo> = Seq::empty();
    let mut fs: Vec<OtField> = Vec::new();
    let mut cur = p;
    let mut k: u16 = 0;
    while k < n
        invariant
            k <= n,
            cpv == pool_view(cp@),
            cname == class_name_at(cpv, this_idx as int)->0,
            spec_fields(b@, p as int, n as int, cpv, this_idx, Seq::empty()) == spec_fields(
                b@,
                cur as int,
                (n - k) as int,
                cpv,
                this_idx,
                acc,
            ),
            spec_fields(b@, p as int, n as int, cpv, this_idx, Seq::empty()) is Ok,
            fields_from(fs@, acc, cname),
        decreases n - k,
    {
        match parse_field(b, cur, cp, this_idx) {
            Err(_) => {
                proof {
                    assert(false);
                }
                return (fs, cur);
            },
            Ok((f, q)) => {
                proof {
                    let fi = spec_field(b@, cur as int, cpv, this_idx)->Ok_0.0;
                    acc = acc.push(fi);
                }
                fs.push(f);
                cur = q;
            },
        }
        k = k + 1;
    }
    (fs, cur)
}

/// Reads one method at `p` (see `spec_method`), with the position after it.
fn parse_method(b: &[u8], p: usize, cp: &Vec<CpEntry>, this_idx: u16) -> (r: Result<
    (OtMethod, usize),
    JvmError,
>)
    ensures
        r is Ok <==> spec_method(b@, p as int, pool_view(cp@), this_idx) is Ok,
        r matches Ok((m, q)) ==> spec_method(b@, p as int, pool_view(cp@), this_idx) matches Ok(
            (mi, q2),
        ) && q2 == q && m@ == method_from(mi, class_name_at(pool_view(cp@), this_idx as int)->0),
        r matches Err(e) ==> spec_method(b@, p as int, pool_view(cp@), this_idx) == Err::<
            (MethodInfo, int),
            JvmError,
        >(e),
{
    let (flags, name_idx, desc_idx, attr_count, name, desc, kname) = match parse_member_header(
        b,
        p,
        cp,
        this_idx,
    ) {
        Err(e) => {
            return Err(e);
        },
        Ok(x) => x,
    };
    let mut m = OtMethod::of(kname.clone(), name.clone(), desc.clone(), flags, name_idx, desc_idx);
    let ghost m0 = m@;
    let mut cur = p + 8;
    let mut k: u16 = 0;
    let ghost cpv = pool_view(cp@);
    while k < attr_count
        invariant
            k <= attr_count,
            cpv == pool_view(cp@),
            spec_member_header(b@, p as int, cpv, this_idx) == Ok::<
                (u16, u16, u16, int, Seq<char>, Seq<char>),
                JvmError,
            >((flags, name_idx, desc_idx, attr_count as int, name@, desc@)),
            spec_method_attrs(b@, p + 8, attr_count as int, cpv, Seq::empty()) == spec_method_attrs(
                b@,
                cur as int,
                (attr_count - k) as int,
                cpv,
                m@.code,
            ),
            m@ == (MethodView { code: m@.code, ..m0 }),
        decreases attr_count - k,
    {
        let ghost code_before = m@.code;
        match parse_method_attribute(b, cur, cp, &mut m) {
            Err(e) => {
                assert(spec_method_attr(b@, cur as int, cpv, code_before) == Err::<(Seq<u8>, int), JvmError>(e));
                return Err(e);
            },
            Ok(q) => {
                cur = q;
            },
        }
        k = k + 1;
    }
    Ok((m, cur))
}

/// Why reading `n` methods from `p` fails (see `spec_methods`), or `None`
/// when the methods table is well formed.
fn methods_error(b: &[u8], p: usize, n: u16, cp: &Vec<CpEntry>, this_idx: u16) -> (r: Option<
    JvmError,
>)
    ensures
        r is None <==> spec_methods(b@, p as int, n as int, pool_view(cp@), this_idx, Seq::empty()) is Ok,
        r matches Some(e) ==> spec_methods(b@, p as int, n as int, pool_view(cp@), this_idx, Seq::empty())
            == Err::<(Seq<MethodInfo>, int), JvmError>(e),
{
    let ghost cpv = pool_view(cp@);
    let ghost mut acc: Seq<MethodInfo> = Seq::empty();
    let mut cur = p;
    let mut k: u16 = 0;
    while k < n
        invariant
            k <= n,
            cpv == pool_view(cp@),
            spec_methods(b@, p as int, n as int, cpv, this_idx, Seq::empty()) == spec_methods(
                b@,
                cur as int,
                (n - k) as int,
                cpv,
                this_idx,
                acc,
            ),
        decreases n - k,
    {
        match parse_method(b, cur, cp, this_idx) {
            Err(e) => {
                return Some(e);
            },
            Ok((_m, q)) => {
                proof {
                    let mi = spec_method(b@, cur as int, cpv, this_idx)->Ok_0.0;
                    acc = acc.push(mi);
                }
                cur = q;
            },
        }
        k = k + 1;
    }
    None
}

/// Reads the `n` methods of a well-formed methods table at `p` (see
/// `spec_methods`), in order, with the position after them.
fn parse_methods(b: &[u8], p: usize, n: u16, cp: &Vec<CpEntry>, this_idx: u16) -> (r: (
    Vec<OtMethod>,
    usize,
))
    requires
        spec_methods(b@, p as int, n as int, pool_view(cp@), this_idx, Seq::empty()) is Ok,
    ensures
        spec_methods(b@, p as int, n as int, pool_view(cp@), this_idx, Seq::empty()) matches Ok(
            (infos, q),
        ) && q == r.1 && methods_from(r.0@, infos, class_name_at(pool_view(cp@), this_idx as int)->0),
{
    let ghost cpv = pool_view(cp@);
    let ghost cname = class_name_at(cpv, this_idx as int)->0;
    let ghost mut acc: Seq<MethodInfo> = Seq::empty();
    let mut ms: Vec<OtMethod> = Vec::new();
    let mut cur = p;
    let mut k: u16 = 0;
    while k < n
        invariant
            k <= n,
            cpv == pool_view(cp@),
            cname == class_name_at(cpv, this_idx as int)->0,
            spec_methods(b@, p as int, n as int, cpv, this_idx, Seq::empty()) == spec_methods(
                b@,
                cur as int,
                (n - k) as int,
                cpv,
                this_idx,
                acc,
            ),
            spec_methods(b@, p as int, n as int, cpv, this_idx, Seq::empty()) is Ok,
            methods_from(ms@, acc, cname),
        decreases n - k,
    {
        match parse_method(b, cur, cp, this_idx) {
            Err(_) => {
                proof {
                    assert(false);
                }
                return (ms, cur);
            },
            Ok((m, q)) => {
                proof {
                    let mi = spec_method(b@, cur as int, cpv, this_idx)->Ok_0.0;
                    acc = acc.push(mi);
                }
                ms.push(m);
                cur = q;
            },
        }
        k = k + 1;
    }
    (ms, cur)
}

/// Reads a class file: `of` takes the bytes, `parse` reads them, `klass`
/// builds the class.
pub struct OtKlassParser {
    clz_read: Vec<u8>,
    filename: String,
    current: usize,
    major: u16,
    minor: u16,
    pool_item_count: u16,
    flags: u16,
    cp_index_this: u16,
    cp_index_super: u16,
    cp_entries: Vec<CpEntry>,
    interfaces: Vec<u16>,
    fields: Vec<OtField>,
    methods: Vec<OtMethod>,
}

impl OtKlassParser {
    pub closed spec fn spec_bytes(&self) -> Seq<u8> {
        self.clz_read@
    }

    pub closed spec fn spec_filename(&self) -> Seq<char> {
        self.filename@
    }

    pub closed spec fn spec_minor(&self) -> u16 {
        self.minor
    }

    pub closed spec fn spec_major(&self) -> u16 {
        self.major
    }

    pub closed spec fn spec_pool_item_count(&self) -> u16 {
        self.pool_item_count
    }

    pub closed spec fn spec_flags(&self) -> u16 {
        self.flags
    }

    pub closed spec fn spec_this(&self) -> u16 {
        self.cp_index_this
    }

    pub closed spec fn spec_super(&self) -> u16 {
        self.cp_index_super
    }

    pub closed spec fn spec_cp(&self) -> Seq<CpEntry> {
        self.cp_entries@
    }

    pub closed spec fn spec_interfaces(&self) -> Seq<u16> {
        self.interfaces@
    }

    pub closed spec fn parsed_fields(&self) -> Seq<OtField> {
        self.fields@
    }

    pub closed spec fn parsed_methods(&self) -> Seq<OtMethod> {
        self.methods@
    }

    /// The parser holds what the class file `cf` declares.
    pub open spec fn has_parsed(&self, cf: ClassFile) -> bool {
        let cname = class_name_at(cf.cp, cf.this_idx as int)->0;
        &&& self.spec_minor() == cf.minor
        &&& self.spec_major() == cf.major
        &&& self.spec_pool_item_count() == cf.pool_item_count
        &&& self.spec_flags() == cf.flags
        &&& self.spec_this() == cf.this_idx
        &&& self.spec_super() == cf.super_idx
        &&& pool_view(self.spec_cp()) == cf.cp
        &&& self.spec_interfaces() == cf.interfaces
        &&& fields_from(self.parsed_fields(), cf.fields, cname)
        &&& methods_from(self.parsed_methods(), cf.methods, cname)
    }

    /// The name of the class, from its own class entry.
    pub open spec fn spec_klass_name(&self) -> Option<Seq<char>> {
        class_name_at(pool_view(self.spec_cp()), self.spec_this() as int)
    }

    /// The name of the superclass; `java/lang/Object` is its own.
    pub open spec fn spec_super_name(&self) -> Option<Seq<char>> {
        if self.spec_klass_name() == Some("java/lang/Object"@) {
            self.spec_klass_name()
        } else {
            class_name_at(pool_view(self.spec_cp()), self.spec_super() as int)
        }
    }

    /// A parser of the class bytes `buf`, read from `fname`; nothing is read yet.
    pub fn of(buf: Vec<u8>, fname: String) -> (r: OtKlassParser)
        ensures
            r.spec_bytes() == buf@,
            r.spec_filename() == fname@,
            r.spec_pool_item_count() == 0,
            r.spec_cp() == Seq::<CpEntry>::empty(),
            r.parsed_fields() == Seq::<OtField>::empty(),
            r.parsed_methods() == Seq::<OtMethod>::empty(),
    {
        OtKlassParser {
            clz_read: buf,
            filename: fname,
            current: 0,
            major: 0,
            minor: 0,
            pool_item_count: 0,
            flags: 0,
            cp_index_this: 0,
            cp_index_super: 0,
            cp_entries: Vec::new(),
            interfaces: Vec::new(),
            fields: Vec::new(),
            methods: Vec::new(),
        }
    }

    /// Reads the class bytes (see `spec_parse_class`). On success the parser
    /// holds what they declare; on failure it is left as it was.
    pub fn parse(&mut self) -> (r: Result<(), JvmError>)
        ensures
            final(self).spec_bytes() == old(self).spec_bytes(),
            final(self).spec_filename() == old(self).spec_filename(),
            r is Ok <==> spec_parse_class(old(self).spec_bytes()) is Ok,
            r matches Err(e) ==> spec_parse_class(old(self).spec_bytes()) == Err::<ClassFile, JvmError>(
                e,
            ),
            r is Err ==> *final(self) == *old(self),
            spec_parse_class(old(self).spec_bytes()) matches Ok(cf) ==> final(self).has_parsed(cf),
    {
        let b: &[u8] = self.clz_read.as_slice();
        if b.len() >= 4 && !(b[0] == 0xca && b[1] == 0xfe && b[2] == 0xba && b[3] == 0xbe) {
            return Err(JvmError::BadMagic);
        }
        if b.len() < 10 {
            return Err(JvmError::UnexpectedEndOfInput);
        }
        let minor = read_u16_at(b, 4);
        let major = read_u16_at(b, 6);
        let count = read_u16_at(b, 8);
        if count == 0 {
            return Err(JvmError::BadConstantPoolIndex(0));
        }
        match constant_pool_error(b, count) {
            Some(e) => {
                return Err(e);
            },
            None => {},
        }
        let (cp, p) = parse_constant_pool(b, count);
        let (flags, this_idx, super_idx, interfaces, p1) = match parse_basic_type_info(b, p) {
            Err(e) => {
                return Err(e);
            },
            Ok(x) => x,
        };
        if p1 > b.len() || b.len() - p1 < 2 {
            return Err(JvmError::UnexpectedEndOfInput);
        }
        let f_count = read_u16_at(b, p1);
        match fields_error(b, p1 + 2, f_count, &cp, this_idx) {
            Some(e) => {
                return Err(e);
            },
            None => {},
        }
        let (fields, p2) = parse_fields(b, p1 + 2, f_count, &cp, this_idx);
        if p2 > b.len() || b.len() - p2 < 2 {
            return Err(JvmError::UnexpectedEndOfInput);
        }
        let m_count = read_u16_at(b, p2);
        match methods_error(b, p2 + 2, m_count, &cp, this_idx) {
            Some(e) => {
                return Err(e);
            },
            None => {},
        }
        let (methods, p3) = parse_methods(b, p2 + 2, m_count, &cp, this_idx);
        self.minor = minor;
        self.major = major;
        self.pool_item_count = count;
        self.flags = flags;
        self.cp_index_this = this_idx;
        self.cp_index_super = super_idx;
        self.cp_entries = cp;
        self.interfaces = interfaces;
        self.fields = fields;
        self.methods = methods;
        self.current = p3;
        Ok(())
    }

    /// The number of usable constant-pool slots (slot 0 is unused).
    pub fn get_pool_size(&self) -> (r: u16)
        requires
            self.spec_pool_item_count() >= 1,
        ensures
            r == self.spec_pool_item_count() - 1,
    {
        self.pool_item_count - 1
    }

    fn klass_name(&self) -> (r: Result<String, JvmError>)
        ensures
            r is Ok <==> self.spec_klass_name() is Some,
            r matches Ok(s) ==> self.spec_klass_name() == Some(s@),
            r matches Err(e) ==> e == JvmError::BadConstantPoolIndex(self.spec_this()),
    {
        match class_name_entry(&self.cp_entries, self.cp_index_this) {
            Some(s) => Ok(s.clone()),
            None => Err(JvmError::BadConstantPoolIndex(self.cp_index_this)),
        }
    }

    fn super_name(&self) -> (r: Result<String, JvmError>)
        requires
            self.spec_klass_name() is Some,
        ensures
            r is Ok <==> self.spec_super_name() is Some,
            r matches Ok(s) ==> self.spec_super_name() == Some(s@),
            r matches Err(e) ==> e == JvmError::BadConstantPoolIndex(self.spec_super()),
    {
        let own = match self.klass_name() {
            Ok(s) => s,
            Err(e) => {
                return Err(e);
            },
        };
        proof {
            reveal_strlit("java/lang/Object");
        }
        if str_is(&own, "java/lang/Object") {
            return Ok(own);
        }
        match class_name_entry(&self.cp_entries, self.cp_index_super) {
            Some(s) => Ok(s.clone()),
            None => Err(JvmError::BadConstantPoolIndex(self.cp_index_super)),
        }
    }

    /// The class the parser has read: its name and superclass name from the
    /// constant pool, its flags, pool, methods and fields as parsed (see
    /// `OtKlass::of`). Fails when either name does not resolve.
    pub fn klass(&mut self) -> (r: Result<OtKlass, JvmError>)
        ensures
            *final(self) == *old(self),
            r is Ok <==> (old(self).spec_klass_name() is Some && old(self).spec_super_name() is Some),
            r matches Err(e) ==> (if old(self).spec_klass_name() is None {
                e == JvmError::BadConstantPoolIndex(old(self).spec_this())
            } else {
                e == JvmError::BadConstantPoolIndex(old(self).spec_super())
            }),
            r matches Ok(k) ==> {
                &&& k@.id == 0
                &&& k@.name == old(self).spec_klass_name()->0
                &&& k@.super_name == old(self).spec_super_name()->0
                &&& k@.flags == old(self).spec_flags()
                &&& k@.cp == old(self).spec_cp()
                &&& k@.methods == old(self).parsed_methods().map_values(|m: OtMethod| m@)
                &&& k@.i_fields == split_fields(old(self).parsed_fields()).0
                &&& k@.s_fields == split_fields(old(self).parsed_fields()).1
                &&& k@.f_lookup == split_fields(old(self).parsed_fields()).2
                &&& k@.s_vals == static_defaults(split_fields(old(self).parsed_fields()).1)
            },
            forall|cf: ClassFile| #[trigger] old(self).has_parsed(cf) ==> match r {
                Ok(k) => klass_build_error(cf) is None && klass_from_file(k@, cf),
                Err(e) => klass_build_error(cf) == Some(e),
            },
    {
        let name = match self.klass_name() {
            Ok(s) => s,
            Err(e) => {
                return Err(e);
            },
        };
        let super_name = match self.super_name() {
            Ok(s) => s,
            Err(e) => {
                return Err(e);
            },
        };
        let k = OtKlass::of(name, super_name, self.flags, &self.cp_entries, &self.methods, &self.fields);
        proof {
            assert forall|cf: ClassFile| #[trigger] self.has_parsed(cf) implies klass_from_file(k@, cf) by {
                let cname = file_klass_name(cf)->0;
                assert(k@.methods =~= cf.methods.map_values(|mi: MethodInfo| method_from(mi, cname)));
                let fs = self.parsed_fields();
                assert(fields_from(fs, cf.fields, cname));
                assert(k@.i_fields == split_fields(fs).0);
            }
        }
        Ok(k)
    }
}

} // verus!
