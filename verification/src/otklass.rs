use vstd::prelude::*;

use crate::constant_pool::CpEntry;
use crate::error::JvmError;
use crate::native_methods::NativeMethod;
use crate::otfield::{OtField, default_for_descriptor};
use crate::otmethod::{MethodView, OtMethod};
use crate::strings::{chars_of, join, str_eq};
use crate::values::JvmValue;

verus! {

broadcast use crate::otfield::OtField::lemma_with_offset;

/// An entry of the field index: a field's `Class.name:desc` key and its
/// position among the static or the instance fields.
#[derive(Debug)]
pub struct FieldSlot {
    pub key: String,
    pub idx: usize,
}

/// A loaded class: its names, constant pool, methods, fields, and the
/// current values of its static fields.
#[derive(Debug)]
pub struct OtKlass {
    id: usize,
    name: String,
    super_name: String,
    flags: u16,
    cp_entries: Vec<CpEntry>,
    methods: Vec<OtMethod>,
    i_fields: Vec<OtField>,
    s_fields: Vec<OtField>,
    s_field_vals: Vec<JvmValue>,
    f_lookup: Vec<FieldSlot>,
}

/// The abstract content of a class.
pub struct KlassView {
    pub id: usize,
    pub name: Seq<char>,
    pub super_name: Seq<char>,
    pub flags: u16,
    pub cp: Seq<CpEntry>,
    pub methods: Seq<MethodView>,
    pub i_fields: Seq<OtField>,
    pub s_fields: Seq<OtField>,
    pub s_vals: Seq<JvmValue>,
    pub f_lookup: Seq<(Seq<char>, usize)>,
}

impl View for OtKlass {
    type V = KlassView;

    closed spec fn view(&self) -> KlassView {
        KlassView {
            id: self.id,
            name: self.name@,
            super_name: self.super_name@,
            flags: self.flags,
            cp: self.cp_entries@,
            methods: self.methods@.map_values(|m: OtMethod| m@),
            i_fields: self.i_fields@,
            s_fields: self.s_fields@,
            s_vals: self.s_field_vals@,
            f_lookup: self.f_lookup@.map_values(|s: FieldSlot| (s.key@, s.idx)),
        }
    }
}

impl OtKlass {
    #[verifier::type_invariant]
    spec fn wf(&self) -> bool {
        self.s_field_vals@.len() == self.s_fields@.len()
    }
}

/// The `Class.name:desc` key of a method.
pub open spec fn method_key(m: MethodView) -> Seq<char> {
    m.klass_name + seq!['.'] + m.name_desc
}

/// How the fields of a class are laid out: instance fields and static
/// fields, each list in declaration order with each field's offset set to
/// its position there, and the field index in declaration order.
pub open spec fn split_fields(fs: Seq<OtField>) -> (Seq<OtField>, Seq<OtField>, Seq<(Seq<char>, usize)>)
    decreases fs.len(),
{
    if fs.len() == 0 {
        (Seq::empty(), Seq::empty(), Seq::empty())
    } else {
        let (i, s, l) = split_fields(fs.drop_last());
        let f = fs.last();
        if f.spec_is_static() {
            (i, s.push(f.spec_with_offset(s.len() as u16)), l.push((f.spec_fq_name_desc(), s.len() as usize)))
        } else {
            (i.push(f.spec_with_offset(i.len() as u16)), s, l.push((f.spec_fq_name_desc(), i.len() as usize)))
        }
    }
}

/// The zero value of each static field, in order.
pub open spec fn static_defaults(s: Seq<OtField>) -> Seq<JvmValue> {
    s.map_values(|f: OtField| default_for_descriptor(f.spec_desc()))
}

/// The position of the last method whose key is `nd`.
pub open spec fn last_method_index(ms: Seq<MethodView>, nd: Seq<char>) -> Option<int>
    decreases ms.len(),
{
    if ms.len() == 0 {
        None
    } else if method_key(ms.last()) == nd {
        Some(ms.len() - 1)
    } else {
        last_method_index(ms.drop_last(), nd)
    }
}

proof fn lemma_last_method_index_bound(ms: Seq<MethodView>, nd: Seq<char>)
    ensures
        last_method_index(ms, nd) matches Some(i) ==> 0 <= i < ms.len(),
    decreases ms.len(),
{
    if ms.len() > 0 {
        lemma_last_method_index_bound(ms.drop_last(), nd);
    }
}

/// Every method a class is built with (see `OtKlass::of`, which keeps the
/// methods as given) is found again by its `Class.name:desc` key: the
/// lookup gives the method declared last under that key, at or after the
/// method's own position.
pub proof fn law_method_found_by_key(ms: Seq<MethodView>, i: int)
    requires
        0 <= i < ms.len(),
    ensures
        last_method_index(ms, method_key(ms[i])) matches Some(j) && i <= j < ms.len() && method_key(
            ms[j],
        ) == method_key(ms[i]) && forall|k: int|
            j < k < ms.len() ==> method_key(#[trigger] ms[k]) != method_key(ms[i]),
    decreases ms.len(),
{
    if i < ms.len() - 1 && method_key(ms.last()) != method_key(ms[i]) {
        let d = ms.drop_last();
        assert(d[i] == ms[i]);
        law_method_found_by_key(d, i);
        let j = last_method_index(d, method_key(d[i]))->0;
        assert forall|k: int| j < k < ms.len() implies method_key(#[trigger] ms[k]) != method_key(ms[i]) by {
            if k < ms.len() - 1 {
                assert(d[k] == ms[k]);
            }
        }
    }
}

/// The slot recorded last for the key `nd` in a field index.
pub open spec fn last_slot(l: Seq<(Seq<char>, usize)>, nd: Seq<char>) -> Option<usize>
    decreases l.len(),
{
    if l.len() == 0 {
        None
    } else if l.last().0 == nd {
        Some(l.last().1)
    } else {
        last_slot(l.drop_last(), nd)
    }
}

proof fn lemma_split_lengths(fs: Seq<OtField>)
    ensures
        split_fields(fs).0.len() + split_fields(fs).1.len() == fs.len(),
    decreases fs.len(),
{
    if fs.len() > 0 {
        lemma_split_lengths(fs.drop_last());
    }
}

/// Each entry of the field index that `split_fields` lays out names a
/// declared field by its `Class.name:desc` key, in declaration order, and
/// holds that field's position in its own list: among the static fields
/// for a static field, among the instance fields for an instance field.
pub proof fn law_field_index_entries(fs: Seq<OtField>)
    requires
        fs.len() <= usize::MAX,
    ensures
        ({
            let (i, s, l) = split_fields(fs);
            &&& l.len() == fs.len()
            &&& forall|j: int|
                0 <= j < fs.len() ==> {
                    &&& (#[trigger] l[j]).0 == fs[j].spec_fq_name_desc()
                    &&& fs[j].spec_is_static() ==> l[j].1 < s.len() && s[l[j].1 as int].spec_fq_name_desc()
                        == fs[j].spec_fq_name_desc()
                    &&& !fs[j].spec_is_static() ==> l[j].1 < i.len() && i[l[j].1 as int].spec_fq_name_desc()
                        == fs[j].spec_fq_name_desc()
                }
        }),
    decreases fs.len(),
{
    if fs.len() > 0 {
        let d = fs.drop_last();
        law_field_index_entries(d);
        let f = fs.last();
        f.lemma_with_offset(split_fields(d).0.len() as u16);
        f.lemma_with_offset(split_fields(d).1.len() as u16);
        let (i0, s0, l0) = split_fields(d);
        let (i, s, l) = split_fields(fs);
        lemma_split_lengths(d);
        assert forall|j: int| 0 <= j < fs.len() implies {
            &&& (#[trigger] l[j]).0 == fs[j].spec_fq_name_desc()
            &&& fs[j].spec_is_static() ==> l[j].1 < s.len() && s[l[j].1 as int].spec_fq_name_desc()
                == fs[j].spec_fq_name_desc()
            &&& !fs[j].spec_is_static() ==> l[j].1 < i.len() && i[l[j].1 as int].spec_fq_name_desc()
                == fs[j].spec_fq_name_desc()
        } by {
            if j < d.len() {
                assert(fs[j] == d[j]);
                assert(l[j] == l0[j]);
                let k = l0[j].1 as int;
                if d[j].spec_is_static() {
                    assert(s0[k] == s[k]);
                } else {
                    assert(i0[k] == i[k]);
                }
            } else {
                assert(fs[j] == f);
                if f.spec_is_static() {
                    assert(s == s0.push(f.spec_with_offset(s0.len() as u16)));
                    assert(l[j] == (f.spec_fq_name_desc(), s0.len() as usize));
                    assert(s[s0.len() as int] == f.spec_with_offset(s0.len() as u16));
                } else {
                    assert(i == i0.push(f.spec_with_offset(i0.len() as u16)));
                    assert(l[j] == (f.spec_fq_name_desc(), i0.len() as usize));
                    assert(i[i0.len() as int] == f.spec_with_offset(i0.len() as u16));
                }
            }
        }
    }
}

/// The slot that the last entry for `nd` records is held by an entry with
/// that key.
proof fn lemma_last_slot_entry(l: Seq<(Seq<char>, usize)>, nd: Seq<char>)
    ensures
        last_slot(l, nd) matches Some(x) ==> exists|j: int| 0 <= j < l.len() && (#[trigger] l[j]) == (nd, x),
    decreases l.len(),
{
    if l.len() > 0 && l.last().0 != nd {
        lemma_last_slot_entry(l.drop_last(), nd);
        if last_slot(l, nd) is Some {
            let x = last_slot(l, nd)->0;
            let j = choose|j: int| 0 <= j < l.drop_last().len() && l.drop_last()[j] == (nd, x);
            assert(l[j] == (nd, x));
        }
    } else if l.len() > 0 {
        assert(l[l.len() - 1] == (nd, l.last().1));
    }
}

/// Looking a field up by its `Class.name:desc` key in a class built from
/// the declared fields `fs` gives a field with that same key: a static
/// field's slot among the static fields, an instance field's slot among the
/// instance fields.
pub proof fn law_field_found_by_key(fs: Seq<OtField>, nd: Seq<char>)
    requires
        fs.len() <= usize::MAX,
    ensures
        ({
            let (i, s, l) = split_fields(fs);
            last_slot(l, nd) matches Some(x) ==> exists|j: int|
                0 <= j < fs.len() && #[trigger] fs[j].spec_fq_name_desc() == nd && (if fs[j].spec_is_static() {
                    x < s.len() && s[x as int].spec_fq_name_desc() == nd
                } else {
                    x < i.len() && i[x as int].spec_fq_name_desc() == nd
                })
        }),
{
    law_field_index_entries(fs);
    let (i, s, l) = split_fields(fs);
    lemma_last_slot_entry(l, nd);
    if last_slot(l, nd) is Some {
        let x = last_slot(l, nd)->0;
        let j = choose|j: int| 0 <= j < l.len() && (#[trigger] l[j]) == (nd, x);
        assert(l[j].0 == fs[j].spec_fq_name_desc());
    }
}

/// The position of the first field whose key is `nd`.
pub open spec fn first_field_index(fs: Seq<OtField>, nd: Seq<char>) -> Option<int>
    decreases fs.len(),
{
    if fs.len() == 0 {
        None
    } else if fs[0].spec_fq_name_desc() == nd {
        Some(0)
    } else {
        match first_field_index(fs.drop_first(), nd) {
            Some(i) => Some(i + 1),
            None => None,
        }
    }
}

proof fn lemma_first_field_index_bound(fs: Seq<OtField>, nd: Seq<char>)
    ensures
        first_field_index(fs, nd) matches Some(i) ==> 0 <= i < fs.len(),
    decreases fs.len(),
{
    if fs.len() > 0 {
        lemma_first_field_index_bound(fs.drop_first(), nd);
    }
}

/// The string form of constant-pool entry `i`, following index entries at
/// most `fuel` times: a UTF-8 entry is its text, a class entry the string
/// of its name, a field or method reference `Class.name:desc`, a
/// name-and-type entry `name:desc`. Entries of other kinds, indices out of
/// range and chains longer than `fuel` have none.
pub open spec fn cp_string(cp: Seq<CpEntry>, i: int, fuel: nat) -> Option<Seq<char>>
    decreases fuel,
{
    if fuel == 0 || i < 0 || i >= cp.len() {
        None
    } else {
        match cp[i] {
            CpEntry::Utf8(s) => Some(s@),
            CpEntry::Class(u) => cp_string(cp, u as int, (fuel - 1) as nat),
            CpEntry::FieldRef { clz_idx, nt_idx } => match (
                cp_string(cp, clz_idx as int, (fuel - 1) as nat),
                cp_string(cp, nt_idx as int, (fuel - 1) as nat),
            ) {
                (Some(a), Some(b)) => Some(a + seq!['.'] + b),
                _ => None,
            },
            CpEntry::MethodRef { clz_idx, nt_idx } => match (
                cp_string(cp, clz_idx as int, (fuel - 1) as nat),
                cp_string(cp, nt_idx as int, (fuel - 1) as nat),
            ) {
                (Some(a), Some(b)) => Some(a + seq!['.'] + b),
                _ => None,
            },
            CpEntry::NameAndType { name_idx, type_idx } => match (
                cp_string(cp, name_idx as int, (fuel - 1) as nat),
                cp_string(cp, type_idx as int, (fuel - 1) as nat),
            ) {
                (Some(a), Some(b)) => Some(a + seq![':'] + b),
                _ => None,
            },
            _ => None,
        }
    }
}

/// Where the argument scan of a descriptor stands.
#[derive(Clone, Copy, Debug, PartialEq, Eq, Structural)]
pub enum SigMode {
    /// Between types.
    Top,
    /// Inside a class name, which runs to `;`.
    InClass,
    /// Inside an array type, after a `[`.
    InArray,
}

/// A primitive type letter of the descriptor grammar.
pub open spec fn is_primitive_letter(c: char) -> bool {
    c == 'Z' || c == 'B' || c == 'S' || c == 'I' || c == 'J' || c == 'F' || c == 'D' || c == 'C'
}

/// The zero values of the parameter types of a method descriptor, read from
/// position `k` in `mode`: `(` is skipped, `)` ends the list, each primitive
/// letter gives its zero, a class type `L...;` or an array type `[...` gives a
/// null reference; any other character between types is an error.
pub open spec fn sig_args_from(s: Seq<char>, k: int, mode: SigMode) -> Result<Seq<JvmValue>, char>
    decreases s.len() - k,
{
    if k < 0 || k >= s.len() {
        Ok(Seq::empty())
    } else {
        let c = s[k];
        match mode {
            SigMode::Top => {
                if c == '(' {
                    sig_args_from(s, k + 1, SigMode::Top)
                } else if c == ')' {
                    Ok(Seq::empty())
                } else if is_primitive_letter(c) {
                    match sig_args_from(s, k + 1, SigMode::Top) {
                        Ok(rest) => Ok(seq![JvmValue::spec_default_value(c)] + rest),
                        Err(e) => Err(e),
                    }
                } else if c == 'L' {
                    match sig_args_from(s, k + 1, SigMode::InClass) {
                        Ok(rest) => Ok(seq![JvmValue::ObjRef(0)] + rest),
                        Err(e) => Err(e),
                    }
                } else if c == '[' {
                    match sig_args_from(s, k + 1, SigMode::InArray) {
                        Ok(rest) => Ok(seq![JvmValue::ObjRef(0)] + rest),
                        Err(e) => Err(e),
                    }
                } else {
                    Err(c)
                }
            },
            SigMode::InClass => {
                if c == ';' {
                    sig_args_from(s, k + 1, SigMode::Top)
                } else {
                    sig_args_from(s, k + 1, SigMode::InClass)
                }
            },
            SigMode::InArray => {
                if c == 'L' {
                    sig_args_from(s, k + 1, SigMode::InClass)
                } else if c == '[' {
                    sig_args_from(s, k + 1, SigMode::InArray)
                } else {
                    sig_args_from(s, k + 1, SigMode::Top)
                }
            },
        }
    }
}

/// The zero values of the parameters of the method descriptor `s`.
pub open spec fn sig_args(s: Seq<char>) -> Result<Seq<JvmValue>, char> {
    sig_args_from(s, 0, SigMode::Top)
}

impl OtKlass {
    /// The string form of constant-pool entry `i` (see `cp_string`); a chain
    /// of references can be no longer than the pool without repeating an entry.
    pub open spec fn spec_cp_string(&self, i: int) -> Option<Seq<char>> {
        cp_string(self@.cp, i, self@.cp.len())
    }

    pub open spec fn spec_method_index(&self, nd: Seq<char>) -> Option<int> {
        last_method_index(self@.methods, nd)
    }

    /// Builds a class from its parsed parts. Methods and the constant pool
    /// are kept as given; fields are split into instance and static fields
    /// (see `split_fields`), static fields start at their zero value, and the
    /// class id is 0 until a repository assigns one.
    pub fn of(
        klass_name: String,
        super_klass: String,
        flags: u16,
        cp_entries: &Vec<CpEntry>,
        methods: &Vec<OtMethod>,
        fields: &Vec<OtField>,
    ) -> (r: OtKlass)
        ensures
            r@.id == 0,
            r@.name == klass_name@,
            r@.super_name == super_klass@,
            r@.flags == flags,
            r@.cp == cp_entries@,
            r@.methods == methods@.map_values(|m: OtMethod| m@),
            r@.i_fields == split_fields(fields@).0,
            r@.s_fields == split_fields(fields@).1,
            r@.f_lookup == split_fields(fields@).2,
            r@.s_vals == static_defaults(split_fields(fields@).1),
    {
        let cp = clone_cp(cp_entries);
        let ms = clone_methods(methods);
        let mut i_fields: Vec<OtField> = Vec::new();
        let mut s_fields: Vec<OtField> = Vec::new();
        let mut s_field_vals: Vec<JvmValue> = Vec::new();
        let mut f_lookup: Vec<FieldSlot> = Vec::new();
        let mut k: usize = 0;
        while k < fields.len()
            invariant
                k <= fields@.len(),
                i_fields@ == split_fields(fields@.take(k as int)).0,
                s_fields@ == split_fields(fields@.take(k as int)).1,
                f_lookup@.map_values(|s: FieldSlot| (s.key@, s.idx)) == split_fields(
                    fields@.take(k as int),
                ).2,
                s_field_vals@ == static_defaults(s_fields@),
            decreases fields.len() - k,
        {
            proof {
                assert(fields@.take(k as int + 1).drop_last() =~= fields@.take(k as int));
            }
            let mut f = fields[k].clone();
            let f_name = f.get_fq_name_desc();
            let ghost fl_old = f_lookup@;
            let ghost sf_old = s_fields@;
            if f.is_static() {
                let default_val = f.get_default();
                let pos = s_fields.len();
                let off: u16 = #[verifier::truncate] (pos as u16);
                f.set_offset(off);
                s_fields.push(f);
                s_field_vals.push(default_val);
                f_lookup.push(FieldSlot { key: f_name, idx: pos });
                proof {
                    assert(static_defaults(s_fields@) =~= static_defaults(sf_old).push(default_val));
                }
            } else {
                let pos = i_fields.len();
                let off: u16 = #[verifier::truncate] (pos as u16);
                f.set_offset(off);
                i_fields.push(f);
                f_lookup.push(FieldSlot { key: f_name, idx: pos });
            }
            proof {
                assert(f_lookup@.map_values(|s: FieldSlot| (s.key@, s.idx)) =~= fl_old.map_values(
                    |s: FieldSlot| (s.key@, s.idx),
                ).push((f_lookup@.last().key@, f_lookup@.last().idx)));
            }
            k = k + 1;
        }
        proof {
            assert(fields@.take(fields@.len() as int) =~= fields@);
            assert(s_field_vals@.len() == static_defaults(s_fields@).len());
        }
        OtKlass {
            id: 0,
            name: klass_name,
            super_name: super_klass,
            flags,
            cp_entries: cp,
            methods: ms,
            i_fields,
            s_fields,
            s_field_vals,
            f_lookup,
        }
    }
}

impl OtKlass {
    /// The zero values of the parameters of `signature`, one per parameter
    /// type; an error names the first character that names no type.
    pub fn parse_sig_for_args(signature: String) -> (r: Result<Vec<JvmValue>, JvmError>)
        ensures
            match sig_args(signature@) {
                Ok(vs) => r matches Ok(out) && out@ == vs,
                Err(c) => r == Err::<Vec<JvmValue>, JvmError>(JvmError::IllegalDescriptorChar(c)),
            },
    {
        let chars = chars_of(signature.as_str());
        let ghost s = signature@;
        let mut out: Vec<JvmValue> = Vec::new();
        let mut mode = SigMode::Top;
        let mut k: usize = 0;
        while k < chars.len()
            invariant
                chars@ == s,
                s == signature@,
                k <= s.len(),
                match sig_args_from(s, k as int, mode) {
                    Ok(rest) => sig_args(s) == Ok::<Seq<JvmValue>, char>(out@ + rest),
                    Err(c) => sig_args(s) == Err::<Seq<JvmValue>, char>(c),
                },
            decreases chars.len() - k,
        {
            let c = chars[k];
            let ghost o = out@;
            match mode {
                SigMode::Top => {
                    if c == '(' {
                    } else if c == ')' {
                        proof {
                            assert(c == s[k as int]);
                            assert(sig_args_from(s, k as int, SigMode::Top) == Ok::<
                                Seq<JvmValue>,
                                char,
                            >(Seq::empty()));
                            assert(out@ + Seq::<JvmValue>::empty() =~= out@);
                        }
                        return Ok(out);
                    } else if c == 'Z' || c == 'B' || c == 'S' || c == 'I' || c == 'J' || c == 'F'
                        || c == 'D' || c == 'C' {
                        out.push(JvmValue::default_value(c));
                        proof {
                            if let Ok(rest) = sig_args_from(s, k + 1, SigMode::Top) {
                                assert(o + (seq![JvmValue::spec_default_value(c)] + rest) =~= out@ + rest);
                            }
                        }
                    } else if c == 'L' {
                        out.push(JvmValue::ObjRef(0));
                        mode = SigMode::InClass;
                        proof {
                            if let Ok(rest) = sig_args_from(s, k + 1, SigMode::InClass) {
                                assert(o + (seq![JvmValue::ObjRef(0)] + rest) =~= out@ + rest);
                            }
                        }
                    } else if c == '[' {
                        out.push(JvmValue::ObjRef(0));
                        mode = SigMode::InArray;
                        proof {
                            if let Ok(rest) = sig_args_from(s, k + 1, SigMode::InArray) {
                                assert(o + (seq![JvmValue::ObjRef(0)] + rest) =~= out@ + rest);
                            }
                        }
                    } else {
                        proof {
                            assert(c == s[k as int]);
                            assert(sig_args_from(s, k as int, SigMode::Top) == Err::<
                                Seq<JvmValue>,
                                char,
                            >(c));
                        }
                        return Err(JvmError::IllegalDescriptorChar(c));
                    }
                },
                SigMode::InClass => {
                    if c == ';' {
                        mode = SigMode::Top;
                    }
                },
                SigMode::InArray => {
                    if c == 'L' {
                        mode = SigMode::InClass;
                    } else if c == '[' {
                    } else {
                        mode = SigMode::Top;
                    }
                },
            }
            k = k + 1;
        }
        proof {
            assert(out@ + Seq::<JvmValue>::empty() =~= out@);
        }
        Ok(out)
    }
}


impl OtKlass {
    pub fn set_id(&mut self, id: usize)
        ensures
            final(self)@ == (KlassView { id, ..old(self)@ }),
    {
        proof {
            use_type_invariant(&*self);
        }
        self.id = id;
    }

    pub fn get_id(&self) -> (r: usize)
        ensures
            r == self@.id,
    {
        self.id
    }

    pub fn get_name(&self) -> (r: String)
        ensures
            r@ == self@.name,
    {
        self.name.clone()
    }

    pub fn get_super_name(&self) -> (r: String)
        ensures
            r@ == self@.super_name,
    {
        self.super_name.clone()
    }

    pub fn get_flags(&self) -> (r: u16)
        ensures
            r == self@.flags,
    {
        self.flags
    }

    pub fn get_methods(&self) -> (r: Vec<OtMethod>)
        ensures
            r@.map_values(|m: OtMethod| m@) == self@.methods,
    {
        clone_methods(&self.methods)
    }

    /// The size in bytes of an object of this class: always 100.
    pub fn obj_size(&self) -> (r: usize)
        ensures
            r == 100,
    {
        100
    }

    /// The number of constant-pool slots (slot 0 included).
    pub fn cp_len(&self) -> (r: usize)
        ensures
            r == self@.cp.len(),
    {
        self.cp_entries.len()
    }

    /// Constant-pool entry `cp_idx`.
    pub fn lookup_cp(&self, cp_idx: u16) -> (r: CpEntry)
        requires
            (cp_idx as int) < self@.cp.len(),
        ensures
            r == self@.cp[cp_idx as int],
    {
        self.cp_entries[cp_idx as usize].clone()
    }

    fn cp_string_fuel(&self, i: u16, fuel: usize) -> (r: Option<String>)
        ensures
            match cp_string(self@.cp, i as int, fuel as nat) {
                Some(s) => r matches Some(t) && t@ == s,
                None => r is None,
            },
        decreases fuel,
    {
        if fuel == 0 || i as usize >= self.cp_entries.len() {
            return None;
        }
        proof {
            reveal_strlit(".");
            reveal_strlit(":");
        }
        match &self.cp_entries[i as usize] {
            CpEntry::Utf8(s) => Some(s.clone()),
            CpEntry::Class(u) => self.cp_string_fuel(*u, fuel - 1),
            CpEntry::FieldRef { clz_idx, nt_idx } => {
                let a = self.cp_string_fuel(*clz_idx, fuel - 1);
                let b = self.cp_string_fuel(*nt_idx, fuel - 1);
                match (a, b) {
                    (Some(a), Some(b)) => Some(join(a.as_str(), ".", b.as_str())),
                    _ => None,
                }
            },
            CpEntry::MethodRef { clz_idx, nt_idx } => {
                let a = self.cp_string_fuel(*clz_idx, fuel - 1);
                let b = self.cp_string_fuel(*nt_idx, fuel - 1);
                match (a, b) {
                    (Some(a), Some(b)) => Some(join(a.as_str(), ".", b.as_str())),
                    _ => None,
                }
            },
            CpEntry::NameAndType { name_idx, type_idx } => {
                let a = self.cp_string_fuel(*name_idx, fuel - 1);
                let b = self.cp_string_fuel(*type_idx, fuel - 1);
                match (a, b) {
                    (Some(a), Some(b)) => Some(join(a.as_str(), ":", b.as_str())),
                    _ => None,
                }
            },
            _ => None,
        }
    }

    /// The string form of constant-pool entry `i` (see `spec_cp_string`).
    pub fn cp_as_string(&self, i: u16) -> (r: Result<String, JvmError>)
        ensures
            match self.spec_cp_string(i as int) {
                Some(s) => r matches Ok(t) && t@ == s,
                None => r == Err::<String, JvmError>(JvmError::NotStringifiable(i)),
            },
    {
        match self.cp_string_fuel(i, self.cp_entries.len()) {
            Some(s) => Ok(s),
            None => Err(JvmError::NotStringifiable(i)),
        }
    }
}


/// The class names that the class entries of `cp[0..n]` resolve to, in
/// pool order, or the name index of the first one that does not resolve.
pub open spec fn mentioned_upto(k: &OtKlass, n: int) -> Result<Seq<Seq<char>>, u16>
    decreases n,
{
    if n <= 0 {
        Ok(Seq::empty())
    } else {
        match mentioned_upto(k, n - 1) {
            Err(u) => Err(u),
            Ok(prev) => match k@.cp[n - 1] {
                CpEntry::Class(u) => match k.spec_cp_string(u as int) {
                    Some(s) => Ok(prev.push(s)),
                    None => Err(u),
                },
                _ => Ok(prev),
            },
        }
    }
}

proof fn lemma_mentioned_err_sticks(k: &OtKlass, n: int, m: int)
    requires
        n <= m,
        mentioned_upto(k, n) is Err,
    ensures
        mentioned_upto(k, m) == mentioned_upto(k, n),
    decreases m - n,
{
    if n < m {
        lemma_mentioned_err_sticks(k, n, m - 1);
    }
}

impl OtKlass {
    /// The index of the method registered last under the key `nd`.
    pub fn method_index(&self, name_desc: &String) -> (r: Option<usize>)
        ensures
            r matches Some(i) ==> self.spec_method_index(name_desc@) == Some(i as int),
            r is None ==> self.spec_method_index(name_desc@) is None,
    {
        let ghost ms = self@.methods;
        let mut i = self.methods.len();
        proof {
            assert(ms.take(ms.len() as int) =~= ms);
            lemma_last_method_index_bound(ms, name_desc@);
        }
        while i > 0
            invariant
                ms == self@.methods,
                i <= ms.len(),
                last_method_index(ms, name_desc@) == last_method_index(ms.take(i as int), name_desc@),
            decreases i,
        {
            let key = self.methods[i - 1].get_fq_name_desc();
            proof {
                assert(ms.take(i as int).last() == ms[i - 1]);
                assert(ms.take(i as int).drop_last() =~= ms.take(i - 1));
            }
            if str_eq(&key, name_desc) {
                return Some(i - 1);
            }
            i = i - 1;
        }
        None
    }

    /// The method registered last under the key `Class.name:desc`.
    pub fn get_method_by_name_and_desc(&self, name_desc: &String) -> (r: Option<&OtMethod>)
        ensures
            match self.spec_method_index(name_desc@) {
                Some(i) => r matches Some(m) && m@ == self@.methods[i],
                None => r is None,
            },
    {
        proof {
            lemma_last_method_index_bound(self@.methods, name_desc@);
        }
        match self.method_index(name_desc) {
            Some(i) => {
                let rm = &self.methods[i];
                proof {
                    assert(self@.methods[i as int] == self.methods@[i as int]@);
                    assert(rm@ == self@.methods[i as int]);
                }
                Some(rm)
            },
            None => None,
        }
    }

    /// The position recorded last for the field key `name_desc`.
    fn field_slot(&self, name_desc: &String) -> (r: Option<usize>)
        ensures
            r == last_slot(self@.f_lookup, name_desc@),
    {
        let ghost l = self@.f_lookup;
        let mut i = self.f_lookup.len();
        proof {
            assert(l.take(l.len() as int) =~= l);
        }
        while i > 0
            invariant
                l == self@.f_lookup,
                i <= l.len(),
                last_slot(l, name_desc@) == last_slot(l.take(i as int), name_desc@),
            decreases i,
        {
            proof {
                assert(l.take(i as int).last() == l[i - 1]);
                assert(l.take(i as int).drop_last() =~= l.take(i - 1));
            }
            if str_eq(&self.f_lookup[i - 1].key, name_desc) {
                return Some(self.f_lookup[i - 1].idx);
            }
            i = i - 1;
        }
        None
    }

    /// The static field whose key was recorded last as `name_desc`.
    pub fn get_static_field_by_name_and_desc(&self, name_desc: &String) -> (r: Option<&OtField>)
        ensures
            match last_slot(self@.f_lookup, name_desc@) {
                Some(i) => if (i as int) < self@.s_fields.len() {
                    r == Some(&self@.s_fields[i as int])
                } else {
                    r is None
                },
                None => r is None,
            },
    {
        match self.field_slot(name_desc) {
            Some(i) => if i < self.s_fields.len() {
                Some(&self.s_fields[i])
            } else {
                None
            },
            None => None,
        }
    }

    /// The instance field whose key was recorded last as `name_desc`.
    pub fn get_instance_field_by_name_and_desc(&self, name_desc: &String) -> (r: Option<&OtField>)
        ensures
            match last_slot(self@.f_lookup, name_desc@) {
                Some(i) => if (i as int) < self@.i_fields.len() {
                    r == Some(&self@.i_fields[i as int])
                } else {
                    r is None
                },
                None => r is None,
            },
    {
        match self.field_slot(name_desc) {
            Some(i) => if i < self.i_fields.len() {
                Some(&self.i_fields[i])
            } else {
                None
            },
            None => None,
        }
    }

    /// The position of the first field in `fs` whose key is that of `f`.
    fn find_field(fs: &Vec<OtField>, f: &OtField) -> (r: Option<usize>)
        ensures
            r matches Some(i) ==> first_field_index(fs@, f.spec_fq_name_desc()) == Some(i as int),
            r is None ==> first_field_index(fs@, f.spec_fq_name_desc()) is None,
    {
        let key = f.get_fq_name_desc();
        let mut i: usize = 0;
        proof {
            assert(fs@.skip(0) =~= fs@);
            lemma_first_field_index_bound(fs@, key@);
        }
        while i < fs.len()
            invariant
                key@ == f.spec_fq_name_desc(),
                i <= fs@.len(),
                first_field_index(fs@, key@) == match first_field_index(fs@.skip(i as int), key@) {
                    Some(j) => Some(j + i),
                    None => None::<int>,
                },
            decreases fs.len() - i,
        {
            proof {
                assert(fs@.skip(i as int)[0] == fs@[i as int]);
                assert(fs@.skip(i as int).drop_first() =~= fs@.skip(i + 1));
            }
            let k = fs[i].get_fq_name_desc();
            if str_eq(&k, &key) {
                return Some(i);
            }
            i = i + 1;
        }
        proof {
            assert(fs@.skip(i as int) =~= Seq::<OtField>::empty());
        }
        None
    }

    /// The position among the instance fields of the first one with `f`'s key.
    pub fn get_instance_field_offset(&self, f: &OtField) -> (r: Result<usize, JvmError>)
        ensures
            r matches Ok(i) ==> first_field_index(self@.i_fields, f.spec_fq_name_desc()) == Some(i as int),
            r is Err ==> first_field_index(self@.i_fields, f.spec_fq_name_desc()) is None && r == Err::<
                usize,
                JvmError,
            >(JvmError::FieldNotFound),
    {
        match Self::find_field(&self.i_fields, f) {
            Some(i) => Ok(i),
            None => Err(JvmError::FieldNotFound),
        }
    }

    /// The position among the static fields of the first one with `f`'s key.
    pub fn get_static_field_offset(&self, f: &OtField) -> (r: Result<usize, JvmError>)
        ensures
            r matches Ok(i) ==> first_field_index(self@.s_fields, f.spec_fq_name_desc()) == Some(i as int),
            r is Err ==> first_field_index(self@.s_fields, f.spec_fq_name_desc()) is None && r == Err::<
                usize,
                JvmError,
            >(JvmError::FieldNotFound),
    {
        match Self::find_field(&self.s_fields, f) {
            Some(i) => Ok(i),
            None => Err(JvmError::FieldNotFound),
        }
    }

    /// The current value of the static field `f`.
    pub fn get_static(&self, f: &OtField) -> (r: Result<JvmValue, JvmError>)
        ensures
            match first_field_index(self@.s_fields, f.spec_fq_name_desc()) {
                Some(i) => r == Ok::<JvmValue, JvmError>(self@.s_vals[i]),
                None => r == Err::<JvmValue, JvmError>(JvmError::FieldNotFound),
            },
    {
        proof {
            use_type_invariant(self);
            lemma_first_field_index_bound(self@.s_fields, f.spec_fq_name_desc());
        }
        match self.get_static_field_offset(f) {
            Ok(idx) => Ok(self.s_field_vals[idx]),
            Err(e) => Err(e),
        }
    }

    /// Sets the static field `f` to `v`.
    pub fn put_static(&mut self, f: &OtField, v: JvmValue) -> (r: Result<(), JvmError>)
        ensures
            match first_field_index(old(self)@.s_fields, f.spec_fq_name_desc()) {
                Some(i) => r is Ok && final(self)@ == (KlassView {
                    s_vals: old(self)@.s_vals.update(i, v),
                    ..old(self)@
                }),
                None => r == Err::<(), JvmError>(JvmError::FieldNotFound) && final(self)@ == old(
                    self,
                )@,
            },
    {
        proof {
            use_type_invariant(&*self);
            lemma_first_field_index_bound(self@.s_fields, f.spec_fq_name_desc());
        }
        let idx = match self.get_static_field_offset(f) {
            Ok(idx) => idx,
            Err(e) => return Err(e),
        };
        let mut vals = copy_values(&self.s_field_vals);
        vals.set(idx, v);
        self.s_field_vals = vals;
        Ok(())
    }

    /// The zero value of each instance field, in order: the initial field
    /// values of a new object of this class.
    pub fn make_default_values(&self) -> (r: Vec<JvmValue>)
        ensures
            r@ == self@.i_fields.map_values(|f: OtField| default_for_descriptor(f.spec_desc())),
    {
        let mut out: Vec<JvmValue> = Vec::new();
        let mut i: usize = 0;
        while i < self.i_fields.len()
            invariant
                i <= self@.i_fields.len(),
                out@ == self@.i_fields.take(i as int).map_values(
                    |f: OtField| default_for_descriptor(f.spec_desc()),
                ),
            decreases self.i_fields.len() - i,
        {
            out.push(self.i_fields[i].get_default());
            i = i + 1;
            proof {
                assert(out@ =~= self@.i_fields.take(i as int).map_values(
                    |f: OtField| default_for_descriptor(f.spec_desc()),
                ));
            }
        }
        proof {
            assert(self@.i_fields.take(i as int) =~= self@.i_fields);
        }
        out
    }

    /// Installs native code on the method registered under the key `name_desc`.
    pub fn set_native_method(&mut self, name_desc: String, n_code: NativeMethod) -> (r: Result<
        (),
        JvmError,
    >)
        ensures
            match old(self).spec_method_index(name_desc@) {
                Some(i) => r is Ok && final(self)@ == (KlassView {
                    methods: old(self)@.methods.update(
                        i,
                        MethodView { native_code: Some(n_code), ..old(self)@.methods[i] },
                    ),
                    ..old(self)@
                }),
                None => r == Err::<(), JvmError>(JvmError::MethodNotFound) && final(self)@ == old(
                    self,
                )@,
            },
    {
        proof {
            lemma_last_method_index_bound(self@.methods, name_desc@);
        }
        match self.method_index(&name_desc) {
            Some(i) => {
                let mut m = self.methods[i].clone();
                m.set_native_code(n_code);
                let ghost old_ms = self.methods@;
                let mut ms = clone_methods(&self.methods);
                ms.set(i, m);
                proof {
                    use_type_invariant(&*self);
                }
                self.methods = ms;
                proof {
                    assert(self.methods@.map_values(|m: OtMethod| m@) =~= old_ms.map_values(
                        |m: OtMethod| m@,
                    ).update(i as int, MethodView { native_code: Some(n_code), ..old_ms[i as int]@ }));
                }
                Ok(())
            },
            None => Err(JvmError::MethodNotFound),
        }
    }

    /// The names of the classes that the constant pool mentions, in pool order.
    pub fn get_mentioned_klasses(&self) -> (r: Result<Vec<String>, JvmError>)
        ensures
            match mentioned_upto(self, self@.cp.len() as int) {
                Ok(names) => r matches Ok(v) && v@.map_values(|s: String| s@) == names,
                Err(u) => r == Err::<Vec<String>, JvmError>(JvmError::NotStringifiable(u)),
            },
    {
        let mut out: Vec<String> = Vec::new();
        let mut i: usize = 0;
        while i < self.cp_entries.len()
            invariant
                i <= self@.cp.len(),
                mentioned_upto(self, i as int) matches Ok(names) && out@.map_values(|s: String| s@)
                    == names,
            decreases self.cp_entries.len() - i,
        {
            let ghost prev = out@;
            match &self.cp_entries[i] {
                CpEntry::Class(u) => {
                    let s = match self.cp_as_string(*u) {
                        Ok(s) => s,
                        Err(e) => {
                            proof {
                                lemma_mentioned_err_sticks(self, i + 1, self@.cp.len() as int);
                            }
                            return Err(e);
                        },
                    };
                    out.push(s);
                    proof {
                        assert(out@.map_values(|s: String| s@) =~= prev.map_values(|s: String| s@).push(s@));
                    }
                },
                _ => {},
            }
            i = i + 1;
        }
        Ok(out)
    }

    /// The number of parameters of the method that entry `cp_idx` refers to
    /// (see `spec_method_arg_count`).
    pub fn get_method_arg_count(&self, cp_idx: u16) -> (r: Result<u8, JvmError>)
        ensures
            r == self.spec_method_arg_count(cp_idx),
    {
        let bad = JvmError::BadConstantPoolIndex(cp_idx);
        if cp_idx as usize >= self.cp_entries.len() {
            return Err(bad);
        }
        let nt_idx = match &self.cp_entries[cp_idx as usize] {
            CpEntry::MethodRef { clz_idx: _, nt_idx } => *nt_idx,
            _ => return Err(bad),
        };
        if nt_idx as usize >= self.cp_entries.len() {
            return Err(bad);
        }
        let type_idx = match &self.cp_entries[nt_idx as usize] {
            CpEntry::NameAndType { name_idx: _, type_idx } => *type_idx,
            _ => return Err(bad),
        };
        if type_idx as usize >= self.cp_entries.len() {
            return Err(bad);
        }
        match &self.cp_entries[type_idx as usize] {
            CpEntry::Utf8(sig) => {
                match Self::parse_sig_for_args(sig.clone()) {
                    Ok(args) => Ok(#[verifier::truncate] (args.len() as u8)),
                    Err(e) => Err(e),
                }
            },
            _ => Err(bad),
        }
    }

    /// The method a virtual call through entry `m_idx` reaches. Virtual
    /// dispatch is not implemented: this is always the same placeholder method
    /// `DUMMY_KLASS.DUMMY_METH:DUMMY_DESC`.
    pub fn get_method_by_offset_virtual(&self, _m_idx: u16) -> (r: OtMethod)
        ensures
            r.spec_klass_name() == "DUMMY_KLASS"@,
            r.spec_name() == "DUMMY_METH"@,
            r.spec_name_desc() == "DUMMY_METH"@ + seq![':'] + "DUMMY_DESC"@,
            r.spec_flags() == 0,
            r.spec_code() == Seq::<u8>::empty(),
            r.spec_native_code() == None::<NativeMethod>,
    {
        OtMethod::of(
            String::from_str("DUMMY_KLASS"),
            String::from_str("DUMMY_METH"),
            String::from_str("DUMMY_DESC"),
            0,
            1,
            2,
        )
    }

    pub open spec fn spec_method_arg_count(&self, cp_idx: u16) -> Result<u8, JvmError> {
        method_arg_count(self@.cp, cp_idx)
    }
}

/// The number of parameters of the method that entry `cp_idx` refers to:
/// the entry must be a method reference whose name-and-type entry names a
/// UTF-8 descriptor; the count is that of `sig_args`, truncated to a byte.
pub open spec fn method_arg_count(cp: Seq<CpEntry>, cp_idx: u16) -> Result<u8, JvmError> {
    let bad = JvmError::BadConstantPoolIndex(cp_idx);
    if cp_idx as int >= cp.len() {
        Err(bad)
    } else {
        match cp[cp_idx as int] {
            CpEntry::MethodRef { clz_idx: _, nt_idx } => if nt_idx as int >= cp.len() {
                Err(bad)
            } else {
                match cp[nt_idx as int] {
                    CpEntry::NameAndType { name_idx: _, type_idx } => if type_idx as int
                        >= cp.len() {
                        Err(bad)
                    } else {
                        match cp[type_idx as int] {
                            CpEntry::Utf8(sig) => match sig_args(sig@) {
                                Ok(v) => Ok(v.len() as u8),
                                Err(c) => Err(JvmError::IllegalDescriptorChar(c)),
                            },
                            _ => Err(bad),
                        }
                    },
                    _ => Err(bad),
                }
            },
            _ => Err(bad),
        }
    }
}

impl Clone for OtKlass {
    fn clone(&self) -> (r: OtKlass)
        ensures
            r@ == self@,
    {
        proof {
            use_type_invariant(self);
        }
        OtKlass {
            id: self.id,
            name: self.name.clone(),
            super_name: self.super_name.clone(),
            flags: self.flags,
            cp_entries: clone_cp(&self.cp_entries),
            methods: clone_methods(&self.methods),
            i_fields: clone_fields(&self.i_fields),
            s_fields: clone_fields(&self.s_fields),
            s_field_vals: copy_values(&self.s_field_vals),
            f_lookup: clone_slots(&self.f_lookup),
        }
    }
}

/// A copy of a list of fields.
fn clone_fields(v: &Vec<OtField>) -> (r: Vec<OtField>)
    ensures
        r@ == v@,
{
    let mut out: Vec<OtField> = Vec::new();
    let mut i: usize = 0;
    while i < v.len()
        invariant
            i <= v@.len(),
            out@ == v@.take(i as int),
        decreases v.len() - i,
    {
        out.push(v[i].clone());
        i = i + 1;
        proof {
            assert(out@ =~= v@.take(i as int));
        }
    }
    proof {
        assert(v@.take(v@.len() as int) =~= v@);
    }
    out
}

/// A copy of a field index.
fn clone_slots(v: &Vec<FieldSlot>) -> (r: Vec<FieldSlot>)
    ensures
        r@.map_values(|s: FieldSlot| (s.key@, s.idx)) == v@.map_values(|s: FieldSlot| (s.key@, s.idx)),
{
    let mut out: Vec<FieldSlot> = Vec::new();
    let mut i: usize = 0;
    while i < v.len()
        invariant
            i <= v@.len(),
            out@.len() == i,
            forall|j: int| 0 <= j < i ==> #[trigger] out@[j].key@ == v@[j].key@ && out@[j].idx == v@[j].idx,
        decreases v.len() - i,
    {
        out.push(FieldSlot { key: v[i].key.clone(), idx: v[i].idx });
        i = i + 1;
    }
    proof {
        assert(out@.map_values(|s: FieldSlot| (s.key@, s.idx)) =~= v@.map_values(|s: FieldSlot| (s.key@, s.idx)));
    }
    out
}

/// A copy of a list of values.
fn copy_values(v: &Vec<JvmValue>) -> (r: Vec<JvmValue>)
    ensures
        r@ == v@,
{
    let mut out: Vec<JvmValue> = Vec::new();
    let mut i: usize = 0;
    while i < v.len()
        invariant
            i <= v@.len(),
            out@ == v@.take(i as int),
        decreases v.len() - i,
    {
        out.push(v[i]);
        i = i + 1;
        proof {
            assert(out@ =~= v@.take(i as int));
        }
    }
    proof {
        assert(v@.take(v@.len() as int) =~= v@);
    }
    out
}

/// A copy of a constant pool.
fn clone_cp(v: &Vec<CpEntry>) -> (r: Vec<CpEntry>)
    ensures
        r@ == v@,
{
    let mut out: Vec<CpEntry> = Vec::new();
    let mut i: usize = 0;
    while i < v.len()
        invariant
            i <= v@.len(),
            out@ == v@.take(i as int),
        decreases v.len() - i,
    {
        out.push(v[i].clone());
        i = i + 1;
        proof {
            assert(out@ =~= v@.take(i as int));
        }
    }
    proof {
        assert(v@.take(v@.len() as int) =~= v@);
    }
    out
}

/// A copy of a list of methods.
fn clone_methods(v: &Vec<OtMethod>) -> (r: Vec<OtMethod>)
    ensures
        r@.map_values(|m: OtMethod| m@) == v@.map_values(|m: OtMethod| m@),
{
    let mut out: Vec<OtMethod> = Vec::new();
    let mut i: usize = 0;
    while i < v.len()
        invariant
            i <= v@.len(),
            out@.len() == i,
            forall|j: int| 0 <= j < i ==> #[trigger] out@[j]@ == v@[j]@,
        decreases v.len() - i,
    {
        out.push(v[i].clone());
        i = i + 1;
    }
    proof {
        assert(out@.map_values(|m: OtMethod| m@) =~= v@.map_values(|m: OtMethod| m@));
    }
    out
}

} // verus!
