use vstd::prelude::*;

use crate::constant_pool::{ACC_STATIC, CpAttr};
use crate::otklass::OtKlass;
use crate::strings::{decimal, join, spec_decimal};
use crate::values::JvmValue;

verus! {

/// A field of a class, as declared in its class file.
#[derive(Debug)]
pub struct OtField {
    klass_name: String,
    name: String,
    desc: String,
    flags: u16,
    name_idx: u16,
    desc_idx: u16,
    offset: u16,
}

/// The zero value of a field with descriptor `desc`: the letter's zero for
/// the primitive types, a null reference otherwise.
pub open spec fn default_for_descriptor(desc: Seq<char>) -> JvmValue {
    if desc.len() > 0 && (desc[0] == 'Z' || desc[0] == 'B' || desc[0] == 'S' || desc[0] == 'I'
        || desc[0] == 'J' || desc[0] == 'F' || desc[0] == 'D' || desc[0] == 'C') {
        JvmValue::spec_default_value(desc[0])
    } else {
        JvmValue::ObjRef(0)
    }
}

impl OtField {
    pub closed spec fn spec_klass_name(&self) -> Seq<char> {
        self.klass_name@
    }

    pub closed spec fn spec_name(&self) -> Seq<char> {
        self.name@
    }

    pub closed spec fn spec_desc(&self) -> Seq<char> {
        self.desc@
    }

    pub closed spec fn spec_flags(&self) -> u16 {
        self.flags
    }

    pub closed spec fn spec_offset(&self) -> u16 {
        self.offset
    }

    pub closed spec fn spec_name_idx(&self) -> u16 {
        self.name_idx
    }

    pub closed spec fn spec_desc_idx(&self) -> u16 {
        self.desc_idx
    }

    /// `Class.name:desc`, the key under which the field is found.
    pub open spec fn spec_fq_name_desc(&self) -> Seq<char> {
        self.spec_klass_name() + seq!['.'] + self.spec_name() + seq![':'] + self.spec_desc()
    }

    /// The same field placed at `offset`.
    pub closed spec fn spec_with_offset(self, offset: u16) -> OtField {
        OtField { offset, ..self }
    }

    pub broadcast proof fn lemma_with_offset(self, offset: u16)
        ensures
            (#[trigger] self.spec_with_offset(offset)).spec_offset() == offset,
            self.spec_with_offset(offset).spec_klass_name() == self.spec_klass_name(),
            self.spec_with_offset(offset).spec_name() == self.spec_name(),
            self.spec_with_offset(offset).spec_desc() == self.spec_desc(),
            self.spec_with_offset(offset).spec_flags() == self.spec_flags(),
    {
    }

    pub open spec fn spec_is_static(&self) -> bool {
        self.spec_flags() & ACC_STATIC != 0
    }

    /// A field of `klass_name` with the given name, descriptor, flags and
    /// constant-pool indices, at offset 0 until a class places it.
    pub fn of(
        klass_name: String,
        field_name: String,
        field_desc: String,
        field_flags: u16,
        name_idx: u16,
        desc_idx: u16,
    ) -> (r: OtField)
        ensures
            r.spec_klass_name() == klass_name@,
            r.spec_name() == field_name@,
            r.spec_desc() == field_desc@,
            r.spec_flags() == field_flags,
            r.spec_name_idx() == name_idx,
            r.spec_desc_idx() == desc_idx,
            r.spec_offset() == 0,
    {
        OtField {
            klass_name,
            name: field_name,
            desc: field_desc,
            flags: field_flags,
            name_idx,
            desc_idx,
            offset: 0,
        }
    }

    /// The printed form of the field: `Class.name:` and the constant-pool
    /// index of its descriptor, in decimal.
    pub fn show(&self) -> (r: String)
        ensures
            r@ == self.spec_klass_name() + seq!['.'] + self.spec_name() + seq![':'] + spec_decimal(
                self.spec_desc_idx() as nat,
            ),
    {
        let idx = decimal(self.desc_idx);
        let nd = join(self.name.as_str(), ":", idx.as_str());
        let r = join(self.klass_name.as_str(), ".", nd.as_str());
        proof {
            reveal_strlit(":");
            reveal_strlit(".");
            assert(r@ =~= self.spec_klass_name() + seq!['.'] + self.spec_name() + seq![':'] + spec_decimal(
                self.spec_desc_idx() as nat,
            ));
        }
        r
    }

    /// Attributes are not kept: this does nothing.
    pub fn set_attr(&self, _index: u16, _attr: CpAttr) {
    }

    /// The class of a field is not looked up: this is always an empty
    /// placeholder class `DUMMY_CLASS` with superclass `DUMMY_SUPER0`.
    pub fn get_klass(&self) -> (r: OtKlass)
        ensures
            r@.name == "DUMMY_CLASS"@,
            r@.super_name == "DUMMY_SUPER0"@,
            r@.flags == 0,
            r@.cp.len() == 0,
            r@.methods.len() == 0,
            r@.i_fields.len() == 0,
            r@.s_fields.len() == 0,
    {
        let none_cp = Vec::new();
        let none_methods = Vec::new();
        let none_fields: Vec<OtField> = Vec::new();
        let r = OtKlass::of(
            String::from_str("DUMMY_CLASS"),
            String::from_str("DUMMY_SUPER0"),
            0,
            &none_cp,
            &none_methods,
            &none_fields,
        );
        proof {
            assert(none_fields@ =~= Seq::<OtField>::empty());
        }
        r
    }

    /// The name is not reported: this gives the empty string for every
    /// field (the field's class and descriptor tell fields apart).
    pub fn get_name(&self) -> (r: String)
        ensures
            r@ == Seq::<char>::empty(),
    {
        let r = String::new();
        r
    }

    pub fn get_klass_name(&self) -> (r: String)
        ensures
            r@ == self.spec_klass_name(),
    {
        self.klass_name.clone()
    }

    pub fn get_desc(&self) -> (r: String)
        ensures
            r@ == self.spec_desc(),
    {
        self.desc.clone()
    }

    pub fn get_flags(&self) -> (r: u16)
        ensures
            r == self.spec_flags(),
    {
        self.flags
    }

    pub fn get_offset(&self) -> (r: u16)
        ensures
            r == self.spec_offset(),
    {
        self.offset
    }

    /// Places the field at `offset` within its class's instance or static slots.
    pub fn set_offset(&mut self, offset: u16)
        ensures
            *final(self) == old(self).spec_with_offset(offset),
    {
        self.offset = offset;
    }

    pub fn is_static(&self) -> (r: bool)
        ensures
            r == self.spec_is_static(),
    {
        self.flags & ACC_STATIC != 0
    }

    pub fn get_fq_name_desc(&self) -> (r: String)
        ensures
            r@ == self.spec_fq_name_desc(),
    {
        let nd = join(self.name.as_str(), ":", self.desc.as_str());
        let r = join(self.klass_name.as_str(), ".", nd.as_str());
        proof {
            reveal_strlit(":");
            reveal_strlit(".");
            assert(r@ =~= self.spec_fq_name_desc());
        }
        r
    }

    /// The value a fresh slot for this field holds.
    pub fn get_default(&self) -> (r: JvmValue)
        ensures
            r == default_for_descriptor(self.spec_desc()),
    {
        let s = self.desc.as_str();
        if s.unicode_len() == 0 {
            return JvmValue::ObjRef(0);
        }
        let c = s.get_char(0);
        if c == 'Z' || c == 'B' || c == 'S' || c == 'I' || c == 'J' || c == 'F' || c == 'D' || c
            == 'C' {
            JvmValue::default_value(c)
        } else {
            JvmValue::ObjRef(0)
        }
    }
}

impl Clone for OtField {
    fn clone(&self) -> (r: OtField)
        ensures
            r == *self,
    {
        OtField {
            klass_name: self.klass_name.clone(),
            name: self.name.clone(),
            desc: self.desc.clone(),
            flags: self.flags,
            name_idx: self.name_idx,
            desc_idx: self.desc_idx,
            offset: self.offset,
        }
    }
}

} // verus!
