use vstd::prelude::*;

use crate::constant_pool::{ACC_NATIVE, CpAttr};
use crate::native_methods::NativeMethod;
use crate::strings::join;

verus! {

/// A method of a class: its names, flags, bytecode and, for native
/// methods, the native code installed on it.
#[derive(Debug)]
pub struct OtMethod {
    klass_name: String,
    flags: u16,
    name: String,
    name_desc: String,
    name_idx: u16,
    desc_idx: u16,
    code: Vec<u8>,
    native_code: Option<NativeMethod>,
}

/// The abstract content of a method.
pub struct MethodView {
    pub klass_name: Seq<char>,
    pub flags: u16,
    pub name: Seq<char>,
    pub name_desc: Seq<char>,
    pub code: Seq<u8>,
    pub native_code: Option<NativeMethod>,
}

impl View for OtMethod {
    type V = MethodView;

    closed spec fn view(&self) -> MethodView {
        MethodView {
            klass_name: self.klass_name@,
            flags: self.flags,
            name: self.name@,
            name_desc: self.name_desc@,
            code: self.code@,
            native_code: self.native_code,
        }
    }
}

impl OtMethod {
    pub open spec fn spec_klass_name(&self) -> Seq<char> {
        self@.klass_name
    }

    pub open spec fn spec_name(&self) -> Seq<char> {
        self@.name
    }

    /// `name:desc`.
    pub open spec fn spec_name_desc(&self) -> Seq<char> {
        self@.name_desc
    }

    pub open spec fn spec_flags(&self) -> u16 {
        self@.flags
    }

    pub open spec fn spec_code(&self) -> Seq<u8> {
        self@.code
    }

    pub open spec fn spec_native_code(&self) -> Option<NativeMethod> {
        self@.native_code
    }

    /// `Class.name:desc`, the key under which the method is found.
    pub open spec fn spec_fq_name_desc(&self) -> Seq<char> {
        self.spec_klass_name() + seq!['.'] + self.spec_name_desc()
    }

    pub open spec fn spec_is_native(&self) -> bool {
        self.spec_flags() & ACC_NATIVE == ACC_NATIVE
    }

    /// A method of `klass_name` with no code and no native code.
    pub fn of(
        klass_name: String,
        name: String,
        desc: String,
        flags: u16,
        name_idx: u16,
        desc_idx: u16,
    ) -> (r: OtMethod)
        ensures
            r.spec_klass_name() == klass_name@,
            r.spec_name() == name@,
            r.spec_name_desc() == name@ + seq![':'] + desc@,
            r.spec_flags() == flags,
            r.spec_code() == Seq::<u8>::empty(),
            r.spec_native_code() == None::<NativeMethod>,
    {
        let name_and_desc = join(name.as_str(), ":", desc.as_str());
        proof {
            reveal_strlit(":");
        }
        OtMethod {
            klass_name,
            flags,
            name,
            name_desc: name_and_desc,
            code: Vec::new(),
            native_code: None,
            name_idx: desc_idx,
            desc_idx,
        }
    }

    /// Attributes are not kept: this does nothing.
    pub fn set_attr(&self, _index: u16, _attr: CpAttr) {
    }

    pub fn set_code(&mut self, code: Vec<u8>)
        ensures
            final(self).spec_code() == code@,
            final(self).spec_klass_name() == old(self).spec_klass_name(),
            final(self).spec_name() == old(self).spec_name(),
            final(self).spec_name_desc() == old(self).spec_name_desc(),
            final(self).spec_flags() == old(self).spec_flags(),
            final(self).spec_native_code() == old(self).spec_native_code(),
    {
        self.code = code;
    }

    pub fn get_code(&self) -> (r: Vec<u8>)
        ensures
            r@ == self.spec_code(),
    {
        self.code.clone()
    }

    pub fn get_klass_name(&self) -> (r: String)
        ensures
            r@ == self.spec_klass_name(),
    {
        self.klass_name.clone()
    }

    /// `name:desc`.
    pub fn get_desc(&self) -> (r: String)
        ensures
            r@ == self.spec_name_desc(),
    {
        self.name_desc.clone()
    }

    pub fn get_fq_name_desc(&self) -> (r: String)
        ensures
            r@ == self.spec_fq_name_desc(),
    {
        let r = join(self.klass_name.as_str(), ".", self.name_desc.as_str());
        proof {
            reveal_strlit(".");
        }
        r
    }

    pub fn get_flags(&self) -> (r: u16)
        ensures
            r == self.spec_flags(),
    {
        self.flags
    }

    pub fn is_native(&self) -> (r: bool)
        ensures
            r == self.spec_is_native(),
    {
        self.flags & ACC_NATIVE == ACC_NATIVE
    }

    pub fn set_native_code(&mut self, n_code: NativeMethod)
        ensures
            final(self).spec_native_code() == Some(n_code),
            final(self).spec_code() == old(self).spec_code(),
            final(self).spec_klass_name() == old(self).spec_klass_name(),
            final(self).spec_name() == old(self).spec_name(),
            final(self).spec_name_desc() == old(self).spec_name_desc(),
            final(self).spec_flags() == old(self).spec_flags(),
    {
        self.native_code = Some(n_code);
    }

    pub fn get_native_code(&self) -> (r: Option<NativeMethod>)
        ensures
            r == self.spec_native_code(),
    {
        self.native_code
    }

    /// The number of local-variable slots a call to this method receives.
    pub fn get_local_var_size(&self) -> (r: u8)
        ensures
            r == 255,
    {
        255
    }
}

impl Clone for OtMethod {
    fn clone(&self) -> (r: OtMethod)
        ensures
            r@ == self@,
    {
        OtMethod {
            klass_name: self.klass_name.clone(),
            flags: self.flags,
            name: self.name.clone(),
            name_desc: self.name_desc.clone(),
            name_idx: self.name_idx,
            desc_idx: self.desc_idx,
            code: self.code.clone(),
            native_code: self.native_code,
        }
    }
}

} // verus!
