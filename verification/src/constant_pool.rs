use vstd::prelude::*;

verus! {

pub const CP_UTF8: u8 = 1;
pub const CP_INTEGER: u8 = 3;
pub const CP_FLOAT: u8 = 4;
pub const CP_LONG: u8 = 5;
pub const CP_DOUBLE: u8 = 6;
pub const CP_CLASS: u8 = 7;
pub const CP_STRING: u8 = 8;
pub const CP_FIELDREF: u8 = 9;
pub const CP_METHODREF: u8 = 10;
pub const CP_INTERFACE_METHODREF: u8 = 11;
pub const CP_NAMEANDTYPE: u8 = 12;

pub const ACC_PUBLIC: u16 = 0x0001;
pub const ACC_PRIVATE: u16 = 0x0002;
pub const ACC_PROTECTED: u16 = 0x0004;
pub const ACC_STATIC: u16 = 0x0008;
pub const ACC_FINAL: u16 = 0x0010;
pub const ACC_SYNCHRONIZED: u16 = 0x0020;
pub const ACC_VOLATILE: u16 = 0x0040;
pub const ACC_TRANSIENT: u16 = 0x0080;
pub const ACC_NATIVE: u16 = 0x0100;
pub const ACC_INTERFACE: u16 = 0x0200;
pub const ACC_ABSTRACT: u16 = 0x0400;

/// An entry of a class's constant pool. `Float` and `Double` hold the
/// IEEE-754 bit pattern; index fields point at other entries.
#[derive(Debug)]
pub enum CpEntry {
    Utf8(String),
    Integer(i32),
    Float(u32),
    Long(i64),
    Double(u64),
    Class(u16),
    String(u16),
    FieldRef { clz_idx: u16, nt_idx: u16 },
    MethodRef { clz_idx: u16, nt_idx: u16 },
    InterfaceMethodRef { clz_idx: u16, nt_idx: u16 },
    NameAndType { name_idx: u16, type_idx: u16 },
}

impl Clone for CpEntry {
    fn clone(&self) -> (r: CpEntry)
        ensures
            r == *self,
    {
        match self {
            CpEntry::Utf8(s) => CpEntry::Utf8(s.clone()),
            CpEntry::Integer(v) => CpEntry::Integer(*v),
            CpEntry::Float(v) => CpEntry::Float(*v),
            CpEntry::Long(v) => CpEntry::Long(*v),
            CpEntry::Double(v) => CpEntry::Double(*v),
            CpEntry::Class(i) => CpEntry::Class(*i),
            CpEntry::String(i) => CpEntry::String(*i),
            CpEntry::FieldRef { clz_idx, nt_idx } => CpEntry::FieldRef {
                clz_idx: *clz_idx,
                nt_idx: *nt_idx,
            },
            CpEntry::MethodRef { clz_idx, nt_idx } => CpEntry::MethodRef {
                clz_idx: *clz_idx,
                nt_idx: *nt_idx,
            },
            CpEntry::InterfaceMethodRef { clz_idx, nt_idx } => CpEntry::InterfaceMethodRef {
                clz_idx: *clz_idx,
                nt_idx: *nt_idx,
            },
            CpEntry::NameAndType { name_idx, type_idx } => CpEntry::NameAndType {
                name_idx: *name_idx,
                type_idx: *type_idx,
            },
        }
    }
}

/// An attribute, identified by the constant-pool index of its name.
#[derive(Clone, Copy, Debug, PartialEq, Eq, Structural)]
pub struct CpAttr {
    pub name_idx: u16,
}

impl CpAttr {
    pub fn of(name_idx: u16) -> (r: CpAttr)
        ensures
            r.name_idx == name_idx,
    {
        CpAttr { name_idx }
    }
}

} // verus!
