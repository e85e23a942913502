use vstd::prelude::*;

use crate::values::JvmValue;

verus! {

/// An object on the heap: an instance of a class with its field values, or
/// an array of one element type. Every object carries its heap id, a mark
/// word and the id of its class. Float and double elements are held as
/// IEEE-754 bit patterns.
#[derive(Debug)]
#[allow(inconsistent_fields)]
pub enum OtObj {
    VmObj { id: usize, mark: u64, klassid: usize, fields: Vec<JvmValue> },
    VmArrInt { id: usize, mark: u64, klassid: usize, length: i32, elements: Vec<i32> },
    VmArrLong { id: usize, mark: u64, klassid: usize, length: i32, elements: Vec<i64> },
    VmArrFloat { id: usize, mark: u64, klassid: usize, length: i32, elements: Vec<u32> },
    VmArrDouble { id: usize, mark: u64, klassid: usize, length: i32, elements: Vec<u64> },
    VmArrByte { id: usize, mark: u64, klassid: usize, length: i32, elements: Vec<i8> },
    VmArrShort { id: usize, mark: u64, klassid: usize, length: i32, elements: Vec<i16> },
    VmArrChar { id: usize, mark: u64, klassid: usize, length: i32, elements: Vec<u16> },
    VmArrRef { id: usize, mark: u64, klassid: usize, length: i32, elements: Vec<usize> },
}

/// The elements of an array, by element type.
pub enum ArrView {
    Int(Seq<i32>),
    Long(Seq<i64>),
    Float(Seq<u32>),
    Double(Seq<u64>),
    Byte(Seq<i8>),
    Short(Seq<i16>),
    Char(Seq<u16>),
    Ref(Seq<usize>),
}

impl ArrView {
    pub open spec fn len(self) -> nat {
        match self {
            ArrView::Int(s) => s.len(),
            ArrView::Long(s) => s.len(),
            ArrView::Float(s) => s.len(),
            ArrView::Double(s) => s.len(),
            ArrView::Byte(s) => s.len(),
            ArrView::Short(s) => s.len(),
            ArrView::Char(s) => s.len(),
            ArrView::Ref(s) => s.len(),
        }
    }
}

/// The abstract content of a heap object.
pub enum ObjView {
    Obj { id: usize, mark: u64, klassid: usize, fields: Seq<JvmValue> },
    Arr { id: usize, mark: u64, klassid: usize, length: i32, elements: ArrView },
}

impl ObjView {
    pub open spec fn id(self) -> usize {
        match self {
            ObjView::Obj { id, .. } => id,
            ObjView::Arr { id, .. } => id,
        }
    }

    pub open spec fn mark(self) -> u64 {
        match self {
            ObjView::Obj { mark, .. } => mark,
            ObjView::Arr { mark, .. } => mark,
        }
    }

    pub open spec fn klassid(self) -> usize {
        match self {
            ObjView::Obj { klassid, .. } => klassid,
            ObjView::Arr { klassid, .. } => klassid,
        }
    }

    /// An array's length field agrees with its elements.
    pub open spec fn well_formed(self) -> bool {
        match self {
            ObjView::Obj { .. } => true,
            ObjView::Arr { length, elements, .. } => length >= 0 && elements.len() == length,
        }
    }

    /// The same object with its elements replaced.
    pub open spec fn with_elements(self, e: ArrView) -> ObjView {
        match self {
            ObjView::Arr { id, mark, klassid, length, .. } => ObjView::Arr {
                id,
                mark,
                klassid,
                length,
                elements: e,
            },
            ObjView::Obj { .. } => self,
        }
    }

    /// The same object with field `offset` set to `v`.
    pub open spec fn with_field(self, offset: int, v: JvmValue) -> ObjView {
        match self {
            ObjView::Obj { id, mark, klassid, fields } => ObjView::Obj {
                id,
                mark,
                klassid,
                fields: fields.update(offset, v),
            },
            ObjView::Arr { .. } => self,
        }
    }

    /// A new array of the given id, length and elements; arrays carry class id 2.
    pub open spec fn new_array(id: usize, length: i32, elements: ArrView) -> ObjView {
        ObjView::Arr { id, mark: 0, klassid: 2, length, elements }
    }
}

impl View for OtObj {
    type V = ObjView;

    open spec fn view(&self) -> ObjView {
        match self {
            OtObj::VmObj { id, mark, klassid, fields } => ObjView::Obj {
                id: *id,
                mark: *mark,
                klassid: *klassid,
                fields: fields@,
            },
            OtObj::VmArrInt { id, mark, klassid, length, elements } => ObjView::Arr {
                id: *id,
                mark: *mark,
                klassid: *klassid,
                length: *length,
                elements: ArrView::Int(elements@),
            },
            OtObj::VmArrLong { id, mark, klassid, length, elements } => ObjView::Arr {
                id: *id,
                mark: *mark,
                klassid: *klassid,
                length: *length,
                elements: ArrView::Long(elements@),
            },
            OtObj::VmArrFloat { id, mark, klassid, length, elements } => ObjView::Arr {
                id: *id,
                mark: *mark,
                klassid: *klassid,
                length: *length,
                elements: ArrView::Float(elements@),
            },
            OtObj::VmArrDouble { id, mark, klassid, length, elements } => ObjView::Arr {
                id: *id,
                mark: *mark,
                klassid: *klassid,
                length: *length,
                elements: ArrView::Double(elements@),
            },
            OtObj::VmArrByte { id, mark, klassid, length, elements } => ObjView::Arr {
                id: *id,
                mark: *mark,
                klassid: *klassid,
                length: *length,
                elements: ArrView::Byte(elements@),
            },
            OtObj::VmArrShort { id, mark, klassid, length, elements } => ObjView::Arr {
                id: *id,
                mark: *mark,
                klassid: *klassid,
                length: *length,
                elements: ArrView::Short(elements@),
            },
            OtObj::VmArrChar { id, mark, klassid, length, elements } => ObjView::Arr {
                id: *id,
                mark: *mark,
                klassid: *klassid,
                length: *length,
                elements: ArrView::Char(elements@),
            },
            OtObj::VmArrRef { id, mark, klassid, length, elements } => ObjView::Arr {
                id: *id,
                mark: *mark,
                klassid: *klassid,
                length: *length,
                elements: ArrView::Ref(elements@),
            },
        }
    }
}

/// `n` copies of `v`.
fn filled<T: Copy>(v: T, n: usize) -> (r: Vec<T>)
    ensures
        r@ == Seq::new(n as nat, |i: int| v),
{
    let mut out: Vec<T> = Vec::new();
    while out.len() < n
        invariant
            out@.len() <= n,
            forall|i: int| 0 <= i < out@.len() ==> out@[i] == v,
        decreases n - out@.len(),
    {
        out.push(v);
    }
    proof {
        assert(out@ =~= Seq::new(n as nat, |i: int| v));
    }
    out
}

impl OtObj {
    /// An instance of class `klass_id` with id `obj_id` and the given field values.
    pub fn obj_of(klass_id: usize, obj_id: usize, initial: Vec<JvmValue>) -> (r: OtObj)
        ensures
            r@ == (ObjView::Obj { id: obj_id, mark: 0, klassid: klass_id, fields: initial@ }),
    {
        OtObj::VmObj { id: obj_id, mark: 0u64, klassid: klass_id, fields: initial }
    }

    /// An instance of class `klass` with id 0 and no fields.
    pub fn of(klass: usize) -> (r: OtObj)
        ensures
            r@ == (ObjView::Obj { id: 0, mark: 0, klassid: klass, fields: Seq::empty() }),
    {
        OtObj::VmObj { id: 0, mark: 0u64, klassid: klass, fields: Vec::new() }
    }

    /// An `int[size]` of zeros.
    pub fn int_arr_of(size: i32, obj_id: usize) -> (r: OtObj)
        requires
            size >= 0,
        ensures
            r@ == ObjView::new_array(obj_id, size, ArrView::Int(Seq::new(size as nat, |i: int| 0i32))),
    {
        OtObj::VmArrInt {
            id: obj_id,
            mark: 0u64,
            klassid: 2,
            length: size,
            elements: filled(0i32, size as usize),
        }
    }

    /// A `long[size]` of zeros.
    pub fn long_arr_of(size: i32, obj_id: usize) -> (r: OtObj)
        requires
            size >= 0,
        ensures
            r@ == ObjView::new_array(obj_id, size, ArrView::Long(Seq::new(size as nat, |i: int| 0i64))),
    {
        OtObj::VmArrLong {
            id: obj_id,
            mark: 0u64,
            klassid: 2,
            length: size,
            elements: filled(0i64, size as usize),
        }
    }

    /// A `float[size]` of positive zeros.
    pub fn float_arr_of(size: i32, obj_id: usize) -> (r: OtObj)
        requires
            size >= 0,
        ensures
            r@ == ObjView::new_array(obj_id, size, ArrView::Float(Seq::new(size as nat, |i: int| 0u32))),
    {
        OtObj::VmArrFloat {
            id: obj_id,
            mark: 0u64,
            klassid: 2,
            length: size,
            elements: filled(0u32, size as usize),
        }
    }

    /// A `double[size]` of positive zeros.
    pub fn double_arr_of(size: i32, obj_id: usize) -> (r: OtObj)
        requires
            size >= 0,
        ensures
            r@ == ObjView::new_array(obj_id, size, ArrView::Double(Seq::new(size as nat, |i: int| 0u64))),
    {
        OtObj::VmArrDouble {
            id: obj_id,
            mark: 0u64,
            klassid: 2,
            length: size,
            elements: filled(0u64, size as usize),
        }
    }

    /// A `byte[size]` of zeros.
    pub fn byte_arr_of(size: i32, obj_id: usize) -> (r: OtObj)
        requires
            size >= 0,
        ensures
            r@ == ObjView::new_array(obj_id, size, ArrView::Byte(Seq::new(size as nat, |i: int| 0i8))),
    {
        OtObj::VmArrByte {
            id: obj_id,
            mark: 0u64,
            klassid: 2,
            length: size,
            elements: filled(0i8, size as usize),
        }
    }

    /// A `short[size]` of zeros.
    pub fn short_arr_of(size: i32, obj_id: usize) -> (r: OtObj)
        requires
            size >= 0,
        ensures
            r@ == ObjView::new_array(obj_id, size, ArrView::Short(Seq::new(size as nat, |i: int| 0i16))),
    {
        OtObj::VmArrShort {
            id: obj_id,
            mark: 0u64,
            klassid: 2,
            length: size,
            elements: filled(0i16, size as usize),
        }
    }

    /// A `char[size]` of zeros.
    pub fn char_arr_of(size: i32, obj_id: usize) -> (r: OtObj)
        requires
            size >= 0,
        ensures
            r@ == ObjView::new_array(obj_id, size, ArrView::Char(Seq::new(size as nat, |i: int| 0u16))),
    {
        OtObj::VmArrChar {
            id: obj_id,
            mark: 0u64,
            klassid: 2,
            length: size,
            elements: filled(0u16, size as usize),
        }
    }

    /// A reference array of `size` nulls.
    pub fn ref_arr_of(size: i32, obj_id: usize) -> (r: OtObj)
        requires
            size >= 0,
        ensures
            r@ == ObjView::new_array(obj_id, size, ArrView::Ref(Seq::new(size as nat, |i: int| 0usize))),
    {
        OtObj::VmArrRef {
            id: obj_id,
            mark: 0u64,
            klassid: 2,
            length: size,
            elements: filled(0usize, size as usize),
        }
    }

    /// Sets field `offset` of an instance.
    pub fn put_field(&mut self, offset: usize, val: JvmValue)
        requires
            old(self)@ matches ObjView::Obj { fields, .. } && offset < fields.len(),
        ensures
            final(self)@ == old(self)@.with_field(offset as int, val),
    {
        match self {
            OtObj::VmObj { fields, .. } => {
                fields.set(offset, val);
            },
            _ => {},
        }
    }

    /// The value of field `offset` of an instance.
    pub fn get_field_value(&self, offset: usize) -> (r: JvmValue)
        requires
            self@ matches ObjView::Obj { fields, .. } && offset < fields.len(),
        ensures
            self@ matches ObjView::Obj { fields, .. } && r == fields[offset as int],
    {
        match self {
            OtObj::VmObj { fields, .. } => fields[offset],
            _ => JvmValue::ObjRef(0),
        }
    }

    /// The null object: an instance with id 0, class id 0 and no fields.
    pub fn get_null() -> (r: OtObj)
        ensures
            r@ == (ObjView::Obj { id: 0, mark: 0, klassid: 0, fields: Seq::empty() }),
    {
        OtObj::VmObj { id: 0, mark: 0u64, klassid: 0, fields: Vec::new() }
    }

    /// An object is null when its mark and its class id are both 0.
    pub fn is_null(&self) -> (r: bool)
        ensures
            r == (self@.mark() == 0 && self@.klassid() == 0),
    {
        self.get_mark() == 0u64 && self.get_klassid() == 0
    }

    pub fn get_id(&self) -> (r: usize)
        ensures
            r == self@.id(),
    {
        match self {
            OtObj::VmObj { id, .. } => *id,
            OtObj::VmArrInt { id, .. } => *id,
            OtObj::VmArrLong { id, .. } => *id,
            OtObj::VmArrFloat { id, .. } => *id,
            OtObj::VmArrDouble { id, .. } => *id,
            OtObj::VmArrByte { id, .. } => *id,
            OtObj::VmArrShort { id, .. } => *id,
            OtObj::VmArrChar { id, .. } => *id,
            OtObj::VmArrRef { id, .. } => *id,
        }
    }

    pub fn get_mark(&self) -> (r: u64)
        ensures
            r == self@.mark(),
    {
        match self {
            OtObj::VmObj { mark, .. } => *mark,
            OtObj::VmArrInt { mark, .. } => *mark,
            OtObj::VmArrLong { mark, .. } => *mark,
            OtObj::VmArrFloat { mark, .. } => *mark,
            OtObj::VmArrDouble { mark, .. } => *mark,
            OtObj::VmArrByte { mark, .. } => *mark,
            OtObj::VmArrShort { mark, .. } => *mark,
            OtObj::VmArrChar { mark, .. } => *mark,
            OtObj::VmArrRef { mark, .. } => *mark,
        }
    }

    pub fn get_klassid(&self) -> (r: usize)
        ensures
            r == self@.klassid(),
    {
        match self {
            OtObj::VmObj { klassid, .. } => *klassid,
            OtObj::VmArrInt { klassid, .. } => *klassid,
            OtObj::VmArrLong { klassid, .. } => *klassid,
            OtObj::VmArrFloat { klassid, .. } => *klassid,
            OtObj::VmArrDouble { klassid, .. } => *klassid,
            OtObj::VmArrByte { klassid, .. } => *klassid,
            OtObj::VmArrShort { klassid, .. } => *klassid,
            OtObj::VmArrChar { klassid, .. } => *klassid,
            OtObj::VmArrRef { klassid, .. } => *klassid,
        }
    }

    /// The length of an array.
    pub fn length(&self) -> (r: i32)
        requires
            self@ is Arr,
        ensures
            self@ matches ObjView::Arr { length, .. } && r == length,
    {
        match self {
            OtObj::VmObj { .. } => 0,
            OtObj::VmArrInt { length, .. } => *length,
            OtObj::VmArrLong { length, .. } => *length,
            OtObj::VmArrFloat { length, .. } => *length,
            OtObj::VmArrDouble { length, .. } => *length,
            OtObj::VmArrByte { length, .. } => *length,
            OtObj::VmArrShort { length, .. } => *length,
            OtObj::VmArrChar { length, .. } => *length,
            OtObj::VmArrRef { length, .. } => *length,
        }
    }
}

/// Writing a field of an instance changes that field alone: reading it
/// back gives the value written, every other field keeps its value, and
/// the object keeps its id, mark, class id and number of fields.
pub proof fn law_field_write_then_read(o: ObjView, offset: int, v: JvmValue, other: int)
    requires
        o is Obj,
        0 <= offset < o->fields.len(),
    ensures
        o.with_field(offset, v) is Obj,
        o.with_field(offset, v)->fields.len() == o->fields.len(),
        o.with_field(offset, v)->fields[offset] == v,
        0 <= other < o->fields.len() && other != offset ==> o.with_field(offset, v)->fields[other]
            == o->fields[other],
        o.with_field(offset, v).id() == o.id(),
        o.with_field(offset, v).mark() == o.mark(),
        o.with_field(offset, v).klassid() == o.klassid(),
{
}

} // verus!
