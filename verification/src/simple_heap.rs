use vstd::prelude::*;

use crate::object::{ArrView, ObjView, OtObj};
use crate::otfield::{OtField, default_for_descriptor};
use crate::otklass::OtKlass;
use crate::values::JvmValue;

verus! {

/// The elements of array `id` of a heap.
pub open spec fn elems(h: Seq<ObjView>, id: int) -> ArrView {
    match h[id] {
        ObjView::Arr { elements, .. } => elements,
        ObjView::Obj { .. } => ArrView::Ref(Seq::empty()),
    }
}

/// The heap with the elements of array `id` replaced by `e`.
pub open spec fn store_elems(h: Seq<ObjView>, id: int, e: ArrView) -> Seq<ObjView> {
    h.update(id, h[id].with_elements(e))
}

/// A heap of objects, addressed by id. The object with id `i` is at
/// position `i`; position 0 holds the null object, and new objects take
/// the next id.
#[derive(Debug)]
pub struct SharedSimpleHeap {
    obj_count: usize,
    alloc: Vec<OtObj>,
}

impl View for SharedSimpleHeap {
    type V = Seq<ObjView>;

    closed spec fn view(&self) -> Seq<ObjView> {
        self.alloc@.map_values(|o: OtObj| o@)
    }
}

impl SharedSimpleHeap {
    /// The id the next object will take.
    pub closed spec fn spec_obj_count(&self) -> usize {
        self.obj_count
    }

    /// Every object sits at the position of its id, the next id is the
    /// number of objects, and every array's length agrees with its elements.
    pub open spec fn wf(&self) -> bool {
        &&& self.spec_obj_count() == self@.len()
        &&& forall|i: int|
            0 <= i < self@.len() ==> (#[trigger] self@[i]).id() == i && self@[i].well_formed()
    }

    /// A heap holding only the null object.
    pub fn of() -> (r: SharedSimpleHeap)
        ensures
            r.wf(),
            r@ == seq![ObjView::Obj { id: 0, mark: 0, klassid: 0, fields: Seq::empty() }],
    {
        let mut alloc: Vec<OtObj> = Vec::new();
        alloc.push(OtObj::get_null());
        let r = SharedSimpleHeap { obj_count: 1, alloc };
        proof {
            assert(r@ =~= seq![ObjView::Obj { id: 0, mark: 0, klassid: 0, fields: Seq::empty() }]);
        }
        r
    }

    /// The number of objects, which is also the id the next object takes.
    pub fn len(&self) -> (r: usize)
        requires
            self.wf(),
        ensures
            r == self@.len(),
    {
        self.obj_count
    }

    /// Adds `obj`, which must carry the next id.
    fn push_obj(&mut self, obj: OtObj) -> (r: usize)
        requires
            old(self).wf(),
            old(self)@.len() < usize::MAX,
            obj@.id() == old(self)@.len(),
            obj@.well_formed(),
        ensures
            final(self).wf(),
            r == old(self)@.len(),
            final(self)@ == old(self)@.push(obj@),
    {
        let obj_id = self.obj_count;
        let ghost old_view = self@;
        let ghost ov = obj@;
        self.alloc.push(obj);
        self.obj_count = obj_id + 1;
        proof {
            assert(self@ =~= old_view.push(ov));
        }
        obj_id
    }

    /// Allocates an instance of `klass` with every field at its zero value.
    pub fn allocate_obj(&mut self, klass: &OtKlass) -> (r: usize)
        requires
            old(self).wf(),
            old(self)@.len() < usize::MAX,
        ensures
            final(self).wf(),
            r == old(self)@.len(),
            final(self)@ == old(self)@.push(
                ObjView::Obj {
                    id: r,
                    mark: 0,
                    klassid: klass@.id,
                    fields: klass@.i_fields.map_values(|f: OtField| default_for_descriptor(f.spec_desc())),
                },
            ),
    {
        let klass_id = klass.get_id();
        let obj_id = self.obj_count;
        let out = OtObj::obj_of(klass_id, obj_id, klass.make_default_values());
        self.push_obj(out)
    }

    /// Allocates an `int[size]` of zeros.
    pub fn allocate_int_arr(&mut self, size: i32) -> (r: usize)
        requires
            old(self).wf(),
            old(self)@.len() < usize::MAX,
            size >= 0,
        ensures
            final(self).wf(),
            r == old(self)@.len(),
            final(self)@ == old(self)@.push(
                ObjView::new_array(r, size, ArrView::Int(Seq::new(size as nat, |i: int| 0i32))),
            ),
    {
        let obj_id = self.obj_count;
        let out = OtObj::int_arr_of(size, obj_id);
        self.push_obj(out)
    }

    /// The object with id `id`.
    pub fn get_obj(&self, id: usize) -> (r: &OtObj)
        requires
            self.wf(),
            id < self@.len(),
        ensures
            r@ == self@[id as int],
    {
        &self.alloc[id]
    }

    /// Stores `v` at position `pos` of the `int[]` with id `id`.
    pub fn iastore(&mut self, id: usize, pos: i32, v: i32)
        requires
            old(self).wf(),
            id < old(self)@.len(),
            elems(old(self)@, id as int) matches ArrView::Int(es) && 0 <= pos < es.len(),
        ensures
            final(self).wf(),
            elems(old(self)@, id as int) matches ArrView::Int(es) && final(self)@ == store_elems(
                old(self)@,
                id as int,
                ArrView::Int(es.update(pos as int, v)),
            ),
    {
        let ghost old_view = self@;
        let idx = pos as usize;
        match &mut self.alloc[id] {
            OtObj::VmArrInt { elements, .. } => {
                elements.set(idx, v);
            },
            _ => {},
        }
        proof {
            let es = elems(old_view, id as int)->Int_0;
            assert(self@ =~= store_elems(old_view, id as int, ArrView::Int(es.update(pos as int, v))));
        }
    }

    /// The element at position `pos` of the `int[]` with id `id`.
    pub fn iaload(&self, id: usize, pos: i32) -> (r: i32)
        requires
            self.wf(),
            id < self@.len(),
            elems(self@, id as int) matches ArrView::Int(es) && 0 <= pos < es.len(),
        ensures
            elems(self@, id as int) matches ArrView::Int(es) && r == es[pos as int],
    {
        let idx = pos as usize;
        match &self.alloc[id] {
            OtObj::VmArrInt { elements, .. } => elements[idx],
            _ => 0,
        }
    }

    /// Allocates a `long` array of `size` zero elements.
    pub fn allocate_long_arr(&mut self, size: i32) -> (r: usize)
        requires
            old(self).wf(),
            old(self)@.len() < usize::MAX,
            size >= 0,
        ensures
            final(self).wf(),
            r == old(self)@.len(),
            final(self)@ == old(self)@.push(
                ObjView::new_array(r, size, ArrView::Long(Seq::new(size as nat, |i: int| 0i64))),
            ),
    {
        let obj_id = self.obj_count;
        let out = OtObj::long_arr_of(size, obj_id);
        self.push_obj(out)
    }

    /// Stores `v` at position `pos` of the long[] with id `id`.
    pub fn lastore(&mut self, id: usize, pos: i32, v: i64)
        requires
            old(self).wf(),
            id < old(self)@.len(),
            elems(old(self)@, id as int) matches ArrView::Long(es) && 0 <= pos < es.len(),
        ensures
            final(self).wf(),
            elems(old(self)@, id as int) matches ArrView::Long(es) && final(self)@ == store_elems(
                old(self)@,
                id as int,
                ArrView::Long(es.update(pos as int, v)),
            ),
    {
        let ghost old_view = self@;
        let idx = pos as usize;
        match &mut self.alloc[id] {
            OtObj::VmArrLong { elements, .. } => {
                elements.set(idx, v);
            },
            _ => {},
        }
        proof {
            let es = elems(old_view, id as int)->Long_0;
            assert(self@ =~= store_elems(old_view, id as int, ArrView::Long(es.update(pos as int, v))));
        }
    }

    /// The element at position `pos` of the long[] with id `id`.
    pub fn laload(&self, id: usize, pos: i32) -> (r: i64)
        requires
            self.wf(),
            id < self@.len(),
            elems(self@, id as int) matches ArrView::Long(es) && 0 <= pos < es.len(),
        ensures
            elems(self@, id as int) matches ArrView::Long(es) && r == es[pos as int],
    {
        let idx = pos as usize;
        match &self.alloc[id] {
            OtObj::VmArrLong { elements, .. } => elements[idx],
            _ => 0i64,
        }
    }

    /// Allocates a `float` array of `size` zero elements.
    pub fn allocate_float_arr(&mut self, size: i32) -> (r: usize)
        requires
            old(self).wf(),
            old(self)@.len() < usize::MAX,
            size >= 0,
        ensures
            final(self).wf(),
            r == old(self)@.len(),
            final(self)@ == old(self)@.push(
                ObjView::new_array(r, size, ArrView::Float(Seq::new(size as nat, |i: int| 0u32))),
            ),
    {
        let obj_id = self.obj_count;
        let out = OtObj::float_arr_of(size, obj_id);
        self.push_obj(out)
    }

    /// Stores `v` at position `pos` of the float[] (elements are bit patterns) with id `id`.
    pub fn fastore(&mut self, id: usize, pos: i32, v: u32)
        requires
            old(self).wf(),
            id < old(self)@.len(),
            elems(old(self)@, id as int) matches ArrView::Float(es) && 0 <= pos < es.len(),
        ensures
            final(self).wf(),
            elems(old(self)@, id as int) matches ArrView::Float(es) && final(self)@ == store_elems(
                old(self)@,
                id as int,
                ArrView::Float(es.update(pos as int, v)),
            ),
    {
        let ghost old_view = self@;
        let idx = pos as usize;
        match &mut self.alloc[id] {
            OtObj::VmArrFloat { elements, .. } => {
                elements.set(idx, v);
            },
            _ => {},
        }
        proof {
            let es = elems(old_view, id as int)->Float_0;
            assert(self@ =~= store_elems(old_view, id as int, ArrView::Float(es.update(pos as int, v))));
        }
    }

    /// The element at position `pos` of the float[] (elements are bit patterns) with id `id`.
    pub fn faload(&self, id: usize, pos: i32) -> (r: u32)
        requires
            self.wf(),
            id < self@.len(),
            elems(self@, id as int) matches ArrView::Float(es) && 0 <= pos < es.len(),
        ensures
            elems(self@, id as int) matches ArrView::Float(es) && r == es[pos as int],
    {
        let idx = pos as usize;
        match &self.alloc[id] {
            OtObj::VmArrFloat { elements, .. } => elements[idx],
            _ => 0u32,
        }
    }

    /// Allocates a `double` array of `size` zero elements.
    pub fn allocate_double_arr(&mut self, size: i32) -> (r: usize)
        requires
            old(self).wf(),
            old(self)@.len() < usize::MAX,
            size >= 0,
        ensures
            final(self).wf(),
            r == old(self)@.len(),
            final(self)@ == old(self)@.push(
                ObjView::new_array(r, size, ArrView::Double(Seq::new(size as nat, |i: int| 0u64))),
            ),
    {
        let obj_id = self.obj_count;
        let out = OtObj::double_arr_of(size, obj_id);
        self.push_obj(out)
    }

    /// Stores `v` at position `pos` of the double[] (elements are bit patterns) with id `id`.
    pub fn dastore(&mut self, id: usize, pos: i32, v: u64)
        requires
            old(self).wf(),
            id < old(self)@.len(),
            elems(old(self)@, id as int) matches ArrView::Double(es) && 0 <= pos < es.len(),
        ensures
            final(self).wf(),
            elems(old(self)@, id as int) matches ArrView::Double(es) && final(self)@ == store_elems(
                old(self)@,
                id as int,
                ArrView::Double(es.update(pos as int, v)),
            ),
    {
        let ghost old_view = self@;
        let idx = pos as usize;
        match &mut self.alloc[id] {
            OtObj::VmArrDouble { elements, .. } => {
                elements.set(idx, v);
            },
            _ => {},
        }
        proof {
            let es = elems(old_view, id as int)->Double_0;
            assert(self@ =~= store_elems(old_view, id as int, ArrView::Double(es.update(pos as int, v))));
        }
    }

    /// The element at position `pos` of the double[] (elements are bit patterns) with id `id`.
    pub fn daload(&self, id: usize, pos: i32) -> (r: u64)
        requires
            self.wf(),
            id < self@.len(),
            elems(self@, id as int) matches ArrView::Double(es) && 0 <= pos < es.len(),
        ensures
            elems(self@, id as int) matches ArrView::Double(es) && r == es[pos as int],
    {
        let idx = pos as usize;
        match &self.alloc[id] {
            OtObj::VmArrDouble { elements, .. } => elements[idx],
            _ => 0u64,
        }
    }

    /// Allocates a `byte` array of `size` zero elements.
    pub fn allocate_byte_arr(&mut self, size: i32) -> (r: usize)
        requires
            old(self).wf(),
            old(self)@.len() < usize::MAX,
            size >= 0,
        ensures
            final(self).wf(),
            r == old(self)@.len(),
            final(self)@ == old(self)@.push(
                ObjView::new_array(r, size, ArrView::Byte(Seq::new(size as nat, |i: int| 0i8))),
            ),
    {
        let obj_id = self.obj_count;
        let out = OtObj::byte_arr_of(size, obj_id);
        self.push_obj(out)
    }

    /// Stores `v` at position `pos` of the byte[] with id `id`.
    pub fn bastore(&mut self, id: usize, pos: i32, v: i8)
        requires
            old(self).wf(),
            id < old(self)@.len(),
            elems(old(self)@, id as int) matches ArrView::Byte(es) && 0 <= pos < es.len(),
        ensures
            final(self).wf(),
            elems(old(self)@, id as int) matches ArrView::Byte(es) && final(self)@ == store_elems(
                old(self)@,
                id as int,
                ArrView::Byte(es.update(pos as int, v)),
            ),
    {
        let ghost old_view = self@;
        let idx = pos as usize;
        match &mut self.alloc[id] {
            OtObj::VmArrByte { elements, .. } => {
                elements.set(idx, v);
            },
            _ => {},
        }
        proof {
            let es = elems(old_view, id as int)->Byte_0;
            assert(self@ =~= store_elems(old_view, id as int, ArrView::Byte(es.update(pos as int, v))));
        }
    }

    /// The element at position `pos` of the byte[] with id `id`.
    pub fn baload(&self, id: usize, pos: i32) -> (r: i8)
        requires
            self.wf(),
            id < self@.len(),
            elems(self@, id as int) matches ArrView::Byte(es) && 0 <= pos < es.len(),
        ensures
            elems(self@, id as int) matches ArrView::Byte(es) && r == es[pos as int],
    {
        let idx = pos as usize;
        match &self.alloc[id] {
            OtObj::VmArrByte { elements, .. } => elements[idx],
            _ => 0i8,
        }
    }

    /// Allocates a `short` array of `size` zero elements.
    pub fn allocate_short_arr(&mut self, size: i32) -> (r: usize)
        requires
            old(self).wf(),
            old(self)@.len() < usize::MAX,
            size >= 0,
        ensures
            final(self).wf(),
            r == old(self)@.len(),
            final(self)@ == old(self)@.push(
                ObjView::new_array(r, size, ArrView::Short(Seq::new(size as nat, |i: int| 0i16))),
            ),
    {
        let obj_id = self.obj_count;
        let out = OtObj::short_arr_of(size, obj_id);
        self.push_obj(out)
    }

    /// Stores `v` at position `pos` of the short[] with id `id`.
    pub fn sastore(&mut self, id: usize, pos: i32, v: i16)
        requires
            old(self).wf(),
            id < old(self)@.len(),
            elems(old(self)@, id as int) matches ArrView::Short(es) && 0 <= pos < es.len(),
        ensures
            final(self).wf(),
            elems(old(self)@, id as int) matches ArrView::Short(es) && final(self)@ == store_elems(
                old(self)@,
                id as int,
                ArrView::Short(es.update(pos as int, v)),
            ),
    {
        let ghost old_view = self@;
        let idx = pos as usize;
        match &mut self.alloc[id] {
            OtObj::VmArrShort { elements, .. } => {
                elements.set(idx, v);
            },
            _ => {},
        }
        proof {
            let es = elems(old_view, id as int)->Short_0;
            assert(self@ =~= store_elems(old_view, id as int, ArrView::Short(es.update(pos as int, v))));
        }
    }

    /// The element at position `pos` of the short[] with id `id`.
    pub fn saload(&self, id: usize, pos: i32) -> (r: i16)
        requires
            self.wf(),
            id < self@.len(),
            elems(self@, id as int) matches ArrView::Short(es) && 0 <= pos < es.len(),
        ensures
            elems(self@, id as int) matches ArrView::Short(es) && r == es[pos as int],
    {
        let idx = pos as usize;
        match &self.alloc[id] {
            OtObj::VmArrShort { elements, .. } => elements[idx],
            _ => 0i16,
        }
    }

    /// Allocates a `char` array of `size` zero elements.
    pub fn allocate_char_arr(&mut self, size: i32) -> (r: usize)
        requires
            old(self).wf(),
            old(self)@.len() < usize::MAX,
            size >= 0,
        ensures
            final(self).wf(),
            r == old(self)@.len(),
            final(self)@ == old(self)@.push(
                ObjView::new_array(r, size, ArrView::Char(Seq::new(size as nat, |i: int| 0u16))),
            ),
    {
        let obj_id = self.obj_count;
        let out = OtObj::char_arr_of(size, obj_id);
        self.push_obj(out)
    }

    /// Stores `v` at position `pos` of the char[] with id `id`.
    pub fn castore(&mut self, id: usize, pos: i32, v: u16)
        requires
            old(self).wf(),
            id < old(self)@.len(),
            elems(old(self)@, id as int) matches ArrView::Char(es) && 0 <= pos < es.len(),
        ensures
            final(self).wf(),
            elems(old(self)@, id as int) matches ArrView::Char(es) && final(self)@ == store_elems(
                old(self)@,
                id as int,
                ArrView::Char(es.update(pos as int, v)),
            ),
    {
        let ghost old_view = self@;
        let idx = pos as usize;
        match &mut self.alloc[id] {
            OtObj::VmArrChar { elements, .. } => {
                elements.set(idx, v);
            },
            _ => {},
        }
        proof {
            let es = elems(old_view, id as int)->Char_0;
            assert(self@ =~= store_elems(old_view, id as int, ArrView::Char(es.update(pos as int, v))));
        }
    }

    /// The element at position `pos` of the char[] with id `id`.
    pub fn caload(&self, id: usize, pos: i32) -> (r: u16)
        requires
            self.wf(),
            id < self@.len(),
            elems(self@, id as int) matches ArrView::Char(es) && 0 <= pos < es.len(),
        ensures
            elems(self@, id as int) matches ArrView::Char(es) && r == es[pos as int],
    {
        let idx = pos as usize;
        match &self.alloc[id] {
            OtObj::VmArrChar { elements, .. } => elements[idx],
            _ => 0u16,
        }
    }

    /// Allocates a `ref` array of `size` zero elements.
    pub fn allocate_ref_arr(&mut self, size: i32) -> (r: usize)
        requires
            old(self).wf(),
            old(self)@.len() < usize::MAX,
            size >= 0,
        ensures
            final(self).wf(),
            r == old(self)@.len(),
            final(self)@ == old(self)@.push(
                ObjView::new_array(r, size, ArrView::Ref(Seq::new(size as nat, |i: int| 0usize))),
            ),
    {
        let obj_id = self.obj_count;
        let out = OtObj::ref_arr_of(size, obj_id);
        self.push_obj(out)
    }

    /// Stores `v` at position `pos` of the reference array with id `id`.
    pub fn aastore(&mut self, id: usize, pos: i32, v: usize)
        requires
            old(self).wf(),
            id < old(self)@.len(),
            elems(old(self)@, id as int) matches ArrView::Ref(es) && 0 <= pos < es.len(),
        ensures
            final(self).wf(),
            elems(old(self)@, id as int) matches ArrView::Ref(es) && final(self)@ == store_elems(
                old(self)@,
                id as int,
                ArrView::Ref(es.update(pos as int, v)),
            ),
    {
        let ghost old_view = self@;
        let idx = pos as usize;
        match &mut self.alloc[id] {
            OtObj::VmArrRef { elements, .. } => {
                elements.set(idx, v);
            },
            _ => {},
        }
        proof {
            let es = elems(old_view, id as int)->Ref_0;
            assert(self@ =~= store_elems(old_view, id as int, ArrView::Ref(es.update(pos as int, v))));
        }
    }

    /// The element at position `pos` of the reference array with id `id`.
    pub fn aaload(&self, id: usize, pos: i32) -> (r: usize)
        requires
            self.wf(),
            id < self@.len(),
            elems(self@, id as int) matches ArrView::Ref(es) && 0 <= pos < es.len(),
        ensures
            elems(self@, id as int) matches ArrView::Ref(es) && r == es[pos as int],
    {
        let idx = pos as usize;
        match &self.alloc[id] {
            OtObj::VmArrRef { elements, .. } => elements[idx],
            _ => 0usize,
        }
    }

    /// Sets the field at `f`'s offset of the instance with id `id`.
    pub fn put_field(&mut self, id: usize, f: OtField, v: JvmValue)
        requires
            old(self).wf(),
            id < old(self)@.len(),
            old(self)@[id as int] matches ObjView::Obj { fields, .. } && f.spec_offset() < fields.len(),
        ensures
            final(self).wf(),
            final(self)@ == old(self)@.update(
                id as int,
                old(self)@[id as int].with_field(f.spec_offset() as int, v),
            ),
    {
        let ghost old_view = self@;
        let offset = f.get_offset() as usize;
        self.alloc[id].put_field(offset, v);
        proof {
            assert(self@ =~= old_view.update(id as int, old_view[id as int].with_field(offset as int, v)));
        }
    }

    /// The value of field `offset` of the instance with id `id`.
    pub fn get_field(&self, id: usize, offset: u16) -> (r: JvmValue)
        requires
            self.wf(),
            id < self@.len(),
            self@[id as int] matches ObjView::Obj { fields, .. } && offset < fields.len(),
        ensures
            self@[id as int] matches ObjView::Obj { fields, .. } && r == fields[offset as int],
    {
        self.alloc[id].get_field_value(offset as usize)
    }

    /// The length of the array with id `id`.
    pub fn arraylength(&self, id: usize) -> (r: i32)
        requires
            self.wf(),
            id < self@.len(),
            self@[id as int] is Arr,
        ensures
            self@[id as int] matches ObjView::Arr { length, .. } && r == length,
    {
        self.alloc[id].length()
    }
}

/// A store into an array replaces that array's elements and nothing else:
/// the heap keeps its size, the array keeps its id, and every other object
/// is unchanged.
pub proof fn law_store_touches_only_its_array(h: Seq<ObjView>, id: int, e: ArrView, other: int)
    requires
        0 <= id < h.len(),
        h[id] is Arr,
    ensures
        store_elems(h, id, e).len() == h.len(),
        elems(store_elems(h, id, e), id) == e,
        store_elems(h, id, e)[id].id() == h[id].id(),
        0 <= other < h.len() && other != id ==> store_elems(h, id, e)[other] == h[other],
{
}

/// Reading an `int[]` element gives back what the last store there wrote;
/// the other elements keep their values.
pub proof fn law_int_load_after_store(h: Seq<ObjView>, id: int, pos: int, v: i32, other: int)
    requires
        0 <= id < h.len(),
        elems(h, id) matches ArrView::Int(es) && 0 <= pos < es.len() && 0 <= other < es.len(),
        h[id] is Arr,
    ensures
        elems(h, id) matches ArrView::Int(es) && elems(
            store_elems(h, id, ArrView::Int(es.update(pos, v))),
            id,
        ) matches ArrView::Int(es2) && es2[pos] == v && (other != pos ==> es2[other] == es[other]),
{
}

/// A new object's id is that of no object already on the heap.
pub proof fn law_new_id_is_fresh(h: &SharedSimpleHeap)
    requires
        h.wf(),
    ensures
        forall|i: int| 0 <= i < h@.len() ==> (#[trigger] h@[i]).id() != h@.len(),
{
}

} // verus!
