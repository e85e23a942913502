use vstd::prelude::*;

use crate::error::JvmError;
use crate::frame::{Frame, FrameView};
use crate::interp_stack::{peek, pop_n};
use crate::object::{ArrView, ObjView, OtObj};
use crate::opcode;
use crate::simple_heap::{SharedSimpleHeap, elems, store_elems};
use crate::values::JvmValue;

verus! {

/// The array loads, `iaload` to `saload`.
pub open spec fn is_array_load(op: u8) -> bool {
    opcode::IALOAD <= op <= opcode::SALOAD
}

/// The array stores, `iastore` to `sastore`; `0x53` is `astore`, a store
/// into a local variable, and no array store.
pub open spec fn is_array_store(op: u8) -> bool {
    opcode::IASTORE <= op <= opcode::SASTORE && op != opcode::ASTORE
}

/// The instructions that work on arrays on the heap.
pub open spec fn is_array_op(op: u8) -> bool {
    is_array_load(op) || is_array_store(op) || op == opcode::ARRAYLENGTH || op == opcode::NEWARRAY
}

/// The element kind an array instruction works on, counted from its first
/// opcode: int, long, float, double, reference, byte, char, short.
pub open spec fn kind_of(op: u8) -> int {
    if is_array_load(op) {
        (op - opcode::IALOAD) as int
    } else {
        (op - opcode::IASTORE) as int
    }
}

/// Whether the elements `e` have element kind `k`.
pub open spec fn kind_matches(k: int, e: ArrView) -> bool {
    match e {
        ArrView::Int(_) => k == 0,
        ArrView::Long(_) => k == 1,
        ArrView::Float(_) => k == 2,
        ArrView::Double(_) => k == 3,
        ArrView::Ref(_) => k == 4,
        ArrView::Byte(_) => k == 5,
        ArrView::Char(_) => k == 6,
        ArrView::Short(_) => k == 7,
    }
}

/// The value an array load pushes for element `i`: bytes, chars and shorts
/// are widened to ints.
pub open spec fn load_value(e: ArrView, i: int) -> JvmValue {
    match e {
        ArrView::Int(s) => JvmValue::Int(s[i]),
        ArrView::Long(s) => JvmValue::Long(s[i]),
        ArrView::Float(s) => JvmValue::Float(s[i]),
        ArrView::Double(s) => JvmValue::Double(s[i]),
        ArrView::Ref(s) => JvmValue::ObjRef(s[i]),
        ArrView::Byte(s) => JvmValue::Int(s[i] as i32),
        ArrView::Char(s) => JvmValue::Int(s[i] as i32),
        ArrView::Short(s) => JvmValue::Int(s[i] as i32),
    }
}

/// Whether `v` is what an array store of element kind `k` takes: an int
/// for int, byte, char and short arrays.
pub open spec fn store_value_ok(k: int, v: JvmValue) -> bool {
    match v {
        JvmValue::Int(_) => k == 0 || k == 5 || k == 6 || k == 7,
        JvmValue::Long(_) => k == 1,
        JvmValue::Float(_) => k == 2,
        JvmValue::Double(_) => k == 3,
        JvmValue::ObjRef(_) => k == 4,
        _ => false,
    }
}

/// The elements `e` with element `i` set from `v`, narrowed to the
/// element type.
pub open spec fn store_value(e: ArrView, i: int, v: JvmValue) -> ArrView {
    match (e, v) {
        (ArrView::Int(s), JvmValue::Int(x)) => ArrView::Int(s.update(i, x)),
        (ArrView::Long(s), JvmValue::Long(x)) => ArrView::Long(s.update(i, x)),
        (ArrView::Float(s), JvmValue::Float(x)) => ArrView::Float(s.update(i, x)),
        (ArrView::Double(s), JvmValue::Double(x)) => ArrView::Double(s.update(i, x)),
        (ArrView::Ref(s), JvmValue::ObjRef(x)) => ArrView::Ref(s.update(i, x)),
        (ArrView::Byte(s), JvmValue::Int(x)) => ArrView::Byte(s.update(i, x as i8)),
        (ArrView::Char(s), JvmValue::Int(x)) => ArrView::Char(s.update(i, x as u16)),
        (ArrView::Short(s), JvmValue::Int(x)) => ArrView::Short(s.update(i, x as i16)),
        _ => e,
    }
}

/// The reason, if any, that array `id` of `h` cannot be accessed as kind
/// `k` at position `pos`.
pub open spec fn array_access_error(h: Seq<ObjView>, id: int, k: int, pos: int) -> Option<JvmError> {
    if id >= h.len() {
        Some(JvmError::ObjectNotFound)
    } else if !(h[id] is Arr && kind_matches(k, elems(h, id))) {
        Some(JvmError::WrongObjectKind)
    } else if !(0 <= pos < elems(h, id).len()) {
        Some(JvmError::IndexOutOfRange)
    } else {
        None
    }
}

/// The zero-filled elements of a new array of `newarray` type code `t`.
pub open spec fn new_elements(t: u8, size: int) -> ArrView {
    if t == 4 || t == 8 {
        ArrView::Byte(Seq::new(size as nat, |i: int| 0i8))
    } else if t == 5 {
        ArrView::Char(Seq::new(size as nat, |i: int| 0u16))
    } else if t == 6 {
        ArrView::Float(Seq::new(size as nat, |i: int| 0u32))
    } else if t == 7 {
        ArrView::Double(Seq::new(size as nat, |i: int| 0u64))
    } else if t == 9 {
        ArrView::Short(Seq::new(size as nat, |i: int| 0i16))
    } else if t == 10 {
        ArrView::Int(Seq::new(size as nat, |i: int| 0i32))
    } else {
        ArrView::Long(Seq::new(size as nat, |i: int| 0i64))
    }
}

/// The frame and heap after an array instruction, or why it cannot run.
pub open spec fn spec_array_op(op: u8, f: FrameView, h: Seq<ObjView>) -> Result<(FrameView, Seq<ObjView>), JvmError> {
    let s = f.eval;
    if is_array_load(op) {
        if s.len() < 1 {
            Err(JvmError::StackUnderflow)
        } else if !(peek(s, 0) is Int) {
            Err(JvmError::TypeMismatch)
        } else if s.len() < 2 {
            Err(JvmError::StackUnderflow)
        } else if !(peek(s, 1) is ObjRef) {
            Err(JvmError::TypeMismatch)
        } else {
            let pos = peek(s, 0)->Int_0 as int;
            let id = peek(s, 1)->ObjRef_0 as int;
            match array_access_error(h, id, kind_of(op), pos) {
                Some(e) => Err(e),
                None => Ok(
                    (
                        FrameView {
                            eval: pop_n(s, 2).push(load_value(elems(h, id), pos)),
                            pc: f.pc + 1,
                            ..f
                        },
                        h,
                    ),
                ),
            }
        }
    } else if is_array_store(op) {
        if s.len() < 1 {
            Err(JvmError::StackUnderflow)
        } else if !store_value_ok(kind_of(op), peek(s, 0)) {
            Err(JvmError::TypeMismatch)
        } else if s.len() < 2 {
            Err(JvmError::StackUnderflow)
        } else if !(peek(s, 1) is Int) {
            Err(JvmError::TypeMismatch)
        } else if s.len() < 3 {
            Err(JvmError::StackUnderflow)
        } else if !(peek(s, 2) is ObjRef) {
            Err(JvmError::TypeMismatch)
        } else {
            let pos = peek(s, 1)->Int_0 as int;
            let id = peek(s, 2)->ObjRef_0 as int;
            match array_access_error(h, id, kind_of(op), pos) {
                Some(e) => Err(e),
                None => Ok(
                    (
                        FrameView { eval: pop_n(s, 3), pc: f.pc + 1, ..f },
                        store_elems(h, id, store_value(elems(h, id), pos, peek(s, 0))),
                    ),
                ),
            }
        }
    } else if op == opcode::ARRAYLENGTH {
        if s.len() < 1 {
            Err(JvmError::StackUnderflow)
        } else if !(peek(s, 0) is ObjRef) {
            Err(JvmError::TypeMismatch)
        } else {
            let id = peek(s, 0)->ObjRef_0 as int;
            if id >= h.len() {
                Err(JvmError::ObjectNotFound)
            } else {
                match h[id] {
                    ObjView::Arr { length, .. } => Ok(
                        (FrameView { eval: pop_n(s, 1).push(JvmValue::Int(length)), pc: f.pc + 1, ..f }, h),
                    ),
                    ObjView::Obj { .. } => Err(JvmError::WrongObjectKind),
                }
            }
        }
    } else {
        if f.pc + 1 >= f.code.len() {
            Err(JvmError::CodeOverrun)
        } else if s.len() < 1 {
            Err(JvmError::StackUnderflow)
        } else if !(peek(s, 0) is Int) {
            Err(JvmError::TypeMismatch)
        } else {
            let t = f.code[f.pc + 1];
            let size = peek(s, 0)->Int_0;
            if !(4 <= t <= 11) {
                Err(JvmError::UnsupportedArrayType)
            } else if size < 0 {
                Err(JvmError::NegativeArraySize)
            } else if h.len() >= usize::MAX {
                Err(JvmError::OutOfMemory)
            } else {
                Ok(
                    (
                        FrameView {
                            eval: pop_n(s, 1).push(JvmValue::ObjRef(h.len() as usize)),
                            pc: f.pc + 2,
                            ..f
                        },
                        h.push(ObjView::new_array(h.len() as usize, size, new_elements(t, size as int))),
                    ),
                )
            }
        }
    }
}

/// Checks that array `id` has kind `k` and a position `pos`.
fn check_array(heap: &SharedSimpleHeap, id: usize, k: u8, pos: i32) -> (r: Result<(), JvmError>)
    requires
        heap.wf(),
    ensures
        match array_access_error(heap@, id as int, k as int, pos as int) {
            Some(e) => r == Err::<(), JvmError>(e),
            None => r is Ok,
        },
{
    if id >= heap.len() {
        return Err(JvmError::ObjectNotFound);
    }
    let (kind, len): (u8, usize) = match heap.get_obj(id) {
        OtObj::VmObj { .. } => {
            return Err(JvmError::WrongObjectKind);
        },
        OtObj::VmArrInt { elements, .. } => (0, elements.len()),
        OtObj::VmArrLong { elements, .. } => (1, elements.len()),
        OtObj::VmArrFloat { elements, .. } => (2, elements.len()),
        OtObj::VmArrDouble { elements, .. } => (3, elements.len()),
        OtObj::VmArrRef { elements, .. } => (4, elements.len()),
        OtObj::VmArrByte { elements, .. } => (5, elements.len()),
        OtObj::VmArrChar { elements, .. } => (6, elements.len()),
        OtObj::VmArrShort { elements, .. } => (7, elements.len()),
    };
    if kind != k {
        return Err(JvmError::WrongObjectKind);
    }
    if pos < 0 || pos as usize >= len {
        return Err(JvmError::IndexOutOfRange);
    }
    Ok(())
}

impl Frame {
    /// Runs an array instruction (see `spec_array_op`).
    pub fn exec_array_op(&mut self, op: u8, heap: &mut SharedSimpleHeap) -> (r: Result<(), JvmError>)
        requires
            is_array_op(op),
            old(self).pc < old(self).code.len(),
            old(heap).wf(),
        ensures
            final(heap).wf(),
            match spec_array_op(op, old(self)@, old(heap)@) {
                Ok((g, h)) => r is Ok && final(self)@ == g && final(heap)@ == h,
                Err(e) => r == Err::<(), JvmError>(e) && final(heap)@ == old(heap)@,
            },
    {
        let ghost s = self.eval@;
        if opcode::IALOAD <= op && op <= opcode::SALOAD {
            if self.eval.len() < 1 {
                return Err(JvmError::StackUnderflow);
            }
            let pos = match self.eval.peek(0) {
                JvmValue::Int(p) => p,
                _ => {
                    return Err(JvmError::TypeMismatch);
                },
            };
            if self.eval.len() < 2 {
                return Err(JvmError::StackUnderflow);
            }
            let id = match self.eval.peek(1) {
                JvmValue::ObjRef(i) => i,
                _ => {
                    return Err(JvmError::TypeMismatch);
                },
            };
            let k = op - opcode::IALOAD;
            match check_array(heap, id, k, pos) {
                Ok(()) => {},
                Err(e) => {
                    return Err(e);
                },
            }
            let v = if k == 0 {
                JvmValue::Int(heap.iaload(id, pos))
            } else if k == 1 {
                JvmValue::Long(heap.laload(id, pos))
            } else if k == 2 {
                JvmValue::Float(heap.faload(id, pos))
            } else if k == 3 {
                JvmValue::Double(heap.daload(id, pos))
            } else if k == 4 {
                JvmValue::ObjRef(heap.aaload(id, pos))
            } else if k == 5 {
                JvmValue::Int(heap.baload(id, pos) as i32)
            } else if k == 6 {
                JvmValue::Int(heap.caload(id, pos) as i32)
            } else {
                JvmValue::Int(heap.saload(id, pos) as i32)
            };
            self.eval.pop();
            self.eval.pop();
            self.eval.push(v);
            self.pc = self.pc + 1;
            proof {
                assert(s.drop_last().drop_last() =~= pop_n(s, 2));
            }
            Ok(())
        } else if opcode::IASTORE <= op && op <= opcode::SASTORE && op != opcode::ASTORE {
            let k = op - opcode::IASTORE;
            if self.eval.len() < 1 {
                return Err(JvmError::StackUnderflow);
            }
            let v = self.eval.peek(0);
            let ok = match v {
                JvmValue::Int(_) => k == 0 || k == 5 || k == 6 || k == 7,
                JvmValue::Long(_) => k == 1,
                JvmValue::Float(_) => k == 2,
                JvmValue::Double(_) => k == 3,
                JvmValue::ObjRef(_) => k == 4,
                _ => false,
            };
            if !ok {
                return Err(JvmError::TypeMismatch);
            }
            if self.eval.len() < 2 {
                return Err(JvmError::StackUnderflow);
            }
            let pos = match self.eval.peek(1) {
                JvmValue::Int(p) => p,
                _ => {
                    return Err(JvmError::TypeMismatch);
                },
            };
            if self.eval.len() < 3 {
                return Err(JvmError::StackUnderflow);
            }
            let id = match self.eval.peek(2) {
                JvmValue::ObjRef(i) => i,
                _ => {
                    return Err(JvmError::TypeMismatch);
                },
            };
            match check_array(heap, id, k, pos) {
                Ok(()) => {},
                Err(e) => {
                    return Err(e);
                },
            }
            match v {
                JvmValue::Int(x) => {
                    if k == 0 {
                        heap.iastore(id, pos, x);
                    } else if k == 5 {
                        heap.bastore(id, pos, x as i8);
                    } else if k == 6 {
                        heap.castore(id, pos, x as u16);
                    } else {
                        heap.sastore(id, pos, x as i16);
                    }
                },
                JvmValue::Long(x) => heap.lastore(id, pos, x),
                JvmValue::Float(x) => heap.fastore(id, pos, x),
                JvmValue::Double(x) => heap.dastore(id, pos, x),
                JvmValue::ObjRef(x) => heap.aastore(id, pos, x),
                _ => {},
            }
            self.eval.pop();
            self.eval.pop();
            self.eval.pop();
            self.pc = self.pc + 1;
            proof {
                assert(s.drop_last().drop_last().drop_last() =~= pop_n(s, 3));
            }
            Ok(())
        } else if op == opcode::ARRAYLENGTH {
            if self.eval.len() < 1 {
                return Err(JvmError::StackUnderflow);
            }
            let id = match self.eval.peek(0) {
                JvmValue::ObjRef(i) => i,
                _ => {
                    return Err(JvmError::TypeMismatch);
                },
            };
            if id >= heap.len() {
                return Err(JvmError::ObjectNotFound);
            }
            let is_arr = match heap.get_obj(id) {
                OtObj::VmObj { .. } => false,
                _ => true,
            };
            if !is_arr {
                return Err(JvmError::WrongObjectKind);
            }
            let len = heap.arraylength(id);
            self.eval.pop();
            self.eval.push(JvmValue::Int(len));
            self.pc = self.pc + 1;
            proof {
                assert(s.drop_last() =~= pop_n(s, 1));
            }
            Ok(())
        } else {
            let pc = self.pc;
            if self.code.len() - pc <= 1 {
                return Err(JvmError::CodeOverrun);
            }
            let t = self.code[pc + 1];
            if self.eval.len() < 1 {
                return Err(JvmError::StackUnderflow);
            }
            let size = match self.eval.peek(0) {
                JvmValue::Int(v) => v,
                _ => {
                    return Err(JvmError::TypeMismatch);
                },
            };
            if t < 4 || t > 11 {
                return Err(JvmError::UnsupportedArrayType);
            }
            if size < 0 {
                return Err(JvmError::NegativeArraySize);
            }
            if heap.len() == usize::MAX {
                return Err(JvmError::OutOfMemory);
            }
            let arr_id = if t == 4 || t == 8 {
                heap.allocate_byte_arr(size)
            } else if t == 5 {
                heap.allocate_char_arr(size)
            } else if t == 6 {
                heap.allocate_float_arr(size)
            } else if t == 7 {
                heap.allocate_double_arr(size)
            } else if t == 9 {
                heap.allocate_short_arr(size)
            } else if t == 10 {
                heap.allocate_int_arr(size)
            } else {
                heap.allocate_long_arr(size)
            };
            self.eval.pop();
            self.eval.push(JvmValue::ObjRef(arr_id));
            self.pc = pc + 2;
            proof {
                assert(s.drop_last() =~= pop_n(s, 1));
            }
            Ok(())
        }
    }
}

} // verus!
