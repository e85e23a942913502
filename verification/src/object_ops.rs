use vstd::prelude::*;

use crate::class_format::{be16, read_u16_at};
use crate::constant_pool::{ACC_NATIVE, CpEntry};
use crate::error::JvmError;
use crate::frame::{Frame, FrameView};
use crate::interp_stack::{peek, pop_n};
use crate::klass_repo::{SharedKlassRepo, StatusView, spec_lookup, spec_lookup_field, spec_lookup_method};
use crate::local_vars::InterpLocalVars;
use crate::native_methods::NativeMethod;
use crate::object::{ObjView, OtObj};
use crate::opcode;
use crate::otfield::{OtField, default_for_descriptor};
use crate::otklass::{cp_string, first_field_index, method_arg_count};
use crate::simple_heap::SharedSimpleHeap;
use crate::values::JvmValue;

verus! {

/// The instructions that use the constant pool to reach classes, fields
/// and constants.
pub open spec fn is_object_op(op: u8) -> bool {
    op == opcode::LDC || op == opcode::LDC2_W || op == opcode::NEW || op == opcode::GETFIELD || op
        == opcode::PUTFIELD || op == opcode::GETSTATIC || op == opcode::PUTSTATIC
}

/// The method invocations.
pub open spec fn is_invoke_op(op: u8) -> bool {
    op == opcode::INVOKEVIRTUAL || op == opcode::INVOKESPECIAL || op == opcode::INVOKESTATIC
}

/// The two-byte constant-pool index that follows the instruction at `pc`.
pub open spec fn index16(f: FrameView) -> u16 {
    be16(f.code, f.pc + 1) as u16
}

/// The frame after `ldc` or `ldc2_w` of entry `idx`: classes and strings
/// push null, doubles and ints their value; other entries are refused.
pub open spec fn spec_ldc(m: Map<Seq<char>, StatusView>, f: FrameView, idx: u16, len: int) -> Result<
    FrameView,
    JvmError,
> {
    match spec_lookup(m, f.klass_name) {
        Err(e) => Err(e),
        Ok(cur) => if idx >= cur.cp.len() {
            Err(JvmError::BadConstantPoolIndex(idx))
        } else {
            let v = match cur.cp[idx as int] {
                CpEntry::Class(_) => Some(JvmValue::ObjRef(0)),
                CpEntry::String(_) => Some(JvmValue::ObjRef(0)),
                CpEntry::Double(d) => Some(JvmValue::Double(d)),
                CpEntry::Integer(i) => Some(JvmValue::Int(i)),
                _ => None,
            };
            match v {
                Some(v) => Ok(FrameView { eval: f.eval.push(v), pc: f.pc + len, ..f }),
                None => Err(JvmError::BadConstantPoolIndex(idx)),
            }
        },
    }
}

/// The frame and heap after an instruction that uses the constant pool, or
/// why it cannot run.
pub open spec fn spec_object_op(op: u8, f: FrameView, h: Seq<ObjView>, m: Map<Seq<char>, StatusView>) -> Result<
    (FrameView, Seq<ObjView>),
    JvmError,
> {
    let pc = f.pc;
    let s = f.eval;
    if op == opcode::LDC {
        if pc + 1 >= f.code.len() {
            Err(JvmError::CodeOverrun)
        } else {
            match spec_ldc(m, f, f.code[pc + 1] as u16, 2) {
                Ok(g) => Ok((g, h)),
                Err(e) => Err(e),
            }
        }
    } else if pc + 2 >= f.code.len() {
        Err(JvmError::CodeOverrun)
    } else {
        let idx = index16(f);
        if op == opcode::LDC2_W {
            match spec_ldc(m, f, idx, 3) {
                Ok(g) => Ok((g, h)),
                Err(e) => Err(e),
            }
        } else if op == opcode::NEW {
            match spec_lookup(m, f.klass_name) {
                Err(e) => Err(e),
                Ok(cur) => if idx >= cur.cp.len() {
                    Err(JvmError::BadConstantPoolIndex(idx))
                } else {
                    match cur.cp[idx as int] {
                        CpEntry::Class(c) => match cp_string(cur.cp, c as int, cur.cp.len()) {
                            None => Err(JvmError::NotStringifiable(c)),
                            Some(name) => match spec_lookup(m, name) {
                                Err(e) => Err(e),
                                Ok(k) => if h.len() >= usize::MAX {
                                    Err(JvmError::OutOfMemory)
                                } else {
                                    Ok(
                                        (
                                            FrameView {
                                                eval: s.push(JvmValue::ObjRef(h.len() as usize)),
                                                pc: pc + 3,
                                                ..f
                                            },
                                            h.push(
                                                ObjView::Obj {
                                                    id: h.len() as usize,
                                                    mark: 0,
                                                    klassid: k.id,
                                                    fields: k.i_fields.map_values(
                                                        |fd: OtField| default_for_descriptor(fd.spec_desc()),
                                                    ),
                                                },
                                            ),
                                        ),
                                    )
                                },
                            },
                        },
                        _ => Err(JvmError::BadConstantPoolIndex(idx)),
                    }
                },
            }
        } else if op == opcode::GETFIELD {
            if s.len() < 1 {
                Err(JvmError::StackUnderflow)
            } else {
                match peek(s, 0) {
                    JvmValue::ObjRef(id) => if id >= h.len() {
                        Err(JvmError::ObjectNotFound)
                    } else {
                        match spec_lookup_field(m, f.klass_name, idx, false) {
                            Err(e) => Err(e),
                            Ok(fld) => match h[id as int] {
                                ObjView::Obj { fields, .. } => if fld.spec_offset() >= fields.len() {
                                    Err(JvmError::IndexOutOfRange)
                                } else {
                                    Ok(
                                        (
                                            FrameView {
                                                eval: pop_n(s, 1).push(fields[fld.spec_offset() as int]),
                                                pc: pc + 3,
                                                ..f
                                            },
                                            h,
                                        ),
                                    )
                                },
                                ObjView::Arr { .. } => Err(JvmError::WrongObjectKind),
                            },
                        }
                    },
                    _ => Err(JvmError::TypeMismatch),
                }
            }
        } else if op == opcode::PUTFIELD {
            if s.len() < 2 {
                Err(JvmError::StackUnderflow)
            } else {
                match peek(s, 1) {
                    JvmValue::ObjRef(id) => match spec_lookup_field(m, f.klass_name, idx, false) {
                        Err(e) => Err(e),
                        Ok(fld) => if id >= h.len() {
                            Err(JvmError::ObjectNotFound)
                        } else {
                            match h[id as int] {
                                ObjView::Obj { fields, .. } => if fld.spec_offset() >= fields.len() {
                                    Err(JvmError::IndexOutOfRange)
                                } else {
                                    Ok(
                                        (
                                            FrameView { eval: pop_n(s, 2), pc: pc + 3, ..f },
                                            h.update(
                                                id as int,
                                                h[id as int].with_field(fld.spec_offset() as int, peek(s, 0)),
                                            ),
                                        ),
                                    )
                                },
                                ObjView::Arr { .. } => Err(JvmError::WrongObjectKind),
                            }
                        },
                    },
                    _ => Err(JvmError::TypeMismatch),
                }
            }
        } else {
            match spec_lookup_field(m, f.klass_name, idx, true) {
                Err(e) => Err(e),
                Ok(fld) => match spec_lookup(m, fld.spec_klass_name()) {
                    Err(e) => Err(e),
                    Ok(k) => if op == opcode::GETSTATIC {
                        match first_field_index(k.s_fields, fld.spec_fq_name_desc()) {
                            Some(i) => Ok(
                                (FrameView { eval: s.push(k.s_vals[i]), pc: pc + 3, ..f }, h),
                            ),
                            None => Err(JvmError::FieldNotFound),
                        }
                    } else if s.len() < 1 {
                        Err(JvmError::StackUnderflow)
                    } else {
                        match first_field_index(k.s_fields, fld.spec_fq_name_desc()) {
                            Some(_) => Ok((FrameView { eval: pop_n(s, 1), pc: pc + 3, ..f }, h)),
                            None => Err(JvmError::FieldNotFound),
                        }
                    },
                },
            }
        }
    }
}

/// Where a call goes: a new frame for bytecode, or native code and the
/// local variables it receives.
pub enum Call {
    Bytecode(Frame),
    Native(NativeMethod, InterpLocalVars),
}

/// The abstract content of a call.
pub enum CallView {
    Bytecode(FrameView),
    Native(NativeMethod, Seq<JvmValue>),
}

impl View for Call {
    type V = CallView;

    open spec fn view(&self) -> CallView {
        match self {
            Call::Bytecode(f) => CallView::Bytecode(f@),
            Call::Native(n, l) => CallView::Native(*n, l@),
        }
    }
}

/// The local variables of a callee: 255 slots holding `Int(0)`, the first
/// one holding the argument when there is one.
pub open spec fn callee_locals(arg: Option<JvmValue>) -> Seq<JvmValue> {
    let empty = Seq::new(255, |i: int| JvmValue::Int(0));
    match arg {
        Some(v) => empty.update(0, v),
        None => empty,
    }
}

/// The caller's frame and the call that an invocation makes, or why it
/// cannot be made. The target is the method that the entry's
/// `Class.name:desc` names, in the class that its class entry names; a
/// static call passes as many arguments as its descriptor declares and the
/// others one, but only the top value is handed over, in the first local.
pub open spec fn spec_invoke(op: u8, f: FrameView, m: Map<Seq<char>, StatusView>) -> Result<
    (FrameView, CallView),
    JvmError,
> {
    let pc = f.pc;
    let s = f.eval;
    if pc + 2 >= f.code.len() {
        Err(JvmError::CodeOverrun)
    } else {
        let idx = index16(f);
        match spec_lookup(m, f.klass_name) {
            Err(e) => Err(e),
            Ok(cur) => {
                let args: Result<u8, JvmError> = if op == opcode::INVOKESTATIC {
                    method_arg_count(cur.cp, idx)
                } else {
                    Ok(1u8)
                };
                match args {
                    Err(e) => Err(e),
                    Ok(n) => match cp_string(cur.cp, idx as int, cur.cp.len()) {
                        None => Err(JvmError::NotStringifiable(idx)),
                        Some(fq) => if idx >= cur.cp.len() {
                            Err(JvmError::BadConstantPoolIndex(idx))
                        } else {
                            match cur.cp[idx as int] {
                                CpEntry::MethodRef { clz_idx, .. } => match cp_string(
                                    cur.cp,
                                    clz_idx as int,
                                    cur.cp.len(),
                                ) {
                                    None => Err(JvmError::NotStringifiable(clz_idx)),
                                    Some(dname) => match spec_lookup_method(m, dname, fq) {
                                        Err(e) => Err(e),
                                        Ok(callee) => if n > 0 && s.len() < 1 {
                                            Err(JvmError::StackUnderflow)
                                        } else {
                                            let arg = if n > 0 {
                                                Some(s.last())
                                            } else {
                                                None
                                            };
                                            let rest = if n > 0 {
                                                s.drop_last()
                                            } else {
                                                s
                                            };
                                            let caller = FrameView { eval: rest, pc: pc + 3, ..f };
                                            if callee.flags & ACC_NATIVE == ACC_NATIVE {
                                                match callee.native_code {
                                                    Some(nc) => Ok(
                                                        (caller, CallView::Native(nc, callee_locals(arg))),
                                                    ),
                                                    None => Err(JvmError::NativeCodeMissing),
                                                }
                                            } else {
                                                Ok(
                                                    (
                                                        caller,
                                                        CallView::Bytecode(
                                                            FrameView {
                                                                klass_name: callee.klass_name,
                                                                code: callee.code,
                                                                pc: 0,
                                                                eval: Seq::empty(),
                                                                lvt: callee_locals(arg),
                                                            },
                                                        ),
                                                    ),
                                                )
                                            }
                                        },
                                    },
                                },
                                _ => Err(JvmError::BadConstantPoolIndex(idx)),
                            }
                        },
                    },
                }
            },
        }
    }
}

impl Frame {
    /// Runs `ldc` or `ldc2_w` of entry `idx` (see `spec_ldc`).
    fn exec_ldc(&mut self, repo: &SharedKlassRepo, idx: u16, len: usize) -> (r: Result<(), JvmError>)
        requires
            old(self).pc + len <= old(self).code.len(),
        ensures
            match spec_ldc(repo@, old(self)@, idx, len as int) {
                Ok(g) => r is Ok && final(self)@ == g,
                Err(e) => r == Err::<(), JvmError>(e),
            },
    {
        let cur = match repo.lookup_klass(&self.klass_name) {
            Ok(k) => k,
            Err(e) => {
                return Err(e);
            },
        };
        if idx as usize >= cur.cp_len() {
            return Err(JvmError::BadConstantPoolIndex(idx));
        }
        match cur.lookup_cp(idx) {
            CpEntry::Class(_) => self.eval.aconst_null(),
            CpEntry::String(_) => self.eval.aconst_null(),
            CpEntry::Double(d) => self.eval.dconst(d),
            CpEntry::Integer(i) => self.eval.iconst(i),
            _ => {
                return Err(JvmError::BadConstantPoolIndex(idx));
            },
        }
        self.pc = self.pc + len;
        Ok(())
    }

    /// Runs an instruction that uses the constant pool (see `spec_object_op`).
    pub fn exec_object_op(&mut self, op: u8, heap: &mut SharedSimpleHeap, repo: &SharedKlassRepo) -> (r:
        Result<(), JvmError>)
        requires
            is_object_op(op),
            old(self).pc < old(self).code.len(),
            old(heap).wf(),
        ensures
            final(heap).wf(),
            match spec_object_op(op, old(self)@, old(heap)@, repo@) {
                Ok((g, h)) => r is Ok && final(self)@ == g && final(heap)@ == h,
                Err(e) => r == Err::<(), JvmError>(e) && final(heap)@ == old(heap)@,
            },
    {
        let pc = self.pc;
        let ghost s = self.eval@;
        if op == opcode::LDC {
            if self.code.len() - pc <= 1 {
                return Err(JvmError::CodeOverrun);
            }
            let idx = self.code[pc + 1] as u16;
            return self.exec_ldc(repo, idx, 2);
        }
        if self.code.len() - pc <= 2 {
            return Err(JvmError::CodeOverrun);
        }
        let idx = read_u16_at(self.code.as_slice(), pc + 1);
        if op == opcode::LDC2_W {
            return self.exec_ldc(repo, idx, 3);
        }
        if op == opcode::NEW {
            let cur = match repo.lookup_klass(&self.klass_name) {
                Ok(k) => k,
                Err(e) => {
                    return Err(e);
                },
            };
            if idx as usize >= cur.cp_len() {
                return Err(JvmError::BadConstantPoolIndex(idx));
            }
            let c = match cur.lookup_cp(idx) {
                CpEntry::Class(c) => c,
                _ => {
                    return Err(JvmError::BadConstantPoolIndex(idx));
                },
            };
            let name = match cur.cp_as_string(c) {
                Ok(s) => s,
                Err(e) => {
                    return Err(e);
                },
            };
            let k = match repo.lookup_klass(&name) {
                Ok(k) => k,
                Err(e) => {
                    return Err(e);
                },
            };
            if heap.len() == usize::MAX {
                return Err(JvmError::OutOfMemory);
            }
            let obj_id = heap.allocate_obj(&k);
            self.eval.push(JvmValue::ObjRef(obj_id));
            self.pc = pc + 3;
            Ok(())
        } else if op == opcode::GETFIELD {
            if self.eval.len() < 1 {
                return Err(JvmError::StackUnderflow);
            }
            let obj_id = match self.eval.peek(0) {
                JvmValue::ObjRef(v) => v,
                _ => {
                    return Err(JvmError::TypeMismatch);
                },
            };
            if obj_id >= heap.len() {
                return Err(JvmError::ObjectNotFound);
            }
            let getf = match repo.lookup_instance_field(&self.klass_name, idx) {
                Ok(f) => f,
                Err(e) => {
                    return Err(e);
                },
            };
            let n = match heap.get_obj(obj_id) {
                OtObj::VmObj { fields, .. } => fields.len(),
                _ => {
                    return Err(JvmError::WrongObjectKind);
                },
            };
            let offset = getf.get_offset();
            if offset as usize >= n {
                return Err(JvmError::IndexOutOfRange);
            }
            let ret = heap.get_field(obj_id, offset);
            self.eval.pop();
            self.eval.push(ret);
            self.pc = pc + 3;
            proof {
                assert(s.drop_last() =~= pop_n(s, 1));
            }
            Ok(())
        } else if op == opcode::PUTFIELD {
            if self.eval.len() < 2 {
                return Err(JvmError::StackUnderflow);
            }
            let val = self.eval.peek(0);
            let obj_id = match self.eval.peek(1) {
                JvmValue::ObjRef(v) => v,
                _ => {
                    return Err(JvmError::TypeMismatch);
                },
            };
            let putf = match repo.lookup_instance_field(&self.klass_name, idx) {
                Ok(f) => f,
                Err(e) => {
                    return Err(e);
                },
            };
            if obj_id >= heap.len() {
                return Err(JvmError::ObjectNotFound);
            }
            let n = match heap.get_obj(obj_id) {
                OtObj::VmObj { fields, .. } => fields.len(),
                _ => {
                    return Err(JvmError::WrongObjectKind);
                },
            };
            if putf.get_offset() as usize >= n {
                return Err(JvmError::IndexOutOfRange);
            }
            heap.put_field(obj_id, putf, val);
            self.eval.pop();
            self.eval.pop();
            self.pc = pc + 3;
            proof {
                assert(s.drop_last().drop_last() =~= pop_n(s, 2));
            }
            Ok(())
        } else {
            let fld = match repo.lookup_static_field(&self.klass_name, idx) {
                Ok(f) => f,
                Err(e) => {
                    return Err(e);
                },
            };
            let mut k = match repo.lookup_klass(&fld.get_klass_name()) {
                Ok(k) => k,
                Err(e) => {
                    return Err(e);
                },
            };
            if op == opcode::GETSTATIC {
                let ret = match k.get_static(&fld) {
                    Ok(v) => v,
                    Err(e) => {
                        return Err(e);
                    },
                };
                self.eval.push(ret);
                self.pc = pc + 3;
                Ok(())
            } else {
                if self.eval.len() < 1 {
                    return Err(JvmError::StackUnderflow);
                }
                let v = self.eval.pop();
                match k.put_static(&fld, v) {
                    Ok(()) => {},
                    Err(e) => {
                        return Err(e);
                    },
                }
                self.pc = pc + 3;
                proof {
                    assert(s.drop_last() =~= pop_n(s, 1));
                }
                Ok(())
            }
        }
    }

    /// Prepares an invocation (see `spec_invoke`): pops the argument, moves
    /// past the instruction and answers where the call goes.
    pub fn exec_invoke(&mut self, op: u8, repo: &SharedKlassRepo) -> (r: Result<Call, JvmError>)
        requires
            is_invoke_op(op),
            old(self).pc < old(self).code.len(),
        ensures
            match spec_invoke(op, old(self)@, repo@) {
                Ok((g, c)) => r matches Ok(call) && final(self)@ == g && call@ == c,
                Err(e) => r matches Err(x) && x == e,
            },
    {
        let pc = self.pc;
        if self.code.len() - pc <= 2 {
            return Err(JvmError::CodeOverrun);
        }
        let idx = read_u16_at(self.code.as_slice(), pc + 1);
        let cur = match repo.lookup_klass(&self.klass_name) {
            Ok(k) => k,
            Err(e) => {
                return Err(e);
            },
        };
        let n: u8 = if op == opcode::INVOKESTATIC {
            match cur.get_method_arg_count(idx) {
                Ok(n) => n,
                Err(e) => {
                    return Err(e);
                },
            }
        } else {
            1
        };
        let fq_name_desc = match cur.cp_as_string(idx) {
            Ok(s) => s,
            Err(e) => {
                return Err(e);
            },
        };
        if idx as usize >= cur.cp_len() {
            return Err(JvmError::BadConstantPoolIndex(idx));
        }
        let clz_idx = match cur.lookup_cp(idx) {
            CpEntry::MethodRef { clz_idx, .. } => clz_idx,
            _ => {
                return Err(JvmError::BadConstantPoolIndex(idx));
            },
        };
        let dispatch_klass_name = match cur.cp_as_string(clz_idx) {
            Ok(s) => s,
            Err(e) => {
                return Err(e);
            },
        };
        let callee = match repo.lookup_method_exact(&dispatch_klass_name, fq_name_desc) {
            Ok(m) => m,
            Err(e) => {
                return Err(e);
            },
        };
        let mut vars = InterpLocalVars::of(255);
        if n > 0 {
            if self.eval.len() < 1 {
                return Err(JvmError::StackUnderflow);
            }
            let v = self.eval.pop();
            vars.store(0, v);
        }
        self.pc = pc + 3;
        if callee.is_native() {
            match callee.get_native_code() {
                Some(nc) => Ok(Call::Native(nc, vars)),
                None => Err(JvmError::NativeCodeMissing),
            }
        } else {
            Ok(Call::Bytecode(Frame::of(callee.get_klass_name(), callee.get_code(), vars)))
        }
    }
}

/// The local variables that a call hands to its callee.
pub open spec fn call_locals(c: CallView) -> Seq<JvmValue> {
    match c {
        CallView::Bytecode(g) => g.lvt,
        CallView::Native(_, l) => l,
    }
}

/// An invocation moves the caller past its three bytes and hands the
/// callee 255 local variables: when an argument is passed, the first holds
/// the value that was on top of the caller's stack, which the caller loses;
/// every other local holds `Int(0)`. `invokespecial` and `invokevirtual`
/// always pass one argument.
pub proof fn law_invoke_passes_the_top_value(op: u8, f: FrameView, m: Map<Seq<char>, StatusView>)
    requires
        spec_invoke(op, f, m) is Ok,
    ensures
        ({
            let (caller, call) = spec_invoke(op, f, m)->Ok_0;
            let l = call_locals(call);
            &&& caller.pc == f.pc + 3
            &&& caller.code == f.code
            &&& caller.lvt == f.lvt
            &&& l.len() == 255
            &&& forall|i: int| 1 <= i < 255 ==> l[i] == JvmValue::Int(0)
            &&& (f.eval.len() >= 1 && caller.eval == f.eval.drop_last() && l[0] == f.eval.last()) || (
            caller.eval == f.eval && l[0] == JvmValue::Int(0))
            &&& op != opcode::INVOKESTATIC ==> f.eval.len() >= 1 && caller.eval == f.eval.drop_last()
                && l[0] == f.eval.last()
        }),
{
}

/// `ldc` pushes the constant at its pool index in the current class: an
/// `Integer` entry as that int, a `Double` entry as that double, and a
/// class or string entry as a null reference; it moves past its bytes and
/// changes nothing else.
pub proof fn law_ldc_pushes_the_constant(m: Map<Seq<char>, StatusView>, f: FrameView, idx: u16, len: int)
    requires
        spec_lookup(m, f.klass_name) is Ok,
        (idx as int) < spec_lookup(m, f.klass_name)->Ok_0.cp.len(),
    ensures
        ({
            let e = spec_lookup(m, f.klass_name)->Ok_0.cp[idx as int];
            &&& e matches CpEntry::Integer(i) ==> spec_ldc(m, f, idx, len) == Ok::<FrameView, JvmError>(
                FrameView { eval: f.eval.push(JvmValue::Int(i)), pc: f.pc + len, ..f },
            )
            &&& e matches CpEntry::Double(d) ==> spec_ldc(m, f, idx, len) == Ok::<FrameView, JvmError>(
                FrameView { eval: f.eval.push(JvmValue::Double(d)), pc: f.pc + len, ..f },
            )
            &&& (e is Class || e is String) ==> spec_ldc(m, f, idx, len) == Ok::<FrameView, JvmError>(
                FrameView { eval: f.eval.push(JvmValue::ObjRef(0)), pc: f.pc + len, ..f },
            )
        }),
{
}

} // verus!
