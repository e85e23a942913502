use vstd::prelude::*;

use crate::class_format::{be16, be32};
use crate::error::JvmError;
use crate::interp_stack::{InterpEvalStack, int_at, two_ints};
use crate::local_vars::InterpLocalVars;
use crate::opcode;
use crate::stack_ops::{exec_stack_op, is_stack_op, spec_stack_op};
use crate::values::JvmValue;

verus! {

/// One method activation: the class whose method runs, its bytecode, the
/// position of the next instruction, the operand stack and the local
/// variables.
pub struct Frame {
    pub klass_name: String,
    pub code: Vec<u8>,
    pub pc: usize,
    pub eval: InterpEvalStack,
    pub lvt: InterpLocalVars,
}

/// The abstract content of a frame.
pub struct FrameView {
    pub klass_name: Seq<char>,
    pub code: Seq<u8>,
    pub pc: int,
    pub eval: Seq<JvmValue>,
    pub lvt: Seq<JvmValue>,
}

impl View for Frame {
    type V = FrameView;

    open spec fn view(&self) -> FrameView {
        FrameView {
            klass_name: self.klass_name@,
            code: self.code@,
            pc: self.pc as int,
            eval: self.eval@,
            lvt: self.lvt@,
        }
    }
}

/// The signed 16-bit branch offset stored big-endian at `p`.
pub open spec fn offset16(code: Seq<u8>, p: int) -> int {
    ((be16(code, p) as u16) as i16) as int
}

/// The signed 32-bit branch offset stored big-endian at `p`.
pub open spec fn offset32(code: Seq<u8>, p: int) -> int {
    ((be32(code, p) as u32) as i32) as int
}

/// The signed 16-bit offset stored big-endian at `current`.
pub fn read_i16_branch_offset(instr: &[u8], current: usize) -> (r: i16)
    requires
        current + 1 < instr@.len(),
    ensures
        r as int == offset16(instr@, current as int),
{
    let hi = instr[current] as u16;
    let lo = instr[current + 1] as u16;
    #[verifier::truncate]
    ((hi * 256 + lo) as i16)
}

/// The signed 32-bit offset stored big-endian at `current`.
pub fn read_i32_branch_offset(instr: &[u8], current: usize) -> (r: i32)
    requires
        current + 3 < instr@.len(),
    ensures
        r as int == offset32(instr@, current as int),
{
    let b0 = instr[current] as u32;
    let b1 = instr[current + 1] as u32;
    let b2 = instr[current + 2] as u32;
    let b3 = instr[current + 3] as u32;
    #[verifier::truncate]
    ((b0 * 0x100_0000 + b1 * 0x1_0000 + b2 * 0x100 + b3) as i32)
}

/// Moves `current`, the position just after a branch instruction, to the
/// branch target: the instruction's own position plus `jump_to`.
pub fn branch_to(current: &mut usize, jump_to: i32)
    requires
        *old(current) <= i32::MAX,
        0 <= *old(current) - 1 + jump_to <= i32::MAX,
    ensures
        *final(current) == *old(current) - 1 + jump_to,
{
    let opcode_pc = *current as i32 - 1;
    let target = opcode_pc + jump_to;
    *current = target as usize;
}

/// Where a branch at `pc` with offset `off` lands.
pub open spec fn branch_target(pc: int, off: int) -> Result<int, JvmError> {
    if pc + 1 > i32::MAX {
        Err(JvmError::CodeOverrun)
    } else if pc + off > i32::MAX {
        Err(JvmError::ArithmeticError)
    } else if pc + off < 0 {
        Err(JvmError::NegativeBranchTarget)
    } else {
        Ok(pc + off)
    }
}

/// The instructions that store into a local variable: `istore` to
/// `dstore` and `astore`, which name the slot in an operand byte, and the
/// short forms `istore_0` to `astore_3`.
pub open spec fn is_store_op(op: u8) -> bool {
    (opcode::ISTORE <= op <= opcode::DSTORE) || op == opcode::ASTORE || (opcode::ISTORE_0 <= op
        <= opcode::ASTORE_3)
}

/// Whether a local-variable instruction names its slot in an operand byte.
pub open spec fn names_slot(op: u8) -> bool {
    op <= opcode::DSTORE || op == opcode::ASTORE
}

/// Whether `op` stores into a local variable (see `is_store_op`).
pub fn is_store_opcode(op: u8) -> (r: bool)
    ensures
        r == is_store_op(op),
{
    (opcode::ISTORE <= op && op <= opcode::DSTORE) || op == opcode::ASTORE || (opcode::ISTORE_0
        <= op && op <= opcode::ASTORE_3)
}

/// The instructions that read or write a local variable.
pub open spec fn is_local_op(op: u8) -> bool {
    (opcode::ILOAD <= op <= opcode::ALOAD_3) || is_store_op(op) || op == opcode::IINC
}

/// The conditional and unconditional jumps.
pub open spec fn is_branch_op(op: u8) -> bool {
    (opcode::IFEQ <= op <= opcode::IF_ICMPLE) || op == opcode::IFNULL || op == opcode::IFNONNULL
        || op == opcode::GOTO || op == opcode::GOTO_W
}

/// The instructions that change only the current frame.
pub open spec fn is_frame_op(op: u8) -> bool {
    is_stack_op(op) || is_local_op(op) || is_branch_op(op) || op == opcode::BIPUSH || op
        == opcode::SIPUSH
}

/// Whether a one-value conditional jump is taken for `v`.
pub open spec fn if_taken(op: u8, v: i32) -> bool {
    if op == opcode::IFEQ {
        v == 0
    } else if op == opcode::IFNE {
        v != 0
    } else if op == opcode::IFLT {
        v < 0
    } else if op == opcode::IFGE {
        v >= 0
    } else if op == opcode::IFGT {
        v > 0
    } else {
        v <= 0
    }
}

/// Whether a two-int conditional jump is taken, comparing the top int `a`
/// with the int below it `b`.
pub open spec fn icmp_taken(op: u8, a: i32, b: i32) -> bool {
    if op == opcode::IF_ICMPEQ {
        a == b
    } else if op == opcode::IF_ICMPNE {
        a != b
    } else if op == opcode::IF_ICMPLT {
        a < b
    } else if op == opcode::IF_ICMPGE {
        a >= b
    } else if op == opcode::IF_ICMPGT {
        a > b
    } else {
        a <= b
    }
}

/// The frame after a jump whose operands are popped into `eval`: at the
/// target when `taken`, else after the `len`-byte instruction.
pub open spec fn jump(f: FrameView, eval: Seq<JvmValue>, taken: bool, off: int, len: int) -> Result<
    FrameView,
    JvmError,
> {
    if taken {
        match branch_target(f.pc, off) {
            Ok(t) => Ok(FrameView { eval, pc: t, ..f }),
            Err(e) => Err(e),
        }
    } else {
        Ok(FrameView { eval, pc: f.pc + len, ..f })
    }
}

/// The frame after a local-variable instruction, or why it cannot run.
pub open spec fn spec_local_op(op: u8, f: FrameView) -> Result<FrameView, JvmError> {
    let pc = f.pc;
    let code = f.code;
    if opcode::ILOAD <= op <= opcode::ALOAD_3 {
        if op <= opcode::ALOAD && pc + 1 >= code.len() {
            Err(JvmError::CodeOverrun)
        } else {
            let idx: int = if op <= opcode::ALOAD {
                code[pc + 1] as int
            } else {
                ((op - opcode::ILOAD_0) % 4) as int
            };
            let len: int = if op <= opcode::ALOAD { 2 } else { 1 };
            if idx >= f.lvt.len() {
                Err(JvmError::LocalIndexOutOfRange)
            } else {
                Ok(FrameView { eval: f.eval.push(f.lvt[idx]), pc: pc + len, ..f })
            }
        }
    } else if is_store_op(op) {
        if names_slot(op) && pc + 1 >= code.len() {
            Err(JvmError::CodeOverrun)
        } else if f.eval.len() < 1 {
            Err(JvmError::StackUnderflow)
        } else {
            let idx: int = if names_slot(op) {
                code[pc + 1] as int
            } else {
                ((op - opcode::ISTORE_0) % 4) as int
            };
            let len: int = if names_slot(op) { 2 } else { 1 };
            if idx >= f.lvt.len() {
                Err(JvmError::LocalIndexOutOfRange)
            } else {
                Ok(
                    FrameView {
                        eval: f.eval.drop_last(),
                        lvt: f.lvt.update(idx, f.eval.last()),
                        pc: pc + len,
                        ..f
                    },
                )
            }
        }
    } else {
        if pc + 2 >= code.len() {
            Err(JvmError::CodeOverrun)
        } else {
            let idx = code[pc + 1] as int;
            if idx >= f.lvt.len() {
                Err(JvmError::LocalIndexOutOfRange)
            } else {
                match f.lvt[idx] {
                    JvmValue::Int(v) => if v == i32::MAX {
                        Err(JvmError::ArithmeticError)
                    } else {
                        Ok(
                            FrameView {
                                lvt: f.lvt.update(idx, JvmValue::Int((v + 1) as i32)),
                                pc: pc + 3,
                                ..f
                            },
                        )
                    },
                    _ => Err(JvmError::TypeMismatch),
                }
            }
        }
    }
}

/// The frame after a jump instruction, or why it cannot run. A conditional
/// jump, and `goto_w`, lands at the instruction's own position plus its
/// signed offset; `goto` lands at the byte after its opcode plus its signed
/// 16-bit offset.
pub open spec fn spec_branch_op(op: u8, f: FrameView) -> Result<FrameView, JvmError> {
    let pc = f.pc;
    let code = f.code;
    let s = f.eval;
    if op == opcode::GOTO_W {
        if pc + 4 >= code.len() {
            Err(JvmError::CodeOverrun)
        } else {
            jump(f, s, true, offset32(code, pc + 1), 5)
        }
    } else if pc + 2 >= code.len() {
        Err(JvmError::CodeOverrun)
    } else if op == opcode::GOTO {
        jump(f, s, true, offset16(code, pc + 1) + 1, 3)
    } else if opcode::IF_ICMPEQ <= op <= opcode::IF_ICMPLE {
        if s.len() < 2 {
            Err(JvmError::StackUnderflow)
        } else if !two_ints(s) {
            Err(JvmError::TypeMismatch)
        } else {
            jump(f, s.drop_last().drop_last(), icmp_taken(op, int_at(s, 0), int_at(s, 1)), offset16(code, pc + 1), 3)
        }
    } else if s.len() < 1 {
        Err(JvmError::StackUnderflow)
    } else if op == opcode::IFNULL || op == opcode::IFNONNULL {
        match s.last() {
            JvmValue::ObjRef(v) => jump(
                f,
                s.drop_last(),
                if op == opcode::IFNULL { v == 0 } else { v > 0 },
                offset16(code, pc + 1),
                3,
            ),
            _ => Err(JvmError::TypeMismatch),
        }
    } else {
        match s.last() {
            JvmValue::Int(v) => jump(f, s.drop_last(), if_taken(op, v), offset16(code, pc + 1), 3),
            _ => Err(JvmError::TypeMismatch),
        }
    }
}

/// The frame after an instruction that changes only the current frame, or
/// why it cannot run.
pub open spec fn spec_frame_op(op: u8, f: FrameView) -> Result<FrameView, JvmError> {
    if is_stack_op(op) {
        match spec_stack_op(op, f.eval) {
            Ok(s) => Ok(FrameView { eval: s, pc: f.pc + 1, ..f }),
            Err(e) => Err(e),
        }
    } else if is_local_op(op) {
        spec_local_op(op, f)
    } else if is_branch_op(op) {
        spec_branch_op(op, f)
    } else if op == opcode::BIPUSH {
        if f.pc + 1 >= f.code.len() {
            Err(JvmError::CodeOverrun)
        } else {
            Ok(FrameView { eval: f.eval.push(JvmValue::Int(f.code[f.pc + 1] as i32)), pc: f.pc + 2, ..f })
        }
    } else {
        if f.pc + 2 >= f.code.len() {
            Err(JvmError::CodeOverrun)
        } else {
            Ok(
                FrameView {
                    eval: f.eval.push(
                        JvmValue::Int((f.code[f.pc + 1] as i32 * 256 + f.code[f.pc + 2] as i32) as i32),
                    ),
                    pc: f.pc + 3,
                    ..f
                },
            )
        }
    }
}

impl Frame {
    /// A frame about to run `code` from its start with the local variables `lvt`.
    pub fn of(klass_name: String, code: Vec<u8>, lvt: InterpLocalVars) -> (r: Frame)
        ensures
            r@ == (FrameView {
                klass_name: klass_name@,
                code: code@,
                pc: 0,
                eval: Seq::empty(),
                lvt: lvt@,
            }),
    {
        Frame { klass_name, code, pc: 0, eval: InterpEvalStack::of(), lvt }
    }

    /// Jumps (or not) after popping the operands of a jump at `pc`.
    fn do_jump(&mut self, taken: bool, off: i32, len: usize) -> (r: Result<(), JvmError>)
        requires
            old(self).pc + len <= old(self).code.len(),
        ensures
            match jump(old(self)@, old(self)@.eval, taken, off as int, len as int) {
                Ok(g) => r is Ok && final(self)@ == g,
                Err(e) => r == Err::<(), JvmError>(e),
            },
    {
        if !taken {
            self.pc = self.pc + len;
            return Ok(());
        }
        let pc = self.pc;
        if pc >= i32::MAX as usize {
            return Err(JvmError::CodeOverrun);
        }
        let p = pc as i32;
        if off > 0 && p > i32::MAX - off {
            return Err(JvmError::ArithmeticError);
        }
        if p + off < 0 {
            return Err(JvmError::NegativeBranchTarget);
        }
        let mut current = pc + 1;
        branch_to(&mut current, off);
        self.pc = current;
        Ok(())
    }

    /// Runs a local-variable instruction (see `spec_local_op`).
    fn exec_local_op(&mut self, op: u8) -> (r: Result<(), JvmError>)
        requires
            is_local_op(op),
            old(self).pc < old(self).code.len(),
        ensures
            match spec_local_op(op, old(self)@) {
                Ok(g) => r is Ok && final(self)@ == g,
                Err(e) => r == Err::<(), JvmError>(e),
            },
    {
        let pc = self.pc;
        if opcode::ILOAD <= op && op <= opcode::ALOAD_3 {
            if op <= opcode::ALOAD && self.code.len() - pc <= 1 {
                return Err(JvmError::CodeOverrun);
            }
            let idx: u8 = if op <= opcode::ALOAD {
                self.code[pc + 1]
            } else {
                (op - opcode::ILOAD_0) % 4
            };
            let len: usize = if op <= opcode::ALOAD { 2 } else { 1 };
            if idx as usize >= self.lvt.len() {
                return Err(JvmError::LocalIndexOutOfRange);
            }
            let v = self.lvt.load(idx);
            self.eval.push(v);
            self.pc = pc + len;
            Ok(())
        } else if is_store_opcode(op) {
            let with_slot = op <= opcode::DSTORE || op == opcode::ASTORE;
            if with_slot && self.code.len() - pc <= 1 {
                return Err(JvmError::CodeOverrun);
            }
            if self.eval.len() < 1 {
                return Err(JvmError::StackUnderflow);
            }
            let idx: u8 = if with_slot {
                self.code[pc + 1]
            } else {
                (op - opcode::ISTORE_0) % 4
            };
            let len: usize = if with_slot { 2 } else { 1 };
            let v = self.eval.pop();
            if idx as usize >= self.lvt.len() {
                return Err(JvmError::LocalIndexOutOfRange);
            }
            self.lvt.store(idx, v);
            self.pc = pc + len;
            Ok(())
        } else {
            if self.code.len() - pc <= 2 {
                return Err(JvmError::CodeOverrun);
            }
            let idx = self.code[pc + 1];
            let incr = self.code[pc + 2];
            if idx as usize >= self.lvt.len() {
                return Err(JvmError::LocalIndexOutOfRange);
            }
            match self.lvt.load(idx) {
                JvmValue::Int(v) => {
                    if v == i32::MAX {
                        return Err(JvmError::ArithmeticError);
                    }
                    self.lvt.iinc(idx, incr);
                    self.pc = pc + 3;
                    Ok(())
                },
                _ => Err(JvmError::TypeMismatch),
            }
        }
    }

    /// Runs a jump instruction (see `spec_branch_op`).
    fn exec_branch_op(&mut self, op: u8) -> (r: Result<(), JvmError>)
        requires
            is_branch_op(op),
            old(self).pc < old(self).code.len(),
        ensures
            match spec_branch_op(op, old(self)@) {
                Ok(g) => r is Ok && final(self)@ == g,
                Err(e) => r == Err::<(), JvmError>(e),
            },
    {
        let pc = self.pc;
        if op == opcode::GOTO_W {
            if self.code.len() - pc <= 4 {
                return Err(JvmError::CodeOverrun);
            }
            let off = read_i32_branch_offset(self.code.as_slice(), pc + 1);
            return self.do_jump(true, off, 5);
        }
        if self.code.len() - pc <= 2 {
            return Err(JvmError::CodeOverrun);
        }
        let off = read_i16_branch_offset(self.code.as_slice(), pc + 1) as i32;
        if op == opcode::GOTO {
            return self.do_jump(true, off + 1, 3);
        }
        if opcode::IF_ICMPEQ <= op && op <= opcode::IF_ICMPLE {
            if self.eval.len() < 2 {
                return Err(JvmError::StackUnderflow);
            }
            let v1 = self.eval.pop();
            let v2 = self.eval.pop();
            match (v1, v2) {
                (JvmValue::Int(a), JvmValue::Int(b)) => {
                    let taken = if op == opcode::IF_ICMPEQ {
                        a == b
                    } else if op == opcode::IF_ICMPNE {
                        a != b
                    } else if op == opcode::IF_ICMPLT {
                        a < b
                    } else if op == opcode::IF_ICMPGE {
                        a >= b
                    } else if op == opcode::IF_ICMPGT {
                        a > b
                    } else {
                        a <= b
                    };
                    self.do_jump(taken, off, 3)
                },
                _ => Err(JvmError::TypeMismatch),
            }
        } else {
            if self.eval.len() < 1 {
                return Err(JvmError::StackUnderflow);
            }
            let v = self.eval.pop();
            if op == opcode::IFNULL || op == opcode::IFNONNULL {
                match v {
                    JvmValue::ObjRef(id) => {
                        let taken = if op == opcode::IFNULL { id == 0 } else { id > 0 };
                        self.do_jump(taken, off, 3)
                    },
                    _ => Err(JvmError::TypeMismatch),
                }
            } else {
                match v {
                    JvmValue::Int(x) => {
                        let taken = if op == opcode::IFEQ {
                            x == 0
                        } else if op == opcode::IFNE {
                            x != 0
                        } else if op == opcode::IFLT {
                            x < 0
                        } else if op == opcode::IFGE {
                            x >= 0
                        } else if op == opcode::IFGT {
                            x > 0
                        } else {
                            x <= 0
                        };
                        self.do_jump(taken, off, 3)
                    },
                    _ => Err(JvmError::TypeMismatch),
                }
            }
        }
    }

    /// Runs an instruction that changes only this frame (see `spec_frame_op`).
    pub fn exec_frame_op(&mut self, op: u8) -> (r: Result<(), JvmError>)
        requires
            is_frame_op(op),
            old(self).pc < old(self).code.len(),
        ensures
            match spec_frame_op(op, old(self)@) {
                Ok(g) => r is Ok && final(self)@ == g,
                Err(e) => r == Err::<(), JvmError>(e),
            },
    {
        if is_stack_opcode(op) {
            match exec_stack_op(op, &mut self.eval) {
                Ok(()) => {
                    self.pc = self.pc + 1;
                    Ok(())
                },
                Err(e) => Err(e),
            }
        } else if (opcode::ILOAD <= op && op <= opcode::ALOAD_3) || is_store_opcode(op) || op == opcode::IINC {
            self.exec_local_op(op)
        } else if op == opcode::BIPUSH {
            let pc = self.pc;
            if self.code.len() - pc <= 1 {
                return Err(JvmError::CodeOverrun);
            }
            let v = self.code[pc + 1] as i32;
            self.eval.iconst(v);
            self.pc = pc + 2;
            Ok(())
        } else if op == opcode::SIPUSH {
            let pc = self.pc;
            if self.code.len() - pc <= 2 {
                return Err(JvmError::CodeOverrun);
            }
            let v = (self.code[pc + 1] as i32) * 256 + self.code[pc + 2] as i32;
            self.eval.iconst(v);
            self.pc = pc + 3;
            Ok(())
        } else {
            self.exec_branch_op(op)
        }
    }
}

/// Whether `op` works on the operand stack alone (see `is_stack_op`).
pub fn is_stack_opcode(op: u8) -> (r: bool)
    ensures
        r == is_stack_op(op),
{
    op == opcode::ACONST_NULL || (opcode::ICONST_M1 <= op && op <= opcode::DCONST_1) || op
        == opcode::IADD || op == opcode::ISUB || op == opcode::IMUL || op == opcode::IDIV || op
        == opcode::IREM || op == opcode::IAND || op == opcode::IOR || op == opcode::IXOR || op
        == opcode::ISHL || op == opcode::ISHR || op == opcode::IUSHR || op == opcode::LADD || op
        == opcode::LSUB || op == opcode::LMUL || op == opcode::LDIV || op == opcode::LREM || op
        == opcode::LAND || op == opcode::LOR || op == opcode::LXOR || op == opcode::LSHL || op
        == opcode::LSHR || op == opcode::LUSHR || op == opcode::LCMP || op == opcode::INEG || op
        == opcode::LNEG || op == opcode::FNEG || op == opcode::DNEG || op == opcode::I2B || op
        == opcode::I2C || op == opcode::I2L || op == opcode::I2S || op == opcode::L2I || op
        == opcode::NOP || op == opcode::POP || op == opcode::POP2 || op == opcode::DUP || op
        == opcode::DUP_X1 || op == opcode::DUP_X2 || op == opcode::DUP2 || op == opcode::DUP2_X1
        || op == opcode::DUP2_X2 || op == opcode::SWAP || op == opcode::MONITORENTER || op
        == opcode::MONITOREXIT
}

/// A one-int conditional jump pops the int `v` from the top of the stack
/// and goes to its target (its own position plus its signed offset) when
/// the condition holds of `v`, else to the next instruction, three bytes
/// on: `ifeq` when `v == 0`, `ifne` when `v != 0`, `iflt` when `v < 0`,
/// `ifge` when `v >= 0`, `ifgt` when `v > 0`, `ifle` when `v <= 0`.
pub proof fn law_int_conditions(f: FrameView, op: u8, s: Seq<JvmValue>, v: i32)
    requires
        opcode::IFEQ <= op <= opcode::IFLE,
        f.eval == s.push(JvmValue::Int(v)),
        f.pc + 2 < f.code.len(),
        f.pc < i32::MAX,
        0 <= f.pc + offset16(f.code, f.pc + 1) <= i32::MAX,
    ensures
        ({
            let taken = (op == opcode::IFEQ && v == 0) || (op == opcode::IFNE && v != 0) || (op
                == opcode::IFLT && v < 0) || (op == opcode::IFGE && v >= 0) || (op == opcode::IFGT
                && v > 0) || (op == opcode::IFLE && v <= 0);
            spec_branch_op(op, f) == Ok::<FrameView, JvmError>(
                FrameView {
                    eval: s,
                    pc: if taken {
                        f.pc + offset16(f.code, f.pc + 1)
                    } else {
                        f.pc + 3
                    },
                    ..f
                },
            )
        }),
{
    assert(f.eval.drop_last() =~= s);
}

/// A two-int conditional jump pops `a` (the top) and `b` (below it) and
/// goes to its target when `a` compares to `b` as its name says
/// (`if_icmpeq` when `a == b`, `if_icmpne` when `a != b`, `if_icmplt` when
/// `a < b`, `if_icmpge` when `a >= b`, `if_icmpgt` when `a > b`,
/// `if_icmple` when `a <= b`), else to the next instruction.
pub proof fn law_int_comparisons(f: FrameView, op: u8, s: Seq<JvmValue>, a: i32, b: i32)
    requires
        opcode::IF_ICMPEQ <= op <= opcode::IF_ICMPLE,
        f.eval == s.push(JvmValue::Int(b)).push(JvmValue::Int(a)),
        f.pc + 2 < f.code.len(),
        f.pc < i32::MAX,
        0 <= f.pc + offset16(f.code, f.pc + 1) <= i32::MAX,
    ensures
        ({
            let taken = (op == opcode::IF_ICMPEQ && a == b) || (op == opcode::IF_ICMPNE && a != b)
                || (op == opcode::IF_ICMPLT && a < b) || (op == opcode::IF_ICMPGE && a >= b) || (op
                == opcode::IF_ICMPGT && a > b) || (op == opcode::IF_ICMPLE && a <= b);
            spec_branch_op(op, f) == Ok::<FrameView, JvmError>(
                FrameView {
                    eval: s,
                    pc: if taken {
                        f.pc + offset16(f.code, f.pc + 1)
                    } else {
                        f.pc + 3
                    },
                    ..f
                },
            )
        }),
{
    assert(f.eval.drop_last().drop_last() =~= s);
}

/// `ifnull` jumps when the popped reference is null (id 0) and `ifnonnull`
/// when it is not; otherwise the next instruction runs.
pub proof fn law_null_conditions(f: FrameView, op: u8, s: Seq<JvmValue>, id: usize)
    requires
        op == opcode::IFNULL || op == opcode::IFNONNULL,
        f.eval == s.push(JvmValue::ObjRef(id)),
        f.pc + 2 < f.code.len(),
        f.pc < i32::MAX,
        0 <= f.pc + offset16(f.code, f.pc + 1) <= i32::MAX,
    ensures
        ({
            let taken = (op == opcode::IFNULL) == (id == 0);
            spec_branch_op(op, f) == Ok::<FrameView, JvmError>(
                FrameView {
                    eval: s,
                    pc: if taken {
                        f.pc + offset16(f.code, f.pc + 1)
                    } else {
                        f.pc + 3
                    },
                    ..f
                },
            )
        }),
{
    assert(f.eval.drop_last() =~= s);
}

/// `goto` leaves the stack as it is and goes to the byte after its opcode
/// plus its signed 16-bit offset.
pub proof fn law_goto(f: FrameView)
    requires
        f.pc + 2 < f.code.len(),
        f.pc < i32::MAX,
        0 <= f.pc + 1 + offset16(f.code, f.pc + 1) <= i32::MAX,
    ensures
        spec_branch_op(opcode::GOTO, f) == Ok::<FrameView, JvmError>(
            FrameView { pc: f.pc + 1 + offset16(f.code, f.pc + 1), ..f },
        ),
{
}

/// The short local-variable instructions name their slot `k` (0 to 3) in
/// the opcode: `iload_k`, `lload_k`, `fload_k`, `dload_k` and `aload_k`
/// push local `k` and leave the locals as they are; `istore_k` to
/// `astore_k` pop the top value into local `k`. Each takes one byte.
pub proof fn law_short_local_ops(f: FrameView, k: int)
    requires
        0 <= k < 4,
        k < f.lvt.len(),
        f.pc < f.code.len(),
    ensures
        forall|base: u8|
            #![trigger spec_local_op((base + k) as u8, f)]
            base == opcode::ILOAD_0 || base == opcode::LLOAD_0 || base == opcode::FLOAD_0 || base
                == opcode::DLOAD_0 || base == opcode::ALOAD_0 ==> spec_local_op((base + k) as u8, f)
                == Ok::<FrameView, JvmError>(
                FrameView { eval: f.eval.push(f.lvt[k]), pc: f.pc + 1, ..f },
            ),
        f.eval.len() >= 1 ==> forall|base: u8|
            #![trigger spec_local_op((base + k) as u8, f)]
            base == opcode::ISTORE_0 || base == opcode::LSTORE_0 || base == opcode::FSTORE_0 || base
                == opcode::DSTORE_0 || base == opcode::ASTORE_0 ==> spec_local_op((base + k) as u8, f)
                == Ok::<FrameView, JvmError>(
                FrameView {
                    eval: f.eval.drop_last(),
                    lvt: f.lvt.update(k, f.eval.last()),
                    pc: f.pc + 1,
                    ..f
                },
            ),
{
}

/// The local-variable instructions with a slot byte: `iload` (and the long,
/// float, double and reference loads) push the local that the byte after
/// the opcode names; `istore` to `dstore` and `astore` pop into it; `iinc`
/// adds one to the int it holds. Loads and stores take two bytes, `iinc`
/// three.
pub proof fn law_indexed_local_ops(f: FrameView, op: u8)
    requires
        f.pc + 2 < f.code.len(),
        (f.code[f.pc + 1] as int) < f.lvt.len(),
    ensures
        ({
            let x = f.code[f.pc + 1] as int;
            &&& opcode::ILOAD <= op <= opcode::ALOAD ==> spec_local_op(op, f) == Ok::<FrameView, JvmError>(
                FrameView { eval: f.eval.push(f.lvt[x]), pc: f.pc + 2, ..f },
            )
            &&& (opcode::ISTORE <= op <= opcode::DSTORE || op == opcode::ASTORE) && f.eval.len() >= 1
                ==> spec_local_op(op, f) == Ok::<FrameView, JvmError>(
                FrameView {
                    eval: f.eval.drop_last(),
                    lvt: f.lvt.update(x, f.eval.last()),
                    pc: f.pc + 2,
                    ..f
                },
            )
            &&& op == opcode::IINC ==> match f.lvt[x] {
                JvmValue::Int(v) => v < i32::MAX ==> spec_local_op(op, f) == Ok::<FrameView, JvmError>(
                    FrameView { lvt: f.lvt.update(x, JvmValue::Int((v + 1) as i32)), pc: f.pc + 3, ..f },
                ),
                _ => true,
            }
        }),
{
}

/// `bipush` pushes the byte after its opcode as an int (0 to 255) and
/// `sipush` the two bytes after it as a big-endian number (0 to 65535);
/// neither changes the locals.
pub proof fn law_push_immediates(f: FrameView)
    requires
        f.pc + 2 < f.code.len(),
    ensures
        spec_frame_op(opcode::BIPUSH, f) == Ok::<FrameView, JvmError>(
            FrameView { eval: f.eval.push(JvmValue::Int(f.code[f.pc + 1] as i32)), pc: f.pc + 2, ..f },
        ),
        spec_frame_op(opcode::SIPUSH, f) matches Ok(g) && g.pc == f.pc + 3 && g.lvt == f.lvt && g.eval
            == f.eval.push(g.eval.last()) && (g.eval.last() matches JvmValue::Int(v) && v == f.code[f.pc
            + 1] as int * 256 + f.code[f.pc + 2] as int),
{
}

} // verus!
