use vstd::prelude::*;

use crate::error::JvmError;
use crate::interp_stack::{InterpEvalStack, int_at, is_char_code, long_at, peek, pop_n, two_ints, two_longs, compare_result};
use crate::opcode;
use crate::values::JvmValue;

verus! {

/// The value an instruction that pushes a constant pushes, if `op` is one.
/// Floats and doubles are given by their bit patterns.
pub open spec fn spec_const_value(op: u8) -> Option<JvmValue> {
    if op == opcode::ACONST_NULL {
        Some(JvmValue::ObjRef(0))
    } else if opcode::ICONST_M1 <= op <= opcode::ICONST_5 {
        Some(JvmValue::Int((op - opcode::ICONST_0) as i32))
    } else if op == opcode::LCONST_0 {
        Some(JvmValue::Long(0))
    } else if op == opcode::LCONST_1 {
        Some(JvmValue::Long(1))
    } else if op == opcode::FCONST_0 {
        Some(JvmValue::Float(0))
    } else if op == opcode::FCONST_1 {
        Some(JvmValue::Float(0x3f80_0000))
    } else if op == opcode::FCONST_2 {
        Some(JvmValue::Float(0x4000_0000))
    } else if op == opcode::DCONST_0 {
        Some(JvmValue::Double(0))
    } else if op == opcode::DCONST_1 {
        Some(JvmValue::Double(0x3ff0_0000_0000_0000))
    } else {
        None
    }
}

/// The binary int instructions.
pub open spec fn is_int_binop(op: u8) -> bool {
    op == opcode::IADD || op == opcode::ISUB || op == opcode::IMUL || op == opcode::IDIV || op
        == opcode::IREM || op == opcode::IAND || op == opcode::IOR || op == opcode::IXOR || op
        == opcode::ISHL || op == opcode::ISHR || op == opcode::IUSHR
}

/// The binary long instructions (comparison apart).
pub open spec fn is_long_binop(op: u8) -> bool {
    op == opcode::LADD || op == opcode::LSUB || op == opcode::LMUL || op == opcode::LDIV || op
        == opcode::LREM || op == opcode::LAND || op == opcode::LOR || op == opcode::LXOR || op
        == opcode::LSHL || op == opcode::LSHR || op == opcode::LUSHR
}

/// What a binary int instruction computes from the top value `a` and the
/// value below it `b`; `None` when it overflows, divides by zero or shifts
/// out of range.
pub open spec fn spec_int_binop(op: u8, a: i32, b: i32) -> Option<i32> {
    if op == opcode::IADD {
        if i32::MIN <= a + b <= i32::MAX { Some((a + b) as i32) } else { None }
    } else if op == opcode::ISUB {
        if i32::MIN <= a - b <= i32::MAX { Some((a - b) as i32) } else { None }
    } else if op == opcode::IMUL {
        if i32::MIN <= a * b <= i32::MAX { Some((a * b) as i32) } else { None }
    } else if op == opcode::IDIV {
        b.checked_div(a)
    } else if op == opcode::IREM {
        b.checked_rem(a)
    } else if op == opcode::IAND {
        Some(a & b)
    } else if op == opcode::IOR {
        Some(a | b)
    } else if op == opcode::IXOR {
        Some(a ^ b)
    } else if 0 <= b < 32 {
        if op == opcode::ISHL {
            Some(a.wrapping_shl(b as u32))
        } else if op == opcode::ISHR {
            Some(a.wrapping_shr(b as u32))
        } else {
            Some(((a as u32) >> (b as u32)) as i32)
        }
    } else {
        None
    }
}

/// What a binary long instruction computes from the top value `a` and the
/// value below it `b`, like `spec_int_binop`.
pub open spec fn spec_long_binop(op: u8, a: i64, b: i64) -> Option<i64> {
    if op == opcode::LADD {
        if i64::MIN <= a + b <= i64::MAX { Some((a + b) as i64) } else { None }
    } else if op == opcode::LSUB {
        if i64::MIN <= a - b <= i64::MAX { Some((a - b) as i64) } else { None }
    } else if op == opcode::LMUL {
        if i64::MIN <= b * a <= i64::MAX { Some((b * a) as i64) } else { None }
    } else if op == opcode::LDIV {
        b.checked_div(a)
    } else if op == opcode::LREM {
        b.checked_rem(a)
    } else if op == opcode::LAND {
        Some(a & b)
    } else if op == opcode::LOR {
        Some(a | b)
    } else if op == opcode::LXOR {
        Some(a ^ b)
    } else if 0 <= b < 64 {
        if op == opcode::LSHL {
            Some(a.wrapping_shl(b as u32))
        } else if op == opcode::LSHR {
            Some(a.wrapping_shr(b as u32))
        } else {
            Some(((a as u64) >> (b as u64)) as i64)
        }
    } else {
        None
    }
}

/// The one-operand instructions that rewrite the top value.
pub open spec fn is_unary_op(op: u8) -> bool {
    op == opcode::INEG || op == opcode::LNEG || op == opcode::FNEG || op == opcode::DNEG || op
        == opcode::I2B || op == opcode::I2C || op == opcode::I2L || op == opcode::I2S || op
        == opcode::L2I
}

/// What a one-operand instruction makes of the top value `v`: `Err` with the
/// reason when `v` has the wrong kind or the result does not exist.
pub open spec fn spec_unary(op: u8, v: JvmValue) -> Result<JvmValue, JvmError> {
    if op == opcode::LNEG || op == opcode::L2I {
        match v {
            JvmValue::Long(x) => if op == opcode::L2I {
                Ok(JvmValue::Int(x as i32))
            } else if x > i64::MIN {
                Ok(JvmValue::Long((-x) as i64))
            } else {
                Err(JvmError::ArithmeticError)
            },
            _ => Err(JvmError::TypeMismatch),
        }
    } else if op == opcode::FNEG {
        match v {
            JvmValue::Float(x) => Ok(JvmValue::Float(x ^ 0x8000_0000u32)),
            _ => Err(JvmError::TypeMismatch),
        }
    } else if op == opcode::DNEG {
        match v {
            JvmValue::Double(x) => Ok(JvmValue::Double(x ^ 0x8000_0000_0000_0000u64)),
            _ => Err(JvmError::TypeMismatch),
        }
    } else {
        match v {
            JvmValue::Int(x) => if op == opcode::INEG {
                if x > i32::MIN {
                    Ok(JvmValue::Int((-x) as i32))
                } else {
                    Err(JvmError::ArithmeticError)
                }
            } else if op == opcode::I2B {
                Ok(JvmValue::Byte(x as i8))
            } else if op == opcode::I2S {
                Ok(JvmValue::Short(x as i16))
            } else if op == opcode::I2L {
                Ok(JvmValue::Long(x as i64))
            } else if is_char_code(x as int) {
                Ok(JvmValue::Char(x as char))
            } else {
                Err(JvmError::InvalidChar)
            },
            _ => Err(JvmError::TypeMismatch),
        }
    }
}

/// The instructions that rearrange the operand stack without looking at
/// the values.
pub open spec fn is_shuffle_op(op: u8) -> bool {
    op == opcode::NOP || op == opcode::POP || op == opcode::POP2 || op == opcode::DUP || op
        == opcode::DUP_X1 || op == opcode::DUP_X2 || op == opcode::DUP2 || op == opcode::DUP2_X1
        || op == opcode::DUP2_X2 || op == opcode::SWAP || op == opcode::MONITORENTER || op
        == opcode::MONITOREXIT
}

/// How many values a rearranging instruction needs on the stack.
pub open spec fn shuffle_depth(op: u8) -> int {
    if op == opcode::NOP {
        0
    } else if op == opcode::POP || op == opcode::DUP || op == opcode::MONITORENTER || op
        == opcode::MONITOREXIT {
        1
    } else if op == opcode::POP2 || op == opcode::DUP_X1 || op == opcode::DUP2 || op
        == opcode::SWAP {
        2
    } else if op == opcode::DUP_X2 || op == opcode::DUP2_X1 {
        3
    } else {
        4
    }
}

/// The stack after a rearranging instruction (which has enough values).
pub open spec fn spec_shuffle(op: u8, s: Seq<JvmValue>) -> Seq<JvmValue> {
    if op == opcode::NOP {
        s
    } else if op == opcode::POP || op == opcode::MONITORENTER || op == opcode::MONITOREXIT {
        pop_n(s, 1)
    } else if op == opcode::POP2 {
        pop_n(s, 2)
    } else if op == opcode::DUP {
        s.push(peek(s, 0))
    } else if op == opcode::DUP_X1 {
        pop_n(s, 2).push(peek(s, 0)).push(peek(s, 1)).push(peek(s, 0))
    } else if op == opcode::DUP_X2 {
        pop_n(s, 3).push(peek(s, 0)).push(peek(s, 2)).push(peek(s, 1)).push(peek(s, 0))
    } else if op == opcode::DUP2 {
        pop_n(s, 2).push(peek(s, 1)).push(peek(s, 1))
    } else if op == opcode::DUP2_X1 {
        pop_n(s, 3).push(peek(s, 1)).push(peek(s, 0)).push(peek(s, 2)).push(peek(s, 1)).push(
            peek(s, 0),
        )
    } else if op == opcode::DUP2_X2 {
        pop_n(s, 4).push(peek(s, 1)).push(peek(s, 0)).push(peek(s, 3)).push(peek(s, 2)).push(
            peek(s, 1),
        ).push(peek(s, 0))
    } else {
        pop_n(s, 2).push(peek(s, 0)).push(peek(s, 1))
    }
}

/// The instructions that work on the operand stack alone.
pub open spec fn is_stack_op(op: u8) -> bool {
    spec_const_value(op) is Some || is_int_binop(op) || is_long_binop(op) || op == opcode::LCMP
        || is_unary_op(op) || is_shuffle_op(op)
}

/// The operand stack after an instruction that works on it alone, or why
/// the instruction cannot run on `s`.
pub open spec fn spec_stack_op(op: u8, s: Seq<JvmValue>) -> Result<Seq<JvmValue>, JvmError> {
    if spec_const_value(op) is Some {
        Ok(s.push(spec_const_value(op)->0))
    } else if is_int_binop(op) {
        if s.len() < 2 {
            Err(JvmError::StackUnderflow)
        } else if !two_ints(s) {
            Err(JvmError::TypeMismatch)
        } else {
            match spec_int_binop(op, int_at(s, 0), int_at(s, 1)) {
                Some(v) => Ok(pop_n(s, 2).push(JvmValue::Int(v))),
                None => Err(JvmError::ArithmeticError),
            }
        }
    } else if is_long_binop(op) || op == opcode::LCMP {
        if s.len() < 2 {
            Err(JvmError::StackUnderflow)
        } else if !two_longs(s) {
            Err(JvmError::TypeMismatch)
        } else if op == opcode::LCMP {
            Ok(pop_n(s, 2).push(JvmValue::Int(compare_result(long_at(s, 1), long_at(s, 0)))))
        } else {
            match spec_long_binop(op, long_at(s, 0), long_at(s, 1)) {
                Some(v) => Ok(pop_n(s, 2).push(JvmValue::Long(v))),
                None => Err(JvmError::ArithmeticError),
            }
        }
    } else if is_unary_op(op) {
        if s.len() < 1 {
            Err(JvmError::StackUnderflow)
        } else {
            match spec_unary(op, s.last()) {
                Ok(v) => Ok(s.drop_last().push(v)),
                Err(e) => Err(e),
            }
        }
    } else if s.len() < shuffle_depth(op) {
        Err(JvmError::StackUnderflow)
    } else {
        Ok(spec_shuffle(op, s))
    }
}

/// Pushes the constant of a constant-pushing instruction.
fn exec_const(op: u8, eval: &mut InterpEvalStack)
    requires
        spec_const_value(op) is Some,
    ensures
        final(eval)@ == old(eval)@.push(spec_const_value(op)->0),
{
    if op == opcode::ACONST_NULL {
        eval.aconst_null();
    } else if opcode::ICONST_M1 <= op && op <= opcode::ICONST_5 {
        eval.iconst(op as i32 - opcode::ICONST_0 as i32);
    } else if op == opcode::LCONST_0 {
        eval.lconst(0);
    } else if op == opcode::LCONST_1 {
        eval.lconst(1);
    } else if op == opcode::FCONST_0 {
        eval.fconst(0);
    } else if op == opcode::FCONST_1 {
        eval.fconst(0x3f80_0000);
    } else if op == opcode::FCONST_2 {
        eval.fconst(0x4000_0000);
    } else if op == opcode::DCONST_0 {
        eval.dconst(0);
    } else {
        eval.dconst(0x3ff0_0000_0000_0000);
    }
}

/// Runs a binary int instruction on two ints known to be on top.
fn exec_int_binop(op: u8, eval: &mut InterpEvalStack, a: i32, b: i32) -> (r: Result<(), JvmError>)
    requires
        is_int_binop(op),
        two_ints(old(eval)@),
        a == int_at(old(eval)@, 0),
        b == int_at(old(eval)@, 1),
    ensures
        match spec_int_binop(op, a, b) {
            Some(v) => r is Ok && final(eval)@ == pop_n(old(eval)@, 2).push(JvmValue::Int(v)),
            None => r == Err::<(), JvmError>(JvmError::ArithmeticError),
        },
{
    if op == opcode::IADD {
        if a.checked_add(b).is_none() {
            return Err(JvmError::ArithmeticError);
        }
        eval.iadd();
    } else if op == opcode::ISUB {
        if a.checked_sub(b).is_none() {
            return Err(JvmError::ArithmeticError);
        }
        eval.isub();
    } else if op == opcode::IMUL {
        if a.checked_mul(b).is_none() {
            return Err(JvmError::ArithmeticError);
        }
        eval.imul();
    } else if op == opcode::IDIV {
        if b.checked_div(a).is_none() {
            return Err(JvmError::ArithmeticError);
        }
        eval.idiv();
    } else if op == opcode::IREM {
        if b.checked_rem(a).is_none() {
            return Err(JvmError::ArithmeticError);
        }
        eval.irem();
    } else if op == opcode::IAND {
        eval.iand();
    } else if op == opcode::IOR {
        eval.ior();
    } else if op == opcode::IXOR {
        eval.ixor();
    } else {
        if b < 0 || b >= 32 {
            return Err(JvmError::ArithmeticError);
        }
        if op == opcode::ISHL {
            eval.ishl();
        } else if op == opcode::ISHR {
            eval.ishr();
        } else {
            eval.iushr();
        }
    }
    Ok(())
}

/// Runs a binary long instruction on two longs known to be on top.
fn exec_long_binop(op: u8, eval: &mut InterpEvalStack, a: i64, b: i64) -> (r: Result<(), JvmError>)
    requires
        is_long_binop(op),
        two_longs(old(eval)@),
        a == long_at(old(eval)@, 0),
        b == long_at(old(eval)@, 1),
    ensures
        match spec_long_binop(op, a, b) {
            Some(v) => r is Ok && final(eval)@ == pop_n(old(eval)@, 2).push(JvmValue::Long(v)),
            None => r == Err::<(), JvmError>(JvmError::ArithmeticError),
        },
{
    if op == opcode::LADD {
        if a.checked_add(b).is_none() {
            return Err(JvmError::ArithmeticError);
        }
        eval.ladd();
    } else if op == opcode::LSUB {
        if a.checked_sub(b).is_none() {
            return Err(JvmError::ArithmeticError);
        }
        eval.lsub();
    } else if op == opcode::LMUL {
        if b.checked_mul(a).is_none() {
            return Err(JvmError::ArithmeticError);
        }
        eval.lmul();
    } else if op == opcode::LDIV {
        if b.checked_div(a).is_none() {
            return Err(JvmError::ArithmeticError);
        }
        eval.ldiv();
    } else if op == opcode::LREM {
        if b.checked_rem(a).is_none() {
            return Err(JvmError::ArithmeticError);
        }
        eval.lrem();
    } else if op == opcode::LAND {
        eval.land();
    } else if op == opcode::LOR {
        eval.lor();
    } else if op == opcode::LXOR {
        eval.lxor();
    } else {
        if b < 0 || b >= 64 {
            return Err(JvmError::ArithmeticError);
        }
        if op == opcode::LSHL {
            eval.lshl();
        } else if op == opcode::LSHR {
            eval.lshr();
        } else {
            eval.lushr();
        }
    }
    Ok(())
}

/// Runs a one-operand instruction on the top value.
fn exec_unary(op: u8, eval: &mut InterpEvalStack) -> (r: Result<(), JvmError>)
    requires
        is_unary_op(op),
        old(eval)@.len() >= 1,
    ensures
        match spec_unary(op, old(eval)@.last()) {
            Ok(v) => r is Ok && final(eval)@ == old(eval)@.drop_last().push(v),
            Err(e) => r == Err::<(), JvmError>(e),
        },
{
    let v = eval.peek(0);
    proof {
        assert(peek(old(eval)@, 0) == old(eval)@.last());
    }
    if op == opcode::LNEG || op == opcode::L2I {
        match v {
            JvmValue::Long(x) => {
                if op == opcode::L2I {
                    eval.l2i();
                } else {
                    if x == i64::MIN {
                        return Err(JvmError::ArithmeticError);
                    }
                    eval.lneg();
                }
                Ok(())
            },
            _ => Err(JvmError::TypeMismatch),
        }
    } else if op == opcode::FNEG {
        match v {
            JvmValue::Float(_) => {
                eval.fneg();
                Ok(())
            },
            _ => Err(JvmError::TypeMismatch),
        }
    } else if op == opcode::DNEG {
        match v {
            JvmValue::Double(_) => {
                eval.dneg();
                Ok(())
            },
            _ => Err(JvmError::TypeMismatch),
        }
    } else {
        match v {
            JvmValue::Int(x) => {
                if op == opcode::INEG {
                    if x == i32::MIN {
                        return Err(JvmError::ArithmeticError);
                    }
                    eval.ineg();
                } else if op == opcode::I2B {
                    eval.i2b();
                } else if op == opcode::I2S {
                    eval.i2s();
                } else if op == opcode::I2L {
                    eval.i2l();
                } else {
                    if !((0 <= x && x <= 0xD7FF) || (0xE000 <= x && x <= 0x10FFFF)) {
                        return Err(JvmError::InvalidChar);
                    }
                    eval.i2c();
                }
                Ok(())
            },
            _ => Err(JvmError::TypeMismatch),
        }
    }
}

/// Runs a rearranging instruction on a stack deep enough for it.
fn exec_shuffle(op: u8, eval: &mut InterpEvalStack)
    requires
        is_shuffle_op(op),
        old(eval)@.len() >= shuffle_depth(op),
    ensures
        final(eval)@ == spec_shuffle(op, old(eval)@),
{
    let ghost s = eval@;
    if op == opcode::NOP {
    } else if op == opcode::POP || op == opcode::MONITORENTER || op == opcode::MONITOREXIT {
        eval.pop();
        proof {
            assert(s.drop_last() =~= pop_n(s, 1));
        }
    } else if op == opcode::POP2 {
        eval.pop();
        eval.pop();
        proof {
            assert(s.drop_last().drop_last() =~= pop_n(s, 2));
        }
    } else if op == opcode::DUP {
        eval.dup();
        proof {
            assert(s.last() == peek(s, 0));
        }
    } else if op == opcode::DUP_X1 {
        eval.dup_x1();
    } else if op == opcode::DUP_X2 {
        eval.dup_x2();
    } else if op == opcode::DUP2 {
        eval.dup2();
    } else if op == opcode::DUP2_X1 {
        eval.dup2_x1();
    } else if op == opcode::DUP2_X2 {
        eval.dup2_x2();
    } else {
        let v1 = eval.pop();
        let v2 = eval.pop();
        eval.push(v1);
        eval.push(v2);
        proof {
            assert(s.drop_last().drop_last() =~= pop_n(s, 2));
        }
    }
}

/// Runs an instruction that works on the operand stack alone (see
/// `spec_stack_op`).
pub fn exec_stack_op(op: u8, eval: &mut InterpEvalStack) -> (r: Result<(), JvmError>)
    requires
        is_stack_op(op),
    ensures
        match spec_stack_op(op, old(eval)@) {
            Ok(s) => r is Ok && final(eval)@ == s,
            Err(e) => r == Err::<(), JvmError>(e),
        },
{
    if op == opcode::ACONST_NULL || (opcode::ICONST_M1 <= op && op <= opcode::DCONST_1) {
        exec_const(op, eval);
        return Ok(());
    }
    let ghost s = eval@;
    if op == opcode::IADD || op == opcode::ISUB || op == opcode::IMUL || op == opcode::IDIV || op
        == opcode::IREM || op == opcode::IAND || op == opcode::IOR || op == opcode::IXOR || op
        == opcode::ISHL || op == opcode::ISHR || op == opcode::IUSHR {
        if eval.len() < 2 {
            return Err(JvmError::StackUnderflow);
        }
        match (eval.peek(0), eval.peek(1)) {
            (JvmValue::Int(a), JvmValue::Int(b)) => exec_int_binop(op, eval, a, b),
            _ => Err(JvmError::TypeMismatch),
        }
    } else if op == opcode::LADD || op == opcode::LSUB || op == opcode::LMUL || op == opcode::LDIV
        || op == opcode::LREM || op == opcode::LAND || op == opcode::LOR || op == opcode::LXOR
        || op == opcode::LSHL || op == opcode::LSHR || op == opcode::LUSHR || op == opcode::LCMP {
        if eval.len() < 2 {
            return Err(JvmError::StackUnderflow);
        }
        match (eval.peek(0), eval.peek(1)) {
            (JvmValue::Long(a), JvmValue::Long(b)) => {
                if op == opcode::LCMP {
                    eval.lcmp();
                    Ok(())
                } else {
                    exec_long_binop(op, eval, a, b)
                }
            },
            _ => Err(JvmError::TypeMismatch),
        }
    } else if op == opcode::INEG || op == opcode::LNEG || op == opcode::FNEG || op == opcode::DNEG
        || op == opcode::I2B || op == opcode::I2C || op == opcode::I2L || op == opcode::I2S || op
        == opcode::L2I {
        if eval.len() < 1 {
            return Err(JvmError::StackUnderflow);
        }
        exec_unary(op, eval)
    } else {
        let depth: usize = if op == opcode::NOP {
            0
        } else if op == opcode::POP || op == opcode::DUP || op == opcode::MONITORENTER || op
            == opcode::MONITOREXIT {
            1
        } else if op == opcode::POP2 || op == opcode::DUP_X1 || op == opcode::DUP2 || op
            == opcode::SWAP {
            2
        } else if op == opcode::DUP_X2 || op == opcode::DUP2_X1 {
            3
        } else {
            4
        };
        if eval.len() < depth {
            return Err(JvmError::StackUnderflow);
        }
        exec_shuffle(op, eval);
        Ok(())
    }
}

/// Duplicating the top value and popping it again leaves the operand stack
/// as it was.
pub proof fn law_dup_then_pop(s: Seq<JvmValue>)
    requires
        s.len() >= 1,
    ensures
        spec_stack_op(opcode::DUP, s) matches Ok(s2) && spec_stack_op(opcode::POP, s2) == Ok::<
            Seq<JvmValue>,
            JvmError,
        >(s),
{
    assert(pop_n(s.push(peek(s, 0)), 1) =~= s);
}

/// Swapping the top two values twice leaves the operand stack as it was.
pub proof fn law_swap_twice(s: Seq<JvmValue>)
    requires
        s.len() >= 2,
    ensures
        spec_stack_op(opcode::SWAP, s) matches Ok(s2) && spec_stack_op(opcode::SWAP, s2) == Ok::<
            Seq<JvmValue>,
            JvmError,
        >(s),
{
    let s2 = pop_n(s, 2).push(peek(s, 0)).push(peek(s, 1));
    assert(pop_n(s2, 2) =~= pop_n(s, 2));
    assert(pop_n(s2, 2).push(peek(s2, 0)).push(peek(s2, 1)) =~= s);
}

/// Pushing a constant and popping it again leaves the operand stack as it
/// was.
pub proof fn law_const_then_pop(op: u8, s: Seq<JvmValue>)
    requires
        spec_const_value(op) is Some,
    ensures
        spec_stack_op(op, s) matches Ok(s2) && spec_stack_op(opcode::POP, s2) == Ok::<
            Seq<JvmValue>,
            JvmError,
        >(s),
{
    assert(pop_n(s.push(spec_const_value(op)->0), 1) =~= s);
}

/// The bitwise and additive int instructions on a stack that ends with two
/// ints, `b` and then `a` on top: both are popped and `iand` pushes
/// `a & b`, `ior` pushes `a | b`, `ixor` pushes `a ^ b`, and `iadd`,
/// `isub` and `imul` push `a + b`, `a - b` and `a * b` when these fit in an
/// int; the rest of the stack stays as it was.
pub proof fn law_int_binops(s: Seq<JvmValue>, a: i32, b: i32)
    ensures
        spec_stack_op(opcode::IAND, s.push(JvmValue::Int(b)).push(JvmValue::Int(a)))
            == Ok::<Seq<JvmValue>, JvmError>(s.push(JvmValue::Int(a & b))),
        spec_stack_op(opcode::IOR, s.push(JvmValue::Int(b)).push(JvmValue::Int(a)))
            == Ok::<Seq<JvmValue>, JvmError>(s.push(JvmValue::Int(a | b))),
        spec_stack_op(opcode::IXOR, s.push(JvmValue::Int(b)).push(JvmValue::Int(a)))
            == Ok::<Seq<JvmValue>, JvmError>(s.push(JvmValue::Int(a ^ b))),
        i32::MIN <= a + b <= i32::MAX ==> spec_stack_op(
            opcode::IADD,
            s.push(JvmValue::Int(b)).push(JvmValue::Int(a)),
        ) == Ok::<Seq<JvmValue>, JvmError>(s.push(JvmValue::Int((a + b) as i32))),
        i32::MIN <= a - b <= i32::MAX ==> spec_stack_op(
            opcode::ISUB,
            s.push(JvmValue::Int(b)).push(JvmValue::Int(a)),
        ) == Ok::<Seq<JvmValue>, JvmError>(s.push(JvmValue::Int((a - b) as i32))),
        i32::MIN <= a * b <= i32::MAX ==> spec_stack_op(
            opcode::IMUL,
            s.push(JvmValue::Int(b)).push(JvmValue::Int(a)),
        ) == Ok::<Seq<JvmValue>, JvmError>(s.push(JvmValue::Int((a * b) as i32))),
{
    let t = s.push(JvmValue::Int(b)).push(JvmValue::Int(a));
    assert(pop_n(t, 2) =~= s);
}

/// The bitwise and additive long instructions, as `law_int_binops` says of
/// the int ones: on `.., b, a` of two longs, `land`, `lor` and `lxor` push
/// `a & b`, `a | b` and `a ^ b`, and `ladd`, `lsub` and `lmul` push
/// `a + b`, `a - b` and `a * b` when these fit in a long.
pub proof fn law_long_binops(s: Seq<JvmValue>, a: i64, b: i64)
    ensures
        spec_stack_op(opcode::LAND, s.push(JvmValue::Long(b)).push(JvmValue::Long(a)))
            == Ok::<Seq<JvmValue>, JvmError>(s.push(JvmValue::Long(a & b))),
        spec_stack_op(opcode::LOR, s.push(JvmValue::Long(b)).push(JvmValue::Long(a)))
            == Ok::<Seq<JvmValue>, JvmError>(s.push(JvmValue::Long(a | b))),
        spec_stack_op(opcode::LXOR, s.push(JvmValue::Long(b)).push(JvmValue::Long(a)))
            == Ok::<Seq<JvmValue>, JvmError>(s.push(JvmValue::Long(a ^ b))),
        i64::MIN <= a + b <= i64::MAX ==> spec_stack_op(
            opcode::LADD,
            s.push(JvmValue::Long(b)).push(JvmValue::Long(a)),
        ) == Ok::<Seq<JvmValue>, JvmError>(s.push(JvmValue::Long((a + b) as i64))),
        i64::MIN <= a - b <= i64::MAX ==> spec_stack_op(
            opcode::LSUB,
            s.push(JvmValue::Long(b)).push(JvmValue::Long(a)),
        ) == Ok::<Seq<JvmValue>, JvmError>(s.push(JvmValue::Long((a - b) as i64))),
        i64::MIN <= a * b <= i64::MAX ==> spec_stack_op(
            opcode::LMUL,
            s.push(JvmValue::Long(b)).push(JvmValue::Long(a)),
        ) == Ok::<Seq<JvmValue>, JvmError>(s.push(JvmValue::Long((a * b) as i64))),
{
    let t = s.push(JvmValue::Long(b)).push(JvmValue::Long(a));
    assert(pop_n(t, 2) =~= s);
    assert(b * a == a * b) by (nonlinear_arith);
}

/// `lcmp` on a stack that ends with two longs, `b` and then `a` on top,
/// pops both and pushes -1, 0 or 1 as `b` is below, equal to or above `a`.
pub proof fn law_lcmp(s: Seq<JvmValue>, a: i64, b: i64)
    ensures
        spec_stack_op(opcode::LCMP, s.push(JvmValue::Long(b)).push(JvmValue::Long(a)))
            == Ok::<Seq<JvmValue>, JvmError>(
            s.push(JvmValue::Int(if b < a { -1i32 } else if b == a { 0i32 } else { 1i32 })),
        ),
{
    let t = s.push(JvmValue::Long(b)).push(JvmValue::Long(a));
    assert(pop_n(t, 2) =~= s);
}

/// The one-operand int and long instructions rewrite the top value alone:
/// `ineg` and `lneg` give the number that adds up to zero with it (when it
/// exists), `i2l` the same number as a long, and `l2i` a long that fits in
/// an int as that int.
pub proof fn law_unary_ops(s: Seq<JvmValue>, x: i32, y: i64)
    ensures
        x > i32::MIN ==> (spec_stack_op(opcode::INEG, s.push(JvmValue::Int(x))) matches Ok(t) && t
            == s.push(t.last()) && (t.last() matches JvmValue::Int(r) && r + x == 0)),
        y > i64::MIN ==> (spec_stack_op(opcode::LNEG, s.push(JvmValue::Long(y))) matches Ok(t) && t
            == s.push(t.last()) && (t.last() matches JvmValue::Long(r) && r + y == 0)),
        (spec_stack_op(opcode::I2L, s.push(JvmValue::Int(x))) matches Ok(t) && t == s.push(t.last())
            && (t.last() matches JvmValue::Long(r) && r == x)),
        i32::MIN <= y <= i32::MAX ==> (spec_stack_op(opcode::L2I, s.push(JvmValue::Long(y))) matches Ok(
            t,
        ) && t == s.push(t.last()) && (t.last() matches JvmValue::Int(r) && r == y)),
{
    assert(s.push(JvmValue::Int(x)).drop_last() =~= s);
    assert(s.push(JvmValue::Long(y)).drop_last() =~= s);
}

/// The instructions that rearrange a stack ending `.., b, a` (`a` on top):
/// `dup` gives `.., b, a, a`, `dup_x1` gives `.., a, b, a`, `swap` gives
/// `.., a, b`, `pop` gives `.., b` and `pop2` gives `..`.
pub proof fn law_shuffles(s: Seq<JvmValue>, a: JvmValue, b: JvmValue)
    ensures
        spec_stack_op(opcode::DUP, s.push(b).push(a)) == Ok::<Seq<JvmValue>, JvmError>(
            s.push(b).push(a).push(a),
        ),
        spec_stack_op(opcode::DUP_X1, s.push(b).push(a)) == Ok::<Seq<JvmValue>, JvmError>(
            s.push(a).push(b).push(a),
        ),
        spec_stack_op(opcode::SWAP, s.push(b).push(a)) == Ok::<Seq<JvmValue>, JvmError>(
            s.push(a).push(b),
        ),
        spec_stack_op(opcode::POP, s.push(b).push(a)) == Ok::<Seq<JvmValue>, JvmError>(s.push(b)),
        spec_stack_op(opcode::POP2, s.push(b).push(a)) == Ok::<Seq<JvmValue>, JvmError>(s),
{
    let t = s.push(b).push(a);
    assert(pop_n(t, 2) =~= s);
    assert(pop_n(t, 1) =~= s.push(b));
}

/// The constant instructions push their constant and leave the rest of
/// the stack: `iconst_m1` to `iconst_5` push the ints -1 to 5 in opcode
/// order, `lconst_0` and `lconst_1` the longs 0 and 1, `aconst_null` the
/// null reference.
pub proof fn law_constants(s: Seq<JvmValue>, k: int)
    requires
        -1 <= k <= 5,
    ensures
        spec_stack_op((opcode::ICONST_0 + k) as u8, s) == Ok::<Seq<JvmValue>, JvmError>(
            s.push(JvmValue::Int(k as i32)),
        ),
        spec_stack_op(opcode::LCONST_0, s) == Ok::<Seq<JvmValue>, JvmError>(
            s.push(JvmValue::Long(0)),
        ),
        spec_stack_op(opcode::LCONST_1, s) == Ok::<Seq<JvmValue>, JvmError>(
            s.push(JvmValue::Long(1)),
        ),
        spec_stack_op(opcode::ACONST_NULL, s) == Ok::<Seq<JvmValue>, JvmError>(
            s.push(JvmValue::ObjRef(0)),
        ),
{
}

} // verus!
