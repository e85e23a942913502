use vstd::prelude::*;

use crate::values::JvmValue;

verus! {

/// The value `k` places below the top of `s` (0 is the top).
pub open spec fn peek(s: Seq<JvmValue>, k: int) -> JvmValue {
    s[s.len() - 1 - k]
}

/// `s` without its top `n` values.
pub open spec fn pop_n(s: Seq<JvmValue>, n: int) -> Seq<JvmValue> {
    s.subrange(0, s.len() - n)
}

/// The top two values of `s` are both `Int`.
pub open spec fn two_ints(s: Seq<JvmValue>) -> bool {
    s.len() >= 2 && peek(s, 0) is Int && peek(s, 1) is Int
}

/// The top two values of `s` are both `Long`.
pub open spec fn two_longs(s: Seq<JvmValue>) -> bool {
    s.len() >= 2 && peek(s, 0) is Long && peek(s, 1) is Long
}

/// The `Int` held `k` places below the top of `s`.
pub open spec fn int_at(s: Seq<JvmValue>, k: int) -> i32 {
    peek(s, k)->Int_0
}

/// The `Long` held `k` places below the top of `s`.
pub open spec fn long_at(s: Seq<JvmValue>, k: int) -> i64 {
    peek(s, k)->Long_0
}

/// The result of comparing two longs, as pushed by `lcmp`.
pub open spec fn compare_result(a: i64, b: i64) -> i32 {
    if a < b {
        -1i32
    } else if a == b {
        0i32
    } else {
        1i32
    }
}

/// Unicode scalar values: the code points that a `char` can hold.
pub open spec fn is_char_code(v: int) -> bool {
    (0 <= v && v <= 0xD7FF) || (0xE000 <= v && v <= 0x10FFFF)
}

/// Calls `char::from_u32`: `Some` exactly for scalar values, holding the
/// character with that code point.
#[verifier::external_body]
fn char_from_u32(v: u32) -> (r: Option<char>)
    ensures
        r is Some <==> is_char_code(v as int),
        is_char_code(v as int) ==> r == Some(v as char),
{
    std::char::from_u32(v)
}

/// The operand stack of a method activation. The last element is the top.
pub struct InterpEvalStack {
    stack: Vec<JvmValue>,
}

impl View for InterpEvalStack {
    type V = Seq<JvmValue>;

    closed spec fn view(&self) -> Seq<JvmValue> {
        self.stack@
    }
}

impl InterpEvalStack {
    pub fn of() -> (r: InterpEvalStack)
        ensures
            r@ == Seq::<JvmValue>::empty(),
    {
        InterpEvalStack { stack: Vec::new() }
    }

    pub fn len(&self) -> (r: usize)
        ensures
            r == self@.len(),
    {
        self.stack.len()
    }

    /// The value `k` places below the top, without removing it.
    pub fn peek(&self, k: usize) -> (r: JvmValue)
        requires
            k < self@.len(),
        ensures
            r == peek(self@, k as int),
    {
        self.stack[self.stack.len() - 1 - k]
    }

    pub fn push(&mut self, val: JvmValue)
        ensures
            final(self)@ == old(self)@.push(val),
    {
        self.stack.push(val);
    }

    pub fn pop(&mut self) -> (r: JvmValue)
        requires
            old(self)@.len() > 0,
        ensures
            r == old(self)@.last(),
            final(self)@ == old(self)@.drop_last(),
    {
        self.stack.pop().unwrap()
    }

    /// Pops an `Int` that is known to be on top.
    fn pop_int(&mut self) -> (r: i32)
        requires
            old(self)@.len() > 0,
            old(self)@.last() is Int,
        ensures
            r == old(self)@.last()->Int_0,
            final(self)@ == old(self)@.drop_last(),
    {
        match self.stack.pop().unwrap() {
            JvmValue::Int(v) => v,
            _ => 0,
        }
    }

    /// Pops a `Long` that is known to be on top.
    fn pop_long(&mut self) -> (r: i64)
        requires
            old(self)@.len() > 0,
            old(self)@.last() is Long,
        ensures
            r == old(self)@.last()->Long_0,
            final(self)@ == old(self)@.drop_last(),
    {
        match self.stack.pop().unwrap() {
            JvmValue::Long(v) => v,
            _ => 0,
        }
    }

    pub fn aconst_null(&mut self)
        ensures
            final(self)@ == old(self)@.push(JvmValue::ObjRef(0)),
    {
        self.push(JvmValue::ObjRef(0));
    }

    pub fn iconst(&mut self, v: i32)
        ensures
            final(self)@ == old(self)@.push(JvmValue::Int(v)),
    {
        self.push(JvmValue::Int(v));
    }

    pub fn lconst(&mut self, v: i64)
        ensures
            final(self)@ == old(self)@.push(JvmValue::Long(v)),
    {
        self.push(JvmValue::Long(v));
    }

    /// Pushes the float whose bit pattern is `bits`.
    pub fn fconst(&mut self, bits: u32)
        ensures
            final(self)@ == old(self)@.push(JvmValue::Float(bits)),
    {
        self.push(JvmValue::Float(bits));
    }

    /// Pushes the double whose bit pattern is `bits`.
    pub fn dconst(&mut self, bits: u64)
        ensures
            final(self)@ == old(self)@.push(JvmValue::Double(bits)),
    {
        self.push(JvmValue::Double(bits));
    }

    /// Pops two ints and pushes the sum of the top two ints.
    pub fn iadd(&mut self)
        requires
            two_ints(old(self)@),
            i32::MIN <= int_at(old(self)@, 0) + int_at(old(self)@, 1) <= i32::MAX,
        ensures
            final(self)@ == pop_n(old(self)@, 2).push(JvmValue::Int((int_at(old(self)@, 0) + int_at(old(self)@, 1)) as i32)),
    {
        let ghost s = self@;
        let i1 = self.pop_int();
        let i2 = self.pop_int();
        proof {
            assert(s.drop_last().drop_last() =~= pop_n(s, 2));
        }
        self.push(JvmValue::Int(i1 + i2));
    }

    /// Pops two ints and pushes the top int minus the one below it.
    pub fn isub(&mut self)
        requires
            two_ints(old(self)@),
            i32::MIN <= int_at(old(self)@, 0) - int_at(old(self)@, 1) <= i32::MAX,
        ensures
            final(self)@ == pop_n(old(self)@, 2).push(JvmValue::Int((int_at(old(self)@, 0) - int_at(old(self)@, 1)) as i32)),
    {
        let ghost s = self@;
        let i1 = self.pop_int();
        let i2 = self.pop_int();
        proof {
            assert(s.drop_last().drop_last() =~= pop_n(s, 2));
        }
        self.push(JvmValue::Int(i1 - i2));
    }

    /// Pops two ints and pushes the product of the top two ints.
    pub fn imul(&mut self)
        requires
            two_ints(old(self)@),
            i32::MIN <= int_at(old(self)@, 0) * int_at(old(self)@, 1) <= i32::MAX,
        ensures
            final(self)@ == pop_n(old(self)@, 2).push(JvmValue::Int((int_at(old(self)@, 0) * int_at(old(self)@, 1)) as i32)),
    {
        let ghost s = self@;
        let i1 = self.pop_int();
        let i2 = self.pop_int();
        proof {
            assert(s.drop_last().drop_last() =~= pop_n(s, 2));
        }
        self.push(JvmValue::Int(i1 * i2));
    }

    /// Pops two ints and pushes the remainder of the second int divided by the top int.
    pub fn irem(&mut self)
        requires
            two_ints(old(self)@),
            int_at(old(self)@, 1).checked_rem(int_at(old(self)@, 0)) is Some,
        ensures
            final(self)@ == pop_n(old(self)@, 2).push(JvmValue::Int(int_at(old(self)@, 1).checked_rem(int_at(old(self)@, 0))->0)),
    {
        let ghost s = self@;
        let i1 = self.pop_int();
        let i2 = self.pop_int();
        proof {
            assert(s.drop_last().drop_last() =~= pop_n(s, 2));
        }
        self.push(JvmValue::Int(i2.checked_rem(i1).unwrap()));
    }

    /// Pops two ints and pushes the second int divided by the top int, rounded toward zero.
    pub fn idiv(&mut self)
        requires
            two_ints(old(self)@),
            int_at(old(self)@, 1).checked_div(int_at(old(self)@, 0)) is Some,
        ensures
            final(self)@ == pop_n(old(self)@, 2).push(JvmValue::Int(int_at(old(self)@, 1).checked_div(int_at(old(self)@, 0))->0)),
    {
        let ghost s = self@;
        let i1 = self.pop_int();
        let i2 = self.pop_int();
        proof {
            assert(s.drop_last().drop_last() =~= pop_n(s, 2));
        }
        self.push(JvmValue::Int(i2.checked_div(i1).unwrap()));
    }

    /// Pops two ints and pushes the bitwise and of the top two ints.
    pub fn iand(&mut self)
        requires
            two_ints(old(self)@),
        ensures
            final(self)@ == pop_n(old(self)@, 2).push(JvmValue::Int(int_at(old(self)@, 0) & int_at(old(self)@, 1))),
    {
        let ghost s = self@;
        let i1 = self.pop_int();
        let i2 = self.pop_int();
        proof {
            assert(s.drop_last().drop_last() =~= pop_n(s, 2));
        }
        self.push(JvmValue::Int(i1 & i2));
    }

    /// Pops two ints and pushes the bitwise or of the top two ints.
    pub fn ior(&mut self)
        requires
            two_ints(old(self)@),
        ensures
            final(self)@ == pop_n(old(self)@, 2).push(JvmValue::Int(int_at(old(self)@, 0) | int_at(old(self)@, 1))),
    {
        let ghost s = self@;
        let i1 = self.pop_int();
        let i2 = self.pop_int();
        proof {
            assert(s.drop_last().drop_last() =~= pop_n(s, 2));
        }
        self.push(JvmValue::Int(i1 | i2));
    }

    /// Pops two ints and pushes the bitwise exclusive or of the top two ints.
    pub fn ixor(&mut self)
        requires
            two_ints(old(self)@),
        ensures
            final(self)@ == pop_n(old(self)@, 2).push(JvmValue::Int(int_at(old(self)@, 0) ^ int_at(old(self)@, 1))),
    {
        let ghost s = self@;
        let i1 = self.pop_int();
        let i2 = self.pop_int();
        proof {
            assert(s.drop_last().drop_last() =~= pop_n(s, 2));
        }
        self.push(JvmValue::Int(i1 ^ i2));
    }

    /// Pops two ints and pushes the top int shifted left by the int below it.
    pub fn ishl(&mut self)
        requires
            two_ints(old(self)@),
            0 <= int_at(old(self)@, 1) < 32,
        ensures
            final(self)@ == pop_n(old(self)@, 2).push(JvmValue::Int(int_at(old(self)@, 0).wrapping_shl(int_at(old(self)@, 1) as u32))),
    {
        let ghost s = self@;
        let i1 = self.pop_int();
        let i2 = self.pop_int();
        proof {
            assert(s.drop_last().drop_last() =~= pop_n(s, 2));
        }
        self.push(JvmValue::Int(i1.wrapping_shl(i2 as u32)));
    }

    /// Pops two ints and pushes the top int shifted right, keeping its sign, by the int below it.
    pub fn ishr(&mut self)
        requires
            two_ints(old(self)@),
            0 <= int_at(old(self)@, 1) < 32,
        ensures
            final(self)@ == pop_n(old(self)@, 2).push(JvmValue::Int(int_at(old(self)@, 0).wrapping_shr(int_at(old(self)@, 1) as u32))),
    {
        let ghost s = self@;
        let i1 = self.pop_int();
        let i2 = self.pop_int();
        proof {
            assert(s.drop_last().drop_last() =~= pop_n(s, 2));
        }
        self.push(JvmValue::Int(i1.wrapping_shr(i2 as u32)));
    }

    /// Pops two ints and pushes the top int shifted right, filling with zeros, by the int below it.
    pub fn iushr(&mut self)
        requires
            two_ints(old(self)@),
            0 <= int_at(old(self)@, 1) < 32,
        ensures
            final(self)@ == pop_n(old(self)@, 2).push(JvmValue::Int(((int_at(old(self)@, 0) as u32) >> (int_at(old(self)@, 1) as u32)) as i32)),
    {
        let ghost s = self@;
        let i1 = self.pop_int();
        let i2 = self.pop_int();
        proof {
            assert(s.drop_last().drop_last() =~= pop_n(s, 2));
        }
        self.push(JvmValue::Int(((i1 as u32) >> (i2 as u32)) as i32));
    }

    /// Pops two longs and pushes the sum of the top two longs.
    pub fn ladd(&mut self)
        requires
            two_longs(old(self)@),
            i64::MIN <= long_at(old(self)@, 0) + long_at(old(self)@, 1) <= i64::MAX,
        ensures
            final(self)@ == pop_n(old(self)@, 2).push(JvmValue::Long((long_at(old(self)@, 0) + long_at(old(self)@, 1)) as i64)),
    {
        let ghost s = self@;
        let i1 = self.pop_long();
        let i2 = self.pop_long();
        proof {
            assert(s.drop_last().drop_last() =~= pop_n(s, 2));
        }
        self.push(JvmValue::Long(i1 + i2));
    }

    /// Pops two longs and pushes the top long minus the one below it.
    pub fn lsub(&mut self)
        requires
            two_longs(old(self)@),
            i64::MIN <= long_at(old(self)@, 0) - long_at(old(self)@, 1) <= i64::MAX,
        ensures
            final(self)@ == pop_n(old(self)@, 2).push(JvmValue::Long((long_at(old(self)@, 0) - long_at(old(self)@, 1)) as i64)),
    {
        let ghost s = self@;
        let i1 = self.pop_long();
        let i2 = self.pop_long();
        proof {
            assert(s.drop_last().drop_last() =~= pop_n(s, 2));
        }
        self.push(JvmValue::Long(i1 - i2));
    }

    /// Pops two longs and pushes the remainder of the second long divided by the top long.
    pub fn lrem(&mut self)
        requires
            two_longs(old(self)@),
            long_at(old(self)@, 1).checked_rem(long_at(old(self)@, 0)) is Some,
        ensures
            final(self)@ == pop_n(old(self)@, 2).push(JvmValue::Long(long_at(old(self)@, 1).checked_rem(long_at(old(self)@, 0))->0)),
    {
        let ghost s = self@;
        let i1 = self.pop_long();
        let i2 = self.pop_long();
        proof {
            assert(s.drop_last().drop_last() =~= pop_n(s, 2));
        }
        self.push(JvmValue::Long(i2.checked_rem(i1).unwrap()));
    }

    /// Pops two longs and pushes the second long divided by the top long, rounded toward zero.
    pub fn ldiv(&mut self)
        requires
            two_longs(old(self)@),
            long_at(old(self)@, 1).checked_div(long_at(old(self)@, 0)) is Some,
        ensures
            final(self)@ == pop_n(old(self)@, 2).push(JvmValue::Long(long_at(old(self)@, 1).checked_div(long_at(old(self)@, 0))->0)),
    {
        let ghost s = self@;
        let i1 = self.pop_long();
        let i2 = self.pop_long();
        proof {
            assert(s.drop_last().drop_last() =~= pop_n(s, 2));
        }
        self.push(JvmValue::Long(i2.checked_div(i1).unwrap()));
    }

    /// Pops two longs and pushes the product of the top two longs.
    pub fn lmul(&mut self)
        requires
            two_longs(old(self)@),
            i64::MIN <= long_at(old(self)@, 1) * long_at(old(self)@, 0) <= i64::MAX,
        ensures
            final(self)@ == pop_n(old(self)@, 2).push(JvmValue::Long((long_at(old(self)@, 1) * long_at(old(self)@, 0)) as i64)),
    {
        let ghost s = self@;
        let i1 = self.pop_long();
        let i2 = self.pop_long();
        proof {
            assert(s.drop_last().drop_last() =~= pop_n(s, 2));
        }
        self.push(JvmValue::Long(i2 * i1));
    }

    /// Pops two longs and pushes the bitwise and of the top two longs.
    pub fn land(&mut self)
        requires
            two_longs(old(self)@),
        ensures
            final(self)@ == pop_n(old(self)@, 2).push(JvmValue::Long(long_at(old(self)@, 0) & long_at(old(self)@, 1))),
    {
        let ghost s = self@;
        let i1 = self.pop_long();
        let i2 = self.pop_long();
        proof {
            assert(s.drop_last().drop_last() =~= pop_n(s, 2));
        }
        self.push(JvmValue::Long(i1 & i2));
    }

    /// Pops two longs and pushes the bitwise or of the top two longs.
    pub fn lor(&mut self)
        requires
            two_longs(old(self)@),
        ensures
            final(self)@ == pop_n(old(self)@, 2).push(JvmValue::Long(long_at(old(self)@, 0) | long_at(old(self)@, 1))),
    {
        let ghost s = self@;
        let i1 = self.pop_long();
        let i2 = self.pop_long();
        proof {
            assert(s.drop_last().drop_last() =~= pop_n(s, 2));
        }
        self.push(JvmValue::Long(i1 | i2));
    }

    /// Pops two longs and pushes the bitwise exclusive or of the top two longs.
    pub fn lxor(&mut self)
        requires
            two_longs(old(self)@),
        ensures
            final(self)@ == pop_n(old(self)@, 2).push(JvmValue::Long(long_at(old(self)@, 0) ^ long_at(old(self)@, 1))),
    {
        let ghost s = self@;
        let i1 = self.pop_long();
        let i2 = self.pop_long();
        proof {
            assert(s.drop_last().drop_last() =~= pop_n(s, 2));
        }
        self.push(JvmValue::Long(i1 ^ i2));
    }

    /// Pops two longs and pushes the top long shifted left by the long below it.
    pub fn lshl(&mut self)
        requires
            two_longs(old(self)@),
            0 <= long_at(old(self)@, 1) < 64,
        ensures
            final(self)@ == pop_n(old(self)@, 2).push(JvmValue::Long(long_at(old(self)@, 0).wrapping_shl(long_at(old(self)@, 1) as u32))),
    {
        let ghost s = self@;
        let i1 = self.pop_long();
        let i2 = self.pop_long();
        proof {
            assert(s.drop_last().drop_last() =~= pop_n(s, 2));
        }
        self.push(JvmValue::Long(i1.wrapping_shl(i2 as u32)));
    }

    /// Pops two longs and pushes the top long shifted right, keeping its sign, by the long below it.
    pub fn lshr(&mut self)
        requires
            two_longs(old(self)@),
            0 <= long_at(old(self)@, 1) < 64,
        ensures
            final(self)@ == pop_n(old(self)@, 2).push(JvmValue::Long(long_at(old(self)@, 0).wrapping_shr(long_at(old(self)@, 1) as u32))),
    {
        let ghost s = self@;
        let i1 = self.pop_long();
        let i2 = self.pop_long();
        proof {
            assert(s.drop_last().drop_last() =~= pop_n(s, 2));
        }
        self.push(JvmValue::Long(i1.wrapping_shr(i2 as u32)));
    }

    /// Pops two longs and pushes the top long shifted right, filling with zeros, by the long below it.
    pub fn lushr(&mut self)
        requires
            two_longs(old(self)@),
            0 <= long_at(old(self)@, 1) < 64,
        ensures
            final(self)@ == pop_n(old(self)@, 2).push(JvmValue::Long(((long_at(old(self)@, 0) as u64) >> (long_at(old(self)@, 1) as u64)) as i64)),
    {
        let ghost s = self@;
        let i1 = self.pop_long();
        let i2 = self.pop_long();
        proof {
            assert(s.drop_last().drop_last() =~= pop_n(s, 2));
        }
        self.push(JvmValue::Long(((i1 as u64) >> (i2 as u64)) as i64));
    }

    /// Negates the top int.
    pub fn ineg(&mut self)
        requires
            old(self)@.len() > 0,
            old(self)@.last() is Int,
            old(self)@.last()->Int_0 > i32::MIN,
        ensures
            final(self)@ == old(self)@.drop_last().push(JvmValue::Int((-old(self)@.last()->Int_0) as i32)),
    {
        let i1 = self.pop_int();
        self.push(JvmValue::Int(-i1));
    }

    /// Replaces the top int by its low 8 bits as a byte.
    pub fn i2b(&mut self)
        requires
            old(self)@.len() > 0,
            old(self)@.last() is Int,
        ensures
            final(self)@ == old(self)@.drop_last().push(JvmValue::Byte(old(self)@.last()->Int_0 as i8)),
    {
        let i1 = self.pop_int();
        self.push(JvmValue::Byte(i1 as i8));
    }

    /// Replaces the top int by its low 16 bits as a short.
    pub fn i2s(&mut self)
        requires
            old(self)@.len() > 0,
            old(self)@.last() is Int,
        ensures
            final(self)@ == old(self)@.drop_last().push(JvmValue::Short(old(self)@.last()->Int_0 as i16)),
    {
        let i1 = self.pop_int();
        self.push(JvmValue::Short(i1 as i16));
    }

    /// Widens the top int to a long.
    pub fn i2l(&mut self)
        requires
            old(self)@.len() > 0,
            old(self)@.last() is Int,
        ensures
            final(self)@ == old(self)@.drop_last().push(JvmValue::Long(old(self)@.last()->Int_0 as i64)),
    {
        let i1 = self.pop_int();
        self.push(JvmValue::Long(i1 as i64));
    }

    /// Replaces the top long by its low 32 bits as an int.
    pub fn l2i(&mut self)
        requires
            old(self)@.len() > 0,
            old(self)@.last() is Long,
        ensures
            final(self)@ == old(self)@.drop_last().push(JvmValue::Int(old(self)@.last()->Long_0 as i32)),
    {
        let i1 = self.pop_long();
        self.push(JvmValue::Int(i1 as i32));
    }

    /// Negates the top long.
    pub fn lneg(&mut self)
        requires
            old(self)@.len() > 0,
            old(self)@.last() is Long,
            old(self)@.last()->Long_0 > i64::MIN,
        ensures
            final(self)@ == old(self)@.drop_last().push(JvmValue::Long((-old(self)@.last()->Long_0) as i64)),
    {
        let i1 = self.pop_long();
        self.push(JvmValue::Long(-i1));
    }

    /// Replaces the top int by the character with that code point; the int
    /// must be a valid scalar value.
    pub fn i2c(&mut self)
        requires
            old(self)@.len() > 0,
            old(self)@.last() is Int,
            is_char_code(old(self)@.last()->Int_0 as int),
        ensures
            final(self)@ == old(self)@.drop_last().push(
                JvmValue::Char(old(self)@.last()->Int_0 as char),
            ),
    {
        let i1 = self.pop_int();
        let c = char_from_u32(i1 as u32).unwrap();
        self.push(JvmValue::Char(c));
    }

    /// Pops two longs and pushes -1, 0 or 1 as the second is below, equal
    /// to or above the top one.
    pub fn lcmp(&mut self)
        requires
            two_longs(old(self)@),
        ensures
            final(self)@ == pop_n(old(self)@, 2).push(
                JvmValue::Int(compare_result(long_at(old(self)@, 1), long_at(old(self)@, 0))),
            ),
    {
        let ghost s = self@;
        let v2 = self.pop_long();
        let v1 = self.pop_long();
        proof {
            assert(s.drop_last().drop_last() =~= pop_n(s, 2));
        }
        let r: i32 = if v1 < v2 {
            -1
        } else if v1 == v2 {
            0
        } else {
            1
        };
        self.push(JvmValue::Int(r));
    }

    /// Negates the top float by flipping its sign bit.
    pub fn fneg(&mut self)
        requires
            old(self)@.len() > 0,
            old(self)@.last() is Float,
        ensures
            final(self)@ == old(self)@.drop_last().push(
                JvmValue::Float(old(self)@.last()->Float_0 ^ 0x8000_0000u32),
            ),
    {
        let v = self.pop();
        let bits = match v {
            JvmValue::Float(b) => b,
            _ => 0,
        };
        self.push(JvmValue::Float(bits ^ 0x8000_0000u32));
    }

    /// Negates the top double by flipping its sign bit.
    pub fn dneg(&mut self)
        requires
            old(self)@.len() > 0,
            old(self)@.last() is Double,
        ensures
            final(self)@ == old(self)@.drop_last().push(
                JvmValue::Double(old(self)@.last()->Double_0 ^ 0x8000_0000_0000_0000u64),
            ),
    {
        let v = self.pop();
        let bits = match v {
            JvmValue::Double(b) => b,
            _ => 0,
        };
        self.push(JvmValue::Double(bits ^ 0x8000_0000_0000_0000u64));
    }

    /// Duplicates the top value.
    pub fn dup(&mut self)
        requires
            old(self)@.len() >= 1,
        ensures
            final(self)@ == old(self)@.push(old(self)@.last()),
    {
        let i1 = self.pop();
        self.push(i1);
        self.push(i1);
        proof {
            assert(old(self)@.drop_last().push(old(self)@.last()) =~= old(self)@);
        }
    }

    /// Copies the top value below the second one: `.., v2, v1` becomes `.., v1, v2, v1`.
    pub fn dup_x1(&mut self)
        requires
            old(self)@.len() >= 2,
        ensures
            final(self)@ == pop_n(old(self)@, 2).push(peek(old(self)@, 0)).push(
                peek(old(self)@, 1),
            ).push(peek(old(self)@, 0)),
    {
        let ghost s = self@;
        let i1 = self.pop();
        let i2 = self.pop();
        proof {
            assert(s.drop_last().drop_last() =~= pop_n(s, 2));
        }
        self.push(i1);
        self.push(i2);
        self.push(i1);
    }

    /// Copies the top value below the third one: `.., v3, v2, v1` becomes `.., v1, v3, v2, v1`.
    pub fn dup_x2(&mut self)
        requires
            old(self)@.len() >= 3,
        ensures
            final(self)@ == pop_n(old(self)@, 3).push(peek(old(self)@, 0)).push(
                peek(old(self)@, 2),
            ).push(peek(old(self)@, 1)).push(peek(old(self)@, 0)),
    {
        let ghost s = self@;
        let i1 = self.pop();
        let i2 = self.pop();
        let i3 = self.pop();
        proof {
            assert(s.drop_last().drop_last().drop_last() =~= pop_n(s, 3));
        }
        self.push(i1);
        self.push(i3);
        self.push(i2);
        self.push(i1);
    }

    /// Pops two values and pushes the second one twice: `.., v2, v1` becomes `.., v2, v2`.
    pub fn dup2(&mut self)
        requires
            old(self)@.len() >= 2,
        ensures
            final(self)@ == pop_n(old(self)@, 2).push(peek(old(self)@, 1)).push(
                peek(old(self)@, 1),
            ),
    {
        let ghost s = self@;
        let _v1 = self.pop();
        let v2 = self.pop();
        proof {
            assert(s.drop_last().drop_last() =~= pop_n(s, 2));
        }
        self.push(v2);
        self.push(v2);
    }

    /// Copies the top two values below the third: `.., v3, v2, v1` becomes `.., v2, v1, v3, v2, v1`.
    pub fn dup2_x1(&mut self)
        requires
            old(self)@.len() >= 3,
        ensures
            final(self)@ == pop_n(old(self)@, 3).push(peek(old(self)@, 1)).push(
                peek(old(self)@, 0),
            ).push(peek(old(self)@, 2)).push(peek(old(self)@, 1)).push(peek(old(self)@, 0)),
    {
        let ghost s = self@;
        let i1 = self.pop();
        let i2 = self.pop();
        let i3 = self.pop();
        proof {
            assert(s.drop_last().drop_last().drop_last() =~= pop_n(s, 3));
        }
        self.push(i2);
        self.push(i1);
        self.push(i3);
        self.push(i2);
        self.push(i1);
    }

    /// Copies the top two values below the fourth: `.., v4, v3, v2, v1` becomes
    /// `.., v2, v1, v4, v3, v2, v1`.
    pub fn dup2_x2(&mut self)
        requires
            old(self)@.len() >= 4,
        ensures
            final(self)@ == pop_n(old(self)@, 4).push(peek(old(self)@, 1)).push(
                peek(old(self)@, 0),
            ).push(peek(old(self)@, 3)).push(peek(old(self)@, 2)).push(peek(old(self)@, 1)).push(
                peek(old(self)@, 0),
            ),
    {
        let ghost s = self@;
        let i1 = self.pop();
        let i2 = self.pop();
        let i3 = self.pop();
        let i4 = self.pop();
        proof {
            assert(s.drop_last().drop_last().drop_last().drop_last() =~= pop_n(s, 4));
        }
        self.push(i2);
        self.push(i1);
        self.push(i4);
        self.push(i3);
        self.push(i2);
        self.push(i1);
    }
}

} // verus!
