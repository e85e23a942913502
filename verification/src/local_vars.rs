use vstd::prelude::*;

use crate::values::JvmValue;

verus! {

/// The local-variable table of a method activation.
pub struct InterpLocalVars {
    lvt: Vec<JvmValue>,
}

impl View for InterpLocalVars {
    type V = Seq<JvmValue>;

    closed spec fn view(&self) -> Seq<JvmValue> {
        self.lvt@
    }
}

impl InterpLocalVars {
    /// A table of `var_count` slots, each holding `Int(0)`.
    pub fn of(var_count: u8) -> (out: InterpLocalVars)
        ensures
            out@ == Seq::new(var_count as nat, |i: int| JvmValue::Int(0)),
    {
        let mut out = InterpLocalVars { lvt: Vec::new() };
        let mut i: u8 = 0;
        while i < var_count
            invariant
                i <= var_count,
                out@ == Seq::new(i as nat, |j: int| JvmValue::Int(0)),
            decreases var_count - i,
        {
            out.lvt.push(JvmValue::default());
            i = i + 1;
        }
        out
    }

    /// A table holding the same values.
    pub fn copy(&self) -> (r: InterpLocalVars)
        ensures
            r@ == self@,
    {
        let mut out: Vec<JvmValue> = Vec::new();
        let mut i: usize = 0;
        while i < self.lvt.len()
            invariant
                i <= self.lvt@.len(),
                out@ == self.lvt@.take(i as int),
            decreases self.lvt.len() - i,
        {
            out.push(self.lvt[i]);
            i = i + 1;
            proof {
                assert(out@ =~= self.lvt@.take(i as int));
            }
        }
        proof {
            assert(self.lvt@.take(i as int) =~= self.lvt@);
        }
        InterpLocalVars { lvt: out }
    }

    pub fn len(&self) -> (r: usize)
        ensures
            r == self@.len(),
    {
        self.lvt.len()
    }

    /// The value in slot `idx`.
    pub fn load(&self, idx: u8) -> (r: JvmValue)
        requires
            (idx as int) < self@.len(),
        ensures
            r == self@[idx as int],
    {
        self.lvt[idx as usize]
    }

    /// Overwrites slot `idx` with `val`.
    pub fn store(&mut self, idx: u8, val: JvmValue)
        requires
            (idx as int) < old(self)@.len(),
        ensures
            final(self)@ == old(self)@.update(idx as int, val),
    {
        self.lvt.set(idx as usize, val);
    }

    /// Adds one to the `Int` in slot `idx`; the increment operand is not consulted.
    pub fn iinc(&mut self, idx: u8, incr: u8)
        requires
            (idx as int) < old(self)@.len(),
            old(self)@[idx as int] is Int,
            old(self)@[idx as int]->Int_0 < i32::MAX,
        ensures
            final(self)@ == old(self)@.update(
                idx as int,
                JvmValue::Int((old(self)@[idx as int]->Int_0 + 1) as i32),
            ),
    {
        let val = match self.lvt[idx as usize] {
            JvmValue::Int(v) => v,
            _ => 0,
        };
        self.lvt.set(idx as usize, JvmValue::Int(val + 1));
    }
}

} // verus!
