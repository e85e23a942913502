use vstd::prelude::*;

use crate::error::JvmError;
use crate::frame::{Frame, FrameView, is_frame_op, is_stack_opcode, is_store_opcode, spec_frame_op};
use crate::heap_ops::{is_array_op, spec_array_op};
use crate::klass_repo::{SharedKlassRepo, StatusView};
use crate::local_vars::InterpLocalVars;
use crate::native_methods::{NativeMethod, spec_native_result};
use crate::object::ObjView;
use crate::object_ops::{Call, CallView, is_invoke_op, is_object_op, spec_invoke, spec_object_op};
use crate::opcode;
use crate::otmethod::{MethodView, OtMethod};
use crate::simple_heap::SharedSimpleHeap;
use crate::strings::join;
use crate::values::JvmValue;

verus! {

/// The return instructions, and the reserved or unsupported ones
/// (`breakpoint`, `impdep1`, `impdep2`, `jsr`, `jsr_w`, `ret`) that end the
/// method with `false`.
pub open spec fn is_return_op(op: u8) -> bool {
    (opcode::IRETURN <= op <= opcode::RETURN) || op == opcode::BREAKPOINT || op == opcode::IMPDEP1
        || op == opcode::IMPDEP2 || op == opcode::JSR || op == opcode::JSR_W || op == opcode::RET
}

/// The instructions that compute with floating-point numbers; the caller of
/// `JThread::step` carries them out.
pub open spec fn is_float_op(op: u8) -> bool {
    op == opcode::FADD || op == opcode::DADD || op == opcode::FSUB || op == opcode::DSUB || op
        == opcode::FMUL || op == opcode::DMUL || op == opcode::FDIV || op == opcode::DDIV || op
        == opcode::FREM || op == opcode::DREM || op == opcode::I2F || op == opcode::I2D || op
        == opcode::L2F || op == opcode::L2D || (opcode::F2I <= op <= opcode::D2F) || (opcode::FCMPL
        <= op <= opcode::DCMPG)
}

/// What one step of a thread leads to.
pub enum StepOutcome {
    /// The instruction ran; the thread goes on.
    Continue,
    /// The bottom method returned this value.
    Returned(Option<JvmValue>),
    /// A floating-point instruction is due: the caller pops its operands
    /// from the current frame and pushes its result.
    FloatOp(u8),
    /// A native method is due: the caller runs it on these local variables
    /// and hands its result to `JThread::complete_call`.
    Native(NativeMethod, InterpLocalVars),
}

/// The abstract content of a step's outcome.
pub enum OutcomeView {
    Continue,
    Returned(Option<JvmValue>),
    FloatOp(u8),
    Native(NativeMethod, Seq<JvmValue>),
}

impl View for StepOutcome {
    type V = OutcomeView;

    open spec fn view(&self) -> OutcomeView {
        match self {
            StepOutcome::Continue => OutcomeView::Continue,
            StepOutcome::Returned(v) => OutcomeView::Returned(*v),
            StepOutcome::FloatOp(op) => OutcomeView::FloatOp(*op),
            StepOutcome::Native(n, l) => OutcomeView::Native(*n, l@),
        }
    }
}

/// The frames after a return from the top frame `fs.last()` with value `v`
/// and remaining operand stack `rest`: the bottom frame stays in place and
/// its method's result is answered; otherwise the frame goes and the
/// caller receives the value.
pub open spec fn spec_return_to(fs: Seq<FrameView>, v: Option<JvmValue>, rest: Seq<JvmValue>) -> (
    OutcomeView,
    Seq<FrameView>,
) {
    let f = fs.last();
    if fs.len() == 1 {
        (OutcomeView::Returned(v), fs.update(0, FrameView { eval: rest, ..f }))
    } else {
        let c = fs[fs.len() - 2];
        let c2 = match v {
            Some(x) => FrameView { eval: c.eval.push(x), ..c },
            None => c,
        };
        (OutcomeView::Continue, fs.drop_last().update(fs.len() - 2, c2))
    }
}

/// One step of a thread whose frames are `fs`, on heap `h` with the classes
/// of `m`: the instruction at the top frame's position runs. Answers what
/// the step leads to with the new frames and heap, or why the instruction
/// cannot run.
pub open spec fn spec_step(fs: Seq<FrameView>, h: Seq<ObjView>, m: Map<Seq<char>, StatusView>) -> Result<
    (OutcomeView, Seq<FrameView>, Seq<ObjView>),
    JvmError,
> {
    if fs.len() == 0 {
        Err(JvmError::StackUnderflow)
    } else {
        let last = fs.len() - 1;
        let f = fs[last];
        if f.pc < 0 || f.pc >= f.code.len() {
            Err(JvmError::CodeOverrun)
        } else {
            let op = f.code[f.pc];
            if is_frame_op(op) {
                match spec_frame_op(op, f) {
                    Ok(g) => Ok((OutcomeView::Continue, fs.update(last, g), h)),
                    Err(e) => Err(e),
                }
            } else if is_array_op(op) {
                match spec_array_op(op, f, h) {
                    Ok((g, h2)) => Ok((OutcomeView::Continue, fs.update(last, g), h2)),
                    Err(e) => Err(e),
                }
            } else if is_object_op(op) {
                match spec_object_op(op, f, h, m) {
                    Ok((g, h2)) => Ok((OutcomeView::Continue, fs.update(last, g), h2)),
                    Err(e) => Err(e),
                }
            } else if is_invoke_op(op) {
                match spec_invoke(op, f, m) {
                    Ok((g, CallView::Bytecode(nf))) => Ok(
                        (OutcomeView::Continue, fs.update(last, g).push(nf), h),
                    ),
                    Ok((g, CallView::Native(n, l))) => Ok(
                        (OutcomeView::Native(n, l), fs.update(last, g), h),
                    ),
                    Err(e) => Err(e),
                }
            } else if is_return_op(op) {
                if opcode::IRETURN <= op <= opcode::ARETURN {
                    if f.eval.len() < 1 {
                        Err(JvmError::StackUnderflow)
                    } else {
                        let (o, fs2) = spec_return_to(fs, Some(f.eval.last()), f.eval.drop_last());
                        Ok((o, fs2, h))
                    }
                } else if op == opcode::RETURN {
                    let (o, fs2) = spec_return_to(fs, None, f.eval);
                    Ok((o, fs2, h))
                } else {
                    let (o, fs2) = spec_return_to(fs, Some(JvmValue::Boolean(false)), f.eval);
                    Ok((o, fs2, h))
                }
            } else if is_float_op(op) {
                Ok((OutcomeView::FloatOp(op), fs.update(last, FrameView { pc: f.pc + 1, ..f }), h))
            } else {
                Err(JvmError::IllegalOpcode(op))
            }
        }
    }
}

/// The frames after a call's result `v` is handed to the top frame.
pub open spec fn spec_complete_call(fs: Seq<FrameView>, v: Option<JvmValue>) -> Seq<FrameView> {
    match v {
        Some(x) => if fs.len() > 0 {
            fs.update(fs.len() - 1, FrameView { eval: fs.last().eval.push(x), ..fs.last() })
        } else {
            fs
        },
        None => fs,
    }
}

/// What running a thread for at most `fuel` steps gives: the value its
/// bottom method returns with that frame's final local variables, or the
/// error that stops it, each with the heap as the run leaves it. Native
/// calls are carried out; `None` when the outcome depends on the clock.
pub open spec fn spec_run(fs: Seq<FrameView>, h: Seq<ObjView>, m: Map<Seq<char>, StatusView>, fuel: nat) -> Option<
    (Result<(Option<JvmValue>, Seq<JvmValue>), JvmError>, Seq<ObjView>),
>
    decreases fuel,
{
    if fuel == 0 {
        Some((Err(JvmError::OutOfFuel), h))
    } else {
        match spec_step(fs, h, m) {
            Err(e) => Some((Err(e), h)),
            Ok((o, fs2, h2)) => match o {
                OutcomeView::Continue => spec_run(fs2, h2, m, (fuel - 1) as nat),
                OutcomeView::Returned(v) => Some((Ok((v, fs2[0].lvt)), h2)),
                OutcomeView::FloatOp(op) => Some((Err(JvmError::FloatingPoint(op)), h2)),
                OutcomeView::Native(n, _) => if n == NativeMethod::SystemCurrentTimeMillis {
                    None
                } else {
                    spec_run(spec_complete_call(fs2, spec_native_result(n)), h2, m, (fuel - 1) as nat)
                },
            },
        }
    }
}

/// What running a thread for at most `fuel` steps gives when each read of
/// the clock is answered, in turn, from `clock`: `Some(ms)` for a reading
/// of `ms` milliseconds, `None` for a clock before the UNIX epoch. As
/// `spec_run` otherwise; `None` when the readings run out.
pub open spec fn spec_run_clocked(
    fs: Seq<FrameView>,
    h: Seq<ObjView>,
    m: Map<Seq<char>, StatusView>,
    fuel: nat,
    clock: Seq<Option<i64>>,
) -> Option<(Result<(Option<JvmValue>, Seq<JvmValue>), JvmError>, Seq<ObjView>)>
    decreases fuel,
{
    if fuel == 0 {
        Some((Err(JvmError::OutOfFuel), h))
    } else {
        match spec_step(fs, h, m) {
            Err(e) => Some((Err(e), h)),
            Ok((o, fs2, h2)) => match o {
                OutcomeView::Continue => spec_run_clocked(fs2, h2, m, (fuel - 1) as nat, clock),
                OutcomeView::Returned(v) => Some((Ok((v, fs2[0].lvt)), h2)),
                OutcomeView::FloatOp(op) => Some((Err(JvmError::FloatingPoint(op)), h2)),
                OutcomeView::Native(n, _) => if n == NativeMethod::SystemCurrentTimeMillis {
                    if clock.len() == 0 {
                        None
                    } else {
                        match clock[0] {
                            None => Some((Err(JvmError::ClockBeforeEpoch), h2)),
                            Some(ms) => spec_run_clocked(
                                spec_complete_call(fs2, Some(JvmValue::Long(ms))),
                                h2,
                                m,
                                (fuel - 1) as nat,
                                clock.drop_first(),
                            ),
                        }
                    }
                } else {
                    spec_run_clocked(
                        spec_complete_call(fs2, spec_native_result(n)),
                        h2,
                        m,
                        (fuel - 1) as nat,
                        clock,
                    )
                },
            },
        }
    }
}

/// A thread of execution: a stack of frames, the last one running.
pub struct JThread {
    frames: Vec<Frame>,
}

impl View for JThread {
    type V = Seq<FrameView>;

    closed spec fn view(&self) -> Seq<FrameView> {
        self.frames@.map_values(|f: Frame| f@)
    }
}

/// Whether `op` is a return or a reserved instruction (see `is_return_op`).
fn is_return_opcode(op: u8) -> (r: bool)
    ensures
        r == is_return_op(op),
{
    (opcode::IRETURN <= op && op <= opcode::RETURN) || op == opcode::BREAKPOINT || op
        == opcode::IMPDEP1 || op == opcode::IMPDEP2 || op == opcode::JSR || op == opcode::JSR_W
        || op == opcode::RET
}

/// Whether `op` computes with floating-point numbers (see `is_float_op`).
fn is_float_opcode(op: u8) -> (r: bool)
    ensures
        r == is_float_op(op),
{
    op == opcode::FADD || op == opcode::DADD || op == opcode::FSUB || op == opcode::DSUB || op
        == opcode::FMUL || op == opcode::DMUL || op == opcode::FDIV || op == opcode::DDIV || op
        == opcode::FREM || op == opcode::DREM || op == opcode::I2F || op == opcode::I2D || op
        == opcode::L2F || op == opcode::L2D || (opcode::F2I <= op && op <= opcode::D2F) || (
    opcode::FCMPL <= op && op <= opcode::DCMPG)
}

impl JThread {
    /// A thread about to run `code` of class `klass_name` with the local
    /// variables `lvt`.
    pub fn of(klass_name: String, code: Vec<u8>, lvt: InterpLocalVars) -> (r: JThread)
        ensures
            r@ == seq![
                FrameView {
                    klass_name: klass_name@,
                    code: code@,
                    pc: 0,
                    eval: Seq::empty(),
                    lvt: lvt@,
                },
            ],
    {
        let mut frames: Vec<Frame> = Vec::new();
        frames.push(Frame::of(klass_name, code, lvt));
        let r = JThread { frames };
        proof {
            assert(r@ =~= seq![r.frames@[0]@]);
        }
        r
    }

    /// The number of frames.
    pub fn depth(&self) -> (r: usize)
        ensures
            r == self@.len(),
    {
        self.frames.len()
    }

    /// Pushes `v` on the operand stack of the current frame.
    pub fn push_value(&mut self, v: JvmValue)
        ensures
            final(self)@ == spec_complete_call(old(self)@, Some(v)),
    {
        let ghost old_view = self@;
        match self.frames.pop() {
            Some(mut f) => {
                f.eval.push(v);
                self.frames.push(f);
                proof {
                    assert(self@ =~= spec_complete_call(old_view, Some(v)));
                }
            },
            None => {
                proof {
                    assert(self@ =~= old_view);
                }
            },
        }
    }

    /// Pops the top value of the current frame's operand stack.
    pub fn pop_value(&mut self) -> (r: Option<JvmValue>)
        ensures
            (old(self)@.len() > 0 && old(self)@.last().eval.len() > 0) ==> r == Some(
                old(self)@.last().eval.last(),
            ) && final(self)@ == old(self)@.update(
                old(self)@.len() - 1,
                FrameView { eval: old(self)@.last().eval.drop_last(), ..old(self)@.last() },
            ),
            !(old(self)@.len() > 0 && old(self)@.last().eval.len() > 0) ==> r is None && final(self)@
                == old(self)@,
    {
        let ghost old_view = self@;
        match self.frames.pop() {
            Some(mut f) => {
                if f.eval.len() == 0 {
                    self.frames.push(f);
                    proof {
                        assert(self@ =~= old_view);
                    }
                    return None;
                }
                let v = f.eval.pop();
                self.frames.push(f);
                proof {
                    assert(self@ =~= old_view.update(
                        old_view.len() - 1,
                        FrameView { eval: old_view.last().eval.drop_last(), ..old_view.last() },
                    ));
                }
                Some(v)
            },
            None => {
                proof {
                    assert(self@ =~= old_view);
                }
                None
            },
        }
    }

    /// Hands the result of a native call to the current frame.
    pub fn complete_call(&mut self, v: Option<JvmValue>)
        ensures
            final(self)@ == spec_complete_call(old(self)@, v),
    {
        match v {
            Some(x) => self.push_value(x),
            None => {},
        }
    }

    /// Runs one instruction (see `spec_step`).
    pub fn step(&mut self, repo: &SharedKlassRepo, heap: &mut SharedSimpleHeap) -> (r: Result<
        StepOutcome,
        JvmError,
    >)
        requires
            old(heap).wf(),
        ensures
            final(heap).wf(),
            match spec_step(old(self)@, old(heap)@, repo@) {
                Ok((o, fs, h)) => r matches Ok(out) && out@ == o && final(self)@ == fs
                    && final(heap)@ == h,
                Err(e) => r matches Err(x) && x == e && final(heap)@ == old(heap)@,
            },
    {
        let ghost fs = self@;
        let mut f = match self.frames.pop() {
            Some(f) => f,
            None => {
                return Err(JvmError::StackUnderflow);
            },
        };
        proof {
            assert(self@ =~= fs.drop_last());
        }
        if f.pc >= f.code.len() {
            self.frames.push(f);
            return Err(JvmError::CodeOverrun);
        }
        let op = f.code[f.pc];
        if is_stack_opcode(op) || (opcode::ILOAD <= op && op <= opcode::ALOAD_3) || is_store_opcode(op) || op == opcode::IINC || (opcode::IFEQ <= op && op
            <= opcode::IF_ICMPLE) || op == opcode::IFNULL || op == opcode::IFNONNULL || op
            == opcode::GOTO || op == opcode::GOTO_W || op == opcode::BIPUSH || op == opcode::SIPUSH {
            let r = f.exec_frame_op(op);
            self.frames.push(f);
            proof {
                assert(self@ =~= fs.drop_last().push(f@));
            }
            match r {
                Ok(()) => Ok(StepOutcome::Continue),
                Err(e) => Err(e),
            }
        } else if (opcode::IALOAD <= op && op <= opcode::SALOAD) || (opcode::IASTORE <= op && op <= opcode::SASTORE && op != opcode::ASTORE) || op == opcode::ARRAYLENGTH || op == opcode::NEWARRAY {
            let r = f.exec_array_op(op, heap);
            self.frames.push(f);
            proof {
                assert(self@ =~= fs.drop_last().push(f@));
            }
            match r {
                Ok(()) => Ok(StepOutcome::Continue),
                Err(e) => Err(e),
            }
        } else if op == opcode::LDC || op == opcode::LDC2_W || op == opcode::NEW || op
            == opcode::GETFIELD || op == opcode::PUTFIELD || op == opcode::GETSTATIC || op
            == opcode::PUTSTATIC {
            let r = f.exec_object_op(op, heap, repo);
            self.frames.push(f);
            proof {
                assert(self@ =~= fs.drop_last().push(f@));
            }
            match r {
                Ok(()) => Ok(StepOutcome::Continue),
                Err(e) => Err(e),
            }
        } else if op == opcode::INVOKEVIRTUAL || op == opcode::INVOKESPECIAL || op
            == opcode::INVOKESTATIC {
            let r = f.exec_invoke(op, repo);
            self.frames.push(f);
            proof {
                assert(self@ =~= fs.drop_last().push(f@));
            }
            match r {
                Ok(Call::Bytecode(nf)) => {
                    let ghost before = self@;
                    self.frames.push(nf);
                    proof {
                        assert(self@ =~= before.push(nf@));
                    }
                    Ok(StepOutcome::Continue)
                },
                Ok(Call::Native(n, l)) => Ok(StepOutcome::Native(n, l)),
                Err(e) => Err(e),
            }
        } else if is_return_opcode(op) {
            let v: Option<JvmValue> = if opcode::IRETURN <= op && op <= opcode::ARETURN {
                if f.eval.len() < 1 {
                    self.frames.push(f);
                    return Err(JvmError::StackUnderflow);
                }
                Some(f.eval.pop())
            } else if op == opcode::RETURN {
                None
            } else {
                Some(JvmValue::Boolean(false))
            };
            if self.frames.len() == 0 {
                self.frames.push(f);
                proof {
                    assert(self@ =~= fs.update(0, FrameView { eval: f@.eval, ..fs.last() }));
                }
                Ok(StepOutcome::Returned(v))
            } else {
                let ghost rest = self@;
                let mut c = match self.frames.pop() {
                    Some(c) => c,
                    None => {
                        return Err(JvmError::StackUnderflow);
                    },
                };
                proof {
                    assert(c@ == fs[fs.len() - 2]);
                }
                match v {
                    Some(x) => c.eval.push(x),
                    None => {},
                }
                self.frames.push(c);
                proof {
                    assert(self@ =~= rest.drop_last().push(c@));
                }
                Ok(StepOutcome::Continue)
            }
        } else if is_float_opcode(op) {
            f.pc = f.pc + 1;
            self.frames.push(f);
            proof {
                assert(self@ =~= fs.drop_last().push(f@));
            }
            Ok(StepOutcome::FloatOp(op))
        } else {
            self.frames.push(f);
            Err(JvmError::IllegalOpcode(op))
        }
    }

    /// The local variables of the bottom frame.
    pub fn bottom_locals(&self) -> (r: Option<InterpLocalVars>)
        ensures
            self@.len() > 0 ==> (r matches Some(l) && l@ == self@[0].lvt),
            self@.len() == 0 ==> r is None,
    {
        if self.frames.len() == 0 {
            None
        } else {
            Some(self.frames[0].lvt.copy())
        }
    }

    /// Runs the thread for at most `fuel` steps, carrying out native calls
    /// (see `spec_run`, and `spec_run_clocked` for runs that read the clock).
    pub fn run(&mut self, repo: &SharedKlassRepo, heap: &mut SharedSimpleHeap, fuel: u64) -> (r: Result<
        (Option<JvmValue>, InterpLocalVars),
        JvmError,
    >)
        requires
            old(heap).wf(),
        ensures
            final(heap).wf(),
            spec_run(old(self)@, old(heap)@, repo@, fuel as nat) matches Some((res, h)) ==> final(heap)@
                == h && match res {
                Ok((v, l)) => r matches Ok((v2, l2)) && v2 == v && l2@ == l,
                Err(e) => r matches Err(x) && x == e,
            },
            exists|clock: Seq<Option<i64>>|
                #[trigger] spec_run_clocked(old(self)@, old(heap)@, repo@, fuel as nat, clock) matches Some(
                    (res, h),
                ) && final(heap)@ == h && match res {
                    Ok((v, l)) => r matches Ok((v2, l2)) && v2 == v && l2@ == l,
                    Err(e) => r matches Err(x) && x == e,
                },
    {
        let mut left = fuel;
        let ghost start = spec_run(self@, heap@, repo@, fuel as nat);
        let ghost mut readings: Seq<Option<i64>> = Seq::empty();
        proof {
            assert forall|rest: Seq<Option<i64>>|
                #[trigger] spec_run_clocked(old(self)@, old(heap)@, repo@, fuel as nat, readings.add(rest))
                    == spec_run_clocked(self@, heap@, repo@, left as nat, rest) by {
                assert(readings.add(rest) =~= rest);
            }
        }
        while left > 0
            invariant
                heap.wf(),
                start == spec_run(old(self)@, old(heap)@, repo@, fuel as nat),
                start is Some ==> start == spec_run(self@, heap@, repo@, left as nat),
                forall|rest: Seq<Option<i64>>|
                    #[trigger] spec_run_clocked(old(self)@, old(heap)@, repo@, fuel as nat, readings.add(rest))
                        == spec_run_clocked(self@, heap@, repo@, left as nat, rest),
            decreases left,
        {
            let ghost before = self@;
            let ghost hb = heap@;
            let ghost left0 = left as nat;
            let ghost consumed = readings;
            let out = self.step(repo, heap);
            left = left - 1;
            match out {
                Err(e) => {
                    proof {
                        assert(consumed.add(Seq::empty()) =~= consumed);
                        assert(spec_run_clocked(old(self)@, old(heap)@, repo@, fuel as nat, consumed.add(Seq::empty()))
                            == spec_run_clocked(before, hb, repo@, left0, Seq::empty()));
                    }
                    return Err(e);
                },
                Ok(StepOutcome::Continue) => {
                    proof {
                        assert forall|rest: Seq<Option<i64>>|
                            #[trigger] spec_run_clocked(old(self)@, old(heap)@, repo@, fuel as nat, readings.add(rest))
                                == spec_run_clocked(self@, heap@, repo@, left as nat, rest) by {
                            assert(spec_run_clocked(old(self)@, old(heap)@, repo@, fuel as nat, consumed.add(rest))
                                == spec_run_clocked(before, hb, repo@, left0, rest));
                        }
                    }
                },
                Ok(StepOutcome::Returned(v)) => {
                    proof {
                        assert(consumed.add(Seq::empty()) =~= consumed);
                        assert(spec_run_clocked(old(self)@, old(heap)@, repo@, fuel as nat, consumed.add(Seq::empty()))
                            == spec_run_clocked(before, hb, repo@, left0, Seq::empty()));
                    }
                    let l = match self.bottom_locals() {
                        Some(l) => l,
                        None => {
                            return Err(JvmError::StackUnderflow);
                        },
                    };
                    return Ok((v, l));
                },
                Ok(StepOutcome::FloatOp(op)) => {
                    proof {
                        assert(consumed.add(Seq::empty()) =~= consumed);
                        assert(spec_run_clocked(old(self)@, old(heap)@, repo@, fuel as nat, consumed.add(Seq::empty()))
                            == spec_run_clocked(before, hb, repo@, left0, Seq::empty()));
                    }
                    return Err(JvmError::FloatingPoint(op));
                },
                Ok(StepOutcome::Native(n, l)) => {
                    match n.invoke(&l) {
                        Ok(v) => {
                            self.complete_call(v);
                            proof {
                                if n == NativeMethod::SystemCurrentTimeMillis {
                                    let x = v->0->Long_0;
                                    readings = consumed.push(Some(x));
                                    assert forall|rest: Seq<Option<i64>>|
                                        #[trigger] spec_run_clocked(old(self)@, old(heap)@, repo@, fuel as nat, readings.add(rest))
                                            == spec_run_clocked(self@, heap@, repo@, left as nat, rest) by {
                                        let rest2 = seq![Some(x)].add(rest);
                                        assert(readings.add(rest) =~= consumed.add(rest2));
                                        assert(rest2.drop_first() =~= rest);
                                        assert(spec_run_clocked(old(self)@, old(heap)@, repo@, fuel as nat, consumed.add(rest2))
                                            == spec_run_clocked(before, hb, repo@, left0, rest2));
                                    }
                                } else {
                                    assert forall|rest: Seq<Option<i64>>|
                                        #[trigger] spec_run_clocked(old(self)@, old(heap)@, repo@, fuel as nat, readings.add(rest))
                                            == spec_run_clocked(self@, heap@, repo@, left as nat, rest) by {
                                        assert(spec_run_clocked(old(self)@, old(heap)@, repo@, fuel as nat, consumed.add(rest))
                                            == spec_run_clocked(before, hb, repo@, left0, rest));
                                    }
                                }
                            }
                        },
                        Err(e) => {
                            proof {
                                let w = consumed.push(None::<i64>);
                                assert(consumed.add(seq![None::<i64>]) =~= w);
                                assert(spec_run_clocked(old(self)@, old(heap)@, repo@, fuel as nat, consumed.add(seq![None::<i64>]))
                                    == spec_run_clocked(before, hb, repo@, left0, seq![None::<i64>]));
                            }
                            return Err(e);
                        },
                    }
                },
            }
        }
        proof {
            assert(readings.add(Seq::empty()) =~= readings);
            assert(spec_run_clocked(old(self)@, old(heap)@, repo@, fuel as nat, readings.add(Seq::empty()))
                == spec_run_clocked(self@, heap@, repo@, left as nat, Seq::empty()));
        }
        Err(JvmError::OutOfFuel)
    }
}

/// Runs the bytecode `instr` of a method of class `klass_name` with the
/// local variables `lvt` until it returns, on the given heap and classes.
/// Answers the value the method returns (`None` for `return`) and leaves in
/// `lvt` the method's local variables as they were when it returned. Stops
/// with `FloatingPoint` at an instruction that needs floating-point
/// arithmetic, and with `OutOfFuel` after `u64::MAX` steps. Where the
/// method reads the clock, the run is the one `spec_run_clocked` gives for
/// the readings the clock gave.
pub fn exec_bytecode_method(
    repo: &mut SharedKlassRepo,
    heap: &mut SharedSimpleHeap,
    klass_name: String,
    instr: &Vec<u8>,
    lvt: &mut InterpLocalVars,
) -> (r: Result<Option<JvmValue>, JvmError>)
    requires
        old(heap).wf(),
    ensures
        final(heap).wf(),
        *final(repo) == *old(repo),
        spec_run(
            seq![
                FrameView {
                    klass_name: klass_name@,
                    code: instr@,
                    pc: 0,
                    eval: Seq::empty(),
                    lvt: old(lvt)@,
                },
            ],
            old(heap)@,
            old(repo)@,
            u64::MAX as nat,
        ) matches Some((res, h)) ==> final(heap)@ == h && match res {
            Ok((v, l)) => r == Ok::<Option<JvmValue>, JvmError>(v) && final(lvt)@ == l,
            Err(e) => r == Err::<Option<JvmValue>, JvmError>(e),
        },
        exists|clock: Seq<Option<i64>>|
            #[trigger] spec_run_clocked(
                seq![
                    FrameView {
                        klass_name: klass_name@,
                        code: instr@,
                        pc: 0,
                        eval: Seq::empty(),
                        lvt: old(lvt)@,
                    },
                ],
                old(heap)@,
                old(repo)@,
                u64::MAX as nat,
                clock,
            ) matches Some((res, h)) && final(heap)@ == h && match res {
                Ok((v, l)) => r == Ok::<Option<JvmValue>, JvmError>(v) && final(lvt)@ == l,
                Err(e) => r == Err::<Option<JvmValue>, JvmError>(e),
            },
{
    let mut code: Vec<u8> = Vec::new();
    let mut i: usize = 0;
    while i < instr.len()
        invariant
            i <= instr@.len(),
            code@ == instr@.take(i as int),
        decreases instr.len() - i,
    {
        code.push(instr[i]);
        i = i + 1;
        proof {
            assert(code@ =~= instr@.take(i as int));
        }
    }
    proof {
        assert(instr@.take(i as int) =~= instr@);
    }
    let mut thread = JThread::of(klass_name, code, lvt.copy());
    match thread.run(repo, heap, u64::MAX) {
        Ok((v, l)) => {
            *lvt = l;
            Ok(v)
        },
        Err(e) => Err(e),
    }
}

/// Runs method `meth` with the local variables `lvt`: a native method's
/// installed native code, or the method's bytecode (see
/// `exec_bytecode_method`).
pub fn exec_method(
    repo: &mut SharedKlassRepo,
    heap: &mut SharedSimpleHeap,
    meth: &OtMethod,
    lvt: &mut InterpLocalVars,
) -> (r: Result<Option<JvmValue>, JvmError>)
    requires
        old(heap).wf(),
    ensures
        final(heap).wf(),
        *final(repo) == *old(repo),
        meth.spec_is_native() ==> final(lvt)@ == old(lvt)@ && final(heap)@ == old(heap)@,
        meth.spec_is_native() && meth.spec_native_code() == Some(NativeMethod::SystemCurrentTimeMillis)
            ==> (r matches Ok(v) ==> v matches Some(JvmValue::Long(_))) && (r matches Err(e) ==> e
            == JvmError::ClockBeforeEpoch),
        meth.spec_is_native() && meth.spec_native_code() is None ==> r == Err::<
            Option<JvmValue>,
            JvmError,
        >(JvmError::NativeCodeMissing),
        meth.spec_is_native() ==> (meth.spec_native_code() matches Some(n) ==> (n
            != NativeMethod::SystemCurrentTimeMillis ==> r == Ok::<Option<JvmValue>, JvmError>(
            spec_native_result(n),
        ))),
        !meth.spec_is_native() ==> (spec_run(
            seq![
                FrameView {
                    klass_name: meth.spec_klass_name(),
                    code: meth.spec_code(),
                    pc: 0,
                    eval: Seq::empty(),
                    lvt: old(lvt)@,
                },
            ],
            old(heap)@,
            old(repo)@,
            u64::MAX as nat,
        ) matches Some((res, h)) ==> final(heap)@ == h && match res {
            Ok((v, l)) => r == Ok::<Option<JvmValue>, JvmError>(v) && final(lvt)@ == l,
            Err(e) => r == Err::<Option<JvmValue>, JvmError>(e),
        }),
        !meth.spec_is_native() ==> exists|clock: Seq<Option<i64>>|
            #[trigger] spec_run_clocked(
                seq![
                    FrameView {
                        klass_name: meth.spec_klass_name(),
                        code: meth.spec_code(),
                        pc: 0,
                        eval: Seq::empty(),
                        lvt: old(lvt)@,
                    },
                ],
                old(heap)@,
                old(repo)@,
                u64::MAX as nat,
                clock,
            ) matches Some((res, h)) && final(heap)@ == h && match res {
                Ok((v, l)) => r == Ok::<Option<JvmValue>, JvmError>(v) && final(lvt)@ == l,
                Err(e) => r == Err::<Option<JvmValue>, JvmError>(e),
            },
{
    if meth.is_native() {
        match meth.get_native_code() {
            Some(n) => n.invoke(lvt),
            None => Err(JvmError::NativeCodeMissing),
        }
    } else {
        exec_bytecode_method(repo, heap, meth.get_klass_name(), &meth.get_code(), lvt)
    }
}

/// The entry point of class `f_name`: its method `main2:([Ljava/lang/String;)I`.
pub fn main_method(repo: &SharedKlassRepo, f_name: &String) -> (r: Result<OtMethod, JvmError>)
    ensures
        crate::klass_repo::spec_lookup_method(repo@, f_name@, f_name@ + ".main2:([Ljava/lang/String;)I"@)
            matches Ok(m) ==> r matches Ok(x) && x@ == m,
        crate::klass_repo::spec_lookup_method(repo@, f_name@, f_name@ + ".main2:([Ljava/lang/String;)I"@)
            matches Err(e) ==> r == Err::<OtMethod, JvmError>(e),
{
    let main_str = join(f_name.as_str(), ".main2:([Ljava/lang/String;)I", "");
    proof {
        reveal_strlit("");
        assert(main_str@ =~= f_name@ + ".main2:([Ljava/lang/String;)I"@);
    }
    repo.lookup_method_exact(f_name, main_str)
}

/// Runs the entry point of class `f_name` (see `main_method`) with five
/// local variables.
pub fn start_new_jthread(repo: &mut SharedKlassRepo, heap: &mut SharedSimpleHeap, f_name: String) -> (r:
    Result<Option<JvmValue>, JvmError>)
    requires
        old(heap).wf(),
    ensures
        final(heap).wf(),
        *final(repo) == *old(repo),
        crate::klass_repo::spec_lookup_method(old(repo)@, f_name@, f_name@ + ".main2:([Ljava/lang/String;)I"@)
            matches Err(e) ==> r == Err::<Option<JvmValue>, JvmError>(e),
        crate::klass_repo::spec_lookup_method(old(repo)@, f_name@, f_name@ + ".main2:([Ljava/lang/String;)I"@)
            matches Ok(m) ==> (m.flags & crate::constant_pool::ACC_NATIVE != crate::constant_pool::ACC_NATIVE
            ==> (spec_run(
            seq![
                FrameView {
                    klass_name: m.klass_name,
                    code: m.code,
                    pc: 0,
                    eval: Seq::empty(),
                    lvt: Seq::new(5, |i: int| JvmValue::Int(0)),
                },
            ],
            old(heap)@,
            old(repo)@,
            u64::MAX as nat,
        ) matches Some((res, h)) ==> final(heap)@ == h && match res {
            Ok((v, _l)) => r == Ok::<Option<JvmValue>, JvmError>(v),
            Err(e) => r == Err::<Option<JvmValue>, JvmError>(e),
        })),
{
    let main = match main_method(repo, &f_name) {
        Ok(m) => m,
        Err(e) => {
            return Err(e);
        },
    };
    let mut vars = InterpLocalVars::of(5);
    exec_method(repo, heap, &main, &mut vars)
}

/// What running the method `m` with five `int` locals set to 0 gives, on
/// the heap `h` and classes `c`: the result `r` and the heap `h1` after it
/// (see `exec_method`). Nothing is said when the run reads the clock.
pub open spec fn clinit_result(
    m: MethodView,
    h: Seq<ObjView>,
    c: Map<Seq<char>, StatusView>,
    r: Result<Option<JvmValue>, JvmError>,
    h1: Seq<ObjView>,
) -> bool {
    if m.flags & crate::constant_pool::ACC_NATIVE == crate::constant_pool::ACC_NATIVE {
        &&& h1 == h
        &&& m.native_code is None ==> r == Err::<Option<JvmValue>, JvmError>(
            JvmError::NativeCodeMissing,
        )
        &&& m.native_code matches Some(n) ==> (n != NativeMethod::SystemCurrentTimeMillis ==> r
            == Ok::<Option<JvmValue>, JvmError>(spec_native_result(n)))
    } else {
        spec_run(
            seq![
                FrameView {
                    klass_name: m.klass_name,
                    code: m.code,
                    pc: 0,
                    eval: Seq::empty(),
                    lvt: Seq::new(5, |i: int| JvmValue::Int(0)),
                },
            ],
            h,
            c,
            u64::MAX as nat,
        ) matches Some((res, h2)) ==> h1 == h2 && match res {
            Ok((v, _l)) => r == Ok::<Option<JvmValue>, JvmError>(v),
            Err(e) => r == Err::<Option<JvmValue>, JvmError>(e),
        }
    }
}

/// What running the static initializer `<clinit>:()V` of class `kname`
/// with the classes `c` on the heap `h` gives: the result `r` and the heap
/// `h1` (see `run_clinit_method`). A class that is not loaded, or has no
/// such method, gives its error and leaves the heap as it was.
pub open spec fn runs_clinit(
    c: Map<Seq<char>, StatusView>,
    kname: Seq<char>,
    h: Seq<ObjView>,
    r: Result<Option<JvmValue>, JvmError>,
    h1: Seq<ObjView>,
) -> bool {
    match crate::klass_repo::spec_lookup(c, kname) {
        Err(e) => r == Err::<Option<JvmValue>, JvmError>(e) && h1 == h,
        Ok(k) => match crate::otklass::last_method_index(k.methods, kname + ".<clinit>:()V"@) {
            None => r == Err::<Option<JvmValue>, JvmError>(JvmError::MethodNotFound) && h1 == h,
            Some(i) => clinit_result(k.methods[i], h, c, r, h1),
        },
    }
}

/// Runs the static initializer `<clinit>:()V` of class `klass_name` with
/// five local variables.
pub fn run_clinit_method(repo: &mut SharedKlassRepo, heap: &mut SharedSimpleHeap, klass_name: &String) -> (r:
    Result<Option<JvmValue>, JvmError>)
    requires
        old(heap).wf(),
    ensures
        final(heap).wf(),
        *final(repo) == *old(repo),
        runs_clinit(old(repo)@, klass_name@, old(heap)@, r, final(heap)@),
{
    let m_str = join(klass_name.as_str(), ".<clinit>:()V", "");
    proof {
        reveal_strlit("");
        assert(m_str@ =~= klass_name@ + ".<clinit>:()V"@);
    }
    let k = match repo.lookup_klass(klass_name) {
        Ok(k) => k,
        Err(e) => {
            return Err(e);
        },
    };
    let clinit = match k.get_method_by_name_and_desc(&m_str) {
        Some(m) => m,
        None => {
            return Err(JvmError::MethodNotFound);
        },
    };
    let mut vars = InterpLocalVars::of(5);
    exec_method(repo, heap, clinit, &mut vars)
}

/// A step never removes or moves an object: the heap keeps every object,
/// with its id, and may only gain new ones at the end.
pub proof fn law_step_keeps_objects(fs: Seq<FrameView>, h: Seq<ObjView>, m: Map<Seq<char>, StatusView>, i: int)
    requires
        0 <= i < h.len(),
    ensures
        spec_step(fs, h, m) matches Ok((_o, _fs2, h2)) ==> h.len() <= h2.len() && h2[i].id()
            == h[i].id(),
{
}

/// An instruction that works on the current frame alone leaves the heap
/// unchanged and keeps the thread's depth.
pub proof fn law_frame_ops_keep_heap(fs: Seq<FrameView>, h: Seq<ObjView>, m: Map<Seq<char>, StatusView>)
    requires
        fs.len() > 0,
        0 <= fs.last().pc < fs.last().code.len(),
        is_frame_op(fs.last().code[fs.last().pc]),
    ensures
        spec_step(fs, h, m) matches Ok((o, fs2, h2)) ==> h2 == h && fs2.len() == fs.len()
            && o == OutcomeView::Continue,
{
}

/// A step changes the number of frames by at most one and never leaves the
/// thread without a frame: a call adds one, a return from a nested call
/// removes one.
pub proof fn law_step_depth(fs: Seq<FrameView>, h: Seq<ObjView>, m: Map<Seq<char>, StatusView>)
    ensures
        spec_step(fs, h, m) matches Ok((_o, fs2, _h2)) ==> fs2.len() >= 1 && fs.len() - 1 <= fs2.len()
            <= fs.len() + 1,
{
}

/// A value-returning instruction (`ireturn` to `areturn`) hands the value on
/// top of the method's stack back: to the caller's stack, which gets it on
/// top while the callee's frame goes, or, from the bottom frame, as the
/// thread's result. The heap is untouched.
pub proof fn law_return_hands_back_the_top(fs: Seq<FrameView>, h: Seq<ObjView>, m: Map<Seq<char>, StatusView>)
    requires
        fs.len() >= 1,
        0 <= fs.last().pc < fs.last().code.len(),
        opcode::IRETURN <= fs.last().code[fs.last().pc] <= opcode::ARETURN,
        fs.last().eval.len() >= 1,
    ensures
        fs.len() == 1 ==> (spec_step(fs, h, m) matches Ok((o, _fs2, h2)) && o == OutcomeView::Returned(
            Some(fs.last().eval.last()),
        ) && h2 == h),
        fs.len() >= 2 ==> (spec_step(fs, h, m) matches Ok((o, fs2, h2)) && o == OutcomeView::Continue
            && h2 == h && fs2.len() == fs.len() - 1 && fs2.last() == (FrameView {
            eval: fs[fs.len() - 2].eval.push(fs.last().eval.last()),
            ..fs[fs.len() - 2]
        }) && forall|i: int| 0 <= i < fs.len() - 2 ==> fs2[i] == fs[i]),
{
}

} // verus!
