//! Laws of the step function, proved from the step model: conditional jumps,
//! the arithmetic meaning of AssertEq, and the frame a Call builds.
use vstd::prelude::*;

verus! {

use crate::instruction::{InstrView, instr_size};
use crate::relocatable::{MrVal, mrv_add_usize};
use crate::run_context::{CtxView, dst_addr_spec, op0_addr_spec, op1_addr_spec};
use crate::modular::{field_div, invertible, lemma_field_div_cancels};
use crate::vm_core::{deduce_op0_spec, instruction_step_spec, mget};
use vstd::arithmetic::div_mod::{lemma_add_mod_noop, lemma_add_mod_noop_right, lemma_small_mod};

/// A conditional jump not taken: for every Jnz whose destination is zero and
/// whose instruction occupies two words, a successful step moves pc exactly
/// two words forward.
pub proof fn lemma_jnz_zero_advances_pc(
    i: InstrView,
    c: CtxView,
    m: Map<(int, int), MrVal>,
    nsegs: int,
)
    requires
        instruction_step_spec(i, c, m, nsegs) is Ok,
        (instruction_step_spec(i, c, m, nsegs)->Ok_0).0.dst == MrVal::Int(0),
        i.pc_update is Jnz,
        instr_size(i) == 2,
    ensures
        mrv_add_usize(c.pc, 2, None) matches Ok(v) && (instruction_step_spec(
            i,
            c,
            m,
            nsegs,
        )->Ok_0).3.2 == v,
{
}

/// The arithmetic meaning of AssertEq with Add: after a successful step whose
/// operands are field elements and whose destination is canonical, the
/// destination is the modular sum of the two operands — whichever of the
/// three cells was deduced.
pub proof fn lemma_assert_eq_add(i: InstrView, c: CtxView, m: Map<(int, int), MrVal>, nsegs: int)
    requires
        c.prime > 0,
        instruction_step_spec(i, c, m, nsegs) is Ok,
        i.opcode is AssertEq,
        i.res is Add,
        (instruction_step_spec(i, c, m, nsegs)->Ok_0).0.dst matches MrVal::Int(d) && 0 <= d
            < c.prime,
        (instruction_step_spec(i, c, m, nsegs)->Ok_0).0.op0 is Int,
        (instruction_step_spec(i, c, m, nsegs)->Ok_0).0.op1 is Int,
    ensures
        ({
            let ops = (instruction_step_spec(i, c, m, nsegs)->Ok_0).0;
            ops.dst->Int_0 == (ops.op0->Int_0 + ops.op1->Int_0) % c.prime
        }),
{
    let ops = (instruction_step_spec(i, c, m, nsegs)->Ok_0).0;
    let d = ops.dst->Int_0;
    let a = ops.op0->Int_0;
    let b = ops.op1->Int_0;
    let p = c.prime;
    let da = dst_addr_spec(c, i)->Ok_0;
    let oa = op0_addr_spec(c, i)->Ok_0;
    let dst0 = mget(m, da);
    let op00 = mget(m, oa);
    let o1a = op1_addr_spec(c, i, op00)->Ok_0;
    let op10 = mget(m, o1a);
    if op00 is None {
        // the first operand was deduced as the difference
        assert(dst0 == Some(MrVal::Int(d)));
        assert(op10 == Some(MrVal::Int(b)));
        assert(a == (d - b) % p);
        lemma_add_mod_noop_right((d - b) % p, b, p);
        lemma_add_mod_noop(d - b, b, p);
        lemma_small_mod(d as nat, p as nat);
        assert((a + b) % p == d);
    } else if op10 is None {
        // the second operand was deduced as the difference
        assert(dst0 == Some(MrVal::Int(d)));
        assert(op00 == Some(MrVal::Int(a)));
        assert(b == (d - a) % p);
        lemma_add_mod_noop_right(a, d - a, p);
        lemma_small_mod(d as nat, p as nat);
        assert((a + b) % p == d);
    } else {
        // both operands were read; the result is their modular sum and the
        // opcode assertion ties it to the destination
        assert(ops.res == Some(MrVal::Int((a + b) % p)));
    }
}

/// The arithmetic meaning of AssertEq with Mul: after a successful step whose
/// operands are field elements and whose destination is canonical, the
/// destination is the modular product of the two operands — also where one
/// operand was deduced by field division, provided the divisor was
/// invertible modulo the prime.
pub proof fn lemma_assert_eq_mul(i: InstrView, c: CtxView, m: Map<(int, int), MrVal>, nsegs: int)
    requires
        c.prime > 1,
        instruction_step_spec(i, c, m, nsegs) is Ok,
        i.opcode is AssertEq,
        i.res is Mul,
        (instruction_step_spec(i, c, m, nsegs)->Ok_0).0.dst matches MrVal::Int(d) && 0 <= d
            < c.prime,
        (instruction_step_spec(i, c, m, nsegs)->Ok_0).0.op0 is Int,
        (instruction_step_spec(i, c, m, nsegs)->Ok_0).0.op1 is Int,
        mget(m, op0_addr_spec(c, i)->Ok_0) is None ==> invertible(
            (instruction_step_spec(i, c, m, nsegs)->Ok_0).0.op1->Int_0,
            c.prime,
        ),
        mget(m, op1_addr_spec(c, i, mget(m, op0_addr_spec(c, i)->Ok_0))->Ok_0) is None
            ==> invertible((instruction_step_spec(i, c, m, nsegs)->Ok_0).0.op0->Int_0, c.prime),
    ensures
        ({
            let ops = (instruction_step_spec(i, c, m, nsegs)->Ok_0).0;
            ops.dst->Int_0 == (ops.op0->Int_0 * ops.op1->Int_0) % c.prime
        }),
{
    let ops = (instruction_step_spec(i, c, m, nsegs)->Ok_0).0;
    let d = ops.dst->Int_0;
    let a = ops.op0->Int_0;
    let b = ops.op1->Int_0;
    let p = c.prime;
    let da = dst_addr_spec(c, i)->Ok_0;
    let oa = op0_addr_spec(c, i)->Ok_0;
    let dst0 = mget(m, da);
    let op00 = mget(m, oa);
    let o1a = op1_addr_spec(c, i, op00)->Ok_0;
    let op10 = mget(m, o1a);
    if op00 is None {
        // the first operand was deduced by field division
        assert(dst0 == Some(MrVal::Int(d)));
        assert(op10 == Some(MrVal::Int(b)));
        assert(a == field_div(d, b, p));
        lemma_field_div_cancels(d, b, p);
        assert((a * b) % p == d);
    } else if op10 is None {
        // the second operand was deduced by field division
        assert(dst0 == Some(MrVal::Int(d)));
        assert(op00 == Some(MrVal::Int(a)));
        assert(b == field_div(d, a, p));
        lemma_field_div_cancels(d, a, p);
        assert((b * a) % p == d);
        assert(a * b == b * a) by (nonlinear_arith);
    } else {
        // both operands were read; the result is their modular product and
        // the opcode assertion ties it to the destination
        assert(ops.res == Some(MrVal::Int((a * b) % p)));
    }
}

/// The frame a Call builds. For the canonical Call encoding — destination at
/// `[ap]`, first operand at `[ap + 1]`, both cells free before the step —
/// a successful step saves the caller's fp at `[ap]`, writes the return pc
/// at `[ap + 1]`, and sets fp to `ap + 2`.
pub proof fn lemma_call_frame(i: InstrView, c: CtxView, m: Map<(int, int), MrVal>, nsegs: int)
    requires
        instruction_step_spec(i, c, m, nsegs) is Ok,
        i.opcode is Call,
        i.fp_update is APPlus2,
        i.dst_register is AP,
        i.op0_register is AP,
        i.off0 == 0,
        i.off1 == 1,
        c.ap matches MrVal::Rel(s, o) && 0 <= o && o + 2 < c.prime && o + 2 <= usize::MAX as int,
        !m.dom().contains((c.ap->Rel_0, c.ap->Rel_1)),
        !m.dom().contains((c.ap->Rel_0, c.ap->Rel_1 + 1)),
        mget(m, op1_addr_spec(c, i, Some((deduce_op0_spec(i, None, None, c)->Ok_0).0->Some_0))->Ok_0)
            is Some,
    ensures
        ({
            let t = instruction_step_spec(i, c, m, nsegs)->Ok_0;
            let s = c.ap->Rel_0;
            let o = c.ap->Rel_1;
            &&& t.3.0 == MrVal::Rel(s, o + 2)
            &&& t.2.dom().contains((s, o)) && t.2[(s, o)] == c.fp
            &&& mrv_add_usize(c.pc, instr_size(i), None) matches Ok(rp) && t.2.dom().contains(
                (s, o + 1),
            ) && t.2[(s, o + 1)] == rp
        }),
{
    let s = c.ap->Rel_0;
    let o = c.ap->Rel_1;
    let p = c.prime;
    lemma_small_mod(o as nat, p as nat);
    lemma_small_mod((o + 1) as nat, p as nat);
    assert(dst_addr_spec(c, i)->Ok_0 == MrVal::Rel(s, o));
    assert(op0_addr_spec(c, i)->Ok_0 == MrVal::Rel(s, o + 1));
    let dst0 = mget(m, MrVal::Rel(s, o));
    let op00 = mget(m, MrVal::Rel(s, o + 1));
    assert(dst0 is None);
    assert(op00 is None);
    let t = instruction_step_spec(i, c, m, nsegs)->Ok_0;
    assert(t.2.dom().contains((s, o)) && t.2[(s, o)] == c.fp);
}

} // verus!
