//! The instruction decoder: a 63-bit packed word carries three biased 16-bit
//! offsets and fifteen flag bits.
use vstd::prelude::*;

verus! {

use num_bigint::BigInt;
use crate::bigint_ops::big_val;
use crate::errors::{VirtualMachineError, VmErrV};
use crate::instruction::{ApUpdate, FpUpdate, Instruction, InstrView, Opcode, Op1Addr, PcUpdate,
    Register, Res};

/// Decoding on the model. The word is split as off0 `[0..16)`, off1
/// `[16..32)`, off2 `[32..48)`, flags `[48..63)`; each offset is de-biased.
/// The flag groups select the registers, the operand source, the result
/// mode, the three update modes and the opcode; an immediate operand demands
/// off2 = 1 and attaches the following word. A Call must jump (absolutely or
/// relatively), advance ap by the frame it builds, and take its target from
/// the second operand; a Ret must jump to the saved pc without moving ap.
pub open spec fn decode_spec(w: int, imm: Option<int>) -> Result<InstrView, VmErrV> {
    if !(0 <= w < 0x8000000000000000) {
        Err(VmErrV::InvalidInstructionEncoding)
    } else {
        let off0 = w % 0x10000 - 32768;
        let off1 = (w / 0x10000) % 0x10000 - 32768;
        let off2 = (w / 0x100000000) % 0x10000 - 32768;
        let flags = w / 0x1000000000000;
        let dst_register = if flags % 2 == 1 {
            Register::FP
        } else {
            Register::AP
        };
        let op0_register = if (flags / 2) % 2 == 1 {
            Register::FP
        } else {
            Register::AP
        };
        let op1_raw = (flags / 4) % 8;
        let res_raw = (flags / 32) % 4;
        let pc_raw = (flags / 128) % 8;
        let ap_raw = (flags / 1024) % 4;
        let opcode_raw = (flags / 4096) % 8;
        if !(op1_raw == 0 || op1_raw == 1 || op1_raw == 2 || op1_raw == 4) {
            Err(VmErrV::InvalidOp1Reg)
        } else if !(pc_raw == 0 || pc_raw == 1 || pc_raw == 2 || pc_raw == 4) {
            Err(VmErrV::InvalidPcUpdate)
        } else if res_raw == 3 {
            Err(VmErrV::InvalidRes)
        } else if !(opcode_raw == 0 || opcode_raw == 1 || opcode_raw == 2 || opcode_raw == 4) {
            Err(VmErrV::InvalidOpcode)
        } else if ap_raw == 3 {
            Err(VmErrV::InvalidApUpdate)
        } else if op1_raw == 1 && off2 != 1 {
            Err(VmErrV::ImmShouldBe1)
        } else {
            let op1_addr = if op1_raw == 0 {
                Op1Addr::Op0
            } else if op1_raw == 1 {
                Op1Addr::Imm
            } else if op1_raw == 2 {
                Op1Addr::FP
            } else {
                Op1Addr::AP
            };
            let pc_update = if pc_raw == 0 {
                PcUpdate::Regular
            } else if pc_raw == 1 {
                PcUpdate::Jump
            } else if pc_raw == 2 {
                PcUpdate::JumpRel
            } else {
                PcUpdate::Jnz
            };
            let res = if res_raw == 0 {
                if pc_update is Jnz {
                    Res::Unconstrained
                } else {
                    Res::Op1
                }
            } else if res_raw == 1 {
                Res::Add
            } else {
                Res::Mul
            };
            let opcode = if opcode_raw == 0 {
                Opcode::NOp
            } else if opcode_raw == 1 {
                Opcode::Call
            } else if opcode_raw == 2 {
                Opcode::Ret
            } else {
                Opcode::AssertEq
            };
            let ap_update = if ap_raw == 0 {
                if opcode is Call {
                    ApUpdate::Add2
                } else {
                    ApUpdate::Regular
                }
            } else if ap_raw == 1 {
                ApUpdate::Add
            } else {
                ApUpdate::Add1
            };
            let fp_update = match opcode {
                Opcode::Call => FpUpdate::APPlus2,
                Opcode::Ret => FpUpdate::Dst,
                _ => FpUpdate::Regular,
            };
            if opcode is Call && !(pc_update is Jump || pc_update is JumpRel) {
                Err(VmErrV::InvalidPcUpdate)
            } else if opcode is Call && !(ap_update is Add2) {
                Err(VmErrV::InvalidApUpdate)
            } else if opcode is Call && !(res is Op1) {
                Err(VmErrV::InvalidRes)
            } else if opcode is Ret && !(pc_update is Jump) {
                Err(VmErrV::InvalidPcUpdate)
            } else if opcode is Ret && !(ap_update is Regular) {
                Err(VmErrV::InvalidApUpdate)
            } else if opcode is Ret && !(res is Op1) {
                Err(VmErrV::InvalidRes)
            } else {
                Ok(
                    InstrView {
                    off0,
                    off1,
                    off2,
                    imm: if op1_raw == 1 {
                        imm
                    } else {
                        None
                    },
                    dst_register,
                    op0_register,
                    op1_addr,
                    res,
                    pc_update,
                    ap_update,
                    fp_update,
                    opcode,
                    },
                )
            }
        }
    }
}

/// Decodes a packed instruction word, attaching the following memory word as
/// the immediate when the second operand is immediate.
pub fn decode_instruction(word: u64, imm: Option<BigInt>) -> (r: Result<
    Instruction,
    VirtualMachineError,
>)
    ensures
        match r {
            Ok(i) => decode_spec(
                word as int,
                match imm {
                    Some(b) => Some(big_val(b)),
                    None => None,
                },
            ) matches Ok(iv) && i@ == iv,
            Err(e) => decode_spec(
                word as int,
                match imm {
                    Some(b) => Some(big_val(b)),
                    None => None,
                },
            ) matches Err(e2) && e@ == e2,
        },
{
    if word >= 0x8000000000000000 {
        return Err(VirtualMachineError::InvalidInstructionEncoding);
    }
    let off0 = (word % 0x10000) as i64 - 32768;
    let off1 = ((word / 0x10000) % 0x10000) as i64 - 32768;
    let off2 = ((word / 0x100000000) % 0x10000) as i64 - 32768;
    let flags = word / 0x1000000000000;
    let dst_register = if flags % 2 == 1 {
        Register::FP
    } else {
        Register::AP
    };
    let op0_register = if (flags / 2) % 2 == 1 {
        Register::FP
    } else {
        Register::AP
    };
    let op1_raw = (flags / 4) % 8;
    let res_raw = (flags / 32) % 4;
    let pc_raw = (flags / 128) % 8;
    let ap_raw = (flags / 1024) % 4;
    let opcode_raw = (flags / 4096) % 8;
    if !(op1_raw == 0 || op1_raw == 1 || op1_raw == 2 || op1_raw == 4) {
        return Err(VirtualMachineError::InvalidOp1Reg);
    }
    if !(pc_raw == 0 || pc_raw == 1 || pc_raw == 2 || pc_raw == 4) {
        return Err(VirtualMachineError::InvalidPcUpdate);
    }
    if res_raw == 3 {
        return Err(VirtualMachineError::InvalidRes);
    }
    if !(opcode_raw == 0 || opcode_raw == 1 || opcode_raw == 2 || opcode_raw == 4) {
        return Err(VirtualMachineError::InvalidOpcode);
    }
    if ap_raw == 3 {
        return Err(VirtualMachineError::InvalidApUpdate);
    }
    if op1_raw == 1 && off2 != 1 {
        return Err(VirtualMachineError::ImmShouldBe1);
    }
    let op1_addr = if op1_raw == 0 {
        Op1Addr::Op0
    } else if op1_raw == 1 {
        Op1Addr::Imm
    } else if op1_raw == 2 {
        Op1Addr::FP
    } else {
        Op1Addr::AP
    };
    let pc_update = if pc_raw == 0 {
        PcUpdate::Regular
    } else if pc_raw == 1 {
        PcUpdate::Jump
    } else if pc_raw == 2 {
        PcUpdate::JumpRel
    } else {
        PcUpdate::Jnz
    };
    let res = if res_raw == 0 {
        if pc_update == PcUpdate::Jnz {
            Res::Unconstrained
        } else {
            Res::Op1
        }
    } else if res_raw == 1 {
        Res::Add
    } else {
        Res::Mul
    };
    let opcode = if opcode_raw == 0 {
        Opcode::NOp
    } else if opcode_raw == 1 {
        Opcode::Call
    } else if opcode_raw == 2 {
        Opcode::Ret
    } else {
        Opcode::AssertEq
    };
    let ap_update = if ap_raw == 0 {
        if opcode == Opcode::Call {
            ApUpdate::Add2
        } else {
            ApUpdate::Regular
        }
    } else if ap_raw == 1 {
        ApUpdate::Add
    } else {
        ApUpdate::Add1
    };
    let fp_update = match opcode {
        Opcode::Call => FpUpdate::APPlus2,
        Opcode::Ret => FpUpdate::Dst,
        _ => FpUpdate::Regular,
    };
    if opcode == Opcode::Call && !(pc_update == PcUpdate::Jump || pc_update == PcUpdate::JumpRel) {
        return Err(VirtualMachineError::InvalidPcUpdate);
    }
    if opcode == Opcode::Call && ap_update != ApUpdate::Add2 {
        return Err(VirtualMachineError::InvalidApUpdate);
    }
    if opcode == Opcode::Call && res != Res::Op1 {
        return Err(VirtualMachineError::InvalidRes);
    }
    if opcode == Opcode::Ret && pc_update != PcUpdate::Jump {
        return Err(VirtualMachineError::InvalidPcUpdate);
    }
    if opcode == Opcode::Ret && ap_update != ApUpdate::Regular {
        return Err(VirtualMachineError::InvalidApUpdate);
    }
    if opcode == Opcode::Ret && res != Res::Op1 {
        return Err(VirtualMachineError::InvalidRes);
    }
    Ok(
        Instruction {
            off0,
            off1,
            off2,
            imm: if op1_raw == 1 {
                imm
            } else {
                None
            },
            dst_register,
            op0_register,
            op1_addr,
            res,
            pc_update,
            ap_update,
            fp_update,
            opcode,
        },
    )
}

/// The inverse layout: an instruction packed back into a word, offsets
/// re-biased and the flag groups re-encoded.
pub open spec fn encode_spec(i: InstrView) -> int {
    (i.off0 + 32768) + 0x10000 * (i.off1 + 32768) + 0x100000000 * (i.off2 + 32768)
        + 0x1000000000000 * ((if i.dst_register is FP {
        1int
    } else {
        0int
    }) + 2 * (if i.op0_register is FP {
        1int
    } else {
        0int
    }) + 4 * (match i.op1_addr {
        Op1Addr::Op0 => 0int,
        Op1Addr::Imm => 1int,
        Op1Addr::FP => 2int,
        Op1Addr::AP => 4int,
    }) + 32 * (match i.res {
        Res::Op1 => 0int,
        Res::Add => 1int,
        Res::Mul => 2int,
        Res::Unconstrained => 0int,
    }) + 128 * (match i.pc_update {
        PcUpdate::Regular => 0int,
        PcUpdate::Jump => 1int,
        PcUpdate::JumpRel => 2int,
        PcUpdate::Jnz => 4int,
    }) + 1024 * (match i.ap_update {
        ApUpdate::Regular => 0int,
        ApUpdate::Add => 1int,
        ApUpdate::Add1 => 2int,
        ApUpdate::Add2 => 0int,
    }) + 4096 * (match i.opcode {
        Opcode::NOp => 0int,
        Opcode::Call => 1int,
        Opcode::Ret => 2int,
        Opcode::AssertEq => 4int,
    }))
}

/// Round trip: re-encoding a decoded instruction through the inverse layout
/// reproduces the packed word exactly, offsets and flags alike.
#[verifier::rlimit(100)]
pub proof fn lemma_decode_encode(w: int, imm: Option<int>)
    requires
        decode_spec(w, imm) is Ok,
    ensures
        encode_spec(decode_spec(w, imm)->Ok_0) == w,
{
    let r0 = w % 0x10000;
    let q1 = w / 0x10000;
    let r1 = q1 % 0x10000;
    let q2 = q1 / 0x10000;
    let r2 = q2 % 0x10000;
    let flags = q2 / 0x10000;
    vstd::arithmetic::div_mod::lemma_fundamental_div_mod(w, 0x10000);
    vstd::arithmetic::div_mod::lemma_fundamental_div_mod(q1, 0x10000);
    vstd::arithmetic::div_mod::lemma_fundamental_div_mod(q2, 0x10000);
    vstd::arithmetic::div_mod::lemma_div_denominator(w, 0x10000, 0x10000);
    vstd::arithmetic::div_mod::lemma_div_denominator(w, 0x100000000, 0x10000);
    assert(w / 0x100000000 == q2);
    assert(w / 0x1000000000000 == flags);
    let f0 = flags % 2;
    let g1 = flags / 2;
    let f1 = g1 % 2;
    let g2 = g1 / 2;
    let f2 = g2 % 8;
    let g3 = g2 / 8;
    let f3 = g3 % 4;
    let g4 = g3 / 4;
    let f4 = g4 % 8;
    let g5 = g4 / 8;
    let f5 = g5 % 4;
    let g6 = g5 / 4;
    vstd::arithmetic::div_mod::lemma_fundamental_div_mod(flags, 2);
    vstd::arithmetic::div_mod::lemma_fundamental_div_mod(g1, 2);
    vstd::arithmetic::div_mod::lemma_fundamental_div_mod(g2, 8);
    vstd::arithmetic::div_mod::lemma_fundamental_div_mod(g3, 4);
    vstd::arithmetic::div_mod::lemma_fundamental_div_mod(g4, 8);
    vstd::arithmetic::div_mod::lemma_fundamental_div_mod(g5, 4);
    vstd::arithmetic::div_mod::lemma_div_denominator(flags, 2, 2);
    vstd::arithmetic::div_mod::lemma_div_denominator(flags, 4, 8);
    vstd::arithmetic::div_mod::lemma_div_denominator(flags, 32, 4);
    vstd::arithmetic::div_mod::lemma_div_denominator(flags, 128, 8);
    vstd::arithmetic::div_mod::lemma_div_denominator(flags, 1024, 4);
    assert(flags / 4 == g2);
    assert(flags / 32 == g3);
    assert(flags / 128 == g4);
    assert(flags / 1024 == g5);
    assert(flags / 4096 == g6);
    assert(flags < 0x8000) by {
        vstd::arithmetic::div_mod::lemma_div_is_ordered(w, 0x7fffffffffffffff, 0x1000000000000);
    }
    assert(g6 % 8 == g6) by {
        vstd::arithmetic::div_mod::lemma_div_is_ordered(flags, 0x7fff, 4096);
        vstd::arithmetic::div_mod::lemma_small_mod(g6 as nat, 8);
    }
    let iv = decode_spec(w, imm)->Ok_0;
    assert(encode_spec(iv) == r0 + 0x10000 * r1 + 0x100000000 * r2 + 0x1000000000000 * (f0 + 2 * f1
        + 4 * f2 + 32 * f3 + 128 * f4 + 1024 * f5 + 4096 * g6));
}

} // verus!
