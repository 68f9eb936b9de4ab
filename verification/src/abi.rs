//! Calling-convention register tables of the two supported x86-64 ABI
//! profiles, and the fixed single-purpose register roles shared by both.

use vstd::prelude::*;
use crate::registers::FReg;
use crate::registers::Reg;
use crate::registers::r8;
use crate::registers::r9;
use crate::registers::r10;
use crate::registers::r11;
use crate::registers::r15;
use crate::registers::rax;
use crate::registers::rbp;
use crate::registers::rcx;
use crate::registers::rdi;
use crate::registers::rdx;
use crate::registers::rsi;
use crate::registers::rsp;
use crate::registers::xmm0;
use crate::registers::xmm1;
use crate::registers::xmm2;
use crate::registers::xmm3;
use crate::registers::xmm4;
use crate::registers::xmm5;
use crate::registers::xmm6;
use crate::registers::xmm7;

verus! {

/// The ABI profile the backend was configured for. Exactly one profile is
/// selected per target, at backend construction; only the argument-register
/// tables differ between the two.
#[derive(Copy, Clone, PartialEq, Eq, Structural, Debug)]
pub enum AbiProfile {
    /// The Windows x64 calling convention: 4 integer and 4 floating-point
    /// argument registers.
    Windows,
    /// The System V calling convention used by Unix-family targets (the
    /// default elsewhere): 6 integer and 8 floating-point argument registers.
    Unix,
}

/// The integer argument registers of a profile, in positional
/// argument-assignment order.
pub open spec fn reg_params_spec(abi: AbiProfile) -> Seq<Reg> {
    match abi {
        AbiProfile::Windows => seq![Reg(1u8), Reg(2u8), Reg(8u8), Reg(9u8)],
        AbiProfile::Unix => seq![Reg(7u8), Reg(6u8), Reg(2u8), Reg(1u8), Reg(8u8), Reg(9u8)],
    }
}

/// The floating-point argument registers of a profile, in positional
/// argument-assignment order.
pub open spec fn freg_params_spec(abi: AbiProfile) -> Seq<FReg> {
    match abi {
        AbiProfile::Windows => seq![FReg(0u8), FReg(1u8), FReg(2u8), FReg(3u8)],
        AbiProfile::Unix => seq![
            FReg(0u8),
            FReg(1u8),
            FReg(2u8),
            FReg(3u8),
            FReg(4u8),
            FReg(5u8),
            FReg(6u8),
            FReg(7u8),
        ],
    }
}

/// The scratch registers available for short-lived use by generated code,
/// in fixed preference order: R9, R8, RDI.
pub open spec fn scratch_spec() -> Seq<Reg> {
    seq![Reg(9u8), Reg(8u8), Reg(7u8)]
}

/// The general register holding an integer or pointer result: RAX.
pub open spec fn reg_result_spec() -> Reg {
    Reg(0u8)
}

/// The first general-purpose temporary: R10.
pub open spec fn reg_tmp1_spec() -> Reg {
    Reg(10u8)
}

/// The second general-purpose temporary: R11.
pub open spec fn reg_tmp2_spec() -> Reg {
    Reg(11u8)
}

/// The stack pointer: RSP.
pub open spec fn reg_sp_spec() -> Reg {
    Reg(4u8)
}

/// The frame pointer: RBP.
pub open spec fn reg_fp_spec() -> Reg {
    Reg(5u8)
}

/// The thread-context pointer: R15.
pub open spec fn reg_thread_spec() -> Reg {
    Reg(15u8)
}

/// The floating-point result register: XMM0.
pub open spec fn freg_result_spec() -> FReg {
    FReg(0u8)
}

/// The floating-point temporary: XMM1.
pub open spec fn freg_tmp1_spec() -> FReg {
    FReg(1u8)
}

/// The integer argument registers of the given profile, in positional
/// argument-assignment order: RCX, RDX, R8, R9 on Windows; RDI, RSI, RDX,
/// RCX, R8, R9 on Unix-family targets.
pub fn reg_params(abi: AbiProfile) -> (r: Vec<Reg>)
    ensures
        r@ == reg_params_spec(abi),
{
    match abi {
        AbiProfile::Windows => {
            let v: Vec<Reg> = vec![rcx(), rdx(), r8(), r9()];
            assert(v@ =~= reg_params_spec(abi));
            v
        },
        AbiProfile::Unix => {
            let v: Vec<Reg> = vec![rdi(), rsi(), rdx(), rcx(), r8(), r9()];
            assert(v@ =~= reg_params_spec(abi));
            v
        },
    }
}

/// The floating-point argument registers of the given profile, in positional
/// argument-assignment order: XMM0..XMM3 on Windows; XMM0..XMM7 on
/// Unix-family targets.
pub fn freg_params(abi: AbiProfile) -> (r: Vec<FReg>)
    ensures
        r@ == freg_params_spec(abi),
{
    match abi {
        AbiProfile::Windows => {
            let v: Vec<FReg> = vec![xmm0(), xmm1(), xmm2(), xmm3()];
            assert(v@ =~= freg_params_spec(abi));
            v
        },
        AbiProfile::Unix => {
            let v: Vec<FReg> = vec![
                xmm0(),
                xmm1(),
                xmm2(),
                xmm3(),
                xmm4(),
                xmm5(),
                xmm6(),
                xmm7(),
            ];
            assert(v@ =~= freg_params_spec(abi));
            v
        },
    }
}

/// The scratch registers, in fixed preference order. Identical in both
/// profiles.
pub fn scratch_regs() -> (r: Vec<Reg>)
    ensures
        r@ == scratch_spec(),
{
    let v: Vec<Reg> = vec![r9(), r8(), rdi()];
    assert(v@ =~= scratch_spec());
    v
}

/// The general register holding an integer or pointer result.
pub fn reg_result() -> (r: Reg)
    ensures
        r == reg_result_spec(),
{
    rax()
}

/// The first general-purpose temporary.
pub fn reg_tmp1() -> (r: Reg)
    ensures
        r == reg_tmp1_spec(),
{
    r10()
}

/// The second general-purpose temporary.
pub fn reg_tmp2() -> (r: Reg)
    ensures
        r == reg_tmp2_spec(),
{
    r11()
}

/// The stack pointer.
pub fn reg_sp() -> (r: Reg)
    ensures
        r == reg_sp_spec(),
{
    rsp()
}

/// The frame pointer.
pub fn reg_fp() -> (r: Reg)
    ensures
        r == reg_fp_spec(),
{
    rbp()
}

/// The thread-context pointer.
pub fn reg_thread() -> (r: Reg)
    ensures
        r == reg_thread_spec(),
{
    r15()
}

/// The floating-point result register.
pub fn freg_result() -> (r: FReg)
    ensures
        r == freg_result_spec(),
{
    xmm0()
}

/// The floating-point temporary.
pub fn freg_tmp1() -> (r: FReg)
    ensures
        r == freg_tmp1_spec(),
{
    xmm1()
}

/// Law: in each profile, the integer-argument table has the length its ABI
/// mandates (4 on Windows, 6 on Unix-family targets), the floating-point
/// table likewise (4 and 8), and neither table lists a register twice.
pub proof fn lemma_param_tables_wellformed(abi: AbiProfile)
    ensures
        abi is Windows ==> reg_params_spec(abi).len() == 4 && freg_params_spec(abi).len() == 4,
        abi is Unix ==> reg_params_spec(abi).len() == 6 && freg_params_spec(abi).len() == 8,
        forall|i: int, j: int|
            0 <= i < j < reg_params_spec(abi).len() ==> #[trigger] reg_params_spec(
                abi,
            )[i] != #[trigger] reg_params_spec(abi)[j],
        forall|i: int, j: int|
            0 <= i < j < freg_params_spec(abi).len() ==> #[trigger] freg_params_spec(
                abi,
            )[i] != #[trigger] freg_params_spec(abi)[j],
{
}

/// Law: the scratch registers, the two general-purpose temporaries, and the
/// singleton roles (result, stack pointer, frame pointer, thread-context
/// pointer) are pairwise distinct: no register serves two of these purposes
/// in either profile.
pub proof fn lemma_reserved_roles_disjoint()
    ensures
        forall|i: int, j: int|
            0 <= i < j < scratch_spec().len() ==> #[trigger] scratch_spec()[i]
                != #[trigger] scratch_spec()[j],
        forall|i: int|
            0 <= i < scratch_spec().len() ==> {
                let s = #[trigger] scratch_spec()[i];
                s != reg_result_spec() && s != reg_tmp1_spec() && s != reg_tmp2_spec() && s
                    != reg_sp_spec() && s != reg_fp_spec() && s != reg_thread_spec()
            },
        reg_result_spec() != reg_tmp1_spec(),
        reg_result_spec() != reg_tmp2_spec(),
        reg_result_spec() != reg_sp_spec(),
        reg_result_spec() != reg_fp_spec(),
        reg_result_spec() != reg_thread_spec(),
        reg_tmp1_spec() != reg_tmp2_spec(),
        reg_tmp1_spec() != reg_sp_spec(),
        reg_tmp1_spec() != reg_fp_spec(),
        reg_tmp1_spec() != reg_thread_spec(),
        reg_tmp2_spec() != reg_sp_spec(),
        reg_tmp2_spec() != reg_fp_spec(),
        reg_tmp2_spec() != reg_thread_spec(),
        reg_sp_spec() != reg_fp_spec(),
        reg_sp_spec() != reg_thread_spec(),
        reg_fp_spec() != reg_thread_spec(),
        freg_result_spec() != freg_tmp1_spec(),
{
}

} // verus!
