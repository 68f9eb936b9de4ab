//! Identities of the x86-64 machine registers and the bit-level encoding
//! fields derived from them.

use vstd::prelude::*;
use vstd::set_lib::lemma_int_range;
use vstd::set_lib::set_int_range;

verus! {

/// Number of addressable general-purpose registers.
pub const REG_COUNT: usize = 16;

/// Hardware index of the instruction-pointer pseudo-register. It shares the
/// general-register namespace but has no ModRM/SIB operand encoding, so every
/// encoding operation rejects it.
pub const RIP_INDEX: u8 = 16;

/// Identity of a general-purpose register, given by its hardware index.
/// Indices 0..=15 name the sixteen addressable registers; index 16 is the
/// instruction-pointer sentinel, which may be compared and passed around like
/// any register but is rejected by every hardware-encoding operation.
#[derive(Copy, Clone, PartialEq, Eq, Structural, Debug)]
pub struct Reg(pub u8);

/// Identity of a floating-point/vector register, given by its hardware index
/// 0..=15. The namespace is disjoint from `Reg`: equal indices denote
/// physically different registers.
#[derive(Copy, Clone, PartialEq, Eq, Structural, Debug)]
pub struct FReg(pub u8);

/// The two contract-violation conditions of this layer. Both mark a defect
/// in the calling compiler pass, not a recoverable runtime condition; a
/// caller that sees one must abort its encoding attempt.
#[derive(Copy, Clone, PartialEq, Eq, Structural, Debug)]
pub enum RegisterError {
    /// Hardware-encoding fields were requested for the instruction-pointer
    /// sentinel, which has no operand encoding.
    InvalidPseudoRegisterUse,
    /// A unified register variant was narrowed to the register class it does
    /// not hold.
    RegisterClassMismatch,
}

impl Reg {
    /// Whether this identity is the instruction-pointer sentinel.
    pub open spec fn is_instruction_pointer(self) -> bool {
        self.0 == RIP_INDEX
    }

    /// Whether this is one of the four 8086-era basic registers
    /// (accumulator, counter, data, base).
    pub open spec fn is_basic(self) -> bool {
        self.0 == 0 || self.0 == 1 || self.0 == 2 || self.0 == 3
    }

    /// Whether this register needs the special byte-operand treatment of the
    /// four 8086-era basic registers (e.g. BL vs. BH encodings): true exactly
    /// for RAX, RCX, RDX and RBX.
    pub fn is_basic_reg(self) -> (r: bool)
        ensures
            r == self.is_basic(),
    {
        self == rax() || self == rbx() || self == rcx() || self == rdx()
    }

    /// The full hardware index, for an addressable register only.
    pub fn index(self) -> (r: u8)
        requires
            !self.is_instruction_pointer(),
        ensures
            r == self.0,
    {
        self.0
    }

    /// The high (fourth) index bit, folded into a REX-style prefix by the
    /// encoder: 1 exactly for registers R8..=R15.
    pub fn msb(self) -> (r: u8)
        requires
            !self.is_instruction_pointer(),
        ensures
            r == (self.0 >> 3) & 1,
            r <= 1,
            self.0 < 16 ==> r == self.0 / 8,
    {
        proof {
            let i = self.0;
            assert((i >> 3) & 1 <= 1 && (i < 16 ==> (i >> 3) & 1 == i / 8)) by (bit_vector);
        }
        (self.index() >> 3) & 0x01
    }

    /// The low three index bits, placed directly into a ModRM or SIB
    /// register sub-field.
    pub fn and7(self) -> (r: u8)
        requires
            !self.is_instruction_pointer(),
        ensures
            r == self.0 & 7,
            r <= 7,
            r == self.0 % 8,
    {
        proof {
            let i = self.0;
            assert(i & 7 <= 7 && i & 7 == i % 8) by (bit_vector);
        }
        self.index() & 0x07
    }

    /// The full hardware index, with the sentinel rejected as a value
    /// instead of excluded by precondition.
    pub fn try_int(self) -> (r: Result<u8, RegisterError>)
        ensures
            !self.is_instruction_pointer() ==> r == Ok::<u8, RegisterError>(self.0),
            self.is_instruction_pointer() ==> r == Err::<u8, RegisterError>(
                RegisterError::InvalidPseudoRegisterUse,
            ),
    {
        if self.0 == RIP_INDEX {
            Err(RegisterError::InvalidPseudoRegisterUse)
        } else {
            Ok(self.0)
        }
    }

    /// The high index bit, with the sentinel rejected as a value instead of
    /// excluded by precondition.
    pub fn try_msb(self) -> (r: Result<u8, RegisterError>)
        ensures
            !self.is_instruction_pointer() ==> r == Ok::<u8, RegisterError>((self.0 >> 3) & 1),
            !self.is_instruction_pointer() && self.0 < 16 ==> r == Ok::<u8, RegisterError>(
                self.0 / 8,
            ),
            self.is_instruction_pointer() ==> r == Err::<u8, RegisterError>(
                RegisterError::InvalidPseudoRegisterUse,
            ),
    {
        if self.0 == RIP_INDEX {
            Err(RegisterError::InvalidPseudoRegisterUse)
        } else {
            Ok(self.msb())
        }
    }

    /// The low three index bits, with the sentinel rejected as a value
    /// instead of excluded by precondition.
    pub fn try_and7(self) -> (r: Result<u8, RegisterError>)
        ensures
            !self.is_instruction_pointer() ==> r == Ok::<u8, RegisterError>(self.0 & 7),
            !self.is_instruction_pointer() ==> r == Ok::<u8, RegisterError>(self.0 % 8),
            self.is_instruction_pointer() ==> r == Err::<u8, RegisterError>(
                RegisterError::InvalidPseudoRegisterUse,
            ),
    {
        if self.0 == RIP_INDEX {
            Err(RegisterError::InvalidPseudoRegisterUse)
        } else {
            Ok(self.and7())
        }
    }
}

impl FReg {
    /// The full hardware index.
    pub fn index(self) -> (r: u8)
        ensures
            r == self.0,
    {
        self.0
    }

    /// The high (fourth) index bit, folded into a REX-style prefix by the
    /// encoder: 1 exactly for registers XMM8..=XMM15.
    pub fn msb(self) -> (r: u8)
        ensures
            r == (self.0 >> 3) & 1,
            r <= 1,
            self.0 < 16 ==> r == self.0 / 8,
    {
        proof {
            let i = self.0;
            assert((i >> 3) & 1 <= 1 && (i < 16 ==> (i >> 3) & 1 == i / 8)) by (bit_vector);
        }
        (self.0 >> 3) & 0x01
    }

    /// The low three index bits, placed directly into a ModRM or SIB
    /// register sub-field.
    pub fn and7(self) -> (r: u8)
        ensures
            r == self.0 & 7,
            r <= 7,
            r == self.0 % 8,
    {
        proof {
            let i = self.0;
            assert(i & 7 <= 7 && i & 7 == i % 8) by (bit_vector);
        }
        self.0 & 0x07
    }
}

/// Law: for every addressable general register (index 0..=15), the high bit
/// is `index >> 3 & 1`, the low-3 field is `index & 7`, each lies in range,
/// and recombining them as `low3 | high << 3` restores the full index.
pub proof fn lemma_general_encoding_roundtrip(r: Reg)
    requires
        r.0 < 16,
    ensures
        (r.0 >> 3) & 1 <= 1,
        r.0 & 7 <= 7,
        (r.0 & 7) | (((r.0 >> 3) & 1) << 3) == r.0,
{
    let i = r.0;
    assert((i >> 3) & 1 <= 1 && i & 7 <= 7 && ((i & 7) | (((i >> 3) & 1) << 3)) == i)
        by (bit_vector)
        requires
            i < 16,
    ;
}

/// Law: the same encoding round-trip holds for every floating-point register
/// over its full index range 0..=15.
pub proof fn lemma_float_encoding_roundtrip(f: FReg)
    requires
        f.0 < 16,
    ensures
        (f.0 >> 3) & 1 <= 1,
        f.0 & 7 <= 7,
        (f.0 & 7) | (((f.0 >> 3) & 1) << 3) == f.0,
{
    let i = f.0;
    assert((i >> 3) & 1 <= 1 && i & 7 <= 7 && ((i & 7) | (((i >> 3) & 1) << 3)) == i)
        by (bit_vector)
        requires
            i < 16,
    ;
}

/// Law: among the seventeen general-register identities, exactly four are
/// basic (RAX, RCX, RDX, RBX), the remaining twelve addressable registers
/// are not, and the instruction-pointer sentinel is never basic.
pub proof fn lemma_exactly_four_basic()
    ensures
        Set::new(|i: int| 0 <= i <= 16 && Reg(i as u8).is_basic()).len() == 4,
        Set::new(|i: int| 0 <= i <= 15 && !Reg(i as u8).is_basic()).len() == 12,
        !Reg(RIP_INDEX).is_basic(),
{
    let basic = Set::new(|i: int| 0 <= i <= 16 && Reg(i as u8).is_basic());
    let nonbasic = Set::new(|i: int| 0 <= i <= 15 && !Reg(i as u8).is_basic());
    assert(basic =~= set_int_range(0, 4));
    lemma_int_range(0, 4);
    assert(nonbasic =~= set_int_range(4, 16));
    lemma_int_range(4, 16);
}

/// The general register RAX (index 0).
pub fn rax() -> (r: Reg)
    ensures
        r == Reg(0u8),
{
    Reg(0)
}

/// The general register RCX (index 1).
pub fn rcx() -> (r: Reg)
    ensures
        r == Reg(1u8),
{
    Reg(1)
}

/// The general register RDX (index 2).
pub fn rdx() -> (r: Reg)
    ensures
        r == Reg(2u8),
{
    Reg(2)
}

/// The general register RBX (index 3).
pub fn rbx() -> (r: Reg)
    ensures
        r == Reg(3u8),
{
    Reg(3)
}

/// The general register RSP (index 4), the stack pointer.
pub fn rsp() -> (r: Reg)
    ensures
        r == Reg(4u8),
{
    Reg(4)
}

/// The general register RBP (index 5), the frame pointer.
pub fn rbp() -> (r: Reg)
    ensures
        r == Reg(5u8),
{
    Reg(5)
}

/// The general register RSI (index 6).
pub fn rsi() -> (r: Reg)
    ensures
        r == Reg(6u8),
{
    Reg(6)
}

/// The general register RDI (index 7).
pub fn rdi() -> (r: Reg)
    ensures
        r == Reg(7u8),
{
    Reg(7)
}

/// The general register R8 (index 8).
pub fn r8() -> (r: Reg)
    ensures
        r == Reg(8u8),
{
    Reg(8)
}

/// The general register R9 (index 9).
pub fn r9() -> (r: Reg)
    ensures
        r == Reg(9u8),
{
    Reg(9)
}

/// The general register R10 (index 10).
pub fn r10() -> (r: Reg)
    ensures
        r == Reg(10u8),
{
    Reg(10)
}

/// The general register R11 (index 11).
pub fn r11() -> (r: Reg)
    ensures
        r == Reg(11u8),
{
    Reg(11)
}

/// The general register R12 (index 12).
pub fn r12() -> (r: Reg)
    ensures
        r == Reg(12u8),
{
    Reg(12)
}

/// The general register R13 (index 13).
pub fn r13() -> (r: Reg)
    ensures
        r == Reg(13u8),
{
    Reg(13)
}

/// The general register R14 (index 14).
pub fn r14() -> (r: Reg)
    ensures
        r == Reg(14u8),
{
    Reg(14)
}

/// The general register R15 (index 15).
pub fn r15() -> (r: Reg)
    ensures
        r == Reg(15u8),
{
    Reg(15)
}

/// The instruction-pointer pseudo-register RIP (sentinel index 16). It has
/// no hardware operand encoding: every encoding operation rejects it.
pub fn rip() -> (r: Reg)
    ensures
        r == Reg(RIP_INDEX),
        r.is_instruction_pointer(),
{
    Reg(16)
}

/// The floating-point register XMM0 (index 0).
pub fn xmm0() -> (r: FReg)
    ensures
        r == FReg(0u8),
{
    FReg(0)
}

/// The floating-point register XMM1 (index 1).
pub fn xmm1() -> (r: FReg)
    ensures
        r == FReg(1u8),
{
    FReg(1)
}

/// The floating-point register XMM2 (index 2).
pub fn xmm2() -> (r: FReg)
    ensures
        r == FReg(2u8),
{
    FReg(2)
}

/// The floating-point register XMM3 (index 3).
pub fn xmm3() -> (r: FReg)
    ensures
        r == FReg(3u8),
{
    FReg(3)
}

/// The floating-point register XMM4 (index 4).
pub fn xmm4() -> (r: FReg)
    ensures
        r == FReg(4u8),
{
    FReg(4)
}

/// The floating-point register XMM5 (index 5).
pub fn xmm5() -> (r: FReg)
    ensures
        r == FReg(5u8),
{
    FReg(5)
}

/// The floating-point register XMM6 (index 6).
pub fn xmm6() -> (r: FReg)
    ensures
        r == FReg(6u8),
{
    FReg(6)
}

/// The floating-point register XMM7 (index 7).
pub fn xmm7() -> (r: FReg)
    ensures
        r == FReg(7u8),
{
    FReg(7)
}

/// The floating-point register XMM8 (index 8).
pub fn xmm8() -> (r: FReg)
    ensures
        r == FReg(8u8),
{
    FReg(8)
}

/// The floating-point register XMM9 (index 9).
pub fn xmm9() -> (r: FReg)
    ensures
        r == FReg(9u8),
{
    FReg(9)
}

/// The floating-point register XMM10 (index 10).
pub fn xmm10() -> (r: FReg)
    ensures
        r == FReg(10u8),
{
    FReg(10)
}

/// The floating-point register XMM11 (index 11).
pub fn xmm11() -> (r: FReg)
    ensures
        r == FReg(11u8),
{
    FReg(11)
}

/// The floating-point register XMM12 (index 12).
pub fn xmm12() -> (r: FReg)
    ensures
        r == FReg(12u8),
{
    FReg(12)
}

/// The floating-point register XMM13 (index 13).
pub fn xmm13() -> (r: FReg)
    ensures
        r == FReg(13u8),
{
    FReg(13)
}

/// The floating-point register XMM14 (index 14).
pub fn xmm14() -> (r: FReg)
    ensures
        r == FReg(14u8),
{
    FReg(14)
}

/// The floating-point register XMM15 (index 15).
pub fn xmm15() -> (r: FReg)
    ensures
        r == FReg(15u8),
{
    FReg(15)
}

} // verus!
