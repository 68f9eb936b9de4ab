//! A unified variant over the two register classes, for call sites that are
//! generic over general-purpose and floating-point registers.

use vstd::prelude::*;
use crate::registers::FReg;
use crate::registers::Reg;
use crate::registers::RegisterError;

verus! {

/// Either a floating-point register or a general-purpose register. Exactly
/// one case is active; narrowing to the wrong case is a defect in the caller
/// and is rejected by every narrowing operation.
#[derive(Copy, Clone, PartialEq, Eq, Structural, Debug)]
pub enum Register {
    Float(FReg),
    General(Reg),
}

impl Register {
    /// The floating-point register this variant holds.
    pub fn freg(&self) -> (r: FReg)
        requires
            self is Float,
        ensures
            r == self->Float_0,
    {
        match self {
            Register::Float(freg) => *freg,
            Register::General(_) => unreached(),
        }
    }

    /// The general-purpose register this variant holds.
    pub fn reg(&self) -> (r: Reg)
        requires
            self is General,
        ensures
            r == self->General_0,
    {
        match self {
            Register::General(reg) => *reg,
            Register::Float(_) => unreached(),
        }
    }

    /// The floating-point register this variant holds, with the wrong class
    /// reported as a value instead of excluded by precondition.
    pub fn try_freg(&self) -> (r: Result<FReg, RegisterError>)
        ensures
            self is Float ==> r == Ok::<FReg, RegisterError>(self->Float_0),
            self is General ==> r == Err::<FReg, RegisterError>(
                RegisterError::RegisterClassMismatch,
            ),
    {
        match self {
            Register::Float(freg) => Ok(*freg),
            Register::General(_) => Err(RegisterError::RegisterClassMismatch),
        }
    }

    /// The general-purpose register this variant holds, with the wrong class
    /// reported as a value instead of excluded by precondition.
    pub fn try_reg(&self) -> (r: Result<Reg, RegisterError>)
        ensures
            self is General ==> r == Ok::<Reg, RegisterError>(self->General_0),
            self is Float ==> r == Err::<Reg, RegisterError>(
                RegisterError::RegisterClassMismatch,
            ),
    {
        match self {
            Register::General(reg) => Ok(*reg),
            Register::Float(_) => Err(RegisterError::RegisterClassMismatch),
        }
    }
}

/// Law: wrapping an identity in the unified variant and narrowing it back
/// via the matching class returns the identity unchanged, while narrowing
/// via the other class reports a class mismatch.
pub proof fn lemma_variant_roundtrip(g: Reg, f: FReg)
    ensures
        Register::General(g)->General_0 == g,
        Register::Float(f)->Float_0 == f,
        Register::General(g) !is Float,
        Register::Float(f) !is General,
{
}

} // verus!
