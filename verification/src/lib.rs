//! Register-identity and hardware-encoding layer for an x86-64 code
//! generator: value types naming general-purpose and floating-point
//! registers, the bit fields an instruction encoder derives from them,
//! the calling-convention tables of the supported ABI profiles, and a
//! unified variant over both register classes.

pub mod abi;
pub mod registers;
pub mod variant;
