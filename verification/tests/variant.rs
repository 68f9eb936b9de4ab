use x64_regs::registers::RegisterError;
use x64_regs::registers::r11;
use x64_regs::registers::rax;
use x64_regs::registers::xmm13;
use x64_regs::registers::xmm2;
use x64_regs::variant::Register;

#[test]
fn matching_narrowing_returns_the_identity_unchanged() {
    let general = Register::General(r11());
    assert_eq!(general.reg(), r11());
    assert_eq!(general.try_reg(), Ok(r11()));
    let float = Register::Float(xmm13());
    assert_eq!(float.freg(), xmm13());
    assert_eq!(float.try_freg(), Ok(xmm13()));
}

#[test]
fn wrong_class_narrowing_reports_a_mismatch() {
    let general = Register::General(rax());
    assert_eq!(general.try_freg(), Err(RegisterError::RegisterClassMismatch));
    let float = Register::Float(xmm2());
    assert_eq!(float.try_reg(), Err(RegisterError::RegisterClassMismatch));
}

#[test]
fn the_two_classes_are_distinguished() {
    let general = Register::General(rax());
    let float = Register::Float(xmm2());
    assert_ne!(general, float);
    assert!(matches!(general, Register::General(_)));
    assert!(matches!(float, Register::Float(_)));
}
