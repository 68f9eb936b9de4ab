use x64_regs::abi::AbiProfile;
use x64_regs::abi::freg_params;
use x64_regs::abi::freg_result;
use x64_regs::abi::freg_tmp1;
use x64_regs::abi::reg_fp;
use x64_regs::abi::reg_params;
use x64_regs::abi::reg_result;
use x64_regs::abi::reg_sp;
use x64_regs::abi::reg_thread;
use x64_regs::abi::reg_tmp1;
use x64_regs::abi::reg_tmp2;
use x64_regs::abi::scratch_regs;
use x64_regs::registers::r10;
use x64_regs::registers::r11;
use x64_regs::registers::r15;
use x64_regs::registers::r8;
use x64_regs::registers::r9;
use x64_regs::registers::rax;
use x64_regs::registers::rbp;
use x64_regs::registers::rcx;
use x64_regs::registers::rdi;
use x64_regs::registers::rdx;
use x64_regs::registers::rsi;
use x64_regs::registers::rsp;
use x64_regs::registers::xmm0;
use x64_regs::registers::xmm1;
use x64_regs::registers::xmm2;
use x64_regs::registers::xmm3;
use x64_regs::registers::xmm4;
use x64_regs::registers::xmm5;
use x64_regs::registers::xmm6;
use x64_regs::registers::xmm7;

#[test]
fn windows_argument_tables_match_the_abi() {
    let ints = reg_params(AbiProfile::Windows);
    assert_eq!(ints, vec![rcx(), rdx(), r8(), r9()]);
    assert_eq!(ints.len(), 4);
    let floats = freg_params(AbiProfile::Windows);
    assert_eq!(floats, vec![xmm0(), xmm1(), xmm2(), xmm3()]);
    assert_eq!(floats.len(), 4);
}

#[test]
fn unix_argument_tables_match_the_abi() {
    let ints = reg_params(AbiProfile::Unix);
    assert_eq!(ints, vec![rdi(), rsi(), rdx(), rcx(), r8(), r9()]);
    assert_eq!(ints.len(), 6);
    let floats = freg_params(AbiProfile::Unix);
    assert_eq!(
        floats,
        vec![xmm0(), xmm1(), xmm2(), xmm3(), xmm4(), xmm5(), xmm6(), xmm7()]
    );
    assert_eq!(floats.len(), 8);
}

#[test]
fn argument_tables_hold_no_duplicates() {
    for abi in [AbiProfile::Windows, AbiProfile::Unix] {
        let ints = reg_params(abi);
        for i in 0..ints.len() {
            for j in (i + 1)..ints.len() {
                assert_ne!(ints[i], ints[j]);
            }
        }
        let floats = freg_params(abi);
        for i in 0..floats.len() {
            for j in (i + 1)..floats.len() {
                assert_ne!(floats[i], floats[j]);
            }
        }
    }
}

#[test]
fn scratch_registers_come_in_preference_order() {
    assert_eq!(scratch_regs(), vec![r9(), r8(), rdi()]);
}

#[test]
fn singleton_roles_name_the_expected_registers() {
    assert_eq!(reg_result(), rax());
    assert_eq!(reg_tmp1(), r10());
    assert_eq!(reg_tmp2(), r11());
    assert_eq!(reg_sp(), rsp());
    assert_eq!(reg_fp(), rbp());
    assert_eq!(reg_thread(), r15());
    assert_eq!(freg_result(), xmm0());
    assert_eq!(freg_tmp1(), xmm1());
}

#[test]
fn reserved_roles_do_not_overlap() {
    let roles = [
        reg_result(),
        reg_tmp1(),
        reg_tmp2(),
        reg_sp(),
        reg_fp(),
        reg_thread(),
    ];
    for i in 0..roles.len() {
        for j in (i + 1)..roles.len() {
            assert_ne!(roles[i], roles[j]);
        }
    }
    let scratch = scratch_regs();
    for i in 0..scratch.len() {
        for j in (i + 1)..scratch.len() {
            assert_ne!(scratch[i], scratch[j]);
        }
        for role in roles.iter() {
            assert_ne!(scratch[i], *role);
        }
    }
    assert_ne!(freg_result(), freg_tmp1());
}
