use unwind_arch::arch::{aarch64, mips, riscv, x86, x86_64};

#[test]
fn x86_64_descriptor_matches_gimli() {
    assert_eq!(x86_64::Arch::sp(), gimli::X86_64::RSP);
    assert_eq!(x86_64::Arch::ra(), gimli::X86_64::RA);
    assert_eq!(
        x86_64::Arch::unwind_data_reg(),
        (gimli::X86_64::RAX, gimli::X86_64::RDX)
    );
}

#[test]
fn x86_descriptor_matches_gimli() {
    assert_eq!(x86::Arch::sp(), gimli::X86::ESP);
    assert_eq!(x86::Arch::ra(), gimli::X86::RA);
    assert_eq!(
        x86::Arch::unwind_data_reg(),
        (gimli::X86::EAX, gimli::X86::EDX)
    );
}

#[test]
fn mips_descriptor_matches_gimli() {
    assert_eq!(mips::Arch::sp(), gimli::MIPS::SP);
    assert_eq!(mips::Arch::ra(), gimli::MIPS::RA);
    assert_eq!(
        mips::Arch::unwind_data_reg(),
        (gimli::MIPS::A0, gimli::MIPS::A1)
    );
}

#[test]
fn riscv_descriptor_matches_gimli() {
    assert_eq!(riscv::Arch::sp(), gimli::RiscV::SP);
    assert_eq!(riscv::Arch::ra(), gimli::RiscV::RA);
    assert_eq!(
        riscv::Arch::unwind_data_reg(),
        (gimli::RiscV::A0, gimli::RiscV::A1)
    );
}

#[test]
fn aarch64_descriptor_matches_gimli() {
    assert_eq!(aarch64::Arch::sp(), gimli::AArch64::SP);
    assert_eq!(aarch64::Arch::ra(), gimli::AArch64::X30);
    assert_eq!(
        aarch64::Arch::unwind_data_reg(),
        (gimli::AArch64::X0, gimli::AArch64::X1)
    );
}

#[test]
fn private_scratch_words_match_abi_table() {
    assert_eq!(x86_64::Arch::UNWIND_PRIVATE_DATA_SIZE, 6);
    assert_eq!(x86::Arch::UNWIND_PRIVATE_DATA_SIZE, 5);
    assert_eq!(mips::Arch::UNWIND_PRIVATE_DATA_SIZE, 2);
    assert_eq!(riscv::Arch::UNWIND_PRIVATE_DATA_SIZE, 2);
    assert_eq!(aarch64::Arch::UNWIND_PRIVATE_DATA_SIZE, 2);
}

#[test]
fn exception_data_regs_never_alias_sp_or_ra() {
    let table = [
        (x86_64::Arch::sp(), x86_64::Arch::ra(), x86_64::Arch::unwind_data_reg()),
        (x86::Arch::sp(), x86::Arch::ra(), x86::Arch::unwind_data_reg()),
        (mips::Arch::sp(), mips::Arch::ra(), mips::Arch::unwind_data_reg()),
        (riscv::Arch::sp(), riscv::Arch::ra(), riscv::Arch::unwind_data_reg()),
        (aarch64::Arch::sp(), aarch64::Arch::ra(), aarch64::Arch::unwind_data_reg()),
    ];
    for (sp, ra, (d0, d1)) in table {
        assert_ne!(d0, sp);
        assert_ne!(d0, ra);
        assert_ne!(d1, sp);
        assert_ne!(d1, ra);
        assert_ne!(d0, d1);
    }
}
