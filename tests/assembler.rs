use pda6502v2emu::assembler::{branch, label, val, Addr, Assembler, BranchTarget, Operand};

#[test]
fn it_assembles_single_nop() {
    let mut a = Assembler::new();
    assert_eq!(a.nop().assemble().unwrap(), vec![0xEA]);
}

#[test]
fn it_assembles_tiny_program_with_absolute_operand() {
    let mut a = Assembler::new();
    a.nop().nop().jmp(Operand::Abs(Addr::Literal(0x1234)));
    println!("{}", a.listing().unwrap());
    assert_eq!(a.assemble().unwrap(), vec![0xEA, 0xEA, 0x4C, 0x34, 0x12]);
}

#[test]
fn it_assembles_labels() {
    let mut a = Assembler::new();
    a.org(0x1000)
        .label("foo")
        .jmp(Operand::Abs(label("bar")))
        .label("bar")
        .jmp(Operand::Abs(label("foo")));
    println!("{}", a.listing().unwrap());
    assert_eq!(
        a.assemble().unwrap(),
        vec![0x4C, 0x03, 0x10, 0x4C, 0x00, 0x10]
    );
}

#[test]
#[should_panic(expected = "IllegalAddressMode(Jmp, Relative)")]
fn it_errors_on_illegal_address_mode() {
    let mut a = Assembler::new();
    a.jmp(Operand::Rel(BranchTarget::Offset(0)))
        .assemble()
        .unwrap();
}

#[test]
fn it_branches_to_nearby_label() {
    let mut a = Assembler::new();
    a.org(0x1000)
        .label("foo")
        .bcc(Operand::Rel(branch("bar")))
        .nop()
        .label("bar")
        .bcc(Operand::Rel(branch("foo")));
    println!("{}", a.listing().unwrap());
    assert_eq!(a.assemble().unwrap(), vec![0x90, 0x01, 0xEA, 0x90, 0xFB]);
}

#[test]
#[should_panic(expected = "RelativeAddressOutOfRange(-131)")]
fn it_cannot_branch_to_distant_label() {
    let mut a = Assembler::new();
    a.org(0x2000).label("start");
    for _ in 0..43 {
        a.jmp(Operand::Abs(val(0x0000))); // 129 bytes of program
    }
    a.bcc(Operand::Rel(branch("start")));
    a.assemble().unwrap();
}

#[test]
fn it_lists_with_out_of_range_label() {
    let mut a = Assembler::new();
    a.org(0x2000).label("start");
    for _ in 0..43 {
        a.jmp(Operand::Abs(val(0x0000))); // 129 bytes of program
    }
    a.bcc(Operand::Rel(branch("start")));
    println!("{}", a.listing().unwrap());
}
