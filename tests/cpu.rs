use pda6502v2emu::assembler::BranchTarget;
use pda6502v2emu::assembler::{label, val};
use pda6502v2emu::assembler::{Assembler, Operand};
use pda6502v2emu::assembler::Operand::{Abs, AbsX, AbsY, Imm, IndY, XInd, Z, ZX};
use pda6502v2emu::bus::Bus;
use pda6502v2emu::cpu::stat;
use pda6502v2emu::cpu::Cpu;
use pda6502v2emu::cpu::StatusMask;

fn step_and_assert(cpu: &mut Cpu, bus: &mut Bus, reg: fn(&Cpu) -> u8, val: u8, status: &str) {
    cpu.step(bus).unwrap();
    assert_eq!(reg(cpu), val, "{:#04X} != {:#04X}", reg(cpu), val);
    assert_eq!(stat(&cpu.p), status);
}

fn step_and_assert_pc(cpu: &mut Cpu, bus: &mut Bus, val: u16, status: &str) {
    cpu.step(bus).unwrap();
    assert_eq!(cpu.pc, val, "{:#06X} != {:#06X}", cpu.pc, val);
    assert_eq!(stat(&cpu.p), status);
}

fn step_and_assert_mem(cpu: &mut Cpu, bus: &mut Bus, addr: u16, val: u8, status: &str) {
    cpu.step(bus).unwrap();
    assert_eq!(bus.read(addr), val, "{:#04X} != {:#04X}", bus.read(addr), val);
    assert_eq!(stat(&cpu.p), status);
}

#[test]
fn test_adc() {
    let bus = &mut Bus::new();
    let mut cpu = Cpu::new();
    cpu.a = 0x10; // starting value
    cpu.x = 0x21; // for testing X-indexed address modes
    cpu.y = 0x46; // for testing Y-indexed address modes
    bus.write(0x00F0, 0xEF); // for testing zero-page address mode
    bus.write(0x00F1, 0x70); // for testing zp,X address mode
    bus.write(0x00F2, 0x37); // for testing X,ind address mode (ptr LO)
    bus.write(0x00F3, 0x12); // for testing X,ind address mode (ptr HI)
    bus.write(0x00F4, 0xF2); // for testing ind,Y address mode (ptr LO)
    bus.write(0x00F5, 0x11); // for testing ind,Y address mode (ptr HI)
    bus.write(0x1234, 0x84); // for testing absolute address mode
    bus.write(0x1235, 0xFA); // for testing abs,X address mode
    bus.write(0x1236, 0x00); // for testing abs,X address mode
    bus.write(0x1237, 0x42); // for testing X,ind address mode (val)
    bus.write(0x1238, 0xBC); // for testing ind,Y address mode (val)
    let mut a = Assembler::new();
    bus.load(
        cpu.pc,
        a.adc(Imm(0x11)) //          C:0+A:$10+#$11                            =$21+C:0
            .adc(Z(0xF0)) //           C:0+A:$21+[$F0→#$EF]                      =$10+C:1
            .adc(ZX(0xD0)) //          C:1+A:$10+[$D0+X:$21→$F1→#$70]            =$81+C:0(V)
            .adc(Abs(val(0x1234))) //  C:0+A:$81+[$1234→#$84]                    =$05+C:1(V)
            .adc(AbsX(val(0x1214))) // C:1+A:$05+[$1214+X:$21→$1235→#$FA]        =$00+C:1
            .adc(AbsY(val(0x12F0))) // C:1+A:$00+[$12F0+Y:$46→$1236→#$00]        =$01+C:0
            .adc(XInd(0xD1)) //        C:0+A:$01+[($D1+X:$21)→($F2)→$1237→#$42]  =$43+C:0
            .adc(IndY(0xF4)) //        C:0+A:$43+[($F4)+Y→$11F2+Y:$46→$1238→#$BC]=$FF+C:0
            .assemble()
            .unwrap(),
    );

    step_and_assert(&mut cpu, bus, |c: &Cpu| c.a, 0x21, "nv-bdizc"); // ADC #$11
    step_and_assert(&mut cpu, bus, |c: &Cpu| c.a, 0x10, "nv-bdizC"); // ADC $F0
    step_and_assert(&mut cpu, bus, |c: &Cpu| c.a, 0x81, "NV-bdizc"); // ADC $D0,X
    step_and_assert(&mut cpu, bus, |c: &Cpu| c.a, 0x05, "nV-bdizC"); // ADC $1234
    step_and_assert(&mut cpu, bus, |c: &Cpu| c.a, 0x00, "nv-bdiZC"); // ADC $1214,X
    step_and_assert(&mut cpu, bus, |c: &Cpu| c.a, 0x01, "nv-bdizc"); // ADC $12F0,Y
    step_and_assert(&mut cpu, bus, |c: &Cpu| c.a, 0x43, "nv-bdizc"); // ADC ($D1,X)
    step_and_assert(&mut cpu, bus, |c: &Cpu| c.a, 0xFF, "Nv-bdizc"); // ADC ($F4),Y
}

#[test]
fn test_and() {
    let bus = &mut Bus::new();
    let mut cpu = Cpu::new();
    cpu.a = 0b10011001; // starting value

    let mut a = Assembler::new();
    bus.load(
        cpu.pc,
        a.and(Imm(0b11110000)).assemble().unwrap(),
    );

    step_and_assert(&mut cpu, bus, |c: &Cpu| c.a, 0b10010000, "Nv-bdizc"); // ADC #$A0
}

#[test]
fn test_asl() {
    let bus = &mut Bus::new();
    let mut cpu = Cpu::new();
    cpu.a = 0b01000000; // for testing Accumulator address mode
    cpu.x = 0x01; // for testing zp,X address mode
    bus.write(0xF1, 0b11011011); // for testing zp,X address mode

    let mut a = Assembler::new();
    bus.load(
        cpu.pc,
        a.asl(Operand::A)
            .asl(Operand::A)
            .asl(Operand::ZX(0xF0))
            .assemble()
            .unwrap(),
    );

    cpu.set_p_bit(StatusMask::Carry, true);
    step_and_assert(&mut cpu, bus, |c: &Cpu| c.a, 0b10000000, "Nv-bdizc"); // ASL A

    cpu.set_p_bit(StatusMask::Carry, true);
    step_and_assert(&mut cpu, bus, |c: &Cpu| c.a, 0b00000000, "nv-bdiZC"); // ASL A

    cpu.step(bus).unwrap(); // ASL $F0,X
    let val = bus.read(0xF1);
    assert_eq!(val, 0b10110110);
    assert_eq!(stat(&cpu.p), "Nv-bdizC");
}

#[test]
fn test_bcc() {
    let bus = &mut Bus::new();
    let mut cpu = Cpu::new();

    let mut a = Assembler::new();
    bus.load(
        cpu.pc,
        a.bcc(Operand::Rel(BranchTarget::Offset(0x10)))
            .bcc(Operand::Rel(BranchTarget::Offset(0x20)))
            .assemble()
            .unwrap(),
    );

    cpu.set_p_bit(StatusMask::Carry, true);
    cpu.step(bus).unwrap(); // BCC 0x10 (don't branch)
    assert_eq!(cpu.pc, 0x0002);
    assert_eq!(stat(&cpu.p), "nv-bdizC");

    cpu.set_p_bit(StatusMask::Carry, false);
    cpu.step(bus).unwrap(); // BCC 0x20 (do branch)
    assert_eq!(cpu.pc, 0x0024);
    assert_eq!(stat(&cpu.p), "nv-bdizc");
}

#[test]
fn test_bcs() {
    let bus = &mut Bus::new();
    let mut cpu = Cpu::new();
    let mut a = Assembler::new();
    bus.load(
        cpu.pc,
        a.bcs(Operand::Rel(BranchTarget::Offset(0x10)))
            .bcs(Operand::Rel(BranchTarget::Offset(0x20)))
            .assemble()
            .unwrap(),
    );

    cpu.set_p_bit(StatusMask::Carry, false);
    cpu.step(bus).unwrap(); // BCS 0x10 (don't branch)
    assert_eq!(cpu.pc, 0x0002);
    assert_eq!(stat(&cpu.p), "nv-bdizc");

    cpu.set_p_bit(StatusMask::Carry, true);
    cpu.step(bus).unwrap(); // BCS 0x20 (do branch)
    assert_eq!(cpu.pc, 0x0024);
    assert_eq!(stat(&cpu.p), "nv-bdizC");
}

#[test]
fn test_beq() {
    let bus = &mut Bus::new();
    let mut cpu = Cpu::new();
    let mut a = Assembler::new();
    bus.load(
        cpu.pc,
        a.beq(Operand::Rel(BranchTarget::Offset(0x10)))
            .beq(Operand::Rel(BranchTarget::Offset(0x20)))
            .assemble()
            .unwrap(),
    );

    cpu.set_p_bit(StatusMask::Zero, false);
    cpu.step(bus).unwrap(); // BEQ 0x10 (don't branch)
    assert_eq!(cpu.pc, 0x0002);
    assert_eq!(stat(&cpu.p), "nv-bdizc");

    cpu.set_p_bit(StatusMask::Zero, true);
    cpu.step(bus).unwrap(); // BEQ 0x20 (do branch)
    assert_eq!(cpu.pc, 0x0024);
    assert_eq!(stat(&cpu.p), "nv-bdiZc");
}

#[test]
fn test_bit() {
    let bus = &mut Bus::new();
    let mut cpu = Cpu::new();
    let mut a = Assembler::new();
    bus.load(
        cpu.pc,
        a.org(cpu.pc)
            .label("data")
            .data(vec![0xFF, 0x00])
            .label("prog")
            .bit(Operand::Z(cpu.pc.try_into().unwrap()))
            .bit(Operand::Abs(val(cpu.pc)))
            .assemble()
            .unwrap(),
    );
    cpu.pc += 2; // skip the data

    cpu.a = 0xFF;
    cpu.step(bus).unwrap(); // BIT $00 (#$FF)
    assert_eq!(cpu.pc, 0x0004);
    assert_eq!(stat(&cpu.p), "NV-bdizc"); // 0b11111111 AND 0b11111111 = 0b11111111 = z

    cpu.a = 0x00;
    cpu.step(bus).unwrap(); // BIT $0001 (#$00)
    assert_eq!(cpu.pc, 0x0007);
    assert_eq!(stat(&cpu.p), "nv-bdiZc"); // 0b00000000 AND 0b00000000 = 0b00000000 = Z
}

#[test]
fn test_bmi() {
    let bus = &mut Bus::new();
    let mut cpu = Cpu::new();
    let mut a = Assembler::new();
    bus.load(
        cpu.pc,
        a.ldx(Operand::Imm(0xFF)) // P N=1
            .label("a")
            .bmi(Operand::Rel(BranchTarget::Label("b".to_string())))
            .nop()
            .label("b")
            .ldx(Operand::Imm(0x10)) // P N=0
            .bmi(Operand::Rel(BranchTarget::Label("a".to_string())))
            .nop()
            .assemble()
            .unwrap(),
    );

    cpu.step(bus).unwrap(); // LDX #$FF
    cpu.step(bus).unwrap(); // BMI b
    assert_eq!(cpu.pc, 0x0005);
    cpu.step(bus).unwrap(); // LDX #$10
    cpu.step(bus).unwrap(); // BMI a
    assert_eq!(cpu.pc, 0x0009);
}

#[test]
fn test_bne() {
    let bus = &mut Bus::new();
    let mut cpu = Cpu::new();
    let mut a = Assembler::new();
    bus.load(
        cpu.pc,
        a.label("a")
            .ldx(Operand::Imm(0x01))
            .bne(Operand::Rel(BranchTarget::Label("b".to_string())))
            .nop()
            .label("b")
            .ldx(Operand::Imm(0x00))
            .bne(Operand::Rel(BranchTarget::Label("a".to_string())))
            .nop()
            .assemble()
            .unwrap(),
    );

    cpu.step(bus).unwrap(); // LDX #$01
    cpu.step(bus).unwrap(); // BNE b
    assert_eq!(cpu.pc, 0x0005);

    cpu.step(bus).unwrap(); // LDX #$00
    cpu.step(bus).unwrap(); // BNE a
    assert_eq!(cpu.pc, 0x0009);
}

#[test]
fn test_bpl() {
    let bus = &mut Bus::new();
    let mut cpu = Cpu::new();
    let mut a = Assembler::new();
    bus.load(
        cpu.pc,
        a.label("a")
            .ldx(Operand::Imm(0x10)) // P N=0
            .bpl(Operand::Rel(BranchTarget::Label("b".to_string())))
            .nop()
            .label("b")
            .ldx(Operand::Imm(0xF0)) // P N=1
            .bpl(Operand::Rel(BranchTarget::Label("a".to_string())))
            .nop()
            .assemble()
            .unwrap(),
    );

    cpu.step(bus).unwrap(); // LDX #$10
    cpu.step(bus).unwrap(); // BPL b
    assert_eq!(cpu.pc, 0x0005);
    cpu.step(bus).unwrap(); // LDX #$F0
    cpu.step(bus).unwrap(); // BPL a
    assert_eq!(cpu.pc, 0x0009);
}

#[test]
fn test_brk_rti() {
    let bus = &mut Bus::new();
    let mut cpu = Cpu::new();
    let mut a = Assembler::new();
    let mut airq = Assembler::new();

    cpu.pc = 0x1000;

    bus.load(
        cpu.pc,
        a.org(cpu.pc)
            .brk()
            .data(vec![0xAA]) // “break mark: identify reason for break”
            .nop()
            .label("data")
            .assemble()
            .unwrap(),
    );

    // set the interrupt vector to 0x2000 which is the "irq" label
    bus.write(0xFFFE, 0x00); // IRQ vector (lo)
    bus.write(0xFFFF, 0x20); // IRQ vector (hi)

    bus.load(
        0x2000,
        airq
            .org(0x2000)
            .label("irq")
            .rti()
            .assemble()
            .unwrap(),
    );

    cpu.s = 0xF8;

    assert_eq!(stat(&cpu.p), "nv-bdizc");

    step_and_assert(&mut cpu, bus, |c: &Cpu| c.s, 0xF5, "nv-bdIzc"); // BRK
    assert_eq!(cpu.pc, 0x2000);
    assert_eq!(bus.read(0x01F8), 0x10); // S hi
    assert_eq!(bus.read(0x01F7), 0x02); // S lo
    assert_eq!(stat(&bus.read(0x01F6)), "nv-Bdizc");

    step_and_assert(&mut cpu, bus, |c: &Cpu| c.s, 0xF8, "nv-bdizc"); // RTI
    assert_eq!(cpu.pc, 0x1002);
}

#[test]
fn test_bvc() {
    let bus = &mut Bus::new();
    let mut cpu = Cpu::new();

    let mut a = Assembler::new();
    bus.load(
        cpu.pc,
        a.bvc(Operand::Rel(BranchTarget::Offset(0x10)))
            .bvc(Operand::Rel(BranchTarget::Offset(0x20)))
            .assemble()
            .unwrap(),
    );

    cpu.set_p_bit(StatusMask::Overflow, true);
    cpu.step(bus).unwrap(); // BVC 0x10 (don't branch)
    assert_eq!(cpu.pc, 0x0002);
    assert_eq!(stat(&cpu.p), "nV-bdizc");

    cpu.set_p_bit(StatusMask::Overflow, false);
    cpu.step(bus).unwrap(); // BVC 0x20 (do branch)
    assert_eq!(cpu.pc, 0x0024);
    assert_eq!(stat(&cpu.p), "nv-bdizc");
}

#[test]
fn test_bvs() {
    let bus = &mut Bus::new();
    let mut cpu = Cpu::new();

    let mut a = Assembler::new();
    bus.load(
        cpu.pc,
        a.bvs(Operand::Rel(BranchTarget::Offset(0x10)))
            .bvs(Operand::Rel(BranchTarget::Offset(0x20)))
            .assemble()
            .unwrap(),
    );

    cpu.set_p_bit(StatusMask::Overflow, false);
    cpu.step(bus).unwrap(); // BVS 0x10 (don't branch)
    assert_eq!(cpu.pc, 0x0002);
    assert_eq!(stat(&cpu.p), "nv-bdizc");

    cpu.set_p_bit(StatusMask::Overflow, true);
    cpu.step(bus).unwrap(); // BVS 0x20 (do branch)
    assert_eq!(cpu.pc, 0x0024);
    assert_eq!(stat(&cpu.p), "nV-bdizc");
}

#[test]
fn test_cmp() {
    let bus = &mut Bus::new();
    let mut cpu = Cpu::new();
    cpu.pc = 0x0200;
    cpu.a = 0xC0;
    cpu.x = 0x03;
    let mut a = Assembler::new();
    bus.load(
        cpu.pc,
        a.org(cpu.pc)
            .label("prog")
            .cmp(Operand::Abs(label("data")))
            .cmp(Operand::AbsX(label("data")))
            .label("data")
            .data(vec![0xAA, 0xBB, 0xCC, 0xDD])
            .assemble()
            .unwrap(),
    );

    cpu.step(bus).unwrap(); // CMP data
    assert_eq!(cpu.pc, 0x0203);
    assert_eq!(stat(&cpu.p), "nv-bdizC");
    cpu.step(bus).unwrap(); // CMP data,X
    assert_eq!(cpu.pc, 0x0206);
    assert_eq!(stat(&cpu.p), "Nv-bdizc");
}

#[test]
fn test_cpx_and_cpy() {
    let bus = &mut Bus::new();
    let mut cpu = Cpu::new();
    cpu.pc = 0x0200;
    cpu.x = 0x04;
    cpu.y = 0x04;
    let mut a = Assembler::new();
    bus.load(
        cpu.pc,
        a.org(cpu.pc)
            .label("prog")
            .cpx(Operand::Imm(0x04))
            .cpy(Operand::Imm(0x08))
            .assemble()
            .unwrap(),
    );

    // Carry is set exactly when the register is at least the operand.
    cpu.step(bus).unwrap(); // CPX #$04
    assert_eq!(cpu.pc, 0x0202);
    assert_eq!(stat(&cpu.p), "nv-bdiZC");
    cpu.step(bus).unwrap(); // CPY #$08
    assert_eq!(cpu.pc, 0x0204);
    assert_eq!(stat(&cpu.p), "Nv-bdizc");
}

#[test]
fn test_dec() {
    let bus = &mut Bus::new();
    let mut cpu = Cpu::new();
    cpu.pc = 0x1000;
    cpu.x = 0x10;
    bus.write(0x0010, 100);
    bus.write(0x0020, 200);
    bus.write(0x2000, 1);
    bus.write(0x2010, 200);
    let mut a = Assembler::new();
    bus.load(
        cpu.pc,
        a.org(cpu.pc)
            .dec(Operand::Z(0x10))
            .dec(Operand::ZX(0x10))
            .dec(Operand::Abs(val(0x2000)))
            .dec(Operand::AbsX(val(0x2000)))
            .assemble()
            .unwrap(),
    );

    cpu.step(bus).unwrap(); // DEC 0x10
    assert_eq!(cpu.pc, 0x1002);
    assert_eq!(stat(&cpu.p), "nv-bdizc");
    assert_eq!(bus.read(0x0010), 99);

    cpu.step(bus).unwrap(); // DEC 0x10,X where X=10
    assert_eq!(cpu.pc, 0x1004);
    assert_eq!(stat(&cpu.p), "Nv-bdizc");
    assert_eq!(bus.read(0x0020), 199);

    cpu.step(bus).unwrap(); // DEC 0x2000
    assert_eq!(cpu.pc, 0x1007);
    assert_eq!(stat(&cpu.p), "nv-bdiZc");
    assert_eq!(bus.read(0x2000), 0);

    cpu.step(bus).unwrap(); // DEC 0x2000,X where X=10
    assert_eq!(cpu.pc, 0x100A);
    assert_eq!(stat(&cpu.p), "Nv-bdizc");
    assert_eq!(bus.read(0x2010), 199);
}

#[test]
fn test_dex_and_dey() {
    let bus = &mut Bus::new();
    let mut cpu = Cpu::new();
    let mut a = Assembler::new();
    cpu.pc = 0x2000;
    cpu.x = 1;
    cpu.y = 1;
    bus.load(
        cpu.pc,
        a.dex()
            .dex()
            .dey()
            .dey()
            .assemble()
            .unwrap(),
    );

    cpu.step(bus).unwrap(); // DEX
    assert_eq!(cpu.pc, 0x2001);
    assert_eq!(cpu.x, 0x00);
    assert_eq!(stat(&cpu.p), "nv-bdiZc");

    cpu.step(bus).unwrap(); // DEX
    assert_eq!(cpu.pc, 0x2002);
    assert_eq!(cpu.x, 0xFF);
    assert_eq!(stat(&cpu.p), "Nv-bdizc");

    cpu.step(bus).unwrap(); // DEY
    assert_eq!(cpu.pc, 0x2003);
    assert_eq!(cpu.y, 0x00);
    assert_eq!(stat(&cpu.p), "nv-bdiZc");

    cpu.step(bus).unwrap(); // DEY
    assert_eq!(cpu.pc, 0x2004);
    assert_eq!(cpu.y, 0xFF);
    assert_eq!(stat(&cpu.p), "Nv-bdizc");
}

#[test]
fn test_eor() {
    let bus = &mut Bus::new();
    let mut cpu = Cpu::new();
    let mut a = Assembler::new();
    cpu.pc = 0x1000;

    //     00000000      [0]
    // EOR 00000001      [1]
    //   = 00000001      [1a]
    // EOR 11111111      [2]
    //   = 11111110 (N)  [2a]
    // EOR 10101010      [3]
    //   = 01010100      [3a]
    // EOR 01010100      [4]
    //   = 00000000 (Z)  [4a]
    // EOR 11110000      [5]
    //   = 11110000 (N)  [5a]
    // EOR 00001111      [6]
    //   = 11111111 (N)  [6a]
    // EOR 00111100      [7]
    //   = 11000011 (N)  [7a]
    // EOR 11000011      [8]
    //   = 00000000 (Z)  [8a]

    cpu.a = 0b00000000; // [0]
    cpu.x = 0x02; // [3, 5, 7]
    cpu.y = 0x04; // [6, 8]
    bus.write(0x0010, 0b11111111); // [2]
    bus.write(0x12, 0b10101010); // [3]
    bus.write(0x22, 0x80); // [7] ptr LL
    bus.write(0x23, 0x20); // [7] ptr HH
    bus.write(0x2080, 0b00111100); // [7]
    bus.write(0x20, 0x81); // [8] ptr LL
    bus.write(0x21, 0x20); // [8] ptr HH
    bus.write(0x2085, 0b11000011); // [8]

    bus.load(
        cpu.pc,
        a.org(cpu.pc)
            .eor(Operand::Imm(0x01)) // [1]
            .eor(Operand::Z(0x10)) // [2]
            .eor(Operand::ZX(0x10)) // [3]
            .eor(Operand::Abs(label("data"))) // [4]
            .eor(Operand::AbsX(label("data"))) // [5]
            .eor(Operand::AbsY(label("data"))) // [6]
            .eor(Operand::XInd(0x20)) // [7]
            .eor(Operand::IndY(0x20)) // [8]
            .label("data")
            .data(vec![0b01010100, 0, 0b11110000, 0, 0b00001111]) // [4], [5], [6]
            .assemble()
            .unwrap(),
    );

    cpu.step(bus).unwrap(); // EOR immediate
    assert_eq!(cpu.a, 0b00000001); // [1a]
    assert_eq!(stat(&cpu.p), "nv-bdizc");

    cpu.step(bus).unwrap(); // EOR zeropage
    assert_eq!(cpu.a, 0b11111110); // [2a]
    assert_eq!(stat(&cpu.p), "Nv-bdizc");

    cpu.step(bus).unwrap(); // EOR zeropage,X
    assert_eq!(cpu.a, 0b01010100); // [3a]
    assert_eq!(stat(&cpu.p), "nv-bdizc");

    cpu.step(bus).unwrap(); // EOR absolute
    assert_eq!(cpu.a, 0b00000000); // [4a]
    assert_eq!(stat(&cpu.p), "nv-bdiZc");

    cpu.step(bus).unwrap(); // EOR absolute,X
    assert_eq!(cpu.a, 0b11110000); // [5a]
    assert_eq!(stat(&cpu.p), "Nv-bdizc");

    cpu.step(bus).unwrap(); // EOR absolute,Y
    assert_eq!(cpu.a, 0b11111111); // [6a]
    assert_eq!(stat(&cpu.p), "Nv-bdizc");

    cpu.step(bus).unwrap(); // EOR (indirect,X)
    assert_eq!(cpu.a, 0b11000011); // [7a]
    assert_eq!(stat(&cpu.p), "Nv-bdizc");

    cpu.step(bus).unwrap(); // EOR (indirect),Y
    assert_eq!(cpu.a, 0b00000000); // [8a]
    assert_eq!(stat(&cpu.p), "nv-bdiZc");
}

#[test]
fn test_inc() {
    let bus = &mut Bus::new();
    let mut cpu = Cpu::new();
    let mut a = Assembler::new();
    cpu.x = 0x10;
    bus.write(0x0040, 0x00);
    bus.write(0x0050, 0xFF);
    bus.write(0x8000, 0x7F);
    bus.write(0x8010, 0x80);
    bus.load(
        cpu.pc,
        a.inc(Operand::Z(0x40))
            .inc(Operand::ZX(0x40))
            .inc(Operand::Abs(val(0x8000)))
            .inc(Operand::AbsX(val(0x8000)))
            .assemble()
            .unwrap(),
    );

    cpu.step(bus).unwrap(); // INC zeropage
    assert_eq!(bus.read(0x0040), 0x01);
    assert_eq!(stat(&cpu.p), "nv-bdizc");

    cpu.step(bus).unwrap(); // INC zeropage,X
    assert_eq!(bus.read(0x0050), 0x00);
    assert_eq!(stat(&cpu.p), "nv-bdiZc");

    cpu.step(bus).unwrap(); // INC absolute
    assert_eq!(bus.read(0x8000), 0x80);
    assert_eq!(stat(&cpu.p), "Nv-bdizc");

    cpu.step(bus).unwrap(); // INC absolute,X
    assert_eq!(bus.read(0x8010), 0x81);
    assert_eq!(stat(&cpu.p), "Nv-bdizc");
}

#[test]
fn test_inx_and_iny() {
    let bus = &mut Bus::new();
    let mut cpu = Cpu::new();
    let mut a = Assembler::new();
    cpu.x = 0xFE;
    cpu.y = 0xFE;
    bus.load(
        cpu.pc,
        a.inx()
            .inx()
            .iny()
            .iny()
            .assemble()
            .unwrap(),
    );

    cpu.step(bus).unwrap(); // INX
    assert_eq!(cpu.x, 0xFF);
    assert_eq!(stat(&cpu.p), "Nv-bdizc");

    cpu.step(bus).unwrap(); // INX
    assert_eq!(cpu.x, 0x00);
    assert_eq!(stat(&cpu.p), "nv-bdiZc");

    cpu.step(bus).unwrap(); // INY
    assert_eq!(cpu.y, 0xFF);
    assert_eq!(stat(&cpu.p), "Nv-bdizc");

    cpu.step(bus).unwrap(); // INY
    assert_eq!(cpu.y, 0x00);
    assert_eq!(stat(&cpu.p), "nv-bdiZc");
}

#[test]
fn test_jmp() {
    let bus = &mut Bus::new();
    let mut cpu = Cpu::new();
    bus.write(0xFFFC, 0x00);
    bus.write(0xFFFD, 0x80);
    cpu.reset(bus); // reset vector 0x8000

    let mut a = Assembler::new();
    bus.load(
        cpu.pc,
        a.org(cpu.pc)
            .jmp(Operand::Abs(label("testlabel")))
            .nop()
            .label("testlabel")
            .jmp(Operand::Ind(val(0xFFFC))) // back to start via reset vector
            .assemble()
            .unwrap(),
    );

    cpu.step(bus).unwrap(); // JMP testlabel
    assert_eq!(cpu.pc, 0x8004);
    assert_eq!(stat(&cpu.p), "nv-BdIzc"); // unchanged

    cpu.p = !cpu.p;
    cpu.step(bus).unwrap(); // JMP ($FFFC)
    assert_eq!(cpu.pc, 0x8000);
    assert_eq!(stat(&cpu.p), "NV-bDiZC"); // unchanged
}

#[test]
fn test_jsr_and_rts() {
    let bus = &mut Bus::new();
    let mut cpu = Cpu::new();
    let mut a = Assembler::new();
    cpu.pc = 0x4000;
    cpu.s = 0xFF;
    bus.load(
        cpu.pc,
        a.org(cpu.pc)
            .jsr(Operand::Abs(label("first")))
            .data("something in the way".into())
            .label("first")
            .jsr(Operand::Abs(label("second")))
            .rts()
            .label("second")
            .rts()
            .assemble()
            .unwrap(),
    );
    cpu.step(bus).unwrap(); // JP first
    assert_eq!(cpu.pc, 0x4017);
    assert_eq!(cpu.s, 0xFD);
    assert_eq!(bus.read(0x01FF), 0x40); // HH
    // The pushed return address is that of the last byte of the JSR instruction.
    assert_eq!(bus.read(0x01FE), 0x02); // LL
    cpu.step(bus).unwrap(); // JP second
    assert_eq!(cpu.pc, 0x401B);
    assert_eq!(cpu.s, 0xFB);
    assert_eq!(bus.read(0x01FD), 0x40); // HH
    assert_eq!(bus.read(0x01FC), 0x19); // LL
    cpu.step(bus).unwrap(); // RTS (from second)
    assert_eq!(cpu.pc, 0x401A);
    assert_eq!(cpu.s, 0xFD);
    cpu.step(bus).unwrap(); // RTS (from first)
    assert_eq!(cpu.pc, 0x4003);
    assert_eq!(cpu.s, 0xFF);
}

#[test]
fn test_lda() {
    let bus = &mut Bus::new();
    let mut cpu = Cpu::new();
    let mut a = Assembler::new();
    cpu.pc = 0x1000;
    bus.load(
        cpu.pc,
        a.org(cpu.pc)
            .lda(Operand::Imm(0x00)) // 0x00
            .lda(Operand::Z(0xB0)) // 0x22
            .lda(Operand::ZX(0xB0)) // 0x44
            .lda(Operand::Abs(label("data"))) // 0x66
            .lda(Operand::AbsX(label("data"))) // 0x88
            .lda(Operand::AbsY(label("data"))) // 0xAA
            .lda(Operand::XInd(0xC0)) // 0xCC
            .lda(Operand::IndY(0xC0)) // 0xEE
            .label("data")
            .data(vec![0x66, 0, 0, 0, 0x88, 0xAA])
            .assemble()
            .unwrap(),
    );

    cpu.x = 0x04;
    cpu.y = 0x05;
    bus.write(0x00B0, 0x22);
    bus.write(0x00B4, 0x44);

    // (indirect,X): operand 0xC0 + x=0x04 = (0xC4) -> 0x00C6 = 0xCC
    bus.write(0x00C4, 0xC6); // LL
    bus.write(0x00C5, 0x00); // HH
    bus.write(0x00C6, 0xCC);

    // (indirect),Y: operand 0xC0 -> 0x00BD + y=0x05 = 0x00C2 = 0xEE
    bus.write(0x00C0, 0xBD); // LL
    bus.write(0x00C1, 0x00); // HH
    bus.write(0x00C2, 0xEE);

    step_and_assert(&mut cpu, bus, |c: &Cpu| c.a, 0x00, "nv-bdiZc");
    step_and_assert(&mut cpu, bus, |c: &Cpu| c.a, 0x22, "nv-bdizc");
    step_and_assert(&mut cpu, bus, |c: &Cpu| c.a, 0x44, "nv-bdizc");
    step_and_assert(&mut cpu, bus, |c: &Cpu| c.a, 0x66, "nv-bdizc");
    step_and_assert(&mut cpu, bus, |c: &Cpu| c.a, 0x88, "Nv-bdizc");
    step_and_assert(&mut cpu, bus, |c: &Cpu| c.a, 0xAA, "Nv-bdizc");
    step_and_assert(&mut cpu, bus, |c: &Cpu| c.a, 0xCC, "Nv-bdizc");
    step_and_assert(&mut cpu, bus, |c: &Cpu| c.a, 0xEE, "Nv-bdizc");
}

#[test]
fn test_ldx() {
    let bus = &mut Bus::new();
    let mut cpu = Cpu::new();
    cpu.y = 0x02; // for testing AddressMode::ZeropageY & AddressMode::AbsoluteY
    bus.write(0x01FF, 0x11); // for testing AddressMode::Absolute
    bus.write(0x0201, 0x22); // for testing AddressMode::AbsoluteY

    let mut a = Assembler::new();
    bus.load(
        cpu.pc,
        a.ldx(Operand::Imm(0xAA))
            .ldx(Operand::Imm(0x00))
            .ldx(Operand::Z(0x04))
            .ldx(Operand::ZY(0x04))
            .ldx(Operand::Abs(val(0x01FF)))
            .ldx(Operand::AbsY(val(0x01FF)))
            .assemble()
            .unwrap(),
    );

    step_and_assert(&mut cpu, bus, |c: &Cpu| c.x, 0xAA, "Nv-bdizc"); // LDX #$AA
    step_and_assert(&mut cpu, bus, |c: &Cpu| c.x, 0x00, "nv-bdiZc"); // LDX #$00
    step_and_assert(&mut cpu, bus, |c: &Cpu| c.x, 0xA6, "Nv-bdizc"); // LDX $04
    step_and_assert(&mut cpu, bus, |c: &Cpu| c.x, 0xB6, "Nv-bdizc"); // LDX $04,Y
    step_and_assert(&mut cpu, bus, |c: &Cpu| c.x, 0x11, "nv-bdizc"); // LDX $01FF ; Y=2
    step_and_assert(&mut cpu, bus, |c: &Cpu| c.x, 0x22, "nv-bdizc"); // LDX $01FF,Y ; Y=2
}

#[test]
fn test_ldy() {
    let bus = &mut Bus::new();
    let mut cpu = Cpu::new();
    let mut a = Assembler::new();
    cpu.pc = 0x1000;
    bus.load(
        cpu.pc,
        a.org(cpu.pc)
            .ldy(Operand::Imm(0x00)) // 0x00
            .ldy(Operand::Z(0xB0)) // 0x22
            .ldy(Operand::ZX(0xB0)) // 0x44
            .ldy(Operand::Abs(label("data"))) // 0x66
            .ldy(Operand::AbsX(label("data"))) // 0x88
            .label("data")
            .data(vec![0x66, 0, 0, 0, 0x88])
            .assemble()
            .unwrap(),
    );

    cpu.x = 0x04;
    bus.write(0x00B0, 0x22);
    bus.write(0x00B4, 0x44);

    step_and_assert(&mut cpu, bus, |c: &Cpu| c.y, 0x00, "nv-bdiZc");
    step_and_assert(&mut cpu, bus, |c: &Cpu| c.y, 0x22, "nv-bdizc");
    step_and_assert(&mut cpu, bus, |c: &Cpu| c.y, 0x44, "nv-bdizc");
    step_and_assert(&mut cpu, bus, |c: &Cpu| c.y, 0x66, "nv-bdizc");
    step_and_assert(&mut cpu, bus, |c: &Cpu| c.y, 0x88, "Nv-bdizc");
}

#[test]
fn test_lsr() {
    let bus = &mut Bus::new();
    let mut cpu = Cpu::new();
    let mut a = Assembler::new();
    cpu.pc = 0x1000;
    bus.load(
        cpu.pc,
        a.org(cpu.pc)
            .lsr(Operand::A)
            .lsr(Operand::Z(0x00))
            .lsr(Operand::ZX(0x00))
            .lsr(Operand::Abs(val(0x2000)))
            .lsr(Operand::AbsX(val(0x2000)))
            .label("data")
            .data(vec![0b10101010, 0, 0, 0, 0b01010101])
            .assemble()
            .unwrap(),
    );

    cpu.a = 0b11110001;
    cpu.x = 0xAA;
    bus.write(0x0000, 0b11111111);
    bus.write(0x00AA, 0b00000000);
    bus.write(0x2000, 0b10101010);
    bus.write(0x20AA, 0b01010101);

    step_and_assert(&mut cpu, bus, |c: &Cpu| c.a, 0b01111000, "nv-bdizC");
    step_and_assert_mem(&mut cpu, bus, 0x0000, 0b01111111, "nv-bdizC");
    step_and_assert_mem(&mut cpu, bus, 0x00AA, 0b00000000, "nv-bdiZc");
    step_and_assert_mem(&mut cpu, bus, 0x2000, 0b01010101, "nv-bdizc");
    step_and_assert_mem(&mut cpu, bus, 0x20AA, 0b00101010, "nv-bdizC");
}

#[test]
fn test_ora() {
    let bus = &mut Bus::new();
    let mut cpu = Cpu::new();
    let mut a = Assembler::new();
    cpu.pc = 0x1000;
    bus.load(
        cpu.pc,
        a.org(cpu.pc)
            .ora(Operand::Imm(0x00))
            .ora(Operand::Z(0xA0))
            .ora(Operand::ZX(0xA0))
            .ora(Operand::Abs(label("data")))
            .ora(Operand::AbsX(label("data")))
            .ora(Operand::AbsY(label("data")))
            .ora(Operand::XInd(0x00))
            .ora(Operand::IndY(0x00))
            .label("data")
            .data(vec![0b00010000, 0, 0b00111100, 0, 0b10000000])
            .assemble()
            .unwrap(),
    );

    cpu.a = 0b00000000;
    cpu.x = 0x02;
    cpu.y = 0x04;
    bus.write(0x00A0, 0b00000001);
    bus.write(0x00A2, 0b00000100);

    // XInd(0x00+x:0x02)
    bus.write(0x0002, 0x10); // LL
    bus.write(0x0003, 0x32); // HH
    bus.write(0x3210, 0b01000000);

    // IndY(0x00)+y:0x04 = (0x3224)
    bus.write(0x0000, 0x20); // LL
    bus.write(0x0001, 0x32); // HH
    bus.write(0x3224, 0b11111111);

    step_and_assert(&mut cpu, bus, |c: &Cpu| c.a, 0b00000000, "nv-bdiZc");
    step_and_assert(&mut cpu, bus, |c: &Cpu| c.a, 0b00000001, "nv-bdizc");
    step_and_assert(&mut cpu, bus, |c: &Cpu| c.a, 0b00000101, "nv-bdizc");
    step_and_assert(&mut cpu, bus, |c: &Cpu| c.a, 0b00010101, "nv-bdizc");
    step_and_assert(&mut cpu, bus, |c: &Cpu| c.a, 0b00111101, "nv-bdizc");
    step_and_assert(&mut cpu, bus, |c: &Cpu| c.a, 0b10111101, "Nv-bdizc");
    step_and_assert(&mut cpu, bus, |c: &Cpu| c.a, 0b11111101, "Nv-bdizc");
    step_and_assert(&mut cpu, bus, |c: &Cpu| c.a, 0b11111111, "Nv-bdizc");
}

#[test]
fn test_pha_pla() {
    let bus = &mut Bus::new();
    let mut cpu = Cpu::new();
    let mut a = Assembler::new();
    bus.load(0, a.pha().pla().assemble().unwrap());

    cpu.s = 0xA8;
    cpu.a = 0xF0;

    step_and_assert(&mut cpu, bus, |c: &Cpu| c.s, 0xA7, "nv-bdizc"); // PHA
    assert_eq!(bus.read(0x01A8), 0xF0);

    cpu.a = 0xAA;

    step_and_assert(&mut cpu, bus, |c: &Cpu| c.s, 0xA8, "Nv-bdizc"); // PLA
    assert_eq!(cpu.a, 0xF0);
}

#[test]
fn test_php_plp() {
    let bus = &mut Bus::new();
    let mut cpu = Cpu::new();
    let mut a = Assembler::new();
    bus.load(0, a.php().plp().assemble().unwrap());

    cpu.p = 0b00000100;
    cpu.s = 0xA8;

    step_and_assert(&mut cpu, bus, |c: &Cpu| c.s, 0xA7, "nv-bdIzc"); // PHP
    assert_eq!(bus.read(0x01A8), 0b00110100);

    cpu.p = 0b11111111;
    assert_eq!(stat(&cpu.p), "NV-BDIZC");

    step_and_assert(&mut cpu, bus, |c: &Cpu| c.s, 0xA8, "nv-bdIzc"); // PLP
}

#[test]
fn test_rol_ror() {
    let bus = &mut Bus::new();
    let mut cpu = Cpu::new();
    let mut a = Assembler::new();
    cpu.pc = 0x1000;
    bus.load(
        cpu.pc,
        a.rol(Operand::A)
            .rol(Operand::A)
            .rol(Operand::Z(0x80))
            .rol(Operand::ZX(0x80))
            .rol(Operand::Abs(val(0x2000)))
            .rol(Operand::AbsX(val(0x2000)))
            .ror(Operand::AbsX(val(0x2000)))
            .ror(Operand::Abs(val(0x2000)))
            .ror(Operand::ZX(0x80))
            .ror(Operand::Z(0x80))
            .ror(Operand::A)
            .assemble()
            .unwrap(),
    );

    cpu.a = 0b10000000;
    cpu.x = 0x42;
    bus.write(0x0080, 0b11110000);
    bus.write(0x00C2, 0b01010101);
    bus.write(0x2000, 0b11001100);
    bus.write(0x2042, 0b10101010);

    step_and_assert(&mut cpu, bus, |c: &Cpu| c.a, 0b00000000, "nv-bdiZC"); // ROL A
    step_and_assert(&mut cpu, bus, |c: &Cpu| c.a, 0b00000001, "nv-bdizc"); // ROL A
    step_and_assert_mem(&mut cpu, bus, 0x0080, 0b11100000, "Nv-bdizC"); // ROL $80
    step_and_assert_mem(&mut cpu, bus, 0x00C2, 0b10101011, "Nv-bdizc"); // ROL $80,X
    step_and_assert_mem(&mut cpu, bus, 0x2000, 0b10011000, "Nv-bdizC"); // ROL $2000
    step_and_assert_mem(&mut cpu, bus, 0x2042, 0b01010101, "nv-bdizC"); // ROL $2000,X

    step_and_assert_mem(&mut cpu, bus, 0x2042, 0b10101010, "Nv-bdizC"); // ROR $2000,X
    step_and_assert_mem(&mut cpu, bus, 0x2000, 0b11001100, "Nv-bdizc"); // ROR $2000
    step_and_assert_mem(&mut cpu, bus, 0x00C2, 0b01010101, "nv-bdizC"); // ROR $80,X
    step_and_assert_mem(&mut cpu, bus, 0x0080, 0b11110000, "Nv-bdizc"); // ROR $80
    step_and_assert(&mut cpu, bus, |c: &Cpu| c.a, 0b00000000, "nv-bdiZC"); // ROR A
}

#[test]
fn test_sbc() {
    let bus = &mut Bus::new();
    let mut cpu = Cpu::new();
    let mut a = Assembler::new();
    cpu.pc = 0x1000;
    bus.load(
        cpu.pc,
        a.org(cpu.pc)
            .sec()
            .sbc(Operand::Imm(0x10))
            .sbc(Operand::Z(0x00))
            .sbc(Operand::ZX(0x00))
            .sbc(Operand::Abs(val(0x2000)))
            .sbc(Operand::AbsX(val(0x2000)))
            .sbc(Operand::AbsY(val(0x2000)))
            .sbc(Operand::XInd(0x10))
            .sbc(Operand::IndY(0x20))
            .assemble()
            .unwrap(),
    );

    cpu.a = 0x00;
    cpu.x = 0x02;
    cpu.y = 0x04;

    bus.write(0x0000, 0x32);
    bus.write(0x0002, 0x20);
    bus.write(0x2000, 0xFF);
    bus.write(0x2002, 0x1D);
    bus.write(0x2004, 0x01);

    // X=2; ($10,X) -> ($12) -> $3210 -> #$40
    bus.write(0x0012, 0x10); // LL
    bus.write(0x0013, 0x32); // HH
    bus.write(0x3210, 0x40);

    // Y=4; ($20),Y -> $4321,Y -> $4325 -> #$3F
    bus.write(0x0020, 0x21); // LL
    bus.write(0x0021, 0x43); // HH
    bus.write(0x4325, 0x3F);

    step_and_assert(&mut cpu, bus, |c: &Cpu| c.a, 0x00, "nv-bdizC"); // SEC
    step_and_assert(&mut cpu, bus, |c: &Cpu| c.a, 0xF0, "Nv-bdizc"); // SBC #$10     ; 0x00 - 0x10     = 0xF0 (c)
    step_and_assert(&mut cpu, bus, |c: &Cpu| c.a, 0xBD, "Nv-bdizC"); // SBC $00      ; 0xF0 - 0x32 - 1 = 0xBD
    step_and_assert(&mut cpu, bus, |c: &Cpu| c.a, 0x9D, "Nv-bdizC"); // SBC $00,X    ; 0xBD - 0x20     = 0x9D
    step_and_assert(&mut cpu, bus, |c: &Cpu| c.a, 0x9E, "Nv-bdizc"); // SBC $2000    ; 0x9D - 0xFF     = 0x9E (c)
    step_and_assert(&mut cpu, bus, |c: &Cpu| c.a, 0x80, "Nv-bdizC"); // SBC $2000,X  ; 0x9E - 0x1D - 1 = 0x80
    step_and_assert(&mut cpu, bus, |c: &Cpu| c.a, 0x7F, "nV-bdizC"); // SBC $2000,Y  ; 0x80 - 0x01     = 0x7F
    step_and_assert(&mut cpu, bus, |c: &Cpu| c.a, 0x3F, "nv-bdizC"); // SBC ($10,X)  ; 0x7F - 0x40     = 0x3F
    step_and_assert(&mut cpu, bus, |c: &Cpu| c.a, 0x00, "nv-bdiZC"); // SBC ($20),Y  ; 0x3F - 0x3F     = 0x00
}

#[test]
fn test_nop() {
    let bus = &mut Bus::new();
    let mut cpu = Cpu::new();
    let mut a = Assembler::new();
    bus.load(cpu.pc, a.nop().assemble().unwrap());
    cpu.step(bus).unwrap();
    assert_eq!(cpu.pc, 0x0001);
}

#[test]
fn test_set_and_clear_flags() {
    let bus = &mut Bus::new();
    let mut cpu = Cpu::new();
    let mut a = Assembler::new();
    bus.load(
        cpu.pc,
        a.sec()
            .sed()
            .sei()
            .clc()
            .cld()
            .cli()
            .clv()
            .assemble()
            .unwrap(),
    );
    cpu.set_p_bit(StatusMask::Overflow, true);

    assert_eq!(stat(&cpu.p), "nV-bdizc");

    cpu.step(bus).unwrap(); // SEC
    assert_eq!(stat(&cpu.p), "nV-bdizC");
    cpu.step(bus).unwrap(); // SED
    assert_eq!(stat(&cpu.p), "nV-bDizC");
    cpu.step(bus).unwrap(); // SEI
    assert_eq!(stat(&cpu.p), "nV-bDIzC");
    cpu.step(bus).unwrap(); // CLC
    assert_eq!(stat(&cpu.p), "nV-bDIzc");
    cpu.step(bus).unwrap(); // CLD
    assert_eq!(stat(&cpu.p), "nV-bdIzc");
    cpu.step(bus).unwrap(); // CLI
    assert_eq!(stat(&cpu.p), "nV-bdizc");
    cpu.step(bus).unwrap(); // CLV
    assert_eq!(stat(&cpu.p), "nv-bdizc");
}

#[test]
fn test_sta_stx_sty() {
    let bus = &mut Bus::new();
    let mut cpu = Cpu::new();
    let mut a = Assembler::new();
    cpu.pc = 0x4000;
    bus.load(
        cpu.pc,
        a.sta(Operand::Z(0x00))
            .sta(Operand::ZX(0x00))
            .sta(Operand::Abs(val(0x2000)))
            .sta(Operand::AbsX(val(0x2000)))
            .sta(Operand::AbsY(val(0x2000)))
            .sta(Operand::XInd(0x10))
            .sta(Operand::IndY(0x20))
            .stx(Operand::Z(0x30))
            .stx(Operand::ZY(0x30))
            .stx(Operand::Abs(val(0x3000)))
            .sty(Operand::Z(0x40))
            .sty(Operand::ZX(0x40))
            .sty(Operand::Abs(val(0x5000)))
            .assemble()
            .unwrap(),
    );

    cpu.a = 0xAA;
    cpu.x = 0x02;
    cpu.y = 0x04;

    // ($10,X) -> $1234
    bus.write(0x0012, 0x34);
    bus.write(0x0013, 0x12);

    // ($20),Y -> $5678
    bus.write(0x0020, 0x74);
    bus.write(0x0021, 0x56);

    step_and_assert_mem(&mut cpu, bus, 0x0000, 0xAA, "nv-bdizc"); // STA $00
    step_and_assert_mem(&mut cpu, bus, 0x0002, 0xAA, "nv-bdizc"); // STA $00,X
    step_and_assert_mem(&mut cpu, bus, 0x2000, 0xAA, "nv-bdizc"); // STA $2000
    step_and_assert_mem(&mut cpu, bus, 0x2002, 0xAA, "nv-bdizc"); // STA $2000,X
    step_and_assert_mem(&mut cpu, bus, 0x2004, 0xAA, "nv-bdizc"); // STA $2000,Y
    step_and_assert_mem(&mut cpu, bus, 0x1234, 0xAA, "nv-bdizc"); // STA ($10,X)
    step_and_assert_mem(&mut cpu, bus, 0x5678, 0xAA, "nv-bdizc"); // STA ($20),Y

    step_and_assert_mem(&mut cpu, bus, 0x0030, 0x02, "nv-bdizc"); // STX $30
    step_and_assert_mem(&mut cpu, bus, 0x0034, 0x02, "nv-bdizc"); // STX $30,Y
    step_and_assert_mem(&mut cpu, bus, 0x3000, 0x02, "nv-bdizc"); // STX $3000
                                                              //
    step_and_assert_mem(&mut cpu, bus, 0x0040, 0x04, "nv-bdizc"); // STY $40
    step_and_assert_mem(&mut cpu, bus, 0x0042, 0x04, "nv-bdizc"); // STY $40,X
    step_and_assert_mem(&mut cpu, bus, 0x5000, 0x04, "nv-bdizc"); // STY $5000
}

#[test]
fn test_tax_tay_tsx_txa_txs_tya() {
    let bus = &mut Bus::new();
    let mut cpu = Cpu::new();
    let mut a = Assembler::new();
    cpu.pc = 0x4000;
    bus.load(
        cpu.pc,
        a.tax()
            .tay()
            .tsx()
            .txa()
            .txs()
            .tya()
            .assemble()
            .unwrap(),
    );

    cpu.a = 0x00;
    cpu.x = 0x7F;
    cpu.y = 0xBF;
    cpu.s = 0xFF;
    step_and_assert(&mut cpu, bus, |c: &Cpu| c.x, 0x00, "nv-bdiZc"); // TAX
    step_and_assert(&mut cpu, bus, |c: &Cpu| c.y, 0x00, "nv-bdiZc"); // TAY
    step_and_assert(&mut cpu, bus, |c: &Cpu| c.x, 0xFF, "Nv-bdizc"); // TSX
    cpu.a = 0x00;
    cpu.x = 0x7F;
    cpu.y = 0xBF;
    cpu.s = 0xFF;
    step_and_assert(&mut cpu, bus, |c: &Cpu| c.a, 0x7F, "nv-bdizc"); // TXA
    step_and_assert(&mut cpu, bus, |c: &Cpu| c.s, 0x7F, "nv-bdizc"); // TXS
    step_and_assert(&mut cpu, bus, |c: &Cpu| c.a, 0xBF, "Nv-bdizc"); // TYA
}

#[test]
fn test_address_modes_at_page_boundaries() {
    let bus = &mut Bus::new();
    let mut cpu = Cpu::new();
    let mut a = Assembler::new();
    cpu.pc = 0x10FE; // opcode @ $10FE, LL @ 0x10FF, operand:HH @ 0x1100 (next page)
    bus.load(
        cpu.pc,
        a.org(cpu.pc)
            .lda(Operand::Abs(val(0x2000))) // absolute operand crosses page
            .lda(Operand::AbsX(val(0x20FF))) // increment by X crosses page
            .lda(Operand::AbsY(val(0x20FF))) // increment by Y crosses page
            .jmp(Operand::Ind(val(0x30FF))) // indirect pointer crosses page
            .lda(Operand::XInd(0xFD)) // indirect wraps after indexing ZP by X
            .lda(Operand::XInd(0xFF)) // indirect wraps before indexing ZP by X
            .lda(Operand::IndY(0xFF)) // indirect wraps before indexing ptr by Y
            .lda(Operand::ZX(0xFF)) // ZP wraps incrementing by X
            .ldx(Operand::ZY(0xFF)) // ZP wraps incrementing by Y
            .assemble()
            .unwrap(),
    );

    cpu.x = 0x02;
    cpu.y = 0x04;

    bus.write(0x2000, 0x11);
    step_and_assert(&mut cpu, bus, |c: &Cpu| c.a, 0x11, "nv-bdizc"); // LDA $2000

    bus.write(0x2101, 0x22); // $20FF + X
    step_and_assert(&mut cpu, bus, |c: &Cpu| c.a, 0x22, "nv-bdizc"); // LDA $20FF,X
                                                     //
    bus.write(0x2103, 0x33); // $20FF + Y
    step_and_assert(&mut cpu, bus, |c: &Cpu| c.a, 0x33, "nv-bdizc"); // LDA $20FF,Y

    // JMP is the only (non-indexed) indirect addressing instruction,
    // so use that to test a page-crossing indirect pointer.
    bus.write(0x30FF, 0x01); // indirect:LL
    bus.write(0x3100, 0x31); // indirect:HH
    bus.load(
        0x3101,
        Assembler::new()
            .org(0x3101)
            .jmp(Operand::Abs(val(0x110A))) // after the JMP that took us here
            .assemble()
            .unwrap(),
    );
    step_and_assert_pc(&mut cpu, bus, 0x3101, "nv-bdizc"); // JMP ($30FF)
    step_and_assert_pc(&mut cpu, bus, 0x110A, "nv-bdizc"); // JMP $110A (back to where we were)

    // ($FD,X) where X=0x02
    bus.write(0x00FF, 0x21); // LL
    bus.write(0x0000, 0x43); // HH
    bus.write(0x4321, 0x44);
    step_and_assert(&mut cpu, bus, |c: &Cpu| c.a, 0x44, "nv-bdizc"); // LDA ($FF,X)

    // ($FF,X) where X=0x02
    bus.write(0x0001, 0x21); // LL
    bus.write(0x0002, 0x43); // HH
    bus.write(0x4321, 0x55);
    step_and_assert(&mut cpu, bus, |c: &Cpu| c.a, 0x55, "nv-bdizc"); // LDA ($FF,X)

    bus.write(0x00FF, 0x32); // LL
    bus.write(0x0000, 0x54); // HH
    bus.write(0x5436, 0x66); // 0x5432 + Y:4
    step_and_assert(&mut cpu, bus, |c: &Cpu| c.a, 0x66, "nv-bdizc"); // LDA ($FF),Y

    bus.write(0x0001, 0x77);
    step_and_assert(&mut cpu, bus, |c: &Cpu| c.a, 0x77, "nv-bdizc"); // LDA $FF,X

    bus.write(0x0003, 0x88);
    step_and_assert(&mut cpu, bus, |c: &Cpu| c.x, 0x88, "Nv-bdizc"); // LDX $FF,Y
}
