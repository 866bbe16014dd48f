//! The register file of a DUART-like serial peripheral (channel A), without its transport:
//! received bytes are handed in with `receive`, transmitted bytes are taken out with
//! `take_sent`.
use vstd::prelude::*;

verus! {

/// Number of registers that the peripheral occupies on the bus.
pub const SIZE: u8 = 16;

pub const REG_MRA: u8 = 0x0;
pub const REG_SRA: u8 = 0x1;
pub const REG_CRA: u8 = 0x2;
pub const REG_FIFOA: u8 = 0x3;
pub const REG_ISR_IMR: u8 = 0x5;

pub const IRQ_MASK_TXRDYA: u8 = 1;
pub const IRQ_MASK_RXRDYA: u8 = 2;

/// Status register A: receiver ready; transmitter ready and transmitter empty.
pub const SRA_RXRDYA: u8 = 0b0000_0001;
pub const SRA_TX_READY_EMPTY: u8 = 0b0000_1100;

pub struct Uart {
    registers: Vec<u8>,
    enable_tx: bool,
    enable_rx: bool,
    mra: Vec<u8>,
    mrai: usize,
    recv_a: Vec<u8>,
    sent_a: Vec<u8>,
}

impl Uart {
    pub closed spec fn wf(&self) -> bool {
        &&& self.registers@.len() == SIZE
        &&& self.mra@.len() == 3
        &&& self.mrai <= 3
    }

    /// Bytes received and not yet read through the receive FIFO, oldest first.
    pub closed spec fn received(&self) -> Seq<u8> {
        self.recv_a@
    }

    /// Bytes written to the transmit FIFO and not yet taken out, oldest first.
    pub closed spec fn sent(&self) -> Seq<u8> {
        self.sent_a@
    }

    /// The register file as a reader sees it, for the registers that read back what was
    /// last written to them.
    pub closed spec fn register(&self, reg: u8) -> u8 {
        self.registers@[reg as int]
    }

    /// Which mode register of channel A the next write to MRA reaches (3: none).
    pub closed spec fn mode_pointer(&self) -> nat {
        self.mrai as nat
    }

    /// The mode registers of channel A.
    pub closed spec fn mode_registers(&self) -> Seq<u8> {
        self.mra@
    }

    pub closed spec fn tx_enabled(&self) -> bool {
        self.enable_tx
    }

    pub closed spec fn rx_enabled(&self) -> bool {
        self.enable_rx
    }

    /// Transmitter ready with its interrupt unmasked, or a byte received with the receive
    /// interrupt unmasked.
    pub open spec fn is_interrupt_spec(&self) -> bool {
        (self.tx_enabled() && self.register(REG_ISR_IMR) & IRQ_MASK_TXRDYA != 0)
            || (self.rx_enabled() && self.register(REG_ISR_IMR) & IRQ_MASK_RXRDYA != 0
                && self.received().len() > 0)
    }

    /// What a read of register `reg` returns: status register A is computed, the receive
    /// FIFO gives its oldest byte (or 0 when empty), the others their stored value.
    pub open spec fn read_value(&self, reg: u8) -> u8 {
        if reg == REG_SRA {
            if self.received().len() > 0 { 0b1101u8 } else { 0b1100u8 }
        } else if reg == REG_FIFOA {
            if self.received().len() > 0 { self.received()[0] } else { 0 }
        } else {
            self.register(reg)
        }
    }

    /// The received bytes left after a read of register `reg`: a read of the receive FIFO
    /// consumes the oldest one.
    pub open spec fn received_after_read(&self, reg: u8) -> Seq<u8> {
        if reg == REG_FIFOA && self.received().len() > 0 {
            self.received().drop_first()
        } else {
            self.received()
        }
    }

    pub fn new() -> (r: Uart)
        ensures
            r.wf(),
            r.received().len() == 0,
            r.sent().len() == 0,
            !r.tx_enabled(),
            !r.rx_enabled(),
            forall|i: u8| i < SIZE ==> r.register(i) == 0,
    {
        let mut registers: Vec<u8> = Vec::new();
        let mut i: u8 = 0;
        while i < SIZE
            invariant
                i <= SIZE,
                registers@.len() == i,
                forall|j: int| 0 <= j < i ==> registers@[j] == 0,
            decreases SIZE - i,
        {
            registers.push(0);
            i = i + 1;
        }
        let mut mra: Vec<u8> = Vec::new();
        mra.push(0);
        mra.push(0);
        mra.push(0);
        Uart {
            registers,
            enable_tx: false,
            enable_rx: false,
            mra,
            mrai: 0,
            recv_a: Vec::new(),
            sent_a: Vec::new(),
        }
    }

    pub fn reset(&mut self)
        requires
            old(self).wf(),
        ensures
            final(self).wf(),
            !final(self).tx_enabled(),
            !final(self).rx_enabled(),
            final(self).received() == old(self).received(),
            final(self).sent() == old(self).sent(),
            final(self).register(REG_ISR_IMR) == old(self).register(REG_ISR_IMR) | 1,
    {
        let v = self.registers[REG_ISR_IMR as usize] | 1;
        self.registers.set(REG_ISR_IMR as usize, v);
        self.mrai = 1;
        self.enable_tx = false;
        self.enable_rx = false;
    }

    /// Appends bytes that arrived over the transport to the receive FIFO.
    pub fn receive(&mut self, bytes: &[u8])
        requires
            old(self).wf(),
        ensures
            final(self).wf(),
            final(self).received() == old(self).received() + bytes@,
            final(self).sent() == old(self).sent(),
    {
        let mut i: usize = 0;
        while i < bytes.len()
            invariant
                self.wf(),
                i <= bytes@.len(),
                self.received() == old(self).received() + bytes@.subrange(0, i as int),
                self.sent() == old(self).sent(),
            decreases bytes@.len() - i,
        {
            self.recv_a.push(bytes[i]);
            assert(bytes@.subrange(0, i + 1) == bytes@.subrange(0, i as int).push(bytes@[i as int]));
            i += 1;
        }
        assert(bytes@.subrange(0, bytes@.len() as int) == bytes@);
    }

    /// Whether the receive FIFO is empty, so that the transport should be polled.
    pub fn is_receive_empty(&self) -> (r: bool)
        ensures
            r == (self.received().len() == 0),
    {
        self.recv_a.len() == 0
    }

    /// Takes the bytes written to the transmit FIFO, oldest first, for the transport to send.
    pub fn take_sent(&mut self) -> (r: Vec<u8>)
        requires
            old(self).wf(),
        ensures
            final(self).wf(),
            r@ == old(self).sent(),
            final(self).sent().len() == 0,
            final(self).received() == old(self).received(),
    {
        let mut out: Vec<u8> = Vec::new();
        std::mem::swap(&mut out, &mut self.sent_a);
        out
    }

    /// Reads register `reg`: status register A is computed, the receive FIFO pops its oldest
    /// byte (or 0 when empty), the others read back their stored value.
    pub fn read(&mut self, reg: u8) -> (r: u8)
        requires
            old(self).wf(),
            reg < SIZE,
        ensures
            final(self).wf(),
            final(self).sent() == old(self).sent(),
            r == old(self).read_value(reg),
            final(self).received() == old(self).received_after_read(reg),
            forall|i: u8| i < SIZE ==> final(self).register(i) == old(self).register(i),
            final(self).tx_enabled() == old(self).tx_enabled(),
            final(self).rx_enabled() == old(self).rx_enabled(),
    {
        if reg == REG_SRA {
            self.read_sra()
        } else if reg == REG_FIFOA {
            self.read_fifo_a()
        } else {
            self.registers[reg as usize]
        }
    }

    /// Writes `data` to register `reg`, which also stores it in the register file.
    pub fn write(&mut self, reg: u8, data: u8)
        requires
            old(self).wf(),
            reg < SIZE,
        ensures
            final(self).wf(),
            final(self).received() == old(self).received(),
            final(self).register(reg) == data,
            reg == REG_FIFOA ==> final(self).sent() == old(self).sent().push(data),
            reg != REG_FIFOA ==> final(self).sent() == old(self).sent(),
            reg == REG_CRA && data & 0b0100 != 0 ==> final(self).tx_enabled(),
            reg == REG_CRA && data & 0b0001 != 0 ==> final(self).rx_enabled(),
            reg == REG_CRA ==> final(self).register(REG_SRA) == if data & 0b0100 != 0 {
                old(self).register(REG_SRA) | SRA_TX_READY_EMPTY
            } else {
                old(self).register(REG_SRA)
            },
            reg == REG_CRA ==> final(self).mode_pointer() == if data >> 4 == 0b0001 {
                1
            } else if data >> 4 == 0b1011 {
                0
            } else {
                old(self).mode_pointer()
            },
            reg == REG_MRA && old(self).mode_pointer() < 3 ==> final(self).mode_registers()
                == old(self).mode_registers().update(old(self).mode_pointer() as int, data)
                && final(self).mode_pointer() == old(self).mode_pointer() + 1,
            forall|i: u8| i < SIZE && i != reg && !(reg == REG_CRA && i == REG_SRA) ==> final(self).register(i) == old(self).register(i),
    {
        if reg == REG_MRA {
            self.write_mra(data);
        } else if reg == REG_CRA {
            self.write_cra(data);
        } else if reg == REG_FIFOA {
            self.sent_a.push(data);
        }
        self.registers.set(reg as usize, data);
    }

    /// Whether the peripheral asserts its interrupt line: transmitter ready with its
    /// interrupt unmasked, or a byte received with the receive interrupt unmasked.
    pub fn is_interrupt(&self) -> (r: bool)
        requires
            self.wf(),
        ensures
            r == self.is_interrupt_spec(),
    {
        let imr = self.registers[REG_ISR_IMR as usize];
        (self.enable_tx && imr & IRQ_MASK_TXRDYA != 0) || (self.enable_rx && imr & IRQ_MASK_RXRDYA
            != 0 && self.recv_a.len() > 0)
    }

    /// The name of the register that a read of `reg` reaches.
    /// The name of the register that a read of `reg` reaches (empty where none).
    pub open spec fn read_register_name_spec(reg: u8) -> Seq<char> {
        match reg {
            0x0 => seq!['M', 'R', 'A'],
            0x1 => seq!['S', 'R', 'A'],
            0x3 => seq!['R', 'X', 'F', 'I', 'F', 'O', 'A'],
            0x4 => seq!['I', 'P', 'C', 'R'],
            0x5 => seq!['I', 'S', 'R'],
            0x6 => seq!['C', 'T', 'U'],
            0x7 => seq!['C', 'T', 'L'],
            0x8 => seq!['M', 'R', 'B'],
            0x9 => seq!['S', 'R', 'B'],
            0xB => seq!['R', 'X', 'F', 'I', 'F', 'O', 'B'],
            0xC => seq!['M', 'I', 'S', 'C'],
            0xD => seq!['I', 'P', 'R'],
            _ => seq![],
        }
    }

    pub fn read_register_name(reg: u8) -> (r: &'static str)
        requires
            reg < SIZE,
        ensures
            r@ == Self::read_register_name_spec(reg),
    {
        proof {
            reveal_strlit("MRA"); reveal_strlit("SRA"); reveal_strlit("RXFIFOA"); reveal_strlit("IPCR"); reveal_strlit("ISR"); reveal_strlit("CTU"); reveal_strlit("CTL"); reveal_strlit("MRB"); reveal_strlit("SRB"); reveal_strlit("RXFIFOB"); reveal_strlit("MISC"); reveal_strlit("IPR"); reveal_strlit("");
        }
        match reg {
            0x0 => "MRA",
            0x1 => "SRA",
            0x3 => "RXFIFOA",
            0x4 => "IPCR",
            0x5 => "ISR",
            0x6 => "CTU",
            0x7 => "CTL",
            0x8 => "MRB",
            0x9 => "SRB",
            0xB => "RXFIFOB",
            0xC => "MISC",
            0xD => "IPR",
            _ => "",
        }
    }

    /// The name of the register that a write of `reg` reaches.
    /// The name of the register that a write of `reg` reaches (empty where none).
    pub open spec fn write_register_name_spec(reg: u8) -> Seq<char> {
        match reg {
            0x0 => seq!['M', 'R', 'A'],
            0x1 => seq!['C', 'S', 'R', 'A'],
            0x2 => seq!['C', 'R', 'A'],
            0x3 => seq!['T', 'X', 'F', 'I', 'F', 'O', 'A'],
            0x4 => seq!['A', 'C', 'R'],
            0x5 => seq!['I', 'M', 'R'],
            0x6 => seq!['C', 'T', 'P', 'U'],
            0x7 => seq!['C', 'T', 'P', 'L'],
            0x8 => seq!['M', 'R', 'B'],
            0x9 => seq!['C', 'S', 'R', 'B'],
            0xA => seq!['C', 'R', 'B'],
            0xB => seq!['T', 'X', 'F', 'I', 'F', 'O', 'B'],
            0xC => seq!['M', 'I', 'S', 'C'],
            0xD => seq!['O', 'P', 'C', 'R'],
            0xE => seq!['S', 'O', 'P', 'R'],
            _ => seq!['R', 'O', 'P', 'R'],
        }
    }

    pub fn write_register_name(reg: u8) -> (r: &'static str)
        requires
            reg < SIZE,
        ensures
            r@ == Self::write_register_name_spec(reg),
    {
        proof {
            reveal_strlit("MRA"); reveal_strlit("CSRA"); reveal_strlit("CRA"); reveal_strlit("TXFIFOA"); reveal_strlit("ACR"); reveal_strlit("IMR"); reveal_strlit("CTPU"); reveal_strlit("CTPL"); reveal_strlit("MRB"); reveal_strlit("CSRB"); reveal_strlit("CRB"); reveal_strlit("TXFIFOB"); reveal_strlit("MISC"); reveal_strlit("OPCR"); reveal_strlit("SOPR"); reveal_strlit("ROPR");
        }
        match reg {
            0x0 => "MRA",
            0x1 => "CSRA",
            0x2 => "CRA",
            0x3 => "TXFIFOA",
            0x4 => "ACR",
            0x5 => "IMR",
            0x6 => "CTPU",
            0x7 => "CTPL",
            0x8 => "MRB",
            0x9 => "CSRB",
            0xA => "CRB",
            0xB => "TXFIFOB",
            0xC => "MISC",
            0xD => "OPCR",
            0xE => "SOPR",
            _ => "ROPR",
        }
    }

    /// Command register A: enables the transmitter (bit 2) and the receiver (bit 0), and
    /// moves the mode register pointer on the commands that do so.
    fn write_cra(&mut self, data: u8)
        requires
            old(self).wf(),
        ensures
            final(self).wf(),
            final(self).received() == old(self).received(),
            final(self).sent() == old(self).sent(),
            final(self).registers@ == old(self).registers@.update(REG_SRA as int, final(self).registers@[REG_SRA as int]),
            final(self).register(REG_SRA) == if data & 0b0100 != 0 {
                old(self).register(REG_SRA) | SRA_TX_READY_EMPTY
            } else {
                old(self).register(REG_SRA)
            },
            final(self).mode_registers() == old(self).mode_registers(),
            final(self).mode_pointer() == if data >> 4 == 0b0001 {
                1
            } else if data >> 4 == 0b1011 {
                0
            } else {
                old(self).mode_pointer()
            },
            data & 0b0100 != 0 ==> final(self).tx_enabled(),
            data & 0b0100 == 0 ==> final(self).tx_enabled() == old(self).tx_enabled(),
            data & 0b0001 != 0 ==> final(self).rx_enabled(),
            data & 0b0001 == 0 ==> final(self).rx_enabled() == old(self).rx_enabled(),
    {
        if data & 0b0100 != 0 {
            self.enable_tx = true;
            let v = self.registers[REG_SRA as usize] | SRA_TX_READY_EMPTY;
            self.registers.set(REG_SRA as usize, v);
        }
        if data & 0b0001 != 0 {
            self.enable_rx = true;
        }
        let command = data >> 4;
        if command == 0b0001 {
            self.mrai = 1;
        } else if command == 0b1011 {
            self.mrai = 0;
        }
    }

    /// Mode register A: stores into the register that the mode register pointer selects,
    /// then moves the pointer on.
    fn write_mra(&mut self, data: u8)
        requires
            old(self).wf(),
        ensures
            final(self).wf(),
            final(self).received() == old(self).received(),
            final(self).sent() == old(self).sent(),
            final(self).registers@ == old(self).registers@,
            final(self).tx_enabled() == old(self).tx_enabled(),
            final(self).rx_enabled() == old(self).rx_enabled(),
            old(self).mode_pointer() < 3 ==> final(self).mode_registers()
                == old(self).mode_registers().update(old(self).mode_pointer() as int, data)
                && final(self).mode_pointer() == old(self).mode_pointer() + 1,
            old(self).mode_pointer() >= 3 ==> final(self).mode_registers() == old(self).mode_registers()
                && final(self).mode_pointer() == old(self).mode_pointer(),
    {
        if self.mrai < 3 {
            self.mra.set(self.mrai, data);
            self.mrai = self.mrai + 1;
        }
    }

    fn read_sra(&self) -> (r: u8)
        ensures
            r == (if self.received().len() > 0 { 0b1101u8 } else { 0b1100u8 }),
    {
        // The transmitter is always ready and its FIFO always empty.
        let value: u8 = SRA_TX_READY_EMPTY;
        if self.recv_a.len() > 0 {
            let r = value | SRA_RXRDYA;
            assert(SRA_TX_READY_EMPTY | SRA_RXRDYA == 0b1101u8) by (bit_vector);
            r
        } else {
            value
        }
    }

    fn read_fifo_a(&mut self) -> (r: u8)
        requires
            old(self).wf(),
        ensures
            final(self).wf(),
            final(self).sent() == old(self).sent(),
            final(self).registers@ == old(self).registers@,
            final(self).enable_tx == old(self).enable_tx,
            final(self).enable_rx == old(self).enable_rx,
            if old(self).received().len() > 0 {
                r == old(self).received()[0] && final(self).received() == old(self).received().drop_first()
            } else {
                r == 0 && final(self).received() == old(self).received()
            },
    {
        if self.recv_a.len() > 0 {
            self.recv_a.remove(0)
        } else {
            0
        }
    }
}

} // verus!
