//! The bus: a 64 KiB address space backed by RAM, with an optional page of memory-mapped
//! devices (a random-number register and a serial peripheral) that intercept reads and writes.
use vstd::prelude::*;
use crate::uart::{self, Uart};

verus! {

/// Number of addressable bytes.
pub const MEM_SIZE: usize = 65536;

/// A read of this address returns a pseudo-random byte when devices are attached.
pub const RAND_ADDR: u16 = 0xD41B;

/// First address of the serial peripheral's registers.
pub const UART_BASE: u16 = 0xDC20;

/// Last address of the serial peripheral's registers.
pub const UART_END: u16 = 0xDC2F;

/// Whether a device, when attached, claims `addr`.
pub open spec fn is_device_addr(addr: u16) -> bool {
    addr == RAND_ADDR || (UART_BASE <= addr && addr <= UART_END)
}

/// Page zero, the stack page and the vectors at the top of memory hold no device.
pub proof fn lemma_fixed_pages_are_ram(bus: Bus, addr: u16)
    requires
        addr < 0x200 || addr >= 0xFFFA,
    ensures
        bus.reaches_ram(addr),
{
}

/// The 16-bit little-endian value at `addr` and the byte after it, wrapping past 0xFFFF.
pub open spec fn read16_spec(mem: Seq<u8>, addr: u16) -> u16 {
    (mem[addr as int] as int + 256 * mem[((addr as int + 1) % 65536)] as int) as u16
}

/// Relies on fastrand::u8: it returns a value of the half-open range it is given, and panics
/// only on an empty range.
#[verifier::external_body]
fn random_in(low: u8, high: u8) -> (r: u8)
    requires
        low < high,
    ensures
        low <= r < high,
{
    fastrand::u8(low..high)
}

pub struct Bus {
    ram: Vec<u8>,
    uart: Uart,
    devices: bool,
}

impl View for Bus {
    type V = Seq<u8>;

    /// The contents of RAM, one byte for each address.
    closed spec fn view(&self) -> Seq<u8> {
        self.ram@
    }
}

impl Bus {
    pub closed spec fn wf(&self) -> bool {
        &&& self.ram@.len() == MEM_SIZE
        &&& self.uart.wf()
    }

    /// Whether the device page is attached; without it every address is RAM.
    pub closed spec fn has_devices(&self) -> bool {
        self.devices
    }

    /// The serial peripheral behind the device page.
    pub closed spec fn serial(&self) -> Uart {
        self.uart
    }

    /// Whether an access to `addr` reaches RAM.
    pub open spec fn reaches_ram(&self, addr: u16) -> bool {
        !(self.has_devices() && is_device_addr(addr))
    }

    fn zeroed(devices: bool) -> (r: Bus)
        ensures
            r.wf(),
            r.has_devices() == devices,
            forall|i: int| 0 <= i < MEM_SIZE ==> #[trigger] r@[i] == 0,
    {
        let mut ram: Vec<u8> = Vec::new();
        let mut i: usize = 0;
        while i < MEM_SIZE
            invariant
                i <= MEM_SIZE,
                ram@.len() == i,
                forall|j: int| 0 <= j < i ==> #[trigger] ram@[j] == 0,
            decreases MEM_SIZE - i,
        {
            ram.push(0);
            i += 1;
        }
        Bus { ram, uart: Uart::new(), devices }
    }

    /// A bus of zeroed RAM over the whole address space, with no devices.
    pub fn new() -> (r: Bus)
        ensures
            r.wf(),
            !r.has_devices(),
            r@.len() == MEM_SIZE,
            forall|i: int| 0 <= i < MEM_SIZE ==> #[trigger] r@[i] == 0,
    {
        Bus::zeroed(false)
    }

    /// A bus of zeroed RAM with the device page attached.
    pub fn with_devices() -> (r: Bus)
        ensures
            r.wf(),
            r.has_devices(),
            r@.len() == MEM_SIZE,
            forall|i: int| 0 <= i < MEM_SIZE ==> #[trigger] r@[i] == 0,
    {
        Bus::zeroed(true)
    }

    /// Resets the devices; RAM keeps its contents.
    pub fn reset(&mut self)
        requires
            old(self).wf(),
        ensures
            final(self).wf(),
            final(self)@ == old(self)@,
            final(self).has_devices() == old(self).has_devices(),
    {
        self.uart.reset();
    }

    pub fn read(&mut self, addr: u16) -> (r: u8)
        requires
            old(self).wf(),
        ensures
            final(self).wf(),
            final(self)@ == old(self)@,
            final(self).has_devices() == old(self).has_devices(),
            old(self).reaches_ram(addr) ==> r == old(self)@[addr as int] && *final(self) == *old(self),
            old(self).has_devices() && addr == RAND_ADDR ==> r < 255,
            old(self).has_devices() && UART_BASE <= addr <= UART_END ==> ({
                let reg = (addr - UART_BASE) as u8;
                &&& r == old(self).serial().read_value(reg)
                &&& final(self).serial().received() == old(self).serial().received_after_read(reg)
                &&& final(self).serial().sent() == old(self).serial().sent()
            }),
    {
        if self.devices && addr == RAND_ADDR {
            random_in(0, 255)
        } else if self.devices && UART_BASE <= addr && addr <= UART_END {
            self.uart.read((addr - UART_BASE) as u8)
        } else {
            self.ram[addr as usize]
        }
    }

    /// Reads a u16 in little-endian order from the bus, crossing page boundaries.
    pub fn read_u16(&mut self, addr: u16) -> (r: u16)
        requires
            old(self).wf(),
        ensures
            final(self).wf(),
            final(self)@ == old(self)@,
            final(self).has_devices() == old(self).has_devices(),
            old(self).reaches_ram(addr) && old(self).reaches_ram(addr.wrapping_add(1)) ==> r == read16_spec(old(self)@, addr)
                && *final(self) == *old(self),
    {
        let lo = self.read(addr) as u16;
        let hi = self.read(addr.wrapping_add(1)) as u16;
        assert((hi << 8u16) | lo == hi * 256 + lo) by (bit_vector)
            requires
                hi < 256,
                lo < 256,
        ;
        hi << 8 | lo
    }

    pub fn write(&mut self, addr: u16, data: u8)
        requires
            old(self).wf(),
        ensures
            final(self).wf(),
            final(self).has_devices() == old(self).has_devices(),
            old(self).reaches_ram(addr) ==> final(self)@ == old(self)@.update(addr as int, data)
                && final(self).serial() == old(self).serial(),
            !old(self).reaches_ram(addr) ==> final(self)@ == old(self)@,
            old(self).has_devices() && UART_BASE <= addr <= UART_END ==> ({
                let reg = (addr - UART_BASE) as u8;
                &&& final(self).serial().register(reg) == data
                &&& final(self).serial().received() == old(self).serial().received()
                &&& reg == uart::REG_FIFOA ==> final(self).serial().sent() == old(self).serial().sent().push(data)
                &&& reg != uart::REG_FIFOA ==> final(self).serial().sent() == old(self).serial().sent()
            }),
    {
        if self.devices && UART_BASE <= addr && addr <= UART_END {
            self.uart.write((addr - UART_BASE) as u8, data);
        } else if self.devices && addr == RAND_ADDR {
            // the random-number register ignores writes
        } else {
            self.ram.set(addr as usize, data);
        }
    }

    /// Whether a device asserts the interrupt line.
    pub fn is_interrupt(&self) -> (r: bool)
        requires
            self.wf(),
        ensures
            r == (self.has_devices() && self.serial().is_interrupt_spec()),
    {
        self.devices && self.uart.is_interrupt()
    }

    /// Bulk-writes `data` to consecutive addresses from `addr` on.
    pub fn load(&mut self, addr: u16, data: Vec<u8>)
        requires
            old(self).wf(),
            addr as int + data@.len() <= MEM_SIZE,
        ensures
            final(self).wf(),
            final(self).has_devices() == old(self).has_devices(),
            forall|i: int| 0 <= i < MEM_SIZE ==> #[trigger] final(self)@[i]
                == if addr <= i < addr + data@.len() && old(self).reaches_ram(i as u16) { data@[i - addr] } else { old(self)@[i] },
    {
        let mut i: usize = 0;
        while i < data.len()
            invariant
                self.wf(),
                self.has_devices() == old(self).has_devices(),
                i <= data@.len(),
                addr as int + data@.len() <= MEM_SIZE,
                forall|j: int| 0 <= j < MEM_SIZE ==> #[trigger] self@[j]
                    == if addr <= j < addr + i && old(self).reaches_ram(j as u16) { data@[j - addr] } else { old(self)@[j] },
            decreases data@.len() - i,
        {
            self.write(addr + i as u16, data[i]);
            i += 1;
        }
    }

    /// Appends bytes that arrived for the serial peripheral.
    pub fn receive(&mut self, bytes: &[u8])
        requires
            old(self).wf(),
        ensures
            final(self).wf(),
            final(self)@ == old(self)@,
            final(self).has_devices() == old(self).has_devices(),
            final(self).serial().received() == old(self).serial().received() + bytes@,
    {
        self.uart.receive(bytes);
    }

    /// Whether the serial peripheral has no received byte left to read.
    pub fn is_receive_empty(&self) -> (r: bool)
        ensures
            r == (self.serial().received().len() == 0),
    {
        self.uart.is_receive_empty()
    }

    /// Takes the bytes that the serial peripheral was given to transmit.
    pub fn take_sent(&mut self) -> (r: Vec<u8>)
        requires
            old(self).wf(),
        ensures
            final(self).wf(),
            final(self)@ == old(self)@,
            final(self).has_devices() == old(self).has_devices(),
            r@ == old(self).serial().sent(),
            final(self).serial().sent().len() == 0,
            final(self).serial().received() == old(self).serial().received(),
    {
        self.uart.take_sent()
    }
}

/// The serial peripheral's register that `addr` reaches, if it is one.
pub fn uart_register(addr: u16) -> (r: Option<u8>)
    ensures
        r matches Some(reg) ==> UART_BASE <= addr <= UART_END && reg == addr - UART_BASE,
        r is None ==> !(UART_BASE <= addr <= UART_END),
{
    if UART_BASE <= addr && addr <= UART_END {
        Some((addr - UART_BASE) as u8)
    } else {
        None
    }
}

} // verus!
