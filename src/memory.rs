use vstd::prelude::*;

verus! {

/// Size of the fixed ROM bank (0000–3FFF).
pub const ROM_BANK_0_SIZE: usize = 16384;

/// Size of the switchable ROM region; only its first 16 KiB are mapped (4000–7FFF).
pub const ROM_BANK_N_SIZE: usize = 507904;

/// The byte at index `i` of a ROM image, or 0 past its end.
pub open spec fn rom_byte(rom: Seq<u8>, i: int) -> u8 {
    if 0 <= i < rom.len() {
        rom[i]
    } else {
        0
    }
}

/// The first byte of the page that a DMA transfer started by writing `v` copies from.
pub open spec fn dma_source(v: u8) -> u16 {
    if v == 0xFE {
        0xDE00
    } else if v == 0xFF {
        0xDF00
    } else {
        (v as int * 0x100) as u16
    }
}

/// Whether a write to `a` lands in a plain memory cell.
pub open spec fn is_plain_cell(a: u16) -> bool {
    (0x8000 <= a <= 0xFE9F) || (0xFF00 <= a <= 0xFFFF && a != 0xFF46)
}

/// The address space: eleven fixed-size regions behind one 16-bit bus.
pub struct Memory {
    /// 0000–3FFF, fixed cartridge ROM.
    pub rom_bank_0: Vec<u8>,
    /// 4000–7FFF, the switchable cartridge ROM.
    pub rom_bank_n: Vec<u8>,
    /// 8000–9FFF, video RAM.
    pub vram: Vec<u8>,
    /// A000–BFFF, cartridge RAM.
    pub extern_ram: Vec<u8>,
    /// C000–CFFF, work RAM bank 0.
    pub ram_bank_0: Vec<u8>,
    /// D000–DFFF, work RAM bank 1.
    pub ram_bank_1: Vec<u8>,
    /// E000–FDFF, echo RAM.
    pub mirror: Vec<u8>,
    /// FE00–FE9F, sprite attribute table.
    pub oam: Vec<u8>,
    /// FF00–FF7F, hardware registers.
    pub io_registers: Vec<u8>,
    /// FF80–FFFE, high RAM.
    pub hram: Vec<u8>,
    /// FFFF, interrupt enable.
    pub ie_register: Vec<u8>,
    /// Bytes sent through the serial port while a transfer was enabled, oldest first.
    pub serial_out: Vec<u8>,
}

impl Memory {
    pub open spec fn wf(&self) -> bool {
        &&& self.rom_bank_0.len() == ROM_BANK_0_SIZE
        &&& self.rom_bank_n.len() == ROM_BANK_N_SIZE
        &&& self.vram.len() == 0x2000
        &&& self.extern_ram.len() == 0x2000
        &&& self.ram_bank_0.len() == 0x1000
        &&& self.ram_bank_1.len() == 0x1000
        &&& self.mirror.len() == 0x1E00
        &&& self.oam.len() == 0xA0
        &&& self.io_registers.len() == 0x80
        &&& self.hram.len() == 0x7F
        &&& self.ie_register.len() == 1
    }

    /// The byte that a read of `a` returns.
    pub open spec fn peek(&self, a: u16) -> u8 {
        if a <= 0x3FFF {
            self.rom_bank_0@[a as int]
        } else if a <= 0x7FFF {
            self.rom_bank_n@[a - 0x4000]
        } else if a <= 0x9FFF {
            self.vram@[a - 0x8000]
        } else if a <= 0xBFFF {
            self.extern_ram@[a - 0xA000]
        } else if a <= 0xCFFF {
            self.ram_bank_0@[a - 0xC000]
        } else if a <= 0xDFFF {
            self.ram_bank_1@[a - 0xD000]
        } else if a <= 0xFDFF {
            self.mirror@[a - 0xE000]
        } else if a <= 0xFE9F {
            self.oam@[a - 0xFE00]
        } else if a <= 0xFEFF {
            0
        } else if a <= 0xFF7F {
            self.io_registers@[a - 0xFF00]
        } else if a <= 0xFFFE {
            self.hram@[a - 0xFF80]
        } else {
            self.ie_register@[0]
        }
    }

    /// Whether a byte written to the serial-data register goes out instead of being stored.
    pub open spec fn serial_enabled(&self) -> bool {
        self.peek(0xFF02) >= 0x80
    }

    /// `m` reads as `self` with the single cell `a` replaced by `v` (a no-op where `a` is not a plain cell).
    pub open spec fn stores(self, m: Memory, a: u16, v: u8) -> bool {
        &&& m.wf()
        &&& m.serial_out == self.serial_out
        &&& forall|b: u16| #[trigger]
            m.peek(b) == if b == a && is_plain_cell(a) {
                v
            } else {
                self.peek(b)
            }
    }

    /// What a write of `v` to `a` does.
    pub open spec fn write_effect(self, m: Memory, a: u16, v: u8) -> bool {
        if a == 0xFF46 {
            &&& m.wf()
            &&& m.serial_out == self.serial_out
            &&& forall|b: u16| #[trigger]
                m.peek(b) == if 0xFE00 <= b < 0xFEA0 {
                    self.peek((dma_source(v) + (b - 0xFE00)) as u16)
                } else {
                    self.peek(b)
                }
        } else if a == 0xFF01 && self.serial_enabled() {
            &&& m.wf()
            &&& m.serial_out@ == self.serial_out@.push(v)
            &&& forall|b: u16| #[trigger] m.peek(b) == self.peek(b)
        } else {
            self.stores(m, a, v)
        }
    }

    /// An address space with every cell zero.
    pub fn new() -> (r: Memory)
        ensures
            r.wf(),
            forall|a: u16| #[trigger] r.peek(a) == 0,
            r.serial_out@.len() == 0,
    {
        Memory {
            rom_bank_0: zeros(ROM_BANK_0_SIZE),
            rom_bank_n: zeros(ROM_BANK_N_SIZE),
            vram: zeros(0x2000),
            extern_ram: zeros(0x2000),
            ram_bank_0: zeros(0x1000),
            ram_bank_1: zeros(0x1000),
            mirror: zeros(0x1E00),
            oam: zeros(0xA0),
            io_registers: zeros(0x80),
            hram: zeros(0x7F),
            ie_register: zeros(1),
            serial_out: Vec::new(),
        }
    }

    /// Fills both ROM regions from a cartridge image, cut or padded with zeros to their sizes.
    pub fn load_rom(&mut self, rom: &Vec<u8>)
        requires
            old(self).wf(),
        ensures
            final(self).wf(),
            forall|i: int| 0 <= i < ROM_BANK_0_SIZE ==> #[trigger] final(self).rom_bank_0@[i] == rom_byte(rom@, i),
            forall|i: int| 0 <= i < ROM_BANK_N_SIZE ==> #[trigger] final(self).rom_bank_n@[i] == rom_byte(rom@, ROM_BANK_0_SIZE + i),
            forall|b: u16| 0x8000 <= b ==> #[trigger] final(self).peek(b) == old(self).peek(b),
            final(self).serial_out == old(self).serial_out,
    {
        let mut i: usize = 0;
        while i < ROM_BANK_0_SIZE
            invariant
                self.wf(),
                i <= ROM_BANK_0_SIZE,
                forall|j: int| 0 <= j < i ==> #[trigger] self.rom_bank_0@[j] == rom_byte(rom@, j),
                self.rom_bank_n == old(self).rom_bank_n,
                self.vram == old(self).vram && self.extern_ram == old(self).extern_ram,
                self.ram_bank_0 == old(self).ram_bank_0 && self.ram_bank_1 == old(self).ram_bank_1,
                self.mirror == old(self).mirror && self.oam == old(self).oam,
                self.io_registers == old(self).io_registers && self.hram == old(self).hram,
                self.ie_register == old(self).ie_register && self.serial_out == old(self).serial_out,
            decreases ROM_BANK_0_SIZE - i,
        {
            let b = if i < rom.len() { rom[i] } else { 0 };
            self.rom_bank_0.set(i, b);
            i = i + 1;
        }
        let mut j: usize = 0;
        while j < ROM_BANK_N_SIZE
            invariant
                self.wf(),
                j <= ROM_BANK_N_SIZE,
                forall|k: int| 0 <= k < ROM_BANK_0_SIZE ==> #[trigger] self.rom_bank_0@[k] == rom_byte(rom@, k),
                forall|k: int| 0 <= k < j ==> #[trigger] self.rom_bank_n@[k] == rom_byte(rom@, ROM_BANK_0_SIZE + k),
                self.vram == old(self).vram && self.extern_ram == old(self).extern_ram,
                self.ram_bank_0 == old(self).ram_bank_0 && self.ram_bank_1 == old(self).ram_bank_1,
                self.mirror == old(self).mirror && self.oam == old(self).oam,
                self.io_registers == old(self).io_registers && self.hram == old(self).hram,
                self.ie_register == old(self).ie_register && self.serial_out == old(self).serial_out,
            decreases ROM_BANK_N_SIZE - j,
        {
            let k = ROM_BANK_0_SIZE + j;
            let b = if k < rom.len() { rom[k] } else { 0 };
            self.rom_bank_n.set(j, b);
            j = j + 1;
        }
    }

    /// Writes one byte to the bus, with the side effects of the serial and DMA registers.
    pub fn write(&mut self, address: u16, data: u8)
        requires
            old(self).wf(),
        ensures
            old(self).write_effect(*final(self), address, data),
    {
        assert(self.peek(0xFF02) == self.io_registers@[2]);
        if address == 0xFF46 {
            self.dma_transfer(data);
        } else if address == 0xFF01 && self.io_registers[2] >= 0x80 {
            self.serial_out.push(data);
        } else {
            self.store(address, data);
        }
    }

    /// Stores one byte in the plain cell at `address`; anywhere else nothing changes.
    fn store(&mut self, address: u16, data: u8)
        requires
            old(self).wf(),
        ensures
            old(self).stores(*final(self), address, data),
    {
        if 0x8000 <= address && address <= 0x9FFF {
            self.vram.set((address - 0x8000) as usize, data);
        } else if 0xA000 <= address && address <= 0xBFFF {
            self.extern_ram.set((address - 0xA000) as usize, data);
        } else if 0xC000 <= address && address <= 0xCFFF {
            self.ram_bank_0.set((address - 0xC000) as usize, data);
        } else if 0xD000 <= address && address <= 0xDFFF {
            self.ram_bank_1.set((address - 0xD000) as usize, data);
        } else if 0xE000 <= address && address <= 0xFDFF {
            self.mirror.set((address - 0xE000) as usize, data);
        } else if 0xFE00 <= address && address <= 0xFE9F {
            self.oam.set((address - 0xFE00) as usize, data);
        } else if 0xFF00 <= address && address <= 0xFF7F && address != 0xFF46 {
            self.io_registers.set((address - 0xFF00) as usize, data);
        } else if 0xFF80 <= address && address <= 0xFFFE {
            self.hram.set((address - 0xFF80) as usize, data);
        } else if address == 0xFFFF {
            self.ie_register.set(0, data);
        }
    }

    /// Reads one byte from the bus; the unusable range reads as 0.
    pub fn read(&self, address: u16) -> (r: u8)
        requires
            self.wf(),
        ensures
            r == self.peek(address),
    {
        if address <= 0x3FFF {
            self.rom_bank_0[address as usize]
        } else if address <= 0x7FFF {
            self.rom_bank_n[(address - 0x4000) as usize]
        } else if address <= 0x9FFF {
            self.vram[(address - 0x8000) as usize]
        } else if address <= 0xBFFF {
            self.extern_ram[(address - 0xA000) as usize]
        } else if address <= 0xCFFF {
            self.ram_bank_0[(address - 0xC000) as usize]
        } else if address <= 0xDFFF {
            self.ram_bank_1[(address - 0xD000) as usize]
        } else if address <= 0xFDFF {
            self.mirror[(address - 0xE000) as usize]
        } else if address <= 0xFE9F {
            self.oam[(address - 0xFE00) as usize]
        } else if address <= 0xFEFF {
            0
        } else if address <= 0xFF7F {
            self.io_registers[(address - 0xFF00) as usize]
        } else if address <= 0xFFFE {
            self.hram[(address - 0xFF80) as usize]
        } else {
            self.ie_register[0]
        }
    }

    /// Copies the 160 bytes of the source page chosen by `address` into the sprite attribute table.
    pub fn dma_transfer(&mut self, address: u8)
        requires
            old(self).wf(),
        ensures
            final(self).wf(),
            final(self).serial_out == old(self).serial_out,
            forall|b: u16| #[trigger]
                final(self).peek(b) == if 0xFE00 <= b < 0xFEA0 {
                    old(self).peek((dma_source(address) + (b - 0xFE00)) as u16)
                } else {
                    old(self).peek(b)
                },
    {
        let src: u16 = if address == 0xFE {
            0xDE00
        } else if address == 0xFF {
            0xDF00
        } else {
            address as u16 * 0x100
        };
        let mut i: u16 = 0;
        while i < 160
            invariant
                self.wf(),
                src == dma_source(address),
                src <= 0xFD00,
                i <= 160,
                forall|k: int| 0 <= k < i ==> #[trigger] self.oam@[k] == old(self).peek((src + k) as u16),
                forall|k: int| i <= k < 160 ==> #[trigger] self.oam@[k] == old(self).oam@[k],
                self.rom_bank_0 == old(self).rom_bank_0 && self.rom_bank_n == old(self).rom_bank_n,
                self.vram == old(self).vram && self.extern_ram == old(self).extern_ram,
                self.ram_bank_0 == old(self).ram_bank_0 && self.ram_bank_1 == old(self).ram_bank_1,
                self.mirror == old(self).mirror,
                self.io_registers == old(self).io_registers && self.hram == old(self).hram,
                self.ie_register == old(self).ie_register && self.serial_out == old(self).serial_out,
            decreases 160 - i,
        {
            let data = self.read(src + i);
            self.oam.set(i as usize, data);
            i = i + 1;
        }
    }
}

/// A vector of `n` zero bytes.
fn zeros(n: usize) -> (r: Vec<u8>)
    ensures
        r@.len() == n,
        forall|i: int| 0 <= i < n ==> #[trigger] r@[i] == 0,
{
    let mut v: Vec<u8> = Vec::new();
    let mut i: usize = 0;
    while i < n
        invariant
            i <= n,
            v@.len() == i,
            forall|j: int| 0 <= j < i ==> #[trigger] v@[j] == 0,
        decreases n - i,
    {
        v.push(0);
        i = i + 1;
    }
    v
}

} // verus!
