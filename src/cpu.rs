use vstd::prelude::*;
use crate::alu::{add16_flags, alu, alu_regs, daa_result, decimal_adjust, offset_sp, shift, shift_carry, shift_result, sp_offset};
use crate::interrupts::{BinaryHeap, Interrupt, interrupt_bit, priority, vector};
use crate::joypad::InputStates;
use crate::memory::{Memory, dma_source};
use crate::ppu::{PPU, ly_shown, mode_shown, ppu_frame};
use crate::registers::{Flag, Reg, RegW, Registers, word, wrap8, wrap16};
use crate::timer::Timer;

verus! {

/// Addresses that read as plain memory and that no peripheral changes on its own:
/// everything below the unusable range, and high RAM.
pub open spec fn quiet(a: u16) -> bool {
    a <= 0xFE9F || (0xFF80 <= a && a <= 0xFFFE)
}

/// The quiet addresses read the same in both states.
pub open spec fn quiet_same(m0: Memory, m1: Memory) -> bool {
    forall|q: u16| quiet(q) ==> #[trigger] m1.peek(q) == m0.peek(q)
}

/// How a bus write of `v` to `addr` shows at the quiet addresses: RAM takes the byte, ROM
/// ignores it, and a write to the DMA register copies a page into the sprite table.
pub open spec fn quiet_written(m0: Memory, m1: Memory, addr: u16, v: u8) -> bool {
    forall|q: u16|
        quiet(q) ==> #[trigger] m1.peek(q) == if addr == 0xFF46 && 0xFE00 <= q < 0xFEA0 {
            m0.peek((dma_source(v) + (q - 0xFE00)) as u16)
        } else if q == addr && 0x8000 <= addr {
            v
        } else {
            m0.peek(q)
        }
}

/// A quiet address that holds RAM.
pub open spec fn quiet_ram(a: u16) -> bool {
    quiet(a) && 0x8000 <= a
}

/// `i` as a signed displacement.
pub open spec fn signed8(i: u8) -> int {
    if i < 128 {
        i as int
    } else {
        i - 256
    }
}

/// The interpreter and the hardware it drives.
pub struct CPU {
    pub halted: bool,
    /// The global interrupt enable.
    pub ime: bool,
    /// An enable instruction ran; interrupts come on after the next instruction.
    pub ime_waiting: bool,
    pub registers: Registers,
    pub memory: Memory,
    pub pc: u16,
    pub sp: u16,
    /// Clock ticks, four per machine cycle, wrapping.
    pub t_cycles: u16,
    pub timer: Timer,
    pub ppu: PPU,
    /// Interrupts requested and not yet dispatched.
    pub interrupt_queue: BinaryHeap,
    /// One bit per interrupt kind that is in the queue.
    pub interrupt_queue_bitflags: u8,
    pub input_states: InputStates,
}

impl CPU {
    pub open spec fn wf(&self) -> bool {
        &&& self.registers.wf()
        &&& self.memory.wf()
        &&& self.timer.wf()
        &&& self.ppu.wf()
        &&& ly_shown(self.ppu, self.memory)
        &&& mode_shown(self.ppu, self.memory)
    }

    /// What a read of `a` returns: the joypad and timer registers are served by their units.
    pub open spec fn bus_value(&self, a: u16) -> u8 {
        if a == 0xFF00 {
            self.input_states.joypad_value(self.memory.peek(0xFF00))
        } else if 0xFF04 <= a <= 0xFF07 {
            self.timer.io_value(a)
        } else {
            self.memory.peek(a)
        }
    }

    /// `b` is `a` after `k` machine cycles in which only the given core state changed and
    /// the interrupt machinery stayed as it was.
    pub open spec fn runs(a: CPU, b: CPU, k: int, regs: Registers, pc: u16, sp: u16) -> bool {
        &&& b.wf()
        &&& b.registers == regs
        &&& b.pc == pc
        &&& b.sp == sp
        &&& b.ime == a.ime
        &&& b.ime_waiting == a.ime_waiting
        &&& b.halted == a.halted
        &&& b.interrupt_queue@ == a.interrupt_queue@
        &&& b.interrupt_queue_bitflags == a.interrupt_queue_bitflags
        &&& b.input_states == a.input_states
        &&& b.t_cycles == wrap16(a.t_cycles + 4 * k)
    }

    /// `b` is `a` one machine cycle later, with nothing but the peripherals moved: the video
    /// controller's frame of memory, one timer step, plain memory as it was.
    pub open spec fn cycled(a: CPU, b: CPU) -> bool {
        &&& Self::runs(a, b, 1, a.registers, a.pc, a.sp)
        &&& quiet_same(a.memory, b.memory)
        &&& ppu_frame(a.memory, b.memory)
        &&& b.timer == a.timer.ticked()
    }

    /// `b` is `a` after the byte at PC was fetched: one cycle, and PC moved on by one.
    pub open spec fn fetched(a: CPU, b: CPU) -> bool {
        &&& Self::cycled(a, CPU { pc: a.pc, ..b })
        &&& b.pc == wrap16(a.pc + 1)
    }

    /// The byte after the opcode.
    pub open spec fn operand8(&self) -> u8 {
        self.bus_value(self.pc)
    }

    /// The little-endian word after the opcode, where its high byte is at a quiet address.
    pub open spec fn operand16(&self) -> u16 {
        word(self.memory.peek(wrap16(self.pc + 1)), self.bus_value(self.pc))
    }

    /// The power-on state after the boot program: execution starts at 0x0100 with the stack
    /// at 0xFFFE.
    pub fn new() -> (r: Self)
        ensures
            r.wf(),
            r.pc == 0x100 && r.sp == 0xFFFE && r.t_cycles == 0,
            !r.halted && !r.ime && !r.ime_waiting,
            r.registers == Registers::new_spec(),
            r.interrupt_queue@.len() == 0 && r.interrupt_queue_bitflags == 0,
            forall|a: u16| a != 0xFF41 ==> #[trigger] r.memory.peek(a) == 0,
            r.memory.peek(0xFF41) == 2,
            r.memory.serial_out@.len() == 0,
            r.timer == Timer::new_spec(),
            r.ppu.mode == 2 && r.ppu.cycles == 0 && r.ppu.ly == 0 && r.ppu.x == 0,
            r.ppu.sprite_buffer@.len() == 0 && !r.ppu.entered_vblank && !r.ppu.stat_irq,
            !r.input_states.down && !r.input_states.up && !r.input_states.left && !r.input_states.right,
            !r.input_states.start && !r.input_states.select && !r.input_states.b && !r.input_states.a,
    {
        let mut memory = Memory::new();
        memory.write(0xFF41, 2);
        CPU {
            halted: false,
            ime: false,
            ime_waiting: false,
            registers: Registers::new(),
            memory,
            pc: 0x100,
            sp: 0xFFFE,
            t_cycles: 0,
            timer: Timer::new(),
            ppu: PPU::new(),
            interrupt_queue: BinaryHeap::new(),
            interrupt_queue_bitflags: 0,
            input_states: InputStates::new(),
        }
    }

    /// One machine cycle: four clock ticks, four video dots and one timer step.
    #[verifier::rlimit(60)]
    pub fn m_cycle(&mut self)
        requires
            old(self).wf(),
        ensures
            Self::runs(*old(self), *final(self), 1, old(self).registers, old(self).pc, old(self).sp),
            quiet_same(old(self).memory, final(self).memory),
            ppu_frame(old(self).memory, final(self).memory),
            final(self).timer == old(self).timer.ticked(),
    {
        self.t_cycles = self.t_cycles.wrapping_add(4);
        self.ppu.tick(&mut self.memory);
        self.timer.inc_sysclk();
    }

    /// Reads a byte over the bus, taking one machine cycle.
    #[verifier::rlimit(60)]
    pub fn read(&mut self, address: u16) -> (r: u8)
        requires
            old(self).wf(),
        ensures
            r == old(self).bus_value(address),
            Self::cycled(*old(self), *final(self)),
    {
        let data = if address == 0xFF00 {
            let joyp = self.memory.read(0xFF00);
            self.input_states.get_states(joyp)
        } else if 0xFF04 <= address && address <= 0xFF07 {
            self.timer.read_io(address)
        } else {
            self.memory.read(address)
        };
        self.m_cycle();
        data
    }

    /// Writes a byte over the bus, taking one machine cycle; the write lands before the
    /// peripherals tick.
    #[verifier::rlimit(60)]
    pub fn write(&mut self, address: u16, data: u8)
        requires
            old(self).wf(),
        ensures
            Self::runs(*old(self), *final(self), 1, old(self).registers, old(self).pc, old(self).sp),
            quiet_written(old(self).memory, final(self).memory, address, data),
            0xFF04 <= address <= 0xFF07 ==>
                final(self).timer == old(self).timer.written(address, data).ticked(),
            address == 0xFF01 && old(self).memory.serial_enabled() ==> final(self).memory.serial_out@
                == old(self).memory.serial_out@.push(data),
            address == 0xFF44 ==> ppu_frame(old(self).memory, final(self).memory),
            0xFF80 <= address <= 0xFFFE || 0x8000 <= address <= 0xFE9F ==> final(self).memory.peek(address) == data,
    {
        if 0xFF04 <= address && address <= 0xFF07 {
            self.timer.write_io(address, data);
        } else if address == 0xFF41 {
            let stat = self.memory.read(0xFF41);
            proof {
                lemma_keep_mode_bits(data, stat);
            }
            self.memory.write(0xFF41, (data & 0xFC) | (stat & 0x03));
        } else if address != 0xFF44 {
            self.memory.write(address, data);
        }
        self.m_cycle();
    }

    /// Reads the byte at PC and moves PC on, wrapping at the top of the address space.
    #[verifier::rlimit(60)]
    pub fn fetch(&mut self) -> (r: u8)
        requires
            old(self).wf(),
        ensures
            r == old(self).operand8(),
            Self::runs(
                *old(self),
                *final(self),
                1,
                old(self).registers,
                wrap16(old(self).pc + 1),
                old(self).sp,
            ),
            quiet_same(old(self).memory, final(self).memory),
            Self::fetched(*old(self), *final(self)),
    {
        let addr = self.pc;
        let data = self.read(addr);
        self.pc = self.pc.wrapping_add(1);
        data
    }

    /// Reads a little-endian word at PC: low byte first.
    #[verifier::rlimit(60)]
    pub fn fetchW(&mut self) -> (r: u16)
        requires
            old(self).wf(),
        ensures
            r % 256 == old(self).operand8(),
            quiet(wrap16(old(self).pc + 1)) ==> r == old(self).operand16(),
            Self::runs(
                *old(self),
                *final(self),
                2,
                old(self).registers,
                wrap16(old(self).pc + 2),
                old(self).sp,
            ),
            quiet_same(old(self).memory, final(self).memory),
    {
        let lower_byte = self.fetch();
        let upper_byte = self.fetch();
        upper_byte as u16 * 256 + lower_byte as u16
    }

    /// What a push of `v` does to the stack: SP drops by two, and where both bytes land in
    /// RAM the high byte sits above the low one.
    pub open spec fn pushed(a: CPU, b: CPU, v: u16) -> bool {
        &&& b.sp == wrap16(a.sp - 2)
        &&& quiet_ram(wrap16(a.sp - 1)) && quiet_ram(wrap16(a.sp - 2)) ==> forall|q: u16|
            quiet(q) ==> #[trigger] b.memory.peek(q) == if q == wrap16(a.sp - 1) {
                (v / 256) as u8
            } else if q == wrap16(a.sp - 2) {
                (v % 256) as u8
            } else {
                a.memory.peek(q)
            }
    }

    /// What a pop returning `r` does: SP rises by two, and where both bytes are quiet `r` is
    /// the word stored at SP, low byte first.
    pub open spec fn popped(a: CPU, b: CPU, r: u16) -> bool {
        &&& b.sp == wrap16(a.sp + 2)
        &&& r % 256 == a.bus_value(a.sp)
        &&& quiet(a.sp) && quiet(wrap16(a.sp + 1)) ==>
            r == word(a.memory.peek(wrap16(a.sp + 1)), a.memory.peek(a.sp))
    }

    /// Pushes a word: SP is decremented before each byte, high byte first.
    #[verifier::rlimit(60)]
    pub fn stack_push(&mut self, num: u16)
        requires
            old(self).wf(),
        ensures
            Self::pushed(*old(self), *final(self), num),
            Self::runs(
                *old(self),
                *final(self),
                2,
                old(self).registers,
                old(self).pc,
                wrap16(old(self).sp - 2),
            ),
    {
        self.sp = self.sp.wrapping_sub(1);
        self.write(self.sp, (num / 256) as u8);
        self.sp = self.sp.wrapping_sub(1);
        self.write(self.sp, (num % 256) as u8);
    }

    /// Pops a word: each byte is read and then SP incremented, low byte first.
    #[verifier::rlimit(60)]
    pub fn stack_pop(&mut self) -> (r: u16)
        requires
            old(self).wf(),
        ensures
            Self::popped(*old(self), *final(self), r),
            Self::runs(
                *old(self),
                *final(self),
                2,
                old(self).registers,
                old(self).pc,
                wrap16(old(self).sp + 2),
            ),
            quiet_same(old(self).memory, final(self).memory),
    {
        let lower = self.read(self.sp);
        self.sp = self.sp.wrapping_add(1);
        let upper = self.read(self.sp);
        self.sp = self.sp.wrapping_add(1);
        upper as u16 * 256 + lower as u16
    }
}

impl CPU {
    /// Shift/rotate `op` of register `dst`, zero flag from the result.
    #[verifier::rlimit(60)]
    fn shift_reg(&mut self, op: u8, dst: Reg)
        requires
            old(self).wf(),
            op < 8,
        ensures
            final(self).wf(),
            *final(self) == (CPU {
                registers: old(self).registers.with_reg(dst, shift_result(op, old(self).registers.reg(dst), old(self).registers.flag(Flag::C))).with_flags(
                    shift_result(op, old(self).registers.reg(dst), old(self).registers.flag(Flag::C)) == 0,
                    false,
                    false,
                    shift_carry(op, old(self).registers.reg(dst)),
                ),
                ..*old(self)
            }),
    {
        let v = self.registers.get_reg(dst);
        let c = self.registers.get_flag(Flag::C);
        let (r, out) = shift(op, v, c);
        self.registers.set_reg(dst, r);
        self.registers.set_flags(r == 0, false, false, out);
    }

    /// Shift/rotate `op` of the byte at HL, zero flag from the result.
    #[verifier::rlimit(60)]
    fn shift_hl(&mut self, op: u8)
        requires
            old(self).wf(),
            op < 8,
        ensures
            Self::runs(
                *old(self),
                *final(self),
                2,
                old(self).registers.with_flags(
                    shift_result(op, old(self).bus_value(old(self).registers.reg_w(RegW::HL)), old(self).registers.flag(Flag::C)) == 0,
                    false,
                    false,
                    shift_carry(op, old(self).bus_value(old(self).registers.reg_w(RegW::HL))),
                ),
                old(self).pc,
                old(self).sp,
            ),
            quiet_written(
                old(self).memory,
                final(self).memory,
                old(self).registers.reg_w(RegW::HL),
                shift_result(
                    op,
                    old(self).bus_value(old(self).registers.reg_w(RegW::HL)),
                    old(self).registers.flag(Flag::C),
                ),
            ),
    {
        let addr = self.registers.get_regW(RegW::HL);
        let v = self.read(addr);
        let c = self.registers.get_flag(Flag::C);
        let (r, out) = shift(op, v, c);
        self.write(addr, r);
        self.registers.set_flags(r == 0, false, false, out);
    }

    /// LD r, r': copies one register into another.
    #[verifier::rlimit(60)]
    pub fn reg_ld_reg(&mut self, dst: Reg, src: Reg)
        requires
            old(self).wf(),
        ensures
            final(self).wf(),
            *final(self) == (CPU {
                registers: old(self).registers.with_reg(dst, old(self).registers.reg(src)),
                ..*old(self)
            }),
    {
        let v = self.registers.get_reg(src);
        self.registers.set_reg(dst, v);
    }

    /// LD SP, HL.
    #[verifier::rlimit(60)]
    pub fn sp_ld_hl(&mut self)
        requires
            old(self).wf(),
        ensures
            Self::runs(
                *old(self),
                *final(self),
                1,
                old(self).registers,
                old(self).pc,
                old(self).registers.reg_w(RegW::HL),
            ),
            quiet_same(old(self).memory, final(self).memory),
    {
        let v = self.registers.get_regW(RegW::HL);
        self.sp = v;
        self.m_cycle();
    }

    /// LD HL, SP+e: SP plus a signed operand into HL, flags from the low-byte addition.
    #[verifier::rlimit(80)]
    pub fn hl_ld_spi8(&mut self)
        requires
            old(self).wf(),
        ensures
            Self::runs(
                *old(self),
                *final(self),
                2,
                old(self).registers.with_reg_w(RegW::HL, sp_offset(old(self).sp, old(self).operand8()).0).with_flags(
                    false,
                    false,
                    sp_offset(old(self).sp, old(self).operand8()).1,
                    sp_offset(old(self).sp, old(self).operand8()).2,
                ),
                wrap16(old(self).pc + 1),
                old(self).sp,
            ),
            quiet_same(old(self).memory, final(self).memory),
    {
        let e = self.fetch();
        let (sum, h, c) = offset_sp(self.sp, e);
        self.m_cycle();
        self.registers.set_regW(RegW::HL, sum);
        self.registers.set_flags(false, false, h, c);
    }

    /// LD r, n.
    #[verifier::rlimit(60)]
    pub fn reg_ld_operand(&mut self, dst: Reg)
        requires
            old(self).wf(),
        ensures
            Self::runs(
                *old(self),
                *final(self),
                1,
                old(self).registers.with_reg(dst, old(self).operand8()),
                wrap16(old(self).pc + 1),
                old(self).sp,
            ),
            quiet_same(old(self).memory, final(self).memory),
    {
        let v = self.fetch();
        self.registers.set_reg(dst, v);
    }

    /// LD rr, nn.
    #[verifier::rlimit(60)]
    pub fn regW_ld_operand(&mut self, dst: RegW)
        requires
            old(self).wf(),
        ensures
            final(self).wf(),
            quiet(wrap16(old(self).pc + 1)) ==>
                final(self).registers == old(self).registers.with_reg_w(dst, old(self).operand16()),
            final(self).registers.reg_w(dst) % 256 == old(self).operand8() - (if dst == RegW::AF { old(self).operand8() % 16 } else { 0 }),
            Self::runs(
                *old(self),
                *final(self),
                2,
                final(self).registers,
                wrap16(old(self).pc + 2),
                old(self).sp,
            ),
            quiet_same(old(self).memory, final(self).memory),
    {
        let v = self.fetchW();
        self.registers.set_regW(dst, v);
    }

    /// LD SP, nn.
    #[verifier::rlimit(60)]
    pub fn sp_ld_operand(&mut self)
        requires
            old(self).wf(),
        ensures
            quiet(wrap16(old(self).pc + 1)) ==> final(self).sp == old(self).operand16(),
            final(self).sp % 256 == old(self).operand8(),
            Self::runs(
                *old(self),
                *final(self),
                2,
                old(self).registers,
                wrap16(old(self).pc + 2),
                final(self).sp,
            ),
            quiet_same(old(self).memory, final(self).memory),
    {
        self.sp = self.fetchW();
    }

    /// LD (rr), r: stores a register at the address a pair holds.
    #[verifier::rlimit(60)]
    pub fn regWaddr_ld_reg(&mut self, dst: RegW, src: Reg)
        requires
            old(self).wf(),
        ensures
            Self::runs(*old(self), *final(self), 1, old(self).registers, old(self).pc, old(self).sp),
            quiet_written(
                old(self).memory,
                final(self).memory,
                old(self).registers.reg_w(dst),
                old(self).registers.reg(src),
            ),
    {
        let addr = self.registers.get_regW(dst);
        let v = self.registers.get_reg(src);
        self.write(addr, v);
    }

    /// LD (nn), A.
    #[verifier::rlimit(60)]
    pub fn addr_ld_regA(&mut self)
        requires
            old(self).wf(),
        ensures
            Self::runs(
                *old(self),
                *final(self),
                3,
                old(self).registers,
                wrap16(old(self).pc + 2),
                old(self).sp,
            ),
            quiet(wrap16(old(self).pc + 1)) ==>
                quiet_written(
                    old(self).memory,
                    final(self).memory,
                    old(self).operand16(),
                    old(self).registers.A,
                ),
    {
        let addr = self.fetchW();
        let v = self.registers.get_reg(Reg::A);
        self.write(addr, v);
    }

    /// LD (nn), SP: stores SP at the operand address, low byte first.
    #[verifier::rlimit(60)]
    pub fn addr_ld_sp(&mut self)
        requires
            old(self).wf(),
        ensures
            Self::runs(
                *old(self),
                *final(self),
                4,
                old(self).registers,
                wrap16(old(self).pc + 2),
                old(self).sp,
            ),
            quiet(wrap16(old(self).pc + 1))
                && quiet_ram(old(self).operand16())
                && quiet_ram(wrap16(old(self).operand16() + 1)) ==>
                final(self).memory.peek(old(self).operand16()) == (old(self).sp % 256) as u8
                    && final(self).memory.peek(wrap16(old(self).operand16() + 1)) == (old(self).sp / 256) as u8,
    {
        let src = self.sp;
        let addr = self.fetchW();
        self.write(addr, (src % 256) as u8);
        self.write(addr.wrapping_add(1), (src / 256) as u8);
    }

    /// LD (rr), n.
    #[verifier::rlimit(60)]
    pub fn regWaddr_ld_operand(&mut self, dst: RegW)
        requires
            old(self).wf(),
        ensures
            Self::runs(
                *old(self),
                *final(self),
                2,
                old(self).registers,
                wrap16(old(self).pc + 1),
                old(self).sp,
            ),
            quiet_written(
                old(self).memory,
                final(self).memory,
                old(self).registers.reg_w(dst),
                old(self).operand8(),
            ),
    {
        let addr = self.registers.get_regW(dst);
        let v = self.fetch();
        self.write(addr, v);
    }

    /// LD r, (rr): loads a register from the address a pair holds.
    #[verifier::rlimit(60)]
    pub fn reg_ld_regWaddr(&mut self, dst: Reg, src: RegW)
        requires
            old(self).wf(),
        ensures
            Self::runs(
                *old(self),
                *final(self),
                1,
                old(self).registers.with_reg(dst, old(self).bus_value(old(self).registers.reg_w(src))),
                old(self).pc,
                old(self).sp,
            ),
            quiet_same(old(self).memory, final(self).memory),
    {
        let addr = self.registers.get_regW(src);
        let v = self.read(addr);
        self.registers.set_reg(dst, v);
    }

    /// LD A, (nn).
    #[verifier::rlimit(60)]
    pub fn regA_ld_addr(&mut self)
        requires
            old(self).wf(),
        ensures
            quiet(wrap16(old(self).pc + 1)) && quiet(old(self).operand16()) ==>
                final(self).registers == old(self).registers.with_reg(
                    Reg::A,
                    old(self).memory.peek(old(self).operand16()),
                ),
            exists|v: u8| final(self).registers == old(self).registers.with_reg(Reg::A, v),
            Self::runs(
                *old(self),
                *final(self),
                3,
                final(self).registers,
                wrap16(old(self).pc + 2),
                old(self).sp,
            ),
            quiet_same(old(self).memory, final(self).memory),
    {
        let addr = self.fetchW();
        let v = self.read(addr);
        self.registers.set_reg(Reg::A, v);
    }

    /// LDH A, (n): loads A from 0xFF00 plus the operand.
    #[verifier::rlimit(60)]
    pub fn reg_ld_u8ff00(&mut self)
        requires
            old(self).wf(),
        ensures
            quiet((0xFF00 + old(self).operand8()) as u16) ==>
                final(self).registers == old(self).registers.with_reg(
                    Reg::A,
                    old(self).memory.peek((0xFF00 + old(self).operand8()) as u16),
                ),
            exists|v: u8| final(self).registers == old(self).registers.with_reg(Reg::A, v),
            Self::runs(
                *old(self),
                *final(self),
                2,
                final(self).registers,
                wrap16(old(self).pc + 1),
                old(self).sp,
            ),
            quiet_same(old(self).memory, final(self).memory),
    {
        let addr = self.fetch() as u16 + 0xFF00;
        let v = self.read(addr);
        self.registers.set_reg(Reg::A, v);
    }

    /// LDH (n), A: stores A at 0xFF00 plus the operand.
    #[verifier::rlimit(60)]
    pub fn u8ff00_ld_reg(&mut self)
        requires
            old(self).wf(),
        ensures
            Self::runs(
                *old(self),
                *final(self),
                2,
                old(self).registers,
                wrap16(old(self).pc + 1),
                old(self).sp,
            ),
            quiet_written(
                old(self).memory,
                final(self).memory,
                (0xFF00 + old(self).operand8()) as u16,
                old(self).registers.A,
            ),
    {
        let addr = self.fetch() as u16 + 0xFF00;
        let v = self.registers.get_reg(Reg::A);
        self.write(addr, v);
    }

    /// LD A, (C): loads A from 0xFF00 plus C.
    #[verifier::rlimit(60)]
    pub fn reg_ld_regff00(&mut self)
        requires
            old(self).wf(),
        ensures
            Self::runs(
                *old(self),
                *final(self),
                1,
                old(self).registers.with_reg(
                    Reg::A,
                    old(self).bus_value((0xFF00 + old(self).registers.C) as u16),
                ),
                old(self).pc,
                old(self).sp,
            ),
            quiet_same(old(self).memory, final(self).memory),
    {
        let addr = self.registers.get_reg(Reg::C) as u16 + 0xFF00;
        let v = self.read(addr);
        self.registers.set_reg(Reg::A, v);
    }

    /// LD (C), A: stores A at 0xFF00 plus C.
    #[verifier::rlimit(60)]
    pub fn regff00_ld_reg(&mut self)
        requires
            old(self).wf(),
        ensures
            Self::runs(*old(self), *final(self), 1, old(self).registers, old(self).pc, old(self).sp),
            quiet_written(
                old(self).memory,
                final(self).memory,
                (0xFF00 + old(self).registers.C) as u16,
                old(self).registers.A,
            ),
    {
        let addr = self.registers.get_reg(Reg::C) as u16 + 0xFF00;
        let v = self.registers.get_reg(Reg::A);
        self.write(addr, v);
    }

    /// INC r: half-carry out of bit 3, carry kept.
    #[verifier::rlimit(60)]
    pub fn inc_reg(&mut self, dst: Reg)
        requires
            old(self).wf(),
        ensures
            final(self).wf(),
            *final(self) == (CPU {
                registers: old(self).registers.with_reg(dst, wrap8(old(self).registers.reg(dst) + 1)).with_flags(
                    wrap8(old(self).registers.reg(dst) + 1) == 0,
                    false,
                    old(self).registers.reg(dst) % 16 == 15,
                    old(self).registers.flag(Flag::C),
                ),
                ..*old(self)
            }),
    {
        let v = self.registers.get_reg(dst);
        let c = self.registers.get_flag(Flag::C);
        let r = v.wrapping_add(1);
        self.registers.set_reg(dst, r);
        self.registers.set_flags(r == 0, false, v % 16 == 15, c);
    }

    /// INC rr.
    #[verifier::rlimit(60)]
    pub fn inc_regW(&mut self, dst: RegW)
        requires
            old(self).wf(),
        ensures
            Self::runs(
                *old(self),
                *final(self),
                1,
                old(self).registers.with_reg_w(dst, wrap16(old(self).registers.reg_w(dst) + 1)),
                old(self).pc,
                old(self).sp,
            ),
            quiet_same(old(self).memory, final(self).memory),
    {
        let v = self.registers.get_regW(dst).wrapping_add(1);
        self.registers.set_regW(dst, v);
        self.m_cycle();
    }

    /// DEC r: borrow out of bit 4 sets half-carry, carry kept.
    #[verifier::rlimit(60)]
    pub fn dec_reg(&mut self, dst: Reg)
        requires
            old(self).wf(),
        ensures
            final(self).wf(),
            *final(self) == (CPU {
                registers: old(self).registers.with_reg(dst, wrap8(old(self).registers.reg(dst) - 1)).with_flags(
                    wrap8(old(self).registers.reg(dst) - 1) == 0,
                    true,
                    old(self).registers.reg(dst) % 16 == 0,
                    old(self).registers.flag(Flag::C),
                ),
                ..*old(self)
            }),
    {
        let v = self.registers.get_reg(dst);
        let c = self.registers.get_flag(Flag::C);
        let r = v.wrapping_sub(1);
        self.registers.set_reg(dst, r);
        self.registers.set_flags(r == 0, true, v % 16 == 0, c);
    }

    /// DEC rr.
    #[verifier::rlimit(60)]
    pub fn dec_regW(&mut self, dst: RegW)
        requires
            old(self).wf(),
        ensures
            Self::runs(
                *old(self),
                *final(self),
                1,
                old(self).registers.with_reg_w(dst, wrap16(old(self).registers.reg_w(dst) - 1)),
                old(self).pc,
                old(self).sp,
            ),
            quiet_same(old(self).memory, final(self).memory),
    {
        let v = self.registers.get_regW(dst).wrapping_sub(1);
        self.registers.set_regW(dst, v);
        self.m_cycle();
    }

    /// INC (rr): the byte at the address a pair holds, with the flags of INC r.
    #[verifier::rlimit(60)]
    pub fn inc_addr(&mut self, dst: RegW)
        requires
            old(self).wf(),
        ensures
            Self::runs(
                *old(self),
                *final(self),
                2,
                old(self).registers.with_flags(
                    wrap8(old(self).bus_value(old(self).registers.reg_w(dst)) + 1) == 0,
                    false,
                    old(self).bus_value(old(self).registers.reg_w(dst)) % 16 == 15,
                    old(self).registers.flag(Flag::C),
                ),
                old(self).pc,
                old(self).sp,
            ),
            quiet_written(
                old(self).memory,
                final(self).memory,
                old(self).registers.reg_w(dst),
                wrap8(old(self).bus_value(old(self).registers.reg_w(dst)) + 1),
            ),
    {
        let addr = self.registers.get_regW(dst);
        let v = self.read(addr);
        let r = v.wrapping_add(1);
        self.write(addr, r);
        let c = self.registers.get_flag(Flag::C);
        self.registers.set_flags(r == 0, false, v % 16 == 15, c);
    }

    /// DEC (rr): the byte at the address a pair holds, with the flags of DEC r.
    #[verifier::rlimit(60)]
    pub fn dec_addr(&mut self, dst: RegW)
        requires
            old(self).wf(),
        ensures
            Self::runs(
                *old(self),
                *final(self),
                2,
                old(self).registers.with_flags(
                    wrap8(old(self).bus_value(old(self).registers.reg_w(dst)) - 1) == 0,
                    true,
                    old(self).bus_value(old(self).registers.reg_w(dst)) % 16 == 0,
                    old(self).registers.flag(Flag::C),
                ),
                old(self).pc,
                old(self).sp,
            ),
            quiet_written(
                old(self).memory,
                final(self).memory,
                old(self).registers.reg_w(dst),
                wrap8(old(self).bus_value(old(self).registers.reg_w(dst)) - 1),
            ),
    {
        let addr = self.registers.get_regW(dst);
        let v = self.read(addr);
        let r = v.wrapping_sub(1);
        self.write(addr, r);
        let c = self.registers.get_flag(Flag::C);
        self.registers.set_flags(r == 0, true, v % 16 == 0, c);
    }

    /// ADD r, r'.
    #[verifier::rlimit(60)]
    pub fn reg_add_reg(&mut self, dst: Reg, src: Reg)
        requires
            old(self).wf(),
        ensures
            final(self).wf(),
            *final(self) == (CPU {
                registers: alu_regs(old(self).registers, 0, dst, old(self).registers.reg(src)),
                ..*old(self)
            }),
    {
        let v = self.registers.get_reg(src);
        alu(&mut self.registers, 0, dst, v);
    }

    /// ADD r, (rr).
    #[verifier::rlimit(60)]
    pub fn reg_add_regWaddr(&mut self, dst: Reg, src: RegW)
        requires
            old(self).wf(),
        ensures
            Self::runs(
                *old(self),
                *final(self),
                1,
                alu_regs(old(self).registers, 0, dst, old(self).bus_value(old(self).registers.reg_w(src))),
                old(self).pc,
                old(self).sp,
            ),
            quiet_same(old(self).memory, final(self).memory),
    {
        let addr = self.registers.get_regW(src);
        let v = self.read(addr);
        alu(&mut self.registers, 0, dst, v);
    }

    /// ADD r, n.
    #[verifier::rlimit(60)]
    pub fn reg_add_operand(&mut self, dst: Reg)
        requires
            old(self).wf(),
        ensures
            Self::runs(
                *old(self),
                *final(self),
                1,
                alu_regs(old(self).registers, 0, dst, old(self).operand8()),
                wrap16(old(self).pc + 1),
                old(self).sp,
            ),
            quiet_same(old(self).memory, final(self).memory),
    {
        let v = self.fetch();
        alu(&mut self.registers, 0, dst, v);
    }

    /// ADC r, r'.
    #[verifier::rlimit(60)]
    pub fn reg_adc_reg(&mut self, dst: Reg, src: Reg)
        requires
            old(self).wf(),
        ensures
            final(self).wf(),
            *final(self) == (CPU {
                registers: alu_regs(old(self).registers, 1, dst, old(self).registers.reg(src)),
                ..*old(self)
            }),
    {
        let v = self.registers.get_reg(src);
        alu(&mut self.registers, 1, dst, v);
    }

    /// ADC r, (rr).
    #[verifier::rlimit(60)]
    pub fn reg_adc_regWaddr(&mut self, dst: Reg, src: RegW)
        requires
            old(self).wf(),
        ensures
            Self::runs(
                *old(self),
                *final(self),
                1,
                alu_regs(old(self).registers, 1, dst, old(self).bus_value(old(self).registers.reg_w(src))),
                old(self).pc,
                old(self).sp,
            ),
            quiet_same(old(self).memory, final(self).memory),
    {
        let addr = self.registers.get_regW(src);
        let v = self.read(addr);
        alu(&mut self.registers, 1, dst, v);
    }

    /// ADC r, n.
    #[verifier::rlimit(60)]
    pub fn reg_adc_operand(&mut self, dst: Reg)
        requires
            old(self).wf(),
        ensures
            Self::runs(
                *old(self),
                *final(self),
                1,
                alu_regs(old(self).registers, 1, dst, old(self).operand8()),
                wrap16(old(self).pc + 1),
                old(self).sp,
            ),
            quiet_same(old(self).memory, final(self).memory),
    {
        let v = self.fetch();
        alu(&mut self.registers, 1, dst, v);
    }

    /// SUB r, r'.
    #[verifier::rlimit(60)]
    pub fn reg_sub_reg(&mut self, dst: Reg, src: Reg)
        requires
            old(self).wf(),
        ensures
            final(self).wf(),
            *final(self) == (CPU {
                registers: alu_regs(old(self).registers, 2, dst, old(self).registers.reg(src)),
                ..*old(self)
            }),
    {
        let v = self.registers.get_reg(src);
        alu(&mut self.registers, 2, dst, v);
    }

    /// SUB r, (rr).
    #[verifier::rlimit(60)]
    pub fn reg_sub_regWaddr(&mut self, dst: Reg, src: RegW)
        requires
            old(self).wf(),
        ensures
            Self::runs(
                *old(self),
                *final(self),
                1,
                alu_regs(old(self).registers, 2, dst, old(self).bus_value(old(self).registers.reg_w(src))),
                old(self).pc,
                old(self).sp,
            ),
            quiet_same(old(self).memory, final(self).memory),
    {
        let addr = self.registers.get_regW(src);
        let v = self.read(addr);
        alu(&mut self.registers, 2, dst, v);
    }

    /// SUB r, n.
    #[verifier::rlimit(60)]
    pub fn reg_sub_operand(&mut self, dst: Reg)
        requires
            old(self).wf(),
        ensures
            Self::runs(
                *old(self),
                *final(self),
                1,
                alu_regs(old(self).registers, 2, dst, old(self).operand8()),
                wrap16(old(self).pc + 1),
                old(self).sp,
            ),
            quiet_same(old(self).memory, final(self).memory),
    {
        let v = self.fetch();
        alu(&mut self.registers, 2, dst, v);
    }

    /// SBC r, r'.
    #[verifier::rlimit(60)]
    pub fn reg_sbc_reg(&mut self, dst: Reg, src: Reg)
        requires
            old(self).wf(),
        ensures
            final(self).wf(),
            *final(self) == (CPU {
                registers: alu_regs(old(self).registers, 3, dst, old(self).registers.reg(src)),
                ..*old(self)
            }),
    {
        let v = self.registers.get_reg(src);
        alu(&mut self.registers, 3, dst, v);
    }

    /// SBC r, (rr).
    #[verifier::rlimit(60)]
    pub fn reg_sbc_regWaddr(&mut self, dst: Reg, src: RegW)
        requires
            old(self).wf(),
        ensures
            Self::runs(
                *old(self),
                *final(self),
                1,
                alu_regs(old(self).registers, 3, dst, old(self).bus_value(old(self).registers.reg_w(src))),
                old(self).pc,
                old(self).sp,
            ),
            quiet_same(old(self).memory, final(self).memory),
    {
        let addr = self.registers.get_regW(src);
        let v = self.read(addr);
        alu(&mut self.registers, 3, dst, v);
    }

    /// SBC r, n.
    #[verifier::rlimit(60)]
    pub fn reg_sbc_operand(&mut self, dst: Reg)
        requires
            old(self).wf(),
        ensures
            Self::runs(
                *old(self),
                *final(self),
                1,
                alu_regs(old(self).registers, 3, dst, old(self).operand8()),
                wrap16(old(self).pc + 1),
                old(self).sp,
            ),
            quiet_same(old(self).memory, final(self).memory),
    {
        let v = self.fetch();
        alu(&mut self.registers, 3, dst, v);
    }

    /// AND r, r'.
    #[verifier::rlimit(60)]
    pub fn reg_and_reg(&mut self, dst: Reg, src: Reg)
        requires
            old(self).wf(),
        ensures
            final(self).wf(),
            *final(self) == (CPU {
                registers: alu_regs(old(self).registers, 4, dst, old(self).registers.reg(src)),
                ..*old(self)
            }),
    {
        let v = self.registers.get_reg(src);
        alu(&mut self.registers, 4, dst, v);
    }

    /// AND r, (rr).
    #[verifier::rlimit(60)]
    pub fn reg_and_regWaddr(&mut self, dst: Reg, src: RegW)
        requires
            old(self).wf(),
        ensures
            Self::runs(
                *old(self),
                *final(self),
                1,
                alu_regs(old(self).registers, 4, dst, old(self).bus_value(old(self).registers.reg_w(src))),
                old(self).pc,
                old(self).sp,
            ),
            quiet_same(old(self).memory, final(self).memory),
    {
        let addr = self.registers.get_regW(src);
        let v = self.read(addr);
        alu(&mut self.registers, 4, dst, v);
    }

    /// AND r, n.
    #[verifier::rlimit(60)]
    pub fn reg_and_operand(&mut self, dst: Reg)
        requires
            old(self).wf(),
        ensures
            Self::runs(
                *old(self),
                *final(self),
                1,
                alu_regs(old(self).registers, 4, dst, old(self).operand8()),
                wrap16(old(self).pc + 1),
                old(self).sp,
            ),
            quiet_same(old(self).memory, final(self).memory),
    {
        let v = self.fetch();
        alu(&mut self.registers, 4, dst, v);
    }

    /// XOR r, r'.
    #[verifier::rlimit(60)]
    pub fn reg_xor_reg(&mut self, dst: Reg, src: Reg)
        requires
            old(self).wf(),
        ensures
            final(self).wf(),
            *final(self) == (CPU {
                registers: alu_regs(old(self).registers, 5, dst, old(self).registers.reg(src)),
                ..*old(self)
            }),
    {
        let v = self.registers.get_reg(src);
        alu(&mut self.registers, 5, dst, v);
    }

    /// XOR r, (rr).
    #[verifier::rlimit(60)]
    pub fn reg_xor_regWaddr(&mut self, dst: Reg, src: RegW)
        requires
            old(self).wf(),
        ensures
            Self::runs(
                *old(self),
                *final(self),
                1,
                alu_regs(old(self).registers, 5, dst, old(self).bus_value(old(self).registers.reg_w(src))),
                old(self).pc,
                old(self).sp,
            ),
            quiet_same(old(self).memory, final(self).memory),
    {
        let addr = self.registers.get_regW(src);
        let v = self.read(addr);
        alu(&mut self.registers, 5, dst, v);
    }

    /// XOR r, n.
    #[verifier::rlimit(60)]
    pub fn reg_xor_operand(&mut self, dst: Reg)
        requires
            old(self).wf(),
        ensures
            Self::runs(
                *old(self),
                *final(self),
                1,
                alu_regs(old(self).registers, 5, dst, old(self).operand8()),
                wrap16(old(self).pc + 1),
                old(self).sp,
            ),
            quiet_same(old(self).memory, final(self).memory),
    {
        let v = self.fetch();
        alu(&mut self.registers, 5, dst, v);
    }

    /// OR r, r'.
    #[verifier::rlimit(60)]
    pub fn reg_or_reg(&mut self, dst: Reg, src: Reg)
        requires
            old(self).wf(),
        ensures
            final(self).wf(),
            *final(self) == (CPU {
                registers: alu_regs(old(self).registers, 6, dst, old(self).registers.reg(src)),
                ..*old(self)
            }),
    {
        let v = self.registers.get_reg(src);
        alu(&mut self.registers, 6, dst, v);
    }

    /// OR r, (rr).
    #[verifier::rlimit(60)]
    pub fn reg_or_regWaddr(&mut self, dst: Reg, src: RegW)
        requires
            old(self).wf(),
        ensures
            Self::runs(
                *old(self),
                *final(self),
                1,
                alu_regs(old(self).registers, 6, dst, old(self).bus_value(old(self).registers.reg_w(src))),
                old(self).pc,
                old(self).sp,
            ),
            quiet_same(old(self).memory, final(self).memory),
    {
        let addr = self.registers.get_regW(src);
        let v = self.read(addr);
        alu(&mut self.registers, 6, dst, v);
    }

    /// OR r, n.
    #[verifier::rlimit(60)]
    pub fn reg_or_operand(&mut self, dst: Reg)
        requires
            old(self).wf(),
        ensures
            Self::runs(
                *old(self),
                *final(self),
                1,
                alu_regs(old(self).registers, 6, dst, old(self).operand8()),
                wrap16(old(self).pc + 1),
                old(self).sp,
            ),
            quiet_same(old(self).memory, final(self).memory),
    {
        let v = self.fetch();
        alu(&mut self.registers, 6, dst, v);
    }

    /// CP r, r'.
    #[verifier::rlimit(60)]
    pub fn reg_cp_reg(&mut self, dst: Reg, src: Reg)
        requires
            old(self).wf(),
        ensures
            final(self).wf(),
            *final(self) == (CPU {
                registers: alu_regs(old(self).registers, 7, dst, old(self).registers.reg(src)),
                ..*old(self)
            }),
    {
        let v = self.registers.get_reg(src);
        alu(&mut self.registers, 7, dst, v);
    }

    /// CP r, (rr).
    #[verifier::rlimit(60)]
    pub fn reg_cp_regWaddr(&mut self, dst: Reg, src: RegW)
        requires
            old(self).wf(),
        ensures
            Self::runs(
                *old(self),
                *final(self),
                1,
                alu_regs(old(self).registers, 7, dst, old(self).bus_value(old(self).registers.reg_w(src))),
                old(self).pc,
                old(self).sp,
            ),
            quiet_same(old(self).memory, final(self).memory),
    {
        let addr = self.registers.get_regW(src);
        let v = self.read(addr);
        alu(&mut self.registers, 7, dst, v);
    }

    /// CP r, n.
    #[verifier::rlimit(60)]
    pub fn reg_cp_operand(&mut self, dst: Reg)
        requires
            old(self).wf(),
        ensures
            Self::runs(
                *old(self),
                *final(self),
                1,
                alu_regs(old(self).registers, 7, dst, old(self).operand8()),
                wrap16(old(self).pc + 1),
                old(self).sp,
            ),
            quiet_same(old(self).memory, final(self).memory),
    {
        let v = self.fetch();
        alu(&mut self.registers, 7, dst, v);
    }

    /// ADD rr, rr': zero flag kept.
    #[verifier::rlimit(60)]
    pub fn regW_add_regW(&mut self, dst: RegW, src: RegW)
        requires
            old(self).wf(),
        ensures
            Self::runs(
                *old(self),
                *final(self),
                1,
                old(self).registers.with_reg_w(dst, wrap16(old(self).registers.reg_w(dst) + old(self).registers.reg_w(src))).with_flags(
                    old(self).registers.with_reg_w(dst, wrap16(old(self).registers.reg_w(dst) + old(self).registers.reg_w(src))).flag(Flag::Z),
                    false,
                    add16_flags(old(self).registers.reg_w(dst), old(self).registers.reg_w(src)).0,
                    add16_flags(old(self).registers.reg_w(dst), old(self).registers.reg_w(src)).1,
                ),
                old(self).pc,
                old(self).sp,
            ),
            quiet_same(old(self).memory, final(self).memory),
    {
        let b = self.registers.get_regW(src);
        let a = self.registers.get_regW(dst);
        self.m_cycle();
        sum16(&mut self.registers, dst, a, b);
    }

    /// ADD rr, SP: zero flag kept.
    #[verifier::rlimit(60)]
    pub fn regW_add_sp(&mut self, dst: RegW)
        requires
            old(self).wf(),
        ensures
            Self::runs(
                *old(self),
                *final(self),
                1,
                old(self).registers.with_reg_w(dst, wrap16(old(self).registers.reg_w(dst) + old(self).sp)).with_flags(
                    old(self).registers.with_reg_w(dst, wrap16(old(self).registers.reg_w(dst) + old(self).sp)).flag(Flag::Z),
                    false,
                    add16_flags(old(self).registers.reg_w(dst), old(self).sp).0,
                    add16_flags(old(self).registers.reg_w(dst), old(self).sp).1,
                ),
                old(self).pc,
                old(self).sp,
            ),
            quiet_same(old(self).memory, final(self).memory),
    {
        let a = self.registers.get_regW(dst);
        let b = self.sp;
        self.m_cycle();
        sum16(&mut self.registers, dst, a, b);
    }

    /// ADD SP, e: adds a signed operand to SP, flags from the low-byte addition.
    #[verifier::spinoff_prover]
    #[verifier::rlimit(100)]
    pub fn sp_add_operand(&mut self)
        requires
            old(self).wf(),
        ensures
            Self::runs(
                *old(self),
                *final(self),
                3,
                old(self).registers.with_flags(
                    false,
                    false,
                    sp_offset(old(self).sp, old(self).operand8()).1,
                    sp_offset(old(self).sp, old(self).operand8()).2,
                ),
                wrap16(old(self).pc + 1),
                sp_offset(old(self).sp, old(self).operand8()).0,
            ),
            quiet_same(old(self).memory, final(self).memory),
    {
        let e = self.fetch();
        let (sum, h, c) = offset_sp(self.sp, e);
        self.sp = sum;
        self.m_cycle();
        self.m_cycle();
        self.registers.set_flags(false, false, h, c);
    }

    /// POP rr.
    #[verifier::rlimit(60)]
    pub fn regW_pop_sp(&mut self, dst: RegW)
        requires
            old(self).wf(),
        ensures
            quiet(old(self).sp) && quiet(wrap16(old(self).sp + 1)) ==>
                final(self).registers == old(self).registers.with_reg_w(
                    dst,
                    word(
                        old(self).memory.peek(wrap16(old(self).sp + 1)),
                        old(self).memory.peek(old(self).sp),
                    ),
                ),
            exists|v: u16| final(self).registers == old(self).registers.with_reg_w(dst, v),
            Self::runs(
                *old(self),
                *final(self),
                2,
                final(self).registers,
                old(self).pc,
                wrap16(old(self).sp + 2),
            ),
            quiet_same(old(self).memory, final(self).memory),
    {
        let v = self.stack_pop();
        self.registers.set_regW(dst, v);
    }

    /// PUSH rr: one internal cycle, then the pair goes on the stack.
    #[verifier::rlimit(60)]
    pub fn regW_push_sp(&mut self, src: RegW)
        requires
            old(self).wf(),
        ensures
            Self::pushed(*old(self), *final(self), old(self).registers.reg_w(src)),
            Self::runs(
                *old(self),
                *final(self),
                3,
                old(self).registers,
                old(self).pc,
                wrap16(old(self).sp - 2),
            ),
    {
        let v = self.registers.get_regW(src);
        self.m_cycle();
        self.stack_push(v);
    }

    /// RLC r.
    #[verifier::rlimit(60)]
    pub fn rlc(&mut self, dst: Reg)
        requires
            old(self).wf(),
        ensures
            final(self).wf(),
            *final(self) == (CPU {
                registers: old(self).registers.with_reg(dst, shift_result(0, old(self).registers.reg(dst), old(self).registers.flag(Flag::C))).with_flags(
                    shift_result(0, old(self).registers.reg(dst), old(self).registers.flag(Flag::C)) == 0,
                    false,
                    false,
                    shift_carry(0, old(self).registers.reg(dst)),
                ),
                ..*old(self)
            }),
    {
        self.shift_reg(0, dst);
    }

    /// RLC (HL).
    #[verifier::rlimit(60)]
    pub fn rlc_hl(&mut self)
        requires
            old(self).wf(),
        ensures
            Self::runs(
                *old(self),
                *final(self),
                2,
                old(self).registers.with_flags(
                    shift_result(0, old(self).bus_value(old(self).registers.reg_w(RegW::HL)), old(self).registers.flag(Flag::C)) == 0,
                    false,
                    false,
                    shift_carry(0, old(self).bus_value(old(self).registers.reg_w(RegW::HL))),
                ),
                old(self).pc,
                old(self).sp,
            ),
            quiet_written(
                old(self).memory,
                final(self).memory,
                old(self).registers.reg_w(RegW::HL),
                shift_result(
                    0,
                    old(self).bus_value(old(self).registers.reg_w(RegW::HL)),
                    old(self).registers.flag(Flag::C),
                ),
            ),
    {
        self.shift_hl(0);
    }

    /// RRC r.
    #[verifier::rlimit(60)]
    pub fn rrc(&mut self, dst: Reg)
        requires
            old(self).wf(),
        ensures
            final(self).wf(),
            *final(self) == (CPU {
                registers: old(self).registers.with_reg(dst, shift_result(1, old(self).registers.reg(dst), old(self).registers.flag(Flag::C))).with_flags(
                    shift_result(1, old(self).registers.reg(dst), old(self).registers.flag(Flag::C)) == 0,
                    false,
                    false,
                    shift_carry(1, old(self).registers.reg(dst)),
                ),
                ..*old(self)
            }),
    {
        self.shift_reg(1, dst);
    }

    /// RRC (HL).
    #[verifier::rlimit(60)]
    pub fn rrc_hl(&mut self)
        requires
            old(self).wf(),
        ensures
            Self::runs(
                *old(self),
                *final(self),
                2,
                old(self).registers.with_flags(
                    shift_result(1, old(self).bus_value(old(self).registers.reg_w(RegW::HL)), old(self).registers.flag(Flag::C)) == 0,
                    false,
                    false,
                    shift_carry(1, old(self).bus_value(old(self).registers.reg_w(RegW::HL))),
                ),
                old(self).pc,
                old(self).sp,
            ),
            quiet_written(
                old(self).memory,
                final(self).memory,
                old(self).registers.reg_w(RegW::HL),
                shift_result(
                    1,
                    old(self).bus_value(old(self).registers.reg_w(RegW::HL)),
                    old(self).registers.flag(Flag::C),
                ),
            ),
    {
        self.shift_hl(1);
    }

    /// RL r.
    #[verifier::rlimit(60)]
    pub fn rl(&mut self, dst: Reg)
        requires
            old(self).wf(),
        ensures
            final(self).wf(),
            *final(self) == (CPU {
                registers: old(self).registers.with_reg(dst, shift_result(2, old(self).registers.reg(dst), old(self).registers.flag(Flag::C))).with_flags(
                    shift_result(2, old(self).registers.reg(dst), old(self).registers.flag(Flag::C)) == 0,
                    false,
                    false,
                    shift_carry(2, old(self).registers.reg(dst)),
                ),
                ..*old(self)
            }),
    {
        self.shift_reg(2, dst);
    }

    /// RL (HL).
    #[verifier::rlimit(60)]
    pub fn rl_hl(&mut self)
        requires
            old(self).wf(),
        ensures
            Self::runs(
                *old(self),
                *final(self),
                2,
                old(self).registers.with_flags(
                    shift_result(2, old(self).bus_value(old(self).registers.reg_w(RegW::HL)), old(self).registers.flag(Flag::C)) == 0,
                    false,
                    false,
                    shift_carry(2, old(self).bus_value(old(self).registers.reg_w(RegW::HL))),
                ),
                old(self).pc,
                old(self).sp,
            ),
            quiet_written(
                old(self).memory,
                final(self).memory,
                old(self).registers.reg_w(RegW::HL),
                shift_result(
                    2,
                    old(self).bus_value(old(self).registers.reg_w(RegW::HL)),
                    old(self).registers.flag(Flag::C),
                ),
            ),
    {
        self.shift_hl(2);
    }

    /// RR r.
    #[verifier::rlimit(60)]
    pub fn rr(&mut self, dst: Reg)
        requires
            old(self).wf(),
        ensures
            final(self).wf(),
            *final(self) == (CPU {
                registers: old(self).registers.with_reg(dst, shift_result(3, old(self).registers.reg(dst), old(self).registers.flag(Flag::C))).with_flags(
                    shift_result(3, old(self).registers.reg(dst), old(self).registers.flag(Flag::C)) == 0,
                    false,
                    false,
                    shift_carry(3, old(self).registers.reg(dst)),
                ),
                ..*old(self)
            }),
    {
        self.shift_reg(3, dst);
    }

    /// RR (HL).
    #[verifier::rlimit(60)]
    pub fn rr_hl(&mut self)
        requires
            old(self).wf(),
        ensures
            Self::runs(
                *old(self),
                *final(self),
                2,
                old(self).registers.with_flags(
                    shift_result(3, old(self).bus_value(old(self).registers.reg_w(RegW::HL)), old(self).registers.flag(Flag::C)) == 0,
                    false,
                    false,
                    shift_carry(3, old(self).bus_value(old(self).registers.reg_w(RegW::HL))),
                ),
                old(self).pc,
                old(self).sp,
            ),
            quiet_written(
                old(self).memory,
                final(self).memory,
                old(self).registers.reg_w(RegW::HL),
                shift_result(
                    3,
                    old(self).bus_value(old(self).registers.reg_w(RegW::HL)),
                    old(self).registers.flag(Flag::C),
                ),
            ),
    {
        self.shift_hl(3);
    }

    /// SLA r.
    #[verifier::rlimit(60)]
    pub fn sla(&mut self, dst: Reg)
        requires
            old(self).wf(),
        ensures
            final(self).wf(),
            *final(self) == (CPU {
                registers: old(self).registers.with_reg(dst, shift_result(4, old(self).registers.reg(dst), old(self).registers.flag(Flag::C))).with_flags(
                    shift_result(4, old(self).registers.reg(dst), old(self).registers.flag(Flag::C)) == 0,
                    false,
                    false,
                    shift_carry(4, old(self).registers.reg(dst)),
                ),
                ..*old(self)
            }),
    {
        self.shift_reg(4, dst);
    }

    /// SLA (HL).
    #[verifier::rlimit(60)]
    pub fn sla_hl(&mut self)
        requires
            old(self).wf(),
        ensures
            Self::runs(
                *old(self),
                *final(self),
                2,
                old(self).registers.with_flags(
                    shift_result(4, old(self).bus_value(old(self).registers.reg_w(RegW::HL)), old(self).registers.flag(Flag::C)) == 0,
                    false,
                    false,
                    shift_carry(4, old(self).bus_value(old(self).registers.reg_w(RegW::HL))),
                ),
                old(self).pc,
                old(self).sp,
            ),
            quiet_written(
                old(self).memory,
                final(self).memory,
                old(self).registers.reg_w(RegW::HL),
                shift_result(
                    4,
                    old(self).bus_value(old(self).registers.reg_w(RegW::HL)),
                    old(self).registers.flag(Flag::C),
                ),
            ),
    {
        self.shift_hl(4);
    }

    /// SRA r.
    #[verifier::rlimit(60)]
    pub fn sra(&mut self, dst: Reg)
        requires
            old(self).wf(),
        ensures
            final(self).wf(),
            *final(self) == (CPU {
                registers: old(self).registers.with_reg(dst, shift_result(5, old(self).registers.reg(dst), old(self).registers.flag(Flag::C))).with_flags(
                    shift_result(5, old(self).registers.reg(dst), old(self).registers.flag(Flag::C)) == 0,
                    false,
                    false,
                    shift_carry(5, old(self).registers.reg(dst)),
                ),
                ..*old(self)
            }),
    {
        self.shift_reg(5, dst);
    }

    /// SRA (HL).
    #[verifier::rlimit(60)]
    pub fn sra_hl(&mut self)
        requires
            old(self).wf(),
        ensures
            Self::runs(
                *old(self),
                *final(self),
                2,
                old(self).registers.with_flags(
                    shift_result(5, old(self).bus_value(old(self).registers.reg_w(RegW::HL)), old(self).registers.flag(Flag::C)) == 0,
                    false,
                    false,
                    shift_carry(5, old(self).bus_value(old(self).registers.reg_w(RegW::HL))),
                ),
                old(self).pc,
                old(self).sp,
            ),
            quiet_written(
                old(self).memory,
                final(self).memory,
                old(self).registers.reg_w(RegW::HL),
                shift_result(
                    5,
                    old(self).bus_value(old(self).registers.reg_w(RegW::HL)),
                    old(self).registers.flag(Flag::C),
                ),
            ),
    {
        self.shift_hl(5);
    }

    /// SWAP r.
    #[verifier::rlimit(60)]
    pub fn swap(&mut self, dst: Reg)
        requires
            old(self).wf(),
        ensures
            final(self).wf(),
            *final(self) == (CPU {
                registers: old(self).registers.with_reg(dst, shift_result(6, old(self).registers.reg(dst), old(self).registers.flag(Flag::C))).with_flags(
                    shift_result(6, old(self).registers.reg(dst), old(self).registers.flag(Flag::C)) == 0,
                    false,
                    false,
                    shift_carry(6, old(self).registers.reg(dst)),
                ),
                ..*old(self)
            }),
    {
        self.shift_reg(6, dst);
    }

    /// SWAP (HL).
    #[verifier::rlimit(60)]
    pub fn swap_hl(&mut self)
        requires
            old(self).wf(),
        ensures
            Self::runs(
                *old(self),
                *final(self),
                2,
                old(self).registers.with_flags(
                    shift_result(6, old(self).bus_value(old(self).registers.reg_w(RegW::HL)), old(self).registers.flag(Flag::C)) == 0,
                    false,
                    false,
                    shift_carry(6, old(self).bus_value(old(self).registers.reg_w(RegW::HL))),
                ),
                old(self).pc,
                old(self).sp,
            ),
            quiet_written(
                old(self).memory,
                final(self).memory,
                old(self).registers.reg_w(RegW::HL),
                shift_result(
                    6,
                    old(self).bus_value(old(self).registers.reg_w(RegW::HL)),
                    old(self).registers.flag(Flag::C),
                ),
            ),
    {
        self.shift_hl(6);
    }

    /// SRL r.
    #[verifier::rlimit(60)]
    pub fn srl(&mut self, dst: Reg)
        requires
            old(self).wf(),
        ensures
            final(self).wf(),
            *final(self) == (CPU {
                registers: old(self).registers.with_reg(dst, shift_result(7, old(self).registers.reg(dst), old(self).registers.flag(Flag::C))).with_flags(
                    shift_result(7, old(self).registers.reg(dst), old(self).registers.flag(Flag::C)) == 0,
                    false,
                    false,
                    shift_carry(7, old(self).registers.reg(dst)),
                ),
                ..*old(self)
            }),
    {
        self.shift_reg(7, dst);
    }

    /// SRL (HL).
    #[verifier::rlimit(60)]
    pub fn srl_hl(&mut self)
        requires
            old(self).wf(),
        ensures
            Self::runs(
                *old(self),
                *final(self),
                2,
                old(self).registers.with_flags(
                    shift_result(7, old(self).bus_value(old(self).registers.reg_w(RegW::HL)), old(self).registers.flag(Flag::C)) == 0,
                    false,
                    false,
                    shift_carry(7, old(self).bus_value(old(self).registers.reg_w(RegW::HL))),
                ),
                old(self).pc,
                old(self).sp,
            ),
            quiet_written(
                old(self).memory,
                final(self).memory,
                old(self).registers.reg_w(RegW::HL),
                shift_result(
                    7,
                    old(self).bus_value(old(self).registers.reg_w(RegW::HL)),
                    old(self).registers.flag(Flag::C),
                ),
            ),
    {
        self.shift_hl(7);
    }

    /// RLCA: rotates A; the zero flag is always cleared.
    #[verifier::rlimit(60)]
    pub fn rlca(&mut self)
        requires
            old(self).wf(),
        ensures
            final(self).wf(),
            *final(self) == (CPU {
                registers: old(self).registers.with_reg(Reg::A, shift_result(0, old(self).registers.A, old(self).registers.flag(Flag::C))).with_flags(
                    false,
                    false,
                    false,
                    shift_carry(0, old(self).registers.A),
                ),
                ..*old(self)
            }),
    {
        let v = self.registers.get_reg(Reg::A);
        let c = self.registers.get_flag(Flag::C);
        let (r, out) = shift(0, v, c);
        self.registers.set_reg(Reg::A, r);
        self.registers.set_flags(false, false, false, out);
    }

    /// RLA: rotates A; the zero flag is always cleared.
    #[verifier::rlimit(60)]
    pub fn rla(&mut self)
        requires
            old(self).wf(),
        ensures
            final(self).wf(),
            *final(self) == (CPU {
                registers: old(self).registers.with_reg(Reg::A, shift_result(2, old(self).registers.A, old(self).registers.flag(Flag::C))).with_flags(
                    false,
                    false,
                    false,
                    shift_carry(2, old(self).registers.A),
                ),
                ..*old(self)
            }),
    {
        let v = self.registers.get_reg(Reg::A);
        let c = self.registers.get_flag(Flag::C);
        let (r, out) = shift(2, v, c);
        self.registers.set_reg(Reg::A, r);
        self.registers.set_flags(false, false, false, out);
    }

    /// RRCA: rotates A; the zero flag is always cleared.
    #[verifier::rlimit(60)]
    pub fn rrca(&mut self)
        requires
            old(self).wf(),
        ensures
            final(self).wf(),
            *final(self) == (CPU {
                registers: old(self).registers.with_reg(Reg::A, shift_result(1, old(self).registers.A, old(self).registers.flag(Flag::C))).with_flags(
                    false,
                    false,
                    false,
                    shift_carry(1, old(self).registers.A),
                ),
                ..*old(self)
            }),
    {
        let v = self.registers.get_reg(Reg::A);
        let c = self.registers.get_flag(Flag::C);
        let (r, out) = shift(1, v, c);
        self.registers.set_reg(Reg::A, r);
        self.registers.set_flags(false, false, false, out);
    }

    /// RRA: rotates A; the zero flag is always cleared.
    #[verifier::rlimit(60)]
    pub fn rra(&mut self)
        requires
            old(self).wf(),
        ensures
            final(self).wf(),
            *final(self) == (CPU {
                registers: old(self).registers.with_reg(Reg::A, shift_result(3, old(self).registers.A, old(self).registers.flag(Flag::C))).with_flags(
                    false,
                    false,
                    false,
                    shift_carry(3, old(self).registers.A),
                ),
                ..*old(self)
            }),
    {
        let v = self.registers.get_reg(Reg::A);
        let c = self.registers.get_flag(Flag::C);
        let (r, out) = shift(3, v, c);
        self.registers.set_reg(Reg::A, r);
        self.registers.set_flags(false, false, false, out);
    }

    /// BIT b, r: zero flag set when the bit is clear; carry kept.
    #[verifier::rlimit(60)]
    pub fn bit(&mut self, pos: u8, dst: Reg)
        requires
            old(self).wf(),
            pos < 8,
        ensures
            final(self).wf(),
            *final(self) == (CPU {
                registers: old(self).registers.with_flags(
                    (old(self).registers.reg(dst) >> pos) % 2 == 0,
                    false,
                    true,
                    old(self).registers.flag(Flag::C),
                ),
                ..*old(self)
            }),
    {
        let v = self.registers.get_reg(dst);
        let c = self.registers.get_flag(Flag::C);
        self.registers.set_flags((v >> pos) % 2 == 0, false, true, c);
    }

    /// BIT b, (HL).
    #[verifier::rlimit(60)]
    pub fn bit_hl(&mut self, pos: u8)
        requires
            old(self).wf(),
            pos < 8,
        ensures
            Self::runs(
                *old(self),
                *final(self),
                1,
                old(self).registers.with_flags(
                    (old(self).bus_value(old(self).registers.reg_w(RegW::HL)) >> pos) % 2 == 0,
                    false,
                    true,
                    old(self).registers.flag(Flag::C),
                ),
                old(self).pc,
                old(self).sp,
            ),
            quiet_same(old(self).memory, final(self).memory),
    {
        let addr = self.registers.get_regW(RegW::HL);
        let v = self.read(addr);
        let c = self.registers.get_flag(Flag::C);
        self.registers.set_flags((v >> pos) % 2 == 0, false, true, c);
    }

    /// RES b, r: clears one bit.
    #[verifier::rlimit(60)]
    pub fn res(&mut self, pos: u8, dst: Reg)
        requires
            old(self).wf(),
            pos < 8,
        ensures
            final(self).wf(),
            *final(self) == (CPU {
                registers: old(self).registers.with_reg(dst, old(self).registers.reg(dst) & !(1u8 << pos)),
                ..*old(self)
            }),
    {
        let v = self.registers.get_reg(dst);
        self.registers.set_reg(dst, v & !(1u8 << pos));
    }

    /// RES b, (HL).
    #[verifier::rlimit(60)]
    pub fn res_hl(&mut self, pos: u8)
        requires
            old(self).wf(),
            pos < 8,
        ensures
            Self::runs(*old(self), *final(self), 2, old(self).registers, old(self).pc, old(self).sp),
            quiet_written(
                old(self).memory,
                final(self).memory,
                old(self).registers.reg_w(RegW::HL),
                old(self).bus_value(old(self).registers.reg_w(RegW::HL)) & !(1u8 << pos),
            ),
    {
        let addr = self.registers.get_regW(RegW::HL);
        let v = self.read(addr);
        self.write(addr, v & !(1u8 << pos));
    }

    /// SET b, r: sets one bit.
    #[verifier::rlimit(60)]
    pub fn set(&mut self, pos: u8, dst: Reg)
        requires
            old(self).wf(),
            pos < 8,
        ensures
            final(self).wf(),
            *final(self) == (CPU {
                registers: old(self).registers.with_reg(dst, old(self).registers.reg(dst) | (1u8 << pos)),
                ..*old(self)
            }),
    {
        let v = self.registers.get_reg(dst);
        self.registers.set_reg(dst, v | (1u8 << pos));
    }

    /// SET b, (HL).
    #[verifier::rlimit(60)]
    pub fn set_hl(&mut self, pos: u8)
        requires
            old(self).wf(),
            pos < 8,
        ensures
            Self::runs(*old(self), *final(self), 2, old(self).registers, old(self).pc, old(self).sp),
            quiet_written(
                old(self).memory,
                final(self).memory,
                old(self).registers.reg_w(RegW::HL),
                old(self).bus_value(old(self).registers.reg_w(RegW::HL)) | (1u8 << pos),
            ),
    {
        let addr = self.registers.get_regW(RegW::HL);
        let v = self.read(addr);
        self.write(addr, v | (1u8 << pos));
    }

    /// CPL: complements A; zero and carry kept.
    #[verifier::rlimit(60)]
    pub fn cpl(&mut self)
        requires
            old(self).wf(),
        ensures
            final(self).wf(),
            *final(self) == (CPU {
                registers: old(self).registers.with_reg(Reg::A, (255 - old(self).registers.A) as u8).with_flags(
                    old(self).registers.flag(Flag::Z),
                    true,
                    true,
                    old(self).registers.flag(Flag::C),
                ),
                ..*old(self)
            }),
    {
        let v = self.registers.get_reg(Reg::A);
        let z = self.registers.get_flag(Flag::Z);
        let c = self.registers.get_flag(Flag::C);
        self.registers.set_reg(Reg::A, 255 - v);
        self.registers.set_flags(z, true, true, c);
    }

    /// CCF: complements the carry.
    #[verifier::rlimit(60)]
    pub fn ccf(&mut self)
        requires
            old(self).wf(),
        ensures
            final(self).wf(),
            *final(self) == (CPU {
                registers: old(self).registers.with_flags(
                    old(self).registers.flag(Flag::Z),
                    false,
                    false,
                    !old(self).registers.flag(Flag::C),
                ),
                ..*old(self)
            }),
    {
        let z = self.registers.get_flag(Flag::Z);
        let c = self.registers.get_flag(Flag::C);
        self.registers.set_flags(z, false, false, !c);
    }

    /// SCF: sets the carry.
    #[verifier::rlimit(60)]
    pub fn scf(&mut self)
        requires
            old(self).wf(),
        ensures
            final(self).wf(),
            *final(self) == (CPU {
                registers: old(self).registers.with_flags(
                    old(self).registers.flag(Flag::Z),
                    false,
                    false,
                    true,
                ),
                ..*old(self)
            }),
    {
        let z = self.registers.get_flag(Flag::Z);
        self.registers.set_flags(z, false, false, true);
    }

    /// DAA: adjusts A to packed decimal after an addition or subtraction.
    #[verifier::rlimit(60)]
    pub fn daa(&mut self)
        requires
            old(self).wf(),
        ensures
            final(self).wf(),
            *final(self) == (CPU {
                registers: old(self).registers.with_reg(Reg::A, daa_result(old(self).registers.A, old(self).registers.flag(Flag::N), old(self).registers.flag(Flag::H), old(self).registers.flag(Flag::C)).0).with_flags(
                    daa_result(old(self).registers.A, old(self).registers.flag(Flag::N), old(self).registers.flag(Flag::H), old(self).registers.flag(Flag::C)).0 == 0,
                    old(self).registers.flag(Flag::N),
                    false,
                    daa_result(old(self).registers.A, old(self).registers.flag(Flag::N), old(self).registers.flag(Flag::H), old(self).registers.flag(Flag::C)).1,
                ),
                ..*old(self)
            }),
    {
        let a = self.registers.get_reg(Reg::A);
        let n = self.registers.get_flag(Flag::N);
        let h = self.registers.get_flag(Flag::H);
        let c = self.registers.get_flag(Flag::C);
        let (r, carry) = decimal_adjust(a, n, h, c);
        self.registers.set_reg(Reg::A, r);
        self.registers.set_flags(r == 0, n, false, carry);
    }

    /// JR e: jumps by a signed displacement from the end of the instruction.
    #[verifier::rlimit(60)]
    pub fn jr(&mut self)
        requires
            old(self).wf(),
        ensures
            Self::runs(
                *old(self),
                *final(self),
                2,
                old(self).registers,
                wrap16(wrap16(old(self).pc + 1) + signed8(old(self).operand8())),
                old(self).sp,
            ),
            quiet_same(old(self).memory, final(self).memory),
    {
        let e = self.fetch();
        self.pc = add_signed(self.pc, e);
        self.m_cycle();
    }

    /// JR cc, e: jumps if the flag is clear; the taken path costs one more cycle.
    #[verifier::rlimit(60)]
    pub fn jr_nf(&mut self, f: Flag)
        requires
            old(self).wf(),
        ensures
            old(self).registers.flag(f) == false ==>
                Self::runs(
                    *old(self),
                    *final(self),
                    2,
                    old(self).registers,
                    wrap16(wrap16(old(self).pc + 1) + signed8(old(self).operand8())),
                    old(self).sp,
                ),
            old(self).registers.flag(f) != false ==>
                Self::runs(
                    *old(self),
                    *final(self),
                    1,
                    old(self).registers,
                    wrap16(old(self).pc + 1),
                    old(self).sp,
                ),
            quiet_same(old(self).memory, final(self).memory),
    {
        let e = self.fetch();
        if self.registers.get_flag(f) == false {
            self.pc = add_signed(self.pc, e);
            self.m_cycle();
        }
    }

    /// JR cc, e: jumps if the flag is set; the taken path costs one more cycle.
    #[verifier::rlimit(60)]
    pub fn jr_f(&mut self, f: Flag)
        requires
            old(self).wf(),
        ensures
            old(self).registers.flag(f) == true ==>
                Self::runs(
                    *old(self),
                    *final(self),
                    2,
                    old(self).registers,
                    wrap16(wrap16(old(self).pc + 1) + signed8(old(self).operand8())),
                    old(self).sp,
                ),
            old(self).registers.flag(f) != true ==>
                Self::runs(
                    *old(self),
                    *final(self),
                    1,
                    old(self).registers,
                    wrap16(old(self).pc + 1),
                    old(self).sp,
                ),
            quiet_same(old(self).memory, final(self).memory),
    {
        let e = self.fetch();
        if self.registers.get_flag(f) == true {
            self.pc = add_signed(self.pc, e);
            self.m_cycle();
        }
    }

    /// JP nn.
    #[verifier::rlimit(60)]
    pub fn jp(&mut self)
        requires
            old(self).wf(),
        ensures
            quiet(wrap16(old(self).pc + 1)) ==> final(self).pc == old(self).operand16(),
            final(self).pc % 256 == old(self).operand8(),
            Self::runs(*old(self), *final(self), 3, old(self).registers, final(self).pc, old(self).sp),
            quiet_same(old(self).memory, final(self).memory),
    {
        let pos = self.fetchW();
        self.m_cycle();
        self.pc = pos;
    }

    /// JP HL.
    #[verifier::rlimit(60)]
    pub fn jp_hl(&mut self)
        requires
            old(self).wf(),
        ensures
            final(self).wf(),
            *final(self) == (CPU { pc: old(self).registers.reg_w(RegW::HL), ..*old(self) }),
    {
        self.pc = self.registers.get_regW(RegW::HL);
    }

    /// JP cc, nn: jumps if the flag is clear.
    #[verifier::rlimit(60)]
    pub fn jp_nf(&mut self, f: Flag)
        requires
            old(self).wf(),
        ensures
            old(self).registers.flag(f) == false ==>
                Self::runs(*old(self), *final(self), 3, old(self).registers, final(self).pc, old(self).sp)
                    && final(self).pc % 256 == old(self).operand8()
                    && (quiet(wrap16(old(self).pc + 1)) ==> final(self).pc == old(self).operand16()),
            old(self).registers.flag(f) != false ==>
                Self::runs(
                    *old(self),
                    *final(self),
                    2,
                    old(self).registers,
                    wrap16(old(self).pc + 2),
                    old(self).sp,
                ),
            quiet_same(old(self).memory, final(self).memory),
    {
        let pos = self.fetchW();
        if self.registers.get_flag(f) == false {
            self.pc = pos;
            self.m_cycle();
        }
    }

    /// JP cc, nn: jumps if the flag is set.
    #[verifier::rlimit(60)]
    pub fn jp_f(&mut self, f: Flag)
        requires
            old(self).wf(),
        ensures
            old(self).registers.flag(f) == true ==>
                Self::runs(*old(self), *final(self), 3, old(self).registers, final(self).pc, old(self).sp)
                    && final(self).pc % 256 == old(self).operand8()
                    && (quiet(wrap16(old(self).pc + 1)) ==> final(self).pc == old(self).operand16()),
            old(self).registers.flag(f) != true ==>
                Self::runs(
                    *old(self),
                    *final(self),
                    2,
                    old(self).registers,
                    wrap16(old(self).pc + 2),
                    old(self).sp,
                ),
            quiet_same(old(self).memory, final(self).memory),
    {
        let pos = self.fetchW();
        if self.registers.get_flag(f) == true {
            self.pc = pos;
            self.m_cycle();
        }
    }

    /// RET: pops PC.
    #[verifier::rlimit(60)]
    pub fn ret(&mut self)
        requires
            old(self).wf(),
        ensures
            Self::popped(*old(self), *final(self), final(self).pc),
            Self::runs(
                *old(self),
                *final(self),
                3,
                old(self).registers,
                final(self).pc,
                wrap16(old(self).sp + 2),
            ),
            quiet_same(old(self).memory, final(self).memory),
    {
        self.pc = self.stack_pop();
        self.m_cycle();
    }

    /// RET cc: returns if the flag is clear.
    #[verifier::rlimit(60)]
    pub fn ret_nf(&mut self, f: Flag)
        requires
            old(self).wf(),
        ensures
            old(self).registers.flag(f) == false ==>
                Self::runs(
                    *old(self),
                    *final(self),
                    4,
                    old(self).registers,
                    final(self).pc,
                    wrap16(old(self).sp + 2),
                ),
            old(self).registers.flag(f) == false && quiet(old(self).sp) && quiet(wrap16(old(self).sp + 1)) ==>
                final(self).pc == word(
                    old(self).memory.peek(wrap16(old(self).sp + 1)),
                    old(self).memory.peek(old(self).sp),
                ),
            old(self).registers.flag(f) != false ==>
                Self::runs(*old(self), *final(self), 1, old(self).registers, old(self).pc, old(self).sp),
            quiet_same(old(self).memory, final(self).memory),
    {
        self.m_cycle();
        if self.registers.get_flag(f) == false {
            self.pc = self.stack_pop();
            self.m_cycle();
        }
    }

    /// RET cc: returns if the flag is set.
    #[verifier::rlimit(60)]
    pub fn ret_f(&mut self, f: Flag)
        requires
            old(self).wf(),
        ensures
            old(self).registers.flag(f) == true ==>
                Self::runs(
                    *old(self),
                    *final(self),
                    4,
                    old(self).registers,
                    final(self).pc,
                    wrap16(old(self).sp + 2),
                ),
            old(self).registers.flag(f) == true && quiet(old(self).sp) && quiet(wrap16(old(self).sp + 1)) ==>
                final(self).pc == word(
                    old(self).memory.peek(wrap16(old(self).sp + 1)),
                    old(self).memory.peek(old(self).sp),
                ),
            old(self).registers.flag(f) != true ==>
                Self::runs(*old(self), *final(self), 1, old(self).registers, old(self).pc, old(self).sp),
            quiet_same(old(self).memory, final(self).memory),
    {
        self.m_cycle();
        if self.registers.get_flag(f) == true {
            self.pc = self.stack_pop();
            self.m_cycle();
        }
    }

    /// RETI: returns and enables interrupts at once.
    #[verifier::rlimit(60)]
    pub fn reti(&mut self)
        requires
            old(self).wf(),
        ensures
            Self::popped(*old(self), *final(self), final(self).pc),
            final(self).ime,
            Self::runs(
                *old(self),
                CPU { ime: old(self).ime, ..*final(self) },
                3,
                old(self).registers,
                final(self).pc,
                wrap16(old(self).sp + 2),
            ),
            quiet_same(old(self).memory, final(self).memory),
    {
        self.pc = self.stack_pop();
        self.m_cycle();
        self.ime = true;
    }

    /// CALL nn: pushes the address after the instruction and jumps.
    #[verifier::rlimit(60)]
    pub fn call(&mut self)
        requires
            old(self).wf(),
        ensures
            Self::pushed(*old(self), *final(self), wrap16(old(self).pc + 2)),
            final(self).pc % 256 == old(self).operand8(),
            quiet(wrap16(old(self).pc + 1)) ==> final(self).pc == old(self).operand16(),
            Self::runs(
                *old(self),
                *final(self),
                5,
                old(self).registers,
                final(self).pc,
                wrap16(old(self).sp - 2),
            ),
    {
        let pos = self.fetchW();
        let ret = self.pc;
        self.stack_push(ret);
        self.pc = pos;
        self.m_cycle();
    }

    /// CALL cc, nn: calls if the flag is clear.
    #[verifier::rlimit(60)]
    pub fn call_nf(&mut self, f: Flag)
        requires
            old(self).wf(),
        ensures
            old(self).registers.flag(f) == false ==>
                Self::pushed(*old(self), *final(self), wrap16(old(self).pc + 2)) && final(self).pc % 256 == old(self).operand8() && (quiet(wrap16(old(self).pc + 1)) ==> final(self).pc == old(self).operand16()) && Self::runs(
                    *old(self),
                    *final(self),
                    5,
                    old(self).registers,
                    final(self).pc,
                    wrap16(old(self).sp - 2),
                ),
            old(self).registers.flag(f) != false ==>
                Self::runs(*old(self), *final(self), 2, old(self).registers, wrap16(old(self).pc + 2), old(self).sp) && quiet_same(
                    old(self).memory,
                    final(self).memory,
                ),
    {
        let pos = self.fetchW();
        if self.registers.get_flag(f) == false {
            let ret = self.pc;
            self.stack_push(ret);
            self.pc = pos;
            self.m_cycle();
        }
    }

    /// CALL cc, nn: calls if the flag is set.
    #[verifier::rlimit(60)]
    pub fn call_f(&mut self, f: Flag)
        requires
            old(self).wf(),
        ensures
            old(self).registers.flag(f) == true ==>
                Self::pushed(*old(self), *final(self), wrap16(old(self).pc + 2)) && final(self).pc % 256 == old(self).operand8() && (quiet(wrap16(old(self).pc + 1)) ==> final(self).pc == old(self).operand16()) && Self::runs(
                    *old(self),
                    *final(self),
                    5,
                    old(self).registers,
                    final(self).pc,
                    wrap16(old(self).sp - 2),
                ),
            old(self).registers.flag(f) != true ==>
                Self::runs(*old(self), *final(self), 2, old(self).registers, wrap16(old(self).pc + 2), old(self).sp) && quiet_same(
                    old(self).memory,
                    final(self).memory,
                ),
    {
        let pos = self.fetchW();
        if self.registers.get_flag(f) == true {
            let ret = self.pc;
            self.stack_push(ret);
            self.pc = pos;
            self.m_cycle();
        }
    }

    /// RST v: calls a fixed vector.
    #[verifier::rlimit(60)]
    pub fn rst(&mut self, rst: u16)
        requires
            old(self).wf(),
        ensures
            Self::pushed(*old(self), *final(self), old(self).pc),
            Self::runs(*old(self), *final(self), 3, old(self).registers, rst, wrap16(old(self).sp - 2)),
    {
        let ret = self.pc;
        self.stack_push(ret);
        self.m_cycle();
        self.pc = rst;
    }

    /// EI: interrupts come on after the next instruction.
    #[verifier::rlimit(60)]
    pub fn ei(&mut self)
        requires
            old(self).wf(),
        ensures
            final(self).wf(),
            *final(self) == (CPU { ime_waiting: true, ..*old(self) }),
    {
        self.ime_waiting = true;
    }

    /// DI: interrupts off at once, cancelling a pending enable.
    #[verifier::rlimit(60)]
    pub fn di(&mut self)
        requires
            old(self).wf(),
        ensures
            final(self).wf(),
            *final(self) == (CPU { ime: false, ime_waiting: false, ..*old(self) }),
    {
        self.ime = false;
        self.ime_waiting = false;
    }
}

/// Stores a 16-bit sum in `dst` with its half-carry and carry; zero kept.
fn sum16(regs: &mut Registers, dst: RegW, a: u16, b: u16)
    requires
        old(regs).wf(),
    ensures
        final(regs).wf(),
        *final(regs) == old(regs).with_reg_w(dst, wrap16(a + b)).with_flags(
            old(regs).with_reg_w(dst, wrap16(a + b)).flag(Flag::Z),
            false,
            add16_flags(a, b).0,
            add16_flags(a, b).1,
        ),
{
    let h = a % 4096 + b % 4096 >= 4096;
    let c = a as u32 + b as u32 >= 65536;
    let sum = a.wrapping_add(b);
    regs.set_regW(dst, sum);
    let z = regs.get_flag(Flag::Z);
    regs.set_flags(z, false, h, c);
}

/// `pc` moved by a signed displacement.
fn add_signed(pc: u16, e: u8) -> (r: u16)
    ensures
        r == wrap16(pc + signed8(e)),
{
    if e < 128 {
        pc.wrapping_add(e as u16)
    } else {
        pc.wrapping_sub(256 - e as u16)
    }
}

/// The register an opcode's 3-bit operand field names (6, the byte at HL, is handled apart).
pub open spec fn reg_code(i: u8) -> Reg {
    if i == 0 {
        Reg::B
    } else if i == 1 {
        Reg::C
    } else if i == 2 {
        Reg::D
    } else if i == 3 {
        Reg::E
    } else if i == 4 {
        Reg::H
    } else if i == 5 {
        Reg::L
    } else {
        Reg::A
    }
}

/// Decodes an opcode's 3-bit register field.
pub fn reg_of(i: u8) -> (r: Reg)
    ensures
        r == reg_code(i),
{
    if i == 0 {
        Reg::B
    } else if i == 1 {
        Reg::C
    } else if i == 2 {
        Reg::D
    } else if i == 3 {
        Reg::E
    } else if i == 4 {
        Reg::H
    } else if i == 5 {
        Reg::L
    } else {
        Reg::A
    }
}

impl CPU {
    /// Moves HL one up or down, as the auto-increment loads do, taking no cycle.
    #[verifier::rlimit(60)]
    fn step_hl(&mut self, up: bool)
        requires
            old(self).wf(),
        ensures
            final(self).wf(),
            *final(self) == (CPU {
                registers: old(self).registers.with_reg_w(
                    RegW::HL,
                    if up {
                        wrap16(old(self).registers.reg_w(RegW::HL) + 1)
                    } else {
                        wrap16(old(self).registers.reg_w(RegW::HL) - 1)
                    },
                ),
                ..*old(self)
            }),
    {
        let v = self.registers.get_regW(RegW::HL);
        let w = if up {
            v.wrapping_add(1)
        } else {
            v.wrapping_sub(1)
        };
        self.registers.set_regW(RegW::HL, w);
    }

    /// What one instruction of the extended table does: its second byte is fetched, then the
    /// shift/rotate, bit test, bit reset or bit set it names is applied to a register, or to
    /// the byte at HL where that is a quiet address.
    pub open spec fn cb_done(a: CPU, b: CPU) -> bool {
        &&& b.pc == wrap16(a.pc + 1) && b.sp == a.sp
        &&& ({
                let x = a.operand8();
                let r = a.registers;
                let v = r.reg(reg_code(x % 8));
                x % 8 != 6 ==> {
                    &&& x / 64 == 0 ==> b.registers == r.with_reg(
                        reg_code(x % 8),
                        shift_result((x / 8) % 8, v, r.flag(Flag::C)),
                    ).with_flags(
                        shift_result((x / 8) % 8, v, r.flag(Flag::C)) == 0,
                        false,
                        false,
                        shift_carry((x / 8) % 8, v),
                    )
                    &&& x / 64 == 1 ==> b.registers == r.with_flags(
                        (v >> ((x / 8) % 8) as u8) % 2 == 0,
                        false,
                        true,
                        r.flag(Flag::C),
                    )
                    &&& x / 64 == 2 ==> b.registers == r.with_reg(
                        reg_code(x % 8),
                        v & !(1u8 << ((x / 8) % 8) as u8),
                    )
                    &&& x / 64 == 3 ==> b.registers == r.with_reg(
                        reg_code(x % 8),
                        v | (1u8 << ((x / 8) % 8) as u8),
                    )
                    &&& b.t_cycles == wrap16(a.t_cycles + 4)
                }
            })
        &&& ({
            let x = a.operand8();
            let r = a.registers;
            let hl = r.reg_w(RegW::HL);
            let v = a.memory.peek(hl);
            let y = (x / 8) % 8;
            x % 8 == 6 && quiet(hl) ==> {
                &&& x / 64 == 0 ==> b.registers == r.with_flags(
                    shift_result(y, v, r.flag(Flag::C)) == 0,
                    false,
                    false,
                    shift_carry(y, v),
                ) && quiet_written(a.memory, b.memory, hl, shift_result(y, v, r.flag(Flag::C)))
                &&& x / 64 == 1 ==> b.registers == r.with_flags((v >> y as u8) % 2 == 0, false, true, r.flag(Flag::C))
                &&& x / 64 == 2 ==> quiet_written(a.memory, b.memory, hl, v & !(1u8 << y as u8))
                &&& x / 64 == 3 ==> quiet_written(a.memory, b.memory, hl, v | (1u8 << y as u8))
            }
        })
    }

    /// Runs one instruction of the extended table: fetches its second byte, then a
    /// shift/rotate, bit test, bit reset or bit set on a register or on the byte at HL.
    #[verifier::spinoff_prover]
    #[verifier::rlimit(100)]
    pub fn execute_cb(&mut self)
        requires
            old(self).wf(),
        ensures
            final(self).wf(),
            final(self).ime == old(self).ime && final(self).ime_waiting == old(self).ime_waiting,
            Self::cb_done(*old(self), *final(self)),
    {
        let code = self.fetch();
        let r = code % 8;
        let y = (code / 8) % 8;
        let x = code / 64;
        if r == 6 {
            if x == 0 {
                if y == 0 {
                    self.rlc_hl();
                } else if y == 1 {
                    self.rrc_hl();
                } else if y == 2 {
                    self.rl_hl();
                } else if y == 3 {
                    self.rr_hl();
                } else if y == 4 {
                    self.sla_hl();
                } else if y == 5 {
                    self.sra_hl();
                } else if y == 6 {
                    self.swap_hl();
                } else {
                    self.srl_hl();
                }
            } else if x == 1 {
                self.bit_hl(y);
            } else if x == 2 {
                self.res_hl(y);
            } else {
                self.set_hl(y);
            }
        } else {
            let reg = reg_of(r);
            if x == 0 {
                if y == 0 {
                    self.rlc(reg);
                } else if y == 1 {
                    self.rrc(reg);
                } else if y == 2 {
                    self.rl(reg);
                } else if y == 3 {
                    self.rr(reg);
                } else if y == 4 {
                    self.sla(reg);
                } else if y == 5 {
                    self.sra(reg);
                } else if y == 6 {
                    self.swap(reg);
                } else {
                    self.srl(reg);
                }
            } else if x == 1 {
                self.bit(y, reg);
            } else if x == 2 {
                self.res(y, reg);
            } else {
                self.set(y, reg);
            }
        }
    }

    /// Register-to-register loads and the 8-bit operations on A, decoded from their fields:
    /// 0x40–0x7F load (0x76 excepted), 0x80–0xBF operate on A.
    #[verifier::rlimit(60)]
    fn execute_block(&mut self, opcode: u8)
        requires
            old(self).wf(),
            0x40 <= opcode <= 0xBF,
            opcode != 0x76,
        ensures
            final(self).wf(),
            final(self).ime == old(self).ime && final(self).ime_waiting == old(self).ime_waiting,
            final(self).halted == old(self).halted,
            final(self).pc == old(self).pc && final(self).sp == old(self).sp,
            opcode < 0x80 && opcode % 8 != 6 && (opcode / 8) % 8 != 6 ==> *final(self) == (CPU {
                registers: old(self).registers.with_reg(
                    reg_code((opcode / 8) % 8),
                    old(self).registers.reg(reg_code(opcode % 8)),
                ),
                ..*old(self)
            }),
            opcode >= 0x80 && opcode % 8 != 6 ==> *final(self) == (CPU {
                registers: alu_regs(
                    old(self).registers,
                    (opcode / 8) % 8,
                    Reg::A,
                    old(self).registers.reg(reg_code(opcode % 8)),
                ),
                ..*old(self)
            }),
    {
        let src = opcode % 8;
        let y = (opcode / 8) % 8;
        if opcode < 0x80 {
            if src == 6 {
                self.reg_ld_regWaddr(reg_of(y), RegW::HL);
            } else if y == 6 {
                self.regWaddr_ld_reg(RegW::HL, reg_of(src));
            } else {
                self.reg_ld_reg(reg_of(y), reg_of(src));
            }
        } else if src == 6 {
            if y == 0 {
                self.reg_add_regWaddr(Reg::A, RegW::HL);
            } else if y == 1 {
                self.reg_adc_regWaddr(Reg::A, RegW::HL);
            } else if y == 2 {
                self.reg_sub_regWaddr(Reg::A, RegW::HL);
            } else if y == 3 {
                self.reg_sbc_regWaddr(Reg::A, RegW::HL);
            } else if y == 4 {
                self.reg_and_regWaddr(Reg::A, RegW::HL);
            } else if y == 5 {
                self.reg_xor_regWaddr(Reg::A, RegW::HL);
            } else if y == 6 {
                self.reg_or_regWaddr(Reg::A, RegW::HL);
            } else {
                self.reg_cp_regWaddr(Reg::A, RegW::HL);
            }
        } else {
            let reg = reg_of(src);
            if y == 0 {
                self.reg_add_reg(Reg::A, reg);
            } else if y == 1 {
                self.reg_adc_reg(Reg::A, reg);
            } else if y == 2 {
                self.reg_sub_reg(Reg::A, reg);
            } else if y == 3 {
                self.reg_sbc_reg(Reg::A, reg);
            } else if y == 4 {
                self.reg_and_reg(Reg::A, reg);
            } else if y == 5 {
                self.reg_xor_reg(Reg::A, reg);
            } else if y == 6 {
                self.reg_or_reg(Reg::A, reg);
            } else {
                self.reg_cp_reg(Reg::A, reg);
            }
        }
    }

    /// Whether an opcode is in the instruction set; the eleven gaps of the main table are not.
    pub open spec fn is_defined(opcode: u8) -> bool {
        !(opcode == 0xD3 || opcode == 0xDB || opcode == 0xDD || opcode == 0xE3 || opcode == 0xE4
            || opcode == 0xEB || opcode == 0xEC || opcode == 0xED || opcode == 0xF4 || opcode == 0xFC
            || opcode == 0xFD)
    }

    /// `a` once a pending interrupt enable has taken effect, as it does before every
    /// opcode but the enable itself.
    pub open spec fn latched(a: CPU, opcode: u8) -> CPU {
        if a.ime_waiting && opcode != 0xFB {
            CPU { ime: true, ime_waiting: false, ..a }
        } else {
            a
        }
    }

    /// The contract of the instruction handler that `opcode` names in this part of the
    /// main table, stated of `a` and `b`.
    pub open spec fn forwarded_low(a: CPU, b: CPU, opcode: u8) -> bool {
        &&& opcode == 0x22 ==> Self::runs(a, b, 1, a.registers.with_reg_w(RegW::HL, wrap16(a.registers.reg_w(RegW::HL) + 1)), a.pc, a.sp)
            && quiet_written(a.memory, b.memory, a.registers.reg_w(RegW::HL), a.registers.A)
        &&& opcode == 0x32 ==> Self::runs(a, b, 1, a.registers.with_reg_w(RegW::HL, wrap16(a.registers.reg_w(RegW::HL) - 1)), a.pc, a.sp)
            && quiet_written(a.memory, b.memory, a.registers.reg_w(RegW::HL), a.registers.A)
        &&& opcode == 0x2A ==> Self::runs(
            a,
            b,
            1,
            a.registers.with_reg(Reg::A, a.bus_value(a.registers.reg_w(RegW::HL))).with_reg_w(RegW::HL, wrap16(a.registers.reg_w(RegW::HL) + 1)),
            a.pc,
            a.sp,
        ) && quiet_same(a.memory, b.memory)
        &&& opcode == 0x3A ==> Self::runs(
            a,
            b,
            1,
            a.registers.with_reg(Reg::A, a.bus_value(a.registers.reg_w(RegW::HL))).with_reg_w(RegW::HL, wrap16(a.registers.reg_w(RegW::HL) - 1)),
            a.pc,
            a.sp,
        ) && quiet_same(a.memory, b.memory)
        &&& opcode == 0x33 ==> Self::runs(a, b, 1, a.registers, a.pc, wrap16(a.sp + 1)) && quiet_same(a.memory, b.memory)
        &&& opcode == 0x3B ==> Self::runs(a, b, 1, a.registers, a.pc, wrap16(a.sp - 1)) && quiet_same(a.memory, b.memory)
        &&& opcode == 0x01 ==> {
            &&& quiet(wrap16(a.pc + 1)) ==> b.registers == a.registers.with_reg_w(RegW::BC, a.operand16())
            &&& b.registers.reg_w(RegW::BC) % 256 == a.operand8() - (if RegW::BC == RegW::AF { a.operand8() % 16 } else { 0 })
            &&& Self::runs(a, b, 2, b.registers, wrap16(a.pc + 2), a.sp)
            &&& quiet_same(a.memory, b.memory)
        }
        &&& opcode == 0x02 ==> {
            &&& Self::runs(a, b, 1, a.registers, a.pc, a.sp)
            &&& quiet_written(a.memory, b.memory, a.registers.reg_w(RegW::BC), a.registers.reg(Reg::A))
        }
        &&& opcode == 0x03 ==> {
            &&& Self::runs(
                a,
                b,
                1,
                a.registers.with_reg_w(RegW::BC, wrap16(a.registers.reg_w(RegW::BC) + 1)),
                a.pc,
                a.sp,
            )
            &&& quiet_same(a.memory, b.memory)
        }
        &&& opcode == 0x04 ==> {
            &&& b == (CPU {
                registers: a.registers.with_reg(Reg::B, wrap8(a.registers.reg(Reg::B) + 1)).with_flags(
                    wrap8(a.registers.reg(Reg::B) + 1) == 0,
                    false,
                    a.registers.reg(Reg::B) % 16 == 15,
                    a.registers.flag(Flag::C),
                ),
                ..a
            })
        }
        &&& opcode == 0x05 ==> {
            &&& b == (CPU {
                registers: a.registers.with_reg(Reg::B, wrap8(a.registers.reg(Reg::B) - 1)).with_flags(
                    wrap8(a.registers.reg(Reg::B) - 1) == 0,
                    true,
                    a.registers.reg(Reg::B) % 16 == 0,
                    a.registers.flag(Flag::C),
                ),
                ..a
            })
        }
        &&& opcode == 0x06 ==> {
            &&& Self::runs(a, b, 1, a.registers.with_reg(Reg::B, a.operand8()), wrap16(a.pc + 1), a.sp)
            &&& quiet_same(a.memory, b.memory)
        }
        &&& opcode == 0x07 ==> {
            &&& b == (CPU {
                registers: a.registers.with_reg(Reg::A, shift_result(0, a.registers.A, a.registers.flag(Flag::C))).with_flags(
                    false,
                    false,
                    false,
                    shift_carry(0, a.registers.A),
                ),
                ..a
            })
        }
        &&& opcode == 0x08 ==> {
            &&& Self::runs(a, b, 4, a.registers, wrap16(a.pc + 2), a.sp)
            &&& quiet(wrap16(a.pc + 1))
                && quiet_ram(a.operand16())
                && quiet_ram(wrap16(a.operand16() + 1)) ==>
                b.memory.peek(a.operand16()) == (a.sp % 256) as u8
                    && b.memory.peek(wrap16(a.operand16() + 1)) == (a.sp / 256) as u8
        }
        &&& opcode == 0x09 ==> {
            &&& Self::runs(
                a,
                b,
                1,
                a.registers.with_reg_w(RegW::HL, wrap16(a.registers.reg_w(RegW::HL) + a.registers.reg_w(RegW::BC))).with_flags(
                    a.registers.with_reg_w(RegW::HL, wrap16(a.registers.reg_w(RegW::HL) + a.registers.reg_w(RegW::BC))).flag(Flag::Z),
                    false,
                    add16_flags(a.registers.reg_w(RegW::HL), a.registers.reg_w(RegW::BC)).0,
                    add16_flags(a.registers.reg_w(RegW::HL), a.registers.reg_w(RegW::BC)).1,
                ),
                a.pc,
                a.sp,
            )
            &&& quiet_same(a.memory, b.memory)
        }
        &&& opcode == 0x0A ==> {
            &&& Self::runs(
                a,
                b,
                1,
                a.registers.with_reg(Reg::A, a.bus_value(a.registers.reg_w(RegW::BC))),
                a.pc,
                a.sp,
            )
            &&& quiet_same(a.memory, b.memory)
        }
        &&& opcode == 0x0B ==> {
            &&& Self::runs(
                a,
                b,
                1,
                a.registers.with_reg_w(RegW::BC, wrap16(a.registers.reg_w(RegW::BC) - 1)),
                a.pc,
                a.sp,
            )
            &&& quiet_same(a.memory, b.memory)
        }
        &&& opcode == 0x0C ==> {
            &&& b == (CPU {
                registers: a.registers.with_reg(Reg::C, wrap8(a.registers.reg(Reg::C) + 1)).with_flags(
                    wrap8(a.registers.reg(Reg::C) + 1) == 0,
                    false,
                    a.registers.reg(Reg::C) % 16 == 15,
                    a.registers.flag(Flag::C),
                ),
                ..a
            })
        }
        &&& opcode == 0x0D ==> {
            &&& b == (CPU {
                registers: a.registers.with_reg(Reg::C, wrap8(a.registers.reg(Reg::C) - 1)).with_flags(
                    wrap8(a.registers.reg(Reg::C) - 1) == 0,
                    true,
                    a.registers.reg(Reg::C) % 16 == 0,
                    a.registers.flag(Flag::C),
                ),
                ..a
            })
        }
        &&& opcode == 0x0E ==> {
            &&& Self::runs(a, b, 1, a.registers.with_reg(Reg::C, a.operand8()), wrap16(a.pc + 1), a.sp)
            &&& quiet_same(a.memory, b.memory)
        }
        &&& opcode == 0x0F ==> {
            &&& b == (CPU {
                registers: a.registers.with_reg(Reg::A, shift_result(1, a.registers.A, a.registers.flag(Flag::C))).with_flags(
                    false,
                    false,
                    false,
                    shift_carry(1, a.registers.A),
                ),
                ..a
            })
        }
        &&& opcode == 0x11 ==> {
            &&& quiet(wrap16(a.pc + 1)) ==> b.registers == a.registers.with_reg_w(RegW::DE, a.operand16())
            &&& b.registers.reg_w(RegW::DE) % 256 == a.operand8() - (if RegW::DE == RegW::AF { a.operand8() % 16 } else { 0 })
            &&& Self::runs(a, b, 2, b.registers, wrap16(a.pc + 2), a.sp)
            &&& quiet_same(a.memory, b.memory)
        }
        &&& opcode == 0x12 ==> {
            &&& Self::runs(a, b, 1, a.registers, a.pc, a.sp)
            &&& quiet_written(a.memory, b.memory, a.registers.reg_w(RegW::DE), a.registers.reg(Reg::A))
        }
        &&& opcode == 0x13 ==> {
            &&& Self::runs(
                a,
                b,
                1,
                a.registers.with_reg_w(RegW::DE, wrap16(a.registers.reg_w(RegW::DE) + 1)),
                a.pc,
                a.sp,
            )
            &&& quiet_same(a.memory, b.memory)
        }
        &&& opcode == 0x14 ==> {
            &&& b == (CPU {
                registers: a.registers.with_reg(Reg::D, wrap8(a.registers.reg(Reg::D) + 1)).with_flags(
                    wrap8(a.registers.reg(Reg::D) + 1) == 0,
                    false,
                    a.registers.reg(Reg::D) % 16 == 15,
                    a.registers.flag(Flag::C),
                ),
                ..a
            })
        }
        &&& opcode == 0x15 ==> {
            &&& b == (CPU {
                registers: a.registers.with_reg(Reg::D, wrap8(a.registers.reg(Reg::D) - 1)).with_flags(
                    wrap8(a.registers.reg(Reg::D) - 1) == 0,
                    true,
                    a.registers.reg(Reg::D) % 16 == 0,
                    a.registers.flag(Flag::C),
                ),
                ..a
            })
        }
        &&& opcode == 0x16 ==> {
            &&& Self::runs(a, b, 1, a.registers.with_reg(Reg::D, a.operand8()), wrap16(a.pc + 1), a.sp)
            &&& quiet_same(a.memory, b.memory)
        }
        &&& opcode == 0x17 ==> {
            &&& b == (CPU {
                registers: a.registers.with_reg(Reg::A, shift_result(2, a.registers.A, a.registers.flag(Flag::C))).with_flags(
                    false,
                    false,
                    false,
                    shift_carry(2, a.registers.A),
                ),
                ..a
            })
        }
        &&& opcode == 0x18 ==> {
            &&& Self::runs(a, b, 2, a.registers, wrap16(wrap16(a.pc + 1) + signed8(a.operand8())), a.sp)
            &&& quiet_same(a.memory, b.memory)
        }
        &&& opcode == 0x19 ==> {
            &&& Self::runs(
                a,
                b,
                1,
                a.registers.with_reg_w(RegW::HL, wrap16(a.registers.reg_w(RegW::HL) + a.registers.reg_w(RegW::DE))).with_flags(
                    a.registers.with_reg_w(RegW::HL, wrap16(a.registers.reg_w(RegW::HL) + a.registers.reg_w(RegW::DE))).flag(Flag::Z),
                    false,
                    add16_flags(a.registers.reg_w(RegW::HL), a.registers.reg_w(RegW::DE)).0,
                    add16_flags(a.registers.reg_w(RegW::HL), a.registers.reg_w(RegW::DE)).1,
                ),
                a.pc,
                a.sp,
            )
            &&& quiet_same(a.memory, b.memory)
        }
        &&& opcode == 0x1A ==> {
            &&& Self::runs(
                a,
                b,
                1,
                a.registers.with_reg(Reg::A, a.bus_value(a.registers.reg_w(RegW::DE))),
                a.pc,
                a.sp,
            )
            &&& quiet_same(a.memory, b.memory)
        }
        &&& opcode == 0x1B ==> {
            &&& Self::runs(
                a,
                b,
                1,
                a.registers.with_reg_w(RegW::DE, wrap16(a.registers.reg_w(RegW::DE) - 1)),
                a.pc,
                a.sp,
            )
            &&& quiet_same(a.memory, b.memory)
        }
        &&& opcode == 0x1C ==> {
            &&& b == (CPU {
                registers: a.registers.with_reg(Reg::E, wrap8(a.registers.reg(Reg::E) + 1)).with_flags(
                    wrap8(a.registers.reg(Reg::E) + 1) == 0,
                    false,
                    a.registers.reg(Reg::E) % 16 == 15,
                    a.registers.flag(Flag::C),
                ),
                ..a
            })
        }
        &&& opcode == 0x1D ==> {
            &&& b == (CPU {
                registers: a.registers.with_reg(Reg::E, wrap8(a.registers.reg(Reg::E) - 1)).with_flags(
                    wrap8(a.registers.reg(Reg::E) - 1) == 0,
                    true,
                    a.registers.reg(Reg::E) % 16 == 0,
                    a.registers.flag(Flag::C),
                ),
                ..a
            })
        }
        &&& opcode == 0x1E ==> {
            &&& Self::runs(a, b, 1, a.registers.with_reg(Reg::E, a.operand8()), wrap16(a.pc + 1), a.sp)
            &&& quiet_same(a.memory, b.memory)
        }
        &&& opcode == 0x1F ==> {
            &&& b == (CPU {
                registers: a.registers.with_reg(Reg::A, shift_result(3, a.registers.A, a.registers.flag(Flag::C))).with_flags(
                    false,
                    false,
                    false,
                    shift_carry(3, a.registers.A),
                ),
                ..a
            })
        }
        &&& opcode == 0x20 ==> {
            &&& a.registers.flag(Flag::Z) == false ==>
                Self::runs(a, b, 2, a.registers, wrap16(wrap16(a.pc + 1) + signed8(a.operand8())), a.sp)
            &&& a.registers.flag(Flag::Z) != false ==>
                Self::runs(a, b, 1, a.registers, wrap16(a.pc + 1), a.sp)
            &&& quiet_same(a.memory, b.memory)
        }
        &&& opcode == 0x21 ==> {
            &&& quiet(wrap16(a.pc + 1)) ==> b.registers == a.registers.with_reg_w(RegW::HL, a.operand16())
            &&& b.registers.reg_w(RegW::HL) % 256 == a.operand8() - (if RegW::HL == RegW::AF { a.operand8() % 16 } else { 0 })
            &&& Self::runs(a, b, 2, b.registers, wrap16(a.pc + 2), a.sp)
            &&& quiet_same(a.memory, b.memory)
        }
        &&& opcode == 0x23 ==> {
            &&& Self::runs(
                a,
                b,
                1,
                a.registers.with_reg_w(RegW::HL, wrap16(a.registers.reg_w(RegW::HL) + 1)),
                a.pc,
                a.sp,
            )
            &&& quiet_same(a.memory, b.memory)
        }
        &&& opcode == 0x24 ==> {
            &&& b == (CPU {
                registers: a.registers.with_reg(Reg::H, wrap8(a.registers.reg(Reg::H) + 1)).with_flags(
                    wrap8(a.registers.reg(Reg::H) + 1) == 0,
                    false,
                    a.registers.reg(Reg::H) % 16 == 15,
                    a.registers.flag(Flag::C),
                ),
                ..a
            })
        }
        &&& opcode == 0x25 ==> {
            &&& b == (CPU {
                registers: a.registers.with_reg(Reg::H, wrap8(a.registers.reg(Reg::H) - 1)).with_flags(
                    wrap8(a.registers.reg(Reg::H) - 1) == 0,
                    true,
                    a.registers.reg(Reg::H) % 16 == 0,
                    a.registers.flag(Flag::C),
                ),
                ..a
            })
        }
        &&& opcode == 0x26 ==> {
            &&& Self::runs(a, b, 1, a.registers.with_reg(Reg::H, a.operand8()), wrap16(a.pc + 1), a.sp)
            &&& quiet_same(a.memory, b.memory)
        }
        &&& opcode == 0x27 ==> {
            &&& b == (CPU {
                registers: a.registers.with_reg(Reg::A, daa_result(a.registers.A, a.registers.flag(Flag::N), a.registers.flag(Flag::H), a.registers.flag(Flag::C)).0).with_flags(
                    daa_result(a.registers.A, a.registers.flag(Flag::N), a.registers.flag(Flag::H), a.registers.flag(Flag::C)).0 == 0,
                    a.registers.flag(Flag::N),
                    false,
                    daa_result(a.registers.A, a.registers.flag(Flag::N), a.registers.flag(Flag::H), a.registers.flag(Flag::C)).1,
                ),
                ..a
            })
        }
        &&& opcode == 0x28 ==> {
            &&& a.registers.flag(Flag::Z) == true ==>
                Self::runs(a, b, 2, a.registers, wrap16(wrap16(a.pc + 1) + signed8(a.operand8())), a.sp)
            &&& a.registers.flag(Flag::Z) != true ==> Self::runs(a, b, 1, a.registers, wrap16(a.pc + 1), a.sp)
            &&& quiet_same(a.memory, b.memory)
        }
        &&& opcode == 0x29 ==> {
            &&& Self::runs(
                a,
                b,
                1,
                a.registers.with_reg_w(RegW::HL, wrap16(a.registers.reg_w(RegW::HL) + a.registers.reg_w(RegW::HL))).with_flags(
                    a.registers.with_reg_w(RegW::HL, wrap16(a.registers.reg_w(RegW::HL) + a.registers.reg_w(RegW::HL))).flag(Flag::Z),
                    false,
                    add16_flags(a.registers.reg_w(RegW::HL), a.registers.reg_w(RegW::HL)).0,
                    add16_flags(a.registers.reg_w(RegW::HL), a.registers.reg_w(RegW::HL)).1,
                ),
                a.pc,
                a.sp,
            )
            &&& quiet_same(a.memory, b.memory)
        }
        &&& opcode == 0x2B ==> {
            &&& Self::runs(
                a,
                b,
                1,
                a.registers.with_reg_w(RegW::HL, wrap16(a.registers.reg_w(RegW::HL) - 1)),
                a.pc,
                a.sp,
            )
            &&& quiet_same(a.memory, b.memory)
        }
        &&& opcode == 0x2C ==> {
            &&& b == (CPU {
                registers: a.registers.with_reg(Reg::L, wrap8(a.registers.reg(Reg::L) + 1)).with_flags(
                    wrap8(a.registers.reg(Reg::L) + 1) == 0,
                    false,
                    a.registers.reg(Reg::L) % 16 == 15,
                    a.registers.flag(Flag::C),
                ),
                ..a
            })
        }
        &&& opcode == 0x2D ==> {
            &&& b == (CPU {
                registers: a.registers.with_reg(Reg::L, wrap8(a.registers.reg(Reg::L) - 1)).with_flags(
                    wrap8(a.registers.reg(Reg::L) - 1) == 0,
                    true,
                    a.registers.reg(Reg::L) % 16 == 0,
                    a.registers.flag(Flag::C),
                ),
                ..a
            })
        }
        &&& opcode == 0x2E ==> {
            &&& Self::runs(a, b, 1, a.registers.with_reg(Reg::L, a.operand8()), wrap16(a.pc + 1), a.sp)
            &&& quiet_same(a.memory, b.memory)
        }
        &&& opcode == 0x2F ==> {
            &&& b == (CPU {
                registers: a.registers.with_reg(Reg::A, (255 - a.registers.A) as u8).with_flags(
                    a.registers.flag(Flag::Z),
                    true,
                    true,
                    a.registers.flag(Flag::C),
                ),
                ..a
            })
        }
        &&& opcode == 0x30 ==> {
            &&& a.registers.flag(Flag::C) == false ==>
                Self::runs(a, b, 2, a.registers, wrap16(wrap16(a.pc + 1) + signed8(a.operand8())), a.sp)
            &&& a.registers.flag(Flag::C) != false ==>
                Self::runs(a, b, 1, a.registers, wrap16(a.pc + 1), a.sp)
            &&& quiet_same(a.memory, b.memory)
        }
        &&& opcode == 0x31 ==> {
            &&& quiet(wrap16(a.pc + 1)) ==> b.sp == a.operand16()
            &&& b.sp % 256 == a.operand8()
            &&& Self::runs(a, b, 2, a.registers, wrap16(a.pc + 2), b.sp)
            &&& quiet_same(a.memory, b.memory)
        }
        &&& opcode == 0x34 ==> {
            &&& Self::runs(
                a,
                b,
                2,
                a.registers.with_flags(
                    wrap8(a.bus_value(a.registers.reg_w(RegW::HL)) + 1) == 0,
                    false,
                    a.bus_value(a.registers.reg_w(RegW::HL)) % 16 == 15,
                    a.registers.flag(Flag::C),
                ),
                a.pc,
                a.sp,
            )
            &&& quiet_written(
                a.memory,
                b.memory,
                a.registers.reg_w(RegW::HL),
                wrap8(a.bus_value(a.registers.reg_w(RegW::HL)) + 1),
            )
        }
        &&& opcode == 0x35 ==> {
            &&& Self::runs(
                a,
                b,
                2,
                a.registers.with_flags(
                    wrap8(a.bus_value(a.registers.reg_w(RegW::HL)) - 1) == 0,
                    true,
                    a.bus_value(a.registers.reg_w(RegW::HL)) % 16 == 0,
                    a.registers.flag(Flag::C),
                ),
                a.pc,
                a.sp,
            )
            &&& quiet_written(
                a.memory,
                b.memory,
                a.registers.reg_w(RegW::HL),
                wrap8(a.bus_value(a.registers.reg_w(RegW::HL)) - 1),
            )
        }
        &&& opcode == 0x36 ==> {
            &&& Self::runs(a, b, 2, a.registers, wrap16(a.pc + 1), a.sp)
            &&& quiet_written(a.memory, b.memory, a.registers.reg_w(RegW::HL), a.operand8())
        }
        &&& opcode == 0x37 ==> {
            &&& b == (CPU {
                registers: a.registers.with_flags(a.registers.flag(Flag::Z), false, false, true),
                ..a
            })
        }
        &&& opcode == 0x38 ==> {
            &&& a.registers.flag(Flag::C) == true ==>
                Self::runs(a, b, 2, a.registers, wrap16(wrap16(a.pc + 1) + signed8(a.operand8())), a.sp)
            &&& a.registers.flag(Flag::C) != true ==> Self::runs(a, b, 1, a.registers, wrap16(a.pc + 1), a.sp)
            &&& quiet_same(a.memory, b.memory)
        }
        &&& opcode == 0x39 ==> {
            &&& Self::runs(
                a,
                b,
                1,
                a.registers.with_reg_w(RegW::HL, wrap16(a.registers.reg_w(RegW::HL) + a.sp)).with_flags(
                    a.registers.with_reg_w(RegW::HL, wrap16(a.registers.reg_w(RegW::HL) + a.sp)).flag(Flag::Z),
                    false,
                    add16_flags(a.registers.reg_w(RegW::HL), a.sp).0,
                    add16_flags(a.registers.reg_w(RegW::HL), a.sp).1,
                ),
                a.pc,
                a.sp,
            )
            &&& quiet_same(a.memory, b.memory)
        }
        &&& opcode == 0x3C ==> {
            &&& b == (CPU {
                registers: a.registers.with_reg(Reg::A, wrap8(a.registers.reg(Reg::A) + 1)).with_flags(
                    wrap8(a.registers.reg(Reg::A) + 1) == 0,
                    false,
                    a.registers.reg(Reg::A) % 16 == 15,
                    a.registers.flag(Flag::C),
                ),
                ..a
            })
        }
        &&& opcode == 0x3D ==> {
            &&& b == (CPU {
                registers: a.registers.with_reg(Reg::A, wrap8(a.registers.reg(Reg::A) - 1)).with_flags(
                    wrap8(a.registers.reg(Reg::A) - 1) == 0,
                    true,
                    a.registers.reg(Reg::A) % 16 == 0,
                    a.registers.flag(Flag::C),
                ),
                ..a
            })
        }
        &&& opcode == 0x3E ==> {
            &&& Self::runs(a, b, 1, a.registers.with_reg(Reg::A, a.operand8()), wrap16(a.pc + 1), a.sp)
            &&& quiet_same(a.memory, b.memory)
        }
        &&& opcode == 0x3F ==> {
            &&& b == (CPU {
                registers: a.registers.with_flags(
                    a.registers.flag(Flag::Z),
                    false,
                    false,
                    !a.registers.flag(Flag::C),
                ),
                ..a
            })
        }
    }

    /// The contract of the instruction handler that `opcode` names in this part of the
    /// main table, stated of `a` and `b`.
    pub open spec fn forwarded_stack(a: CPU, b: CPU, opcode: u8) -> bool {
        &&& opcode == 0xC0 ==> {
            &&& a.registers.flag(Flag::Z) == false ==>
                Self::runs(a, b, 4, a.registers, b.pc, wrap16(a.sp + 2))
            &&& a.registers.flag(Flag::Z) == false && quiet(a.sp) && quiet(wrap16(a.sp + 1)) ==>
                b.pc == word(a.memory.peek(wrap16(a.sp + 1)), a.memory.peek(a.sp))
            &&& a.registers.flag(Flag::Z) != false ==> Self::runs(a, b, 1, a.registers, a.pc, a.sp)
            &&& quiet_same(a.memory, b.memory)
        }
        &&& opcode == 0xC1 ==> {
            &&& quiet(a.sp) && quiet(wrap16(a.sp + 1)) ==>
                b.registers == a.registers.with_reg_w(
                    RegW::BC,
                    word(a.memory.peek(wrap16(a.sp + 1)), a.memory.peek(a.sp)),
                )
            &&& exists|v: u16| b.registers == a.registers.with_reg_w(RegW::BC, v)
            &&& Self::runs(a, b, 2, b.registers, a.pc, wrap16(a.sp + 2))
            &&& quiet_same(a.memory, b.memory)
        }
        &&& opcode == 0xC2 ==> {
            &&& a.registers.flag(Flag::Z) == false ==>
                Self::runs(a, b, 3, a.registers, b.pc, a.sp)
                    && b.pc % 256 == a.operand8()
                    && (quiet(wrap16(a.pc + 1)) ==> b.pc == a.operand16())
            &&& a.registers.flag(Flag::Z) != false ==>
                Self::runs(a, b, 2, a.registers, wrap16(a.pc + 2), a.sp)
            &&& quiet_same(a.memory, b.memory)
        }
        &&& opcode == 0xC3 ==> {
            &&& quiet(wrap16(a.pc + 1)) ==> b.pc == a.operand16()
            &&& b.pc % 256 == a.operand8()
            &&& Self::runs(a, b, 3, a.registers, b.pc, a.sp)
            &&& quiet_same(a.memory, b.memory)
        }
        &&& opcode == 0xC4 ==> {
            &&& a.registers.flag(Flag::Z) == false ==>
                Self::pushed(a, b, wrap16(a.pc + 2)) && b.pc % 256 == a.operand8() && (quiet(wrap16(a.pc + 1)) ==> b.pc == a.operand16()) && Self::runs(
                    a,
                    b,
                    5,
                    a.registers,
                    b.pc,
                    wrap16(a.sp - 2),
                )
            &&& a.registers.flag(Flag::Z) != false ==>
                Self::runs(a, b, 2, a.registers, wrap16(a.pc + 2), a.sp) && quiet_same(a.memory, b.memory)
        }
        &&& opcode == 0xC5 ==> {
            &&& Self::pushed(a, b, a.registers.reg_w(RegW::BC))
            &&& Self::runs(a, b, 3, a.registers, a.pc, wrap16(a.sp - 2))
        }
        &&& opcode == 0xC6 ==> {
            &&& Self::runs(a, b, 1, alu_regs(a.registers, 0, Reg::A, a.operand8()), wrap16(a.pc + 1), a.sp)
            &&& quiet_same(a.memory, b.memory)
        }
        &&& opcode == 0xC7 ==> {
            &&& Self::pushed(a, b, a.pc)
            &&& Self::runs(a, b, 3, a.registers, 0x00u16, wrap16(a.sp - 2))
        }
        &&& opcode == 0xC8 ==> {
            &&& a.registers.flag(Flag::Z) == true ==> Self::runs(a, b, 4, a.registers, b.pc, wrap16(a.sp + 2))
            &&& a.registers.flag(Flag::Z) == true && quiet(a.sp) && quiet(wrap16(a.sp + 1)) ==>
                b.pc == word(a.memory.peek(wrap16(a.sp + 1)), a.memory.peek(a.sp))
            &&& a.registers.flag(Flag::Z) != true ==> Self::runs(a, b, 1, a.registers, a.pc, a.sp)
            &&& quiet_same(a.memory, b.memory)
        }
        &&& opcode == 0xC9 ==> {
            &&& Self::popped(a, b, b.pc)
            &&& Self::runs(a, b, 3, a.registers, b.pc, wrap16(a.sp + 2))
            &&& quiet_same(a.memory, b.memory)
        }
        &&& opcode == 0xCA ==> {
            &&& a.registers.flag(Flag::Z) == true ==>
                Self::runs(a, b, 3, a.registers, b.pc, a.sp)
                    && b.pc % 256 == a.operand8()
                    && (quiet(wrap16(a.pc + 1)) ==> b.pc == a.operand16())
            &&& a.registers.flag(Flag::Z) != true ==> Self::runs(a, b, 2, a.registers, wrap16(a.pc + 2), a.sp)
            &&& quiet_same(a.memory, b.memory)
        }
        &&& opcode == 0xCC ==> {
            &&& a.registers.flag(Flag::Z) == true ==>
                Self::pushed(a, b, wrap16(a.pc + 2)) && b.pc % 256 == a.operand8() && (quiet(wrap16(a.pc + 1)) ==> b.pc == a.operand16()) && Self::runs(
                    a,
                    b,
                    5,
                    a.registers,
                    b.pc,
                    wrap16(a.sp - 2),
                )
            &&& a.registers.flag(Flag::Z) != true ==>
                Self::runs(a, b, 2, a.registers, wrap16(a.pc + 2), a.sp) && quiet_same(a.memory, b.memory)
        }
        &&& opcode == 0xCD ==> {
            &&& Self::pushed(a, b, wrap16(a.pc + 2))
            &&& b.pc % 256 == a.operand8()
            &&& quiet(wrap16(a.pc + 1)) ==> b.pc == a.operand16()
            &&& Self::runs(a, b, 5, a.registers, b.pc, wrap16(a.sp - 2))
        }
        &&& opcode == 0xCE ==> {
            &&& Self::runs(a, b, 1, alu_regs(a.registers, 1, Reg::A, a.operand8()), wrap16(a.pc + 1), a.sp)
            &&& quiet_same(a.memory, b.memory)
        }
        &&& opcode == 0xCF ==> {
            &&& Self::pushed(a, b, a.pc)
            &&& Self::runs(a, b, 3, a.registers, 0x08u16, wrap16(a.sp - 2))
        }
        &&& opcode == 0xD0 ==> {
            &&& a.registers.flag(Flag::C) == false ==>
                Self::runs(a, b, 4, a.registers, b.pc, wrap16(a.sp + 2))
            &&& a.registers.flag(Flag::C) == false && quiet(a.sp) && quiet(wrap16(a.sp + 1)) ==>
                b.pc == word(a.memory.peek(wrap16(a.sp + 1)), a.memory.peek(a.sp))
            &&& a.registers.flag(Flag::C) != false ==> Self::runs(a, b, 1, a.registers, a.pc, a.sp)
            &&& quiet_same(a.memory, b.memory)
        }
        &&& opcode == 0xD1 ==> {
            &&& quiet(a.sp) && quiet(wrap16(a.sp + 1)) ==>
                b.registers == a.registers.with_reg_w(
                    RegW::DE,
                    word(a.memory.peek(wrap16(a.sp + 1)), a.memory.peek(a.sp)),
                )
            &&& exists|v: u16| b.registers == a.registers.with_reg_w(RegW::DE, v)
            &&& Self::runs(a, b, 2, b.registers, a.pc, wrap16(a.sp + 2))
            &&& quiet_same(a.memory, b.memory)
        }
        &&& opcode == 0xD2 ==> {
            &&& a.registers.flag(Flag::C) == false ==>
                Self::runs(a, b, 3, a.registers, b.pc, a.sp)
                    && b.pc % 256 == a.operand8()
                    && (quiet(wrap16(a.pc + 1)) ==> b.pc == a.operand16())
            &&& a.registers.flag(Flag::C) != false ==>
                Self::runs(a, b, 2, a.registers, wrap16(a.pc + 2), a.sp)
            &&& quiet_same(a.memory, b.memory)
        }
        &&& opcode == 0xD4 ==> {
            &&& a.registers.flag(Flag::C) == false ==>
                Self::pushed(a, b, wrap16(a.pc + 2)) && b.pc % 256 == a.operand8() && (quiet(wrap16(a.pc + 1)) ==> b.pc == a.operand16()) && Self::runs(
                    a,
                    b,
                    5,
                    a.registers,
                    b.pc,
                    wrap16(a.sp - 2),
                )
            &&& a.registers.flag(Flag::C) != false ==>
                Self::runs(a, b, 2, a.registers, wrap16(a.pc + 2), a.sp) && quiet_same(a.memory, b.memory)
        }
        &&& opcode == 0xD5 ==> {
            &&& Self::pushed(a, b, a.registers.reg_w(RegW::DE))
            &&& Self::runs(a, b, 3, a.registers, a.pc, wrap16(a.sp - 2))
        }
        &&& opcode == 0xD6 ==> {
            &&& Self::runs(a, b, 1, alu_regs(a.registers, 2, Reg::A, a.operand8()), wrap16(a.pc + 1), a.sp)
            &&& quiet_same(a.memory, b.memory)
        }
        &&& opcode == 0xD7 ==> {
            &&& Self::pushed(a, b, a.pc)
            &&& Self::runs(a, b, 3, a.registers, 0x10u16, wrap16(a.sp - 2))
        }
        &&& opcode == 0xD8 ==> {
            &&& a.registers.flag(Flag::C) == true ==> Self::runs(a, b, 4, a.registers, b.pc, wrap16(a.sp + 2))
            &&& a.registers.flag(Flag::C) == true && quiet(a.sp) && quiet(wrap16(a.sp + 1)) ==>
                b.pc == word(a.memory.peek(wrap16(a.sp + 1)), a.memory.peek(a.sp))
            &&& a.registers.flag(Flag::C) != true ==> Self::runs(a, b, 1, a.registers, a.pc, a.sp)
            &&& quiet_same(a.memory, b.memory)
        }
        &&& opcode == 0xD9 ==> {
            &&& Self::popped(a, b, b.pc)
            &&& b.ime
            &&& Self::runs(a, CPU { ime: a.ime, ..b }, 3, a.registers, b.pc, wrap16(a.sp + 2))
            &&& quiet_same(a.memory, b.memory)
        }
        &&& opcode == 0xDA ==> {
            &&& a.registers.flag(Flag::C) == true ==>
                Self::runs(a, b, 3, a.registers, b.pc, a.sp)
                    && b.pc % 256 == a.operand8()
                    && (quiet(wrap16(a.pc + 1)) ==> b.pc == a.operand16())
            &&& a.registers.flag(Flag::C) != true ==> Self::runs(a, b, 2, a.registers, wrap16(a.pc + 2), a.sp)
            &&& quiet_same(a.memory, b.memory)
        }
        &&& opcode == 0xDC ==> {
            &&& a.registers.flag(Flag::C) == true ==>
                Self::pushed(a, b, wrap16(a.pc + 2)) && b.pc % 256 == a.operand8() && (quiet(wrap16(a.pc + 1)) ==> b.pc == a.operand16()) && Self::runs(
                    a,
                    b,
                    5,
                    a.registers,
                    b.pc,
                    wrap16(a.sp - 2),
                )
            &&& a.registers.flag(Flag::C) != true ==>
                Self::runs(a, b, 2, a.registers, wrap16(a.pc + 2), a.sp) && quiet_same(a.memory, b.memory)
        }
        &&& opcode == 0xDE ==> {
            &&& Self::runs(a, b, 1, alu_regs(a.registers, 3, Reg::A, a.operand8()), wrap16(a.pc + 1), a.sp)
            &&& quiet_same(a.memory, b.memory)
        }
        &&& opcode == 0xDF ==> {
            &&& Self::pushed(a, b, a.pc)
            &&& Self::runs(a, b, 3, a.registers, 0x18u16, wrap16(a.sp - 2))
        }
    }

    /// The contract of the instruction handler that `opcode` names in this part of the
    /// main table, stated of `a` and `b`.
    pub open spec fn forwarded_io(a: CPU, b: CPU, opcode: u8) -> bool {
        &&& opcode == 0xE0 ==> {
            &&& Self::runs(a, b, 2, a.registers, wrap16(a.pc + 1), a.sp)
            &&& quiet_written(a.memory, b.memory, (0xFF00 + a.operand8()) as u16, a.registers.A)
        }
        &&& opcode == 0xE1 ==> {
            &&& quiet(a.sp) && quiet(wrap16(a.sp + 1)) ==>
                b.registers == a.registers.with_reg_w(
                    RegW::HL,
                    word(a.memory.peek(wrap16(a.sp + 1)), a.memory.peek(a.sp)),
                )
            &&& exists|v: u16| b.registers == a.registers.with_reg_w(RegW::HL, v)
            &&& Self::runs(a, b, 2, b.registers, a.pc, wrap16(a.sp + 2))
            &&& quiet_same(a.memory, b.memory)
        }
        &&& opcode == 0xE2 ==> {
            &&& Self::runs(a, b, 1, a.registers, a.pc, a.sp)
            &&& quiet_written(a.memory, b.memory, (0xFF00 + a.registers.C) as u16, a.registers.A)
        }
        &&& opcode == 0xE5 ==> {
            &&& Self::pushed(a, b, a.registers.reg_w(RegW::HL))
            &&& Self::runs(a, b, 3, a.registers, a.pc, wrap16(a.sp - 2))
        }
        &&& opcode == 0xE6 ==> {
            &&& Self::runs(a, b, 1, alu_regs(a.registers, 4, Reg::A, a.operand8()), wrap16(a.pc + 1), a.sp)
            &&& quiet_same(a.memory, b.memory)
        }
        &&& opcode == 0xE7 ==> {
            &&& Self::pushed(a, b, a.pc)
            &&& Self::runs(a, b, 3, a.registers, 0x20u16, wrap16(a.sp - 2))
        }
        &&& opcode == 0xE8 ==> {
            &&& Self::runs(
                a,
                b,
                3,
                a.registers.with_flags(
                    false,
                    false,
                    sp_offset(a.sp, a.operand8()).1,
                    sp_offset(a.sp, a.operand8()).2,
                ),
                wrap16(a.pc + 1),
                sp_offset(a.sp, a.operand8()).0,
            )
            &&& quiet_same(a.memory, b.memory)
        }
        &&& opcode == 0xE9 ==> {
            &&& b == (CPU { pc: a.registers.reg_w(RegW::HL), ..a })
        }
        &&& opcode == 0xEA ==> {
            &&& Self::runs(a, b, 3, a.registers, wrap16(a.pc + 2), a.sp)
            &&& quiet(wrap16(a.pc + 1)) ==> quiet_written(a.memory, b.memory, a.operand16(), a.registers.A)
        }
        &&& opcode == 0xEE ==> {
            &&& Self::runs(a, b, 1, alu_regs(a.registers, 5, Reg::A, a.operand8()), wrap16(a.pc + 1), a.sp)
            &&& quiet_same(a.memory, b.memory)
        }
        &&& opcode == 0xEF ==> {
            &&& Self::pushed(a, b, a.pc)
            &&& Self::runs(a, b, 3, a.registers, 0x28u16, wrap16(a.sp - 2))
        }
        &&& opcode == 0xF0 ==> {
            &&& quiet((0xFF00 + a.operand8()) as u16) ==>
                b.registers == a.registers.with_reg(Reg::A, a.memory.peek((0xFF00 + a.operand8()) as u16))
            &&& exists|v: u8| b.registers == a.registers.with_reg(Reg::A, v)
            &&& Self::runs(a, b, 2, b.registers, wrap16(a.pc + 1), a.sp)
            &&& quiet_same(a.memory, b.memory)
        }
        &&& opcode == 0xF1 ==> {
            &&& quiet(a.sp) && quiet(wrap16(a.sp + 1)) ==>
                b.registers == a.registers.with_reg_w(
                    RegW::AF,
                    word(a.memory.peek(wrap16(a.sp + 1)), a.memory.peek(a.sp)),
                )
            &&& exists|v: u16| b.registers == a.registers.with_reg_w(RegW::AF, v)
            &&& Self::runs(a, b, 2, b.registers, a.pc, wrap16(a.sp + 2))
            &&& quiet_same(a.memory, b.memory)
        }
        &&& opcode == 0xF2 ==> {
            &&& Self::runs(
                a,
                b,
                1,
                a.registers.with_reg(Reg::A, a.bus_value((0xFF00 + a.registers.C) as u16)),
                a.pc,
                a.sp,
            )
            &&& quiet_same(a.memory, b.memory)
        }
        &&& opcode == 0xF3 ==> {
            &&& b == (CPU { ime: false, ime_waiting: false, ..a })
        }
        &&& opcode == 0xF5 ==> {
            &&& Self::pushed(a, b, a.registers.reg_w(RegW::AF))
            &&& Self::runs(a, b, 3, a.registers, a.pc, wrap16(a.sp - 2))
        }
        &&& opcode == 0xF6 ==> {
            &&& Self::runs(a, b, 1, alu_regs(a.registers, 6, Reg::A, a.operand8()), wrap16(a.pc + 1), a.sp)
            &&& quiet_same(a.memory, b.memory)
        }
        &&& opcode == 0xF7 ==> {
            &&& Self::pushed(a, b, a.pc)
            &&& Self::runs(a, b, 3, a.registers, 0x30u16, wrap16(a.sp - 2))
        }
        &&& opcode == 0xF8 ==> {
            &&& Self::runs(
                a,
                b,
                2,
                a.registers.with_reg_w(RegW::HL, sp_offset(a.sp, a.operand8()).0).with_flags(
                    false,
                    false,
                    sp_offset(a.sp, a.operand8()).1,
                    sp_offset(a.sp, a.operand8()).2,
                ),
                wrap16(a.pc + 1),
                a.sp,
            )
            &&& quiet_same(a.memory, b.memory)
        }
        &&& opcode == 0xF9 ==> {
            &&& Self::runs(a, b, 1, a.registers, a.pc, a.registers.reg_w(RegW::HL))
            &&& quiet_same(a.memory, b.memory)
        }
        &&& opcode == 0xFA ==> {
            &&& quiet(wrap16(a.pc + 1)) && quiet(a.operand16()) ==>
                b.registers == a.registers.with_reg(Reg::A, a.memory.peek(a.operand16()))
            &&& exists|v: u8| b.registers == a.registers.with_reg(Reg::A, v)
            &&& Self::runs(a, b, 3, b.registers, wrap16(a.pc + 2), a.sp)
            &&& quiet_same(a.memory, b.memory)
        }
        &&& opcode == 0xFB ==> {
            &&& b == (CPU { ime_waiting: true, ..a })
        }
        &&& opcode == 0xFE ==> {
            &&& Self::runs(a, b, 1, alu_regs(a.registers, 7, Reg::A, a.operand8()), wrap16(a.pc + 1), a.sp)
            &&& quiet_same(a.memory, b.memory)
        }
        &&& opcode == 0xFF ==> {
            &&& Self::pushed(a, b, a.pc)
            &&& Self::runs(a, b, 3, a.registers, 0x38u16, wrap16(a.sp - 2))
        }
    }

    /// What executing `opcode` does to `a`, giving `b`.
    pub open spec fn executed(a: CPU, b: CPU, opcode: u8) -> bool {
        let r = a.registers;
        let y = reg_code(opcode / 8);
        let z = reg_code(opcode % 8);
        &&& b.wf()
        &&& opcode != 0xF3 && opcode != 0xFB && opcode != 0xD9 ==> b.ime == (a.ime || a.ime_waiting)
            && !b.ime_waiting
        &&& opcode == 0xFB ==> b.ime_waiting && b.ime == a.ime
        &&& opcode == 0xF3 ==> !b.ime && !b.ime_waiting
        &&& opcode == 0xD9 ==> b.ime && !b.ime_waiting
        &&& opcode == 0x76 ==> b.halted
        &&& opcode == 0x00 ==> b == (CPU { ime: b.ime, ime_waiting: b.ime_waiting, ..a })
        &&& 0x40 <= opcode < 0x80 && opcode != 0x76 && opcode % 8 != 6 && (opcode / 8) % 8 != 6 ==> b == (CPU {
            registers: r.with_reg(reg_code((opcode / 8) % 8), r.reg(z)),
            ime: b.ime,
            ime_waiting: b.ime_waiting,
            ..a
        })
        &&& 0x80 <= opcode < 0xC0 && opcode % 8 != 6 ==> b == (CPU {
            registers: alu_regs(r, (opcode / 8) % 8, Reg::A, r.reg(z)),
            ime: b.ime,
            ime_waiting: b.ime_waiting,
            ..a
        })
        &&& opcode < 0x40 && opcode % 8 == 6 && opcode != 0x36 ==> b.registers == r.with_reg(y, a.operand8())
            && b.pc == wrap16(a.pc + 1)
        &&& opcode < 0x40 && opcode % 8 == 4 && opcode != 0x34 ==> b.registers == r.with_reg(
            y,
            wrap8(r.reg(y) + 1),
        ).with_flags(wrap8(r.reg(y) + 1) == 0, false, r.reg(y) % 16 == 15, r.flag(Flag::C))
        &&& opcode < 0x40 && opcode % 8 == 5 && opcode != 0x35 ==> b.registers == r.with_reg(
            y,
            wrap8(r.reg(y) - 1),
        ).with_flags(wrap8(r.reg(y) - 1) == 0, true, r.reg(y) % 16 == 0, r.flag(Flag::C))
        &&& opcode == 0xC3 && quiet(wrap16(a.pc + 1)) ==> b.pc == a.operand16()
        &&& opcode == 0xCD ==> Self::pushed(a, b, wrap16(a.pc + 2))
        &&& opcode == 0xCD && quiet(wrap16(a.pc + 1)) ==> b.pc == a.operand16()
        &&& opcode == 0xC9 ==> Self::popped(a, b, b.pc)
        &&& opcode % 16 == 5 && opcode >= 0xC0 ==> b.sp == wrap16(a.sp - 2)
        &&& opcode % 16 == 1 && opcode >= 0xC0 ==> b.sp == wrap16(a.sp + 2)
        &&& opcode == 0xCB ==> Self::cb_done(a, b)
        &&& opcode < 0x40 || opcode == 0x76 ==> Self::forwarded_low(Self::latched(a, opcode), b, opcode)
        &&& 0xC0 <= opcode < 0xE0 && opcode != 0xCB ==> Self::forwarded_stack(Self::latched(a, opcode), b, opcode)
        &&& 0xE0 <= opcode ==> Self::forwarded_io(Self::latched(a, opcode), b, opcode)
    }

    /// Runs one already-fetched opcode. A pending interrupt enable takes effect first,
    /// unless the opcode is itself the enable; the opcode then goes through the main table,
    /// or through the extended table after the escape byte 0xCB.
    #[verifier::rlimit(100)]
    pub fn execute(&mut self, opcode: u8)
        requires
            old(self).wf(),
            Self::is_defined(opcode),
        ensures
            Self::executed(*old(self), *final(self), opcode),
    {
        if self.ime_waiting && opcode != 0xFB {
            self.ime = true;
            self.ime_waiting = false;
        }
        if opcode == 0xCB {
            self.execute_cb();
        } else if 0x40 <= opcode && opcode <= 0xBF && opcode != 0x76 {
            self.execute_block(opcode);
        } else if opcode < 0x20 {
            self.execute_low(opcode);
        } else if opcode < 0x80 {
            self.execute_mid(opcode);
        } else if opcode < 0xE0 {
            self.execute_stack(opcode);
        } else {
            self.execute_io(opcode);
        }
    }

    /// LD (HL±), A: stores A at HL, then moves HL one up or down.
    #[verifier::rlimit(60)]
    fn store_a_hl_step(&mut self, up: bool)
        requires
            old(self).wf(),
        ensures
            Self::runs(
                *old(self),
                *final(self),
                1,
                old(self).registers.with_reg_w(RegW::HL, if up { wrap16(old(self).registers.reg_w(RegW::HL) + 1) } else { wrap16(old(self).registers.reg_w(RegW::HL) - 1) }),
                old(self).pc,
                old(self).sp,
            ),
            quiet_written(old(self).memory, final(self).memory, old(self).registers.reg_w(RegW::HL), old(self).registers.A),
    {
        self.regWaddr_ld_reg(RegW::HL, Reg::A);
        self.step_hl(up);
    }

    /// LD A, (HL±): loads A from HL, then moves HL one up or down.
    #[verifier::rlimit(60)]
    fn load_a_hl_step(&mut self, up: bool)
        requires
            old(self).wf(),
        ensures
            Self::runs(
                *old(self),
                *final(self),
                1,
                old(self).registers.with_reg(Reg::A, old(self).bus_value(old(self).registers.reg_w(RegW::HL))).with_reg_w(
                    RegW::HL,
                    if up { wrap16(old(self).registers.reg_w(RegW::HL) + 1) } else { wrap16(old(self).registers.reg_w(RegW::HL) - 1) },
                ),
                old(self).pc,
                old(self).sp,
            ),
            quiet_same(old(self).memory, final(self).memory),
    {
        self.reg_ld_regWaddr(Reg::A, RegW::HL);
        self.step_hl(up);
    }

    /// INC SP / DEC SP: one internal cycle.
    #[verifier::rlimit(60)]
    fn step_sp(&mut self, up: bool)
        requires
            old(self).wf(),
        ensures
            Self::runs(
                *old(self),
                *final(self),
                1,
                old(self).registers,
                old(self).pc,
                if up { wrap16(old(self).sp + 1) } else { wrap16(old(self).sp - 1) },
            ),
            quiet_same(old(self).memory, final(self).memory),
    {
        self.sp = if up { self.sp.wrapping_add(1) } else { self.sp.wrapping_sub(1) };
        self.m_cycle();
    }

    /// The main-table opcodes below 0x20: operand loads, 16-bit arithmetic, increments, rotates of A and the relative jump.
    #[verifier::spinoff_prover]
    #[verifier::rlimit(100)]
    fn execute_low(&mut self, opcode: u8)
        requires
            old(self).wf(),
            opcode < 0x20,
        ensures
            Self::forwarded_low(*old(self), *final(self), opcode),
            final(self).wf(),
            final(self).ime == old(self).ime && final(self).ime_waiting == old(self).ime_waiting,
            opcode == 0x76 ==> final(self).halted,
            opcode == 0x00 ==> *final(self) == *old(self),
            opcode < 0x40 && opcode % 8 == 6 && opcode != 0x36 ==> final(self).registers
                == old(self).registers.with_reg(reg_code(opcode / 8), old(self).operand8()) && final(self).pc
                == wrap16(old(self).pc + 1),
            opcode < 0x40 && opcode % 8 == 4 && opcode != 0x34 ==> final(self).registers == old(self).registers.with_reg(reg_code(opcode / 8), wrap8(old(self).registers.reg(reg_code(opcode / 8)) + 1)).with_flags(
                wrap8(old(self).registers.reg(reg_code(opcode / 8)) + 1) == 0,
                false,
                old(self).registers.reg(reg_code(opcode / 8)) % 16 == 15,
                old(self).registers.flag(Flag::C),
            ),
            opcode < 0x40 && opcode % 8 == 5 && opcode != 0x35 ==> final(self).registers == old(self).registers.with_reg(reg_code(opcode / 8), wrap8(old(self).registers.reg(reg_code(opcode / 8)) - 1)).with_flags(
                wrap8(old(self).registers.reg(reg_code(opcode / 8)) - 1) == 0,
                true,
                old(self).registers.reg(reg_code(opcode / 8)) % 16 == 0,
                old(self).registers.flag(Flag::C),
            ),
    {
        match opcode {
            0x00 => {},
            0x01 => {
                self.regW_ld_operand(RegW::BC);
            },
            0x02 => {
                self.regWaddr_ld_reg(RegW::BC, Reg::A);
            },
            0x03 => {
                self.inc_regW(RegW::BC);
            },
            0x04 => {
                self.inc_reg(Reg::B);
            },
            0x05 => {
                self.dec_reg(Reg::B);
            },
            0x06 => {
                self.reg_ld_operand(Reg::B);
            },
            0x07 => {
                self.rlca();
            },
            0x08 => {
                self.addr_ld_sp();
            },
            0x09 => {
                self.regW_add_regW(RegW::HL, RegW::BC);
            },
            0x0a => {
                self.reg_ld_regWaddr(Reg::A, RegW::BC);
            },
            0x0b => {
                self.dec_regW(RegW::BC);
            },
            0x0c => {
                self.inc_reg(Reg::C);
            },
            0x0d => {
                self.dec_reg(Reg::C);
            },
            0x0e => {
                self.reg_ld_operand(Reg::C);
            },
            0x0f => {
                self.rrca();
            },
            0x10 => {},
            0x11 => {
                self.regW_ld_operand(RegW::DE);
            },
            0x12 => {
                self.regWaddr_ld_reg(RegW::DE, Reg::A);
            },
            0x13 => {
                self.inc_regW(RegW::DE);
            },
            0x14 => {
                self.inc_reg(Reg::D);
            },
            0x15 => {
                self.dec_reg(Reg::D);
            },
            0x16 => {
                self.reg_ld_operand(Reg::D);
            },
            0x17 => {
                self.rla();
            },
            0x18 => {
                self.jr();
            },
            0x19 => {
                self.regW_add_regW(RegW::HL, RegW::DE);
            },
            0x1a => {
                self.reg_ld_regWaddr(Reg::A, RegW::DE);
            },
            0x1b => {
                self.dec_regW(RegW::DE);
            },
            0x1c => {
                self.inc_reg(Reg::E);
            },
            0x1d => {
                self.dec_reg(Reg::E);
            },
            0x1e => {
                self.reg_ld_operand(Reg::E);
            },
            0x1f => {
                self.rra();
            },
            _ => {},
        }
    }

    /// The main-table opcodes 0x20–0x3F, and halt: conditional relative jumps, loads through HL with auto-increment, decimal adjust and the flag operations.
    #[verifier::spinoff_prover]
    #[verifier::rlimit(100)]
    fn execute_mid(&mut self, opcode: u8)
        requires
            old(self).wf(),
            (0x20 <= opcode < 0x40 || opcode == 0x76),
        ensures
            Self::forwarded_low(*old(self), *final(self), opcode),
            final(self).wf(),
            final(self).ime == old(self).ime && final(self).ime_waiting == old(self).ime_waiting,
            opcode == 0x76 ==> final(self).halted,
            opcode == 0x00 ==> *final(self) == *old(self),
            opcode < 0x40 && opcode % 8 == 6 && opcode != 0x36 ==> final(self).registers
                == old(self).registers.with_reg(reg_code(opcode / 8), old(self).operand8()) && final(self).pc
                == wrap16(old(self).pc + 1),
            opcode < 0x40 && opcode % 8 == 4 && opcode != 0x34 ==> final(self).registers == old(self).registers.with_reg(reg_code(opcode / 8), wrap8(old(self).registers.reg(reg_code(opcode / 8)) + 1)).with_flags(
                wrap8(old(self).registers.reg(reg_code(opcode / 8)) + 1) == 0,
                false,
                old(self).registers.reg(reg_code(opcode / 8)) % 16 == 15,
                old(self).registers.flag(Flag::C),
            ),
            opcode < 0x40 && opcode % 8 == 5 && opcode != 0x35 ==> final(self).registers == old(self).registers.with_reg(reg_code(opcode / 8), wrap8(old(self).registers.reg(reg_code(opcode / 8)) - 1)).with_flags(
                wrap8(old(self).registers.reg(reg_code(opcode / 8)) - 1) == 0,
                true,
                old(self).registers.reg(reg_code(opcode / 8)) % 16 == 0,
                old(self).registers.flag(Flag::C),
            ),
    {
        match opcode {
            0x20 => {
                self.jr_nf(Flag::Z);
            },
            0x21 => {
                self.regW_ld_operand(RegW::HL);
            },
            0x22 => {
                self.store_a_hl_step(true);
            },
            0x23 => {
                self.inc_regW(RegW::HL);
            },
            0x24 => {
                self.inc_reg(Reg::H);
            },
            0x25 => {
                self.dec_reg(Reg::H);
            },
            0x26 => {
                self.reg_ld_operand(Reg::H);
            },
            0x27 => {
                self.daa();
            },
            0x28 => {
                self.jr_f(Flag::Z);
            },
            0x29 => {
                self.regW_add_regW(RegW::HL, RegW::HL);
            },
            0x2a => {
                self.load_a_hl_step(true);
            },
            0x2b => {
                self.dec_regW(RegW::HL);
            },
            0x2c => {
                self.inc_reg(Reg::L);
            },
            0x2d => {
                self.dec_reg(Reg::L);
            },
            0x2e => {
                self.reg_ld_operand(Reg::L);
            },
            0x2f => {
                self.cpl();
            },
            0x30 => {
                self.jr_nf(Flag::C);
            },
            0x31 => {
                self.sp_ld_operand();
            },
            0x32 => {
                self.store_a_hl_step(false);
            },
            0x33 => {
                self.step_sp(true);
            },
            0x34 => {
                self.inc_addr(RegW::HL);
            },
            0x35 => {
                self.dec_addr(RegW::HL);
            },
            0x36 => {
                self.regWaddr_ld_operand(RegW::HL);
            },
            0x37 => {
                self.scf();
            },
            0x38 => {
                self.jr_f(Flag::C);
            },
            0x39 => {
                self.regW_add_sp(RegW::HL);
            },
            0x3a => {
                self.load_a_hl_step(false);
            },
            0x3b => {
                self.step_sp(false);
            },
            0x3c => {
                self.inc_reg(Reg::A);
            },
            0x3d => {
                self.dec_reg(Reg::A);
            },
            0x3e => {
                self.reg_ld_operand(Reg::A);
            },
            0x3f => {
                self.ccf();
            },
            0x76 => {
                self.halted = true;
            },
            _ => {},
        }
    }

    /// The main-table opcodes 0xC0–0xDF: returns, pops, jumps, calls, pushes, restarts and operand arithmetic.
    #[verifier::spinoff_prover]
    #[verifier::rlimit(100)]
    fn execute_stack(&mut self, opcode: u8)
        requires
            old(self).wf(),
            0xC0 <= opcode < 0xE0,
        ensures
            Self::forwarded_stack(*old(self), *final(self), opcode),
            final(self).wf(),
            opcode != 0xD9 ==> final(self).ime == old(self).ime,
            final(self).ime_waiting == old(self).ime_waiting,
            opcode == 0xD9 ==> final(self).ime,
            opcode == 0xC3 && quiet(wrap16(old(self).pc + 1)) ==> final(self).pc == old(self).operand16(),
            opcode == 0xCD ==> Self::pushed(*old(self), *final(self), wrap16(old(self).pc + 2)),
            opcode == 0xCD && quiet(wrap16(old(self).pc + 1)) ==> final(self).pc == old(self).operand16(),
            opcode == 0xC9 ==> Self::popped(*old(self), *final(self), final(self).pc),
            opcode % 16 == 5 && opcode >= 0xC0 ==> final(self).sp == wrap16(old(self).sp - 2),
            opcode % 16 == 1 && opcode >= 0xC0 ==> final(self).sp == wrap16(old(self).sp + 2),
    {
        match opcode {
            0xc0 => {
                self.ret_nf(Flag::Z);
            },
            0xc1 => {
                self.regW_pop_sp(RegW::BC);
            },
            0xc2 => {
                self.jp_nf(Flag::Z);
            },
            0xc3 => {
                self.jp();
            },
            0xc4 => {
                self.call_nf(Flag::Z);
            },
            0xc5 => {
                self.regW_push_sp(RegW::BC);
            },
            0xc6 => {
                self.reg_add_operand(Reg::A);
            },
            0xc7 => {
                self.rst(0x00);
            },
            0xc8 => {
                self.ret_f(Flag::Z);
            },
            0xc9 => {
                self.ret();
            },
            0xca => {
                self.jp_f(Flag::Z);
            },
            0xcc => {
                self.call_f(Flag::Z);
            },
            0xcd => {
                self.call();
            },
            0xce => {
                self.reg_adc_operand(Reg::A);
            },
            0xcf => {
                self.rst(0x08);
            },
            0xd0 => {
                self.ret_nf(Flag::C);
            },
            0xd1 => {
                self.regW_pop_sp(RegW::DE);
            },
            0xd2 => {
                self.jp_nf(Flag::C);
            },
            0xd4 => {
                self.call_nf(Flag::C);
            },
            0xd5 => {
                self.regW_push_sp(RegW::DE);
            },
            0xd6 => {
                self.reg_sub_operand(Reg::A);
            },
            0xd7 => {
                self.rst(0x10);
            },
            0xd8 => {
                self.ret_f(Flag::C);
            },
            0xd9 => {
                self.reti();
            },
            0xda => {
                self.jp_f(Flag::C);
            },
            0xdc => {
                self.call_f(Flag::C);
            },
            0xde => {
                self.reg_sbc_operand(Reg::A);
            },
            0xdf => {
                self.rst(0x18);
            },
            _ => {},
        }
    }

    /// The main-table opcodes 0xE0–0xFF: high-page loads, stack pointer arithmetic, interrupt control and operand logic.
    #[verifier::spinoff_prover]
    #[verifier::rlimit(100)]
    fn execute_io(&mut self, opcode: u8)
        requires
            old(self).wf(),
            0xE0 <= opcode,
        ensures
            Self::forwarded_io(*old(self), *final(self), opcode),
            final(self).wf(),
            opcode != 0xF3 && opcode != 0xFB ==> final(self).ime == old(self).ime && final(self).ime_waiting
                == old(self).ime_waiting,
            opcode == 0xFB ==> final(self).ime_waiting && final(self).ime == old(self).ime,
            opcode == 0xF3 ==> !final(self).ime && !final(self).ime_waiting,
            opcode % 16 == 5 ==> final(self).sp == wrap16(old(self).sp - 2),
            opcode % 16 == 1 ==> final(self).sp == wrap16(old(self).sp + 2),
    {
        match opcode {
            0xe0 => {
                self.u8ff00_ld_reg();
            },
            0xe1 => {
                self.regW_pop_sp(RegW::HL);
            },
            0xe2 => {
                self.regff00_ld_reg();
            },
            0xe5 => {
                self.regW_push_sp(RegW::HL);
            },
            0xe6 => {
                self.reg_and_operand(Reg::A);
            },
            0xe7 => {
                self.rst(0x20);
            },
            0xe8 => {
                self.sp_add_operand();
            },
            0xe9 => {
                self.jp_hl();
            },
            0xea => {
                self.addr_ld_regA();
            },
            0xee => {
                self.reg_xor_operand(Reg::A);
            },
            0xef => {
                self.rst(0x28);
            },
            0xf0 => {
                self.reg_ld_u8ff00();
            },
            0xf1 => {
                self.regW_pop_sp(RegW::AF);
            },
            0xf2 => {
                self.reg_ld_regff00();
            },
            0xf3 => {
                self.di();
            },
            0xf5 => {
                self.regW_push_sp(RegW::AF);
            },
            0xf6 => {
                self.reg_or_operand(Reg::A);
            },
            0xf7 => {
                self.rst(0x30);
            },
            0xf8 => {
                self.hl_ld_spi8();
            },
            0xf9 => {
                self.sp_ld_hl();
            },
            0xfa => {
                self.regA_ld_addr();
            },
            0xfb => {
                self.ei();
            },
            0xfe => {
                self.reg_cp_operand(Reg::A);
            },
            0xff => {
                self.rst(0x38);
            },
            _ => {},
        }
    }
}

/// The kind of interrupt whose request bit is bit `i` (0–4) of the request byte.
pub open spec fn kind_of(i: u8) -> Interrupt {
    if i == 0 {
        Interrupt::VBlank
    } else if i == 1 {
        Interrupt::STAT
    } else if i == 2 {
        Interrupt::Timer
    } else if i == 3 {
        Interrupt::Serial
    } else {
        Interrupt::Joypad
    }
}

/// Decodes a request-bit index.
fn interrupt_of(i: u8) -> (r: Interrupt)
    ensures
        r == kind_of(i),
{
    if i == 0 {
        Interrupt::VBlank
    } else if i == 1 {
        Interrupt::STAT
    } else if i == 2 {
        Interrupt::Timer
    } else if i == 3 {
        Interrupt::Serial
    } else {
        Interrupt::Joypad
    }
}

/// Bit of an interrupt in the request and enable bytes.
fn bit_of_interrupt(int_kind: Interrupt) -> (r: u8)
    ensures
        r == interrupt_bit(int_kind),
{
    match int_kind {
        Interrupt::VBlank => 1,
        Interrupt::STAT => 2,
        Interrupt::Timer => 4,
        Interrupt::Serial => 8,
        Interrupt::Joypad => 16,
    }
}

/// Whether an interrupt may be dispatched under global enable `ime` and enable byte `ie`.
pub open spec fn allowed(ime: bool, ie: u8, k: Interrupt) -> bool {
    ime && ie & interrupt_bit(k) != 0
}

/// The members of a sequence with one item appended.
proof fn lemma_push_contains(s: Seq<Interrupt>, v: Interrupt)
    ensures
        forall|x: Interrupt| #[trigger] s.push(v).contains(x) <==> (s.contains(x) || x == v),
{
    assert forall|x: Interrupt| #[trigger] s.push(v).contains(x) implies (s.contains(x) || x == v) by {
        let j = choose|j: int| 0 <= j < s.push(v).len() && s.push(v)[j] == x;
        if j < s.len() {
            assert(s[j] == x);
        }
    }
    assert forall|x: Interrupt| s.contains(x) || x == v implies #[trigger] s.push(v).contains(x) by {
        if s.contains(x) {
            let j = choose|j: int| 0 <= j < s.len() && s[j] == x;
            assert(s.push(v)[j] == x);
        } else {
            assert(s.push(v)[s.len() as int] == x);
        }
    }
}

/// Membership survives removing a different position.
proof fn lemma_remove_keeps(s: Seq<Interrupt>, i: int, x: Interrupt)
    requires
        0 <= i < s.len(),
        s.contains(x),
    ensures
        x == s[i] || s.remove(i).contains(x),
{
    let j = choose|j: int| 0 <= j < s.len() && s[j] == x;
    if j < i {
        assert(s.remove(i)[j] == x);
    } else if j > i {
        assert(s.remove(i)[j - 1] == x);
    }
}

/// Members of a sequence with one position removed were members before.
proof fn lemma_remove_from(s: Seq<Interrupt>, i: int, x: Interrupt)
    requires
        0 <= i < s.len(),
        s.remove(i).contains(x),
    ensures
        s.contains(x),
{
    let j = choose|j: int| 0 <= j < s.remove(i).len() && s.remove(i)[j] == x;
    if j < i {
        assert(s[j] == x);
    } else {
        assert(s[j + 1] == x);
    }
}

impl CPU {
    /// The outcome of serving the queue `a.interrupt_queue` under enable byte `ie`: if some
    /// queued interrupt is allowed, the one of highest priority among the allowed ones is
    /// dispatched (its vector in PC, interrupts off, out of the queue) and the others stay
    /// queued; otherwise PC, the enable and the queue's members are unchanged.
    pub open spec fn served(a: CPU, b: CPU, ie: u8, flags: u8) -> bool {
        let q = a.interrupt_queue@;
        &&& b.wf()
        &&& forall|x: Interrupt| b.interrupt_queue@.contains(x) ==> q.contains(x)
        &&& (exists|j: int| 0 <= j < q.len() && allowed(a.ime, ie, #[trigger] q[j])) ==> exists|i: int|
            {
                &&& 0 <= i < q.len()
                &&& allowed(a.ime, ie, q[i])
                &&& b.pc == vector(q[i])
                &&& !b.ime
                &&& forall|j: int| 0 <= j < q.len() && allowed(a.ime, ie, #[trigger] q[j]) ==> priority(q[j])
                    <= priority(q[i])
                &&& forall|j: int| 0 <= j < q.len() && q[j] != q[i] ==>
                    b.interrupt_queue@.contains(#[trigger] q[j])
                &&& b.memory.peek(0xFF0F) == flags & !interrupt_bit(q[i])
                &&& !b.interrupt_queue@.contains(q[i])
                &&& Self::pushed(a, b, a.pc)
                &&& b.t_cycles == wrap16(a.t_cycles + 16)
                &&& b.registers == a.registers
            }
        &&& !(exists|j: int| 0 <= j < q.len() && allowed(a.ime, ie, #[trigger] q[j])) ==> {
            &&& b.pc == a.pc
            &&& b.ime == a.ime
            &&& b.registers == a.registers
            &&& b.sp == a.sp
            &&& b.memory == a.memory
            &&& b.t_cycles == a.t_cycles
            &&& forall|x: Interrupt| q.contains(x) ==> b.interrupt_queue@.contains(x)
        }
    }

    /// Raises the request bit of `bit` in the request byte (0xFF0F).
    #[verifier::rlimit(60)]
    fn request(&mut self, bit: u8)
        requires
            old(self).wf(),
        ensures
            final(self).wf(),
            final(self).memory.peek(0xFF0F) == old(self).memory.peek(0xFF0F) | bit,
            forall|a: u16| a != 0xFF0F ==> #[trigger] final(self).memory.peek(a) == old(self).memory.peek(a),
            quiet_same(old(self).memory, final(self).memory),
            *final(self) == (CPU { memory: final(self).memory, ..*old(self) }),
    {
        let flags = self.memory.read(0xFF0F);
        self.memory.write(0xFF0F, flags | bit);
    }

    /// Moves the video controller's vertical-blank signal into the request byte.
    #[verifier::rlimit(60)]
    pub fn set_vblank_flag(&mut self)
        requires
            old(self).wf(),
        ensures
            *final(self) == (CPU { memory: final(self).memory, ppu: PPU { entered_vblank: false, ..old(self).ppu }, ..*old(self) }),
            final(self).wf(),
            !final(self).ppu.entered_vblank,
            old(self).ppu.entered_vblank ==>
                final(self).memory.peek(0xFF0F) == old(self).memory.peek(0xFF0F) | 1,
            !old(self).ppu.entered_vblank ==> *final(self) == *old(self),
            final(self).memory.peek(0xFFFF) == old(self).memory.peek(0xFFFF),
            quiet_same(old(self).memory, final(self).memory),
            final(self).registers == old(self).registers && final(self).pc == old(self).pc,
            final(self).interrupt_queue@ == old(self).interrupt_queue@ && final(self).ime == old(self).ime,
    {
        if self.ppu.entered_vblank {
            self.ppu.entered_vblank = false;
            self.request(1);
        }
    }

    /// Moves the video controller's LCD-status signal into the request byte.
    #[verifier::rlimit(60)]
    pub fn set_stat_flag(&mut self)
        requires
            old(self).wf(),
        ensures
            *final(self) == (CPU { memory: final(self).memory, ppu: PPU { stat_irq: false, ..old(self).ppu }, ..*old(self) }),
            final(self).wf(),
            !final(self).ppu.stat_irq,
            old(self).ppu.stat_irq ==> final(self).memory.peek(0xFF0F) == old(self).memory.peek(0xFF0F) | 2,
            !old(self).ppu.stat_irq ==> *final(self) == *old(self),
            final(self).memory.peek(0xFFFF) == old(self).memory.peek(0xFFFF),
            quiet_same(old(self).memory, final(self).memory),
            final(self).registers == old(self).registers && final(self).pc == old(self).pc,
            final(self).interrupt_queue@ == old(self).interrupt_queue@ && final(self).ime == old(self).ime,
    {
        if self.ppu.stat_irq {
            self.ppu.stat_irq = false;
            self.request(2);
        }
    }

    /// Moves the timer's overflow signal into the request byte.
    #[verifier::rlimit(60)]
    pub fn set_tima_flag(&mut self)
        requires
            old(self).wf(),
        ensures
            *final(self) == (CPU { memory: final(self).memory, timer: Timer { tima_overflow_irq: false, ..old(self).timer }, ..*old(self) }),
            final(self).wf(),
            !final(self).timer.tima_overflow_irq,
            old(self).timer.tima_overflow_irq ==>
                final(self).memory.peek(0xFF0F) == old(self).memory.peek(0xFF0F) | 4,
            !old(self).timer.tima_overflow_irq ==> *final(self) == *old(self),
            final(self).memory.peek(0xFFFF) == old(self).memory.peek(0xFFFF),
            quiet_same(old(self).memory, final(self).memory),
            final(self).registers == old(self).registers && final(self).pc == old(self).pc,
            final(self).interrupt_queue@ == old(self).interrupt_queue@ && final(self).ime == old(self).ime,
    {
        if self.timer.tima_overflow_irq {
            self.timer.tima_overflow_irq = false;
            self.request(4);
        }
    }

    /// Marks an interrupt kind as queued.
    #[verifier::rlimit(60)]
    pub fn set_interrupt_queue_bitflag(&mut self, int_kind: Interrupt)
        ensures
            *final(self) == (CPU {
                interrupt_queue_bitflags: old(self).interrupt_queue_bitflags | interrupt_bit(int_kind),
                ..*old(self)
            }),
    {
        self.interrupt_queue_bitflags = self.interrupt_queue_bitflags | bit_of_interrupt(int_kind);
    }

    /// Whether an interrupt kind is marked as queued.
    pub fn get_interrupt_queue_bitflag(&self, int_kind: Interrupt) -> (r: bool)
        ensures
            r == (self.interrupt_queue_bitflags & interrupt_bit(int_kind) != 0),
    {
        self.interrupt_queue_bitflags & bit_of_interrupt(int_kind) != 0
    }

    /// Unmarks an interrupt kind.
    #[verifier::rlimit(60)]
    pub fn clear_interrupt_queue_bitflag(&mut self, int_kind: Interrupt)
        ensures
            *final(self) == (CPU {
                interrupt_queue_bitflags: old(self).interrupt_queue_bitflags & !interrupt_bit(int_kind),
                ..*old(self)
            }),
    {
        self.interrupt_queue_bitflags = self.interrupt_queue_bitflags & !bit_of_interrupt(int_kind);
    }

    /// Dispatches an interrupt: two wait cycles, PC pushed, interrupts off, jump to the
    /// interrupt's vector.
    #[verifier::rlimit(80)]
    pub fn handle_interrupt(&mut self, int_kind: Interrupt)
        requires
            old(self).wf(),
        ensures
            final(self).wf(),
            Self::pushed(*old(self), *final(self), old(self).pc),
            final(self).pc == vector(int_kind),
            !final(self).ime,
            final(self).registers == old(self).registers,
            final(self).interrupt_queue@ == old(self).interrupt_queue@,
            final(self).t_cycles == wrap16(old(self).t_cycles + 16),
            final(self).interrupt_queue_bitflags == old(self).interrupt_queue_bitflags & !interrupt_bit(int_kind),
    {
        self.m_cycle();
        self.m_cycle();
        let ret = self.pc;
        self.stack_push(ret);
        self.ime = false;
        self.pc = match int_kind {
            Interrupt::VBlank => 0x40,
            Interrupt::STAT => 0x48,
            Interrupt::Timer => 0x50,
            Interrupt::Serial => 0x58,
            Interrupt::Joypad => 0x60,
        };
        self.clear_interrupt_queue_bitflag(int_kind);
    }

    /// Serves the queue in priority order: the first allowed interrupt is dispatched and its
    /// request bit cleared in the snapshot `flags` of the request byte; every other one is
    /// queued again.
    #[verifier::rlimit(60)]
    pub fn dispatch_pending(&mut self, ie: u8, flags: u8)
        requires
            old(self).wf(),
        ensures
            Self::served(*old(self), *final(self), ie, flags),
    {
        let ghost q = self.interrupt_queue@;
        let ghost ime0 = self.ime;
        let mut kept: Vec<Interrupt> = Vec::new();
        let mut chosen: Option<Interrupt> = None;
        while !self.interrupt_queue.is_empty()
            invariant
                self.wf(),
                forall|j: int|
                    0 <= j < q.len() ==>
                        kept@.contains(#[trigger] q[j]) || self.interrupt_queue@.contains(q[j])
                        || chosen == Some(q[j]),
                forall|x: Interrupt| #[trigger] kept@.contains(x) ==> q.contains(x),
                forall|x: Interrupt| #[trigger] self.interrupt_queue@.contains(x) ==> q.contains(x),
                chosen.is_none() ==> forall|x: Interrupt| #[trigger] kept@.contains(x) ==> !allowed(
                    ime0,
                    ie,
                    x,
                ),
                chosen.is_none() ==> self.ime == ime0 && self.pc == old(self).pc && self.registers
                    == old(self).registers && self.sp == old(self).sp,
                chosen.is_none() ==> self.memory == old(self).memory && self.t_cycles == old(self).t_cycles,
                chosen.is_some() ==> self.memory.peek(0xFF0F) == flags & !interrupt_bit(chosen.unwrap())
                    && Self::pushed(*old(self), *self, old(self).pc) && self.t_cycles == wrap16(
                    old(self).t_cycles + 16,
                ) && self.registers == old(self).registers,
                chosen.is_some() ==> {
                    let c = chosen.unwrap();
                    &&& allowed(ime0, ie, c)
                    &&& q.contains(c)
                    &&& self.pc == vector(c)
                    &&& !self.ime
                    &&& forall|x: Interrupt| #[trigger] self.interrupt_queue@.contains(x) ==>
                        priority(x) <= priority(c)
                    &&& forall|x: Interrupt| #[trigger] kept@.contains(x) && allowed(ime0, ie, x) ==>
                        priority(x)
                        <= priority(c)
                },
            decreases self.interrupt_queue@.len(),
        {
            let ghost before = self.interrupt_queue@;
            let k = self.interrupt_queue.pop().unwrap();
            proof {
                let i = choose|i: int|
                    0 <= i < before.len() && before[i] == k && self.interrupt_queue@ == before.remove(i);
                assert forall|x: Interrupt| before.contains(x) implies x == k || self.interrupt_queue@.contains(
                    x,
                ) by {
                    lemma_remove_keeps(before, i, x);
                }
                assert forall|x: Interrupt| self.interrupt_queue@.contains(x) implies q.contains(x) by {
                    lemma_remove_from(before, i, x);
                    assert(before.contains(x));
                }
                assert forall|x: Interrupt| self.interrupt_queue@.contains(x) implies priority(x) <= priority(k) by {
                    lemma_remove_from(before, i, x);
                }
                assert(before.contains(k));
            }
            if chosen.is_none() && self.ime && ie & bit_of_interrupt(k) != 0 {
                self.handle_interrupt(k);
                self.memory.write(0xFF0F, flags & !bit_of_interrupt(k));
                chosen = Some(k);
            } else {
                proof {
                    lemma_push_contains(kept@, k);
                }
                kept.push(k);
            }
        }
        assert(self.interrupt_queue@.len() == 0);
        let mut i: usize = 0;
        while i < kept.len()
            invariant
                self.wf(),
                i <= kept@.len(),
                forall|j: int| 0 <= j < i && Some(kept@[j]) != chosen ==> self.interrupt_queue@.contains(#[trigger] kept@[j]),
                chosen.is_some() ==> !self.interrupt_queue@.contains(chosen.unwrap()),
                forall|x: Interrupt| #[trigger] self.interrupt_queue@.contains(x) ==> q.contains(x),
                forall|x: Interrupt| #[trigger] kept@.contains(x) ==> q.contains(x),
                chosen.is_none() ==> self.ime == ime0 && self.pc == old(self).pc && self.registers
                    == old(self).registers && self.sp == old(self).sp,
                chosen.is_none() ==> self.memory == old(self).memory && self.t_cycles == old(self).t_cycles,
                chosen.is_some() ==> self.memory.peek(0xFF0F) == flags & !interrupt_bit(chosen.unwrap())
                    && Self::pushed(*old(self), *self, old(self).pc) && self.t_cycles == wrap16(
                    old(self).t_cycles + 16,
                ) && self.registers == old(self).registers,
                chosen.is_some() ==> self.pc == vector(chosen.unwrap()) && !self.ime,
            decreases kept@.len() - i,
        {
            let is_chosen = match chosen {
                Some(c) => c == kept[i],
                None => false,
            };
            if !is_chosen {
                proof {
                    lemma_push_contains(self.interrupt_queue@, kept@[i as int]);
                    assert(kept@.contains(kept@[i as int]));
                }
                self.interrupt_queue.push(kept[i]);
            }
            i = i + 1;
        }
        proof {
            assert forall|j: int| 0 <= j < q.len()
                && Some(q[j]) != chosen implies self.interrupt_queue@.contains(
                #[trigger] q[j],
            ) by {
                if kept@.contains(q[j]) {
                    let m = choose|m: int| 0 <= m < kept@.len() && kept@[m] == q[j];
                    assert(self.interrupt_queue@.contains(kept@[m]));
                }
            }
            if chosen.is_some() {
                let c = chosen.unwrap();
                let ci = choose|ci: int| 0 <= ci < q.len() && q[ci] == c;
                assert forall|j: int| 0 <= j < q.len()
                    && allowed(ime0, ie, #[trigger] q[j]) implies priority(q[j])
                    <= priority(q[ci]) by {
                    if q[j] != c {
                        assert(self.interrupt_queue@.contains(q[j]) || kept@.contains(q[j]));
                    }
                }
            } else {
                assert forall|j: int| 0 <= j < q.len() implies !allowed(ime0, ie, #[trigger] q[j]) by {
                    assert(kept@.contains(q[j]));
                }
            }
        }
    }

    /// Queues every requested interrupt that is not queued yet, in priority order of the
    /// request bits, marking it queued; a halted CPU wakes while anything is queued, allowed
    /// or not.
    #[verifier::rlimit(60)]
    pub fn enqueue_requests(&mut self, flags: u8)
        requires
            old(self).wf(),
        ensures
            final(self).wf(),
            *final(self) == (CPU {
                interrupt_queue: final(self).interrupt_queue,
                interrupt_queue_bitflags: final(self).interrupt_queue_bitflags,
                halted: final(self).halted,
                ..*old(self)
            }),
            forall|x: Interrupt| #[trigger] final(self).interrupt_queue@.contains(x) <==> (old(self).interrupt_queue@.contains(x)
                || exists|i: u8| i < 5 && x == kind_of(i) && flags & interrupt_bit(kind_of(i)) != 0),
            final(self).halted ==> old(self).halted,
            final(self).interrupt_queue@.len() > 0 ==> !final(self).halted,
    {
        let mut i: u8 = 0;
        while i < 5
            invariant
                self.wf(),
                i <= 5,
                *self == (CPU {
                    interrupt_queue: self.interrupt_queue,
                    interrupt_queue_bitflags: self.interrupt_queue_bitflags,
                    halted: self.halted,
                    ..*old(self)
                }),
                forall|x: Interrupt| #[trigger] self.interrupt_queue@.contains(x) ==> (old(self).interrupt_queue@.contains(x)
                    || exists|k: u8| k < i && x == kind_of(k) && flags & interrupt_bit(kind_of(k)) != 0),
                forall|x: Interrupt| old(self).interrupt_queue@.contains(x) ==> #[trigger] self.interrupt_queue@.contains(x),
                forall|k: u8| k < i && flags & interrupt_bit(kind_of(k)) != 0 ==> #[trigger] self.interrupt_queue@.contains(kind_of(k)),
                self.halted ==> old(self).halted,
            decreases 5 - i,
        {
            let kind = interrupt_of(i);
            let bit = bit_of_interrupt(kind);
            if flags & bit != 0 && !self.interrupt_queue.contains(kind) {
                proof {
                    lemma_push_contains(self.interrupt_queue@, kind);
                }
                self.interrupt_queue.push(kind);
                self.set_interrupt_queue_bitflag(kind);
            }
            proof {
                assert forall|x: Interrupt| #[trigger] self.interrupt_queue@.contains(x) implies (old(self).interrupt_queue@.contains(x)
                    || exists|k: u8| k < i + 1 && x == kind_of(k) && flags & interrupt_bit(kind_of(k)) != 0) by {
                    if x == kind && flags & bit != 0 {
                        assert(i < i + 1 && x == kind_of(i));
                    }
                }
            }
            i = i + 1;
        }
        if !self.interrupt_queue.is_empty() {
            self.halted = false;
        }
        proof {
            assert forall|x: Interrupt| (old(self).interrupt_queue@.contains(x) || exists|k: u8| k < 5 && x == kind_of(k) && flags & interrupt_bit(kind_of(k)) != 0)
                implies #[trigger] self.interrupt_queue@.contains(x) by {
                if !old(self).interrupt_queue@.contains(x) {
                    let k = choose|k: u8| k < 5 && x == kind_of(k) && flags & interrupt_bit(kind_of(k)) != 0;
                    assert(self.interrupt_queue@.contains(kind_of(k)));
                }
            }
        }
    }

    /// The request byte once the hardware one-shot signals (vertical blank, timer overflow,
    /// LCD status) have been merged into it.
    pub open spec fn requests(a: CPU) -> u8 {
        ((a.memory.peek(0xFF0F) | signal(a.ppu.entered_vblank, 1)) | signal(a.timer.tima_overflow_irq, 4))
            | signal(a.ppu.stat_irq, 2)
    }

    /// What the interrupt check does: every kind whose request bit is set joins the queue
    /// (nothing queued is lost, nothing else joins), and the queue is then served under the
    /// enable byte, the dispatched kind's request bit being cleared.
    pub open spec fn polled(a: CPU, b: CPU) -> bool {
        exists|mid: CPU|
            {
                &&& mid.ime == a.ime && mid.pc == a.pc && mid.sp == a.sp && mid.registers == a.registers
                &&& mid.t_cycles == a.t_cycles
                &&& quiet_same(a.memory, mid.memory)
                &&& forall|x: Interrupt| #[trigger] mid.interrupt_queue@.contains(x) <==> (a.interrupt_queue@.contains(x)
                    || exists|i: u8| i < 5 && x == kind_of(i) && Self::requests(a) & interrupt_bit(kind_of(i)) != 0)
                &&& Self::served(mid, b, a.memory.peek(0xFFFF), Self::requests(a))
            }
    }

    /// The interrupt check made once per instruction: the hardware one-shot signals go into
    /// the request byte, newly requested interrupts join the queue, and the queue is served.
    #[verifier::rlimit(60)]
    pub fn interrupt_poll(&mut self)
        requires
            old(self).wf(),
        ensures
            final(self).wf(),
            Self::polled(*old(self), *final(self)),
    {
        proof {
            lemma_or_zero(old(self).memory.peek(0xFF0F));
            lemma_or_zero(old(self).memory.peek(0xFF0F) | signal(old(self).ppu.entered_vblank, 1));
            lemma_or_zero(
                (old(self).memory.peek(0xFF0F) | signal(old(self).ppu.entered_vblank, 1)) | signal(
                    old(self).timer.tima_overflow_irq,
                    4,
                ),
            );
        }
        self.set_vblank_flag();
        let ghost s1 = *self;
        self.set_tima_flag();
        let ghost s2 = *self;
        self.set_stat_flag();
        assert(s1.memory.peek(0xFF0F) == old(self).memory.peek(0xFF0F) | signal(old(self).ppu.entered_vblank, 1));
        assert(s2.memory.peek(0xFF0F) == s1.memory.peek(0xFF0F) | signal(old(self).timer.tima_overflow_irq, 4));
        assert(self.memory.peek(0xFF0F) == Self::requests(*old(self)));
        let interrupt_enable = self.memory.read(0xFFFF);
        let interrupt_flags = self.memory.read(0xFF0F);
        assert(interrupt_enable == old(self).memory.peek(0xFFFF));
        self.enqueue_requests(interrupt_flags);
        let ghost mid = *self;
        self.dispatch_pending(interrupt_enable, interrupt_flags);
        assert(Self::served(mid, *self, interrupt_enable, interrupt_flags));
        assert(mid.ime == old(self).ime && mid.pc == old(self).pc && mid.sp == old(self).sp);
        assert(quiet_same(old(self).memory, mid.memory));
    }

    /// One step of the machine as the host drives it: fetch and execute one instruction, or
    /// idle one machine cycle while halted; then the interrupt check. Returns `false`, having
    /// fetched the opcode and done nothing else, when the opcode is a gap in the instruction
    /// set, which ends the run.
    #[verifier::rlimit(60)]
    pub fn step_instruction(&mut self) -> (r: bool)
        requires
            old(self).wf(),
        ensures
            final(self).wf(),
            r == (old(self).halted || Self::is_defined(old(self).operand8())),
            old(self).halted ==> exists|idle: CPU|
                Self::cycled(*old(self), idle) && #[trigger] Self::polled(idle, *final(self)),
            !old(self).halted && r ==> exists|f: CPU, e: CPU|
                {
                    &&& #[trigger] Self::fetched(*old(self), f)
                    &&& #[trigger] Self::executed(f, e, old(self).operand8())
                    &&& Self::polled(e, *final(self))
                },
            !r ==> Self::fetched(*old(self), *final(self)),
    {
        if !self.halted {
            let ghost s0 = *self;
            let opcode = self.fetch();
            if !(opcode != 0xD3 && opcode != 0xDB && opcode != 0xDD && opcode != 0xE3 && opcode != 0xE4
                && opcode != 0xEB && opcode != 0xEC && opcode != 0xED && opcode != 0xF4 && opcode != 0xFC
                && opcode != 0xFD) {
                return false;
            }
            let ghost f = *self;
            self.execute(opcode);
            let ghost e = *self;
            self.interrupt_poll();
            assert(Self::fetched(s0, f) && Self::executed(f, e, opcode) && Self::polled(e, *self));
        } else {
            self.m_cycle();
            let ghost idle = *self;
            self.interrupt_poll();
            assert(Self::cycled(*old(self), idle) && Self::polled(idle, *self));
        }
        true
    }
}

/// A status value written by the program keeps the mode bits already there.
proof fn lemma_keep_mode_bits(data: u8, stat: u8)
    ensures
        ((data & 0xFC) | (stat & 0x03)) % 4 == stat % 4,
{
    assert(((data & 0xFC) | (stat & 0x03)) % 4 == stat % 4) by (bit_vector);
}

/// `mask` when the signal is raised, else 0.
pub open spec fn signal(raised: bool, mask: u8) -> u8 {
    if raised {
        mask
    } else {
        0
    }
}

/// Merging no bits leaves a byte as it is.
proof fn lemma_or_zero(x: u8)
    ensures
        x | 0u8 == x,
{
    assert(x | 0u8 == x) by (bit_vector);
}

/// With VBlank and Timer both queued and allowed, serving the queue dispatches VBlank and
/// leaves Timer queued; serving again with interrupts re-enabled, and nothing of higher
/// priority than Timer allowed in the queue, dispatches Timer.
pub proof fn lemma_interrupt_priority(s0: CPU, s1: CPU, s2: CPU, t1: CPU, ie: u8, fl1: u8, fl2: u8)
    requires
        s0.ime,
        ie & 1 != 0 && ie & 4 != 0,
        s0.interrupt_queue@.contains(Interrupt::VBlank),
        s0.interrupt_queue@.contains(Interrupt::Timer),
        CPU::served(s0, s1, ie, fl1),
        t1.interrupt_queue@ == s1.interrupt_queue@,
        t1.ime,
        !t1.interrupt_queue@.contains(Interrupt::STAT) || ie & 2 == 0,
        CPU::served(t1, s2, ie, fl2),
    ensures
        s1.pc == 0x40,
        s1.interrupt_queue@.contains(Interrupt::Timer),
        !s1.interrupt_queue@.contains(Interrupt::VBlank),
        s2.pc == 0x50,
        !s2.interrupt_queue@.contains(Interrupt::Timer),
{
    let q = s0.interrupt_queue@;
    let jv = choose|j: int| 0 <= j < q.len() && q[j] == Interrupt::VBlank;
    assert(allowed(s0.ime, ie, q[jv]));
    let i = choose|i: int|
        {
            &&& 0 <= i < q.len()
            &&& allowed(s0.ime, ie, q[i])
            &&& s1.pc == vector(q[i])
            &&& !s1.ime
            &&& forall|j: int| 0 <= j < q.len() && allowed(s0.ime, ie, #[trigger] q[j]) ==>
                priority(q[j]) <= priority(q[i])
            &&& forall|j: int| 0 <= j < q.len() && q[j] != q[i] ==>
                s1.interrupt_queue@.contains(#[trigger] q[j])
        };
    assert(priority(q[jv]) <= priority(q[i]));
    assert(q[i] == Interrupt::VBlank);
    let jt = choose|j: int| 0 <= j < q.len() && q[j] == Interrupt::Timer;
    assert(q[jt] != q[i]);
    assert(s1.interrupt_queue@.contains(q[jt]));
    let q1 = t1.interrupt_queue@;
    let kt = choose|j: int| 0 <= j < q1.len() && q1[j] == Interrupt::Timer;
    assert(allowed(t1.ime, ie, q1[kt]));
    let i2 = choose|i: int|
        {
            &&& 0 <= i < q1.len()
            &&& allowed(t1.ime, ie, q1[i])
            &&& s2.pc == vector(q1[i])
            &&& !s2.ime
            &&& forall|j: int| 0 <= j < q1.len() && allowed(t1.ime, ie, #[trigger] q1[j]) ==>
                priority(q1[j]) <= priority(q1[i])
            &&& forall|j: int| 0 <= j < q1.len() && q1[j] != q1[i] ==>
                s2.interrupt_queue@.contains(#[trigger] q1[j])
        };
    assert(priority(q1[kt]) <= priority(q1[i2]));
    assert(q1.contains(q1[i2]));
    assert(q1[i2] == Interrupt::Timer);
}

/// A pushed word comes back from the pop that follows it, and SP returns to where it was,
/// wherever the two stack bytes are RAM.
pub proof fn lemma_stack_round_trip(s0: CPU, s1: CPU, s2: CPU, v: u16, r: u16)
    requires
        CPU::pushed(s0, s1, v),
        CPU::popped(s1, s2, r),
        quiet_ram(wrap16(s0.sp - 1)),
        quiet_ram(wrap16(s0.sp - 2)),
    ensures
        r == v,
        s2.sp == s0.sp,
{
    assert(s1.bus_value(s1.sp) == s1.memory.peek(s1.sp));
    assert(wrap16(s1.sp + 1) == wrap16(s0.sp - 1));
}

} // verus!
