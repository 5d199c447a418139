use vstd::prelude::*;

use crate::bus::{
    bus_read16_post, bus_read16_value, bus_read_post, bus_read_value, bus_tick_post, bus_wf,
    bus_write16_post, bus_write_post, Bus, BusView,
};
use crate::fault::Fault;
use crate::ppu::PpuView;

verus! {

/// Bits of the 6502 status register P, laid out `NV-BDIZC`.
#[derive(Clone, Copy, PartialEq, Eq, Debug, Structural)]
pub enum StatusFlag {
    Carry,
    Zero,
    InterruptDisable,
    DecimalMode,
    Break,
    Break2,
    Overflow,
    Negative,
}

impl StatusFlag {
    pub open spec fn spec_mask(self) -> u8 {
        match self {
            StatusFlag::Carry => 0x01,
            StatusFlag::Zero => 0x02,
            StatusFlag::InterruptDisable => 0x04,
            StatusFlag::DecimalMode => 0x08,
            StatusFlag::Break => 0x10,
            StatusFlag::Break2 => 0x20,
            StatusFlag::Overflow => 0x40,
            StatusFlag::Negative => 0x80,
        }
    }

    /// The flag's bit within the status register.
    #[verifier::when_used_as_spec(spec_mask)]
    pub fn mask(self) -> (r: u8)
        ensures
            r == self.spec_mask(),
    {
        match self {
            StatusFlag::Carry => 0x01,
            StatusFlag::Zero => 0x02,
            StatusFlag::InterruptDisable => 0x04,
            StatusFlag::DecimalMode => 0x08,
            StatusFlag::Break => 0x10,
            StatusFlag::Break2 => 0x20,
            StatusFlag::Overflow => 0x40,
            StatusFlag::Negative => 0x80,
        }
    }
}

/// The eleven 6502 addressing modes.
#[allow(non_camel_case_types)]
#[derive(Clone, Copy, PartialEq, Eq, Debug, Structural)]
pub enum AddressingMode {
    Accumulator,
    Immediate,
    ZeroPage,
    ZeroPage_X,
    ZeroPage_Y,
    Absolute,
    Absolute_X,
    Absolute_Y,
    Indirect_X,
    Indirect_Y,
    NoneAddressing,
}

/// The interrupts the dispatcher services; only NMI is wired up.
#[derive(Clone, Copy, PartialEq, Eq, Debug, Structural)]
pub enum InterruptType {
    NMI,
}

/// Byte-granular memory access as the CPU sees it, implemented by the bus
/// and forwarded by the CPU itself.
pub trait Mem {
    /// The invariant the address space keeps across accesses.
    spec fn wf(&self) -> bool;

    fn mem_read(&mut self, addr: u16) -> (r: u8)
        requires
            old(self).wf(),
        ensures
            final(self).wf(),
    ;

    fn mem_write(&mut self, addr: u16, data: u8)
        requires
            old(self).wf(),
        ensures
            final(self).wf(),
    ;

    /// Little-endian 16-bit read: the byte at `pos`, then the byte at the
    /// next address, wrapping at the top of the address space.
    fn mem_read_u16(&mut self, pos: u16) -> (r: u16)
        requires
            old(self).wf(),
        ensures
            final(self).wf(),
    ;

    /// Little-endian 16-bit write: low byte at `pos`, high byte at the next
    /// address, wrapping at the top of the address space.
    fn mem_write_u16(&mut self, pos: u16, data: u16)
        requires
            old(self).wf(),
        ensures
            final(self).wf(),
    ;
}


/// Mathematical state of the CPU together with everything on its bus.
#[verifier::ext_equal]
pub ghost struct CpuView {
    pub a: u8,
    pub x: u8,
    pub y: u8,
    pub p: u8,
    pub sp: u8,
    pub pc: u16,
    pub bus: BusView,
}

/// The invariant a reachable machine state keeps: the bus invariant.
pub open spec fn cpu_wf(c: CpuView) -> bool {
    bus_wf(c.bus)
}

/// Whether flag `f` is set in status byte `p`.
pub open spec fn flag_set(p: u8, f: StatusFlag) -> bool {
    p & f.spec_mask() != 0
}

/// Status byte `p` with flag `f` forced to `v`.
pub open spec fn with_flag(p: u8, f: StatusFlag, v: bool) -> u8 {
    if v {
        p | f.spec_mask()
    } else {
        p & !f.spec_mask()
    }
}

/// Status byte after an operation that produced `result`: Z is set exactly
/// when the result is zero and N exactly when its bit 7 is set.
pub open spec fn zn_update(p: u8, result: u8) -> u8 {
    with_flag(with_flag(p, StatusFlag::Zero, result == 0), StatusFlag::Negative, result & 0x80 != 0)
}

/// State after one byte is read at `addr`: only the bus can change.
pub open spec fn cpu_read_post(c: CpuView, addr: u16) -> CpuView {
    CpuView { bus: bus_read_post(c.bus, addr), ..c }
}

/// State after one byte is written at `addr`.
pub open spec fn cpu_write_post(c: CpuView, addr: u16, v: u8) -> CpuView {
    CpuView { bus: bus_write_post(c.bus, addr, v), ..c }
}

/// State after one byte is pushed: it lands at 0x0100 plus the stack
/// pointer, which then steps down with wraparound inside page 1.
pub open spec fn cpu_push(c: CpuView, v: u8) -> CpuView {
    CpuView {
        bus: bus_write_post(c.bus, (0x0100 + c.sp) as u16, v),
        sp: c.sp.wrapping_sub(1),
        ..c
    }
}

/// The stack pointer and address after one pop: the pointer steps up first,
/// then the byte is read there.
pub open spec fn cpu_pop_value(c: CpuView) -> u8 {
    bus_read_value(c.bus, (0x0100 + c.sp.wrapping_add(1)) as u16)
}

/// State after one byte is popped.
pub open spec fn cpu_pop_post(c: CpuView) -> CpuView {
    CpuView {
        bus: bus_read_post(c.bus, (0x0100 + c.sp.wrapping_add(1)) as u16),
        sp: c.sp.wrapping_add(1),
        ..c
    }
}

/// State after a 16-bit push: high byte first, then low.
pub open spec fn cpu_push_u16(c: CpuView, v: u16) -> CpuView {
    cpu_push(cpu_push(c, (v >> 8) as u8), (v & 0xFF) as u8)
}

/// The word a 16-bit pop returns: low byte first, then high.
pub open spec fn cpu_pop_u16_value(c: CpuView) -> u16 {
    let lo = cpu_pop_value(c);
    let hi = cpu_pop_value(cpu_pop_post(c));
    ((hi as u16) << 8) | (lo as u16)
}

/// State after a 16-bit pop.
pub open spec fn cpu_pop_u16_post(c: CpuView) -> CpuView {
    cpu_pop_post(cpu_pop_post(c))
}

/// The MOS 6502 CPU core: three 8-bit registers, the status byte, the
/// stack pointer into page 1, the program counter, and the bus it owns.
pub struct CPU {
    pub register_a: u8,
    pub register_x: u8,
    pub register_y: u8,
    pub status: u8,
    pub program_counter: u16,
    pub stack_pointer: u8,
    pub bus: Bus,
}

impl View for CPU {
    type V = CpuView;

    open spec fn view(&self) -> CpuView {
        CpuView {
            a: self.register_a,
            x: self.register_x,
            y: self.register_y,
            p: self.status,
            sp: self.stack_pointer,
            pc: self.program_counter,
            bus: self.bus@,
        }
    }
}

impl Mem for CPU {
    open spec fn wf(&self) -> bool {
        cpu_wf(self@)
    }

    /// Forwards to the bus; only the bus part of the state can change.
    fn mem_read(&mut self, addr: u16) -> (r: u8)
        ensures
            r == bus_read_value(old(self)@.bus, addr),
            final(self)@ == cpu_read_post(old(self)@, addr),
    {
        self.bus.mem_read(addr)
    }

    /// Forwards to the bus; only the bus part of the state can change.
    fn mem_write(&mut self, addr: u16, data: u8)
        ensures
            final(self)@ == cpu_write_post(old(self)@, addr, data),
    {
        self.bus.mem_write(addr, data)
    }

    /// Forwards to the bus; only the bus part of the state can change.
    fn mem_read_u16(&mut self, pos: u16) -> (r: u16)
        ensures
            r == bus_read16_value(old(self)@.bus, pos),
            final(self)@ == (CpuView { bus: bus_read16_post(old(self)@.bus, pos), ..old(self)@ }),
    {
        self.bus.mem_read_u16(pos)
    }

    /// Forwards to the bus; only the bus part of the state can change.
    fn mem_write_u16(&mut self, pos: u16, data: u16)
        ensures
            final(self)@ == (CpuView { bus: bus_write16_post(old(self)@.bus, pos, data), ..old(self)@ }),
    {
        self.bus.mem_write_u16(pos, data)
    }
}

impl CPU {
    /// A CPU over a fresh bus: registers cleared, the stack pointer at its
    /// reset value 0xFD, and I with bit 5 set in the status byte.
    pub fn new(bus: Bus) -> (r: CPU)
        ensures
            r@ == (CpuView {
                a: 0u8,
                x: 0u8,
                y: 0u8,
                p: 0b100100u8,
                sp: 0xFDu8,
                pc: 0u16,
                bus: bus@,
            }),
    {
        CPU {
            register_a: 0,
            register_x: 0,
            register_y: 0,
            status: 0b100100,
            program_counter: 0,
            stack_pointer: 0xFD,
            bus,
        }
    }

    /// Whether a status flag is set.
    pub fn get_flag(&self, flag: StatusFlag) -> (r: bool)
        ensures
            r == flag_set(self@.p, flag),
    {
        (self.status & flag.mask()) > 0
    }

    /// Forces one status flag; see [`with_flag`].
    pub fn set_flag(&mut self, flag: StatusFlag, value: bool)
        ensures
            final(self)@ == (CpuView { p: with_flag(old(self)@.p, flag, value), ..old(self)@ }),
    {
        if value {
            self.status = self.status | flag.mask();
        } else {
            self.status = self.status & !flag.mask();
        }
    }

    /// Sets Z and N from a result byte; see [`zn_update`].
    pub fn update_zero_and_negative_flags(&mut self, result: u8)
        ensures
            final(self)@ == (CpuView { p: zn_update(old(self)@.p, result), ..old(self)@ }),
    {
        self.set_flag(StatusFlag::Zero, result == 0);
        self.set_flag(StatusFlag::Negative, (result & 0x80) != 0);
    }

    /// Pushes one byte; see [`cpu_push`].
    pub fn stack_push(&mut self, data: u8)
        requires
            cpu_wf(old(self)@),
        ensures
            cpu_wf(final(self)@),
            final(self)@ == cpu_push(old(self)@, data),
    {
        self.mem_write(0x0100 + self.stack_pointer as u16, data);
        self.stack_pointer = self.stack_pointer.wrapping_sub(1);
    }

    /// Pops one byte; see [`cpu_pop_value`] and [`cpu_pop_post`].
    pub fn stack_pop(&mut self) -> (r: u8)
        requires
            cpu_wf(old(self)@),
        ensures
            cpu_wf(final(self)@),
            r == cpu_pop_value(old(self)@),
            final(self)@ == cpu_pop_post(old(self)@),
    {
        self.stack_pointer = self.stack_pointer.wrapping_add(1);
        self.mem_read(0x0100 + self.stack_pointer as u16)
    }

    /// Pushes a word, high byte first; see [`cpu_push_u16`].
    pub fn stack_push_u16(&mut self, data: u16)
        requires
            cpu_wf(old(self)@),
        ensures
            cpu_wf(final(self)@),
            final(self)@ == cpu_push_u16(old(self)@, data),
    {
        let hi: u8 = (data >> 8) as u8;
        let lo: u8 = (data & 0xFF) as u8;
        self.stack_push(hi);
        self.stack_push(lo);
    }

    /// Pops a word, low byte first; see [`cpu_pop_u16_value`].
    pub fn stack_pop_u16(&mut self) -> (r: u16)
        requires
            cpu_wf(old(self)@),
        ensures
            cpu_wf(final(self)@),
            r == cpu_pop_u16_value(old(self)@),
            final(self)@ == cpu_pop_u16_post(old(self)@),
    {
        let lo: u16 = self.stack_pop() as u16;
        let hi: u16 = self.stack_pop() as u16;
        (hi << 8) | lo
    }
}


// ---------------------------------------------------------------------------
// Addressing-mode resolver
// ---------------------------------------------------------------------------
/// The effective address a memory-operand mode resolves to, reading from
/// `addr` in bus state `b` with index registers `x` and `y`. Zero-page
/// indexing wraps to 8 bits; the indirect modes read their pointer from
/// zero page with 8-bit wraparound between the two bytes. Accumulator (and
/// the modes that take no operand) resolve to 0.
pub open spec fn absolute_address_value(
    b: BusView,
    addr: u16,
    x: u8,
    y: u8,
    mode: AddressingMode,
) -> u16 {
    match mode {
        AddressingMode::ZeroPage => bus_read_value(b, addr) as u16,
        AddressingMode::Absolute => bus_read16_value(b, addr),
        AddressingMode::ZeroPage_X => bus_read_value(b, addr).wrapping_add(x) as u16,
        AddressingMode::ZeroPage_Y => bus_read_value(b, addr).wrapping_add(y) as u16,
        AddressingMode::Absolute_X => bus_read16_value(b, addr).wrapping_add(x as u16),
        AddressingMode::Absolute_Y => bus_read16_value(b, addr).wrapping_add(y as u16),
        AddressingMode::Indirect_X => {
            let ptr = bus_read_value(b, addr).wrapping_add(x);
            let b1 = bus_read_post(b, addr);
            let lo = bus_read_value(b1, ptr as u16);
            let b2 = bus_read_post(b1, ptr as u16);
            let hi = bus_read_value(b2, ptr.wrapping_add(1) as u16);
            ((hi as u16) << 8) | (lo as u16)
        },
        AddressingMode::Indirect_Y => {
            let base = bus_read_value(b, addr);
            let b1 = bus_read_post(b, addr);
            let lo = bus_read_value(b1, base as u16);
            let b2 = bus_read_post(b1, base as u16);
            let hi = bus_read_value(b2, base.wrapping_add(1) as u16);
            (((hi as u16) << 8) | (lo as u16)).wrapping_add(y as u16)
        },
        _ => 0,
    }
}

/// Bus state after the reads address resolution performs.
pub open spec fn absolute_address_post(
    b: BusView,
    addr: u16,
    x: u8,
    y: u8,
    mode: AddressingMode,
) -> BusView {
    match mode {
        AddressingMode::ZeroPage => bus_read_post(b, addr),
        AddressingMode::Absolute => bus_read16_post(b, addr),
        AddressingMode::ZeroPage_X => bus_read_post(b, addr),
        AddressingMode::ZeroPage_Y => bus_read_post(b, addr),
        AddressingMode::Absolute_X => bus_read16_post(b, addr),
        AddressingMode::Absolute_Y => bus_read16_post(b, addr),
        AddressingMode::Indirect_X => {
            let ptr = bus_read_value(b, addr).wrapping_add(x);
            let b1 = bus_read_post(b, addr);
            let b2 = bus_read_post(b1, ptr as u16);
            bus_read_post(b2, ptr.wrapping_add(1) as u16)
        },
        AddressingMode::Indirect_Y => {
            let base = bus_read_value(b, addr);
            let b1 = bus_read_post(b, addr);
            let b2 = bus_read_post(b1, base as u16);
            bus_read_post(b2, base.wrapping_add(1) as u16)
        },
        _ => b,
    }
}

/// The address the current instruction operand names: immediate operands
/// sit at the program counter itself, everything else goes through
/// [`absolute_address_value`] at the program counter.
pub open spec fn operand_address_value(c: CpuView, mode: AddressingMode) -> u16 {
    match mode {
        AddressingMode::Immediate => c.pc,
        _ => absolute_address_value(c.bus, c.pc, c.x, c.y, mode),
    }
}

/// State after operand-address resolution.
pub open spec fn operand_address_post(c: CpuView, mode: AddressingMode) -> CpuView {
    match mode {
        AddressingMode::Immediate => c,
        _ => CpuView { bus: absolute_address_post(c.bus, c.pc, c.x, c.y, mode), ..c },
    }
}

/// The operand byte itself: the byte at the resolved address.
pub open spec fn operand_value(c: CpuView, mode: AddressingMode) -> u8 {
    bus_read_value(operand_address_post(c, mode).bus, operand_address_value(c, mode))
}

/// State after the operand byte has been fetched.
pub open spec fn operand_post(c: CpuView, mode: AddressingMode) -> CpuView {
    cpu_read_post(operand_address_post(c, mode), operand_address_value(c, mode))
}

impl CPU {
    /// Resolves a memory-operand mode against an explicit base address;
    /// see [`absolute_address_value`].
    pub fn get_absolute_address(&mut self, mode: &AddressingMode, addr: u16) -> (r: u16)
        requires
            cpu_wf(old(self)@),
            !(*mode is Immediate),
            !(*mode is NoneAddressing),
        ensures
            cpu_wf(final(self)@),
            r == absolute_address_value(old(self)@.bus, addr, old(self)@.x, old(self)@.y, *mode),
            final(self)@ == (CpuView {
                bus: absolute_address_post(old(self)@.bus, addr, old(self)@.x, old(self)@.y, *mode),
                ..old(self)@
            }),
    {
        match mode {
            AddressingMode::Accumulator => 0,
            AddressingMode::ZeroPage => self.mem_read(addr) as u16,
            AddressingMode::Absolute => self.mem_read_u16(addr),
            AddressingMode::ZeroPage_X => {
                let pos: u8 = self.mem_read(addr);
                pos.wrapping_add(self.register_x) as u16
            },
            AddressingMode::ZeroPage_Y => {
                let pos: u8 = self.mem_read(addr);
                pos.wrapping_add(self.register_y) as u16
            },
            AddressingMode::Absolute_X => {
                let base: u16 = self.mem_read_u16(addr);
                base.wrapping_add(self.register_x as u16)
            },
            AddressingMode::Absolute_Y => {
                let base: u16 = self.mem_read_u16(addr);
                base.wrapping_add(self.register_y as u16)
            },
            AddressingMode::Indirect_X => {
                let base: u8 = self.mem_read(addr);
                let ptr: u8 = base.wrapping_add(self.register_x);
                let lo: u8 = self.mem_read(ptr as u16);
                let hi: u8 = self.mem_read(ptr.wrapping_add(1) as u16);
                ((hi as u16) << 8) | (lo as u16)
            },
            AddressingMode::Indirect_Y => {
                let base: u8 = self.mem_read(addr);
                let lo: u8 = self.mem_read(base as u16);
                let hi: u8 = self.mem_read(base.wrapping_add(1) as u16);
                let deref_base: u16 = ((hi as u16) << 8) | (lo as u16);
                deref_base.wrapping_add(self.register_y as u16)
            },
            _ => 0,
        }
    }

    /// Resolves the current instruction operand; see
    /// [`operand_address_value`].
    pub fn get_operand_address(&mut self, mode: &AddressingMode) -> (r: u16)
        requires
            cpu_wf(old(self)@),
            !(*mode is NoneAddressing),
        ensures
            cpu_wf(final(self)@),
            r == operand_address_value(old(self)@, *mode),
            final(self)@ == operand_address_post(old(self)@, *mode),
    {
        match mode {
            AddressingMode::Immediate => self.program_counter,
            _ => {
                let pc = self.program_counter;
                self.get_absolute_address(mode, pc)
            },
        }
    }
}


// ---------------------------------------------------------------------------
// Instruction semantics
// ---------------------------------------------------------------------------
/// State after the accumulator takes `a + m + carry`: C receives the carry
/// out, V is set when both addends' signs differ from the result's sign,
/// and Z and N follow the result. SBC goes through here with `m`
/// complemented.
pub open spec fn cpu_add_to_a(c: CpuView, m: u8) -> CpuView {
    let sum = c.a + m + (if flag_set(c.p, StatusFlag::Carry) {
        1int
    } else {
        0int
    });
    let result = sum as u8;
    let overflow = (m ^ result) & (result ^ c.a) & 0x80 != 0;
    CpuView {
        a: result,
        p: zn_update(
            with_flag(with_flag(c.p, StatusFlag::Carry, sum > 0xFF), StatusFlag::Overflow, overflow),
            result,
        ),
        ..c
    }
}

/// LDA: loads the operand into A and sets Z and N from it.
pub open spec fn cpu_lda(c: CpuView, mode: AddressingMode) -> CpuView {
    let v = operand_value(c, mode);
    let c1 = operand_post(c, mode);
    CpuView { a: v, p: zn_update(c1.p, v), ..c1 }
}

/// LDX: loads the operand into X and sets Z and N from it.
pub open spec fn cpu_ldx(c: CpuView, mode: AddressingMode) -> CpuView {
    let v = operand_value(c, mode);
    let c1 = operand_post(c, mode);
    CpuView { x: v, p: zn_update(c1.p, v), ..c1 }
}

/// LDY: loads the operand into Y and sets Z and N from it.
pub open spec fn cpu_ldy(c: CpuView, mode: AddressingMode) -> CpuView {
    let v = operand_value(c, mode);
    let c1 = operand_post(c, mode);
    CpuView { y: v, p: zn_update(c1.p, v), ..c1 }
}

/// LAX: loads the operand into both A and X.
pub open spec fn cpu_lax(c: CpuView, mode: AddressingMode) -> CpuView {
    let v = operand_value(c, mode);
    let c1 = operand_post(c, mode);
    CpuView { a: v, x: v, p: zn_update(c1.p, v), ..c1 }
}

/// STA: stores A at the resolved address.
pub open spec fn cpu_sta(c: CpuView, mode: AddressingMode) -> CpuView {
    cpu_write_post(operand_address_post(c, mode), operand_address_value(c, mode), c.a)
}

/// STX: stores X at the resolved address.
pub open spec fn cpu_stx(c: CpuView, mode: AddressingMode) -> CpuView {
    cpu_write_post(operand_address_post(c, mode), operand_address_value(c, mode), c.x)
}

/// STY: stores Y at the resolved address.
pub open spec fn cpu_sty(c: CpuView, mode: AddressingMode) -> CpuView {
    cpu_write_post(operand_address_post(c, mode), operand_address_value(c, mode), c.y)
}

/// SAX: stores `A & X` at the resolved address, touching no flags.
pub open spec fn cpu_sax(c: CpuView, mode: AddressingMode) -> CpuView {
    cpu_write_post(operand_address_post(c, mode), operand_address_value(c, mode), c.a & c.x)
}

/// ADC: adds the operand and the carry into A.
pub open spec fn cpu_adc(c: CpuView, mode: AddressingMode) -> CpuView {
    cpu_add_to_a(operand_post(c, mode), operand_value(c, mode))
}

/// SBC: adds the operand's complement and the carry into A, so that a set
/// carry means no borrow.
pub open spec fn cpu_sbc(c: CpuView, mode: AddressingMode) -> CpuView {
    cpu_add_to_a(operand_post(c, mode), (255 - operand_value(c, mode)) as u8)
}

/// AND: bitwise-ands the operand into A.
pub open spec fn cpu_and(c: CpuView, mode: AddressingMode) -> CpuView {
    let v = operand_value(c, mode);
    let c1 = operand_post(c, mode);
    CpuView { a: (c.a & v) as u8, p: zn_update(c1.p, c.a & v), ..c1 }
}

/// EOR: bitwise-xors the operand into A.
pub open spec fn cpu_eor(c: CpuView, mode: AddressingMode) -> CpuView {
    let v = operand_value(c, mode);
    let c1 = operand_post(c, mode);
    CpuView { a: (c.a ^ v) as u8, p: zn_update(c1.p, c.a ^ v), ..c1 }
}

/// ORA: bitwise-ors the operand into A.
pub open spec fn cpu_ora(c: CpuView, mode: AddressingMode) -> CpuView {
    let v = operand_value(c, mode);
    let c1 = operand_post(c, mode);
    CpuView { a: (c.a | v) as u8, p: zn_update(c1.p, c.a | v), ..c1 }
}

/// CMP/CPX/CPY: C is set exactly when the register is at least the
/// operand (unsigned); Z and N follow their difference modulo 256.
pub open spec fn cpu_compare(c: CpuView, mode: AddressingMode, reg: u8) -> CpuView {
    let v = operand_value(c, mode);
    let c1 = operand_post(c, mode);
    CpuView {
        p: zn_update(with_flag(c1.p, StatusFlag::Carry, reg >= v), reg.wrapping_sub(v)),
        ..c1
    }
}

/// BIT: Z from `A & M`, N from bit 7 of M, V from bit 6 of M.
pub open spec fn cpu_bit(c: CpuView, mode: AddressingMode) -> CpuView {
    let v = operand_value(c, mode);
    let c1 = operand_post(c, mode);
    CpuView {
        p: with_flag(
            with_flag(
                with_flag(c1.p, StatusFlag::Zero, c.a & v == 0),
                StatusFlag::Negative,
                v & 0x80 != 0,
            ),
            StatusFlag::Overflow,
            v & 0x40 != 0,
        ),
        ..c1
    }
}

/// DEC: decrements the memory operand, wrapping, and sets Z and N from it.
pub open spec fn cpu_dec(c: CpuView, mode: AddressingMode) -> CpuView {
    let ad = operand_address_value(c, mode);
    let v = operand_value(c, mode).wrapping_sub(1);
    let c1 = cpu_write_post(operand_post(c, mode), ad, v);
    CpuView { p: zn_update(c1.p, v), ..c1 }
}

/// INC: increments the memory operand, wrapping, and sets Z and N from it.
pub open spec fn cpu_inc(c: CpuView, mode: AddressingMode) -> CpuView {
    let ad = operand_address_value(c, mode);
    let v = operand_value(c, mode).wrapping_add(1);
    let c1 = cpu_write_post(operand_post(c, mode), ad, v);
    CpuView { p: zn_update(c1.p, v), ..c1 }
}

/// ASL on memory: C takes bit 7, the operand shifts left.
pub open spec fn cpu_asl(c: CpuView, mode: AddressingMode) -> CpuView {
    let ad = operand_address_value(c, mode);
    let v = operand_value(c, mode);
    let c1 = cpu_write_post(operand_post(c, mode), ad, v << 1);
    CpuView {
        p: zn_update(with_flag(c1.p, StatusFlag::Carry, v >> 7 == 1), v << 1),
        ..c1
    }
}

/// ASL on A.
pub open spec fn cpu_asl_a(c: CpuView) -> CpuView {
    CpuView {
        a: c.a << 1,
        p: zn_update(with_flag(c.p, StatusFlag::Carry, c.a >> 7 == 1), c.a << 1),
        ..c
    }
}

/// LSR on memory: C takes bit 0, the operand shifts right.
pub open spec fn cpu_lsr(c: CpuView, mode: AddressingMode) -> CpuView {
    let ad = operand_address_value(c, mode);
    let v = operand_value(c, mode);
    let c1 = cpu_write_post(operand_post(c, mode), ad, v >> 1);
    CpuView {
        p: zn_update(with_flag(c1.p, StatusFlag::Carry, v & 1 == 1), v >> 1),
        ..c1
    }
}

/// LSR on A.
pub open spec fn cpu_lsr_a(c: CpuView) -> CpuView {
    CpuView {
        a: c.a >> 1,
        p: zn_update(with_flag(c.p, StatusFlag::Carry, c.a & 1 == 1), c.a >> 1),
        ..c
    }
}

/// The byte a left rotation produces: the old carry enters at bit 0.
pub open spec fn rol_value(v: u8, carry: bool) -> u8 {
    if carry {
        (v << 1) | 1
    } else {
        v << 1
    }
}

/// The byte a right rotation produces: the old carry enters at bit 7.
pub open spec fn ror_value(v: u8, carry: bool) -> u8 {
    if carry {
        (v >> 1) | 0x80
    } else {
        v >> 1
    }
}

/// ROL on memory: C takes bit 7, the old carry enters at bit 0.
pub open spec fn cpu_rol(c: CpuView, mode: AddressingMode) -> CpuView {
    let ad = operand_address_value(c, mode);
    let v = operand_value(c, mode);
    let nv = rol_value(v, flag_set(c.p, StatusFlag::Carry));
    let c1 = cpu_write_post(operand_post(c, mode), ad, nv);
    CpuView {
        p: zn_update(with_flag(c1.p, StatusFlag::Carry, v >> 7 == 1), nv),
        ..c1
    }
}

/// ROL on A.
pub open spec fn cpu_rol_a(c: CpuView) -> CpuView {
    let nv = rol_value(c.a, flag_set(c.p, StatusFlag::Carry));
    CpuView {
        a: nv,
        p: zn_update(with_flag(c.p, StatusFlag::Carry, c.a >> 7 == 1), nv),
        ..c
    }
}

/// ROR on memory: C takes bit 0, the old carry enters at bit 7.
pub open spec fn cpu_ror(c: CpuView, mode: AddressingMode) -> CpuView {
    let ad = operand_address_value(c, mode);
    let v = operand_value(c, mode);
    let nv = ror_value(v, flag_set(c.p, StatusFlag::Carry));
    let c1 = cpu_write_post(operand_post(c, mode), ad, nv);
    CpuView {
        p: zn_update(with_flag(c1.p, StatusFlag::Carry, v & 1 == 1), nv),
        ..c1
    }
}

/// ROR on A.
pub open spec fn cpu_ror_a(c: CpuView) -> CpuView {
    let nv = ror_value(c.a, flag_set(c.p, StatusFlag::Carry));
    CpuView {
        a: nv,
        p: zn_update(with_flag(c.p, StatusFlag::Carry, c.a & 1 == 1), nv),
        ..c
    }
}

/// DCP: decrements the memory operand, then compares A against it.
pub open spec fn cpu_dcp(c: CpuView, mode: AddressingMode) -> CpuView {
    let ad = operand_address_value(c, mode);
    let v = operand_value(c, mode).wrapping_sub(1);
    let c1 = cpu_write_post(operand_post(c, mode), ad, v);
    CpuView {
        p: zn_update(with_flag(c1.p, StatusFlag::Carry, c.a >= v), c.a.wrapping_sub(v)),
        ..c1
    }
}

/// ISB: increments the memory operand, then subtracts it from A as SBC.
pub open spec fn cpu_isb(c: CpuView, mode: AddressingMode) -> CpuView {
    let ad = operand_address_value(c, mode);
    let v = operand_value(c, mode).wrapping_add(1);
    let c1 = cpu_write_post(operand_post(c, mode), ad, v);
    cpu_add_to_a(c1, (255 - v) as u8)
}

/// SLO: shifts the memory operand left, then ors it into A.
pub open spec fn cpu_slo(c: CpuView, mode: AddressingMode) -> CpuView {
    let ad = operand_address_value(c, mode);
    let v = operand_value(c, mode);
    let c1 = cpu_write_post(operand_post(c, mode), ad, v << 1);
    CpuView {
        a: (c.a | (v << 1)) as u8,
        p: zn_update(with_flag(c1.p, StatusFlag::Carry, v >> 7 == 1), c.a | (v << 1)),
        ..c1
    }
}

/// SRE: shifts the memory operand right, then xors it into A.
pub open spec fn cpu_sre(c: CpuView, mode: AddressingMode) -> CpuView {
    let ad = operand_address_value(c, mode);
    let v = operand_value(c, mode);
    let c1 = cpu_write_post(operand_post(c, mode), ad, v >> 1);
    CpuView {
        a: (c.a ^ (v >> 1)) as u8,
        p: zn_update(with_flag(c1.p, StatusFlag::Carry, v & 1 == 1), c.a ^ (v >> 1)),
        ..c1
    }
}

/// RLA: rotates the memory operand left, then ands the rotated byte into
/// A, re-resolving the operand for the second access.
pub open spec fn cpu_rla(c: CpuView, mode: AddressingMode) -> CpuView {
    let c1 = cpu_rol(c, mode);
    let v2 = operand_value(c1, mode);
    let c2 = operand_post(c1, mode);
    CpuView { a: (c2.a & v2) as u8, ..c2 }
}

/// RRA: rotates the memory operand right, then adds the rotated byte into
/// A as ADC, re-resolving the operand for the second access.
pub open spec fn cpu_rra(c: CpuView, mode: AddressingMode) -> CpuView {
    let c1 = cpu_ror(c, mode);
    let v2 = operand_value(c1, mode);
    let c2 = operand_post(c1, mode);
    cpu_add_to_a(c2, v2)
}

/// A taken branch reads its displacement at the program counter and adds
/// it, sign-extended, to the address after the displacement byte.
pub open spec fn cpu_branch(c: CpuView, condition: bool) -> CpuView {
    if condition {
        let off = bus_read_value(c.bus, c.pc);
        CpuView {
            pc: c.pc.wrapping_add(1).wrapping_add((off as i8) as u16),
            bus: bus_read_post(c.bus, c.pc),
            ..c
        }
    } else {
        c
    }
}

/// JMP absolute: the program counter takes the operand word.
pub open spec fn cpu_jmp_absolute(c: CpuView) -> CpuView {
    CpuView {
        pc: bus_read16_value(c.bus, c.pc),
        bus: bus_read16_post(c.bus, c.pc),
        ..c
    }
}

/// JMP indirect, with the 6502 page-wrap quirk: when the pointer's low
/// byte is 0xFF, the target's high byte comes from offset 0x00 of the same
/// page, not from the next page.
pub open spec fn cpu_jmp_indirect(c: CpuView) -> CpuView {
    let addr = bus_read16_value(c.bus, c.pc);
    let b1 = bus_read16_post(c.bus, c.pc);
    if addr & 0x00FF == 0x00FF {
        let lo = bus_read_value(b1, addr);
        let b2 = bus_read_post(b1, addr);
        let hi = bus_read_value(b2, addr & 0xFF00);
        CpuView {
            pc: ((hi as u16) << 8) | (lo as u16),
            bus: bus_read_post(b2, addr & 0xFF00),
            ..c
        }
    } else {
        CpuView { pc: bus_read16_value(b1, addr), bus: bus_read16_post(b1, addr), ..c }
    }
}

/// JSR: pushes the address of its last byte (the program counter plus one,
/// since the counter sits just past the opcode), then jumps to the operand
/// word.
pub open spec fn cpu_jsr(c: CpuView) -> CpuView {
    let c1 = cpu_push_u16(c, c.pc.wrapping_add(1));
    CpuView {
        pc: bus_read16_value(c1.bus, c.pc),
        bus: bus_read16_post(c1.bus, c.pc),
        ..c1
    }
}

/// RTS: pops the return address and resumes one byte past it.
pub open spec fn cpu_rts(c: CpuView) -> CpuView {
    let c1 = cpu_pop_u16_post(c);
    CpuView { pc: cpu_pop_u16_value(c).wrapping_add(1), ..c1 }
}

/// The status byte as restored by PLP and RTI: B cleared, bit 5 forced.
pub open spec fn restored_status(v: u8) -> u8 {
    with_flag(with_flag(v, StatusFlag::Break, false), StatusFlag::Break2, true)
}

/// RTI: restores the status byte, then the program counter.
pub open spec fn cpu_rti(c: CpuView) -> CpuView {
    let v = cpu_pop_value(c);
    let c1 = cpu_pop_post(c);
    let c2 = cpu_pop_u16_post(c1);
    CpuView { p: restored_status(v), pc: cpu_pop_u16_value(c1), ..c2 }
}

/// PHA: pushes A.
pub open spec fn cpu_pha(c: CpuView) -> CpuView {
    cpu_push(c, c.a)
}

/// PHP: pushes the status byte with B and bit 5 set.
pub open spec fn cpu_php(c: CpuView) -> CpuView {
    cpu_push(c, c.p | 0x30)
}

/// PLA: pops into A and sets Z and N from it.
pub open spec fn cpu_pla(c: CpuView) -> CpuView {
    let v = cpu_pop_value(c);
    let c1 = cpu_pop_post(c);
    CpuView { a: v, p: zn_update(c1.p, v), ..c1 }
}

/// PLP: pops the status byte, clearing B and forcing bit 5.
pub open spec fn cpu_plp(c: CpuView) -> CpuView {
    let v = cpu_pop_value(c);
    let c1 = cpu_pop_post(c);
    CpuView { p: restored_status(v), ..c1 }
}

/// BRK: skips the padding byte, pushes the program counter and the status
/// byte with B and bit 5 set, sets I, and jumps through the 0xFFFE vector.
pub open spec fn cpu_brk(c: CpuView) -> CpuView {
    let c1 = cpu_push_u16(CpuView { pc: c.pc.wrapping_add(1), ..c }, c.pc.wrapping_add(1));
    let c2 = cpu_push(c1, c.p | 0x30);
    let c3 = CpuView { p: with_flag(c2.p, StatusFlag::InterruptDisable, true), ..c2 };
    CpuView {
        pc: bus_read16_value(c3.bus, 0xFFFE),
        bus: bus_read16_post(c3.bus, 0xFFFE),
        ..c3
    }
}

/// NMI service: pushes the program counter and the status byte with B
/// cleared and bit 5 set, sets I, lets two CPU cycles pass, and jumps
/// through the 0xFFFA vector.
pub open spec fn cpu_nmi(c: CpuView) -> CpuView {
    let c1 = cpu_push_u16(c, c.pc);
    let c2 = cpu_push(c1, (c.p & !0x10) | 0x20);
    let c3 = CpuView { p: with_flag(c2.p, StatusFlag::InterruptDisable, true), ..c2 };
    let c4 = CpuView { bus: bus_tick_post(c3.bus, 2), ..c3 };
    CpuView {
        pc: bus_read16_value(c4.bus, 0xFFFA),
        bus: bus_read16_post(c4.bus, 0xFFFA),
        ..c4
    }
}


impl CPU {
    /// Adds `data` and the carry into A; see [`cpu_add_to_a`].
    fn add_to_register_a(&mut self, data: u8)
        ensures
            final(self)@ == cpu_add_to_a(old(self)@, data),
    {
        let carry: u16 = if self.get_flag(StatusFlag::Carry) {
            1
        } else {
            0
        };
        let sum: u16 = self.register_a as u16 + data as u16 + carry;
        let result: u8 = sum as u8;
        self.set_flag(StatusFlag::Carry, sum > 0xFF);
        self.set_flag(StatusFlag::Overflow, (data ^ result) & (result ^ self.register_a) & 0x80 != 0);
        self.register_a = result;
        self.update_zero_and_negative_flags(result);
    }

    /// LDA; see [`cpu_lda`].
    pub fn lda(&mut self, mode: &AddressingMode)
        requires
            cpu_wf(old(self)@),
            !(*mode is NoneAddressing),
        ensures
            cpu_wf(final(self)@),
            final(self)@ == cpu_lda(old(self)@, *mode),
    {
        let addr: u16 = self.get_operand_address(mode);
        let value: u8 = self.mem_read(addr);
        self.register_a = value;
        self.update_zero_and_negative_flags(value);
    }

    /// LDX; see [`cpu_ldx`].
    pub fn ldx(&mut self, mode: &AddressingMode)
        requires
            cpu_wf(old(self)@),
            !(*mode is NoneAddressing),
        ensures
            cpu_wf(final(self)@),
            final(self)@ == cpu_ldx(old(self)@, *mode),
    {
        let addr: u16 = self.get_operand_address(mode);
        let value: u8 = self.mem_read(addr);
        self.register_x = value;
        self.update_zero_and_negative_flags(value);
    }

    /// LDY; see [`cpu_ldy`].
    pub fn ldy(&mut self, mode: &AddressingMode)
        requires
            cpu_wf(old(self)@),
            !(*mode is NoneAddressing),
        ensures
            cpu_wf(final(self)@),
            final(self)@ == cpu_ldy(old(self)@, *mode),
    {
        let addr: u16 = self.get_operand_address(mode);
        let value: u8 = self.mem_read(addr);
        self.register_y = value;
        self.update_zero_and_negative_flags(value);
    }

    /// LAX; see [`cpu_lax`].
    pub fn lax(&mut self, mode: &AddressingMode)
        requires
            cpu_wf(old(self)@),
            !(*mode is NoneAddressing),
        ensures
            cpu_wf(final(self)@),
            final(self)@ == cpu_lax(old(self)@, *mode),
    {
        let addr: u16 = self.get_operand_address(mode);
        let value: u8 = self.mem_read(addr);
        self.register_a = value;
        self.register_x = value;
        self.update_zero_and_negative_flags(value);
    }

    /// STA; see [`cpu_sta`].
    pub fn sta(&mut self, mode: &AddressingMode)
        requires
            cpu_wf(old(self)@),
            !(*mode is NoneAddressing),
        ensures
            cpu_wf(final(self)@),
            final(self)@ == cpu_sta(old(self)@, *mode),
    {
        let addr: u16 = self.get_operand_address(mode);
        self.mem_write(addr, self.register_a);
    }

    /// STX; see [`cpu_stx`].
    pub fn stx(&mut self, mode: &AddressingMode)
        requires
            cpu_wf(old(self)@),
            !(*mode is NoneAddressing),
        ensures
            cpu_wf(final(self)@),
            final(self)@ == cpu_stx(old(self)@, *mode),
    {
        let addr: u16 = self.get_operand_address(mode);
        self.mem_write(addr, self.register_x);
    }

    /// STY; see [`cpu_sty`].
    pub fn sty(&mut self, mode: &AddressingMode)
        requires
            cpu_wf(old(self)@),
            !(*mode is NoneAddressing),
        ensures
            cpu_wf(final(self)@),
            final(self)@ == cpu_sty(old(self)@, *mode),
    {
        let addr: u16 = self.get_operand_address(mode);
        self.mem_write(addr, self.register_y);
    }

    /// SAX; see [`cpu_sax`].
    pub fn sax(&mut self, mode: &AddressingMode)
        requires
            cpu_wf(old(self)@),
            !(*mode is NoneAddressing),
        ensures
            cpu_wf(final(self)@),
            final(self)@ == cpu_sax(old(self)@, *mode),
    {
        let addr: u16 = self.get_operand_address(mode);
        let value: u8 = self.register_a & self.register_x;
        self.mem_write(addr, value);
    }

    /// ADC; see [`cpu_adc`].
    pub fn adc(&mut self, mode: &AddressingMode)
        requires
            cpu_wf(old(self)@),
            !(*mode is NoneAddressing),
        ensures
            cpu_wf(final(self)@),
            final(self)@ == cpu_adc(old(self)@, *mode),
    {
        let addr: u16 = self.get_operand_address(mode);
        let value: u8 = self.mem_read(addr);
        self.add_to_register_a(value);
    }

    /// SBC; see [`cpu_sbc`].
    pub fn sbc(&mut self, mode: &AddressingMode)
        requires
            cpu_wf(old(self)@),
            !(*mode is NoneAddressing),
        ensures
            cpu_wf(final(self)@),
            final(self)@ == cpu_sbc(old(self)@, *mode),
    {
        let addr: u16 = self.get_operand_address(mode);
        let value: u8 = self.mem_read(addr);
        self.add_to_register_a(255 - value);
    }

    /// AND; see [`cpu_and`].
    pub fn and(&mut self, mode: &AddressingMode)
        requires
            cpu_wf(old(self)@),
            !(*mode is NoneAddressing),
        ensures
            cpu_wf(final(self)@),
            final(self)@ == cpu_and(old(self)@, *mode),
    {
        let addr: u16 = self.get_operand_address(mode);
        let value: u8 = self.mem_read(addr);
        self.register_a = self.register_a & value;
        let a = self.register_a;
        self.update_zero_and_negative_flags(a);
    }

    /// EOR; see [`cpu_eor`].
    pub fn eor(&mut self, mode: &AddressingMode)
        requires
            cpu_wf(old(self)@),
            !(*mode is NoneAddressing),
        ensures
            cpu_wf(final(self)@),
            final(self)@ == cpu_eor(old(self)@, *mode),
    {
        let addr: u16 = self.get_operand_address(mode);
        let value: u8 = self.mem_read(addr);
        self.register_a = self.register_a ^ value;
        let a = self.register_a;
        self.update_zero_and_negative_flags(a);
    }

    /// ORA; see [`cpu_ora`].
    pub fn ora(&mut self, mode: &AddressingMode)
        requires
            cpu_wf(old(self)@),
            !(*mode is NoneAddressing),
        ensures
            cpu_wf(final(self)@),
            final(self)@ == cpu_ora(old(self)@, *mode),
    {
        let addr: u16 = self.get_operand_address(mode);
        let value: u8 = self.mem_read(addr);
        self.register_a = self.register_a | value;
        let a = self.register_a;
        self.update_zero_and_negative_flags(a);
    }

    /// CMP; see [`cpu_compare`].
    pub fn cmp(&mut self, mode: &AddressingMode)
        requires
            cpu_wf(old(self)@),
            !(*mode is NoneAddressing),
        ensures
            cpu_wf(final(self)@),
            final(self)@ == cpu_compare(old(self)@, *mode, old(self)@.a),
    {
        let addr: u16 = self.get_operand_address(mode);
        let value: u8 = self.mem_read(addr);
        self.set_flag(StatusFlag::Carry, self.register_a >= value);
        let d = self.register_a.wrapping_sub(value);
        self.update_zero_and_negative_flags(d);
    }

    /// CPX; see [`cpu_compare`].
    pub fn cpx(&mut self, mode: &AddressingMode)
        requires
            cpu_wf(old(self)@),
            !(*mode is NoneAddressing),
        ensures
            cpu_wf(final(self)@),
            final(self)@ == cpu_compare(old(self)@, *mode, old(self)@.x),
    {
        let addr: u16 = self.get_operand_address(mode);
        let value: u8 = self.mem_read(addr);
        self.set_flag(StatusFlag::Carry, self.register_x >= value);
        let d = self.register_x.wrapping_sub(value);
        self.update_zero_and_negative_flags(d);
    }

    /// CPY; see [`cpu_compare`].
    pub fn cpy(&mut self, mode: &AddressingMode)
        requires
            cpu_wf(old(self)@),
            !(*mode is NoneAddressing),
        ensures
            cpu_wf(final(self)@),
            final(self)@ == cpu_compare(old(self)@, *mode, old(self)@.y),
    {
        let addr: u16 = self.get_operand_address(mode);
        let value: u8 = self.mem_read(addr);
        self.set_flag(StatusFlag::Carry, self.register_y >= value);
        let d = self.register_y.wrapping_sub(value);
        self.update_zero_and_negative_flags(d);
    }

    /// BIT; see [`cpu_bit`].
    pub fn bit_test(&mut self, mode: &AddressingMode)
        requires
            cpu_wf(old(self)@),
            !(*mode is NoneAddressing),
        ensures
            cpu_wf(final(self)@),
            final(self)@ == cpu_bit(old(self)@, *mode),
    {
        let addr: u16 = self.get_operand_address(mode);
        let data: u8 = self.mem_read(addr);
        self.set_flag(StatusFlag::Zero, (self.register_a & data) == 0);
        self.set_flag(StatusFlag::Negative, data & 0x80 != 0);
        self.set_flag(StatusFlag::Overflow, data & 0x40 != 0);
    }

    /// DEC; see [`cpu_dec`].
    pub fn dec(&mut self, mode: &AddressingMode) -> (r: u8)
        requires
            cpu_wf(old(self)@),
            !(*mode is NoneAddressing),
        ensures
            cpu_wf(final(self)@),
            final(self)@ == cpu_dec(old(self)@, *mode),
            r == operand_value(old(self)@, *mode).wrapping_sub(1),
    {
        let addr: u16 = self.get_operand_address(mode);
        let value: u8 = self.mem_read(addr);
        let result: u8 = value.wrapping_sub(1);
        self.mem_write(addr, result);
        self.update_zero_and_negative_flags(result);
        result
    }

    /// INC; see [`cpu_inc`].
    pub fn inc(&mut self, mode: &AddressingMode) -> (r: u8)
        requires
            cpu_wf(old(self)@),
            !(*mode is NoneAddressing),
        ensures
            cpu_wf(final(self)@),
            final(self)@ == cpu_inc(old(self)@, *mode),
            r == operand_value(old(self)@, *mode).wrapping_add(1),
    {
        let addr: u16 = self.get_operand_address(mode);
        let value: u8 = self.mem_read(addr);
        let result: u8 = value.wrapping_add(1);
        self.mem_write(addr, result);
        self.update_zero_and_negative_flags(result);
        result
    }

    /// DEX.
    pub fn dex(&mut self)
        ensures
            final(self)@ == (CpuView {
                x: old(self)@.x.wrapping_sub(1),
                p: zn_update(old(self)@.p, old(self)@.x.wrapping_sub(1)),
                ..old(self)@
            }),
    {
        self.register_x = self.register_x.wrapping_sub(1);
        let x = self.register_x;
        self.update_zero_and_negative_flags(x);
    }

    /// DEY.
    pub fn dey(&mut self)
        ensures
            final(self)@ == (CpuView {
                y: old(self)@.y.wrapping_sub(1),
                p: zn_update(old(self)@.p, old(self)@.y.wrapping_sub(1)),
                ..old(self)@
            }),
    {
        self.register_y = self.register_y.wrapping_sub(1);
        let y = self.register_y;
        self.update_zero_and_negative_flags(y);
    }

    /// INX.
    pub fn inx(&mut self)
        ensures
            final(self)@ == (CpuView {
                x: old(self)@.x.wrapping_add(1),
                p: zn_update(old(self)@.p, old(self)@.x.wrapping_add(1)),
                ..old(self)@
            }),
    {
        self.register_x = self.register_x.wrapping_add(1);
        let x = self.register_x;
        self.update_zero_and_negative_flags(x);
    }

    /// INY.
    pub fn iny(&mut self)
        ensures
            final(self)@ == (CpuView {
                y: old(self)@.y.wrapping_add(1),
                p: zn_update(old(self)@.p, old(self)@.y.wrapping_add(1)),
                ..old(self)@
            }),
    {
        self.register_y = self.register_y.wrapping_add(1);
        let y = self.register_y;
        self.update_zero_and_negative_flags(y);
    }

    /// ASL on A; see [`cpu_asl_a`].
    pub fn asl_accumulator(&mut self)
        ensures
            final(self)@ == cpu_asl_a(old(self)@),
    {
        let data: u8 = self.register_a;
        self.set_flag(StatusFlag::Carry, data >> 7 == 1);
        self.register_a = data << 1;
        self.update_zero_and_negative_flags(data << 1);
    }

    /// ASL on memory; see [`cpu_asl`].
    pub fn asl(&mut self, mode: &AddressingMode) -> (r: u8)
        requires
            cpu_wf(old(self)@),
            !(*mode is NoneAddressing),
        ensures
            cpu_wf(final(self)@),
            final(self)@ == cpu_asl(old(self)@, *mode),
            r == operand_value(old(self)@, *mode) << 1,
    {
        let addr: u16 = self.get_operand_address(mode);
        let data: u8 = self.mem_read(addr);
        self.set_flag(StatusFlag::Carry, data >> 7 == 1);
        self.mem_write(addr, data << 1);
        self.update_zero_and_negative_flags(data << 1);
        data << 1
    }

    /// LSR on A; see [`cpu_lsr_a`].
    pub fn lsr_accumulator(&mut self)
        ensures
            final(self)@ == cpu_lsr_a(old(self)@),
    {
        let data: u8 = self.register_a;
        self.set_flag(StatusFlag::Carry, data & 1 == 1);
        self.register_a = data >> 1;
        self.update_zero_and_negative_flags(data >> 1);
    }

    /// LSR on memory; see [`cpu_lsr`].
    pub fn lsr(&mut self, mode: &AddressingMode) -> (r: u8)
        requires
            cpu_wf(old(self)@),
            !(*mode is NoneAddressing),
        ensures
            cpu_wf(final(self)@),
            final(self)@ == cpu_lsr(old(self)@, *mode),
            r == operand_value(old(self)@, *mode) >> 1,
    {
        let addr: u16 = self.get_operand_address(mode);
        let data: u8 = self.mem_read(addr);
        self.set_flag(StatusFlag::Carry, data & 1 == 1);
        self.mem_write(addr, data >> 1);
        self.update_zero_and_negative_flags(data >> 1);
        data >> 1
    }

    /// ROL on A; see [`cpu_rol_a`].
    pub fn rol_accumulator(&mut self)
        ensures
            final(self)@ == cpu_rol_a(old(self)@),
    {
        let data: u8 = self.register_a;
        let old_carry: bool = self.get_flag(StatusFlag::Carry);
        self.set_flag(StatusFlag::Carry, data >> 7 == 1);
        let nv: u8 = if old_carry {
            (data << 1) | 1
        } else {
            data << 1
        };
        self.register_a = nv;
        self.update_zero_and_negative_flags(nv);
    }

    /// ROL on memory; see [`cpu_rol`].
    pub fn rol(&mut self, mode: &AddressingMode) -> (r: u8)
        requires
            cpu_wf(old(self)@),
            !(*mode is NoneAddressing),
        ensures
            cpu_wf(final(self)@),
            final(self)@ == cpu_rol(old(self)@, *mode),
            r == rol_value(
                operand_value(old(self)@, *mode),
                flag_set(old(self)@.p, StatusFlag::Carry),
            ),
    {
        let addr: u16 = self.get_operand_address(mode);
        let data: u8 = self.mem_read(addr);
        let old_carry: bool = self.get_flag(StatusFlag::Carry);
        self.set_flag(StatusFlag::Carry, data >> 7 == 1);
        let nv: u8 = if old_carry {
            (data << 1) | 1
        } else {
            data << 1
        };
        self.mem_write(addr, nv);
        self.update_zero_and_negative_flags(nv);
        nv
    }

    /// ROR on A; see [`cpu_ror_a`].
    pub fn ror_accumulator(&mut self)
        ensures
            final(self)@ == cpu_ror_a(old(self)@),
    {
        let data: u8 = self.register_a;
        let old_carry: bool = self.get_flag(StatusFlag::Carry);
        self.set_flag(StatusFlag::Carry, data & 1 == 1);
        let nv: u8 = if old_carry {
            (data >> 1) | 0x80
        } else {
            data >> 1
        };
        self.register_a = nv;
        self.update_zero_and_negative_flags(nv);
    }

    /// ROR on memory; see [`cpu_ror`].
    pub fn ror(&mut self, mode: &AddressingMode) -> (r: u8)
        requires
            cpu_wf(old(self)@),
            !(*mode is NoneAddressing),
        ensures
            cpu_wf(final(self)@),
            final(self)@ == cpu_ror(old(self)@, *mode),
            r == ror_value(
                operand_value(old(self)@, *mode),
                flag_set(old(self)@.p, StatusFlag::Carry),
            ),
    {
        let addr: u16 = self.get_operand_address(mode);
        let data: u8 = self.mem_read(addr);
        let old_carry: bool = self.get_flag(StatusFlag::Carry);
        self.set_flag(StatusFlag::Carry, data & 1 == 1);
        let nv: u8 = if old_carry {
            (data >> 1) | 0x80
        } else {
            data >> 1
        };
        self.mem_write(addr, nv);
        self.update_zero_and_negative_flags(nv);
        nv
    }

    /// TAX.
    pub fn tax(&mut self)
        ensures
            final(self)@ == (CpuView {
                x: old(self)@.a,
                p: zn_update(old(self)@.p, old(self)@.a),
                ..old(self)@
            }),
    {
        self.register_x = self.register_a;
        let x = self.register_x;
        self.update_zero_and_negative_flags(x);
    }

    /// TAY.
    pub fn tay(&mut self)
        ensures
            final(self)@ == (CpuView {
                y: old(self)@.a,
                p: zn_update(old(self)@.p, old(self)@.a),
                ..old(self)@
            }),
    {
        self.register_y = self.register_a;
        let y = self.register_y;
        self.update_zero_and_negative_flags(y);
    }

    /// TSX.
    pub fn tsx(&mut self)
        ensures
            final(self)@ == (CpuView {
                x: old(self)@.sp,
                p: zn_update(old(self)@.p, old(self)@.sp),
                ..old(self)@
            }),
    {
        self.register_x = self.stack_pointer;
        let x = self.register_x;
        self.update_zero_and_negative_flags(x);
    }

    /// TXA.
    pub fn txa(&mut self)
        ensures
            final(self)@ == (CpuView {
                a: old(self)@.x,
                p: zn_update(old(self)@.p, old(self)@.x),
                ..old(self)@
            }),
    {
        self.register_a = self.register_x;
        let a = self.register_a;
        self.update_zero_and_negative_flags(a);
    }

    /// TXS: no flags change.
    pub fn txs(&mut self)
        ensures
            final(self)@ == (CpuView { sp: old(self)@.x, ..old(self)@ }),
    {
        self.stack_pointer = self.register_x;
    }

    /// TYA.
    pub fn tya(&mut self)
        ensures
            final(self)@ == (CpuView {
                a: old(self)@.y,
                p: zn_update(old(self)@.p, old(self)@.y),
                ..old(self)@
            }),
    {
        self.register_a = self.register_y;
        let a = self.register_a;
        self.update_zero_and_negative_flags(a);
    }

    /// DCP; see [`cpu_dcp`].
    pub fn dcp(&mut self, mode: &AddressingMode)
        requires
            cpu_wf(old(self)@),
            !(*mode is NoneAddressing),
        ensures
            cpu_wf(final(self)@),
            final(self)@ == cpu_dcp(old(self)@, *mode),
    {
        let addr: u16 = self.get_operand_address(mode);
        let value: u8 = self.mem_read(addr).wrapping_sub(1);
        self.mem_write(addr, value);
        self.set_flag(StatusFlag::Carry, self.register_a >= value);
        let d = self.register_a.wrapping_sub(value);
        self.update_zero_and_negative_flags(d);
    }

    /// ISB; see [`cpu_isb`].
    pub fn isb(&mut self, mode: &AddressingMode)
        requires
            cpu_wf(old(self)@),
            !(*mode is NoneAddressing),
        ensures
            cpu_wf(final(self)@),
            final(self)@ == cpu_isb(old(self)@, *mode),
    {
        let addr: u16 = self.get_operand_address(mode);
        let value: u8 = self.mem_read(addr).wrapping_add(1);
        self.mem_write(addr, value);
        self.add_to_register_a(255 - value);
    }

    /// SLO; see [`cpu_slo`].
    pub fn slo(&mut self, mode: &AddressingMode)
        requires
            cpu_wf(old(self)@),
            !(*mode is NoneAddressing),
        ensures
            cpu_wf(final(self)@),
            final(self)@ == cpu_slo(old(self)@, *mode),
    {
        let addr: u16 = self.get_operand_address(mode);
        let val: u8 = self.mem_read(addr);
        self.set_flag(StatusFlag::Carry, val >> 7 == 1);
        let value: u8 = val << 1;
        self.mem_write(addr, value);
        self.register_a = self.register_a | value;
        let a = self.register_a;
        self.update_zero_and_negative_flags(a);
    }

    /// SRE; see [`cpu_sre`].
    pub fn sre(&mut self, mode: &AddressingMode)
        requires
            cpu_wf(old(self)@),
            !(*mode is NoneAddressing),
        ensures
            cpu_wf(final(self)@),
            final(self)@ == cpu_sre(old(self)@, *mode),
    {
        let addr: u16 = self.get_operand_address(mode);
        let val: u8 = self.mem_read(addr);
        self.set_flag(StatusFlag::Carry, val & 1 == 1);
        let value: u8 = val >> 1;
        self.mem_write(addr, value);
        self.register_a = self.register_a ^ value;
        let a = self.register_a;
        self.update_zero_and_negative_flags(a);
    }

    /// RLA; see [`cpu_rla`].
    pub fn rla(&mut self, mode: &AddressingMode)
        requires
            cpu_wf(old(self)@),
            !(*mode is NoneAddressing),
        ensures
            cpu_wf(final(self)@),
            final(self)@ == cpu_rla(old(self)@, *mode),
    {
        self.rol(mode);
        let addr: u16 = self.get_operand_address(mode);
        let value: u8 = self.mem_read(addr);
        self.register_a = self.register_a & value;
    }

    /// RRA; see [`cpu_rra`].
    pub fn rra(&mut self, mode: &AddressingMode)
        requires
            cpu_wf(old(self)@),
            !(*mode is NoneAddressing),
        ensures
            cpu_wf(final(self)@),
            final(self)@ == cpu_rra(old(self)@, *mode),
    {
        self.ror(mode);
        let addr: u16 = self.get_operand_address(mode);
        let value: u8 = self.mem_read(addr);
        self.add_to_register_a(value);
    }

    /// A conditional branch; see [`cpu_branch`].
    pub fn branch(&mut self, condition: bool)
        requires
            cpu_wf(old(self)@),
        ensures
            cpu_wf(final(self)@),
            final(self)@ == cpu_branch(old(self)@, condition),
    {
        if condition {
            let pc = self.program_counter;
            let offset: i8 = self.mem_read(pc) as i8;
            self.program_counter = self.program_counter.wrapping_add(1).wrapping_add(
                offset as u16,
            );
        }
    }

    /// JMP absolute; see [`cpu_jmp_absolute`].
    pub fn jmp_absolute(&mut self)
        requires
            cpu_wf(old(self)@),
        ensures
            cpu_wf(final(self)@),
            final(self)@ == cpu_jmp_absolute(old(self)@),
    {
        let pc = self.program_counter;
        let addr: u16 = self.mem_read_u16(pc);
        self.program_counter = addr;
    }

    /// JMP indirect with the page-wrap quirk; see [`cpu_jmp_indirect`].
    pub fn jmp_indirect(&mut self)
        requires
            cpu_wf(old(self)@),
        ensures
            cpu_wf(final(self)@),
            final(self)@ == cpu_jmp_indirect(old(self)@),
    {
        let pc = self.program_counter;
        let addr: u16 = self.mem_read_u16(pc);
        let indirect_ref: u16 = if addr & 0x00FF == 0x00FF {
            let lo: u8 = self.mem_read(addr);
            let hi: u8 = self.mem_read(addr & 0xFF00);
            ((hi as u16) << 8) | (lo as u16)
        } else {
            self.mem_read_u16(addr)
        };
        self.program_counter = indirect_ref;
    }

    /// JSR; see [`cpu_jsr`].
    pub fn jsr(&mut self)
        requires
            cpu_wf(old(self)@),
        ensures
            cpu_wf(final(self)@),
            final(self)@ == cpu_jsr(old(self)@),
    {
        let pc = self.program_counter;
        self.stack_push_u16(pc.wrapping_add(1));
        let target_address: u16 = self.mem_read_u16(pc);
        self.program_counter = target_address;
    }

    /// RTS; see [`cpu_rts`].
    pub fn rts(&mut self)
        requires
            cpu_wf(old(self)@),
        ensures
            cpu_wf(final(self)@),
            final(self)@ == cpu_rts(old(self)@),
    {
        let addr = self.stack_pop_u16();
        self.program_counter = addr.wrapping_add(1);
    }

    /// RTI; see [`cpu_rti`].
    pub fn rti(&mut self)
        requires
            cpu_wf(old(self)@),
        ensures
            cpu_wf(final(self)@),
            final(self)@ == cpu_rti(old(self)@),
    {
        let v = self.stack_pop();
        self.status = v;
        self.set_flag(StatusFlag::Break, false);
        self.set_flag(StatusFlag::Break2, true);
        self.program_counter = self.stack_pop_u16();
    }

    /// PHA; see [`cpu_pha`].
    pub fn pha(&mut self)
        requires
            cpu_wf(old(self)@),
        ensures
            cpu_wf(final(self)@),
            final(self)@ == cpu_pha(old(self)@),
    {
        let a = self.register_a;
        self.stack_push(a);
    }

    /// PHP; see [`cpu_php`].
    pub fn php(&mut self)
        requires
            cpu_wf(old(self)@),
        ensures
            cpu_wf(final(self)@),
            final(self)@ == cpu_php(old(self)@),
    {
        let v = self.status | 0x30;
        self.stack_push(v);
    }

    /// PLA; see [`cpu_pla`].
    pub fn pla(&mut self)
        requires
            cpu_wf(old(self)@),
        ensures
            cpu_wf(final(self)@),
            final(self)@ == cpu_pla(old(self)@),
    {
        let v = self.stack_pop();
        self.register_a = v;
        self.update_zero_and_negative_flags(v);
    }

    /// PLP; see [`cpu_plp`].
    pub fn plp(&mut self)
        requires
            cpu_wf(old(self)@),
        ensures
            cpu_wf(final(self)@),
            final(self)@ == cpu_plp(old(self)@),
    {
        let v = self.stack_pop();
        self.status = v;
        self.set_flag(StatusFlag::Break, false);
        self.set_flag(StatusFlag::Break2, true);
    }

    /// BRK; see [`cpu_brk`].
    pub fn brk(&mut self)
        requires
            cpu_wf(old(self)@),
        ensures
            cpu_wf(final(self)@),
            final(self)@ == cpu_brk(old(self)@),
    {
        self.program_counter = self.program_counter.wrapping_add(1);
        let pc = self.program_counter;
        self.stack_push_u16(pc);
        let v = self.status | 0x30;
        self.stack_push(v);
        self.set_flag(StatusFlag::InterruptDisable, true);
        self.program_counter = self.mem_read_u16(0xFFFE);
    }

    /// Services an interrupt; see [`cpu_nmi`].
    pub fn interrupt(&mut self, itype: InterruptType)
        requires
            cpu_wf(old(self)@),
        ensures
            cpu_wf(final(self)@),
            final(self)@ == cpu_nmi(old(self)@),
    {
        match itype {
            InterruptType::NMI => {
                let pc = self.program_counter;
                self.stack_push_u16(pc);
                let flag: u8 = (self.status & !0x10) | 0x20;
                self.stack_push(flag);
                self.set_flag(StatusFlag::InterruptDisable, true);
                self.bus.tick(2);
                self.program_counter = self.mem_read_u16(0xFFFA);
            },
        }
    }
}


// ---------------------------------------------------------------------------
// Opcode table
// ---------------------------------------------------------------------------
/// The dense opcode table: for each opcode byte, its addressing mode, its
/// instruction length in bytes, and its base cycle count (no page-cross
/// penalty is modelled). Bytes that name no instruction map to a harmless
/// placeholder; [`opcode_known`] tells them apart.
pub open spec fn spec_opcode_entry(code: u8) -> (AddressingMode, u8, u8) {
    match code {
        0x0 => (AddressingMode::NoneAddressing, 1, 7),
        0x1 => (AddressingMode::Indirect_X, 2, 6),
        0x3 => (AddressingMode::Indirect_X, 2, 8),
        0x4 => (AddressingMode::ZeroPage, 2, 3),
        0x5 => (AddressingMode::ZeroPage, 2, 3),
        0x6 => (AddressingMode::ZeroPage, 2, 5),
        0x7 => (AddressingMode::ZeroPage, 2, 5),
        0x8 => (AddressingMode::NoneAddressing, 1, 3),
        0x9 => (AddressingMode::Immediate, 2, 2),
        0xA => (AddressingMode::NoneAddressing, 1, 2),
        0xC => (AddressingMode::Absolute, 3, 4),
        0xD => (AddressingMode::Absolute, 3, 4),
        0xE => (AddressingMode::Absolute, 3, 6),
        0xF => (AddressingMode::Absolute, 3, 6),
        0x10 => (AddressingMode::NoneAddressing, 2, 2),
        0x11 => (AddressingMode::Indirect_Y, 2, 5),
        0x13 => (AddressingMode::Indirect_Y, 2, 8),
        0x14 => (AddressingMode::ZeroPage_X, 2, 4),
        0x15 => (AddressingMode::ZeroPage_X, 2, 4),
        0x16 => (AddressingMode::ZeroPage_X, 2, 6),
        0x17 => (AddressingMode::ZeroPage_X, 2, 6),
        0x18 => (AddressingMode::NoneAddressing, 1, 2),
        0x19 => (AddressingMode::Absolute_Y, 3, 4),
        0x1A => (AddressingMode::NoneAddressing, 1, 2),
        0x1B => (AddressingMode::Absolute_Y, 3, 7),
        0x1C => (AddressingMode::Absolute_X, 3, 4),
        0x1D => (AddressingMode::Absolute_X, 3, 4),
        0x1E => (AddressingMode::Absolute_X, 3, 7),
        0x1F => (AddressingMode::Absolute_X, 3, 7),
        0x20 => (AddressingMode::NoneAddressing, 3, 6),
        0x21 => (AddressingMode::Indirect_X, 2, 6),
        0x23 => (AddressingMode::Indirect_X, 2, 8),
        0x24 => (AddressingMode::ZeroPage, 2, 3),
        0x25 => (AddressingMode::ZeroPage, 2, 3),
        0x26 => (AddressingMode::ZeroPage, 2, 5),
        0x27 => (AddressingMode::ZeroPage, 2, 5),
        0x28 => (AddressingMode::NoneAddressing, 1, 4),
        0x29 => (AddressingMode::Immediate, 2, 2),
        0x2A => (AddressingMode::NoneAddressing, 1, 2),
        0x2C => (AddressingMode::Absolute, 3, 4),
        0x2D => (AddressingMode::Absolute, 3, 4),
        0x2E => (AddressingMode::Absolute, 3, 6),
        0x2F => (AddressingMode::Absolute, 3, 6),
        0x30 => (AddressingMode::NoneAddressing, 2, 2),
        0x31 => (AddressingMode::Indirect_Y, 2, 5),
        0x33 => (AddressingMode::Indirect_Y, 2, 8),
        0x34 => (AddressingMode::ZeroPage_X, 2, 4),
        0x35 => (AddressingMode::ZeroPage_X, 2, 4),
        0x36 => (AddressingMode::ZeroPage_X, 2, 6),
        0x37 => (AddressingMode::ZeroPage_X, 2, 6),
        0x38 => (AddressingMode::NoneAddressing, 1, 2),
        0x39 => (AddressingMode::Absolute_Y, 3, 4),
        0x3A => (AddressingMode::NoneAddressing, 1, 2),
        0x3B => (AddressingMode::Absolute_Y, 3, 7),
        0x3C => (AddressingMode::Absolute_X, 3, 4),
        0x3D => (AddressingMode::Absolute_X, 3, 4),
        0x3E => (AddressingMode::Absolute_X, 3, 7),
        0x3F => (AddressingMode::Absolute_X, 3, 7),
        0x40 => (AddressingMode::NoneAddressing, 1, 6),
        0x41 => (AddressingMode::Indirect_X, 2, 6),
        0x43 => (AddressingMode::Indirect_X, 2, 8),
        0x44 => (AddressingMode::ZeroPage, 2, 3),
        0x45 => (AddressingMode::ZeroPage, 2, 3),
        0x46 => (AddressingMode::ZeroPage, 2, 5),
        0x47 => (AddressingMode::ZeroPage, 2, 5),
        0x48 => (AddressingMode::NoneAddressing, 1, 3),
        0x49 => (AddressingMode::Immediate, 2, 2),
        0x4A => (AddressingMode::NoneAddressing, 1, 2),
        0x4C => (AddressingMode::NoneAddressing, 3, 3),
        0x4D => (AddressingMode::Absolute, 3, 4),
        0x4E => (AddressingMode::Absolute, 3, 6),
        0x4F => (AddressingMode::Absolute, 3, 6),
        0x50 => (AddressingMode::NoneAddressing, 2, 2),
        0x51 => (AddressingMode::Indirect_Y, 2, 5),
        0x53 => (AddressingMode::Indirect_Y, 2, 8),
        0x54 => (AddressingMode::ZeroPage_X, 2, 4),
        0x55 => (AddressingMode::ZeroPage_X, 2, 4),
        0x56 => (AddressingMode::ZeroPage_X, 2, 6),
        0x57 => (AddressingMode::ZeroPage_X, 2, 6),
        0x58 => (AddressingMode::NoneAddressing, 1, 2),
        0x59 => (AddressingMode::Absolute_Y, 3, 4),
        0x5A => (AddressingMode::NoneAddressing, 1, 2),
        0x5B => (AddressingMode::Absolute_Y, 3, 7),
        0x5C => (AddressingMode::Absolute_X, 3, 4),
        0x5D => (AddressingMode::Absolute_X, 3, 4),
        0x5E => (AddressingMode::Absolute_X, 3, 7),
        0x5F => (AddressingMode::Absolute_X, 3, 7),
        0x60 => (AddressingMode::NoneAddressing, 1, 6),
        0x61 => (AddressingMode::Indirect_X, 2, 6),
        0x63 => (AddressingMode::Indirect_X, 2, 8),
        0x64 => (AddressingMode::ZeroPage, 2, 3),
        0x65 => (AddressingMode::ZeroPage, 2, 3),
        0x66 => (AddressingMode::ZeroPage, 2, 5),
        0x67 => (AddressingMode::ZeroPage, 2, 5),
        0x68 => (AddressingMode::NoneAddressing, 1, 4),
        0x69 => (AddressingMode::Immediate, 2, 2),
        0x6A => (AddressingMode::NoneAddressing, 1, 2),
        0x6C => (AddressingMode::NoneAddressing, 3, 5),
        0x6D => (AddressingMode::Absolute, 3, 4),
        0x6E => (AddressingMode::Absolute, 3, 6),
        0x6F => (AddressingMode::Absolute, 3, 6),
        0x70 => (AddressingMode::NoneAddressing, 2, 2),
        0x71 => (AddressingMode::Indirect_Y, 2, 5),
        0x73 => (AddressingMode::Indirect_Y, 2, 8),
        0x74 => (AddressingMode::ZeroPage_X, 2, 4),
        0x75 => (AddressingMode::ZeroPage_X, 2, 4),
        0x76 => (AddressingMode::ZeroPage_X, 2, 6),
        0x77 => (AddressingMode::ZeroPage_X, 2, 6),
        0x78 => (AddressingMode::NoneAddressing, 1, 2),
        0x79 => (AddressingMode::Absolute_Y, 3, 4),
        0x7A => (AddressingMode::NoneAddressing, 1, 2),
        0x7B => (AddressingMode::Absolute_Y, 3, 7),
        0x7C => (AddressingMode::Absolute_X, 3, 4),
        0x7D => (AddressingMode::Absolute_X, 3, 4),
        0x7E => (AddressingMode::Absolute_X, 3, 7),
        0x7F => (AddressingMode::Absolute_X, 3, 7),
        0x80 => (AddressingMode::Immediate, 2, 2),
        0x81 => (AddressingMode::Indirect_X, 2, 6),
        0x82 => (AddressingMode::Immediate, 2, 2),
        0x83 => (AddressingMode::Indirect_X, 2, 6),
        0x84 => (AddressingMode::ZeroPage, 2, 3),
        0x85 => (AddressingMode::ZeroPage, 2, 3),
        0x86 => (AddressingMode::ZeroPage, 2, 3),
        0x87 => (AddressingMode::ZeroPage, 2, 3),
        0x88 => (AddressingMode::NoneAddressing, 1, 2),
        0x89 => (AddressingMode::Immediate, 2, 2),
        0x8A => (AddressingMode::NoneAddressing, 1, 2),
        0x8C => (AddressingMode::Absolute, 3, 4),
        0x8D => (AddressingMode::Absolute, 3, 4),
        0x8E => (AddressingMode::Absolute, 3, 4),
        0x8F => (AddressingMode::Absolute, 3, 4),
        0x90 => (AddressingMode::NoneAddressing, 2, 2),
        0x91 => (AddressingMode::Indirect_Y, 2, 6),
        0x94 => (AddressingMode::ZeroPage_X, 2, 4),
        0x95 => (AddressingMode::ZeroPage_X, 2, 4),
        0x96 => (AddressingMode::ZeroPage_Y, 2, 4),
        0x97 => (AddressingMode::ZeroPage_Y, 2, 4),
        0x98 => (AddressingMode::NoneAddressing, 1, 2),
        0x99 => (AddressingMode::Absolute_Y, 3, 5),
        0x9A => (AddressingMode::NoneAddressing, 1, 2),
        0x9D => (AddressingMode::Absolute_X, 3, 5),
        0xA0 => (AddressingMode::Immediate, 2, 2),
        0xA1 => (AddressingMode::Indirect_X, 2, 6),
        0xA2 => (AddressingMode::Immediate, 2, 2),
        0xA3 => (AddressingMode::Indirect_X, 2, 6),
        0xA4 => (AddressingMode::ZeroPage, 2, 3),
        0xA5 => (AddressingMode::ZeroPage, 2, 3),
        0xA6 => (AddressingMode::ZeroPage, 2, 3),
        0xA7 => (AddressingMode::ZeroPage, 2, 3),
        0xA8 => (AddressingMode::NoneAddressing, 1, 2),
        0xA9 => (AddressingMode::Immediate, 2, 2),
        0xAA => (AddressingMode::NoneAddressing, 1, 2),
        0xAC => (AddressingMode::Absolute, 3, 4),
        0xAD => (AddressingMode::Absolute, 3, 4),
        0xAE => (AddressingMode::Absolute, 3, 4),
        0xAF => (AddressingMode::Absolute, 3, 4),
        0xB0 => (AddressingMode::NoneAddressing, 2, 2),
        0xB1 => (AddressingMode::Indirect_Y, 2, 5),
        0xB3 => (AddressingMode::Indirect_Y, 2, 5),
        0xB4 => (AddressingMode::ZeroPage_X, 2, 4),
        0xB5 => (AddressingMode::ZeroPage_X, 2, 4),
        0xB6 => (AddressingMode::ZeroPage_Y, 2, 4),
        0xB7 => (AddressingMode::ZeroPage_Y, 2, 4),
        0xB8 => (AddressingMode::NoneAddressing, 1, 2),
        0xB9 => (AddressingMode::Absolute_Y, 3, 4),
        0xBA => (AddressingMode::NoneAddressing, 1, 2),
        0xBC => (AddressingMode::Absolute_X, 3, 4),
        0xBD => (AddressingMode::Absolute_X, 3, 4),
        0xBE => (AddressingMode::Absolute_Y, 3, 4),
        0xBF => (AddressingMode::Absolute_Y, 3, 4),
        0xC0 => (AddressingMode::Immediate, 2, 2),
        0xC1 => (AddressingMode::Indirect_X, 2, 6),
        0xC2 => (AddressingMode::Immediate, 2, 2),
        0xC3 => (AddressingMode::Indirect_X, 2, 8),
        0xC4 => (AddressingMode::ZeroPage, 2, 3),
        0xC5 => (AddressingMode::ZeroPage, 2, 3),
        0xC6 => (AddressingMode::ZeroPage, 2, 5),
        0xC7 => (AddressingMode::ZeroPage, 2, 5),
        0xC8 => (AddressingMode::NoneAddressing, 1, 2),
        0xC9 => (AddressingMode::Immediate, 2, 2),
        0xCA => (AddressingMode::NoneAddressing, 1, 2),
        0xCC => (AddressingMode::Absolute, 3, 4),
        0xCD => (AddressingMode::Absolute, 3, 4),
        0xCE => (AddressingMode::Absolute, 3, 6),
        0xCF => (AddressingMode::Absolute, 3, 6),
        0xD0 => (AddressingMode::NoneAddressing, 2, 2),
        0xD1 => (AddressingMode::Indirect_Y, 2, 5),
        0xD3 => (AddressingMode::Indirect_Y, 2, 8),
        0xD4 => (AddressingMode::ZeroPage_X, 2, 4),
        0xD5 => (AddressingMode::ZeroPage_X, 2, 4),
        0xD6 => (AddressingMode::ZeroPage_X, 2, 6),
        0xD7 => (AddressingMode::ZeroPage_X, 2, 6),
        0xD8 => (AddressingMode::NoneAddressing, 1, 2),
        0xD9 => (AddressingMode::Absolute_Y, 3, 4),
        0xDA => (AddressingMode::NoneAddressing, 1, 2),
        0xDB => (AddressingMode::Absolute_Y, 3, 7),
        0xDC => (AddressingMode::Absolute_X, 3, 4),
        0xDD => (AddressingMode::Absolute_X, 3, 4),
        0xDE => (AddressingMode::Absolute_X, 3, 7),
        0xDF => (AddressingMode::Absolute_X, 3, 7),
        0xE0 => (AddressingMode::Immediate, 2, 2),
        0xE1 => (AddressingMode::Indirect_X, 2, 6),
        0xE2 => (AddressingMode::Immediate, 2, 2),
        0xE3 => (AddressingMode::Indirect_X, 2, 8),
        0xE4 => (AddressingMode::ZeroPage, 2, 3),
        0xE5 => (AddressingMode::ZeroPage, 2, 3),
        0xE6 => (AddressingMode::ZeroPage, 2, 5),
        0xE7 => (AddressingMode::ZeroPage, 2, 5),
        0xE8 => (AddressingMode::NoneAddressing, 1, 2),
        0xE9 => (AddressingMode::Immediate, 2, 2),
        0xEA => (AddressingMode::NoneAddressing, 1, 2),
        0xEB => (AddressingMode::Immediate, 2, 2),
        0xEC => (AddressingMode::Absolute, 3, 4),
        0xED => (AddressingMode::Absolute, 3, 4),
        0xEE => (AddressingMode::Absolute, 3, 6),
        0xEF => (AddressingMode::Absolute, 3, 6),
        0xF0 => (AddressingMode::NoneAddressing, 2, 2),
        0xF1 => (AddressingMode::Indirect_Y, 2, 5),
        0xF3 => (AddressingMode::Indirect_Y, 2, 8),
        0xF4 => (AddressingMode::ZeroPage_X, 2, 4),
        0xF5 => (AddressingMode::ZeroPage_X, 2, 4),
        0xF6 => (AddressingMode::ZeroPage_X, 2, 6),
        0xF7 => (AddressingMode::ZeroPage_X, 2, 6),
        0xF8 => (AddressingMode::NoneAddressing, 1, 2),
        0xF9 => (AddressingMode::Absolute_Y, 3, 4),
        0xFA => (AddressingMode::NoneAddressing, 1, 2),
        0xFB => (AddressingMode::Absolute_Y, 3, 7),
        0xFC => (AddressingMode::Absolute_X, 3, 4),
        0xFD => (AddressingMode::Absolute_X, 3, 4),
        0xFE => (AddressingMode::Absolute_X, 3, 7),
        0xFF => (AddressingMode::Absolute_X, 3, 7),
        _ => (AddressingMode::NoneAddressing, 1, 2),
    }
}

/// Whether an opcode byte names an instruction, official or unofficial.
pub open spec fn opcode_known(code: u8) -> bool {
    !(code == 0x2 || code == 0xb || code == 0x12 || code == 0x22 || code == 0x2b || code == 0x32 || code == 0x42 || code == 0x4b || code == 0x52 || code == 0x62 || code == 0x6b || code == 0x72 || code == 0x8b || code == 0x92 || code == 0x93 || code == 0x9b || code == 0x9c || code == 0x9e || code == 0x9f || code == 0xab || code == 0xb2 || code == 0xbb || code == 0xcb || code == 0xd2 || code == 0xf2)
}

/// Exec counterpart of [`spec_opcode_entry`].
#[verifier::when_used_as_spec(spec_opcode_entry)]
pub fn opcode_entry(code: u8) -> (r: (AddressingMode, u8, u8))
    ensures
        r == spec_opcode_entry(code),
{
    match code {
        0x0 => (AddressingMode::NoneAddressing, 1, 7),
        0x1 => (AddressingMode::Indirect_X, 2, 6),
        0x3 => (AddressingMode::Indirect_X, 2, 8),
        0x4 => (AddressingMode::ZeroPage, 2, 3),
        0x5 => (AddressingMode::ZeroPage, 2, 3),
        0x6 => (AddressingMode::ZeroPage, 2, 5),
        0x7 => (AddressingMode::ZeroPage, 2, 5),
        0x8 => (AddressingMode::NoneAddressing, 1, 3),
        0x9 => (AddressingMode::Immediate, 2, 2),
        0xA => (AddressingMode::NoneAddressing, 1, 2),
        0xC => (AddressingMode::Absolute, 3, 4),
        0xD => (AddressingMode::Absolute, 3, 4),
        0xE => (AddressingMode::Absolute, 3, 6),
        0xF => (AddressingMode::Absolute, 3, 6),
        0x10 => (AddressingMode::NoneAddressing, 2, 2),
        0x11 => (AddressingMode::Indirect_Y, 2, 5),
        0x13 => (AddressingMode::Indirect_Y, 2, 8),
        0x14 => (AddressingMode::ZeroPage_X, 2, 4),
        0x15 => (AddressingMode::ZeroPage_X, 2, 4),
        0x16 => (AddressingMode::ZeroPage_X, 2, 6),
        0x17 => (AddressingMode::ZeroPage_X, 2, 6),
        0x18 => (AddressingMode::NoneAddressing, 1, 2),
        0x19 => (AddressingMode::Absolute_Y, 3, 4),
        0x1A => (AddressingMode::NoneAddressing, 1, 2),
        0x1B => (AddressingMode::Absolute_Y, 3, 7),
        0x1C => (AddressingMode::Absolute_X, 3, 4),
        0x1D => (AddressingMode::Absolute_X, 3, 4),
        0x1E => (AddressingMode::Absolute_X, 3, 7),
        0x1F => (AddressingMode::Absolute_X, 3, 7),
        0x20 => (AddressingMode::NoneAddressing, 3, 6),
        0x21 => (AddressingMode::Indirect_X, 2, 6),
        0x23 => (AddressingMode::Indirect_X, 2, 8),
        0x24 => (AddressingMode::ZeroPage, 2, 3),
        0x25 => (AddressingMode::ZeroPage, 2, 3),
        0x26 => (AddressingMode::ZeroPage, 2, 5),
        0x27 => (AddressingMode::ZeroPage, 2, 5),
        0x28 => (AddressingMode::NoneAddressing, 1, 4),
        0x29 => (AddressingMode::Immediate, 2, 2),
        0x2A => (AddressingMode::NoneAddressing, 1, 2),
        0x2C => (AddressingMode::Absolute, 3, 4),
        0x2D => (AddressingMode::Absolute, 3, 4),
        0x2E => (AddressingMode::Absolute, 3, 6),
        0x2F => (AddressingMode::Absolute, 3, 6),
        0x30 => (AddressingMode::NoneAddressing, 2, 2),
        0x31 => (AddressingMode::Indirect_Y, 2, 5),
        0x33 => (AddressingMode::Indirect_Y, 2, 8),
        0x34 => (AddressingMode::ZeroPage_X, 2, 4),
        0x35 => (AddressingMode::ZeroPage_X, 2, 4),
        0x36 => (AddressingMode::ZeroPage_X, 2, 6),
        0x37 => (AddressingMode::ZeroPage_X, 2, 6),
        0x38 => (AddressingMode::NoneAddressing, 1, 2),
        0x39 => (AddressingMode::Absolute_Y, 3, 4),
        0x3A => (AddressingMode::NoneAddressing, 1, 2),
        0x3B => (AddressingMode::Absolute_Y, 3, 7),
        0x3C => (AddressingMode::Absolute_X, 3, 4),
        0x3D => (AddressingMode::Absolute_X, 3, 4),
        0x3E => (AddressingMode::Absolute_X, 3, 7),
        0x3F => (AddressingMode::Absolute_X, 3, 7),
        0x40 => (AddressingMode::NoneAddressing, 1, 6),
        0x41 => (AddressingMode::Indirect_X, 2, 6),
        0x43 => (AddressingMode::Indirect_X, 2, 8),
        0x44 => (AddressingMode::ZeroPage, 2, 3),
        0x45 => (AddressingMode::ZeroPage, 2, 3),
        0x46 => (AddressingMode::ZeroPage, 2, 5),
        0x47 => (AddressingMode::ZeroPage, 2, 5),
        0x48 => (AddressingMode::NoneAddressing, 1, 3),
        0x49 => (AddressingMode::Immediate, 2, 2),
        0x4A => (AddressingMode::NoneAddressing, 1, 2),
        0x4C => (AddressingMode::NoneAddressing, 3, 3),
        0x4D => (AddressingMode::Absolute, 3, 4),
        0x4E => (AddressingMode::Absolute, 3, 6),
        0x4F => (AddressingMode::Absolute, 3, 6),
        0x50 => (AddressingMode::NoneAddressing, 2, 2),
        0x51 => (AddressingMode::Indirect_Y, 2, 5),
        0x53 => (AddressingMode::Indirect_Y, 2, 8),
        0x54 => (AddressingMode::ZeroPage_X, 2, 4),
        0x55 => (AddressingMode::ZeroPage_X, 2, 4),
        0x56 => (AddressingMode::ZeroPage_X, 2, 6),
        0x57 => (AddressingMode::ZeroPage_X, 2, 6),
        0x58 => (AddressingMode::NoneAddressing, 1, 2),
        0x59 => (AddressingMode::Absolute_Y, 3, 4),
        0x5A => (AddressingMode::NoneAddressing, 1, 2),
        0x5B => (AddressingMode::Absolute_Y, 3, 7),
        0x5C => (AddressingMode::Absolute_X, 3, 4),
        0x5D => (AddressingMode::Absolute_X, 3, 4),
        0x5E => (AddressingMode::Absolute_X, 3, 7),
        0x5F => (AddressingMode::Absolute_X, 3, 7),
        0x60 => (AddressingMode::NoneAddressing, 1, 6),
        0x61 => (AddressingMode::Indirect_X, 2, 6),
        0x63 => (AddressingMode::Indirect_X, 2, 8),
        0x64 => (AddressingMode::ZeroPage, 2, 3),
        0x65 => (AddressingMode::ZeroPage, 2, 3),
        0x66 => (AddressingMode::ZeroPage, 2, 5),
        0x67 => (AddressingMode::ZeroPage, 2, 5),
        0x68 => (AddressingMode::NoneAddressing, 1, 4),
        0x69 => (AddressingMode::Immediate, 2, 2),
        0x6A => (AddressingMode::NoneAddressing, 1, 2),
        0x6C => (AddressingMode::NoneAddressing, 3, 5),
        0x6D => (AddressingMode::Absolute, 3, 4),
        0x6E => (AddressingMode::Absolute, 3, 6),
        0x6F => (AddressingMode::Absolute, 3, 6),
        0x70 => (AddressingMode::NoneAddressing, 2, 2),
        0x71 => (AddressingMode::Indirect_Y, 2, 5),
        0x73 => (AddressingMode::Indirect_Y, 2, 8),
        0x74 => (AddressingMode::ZeroPage_X, 2, 4),
        0x75 => (AddressingMode::ZeroPage_X, 2, 4),
        0x76 => (AddressingMode::ZeroPage_X, 2, 6),
        0x77 => (AddressingMode::ZeroPage_X, 2, 6),
        0x78 => (AddressingMode::NoneAddressing, 1, 2),
        0x79 => (AddressingMode::Absolute_Y, 3, 4),
        0x7A => (AddressingMode::NoneAddressing, 1, 2),
        0x7B => (AddressingMode::Absolute_Y, 3, 7),
        0x7C => (AddressingMode::Absolute_X, 3, 4),
        0x7D => (AddressingMode::Absolute_X, 3, 4),
        0x7E => (AddressingMode::Absolute_X, 3, 7),
        0x7F => (AddressingMode::Absolute_X, 3, 7),
        0x80 => (AddressingMode::Immediate, 2, 2),
        0x81 => (AddressingMode::Indirect_X, 2, 6),
        0x82 => (AddressingMode::Immediate, 2, 2),
        0x83 => (AddressingMode::Indirect_X, 2, 6),
        0x84 => (AddressingMode::ZeroPage, 2, 3),
        0x85 => (AddressingMode::ZeroPage, 2, 3),
        0x86 => (AddressingMode::ZeroPage, 2, 3),
        0x87 => (AddressingMode::ZeroPage, 2, 3),
        0x88 => (AddressingMode::NoneAddressing, 1, 2),
        0x89 => (AddressingMode::Immediate, 2, 2),
        0x8A => (AddressingMode::NoneAddressing, 1, 2),
        0x8C => (AddressingMode::Absolute, 3, 4),
        0x8D => (AddressingMode::Absolute, 3, 4),
        0x8E => (AddressingMode::Absolute, 3, 4),
        0x8F => (AddressingMode::Absolute, 3, 4),
        0x90 => (AddressingMode::NoneAddressing, 2, 2),
        0x91 => (AddressingMode::Indirect_Y, 2, 6),
        0x94 => (AddressingMode::ZeroPage_X, 2, 4),
        0x95 => (AddressingMode::ZeroPage_X, 2, 4),
        0x96 => (AddressingMode::ZeroPage_Y, 2, 4),
        0x97 => (AddressingMode::ZeroPage_Y, 2, 4),
        0x98 => (AddressingMode::NoneAddressing, 1, 2),
        0x99 => (AddressingMode::Absolute_Y, 3, 5),
        0x9A => (AddressingMode::NoneAddressing, 1, 2),
        0x9D => (AddressingMode::Absolute_X, 3, 5),
        0xA0 => (AddressingMode::Immediate, 2, 2),
        0xA1 => (AddressingMode::Indirect_X, 2, 6),
        0xA2 => (AddressingMode::Immediate, 2, 2),
        0xA3 => (AddressingMode::Indirect_X, 2, 6),
        0xA4 => (AddressingMode::ZeroPage, 2, 3),
        0xA5 => (AddressingMode::ZeroPage, 2, 3),
        0xA6 => (AddressingMode::ZeroPage, 2, 3),
        0xA7 => (AddressingMode::ZeroPage, 2, 3),
        0xA8 => (AddressingMode::NoneAddressing, 1, 2),
        0xA9 => (AddressingMode::Immediate, 2, 2),
        0xAA => (AddressingMode::NoneAddressing, 1, 2),
        0xAC => (AddressingMode::Absolute, 3, 4),
        0xAD => (AddressingMode::Absolute, 3, 4),
        0xAE => (AddressingMode::Absolute, 3, 4),
        0xAF => (AddressingMode::Absolute, 3, 4),
        0xB0 => (AddressingMode::NoneAddressing, 2, 2),
        0xB1 => (AddressingMode::Indirect_Y, 2, 5),
        0xB3 => (AddressingMode::Indirect_Y, 2, 5),
        0xB4 => (AddressingMode::ZeroPage_X, 2, 4),
        0xB5 => (AddressingMode::ZeroPage_X, 2, 4),
        0xB6 => (AddressingMode::ZeroPage_Y, 2, 4),
        0xB7 => (AddressingMode::ZeroPage_Y, 2, 4),
        0xB8 => (AddressingMode::NoneAddressing, 1, 2),
        0xB9 => (AddressingMode::Absolute_Y, 3, 4),
        0xBA => (AddressingMode::NoneAddressing, 1, 2),
        0xBC => (AddressingMode::Absolute_X, 3, 4),
        0xBD => (AddressingMode::Absolute_X, 3, 4),
        0xBE => (AddressingMode::Absolute_Y, 3, 4),
        0xBF => (AddressingMode::Absolute_Y, 3, 4),
        0xC0 => (AddressingMode::Immediate, 2, 2),
        0xC1 => (AddressingMode::Indirect_X, 2, 6),
        0xC2 => (AddressingMode::Immediate, 2, 2),
        0xC3 => (AddressingMode::Indirect_X, 2, 8),
        0xC4 => (AddressingMode::ZeroPage, 2, 3),
        0xC5 => (AddressingMode::ZeroPage, 2, 3),
        0xC6 => (AddressingMode::ZeroPage, 2, 5),
        0xC7 => (AddressingMode::ZeroPage, 2, 5),
        0xC8 => (AddressingMode::NoneAddressing, 1, 2),
        0xC9 => (AddressingMode::Immediate, 2, 2),
        0xCA => (AddressingMode::NoneAddressing, 1, 2),
        0xCC => (AddressingMode::Absolute, 3, 4),
        0xCD => (AddressingMode::Absolute, 3, 4),
        0xCE => (AddressingMode::Absolute, 3, 6),
        0xCF => (AddressingMode::Absolute, 3, 6),
        0xD0 => (AddressingMode::NoneAddressing, 2, 2),
        0xD1 => (AddressingMode::Indirect_Y, 2, 5),
        0xD3 => (AddressingMode::Indirect_Y, 2, 8),
        0xD4 => (AddressingMode::ZeroPage_X, 2, 4),
        0xD5 => (AddressingMode::ZeroPage_X, 2, 4),
        0xD6 => (AddressingMode::ZeroPage_X, 2, 6),
        0xD7 => (AddressingMode::ZeroPage_X, 2, 6),
        0xD8 => (AddressingMode::NoneAddressing, 1, 2),
        0xD9 => (AddressingMode::Absolute_Y, 3, 4),
        0xDA => (AddressingMode::NoneAddressing, 1, 2),
        0xDB => (AddressingMode::Absolute_Y, 3, 7),
        0xDC => (AddressingMode::Absolute_X, 3, 4),
        0xDD => (AddressingMode::Absolute_X, 3, 4),
        0xDE => (AddressingMode::Absolute_X, 3, 7),
        0xDF => (AddressingMode::Absolute_X, 3, 7),
        0xE0 => (AddressingMode::Immediate, 2, 2),
        0xE1 => (AddressingMode::Indirect_X, 2, 6),
        0xE2 => (AddressingMode::Immediate, 2, 2),
        0xE3 => (AddressingMode::Indirect_X, 2, 8),
        0xE4 => (AddressingMode::ZeroPage, 2, 3),
        0xE5 => (AddressingMode::ZeroPage, 2, 3),
        0xE6 => (AddressingMode::ZeroPage, 2, 5),
        0xE7 => (AddressingMode::ZeroPage, 2, 5),
        0xE8 => (AddressingMode::NoneAddressing, 1, 2),
        0xE9 => (AddressingMode::Immediate, 2, 2),
        0xEA => (AddressingMode::NoneAddressing, 1, 2),
        0xEB => (AddressingMode::Immediate, 2, 2),
        0xEC => (AddressingMode::Absolute, 3, 4),
        0xED => (AddressingMode::Absolute, 3, 4),
        0xEE => (AddressingMode::Absolute, 3, 6),
        0xEF => (AddressingMode::Absolute, 3, 6),
        0xF0 => (AddressingMode::NoneAddressing, 2, 2),
        0xF1 => (AddressingMode::Indirect_Y, 2, 5),
        0xF3 => (AddressingMode::Indirect_Y, 2, 8),
        0xF4 => (AddressingMode::ZeroPage_X, 2, 4),
        0xF5 => (AddressingMode::ZeroPage_X, 2, 4),
        0xF6 => (AddressingMode::ZeroPage_X, 2, 6),
        0xF7 => (AddressingMode::ZeroPage_X, 2, 6),
        0xF8 => (AddressingMode::NoneAddressing, 1, 2),
        0xF9 => (AddressingMode::Absolute_Y, 3, 4),
        0xFA => (AddressingMode::NoneAddressing, 1, 2),
        0xFB => (AddressingMode::Absolute_Y, 3, 7),
        0xFC => (AddressingMode::Absolute_X, 3, 4),
        0xFD => (AddressingMode::Absolute_X, 3, 4),
        0xFE => (AddressingMode::Absolute_X, 3, 7),
        0xFF => (AddressingMode::Absolute_X, 3, 7),
        _ => (AddressingMode::NoneAddressing, 1, 2),
    }
}





// ---------------------------------------------------------------------------
// Dispatch and the step/run loop
// ---------------------------------------------------------------------------

/// Arm of [`cpu_execute`] for the opcodes whose top four bits are 0.
#[verifier::opaque]
pub open spec fn cpu_execute_part_0(c: CpuView, code: u8) -> CpuView {
    match code {
        0x00 => cpu_brk(c),
        0x01 => cpu_ora(c, AddressingMode::Indirect_X),
        0x03 => cpu_slo(c, AddressingMode::Indirect_X),
        0x05 => cpu_ora(c, AddressingMode::ZeroPage),
        0x06 => cpu_asl(c, AddressingMode::ZeroPage),
        0x07 => cpu_slo(c, AddressingMode::ZeroPage),
        0x08 => cpu_php(c),
        0x09 => cpu_ora(c, AddressingMode::Immediate),
        0x0A => cpu_asl_a(c),
        0x0D => cpu_ora(c, AddressingMode::Absolute),
        0x0E => cpu_asl(c, AddressingMode::Absolute),
        0x0F => cpu_slo(c, AddressingMode::Absolute),
        _ => c,
    }
}

/// Arm of [`cpu_execute`] for the opcodes whose top four bits are 1.
#[verifier::opaque]
pub open spec fn cpu_execute_part_1(c: CpuView, code: u8) -> CpuView {
    match code {
        0x10 => cpu_branch(c, !flag_set(c.p, StatusFlag::Negative)),
        0x11 => cpu_ora(c, AddressingMode::Indirect_Y),
        0x13 => cpu_slo(c, AddressingMode::Indirect_Y),
        0x15 => cpu_ora(c, AddressingMode::ZeroPage_X),
        0x16 => cpu_asl(c, AddressingMode::ZeroPage_X),
        0x17 => cpu_slo(c, AddressingMode::ZeroPage_X),
        0x18 => (CpuView { p: with_flag(c.p, StatusFlag::Carry, false), ..c }),
        0x19 => cpu_ora(c, AddressingMode::Absolute_Y),
        0x1B => cpu_slo(c, AddressingMode::Absolute_Y),
        0x1D => cpu_ora(c, AddressingMode::Absolute_X),
        0x1E => cpu_asl(c, AddressingMode::Absolute_X),
        0x1F => cpu_slo(c, AddressingMode::Absolute_X),
        _ => c,
    }
}

/// Arm of [`cpu_execute`] for the opcodes whose top four bits are 2.
#[verifier::opaque]
pub open spec fn cpu_execute_part_2(c: CpuView, code: u8) -> CpuView {
    match code {
        0x20 => cpu_jsr(c),
        0x21 => cpu_and(c, AddressingMode::Indirect_X),
        0x23 => cpu_rla(c, AddressingMode::Indirect_X),
        0x24 => cpu_bit(c, AddressingMode::ZeroPage),
        0x25 => cpu_and(c, AddressingMode::ZeroPage),
        0x26 => cpu_rol(c, AddressingMode::ZeroPage),
        0x27 => cpu_rla(c, AddressingMode::ZeroPage),
        0x28 => cpu_plp(c),
        0x29 => cpu_and(c, AddressingMode::Immediate),
        0x2A => cpu_rol_a(c),
        0x2C => cpu_bit(c, AddressingMode::Absolute),
        0x2D => cpu_and(c, AddressingMode::Absolute),
        0x2E => cpu_rol(c, AddressingMode::Absolute),
        0x2F => cpu_rla(c, AddressingMode::Absolute),
        _ => c,
    }
}

/// Arm of [`cpu_execute`] for the opcodes whose top four bits are 3.
#[verifier::opaque]
pub open spec fn cpu_execute_part_3(c: CpuView, code: u8) -> CpuView {
    match code {
        0x30 => cpu_branch(c, flag_set(c.p, StatusFlag::Negative)),
        0x31 => cpu_and(c, AddressingMode::Indirect_Y),
        0x33 => cpu_rla(c, AddressingMode::Indirect_Y),
        0x35 => cpu_and(c, AddressingMode::ZeroPage_X),
        0x36 => cpu_rol(c, AddressingMode::ZeroPage_X),
        0x37 => cpu_rla(c, AddressingMode::ZeroPage_X),
        0x38 => (CpuView { p: with_flag(c.p, StatusFlag::Carry, true), ..c }),
        0x39 => cpu_and(c, AddressingMode::Absolute_Y),
        0x3B => cpu_rla(c, AddressingMode::Absolute_Y),
        0x3D => cpu_and(c, AddressingMode::Absolute_X),
        0x3E => cpu_rol(c, AddressingMode::Absolute_X),
        0x3F => cpu_rla(c, AddressingMode::Absolute_X),
        _ => c,
    }
}

/// Arm of [`cpu_execute`] for the opcodes whose top four bits are 4.
#[verifier::opaque]
pub open spec fn cpu_execute_part_4(c: CpuView, code: u8) -> CpuView {
    match code {
        0x40 => cpu_rti(c),
        0x41 => cpu_eor(c, AddressingMode::Indirect_X),
        0x43 => cpu_sre(c, AddressingMode::Indirect_X),
        0x45 => cpu_eor(c, AddressingMode::ZeroPage),
        0x46 => cpu_lsr(c, AddressingMode::ZeroPage),
        0x47 => cpu_sre(c, AddressingMode::ZeroPage),
        0x48 => cpu_pha(c),
        0x49 => cpu_eor(c, AddressingMode::Immediate),
        0x4A => cpu_lsr_a(c),
        0x4C => cpu_jmp_absolute(c),
        0x4D => cpu_eor(c, AddressingMode::Absolute),
        0x4E => cpu_lsr(c, AddressingMode::Absolute),
        0x4F => cpu_sre(c, AddressingMode::Absolute),
        _ => c,
    }
}

/// Arm of [`cpu_execute`] for the opcodes whose top four bits are 5.
#[verifier::opaque]
pub open spec fn cpu_execute_part_5(c: CpuView, code: u8) -> CpuView {
    match code {
        0x50 => cpu_branch(c, !flag_set(c.p, StatusFlag::Overflow)),
        0x51 => cpu_eor(c, AddressingMode::Indirect_Y),
        0x53 => cpu_sre(c, AddressingMode::Indirect_Y),
        0x55 => cpu_eor(c, AddressingMode::ZeroPage_X),
        0x56 => cpu_lsr(c, AddressingMode::ZeroPage_X),
        0x57 => cpu_sre(c, AddressingMode::ZeroPage_X),
        0x58 => (CpuView { p: with_flag(c.p, StatusFlag::InterruptDisable, false), ..c }),
        0x59 => cpu_eor(c, AddressingMode::Absolute_Y),
        0x5B => cpu_sre(c, AddressingMode::Absolute_Y),
        0x5D => cpu_eor(c, AddressingMode::Absolute_X),
        0x5E => cpu_lsr(c, AddressingMode::Absolute_X),
        0x5F => cpu_sre(c, AddressingMode::Absolute_X),
        _ => c,
    }
}

/// Arm of [`cpu_execute`] for the opcodes whose top four bits are 6.
#[verifier::opaque]
pub open spec fn cpu_execute_part_6(c: CpuView, code: u8) -> CpuView {
    match code {
        0x60 => cpu_rts(c),
        0x61 => cpu_adc(c, AddressingMode::Indirect_X),
        0x63 => cpu_rra(c, AddressingMode::Indirect_X),
        0x65 => cpu_adc(c, AddressingMode::ZeroPage),
        0x66 => cpu_ror(c, AddressingMode::ZeroPage),
        0x67 => cpu_rra(c, AddressingMode::ZeroPage),
        0x68 => cpu_pla(c),
        0x69 => cpu_adc(c, AddressingMode::Immediate),
        0x6A => cpu_ror_a(c),
        0x6C => cpu_jmp_indirect(c),
        0x6D => cpu_adc(c, AddressingMode::Absolute),
        0x6E => cpu_ror(c, AddressingMode::Absolute),
        0x6F => cpu_rra(c, AddressingMode::Absolute),
        _ => c,
    }
}

/// Arm of [`cpu_execute`] for the opcodes whose top four bits are 7.
#[verifier::opaque]
pub open spec fn cpu_execute_part_7(c: CpuView, code: u8) -> CpuView {
    match code {
        0x70 => cpu_branch(c, flag_set(c.p, StatusFlag::Overflow)),
        0x71 => cpu_adc(c, AddressingMode::Indirect_Y),
        0x73 => cpu_rra(c, AddressingMode::Indirect_Y),
        0x75 => cpu_adc(c, AddressingMode::ZeroPage_X),
        0x76 => cpu_ror(c, AddressingMode::ZeroPage_X),
        0x77 => cpu_rra(c, AddressingMode::ZeroPage_X),
        0x78 => (CpuView { p: with_flag(c.p, StatusFlag::InterruptDisable, true), ..c }),
        0x79 => cpu_adc(c, AddressingMode::Absolute_Y),
        0x7B => cpu_rra(c, AddressingMode::Absolute_Y),
        0x7D => cpu_adc(c, AddressingMode::Absolute_X),
        0x7E => cpu_ror(c, AddressingMode::Absolute_X),
        0x7F => cpu_rra(c, AddressingMode::Absolute_X),
        _ => c,
    }
}

/// Arm of [`cpu_execute`] for the opcodes whose top four bits are 8.
#[verifier::opaque]
pub open spec fn cpu_execute_part_8(c: CpuView, code: u8) -> CpuView {
    match code {
        0x81 => cpu_sta(c, AddressingMode::Indirect_X),
        0x83 => cpu_sax(c, AddressingMode::Indirect_X),
        0x84 => cpu_sty(c, AddressingMode::ZeroPage),
        0x85 => cpu_sta(c, AddressingMode::ZeroPage),
        0x86 => cpu_stx(c, AddressingMode::ZeroPage),
        0x87 => cpu_sax(c, AddressingMode::ZeroPage),
        0x88 => (CpuView { y: c.y.wrapping_sub(1), p: zn_update(c.p, c.y.wrapping_sub(1)), ..c }),
        0x8A => (CpuView { a: c.x, p: zn_update(c.p, c.x), ..c }),
        0x8C => cpu_sty(c, AddressingMode::Absolute),
        0x8D => cpu_sta(c, AddressingMode::Absolute),
        0x8E => cpu_stx(c, AddressingMode::Absolute),
        0x8F => cpu_sax(c, AddressingMode::Absolute),
        _ => c,
    }
}

/// Arm of [`cpu_execute`] for the opcodes whose top four bits are 9.
#[verifier::opaque]
pub open spec fn cpu_execute_part_9(c: CpuView, code: u8) -> CpuView {
    match code {
        0x90 => cpu_branch(c, !flag_set(c.p, StatusFlag::Carry)),
        0x91 => cpu_sta(c, AddressingMode::Indirect_Y),
        0x94 => cpu_sty(c, AddressingMode::ZeroPage_X),
        0x95 => cpu_sta(c, AddressingMode::ZeroPage_X),
        0x96 => cpu_stx(c, AddressingMode::ZeroPage_Y),
        0x97 => cpu_sax(c, AddressingMode::ZeroPage_Y),
        0x98 => (CpuView { a: c.y, p: zn_update(c.p, c.y), ..c }),
        0x99 => cpu_sta(c, AddressingMode::Absolute_Y),
        0x9A => (CpuView { sp: c.x, ..c }),
        0x9D => cpu_sta(c, AddressingMode::Absolute_X),
        _ => c,
    }
}

/// Arm of [`cpu_execute`] for the opcodes whose top four bits are 10.
#[verifier::opaque]
pub open spec fn cpu_execute_part_10(c: CpuView, code: u8) -> CpuView {
    match code {
        0xA0 => cpu_ldy(c, AddressingMode::Immediate),
        0xA1 => cpu_lda(c, AddressingMode::Indirect_X),
        0xA2 => cpu_ldx(c, AddressingMode::Immediate),
        0xA3 => cpu_lax(c, AddressingMode::Indirect_X),
        0xA4 => cpu_ldy(c, AddressingMode::ZeroPage),
        0xA5 => cpu_lda(c, AddressingMode::ZeroPage),
        0xA6 => cpu_ldx(c, AddressingMode::ZeroPage),
        0xA7 => cpu_lax(c, AddressingMode::ZeroPage),
        0xA8 => (CpuView { y: c.a, p: zn_update(c.p, c.a), ..c }),
        0xA9 => cpu_lda(c, AddressingMode::Immediate),
        0xAA => (CpuView { x: c.a, p: zn_update(c.p, c.a), ..c }),
        0xAC => cpu_ldy(c, AddressingMode::Absolute),
        0xAD => cpu_lda(c, AddressingMode::Absolute),
        0xAE => cpu_ldx(c, AddressingMode::Absolute),
        0xAF => cpu_lax(c, AddressingMode::Absolute),
        _ => c,
    }
}

/// Arm of [`cpu_execute`] for the opcodes whose top four bits are 11.
#[verifier::opaque]
pub open spec fn cpu_execute_part_11(c: CpuView, code: u8) -> CpuView {
    match code {
        0xB0 => cpu_branch(c, flag_set(c.p, StatusFlag::Carry)),
        0xB1 => cpu_lda(c, AddressingMode::Indirect_Y),
        0xB3 => cpu_lax(c, AddressingMode::Indirect_Y),
        0xB4 => cpu_ldy(c, AddressingMode::ZeroPage_X),
        0xB5 => cpu_lda(c, AddressingMode::ZeroPage_X),
        0xB6 => cpu_ldx(c, AddressingMode::ZeroPage_Y),
        0xB7 => cpu_lax(c, AddressingMode::ZeroPage_Y),
        0xB8 => (CpuView { p: with_flag(c.p, StatusFlag::Overflow, false), ..c }),
        0xB9 => cpu_lda(c, AddressingMode::Absolute_Y),
        0xBA => (CpuView { x: c.sp, p: zn_update(c.p, c.sp), ..c }),
        0xBC => cpu_ldy(c, AddressingMode::Absolute_X),
        0xBD => cpu_lda(c, AddressingMode::Absolute_X),
        0xBE => cpu_ldx(c, AddressingMode::Absolute_Y),
        0xBF => cpu_lax(c, AddressingMode::Absolute_Y),
        _ => c,
    }
}

/// Arm of [`cpu_execute`] for the opcodes whose top four bits are 12.
#[verifier::opaque]
pub open spec fn cpu_execute_part_12(c: CpuView, code: u8) -> CpuView {
    match code {
        0xC0 => cpu_compare(c, AddressingMode::Immediate, c.y),
        0xC1 => cpu_compare(c, AddressingMode::Indirect_X, c.a),
        0xC3 => cpu_dcp(c, AddressingMode::Indirect_X),
        0xC4 => cpu_compare(c, AddressingMode::ZeroPage, c.y),
        0xC5 => cpu_compare(c, AddressingMode::ZeroPage, c.a),
        0xC6 => cpu_dec(c, AddressingMode::ZeroPage),
        0xC7 => cpu_dcp(c, AddressingMode::ZeroPage),
        0xC8 => (CpuView { y: c.y.wrapping_add(1), p: zn_update(c.p, c.y.wrapping_add(1)), ..c }),
        0xC9 => cpu_compare(c, AddressingMode::Immediate, c.a),
        0xCA => (CpuView { x: c.x.wrapping_sub(1), p: zn_update(c.p, c.x.wrapping_sub(1)), ..c }),
        0xCC => cpu_compare(c, AddressingMode::Absolute, c.y),
        0xCD => cpu_compare(c, AddressingMode::Absolute, c.a),
        0xCE => cpu_dec(c, AddressingMode::Absolute),
        0xCF => cpu_dcp(c, AddressingMode::Absolute),
        _ => c,
    }
}

/// Arm of [`cpu_execute`] for the opcodes whose top four bits are 13.
#[verifier::opaque]
pub open spec fn cpu_execute_part_13(c: CpuView, code: u8) -> CpuView {
    match code {
        0xD0 => cpu_branch(c, !flag_set(c.p, StatusFlag::Zero)),
        0xD1 => cpu_compare(c, AddressingMode::Indirect_Y, c.a),
        0xD3 => cpu_dcp(c, AddressingMode::Indirect_Y),
        0xD5 => cpu_compare(c, AddressingMode::ZeroPage_X, c.a),
        0xD6 => cpu_dec(c, AddressingMode::ZeroPage_X),
        0xD7 => cpu_dcp(c, AddressingMode::ZeroPage_X),
        0xD8 => (CpuView { p: with_flag(c.p, StatusFlag::DecimalMode, false), ..c }),
        0xD9 => cpu_compare(c, AddressingMode::Absolute_Y, c.a),
        0xDB => cpu_dcp(c, AddressingMode::Absolute_Y),
        0xDD => cpu_compare(c, AddressingMode::Absolute_X, c.a),
        0xDE => cpu_dec(c, AddressingMode::Absolute_X),
        0xDF => cpu_dcp(c, AddressingMode::Absolute_X),
        _ => c,
    }
}

/// Arm of [`cpu_execute`] for the opcodes whose top four bits are 14.
#[verifier::opaque]
pub open spec fn cpu_execute_part_14(c: CpuView, code: u8) -> CpuView {
    match code {
        0xE0 => cpu_compare(c, AddressingMode::Immediate, c.x),
        0xE1 => cpu_sbc(c, AddressingMode::Indirect_X),
        0xE3 => cpu_isb(c, AddressingMode::Indirect_X),
        0xE4 => cpu_compare(c, AddressingMode::ZeroPage, c.x),
        0xE5 => cpu_sbc(c, AddressingMode::ZeroPage),
        0xE6 => cpu_inc(c, AddressingMode::ZeroPage),
        0xE7 => cpu_isb(c, AddressingMode::ZeroPage),
        0xE8 => (CpuView { x: c.x.wrapping_add(1), p: zn_update(c.p, c.x.wrapping_add(1)), ..c }),
        0xE9 => cpu_sbc(c, AddressingMode::Immediate),
        0xEB => cpu_sbc(c, AddressingMode::Immediate),
        0xEC => cpu_compare(c, AddressingMode::Absolute, c.x),
        0xED => cpu_sbc(c, AddressingMode::Absolute),
        0xEE => cpu_inc(c, AddressingMode::Absolute),
        0xEF => cpu_isb(c, AddressingMode::Absolute),
        _ => c,
    }
}

/// Arm of [`cpu_execute`] for the opcodes whose top four bits are 15.
#[verifier::opaque]
pub open spec fn cpu_execute_part_15(c: CpuView, code: u8) -> CpuView {
    match code {
        0xF0 => cpu_branch(c, flag_set(c.p, StatusFlag::Zero)),
        0xF1 => cpu_sbc(c, AddressingMode::Indirect_Y),
        0xF3 => cpu_isb(c, AddressingMode::Indirect_Y),
        0xF5 => cpu_sbc(c, AddressingMode::ZeroPage_X),
        0xF6 => cpu_inc(c, AddressingMode::ZeroPage_X),
        0xF7 => cpu_isb(c, AddressingMode::ZeroPage_X),
        0xF8 => (CpuView { p: with_flag(c.p, StatusFlag::DecimalMode, true), ..c }),
        0xF9 => cpu_sbc(c, AddressingMode::Absolute_Y),
        0xFB => cpu_isb(c, AddressingMode::Absolute_Y),
        0xFD => cpu_sbc(c, AddressingMode::Absolute_X),
        0xFE => cpu_inc(c, AddressingMode::Absolute_X),
        0xFF => cpu_isb(c, AddressingMode::Absolute_X),
        _ => c,
    }
}

/// State after the handler for opcode `code` runs. `c` is the state just
/// after the opcode byte was fetched and the program counter stepped past
/// it. The two- and three-byte no-ops and the bytes that name no
/// instruction leave the state alone (the latter fault in [`cpu_step`]).
#[verifier::opaque]
pub open spec fn cpu_execute(c: CpuView, code: u8) -> CpuView {
    let part = code >> 4;
    if part == 0 {
        cpu_execute_part_0(c, code)
    }
  else if part == 1 {
        cpu_execute_part_1(c, code)
    }
  else if part == 2 {
        cpu_execute_part_2(c, code)
    }
  else if part == 3 {
        cpu_execute_part_3(c, code)
    }
  else if part == 4 {
        cpu_execute_part_4(c, code)
    }
  else if part == 5 {
        cpu_execute_part_5(c, code)
    }
  else if part == 6 {
        cpu_execute_part_6(c, code)
    }
  else if part == 7 {
        cpu_execute_part_7(c, code)
    }
  else if part == 8 {
        cpu_execute_part_8(c, code)
    }
  else if part == 9 {
        cpu_execute_part_9(c, code)
    }
  else if part == 10 {
        cpu_execute_part_10(c, code)
    }
  else if part == 11 {
        cpu_execute_part_11(c, code)
    }
  else if part == 12 {
        cpu_execute_part_12(c, code)
    }
  else if part == 13 {
        cpu_execute_part_13(c, code)
    }
  else if part == 14 {
        cpu_execute_part_14(c, code)
    }
  else {
        cpu_execute_part_15(c, code)
    }
}

/// State with the PPU's pending NMI taken.
pub open spec fn cpu_clear_nmi(c: CpuView) -> CpuView {
    CpuView {
        bus: BusView { ppu: PpuView { nmi_interrupt: None::<u8>, ..c.bus.ppu }, ..c.bus },
        ..c
    }
}

/// The opcode byte the next step will execute, after any pending NMI has
/// been serviced. A step that fetches 0x00 executes BRK, where the run
/// loop stops.
pub open spec fn cpu_step_fetch(c: CpuView) -> u8 {
    let c1 = if c.bus.ppu.nmi_interrupt is Some {
        cpu_nmi(cpu_clear_nmi(c))
    } else {
        cpu_clear_nmi(c)
    };
    bus_read_value(c1.bus, c1.pc)
}

/// One whole instruction: any pending NMI is serviced first; the opcode is
/// fetched and dispatched; the bus advances by the instruction's cycle
/// count; and, when the handler did not itself move the program counter,
/// it steps over the instruction's remaining bytes. A byte that names no
/// instruction latches a fault and stops the machine instead.
#[verifier::opaque]
pub open spec fn cpu_step(c: CpuView) -> CpuView {
    let c1 = if c.bus.ppu.nmi_interrupt is Some {
        cpu_nmi(cpu_clear_nmi(c))
    } else {
        cpu_clear_nmi(c)
    };
    let code = bus_read_value(c1.bus, c1.pc);
    let c2 = CpuView { pc: c1.pc.wrapping_add(1), bus: bus_read_post(c1.bus, c1.pc), ..c1 };
    if !opcode_known(code) {
        CpuView {
            bus: BusView {
                fault: crate::bus::latch_fault(c2.bus.fault, Fault::UnknownOpcode),
                ..c2.bus
            },
            ..c2
        }
    } else {
        let c3 = cpu_execute(c2, code);
        let c4 = CpuView { bus: bus_tick_post(c3.bus, spec_opcode_entry(code).2), ..c3 };
        if c2.pc == c4.pc {
            CpuView { pc: c4.pc.wrapping_add((spec_opcode_entry(code).1 - 1) as u16), ..c4 }
        } else {
            c4
        }
    }
}

/// State after `n` whole instructions.
pub open spec fn cpu_steps(c: CpuView, n: nat) -> CpuView
    decreases n,
{
    if n == 0 {
        c
    } else {
        cpu_step(cpu_steps(c, (n - 1) as nat))
    }
}

/// State after a reset: registers cleared, the stack pointer back at 0xFD,
/// the status byte at I with bit 5, and the program counter loaded from
/// the little-endian word at 0xFFFC. Memory is left alone.
pub open spec fn cpu_reset(c: CpuView) -> CpuView {
    let c1 = CpuView { a: 0u8, x: 0u8, y: 0u8, sp: 0xFDu8, p: 0b100100u8, ..c };
    CpuView {
        pc: bus_read16_value(c1.bus, 0xFFFC),
        bus: bus_read16_post(c1.bus, 0xFFFC),
        ..c1
    }
}

/// PRG ROM with `program` laid down from its start (CPU address 0x8000)
/// and the reset vector pointing at 0x8000. The vector wins where a
/// maximal program would overlap it.
pub open spec fn prg_with_program(prg: Seq<u8>, program: Seq<u8>) -> Seq<u8> {
    Seq::new(
        prg.len() as nat,
        |i: int|
            if i == prg.len() - 4 {
                0x00u8
            } else if i == prg.len() - 3 {
                0x80u8
            } else if i < program.len() {
                program[i]
            } else {
                prg[i]
            },
    )
}

/// State after [`CPU::load`]: only the PRG image changes.
pub open spec fn cpu_loaded(c: CpuView, program: Seq<u8>) -> CpuView {
    CpuView {
        bus: BusView { prg_rom: prg_with_program(c.bus.prg_rom, program), ..c.bus },
        ..c
    }
}

/// What stopped a bounded run: either a fault is latched, or the last step
/// executed BRK, or the step bound ran out.
pub open spec fn run_stopped(c0: CpuView, c1: CpuView, fuel: u64) -> bool {
    ||| c1.bus.fault is Some
    ||| (exists|n: nat|
        c1 == cpu_steps(c0, n + 1) && cpu_step_fetch(#[trigger] cpu_steps(c0, n)) == 0)
    ||| c1 == cpu_steps(c0, fuel as nat)
}

/// Every table entry has a positive length and a cycle count the bus can
/// take at once.
#[verifier::rlimit(100)]
#[verifier::spinoff_prover]
proof fn lemma_opcode_entry_bounds(code: u8)
    ensures
        1 <= spec_opcode_entry(code).1 <= 3,
        2 <= spec_opcode_entry(code).2 <= 8,
{
}

/// Exec counterpart of [`opcode_known`].
fn opcode_is_known(code: u8) -> (r: bool)
    ensures
        r == opcode_known(code),
{
    !(code == 0x02 || code == 0x0B || code == 0x12 || code == 0x22 || code == 0x2B || code
        == 0x32 || code == 0x42 || code == 0x4B || code == 0x52 || code == 0x62 || code == 0x6B
        || code == 0x72 || code == 0x8B || code == 0x92 || code == 0x93 || code == 0x9B || code
        == 0x9C || code == 0x9E || code == 0x9F || code == 0xAB || code == 0xB2 || code == 0xBB
        || code == 0xCB || code == 0xD2 || code == 0xF2)
}

impl CPU {
    /// Dispatches one already-fetched opcode; see [`cpu_execute`].
    fn execute(&mut self, code: u8)
        requires
            cpu_wf(old(self)@),
        ensures
            cpu_wf(final(self)@),
            final(self)@ == cpu_execute(old(self)@, code),
    {
        let part: u8 = code >> 4;
        proof {
            assert(code >> 4 <= 15) by (bit_vector);
        }
        if part == 0 {
            self.execute_part_0(code);
        }
        else if part == 1 {
            self.execute_part_1(code);
        }
        else if part == 2 {
            self.execute_part_2(code);
        }
        else if part == 3 {
            self.execute_part_3(code);
        }
        else if part == 4 {
            self.execute_part_4(code);
        }
        else if part == 5 {
            self.execute_part_5(code);
        }
        else if part == 6 {
            self.execute_part_6(code);
        }
        else if part == 7 {
            self.execute_part_7(code);
        }
        else if part == 8 {
            self.execute_part_8(code);
        }
        else if part == 9 {
            self.execute_part_9(code);
        }
        else if part == 10 {
            self.execute_part_10(code);
        }
        else if part == 11 {
            self.execute_part_11(code);
        }
        else if part == 12 {
            self.execute_part_12(code);
        }
        else if part == 13 {
            self.execute_part_13(code);
        }
        else if part == 14 {
            self.execute_part_14(code);
        }
        else {
            self.execute_part_15(code);
        }
    }

    /// Dispatch for the opcodes whose top four bits are 0; part of
    /// [`cpu_execute`].
    #[verifier::rlimit(100)]
    #[verifier::spinoff_prover]
    fn execute_part_0(&mut self, code: u8)
        requires
            cpu_wf(old(self)@),
            code >> 4 == 0,
        ensures
            cpu_wf(final(self)@),
            final(self)@ == cpu_execute(old(self)@, code),
    {
        proof {
            reveal(cpu_execute);
            reveal(cpu_execute_part_0);
        }
        match code {
            0x00 => self.brk(),
            0x01 => self.ora(&AddressingMode::Indirect_X),
            0x03 => self.slo(&AddressingMode::Indirect_X),
            0x05 => self.ora(&AddressingMode::ZeroPage),
            0x06 => { self.asl(&AddressingMode::ZeroPage); },
            0x07 => self.slo(&AddressingMode::ZeroPage),
            0x08 => self.php(),
            0x09 => self.ora(&AddressingMode::Immediate),
            0x0A => self.asl_accumulator(),
            0x0D => self.ora(&AddressingMode::Absolute),
            0x0E => { self.asl(&AddressingMode::Absolute); },
            0x0F => self.slo(&AddressingMode::Absolute),
            _ => (),
        }
    }

    /// Dispatch for the opcodes whose top four bits are 1; part of
    /// [`cpu_execute`].
    #[verifier::rlimit(100)]
    #[verifier::spinoff_prover]
    fn execute_part_1(&mut self, code: u8)
        requires
            cpu_wf(old(self)@),
            code >> 4 == 1,
        ensures
            cpu_wf(final(self)@),
            final(self)@ == cpu_execute(old(self)@, code),
    {
        proof {
            reveal(cpu_execute);
            reveal(cpu_execute_part_1);
        }
        match code {
            0x10 => { let cond = !self.get_flag(StatusFlag::Negative); self.branch(cond); },
            0x11 => self.ora(&AddressingMode::Indirect_Y),
            0x13 => self.slo(&AddressingMode::Indirect_Y),
            0x15 => self.ora(&AddressingMode::ZeroPage_X),
            0x16 => { self.asl(&AddressingMode::ZeroPage_X); },
            0x17 => self.slo(&AddressingMode::ZeroPage_X),
            0x18 => self.set_flag(StatusFlag::Carry, false),
            0x19 => self.ora(&AddressingMode::Absolute_Y),
            0x1B => self.slo(&AddressingMode::Absolute_Y),
            0x1D => self.ora(&AddressingMode::Absolute_X),
            0x1E => { self.asl(&AddressingMode::Absolute_X); },
            0x1F => self.slo(&AddressingMode::Absolute_X),
            _ => (),
        }
    }

    /// Dispatch for the opcodes whose top four bits are 2; part of
    /// [`cpu_execute`].
    #[verifier::rlimit(100)]
    #[verifier::spinoff_prover]
    fn execute_part_2(&mut self, code: u8)
        requires
            cpu_wf(old(self)@),
            code >> 4 == 2,
        ensures
            cpu_wf(final(self)@),
            final(self)@ == cpu_execute(old(self)@, code),
    {
        proof {
            reveal(cpu_execute);
            reveal(cpu_execute_part_2);
        }
        match code {
            0x20 => self.jsr(),
            0x21 => self.and(&AddressingMode::Indirect_X),
            0x23 => self.rla(&AddressingMode::Indirect_X),
            0x24 => self.bit_test(&AddressingMode::ZeroPage),
            0x25 => self.and(&AddressingMode::ZeroPage),
            0x26 => { self.rol(&AddressingMode::ZeroPage); },
            0x27 => self.rla(&AddressingMode::ZeroPage),
            0x28 => self.plp(),
            0x29 => self.and(&AddressingMode::Immediate),
            0x2A => self.rol_accumulator(),
            0x2C => self.bit_test(&AddressingMode::Absolute),
            0x2D => self.and(&AddressingMode::Absolute),
            0x2E => { self.rol(&AddressingMode::Absolute); },
            0x2F => self.rla(&AddressingMode::Absolute),
            _ => (),
        }
    }

    /// Dispatch for the opcodes whose top four bits are 3; part of
    /// [`cpu_execute`].
    #[verifier::rlimit(100)]
    #[verifier::spinoff_prover]
    fn execute_part_3(&mut self, code: u8)
        requires
            cpu_wf(old(self)@),
            code >> 4 == 3,
        ensures
            cpu_wf(final(self)@),
            final(self)@ == cpu_execute(old(self)@, code),
    {
        proof {
            reveal(cpu_execute);
            reveal(cpu_execute_part_3);
        }
        match code {
            0x30 => { let cond = self.get_flag(StatusFlag::Negative); self.branch(cond); },
            0x31 => self.and(&AddressingMode::Indirect_Y),
            0x33 => self.rla(&AddressingMode::Indirect_Y),
            0x35 => self.and(&AddressingMode::ZeroPage_X),
            0x36 => { self.rol(&AddressingMode::ZeroPage_X); },
            0x37 => self.rla(&AddressingMode::ZeroPage_X),
            0x38 => self.set_flag(StatusFlag::Carry, true),
            0x39 => self.and(&AddressingMode::Absolute_Y),
            0x3B => self.rla(&AddressingMode::Absolute_Y),
            0x3D => self.and(&AddressingMode::Absolute_X),
            0x3E => { self.rol(&AddressingMode::Absolute_X); },
            0x3F => self.rla(&AddressingMode::Absolute_X),
            _ => (),
        }
    }

    /// Dispatch for the opcodes whose top four bits are 4; part of
    /// [`cpu_execute`].
    #[verifier::rlimit(100)]
    #[verifier::spinoff_prover]
    fn execute_part_4(&mut self, code: u8)
        requires
            cpu_wf(old(self)@),
            code >> 4 == 4,
        ensures
            cpu_wf(final(self)@),
            final(self)@ == cpu_execute(old(self)@, code),
    {
        proof {
            reveal(cpu_execute);
            reveal(cpu_execute_part_4);
        }
        match code {
            0x40 => self.rti(),
            0x41 => self.eor(&AddressingMode::Indirect_X),
            0x43 => self.sre(&AddressingMode::Indirect_X),
            0x45 => self.eor(&AddressingMode::ZeroPage),
            0x46 => { self.lsr(&AddressingMode::ZeroPage); },
            0x47 => self.sre(&AddressingMode::ZeroPage),
            0x48 => self.pha(),
            0x49 => self.eor(&AddressingMode::Immediate),
            0x4A => self.lsr_accumulator(),
            0x4C => self.jmp_absolute(),
            0x4D => self.eor(&AddressingMode::Absolute),
            0x4E => { self.lsr(&AddressingMode::Absolute); },
            0x4F => self.sre(&AddressingMode::Absolute),
            _ => (),
        }
    }

    /// Dispatch for the opcodes whose top four bits are 5; part of
    /// [`cpu_execute`].
    #[verifier::rlimit(100)]
    #[verifier::spinoff_prover]
    fn execute_part_5(&mut self, code: u8)
        requires
            cpu_wf(old(self)@),
            code >> 4 == 5,
        ensures
            cpu_wf(final(self)@),
            final(self)@ == cpu_execute(old(self)@, code),
    {
        proof {
            reveal(cpu_execute);
            reveal(cpu_execute_part_5);
        }
        match code {
            0x50 => { let cond = !self.get_flag(StatusFlag::Overflow); self.branch(cond); },
            0x51 => self.eor(&AddressingMode::Indirect_Y),
            0x53 => self.sre(&AddressingMode::Indirect_Y),
            0x55 => self.eor(&AddressingMode::ZeroPage_X),
            0x56 => { self.lsr(&AddressingMode::ZeroPage_X); },
            0x57 => self.sre(&AddressingMode::ZeroPage_X),
            0x58 => self.set_flag(StatusFlag::InterruptDisable, false),
            0x59 => self.eor(&AddressingMode::Absolute_Y),
            0x5B => self.sre(&AddressingMode::Absolute_Y),
            0x5D => self.eor(&AddressingMode::Absolute_X),
            0x5E => { self.lsr(&AddressingMode::Absolute_X); },
            0x5F => self.sre(&AddressingMode::Absolute_X),
            _ => (),
        }
    }

    /// Dispatch for the opcodes whose top four bits are 6; part of
    /// [`cpu_execute`].
    #[verifier::rlimit(100)]
    #[verifier::spinoff_prover]
    fn execute_part_6(&mut self, code: u8)
        requires
            cpu_wf(old(self)@),
            code >> 4 == 6,
        ensures
            cpu_wf(final(self)@),
            final(self)@ == cpu_execute(old(self)@, code),
    {
        proof {
            reveal(cpu_execute);
            reveal(cpu_execute_part_6);
        }
        match code {
            0x60 => self.rts(),
            0x61 => self.adc(&AddressingMode::Indirect_X),
            0x63 => self.rra(&AddressingMode::Indirect_X),
            0x65 => self.adc(&AddressingMode::ZeroPage),
            0x66 => { self.ror(&AddressingMode::ZeroPage); },
            0x67 => self.rra(&AddressingMode::ZeroPage),
            0x68 => self.pla(),
            0x69 => self.adc(&AddressingMode::Immediate),
            0x6A => self.ror_accumulator(),
            0x6C => self.jmp_indirect(),
            0x6D => self.adc(&AddressingMode::Absolute),
            0x6E => { self.ror(&AddressingMode::Absolute); },
            0x6F => self.rra(&AddressingMode::Absolute),
            _ => (),
        }
    }

    /// Dispatch for the opcodes whose top four bits are 7; part of
    /// [`cpu_execute`].
    #[verifier::rlimit(100)]
    #[verifier::spinoff_prover]
    fn execute_part_7(&mut self, code: u8)
        requires
            cpu_wf(old(self)@),
            code >> 4 == 7,
        ensures
            cpu_wf(final(self)@),
            final(self)@ == cpu_execute(old(self)@, code),
    {
        proof {
            reveal(cpu_execute);
            reveal(cpu_execute_part_7);
        }
        match code {
            0x70 => { let cond = self.get_flag(StatusFlag::Overflow); self.branch(cond); },
            0x71 => self.adc(&AddressingMode::Indirect_Y),
            0x73 => self.rra(&AddressingMode::Indirect_Y),
            0x75 => self.adc(&AddressingMode::ZeroPage_X),
            0x76 => { self.ror(&AddressingMode::ZeroPage_X); },
            0x77 => self.rra(&AddressingMode::ZeroPage_X),
            0x78 => self.set_flag(StatusFlag::InterruptDisable, true),
            0x79 => self.adc(&AddressingMode::Absolute_Y),
            0x7B => self.rra(&AddressingMode::Absolute_Y),
            0x7D => self.adc(&AddressingMode::Absolute_X),
            0x7E => { self.ror(&AddressingMode::Absolute_X); },
            0x7F => self.rra(&AddressingMode::Absolute_X),
            _ => (),
        }
    }

    /// Dispatch for the opcodes whose top four bits are 8; part of
    /// [`cpu_execute`].
    #[verifier::rlimit(100)]
    #[verifier::spinoff_prover]
    fn execute_part_8(&mut self, code: u8)
        requires
            cpu_wf(old(self)@),
            code >> 4 == 8,
        ensures
            cpu_wf(final(self)@),
            final(self)@ == cpu_execute(old(self)@, code),
    {
        proof {
            reveal(cpu_execute);
            reveal(cpu_execute_part_8);
        }
        match code {
            0x81 => self.sta(&AddressingMode::Indirect_X),
            0x83 => self.sax(&AddressingMode::Indirect_X),
            0x84 => self.sty(&AddressingMode::ZeroPage),
            0x85 => self.sta(&AddressingMode::ZeroPage),
            0x86 => self.stx(&AddressingMode::ZeroPage),
            0x87 => self.sax(&AddressingMode::ZeroPage),
            0x88 => self.dey(),
            0x8A => self.txa(),
            0x8C => self.sty(&AddressingMode::Absolute),
            0x8D => self.sta(&AddressingMode::Absolute),
            0x8E => self.stx(&AddressingMode::Absolute),
            0x8F => self.sax(&AddressingMode::Absolute),
            _ => (),
        }
    }

    /// Dispatch for the opcodes whose top four bits are 9; part of
    /// [`cpu_execute`].
    #[verifier::rlimit(100)]
    #[verifier::spinoff_prover]
    fn execute_part_9(&mut self, code: u8)
        requires
            cpu_wf(old(self)@),
            code >> 4 == 9,
        ensures
            cpu_wf(final(self)@),
            final(self)@ == cpu_execute(old(self)@, code),
    {
        proof {
            reveal(cpu_execute);
            reveal(cpu_execute_part_9);
        }
        match code {
            0x90 => { let cond = !self.get_flag(StatusFlag::Carry); self.branch(cond); },
            0x91 => self.sta(&AddressingMode::Indirect_Y),
            0x94 => self.sty(&AddressingMode::ZeroPage_X),
            0x95 => self.sta(&AddressingMode::ZeroPage_X),
            0x96 => self.stx(&AddressingMode::ZeroPage_Y),
            0x97 => self.sax(&AddressingMode::ZeroPage_Y),
            0x98 => self.tya(),
            0x99 => self.sta(&AddressingMode::Absolute_Y),
            0x9A => self.txs(),
            0x9D => self.sta(&AddressingMode::Absolute_X),
            _ => (),
        }
    }

    /// Dispatch for the opcodes whose top four bits are 10; part of
    /// [`cpu_execute`].
    #[verifier::rlimit(100)]
    #[verifier::spinoff_prover]
    fn execute_part_10(&mut self, code: u8)
        requires
            cpu_wf(old(self)@),
            code >> 4 == 10,
        ensures
            cpu_wf(final(self)@),
            final(self)@ == cpu_execute(old(self)@, code),
    {
        proof {
            reveal(cpu_execute);
            reveal(cpu_execute_part_10);
        }
        match code {
            0xA0 => self.ldy(&AddressingMode::Immediate),
            0xA1 => self.lda(&AddressingMode::Indirect_X),
            0xA2 => self.ldx(&AddressingMode::Immediate),
            0xA3 => self.lax(&AddressingMode::Indirect_X),
            0xA4 => self.ldy(&AddressingMode::ZeroPage),
            0xA5 => self.lda(&AddressingMode::ZeroPage),
            0xA6 => self.ldx(&AddressingMode::ZeroPage),
            0xA7 => self.lax(&AddressingMode::ZeroPage),
            0xA8 => self.tay(),
            0xA9 => self.lda(&AddressingMode::Immediate),
            0xAA => self.tax(),
            0xAC => self.ldy(&AddressingMode::Absolute),
            0xAD => self.lda(&AddressingMode::Absolute),
            0xAE => self.ldx(&AddressingMode::Absolute),
            0xAF => self.lax(&AddressingMode::Absolute),
            _ => (),
        }
    }

    /// Dispatch for the opcodes whose top four bits are 11; part of
    /// [`cpu_execute`].
    #[verifier::rlimit(100)]
    #[verifier::spinoff_prover]
    fn execute_part_11(&mut self, code: u8)
        requires
            cpu_wf(old(self)@),
            code >> 4 == 11,
        ensures
            cpu_wf(final(self)@),
            final(self)@ == cpu_execute(old(self)@, code),
    {
        proof {
            reveal(cpu_execute);
            reveal(cpu_execute_part_11);
        }
        match code {
            0xB0 => { let cond = self.get_flag(StatusFlag::Carry); self.branch(cond); },
            0xB1 => self.lda(&AddressingMode::Indirect_Y),
            0xB3 => self.lax(&AddressingMode::Indirect_Y),
            0xB4 => self.ldy(&AddressingMode::ZeroPage_X),
            0xB5 => self.lda(&AddressingMode::ZeroPage_X),
            0xB6 => self.ldx(&AddressingMode::ZeroPage_Y),
            0xB7 => self.lax(&AddressingMode::ZeroPage_Y),
            0xB8 => self.set_flag(StatusFlag::Overflow, false),
            0xB9 => self.lda(&AddressingMode::Absolute_Y),
            0xBA => self.tsx(),
            0xBC => self.ldy(&AddressingMode::Absolute_X),
            0xBD => self.lda(&AddressingMode::Absolute_X),
            0xBE => self.ldx(&AddressingMode::Absolute_Y),
            0xBF => self.lax(&AddressingMode::Absolute_Y),
            _ => (),
        }
    }

    /// Dispatch for the opcodes whose top four bits are 12; part of
    /// [`cpu_execute`].
    #[verifier::rlimit(100)]
    #[verifier::spinoff_prover]
    fn execute_part_12(&mut self, code: u8)
        requires
            cpu_wf(old(self)@),
            code >> 4 == 12,
        ensures
            cpu_wf(final(self)@),
            final(self)@ == cpu_execute(old(self)@, code),
    {
        proof {
            reveal(cpu_execute);
            reveal(cpu_execute_part_12);
        }
        match code {
            0xC0 => self.cpy(&AddressingMode::Immediate),
            0xC1 => self.cmp(&AddressingMode::Indirect_X),
            0xC3 => self.dcp(&AddressingMode::Indirect_X),
            0xC4 => self.cpy(&AddressingMode::ZeroPage),
            0xC5 => self.cmp(&AddressingMode::ZeroPage),
            0xC6 => { self.dec(&AddressingMode::ZeroPage); },
            0xC7 => self.dcp(&AddressingMode::ZeroPage),
            0xC8 => self.iny(),
            0xC9 => self.cmp(&AddressingMode::Immediate),
            0xCA => self.dex(),
            0xCC => self.cpy(&AddressingMode::Absolute),
            0xCD => self.cmp(&AddressingMode::Absolute),
            0xCE => { self.dec(&AddressingMode::Absolute); },
            0xCF => self.dcp(&AddressingMode::Absolute),
            _ => (),
        }
    }

    /// Dispatch for the opcodes whose top four bits are 13; part of
    /// [`cpu_execute`].
    #[verifier::rlimit(100)]
    #[verifier::spinoff_prover]
    fn execute_part_13(&mut self, code: u8)
        requires
            cpu_wf(old(self)@),
            code >> 4 == 13,
        ensures
            cpu_wf(final(self)@),
            final(self)@ == cpu_execute(old(self)@, code),
    {
        proof {
            reveal(cpu_execute);
            reveal(cpu_execute_part_13);
        }
        match code {
            0xD0 => { let cond = !self.get_flag(StatusFlag::Zero); self.branch(cond); },
            0xD1 => self.cmp(&AddressingMode::Indirect_Y),
            0xD3 => self.dcp(&AddressingMode::Indirect_Y),
            0xD5 => self.cmp(&AddressingMode::ZeroPage_X),
            0xD6 => { self.dec(&AddressingMode::ZeroPage_X); },
            0xD7 => self.dcp(&AddressingMode::ZeroPage_X),
            0xD8 => self.set_flag(StatusFlag::DecimalMode, false),
            0xD9 => self.cmp(&AddressingMode::Absolute_Y),
            0xDB => self.dcp(&AddressingMode::Absolute_Y),
            0xDD => self.cmp(&AddressingMode::Absolute_X),
            0xDE => { self.dec(&AddressingMode::Absolute_X); },
            0xDF => self.dcp(&AddressingMode::Absolute_X),
            _ => (),
        }
    }

    /// Dispatch for the opcodes whose top four bits are 14; part of
    /// [`cpu_execute`].
    #[verifier::rlimit(100)]
    #[verifier::spinoff_prover]
    fn execute_part_14(&mut self, code: u8)
        requires
            cpu_wf(old(self)@),
            code >> 4 == 14,
        ensures
            cpu_wf(final(self)@),
            final(self)@ == cpu_execute(old(self)@, code),
    {
        proof {
            reveal(cpu_execute);
            reveal(cpu_execute_part_14);
        }
        match code {
            0xE0 => self.cpx(&AddressingMode::Immediate),
            0xE1 => self.sbc(&AddressingMode::Indirect_X),
            0xE3 => self.isb(&AddressingMode::Indirect_X),
            0xE4 => self.cpx(&AddressingMode::ZeroPage),
            0xE5 => self.sbc(&AddressingMode::ZeroPage),
            0xE6 => { self.inc(&AddressingMode::ZeroPage); },
            0xE7 => self.isb(&AddressingMode::ZeroPage),
            0xE8 => self.inx(),
            0xE9 => self.sbc(&AddressingMode::Immediate),
            0xEB => self.sbc(&AddressingMode::Immediate),
            0xEC => self.cpx(&AddressingMode::Absolute),
            0xED => self.sbc(&AddressingMode::Absolute),
            0xEE => { self.inc(&AddressingMode::Absolute); },
            0xEF => self.isb(&AddressingMode::Absolute),
            _ => (),
        }
    }

    /// Dispatch for the opcodes whose top four bits are 15; part of
    /// [`cpu_execute`].
    #[verifier::rlimit(100)]
    #[verifier::spinoff_prover]
    fn execute_part_15(&mut self, code: u8)
        requires
            cpu_wf(old(self)@),
            code >> 4 == 15,
        ensures
            cpu_wf(final(self)@),
            final(self)@ == cpu_execute(old(self)@, code),
    {
        proof {
            reveal(cpu_execute);
            reveal(cpu_execute_part_15);
        }
        match code {
            0xF0 => { let cond = self.get_flag(StatusFlag::Zero); self.branch(cond); },
            0xF1 => self.sbc(&AddressingMode::Indirect_Y),
            0xF3 => self.isb(&AddressingMode::Indirect_Y),
            0xF5 => self.sbc(&AddressingMode::ZeroPage_X),
            0xF6 => { self.inc(&AddressingMode::ZeroPage_X); },
            0xF7 => self.isb(&AddressingMode::ZeroPage_X),
            0xF8 => self.set_flag(StatusFlag::DecimalMode, true),
            0xF9 => self.sbc(&AddressingMode::Absolute_Y),
            0xFB => self.isb(&AddressingMode::Absolute_Y),
            0xFD => self.sbc(&AddressingMode::Absolute_X),
            0xFE => { self.inc(&AddressingMode::Absolute_X); },
            0xFF => self.isb(&AddressingMode::Absolute_X),
            _ => (),
        }
    }

    /// Executes one whole instruction, NMI service included; see
    /// [`cpu_step`]. Returns true when the instruction was BRK, which is
    /// where the run loop stops.
    #[verifier::rlimit(100)]
    #[verifier::spinoff_prover]
    pub fn step(&mut self) -> (halt: bool)
        requires
            cpu_wf(old(self)@),
        ensures
            cpu_wf(final(self)@),
            final(self)@ == cpu_step(old(self)@),
            halt == (cpu_step_fetch(old(self)@) == 0),
    {
        proof {
            reveal(cpu_step);
        }
        if self.bus.poll_nmi_status().is_some() {
            self.interrupt(InterruptType::NMI);
        }
        let pc = self.program_counter;
        let code: u8 = self.mem_read(pc);
        self.program_counter = self.program_counter.wrapping_add(1);
        if !opcode_is_known(code) {
            self.bus.latch(Fault::UnknownOpcode);
            return false;
        }
        let pc_state: u16 = self.program_counter;
        self.execute(code);
        let entry = opcode_entry(code);
        proof {
            lemma_opcode_entry_bounds(code);
        }
        self.bus.tick(entry.2);
        if pc_state == self.program_counter {
            self.program_counter = self.program_counter.wrapping_add((entry.1 - 1) as u16);
        }
        code == 0x00
    }

    /// Runs whole instructions until a BRK executes, an invalid access
    /// latches a fault, or `fuel` instructions have run. On return the
    /// machine is some number of whole steps from where it started, and
    /// [`run_stopped`] says why it stopped.
    pub fn run_steps(&mut self, fuel: u64)
        requires
            cpu_wf(old(self)@),
        ensures
            cpu_wf(final(self)@),
            exists|n: nat| final(self)@ == #[trigger] cpu_steps(old(self)@, n),
            run_stopped(old(self)@, final(self)@, fuel),
    {
        let mut i: u64 = 0;
        while i < fuel
            invariant
                cpu_wf(self@),
                i <= fuel,
                self@ == cpu_steps(old(self)@, i as nat),
            decreases fuel - i,
        {
            let ghost pre: nat = i as nat;
            let halt = self.step();
            proof {
                assert(cpu_steps(old(self)@, pre + 1) == cpu_step(cpu_steps(old(self)@, pre)));
            }
            i = i + 1;
            if halt {
                return ;
            }
            if self.bus.fault().is_some() {
                return ;
            }
        }
    }

    /// Runs until a BRK executes or a fault is latched, up to the largest
    /// expressible number of instructions; see [`CPU::run_steps`].
    pub fn run(&mut self)
        requires
            cpu_wf(old(self)@),
        ensures
            cpu_wf(final(self)@),
            exists|n: nat| final(self)@ == #[trigger] cpu_steps(old(self)@, n),
            run_stopped(old(self)@, final(self)@, 0xFFFF_FFFF_FFFF_FFFF),
    {
        self.run_steps(0xFFFF_FFFF_FFFF_FFFF);
    }

    /// Re-initialises the registers and loads the program counter from the
    /// reset vector at 0xFFFC, leaving memory alone; see [`cpu_reset`].
    pub fn reset(&mut self)
        requires
            cpu_wf(old(self)@),
        ensures
            cpu_wf(final(self)@),
            final(self)@ == cpu_reset(old(self)@),
    {
        self.register_a = 0;
        self.register_x = 0;
        self.register_y = 0;
        self.stack_pointer = 0xFD;
        self.status = 0b100100;
        self.program_counter = self.mem_read_u16(0xFFFC);
    }

    /// Places a program at the start of PRG ROM (CPU address 0x8000) and
    /// points the reset vector at it; see [`prg_with_program`].
    pub fn load(&mut self, program: &Vec<u8>)
        requires
            cpu_wf(old(self)@),
            program@.len() <= 0x4000,
        ensures
            cpu_wf(final(self)@),
            final(self)@ == cpu_loaded(old(self)@, program@),
    {
        let mut i: usize = 0;
        while i < program.len()
            invariant
                cpu_wf(self@),
                i <= program@.len() <= 0x4000,
                self@.bus.prg_rom.len() == old(self)@.bus.prg_rom.len(),
                self@ == (CpuView {
                    bus: BusView { prg_rom: self@.bus.prg_rom, ..old(self)@.bus },
                    ..old(self)@
                }),
                forall|j: int|
                    0 <= j < self@.bus.prg_rom.len() ==> self@.bus.prg_rom[j] == (if j < i {
                        program@[j]
                    } else {
                        old(self)@.bus.prg_rom[j]
                    }),
            decreases program@.len() - i,
        {
            self.bus.set_prg_byte(i, program[i]);
            i = i + 1;
        }
        let len = self.bus.prg_len();
        self.bus.set_prg_byte(len - 4, 0x00);
        self.bus.set_prg_byte(len - 3, 0x80);
        proof {
            assert(self@.bus.prg_rom =~= prg_with_program(old(self)@.bus.prg_rom, program@));
            assert(self@ =~= cpu_loaded(old(self)@, program@));
        }
    }

    /// Loads a program, resets, and runs it until its BRK; see
    /// [`CPU::load`], [`CPU::reset`] and [`CPU::run`].
    pub fn load_and_run(&mut self, program: &Vec<u8>)
        requires
            cpu_wf(old(self)@),
            program@.len() <= 0x4000,
        ensures
            cpu_wf(final(self)@),
            exists|n: nat|
                final(self)@ == #[trigger] cpu_steps(
                    cpu_reset(cpu_loaded(old(self)@, program@)),
                    n,
                ),
            run_stopped(
                cpu_reset(cpu_loaded(old(self)@, program@)),
                final(self)@,
                0xFFFF_FFFF_FFFF_FFFF,
            ),
    {
        self.load(program);
        self.reset();
        self.run();
    }
}

} // verus!
