//! The interpreter: register file, memory bus, addressing modes, instruction
//! semantics and the step loop.
//!
//! Every operation is specified over [`Machine`], the mathematical view of a
//! [`Cpu`]: registers, RAM, the two PRG-ROM banks and the PPU status.
use vstd::prelude::*;
use crate::decode::{AddressMode, Instr, Instruction, decode, decode_spec};
use crate::flags::{
    CpuFlags, B_FLAG, C_FLAG, D_FLAG, I_FLAG, N_FLAG, V_FLAG, X_FLAG, Z_FLAG, c_bits, flag_bits,
    v_bits, zn_bits,
};
use crate::ppu::Ppu;

verus! {

/// Bytes of internal RAM.
pub const RAM_SIZE: usize = 0x0800;
/// Bytes of one PRG-ROM bank.
pub const PRG_ROM_BANK_SIZE: usize = 0x4000;

/// `x + y` modulo 256.
pub open spec fn add8(x: u8, y: u8) -> u8 {
    if x + y > 0xFF { (x + y - 0x100) as u8 } else { (x + y) as u8 }
}

/// `x - y` modulo 256.
pub open spec fn sub8(x: u8, y: u8) -> u8 {
    if x - y < 0 { (x - y + 0x100) as u8 } else { (x - y) as u8 }
}

/// `x + y` modulo 65536.
pub open spec fn add16(x: u16, y: u16) -> u16 {
    if x + y > 0xFFFF { (x + y - 0x10000) as u16 } else { (x + y) as u16 }
}

/// `x - y` modulo 65536.
pub open spec fn sub16(x: u16, y: u16) -> u16 {
    if x - y < 0 { (x - y + 0x10000) as u16 } else { (x - y) as u16 }
}

/// The little-endian word with bytes `lo`, `hi`.
pub open spec fn word(lo: u8, hi: u8) -> u16 {
    (hi * 0x100 + lo) as u16
}

/// The 256-byte page of an address.
pub open spec fn page(addr: u16) -> int {
    addr as int / 0x100
}

/// `pc` moved by `offset` read as a signed byte.
pub open spec fn branch_target(pc: u16, offset: u8) -> u16 {
    if offset < 0x80 { add16(pc, offset as u16) } else { sub16(pc, (0x100 - offset) as u16) }
}

/// A reported runtime error.
#[derive(Clone, Copy, Debug, PartialEq, Eq, Structural)]
pub enum Fault {
    /// An opcode with no official meaning; it ran as a two-cycle no-op.
    DecodeFailure(u8),
    /// A write to the read-only `$2002` port or to PRG-ROM; it was ignored.
    IllegalWrite(u16),
}

/// The register file.
#[derive(Clone, Copy, Debug, PartialEq, Eq, Structural)]
pub struct CpuState {
    /// Program counter.
    pub pc: u16,
    /// Accumulator.
    pub a: u8,
    /// Index register X.
    pub x: u8,
    /// Index register Y.
    pub y: u8,
    /// Stack pointer: the stack top is `$0100 | s`.
    pub s: u8,
    /// Status register.
    pub p: CpuFlags,
}

/// The power-on registers: all zero but `S = $FF`, and `P` with only the
/// always-on bits.
pub open spec fn power_on() -> CpuState {
    CpuState { pc: 0, a: 0, x: 0, y: 0, s: 0xFF, p: CpuFlags { bits: crate::flags::DX_FLAG } }
}

impl CpuState {
    /// The power-on registers.
    pub fn new() -> (r: CpuState)
        ensures
            r == power_on(),
    {
        CpuState { pc: 0x0000, a: 0x00, x: 0x00, y: 0x00, s: 0xFF, p: CpuFlags::none() }
    }
}

/// The mathematical view of a [`Cpu`].
pub struct Machine {
    pub state: CpuState,
    /// The 2 KiB of internal RAM.
    pub ram: Seq<u8>,
    /// PRG-ROM at `$8000-$BFFF`.
    pub prg_lower: Seq<u8>,
    /// PRG-ROM at `$C000-$FFFF`.
    pub prg_upper: Seq<u8>,
    pub ppu: Ppu,
    /// What the last step reported.
    pub fault: Option<Fault>,
}

/// What a read of PPU port `port` (`0..8`) returns: `$2002` reads the PPU
/// status; the other ports are not wired and read the fixed bytes `$11`,
/// `$22`, ..., `$88`.
pub open spec fn ppu_port_read(status: u8, port: int) -> u8 {
    if port == 2 { status } else { ((port + 1) * 0x11) as u8 }
}

/// The byte the bus returns for `addr`: RAM mirrored every 2 KiB below
/// `$2000`, the PPU ports mirrored every 8 bytes below `$4000`, 0 from the
/// APU/IO, expansion and SRAM regions, then the two PRG-ROM banks.
#[verifier::opaque]
pub open spec fn bus_read(ram: Seq<u8>, prg_lower: Seq<u8>, prg_upper: Seq<u8>, ppu_status: u8, addr: u16) -> u8 {
    if addr < 0x2000 {
        ram[addr as int % 0x800]
    } else if addr < 0x4000 {
        ppu_port_read(ppu_status, addr as int % 8)
    } else if addr < 0x8000 {
        0
    } else if addr < 0xC000 {
        prg_lower[addr as int - 0x8000]
    } else {
        prg_upper[addr as int - 0xC000]
    }
}

/// Whether a bus write to `addr` is refused.
pub open spec fn write_refused(addr: u16) -> bool {
    (0x2000 <= addr < 0x4000 && addr % 8 == 2) || addr >= 0x8000
}

/// The mnemonics that read their operand from memory.
pub open spec fn reads_memory(i: Instr) -> bool {
    match i {
        Instr::ADC | Instr::AND | Instr::ASL | Instr::BIT | Instr::CMP | Instr::CPX | Instr::CPY
        | Instr::DEC | Instr::EOR | Instr::INC | Instr::LDA | Instr::LDX | Instr::LDY | Instr::LSR
        | Instr::ORA | Instr::ROL | Instr::ROR | Instr::SBC => true,
        _ => false,
    }
}

/// The mnemonics that write their result back to the operand.
pub open spec fn writes_memory(i: Instr) -> bool {
    match i {
        Instr::ASL | Instr::DEC | Instr::INC | Instr::LSR | Instr::ROL | Instr::ROR | Instr::STA
        | Instr::STX | Instr::STY => true,
        _ => false,
    }
}

/// The mnemonics that take one more cycle when indexing crosses a page.
pub open spec fn page_penalty(i: Instr) -> bool {
    match i {
        Instr::ADC | Instr::AND | Instr::CMP | Instr::EOR | Instr::LDA | Instr::LDX | Instr::LDY
        | Instr::ORA | Instr::SBC => true,
        _ => false,
    }
}

/// The eight conditional branches.
pub open spec fn is_branch(i: Instr) -> bool {
    match i {
        Instr::BCC | Instr::BCS | Instr::BNE | Instr::BEQ | Instr::BPL | Instr::BMI | Instr::BVC
        | Instr::BVS => true,
        _ => false,
    }
}

/// Whether branch `i` is taken under flags `p`: each tests one flag for
/// clear or set.
pub open spec fn branch_taken(p: CpuFlags, i: Instr) -> bool {
    match i {
        Instr::BCC => !p.has(C_FLAG),
        Instr::BCS => p.has(C_FLAG),
        Instr::BNE => !p.has(Z_FLAG),
        Instr::BEQ => p.has(Z_FLAG),
        Instr::BPL => !p.has(N_FLAG),
        Instr::BMI => p.has(N_FLAG),
        Instr::BVC => !p.has(V_FLAG),
        _ => p.has(V_FLAG),
    }
}

/// The address after `addr` within the same page: where JMP indirect takes
/// the high byte of its target.
pub open spec fn same_page_next(addr: u16) -> u16 {
    (page(addr) * 0x100 + add8((addr % 0x100) as u8, 1)) as u16
}

/// The fault that writing an instruction's result back to `addr` reports.
pub open spec fn write_back_fault(ins: Instruction, addr: u16) -> Option<Fault> {
    if ins.address_mode != AddressMode::ACC && writes_memory(ins.instr) && write_refused(addr) {
        Some(Fault::IllegalWrite(addr))
    } else {
        None
    }
}

/// Whether a fault stops the emulation: a write to PRG-ROM.
pub open spec fn is_fatal(f: Option<Fault>) -> bool {
    f matches Some(Fault::IllegalWrite(addr)) && addr >= 0x8000
}

/// Whether `f` is fatal.
fn is_fatal_fault(f: &Option<Fault>) -> (r: bool)
    ensures
        r == is_fatal(*f),
{
    match f {
        Some(Fault::IllegalWrite(addr)) => *addr >= 0x8000,
        _ => false,
    }
}

impl Machine {
    /// Sizes of RAM and of the two ROM banks.
    pub open spec fn wf(self) -> bool {
        &&& self.ram.len() == RAM_SIZE
        &&& self.prg_lower.len() == PRG_ROM_BANK_SIZE
        &&& self.prg_upper.len() == PRG_ROM_BANK_SIZE
    }

    /// The byte the bus returns for `addr`.
    pub open spec fn read(self, addr: u16) -> u8 {
        bus_read(self.ram, self.prg_lower, self.prg_upper, self.ppu.status, addr)
    }

    /// The little-endian word at `addr`, `addr + 1`.
    pub open spec fn read_word(self, addr: u16) -> u16 {
        word(self.read(addr), self.read(add16(addr, 1)))
    }

    /// RAM after a bus write of `v` to `addr`: only RAM addresses change
    /// anything, at `addr & 0x07FF`.
    pub open spec fn write(self, addr: u16, v: u8) -> Machine {
        if addr < 0x2000 {
            Machine { ram: self.ram.update(addr as int % 0x800, v), ..self }
        } else {
            self
        }
    }

    /// The machine with `PC` set to `pc`.
    pub open spec fn with_pc(self, pc: u16) -> Machine {
        Machine { state: CpuState { pc, ..self.state }, ..self }
    }

    /// For operand bytes starting at `pc`: the effective address, whether
    /// indexing crossed a page, and the address after the operand bytes.
    pub open spec fn operand_address(self, pc: u16, mode: AddressMode) -> (u16, bool, u16) {
        let b = self.read(pc);
        let w = word(b, self.read(add16(pc, 1)));
        let pc1 = add16(pc, 1);
        let pc2 = add16(pc, 2);
        let x = self.state.x;
        let y = self.state.y;
        match mode {
            AddressMode::IMP | AddressMode::ACC => (0, false, pc),
            AddressMode::IMM | AddressMode::REL | AddressMode::ZP => (b as u16, false, pc1),
            AddressMode::ZPX => (add8(b, x) as u16, false, pc1),
            AddressMode::ZPY => (add8(b, y) as u16, false, pc1),
            AddressMode::ABS => (w, false, pc2),
            AddressMode::ABSX => (add16(w, x as u16), page(w) != page(add16(w, x as u16)), pc2),
            AddressMode::ABSY => (add16(w, y as u16), page(w) != page(add16(w, y as u16)), pc2),
            AddressMode::IND => (word(self.read(w), self.read(same_page_next(w))), false, pc2),
            AddressMode::INDX => (self.read_word(add8(b, x) as u16), false, pc1),
            AddressMode::INDY => {
                let base = self.read_word(b as u16);
                (add16(base, y as u16), page(base) != page(add16(base, y as u16)), pc1)
            },
        }
    }

    /// The operand of `ins` at effective address `addr`.
    pub open spec fn operand(self, ins: Instruction, addr: u16) -> u8 {
        if ins.address_mode == AddressMode::ACC {
            self.state.a
        } else if ins.address_mode == AddressMode::IMM || ins.address_mode == AddressMode::REL {
            (addr % 0x100) as u8
        } else if reads_memory(ins.instr) {
            self.read(addr)
        } else {
            0
        }
    }

    /// Branch `i` with offset byte `offset`: the machine after it and the
    /// extra cycles, one when taken and one more when `PC` changes page.
    pub open spec fn branch(self, i: Instr, offset: u8) -> (Machine, u32) {
        if branch_taken(self.state.p, i) {
            let target = branch_target(self.state.pc, offset);
            (self.with_pc(target), if page(self.state.pc) != page(target) { 2 } else { 1 })
        } else {
            (self, 0)
        }
    }

    /// Result `v` of `ins` written back: to `A` in accumulator mode, else
    /// to the bus for the mnemonics that write memory.
    pub open spec fn write_back(self, ins: Instruction, addr: u16, v: u8) -> Machine {
        if ins.address_mode == AddressMode::ACC {
            self.with_state(CpuState { a: v, ..self.state })
        } else if writes_memory(ins.instr) {
            self.write(addr, v)
        } else {
            self
        }
    }

    /// The machine with status bits `bits`.
    pub open spec fn with_p(self, bits: u8) -> Machine {
        Machine { state: CpuState { p: CpuFlags { bits }, ..self.state }, ..self }
    }

    /// The incoming carry as 0 or 1.
    pub open spec fn carry(self) -> u8 {
        if self.state.p.has(C_FLAG) { 1 } else { 0 }
    }

    /// Runs mnemonic `i` on operand `m`: the machine after it and the
    /// result byte to write back (0 where there is none). JMP, JSR and the
    /// branches are the step's own and change nothing here.
    #[verifier::opaque]
    pub open spec fn exec(self, i: Instr, m: u8) -> (Machine, u8) {
        let st = self.state;
        let p = st.p.bits;
        let a = st.a;
        let x = st.x;
        let y = st.y;
        match i {
            Instr::LDA => (Machine { state: CpuState { a: m, ..st }, ..self }.with_p(zn_bits(p, m)), 0),
            Instr::LDX => (Machine { state: CpuState { x: m, ..st }, ..self }.with_p(zn_bits(p, m)), 0),
            Instr::LDY => (Machine { state: CpuState { y: m, ..st }, ..self }.with_p(zn_bits(p, m)), 0),
            Instr::STA => (self, a),
            Instr::STX => (self, x),
            Instr::STY => (self, y),
            Instr::ADC => {
                let sum = (a + m + self.carry()) as u16;
                let r = (sum % 0x100) as u8;
                (
                    Machine { state: CpuState { a: r, ..st }, ..self }.with_p(
                        zn_bits(v_bits(c_bits(p, sum), a, m, r), r),
                    ),
                    0,
                )
            },
            Instr::SBC => {
                let sum = (a + !m + self.carry()) as u16;
                let r = (sum % 0x100) as u8;
                (
                    Machine { state: CpuState { a: r, ..st }, ..self }.with_p(
                        zn_bits(v_bits(c_bits(p, sum), r, m, a), r),
                    ),
                    0,
                )
            },
            Instr::INC => (self.with_p(zn_bits(p, add8(m, 1))), add8(m, 1)),
            Instr::DEC => (self.with_p(zn_bits(p, sub8(m, 1))), sub8(m, 1)),
            Instr::INX => (Machine { state: CpuState { x: add8(x, 1), ..st }, ..self }.with_p(zn_bits(p, add8(x, 1))), 0),
            Instr::INY => (Machine { state: CpuState { y: add8(y, 1), ..st }, ..self }.with_p(zn_bits(p, add8(y, 1))), 0),
            Instr::DEX => (Machine { state: CpuState { x: sub8(x, 1), ..st }, ..self }.with_p(zn_bits(p, sub8(x, 1))), 0),
            Instr::DEY => (Machine { state: CpuState { y: sub8(y, 1), ..st }, ..self }.with_p(zn_bits(p, sub8(y, 1))), 0),
            Instr::ASL => {
                let v = (m * 2) as u16;
                let r = (v % 0x100) as u8;
                (self.with_p(zn_bits(c_bits(p, v), r)), r)
            },
            Instr::LSR => {
                let r = m / 2;
                (self.with_p(zn_bits(flag_bits(p, C_FLAG, m % 2 == 1), r)), r)
            },
            Instr::ROL => {
                let v = (m * 2) as u16;
                let r = (v % 0x100 + self.carry()) as u8;
                (self.with_p(zn_bits(c_bits(p, v), r)), r)
            },
            Instr::ROR => {
                let r = (m / 2 + self.carry() * 0x80) as u8;
                (self.with_p(zn_bits(flag_bits(p, C_FLAG, m % 2 == 1), r)), r)
            },
            Instr::AND => (Machine { state: CpuState { a: a & m, ..st }, ..self }.with_p(zn_bits(p, a & m)), 0),
            Instr::ORA => (Machine { state: CpuState { a: a | m, ..st }, ..self }.with_p(zn_bits(p, a | m)), 0),
            Instr::EOR => (Machine { state: CpuState { a: a ^ m, ..st }, ..self }.with_p(zn_bits(p, a ^ m)), 0),
            Instr::CMP => {
                let v = (a + !m + 1) as u16;
                (self.with_p(zn_bits(c_bits(p, v), (v % 0x100) as u8)), 0)
            },
            Instr::CPX => {
                let v = (x + !m + 1) as u16;
                (self.with_p(zn_bits(c_bits(p, v), (v % 0x100) as u8)), 0)
            },
            Instr::CPY => {
                let v = (y + !m + 1) as u16;
                (self.with_p(zn_bits(c_bits(p, v), (v % 0x100) as u8)), 0)
            },
            Instr::BIT => {
                let p1 = flag_bits(p, Z_FLAG, a & m == 0);
                let p2 = flag_bits(p1, N_FLAG, m >= 0x80);
                (self.with_p(flag_bits(p2, V_FLAG, (m / 0x40) % 2 == 1)), 0)
            },
            Instr::TAX => (Machine { state: CpuState { x: a, ..st }, ..self }.with_p(zn_bits(p, a)), 0),
            Instr::TXA => (Machine { state: CpuState { a: x, ..st }, ..self }.with_p(zn_bits(p, x)), 0),
            Instr::TAY => (Machine { state: CpuState { y: a, ..st }, ..self }.with_p(zn_bits(p, a)), 0),
            Instr::TYA => (Machine { state: CpuState { a: y, ..st }, ..self }.with_p(zn_bits(p, y)), 0),
            Instr::TSX => (Machine { state: CpuState { x: st.s, ..st }, ..self }.with_p(zn_bits(p, st.s)), 0),
            Instr::TXS => (Machine { state: CpuState { s: x, ..st }, ..self }.with_p(zn_bits(p, x)), 0),
            Instr::PHA => (self.push(a), 0),
            Instr::PLA => {
                let (m1, v) = self.pop();
                (Machine { state: CpuState { a: v, ..m1.state }, ..m1 }.with_p(zn_bits(p, v)), 0)
            },
            Instr::PHP => (self.push(p | B_FLAG | X_FLAG), 0),
            Instr::PLP => {
                let (m1, v) = self.pop();
                (m1.with_p(v), 0)
            },
            Instr::RTS => {
                let (m1, w) = self.pop_word();
                (m1.with_pc(add16(w, 1)), 0)
            },
            Instr::RTI => {
                let (m1, v) = self.pop();
                let (m2, w) = m1.pop_word();
                (m2.with_p(v).with_pc(w), 0)
            },
            Instr::SEC => (self.with_p(p | C_FLAG), 0),
            Instr::SED => (self.with_p(p | D_FLAG), 0),
            Instr::SEI => (self.with_p(p | I_FLAG), 0),
            Instr::CLC => (self.with_p(p & !C_FLAG), 0),
            Instr::CLI => (self.with_p(p & !I_FLAG), 0),
            Instr::CLV => (self.with_p(p & !V_FLAG), 0),
            Instr::BRK => {
                let m1 = self.push_word(add16(st.pc, 1)).push(p | B_FLAG);
                (m1.with_p(p | I_FLAG).with_pc(self.read_word(0xFFFE)), 0)
            },
            _ => (self, 0),
        }
    }

    /// One instruction from `PC`: the machine after it and its cost in
    /// cycles. The fault field tells what the instruction reported.
    #[verifier::opaque]
    pub open spec fn step(self) -> (Machine, u32) {
        let pc = self.state.pc;
        let opcode = self.read(pc);
        match decode_spec(opcode) {
            None => (Machine { fault: Some(Fault::DecodeFailure(opcode)), ..self }.with_pc(add16(pc, 1)), 2),
            Some(ins) => Machine { fault: None, ..self }.with_pc(add16(pc, 1)).run_decoded(ins),
        }
    }

    /// Decoded instruction `ins` with its operand bytes at `PC`.
    pub open spec fn run_decoded(self, ins: Instruction) -> (Machine, u32) {
        let (addr, crossed, pc) = self.operand_address(self.state.pc, ins.address_mode);
        let m1 = self.with_pc(pc);
        let cycles = (ins.cycles + if crossed && page_penalty(ins.instr) { 1u32 } else { 0u32 }) as u32;
        if ins.instr == Instr::JMP {
            (m1.with_pc(addr), cycles)
        } else if ins.instr == Instr::JSR {
            (m1.push_word(sub16(pc, 1)).with_pc(addr), cycles)
        } else if is_branch(ins.instr) {
            let (m2, extra) = m1.branch(ins.instr, m1.operand(ins, addr));
            (m2, (cycles + extra) as u32)
        } else {
            (m1.exec_write_back(ins, addr), cycles)
        }
    }

    /// Mnemonic of `ins` run on its operand at `addr`, result written back,
    /// and the write's fault recorded.
    pub open spec fn exec_write_back(self, ins: Instruction, addr: u16) -> Machine {
        let (m2, out) = self.exec(ins.instr, self.operand(ins, addr));
        Machine { fault: write_back_fault(ins, addr), ..m2.write_back(ins, addr, out) }
    }

    /// `n` steps: the machine after them and the cycles they cost.
    pub open spec fn steps(self, n: nat) -> (Machine, int)
        decreases n,
    {
        if n == 0 {
            (self, 0)
        } else {
            let (m, spent) = self.steps((n - 1) as nat);
            let (m2, c) = m.step();
            (m2, spent + c)
        }
    }

    /// Whether `run_cycles` on a budget of `budget` cycles runs exactly `n`
    /// steps: every shorter run leaves budget and hits no fatal fault, and
    /// the `n`-th step either exhausts the budget or faults fatally.
    pub open spec fn runs_for(self, budget: int, n: nat) -> bool {
        &&& n >= 1
        &&& forall|k: nat| 1 <= k < n ==> budget - #[trigger] self.steps(k).1 > 0
            && !is_fatal(self.steps(k).0.fault)
        &&& budget - self.steps(n).1 <= 0 || is_fatal(self.steps(n).0.fault)
    }

    /// The machine with registers `state`.
    pub open spec fn with_state(self, state: CpuState) -> Machine {
        Machine { state, ..self }
    }

    /// `v` pushed: stored at `$0100 | S`, then `S` decremented.
    pub open spec fn push(self, v: u8) -> Machine {
        Machine {
            state: CpuState { s: sub8(self.state.s, 1), ..self.state },
            ram: self.ram.update(0x100 + self.state.s as int, v),
            ..self
        }
    }

    /// `S` incremented, then the byte at `$0100 | S` taken.
    pub open spec fn pop(self) -> (Machine, u8) {
        let s = add8(self.state.s, 1);
        (Machine { state: CpuState { s, ..self.state }, ..self }, self.ram[0x100 + s as int])
    }

    /// `v` pushed high byte first, so that the low byte is on top.
    pub open spec fn push_word(self, v: u16) -> Machine {
        self.push((v / 0x100) as u8).push((v % 0x100) as u8)
    }

    /// Low byte popped, then high byte.
    pub open spec fn pop_word(self) -> (Machine, u16) {
        let (m1, lo) = self.pop();
        let (m2, hi) = m1.pop();
        (m2, word(lo, hi))
    }
}

/// The CPU with its RAM, PRG-ROM and PPU.
pub struct Cpu {
    pub state: CpuState,
    pub ram: Vec<u8>,
    pub prg_lower: Vec<u8>,
    pub prg_upper: Vec<u8>,
    pub ppu: Ppu,
    /// The error that the last step reported, if any.
    pub fault: Option<Fault>,
}

impl View for Cpu {
    type V = Machine;

    open spec fn view(&self) -> Machine {
        Machine {
            state: self.state,
            ram: self.ram@,
            prg_lower: self.prg_lower@,
            prg_upper: self.prg_upper@,
            ppu: self.ppu,
            fault: self.fault,
        }
    }
}

impl Cpu {
    /// RAM and the two ROM banks have their sizes.
    pub open spec fn wf(&self) -> bool {
        self@.wf()
    }

    /// A CPU at power-on over the two PRG-ROM banks (lower at `$8000`,
    /// upper at `$C000`), with zeroed RAM.
    pub fn new(prg_rom: (Vec<u8>, Vec<u8>), ppu: Ppu) -> (r: Cpu)
        requires
            prg_rom.0@.len() == PRG_ROM_BANK_SIZE,
            prg_rom.1@.len() == PRG_ROM_BANK_SIZE,
        ensures
            r.wf(),
            r.state == power_on(),
            r.ram@ == Seq::new(RAM_SIZE as nat, |i: int| 0u8),
            r.prg_lower@ == prg_rom.0@,
            r.prg_upper@ == prg_rom.1@,
            r.ppu == ppu,
            r.fault.is_none(),
    {
        let (prg_lower, prg_upper) = prg_rom;
        let ram = vec![0u8; RAM_SIZE];
        proof {
            assert(ram@ =~= Seq::new(RAM_SIZE as nat, |i: int| 0u8));
        }
        Cpu { state: CpuState::new(), ram, prg_lower, prg_upper, ppu, fault: None }
    }

    /// The byte at `addr` on the bus.
    pub fn read_byte(&self, addr: u16) -> (r: u8)
        requires
            self.wf(),
        ensures
            r == self@.read(addr),
    {
        reveal(bus_read);
        if addr < 0x2000 {
            self.ram[(addr % 0x800) as usize]
        } else if addr < 0x4000 {
            let port = addr % 8;
            if port == 2 {
                self.ppu.read_ppu_status()
            } else {
                ((port + 1) * 0x11) as u8
            }
        } else if addr < 0x8000 {
            0x00
        } else if addr < 0xC000 {
            self.prg_lower[(addr - 0x8000) as usize]
        } else {
            self.prg_upper[(addr - 0xC000) as usize]
        }
    }

    /// Writes `v` to `addr` on the bus. RAM is written at `addr & 0x07FF`;
    /// the PPU, APU, expansion and SRAM ports ignore it; a write to `$2002`
    /// or to PRG-ROM is refused.
    pub fn write_byte(&mut self, addr: u16, v: u8) -> (r: Result<(), Fault>)
        requires
            old(self).wf(),
        ensures
            final(self)@ == old(self)@.write(addr, v),
            r == (if write_refused(addr) { Err(Fault::IllegalWrite(addr)) } else { Ok(()) }),
    {
        if addr < 0x2000 {
            self.ram.set((addr % 0x800) as usize, v);
            Ok(())
        } else if addr < 0x4000 {
            if addr % 8 == 2 {
                Err(Fault::IllegalWrite(addr))
            } else {
                Ok(())
            }
        } else if addr < 0x8000 {
            Ok(())
        } else {
            Err(Fault::IllegalWrite(addr))
        }
    }

    /// The little-endian word at `addr`, `addr + 1`.
    pub fn read_addr(&self, addr: u16) -> (r: u16)
        requires
            self.wf(),
        ensures
            r == self@.read_word(addr),
    {
        let lo = self.read_byte(addr);
        let hi = self.read_byte(addr.wrapping_add(1));
        hi as u16 * 0x100 + lo as u16
    }

    /// Loads `PC` from the reset vector at `$FFFC`.
    pub fn reset(&mut self)
        requires
            old(self).wf(),
        ensures
            final(self)@ == old(self)@.with_state(
                CpuState { pc: old(self)@.read_word(0xFFFC), ..old(self).state },
            ),
    {
        self.state.pc = self.read_addr(0xFFFC);
    }

    /// Pushes `v` onto the stack page.
    pub fn push(&mut self, v: u8)
        requires
            old(self).wf(),
        ensures
            final(self)@ == old(self)@.push(v),
    {
        let s = self.state.s;
        self.ram.set(0x100 + s as usize, v);
        self.state.s = s.wrapping_sub(1);
    }

    /// Pops a byte from the stack page.
    pub fn pop(&mut self) -> (r: u8)
        requires
            old(self).wf(),
        ensures
            (final(self)@, r) == old(self)@.pop(),
    {
        self.state.s = self.state.s.wrapping_add(1);
        self.ram[0x100 + self.state.s as usize]
    }

    /// Pushes a word, high byte first.
    pub fn push_addr(&mut self, v: u16)
        requires
            old(self).wf(),
        ensures
            final(self)@ == old(self)@.push_word(v),
    {
        self.push((v / 0x100) as u8);
        self.push((v % 0x100) as u8);
    }

    /// Pops a word, low byte first.
    pub fn pop_addr(&mut self) -> (r: u16)
        requires
            old(self).wf(),
        ensures
            (final(self)@, r) == old(self)@.pop_word(),
    {
        let lo = self.pop();
        let hi = self.pop();
        hi as u16 * 0x100 + lo as u16
    }
    /// Reads the byte at `PC` and moves `PC` past it.
    pub fn read_pc_byte(&mut self) -> (r: u8)
        requires
            old(self).wf(),
        ensures
            r == old(self)@.read(old(self).state.pc),
            final(self)@ == old(self)@.with_pc(add16(old(self).state.pc, 1)),
    {
        let pc = self.state.pc;
        let b = self.read_byte(pc);
        self.state.pc = pc.wrapping_add(1);
        b
    }

    /// Reads the little-endian word at `PC` and moves `PC` past it.
    pub fn read_pc_addr(&mut self) -> (r: u16)
        requires
            old(self).wf(),
        ensures
            r == old(self)@.read_word(old(self).state.pc),
            final(self)@ == old(self)@.with_pc(add16(old(self).state.pc, 2)),
    {
        let lo = self.read_pc_byte();
        let hi = self.read_pc_byte();
        hi as u16 * 0x100 + lo as u16
    }

    /// Fetches and decodes the opcode at `PC`, moving `PC` past it.
    pub fn instr_decode(&mut self) -> (r: Option<Instruction>)
        requires
            old(self).wf(),
        ensures
            r == decode_spec(old(self)@.read(old(self).state.pc)),
            final(self)@ == old(self)@.with_pc(add16(old(self).state.pc, 1)),
    {
        let opcode = self.read_pc_byte();
        decode(opcode)
    }

    /// Reads the operand bytes of `mode` at `PC`, moving `PC` past them, and
    /// returns the effective address and whether indexing crossed a page.
    pub fn instr_mem_addr(&mut self, mode: AddressMode) -> (r: (u16, bool))
        requires
            old(self).wf(),
        ensures
            ({
                let (addr, crossed, pc) = old(self)@.operand_address(old(self).state.pc, mode);
                &&& r == (addr, crossed)
                &&& final(self)@ == old(self)@.with_pc(pc)
            }),
    {
        let x = self.state.x;
        let y = self.state.y;
        match mode {
            AddressMode::IMP | AddressMode::ACC => (0x0000, false),
            AddressMode::IMM | AddressMode::REL | AddressMode::ZP => {
                (self.read_pc_byte() as u16, false)
            },
            AddressMode::ZPX => (self.read_pc_byte().wrapping_add(x) as u16, false),
            AddressMode::ZPY => (self.read_pc_byte().wrapping_add(y) as u16, false),
            AddressMode::ABS => (self.read_pc_addr(), false),
            AddressMode::ABSX => {
                let base = self.read_pc_addr();
                let addr = base.wrapping_add(x as u16);
                (addr, base / 0x100 != addr / 0x100)
            },
            AddressMode::ABSY => {
                let base = self.read_pc_addr();
                let addr = base.wrapping_add(y as u16);
                (addr, base / 0x100 != addr / 0x100)
            },
            AddressMode::IND => {
                let ptr = self.read_pc_addr();
                let lo = self.read_byte(ptr);
                let hi = self.read_byte((ptr / 0x100) * 0x100 + ((ptr % 0x100) as u8).wrapping_add(1) as u16);
                (hi as u16 * 0x100 + lo as u16, false)
            },
            AddressMode::INDX => {
                let zp = self.read_pc_byte().wrapping_add(x);
                (self.read_addr(zp as u16), false)
            },
            AddressMode::INDY => {
                let zp = self.read_pc_byte();
                let base = self.read_addr(zp as u16);
                let addr = base.wrapping_add(y as u16);
                (addr, base / 0x100 != addr / 0x100)
            },
        }
    }

    /// Moves `PC` by `offset` read as a signed byte; returns 1 when `PC`
    /// changed page, else 0.
    pub fn add_pc_rel(&mut self, offset: u8) -> (r: u32)
        requires
            old(self).wf(),
        ensures
            final(self)@ == old(self)@.with_pc(branch_target(old(self).state.pc, offset)),
            r == (if page(old(self).state.pc) != page(branch_target(old(self).state.pc, offset)) {
                1u32
            } else {
                0u32
            }),
    {
        let pc = self.state.pc;
        let target = if offset < 0x80 {
            pc.wrapping_add(offset as u16)
        } else {
            pc.wrapping_sub(0x100 - offset as u16)
        };
        self.state.pc = target;
        if pc / 0x100 != target / 0x100 {
            1
        } else {
            0
        }
    }

    /// Runs branch `instr` with offset byte `offset`; returns its extra
    /// cycles.
    pub fn instr_do_branch(&mut self, instr: Instr, offset: u8) -> (r: u32)
        requires
            old(self).wf(),
            is_branch(instr),
        ensures
            (final(self)@, r) == old(self)@.branch(instr, offset),
    {
        let (flag, is_set) = match instr {
            Instr::BCC => (C_FLAG, false),
            Instr::BCS => (C_FLAG, true),
            Instr::BNE => (Z_FLAG, false),
            Instr::BEQ => (Z_FLAG, true),
            Instr::BPL => (N_FLAG, false),
            Instr::BMI => (N_FLAG, true),
            Instr::BVC => (V_FLAG, false),
            _ => (V_FLAG, true),
        };
        if self.state.p.contains(flag) == is_set {
            1 + self.add_pc_rel(offset)
        } else {
            0
        }
    }

    /// The operand of `instr` at effective address `addr`: `A` in
    /// accumulator mode, the operand byte itself for immediate and relative
    /// modes, the byte on the bus for mnemonics that read memory, else 0.
    pub fn instr_mem_read(&self, addr: u16, instr: Instruction) -> (r: u8)
        requires
            self.wf(),
        ensures
            r == self@.operand(instr, addr),
    {
        let am = instr.address_mode;
        if am == AddressMode::ACC {
            self.state.a
        } else if am == AddressMode::IMM || am == AddressMode::REL {
            (addr % 0x100) as u8
        } else {
            match instr.instr {
                Instr::ADC | Instr::AND | Instr::ASL | Instr::BIT | Instr::CMP | Instr::CPX
                | Instr::CPY | Instr::DEC | Instr::EOR | Instr::INC | Instr::LDA | Instr::LDX
                | Instr::LDY | Instr::LSR | Instr::ORA | Instr::ROL | Instr::ROR | Instr::SBC => {
                    self.read_byte(addr)
                },
                _ => 0,
            }
        }
    }

    /// Writes the result `v` of `instr` back: to `A` in accumulator mode,
    /// else to `addr` for the mnemonics that write memory.
    pub fn instr_mem_write(&mut self, addr: u16, v: u8, instr: Instruction) -> (r: Result<(), Fault>)
        requires
            old(self).wf(),
        ensures
            final(self)@ == old(self)@.write_back(instr, addr, v),
            r == (match write_back_fault(instr, addr) {
                Some(f) => Err(f),
                None => Ok(()),
            }),
    {
        if instr.address_mode == AddressMode::ACC {
            self.state.a = v;
            Ok(())
        } else {
            match instr.instr {
                Instr::ASL | Instr::DEC | Instr::INC | Instr::LSR | Instr::ROL | Instr::ROR
                | Instr::STA | Instr::STX | Instr::STY => self.write_byte(addr, v),
                _ => Ok(()),
            }
        }
    }
    /// Runs mnemonic `instr` on operand `m` and returns the result byte to
    /// write back (0 where there is none).
    pub fn instr_exec(&mut self, instr: Instr, m: u8) -> (r: u8)
        requires
            old(self).wf(),
        ensures
            (final(self)@, r) == old(self)@.exec(instr, m),
            final(self).wf(),
            final(self).fault == old(self).fault,
    {
        proof {
            reveal(Machine::exec);
            reveal(bus_read);
        }
        let a = self.state.a;
        let x = self.state.x;
        let y = self.state.y;
        let s = self.state.s;
        let p = self.state.p;
        let carry: u8 = if p.contains(C_FLAG) { 1 } else { 0 };
        let mut out: u8 = 0;
        match instr {
            Instr::LDA => {
                self.state.a = m;
                self.state.p.set_zn(m);
            },
            Instr::LDX => {
                self.state.x = m;
                self.state.p.set_zn(m);
            },
            Instr::LDY => {
                self.state.y = m;
                self.state.p.set_zn(m);
            },
            Instr::STA => {
                out = a;
            },
            Instr::STX => {
                out = x;
            },
            Instr::STY => {
                out = y;
            },
            Instr::ADC => {
                let sum: u16 = a as u16 + m as u16 + carry as u16;
                self.state.p.set_c(sum);
                let r = (sum % 0x100) as u8;
                self.state.p.set_v(a, m, r);
                self.state.p.set_zn(r);
                self.state.a = r;
            },
            Instr::SBC => {
                // A - M is A + !M + C: the carry is the inverted borrow.
                let sum: u16 = a as u16 + !m as u16 + carry as u16;
                self.state.p.set_c(sum);
                let r = (sum % 0x100) as u8;
                self.state.p.set_v(r, m, a);
                self.state.p.set_zn(r);
                self.state.a = r;
            },
            Instr::INC => {
                out = m.wrapping_add(1);
                self.state.p.set_zn(out);
            },
            Instr::DEC => {
                out = m.wrapping_sub(1);
                self.state.p.set_zn(out);
            },
            Instr::INX => {
                self.state.x = x.wrapping_add(1);
                self.state.p.set_zn(self.state.x);
            },
            Instr::INY => {
                self.state.y = y.wrapping_add(1);
                self.state.p.set_zn(self.state.y);
            },
            Instr::DEX => {
                self.state.x = x.wrapping_sub(1);
                self.state.p.set_zn(self.state.x);
            },
            Instr::DEY => {
                self.state.y = y.wrapping_sub(1);
                self.state.p.set_zn(self.state.y);
            },
            Instr::ASL => {
                let v: u16 = m as u16 * 2;
                self.state.p.set_c(v);
                out = (v % 0x100) as u8;
                self.state.p.set_zn(out);
            },
            Instr::LSR => {
                self.state.p.set_flag(C_FLAG, m % 2 == 1);
                out = m / 2;
                self.state.p.set_zn(out);
            },
            Instr::ROL => {
                let v: u16 = m as u16 * 2;
                out = (v % 0x100 + carry as u16) as u8;
                self.state.p.set_c(v);
                self.state.p.set_zn(out);
            },
            Instr::ROR => {
                out = (m / 2 + carry * 0x80) as u8;
                self.state.p.set_flag(C_FLAG, m % 2 == 1);
                self.state.p.set_zn(out);
            },
            Instr::AND => {
                self.state.a = a & m;
                self.state.p.set_zn(a & m);
            },
            Instr::ORA => {
                self.state.a = a | m;
                self.state.p.set_zn(a | m);
            },
            Instr::EOR => {
                self.state.a = a ^ m;
                self.state.p.set_zn(a ^ m);
            },
            Instr::CMP => {
                let v: u16 = a as u16 + !m as u16 + 1;
                self.state.p.set_c(v);
                self.state.p.set_zn((v % 0x100) as u8);
            },
            Instr::CPX => {
                let v: u16 = x as u16 + !m as u16 + 1;
                self.state.p.set_c(v);
                self.state.p.set_zn((v % 0x100) as u8);
            },
            Instr::CPY => {
                let v: u16 = y as u16 + !m as u16 + 1;
                self.state.p.set_c(v);
                self.state.p.set_zn((v % 0x100) as u8);
            },
            Instr::BIT => {
                self.state.p.set_flag(Z_FLAG, a & m == 0);
                self.state.p.set_flag(N_FLAG, m >= 0x80);
                self.state.p.set_flag(V_FLAG, (m / 0x40) % 2 == 1);
            },
            Instr::TAX => {
                self.state.x = a;
                self.state.p.set_zn(a);
            },
            Instr::TXA => {
                self.state.a = x;
                self.state.p.set_zn(x);
            },
            Instr::TAY => {
                self.state.y = a;
                self.state.p.set_zn(a);
            },
            Instr::TYA => {
                self.state.a = y;
                self.state.p.set_zn(y);
            },
            Instr::TSX => {
                self.state.x = s;
                self.state.p.set_zn(s);
            },
            Instr::TXS => {
                self.state.s = x;
                self.state.p.set_zn(x);
            },
            Instr::PHA => {
                self.push(a);
            },
            Instr::PLA => {
                let v = self.pop();
                self.state.a = v;
                self.state.p.set_zn(v);
            },
            Instr::PHP => {
                self.push(p.bits | B_FLAG | X_FLAG);
            },
            Instr::PLP => {
                let v = self.pop();
                self.state.p = CpuFlags { bits: v };
            },
            Instr::RTS => {
                let w = self.pop_addr();
                self.state.pc = w.wrapping_add(1);
            },
            Instr::RTI => {
                let v = self.pop();
                self.state.p = CpuFlags { bits: v };
                self.state.pc = self.pop_addr();
            },
            Instr::SEC => {
                self.state.p.insert(C_FLAG);
            },
            Instr::SED => {
                self.state.p.insert(D_FLAG);
            },
            Instr::SEI => {
                self.state.p.insert(I_FLAG);
            },
            Instr::CLC => {
                self.state.p.remove(C_FLAG);
            },
            Instr::CLI => {
                self.state.p.remove(I_FLAG);
            },
            Instr::CLV => {
                self.state.p.remove(V_FLAG);
            },
            Instr::BRK => {
                let ret = self.state.pc.wrapping_add(1);
                self.push_addr(ret);
                self.push(p.bits | B_FLAG);
                self.state.p.insert(I_FLAG);
                self.state.pc = self.read_addr(0xFFFE);
            },
            // CLD has no effect on the 2A03; NOP does nothing; JMP, JSR and
            // the branches are run by the step itself.
            _ => {},
        }
        out
    }
    /// Executes one instruction and returns its cost in cycles: fetch,
    /// decode, effective address, operand, execute, write back.
    pub fn instr_run(&mut self) -> (r: u32)
        requires
            old(self).wf(),
        ensures
            (final(self)@, r) == old(self)@.step(),
            final(self).wf(),
            2 <= r <= 10,
    {
        reveal(Machine::step);
        self.fault = None;
        let opcode = self.read_pc_byte();
        match decode(opcode) {
            Some(instr) => self.run_decoded(instr),
            None => {
                self.fault = Some(Fault::DecodeFailure(opcode));
                2
            },
        }
    }

    fn run_decoded(&mut self, instr: Instruction) -> (r: u32)
        requires
            old(self).wf(),
            2 <= instr.cycles <= 7,
        ensures
            (final(self)@, r) == old(self)@.run_decoded(instr),
            final(self).wf(),
            2 <= r <= 10,
    {
        let (addr, crossed) = self.instr_mem_addr(instr.address_mode);
        let mut extra: u32 = 0;
        if crossed {
            extra = match instr.instr {
                Instr::ADC | Instr::AND | Instr::CMP | Instr::EOR | Instr::LDA | Instr::LDX
                | Instr::LDY | Instr::ORA | Instr::SBC => 1,
                _ => 0,
            };
        }
        match instr.instr {
            Instr::JMP => {
                self.state.pc = addr;
            },
            Instr::JSR => {
                let ret = self.state.pc.wrapping_sub(1);
                self.push_addr(ret);
                self.state.pc = addr;
            },
            Instr::BCC | Instr::BCS | Instr::BEQ | Instr::BMI | Instr::BNE | Instr::BPL
            | Instr::BVC | Instr::BVS => {
                let offset = self.instr_mem_read(addr, instr);
                extra = extra + self.instr_do_branch(instr.instr, offset);
            },
            _ => {
                self.exec_write_back(addr, instr);
            },
        }
        instr.cycles + extra
    }

    fn exec_write_back(&mut self, addr: u16, instr: Instruction)
        requires
            old(self).wf(),
        ensures
            final(self)@ == old(self)@.exec_write_back(instr, addr),
            final(self).wf(),
    {
        let m = self.instr_mem_read(addr, instr);
        let out = self.instr_exec(instr.instr, m);
        match self.instr_mem_write(addr, out, instr) {
            Err(f) => {
                self.fault = Some(f);
            },
            Ok(()) => {
                self.fault = None;
            },
        }
    }
    /// Steps until `cycles`, less each step's cost, is at most 0, or until a
    /// step writes to PRG-ROM, which is fatal and returned as the error. At
    /// least one step runs; `cycles` may end below 0, and the caller carries
    /// the deficit into the next call.
    pub fn run_cycles(&mut self, cycles: &mut i32) -> (r: Result<(), Fault>)
        requires
            old(self).wf(),
            *old(cycles) >= i32::MIN + 10,
        ensures
            final(self).wf(),
            exists|n: nat|
                {
                    &&& #[trigger] old(self)@.runs_for(*old(cycles) as int, n)
                    &&& final(self)@ == old(self)@.steps(n).0
                    &&& *final(cycles) == *old(cycles) - old(self)@.steps(n).1
                },
            r == (if is_fatal(final(self).fault) {
                Err(final(self).fault.unwrap())
            } else {
                Ok(())
            }),
    {
        let ghost start = self@;
        let ghost budget = *cycles as int;
        let ghost mut n: nat = 0;
        loop
            invariant
                start == old(self)@,
                budget == *old(cycles) as int,
                self.wf(),
                self@ == start.steps(n).0,
                *cycles == budget - start.steps(n).1,
                forall|k: nat| 1 <= k <= n ==> budget - #[trigger] start.steps(k).1 > 0
                    && !is_fatal(start.steps(k).0.fault),
                n == 0 ==> *cycles == budget,
                n > 0 ==> *cycles > 0,
                *cycles >= i32::MIN + 10,
            decreases
                if n == 0 { i32::MAX as int + 1 } else { *cycles as int },
        {
            let c = self.instr_run();
            *cycles = *cycles - c as i32;
            proof {
                n = n + 1;
                assert(start.steps(n) == (self@, start.steps((n - 1) as nat).1 + c));
            }
            if is_fatal_fault(&self.fault) {
                assert(start.runs_for(budget, n));
                return Err(self.fault.unwrap());
            }
            if *cycles <= 0 {
                assert(start.runs_for(budget, n));
                return Ok(());
            }
        }
    }
}

} // verus!
