//! Laws of the interpreter, stated over the machine model and proved.
use vstd::prelude::*;
use crate::cpu::{
    Machine, add8, add16, branch_target, page, writes_memory,
};
use crate::decode::{AddressMode, Instr, Instruction, decode_spec, opcode_table};
use crate::flags::{C_FLAG, N_FLAG, V_FLAG, Z_FLAG, lemma_setters};

verus! {

/// Where the result of a mnemonic that sets Z and N from it ends up: a
/// register, or the byte written back.
pub open spec fn zn_destination(after: Machine, out: u8, i: Instr) -> Option<u8> {
    match i {
        Instr::ADC | Instr::SBC | Instr::AND | Instr::ORA | Instr::EOR | Instr::LDA | Instr::TXA
        | Instr::TYA | Instr::PLA => Some(after.state.a),
        Instr::LDX | Instr::INX | Instr::DEX | Instr::TAX | Instr::TSX => Some(after.state.x),
        Instr::LDY | Instr::INY | Instr::DEY | Instr::TAY => Some(after.state.y),
        Instr::TXS => Some(after.state.s),
        Instr::INC | Instr::DEC | Instr::ASL | Instr::LSR | Instr::ROL | Instr::ROR => Some(out),
        _ => None,
    }
}

/// The stack slot `$0100 | S` is always a RAM index.
pub proof fn law_stack_slot_in_ram(m: Machine)
    requires
        m.wf(),
    ensures
        0x100 <= 0x100 + m.state.s < m.ram.len(),
        0x100 + m.state.s < 0x200,
{
}

proof fn lemma_exec_keeps(m: Machine, i: Instr, v: u8)
    requires
        m.wf(),
    ensures
        m.exec(i, v).0.wf(),
        m.state.p.always_on() && i != Instr::PLP && i != Instr::RTI ==> m.exec(i, v).0.state.p.always_on(),
{
    reveal(Machine::exec);
    lemma_setters();
}

proof fn lemma_run_decoded_keeps(m: Machine, ins: Instruction)
    requires
        m.wf(),
    ensures
        m.run_decoded(ins).0.wf(),
        m.state.p.always_on() && ins.instr != Instr::PLP && ins.instr != Instr::RTI
            ==> m.run_decoded(ins).0.state.p.always_on(),
{
    let (addr, crossed, pc) = m.operand_address(m.state.pc, ins.address_mode);
    let m1 = m.with_pc(pc);
    lemma_exec_keeps(m1, ins.instr, m1.operand(ins, addr));
}

/// Every step keeps the sizes of RAM and of the ROM banks.
pub proof fn law_step_keeps_wf(m: Machine)
    requires
        m.wf(),
    ensures
        m.step().0.wf(),
{
    reveal(Machine::step);
    if let Some(ins) = decode_spec(m.read(m.state.pc)) {
        lemma_run_decoded_keeps(Machine { fault: None, ..m }.with_pc(add16(m.state.pc, 1)), ins);
    }
}

/// Bits 3 and 5 of `P` stay set through every instruction but PLP and RTI,
/// which load `P` whole from the stack.
pub proof fn law_always_on_bits_kept(m: Machine)
    requires
        m.wf(),
        m.state.p.always_on(),
        !(decode_spec(m.read(m.state.pc)) matches Some(ins) && (ins.instr == Instr::PLP
            || ins.instr == Instr::RTI)),
    ensures
        m.step().0.state.p.always_on(),
{
    reveal(Machine::step);
    if let Some(ins) = decode_spec(m.read(m.state.pc)) {
        lemma_run_decoded_keeps(Machine { fault: None, ..m }.with_pc(add16(m.state.pc, 1)), ins);
    }
}

/// After an arithmetic, logic, load, transfer or pull instruction, Z tells
/// whether its destination is 0 and N is bit 7 of the destination.
pub proof fn law_zn_follow_destination(m: Machine, i: Instr, v: u8)
    ensures
        ({
            let (after, out) = m.exec(i, v);
            zn_destination(after, out, i) matches Some(d) ==> {
                &&& (after.state.p.has(Z_FLAG) <==> d == 0)
                &&& (after.state.p.has(N_FLAG) <==> d >= 0x80)
            }
        }),
{
    reveal(Machine::exec);
    lemma_setters();
}

/// ADC of `v` with carry `c` into `a`: the result is `a + v + c` modulo 256,
/// C is set iff `a + v + c >= 256`, and V is set iff `a` and `v` have the
/// same sign and the result another.
pub proof fn law_adc(m: Machine, v: u8)
    ensures
        ({
            let a = m.state.a;
            let c = m.carry();
            let after = m.exec(Instr::ADC, v).0;
            let r = after.state.a;
            &&& r as int == (a + v + c) % 256
            &&& (after.state.p.has(C_FLAG) <==> a + v + c >= 256)
            &&& (after.state.p.has(V_FLAG) <==> (a >= 0x80) == (v >= 0x80) && (a >= 0x80) != (r
                >= 0x80))
        }),
{
    reveal(Machine::exec);
    lemma_setters();
    let a = m.state.a;
    let r = m.exec(Instr::ADC, v).0.state.a;
    assert(((a ^ r) & (v ^ r)) & 0x80 == 0x80 <==> (a >= 0x80) == (v >= 0x80) && (a >= 0x80) != (
    r >= 0x80)) by (bit_vector);
}

/// A word pushed and popped comes back, with `S` where it was.
pub proof fn law_push_pop_word(m: Machine, v: u16)
    requires
        m.wf(),
    ensures
        m.push_word(v).pop_word().1 == v,
        m.push_word(v).pop_word().0.state == m.state,
{
}

/// PHA then PLA leaves `A` and `S` as they were, with Z and N set from `A`.
pub proof fn law_pha_pla(m: Machine, v1: u8, v2: u8)
    requires
        m.wf(),
    ensures
        ({
            let after = m.exec(Instr::PHA, v1).0.exec(Instr::PLA, v2).0;
            &&& after.state.a == m.state.a
            &&& after.state.s == m.state.s
            &&& (after.state.p.has(Z_FLAG) <==> m.state.a == 0)
            &&& (after.state.p.has(N_FLAG) <==> m.state.a >= 0x80)
        }),
{
    reveal(Machine::exec);
    lemma_setters();
}

/// CLC twice is CLC once.
pub proof fn law_clc_idempotent(m: Machine, v1: u8, v2: u8)
    ensures
        m.exec(Instr::CLC, v1).0.exec(Instr::CLC, v2).0 == m.exec(Instr::CLC, v1).0,
{
    reveal(Machine::exec);
    let p = m.state.p.bits;
    assert((p & !C_FLAG) & !C_FLAG == p & !C_FLAG) by (bit_vector);
}

/// A NOP moves `PC` past itself, costs two cycles and changes nothing else.
pub proof fn law_nop(m: Machine)
    requires
        m.wf(),
        m.read(m.state.pc) == 0xEA,
    ensures
        m.step() == (Machine { fault: None, ..m }.with_pc(add16(m.state.pc, 1)), 2u32),
{
    reveal(Machine::step);
    reveal(Machine::exec);
    reveal(opcode_table);
}

/// A result written back to an address in `$0000-$1FFF` lands in RAM at
/// `addr & 0x07FF`, and every mirror of that address reads it.
pub proof fn law_ram_write_mirrored(m: Machine, ins: Instruction, addr: u16, v: u8)
    requires
        m.wf(),
        addr < 0x2000,
        writes_memory(ins.instr),
        ins.address_mode != AddressMode::ACC,
    ensures
        m.write_back(ins, addr, v).ram[(addr & 0x07FF) as int] == v,
        forall|b: u16|
            b < 0x2000 && b & 0x07FF == addr & 0x07FF ==> #[trigger] m.write_back(ins, addr, v).read(b)
                == v,
{
    reveal(crate::cpu::bus_read);
    assert(forall|b: u16| #[trigger] (b & 0x07FF) == b % 0x800) by (bit_vector);
}

/// Zero-page indexing wraps within the zero page.
pub proof fn law_zero_page_indexing_wraps(m: Machine, pc: u16)
    ensures
        ({
            let (addr, crossed, _) = m.operand_address(pc, AddressMode::ZPX);
            addr as int == (m.read(pc) + m.state.x) % 256 && !crossed
        }),
        ({
            let (addr, crossed, _) = m.operand_address(pc, AddressMode::ZPY);
            addr as int == (m.read(pc) + m.state.y) % 256 && !crossed
        }),
{
    let b = m.read(pc);
    assert(m.operand_address(pc, AddressMode::ZPX) == (add8(b, m.state.x) as u16, false, add16(pc, 1)));
    assert(m.operand_address(pc, AddressMode::ZPY) == (add8(b, m.state.y) as u16, false, add16(pc, 1)));
}

/// Absolute indexing wraps modulo 65536 and reports a page crossing iff
/// the high byte changed.
pub proof fn law_absolute_indexing(m: Machine, pc: u16)
    ensures
        ({
            let base = m.read_word(pc);
            let (addr, crossed, _) = m.operand_address(pc, AddressMode::ABSX);
            &&& addr as int == (base + m.state.x) % 0x10000
            &&& (crossed <==> base / 0x100 != addr / 0x100)
        }),
        ({
            let base = m.read_word(pc);
            let (addr, crossed, _) = m.operand_address(pc, AddressMode::ABSY);
            &&& addr as int == (base + m.state.y) % 0x10000
            &&& (crossed <==> base / 0x100 != addr / 0x100)
        }),
{
    let base = m.read_word(pc);
    let x = m.state.x as u16;
    let y = m.state.y as u16;
    assert(m.operand_address(pc, AddressMode::ABSX) == (add16(base, x), page(base) != page(
        add16(base, x),
    ), add16(pc, 2)));
    assert(m.operand_address(pc, AddressMode::ABSY) == (add16(base, y), page(base) != page(
        add16(base, y),
    ), add16(pc, 2)));
}

/// The offset of a branch is a signed byte: `PC` moves by it modulo 65536.
pub proof fn law_branch_offset_signed(pc: u16, offset: u8)
    ensures
        branch_target(pc, offset) as int == (pc + (if offset < 0x80 { offset as int } else {
            offset - 0x100
        })) % 0x10000,
{
}

/// A taken branch costs one cycle, and one more when `PC` lands on another
/// page; one not taken costs nothing and leaves the machine as it was.
pub proof fn law_branch_cycles(m: Machine, i: Instr, offset: u8)
    ensures
        ({
            let (after, extra) = m.branch(i, offset);
            let target = branch_target(m.state.pc, offset);
            if crate::cpu::branch_taken(m.state.p, i) {
                &&& after.state.pc == target
                &&& extra == 1 + (if page(m.state.pc) != page(target) { 1u32 } else { 0u32 })
            } else {
                after == m && extra == 0
            }
        }),
{
}

} // verus!
