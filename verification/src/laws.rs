//! Machine-wide laws: properties of the specification interpreter that hold
//! for every machine state, proved once and for all.

use vstd::prelude::*;
use crate::bus::BusView;
use crate::bus::spec_mem_read;
use crate::bus::spec_mem_read_val;
use crate::bus::spec_mem_write;
use crate::bus::BusFault;
use crate::bus::spec_latch_fault;
use crate::bus::spec_bus_tick;
use crate::bus::spec_bus_stall;
use crate::bus::spec_dma_bus;
use crate::bus::spec_dma_bytes;
use crate::ppu::spec_ppu_tick;
use crate::ppu::spec_oam_dma;
use crate::cpu::CpuView;
use crate::cpu::F_BREAK;
use crate::cpu::F_CARRY;
use crate::cpu::F_NEG;
use crate::cpu::F_OVRFLW;
use crate::cpu::F_ZERO;
use crate::cpu::spec_adc_alu;
use crate::cpu::spec_sbc_alu;
use crate::cpu::spec_asl_acc;
use crate::cpu::spec_lsr_acc;
use crate::cpu::spec_compare;
use crate::cpu::spec_jmp_indirect;
use crate::cpu::spec_pha;
use crate::cpu::spec_php;
use crate::cpu::spec_pla;
use crate::cpu::spec_plp;
use crate::cpu::spec_pop;
use crate::cpu::spec_pop_val;
use crate::cpu::spec_push;
use crate::cpu::spec_read16_bus;
use crate::cpu::spec_read16_val;
use crate::cpu::spec_set_flag;
use crate::cpu::spec_zn;
use crate::cpu::spec_operand_bus;
use crate::cpu::spec_operand_val;
use crate::cpu::spec_operand_fetch_bus;
use crate::cpu::spec_abs_addr_bus;
use crate::cpu::spec_abs_addr_val;
use crate::cpu::spec_after_nmi;
use crate::cpu::spec_dispatch;
use crate::cpu::spec_page_crossed;
use crate::cpu::spec_step;
use crate::cpu::spec_branch;
use crate::cpu::AddressingMode;
use crate::ops::Mnemonic;
use crate::ops::spec_op;
use crate::ops::lemma_op_table_shape;

verus! {

/// A byte within the low mirror of RAM is untouched by masking.
proof fn lemma_u16_low_mask_id(a: u16)
    by (bit_vector)
    ensures
        a <= 0x7FF ==> a & 0x7FF == a,
        (a & 0x7FF) <= 0x1FFF,
        (a & 0x7FF) & 0x7FF == a & 0x7FF,
{
}

/// Reading `flag` back out of a status byte that `spec_set_flag` just wrote
/// gives the value written, for any single-bit (or multi-bit) mask.
pub proof fn lemma_set_flag_reads(p: u8, flag: u8, on: bool)
    by (bit_vector)
    requires
        flag != 0,
    ensures
        (spec_set_flag(p, flag, on) & flag != 0) == on,
{
}

/// Setting one flag leaves the bits of a disjoint mask alone.
pub proof fn lemma_set_flag_other(p: u8, flag: u8, other: u8, on: bool)
    by (bit_vector)
    requires
        flag & other == 0,
    ensures
        spec_set_flag(p, flag, on) & other == p & other,
{
}

/// The zero and negative flags always describe the result byte they were
/// computed from: Z exactly when the result is zero, N exactly when its top
/// bit is set.
pub proof fn lemma_zero_negative_flags(p: u8, r: u8)
    by (bit_vector)
    ensures
        (spec_zn(p, r) & F_ZERO != 0) <==> r == 0,
        (spec_zn(p, r) & F_NEG != 0) <==> (r & 0x80 != 0),
{
}

/// After a compare of `reg` against a fetched byte, carry is set exactly
/// when the register is at least the byte, and zero exactly on equality.
pub proof fn lemma_compare_flags(m: CpuView, mode: crate::cpu::AddressingMode, reg: u8)
    ensures
        ({
            let v = crate::cpu::spec_operand_fetch_val(m, mode);
            let p2 = spec_compare(m, mode, reg).p;
            &&& ((p2 & F_CARRY != 0) <==> reg >= v)
            &&& ((p2 & F_ZERO != 0) <==> reg == v)
        }),
{
    reveal(spec_compare);
    let v = crate::cpu::spec_operand_fetch_val(m, mode);
    let p1 = spec_zn(m.p, reg.wrapping_sub(v));
    lemma_set_flag_reads(p1, F_CARRY, reg >= v);
    lemma_zero_negative_flags(m.p, reg.wrapping_sub(v));
    assert(F_CARRY & F_ZERO == 0) by (bit_vector);
    lemma_set_flag_other(p1, F_CARRY, F_ZERO, reg >= v);
    assert(reg.wrapping_sub(v) == 0 <==> reg == v) by (bit_vector);
}

/// The add-with-carry obeys the two's-complement overflow rule: overflow is
/// set exactly when the operands agree in sign and the result does not, and
/// the result byte is the binary sum of accumulator, operand and carry-in.
pub proof fn lemma_adc_overflow(a: u8, p: u8, v: u8)
    by (bit_vector)
    ensures
        ({
            let cin: u8 = if p & F_CARRY != 0 {
                1
            } else {
                0
            };
            let r = spec_adc_alu(a, p, v).0;
            let pp = spec_adc_alu(a, p, v).1;
            &&& r == (a + v + cin) % 256
            &&& ((pp & F_OVRFLW != 0) <==> ((a ^ r) & (v ^ r) & 0x80 != 0))
            &&& ((pp & F_CARRY != 0) <==> a + v + cin > 255)
        }),
{
}

/// Subtract-with-borrow is add-with-carry of the complemented operand, in
/// the result byte and in every flag.
pub proof fn lemma_sbc_is_adc_of_complement(a: u8, p: u8, v: u8)
    ensures
        spec_sbc_alu(a, p, v) == spec_adc_alu(a, p, !v),
{
}

/// Pushing a byte and popping it back recovers the byte and the stack
/// pointer, which moves within page one modulo 256.
pub proof fn lemma_stack_push_pop(m: CpuView, data: u8)
    requires
        m.wf(),
    ensures
        spec_pop_val(spec_push(m, data)) == data,
        spec_pop(spec_push(m, data)).sp == m.sp,
        spec_push(m, data).sp == m.sp.wrapping_sub(1),
{
    reveal(spec_mem_read_val);
    reveal(spec_mem_write);
    let slot: u16 = (0x100 + m.sp) as u16;
    lemma_u16_low_mask_id(slot);
    assert(m.sp.wrapping_sub(1).wrapping_add(1) == m.sp);
}

/// Pushing the accumulator and pulling it back restores the accumulator and
/// sets the zero and negative flags from its value.
pub proof fn lemma_pha_pla(m: CpuView)
    requires
        m.wf(),
    ensures
        ({
            let m2 = spec_pla(spec_pha(m));
            &&& m2.a == m.a
            &&& m2.sp == m.sp
            &&& ((m2.p & F_ZERO != 0) <==> m.a == 0)
            &&& ((m2.p & F_NEG != 0) <==> (m.a & 0x80 != 0))
        }),
{
    reveal(spec_pha);
    reveal(spec_pla);
    lemma_stack_push_pop(m, m.a);
    lemma_zero_negative_flags(m.p, m.a);
}

/// Pushing the status and pulling it back restores the status byte exactly:
/// the break bits injected into the pushed copy are masked out again, and
/// the live register's break region (never meaningful) is carried over.
pub proof fn lemma_php_plp(m: CpuView)
    requires
        m.wf(),
    ensures
        spec_plp(spec_php(m)).p == m.p,
        spec_plp(spec_php(m)).sp == m.sp,
{
    reveal(spec_php);
    reveal(spec_plp);
    lemma_stack_push_pop(m, m.p | F_BREAK);
    let p = m.p;
    assert(((p | 0x30) & !0x30u8) | (p & 0x30) == p) by (bit_vector);
}

/// A shift right followed by a shift left recovers the accumulator with its
/// low bit cleared; the opposite order recovers it with its high bit
/// cleared.  Neither shift consumes the carry, so no carry-in is involved.
pub proof fn lemma_lsr_asl_round_trip(m: CpuView)
    ensures
        spec_asl_acc(spec_lsr_acc(m)).a == m.a & 0xFE,
        spec_lsr_acc(spec_asl_acc(m)).a == m.a & 0x7F,
{
    let a = m.a;
    assert((a >> 1) << 1 == a & 0xFE) by (bit_vector);
    assert((a << 1) >> 1 == a & 0x7F) by (bit_vector);
}

/// RAM is mirrored: every address below 0x2000 reads the same byte as its
/// image in the first 2 KiB.
pub proof fn lemma_ram_mirror(b: BusView, addr: u16)
    requires
        addr <= 0x1FFF,
    ensures
        spec_mem_read_val(b, addr) == spec_mem_read_val(b, addr & 0x07FF),
{
    reveal(spec_mem_read_val);
    lemma_u16_low_mask_id(addr);
}

/// A store into the read-only cartridge window never lands: the memory is
/// untouched and the fault is latched for the host, which is the closest a
/// non-panicking machine comes to the map's "fatal" disposition.
pub proof fn lemma_prg_rom_write_faults(b: BusView, addr: u16, data: u8)
    requires
        0x8000 <= addr,
    ensures
        spec_mem_write(b, addr, data) == (BusView {
            fault: spec_latch_fault(b.fault, BusFault::PrgRomWrite),
            ..b
        }),
        spec_mem_write(b, addr, data).fault is Some,
{
    reveal(spec_mem_write);
}

/// One clock step does exactly what the fan-out promises: the cycle counter
/// grows by the cycles spent, the picture unit advances three dots per
/// cycle, and the frame flag rises exactly when the picture interrupt did.
pub proof fn lemma_bus_tick_accounting(b: BusView, c: u8)
    requires
        b.cycles + c <= u64::MAX,
    ensures
        spec_bus_tick(b, c).cycles == b.cycles + c,
        spec_bus_tick(b, c).ppu == spec_ppu_tick(b.ppu, (c * 3) as u8),
        spec_bus_tick(b, c).frame_pending == (b.frame_pending || (b.ppu.nmi_interrupt is None
            && spec_ppu_tick(b.ppu, (c * 3) as u8).nmi_interrupt is Some)),
        spec_bus_tick(b, c).ram == b.ram,
        spec_bus_tick(b, c).fault == b.fault,
{
    reveal(spec_bus_tick);
}

/// Reads never consume cycles, whatever device they land on.
pub proof fn lemma_mem_read_keeps_cycles(b: BusView, addr: u16)
    ensures
        spec_mem_read(b, addr).cycles == b.cycles,
        spec_mem_read(b, addr).fault == b.fault,
{
    reveal(spec_mem_read);
}

/// The 256 reads of an object attribute transfer consume no cycles either.
pub proof fn lemma_dma_reads_keep_cycles(b: BusView, hi: u16, n: nat)
    ensures
        spec_dma_bus(b, hi, n).cycles == b.cycles,
    decreases n,
{
    if n > 0 {
        lemma_dma_reads_keep_cycles(b, hi, (n - 1) as nat);
        lemma_mem_read_keeps_cycles(spec_dma_bus(b, hi, (n - 1) as nat), (hi + n - 1) as u16);
    }
}

/// A run of single-cycle clock steps adds exactly its length.
pub proof fn lemma_bus_stall_cycles(b: BusView, n: nat)
    requires
        b.cycles + n <= u64::MAX,
    ensures
        spec_bus_stall(b, n).cycles == b.cycles + n,
    decreases n,
{
    reveal(spec_bus_tick);
    if n > 0 {
        lemma_bus_stall_cycles(b, (n - 1) as nat);
    }
}

/// The object attribute transfer stalls the clock by exactly 513 cycles,
/// or 514 when it starts on an odd cycle: the direct-memory contribution of
/// the cycle-accounting law.
pub proof fn lemma_dma_write_stall(b: BusView, data: u8)
    requires
        b.cycles + 514 <= u64::MAX,
    ensures
        spec_mem_write(b, 0x4014, data).cycles == b.cycles + (if b.cycles % 2 == 1 {
            514nat
        } else {
            513nat
        }),
{
    reveal(spec_mem_write);
    let hi = (data as u16) << 8;
    lemma_dma_reads_keep_cycles(b, hi, 256);
    let after_reads = spec_dma_bus(b, hi, 256);
    let after_oam = BusView {
        ppu: spec_oam_dma(after_reads.ppu, spec_dma_bytes(b, hi, 256), 256),
        ..after_reads
    };
    if after_oam.cycles % 2 == 1 {
        lemma_bus_stall_cycles(after_oam, 514);
    } else {
        lemma_bus_stall_cycles(after_oam, 513);
    }
}

/// The extra cycle an operand resolution spends when indexing crosses a
/// page: one for the indexed absolute and indirect-indexed modes when the
/// final address leaves the base's page, zero otherwise.
pub open spec fn spec_cross_extra(m: CpuView, mode: AddressingMode) -> nat {
    match mode {
        AddressingMode::Absolute_X | AddressingMode::Absolute_Y => {
            let base = spec_read16_val(m.bus, m.pc);
            let m1 = m.with_bus(crate::cpu::spec_read16_bus(m.bus, m.pc));
            let addr = spec_abs_addr_val(m1, mode, m.pc);
            if spec_page_crossed(base, addr) {
                1
            } else {
                0
            }
        },
        AddressingMode::Indirect_Y => {
            let base = spec_mem_read_val(m.bus, m.pc);
            let b1 = spec_mem_read(m.bus, m.pc);
            let lo = spec_mem_read_val(b1, base as u16);
            let b2 = spec_mem_read(b1, base as u16);
            let hi = spec_mem_read_val(b2, base.wrapping_add(1) as u16);
            let b3 = spec_mem_read(b2, base.wrapping_add(1) as u16);
            let deref_base = (hi as u16) << 8 | lo as u16;
            let m1 = m.with_bus(b3);
            let addr = spec_abs_addr_val(m1, mode, m.pc);
            if spec_page_crossed(deref_base, addr) {
                1
            } else {
                0
            }
        },
        _ => 0,
    }
}

/// An addressing-mode resolution alone (reads only) consumes no cycles.
pub proof fn lemma_abs_addr_keeps_cycles(m: CpuView, mode: AddressingMode, addr: u16)
    ensures
        spec_abs_addr_bus(m, mode, addr).cycles == m.bus.cycles,
{
    lemma_mem_read_keeps_cycles(m.bus, addr);
    lemma_mem_read_keeps_cycles(spec_mem_read(m.bus, addr), addr.wrapping_add(1));
    match mode {
        AddressingMode::Indirect_X => {
            let base = spec_mem_read_val(m.bus, addr);
            let b1 = spec_mem_read(m.bus, addr);
            let ptr = base.wrapping_add(m.x);
            lemma_mem_read_keeps_cycles(b1, ptr as u16);
            lemma_mem_read_keeps_cycles(spec_mem_read(b1, ptr as u16),
                ptr.wrapping_add(1) as u16);
        },
        AddressingMode::Indirect_Y => {
            let base = spec_mem_read_val(m.bus, addr);
            let b1 = spec_mem_read(m.bus, addr);
            lemma_mem_read_keeps_cycles(b1, base as u16);
            lemma_mem_read_keeps_cycles(spec_mem_read(b1, base as u16),
                base.wrapping_add(1) as u16);
        },
        _ => {
        },
    }
}

/// An operand resolution consumes exactly its page-cross surcharge.
pub proof fn lemma_operand_cycles(m: CpuView, mode: AddressingMode)
    requires
        m.bus.cycles + 1 <= u64::MAX,
    ensures
        spec_operand_bus(m, mode).cycles == m.bus.cycles + spec_cross_extra(m, mode),
{
    lemma_mem_read_keeps_cycles(m.bus, m.pc);
    lemma_mem_read_keeps_cycles(spec_mem_read(m.bus, m.pc), m.pc.wrapping_add(1));
    match mode {
        AddressingMode::Absolute_X | AddressingMode::Absolute_Y => {
            let m1 = m.with_bus(crate::cpu::spec_read16_bus(m.bus, m.pc));
            lemma_abs_addr_keeps_cycles(m1, mode, m.pc);
            lemma_bus_tick_accounting(spec_abs_addr_bus(m1, mode, m.pc), 1);
        },
        AddressingMode::Indirect_Y => {
            let base = spec_mem_read_val(m.bus, m.pc);
            let b1 = spec_mem_read(m.bus, m.pc);
            lemma_mem_read_keeps_cycles(b1, base as u16);
            let b2 = spec_mem_read(b1, base as u16);
            lemma_mem_read_keeps_cycles(b2, base.wrapping_add(1) as u16);
            let b3 = spec_mem_read(b2, base.wrapping_add(1) as u16);
            let m1 = m.with_bus(b3);
            lemma_abs_addr_keeps_cycles(m1, mode, m.pc);
            lemma_bus_tick_accounting(spec_abs_addr_bus(m1, mode, m.pc), 1);
        },
        _ => {
            lemma_abs_addr_keeps_cycles(m, mode, m.pc);
        },
    }
}

/// Whether a mnemonic is one of the operand-fetching instructions the cycle
/// law below covers: the loads, logic, arithmetic, compares and bit test.
pub open spec fn spec_is_fetch_op(ins: Mnemonic) -> bool {
    ||| ins == Mnemonic::LDA
    ||| ins == Mnemonic::LDX
    ||| ins == Mnemonic::LDY
    ||| ins == Mnemonic::AND
    ||| ins == Mnemonic::ORA
    ||| ins == Mnemonic::EOR
    ||| ins == Mnemonic::ADC
    ||| ins == Mnemonic::SBC
    ||| ins == Mnemonic::CMP
    ||| ins == Mnemonic::CPX
    ||| ins == Mnemonic::CPY
    ||| ins == Mnemonic::BIT
}

/// The cycle-accounting law for the operand-fetching instructions: one
/// interpreter step spends exactly the table's base cycles plus the
/// page-cross surcharge of its operand resolution, and nothing else.  (The
/// stores and read-modify-write instructions add the direct-memory stall of
/// `lemma_dma_write_stall` when they hit 0x4014; branches add their own
/// taken/cross surcharges inside `spec_branch`.)
pub proof fn lemma_step_cycles_fetch_op(m: CpuView)
    requires
        m.bus.ppu.nmi_interrupt is None,
        m.bus.cycles + 9 <= u64::MAX,
        spec_is_fetch_op(
            spec_op(spec_mem_read_val(spec_after_nmi(m).bus, spec_after_nmi(m).pc)).ins,
        ),
    ensures
        ({
            let ma = spec_after_nmi(m);
            let opcode = spec_mem_read_val(ma.bus, ma.pc);
            let op = spec_op(opcode);
            let mb = CpuView { pc: ma.pc.wrapping_add(1), bus: spec_mem_read(ma.bus, ma.pc), ..ma };
            spec_step(m).bus.cycles == m.bus.cycles + op.cycles + spec_cross_extra(mb, op.mode)
        }),
{
    reveal(spec_step);
    reveal(spec_after_nmi);
    let ma = spec_after_nmi(m);
    let opcode = spec_mem_read_val(ma.bus, ma.pc);
    let op = spec_op(opcode);
    let mb = CpuView { pc: ma.pc.wrapping_add(1), bus: spec_mem_read(ma.bus, ma.pc), ..ma };
    lemma_op_table_shape(opcode);
    lemma_mem_read_keeps_cycles(ma.bus, ma.pc);
    lemma_operand_cycles(mb, op.mode);
    lemma_mem_read_keeps_cycles(spec_operand_bus(mb, op.mode), spec_operand_val(mb, op.mode));
    let m2 = spec_dispatch(mb, opcode);
    if op.ins == Mnemonic::LDA {
        crate::cpu::lemma_dispatch_lda(mb, opcode);
        reveal(crate::cpu::spec_lda);
    } else if op.ins == Mnemonic::LDX {
        crate::cpu::lemma_dispatch_ldx(mb, opcode);
        reveal(crate::cpu::spec_ldx);
    } else if op.ins == Mnemonic::LDY {
        crate::cpu::lemma_dispatch_ldy(mb, opcode);
        reveal(crate::cpu::spec_ldy);
    } else if op.ins == Mnemonic::AND {
        crate::cpu::lemma_dispatch_and(mb, opcode);
        reveal(crate::cpu::spec_and);
    } else if op.ins == Mnemonic::ORA {
        crate::cpu::lemma_dispatch_ora(mb, opcode);
        reveal(crate::cpu::spec_ora);
    } else if op.ins == Mnemonic::EOR {
        crate::cpu::lemma_dispatch_eor(mb, opcode);
        reveal(crate::cpu::spec_eor);
    } else if op.ins == Mnemonic::ADC {
        crate::cpu::lemma_dispatch_adc(mb, opcode);
        reveal(crate::cpu::spec_adc_op);
    } else if op.ins == Mnemonic::SBC {
        crate::cpu::lemma_dispatch_sbc(mb, opcode);
        reveal(crate::cpu::spec_sbc_op);
    } else if op.ins == Mnemonic::CMP {
        crate::cpu::lemma_dispatch_cmp(mb, opcode);
        reveal(crate::cpu::spec_compare);
    } else if op.ins == Mnemonic::CPX {
        crate::cpu::lemma_dispatch_cpx(mb, opcode);
        reveal(crate::cpu::spec_compare);
    } else if op.ins == Mnemonic::CPY {
        crate::cpu::lemma_dispatch_cpy(mb, opcode);
        reveal(crate::cpu::spec_compare);
    } else {
        crate::cpu::lemma_dispatch_bit(mb, opcode);
        reveal(crate::cpu::spec_bit);
    }
    assert(m2.bus == spec_operand_fetch_bus(mb, op.mode));
    lemma_bus_tick_accounting(m2.bus, op.cycles);
}

/// Whether a mnemonic is one of the eight conditional branches.
pub open spec fn spec_is_branch(ins: Mnemonic) -> bool {
    ||| ins == Mnemonic::BCC
    ||| ins == Mnemonic::BCS
    ||| ins == Mnemonic::BNE
    ||| ins == Mnemonic::BEQ
    ||| ins == Mnemonic::BPL
    ||| ins == Mnemonic::BMI
    ||| ins == Mnemonic::BVC
    ||| ins == Mnemonic::BVS
}

/// The status flag a branch mnemonic tests.
pub open spec fn spec_branch_flag(ins: Mnemonic) -> u8 {
    if ins == Mnemonic::BCC || ins == Mnemonic::BCS {
        F_CARRY
    } else if ins == Mnemonic::BNE || ins == Mnemonic::BEQ {
        F_ZERO
    } else if ins == Mnemonic::BPL || ins == Mnemonic::BMI {
        F_NEG
    } else {
        F_OVRFLW
    }
}

/// Whether the branch fires on the flag being set (else on it being clear).
pub open spec fn spec_branch_on(ins: Mnemonic) -> bool {
    ins == Mnemonic::BCS || ins == Mnemonic::BEQ || ins == Mnemonic::BMI || ins == Mnemonic::BVS
}

/// The surcharge a branch spends beyond its base cycles: one when taken,
/// one more when the jump crosses a page.
pub open spec fn spec_branch_extra(m: CpuView, flag: u8, branch_on_set: bool) -> nat {
    if (m.p & flag != 0) == branch_on_set {
        let b1 = spec_bus_tick(m.bus, 1);
        let offset = spec_mem_read_val(b1, m.pc) as i8;
        let jump_addr = m.pc.wrapping_add(1).wrapping_add(offset as u16);
        if spec_page_crossed(m.pc.wrapping_add(1), jump_addr) {
            2
        } else {
            1
        }
    } else {
        0
    }
}

/// The cycle-accounting law for the conditional branches: one interpreter
/// step spends exactly the table's base cycles plus the taken and
/// page-cross surcharges.
pub proof fn lemma_step_cycles_branch(m: CpuView)
    requires
        m.bus.ppu.nmi_interrupt is None,
        m.bus.cycles + 10 <= u64::MAX,
        spec_is_branch(
            spec_op(spec_mem_read_val(spec_after_nmi(m).bus, spec_after_nmi(m).pc)).ins,
        ),
    ensures
        ({
            let ma = spec_after_nmi(m);
            let opcode = spec_mem_read_val(ma.bus, ma.pc);
            let op = spec_op(opcode);
            let mb = CpuView { pc: ma.pc.wrapping_add(1), bus: spec_mem_read(ma.bus, ma.pc), ..ma };
            spec_step(m).bus.cycles == m.bus.cycles + op.cycles + spec_branch_extra(
                mb,
                spec_branch_flag(op.ins),
                spec_branch_on(op.ins),
            )
        }),
{
    reveal(spec_step);
    reveal(spec_after_nmi);
    reveal(spec_branch);
    let ma = spec_after_nmi(m);
    let opcode = spec_mem_read_val(ma.bus, ma.pc);
    let op = spec_op(opcode);
    let mb = CpuView { pc: ma.pc.wrapping_add(1), bus: spec_mem_read(ma.bus, ma.pc), ..ma };
    lemma_op_table_shape(opcode);
    lemma_mem_read_keeps_cycles(ma.bus, ma.pc);
    if op.ins == Mnemonic::BCC {
        crate::cpu::lemma_dispatch_bcc(mb, opcode);
    } else if op.ins == Mnemonic::BCS {
        crate::cpu::lemma_dispatch_bcs(mb, opcode);
    } else if op.ins == Mnemonic::BNE {
        crate::cpu::lemma_dispatch_bne(mb, opcode);
    } else if op.ins == Mnemonic::BEQ {
        crate::cpu::lemma_dispatch_beq(mb, opcode);
    } else if op.ins == Mnemonic::BPL {
        crate::cpu::lemma_dispatch_bpl(mb, opcode);
    } else if op.ins == Mnemonic::BMI {
        crate::cpu::lemma_dispatch_bmi(mb, opcode);
    } else if op.ins == Mnemonic::BVC {
        crate::cpu::lemma_dispatch_bvc(mb, opcode);
    } else {
        crate::cpu::lemma_dispatch_bvs(mb, opcode);
    }
    let flag = spec_branch_flag(op.ins);
    let on = spec_branch_on(op.ins);
    let m2 = spec_branch(mb, flag, on);
    if (mb.p & flag != 0) == on {
        lemma_bus_tick_accounting(mb.bus, 1);
        let b1 = spec_bus_tick(mb.bus, 1);
        lemma_mem_read_keeps_cycles(b1, mb.pc);
        let b2 = spec_mem_read(b1, mb.pc);
        let offset = spec_mem_read_val(b1, mb.pc) as i8;
        let jump_addr = mb.pc.wrapping_add(1).wrapping_add(offset as u16);
        if spec_page_crossed(mb.pc.wrapping_add(1), jump_addr) {
            lemma_bus_tick_accounting(b2, 1);
        }
    }
    lemma_bus_tick_accounting(m2.bus, op.cycles);
}

/// The length law for the operand-fetching instructions: one interpreter
/// step moves the program counter past exactly the bytes the table's length
/// field names (wrapping at the top of memory), since none of these
/// instructions assigns the counter itself.
pub proof fn lemma_step_length_fetch_op(m: CpuView)
    requires
        m.bus.ppu.nmi_interrupt is None,
        spec_is_fetch_op(
            spec_op(spec_mem_read_val(spec_after_nmi(m).bus, spec_after_nmi(m).pc)).ins,
        ),
    ensures
        ({
            let ma = spec_after_nmi(m);
            let opcode = spec_mem_read_val(ma.bus, ma.pc);
            spec_step(m).pc == ma.pc.wrapping_add(spec_op(opcode).len as u16)
        }),
{
    reveal(spec_step);
    reveal(spec_after_nmi);
    let ma = spec_after_nmi(m);
    let opcode = spec_mem_read_val(ma.bus, ma.pc);
    let op = spec_op(opcode);
    let mb = CpuView { pc: ma.pc.wrapping_add(1), bus: spec_mem_read(ma.bus, ma.pc), ..ma };
    lemma_op_table_shape(opcode);
    if op.ins == Mnemonic::LDA {
        crate::cpu::lemma_dispatch_lda(mb, opcode);
        reveal(crate::cpu::spec_lda);
    } else if op.ins == Mnemonic::LDX {
        crate::cpu::lemma_dispatch_ldx(mb, opcode);
        reveal(crate::cpu::spec_ldx);
    } else if op.ins == Mnemonic::LDY {
        crate::cpu::lemma_dispatch_ldy(mb, opcode);
        reveal(crate::cpu::spec_ldy);
    } else if op.ins == Mnemonic::AND {
        crate::cpu::lemma_dispatch_and(mb, opcode);
        reveal(crate::cpu::spec_and);
    } else if op.ins == Mnemonic::ORA {
        crate::cpu::lemma_dispatch_ora(mb, opcode);
        reveal(crate::cpu::spec_ora);
    } else if op.ins == Mnemonic::EOR {
        crate::cpu::lemma_dispatch_eor(mb, opcode);
        reveal(crate::cpu::spec_eor);
    } else if op.ins == Mnemonic::ADC {
        crate::cpu::lemma_dispatch_adc(mb, opcode);
        reveal(crate::cpu::spec_adc_op);
    } else if op.ins == Mnemonic::SBC {
        crate::cpu::lemma_dispatch_sbc(mb, opcode);
        reveal(crate::cpu::spec_sbc_op);
    } else if op.ins == Mnemonic::CMP {
        crate::cpu::lemma_dispatch_cmp(mb, opcode);
        reveal(crate::cpu::spec_compare);
    } else if op.ins == Mnemonic::CPX {
        crate::cpu::lemma_dispatch_cpx(mb, opcode);
        reveal(crate::cpu::spec_compare);
    } else if op.ins == Mnemonic::CPY {
        crate::cpu::lemma_dispatch_cpy(mb, opcode);
        reveal(crate::cpu::spec_compare);
    } else {
        crate::cpu::lemma_dispatch_bit(mb, opcode);
        reveal(crate::cpu::spec_bit);
    }
    let oplen = op.len;
    let pc0 = ma.pc;
    assert(pc0.wrapping_add(1).wrapping_add((oplen - 1) as u16) == pc0.wrapping_add(
        oplen as u16,
    )) by (bit_vector)
        requires
            1 <= oplen <= 3,
    ;
}

/// The indirect jump reproduces the hardware's page-wrap quirk: when the
/// pointer's low byte is 0xFF, the target's high byte is fetched from the
/// start of the pointer's own page (pointer AND 0xFF00), not from the next
/// page.
pub proof fn lemma_jmp_indirect_page_wrap(m: CpuView)
    requires
        spec_read16_val(m.bus, m.pc) & 0x00FF == 0x00FF,
    ensures
        ({
            let ptr = spec_read16_val(m.bus, m.pc);
            let b1 = spec_read16_bus(m.bus, m.pc);
            let lo = spec_mem_read_val(b1, ptr);
            let hi = spec_mem_read_val(spec_mem_read(b1, ptr), ptr & 0xFF00);
            spec_jmp_indirect(m).pc == (hi as u16) << 8 | lo as u16
        }),
{
    reveal(spec_jmp_indirect);
}

} // verus!
