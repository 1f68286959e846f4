//! The trace formatter: one line of text per instruction about to execute,
//! in the byte-exact shape reference logs use as a correctness oracle.
//!
//! Operands are resolved with the side-effect-free peeks, so producing a
//! line never disturbs the machine it describes.

use vstd::prelude::*;
use crate::bus::spec_mem_read_val;
use crate::cpu::AddressingMode;
use crate::cpu::CPU;
use crate::cpu::CpuView;
use crate::cpu::spec_peek_addr;
use crate::cpu::spec_peek16;
use crate::ops::Mnemonic;
use crate::ops::Op;
use crate::ops::spec_op;
use crate::ops::opcode_entry;
use crate::ops::lemma_op_table_shape;

verus! {

/// ASCII bytes the formatter writes between the hex fields.
pub const B_SPACE: u8 = 32;

/// `*`, the undocumented-opcode marker.
pub const B_STAR: u8 = 42;

/// `#`, the immediate-operand marker.
pub const B_HASH: u8 = 35;

/// `$`, the hex marker.
pub const B_DOLLAR: u8 = 36;

/// `(`.
pub const B_LPAREN: u8 = 40;

/// `)`.
pub const B_RPAREN: u8 = 41;

/// `,`.
pub const B_COMMA: u8 = 44;

/// `=`.
pub const B_EQ: u8 = 61;

/// `@`.
pub const B_AT: u8 = 64;

/// `:`.
pub const B_COLON: u8 = 58;

/// ASCII digit for one hex nibble, upper case.
pub open spec fn spec_hex_digit(n: u8) -> u8 {
    if n < 10 {
        (0x30 + n) as u8
    } else {
        (0x37 + n) as u8
    }
}

/// Two upper-case hex digits of a byte.
pub open spec fn spec_hex2(v: u8) -> Seq<u8> {
    seq![spec_hex_digit(v >> 4), spec_hex_digit(v & 0x0F)]
}

/// Four upper-case hex digits of a word.
pub open spec fn spec_hex4(v: u16) -> Seq<u8> {
    spec_hex2((v >> 8) as u8) + spec_hex2((v & 0xFF) as u8)
}

/// `n` spaces.
pub open spec fn spec_spaces(n: nat) -> Seq<u8> {
    Seq::new(n, |i: int| B_SPACE)
}

/// `s` padded on the right with spaces to at least `w` bytes.
pub open spec fn spec_pad(s: Seq<u8>, w: nat) -> Seq<u8> {
    if s.len() >= w {
        s
    } else {
        s + spec_spaces((w - s.len()) as nat)
    }
}

/// The three letters of a mnemonic.
pub open spec fn spec_mnemonic_bytes(ins: Mnemonic) -> Seq<u8> {
    match ins {
        Mnemonic::ADC => seq![65u8, 68u8, 67u8],
        Mnemonic::AND => seq![65u8, 78u8, 68u8],
        Mnemonic::ASL => seq![65u8, 83u8, 76u8],
        Mnemonic::BCC => seq![66u8, 67u8, 67u8],
        Mnemonic::BCS => seq![66u8, 67u8, 83u8],
        Mnemonic::BEQ => seq![66u8, 69u8, 81u8],
        Mnemonic::BIT => seq![66u8, 73u8, 84u8],
        Mnemonic::BMI => seq![66u8, 77u8, 73u8],
        Mnemonic::BNE => seq![66u8, 78u8, 69u8],
        Mnemonic::BPL => seq![66u8, 80u8, 76u8],
        Mnemonic::BRK => seq![66u8, 82u8, 75u8],
        Mnemonic::BVC => seq![66u8, 86u8, 67u8],
        Mnemonic::BVS => seq![66u8, 86u8, 83u8],
        Mnemonic::CLC => seq![67u8, 76u8, 67u8],
        Mnemonic::CLD => seq![67u8, 76u8, 68u8],
        Mnemonic::CLI => seq![67u8, 76u8, 73u8],
        Mnemonic::CLV => seq![67u8, 76u8, 86u8],
        Mnemonic::CMP => seq![67u8, 77u8, 80u8],
        Mnemonic::CPX => seq![67u8, 80u8, 88u8],
        Mnemonic::CPY => seq![67u8, 80u8, 89u8],
        Mnemonic::DCP => seq![68u8, 67u8, 80u8],
        Mnemonic::DEC => seq![68u8, 69u8, 67u8],
        Mnemonic::DEX => seq![68u8, 69u8, 88u8],
        Mnemonic::DEY => seq![68u8, 69u8, 89u8],
        Mnemonic::EOR => seq![69u8, 79u8, 82u8],
        Mnemonic::INC => seq![73u8, 78u8, 67u8],
        Mnemonic::INX => seq![73u8, 78u8, 88u8],
        Mnemonic::INY => seq![73u8, 78u8, 89u8],
        Mnemonic::ISB => seq![73u8, 83u8, 66u8],
        Mnemonic::JMP => seq![74u8, 77u8, 80u8],
        Mnemonic::JSR => seq![74u8, 83u8, 82u8],
        Mnemonic::LAX => seq![76u8, 65u8, 88u8],
        Mnemonic::LDA => seq![76u8, 68u8, 65u8],
        Mnemonic::LDX => seq![76u8, 68u8, 88u8],
        Mnemonic::LDY => seq![76u8, 68u8, 89u8],
        Mnemonic::LSR => seq![76u8, 83u8, 82u8],
        Mnemonic::NOP => seq![78u8, 79u8, 80u8],
        Mnemonic::ORA => seq![79u8, 82u8, 65u8],
        Mnemonic::PHA => seq![80u8, 72u8, 65u8],
        Mnemonic::PHP => seq![80u8, 72u8, 80u8],
        Mnemonic::PLA => seq![80u8, 76u8, 65u8],
        Mnemonic::PLP => seq![80u8, 76u8, 80u8],
        Mnemonic::RLA => seq![82u8, 76u8, 65u8],
        Mnemonic::ROL => seq![82u8, 79u8, 76u8],
        Mnemonic::ROR => seq![82u8, 79u8, 82u8],
        Mnemonic::RRA => seq![82u8, 82u8, 65u8],
        Mnemonic::RTI => seq![82u8, 84u8, 73u8],
        Mnemonic::RTS => seq![82u8, 84u8, 83u8],
        Mnemonic::SAX => seq![83u8, 65u8, 88u8],
        Mnemonic::SBC => seq![83u8, 66u8, 67u8],
        Mnemonic::SEC => seq![83u8, 69u8, 67u8],
        Mnemonic::SED => seq![83u8, 69u8, 68u8],
        Mnemonic::SEI => seq![83u8, 69u8, 73u8],
        Mnemonic::SLO => seq![83u8, 76u8, 79u8],
        Mnemonic::SRE => seq![83u8, 82u8, 69u8],
        Mnemonic::STA => seq![83u8, 84u8, 65u8],
        Mnemonic::STX => seq![83u8, 84u8, 88u8],
        Mnemonic::STY => seq![83u8, 84u8, 89u8],
        Mnemonic::TAX => seq![84u8, 65u8, 88u8],
        Mnemonic::TAY => seq![84u8, 65u8, 89u8],
        Mnemonic::TSX => seq![84u8, 83u8, 88u8],
        Mnemonic::TXA => seq![84u8, 88u8, 65u8],
        Mnemonic::TXS => seq![84u8, 88u8, 83u8],
        Mnemonic::TYA => seq![84u8, 89u8, 65u8],
    }
}

/// The width-four mnemonic token: star-prefixed when undocumented.
pub open spec fn spec_mnemonic_text(op: Op) -> Seq<u8> {
    if op.undoc {
        seq![B_STAR] + spec_mnemonic_bytes(op.ins)
    } else {
        seq![B_SPACE] + spec_mnemonic_bytes(op.ins)
    }
}

/// The instruction's one to three raw bytes, space-joined.
pub open spec fn spec_args_text(m: CpuView, op: Op) -> Seq<u8> {
    let b0 = spec_mem_read_val(m.bus, m.pc);
    let b1 = spec_mem_read_val(m.bus, m.pc.wrapping_add(1));
    let b2 = spec_mem_read_val(m.bus, m.pc.wrapping_add(2));
    if op.len == 1 {
        spec_hex2(b0)
    } else if op.len == 2 {
        spec_hex2(b0) + seq![B_SPACE] + spec_hex2(b1)
    } else {
        spec_hex2(b0) + seq![B_SPACE] + spec_hex2(b1) + seq![B_SPACE] + spec_hex2(b2)
    }
}

/// The disassembled operand, mode by mode: resolved addresses are shown
/// after the raw operand, memory modes append the byte at the final address,
/// and the indirect jump shows its page-wrapped target.
pub open spec fn spec_operand_text(m: CpuView, op: Op) -> Seq<u8> {
    let arg1 = spec_mem_read_val(m.bus, m.pc.wrapping_add(1));
    let arg2 = spec_mem_read_val(m.bus, m.pc.wrapping_add(2));
    let addr = spec_peek_addr(m, op.mode, m.pc.wrapping_add(1));
    let value = spec_mem_read_val(m.bus, addr);
    match op.mode {
        AddressingMode::Immediate => seq![B_SPACE, B_HASH, B_DOLLAR] + spec_hex2(arg1),
        AddressingMode::ZeroPage => seq![B_SPACE, B_DOLLAR] + spec_hex2(addr as u8) + seq![B_SPACE, B_EQ, B_SPACE]
            + spec_hex2(value),
        AddressingMode::ZeroPage_X => seq![B_SPACE, B_DOLLAR] + spec_hex2(arg1)
            + seq![B_COMMA, 88u8, B_SPACE, B_AT, B_SPACE] + spec_hex2(addr as u8)
            + seq![B_SPACE, B_EQ, B_SPACE] + spec_hex2(value),
        AddressingMode::ZeroPage_Y => seq![B_SPACE, B_DOLLAR] + spec_hex2(arg1)
            + seq![B_COMMA, 89u8, B_SPACE, B_AT, B_SPACE] + spec_hex2(addr as u8)
            + seq![B_SPACE, B_EQ, B_SPACE] + spec_hex2(value),
        AddressingMode::Indirect_X => seq![B_SPACE, B_LPAREN, B_DOLLAR] + spec_hex2(arg1)
            + seq![B_COMMA, 88u8, B_RPAREN, B_SPACE, B_AT, B_SPACE] + spec_hex2(arg1.wrapping_add(m.x))
            + seq![B_SPACE, B_EQ, B_SPACE] + spec_hex4(addr) + seq![B_SPACE, B_EQ, B_SPACE]
            + spec_hex2(value),
        AddressingMode::Indirect_Y => seq![B_SPACE, B_LPAREN, B_DOLLAR] + spec_hex2(arg1)
            + seq![B_RPAREN, B_COMMA, 89u8, B_SPACE, B_EQ, B_SPACE]
            + spec_hex4(addr.wrapping_sub(m.y as u16)) + seq![B_SPACE, B_AT, B_SPACE]
            + spec_hex4(addr) + seq![B_SPACE, B_EQ, B_SPACE] + spec_hex2(value),
        AddressingMode::Absolute => seq![B_SPACE, B_DOLLAR] + spec_hex4(addr) + seq![B_SPACE, B_EQ, B_SPACE]
            + spec_hex2(value),
        AddressingMode::Absolute_X => seq![B_SPACE, B_DOLLAR]
            + spec_hex4(spec_peek16(m.bus, m.pc.wrapping_add(1)))
            + seq![B_COMMA, 88u8, B_SPACE, B_AT, B_SPACE] + spec_hex4(addr) + seq![B_SPACE, B_EQ, B_SPACE]
            + spec_hex2(value),
        AddressingMode::Absolute_Y => seq![B_SPACE, B_DOLLAR]
            + spec_hex4(spec_peek16(m.bus, m.pc.wrapping_add(1)))
            + seq![B_COMMA, 89u8, B_SPACE, B_AT, B_SPACE] + spec_hex4(addr) + seq![B_SPACE, B_EQ, B_SPACE]
            + spec_hex2(value),
        AddressingMode::NoneAddressing => {
            if op.len == 1 {
                if op.ins == Mnemonic::ASL || op.ins == Mnemonic::ROL || op.ins == Mnemonic::LSR
                    || op.ins == Mnemonic::ROR {
                    seq![B_SPACE, 65u8]
                } else {
                    Seq::empty()
                }
            } else if op.len == 2 {
                let target = m.pc.wrapping_add(2).wrapping_add((arg1 as i8) as u16);
                seq![B_SPACE, B_DOLLAR] + spec_hex4(target)
            } else {
                if op.code == 0x6C {
                    let jaddr = spec_peek16(m.bus, m.pc.wrapping_add(1));
                    let ind = if jaddr & 0x00FF == 0x00FF {
                        let lo = spec_mem_read_val(m.bus, jaddr);
                        let hi = spec_mem_read_val(m.bus, jaddr & 0xFF00);
                        (hi as u16) << 8 | lo as u16
                    } else {
                        spec_peek16(m.bus, jaddr)
                    };
                    seq![B_SPACE, B_LPAREN, B_DOLLAR] + spec_hex4(jaddr) + seq![B_RPAREN, B_SPACE, B_EQ, B_SPACE]
                        + spec_hex4(ind)
                } else {
                    seq![B_SPACE, B_DOLLAR] + spec_hex2(arg2) + spec_hex2(arg1)
                }
            }
        },
    }
}

/// The register dump closing every line.
pub open spec fn spec_regs_text(a: u8, x: u8, y: u8, p: u8, sp: u8) -> Seq<u8> {
    seq![65u8, B_COLON] + spec_hex2(a) + seq![B_SPACE, 88u8, B_COLON] + spec_hex2(x)
        + seq![B_SPACE, 89u8, B_COLON] + spec_hex2(y) + seq![B_SPACE, 80u8, B_COLON] + spec_hex2(p)
        + seq![B_SPACE, 83u8, 80u8, B_COLON] + spec_hex2(sp)
}

/// One whole trace line for the instruction the program counter points at:
/// the counter, the raw bytes (padded to nine columns), the mnemonic token,
/// the disassembled operand (padded to twenty-nine columns) and the register
/// dump.
pub open spec fn spec_trace_line(m: CpuView) -> Seq<u8> {
    let op = spec_op(spec_mem_read_val(m.bus, m.pc));
    spec_hex4(m.pc) + seq![B_SPACE, B_SPACE] + spec_pad(spec_args_text(m, op), 9)
        + spec_mnemonic_text(op) + spec_pad(spec_operand_text(m, op), 29)
        + spec_regs_text(m.a, m.x, m.y, m.p, m.sp)
}

/// ASCII digit for one hex nibble, upper case.
fn hex_digit(n: u8) -> (d: u8)
    requires
        n < 16,
    ensures
        d == spec_hex_digit(n),
{
    if n < 10 {
        0x30 + n
    } else {
        0x37 + n
    }
}

/// Append the two hex digits of a byte.
fn push_hex2(out: &mut Vec<u8>, v: u8)
    ensures
        final(out)@ == old(out)@ + spec_hex2(v),
{
    proof {
        assert(v >> 4 < 16 && v & 0x0F < 16) by (bit_vector);
    }
    out.push(hex_digit(v >> 4));
    out.push(hex_digit(v & 0x0F));
    assert(out@ =~= old(out)@ + spec_hex2(v));
}

/// Append the four hex digits of a word.
fn push_hex4(out: &mut Vec<u8>, v: u16)
    ensures
        final(out)@ == old(out)@ + spec_hex4(v),
{
    push_hex2(out, (v >> 8) as u8);
    push_hex2(out, (v & 0xFF) as u8);
    assert(out@ =~= old(out)@ + spec_hex4(v));
}

/// Pad on the right with spaces to at least `w` bytes.
fn pad_to(out: &mut Vec<u8>, w: usize)
    ensures
        final(out)@ == spec_pad(old(out)@, w as nat),
{
    let ghost orig = out@;
    proof {
        assert(orig + spec_spaces(0) =~= orig);
    }
    let mut k: usize = 0;
    while out.len() < w
        invariant
            out@ == orig + spec_spaces(k as nat),
            out@.len() == orig.len() + k,
            k == 0 || out@.len() <= w,
        decreases w - out@.len(),
    {
        out.push(B_SPACE);
        proof {
            assert((orig + spec_spaces(k as nat)).push(B_SPACE) =~= orig + spec_spaces(
                (k + 1) as nat,
            ));
        }
        k = k + 1;
    }
    assert(out@ =~= spec_pad(orig, w as nat));
}

/// Append the mnemonic token: a star before an undocumented name, a space
/// before a documented one.
fn push_mnemonic(out: &mut Vec<u8>, op: Op)
    ensures
        final(out)@ == old(out)@ + spec_mnemonic_text(op),
{
    if op.undoc {
        out.push(B_STAR);
    } else {
        out.push(B_SPACE);
    }
    match op.ins {
        Mnemonic::ADC => { out.push(65u8); out.push(68u8); out.push(67u8); },
        Mnemonic::AND => { out.push(65u8); out.push(78u8); out.push(68u8); },
        Mnemonic::ASL => { out.push(65u8); out.push(83u8); out.push(76u8); },
        Mnemonic::BCC => { out.push(66u8); out.push(67u8); out.push(67u8); },
        Mnemonic::BCS => { out.push(66u8); out.push(67u8); out.push(83u8); },
        Mnemonic::BEQ => { out.push(66u8); out.push(69u8); out.push(81u8); },
        Mnemonic::BIT => { out.push(66u8); out.push(73u8); out.push(84u8); },
        Mnemonic::BMI => { out.push(66u8); out.push(77u8); out.push(73u8); },
        Mnemonic::BNE => { out.push(66u8); out.push(78u8); out.push(69u8); },
        Mnemonic::BPL => { out.push(66u8); out.push(80u8); out.push(76u8); },
        Mnemonic::BRK => { out.push(66u8); out.push(82u8); out.push(75u8); },
        Mnemonic::BVC => { out.push(66u8); out.push(86u8); out.push(67u8); },
        Mnemonic::BVS => { out.push(66u8); out.push(86u8); out.push(83u8); },
        Mnemonic::CLC => { out.push(67u8); out.push(76u8); out.push(67u8); },
        Mnemonic::CLD => { out.push(67u8); out.push(76u8); out.push(68u8); },
        Mnemonic::CLI => { out.push(67u8); out.push(76u8); out.push(73u8); },
        Mnemonic::CLV => { out.push(67u8); out.push(76u8); out.push(86u8); },
        Mnemonic::CMP => { out.push(67u8); out.push(77u8); out.push(80u8); },
        Mnemonic::CPX => { out.push(67u8); out.push(80u8); out.push(88u8); },
        Mnemonic::CPY => { out.push(67u8); out.push(80u8); out.push(89u8); },
        Mnemonic::DCP => { out.push(68u8); out.push(67u8); out.push(80u8); },
        Mnemonic::DEC => { out.push(68u8); out.push(69u8); out.push(67u8); },
        Mnemonic::DEX => { out.push(68u8); out.push(69u8); out.push(88u8); },
        Mnemonic::DEY => { out.push(68u8); out.push(69u8); out.push(89u8); },
        Mnemonic::EOR => { out.push(69u8); out.push(79u8); out.push(82u8); },
        Mnemonic::INC => { out.push(73u8); out.push(78u8); out.push(67u8); },
        Mnemonic::INX => { out.push(73u8); out.push(78u8); out.push(88u8); },
        Mnemonic::INY => { out.push(73u8); out.push(78u8); out.push(89u8); },
        Mnemonic::ISB => { out.push(73u8); out.push(83u8); out.push(66u8); },
        Mnemonic::JMP => { out.push(74u8); out.push(77u8); out.push(80u8); },
        Mnemonic::JSR => { out.push(74u8); out.push(83u8); out.push(82u8); },
        Mnemonic::LAX => { out.push(76u8); out.push(65u8); out.push(88u8); },
        Mnemonic::LDA => { out.push(76u8); out.push(68u8); out.push(65u8); },
        Mnemonic::LDX => { out.push(76u8); out.push(68u8); out.push(88u8); },
        Mnemonic::LDY => { out.push(76u8); out.push(68u8); out.push(89u8); },
        Mnemonic::LSR => { out.push(76u8); out.push(83u8); out.push(82u8); },
        Mnemonic::NOP => { out.push(78u8); out.push(79u8); out.push(80u8); },
        Mnemonic::ORA => { out.push(79u8); out.push(82u8); out.push(65u8); },
        Mnemonic::PHA => { out.push(80u8); out.push(72u8); out.push(65u8); },
        Mnemonic::PHP => { out.push(80u8); out.push(72u8); out.push(80u8); },
        Mnemonic::PLA => { out.push(80u8); out.push(76u8); out.push(65u8); },
        Mnemonic::PLP => { out.push(80u8); out.push(76u8); out.push(80u8); },
        Mnemonic::RLA => { out.push(82u8); out.push(76u8); out.push(65u8); },
        Mnemonic::ROL => { out.push(82u8); out.push(79u8); out.push(76u8); },
        Mnemonic::ROR => { out.push(82u8); out.push(79u8); out.push(82u8); },
        Mnemonic::RRA => { out.push(82u8); out.push(82u8); out.push(65u8); },
        Mnemonic::RTI => { out.push(82u8); out.push(84u8); out.push(73u8); },
        Mnemonic::RTS => { out.push(82u8); out.push(84u8); out.push(83u8); },
        Mnemonic::SAX => { out.push(83u8); out.push(65u8); out.push(88u8); },
        Mnemonic::SBC => { out.push(83u8); out.push(66u8); out.push(67u8); },
        Mnemonic::SEC => { out.push(83u8); out.push(69u8); out.push(67u8); },
        Mnemonic::SED => { out.push(83u8); out.push(69u8); out.push(68u8); },
        Mnemonic::SEI => { out.push(83u8); out.push(69u8); out.push(73u8); },
        Mnemonic::SLO => { out.push(83u8); out.push(76u8); out.push(79u8); },
        Mnemonic::SRE => { out.push(83u8); out.push(82u8); out.push(69u8); },
        Mnemonic::STA => { out.push(83u8); out.push(84u8); out.push(65u8); },
        Mnemonic::STX => { out.push(83u8); out.push(84u8); out.push(88u8); },
        Mnemonic::STY => { out.push(83u8); out.push(84u8); out.push(89u8); },
        Mnemonic::TAX => { out.push(84u8); out.push(65u8); out.push(88u8); },
        Mnemonic::TAY => { out.push(84u8); out.push(65u8); out.push(89u8); },
        Mnemonic::TSX => { out.push(84u8); out.push(83u8); out.push(88u8); },
        Mnemonic::TXA => { out.push(84u8); out.push(88u8); out.push(65u8); },
        Mnemonic::TXS => { out.push(84u8); out.push(88u8); out.push(83u8); },
        Mnemonic::TYA => { out.push(84u8); out.push(89u8); out.push(65u8); },
    }
    assert(out@ =~= old(out)@ + spec_mnemonic_text(op));
}

/// Append the register dump.
fn push_regs(out: &mut Vec<u8>, a: u8, x: u8, y: u8, p: u8, sp: u8)
    ensures
        final(out)@ == old(out)@ + spec_regs_text(a, x, y, p, sp),
{
    out.push(65u8);
    out.push(B_COLON);
    push_hex2(out, a);
    out.push(B_SPACE);
    out.push(88u8);
    out.push(B_COLON);
    push_hex2(out, x);
    out.push(B_SPACE);
    out.push(89u8);
    out.push(B_COLON);
    push_hex2(out, y);
    out.push(B_SPACE);
    out.push(80u8);
    out.push(B_COLON);
    push_hex2(out, p);
    out.push(B_SPACE);
    out.push(83u8);
    out.push(80u8);
    out.push(B_COLON);
    push_hex2(out, sp);
    assert(out@ =~= old(out)@ + spec_regs_text(a, x, y, p, sp));
}

impl CPU {
    /// The instruction's raw bytes, space-joined, peeked at the counter.
    fn args_text(&self, op: Op) -> (t: Vec<u8>)
        requires
            self.wf(),
            1 <= op.len <= 3,
        ensures
            t@ == spec_args_text(self@, op),
    {
        let pc = self.program_counter;
        let mut t: Vec<u8> = Vec::new();
        push_hex2(&mut t, self.mem_peek(pc));
        if op.len >= 2 {
            t.push(B_SPACE);
            push_hex2(&mut t, self.mem_peek(pc.wrapping_add(1)));
        }
        if op.len >= 3 {
            t.push(B_SPACE);
            push_hex2(&mut t, self.mem_peek(pc.wrapping_add(2)));
        }
        assert(t@ =~= spec_args_text(self@, op));
        t
    }

    /// The disassembled operand, resolved with peeks only.
    #[verifier::spinoff_prover]
    #[verifier::rlimit(100)]
    fn operand_text(&self, op: Op) -> (t: Vec<u8>)
        requires
            self.wf(),
            1 <= op.len <= 3,
        ensures
            t@ == spec_operand_text(self@, op),
    {
        let pc = self.program_counter;
        let arg1 = self.mem_peek(pc.wrapping_add(1));
        let arg2 = self.mem_peek(pc.wrapping_add(2));
        let mut t: Vec<u8> = Vec::new();
        match op.mode {
            AddressingMode::Immediate => {
                t.push(B_SPACE);
                t.push(B_HASH);
                t.push(B_DOLLAR);
                push_hex2(&mut t, arg1);
            },
            AddressingMode::ZeroPage => {
                let addr = self.peek_absolute_address(op.mode, pc.wrapping_add(1));
                let value = self.mem_peek(addr);
                t.push(B_SPACE);
                t.push(B_DOLLAR);
                push_hex2(&mut t, addr as u8);
                t.push(B_SPACE);
                t.push(B_EQ);
                t.push(B_SPACE);
                push_hex2(&mut t, value);
            },
            AddressingMode::ZeroPage_X => {
                let addr = self.peek_absolute_address(op.mode, pc.wrapping_add(1));
                let value = self.mem_peek(addr);
                t.push(B_SPACE);
                t.push(B_DOLLAR);
                push_hex2(&mut t, arg1);
                t.push(B_COMMA);
                t.push(88u8);
                t.push(B_SPACE);
                t.push(B_AT);
                t.push(B_SPACE);
                push_hex2(&mut t, addr as u8);
                t.push(B_SPACE);
                t.push(B_EQ);
                t.push(B_SPACE);
                push_hex2(&mut t, value);
            },
            AddressingMode::ZeroPage_Y => {
                let addr = self.peek_absolute_address(op.mode, pc.wrapping_add(1));
                let value = self.mem_peek(addr);
                t.push(B_SPACE);
                t.push(B_DOLLAR);
                push_hex2(&mut t, arg1);
                t.push(B_COMMA);
                t.push(89u8);
                t.push(B_SPACE);
                t.push(B_AT);
                t.push(B_SPACE);
                push_hex2(&mut t, addr as u8);
                t.push(B_SPACE);
                t.push(B_EQ);
                t.push(B_SPACE);
                push_hex2(&mut t, value);
            },
            AddressingMode::Indirect_X => {
                let addr = self.peek_absolute_address(op.mode, pc.wrapping_add(1));
                let value = self.mem_peek(addr);
                t.push(B_SPACE);
                t.push(B_LPAREN);
                t.push(B_DOLLAR);
                push_hex2(&mut t, arg1);
                t.push(B_COMMA);
                t.push(88u8);
                t.push(B_RPAREN);
                t.push(B_SPACE);
                t.push(B_AT);
                t.push(B_SPACE);
                push_hex2(&mut t, arg1.wrapping_add(self.register_x));
                t.push(B_SPACE);
                t.push(B_EQ);
                t.push(B_SPACE);
                push_hex4(&mut t, addr);
                t.push(B_SPACE);
                t.push(B_EQ);
                t.push(B_SPACE);
                push_hex2(&mut t, value);
            },
            AddressingMode::Indirect_Y => {
                let addr = self.peek_absolute_address(op.mode, pc.wrapping_add(1));
                let value = self.mem_peek(addr);
                t.push(B_SPACE);
                t.push(B_LPAREN);
                t.push(B_DOLLAR);
                push_hex2(&mut t, arg1);
                t.push(B_RPAREN);
                t.push(B_COMMA);
                t.push(89u8);
                t.push(B_SPACE);
                t.push(B_EQ);
                t.push(B_SPACE);
                push_hex4(&mut t, addr.wrapping_sub(self.register_y as u16));
                t.push(B_SPACE);
                t.push(B_AT);
                t.push(B_SPACE);
                push_hex4(&mut t, addr);
                t.push(B_SPACE);
                t.push(B_EQ);
                t.push(B_SPACE);
                push_hex2(&mut t, value);
            },
            AddressingMode::Absolute => {
                let addr = self.peek_absolute_address(op.mode, pc.wrapping_add(1));
                let value = self.mem_peek(addr);
                t.push(B_SPACE);
                t.push(B_DOLLAR);
                push_hex4(&mut t, addr);
                t.push(B_SPACE);
                t.push(B_EQ);
                t.push(B_SPACE);
                push_hex2(&mut t, value);
            },
            AddressingMode::Absolute_X => {
                let addr = self.peek_absolute_address(op.mode, pc.wrapping_add(1));
                let value = self.mem_peek(addr);
                let base = self.mem_peek_u16(pc.wrapping_add(1));
                t.push(B_SPACE);
                t.push(B_DOLLAR);
                push_hex4(&mut t, base);
                t.push(B_COMMA);
                t.push(88u8);
                t.push(B_SPACE);
                t.push(B_AT);
                t.push(B_SPACE);
                push_hex4(&mut t, addr);
                t.push(B_SPACE);
                t.push(B_EQ);
                t.push(B_SPACE);
                push_hex2(&mut t, value);
            },
            AddressingMode::Absolute_Y => {
                let addr = self.peek_absolute_address(op.mode, pc.wrapping_add(1));
                let value = self.mem_peek(addr);
                let base = self.mem_peek_u16(pc.wrapping_add(1));
                t.push(B_SPACE);
                t.push(B_DOLLAR);
                push_hex4(&mut t, base);
                t.push(B_COMMA);
                t.push(89u8);
                t.push(B_SPACE);
                t.push(B_AT);
                t.push(B_SPACE);
                push_hex4(&mut t, addr);
                t.push(B_SPACE);
                t.push(B_EQ);
                t.push(B_SPACE);
                push_hex2(&mut t, value);
            },
            AddressingMode::NoneAddressing => {
                if op.len == 1 {
                    if op.ins == Mnemonic::ASL || op.ins == Mnemonic::ROL
                        || op.ins == Mnemonic::LSR || op.ins == Mnemonic::ROR {
                        t.push(B_SPACE);
                        t.push(65u8);
                    }
                } else if op.len == 2 {
                    let offset = arg1 as i8;
                    let target = pc.wrapping_add(2).wrapping_add(offset as u16);
                    t.push(B_SPACE);
                    t.push(B_DOLLAR);
                    push_hex4(&mut t, target);
                } else {
                    if op.code == 0x6C {
                        let jaddr = self.mem_peek_u16(pc.wrapping_add(1));
                        let ind = if jaddr & 0x00FF == 0x00FF {
                            let lo = self.mem_peek(jaddr);
                            let hi = self.mem_peek(jaddr & 0xFF00);
                            (hi as u16) << 8 | lo as u16
                        } else {
                            self.mem_peek_u16(jaddr)
                        };
                        t.push(B_SPACE);
                        t.push(B_LPAREN);
                        t.push(B_DOLLAR);
                        push_hex4(&mut t, jaddr);
                        t.push(B_RPAREN);
                        t.push(B_SPACE);
                        t.push(B_EQ);
                        t.push(B_SPACE);
                        push_hex4(&mut t, ind);
                    } else {
                        t.push(B_SPACE);
                        t.push(B_DOLLAR);
                        push_hex2(&mut t, arg2);
                        push_hex2(&mut t, arg1);
                    }
                }
            },
        }
        assert(t@ =~= spec_operand_text(self@, op));
        t
    }
}

/// One trace line (ASCII bytes) for the instruction the machine is about to
/// execute.  Built entirely from side-effect-free peeks: the machine is not
/// touched.
pub fn trace_line(cpu: &CPU) -> (line: Vec<u8>)
    requires
        cpu.wf(),
    ensures
        line@ == spec_trace_line(cpu@),
{
    let pc = cpu.program_counter;
    let opcode = cpu.mem_peek(pc);
    let op = opcode_entry(opcode);
    proof {
        lemma_op_table_shape(opcode);
    }

    let mut out: Vec<u8> = Vec::new();
    push_hex4(&mut out, pc);
    out.push(B_SPACE);
    out.push(B_SPACE);
    assert(out@ =~= spec_hex4(pc) + seq![B_SPACE, B_SPACE]);

    let mut args = cpu.args_text(op);
    pad_to(&mut args, 9);
    out.append(&mut args);

    push_mnemonic(&mut out, op);

    let mut operand = cpu.operand_text(op);
    pad_to(&mut operand, 29);
    out.append(&mut operand);

    push_regs(&mut out, cpu.register_a, cpu.register_x, cpu.register_y, cpu.status,
        cpu.stack_pointer);

    assert(out@ =~= spec_trace_line(cpu@));
    out
}

} // verus!
