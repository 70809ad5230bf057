//! Decoding a 32-bit instruction word into one line of assembly-like text.
//!
//! The top four bits of a word select the operation; values 0 through 13
//! name an [`Opcode`], 14 and 15 decode to the text `unknown opcode`.  Each
//! opcode reads only the operand fields its template uses: three 3-bit
//! register fields at bits 6, 3 and 0, or (for the load-immediate form) a
//! 3-bit register field at bit 25 and a 25-bit value field at bit 0.

use crate::decimal::dec_seq;
use crate::decimal::u32_dec;
use crate::field::bit_slice;
use crate::field::get;
use crate::field::Field;
use vstd::prelude::*;
use vstd::string::StringExecFns;

verus! {

/// The operation named by a 4-bit opcode value in `[0, 13]`.
#[derive(Clone, Copy, Debug, PartialEq, Eq, Structural)]
pub enum Opcode {
    CMov,
    Load,
    Store,
    Add,
    Mul,
    Div,
    Nand,
    Halt,
    SegMap,
    Unmap,
    Out,
    In,
    LoadP,
    LoadV,
}

/// The 4-bit opcode field of a word: bits 28 through 31.
pub open spec fn spec_opcode(w: u32) -> nat {
    bit_slice(w, 4, 28)
}

/// Register field A: bits 6 through 8.
pub open spec fn spec_ra(w: u32) -> nat {
    bit_slice(w, 3, 6)
}

/// Register field B: bits 3 through 5.
pub open spec fn spec_rb(w: u32) -> nat {
    bit_slice(w, 3, 3)
}

/// Register field C: bits 0 through 2.
pub open spec fn spec_rc(w: u32) -> nat {
    bit_slice(w, 3, 0)
}

/// Register field of the load-immediate form: bits 25 through 27.
pub open spec fn spec_rl(w: u32) -> nat {
    bit_slice(w, 3, 25)
}

/// Value field of the load-immediate form: bits 0 through 24.
pub open spec fn spec_vl(w: u32) -> nat {
    bit_slice(w, 25, 0)
}

/// The opcode named by a 4-bit value, or `None` for 14 and 15.
pub open spec fn opcode_of(n: nat) -> Option<Opcode> {
    if n == 0 {
        Some(Opcode::CMov)
    } else if n == 1 {
        Some(Opcode::Load)
    } else if n == 2 {
        Some(Opcode::Store)
    } else if n == 3 {
        Some(Opcode::Add)
    } else if n == 4 {
        Some(Opcode::Mul)
    } else if n == 5 {
        Some(Opcode::Div)
    } else if n == 6 {
        Some(Opcode::Nand)
    } else if n == 7 {
        Some(Opcode::Halt)
    } else if n == 8 {
        Some(Opcode::SegMap)
    } else if n == 9 {
        Some(Opcode::Unmap)
    } else if n == 10 {
        Some(Opcode::Out)
    } else if n == 11 {
        Some(Opcode::In)
    } else if n == 12 {
        Some(Opcode::LoadP)
    } else if n == 13 {
        Some(Opcode::LoadV)
    } else {
        None
    }
}

/// The exact text that `disassemble` returns for `w`: one template per
/// opcode, with the decimal operand values substituted in, and the literal
/// `unknown opcode` for opcode values 14 and 15.
pub open spec fn disasm_spec(w: u32) -> Seq<char> {
    let a = dec_seq(spec_ra(w));
    let b = dec_seq(spec_rb(w));
    let c = dec_seq(spec_rc(w));
    match opcode_of(spec_opcode(w)) {
        Some(Opcode::CMov) => "if (r"@ + c + " != 0) r"@ + a + " := r"@ + b + ";"@,
        Some(Opcode::Load) => "r"@ + a + " := M[r"@ + b + " + "@ + c + "];"@,
        Some(Opcode::Store) => "M[r"@ + a + " + "@ + b + "] := r"@ + c + ";"@,
        Some(Opcode::Add) => "r"@ + a + " := r"@ + b + " + r"@ + c + ";"@,
        Some(Opcode::Mul) => "r"@ + a + " := r"@ + b + " * r"@ + c + ";"@,
        Some(Opcode::Div) => "r"@ + a + " := r"@ + b + " / r"@ + c + ";"@,
        Some(Opcode::Nand) => "r"@ + a + " := ~(r"@ + b + " & r"@ + c + ");"@,
        Some(Opcode::Halt) => "halt;"@,
        Some(Opcode::SegMap) => "r"@ + a + " := map(r"@ + b + ");"@,
        Some(Opcode::Unmap) => "unmap(r"@ + a + ");"@,
        Some(Opcode::Out) => "out(r"@ + a + ");"@,
        Some(Opcode::In) => "r"@ + a + " := in();"@,
        Some(Opcode::LoadP) => "r"@ + a + " := M[r"@ + b + " + r"@ + c + "];"@,
        Some(Opcode::LoadV) => "r"@ + dec_seq(spec_rl(w)) + " := "@ + dec_seq(spec_vl(w)) + ";"@,
        None => "unknown opcode"@,
    }
}

/// Given an instruction word, extract the opcode.
fn op(instruction: u32) -> (r: Option<Opcode>)
    ensures
        r == opcode_of(spec_opcode(instruction)),
{
    let n = get(&Field { width: 4, lsb: 28 }, instruction);
    match n {
        0 => Some(Opcode::CMov),
        1 => Some(Opcode::Load),
        2 => Some(Opcode::Store),
        3 => Some(Opcode::Add),
        4 => Some(Opcode::Mul),
        5 => Some(Opcode::Div),
        6 => Some(Opcode::Nand),
        7 => Some(Opcode::Halt),
        8 => Some(Opcode::SegMap),
        9 => Some(Opcode::Unmap),
        10 => Some(Opcode::Out),
        11 => Some(Opcode::In),
        12 => Some(Opcode::LoadP),
        13 => Some(Opcode::LoadV),
        _ => None,
    }
}

/// Text made of one decimal value between two literal pieces.
fn fmt1(p0: &str, x: u32, p1: &str) -> (s: String)
    ensures
        s@ == p0@ + dec_seq(x as nat) + p1@,
{
    let mut s = String::from_str(p0);
    s.append(u32_dec(x).as_str());
    s.append(p1);
    s
}

/// Text made of two decimal values between three literal pieces.
fn fmt2(p0: &str, x: u32, p1: &str, y: u32, p2: &str) -> (s: String)
    ensures
        s@ == p0@ + dec_seq(x as nat) + p1@ + dec_seq(y as nat) + p2@,
{
    let mut s = String::from_str(p0);
    s.append(u32_dec(x).as_str());
    s.append(p1);
    s.append(u32_dec(y).as_str());
    s.append(p2);
    s
}

/// Text made of three decimal values between four literal pieces.
fn fmt3(p0: &str, x: u32, p1: &str, y: u32, p2: &str, z: u32, p3: &str) -> (s: String)
    ensures
        s@ == p0@ + dec_seq(x as nat) + p1@ + dec_seq(y as nat) + p2@ + dec_seq(z as nat) + p3@,
{
    let mut s = String::from_str(p0);
    s.append(u32_dec(x).as_str());
    s.append(p1);
    s.append(u32_dec(y).as_str());
    s.append(p2);
    s.append(u32_dec(z).as_str());
    s.append(p3);
    s
}

/// Disassemble one instruction word into one line of text, with no trailing
/// newline.  Every 32-bit value decodes to some text; an opcode value of 14
/// or 15 decodes to `unknown opcode`.
pub fn disassemble(inst: u32) -> (s: String)
    ensures
        s@ == disasm_spec(inst),
{
    match op(inst) {
        Some(Opcode::CMov) => {
            let a = get(&Field { width: 3, lsb: 6 }, inst);
            let b = get(&Field { width: 3, lsb: 3 }, inst);
            let c = get(&Field { width: 3, lsb: 0 }, inst);
            fmt3("if (r", c, " != 0) r", a, " := r", b, ";")
        },
        Some(Opcode::Load) => {
            let a = get(&Field { width: 3, lsb: 6 }, inst);
            let b = get(&Field { width: 3, lsb: 3 }, inst);
            let c = get(&Field { width: 3, lsb: 0 }, inst);
            fmt3("r", a, " := M[r", b, " + ", c, "];")
        },
        Some(Opcode::Store) => {
            let a = get(&Field { width: 3, lsb: 6 }, inst);
            let b = get(&Field { width: 3, lsb: 3 }, inst);
            let c = get(&Field { width: 3, lsb: 0 }, inst);
            fmt3("M[r", a, " + ", b, "] := r", c, ";")
        },
        Some(Opcode::Add) => {
            let a = get(&Field { width: 3, lsb: 6 }, inst);
            let b = get(&Field { width: 3, lsb: 3 }, inst);
            let c = get(&Field { width: 3, lsb: 0 }, inst);
            fmt3("r", a, " := r", b, " + r", c, ";")
        },
        Some(Opcode::Mul) => {
            let a = get(&Field { width: 3, lsb: 6 }, inst);
            let b = get(&Field { width: 3, lsb: 3 }, inst);
            let c = get(&Field { width: 3, lsb: 0 }, inst);
            fmt3("r", a, " := r", b, " * r", c, ";")
        },
        Some(Opcode::Div) => {
            let a = get(&Field { width: 3, lsb: 6 }, inst);
            let b = get(&Field { width: 3, lsb: 3 }, inst);
            let c = get(&Field { width: 3, lsb: 0 }, inst);
            fmt3("r", a, " := r", b, " / r", c, ";")
        },
        Some(Opcode::Nand) => {
            let a = get(&Field { width: 3, lsb: 6 }, inst);
            let b = get(&Field { width: 3, lsb: 3 }, inst);
            let c = get(&Field { width: 3, lsb: 0 }, inst);
            fmt3("r", a, " := ~(r", b, " & r", c, ");")
        },
        Some(Opcode::Halt) => String::from_str("halt;"),
        Some(Opcode::SegMap) => {
            let a = get(&Field { width: 3, lsb: 6 }, inst);
            let b = get(&Field { width: 3, lsb: 3 }, inst);
            fmt2("r", a, " := map(r", b, ");")
        },
        Some(Opcode::Unmap) => {
            let a = get(&Field { width: 3, lsb: 6 }, inst);
            fmt1("unmap(r", a, ");")
        },
        Some(Opcode::Out) => {
            let a = get(&Field { width: 3, lsb: 6 }, inst);
            fmt1("out(r", a, ");")
        },
        Some(Opcode::In) => {
            let a = get(&Field { width: 3, lsb: 6 }, inst);
            fmt1("r", a, " := in();")
        },
        Some(Opcode::LoadP) => {
            let a = get(&Field { width: 3, lsb: 6 }, inst);
            let b = get(&Field { width: 3, lsb: 3 }, inst);
            let c = get(&Field { width: 3, lsb: 0 }, inst);
            fmt3("r", a, " := M[r", b, " + r", c, "];")
        },
        Some(Opcode::LoadV) => {
            let rl = get(&Field { width: 3, lsb: 25 }, inst);
            let vl = get(&Field { width: 25, lsb: 0 }, inst);
            fmt2("r", rl, " := ", vl, ";")
        },
        None => String::from_str("unknown opcode"),
    }
}

/// Unrecognized opcodes are a decode outcome, not an error: every word whose
/// opcode bits hold 14 or 15 disassembles to exactly the text
/// `unknown opcode`, whatever its operand bits hold.
pub proof fn lemma_unknown_opcode(w: u32)
    requires
        14 <= spec_opcode(w),
    ensures
        disasm_spec(w) == "unknown opcode"@,
{
}

/// Disassembly is a pure function of the instruction word: two results
/// obtained for the same word are identical, character for character.
pub proof fn lemma_disassemble_deterministic(s1: Seq<char>, s2: Seq<char>, w: u32)
    requires
        s1 == disasm_spec(w),
        s2 == disasm_spec(w),
    ensures
        s1 == s2,
{
}

} // verus!
