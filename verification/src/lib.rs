//! Disassembler for a small register machine with 32-bit instruction words.
//!
//! An instruction word carries a 4-bit opcode in its top bits and packs its
//! operands into fixed bit-fields below.  The library extracts such fields
//! ([`field`]), renders unsigned values as decimal text ([`decimal`]), and
//! turns a whole word into one line of assembly-like text ([`disasm`]).

pub mod decimal;
pub mod disasm;
pub mod field;

pub use disasm::disassemble;
pub use field::get;
pub use field::Field;
