use rumdis::disassemble;
use rumdis::get;
use rumdis::Field;

fn word(op: u32, a: u32, b: u32, c: u32) -> u32 {
    (op << 28) | (a << 6) | (b << 3) | c
}

#[test]
fn halt_ignores_operand_bits() {
    assert_eq!(disassemble(0x7000_0000), "halt;");
    assert_eq!(disassemble(0x70AB_CDE5), "halt;");
    assert_eq!(disassemble(0x7FFF_FFFF), "halt;");
}

#[test]
fn add_scenario() {
    assert_eq!(disassemble(word(3, 1, 2, 3)), "r1 := r2 + r3;");
}

#[test]
fn load_value_scenario() {
    let w: u32 = (13 << 28) | (4 << 25) | 100;
    assert_eq!(disassemble(w), "r4 := 100;");
}

#[test]
fn cmov_scenario() {
    assert_eq!(disassemble(word(0, 5, 6, 7)), "if (r7 != 0) r5 := r6;");
}

#[test]
fn unknown_opcode_14() {
    assert_eq!(disassemble(14u32 << 28), "unknown opcode");
    assert_eq!(disassemble((14u32 << 28) | 0x0123_4567), "unknown opcode");
}

#[test]
fn unknown_opcode_15() {
    assert_eq!(disassemble(15u32 << 28), "unknown opcode");
    assert_eq!(disassemble(u32::MAX), "unknown opcode");
}

#[test]
fn template_cmov() {
    assert_eq!(disassemble(word(0, 1, 2, 3)), "if (r3 != 0) r1 := r2;");
}

#[test]
fn template_load() {
    assert_eq!(disassemble(word(1, 1, 2, 3)), "r1 := M[r2 + 3];");
}

#[test]
fn template_store() {
    assert_eq!(disassemble(word(2, 1, 2, 3)), "M[r1 + 2] := r3;");
}

#[test]
fn template_add() {
    assert_eq!(disassemble(word(3, 7, 0, 4)), "r7 := r0 + r4;");
}

#[test]
fn template_mul() {
    assert_eq!(disassemble(word(4, 1, 2, 3)), "r1 := r2 * r3;");
}

#[test]
fn template_div() {
    assert_eq!(disassemble(word(5, 1, 2, 3)), "r1 := r2 / r3;");
}

#[test]
fn template_nand() {
    assert_eq!(disassemble(word(6, 1, 2, 3)), "r1 := ~(r2 & r3);");
}

#[test]
fn template_halt() {
    assert_eq!(disassemble(word(7, 1, 2, 3)), "halt;");
}

#[test]
fn template_map() {
    assert_eq!(disassemble(word(8, 1, 2, 3)), "r1 := map(r2);");
}

#[test]
fn template_unmap() {
    assert_eq!(disassemble(word(9, 1, 2, 3)), "unmap(r1);");
}

#[test]
fn template_out() {
    assert_eq!(disassemble(word(10, 1, 2, 3)), "out(r1);");
}

#[test]
fn template_in() {
    assert_eq!(disassemble(word(11, 1, 2, 3)), "r1 := in();");
}

#[test]
fn template_load_program() {
    assert_eq!(disassemble(word(12, 1, 2, 3)), "r1 := M[r2 + r3];");
}

#[test]
fn template_load_value_extremes() {
    let max_vl: u32 = (1 << 25) - 1;
    let w: u32 = (13 << 28) | (7 << 25) | max_vl;
    assert_eq!(disassemble(w), "r7 := 33554431;");
    assert_eq!(disassemble(13 << 28), "r0 := 0;");
}

#[test]
fn word_zero_is_cmov_of_r0() {
    assert_eq!(disassemble(0), "if (r0 != 0) r0 := r0;");
}

#[test]
fn disassemble_is_deterministic() {
    let words: [u32; 5] = [0, 0x7000_0000, word(3, 1, 2, 3), u32::MAX, 0x1234_5678];
    for w in words {
        assert_eq!(disassemble(w), disassemble(w));
    }
}

#[test]
fn get_opcode_field() {
    let op_field = Field { width: 4, lsb: 28 };
    assert_eq!(get(&op_field, 0x7ABC_DEF0), 7);
    assert_eq!(get(&op_field, 0xF000_0000), 15);
    assert_eq!(get(&op_field, 0x0FFF_FFFF), 0);
}

#[test]
fn get_whole_word() {
    let all = Field { width: 32, lsb: 0 };
    assert_eq!(get(&all, 0xDEAD_BEEF), 0xDEAD_BEEF);
    assert_eq!(get(&all, 0), 0);
}

#[test]
fn get_single_bits() {
    let w: u32 = 0b1010;
    assert_eq!(get(&Field { width: 1, lsb: 0 }, w), 0);
    assert_eq!(get(&Field { width: 1, lsb: 1 }, w), 1);
    assert_eq!(get(&Field { width: 1, lsb: 2 }, w), 0);
    assert_eq!(get(&Field { width: 1, lsb: 3 }, w), 1);
    assert_eq!(get(&Field { width: 1, lsb: 31 }, 0x8000_0000), 1);
}

#[test]
fn get_result_is_bounded_by_width() {
    let f = Field { width: 3, lsb: 6 };
    for w in [0u32, u32::MAX, 0x1234_5678, 0xFFFF_FFC0] {
        assert!(get(&f, w) < 8);
    }
}

#[test]
fn place_then_extract_round_trip() {
    let cases: [(u32, u32, u32); 6] = [
        (1, 0, 1),
        (3, 6, 5),
        (5, 7, 19),
        (25, 0, 33_554_431),
        (4, 28, 14),
        (32, 0, u32::MAX),
    ];
    for (width, lsb, v) in cases {
        let w: u32 = v << lsb;
        assert_eq!(get(&Field { width, lsb }, w), v);
    }
}
