use std::collections::HashMap;

use amd64_semantic::amd64::{reg, Condition, OperandSize, Register};
use amd64_semantic::codegen::{CodeGen, Config, Operation, Statement};
use amd64_semantic::disassembler::{Guard, Jump, State};
use amd64_semantic::semantic;
use amd64_semantic::semantic::{flagcomp, flagwr, ArithOp};
use amd64_semantic::value::{Endianess, Lvalue, Name, Rvalue, Space};

// A small executable model of the IL, used to run emitted code on
// concrete values. It follows the library's machine semantics: exact
// integer arithmetic, Euclidean division, 0 for division by zero and
// for `Undefined`, bitwise operations on 64-bit truncations.
struct Mach {
    vars: HashMap<Name, i128>,
    ram: HashMap<i128, i128>,
}

fn new_mach(init: &[(Register, i128)]) -> Mach {
    let mut vars = HashMap::new();
    for (r, v) in init {
        vars.insert(Name::Reg(*r), *v);
    }
    Mach { vars, ram: HashMap::new() }
}

fn rd(m: &Mach, r: &Rvalue) -> i128 {
    match r {
        Rvalue::Constant(c) => *c as i128,
        Rvalue::Undefined => 0,
        Rvalue::Variable { name, .. } => *m.vars.get(name).unwrap_or(&0),
        Rvalue::Memory { offset, .. } => *m.ram.get(&rd(m, offset)).unwrap_or(&0),
    }
}

fn bit(b: bool) -> i128 {
    if b {
        1
    } else {
        0
    }
}

fn eval(m: &Mach, op: &Operation) -> i128 {
    match op {
        Operation::IntAdd(a, b) => rd(m, a) + rd(m, b),
        Operation::IntSubtract(a, b) => rd(m, a) - rd(m, b),
        Operation::IntMultiply(a, b) => rd(m, a) * rd(m, b),
        Operation::IntDivide(a, b) => {
            let d = rd(m, b);
            if d == 0 {
                0
            } else {
                rd(m, a).div_euclid(d)
            }
        },
        Operation::IntModulo(a, b) => {
            let d = rd(m, b);
            if d == 0 {
                0
            } else {
                rd(m, a).rem_euclid(d)
            }
        },
        Operation::IntInclusiveOr(a, b) => ((rd(m, a) as u64) | (rd(m, b) as u64)) as i128,
        Operation::IntExclusiveOr(a, b) => ((rd(m, a) as u64) ^ (rd(m, b) as u64)) as i128,
        Operation::IntEqual(a, b) => bit(rd(m, a) == rd(m, b)),
        Operation::IntLess(a, b) => bit(rd(m, a) < rd(m, b)),
        Operation::IntCall(_) => 0,
        Operation::LogicAnd(a, b) => bit(rd(m, a) != 0 && rd(m, b) != 0),
        Operation::LogicInclusiveOr(a, b) => bit(rd(m, a) != 0 || rd(m, b) != 0),
        Operation::LogicExclusiveOr(a, b) => bit((rd(m, a) != 0) != (rd(m, b) != 0)),
        Operation::LogicNegation(a) => bit(rd(m, a) == 0),
        Operation::LogicLift(a) => bit(rd(m, a) != 0),
        Operation::Move(a) => rd(m, a),
    }
}

fn exec(m: &mut Mach, code: &[Statement]) {
    for s in code {
        let v = eval(m, &s.op);
        match &s.assignee {
            Lvalue::Undefined => {},
            Lvalue::Variable { name, .. } => {
                m.vars.insert(*name, v);
            },
            Lvalue::Memory { offset, .. } => {
                let a = rd(m, offset);
                m.ram.insert(a, v);
            },
        }
    }
}

fn get(m: &Mach, r: Register) -> i128 {
    *m.vars.get(&Name::Reg(r)).unwrap_or(&0)
}

fn gen(size: OperandSize) -> CodeGen {
    CodeGen::new(Config { operand_size: size }, 100)
}

fn var(r: Register) -> Rvalue {
    reg(r).to_rv()
}

fn tmp(n: u64, w: u16) -> Lvalue {
    Lvalue::Variable { width: w, name: Name::Temp(n) }
}

fn st(op: Operation, a: Lvalue) -> Statement {
    Statement { op, assignee: a }
}

#[test]
fn aad_emits_multiply_add_and_clear() {
    let mut cg = gen(OperandSize::ThirtyTwo);
    semantic::aad(&mut cg, Rvalue::Constant(10));
    let x = tmp(100, 16);
    let expected = vec![
        st(Operation::IntMultiply(var(Register::Ah), Rvalue::Constant(10)), x.duplicate()),
        st(Operation::IntAdd(x.to_rv(), var(Register::Al)), reg(Register::Al)),
        st(Operation::Move(Rvalue::Constant(0)), reg(Register::Ah)),
    ];
    assert_eq!(cg.statements, expected);
    assert_eq!(cg.next_temp, 101);
}

#[test]
fn aad_combines_unpacked_digits() {
    let mut cg = gen(OperandSize::ThirtyTwo);
    semantic::aad(&mut cg, Rvalue::Constant(10));
    let mut m = new_mach(&[(Register::Ah, 3), (Register::Al, 7)]);
    exec(&mut m, &cg.statements);
    assert_eq!(get(&m, Register::Al), 37);
    assert_eq!(get(&m, Register::Ah), 0);
}

#[test]
fn aam_splits_into_digits() {
    let mut cg = gen(OperandSize::ThirtyTwo);
    semantic::aam(&mut cg, Rvalue::Constant(10));
    assert_eq!(cg.statements.len(), 3);
    let mut m = new_mach(&[(Register::Al, 37), (Register::Ah, 9)]);
    exec(&mut m, &cg.statements);
    assert_eq!(get(&m, Register::Ah), 3);
    assert_eq!(get(&m, Register::Al), 7);
}

#[test]
fn aaa_follows_its_formula() {
    let mut cg = gen(OperandSize::ThirtyTwo);
    semantic::aaa(&mut cg);
    assert_eq!(cg.statements.len(), 12);
    assert_eq!(cg.next_temp, 103);
    // x1 = !(y <= 9) || AF with AF set: x1 = 1
    let mut m = new_mach(&[(Register::Al, 0x0b), (Register::Ax, 0x0b), (Register::AF, 1)]);
    exec(&mut m, &cg.statements);
    assert_eq!(get(&m, Register::AF), 1);
    assert_eq!(get(&m, Register::CF), 1);
    assert_eq!(get(&m, Register::Ax), (0x0b + 0x106) % 0x100);
    // with AF clear the and-value y is at most 1, so x1 = 0 and ax is kept modulo 0x100
    let mut m = new_mach(&[(Register::Al, 0x0b), (Register::Ax, 0x1234), (Register::AF, 0)]);
    exec(&mut m, &cg.statements);
    assert_eq!(get(&m, Register::AF), 0);
    assert_eq!(get(&m, Register::CF), 0);
    assert_eq!(get(&m, Register::Ax), 0x34);
}

#[test]
fn aas_follows_its_formula() {
    let mut cg = gen(OperandSize::ThirtyTwo);
    semantic::aas(&mut cg);
    assert_eq!(cg.statements.len(), 16);
    assert_eq!(cg.next_temp, 105);
    let mut m = new_mach(&[(Register::Al, 0x05), (Register::Ax, 0x0205), (Register::Ah, 2), (Register::AF, 1)]);
    exec(&mut m, &cg.statements);
    assert_eq!(get(&m, Register::AF), 1);
    assert_eq!(get(&m, Register::CF), 1);
    assert_eq!(get(&m, Register::Ax), (0x0205 - 6) % 0x100);
    assert_eq!(get(&m, Register::Ah), 1);
    assert_eq!(get(&m, Register::Al), 1);
}

#[test]
fn sub_stores_difference_and_flags() {
    let mut cg = gen(OperandSize::ThirtyTwo);
    semantic::sub(&mut cg, var(Register::Al), Rvalue::Constant(7));
    let mut m = new_mach(&[(Register::Al, 5)]);
    exec(&mut m, &cg.statements);
    assert_eq!(get(&m, Register::Al), -2);
    // borrow: CF holds exactly when a < b
    assert_ne!(get(&m, Register::CF), 0);
    assert_eq!(get(&m, Register::ZF), 0);
    assert_eq!(get(&m, Register::AF), 0);

    let mut cg = gen(OperandSize::ThirtyTwo);
    semantic::sub(&mut cg, var(Register::Al), Rvalue::Constant(5));
    let mut m = new_mach(&[(Register::Al, 5)]);
    exec(&mut m, &cg.statements);
    assert_eq!(get(&m, Register::Al), 0);
    assert_eq!(get(&m, Register::CF), 0);
    assert_eq!(get(&m, Register::ZF), 1);
}

#[test]
fn sbb_subtracts_the_carry() {
    let mut cg = gen(OperandSize::ThirtyTwo);
    semantic::sbb(&mut cg, var(Register::Al), Rvalue::Constant(3));
    let mut m = new_mach(&[(Register::Al, 10), (Register::CF, 1)]);
    exec(&mut m, &cg.statements);
    assert_eq!(get(&m, Register::Al), 6);
    assert_eq!(get(&m, Register::CF), 0);
    assert_eq!(get(&m, Register::SF), 0);
}

#[test]
fn xor_with_itself_sets_zero_flag() {
    let mut cg = gen(OperandSize::ThirtyTwo);
    semantic::xor(&mut cg, var(Register::Ax), var(Register::Ax));
    let mut m = new_mach(&[(Register::Ax, 0x1234)]);
    exec(&mut m, &cg.statements);
    assert_eq!(get(&m, Register::Ax), 0);
    assert_eq!(get(&m, Register::ZF), 1);
}

#[test]
fn or_sets_sign_from_top_bit() {
    let mut cg = gen(OperandSize::ThirtyTwo);
    semantic::or(&mut cg, var(Register::Al), Rvalue::Constant(0x80));
    let mut m = new_mach(&[(Register::Al, 0x01)]);
    exec(&mut m, &cg.statements);
    assert_eq!(get(&m, Register::Al), 0x81);
    assert_eq!(get(&m, Register::SF), 1);
    assert_eq!(get(&m, Register::CF), 0);
    assert_eq!(get(&m, Register::OF), 1);
    assert_eq!(get(&m, Register::ZF), 0);
}

#[test]
fn cmp_leaves_operand_and_sets_carry() {
    let mut cg = gen(OperandSize::ThirtyTwo);
    semantic::cmp(&mut cg, var(Register::Al), Rvalue::Constant(9));
    // no store into the operand: 1 + 1 + 6 + 21 statements
    assert_eq!(cg.statements.len(), 29);
    let mut m = new_mach(&[(Register::Al, 4)]);
    exec(&mut m, &cg.statements);
    assert_eq!(get(&m, Register::Al), 4);
    assert_ne!(get(&m, Register::CF), 0);
}

#[test]
fn narrower_operand_is_extended() {
    let mut cg = gen(OperandSize::ThirtyTwo);
    semantic::sub(&mut cg, var(Register::Ax), var(Register::Al));
    // four statements of the extension come first
    assert_eq!(cg.statements.len(), 4 + 1 + 1 + 1 + 6 + 21);
    assert_eq!(
        cg.statements[0],
        st(Operation::IntDivide(var(Register::Al), Rvalue::Constant(1 << 7)), tmp(102, 16))
    );
    assert_eq!(cg.next_temp, 105);
}

#[test]
fn cmov_moves_on_condition() {
    let mut cg = gen(OperandSize::ThirtyTwo);
    semantic::cmov(&mut cg, var(Register::Eax), Rvalue::Constant(42), Condition::Equal);
    let mut m = new_mach(&[(Register::Eax, 7), (Register::ZF, 1)]);
    exec(&mut m, &cg.statements);
    assert_eq!(get(&m, Register::Eax), 42);
    let mut m = new_mach(&[(Register::Eax, 7), (Register::ZF, 0)]);
    exec(&mut m, &cg.statements);
    assert_eq!(get(&m, Register::Eax), 7);

    let mut cg = gen(OperandSize::ThirtyTwo);
    semantic::cmov(&mut cg, var(Register::Eax), Rvalue::Constant(42), Condition::Above);
    let mut m = new_mach(&[(Register::Eax, 7), (Register::ZF, 0), (Register::CF, 0)]);
    exec(&mut m, &cg.statements);
    assert_eq!(get(&m, Register::Eax), 42);
    let mut m = new_mach(&[(Register::Eax, 7), (Register::ZF, 0), (Register::CF, 1)]);
    exec(&mut m, &cg.statements);
    assert_eq!(get(&m, Register::Eax), 7);
}

#[test]
fn cmov_temporaries_per_condition() {
    let mut cg = gen(OperandSize::ThirtyTwo);
    semantic::cmov(&mut cg, var(Register::Eax), var(Register::Ax), Condition::Overflow);
    assert_eq!(cg.next_temp, 104);
    assert_eq!(cg.statements.len(), 6);
    let mut cg = gen(OperandSize::ThirtyTwo);
    semantic::cmov(&mut cg, var(Register::Eax), var(Register::Ax), Condition::Greater);
    assert_eq!(cg.next_temp, 106);
    assert_eq!(cg.statements.len(), 9);
}

#[test]
fn cmpxchg_exchanges_on_equality() {
    let mut cg = gen(OperandSize::ThirtyTwo);
    semantic::cmpxchg(&mut cg, var(Register::Ax), Rvalue::Constant(99));
    assert_eq!(cg.statements.len(), 11);
    let mut m = new_mach(&[(Register::Ax, 5), (Register::Eax, 5)]);
    exec(&mut m, &cg.statements);
    assert_eq!(get(&m, Register::ZF), 1);
    assert_eq!(get(&m, Register::Ax), 99);
    assert_eq!(get(&m, Register::Eax), 5);
    let mut m = new_mach(&[(Register::Ax, 5), (Register::Eax, 6)]);
    exec(&mut m, &cg.statements);
    assert_eq!(get(&m, Register::ZF), 0);
    assert_eq!(get(&m, Register::Ax), 5);
}

#[test]
fn cmps_compares_bytes_and_steps() {
    let mut cg = gen(OperandSize::ThirtyTwo);
    semantic::cmps(&mut cg, var(Register::Eax), var(Register::Esp));
    assert_eq!(cg.next_temp, 106);
    let mut m = new_mach(&[(Register::Eax, 0x10), (Register::Esp, 0x20), (Register::DF, 0)]);
    m.ram.insert(0x10, 3);
    m.ram.insert(0x20, 3);
    exec(&mut m, &cg.statements);
    assert_eq!(get(&m, Register::Eax), 0x0f);
    assert_eq!(get(&m, Register::Esp), 0x1f);
    assert_eq!(get(&m, Register::CF), 0);
    assert_eq!(
        cg.statements[0],
        st(
            Operation::IntSubtract(
                Rvalue::Memory {
                    offset: Box::new(var(Register::Eax)),
                    bytes: 1,
                    endianess: Endianess::Little,
                    name: Space::Ram
                },
                Rvalue::Memory {
                    offset: Box::new(var(Register::Esp)),
                    bytes: 1,
                    endianess: Endianess::Little,
                    name: Space::Ram
                },
            ),
            tmp(100, 8)
        )
    );
}

#[test]
fn near_rcall_32_targets_relative_address() {
    let mut cg = gen(OperandSize::ThirtyTwo);
    semantic::near_rcall(&mut cg, Rvalue::Constant(0x10));
    let mut m = new_mach(&[(Register::Eip, 0xffff_fff8), (Register::Esp, 0x1000), (Register::Rip, 0x500)]);
    exec(&mut m, &cg.statements);
    assert_eq!(get(&m, Register::Eip), 0x8);
    assert_eq!(get(&m, Register::Esp), 0x1020);
    assert_eq!(*m.ram.get(&0x500).unwrap(), 0xffff_fff8);
    assert_eq!(*cg.statements.last().unwrap(), st(Operation::IntCall(tmp(100, 32).to_rv()), Lvalue::Undefined));
}

#[test]
fn near_call_32_through_register() {
    let mut cg = gen(OperandSize::ThirtyTwo);
    semantic::near_call(&mut cg, var(Register::Eax));
    assert_eq!(cg.next_temp, 100);
    let mut m = new_mach(&[(Register::Eax, 0x4000), (Register::Eip, 0x10)]);
    exec(&mut m, &cg.statements);
    assert_eq!(get(&m, Register::Eip), 0x4000);
}

#[test]
fn near_call_under_sixteen_uses_rip() {
    let mut cg = gen(OperandSize::Sixteen);
    semantic::near_rcall(&mut cg, Rvalue::Constant(0x30));
    let mut m = new_mach(&[(Register::Rip, 0x1000), (Register::Rsp, 0x8000)]);
    exec(&mut m, &cg.statements);
    assert_eq!(get(&m, Register::Rip), 0x1030);
    assert_eq!(get(&m, Register::Rsp), 0x8040);
    assert_eq!(cg.next_temp, 102);
}

#[test]
fn near_call_under_sixty_four_wraps_at_sixteen_bits() {
    let mut cg = gen(OperandSize::SixtyFour);
    semantic::near_call(&mut cg, Rvalue::Constant(0x12345));
    let mut m = new_mach(&[(Register::Sp, 0xfff0)]);
    exec(&mut m, &cg.statements);
    assert_eq!(get(&m, Register::Rip), 0x2345);
    assert_eq!(get(&m, Register::Sp), (0xfff0 + 64) % 0x10000);
}

#[test]
fn far_call_pushes_segment_and_pointer() {
    let mut cg = gen(OperandSize::ThirtyTwo);
    semantic::far_call(&mut cg, Rvalue::Constant(0));
    assert_eq!(cg.statements.len(), 6);
    assert_eq!(
        cg.statements[0],
        st(
            Operation::Move(var(Register::Cs)),
            Lvalue::Memory {
                offset: Box::new(var(Register::Rip)),
                bytes: 2,
                endianess: Endianess::Little,
                name: Space::Ram
            }
        )
    );
    let mut cg = gen(OperandSize::Sixteen);
    semantic::far_rcall(&mut cg, Rvalue::Constant(0));
    let mut m = new_mach(&[(Register::Sp, 0xfffe)]);
    exec(&mut m, &cg.statements);
    assert_eq!(get(&m, Register::Sp), (0xfffe + 32) % 0x10000);
}

#[test]
fn flag_updates_write_and_complement() {
    let w = flagwr(&reg(Register::CF), true);
    let c = flagcomp(&reg(Register::CF));
    let mut cg = gen(OperandSize::ThirtyTwo);
    w.apply(&mut cg);
    assert_eq!(cg.statements, vec![st(Operation::Move(Rvalue::Constant(1)), reg(Register::CF))]);
    c.apply(&mut cg);
    c.apply(&mut cg);
    let mut m = new_mach(&[]);
    exec(&mut m, &cg.statements);
    assert_eq!(get(&m, Register::CF), 1);
    let mut cg = gen(OperandSize::ThirtyTwo);
    flagwr(&reg(Register::DF), false).apply(&mut cg);
    c.apply(&mut cg);
    let mut m = new_mach(&[(Register::DF, 1), (Register::CF, 1)]);
    exec(&mut m, &cg.statements);
    assert_eq!(get(&m, Register::DF), 0);
    assert_eq!(get(&m, Register::CF), 0);
}

#[test]
fn plain_mnemonics_fall_through() {
    let mut s = State::new(0x100, vec![0x98]);
    assert!(semantic::conv(&mut s));
    assert_eq!(s.mnemonics.len(), 1);
    assert_eq!(s.mnemonics[0].opcode, "conv");
    assert_eq!(s.mnemonics[0].format_string, "{}");
    assert_eq!(s.mnemonics[0].area_start, 0x100);
    assert_eq!(s.mnemonics[0].area_end, 0x101);
    assert!(s.mnemonics[0].operands.is_empty());
    assert!(s.mnemonics[0].instructions.is_empty());
    assert_eq!(s.jumps, vec![Jump { origin: 0x100, target: Rvalue::Constant(0x101), guard: Guard::True }]);

    let mut s = State::new(0x2000, vec![0xe2, 0xfe]);
    assert!(semantic::loop_(&mut s));
    assert_eq!(s.mnemonics[0].opcode, "loop");
    assert_eq!(s.jumps[0].target, Rvalue::Constant(0x2002));
    assert!(semantic::pusha(&mut s));
    assert_eq!(s.mnemonics[1].opcode, "pusha");
    assert_eq!(s.jumps.len(), 2);
}

#[test]
fn instructions_without_semantics_emit_nothing() {
    let mut cg = gen(OperandSize::ThirtyTwo);
    semantic::adc(&mut cg, var(Register::Al), Rvalue::Constant(1));
    semantic::add(&mut cg, var(Register::Al), Rvalue::Constant(1));
    semantic::lds(&mut cg, var(Register::Ax), Rvalue::Constant(1));
    semantic::std_(&mut cg);
    semantic::int_(&mut cg, Rvalue::Constant(3));
    semantic::setcc(&mut cg, var(Register::Al), Condition::Carry);
    assert!(cg.statements.is_empty());
    assert_eq!(cg.next_temp, 100);
}

#[test]
fn constants_have_no_place() {
    assert_eq!(Lvalue::from_rvalue(&Rvalue::Constant(3)), None);
    assert_eq!(Lvalue::from_rvalue(&var(Register::Al)), Some(reg(Register::Al)));
    assert_eq!(Lvalue::from_rvalue(&Rvalue::Undefined), Some(Lvalue::Undefined));
}

#[test]
fn arith_kind_is_exposed() {
    assert_ne!(ArithOp::Cmp, ArithOp::Sub);
}

#[test]
fn extension_keeps_values_with_clear_top_bit() {
    let mut cg = gen(OperandSize::ThirtyTwo);
    semantic::sub(&mut cg, var(Register::Ax), var(Register::Al));
    let mut m = new_mach(&[(Register::Ax, 0x0100), (Register::Al, 0x05)]);
    exec(&mut m, &cg.statements);
    assert_eq!(*m.vars.get(&Name::Temp(103)).unwrap(), 0x05);
    assert_eq!(get(&m, Register::Ax), 0x00fb);
    assert_eq!(get(&m, Register::ZF), 0);
}

#[test]
fn temporaries_are_fresh() {
    let mut cg = gen(OperandSize::ThirtyTwo);
    let a = cg.new_temp(8);
    let b = cg.new_temp(8);
    assert_ne!(a, b);
    assert_ne!(a, reg(Register::Al));
    assert_eq!(cg.next_temp, 102);
}

#[test]
fn sbb_with_clear_carry_equals_sub() {
    for (x, y) in [(10i128, 3u64), (3, 10), (0x80, 1), (7, 7)] {
        let mut c1 = gen(OperandSize::ThirtyTwo);
        semantic::sbb(&mut c1, var(Register::Ax), Rvalue::Constant(y));
        let mut c2 = gen(OperandSize::ThirtyTwo);
        semantic::sub(&mut c2, var(Register::Ax), Rvalue::Constant(y));
        let mut m1 = new_mach(&[(Register::Ax, x), (Register::CF, 0)]);
        let mut m2 = new_mach(&[(Register::Ax, x), (Register::CF, 0)]);
        exec(&mut m1, &c1.statements);
        exec(&mut m2, &c2.statements);
        for r in [Register::Ax, Register::CF, Register::AF, Register::SF, Register::ZF, Register::OF, Register::PF] {
            assert_eq!(get(&m1, r), get(&m2, r));
        }
    }
}

#[test]
fn cmp_and_sub_agree_on_flags() {
    let mut c1 = gen(OperandSize::ThirtyTwo);
    semantic::cmp(&mut c1, var(Register::Al), var(Register::Ah));
    let mut c2 = gen(OperandSize::ThirtyTwo);
    semantic::sub(&mut c2, var(Register::Al), var(Register::Ah));
    let mut m1 = new_mach(&[(Register::Al, 0x13), (Register::Ah, 0x21)]);
    let mut m2 = new_mach(&[(Register::Al, 0x13), (Register::Ah, 0x21)]);
    exec(&mut m1, &c1.statements);
    exec(&mut m2, &c2.statements);
    for r in [Register::CF, Register::AF, Register::SF, Register::OF, Register::PF] {
        assert_eq!(get(&m1, r), get(&m2, r));
    }
    assert_eq!(get(&m1, Register::Al), 0x13);
    assert_eq!(get(&m2, Register::Al), 0x13 - 0x21);
}

#[test]
fn parity_flag_value() {
    // PF = (r % 2) ^ (r / 2) ^ (r / 4) ^ ... ^ (r / 128) for r = 3
    let mut cg = gen(OperandSize::ThirtyTwo);
    semantic::sub(&mut cg, var(Register::Al), Rvalue::Constant(0));
    let mut m = new_mach(&[(Register::Al, 3)]);
    exec(&mut m, &cg.statements);
    let r: u64 = 3;
    let mut p = r % 2;
    for k in 1..8 {
        p ^= r >> k;
    }
    assert_eq!(get(&m, Register::PF), p as i128);
    assert_eq!(p, 0);
}

#[test]
fn cmov_to_memory() {
    let dst = Rvalue::Memory {
        offset: Box::new(var(Register::Eax)),
        bytes: 4,
        endianess: Endianess::Little,
        name: Space::Ram,
    };
    let mut cg = gen(OperandSize::ThirtyTwo);
    semantic::cmov(&mut cg, dst, Rvalue::Constant(77), Condition::Carry);
    let mut m = new_mach(&[(Register::Eax, 0x40), (Register::CF, 1)]);
    m.ram.insert(0x40, 5);
    exec(&mut m, &cg.statements);
    assert_eq!(*m.ram.get(&0x40).unwrap(), 77);
    let mut m = new_mach(&[(Register::Eax, 0x40), (Register::CF, 0)]);
    m.ram.insert(0x40, 5);
    exec(&mut m, &cg.statements);
    assert_eq!(*m.ram.get(&0x40).unwrap(), 5);
}

#[test]
fn sub_to_memory_with_narrower_operand() {
    let dst = Rvalue::Memory {
        offset: Box::new(Rvalue::Constant(0x80)),
        bytes: 2,
        endianess: Endianess::Little,
        name: Space::Ram,
    };
    let mut cg = gen(OperandSize::ThirtyTwo);
    semantic::sub(&mut cg, dst, var(Register::Al));
    let mut m = new_mach(&[(Register::Al, 0x10)]);
    m.ram.insert(0x80, 0x0110);
    exec(&mut m, &cg.statements);
    assert_eq!(*m.ram.get(&0x80).unwrap(), 0x0100);
    assert_eq!(get(&m, Register::ZF), 0);
    assert_eq!(get(&m, Register::CF), 0);
}

#[test]
fn cmps_steps_down_with_clear_direction_flag() {
    let mut cg = gen(OperandSize::ThirtyTwo);
    semantic::cmps(&mut cg, var(Register::Eax), var(Register::Esp));
    let mut m = new_mach(&[(Register::Eax, 0x10), (Register::Esp, 0x20), (Register::DF, 1)]);
    m.ram.insert(0x10, 1);
    m.ram.insert(0x20, 2);
    exec(&mut m, &cg.statements);
    assert_eq!(get(&m, Register::Eax), 0x11);
    assert_eq!(get(&m, Register::Esp), 0x21);
    assert_eq!(get(&m, Register::CF), -1);
    assert_eq!(get(&m, Register::ZF), 0);
}

#[test]
fn far_call_leaves_pointer_at_rip_address() {
    let mut cg = gen(OperandSize::SixtyFour);
    semantic::far_call(&mut cg, Rvalue::Constant(0));
    let mut m = new_mach(&[(Register::Rip, 0x700), (Register::Cs, 0x33), (Register::Rsp, 0x100)]);
    exec(&mut m, &cg.statements);
    assert_eq!(*m.ram.get(&0x700).unwrap(), 0x700);
    assert_eq!(get(&m, Register::Rsp), 0x100 + 16 + 64);
}
