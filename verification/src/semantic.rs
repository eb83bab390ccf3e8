use vstd::prelude::*;

use crate::amd64::{reg, reg_lv, Condition, Mode, OperandSize, Register};
use crate::codegen::{emitted, stmt, temp, CodeGen, Operation, Statement};
use crate::disassembler::{mnemonic_is, Guard, Jump, State};
use crate::value::{lv_to_rv, rv_to_lv, Endianess, Lvalue, Rvalue, Space};

verus! {

// ---------------------------------------------------------------------
// Shorthands of the specifications
// ---------------------------------------------------------------------

/// The constant `v`.
pub open spec fn cst(v: u64) -> Rvalue {
    Rvalue::Constant(v)
}

/// Reading register `r`.
pub open spec fn rd(r: Register) -> Rvalue {
    lv_to_rv(reg_lv(r))
}

/// Reading the temporary numbered `n`, `w` bits wide.
pub open spec fn rt(n: u64, w: u16) -> Rvalue {
    lv_to_rv(temp(n, w))
}

/// The value has a width: it is a variable or a memory access.
pub open spec fn has_width(a: Rvalue) -> bool {
    a is Variable || a is Memory
}

/// Width in bits of a variable or memory access.
pub open spec fn width_of(a: Rvalue) -> nat {
    match a {
        Rvalue::Variable { width, .. } => width as nat,
        Rvalue::Memory { bytes, .. } => bytes as nat * 8,
        _ => 0,
    }
}

/// The byte of main memory at `offset`, little endian.
pub open spec fn ram_byte(offset: Rvalue) -> Lvalue {
    Lvalue::Memory { offset: Box::new(offset), bytes: 1, endianess: Endianess::Little, name: Space::Ram }
}

// ---------------------------------------------------------------------
// Helpers
// ---------------------------------------------------------------------

fn bitwidth(a: &Rvalue) -> (w: usize)
    requires
        has_width(*a),
    ensures
        w == width_of(*a),
{
    match a {
        Rvalue::Variable { width, .. } => *width as usize,
        Rvalue::Memory { bytes, .. } => (*bytes as usize) * 8,
        _ => 0,
    }
}

/// Code that stores the variable `v` at the address in `rip` and moves
/// the stack pointer of `mode` up by the width of `v`.
pub open spec fn push_code(v: Rvalue, mode: Mode) -> Seq<Statement> {
    let w = v->Variable_width;
    let slot = Lvalue::Memory {
        offset: Box::new(rd(Register::Rip)),
        bytes: (w / 8) as u16,
        endianess: Endianess::Little,
        name: Space::Ram,
    };
    let store = stmt(Operation::Move(v), slot);
    match mode {
        Mode::Real => seq![
            store,
            stmt(Operation::IntAdd(rd(Register::Sp), cst(w as u64)), reg_lv(Register::Sp)),
            stmt(Operation::IntModulo(rd(Register::Sp), cst(0x10000)), reg_lv(Register::Sp)),
        ],
        Mode::Protected => seq![
            store,
            stmt(Operation::IntAdd(rd(Register::Esp), cst(w as u64)), reg_lv(Register::Esp)),
            stmt(Operation::IntModulo(rd(Register::Esp), cst(0x100000000)), reg_lv(Register::Esp)),
        ],
        Mode::Long => seq![
            store,
            stmt(Operation::IntAdd(rd(Register::Rsp), cst(w as u64)), reg_lv(Register::Rsp)),
        ],
    }
}

fn do_push(v: &Rvalue, mode: Mode, cg: &mut CodeGen)
    requires
        *v is Variable,
    ensures
        emitted(*old(cg), *final(cg), push_code(*v, mode), 0),
{
    if let Rvalue::Variable { width: w, .. } = v {
        let rip = reg(Register::Rip);
        cg.assign(
            Lvalue::Memory {
                offset: Box::new(rip.to_rv()),
                bytes: *w / 8,
                endianess: Endianess::Little,
                name: Space::Ram,
            },
            v.duplicate(),
        );
        match mode {
            Mode::Real => {
                let sp = reg(Register::Sp);
                cg.add_i(sp.duplicate(), sp.to_rv(), Rvalue::Constant(*w as u64));
                cg.mod_i(sp.duplicate(), sp.to_rv(), Rvalue::Constant(0x10000));
            },
            Mode::Protected => {
                let esp = reg(Register::Esp);
                cg.add_i(esp.duplicate(), esp.to_rv(), Rvalue::Constant(*w as u64));
                cg.mod_i(esp.duplicate(), esp.to_rv(), Rvalue::Constant(0x100000000));
            },
            Mode::Long => {
                let rsp = reg(Register::Rsp);
                cg.add_i(rsp.duplicate(), rsp.to_rv(), Rvalue::Constant(*w as u64));
            },
        }
        assert(cg.statements@ =~= old(cg).statements@ + push_code(*v, mode));
    }
}

/// Code of `sign_ext(v, from, to)` with its temporaries numbered from `t`;
/// the result is read from temporary `t + 1`.
pub open spec fn sign_ext_code(v: Rvalue, from: usize, to: usize, t: u64) -> Seq<Statement> {
    let sign = temp(t, to as u16);
    let rest = temp((t + 1) as u64, to as u16);
    let mask = cst(1u64 << ((from - 1) as u64));
    seq![
        stmt(Operation::IntDivide(v, mask), sign),
        stmt(Operation::IntModulo(v, mask), rest),
        stmt(Operation::IntModulo(lv_to_rv(sign), cst(1u64 << ((to - 1) as u64))), sign),
        stmt(Operation::IntAdd(lv_to_rv(sign), lv_to_rv(rest)), rest),
    ]
}

fn sign_ext(v: &Rvalue, from: usize, to: usize, cg: &mut CodeGen) -> (r: Rvalue)
    requires
        0 < from < to <= 64,
        old(cg).next_temp + 2 <= u64::MAX,
    ensures
        emitted(*old(cg), *final(cg), sign_ext_code(*v, from, to, old(cg).next_temp), 2),
        r == rt((old(cg).next_temp + 1) as u64, to as u16),
{
    let sign = cg.new_temp(to);
    let rest = cg.new_temp(to);
    let mask: u64 = 1u64 << ((from - 1) as u64);

    cg.div_i(sign.duplicate(), v.duplicate(), Rvalue::Constant(mask));
    cg.mod_i(rest.duplicate(), v.duplicate(), Rvalue::Constant(mask));

    cg.mod_i(sign.duplicate(), sign.to_rv(), Rvalue::Constant(1u64 << ((to - 1) as u64)));
    cg.add_i(rest.duplicate(), sign.to_rv(), rest.to_rv());
    assert(cg.statements@ =~= old(cg).statements@ + sign_ext_code(*v, from, to, old(cg).next_temp));
    rest.to_rv()
}

/// The three statements that fold bit-slice `k` of `res` into `PF`.
pub open spec fn parity_step(res: Rvalue, tmp: Lvalue, k: nat) -> Seq<Statement> {
    seq![
        stmt(Operation::IntModulo(res, cst(1u64 << ((k + 1) as u64))), tmp),
        stmt(Operation::IntDivide(res, cst(1u64 << (k as u64))), tmp),
        stmt(Operation::IntExclusiveOr(rd(Register::PF), lv_to_rv(tmp)), reg_lv(Register::PF)),
    ]
}

/// The parity steps for slices `1` up to `k - 1`, in that order.
pub open spec fn parity_chain(res: Rvalue, tmp: Lvalue, k: nat) -> Seq<Statement>
    decreases k,
{
    if k <= 1 {
        seq![]
    } else {
        parity_chain(res, tmp, (k - 1) as nat) + parity_step(res, tmp, (k - 1) as nat)
    }
}

/// Code that sets the arithmetic flags from the result `res`, its low
/// byte `res_half` and the first operand `a`; its temporary is `t`.
pub open spec fn flags_code(res: Lvalue, res_half: Rvalue, a: Rvalue, t: u64) -> Seq<Statement> {
    let aw = width_of(a);
    let r = lv_to_rv(res);
    seq![
        stmt(Operation::IntDivide(r, cst(1u64 << (aw as u64))), reg_lv(Register::CF)),
        stmt(Operation::IntDivide(res_half, cst(0x100)), reg_lv(Register::AF)),
        stmt(Operation::IntDivide(r, cst(1u64 << ((aw - 1) as u64))), reg_lv(Register::SF)),
        stmt(Operation::IntEqual(a, cst(0)), reg_lv(Register::ZF)),
        stmt(Operation::IntExclusiveOr(rd(Register::CF), rd(Register::SF)), reg_lv(Register::OF)),
        stmt(Operation::IntModulo(r, cst(2)), reg_lv(Register::PF)),
    ] + parity_chain(r, temp(t, aw as u16), 8)
}

/// Operands that the flag computation accepts: `a` has a width of 1 to 63 bits.
pub open spec fn flags_ok(a: Rvalue) -> bool {
    has_width(a) && 1 <= width_of(a) < 64
}

fn set_arithm_flags(res: &Lvalue, res_half: &Rvalue, a: &Rvalue, b: &Rvalue, cg: &mut CodeGen)
    requires
        flags_ok(*a),
        old(cg).next_temp + 1 <= u64::MAX,
    ensures
        emitted(*old(cg), *final(cg), flags_code(*res, *res_half, *a, old(cg).next_temp), 1),
{
    let aw = bitwidth(a);
    let ghost r = lv_to_rv(*res);

    cg.div_i(reg(Register::CF), res.to_rv(), Rvalue::Constant(1u64 << (aw as u64)));
    cg.div_i(reg(Register::AF), res_half.duplicate(), Rvalue::Constant(0x100));
    cg.div_i(reg(Register::SF), res.to_rv(), Rvalue::Constant(1u64 << ((aw - 1) as u64)));
    cg.equal_i(reg(Register::ZF), a.duplicate(), Rvalue::Constant(0));
    cg.xor_i(reg(Register::OF), reg(Register::CF).to_rv(), reg(Register::SF).to_rv());

    let tmp = cg.new_temp(aw);

    cg.mod_i(reg(Register::PF), res.to_rv(), Rvalue::Constant(2));

    let ghost head = cg.statements@;
    assert(head =~= old(cg).statements@ + flags_code(*res, *res_half, *a, old(cg).next_temp).take(6));
    let mut k: u64 = 1;
    while k < 8
        invariant
            1 <= k <= 8,
            lv_to_rv(*res) == r,
            tmp == temp(old(cg).next_temp, aw as u16),
            cg.statements@ == head + parity_chain(r, tmp, k as nat),
            cg.configuration == old(cg).configuration,
            cg.next_temp == old(cg).next_temp + 1,
        decreases 8 - k,
    {
        cg.mod_i(tmp.duplicate(), res.to_rv(), Rvalue::Constant(1u64 << (k + 1)));
        cg.div_i(tmp.duplicate(), res.to_rv(), Rvalue::Constant(1u64 << k));
        cg.xor_i(reg(Register::PF), reg(Register::PF).to_rv(), tmp.to_rv());
        assert(parity_chain(r, tmp, (k + 1) as nat) == parity_chain(r, tmp, k as nat) + parity_step(r, tmp, k as nat));
        assert(cg.statements@ =~= head + parity_chain(r, tmp, (k + 1) as nat));
        k = k + 1;
    }
    assert(cg.statements@ =~= old(cg).statements@ + flags_code(*res, *res_half, *a, old(cg).next_temp));
}

// ---------------------------------------------------------------------
// Two-operand arithmetic with flags
// ---------------------------------------------------------------------

/// The two-operand instructions that compute a result and set the
/// arithmetic flags from it.
#[derive(Clone, Copy, Debug, PartialEq, Eq, Structural)]
pub enum ArithOp {
    Cmp,
    Or,
    Sbb,
    Sub,
    Xor,
}

/// Width at which the second operand is used: a constant takes the
/// width of the first operand.
pub open spec fn operand_width(b: Rvalue, aw: nat) -> nat {
    if b is Constant {
        aw
    } else {
        width_of(b)
    }
}

/// Operands that the two-operand arithmetic accepts: `a` is a place of
/// 1 to 63 bits, and `b` is a constant or has a width of at least 1
/// and at most that of `a`.
pub open spec fn arith_ok(a: Rvalue, b: Rvalue) -> bool {
    &&& flags_ok(a)
    &&& b is Constant || (has_width(b) && 0 < width_of(b) <= width_of(a))
}

/// Number of temporaries the extension of `b` to width `aw` takes.
pub open spec fn ext_temps(b: Rvalue, aw: nat) -> nat {
    if operand_width(b, aw) == aw {
        0
    } else {
        2
    }
}

/// Code that extends `b` to width `aw`, with temporaries from `t`.
pub open spec fn ext_code(b: Rvalue, aw: nat, t: u64) -> Seq<Statement> {
    if operand_width(b, aw) == aw {
        seq![]
    } else {
        sign_ext_code(b, width_of(b) as usize, aw as usize, t)
    }
}

/// The second operand after extension to width `aw`.
pub open spec fn ext_value(b: Rvalue, aw: nat, t: u64) -> Rvalue {
    if operand_width(b, aw) == aw {
        b
    } else {
        rt((t + 1) as u64, aw as u16)
    }
}

/// Number of temporaries an arithmetic instruction takes.
pub open spec fn arith_temps(a: Rvalue, b: Rvalue) -> nat {
    3 + ext_temps(b, width_of(a))
}

/// The core of the two-operand instruction `kind` on `a` and the
/// extended second operand `bx`: the result into temporary `t`, its low
/// byte into temporary `t + 1`, and (but for `cmp`) the result into `a`.
pub open spec fn arith_core_code(kind: ArithOp, a: Rvalue, bx: Rvalue, t: u64) -> Seq<Statement> {
    let res = temp(t, width_of(a) as u16);
    let rh = temp((t + 1) as u64, 8);
    let compute = match kind {
        ArithOp::Cmp | ArithOp::Sub => seq![stmt(Operation::IntSubtract(a, bx), res)],
        ArithOp::Sbb => seq![
            stmt(Operation::IntSubtract(a, bx), res),
            stmt(Operation::IntSubtract(lv_to_rv(res), rd(Register::CF)), res),
        ],
        ArithOp::Or => seq![stmt(Operation::IntInclusiveOr(a, bx), res)],
        ArithOp::Xor => seq![stmt(Operation::IntExclusiveOr(a, bx), res)],
    };
    let store = if kind is Cmp {
        seq![]
    } else {
        seq![stmt(Operation::Move(lv_to_rv(res)), rv_to_lv(a).unwrap())]
    };
    compute + seq![stmt(Operation::IntModulo(lv_to_rv(res), cst(0x100)), rh)] + store
}

/// Code of the two-operand instruction `kind` on `a` and `b`, with its
/// temporaries numbered from `t`.
pub open spec fn arith_code(kind: ArithOp, a: Rvalue, b: Rvalue, t: u64) -> Seq<Statement> {
    let aw = width_of(a);
    ext_code(b, aw, (t + 2) as u64) + arith_core_code(kind, a, ext_value(b, aw, (t + 2) as u64), t) + flags_code(
        temp(t, aw as u16),
        rt((t + 1) as u64, 8),
        a,
        (t + 2 + ext_temps(b, aw)) as u64,
    )
}

fn arith(cg: &mut CodeGen, kind: ArithOp, a: Rvalue, b: Rvalue)
    requires
        arith_ok(a, b),
        old(cg).next_temp + 5 <= u64::MAX,
    ensures
        emitted(*old(cg), *final(cg), arith_code(kind, a, b, old(cg).next_temp), arith_temps(a, b)),
{
    let ghost t = old(cg).next_temp;
    let aw = bitwidth(&a);
    let bw = if let Rvalue::Constant(_) = b { aw } else { bitwidth(&b) };
    let res = cg.new_temp(aw);
    let res_half = cg.new_temp(8);
    let la = Lvalue::from_rvalue(&a).unwrap();
    assert(lv_to_rv(la) == a);
    let ghost before_ext = cg.statements@;
    let b_ext = if aw == bw {
        b.duplicate()
    } else {
        sign_ext(&b, bw, aw, cg)
    };
    assert(cg.statements@ =~= before_ext + ext_code(b, aw as nat, (t + 2) as u64));
    assert(b_ext == ext_value(b, aw as nat, (t + 2) as u64));
    match kind {
        ArithOp::Cmp | ArithOp::Sub => {
            cg.sub_i(res.duplicate(), la.to_rv(), b_ext);
        },
        ArithOp::Sbb => {
            cg.sub_i(res.duplicate(), la.to_rv(), b_ext);
            cg.sub_i(res.duplicate(), res.to_rv(), reg(Register::CF).to_rv());
        },
        ArithOp::Or => {
            cg.or_i(res.duplicate(), la.to_rv(), b_ext);
        },
        ArithOp::Xor => {
            cg.xor_i(res.duplicate(), la.to_rv(), b_ext);
        },
    }
    cg.mod_i(res_half.duplicate(), res.to_rv(), Rvalue::Constant(0x100));
    match kind {
        ArithOp::Cmp => {},
        _ => {
            cg.assign(la.duplicate(), res.to_rv());
        },
    }
    set_arithm_flags(&res, &res_half.to_rv(), &la.to_rv(), &b, cg);
    assert(cg.statements@ =~= old(cg).statements@ + arith_code(kind, a, b, t));
}

/// `cmp a, b`: sets the arithmetic flags from `a - b`.
pub fn cmp(cg: &mut CodeGen, _a: Rvalue, b: Rvalue)
    requires
        arith_ok(_a, b),
        old(cg).next_temp + 5 <= u64::MAX,
    ensures
        emitted(*old(cg), *final(cg), arith_code(ArithOp::Cmp, _a, b, old(cg).next_temp), arith_temps(_a, b)),
{
    arith(cg, ArithOp::Cmp, _a, b)
}

/// `or a, b`: `a := a | b` and sets the arithmetic flags.
pub fn or(cg: &mut CodeGen, _a: Rvalue, b: Rvalue)
    requires
        arith_ok(_a, b),
        old(cg).next_temp + 5 <= u64::MAX,
    ensures
        emitted(*old(cg), *final(cg), arith_code(ArithOp::Or, _a, b, old(cg).next_temp), arith_temps(_a, b)),
{
    arith(cg, ArithOp::Or, _a, b)
}

/// `sbb a, b`: `a := a - b - CF` and sets the arithmetic flags.
pub fn sbb(cg: &mut CodeGen, _a: Rvalue, b: Rvalue)
    requires
        arith_ok(_a, b),
        old(cg).next_temp + 5 <= u64::MAX,
    ensures
        emitted(*old(cg), *final(cg), arith_code(ArithOp::Sbb, _a, b, old(cg).next_temp), arith_temps(_a, b)),
{
    arith(cg, ArithOp::Sbb, _a, b)
}

/// `sub a, b`: `a := a - b` and sets the arithmetic flags.
pub fn sub(cg: &mut CodeGen, _a: Rvalue, b: Rvalue)
    requires
        arith_ok(_a, b),
        old(cg).next_temp + 5 <= u64::MAX,
    ensures
        emitted(*old(cg), *final(cg), arith_code(ArithOp::Sub, _a, b, old(cg).next_temp), arith_temps(_a, b)),
{
    arith(cg, ArithOp::Sub, _a, b)
}

/// `xor a, b`: `a := a ^ b` and sets the arithmetic flags.
pub fn xor(cg: &mut CodeGen, _a: Rvalue, b: Rvalue)
    requires
        arith_ok(_a, b),
        old(cg).next_temp + 5 <= u64::MAX,
    ensures
        emitted(*old(cg), *final(cg), arith_code(ArithOp::Xor, _a, b, old(cg).next_temp), arith_temps(_a, b)),
{
    arith(cg, ArithOp::Xor, _a, b)
}

// ---------------------------------------------------------------------
// Flag updates
// ---------------------------------------------------------------------

/// A deferred update of one flag, applied to a code generator later.
#[derive(Debug, PartialEq, Eq)]
pub enum FlagUpdate {
    /// Set the flag to the constant truth value.
    Write { flag: Lvalue, val: bool },
    /// Complement the flag.
    Complement { flag: Lvalue },
}

/// Code of a flag update.
pub open spec fn flag_update_code(u: FlagUpdate) -> Seq<Statement> {
    match u {
        FlagUpdate::Write { flag, val } => seq![stmt(Operation::Move(cst(if val { 1 } else { 0 })), flag)],
        FlagUpdate::Complement { flag } => seq![stmt(Operation::LogicNegation(lv_to_rv(flag)), flag)],
    }
}

impl FlagUpdate {
    /// Emits the update.
    pub fn apply(&self, cg: &mut CodeGen)
        ensures
            emitted(*old(cg), *final(cg), flag_update_code(*self), 0),
    {
        match self {
            FlagUpdate::Write { flag, val } => {
                cg.assign(flag.duplicate(), Rvalue::Constant(if *val { 1 } else { 0 }));
            },
            FlagUpdate::Complement { flag } => {
                cg.not_b(flag.duplicate(), flag.to_rv());
            },
        }
    }
}

/// The update that sets `flag` to `val`.
pub fn flagwr(flag: &Lvalue, val: bool) -> (u: FlagUpdate)
    ensures
        u == (FlagUpdate::Write { flag: *flag, val }),
{
    FlagUpdate::Write { flag: flag.duplicate(), val }
}

/// The update that complements `flag`.
pub fn flagcomp(flag: &Lvalue) -> (u: FlagUpdate)
    ensures
        u == (FlagUpdate::Complement { flag: *flag }),
{
    FlagUpdate::Complement { flag: flag.duplicate() }
}

// ---------------------------------------------------------------------
// ASCII adjust
// ---------------------------------------------------------------------

/// The shared head of `aaa` and `aas`: with `y`, `x1`, `x2` the
/// temporaries `t`, `t + 1`, `t + 2`, it computes
/// `y := al && 0x0f`, `x1 := !(y == 9 || y < 9) || AF` and copies `x1`
/// to `AF` and `CF`.
pub open spec fn adjust_head_code(t: u64) -> Seq<Statement> {
    let y = temp(t, 16);
    let x1 = temp((t + 1) as u64, 1);
    let x2 = temp((t + 2) as u64, 1);
    seq![
        stmt(Operation::LogicAnd(rd(Register::Al), cst(0x0f)), y),
        stmt(Operation::IntEqual(lv_to_rv(y), cst(9)), x1),
        stmt(Operation::IntLess(lv_to_rv(y), cst(9)), x2),
        stmt(Operation::LogicInclusiveOr(lv_to_rv(x1), lv_to_rv(x2)), x1),
        stmt(Operation::LogicNegation(lv_to_rv(x1)), x1),
        stmt(Operation::LogicInclusiveOr(lv_to_rv(x1), rd(Register::AF)), x1),
        stmt(Operation::Move(lv_to_rv(x1)), reg_lv(Register::AF)),
        stmt(Operation::Move(lv_to_rv(x1)), reg_lv(Register::CF)),
    ]
}

fn adjust_head(cg: &mut CodeGen) -> (r: (Lvalue, Lvalue))
    requires
        old(cg).next_temp + 3 <= u64::MAX,
    ensures
        emitted(*old(cg), *final(cg), adjust_head_code(old(cg).next_temp), 3),
        r.0 == temp(old(cg).next_temp, 16),
        r.1 == temp((old(cg).next_temp + 1) as u64, 1),
{
    let y = cg.new_temp(16);
    let x1 = cg.new_temp(1);
    let x2 = cg.new_temp(1);

    cg.and_b(y.duplicate(), reg(Register::Al).to_rv(), Rvalue::Constant(0x0f));

    cg.equal_i(x1.duplicate(), y.to_rv(), Rvalue::Constant(9));
    cg.less_i(x2.duplicate(), y.to_rv(), Rvalue::Constant(9));
    cg.or_b(x1.duplicate(), x1.to_rv(), x2.to_rv());
    cg.not_b(x1.duplicate(), x1.to_rv());
    cg.or_b(x1.duplicate(), x1.to_rv(), reg(Register::AF).to_rv());

    cg.assign(reg(Register::AF), x1.to_rv());
    cg.assign(reg(Register::CF), x1.to_rv());
    assert(cg.statements@ =~= old(cg).statements@ + adjust_head_code(old(cg).next_temp));
    (y, x1)
}

/// Code of `aaa` with its temporaries numbered from `t`.
pub open spec fn aaa_code(t: u64) -> Seq<Statement> {
    let y = temp(t, 16);
    let x1 = temp((t + 1) as u64, 1);
    adjust_head_code(t) + seq![
        stmt(Operation::LogicLift(lv_to_rv(x1)), y),
        stmt(Operation::IntMultiply(lv_to_rv(y), cst(0x106)), y),
        stmt(Operation::IntAdd(rd(Register::Ax), lv_to_rv(y)), reg_lv(Register::Ax)),
        stmt(Operation::IntModulo(rd(Register::Ax), cst(0x100)), reg_lv(Register::Ax)),
    ]
}

/// `aaa`: ASCII adjust after addition.
pub fn aaa(cg: &mut CodeGen)
    requires
        old(cg).next_temp + 3 <= u64::MAX,
    ensures
        emitted(*old(cg), *final(cg), aaa_code(old(cg).next_temp), 3),
{
    let (y, x1) = adjust_head(cg);
    let ghost mid = cg.statements@;

    // ax = (ax + x1 * 0x106) % 0x100
    cg.lift_b(y.duplicate(), x1.to_rv());
    cg.mul_i(y.duplicate(), y.to_rv(), Rvalue::Constant(0x106));
    cg.add_i(reg(Register::Ax), reg(Register::Ax).to_rv(), y.to_rv());
    cg.mod_i(reg(Register::Ax), reg(Register::Ax).to_rv(), Rvalue::Constant(0x100));
    assert(cg.statements@ =~= old(cg).statements@ + aaa_code(old(cg).next_temp));
}

/// Code of `aam a` with its temporary `t`.
pub open spec fn aam_code(a: Rvalue, t: u64) -> Seq<Statement> {
    let temp_al = temp(t, 16);
    seq![
        stmt(Operation::Move(rd(Register::Al)), temp_al),
        stmt(Operation::IntDivide(lv_to_rv(temp_al), a), reg_lv(Register::Ah)),
        stmt(Operation::IntModulo(lv_to_rv(temp_al), a), reg_lv(Register::Al)),
    ]
}

/// `aam a`: ASCII adjust after multiplication.
pub fn aam(cg: &mut CodeGen, a: Rvalue)
    requires
        old(cg).next_temp + 1 <= u64::MAX,
    ensures
        emitted(*old(cg), *final(cg), aam_code(a, old(cg).next_temp), 1),
{
    let temp_al = cg.new_temp(16);

    cg.assign(temp_al.duplicate(), reg(Register::Al).to_rv());
    cg.div_i(reg(Register::Ah), temp_al.to_rv(), a.duplicate());
    cg.mod_i(reg(Register::Al), temp_al.to_rv(), a);
    assert(cg.statements@ =~= old(cg).statements@ + aam_code(a, old(cg).next_temp));
}

/// Code of `aad a` with its temporary `t`.
pub open spec fn aad_code(a: Rvalue, t: u64) -> Seq<Statement> {
    let x = temp(t, 16);
    seq![
        stmt(Operation::IntMultiply(rd(Register::Ah), a), x),
        stmt(Operation::IntAdd(lv_to_rv(x), rd(Register::Al)), reg_lv(Register::Al)),
        stmt(Operation::Move(cst(0)), reg_lv(Register::Ah)),
    ]
}

/// `aad a`: ASCII adjust before division.
pub fn aad(cg: &mut CodeGen, a: Rvalue)
    requires
        old(cg).next_temp + 1 <= u64::MAX,
    ensures
        emitted(*old(cg), *final(cg), aad_code(a, old(cg).next_temp), 1),
{
    let x = cg.new_temp(16);

    cg.mul_i(x.duplicate(), reg(Register::Ah).to_rv(), a);
    cg.add_i(reg(Register::Al), x.to_rv(), reg(Register::Al).to_rv());
    cg.assign(reg(Register::Ah), Rvalue::Constant(0));
    assert(cg.statements@ =~= old(cg).statements@ + aad_code(a, old(cg).next_temp));
}

/// Code of `aas` with its temporaries numbered from `t`.
pub open spec fn aas_code(t: u64) -> Seq<Statement> {
    let y1 = temp(t, 16);
    let x1 = temp((t + 1) as u64, 1);
    let y2 = temp((t + 3) as u64, 16);
    let z = temp((t + 4) as u64, 16);
    adjust_head_code(t) + seq![
        stmt(Operation::LogicLift(lv_to_rv(x1)), y2),
        stmt(Operation::IntMultiply(lv_to_rv(y2), cst(6)), y2),
        stmt(Operation::IntSubtract(rd(Register::Ax), lv_to_rv(y2)), reg_lv(Register::Ax)),
        stmt(Operation::IntModulo(rd(Register::Ax), cst(0x100)), reg_lv(Register::Ax)),
        stmt(Operation::LogicLift(lv_to_rv(x1)), z),
        stmt(Operation::IntSubtract(rd(Register::Ah), lv_to_rv(z)), reg_lv(Register::Ah)),
        stmt(Operation::IntModulo(rd(Register::Ah), cst(0x10)), reg_lv(Register::Ah)),
        stmt(Operation::Move(lv_to_rv(y1)), reg_lv(Register::Al)),
    ]
}

/// `aas`: ASCII adjust after subtraction.
pub fn aas(cg: &mut CodeGen)
    requires
        old(cg).next_temp + 5 <= u64::MAX,
    ensures
        emitted(*old(cg), *final(cg), aas_code(old(cg).next_temp), 5),
{
    let (y1, x1) = adjust_head(cg);

    let y2 = cg.new_temp(16);

    // ax = (ax - x1 * 6) % 0x100
    cg.lift_b(y2.duplicate(), x1.to_rv());
    cg.mul_i(y2.duplicate(), y2.to_rv(), Rvalue::Constant(6));
    cg.sub_i(reg(Register::Ax), reg(Register::Ax).to_rv(), y2.to_rv());
    cg.mod_i(reg(Register::Ax), reg(Register::Ax).to_rv(), Rvalue::Constant(0x100));

    let z = cg.new_temp(16);

    // ah = (ah - x1) % 0x10
    cg.lift_b(z.duplicate(), x1.to_rv());
    cg.sub_i(reg(Register::Ah), reg(Register::Ah).to_rv(), z.to_rv());
    cg.mod_i(reg(Register::Ah), reg(Register::Ah).to_rv(), Rvalue::Constant(0x10));

    cg.assign(reg(Register::Al), y1.to_rv());
    assert(cg.statements@ =~= old(cg).statements@ + aas_code(old(cg).next_temp));
}

// ---------------------------------------------------------------------
// Conditional move and compare-exchange
// ---------------------------------------------------------------------

/// Code that computes the truth value of condition `c` from the flags;
/// its temporaries are numbered from `t`.
pub open spec fn cond_code(c: Condition, t: u64) -> Seq<Statement> {
    let b = temp(t, 1);
    match c {
        Condition::Overflow | Condition::Carry | Condition::Equal | Condition::Sign | Condition::Parity => seq![],
        Condition::NotOverflow => seq![stmt(Operation::LogicNegation(rd(Register::OF)), b)],
        Condition::AboveEqual => seq![stmt(Operation::LogicNegation(rd(Register::CF)), b)],
        Condition::NotEqual => seq![stmt(Operation::LogicNegation(rd(Register::ZF)), b)],
        Condition::NotSign => seq![stmt(Operation::LogicNegation(rd(Register::SF)), b)],
        Condition::NotParity => seq![stmt(Operation::LogicNegation(rd(Register::PF)), b)],
        Condition::BelowEqual => seq![stmt(Operation::LogicInclusiveOr(rd(Register::ZF), rd(Register::CF)), b)],
        Condition::Above => seq![
            stmt(Operation::LogicInclusiveOr(rd(Register::ZF), rd(Register::CF)), b),
            stmt(Operation::LogicNegation(lv_to_rv(b)), b),
        ],
        Condition::Less => seq![
            stmt(Operation::LogicExclusiveOr(rd(Register::SF), rd(Register::OF)), b),
            stmt(Operation::LogicNegation(lv_to_rv(b)), b),
        ],
        Condition::GreaterEqual => seq![stmt(Operation::LogicExclusiveOr(rd(Register::SF), rd(Register::OF)), b)],
        Condition::LessEqual => seq![
            stmt(Operation::LogicExclusiveOr(rd(Register::SF), rd(Register::OF)), b),
            stmt(Operation::LogicNegation(lv_to_rv(b)), b),
            stmt(Operation::LogicInclusiveOr(lv_to_rv(b), rd(Register::ZF)), b),
        ],
        Condition::Greater => seq![
            stmt(Operation::LogicExclusiveOr(rd(Register::SF), rd(Register::OF)), b),
            stmt(Operation::LogicNegation(rd(Register::ZF)), temp((t + 1) as u64, 1)),
            stmt(Operation::LogicInclusiveOr(lv_to_rv(b), rt((t + 1) as u64, 1)), b),
        ],
    }
}

/// Number of temporaries the condition code takes.
pub open spec fn cond_temps(c: Condition) -> nat {
    match c {
        Condition::Overflow | Condition::Carry | Condition::Equal | Condition::Sign | Condition::Parity => 0,
        Condition::Greater => 2,
        _ => 1,
    }
}

/// The variable that holds the condition's truth value after its code.
pub open spec fn cond_flag(c: Condition, t: u64) -> Lvalue {
    match c {
        Condition::Overflow => reg_lv(Register::OF),
        Condition::Carry => reg_lv(Register::CF),
        Condition::Equal => reg_lv(Register::ZF),
        Condition::Sign => reg_lv(Register::SF),
        Condition::Parity => reg_lv(Register::PF),
        _ => temp(t, 1),
    }
}

fn condition(cg: &mut CodeGen, c: Condition) -> (f: Lvalue)
    requires
        old(cg).next_temp + 2 <= u64::MAX,
    ensures
        emitted(*old(cg), *final(cg), cond_code(c, old(cg).next_temp), cond_temps(c)),
        f == cond_flag(c, old(cg).next_temp),
{
    let f = match c {
        Condition::Overflow => reg(Register::OF),
        Condition::NotOverflow => {
            let nof = cg.new_temp(1);
            cg.not_b(nof.duplicate(), reg(Register::OF).to_rv());
            nof
        },
        Condition::Carry => reg(Register::CF),
        Condition::AboveEqual => {
            let ncf = cg.new_temp(1);
            cg.not_b(ncf.duplicate(), reg(Register::CF).to_rv());
            ncf
        },
        Condition::Equal => reg(Register::ZF),
        Condition::NotEqual => {
            let nzf = cg.new_temp(1);
            cg.not_b(nzf.duplicate(), reg(Register::ZF).to_rv());
            nzf
        },
        Condition::BelowEqual => {
            let zc = cg.new_temp(1);
            cg.or_b(zc.duplicate(), reg(Register::ZF).to_rv(), reg(Register::CF).to_rv());
            zc
        },
        Condition::Above => {
            let zc = cg.new_temp(1);
            cg.or_b(zc.duplicate(), reg(Register::ZF).to_rv(), reg(Register::CF).to_rv());
            cg.not_b(zc.duplicate(), zc.to_rv());
            zc
        },
        Condition::Sign => reg(Register::SF),
        Condition::NotSign => {
            let nsf = cg.new_temp(1);
            cg.not_b(nsf.duplicate(), reg(Register::SF).to_rv());
            nsf
        },
        Condition::Parity => reg(Register::PF),
        Condition::NotParity => {
            let npf = cg.new_temp(1);
            cg.not_b(npf.duplicate(), reg(Register::PF).to_rv());
            npf
        },
        Condition::Less => {
            let b = cg.new_temp(1);
            cg.xor_b(b.duplicate(), reg(Register::SF).to_rv(), reg(Register::OF).to_rv());
            cg.not_b(b.duplicate(), b.to_rv());
            b
        },
        Condition::GreaterEqual => {
            let b = cg.new_temp(1);
            cg.xor_b(b.duplicate(), reg(Register::SF).to_rv(), reg(Register::OF).to_rv());
            b
        },
        Condition::LessEqual => {
            let b = cg.new_temp(1);
            cg.xor_b(b.duplicate(), reg(Register::SF).to_rv(), reg(Register::OF).to_rv());
            cg.not_b(b.duplicate(), b.to_rv());
            cg.or_b(b.duplicate(), b.to_rv(), reg(Register::ZF).to_rv());
            b
        },
        Condition::Greater => {
            let b = cg.new_temp(1);
            let z = cg.new_temp(1);
            cg.xor_b(b.duplicate(), reg(Register::SF).to_rv(), reg(Register::OF).to_rv());
            cg.not_b(z.duplicate(), reg(Register::ZF).to_rv());
            cg.or_b(b.duplicate(), b.to_rv(), z.to_rv());
            b
        },
    };
    assert(cg.statements@ =~= old(cg).statements@ + cond_code(c, old(cg).next_temp));
    f
}

/// Code that moves `b` into `a` if the truth value in `f` is set and
/// keeps `a` otherwise: `a := lift(f) * b + lift(!f) * a`. Its four
/// temporaries are numbered from `t`; the first of them is unused.
pub open spec fn select_code(f: Lvalue, a: Lvalue, b: Rvalue, t: u64) -> Seq<Statement> {
    let w = width_of(lv_to_rv(a)) as u16;
    let l = temp((t + 1) as u64, w);
    let nl = temp((t + 2) as u64, w);
    let n = temp((t + 3) as u64, 1);
    seq![
        stmt(Operation::LogicLift(lv_to_rv(f)), l),
        stmt(Operation::LogicNegation(lv_to_rv(f)), n),
        stmt(Operation::LogicLift(lv_to_rv(n)), nl),
        stmt(Operation::IntMultiply(lv_to_rv(l), b), l),
        stmt(Operation::IntMultiply(lv_to_rv(nl), lv_to_rv(a)), nl),
        stmt(Operation::IntAdd(lv_to_rv(l), lv_to_rv(nl)), a),
    ]
}

fn select(cg: &mut CodeGen, f: &Lvalue, a: &Lvalue, b: &Rvalue)
    requires
        has_width(lv_to_rv(*a)),
        old(cg).next_temp + 4 <= u64::MAX,
    ensures
        emitted(*old(cg), *final(cg), select_code(*f, *a, *b, old(cg).next_temp), 4),
{
    let _tmp = cg.new_temp(bitwidth(&a.to_rv()));
    let l = cg.new_temp(bitwidth(&a.to_rv()));
    let nl = cg.new_temp(bitwidth(&a.to_rv()));
    let n = cg.new_temp(1);

    cg.lift_b(l.duplicate(), f.to_rv());
    cg.not_b(n.duplicate(), f.to_rv());
    cg.lift_b(nl.duplicate(), n.to_rv());
    cg.mul_i(l.duplicate(), l.to_rv(), b.duplicate());
    cg.mul_i(nl.duplicate(), nl.to_rv(), a.to_rv());
    cg.add_i(a.duplicate(), l.to_rv(), nl.to_rv());
    assert(cg.statements@ =~= old(cg).statements@ + select_code(*f, *a, *b, old(cg).next_temp));
}

/// Code of `cmov` with condition `c`, temporaries numbered from `t`.
pub open spec fn cmov_code(a: Rvalue, b: Rvalue, c: Condition, t: u64) -> Seq<Statement> {
    cond_code(c, t) + select_code(cond_flag(c, t), rv_to_lv(a).unwrap(), b, (t + cond_temps(c)) as u64)
}

/// `cmovcc a, b`: moves `b` into `a` if condition `c` holds.
pub fn cmov(cg: &mut CodeGen, _a: Rvalue, b: Rvalue, c: Condition)
    requires
        has_width(_a),
        old(cg).next_temp + 6 <= u64::MAX,
    ensures
        emitted(*old(cg), *final(cg), cmov_code(_a, b, c, old(cg).next_temp), cond_temps(c) + 4),
{
    let a = Lvalue::from_rvalue(&_a).unwrap();
    assert(lv_to_rv(a) == _a);
    let f = condition(cg, c);
    select(cg, &f, &a, &b);
    assert(cg.statements@ =~= old(cg).statements@ + cmov_code(_a, b, c, old(cg).next_temp));
}

/// Code of `cmpxchg a, b` with its temporaries numbered from `t`.
pub open spec fn compare_exchange_code(a: Rvalue, b: Rvalue, t: u64) -> Seq<Statement> {
    let n = temp(t, 1);
    let zf = temp((t + 1) as u64, 32);
    let nzf = temp((t + 2) as u64, 32);
    seq![
        stmt(Operation::IntEqual(a, rd(Register::Eax)), reg_lv(Register::ZF)),
        stmt(Operation::LogicLift(rd(Register::ZF)), zf),
        stmt(Operation::LogicNegation(rd(Register::ZF)), n),
        stmt(Operation::LogicLift(lv_to_rv(n)), nzf),
        stmt(Operation::IntMultiply(lv_to_rv(zf), b), zf),
        stmt(Operation::IntMultiply(lv_to_rv(nzf), a), nzf),
        stmt(Operation::IntAdd(lv_to_rv(zf), lv_to_rv(nzf)), rv_to_lv(a).unwrap()),
        stmt(Operation::LogicLift(rd(Register::ZF)), zf),
        stmt(Operation::LogicLift(lv_to_rv(n)), nzf),
        stmt(Operation::IntMultiply(lv_to_rv(zf), rd(Register::Eax)), zf),
        stmt(Operation::IntAdd(lv_to_rv(zf), lv_to_rv(nzf)), reg_lv(Register::Eax)),
    ]
}

/// `cmpxchg a, b`: compares `a` with `eax` and exchanges on equality.
pub fn cmpxchg(cg: &mut CodeGen, a: Rvalue, b: Rvalue)
    requires
        !(a is Constant),
        old(cg).next_temp + 3 <= u64::MAX,
    ensures
        emitted(*old(cg), *final(cg), compare_exchange_code(a, b, old(cg).next_temp), 3),
{
    let eax = reg(Register::Eax);
    let zflag = reg(Register::ZF);
    cg.equal_i(zflag.duplicate(), a.duplicate(), eax.to_rv());

    let n = cg.new_temp(1);
    let zf = cg.new_temp(32);
    let nzf = cg.new_temp(32);
    let la = Lvalue::from_rvalue(&a).unwrap();

    cg.lift_b(zf.duplicate(), zflag.to_rv());
    cg.not_b(n.duplicate(), zflag.to_rv());
    cg.lift_b(nzf.duplicate(), n.to_rv());
    cg.mul_i(zf.duplicate(), zf.to_rv(), b);
    cg.mul_i(nzf.duplicate(), nzf.to_rv(), a);
    cg.add_i(la, zf.to_rv(), nzf.to_rv());

    cg.lift_b(zf.duplicate(), zflag.to_rv());
    cg.lift_b(nzf.duplicate(), n.to_rv());
    cg.mul_i(zf.duplicate(), zf.to_rv(), eax.to_rv());
    cg.add_i(eax, zf.to_rv(), nzf.to_rv());
    assert(cg.statements@ =~= old(cg).statements@ + compare_exchange_code(a, b, old(cg).next_temp));
}

// ---------------------------------------------------------------------
// String compare
// ---------------------------------------------------------------------

/// Code of `cmps` on the byte addresses `aoff` and `boff`, with its
/// temporaries numbered from `t`: compares the two bytes, sets the
/// arithmetic flags, and moves both addresses by `lift(DF) - lift(!DF)`.
pub open spec fn string_compare_code(aoff: Rvalue, boff: Rvalue, t: u64) -> Seq<Statement> {
    let a = ram_byte(aoff);
    let b = ram_byte(boff);
    let w = width_of(aoff) as u16;
    let res = temp(t, 8);
    let off = temp((t + 1) as u64, w);
    let n = temp((t + 2) as u64, 1);
    let df = temp((t + 3) as u64, w);
    let ndf = temp((t + 4) as u64, w);
    seq![stmt(Operation::IntSubtract(lv_to_rv(a), lv_to_rv(b)), res)]
        + flags_code(res, lv_to_rv(res), lv_to_rv(a), (t + 5) as u64)
        + seq![
        stmt(Operation::LogicLift(rd(Register::DF)), df),
        stmt(Operation::LogicNegation(rd(Register::DF)), n),
        stmt(Operation::LogicLift(lv_to_rv(n)), ndf),
        stmt(Operation::IntSubtract(lv_to_rv(df), lv_to_rv(ndf)), off),
        stmt(Operation::IntAdd(aoff, lv_to_rv(off)), rv_to_lv(aoff).unwrap()),
        stmt(Operation::IntAdd(boff, lv_to_rv(off)), rv_to_lv(boff).unwrap()),
    ]
}

/// `cmps`: compares the bytes at `aoff` and `boff` and steps both
/// addresses.
pub fn cmps(cg: &mut CodeGen, aoff: Rvalue, boff: Rvalue)
    requires
        has_width(aoff),
        !(boff is Constant),
        old(cg).next_temp + 6 <= u64::MAX,
    ensures
        emitted(*old(cg), *final(cg), string_compare_code(aoff, boff, old(cg).next_temp), 6),
{
    let a = Lvalue::Memory {
        offset: Box::new(aoff.duplicate()),
        bytes: 1,
        endianess: Endianess::Little,
        name: Space::Ram,
    };
    let b = Lvalue::Memory {
        offset: Box::new(boff.duplicate()),
        bytes: 1,
        endianess: Endianess::Little,
        name: Space::Ram,
    };
    let w = bitwidth(&aoff);
    let res = cg.new_temp(8);
    let off = cg.new_temp(w);
    let n = cg.new_temp(1);
    let df = cg.new_temp(w);
    let ndf = cg.new_temp(w);

    cg.sub_i(res.duplicate(), a.to_rv(), b.to_rv());
    set_arithm_flags(&res, &res.to_rv(), &a.to_rv(), &b.to_rv(), cg);

    let dflag = reg(Register::DF);
    cg.lift_b(df.duplicate(), dflag.to_rv());
    cg.not_b(n.duplicate(), dflag.to_rv());
    cg.lift_b(ndf.duplicate(), n.to_rv());

    cg.sub_i(off.duplicate(), df.to_rv(), ndf.to_rv());

    let ao = Lvalue::from_rvalue(&aoff).unwrap();
    let bo = Lvalue::from_rvalue(&boff).unwrap();
    cg.add_i(ao, aoff, off.to_rv());
    cg.add_i(bo, boff, off.to_rv());
    assert(cg.statements@ =~= old(cg).statements@ + string_compare_code(aoff, boff, old(cg).next_temp));
}

// ---------------------------------------------------------------------
// Calls
// ---------------------------------------------------------------------

/// Operand sizes for which calls have semantics.
pub open spec fn call_size_ok(size: OperandSize) -> bool {
    size is Sixteen || size is ThirtyTwo || size is SixtyFour
}

/// Number of temporaries a near call takes.
pub open spec fn near_call_temps(rel: bool, size: OperandSize) -> nat {
    match size {
        OperandSize::Sixteen => 2,
        OperandSize::ThirtyTwo => if rel { 1 } else { 0 },
        _ => 1,
    }
}

/// The target of a near call, as a place.
pub open spec fn near_call_target(a: Rvalue, rel: bool, size: OperandSize, t: u64) -> Lvalue {
    match size {
        OperandSize::Sixteen => temp((t + 1) as u64, 64),
        OperandSize::ThirtyTwo => if rel { temp(t, 32) } else { rv_to_lv(a).unwrap() },
        _ => temp(t, 16),
    }
}

/// Code of a near call to `a` (relative if `rel`) under operand size
/// `size`, with temporaries numbered from `t`: computes the target,
/// pushes the instruction pointer, jumps and calls the target.
pub open spec fn near_call_code(a: Rvalue, rel: bool, size: OperandSize, t: u64) -> Seq<Statement> {
    let x = near_call_target(a, rel, size, t);
    let x_rv = lv_to_rv(x);
    match size {
        OperandSize::Sixteen => sign_ext_code(a, 32, 64, t) + (if rel {
            seq![stmt(Operation::IntAdd(x_rv, rd(Register::Rip)), x)]
        } else {
            seq![]
        }) + push_code(rd(Register::Rip), Mode::Long) + seq![
            stmt(Operation::Move(x_rv), reg_lv(Register::Rip)),
            stmt(Operation::IntCall(x_rv), Lvalue::Undefined),
        ],
        OperandSize::ThirtyTwo => (if rel {
            seq![
                stmt(Operation::IntAdd(a, rd(Register::Eip)), x),
                stmt(Operation::IntModulo(x_rv, cst(0x100000000)), x),
            ]
        } else {
            seq![]
        }) + push_code(rd(Register::Eip), Mode::Protected) + seq![
            stmt(Operation::Move(x_rv), reg_lv(Register::Eip)),
            stmt(Operation::IntCall(x_rv), Lvalue::Undefined),
        ],
        _ => (if rel {
            seq![
                stmt(Operation::IntAdd(a, rd(Register::Eip)), x),
                stmt(Operation::IntModulo(x_rv, cst(0x10000)), x),
            ]
        } else {
            seq![stmt(Operation::IntModulo(a, cst(0x10000)), x)]
        }) + push_code(rd(Register::Rip), Mode::Real) + seq![
            stmt(Operation::Move(x_rv), reg_lv(Register::Rip)),
            stmt(Operation::IntCall(x_rv), Lvalue::Undefined),
        ],
    }
}

/// Operands that a near call accepts: a supported operand size, and a
/// place as target of an absolute call under 32-bit operands.
pub open spec fn near_call_ok(cg: CodeGen, a: Rvalue, rel: bool) -> bool {
    &&& call_size_ok(cg.configuration.operand_size)
    &&& (cg.configuration.operand_size is ThirtyTwo && !rel ==> !(a is Constant))
    &&& cg.next_temp + 2 <= u64::MAX
}

/// Near call to `a`, relative to the instruction pointer if `rel`.
pub fn near_xcall(cg: &mut CodeGen, a: Rvalue, rel: bool)
    requires
        near_call_ok(*old(cg), a, rel),
    ensures
        emitted(
            *old(cg),
            *final(cg),
            near_call_code(a, rel, old(cg).configuration.operand_size, old(cg).next_temp),
            near_call_temps(rel, old(cg).configuration.operand_size),
        ),
{
    let ghost t = old(cg).next_temp;
    let ghost size = old(cg).configuration.operand_size;
    match cg.configuration.operand_size {
        OperandSize::Sixteen => {
            let rip = reg(Register::Rip);
            let new_ip = if rel {
                let x = Lvalue::from_rvalue(&sign_ext(&a, 32, 64, cg)).unwrap();
                cg.add_i(x.duplicate(), x.to_rv(), rip.to_rv());
                x
            } else {
                Lvalue::from_rvalue(&sign_ext(&a, 32, 64, cg)).unwrap()
            };

            do_push(&rip.to_rv(), Mode::Long, cg);
            cg.assign(rip, new_ip.to_rv());
            cg.call_i(Lvalue::Undefined, new_ip.to_rv());
        },
        OperandSize::ThirtyTwo => {
            let eip = reg(Register::Eip);
            let new_ip = if rel {
                let x = cg.new_temp(32);
                cg.add_i(x.duplicate(), a, eip.to_rv());
                cg.mod_i(x.duplicate(), x.to_rv(), Rvalue::Constant(0x100000000));
                x
            } else {
                Lvalue::from_rvalue(&a).unwrap()
            };

            do_push(&eip.to_rv(), Mode::Protected, cg);
            cg.assign(eip, new_ip.to_rv());
            cg.call_i(Lvalue::Undefined, new_ip.to_rv());
        },
        OperandSize::SixtyFour => {
            let rip = reg(Register::Rip);
            let eip = reg(Register::Eip);
            let new_ip = if rel {
                let x = cg.new_temp(16);
                cg.add_i(x.duplicate(), a, eip.to_rv());
                cg.mod_i(x.duplicate(), x.to_rv(), Rvalue::Constant(0x10000));
                x
            } else {
                let x = cg.new_temp(16);
                cg.mod_i(x.duplicate(), a, Rvalue::Constant(0x10000));
                x
            };

            do_push(&rip.to_rv(), Mode::Real, cg);
            cg.assign(rip, new_ip.to_rv());
            cg.call_i(Lvalue::Undefined, new_ip.to_rv());
        },
        _ => {},
    }
    assert(cg.statements@ =~= old(cg).statements@ + near_call_code(a, rel, size, t));
}

/// Absolute near call to `a`.
pub fn near_call(cg: &mut CodeGen, a: Rvalue)
    requires
        near_call_ok(*old(cg), a, false),
    ensures
        emitted(
            *old(cg),
            *final(cg),
            near_call_code(a, false, old(cg).configuration.operand_size, old(cg).next_temp),
            near_call_temps(false, old(cg).configuration.operand_size),
        ),
{
    near_xcall(cg, a, false)
}

/// Relative near call to `a`.
pub fn near_rcall(cg: &mut CodeGen, a: Rvalue)
    requires
        near_call_ok(*old(cg), a, true),
    ensures
        emitted(
            *old(cg),
            *final(cg),
            near_call_code(a, true, old(cg).configuration.operand_size, old(cg).next_temp),
            near_call_temps(true, old(cg).configuration.operand_size),
        ),
{
    near_xcall(cg, a, true)
}

/// Code of a far call under operand size `size`: pushes the code
/// segment and then the instruction pointer of that size.
pub open spec fn far_call_code(size: OperandSize) -> Seq<Statement> {
    match size {
        OperandSize::Sixteen => push_code(rd(Register::Cs), Mode::Real) + push_code(rd(Register::Ip), Mode::Real),
        OperandSize::ThirtyTwo => push_code(rd(Register::Cs), Mode::Protected) + push_code(
            rd(Register::Eip),
            Mode::Protected,
        ),
        _ => push_code(rd(Register::Cs), Mode::Long) + push_code(rd(Register::Rip), Mode::Long),
    }
}

/// Far call to `a`, relative if `rel`.
pub fn far_xcall(cg: &mut CodeGen, a: Rvalue, rel: bool)
    requires
        call_size_ok(old(cg).configuration.operand_size),
    ensures
        emitted(*old(cg), *final(cg), far_call_code(old(cg).configuration.operand_size), 0),
{
    let cs = reg(Register::Cs);
    match cg.configuration.operand_size {
        OperandSize::Sixteen => {
            do_push(&cs.to_rv(), Mode::Real, cg);
            do_push(&reg(Register::Ip).to_rv(), Mode::Real, cg);
        },
        OperandSize::ThirtyTwo => {
            do_push(&cs.to_rv(), Mode::Protected, cg);
            do_push(&reg(Register::Eip).to_rv(), Mode::Protected, cg);
        },
        OperandSize::SixtyFour => {
            do_push(&cs.to_rv(), Mode::Long, cg);
            do_push(&reg(Register::Rip).to_rv(), Mode::Long, cg);
        },
        _ => {},
    }
    assert(cg.statements@ =~= old(cg).statements@ + far_call_code(old(cg).configuration.operand_size));
}

/// Absolute far call to `a`.
pub fn far_call(cg: &mut CodeGen, a: Rvalue)
    requires
        call_size_ok(old(cg).configuration.operand_size),
    ensures
        emitted(*old(cg), *final(cg), far_call_code(old(cg).configuration.operand_size), 0),
{
    far_xcall(cg, a, false)
}

/// Relative far call to `a`.
pub fn far_rcall(cg: &mut CodeGen, a: Rvalue)
    requires
        call_size_ok(old(cg).configuration.operand_size),
    ensures
        emitted(*old(cg), *final(cg), far_call_code(old(cg).configuration.operand_size), 0),
{
    far_xcall(cg, a, true)
}

// ---------------------------------------------------------------------
// Instructions whose semantics emit no statements
// ---------------------------------------------------------------------

/// `adc`: emits no statements and leaves the code generator as it is.
pub fn adc(cg: &mut CodeGen, a: Rvalue, b: Rvalue)
    ensures
        *final(cg) == *old(cg),
{
}

/// `add`: emits no statements and leaves the code generator as it is.
pub fn add(cg: &mut CodeGen, a: Rvalue, b: Rvalue)
    ensures
        *final(cg) == *old(cg),
{
}

/// `adcx`: emits no statements and leaves the code generator as it is.
pub fn adcx(cg: &mut CodeGen, a: Rvalue, b: Rvalue)
    ensures
        *final(cg) == *old(cg),
{
}

/// `and`: emits no statements and leaves the code generator as it is.
pub fn and(cg: &mut CodeGen, a: Rvalue, b: Rvalue)
    ensures
        *final(cg) == *old(cg),
{
}

/// `arpl`: emits no statements and leaves the code generator as it is.
pub fn arpl(cg: &mut CodeGen, a: Rvalue, b: Rvalue)
    ensures
        *final(cg) == *old(cg),
{
}

/// `bound`: emits no statements and leaves the code generator as it is.
pub fn bound(cg: &mut CodeGen, a: Rvalue, b: Rvalue)
    ensures
        *final(cg) == *old(cg),
{
}

/// `bsf`: emits no statements and leaves the code generator as it is.
pub fn bsf(cg: &mut CodeGen, a: Rvalue, b: Rvalue)
    ensures
        *final(cg) == *old(cg),
{
}

/// `bsr`: emits no statements and leaves the code generator as it is.
pub fn bsr(cg: &mut CodeGen, a: Rvalue, b: Rvalue)
    ensures
        *final(cg) == *old(cg),
{
}

/// `bswap`: emits no statements and leaves the code generator as it is.
pub fn bswap(cg: &mut CodeGen, a: Rvalue)
    ensures
        *final(cg) == *old(cg),
{
}

/// `bt`: emits no statements and leaves the code generator as it is.
pub fn bt(cg: &mut CodeGen, a: Rvalue, b: Rvalue)
    ensures
        *final(cg) == *old(cg),
{
}

/// `btc`: emits no statements and leaves the code generator as it is.
pub fn btc(cg: &mut CodeGen, a: Rvalue, b: Rvalue)
    ensures
        *final(cg) == *old(cg),
{
}

/// `btr`: emits no statements and leaves the code generator as it is.
pub fn btr(cg: &mut CodeGen, a: Rvalue, b: Rvalue)
    ensures
        *final(cg) == *old(cg),
{
}

/// `bts`: emits no statements and leaves the code generator as it is.
pub fn bts(cg: &mut CodeGen, a: Rvalue, b: Rvalue)
    ensures
        *final(cg) == *old(cg),
{
}

/// `cmpxchg8b`: emits no statements and leaves the code generator as it is.
pub fn cmpxchg8b(cg: &mut CodeGen, a: Rvalue)
    ensures
        *final(cg) == *old(cg),
{
}

/// `cmpxchg16b`: emits no statements and leaves the code generator as it is.
pub fn cmpxchg16b(cg: &mut CodeGen, a: Rvalue)
    ensures
        *final(cg) == *old(cg),
{
}

/// `cpuid`: emits no statements and leaves the code generator as it is.
pub fn cpuid(cg: &mut CodeGen)
    ensures
        *final(cg) == *old(cg),
{
}

/// `clc`: emits no statements and leaves the code generator as it is.
pub fn clc(cg: &mut CodeGen)
    ensures
        *final(cg) == *old(cg),
{
}

/// `cld`: emits no statements and leaves the code generator as it is.
pub fn cld(cg: &mut CodeGen)
    ensures
        *final(cg) == *old(cg),
{
}

/// `cli`: emits no statements and leaves the code generator as it is.
pub fn cli(cg: &mut CodeGen)
    ensures
        *final(cg) == *old(cg),
{
}

/// `cmc`: emits no statements and leaves the code generator as it is.
pub fn cmc(cg: &mut CodeGen)
    ensures
        *final(cg) == *old(cg),
{
}

/// `std`: emits no statements and leaves the code generator as it is.
pub fn std_(cg: &mut CodeGen)
    ensures
        *final(cg) == *old(cg),
{
}

/// `sti`: emits no statements and leaves the code generator as it is.
pub fn sti(cg: &mut CodeGen)
    ensures
        *final(cg) == *old(cg),
{
}

/// `stc`: emits no statements and leaves the code generator as it is.
pub fn stc(cg: &mut CodeGen)
    ensures
        *final(cg) == *old(cg),
{
}

/// `daa`: emits no statements and leaves the code generator as it is.
pub fn daa(cg: &mut CodeGen)
    ensures
        *final(cg) == *old(cg),
{
}

/// `das`: emits no statements and leaves the code generator as it is.
pub fn das(cg: &mut CodeGen)
    ensures
        *final(cg) == *old(cg),
{
}

/// `dec`: emits no statements and leaves the code generator as it is.
pub fn dec(cg: &mut CodeGen, a: Rvalue)
    ensures
        *final(cg) == *old(cg),
{
}

/// `div`: emits no statements and leaves the code generator as it is.
pub fn div(cg: &mut CodeGen, a: Rvalue)
    ensures
        *final(cg) == *old(cg),
{
}

/// `enter`: emits no statements and leaves the code generator as it is.
pub fn enter(cg: &mut CodeGen, a: Rvalue, b: Rvalue)
    ensures
        *final(cg) == *old(cg),
{
}

/// `hlt`: emits no statements and leaves the code generator as it is.
pub fn hlt(cg: &mut CodeGen)
    ensures
        *final(cg) == *old(cg),
{
}

/// `idiv`: emits no statements and leaves the code generator as it is.
pub fn idiv(cg: &mut CodeGen, a: Rvalue)
    ensures
        *final(cg) == *old(cg),
{
}

/// `imul1`: emits no statements and leaves the code generator as it is.
pub fn imul1(cg: &mut CodeGen, a: Rvalue)
    ensures
        *final(cg) == *old(cg),
{
}

/// `imul2`: emits no statements and leaves the code generator as it is.
pub fn imul2(cg: &mut CodeGen, a: Rvalue, b: Rvalue)
    ensures
        *final(cg) == *old(cg),
{
}

/// `imul3`: emits no statements and leaves the code generator as it is.
pub fn imul3(cg: &mut CodeGen, a: Rvalue, b: Rvalue, c: Rvalue)
    ensures
        *final(cg) == *old(cg),
{
}

/// `in`: emits no statements and leaves the code generator as it is.
pub fn in_(cg: &mut CodeGen, a: Rvalue, b: Rvalue)
    ensures
        *final(cg) == *old(cg),
{
}

/// `icebp`: emits no statements and leaves the code generator as it is.
pub fn icebp(cg: &mut CodeGen)
    ensures
        *final(cg) == *old(cg),
{
}

/// `inc`: emits no statements and leaves the code generator as it is.
pub fn inc(cg: &mut CodeGen, a: Rvalue)
    ensures
        *final(cg) == *old(cg),
{
}

/// `ins`: emits no statements and leaves the code generator as it is.
pub fn ins(cg: &mut CodeGen, a: Rvalue, b: Rvalue)
    ensures
        *final(cg) == *old(cg),
{
}

/// `int`: emits no statements and leaves the code generator as it is.
pub fn int_(cg: &mut CodeGen, a: Rvalue)
    ensures
        *final(cg) == *old(cg),
{
}

/// `into`: emits no statements and leaves the code generator as it is.
pub fn into(cg: &mut CodeGen)
    ensures
        *final(cg) == *old(cg),
{
}

/// `jcc`: emits no statements and leaves the code generator as it is.
pub fn jcc(cg: &mut CodeGen, a: Rvalue, c: Condition)
    ensures
        *final(cg) == *old(cg),
{
}

/// `jmp`: emits no statements and leaves the code generator as it is.
pub fn jmp(cg: &mut CodeGen, a: Rvalue)
    ensures
        *final(cg) == *old(cg),
{
}

/// `jcxz`: emits no statements and leaves the code generator as it is.
pub fn jcxz(cg: &mut CodeGen, a: Rvalue)
    ensures
        *final(cg) == *old(cg),
{
}

/// `jecxz`: emits no statements and leaves the code generator as it is.
pub fn jecxz(cg: &mut CodeGen, a: Rvalue)
    ensures
        *final(cg) == *old(cg),
{
}

/// `jrcxz`: emits no statements and leaves the code generator as it is.
pub fn jrcxz(cg: &mut CodeGen, a: Rvalue)
    ensures
        *final(cg) == *old(cg),
{
}

/// `lahf`: emits no statements and leaves the code generator as it is.
pub fn lahf(cg: &mut CodeGen)
    ensures
        *final(cg) == *old(cg),
{
}

/// `lar`: emits no statements and leaves the code generator as it is.
pub fn lar(cg: &mut CodeGen, a: Rvalue, b: Rvalue)
    ensures
        *final(cg) == *old(cg),
{
}

/// `lxs`: emits no statements and leaves the code generator as it is.
pub fn lxs(cg: &mut CodeGen, a: Rvalue, b: Rvalue, seg: Rvalue)
    ensures
        *final(cg) == *old(cg),
{
}

/// `lea`: emits no statements and leaves the code generator as it is.
pub fn lea(cg: &mut CodeGen, a: Rvalue, b: Rvalue)
    ensures
        *final(cg) == *old(cg),
{
}

/// `mov`: emits no statements and leaves the code generator as it is.
pub fn mov(cg: &mut CodeGen, a: Rvalue, b: Rvalue)
    ensures
        *final(cg) == *old(cg),
{
}

/// `movbe`: emits no statements and leaves the code generator as it is.
pub fn movbe(cg: &mut CodeGen, a: Rvalue, b: Rvalue)
    ensures
        *final(cg) == *old(cg),
{
}

/// `movsx`: emits no statements and leaves the code generator as it is.
pub fn movsx(cg: &mut CodeGen, a: Rvalue, b: Rvalue)
    ensures
        *final(cg) == *old(cg),
{
}

/// `movzx`: emits no statements and leaves the code generator as it is.
pub fn movzx(cg: &mut CodeGen, a: Rvalue, b: Rvalue)
    ensures
        *final(cg) == *old(cg),
{
}

/// `mul`: emits no statements and leaves the code generator as it is.
pub fn mul(cg: &mut CodeGen, a: Rvalue)
    ensures
        *final(cg) == *old(cg),
{
}

/// `neg`: emits no statements and leaves the code generator as it is.
pub fn neg(cg: &mut CodeGen, a: Rvalue)
    ensures
        *final(cg) == *old(cg),
{
}

/// `nop`: emits no statements and leaves the code generator as it is.
pub fn nop(cg: &mut CodeGen)
    ensures
        *final(cg) == *old(cg),
{
}

/// `not`: emits no statements and leaves the code generator as it is.
pub fn not(cg: &mut CodeGen, a: Rvalue)
    ensures
        *final(cg) == *old(cg),
{
}

/// `out`: emits no statements and leaves the code generator as it is.
pub fn out(cg: &mut CodeGen, a: Rvalue, b: Rvalue)
    ensures
        *final(cg) == *old(cg),
{
}

/// `outs`: emits no statements and leaves the code generator as it is.
pub fn outs(cg: &mut CodeGen, a: Rvalue, b: Rvalue)
    ensures
        *final(cg) == *old(cg),
{
}

/// `popcnt`: emits no statements and leaves the code generator as it is.
pub fn popcnt(cg: &mut CodeGen, a: Rvalue, b: Rvalue)
    ensures
        *final(cg) == *old(cg),
{
}

/// `popf`: emits no statements and leaves the code generator as it is.
pub fn popf(cg: &mut CodeGen, a: Rvalue)
    ensures
        *final(cg) == *old(cg),
{
}

/// `pushf`: emits no statements and leaves the code generator as it is.
pub fn pushf(cg: &mut CodeGen, a: Rvalue)
    ensures
        *final(cg) == *old(cg),
{
}

/// `rcl`: emits no statements and leaves the code generator as it is.
pub fn rcl(cg: &mut CodeGen, a: Rvalue, b: Rvalue)
    ensures
        *final(cg) == *old(cg),
{
}

/// `rcr`: emits no statements and leaves the code generator as it is.
pub fn rcr(cg: &mut CodeGen, a: Rvalue, b: Rvalue)
    ensures
        *final(cg) == *old(cg),
{
}

/// `ret`: emits no statements and leaves the code generator as it is.
pub fn ret(cg: &mut CodeGen, a: Rvalue)
    ensures
        *final(cg) == *old(cg),
{
}

/// `retf`: emits no statements and leaves the code generator as it is.
pub fn retf(cg: &mut CodeGen, a: Rvalue)
    ensures
        *final(cg) == *old(cg),
{
}

/// `ror`: emits no statements and leaves the code generator as it is.
pub fn ror(cg: &mut CodeGen, a: Rvalue, b: Rvalue)
    ensures
        *final(cg) == *old(cg),
{
}

/// `rol`: emits no statements and leaves the code generator as it is.
pub fn rol(cg: &mut CodeGen, a: Rvalue, b: Rvalue)
    ensures
        *final(cg) == *old(cg),
{
}

/// `sahf`: emits no statements and leaves the code generator as it is.
pub fn sahf(cg: &mut CodeGen)
    ensures
        *final(cg) == *old(cg),
{
}

/// `sal`: emits no statements and leaves the code generator as it is.
pub fn sal(cg: &mut CodeGen, a: Rvalue, b: Rvalue)
    ensures
        *final(cg) == *old(cg),
{
}

/// `salc`: emits no statements and leaves the code generator as it is.
pub fn salc(cg: &mut CodeGen)
    ensures
        *final(cg) == *old(cg),
{
}

/// `sar`: emits no statements and leaves the code generator as it is.
pub fn sar(cg: &mut CodeGen, a: Rvalue, b: Rvalue)
    ensures
        *final(cg) == *old(cg),
{
}

/// `setcc`: emits no statements and leaves the code generator as it is.
pub fn setcc(cg: &mut CodeGen, a: Rvalue, c: Condition)
    ensures
        *final(cg) == *old(cg),
{
}

/// `shl`: emits no statements and leaves the code generator as it is.
pub fn shl(cg: &mut CodeGen, a: Rvalue, b: Rvalue)
    ensures
        *final(cg) == *old(cg),
{
}

/// `shr`: emits no statements and leaves the code generator as it is.
pub fn shr(cg: &mut CodeGen, a: Rvalue, b: Rvalue)
    ensures
        *final(cg) == *old(cg),
{
}

/// `shld`: emits no statements and leaves the code generator as it is.
pub fn shld(cg: &mut CodeGen, a: Rvalue, b: Rvalue, c: Rvalue)
    ensures
        *final(cg) == *old(cg),
{
}

/// `shrd`: emits no statements and leaves the code generator as it is.
pub fn shrd(cg: &mut CodeGen, a: Rvalue, b: Rvalue, c: Rvalue)
    ensures
        *final(cg) == *old(cg),
{
}

/// `test`: emits no statements and leaves the code generator as it is.
pub fn test(cg: &mut CodeGen, a: Rvalue, b: Rvalue)
    ensures
        *final(cg) == *old(cg),
{
}

/// `ud1`: emits no statements and leaves the code generator as it is.
pub fn ud1(cg: &mut CodeGen)
    ensures
        *final(cg) == *old(cg),
{
}

/// `ud2`: emits no statements and leaves the code generator as it is.
pub fn ud2(cg: &mut CodeGen)
    ensures
        *final(cg) == *old(cg),
{
}

/// `xadd`: emits no statements and leaves the code generator as it is.
pub fn xadd(cg: &mut CodeGen, a: Rvalue, b: Rvalue)
    ensures
        *final(cg) == *old(cg),
{
}

/// `xchg`: emits no statements and leaves the code generator as it is.
pub fn xchg(cg: &mut CodeGen, a: Rvalue, b: Rvalue)
    ensures
        *final(cg) == *old(cg),
{
}

/// `lds a, b`: loads a far pointer with segment `ds`; emits what
/// `lxs` emits, which is nothing.
pub fn lds(cg: &mut CodeGen, a: Rvalue, b: Rvalue)
    ensures
        *final(cg) == *old(cg),
{
    lxs(cg, a, b, reg(Register::Ds).to_rv())
}

/// `les a, b`: loads a far pointer with segment `es`; emits what
/// `lxs` emits, which is nothing.
pub fn les(cg: &mut CodeGen, a: Rvalue, b: Rvalue)
    ensures
        *final(cg) == *old(cg),
{
    lxs(cg, a, b, reg(Register::Es).to_rv())
}

/// `lss a, b`: loads a far pointer with segment `ss`; emits what
/// `lxs` emits, which is nothing.
pub fn lss(cg: &mut CodeGen, a: Rvalue, b: Rvalue)
    ensures
        *final(cg) == *old(cg),
{
    lxs(cg, a, b, reg(Register::Ss).to_rv())
}

/// `lfs a, b`: loads a far pointer with segment `fs`; emits what
/// `lxs` emits, which is nothing.
pub fn lfs(cg: &mut CodeGen, a: Rvalue, b: Rvalue)
    ensures
        *final(cg) == *old(cg),
{
    lxs(cg, a, b, reg(Register::Fs).to_rv())
}

/// `lgs a, b`: loads a far pointer with segment `gs`; emits what
/// `lxs` emits, which is nothing.
pub fn lgs(cg: &mut CodeGen, a: Rvalue, b: Rvalue)
    ensures
        *final(cg) == *old(cg),
{
    lxs(cg, a, b, reg(Register::Gs).to_rv())
}

// ---------------------------------------------------------------------
// Instructions decoded as a mnemonic without statements
// ---------------------------------------------------------------------

/// `new` is `old` after decoding the whole of `old.tokens` as the
/// mnemonic `opcode` with format `{}`, no operands and no statements,
/// followed by an unconditional jump to the next instruction.
pub open spec fn decoded_plain(old: State, new: State, opcode: Seq<char>) -> bool {
    let next = (old.address + old.tokens@.len()) as u64;
    &&& new.address == old.address
    &&& new.tokens@ == old.tokens@
    &&& new.mnemonics@.len() == old.mnemonics@.len() + 1
    &&& new.mnemonics@.drop_last() == old.mnemonics@
    &&& mnemonic_is(new.mnemonics@.last(), old.address, next, opcode, "{}"@, seq![], seq![])
    &&& new.jumps@ == old.jumps@.push(Jump { origin: old.address, target: cst(next), guard: Guard::True })
}

/// The instruction at `st` fits below the end of the address space.
pub open spec fn fits(st: State) -> bool {
    st.address + st.tokens@.len() <= u64::MAX
}

fn decode_plain(st: &mut State, opcode: &str) -> (ok: bool)
    requires
        fits(*old(st)),
    ensures
        ok,
        decoded_plain(*old(st), *final(st), opcode@),
{
    let next = st.address + (st.tokens.len() as u64);
    let len = st.tokens.len();

    st.mnemonic(len, opcode, "{}", Vec::new(), Vec::new());
    st.jump(Rvalue::Constant(next), Guard::always());
    true
}

/// `conv`: decoded as a mnemonic without statements that falls through
/// to the next instruction.
pub fn conv(st: &mut State) -> (ok: bool)
    requires
        fits(*old(st)),
    ensures
        ok,
        decoded_plain(*old(st), *final(st), "conv"@),
{
    decode_plain(st, "conv")
}

/// `conv2`: decoded as a mnemonic without statements that falls through
/// to the next instruction.
pub fn conv2(st: &mut State) -> (ok: bool)
    requires
        fits(*old(st)),
    ensures
        ok,
        decoded_plain(*old(st), *final(st), "conv2"@),
{
    decode_plain(st, "conv2")
}

/// `iret`: decoded as a mnemonic without statements that falls through
/// to the next instruction.
pub fn iret(st: &mut State) -> (ok: bool)
    requires
        fits(*old(st)),
    ensures
        ok,
        decoded_plain(*old(st), *final(st), "iret"@),
{
    decode_plain(st, "iret")
}

/// `leave`: decoded as a mnemonic without statements that falls through
/// to the next instruction.
pub fn leave(st: &mut State) -> (ok: bool)
    requires
        fits(*old(st)),
    ensures
        ok,
        decoded_plain(*old(st), *final(st), "leave"@),
{
    decode_plain(st, "leave")
}

/// `lodsb`: decoded as a mnemonic without statements that falls through
/// to the next instruction.
pub fn lodsb(st: &mut State) -> (ok: bool)
    requires
        fits(*old(st)),
    ensures
        ok,
        decoded_plain(*old(st), *final(st), "lodsb"@),
{
    decode_plain(st, "lodsb")
}

/// `lods`: decoded as a mnemonic without statements that falls through
/// to the next instruction.
pub fn lods(st: &mut State) -> (ok: bool)
    requires
        fits(*old(st)),
    ensures
        ok,
        decoded_plain(*old(st), *final(st), "lods"@),
{
    decode_plain(st, "lods")
}

/// `loop`: decoded as a mnemonic without statements that falls through
/// to the next instruction.
pub fn loop_(st: &mut State) -> (ok: bool)
    requires
        fits(*old(st)),
    ensures
        ok,
        decoded_plain(*old(st), *final(st), "loop"@),
{
    decode_plain(st, "loop")
}

/// `loope`: decoded as a mnemonic without statements that falls through
/// to the next instruction.
pub fn loope(st: &mut State) -> (ok: bool)
    requires
        fits(*old(st)),
    ensures
        ok,
        decoded_plain(*old(st), *final(st), "loope"@),
{
    decode_plain(st, "loope")
}

/// `loopne`: decoded as a mnemonic without statements that falls through
/// to the next instruction.
pub fn loopne(st: &mut State) -> (ok: bool)
    requires
        fits(*old(st)),
    ensures
        ok,
        decoded_plain(*old(st), *final(st), "loopne"@),
{
    decode_plain(st, "loopne")
}

/// `movsb`: decoded as a mnemonic without statements that falls through
/// to the next instruction.
pub fn movsb(st: &mut State) -> (ok: bool)
    requires
        fits(*old(st)),
    ensures
        ok,
        decoded_plain(*old(st), *final(st), "movsb"@),
{
    decode_plain(st, "movsb")
}

/// `movs`: decoded as a mnemonic without statements that falls through
/// to the next instruction.
pub fn movs(st: &mut State) -> (ok: bool)
    requires
        fits(*old(st)),
    ensures
        ok,
        decoded_plain(*old(st), *final(st), "movs"@),
{
    decode_plain(st, "movs")
}

/// `pop`: decoded as a mnemonic without statements that falls through
/// to the next instruction.
pub fn pop(st: &mut State) -> (ok: bool)
    requires
        fits(*old(st)),
    ensures
        ok,
        decoded_plain(*old(st), *final(st), "pop"@),
{
    decode_plain(st, "pop")
}

/// `popa`: decoded as a mnemonic without statements that falls through
/// to the next instruction.
pub fn popa(st: &mut State) -> (ok: bool)
    requires
        fits(*old(st)),
    ensures
        ok,
        decoded_plain(*old(st), *final(st), "popa"@),
{
    decode_plain(st, "popa")
}

/// `push`: decoded as a mnemonic without statements that falls through
/// to the next instruction.
pub fn push(st: &mut State) -> (ok: bool)
    requires
        fits(*old(st)),
    ensures
        ok,
        decoded_plain(*old(st), *final(st), "push"@),
{
    decode_plain(st, "push")
}

/// `pusha`: decoded as a mnemonic without statements that falls through
/// to the next instruction.
pub fn pusha(st: &mut State) -> (ok: bool)
    requires
        fits(*old(st)),
    ensures
        ok,
        decoded_plain(*old(st), *final(st), "pusha"@),
{
    decode_plain(st, "pusha")
}

/// `scas`: decoded as a mnemonic without statements that falls through
/// to the next instruction.
pub fn scas(st: &mut State) -> (ok: bool)
    requires
        fits(*old(st)),
    ensures
        ok,
        decoded_plain(*old(st), *final(st), "scas"@),
{
    decode_plain(st, "scas")
}

/// `stos`: decoded as a mnemonic without statements that falls through
/// to the next instruction.
pub fn stos(st: &mut State) -> (ok: bool)
    requires
        fits(*old(st)),
    ensures
        ok,
        decoded_plain(*old(st), *final(st), "stos"@),
{
    decode_plain(st, "stos")
}

} // verus!
