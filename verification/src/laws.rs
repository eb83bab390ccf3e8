use vstd::prelude::*;
use vstd::arithmetic::power2::pow2;

use crate::amd64::{reg_lv, reg_width, Condition, Mode, OperandSize, Register};
use crate::codegen::{temp, Operation};
use crate::machine::{
    bit, eval_op, holds, lemma_read_fresh, lemma_run_append, read, reads_temp_from, reads_var, run, step, update,
    Machine,
};
use crate::semantic::{decoded_plain, fits, ram_byte, string_compare_code, push_code, call_size_ok, far_call_code, arith_core_code, arith_ok, ext_code, ext_temps, ext_value, flags_ok, rt, 
    aaa_code, aad_code, aam_code, aas_code, adjust_head_code, arith_code, cmov_code, compare_exchange_code, cond_code,
    cond_flag, cond_temps, cst, flag_update_code, flags_code, has_width, near_call_code, operand_width, parity_chain,
    parity_step, rd, select_code, sign_ext_code, width_of, ArithOp, FlagUpdate,
};
use crate::disassembler::{Guard, State};
use crate::value::{lv_to_rv, rv_to_lv, Lvalue, Name, Rvalue};

verus! {

/// Writing a flag with the update of `flagwr(flag, val)` leaves exactly
/// that flag changed, set to 1 if `val` and to 0 otherwise.
pub proof fn law_flagwr_sets(m: Machine, w: u16, n: Name, val: bool)
    ensures
        ({
            let f = run(m, flag_update_code(FlagUpdate::Write { flag: Lvalue::Variable { width: w, name: n }, val }));
            f.vars =~= update(m.vars, n, bit(val)) && f.ram == m.ram
        }),
{
    reveal_with_fuel(run, 2);
}

/// The update of `flagcomp(flag)` leaves exactly that flag changed, set
/// to the negation of its truth value: for a flag holding 0 or 1 (the
/// values a 1-bit place holds) that is `1 - flag`.
pub proof fn law_flagcomp_negates(m: Machine, w: u16, n: Name)
    ensures
        ({
            let f = run(m, flag_update_code(FlagUpdate::Complement { flag: Lvalue::Variable { width: w, name: n } }));
            &&& f.vars =~= update(m.vars, n, bit(!holds((m.vars)(n))))
            &&& f.ram == m.ram
            &&& 0 <= (m.vars)(n) <= 1 ==> (f.vars)(n) == 1 - (m.vars)(n)
        }),
{
    reveal_with_fuel(run, 2);
}

/// Complementing a flag that holds 0 or 1 (the values a 1-bit place
/// holds) twice gives back the machine unchanged.
pub proof fn law_flagcomp_twice_restores(m: Machine, w: u16, n: Name)
    requires
        0 <= (m.vars)(n) <= 1,
    ensures
        ({
            let code = flag_update_code(FlagUpdate::Complement { flag: Lvalue::Variable { width: w, name: n } });
            run(m, code + code) == m
        }),
{
    let code = flag_update_code(FlagUpdate::Complement { flag: Lvalue::Variable { width: w, name: n } });
    lemma_run_append(m, code, code);
    law_flagcomp_negates(m, w, n);
    law_flagcomp_negates(run(m, code), w, n);
    assert(run(run(m, code), code) =~= m);
}

/// `aad a` sets `al` to `ah * a + al` and clears `ah`, with the values
/// taken before the instruction.
pub proof fn law_aad(m: Machine, a: Rvalue, t: u64)
    ensures
        ({
            let f = run(m, aad_code(a, t));
            &&& (f.vars)(Name::Reg(Register::Al)) == (m.vars)(Name::Reg(Register::Ah)) * read(m, a) + (m.vars)(
                Name::Reg(Register::Al))
            &&& (f.vars)(Name::Reg(Register::Ah)) == 0
            &&& f.ram == m.ram
        }),
{
    reveal_with_fuel(run, 4);
}

/// On inputs where the sum stays below 256, `aad imm` computes what the
/// x86 manual gives: `al := (al + ah * imm) mod 256`, `ah := 0`.
pub proof fn law_aad_x86(m: Machine, imm: u64, t: u64)
    requires
        0 <= (m.vars)(Name::Reg(Register::Al)),
        0 <= (m.vars)(Name::Reg(Register::Ah)) * imm + (m.vars)(Name::Reg(Register::Al)) < 256,
    ensures
        ({
            let f = run(m, aad_code(cst(imm), t));
            &&& (f.vars)(Name::Reg(Register::Al)) == ((m.vars)(Name::Reg(Register::Al)) + (m.vars)(Name::Reg(
                Register::Ah,
            )) * imm) % 256
            &&& (f.vars)(Name::Reg(Register::Ah)) == 0
        }),
{
    law_aad(m, cst(imm), t);
}

/// `aam a`, for an `a` that reads neither `ah` nor a temporary from
/// `t` on and is not 0, sets `ah := al / a` and `al := al % a`.
pub proof fn law_aam(m: Machine, a: Rvalue, t: u64)
    requires
        !reads_var(a, Name::Reg(Register::Ah)),
        !reads_temp_from(a, t),
        read(m, a) != 0,
    ensures
        ({
            let f = run(m, aam_code(a, t));
            &&& (f.vars)(Name::Reg(Register::Ah)) == (m.vars)(Name::Reg(Register::Al)) / read(m, a)
            &&& (f.vars)(Name::Reg(Register::Al)) == (m.vars)(Name::Reg(Register::Al)) % read(m, a)
            &&& f.ram == m.ram
        }),
{
    reveal_with_fuel(run, 4);
    let m1 = step(m, aam_code(a, t)[0]);
    let m2 = step(m1, aam_code(a, t)[1]);
    lemma_read_fresh(m, m1, a, t);
    lemma_read_unchanged(m1, m2, a, Name::Reg(Register::Ah));
}

/// Reading `r` is unaffected by a write to a variable it does not read.
pub proof fn lemma_read_unchanged(m1: Machine, m2: Machine, r: Rvalue, n: Name)
    requires
        !reads_var(r, n),
        m1.ram == m2.ram,
        forall|k: Name| #![trigger (m1.vars)(k)] k != n ==> (m1.vars)(k) == (m2.vars)(k),
    ensures
        read(m1, r) == read(m2, r),
    decreases r,
{
    match r {
        Rvalue::Memory { offset, .. } => {
            lemma_read_unchanged(m1, m2, *offset, n);
        },
        _ => {},
    }
}

/// The value that the `and_b` of `al` with `0x0f` at the start of `aaa`
/// and `aas` computes (the `y` of their comments).
pub open spec fn adjust_low(m: Machine) -> int {
    eval_op(m, Operation::LogicAnd(rd(Register::Al), cst(0x0f)))
}

/// The adjust condition `x1 = !(y <= 9) || AF` of `aaa` and `aas`.
pub open spec fn adjust_flag(m: Machine) -> int {
    bit(!(adjust_low(m) <= 9) || holds((m.vars)(Name::Reg(Register::AF))))
}

/// `aaa` does what its comments say: `x1 = !(y <= 9) || AF` goes to
/// `AF` and `CF`, and `ax = (ax + x1 * 0x106) % 0x100`.
pub proof fn law_aaa(m: Machine, t: u64)
    ensures
        ({
            let f = run(m, aaa_code(t));
            let x1 = adjust_flag(m);
            &&& (f.vars)(Name::Reg(Register::AF)) == x1
            &&& (f.vars)(Name::Reg(Register::CF)) == x1
            &&& (f.vars)(Name::Reg(Register::Ax)) == ((m.vars)(Name::Reg(Register::Ax)) + x1 * 0x106) % 0x100
            &&& f.ram == m.ram
        }),
{
    reveal_with_fuel(run, 13);
}

/// `aas` does what its comments say: `x1 = !(y <= 9) || AF` goes to
/// `AF` and `CF`, `ax = (ax - x1 * 6) % 0x100`, `ah = (ah - x1) % 0x10`,
/// and `al` ends up as `y`.
pub proof fn law_aas(m: Machine, t: u64)
    requires
        t + 5 <= u64::MAX,
    ensures
        ({
            let f = run(m, aas_code(t));
            let x1 = adjust_flag(m);
            &&& (f.vars)(Name::Reg(Register::AF)) == x1
            &&& (f.vars)(Name::Reg(Register::CF)) == x1
            &&& (f.vars)(Name::Reg(Register::Ax)) == ((m.vars)(Name::Reg(Register::Ax)) - x1 * 6) % 0x100
            &&& (f.vars)(Name::Reg(Register::Ah)) == ((m.vars)(Name::Reg(Register::Ah)) - x1) % 0x10
            &&& (f.vars)(Name::Reg(Register::Al)) == adjust_low(m)
            &&& f.ram == m.ram
        }),
{
    let h = adjust_head_code(t);
    let m1 = run(m, h);
    lemma_adjust_head(m, t);
    assert(aas_code(t) == h + aas_code(t).subrange(8, 16));
    lemma_run_append(m, h, aas_code(t).subrange(8, 16));
    reveal_with_fuel(run, 9);
}

/// What the shared head of `aaa` and `aas` leaves behind.
proof fn lemma_adjust_head(m: Machine, t: u64)
    requires
        t + 3 <= u64::MAX,
    ensures
        ({
            let f = run(m, adjust_head_code(t));
            let x1 = adjust_flag(m);
            &&& (f.vars)(Name::Temp(t)) == adjust_low(m)
            &&& (f.vars)(Name::Temp((t + 1) as u64)) == x1
            &&& (f.vars)(Name::Reg(Register::AF)) == x1
            &&& (f.vars)(Name::Reg(Register::CF)) == x1
            &&& forall|n: Name|
                n != Name::Temp(t) && n != Name::Temp((t + 1) as u64) && n != Name::Temp((t + 2) as u64) && n
                    != Name::Reg(Register::AF) && n != Name::Reg(Register::CF) ==> #[trigger] (f.vars)(n) == (
                m.vars)(n)
            &&& f.ram == m.ram
        }),
{
    reveal_with_fuel(run, 9);
}

/// The truth value of flag register `r` in `m`.
pub open spec fn flag(m: Machine, r: Register) -> bool {
    holds((m.vars)(Name::Reg(r)))
}

/// `f` and `m` agree on memory and on every variable but `n` and the
/// temporaries numbered `t` or higher.
pub open spec fn same_except(m: Machine, f: Machine, n: Name, t: u64) -> bool {
    &&& f.ram == m.ram
    &&& forall|k: Name| #![trigger (f.vars)(k)] k != n && !(k matches Name::Temp(j) && j >= t) ==> (f.vars)(k) == (m.vars)(k)
}

/// The condition that the code emitted for condition `c` tests.
pub open spec fn cmov_condition(c: Condition, m: Machine) -> bool {
    let of = flag(m, Register::OF);
    let cf = flag(m, Register::CF);
    let zf = flag(m, Register::ZF);
    let sf = flag(m, Register::SF);
    let pf = flag(m, Register::PF);
    match c {
        Condition::Overflow => of,
        Condition::NotOverflow => !of,
        Condition::Carry => cf,
        Condition::AboveEqual => !cf,
        Condition::Equal => zf,
        Condition::NotEqual => !zf,
        Condition::BelowEqual => zf || cf,
        Condition::Above => !(zf || cf),
        Condition::Sign => sf,
        Condition::NotSign => !sf,
        Condition::Parity => pf,
        Condition::NotParity => !pf,
        Condition::Less => sf == of,
        Condition::GreaterEqual => sf != of,
        Condition::LessEqual => sf == of || zf,
        Condition::Greater => sf != of || !zf,
    }
}

/// Condition `c` as the x86 manual defines it on the flags of `m`.
pub open spec fn x86_condition(c: Condition, m: Machine) -> bool {
    let of = flag(m, Register::OF);
    let cf = flag(m, Register::CF);
    let zf = flag(m, Register::ZF);
    let sf = flag(m, Register::SF);
    let pf = flag(m, Register::PF);
    match c {
        Condition::Overflow => of,
        Condition::NotOverflow => !of,
        Condition::Carry => cf,
        Condition::AboveEqual => !cf,
        Condition::Equal => zf,
        Condition::NotEqual => !zf,
        Condition::BelowEqual => cf || zf,
        Condition::Above => !cf && !zf,
        Condition::Sign => sf,
        Condition::NotSign => !sf,
        Condition::Parity => pf,
        Condition::NotParity => !pf,
        Condition::Less => sf != of,
        Condition::GreaterEqual => sf == of,
        Condition::LessEqual => zf || sf != of,
        Condition::Greater => !zf && sf == of,
    }
}

/// The signed comparisons `l`, `ge`, `le` and `g`.
pub open spec fn is_signed_condition(c: Condition) -> bool {
    c is Less || c is GreaterEqual || c is LessEqual || c is Greater
}

proof fn lemma_cond(m: Machine, c: Condition, t: u64)
    requires
        t + 2 <= u64::MAX,
    ensures
        holds(read(run(m, cond_code(c, t)), lv_to_rv(cond_flag(c, t)))) == cmov_condition(c, m),
        same_except(m, run(m, cond_code(c, t)), Name::Temp(t), t),
        !reads_temp_from(lv_to_rv(cond_flag(c, t)), (t + cond_temps(c)) as u64),
{
    reveal_with_fuel(run, 4);
}

/// `f` agrees with `m` outside the place `a` (its address taken in
/// `m`) and the temporaries from `t` on.
pub open spec fn same_but_place(m: Machine, f: Machine, a: Rvalue, t: u64) -> bool {
    &&& forall|k: int|
        #![trigger (f.ram)(k)]
        !(a matches Rvalue::Memory { offset, .. } && k == read(m, *offset)) ==> (f.ram)(k) == (m.ram)(k)
    &&& forall|j: Name|
        #![trigger (f.vars)(j)]
        !(j matches Name::Temp(i) && i >= t) && !(a matches Rvalue::Variable { name, .. } && j == name) ==> (
        f.vars)(j) == (m.vars)(j)
}

proof fn lemma_select(m: Machine, f: Lvalue, a: Rvalue, b: Rvalue, t: u64)
    requires
        t + 4 <= u64::MAX,
        has_width(a),
        simple_place(a),
        !reads_temp_from(lv_to_rv(f), t),
        !reads_temp_from(a, t),
        !reads_temp_from(b, t),
    ensures
        ({
            let fin = run(m, select_code(f, rv_to_lv(a).unwrap(), b, t));
            &&& value_at(fin, m, a) == if holds(read(m, lv_to_rv(f))) {
                read(m, b)
            } else {
                read(m, a)
            }
            &&& same_but_place(m, fin, a, t)
        }),
{
    let la = rv_to_lv(a).unwrap();
    let code = select_code(f, la, b, t);
    let m1 = step(m, code[0]);
    let m2 = step(m1, code[1]);
    let m3 = step(m2, code[2]);
    let m4 = step(m3, code[3]);
    let m5 = step(m4, code[4]);
    let m6 = step(m5, code[5]);
    lemma_read_fresh(m, m1, lv_to_rv(f), t);
    lemma_read_fresh(m, m3, b, t);
    lemma_read_fresh(m, m4, a, t);
    reveal_with_fuel(run, 7);
    reveal_with_fuel(reads_temp_from, 2);
    assert(run(m, code) == m6);
    assert(lv_to_rv(la) == a);
    let t1 = Name::Temp((t + 1) as u64);
    let t2 = Name::Temp((t + 2) as u64);
    let t3 = Name::Temp((t + 3) as u64);
    let p = bit(holds(read(m, lv_to_rv(f))));
    let q = bit(!holds(read(m, lv_to_rv(f))));
    let vb = read(m, b);
    let va = read(m, a);
    assert((m3.vars)(t1) == p);
    assert((m3.vars)(t2) == q);
    assert((m4.vars)(t1) == p * vb);
    assert((m5.vars)(t2) == q * va);
    assert((m5.vars)(t1) == p * vb);
    match a {
        Rvalue::Memory { offset, .. } => {
            lemma_read_fresh(m, m5, *offset, t);
            assert(value_at(m6, m, a) == p * vb + q * va);
        },
        _ => {
            assert(value_at(m6, m, a) == p * vb + q * va);
        },
    }
    if holds(read(m, lv_to_rv(f))) {
        assert(p * vb + q * va == vb) by (nonlinear_arith)
            requires
                p == 1,
                q == 0,
        ;
    } else {
        assert(p * vb + q * va == va) by (nonlinear_arith)
            requires
                p == 0,
                q == 1,
        ;
    }
}

/// A value that reads no temporary from `t` on reads none from any
/// later number on either.
pub proof fn lemma_fresh_mono(r: Rvalue, t: u64, t2: u64)
    requires
        t <= t2,
        !reads_temp_from(r, t),
    ensures
        !reads_temp_from(r, t2),
    decreases r,
{
    match r {
        Rvalue::Memory { offset, .. } => {
            lemma_fresh_mono(*offset, t, t2);
        },
        _ => {},
    }
}

/// `cmov a, b` with condition `c`, for a destination `a` (a variable,
/// or a memory cell at a constant or variable address) and an operand
/// `b` that read no temporary from `t` on, puts `b` at `a` if the
/// emitted test of `c` holds and leaves `a` otherwise; besides `a` only
/// temporaries from `t` on change.
pub proof fn law_cmov(m: Machine, a: Rvalue, b: Rvalue, c: Condition, t: u64)
    requires
        t + 6 <= u64::MAX,
        has_width(a),
        simple_place(a),
        !reads_temp_from(a, t),
        !reads_temp_from(b, t),
    ensures
        ({
            let fin = run(m, cmov_code(a, b, c, t));
            &&& value_at(fin, m, a) == if cmov_condition(c, m) {
                read(m, b)
            } else {
                read(m, a)
            }
            &&& same_but_place(m, fin, a, t)
        }),
{
    let cc = cond_code(c, t);
    let t2 = (t + cond_temps(c)) as u64;
    let f = cond_flag(c, t);
    let sc = select_code(f, rv_to_lv(a).unwrap(), b, t2);
    assert(cmov_code(a, b, c, t) == cc + sc);
    lemma_run_append(m, cc, sc);
    let m1 = run(m, cc);
    lemma_cond(m, c, t);
    lemma_read_fresh(m, m1, b, t);
    lemma_read_fresh(m, m1, a, t);
    lemma_fresh_mono(b, t, t2);
    lemma_fresh_mono(a, t, t2);
    lemma_select(m1, f, a, b, t2);
    let fin = run(m1, sc);
    match a {
        Rvalue::Memory { offset, .. } => {
            reveal_with_fuel(reads_temp_from, 2);
            lemma_read_fresh(m, m1, *offset, t);
        },
        _ => {},
    }
    assert(same_but_place(m, fin, a, t));
}

/// For every condition but the signed comparisons `l`, `ge`, `le` and
/// `g`, `cmov` moves exactly when the x86 manual says it does.
pub proof fn law_cmov_x86(m: Machine, a: Rvalue, b: Rvalue, c: Condition, t: u64)
    requires
        !is_signed_condition(c),
        t + 6 <= u64::MAX,
        has_width(a),
        simple_place(a),
        !reads_temp_from(a, t),
        !reads_temp_from(b, t),
    ensures
        value_at(run(m, cmov_code(a, b, c, t)), m, a) == if x86_condition(c, m) {
            read(m, b)
        } else {
            read(m, a)
        },
{
    law_cmov(m, a, b, c, t);
}

/// `cmpxchg a, b` for a register `a` other than `eax` and `ZF`, and an
/// operand `b` that reads neither `ZF` nor a temporary from `t` on:
/// `ZF` is set iff `a` equals `eax`; then `a` takes `b`, and otherwise
/// keeps its value; on equality `eax` keeps its value, and otherwise
/// the code sets it to 1.
pub proof fn law_compare_exchange(m: Machine, w: u16, n: Name, b: Rvalue, t: u64)
    requires
        t + 3 <= u64::MAX,
        n != Name::Reg(Register::Eax),
        n != Name::Reg(Register::ZF),
        !reads_temp_from(Rvalue::Variable { width: w, name: n }, t),
        !reads_temp_from(b, t),
        !reads_var(b, Name::Reg(Register::ZF)),
    ensures
        ({
            let fin = run(m, compare_exchange_code(Rvalue::Variable { width: w, name: n }, b, t));
            let eax = (m.vars)(Name::Reg(Register::Eax));
            let eq = (m.vars)(n) == eax;
            &&& (fin.vars)(Name::Reg(Register::ZF)) == bit(eq)
            &&& (fin.vars)(n) == if eq {
                read(m, b)
            } else {
                (m.vars)(n)
            }
            &&& eq ==> (fin.vars)(Name::Reg(Register::Eax)) == eax
            &&& !eq ==> (fin.vars)(Name::Reg(Register::Eax)) == 1
            &&& fin.ram == m.ram
        }),
{
    let a = Rvalue::Variable { width: w, name: n };
    let code = compare_exchange_code(a, b, t);
    let m0 = step(m, code[0]);
    let m1 = step(m0, code[1]);
    let m2 = step(m1, code[2]);
    let m3 = step(m2, code[3]);
    let m4 = step(m3, code[4]);
    let m5 = step(m4, code[5]);
    let m6 = step(m5, code[6]);
    let m7 = step(m6, code[7]);
    let m8 = step(m7, code[8]);
    let m9 = step(m8, code[9]);
    let m10 = step(m9, code[10]);
    reveal_with_fuel(run, 12);
    assert(run(m, code) == m10);
    let zfn = Name::Reg(Register::ZF);
    let eaxn = Name::Reg(Register::Eax);
    let tn = Name::Temp(t);
    let t1 = Name::Temp((t + 1) as u64);
    let t2 = Name::Temp((t + 2) as u64);
    let eax = (m.vars)(eaxn);
    let eq = (m.vars)(n) == eax;
    let p = bit(eq);
    let q = bit(!eq);
    lemma_read_unchanged(m, m0, b, zfn);
    lemma_read_fresh(m0, m3, b, t);
    assert((m0.vars)(zfn) == p);
    assert((m3.vars)(t1) == p);
    assert((m3.vars)(tn) == q);
    assert((m3.vars)(t2) == q);
    assert(read(m3, b) == read(m, b));
    assert((m4.vars)(t1) == p * read(m, b));
    assert((m5.vars)(t2) == q * (m.vars)(n));
    assert((m6.vars)(n) == p * read(m, b) + q * (m.vars)(n));
    assert((m8.vars)(t1) == p);
    assert((m8.vars)(t2) == q);
    assert((m9.vars)(t1) == p * eax);
    assert((m10.vars)(eaxn) == p * eax + q);
    let vb = read(m, b);
    let va = (m.vars)(n);
    if eq {
        assert(p * vb + q * va == vb && p * eax + q == eax) by (nonlinear_arith)
            requires
                p == 1,
                q == 0,
        ;
    } else {
        assert(p * vb + q * va == va) by (nonlinear_arith)
            requires
                p == 0,
                q == 1,
        ;
    }
}

/// The flag registers that the arithmetic instructions write.
pub open spec fn is_arith_flag(n: Name) -> bool {
    n == Name::Reg(Register::CF) || n == Name::Reg(Register::AF) || n == Name::Reg(Register::SF) || n
        == Name::Reg(Register::ZF) || n == Name::Reg(Register::OF) || n == Name::Reg(Register::PF)
}

/// The value that the parity steps for slices `1` up to `k - 1` leave
/// in `PF`, starting from `p`, for the result `r`: each step takes the
/// exclusive or (on 64-bit truncations) with `r / 2^i`.
pub open spec fn parity_fold(p: int, r: int, k: nat) -> int
    decreases k,
{
    if k <= 1 {
        p
    } else {
        ((parity_fold(p, r, (k - 1) as nat) as u64) ^ ((r / (pow2((k - 1) as nat) as int)) as u64)) as int
    }
}

/// The value the flag code gives `PF` for the result `r`:
/// `(r % 2) ^ (r / 2) ^ (r / 4) ^ ... ^ (r / 128)` on 64-bit truncations.
pub open spec fn parity_of(r: int) -> int {
    parity_fold(r % 2, r, 8)
}

/// `r` reads one of the arithmetic flags.
pub open spec fn reads_arith_flag(r: Rvalue) -> bool
    decreases r,
{
    match r {
        Rvalue::Variable { name, .. } => is_arith_flag(name),
        Rvalue::Memory { offset, .. } => reads_arith_flag(*offset),
        _ => false,
    }
}

/// Reading `r` gives the same in two machines that agree on memory and
/// on every variable `r` reads.
pub proof fn lemma_read_frame(m1: Machine, m2: Machine, r: Rvalue)
    requires
        m1.ram == m2.ram,
        forall|n: Name| #![trigger (m1.vars)(n)] reads_var(r, n) ==> (m1.vars)(n) == (m2.vars)(n),
    ensures
        read(m1, r) == read(m2, r),
    decreases r,
{
    match r {
        Rvalue::Memory { offset, .. } => {
            assert forall|n: Name| #![trigger (m1.vars)(n)] reads_var(*offset, n) implies (m1.vars)(n) == (m2.vars)(
                n,
            ) by {
                assert(reads_var(r, n));
            }
            lemma_read_frame(m1, m2, *offset);
        },
        _ => {},
    }
}

/// A value that reads no arithmetic flag reads none of their names.
pub proof fn lemma_no_flag_read(r: Rvalue, n: Name)
    requires
        !reads_arith_flag(r),
        is_arith_flag(n),
    ensures
        !reads_var(r, n),
    decreases r,
{
    match r {
        Rvalue::Memory { offset, .. } => {
            lemma_no_flag_read(*offset, n);
        },
        _ => {},
    }
}

proof fn lemma_parity_chain(m: Machine, t0: u64, rw: u16, tt: u64, w: u16, k: nat)
    requires
        k <= 8,
        t0 != tt,
    ensures
        ({
            let f = run(m, parity_chain(rt(t0, rw), temp(tt, w), k));
            &&& f.ram == m.ram
            &&& forall|j: Name|
                #![trigger (f.vars)(j)]
                j != Name::Reg(Register::PF) && j != Name::Temp(tt) ==> (f.vars)(j) == (m.vars)(j)
            &&& (f.vars)(Name::Reg(Register::PF)) == parity_fold(
                (m.vars)(Name::Reg(Register::PF)),
                (m.vars)(Name::Temp(t0)),
                k,
            )
        }),
    decreases k,
{
    let res = rt(t0, rw);
    if k > 1 {
        let tmp = temp(tt, w);
        lemma_parity_chain(m, t0, rw, tt, w, (k - 1) as nat);
        lemma_run_append(m, parity_chain(res, tmp, (k - 1) as nat), parity_step(res, tmp, (k - 1) as nat));
        lemma_shift_is_pow2(k);
        lemma_shift_is_pow2((k - 1) as nat);
        reveal_with_fuel(run, 4);
    } else {
        reveal_with_fuel(run, 1);
    }
}

/// The carry flag the code computes from result `r` of width `w`:
/// `r / 2^w`.
pub open spec fn carry_of(r: int, w: u16) -> int {
    r / (pow2(w as nat) as int)
}

/// The sign flag the code computes from result `r` of width `w`:
/// `r / 2^(w - 1)`.
pub open spec fn sign_of(r: int, w: u16) -> int {
    r / (pow2((w - 1) as nat) as int)
}

/// `2^e` as the left shift of 1 that the code uses, for `e < 64`.
proof fn lemma_shift_is_pow2(e: nat)
    requires
        e < 64,
    ensures
        (1u64 << (e as u64)) as int == pow2(e),
        pow2(e) > 0,
{
    vstd::bits::lemma_u64_pow2_no_overflow(e);
    vstd::bits::lemma_u64_shl_is_mul(1u64, e as u64);
}

proof fn lemma_flags_at(m: Machine, a: Rvalue, t0: u64, h: u64, hw: u16, tf: u64)
    requires
        flags_ok(a),
        !reads_arith_flag(a),
        t0 != tf,
        h != tf,
    ensures
        ({
            let w = width_of(a) as u16;
            let f = run(m, flags_code(temp(t0, w), rt(h, hw), a, tf));
            let r = (m.vars)(Name::Temp(t0));
            &&& (f.vars)(Name::Reg(Register::CF)) == carry_of(r, w)
            &&& (f.vars)(Name::Reg(Register::AF)) == (m.vars)(Name::Temp(h)) / 0x100
            &&& (f.vars)(Name::Reg(Register::SF)) == sign_of(r, w)
            &&& (f.vars)(Name::Reg(Register::ZF)) == bit(read(m, a) == 0)
            &&& (f.vars)(Name::Reg(Register::OF)) == ((carry_of(r, w) as u64) ^ (sign_of(r, w) as u64)) as int
            &&& (f.vars)(Name::Reg(Register::PF)) == parity_of(r)
            &&& f.ram == m.ram
            &&& forall|j: Name|
                #![trigger (f.vars)(j)]
                !is_arith_flag(j) && j != Name::Temp(tf) ==> (f.vars)(j) == (m.vars)(j)
        }),
{
    let w = width_of(a) as u16;
    let res = temp(t0, w);
    let code = flags_code(res, rt(h, hw), a, tf);
    let head = code.take(6);
    let chain = parity_chain(lv_to_rv(res), temp(tf, w), 8);
    assert(code == head + chain);
    lemma_run_append(m, head, chain);
    lemma_shift_is_pow2(w as nat);
    lemma_shift_is_pow2((w - 1) as nat);
    let m0 = step(m, head[0]);
    let m1 = step(m0, head[1]);
    let m2 = step(m1, head[2]);
    assert forall|n: Name| #![trigger (m.vars)(n)] reads_var(a, n) implies (m.vars)(n) == (m2.vars)(n) by {
        if is_arith_flag(n) {
            lemma_no_flag_read(a, n);
        }
    }
    lemma_read_frame(m, m2, a);
    reveal_with_fuel(run, 7);
    let mh = run(m, head);
    lemma_parity_chain(mh, t0, w, tf, w, 8);
}

/// What the code of `sign_ext(v, from, to)` computes for the value `v`:
/// `(v / 2^(from - 1)) % 2^(to - 1) + v % 2^(from - 1)`.
pub open spec fn sign_ext_value(v: int, from: nat, to: nat) -> int {
    let p = pow2((from - 1) as nat) as int;
    (v / p) % (pow2((to - 1) as nat) as int) + v % p
}

/// The value of the second operand `b` after extension to width `aw`.
pub open spec fn ext_operand(m: Machine, b: Rvalue, aw: nat) -> int {
    if operand_width(b, aw) == aw {
        read(m, b)
    } else {
        sign_ext_value(read(m, b), width_of(b), aw)
    }
}

/// The result that the two-operand instruction `kind` computes from the
/// operand values `x` and `y` and the carry value `c`: exact difference
/// for `cmp` and `sub`, difference less `c` for `sbb`, and the bitwise
/// `|` and `^` of the 64-bit truncations for `or` and `xor`.
pub open spec fn arith_value(kind: ArithOp, x: int, y: int, c: int) -> int {
    match kind {
        ArithOp::Cmp | ArithOp::Sub => x - y,
        ArithOp::Sbb => x - y - c,
        ArithOp::Or => ((x as u64) | (y as u64)) as int,
        ArithOp::Xor => ((x as u64) ^ (y as u64)) as int,
    }
}

/// A place the laws name by address: a variable, or a memory cell whose
/// address is a constant or a variable.
pub open spec fn simple_place(a: Rvalue) -> bool {
    a is Variable || (a matches Rvalue::Memory { offset, .. } && ((*offset) is Constant || (*offset) is Variable))
}

/// The value in `f` at the place `a` denotes, the address of a memory
/// place taken in `m`.
pub open spec fn value_at(f: Machine, m: Machine, a: Rvalue) -> int {
    match a {
        Rvalue::Variable { name, .. } => (f.vars)(name),
        Rvalue::Memory { offset, .. } => (f.ram)(read(m, *offset)),
        _ => 0,
    }
}

/// `f` agrees with `m` outside the place `a` (its address taken in
/// `m`), the arithmetic flags and the temporaries from `t` on.
pub open spec fn same_outside(m: Machine, f: Machine, a: Rvalue, t: u64) -> bool {
    &&& forall|k: int|
        #![trigger (f.ram)(k)]
        !(a matches Rvalue::Memory { offset, .. } && k == read(m, *offset)) ==> (f.ram)(k) == (m.ram)(k)
    &&& forall|j: Name|
        #![trigger (f.vars)(j)]
        !is_arith_flag(j) && !(j matches Name::Temp(i) && i >= t) && !(a matches Rvalue::Variable { name, .. }
            && j == name) ==> (f.vars)(j) == (m.vars)(j)
}

proof fn lemma_sign_ext_run(m: Machine, v: Rvalue, from: usize, to: usize, t: u64)
    requires
        0 < from < to <= 64,
        t + 2 <= u64::MAX,
        !reads_temp_from(v, t),
    ensures
        ({
            let f = run(m, sign_ext_code(v, from, to, t));
            &&& (f.vars)(Name::Temp((t + 1) as u64)) == sign_ext_value(read(m, v), from as nat, to as nat)
            &&& f.ram == m.ram
            &&& forall|j: Name|
                #![trigger (f.vars)(j)]
                !(j matches Name::Temp(i) && i >= t) ==> (f.vars)(j) == (m.vars)(j)
        }),
{
    let code = sign_ext_code(v, from, to, t);
    let m0 = step(m, code[0]);
    let m1 = step(m0, code[1]);
    let m2 = step(m1, code[2]);
    let m3 = step(m2, code[3]);
    reveal_with_fuel(run, 5);
    assert(run(m, code) == m3);
    lemma_shift_is_pow2((from - 1) as nat);
    lemma_shift_is_pow2((to - 1) as nat);
    lemma_read_fresh(m, m0, v, t);
}

/// The two-operand instructions on a place `a` of 1 to 63 bits (a
/// variable, or a memory cell at a constant or variable address) that
/// reads no flag and no temporary from `t` on, and a second operand
/// `b` that is a constant or at most as wide, extended as the code does:
/// all but `cmp` store the result at `a`; `CF` and `SF` are the result
/// divided by `2^w` and `2^(w - 1)`, `OF` is their exclusive or, `ZF`
/// tells whether `a` is 0 afterwards, `AF` is 0 and `PF` is
/// `parity_of` the result. Nothing else but temporaries from `t` on
/// changes.
pub proof fn law_arith(m: Machine, kind: ArithOp, a: Rvalue, b: Rvalue, t: u64)
    requires
        arith_ok(a, b),
        simple_place(a),
        !reads_arith_flag(a),
        !reads_temp_from(a, t),
        !reads_temp_from(b, t),
        t + 5 <= u64::MAX,
    ensures
        ({
            let fin = run(m, arith_code(kind, a, b, t));
            let w = width_of(a) as u16;
            let r = arith_value(kind, read(m, a), ext_operand(m, b, width_of(a)), (m.vars)(Name::Reg(Register::CF)));
            let v = if kind is Cmp {
                read(m, a)
            } else {
                r
            };
            &&& value_at(fin, m, a) == v
            &&& (fin.vars)(Name::Reg(Register::CF)) == carry_of(r, w)
            &&& (fin.vars)(Name::Reg(Register::SF)) == sign_of(r, w)
            &&& (fin.vars)(Name::Reg(Register::OF)) == ((carry_of(r, w) as u64) ^ (sign_of(r, w) as u64)) as int
            &&& (fin.vars)(Name::Reg(Register::ZF)) == bit(v == 0)
            &&& (fin.vars)(Name::Reg(Register::AF)) == 0
            &&& (fin.vars)(Name::Reg(Register::PF)) == parity_of(r)
            &&& same_outside(m, fin, a, t)
        }),
{
    let aw = width_of(a);
    let w = aw as u16;
    let k = ext_temps(b, aw);
    let bx = ext_value(b, aw, (t + 2) as u64);
    let e = ext_code(b, aw, (t + 2) as u64);
    let core = arith_core_code(kind, a, bx, t);
    let fl = flags_code(temp(t, w), rt((t + 1) as u64, 8), a, (t + 2 + k) as u64);
    assert(arith_code(kind, a, b, t) == e + core + fl);
    lemma_run_append(m, e + core, fl);
    lemma_run_append(m, e, core);
    let me = run(m, e);
    let y = ext_operand(m, b, aw);
    if operand_width(b, aw) == aw {
        reveal_with_fuel(run, 1);
        assert(me == m);
    } else {
        lemma_fresh_mono(b, t, (t + 2) as u64);
        lemma_sign_ext_run(m, b, width_of(b) as usize, aw as usize, (t + 2) as u64);
    }
    lemma_read_fresh(m, me, a, t);
    lemma_read_fresh(m, me, b, t);
    assert(read(me, bx) == y);
    let m4 = run(me, core);
    lemma_arith_core(me, kind, a, bx, t);
    let r = arith_value(kind, read(m, a), y, (m.vars)(Name::Reg(Register::CF)));
    match a {
        Rvalue::Memory { offset, .. } => {
            lemma_read_fresh(m, me, *offset, t);
        },
        _ => {},
    }
    lemma_flags_at(m4, a, t, (t + 1) as u64, 8, (t + 2 + k) as u64);
    assert((r % 0x100) / 0x100 == 0);
}

proof fn lemma_arith_core(m: Machine, kind: ArithOp, a: Rvalue, bx: Rvalue, t: u64)
    requires
        flags_ok(a),
        simple_place(a),
        !reads_arith_flag(a),
        !reads_temp_from(a, t),
        t + 2 <= u64::MAX,
    ensures
        ({
            let f = run(m, arith_core_code(kind, a, bx, t));
            let r = arith_value(kind, read(m, a), read(m, bx), (m.vars)(Name::Reg(Register::CF)));
            let v = if kind is Cmp {
                read(m, a)
            } else {
                r
            };
            &&& (f.vars)(Name::Temp(t)) == r
            &&& (f.vars)(Name::Temp((t + 1) as u64)) == r % 0x100
            &&& value_at(f, m, a) == v
            &&& read(f, a) == v
            &&& forall|kk: int|
                #![trigger (f.ram)(kk)]
                !(a matches Rvalue::Memory { offset, .. } && kk == read(m, *offset)) ==> (f.ram)(kk) == (m.ram)(kk)
            &&& forall|j: Name|
                #![trigger (f.vars)(j)]
                j != Name::Temp(t) && j != Name::Temp((t + 1) as u64) && !(a matches Rvalue::Variable {
                    name,
                    ..
                } && j == name) ==> (f.vars)(j) == (m.vars)(j)
        }),
{
    let code = arith_core_code(kind, a, bx, t);
    let x = read(m, a);
    let r = arith_value(kind, x, read(m, bx), (m.vars)(Name::Reg(Register::CF)));
    let pre = code.take(code.len() - (if kind is Cmp { 0int } else { 1int }));
    let m2 = run(m, pre);
    reveal_with_fuel(run, 4);
    reveal_with_fuel(reads_temp_from, 2);
    assert((m2.vars)(Name::Temp(t)) == r);
    assert(m2.ram == m.ram);
    assert(forall|j: Name|
        #![trigger (m2.vars)(j)]
        j != Name::Temp(t) && j != Name::Temp((t + 1) as u64) ==> (m2.vars)(j) == (m.vars)(j));
    match a {
        Rvalue::Memory { offset, .. } => {
            match *offset {
                Rvalue::Variable { name, .. } => {
                    assert(!(name matches Name::Temp(i) && i >= t));
                },
                _ => {},
            }
            assert(read(m2, *offset) == read(m, *offset));
        },
        _ => {},
    }
    if !(kind is Cmp) {
        assert(code == pre + seq![code.last()]);
        lemma_run_append(m, pre, seq![code.last()]);
        let mf = step(m2, code.last());
        assert(run(m2, seq![code.last()]) == mf);
        match a {
            Rvalue::Memory { offset, .. } => {
                assert(read(mf, *offset) == read(m, *offset));
            },
            _ => {},
        }
        assert(value_at(mf, m, a) == r);
    } else {
        assert(code == pre);
        assert(read(m2, a) == x);
    }
}

/// For unsigned operands below `2^w` of equal width (or a constant
/// second operand), `cmp` and `sub` set `CF` (as a truth value) exactly
/// when `a < b`, as the x86 manual says; `sub` also sets `ZF` exactly
/// when the operands are equal.
pub proof fn law_sub_borrow_x86(m: Machine, kind: ArithOp, a: Rvalue, b: Rvalue, t: u64)
    requires
        kind is Cmp || kind is Sub,
        arith_ok(a, b),
        b is Constant || width_of(b) == width_of(a),
        simple_place(a),
        !reads_arith_flag(a),
        !reads_temp_from(a, t),
        !reads_temp_from(b, t),
        t + 5 <= u64::MAX,
        0 <= read(m, a) < pow2(width_of(a)),
        0 <= read(m, b) < pow2(width_of(a)),
    ensures
        ({
            let fin = run(m, arith_code(kind, a, b, t));
            &&& holds((fin.vars)(Name::Reg(Register::CF))) <==> read(m, a) < read(m, b)
            &&& kind is Sub ==> (holds((fin.vars)(Name::Reg(Register::ZF))) <==> read(m, a) == read(m, b))
        }),
{
    law_arith(m, kind, a, b, t);
    let x = read(m, a);
    let y = read(m, b);
    let w = width_of(a) as u16;
    let p = pow2(w as nat) as int;
    assert(w as nat == width_of(a));
    lemma_shift_is_pow2(w as nat);
    if x < y {
        assert((x - y) / p == -1) by (nonlinear_arith)
            requires
                0 <= x < y,
                y < p,
        ;
    } else {
        assert((x - y) / p == 0) by (nonlinear_arith)
            requires
                0 <= y <= x,
                x < p,
        ;
    }
}

/// For operands of equal width (or a constant second operand) that fit
/// in 64 bits, `xor` sets `ZF` exactly when the operands are equal.
pub proof fn law_xor_zero_x86(m: Machine, a: Rvalue, b: Rvalue, t: u64)
    requires
        arith_ok(a, b),
        b is Constant || width_of(b) == width_of(a),
        simple_place(a),
        !reads_arith_flag(a),
        !reads_temp_from(a, t),
        !reads_temp_from(b, t),
        t + 5 <= u64::MAX,
        0 <= read(m, a) <= u64::MAX,
        0 <= read(m, b) <= u64::MAX,
    ensures
        holds((run(m, arith_code(ArithOp::Xor, a, b, t)).vars)(Name::Reg(Register::ZF))) <==> read(m, a) == read(
            m,
            b,
        ),
{
    law_arith(m, ArithOp::Xor, a, b, t);
    let x = read(m, a) as u64;
    let y = read(m, b) as u64;
    assert((x ^ y) == 0 <==> x == y) by (bit_vector);
}

/// A 32-bit relative near call jumps to `eip + a` modulo `2^32` and
/// pushes `eip` the way this library pushes: it is stored at the
/// address in `rip` and `esp` moves up by 32 modulo `2^32`.
pub proof fn law_near_rcall_32(m: Machine, a: Rvalue, t: u64)
    requires
        t + 2 <= u64::MAX,
    ensures
        ({
            let fin = run(m, near_call_code(a, true, OperandSize::ThirtyTwo, t));
            let eip = (m.vars)(Name::Reg(Register::Eip));
            &&& (fin.vars)(Name::Reg(Register::Eip)) == (read(m, a) + eip) % 0x100000000
            &&& (fin.ram)((m.vars)(Name::Reg(Register::Rip))) == eip
            &&& (fin.vars)(Name::Reg(Register::Esp)) == ((m.vars)(Name::Reg(Register::Esp)) + 32) % 0x100000000
        }),
{
    reveal_with_fuel(run, 8);
}

/// A 32-bit absolute near call through a register other than `esp`
/// jumps to the register's value and pushes `eip` the way this library
/// pushes.
pub proof fn law_near_call_32(m: Machine, w: u16, n: Name, t: u64)
    requires
        t + 2 <= u64::MAX,
        n != Name::Reg(Register::Esp),
    ensures
        ({
            let fin = run(m, near_call_code(Rvalue::Variable { width: w, name: n }, false, OperandSize::ThirtyTwo, t));
            let eip = (m.vars)(Name::Reg(Register::Eip));
            &&& (fin.vars)(Name::Reg(Register::Eip)) == (m.vars)(n)
            &&& (fin.ram)((m.vars)(Name::Reg(Register::Rip))) == eip
            &&& (fin.vars)(Name::Reg(Register::Esp)) == ((m.vars)(Name::Reg(Register::Esp)) + 32) % 0x100000000
        }),
{
    reveal_with_fuel(run, 6);
}

/// Under the operand size whose calls use the 64-bit registers, a near
/// call with a displacement below `2^31` jumps to `rip + a` (relative)
/// or to `a` (absolute), stores `rip` at the address in `rip`, and moves
/// `rsp` up by 64.
pub proof fn law_near_call_64(m: Machine, a: Rvalue, rel: bool, t: u64)
    requires
        t + 2 <= u64::MAX,
        !reads_temp_from(a, t),
        0 <= read(m, a) < 0x80000000,
    ensures
        ({
            let fin = run(m, near_call_code(a, rel, OperandSize::Sixteen, t));
            let rip = (m.vars)(Name::Reg(Register::Rip));
            &&& (fin.vars)(Name::Reg(Register::Rip)) == if rel {
                rip + read(m, a)
            } else {
                read(m, a)
            }
            &&& (fin.ram)(rip) == rip
            &&& (fin.vars)(Name::Reg(Register::Rsp)) == (m.vars)(Name::Reg(Register::Rsp)) + 64
        }),
{
    let se = sign_ext_code(a, 32, 64, t);
    let rest = near_call_code(a, rel, OperandSize::Sixteen, t).subrange(4, near_call_code(a, rel, OperandSize::Sixteen, t).len() as int);
    assert(near_call_code(a, rel, OperandSize::Sixteen, t) == se + rest);
    lemma_run_append(m, se, rest);
    let m1 = run(m, se);
    let v = read(m, a);
    lemma_shift_is_pow2(31);
    lemma_shift_is_pow2(63);
    vstd::arithmetic::power2::lemma2_to64();
    reveal_with_fuel(run, 5);
    let m0 = step(m, se[0]);
    let m2 = step(m0, se[1]);
    let m3 = step(m2, se[2]);
    let m4 = step(m3, se[3]);
    assert(m1 == m4);
    lemma_read_fresh(m, m0, a, t);
    assert(v / 0x80000000 == 0);
    assert(v % 0x80000000 == v);
    assert(read(m, cst(1u64 << 31u64)) == 0x80000000);
    assert((m0.vars)(Name::Temp(t)) == 0);
    assert((m2.vars)(Name::Temp((t + 1) as u64)) == v);
    assert((m3.vars)(Name::Temp(t)) == 0);
    assert((m1.vars)(Name::Temp((t + 1) as u64)) == v);
    reveal_with_fuel(run, 6);
}

/// Temporaries with different numbers are different places, and no
/// temporary is a register: what `new_temp` hands out never clashes.
pub proof fn law_temps_distinct(n1: u64, w1: u16, n2: u64, w2: u16, r: Register)
    requires
        n1 != n2,
    ensures
        temp(n1, w1) != temp(n2, w2),
        temp(n1, w1) != reg_lv(r),
{
}

/// Extending a value whose top bit (bit `from - 1`) is clear keeps it:
/// the result temporary `t + 1` holds the value read before.
pub proof fn law_sign_ext_nonnegative(m: Machine, v: Rvalue, from: usize, to: usize, t: u64)
    requires
        0 < from < to <= 64,
        t + 2 <= u64::MAX,
        !reads_temp_from(v, t),
        0 <= read(m, v) < pow2((from - 1) as nat),
    ensures
        (run(m, sign_ext_code(v, from, to, t)).vars)(Name::Temp((t + 1) as u64)) == read(m, v),
{
    let code = sign_ext_code(v, from, to, t);
    let m0 = step(m, code[0]);
    let m1 = step(m0, code[1]);
    let m2 = step(m1, code[2]);
    let m3 = step(m2, code[3]);
    reveal_with_fuel(run, 5);
    assert(run(m, code) == m3);
    lemma_shift_is_pow2((from - 1) as nat);
    lemma_shift_is_pow2((to - 1) as nat);
    lemma_read_fresh(m, m0, v, t);
    let x = read(m, v);
    let p = pow2((from - 1) as nat) as int;
    assert(x / p == 0 && x % p == x) by (nonlinear_arith)
        requires
            0 <= x < p,
    ;
    assert((m0.vars)(Name::Temp(t)) == 0);
    assert((m1.vars)(Name::Temp((t + 1) as u64)) == x);
    assert((m2.vars)(Name::Temp(t)) == 0);
}

/// `sbb a, b` with a clear carry (`CF` holding 0) leaves the machine in
/// exactly the state `sub a, b` leaves it in: the same value at `a`,
/// the same six flags and the same everything else.
pub proof fn law_sbb_clear_carry_is_sub(m: Machine, a: Rvalue, b: Rvalue, t: u64)
    requires
        (m.vars)(Name::Reg(Register::CF)) == 0,
    ensures
        run(m, arith_code(ArithOp::Sbb, a, b, t)) == run(m, arith_code(ArithOp::Sub, a, b, t)),
{
    let aw = width_of(a);
    let k = ext_temps(b, aw);
    let bx = ext_value(b, aw, (t + 2) as u64);
    let e = ext_code(b, aw, (t + 2) as u64);
    let fl = flags_code(temp(t, aw as u16), rt((t + 1) as u64, 8), a, (t + 2 + k) as u64);
    let sbb_core = arith_core_code(ArithOp::Sbb, a, bx, t);
    let sub_core = arith_core_code(ArithOp::Sub, a, bx, t);
    let first = seq![sub_core[0]];
    let extra = seq![sbb_core[1]];
    let tail = sub_core.drop_first() + fl;
    assert(arith_code(ArithOp::Sbb, a, b, t) == e + (first + (extra + tail)));
    assert(arith_code(ArithOp::Sub, a, b, t) == e + (first + tail));
    lemma_run_append(m, e, first + (extra + tail));
    lemma_run_append(m, e, first + tail);
    let me = run(m, e);
    lemma_run_append(me, first, extra + tail);
    lemma_run_append(me, first, tail);
    let m1 = run(me, first);
    lemma_run_append(m1, extra, tail);
    reveal_with_fuel(run, 5);
    assert((me.vars)(Name::Reg(Register::CF)) == 0);
    assert(run(m1, extra) =~= m1);
}

/// `cmp a, b` and `sub a, b` set `CF`, `AF`, `SF`, `OF` and `PF` to the
/// same values; they differ only in storing the result and in `ZF`.
pub proof fn law_cmp_sub_flags_agree(m: Machine, a: Rvalue, b: Rvalue, t: u64)
    requires
        arith_ok(a, b),
        simple_place(a),
        !reads_arith_flag(a),
        !reads_temp_from(a, t),
        !reads_temp_from(b, t),
        t + 5 <= u64::MAX,
    ensures
        ({
            let c = run(m, arith_code(ArithOp::Cmp, a, b, t));
            let s = run(m, arith_code(ArithOp::Sub, a, b, t));
            &&& (c.vars)(Name::Reg(Register::CF)) == (s.vars)(Name::Reg(Register::CF))
            &&& (c.vars)(Name::Reg(Register::AF)) == (s.vars)(Name::Reg(Register::AF))
            &&& (c.vars)(Name::Reg(Register::SF)) == (s.vars)(Name::Reg(Register::SF))
            &&& (c.vars)(Name::Reg(Register::OF)) == (s.vars)(Name::Reg(Register::OF))
            &&& (c.vars)(Name::Reg(Register::PF)) == (s.vars)(Name::Reg(Register::PF))
        }),
{
    law_arith(m, ArithOp::Cmp, a, b, t);
    law_arith(m, ArithOp::Sub, a, b, t);
}

/// The stack pointer register of a processor mode.
pub open spec fn stack_reg(mode: Mode) -> Register {
    match mode {
        Mode::Real => Register::Sp,
        Mode::Protected => Register::Esp,
        Mode::Long => Register::Rsp,
    }
}

/// The stack pointer after moving `sp` up by `w` bits in `mode`:
/// modulo `2^16` in real mode, modulo `2^32` in protected mode, and
/// without wrap-around in long mode.
pub open spec fn stack_after(sp: int, w: int, mode: Mode) -> int {
    match mode {
        Mode::Real => (sp + w) % 0x10000,
        Mode::Protected => (sp + w) % 0x100000000,
        Mode::Long => sp + w,
    }
}

/// A push of the variable `v` stores its value at the address held in
/// `rip` and moves the stack pointer of `mode` up by the width of `v`;
/// nothing else changes.
pub proof fn law_push(m: Machine, v: Rvalue, mode: Mode)
    requires
        v is Variable,
    ensures
        ({
            let f = run(m, push_code(v, mode));
            let rip = (m.vars)(Name::Reg(Register::Rip));
            let spn = Name::Reg(stack_reg(mode));
            &&& (f.ram)(rip) == read(m, v)
            &&& forall|k: int| #![trigger (f.ram)(k)] k != rip ==> (f.ram)(k) == (m.ram)(k)
            &&& (f.vars)(spn) == stack_after((m.vars)(spn), v->Variable_width as int, mode)
            &&& forall|j: Name| #![trigger (f.vars)(j)] j != spn ==> (f.vars)(j) == (m.vars)(j)
        }),
{
    reveal_with_fuel(run, 4);
}

/// A far call under a supported operand size pushes the code segment
/// and then the instruction pointer of that size: both stores go to the
/// address in `rip`, so the instruction pointer is what stays there,
/// and the stack pointer moves up by both widths.
pub proof fn law_far_call(m: Machine, size: OperandSize)
    requires
        call_size_ok(size),
    ensures
        ({
            let f = run(m, far_call_code(size));
            let mode = if size is Sixteen {
                Mode::Real
            } else if size is ThirtyTwo {
                Mode::Protected
            } else {
                Mode::Long
            };
            let ipr = if size is Sixteen {
                Register::Ip
            } else if size is ThirtyTwo {
                Register::Eip
            } else {
                Register::Rip
            };
            let spn = Name::Reg(stack_reg(mode));
            let rip = (m.vars)(Name::Reg(Register::Rip));
            &&& (f.ram)(rip) == (m.vars)(Name::Reg(ipr))
            &&& forall|k: int| #![trigger (f.ram)(k)] k != rip ==> (f.ram)(k) == (m.ram)(k)
            &&& (f.vars)(spn) == stack_after(stack_after((m.vars)(spn), 16, mode), reg_width(ipr) as int, mode)
            &&& forall|j: Name| #![trigger (f.vars)(j)] j != spn ==> (f.vars)(j) == (m.vars)(j)
        }),
{
    let mode = if size is Sixteen {
        Mode::Real
    } else if size is ThirtyTwo {
        Mode::Protected
    } else {
        Mode::Long
    };
    let ipr = if size is Sixteen {
        Register::Ip
    } else if size is ThirtyTwo {
        Register::Eip
    } else {
        Register::Rip
    };
    let p1 = push_code(rd(Register::Cs), mode);
    let p2 = push_code(rd(ipr), mode);
    assert(far_call_code(size) == p1 + p2);
    lemma_run_append(m, p1, p2);
    law_push(m, rd(Register::Cs), mode);
    law_push(run(m, p1), rd(ipr), mode);
}

/// `cmps` on two address registers (distinct, neither a flag, `DF` nor a
/// temporary from `t` on): with `r` the difference of the bytes at the
/// two addresses, `CF` and `AF` are `r / 2^8`, `SF` is `r / 2^7`, `OF`
/// their exclusive or, `PF` is `parity_of(r)`, `ZF` tells whether the
/// first byte is 0; then both addresses move by `lift(DF) - lift(!DF)`,
/// that is up by 1 if `DF` is set and down by 1 otherwise. Memory does
/// not change.
pub proof fn law_string_compare(m: Machine, wa: u16, na: Name, wb: u16, nb: Name, t: u64)
    requires
        1 <= wa,
        na != nb,
        !is_arith_flag(na),
        !is_arith_flag(nb),
        na != Name::Reg(Register::DF),
        nb != Name::Reg(Register::DF),
        !(na matches Name::Temp(i) && i >= t),
        !(nb matches Name::Temp(i) && i >= t),
        t + 6 <= u64::MAX,
    ensures
        ({
            let aoff = Rvalue::Variable { width: wa, name: na };
            let boff = Rvalue::Variable { width: wb, name: nb };
            let f = run(m, string_compare_code(aoff, boff, t));
            let x = (m.ram)((m.vars)(na));
            let r = x - (m.ram)((m.vars)(nb));
            let d = bit(flag(m, Register::DF)) - bit(!flag(m, Register::DF));
            &&& (f.vars)(Name::Reg(Register::CF)) == carry_of(r, 8)
            &&& (f.vars)(Name::Reg(Register::AF)) == r / 0x100
            &&& (f.vars)(Name::Reg(Register::SF)) == sign_of(r, 8)
            &&& (f.vars)(Name::Reg(Register::OF)) == ((carry_of(r, 8) as u64) ^ (sign_of(r, 8) as u64)) as int
            &&& (f.vars)(Name::Reg(Register::PF)) == parity_of(r)
            &&& (f.vars)(Name::Reg(Register::ZF)) == bit(x == 0)
            &&& (f.vars)(na) == (m.vars)(na) + d
            &&& (f.vars)(nb) == (m.vars)(nb) + d
            &&& f.ram == m.ram
            &&& forall|j: Name|
                #![trigger (f.vars)(j)]
                !is_arith_flag(j) && !(j matches Name::Temp(i) && i >= t) && j != na && j != nb ==> (f.vars)(j) == (
                m.vars)(j)
        }),
{
    let aoff = Rvalue::Variable { width: wa, name: na };
    let boff = Rvalue::Variable { width: wb, name: nb };
    let code = string_compare_code(aoff, boff, t);
    let a = ram_byte(aoff);
    let res = temp(t, 8);
    let fl = flags_code(res, lv_to_rv(res), lv_to_rv(a), (t + 5) as u64);
    let first = code.take(1);
    let tail = code.subrange(1 + fl.len() as int, code.len() as int);
    assert(code == first + fl + tail);
    lemma_run_append(m, first + fl, tail);
    lemma_run_append(m, first, fl);
    reveal_with_fuel(run, 2);
    let m1 = run(m, first);
    assert(width_of(lv_to_rv(a)) == 8);
    reveal_with_fuel(reads_arith_flag, 2);
    reveal_with_fuel(read, 2);
    assert(first[0] == code[0]);
    assert(m1 == step(m, code[0]));
    let x = (m.ram)((m.vars)(na));
    let r = x - (m.ram)((m.vars)(nb));
    assert((m1.vars)(Name::Temp(t)) == r);
    assert(read(m1, lv_to_rv(a)) == x);
    lemma_flags_at(m1, lv_to_rv(a), t, t, 8, (t + 5) as u64);
    let m2 = run(m1, fl);
    assert((m2.vars)(na) == (m.vars)(na));
    assert((m2.vars)(nb) == (m.vars)(nb));
    assert((m2.vars)(Name::Reg(Register::DF)) == (m.vars)(Name::Reg(Register::DF)));
    let s0 = step(m2, tail[0]);
    let s1 = step(s0, tail[1]);
    let s2 = step(s1, tail[2]);
    let s3 = step(s2, tail[3]);
    let s4 = step(s3, tail[4]);
    let s5 = step(s4, tail[5]);
    reveal_with_fuel(run, 7);
    assert(run(m2, tail) == s5);
    let d = bit(flag(m, Register::DF)) - bit(!flag(m, Register::DF));
    assert((s3.vars)(Name::Temp((t + 1) as u64)) == d);
    assert((s4.vars)(na) == (m.vars)(na) + d);
    assert((s5.vars)(nb) == (m.vars)(nb) + d);
}

/// The premises under which the value laws of the two-operand
/// instructions hold: `a` a place of 1 to 63 bits (a variable, or a
/// memory cell at a constant or variable address) reading no flag, `b`
/// a constant or an operand of the same width, neither reading a
/// temporary from `t` on.
pub open spec fn same_width_operands(a: Rvalue, b: Rvalue, t: u64) -> bool {
    &&& arith_ok(a, b)
    &&& b is Constant || width_of(b) == width_of(a)
    &&& simple_place(a)
    &&& !reads_arith_flag(a)
    &&& !reads_temp_from(a, t)
    &&& !reads_temp_from(b, t)
    &&& t + 5 <= u64::MAX
}

/// `sub a, b` leaves `a - b` at `a`; `ZF` is set exactly when `a == b`,
/// and `CF` is `(a - b) / 2^w` for `w` the width of `a`.
pub proof fn law_sub_value(m: Machine, a: Rvalue, b: Rvalue, t: u64)
    requires
        same_width_operands(a, b, t),
    ensures
        ({
            let fin = run(m, arith_code(ArithOp::Sub, a, b, t));
            &&& value_at(fin, m, a) == read(m, a) - read(m, b)
            &&& (fin.vars)(Name::Reg(Register::ZF)) == if read(m, a) == read(m, b) {
                1int
            } else {
                0int
            }
            &&& (fin.vars)(Name::Reg(Register::CF)) == (read(m, a) - read(m, b)) / (pow2(width_of(a)) as int)
        }),
{
    law_arith(m, ArithOp::Sub, a, b, t);
    assert(width_of(a) as u16 as nat == width_of(a));
}

/// `sbb a, b` leaves `a - b - CF` at `a`, with the value `CF` held
/// before.
pub proof fn law_sbb_value(m: Machine, a: Rvalue, b: Rvalue, t: u64)
    requires
        same_width_operands(a, b, t),
    ensures
        value_at(run(m, arith_code(ArithOp::Sbb, a, b, t)), m, a) == read(m, a) - read(m, b) - (m.vars)(
            Name::Reg(Register::CF),
        ),
{
    law_arith(m, ArithOp::Sbb, a, b, t);
}

/// `or a, b` leaves the bitwise or of the operands (their 64-bit
/// truncations) at `a`; `ZF` tells whether that is 0.
pub proof fn law_or_value(m: Machine, a: Rvalue, b: Rvalue, t: u64)
    requires
        same_width_operands(a, b, t),
    ensures
        ({
            let fin = run(m, arith_code(ArithOp::Or, a, b, t));
            let v = ((read(m, a) as u64) | (read(m, b) as u64)) as int;
            &&& value_at(fin, m, a) == v
            &&& (fin.vars)(Name::Reg(Register::ZF)) == if v == 0 {
                1int
            } else {
                0int
            }
        }),
{
    law_arith(m, ArithOp::Or, a, b, t);
}

/// `or a, a` on a value that fits in 64 bits leaves `a` as it was.
pub proof fn law_or_self_keeps(m: Machine, a: Rvalue, t: u64)
    requires
        same_width_operands(a, a, t),
        0 <= read(m, a) <= u64::MAX,
    ensures
        value_at(run(m, arith_code(ArithOp::Or, a, a, t)), m, a) == read(m, a),
{
    law_or_value(m, a, a, t);
    let x = read(m, a) as u64;
    assert(x | x == x) by (bit_vector);
}

/// `xor a, b` leaves the bitwise exclusive or of the operands (their
/// 64-bit truncations) at `a`; `ZF` tells whether that is 0.
pub proof fn law_xor_value(m: Machine, a: Rvalue, b: Rvalue, t: u64)
    requires
        same_width_operands(a, b, t),
    ensures
        ({
            let fin = run(m, arith_code(ArithOp::Xor, a, b, t));
            let v = ((read(m, a) as u64) ^ (read(m, b) as u64)) as int;
            &&& value_at(fin, m, a) == v
            &&& (fin.vars)(Name::Reg(Register::ZF)) == if v == 0 {
                1int
            } else {
                0int
            }
        }),
{
    law_arith(m, ArithOp::Xor, a, b, t);
}

/// `cmp a, b` leaves `a` as it was, and `CF` is `(a - b) / 2^w` as for
/// `sub`; its `ZF` tells whether `a` is 0.
pub proof fn law_compare_value(m: Machine, a: Rvalue, b: Rvalue, t: u64)
    requires
        same_width_operands(a, b, t),
    ensures
        ({
            let fin = run(m, arith_code(ArithOp::Cmp, a, b, t));
            &&& value_at(fin, m, a) == read(m, a)
            &&& (fin.vars)(Name::Reg(Register::CF)) == (read(m, a) - read(m, b)) / (pow2(width_of(a)) as int)
            &&& (fin.vars)(Name::Reg(Register::ZF)) == if read(m, a) == 0 {
                1int
            } else {
                0int
            }
        }),
{
    law_arith(m, ArithOp::Cmp, a, b, t);
    assert(width_of(a) as u16 as nat == width_of(a));
}

/// `cmov a, b` with condition `c` moves `b` to `a` exactly when the
/// flags satisfy the test that `c` names, written out per condition:
/// the flags are taken as truth values (anything but 0 is set).
pub proof fn law_cmov_tests(m: Machine, a: Rvalue, b: Rvalue, c: Condition, t: u64)
    requires
        t + 6 <= u64::MAX,
        has_width(a),
        simple_place(a),
        !reads_temp_from(a, t),
        !reads_temp_from(b, t),
    ensures
        ({
            let of = (m.vars)(Name::Reg(Register::OF)) != 0;
            let cf = (m.vars)(Name::Reg(Register::CF)) != 0;
            let zf = (m.vars)(Name::Reg(Register::ZF)) != 0;
            let sf = (m.vars)(Name::Reg(Register::SF)) != 0;
            let pf = (m.vars)(Name::Reg(Register::PF)) != 0;
            let moved = value_at(run(m, cmov_code(a, b, c, t)), m, a) == read(m, b);
            let kept = value_at(run(m, cmov_code(a, b, c, t)), m, a) == read(m, a);
            let test = match c {
                Condition::Overflow => of,
                Condition::NotOverflow => !of,
                Condition::Carry => cf,
                Condition::AboveEqual => !cf,
                Condition::Equal => zf,
                Condition::NotEqual => !zf,
                Condition::BelowEqual => cf || zf,
                Condition::Above => !cf && !zf,
                Condition::Sign => sf,
                Condition::NotSign => !sf,
                Condition::Parity => pf,
                Condition::NotParity => !pf,
                Condition::Less => sf == of,
                Condition::GreaterEqual => sf != of,
                Condition::LessEqual => (sf == of) || zf,
                Condition::Greater => (sf != of) || !zf,
            };
            &&& test ==> moved
            &&& !test ==> kept
        }),
{
    law_cmov(m, a, b, c, t);
}

/// A near call under the operand size `SixtyFour` jumps to
/// `(a + eip) % 2^16` (relative) or to `a % 2^16` (absolute), stores
/// `rip` at the address in `rip` and moves `sp` up by 64 modulo `2^16`.
pub proof fn law_near_call_sixty_four(m: Machine, a: Rvalue, rel: bool, t: u64)
    requires
        t + 2 <= u64::MAX,
    ensures
        ({
            let fin = run(m, near_call_code(a, rel, OperandSize::SixtyFour, t));
            let rip = (m.vars)(Name::Reg(Register::Rip));
            &&& (fin.vars)(Name::Reg(Register::Rip)) == if rel {
                (read(m, a) + (m.vars)(Name::Reg(Register::Eip))) % 0x10000
            } else {
                read(m, a) % 0x10000
            }
            &&& (fin.ram)(rip) == rip
            &&& (fin.vars)(Name::Reg(Register::Sp)) == ((m.vars)(Name::Reg(Register::Sp)) + 64) % 0x10000
        }),
{
    reveal_with_fuel(run, 8);
}

/// Decoding an instruction as a plain mnemonic covers all its bytes:
/// the new mnemonic starts at the instruction's address and ends
/// `tokens.len()` bytes later, which is also where the added
/// unconditional jump from the instruction's address goes.
pub proof fn law_plain_decode_covers_instruction(old: State, new: State, opcode: Seq<char>)
    requires
        fits(old),
        decoded_plain(old, new, opcode),
    ensures
        new.mnemonics@.len() == old.mnemonics@.len() + 1,
        new.mnemonics@.last().area_start == old.address,
        new.mnemonics@.last().area_end == old.address + old.tokens@.len(),
        new.mnemonics@.last().opcode@ == opcode,
        new.jumps@.len() == old.jumps@.len() + 1,
        new.jumps@.last().origin == old.address,
        new.jumps@.last().target == Rvalue::Constant(new.mnemonics@.last().area_end),
        new.jumps@.last().guard == Guard::True,
{
}

} // verus!
