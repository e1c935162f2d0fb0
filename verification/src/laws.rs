//! The guarantees of the arithmetization layer, as proved statements.
//!
//! A multiplication or addition region passes the row check exactly
//! when its triple satisfies the intended relation; a synthesized trace
//! is accepted exactly for the right public input and rejected for any
//! other; the shape of the trace does not depend on the witness; and
//! copy constraints are symmetric.

use vstd::prelude::*;
use crate::field::Fp;
use crate::field::MODULUS;
use crate::field::fadd;
use crate::field::fmul;
use crate::field::fneg;
use crate::field::lemma_fmul_zero;
use crate::field::lemma_fmul_one;
use crate::field::lemma_fadd_zero;
use crate::field::lemma_fmul_neg_one;
use crate::field::lemma_fmul_bound;
use crate::field::lemma_cancel;
use crate::gate::Column;
use crate::gate::ColumnKind;
use crate::gate::Expr;
use crate::gate::eval_expr;
use crate::gate::queried;
use crate::value::Value;
use crate::cs::ConstraintSystem;
use crate::chip::ArithmeticConfig;
use crate::chip::Cell;
use crate::chip::Layouter;
use crate::chip::Region;
use crate::chip::RegionName;
use crate::chip::is_mul_region;
use crate::chip::is_add_region;
use crate::chip::is_copy_region;
use crate::circuit::cfg_wf;
use crate::circuit::cfg_in_cs;
use crate::circuit::gate_semantics;
use crate::circuit::gate_formula;
use crate::circuit::is_synth_trace;
use crate::circuit::wire;
use crate::checker::find_advice;
use crate::checker::find_fixed;
use crate::checker::adv_nat;
use crate::checker::fix_nat;
use crate::checker::adv_valuation;
use crate::checker::fix_valuation;
use crate::checker::region_has_row;
use crate::checker::region_values_ok;
use crate::checker::gates_hold;
use crate::checker::region_ok;
use crate::checker::resolve;
use crate::checker::copy_ok;
use crate::checker::binding_ok;
use crate::checker::trace_valid;

verus! {

/// The value a compute region's cell resolves to: the view of the
/// first advice assignment at row 0 of the column.
pub open spec fn lookup_view(r: Region, col: Column) -> Option<nat> {
    match find_advice(r.advice@, col, 0usize, 0) {
        Some(v) => v@,
        None => None,
    }
}

/// Row lookups of a region that assigns `l`, `r`, `o` at row 0, in
/// that order, as both compute regions do.
proof fn lemma_operand_lookups(r: Region, cfg: ArithmeticConfig, a: Option<nat>, b: Option<nat>, c: Option<nat>)
    requires
        cfg_wf(cfg),
        r.advice@.len() == 3,
        crate::chip::adv_is(r, 0, cfg.l, a),
        crate::chip::adv_is(r, 1, cfg.r, b),
        crate::chip::adv_is(r, 2, cfg.o, c),
    ensures
        lookup_view(r, cfg.l) == a,
        lookup_view(r, cfg.r) == b,
        lookup_view(r, cfg.o) == c,
{
    reveal_with_fuel(find_advice, 5);
    assert(cfg.l != cfg.r && cfg.l != cfg.o && cfg.r != cfg.o);
}

/// The advice valuation of such a region: `a`, `b`, `c` at the three
/// operand columns. Only for known values.
proof fn lemma_operand_valuation(cs: ConstraintSystem, r: Region, cfg: ArithmeticConfig, a: nat, b: nat, c: nat)
    requires
        cfg_wf(cfg),
        cfg_in_cs(cfg, cs),
        r.advice@.len() == 3,
        crate::chip::adv_is(r, 0, cfg.l, Some(a)),
        crate::chip::adv_is(r, 1, cfg.r, Some(b)),
        crate::chip::adv_is(r, 2, cfg.o, Some(c)),
    ensures
        queried(adv_valuation(r, cs.num_advice as nat), cfg.l.index as int) == a,
        queried(adv_valuation(r, cs.num_advice as nat), cfg.r.index as int) == b,
        queried(adv_valuation(r, cs.num_advice as nat), cfg.o.index as int) == c,
{
    reveal_with_fuel(find_advice, 5);
    assert(cfg.l == Column { kind: ColumnKind::Advice, index: cfg.l.index });
    assert(cfg.r == Column { kind: ColumnKind::Advice, index: cfg.r.index });
    assert(cfg.o == Column { kind: ColumnKind::Advice, index: cfg.o.index });
    assert(adv_nat(r, cfg.l.index as int) == a);
    assert(adv_nat(r, cfg.r.index as int) == b);
    assert(adv_nat(r, cfg.o.index as int) == c);
}

/// The selector valuation of a multiplication region:
/// `sm = so = 1`, `sl = sr = sc = 0`.
proof fn lemma_mul_selectors(cs: ConstraintSystem, r: Region, cfg: ArithmeticConfig)
    requires
        cfg_wf(cfg),
        cfg_in_cs(cfg, cs),
        r.fixed@.len() == 2,
        crate::chip::fix_is(r, 0, cfg.sm, 1),
        crate::chip::fix_is(r, 1, cfg.so, 1),
    ensures
        queried(fix_valuation(r, cs.num_fixed as nat), cfg.sm.index as int) == 1,
        queried(fix_valuation(r, cs.num_fixed as nat), cfg.so.index as int) == 1,
        queried(fix_valuation(r, cs.num_fixed as nat), cfg.sl.index as int) == 0,
        queried(fix_valuation(r, cs.num_fixed as nat), cfg.sr.index as int) == 0,
        queried(fix_valuation(r, cs.num_fixed as nat), cfg.sc.index as int) == 0,
{
    reveal_with_fuel(find_fixed, 5);
    assert(cfg.sm == Column { kind: ColumnKind::Fixed, index: cfg.sm.index });
    assert(cfg.so == Column { kind: ColumnKind::Fixed, index: cfg.so.index });
    assert(cfg.sl == Column { kind: ColumnKind::Fixed, index: cfg.sl.index });
    assert(cfg.sr == Column { kind: ColumnKind::Fixed, index: cfg.sr.index });
    assert(cfg.sc == Column { kind: ColumnKind::Fixed, index: cfg.sc.index });
    assert(fix_nat(r, cfg.sm.index as int) == 1);
    assert(fix_nat(r, cfg.so.index as int) == 1);
    assert(fix_nat(r, cfg.sl.index as int) == 0);
    assert(fix_nat(r, cfg.sr.index as int) == 0);
    assert(fix_nat(r, cfg.sc.index as int) == 0);
}

/// The selector valuation of an addition region:
/// `sl = sr = so = 1`, `sm = sc = 0`.
proof fn lemma_add_selectors(cs: ConstraintSystem, r: Region, cfg: ArithmeticConfig)
    requires
        cfg_wf(cfg),
        cfg_in_cs(cfg, cs),
        r.fixed@.len() == 3,
        crate::chip::fix_is(r, 0, cfg.sl, 1),
        crate::chip::fix_is(r, 1, cfg.sr, 1),
        crate::chip::fix_is(r, 2, cfg.so, 1),
    ensures
        queried(fix_valuation(r, cs.num_fixed as nat), cfg.sl.index as int) == 1,
        queried(fix_valuation(r, cs.num_fixed as nat), cfg.sr.index as int) == 1,
        queried(fix_valuation(r, cs.num_fixed as nat), cfg.so.index as int) == 1,
        queried(fix_valuation(r, cs.num_fixed as nat), cfg.sm.index as int) == 0,
        queried(fix_valuation(r, cs.num_fixed as nat), cfg.sc.index as int) == 0,
{
    reveal_with_fuel(find_fixed, 6);
    assert(cfg.sm == Column { kind: ColumnKind::Fixed, index: cfg.sm.index });
    assert(cfg.so == Column { kind: ColumnKind::Fixed, index: cfg.so.index });
    assert(cfg.sl == Column { kind: ColumnKind::Fixed, index: cfg.sl.index });
    assert(cfg.sr == Column { kind: ColumnKind::Fixed, index: cfg.sr.index });
    assert(cfg.sc == Column { kind: ColumnKind::Fixed, index: cfg.sc.index });
    assert(fix_nat(r, cfg.sl.index as int) == 1);
    assert(fix_nat(r, cfg.sr.index as int) == 1);
    assert(fix_nat(r, cfg.so.index as int) == 1);
    assert(fix_nat(r, cfg.sm.index as int) == 0);
    assert(fix_nat(r, cfg.sc.index as int) == 0);
}

/// A multiplication region passes validation exactly when its triple
/// satisfies `a * b == c`: its gate neither misses an unsatisfying
/// triple nor rejects a satisfying one.
pub proof fn lemma_mul_region_ok(cs: ConstraintSystem, cfg: ArithmeticConfig, r: Region, a: nat, b: nat, c: nat)
    requires
        cfg_wf(cfg),
        cfg_in_cs(cfg, cs),
        cs.gates@.len() == 1,
        gate_semantics(cs.gates@[0], cfg),
        is_mul_region(r, cfg, Some(a), Some(b), Some(c)),
        a < MODULUS,
        b < MODULUS,
        c < MODULUS,
    ensures
        region_ok(cs, r) <==> fmul(a, b) == c,
{
    let adv = adv_valuation(r, cs.num_advice as nat);
    let fix = fix_valuation(r, cs.num_fixed as nat);
    lemma_operand_valuation(cs, r, cfg, a, b, c);
    lemma_mul_selectors(cs, r, cfg);
    assert(eval_expr(cs.gates@[0], adv, fix) == gate_formula(cfg, adv, fix));
    let m = fmul(a, b);
    lemma_fmul_zero(a);
    lemma_fmul_zero(b);
    lemma_fmul_bound(a, b);
    lemma_fmul_one(m);
    lemma_fmul_one(c);
    lemma_fmul_neg_one(c);
    lemma_fadd_zero(m);
    assert(fadd(m, fneg(c)) < MODULUS);
    lemma_fadd_zero(fadd(m, fneg(c)));
    lemma_cancel(m, c);
    assert(gate_formula(cfg, adv, fix) == fadd(fadd(0, m), fneg(c)));
    assert((eval_expr(cs.gates@[0], adv, fix) == 0) <==> m == c);
    assert(region_values_ok(r));
    assert(region_has_row(r));
    if m == c {
        assert forall|k: int| 0 <= k < cs.gates@.len() implies eval_expr(
            #[trigger] cs.gates@[k],
            adv,
            fix,
        ) == 0 by {
            assert(k == 0);
        }
        assert(gates_hold(cs, r));
    } else {
        assert(!gates_hold(cs, r));
    }
}

/// An addition region passes validation exactly when its triple
/// satisfies `a + b == c`.
pub proof fn lemma_add_region_ok(cs: ConstraintSystem, cfg: ArithmeticConfig, r: Region, a: nat, b: nat, c: nat)
    requires
        cfg_wf(cfg),
        cfg_in_cs(cfg, cs),
        cs.gates@.len() == 1,
        gate_semantics(cs.gates@[0], cfg),
        is_add_region(r, cfg, Some(a), Some(b), Some(c)),
        a < MODULUS,
        b < MODULUS,
        c < MODULUS,
    ensures
        region_ok(cs, r) <==> fadd(a, b) == c,
{
    let adv = adv_valuation(r, cs.num_advice as nat);
    let fix = fix_valuation(r, cs.num_fixed as nat);
    lemma_operand_valuation(cs, r, cfg, a, b, c);
    lemma_add_selectors(cs, r, cfg);
    assert(eval_expr(cs.gates@[0], adv, fix) == gate_formula(cfg, adv, fix));
    let s = fadd(a, b);
    lemma_fmul_one(a);
    lemma_fmul_one(b);
    lemma_fmul_zero(fmul(a, b));
    lemma_fmul_one(c);
    lemma_fmul_neg_one(c);
    assert(s < MODULUS);
    lemma_fadd_zero(s);
    assert(fadd(s, fneg(c)) < MODULUS);
    lemma_fadd_zero(fadd(s, fneg(c)));
    lemma_cancel(s, c);
    assert(gate_formula(cfg, adv, fix) == fadd(fadd(s, 0), fneg(c)));
    assert((eval_expr(cs.gates@[0], adv, fix) == 0) <==> s == c);
    assert(region_values_ok(r));
    assert(region_has_row(r));
    if s == c {
        assert forall|k: int| 0 <= k < cs.gates@.len() implies eval_expr(
            #[trigger] cs.gates@[k],
            adv,
            fix,
        ) == 0 by {
            assert(k == 0);
        }
        assert(gates_hold(cs, r));
    } else {
        assert(!gates_hold(cs, r));
    }
}

/// A complete, satisfying trace is accepted: for all canonical `x`,
/// `y`, `c`, the synthesized trace passes every backend check when the
/// instance value at row 0 is `x^2 * y^2 + c`.
pub proof fn lemma_trace_accepted(
    cs: ConstraintSystem,
    cfg: ArithmeticConfig,
    t: Layouter,
    x: nat,
    y: nat,
    c: nat,
    inst: Seq<nat>,
)
    requires
        cfg_wf(cfg),
        cfg_in_cs(cfg, cs),
        cs.gates@.len() == 1,
        gate_semantics(cs.gates@[0], cfg),
        is_synth_trace(t, cfg, Some(x), Some(y), c),
        x < MODULUS,
        y < MODULUS,
        c < MODULUS,
        inst.len() >= 1,
        inst[0] == fadd(fmul(fmul(x, x), fmul(y, y)), c),
    ensures
        trace_valid(cs, t, inst),
{
    let xx = fmul(x, x);
    let yy = fmul(y, y);
    let xxyy = fmul(xx, yy);
    let res = fadd(xxyy, c);
    lemma_fmul_bound(x, x);
    lemma_fmul_bound(y, y);
    lemma_fmul_bound(xx, yy);
    assert(res < MODULUS);

    lemma_mul_region_ok(cs, cfg, t.regions@[0], x, x, xx);
    lemma_mul_region_ok(cs, cfg, t.regions@[2], y, y, yy);
    lemma_mul_region_ok(cs, cfg, t.regions@[4], xx, yy, xxyy);
    lemma_add_region_ok(cs, cfg, t.regions@[7], xxyy, c, res);
    assert forall|i: int| 0 <= i < t.regions@.len() implies region_ok(
        cs,
        #[trigger] t.regions@[i],
    ) by {
        if i == 1 || i == 3 || i == 5 || i == 6 || i == 8 {
            assert(is_copy_region(t.regions@[i]));
            assert(!region_has_row(t.regions@[i]));
        }
    }

    lemma_operand_lookups(t.regions@[0], cfg, Some(x), Some(x), Some(xx));
    lemma_operand_lookups(t.regions@[2], cfg, Some(y), Some(y), Some(yy));
    lemma_operand_lookups(t.regions@[4], cfg, Some(xx), Some(yy), Some(xxyy));
    lemma_operand_lookups(t.regions@[7], cfg, Some(xxyy), Some(c), Some(res));

    assert forall|i: int| 0 <= i < t.copies@.len() implies copy_ok(
        t,
        (#[trigger] t.copies@[i]).0,
        t.copies@[i].1,
    ) by {
        assert(resolve(t, wire(0, cfg.l)) == Some(x));
        assert(resolve(t, wire(0, cfg.r)) == Some(x));
        assert(resolve(t, wire(0, cfg.o)) == Some(xx));
        assert(resolve(t, wire(2, cfg.l)) == Some(y));
        assert(resolve(t, wire(2, cfg.r)) == Some(y));
        assert(resolve(t, wire(2, cfg.o)) == Some(yy));
        assert(resolve(t, wire(4, cfg.l)) == Some(xx));
        assert(resolve(t, wire(4, cfg.r)) == Some(yy));
        assert(resolve(t, wire(4, cfg.o)) == Some(xxyy));
        assert(resolve(t, wire(7, cfg.l)) == Some(xxyy));
    }

    assert forall|i: int| 0 <= i < t.instance_constraints@.len() implies binding_ok(
        t,
        inst,
        #[trigger] t.instance_constraints@[i],
    ) by {
        assert(t.instance_constraints@[i] == (wire(7, cfg.o), cfg.pi, 0usize));
        assert(resolve(t, wire(7, cfg.o)) == Some(res));
    }
}

/// Soundness against a wrong public input: the same trace is rejected
/// as soon as the instance value at row 0 differs from `x^2*y^2 + c`.
pub proof fn lemma_trace_rejected(
    cfg: ArithmeticConfig,
    t: Layouter,
    x: nat,
    y: nat,
    c: nat,
    inst: Seq<nat>,
    cs: ConstraintSystem,
)
    requires
        cfg_wf(cfg),
        is_synth_trace(t, cfg, Some(x), Some(y), c),
        x < MODULUS,
        y < MODULUS,
        c < MODULUS,
        !(inst.len() >= 1 && inst[0] == fadd(fmul(fmul(x, x), fmul(y, y)), c)),
    ensures
        !trace_valid(cs, t, inst),
{
    let xx = fmul(x, x);
    let yy = fmul(y, y);
    let xxyy = fmul(xx, yy);
    let res = fadd(xxyy, c);
    lemma_operand_lookups(t.regions@[7], cfg, Some(xxyy), Some(c), Some(res));
    assert(t.instance_constraints@[0] == (wire(7, cfg.o), cfg.pi, 0usize));
    assert(resolve(t, wire(7, cfg.o)) == Some(res));
    assert(!binding_ok(t, inst, t.instance_constraints@[0]));
    if trace_valid(cs, t, inst) {
        assert(binding_ok(t, inst, t.instance_constraints@[0]));
    }
}

/// A shape-only trace is rejected by witness validation: with either
/// witness value unknown, the advice of a compute region is incomplete.
pub proof fn lemma_shape_only_rejected(
    cfg: ArithmeticConfig,
    t: Layouter,
    x: Option<nat>,
    y: Option<nat>,
    c: nat,
    inst: Seq<nat>,
    cs: ConstraintSystem,
)
    requires
        is_synth_trace(t, cfg, x, y, c),
        x is None || y is None,
    ensures
        !trace_valid(cs, t, inst),
{
    if x is None {
        assert(t.regions@[0].advice@[0].2@ is None);
        assert(!region_values_ok(t.regions@[0]));
        assert(region_has_row(t.regions@[0]));
        if trace_valid(cs, t, inst) {
            assert(region_ok(cs, t.regions@[0]));
        }
    } else {
        assert(t.regions@[2].advice@[0].2@ is None);
        assert(!region_values_ok(t.regions@[2]));
        assert(region_has_row(t.regions@[2]));
        if trace_valid(cs, t, inst) {
            assert(region_ok(cs, t.regions@[2]));
        }
    }
}

/// A row that no region occupies satisfies the registered polynomial:
/// with every advice slot and every selector at zero it vanishes, so
/// the single gate can be active on every row of the table.
pub proof fn lemma_zero_row_vanishes(g: Expr, cfg: ArithmeticConfig)
    requires
        gate_semantics(g, cfg),
    ensures
        eval_expr(g, Seq::<nat>::empty(), Seq::<nat>::empty()) == 0,
{
    lemma_fmul_zero(0);
    lemma_fmul_zero((MODULUS - 1) as nat);
}

/// Copy constraints are symmetric: constraining `a = b` holds exactly
/// when constraining `b = a` would.
pub proof fn lemma_copy_symmetric(t: Layouter, a: Cell, b: Cell)
    ensures
        copy_ok(t, a, b) <==> copy_ok(t, b, a),
{
}

/// The witness-independent part of one region: its name, which slots
/// its advice assignments occupy, and its full selector pattern.
#[verifier::ext_equal]
pub struct RegionShape {
    pub name: RegionName,
    pub advice: Seq<(Column, usize)>,
    pub fixed: Seq<(Column, usize, nat)>,
}

/// The witness-independent part of a trace: region shapes, copy
/// constraints and public-input bindings.
#[verifier::ext_equal]
pub struct TraceShape {
    pub regions: Seq<RegionShape>,
    pub copies: Seq<(Cell, Cell)>,
    pub instance: Seq<(Cell, Column, usize)>,
}

/// Erase the advice values of a region, keeping its structure.
pub open spec fn region_shape(r: Region) -> RegionShape {
    RegionShape {
        name: r.name,
        advice: r.advice@.map_values(|t: (Column, usize, Value)| (t.0, t.1)),
        fixed: r.fixed@.map_values(|t: (Column, usize, Fp)| (t.0, t.1, t.2@)),
    }
}

/// Erase the advice values of a trace, keeping its structure.
pub open spec fn trace_shape(t: Layouter) -> TraceShape {
    TraceShape {
        regions: t.regions@.map_values(|r: Region| region_shape(r)),
        copies: t.copies@,
        instance: t.instance_constraints@,
    }
}

/// The trace shape does not depend on the witness: any two synthesized
/// traces have the same columns, region structure and selector
/// pattern, whatever their witness values — including none at all.
pub proof fn lemma_shape_witness_independent(
    t1: Layouter,
    t2: Layouter,
    cfg: ArithmeticConfig,
    x1: Option<nat>,
    y1: Option<nat>,
    c1: nat,
    x2: Option<nat>,
    y2: Option<nat>,
    c2: nat,
)
    requires
        is_synth_trace(t1, cfg, x1, y1, c1),
        is_synth_trace(t2, cfg, x2, y2, c2),
    ensures
        trace_shape(t1) == trace_shape(t2),
{
    assert forall|i: int| 0 <= i < 9 implies region_shape(t1.regions@[i]) =~= region_shape(
        t2.regions@[i],
    ) by {
        assert(region_shape(t1.regions@[i]).advice =~= region_shape(t2.regions@[i]).advice);
        assert(region_shape(t1.regions@[i]).fixed =~= region_shape(t2.regions@[i]).fixed);
    }
    assert(trace_shape(t1).regions =~= trace_shape(t2).regions);
    assert(trace_shape(t1) =~= trace_shape(t2));
}

} // verus!
