//! The mock backend: validation of a synthesized trace.
//!
//! A real proving backend compiles the trace into keys and proofs; this
//! module performs the check such a backend enforces cryptographically:
//! on every single-row region the registered gates must vanish, every
//! copy constraint must relate two equal assigned cells, and every
//! public-input binding must match the supplied instance values.

use vstd::prelude::*;
use crate::field::Fp;
use crate::gate::Column;
use crate::gate::ColumnKind;
use crate::gate::eval_expr;
use crate::gate::wf_expr;
use crate::gate::fp_seq;
use crate::gate::canonical_seq;
use crate::gate::eval;
use crate::value::Value;
use crate::cs::ConstraintSystem;
use crate::chip::Cell;
use crate::chip::Layouter;
use crate::chip::Region;

verus! {

/// The first advice assignment at `(col, off)` of a region, if any.
pub open spec fn find_advice(
    assigns: Seq<(Column, usize, Value)>,
    col: Column,
    off: usize,
    i: int,
) -> Option<Value>
    decreases assigns.len() - i,
{
    if i < 0 || i >= assigns.len() {
        None
    } else if assigns[i].0 == col && assigns[i].1 == off {
        Some(assigns[i].2)
    } else {
        find_advice(assigns, col, off, i + 1)
    }
}

/// The first fixed assignment at `(col, off)` of a region, if any.
pub open spec fn find_fixed(
    assigns: Seq<(Column, usize, Fp)>,
    col: Column,
    off: usize,
    i: int,
) -> Option<Fp>
    decreases assigns.len() - i,
{
    if i < 0 || i >= assigns.len() {
        None
    } else if assigns[i].0 == col && assigns[i].1 == off {
        Some(assigns[i].2)
    } else {
        find_fixed(assigns, col, off, i + 1)
    }
}

/// A found advice value is one of the region's assignments.
pub proof fn lemma_find_advice_mem(
    assigns: Seq<(Column, usize, Value)>,
    col: Column,
    off: usize,
    i: int,
    v: Value,
)
    requires
        find_advice(assigns, col, off, i) == Some(v),
    ensures
        exists|k: int| 0 <= k < assigns.len() && assigns[k].2 == v,
    decreases assigns.len() - i,
{
    if i < 0 || i >= assigns.len() {
    } else if assigns[i].0 == col && assigns[i].1 == off {
        assert(assigns[i].2 == v);
    } else {
        lemma_find_advice_mem(assigns, col, off, i + 1, v);
    }
}

/// A found fixed value is one of the region's assignments.
pub proof fn lemma_find_fixed_mem(
    assigns: Seq<(Column, usize, Fp)>,
    col: Column,
    off: usize,
    i: int,
    f: Fp,
)
    requires
        find_fixed(assigns, col, off, i) == Some(f),
    ensures
        exists|k: int| 0 <= k < assigns.len() && assigns[k].2 == f,
    decreases assigns.len() - i,
{
    if i < 0 || i >= assigns.len() {
    } else if assigns[i].0 == col && assigns[i].1 == off {
        assert(assigns[i].2 == f);
    } else {
        lemma_find_fixed_mem(assigns, col, off, i + 1, f);
    }
}

/// The advice valuation entry for advice column `j` on the region's
/// row: the assigned known value, zero when the column is unassigned.
pub open spec fn adv_nat(r: Region, j: int) -> nat {
    match find_advice(r.advice@, Column { kind: ColumnKind::Advice, index: j as usize }, 0usize, 0) {
        Some(v) => match v@ {
            Some(n) => n,
            None => 0,
        },
        None => 0,
    }
}

/// The fixed valuation entry for fixed column `j` on the region's row.
pub open spec fn fix_nat(r: Region, j: int) -> nat {
    match find_fixed(r.fixed@, Column { kind: ColumnKind::Fixed, index: j as usize }, 0usize, 0) {
        Some(f) => f@,
        None => 0,
    }
}

/// The advice valuation of the region's row, one entry per declared
/// advice column.
pub open spec fn adv_valuation(r: Region, n: nat) -> Seq<nat> {
    Seq::new(n, |j: int| adv_nat(r, j))
}

/// The fixed valuation of the region's row, one entry per declared
/// fixed column.
pub open spec fn fix_valuation(r: Region, n: nat) -> Seq<nat> {
    Seq::new(n, |j: int| fix_nat(r, j))
}

/// A region with assignments occupies one row of the table; an empty
/// region occupies none.
pub open spec fn region_has_row(r: Region) -> bool {
    r.advice@.len() > 0 || r.fixed@.len() > 0
}

/// Every advice value of the region is known and canonical, and every
/// selector value canonical: a complete witness for this row.
pub open spec fn region_values_ok(r: Region) -> bool {
    &&& forall|i: int|
        0 <= i < r.advice@.len() ==> (#[trigger] r.advice@[i]).2@ is Some && r.advice@[i].2.wf()
    &&& forall|i: int| 0 <= i < r.fixed@.len() ==> (#[trigger] r.fixed@[i]).2.wf()
}

/// Every registered gate vanishes on the region's row.
pub open spec fn gates_hold(cs: ConstraintSystem, r: Region) -> bool {
    forall|k: int|
        0 <= k < cs.gates@.len() ==> eval_expr(
            #[trigger] cs.gates@[k],
            adv_valuation(r, cs.num_advice as nat),
            fix_valuation(r, cs.num_fixed as nat),
        ) == 0
}

/// A region passes validation when its row, if it has one, carries a
/// complete canonical witness on which every gate vanishes.
pub open spec fn region_ok(cs: ConstraintSystem, r: Region) -> bool {
    region_has_row(r) ==> (region_values_ok(r) && gates_hold(cs, r))
}

/// The known value held by a cell, if the cell addresses an assigned,
/// known advice slot.
pub open spec fn resolve(t: Layouter, c: Cell) -> Option<nat> {
    if c.region < t.regions@.len() {
        match find_advice(t.regions@[c.region as int].advice@, c.column, c.offset, 0) {
            Some(v) => v@,
            None => None,
        }
    } else {
        None
    }
}

/// A copy constraint holds: both cells resolve, to one value.
pub open spec fn copy_ok(t: Layouter, a: Cell, b: Cell) -> bool {
    &&& resolve(t, a) is Some
    &&& resolve(t, a) == resolve(t, b)
}

/// A public-input binding holds: the row is in range and the bound
/// cell resolves to the supplied instance value.
pub open spec fn binding_ok(t: Layouter, inst: Seq<nat>, b: (Cell, Column, usize)) -> bool {
    &&& b.2 < inst.len()
    &&& resolve(t, b.0) == Some(inst[b.2 as int])
}

/// The full backend check of a trace against instance values.
pub open spec fn trace_valid(cs: ConstraintSystem, t: Layouter, inst: Seq<nat>) -> bool {
    &&& forall|i: int| 0 <= i < t.regions@.len() ==> region_ok(cs, #[trigger] t.regions@[i])
    &&& forall|i: int|
        0 <= i < t.copies@.len() ==> copy_ok(t, (#[trigger] t.copies@[i]).0, t.copies@[i].1)
    &&& forall|i: int|
        0 <= i < t.instance_constraints@.len() ==> binding_ok(
            t,
            inst,
            #[trigger] t.instance_constraints@[i],
        )
}

/// Every registered gate polynomial carries canonical constants.
pub open spec fn gates_wf(cs: ConstraintSystem) -> bool {
    forall|k: int| 0 <= k < cs.gates@.len() ==> wf_expr(#[trigger] cs.gates@[k])
}

/// Linear search for the first advice assignment at `(col, off)`.
fn find_advice_exec(assigns: &Vec<(Column, usize, Value)>, col: Column, off: usize) -> (r: Option<
    Value,
>)
    ensures
        r == find_advice(assigns@, col, off, 0),
{
    let mut i: usize = 0;
    while i < assigns.len()
        invariant
            i <= assigns@.len(),
            find_advice(assigns@, col, off, 0) == find_advice(assigns@, col, off, i as int),
        decreases assigns@.len() - i,
    {
        let (c, o, v) = assigns[i];
        if c == col && o == off {
            return Some(v);
        }
        i = i + 1;
    }
    None
}

/// Linear search for the first fixed assignment at `(col, off)`.
fn find_fixed_exec(assigns: &Vec<(Column, usize, Fp)>, col: Column, off: usize) -> (r: Option<Fp>)
    ensures
        r == find_fixed(assigns@, col, off, 0),
{
    let mut i: usize = 0;
    while i < assigns.len()
        invariant
            i <= assigns@.len(),
            find_fixed(assigns@, col, off, 0) == find_fixed(assigns@, col, off, i as int),
        decreases assigns@.len() - i,
    {
        let (c, o, f) = assigns[i];
        if c == col && o == off {
            return Some(f);
        }
        i = i + 1;
    }
    None
}

/// Validate one region: completeness and canonicity of its witness,
/// and every gate vanishing on its row.
pub fn check_region(cs: &ConstraintSystem, r: &Region) -> (ok: bool)
    requires
        gates_wf(*cs),
    ensures
        ok == region_ok(*cs, *r),
{
    if r.advice.len() == 0 && r.fixed.len() == 0 {
        return true;
    }
    let mut i: usize = 0;
    while i < r.advice.len()
        invariant
            i <= r.advice@.len(),
            forall|k: int|
                0 <= k < i ==> (#[trigger] r.advice@[k]).2@ is Some && r.advice@[k].2.wf(),
        decreases r.advice@.len() - i,
    {
        match r.advice[i].2 {
            Value::Unknown => {
                return false;
            },
            Value::Known(f) => {
                if !f.is_canonical() {
                    return false;
                }
            },
        }
        i = i + 1;
    }
    let mut i: usize = 0;
    while i < r.fixed.len()
        invariant
            i <= r.fixed@.len(),
            forall|k: int| 0 <= k < i ==> (#[trigger] r.fixed@[k]).2.wf(),
        decreases r.fixed@.len() - i,
    {
        if !r.fixed[i].2.is_canonical() {
            return false;
        }
        i = i + 1;
    }
    assert(region_values_ok(*r));

    let mut adv: Vec<Fp> = Vec::new();
    let mut j: usize = 0;
    while j < cs.num_advice
        invariant
            j <= cs.num_advice,
            adv@.len() == j,
            region_values_ok(*r),
            forall|k: int| 0 <= k < j ==> (#[trigger] adv@[k]).wf() && adv@[k]@ == adv_nat(*r, k),
        decreases cs.num_advice - j,
    {
        match find_advice_exec(&r.advice, Column { kind: ColumnKind::Advice, index: j }, 0) {
            Some(v) => {
                proof {
                    lemma_find_advice_mem(
                        r.advice@,
                        Column { kind: ColumnKind::Advice, index: j },
                        0,
                        0,
                        v,
                    );
                }
                match v {
                    Value::Known(f) => {
                        adv.push(f);
                    },
                    Value::Unknown => {
                        proof {
                            assert(false);
                        }
                        return false;
                    },
                }
            },
            None => {
                adv.push(Fp::zero());
            },
        }
        j = j + 1;
    }
    let mut fix: Vec<Fp> = Vec::new();
    let mut j: usize = 0;
    while j < cs.num_fixed
        invariant
            j <= cs.num_fixed,
            fix@.len() == j,
            region_values_ok(*r),
            forall|k: int| 0 <= k < j ==> (#[trigger] fix@[k]).wf() && fix@[k]@ == fix_nat(*r, k),
        decreases cs.num_fixed - j,
    {
        match find_fixed_exec(&r.fixed, Column { kind: ColumnKind::Fixed, index: j }, 0) {
            Some(f) => {
                proof {
                    lemma_find_fixed_mem(
                        r.fixed@,
                        Column { kind: ColumnKind::Fixed, index: j },
                        0,
                        0,
                        f,
                    );
                }
                fix.push(f);
            },
            None => {
                fix.push(Fp::zero());
            },
        }
        j = j + 1;
    }
    proof {
        assert(fp_seq(adv@) =~= adv_valuation(*r, cs.num_advice as nat));
        assert(fp_seq(fix@) =~= fix_valuation(*r, cs.num_fixed as nat));
        assert(canonical_seq(fp_seq(adv@)));
        assert(canonical_seq(fp_seq(fix@)));
    }
    let mut k: usize = 0;
    while k < cs.gates.len()
        invariant
            k <= cs.gates@.len(),
            gates_wf(*cs),
            region_has_row(*r),
            canonical_seq(fp_seq(adv@)),
            canonical_seq(fp_seq(fix@)),
            fp_seq(adv@) == adv_valuation(*r, cs.num_advice as nat),
            fp_seq(fix@) == fix_valuation(*r, cs.num_fixed as nat),
            forall|m: int|
                0 <= m < k ==> eval_expr(
                    #[trigger] cs.gates@[m],
                    adv_valuation(*r, cs.num_advice as nat),
                    fix_valuation(*r, cs.num_fixed as nat),
                ) == 0,
        decreases cs.gates@.len() - k,
    {
        let v = eval(&cs.gates[k], &adv, &fix);
        if v.value() != 0 {
            proof {
                assert(eval_expr(
                    cs.gates@[k as int],
                    adv_valuation(*r, cs.num_advice as nat),
                    fix_valuation(*r, cs.num_fixed as nat),
                ) != 0);
                assert(!gates_hold(*cs, *r));
                assert(region_has_row(*r));
            }
            return false;
        }
        k = k + 1;
    }
    true
}

/// Resolve a cell to its assigned known value, if any.
pub fn resolve_cell(t: &Layouter, c: Cell) -> (r: Option<Fp>)
    ensures
        resolve(*t, c) == (match r {
            Some(f) => Some(f@),
            None => None::<nat>,
        }),
{
    if c.region < t.regions.len() {
        match find_advice_exec(&t.regions[c.region].advice, c.column, c.offset) {
            Some(Value::Known(f)) => Some(f),
            Some(Value::Unknown) => None,
            None => None,
        }
    } else {
        None
    }
}

/// The full backend check: gates on every region row, every copy
/// constraint, every public-input binding.
pub fn check_trace(cs: &ConstraintSystem, t: &Layouter, instance: &Vec<Fp>) -> (ok: bool)
    requires
        gates_wf(*cs),
    ensures
        ok == trace_valid(*cs, *t, fp_seq(instance@)),
{
    let mut i: usize = 0;
    while i < t.regions.len()
        invariant
            i <= t.regions@.len(),
            gates_wf(*cs),
            forall|m: int| 0 <= m < i ==> region_ok(*cs, #[trigger] t.regions@[m]),
        decreases t.regions@.len() - i,
    {
        if !check_region(cs, &t.regions[i]) {
            return false;
        }
        i = i + 1;
    }
    let mut i: usize = 0;
    while i < t.copies.len()
        invariant
            i <= t.copies@.len(),
            forall|m: int| 0 <= m < i ==> copy_ok(*t, (#[trigger] t.copies@[m]).0, t.copies@[m].1),
        decreases t.copies@.len() - i,
    {
        let (a, b) = t.copies[i];
        let ra = resolve_cell(t, a);
        let rb = resolve_cell(t, b);
        match (ra, rb) {
            (Some(fa), Some(fb)) => {
                if fa.value() != fb.value() {
                    return false;
                }
            },
            _ => {
                return false;
            },
        }
        i = i + 1;
    }
    let mut i: usize = 0;
    while i < t.instance_constraints.len()
        invariant
            i <= t.instance_constraints@.len(),
            forall|m: int|
                0 <= m < i ==> binding_ok(
                    *t,
                    fp_seq(instance@),
                    #[trigger] t.instance_constraints@[m],
                ),
        decreases t.instance_constraints@.len() - i,
    {
        let (cell, _col, row) = t.instance_constraints[i];
        if row >= instance.len() {
            return false;
        }
        match resolve_cell(t, cell) {
            Some(f) => {
                proof {
                    assert(fp_seq(instance@)[row as int] == instance@[row as int]@);
                }
                if f.value() != instance[row].value() {
                    return false;
                }
            },
            None => {
                return false;
            },
        }
        i = i + 1;
    }
    true
}

} // verus!
