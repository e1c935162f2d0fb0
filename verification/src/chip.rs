//! The arithmetic chip: the only component that assigns cells.
//!
//! Each chip operation allocates exactly one new region of the trace
//! and writes a fixed set of advice cells and selectors into it, or
//! records a wire equality or a public-input binding. The caller never
//! chooses absolute row numbers: a cell is addressed by its region, its
//! column and its row offset within the region.

use vstd::prelude::*;
use crate::field::Fp;
use crate::gate::Column;
use crate::value::Value;
use crate::cs::ConstraintSystem;
use crate::cs::contains_column;
use crate::cs::eq_enabled;

verus! {

/// The purpose of a region, one per chip operation.
#[derive(Clone, Copy, Debug, PartialEq, Eq, Structural)]
pub enum RegionName {
    Mul,
    Add,
    CopyOp,
}

/// The address of one assigned slot: a row offset within a region's
/// column. The floor planner, not the caller, decides absolute rows.
#[derive(Clone, Copy, Debug, PartialEq, Eq, Structural)]
pub struct Cell {
    pub region: usize,
    pub column: Column,
    pub offset: usize,
}

/// One atomic assignment step: the advice values and the selector
/// (fixed) values written at row offsets of this region.
pub struct Region {
    pub name: RegionName,
    pub advice: Vec<(Column, usize, Value)>,
    pub fixed: Vec<(Column, usize, Fp)>,
}

/// Errors surfaced by the chip operations.
#[derive(Clone, Copy, Debug, PartialEq, Eq, Structural)]
pub enum Error {
    /// A copy constraint touched a column without equality enabled.
    EqualityNotEnabled,
    /// A public-input binding named a row outside the declared range.
    PublicRowOutOfRange,
}

/// The column handles a configured circuit works with: three advice
/// operand columns, five selectors, and the public-input column.
#[derive(Clone, Copy, Debug, PartialEq, Eq, Structural)]
pub struct ArithmeticConfig {
    pub l: Column,
    pub r: Column,
    pub o: Column,
    pub sl: Column,
    pub sr: Column,
    pub so: Column,
    pub sm: Column,
    pub sc: Column,
    pub pi: Column,
}

/// The trace under construction: regions in allocation order, copy
/// constraints, and public-input bindings, together with the shape
/// facts the chip needs (equality-enabled columns, instance rows).
pub struct Layouter {
    pub regions: Vec<Region>,
    pub copies: Vec<(Cell, Cell)>,
    pub instance_constraints: Vec<(Cell, Column, usize)>,
    pub equality: Vec<Column>,
    pub num_instance_rows: usize,
}

impl Layouter {
    /// An empty trace for one synthesis pass over a configured shape.
    pub fn new(cs: &ConstraintSystem, num_instance_rows: usize) -> (r: Layouter)
        ensures
            r.regions@ == Seq::<Region>::empty(),
            r.copies@ == Seq::<(Cell, Cell)>::empty(),
            r.instance_constraints@ == Seq::<(Cell, Column, usize)>::empty(),
            r.equality@ == cs.equality@,
            r.num_instance_rows == num_instance_rows,
    {
        let mut equality: Vec<Column> = Vec::new();
        let mut i: usize = 0;
        while i < cs.equality.len()
            invariant
                i <= cs.equality@.len(),
                equality@ == cs.equality@.subrange(0, i as int),
            decreases cs.equality@.len() - i,
        {
            equality.push(cs.equality[i]);
            proof {
                assert(equality@ =~= cs.equality@.subrange(0, i + 1));
            }
            i = i + 1;
        }
        proof {
            assert(equality@ =~= cs.equality@);
        }
        Layouter {
            regions: Vec::new(),
            copies: Vec::new(),
            instance_constraints: Vec::new(),
            equality,
            num_instance_rows,
        }
    }
}

/// Advice slot `i` of the region holds a value viewed as `v`, written
/// to row 0 of column `c`, in canonical form.
pub open spec fn adv_is(r: Region, i: int, c: Column, v: Option<nat>) -> bool {
    &&& r.advice@[i].0 == c
    &&& r.advice@[i].1 == 0usize
    &&& r.advice@[i].2@ == v
    &&& r.advice@[i].2.wf()
}

/// Fixed slot `i` of the region holds the canonical value `x` at row 0
/// of column `c`.
pub open spec fn fix_is(r: Region, i: int, c: Column, x: nat) -> bool {
    &&& r.fixed@[i].0 == c
    &&& r.fixed@[i].1 == 0usize
    &&& r.fixed@[i].2@ == x
    &&& r.fixed@[i].2.wf()
}

/// A multiplication region: operands on `l`, `r`, `o`, selectors
/// `sm = 1` and `so = 1`, every other selector left at zero.
pub open spec fn is_mul_region(r: Region, cfg: ArithmeticConfig, a: Option<nat>, b: Option<nat>, c: Option<nat>) -> bool {
    &&& r.name == RegionName::Mul
    &&& r.advice@.len() == 3
    &&& adv_is(r, 0, cfg.l, a)
    &&& adv_is(r, 1, cfg.r, b)
    &&& adv_is(r, 2, cfg.o, c)
    &&& r.fixed@.len() == 2
    &&& fix_is(r, 0, cfg.sm, 1)
    &&& fix_is(r, 1, cfg.so, 1)
}

/// An addition region: operands on `l`, `r`, `o`, selectors `sl = 1`,
/// `sr = 1` and `so = 1`, every other selector left at zero.
pub open spec fn is_add_region(r: Region, cfg: ArithmeticConfig, a: Option<nat>, b: Option<nat>, c: Option<nat>) -> bool {
    &&& r.name == RegionName::Add
    &&& r.advice@.len() == 3
    &&& adv_is(r, 0, cfg.l, a)
    &&& adv_is(r, 1, cfg.r, b)
    &&& adv_is(r, 2, cfg.o, c)
    &&& r.fixed@.len() == 3
    &&& fix_is(r, 0, cfg.sl, 1)
    &&& fix_is(r, 1, cfg.sr, 1)
    &&& fix_is(r, 2, cfg.so, 1)
}

/// The empty region a copy constraint allocates: it assigns nothing.
pub open spec fn is_copy_region(r: Region) -> bool {
    &&& r.name == RegionName::CopyOp
    &&& r.advice@.len() == 0
    &&& r.fixed@.len() == 0
}

/// The step relation of one region allocation: one region is appended
/// and everything else in the trace is untouched.
pub open spec fn pushes_region(pre: Layouter, post: Layouter) -> bool {
    &&& post.regions@.len() == pre.regions@.len() + 1
    &&& post.regions@.drop_last() == pre.regions@
    &&& post.copies@ == pre.copies@
    &&& post.instance_constraints@ == pre.instance_constraints@
    &&& post.equality@ == pre.equality@
    &&& post.num_instance_rows == pre.num_instance_rows
}

/// The cell returned for an operand: row 0 of `col` in region `region`.
pub open spec fn cell_at(cl: Cell, region: int, col: Column) -> bool {
    &&& cl.region == region
    &&& cl.column == col
    &&& cl.offset == 0
}

/// The row-level primitive set of the circuit.
pub struct ArithmeticChip {
    pub config: ArithmeticConfig,
}

impl ArithmeticChip {
    pub fn new(config: ArithmeticConfig) -> (r: ArithmeticChip)
        ensures
            r.config == config,
    {
        ArithmeticChip { config }
    }

    /// Allocate one multiplication region holding the triple `vals`,
    /// expected (but deliberately not checked here) to satisfy
    /// `vals.0 * vals.1 == vals.2`: an unsatisfying triple produces a
    /// trace the backend's validation rejects.
    pub fn raw_multiply(&self, layouter: &mut Layouter, vals: (Value, Value, Value)) -> (r: Result<
        (Cell, Cell, Cell),
        Error,
    >)
        requires
            vals.0.wf(),
            vals.1.wf(),
            vals.2.wf(),
        ensures
            r is Ok,
            pushes_region(*old(layouter), *final(layouter)),
            is_mul_region(final(layouter).regions@.last(), self.config, vals.0@, vals.1@, vals.2@),
            (r matches Ok(cells) ==> {
                let n = old(layouter).regions@.len() as int;
                &&& cell_at(cells.0, n, self.config.l)
                &&& cell_at(cells.1, n, self.config.r)
                &&& cell_at(cells.2, n, self.config.o)
            }),
    {
        let n = layouter.regions.len();
        let mut advice: Vec<(Column, usize, Value)> = Vec::new();
        advice.push((self.config.l, 0, vals.0));
        advice.push((self.config.r, 0, vals.1));
        advice.push((self.config.o, 0, vals.2));
        let mut fixed: Vec<(Column, usize, Fp)> = Vec::new();
        fixed.push((self.config.sm, 0, Fp::one()));
        fixed.push((self.config.so, 0, Fp::one()));
        let region = Region { name: RegionName::Mul, advice, fixed };
        layouter.regions.push(region);
        proof {
            assert(layouter.regions@.drop_last() =~= old(layouter).regions@);
        }
        Ok((
            Cell { region: n, column: self.config.l, offset: 0 },
            Cell { region: n, column: self.config.r, offset: 0 },
            Cell { region: n, column: self.config.o, offset: 0 },
        ))
    }

    /// Allocate one addition region holding the triple `vals`, expected
    /// (but deliberately not checked here) to satisfy
    /// `vals.0 + vals.1 == vals.2`.
    pub fn raw_add(&self, layouter: &mut Layouter, vals: (Value, Value, Value)) -> (r: Result<
        (Cell, Cell, Cell),
        Error,
    >)
        requires
            vals.0.wf(),
            vals.1.wf(),
            vals.2.wf(),
        ensures
            r is Ok,
            pushes_region(*old(layouter), *final(layouter)),
            is_add_region(final(layouter).regions@.last(), self.config, vals.0@, vals.1@, vals.2@),
            (r matches Ok(cells) ==> {
                let n = old(layouter).regions@.len() as int;
                &&& cell_at(cells.0, n, self.config.l)
                &&& cell_at(cells.1, n, self.config.r)
                &&& cell_at(cells.2, n, self.config.o)
            }),
    {
        let n = layouter.regions.len();
        let mut advice: Vec<(Column, usize, Value)> = Vec::new();
        advice.push((self.config.l, 0, vals.0));
        advice.push((self.config.r, 0, vals.1));
        advice.push((self.config.o, 0, vals.2));
        let mut fixed: Vec<(Column, usize, Fp)> = Vec::new();
        fixed.push((self.config.sl, 0, Fp::one()));
        fixed.push((self.config.sr, 0, Fp::one()));
        fixed.push((self.config.so, 0, Fp::one()));
        let region = Region { name: RegionName::Add, advice, fixed };
        layouter.regions.push(region);
        proof {
            assert(layouter.regions@.drop_last() =~= old(layouter).regions@);
        }
        Ok((
            Cell { region: n, column: self.config.l, offset: 0 },
            Cell { region: n, column: self.config.r, offset: 0 },
            Cell { region: n, column: self.config.o, offset: 0 },
        ))
    }

    /// Record a copy (equality) constraint between two previously
    /// returned cells. Fails exactly when either cell's column does not
    /// have equality enabled.
    pub fn copy(&self, layouter: &mut Layouter, a: Cell, b: Cell) -> (r: Result<(), Error>)
        ensures
            r is Ok <==> (eq_enabled(old(layouter).equality@, a.column) && eq_enabled(
                old(layouter).equality@,
                b.column,
            )),
            r is Err ==> r == Err::<(), Error>(Error::EqualityNotEnabled),
            r is Ok ==> {
                &&& final(layouter).regions@.len() == old(layouter).regions@.len() + 1
                &&& final(layouter).regions@.drop_last() == old(layouter).regions@
                &&& is_copy_region(final(layouter).regions@.last())
                &&& final(layouter).copies@ == old(layouter).copies@.push((a, b))
                &&& final(layouter).instance_constraints@ == old(layouter).instance_constraints@
                &&& final(layouter).equality@ == old(layouter).equality@
                &&& final(layouter).num_instance_rows == old(layouter).num_instance_rows
            },
            r is Err ==> *final(layouter) == *old(layouter),
    {
        if !contains_column(&layouter.equality, a.column) {
            return Err(Error::EqualityNotEnabled);
        }
        if !contains_column(&layouter.equality, b.column) {
            return Err(Error::EqualityNotEnabled);
        }
        let region = Region { name: RegionName::CopyOp, advice: Vec::new(), fixed: Vec::new() };
        layouter.regions.push(region);
        layouter.copies.push((a, b));
        proof {
            assert(layouter.regions@.drop_last() =~= old(layouter).regions@);
        }
        Ok(())
    }

    /// Bind a previously returned cell to row `row` of the public-input
    /// column. Fails exactly when the row lies outside the declared
    /// public-input range.
    pub fn expose_public(&self, layouter: &mut Layouter, cell: Cell, row: usize) -> (r: Result<
        (),
        Error,
    >)
        ensures
            r is Ok <==> row < old(layouter).num_instance_rows,
            r is Err ==> r == Err::<(), Error>(Error::PublicRowOutOfRange),
            r is Ok ==> {
                &&& final(layouter).regions@ == old(layouter).regions@
                &&& final(layouter).copies@ == old(layouter).copies@
                &&& final(layouter).instance_constraints@ == old(
                    layouter,
                ).instance_constraints@.push((cell, self.config.pi, row))
                &&& final(layouter).equality@ == old(layouter).equality@
                &&& final(layouter).num_instance_rows == old(layouter).num_instance_rows
            },
            r is Err ==> *final(layouter) == *old(layouter),
    {
        if row >= layouter.num_instance_rows {
            return Err(Error::PublicRowOutOfRange);
        }
        layouter.instance_constraints.push((cell, self.config.pi, row));
        Ok(())
    }
}

} // verus!
