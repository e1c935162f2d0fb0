//! The constraint-system builder.
//!
//! During the configuration phase a circuit declares its columns,
//! enables equality on the columns whose cells may enter copy
//! constraints, and registers its gates. The builder only records the
//! declarations; the shape it accumulates is independent of any witness.

use vstd::prelude::*;
use crate::gate::Column;
use crate::gate::ColumnKind;
use crate::gate::Expr;

verus! {

/// The declared shape of a circuit: column counts, equality-enabled
/// columns, and registered gates.
pub struct ConstraintSystem {
    pub num_advice: usize,
    pub num_fixed: usize,
    pub num_instance: usize,
    pub equality: Vec<Column>,
    pub gates: Vec<Expr>,
}

impl ConstraintSystem {
    /// An empty shape, before any declaration.
    pub fn new() -> (r: ConstraintSystem)
        ensures
            r.num_advice == 0,
            r.num_fixed == 0,
            r.num_instance == 0,
            r.equality@ == Seq::<Column>::empty(),
            r.gates@ == Seq::<Expr>::empty(),
    {
        ConstraintSystem {
            num_advice: 0,
            num_fixed: 0,
            num_instance: 0,
            equality: Vec::new(),
            gates: Vec::new(),
        }
    }

    /// Declare a fresh advice column.
    pub fn advice_column(&mut self) -> (c: Column)
        requires
            old(self).num_advice < usize::MAX,
        ensures
            c == (Column { kind: ColumnKind::Advice, index: old(self).num_advice }),
            final(self).num_advice == old(self).num_advice + 1,
            final(self).num_fixed == old(self).num_fixed,
            final(self).num_instance == old(self).num_instance,
            final(self).equality@ == old(self).equality@,
            final(self).gates@ == old(self).gates@,
    {
        let c = Column { kind: ColumnKind::Advice, index: self.num_advice };
        self.num_advice = self.num_advice + 1;
        c
    }

    /// Declare a fresh fixed column.
    pub fn fixed_column(&mut self) -> (c: Column)
        requires
            old(self).num_fixed < usize::MAX,
        ensures
            c == (Column { kind: ColumnKind::Fixed, index: old(self).num_fixed }),
            final(self).num_fixed == old(self).num_fixed + 1,
            final(self).num_advice == old(self).num_advice,
            final(self).num_instance == old(self).num_instance,
            final(self).equality@ == old(self).equality@,
            final(self).gates@ == old(self).gates@,
    {
        let c = Column { kind: ColumnKind::Fixed, index: self.num_fixed };
        self.num_fixed = self.num_fixed + 1;
        c
    }

    /// Declare a fresh instance column.
    pub fn instance_column(&mut self) -> (c: Column)
        requires
            old(self).num_instance < usize::MAX,
        ensures
            c == (Column { kind: ColumnKind::Instance, index: old(self).num_instance }),
            final(self).num_instance == old(self).num_instance + 1,
            final(self).num_advice == old(self).num_advice,
            final(self).num_fixed == old(self).num_fixed,
            final(self).equality@ == old(self).equality@,
            final(self).gates@ == old(self).gates@,
    {
        let c = Column { kind: ColumnKind::Instance, index: self.num_instance };
        self.num_instance = self.num_instance + 1;
        c
    }

    /// Allow the cells of a column to enter copy constraints.
    pub fn enable_equality(&mut self, c: Column)
        ensures
            final(self).equality@ == old(self).equality@.push(c),
            final(self).num_advice == old(self).num_advice,
            final(self).num_fixed == old(self).num_fixed,
            final(self).num_instance == old(self).num_instance,
            final(self).gates@ == old(self).gates@,
    {
        self.equality.push(c);
    }

    /// Register a gate: a polynomial that must vanish on every row.
    pub fn create_gate(&mut self, e: Expr)
        ensures
            final(self).gates@ == old(self).gates@.push(e),
            final(self).num_advice == old(self).num_advice,
            final(self).num_fixed == old(self).num_fixed,
            final(self).num_instance == old(self).num_instance,
            final(self).equality@ == old(self).equality@,
    {
        self.gates.push(e);
    }
}

/// Whether equality was enabled on a column.
pub open spec fn eq_enabled(eqs: Seq<Column>, c: Column) -> bool {
    eqs.contains(c)
}

/// Linear search for an equality-enabled column.
pub fn contains_column(v: &Vec<Column>, c: Column) -> (r: bool)
    ensures
        r == eq_enabled(v@, c),
{
    let mut i: usize = 0;
    while i < v.len()
        invariant
            i <= v@.len(),
            forall|j: int| 0 <= j < i ==> v@[j] != c,
        decreases v@.len() - i,
    {
        if v[i] == c {
            assert(v@.contains(c));
            return true;
        }
        i = i + 1;
    }
    assert(!v@.contains(c));
    false
}

} // verus!
