//! The circuit: configuration and synthesis of `z = x^2 * y^2 + c`.
//!
//! Configuration declares the column set and registers the single
//! custom gate `sl*l + sr*r + sm*(l*r) - so*o + sc = 0`, independent of
//! any witness. Synthesis composes chip primitives into the full trace:
//! three multiplications and one addition, wired together by explicit
//! copy constraints, with the final sum bound to public-input row 0.

use vstd::prelude::*;
use crate::field::Fp;
use crate::field::MODULUS;
use crate::field::fadd;
use crate::field::fmul;
use crate::gate::Column;
use crate::gate::ColumnKind;
use crate::gate::Expr;
use crate::gate::eval_expr;
use crate::gate::wf_expr;
use crate::gate::queried;
use crate::value::Value;
use crate::value::vmul;
use crate::value::vadd;
use crate::cs::ConstraintSystem;
use crate::cs::eq_enabled;
use crate::cs::contains_column;
use crate::chip::ArithmeticChip;
use crate::chip::ArithmeticConfig;
use crate::chip::Cell;
use crate::chip::Error;
use crate::chip::Layouter;
use crate::chip::is_mul_region;
use crate::chip::is_add_region;
use crate::chip::is_copy_region;

verus! {

/// The row identity of the custom gate, as a function of one row's valuations:
/// `sl*l + sr*r + sm*(l*r) + (o*so)*(-1) + sc`, every operand read
/// from the current row.
pub open spec fn gate_formula(cfg: ArithmeticConfig, adv: Seq<nat>, fix: Seq<nat>) -> nat {
    fadd(
        fadd(
            fadd(
                fadd(
                    fmul(queried(fix, cfg.sl.index as int), queried(adv, cfg.l.index as int)),
                    fmul(queried(fix, cfg.sr.index as int), queried(adv, cfg.r.index as int)),
                ),
                fmul(
                    fmul(queried(adv, cfg.l.index as int), queried(adv, cfg.r.index as int)),
                    queried(fix, cfg.sm.index as int),
                ),
            ),
            fmul(
                fmul(queried(adv, cfg.o.index as int), queried(fix, cfg.so.index as int)),
                (MODULUS - 1) as nat,
            ),
        ),
        queried(fix, cfg.sc.index as int),
    )
}

/// The registered polynomial computes exactly that row identity, on
/// every valuation.
pub open spec fn gate_semantics(g: Expr, cfg: ArithmeticConfig) -> bool {
    forall|adv: Seq<nat>, fix: Seq<nat>| #[trigger]
        eval_expr(g, adv, fix) == gate_formula(cfg, adv, fix)
}

/// The column handles have the declared kinds, and no two columns of
/// one kind coincide.
pub open spec fn cfg_wf(cfg: ArithmeticConfig) -> bool {
    &&& cfg.l.kind == ColumnKind::Advice
    &&& cfg.r.kind == ColumnKind::Advice
    &&& cfg.o.kind == ColumnKind::Advice
    &&& cfg.sl.kind == ColumnKind::Fixed
    &&& cfg.sr.kind == ColumnKind::Fixed
    &&& cfg.so.kind == ColumnKind::Fixed
    &&& cfg.sm.kind == ColumnKind::Fixed
    &&& cfg.sc.kind == ColumnKind::Fixed
    &&& cfg.pi.kind == ColumnKind::Instance
    &&& cfg.l.index != cfg.r.index
    &&& cfg.l.index != cfg.o.index
    &&& cfg.r.index != cfg.o.index
    &&& cfg.sl.index != cfg.sr.index
    &&& cfg.sl.index != cfg.so.index
    &&& cfg.sl.index != cfg.sm.index
    &&& cfg.sl.index != cfg.sc.index
    &&& cfg.sr.index != cfg.so.index
    &&& cfg.sr.index != cfg.sm.index
    &&& cfg.sr.index != cfg.sc.index
    &&& cfg.so.index != cfg.sm.index
    &&& cfg.so.index != cfg.sc.index
    &&& cfg.sm.index != cfg.sc.index
}

/// Every column handle points into the declared shape.
pub open spec fn cfg_in_cs(cfg: ArithmeticConfig, cs: ConstraintSystem) -> bool {
    &&& cfg.l.index < cs.num_advice
    &&& cfg.r.index < cs.num_advice
    &&& cfg.o.index < cs.num_advice
    &&& cfg.sl.index < cs.num_fixed
    &&& cfg.sr.index < cs.num_fixed
    &&& cfg.so.index < cs.num_fixed
    &&& cfg.sm.index < cs.num_fixed
    &&& cfg.sc.index < cs.num_fixed
    &&& cfg.pi.index < cs.num_instance
}

/// The circuit: a private witness pair and a constant embedded in the
/// synthesized trace. Until a proving pass supplies them, `x` and `y`
/// are unknown.
pub struct ArithmeticCircuit {
    pub x: Value,
    pub y: Value,
    pub constant: Fp,
}

impl ArithmeticCircuit {
    /// All held values are canonical.
    pub open spec fn wf(self) -> bool {
        &&& self.x.wf()
        &&& self.y.wf()
        &&& self.constant.wf()
    }
}

impl Default for ArithmeticCircuit {
    /// The witness-free circuit: both witnesses unknown, constant zero.
    fn default() -> (r: ArithmeticCircuit)
        ensures
            r.x@ == None::<nat>,
            r.y@ == None::<nat>,
            r.constant@ == 0,
            r.wf(),
    {
        ArithmeticCircuit { x: Value::unknown(), y: Value::unknown(), constant: Fp::zero() }
    }
}

/// The relation the circuit expresses, on deferred views:
/// `x^2 * y^2 + c`, known exactly when both witnesses are.
pub open spec fn result_of(x: Option<nat>, y: Option<nat>, c: nat) -> Option<nat> {
    vadd(vmul(vmul(x, x), vmul(y, y)), Some(c))
}

/// The cell at row 0 of `col` in region `region`.
pub open spec fn wire(region: usize, col: Column) -> Cell {
    Cell { region, column: col, offset: 0 }
}

/// The complete trace synthesis lays down for witness views `x`, `y`
/// and constant `c`: four single-row compute regions, five empty copy
/// regions, the five wire equalities, and the public-input binding of
/// the final sum to instance row 0.
pub open spec fn is_synth_trace(
    t: Layouter,
    cfg: ArithmeticConfig,
    x: Option<nat>,
    y: Option<nat>,
    c: nat,
) -> bool {
    let xx = vmul(x, x);
    let yy = vmul(y, y);
    let xxyy = vmul(xx, yy);
    let res = vadd(xxyy, Some(c));
    &&& t.regions@.len() == 9
    &&& is_mul_region(t.regions@[0], cfg, x, x, xx)
    &&& is_copy_region(t.regions@[1])
    &&& is_mul_region(t.regions@[2], cfg, y, y, yy)
    &&& is_copy_region(t.regions@[3])
    &&& is_mul_region(t.regions@[4], cfg, xx, yy, xxyy)
    &&& is_copy_region(t.regions@[5])
    &&& is_copy_region(t.regions@[6])
    &&& is_add_region(t.regions@[7], cfg, xxyy, Some(c), res)
    &&& is_copy_region(t.regions@[8])
    &&& t.copies@ == seq![
        (wire(0, cfg.l), wire(0, cfg.r)),
        (wire(2, cfg.l), wire(2, cfg.r)),
        (wire(0, cfg.o), wire(4, cfg.l)),
        (wire(2, cfg.o), wire(4, cfg.r)),
        (wire(4, cfg.o), wire(7, cfg.l)),
    ]
    &&& t.instance_constraints@ == seq![(wire(7, cfg.o), cfg.pi, 0usize)]
}

impl ArithmeticCircuit {
    /// Declare the columns and register the single gate.
    ///
    /// Three advice columns `l`, `r`, `o` with equality enabled; five
    /// fixed selector columns `sm`, `sl`, `sr`, `so`, `sc`; one
    /// instance column with equality enabled; and one gate whose
    /// polynomial computes `sl*l + sr*r + sm*(l*r) - so*o + sc` on
    /// every row.
    ///
    /// No witness and no circuit state is read: the returned handles
    /// are pinned to the declaration counts of `meta` alone, so two
    /// runs on equal builders return equal configurations.
    pub fn configure(meta: &mut ConstraintSystem) -> (cfg: ArithmeticConfig)
        requires
            old(meta).num_advice <= usize::MAX - 3,
            old(meta).num_fixed <= usize::MAX - 5,
            old(meta).num_instance < usize::MAX,
        ensures
            cfg_wf(cfg),
            cfg_in_cs(cfg, *final(meta)),
            cfg.l == (Column { kind: ColumnKind::Advice, index: old(meta).num_advice }),
            cfg.r == (Column { kind: ColumnKind::Advice, index: (old(meta).num_advice + 1) as usize }),
            cfg.o == (Column { kind: ColumnKind::Advice, index: (old(meta).num_advice + 2) as usize }),
            cfg.sm == (Column { kind: ColumnKind::Fixed, index: old(meta).num_fixed }),
            cfg.sl == (Column { kind: ColumnKind::Fixed, index: (old(meta).num_fixed + 1) as usize }),
            cfg.sr == (Column { kind: ColumnKind::Fixed, index: (old(meta).num_fixed + 2) as usize }),
            cfg.so == (Column { kind: ColumnKind::Fixed, index: (old(meta).num_fixed + 3) as usize }),
            cfg.sc == (Column { kind: ColumnKind::Fixed, index: (old(meta).num_fixed + 4) as usize }),
            cfg.pi == (Column { kind: ColumnKind::Instance, index: old(meta).num_instance }),
            final(meta).num_advice == old(meta).num_advice + 3,
            final(meta).num_fixed == old(meta).num_fixed + 5,
            final(meta).num_instance == old(meta).num_instance + 1,
            final(meta).equality@ == old(meta).equality@.push(cfg.l).push(cfg.r).push(
                cfg.o,
            ).push(cfg.pi),
            final(meta).gates@.len() == old(meta).gates@.len() + 1,
            final(meta).gates@.drop_last() == old(meta).gates@,
            wf_expr(final(meta).gates@.last()),
            gate_semantics(final(meta).gates@.last(), cfg),
    {
        let l = meta.advice_column();
        let r = meta.advice_column();
        let o = meta.advice_column();

        meta.enable_equality(l);
        meta.enable_equality(r);
        meta.enable_equality(o);

        let sm = meta.fixed_column();
        let sl = meta.fixed_column();
        let sr = meta.fixed_column();
        let so = meta.fixed_column();
        let sc = meta.fixed_column();

        let pi = meta.instance_column();
        meta.enable_equality(pi);

        let cfg = ArithmeticConfig { l, r, o, sl, sr, so, sm, sc, pi };

        let neg_one = Fp::one().neg();
        let gate = Expr::Sum(
            Box::new(
                Expr::Sum(
                    Box::new(
                        Expr::Sum(
                            Box::new(
                                Expr::Sum(
                                    Box::new(
                                        Expr::Product(
                                            Box::new(Expr::Fixed(sl.index)),
                                            Box::new(Expr::Advice(l.index)),
                                        ),
                                    ),
                                    Box::new(
                                        Expr::Product(
                                            Box::new(Expr::Fixed(sr.index)),
                                            Box::new(Expr::Advice(r.index)),
                                        ),
                                    ),
                                ),
                            ),
                            Box::new(
                                Expr::Product(
                                    Box::new(
                                        Expr::Product(
                                            Box::new(Expr::Advice(l.index)),
                                            Box::new(Expr::Advice(r.index)),
                                        ),
                                    ),
                                    Box::new(Expr::Fixed(sm.index)),
                                ),
                            ),
                        ),
                    ),
                    Box::new(
                        Expr::Product(
                            Box::new(
                                Expr::Product(
                                    Box::new(Expr::Advice(o.index)),
                                    Box::new(Expr::Fixed(so.index)),
                                ),
                            ),
                            Box::new(Expr::Constant(neg_one)),
                        ),
                    ),
                ),
            ),
            Box::new(Expr::Fixed(sc.index)),
        );
        let ghost g = gate;
        proof {
            reveal_with_fuel(wf_expr, 10);
            assert(wf_expr(g));
            assert forall|adv: Seq<nat>, fix: Seq<nat>| #[trigger]
                eval_expr(g, adv, fix) == gate_formula(cfg, adv, fix) by {
                reveal_with_fuel(eval_expr, 10);
            }
        }
        meta.create_gate(gate);
        cfg
    }

    /// Lay down the full computation trace.
    ///
    /// The four compute regions carry `x*x`, `y*y`, `x^2*y^2` and
    /// `x^2*y^2 + constant`; copy constraints enforce the two
    /// self-multiplications and thread each intermediate result into
    /// the next region; the final sum is bound to public-input row 0.
    pub fn synthesize(&self, config: ArithmeticConfig, layouter: &mut Layouter) -> (r: Result<
        (),
        Error,
    >)
        requires
            synthesis_protocol(*self, config, *old(layouter)),
            old(layouter).num_instance_rows >= 1,
        ensures
            r is Ok,
            is_synth_trace(*final(layouter), config, self.x@, self.y@, self.constant@),
            final(layouter).equality@ == old(layouter).equality@,
            final(layouter).num_instance_rows == old(layouter).num_instance_rows,
    {
        let chip = ArithmeticChip::new(config);

        let x2 = self.x.mul(self.x);
        let y2 = self.y.mul(self.y);
        let x2y2 = x2.mul(y2);
        let cval = Value::known(self.constant);
        let res = x2y2.add(cval);

        let (a0, b0, c0) = match chip.raw_multiply(layouter, (self.x, self.x, x2)) {
            Ok(t) => t,
            Err(e) => {
                return Err(e);
            },
        };
        match chip.copy(layouter, a0, b0) {
            Ok(()) => {},
            Err(e) => {
                return Err(e);
            },
        }

        let (a1, b1, c1) = match chip.raw_multiply(layouter, (self.y, self.y, y2)) {
            Ok(t) => t,
            Err(e) => {
                return Err(e);
            },
        };
        match chip.copy(layouter, a1, b1) {
            Ok(()) => {},
            Err(e) => {
                return Err(e);
            },
        }

        let (a2, b2, c2) = match chip.raw_multiply(layouter, (x2, y2, x2y2)) {
            Ok(t) => t,
            Err(e) => {
                return Err(e);
            },
        };
        match chip.copy(layouter, c0, a2) {
            Ok(()) => {},
            Err(e) => {
                return Err(e);
            },
        }
        match chip.copy(layouter, c1, b2) {
            Ok(()) => {},
            Err(e) => {
                return Err(e);
            },
        }

        let (a3, b3, c3) = match chip.raw_add(layouter, (x2y2, cval, res)) {
            Ok(t) => t,
            Err(e) => {
                return Err(e);
            },
        };
        match chip.copy(layouter, c2, a3) {
            Ok(()) => {},
            Err(e) => {
                return Err(e);
            },
        }

        match chip.expose_public(layouter, c3, 0) {
            Ok(()) => {},
            Err(e) => {
                return Err(e);
            },
        }

        proof {
            assert(layouter.copies@ =~= seq![
                (wire(0, config.l), wire(0, config.r)),
                (wire(2, config.l), wire(2, config.r)),
                (wire(0, config.o), wire(4, config.l)),
                (wire(2, config.o), wire(4, config.r)),
                (wire(4, config.o), wire(7, config.l)),
            ]);
            assert(layouter.instance_constraints@ =~= seq![(wire(7, config.o), config.pi, 0usize)]);
        }
        Ok(())
    }
}

/// The synthesis protocol, short of the public-input row: canonical
/// circuit values, a fresh layouter, and equality enabled on the three
/// operand columns.
pub open spec fn synthesis_protocol(c: ArithmeticCircuit, config: ArithmeticConfig, t: Layouter) -> bool {
    &&& c.wf()
    &&& t.regions@.len() == 0
    &&& t.copies@.len() == 0
    &&& t.instance_constraints@.len() == 0
    &&& eq_enabled(t.equality@, config.l)
    &&& eq_enabled(t.equality@, config.r)
    &&& eq_enabled(t.equality@, config.o)
}

/// What the backend drives a circuit through: derive the shape with no
/// witness, configure columns and gates, and synthesize a trace.
pub trait Circuit: Sized {
    type Config;

    /// A copy of the circuit with every witness value unknown.
    fn without_witnesses(&self) -> Self;

    /// Declare columns and gates; independent of any witness.
    fn configure(meta: &mut ConstraintSystem) -> (cfg: Self::Config)
        requires
            old(meta).num_advice <= usize::MAX - 3,
            old(meta).num_fixed <= usize::MAX - 5,
            old(meta).num_instance < usize::MAX,
    ;

    /// Lay the computation trace down into the layouter.
    fn synthesize(&self, config: Self::Config, layouter: &mut Layouter) -> Result<(), Error>;
}

impl Circuit for ArithmeticCircuit {
    type Config = ArithmeticConfig;

    /// The witness-free copy: both witnesses unknown and the constant
    /// zero, whatever `self` holds, so shape derivation from it cannot
    /// depend on the witness.
    fn without_witnesses(&self) -> (r: Self)
        ensures
            r.x@ == None::<nat>,
            r.y@ == None::<nat>,
            r.constant@ == 0,
            r.wf(),
    {
        ArithmeticCircuit::default()
    }

    fn configure(meta: &mut ConstraintSystem) -> (cfg: ArithmeticConfig)
        ensures
            cfg_wf(cfg),
            cfg_in_cs(cfg, *final(meta)),
            cfg.l == (Column { kind: ColumnKind::Advice, index: old(meta).num_advice }),
            cfg.r == (Column { kind: ColumnKind::Advice, index: (old(meta).num_advice + 1) as usize }),
            cfg.o == (Column { kind: ColumnKind::Advice, index: (old(meta).num_advice + 2) as usize }),
            cfg.sm == (Column { kind: ColumnKind::Fixed, index: old(meta).num_fixed }),
            cfg.sl == (Column { kind: ColumnKind::Fixed, index: (old(meta).num_fixed + 1) as usize }),
            cfg.sr == (Column { kind: ColumnKind::Fixed, index: (old(meta).num_fixed + 2) as usize }),
            cfg.so == (Column { kind: ColumnKind::Fixed, index: (old(meta).num_fixed + 3) as usize }),
            cfg.sc == (Column { kind: ColumnKind::Fixed, index: (old(meta).num_fixed + 4) as usize }),
            cfg.pi == (Column { kind: ColumnKind::Instance, index: old(meta).num_instance }),
            final(meta).num_advice == old(meta).num_advice + 3,
            final(meta).num_fixed == old(meta).num_fixed + 5,
            final(meta).num_instance == old(meta).num_instance + 1,
            final(meta).equality@ == old(meta).equality@.push(cfg.l).push(cfg.r).push(
                cfg.o,
            ).push(cfg.pi),
            final(meta).gates@.len() == old(meta).gates@.len() + 1,
            final(meta).gates@.drop_last() == old(meta).gates@,
            wf_expr(final(meta).gates@.last()),
            gate_semantics(final(meta).gates@.last(), cfg),
    {
        ArithmeticCircuit::configure(meta)
    }

    /// The trait entry re-checks at run time what the contract-bearing
    /// `ArithmeticCircuit::synthesize` requires, and surfaces a
    /// configuration error where the protocol was not followed.
    fn synthesize(&self, config: ArithmeticConfig, layouter: &mut Layouter) -> (r: Result<
        (),
        Error,
    >)
        ensures
            r is Ok <==> (synthesis_protocol(*self, config, *old(layouter)) && old(
                layouter,
            ).num_instance_rows >= 1),
            (r == Err::<(), Error>(Error::PublicRowOutOfRange)) <==> (synthesis_protocol(
                *self,
                config,
                *old(layouter),
            ) && old(layouter).num_instance_rows < 1),
            (r == Err::<(), Error>(Error::EqualityNotEnabled)) <==> !synthesis_protocol(
                *self,
                config,
                *old(layouter),
            ),
            r is Ok ==> is_synth_trace(*final(layouter), config, self.x@, self.y@, self.constant@),
            r is Ok ==> final(layouter).equality@ == old(layouter).equality@,
            r is Ok ==> final(layouter).num_instance_rows == old(layouter).num_instance_rows,
            r is Err ==> *final(layouter) == *old(layouter),
    {
        if !(self.x.is_canonical() && self.y.is_canonical() && self.constant.is_canonical()) {
            return Err(Error::EqualityNotEnabled);
        }
        if layouter.regions.len() != 0 || layouter.copies.len() != 0
            || layouter.instance_constraints.len() != 0 {
            return Err(Error::EqualityNotEnabled);
        }
        if !(contains_column(&layouter.equality, config.l) && contains_column(
            &layouter.equality,
            config.r,
        ) && contains_column(&layouter.equality, config.o)) {
            return Err(Error::EqualityNotEnabled);
        }
        if layouter.num_instance_rows < 1 {
            return Err(Error::PublicRowOutOfRange);
        }
        ArithmeticCircuit::synthesize(self, config, layouter)
    }
}

} // verus!
