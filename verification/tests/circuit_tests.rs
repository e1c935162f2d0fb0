use arithmetic_circuit::chip::ArithmeticChip;
use arithmetic_circuit::chip::Error;
use arithmetic_circuit::chip::Layouter;
use arithmetic_circuit::chip::RegionName;
use arithmetic_circuit::circuit::ArithmeticCircuit;
use arithmetic_circuit::circuit::Circuit;
use arithmetic_circuit::checker::check_trace;
use arithmetic_circuit::cs::ConstraintSystem;
use arithmetic_circuit::field::Fp;
use arithmetic_circuit::field::MODULUS;
use arithmetic_circuit::gate::Column;
use arithmetic_circuit::gate::ColumnKind;
use arithmetic_circuit::mock::check_circuit;
use arithmetic_circuit::value::Value;

fn fp(u: u64) -> Fp {
    Fp::new(u)
}

fn known(u: u64) -> Value {
    Value::known(fp(u))
}

fn circuit(x: u64, y: u64, c: u64) -> ArithmeticCircuit {
    ArithmeticCircuit { x: known(x), y: known(y), constant: fp(c) }
}

#[test]
fn field_arithmetic_basics() {
    assert_eq!(fp(2).mul(fp(3)).value(), 6);
    assert_eq!(fp(2).add(fp(3)).value(), 5);
    assert_eq!(fp(MODULUS).value(), 0);
    assert_eq!(fp(0).neg().value(), 0);
    assert_eq!(fp(1).neg().value(), MODULUS - 1);
    assert_eq!(fp(MODULUS - 1).add(fp(2)).value(), 1);
    // (-1) * (-1) == 1
    assert_eq!(fp(MODULUS - 1).mul(fp(MODULUS - 1)).value(), 1);
}

#[test]
fn value_combinators_propagate_unknown() {
    assert_eq!(known(2).mul(known(3)), known(6));
    assert_eq!(known(2).add(known(3)), known(5));
    assert_eq!(Value::unknown().mul(known(3)), Value::unknown());
    assert_eq!(known(3).mul(Value::unknown()), Value::unknown());
    assert_eq!(Value::unknown().add(known(3)), Value::unknown());
    assert_eq!(Value::unknown().mul(Value::unknown()), Value::unknown());
}

#[test]
fn configure_declares_the_documented_shape() {
    let mut meta = ConstraintSystem::new();
    let cfg = ArithmeticCircuit::configure(&mut meta);
    assert_eq!(meta.num_advice, 3);
    assert_eq!(meta.num_fixed, 5);
    assert_eq!(meta.num_instance, 1);
    assert_eq!(meta.gates.len(), 1);
    // equality on l, r, o and the instance column, nothing else
    assert_eq!(meta.equality, vec![cfg.l, cfg.r, cfg.o, cfg.pi]);
    assert_eq!(cfg.l, Column { kind: ColumnKind::Advice, index: 0 });
    assert_eq!(cfg.r, Column { kind: ColumnKind::Advice, index: 1 });
    assert_eq!(cfg.o, Column { kind: ColumnKind::Advice, index: 2 });
    assert_eq!(cfg.sm, Column { kind: ColumnKind::Fixed, index: 0 });
    assert_eq!(cfg.sl, Column { kind: ColumnKind::Fixed, index: 1 });
    assert_eq!(cfg.sr, Column { kind: ColumnKind::Fixed, index: 2 });
    assert_eq!(cfg.so, Column { kind: ColumnKind::Fixed, index: 3 });
    assert_eq!(cfg.sc, Column { kind: ColumnKind::Fixed, index: 4 });
    assert_eq!(cfg.pi, Column { kind: ColumnKind::Instance, index: 0 });
}

#[test]
fn synthesis_carries_the_intermediate_values() {
    // x = 2, y = 3, c = 5: x^2 = 4, y^2 = 9, x^2*y^2 = 36, output 41.
    let mut meta = ConstraintSystem::new();
    let cfg = ArithmeticCircuit::configure(&mut meta);
    let mut layouter = Layouter::new(&meta, 1);
    let circ = circuit(2, 3, 5);
    assert!(ArithmeticCircuit::synthesize(&circ, cfg, &mut layouter).is_ok());

    assert_eq!(layouter.regions.len(), 9);
    assert_eq!(layouter.regions[0].name, RegionName::Mul);
    assert_eq!(layouter.regions[0].advice[2].2, known(4));
    assert_eq!(layouter.regions[2].advice[2].2, known(9));
    assert_eq!(layouter.regions[4].advice[2].2, known(36));
    assert_eq!(layouter.regions[7].name, RegionName::Add);
    assert_eq!(layouter.regions[7].advice[1].2, known(5));
    assert_eq!(layouter.regions[7].advice[2].2, known(41));
    assert_eq!(layouter.copies.len(), 5);
    assert_eq!(layouter.instance_constraints.len(), 1);
}

#[test]
fn accepts_exactly_the_right_public_input() {
    // Validation succeeds only when public-input row 0 is 41.
    let circ = circuit(2, 3, 5);
    assert_eq!(check_circuit(&circ, &vec![fp(41)]), Ok(true));
    assert_eq!(check_circuit(&circ, &vec![fp(40)]), Ok(false));
    assert_eq!(check_circuit(&circ, &vec![fp(0)]), Ok(false));
    assert_eq!(check_circuit(&circ, &vec![fp(42)]), Ok(false));
}

#[test]
fn accepts_other_witnesses_with_their_own_output() {
    assert_eq!(check_circuit(&circuit(1, 1, 0), &vec![fp(1)]), Ok(true));
    assert_eq!(check_circuit(&circuit(0, 5, 7), &vec![fp(7)]), Ok(true));
    assert_eq!(check_circuit(&circuit(0, 5, 7), &vec![fp(0)]), Ok(false));
    // 10^2 * 20^2 + 30 = 40030
    assert_eq!(check_circuit(&circuit(10, 20, 30), &vec![fp(40030)]), Ok(true));
    // x = y = MODULUS - 1, that is -1: (-1)^2 * (-1)^2 + 5 = 6
    assert_eq!(check_circuit(&circuit(MODULUS - 1, MODULUS - 1, 5), &vec![fp(6)]), Ok(true));
    assert_eq!(check_circuit(&circuit(MODULUS - 1, MODULUS - 1, 5), &vec![fp(5)]), Ok(false));
}

#[test]
fn rejects_an_incomplete_witness() {
    let shape_only = ArithmeticCircuit::default();
    assert_eq!(check_circuit(&shape_only, &vec![fp(41)]), Ok(false));
    let half = ArithmeticCircuit { x: known(2), y: Value::unknown(), constant: fp(5) };
    assert_eq!(check_circuit(&half, &vec![fp(41)]), Ok(false));
}

#[test]
fn errors_without_a_public_input_row() {
    let circ = circuit(2, 3, 5);
    assert_eq!(check_circuit(&circ, &vec![]), Err(Error::PublicRowOutOfRange));
}

#[test]
fn shape_is_witness_independent() {
    // The trace of a witness pass and of a shape-only pass agree on
    // everything but the advice values.
    let mut meta = ConstraintSystem::new();
    let cfg = ArithmeticCircuit::configure(&mut meta);

    let mut with_witness = Layouter::new(&meta, 1);
    let circ = circuit(2, 3, 5);
    assert!(ArithmeticCircuit::synthesize(&circ, cfg, &mut with_witness).is_ok());

    let mut shape_only = Layouter::new(&meta, 1);
    let bare = circ.without_witnesses();
    assert!(ArithmeticCircuit::synthesize(&bare, cfg, &mut shape_only).is_ok());

    assert_eq!(with_witness.regions.len(), shape_only.regions.len());
    for (a, b) in with_witness.regions.iter().zip(shape_only.regions.iter()) {
        assert_eq!(a.name, b.name);
        // same advice slots (column, offset), values erased
        assert_eq!(a.advice.len(), b.advice.len());
        for (sa, sb) in a.advice.iter().zip(b.advice.iter()) {
            assert_eq!((sa.0, sa.1), (sb.0, sb.1));
        }
        // same selector pattern, including the selector values
        assert_eq!(a.fixed, b.fixed);
    }
    assert_eq!(with_witness.copies, shape_only.copies);
    assert_eq!(with_witness.instance_constraints, shape_only.instance_constraints);
}

#[test]
fn copy_constraint_is_symmetric() {
    // Constraining a = b validates exactly as constraining b = a.
    let mut meta = ConstraintSystem::new();
    let cfg = ArithmeticCircuit::configure(&mut meta);
    let chip = ArithmeticChip::new(cfg);

    let mut forward = Layouter::new(&meta, 0);
    let (a, b, _) = chip.raw_multiply(&mut forward, (known(2), known(2), known(4))).unwrap();
    assert_eq!(chip.copy(&mut forward, a, b), Ok(()));
    assert!(check_trace(&meta, &forward, &vec![]));

    let mut backward = Layouter::new(&meta, 0);
    let (a2, b2, _) = chip.raw_multiply(&mut backward, (known(2), known(2), known(4))).unwrap();
    assert_eq!(chip.copy(&mut backward, b2, a2), Ok(()));
    assert!(check_trace(&meta, &backward, &vec![]));
}

#[test]
fn copy_of_unequal_cells_fails_validation() {
    let mut meta = ConstraintSystem::new();
    let cfg = ArithmeticCircuit::configure(&mut meta);
    let chip = ArithmeticChip::new(cfg);
    let mut layouter = Layouter::new(&meta, 0);
    let (a, b, _) = chip.raw_multiply(&mut layouter, (known(2), known(1), known(2))).unwrap();
    assert_eq!(chip.copy(&mut layouter, a, b), Ok(()));
    assert!(!check_trace(&meta, &layouter, &vec![]));
}

#[test]
fn malformed_multiply_triple_fails_validation() {
    // The multiply primitive performs no validation itself: a triple
    // with 2 * 3 != 7 yields a trace the backend rejects.
    let mut meta = ConstraintSystem::new();
    let cfg = ArithmeticCircuit::configure(&mut meta);
    let chip = ArithmeticChip::new(cfg);

    let mut bad = Layouter::new(&meta, 0);
    let r = chip.raw_multiply(&mut bad, (known(2), known(3), known(7)));
    assert!(r.is_ok());
    assert!(!check_trace(&meta, &bad, &vec![]));

    // downstream copy constraints change nothing about the rejection
    let mut bad_with_copy = Layouter::new(&meta, 0);
    let (a, _, o) = chip.raw_multiply(&mut bad_with_copy, (known(2), known(3), known(7))).unwrap();
    assert_eq!(chip.copy(&mut bad_with_copy, a, a), Ok(()));
    assert_eq!(chip.copy(&mut bad_with_copy, o, o), Ok(()));
    assert!(!check_trace(&meta, &bad_with_copy, &vec![]));

    let mut good = Layouter::new(&meta, 0);
    let _ = chip.raw_multiply(&mut good, (known(2), known(3), known(6))).unwrap();
    assert!(check_trace(&meta, &good, &vec![]));
}

#[test]
fn add_primitive_is_checked_exactly() {
    let mut meta = ConstraintSystem::new();
    let cfg = ArithmeticCircuit::configure(&mut meta);
    let chip = ArithmeticChip::new(cfg);

    let mut good = Layouter::new(&meta, 0);
    let _ = chip.raw_add(&mut good, (known(3), known(4), known(7))).unwrap();
    assert!(check_trace(&meta, &good, &vec![]));

    let mut bad = Layouter::new(&meta, 0);
    let _ = chip.raw_add(&mut bad, (known(3), known(4), known(8))).unwrap();
    assert!(!check_trace(&meta, &bad, &vec![]));
}

#[test]
fn copy_requires_equality_enabled_columns() {
    // A layouter built from a shape without equality enabled refuses
    // copy constraints.
    let meta = ConstraintSystem::new();
    let mut layouter = Layouter::new(&meta, 0);
    let mut full = ConstraintSystem::new();
    let cfg = ArithmeticCircuit::configure(&mut full);
    let chip = ArithmeticChip::new(cfg);
    let (a, b, _) = chip.raw_multiply(&mut layouter, (known(1), known(1), known(1))).unwrap();
    assert_eq!(chip.copy(&mut layouter, a, b), Err(Error::EqualityNotEnabled));
}

#[test]
fn expose_public_requires_a_row_in_range() {
    let mut meta = ConstraintSystem::new();
    let cfg = ArithmeticCircuit::configure(&mut meta);
    let chip = ArithmeticChip::new(cfg);
    let mut layouter = Layouter::new(&meta, 1);
    let (_, _, o) = chip.raw_multiply(&mut layouter, (known(2), known(2), known(4))).unwrap();
    assert_eq!(chip.expose_public(&mut layouter, o, 1), Err(Error::PublicRowOutOfRange));
    assert_eq!(chip.expose_public(&mut layouter, o, 0), Ok(()));
}

#[test]
fn trait_entry_points_behave_like_the_inherent_ones() {
    let circ = circuit(2, 3, 5);
    let bare = <ArithmeticCircuit as Circuit>::without_witnesses(&circ);
    assert_eq!(bare.x, Value::unknown());
    assert_eq!(bare.y, Value::unknown());
    assert_eq!(bare.constant, fp(0));

    let mut meta = ConstraintSystem::new();
    let cfg = <ArithmeticCircuit as Circuit>::configure(&mut meta);
    let mut layouter = Layouter::new(&meta, 1);
    assert!(<ArithmeticCircuit as Circuit>::synthesize(&circ, cfg, &mut layouter).is_ok());
    assert!(check_trace(&meta, &layouter, &vec![fp(41)]));

    // the trait entry re-checks its protocol: a second synthesis into
    // the same layouter is refused rather than assumed away
    assert_eq!(
        <ArithmeticCircuit as Circuit>::synthesize(&circ, cfg, &mut layouter),
        Err(Error::EqualityNotEnabled)
    );
    // and a layouter without a public-input row is refused with the
    // out-of-range error
    let mut no_rows = Layouter::new(&meta, 0);
    assert_eq!(
        <ArithmeticCircuit as Circuit>::synthesize(&circ, cfg, &mut no_rows),
        Err(Error::PublicRowOutOfRange)
    );
}
