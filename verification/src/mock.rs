//! The end-to-end mock run: configure, synthesize, validate.
//!
//! This drives a circuit the way a backend would — derive the shape,
//! lay down the trace, and check it against supplied public inputs —
//! and its contract states the headline guarantee: the run accepts
//! exactly when both witnesses are known and instance row 0 carries
//! `x^2 * y^2 + c`.

use vstd::prelude::*;
use crate::field::Fp;
use crate::field::fadd;
use crate::field::fmul;
use crate::gate::fp_seq;
use crate::cs::ConstraintSystem;
use crate::chip::Error;
use crate::chip::Layouter;
use crate::circuit::ArithmeticCircuit;
use crate::circuit::result_of;
use crate::checker::check_trace;
use crate::checker::gates_wf;
use crate::laws::lemma_trace_accepted;
use crate::laws::lemma_trace_rejected;
use crate::laws::lemma_shape_only_rejected;

verus! {

/// Synthesize the circuit and validate the trace against `instance`.
///
/// Accepts exactly when the witness is complete and
/// `instance[0] == x^2 * y^2 + constant`; rejects every other public
/// input and every incomplete witness; errors when no public-input
/// row exists to bind the result to.
pub fn check_circuit(circuit: &ArithmeticCircuit, instance: &Vec<Fp>) -> (r: Result<bool, Error>)
    requires
        circuit.wf(),
    ensures
        instance@.len() == 0 ==> r == Err::<bool, Error>(Error::PublicRowOutOfRange),
        instance@.len() >= 1 ==> (r matches Ok(ok) && (ok <==> result_of(
            circuit.x@,
            circuit.y@,
            circuit.constant@,
        ) == Some(fp_seq(instance@)[0]))),
{
    if instance.len() == 0 {
        return Err(Error::PublicRowOutOfRange);
    }
    let mut meta = ConstraintSystem::new();
    let config = ArithmeticCircuit::configure(&mut meta);
    let mut layouter = Layouter::new(&meta, instance.len());
    proof {
        assert(layouter.equality@[0] == config.l);
        assert(layouter.equality@[1] == config.r);
        assert(layouter.equality@[2] == config.o);
        assert(layouter.equality@.contains(config.l));
        assert(layouter.equality@.contains(config.r));
        assert(layouter.equality@.contains(config.o));
    }
    match ArithmeticCircuit::synthesize(circuit, config, &mut layouter) {
        Ok(()) => {},
        Err(e) => {
            return Err(e);
        },
    }
    proof {
        assert(gates_wf(meta));
    }
    let ok = check_trace(&meta, &layouter, instance);
    proof {
        let inst = fp_seq(instance@);
        match (circuit.x@, circuit.y@) {
            (Some(xv), Some(yv)) => {
                if inst[0] == fadd(fmul(fmul(xv, xv), fmul(yv, yv)), circuit.constant@) {
                    lemma_trace_accepted(meta, config, layouter, xv, yv, circuit.constant@, inst);
                } else {
                    lemma_trace_rejected(config, layouter, xv, yv, circuit.constant@, inst, meta);
                }
            },
            _ => {
                lemma_shape_only_rejected(
                    config,
                    layouter,
                    circuit.x@,
                    circuit.y@,
                    circuit.constant@,
                    inst,
                    meta,
                );
            },
        }
    }
    Ok(ok)
}

} // verus!
