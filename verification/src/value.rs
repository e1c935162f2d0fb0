//! Deferred witness values.
//!
//! A `Value` is a field element that may not be known yet: during a
//! shape-only pass over the circuit no witness is present and every
//! value is `Unknown`; during witness generation each value is `Known`.
//! Combining values propagates the unknown state, so the circuit shape
//! never depends on whether concrete values exist.

use vstd::prelude::*;
use crate::field::Fp;
use crate::field::MODULUS;
use crate::field::fadd;
use crate::field::fmul;

verus! {

/// A field element that is either concrete or still unknown.
#[derive(Clone, Copy, Debug, PartialEq, Eq, Structural)]
pub enum Value {
    Unknown,
    Known(Fp),
}

impl View for Value {
    type V = Option<nat>;

    open spec fn view(&self) -> Option<nat> {
        match *self {
            Value::Unknown => None,
            Value::Known(f) => Some(f@),
        }
    }
}

/// Deferred multiplication: known only when both operands are.
pub open spec fn vmul(a: Option<nat>, b: Option<nat>) -> Option<nat> {
    match (a, b) {
        (Some(x), Some(y)) => Some(fmul(x, y)),
        _ => None,
    }
}

/// Deferred addition: known only when both operands are.
pub open spec fn vadd(a: Option<nat>, b: Option<nat>) -> Option<nat> {
    match (a, b) {
        (Some(x), Some(y)) => Some(fadd(x, y)),
        _ => None,
    }
}

impl Value {
    /// A known value is in canonical form.
    pub open spec fn wf(self) -> bool {
        self@ matches Some(x) ==> x < MODULUS
    }

    /// Decide canonical form at run time.
    pub fn is_canonical(&self) -> (b: bool)
        ensures
            b == self.wf(),
    {
        match *self {
            Value::Unknown => true,
            Value::Known(f) => f.is_canonical(),
        }
    }

    /// The unknown value of a shape-only pass.
    pub fn unknown() -> (r: Value)
        ensures
            r@ == None::<nat>,
            r.wf(),
    {
        Value::Unknown
    }

    /// A concrete witness value.
    pub fn known(f: Fp) -> (r: Value)
        ensures
            r@ == Some(f@),
            r.wf() == f.wf(),
    {
        Value::Known(f)
    }

    pub fn mul(self, other: Value) -> (r: Value)
        requires
            self.wf(),
            other.wf(),
        ensures
            r@ == vmul(self@, other@),
            r.wf(),
    {
        match (self, other) {
            (Value::Known(a), Value::Known(b)) => Value::Known(a.mul(b)),
            _ => Value::Unknown,
        }
    }

    pub fn add(self, other: Value) -> (r: Value)
        requires
            self.wf(),
            other.wf(),
        ensures
            r@ == vadd(self@, other@),
            r.wf(),
    {
        match (self, other) {
            (Value::Known(a), Value::Known(b)) => Value::Known(a.add(b)),
            _ => Value::Unknown,
        }
    }
}

} // verus!
