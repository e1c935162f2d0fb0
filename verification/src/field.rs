//! A concrete prime field for circuit values.
//!
//! The arithmetization layer only needs a ring with addition,
//! multiplication, negation and the two identities; every value is kept
//! in canonical form, below the modulus. The modulus is the Mersenne
//! prime `2^31 - 1`, small enough that sums and products of canonical
//! values fit in a `u64` without overflow.

use vstd::prelude::*;
use vstd::arithmetic::div_mod::lemma_small_mod;
use vstd::arithmetic::div_mod::lemma_mod_multiples_vanish;

verus! {

/// The field modulus, the Mersenne prime `2^31 - 1`.
pub const MODULUS: u64 = 0x7fff_ffff;

/// Field addition on canonical representatives.
pub open spec fn fadd(a: nat, b: nat) -> nat
    recommends
        a < MODULUS,
        b < MODULUS,
{
    if a + b < MODULUS {
        (a + b) as nat
    } else {
        (a + b - MODULUS) as nat
    }
}

/// Field multiplication on canonical representatives.
pub open spec fn fmul(a: nat, b: nat) -> nat {
    (a * b) % (MODULUS as nat)
}

/// Field negation on canonical representatives.
pub open spec fn fneg(a: nat) -> nat
    recommends
        a < MODULUS,
{
    if a == 0 {
        0
    } else {
        (MODULUS - a) as nat
    }
}

/// A field element, stored as its canonical representative.
#[derive(Clone, Copy, Debug, PartialEq, Eq, Structural)]
pub struct Fp {
    v: u64,
}

impl View for Fp {
    type V = nat;

    closed spec fn view(&self) -> nat {
        self.v as nat
    }
}

impl Fp {
    /// The element is in canonical form.
    pub open spec fn wf(self) -> bool {
        self@ < MODULUS
    }

    /// Reduce an arbitrary machine integer into the field.
    pub fn new(u: u64) -> (r: Fp)
        ensures
            r@ == u as nat % (MODULUS as nat),
            r.wf(),
    {
        Fp { v: u % MODULUS }
    }

    /// The additive identity.
    pub fn zero() -> (r: Fp)
        ensures
            r@ == 0,
            r.wf(),
    {
        Fp { v: 0 }
    }

    /// The multiplicative identity.
    pub fn one() -> (r: Fp)
        ensures
            r@ == 1,
            r.wf(),
    {
        Fp { v: 1 }
    }

    /// Decide canonical form at run time.
    pub fn is_canonical(&self) -> (b: bool)
        ensures
            b == self.wf(),
    {
        self.v < MODULUS
    }

    /// The canonical representative as a machine integer.
    pub fn value(self) -> (r: u64)
        ensures
            r as nat == self@,
    {
        self.v
    }

    pub fn add(self, other: Fp) -> (r: Fp)
        requires
            self.wf(),
            other.wf(),
        ensures
            r@ == fadd(self@, other@),
            r.wf(),
    {
        let s: u64 = self.v + other.v;
        if s >= MODULUS {
            Fp { v: s - MODULUS }
        } else {
            Fp { v: s }
        }
    }

    pub fn mul(self, other: Fp) -> (r: Fp)
        requires
            self.wf(),
            other.wf(),
        ensures
            r@ == fmul(self@, other@),
            r.wf(),
    {
        proof {
            assert(self.v * other.v < 0x4000_0000_0000_0000) by (nonlinear_arith)
                requires
                    self.v < 0x8000_0000,
                    other.v < 0x8000_0000,
            ;
        }
        let p: u64 = self.v * other.v;
        Fp { v: p % MODULUS }
    }

    pub fn neg(self) -> (r: Fp)
        requires
            self.wf(),
        ensures
            r@ == fneg(self@),
            r.wf(),
    {
        if self.v == 0 {
            Fp { v: 0 }
        } else {
            Fp { v: MODULUS - self.v }
        }
    }
}

/// Multiplying by zero yields zero.
pub proof fn lemma_fmul_zero(a: nat)
    ensures
        fmul(0, a) == 0,
        fmul(a, 0) == 0,
{
}

/// One is a multiplicative identity on canonical values.
pub proof fn lemma_fmul_one(a: nat)
    requires
        a < MODULUS,
    ensures
        fmul(1, a) == a,
        fmul(a, 1) == a,
{
    lemma_small_mod(a, MODULUS as nat);
}

/// Adding zero changes nothing on canonical values.
pub proof fn lemma_fadd_zero(a: nat)
    requires
        a < MODULUS,
    ensures
        fadd(a, 0) == a,
        fadd(0, a) == a,
{
}

/// `m + (-o)` vanishes exactly when `m == o`, on canonical values.
pub proof fn lemma_cancel(m: nat, o: nat)
    requires
        m < MODULUS,
        o < MODULUS,
    ensures
        (fadd(m, fneg(o)) == 0) <==> (m == o),
{
}

/// Multiplying by `MODULUS - 1` is negation on canonical values.
pub proof fn lemma_fmul_neg_one(o: nat)
    requires
        o < MODULUS,
    ensures
        fmul(o, (MODULUS - 1) as nat) == fneg(o),
{
    if o == 0 {
    } else {
        assert(o * ((MODULUS - 1) as nat) == (MODULUS as int) * (o - 1) + (MODULUS - o))
            by (nonlinear_arith)
            requires
                0 < o < MODULUS,
        ;
        lemma_mod_multiples_vanish(o as int - 1, MODULUS as int - o, MODULUS as int);
        lemma_small_mod((MODULUS - o) as nat, MODULUS as nat);
    }
}

/// Field products are canonical.
pub proof fn lemma_fmul_bound(a: nat, b: nat)
    ensures
        fmul(a, b) < MODULUS,
{
}

} // verus!
