//! The Mersenne-31 prime field and its quartic extension.
use vstd::arithmetic::div_mod::{
    lemma_mod_sub_multiples_vanish, lemma_small_mod,
};
use vstd::prelude::*;

verus! {

/// The Mersenne-31 prime, 2^31 - 1.
pub const P: u32 = 2147483647;

pub open spec fn p() -> int {
    P as int
}

proof fn lemma_canon(x: int)
    requires
        0 <= x < p(),
    ensures
        x % p() == x,
{
    lemma_small_mod(x as nat, p() as nat);
}

pub open spec fn m31_add(a: int, b: int) -> int {
    (a + b) % p()
}

pub open spec fn m31_neg(a: int) -> int {
    (p() - a) % p()
}

pub open spec fn m31_sub(a: int, b: int) -> int {
    (a - b + p()) % p()
}

pub open spec fn m31_mul(a: int, b: int) -> int {
    (a * b) % p()
}

/// An element of the base field, always held in canonical form.
#[derive(Clone, Copy, Debug, PartialEq, Eq, Structural)]
pub struct M31 {
    v: u32,
}

impl View for M31 {
    type V = int;

    closed spec fn view(&self) -> int {
        self.v as int % p()
    }
}

impl M31 {
    #[verifier::type_invariant]
    spec fn canonical(self) -> bool {
        self.v < P
    }

    /// The view is a canonical representative.
    pub proof fn lemma_view_canonical(self)
        ensures
            0 <= self@ < p(),
    {
    }

    /// The element congruent to `x`.
    pub fn from_u32(x: u32) -> (r: Self)
        ensures
            r@ == x as int % p(),
    {
        proof {
            lemma_canon(x as int % p());
        }
        M31 { v: x % P }
    }

    pub fn zero() -> (r: Self)
        ensures
            r@ == 0,
    {
        proof {
            lemma_canon(0);
        }
        M31 { v: 0 }
    }

    pub fn one() -> (r: Self)
        ensures
            r@ == 1,
    {
        proof {
            lemma_canon(1);
        }
        M31 { v: 1 }
    }

    /// The canonical representative, in `[0, P)`.
    pub fn value(&self) -> (r: u32)
        ensures
            r as int == self@,
            r < P,
    {
        proof {
            use_type_invariant(self);
            lemma_canon(self.v as int);
        }
        self.v
    }

    pub fn add(self, o: Self) -> (r: Self)
        ensures
            r@ == m31_add(self@, o@),
    {
        proof {
            use_type_invariant(&self);
            use_type_invariant(&o);
        }
        proof {
            lemma_canon(self.v as int);
            lemma_canon(o.v as int);
        }
        let s: u32 = self.v + o.v;
        if s >= P {
            proof {
                lemma_mod_sub_multiples_vanish(s as int, p());
                lemma_canon(s - p());
            }
            M31 { v: s - P }
        } else {
            proof {
                lemma_canon(s as int);
            }
            M31 { v: s }
        }
    }

    pub fn neg(self) -> (r: Self)
        ensures
            r@ == m31_neg(self@),
    {
        proof {
            use_type_invariant(&self);
        }
        proof {
            lemma_canon(self.v as int);
        }
        if self.v == 0 {
            proof {
                lemma_mod_sub_multiples_vanish(p(), p());
                lemma_canon(0);
            }
            M31 { v: 0 }
        } else {
            proof {
                lemma_canon(p() - self.v);
            }
            M31 { v: P - self.v }
        }
    }

    pub fn sub(self, o: Self) -> (r: Self)
        ensures
            r@ == m31_sub(self@, o@),
    {
        proof {
            use_type_invariant(&self);
            use_type_invariant(&o);
        }
        proof {
            lemma_canon(self.v as int);
            lemma_canon(o.v as int);
        }
        if self.v >= o.v {
            proof {
                lemma_mod_sub_multiples_vanish(self.v - o.v + p(), p());
                lemma_canon(self.v - o.v);
            }
            M31 { v: self.v - o.v }
        } else {
            proof {
                lemma_canon(self.v - o.v + p());
            }
            M31 { v: (P - o.v) + self.v }
        }
    }

    pub fn mul(self, o: Self) -> (r: Self)
        ensures
            r@ == m31_mul(self@, o@),
    {
        proof {
            use_type_invariant(&self);
            use_type_invariant(&o);
        }
        let a: u64 = self.v as u64;
        let b: u64 = o.v as u64;
        assert(a * b < 0x4000_0000_0000_0000) by (nonlinear_arith)
            requires
                a < 0x8000_0000,
                b < 0x8000_0000,
        ;
        proof {
            lemma_canon(a as int);
            lemma_canon(b as int);
        }
        let prod: u64 = a * b;
        let r: u64 = prod % (P as u64);
        proof {
            lemma_canon(r as int);
        }
        M31 { v: r as u32 }
    }
}

/// A value of the complex extension, as a pair of base-field values.
pub type CM31Model = (int, int);

/// A value of the quartic extension, as four base-field values.
pub type QM31Model = (int, int, int, int);

pub open spec fn cm31_add(x: CM31Model, y: CM31Model) -> CM31Model {
    (m31_add(x.0, y.0), m31_add(x.1, y.1))
}

/// `(a + b i)(c + d i)` with `i^2 = -1`.
pub open spec fn cm31_mul(x: CM31Model, y: CM31Model) -> CM31Model {
    (m31_sub(m31_mul(x.0, y.0), m31_mul(x.1, y.1)), m31_add(m31_mul(x.0, y.1), m31_mul(x.1, y.0)))
}

pub open spec fn qm31_add(x: QM31Model, y: QM31Model) -> QM31Model {
    (m31_add(x.0, y.0), m31_add(x.1, y.1), m31_add(x.2, y.2), m31_add(x.3, y.3))
}

pub open spec fn qm31_neg(x: QM31Model) -> QM31Model {
    (m31_neg(x.0), m31_neg(x.1), m31_neg(x.2), m31_neg(x.3))
}

/// `(x0 + x1 u)(y0 + y1 u)` with `u^2 = 2 + i`.
pub open spec fn qm31_mul(x: QM31Model, y: QM31Model) -> QM31Model {
    let x0 = (x.0, x.1);
    let x1 = (x.2, x.3);
    let y0 = (y.0, y.1);
    let y1 = (y.2, y.3);
    let lo = cm31_add(cm31_mul(x0, y0), cm31_mul(cm31_mul(x1, y1), (2, 1)));
    let hi = cm31_add(cm31_mul(x0, y1), cm31_mul(x1, y0));
    (lo.0, lo.1, hi.0, hi.1)
}

/// The base field embedded in the quartic extension.
pub open spec fn qm31_of(x: int) -> QM31Model {
    (x, 0, 0, 0)
}

/// An element of the quartic extension `CM31[u] / (u^2 - 2 - i)`.
#[derive(Clone, Copy, Debug, PartialEq, Eq, Structural)]
pub struct QM31 {
    pub a: M31,
    pub b: M31,
    pub c: M31,
    pub d: M31,
}

impl View for QM31 {
    type V = QM31Model;

    open spec fn view(&self) -> QM31Model {
        (self.a@, self.b@, self.c@, self.d@)
    }
}

fn cm31_mul_exec(a: M31, b: M31, c: M31, d: M31) -> (r: (M31, M31))
    ensures
        (r.0@, r.1@) == cm31_mul((a@, b@), (c@, d@)),
{
    (a.mul(c).sub(b.mul(d)), a.mul(d).add(b.mul(c)))
}

impl QM31 {
    pub fn from_m31(x: M31) -> (r: Self)
        ensures
            r@ == qm31_of(x@),
    {
        QM31 { a: x, b: M31::zero(), c: M31::zero(), d: M31::zero() }
    }

    pub fn zero() -> (r: Self)
        ensures
            r@ == qm31_of(0),
    {
        QM31::from_m31(M31::zero())
    }

    pub fn one() -> (r: Self)
        ensures
            r@ == qm31_of(1),
    {
        QM31::from_m31(M31::one())
    }

    pub fn add(self, o: Self) -> (r: Self)
        ensures
            r@ == qm31_add(self@, o@),
    {
        QM31 { a: self.a.add(o.a), b: self.b.add(o.b), c: self.c.add(o.c), d: self.d.add(o.d) }
    }

    pub fn neg(self) -> (r: Self)
        ensures
            r@ == qm31_neg(self@),
    {
        QM31 { a: self.a.neg(), b: self.b.neg(), c: self.c.neg(), d: self.d.neg() }
    }

    pub fn mul(self, o: Self) -> (r: Self)
        ensures
            r@ == qm31_mul(self@, o@),
    {
        let (p0, p1) = cm31_mul_exec(self.a, self.b, o.a, o.b);
        let (q0, q1) = cm31_mul_exec(self.c, self.d, o.c, o.d);
        let (r0, r1) = cm31_mul_exec(q0, q1, M31::from_u32(2), M31::one());
        let (s0, s1) = cm31_mul_exec(self.a, self.b, o.c, o.d);
        let (t0, t1) = cm31_mul_exec(self.c, self.d, o.a, o.b);
        proof {
            assert(2int % p() == 2) by {
                lemma_canon(2);
            }
        }
        QM31 { a: p0.add(r0), b: p1.add(r1), c: s0.add(t0), d: s1.add(t1) }
    }

    /// The inverse of a non-zero element, through the norms to the complex
    /// and base fields.
    pub fn inverse(self) -> (r: Self)
        ensures
            r@ == qm31_inv(self@),
    {
        let (p0, p1) = cm31_mul_exec(self.a, self.b, self.a, self.b);
        let (q0, q1) = cm31_mul_exec(self.c, self.d, self.c, self.d);
        let (r0, r1) = cm31_mul_exec(q0, q1, M31::from_u32(2), M31::one());
        proof {
            assert(2int % p() == 2) by {
                lemma_canon(2);
            }
        }
        let (d0, d1) = cm31_inv_exec(p0.sub(r0), p1.sub(r1));
        let (l0, l1) = cm31_mul_exec(self.a, self.b, d0, d1);
        let (h0, h1) = cm31_mul_exec(self.c.neg(), self.d.neg(), d0, d1);
        QM31 { a: l0, b: l1, c: h0, d: h1 }
    }
}

pub open spec fn cm31_sub(x: CM31Model, y: CM31Model) -> CM31Model {
    (m31_sub(x.0, y.0), m31_sub(x.1, y.1))
}

/// `a^n` in the base field, by repeated squaring.
pub open spec fn m31_pow(a: int, n: nat) -> int
    decreases n,
{
    if n == 0 {
        1
    } else if n % 2 == 0 {
        m31_pow(m31_mul(a, a), n / 2)
    } else {
        m31_mul(a, m31_pow(m31_mul(a, a), n / 2))
    }
}

/// `a^(p-2)`, the inverse of a non-zero `a` in the base field.
pub open spec fn m31_inv(a: int) -> int {
    m31_pow(a, (p() - 2) as nat)
}

/// `(a + b i)^-1 = (a - b i) / (a^2 + b^2)`.
pub open spec fn cm31_inv(x: CM31Model) -> CM31Model {
    let n = m31_inv(m31_add(m31_mul(x.0, x.0), m31_mul(x.1, x.1)));
    (m31_mul(x.0, n), m31_mul(m31_neg(x.1), n))
}

/// `(x0 + x1 u)^-1 = (x0 - x1 u) / (x0^2 - (2 + i) x1^2)`.
pub open spec fn qm31_inv(x: QM31Model) -> QM31Model {
    let x0 = (x.0, x.1);
    let x1 = (x.2, x.3);
    let di = cm31_inv(cm31_sub(cm31_mul(x0, x0), cm31_mul(cm31_mul(x1, x1), (2, 1))));
    let lo = cm31_mul(x0, di);
    let hi = cm31_mul((m31_neg(x1.0), m31_neg(x1.1)), di);
    (lo.0, lo.1, hi.0, hi.1)
}

impl M31 {
    /// `self^n`.
    pub fn pow(self, n: u32) -> (r: Self)
        ensures
            r@ == m31_pow(self@, n as nat),
        decreases n,
    {
        if n == 0 {
            M31::one()
        } else {
            let h = self.mul(self).pow(n / 2);
            if n % 2 == 0 {
                h
            } else {
                self.mul(h)
            }
        }
    }

    /// The inverse of a non-zero element, `self^(p-2)`; zero for zero.
    pub fn inverse(self) -> (r: Self)
        ensures
            r@ == m31_inv(self@),
    {
        self.pow(P - 2)
    }
}

fn cm31_inv_exec(a: M31, b: M31) -> (r: (M31, M31))
    ensures
        (r.0@, r.1@) == cm31_inv((a@, b@)),
{
    let n = a.mul(a).add(b.mul(b)).inverse();
    (a.mul(n), b.neg().mul(n))
}

/// The sum of the elements, added from the first on.
pub open spec fn qm31_sum(s: Seq<QM31Model>) -> QM31Model
    decreases s.len(),
{
    if s.len() == 0 {
        qm31_of(0)
    } else {
        qm31_add(qm31_sum(s.drop_last()), s.last())
    }
}

} // verus!
