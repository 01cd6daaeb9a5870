//! The algebraic laws of the kernel, stated over the same spec functions
//! that the executable routines are proved against.

use vstd::prelude::*;

use crate::model::det_seq;
use crate::model::identity_seq;
use crate::model::inverse_seq;
use crate::model::minor2;
use crate::model::mul_seq;
use crate::model::transpose_seq;
use crate::scalar::field_laws;
use crate::scalar::identity_laws;
use crate::scalar::ring_laws;
use crate::scalar::sub_cancel_law;
use crate::scalar::zero_abs_below_eps_law;
use crate::scalar::Scalar;
use crate::transform::compose_seq;
use crate::transform::look_at_seq;

verus! {

/// Transposing twice gives back the original matrix, element for element,
/// for every matrix over any element type.
pub proof fn lemma_transpose_involution<T>(a: Seq<T>)
    requires
        a.len() == 16,
    ensures
        transpose_seq(transpose_seq(a)) == a,
{
    assert(transpose_seq(transpose_seq(a)) =~= a);
}

/// The identity matrix is neutral for matrix multiplication, on both sides,
/// for every matrix over an element type whose identity laws hold.
#[verifier::rlimit(50)]
pub proof fn lemma_mul_identity<T: Scalar>(a: Seq<T>)
    requires
        a.len() == 16,
        identity_laws::<T>(),
    ensures
        mul_seq(identity_seq::<T>(), a) == a,
        mul_seq(a, identity_seq::<T>()) == a,
{
    let ident = identity_seq::<T>();
    assert(mul_seq(ident, a) =~= a) by {
        assert forall|i: int| 0 <= i < 16 implies mul_seq(ident, a)[i] == a[i] by {
            if i == 0 {
                assert(mul_seq(ident, a)[0] == a[0]);
            } else if i == 1 {
                assert(mul_seq(ident, a)[1] == a[1]);
            } else if i == 2 {
                assert(mul_seq(ident, a)[2] == a[2]);
            } else if i == 3 {
                assert(mul_seq(ident, a)[3] == a[3]);
            } else if i == 4 {
                assert(mul_seq(ident, a)[4] == a[4]);
            } else if i == 5 {
                assert(mul_seq(ident, a)[5] == a[5]);
            } else if i == 6 {
                assert(mul_seq(ident, a)[6] == a[6]);
            } else if i == 7 {
                assert(mul_seq(ident, a)[7] == a[7]);
            } else if i == 8 {
                assert(mul_seq(ident, a)[8] == a[8]);
            } else if i == 9 {
                assert(mul_seq(ident, a)[9] == a[9]);
            } else if i == 10 {
                assert(mul_seq(ident, a)[10] == a[10]);
            } else if i == 11 {
                assert(mul_seq(ident, a)[11] == a[11]);
            } else if i == 12 {
                assert(mul_seq(ident, a)[12] == a[12]);
            } else if i == 13 {
                assert(mul_seq(ident, a)[13] == a[13]);
            } else if i == 14 {
                assert(mul_seq(ident, a)[14] == a[14]);
            } else if i == 15 {
                assert(mul_seq(ident, a)[15] == a[15]);
            }
        }
    }
    assert(mul_seq(a, ident) =~= a) by {
        assert forall|i: int| 0 <= i < 16 implies mul_seq(a, ident)[i] == a[i] by {
            if i == 0 {
                assert(mul_seq(a, ident)[0] == a[0]);
            } else if i == 1 {
                assert(mul_seq(a, ident)[1] == a[1]);
            } else if i == 2 {
                assert(mul_seq(a, ident)[2] == a[2]);
            } else if i == 3 {
                assert(mul_seq(a, ident)[3] == a[3]);
            } else if i == 4 {
                assert(mul_seq(a, ident)[4] == a[4]);
            } else if i == 5 {
                assert(mul_seq(a, ident)[5] == a[5]);
            } else if i == 6 {
                assert(mul_seq(a, ident)[6] == a[6]);
            } else if i == 7 {
                assert(mul_seq(a, ident)[7] == a[7]);
            } else if i == 8 {
                assert(mul_seq(a, ident)[8] == a[8]);
            } else if i == 9 {
                assert(mul_seq(a, ident)[9] == a[9]);
            } else if i == 10 {
                assert(mul_seq(a, ident)[10] == a[10]);
            } else if i == 11 {
                assert(mul_seq(a, ident)[11] == a[11]);
            } else if i == 12 {
                assert(mul_seq(a, ident)[12] == a[12]);
            } else if i == 13 {
                assert(mul_seq(a, ident)[13] == a[13]);
            } else if i == 14 {
                assert(mul_seq(a, ident)[14] == a[14]);
            } else if i == 15 {
                assert(mul_seq(a, ident)[15] == a[15]);
            }
        }
    }
}

/// The determinant of the identity matrix is the multiplicative identity,
/// over an element type whose identity laws hold.
pub proof fn lemma_determinant_identity<T: Scalar>()
    requires
        identity_laws::<T>(),
    ensures
        det_seq(identity_seq::<T>()) == T::spec_one(),
{
}

/// A camera whose eye and target coincide is degenerate: the view matrix of
/// such a camera is the identity matrix, whatever the up hint, over an
/// element type where subtraction cancels and the additive identity lies
/// below the epsilon in absolute value.
pub proof fn lemma_look_at_coincident_identity<T: Scalar>(eye: Seq<T>, up: Seq<T>)
    requires
        eye.len() == 3,
        up.len() == 3,
        sub_cancel_law::<T>(),
        zero_abs_below_eps_law::<T>(),
    ensures
        look_at_seq(eye, eye, up) == identity_seq::<T>(),
{
    assert(eye[0].spec_sub(eye[0]) == T::spec_zero());
    assert(eye[1].spec_sub(eye[1]) == T::spec_zero());
    assert(eye[2].spec_sub(eye[2]) == T::spec_zero());
}

/// The ring laws behind an opaque seal: the proofs below that only stitch
/// ground equalities together take the sealed form, so that the quantified
/// laws do not flood their solver context.
#[verifier::opaque]
pub(crate) closed spec fn laws_sealed<T: Scalar>() -> bool {
    ring_laws::<T>()
}

/// Seals the ring laws.
pub(crate) proof fn lemma_seal_laws<T: Scalar>()
    requires
        ring_laws::<T>(),
    ensures
        laws_sealed::<T>(),
{
    reveal(laws_sealed);
}

/// One commutation of a product.
pub(crate) proof fn lemma_mul_comm<T: Scalar>(x: T, y: T)
    requires
        laws_sealed::<T>(),
    ensures
        x.spec_mul(y) == y.spec_mul(x),
{
    reveal(laws_sealed);
}

/// A 2x2 minor is unchanged by commuting its second product.
pub(crate) proof fn lemma_minor_swap<T: Scalar>(p: T, q: T, r: T, s: T)
    requires
        laws_sealed::<T>(),
    ensures
        p.spec_mul(q).spec_sub(r.spec_mul(s)) == p.spec_mul(q).spec_sub(s.spec_mul(r)),
{
    reveal(laws_sealed);
}

/// A product of two pairs can be re-paired in any of the three ways.
pub(crate) proof fn lemma_mul4_rearrange<T: Scalar>(w: T, x: T, y: T, z: T)
    requires
        laws_sealed::<T>(),
    ensures
        w.spec_mul(x).spec_mul(y.spec_mul(z)) == w.spec_mul(y).spec_mul(x.spec_mul(z)),
        w.spec_mul(x).spec_mul(y.spec_mul(z)) == w.spec_mul(z).spec_mul(x.spec_mul(y)),
        w.spec_mul(x).spec_mul(y.spec_mul(z)) == x.spec_mul(y).spec_mul(w.spec_mul(z)),
        w.spec_mul(x).spec_mul(y.spec_mul(z)) == x.spec_mul(z).spec_mul(w.spec_mul(y)),
{
    reveal(laws_sealed);
    assert(w.spec_mul(x).spec_mul(y.spec_mul(z)) == w.spec_mul(x.spec_mul(y.spec_mul(z))));
    assert(x.spec_mul(y.spec_mul(z)) == x.spec_mul(y).spec_mul(z));
    assert(x.spec_mul(y) == y.spec_mul(x));
    assert(y.spec_mul(x).spec_mul(z) == y.spec_mul(x.spec_mul(z)));
    assert(w.spec_mul(y.spec_mul(x.spec_mul(z))) == w.spec_mul(y).spec_mul(x.spec_mul(z)));
    assert(x.spec_mul(y.spec_mul(z)) == x.spec_mul(z.spec_mul(y)));
    assert(x.spec_mul(z.spec_mul(y)) == x.spec_mul(z).spec_mul(y));
    assert(x.spec_mul(z).spec_mul(y) == z.spec_mul(x).spec_mul(y));
    assert(z.spec_mul(x).spec_mul(y) == z.spec_mul(x.spec_mul(y)));
    assert(w.spec_mul(z.spec_mul(x.spec_mul(y))) == w.spec_mul(z).spec_mul(x.spec_mul(y)));
    assert(w.spec_mul(y).spec_mul(x.spec_mul(z)) == x.spec_mul(z).spec_mul(w.spec_mul(y)));
    assert(w.spec_mul(z).spec_mul(x.spec_mul(y)) == x.spec_mul(y).spec_mul(w.spec_mul(z)));
}

/// A product of two differences expands into its four signed terms.
pub(crate) proof fn lemma_expand_product<T: Scalar>(p: T, q: T, u: T, v: T)
    requires
        laws_sealed::<T>(),
    ensures
        p.spec_sub(q).spec_mul(u.spec_sub(v)) == p.spec_mul(u).spec_sub(p.spec_mul(v)).spec_sub(
            q.spec_mul(u),
        ).spec_add(q.spec_mul(v)),
{
    reveal(laws_sealed);
    let nq = q.spec_neg();
    let nv = v.spec_neg();
    assert(p.spec_sub(q) == p.spec_add(nq));
    assert(u.spec_sub(v) == u.spec_add(nv));
    assert(p.spec_add(nq).spec_mul(u.spec_add(nv)) == p.spec_add(nq).spec_mul(u).spec_add(
        p.spec_add(nq).spec_mul(nv),
    ));
    assert(p.spec_add(nq).spec_mul(u) == p.spec_mul(u).spec_add(nq.spec_mul(u)));
    assert(nq.spec_mul(u) == q.spec_mul(u).spec_neg());
    assert(p.spec_add(nq).spec_mul(nv) == p.spec_mul(nv).spec_add(nq.spec_mul(nv)));
    assert(p.spec_mul(nv) == p.spec_mul(v).spec_neg());
    assert(nq.spec_mul(nv) == q.spec_mul(nv).spec_neg());
    assert(q.spec_mul(nv) == q.spec_mul(v).spec_neg());
    assert(nq.spec_mul(nv) == q.spec_mul(v));
    let pu = p.spec_mul(u);
    let pv = p.spec_mul(v);
    let qu = q.spec_mul(u);
    let qv = q.spec_mul(v);
    assert(p.spec_sub(q).spec_mul(u.spec_sub(v)) == pu.spec_add(qu.spec_neg()).spec_add(
        pv.spec_neg().spec_add(qv),
    ));
    assert(pu.spec_sub(pv).spec_sub(qu).spec_add(qv) == pu.spec_add(pv.spec_neg()).spec_add(
        qu.spec_neg(),
    ).spec_add(qv));
    assert(pu.spec_add(qu.spec_neg()).spec_add(pv.spec_neg().spec_add(qv)) == pu.spec_add(
        pv.spec_neg(),
    ).spec_add(qu.spec_neg()).spec_add(qv)) by {
        assert(pu.spec_add(qu.spec_neg()).spec_add(pv.spec_neg().spec_add(qv)) == pu.spec_add(
            qu.spec_neg().spec_add(pv.spec_neg().spec_add(qv)),
        ));
        assert(qu.spec_neg().spec_add(pv.spec_neg().spec_add(qv)) == qu.spec_neg().spec_add(
            pv.spec_neg(),
        ).spec_add(qv));
        assert(qu.spec_neg().spec_add(pv.spec_neg()) == pv.spec_neg().spec_add(qu.spec_neg()));
        assert(pu.spec_add(pv.spec_neg().spec_add(qu.spec_neg()).spec_add(qv)) == pu.spec_add(
            pv.spec_neg().spec_add(qu.spec_neg()),
        ).spec_add(qv));
        assert(pu.spec_add(pv.spec_neg().spec_add(qu.spec_neg())) == pu.spec_add(
            pv.spec_neg(),
        ).spec_add(qu.spec_neg()));
    }
}

/// Two pairs of summands can be regrouped crosswise.
pub(crate) proof fn lemma_interchange2<T: Scalar>(a: T, b: T, c: T, d: T)
    requires
        laws_sealed::<T>(),
    ensures
        a.spec_add(b).spec_add(c.spec_add(d)) == a.spec_add(c).spec_add(b.spec_add(d)),
{
    reveal(laws_sealed);
    assert(a.spec_add(b).spec_add(c.spec_add(d)) == a.spec_add(b.spec_add(c.spec_add(d))));
    assert(b.spec_add(c.spec_add(d)) == b.spec_add(c).spec_add(d));
    assert(b.spec_add(c) == c.spec_add(b));
    assert(c.spec_add(b).spec_add(d) == c.spec_add(b.spec_add(d)));
    assert(a.spec_add(c.spec_add(b.spec_add(d))) == a.spec_add(c).spec_add(b.spec_add(d)));
}

/// A subtract-subtract-add chain as a balanced tree of signed summands.
pub(crate) proof fn lemma_chain_to_tree<T: Scalar>(a: T, b: T, c: T, d: T)
    requires
        laws_sealed::<T>(),
    ensures
        a.spec_sub(b).spec_sub(c).spec_add(d) == a.spec_add(b.spec_neg()).spec_add(
            c.spec_neg().spec_add(d),
        ),
{
    reveal(laws_sealed);
    assert(a.spec_sub(b) == a.spec_add(b.spec_neg()));
    assert(a.spec_add(b.spec_neg()).spec_sub(c) == a.spec_add(b.spec_neg()).spec_add(
        c.spec_neg(),
    ));
    assert(a.spec_add(b.spec_neg()).spec_add(c.spec_neg()).spec_add(d) == a.spec_add(
        b.spec_neg(),
    ).spec_add(c.spec_neg().spec_add(d)));
}

/// The negation of a subtract-subtract-add chain as a balanced tree with
/// the signs flipped.
pub(crate) proof fn lemma_neg_chain_to_tree<T: Scalar>(a: T, b: T, c: T, d: T)
    requires
        laws_sealed::<T>(),
    ensures
        a.spec_sub(b).spec_sub(c).spec_add(d).spec_neg() == a.spec_neg().spec_add(b).spec_add(
            c.spec_add(d.spec_neg()),
        ),
{
    reveal(laws_sealed);
    lemma_chain_to_tree(a, b, c, d);
    let na = a.spec_neg();
    let nb = b.spec_neg();
    let nc = c.spec_neg();
    let nd = d.spec_neg();
    assert(a.spec_add(nb).spec_add(nc.spec_add(d)).spec_neg() == a.spec_add(nb).spec_neg()
        .spec_add(nc.spec_add(d).spec_neg()));
    assert(a.spec_add(nb).spec_neg() == na.spec_add(nb.spec_neg()));
    assert(nb.spec_neg() == b);
    assert(nc.spec_add(d).spec_neg() == nc.spec_neg().spec_add(nd));
    assert(nc.spec_neg() == c);
}

/// An add-add-subtract-subtract chain with the subtracted terms gathered
/// into one negated group.
pub(crate) proof fn lemma_side_regroup<T: Scalar>(x2: T, x3: T, x4: T, x5: T)
    requires
        laws_sealed::<T>(),
    ensures
        x3.spec_add(x4).spec_sub(x2).spec_sub(x5) == x3.spec_add(x4).spec_add(
            x2.spec_neg().spec_add(x5.spec_neg()),
        ),
{
    reveal(laws_sealed);
    assert(x3.spec_add(x4).spec_sub(x2) == x3.spec_add(x4).spec_add(x2.spec_neg()));
    assert(x3.spec_add(x4).spec_add(x2.spec_neg()).spec_sub(x5) == x3.spec_add(x4).spec_add(
        x2.spec_neg(),
    ).spec_add(x5.spec_neg()));
    assert(x3.spec_add(x4).spec_add(x2.spec_neg()).spec_add(x5.spec_neg()) == x3.spec_add(
        x4,
    ).spec_add(x2.spec_neg().spec_add(x5.spec_neg())));
}

/// Four summands in the order (2, 3, 1, 4) equal the same four in order.
pub(crate) proof fn lemma_reorder4<T: Scalar>(x1: T, x2: T, x3: T, x4: T)
    requires
        laws_sealed::<T>(),
    ensures
        x2.spec_add(x3).spec_add(x1.spec_add(x4)) == x1.spec_add(x2).spec_add(x3.spec_add(x4)),
{
    lemma_interchange2(x2, x3, x1, x4);
    reveal(laws_sealed);
    assert(x2.spec_add(x1) == x1.spec_add(x2));
}

/// The sealed field laws: the inverse proofs below take this form for the
/// same reason.
#[verifier::opaque]
pub(crate) closed spec fn field_sealed<T: Scalar>() -> bool {
    field_laws::<T>()
}

/// Seals the field laws.
pub(crate) proof fn lemma_seal_field_laws<T: Scalar>()
    requires
        field_laws::<T>(),
    ensures
        field_sealed::<T>(),
{
    reveal(field_sealed);
}

/// The sealed field laws contain the sealed ring laws.
pub(crate) proof fn lemma_field_gives_ring<T: Scalar>()
    requires
        field_sealed::<T>(),
    ensures
        laws_sealed::<T>(),
{
    reveal(field_sealed);
    reveal(laws_sealed);
}

/// A value that is not the additive identity times its reciprocal is the
/// multiplicative identity.
pub(crate) proof fn lemma_recip<T: Scalar>(x: T)
    requires
        field_sealed::<T>(),
        !x.spec_is_zero(),
    ensures
        x.spec_mul(T::spec_one().spec_div(x)) == T::spec_one(),
{
    reveal(field_sealed);
}

/// One reassociation of a product.
pub(crate) proof fn lemma_mul_assoc<T: Scalar>(x: T, y: T, z: T)
    requires
        laws_sealed::<T>(),
    ensures
        x.spec_mul(y.spec_mul(z)) == x.spec_mul(y).spec_mul(z),
{
    reveal(laws_sealed);
}

/// A common right factor pulled out of a four-term sum.
pub(crate) proof fn lemma_factor4<T: Scalar>(t1: T, t2: T, t3: T, t4: T, d: T)
    requires
        laws_sealed::<T>(),
    ensures
        t1.spec_mul(d).spec_add(t2.spec_mul(d)).spec_add(t3.spec_mul(d)).spec_add(
            t4.spec_mul(d),
        ) == t1.spec_add(t2).spec_add(t3).spec_add(t4).spec_mul(d),
{
    reveal(laws_sealed);
    assert(t1.spec_add(t2).spec_mul(d) == t1.spec_mul(d).spec_add(t2.spec_mul(d)));
    assert(t1.spec_add(t2).spec_add(t3).spec_mul(d) == t1.spec_add(t2).spec_mul(d).spec_add(
        t3.spec_mul(d),
    ));
    assert(t1.spec_add(t2).spec_add(t3).spec_add(t4).spec_mul(d) == t1.spec_add(t2).spec_add(
        t3,
    ).spec_mul(d).spec_add(t4.spec_mul(d)));
}

/// A factor distributed over a subtract-then-add chain of three terms.
pub(crate) proof fn lemma_distrib3_pmp<T: Scalar>(f: T, p: T, q: T, s: T)
    requires
        laws_sealed::<T>(),
    ensures
        f.spec_mul(p.spec_sub(q).spec_add(s)) == f.spec_mul(p).spec_sub(f.spec_mul(q)).spec_add(
            f.spec_mul(s),
        ),
{
    reveal(laws_sealed);
    assert(f.spec_mul(p.spec_sub(q).spec_add(s)) == f.spec_mul(p.spec_sub(q)).spec_add(
        f.spec_mul(s),
    ));
    assert(p.spec_sub(q) == p.spec_add(q.spec_neg()));
    assert(f.spec_mul(p.spec_add(q.spec_neg())) == f.spec_mul(p).spec_add(
        f.spec_mul(q.spec_neg()),
    ));
    assert(f.spec_mul(q.spec_neg()) == f.spec_mul(q).spec_neg());
    assert(f.spec_mul(p).spec_add(f.spec_mul(q).spec_neg()) == f.spec_mul(p).spec_sub(
        f.spec_mul(q),
    ));
}

/// A factor distributed over a subtract-then-subtract chain of three terms.
pub(crate) proof fn lemma_distrib3_pmm<T: Scalar>(f: T, p: T, q: T, s: T)
    requires
        laws_sealed::<T>(),
    ensures
        f.spec_mul(p.spec_sub(q).spec_sub(s)) == f.spec_mul(p).spec_sub(f.spec_mul(q)).spec_sub(
            f.spec_mul(s),
        ),
{
    reveal(laws_sealed);
    assert(p.spec_sub(q).spec_sub(s) == p.spec_sub(q).spec_add(s.spec_neg()));
    assert(f.spec_mul(p.spec_sub(q).spec_add(s.spec_neg())) == f.spec_mul(
        p.spec_sub(q),
    ).spec_add(f.spec_mul(s.spec_neg())));
    assert(p.spec_sub(q) == p.spec_add(q.spec_neg()));
    assert(f.spec_mul(p.spec_add(q.spec_neg())) == f.spec_mul(p).spec_add(
        f.spec_mul(q.spec_neg()),
    ));
    assert(f.spec_mul(q.spec_neg()) == f.spec_mul(q).spec_neg());
    assert(f.spec_mul(p).spec_add(f.spec_mul(q).spec_neg()) == f.spec_mul(p).spec_sub(
        f.spec_mul(q),
    ));
    assert(f.spec_mul(s.spec_neg()) == f.spec_mul(s).spec_neg());
    assert(f.spec_mul(p).spec_sub(f.spec_mul(q)).spec_add(f.spec_mul(s).spec_neg())
        == f.spec_mul(p).spec_sub(f.spec_mul(q)).spec_sub(f.spec_mul(s)));
}

/// A three-term subtract-then-add chain appended to a running sum.
pub(crate) proof fn lemma_append3_pmp<T: Scalar>(s: T, x: T, y: T, z: T)
    requires
        laws_sealed::<T>(),
    ensures
        s.spec_add(x.spec_sub(y).spec_add(z)) == s.spec_add(x).spec_sub(y).spec_add(z),
{
    reveal(laws_sealed);
    assert(x.spec_sub(y) == x.spec_add(y.spec_neg()));
    assert(s.spec_add(x.spec_add(y.spec_neg()).spec_add(z)) == s.spec_add(
        x.spec_add(y.spec_neg()),
    ).spec_add(z));
    assert(s.spec_add(x.spec_add(y.spec_neg())) == s.spec_add(x).spec_add(y.spec_neg()));
    assert(s.spec_add(x).spec_add(y.spec_neg()) == s.spec_add(x).spec_sub(y));
}

/// A three-term subtract-then-subtract chain appended to a running sum.
pub(crate) proof fn lemma_append3_pmm<T: Scalar>(s: T, x: T, y: T, z: T)
    requires
        laws_sealed::<T>(),
    ensures
        s.spec_add(x.spec_sub(y).spec_sub(z)) == s.spec_add(x).spec_sub(y).spec_sub(z),
{
    reveal(laws_sealed);
    assert(x.spec_sub(y).spec_sub(z) == x.spec_sub(y).spec_add(z.spec_neg()));
    assert(x.spec_sub(y) == x.spec_add(y.spec_neg()));
    assert(s.spec_add(x.spec_add(y.spec_neg()).spec_add(z.spec_neg())) == s.spec_add(
        x.spec_add(y.spec_neg()),
    ).spec_add(z.spec_neg()));
    assert(s.spec_add(x.spec_add(y.spec_neg())) == s.spec_add(x).spec_add(y.spec_neg()));
    assert(s.spec_add(x).spec_add(y.spec_neg()) == s.spec_add(x).spec_sub(y));
    assert(s.spec_add(x).spec_sub(y).spec_add(z.spec_neg()) == s.spec_add(x).spec_sub(
        y,
    ).spec_sub(z));
}

/// A difference appended to a running sum.
pub(crate) proof fn lemma_append2_pos<T: Scalar>(s: T, u: T, v: T)
    requires
        laws_sealed::<T>(),
    ensures
        s.spec_add(u.spec_sub(v)) == s.spec_add(u).spec_sub(v),
{
    reveal(laws_sealed);
    assert(u.spec_sub(v) == u.spec_add(v.spec_neg()));
    assert(s.spec_add(u.spec_add(v.spec_neg())) == s.spec_add(u).spec_add(v.spec_neg()));
    assert(s.spec_add(u).spec_add(v.spec_neg()) == s.spec_add(u).spec_sub(v));
}

/// A difference subtracted from a running sum.
pub(crate) proof fn lemma_append2_neg<T: Scalar>(s: T, u: T, v: T)
    requires
        laws_sealed::<T>(),
    ensures
        s.spec_sub(u.spec_sub(v)) == s.spec_sub(u).spec_add(v),
{
    reveal(laws_sealed);
    assert(u.spec_sub(v) == u.spec_add(v.spec_neg()));
    assert(s.spec_sub(u.spec_add(v.spec_neg())) == s.spec_add(
        u.spec_add(v.spec_neg()).spec_neg(),
    ));
    assert(u.spec_add(v.spec_neg()).spec_neg() == u.spec_neg().spec_add(v.spec_neg().spec_neg()));
    assert(v.spec_neg().spec_neg() == v);
    assert(s.spec_add(u.spec_neg().spec_add(v)) == s.spec_add(u.spec_neg()).spec_add(v));
    assert(s.spec_add(u.spec_neg()) == s.spec_sub(u));
}

/// The last two summands of a chain exchanged: both added.
pub(crate) proof fn lemma_swap_aa<T: Scalar>(s: T, x: T, y: T)
    requires
        laws_sealed::<T>(),
    ensures
        s.spec_add(x).spec_add(y) == s.spec_add(y).spec_add(x),
{
    reveal(laws_sealed);
    assert(s.spec_add(x).spec_add(y) == s.spec_add(x.spec_add(y)));
    assert(x.spec_add(y) == y.spec_add(x));
    assert(s.spec_add(y.spec_add(x)) == s.spec_add(y).spec_add(x));
}

/// The last two summands of a chain exchanged: added, then subtracted.
pub(crate) proof fn lemma_swap_as<T: Scalar>(s: T, x: T, y: T)
    requires
        laws_sealed::<T>(),
    ensures
        s.spec_add(x).spec_sub(y) == s.spec_sub(y).spec_add(x),
{
    reveal(laws_sealed);
    assert(s.spec_add(x).spec_sub(y) == s.spec_add(x).spec_add(y.spec_neg()));
    assert(s.spec_add(x).spec_add(y.spec_neg()) == s.spec_add(y.spec_neg()).spec_add(x)) by {
        assert(s.spec_add(x).spec_add(y.spec_neg()) == s.spec_add(x.spec_add(y.spec_neg())));
        assert(x.spec_add(y.spec_neg()) == y.spec_neg().spec_add(x));
        assert(s.spec_add(y.spec_neg().spec_add(x)) == s.spec_add(y.spec_neg()).spec_add(x));
    }
    assert(s.spec_add(y.spec_neg()) == s.spec_sub(y));
}

/// The last two summands of a chain exchanged: subtracted, then added.
pub(crate) proof fn lemma_swap_sa<T: Scalar>(s: T, x: T, y: T)
    requires
        laws_sealed::<T>(),
    ensures
        s.spec_sub(x).spec_add(y) == s.spec_add(y).spec_sub(x),
{
    lemma_swap_as(s, y, x);
}

/// The last two summands of a chain exchanged: both subtracted.
pub(crate) proof fn lemma_swap_ss<T: Scalar>(s: T, x: T, y: T)
    requires
        laws_sealed::<T>(),
    ensures
        s.spec_sub(x).spec_sub(y) == s.spec_sub(y).spec_sub(x),
{
    reveal(laws_sealed);
    assert(s.spec_sub(x).spec_sub(y) == s.spec_add(x.spec_neg()).spec_add(y.spec_neg()));
    assert(s.spec_add(x.spec_neg()).spec_add(y.spec_neg()) == s.spec_add(y.spec_neg()).spec_add(
        x.spec_neg(),
    )) by {
        assert(s.spec_add(x.spec_neg()).spec_add(y.spec_neg()) == s.spec_add(
            x.spec_neg().spec_add(y.spec_neg()),
        ));
        assert(x.spec_neg().spec_add(y.spec_neg()) == y.spec_neg().spec_add(x.spec_neg()));
        assert(s.spec_add(y.spec_neg().spec_add(x.spec_neg())) == s.spec_add(
            y.spec_neg(),
        ).spec_add(x.spec_neg()));
    }
    assert(s.spec_add(y.spec_neg()) == s.spec_sub(y));
    assert(s.spec_sub(y).spec_add(x.spec_neg()) == s.spec_sub(y).spec_sub(x));
}

/// A difference with a common right factor, expanded.
pub(crate) proof fn lemma_expand_minor_prod<T: Scalar>(x: T, y: T, b: T)
    requires
        laws_sealed::<T>(),
    ensures
        x.spec_sub(y).spec_mul(b) == x.spec_mul(b).spec_sub(y.spec_mul(b)),
{
    reveal(laws_sealed);
    assert(x.spec_sub(y) == x.spec_add(y.spec_neg()));
    assert(x.spec_add(y.spec_neg()).spec_mul(b) == x.spec_mul(b).spec_add(
        y.spec_neg().spec_mul(b),
    ));
    assert(y.spec_neg().spec_mul(b) == y.spec_mul(b).spec_neg());
    assert(x.spec_mul(b).spec_add(y.spec_mul(b).spec_neg()) == x.spec_mul(b).spec_sub(
        y.spec_mul(b),
    ));
}

/// A factor distributed over a difference.
pub(crate) proof fn lemma_distrib2<T: Scalar>(f: T, x: T, y: T)
    requires
        laws_sealed::<T>(),
    ensures
        f.spec_mul(x.spec_sub(y)) == f.spec_mul(x).spec_sub(f.spec_mul(y)),
{
    reveal(laws_sealed);
    assert(x.spec_sub(y) == x.spec_add(y.spec_neg()));
    assert(f.spec_mul(x.spec_add(y.spec_neg())) == f.spec_mul(x).spec_add(
        f.spec_mul(y.spec_neg()),
    ));
    assert(f.spec_mul(y.spec_neg()) == f.spec_mul(y).spec_neg());
    assert(f.spec_mul(x).spec_add(f.spec_mul(y).spec_neg()) == f.spec_mul(x).spec_sub(
        f.spec_mul(y),
    ));
}

/// Both orders of a sum of two terms.
pub(crate) proof fn lemma_add_comm<T: Scalar>(x: T, y: T)
    requires
        laws_sealed::<T>(),
    ensures
        x.spec_add(y) == y.spec_add(x),
{
    reveal(laws_sealed);
}

/// An added and then subtracted equal pair of summands vanishes.
pub(crate) proof fn lemma_cancel_adj<T: Scalar>(s: T, x: T)
    requires
        laws_sealed::<T>(),
    ensures
        s.spec_add(x).spec_sub(x) == s,
{
    reveal(laws_sealed);
    assert(s.spec_add(x).spec_sub(x) == s.spec_add(x).spec_add(x.spec_neg()));
    assert(s.spec_add(x).spec_add(x.spec_neg()) == s.spec_add(x.spec_add(x.spec_neg())));
    assert(x.spec_add(x.spec_neg()) == T::spec_zero());
    assert(s.spec_add(T::spec_zero()) == s);
}

/// A value minus itself is the additive identity.
pub(crate) proof fn lemma_self_cancel<T: Scalar>(x: T)
    requires
        laws_sealed::<T>(),
    ensures
        x.spec_sub(x) == T::spec_zero(),
{
    reveal(laws_sealed);
    assert(x.spec_sub(x) == x.spec_add(x.spec_neg()));
}

/// The additive identity times anything is the additive identity.
pub(crate) proof fn lemma_zero_mul<T: Scalar>(d: T)
    requires
        laws_sealed::<T>(),
    ensures
        T::spec_zero().spec_mul(d) == T::spec_zero(),
{
    reveal(laws_sealed);
}

/// The row-by-row side of the cofactor sum as a balanced grid of signed
/// terms.
#[verifier::rlimit(100)]
#[verifier::spinoff_prover]
proof fn lemma_rows_to_grid<T: Scalar>(
    m12: T,
    m13: T,
    m14: T,
    m15: T,
    m22: T,
    m23: T,
    m24: T,
    m25: T,
    m32: T,
    m33: T,
    m34: T,
    m35: T,
    m42: T,
    m43: T,
    m44: T,
    m45: T,
)
    requires
        laws_sealed::<T>(),
    ensures
        m22.spec_sub(m23).spec_sub(m24).spec_add(m25).spec_add(m32.spec_sub(m33).spec_sub(m34).spec_add(m35)).spec_sub(m12.spec_sub(m13).spec_sub(m14).spec_add(m15)).spec_sub(m42.spec_sub(m43).spec_sub(m44).spec_add(m45)) == m12.spec_neg().spec_add(m13).spec_add(m14.spec_add(m15.spec_neg())).spec_add(m22.spec_add(m23.spec_neg()).spec_add(m24.spec_neg().spec_add(m25))).spec_add(m32.spec_add(m33.spec_neg()).spec_add(m34.spec_neg().spec_add(m35)).spec_add(m42.spec_neg().spec_add(m43).spec_add(m44.spec_add(m45.spec_neg())))),
{
    let ar1 = m12.spec_neg().spec_add(m13).spec_add(m14.spec_add(m15.spec_neg()));
    let ar2 = m22.spec_add(m23.spec_neg()).spec_add(m24.spec_neg().spec_add(m25));
    let ar3 = m32.spec_add(m33.spec_neg()).spec_add(m34.spec_neg().spec_add(m35));
    let ar4 = m42.spec_neg().spec_add(m43).spec_add(m44.spec_add(m45.spec_neg()));
    lemma_chain_to_tree(m22, m23, m24, m25);
    lemma_chain_to_tree(m32, m33, m34, m35);
    lemma_neg_chain_to_tree(m12, m13, m14, m15);
    lemma_neg_chain_to_tree(m42, m43, m44, m45);
    lemma_side_regroup(m12.spec_sub(m13).spec_sub(m14).spec_add(m15), m22.spec_sub(m23).spec_sub(m24).spec_add(m25), m32.spec_sub(m33).spec_sub(m34).spec_add(m35), m42.spec_sub(m43).spec_sub(m44).spec_add(m45));
    assert(m22.spec_sub(m23).spec_sub(m24).spec_add(m25).spec_add(m32.spec_sub(m33).spec_sub(m34).spec_add(m35)).spec_sub(m12.spec_sub(m13).spec_sub(m14).spec_add(m15)).spec_sub(m42.spec_sub(m43).spec_sub(m44).spec_add(m45)) == ar2.spec_add(ar3).spec_add(ar1.spec_add(ar4)));
    lemma_reorder4(ar1, ar2, ar3, ar4);
}

/// The column-by-column side of the cofactor sum as a balanced grid of
/// signed terms.
#[verifier::rlimit(100)]
#[verifier::spinoff_prover]
proof fn lemma_cols_to_grid<T: Scalar>(
    m12: T,
    m13: T,
    m14: T,
    m15: T,
    m22: T,
    m23: T,
    m24: T,
    m25: T,
    m32: T,
    m33: T,
    m34: T,
    m35: T,
    m42: T,
    m43: T,
    m44: T,
    m45: T,
)
    requires
        laws_sealed::<T>(),
    ensures
        m13.spec_sub(m23).spec_sub(m33).spec_add(m43).spec_add(m14.spec_sub(m24).spec_sub(m34).spec_add(m44)).spec_sub(m12.spec_sub(m22).spec_sub(m32).spec_add(m42)).spec_sub(m15.spec_sub(m25).spec_sub(m35).spec_add(m45)) == m12.spec_neg().spec_add(m22).spec_add(m32.spec_add(m42.spec_neg())).spec_add(m13.spec_add(m23.spec_neg()).spec_add(m33.spec_neg().spec_add(m43))).spec_add(m14.spec_add(m24.spec_neg()).spec_add(m34.spec_neg().spec_add(m44)).spec_add(m15.spec_neg().spec_add(m25).spec_add(m35.spec_add(m45.spec_neg())))),
{
    let ac2 = m12.spec_neg().spec_add(m22).spec_add(m32.spec_add(m42.spec_neg()));
    let ac3 = m13.spec_add(m23.spec_neg()).spec_add(m33.spec_neg().spec_add(m43));
    let ac4 = m14.spec_add(m24.spec_neg()).spec_add(m34.spec_neg().spec_add(m44));
    let ac5 = m15.spec_neg().spec_add(m25).spec_add(m35.spec_add(m45.spec_neg()));
    lemma_chain_to_tree(m13, m23, m33, m43);
    lemma_chain_to_tree(m14, m24, m34, m44);
    lemma_neg_chain_to_tree(m12, m22, m32, m42);
    lemma_neg_chain_to_tree(m15, m25, m35, m45);
    lemma_side_regroup(m12.spec_sub(m22).spec_sub(m32).spec_add(m42), m13.spec_sub(m23).spec_sub(m33).spec_add(m43), m14.spec_sub(m24).spec_sub(m34).spec_add(m44), m15.spec_sub(m25).spec_sub(m35).spec_add(m45));
    assert(m13.spec_sub(m23).spec_sub(m33).spec_add(m43).spec_add(m14.spec_sub(m24).spec_sub(m34).spec_add(m44)).spec_sub(m12.spec_sub(m22).spec_sub(m32).spec_add(m42)).spec_sub(m15.spec_sub(m25).spec_sub(m35).spec_add(m45)) == ac3.spec_add(ac4).spec_add(ac2.spec_add(ac5)));
    lemma_reorder4(ac2, ac3, ac4, ac5);
}

/// A balanced four-by-four grid of signed terms summed row by row equals
/// the same grid summed column by column.
#[verifier::rlimit(100)]
#[verifier::spinoff_prover]
proof fn lemma_grid_interchange<T: Scalar>(
    m12: T,
    m13: T,
    m14: T,
    m15: T,
    m22: T,
    m23: T,
    m24: T,
    m25: T,
    m32: T,
    m33: T,
    m34: T,
    m35: T,
    m42: T,
    m43: T,
    m44: T,
    m45: T,
)
    requires
        laws_sealed::<T>(),
    ensures
        m12.spec_neg().spec_add(m13).spec_add(m14.spec_add(m15.spec_neg())).spec_add(m22.spec_add(m23.spec_neg()).spec_add(m24.spec_neg().spec_add(m25))).spec_add(m32.spec_add(m33.spec_neg()).spec_add(m34.spec_neg().spec_add(m35)).spec_add(m42.spec_neg().spec_add(m43).spec_add(m44.spec_add(m45.spec_neg())))) == m12.spec_neg().spec_add(m22).spec_add(m32.spec_add(m42.spec_neg())).spec_add(m13.spec_add(m23.spec_neg()).spec_add(m33.spec_neg().spec_add(m43))).spec_add(m14.spec_add(m24.spec_neg()).spec_add(m34.spec_neg().spec_add(m44)).spec_add(m15.spec_neg().spec_add(m25).spec_add(m35.spec_add(m45.spec_neg())))),
{
    let rl1 = m12.spec_neg().spec_add(m13);
    let rr1 = m14.spec_add(m15.spec_neg());
    let rl2 = m22.spec_add(m23.spec_neg());
    let rr2 = m24.spec_neg().spec_add(m25);
    let rl3 = m32.spec_add(m33.spec_neg());
    let rr3 = m34.spec_neg().spec_add(m35);
    let rl4 = m42.spec_neg().spec_add(m43);
    let rr4 = m44.spec_add(m45.spec_neg());
    lemma_interchange2(rl1, rr1, rl2, rr2);
    lemma_interchange2(rl3, rr3, rl4, rr4);
    lemma_interchange2(rl1.spec_add(rl2), rr1.spec_add(rr2), rl3.spec_add(rl4), rr3.spec_add(rr4));
    lemma_interchange2(m12.spec_neg(), m13, m22, m23.spec_neg());
    lemma_interchange2(m32, m33.spec_neg(), m42.spec_neg(), m43);
    lemma_interchange2(m12.spec_neg().spec_add(m22), m13.spec_add(m23.spec_neg()), m32.spec_add(m42.spec_neg()), m33.spec_neg().spec_add(m43));
    lemma_interchange2(m14, m15.spec_neg(), m24.spec_neg(), m25);
    lemma_interchange2(m34.spec_neg(), m35, m44, m45.spec_neg());
    lemma_interchange2(m14.spec_add(m24.spec_neg()), m15.spec_neg().spec_add(m25), m34.spec_neg().spec_add(m44), m35.spec_add(m45.spec_neg()));
}

/// A four-by-four array of terms summed row by row equals the same array
/// summed column by column, with the shared sign pattern of the cofactor
/// expansion.
proof fn lemma_sum_interchange<T: Scalar>(
    m12: T,
    m13: T,
    m14: T,
    m15: T,
    m22: T,
    m23: T,
    m24: T,
    m25: T,
    m32: T,
    m33: T,
    m34: T,
    m35: T,
    m42: T,
    m43: T,
    m44: T,
    m45: T,
)
    requires
        laws_sealed::<T>(),
    ensures
        m22.spec_sub(m23).spec_sub(m24).spec_add(m25).spec_add(m32.spec_sub(m33).spec_sub(m34).spec_add(m35)).spec_sub(m12.spec_sub(m13).spec_sub(m14).spec_add(m15)).spec_sub(m42.spec_sub(m43).spec_sub(m44).spec_add(m45)) == m13.spec_sub(m23).spec_sub(m33).spec_add(m43).spec_add(m14.spec_sub(m24).spec_sub(m34).spec_add(m44)).spec_sub(m12.spec_sub(m22).spec_sub(m32).spec_add(m42)).spec_sub(m15.spec_sub(m25).spec_sub(m35).spec_add(m45)),
{
    lemma_rows_to_grid(m12, m13, m14, m15, m22, m23, m24, m25, m32, m33, m34, m35, m42, m43, m44, m45);
    lemma_cols_to_grid(m12, m13, m14, m15, m22, m23, m24, m25, m32, m33, m34, m35, m42, m43, m44, m45);
    lemma_grid_interchange(m12, m13, m14, m15, m22, m23, m24, m25, m32, m33, m34, m35, m42, m43, m44, m45);
}

/// Two determinant-shaped chains with equal middle sums and equal ends are
/// equal.
proof fn lemma_chain_middle<T: Scalar>(
    h: T, x2: T, x3: T, x4: T, x5: T, y2: T, y3: T, y4: T, y5: T, tl: T,
)
    requires
        laws_sealed::<T>(),
        x3.spec_add(x4).spec_sub(x2).spec_sub(x5) == y3.spec_add(y4).spec_sub(y2).spec_sub(y5),
    ensures
        h.spec_sub(x2).spec_add(x3).spec_add(x4).spec_sub(x5).spec_add(tl) == h.spec_sub(
            y2,
        ).spec_add(y3).spec_add(y4).spec_sub(y5).spec_add(tl),
{
    reveal(laws_sealed);
}

/// The cofactor expansion of the transpose, term by term: the corner minor
/// products agree up to commutation, and the four middle products expand
/// into the same sixteen monomials, paired the other way around.
#[verifier::rlimit(100)]
#[verifier::spinoff_prover]
proof fn lemma_det_transpose_sealed<T: Scalar>(a: Seq<T>)
    requires
        a.len() == 16,
        laws_sealed::<T>(),
    ensures
        det_seq(transpose_seq(a)) == det_seq(a),
{
    let t = transpose_seq(a);
    assert(t[0] == a[0]);
    assert(t[1] == a[4]);
    assert(t[2] == a[8]);
    assert(t[3] == a[12]);
    assert(t[4] == a[1]);
    assert(t[5] == a[5]);
    assert(t[6] == a[9]);
    assert(t[7] == a[13]);
    assert(t[8] == a[2]);
    assert(t[9] == a[6]);
    assert(t[10] == a[10]);
    assert(t[11] == a[14]);
    assert(t[12] == a[3]);
    assert(t[13] == a[7]);
    assert(t[14] == a[11]);
    assert(t[15] == a[15]);
    let m12 = a[0].spec_mul(a[6]).spec_mul(a[9].spec_mul(a[15]));
    let m13 = a[0].spec_mul(a[7]).spec_mul(a[9].spec_mul(a[14]));
    let m14 = a[1].spec_mul(a[6]).spec_mul(a[8].spec_mul(a[15]));
    let m15 = a[1].spec_mul(a[7]).spec_mul(a[8].spec_mul(a[14]));
    let m22 = a[0].spec_mul(a[6]).spec_mul(a[11].spec_mul(a[13]));
    let m23 = a[0].spec_mul(a[7]).spec_mul(a[10].spec_mul(a[13]));
    let m24 = a[1].spec_mul(a[6]).spec_mul(a[11].spec_mul(a[12]));
    let m25 = a[1].spec_mul(a[7]).spec_mul(a[10].spec_mul(a[12]));
    let m32 = a[2].spec_mul(a[4]).spec_mul(a[9].spec_mul(a[15]));
    let m33 = a[3].spec_mul(a[4]).spec_mul(a[9].spec_mul(a[14]));
    let m34 = a[2].spec_mul(a[5]).spec_mul(a[8].spec_mul(a[15]));
    let m35 = a[3].spec_mul(a[5]).spec_mul(a[8].spec_mul(a[14]));
    let m42 = a[2].spec_mul(a[4]).spec_mul(a[11].spec_mul(a[13]));
    let m43 = a[3].spec_mul(a[4]).spec_mul(a[10].spec_mul(a[13]));
    let m44 = a[2].spec_mul(a[5]).spec_mul(a[11].spec_mul(a[12]));
    let m45 = a[3].spec_mul(a[5]).spec_mul(a[10].spec_mul(a[12]));
    lemma_minor_swap(a[0], a[5], a[1], a[4]);
    lemma_minor_swap(a[10], a[15], a[11], a[14]);
    lemma_minor_swap(a[8], a[13], a[9], a[12]);
    lemma_minor_swap(a[2], a[7], a[3], a[6]);
    assert(minor2(t, 0, 5, 1, 4) == minor2(a, 0, 5, 1, 4));
    assert(minor2(t, 10, 15, 11, 14) == minor2(a, 10, 15, 11, 14));
    assert(minor2(t, 2, 7, 3, 6) == minor2(a, 8, 13, 9, 12));
    assert(minor2(t, 8, 13, 9, 12) == minor2(a, 2, 7, 3, 6));
    lemma_mul_comm(minor2(a, 8, 13, 9, 12), minor2(a, 2, 7, 3, 6));
    assert(minor2(t, 2, 7, 3, 6).spec_mul(minor2(t, 8, 13, 9, 12)) == minor2(a, 2, 7, 3, 6).spec_mul(minor2(a, 8, 13, 9, 12)));
    lemma_expand_product(a[0].spec_mul(a[6]), a[2].spec_mul(a[4]), a[9].spec_mul(a[15]), a[11].spec_mul(a[13]));
    lemma_expand_product(a[0].spec_mul(a[7]), a[3].spec_mul(a[4]), a[9].spec_mul(a[14]), a[10].spec_mul(a[13]));
    lemma_expand_product(a[1].spec_mul(a[6]), a[2].spec_mul(a[5]), a[8].spec_mul(a[15]), a[11].spec_mul(a[12]));
    lemma_expand_product(a[1].spec_mul(a[7]), a[3].spec_mul(a[5]), a[8].spec_mul(a[14]), a[10].spec_mul(a[12]));
    lemma_expand_product(a[0].spec_mul(a[9]), a[8].spec_mul(a[1]), a[6].spec_mul(a[15]), a[14].spec_mul(a[7]));
    lemma_expand_product(a[0].spec_mul(a[13]), a[12].spec_mul(a[1]), a[6].spec_mul(a[11]), a[10].spec_mul(a[7]));
    lemma_expand_product(a[4].spec_mul(a[9]), a[8].spec_mul(a[5]), a[2].spec_mul(a[15]), a[14].spec_mul(a[3]));
    lemma_expand_product(a[4].spec_mul(a[13]), a[12].spec_mul(a[5]), a[2].spec_mul(a[11]), a[10].spec_mul(a[3]));
    lemma_mul4_rearrange(a[0], a[9], a[6], a[15]);
    lemma_mul4_rearrange(a[0], a[9], a[14], a[7]);
    lemma_mul4_rearrange(a[8], a[1], a[6], a[15]);
    lemma_mul4_rearrange(a[8], a[1], a[14], a[7]);
    lemma_mul4_rearrange(a[0], a[13], a[6], a[11]);
    lemma_mul_comm(a[13], a[11]);
    lemma_mul4_rearrange(a[0], a[13], a[10], a[7]);
    lemma_mul_comm(a[13], a[10]);
    lemma_mul4_rearrange(a[12], a[1], a[6], a[11]);
    lemma_mul_comm(a[12], a[11]);
    lemma_mul4_rearrange(a[12], a[1], a[10], a[7]);
    lemma_mul_comm(a[12], a[10]);
    lemma_mul4_rearrange(a[4], a[9], a[2], a[15]);
    lemma_mul_comm(a[4], a[2]);
    lemma_mul4_rearrange(a[4], a[9], a[14], a[3]);
    lemma_mul_comm(a[4], a[3]);
    lemma_mul4_rearrange(a[8], a[5], a[2], a[15]);
    lemma_mul_comm(a[5], a[2]);
    lemma_mul4_rearrange(a[8], a[5], a[14], a[3]);
    lemma_mul_comm(a[5], a[3]);
    lemma_mul4_rearrange(a[4], a[13], a[2], a[11]);
    lemma_mul_comm(a[4], a[2]);
    lemma_mul_comm(a[13], a[11]);
    lemma_mul4_rearrange(a[4], a[13], a[10], a[3]);
    lemma_mul_comm(a[4], a[3]);
    lemma_mul_comm(a[13], a[10]);
    lemma_mul4_rearrange(a[12], a[5], a[2], a[11]);
    lemma_mul_comm(a[5], a[2]);
    lemma_mul_comm(a[12], a[11]);
    lemma_mul4_rearrange(a[12], a[5], a[10], a[3]);
    lemma_mul_comm(a[5], a[3]);
    lemma_mul_comm(a[12], a[10]);
    assert(minor2(t, 0, 6, 2, 4).spec_mul(minor2(t, 9, 15, 11, 13)) == m12.spec_sub(m13).spec_sub(m14).spec_add(m15));
    assert(minor2(t, 0, 7, 3, 4).spec_mul(minor2(t, 9, 14, 10, 13)) == m22.spec_sub(m23).spec_sub(m24).spec_add(m25));
    assert(minor2(t, 1, 6, 2, 5).spec_mul(minor2(t, 8, 15, 11, 12)) == m32.spec_sub(m33).spec_sub(m34).spec_add(m35));
    assert(minor2(t, 1, 7, 3, 5).spec_mul(minor2(t, 8, 14, 10, 12)) == m42.spec_sub(m43).spec_sub(m44).spec_add(m45));
    assert(minor2(a, 0, 6, 2, 4).spec_mul(minor2(a, 9, 15, 11, 13)) == m12.spec_sub(m22).spec_sub(m32).spec_add(m42));
    assert(minor2(a, 0, 7, 3, 4).spec_mul(minor2(a, 9, 14, 10, 13)) == m13.spec_sub(m23).spec_sub(m33).spec_add(m43));
    assert(minor2(a, 1, 6, 2, 5).spec_mul(minor2(a, 8, 15, 11, 12)) == m14.spec_sub(m24).spec_sub(m34).spec_add(m44));
    assert(minor2(a, 1, 7, 3, 5).spec_mul(minor2(a, 8, 14, 10, 12)) == m15.spec_sub(m25).spec_sub(m35).spec_add(m45));
    lemma_sum_interchange(m12, m13, m14, m15, m22, m23, m24, m25, m32, m33, m34, m35, m42, m43, m44, m45);
    lemma_chain_middle(
        minor2(t, 0, 5, 1, 4).spec_mul(minor2(t, 10, 15, 11, 14)),
        minor2(t, 0, 6, 2, 4).spec_mul(minor2(t, 9, 15, 11, 13)),
        minor2(t, 0, 7, 3, 4).spec_mul(minor2(t, 9, 14, 10, 13)),
        minor2(t, 1, 6, 2, 5).spec_mul(minor2(t, 8, 15, 11, 12)),
        minor2(t, 1, 7, 3, 5).spec_mul(minor2(t, 8, 14, 10, 12)),
        minor2(a, 0, 6, 2, 4).spec_mul(minor2(a, 9, 15, 11, 13)),
        minor2(a, 0, 7, 3, 4).spec_mul(minor2(a, 9, 14, 10, 13)),
        minor2(a, 1, 6, 2, 5).spec_mul(minor2(a, 8, 15, 11, 12)),
        minor2(a, 1, 7, 3, 5).spec_mul(minor2(a, 8, 14, 10, 12)),
        minor2(t, 2, 7, 3, 6).spec_mul(minor2(t, 8, 13, 9, 12)),
    );
    assert(det_seq(t) == det_seq(a));
}

/// The determinant is invariant under transposition, for every matrix over
/// an element type whose commutative-ring laws hold.
pub proof fn lemma_determinant_transpose<T: Scalar>(a: Seq<T>)
    requires
        a.len() == 16,
        ring_laws::<T>(),
    ensures
        det_seq(transpose_seq(a)) == det_seq(a),
{
    lemma_seal_laws::<T>();
    lemma_det_transpose_sealed(a);
}

/// The position survives the TRS round trip exactly: the translation column
/// of the composed matrix, which decomposition reads back as the position,
/// is the original position, for every element type.  The scale and
/// rotation components come back only within floating tolerance, through
/// square roots and divisions, and are checked by tests rather than proved.
pub proof fn lemma_compose_position_round_trip<T: Scalar>(
    position: Seq<T>,
    scale: Seq<T>,
    rotation: Seq<T>,
)
    requires
        position.len() == 3,
        scale.len() == 3,
        rotation.len() == 4,
    ensures
        seq![
            compose_seq(position, scale, rotation)[12],
            compose_seq(position, scale, rotation)[13],
            compose_seq(position, scale, rotation)[14],
        ] == position,
{
    assert(seq![
        compose_seq(position, scale, rotation)[12],
        compose_seq(position, scale, rotation)[13],
        compose_seq(position, scale, rotation)[14],
    ] =~= position);
}

/// For every matrix whose determinant is not the additive identity, the
/// inverse times the original matrix is exactly the identity matrix, on
/// both sides, over an element type whose field laws hold.
pub proof fn lemma_inverse_mul<T: Scalar>(a: Seq<T>)
    requires
        a.len() == 16,
        field_laws::<T>(),
        !det_seq(a).spec_is_zero(),
    ensures
        mul_seq(inverse_seq(a), a) == identity_seq::<T>(),
        mul_seq(a, inverse_seq(a)) == identity_seq::<T>(),
{
    lemma_seal_field_laws::<T>();
    crate::adjugate::lemma_inverse_mul_left_sealed(a);
    crate::adjugate::lemma_inverse_mul_right_sealed(a);
}
} // verus!
