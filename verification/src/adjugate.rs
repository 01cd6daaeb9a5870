//! The entry-by-entry proof that the adjugate construction inverts a
//! matrix: each element of the product of [`crate::model::inverse_seq`] with
//! the original matrix is the corresponding element of the identity matrix,
//! over an element type whose field laws hold.
//!
//! A diagonal element collects the twelve adjugate terms into the cofactor
//! expansion of the determinant, which the reciprocal of the determinant
//! then cancels; an off-diagonal element is a cofactor expansion along a
//! repeated column, whose monomials cancel in pairs.

use vstd::prelude::*;

use crate::laws::field_sealed;
use crate::laws::laws_sealed;
use crate::laws::lemma_add_comm;
use crate::laws::lemma_append2_neg;
use crate::laws::lemma_append2_pos;
use crate::laws::lemma_append3_pmm;
use crate::laws::lemma_append3_pmp;
use crate::laws::lemma_cancel_adj;
use crate::laws::lemma_distrib2;
use crate::laws::lemma_distrib3_pmm;
use crate::laws::lemma_distrib3_pmp;
use crate::laws::lemma_expand_minor_prod;
use crate::laws::lemma_factor4;
use crate::laws::lemma_field_gives_ring;
use crate::laws::lemma_mul4_rearrange;
use crate::laws::lemma_mul_assoc;
use crate::laws::lemma_mul_comm;
use crate::laws::lemma_recip;
use crate::laws::lemma_self_cancel;
use crate::laws::lemma_swap_aa;
use crate::laws::lemma_swap_as;
use crate::laws::lemma_swap_sa;
use crate::laws::lemma_swap_ss;
use crate::laws::lemma_zero_mul;
use crate::model::det_seq;
use crate::model::inverse_seq;
use crate::model::identity_seq;
use crate::model::minor2;
use crate::model::mul_seq;
use crate::scalar::Scalar;

verus! {

proof fn lemma_inv_chain0<T: Scalar>(p1: T, p2: T, p3: T, p4: T, p5: T, p6: T, p7: T, p8: T, p9: T, p10: T, p11: T, p12: T)
    requires
        laws_sealed::<T>(),
    ensures
        p1.spec_sub(p2).spec_add(p3).spec_add(p4).spec_sub(p5).spec_sub(p6).spec_add(p7).spec_sub(p8).spec_add(p9).spec_add(p10).spec_sub(p11).spec_sub(p12) == p1.spec_sub(p5).spec_sub(p2).spec_add(p7).spec_add(p3).spec_sub(p11).spec_add(p4).spec_sub(p8).spec_sub(p6).spec_add(p10).spec_add(p9).spec_sub(p12),
{
    lemma_swap_as(p1.spec_sub(p2).spec_add(p3), p4, p5);
    lemma_swap_as(p1.spec_sub(p2), p3, p5);
    lemma_swap_ss(p1, p2, p5);
    lemma_swap_sa(p1.spec_sub(p5).spec_sub(p2).spec_add(p3).spec_add(p4), p6, p7);
    lemma_swap_aa(p1.spec_sub(p5).spec_sub(p2).spec_add(p3), p4, p7);
    lemma_swap_aa(p1.spec_sub(p5).spec_sub(p2), p3, p7);
    lemma_swap_as(p1.spec_sub(p5).spec_sub(p2).spec_add(p7).spec_add(p3).spec_add(p4).spec_sub(p6).spec_sub(p8).spec_add(p9), p10, p11);
    lemma_swap_as(p1.spec_sub(p5).spec_sub(p2).spec_add(p7).spec_add(p3).spec_add(p4).spec_sub(p6).spec_sub(p8), p9, p11);
    lemma_swap_ss(p1.spec_sub(p5).spec_sub(p2).spec_add(p7).spec_add(p3).spec_add(p4).spec_sub(p6), p8, p11);
    lemma_swap_ss(p1.spec_sub(p5).spec_sub(p2).spec_add(p7).spec_add(p3).spec_add(p4), p6, p11);
    lemma_swap_as(p1.spec_sub(p5).spec_sub(p2).spec_add(p7).spec_add(p3), p4, p11);
    lemma_swap_ss(p1.spec_sub(p5).spec_sub(p2).spec_add(p7).spec_add(p3).spec_sub(p11).spec_add(p4), p6, p8);
    lemma_swap_aa(p1.spec_sub(p5).spec_sub(p2).spec_add(p7).spec_add(p3).spec_sub(p11).spec_add(p4).spec_sub(p8).spec_sub(p6), p9, p10);
}

pub(crate) proof fn lemma_inv_entry0<T: Scalar>(a: Seq<T>)
    requires
        a.len() == 16,
        field_sealed::<T>(),
        !det_seq(a).spec_is_zero(),
    ensures
        mul_seq(inverse_seq(a), a)[0] == T::spec_one(),
{
    lemma_field_gives_ring::<T>();
    let inv = inverse_seq(a);
    let inv_d = T::spec_one().spec_div(det_seq(a));
    let b00 = minor2(a, 0, 5, 1, 4);
    let b01 = minor2(a, 0, 6, 2, 4);
    let b02 = minor2(a, 0, 7, 3, 4);
    let b03 = minor2(a, 1, 6, 2, 5);
    let b04 = minor2(a, 1, 7, 3, 5);
    let b05 = minor2(a, 2, 7, 3, 6);
    let b06 = minor2(a, 8, 13, 9, 12);
    let b07 = minor2(a, 8, 14, 10, 12);
    let b08 = minor2(a, 8, 15, 11, 12);
    let b09 = minor2(a, 9, 14, 10, 13);
    let b10 = minor2(a, 9, 15, 11, 13);
    let b11 = minor2(a, 10, 15, 11, 14);
    assert(mul_seq(inv, a)[0] == a[0].spec_mul(inv[0]).spec_add(a[1].spec_mul(inv[4])).spec_add(a[2].spec_mul(inv[8])).spec_add(a[3].spec_mul(inv[12])));
    assert(inv[0] == a[5].spec_mul(b11).spec_sub(a[6].spec_mul(b10)).spec_add(a[7].spec_mul(b09)).spec_mul(inv_d));
    assert(inv[4] == a[6].spec_mul(b08).spec_sub(a[4].spec_mul(b11)).spec_sub(a[7].spec_mul(b07)).spec_mul(inv_d));
    assert(inv[8] == a[4].spec_mul(b10).spec_sub(a[5].spec_mul(b08)).spec_add(a[7].spec_mul(b06)).spec_mul(inv_d));
    assert(inv[12] == a[5].spec_mul(b07).spec_sub(a[4].spec_mul(b09)).spec_sub(a[6].spec_mul(b06)).spec_mul(inv_d));
    lemma_mul_assoc(a[0], a[5].spec_mul(b11).spec_sub(a[6].spec_mul(b10)).spec_add(a[7].spec_mul(b09)), inv_d);
    lemma_mul_assoc(a[1], a[6].spec_mul(b08).spec_sub(a[4].spec_mul(b11)).spec_sub(a[7].spec_mul(b07)), inv_d);
    lemma_mul_assoc(a[2], a[4].spec_mul(b10).spec_sub(a[5].spec_mul(b08)).spec_add(a[7].spec_mul(b06)), inv_d);
    lemma_mul_assoc(a[3], a[5].spec_mul(b07).spec_sub(a[4].spec_mul(b09)).spec_sub(a[6].spec_mul(b06)), inv_d);
    lemma_factor4(
        a[0].spec_mul(a[5].spec_mul(b11).spec_sub(a[6].spec_mul(b10)).spec_add(a[7].spec_mul(b09))),
        a[1].spec_mul(a[6].spec_mul(b08).spec_sub(a[4].spec_mul(b11)).spec_sub(a[7].spec_mul(b07))),
        a[2].spec_mul(a[4].spec_mul(b10).spec_sub(a[5].spec_mul(b08)).spec_add(a[7].spec_mul(b06))),
        a[3].spec_mul(a[5].spec_mul(b07).spec_sub(a[4].spec_mul(b09)).spec_sub(a[6].spec_mul(b06))),
        inv_d,
    );
    lemma_distrib3_pmp(a[0], a[5].spec_mul(b11), a[6].spec_mul(b10), a[7].spec_mul(b09));
    lemma_mul_assoc(a[0], a[5], b11);
    lemma_mul_assoc(a[0], a[6], b10);
    lemma_mul_assoc(a[0], a[7], b09);
    lemma_distrib3_pmm(a[1], a[6].spec_mul(b08), a[4].spec_mul(b11), a[7].spec_mul(b07));
    lemma_mul_assoc(a[1], a[6], b08);
    lemma_mul_assoc(a[1], a[4], b11);
    lemma_mul_assoc(a[1], a[7], b07);
    lemma_distrib3_pmp(a[2], a[4].spec_mul(b10), a[5].spec_mul(b08), a[7].spec_mul(b06));
    lemma_mul_assoc(a[2], a[4], b10);
    lemma_mul_assoc(a[2], a[5], b08);
    lemma_mul_assoc(a[2], a[7], b06);
    lemma_distrib3_pmm(a[3], a[5].spec_mul(b07), a[4].spec_mul(b09), a[6].spec_mul(b06));
    lemma_mul_assoc(a[3], a[5], b07);
    lemma_mul_assoc(a[3], a[4], b09);
    lemma_mul_assoc(a[3], a[6], b06);
    lemma_append3_pmm(
        a[0].spec_mul(a[5]).spec_mul(b11).spec_sub(a[0].spec_mul(a[6]).spec_mul(b10)).spec_add(a[0].spec_mul(a[7]).spec_mul(b09)),
        a[1].spec_mul(a[6]).spec_mul(b08),
        a[1].spec_mul(a[4]).spec_mul(b11),
        a[1].spec_mul(a[7]).spec_mul(b07),
    );
    lemma_append3_pmp(
        a[0].spec_mul(a[5]).spec_mul(b11).spec_sub(a[0].spec_mul(a[6]).spec_mul(b10)).spec_add(a[0].spec_mul(a[7]).spec_mul(b09)).spec_add(a[1].spec_mul(a[6]).spec_mul(b08)).spec_sub(a[1].spec_mul(a[4]).spec_mul(b11)).spec_sub(a[1].spec_mul(a[7]).spec_mul(b07)),
        a[2].spec_mul(a[4]).spec_mul(b10),
        a[2].spec_mul(a[5]).spec_mul(b08),
        a[2].spec_mul(a[7]).spec_mul(b06),
    );
    lemma_append3_pmm(
        a[0].spec_mul(a[5]).spec_mul(b11).spec_sub(a[0].spec_mul(a[6]).spec_mul(b10)).spec_add(a[0].spec_mul(a[7]).spec_mul(b09)).spec_add(a[1].spec_mul(a[6]).spec_mul(b08)).spec_sub(a[1].spec_mul(a[4]).spec_mul(b11)).spec_sub(a[1].spec_mul(a[7]).spec_mul(b07)).spec_add(a[2].spec_mul(a[4]).spec_mul(b10)).spec_sub(a[2].spec_mul(a[5]).spec_mul(b08)).spec_add(a[2].spec_mul(a[7]).spec_mul(b06)),
        a[3].spec_mul(a[5]).spec_mul(b07),
        a[3].spec_mul(a[4]).spec_mul(b09),
        a[3].spec_mul(a[6]).spec_mul(b06),
    );
    lemma_expand_minor_prod(a[0].spec_mul(a[5]), a[1].spec_mul(a[4]), b11);
    lemma_expand_minor_prod(a[0].spec_mul(a[6]), a[2].spec_mul(a[4]), b10);
    lemma_append2_neg(
        a[0].spec_mul(a[5]).spec_mul(b11).spec_sub(a[1].spec_mul(a[4]).spec_mul(b11)),
        a[0].spec_mul(a[6]).spec_mul(b10),
        a[2].spec_mul(a[4]).spec_mul(b10),
    );
    lemma_expand_minor_prod(a[0].spec_mul(a[7]), a[3].spec_mul(a[4]), b09);
    lemma_append2_pos(
        a[0].spec_mul(a[5]).spec_mul(b11).spec_sub(a[1].spec_mul(a[4]).spec_mul(b11)).spec_sub(a[0].spec_mul(a[6]).spec_mul(b10)).spec_add(a[2].spec_mul(a[4]).spec_mul(b10)),
        a[0].spec_mul(a[7]).spec_mul(b09),
        a[3].spec_mul(a[4]).spec_mul(b09),
    );
    lemma_expand_minor_prod(a[1].spec_mul(a[6]), a[2].spec_mul(a[5]), b08);
    lemma_append2_pos(
        a[0].spec_mul(a[5]).spec_mul(b11).spec_sub(a[1].spec_mul(a[4]).spec_mul(b11)).spec_sub(a[0].spec_mul(a[6]).spec_mul(b10)).spec_add(a[2].spec_mul(a[4]).spec_mul(b10)).spec_add(a[0].spec_mul(a[7]).spec_mul(b09)).spec_sub(a[3].spec_mul(a[4]).spec_mul(b09)),
        a[1].spec_mul(a[6]).spec_mul(b08),
        a[2].spec_mul(a[5]).spec_mul(b08),
    );
    lemma_expand_minor_prod(a[1].spec_mul(a[7]), a[3].spec_mul(a[5]), b07);
    lemma_append2_neg(
        a[0].spec_mul(a[5]).spec_mul(b11).spec_sub(a[1].spec_mul(a[4]).spec_mul(b11)).spec_sub(a[0].spec_mul(a[6]).spec_mul(b10)).spec_add(a[2].spec_mul(a[4]).spec_mul(b10)).spec_add(a[0].spec_mul(a[7]).spec_mul(b09)).spec_sub(a[3].spec_mul(a[4]).spec_mul(b09)).spec_add(a[1].spec_mul(a[6]).spec_mul(b08)).spec_sub(a[2].spec_mul(a[5]).spec_mul(b08)),
        a[1].spec_mul(a[7]).spec_mul(b07),
        a[3].spec_mul(a[5]).spec_mul(b07),
    );
    lemma_expand_minor_prod(a[2].spec_mul(a[7]), a[3].spec_mul(a[6]), b06);
    lemma_append2_pos(
        a[0].spec_mul(a[5]).spec_mul(b11).spec_sub(a[1].spec_mul(a[4]).spec_mul(b11)).spec_sub(a[0].spec_mul(a[6]).spec_mul(b10)).spec_add(a[2].spec_mul(a[4]).spec_mul(b10)).spec_add(a[0].spec_mul(a[7]).spec_mul(b09)).spec_sub(a[3].spec_mul(a[4]).spec_mul(b09)).spec_add(a[1].spec_mul(a[6]).spec_mul(b08)).spec_sub(a[2].spec_mul(a[5]).spec_mul(b08)).spec_sub(a[1].spec_mul(a[7]).spec_mul(b07)).spec_add(a[3].spec_mul(a[5]).spec_mul(b07)),
        a[2].spec_mul(a[7]).spec_mul(b06),
        a[3].spec_mul(a[6]).spec_mul(b06),
    );
    lemma_inv_chain0(
        a[0].spec_mul(a[5]).spec_mul(b11),
        a[0].spec_mul(a[6]).spec_mul(b10),
        a[0].spec_mul(a[7]).spec_mul(b09),
        a[1].spec_mul(a[6]).spec_mul(b08),
        a[1].spec_mul(a[4]).spec_mul(b11),
        a[1].spec_mul(a[7]).spec_mul(b07),
        a[2].spec_mul(a[4]).spec_mul(b10),
        a[2].spec_mul(a[5]).spec_mul(b08),
        a[2].spec_mul(a[7]).spec_mul(b06),
        a[3].spec_mul(a[5]).spec_mul(b07),
        a[3].spec_mul(a[4]).spec_mul(b09),
        a[3].spec_mul(a[6]).spec_mul(b06)
    );
    assert(mul_seq(inv, a)[0] == det_seq(a).spec_mul(inv_d));
    lemma_recip(det_seq(a));
    assert(mul_seq(inv, a)[0] == T::spec_one());
}

proof fn lemma_inv_chain1<T: Scalar>(p1: T, p2: T, p3: T, p4: T, p5: T, p6: T)
    requires
        laws_sealed::<T>(),
    ensures
        p1.spec_sub(p2).spec_sub(p3).spec_add(p2).spec_sub(p4).spec_add(p5).spec_add(p4).spec_sub(p1).spec_sub(p6).spec_add(p3).spec_sub(p5).spec_add(p6) == T::spec_zero(),
{
    lemma_swap_as(p1.spec_sub(p2).spec_sub(p3).spec_add(p2).spec_sub(p4).spec_add(p5), p4, p1);
    lemma_swap_as(p1.spec_sub(p2).spec_sub(p3).spec_add(p2).spec_sub(p4), p5, p1);
    lemma_swap_ss(p1.spec_sub(p2).spec_sub(p3).spec_add(p2), p4, p1);
    lemma_swap_as(p1.spec_sub(p2).spec_sub(p3), p2, p1);
    lemma_swap_ss(p1.spec_sub(p2), p3, p1);
    lemma_swap_ss(p1, p2, p1);
    lemma_swap_sa(p1.spec_sub(p1).spec_sub(p2), p3, p2);
    lemma_swap_sa(p1.spec_sub(p1), p2, p2);
    lemma_swap_sa(p1.spec_sub(p1).spec_add(p2).spec_sub(p2).spec_sub(p3).spec_sub(p4).spec_add(p5).spec_add(p4), p6, p3);
    lemma_swap_aa(p1.spec_sub(p1).spec_add(p2).spec_sub(p2).spec_sub(p3).spec_sub(p4).spec_add(p5), p4, p3);
    lemma_swap_aa(p1.spec_sub(p1).spec_add(p2).spec_sub(p2).spec_sub(p3).spec_sub(p4), p5, p3);
    lemma_swap_sa(p1.spec_sub(p1).spec_add(p2).spec_sub(p2).spec_sub(p3), p4, p3);
    lemma_swap_sa(p1.spec_sub(p1).spec_add(p2).spec_sub(p2), p3, p3);
    lemma_swap_aa(p1.spec_sub(p1).spec_add(p2).spec_sub(p2).spec_add(p3).spec_sub(p3).spec_sub(p4), p5, p4);
    lemma_swap_sa(p1.spec_sub(p1).spec_add(p2).spec_sub(p2).spec_add(p3).spec_sub(p3), p4, p4);
    lemma_swap_ss(p1.spec_sub(p1).spec_add(p2).spec_sub(p2).spec_add(p3).spec_sub(p3).spec_add(p4).spec_sub(p4).spec_add(p5), p6, p5);
    lemma_swap_sa(p1.spec_sub(p1).spec_add(p2).spec_sub(p2).spec_add(p3).spec_sub(p3).spec_add(p4).spec_sub(p4).spec_add(p5).spec_sub(p5), p6, p6);
    lemma_self_cancel(p1);
    lemma_cancel_adj(p1.spec_sub(p1), p2);
    lemma_cancel_adj(p1.spec_sub(p1).spec_add(p2).spec_sub(p2), p3);
    lemma_cancel_adj(p1.spec_sub(p1).spec_add(p2).spec_sub(p2).spec_add(p3).spec_sub(p3), p4);
    lemma_cancel_adj(p1.spec_sub(p1).spec_add(p2).spec_sub(p2).spec_add(p3).spec_sub(p3).spec_add(p4).spec_sub(p4), p5);
    lemma_cancel_adj(p1.spec_sub(p1).spec_add(p2).spec_sub(p2).spec_add(p3).spec_sub(p3).spec_add(p4).spec_sub(p4).spec_add(p5).spec_sub(p5), p6);
}

pub(crate) proof fn lemma_inv_entry1<T: Scalar>(a: Seq<T>)
    requires
        a.len() == 16,
        field_sealed::<T>(),
        !det_seq(a).spec_is_zero(),
    ensures
        mul_seq(inverse_seq(a), a)[1] == T::spec_zero(),
{
    lemma_field_gives_ring::<T>();
    let inv = inverse_seq(a);
    let inv_d = T::spec_one().spec_div(det_seq(a));
    let b00 = minor2(a, 0, 5, 1, 4);
    let b01 = minor2(a, 0, 6, 2, 4);
    let b02 = minor2(a, 0, 7, 3, 4);
    let b03 = minor2(a, 1, 6, 2, 5);
    let b04 = minor2(a, 1, 7, 3, 5);
    let b05 = minor2(a, 2, 7, 3, 6);
    let b06 = minor2(a, 8, 13, 9, 12);
    let b07 = minor2(a, 8, 14, 10, 12);
    let b08 = minor2(a, 8, 15, 11, 12);
    let b09 = minor2(a, 9, 14, 10, 13);
    let b10 = minor2(a, 9, 15, 11, 13);
    let b11 = minor2(a, 10, 15, 11, 14);
    assert(mul_seq(inv, a)[1] == a[0].spec_mul(inv[1]).spec_add(a[1].spec_mul(inv[5])).spec_add(a[2].spec_mul(inv[9])).spec_add(a[3].spec_mul(inv[13])));
    assert(inv[1] == a[2].spec_mul(b10).spec_sub(a[1].spec_mul(b11)).spec_sub(a[3].spec_mul(b09)).spec_mul(inv_d));
    assert(inv[5] == a[0].spec_mul(b11).spec_sub(a[2].spec_mul(b08)).spec_add(a[3].spec_mul(b07)).spec_mul(inv_d));
    assert(inv[9] == a[1].spec_mul(b08).spec_sub(a[0].spec_mul(b10)).spec_sub(a[3].spec_mul(b06)).spec_mul(inv_d));
    assert(inv[13] == a[0].spec_mul(b09).spec_sub(a[1].spec_mul(b07)).spec_add(a[2].spec_mul(b06)).spec_mul(inv_d));
    lemma_mul_assoc(a[0], a[2].spec_mul(b10).spec_sub(a[1].spec_mul(b11)).spec_sub(a[3].spec_mul(b09)), inv_d);
    lemma_mul_assoc(a[1], a[0].spec_mul(b11).spec_sub(a[2].spec_mul(b08)).spec_add(a[3].spec_mul(b07)), inv_d);
    lemma_mul_assoc(a[2], a[1].spec_mul(b08).spec_sub(a[0].spec_mul(b10)).spec_sub(a[3].spec_mul(b06)), inv_d);
    lemma_mul_assoc(a[3], a[0].spec_mul(b09).spec_sub(a[1].spec_mul(b07)).spec_add(a[2].spec_mul(b06)), inv_d);
    lemma_factor4(
        a[0].spec_mul(a[2].spec_mul(b10).spec_sub(a[1].spec_mul(b11)).spec_sub(a[3].spec_mul(b09))),
        a[1].spec_mul(a[0].spec_mul(b11).spec_sub(a[2].spec_mul(b08)).spec_add(a[3].spec_mul(b07))),
        a[2].spec_mul(a[1].spec_mul(b08).spec_sub(a[0].spec_mul(b10)).spec_sub(a[3].spec_mul(b06))),
        a[3].spec_mul(a[0].spec_mul(b09).spec_sub(a[1].spec_mul(b07)).spec_add(a[2].spec_mul(b06))),
        inv_d,
    );
    lemma_distrib3_pmm(a[0], a[2].spec_mul(b10), a[1].spec_mul(b11), a[3].spec_mul(b09));
    lemma_mul_assoc(a[0], a[2], b10);
    lemma_mul_assoc(a[0], a[1], b11);
    lemma_mul_assoc(a[0], a[3], b09);
    lemma_distrib3_pmp(a[1], a[0].spec_mul(b11), a[2].spec_mul(b08), a[3].spec_mul(b07));
    lemma_mul_assoc(a[1], a[0], b11);
    lemma_mul_comm(a[1], a[0]);
    lemma_mul_assoc(a[1], a[2], b08);
    lemma_mul_assoc(a[1], a[3], b07);
    lemma_distrib3_pmm(a[2], a[1].spec_mul(b08), a[0].spec_mul(b10), a[3].spec_mul(b06));
    lemma_mul_assoc(a[2], a[1], b08);
    lemma_mul_comm(a[2], a[1]);
    lemma_mul_assoc(a[2], a[0], b10);
    lemma_mul_comm(a[2], a[0]);
    lemma_mul_assoc(a[2], a[3], b06);
    lemma_distrib3_pmp(a[3], a[0].spec_mul(b09), a[1].spec_mul(b07), a[2].spec_mul(b06));
    lemma_mul_assoc(a[3], a[0], b09);
    lemma_mul_comm(a[3], a[0]);
    lemma_mul_assoc(a[3], a[1], b07);
    lemma_mul_comm(a[3], a[1]);
    lemma_mul_assoc(a[3], a[2], b06);
    lemma_mul_comm(a[3], a[2]);
    lemma_append3_pmp(
        a[0].spec_mul(a[2]).spec_mul(b10).spec_sub(a[0].spec_mul(a[1]).spec_mul(b11)).spec_sub(a[0].spec_mul(a[3]).spec_mul(b09)),
        a[0].spec_mul(a[1]).spec_mul(b11),
        a[1].spec_mul(a[2]).spec_mul(b08),
        a[1].spec_mul(a[3]).spec_mul(b07),
    );
    lemma_append3_pmm(
        a[0].spec_mul(a[2]).spec_mul(b10).spec_sub(a[0].spec_mul(a[1]).spec_mul(b11)).spec_sub(a[0].spec_mul(a[3]).spec_mul(b09)).spec_add(a[0].spec_mul(a[1]).spec_mul(b11)).spec_sub(a[1].spec_mul(a[2]).spec_mul(b08)).spec_add(a[1].spec_mul(a[3]).spec_mul(b07)),
        a[1].spec_mul(a[2]).spec_mul(b08),
        a[0].spec_mul(a[2]).spec_mul(b10),
        a[2].spec_mul(a[3]).spec_mul(b06),
    );
    lemma_append3_pmp(
        a[0].spec_mul(a[2]).spec_mul(b10).spec_sub(a[0].spec_mul(a[1]).spec_mul(b11)).spec_sub(a[0].spec_mul(a[3]).spec_mul(b09)).spec_add(a[0].spec_mul(a[1]).spec_mul(b11)).spec_sub(a[1].spec_mul(a[2]).spec_mul(b08)).spec_add(a[1].spec_mul(a[3]).spec_mul(b07)).spec_add(a[1].spec_mul(a[2]).spec_mul(b08)).spec_sub(a[0].spec_mul(a[2]).spec_mul(b10)).spec_sub(a[2].spec_mul(a[3]).spec_mul(b06)),
        a[0].spec_mul(a[3]).spec_mul(b09),
        a[1].spec_mul(a[3]).spec_mul(b07),
        a[2].spec_mul(a[3]).spec_mul(b06),
    );
    lemma_inv_chain1(
        a[0].spec_mul(a[2]).spec_mul(b10),
        a[0].spec_mul(a[1]).spec_mul(b11),
        a[0].spec_mul(a[3]).spec_mul(b09),
        a[1].spec_mul(a[2]).spec_mul(b08),
        a[1].spec_mul(a[3]).spec_mul(b07),
        a[2].spec_mul(a[3]).spec_mul(b06)
    );
    lemma_zero_mul(inv_d);
    assert(mul_seq(inv, a)[1] == T::spec_zero());
}

proof fn lemma_inv_chain2<T: Scalar>(p1: T, p2: T, p3: T, p4: T, p5: T, p6: T, p7: T, p8: T, p9: T, p10: T, p11: T, p12: T)
    requires
        laws_sealed::<T>(),
    ensures
        p1.spec_sub(p2).spec_sub(p3).spec_add(p4).spec_add(p5).spec_sub(p6).spec_add(p3).spec_sub(p7).spec_sub(p8).spec_add(p9).spec_sub(p5).spec_add(p10).spec_add(p8).spec_sub(p11).spec_sub(p1).spec_add(p12).spec_add(p6).spec_sub(p10).spec_add(p2).spec_sub(p12).spec_sub(p9).spec_add(p11).spec_sub(p4).spec_add(p7) == T::spec_zero(),
{
    lemma_swap_ss(p1.spec_sub(p2).spec_sub(p3).spec_add(p4).spec_add(p5).spec_sub(p6).spec_add(p3).spec_sub(p7).spec_sub(p8).spec_add(p9).spec_sub(p5).spec_add(p10).spec_add(p8), p11, p1);
    lemma_swap_as(p1.spec_sub(p2).spec_sub(p3).spec_add(p4).spec_add(p5).spec_sub(p6).spec_add(p3).spec_sub(p7).spec_sub(p8).spec_add(p9).spec_sub(p5).spec_add(p10), p8, p1);
    lemma_swap_as(p1.spec_sub(p2).spec_sub(p3).spec_add(p4).spec_add(p5).spec_sub(p6).spec_add(p3).spec_sub(p7).spec_sub(p8).spec_add(p9).spec_sub(p5), p10, p1);
    lemma_swap_ss(p1.spec_sub(p2).spec_sub(p3).spec_add(p4).spec_add(p5).spec_sub(p6).spec_add(p3).spec_sub(p7).spec_sub(p8).spec_add(p9), p5, p1);
    lemma_swap_as(p1.spec_sub(p2).spec_sub(p3).spec_add(p4).spec_add(p5).spec_sub(p6).spec_add(p3).spec_sub(p7).spec_sub(p8), p9, p1);
    lemma_swap_ss(p1.spec_sub(p2).spec_sub(p3).spec_add(p4).spec_add(p5).spec_sub(p6).spec_add(p3).spec_sub(p7), p8, p1);
    lemma_swap_ss(p1.spec_sub(p2).spec_sub(p3).spec_add(p4).spec_add(p5).spec_sub(p6).spec_add(p3), p7, p1);
    lemma_swap_as(p1.spec_sub(p2).spec_sub(p3).spec_add(p4).spec_add(p5).spec_sub(p6), p3, p1);
    lemma_swap_ss(p1.spec_sub(p2).spec_sub(p3).spec_add(p4).spec_add(p5), p6, p1);
    lemma_swap_as(p1.spec_sub(p2).spec_sub(p3).spec_add(p4), p5, p1);
    lemma_swap_as(p1.spec_sub(p2).spec_sub(p3), p4, p1);
    lemma_swap_ss(p1.spec_sub(p2), p3, p1);
    lemma_swap_ss(p1, p2, p1);
    lemma_swap_sa(p1.spec_sub(p1).spec_sub(p2).spec_sub(p3).spec_add(p4).spec_add(p5).spec_sub(p6).spec_add(p3).spec_sub(p7).spec_sub(p8).spec_add(p9).spec_sub(p5).spec_add(p10).spec_add(p8).spec_sub(p11).spec_add(p12).spec_add(p6), p10, p2);
    lemma_swap_aa(p1.spec_sub(p1).spec_sub(p2).spec_sub(p3).spec_add(p4).spec_add(p5).spec_sub(p6).spec_add(p3).spec_sub(p7).spec_sub(p8).spec_add(p9).spec_sub(p5).spec_add(p10).spec_add(p8).spec_sub(p11).spec_add(p12), p6, p2);
    lemma_swap_aa(p1.spec_sub(p1).spec_sub(p2).spec_sub(p3).spec_add(p4).spec_add(p5).spec_sub(p6).spec_add(p3).spec_sub(p7).spec_sub(p8).spec_add(p9).spec_sub(p5).spec_add(p10).spec_add(p8).spec_sub(p11), p12, p2);
    lemma_swap_sa(p1.spec_sub(p1).spec_sub(p2).spec_sub(p3).spec_add(p4).spec_add(p5).spec_sub(p6).spec_add(p3).spec_sub(p7).spec_sub(p8).spec_add(p9).spec_sub(p5).spec_add(p10).spec_add(p8), p11, p2);
    lemma_swap_aa(p1.spec_sub(p1).spec_sub(p2).spec_sub(p3).spec_add(p4).spec_add(p5).spec_sub(p6).spec_add(p3).spec_sub(p7).spec_sub(p8).spec_add(p9).spec_sub(p5).spec_add(p10), p8, p2);
    lemma_swap_aa(p1.spec_sub(p1).spec_sub(p2).spec_sub(p3).spec_add(p4).spec_add(p5).spec_sub(p6).spec_add(p3).spec_sub(p7).spec_sub(p8).spec_add(p9).spec_sub(p5), p10, p2);
    lemma_swap_sa(p1.spec_sub(p1).spec_sub(p2).spec_sub(p3).spec_add(p4).spec_add(p5).spec_sub(p6).spec_add(p3).spec_sub(p7).spec_sub(p8).spec_add(p9), p5, p2);
    lemma_swap_aa(p1.spec_sub(p1).spec_sub(p2).spec_sub(p3).spec_add(p4).spec_add(p5).spec_sub(p6).spec_add(p3).spec_sub(p7).spec_sub(p8), p9, p2);
    lemma_swap_sa(p1.spec_sub(p1).spec_sub(p2).spec_sub(p3).spec_add(p4).spec_add(p5).spec_sub(p6).spec_add(p3).spec_sub(p7), p8, p2);
    lemma_swap_sa(p1.spec_sub(p1).spec_sub(p2).spec_sub(p3).spec_add(p4).spec_add(p5).spec_sub(p6).spec_add(p3), p7, p2);
    lemma_swap_aa(p1.spec_sub(p1).spec_sub(p2).spec_sub(p3).spec_add(p4).spec_add(p5).spec_sub(p6), p3, p2);
    lemma_swap_sa(p1.spec_sub(p1).spec_sub(p2).spec_sub(p3).spec_add(p4).spec_add(p5), p6, p2);
    lemma_swap_aa(p1.spec_sub(p1).spec_sub(p2).spec_sub(p3).spec_add(p4), p5, p2);
    lemma_swap_aa(p1.spec_sub(p1).spec_sub(p2).spec_sub(p3), p4, p2);
    lemma_swap_sa(p1.spec_sub(p1).spec_sub(p2), p3, p2);
    lemma_swap_sa(p1.spec_sub(p1), p2, p2);
    lemma_swap_sa(p1.spec_sub(p1).spec_add(p2).spec_sub(p2).spec_sub(p3).spec_add(p4).spec_add(p5), p6, p3);
    lemma_swap_aa(p1.spec_sub(p1).spec_add(p2).spec_sub(p2).spec_sub(p3).spec_add(p4), p5, p3);
    lemma_swap_aa(p1.spec_sub(p1).spec_add(p2).spec_sub(p2).spec_sub(p3), p4, p3);
    lemma_swap_sa(p1.spec_sub(p1).spec_add(p2).spec_sub(p2), p3, p3);
    lemma_swap_as(p1.spec_sub(p1).spec_add(p2).spec_sub(p2).spec_add(p3).spec_sub(p3).spec_add(p4).spec_add(p5).spec_sub(p6).spec_sub(p7).spec_sub(p8).spec_add(p9).spec_sub(p5).spec_add(p10).spec_add(p8).spec_sub(p11).spec_add(p12).spec_add(p6).spec_sub(p10).spec_sub(p12).spec_sub(p9), p11, p4);
    lemma_swap_ss(p1.spec_sub(p1).spec_add(p2).spec_sub(p2).spec_add(p3).spec_sub(p3).spec_add(p4).spec_add(p5).spec_sub(p6).spec_sub(p7).spec_sub(p8).spec_add(p9).spec_sub(p5).spec_add(p10).spec_add(p8).spec_sub(p11).spec_add(p12).spec_add(p6).spec_sub(p10).spec_sub(p12), p9, p4);
    lemma_swap_ss(p1.spec_sub(p1).spec_add(p2).spec_sub(p2).spec_add(p3).spec_sub(p3).spec_add(p4).spec_add(p5).spec_sub(p6).spec_sub(p7).spec_sub(p8).spec_add(p9).spec_sub(p5).spec_add(p10).spec_add(p8).spec_sub(p11).spec_add(p12).spec_add(p6).spec_sub(p10), p12, p4);
    lemma_swap_ss(p1.spec_sub(p1).spec_add(p2).spec_sub(p2).spec_add(p3).spec_sub(p3).spec_add(p4).spec_add(p5).spec_sub(p6).spec_sub(p7).spec_sub(p8).spec_add(p9).spec_sub(p5).spec_add(p10).spec_add(p8).spec_sub(p11).spec_add(p12).spec_add(p6), p10, p4);
    lemma_swap_as(p1.spec_sub(p1).spec_add(p2).spec_sub(p2).spec_add(p3).spec_sub(p3).spec_add(p4).spec_add(p5).spec_sub(p6).spec_sub(p7).spec_sub(p8).spec_add(p9).spec_sub(p5).spec_add(p10).spec_add(p8).spec_sub(p11).spec_add(p12), p6, p4);
    lemma_swap_as(p1.spec_sub(p1).spec_add(p2).spec_sub(p2).spec_add(p3).spec_sub(p3).spec_add(p4).spec_add(p5).spec_sub(p6).spec_sub(p7).spec_sub(p8).spec_add(p9).spec_sub(p5).spec_add(p10).spec_add(p8).spec_sub(p11), p12, p4);
    lemma_swap_ss(p1.spec_sub(p1).spec_add(p2).spec_sub(p2).spec_add(p3).spec_sub(p3).spec_add(p4).spec_add(p5).spec_sub(p6).spec_sub(p7).spec_sub(p8).spec_add(p9).spec_sub(p5).spec_add(p10).spec_add(p8), p11, p4);
    lemma_swap_as(p1.spec_sub(p1).spec_add(p2).spec_sub(p2).spec_add(p3).spec_sub(p3).spec_add(p4).spec_add(p5).spec_sub(p6).spec_sub(p7).spec_sub(p8).spec_add(p9).spec_sub(p5).spec_add(p10), p8, p4);
    lemma_swap_as(p1.spec_sub(p1).spec_add(p2).spec_sub(p2).spec_add(p3).spec_sub(p3).spec_add(p4).spec_add(p5).spec_sub(p6).spec_sub(p7).spec_sub(p8).spec_add(p9).spec_sub(p5), p10, p4);
    lemma_swap_ss(p1.spec_sub(p1).spec_add(p2).spec_sub(p2).spec_add(p3).spec_sub(p3).spec_add(p4).spec_add(p5).spec_sub(p6).spec_sub(p7).spec_sub(p8).spec_add(p9), p5, p4);
    lemma_swap_as(p1.spec_sub(p1).spec_add(p2).spec_sub(p2).spec_add(p3).spec_sub(p3).spec_add(p4).spec_add(p5).spec_sub(p6).spec_sub(p7).spec_sub(p8), p9, p4);
    lemma_swap_ss(p1.spec_sub(p1).spec_add(p2).spec_sub(p2).spec_add(p3).spec_sub(p3).spec_add(p4).spec_add(p5).spec_sub(p6).spec_sub(p7), p8, p4);
    lemma_swap_ss(p1.spec_sub(p1).spec_add(p2).spec_sub(p2).spec_add(p3).spec_sub(p3).spec_add(p4).spec_add(p5).spec_sub(p6), p7, p4);
    lemma_swap_ss(p1.spec_sub(p1).spec_add(p2).spec_sub(p2).spec_add(p3).spec_sub(p3).spec_add(p4).spec_add(p5), p6, p4);
    lemma_swap_as(p1.spec_sub(p1).spec_add(p2).spec_sub(p2).spec_add(p3).spec_sub(p3).spec_add(p4), p5, p4);
    lemma_swap_as(p1.spec_sub(p1).spec_add(p2).spec_sub(p2).spec_add(p3).spec_sub(p3).spec_add(p4).spec_sub(p4).spec_add(p5).spec_sub(p6).spec_sub(p7).spec_sub(p8), p9, p5);
    lemma_swap_ss(p1.spec_sub(p1).spec_add(p2).spec_sub(p2).spec_add(p3).spec_sub(p3).spec_add(p4).spec_sub(p4).spec_add(p5).spec_sub(p6).spec_sub(p7), p8, p5);
    lemma_swap_ss(p1.spec_sub(p1).spec_add(p2).spec_sub(p2).spec_add(p3).spec_sub(p3).spec_add(p4).spec_sub(p4).spec_add(p5).spec_sub(p6), p7, p5);
    lemma_swap_ss(p1.spec_sub(p1).spec_add(p2).spec_sub(p2).spec_add(p3).spec_sub(p3).spec_add(p4).spec_sub(p4).spec_add(p5), p6, p5);
    lemma_swap_aa(p1.spec_sub(p1).spec_add(p2).spec_sub(p2).spec_add(p3).spec_sub(p3).spec_add(p4).spec_sub(p4).spec_add(p5).spec_sub(p5).spec_sub(p6).spec_sub(p7).spec_sub(p8).spec_add(p9).spec_add(p10).spec_add(p8).spec_sub(p11), p12, p6);
    lemma_swap_sa(p1.spec_sub(p1).spec_add(p2).spec_sub(p2).spec_add(p3).spec_sub(p3).spec_add(p4).spec_sub(p4).spec_add(p5).spec_sub(p5).spec_sub(p6).spec_sub(p7).spec_sub(p8).spec_add(p9).spec_add(p10).spec_add(p8), p11, p6);
    lemma_swap_aa(p1.spec_sub(p1).spec_add(p2).spec_sub(p2).spec_add(p3).spec_sub(p3).spec_add(p4).spec_sub(p4).spec_add(p5).spec_sub(p5).spec_sub(p6).spec_sub(p7).spec_sub(p8).spec_add(p9).spec_add(p10), p8, p6);
    lemma_swap_aa(p1.spec_sub(p1).spec_add(p2).spec_sub(p2).spec_add(p3).spec_sub(p3).spec_add(p4).spec_sub(p4).spec_add(p5).spec_sub(p5).spec_sub(p6).spec_sub(p7).spec_sub(p8).spec_add(p9), p10, p6);
    lemma_swap_aa(p1.spec_sub(p1).spec_add(p2).spec_sub(p2).spec_add(p3).spec_sub(p3).spec_add(p4).spec_sub(p4).spec_add(p5).spec_sub(p5).spec_sub(p6).spec_sub(p7).spec_sub(p8), p9, p6);
    lemma_swap_sa(p1.spec_sub(p1).spec_add(p2).spec_sub(p2).spec_add(p3).spec_sub(p3).spec_add(p4).spec_sub(p4).spec_add(p5).spec_sub(p5).spec_sub(p6).spec_sub(p7), p8, p6);
    lemma_swap_sa(p1.spec_sub(p1).spec_add(p2).spec_sub(p2).spec_add(p3).spec_sub(p3).spec_add(p4).spec_sub(p4).spec_add(p5).spec_sub(p5).spec_sub(p6), p7, p6);
    lemma_swap_sa(p1.spec_sub(p1).spec_add(p2).spec_sub(p2).spec_add(p3).spec_sub(p3).spec_add(p4).spec_sub(p4).spec_add(p5).spec_sub(p5), p6, p6);
    lemma_swap_aa(p1.spec_sub(p1).spec_add(p2).spec_sub(p2).spec_add(p3).spec_sub(p3).spec_add(p4).spec_sub(p4).spec_add(p5).spec_sub(p5).spec_add(p6).spec_sub(p6).spec_sub(p7).spec_sub(p8).spec_add(p9).spec_add(p10).spec_add(p8).spec_sub(p11).spec_add(p12).spec_sub(p10).spec_sub(p12).spec_sub(p9), p11, p7);
    lemma_swap_sa(p1.spec_sub(p1).spec_add(p2).spec_sub(p2).spec_add(p3).spec_sub(p3).spec_add(p4).spec_sub(p4).spec_add(p5).spec_sub(p5).spec_add(p6).spec_sub(p6).spec_sub(p7).spec_sub(p8).spec_add(p9).spec_add(p10).spec_add(p8).spec_sub(p11).spec_add(p12).spec_sub(p10).spec_sub(p12), p9, p7);
    lemma_swap_sa(p1.spec_sub(p1).spec_add(p2).spec_sub(p2).spec_add(p3).spec_sub(p3).spec_add(p4).spec_sub(p4).spec_add(p5).spec_sub(p5).spec_add(p6).spec_sub(p6).spec_sub(p7).spec_sub(p8).spec_add(p9).spec_add(p10).spec_add(p8).spec_sub(p11).spec_add(p12).spec_sub(p10), p12, p7);
    lemma_swap_sa(p1.spec_sub(p1).spec_add(p2).spec_sub(p2).spec_add(p3).spec_sub(p3).spec_add(p4).spec_sub(p4).spec_add(p5).spec_sub(p5).spec_add(p6).spec_sub(p6).spec_sub(p7).spec_sub(p8).spec_add(p9).spec_add(p10).spec_add(p8).spec_sub(p11).spec_add(p12), p10, p7);
    lemma_swap_aa(p1.spec_sub(p1).spec_add(p2).spec_sub(p2).spec_add(p3).spec_sub(p3).spec_add(p4).spec_sub(p4).spec_add(p5).spec_sub(p5).spec_add(p6).spec_sub(p6).spec_sub(p7).spec_sub(p8).spec_add(p9).spec_add(p10).spec_add(p8).spec_sub(p11), p12, p7);
    lemma_swap_sa(p1.spec_sub(p1).spec_add(p2).spec_sub(p2).spec_add(p3).spec_sub(p3).spec_add(p4).spec_sub(p4).spec_add(p5).spec_sub(p5).spec_add(p6).spec_sub(p6).spec_sub(p7).spec_sub(p8).spec_add(p9).spec_add(p10).spec_add(p8), p11, p7);
    lemma_swap_aa(p1.spec_sub(p1).spec_add(p2).spec_sub(p2).spec_add(p3).spec_sub(p3).spec_add(p4).spec_sub(p4).spec_add(p5).spec_sub(p5).spec_add(p6).spec_sub(p6).spec_sub(p7).spec_sub(p8).spec_add(p9).spec_add(p10), p8, p7);
    lemma_swap_aa(p1.spec_sub(p1).spec_add(p2).spec_sub(p2).spec_add(p3).spec_sub(p3).spec_add(p4).spec_sub(p4).spec_add(p5).spec_sub(p5).spec_add(p6).spec_sub(p6).spec_sub(p7).spec_sub(p8).spec_add(p9), p10, p7);
    lemma_swap_aa(p1.spec_sub(p1).spec_add(p2).spec_sub(p2).spec_add(p3).spec_sub(p3).spec_add(p4).spec_sub(p4).spec_add(p5).spec_sub(p5).spec_add(p6).spec_sub(p6).spec_sub(p7).spec_sub(p8), p9, p7);
    lemma_swap_sa(p1.spec_sub(p1).spec_add(p2).spec_sub(p2).spec_add(p3).spec_sub(p3).spec_add(p4).spec_sub(p4).spec_add(p5).spec_sub(p5).spec_add(p6).spec_sub(p6).spec_sub(p7), p8, p7);
    lemma_swap_sa(p1.spec_sub(p1).spec_add(p2).spec_sub(p2).spec_add(p3).spec_sub(p3).spec_add(p4).spec_sub(p4).spec_add(p5).spec_sub(p5).spec_add(p6).spec_sub(p6), p7, p7);
    lemma_swap_aa(p1.spec_sub(p1).spec_add(p2).spec_sub(p2).spec_add(p3).spec_sub(p3).spec_add(p4).spec_sub(p4).spec_add(p5).spec_sub(p5).spec_add(p6).spec_sub(p6).spec_add(p7).spec_sub(p7).spec_sub(p8).spec_add(p9), p10, p8);
    lemma_swap_aa(p1.spec_sub(p1).spec_add(p2).spec_sub(p2).spec_add(p3).spec_sub(p3).spec_add(p4).spec_sub(p4).spec_add(p5).spec_sub(p5).spec_add(p6).spec_sub(p6).spec_add(p7).spec_sub(p7).spec_sub(p8), p9, p8);
    lemma_swap_sa(p1.spec_sub(p1).spec_add(p2).spec_sub(p2).spec_add(p3).spec_sub(p3).spec_add(p4).spec_sub(p4).spec_add(p5).spec_sub(p5).spec_add(p6).spec_sub(p6).spec_add(p7).spec_sub(p7), p8, p8);
    lemma_swap_ss(p1.spec_sub(p1).spec_add(p2).spec_sub(p2).spec_add(p3).spec_sub(p3).spec_add(p4).spec_sub(p4).spec_add(p5).spec_sub(p5).spec_add(p6).spec_sub(p6).spec_add(p7).spec_sub(p7).spec_add(p8).spec_sub(p8).spec_add(p9).spec_add(p10).spec_sub(p11).spec_add(p12).spec_sub(p10), p12, p9);
    lemma_swap_ss(p1.spec_sub(p1).spec_add(p2).spec_sub(p2).spec_add(p3).spec_sub(p3).spec_add(p4).spec_sub(p4).spec_add(p5).spec_sub(p5).spec_add(p6).spec_sub(p6).spec_add(p7).spec_sub(p7).spec_add(p8).spec_sub(p8).spec_add(p9).spec_add(p10).spec_sub(p11).spec_add(p12), p10, p9);
    lemma_swap_as(p1.spec_sub(p1).spec_add(p2).spec_sub(p2).spec_add(p3).spec_sub(p3).spec_add(p4).spec_sub(p4).spec_add(p5).spec_sub(p5).spec_add(p6).spec_sub(p6).spec_add(p7).spec_sub(p7).spec_add(p8).spec_sub(p8).spec_add(p9).spec_add(p10).spec_sub(p11), p12, p9);
    lemma_swap_ss(p1.spec_sub(p1).spec_add(p2).spec_sub(p2).spec_add(p3).spec_sub(p3).spec_add(p4).spec_sub(p4).spec_add(p5).spec_sub(p5).spec_add(p6).spec_sub(p6).spec_add(p7).spec_sub(p7).spec_add(p8).spec_sub(p8).spec_add(p9).spec_add(p10), p11, p9);
    lemma_swap_as(p1.spec_sub(p1).spec_add(p2).spec_sub(p2).spec_add(p3).spec_sub(p3).spec_add(p4).spec_sub(p4).spec_add(p5).spec_sub(p5).spec_add(p6).spec_sub(p6).spec_add(p7).spec_sub(p7).spec_add(p8).spec_sub(p8).spec_add(p9), p10, p9);
    lemma_swap_as(p1.spec_sub(p1).spec_add(p2).spec_sub(p2).spec_add(p3).spec_sub(p3).spec_add(p4).spec_sub(p4).spec_add(p5).spec_sub(p5).spec_add(p6).spec_sub(p6).spec_add(p7).spec_sub(p7).spec_add(p8).spec_sub(p8).spec_add(p9).spec_sub(p9).spec_add(p10).spec_sub(p11), p12, p10);
    lemma_swap_ss(p1.spec_sub(p1).spec_add(p2).spec_sub(p2).spec_add(p3).spec_sub(p3).spec_add(p4).spec_sub(p4).spec_add(p5).spec_sub(p5).spec_add(p6).spec_sub(p6).spec_add(p7).spec_sub(p7).spec_add(p8).spec_sub(p8).spec_add(p9).spec_sub(p9).spec_add(p10), p11, p10);
    lemma_swap_sa(p1.spec_sub(p1).spec_add(p2).spec_sub(p2).spec_add(p3).spec_sub(p3).spec_add(p4).spec_sub(p4).spec_add(p5).spec_sub(p5).spec_add(p6).spec_sub(p6).spec_add(p7).spec_sub(p7).spec_add(p8).spec_sub(p8).spec_add(p9).spec_sub(p9).spec_add(p10).spec_sub(p10).spec_sub(p11).spec_add(p12), p12, p11);
    lemma_swap_aa(p1.spec_sub(p1).spec_add(p2).spec_sub(p2).spec_add(p3).spec_sub(p3).spec_add(p4).spec_sub(p4).spec_add(p5).spec_sub(p5).spec_add(p6).spec_sub(p6).spec_add(p7).spec_sub(p7).spec_add(p8).spec_sub(p8).spec_add(p9).spec_sub(p9).spec_add(p10).spec_sub(p10).spec_sub(p11), p12, p11);
    lemma_swap_sa(p1.spec_sub(p1).spec_add(p2).spec_sub(p2).spec_add(p3).spec_sub(p3).spec_add(p4).spec_sub(p4).spec_add(p5).spec_sub(p5).spec_add(p6).spec_sub(p6).spec_add(p7).spec_sub(p7).spec_add(p8).spec_sub(p8).spec_add(p9).spec_sub(p9).spec_add(p10).spec_sub(p10), p11, p11);
    lemma_self_cancel(p1);
    lemma_cancel_adj(p1.spec_sub(p1), p2);
    lemma_cancel_adj(p1.spec_sub(p1).spec_add(p2).spec_sub(p2), p3);
    lemma_cancel_adj(p1.spec_sub(p1).spec_add(p2).spec_sub(p2).spec_add(p3).spec_sub(p3), p4);
    lemma_cancel_adj(p1.spec_sub(p1).spec_add(p2).spec_sub(p2).spec_add(p3).spec_sub(p3).spec_add(p4).spec_sub(p4), p5);
    lemma_cancel_adj(p1.spec_sub(p1).spec_add(p2).spec_sub(p2).spec_add(p3).spec_sub(p3).spec_add(p4).spec_sub(p4).spec_add(p5).spec_sub(p5), p6);
    lemma_cancel_adj(p1.spec_sub(p1).spec_add(p2).spec_sub(p2).spec_add(p3).spec_sub(p3).spec_add(p4).spec_sub(p4).spec_add(p5).spec_sub(p5).spec_add(p6).spec_sub(p6), p7);
    lemma_cancel_adj(p1.spec_sub(p1).spec_add(p2).spec_sub(p2).spec_add(p3).spec_sub(p3).spec_add(p4).spec_sub(p4).spec_add(p5).spec_sub(p5).spec_add(p6).spec_sub(p6).spec_add(p7).spec_sub(p7), p8);
    lemma_cancel_adj(p1.spec_sub(p1).spec_add(p2).spec_sub(p2).spec_add(p3).spec_sub(p3).spec_add(p4).spec_sub(p4).spec_add(p5).spec_sub(p5).spec_add(p6).spec_sub(p6).spec_add(p7).spec_sub(p7).spec_add(p8).spec_sub(p8), p9);
    lemma_cancel_adj(p1.spec_sub(p1).spec_add(p2).spec_sub(p2).spec_add(p3).spec_sub(p3).spec_add(p4).spec_sub(p4).spec_add(p5).spec_sub(p5).spec_add(p6).spec_sub(p6).spec_add(p7).spec_sub(p7).spec_add(p8).spec_sub(p8).spec_add(p9).spec_sub(p9), p10);
    lemma_cancel_adj(p1.spec_sub(p1).spec_add(p2).spec_sub(p2).spec_add(p3).spec_sub(p3).spec_add(p4).spec_sub(p4).spec_add(p5).spec_sub(p5).spec_add(p6).spec_sub(p6).spec_add(p7).spec_sub(p7).spec_add(p8).spec_sub(p8).spec_add(p9).spec_sub(p9).spec_add(p10).spec_sub(p10), p11);
    lemma_cancel_adj(p1.spec_sub(p1).spec_add(p2).spec_sub(p2).spec_add(p3).spec_sub(p3).spec_add(p4).spec_sub(p4).spec_add(p5).spec_sub(p5).spec_add(p6).spec_sub(p6).spec_add(p7).spec_sub(p7).spec_add(p8).spec_sub(p8).spec_add(p9).spec_sub(p9).spec_add(p10).spec_sub(p10).spec_add(p11).spec_sub(p11), p12);
}

pub(crate) proof fn lemma_inv_entry2<T: Scalar>(a: Seq<T>)
    requires
        a.len() == 16,
        field_sealed::<T>(),
        !det_seq(a).spec_is_zero(),
    ensures
        mul_seq(inverse_seq(a), a)[2] == T::spec_zero(),
{
    lemma_field_gives_ring::<T>();
    let inv = inverse_seq(a);
    let inv_d = T::spec_one().spec_div(det_seq(a));
    let b00 = minor2(a, 0, 5, 1, 4);
    let b01 = minor2(a, 0, 6, 2, 4);
    let b02 = minor2(a, 0, 7, 3, 4);
    let b03 = minor2(a, 1, 6, 2, 5);
    let b04 = minor2(a, 1, 7, 3, 5);
    let b05 = minor2(a, 2, 7, 3, 6);
    let b06 = minor2(a, 8, 13, 9, 12);
    let b07 = minor2(a, 8, 14, 10, 12);
    let b08 = minor2(a, 8, 15, 11, 12);
    let b09 = minor2(a, 9, 14, 10, 13);
    let b10 = minor2(a, 9, 15, 11, 13);
    let b11 = minor2(a, 10, 15, 11, 14);
    assert(mul_seq(inv, a)[2] == a[0].spec_mul(inv[2]).spec_add(a[1].spec_mul(inv[6])).spec_add(a[2].spec_mul(inv[10])).spec_add(a[3].spec_mul(inv[14])));
    assert(inv[2] == a[13].spec_mul(b05).spec_sub(a[14].spec_mul(b04)).spec_add(a[15].spec_mul(b03)).spec_mul(inv_d));
    assert(inv[6] == a[14].spec_mul(b02).spec_sub(a[12].spec_mul(b05)).spec_sub(a[15].spec_mul(b01)).spec_mul(inv_d));
    assert(inv[10] == a[12].spec_mul(b04).spec_sub(a[13].spec_mul(b02)).spec_add(a[15].spec_mul(b00)).spec_mul(inv_d));
    assert(inv[14] == a[13].spec_mul(b01).spec_sub(a[12].spec_mul(b03)).spec_sub(a[14].spec_mul(b00)).spec_mul(inv_d));
    lemma_mul_assoc(a[0], a[13].spec_mul(b05).spec_sub(a[14].spec_mul(b04)).spec_add(a[15].spec_mul(b03)), inv_d);
    lemma_mul_assoc(a[1], a[14].spec_mul(b02).spec_sub(a[12].spec_mul(b05)).spec_sub(a[15].spec_mul(b01)), inv_d);
    lemma_mul_assoc(a[2], a[12].spec_mul(b04).spec_sub(a[13].spec_mul(b02)).spec_add(a[15].spec_mul(b00)), inv_d);
    lemma_mul_assoc(a[3], a[13].spec_mul(b01).spec_sub(a[12].spec_mul(b03)).spec_sub(a[14].spec_mul(b00)), inv_d);
    lemma_factor4(
        a[0].spec_mul(a[13].spec_mul(b05).spec_sub(a[14].spec_mul(b04)).spec_add(a[15].spec_mul(b03))),
        a[1].spec_mul(a[14].spec_mul(b02).spec_sub(a[12].spec_mul(b05)).spec_sub(a[15].spec_mul(b01))),
        a[2].spec_mul(a[12].spec_mul(b04).spec_sub(a[13].spec_mul(b02)).spec_add(a[15].spec_mul(b00))),
        a[3].spec_mul(a[13].spec_mul(b01).spec_sub(a[12].spec_mul(b03)).spec_sub(a[14].spec_mul(b00))),
        inv_d,
    );
    lemma_distrib3_pmp(a[0], a[13].spec_mul(b05), a[14].spec_mul(b04), a[15].spec_mul(b03));
    lemma_mul_assoc(a[0], a[13], b05);
    lemma_mul_assoc(a[0], a[14], b04);
    lemma_mul_assoc(a[0], a[15], b03);
    lemma_distrib3_pmm(a[1], a[14].spec_mul(b02), a[12].spec_mul(b05), a[15].spec_mul(b01));
    lemma_mul_assoc(a[1], a[14], b02);
    lemma_mul_assoc(a[1], a[12], b05);
    lemma_mul_assoc(a[1], a[15], b01);
    lemma_distrib3_pmp(a[2], a[12].spec_mul(b04), a[13].spec_mul(b02), a[15].spec_mul(b00));
    lemma_mul_assoc(a[2], a[12], b04);
    lemma_mul_assoc(a[2], a[13], b02);
    lemma_mul_assoc(a[2], a[15], b00);
    lemma_distrib3_pmm(a[3], a[13].spec_mul(b01), a[12].spec_mul(b03), a[14].spec_mul(b00));
    lemma_mul_assoc(a[3], a[13], b01);
    lemma_mul_assoc(a[3], a[12], b03);
    lemma_mul_assoc(a[3], a[14], b00);
    lemma_append3_pmm(
        a[0].spec_mul(a[13]).spec_mul(b05).spec_sub(a[0].spec_mul(a[14]).spec_mul(b04)).spec_add(a[0].spec_mul(a[15]).spec_mul(b03)),
        a[1].spec_mul(a[14]).spec_mul(b02),
        a[1].spec_mul(a[12]).spec_mul(b05),
        a[1].spec_mul(a[15]).spec_mul(b01),
    );
    lemma_append3_pmp(
        a[0].spec_mul(a[13]).spec_mul(b05).spec_sub(a[0].spec_mul(a[14]).spec_mul(b04)).spec_add(a[0].spec_mul(a[15]).spec_mul(b03)).spec_add(a[1].spec_mul(a[14]).spec_mul(b02)).spec_sub(a[1].spec_mul(a[12]).spec_mul(b05)).spec_sub(a[1].spec_mul(a[15]).spec_mul(b01)),
        a[2].spec_mul(a[12]).spec_mul(b04),
        a[2].spec_mul(a[13]).spec_mul(b02),
        a[2].spec_mul(a[15]).spec_mul(b00),
    );
    lemma_append3_pmm(
        a[0].spec_mul(a[13]).spec_mul(b05).spec_sub(a[0].spec_mul(a[14]).spec_mul(b04)).spec_add(a[0].spec_mul(a[15]).spec_mul(b03)).spec_add(a[1].spec_mul(a[14]).spec_mul(b02)).spec_sub(a[1].spec_mul(a[12]).spec_mul(b05)).spec_sub(a[1].spec_mul(a[15]).spec_mul(b01)).spec_add(a[2].spec_mul(a[12]).spec_mul(b04)).spec_sub(a[2].spec_mul(a[13]).spec_mul(b02)).spec_add(a[2].spec_mul(a[15]).spec_mul(b00)),
        a[3].spec_mul(a[13]).spec_mul(b01),
        a[3].spec_mul(a[12]).spec_mul(b03),
        a[3].spec_mul(a[14]).spec_mul(b00),
    );
    let c0x2x7x13 = a[0].spec_mul(a[2]).spec_mul(a[7].spec_mul(a[13]));
    let c0x3x6x13 = a[0].spec_mul(a[3]).spec_mul(a[6].spec_mul(a[13]));
    let c0x1x7x14 = a[0].spec_mul(a[1]).spec_mul(a[7].spec_mul(a[14]));
    let c0x3x5x14 = a[0].spec_mul(a[3]).spec_mul(a[5].spec_mul(a[14]));
    let c0x1x6x15 = a[0].spec_mul(a[1]).spec_mul(a[6].spec_mul(a[15]));
    let c0x2x5x15 = a[0].spec_mul(a[2]).spec_mul(a[5].spec_mul(a[15]));
    let c1x3x4x14 = a[1].spec_mul(a[3]).spec_mul(a[4].spec_mul(a[14]));
    let c1x2x7x12 = a[1].spec_mul(a[2]).spec_mul(a[7].spec_mul(a[12]));
    let c1x3x6x12 = a[1].spec_mul(a[3]).spec_mul(a[6].spec_mul(a[12]));
    let c1x2x4x15 = a[1].spec_mul(a[2]).spec_mul(a[4].spec_mul(a[15]));
    let c2x3x5x12 = a[2].spec_mul(a[3]).spec_mul(a[5].spec_mul(a[12]));
    let c2x3x4x13 = a[2].spec_mul(a[3]).spec_mul(a[4].spec_mul(a[13]));
    lemma_distrib2(a[0].spec_mul(a[13]), a[2].spec_mul(a[7]), a[3].spec_mul(a[6]));
    lemma_distrib2(a[0].spec_mul(a[14]), a[1].spec_mul(a[7]), a[3].spec_mul(a[5]));
    lemma_distrib2(a[0].spec_mul(a[15]), a[1].spec_mul(a[6]), a[2].spec_mul(a[5]));
    lemma_distrib2(a[1].spec_mul(a[14]), a[0].spec_mul(a[7]), a[3].spec_mul(a[4]));
    lemma_distrib2(a[1].spec_mul(a[12]), a[2].spec_mul(a[7]), a[3].spec_mul(a[6]));
    lemma_distrib2(a[1].spec_mul(a[15]), a[0].spec_mul(a[6]), a[2].spec_mul(a[4]));
    lemma_distrib2(a[2].spec_mul(a[12]), a[1].spec_mul(a[7]), a[3].spec_mul(a[5]));
    lemma_distrib2(a[2].spec_mul(a[13]), a[0].spec_mul(a[7]), a[3].spec_mul(a[4]));
    lemma_distrib2(a[2].spec_mul(a[15]), a[0].spec_mul(a[5]), a[1].spec_mul(a[4]));
    lemma_distrib2(a[3].spec_mul(a[13]), a[0].spec_mul(a[6]), a[2].spec_mul(a[4]));
    lemma_distrib2(a[3].spec_mul(a[12]), a[1].spec_mul(a[6]), a[2].spec_mul(a[5]));
    lemma_distrib2(a[3].spec_mul(a[14]), a[0].spec_mul(a[5]), a[1].spec_mul(a[4]));
    lemma_mul4_rearrange(a[0], a[13], a[2], a[7]);
    lemma_mul_comm(a[13], a[7]);
    lemma_mul4_rearrange(a[0], a[13], a[3], a[6]);
    lemma_mul_comm(a[13], a[6]);
    lemma_mul4_rearrange(a[0], a[14], a[1], a[7]);
    lemma_mul_comm(a[14], a[7]);
    lemma_mul4_rearrange(a[0], a[14], a[3], a[5]);
    lemma_mul_comm(a[14], a[5]);
    lemma_mul4_rearrange(a[0], a[15], a[1], a[6]);
    lemma_mul_comm(a[15], a[6]);
    lemma_mul4_rearrange(a[0], a[15], a[2], a[5]);
    lemma_mul_comm(a[15], a[5]);
    lemma_mul4_rearrange(a[1], a[14], a[0], a[7]);
    lemma_mul_comm(a[1], a[0]);
    lemma_mul4_rearrange(a[1], a[14], a[3], a[4]);
    lemma_mul_comm(a[14], a[4]);
    lemma_mul4_rearrange(a[1], a[12], a[2], a[7]);
    lemma_mul_comm(a[12], a[7]);
    lemma_mul4_rearrange(a[1], a[12], a[3], a[6]);
    lemma_mul_comm(a[12], a[6]);
    lemma_mul4_rearrange(a[1], a[15], a[0], a[6]);
    lemma_mul4_rearrange(a[1], a[15], a[2], a[4]);
    lemma_mul_comm(a[15], a[4]);
    lemma_mul4_rearrange(a[2], a[12], a[1], a[7]);
    lemma_mul_comm(a[2], a[1]);
    lemma_mul4_rearrange(a[2], a[12], a[3], a[5]);
    lemma_mul_comm(a[12], a[5]);
    lemma_mul4_rearrange(a[2], a[13], a[0], a[7]);
    lemma_mul_comm(a[2], a[0]);
    lemma_mul4_rearrange(a[2], a[13], a[3], a[4]);
    lemma_mul_comm(a[13], a[4]);
    lemma_mul4_rearrange(a[2], a[15], a[0], a[5]);
    lemma_mul4_rearrange(a[2], a[15], a[1], a[4]);
    lemma_mul4_rearrange(a[3], a[13], a[0], a[6]);
    lemma_mul_comm(a[3], a[0]);
    lemma_mul4_rearrange(a[3], a[13], a[2], a[4]);
    lemma_mul_comm(a[3], a[2]);
    lemma_mul4_rearrange(a[3], a[12], a[1], a[6]);
    lemma_mul_comm(a[3], a[1]);
    lemma_mul4_rearrange(a[3], a[12], a[2], a[5]);
    lemma_mul4_rearrange(a[3], a[14], a[0], a[5]);
    lemma_mul4_rearrange(a[3], a[14], a[1], a[4]);
    lemma_append2_neg(
        c0x2x7x13.spec_sub(c0x3x6x13),
        c0x1x7x14,
        c0x3x5x14,
    );
    lemma_append2_pos(
        c0x2x7x13.spec_sub(c0x3x6x13).spec_sub(c0x1x7x14).spec_add(c0x3x5x14),
        c0x1x6x15,
        c0x2x5x15,
    );
    lemma_append2_pos(
        c0x2x7x13.spec_sub(c0x3x6x13).spec_sub(c0x1x7x14).spec_add(c0x3x5x14).spec_add(c0x1x6x15).spec_sub(c0x2x5x15),
        c0x1x7x14,
        c1x3x4x14,
    );
    lemma_append2_neg(
        c0x2x7x13.spec_sub(c0x3x6x13).spec_sub(c0x1x7x14).spec_add(c0x3x5x14).spec_add(c0x1x6x15).spec_sub(c0x2x5x15).spec_add(c0x1x7x14).spec_sub(c1x3x4x14),
        c1x2x7x12,
        c1x3x6x12,
    );
    lemma_append2_neg(
        c0x2x7x13.spec_sub(c0x3x6x13).spec_sub(c0x1x7x14).spec_add(c0x3x5x14).spec_add(c0x1x6x15).spec_sub(c0x2x5x15).spec_add(c0x1x7x14).spec_sub(c1x3x4x14).spec_sub(c1x2x7x12).spec_add(c1x3x6x12),
        c0x1x6x15,
        c1x2x4x15,
    );
    lemma_append2_pos(
        c0x2x7x13.spec_sub(c0x3x6x13).spec_sub(c0x1x7x14).spec_add(c0x3x5x14).spec_add(c0x1x6x15).spec_sub(c0x2x5x15).spec_add(c0x1x7x14).spec_sub(c1x3x4x14).spec_sub(c1x2x7x12).spec_add(c1x3x6x12).spec_sub(c0x1x6x15).spec_add(c1x2x4x15),
        c1x2x7x12,
        c2x3x5x12,
    );
    lemma_append2_neg(
        c0x2x7x13.spec_sub(c0x3x6x13).spec_sub(c0x1x7x14).spec_add(c0x3x5x14).spec_add(c0x1x6x15).spec_sub(c0x2x5x15).spec_add(c0x1x7x14).spec_sub(c1x3x4x14).spec_sub(c1x2x7x12).spec_add(c1x3x6x12).spec_sub(c0x1x6x15).spec_add(c1x2x4x15).spec_add(c1x2x7x12).spec_sub(c2x3x5x12),
        c0x2x7x13,
        c2x3x4x13,
    );
    lemma_append2_pos(
        c0x2x7x13.spec_sub(c0x3x6x13).spec_sub(c0x1x7x14).spec_add(c0x3x5x14).spec_add(c0x1x6x15).spec_sub(c0x2x5x15).spec_add(c0x1x7x14).spec_sub(c1x3x4x14).spec_sub(c1x2x7x12).spec_add(c1x3x6x12).spec_sub(c0x1x6x15).spec_add(c1x2x4x15).spec_add(c1x2x7x12).spec_sub(c2x3x5x12).spec_sub(c0x2x7x13).spec_add(c2x3x4x13),
        c0x2x5x15,
        c1x2x4x15,
    );
    lemma_append2_pos(
        c0x2x7x13.spec_sub(c0x3x6x13).spec_sub(c0x1x7x14).spec_add(c0x3x5x14).spec_add(c0x1x6x15).spec_sub(c0x2x5x15).spec_add(c0x1x7x14).spec_sub(c1x3x4x14).spec_sub(c1x2x7x12).spec_add(c1x3x6x12).spec_sub(c0x1x6x15).spec_add(c1x2x4x15).spec_add(c1x2x7x12).spec_sub(c2x3x5x12).spec_sub(c0x2x7x13).spec_add(c2x3x4x13).spec_add(c0x2x5x15).spec_sub(c1x2x4x15),
        c0x3x6x13,
        c2x3x4x13,
    );
    lemma_append2_neg(
        c0x2x7x13.spec_sub(c0x3x6x13).spec_sub(c0x1x7x14).spec_add(c0x3x5x14).spec_add(c0x1x6x15).spec_sub(c0x2x5x15).spec_add(c0x1x7x14).spec_sub(c1x3x4x14).spec_sub(c1x2x7x12).spec_add(c1x3x6x12).spec_sub(c0x1x6x15).spec_add(c1x2x4x15).spec_add(c1x2x7x12).spec_sub(c2x3x5x12).spec_sub(c0x2x7x13).spec_add(c2x3x4x13).spec_add(c0x2x5x15).spec_sub(c1x2x4x15).spec_add(c0x3x6x13).spec_sub(c2x3x4x13),
        c1x3x6x12,
        c2x3x5x12,
    );
    lemma_append2_neg(
        c0x2x7x13.spec_sub(c0x3x6x13).spec_sub(c0x1x7x14).spec_add(c0x3x5x14).spec_add(c0x1x6x15).spec_sub(c0x2x5x15).spec_add(c0x1x7x14).spec_sub(c1x3x4x14).spec_sub(c1x2x7x12).spec_add(c1x3x6x12).spec_sub(c0x1x6x15).spec_add(c1x2x4x15).spec_add(c1x2x7x12).spec_sub(c2x3x5x12).spec_sub(c0x2x7x13).spec_add(c2x3x4x13).spec_add(c0x2x5x15).spec_sub(c1x2x4x15).spec_add(c0x3x6x13).spec_sub(c2x3x4x13).spec_sub(c1x3x6x12).spec_add(c2x3x5x12),
        c0x3x5x14,
        c1x3x4x14,
    );
    lemma_inv_chain2(c0x2x7x13, c0x3x6x13, c0x1x7x14, c0x3x5x14, c0x1x6x15, c0x2x5x15, c1x3x4x14, c1x2x7x12, c1x3x6x12, c1x2x4x15, c2x3x5x12, c2x3x4x13);
    lemma_zero_mul(inv_d);
    assert(mul_seq(inv, a)[2] == T::spec_zero());
}

proof fn lemma_inv_chain3<T: Scalar>(p1: T, p2: T, p3: T, p4: T, p5: T, p6: T, p7: T, p8: T, p9: T, p10: T, p11: T, p12: T)
    requires
        laws_sealed::<T>(),
    ensures
        p1.spec_sub(p2).spec_sub(p3).spec_add(p4).spec_sub(p5).spec_add(p6).spec_add(p7).spec_sub(p8).spec_sub(p1).spec_add(p9).spec_add(p5).spec_sub(p10).spec_add(p3).spec_sub(p11).spec_sub(p7).spec_add(p12).spec_sub(p6).spec_add(p10).spec_add(p8).spec_sub(p12).spec_sub(p4).spec_add(p11).spec_add(p2).spec_sub(p9) == T::spec_zero(),
{
    lemma_swap_ss(p1.spec_sub(p2).spec_sub(p3).spec_add(p4).spec_sub(p5).spec_add(p6).spec_add(p7), p8, p1);
    lemma_swap_as(p1.spec_sub(p2).spec_sub(p3).spec_add(p4).spec_sub(p5).spec_add(p6), p7, p1);
    lemma_swap_as(p1.spec_sub(p2).spec_sub(p3).spec_add(p4).spec_sub(p5), p6, p1);
    lemma_swap_ss(p1.spec_sub(p2).spec_sub(p3).spec_add(p4), p5, p1);
    lemma_swap_as(p1.spec_sub(p2).spec_sub(p3), p4, p1);
    lemma_swap_ss(p1.spec_sub(p2), p3, p1);
    lemma_swap_ss(p1, p2, p1);
    lemma_swap_aa(p1.spec_sub(p1).spec_sub(p2).spec_sub(p3).spec_add(p4).spec_sub(p5).spec_add(p6).spec_add(p7).spec_sub(p8).spec_add(p9).spec_add(p5).spec_sub(p10).spec_add(p3).spec_sub(p11).spec_sub(p7).spec_add(p12).spec_sub(p6).spec_add(p10).spec_add(p8).spec_sub(p12).spec_sub(p4), p11, p2);
    lemma_swap_sa(p1.spec_sub(p1).spec_sub(p2).spec_sub(p3).spec_add(p4).spec_sub(p5).spec_add(p6).spec_add(p7).spec_sub(p8).spec_add(p9).spec_add(p5).spec_sub(p10).spec_add(p3).spec_sub(p11).spec_sub(p7).spec_add(p12).spec_sub(p6).spec_add(p10).spec_add(p8).spec_sub(p12), p4, p2);
    lemma_swap_sa(p1.spec_sub(p1).spec_sub(p2).spec_sub(p3).spec_add(p4).spec_sub(p5).spec_add(p6).spec_add(p7).spec_sub(p8).spec_add(p9).spec_add(p5).spec_sub(p10).spec_add(p3).spec_sub(p11).spec_sub(p7).spec_add(p12).spec_sub(p6).spec_add(p10).spec_add(p8), p12, p2);
    lemma_swap_aa(p1.spec_sub(p1).spec_sub(p2).spec_sub(p3).spec_add(p4).spec_sub(p5).spec_add(p6).spec_add(p7).spec_sub(p8).spec_add(p9).spec_add(p5).spec_sub(p10).spec_add(p3).spec_sub(p11).spec_sub(p7).spec_add(p12).spec_sub(p6).spec_add(p10), p8, p2);
    lemma_swap_aa(p1.spec_sub(p1).spec_sub(p2).spec_sub(p3).spec_add(p4).spec_sub(p5).spec_add(p6).spec_add(p7).spec_sub(p8).spec_add(p9).spec_add(p5).spec_sub(p10).spec_add(p3).spec_sub(p11).spec_sub(p7).spec_add(p12).spec_sub(p6), p10, p2);
    lemma_swap_sa(p1.spec_sub(p1).spec_sub(p2).spec_sub(p3).spec_add(p4).spec_sub(p5).spec_add(p6).spec_add(p7).spec_sub(p8).spec_add(p9).spec_add(p5).spec_sub(p10).spec_add(p3).spec_sub(p11).spec_sub(p7).spec_add(p12), p6, p2);
    lemma_swap_aa(p1.spec_sub(p1).spec_sub(p2).spec_sub(p3).spec_add(p4).spec_sub(p5).spec_add(p6).spec_add(p7).spec_sub(p8).spec_add(p9).spec_add(p5).spec_sub(p10).spec_add(p3).spec_sub(p11).spec_sub(p7), p12, p2);
    lemma_swap_sa(p1.spec_sub(p1).spec_sub(p2).spec_sub(p3).spec_add(p4).spec_sub(p5).spec_add(p6).spec_add(p7).spec_sub(p8).spec_add(p9).spec_add(p5).spec_sub(p10).spec_add(p3).spec_sub(p11), p7, p2);
    lemma_swap_sa(p1.spec_sub(p1).spec_sub(p2).spec_sub(p3).spec_add(p4).spec_sub(p5).spec_add(p6).spec_add(p7).spec_sub(p8).spec_add(p9).spec_add(p5).spec_sub(p10).spec_add(p3), p11, p2);
    lemma_swap_aa(p1.spec_sub(p1).spec_sub(p2).spec_sub(p3).spec_add(p4).spec_sub(p5).spec_add(p6).spec_add(p7).spec_sub(p8).spec_add(p9).spec_add(p5).spec_sub(p10), p3, p2);
    lemma_swap_sa(p1.spec_sub(p1).spec_sub(p2).spec_sub(p3).spec_add(p4).spec_sub(p5).spec_add(p6).spec_add(p7).spec_sub(p8).spec_add(p9).spec_add(p5), p10, p2);
    lemma_swap_aa(p1.spec_sub(p1).spec_sub(p2).spec_sub(p3).spec_add(p4).spec_sub(p5).spec_add(p6).spec_add(p7).spec_sub(p8).spec_add(p9), p5, p2);
    lemma_swap_aa(p1.spec_sub(p1).spec_sub(p2).spec_sub(p3).spec_add(p4).spec_sub(p5).spec_add(p6).spec_add(p7).spec_sub(p8), p9, p2);
    lemma_swap_sa(p1.spec_sub(p1).spec_sub(p2).spec_sub(p3).spec_add(p4).spec_sub(p5).spec_add(p6).spec_add(p7), p8, p2);
    lemma_swap_aa(p1.spec_sub(p1).spec_sub(p2).spec_sub(p3).spec_add(p4).spec_sub(p5).spec_add(p6), p7, p2);
    lemma_swap_aa(p1.spec_sub(p1).spec_sub(p2).spec_sub(p3).spec_add(p4).spec_sub(p5), p6, p2);
    lemma_swap_sa(p1.spec_sub(p1).spec_sub(p2).spec_sub(p3).spec_add(p4), p5, p2);
    lemma_swap_aa(p1.spec_sub(p1).spec_sub(p2).spec_sub(p3), p4, p2);
    lemma_swap_sa(p1.spec_sub(p1).spec_sub(p2), p3, p2);
    lemma_swap_sa(p1.spec_sub(p1), p2, p2);
    lemma_swap_sa(p1.spec_sub(p1).spec_add(p2).spec_sub(p2).spec_sub(p3).spec_add(p4).spec_sub(p5).spec_add(p6).spec_add(p7).spec_sub(p8).spec_add(p9).spec_add(p5), p10, p3);
    lemma_swap_aa(p1.spec_sub(p1).spec_add(p2).spec_sub(p2).spec_sub(p3).spec_add(p4).spec_sub(p5).spec_add(p6).spec_add(p7).spec_sub(p8).spec_add(p9), p5, p3);
    lemma_swap_aa(p1.spec_sub(p1).spec_add(p2).spec_sub(p2).spec_sub(p3).spec_add(p4).spec_sub(p5).spec_add(p6).spec_add(p7).spec_sub(p8), p9, p3);
    lemma_swap_sa(p1.spec_sub(p1).spec_add(p2).spec_sub(p2).spec_sub(p3).spec_add(p4).spec_sub(p5).spec_add(p6).spec_add(p7), p8, p3);
    lemma_swap_aa(p1.spec_sub(p1).spec_add(p2).spec_sub(p2).spec_sub(p3).spec_add(p4).spec_sub(p5).spec_add(p6), p7, p3);
    lemma_swap_aa(p1.spec_sub(p1).spec_add(p2).spec_sub(p2).spec_sub(p3).spec_add(p4).spec_sub(p5), p6, p3);
    lemma_swap_sa(p1.spec_sub(p1).spec_add(p2).spec_sub(p2).spec_sub(p3).spec_add(p4), p5, p3);
    lemma_swap_aa(p1.spec_sub(p1).spec_add(p2).spec_sub(p2).spec_sub(p3), p4, p3);
    lemma_swap_sa(p1.spec_sub(p1).spec_add(p2).spec_sub(p2), p3, p3);
    lemma_swap_ss(p1.spec_sub(p1).spec_add(p2).spec_sub(p2).spec_add(p3).spec_sub(p3).spec_add(p4).spec_sub(p5).spec_add(p6).spec_add(p7).spec_sub(p8).spec_add(p9).spec_add(p5).spec_sub(p10).spec_sub(p11).spec_sub(p7).spec_add(p12).spec_sub(p6).spec_add(p10).spec_add(p8), p12, p4);
    lemma_swap_as(p1.spec_sub(p1).spec_add(p2).spec_sub(p2).spec_add(p3).spec_sub(p3).spec_add(p4).spec_sub(p5).spec_add(p6).spec_add(p7).spec_sub(p8).spec_add(p9).spec_add(p5).spec_sub(p10).spec_sub(p11).spec_sub(p7).spec_add(p12).spec_sub(p6).spec_add(p10), p8, p4);
    lemma_swap_as(p1.spec_sub(p1).spec_add(p2).spec_sub(p2).spec_add(p3).spec_sub(p3).spec_add(p4).spec_sub(p5).spec_add(p6).spec_add(p7).spec_sub(p8).spec_add(p9).spec_add(p5).spec_sub(p10).spec_sub(p11).spec_sub(p7).spec_add(p12).spec_sub(p6), p10, p4);
    lemma_swap_ss(p1.spec_sub(p1).spec_add(p2).spec_sub(p2).spec_add(p3).spec_sub(p3).spec_add(p4).spec_sub(p5).spec_add(p6).spec_add(p7).spec_sub(p8).spec_add(p9).spec_add(p5).spec_sub(p10).spec_sub(p11).spec_sub(p7).spec_add(p12), p6, p4);
    lemma_swap_as(p1.spec_sub(p1).spec_add(p2).spec_sub(p2).spec_add(p3).spec_sub(p3).spec_add(p4).spec_sub(p5).spec_add(p6).spec_add(p7).spec_sub(p8).spec_add(p9).spec_add(p5).spec_sub(p10).spec_sub(p11).spec_sub(p7), p12, p4);
    lemma_swap_ss(p1.spec_sub(p1).spec_add(p2).spec_sub(p2).spec_add(p3).spec_sub(p3).spec_add(p4).spec_sub(p5).spec_add(p6).spec_add(p7).spec_sub(p8).spec_add(p9).spec_add(p5).spec_sub(p10).spec_sub(p11), p7, p4);
    lemma_swap_ss(p1.spec_sub(p1).spec_add(p2).spec_sub(p2).spec_add(p3).spec_sub(p3).spec_add(p4).spec_sub(p5).spec_add(p6).spec_add(p7).spec_sub(p8).spec_add(p9).spec_add(p5).spec_sub(p10), p11, p4);
    lemma_swap_ss(p1.spec_sub(p1).spec_add(p2).spec_sub(p2).spec_add(p3).spec_sub(p3).spec_add(p4).spec_sub(p5).spec_add(p6).spec_add(p7).spec_sub(p8).spec_add(p9).spec_add(p5), p10, p4);
    lemma_swap_as(p1.spec_sub(p1).spec_add(p2).spec_sub(p2).spec_add(p3).spec_sub(p3).spec_add(p4).spec_sub(p5).spec_add(p6).spec_add(p7).spec_sub(p8).spec_add(p9), p5, p4);
    lemma_swap_as(p1.spec_sub(p1).spec_add(p2).spec_sub(p2).spec_add(p3).spec_sub(p3).spec_add(p4).spec_sub(p5).spec_add(p6).spec_add(p7).spec_sub(p8), p9, p4);
    lemma_swap_ss(p1.spec_sub(p1).spec_add(p2).spec_sub(p2).spec_add(p3).spec_sub(p3).spec_add(p4).spec_sub(p5).spec_add(p6).spec_add(p7), p8, p4);
    lemma_swap_as(p1.spec_sub(p1).spec_add(p2).spec_sub(p2).spec_add(p3).spec_sub(p3).spec_add(p4).spec_sub(p5).spec_add(p6), p7, p4);
    lemma_swap_as(p1.spec_sub(p1).spec_add(p2).spec_sub(p2).spec_add(p3).spec_sub(p3).spec_add(p4).spec_sub(p5), p6, p4);
    lemma_swap_ss(p1.spec_sub(p1).spec_add(p2).spec_sub(p2).spec_add(p3).spec_sub(p3).spec_add(p4), p5, p4);
    lemma_swap_aa(p1.spec_sub(p1).spec_add(p2).spec_sub(p2).spec_add(p3).spec_sub(p3).spec_add(p4).spec_sub(p4).spec_sub(p5).spec_add(p6).spec_add(p7).spec_sub(p8), p9, p5);
    lemma_swap_sa(p1.spec_sub(p1).spec_add(p2).spec_sub(p2).spec_add(p3).spec_sub(p3).spec_add(p4).spec_sub(p4).spec_sub(p5).spec_add(p6).spec_add(p7), p8, p5);
    lemma_swap_aa(p1.spec_sub(p1).spec_add(p2).spec_sub(p2).spec_add(p3).spec_sub(p3).spec_add(p4).spec_sub(p4).spec_sub(p5).spec_add(p6), p7, p5);
    lemma_swap_aa(p1.spec_sub(p1).spec_add(p2).spec_sub(p2).spec_add(p3).spec_sub(p3).spec_add(p4).spec_sub(p4).spec_sub(p5), p6, p5);
    lemma_swap_sa(p1.spec_sub(p1).spec_add(p2).spec_sub(p2).spec_add(p3).spec_sub(p3).spec_add(p4).spec_sub(p4), p5, p5);
    lemma_swap_as(p1.spec_sub(p1).spec_add(p2).spec_sub(p2).spec_add(p3).spec_sub(p3).spec_add(p4).spec_sub(p4).spec_add(p5).spec_sub(p5).spec_add(p6).spec_add(p7).spec_sub(p8).spec_add(p9).spec_sub(p10).spec_sub(p11).spec_sub(p7), p12, p6);
    lemma_swap_ss(p1.spec_sub(p1).spec_add(p2).spec_sub(p2).spec_add(p3).spec_sub(p3).spec_add(p4).spec_sub(p4).spec_add(p5).spec_sub(p5).spec_add(p6).spec_add(p7).spec_sub(p8).spec_add(p9).spec_sub(p10).spec_sub(p11), p7, p6);
    lemma_swap_ss(p1.spec_sub(p1).spec_add(p2).spec_sub(p2).spec_add(p3).spec_sub(p3).spec_add(p4).spec_sub(p4).spec_add(p5).spec_sub(p5).spec_add(p6).spec_add(p7).spec_sub(p8).spec_add(p9).spec_sub(p10), p11, p6);
    lemma_swap_ss(p1.spec_sub(p1).spec_add(p2).spec_sub(p2).spec_add(p3).spec_sub(p3).spec_add(p4).spec_sub(p4).spec_add(p5).spec_sub(p5).spec_add(p6).spec_add(p7).spec_sub(p8).spec_add(p9), p10, p6);
    lemma_swap_as(p1.spec_sub(p1).spec_add(p2).spec_sub(p2).spec_add(p3).spec_sub(p3).spec_add(p4).spec_sub(p4).spec_add(p5).spec_sub(p5).spec_add(p6).spec_add(p7).spec_sub(p8), p9, p6);
    lemma_swap_ss(p1.spec_sub(p1).spec_add(p2).spec_sub(p2).spec_add(p3).spec_sub(p3).spec_add(p4).spec_sub(p4).spec_add(p5).spec_sub(p5).spec_add(p6).spec_add(p7), p8, p6);
    lemma_swap_as(p1.spec_sub(p1).spec_add(p2).spec_sub(p2).spec_add(p3).spec_sub(p3).spec_add(p4).spec_sub(p4).spec_add(p5).spec_sub(p5).spec_add(p6), p7, p6);
    lemma_swap_ss(p1.spec_sub(p1).spec_add(p2).spec_sub(p2).spec_add(p3).spec_sub(p3).spec_add(p4).spec_sub(p4).spec_add(p5).spec_sub(p5).spec_add(p6).spec_sub(p6).spec_add(p7).spec_sub(p8).spec_add(p9).spec_sub(p10), p11, p7);
    lemma_swap_ss(p1.spec_sub(p1).spec_add(p2).spec_sub(p2).spec_add(p3).spec_sub(p3).spec_add(p4).spec_sub(p4).spec_add(p5).spec_sub(p5).spec_add(p6).spec_sub(p6).spec_add(p7).spec_sub(p8).spec_add(p9), p10, p7);
    lemma_swap_as(p1.spec_sub(p1).spec_add(p2).spec_sub(p2).spec_add(p3).spec_sub(p3).spec_add(p4).spec_sub(p4).spec_add(p5).spec_sub(p5).spec_add(p6).spec_sub(p6).spec_add(p7).spec_sub(p8), p9, p7);
    lemma_swap_ss(p1.spec_sub(p1).spec_add(p2).spec_sub(p2).spec_add(p3).spec_sub(p3).spec_add(p4).spec_sub(p4).spec_add(p5).spec_sub(p5).spec_add(p6).spec_sub(p6).spec_add(p7), p8, p7);
    lemma_swap_aa(p1.spec_sub(p1).spec_add(p2).spec_sub(p2).spec_add(p3).spec_sub(p3).spec_add(p4).spec_sub(p4).spec_add(p5).spec_sub(p5).spec_add(p6).spec_sub(p6).spec_add(p7).spec_sub(p7).spec_sub(p8).spec_add(p9).spec_sub(p10).spec_sub(p11).spec_add(p12), p10, p8);
    lemma_swap_aa(p1.spec_sub(p1).spec_add(p2).spec_sub(p2).spec_add(p3).spec_sub(p3).spec_add(p4).spec_sub(p4).spec_add(p5).spec_sub(p5).spec_add(p6).spec_sub(p6).spec_add(p7).spec_sub(p7).spec_sub(p8).spec_add(p9).spec_sub(p10).spec_sub(p11), p12, p8);
    lemma_swap_sa(p1.spec_sub(p1).spec_add(p2).spec_sub(p2).spec_add(p3).spec_sub(p3).spec_add(p4).spec_sub(p4).spec_add(p5).spec_sub(p5).spec_add(p6).spec_sub(p6).spec_add(p7).spec_sub(p7).spec_sub(p8).spec_add(p9).spec_sub(p10), p11, p8);
    lemma_swap_sa(p1.spec_sub(p1).spec_add(p2).spec_sub(p2).spec_add(p3).spec_sub(p3).spec_add(p4).spec_sub(p4).spec_add(p5).spec_sub(p5).spec_add(p6).spec_sub(p6).spec_add(p7).spec_sub(p7).spec_sub(p8).spec_add(p9), p10, p8);
    lemma_swap_aa(p1.spec_sub(p1).spec_add(p2).spec_sub(p2).spec_add(p3).spec_sub(p3).spec_add(p4).spec_sub(p4).spec_add(p5).spec_sub(p5).spec_add(p6).spec_sub(p6).spec_add(p7).spec_sub(p7).spec_sub(p8), p9, p8);
    lemma_swap_sa(p1.spec_sub(p1).spec_add(p2).spec_sub(p2).spec_add(p3).spec_sub(p3).spec_add(p4).spec_sub(p4).spec_add(p5).spec_sub(p5).spec_add(p6).spec_sub(p6).spec_add(p7).spec_sub(p7), p8, p8);
    lemma_swap_as(p1.spec_sub(p1).spec_add(p2).spec_sub(p2).spec_add(p3).spec_sub(p3).spec_add(p4).spec_sub(p4).spec_add(p5).spec_sub(p5).spec_add(p6).spec_sub(p6).spec_add(p7).spec_sub(p7).spec_add(p8).spec_sub(p8).spec_add(p9).spec_sub(p10).spec_sub(p11).spec_add(p12).spec_add(p10).spec_sub(p12), p11, p9);
    lemma_swap_ss(p1.spec_sub(p1).spec_add(p2).spec_sub(p2).spec_add(p3).spec_sub(p3).spec_add(p4).spec_sub(p4).spec_add(p5).spec_sub(p5).spec_add(p6).spec_sub(p6).spec_add(p7).spec_sub(p7).spec_add(p8).spec_sub(p8).spec_add(p9).spec_sub(p10).spec_sub(p11).spec_add(p12).spec_add(p10), p12, p9);
    lemma_swap_as(p1.spec_sub(p1).spec_add(p2).spec_sub(p2).spec_add(p3).spec_sub(p3).spec_add(p4).spec_sub(p4).spec_add(p5).spec_sub(p5).spec_add(p6).spec_sub(p6).spec_add(p7).spec_sub(p7).spec_add(p8).spec_sub(p8).spec_add(p9).spec_sub(p10).spec_sub(p11).spec_add(p12), p10, p9);
    lemma_swap_as(p1.spec_sub(p1).spec_add(p2).spec_sub(p2).spec_add(p3).spec_sub(p3).spec_add(p4).spec_sub(p4).spec_add(p5).spec_sub(p5).spec_add(p6).spec_sub(p6).spec_add(p7).spec_sub(p7).spec_add(p8).spec_sub(p8).spec_add(p9).spec_sub(p10).spec_sub(p11), p12, p9);
    lemma_swap_ss(p1.spec_sub(p1).spec_add(p2).spec_sub(p2).spec_add(p3).spec_sub(p3).spec_add(p4).spec_sub(p4).spec_add(p5).spec_sub(p5).spec_add(p6).spec_sub(p6).spec_add(p7).spec_sub(p7).spec_add(p8).spec_sub(p8).spec_add(p9).spec_sub(p10), p11, p9);
    lemma_swap_ss(p1.spec_sub(p1).spec_add(p2).spec_sub(p2).spec_add(p3).spec_sub(p3).spec_add(p4).spec_sub(p4).spec_add(p5).spec_sub(p5).spec_add(p6).spec_sub(p6).spec_add(p7).spec_sub(p7).spec_add(p8).spec_sub(p8).spec_add(p9), p10, p9);
    lemma_swap_aa(p1.spec_sub(p1).spec_add(p2).spec_sub(p2).spec_add(p3).spec_sub(p3).spec_add(p4).spec_sub(p4).spec_add(p5).spec_sub(p5).spec_add(p6).spec_sub(p6).spec_add(p7).spec_sub(p7).spec_add(p8).spec_sub(p8).spec_add(p9).spec_sub(p9).spec_sub(p10).spec_sub(p11), p12, p10);
    lemma_swap_sa(p1.spec_sub(p1).spec_add(p2).spec_sub(p2).spec_add(p3).spec_sub(p3).spec_add(p4).spec_sub(p4).spec_add(p5).spec_sub(p5).spec_add(p6).spec_sub(p6).spec_add(p7).spec_sub(p7).spec_add(p8).spec_sub(p8).spec_add(p9).spec_sub(p9).spec_sub(p10), p11, p10);
    lemma_swap_sa(p1.spec_sub(p1).spec_add(p2).spec_sub(p2).spec_add(p3).spec_sub(p3).spec_add(p4).spec_sub(p4).spec_add(p5).spec_sub(p5).spec_add(p6).spec_sub(p6).spec_add(p7).spec_sub(p7).spec_add(p8).spec_sub(p8).spec_add(p9).spec_sub(p9), p10, p10);
    lemma_swap_sa(p1.spec_sub(p1).spec_add(p2).spec_sub(p2).spec_add(p3).spec_sub(p3).spec_add(p4).spec_sub(p4).spec_add(p5).spec_sub(p5).spec_add(p6).spec_sub(p6).spec_add(p7).spec_sub(p7).spec_add(p8).spec_sub(p8).spec_add(p9).spec_sub(p9).spec_add(p10).spec_sub(p10).spec_sub(p11).spec_add(p12), p12, p11);
    lemma_swap_aa(p1.spec_sub(p1).spec_add(p2).spec_sub(p2).spec_add(p3).spec_sub(p3).spec_add(p4).spec_sub(p4).spec_add(p5).spec_sub(p5).spec_add(p6).spec_sub(p6).spec_add(p7).spec_sub(p7).spec_add(p8).spec_sub(p8).spec_add(p9).spec_sub(p9).spec_add(p10).spec_sub(p10).spec_sub(p11), p12, p11);
    lemma_swap_sa(p1.spec_sub(p1).spec_add(p2).spec_sub(p2).spec_add(p3).spec_sub(p3).spec_add(p4).spec_sub(p4).spec_add(p5).spec_sub(p5).spec_add(p6).spec_sub(p6).spec_add(p7).spec_sub(p7).spec_add(p8).spec_sub(p8).spec_add(p9).spec_sub(p9).spec_add(p10).spec_sub(p10), p11, p11);
    lemma_self_cancel(p1);
    lemma_cancel_adj(p1.spec_sub(p1), p2);
    lemma_cancel_adj(p1.spec_sub(p1).spec_add(p2).spec_sub(p2), p3);
    lemma_cancel_adj(p1.spec_sub(p1).spec_add(p2).spec_sub(p2).spec_add(p3).spec_sub(p3), p4);
    lemma_cancel_adj(p1.spec_sub(p1).spec_add(p2).spec_sub(p2).spec_add(p3).spec_sub(p3).spec_add(p4).spec_sub(p4), p5);
    lemma_cancel_adj(p1.spec_sub(p1).spec_add(p2).spec_sub(p2).spec_add(p3).spec_sub(p3).spec_add(p4).spec_sub(p4).spec_add(p5).spec_sub(p5), p6);
    lemma_cancel_adj(p1.spec_sub(p1).spec_add(p2).spec_sub(p2).spec_add(p3).spec_sub(p3).spec_add(p4).spec_sub(p4).spec_add(p5).spec_sub(p5).spec_add(p6).spec_sub(p6), p7);
    lemma_cancel_adj(p1.spec_sub(p1).spec_add(p2).spec_sub(p2).spec_add(p3).spec_sub(p3).spec_add(p4).spec_sub(p4).spec_add(p5).spec_sub(p5).spec_add(p6).spec_sub(p6).spec_add(p7).spec_sub(p7), p8);
    lemma_cancel_adj(p1.spec_sub(p1).spec_add(p2).spec_sub(p2).spec_add(p3).spec_sub(p3).spec_add(p4).spec_sub(p4).spec_add(p5).spec_sub(p5).spec_add(p6).spec_sub(p6).spec_add(p7).spec_sub(p7).spec_add(p8).spec_sub(p8), p9);
    lemma_cancel_adj(p1.spec_sub(p1).spec_add(p2).spec_sub(p2).spec_add(p3).spec_sub(p3).spec_add(p4).spec_sub(p4).spec_add(p5).spec_sub(p5).spec_add(p6).spec_sub(p6).spec_add(p7).spec_sub(p7).spec_add(p8).spec_sub(p8).spec_add(p9).spec_sub(p9), p10);
    lemma_cancel_adj(p1.spec_sub(p1).spec_add(p2).spec_sub(p2).spec_add(p3).spec_sub(p3).spec_add(p4).spec_sub(p4).spec_add(p5).spec_sub(p5).spec_add(p6).spec_sub(p6).spec_add(p7).spec_sub(p7).spec_add(p8).spec_sub(p8).spec_add(p9).spec_sub(p9).spec_add(p10).spec_sub(p10), p11);
    lemma_cancel_adj(p1.spec_sub(p1).spec_add(p2).spec_sub(p2).spec_add(p3).spec_sub(p3).spec_add(p4).spec_sub(p4).spec_add(p5).spec_sub(p5).spec_add(p6).spec_sub(p6).spec_add(p7).spec_sub(p7).spec_add(p8).spec_sub(p8).spec_add(p9).spec_sub(p9).spec_add(p10).spec_sub(p10).spec_add(p11).spec_sub(p11), p12);
}

pub(crate) proof fn lemma_inv_entry3<T: Scalar>(a: Seq<T>)
    requires
        a.len() == 16,
        field_sealed::<T>(),
        !det_seq(a).spec_is_zero(),
    ensures
        mul_seq(inverse_seq(a), a)[3] == T::spec_zero(),
{
    lemma_field_gives_ring::<T>();
    let inv = inverse_seq(a);
    let inv_d = T::spec_one().spec_div(det_seq(a));
    let b00 = minor2(a, 0, 5, 1, 4);
    let b01 = minor2(a, 0, 6, 2, 4);
    let b02 = minor2(a, 0, 7, 3, 4);
    let b03 = minor2(a, 1, 6, 2, 5);
    let b04 = minor2(a, 1, 7, 3, 5);
    let b05 = minor2(a, 2, 7, 3, 6);
    let b06 = minor2(a, 8, 13, 9, 12);
    let b07 = minor2(a, 8, 14, 10, 12);
    let b08 = minor2(a, 8, 15, 11, 12);
    let b09 = minor2(a, 9, 14, 10, 13);
    let b10 = minor2(a, 9, 15, 11, 13);
    let b11 = minor2(a, 10, 15, 11, 14);
    assert(mul_seq(inv, a)[3] == a[0].spec_mul(inv[3]).spec_add(a[1].spec_mul(inv[7])).spec_add(a[2].spec_mul(inv[11])).spec_add(a[3].spec_mul(inv[15])));
    assert(inv[3] == a[10].spec_mul(b04).spec_sub(a[9].spec_mul(b05)).spec_sub(a[11].spec_mul(b03)).spec_mul(inv_d));
    assert(inv[7] == a[8].spec_mul(b05).spec_sub(a[10].spec_mul(b02)).spec_add(a[11].spec_mul(b01)).spec_mul(inv_d));
    assert(inv[11] == a[9].spec_mul(b02).spec_sub(a[8].spec_mul(b04)).spec_sub(a[11].spec_mul(b00)).spec_mul(inv_d));
    assert(inv[15] == a[8].spec_mul(b03).spec_sub(a[9].spec_mul(b01)).spec_add(a[10].spec_mul(b00)).spec_mul(inv_d));
    lemma_mul_assoc(a[0], a[10].spec_mul(b04).spec_sub(a[9].spec_mul(b05)).spec_sub(a[11].spec_mul(b03)), inv_d);
    lemma_mul_assoc(a[1], a[8].spec_mul(b05).spec_sub(a[10].spec_mul(b02)).spec_add(a[11].spec_mul(b01)), inv_d);
    lemma_mul_assoc(a[2], a[9].spec_mul(b02).spec_sub(a[8].spec_mul(b04)).spec_sub(a[11].spec_mul(b00)), inv_d);
    lemma_mul_assoc(a[3], a[8].spec_mul(b03).spec_sub(a[9].spec_mul(b01)).spec_add(a[10].spec_mul(b00)), inv_d);
    lemma_factor4(
        a[0].spec_mul(a[10].spec_mul(b04).spec_sub(a[9].spec_mul(b05)).spec_sub(a[11].spec_mul(b03))),
        a[1].spec_mul(a[8].spec_mul(b05).spec_sub(a[10].spec_mul(b02)).spec_add(a[11].spec_mul(b01))),
        a[2].spec_mul(a[9].spec_mul(b02).spec_sub(a[8].spec_mul(b04)).spec_sub(a[11].spec_mul(b00))),
        a[3].spec_mul(a[8].spec_mul(b03).spec_sub(a[9].spec_mul(b01)).spec_add(a[10].spec_mul(b00))),
        inv_d,
    );
    lemma_distrib3_pmm(a[0], a[10].spec_mul(b04), a[9].spec_mul(b05), a[11].spec_mul(b03));
    lemma_mul_assoc(a[0], a[10], b04);
    lemma_mul_assoc(a[0], a[9], b05);
    lemma_mul_assoc(a[0], a[11], b03);
    lemma_distrib3_pmp(a[1], a[8].spec_mul(b05), a[10].spec_mul(b02), a[11].spec_mul(b01));
    lemma_mul_assoc(a[1], a[8], b05);
    lemma_mul_assoc(a[1], a[10], b02);
    lemma_mul_assoc(a[1], a[11], b01);
    lemma_distrib3_pmm(a[2], a[9].spec_mul(b02), a[8].spec_mul(b04), a[11].spec_mul(b00));
    lemma_mul_assoc(a[2], a[9], b02);
    lemma_mul_assoc(a[2], a[8], b04);
    lemma_mul_assoc(a[2], a[11], b00);
    lemma_distrib3_pmp(a[3], a[8].spec_mul(b03), a[9].spec_mul(b01), a[10].spec_mul(b00));
    lemma_mul_assoc(a[3], a[8], b03);
    lemma_mul_assoc(a[3], a[9], b01);
    lemma_mul_assoc(a[3], a[10], b00);
    lemma_append3_pmp(
        a[0].spec_mul(a[10]).spec_mul(b04).spec_sub(a[0].spec_mul(a[9]).spec_mul(b05)).spec_sub(a[0].spec_mul(a[11]).spec_mul(b03)),
        a[1].spec_mul(a[8]).spec_mul(b05),
        a[1].spec_mul(a[10]).spec_mul(b02),
        a[1].spec_mul(a[11]).spec_mul(b01),
    );
    lemma_append3_pmm(
        a[0].spec_mul(a[10]).spec_mul(b04).spec_sub(a[0].spec_mul(a[9]).spec_mul(b05)).spec_sub(a[0].spec_mul(a[11]).spec_mul(b03)).spec_add(a[1].spec_mul(a[8]).spec_mul(b05)).spec_sub(a[1].spec_mul(a[10]).spec_mul(b02)).spec_add(a[1].spec_mul(a[11]).spec_mul(b01)),
        a[2].spec_mul(a[9]).spec_mul(b02),
        a[2].spec_mul(a[8]).spec_mul(b04),
        a[2].spec_mul(a[11]).spec_mul(b00),
    );
    lemma_append3_pmp(
        a[0].spec_mul(a[10]).spec_mul(b04).spec_sub(a[0].spec_mul(a[9]).spec_mul(b05)).spec_sub(a[0].spec_mul(a[11]).spec_mul(b03)).spec_add(a[1].spec_mul(a[8]).spec_mul(b05)).spec_sub(a[1].spec_mul(a[10]).spec_mul(b02)).spec_add(a[1].spec_mul(a[11]).spec_mul(b01)).spec_add(a[2].spec_mul(a[9]).spec_mul(b02)).spec_sub(a[2].spec_mul(a[8]).spec_mul(b04)).spec_sub(a[2].spec_mul(a[11]).spec_mul(b00)),
        a[3].spec_mul(a[8]).spec_mul(b03),
        a[3].spec_mul(a[9]).spec_mul(b01),
        a[3].spec_mul(a[10]).spec_mul(b00),
    );
    let c0x1x7x10 = a[0].spec_mul(a[1]).spec_mul(a[7].spec_mul(a[10]));
    let c0x3x5x10 = a[0].spec_mul(a[3]).spec_mul(a[5].spec_mul(a[10]));
    let c0x2x7x9 = a[0].spec_mul(a[2]).spec_mul(a[7].spec_mul(a[9]));
    let c0x3x6x9 = a[0].spec_mul(a[3]).spec_mul(a[6].spec_mul(a[9]));
    let c0x1x6x11 = a[0].spec_mul(a[1]).spec_mul(a[6].spec_mul(a[11]));
    let c0x2x5x11 = a[0].spec_mul(a[2]).spec_mul(a[5].spec_mul(a[11]));
    let c1x2x7x8 = a[1].spec_mul(a[2]).spec_mul(a[7].spec_mul(a[8]));
    let c1x3x6x8 = a[1].spec_mul(a[3]).spec_mul(a[6].spec_mul(a[8]));
    let c1x3x4x10 = a[1].spec_mul(a[3]).spec_mul(a[4].spec_mul(a[10]));
    let c1x2x4x11 = a[1].spec_mul(a[2]).spec_mul(a[4].spec_mul(a[11]));
    let c2x3x4x9 = a[2].spec_mul(a[3]).spec_mul(a[4].spec_mul(a[9]));
    let c2x3x5x8 = a[2].spec_mul(a[3]).spec_mul(a[5].spec_mul(a[8]));
    lemma_distrib2(a[0].spec_mul(a[10]), a[1].spec_mul(a[7]), a[3].spec_mul(a[5]));
    lemma_distrib2(a[0].spec_mul(a[9]), a[2].spec_mul(a[7]), a[3].spec_mul(a[6]));
    lemma_distrib2(a[0].spec_mul(a[11]), a[1].spec_mul(a[6]), a[2].spec_mul(a[5]));
    lemma_distrib2(a[1].spec_mul(a[8]), a[2].spec_mul(a[7]), a[3].spec_mul(a[6]));
    lemma_distrib2(a[1].spec_mul(a[10]), a[0].spec_mul(a[7]), a[3].spec_mul(a[4]));
    lemma_distrib2(a[1].spec_mul(a[11]), a[0].spec_mul(a[6]), a[2].spec_mul(a[4]));
    lemma_distrib2(a[2].spec_mul(a[9]), a[0].spec_mul(a[7]), a[3].spec_mul(a[4]));
    lemma_distrib2(a[2].spec_mul(a[8]), a[1].spec_mul(a[7]), a[3].spec_mul(a[5]));
    lemma_distrib2(a[2].spec_mul(a[11]), a[0].spec_mul(a[5]), a[1].spec_mul(a[4]));
    lemma_distrib2(a[3].spec_mul(a[8]), a[1].spec_mul(a[6]), a[2].spec_mul(a[5]));
    lemma_distrib2(a[3].spec_mul(a[9]), a[0].spec_mul(a[6]), a[2].spec_mul(a[4]));
    lemma_distrib2(a[3].spec_mul(a[10]), a[0].spec_mul(a[5]), a[1].spec_mul(a[4]));
    lemma_mul4_rearrange(a[0], a[10], a[1], a[7]);
    lemma_mul_comm(a[10], a[7]);
    lemma_mul4_rearrange(a[0], a[10], a[3], a[5]);
    lemma_mul_comm(a[10], a[5]);
    lemma_mul4_rearrange(a[0], a[9], a[2], a[7]);
    lemma_mul_comm(a[9], a[7]);
    lemma_mul4_rearrange(a[0], a[9], a[3], a[6]);
    lemma_mul_comm(a[9], a[6]);
    lemma_mul4_rearrange(a[0], a[11], a[1], a[6]);
    lemma_mul_comm(a[11], a[6]);
    lemma_mul4_rearrange(a[0], a[11], a[2], a[5]);
    lemma_mul_comm(a[11], a[5]);
    lemma_mul4_rearrange(a[1], a[8], a[2], a[7]);
    lemma_mul_comm(a[8], a[7]);
    lemma_mul4_rearrange(a[1], a[8], a[3], a[6]);
    lemma_mul_comm(a[8], a[6]);
    lemma_mul4_rearrange(a[1], a[10], a[0], a[7]);
    lemma_mul_comm(a[1], a[0]);
    lemma_mul4_rearrange(a[1], a[10], a[3], a[4]);
    lemma_mul_comm(a[10], a[4]);
    lemma_mul4_rearrange(a[1], a[11], a[0], a[6]);
    lemma_mul4_rearrange(a[1], a[11], a[2], a[4]);
    lemma_mul_comm(a[11], a[4]);
    lemma_mul4_rearrange(a[2], a[9], a[0], a[7]);
    lemma_mul_comm(a[2], a[0]);
    lemma_mul4_rearrange(a[2], a[9], a[3], a[4]);
    lemma_mul_comm(a[9], a[4]);
    lemma_mul4_rearrange(a[2], a[8], a[1], a[7]);
    lemma_mul_comm(a[2], a[1]);
    lemma_mul4_rearrange(a[2], a[8], a[3], a[5]);
    lemma_mul_comm(a[8], a[5]);
    lemma_mul4_rearrange(a[2], a[11], a[0], a[5]);
    lemma_mul4_rearrange(a[2], a[11], a[1], a[4]);
    lemma_mul4_rearrange(a[3], a[8], a[1], a[6]);
    lemma_mul_comm(a[3], a[1]);
    lemma_mul4_rearrange(a[3], a[8], a[2], a[5]);
    lemma_mul_comm(a[3], a[2]);
    lemma_mul4_rearrange(a[3], a[9], a[0], a[6]);
    lemma_mul_comm(a[3], a[0]);
    lemma_mul4_rearrange(a[3], a[9], a[2], a[4]);
    lemma_mul4_rearrange(a[3], a[10], a[0], a[5]);
    lemma_mul4_rearrange(a[3], a[10], a[1], a[4]);
    lemma_append2_neg(
        c0x1x7x10.spec_sub(c0x3x5x10),
        c0x2x7x9,
        c0x3x6x9,
    );
    lemma_append2_neg(
        c0x1x7x10.spec_sub(c0x3x5x10).spec_sub(c0x2x7x9).spec_add(c0x3x6x9),
        c0x1x6x11,
        c0x2x5x11,
    );
    lemma_append2_pos(
        c0x1x7x10.spec_sub(c0x3x5x10).spec_sub(c0x2x7x9).spec_add(c0x3x6x9).spec_sub(c0x1x6x11).spec_add(c0x2x5x11),
        c1x2x7x8,
        c1x3x6x8,
    );
    lemma_append2_neg(
        c0x1x7x10.spec_sub(c0x3x5x10).spec_sub(c0x2x7x9).spec_add(c0x3x6x9).spec_sub(c0x1x6x11).spec_add(c0x2x5x11).spec_add(c1x2x7x8).spec_sub(c1x3x6x8),
        c0x1x7x10,
        c1x3x4x10,
    );
    lemma_append2_pos(
        c0x1x7x10.spec_sub(c0x3x5x10).spec_sub(c0x2x7x9).spec_add(c0x3x6x9).spec_sub(c0x1x6x11).spec_add(c0x2x5x11).spec_add(c1x2x7x8).spec_sub(c1x3x6x8).spec_sub(c0x1x7x10).spec_add(c1x3x4x10),
        c0x1x6x11,
        c1x2x4x11,
    );
    lemma_append2_pos(
        c0x1x7x10.spec_sub(c0x3x5x10).spec_sub(c0x2x7x9).spec_add(c0x3x6x9).spec_sub(c0x1x6x11).spec_add(c0x2x5x11).spec_add(c1x2x7x8).spec_sub(c1x3x6x8).spec_sub(c0x1x7x10).spec_add(c1x3x4x10).spec_add(c0x1x6x11).spec_sub(c1x2x4x11),
        c0x2x7x9,
        c2x3x4x9,
    );
    lemma_append2_neg(
        c0x1x7x10.spec_sub(c0x3x5x10).spec_sub(c0x2x7x9).spec_add(c0x3x6x9).spec_sub(c0x1x6x11).spec_add(c0x2x5x11).spec_add(c1x2x7x8).spec_sub(c1x3x6x8).spec_sub(c0x1x7x10).spec_add(c1x3x4x10).spec_add(c0x1x6x11).spec_sub(c1x2x4x11).spec_add(c0x2x7x9).spec_sub(c2x3x4x9),
        c1x2x7x8,
        c2x3x5x8,
    );
    lemma_append2_neg(
        c0x1x7x10.spec_sub(c0x3x5x10).spec_sub(c0x2x7x9).spec_add(c0x3x6x9).spec_sub(c0x1x6x11).spec_add(c0x2x5x11).spec_add(c1x2x7x8).spec_sub(c1x3x6x8).spec_sub(c0x1x7x10).spec_add(c1x3x4x10).spec_add(c0x1x6x11).spec_sub(c1x2x4x11).spec_add(c0x2x7x9).spec_sub(c2x3x4x9).spec_sub(c1x2x7x8).spec_add(c2x3x5x8),
        c0x2x5x11,
        c1x2x4x11,
    );
    lemma_append2_pos(
        c0x1x7x10.spec_sub(c0x3x5x10).spec_sub(c0x2x7x9).spec_add(c0x3x6x9).spec_sub(c0x1x6x11).spec_add(c0x2x5x11).spec_add(c1x2x7x8).spec_sub(c1x3x6x8).spec_sub(c0x1x7x10).spec_add(c1x3x4x10).spec_add(c0x1x6x11).spec_sub(c1x2x4x11).spec_add(c0x2x7x9).spec_sub(c2x3x4x9).spec_sub(c1x2x7x8).spec_add(c2x3x5x8).spec_sub(c0x2x5x11).spec_add(c1x2x4x11),
        c1x3x6x8,
        c2x3x5x8,
    );
    lemma_append2_neg(
        c0x1x7x10.spec_sub(c0x3x5x10).spec_sub(c0x2x7x9).spec_add(c0x3x6x9).spec_sub(c0x1x6x11).spec_add(c0x2x5x11).spec_add(c1x2x7x8).spec_sub(c1x3x6x8).spec_sub(c0x1x7x10).spec_add(c1x3x4x10).spec_add(c0x1x6x11).spec_sub(c1x2x4x11).spec_add(c0x2x7x9).spec_sub(c2x3x4x9).spec_sub(c1x2x7x8).spec_add(c2x3x5x8).spec_sub(c0x2x5x11).spec_add(c1x2x4x11).spec_add(c1x3x6x8).spec_sub(c2x3x5x8),
        c0x3x6x9,
        c2x3x4x9,
    );
    lemma_append2_pos(
        c0x1x7x10.spec_sub(c0x3x5x10).spec_sub(c0x2x7x9).spec_add(c0x3x6x9).spec_sub(c0x1x6x11).spec_add(c0x2x5x11).spec_add(c1x2x7x8).spec_sub(c1x3x6x8).spec_sub(c0x1x7x10).spec_add(c1x3x4x10).spec_add(c0x1x6x11).spec_sub(c1x2x4x11).spec_add(c0x2x7x9).spec_sub(c2x3x4x9).spec_sub(c1x2x7x8).spec_add(c2x3x5x8).spec_sub(c0x2x5x11).spec_add(c1x2x4x11).spec_add(c1x3x6x8).spec_sub(c2x3x5x8).spec_sub(c0x3x6x9).spec_add(c2x3x4x9),
        c0x3x5x10,
        c1x3x4x10,
    );
    lemma_inv_chain3(c0x1x7x10, c0x3x5x10, c0x2x7x9, c0x3x6x9, c0x1x6x11, c0x2x5x11, c1x2x7x8, c1x3x6x8, c1x3x4x10, c1x2x4x11, c2x3x4x9, c2x3x5x8);
    lemma_zero_mul(inv_d);
    assert(mul_seq(inv, a)[3] == T::spec_zero());
}

proof fn lemma_inv_chain4<T: Scalar>(p1: T, p2: T, p3: T, p4: T, p5: T, p6: T)
    requires
        laws_sealed::<T>(),
    ensures
        p1.spec_sub(p2).spec_add(p3).spec_add(p4).spec_sub(p1).spec_sub(p5).spec_add(p2).spec_sub(p4).spec_add(p6).spec_add(p5).spec_sub(p3).spec_sub(p6) == T::spec_zero(),
{
    lemma_swap_as(p1.spec_sub(p2).spec_add(p3), p4, p1);
    lemma_swap_as(p1.spec_sub(p2), p3, p1);
    lemma_swap_ss(p1, p2, p1);
    lemma_swap_sa(p1.spec_sub(p1).spec_sub(p2).spec_add(p3).spec_add(p4), p5, p2);
    lemma_swap_aa(p1.spec_sub(p1).spec_sub(p2).spec_add(p3), p4, p2);
    lemma_swap_aa(p1.spec_sub(p1).spec_sub(p2), p3, p2);
    lemma_swap_sa(p1.spec_sub(p1), p2, p2);
    lemma_swap_as(p1.spec_sub(p1).spec_add(p2).spec_sub(p2).spec_add(p3).spec_add(p4).spec_sub(p5).spec_sub(p4).spec_add(p6), p5, p3);
    lemma_swap_as(p1.spec_sub(p1).spec_add(p2).spec_sub(p2).spec_add(p3).spec_add(p4).spec_sub(p5).spec_sub(p4), p6, p3);
    lemma_swap_ss(p1.spec_sub(p1).spec_add(p2).spec_sub(p2).spec_add(p3).spec_add(p4).spec_sub(p5), p4, p3);
    lemma_swap_ss(p1.spec_sub(p1).spec_add(p2).spec_sub(p2).spec_add(p3).spec_add(p4), p5, p3);
    lemma_swap_as(p1.spec_sub(p1).spec_add(p2).spec_sub(p2).spec_add(p3), p4, p3);
    lemma_swap_ss(p1.spec_sub(p1).spec_add(p2).spec_sub(p2).spec_add(p3).spec_sub(p3).spec_add(p4), p5, p4);
    lemma_swap_aa(p1.spec_sub(p1).spec_add(p2).spec_sub(p2).spec_add(p3).spec_sub(p3).spec_add(p4).spec_sub(p4).spec_sub(p5), p6, p5);
    lemma_swap_sa(p1.spec_sub(p1).spec_add(p2).spec_sub(p2).spec_add(p3).spec_sub(p3).spec_add(p4).spec_sub(p4), p5, p5);
    lemma_self_cancel(p1);
    lemma_cancel_adj(p1.spec_sub(p1), p2);
    lemma_cancel_adj(p1.spec_sub(p1).spec_add(p2).spec_sub(p2), p3);
    lemma_cancel_adj(p1.spec_sub(p1).spec_add(p2).spec_sub(p2).spec_add(p3).spec_sub(p3), p4);
    lemma_cancel_adj(p1.spec_sub(p1).spec_add(p2).spec_sub(p2).spec_add(p3).spec_sub(p3).spec_add(p4).spec_sub(p4), p5);
    lemma_cancel_adj(p1.spec_sub(p1).spec_add(p2).spec_sub(p2).spec_add(p3).spec_sub(p3).spec_add(p4).spec_sub(p4).spec_add(p5).spec_sub(p5), p6);
}

pub(crate) proof fn lemma_inv_entry4<T: Scalar>(a: Seq<T>)
    requires
        a.len() == 16,
        field_sealed::<T>(),
        !det_seq(a).spec_is_zero(),
    ensures
        mul_seq(inverse_seq(a), a)[4] == T::spec_zero(),
{
    lemma_field_gives_ring::<T>();
    let inv = inverse_seq(a);
    let inv_d = T::spec_one().spec_div(det_seq(a));
    let b00 = minor2(a, 0, 5, 1, 4);
    let b01 = minor2(a, 0, 6, 2, 4);
    let b02 = minor2(a, 0, 7, 3, 4);
    let b03 = minor2(a, 1, 6, 2, 5);
    let b04 = minor2(a, 1, 7, 3, 5);
    let b05 = minor2(a, 2, 7, 3, 6);
    let b06 = minor2(a, 8, 13, 9, 12);
    let b07 = minor2(a, 8, 14, 10, 12);
    let b08 = minor2(a, 8, 15, 11, 12);
    let b09 = minor2(a, 9, 14, 10, 13);
    let b10 = minor2(a, 9, 15, 11, 13);
    let b11 = minor2(a, 10, 15, 11, 14);
    assert(mul_seq(inv, a)[4] == a[4].spec_mul(inv[0]).spec_add(a[5].spec_mul(inv[4])).spec_add(a[6].spec_mul(inv[8])).spec_add(a[7].spec_mul(inv[12])));
    assert(inv[0] == a[5].spec_mul(b11).spec_sub(a[6].spec_mul(b10)).spec_add(a[7].spec_mul(b09)).spec_mul(inv_d));
    assert(inv[4] == a[6].spec_mul(b08).spec_sub(a[4].spec_mul(b11)).spec_sub(a[7].spec_mul(b07)).spec_mul(inv_d));
    assert(inv[8] == a[4].spec_mul(b10).spec_sub(a[5].spec_mul(b08)).spec_add(a[7].spec_mul(b06)).spec_mul(inv_d));
    assert(inv[12] == a[5].spec_mul(b07).spec_sub(a[4].spec_mul(b09)).spec_sub(a[6].spec_mul(b06)).spec_mul(inv_d));
    lemma_mul_assoc(a[4], a[5].spec_mul(b11).spec_sub(a[6].spec_mul(b10)).spec_add(a[7].spec_mul(b09)), inv_d);
    lemma_mul_assoc(a[5], a[6].spec_mul(b08).spec_sub(a[4].spec_mul(b11)).spec_sub(a[7].spec_mul(b07)), inv_d);
    lemma_mul_assoc(a[6], a[4].spec_mul(b10).spec_sub(a[5].spec_mul(b08)).spec_add(a[7].spec_mul(b06)), inv_d);
    lemma_mul_assoc(a[7], a[5].spec_mul(b07).spec_sub(a[4].spec_mul(b09)).spec_sub(a[6].spec_mul(b06)), inv_d);
    lemma_factor4(
        a[4].spec_mul(a[5].spec_mul(b11).spec_sub(a[6].spec_mul(b10)).spec_add(a[7].spec_mul(b09))),
        a[5].spec_mul(a[6].spec_mul(b08).spec_sub(a[4].spec_mul(b11)).spec_sub(a[7].spec_mul(b07))),
        a[6].spec_mul(a[4].spec_mul(b10).spec_sub(a[5].spec_mul(b08)).spec_add(a[7].spec_mul(b06))),
        a[7].spec_mul(a[5].spec_mul(b07).spec_sub(a[4].spec_mul(b09)).spec_sub(a[6].spec_mul(b06))),
        inv_d,
    );
    lemma_distrib3_pmp(a[4], a[5].spec_mul(b11), a[6].spec_mul(b10), a[7].spec_mul(b09));
    lemma_mul_assoc(a[4], a[5], b11);
    lemma_mul_assoc(a[4], a[6], b10);
    lemma_mul_assoc(a[4], a[7], b09);
    lemma_distrib3_pmm(a[5], a[6].spec_mul(b08), a[4].spec_mul(b11), a[7].spec_mul(b07));
    lemma_mul_assoc(a[5], a[6], b08);
    lemma_mul_assoc(a[5], a[4], b11);
    lemma_mul_comm(a[5], a[4]);
    lemma_mul_assoc(a[5], a[7], b07);
    lemma_distrib3_pmp(a[6], a[4].spec_mul(b10), a[5].spec_mul(b08), a[7].spec_mul(b06));
    lemma_mul_assoc(a[6], a[4], b10);
    lemma_mul_comm(a[6], a[4]);
    lemma_mul_assoc(a[6], a[5], b08);
    lemma_mul_comm(a[6], a[5]);
    lemma_mul_assoc(a[6], a[7], b06);
    lemma_distrib3_pmm(a[7], a[5].spec_mul(b07), a[4].spec_mul(b09), a[6].spec_mul(b06));
    lemma_mul_assoc(a[7], a[5], b07);
    lemma_mul_comm(a[7], a[5]);
    lemma_mul_assoc(a[7], a[4], b09);
    lemma_mul_comm(a[7], a[4]);
    lemma_mul_assoc(a[7], a[6], b06);
    lemma_mul_comm(a[7], a[6]);
    lemma_append3_pmm(
        a[4].spec_mul(a[5]).spec_mul(b11).spec_sub(a[4].spec_mul(a[6]).spec_mul(b10)).spec_add(a[4].spec_mul(a[7]).spec_mul(b09)),
        a[5].spec_mul(a[6]).spec_mul(b08),
        a[4].spec_mul(a[5]).spec_mul(b11),
        a[5].spec_mul(a[7]).spec_mul(b07),
    );
    lemma_append3_pmp(
        a[4].spec_mul(a[5]).spec_mul(b11).spec_sub(a[4].spec_mul(a[6]).spec_mul(b10)).spec_add(a[4].spec_mul(a[7]).spec_mul(b09)).spec_add(a[5].spec_mul(a[6]).spec_mul(b08)).spec_sub(a[4].spec_mul(a[5]).spec_mul(b11)).spec_sub(a[5].spec_mul(a[7]).spec_mul(b07)),
        a[4].spec_mul(a[6]).spec_mul(b10),
        a[5].spec_mul(a[6]).spec_mul(b08),
        a[6].spec_mul(a[7]).spec_mul(b06),
    );
    lemma_append3_pmm(
        a[4].spec_mul(a[5]).spec_mul(b11).spec_sub(a[4].spec_mul(a[6]).spec_mul(b10)).spec_add(a[4].spec_mul(a[7]).spec_mul(b09)).spec_add(a[5].spec_mul(a[6]).spec_mul(b08)).spec_sub(a[4].spec_mul(a[5]).spec_mul(b11)).spec_sub(a[5].spec_mul(a[7]).spec_mul(b07)).spec_add(a[4].spec_mul(a[6]).spec_mul(b10)).spec_sub(a[5].spec_mul(a[6]).spec_mul(b08)).spec_add(a[6].spec_mul(a[7]).spec_mul(b06)),
        a[5].spec_mul(a[7]).spec_mul(b07),
        a[4].spec_mul(a[7]).spec_mul(b09),
        a[6].spec_mul(a[7]).spec_mul(b06),
    );
    lemma_inv_chain4(
        a[4].spec_mul(a[5]).spec_mul(b11),
        a[4].spec_mul(a[6]).spec_mul(b10),
        a[4].spec_mul(a[7]).spec_mul(b09),
        a[5].spec_mul(a[6]).spec_mul(b08),
        a[5].spec_mul(a[7]).spec_mul(b07),
        a[6].spec_mul(a[7]).spec_mul(b06)
    );
    lemma_zero_mul(inv_d);
    assert(mul_seq(inv, a)[4] == T::spec_zero());
}

proof fn lemma_inv_chain5<T: Scalar>(p1: T, p2: T, p3: T, p4: T, p5: T, p6: T, p7: T, p8: T, p9: T, p10: T, p11: T, p12: T)
    requires
        laws_sealed::<T>(),
    ensures
        p1.spec_sub(p2).spec_sub(p3).spec_add(p4).spec_sub(p5).spec_add(p6).spec_add(p7).spec_sub(p8).spec_sub(p9).spec_add(p10).spec_sub(p11).spec_add(p12) == p4.spec_sub(p2).spec_sub(p8).spec_add(p1).spec_add(p10).spec_sub(p3).spec_add(p7).spec_sub(p5).spec_sub(p11).spec_add(p6).spec_add(p12).spec_sub(p9),
{
    lemma_swap_sa(p1.spec_sub(p2), p3, p4);
    lemma_swap_sa(p1, p2, p4);
    lemma_add_comm(p1, p4);
    lemma_swap_as(p4, p1, p2);
    lemma_swap_as(p4.spec_sub(p2).spec_add(p1).spec_sub(p3).spec_sub(p5).spec_add(p6), p7, p8);
    lemma_swap_as(p4.spec_sub(p2).spec_add(p1).spec_sub(p3).spec_sub(p5), p6, p8);
    lemma_swap_ss(p4.spec_sub(p2).spec_add(p1).spec_sub(p3), p5, p8);
    lemma_swap_ss(p4.spec_sub(p2).spec_add(p1), p3, p8);
    lemma_swap_as(p4.spec_sub(p2), p1, p8);
    lemma_swap_sa(p4.spec_sub(p2).spec_sub(p8).spec_add(p1).spec_sub(p3).spec_sub(p5).spec_add(p6).spec_add(p7), p9, p10);
    lemma_swap_aa(p4.spec_sub(p2).spec_sub(p8).spec_add(p1).spec_sub(p3).spec_sub(p5).spec_add(p6), p7, p10);
    lemma_swap_aa(p4.spec_sub(p2).spec_sub(p8).spec_add(p1).spec_sub(p3).spec_sub(p5), p6, p10);
    lemma_swap_sa(p4.spec_sub(p2).spec_sub(p8).spec_add(p1).spec_sub(p3), p5, p10);
    lemma_swap_sa(p4.spec_sub(p2).spec_sub(p8).spec_add(p1), p3, p10);
    lemma_swap_aa(p4.spec_sub(p2).spec_sub(p8).spec_add(p1).spec_add(p10).spec_sub(p3).spec_sub(p5), p6, p7);
    lemma_swap_sa(p4.spec_sub(p2).spec_sub(p8).spec_add(p1).spec_add(p10).spec_sub(p3), p5, p7);
    lemma_swap_ss(p4.spec_sub(p2).spec_sub(p8).spec_add(p1).spec_add(p10).spec_sub(p3).spec_add(p7).spec_sub(p5).spec_add(p6), p9, p11);
    lemma_swap_as(p4.spec_sub(p2).spec_sub(p8).spec_add(p1).spec_add(p10).spec_sub(p3).spec_add(p7).spec_sub(p5), p6, p11);
    lemma_swap_sa(p4.spec_sub(p2).spec_sub(p8).spec_add(p1).spec_add(p10).spec_sub(p3).spec_add(p7).spec_sub(p5).spec_sub(p11).spec_add(p6), p9, p12);
}

pub(crate) proof fn lemma_inv_entry5<T: Scalar>(a: Seq<T>)
    requires
        a.len() == 16,
        field_sealed::<T>(),
        !det_seq(a).spec_is_zero(),
    ensures
        mul_seq(inverse_seq(a), a)[5] == T::spec_one(),
{
    lemma_field_gives_ring::<T>();
    let inv = inverse_seq(a);
    let inv_d = T::spec_one().spec_div(det_seq(a));
    let b00 = minor2(a, 0, 5, 1, 4);
    let b01 = minor2(a, 0, 6, 2, 4);
    let b02 = minor2(a, 0, 7, 3, 4);
    let b03 = minor2(a, 1, 6, 2, 5);
    let b04 = minor2(a, 1, 7, 3, 5);
    let b05 = minor2(a, 2, 7, 3, 6);
    let b06 = minor2(a, 8, 13, 9, 12);
    let b07 = minor2(a, 8, 14, 10, 12);
    let b08 = minor2(a, 8, 15, 11, 12);
    let b09 = minor2(a, 9, 14, 10, 13);
    let b10 = minor2(a, 9, 15, 11, 13);
    let b11 = minor2(a, 10, 15, 11, 14);
    assert(mul_seq(inv, a)[5] == a[4].spec_mul(inv[1]).spec_add(a[5].spec_mul(inv[5])).spec_add(a[6].spec_mul(inv[9])).spec_add(a[7].spec_mul(inv[13])));
    assert(inv[1] == a[2].spec_mul(b10).spec_sub(a[1].spec_mul(b11)).spec_sub(a[3].spec_mul(b09)).spec_mul(inv_d));
    assert(inv[5] == a[0].spec_mul(b11).spec_sub(a[2].spec_mul(b08)).spec_add(a[3].spec_mul(b07)).spec_mul(inv_d));
    assert(inv[9] == a[1].spec_mul(b08).spec_sub(a[0].spec_mul(b10)).spec_sub(a[3].spec_mul(b06)).spec_mul(inv_d));
    assert(inv[13] == a[0].spec_mul(b09).spec_sub(a[1].spec_mul(b07)).spec_add(a[2].spec_mul(b06)).spec_mul(inv_d));
    lemma_mul_assoc(a[4], a[2].spec_mul(b10).spec_sub(a[1].spec_mul(b11)).spec_sub(a[3].spec_mul(b09)), inv_d);
    lemma_mul_assoc(a[5], a[0].spec_mul(b11).spec_sub(a[2].spec_mul(b08)).spec_add(a[3].spec_mul(b07)), inv_d);
    lemma_mul_assoc(a[6], a[1].spec_mul(b08).spec_sub(a[0].spec_mul(b10)).spec_sub(a[3].spec_mul(b06)), inv_d);
    lemma_mul_assoc(a[7], a[0].spec_mul(b09).spec_sub(a[1].spec_mul(b07)).spec_add(a[2].spec_mul(b06)), inv_d);
    lemma_factor4(
        a[4].spec_mul(a[2].spec_mul(b10).spec_sub(a[1].spec_mul(b11)).spec_sub(a[3].spec_mul(b09))),
        a[5].spec_mul(a[0].spec_mul(b11).spec_sub(a[2].spec_mul(b08)).spec_add(a[3].spec_mul(b07))),
        a[6].spec_mul(a[1].spec_mul(b08).spec_sub(a[0].spec_mul(b10)).spec_sub(a[3].spec_mul(b06))),
        a[7].spec_mul(a[0].spec_mul(b09).spec_sub(a[1].spec_mul(b07)).spec_add(a[2].spec_mul(b06))),
        inv_d,
    );
    lemma_distrib3_pmm(a[4], a[2].spec_mul(b10), a[1].spec_mul(b11), a[3].spec_mul(b09));
    lemma_mul_assoc(a[4], a[2], b10);
    lemma_mul_comm(a[4], a[2]);
    lemma_mul_assoc(a[4], a[1], b11);
    lemma_mul_comm(a[4], a[1]);
    lemma_mul_assoc(a[4], a[3], b09);
    lemma_mul_comm(a[4], a[3]);
    lemma_distrib3_pmp(a[5], a[0].spec_mul(b11), a[2].spec_mul(b08), a[3].spec_mul(b07));
    lemma_mul_assoc(a[5], a[0], b11);
    lemma_mul_comm(a[5], a[0]);
    lemma_mul_assoc(a[5], a[2], b08);
    lemma_mul_comm(a[5], a[2]);
    lemma_mul_assoc(a[5], a[3], b07);
    lemma_mul_comm(a[5], a[3]);
    lemma_distrib3_pmm(a[6], a[1].spec_mul(b08), a[0].spec_mul(b10), a[3].spec_mul(b06));
    lemma_mul_assoc(a[6], a[1], b08);
    lemma_mul_comm(a[6], a[1]);
    lemma_mul_assoc(a[6], a[0], b10);
    lemma_mul_comm(a[6], a[0]);
    lemma_mul_assoc(a[6], a[3], b06);
    lemma_mul_comm(a[6], a[3]);
    lemma_distrib3_pmp(a[7], a[0].spec_mul(b09), a[1].spec_mul(b07), a[2].spec_mul(b06));
    lemma_mul_assoc(a[7], a[0], b09);
    lemma_mul_comm(a[7], a[0]);
    lemma_mul_assoc(a[7], a[1], b07);
    lemma_mul_comm(a[7], a[1]);
    lemma_mul_assoc(a[7], a[2], b06);
    lemma_mul_comm(a[7], a[2]);
    lemma_append3_pmp(
        a[2].spec_mul(a[4]).spec_mul(b10).spec_sub(a[1].spec_mul(a[4]).spec_mul(b11)).spec_sub(a[3].spec_mul(a[4]).spec_mul(b09)),
        a[0].spec_mul(a[5]).spec_mul(b11),
        a[2].spec_mul(a[5]).spec_mul(b08),
        a[3].spec_mul(a[5]).spec_mul(b07),
    );
    lemma_append3_pmm(
        a[2].spec_mul(a[4]).spec_mul(b10).spec_sub(a[1].spec_mul(a[4]).spec_mul(b11)).spec_sub(a[3].spec_mul(a[4]).spec_mul(b09)).spec_add(a[0].spec_mul(a[5]).spec_mul(b11)).spec_sub(a[2].spec_mul(a[5]).spec_mul(b08)).spec_add(a[3].spec_mul(a[5]).spec_mul(b07)),
        a[1].spec_mul(a[6]).spec_mul(b08),
        a[0].spec_mul(a[6]).spec_mul(b10),
        a[3].spec_mul(a[6]).spec_mul(b06),
    );
    lemma_append3_pmp(
        a[2].spec_mul(a[4]).spec_mul(b10).spec_sub(a[1].spec_mul(a[4]).spec_mul(b11)).spec_sub(a[3].spec_mul(a[4]).spec_mul(b09)).spec_add(a[0].spec_mul(a[5]).spec_mul(b11)).spec_sub(a[2].spec_mul(a[5]).spec_mul(b08)).spec_add(a[3].spec_mul(a[5]).spec_mul(b07)).spec_add(a[1].spec_mul(a[6]).spec_mul(b08)).spec_sub(a[0].spec_mul(a[6]).spec_mul(b10)).spec_sub(a[3].spec_mul(a[6]).spec_mul(b06)),
        a[0].spec_mul(a[7]).spec_mul(b09),
        a[1].spec_mul(a[7]).spec_mul(b07),
        a[2].spec_mul(a[7]).spec_mul(b06),
    );
    lemma_expand_minor_prod(a[0].spec_mul(a[5]), a[1].spec_mul(a[4]), b11);
    lemma_expand_minor_prod(a[0].spec_mul(a[6]), a[2].spec_mul(a[4]), b10);
    lemma_append2_neg(
        a[0].spec_mul(a[5]).spec_mul(b11).spec_sub(a[1].spec_mul(a[4]).spec_mul(b11)),
        a[0].spec_mul(a[6]).spec_mul(b10),
        a[2].spec_mul(a[4]).spec_mul(b10),
    );
    lemma_expand_minor_prod(a[0].spec_mul(a[7]), a[3].spec_mul(a[4]), b09);
    lemma_append2_pos(
        a[0].spec_mul(a[5]).spec_mul(b11).spec_sub(a[1].spec_mul(a[4]).spec_mul(b11)).spec_sub(a[0].spec_mul(a[6]).spec_mul(b10)).spec_add(a[2].spec_mul(a[4]).spec_mul(b10)),
        a[0].spec_mul(a[7]).spec_mul(b09),
        a[3].spec_mul(a[4]).spec_mul(b09),
    );
    lemma_expand_minor_prod(a[1].spec_mul(a[6]), a[2].spec_mul(a[5]), b08);
    lemma_append2_pos(
        a[0].spec_mul(a[5]).spec_mul(b11).spec_sub(a[1].spec_mul(a[4]).spec_mul(b11)).spec_sub(a[0].spec_mul(a[6]).spec_mul(b10)).spec_add(a[2].spec_mul(a[4]).spec_mul(b10)).spec_add(a[0].spec_mul(a[7]).spec_mul(b09)).spec_sub(a[3].spec_mul(a[4]).spec_mul(b09)),
        a[1].spec_mul(a[6]).spec_mul(b08),
        a[2].spec_mul(a[5]).spec_mul(b08),
    );
    lemma_expand_minor_prod(a[1].spec_mul(a[7]), a[3].spec_mul(a[5]), b07);
    lemma_append2_neg(
        a[0].spec_mul(a[5]).spec_mul(b11).spec_sub(a[1].spec_mul(a[4]).spec_mul(b11)).spec_sub(a[0].spec_mul(a[6]).spec_mul(b10)).spec_add(a[2].spec_mul(a[4]).spec_mul(b10)).spec_add(a[0].spec_mul(a[7]).spec_mul(b09)).spec_sub(a[3].spec_mul(a[4]).spec_mul(b09)).spec_add(a[1].spec_mul(a[6]).spec_mul(b08)).spec_sub(a[2].spec_mul(a[5]).spec_mul(b08)),
        a[1].spec_mul(a[7]).spec_mul(b07),
        a[3].spec_mul(a[5]).spec_mul(b07),
    );
    lemma_expand_minor_prod(a[2].spec_mul(a[7]), a[3].spec_mul(a[6]), b06);
    lemma_append2_pos(
        a[0].spec_mul(a[5]).spec_mul(b11).spec_sub(a[1].spec_mul(a[4]).spec_mul(b11)).spec_sub(a[0].spec_mul(a[6]).spec_mul(b10)).spec_add(a[2].spec_mul(a[4]).spec_mul(b10)).spec_add(a[0].spec_mul(a[7]).spec_mul(b09)).spec_sub(a[3].spec_mul(a[4]).spec_mul(b09)).spec_add(a[1].spec_mul(a[6]).spec_mul(b08)).spec_sub(a[2].spec_mul(a[5]).spec_mul(b08)).spec_sub(a[1].spec_mul(a[7]).spec_mul(b07)).spec_add(a[3].spec_mul(a[5]).spec_mul(b07)),
        a[2].spec_mul(a[7]).spec_mul(b06),
        a[3].spec_mul(a[6]).spec_mul(b06),
    );
    lemma_inv_chain5(
        a[2].spec_mul(a[4]).spec_mul(b10),
        a[1].spec_mul(a[4]).spec_mul(b11),
        a[3].spec_mul(a[4]).spec_mul(b09),
        a[0].spec_mul(a[5]).spec_mul(b11),
        a[2].spec_mul(a[5]).spec_mul(b08),
        a[3].spec_mul(a[5]).spec_mul(b07),
        a[1].spec_mul(a[6]).spec_mul(b08),
        a[0].spec_mul(a[6]).spec_mul(b10),
        a[3].spec_mul(a[6]).spec_mul(b06),
        a[0].spec_mul(a[7]).spec_mul(b09),
        a[1].spec_mul(a[7]).spec_mul(b07),
        a[2].spec_mul(a[7]).spec_mul(b06)
    );
    assert(mul_seq(inv, a)[5] == det_seq(a).spec_mul(inv_d));
    lemma_recip(det_seq(a));
    assert(mul_seq(inv, a)[5] == T::spec_one());
}

proof fn lemma_inv_chain6<T: Scalar>(p1: T, p2: T, p3: T, p4: T, p5: T, p6: T, p7: T, p8: T, p9: T, p10: T, p11: T, p12: T)
    requires
        laws_sealed::<T>(),
    ensures
        p1.spec_sub(p2).spec_sub(p3).spec_add(p4).spec_add(p5).spec_sub(p6).spec_add(p7).spec_sub(p4).spec_sub(p8).spec_add(p9).spec_sub(p10).spec_add(p6).spec_add(p11).spec_sub(p9).spec_sub(p12).spec_add(p2).spec_add(p10).spec_sub(p5).spec_add(p12).spec_sub(p1).spec_sub(p11).spec_add(p8).spec_sub(p7).spec_add(p3) == T::spec_zero(),
{
    lemma_swap_as(p1.spec_sub(p2).spec_sub(p3).spec_add(p4).spec_add(p5).spec_sub(p6).spec_add(p7).spec_sub(p4).spec_sub(p8).spec_add(p9).spec_sub(p10).spec_add(p6).spec_add(p11).spec_sub(p9).spec_sub(p12).spec_add(p2).spec_add(p10).spec_sub(p5), p12, p1);
    lemma_swap_ss(p1.spec_sub(p2).spec_sub(p3).spec_add(p4).spec_add(p5).spec_sub(p6).spec_add(p7).spec_sub(p4).spec_sub(p8).spec_add(p9).spec_sub(p10).spec_add(p6).spec_add(p11).spec_sub(p9).spec_sub(p12).spec_add(p2).spec_add(p10), p5, p1);
    lemma_swap_as(p1.spec_sub(p2).spec_sub(p3).spec_add(p4).spec_add(p5).spec_sub(p6).spec_add(p7).spec_sub(p4).spec_sub(p8).spec_add(p9).spec_sub(p10).spec_add(p6).spec_add(p11).spec_sub(p9).spec_sub(p12).spec_add(p2), p10, p1);
    lemma_swap_as(p1.spec_sub(p2).spec_sub(p3).spec_add(p4).spec_add(p5).spec_sub(p6).spec_add(p7).spec_sub(p4).spec_sub(p8).spec_add(p9).spec_sub(p10).spec_add(p6).spec_add(p11).spec_sub(p9).spec_sub(p12), p2, p1);
    lemma_swap_ss(p1.spec_sub(p2).spec_sub(p3).spec_add(p4).spec_add(p5).spec_sub(p6).spec_add(p7).spec_sub(p4).spec_sub(p8).spec_add(p9).spec_sub(p10).spec_add(p6).spec_add(p11).spec_sub(p9), p12, p1);
    lemma_swap_ss(p1.spec_sub(p2).spec_sub(p3).spec_add(p4).spec_add(p5).spec_sub(p6).spec_add(p7).spec_sub(p4).spec_sub(p8).spec_add(p9).spec_sub(p10).spec_add(p6).spec_add(p11), p9, p1);
    lemma_swap_as(p1.spec_sub(p2).spec_sub(p3).spec_add(p4).spec_add(p5).spec_sub(p6).spec_add(p7).spec_sub(p4).spec_sub(p8).spec_add(p9).spec_sub(p10).spec_add(p6), p11, p1);
    lemma_swap_as(p1.spec_sub(p2).spec_sub(p3).spec_add(p4).spec_add(p5).spec_sub(p6).spec_add(p7).spec_sub(p4).spec_sub(p8).spec_add(p9).spec_sub(p10), p6, p1);
    lemma_swap_ss(p1.spec_sub(p2).spec_sub(p3).spec_add(p4).spec_add(p5).spec_sub(p6).spec_add(p7).spec_sub(p4).spec_sub(p8).spec_add(p9), p10, p1);
    lemma_swap_as(p1.spec_sub(p2).spec_sub(p3).spec_add(p4).spec_add(p5).spec_sub(p6).spec_add(p7).spec_sub(p4).spec_sub(p8), p9, p1);
    lemma_swap_ss(p1.spec_sub(p2).spec_sub(p3).spec_add(p4).spec_add(p5).spec_sub(p6).spec_add(p7).spec_sub(p4), p8, p1);
    lemma_swap_ss(p1.spec_sub(p2).spec_sub(p3).spec_add(p4).spec_add(p5).spec_sub(p6).spec_add(p7), p4, p1);
    lemma_swap_as(p1.spec_sub(p2).spec_sub(p3).spec_add(p4).spec_add(p5).spec_sub(p6), p7, p1);
    lemma_swap_ss(p1.spec_sub(p2).spec_sub(p3).spec_add(p4).spec_add(p5), p6, p1);
    lemma_swap_as(p1.spec_sub(p2).spec_sub(p3).spec_add(p4), p5, p1);
    lemma_swap_as(p1.spec_sub(p2).spec_sub(p3), p4, p1);
    lemma_swap_ss(p1.spec_sub(p2), p3, p1);
    lemma_swap_ss(p1, p2, p1);
    lemma_swap_sa(p1.spec_sub(p1).spec_sub(p2).spec_sub(p3).spec_add(p4).spec_add(p5).spec_sub(p6).spec_add(p7).spec_sub(p4).spec_sub(p8).spec_add(p9).spec_sub(p10).spec_add(p6).spec_add(p11).spec_sub(p9), p12, p2);
    lemma_swap_sa(p1.spec_sub(p1).spec_sub(p2).spec_sub(p3).spec_add(p4).spec_add(p5).spec_sub(p6).spec_add(p7).spec_sub(p4).spec_sub(p8).spec_add(p9).spec_sub(p10).spec_add(p6).spec_add(p11), p9, p2);
    lemma_swap_aa(p1.spec_sub(p1).spec_sub(p2).spec_sub(p3).spec_add(p4).spec_add(p5).spec_sub(p6).spec_add(p7).spec_sub(p4).spec_sub(p8).spec_add(p9).spec_sub(p10).spec_add(p6), p11, p2);
    lemma_swap_aa(p1.spec_sub(p1).spec_sub(p2).spec_sub(p3).spec_add(p4).spec_add(p5).spec_sub(p6).spec_add(p7).spec_sub(p4).spec_sub(p8).spec_add(p9).spec_sub(p10), p6, p2);
    lemma_swap_sa(p1.spec_sub(p1).spec_sub(p2).spec_sub(p3).spec_add(p4).spec_add(p5).spec_sub(p6).spec_add(p7).spec_sub(p4).spec_sub(p8).spec_add(p9), p10, p2);
    lemma_swap_aa(p1.spec_sub(p1).spec_sub(p2).spec_sub(p3).spec_add(p4).spec_add(p5).spec_sub(p6).spec_add(p7).spec_sub(p4).spec_sub(p8), p9, p2);
    lemma_swap_sa(p1.spec_sub(p1).spec_sub(p2).spec_sub(p3).spec_add(p4).spec_add(p5).spec_sub(p6).spec_add(p7).spec_sub(p4), p8, p2);
    lemma_swap_sa(p1.spec_sub(p1).spec_sub(p2).spec_sub(p3).spec_add(p4).spec_add(p5).spec_sub(p6).spec_add(p7), p4, p2);
    lemma_swap_aa(p1.spec_sub(p1).spec_sub(p2).spec_sub(p3).spec_add(p4).spec_add(p5).spec_sub(p6), p7, p2);
    lemma_swap_sa(p1.spec_sub(p1).spec_sub(p2).spec_sub(p3).spec_add(p4).spec_add(p5), p6, p2);
    lemma_swap_aa(p1.spec_sub(p1).spec_sub(p2).spec_sub(p3).spec_add(p4), p5, p2);
    lemma_swap_aa(p1.spec_sub(p1).spec_sub(p2).spec_sub(p3), p4, p2);
    lemma_swap_sa(p1.spec_sub(p1).spec_sub(p2), p3, p2);
    lemma_swap_sa(p1.spec_sub(p1), p2, p2);
    lemma_swap_sa(p1.spec_sub(p1).spec_add(p2).spec_sub(p2).spec_sub(p3).spec_add(p4).spec_add(p5).spec_sub(p6).spec_add(p7).spec_sub(p4).spec_sub(p8).spec_add(p9).spec_sub(p10).spec_add(p6).spec_add(p11).spec_sub(p9).spec_sub(p12).spec_add(p10).spec_sub(p5).spec_add(p12).spec_sub(p11).spec_add(p8), p7, p3);
    lemma_swap_aa(p1.spec_sub(p1).spec_add(p2).spec_sub(p2).spec_sub(p3).spec_add(p4).spec_add(p5).spec_sub(p6).spec_add(p7).spec_sub(p4).spec_sub(p8).spec_add(p9).spec_sub(p10).spec_add(p6).spec_add(p11).spec_sub(p9).spec_sub(p12).spec_add(p10).spec_sub(p5).spec_add(p12).spec_sub(p11), p8, p3);
    lemma_swap_sa(p1.spec_sub(p1).spec_add(p2).spec_sub(p2).spec_sub(p3).spec_add(p4).spec_add(p5).spec_sub(p6).spec_add(p7).spec_sub(p4).spec_sub(p8).spec_add(p9).spec_sub(p10).spec_add(p6).spec_add(p11).spec_sub(p9).spec_sub(p12).spec_add(p10).spec_sub(p5).spec_add(p12), p11, p3);
    lemma_swap_aa(p1.spec_sub(p1).spec_add(p2).spec_sub(p2).spec_sub(p3).spec_add(p4).spec_add(p5).spec_sub(p6).spec_add(p7).spec_sub(p4).spec_sub(p8).spec_add(p9).spec_sub(p10).spec_add(p6).spec_add(p11).spec_sub(p9).spec_sub(p12).spec_add(p10).spec_sub(p5), p12, p3);
    lemma_swap_sa(p1.spec_sub(p1).spec_add(p2).spec_sub(p2).spec_sub(p3).spec_add(p4).spec_add(p5).spec_sub(p6).spec_add(p7).spec_sub(p4).spec_sub(p8).spec_add(p9).spec_sub(p10).spec_add(p6).spec_add(p11).spec_sub(p9).spec_sub(p12).spec_add(p10), p5, p3);
    lemma_swap_aa(p1.spec_sub(p1).spec_add(p2).spec_sub(p2).spec_sub(p3).spec_add(p4).spec_add(p5).spec_sub(p6).spec_add(p7).spec_sub(p4).spec_sub(p8).spec_add(p9).spec_sub(p10).spec_add(p6).spec_add(p11).spec_sub(p9).spec_sub(p12), p10, p3);
    lemma_swap_sa(p1.spec_sub(p1).spec_add(p2).spec_sub(p2).spec_sub(p3).spec_add(p4).spec_add(p5).spec_sub(p6).spec_add(p7).spec_sub(p4).spec_sub(p8).spec_add(p9).spec_sub(p10).spec_add(p6).spec_add(p11).spec_sub(p9), p12, p3);
    lemma_swap_sa(p1.spec_sub(p1).spec_add(p2).spec_sub(p2).spec_sub(p3).spec_add(p4).spec_add(p5).spec_sub(p6).spec_add(p7).spec_sub(p4).spec_sub(p8).spec_add(p9).spec_sub(p10).spec_add(p6).spec_add(p11), p9, p3);
    lemma_swap_aa(p1.spec_sub(p1).spec_add(p2).spec_sub(p2).spec_sub(p3).spec_add(p4).spec_add(p5).spec_sub(p6).spec_add(p7).spec_sub(p4).spec_sub(p8).spec_add(p9).spec_sub(p10).spec_add(p6), p11, p3);
    lemma_swap_aa(p1.spec_sub(p1).spec_add(p2).spec_sub(p2).spec_sub(p3).spec_add(p4).spec_add(p5).spec_sub(p6).spec_add(p7).spec_sub(p4).spec_sub(p8).spec_add(p9).spec_sub(p10), p6, p3);
    lemma_swap_sa(p1.spec_sub(p1).spec_add(p2).spec_sub(p2).spec_sub(p3).spec_add(p4).spec_add(p5).spec_sub(p6).spec_add(p7).spec_sub(p4).spec_sub(p8).spec_add(p9), p10, p3);
    lemma_swap_aa(p1.spec_sub(p1).spec_add(p2).spec_sub(p2).spec_sub(p3).spec_add(p4).spec_add(p5).spec_sub(p6).spec_add(p7).spec_sub(p4).spec_sub(p8), p9, p3);
    lemma_swap_sa(p1.spec_sub(p1).spec_add(p2).spec_sub(p2).spec_sub(p3).spec_add(p4).spec_add(p5).spec_sub(p6).spec_add(p7).spec_sub(p4), p8, p3);
    lemma_swap_sa(p1.spec_sub(p1).spec_add(p2).spec_sub(p2).spec_sub(p3).spec_add(p4).spec_add(p5).spec_sub(p6).spec_add(p7), p4, p3);
    lemma_swap_aa(p1.spec_sub(p1).spec_add(p2).spec_sub(p2).spec_sub(p3).spec_add(p4).spec_add(p5).spec_sub(p6), p7, p3);
    lemma_swap_sa(p1.spec_sub(p1).spec_add(p2).spec_sub(p2).spec_sub(p3).spec_add(p4).spec_add(p5), p6, p3);
    lemma_swap_aa(p1.spec_sub(p1).spec_add(p2).spec_sub(p2).spec_sub(p3).spec_add(p4), p5, p3);
    lemma_swap_aa(p1.spec_sub(p1).spec_add(p2).spec_sub(p2).spec_sub(p3), p4, p3);
    lemma_swap_sa(p1.spec_sub(p1).spec_add(p2).spec_sub(p2), p3, p3);
    lemma_swap_as(p1.spec_sub(p1).spec_add(p2).spec_sub(p2).spec_add(p3).spec_sub(p3).spec_add(p4).spec_add(p5).spec_sub(p6), p7, p4);
    lemma_swap_ss(p1.spec_sub(p1).spec_add(p2).spec_sub(p2).spec_add(p3).spec_sub(p3).spec_add(p4).spec_add(p5), p6, p4);
    lemma_swap_as(p1.spec_sub(p1).spec_add(p2).spec_sub(p2).spec_add(p3).spec_sub(p3).spec_add(p4), p5, p4);
    lemma_swap_as(p1.spec_sub(p1).spec_add(p2).spec_sub(p2).spec_add(p3).spec_sub(p3).spec_add(p4).spec_sub(p4).spec_add(p5).spec_sub(p6).spec_add(p7).spec_sub(p8).spec_add(p9).spec_sub(p10).spec_add(p6).spec_add(p11).spec_sub(p9).spec_sub(p12), p10, p5);
    lemma_swap_ss(p1.spec_sub(p1).spec_add(p2).spec_sub(p2).spec_add(p3).spec_sub(p3).spec_add(p4).spec_sub(p4).spec_add(p5).spec_sub(p6).spec_add(p7).spec_sub(p8).spec_add(p9).spec_sub(p10).spec_add(p6).spec_add(p11).spec_sub(p9), p12, p5);
    lemma_swap_ss(p1.spec_sub(p1).spec_add(p2).spec_sub(p2).spec_add(p3).spec_sub(p3).spec_add(p4).spec_sub(p4).spec_add(p5).spec_sub(p6).spec_add(p7).spec_sub(p8).spec_add(p9).spec_sub(p10).spec_add(p6).spec_add(p11), p9, p5);
    lemma_swap_as(p1.spec_sub(p1).spec_add(p2).spec_sub(p2).spec_add(p3).spec_sub(p3).spec_add(p4).spec_sub(p4).spec_add(p5).spec_sub(p6).spec_add(p7).spec_sub(p8).spec_add(p9).spec_sub(p10).spec_add(p6), p11, p5);
    lemma_swap_as(p1.spec_sub(p1).spec_add(p2).spec_sub(p2).spec_add(p3).spec_sub(p3).spec_add(p4).spec_sub(p4).spec_add(p5).spec_sub(p6).spec_add(p7).spec_sub(p8).spec_add(p9).spec_sub(p10), p6, p5);
    lemma_swap_ss(p1.spec_sub(p1).spec_add(p2).spec_sub(p2).spec_add(p3).spec_sub(p3).spec_add(p4).spec_sub(p4).spec_add(p5).spec_sub(p6).spec_add(p7).spec_sub(p8).spec_add(p9), p10, p5);
    lemma_swap_as(p1.spec_sub(p1).spec_add(p2).spec_sub(p2).spec_add(p3).spec_sub(p3).spec_add(p4).spec_sub(p4).spec_add(p5).spec_sub(p6).spec_add(p7).spec_sub(p8), p9, p5);
    lemma_swap_ss(p1.spec_sub(p1).spec_add(p2).spec_sub(p2).spec_add(p3).spec_sub(p3).spec_add(p4).spec_sub(p4).spec_add(p5).spec_sub(p6).spec_add(p7), p8, p5);
    lemma_swap_as(p1.spec_sub(p1).spec_add(p2).spec_sub(p2).spec_add(p3).spec_sub(p3).spec_add(p4).spec_sub(p4).spec_add(p5).spec_sub(p6), p7, p5);
    lemma_swap_ss(p1.spec_sub(p1).spec_add(p2).spec_sub(p2).spec_add(p3).spec_sub(p3).spec_add(p4).spec_sub(p4).spec_add(p5), p6, p5);
    lemma_swap_sa(p1.spec_sub(p1).spec_add(p2).spec_sub(p2).spec_add(p3).spec_sub(p3).spec_add(p4).spec_sub(p4).spec_add(p5).spec_sub(p5).spec_sub(p6).spec_add(p7).spec_sub(p8).spec_add(p9), p10, p6);
    lemma_swap_aa(p1.spec_sub(p1).spec_add(p2).spec_sub(p2).spec_add(p3).spec_sub(p3).spec_add(p4).spec_sub(p4).spec_add(p5).spec_sub(p5).spec_sub(p6).spec_add(p7).spec_sub(p8), p9, p6);
    lemma_swap_sa(p1.spec_sub(p1).spec_add(p2).spec_sub(p2).spec_add(p3).spec_sub(p3).spec_add(p4).spec_sub(p4).spec_add(p5).spec_sub(p5).spec_sub(p6).spec_add(p7), p8, p6);
    lemma_swap_aa(p1.spec_sub(p1).spec_add(p2).spec_sub(p2).spec_add(p3).spec_sub(p3).spec_add(p4).spec_sub(p4).spec_add(p5).spec_sub(p5).spec_sub(p6), p7, p6);
    lemma_swap_sa(p1.spec_sub(p1).spec_add(p2).spec_sub(p2).spec_add(p3).spec_sub(p3).spec_add(p4).spec_sub(p4).spec_add(p5).spec_sub(p5), p6, p6);
    lemma_swap_as(p1.spec_sub(p1).spec_add(p2).spec_sub(p2).spec_add(p3).spec_sub(p3).spec_add(p4).spec_sub(p4).spec_add(p5).spec_sub(p5).spec_add(p6).spec_sub(p6).spec_add(p7).spec_sub(p8).spec_add(p9).spec_sub(p10).spec_add(p11).spec_sub(p9).spec_sub(p12).spec_add(p10).spec_add(p12).spec_sub(p11), p8, p7);
    lemma_swap_ss(p1.spec_sub(p1).spec_add(p2).spec_sub(p2).spec_add(p3).spec_sub(p3).spec_add(p4).spec_sub(p4).spec_add(p5).spec_sub(p5).spec_add(p6).spec_sub(p6).spec_add(p7).spec_sub(p8).spec_add(p9).spec_sub(p10).spec_add(p11).spec_sub(p9).spec_sub(p12).spec_add(p10).spec_add(p12), p11, p7);
    lemma_swap_as(p1.spec_sub(p1).spec_add(p2).spec_sub(p2).spec_add(p3).spec_sub(p3).spec_add(p4).spec_sub(p4).spec_add(p5).spec_sub(p5).spec_add(p6).spec_sub(p6).spec_add(p7).spec_sub(p8).spec_add(p9).spec_sub(p10).spec_add(p11).spec_sub(p9).spec_sub(p12).spec_add(p10), p12, p7);
    lemma_swap_as(p1.spec_sub(p1).spec_add(p2).spec_sub(p2).spec_add(p3).spec_sub(p3).spec_add(p4).spec_sub(p4).spec_add(p5).spec_sub(p5).spec_add(p6).spec_sub(p6).spec_add(p7).spec_sub(p8).spec_add(p9).spec_sub(p10).spec_add(p11).spec_sub(p9).spec_sub(p12), p10, p7);
    lemma_swap_ss(p1.spec_sub(p1).spec_add(p2).spec_sub(p2).spec_add(p3).spec_sub(p3).spec_add(p4).spec_sub(p4).spec_add(p5).spec_sub(p5).spec_add(p6).spec_sub(p6).spec_add(p7).spec_sub(p8).spec_add(p9).spec_sub(p10).spec_add(p11).spec_sub(p9), p12, p7);
    lemma_swap_ss(p1.spec_sub(p1).spec_add(p2).spec_sub(p2).spec_add(p3).spec_sub(p3).spec_add(p4).spec_sub(p4).spec_add(p5).spec_sub(p5).spec_add(p6).spec_sub(p6).spec_add(p7).spec_sub(p8).spec_add(p9).spec_sub(p10).spec_add(p11), p9, p7);
    lemma_swap_as(p1.spec_sub(p1).spec_add(p2).spec_sub(p2).spec_add(p3).spec_sub(p3).spec_add(p4).spec_sub(p4).spec_add(p5).spec_sub(p5).spec_add(p6).spec_sub(p6).spec_add(p7).spec_sub(p8).spec_add(p9).spec_sub(p10), p11, p7);
    lemma_swap_ss(p1.spec_sub(p1).spec_add(p2).spec_sub(p2).spec_add(p3).spec_sub(p3).spec_add(p4).spec_sub(p4).spec_add(p5).spec_sub(p5).spec_add(p6).spec_sub(p6).spec_add(p7).spec_sub(p8).spec_add(p9), p10, p7);
    lemma_swap_as(p1.spec_sub(p1).spec_add(p2).spec_sub(p2).spec_add(p3).spec_sub(p3).spec_add(p4).spec_sub(p4).spec_add(p5).spec_sub(p5).spec_add(p6).spec_sub(p6).spec_add(p7).spec_sub(p8), p9, p7);
    lemma_swap_ss(p1.spec_sub(p1).spec_add(p2).spec_sub(p2).spec_add(p3).spec_sub(p3).spec_add(p4).spec_sub(p4).spec_add(p5).spec_sub(p5).spec_add(p6).spec_sub(p6).spec_add(p7), p8, p7);
    lemma_swap_sa(p1.spec_sub(p1).spec_add(p2).spec_sub(p2).spec_add(p3).spec_sub(p3).spec_add(p4).spec_sub(p4).spec_add(p5).spec_sub(p5).spec_add(p6).spec_sub(p6).spec_add(p7).spec_sub(p7).spec_sub(p8).spec_add(p9).spec_sub(p10).spec_add(p11).spec_sub(p9).spec_sub(p12).spec_add(p10).spec_add(p12), p11, p8);
    lemma_swap_aa(p1.spec_sub(p1).spec_add(p2).spec_sub(p2).spec_add(p3).spec_sub(p3).spec_add(p4).spec_sub(p4).spec_add(p5).spec_sub(p5).spec_add(p6).spec_sub(p6).spec_add(p7).spec_sub(p7).spec_sub(p8).spec_add(p9).spec_sub(p10).spec_add(p11).spec_sub(p9).spec_sub(p12).spec_add(p10), p12, p8);
    lemma_swap_aa(p1.spec_sub(p1).spec_add(p2).spec_sub(p2).spec_add(p3).spec_sub(p3).spec_add(p4).spec_sub(p4).spec_add(p5).spec_sub(p5).spec_add(p6).spec_sub(p6).spec_add(p7).spec_sub(p7).spec_sub(p8).spec_add(p9).spec_sub(p10).spec_add(p11).spec_sub(p9).spec_sub(p12), p10, p8);
    lemma_swap_sa(p1.spec_sub(p1).spec_add(p2).spec_sub(p2).spec_add(p3).spec_sub(p3).spec_add(p4).spec_sub(p4).spec_add(p5).spec_sub(p5).spec_add(p6).spec_sub(p6).spec_add(p7).spec_sub(p7).spec_sub(p8).spec_add(p9).spec_sub(p10).spec_add(p11).spec_sub(p9), p12, p8);
    lemma_swap_sa(p1.spec_sub(p1).spec_add(p2).spec_sub(p2).spec_add(p3).spec_sub(p3).spec_add(p4).spec_sub(p4).spec_add(p5).spec_sub(p5).spec_add(p6).spec_sub(p6).spec_add(p7).spec_sub(p7).spec_sub(p8).spec_add(p9).spec_sub(p10).spec_add(p11), p9, p8);
    lemma_swap_aa(p1.spec_sub(p1).spec_add(p2).spec_sub(p2).spec_add(p3).spec_sub(p3).spec_add(p4).spec_sub(p4).spec_add(p5).spec_sub(p5).spec_add(p6).spec_sub(p6).spec_add(p7).spec_sub(p7).spec_sub(p8).spec_add(p9).spec_sub(p10), p11, p8);
    lemma_swap_sa(p1.spec_sub(p1).spec_add(p2).spec_sub(p2).spec_add(p3).spec_sub(p3).spec_add(p4).spec_sub(p4).spec_add(p5).spec_sub(p5).spec_add(p6).spec_sub(p6).spec_add(p7).spec_sub(p7).spec_sub(p8).spec_add(p9), p10, p8);
    lemma_swap_aa(p1.spec_sub(p1).spec_add(p2).spec_sub(p2).spec_add(p3).spec_sub(p3).spec_add(p4).spec_sub(p4).spec_add(p5).spec_sub(p5).spec_add(p6).spec_sub(p6).spec_add(p7).spec_sub(p7).spec_sub(p8), p9, p8);
    lemma_swap_sa(p1.spec_sub(p1).spec_add(p2).spec_sub(p2).spec_add(p3).spec_sub(p3).spec_add(p4).spec_sub(p4).spec_add(p5).spec_sub(p5).spec_add(p6).spec_sub(p6).spec_add(p7).spec_sub(p7), p8, p8);
    lemma_swap_as(p1.spec_sub(p1).spec_add(p2).spec_sub(p2).spec_add(p3).spec_sub(p3).spec_add(p4).spec_sub(p4).spec_add(p5).spec_sub(p5).spec_add(p6).spec_sub(p6).spec_add(p7).spec_sub(p7).spec_add(p8).spec_sub(p8).spec_add(p9).spec_sub(p10), p11, p9);
    lemma_swap_ss(p1.spec_sub(p1).spec_add(p2).spec_sub(p2).spec_add(p3).spec_sub(p3).spec_add(p4).spec_sub(p4).spec_add(p5).spec_sub(p5).spec_add(p6).spec_sub(p6).spec_add(p7).spec_sub(p7).spec_add(p8).spec_sub(p8).spec_add(p9), p10, p9);
    lemma_swap_sa(p1.spec_sub(p1).spec_add(p2).spec_sub(p2).spec_add(p3).spec_sub(p3).spec_add(p4).spec_sub(p4).spec_add(p5).spec_sub(p5).spec_add(p6).spec_sub(p6).spec_add(p7).spec_sub(p7).spec_add(p8).spec_sub(p8).spec_add(p9).spec_sub(p9).spec_sub(p10).spec_add(p11), p12, p10);
    lemma_swap_aa(p1.spec_sub(p1).spec_add(p2).spec_sub(p2).spec_add(p3).spec_sub(p3).spec_add(p4).spec_sub(p4).spec_add(p5).spec_sub(p5).spec_add(p6).spec_sub(p6).spec_add(p7).spec_sub(p7).spec_add(p8).spec_sub(p8).spec_add(p9).spec_sub(p9).spec_sub(p10), p11, p10);
    lemma_swap_sa(p1.spec_sub(p1).spec_add(p2).spec_sub(p2).spec_add(p3).spec_sub(p3).spec_add(p4).spec_sub(p4).spec_add(p5).spec_sub(p5).spec_add(p6).spec_sub(p6).spec_add(p7).spec_sub(p7).spec_add(p8).spec_sub(p8).spec_add(p9).spec_sub(p9), p10, p10);
    lemma_swap_as(p1.spec_sub(p1).spec_add(p2).spec_sub(p2).spec_add(p3).spec_sub(p3).spec_add(p4).spec_sub(p4).spec_add(p5).spec_sub(p5).spec_add(p6).spec_sub(p6).spec_add(p7).spec_sub(p7).spec_add(p8).spec_sub(p8).spec_add(p9).spec_sub(p9).spec_add(p10).spec_sub(p10).spec_add(p11).spec_sub(p12), p12, p11);
    lemma_swap_ss(p1.spec_sub(p1).spec_add(p2).spec_sub(p2).spec_add(p3).spec_sub(p3).spec_add(p4).spec_sub(p4).spec_add(p5).spec_sub(p5).spec_add(p6).spec_sub(p6).spec_add(p7).spec_sub(p7).spec_add(p8).spec_sub(p8).spec_add(p9).spec_sub(p9).spec_add(p10).spec_sub(p10).spec_add(p11), p12, p11);
    lemma_swap_sa(p1.spec_sub(p1).spec_add(p2).spec_sub(p2).spec_add(p3).spec_sub(p3).spec_add(p4).spec_sub(p4).spec_add(p5).spec_sub(p5).spec_add(p6).spec_sub(p6).spec_add(p7).spec_sub(p7).spec_add(p8).spec_sub(p8).spec_add(p9).spec_sub(p9).spec_add(p10).spec_sub(p10).spec_add(p11).spec_sub(p11), p12, p12);
    lemma_self_cancel(p1);
    lemma_cancel_adj(p1.spec_sub(p1), p2);
    lemma_cancel_adj(p1.spec_sub(p1).spec_add(p2).spec_sub(p2), p3);
    lemma_cancel_adj(p1.spec_sub(p1).spec_add(p2).spec_sub(p2).spec_add(p3).spec_sub(p3), p4);
    lemma_cancel_adj(p1.spec_sub(p1).spec_add(p2).spec_sub(p2).spec_add(p3).spec_sub(p3).spec_add(p4).spec_sub(p4), p5);
    lemma_cancel_adj(p1.spec_sub(p1).spec_add(p2).spec_sub(p2).spec_add(p3).spec_sub(p3).spec_add(p4).spec_sub(p4).spec_add(p5).spec_sub(p5), p6);
    lemma_cancel_adj(p1.spec_sub(p1).spec_add(p2).spec_sub(p2).spec_add(p3).spec_sub(p3).spec_add(p4).spec_sub(p4).spec_add(p5).spec_sub(p5).spec_add(p6).spec_sub(p6), p7);
    lemma_cancel_adj(p1.spec_sub(p1).spec_add(p2).spec_sub(p2).spec_add(p3).spec_sub(p3).spec_add(p4).spec_sub(p4).spec_add(p5).spec_sub(p5).spec_add(p6).spec_sub(p6).spec_add(p7).spec_sub(p7), p8);
    lemma_cancel_adj(p1.spec_sub(p1).spec_add(p2).spec_sub(p2).spec_add(p3).spec_sub(p3).spec_add(p4).spec_sub(p4).spec_add(p5).spec_sub(p5).spec_add(p6).spec_sub(p6).spec_add(p7).spec_sub(p7).spec_add(p8).spec_sub(p8), p9);
    lemma_cancel_adj(p1.spec_sub(p1).spec_add(p2).spec_sub(p2).spec_add(p3).spec_sub(p3).spec_add(p4).spec_sub(p4).spec_add(p5).spec_sub(p5).spec_add(p6).spec_sub(p6).spec_add(p7).spec_sub(p7).spec_add(p8).spec_sub(p8).spec_add(p9).spec_sub(p9), p10);
    lemma_cancel_adj(p1.spec_sub(p1).spec_add(p2).spec_sub(p2).spec_add(p3).spec_sub(p3).spec_add(p4).spec_sub(p4).spec_add(p5).spec_sub(p5).spec_add(p6).spec_sub(p6).spec_add(p7).spec_sub(p7).spec_add(p8).spec_sub(p8).spec_add(p9).spec_sub(p9).spec_add(p10).spec_sub(p10), p11);
    lemma_cancel_adj(p1.spec_sub(p1).spec_add(p2).spec_sub(p2).spec_add(p3).spec_sub(p3).spec_add(p4).spec_sub(p4).spec_add(p5).spec_sub(p5).spec_add(p6).spec_sub(p6).spec_add(p7).spec_sub(p7).spec_add(p8).spec_sub(p8).spec_add(p9).spec_sub(p9).spec_add(p10).spec_sub(p10).spec_add(p11).spec_sub(p11), p12);
}

pub(crate) proof fn lemma_inv_entry6<T: Scalar>(a: Seq<T>)
    requires
        a.len() == 16,
        field_sealed::<T>(),
        !det_seq(a).spec_is_zero(),
    ensures
        mul_seq(inverse_seq(a), a)[6] == T::spec_zero(),
{
    lemma_field_gives_ring::<T>();
    let inv = inverse_seq(a);
    let inv_d = T::spec_one().spec_div(det_seq(a));
    let b00 = minor2(a, 0, 5, 1, 4);
    let b01 = minor2(a, 0, 6, 2, 4);
    let b02 = minor2(a, 0, 7, 3, 4);
    let b03 = minor2(a, 1, 6, 2, 5);
    let b04 = minor2(a, 1, 7, 3, 5);
    let b05 = minor2(a, 2, 7, 3, 6);
    let b06 = minor2(a, 8, 13, 9, 12);
    let b07 = minor2(a, 8, 14, 10, 12);
    let b08 = minor2(a, 8, 15, 11, 12);
    let b09 = minor2(a, 9, 14, 10, 13);
    let b10 = minor2(a, 9, 15, 11, 13);
    let b11 = minor2(a, 10, 15, 11, 14);
    assert(mul_seq(inv, a)[6] == a[4].spec_mul(inv[2]).spec_add(a[5].spec_mul(inv[6])).spec_add(a[6].spec_mul(inv[10])).spec_add(a[7].spec_mul(inv[14])));
    assert(inv[2] == a[13].spec_mul(b05).spec_sub(a[14].spec_mul(b04)).spec_add(a[15].spec_mul(b03)).spec_mul(inv_d));
    assert(inv[6] == a[14].spec_mul(b02).spec_sub(a[12].spec_mul(b05)).spec_sub(a[15].spec_mul(b01)).spec_mul(inv_d));
    assert(inv[10] == a[12].spec_mul(b04).spec_sub(a[13].spec_mul(b02)).spec_add(a[15].spec_mul(b00)).spec_mul(inv_d));
    assert(inv[14] == a[13].spec_mul(b01).spec_sub(a[12].spec_mul(b03)).spec_sub(a[14].spec_mul(b00)).spec_mul(inv_d));
    lemma_mul_assoc(a[4], a[13].spec_mul(b05).spec_sub(a[14].spec_mul(b04)).spec_add(a[15].spec_mul(b03)), inv_d);
    lemma_mul_assoc(a[5], a[14].spec_mul(b02).spec_sub(a[12].spec_mul(b05)).spec_sub(a[15].spec_mul(b01)), inv_d);
    lemma_mul_assoc(a[6], a[12].spec_mul(b04).spec_sub(a[13].spec_mul(b02)).spec_add(a[15].spec_mul(b00)), inv_d);
    lemma_mul_assoc(a[7], a[13].spec_mul(b01).spec_sub(a[12].spec_mul(b03)).spec_sub(a[14].spec_mul(b00)), inv_d);
    lemma_factor4(
        a[4].spec_mul(a[13].spec_mul(b05).spec_sub(a[14].spec_mul(b04)).spec_add(a[15].spec_mul(b03))),
        a[5].spec_mul(a[14].spec_mul(b02).spec_sub(a[12].spec_mul(b05)).spec_sub(a[15].spec_mul(b01))),
        a[6].spec_mul(a[12].spec_mul(b04).spec_sub(a[13].spec_mul(b02)).spec_add(a[15].spec_mul(b00))),
        a[7].spec_mul(a[13].spec_mul(b01).spec_sub(a[12].spec_mul(b03)).spec_sub(a[14].spec_mul(b00))),
        inv_d,
    );
    lemma_distrib3_pmp(a[4], a[13].spec_mul(b05), a[14].spec_mul(b04), a[15].spec_mul(b03));
    lemma_mul_assoc(a[4], a[13], b05);
    lemma_mul_assoc(a[4], a[14], b04);
    lemma_mul_assoc(a[4], a[15], b03);
    lemma_distrib3_pmm(a[5], a[14].spec_mul(b02), a[12].spec_mul(b05), a[15].spec_mul(b01));
    lemma_mul_assoc(a[5], a[14], b02);
    lemma_mul_assoc(a[5], a[12], b05);
    lemma_mul_assoc(a[5], a[15], b01);
    lemma_distrib3_pmp(a[6], a[12].spec_mul(b04), a[13].spec_mul(b02), a[15].spec_mul(b00));
    lemma_mul_assoc(a[6], a[12], b04);
    lemma_mul_assoc(a[6], a[13], b02);
    lemma_mul_assoc(a[6], a[15], b00);
    lemma_distrib3_pmm(a[7], a[13].spec_mul(b01), a[12].spec_mul(b03), a[14].spec_mul(b00));
    lemma_mul_assoc(a[7], a[13], b01);
    lemma_mul_assoc(a[7], a[12], b03);
    lemma_mul_assoc(a[7], a[14], b00);
    lemma_append3_pmm(
        a[4].spec_mul(a[13]).spec_mul(b05).spec_sub(a[4].spec_mul(a[14]).spec_mul(b04)).spec_add(a[4].spec_mul(a[15]).spec_mul(b03)),
        a[5].spec_mul(a[14]).spec_mul(b02),
        a[5].spec_mul(a[12]).spec_mul(b05),
        a[5].spec_mul(a[15]).spec_mul(b01),
    );
    lemma_append3_pmp(
        a[4].spec_mul(a[13]).spec_mul(b05).spec_sub(a[4].spec_mul(a[14]).spec_mul(b04)).spec_add(a[4].spec_mul(a[15]).spec_mul(b03)).spec_add(a[5].spec_mul(a[14]).spec_mul(b02)).spec_sub(a[5].spec_mul(a[12]).spec_mul(b05)).spec_sub(a[5].spec_mul(a[15]).spec_mul(b01)),
        a[6].spec_mul(a[12]).spec_mul(b04),
        a[6].spec_mul(a[13]).spec_mul(b02),
        a[6].spec_mul(a[15]).spec_mul(b00),
    );
    lemma_append3_pmm(
        a[4].spec_mul(a[13]).spec_mul(b05).spec_sub(a[4].spec_mul(a[14]).spec_mul(b04)).spec_add(a[4].spec_mul(a[15]).spec_mul(b03)).spec_add(a[5].spec_mul(a[14]).spec_mul(b02)).spec_sub(a[5].spec_mul(a[12]).spec_mul(b05)).spec_sub(a[5].spec_mul(a[15]).spec_mul(b01)).spec_add(a[6].spec_mul(a[12]).spec_mul(b04)).spec_sub(a[6].spec_mul(a[13]).spec_mul(b02)).spec_add(a[6].spec_mul(a[15]).spec_mul(b00)),
        a[7].spec_mul(a[13]).spec_mul(b01),
        a[7].spec_mul(a[12]).spec_mul(b03),
        a[7].spec_mul(a[14]).spec_mul(b00),
    );
    let c2x4x7x13 = a[2].spec_mul(a[4]).spec_mul(a[7].spec_mul(a[13]));
    let c3x4x6x13 = a[3].spec_mul(a[4]).spec_mul(a[6].spec_mul(a[13]));
    let c1x4x7x14 = a[1].spec_mul(a[4]).spec_mul(a[7].spec_mul(a[14]));
    let c3x4x5x14 = a[3].spec_mul(a[4]).spec_mul(a[5].spec_mul(a[14]));
    let c1x4x6x15 = a[1].spec_mul(a[4]).spec_mul(a[6].spec_mul(a[15]));
    let c2x4x5x15 = a[2].spec_mul(a[4]).spec_mul(a[5].spec_mul(a[15]));
    let c0x5x7x14 = a[0].spec_mul(a[5]).spec_mul(a[7].spec_mul(a[14]));
    let c2x5x7x12 = a[2].spec_mul(a[5]).spec_mul(a[7].spec_mul(a[12]));
    let c3x5x6x12 = a[3].spec_mul(a[5]).spec_mul(a[6].spec_mul(a[12]));
    let c0x5x6x15 = a[0].spec_mul(a[5]).spec_mul(a[6].spec_mul(a[15]));
    let c1x6x7x12 = a[1].spec_mul(a[6]).spec_mul(a[7].spec_mul(a[12]));
    let c0x6x7x13 = a[0].spec_mul(a[6]).spec_mul(a[7].spec_mul(a[13]));
    lemma_distrib2(a[4].spec_mul(a[13]), a[2].spec_mul(a[7]), a[3].spec_mul(a[6]));
    lemma_distrib2(a[4].spec_mul(a[14]), a[1].spec_mul(a[7]), a[3].spec_mul(a[5]));
    lemma_distrib2(a[4].spec_mul(a[15]), a[1].spec_mul(a[6]), a[2].spec_mul(a[5]));
    lemma_distrib2(a[5].spec_mul(a[14]), a[0].spec_mul(a[7]), a[3].spec_mul(a[4]));
    lemma_distrib2(a[5].spec_mul(a[12]), a[2].spec_mul(a[7]), a[3].spec_mul(a[6]));
    lemma_distrib2(a[5].spec_mul(a[15]), a[0].spec_mul(a[6]), a[2].spec_mul(a[4]));
    lemma_distrib2(a[6].spec_mul(a[12]), a[1].spec_mul(a[7]), a[3].spec_mul(a[5]));
    lemma_distrib2(a[6].spec_mul(a[13]), a[0].spec_mul(a[7]), a[3].spec_mul(a[4]));
    lemma_distrib2(a[6].spec_mul(a[15]), a[0].spec_mul(a[5]), a[1].spec_mul(a[4]));
    lemma_distrib2(a[7].spec_mul(a[13]), a[0].spec_mul(a[6]), a[2].spec_mul(a[4]));
    lemma_distrib2(a[7].spec_mul(a[12]), a[1].spec_mul(a[6]), a[2].spec_mul(a[5]));
    lemma_distrib2(a[7].spec_mul(a[14]), a[0].spec_mul(a[5]), a[1].spec_mul(a[4]));
    lemma_mul4_rearrange(a[4], a[13], a[2], a[7]);
    lemma_mul_comm(a[4], a[2]);
    lemma_mul_comm(a[13], a[7]);
    lemma_mul4_rearrange(a[4], a[13], a[3], a[6]);
    lemma_mul_comm(a[4], a[3]);
    lemma_mul_comm(a[13], a[6]);
    lemma_mul4_rearrange(a[4], a[14], a[1], a[7]);
    lemma_mul_comm(a[4], a[1]);
    lemma_mul_comm(a[14], a[7]);
    lemma_mul4_rearrange(a[4], a[14], a[3], a[5]);
    lemma_mul_comm(a[14], a[5]);
    lemma_mul4_rearrange(a[4], a[15], a[1], a[6]);
    lemma_mul_comm(a[15], a[6]);
    lemma_mul4_rearrange(a[4], a[15], a[2], a[5]);
    lemma_mul_comm(a[15], a[5]);
    lemma_mul4_rearrange(a[5], a[14], a[0], a[7]);
    lemma_mul_comm(a[5], a[0]);
    lemma_mul_comm(a[5].spec_mul(a[14]), a[3].spec_mul(a[4]));
    lemma_mul4_rearrange(a[5], a[12], a[2], a[7]);
    lemma_mul_comm(a[5], a[2]);
    lemma_mul_comm(a[12], a[7]);
    lemma_mul4_rearrange(a[5], a[12], a[3], a[6]);
    lemma_mul_comm(a[5], a[3]);
    lemma_mul_comm(a[12], a[6]);
    lemma_mul4_rearrange(a[5], a[15], a[0], a[6]);
    lemma_mul_comm(a[5].spec_mul(a[15]), a[2].spec_mul(a[4]));
    lemma_mul4_rearrange(a[6], a[12], a[1], a[7]);
    lemma_mul_comm(a[6], a[1]);
    lemma_mul_comm(a[6].spec_mul(a[12]), a[3].spec_mul(a[5]));
    lemma_mul4_rearrange(a[6], a[13], a[0], a[7]);
    lemma_mul_comm(a[6], a[0]);
    lemma_mul_comm(a[6].spec_mul(a[13]), a[3].spec_mul(a[4]));
    lemma_mul_comm(a[6].spec_mul(a[15]), a[0].spec_mul(a[5]));
    lemma_mul_comm(a[6].spec_mul(a[15]), a[1].spec_mul(a[4]));
    lemma_mul_comm(a[7].spec_mul(a[13]), a[0].spec_mul(a[6]));
    lemma_mul_comm(a[7].spec_mul(a[13]), a[2].spec_mul(a[4]));
    lemma_mul_comm(a[7].spec_mul(a[12]), a[1].spec_mul(a[6]));
    lemma_mul_comm(a[7].spec_mul(a[12]), a[2].spec_mul(a[5]));
    lemma_mul_comm(a[7].spec_mul(a[14]), a[0].spec_mul(a[5]));
    lemma_mul_comm(a[7].spec_mul(a[14]), a[1].spec_mul(a[4]));
    lemma_append2_neg(
        c2x4x7x13.spec_sub(c3x4x6x13),
        c1x4x7x14,
        c3x4x5x14,
    );
    lemma_append2_pos(
        c2x4x7x13.spec_sub(c3x4x6x13).spec_sub(c1x4x7x14).spec_add(c3x4x5x14),
        c1x4x6x15,
        c2x4x5x15,
    );
    lemma_append2_pos(
        c2x4x7x13.spec_sub(c3x4x6x13).spec_sub(c1x4x7x14).spec_add(c3x4x5x14).spec_add(c1x4x6x15).spec_sub(c2x4x5x15),
        c0x5x7x14,
        c3x4x5x14,
    );
    lemma_append2_neg(
        c2x4x7x13.spec_sub(c3x4x6x13).spec_sub(c1x4x7x14).spec_add(c3x4x5x14).spec_add(c1x4x6x15).spec_sub(c2x4x5x15).spec_add(c0x5x7x14).spec_sub(c3x4x5x14),
        c2x5x7x12,
        c3x5x6x12,
    );
    lemma_append2_neg(
        c2x4x7x13.spec_sub(c3x4x6x13).spec_sub(c1x4x7x14).spec_add(c3x4x5x14).spec_add(c1x4x6x15).spec_sub(c2x4x5x15).spec_add(c0x5x7x14).spec_sub(c3x4x5x14).spec_sub(c2x5x7x12).spec_add(c3x5x6x12),
        c0x5x6x15,
        c2x4x5x15,
    );
    lemma_append2_pos(
        c2x4x7x13.spec_sub(c3x4x6x13).spec_sub(c1x4x7x14).spec_add(c3x4x5x14).spec_add(c1x4x6x15).spec_sub(c2x4x5x15).spec_add(c0x5x7x14).spec_sub(c3x4x5x14).spec_sub(c2x5x7x12).spec_add(c3x5x6x12).spec_sub(c0x5x6x15).spec_add(c2x4x5x15),
        c1x6x7x12,
        c3x5x6x12,
    );
    lemma_append2_neg(
        c2x4x7x13.spec_sub(c3x4x6x13).spec_sub(c1x4x7x14).spec_add(c3x4x5x14).spec_add(c1x4x6x15).spec_sub(c2x4x5x15).spec_add(c0x5x7x14).spec_sub(c3x4x5x14).spec_sub(c2x5x7x12).spec_add(c3x5x6x12).spec_sub(c0x5x6x15).spec_add(c2x4x5x15).spec_add(c1x6x7x12).spec_sub(c3x5x6x12),
        c0x6x7x13,
        c3x4x6x13,
    );
    lemma_append2_pos(
        c2x4x7x13.spec_sub(c3x4x6x13).spec_sub(c1x4x7x14).spec_add(c3x4x5x14).spec_add(c1x4x6x15).spec_sub(c2x4x5x15).spec_add(c0x5x7x14).spec_sub(c3x4x5x14).spec_sub(c2x5x7x12).spec_add(c3x5x6x12).spec_sub(c0x5x6x15).spec_add(c2x4x5x15).spec_add(c1x6x7x12).spec_sub(c3x5x6x12).spec_sub(c0x6x7x13).spec_add(c3x4x6x13),
        c0x5x6x15,
        c1x4x6x15,
    );
    lemma_append2_pos(
        c2x4x7x13.spec_sub(c3x4x6x13).spec_sub(c1x4x7x14).spec_add(c3x4x5x14).spec_add(c1x4x6x15).spec_sub(c2x4x5x15).spec_add(c0x5x7x14).spec_sub(c3x4x5x14).spec_sub(c2x5x7x12).spec_add(c3x5x6x12).spec_sub(c0x5x6x15).spec_add(c2x4x5x15).spec_add(c1x6x7x12).spec_sub(c3x5x6x12).spec_sub(c0x6x7x13).spec_add(c3x4x6x13).spec_add(c0x5x6x15).spec_sub(c1x4x6x15),
        c0x6x7x13,
        c2x4x7x13,
    );
    lemma_append2_neg(
        c2x4x7x13.spec_sub(c3x4x6x13).spec_sub(c1x4x7x14).spec_add(c3x4x5x14).spec_add(c1x4x6x15).spec_sub(c2x4x5x15).spec_add(c0x5x7x14).spec_sub(c3x4x5x14).spec_sub(c2x5x7x12).spec_add(c3x5x6x12).spec_sub(c0x5x6x15).spec_add(c2x4x5x15).spec_add(c1x6x7x12).spec_sub(c3x5x6x12).spec_sub(c0x6x7x13).spec_add(c3x4x6x13).spec_add(c0x5x6x15).spec_sub(c1x4x6x15).spec_add(c0x6x7x13).spec_sub(c2x4x7x13),
        c1x6x7x12,
        c2x5x7x12,
    );
    lemma_append2_neg(
        c2x4x7x13.spec_sub(c3x4x6x13).spec_sub(c1x4x7x14).spec_add(c3x4x5x14).spec_add(c1x4x6x15).spec_sub(c2x4x5x15).spec_add(c0x5x7x14).spec_sub(c3x4x5x14).spec_sub(c2x5x7x12).spec_add(c3x5x6x12).spec_sub(c0x5x6x15).spec_add(c2x4x5x15).spec_add(c1x6x7x12).spec_sub(c3x5x6x12).spec_sub(c0x6x7x13).spec_add(c3x4x6x13).spec_add(c0x5x6x15).spec_sub(c1x4x6x15).spec_add(c0x6x7x13).spec_sub(c2x4x7x13).spec_sub(c1x6x7x12).spec_add(c2x5x7x12),
        c0x5x7x14,
        c1x4x7x14,
    );
    lemma_inv_chain6(c2x4x7x13, c3x4x6x13, c1x4x7x14, c3x4x5x14, c1x4x6x15, c2x4x5x15, c0x5x7x14, c2x5x7x12, c3x5x6x12, c0x5x6x15, c1x6x7x12, c0x6x7x13);
    lemma_zero_mul(inv_d);
    assert(mul_seq(inv, a)[6] == T::spec_zero());
}

proof fn lemma_inv_chain7<T: Scalar>(p1: T, p2: T, p3: T, p4: T, p5: T, p6: T, p7: T, p8: T, p9: T, p10: T, p11: T, p12: T)
    requires
        laws_sealed::<T>(),
    ensures
        p1.spec_sub(p2).spec_sub(p3).spec_add(p4).spec_sub(p5).spec_add(p6).spec_add(p7).spec_sub(p8).spec_sub(p9).spec_add(p2).spec_add(p10).spec_sub(p6).spec_add(p11).spec_sub(p4).spec_sub(p12).spec_add(p8).spec_sub(p10).spec_add(p5).spec_add(p12).spec_sub(p7).spec_sub(p11).spec_add(p3).spec_add(p9).spec_sub(p1) == T::spec_zero(),
{
    lemma_swap_as(p1.spec_sub(p2).spec_sub(p3).spec_add(p4).spec_sub(p5).spec_add(p6).spec_add(p7).spec_sub(p8).spec_sub(p9).spec_add(p2).spec_add(p10).spec_sub(p6).spec_add(p11).spec_sub(p4).spec_sub(p12).spec_add(p8).spec_sub(p10).spec_add(p5).spec_add(p12).spec_sub(p7).spec_sub(p11).spec_add(p3), p9, p1);
    lemma_swap_as(p1.spec_sub(p2).spec_sub(p3).spec_add(p4).spec_sub(p5).spec_add(p6).spec_add(p7).spec_sub(p8).spec_sub(p9).spec_add(p2).spec_add(p10).spec_sub(p6).spec_add(p11).spec_sub(p4).spec_sub(p12).spec_add(p8).spec_sub(p10).spec_add(p5).spec_add(p12).spec_sub(p7).spec_sub(p11), p3, p1);
    lemma_swap_ss(p1.spec_sub(p2).spec_sub(p3).spec_add(p4).spec_sub(p5).spec_add(p6).spec_add(p7).spec_sub(p8).spec_sub(p9).spec_add(p2).spec_add(p10).spec_sub(p6).spec_add(p11).spec_sub(p4).spec_sub(p12).spec_add(p8).spec_sub(p10).spec_add(p5).spec_add(p12).spec_sub(p7), p11, p1);
    lemma_swap_ss(p1.spec_sub(p2).spec_sub(p3).spec_add(p4).spec_sub(p5).spec_add(p6).spec_add(p7).spec_sub(p8).spec_sub(p9).spec_add(p2).spec_add(p10).spec_sub(p6).spec_add(p11).spec_sub(p4).spec_sub(p12).spec_add(p8).spec_sub(p10).spec_add(p5).spec_add(p12), p7, p1);
    lemma_swap_as(p1.spec_sub(p2).spec_sub(p3).spec_add(p4).spec_sub(p5).spec_add(p6).spec_add(p7).spec_sub(p8).spec_sub(p9).spec_add(p2).spec_add(p10).spec_sub(p6).spec_add(p11).spec_sub(p4).spec_sub(p12).spec_add(p8).spec_sub(p10).spec_add(p5), p12, p1);
    lemma_swap_as(p1.spec_sub(p2).spec_sub(p3).spec_add(p4).spec_sub(p5).spec_add(p6).spec_add(p7).spec_sub(p8).spec_sub(p9).spec_add(p2).spec_add(p10).spec_sub(p6).spec_add(p11).spec_sub(p4).spec_sub(p12).spec_add(p8).spec_sub(p10), p5, p1);
    lemma_swap_ss(p1.spec_sub(p2).spec_sub(p3).spec_add(p4).spec_sub(p5).spec_add(p6).spec_add(p7).spec_sub(p8).spec_sub(p9).spec_add(p2).spec_add(p10).spec_sub(p6).spec_add(p11).spec_sub(p4).spec_sub(p12).spec_add(p8), p10, p1);
    lemma_swap_as(p1.spec_sub(p2).spec_sub(p3).spec_add(p4).spec_sub(p5).spec_add(p6).spec_add(p7).spec_sub(p8).spec_sub(p9).spec_add(p2).spec_add(p10).spec_sub(p6).spec_add(p11).spec_sub(p4).spec_sub(p12), p8, p1);
    lemma_swap_ss(p1.spec_sub(p2).spec_sub(p3).spec_add(p4).spec_sub(p5).spec_add(p6).spec_add(p7).spec_sub(p8).spec_sub(p9).spec_add(p2).spec_add(p10).spec_sub(p6).spec_add(p11).spec_sub(p4), p12, p1);
    lemma_swap_ss(p1.spec_sub(p2).spec_sub(p3).spec_add(p4).spec_sub(p5).spec_add(p6).spec_add(p7).spec_sub(p8).spec_sub(p9).spec_add(p2).spec_add(p10).spec_sub(p6).spec_add(p11), p4, p1);
    lemma_swap_as(p1.spec_sub(p2).spec_sub(p3).spec_add(p4).spec_sub(p5).spec_add(p6).spec_add(p7).spec_sub(p8).spec_sub(p9).spec_add(p2).spec_add(p10).spec_sub(p6), p11, p1);
    lemma_swap_ss(p1.spec_sub(p2).spec_sub(p3).spec_add(p4).spec_sub(p5).spec_add(p6).spec_add(p7).spec_sub(p8).spec_sub(p9).spec_add(p2).spec_add(p10), p6, p1);
    lemma_swap_as(p1.spec_sub(p2).spec_sub(p3).spec_add(p4).spec_sub(p5).spec_add(p6).spec_add(p7).spec_sub(p8).spec_sub(p9).spec_add(p2), p10, p1);
    lemma_swap_as(p1.spec_sub(p2).spec_sub(p3).spec_add(p4).spec_sub(p5).spec_add(p6).spec_add(p7).spec_sub(p8).spec_sub(p9), p2, p1);
    lemma_swap_ss(p1.spec_sub(p2).spec_sub(p3).spec_add(p4).spec_sub(p5).spec_add(p6).spec_add(p7).spec_sub(p8), p9, p1);
    lemma_swap_ss(p1.spec_sub(p2).spec_sub(p3).spec_add(p4).spec_sub(p5).spec_add(p6).spec_add(p7), p8, p1);
    lemma_swap_as(p1.spec_sub(p2).spec_sub(p3).spec_add(p4).spec_sub(p5).spec_add(p6), p7, p1);
    lemma_swap_as(p1.spec_sub(p2).spec_sub(p3).spec_add(p4).spec_sub(p5), p6, p1);
    lemma_swap_ss(p1.spec_sub(p2).spec_sub(p3).spec_add(p4), p5, p1);
    lemma_swap_as(p1.spec_sub(p2).spec_sub(p3), p4, p1);
    lemma_swap_ss(p1.spec_sub(p2), p3, p1);
    lemma_swap_ss(p1, p2, p1);
    lemma_swap_sa(p1.spec_sub(p1).spec_sub(p2).spec_sub(p3).spec_add(p4).spec_sub(p5).spec_add(p6).spec_add(p7).spec_sub(p8), p9, p2);
    lemma_swap_sa(p1.spec_sub(p1).spec_sub(p2).spec_sub(p3).spec_add(p4).spec_sub(p5).spec_add(p6).spec_add(p7), p8, p2);
    lemma_swap_aa(p1.spec_sub(p1).spec_sub(p2).spec_sub(p3).spec_add(p4).spec_sub(p5).spec_add(p6), p7, p2);
    lemma_swap_aa(p1.spec_sub(p1).spec_sub(p2).spec_sub(p3).spec_add(p4).spec_sub(p5), p6, p2);
    lemma_swap_sa(p1.spec_sub(p1).spec_sub(p2).spec_sub(p3).spec_add(p4), p5, p2);
    lemma_swap_aa(p1.spec_sub(p1).spec_sub(p2).spec_sub(p3), p4, p2);
    lemma_swap_sa(p1.spec_sub(p1).spec_sub(p2), p3, p2);
    lemma_swap_sa(p1.spec_sub(p1), p2, p2);
    lemma_swap_sa(p1.spec_sub(p1).spec_add(p2).spec_sub(p2).spec_sub(p3).spec_add(p4).spec_sub(p5).spec_add(p6).spec_add(p7).spec_sub(p8).spec_sub(p9).spec_add(p10).spec_sub(p6).spec_add(p11).spec_sub(p4).spec_sub(p12).spec_add(p8).spec_sub(p10).spec_add(p5).spec_add(p12).spec_sub(p7), p11, p3);
    lemma_swap_sa(p1.spec_sub(p1).spec_add(p2).spec_sub(p2).spec_sub(p3).spec_add(p4).spec_sub(p5).spec_add(p6).spec_add(p7).spec_sub(p8).spec_sub(p9).spec_add(p10).spec_sub(p6).spec_add(p11).spec_sub(p4).spec_sub(p12).spec_add(p8).spec_sub(p10).spec_add(p5).spec_add(p12), p7, p3);
    lemma_swap_aa(p1.spec_sub(p1).spec_add(p2).spec_sub(p2).spec_sub(p3).spec_add(p4).spec_sub(p5).spec_add(p6).spec_add(p7).spec_sub(p8).spec_sub(p9).spec_add(p10).spec_sub(p6).spec_add(p11).spec_sub(p4).spec_sub(p12).spec_add(p8).spec_sub(p10).spec_add(p5), p12, p3);
    lemma_swap_aa(p1.spec_sub(p1).spec_add(p2).spec_sub(p2).spec_sub(p3).spec_add(p4).spec_sub(p5).spec_add(p6).spec_add(p7).spec_sub(p8).spec_sub(p9).spec_add(p10).spec_sub(p6).spec_add(p11).spec_sub(p4).spec_sub(p12).spec_add(p8).spec_sub(p10), p5, p3);
    lemma_swap_sa(p1.spec_sub(p1).spec_add(p2).spec_sub(p2).spec_sub(p3).spec_add(p4).spec_sub(p5).spec_add(p6).spec_add(p7).spec_sub(p8).spec_sub(p9).spec_add(p10).spec_sub(p6).spec_add(p11).spec_sub(p4).spec_sub(p12).spec_add(p8), p10, p3);
    lemma_swap_aa(p1.spec_sub(p1).spec_add(p2).spec_sub(p2).spec_sub(p3).spec_add(p4).spec_sub(p5).spec_add(p6).spec_add(p7).spec_sub(p8).spec_sub(p9).spec_add(p10).spec_sub(p6).spec_add(p11).spec_sub(p4).spec_sub(p12), p8, p3);
    lemma_swap_sa(p1.spec_sub(p1).spec_add(p2).spec_sub(p2).spec_sub(p3).spec_add(p4).spec_sub(p5).spec_add(p6).spec_add(p7).spec_sub(p8).spec_sub(p9).spec_add(p10).spec_sub(p6).spec_add(p11).spec_sub(p4), p12, p3);
    lemma_swap_sa(p1.spec_sub(p1).spec_add(p2).spec_sub(p2).spec_sub(p3).spec_add(p4).spec_sub(p5).spec_add(p6).spec_add(p7).spec_sub(p8).spec_sub(p9).spec_add(p10).spec_sub(p6).spec_add(p11), p4, p3);
    lemma_swap_aa(p1.spec_sub(p1).spec_add(p2).spec_sub(p2).spec_sub(p3).spec_add(p4).spec_sub(p5).spec_add(p6).spec_add(p7).spec_sub(p8).spec_sub(p9).spec_add(p10).spec_sub(p6), p11, p3);
    lemma_swap_sa(p1.spec_sub(p1).spec_add(p2).spec_sub(p2).spec_sub(p3).spec_add(p4).spec_sub(p5).spec_add(p6).spec_add(p7).spec_sub(p8).spec_sub(p9).spec_add(p10), p6, p3);
    lemma_swap_aa(p1.spec_sub(p1).spec_add(p2).spec_sub(p2).spec_sub(p3).spec_add(p4).spec_sub(p5).spec_add(p6).spec_add(p7).spec_sub(p8).spec_sub(p9), p10, p3);
    lemma_swap_sa(p1.spec_sub(p1).spec_add(p2).spec_sub(p2).spec_sub(p3).spec_add(p4).spec_sub(p5).spec_add(p6).spec_add(p7).spec_sub(p8), p9, p3);
    lemma_swap_sa(p1.spec_sub(p1).spec_add(p2).spec_sub(p2).spec_sub(p3).spec_add(p4).spec_sub(p5).spec_add(p6).spec_add(p7), p8, p3);
    lemma_swap_aa(p1.spec_sub(p1).spec_add(p2).spec_sub(p2).spec_sub(p3).spec_add(p4).spec_sub(p5).spec_add(p6), p7, p3);
    lemma_swap_aa(p1.spec_sub(p1).spec_add(p2).spec_sub(p2).spec_sub(p3).spec_add(p4).spec_sub(p5), p6, p3);
    lemma_swap_sa(p1.spec_sub(p1).spec_add(p2).spec_sub(p2).spec_sub(p3).spec_add(p4), p5, p3);
    lemma_swap_aa(p1.spec_sub(p1).spec_add(p2).spec_sub(p2).spec_sub(p3), p4, p3);
    lemma_swap_sa(p1.spec_sub(p1).spec_add(p2).spec_sub(p2), p3, p3);
    lemma_swap_as(p1.spec_sub(p1).spec_add(p2).spec_sub(p2).spec_add(p3).spec_sub(p3).spec_add(p4).spec_sub(p5).spec_add(p6).spec_add(p7).spec_sub(p8).spec_sub(p9).spec_add(p10).spec_sub(p6), p11, p4);
    lemma_swap_ss(p1.spec_sub(p1).spec_add(p2).spec_sub(p2).spec_add(p3).spec_sub(p3).spec_add(p4).spec_sub(p5).spec_add(p6).spec_add(p7).spec_sub(p8).spec_sub(p9).spec_add(p10), p6, p4);
    lemma_swap_as(p1.spec_sub(p1).spec_add(p2).spec_sub(p2).spec_add(p3).spec_sub(p3).spec_add(p4).spec_sub(p5).spec_add(p6).spec_add(p7).spec_sub(p8).spec_sub(p9), p10, p4);
    lemma_swap_ss(p1.spec_sub(p1).spec_add(p2).spec_sub(p2).spec_add(p3).spec_sub(p3).spec_add(p4).spec_sub(p5).spec_add(p6).spec_add(p7).spec_sub(p8), p9, p4);
    lemma_swap_ss(p1.spec_sub(p1).spec_add(p2).spec_sub(p2).spec_add(p3).spec_sub(p3).spec_add(p4).spec_sub(p5).spec_add(p6).spec_add(p7), p8, p4);
    lemma_swap_as(p1.spec_sub(p1).spec_add(p2).spec_sub(p2).spec_add(p3).spec_sub(p3).spec_add(p4).spec_sub(p5).spec_add(p6), p7, p4);
    lemma_swap_as(p1.spec_sub(p1).spec_add(p2).spec_sub(p2).spec_add(p3).spec_sub(p3).spec_add(p4).spec_sub(p5), p6, p4);
    lemma_swap_ss(p1.spec_sub(p1).spec_add(p2).spec_sub(p2).spec_add(p3).spec_sub(p3).spec_add(p4), p5, p4);
    lemma_swap_sa(p1.spec_sub(p1).spec_add(p2).spec_sub(p2).spec_add(p3).spec_sub(p3).spec_add(p4).spec_sub(p4).spec_sub(p5).spec_add(p6).spec_add(p7).spec_sub(p8).spec_sub(p9).spec_add(p10).spec_sub(p6).spec_add(p11).spec_sub(p12).spec_add(p8), p10, p5);
    lemma_swap_aa(p1.spec_sub(p1).spec_add(p2).spec_sub(p2).spec_add(p3).spec_sub(p3).spec_add(p4).spec_sub(p4).spec_sub(p5).spec_add(p6).spec_add(p7).spec_sub(p8).spec_sub(p9).spec_add(p10).spec_sub(p6).spec_add(p11).spec_sub(p12), p8, p5);
    lemma_swap_sa(p1.spec_sub(p1).spec_add(p2).spec_sub(p2).spec_add(p3).spec_sub(p3).spec_add(p4).spec_sub(p4).spec_sub(p5).spec_add(p6).spec_add(p7).spec_sub(p8).spec_sub(p9).spec_add(p10).spec_sub(p6).spec_add(p11), p12, p5);
    lemma_swap_aa(p1.spec_sub(p1).spec_add(p2).spec_sub(p2).spec_add(p3).spec_sub(p3).spec_add(p4).spec_sub(p4).spec_sub(p5).spec_add(p6).spec_add(p7).spec_sub(p8).spec_sub(p9).spec_add(p10).spec_sub(p6), p11, p5);
    lemma_swap_sa(p1.spec_sub(p1).spec_add(p2).spec_sub(p2).spec_add(p3).spec_sub(p3).spec_add(p4).spec_sub(p4).spec_sub(p5).spec_add(p6).spec_add(p7).spec_sub(p8).spec_sub(p9).spec_add(p10), p6, p5);
    lemma_swap_aa(p1.spec_sub(p1).spec_add(p2).spec_sub(p2).spec_add(p3).spec_sub(p3).spec_add(p4).spec_sub(p4).spec_sub(p5).spec_add(p6).spec_add(p7).spec_sub(p8).spec_sub(p9), p10, p5);
    lemma_swap_sa(p1.spec_sub(p1).spec_add(p2).spec_sub(p2).spec_add(p3).spec_sub(p3).spec_add(p4).spec_sub(p4).spec_sub(p5).spec_add(p6).spec_add(p7).spec_sub(p8), p9, p5);
    lemma_swap_sa(p1.spec_sub(p1).spec_add(p2).spec_sub(p2).spec_add(p3).spec_sub(p3).spec_add(p4).spec_sub(p4).spec_sub(p5).spec_add(p6).spec_add(p7), p8, p5);
    lemma_swap_aa(p1.spec_sub(p1).spec_add(p2).spec_sub(p2).spec_add(p3).spec_sub(p3).spec_add(p4).spec_sub(p4).spec_sub(p5).spec_add(p6), p7, p5);
    lemma_swap_aa(p1.spec_sub(p1).spec_add(p2).spec_sub(p2).spec_add(p3).spec_sub(p3).spec_add(p4).spec_sub(p4).spec_sub(p5), p6, p5);
    lemma_swap_sa(p1.spec_sub(p1).spec_add(p2).spec_sub(p2).spec_add(p3).spec_sub(p3).spec_add(p4).spec_sub(p4), p5, p5);
    lemma_swap_as(p1.spec_sub(p1).spec_add(p2).spec_sub(p2).spec_add(p3).spec_sub(p3).spec_add(p4).spec_sub(p4).spec_add(p5).spec_sub(p5).spec_add(p6).spec_add(p7).spec_sub(p8).spec_sub(p9), p10, p6);
    lemma_swap_ss(p1.spec_sub(p1).spec_add(p2).spec_sub(p2).spec_add(p3).spec_sub(p3).spec_add(p4).spec_sub(p4).spec_add(p5).spec_sub(p5).spec_add(p6).spec_add(p7).spec_sub(p8), p9, p6);
    lemma_swap_ss(p1.spec_sub(p1).spec_add(p2).spec_sub(p2).spec_add(p3).spec_sub(p3).spec_add(p4).spec_sub(p4).spec_add(p5).spec_sub(p5).spec_add(p6).spec_add(p7), p8, p6);
    lemma_swap_as(p1.spec_sub(p1).spec_add(p2).spec_sub(p2).spec_add(p3).spec_sub(p3).spec_add(p4).spec_sub(p4).spec_add(p5).spec_sub(p5).spec_add(p6), p7, p6);
    lemma_swap_as(p1.spec_sub(p1).spec_add(p2).spec_sub(p2).spec_add(p3).spec_sub(p3).spec_add(p4).spec_sub(p4).spec_add(p5).spec_sub(p5).spec_add(p6).spec_sub(p6).spec_add(p7).spec_sub(p8).spec_sub(p9).spec_add(p10).spec_add(p11).spec_sub(p12).spec_add(p8).spec_sub(p10), p12, p7);
    lemma_swap_ss(p1.spec_sub(p1).spec_add(p2).spec_sub(p2).spec_add(p3).spec_sub(p3).spec_add(p4).spec_sub(p4).spec_add(p5).spec_sub(p5).spec_add(p6).spec_sub(p6).spec_add(p7).spec_sub(p8).spec_sub(p9).spec_add(p10).spec_add(p11).spec_sub(p12).spec_add(p8), p10, p7);
    lemma_swap_as(p1.spec_sub(p1).spec_add(p2).spec_sub(p2).spec_add(p3).spec_sub(p3).spec_add(p4).spec_sub(p4).spec_add(p5).spec_sub(p5).spec_add(p6).spec_sub(p6).spec_add(p7).spec_sub(p8).spec_sub(p9).spec_add(p10).spec_add(p11).spec_sub(p12), p8, p7);
    lemma_swap_ss(p1.spec_sub(p1).spec_add(p2).spec_sub(p2).spec_add(p3).spec_sub(p3).spec_add(p4).spec_sub(p4).spec_add(p5).spec_sub(p5).spec_add(p6).spec_sub(p6).spec_add(p7).spec_sub(p8).spec_sub(p9).spec_add(p10).spec_add(p11), p12, p7);
    lemma_swap_as(p1.spec_sub(p1).spec_add(p2).spec_sub(p2).spec_add(p3).spec_sub(p3).spec_add(p4).spec_sub(p4).spec_add(p5).spec_sub(p5).spec_add(p6).spec_sub(p6).spec_add(p7).spec_sub(p8).spec_sub(p9).spec_add(p10), p11, p7);
    lemma_swap_as(p1.spec_sub(p1).spec_add(p2).spec_sub(p2).spec_add(p3).spec_sub(p3).spec_add(p4).spec_sub(p4).spec_add(p5).spec_sub(p5).spec_add(p6).spec_sub(p6).spec_add(p7).spec_sub(p8).spec_sub(p9), p10, p7);
    lemma_swap_ss(p1.spec_sub(p1).spec_add(p2).spec_sub(p2).spec_add(p3).spec_sub(p3).spec_add(p4).spec_sub(p4).spec_add(p5).spec_sub(p5).spec_add(p6).spec_sub(p6).spec_add(p7).spec_sub(p8), p9, p7);
    lemma_swap_ss(p1.spec_sub(p1).spec_add(p2).spec_sub(p2).spec_add(p3).spec_sub(p3).spec_add(p4).spec_sub(p4).spec_add(p5).spec_sub(p5).spec_add(p6).spec_sub(p6).spec_add(p7), p8, p7);
    lemma_swap_sa(p1.spec_sub(p1).spec_add(p2).spec_sub(p2).spec_add(p3).spec_sub(p3).spec_add(p4).spec_sub(p4).spec_add(p5).spec_sub(p5).spec_add(p6).spec_sub(p6).spec_add(p7).spec_sub(p7).spec_sub(p8).spec_sub(p9).spec_add(p10).spec_add(p11), p12, p8);
    lemma_swap_aa(p1.spec_sub(p1).spec_add(p2).spec_sub(p2).spec_add(p3).spec_sub(p3).spec_add(p4).spec_sub(p4).spec_add(p5).spec_sub(p5).spec_add(p6).spec_sub(p6).spec_add(p7).spec_sub(p7).spec_sub(p8).spec_sub(p9).spec_add(p10), p11, p8);
    lemma_swap_aa(p1.spec_sub(p1).spec_add(p2).spec_sub(p2).spec_add(p3).spec_sub(p3).spec_add(p4).spec_sub(p4).spec_add(p5).spec_sub(p5).spec_add(p6).spec_sub(p6).spec_add(p7).spec_sub(p7).spec_sub(p8).spec_sub(p9), p10, p8);
    lemma_swap_sa(p1.spec_sub(p1).spec_add(p2).spec_sub(p2).spec_add(p3).spec_sub(p3).spec_add(p4).spec_sub(p4).spec_add(p5).spec_sub(p5).spec_add(p6).spec_sub(p6).spec_add(p7).spec_sub(p7).spec_sub(p8), p9, p8);
    lemma_swap_sa(p1.spec_sub(p1).spec_add(p2).spec_sub(p2).spec_add(p3).spec_sub(p3).spec_add(p4).spec_sub(p4).spec_add(p5).spec_sub(p5).spec_add(p6).spec_sub(p6).spec_add(p7).spec_sub(p7), p8, p8);
    lemma_swap_sa(p1.spec_sub(p1).spec_add(p2).spec_sub(p2).spec_add(p3).spec_sub(p3).spec_add(p4).spec_sub(p4).spec_add(p5).spec_sub(p5).spec_add(p6).spec_sub(p6).spec_add(p7).spec_sub(p7).spec_add(p8).spec_sub(p8).spec_sub(p9).spec_add(p10).spec_add(p11).spec_sub(p12).spec_sub(p10).spec_add(p12), p11, p9);
    lemma_swap_aa(p1.spec_sub(p1).spec_add(p2).spec_sub(p2).spec_add(p3).spec_sub(p3).spec_add(p4).spec_sub(p4).spec_add(p5).spec_sub(p5).spec_add(p6).spec_sub(p6).spec_add(p7).spec_sub(p7).spec_add(p8).spec_sub(p8).spec_sub(p9).spec_add(p10).spec_add(p11).spec_sub(p12).spec_sub(p10), p12, p9);
    lemma_swap_sa(p1.spec_sub(p1).spec_add(p2).spec_sub(p2).spec_add(p3).spec_sub(p3).spec_add(p4).spec_sub(p4).spec_add(p5).spec_sub(p5).spec_add(p6).spec_sub(p6).spec_add(p7).spec_sub(p7).spec_add(p8).spec_sub(p8).spec_sub(p9).spec_add(p10).spec_add(p11).spec_sub(p12), p10, p9);
    lemma_swap_sa(p1.spec_sub(p1).spec_add(p2).spec_sub(p2).spec_add(p3).spec_sub(p3).spec_add(p4).spec_sub(p4).spec_add(p5).spec_sub(p5).spec_add(p6).spec_sub(p6).spec_add(p7).spec_sub(p7).spec_add(p8).spec_sub(p8).spec_sub(p9).spec_add(p10).spec_add(p11), p12, p9);
    lemma_swap_aa(p1.spec_sub(p1).spec_add(p2).spec_sub(p2).spec_add(p3).spec_sub(p3).spec_add(p4).spec_sub(p4).spec_add(p5).spec_sub(p5).spec_add(p6).spec_sub(p6).spec_add(p7).spec_sub(p7).spec_add(p8).spec_sub(p8).spec_sub(p9).spec_add(p10), p11, p9);
    lemma_swap_aa(p1.spec_sub(p1).spec_add(p2).spec_sub(p2).spec_add(p3).spec_sub(p3).spec_add(p4).spec_sub(p4).spec_add(p5).spec_sub(p5).spec_add(p6).spec_sub(p6).spec_add(p7).spec_sub(p7).spec_add(p8).spec_sub(p8).spec_sub(p9), p10, p9);
    lemma_swap_sa(p1.spec_sub(p1).spec_add(p2).spec_sub(p2).spec_add(p3).spec_sub(p3).spec_add(p4).spec_sub(p4).spec_add(p5).spec_sub(p5).spec_add(p6).spec_sub(p6).spec_add(p7).spec_sub(p7).spec_add(p8).spec_sub(p8), p9, p9);
    lemma_swap_ss(p1.spec_sub(p1).spec_add(p2).spec_sub(p2).spec_add(p3).spec_sub(p3).spec_add(p4).spec_sub(p4).spec_add(p5).spec_sub(p5).spec_add(p6).spec_sub(p6).spec_add(p7).spec_sub(p7).spec_add(p8).spec_sub(p8).spec_add(p9).spec_sub(p9).spec_add(p10).spec_add(p11), p12, p10);
    lemma_swap_as(p1.spec_sub(p1).spec_add(p2).spec_sub(p2).spec_add(p3).spec_sub(p3).spec_add(p4).spec_sub(p4).spec_add(p5).spec_sub(p5).spec_add(p6).spec_sub(p6).spec_add(p7).spec_sub(p7).spec_add(p8).spec_sub(p8).spec_add(p9).spec_sub(p9).spec_add(p10), p11, p10);
    lemma_swap_as(p1.spec_sub(p1).spec_add(p2).spec_sub(p2).spec_add(p3).spec_sub(p3).spec_add(p4).spec_sub(p4).spec_add(p5).spec_sub(p5).spec_add(p6).spec_sub(p6).spec_add(p7).spec_sub(p7).spec_add(p8).spec_sub(p8).spec_add(p9).spec_sub(p9).spec_add(p10).spec_sub(p10).spec_add(p11).spec_sub(p12), p12, p11);
    lemma_swap_ss(p1.spec_sub(p1).spec_add(p2).spec_sub(p2).spec_add(p3).spec_sub(p3).spec_add(p4).spec_sub(p4).spec_add(p5).spec_sub(p5).spec_add(p6).spec_sub(p6).spec_add(p7).spec_sub(p7).spec_add(p8).spec_sub(p8).spec_add(p9).spec_sub(p9).spec_add(p10).spec_sub(p10).spec_add(p11), p12, p11);
    lemma_swap_sa(p1.spec_sub(p1).spec_add(p2).spec_sub(p2).spec_add(p3).spec_sub(p3).spec_add(p4).spec_sub(p4).spec_add(p5).spec_sub(p5).spec_add(p6).spec_sub(p6).spec_add(p7).spec_sub(p7).spec_add(p8).spec_sub(p8).spec_add(p9).spec_sub(p9).spec_add(p10).spec_sub(p10).spec_add(p11).spec_sub(p11), p12, p12);
    lemma_self_cancel(p1);
    lemma_cancel_adj(p1.spec_sub(p1), p2);
    lemma_cancel_adj(p1.spec_sub(p1).spec_add(p2).spec_sub(p2), p3);
    lemma_cancel_adj(p1.spec_sub(p1).spec_add(p2).spec_sub(p2).spec_add(p3).spec_sub(p3), p4);
    lemma_cancel_adj(p1.spec_sub(p1).spec_add(p2).spec_sub(p2).spec_add(p3).spec_sub(p3).spec_add(p4).spec_sub(p4), p5);
    lemma_cancel_adj(p1.spec_sub(p1).spec_add(p2).spec_sub(p2).spec_add(p3).spec_sub(p3).spec_add(p4).spec_sub(p4).spec_add(p5).spec_sub(p5), p6);
    lemma_cancel_adj(p1.spec_sub(p1).spec_add(p2).spec_sub(p2).spec_add(p3).spec_sub(p3).spec_add(p4).spec_sub(p4).spec_add(p5).spec_sub(p5).spec_add(p6).spec_sub(p6), p7);
    lemma_cancel_adj(p1.spec_sub(p1).spec_add(p2).spec_sub(p2).spec_add(p3).spec_sub(p3).spec_add(p4).spec_sub(p4).spec_add(p5).spec_sub(p5).spec_add(p6).spec_sub(p6).spec_add(p7).spec_sub(p7), p8);
    lemma_cancel_adj(p1.spec_sub(p1).spec_add(p2).spec_sub(p2).spec_add(p3).spec_sub(p3).spec_add(p4).spec_sub(p4).spec_add(p5).spec_sub(p5).spec_add(p6).spec_sub(p6).spec_add(p7).spec_sub(p7).spec_add(p8).spec_sub(p8), p9);
    lemma_cancel_adj(p1.spec_sub(p1).spec_add(p2).spec_sub(p2).spec_add(p3).spec_sub(p3).spec_add(p4).spec_sub(p4).spec_add(p5).spec_sub(p5).spec_add(p6).spec_sub(p6).spec_add(p7).spec_sub(p7).spec_add(p8).spec_sub(p8).spec_add(p9).spec_sub(p9), p10);
    lemma_cancel_adj(p1.spec_sub(p1).spec_add(p2).spec_sub(p2).spec_add(p3).spec_sub(p3).spec_add(p4).spec_sub(p4).spec_add(p5).spec_sub(p5).spec_add(p6).spec_sub(p6).spec_add(p7).spec_sub(p7).spec_add(p8).spec_sub(p8).spec_add(p9).spec_sub(p9).spec_add(p10).spec_sub(p10), p11);
    lemma_cancel_adj(p1.spec_sub(p1).spec_add(p2).spec_sub(p2).spec_add(p3).spec_sub(p3).spec_add(p4).spec_sub(p4).spec_add(p5).spec_sub(p5).spec_add(p6).spec_sub(p6).spec_add(p7).spec_sub(p7).spec_add(p8).spec_sub(p8).spec_add(p9).spec_sub(p9).spec_add(p10).spec_sub(p10).spec_add(p11).spec_sub(p11), p12);
}

pub(crate) proof fn lemma_inv_entry7<T: Scalar>(a: Seq<T>)
    requires
        a.len() == 16,
        field_sealed::<T>(),
        !det_seq(a).spec_is_zero(),
    ensures
        mul_seq(inverse_seq(a), a)[7] == T::spec_zero(),
{
    lemma_field_gives_ring::<T>();
    let inv = inverse_seq(a);
    let inv_d = T::spec_one().spec_div(det_seq(a));
    let b00 = minor2(a, 0, 5, 1, 4);
    let b01 = minor2(a, 0, 6, 2, 4);
    let b02 = minor2(a, 0, 7, 3, 4);
    let b03 = minor2(a, 1, 6, 2, 5);
    let b04 = minor2(a, 1, 7, 3, 5);
    let b05 = minor2(a, 2, 7, 3, 6);
    let b06 = minor2(a, 8, 13, 9, 12);
    let b07 = minor2(a, 8, 14, 10, 12);
    let b08 = minor2(a, 8, 15, 11, 12);
    let b09 = minor2(a, 9, 14, 10, 13);
    let b10 = minor2(a, 9, 15, 11, 13);
    let b11 = minor2(a, 10, 15, 11, 14);
    assert(mul_seq(inv, a)[7] == a[4].spec_mul(inv[3]).spec_add(a[5].spec_mul(inv[7])).spec_add(a[6].spec_mul(inv[11])).spec_add(a[7].spec_mul(inv[15])));
    assert(inv[3] == a[10].spec_mul(b04).spec_sub(a[9].spec_mul(b05)).spec_sub(a[11].spec_mul(b03)).spec_mul(inv_d));
    assert(inv[7] == a[8].spec_mul(b05).spec_sub(a[10].spec_mul(b02)).spec_add(a[11].spec_mul(b01)).spec_mul(inv_d));
    assert(inv[11] == a[9].spec_mul(b02).spec_sub(a[8].spec_mul(b04)).spec_sub(a[11].spec_mul(b00)).spec_mul(inv_d));
    assert(inv[15] == a[8].spec_mul(b03).spec_sub(a[9].spec_mul(b01)).spec_add(a[10].spec_mul(b00)).spec_mul(inv_d));
    lemma_mul_assoc(a[4], a[10].spec_mul(b04).spec_sub(a[9].spec_mul(b05)).spec_sub(a[11].spec_mul(b03)), inv_d);
    lemma_mul_assoc(a[5], a[8].spec_mul(b05).spec_sub(a[10].spec_mul(b02)).spec_add(a[11].spec_mul(b01)), inv_d);
    lemma_mul_assoc(a[6], a[9].spec_mul(b02).spec_sub(a[8].spec_mul(b04)).spec_sub(a[11].spec_mul(b00)), inv_d);
    lemma_mul_assoc(a[7], a[8].spec_mul(b03).spec_sub(a[9].spec_mul(b01)).spec_add(a[10].spec_mul(b00)), inv_d);
    lemma_factor4(
        a[4].spec_mul(a[10].spec_mul(b04).spec_sub(a[9].spec_mul(b05)).spec_sub(a[11].spec_mul(b03))),
        a[5].spec_mul(a[8].spec_mul(b05).spec_sub(a[10].spec_mul(b02)).spec_add(a[11].spec_mul(b01))),
        a[6].spec_mul(a[9].spec_mul(b02).spec_sub(a[8].spec_mul(b04)).spec_sub(a[11].spec_mul(b00))),
        a[7].spec_mul(a[8].spec_mul(b03).spec_sub(a[9].spec_mul(b01)).spec_add(a[10].spec_mul(b00))),
        inv_d,
    );
    lemma_distrib3_pmm(a[4], a[10].spec_mul(b04), a[9].spec_mul(b05), a[11].spec_mul(b03));
    lemma_mul_assoc(a[4], a[10], b04);
    lemma_mul_assoc(a[4], a[9], b05);
    lemma_mul_assoc(a[4], a[11], b03);
    lemma_distrib3_pmp(a[5], a[8].spec_mul(b05), a[10].spec_mul(b02), a[11].spec_mul(b01));
    lemma_mul_assoc(a[5], a[8], b05);
    lemma_mul_assoc(a[5], a[10], b02);
    lemma_mul_assoc(a[5], a[11], b01);
    lemma_distrib3_pmm(a[6], a[9].spec_mul(b02), a[8].spec_mul(b04), a[11].spec_mul(b00));
    lemma_mul_assoc(a[6], a[9], b02);
    lemma_mul_assoc(a[6], a[8], b04);
    lemma_mul_assoc(a[6], a[11], b00);
    lemma_distrib3_pmp(a[7], a[8].spec_mul(b03), a[9].spec_mul(b01), a[10].spec_mul(b00));
    lemma_mul_assoc(a[7], a[8], b03);
    lemma_mul_assoc(a[7], a[9], b01);
    lemma_mul_assoc(a[7], a[10], b00);
    lemma_append3_pmp(
        a[4].spec_mul(a[10]).spec_mul(b04).spec_sub(a[4].spec_mul(a[9]).spec_mul(b05)).spec_sub(a[4].spec_mul(a[11]).spec_mul(b03)),
        a[5].spec_mul(a[8]).spec_mul(b05),
        a[5].spec_mul(a[10]).spec_mul(b02),
        a[5].spec_mul(a[11]).spec_mul(b01),
    );
    lemma_append3_pmm(
        a[4].spec_mul(a[10]).spec_mul(b04).spec_sub(a[4].spec_mul(a[9]).spec_mul(b05)).spec_sub(a[4].spec_mul(a[11]).spec_mul(b03)).spec_add(a[5].spec_mul(a[8]).spec_mul(b05)).spec_sub(a[5].spec_mul(a[10]).spec_mul(b02)).spec_add(a[5].spec_mul(a[11]).spec_mul(b01)),
        a[6].spec_mul(a[9]).spec_mul(b02),
        a[6].spec_mul(a[8]).spec_mul(b04),
        a[6].spec_mul(a[11]).spec_mul(b00),
    );
    lemma_append3_pmp(
        a[4].spec_mul(a[10]).spec_mul(b04).spec_sub(a[4].spec_mul(a[9]).spec_mul(b05)).spec_sub(a[4].spec_mul(a[11]).spec_mul(b03)).spec_add(a[5].spec_mul(a[8]).spec_mul(b05)).spec_sub(a[5].spec_mul(a[10]).spec_mul(b02)).spec_add(a[5].spec_mul(a[11]).spec_mul(b01)).spec_add(a[6].spec_mul(a[9]).spec_mul(b02)).spec_sub(a[6].spec_mul(a[8]).spec_mul(b04)).spec_sub(a[6].spec_mul(a[11]).spec_mul(b00)),
        a[7].spec_mul(a[8]).spec_mul(b03),
        a[7].spec_mul(a[9]).spec_mul(b01),
        a[7].spec_mul(a[10]).spec_mul(b00),
    );
    let c1x4x7x10 = a[1].spec_mul(a[4]).spec_mul(a[7].spec_mul(a[10]));
    let c3x4x5x10 = a[3].spec_mul(a[4]).spec_mul(a[5].spec_mul(a[10]));
    let c2x4x7x9 = a[2].spec_mul(a[4]).spec_mul(a[7].spec_mul(a[9]));
    let c3x4x6x9 = a[3].spec_mul(a[4]).spec_mul(a[6].spec_mul(a[9]));
    let c1x4x6x11 = a[1].spec_mul(a[4]).spec_mul(a[6].spec_mul(a[11]));
    let c2x4x5x11 = a[2].spec_mul(a[4]).spec_mul(a[5].spec_mul(a[11]));
    let c2x5x7x8 = a[2].spec_mul(a[5]).spec_mul(a[7].spec_mul(a[8]));
    let c3x5x6x8 = a[3].spec_mul(a[5]).spec_mul(a[6].spec_mul(a[8]));
    let c0x5x7x10 = a[0].spec_mul(a[5]).spec_mul(a[7].spec_mul(a[10]));
    let c0x5x6x11 = a[0].spec_mul(a[5]).spec_mul(a[6].spec_mul(a[11]));
    let c0x6x7x9 = a[0].spec_mul(a[6]).spec_mul(a[7].spec_mul(a[9]));
    let c1x6x7x8 = a[1].spec_mul(a[6]).spec_mul(a[7].spec_mul(a[8]));
    lemma_distrib2(a[4].spec_mul(a[10]), a[1].spec_mul(a[7]), a[3].spec_mul(a[5]));
    lemma_distrib2(a[4].spec_mul(a[9]), a[2].spec_mul(a[7]), a[3].spec_mul(a[6]));
    lemma_distrib2(a[4].spec_mul(a[11]), a[1].spec_mul(a[6]), a[2].spec_mul(a[5]));
    lemma_distrib2(a[5].spec_mul(a[8]), a[2].spec_mul(a[7]), a[3].spec_mul(a[6]));
    lemma_distrib2(a[5].spec_mul(a[10]), a[0].spec_mul(a[7]), a[3].spec_mul(a[4]));
    lemma_distrib2(a[5].spec_mul(a[11]), a[0].spec_mul(a[6]), a[2].spec_mul(a[4]));
    lemma_distrib2(a[6].spec_mul(a[9]), a[0].spec_mul(a[7]), a[3].spec_mul(a[4]));
    lemma_distrib2(a[6].spec_mul(a[8]), a[1].spec_mul(a[7]), a[3].spec_mul(a[5]));
    lemma_distrib2(a[6].spec_mul(a[11]), a[0].spec_mul(a[5]), a[1].spec_mul(a[4]));
    lemma_distrib2(a[7].spec_mul(a[8]), a[1].spec_mul(a[6]), a[2].spec_mul(a[5]));
    lemma_distrib2(a[7].spec_mul(a[9]), a[0].spec_mul(a[6]), a[2].spec_mul(a[4]));
    lemma_distrib2(a[7].spec_mul(a[10]), a[0].spec_mul(a[5]), a[1].spec_mul(a[4]));
    lemma_mul4_rearrange(a[4], a[10], a[1], a[7]);
    lemma_mul_comm(a[4], a[1]);
    lemma_mul_comm(a[10], a[7]);
    lemma_mul4_rearrange(a[4], a[10], a[3], a[5]);
    lemma_mul_comm(a[4], a[3]);
    lemma_mul_comm(a[10], a[5]);
    lemma_mul4_rearrange(a[4], a[9], a[2], a[7]);
    lemma_mul_comm(a[4], a[2]);
    lemma_mul_comm(a[9], a[7]);
    lemma_mul4_rearrange(a[4], a[9], a[3], a[6]);
    lemma_mul_comm(a[9], a[6]);
    lemma_mul4_rearrange(a[4], a[11], a[1], a[6]);
    lemma_mul_comm(a[11], a[6]);
    lemma_mul4_rearrange(a[4], a[11], a[2], a[5]);
    lemma_mul_comm(a[11], a[5]);
    lemma_mul4_rearrange(a[5], a[8], a[2], a[7]);
    lemma_mul_comm(a[5], a[2]);
    lemma_mul_comm(a[8], a[7]);
    lemma_mul4_rearrange(a[5], a[8], a[3], a[6]);
    lemma_mul_comm(a[5], a[3]);
    lemma_mul_comm(a[8], a[6]);
    lemma_mul4_rearrange(a[5], a[10], a[0], a[7]);
    lemma_mul_comm(a[5], a[0]);
    lemma_mul_comm(a[5].spec_mul(a[10]), a[3].spec_mul(a[4]));
    lemma_mul4_rearrange(a[5], a[11], a[0], a[6]);
    lemma_mul_comm(a[5].spec_mul(a[11]), a[2].spec_mul(a[4]));
    lemma_mul4_rearrange(a[6], a[9], a[0], a[7]);
    lemma_mul_comm(a[6], a[0]);
    lemma_mul_comm(a[6].spec_mul(a[9]), a[3].spec_mul(a[4]));
    lemma_mul4_rearrange(a[6], a[8], a[1], a[7]);
    lemma_mul_comm(a[6], a[1]);
    lemma_mul_comm(a[6].spec_mul(a[8]), a[3].spec_mul(a[5]));
    lemma_mul_comm(a[6].spec_mul(a[11]), a[0].spec_mul(a[5]));
    lemma_mul_comm(a[6].spec_mul(a[11]), a[1].spec_mul(a[4]));
    lemma_mul_comm(a[7].spec_mul(a[8]), a[1].spec_mul(a[6]));
    lemma_mul_comm(a[7].spec_mul(a[8]), a[2].spec_mul(a[5]));
    lemma_mul_comm(a[7].spec_mul(a[9]), a[0].spec_mul(a[6]));
    lemma_mul_comm(a[7].spec_mul(a[9]), a[2].spec_mul(a[4]));
    lemma_mul_comm(a[7].spec_mul(a[10]), a[0].spec_mul(a[5]));
    lemma_mul_comm(a[7].spec_mul(a[10]), a[1].spec_mul(a[4]));
    lemma_append2_neg(
        c1x4x7x10.spec_sub(c3x4x5x10),
        c2x4x7x9,
        c3x4x6x9,
    );
    lemma_append2_neg(
        c1x4x7x10.spec_sub(c3x4x5x10).spec_sub(c2x4x7x9).spec_add(c3x4x6x9),
        c1x4x6x11,
        c2x4x5x11,
    );
    lemma_append2_pos(
        c1x4x7x10.spec_sub(c3x4x5x10).spec_sub(c2x4x7x9).spec_add(c3x4x6x9).spec_sub(c1x4x6x11).spec_add(c2x4x5x11),
        c2x5x7x8,
        c3x5x6x8,
    );
    lemma_append2_neg(
        c1x4x7x10.spec_sub(c3x4x5x10).spec_sub(c2x4x7x9).spec_add(c3x4x6x9).spec_sub(c1x4x6x11).spec_add(c2x4x5x11).spec_add(c2x5x7x8).spec_sub(c3x5x6x8),
        c0x5x7x10,
        c3x4x5x10,
    );
    lemma_append2_pos(
        c1x4x7x10.spec_sub(c3x4x5x10).spec_sub(c2x4x7x9).spec_add(c3x4x6x9).spec_sub(c1x4x6x11).spec_add(c2x4x5x11).spec_add(c2x5x7x8).spec_sub(c3x5x6x8).spec_sub(c0x5x7x10).spec_add(c3x4x5x10),
        c0x5x6x11,
        c2x4x5x11,
    );
    lemma_append2_pos(
        c1x4x7x10.spec_sub(c3x4x5x10).spec_sub(c2x4x7x9).spec_add(c3x4x6x9).spec_sub(c1x4x6x11).spec_add(c2x4x5x11).spec_add(c2x5x7x8).spec_sub(c3x5x6x8).spec_sub(c0x5x7x10).spec_add(c3x4x5x10).spec_add(c0x5x6x11).spec_sub(c2x4x5x11),
        c0x6x7x9,
        c3x4x6x9,
    );
    lemma_append2_neg(
        c1x4x7x10.spec_sub(c3x4x5x10).spec_sub(c2x4x7x9).spec_add(c3x4x6x9).spec_sub(c1x4x6x11).spec_add(c2x4x5x11).spec_add(c2x5x7x8).spec_sub(c3x5x6x8).spec_sub(c0x5x7x10).spec_add(c3x4x5x10).spec_add(c0x5x6x11).spec_sub(c2x4x5x11).spec_add(c0x6x7x9).spec_sub(c3x4x6x9),
        c1x6x7x8,
        c3x5x6x8,
    );
    lemma_append2_neg(
        c1x4x7x10.spec_sub(c3x4x5x10).spec_sub(c2x4x7x9).spec_add(c3x4x6x9).spec_sub(c1x4x6x11).spec_add(c2x4x5x11).spec_add(c2x5x7x8).spec_sub(c3x5x6x8).spec_sub(c0x5x7x10).spec_add(c3x4x5x10).spec_add(c0x5x6x11).spec_sub(c2x4x5x11).spec_add(c0x6x7x9).spec_sub(c3x4x6x9).spec_sub(c1x6x7x8).spec_add(c3x5x6x8),
        c0x5x6x11,
        c1x4x6x11,
    );
    lemma_append2_pos(
        c1x4x7x10.spec_sub(c3x4x5x10).spec_sub(c2x4x7x9).spec_add(c3x4x6x9).spec_sub(c1x4x6x11).spec_add(c2x4x5x11).spec_add(c2x5x7x8).spec_sub(c3x5x6x8).spec_sub(c0x5x7x10).spec_add(c3x4x5x10).spec_add(c0x5x6x11).spec_sub(c2x4x5x11).spec_add(c0x6x7x9).spec_sub(c3x4x6x9).spec_sub(c1x6x7x8).spec_add(c3x5x6x8).spec_sub(c0x5x6x11).spec_add(c1x4x6x11),
        c1x6x7x8,
        c2x5x7x8,
    );
    lemma_append2_neg(
        c1x4x7x10.spec_sub(c3x4x5x10).spec_sub(c2x4x7x9).spec_add(c3x4x6x9).spec_sub(c1x4x6x11).spec_add(c2x4x5x11).spec_add(c2x5x7x8).spec_sub(c3x5x6x8).spec_sub(c0x5x7x10).spec_add(c3x4x5x10).spec_add(c0x5x6x11).spec_sub(c2x4x5x11).spec_add(c0x6x7x9).spec_sub(c3x4x6x9).spec_sub(c1x6x7x8).spec_add(c3x5x6x8).spec_sub(c0x5x6x11).spec_add(c1x4x6x11).spec_add(c1x6x7x8).spec_sub(c2x5x7x8),
        c0x6x7x9,
        c2x4x7x9,
    );
    lemma_append2_pos(
        c1x4x7x10.spec_sub(c3x4x5x10).spec_sub(c2x4x7x9).spec_add(c3x4x6x9).spec_sub(c1x4x6x11).spec_add(c2x4x5x11).spec_add(c2x5x7x8).spec_sub(c3x5x6x8).spec_sub(c0x5x7x10).spec_add(c3x4x5x10).spec_add(c0x5x6x11).spec_sub(c2x4x5x11).spec_add(c0x6x7x9).spec_sub(c3x4x6x9).spec_sub(c1x6x7x8).spec_add(c3x5x6x8).spec_sub(c0x5x6x11).spec_add(c1x4x6x11).spec_add(c1x6x7x8).spec_sub(c2x5x7x8).spec_sub(c0x6x7x9).spec_add(c2x4x7x9),
        c0x5x7x10,
        c1x4x7x10,
    );
    lemma_inv_chain7(c1x4x7x10, c3x4x5x10, c2x4x7x9, c3x4x6x9, c1x4x6x11, c2x4x5x11, c2x5x7x8, c3x5x6x8, c0x5x7x10, c0x5x6x11, c0x6x7x9, c1x6x7x8);
    lemma_zero_mul(inv_d);
    assert(mul_seq(inv, a)[7] == T::spec_zero());
}

proof fn lemma_inv_chain8<T: Scalar>(p1: T, p2: T, p3: T, p4: T, p5: T, p6: T, p7: T, p8: T, p9: T, p10: T, p11: T, p12: T)
    requires
        laws_sealed::<T>(),
    ensures
        p1.spec_sub(p2).spec_sub(p3).spec_add(p4).spec_add(p5).spec_sub(p6).spec_add(p3).spec_sub(p7).spec_sub(p8).spec_add(p9).spec_sub(p5).spec_add(p10).spec_add(p8).spec_sub(p11).spec_sub(p1).spec_add(p12).spec_add(p6).spec_sub(p10).spec_add(p2).spec_sub(p12).spec_sub(p9).spec_add(p11).spec_sub(p4).spec_add(p7) == T::spec_zero(),
{
    lemma_swap_ss(p1.spec_sub(p2).spec_sub(p3).spec_add(p4).spec_add(p5).spec_sub(p6).spec_add(p3).spec_sub(p7).spec_sub(p8).spec_add(p9).spec_sub(p5).spec_add(p10).spec_add(p8), p11, p1);
    lemma_swap_as(p1.spec_sub(p2).spec_sub(p3).spec_add(p4).spec_add(p5).spec_sub(p6).spec_add(p3).spec_sub(p7).spec_sub(p8).spec_add(p9).spec_sub(p5).spec_add(p10), p8, p1);
    lemma_swap_as(p1.spec_sub(p2).spec_sub(p3).spec_add(p4).spec_add(p5).spec_sub(p6).spec_add(p3).spec_sub(p7).spec_sub(p8).spec_add(p9).spec_sub(p5), p10, p1);
    lemma_swap_ss(p1.spec_sub(p2).spec_sub(p3).spec_add(p4).spec_add(p5).spec_sub(p6).spec_add(p3).spec_sub(p7).spec_sub(p8).spec_add(p9), p5, p1);
    lemma_swap_as(p1.spec_sub(p2).spec_sub(p3).spec_add(p4).spec_add(p5).spec_sub(p6).spec_add(p3).spec_sub(p7).spec_sub(p8), p9, p1);
    lemma_swap_ss(p1.spec_sub(p2).spec_sub(p3).spec_add(p4).spec_add(p5).spec_sub(p6).spec_add(p3).spec_sub(p7), p8, p1);
    lemma_swap_ss(p1.spec_sub(p2).spec_sub(p3).spec_add(p4).spec_add(p5).spec_sub(p6).spec_add(p3), p7, p1);
    lemma_swap_as(p1.spec_sub(p2).spec_sub(p3).spec_add(p4).spec_add(p5).spec_sub(p6), p3, p1);
    lemma_swap_ss(p1.spec_sub(p2).spec_sub(p3).spec_add(p4).spec_add(p5), p6, p1);
    lemma_swap_as(p1.spec_sub(p2).spec_sub(p3).spec_add(p4), p5, p1);
    lemma_swap_as(p1.spec_sub(p2).spec_sub(p3), p4, p1);
    lemma_swap_ss(p1.spec_sub(p2), p3, p1);
    lemma_swap_ss(p1, p2, p1);
    lemma_swap_sa(p1.spec_sub(p1).spec_sub(p2).spec_sub(p3).spec_add(p4).spec_add(p5).spec_sub(p6).spec_add(p3).spec_sub(p7).spec_sub(p8).spec_add(p9).spec_sub(p5).spec_add(p10).spec_add(p8).spec_sub(p11).spec_add(p12).spec_add(p6), p10, p2);
    lemma_swap_aa(p1.spec_sub(p1).spec_sub(p2).spec_sub(p3).spec_add(p4).spec_add(p5).spec_sub(p6).spec_add(p3).spec_sub(p7).spec_sub(p8).spec_add(p9).spec_sub(p5).spec_add(p10).spec_add(p8).spec_sub(p11).spec_add(p12), p6, p2);
    lemma_swap_aa(p1.spec_sub(p1).spec_sub(p2).spec_sub(p3).spec_add(p4).spec_add(p5).spec_sub(p6).spec_add(p3).spec_sub(p7).spec_sub(p8).spec_add(p9).spec_sub(p5).spec_add(p10).spec_add(p8).spec_sub(p11), p12, p2);
    lemma_swap_sa(p1.spec_sub(p1).spec_sub(p2).spec_sub(p3).spec_add(p4).spec_add(p5).spec_sub(p6).spec_add(p3).spec_sub(p7).spec_sub(p8).spec_add(p9).spec_sub(p5).spec_add(p10).spec_add(p8), p11, p2);
    lemma_swap_aa(p1.spec_sub(p1).spec_sub(p2).spec_sub(p3).spec_add(p4).spec_add(p5).spec_sub(p6).spec_add(p3).spec_sub(p7).spec_sub(p8).spec_add(p9).spec_sub(p5).spec_add(p10), p8, p2);
    lemma_swap_aa(p1.spec_sub(p1).spec_sub(p2).spec_sub(p3).spec_add(p4).spec_add(p5).spec_sub(p6).spec_add(p3).spec_sub(p7).spec_sub(p8).spec_add(p9).spec_sub(p5), p10, p2);
    lemma_swap_sa(p1.spec_sub(p1).spec_sub(p2).spec_sub(p3).spec_add(p4).spec_add(p5).spec_sub(p6).spec_add(p3).spec_sub(p7).spec_sub(p8).spec_add(p9), p5, p2);
    lemma_swap_aa(p1.spec_sub(p1).spec_sub(p2).spec_sub(p3).spec_add(p4).spec_add(p5).spec_sub(p6).spec_add(p3).spec_sub(p7).spec_sub(p8), p9, p2);
    lemma_swap_sa(p1.spec_sub(p1).spec_sub(p2).spec_sub(p3).spec_add(p4).spec_add(p5).spec_sub(p6).spec_add(p3).spec_sub(p7), p8, p2);
    lemma_swap_sa(p1.spec_sub(p1).spec_sub(p2).spec_sub(p3).spec_add(p4).spec_add(p5).spec_sub(p6).spec_add(p3), p7, p2);
    lemma_swap_aa(p1.spec_sub(p1).spec_sub(p2).spec_sub(p3).spec_add(p4).spec_add(p5).spec_sub(p6), p3, p2);
    lemma_swap_sa(p1.spec_sub(p1).spec_sub(p2).spec_sub(p3).spec_add(p4).spec_add(p5), p6, p2);
    lemma_swap_aa(p1.spec_sub(p1).spec_sub(p2).spec_sub(p3).spec_add(p4), p5, p2);
    lemma_swap_aa(p1.spec_sub(p1).spec_sub(p2).spec_sub(p3), p4, p2);
    lemma_swap_sa(p1.spec_sub(p1).spec_sub(p2), p3, p2);
    lemma_swap_sa(p1.spec_sub(p1), p2, p2);
    lemma_swap_sa(p1.spec_sub(p1).spec_add(p2).spec_sub(p2).spec_sub(p3).spec_add(p4).spec_add(p5), p6, p3);
    lemma_swap_aa(p1.spec_sub(p1).spec_add(p2).spec_sub(p2).spec_sub(p3).spec_add(p4), p5, p3);
    lemma_swap_aa(p1.spec_sub(p1).spec_add(p2).spec_sub(p2).spec_sub(p3), p4, p3);
    lemma_swap_sa(p1.spec_sub(p1).spec_add(p2).spec_sub(p2), p3, p3);
    lemma_swap_as(p1.spec_sub(p1).spec_add(p2).spec_sub(p2).spec_add(p3).spec_sub(p3).spec_add(p4).spec_add(p5).spec_sub(p6).spec_sub(p7).spec_sub(p8).spec_add(p9).spec_sub(p5).spec_add(p10).spec_add(p8).spec_sub(p11).spec_add(p12).spec_add(p6).spec_sub(p10).spec_sub(p12).spec_sub(p9), p11, p4);
    lemma_swap_ss(p1.spec_sub(p1).spec_add(p2).spec_sub(p2).spec_add(p3).spec_sub(p3).spec_add(p4).spec_add(p5).spec_sub(p6).spec_sub(p7).spec_sub(p8).spec_add(p9).spec_sub(p5).spec_add(p10).spec_add(p8).spec_sub(p11).spec_add(p12).spec_add(p6).spec_sub(p10).spec_sub(p12), p9, p4);
    lemma_swap_ss(p1.spec_sub(p1).spec_add(p2).spec_sub(p2).spec_add(p3).spec_sub(p3).spec_add(p4).spec_add(p5).spec_sub(p6).spec_sub(p7).spec_sub(p8).spec_add(p9).spec_sub(p5).spec_add(p10).spec_add(p8).spec_sub(p11).spec_add(p12).spec_add(p6).spec_sub(p10), p12, p4);
    lemma_swap_ss(p1.spec_sub(p1).spec_add(p2).spec_sub(p2).spec_add(p3).spec_sub(p3).spec_add(p4).spec_add(p5).spec_sub(p6).spec_sub(p7).spec_sub(p8).spec_add(p9).spec_sub(p5).spec_add(p10).spec_add(p8).spec_sub(p11).spec_add(p12).spec_add(p6), p10, p4);
    lemma_swap_as(p1.spec_sub(p1).spec_add(p2).spec_sub(p2).spec_add(p3).spec_sub(p3).spec_add(p4).spec_add(p5).spec_sub(p6).spec_sub(p7).spec_sub(p8).spec_add(p9).spec_sub(p5).spec_add(p10).spec_add(p8).spec_sub(p11).spec_add(p12), p6, p4);
    lemma_swap_as(p1.spec_sub(p1).spec_add(p2).spec_sub(p2).spec_add(p3).spec_sub(p3).spec_add(p4).spec_add(p5).spec_sub(p6).spec_sub(p7).spec_sub(p8).spec_add(p9).spec_sub(p5).spec_add(p10).spec_add(p8).spec_sub(p11), p12, p4);
    lemma_swap_ss(p1.spec_sub(p1).spec_add(p2).spec_sub(p2).spec_add(p3).spec_sub(p3).spec_add(p4).spec_add(p5).spec_sub(p6).spec_sub(p7).spec_sub(p8).spec_add(p9).spec_sub(p5).spec_add(p10).spec_add(p8), p11, p4);
    lemma_swap_as(p1.spec_sub(p1).spec_add(p2).spec_sub(p2).spec_add(p3).spec_sub(p3).spec_add(p4).spec_add(p5).spec_sub(p6).spec_sub(p7).spec_sub(p8).spec_add(p9).spec_sub(p5).spec_add(p10), p8, p4);
    lemma_swap_as(p1.spec_sub(p1).spec_add(p2).spec_sub(p2).spec_add(p3).spec_sub(p3).spec_add(p4).spec_add(p5).spec_sub(p6).spec_sub(p7).spec_sub(p8).spec_add(p9).spec_sub(p5), p10, p4);
    lemma_swap_ss(p1.spec_sub(p1).spec_add(p2).spec_sub(p2).spec_add(p3).spec_sub(p3).spec_add(p4).spec_add(p5).spec_sub(p6).spec_sub(p7).spec_sub(p8).spec_add(p9), p5, p4);
    lemma_swap_as(p1.spec_sub(p1).spec_add(p2).spec_sub(p2).spec_add(p3).spec_sub(p3).spec_add(p4).spec_add(p5).spec_sub(p6).spec_sub(p7).spec_sub(p8), p9, p4);
    lemma_swap_ss(p1.spec_sub(p1).spec_add(p2).spec_sub(p2).spec_add(p3).spec_sub(p3).spec_add(p4).spec_add(p5).spec_sub(p6).spec_sub(p7), p8, p4);
    lemma_swap_ss(p1.spec_sub(p1).spec_add(p2).spec_sub(p2).spec_add(p3).spec_sub(p3).spec_add(p4).spec_add(p5).spec_sub(p6), p7, p4);
    lemma_swap_ss(p1.spec_sub(p1).spec_add(p2).spec_sub(p2).spec_add(p3).spec_sub(p3).spec_add(p4).spec_add(p5), p6, p4);
    lemma_swap_as(p1.spec_sub(p1).spec_add(p2).spec_sub(p2).spec_add(p3).spec_sub(p3).spec_add(p4), p5, p4);
    lemma_swap_as(p1.spec_sub(p1).spec_add(p2).spec_sub(p2).spec_add(p3).spec_sub(p3).spec_add(p4).spec_sub(p4).spec_add(p5).spec_sub(p6).spec_sub(p7).spec_sub(p8), p9, p5);
    lemma_swap_ss(p1.spec_sub(p1).spec_add(p2).spec_sub(p2).spec_add(p3).spec_sub(p3).spec_add(p4).spec_sub(p4).spec_add(p5).spec_sub(p6).spec_sub(p7), p8, p5);
    lemma_swap_ss(p1.spec_sub(p1).spec_add(p2).spec_sub(p2).spec_add(p3).spec_sub(p3).spec_add(p4).spec_sub(p4).spec_add(p5).spec_sub(p6), p7, p5);
    lemma_swap_ss(p1.spec_sub(p1).spec_add(p2).spec_sub(p2).spec_add(p3).spec_sub(p3).spec_add(p4).spec_sub(p4).spec_add(p5), p6, p5);
    lemma_swap_aa(p1.spec_sub(p1).spec_add(p2).spec_sub(p2).spec_add(p3).spec_sub(p3).spec_add(p4).spec_sub(p4).spec_add(p5).spec_sub(p5).spec_sub(p6).spec_sub(p7).spec_sub(p8).spec_add(p9).spec_add(p10).spec_add(p8).spec_sub(p11), p12, p6);
    lemma_swap_sa(p1.spec_sub(p1).spec_add(p2).spec_sub(p2).spec_add(p3).spec_sub(p3).spec_add(p4).spec_sub(p4).spec_add(p5).spec_sub(p5).spec_sub(p6).spec_sub(p7).spec_sub(p8).spec_add(p9).spec_add(p10).spec_add(p8), p11, p6);
    lemma_swap_aa(p1.spec_sub(p1).spec_add(p2).spec_sub(p2).spec_add(p3).spec_sub(p3).spec_add(p4).spec_sub(p4).spec_add(p5).spec_sub(p5).spec_sub(p6).spec_sub(p7).spec_sub(p8).spec_add(p9).spec_add(p10), p8, p6);
    lemma_swap_aa(p1.spec_sub(p1).spec_add(p2).spec_sub(p2).spec_add(p3).spec_sub(p3).spec_add(p4).spec_sub(p4).spec_add(p5).spec_sub(p5).spec_sub(p6).spec_sub(p7).spec_sub(p8).spec_add(p9), p10, p6);
    lemma_swap_aa(p1.spec_sub(p1).spec_add(p2).spec_sub(p2).spec_add(p3).spec_sub(p3).spec_add(p4).spec_sub(p4).spec_add(p5).spec_sub(p5).spec_sub(p6).spec_sub(p7).spec_sub(p8), p9, p6);
    lemma_swap_sa(p1.spec_sub(p1).spec_add(p2).spec_sub(p2).spec_add(p3).spec_sub(p3).spec_add(p4).spec_sub(p4).spec_add(p5).spec_sub(p5).spec_sub(p6).spec_sub(p7), p8, p6);
    lemma_swap_sa(p1.spec_sub(p1).spec_add(p2).spec_sub(p2).spec_add(p3).spec_sub(p3).spec_add(p4).spec_sub(p4).spec_add(p5).spec_sub(p5).spec_sub(p6), p7, p6);
    lemma_swap_sa(p1.spec_sub(p1).spec_add(p2).spec_sub(p2).spec_add(p3).spec_sub(p3).spec_add(p4).spec_sub(p4).spec_add(p5).spec_sub(p5), p6, p6);
    lemma_swap_aa(p1.spec_sub(p1).spec_add(p2).spec_sub(p2).spec_add(p3).spec_sub(p3).spec_add(p4).spec_sub(p4).spec_add(p5).spec_sub(p5).spec_add(p6).spec_sub(p6).spec_sub(p7).spec_sub(p8).spec_add(p9).spec_add(p10).spec_add(p8).spec_sub(p11).spec_add(p12).spec_sub(p10).spec_sub(p12).spec_sub(p9), p11, p7);
    lemma_swap_sa(p1.spec_sub(p1).spec_add(p2).spec_sub(p2).spec_add(p3).spec_sub(p3).spec_add(p4).spec_sub(p4).spec_add(p5).spec_sub(p5).spec_add(p6).spec_sub(p6).spec_sub(p7).spec_sub(p8).spec_add(p9).spec_add(p10).spec_add(p8).spec_sub(p11).spec_add(p12).spec_sub(p10).spec_sub(p12), p9, p7);
    lemma_swap_sa(p1.spec_sub(p1).spec_add(p2).spec_sub(p2).spec_add(p3).spec_sub(p3).spec_add(p4).spec_sub(p4).spec_add(p5).spec_sub(p5).spec_add(p6).spec_sub(p6).spec_sub(p7).spec_sub(p8).spec_add(p9).spec_add(p10).spec_add(p8).spec_sub(p11).spec_add(p12).spec_sub(p10), p12, p7);
    lemma_swap_sa(p1.spec_sub(p1).spec_add(p2).spec_sub(p2).spec_add(p3).spec_sub(p3).spec_add(p4).spec_sub(p4).spec_add(p5).spec_sub(p5).spec_add(p6).spec_sub(p6).spec_sub(p7).spec_sub(p8).spec_add(p9).spec_add(p10).spec_add(p8).spec_sub(p11).spec_add(p12), p10, p7);
    lemma_swap_aa(p1.spec_sub(p1).spec_add(p2).spec_sub(p2).spec_add(p3).spec_sub(p3).spec_add(p4).spec_sub(p4).spec_add(p5).spec_sub(p5).spec_add(p6).spec_sub(p6).spec_sub(p7).spec_sub(p8).spec_add(p9).spec_add(p10).spec_add(p8).spec_sub(p11), p12, p7);
    lemma_swap_sa(p1.spec_sub(p1).spec_add(p2).spec_sub(p2).spec_add(p3).spec_sub(p3).spec_add(p4).spec_sub(p4).spec_add(p5).spec_sub(p5).spec_add(p6).spec_sub(p6).spec_sub(p7).spec_sub(p8).spec_add(p9).spec_add(p10).spec_add(p8), p11, p7);
    lemma_swap_aa(p1.spec_sub(p1).spec_add(p2).spec_sub(p2).spec_add(p3).spec_sub(p3).spec_add(p4).spec_sub(p4).spec_add(p5).spec_sub(p5).spec_add(p6).spec_sub(p6).spec_sub(p7).spec_sub(p8).spec_add(p9).spec_add(p10), p8, p7);
    lemma_swap_aa(p1.spec_sub(p1).spec_add(p2).spec_sub(p2).spec_add(p3).spec_sub(p3).spec_add(p4).spec_sub(p4).spec_add(p5).spec_sub(p5).spec_add(p6).spec_sub(p6).spec_sub(p7).spec_sub(p8).spec_add(p9), p10, p7);
    lemma_swap_aa(p1.spec_sub(p1).spec_add(p2).spec_sub(p2).spec_add(p3).spec_sub(p3).spec_add(p4).spec_sub(p4).spec_add(p5).spec_sub(p5).spec_add(p6).spec_sub(p6).spec_sub(p7).spec_sub(p8), p9, p7);
    lemma_swap_sa(p1.spec_sub(p1).spec_add(p2).spec_sub(p2).spec_add(p3).spec_sub(p3).spec_add(p4).spec_sub(p4).spec_add(p5).spec_sub(p5).spec_add(p6).spec_sub(p6).spec_sub(p7), p8, p7);
    lemma_swap_sa(p1.spec_sub(p1).spec_add(p2).spec_sub(p2).spec_add(p3).spec_sub(p3).spec_add(p4).spec_sub(p4).spec_add(p5).spec_sub(p5).spec_add(p6).spec_sub(p6), p7, p7);
    lemma_swap_aa(p1.spec_sub(p1).spec_add(p2).spec_sub(p2).spec_add(p3).spec_sub(p3).spec_add(p4).spec_sub(p4).spec_add(p5).spec_sub(p5).spec_add(p6).spec_sub(p6).spec_add(p7).spec_sub(p7).spec_sub(p8).spec_add(p9), p10, p8);
    lemma_swap_aa(p1.spec_sub(p1).spec_add(p2).spec_sub(p2).spec_add(p3).spec_sub(p3).spec_add(p4).spec_sub(p4).spec_add(p5).spec_sub(p5).spec_add(p6).spec_sub(p6).spec_add(p7).spec_sub(p7).spec_sub(p8), p9, p8);
    lemma_swap_sa(p1.spec_sub(p1).spec_add(p2).spec_sub(p2).spec_add(p3).spec_sub(p3).spec_add(p4).spec_sub(p4).spec_add(p5).spec_sub(p5).spec_add(p6).spec_sub(p6).spec_add(p7).spec_sub(p7), p8, p8);
    lemma_swap_ss(p1.spec_sub(p1).spec_add(p2).spec_sub(p2).spec_add(p3).spec_sub(p3).spec_add(p4).spec_sub(p4).spec_add(p5).spec_sub(p5).spec_add(p6).spec_sub(p6).spec_add(p7).spec_sub(p7).spec_add(p8).spec_sub(p8).spec_add(p9).spec_add(p10).spec_sub(p11).spec_add(p12).spec_sub(p10), p12, p9);
    lemma_swap_ss(p1.spec_sub(p1).spec_add(p2).spec_sub(p2).spec_add(p3).spec_sub(p3).spec_add(p4).spec_sub(p4).spec_add(p5).spec_sub(p5).spec_add(p6).spec_sub(p6).spec_add(p7).spec_sub(p7).spec_add(p8).spec_sub(p8).spec_add(p9).spec_add(p10).spec_sub(p11).spec_add(p12), p10, p9);
    lemma_swap_as(p1.spec_sub(p1).spec_add(p2).spec_sub(p2).spec_add(p3).spec_sub(p3).spec_add(p4).spec_sub(p4).spec_add(p5).spec_sub(p5).spec_add(p6).spec_sub(p6).spec_add(p7).spec_sub(p7).spec_add(p8).spec_sub(p8).spec_add(p9).spec_add(p10).spec_sub(p11), p12, p9);
    lemma_swap_ss(p1.spec_sub(p1).spec_add(p2).spec_sub(p2).spec_add(p3).spec_sub(p3).spec_add(p4).spec_sub(p4).spec_add(p5).spec_sub(p5).spec_add(p6).spec_sub(p6).spec_add(p7).spec_sub(p7).spec_add(p8).spec_sub(p8).spec_add(p9).spec_add(p10), p11, p9);
    lemma_swap_as(p1.spec_sub(p1).spec_add(p2).spec_sub(p2).spec_add(p3).spec_sub(p3).spec_add(p4).spec_sub(p4).spec_add(p5).spec_sub(p5).spec_add(p6).spec_sub(p6).spec_add(p7).spec_sub(p7).spec_add(p8).spec_sub(p8).spec_add(p9), p10, p9);
    lemma_swap_as(p1.spec_sub(p1).spec_add(p2).spec_sub(p2).spec_add(p3).spec_sub(p3).spec_add(p4).spec_sub(p4).spec_add(p5).spec_sub(p5).spec_add(p6).spec_sub(p6).spec_add(p7).spec_sub(p7).spec_add(p8).spec_sub(p8).spec_add(p9).spec_sub(p9).spec_add(p10).spec_sub(p11), p12, p10);
    lemma_swap_ss(p1.spec_sub(p1).spec_add(p2).spec_sub(p2).spec_add(p3).spec_sub(p3).spec_add(p4).spec_sub(p4).spec_add(p5).spec_sub(p5).spec_add(p6).spec_sub(p6).spec_add(p7).spec_sub(p7).spec_add(p8).spec_sub(p8).spec_add(p9).spec_sub(p9).spec_add(p10), p11, p10);
    lemma_swap_sa(p1.spec_sub(p1).spec_add(p2).spec_sub(p2).spec_add(p3).spec_sub(p3).spec_add(p4).spec_sub(p4).spec_add(p5).spec_sub(p5).spec_add(p6).spec_sub(p6).spec_add(p7).spec_sub(p7).spec_add(p8).spec_sub(p8).spec_add(p9).spec_sub(p9).spec_add(p10).spec_sub(p10).spec_sub(p11).spec_add(p12), p12, p11);
    lemma_swap_aa(p1.spec_sub(p1).spec_add(p2).spec_sub(p2).spec_add(p3).spec_sub(p3).spec_add(p4).spec_sub(p4).spec_add(p5).spec_sub(p5).spec_add(p6).spec_sub(p6).spec_add(p7).spec_sub(p7).spec_add(p8).spec_sub(p8).spec_add(p9).spec_sub(p9).spec_add(p10).spec_sub(p10).spec_sub(p11), p12, p11);
    lemma_swap_sa(p1.spec_sub(p1).spec_add(p2).spec_sub(p2).spec_add(p3).spec_sub(p3).spec_add(p4).spec_sub(p4).spec_add(p5).spec_sub(p5).spec_add(p6).spec_sub(p6).spec_add(p7).spec_sub(p7).spec_add(p8).spec_sub(p8).spec_add(p9).spec_sub(p9).spec_add(p10).spec_sub(p10), p11, p11);
    lemma_self_cancel(p1);
    lemma_cancel_adj(p1.spec_sub(p1), p2);
    lemma_cancel_adj(p1.spec_sub(p1).spec_add(p2).spec_sub(p2), p3);
    lemma_cancel_adj(p1.spec_sub(p1).spec_add(p2).spec_sub(p2).spec_add(p3).spec_sub(p3), p4);
    lemma_cancel_adj(p1.spec_sub(p1).spec_add(p2).spec_sub(p2).spec_add(p3).spec_sub(p3).spec_add(p4).spec_sub(p4), p5);
    lemma_cancel_adj(p1.spec_sub(p1).spec_add(p2).spec_sub(p2).spec_add(p3).spec_sub(p3).spec_add(p4).spec_sub(p4).spec_add(p5).spec_sub(p5), p6);
    lemma_cancel_adj(p1.spec_sub(p1).spec_add(p2).spec_sub(p2).spec_add(p3).spec_sub(p3).spec_add(p4).spec_sub(p4).spec_add(p5).spec_sub(p5).spec_add(p6).spec_sub(p6), p7);
    lemma_cancel_adj(p1.spec_sub(p1).spec_add(p2).spec_sub(p2).spec_add(p3).spec_sub(p3).spec_add(p4).spec_sub(p4).spec_add(p5).spec_sub(p5).spec_add(p6).spec_sub(p6).spec_add(p7).spec_sub(p7), p8);
    lemma_cancel_adj(p1.spec_sub(p1).spec_add(p2).spec_sub(p2).spec_add(p3).spec_sub(p3).spec_add(p4).spec_sub(p4).spec_add(p5).spec_sub(p5).spec_add(p6).spec_sub(p6).spec_add(p7).spec_sub(p7).spec_add(p8).spec_sub(p8), p9);
    lemma_cancel_adj(p1.spec_sub(p1).spec_add(p2).spec_sub(p2).spec_add(p3).spec_sub(p3).spec_add(p4).spec_sub(p4).spec_add(p5).spec_sub(p5).spec_add(p6).spec_sub(p6).spec_add(p7).spec_sub(p7).spec_add(p8).spec_sub(p8).spec_add(p9).spec_sub(p9), p10);
    lemma_cancel_adj(p1.spec_sub(p1).spec_add(p2).spec_sub(p2).spec_add(p3).spec_sub(p3).spec_add(p4).spec_sub(p4).spec_add(p5).spec_sub(p5).spec_add(p6).spec_sub(p6).spec_add(p7).spec_sub(p7).spec_add(p8).spec_sub(p8).spec_add(p9).spec_sub(p9).spec_add(p10).spec_sub(p10), p11);
    lemma_cancel_adj(p1.spec_sub(p1).spec_add(p2).spec_sub(p2).spec_add(p3).spec_sub(p3).spec_add(p4).spec_sub(p4).spec_add(p5).spec_sub(p5).spec_add(p6).spec_sub(p6).spec_add(p7).spec_sub(p7).spec_add(p8).spec_sub(p8).spec_add(p9).spec_sub(p9).spec_add(p10).spec_sub(p10).spec_add(p11).spec_sub(p11), p12);
}

pub(crate) proof fn lemma_inv_entry8<T: Scalar>(a: Seq<T>)
    requires
        a.len() == 16,
        field_sealed::<T>(),
        !det_seq(a).spec_is_zero(),
    ensures
        mul_seq(inverse_seq(a), a)[8] == T::spec_zero(),
{
    lemma_field_gives_ring::<T>();
    let inv = inverse_seq(a);
    let inv_d = T::spec_one().spec_div(det_seq(a));
    let b00 = minor2(a, 0, 5, 1, 4);
    let b01 = minor2(a, 0, 6, 2, 4);
    let b02 = minor2(a, 0, 7, 3, 4);
    let b03 = minor2(a, 1, 6, 2, 5);
    let b04 = minor2(a, 1, 7, 3, 5);
    let b05 = minor2(a, 2, 7, 3, 6);
    let b06 = minor2(a, 8, 13, 9, 12);
    let b07 = minor2(a, 8, 14, 10, 12);
    let b08 = minor2(a, 8, 15, 11, 12);
    let b09 = minor2(a, 9, 14, 10, 13);
    let b10 = minor2(a, 9, 15, 11, 13);
    let b11 = minor2(a, 10, 15, 11, 14);
    assert(mul_seq(inv, a)[8] == a[8].spec_mul(inv[0]).spec_add(a[9].spec_mul(inv[4])).spec_add(a[10].spec_mul(inv[8])).spec_add(a[11].spec_mul(inv[12])));
    assert(inv[0] == a[5].spec_mul(b11).spec_sub(a[6].spec_mul(b10)).spec_add(a[7].spec_mul(b09)).spec_mul(inv_d));
    assert(inv[4] == a[6].spec_mul(b08).spec_sub(a[4].spec_mul(b11)).spec_sub(a[7].spec_mul(b07)).spec_mul(inv_d));
    assert(inv[8] == a[4].spec_mul(b10).spec_sub(a[5].spec_mul(b08)).spec_add(a[7].spec_mul(b06)).spec_mul(inv_d));
    assert(inv[12] == a[5].spec_mul(b07).spec_sub(a[4].spec_mul(b09)).spec_sub(a[6].spec_mul(b06)).spec_mul(inv_d));
    lemma_mul_assoc(a[8], a[5].spec_mul(b11).spec_sub(a[6].spec_mul(b10)).spec_add(a[7].spec_mul(b09)), inv_d);
    lemma_mul_assoc(a[9], a[6].spec_mul(b08).spec_sub(a[4].spec_mul(b11)).spec_sub(a[7].spec_mul(b07)), inv_d);
    lemma_mul_assoc(a[10], a[4].spec_mul(b10).spec_sub(a[5].spec_mul(b08)).spec_add(a[7].spec_mul(b06)), inv_d);
    lemma_mul_assoc(a[11], a[5].spec_mul(b07).spec_sub(a[4].spec_mul(b09)).spec_sub(a[6].spec_mul(b06)), inv_d);
    lemma_factor4(
        a[8].spec_mul(a[5].spec_mul(b11).spec_sub(a[6].spec_mul(b10)).spec_add(a[7].spec_mul(b09))),
        a[9].spec_mul(a[6].spec_mul(b08).spec_sub(a[4].spec_mul(b11)).spec_sub(a[7].spec_mul(b07))),
        a[10].spec_mul(a[4].spec_mul(b10).spec_sub(a[5].spec_mul(b08)).spec_add(a[7].spec_mul(b06))),
        a[11].spec_mul(a[5].spec_mul(b07).spec_sub(a[4].spec_mul(b09)).spec_sub(a[6].spec_mul(b06))),
        inv_d,
    );
    lemma_distrib3_pmp(a[8], a[5].spec_mul(b11), a[6].spec_mul(b10), a[7].spec_mul(b09));
    lemma_mul_assoc(a[8], a[5], b11);
    lemma_mul_comm(a[8], a[5]);
    lemma_mul_assoc(a[8], a[6], b10);
    lemma_mul_comm(a[8], a[6]);
    lemma_mul_assoc(a[8], a[7], b09);
    lemma_mul_comm(a[8], a[7]);
    lemma_distrib3_pmm(a[9], a[6].spec_mul(b08), a[4].spec_mul(b11), a[7].spec_mul(b07));
    lemma_mul_assoc(a[9], a[6], b08);
    lemma_mul_comm(a[9], a[6]);
    lemma_mul_assoc(a[9], a[4], b11);
    lemma_mul_comm(a[9], a[4]);
    lemma_mul_assoc(a[9], a[7], b07);
    lemma_mul_comm(a[9], a[7]);
    lemma_distrib3_pmp(a[10], a[4].spec_mul(b10), a[5].spec_mul(b08), a[7].spec_mul(b06));
    lemma_mul_assoc(a[10], a[4], b10);
    lemma_mul_comm(a[10], a[4]);
    lemma_mul_assoc(a[10], a[5], b08);
    lemma_mul_comm(a[10], a[5]);
    lemma_mul_assoc(a[10], a[7], b06);
    lemma_mul_comm(a[10], a[7]);
    lemma_distrib3_pmm(a[11], a[5].spec_mul(b07), a[4].spec_mul(b09), a[6].spec_mul(b06));
    lemma_mul_assoc(a[11], a[5], b07);
    lemma_mul_comm(a[11], a[5]);
    lemma_mul_assoc(a[11], a[4], b09);
    lemma_mul_comm(a[11], a[4]);
    lemma_mul_assoc(a[11], a[6], b06);
    lemma_mul_comm(a[11], a[6]);
    lemma_append3_pmm(
        a[5].spec_mul(a[8]).spec_mul(b11).spec_sub(a[6].spec_mul(a[8]).spec_mul(b10)).spec_add(a[7].spec_mul(a[8]).spec_mul(b09)),
        a[6].spec_mul(a[9]).spec_mul(b08),
        a[4].spec_mul(a[9]).spec_mul(b11),
        a[7].spec_mul(a[9]).spec_mul(b07),
    );
    lemma_append3_pmp(
        a[5].spec_mul(a[8]).spec_mul(b11).spec_sub(a[6].spec_mul(a[8]).spec_mul(b10)).spec_add(a[7].spec_mul(a[8]).spec_mul(b09)).spec_add(a[6].spec_mul(a[9]).spec_mul(b08)).spec_sub(a[4].spec_mul(a[9]).spec_mul(b11)).spec_sub(a[7].spec_mul(a[9]).spec_mul(b07)),
        a[4].spec_mul(a[10]).spec_mul(b10),
        a[5].spec_mul(a[10]).spec_mul(b08),
        a[7].spec_mul(a[10]).spec_mul(b06),
    );
    lemma_append3_pmm(
        a[5].spec_mul(a[8]).spec_mul(b11).spec_sub(a[6].spec_mul(a[8]).spec_mul(b10)).spec_add(a[7].spec_mul(a[8]).spec_mul(b09)).spec_add(a[6].spec_mul(a[9]).spec_mul(b08)).spec_sub(a[4].spec_mul(a[9]).spec_mul(b11)).spec_sub(a[7].spec_mul(a[9]).spec_mul(b07)).spec_add(a[4].spec_mul(a[10]).spec_mul(b10)).spec_sub(a[5].spec_mul(a[10]).spec_mul(b08)).spec_add(a[7].spec_mul(a[10]).spec_mul(b06)),
        a[5].spec_mul(a[11]).spec_mul(b07),
        a[4].spec_mul(a[11]).spec_mul(b09),
        a[6].spec_mul(a[11]).spec_mul(b06),
    );
    let c5x8x10x15 = a[5].spec_mul(a[8]).spec_mul(a[10].spec_mul(a[15]));
    let c5x8x11x14 = a[5].spec_mul(a[8]).spec_mul(a[11].spec_mul(a[14]));
    let c6x8x9x15 = a[6].spec_mul(a[8]).spec_mul(a[9].spec_mul(a[15]));
    let c6x8x11x13 = a[6].spec_mul(a[8]).spec_mul(a[11].spec_mul(a[13]));
    let c7x8x9x14 = a[7].spec_mul(a[8]).spec_mul(a[9].spec_mul(a[14]));
    let c7x8x10x13 = a[7].spec_mul(a[8]).spec_mul(a[10].spec_mul(a[13]));
    let c6x9x11x12 = a[6].spec_mul(a[9]).spec_mul(a[11].spec_mul(a[12]));
    let c4x9x10x15 = a[4].spec_mul(a[9]).spec_mul(a[10].spec_mul(a[15]));
    let c4x9x11x14 = a[4].spec_mul(a[9]).spec_mul(a[11].spec_mul(a[14]));
    let c7x9x10x12 = a[7].spec_mul(a[9]).spec_mul(a[10].spec_mul(a[12]));
    let c4x10x11x13 = a[4].spec_mul(a[10]).spec_mul(a[11].spec_mul(a[13]));
    let c5x10x11x12 = a[5].spec_mul(a[10]).spec_mul(a[11].spec_mul(a[12]));
    lemma_distrib2(a[5].spec_mul(a[8]), a[10].spec_mul(a[15]), a[11].spec_mul(a[14]));
    lemma_distrib2(a[6].spec_mul(a[8]), a[9].spec_mul(a[15]), a[11].spec_mul(a[13]));
    lemma_distrib2(a[7].spec_mul(a[8]), a[9].spec_mul(a[14]), a[10].spec_mul(a[13]));
    lemma_distrib2(a[6].spec_mul(a[9]), a[8].spec_mul(a[15]), a[11].spec_mul(a[12]));
    lemma_distrib2(a[4].spec_mul(a[9]), a[10].spec_mul(a[15]), a[11].spec_mul(a[14]));
    lemma_distrib2(a[7].spec_mul(a[9]), a[8].spec_mul(a[14]), a[10].spec_mul(a[12]));
    lemma_distrib2(a[4].spec_mul(a[10]), a[9].spec_mul(a[15]), a[11].spec_mul(a[13]));
    lemma_distrib2(a[5].spec_mul(a[10]), a[8].spec_mul(a[15]), a[11].spec_mul(a[12]));
    lemma_distrib2(a[7].spec_mul(a[10]), a[8].spec_mul(a[13]), a[9].spec_mul(a[12]));
    lemma_distrib2(a[5].spec_mul(a[11]), a[8].spec_mul(a[14]), a[10].spec_mul(a[12]));
    lemma_distrib2(a[4].spec_mul(a[11]), a[9].spec_mul(a[14]), a[10].spec_mul(a[13]));
    lemma_distrib2(a[6].spec_mul(a[11]), a[8].spec_mul(a[13]), a[9].spec_mul(a[12]));
    lemma_mul4_rearrange(a[6], a[9], a[8], a[15]);
    lemma_mul4_rearrange(a[7], a[9], a[8], a[14]);
    lemma_mul4_rearrange(a[4], a[10], a[9], a[15]);
    lemma_mul4_rearrange(a[5], a[10], a[8], a[15]);
    lemma_mul4_rearrange(a[7], a[10], a[8], a[13]);
    lemma_mul4_rearrange(a[7], a[10], a[9], a[12]);
    lemma_mul4_rearrange(a[5], a[11], a[8], a[14]);
    lemma_mul4_rearrange(a[5], a[11], a[10], a[12]);
    lemma_mul4_rearrange(a[4], a[11], a[9], a[14]);
    lemma_mul4_rearrange(a[4], a[11], a[10], a[13]);
    lemma_mul4_rearrange(a[6], a[11], a[8], a[13]);
    lemma_mul4_rearrange(a[6], a[11], a[9], a[12]);
    lemma_append2_neg(
        c5x8x10x15.spec_sub(c5x8x11x14),
        c6x8x9x15,
        c6x8x11x13,
    );
    lemma_append2_pos(
        c5x8x10x15.spec_sub(c5x8x11x14).spec_sub(c6x8x9x15).spec_add(c6x8x11x13),
        c7x8x9x14,
        c7x8x10x13,
    );
    lemma_append2_pos(
        c5x8x10x15.spec_sub(c5x8x11x14).spec_sub(c6x8x9x15).spec_add(c6x8x11x13).spec_add(c7x8x9x14).spec_sub(c7x8x10x13),
        c6x8x9x15,
        c6x9x11x12,
    );
    lemma_append2_neg(
        c5x8x10x15.spec_sub(c5x8x11x14).spec_sub(c6x8x9x15).spec_add(c6x8x11x13).spec_add(c7x8x9x14).spec_sub(c7x8x10x13).spec_add(c6x8x9x15).spec_sub(c6x9x11x12),
        c4x9x10x15,
        c4x9x11x14,
    );
    lemma_append2_neg(
        c5x8x10x15.spec_sub(c5x8x11x14).spec_sub(c6x8x9x15).spec_add(c6x8x11x13).spec_add(c7x8x9x14).spec_sub(c7x8x10x13).spec_add(c6x8x9x15).spec_sub(c6x9x11x12).spec_sub(c4x9x10x15).spec_add(c4x9x11x14),
        c7x8x9x14,
        c7x9x10x12,
    );
    lemma_append2_pos(
        c5x8x10x15.spec_sub(c5x8x11x14).spec_sub(c6x8x9x15).spec_add(c6x8x11x13).spec_add(c7x8x9x14).spec_sub(c7x8x10x13).spec_add(c6x8x9x15).spec_sub(c6x9x11x12).spec_sub(c4x9x10x15).spec_add(c4x9x11x14).spec_sub(c7x8x9x14).spec_add(c7x9x10x12),
        c4x9x10x15,
        c4x10x11x13,
    );
    lemma_append2_neg(
        c5x8x10x15.spec_sub(c5x8x11x14).spec_sub(c6x8x9x15).spec_add(c6x8x11x13).spec_add(c7x8x9x14).spec_sub(c7x8x10x13).spec_add(c6x8x9x15).spec_sub(c6x9x11x12).spec_sub(c4x9x10x15).spec_add(c4x9x11x14).spec_sub(c7x8x9x14).spec_add(c7x9x10x12).spec_add(c4x9x10x15).spec_sub(c4x10x11x13),
        c5x8x10x15,
        c5x10x11x12,
    );
    lemma_append2_pos(
        c5x8x10x15.spec_sub(c5x8x11x14).spec_sub(c6x8x9x15).spec_add(c6x8x11x13).spec_add(c7x8x9x14).spec_sub(c7x8x10x13).spec_add(c6x8x9x15).spec_sub(c6x9x11x12).spec_sub(c4x9x10x15).spec_add(c4x9x11x14).spec_sub(c7x8x9x14).spec_add(c7x9x10x12).spec_add(c4x9x10x15).spec_sub(c4x10x11x13).spec_sub(c5x8x10x15).spec_add(c5x10x11x12),
        c7x8x10x13,
        c7x9x10x12,
    );
    lemma_append2_pos(
        c5x8x10x15.spec_sub(c5x8x11x14).spec_sub(c6x8x9x15).spec_add(c6x8x11x13).spec_add(c7x8x9x14).spec_sub(c7x8x10x13).spec_add(c6x8x9x15).spec_sub(c6x9x11x12).spec_sub(c4x9x10x15).spec_add(c4x9x11x14).spec_sub(c7x8x9x14).spec_add(c7x9x10x12).spec_add(c4x9x10x15).spec_sub(c4x10x11x13).spec_sub(c5x8x10x15).spec_add(c5x10x11x12).spec_add(c7x8x10x13).spec_sub(c7x9x10x12),
        c5x8x11x14,
        c5x10x11x12,
    );
    lemma_append2_neg(
        c5x8x10x15.spec_sub(c5x8x11x14).spec_sub(c6x8x9x15).spec_add(c6x8x11x13).spec_add(c7x8x9x14).spec_sub(c7x8x10x13).spec_add(c6x8x9x15).spec_sub(c6x9x11x12).spec_sub(c4x9x10x15).spec_add(c4x9x11x14).spec_sub(c7x8x9x14).spec_add(c7x9x10x12).spec_add(c4x9x10x15).spec_sub(c4x10x11x13).spec_sub(c5x8x10x15).spec_add(c5x10x11x12).spec_add(c7x8x10x13).spec_sub(c7x9x10x12).spec_add(c5x8x11x14).spec_sub(c5x10x11x12),
        c4x9x11x14,
        c4x10x11x13,
    );
    lemma_append2_neg(
        c5x8x10x15.spec_sub(c5x8x11x14).spec_sub(c6x8x9x15).spec_add(c6x8x11x13).spec_add(c7x8x9x14).spec_sub(c7x8x10x13).spec_add(c6x8x9x15).spec_sub(c6x9x11x12).spec_sub(c4x9x10x15).spec_add(c4x9x11x14).spec_sub(c7x8x9x14).spec_add(c7x9x10x12).spec_add(c4x9x10x15).spec_sub(c4x10x11x13).spec_sub(c5x8x10x15).spec_add(c5x10x11x12).spec_add(c7x8x10x13).spec_sub(c7x9x10x12).spec_add(c5x8x11x14).spec_sub(c5x10x11x12).spec_sub(c4x9x11x14).spec_add(c4x10x11x13),
        c6x8x11x13,
        c6x9x11x12,
    );
    lemma_inv_chain8(c5x8x10x15, c5x8x11x14, c6x8x9x15, c6x8x11x13, c7x8x9x14, c7x8x10x13, c6x9x11x12, c4x9x10x15, c4x9x11x14, c7x9x10x12, c4x10x11x13, c5x10x11x12);
    lemma_zero_mul(inv_d);
    assert(mul_seq(inv, a)[8] == T::spec_zero());
}

proof fn lemma_inv_chain9<T: Scalar>(p1: T, p2: T, p3: T, p4: T, p5: T, p6: T, p7: T, p8: T, p9: T, p10: T, p11: T, p12: T)
    requires
        laws_sealed::<T>(),
    ensures
        p1.spec_sub(p2).spec_sub(p3).spec_add(p4).spec_sub(p5).spec_add(p6).spec_add(p7).spec_sub(p8).spec_sub(p1).spec_add(p9).spec_add(p5).spec_sub(p10).spec_add(p3).spec_sub(p11).spec_sub(p7).spec_add(p12).spec_sub(p6).spec_add(p10).spec_add(p8).spec_sub(p12).spec_sub(p4).spec_add(p11).spec_add(p2).spec_sub(p9) == T::spec_zero(),
{
    lemma_swap_ss(p1.spec_sub(p2).spec_sub(p3).spec_add(p4).spec_sub(p5).spec_add(p6).spec_add(p7), p8, p1);
    lemma_swap_as(p1.spec_sub(p2).spec_sub(p3).spec_add(p4).spec_sub(p5).spec_add(p6), p7, p1);
    lemma_swap_as(p1.spec_sub(p2).spec_sub(p3).spec_add(p4).spec_sub(p5), p6, p1);
    lemma_swap_ss(p1.spec_sub(p2).spec_sub(p3).spec_add(p4), p5, p1);
    lemma_swap_as(p1.spec_sub(p2).spec_sub(p3), p4, p1);
    lemma_swap_ss(p1.spec_sub(p2), p3, p1);
    lemma_swap_ss(p1, p2, p1);
    lemma_swap_aa(p1.spec_sub(p1).spec_sub(p2).spec_sub(p3).spec_add(p4).spec_sub(p5).spec_add(p6).spec_add(p7).spec_sub(p8).spec_add(p9).spec_add(p5).spec_sub(p10).spec_add(p3).spec_sub(p11).spec_sub(p7).spec_add(p12).spec_sub(p6).spec_add(p10).spec_add(p8).spec_sub(p12).spec_sub(p4), p11, p2);
    lemma_swap_sa(p1.spec_sub(p1).spec_sub(p2).spec_sub(p3).spec_add(p4).spec_sub(p5).spec_add(p6).spec_add(p7).spec_sub(p8).spec_add(p9).spec_add(p5).spec_sub(p10).spec_add(p3).spec_sub(p11).spec_sub(p7).spec_add(p12).spec_sub(p6).spec_add(p10).spec_add(p8).spec_sub(p12), p4, p2);
    lemma_swap_sa(p1.spec_sub(p1).spec_sub(p2).spec_sub(p3).spec_add(p4).spec_sub(p5).spec_add(p6).spec_add(p7).spec_sub(p8).spec_add(p9).spec_add(p5).spec_sub(p10).spec_add(p3).spec_sub(p11).spec_sub(p7).spec_add(p12).spec_sub(p6).spec_add(p10).spec_add(p8), p12, p2);
    lemma_swap_aa(p1.spec_sub(p1).spec_sub(p2).spec_sub(p3).spec_add(p4).spec_sub(p5).spec_add(p6).spec_add(p7).spec_sub(p8).spec_add(p9).spec_add(p5).spec_sub(p10).spec_add(p3).spec_sub(p11).spec_sub(p7).spec_add(p12).spec_sub(p6).spec_add(p10), p8, p2);
    lemma_swap_aa(p1.spec_sub(p1).spec_sub(p2).spec_sub(p3).spec_add(p4).spec_sub(p5).spec_add(p6).spec_add(p7).spec_sub(p8).spec_add(p9).spec_add(p5).spec_sub(p10).spec_add(p3).spec_sub(p11).spec_sub(p7).spec_add(p12).spec_sub(p6), p10, p2);
    lemma_swap_sa(p1.spec_sub(p1).spec_sub(p2).spec_sub(p3).spec_add(p4).spec_sub(p5).spec_add(p6).spec_add(p7).spec_sub(p8).spec_add(p9).spec_add(p5).spec_sub(p10).spec_add(p3).spec_sub(p11).spec_sub(p7).spec_add(p12), p6, p2);
    lemma_swap_aa(p1.spec_sub(p1).spec_sub(p2).spec_sub(p3).spec_add(p4).spec_sub(p5).spec_add(p6).spec_add(p7).spec_sub(p8).spec_add(p9).spec_add(p5).spec_sub(p10).spec_add(p3).spec_sub(p11).spec_sub(p7), p12, p2);
    lemma_swap_sa(p1.spec_sub(p1).spec_sub(p2).spec_sub(p3).spec_add(p4).spec_sub(p5).spec_add(p6).spec_add(p7).spec_sub(p8).spec_add(p9).spec_add(p5).spec_sub(p10).spec_add(p3).spec_sub(p11), p7, p2);
    lemma_swap_sa(p1.spec_sub(p1).spec_sub(p2).spec_sub(p3).spec_add(p4).spec_sub(p5).spec_add(p6).spec_add(p7).spec_sub(p8).spec_add(p9).spec_add(p5).spec_sub(p10).spec_add(p3), p11, p2);
    lemma_swap_aa(p1.spec_sub(p1).spec_sub(p2).spec_sub(p3).spec_add(p4).spec_sub(p5).spec_add(p6).spec_add(p7).spec_sub(p8).spec_add(p9).spec_add(p5).spec_sub(p10), p3, p2);
    lemma_swap_sa(p1.spec_sub(p1).spec_sub(p2).spec_sub(p3).spec_add(p4).spec_sub(p5).spec_add(p6).spec_add(p7).spec_sub(p8).spec_add(p9).spec_add(p5), p10, p2);
    lemma_swap_aa(p1.spec_sub(p1).spec_sub(p2).spec_sub(p3).spec_add(p4).spec_sub(p5).spec_add(p6).spec_add(p7).spec_sub(p8).spec_add(p9), p5, p2);
    lemma_swap_aa(p1.spec_sub(p1).spec_sub(p2).spec_sub(p3).spec_add(p4).spec_sub(p5).spec_add(p6).spec_add(p7).spec_sub(p8), p9, p2);
    lemma_swap_sa(p1.spec_sub(p1).spec_sub(p2).spec_sub(p3).spec_add(p4).spec_sub(p5).spec_add(p6).spec_add(p7), p8, p2);
    lemma_swap_aa(p1.spec_sub(p1).spec_sub(p2).spec_sub(p3).spec_add(p4).spec_sub(p5).spec_add(p6), p7, p2);
    lemma_swap_aa(p1.spec_sub(p1).spec_sub(p2).spec_sub(p3).spec_add(p4).spec_sub(p5), p6, p2);
    lemma_swap_sa(p1.spec_sub(p1).spec_sub(p2).spec_sub(p3).spec_add(p4), p5, p2);
    lemma_swap_aa(p1.spec_sub(p1).spec_sub(p2).spec_sub(p3), p4, p2);
    lemma_swap_sa(p1.spec_sub(p1).spec_sub(p2), p3, p2);
    lemma_swap_sa(p1.spec_sub(p1), p2, p2);
    lemma_swap_sa(p1.spec_sub(p1).spec_add(p2).spec_sub(p2).spec_sub(p3).spec_add(p4).spec_sub(p5).spec_add(p6).spec_add(p7).spec_sub(p8).spec_add(p9).spec_add(p5), p10, p3);
    lemma_swap_aa(p1.spec_sub(p1).spec_add(p2).spec_sub(p2).spec_sub(p3).spec_add(p4).spec_sub(p5).spec_add(p6).spec_add(p7).spec_sub(p8).spec_add(p9), p5, p3);
    lemma_swap_aa(p1.spec_sub(p1).spec_add(p2).spec_sub(p2).spec_sub(p3).spec_add(p4).spec_sub(p5).spec_add(p6).spec_add(p7).spec_sub(p8), p9, p3);
    lemma_swap_sa(p1.spec_sub(p1).spec_add(p2).spec_sub(p2).spec_sub(p3).spec_add(p4).spec_sub(p5).spec_add(p6).spec_add(p7), p8, p3);
    lemma_swap_aa(p1.spec_sub(p1).spec_add(p2).spec_sub(p2).spec_sub(p3).spec_add(p4).spec_sub(p5).spec_add(p6), p7, p3);
    lemma_swap_aa(p1.spec_sub(p1).spec_add(p2).spec_sub(p2).spec_sub(p3).spec_add(p4).spec_sub(p5), p6, p3);
    lemma_swap_sa(p1.spec_sub(p1).spec_add(p2).spec_sub(p2).spec_sub(p3).spec_add(p4), p5, p3);
    lemma_swap_aa(p1.spec_sub(p1).spec_add(p2).spec_sub(p2).spec_sub(p3), p4, p3);
    lemma_swap_sa(p1.spec_sub(p1).spec_add(p2).spec_sub(p2), p3, p3);
    lemma_swap_ss(p1.spec_sub(p1).spec_add(p2).spec_sub(p2).spec_add(p3).spec_sub(p3).spec_add(p4).spec_sub(p5).spec_add(p6).spec_add(p7).spec_sub(p8).spec_add(p9).spec_add(p5).spec_sub(p10).spec_sub(p11).spec_sub(p7).spec_add(p12).spec_sub(p6).spec_add(p10).spec_add(p8), p12, p4);
    lemma_swap_as(p1.spec_sub(p1).spec_add(p2).spec_sub(p2).spec_add(p3).spec_sub(p3).spec_add(p4).spec_sub(p5).spec_add(p6).spec_add(p7).spec_sub(p8).spec_add(p9).spec_add(p5).spec_sub(p10).spec_sub(p11).spec_sub(p7).spec_add(p12).spec_sub(p6).spec_add(p10), p8, p4);
    lemma_swap_as(p1.spec_sub(p1).spec_add(p2).spec_sub(p2).spec_add(p3).spec_sub(p3).spec_add(p4).spec_sub(p5).spec_add(p6).spec_add(p7).spec_sub(p8).spec_add(p9).spec_add(p5).spec_sub(p10).spec_sub(p11).spec_sub(p7).spec_add(p12).spec_sub(p6), p10, p4);
    lemma_swap_ss(p1.spec_sub(p1).spec_add(p2).spec_sub(p2).spec_add(p3).spec_sub(p3).spec_add(p4).spec_sub(p5).spec_add(p6).spec_add(p7).spec_sub(p8).spec_add(p9).spec_add(p5).spec_sub(p10).spec_sub(p11).spec_sub(p7).spec_add(p12), p6, p4);
    lemma_swap_as(p1.spec_sub(p1).spec_add(p2).spec_sub(p2).spec_add(p3).spec_sub(p3).spec_add(p4).spec_sub(p5).spec_add(p6).spec_add(p7).spec_sub(p8).spec_add(p9).spec_add(p5).spec_sub(p10).spec_sub(p11).spec_sub(p7), p12, p4);
    lemma_swap_ss(p1.spec_sub(p1).spec_add(p2).spec_sub(p2).spec_add(p3).spec_sub(p3).spec_add(p4).spec_sub(p5).spec_add(p6).spec_add(p7).spec_sub(p8).spec_add(p9).spec_add(p5).spec_sub(p10).spec_sub(p11), p7, p4);
    lemma_swap_ss(p1.spec_sub(p1).spec_add(p2).spec_sub(p2).spec_add(p3).spec_sub(p3).spec_add(p4).spec_sub(p5).spec_add(p6).spec_add(p7).spec_sub(p8).spec_add(p9).spec_add(p5).spec_sub(p10), p11, p4);
    lemma_swap_ss(p1.spec_sub(p1).spec_add(p2).spec_sub(p2).spec_add(p3).spec_sub(p3).spec_add(p4).spec_sub(p5).spec_add(p6).spec_add(p7).spec_sub(p8).spec_add(p9).spec_add(p5), p10, p4);
    lemma_swap_as(p1.spec_sub(p1).spec_add(p2).spec_sub(p2).spec_add(p3).spec_sub(p3).spec_add(p4).spec_sub(p5).spec_add(p6).spec_add(p7).spec_sub(p8).spec_add(p9), p5, p4);
    lemma_swap_as(p1.spec_sub(p1).spec_add(p2).spec_sub(p2).spec_add(p3).spec_sub(p3).spec_add(p4).spec_sub(p5).spec_add(p6).spec_add(p7).spec_sub(p8), p9, p4);
    lemma_swap_ss(p1.spec_sub(p1).spec_add(p2).spec_sub(p2).spec_add(p3).spec_sub(p3).spec_add(p4).spec_sub(p5).spec_add(p6).spec_add(p7), p8, p4);
    lemma_swap_as(p1.spec_sub(p1).spec_add(p2).spec_sub(p2).spec_add(p3).spec_sub(p3).spec_add(p4).spec_sub(p5).spec_add(p6), p7, p4);
    lemma_swap_as(p1.spec_sub(p1).spec_add(p2).spec_sub(p2).spec_add(p3).spec_sub(p3).spec_add(p4).spec_sub(p5), p6, p4);
    lemma_swap_ss(p1.spec_sub(p1).spec_add(p2).spec_sub(p2).spec_add(p3).spec_sub(p3).spec_add(p4), p5, p4);
    lemma_swap_aa(p1.spec_sub(p1).spec_add(p2).spec_sub(p2).spec_add(p3).spec_sub(p3).spec_add(p4).spec_sub(p4).spec_sub(p5).spec_add(p6).spec_add(p7).spec_sub(p8), p9, p5);
    lemma_swap_sa(p1.spec_sub(p1).spec_add(p2).spec_sub(p2).spec_add(p3).spec_sub(p3).spec_add(p4).spec_sub(p4).spec_sub(p5).spec_add(p6).spec_add(p7), p8, p5);
    lemma_swap_aa(p1.spec_sub(p1).spec_add(p2).spec_sub(p2).spec_add(p3).spec_sub(p3).spec_add(p4).spec_sub(p4).spec_sub(p5).spec_add(p6), p7, p5);
    lemma_swap_aa(p1.spec_sub(p1).spec_add(p2).spec_sub(p2).spec_add(p3).spec_sub(p3).spec_add(p4).spec_sub(p4).spec_sub(p5), p6, p5);
    lemma_swap_sa(p1.spec_sub(p1).spec_add(p2).spec_sub(p2).spec_add(p3).spec_sub(p3).spec_add(p4).spec_sub(p4), p5, p5);
    lemma_swap_as(p1.spec_sub(p1).spec_add(p2).spec_sub(p2).spec_add(p3).spec_sub(p3).spec_add(p4).spec_sub(p4).spec_add(p5).spec_sub(p5).spec_add(p6).spec_add(p7).spec_sub(p8).spec_add(p9).spec_sub(p10).spec_sub(p11).spec_sub(p7), p12, p6);
    lemma_swap_ss(p1.spec_sub(p1).spec_add(p2).spec_sub(p2).spec_add(p3).spec_sub(p3).spec_add(p4).spec_sub(p4).spec_add(p5).spec_sub(p5).spec_add(p6).spec_add(p7).spec_sub(p8).spec_add(p9).spec_sub(p10).spec_sub(p11), p7, p6);
    lemma_swap_ss(p1.spec_sub(p1).spec_add(p2).spec_sub(p2).spec_add(p3).spec_sub(p3).spec_add(p4).spec_sub(p4).spec_add(p5).spec_sub(p5).spec_add(p6).spec_add(p7).spec_sub(p8).spec_add(p9).spec_sub(p10), p11, p6);
    lemma_swap_ss(p1.spec_sub(p1).spec_add(p2).spec_sub(p2).spec_add(p3).spec_sub(p3).spec_add(p4).spec_sub(p4).spec_add(p5).spec_sub(p5).spec_add(p6).spec_add(p7).spec_sub(p8).spec_add(p9), p10, p6);
    lemma_swap_as(p1.spec_sub(p1).spec_add(p2).spec_sub(p2).spec_add(p3).spec_sub(p3).spec_add(p4).spec_sub(p4).spec_add(p5).spec_sub(p5).spec_add(p6).spec_add(p7).spec_sub(p8), p9, p6);
    lemma_swap_ss(p1.spec_sub(p1).spec_add(p2).spec_sub(p2).spec_add(p3).spec_sub(p3).spec_add(p4).spec_sub(p4).spec_add(p5).spec_sub(p5).spec_add(p6).spec_add(p7), p8, p6);
    lemma_swap_as(p1.spec_sub(p1).spec_add(p2).spec_sub(p2).spec_add(p3).spec_sub(p3).spec_add(p4).spec_sub(p4).spec_add(p5).spec_sub(p5).spec_add(p6), p7, p6);
    lemma_swap_ss(p1.spec_sub(p1).spec_add(p2).spec_sub(p2).spec_add(p3).spec_sub(p3).spec_add(p4).spec_sub(p4).spec_add(p5).spec_sub(p5).spec_add(p6).spec_sub(p6).spec_add(p7).spec_sub(p8).spec_add(p9).spec_sub(p10), p11, p7);
    lemma_swap_ss(p1.spec_sub(p1).spec_add(p2).spec_sub(p2).spec_add(p3).spec_sub(p3).spec_add(p4).spec_sub(p4).spec_add(p5).spec_sub(p5).spec_add(p6).spec_sub(p6).spec_add(p7).spec_sub(p8).spec_add(p9), p10, p7);
    lemma_swap_as(p1.spec_sub(p1).spec_add(p2).spec_sub(p2).spec_add(p3).spec_sub(p3).spec_add(p4).spec_sub(p4).spec_add(p5).spec_sub(p5).spec_add(p6).spec_sub(p6).spec_add(p7).spec_sub(p8), p9, p7);
    lemma_swap_ss(p1.spec_sub(p1).spec_add(p2).spec_sub(p2).spec_add(p3).spec_sub(p3).spec_add(p4).spec_sub(p4).spec_add(p5).spec_sub(p5).spec_add(p6).spec_sub(p6).spec_add(p7), p8, p7);
    lemma_swap_aa(p1.spec_sub(p1).spec_add(p2).spec_sub(p2).spec_add(p3).spec_sub(p3).spec_add(p4).spec_sub(p4).spec_add(p5).spec_sub(p5).spec_add(p6).spec_sub(p6).spec_add(p7).spec_sub(p7).spec_sub(p8).spec_add(p9).spec_sub(p10).spec_sub(p11).spec_add(p12), p10, p8);
    lemma_swap_aa(p1.spec_sub(p1).spec_add(p2).spec_sub(p2).spec_add(p3).spec_sub(p3).spec_add(p4).spec_sub(p4).spec_add(p5).spec_sub(p5).spec_add(p6).spec_sub(p6).spec_add(p7).spec_sub(p7).spec_sub(p8).spec_add(p9).spec_sub(p10).spec_sub(p11), p12, p8);
    lemma_swap_sa(p1.spec_sub(p1).spec_add(p2).spec_sub(p2).spec_add(p3).spec_sub(p3).spec_add(p4).spec_sub(p4).spec_add(p5).spec_sub(p5).spec_add(p6).spec_sub(p6).spec_add(p7).spec_sub(p7).spec_sub(p8).spec_add(p9).spec_sub(p10), p11, p8);
    lemma_swap_sa(p1.spec_sub(p1).spec_add(p2).spec_sub(p2).spec_add(p3).spec_sub(p3).spec_add(p4).spec_sub(p4).spec_add(p5).spec_sub(p5).spec_add(p6).spec_sub(p6).spec_add(p7).spec_sub(p7).spec_sub(p8).spec_add(p9), p10, p8);
    lemma_swap_aa(p1.spec_sub(p1).spec_add(p2).spec_sub(p2).spec_add(p3).spec_sub(p3).spec_add(p4).spec_sub(p4).spec_add(p5).spec_sub(p5).spec_add(p6).spec_sub(p6).spec_add(p7).spec_sub(p7).spec_sub(p8), p9, p8);
    lemma_swap_sa(p1.spec_sub(p1).spec_add(p2).spec_sub(p2).spec_add(p3).spec_sub(p3).spec_add(p4).spec_sub(p4).spec_add(p5).spec_sub(p5).spec_add(p6).spec_sub(p6).spec_add(p7).spec_sub(p7), p8, p8);
    lemma_swap_as(p1.spec_sub(p1).spec_add(p2).spec_sub(p2).spec_add(p3).spec_sub(p3).spec_add(p4).spec_sub(p4).spec_add(p5).spec_sub(p5).spec_add(p6).spec_sub(p6).spec_add(p7).spec_sub(p7).spec_add(p8).spec_sub(p8).spec_add(p9).spec_sub(p10).spec_sub(p11).spec_add(p12).spec_add(p10).spec_sub(p12), p11, p9);
    lemma_swap_ss(p1.spec_sub(p1).spec_add(p2).spec_sub(p2).spec_add(p3).spec_sub(p3).spec_add(p4).spec_sub(p4).spec_add(p5).spec_sub(p5).spec_add(p6).spec_sub(p6).spec_add(p7).spec_sub(p7).spec_add(p8).spec_sub(p8).spec_add(p9).spec_sub(p10).spec_sub(p11).spec_add(p12).spec_add(p10), p12, p9);
    lemma_swap_as(p1.spec_sub(p1).spec_add(p2).spec_sub(p2).spec_add(p3).spec_sub(p3).spec_add(p4).spec_sub(p4).spec_add(p5).spec_sub(p5).spec_add(p6).spec_sub(p6).spec_add(p7).spec_sub(p7).spec_add(p8).spec_sub(p8).spec_add(p9).spec_sub(p10).spec_sub(p11).spec_add(p12), p10, p9);
    lemma_swap_as(p1.spec_sub(p1).spec_add(p2).spec_sub(p2).spec_add(p3).spec_sub(p3).spec_add(p4).spec_sub(p4).spec_add(p5).spec_sub(p5).spec_add(p6).spec_sub(p6).spec_add(p7).spec_sub(p7).spec_add(p8).spec_sub(p8).spec_add(p9).spec_sub(p10).spec_sub(p11), p12, p9);
    lemma_swap_ss(p1.spec_sub(p1).spec_add(p2).spec_sub(p2).spec_add(p3).spec_sub(p3).spec_add(p4).spec_sub(p4).spec_add(p5).spec_sub(p5).spec_add(p6).spec_sub(p6).spec_add(p7).spec_sub(p7).spec_add(p8).spec_sub(p8).spec_add(p9).spec_sub(p10), p11, p9);
    lemma_swap_ss(p1.spec_sub(p1).spec_add(p2).spec_sub(p2).spec_add(p3).spec_sub(p3).spec_add(p4).spec_sub(p4).spec_add(p5).spec_sub(p5).spec_add(p6).spec_sub(p6).spec_add(p7).spec_sub(p7).spec_add(p8).spec_sub(p8).spec_add(p9), p10, p9);
    lemma_swap_aa(p1.spec_sub(p1).spec_add(p2).spec_sub(p2).spec_add(p3).spec_sub(p3).spec_add(p4).spec_sub(p4).spec_add(p5).spec_sub(p5).spec_add(p6).spec_sub(p6).spec_add(p7).spec_sub(p7).spec_add(p8).spec_sub(p8).spec_add(p9).spec_sub(p9).spec_sub(p10).spec_sub(p11), p12, p10);
    lemma_swap_sa(p1.spec_sub(p1).spec_add(p2).spec_sub(p2).spec_add(p3).spec_sub(p3).spec_add(p4).spec_sub(p4).spec_add(p5).spec_sub(p5).spec_add(p6).spec_sub(p6).spec_add(p7).spec_sub(p7).spec_add(p8).spec_sub(p8).spec_add(p9).spec_sub(p9).spec_sub(p10), p11, p10);
    lemma_swap_sa(p1.spec_sub(p1).spec_add(p2).spec_sub(p2).spec_add(p3).spec_sub(p3).spec_add(p4).spec_sub(p4).spec_add(p5).spec_sub(p5).spec_add(p6).spec_sub(p6).spec_add(p7).spec_sub(p7).spec_add(p8).spec_sub(p8).spec_add(p9).spec_sub(p9), p10, p10);
    lemma_swap_sa(p1.spec_sub(p1).spec_add(p2).spec_sub(p2).spec_add(p3).spec_sub(p3).spec_add(p4).spec_sub(p4).spec_add(p5).spec_sub(p5).spec_add(p6).spec_sub(p6).spec_add(p7).spec_sub(p7).spec_add(p8).spec_sub(p8).spec_add(p9).spec_sub(p9).spec_add(p10).spec_sub(p10).spec_sub(p11).spec_add(p12), p12, p11);
    lemma_swap_aa(p1.spec_sub(p1).spec_add(p2).spec_sub(p2).spec_add(p3).spec_sub(p3).spec_add(p4).spec_sub(p4).spec_add(p5).spec_sub(p5).spec_add(p6).spec_sub(p6).spec_add(p7).spec_sub(p7).spec_add(p8).spec_sub(p8).spec_add(p9).spec_sub(p9).spec_add(p10).spec_sub(p10).spec_sub(p11), p12, p11);
    lemma_swap_sa(p1.spec_sub(p1).spec_add(p2).spec_sub(p2).spec_add(p3).spec_sub(p3).spec_add(p4).spec_sub(p4).spec_add(p5).spec_sub(p5).spec_add(p6).spec_sub(p6).spec_add(p7).spec_sub(p7).spec_add(p8).spec_sub(p8).spec_add(p9).spec_sub(p9).spec_add(p10).spec_sub(p10), p11, p11);
    lemma_self_cancel(p1);
    lemma_cancel_adj(p1.spec_sub(p1), p2);
    lemma_cancel_adj(p1.spec_sub(p1).spec_add(p2).spec_sub(p2), p3);
    lemma_cancel_adj(p1.spec_sub(p1).spec_add(p2).spec_sub(p2).spec_add(p3).spec_sub(p3), p4);
    lemma_cancel_adj(p1.spec_sub(p1).spec_add(p2).spec_sub(p2).spec_add(p3).spec_sub(p3).spec_add(p4).spec_sub(p4), p5);
    lemma_cancel_adj(p1.spec_sub(p1).spec_add(p2).spec_sub(p2).spec_add(p3).spec_sub(p3).spec_add(p4).spec_sub(p4).spec_add(p5).spec_sub(p5), p6);
    lemma_cancel_adj(p1.spec_sub(p1).spec_add(p2).spec_sub(p2).spec_add(p3).spec_sub(p3).spec_add(p4).spec_sub(p4).spec_add(p5).spec_sub(p5).spec_add(p6).spec_sub(p6), p7);
    lemma_cancel_adj(p1.spec_sub(p1).spec_add(p2).spec_sub(p2).spec_add(p3).spec_sub(p3).spec_add(p4).spec_sub(p4).spec_add(p5).spec_sub(p5).spec_add(p6).spec_sub(p6).spec_add(p7).spec_sub(p7), p8);
    lemma_cancel_adj(p1.spec_sub(p1).spec_add(p2).spec_sub(p2).spec_add(p3).spec_sub(p3).spec_add(p4).spec_sub(p4).spec_add(p5).spec_sub(p5).spec_add(p6).spec_sub(p6).spec_add(p7).spec_sub(p7).spec_add(p8).spec_sub(p8), p9);
    lemma_cancel_adj(p1.spec_sub(p1).spec_add(p2).spec_sub(p2).spec_add(p3).spec_sub(p3).spec_add(p4).spec_sub(p4).spec_add(p5).spec_sub(p5).spec_add(p6).spec_sub(p6).spec_add(p7).spec_sub(p7).spec_add(p8).spec_sub(p8).spec_add(p9).spec_sub(p9), p10);
    lemma_cancel_adj(p1.spec_sub(p1).spec_add(p2).spec_sub(p2).spec_add(p3).spec_sub(p3).spec_add(p4).spec_sub(p4).spec_add(p5).spec_sub(p5).spec_add(p6).spec_sub(p6).spec_add(p7).spec_sub(p7).spec_add(p8).spec_sub(p8).spec_add(p9).spec_sub(p9).spec_add(p10).spec_sub(p10), p11);
    lemma_cancel_adj(p1.spec_sub(p1).spec_add(p2).spec_sub(p2).spec_add(p3).spec_sub(p3).spec_add(p4).spec_sub(p4).spec_add(p5).spec_sub(p5).spec_add(p6).spec_sub(p6).spec_add(p7).spec_sub(p7).spec_add(p8).spec_sub(p8).spec_add(p9).spec_sub(p9).spec_add(p10).spec_sub(p10).spec_add(p11).spec_sub(p11), p12);
}

pub(crate) proof fn lemma_inv_entry9<T: Scalar>(a: Seq<T>)
    requires
        a.len() == 16,
        field_sealed::<T>(),
        !det_seq(a).spec_is_zero(),
    ensures
        mul_seq(inverse_seq(a), a)[9] == T::spec_zero(),
{
    lemma_field_gives_ring::<T>();
    let inv = inverse_seq(a);
    let inv_d = T::spec_one().spec_div(det_seq(a));
    let b00 = minor2(a, 0, 5, 1, 4);
    let b01 = minor2(a, 0, 6, 2, 4);
    let b02 = minor2(a, 0, 7, 3, 4);
    let b03 = minor2(a, 1, 6, 2, 5);
    let b04 = minor2(a, 1, 7, 3, 5);
    let b05 = minor2(a, 2, 7, 3, 6);
    let b06 = minor2(a, 8, 13, 9, 12);
    let b07 = minor2(a, 8, 14, 10, 12);
    let b08 = minor2(a, 8, 15, 11, 12);
    let b09 = minor2(a, 9, 14, 10, 13);
    let b10 = minor2(a, 9, 15, 11, 13);
    let b11 = minor2(a, 10, 15, 11, 14);
    assert(mul_seq(inv, a)[9] == a[8].spec_mul(inv[1]).spec_add(a[9].spec_mul(inv[5])).spec_add(a[10].spec_mul(inv[9])).spec_add(a[11].spec_mul(inv[13])));
    assert(inv[1] == a[2].spec_mul(b10).spec_sub(a[1].spec_mul(b11)).spec_sub(a[3].spec_mul(b09)).spec_mul(inv_d));
    assert(inv[5] == a[0].spec_mul(b11).spec_sub(a[2].spec_mul(b08)).spec_add(a[3].spec_mul(b07)).spec_mul(inv_d));
    assert(inv[9] == a[1].spec_mul(b08).spec_sub(a[0].spec_mul(b10)).spec_sub(a[3].spec_mul(b06)).spec_mul(inv_d));
    assert(inv[13] == a[0].spec_mul(b09).spec_sub(a[1].spec_mul(b07)).spec_add(a[2].spec_mul(b06)).spec_mul(inv_d));
    lemma_mul_assoc(a[8], a[2].spec_mul(b10).spec_sub(a[1].spec_mul(b11)).spec_sub(a[3].spec_mul(b09)), inv_d);
    lemma_mul_assoc(a[9], a[0].spec_mul(b11).spec_sub(a[2].spec_mul(b08)).spec_add(a[3].spec_mul(b07)), inv_d);
    lemma_mul_assoc(a[10], a[1].spec_mul(b08).spec_sub(a[0].spec_mul(b10)).spec_sub(a[3].spec_mul(b06)), inv_d);
    lemma_mul_assoc(a[11], a[0].spec_mul(b09).spec_sub(a[1].spec_mul(b07)).spec_add(a[2].spec_mul(b06)), inv_d);
    lemma_factor4(
        a[8].spec_mul(a[2].spec_mul(b10).spec_sub(a[1].spec_mul(b11)).spec_sub(a[3].spec_mul(b09))),
        a[9].spec_mul(a[0].spec_mul(b11).spec_sub(a[2].spec_mul(b08)).spec_add(a[3].spec_mul(b07))),
        a[10].spec_mul(a[1].spec_mul(b08).spec_sub(a[0].spec_mul(b10)).spec_sub(a[3].spec_mul(b06))),
        a[11].spec_mul(a[0].spec_mul(b09).spec_sub(a[1].spec_mul(b07)).spec_add(a[2].spec_mul(b06))),
        inv_d,
    );
    lemma_distrib3_pmm(a[8], a[2].spec_mul(b10), a[1].spec_mul(b11), a[3].spec_mul(b09));
    lemma_mul_assoc(a[8], a[2], b10);
    lemma_mul_comm(a[8], a[2]);
    lemma_mul_assoc(a[8], a[1], b11);
    lemma_mul_comm(a[8], a[1]);
    lemma_mul_assoc(a[8], a[3], b09);
    lemma_mul_comm(a[8], a[3]);
    lemma_distrib3_pmp(a[9], a[0].spec_mul(b11), a[2].spec_mul(b08), a[3].spec_mul(b07));
    lemma_mul_assoc(a[9], a[0], b11);
    lemma_mul_comm(a[9], a[0]);
    lemma_mul_assoc(a[9], a[2], b08);
    lemma_mul_comm(a[9], a[2]);
    lemma_mul_assoc(a[9], a[3], b07);
    lemma_mul_comm(a[9], a[3]);
    lemma_distrib3_pmm(a[10], a[1].spec_mul(b08), a[0].spec_mul(b10), a[3].spec_mul(b06));
    lemma_mul_assoc(a[10], a[1], b08);
    lemma_mul_comm(a[10], a[1]);
    lemma_mul_assoc(a[10], a[0], b10);
    lemma_mul_comm(a[10], a[0]);
    lemma_mul_assoc(a[10], a[3], b06);
    lemma_mul_comm(a[10], a[3]);
    lemma_distrib3_pmp(a[11], a[0].spec_mul(b09), a[1].spec_mul(b07), a[2].spec_mul(b06));
    lemma_mul_assoc(a[11], a[0], b09);
    lemma_mul_comm(a[11], a[0]);
    lemma_mul_assoc(a[11], a[1], b07);
    lemma_mul_comm(a[11], a[1]);
    lemma_mul_assoc(a[11], a[2], b06);
    lemma_mul_comm(a[11], a[2]);
    lemma_append3_pmp(
        a[2].spec_mul(a[8]).spec_mul(b10).spec_sub(a[1].spec_mul(a[8]).spec_mul(b11)).spec_sub(a[3].spec_mul(a[8]).spec_mul(b09)),
        a[0].spec_mul(a[9]).spec_mul(b11),
        a[2].spec_mul(a[9]).spec_mul(b08),
        a[3].spec_mul(a[9]).spec_mul(b07),
    );
    lemma_append3_pmm(
        a[2].spec_mul(a[8]).spec_mul(b10).spec_sub(a[1].spec_mul(a[8]).spec_mul(b11)).spec_sub(a[3].spec_mul(a[8]).spec_mul(b09)).spec_add(a[0].spec_mul(a[9]).spec_mul(b11)).spec_sub(a[2].spec_mul(a[9]).spec_mul(b08)).spec_add(a[3].spec_mul(a[9]).spec_mul(b07)),
        a[1].spec_mul(a[10]).spec_mul(b08),
        a[0].spec_mul(a[10]).spec_mul(b10),
        a[3].spec_mul(a[10]).spec_mul(b06),
    );
    lemma_append3_pmp(
        a[2].spec_mul(a[8]).spec_mul(b10).spec_sub(a[1].spec_mul(a[8]).spec_mul(b11)).spec_sub(a[3].spec_mul(a[8]).spec_mul(b09)).spec_add(a[0].spec_mul(a[9]).spec_mul(b11)).spec_sub(a[2].spec_mul(a[9]).spec_mul(b08)).spec_add(a[3].spec_mul(a[9]).spec_mul(b07)).spec_add(a[1].spec_mul(a[10]).spec_mul(b08)).spec_sub(a[0].spec_mul(a[10]).spec_mul(b10)).spec_sub(a[3].spec_mul(a[10]).spec_mul(b06)),
        a[0].spec_mul(a[11]).spec_mul(b09),
        a[1].spec_mul(a[11]).spec_mul(b07),
        a[2].spec_mul(a[11]).spec_mul(b06),
    );
    let c2x8x9x15 = a[2].spec_mul(a[8]).spec_mul(a[9].spec_mul(a[15]));
    let c2x8x11x13 = a[2].spec_mul(a[8]).spec_mul(a[11].spec_mul(a[13]));
    let c1x8x10x15 = a[1].spec_mul(a[8]).spec_mul(a[10].spec_mul(a[15]));
    let c1x8x11x14 = a[1].spec_mul(a[8]).spec_mul(a[11].spec_mul(a[14]));
    let c3x8x9x14 = a[3].spec_mul(a[8]).spec_mul(a[9].spec_mul(a[14]));
    let c3x8x10x13 = a[3].spec_mul(a[8]).spec_mul(a[10].spec_mul(a[13]));
    let c0x9x10x15 = a[0].spec_mul(a[9]).spec_mul(a[10].spec_mul(a[15]));
    let c0x9x11x14 = a[0].spec_mul(a[9]).spec_mul(a[11].spec_mul(a[14]));
    let c2x9x11x12 = a[2].spec_mul(a[9]).spec_mul(a[11].spec_mul(a[12]));
    let c3x9x10x12 = a[3].spec_mul(a[9]).spec_mul(a[10].spec_mul(a[12]));
    let c1x10x11x12 = a[1].spec_mul(a[10]).spec_mul(a[11].spec_mul(a[12]));
    let c0x10x11x13 = a[0].spec_mul(a[10]).spec_mul(a[11].spec_mul(a[13]));
    lemma_distrib2(a[2].spec_mul(a[8]), a[9].spec_mul(a[15]), a[11].spec_mul(a[13]));
    lemma_distrib2(a[1].spec_mul(a[8]), a[10].spec_mul(a[15]), a[11].spec_mul(a[14]));
    lemma_distrib2(a[3].spec_mul(a[8]), a[9].spec_mul(a[14]), a[10].spec_mul(a[13]));
    lemma_distrib2(a[0].spec_mul(a[9]), a[10].spec_mul(a[15]), a[11].spec_mul(a[14]));
    lemma_distrib2(a[2].spec_mul(a[9]), a[8].spec_mul(a[15]), a[11].spec_mul(a[12]));
    lemma_distrib2(a[3].spec_mul(a[9]), a[8].spec_mul(a[14]), a[10].spec_mul(a[12]));
    lemma_distrib2(a[1].spec_mul(a[10]), a[8].spec_mul(a[15]), a[11].spec_mul(a[12]));
    lemma_distrib2(a[0].spec_mul(a[10]), a[9].spec_mul(a[15]), a[11].spec_mul(a[13]));
    lemma_distrib2(a[3].spec_mul(a[10]), a[8].spec_mul(a[13]), a[9].spec_mul(a[12]));
    lemma_distrib2(a[0].spec_mul(a[11]), a[9].spec_mul(a[14]), a[10].spec_mul(a[13]));
    lemma_distrib2(a[1].spec_mul(a[11]), a[8].spec_mul(a[14]), a[10].spec_mul(a[12]));
    lemma_distrib2(a[2].spec_mul(a[11]), a[8].spec_mul(a[13]), a[9].spec_mul(a[12]));
    lemma_mul4_rearrange(a[2], a[9], a[8], a[15]);
    lemma_mul4_rearrange(a[3], a[9], a[8], a[14]);
    lemma_mul4_rearrange(a[1], a[10], a[8], a[15]);
    lemma_mul4_rearrange(a[0], a[10], a[9], a[15]);
    lemma_mul4_rearrange(a[3], a[10], a[8], a[13]);
    lemma_mul4_rearrange(a[3], a[10], a[9], a[12]);
    lemma_mul4_rearrange(a[0], a[11], a[9], a[14]);
    lemma_mul4_rearrange(a[0], a[11], a[10], a[13]);
    lemma_mul4_rearrange(a[1], a[11], a[8], a[14]);
    lemma_mul4_rearrange(a[1], a[11], a[10], a[12]);
    lemma_mul4_rearrange(a[2], a[11], a[8], a[13]);
    lemma_mul4_rearrange(a[2], a[11], a[9], a[12]);
    lemma_append2_neg(
        c2x8x9x15.spec_sub(c2x8x11x13),
        c1x8x10x15,
        c1x8x11x14,
    );
    lemma_append2_neg(
        c2x8x9x15.spec_sub(c2x8x11x13).spec_sub(c1x8x10x15).spec_add(c1x8x11x14),
        c3x8x9x14,
        c3x8x10x13,
    );
    lemma_append2_pos(
        c2x8x9x15.spec_sub(c2x8x11x13).spec_sub(c1x8x10x15).spec_add(c1x8x11x14).spec_sub(c3x8x9x14).spec_add(c3x8x10x13),
        c0x9x10x15,
        c0x9x11x14,
    );
    lemma_append2_neg(
        c2x8x9x15.spec_sub(c2x8x11x13).spec_sub(c1x8x10x15).spec_add(c1x8x11x14).spec_sub(c3x8x9x14).spec_add(c3x8x10x13).spec_add(c0x9x10x15).spec_sub(c0x9x11x14),
        c2x8x9x15,
        c2x9x11x12,
    );
    lemma_append2_pos(
        c2x8x9x15.spec_sub(c2x8x11x13).spec_sub(c1x8x10x15).spec_add(c1x8x11x14).spec_sub(c3x8x9x14).spec_add(c3x8x10x13).spec_add(c0x9x10x15).spec_sub(c0x9x11x14).spec_sub(c2x8x9x15).spec_add(c2x9x11x12),
        c3x8x9x14,
        c3x9x10x12,
    );
    lemma_append2_pos(
        c2x8x9x15.spec_sub(c2x8x11x13).spec_sub(c1x8x10x15).spec_add(c1x8x11x14).spec_sub(c3x8x9x14).spec_add(c3x8x10x13).spec_add(c0x9x10x15).spec_sub(c0x9x11x14).spec_sub(c2x8x9x15).spec_add(c2x9x11x12).spec_add(c3x8x9x14).spec_sub(c3x9x10x12),
        c1x8x10x15,
        c1x10x11x12,
    );
    lemma_append2_neg(
        c2x8x9x15.spec_sub(c2x8x11x13).spec_sub(c1x8x10x15).spec_add(c1x8x11x14).spec_sub(c3x8x9x14).spec_add(c3x8x10x13).spec_add(c0x9x10x15).spec_sub(c0x9x11x14).spec_sub(c2x8x9x15).spec_add(c2x9x11x12).spec_add(c3x8x9x14).spec_sub(c3x9x10x12).spec_add(c1x8x10x15).spec_sub(c1x10x11x12),
        c0x9x10x15,
        c0x10x11x13,
    );
    lemma_append2_neg(
        c2x8x9x15.spec_sub(c2x8x11x13).spec_sub(c1x8x10x15).spec_add(c1x8x11x14).spec_sub(c3x8x9x14).spec_add(c3x8x10x13).spec_add(c0x9x10x15).spec_sub(c0x9x11x14).spec_sub(c2x8x9x15).spec_add(c2x9x11x12).spec_add(c3x8x9x14).spec_sub(c3x9x10x12).spec_add(c1x8x10x15).spec_sub(c1x10x11x12).spec_sub(c0x9x10x15).spec_add(c0x10x11x13),
        c3x8x10x13,
        c3x9x10x12,
    );
    lemma_append2_pos(
        c2x8x9x15.spec_sub(c2x8x11x13).spec_sub(c1x8x10x15).spec_add(c1x8x11x14).spec_sub(c3x8x9x14).spec_add(c3x8x10x13).spec_add(c0x9x10x15).spec_sub(c0x9x11x14).spec_sub(c2x8x9x15).spec_add(c2x9x11x12).spec_add(c3x8x9x14).spec_sub(c3x9x10x12).spec_add(c1x8x10x15).spec_sub(c1x10x11x12).spec_sub(c0x9x10x15).spec_add(c0x10x11x13).spec_sub(c3x8x10x13).spec_add(c3x9x10x12),
        c0x9x11x14,
        c0x10x11x13,
    );
    lemma_append2_neg(
        c2x8x9x15.spec_sub(c2x8x11x13).spec_sub(c1x8x10x15).spec_add(c1x8x11x14).spec_sub(c3x8x9x14).spec_add(c3x8x10x13).spec_add(c0x9x10x15).spec_sub(c0x9x11x14).spec_sub(c2x8x9x15).spec_add(c2x9x11x12).spec_add(c3x8x9x14).spec_sub(c3x9x10x12).spec_add(c1x8x10x15).spec_sub(c1x10x11x12).spec_sub(c0x9x10x15).spec_add(c0x10x11x13).spec_sub(c3x8x10x13).spec_add(c3x9x10x12).spec_add(c0x9x11x14).spec_sub(c0x10x11x13),
        c1x8x11x14,
        c1x10x11x12,
    );
    lemma_append2_pos(
        c2x8x9x15.spec_sub(c2x8x11x13).spec_sub(c1x8x10x15).spec_add(c1x8x11x14).spec_sub(c3x8x9x14).spec_add(c3x8x10x13).spec_add(c0x9x10x15).spec_sub(c0x9x11x14).spec_sub(c2x8x9x15).spec_add(c2x9x11x12).spec_add(c3x8x9x14).spec_sub(c3x9x10x12).spec_add(c1x8x10x15).spec_sub(c1x10x11x12).spec_sub(c0x9x10x15).spec_add(c0x10x11x13).spec_sub(c3x8x10x13).spec_add(c3x9x10x12).spec_add(c0x9x11x14).spec_sub(c0x10x11x13).spec_sub(c1x8x11x14).spec_add(c1x10x11x12),
        c2x8x11x13,
        c2x9x11x12,
    );
    lemma_inv_chain9(c2x8x9x15, c2x8x11x13, c1x8x10x15, c1x8x11x14, c3x8x9x14, c3x8x10x13, c0x9x10x15, c0x9x11x14, c2x9x11x12, c3x9x10x12, c1x10x11x12, c0x10x11x13);
    lemma_zero_mul(inv_d);
    assert(mul_seq(inv, a)[9] == T::spec_zero());
}

proof fn lemma_inv_chain10<T: Scalar>(p1: T, p2: T, p3: T, p4: T, p5: T, p6: T, p7: T, p8: T, p9: T, p10: T, p11: T, p12: T)
    requires
        laws_sealed::<T>(),
    ensures
        p1.spec_sub(p2).spec_add(p3).spec_add(p4).spec_sub(p5).spec_sub(p6).spec_add(p7).spec_sub(p8).spec_add(p9).spec_add(p10).spec_sub(p11).spec_sub(p12) == p9.spec_sub(p12).spec_sub(p6).spec_add(p10).spec_add(p4).spec_sub(p8).spec_add(p3).spec_sub(p11).spec_sub(p2).spec_add(p7).spec_add(p1).spec_sub(p5),
{
    lemma_swap_sa(p1.spec_sub(p2).spec_add(p3).spec_add(p4).spec_sub(p5).spec_sub(p6).spec_add(p7), p8, p9);
    lemma_swap_aa(p1.spec_sub(p2).spec_add(p3).spec_add(p4).spec_sub(p5).spec_sub(p6), p7, p9);
    lemma_swap_sa(p1.spec_sub(p2).spec_add(p3).spec_add(p4).spec_sub(p5), p6, p9);
    lemma_swap_sa(p1.spec_sub(p2).spec_add(p3).spec_add(p4), p5, p9);
    lemma_swap_aa(p1.spec_sub(p2).spec_add(p3), p4, p9);
    lemma_swap_aa(p1.spec_sub(p2), p3, p9);
    lemma_swap_sa(p1, p2, p9);
    lemma_add_comm(p1, p9);
    lemma_swap_ss(p9.spec_add(p1).spec_sub(p2).spec_add(p3).spec_add(p4).spec_sub(p5).spec_sub(p6).spec_add(p7).spec_sub(p8).spec_add(p10), p11, p12);
    lemma_swap_as(p9.spec_add(p1).spec_sub(p2).spec_add(p3).spec_add(p4).spec_sub(p5).spec_sub(p6).spec_add(p7).spec_sub(p8), p10, p12);
    lemma_swap_ss(p9.spec_add(p1).spec_sub(p2).spec_add(p3).spec_add(p4).spec_sub(p5).spec_sub(p6).spec_add(p7), p8, p12);
    lemma_swap_as(p9.spec_add(p1).spec_sub(p2).spec_add(p3).spec_add(p4).spec_sub(p5).spec_sub(p6), p7, p12);
    lemma_swap_ss(p9.spec_add(p1).spec_sub(p2).spec_add(p3).spec_add(p4).spec_sub(p5), p6, p12);
    lemma_swap_ss(p9.spec_add(p1).spec_sub(p2).spec_add(p3).spec_add(p4), p5, p12);
    lemma_swap_as(p9.spec_add(p1).spec_sub(p2).spec_add(p3), p4, p12);
    lemma_swap_as(p9.spec_add(p1).spec_sub(p2), p3, p12);
    lemma_swap_ss(p9.spec_add(p1), p2, p12);
    lemma_swap_as(p9, p1, p12);
    lemma_swap_ss(p9.spec_sub(p12).spec_add(p1).spec_sub(p2).spec_add(p3).spec_add(p4), p5, p6);
    lemma_swap_as(p9.spec_sub(p12).spec_add(p1).spec_sub(p2).spec_add(p3), p4, p6);
    lemma_swap_as(p9.spec_sub(p12).spec_add(p1).spec_sub(p2), p3, p6);
    lemma_swap_ss(p9.spec_sub(p12).spec_add(p1), p2, p6);
    lemma_swap_as(p9.spec_sub(p12), p1, p6);
    lemma_swap_sa(p9.spec_sub(p12).spec_sub(p6).spec_add(p1).spec_sub(p2).spec_add(p3).spec_add(p4).spec_sub(p5).spec_add(p7), p8, p10);
    lemma_swap_aa(p9.spec_sub(p12).spec_sub(p6).spec_add(p1).spec_sub(p2).spec_add(p3).spec_add(p4).spec_sub(p5), p7, p10);
    lemma_swap_sa(p9.spec_sub(p12).spec_sub(p6).spec_add(p1).spec_sub(p2).spec_add(p3).spec_add(p4), p5, p10);
    lemma_swap_aa(p9.spec_sub(p12).spec_sub(p6).spec_add(p1).spec_sub(p2).spec_add(p3), p4, p10);
    lemma_swap_aa(p9.spec_sub(p12).spec_sub(p6).spec_add(p1).spec_sub(p2), p3, p10);
    lemma_swap_sa(p9.spec_sub(p12).spec_sub(p6).spec_add(p1), p2, p10);
    lemma_swap_aa(p9.spec_sub(p12).spec_sub(p6), p1, p10);
    lemma_swap_aa(p9.spec_sub(p12).spec_sub(p6).spec_add(p10).spec_add(p1).spec_sub(p2), p3, p4);
    lemma_swap_sa(p9.spec_sub(p12).spec_sub(p6).spec_add(p10).spec_add(p1), p2, p4);
    lemma_swap_aa(p9.spec_sub(p12).spec_sub(p6).spec_add(p10), p1, p4);
    lemma_swap_as(p9.spec_sub(p12).spec_sub(p6).spec_add(p10).spec_add(p4).spec_add(p1).spec_sub(p2).spec_add(p3).spec_sub(p5), p7, p8);
    lemma_swap_ss(p9.spec_sub(p12).spec_sub(p6).spec_add(p10).spec_add(p4).spec_add(p1).spec_sub(p2).spec_add(p3), p5, p8);
    lemma_swap_as(p9.spec_sub(p12).spec_sub(p6).spec_add(p10).spec_add(p4).spec_add(p1).spec_sub(p2), p3, p8);
    lemma_swap_ss(p9.spec_sub(p12).spec_sub(p6).spec_add(p10).spec_add(p4).spec_add(p1), p2, p8);
    lemma_swap_as(p9.spec_sub(p12).spec_sub(p6).spec_add(p10).spec_add(p4), p1, p8);
    lemma_swap_sa(p9.spec_sub(p12).spec_sub(p6).spec_add(p10).spec_add(p4).spec_sub(p8).spec_add(p1), p2, p3);
    lemma_swap_aa(p9.spec_sub(p12).spec_sub(p6).spec_add(p10).spec_add(p4).spec_sub(p8), p1, p3);
    lemma_swap_as(p9.spec_sub(p12).spec_sub(p6).spec_add(p10).spec_add(p4).spec_sub(p8).spec_add(p3).spec_add(p1).spec_sub(p2).spec_sub(p5), p7, p11);
    lemma_swap_ss(p9.spec_sub(p12).spec_sub(p6).spec_add(p10).spec_add(p4).spec_sub(p8).spec_add(p3).spec_add(p1).spec_sub(p2), p5, p11);
    lemma_swap_ss(p9.spec_sub(p12).spec_sub(p6).spec_add(p10).spec_add(p4).spec_sub(p8).spec_add(p3).spec_add(p1), p2, p11);
    lemma_swap_as(p9.spec_sub(p12).spec_sub(p6).spec_add(p10).spec_add(p4).spec_sub(p8).spec_add(p3), p1, p11);
    lemma_swap_as(p9.spec_sub(p12).spec_sub(p6).spec_add(p10).spec_add(p4).spec_sub(p8).spec_add(p3).spec_sub(p11), p1, p2);
    lemma_swap_sa(p9.spec_sub(p12).spec_sub(p6).spec_add(p10).spec_add(p4).spec_sub(p8).spec_add(p3).spec_sub(p11).spec_sub(p2).spec_add(p1), p5, p7);
    lemma_swap_aa(p9.spec_sub(p12).spec_sub(p6).spec_add(p10).spec_add(p4).spec_sub(p8).spec_add(p3).spec_sub(p11).spec_sub(p2), p1, p7);
}

pub(crate) proof fn lemma_inv_entry10<T: Scalar>(a: Seq<T>)
    requires
        a.len() == 16,
        field_sealed::<T>(),
        !det_seq(a).spec_is_zero(),
    ensures
        mul_seq(inverse_seq(a), a)[10] == T::spec_one(),
{
    lemma_field_gives_ring::<T>();
    let inv = inverse_seq(a);
    let inv_d = T::spec_one().spec_div(det_seq(a));
    let b00 = minor2(a, 0, 5, 1, 4);
    let b01 = minor2(a, 0, 6, 2, 4);
    let b02 = minor2(a, 0, 7, 3, 4);
    let b03 = minor2(a, 1, 6, 2, 5);
    let b04 = minor2(a, 1, 7, 3, 5);
    let b05 = minor2(a, 2, 7, 3, 6);
    let b06 = minor2(a, 8, 13, 9, 12);
    let b07 = minor2(a, 8, 14, 10, 12);
    let b08 = minor2(a, 8, 15, 11, 12);
    let b09 = minor2(a, 9, 14, 10, 13);
    let b10 = minor2(a, 9, 15, 11, 13);
    let b11 = minor2(a, 10, 15, 11, 14);
    assert(mul_seq(inv, a)[10] == a[8].spec_mul(inv[2]).spec_add(a[9].spec_mul(inv[6])).spec_add(a[10].spec_mul(inv[10])).spec_add(a[11].spec_mul(inv[14])));
    assert(inv[2] == a[13].spec_mul(b05).spec_sub(a[14].spec_mul(b04)).spec_add(a[15].spec_mul(b03)).spec_mul(inv_d));
    assert(inv[6] == a[14].spec_mul(b02).spec_sub(a[12].spec_mul(b05)).spec_sub(a[15].spec_mul(b01)).spec_mul(inv_d));
    assert(inv[10] == a[12].spec_mul(b04).spec_sub(a[13].spec_mul(b02)).spec_add(a[15].spec_mul(b00)).spec_mul(inv_d));
    assert(inv[14] == a[13].spec_mul(b01).spec_sub(a[12].spec_mul(b03)).spec_sub(a[14].spec_mul(b00)).spec_mul(inv_d));
    lemma_mul_assoc(a[8], a[13].spec_mul(b05).spec_sub(a[14].spec_mul(b04)).spec_add(a[15].spec_mul(b03)), inv_d);
    lemma_mul_assoc(a[9], a[14].spec_mul(b02).spec_sub(a[12].spec_mul(b05)).spec_sub(a[15].spec_mul(b01)), inv_d);
    lemma_mul_assoc(a[10], a[12].spec_mul(b04).spec_sub(a[13].spec_mul(b02)).spec_add(a[15].spec_mul(b00)), inv_d);
    lemma_mul_assoc(a[11], a[13].spec_mul(b01).spec_sub(a[12].spec_mul(b03)).spec_sub(a[14].spec_mul(b00)), inv_d);
    lemma_factor4(
        a[8].spec_mul(a[13].spec_mul(b05).spec_sub(a[14].spec_mul(b04)).spec_add(a[15].spec_mul(b03))),
        a[9].spec_mul(a[14].spec_mul(b02).spec_sub(a[12].spec_mul(b05)).spec_sub(a[15].spec_mul(b01))),
        a[10].spec_mul(a[12].spec_mul(b04).spec_sub(a[13].spec_mul(b02)).spec_add(a[15].spec_mul(b00))),
        a[11].spec_mul(a[13].spec_mul(b01).spec_sub(a[12].spec_mul(b03)).spec_sub(a[14].spec_mul(b00))),
        inv_d,
    );
    lemma_distrib3_pmp(a[8], a[13].spec_mul(b05), a[14].spec_mul(b04), a[15].spec_mul(b03));
    lemma_mul_assoc(a[8], a[13], b05);
    lemma_mul_assoc(a[8], a[14], b04);
    lemma_mul_assoc(a[8], a[15], b03);
    lemma_distrib3_pmm(a[9], a[14].spec_mul(b02), a[12].spec_mul(b05), a[15].spec_mul(b01));
    lemma_mul_assoc(a[9], a[14], b02);
    lemma_mul_assoc(a[9], a[12], b05);
    lemma_mul_assoc(a[9], a[15], b01);
    lemma_distrib3_pmp(a[10], a[12].spec_mul(b04), a[13].spec_mul(b02), a[15].spec_mul(b00));
    lemma_mul_assoc(a[10], a[12], b04);
    lemma_mul_assoc(a[10], a[13], b02);
    lemma_mul_assoc(a[10], a[15], b00);
    lemma_distrib3_pmm(a[11], a[13].spec_mul(b01), a[12].spec_mul(b03), a[14].spec_mul(b00));
    lemma_mul_assoc(a[11], a[13], b01);
    lemma_mul_assoc(a[11], a[12], b03);
    lemma_mul_assoc(a[11], a[14], b00);
    lemma_append3_pmm(
        a[8].spec_mul(a[13]).spec_mul(b05).spec_sub(a[8].spec_mul(a[14]).spec_mul(b04)).spec_add(a[8].spec_mul(a[15]).spec_mul(b03)),
        a[9].spec_mul(a[14]).spec_mul(b02),
        a[9].spec_mul(a[12]).spec_mul(b05),
        a[9].spec_mul(a[15]).spec_mul(b01),
    );
    lemma_append3_pmp(
        a[8].spec_mul(a[13]).spec_mul(b05).spec_sub(a[8].spec_mul(a[14]).spec_mul(b04)).spec_add(a[8].spec_mul(a[15]).spec_mul(b03)).spec_add(a[9].spec_mul(a[14]).spec_mul(b02)).spec_sub(a[9].spec_mul(a[12]).spec_mul(b05)).spec_sub(a[9].spec_mul(a[15]).spec_mul(b01)),
        a[10].spec_mul(a[12]).spec_mul(b04),
        a[10].spec_mul(a[13]).spec_mul(b02),
        a[10].spec_mul(a[15]).spec_mul(b00),
    );
    lemma_append3_pmm(
        a[8].spec_mul(a[13]).spec_mul(b05).spec_sub(a[8].spec_mul(a[14]).spec_mul(b04)).spec_add(a[8].spec_mul(a[15]).spec_mul(b03)).spec_add(a[9].spec_mul(a[14]).spec_mul(b02)).spec_sub(a[9].spec_mul(a[12]).spec_mul(b05)).spec_sub(a[9].spec_mul(a[15]).spec_mul(b01)).spec_add(a[10].spec_mul(a[12]).spec_mul(b04)).spec_sub(a[10].spec_mul(a[13]).spec_mul(b02)).spec_add(a[10].spec_mul(a[15]).spec_mul(b00)),
        a[11].spec_mul(a[13]).spec_mul(b01),
        a[11].spec_mul(a[12]).spec_mul(b03),
        a[11].spec_mul(a[14]).spec_mul(b00),
    );
    lemma_mul_comm(b00, b11);
    lemma_mul_comm(b01, b10);
    lemma_mul_comm(b02, b09);
    lemma_mul_comm(b03, b08);
    lemma_mul_comm(b04, b07);
    lemma_mul_comm(b05, b06);
    lemma_expand_minor_prod(a[10].spec_mul(a[15]), a[11].spec_mul(a[14]), b00);
    lemma_expand_minor_prod(a[9].spec_mul(a[15]), a[11].spec_mul(a[13]), b01);
    lemma_append2_neg(
        a[10].spec_mul(a[15]).spec_mul(b00).spec_sub(a[11].spec_mul(a[14]).spec_mul(b00)),
        a[9].spec_mul(a[15]).spec_mul(b01),
        a[11].spec_mul(a[13]).spec_mul(b01),
    );
    lemma_expand_minor_prod(a[9].spec_mul(a[14]), a[10].spec_mul(a[13]), b02);
    lemma_append2_pos(
        a[10].spec_mul(a[15]).spec_mul(b00).spec_sub(a[11].spec_mul(a[14]).spec_mul(b00)).spec_sub(a[9].spec_mul(a[15]).spec_mul(b01)).spec_add(a[11].spec_mul(a[13]).spec_mul(b01)),
        a[9].spec_mul(a[14]).spec_mul(b02),
        a[10].spec_mul(a[13]).spec_mul(b02),
    );
    lemma_expand_minor_prod(a[8].spec_mul(a[15]), a[11].spec_mul(a[12]), b03);
    lemma_append2_pos(
        a[10].spec_mul(a[15]).spec_mul(b00).spec_sub(a[11].spec_mul(a[14]).spec_mul(b00)).spec_sub(a[9].spec_mul(a[15]).spec_mul(b01)).spec_add(a[11].spec_mul(a[13]).spec_mul(b01)).spec_add(a[9].spec_mul(a[14]).spec_mul(b02)).spec_sub(a[10].spec_mul(a[13]).spec_mul(b02)),
        a[8].spec_mul(a[15]).spec_mul(b03),
        a[11].spec_mul(a[12]).spec_mul(b03),
    );
    lemma_expand_minor_prod(a[8].spec_mul(a[14]), a[10].spec_mul(a[12]), b04);
    lemma_append2_neg(
        a[10].spec_mul(a[15]).spec_mul(b00).spec_sub(a[11].spec_mul(a[14]).spec_mul(b00)).spec_sub(a[9].spec_mul(a[15]).spec_mul(b01)).spec_add(a[11].spec_mul(a[13]).spec_mul(b01)).spec_add(a[9].spec_mul(a[14]).spec_mul(b02)).spec_sub(a[10].spec_mul(a[13]).spec_mul(b02)).spec_add(a[8].spec_mul(a[15]).spec_mul(b03)).spec_sub(a[11].spec_mul(a[12]).spec_mul(b03)),
        a[8].spec_mul(a[14]).spec_mul(b04),
        a[10].spec_mul(a[12]).spec_mul(b04),
    );
    lemma_expand_minor_prod(a[8].spec_mul(a[13]), a[9].spec_mul(a[12]), b05);
    lemma_append2_pos(
        a[10].spec_mul(a[15]).spec_mul(b00).spec_sub(a[11].spec_mul(a[14]).spec_mul(b00)).spec_sub(a[9].spec_mul(a[15]).spec_mul(b01)).spec_add(a[11].spec_mul(a[13]).spec_mul(b01)).spec_add(a[9].spec_mul(a[14]).spec_mul(b02)).spec_sub(a[10].spec_mul(a[13]).spec_mul(b02)).spec_add(a[8].spec_mul(a[15]).spec_mul(b03)).spec_sub(a[11].spec_mul(a[12]).spec_mul(b03)).spec_sub(a[8].spec_mul(a[14]).spec_mul(b04)).spec_add(a[10].spec_mul(a[12]).spec_mul(b04)),
        a[8].spec_mul(a[13]).spec_mul(b05),
        a[9].spec_mul(a[12]).spec_mul(b05),
    );
    lemma_inv_chain10(
        a[8].spec_mul(a[13]).spec_mul(b05),
        a[8].spec_mul(a[14]).spec_mul(b04),
        a[8].spec_mul(a[15]).spec_mul(b03),
        a[9].spec_mul(a[14]).spec_mul(b02),
        a[9].spec_mul(a[12]).spec_mul(b05),
        a[9].spec_mul(a[15]).spec_mul(b01),
        a[10].spec_mul(a[12]).spec_mul(b04),
        a[10].spec_mul(a[13]).spec_mul(b02),
        a[10].spec_mul(a[15]).spec_mul(b00),
        a[11].spec_mul(a[13]).spec_mul(b01),
        a[11].spec_mul(a[12]).spec_mul(b03),
        a[11].spec_mul(a[14]).spec_mul(b00)
    );
    assert(mul_seq(inv, a)[10] == det_seq(a).spec_mul(inv_d));
    lemma_recip(det_seq(a));
    assert(mul_seq(inv, a)[10] == T::spec_one());
}

proof fn lemma_inv_chain11<T: Scalar>(p1: T, p2: T, p3: T, p4: T, p5: T, p6: T)
    requires
        laws_sealed::<T>(),
    ensures
        p1.spec_sub(p2).spec_sub(p3).spec_add(p2).spec_sub(p4).spec_add(p5).spec_add(p4).spec_sub(p1).spec_sub(p6).spec_add(p3).spec_sub(p5).spec_add(p6) == T::spec_zero(),
{
    lemma_swap_as(p1.spec_sub(p2).spec_sub(p3).spec_add(p2).spec_sub(p4).spec_add(p5), p4, p1);
    lemma_swap_as(p1.spec_sub(p2).spec_sub(p3).spec_add(p2).spec_sub(p4), p5, p1);
    lemma_swap_ss(p1.spec_sub(p2).spec_sub(p3).spec_add(p2), p4, p1);
    lemma_swap_as(p1.spec_sub(p2).spec_sub(p3), p2, p1);
    lemma_swap_ss(p1.spec_sub(p2), p3, p1);
    lemma_swap_ss(p1, p2, p1);
    lemma_swap_sa(p1.spec_sub(p1).spec_sub(p2), p3, p2);
    lemma_swap_sa(p1.spec_sub(p1), p2, p2);
    lemma_swap_sa(p1.spec_sub(p1).spec_add(p2).spec_sub(p2).spec_sub(p3).spec_sub(p4).spec_add(p5).spec_add(p4), p6, p3);
    lemma_swap_aa(p1.spec_sub(p1).spec_add(p2).spec_sub(p2).spec_sub(p3).spec_sub(p4).spec_add(p5), p4, p3);
    lemma_swap_aa(p1.spec_sub(p1).spec_add(p2).spec_sub(p2).spec_sub(p3).spec_sub(p4), p5, p3);
    lemma_swap_sa(p1.spec_sub(p1).spec_add(p2).spec_sub(p2).spec_sub(p3), p4, p3);
    lemma_swap_sa(p1.spec_sub(p1).spec_add(p2).spec_sub(p2), p3, p3);
    lemma_swap_aa(p1.spec_sub(p1).spec_add(p2).spec_sub(p2).spec_add(p3).spec_sub(p3).spec_sub(p4), p5, p4);
    lemma_swap_sa(p1.spec_sub(p1).spec_add(p2).spec_sub(p2).spec_add(p3).spec_sub(p3), p4, p4);
    lemma_swap_ss(p1.spec_sub(p1).spec_add(p2).spec_sub(p2).spec_add(p3).spec_sub(p3).spec_add(p4).spec_sub(p4).spec_add(p5), p6, p5);
    lemma_swap_sa(p1.spec_sub(p1).spec_add(p2).spec_sub(p2).spec_add(p3).spec_sub(p3).spec_add(p4).spec_sub(p4).spec_add(p5).spec_sub(p5), p6, p6);
    lemma_self_cancel(p1);
    lemma_cancel_adj(p1.spec_sub(p1), p2);
    lemma_cancel_adj(p1.spec_sub(p1).spec_add(p2).spec_sub(p2), p3);
    lemma_cancel_adj(p1.spec_sub(p1).spec_add(p2).spec_sub(p2).spec_add(p3).spec_sub(p3), p4);
    lemma_cancel_adj(p1.spec_sub(p1).spec_add(p2).spec_sub(p2).spec_add(p3).spec_sub(p3).spec_add(p4).spec_sub(p4), p5);
    lemma_cancel_adj(p1.spec_sub(p1).spec_add(p2).spec_sub(p2).spec_add(p3).spec_sub(p3).spec_add(p4).spec_sub(p4).spec_add(p5).spec_sub(p5), p6);
}

pub(crate) proof fn lemma_inv_entry11<T: Scalar>(a: Seq<T>)
    requires
        a.len() == 16,
        field_sealed::<T>(),
        !det_seq(a).spec_is_zero(),
    ensures
        mul_seq(inverse_seq(a), a)[11] == T::spec_zero(),
{
    lemma_field_gives_ring::<T>();
    let inv = inverse_seq(a);
    let inv_d = T::spec_one().spec_div(det_seq(a));
    let b00 = minor2(a, 0, 5, 1, 4);
    let b01 = minor2(a, 0, 6, 2, 4);
    let b02 = minor2(a, 0, 7, 3, 4);
    let b03 = minor2(a, 1, 6, 2, 5);
    let b04 = minor2(a, 1, 7, 3, 5);
    let b05 = minor2(a, 2, 7, 3, 6);
    let b06 = minor2(a, 8, 13, 9, 12);
    let b07 = minor2(a, 8, 14, 10, 12);
    let b08 = minor2(a, 8, 15, 11, 12);
    let b09 = minor2(a, 9, 14, 10, 13);
    let b10 = minor2(a, 9, 15, 11, 13);
    let b11 = minor2(a, 10, 15, 11, 14);
    assert(mul_seq(inv, a)[11] == a[8].spec_mul(inv[3]).spec_add(a[9].spec_mul(inv[7])).spec_add(a[10].spec_mul(inv[11])).spec_add(a[11].spec_mul(inv[15])));
    assert(inv[3] == a[10].spec_mul(b04).spec_sub(a[9].spec_mul(b05)).spec_sub(a[11].spec_mul(b03)).spec_mul(inv_d));
    assert(inv[7] == a[8].spec_mul(b05).spec_sub(a[10].spec_mul(b02)).spec_add(a[11].spec_mul(b01)).spec_mul(inv_d));
    assert(inv[11] == a[9].spec_mul(b02).spec_sub(a[8].spec_mul(b04)).spec_sub(a[11].spec_mul(b00)).spec_mul(inv_d));
    assert(inv[15] == a[8].spec_mul(b03).spec_sub(a[9].spec_mul(b01)).spec_add(a[10].spec_mul(b00)).spec_mul(inv_d));
    lemma_mul_assoc(a[8], a[10].spec_mul(b04).spec_sub(a[9].spec_mul(b05)).spec_sub(a[11].spec_mul(b03)), inv_d);
    lemma_mul_assoc(a[9], a[8].spec_mul(b05).spec_sub(a[10].spec_mul(b02)).spec_add(a[11].spec_mul(b01)), inv_d);
    lemma_mul_assoc(a[10], a[9].spec_mul(b02).spec_sub(a[8].spec_mul(b04)).spec_sub(a[11].spec_mul(b00)), inv_d);
    lemma_mul_assoc(a[11], a[8].spec_mul(b03).spec_sub(a[9].spec_mul(b01)).spec_add(a[10].spec_mul(b00)), inv_d);
    lemma_factor4(
        a[8].spec_mul(a[10].spec_mul(b04).spec_sub(a[9].spec_mul(b05)).spec_sub(a[11].spec_mul(b03))),
        a[9].spec_mul(a[8].spec_mul(b05).spec_sub(a[10].spec_mul(b02)).spec_add(a[11].spec_mul(b01))),
        a[10].spec_mul(a[9].spec_mul(b02).spec_sub(a[8].spec_mul(b04)).spec_sub(a[11].spec_mul(b00))),
        a[11].spec_mul(a[8].spec_mul(b03).spec_sub(a[9].spec_mul(b01)).spec_add(a[10].spec_mul(b00))),
        inv_d,
    );
    lemma_distrib3_pmm(a[8], a[10].spec_mul(b04), a[9].spec_mul(b05), a[11].spec_mul(b03));
    lemma_mul_assoc(a[8], a[10], b04);
    lemma_mul_assoc(a[8], a[9], b05);
    lemma_mul_assoc(a[8], a[11], b03);
    lemma_distrib3_pmp(a[9], a[8].spec_mul(b05), a[10].spec_mul(b02), a[11].spec_mul(b01));
    lemma_mul_assoc(a[9], a[8], b05);
    lemma_mul_comm(a[9], a[8]);
    lemma_mul_assoc(a[9], a[10], b02);
    lemma_mul_assoc(a[9], a[11], b01);
    lemma_distrib3_pmm(a[10], a[9].spec_mul(b02), a[8].spec_mul(b04), a[11].spec_mul(b00));
    lemma_mul_assoc(a[10], a[9], b02);
    lemma_mul_comm(a[10], a[9]);
    lemma_mul_assoc(a[10], a[8], b04);
    lemma_mul_comm(a[10], a[8]);
    lemma_mul_assoc(a[10], a[11], b00);
    lemma_distrib3_pmp(a[11], a[8].spec_mul(b03), a[9].spec_mul(b01), a[10].spec_mul(b00));
    lemma_mul_assoc(a[11], a[8], b03);
    lemma_mul_comm(a[11], a[8]);
    lemma_mul_assoc(a[11], a[9], b01);
    lemma_mul_comm(a[11], a[9]);
    lemma_mul_assoc(a[11], a[10], b00);
    lemma_mul_comm(a[11], a[10]);
    lemma_append3_pmp(
        a[8].spec_mul(a[10]).spec_mul(b04).spec_sub(a[8].spec_mul(a[9]).spec_mul(b05)).spec_sub(a[8].spec_mul(a[11]).spec_mul(b03)),
        a[8].spec_mul(a[9]).spec_mul(b05),
        a[9].spec_mul(a[10]).spec_mul(b02),
        a[9].spec_mul(a[11]).spec_mul(b01),
    );
    lemma_append3_pmm(
        a[8].spec_mul(a[10]).spec_mul(b04).spec_sub(a[8].spec_mul(a[9]).spec_mul(b05)).spec_sub(a[8].spec_mul(a[11]).spec_mul(b03)).spec_add(a[8].spec_mul(a[9]).spec_mul(b05)).spec_sub(a[9].spec_mul(a[10]).spec_mul(b02)).spec_add(a[9].spec_mul(a[11]).spec_mul(b01)),
        a[9].spec_mul(a[10]).spec_mul(b02),
        a[8].spec_mul(a[10]).spec_mul(b04),
        a[10].spec_mul(a[11]).spec_mul(b00),
    );
    lemma_append3_pmp(
        a[8].spec_mul(a[10]).spec_mul(b04).spec_sub(a[8].spec_mul(a[9]).spec_mul(b05)).spec_sub(a[8].spec_mul(a[11]).spec_mul(b03)).spec_add(a[8].spec_mul(a[9]).spec_mul(b05)).spec_sub(a[9].spec_mul(a[10]).spec_mul(b02)).spec_add(a[9].spec_mul(a[11]).spec_mul(b01)).spec_add(a[9].spec_mul(a[10]).spec_mul(b02)).spec_sub(a[8].spec_mul(a[10]).spec_mul(b04)).spec_sub(a[10].spec_mul(a[11]).spec_mul(b00)),
        a[8].spec_mul(a[11]).spec_mul(b03),
        a[9].spec_mul(a[11]).spec_mul(b01),
        a[10].spec_mul(a[11]).spec_mul(b00),
    );
    lemma_inv_chain11(
        a[8].spec_mul(a[10]).spec_mul(b04),
        a[8].spec_mul(a[9]).spec_mul(b05),
        a[8].spec_mul(a[11]).spec_mul(b03),
        a[9].spec_mul(a[10]).spec_mul(b02),
        a[9].spec_mul(a[11]).spec_mul(b01),
        a[10].spec_mul(a[11]).spec_mul(b00)
    );
    lemma_zero_mul(inv_d);
    assert(mul_seq(inv, a)[11] == T::spec_zero());
}

proof fn lemma_inv_chain12<T: Scalar>(p1: T, p2: T, p3: T, p4: T, p5: T, p6: T, p7: T, p8: T, p9: T, p10: T, p11: T, p12: T)
    requires
        laws_sealed::<T>(),
    ensures
        p1.spec_sub(p2).spec_sub(p3).spec_add(p4).spec_add(p5).spec_sub(p6).spec_add(p7).spec_sub(p4).spec_sub(p8).spec_add(p9).spec_sub(p10).spec_add(p6).spec_add(p11).spec_sub(p9).spec_sub(p12).spec_add(p2).spec_add(p10).spec_sub(p5).spec_add(p12).spec_sub(p1).spec_sub(p11).spec_add(p8).spec_sub(p7).spec_add(p3) == T::spec_zero(),
{
    lemma_swap_as(p1.spec_sub(p2).spec_sub(p3).spec_add(p4).spec_add(p5).spec_sub(p6).spec_add(p7).spec_sub(p4).spec_sub(p8).spec_add(p9).spec_sub(p10).spec_add(p6).spec_add(p11).spec_sub(p9).spec_sub(p12).spec_add(p2).spec_add(p10).spec_sub(p5), p12, p1);
    lemma_swap_ss(p1.spec_sub(p2).spec_sub(p3).spec_add(p4).spec_add(p5).spec_sub(p6).spec_add(p7).spec_sub(p4).spec_sub(p8).spec_add(p9).spec_sub(p10).spec_add(p6).spec_add(p11).spec_sub(p9).spec_sub(p12).spec_add(p2).spec_add(p10), p5, p1);
    lemma_swap_as(p1.spec_sub(p2).spec_sub(p3).spec_add(p4).spec_add(p5).spec_sub(p6).spec_add(p7).spec_sub(p4).spec_sub(p8).spec_add(p9).spec_sub(p10).spec_add(p6).spec_add(p11).spec_sub(p9).spec_sub(p12).spec_add(p2), p10, p1);
    lemma_swap_as(p1.spec_sub(p2).spec_sub(p3).spec_add(p4).spec_add(p5).spec_sub(p6).spec_add(p7).spec_sub(p4).spec_sub(p8).spec_add(p9).spec_sub(p10).spec_add(p6).spec_add(p11).spec_sub(p9).spec_sub(p12), p2, p1);
    lemma_swap_ss(p1.spec_sub(p2).spec_sub(p3).spec_add(p4).spec_add(p5).spec_sub(p6).spec_add(p7).spec_sub(p4).spec_sub(p8).spec_add(p9).spec_sub(p10).spec_add(p6).spec_add(p11).spec_sub(p9), p12, p1);
    lemma_swap_ss(p1.spec_sub(p2).spec_sub(p3).spec_add(p4).spec_add(p5).spec_sub(p6).spec_add(p7).spec_sub(p4).spec_sub(p8).spec_add(p9).spec_sub(p10).spec_add(p6).spec_add(p11), p9, p1);
    lemma_swap_as(p1.spec_sub(p2).spec_sub(p3).spec_add(p4).spec_add(p5).spec_sub(p6).spec_add(p7).spec_sub(p4).spec_sub(p8).spec_add(p9).spec_sub(p10).spec_add(p6), p11, p1);
    lemma_swap_as(p1.spec_sub(p2).spec_sub(p3).spec_add(p4).spec_add(p5).spec_sub(p6).spec_add(p7).spec_sub(p4).spec_sub(p8).spec_add(p9).spec_sub(p10), p6, p1);
    lemma_swap_ss(p1.spec_sub(p2).spec_sub(p3).spec_add(p4).spec_add(p5).spec_sub(p6).spec_add(p7).spec_sub(p4).spec_sub(p8).spec_add(p9), p10, p1);
    lemma_swap_as(p1.spec_sub(p2).spec_sub(p3).spec_add(p4).spec_add(p5).spec_sub(p6).spec_add(p7).spec_sub(p4).spec_sub(p8), p9, p1);
    lemma_swap_ss(p1.spec_sub(p2).spec_sub(p3).spec_add(p4).spec_add(p5).spec_sub(p6).spec_add(p7).spec_sub(p4), p8, p1);
    lemma_swap_ss(p1.spec_sub(p2).spec_sub(p3).spec_add(p4).spec_add(p5).spec_sub(p6).spec_add(p7), p4, p1);
    lemma_swap_as(p1.spec_sub(p2).spec_sub(p3).spec_add(p4).spec_add(p5).spec_sub(p6), p7, p1);
    lemma_swap_ss(p1.spec_sub(p2).spec_sub(p3).spec_add(p4).spec_add(p5), p6, p1);
    lemma_swap_as(p1.spec_sub(p2).spec_sub(p3).spec_add(p4), p5, p1);
    lemma_swap_as(p1.spec_sub(p2).spec_sub(p3), p4, p1);
    lemma_swap_ss(p1.spec_sub(p2), p3, p1);
    lemma_swap_ss(p1, p2, p1);
    lemma_swap_sa(p1.spec_sub(p1).spec_sub(p2).spec_sub(p3).spec_add(p4).spec_add(p5).spec_sub(p6).spec_add(p7).spec_sub(p4).spec_sub(p8).spec_add(p9).spec_sub(p10).spec_add(p6).spec_add(p11).spec_sub(p9), p12, p2);
    lemma_swap_sa(p1.spec_sub(p1).spec_sub(p2).spec_sub(p3).spec_add(p4).spec_add(p5).spec_sub(p6).spec_add(p7).spec_sub(p4).spec_sub(p8).spec_add(p9).spec_sub(p10).spec_add(p6).spec_add(p11), p9, p2);
    lemma_swap_aa(p1.spec_sub(p1).spec_sub(p2).spec_sub(p3).spec_add(p4).spec_add(p5).spec_sub(p6).spec_add(p7).spec_sub(p4).spec_sub(p8).spec_add(p9).spec_sub(p10).spec_add(p6), p11, p2);
    lemma_swap_aa(p1.spec_sub(p1).spec_sub(p2).spec_sub(p3).spec_add(p4).spec_add(p5).spec_sub(p6).spec_add(p7).spec_sub(p4).spec_sub(p8).spec_add(p9).spec_sub(p10), p6, p2);
    lemma_swap_sa(p1.spec_sub(p1).spec_sub(p2).spec_sub(p3).spec_add(p4).spec_add(p5).spec_sub(p6).spec_add(p7).spec_sub(p4).spec_sub(p8).spec_add(p9), p10, p2);
    lemma_swap_aa(p1.spec_sub(p1).spec_sub(p2).spec_sub(p3).spec_add(p4).spec_add(p5).spec_sub(p6).spec_add(p7).spec_sub(p4).spec_sub(p8), p9, p2);
    lemma_swap_sa(p1.spec_sub(p1).spec_sub(p2).spec_sub(p3).spec_add(p4).spec_add(p5).spec_sub(p6).spec_add(p7).spec_sub(p4), p8, p2);
    lemma_swap_sa(p1.spec_sub(p1).spec_sub(p2).spec_sub(p3).spec_add(p4).spec_add(p5).spec_sub(p6).spec_add(p7), p4, p2);
    lemma_swap_aa(p1.spec_sub(p1).spec_sub(p2).spec_sub(p3).spec_add(p4).spec_add(p5).spec_sub(p6), p7, p2);
    lemma_swap_sa(p1.spec_sub(p1).spec_sub(p2).spec_sub(p3).spec_add(p4).spec_add(p5), p6, p2);
    lemma_swap_aa(p1.spec_sub(p1).spec_sub(p2).spec_sub(p3).spec_add(p4), p5, p2);
    lemma_swap_aa(p1.spec_sub(p1).spec_sub(p2).spec_sub(p3), p4, p2);
    lemma_swap_sa(p1.spec_sub(p1).spec_sub(p2), p3, p2);
    lemma_swap_sa(p1.spec_sub(p1), p2, p2);
    lemma_swap_sa(p1.spec_sub(p1).spec_add(p2).spec_sub(p2).spec_sub(p3).spec_add(p4).spec_add(p5).spec_sub(p6).spec_add(p7).spec_sub(p4).spec_sub(p8).spec_add(p9).spec_sub(p10).spec_add(p6).spec_add(p11).spec_sub(p9).spec_sub(p12).spec_add(p10).spec_sub(p5).spec_add(p12).spec_sub(p11).spec_add(p8), p7, p3);
    lemma_swap_aa(p1.spec_sub(p1).spec_add(p2).spec_sub(p2).spec_sub(p3).spec_add(p4).spec_add(p5).spec_sub(p6).spec_add(p7).spec_sub(p4).spec_sub(p8).spec_add(p9).spec_sub(p10).spec_add(p6).spec_add(p11).spec_sub(p9).spec_sub(p12).spec_add(p10).spec_sub(p5).spec_add(p12).spec_sub(p11), p8, p3);
    lemma_swap_sa(p1.spec_sub(p1).spec_add(p2).spec_sub(p2).spec_sub(p3).spec_add(p4).spec_add(p5).spec_sub(p6).spec_add(p7).spec_sub(p4).spec_sub(p8).spec_add(p9).spec_sub(p10).spec_add(p6).spec_add(p11).spec_sub(p9).spec_sub(p12).spec_add(p10).spec_sub(p5).spec_add(p12), p11, p3);
    lemma_swap_aa(p1.spec_sub(p1).spec_add(p2).spec_sub(p2).spec_sub(p3).spec_add(p4).spec_add(p5).spec_sub(p6).spec_add(p7).spec_sub(p4).spec_sub(p8).spec_add(p9).spec_sub(p10).spec_add(p6).spec_add(p11).spec_sub(p9).spec_sub(p12).spec_add(p10).spec_sub(p5), p12, p3);
    lemma_swap_sa(p1.spec_sub(p1).spec_add(p2).spec_sub(p2).spec_sub(p3).spec_add(p4).spec_add(p5).spec_sub(p6).spec_add(p7).spec_sub(p4).spec_sub(p8).spec_add(p9).spec_sub(p10).spec_add(p6).spec_add(p11).spec_sub(p9).spec_sub(p12).spec_add(p10), p5, p3);
    lemma_swap_aa(p1.spec_sub(p1).spec_add(p2).spec_sub(p2).spec_sub(p3).spec_add(p4).spec_add(p5).spec_sub(p6).spec_add(p7).spec_sub(p4).spec_sub(p8).spec_add(p9).spec_sub(p10).spec_add(p6).spec_add(p11).spec_sub(p9).spec_sub(p12), p10, p3);
    lemma_swap_sa(p1.spec_sub(p1).spec_add(p2).spec_sub(p2).spec_sub(p3).spec_add(p4).spec_add(p5).spec_sub(p6).spec_add(p7).spec_sub(p4).spec_sub(p8).spec_add(p9).spec_sub(p10).spec_add(p6).spec_add(p11).spec_sub(p9), p12, p3);
    lemma_swap_sa(p1.spec_sub(p1).spec_add(p2).spec_sub(p2).spec_sub(p3).spec_add(p4).spec_add(p5).spec_sub(p6).spec_add(p7).spec_sub(p4).spec_sub(p8).spec_add(p9).spec_sub(p10).spec_add(p6).spec_add(p11), p9, p3);
    lemma_swap_aa(p1.spec_sub(p1).spec_add(p2).spec_sub(p2).spec_sub(p3).spec_add(p4).spec_add(p5).spec_sub(p6).spec_add(p7).spec_sub(p4).spec_sub(p8).spec_add(p9).spec_sub(p10).spec_add(p6), p11, p3);
    lemma_swap_aa(p1.spec_sub(p1).spec_add(p2).spec_sub(p2).spec_sub(p3).spec_add(p4).spec_add(p5).spec_sub(p6).spec_add(p7).spec_sub(p4).spec_sub(p8).spec_add(p9).spec_sub(p10), p6, p3);
    lemma_swap_sa(p1.spec_sub(p1).spec_add(p2).spec_sub(p2).spec_sub(p3).spec_add(p4).spec_add(p5).spec_sub(p6).spec_add(p7).spec_sub(p4).spec_sub(p8).spec_add(p9), p10, p3);
    lemma_swap_aa(p1.spec_sub(p1).spec_add(p2).spec_sub(p2).spec_sub(p3).spec_add(p4).spec_add(p5).spec_sub(p6).spec_add(p7).spec_sub(p4).spec_sub(p8), p9, p3);
    lemma_swap_sa(p1.spec_sub(p1).spec_add(p2).spec_sub(p2).spec_sub(p3).spec_add(p4).spec_add(p5).spec_sub(p6).spec_add(p7).spec_sub(p4), p8, p3);
    lemma_swap_sa(p1.spec_sub(p1).spec_add(p2).spec_sub(p2).spec_sub(p3).spec_add(p4).spec_add(p5).spec_sub(p6).spec_add(p7), p4, p3);
    lemma_swap_aa(p1.spec_sub(p1).spec_add(p2).spec_sub(p2).spec_sub(p3).spec_add(p4).spec_add(p5).spec_sub(p6), p7, p3);
    lemma_swap_sa(p1.spec_sub(p1).spec_add(p2).spec_sub(p2).spec_sub(p3).spec_add(p4).spec_add(p5), p6, p3);
    lemma_swap_aa(p1.spec_sub(p1).spec_add(p2).spec_sub(p2).spec_sub(p3).spec_add(p4), p5, p3);
    lemma_swap_aa(p1.spec_sub(p1).spec_add(p2).spec_sub(p2).spec_sub(p3), p4, p3);
    lemma_swap_sa(p1.spec_sub(p1).spec_add(p2).spec_sub(p2), p3, p3);
    lemma_swap_as(p1.spec_sub(p1).spec_add(p2).spec_sub(p2).spec_add(p3).spec_sub(p3).spec_add(p4).spec_add(p5).spec_sub(p6), p7, p4);
    lemma_swap_ss(p1.spec_sub(p1).spec_add(p2).spec_sub(p2).spec_add(p3).spec_sub(p3).spec_add(p4).spec_add(p5), p6, p4);
    lemma_swap_as(p1.spec_sub(p1).spec_add(p2).spec_sub(p2).spec_add(p3).spec_sub(p3).spec_add(p4), p5, p4);
    lemma_swap_as(p1.spec_sub(p1).spec_add(p2).spec_sub(p2).spec_add(p3).spec_sub(p3).spec_add(p4).spec_sub(p4).spec_add(p5).spec_sub(p6).spec_add(p7).spec_sub(p8).spec_add(p9).spec_sub(p10).spec_add(p6).spec_add(p11).spec_sub(p9).spec_sub(p12), p10, p5);
    lemma_swap_ss(p1.spec_sub(p1).spec_add(p2).spec_sub(p2).spec_add(p3).spec_sub(p3).spec_add(p4).spec_sub(p4).spec_add(p5).spec_sub(p6).spec_add(p7).spec_sub(p8).spec_add(p9).spec_sub(p10).spec_add(p6).spec_add(p11).spec_sub(p9), p12, p5);
    lemma_swap_ss(p1.spec_sub(p1).spec_add(p2).spec_sub(p2).spec_add(p3).spec_sub(p3).spec_add(p4).spec_sub(p4).spec_add(p5).spec_sub(p6).spec_add(p7).spec_sub(p8).spec_add(p9).spec_sub(p10).spec_add(p6).spec_add(p11), p9, p5);
    lemma_swap_as(p1.spec_sub(p1).spec_add(p2).spec_sub(p2).spec_add(p3).spec_sub(p3).spec_add(p4).spec_sub(p4).spec_add(p5).spec_sub(p6).spec_add(p7).spec_sub(p8).spec_add(p9).spec_sub(p10).spec_add(p6), p11, p5);
    lemma_swap_as(p1.spec_sub(p1).spec_add(p2).spec_sub(p2).spec_add(p3).spec_sub(p3).spec_add(p4).spec_sub(p4).spec_add(p5).spec_sub(p6).spec_add(p7).spec_sub(p8).spec_add(p9).spec_sub(p10), p6, p5);
    lemma_swap_ss(p1.spec_sub(p1).spec_add(p2).spec_sub(p2).spec_add(p3).spec_sub(p3).spec_add(p4).spec_sub(p4).spec_add(p5).spec_sub(p6).spec_add(p7).spec_sub(p8).spec_add(p9), p10, p5);
    lemma_swap_as(p1.spec_sub(p1).spec_add(p2).spec_sub(p2).spec_add(p3).spec_sub(p3).spec_add(p4).spec_sub(p4).spec_add(p5).spec_sub(p6).spec_add(p7).spec_sub(p8), p9, p5);
    lemma_swap_ss(p1.spec_sub(p1).spec_add(p2).spec_sub(p2).spec_add(p3).spec_sub(p3).spec_add(p4).spec_sub(p4).spec_add(p5).spec_sub(p6).spec_add(p7), p8, p5);
    lemma_swap_as(p1.spec_sub(p1).spec_add(p2).spec_sub(p2).spec_add(p3).spec_sub(p3).spec_add(p4).spec_sub(p4).spec_add(p5).spec_sub(p6), p7, p5);
    lemma_swap_ss(p1.spec_sub(p1).spec_add(p2).spec_sub(p2).spec_add(p3).spec_sub(p3).spec_add(p4).spec_sub(p4).spec_add(p5), p6, p5);
    lemma_swap_sa(p1.spec_sub(p1).spec_add(p2).spec_sub(p2).spec_add(p3).spec_sub(p3).spec_add(p4).spec_sub(p4).spec_add(p5).spec_sub(p5).spec_sub(p6).spec_add(p7).spec_sub(p8).spec_add(p9), p10, p6);
    lemma_swap_aa(p1.spec_sub(p1).spec_add(p2).spec_sub(p2).spec_add(p3).spec_sub(p3).spec_add(p4).spec_sub(p4).spec_add(p5).spec_sub(p5).spec_sub(p6).spec_add(p7).spec_sub(p8), p9, p6);
    lemma_swap_sa(p1.spec_sub(p1).spec_add(p2).spec_sub(p2).spec_add(p3).spec_sub(p3).spec_add(p4).spec_sub(p4).spec_add(p5).spec_sub(p5).spec_sub(p6).spec_add(p7), p8, p6);
    lemma_swap_aa(p1.spec_sub(p1).spec_add(p2).spec_sub(p2).spec_add(p3).spec_sub(p3).spec_add(p4).spec_sub(p4).spec_add(p5).spec_sub(p5).spec_sub(p6), p7, p6);
    lemma_swap_sa(p1.spec_sub(p1).spec_add(p2).spec_sub(p2).spec_add(p3).spec_sub(p3).spec_add(p4).spec_sub(p4).spec_add(p5).spec_sub(p5), p6, p6);
    lemma_swap_as(p1.spec_sub(p1).spec_add(p2).spec_sub(p2).spec_add(p3).spec_sub(p3).spec_add(p4).spec_sub(p4).spec_add(p5).spec_sub(p5).spec_add(p6).spec_sub(p6).spec_add(p7).spec_sub(p8).spec_add(p9).spec_sub(p10).spec_add(p11).spec_sub(p9).spec_sub(p12).spec_add(p10).spec_add(p12).spec_sub(p11), p8, p7);
    lemma_swap_ss(p1.spec_sub(p1).spec_add(p2).spec_sub(p2).spec_add(p3).spec_sub(p3).spec_add(p4).spec_sub(p4).spec_add(p5).spec_sub(p5).spec_add(p6).spec_sub(p6).spec_add(p7).spec_sub(p8).spec_add(p9).spec_sub(p10).spec_add(p11).spec_sub(p9).spec_sub(p12).spec_add(p10).spec_add(p12), p11, p7);
    lemma_swap_as(p1.spec_sub(p1).spec_add(p2).spec_sub(p2).spec_add(p3).spec_sub(p3).spec_add(p4).spec_sub(p4).spec_add(p5).spec_sub(p5).spec_add(p6).spec_sub(p6).spec_add(p7).spec_sub(p8).spec_add(p9).spec_sub(p10).spec_add(p11).spec_sub(p9).spec_sub(p12).spec_add(p10), p12, p7);
    lemma_swap_as(p1.spec_sub(p1).spec_add(p2).spec_sub(p2).spec_add(p3).spec_sub(p3).spec_add(p4).spec_sub(p4).spec_add(p5).spec_sub(p5).spec_add(p6).spec_sub(p6).spec_add(p7).spec_sub(p8).spec_add(p9).spec_sub(p10).spec_add(p11).spec_sub(p9).spec_sub(p12), p10, p7);
    lemma_swap_ss(p1.spec_sub(p1).spec_add(p2).spec_sub(p2).spec_add(p3).spec_sub(p3).spec_add(p4).spec_sub(p4).spec_add(p5).spec_sub(p5).spec_add(p6).spec_sub(p6).spec_add(p7).spec_sub(p8).spec_add(p9).spec_sub(p10).spec_add(p11).spec_sub(p9), p12, p7);
    lemma_swap_ss(p1.spec_sub(p1).spec_add(p2).spec_sub(p2).spec_add(p3).spec_sub(p3).spec_add(p4).spec_sub(p4).spec_add(p5).spec_sub(p5).spec_add(p6).spec_sub(p6).spec_add(p7).spec_sub(p8).spec_add(p9).spec_sub(p10).spec_add(p11), p9, p7);
    lemma_swap_as(p1.spec_sub(p1).spec_add(p2).spec_sub(p2).spec_add(p3).spec_sub(p3).spec_add(p4).spec_sub(p4).spec_add(p5).spec_sub(p5).spec_add(p6).spec_sub(p6).spec_add(p7).spec_sub(p8).spec_add(p9).spec_sub(p10), p11, p7);
    lemma_swap_ss(p1.spec_sub(p1).spec_add(p2).spec_sub(p2).spec_add(p3).spec_sub(p3).spec_add(p4).spec_sub(p4).spec_add(p5).spec_sub(p5).spec_add(p6).spec_sub(p6).spec_add(p7).spec_sub(p8).spec_add(p9), p10, p7);
    lemma_swap_as(p1.spec_sub(p1).spec_add(p2).spec_sub(p2).spec_add(p3).spec_sub(p3).spec_add(p4).spec_sub(p4).spec_add(p5).spec_sub(p5).spec_add(p6).spec_sub(p6).spec_add(p7).spec_sub(p8), p9, p7);
    lemma_swap_ss(p1.spec_sub(p1).spec_add(p2).spec_sub(p2).spec_add(p3).spec_sub(p3).spec_add(p4).spec_sub(p4).spec_add(p5).spec_sub(p5).spec_add(p6).spec_sub(p6).spec_add(p7), p8, p7);
    lemma_swap_sa(p1.spec_sub(p1).spec_add(p2).spec_sub(p2).spec_add(p3).spec_sub(p3).spec_add(p4).spec_sub(p4).spec_add(p5).spec_sub(p5).spec_add(p6).spec_sub(p6).spec_add(p7).spec_sub(p7).spec_sub(p8).spec_add(p9).spec_sub(p10).spec_add(p11).spec_sub(p9).spec_sub(p12).spec_add(p10).spec_add(p12), p11, p8);
    lemma_swap_aa(p1.spec_sub(p1).spec_add(p2).spec_sub(p2).spec_add(p3).spec_sub(p3).spec_add(p4).spec_sub(p4).spec_add(p5).spec_sub(p5).spec_add(p6).spec_sub(p6).spec_add(p7).spec_sub(p7).spec_sub(p8).spec_add(p9).spec_sub(p10).spec_add(p11).spec_sub(p9).spec_sub(p12).spec_add(p10), p12, p8);
    lemma_swap_aa(p1.spec_sub(p1).spec_add(p2).spec_sub(p2).spec_add(p3).spec_sub(p3).spec_add(p4).spec_sub(p4).spec_add(p5).spec_sub(p5).spec_add(p6).spec_sub(p6).spec_add(p7).spec_sub(p7).spec_sub(p8).spec_add(p9).spec_sub(p10).spec_add(p11).spec_sub(p9).spec_sub(p12), p10, p8);
    lemma_swap_sa(p1.spec_sub(p1).spec_add(p2).spec_sub(p2).spec_add(p3).spec_sub(p3).spec_add(p4).spec_sub(p4).spec_add(p5).spec_sub(p5).spec_add(p6).spec_sub(p6).spec_add(p7).spec_sub(p7).spec_sub(p8).spec_add(p9).spec_sub(p10).spec_add(p11).spec_sub(p9), p12, p8);
    lemma_swap_sa(p1.spec_sub(p1).spec_add(p2).spec_sub(p2).spec_add(p3).spec_sub(p3).spec_add(p4).spec_sub(p4).spec_add(p5).spec_sub(p5).spec_add(p6).spec_sub(p6).spec_add(p7).spec_sub(p7).spec_sub(p8).spec_add(p9).spec_sub(p10).spec_add(p11), p9, p8);
    lemma_swap_aa(p1.spec_sub(p1).spec_add(p2).spec_sub(p2).spec_add(p3).spec_sub(p3).spec_add(p4).spec_sub(p4).spec_add(p5).spec_sub(p5).spec_add(p6).spec_sub(p6).spec_add(p7).spec_sub(p7).spec_sub(p8).spec_add(p9).spec_sub(p10), p11, p8);
    lemma_swap_sa(p1.spec_sub(p1).spec_add(p2).spec_sub(p2).spec_add(p3).spec_sub(p3).spec_add(p4).spec_sub(p4).spec_add(p5).spec_sub(p5).spec_add(p6).spec_sub(p6).spec_add(p7).spec_sub(p7).spec_sub(p8).spec_add(p9), p10, p8);
    lemma_swap_aa(p1.spec_sub(p1).spec_add(p2).spec_sub(p2).spec_add(p3).spec_sub(p3).spec_add(p4).spec_sub(p4).spec_add(p5).spec_sub(p5).spec_add(p6).spec_sub(p6).spec_add(p7).spec_sub(p7).spec_sub(p8), p9, p8);
    lemma_swap_sa(p1.spec_sub(p1).spec_add(p2).spec_sub(p2).spec_add(p3).spec_sub(p3).spec_add(p4).spec_sub(p4).spec_add(p5).spec_sub(p5).spec_add(p6).spec_sub(p6).spec_add(p7).spec_sub(p7), p8, p8);
    lemma_swap_as(p1.spec_sub(p1).spec_add(p2).spec_sub(p2).spec_add(p3).spec_sub(p3).spec_add(p4).spec_sub(p4).spec_add(p5).spec_sub(p5).spec_add(p6).spec_sub(p6).spec_add(p7).spec_sub(p7).spec_add(p8).spec_sub(p8).spec_add(p9).spec_sub(p10), p11, p9);
    lemma_swap_ss(p1.spec_sub(p1).spec_add(p2).spec_sub(p2).spec_add(p3).spec_sub(p3).spec_add(p4).spec_sub(p4).spec_add(p5).spec_sub(p5).spec_add(p6).spec_sub(p6).spec_add(p7).spec_sub(p7).spec_add(p8).spec_sub(p8).spec_add(p9), p10, p9);
    lemma_swap_sa(p1.spec_sub(p1).spec_add(p2).spec_sub(p2).spec_add(p3).spec_sub(p3).spec_add(p4).spec_sub(p4).spec_add(p5).spec_sub(p5).spec_add(p6).spec_sub(p6).spec_add(p7).spec_sub(p7).spec_add(p8).spec_sub(p8).spec_add(p9).spec_sub(p9).spec_sub(p10).spec_add(p11), p12, p10);
    lemma_swap_aa(p1.spec_sub(p1).spec_add(p2).spec_sub(p2).spec_add(p3).spec_sub(p3).spec_add(p4).spec_sub(p4).spec_add(p5).spec_sub(p5).spec_add(p6).spec_sub(p6).spec_add(p7).spec_sub(p7).spec_add(p8).spec_sub(p8).spec_add(p9).spec_sub(p9).spec_sub(p10), p11, p10);
    lemma_swap_sa(p1.spec_sub(p1).spec_add(p2).spec_sub(p2).spec_add(p3).spec_sub(p3).spec_add(p4).spec_sub(p4).spec_add(p5).spec_sub(p5).spec_add(p6).spec_sub(p6).spec_add(p7).spec_sub(p7).spec_add(p8).spec_sub(p8).spec_add(p9).spec_sub(p9), p10, p10);
    lemma_swap_as(p1.spec_sub(p1).spec_add(p2).spec_sub(p2).spec_add(p3).spec_sub(p3).spec_add(p4).spec_sub(p4).spec_add(p5).spec_sub(p5).spec_add(p6).spec_sub(p6).spec_add(p7).spec_sub(p7).spec_add(p8).spec_sub(p8).spec_add(p9).spec_sub(p9).spec_add(p10).spec_sub(p10).spec_add(p11).spec_sub(p12), p12, p11);
    lemma_swap_ss(p1.spec_sub(p1).spec_add(p2).spec_sub(p2).spec_add(p3).spec_sub(p3).spec_add(p4).spec_sub(p4).spec_add(p5).spec_sub(p5).spec_add(p6).spec_sub(p6).spec_add(p7).spec_sub(p7).spec_add(p8).spec_sub(p8).spec_add(p9).spec_sub(p9).spec_add(p10).spec_sub(p10).spec_add(p11), p12, p11);
    lemma_swap_sa(p1.spec_sub(p1).spec_add(p2).spec_sub(p2).spec_add(p3).spec_sub(p3).spec_add(p4).spec_sub(p4).spec_add(p5).spec_sub(p5).spec_add(p6).spec_sub(p6).spec_add(p7).spec_sub(p7).spec_add(p8).spec_sub(p8).spec_add(p9).spec_sub(p9).spec_add(p10).spec_sub(p10).spec_add(p11).spec_sub(p11), p12, p12);
    lemma_self_cancel(p1);
    lemma_cancel_adj(p1.spec_sub(p1), p2);
    lemma_cancel_adj(p1.spec_sub(p1).spec_add(p2).spec_sub(p2), p3);
    lemma_cancel_adj(p1.spec_sub(p1).spec_add(p2).spec_sub(p2).spec_add(p3).spec_sub(p3), p4);
    lemma_cancel_adj(p1.spec_sub(p1).spec_add(p2).spec_sub(p2).spec_add(p3).spec_sub(p3).spec_add(p4).spec_sub(p4), p5);
    lemma_cancel_adj(p1.spec_sub(p1).spec_add(p2).spec_sub(p2).spec_add(p3).spec_sub(p3).spec_add(p4).spec_sub(p4).spec_add(p5).spec_sub(p5), p6);
    lemma_cancel_adj(p1.spec_sub(p1).spec_add(p2).spec_sub(p2).spec_add(p3).spec_sub(p3).spec_add(p4).spec_sub(p4).spec_add(p5).spec_sub(p5).spec_add(p6).spec_sub(p6), p7);
    lemma_cancel_adj(p1.spec_sub(p1).spec_add(p2).spec_sub(p2).spec_add(p3).spec_sub(p3).spec_add(p4).spec_sub(p4).spec_add(p5).spec_sub(p5).spec_add(p6).spec_sub(p6).spec_add(p7).spec_sub(p7), p8);
    lemma_cancel_adj(p1.spec_sub(p1).spec_add(p2).spec_sub(p2).spec_add(p3).spec_sub(p3).spec_add(p4).spec_sub(p4).spec_add(p5).spec_sub(p5).spec_add(p6).spec_sub(p6).spec_add(p7).spec_sub(p7).spec_add(p8).spec_sub(p8), p9);
    lemma_cancel_adj(p1.spec_sub(p1).spec_add(p2).spec_sub(p2).spec_add(p3).spec_sub(p3).spec_add(p4).spec_sub(p4).spec_add(p5).spec_sub(p5).spec_add(p6).spec_sub(p6).spec_add(p7).spec_sub(p7).spec_add(p8).spec_sub(p8).spec_add(p9).spec_sub(p9), p10);
    lemma_cancel_adj(p1.spec_sub(p1).spec_add(p2).spec_sub(p2).spec_add(p3).spec_sub(p3).spec_add(p4).spec_sub(p4).spec_add(p5).spec_sub(p5).spec_add(p6).spec_sub(p6).spec_add(p7).spec_sub(p7).spec_add(p8).spec_sub(p8).spec_add(p9).spec_sub(p9).spec_add(p10).spec_sub(p10), p11);
    lemma_cancel_adj(p1.spec_sub(p1).spec_add(p2).spec_sub(p2).spec_add(p3).spec_sub(p3).spec_add(p4).spec_sub(p4).spec_add(p5).spec_sub(p5).spec_add(p6).spec_sub(p6).spec_add(p7).spec_sub(p7).spec_add(p8).spec_sub(p8).spec_add(p9).spec_sub(p9).spec_add(p10).spec_sub(p10).spec_add(p11).spec_sub(p11), p12);
}

pub(crate) proof fn lemma_inv_entry12<T: Scalar>(a: Seq<T>)
    requires
        a.len() == 16,
        field_sealed::<T>(),
        !det_seq(a).spec_is_zero(),
    ensures
        mul_seq(inverse_seq(a), a)[12] == T::spec_zero(),
{
    lemma_field_gives_ring::<T>();
    let inv = inverse_seq(a);
    let inv_d = T::spec_one().spec_div(det_seq(a));
    let b00 = minor2(a, 0, 5, 1, 4);
    let b01 = minor2(a, 0, 6, 2, 4);
    let b02 = minor2(a, 0, 7, 3, 4);
    let b03 = minor2(a, 1, 6, 2, 5);
    let b04 = minor2(a, 1, 7, 3, 5);
    let b05 = minor2(a, 2, 7, 3, 6);
    let b06 = minor2(a, 8, 13, 9, 12);
    let b07 = minor2(a, 8, 14, 10, 12);
    let b08 = minor2(a, 8, 15, 11, 12);
    let b09 = minor2(a, 9, 14, 10, 13);
    let b10 = minor2(a, 9, 15, 11, 13);
    let b11 = minor2(a, 10, 15, 11, 14);
    assert(mul_seq(inv, a)[12] == a[12].spec_mul(inv[0]).spec_add(a[13].spec_mul(inv[4])).spec_add(a[14].spec_mul(inv[8])).spec_add(a[15].spec_mul(inv[12])));
    assert(inv[0] == a[5].spec_mul(b11).spec_sub(a[6].spec_mul(b10)).spec_add(a[7].spec_mul(b09)).spec_mul(inv_d));
    assert(inv[4] == a[6].spec_mul(b08).spec_sub(a[4].spec_mul(b11)).spec_sub(a[7].spec_mul(b07)).spec_mul(inv_d));
    assert(inv[8] == a[4].spec_mul(b10).spec_sub(a[5].spec_mul(b08)).spec_add(a[7].spec_mul(b06)).spec_mul(inv_d));
    assert(inv[12] == a[5].spec_mul(b07).spec_sub(a[4].spec_mul(b09)).spec_sub(a[6].spec_mul(b06)).spec_mul(inv_d));
    lemma_mul_assoc(a[12], a[5].spec_mul(b11).spec_sub(a[6].spec_mul(b10)).spec_add(a[7].spec_mul(b09)), inv_d);
    lemma_mul_assoc(a[13], a[6].spec_mul(b08).spec_sub(a[4].spec_mul(b11)).spec_sub(a[7].spec_mul(b07)), inv_d);
    lemma_mul_assoc(a[14], a[4].spec_mul(b10).spec_sub(a[5].spec_mul(b08)).spec_add(a[7].spec_mul(b06)), inv_d);
    lemma_mul_assoc(a[15], a[5].spec_mul(b07).spec_sub(a[4].spec_mul(b09)).spec_sub(a[6].spec_mul(b06)), inv_d);
    lemma_factor4(
        a[12].spec_mul(a[5].spec_mul(b11).spec_sub(a[6].spec_mul(b10)).spec_add(a[7].spec_mul(b09))),
        a[13].spec_mul(a[6].spec_mul(b08).spec_sub(a[4].spec_mul(b11)).spec_sub(a[7].spec_mul(b07))),
        a[14].spec_mul(a[4].spec_mul(b10).spec_sub(a[5].spec_mul(b08)).spec_add(a[7].spec_mul(b06))),
        a[15].spec_mul(a[5].spec_mul(b07).spec_sub(a[4].spec_mul(b09)).spec_sub(a[6].spec_mul(b06))),
        inv_d,
    );
    lemma_distrib3_pmp(a[12], a[5].spec_mul(b11), a[6].spec_mul(b10), a[7].spec_mul(b09));
    lemma_mul_assoc(a[12], a[5], b11);
    lemma_mul_comm(a[12], a[5]);
    lemma_mul_assoc(a[12], a[6], b10);
    lemma_mul_comm(a[12], a[6]);
    lemma_mul_assoc(a[12], a[7], b09);
    lemma_mul_comm(a[12], a[7]);
    lemma_distrib3_pmm(a[13], a[6].spec_mul(b08), a[4].spec_mul(b11), a[7].spec_mul(b07));
    lemma_mul_assoc(a[13], a[6], b08);
    lemma_mul_comm(a[13], a[6]);
    lemma_mul_assoc(a[13], a[4], b11);
    lemma_mul_comm(a[13], a[4]);
    lemma_mul_assoc(a[13], a[7], b07);
    lemma_mul_comm(a[13], a[7]);
    lemma_distrib3_pmp(a[14], a[4].spec_mul(b10), a[5].spec_mul(b08), a[7].spec_mul(b06));
    lemma_mul_assoc(a[14], a[4], b10);
    lemma_mul_comm(a[14], a[4]);
    lemma_mul_assoc(a[14], a[5], b08);
    lemma_mul_comm(a[14], a[5]);
    lemma_mul_assoc(a[14], a[7], b06);
    lemma_mul_comm(a[14], a[7]);
    lemma_distrib3_pmm(a[15], a[5].spec_mul(b07), a[4].spec_mul(b09), a[6].spec_mul(b06));
    lemma_mul_assoc(a[15], a[5], b07);
    lemma_mul_comm(a[15], a[5]);
    lemma_mul_assoc(a[15], a[4], b09);
    lemma_mul_comm(a[15], a[4]);
    lemma_mul_assoc(a[15], a[6], b06);
    lemma_mul_comm(a[15], a[6]);
    lemma_append3_pmm(
        a[5].spec_mul(a[12]).spec_mul(b11).spec_sub(a[6].spec_mul(a[12]).spec_mul(b10)).spec_add(a[7].spec_mul(a[12]).spec_mul(b09)),
        a[6].spec_mul(a[13]).spec_mul(b08),
        a[4].spec_mul(a[13]).spec_mul(b11),
        a[7].spec_mul(a[13]).spec_mul(b07),
    );
    lemma_append3_pmp(
        a[5].spec_mul(a[12]).spec_mul(b11).spec_sub(a[6].spec_mul(a[12]).spec_mul(b10)).spec_add(a[7].spec_mul(a[12]).spec_mul(b09)).spec_add(a[6].spec_mul(a[13]).spec_mul(b08)).spec_sub(a[4].spec_mul(a[13]).spec_mul(b11)).spec_sub(a[7].spec_mul(a[13]).spec_mul(b07)),
        a[4].spec_mul(a[14]).spec_mul(b10),
        a[5].spec_mul(a[14]).spec_mul(b08),
        a[7].spec_mul(a[14]).spec_mul(b06),
    );
    lemma_append3_pmm(
        a[5].spec_mul(a[12]).spec_mul(b11).spec_sub(a[6].spec_mul(a[12]).spec_mul(b10)).spec_add(a[7].spec_mul(a[12]).spec_mul(b09)).spec_add(a[6].spec_mul(a[13]).spec_mul(b08)).spec_sub(a[4].spec_mul(a[13]).spec_mul(b11)).spec_sub(a[7].spec_mul(a[13]).spec_mul(b07)).spec_add(a[4].spec_mul(a[14]).spec_mul(b10)).spec_sub(a[5].spec_mul(a[14]).spec_mul(b08)).spec_add(a[7].spec_mul(a[14]).spec_mul(b06)),
        a[5].spec_mul(a[15]).spec_mul(b07),
        a[4].spec_mul(a[15]).spec_mul(b09),
        a[6].spec_mul(a[15]).spec_mul(b06),
    );
    let c5x10x12x15 = a[5].spec_mul(a[10]).spec_mul(a[12].spec_mul(a[15]));
    let c5x11x12x14 = a[5].spec_mul(a[11]).spec_mul(a[12].spec_mul(a[14]));
    let c6x9x12x15 = a[6].spec_mul(a[9]).spec_mul(a[12].spec_mul(a[15]));
    let c6x11x12x13 = a[6].spec_mul(a[11]).spec_mul(a[12].spec_mul(a[13]));
    let c7x9x12x14 = a[7].spec_mul(a[9]).spec_mul(a[12].spec_mul(a[14]));
    let c7x10x12x13 = a[7].spec_mul(a[10]).spec_mul(a[12].spec_mul(a[13]));
    let c6x8x13x15 = a[6].spec_mul(a[8]).spec_mul(a[13].spec_mul(a[15]));
    let c4x10x13x15 = a[4].spec_mul(a[10]).spec_mul(a[13].spec_mul(a[15]));
    let c4x11x13x14 = a[4].spec_mul(a[11]).spec_mul(a[13].spec_mul(a[14]));
    let c7x8x13x14 = a[7].spec_mul(a[8]).spec_mul(a[13].spec_mul(a[14]));
    let c4x9x14x15 = a[4].spec_mul(a[9]).spec_mul(a[14].spec_mul(a[15]));
    let c5x8x14x15 = a[5].spec_mul(a[8]).spec_mul(a[14].spec_mul(a[15]));
    lemma_distrib2(a[5].spec_mul(a[12]), a[10].spec_mul(a[15]), a[11].spec_mul(a[14]));
    lemma_distrib2(a[6].spec_mul(a[12]), a[9].spec_mul(a[15]), a[11].spec_mul(a[13]));
    lemma_distrib2(a[7].spec_mul(a[12]), a[9].spec_mul(a[14]), a[10].spec_mul(a[13]));
    lemma_distrib2(a[6].spec_mul(a[13]), a[8].spec_mul(a[15]), a[11].spec_mul(a[12]));
    lemma_distrib2(a[4].spec_mul(a[13]), a[10].spec_mul(a[15]), a[11].spec_mul(a[14]));
    lemma_distrib2(a[7].spec_mul(a[13]), a[8].spec_mul(a[14]), a[10].spec_mul(a[12]));
    lemma_distrib2(a[4].spec_mul(a[14]), a[9].spec_mul(a[15]), a[11].spec_mul(a[13]));
    lemma_distrib2(a[5].spec_mul(a[14]), a[8].spec_mul(a[15]), a[11].spec_mul(a[12]));
    lemma_distrib2(a[7].spec_mul(a[14]), a[8].spec_mul(a[13]), a[9].spec_mul(a[12]));
    lemma_distrib2(a[5].spec_mul(a[15]), a[8].spec_mul(a[14]), a[10].spec_mul(a[12]));
    lemma_distrib2(a[4].spec_mul(a[15]), a[9].spec_mul(a[14]), a[10].spec_mul(a[13]));
    lemma_distrib2(a[6].spec_mul(a[15]), a[8].spec_mul(a[13]), a[9].spec_mul(a[12]));
    lemma_mul4_rearrange(a[5], a[12], a[10], a[15]);
    lemma_mul4_rearrange(a[5], a[12], a[11], a[14]);
    lemma_mul4_rearrange(a[6], a[12], a[9], a[15]);
    lemma_mul4_rearrange(a[6], a[12], a[11], a[13]);
    lemma_mul4_rearrange(a[7], a[12], a[9], a[14]);
    lemma_mul4_rearrange(a[7], a[12], a[10], a[13]);
    lemma_mul4_rearrange(a[6], a[13], a[8], a[15]);
    lemma_mul4_rearrange(a[6], a[13], a[11], a[12]);
    lemma_mul_comm(a[13], a[12]);
    lemma_mul4_rearrange(a[4], a[13], a[10], a[15]);
    lemma_mul4_rearrange(a[4], a[13], a[11], a[14]);
    lemma_mul4_rearrange(a[7], a[13], a[8], a[14]);
    lemma_mul4_rearrange(a[7], a[13], a[10], a[12]);
    lemma_mul4_rearrange(a[4], a[14], a[9], a[15]);
    lemma_mul4_rearrange(a[4], a[14], a[11], a[13]);
    lemma_mul_comm(a[14], a[13]);
    lemma_mul4_rearrange(a[5], a[14], a[8], a[15]);
    lemma_mul4_rearrange(a[5], a[14], a[11], a[12]);
    lemma_mul_comm(a[14], a[12]);
    lemma_mul4_rearrange(a[7], a[14], a[8], a[13]);
    lemma_mul4_rearrange(a[7], a[14], a[9], a[12]);
    lemma_mul4_rearrange(a[5], a[15], a[8], a[14]);
    lemma_mul_comm(a[15], a[14]);
    lemma_mul4_rearrange(a[5], a[15], a[10], a[12]);
    lemma_mul_comm(a[15], a[12]);
    lemma_mul4_rearrange(a[4], a[15], a[9], a[14]);
    lemma_mul4_rearrange(a[4], a[15], a[10], a[13]);
    lemma_mul_comm(a[15], a[13]);
    lemma_mul4_rearrange(a[6], a[15], a[8], a[13]);
    lemma_mul4_rearrange(a[6], a[15], a[9], a[12]);
    lemma_append2_neg(
        c5x10x12x15.spec_sub(c5x11x12x14),
        c6x9x12x15,
        c6x11x12x13,
    );
    lemma_append2_pos(
        c5x10x12x15.spec_sub(c5x11x12x14).spec_sub(c6x9x12x15).spec_add(c6x11x12x13),
        c7x9x12x14,
        c7x10x12x13,
    );
    lemma_append2_pos(
        c5x10x12x15.spec_sub(c5x11x12x14).spec_sub(c6x9x12x15).spec_add(c6x11x12x13).spec_add(c7x9x12x14).spec_sub(c7x10x12x13),
        c6x8x13x15,
        c6x11x12x13,
    );
    lemma_append2_neg(
        c5x10x12x15.spec_sub(c5x11x12x14).spec_sub(c6x9x12x15).spec_add(c6x11x12x13).spec_add(c7x9x12x14).spec_sub(c7x10x12x13).spec_add(c6x8x13x15).spec_sub(c6x11x12x13),
        c4x10x13x15,
        c4x11x13x14,
    );
    lemma_append2_neg(
        c5x10x12x15.spec_sub(c5x11x12x14).spec_sub(c6x9x12x15).spec_add(c6x11x12x13).spec_add(c7x9x12x14).spec_sub(c7x10x12x13).spec_add(c6x8x13x15).spec_sub(c6x11x12x13).spec_sub(c4x10x13x15).spec_add(c4x11x13x14),
        c7x8x13x14,
        c7x10x12x13,
    );
    lemma_append2_pos(
        c5x10x12x15.spec_sub(c5x11x12x14).spec_sub(c6x9x12x15).spec_add(c6x11x12x13).spec_add(c7x9x12x14).spec_sub(c7x10x12x13).spec_add(c6x8x13x15).spec_sub(c6x11x12x13).spec_sub(c4x10x13x15).spec_add(c4x11x13x14).spec_sub(c7x8x13x14).spec_add(c7x10x12x13),
        c4x9x14x15,
        c4x11x13x14,
    );
    lemma_append2_neg(
        c5x10x12x15.spec_sub(c5x11x12x14).spec_sub(c6x9x12x15).spec_add(c6x11x12x13).spec_add(c7x9x12x14).spec_sub(c7x10x12x13).spec_add(c6x8x13x15).spec_sub(c6x11x12x13).spec_sub(c4x10x13x15).spec_add(c4x11x13x14).spec_sub(c7x8x13x14).spec_add(c7x10x12x13).spec_add(c4x9x14x15).spec_sub(c4x11x13x14),
        c5x8x14x15,
        c5x11x12x14,
    );
    lemma_append2_pos(
        c5x10x12x15.spec_sub(c5x11x12x14).spec_sub(c6x9x12x15).spec_add(c6x11x12x13).spec_add(c7x9x12x14).spec_sub(c7x10x12x13).spec_add(c6x8x13x15).spec_sub(c6x11x12x13).spec_sub(c4x10x13x15).spec_add(c4x11x13x14).spec_sub(c7x8x13x14).spec_add(c7x10x12x13).spec_add(c4x9x14x15).spec_sub(c4x11x13x14).spec_sub(c5x8x14x15).spec_add(c5x11x12x14),
        c7x8x13x14,
        c7x9x12x14,
    );
    lemma_append2_pos(
        c5x10x12x15.spec_sub(c5x11x12x14).spec_sub(c6x9x12x15).spec_add(c6x11x12x13).spec_add(c7x9x12x14).spec_sub(c7x10x12x13).spec_add(c6x8x13x15).spec_sub(c6x11x12x13).spec_sub(c4x10x13x15).spec_add(c4x11x13x14).spec_sub(c7x8x13x14).spec_add(c7x10x12x13).spec_add(c4x9x14x15).spec_sub(c4x11x13x14).spec_sub(c5x8x14x15).spec_add(c5x11x12x14).spec_add(c7x8x13x14).spec_sub(c7x9x12x14),
        c5x8x14x15,
        c5x10x12x15,
    );
    lemma_append2_neg(
        c5x10x12x15.spec_sub(c5x11x12x14).spec_sub(c6x9x12x15).spec_add(c6x11x12x13).spec_add(c7x9x12x14).spec_sub(c7x10x12x13).spec_add(c6x8x13x15).spec_sub(c6x11x12x13).spec_sub(c4x10x13x15).spec_add(c4x11x13x14).spec_sub(c7x8x13x14).spec_add(c7x10x12x13).spec_add(c4x9x14x15).spec_sub(c4x11x13x14).spec_sub(c5x8x14x15).spec_add(c5x11x12x14).spec_add(c7x8x13x14).spec_sub(c7x9x12x14).spec_add(c5x8x14x15).spec_sub(c5x10x12x15),
        c4x9x14x15,
        c4x10x13x15,
    );
    lemma_append2_neg(
        c5x10x12x15.spec_sub(c5x11x12x14).spec_sub(c6x9x12x15).spec_add(c6x11x12x13).spec_add(c7x9x12x14).spec_sub(c7x10x12x13).spec_add(c6x8x13x15).spec_sub(c6x11x12x13).spec_sub(c4x10x13x15).spec_add(c4x11x13x14).spec_sub(c7x8x13x14).spec_add(c7x10x12x13).spec_add(c4x9x14x15).spec_sub(c4x11x13x14).spec_sub(c5x8x14x15).spec_add(c5x11x12x14).spec_add(c7x8x13x14).spec_sub(c7x9x12x14).spec_add(c5x8x14x15).spec_sub(c5x10x12x15).spec_sub(c4x9x14x15).spec_add(c4x10x13x15),
        c6x8x13x15,
        c6x9x12x15,
    );
    lemma_inv_chain12(c5x10x12x15, c5x11x12x14, c6x9x12x15, c6x11x12x13, c7x9x12x14, c7x10x12x13, c6x8x13x15, c4x10x13x15, c4x11x13x14, c7x8x13x14, c4x9x14x15, c5x8x14x15);
    lemma_zero_mul(inv_d);
    assert(mul_seq(inv, a)[12] == T::spec_zero());
}

proof fn lemma_inv_chain13<T: Scalar>(p1: T, p2: T, p3: T, p4: T, p5: T, p6: T, p7: T, p8: T, p9: T, p10: T, p11: T, p12: T)
    requires
        laws_sealed::<T>(),
    ensures
        p1.spec_sub(p2).spec_sub(p3).spec_add(p4).spec_sub(p5).spec_add(p6).spec_add(p7).spec_sub(p8).spec_sub(p9).spec_add(p2).spec_add(p10).spec_sub(p6).spec_add(p11).spec_sub(p4).spec_sub(p12).spec_add(p8).spec_sub(p10).spec_add(p5).spec_add(p12).spec_sub(p7).spec_sub(p11).spec_add(p3).spec_add(p9).spec_sub(p1) == T::spec_zero(),
{
    lemma_swap_as(p1.spec_sub(p2).spec_sub(p3).spec_add(p4).spec_sub(p5).spec_add(p6).spec_add(p7).spec_sub(p8).spec_sub(p9).spec_add(p2).spec_add(p10).spec_sub(p6).spec_add(p11).spec_sub(p4).spec_sub(p12).spec_add(p8).spec_sub(p10).spec_add(p5).spec_add(p12).spec_sub(p7).spec_sub(p11).spec_add(p3), p9, p1);
    lemma_swap_as(p1.spec_sub(p2).spec_sub(p3).spec_add(p4).spec_sub(p5).spec_add(p6).spec_add(p7).spec_sub(p8).spec_sub(p9).spec_add(p2).spec_add(p10).spec_sub(p6).spec_add(p11).spec_sub(p4).spec_sub(p12).spec_add(p8).spec_sub(p10).spec_add(p5).spec_add(p12).spec_sub(p7).spec_sub(p11), p3, p1);
    lemma_swap_ss(p1.spec_sub(p2).spec_sub(p3).spec_add(p4).spec_sub(p5).spec_add(p6).spec_add(p7).spec_sub(p8).spec_sub(p9).spec_add(p2).spec_add(p10).spec_sub(p6).spec_add(p11).spec_sub(p4).spec_sub(p12).spec_add(p8).spec_sub(p10).spec_add(p5).spec_add(p12).spec_sub(p7), p11, p1);
    lemma_swap_ss(p1.spec_sub(p2).spec_sub(p3).spec_add(p4).spec_sub(p5).spec_add(p6).spec_add(p7).spec_sub(p8).spec_sub(p9).spec_add(p2).spec_add(p10).spec_sub(p6).spec_add(p11).spec_sub(p4).spec_sub(p12).spec_add(p8).spec_sub(p10).spec_add(p5).spec_add(p12), p7, p1);
    lemma_swap_as(p1.spec_sub(p2).spec_sub(p3).spec_add(p4).spec_sub(p5).spec_add(p6).spec_add(p7).spec_sub(p8).spec_sub(p9).spec_add(p2).spec_add(p10).spec_sub(p6).spec_add(p11).spec_sub(p4).spec_sub(p12).spec_add(p8).spec_sub(p10).spec_add(p5), p12, p1);
    lemma_swap_as(p1.spec_sub(p2).spec_sub(p3).spec_add(p4).spec_sub(p5).spec_add(p6).spec_add(p7).spec_sub(p8).spec_sub(p9).spec_add(p2).spec_add(p10).spec_sub(p6).spec_add(p11).spec_sub(p4).spec_sub(p12).spec_add(p8).spec_sub(p10), p5, p1);
    lemma_swap_ss(p1.spec_sub(p2).spec_sub(p3).spec_add(p4).spec_sub(p5).spec_add(p6).spec_add(p7).spec_sub(p8).spec_sub(p9).spec_add(p2).spec_add(p10).spec_sub(p6).spec_add(p11).spec_sub(p4).spec_sub(p12).spec_add(p8), p10, p1);
    lemma_swap_as(p1.spec_sub(p2).spec_sub(p3).spec_add(p4).spec_sub(p5).spec_add(p6).spec_add(p7).spec_sub(p8).spec_sub(p9).spec_add(p2).spec_add(p10).spec_sub(p6).spec_add(p11).spec_sub(p4).spec_sub(p12), p8, p1);
    lemma_swap_ss(p1.spec_sub(p2).spec_sub(p3).spec_add(p4).spec_sub(p5).spec_add(p6).spec_add(p7).spec_sub(p8).spec_sub(p9).spec_add(p2).spec_add(p10).spec_sub(p6).spec_add(p11).spec_sub(p4), p12, p1);
    lemma_swap_ss(p1.spec_sub(p2).spec_sub(p3).spec_add(p4).spec_sub(p5).spec_add(p6).spec_add(p7).spec_sub(p8).spec_sub(p9).spec_add(p2).spec_add(p10).spec_sub(p6).spec_add(p11), p4, p1);
    lemma_swap_as(p1.spec_sub(p2).spec_sub(p3).spec_add(p4).spec_sub(p5).spec_add(p6).spec_add(p7).spec_sub(p8).spec_sub(p9).spec_add(p2).spec_add(p10).spec_sub(p6), p11, p1);
    lemma_swap_ss(p1.spec_sub(p2).spec_sub(p3).spec_add(p4).spec_sub(p5).spec_add(p6).spec_add(p7).spec_sub(p8).spec_sub(p9).spec_add(p2).spec_add(p10), p6, p1);
    lemma_swap_as(p1.spec_sub(p2).spec_sub(p3).spec_add(p4).spec_sub(p5).spec_add(p6).spec_add(p7).spec_sub(p8).spec_sub(p9).spec_add(p2), p10, p1);
    lemma_swap_as(p1.spec_sub(p2).spec_sub(p3).spec_add(p4).spec_sub(p5).spec_add(p6).spec_add(p7).spec_sub(p8).spec_sub(p9), p2, p1);
    lemma_swap_ss(p1.spec_sub(p2).spec_sub(p3).spec_add(p4).spec_sub(p5).spec_add(p6).spec_add(p7).spec_sub(p8), p9, p1);
    lemma_swap_ss(p1.spec_sub(p2).spec_sub(p3).spec_add(p4).spec_sub(p5).spec_add(p6).spec_add(p7), p8, p1);
    lemma_swap_as(p1.spec_sub(p2).spec_sub(p3).spec_add(p4).spec_sub(p5).spec_add(p6), p7, p1);
    lemma_swap_as(p1.spec_sub(p2).spec_sub(p3).spec_add(p4).spec_sub(p5), p6, p1);
    lemma_swap_ss(p1.spec_sub(p2).spec_sub(p3).spec_add(p4), p5, p1);
    lemma_swap_as(p1.spec_sub(p2).spec_sub(p3), p4, p1);
    lemma_swap_ss(p1.spec_sub(p2), p3, p1);
    lemma_swap_ss(p1, p2, p1);
    lemma_swap_sa(p1.spec_sub(p1).spec_sub(p2).spec_sub(p3).spec_add(p4).spec_sub(p5).spec_add(p6).spec_add(p7).spec_sub(p8), p9, p2);
    lemma_swap_sa(p1.spec_sub(p1).spec_sub(p2).spec_sub(p3).spec_add(p4).spec_sub(p5).spec_add(p6).spec_add(p7), p8, p2);
    lemma_swap_aa(p1.spec_sub(p1).spec_sub(p2).spec_sub(p3).spec_add(p4).spec_sub(p5).spec_add(p6), p7, p2);
    lemma_swap_aa(p1.spec_sub(p1).spec_sub(p2).spec_sub(p3).spec_add(p4).spec_sub(p5), p6, p2);
    lemma_swap_sa(p1.spec_sub(p1).spec_sub(p2).spec_sub(p3).spec_add(p4), p5, p2);
    lemma_swap_aa(p1.spec_sub(p1).spec_sub(p2).spec_sub(p3), p4, p2);
    lemma_swap_sa(p1.spec_sub(p1).spec_sub(p2), p3, p2);
    lemma_swap_sa(p1.spec_sub(p1), p2, p2);
    lemma_swap_sa(p1.spec_sub(p1).spec_add(p2).spec_sub(p2).spec_sub(p3).spec_add(p4).spec_sub(p5).spec_add(p6).spec_add(p7).spec_sub(p8).spec_sub(p9).spec_add(p10).spec_sub(p6).spec_add(p11).spec_sub(p4).spec_sub(p12).spec_add(p8).spec_sub(p10).spec_add(p5).spec_add(p12).spec_sub(p7), p11, p3);
    lemma_swap_sa(p1.spec_sub(p1).spec_add(p2).spec_sub(p2).spec_sub(p3).spec_add(p4).spec_sub(p5).spec_add(p6).spec_add(p7).spec_sub(p8).spec_sub(p9).spec_add(p10).spec_sub(p6).spec_add(p11).spec_sub(p4).spec_sub(p12).spec_add(p8).spec_sub(p10).spec_add(p5).spec_add(p12), p7, p3);
    lemma_swap_aa(p1.spec_sub(p1).spec_add(p2).spec_sub(p2).spec_sub(p3).spec_add(p4).spec_sub(p5).spec_add(p6).spec_add(p7).spec_sub(p8).spec_sub(p9).spec_add(p10).spec_sub(p6).spec_add(p11).spec_sub(p4).spec_sub(p12).spec_add(p8).spec_sub(p10).spec_add(p5), p12, p3);
    lemma_swap_aa(p1.spec_sub(p1).spec_add(p2).spec_sub(p2).spec_sub(p3).spec_add(p4).spec_sub(p5).spec_add(p6).spec_add(p7).spec_sub(p8).spec_sub(p9).spec_add(p10).spec_sub(p6).spec_add(p11).spec_sub(p4).spec_sub(p12).spec_add(p8).spec_sub(p10), p5, p3);
    lemma_swap_sa(p1.spec_sub(p1).spec_add(p2).spec_sub(p2).spec_sub(p3).spec_add(p4).spec_sub(p5).spec_add(p6).spec_add(p7).spec_sub(p8).spec_sub(p9).spec_add(p10).spec_sub(p6).spec_add(p11).spec_sub(p4).spec_sub(p12).spec_add(p8), p10, p3);
    lemma_swap_aa(p1.spec_sub(p1).spec_add(p2).spec_sub(p2).spec_sub(p3).spec_add(p4).spec_sub(p5).spec_add(p6).spec_add(p7).spec_sub(p8).spec_sub(p9).spec_add(p10).spec_sub(p6).spec_add(p11).spec_sub(p4).spec_sub(p12), p8, p3);
    lemma_swap_sa(p1.spec_sub(p1).spec_add(p2).spec_sub(p2).spec_sub(p3).spec_add(p4).spec_sub(p5).spec_add(p6).spec_add(p7).spec_sub(p8).spec_sub(p9).spec_add(p10).spec_sub(p6).spec_add(p11).spec_sub(p4), p12, p3);
    lemma_swap_sa(p1.spec_sub(p1).spec_add(p2).spec_sub(p2).spec_sub(p3).spec_add(p4).spec_sub(p5).spec_add(p6).spec_add(p7).spec_sub(p8).spec_sub(p9).spec_add(p10).spec_sub(p6).spec_add(p11), p4, p3);
    lemma_swap_aa(p1.spec_sub(p1).spec_add(p2).spec_sub(p2).spec_sub(p3).spec_add(p4).spec_sub(p5).spec_add(p6).spec_add(p7).spec_sub(p8).spec_sub(p9).spec_add(p10).spec_sub(p6), p11, p3);
    lemma_swap_sa(p1.spec_sub(p1).spec_add(p2).spec_sub(p2).spec_sub(p3).spec_add(p4).spec_sub(p5).spec_add(p6).spec_add(p7).spec_sub(p8).spec_sub(p9).spec_add(p10), p6, p3);
    lemma_swap_aa(p1.spec_sub(p1).spec_add(p2).spec_sub(p2).spec_sub(p3).spec_add(p4).spec_sub(p5).spec_add(p6).spec_add(p7).spec_sub(p8).spec_sub(p9), p10, p3);
    lemma_swap_sa(p1.spec_sub(p1).spec_add(p2).spec_sub(p2).spec_sub(p3).spec_add(p4).spec_sub(p5).spec_add(p6).spec_add(p7).spec_sub(p8), p9, p3);
    lemma_swap_sa(p1.spec_sub(p1).spec_add(p2).spec_sub(p2).spec_sub(p3).spec_add(p4).spec_sub(p5).spec_add(p6).spec_add(p7), p8, p3);
    lemma_swap_aa(p1.spec_sub(p1).spec_add(p2).spec_sub(p2).spec_sub(p3).spec_add(p4).spec_sub(p5).spec_add(p6), p7, p3);
    lemma_swap_aa(p1.spec_sub(p1).spec_add(p2).spec_sub(p2).spec_sub(p3).spec_add(p4).spec_sub(p5), p6, p3);
    lemma_swap_sa(p1.spec_sub(p1).spec_add(p2).spec_sub(p2).spec_sub(p3).spec_add(p4), p5, p3);
    lemma_swap_aa(p1.spec_sub(p1).spec_add(p2).spec_sub(p2).spec_sub(p3), p4, p3);
    lemma_swap_sa(p1.spec_sub(p1).spec_add(p2).spec_sub(p2), p3, p3);
    lemma_swap_as(p1.spec_sub(p1).spec_add(p2).spec_sub(p2).spec_add(p3).spec_sub(p3).spec_add(p4).spec_sub(p5).spec_add(p6).spec_add(p7).spec_sub(p8).spec_sub(p9).spec_add(p10).spec_sub(p6), p11, p4);
    lemma_swap_ss(p1.spec_sub(p1).spec_add(p2).spec_sub(p2).spec_add(p3).spec_sub(p3).spec_add(p4).spec_sub(p5).spec_add(p6).spec_add(p7).spec_sub(p8).spec_sub(p9).spec_add(p10), p6, p4);
    lemma_swap_as(p1.spec_sub(p1).spec_add(p2).spec_sub(p2).spec_add(p3).spec_sub(p3).spec_add(p4).spec_sub(p5).spec_add(p6).spec_add(p7).spec_sub(p8).spec_sub(p9), p10, p4);
    lemma_swap_ss(p1.spec_sub(p1).spec_add(p2).spec_sub(p2).spec_add(p3).spec_sub(p3).spec_add(p4).spec_sub(p5).spec_add(p6).spec_add(p7).spec_sub(p8), p9, p4);
    lemma_swap_ss(p1.spec_sub(p1).spec_add(p2).spec_sub(p2).spec_add(p3).spec_sub(p3).spec_add(p4).spec_sub(p5).spec_add(p6).spec_add(p7), p8, p4);
    lemma_swap_as(p1.spec_sub(p1).spec_add(p2).spec_sub(p2).spec_add(p3).spec_sub(p3).spec_add(p4).spec_sub(p5).spec_add(p6), p7, p4);
    lemma_swap_as(p1.spec_sub(p1).spec_add(p2).spec_sub(p2).spec_add(p3).spec_sub(p3).spec_add(p4).spec_sub(p5), p6, p4);
    lemma_swap_ss(p1.spec_sub(p1).spec_add(p2).spec_sub(p2).spec_add(p3).spec_sub(p3).spec_add(p4), p5, p4);
    lemma_swap_sa(p1.spec_sub(p1).spec_add(p2).spec_sub(p2).spec_add(p3).spec_sub(p3).spec_add(p4).spec_sub(p4).spec_sub(p5).spec_add(p6).spec_add(p7).spec_sub(p8).spec_sub(p9).spec_add(p10).spec_sub(p6).spec_add(p11).spec_sub(p12).spec_add(p8), p10, p5);
    lemma_swap_aa(p1.spec_sub(p1).spec_add(p2).spec_sub(p2).spec_add(p3).spec_sub(p3).spec_add(p4).spec_sub(p4).spec_sub(p5).spec_add(p6).spec_add(p7).spec_sub(p8).spec_sub(p9).spec_add(p10).spec_sub(p6).spec_add(p11).spec_sub(p12), p8, p5);
    lemma_swap_sa(p1.spec_sub(p1).spec_add(p2).spec_sub(p2).spec_add(p3).spec_sub(p3).spec_add(p4).spec_sub(p4).spec_sub(p5).spec_add(p6).spec_add(p7).spec_sub(p8).spec_sub(p9).spec_add(p10).spec_sub(p6).spec_add(p11), p12, p5);
    lemma_swap_aa(p1.spec_sub(p1).spec_add(p2).spec_sub(p2).spec_add(p3).spec_sub(p3).spec_add(p4).spec_sub(p4).spec_sub(p5).spec_add(p6).spec_add(p7).spec_sub(p8).spec_sub(p9).spec_add(p10).spec_sub(p6), p11, p5);
    lemma_swap_sa(p1.spec_sub(p1).spec_add(p2).spec_sub(p2).spec_add(p3).spec_sub(p3).spec_add(p4).spec_sub(p4).spec_sub(p5).spec_add(p6).spec_add(p7).spec_sub(p8).spec_sub(p9).spec_add(p10), p6, p5);
    lemma_swap_aa(p1.spec_sub(p1).spec_add(p2).spec_sub(p2).spec_add(p3).spec_sub(p3).spec_add(p4).spec_sub(p4).spec_sub(p5).spec_add(p6).spec_add(p7).spec_sub(p8).spec_sub(p9), p10, p5);
    lemma_swap_sa(p1.spec_sub(p1).spec_add(p2).spec_sub(p2).spec_add(p3).spec_sub(p3).spec_add(p4).spec_sub(p4).spec_sub(p5).spec_add(p6).spec_add(p7).spec_sub(p8), p9, p5);
    lemma_swap_sa(p1.spec_sub(p1).spec_add(p2).spec_sub(p2).spec_add(p3).spec_sub(p3).spec_add(p4).spec_sub(p4).spec_sub(p5).spec_add(p6).spec_add(p7), p8, p5);
    lemma_swap_aa(p1.spec_sub(p1).spec_add(p2).spec_sub(p2).spec_add(p3).spec_sub(p3).spec_add(p4).spec_sub(p4).spec_sub(p5).spec_add(p6), p7, p5);
    lemma_swap_aa(p1.spec_sub(p1).spec_add(p2).spec_sub(p2).spec_add(p3).spec_sub(p3).spec_add(p4).spec_sub(p4).spec_sub(p5), p6, p5);
    lemma_swap_sa(p1.spec_sub(p1).spec_add(p2).spec_sub(p2).spec_add(p3).spec_sub(p3).spec_add(p4).spec_sub(p4), p5, p5);
    lemma_swap_as(p1.spec_sub(p1).spec_add(p2).spec_sub(p2).spec_add(p3).spec_sub(p3).spec_add(p4).spec_sub(p4).spec_add(p5).spec_sub(p5).spec_add(p6).spec_add(p7).spec_sub(p8).spec_sub(p9), p10, p6);
    lemma_swap_ss(p1.spec_sub(p1).spec_add(p2).spec_sub(p2).spec_add(p3).spec_sub(p3).spec_add(p4).spec_sub(p4).spec_add(p5).spec_sub(p5).spec_add(p6).spec_add(p7).spec_sub(p8), p9, p6);
    lemma_swap_ss(p1.spec_sub(p1).spec_add(p2).spec_sub(p2).spec_add(p3).spec_sub(p3).spec_add(p4).spec_sub(p4).spec_add(p5).spec_sub(p5).spec_add(p6).spec_add(p7), p8, p6);
    lemma_swap_as(p1.spec_sub(p1).spec_add(p2).spec_sub(p2).spec_add(p3).spec_sub(p3).spec_add(p4).spec_sub(p4).spec_add(p5).spec_sub(p5).spec_add(p6), p7, p6);
    lemma_swap_as(p1.spec_sub(p1).spec_add(p2).spec_sub(p2).spec_add(p3).spec_sub(p3).spec_add(p4).spec_sub(p4).spec_add(p5).spec_sub(p5).spec_add(p6).spec_sub(p6).spec_add(p7).spec_sub(p8).spec_sub(p9).spec_add(p10).spec_add(p11).spec_sub(p12).spec_add(p8).spec_sub(p10), p12, p7);
    lemma_swap_ss(p1.spec_sub(p1).spec_add(p2).spec_sub(p2).spec_add(p3).spec_sub(p3).spec_add(p4).spec_sub(p4).spec_add(p5).spec_sub(p5).spec_add(p6).spec_sub(p6).spec_add(p7).spec_sub(p8).spec_sub(p9).spec_add(p10).spec_add(p11).spec_sub(p12).spec_add(p8), p10, p7);
    lemma_swap_as(p1.spec_sub(p1).spec_add(p2).spec_sub(p2).spec_add(p3).spec_sub(p3).spec_add(p4).spec_sub(p4).spec_add(p5).spec_sub(p5).spec_add(p6).spec_sub(p6).spec_add(p7).spec_sub(p8).spec_sub(p9).spec_add(p10).spec_add(p11).spec_sub(p12), p8, p7);
    lemma_swap_ss(p1.spec_sub(p1).spec_add(p2).spec_sub(p2).spec_add(p3).spec_sub(p3).spec_add(p4).spec_sub(p4).spec_add(p5).spec_sub(p5).spec_add(p6).spec_sub(p6).spec_add(p7).spec_sub(p8).spec_sub(p9).spec_add(p10).spec_add(p11), p12, p7);
    lemma_swap_as(p1.spec_sub(p1).spec_add(p2).spec_sub(p2).spec_add(p3).spec_sub(p3).spec_add(p4).spec_sub(p4).spec_add(p5).spec_sub(p5).spec_add(p6).spec_sub(p6).spec_add(p7).spec_sub(p8).spec_sub(p9).spec_add(p10), p11, p7);
    lemma_swap_as(p1.spec_sub(p1).spec_add(p2).spec_sub(p2).spec_add(p3).spec_sub(p3).spec_add(p4).spec_sub(p4).spec_add(p5).spec_sub(p5).spec_add(p6).spec_sub(p6).spec_add(p7).spec_sub(p8).spec_sub(p9), p10, p7);
    lemma_swap_ss(p1.spec_sub(p1).spec_add(p2).spec_sub(p2).spec_add(p3).spec_sub(p3).spec_add(p4).spec_sub(p4).spec_add(p5).spec_sub(p5).spec_add(p6).spec_sub(p6).spec_add(p7).spec_sub(p8), p9, p7);
    lemma_swap_ss(p1.spec_sub(p1).spec_add(p2).spec_sub(p2).spec_add(p3).spec_sub(p3).spec_add(p4).spec_sub(p4).spec_add(p5).spec_sub(p5).spec_add(p6).spec_sub(p6).spec_add(p7), p8, p7);
    lemma_swap_sa(p1.spec_sub(p1).spec_add(p2).spec_sub(p2).spec_add(p3).spec_sub(p3).spec_add(p4).spec_sub(p4).spec_add(p5).spec_sub(p5).spec_add(p6).spec_sub(p6).spec_add(p7).spec_sub(p7).spec_sub(p8).spec_sub(p9).spec_add(p10).spec_add(p11), p12, p8);
    lemma_swap_aa(p1.spec_sub(p1).spec_add(p2).spec_sub(p2).spec_add(p3).spec_sub(p3).spec_add(p4).spec_sub(p4).spec_add(p5).spec_sub(p5).spec_add(p6).spec_sub(p6).spec_add(p7).spec_sub(p7).spec_sub(p8).spec_sub(p9).spec_add(p10), p11, p8);
    lemma_swap_aa(p1.spec_sub(p1).spec_add(p2).spec_sub(p2).spec_add(p3).spec_sub(p3).spec_add(p4).spec_sub(p4).spec_add(p5).spec_sub(p5).spec_add(p6).spec_sub(p6).spec_add(p7).spec_sub(p7).spec_sub(p8).spec_sub(p9), p10, p8);
    lemma_swap_sa(p1.spec_sub(p1).spec_add(p2).spec_sub(p2).spec_add(p3).spec_sub(p3).spec_add(p4).spec_sub(p4).spec_add(p5).spec_sub(p5).spec_add(p6).spec_sub(p6).spec_add(p7).spec_sub(p7).spec_sub(p8), p9, p8);
    lemma_swap_sa(p1.spec_sub(p1).spec_add(p2).spec_sub(p2).spec_add(p3).spec_sub(p3).spec_add(p4).spec_sub(p4).spec_add(p5).spec_sub(p5).spec_add(p6).spec_sub(p6).spec_add(p7).spec_sub(p7), p8, p8);
    lemma_swap_sa(p1.spec_sub(p1).spec_add(p2).spec_sub(p2).spec_add(p3).spec_sub(p3).spec_add(p4).spec_sub(p4).spec_add(p5).spec_sub(p5).spec_add(p6).spec_sub(p6).spec_add(p7).spec_sub(p7).spec_add(p8).spec_sub(p8).spec_sub(p9).spec_add(p10).spec_add(p11).spec_sub(p12).spec_sub(p10).spec_add(p12), p11, p9);
    lemma_swap_aa(p1.spec_sub(p1).spec_add(p2).spec_sub(p2).spec_add(p3).spec_sub(p3).spec_add(p4).spec_sub(p4).spec_add(p5).spec_sub(p5).spec_add(p6).spec_sub(p6).spec_add(p7).spec_sub(p7).spec_add(p8).spec_sub(p8).spec_sub(p9).spec_add(p10).spec_add(p11).spec_sub(p12).spec_sub(p10), p12, p9);
    lemma_swap_sa(p1.spec_sub(p1).spec_add(p2).spec_sub(p2).spec_add(p3).spec_sub(p3).spec_add(p4).spec_sub(p4).spec_add(p5).spec_sub(p5).spec_add(p6).spec_sub(p6).spec_add(p7).spec_sub(p7).spec_add(p8).spec_sub(p8).spec_sub(p9).spec_add(p10).spec_add(p11).spec_sub(p12), p10, p9);
    lemma_swap_sa(p1.spec_sub(p1).spec_add(p2).spec_sub(p2).spec_add(p3).spec_sub(p3).spec_add(p4).spec_sub(p4).spec_add(p5).spec_sub(p5).spec_add(p6).spec_sub(p6).spec_add(p7).spec_sub(p7).spec_add(p8).spec_sub(p8).spec_sub(p9).spec_add(p10).spec_add(p11), p12, p9);
    lemma_swap_aa(p1.spec_sub(p1).spec_add(p2).spec_sub(p2).spec_add(p3).spec_sub(p3).spec_add(p4).spec_sub(p4).spec_add(p5).spec_sub(p5).spec_add(p6).spec_sub(p6).spec_add(p7).spec_sub(p7).spec_add(p8).spec_sub(p8).spec_sub(p9).spec_add(p10), p11, p9);
    lemma_swap_aa(p1.spec_sub(p1).spec_add(p2).spec_sub(p2).spec_add(p3).spec_sub(p3).spec_add(p4).spec_sub(p4).spec_add(p5).spec_sub(p5).spec_add(p6).spec_sub(p6).spec_add(p7).spec_sub(p7).spec_add(p8).spec_sub(p8).spec_sub(p9), p10, p9);
    lemma_swap_sa(p1.spec_sub(p1).spec_add(p2).spec_sub(p2).spec_add(p3).spec_sub(p3).spec_add(p4).spec_sub(p4).spec_add(p5).spec_sub(p5).spec_add(p6).spec_sub(p6).spec_add(p7).spec_sub(p7).spec_add(p8).spec_sub(p8), p9, p9);
    lemma_swap_ss(p1.spec_sub(p1).spec_add(p2).spec_sub(p2).spec_add(p3).spec_sub(p3).spec_add(p4).spec_sub(p4).spec_add(p5).spec_sub(p5).spec_add(p6).spec_sub(p6).spec_add(p7).spec_sub(p7).spec_add(p8).spec_sub(p8).spec_add(p9).spec_sub(p9).spec_add(p10).spec_add(p11), p12, p10);
    lemma_swap_as(p1.spec_sub(p1).spec_add(p2).spec_sub(p2).spec_add(p3).spec_sub(p3).spec_add(p4).spec_sub(p4).spec_add(p5).spec_sub(p5).spec_add(p6).spec_sub(p6).spec_add(p7).spec_sub(p7).spec_add(p8).spec_sub(p8).spec_add(p9).spec_sub(p9).spec_add(p10), p11, p10);
    lemma_swap_as(p1.spec_sub(p1).spec_add(p2).spec_sub(p2).spec_add(p3).spec_sub(p3).spec_add(p4).spec_sub(p4).spec_add(p5).spec_sub(p5).spec_add(p6).spec_sub(p6).spec_add(p7).spec_sub(p7).spec_add(p8).spec_sub(p8).spec_add(p9).spec_sub(p9).spec_add(p10).spec_sub(p10).spec_add(p11).spec_sub(p12), p12, p11);
    lemma_swap_ss(p1.spec_sub(p1).spec_add(p2).spec_sub(p2).spec_add(p3).spec_sub(p3).spec_add(p4).spec_sub(p4).spec_add(p5).spec_sub(p5).spec_add(p6).spec_sub(p6).spec_add(p7).spec_sub(p7).spec_add(p8).spec_sub(p8).spec_add(p9).spec_sub(p9).spec_add(p10).spec_sub(p10).spec_add(p11), p12, p11);
    lemma_swap_sa(p1.spec_sub(p1).spec_add(p2).spec_sub(p2).spec_add(p3).spec_sub(p3).spec_add(p4).spec_sub(p4).spec_add(p5).spec_sub(p5).spec_add(p6).spec_sub(p6).spec_add(p7).spec_sub(p7).spec_add(p8).spec_sub(p8).spec_add(p9).spec_sub(p9).spec_add(p10).spec_sub(p10).spec_add(p11).spec_sub(p11), p12, p12);
    lemma_self_cancel(p1);
    lemma_cancel_adj(p1.spec_sub(p1), p2);
    lemma_cancel_adj(p1.spec_sub(p1).spec_add(p2).spec_sub(p2), p3);
    lemma_cancel_adj(p1.spec_sub(p1).spec_add(p2).spec_sub(p2).spec_add(p3).spec_sub(p3), p4);
    lemma_cancel_adj(p1.spec_sub(p1).spec_add(p2).spec_sub(p2).spec_add(p3).spec_sub(p3).spec_add(p4).spec_sub(p4), p5);
    lemma_cancel_adj(p1.spec_sub(p1).spec_add(p2).spec_sub(p2).spec_add(p3).spec_sub(p3).spec_add(p4).spec_sub(p4).spec_add(p5).spec_sub(p5), p6);
    lemma_cancel_adj(p1.spec_sub(p1).spec_add(p2).spec_sub(p2).spec_add(p3).spec_sub(p3).spec_add(p4).spec_sub(p4).spec_add(p5).spec_sub(p5).spec_add(p6).spec_sub(p6), p7);
    lemma_cancel_adj(p1.spec_sub(p1).spec_add(p2).spec_sub(p2).spec_add(p3).spec_sub(p3).spec_add(p4).spec_sub(p4).spec_add(p5).spec_sub(p5).spec_add(p6).spec_sub(p6).spec_add(p7).spec_sub(p7), p8);
    lemma_cancel_adj(p1.spec_sub(p1).spec_add(p2).spec_sub(p2).spec_add(p3).spec_sub(p3).spec_add(p4).spec_sub(p4).spec_add(p5).spec_sub(p5).spec_add(p6).spec_sub(p6).spec_add(p7).spec_sub(p7).spec_add(p8).spec_sub(p8), p9);
    lemma_cancel_adj(p1.spec_sub(p1).spec_add(p2).spec_sub(p2).spec_add(p3).spec_sub(p3).spec_add(p4).spec_sub(p4).spec_add(p5).spec_sub(p5).spec_add(p6).spec_sub(p6).spec_add(p7).spec_sub(p7).spec_add(p8).spec_sub(p8).spec_add(p9).spec_sub(p9), p10);
    lemma_cancel_adj(p1.spec_sub(p1).spec_add(p2).spec_sub(p2).spec_add(p3).spec_sub(p3).spec_add(p4).spec_sub(p4).spec_add(p5).spec_sub(p5).spec_add(p6).spec_sub(p6).spec_add(p7).spec_sub(p7).spec_add(p8).spec_sub(p8).spec_add(p9).spec_sub(p9).spec_add(p10).spec_sub(p10), p11);
    lemma_cancel_adj(p1.spec_sub(p1).spec_add(p2).spec_sub(p2).spec_add(p3).spec_sub(p3).spec_add(p4).spec_sub(p4).spec_add(p5).spec_sub(p5).spec_add(p6).spec_sub(p6).spec_add(p7).spec_sub(p7).spec_add(p8).spec_sub(p8).spec_add(p9).spec_sub(p9).spec_add(p10).spec_sub(p10).spec_add(p11).spec_sub(p11), p12);
}

pub(crate) proof fn lemma_inv_entry13<T: Scalar>(a: Seq<T>)
    requires
        a.len() == 16,
        field_sealed::<T>(),
        !det_seq(a).spec_is_zero(),
    ensures
        mul_seq(inverse_seq(a), a)[13] == T::spec_zero(),
{
    lemma_field_gives_ring::<T>();
    let inv = inverse_seq(a);
    let inv_d = T::spec_one().spec_div(det_seq(a));
    let b00 = minor2(a, 0, 5, 1, 4);
    let b01 = minor2(a, 0, 6, 2, 4);
    let b02 = minor2(a, 0, 7, 3, 4);
    let b03 = minor2(a, 1, 6, 2, 5);
    let b04 = minor2(a, 1, 7, 3, 5);
    let b05 = minor2(a, 2, 7, 3, 6);
    let b06 = minor2(a, 8, 13, 9, 12);
    let b07 = minor2(a, 8, 14, 10, 12);
    let b08 = minor2(a, 8, 15, 11, 12);
    let b09 = minor2(a, 9, 14, 10, 13);
    let b10 = minor2(a, 9, 15, 11, 13);
    let b11 = minor2(a, 10, 15, 11, 14);
    assert(mul_seq(inv, a)[13] == a[12].spec_mul(inv[1]).spec_add(a[13].spec_mul(inv[5])).spec_add(a[14].spec_mul(inv[9])).spec_add(a[15].spec_mul(inv[13])));
    assert(inv[1] == a[2].spec_mul(b10).spec_sub(a[1].spec_mul(b11)).spec_sub(a[3].spec_mul(b09)).spec_mul(inv_d));
    assert(inv[5] == a[0].spec_mul(b11).spec_sub(a[2].spec_mul(b08)).spec_add(a[3].spec_mul(b07)).spec_mul(inv_d));
    assert(inv[9] == a[1].spec_mul(b08).spec_sub(a[0].spec_mul(b10)).spec_sub(a[3].spec_mul(b06)).spec_mul(inv_d));
    assert(inv[13] == a[0].spec_mul(b09).spec_sub(a[1].spec_mul(b07)).spec_add(a[2].spec_mul(b06)).spec_mul(inv_d));
    lemma_mul_assoc(a[12], a[2].spec_mul(b10).spec_sub(a[1].spec_mul(b11)).spec_sub(a[3].spec_mul(b09)), inv_d);
    lemma_mul_assoc(a[13], a[0].spec_mul(b11).spec_sub(a[2].spec_mul(b08)).spec_add(a[3].spec_mul(b07)), inv_d);
    lemma_mul_assoc(a[14], a[1].spec_mul(b08).spec_sub(a[0].spec_mul(b10)).spec_sub(a[3].spec_mul(b06)), inv_d);
    lemma_mul_assoc(a[15], a[0].spec_mul(b09).spec_sub(a[1].spec_mul(b07)).spec_add(a[2].spec_mul(b06)), inv_d);
    lemma_factor4(
        a[12].spec_mul(a[2].spec_mul(b10).spec_sub(a[1].spec_mul(b11)).spec_sub(a[3].spec_mul(b09))),
        a[13].spec_mul(a[0].spec_mul(b11).spec_sub(a[2].spec_mul(b08)).spec_add(a[3].spec_mul(b07))),
        a[14].spec_mul(a[1].spec_mul(b08).spec_sub(a[0].spec_mul(b10)).spec_sub(a[3].spec_mul(b06))),
        a[15].spec_mul(a[0].spec_mul(b09).spec_sub(a[1].spec_mul(b07)).spec_add(a[2].spec_mul(b06))),
        inv_d,
    );
    lemma_distrib3_pmm(a[12], a[2].spec_mul(b10), a[1].spec_mul(b11), a[3].spec_mul(b09));
    lemma_mul_assoc(a[12], a[2], b10);
    lemma_mul_comm(a[12], a[2]);
    lemma_mul_assoc(a[12], a[1], b11);
    lemma_mul_comm(a[12], a[1]);
    lemma_mul_assoc(a[12], a[3], b09);
    lemma_mul_comm(a[12], a[3]);
    lemma_distrib3_pmp(a[13], a[0].spec_mul(b11), a[2].spec_mul(b08), a[3].spec_mul(b07));
    lemma_mul_assoc(a[13], a[0], b11);
    lemma_mul_comm(a[13], a[0]);
    lemma_mul_assoc(a[13], a[2], b08);
    lemma_mul_comm(a[13], a[2]);
    lemma_mul_assoc(a[13], a[3], b07);
    lemma_mul_comm(a[13], a[3]);
    lemma_distrib3_pmm(a[14], a[1].spec_mul(b08), a[0].spec_mul(b10), a[3].spec_mul(b06));
    lemma_mul_assoc(a[14], a[1], b08);
    lemma_mul_comm(a[14], a[1]);
    lemma_mul_assoc(a[14], a[0], b10);
    lemma_mul_comm(a[14], a[0]);
    lemma_mul_assoc(a[14], a[3], b06);
    lemma_mul_comm(a[14], a[3]);
    lemma_distrib3_pmp(a[15], a[0].spec_mul(b09), a[1].spec_mul(b07), a[2].spec_mul(b06));
    lemma_mul_assoc(a[15], a[0], b09);
    lemma_mul_comm(a[15], a[0]);
    lemma_mul_assoc(a[15], a[1], b07);
    lemma_mul_comm(a[15], a[1]);
    lemma_mul_assoc(a[15], a[2], b06);
    lemma_mul_comm(a[15], a[2]);
    lemma_append3_pmp(
        a[2].spec_mul(a[12]).spec_mul(b10).spec_sub(a[1].spec_mul(a[12]).spec_mul(b11)).spec_sub(a[3].spec_mul(a[12]).spec_mul(b09)),
        a[0].spec_mul(a[13]).spec_mul(b11),
        a[2].spec_mul(a[13]).spec_mul(b08),
        a[3].spec_mul(a[13]).spec_mul(b07),
    );
    lemma_append3_pmm(
        a[2].spec_mul(a[12]).spec_mul(b10).spec_sub(a[1].spec_mul(a[12]).spec_mul(b11)).spec_sub(a[3].spec_mul(a[12]).spec_mul(b09)).spec_add(a[0].spec_mul(a[13]).spec_mul(b11)).spec_sub(a[2].spec_mul(a[13]).spec_mul(b08)).spec_add(a[3].spec_mul(a[13]).spec_mul(b07)),
        a[1].spec_mul(a[14]).spec_mul(b08),
        a[0].spec_mul(a[14]).spec_mul(b10),
        a[3].spec_mul(a[14]).spec_mul(b06),
    );
    lemma_append3_pmp(
        a[2].spec_mul(a[12]).spec_mul(b10).spec_sub(a[1].spec_mul(a[12]).spec_mul(b11)).spec_sub(a[3].spec_mul(a[12]).spec_mul(b09)).spec_add(a[0].spec_mul(a[13]).spec_mul(b11)).spec_sub(a[2].spec_mul(a[13]).spec_mul(b08)).spec_add(a[3].spec_mul(a[13]).spec_mul(b07)).spec_add(a[1].spec_mul(a[14]).spec_mul(b08)).spec_sub(a[0].spec_mul(a[14]).spec_mul(b10)).spec_sub(a[3].spec_mul(a[14]).spec_mul(b06)),
        a[0].spec_mul(a[15]).spec_mul(b09),
        a[1].spec_mul(a[15]).spec_mul(b07),
        a[2].spec_mul(a[15]).spec_mul(b06),
    );
    let c2x9x12x15 = a[2].spec_mul(a[9]).spec_mul(a[12].spec_mul(a[15]));
    let c2x11x12x13 = a[2].spec_mul(a[11]).spec_mul(a[12].spec_mul(a[13]));
    let c1x10x12x15 = a[1].spec_mul(a[10]).spec_mul(a[12].spec_mul(a[15]));
    let c1x11x12x14 = a[1].spec_mul(a[11]).spec_mul(a[12].spec_mul(a[14]));
    let c3x9x12x14 = a[3].spec_mul(a[9]).spec_mul(a[12].spec_mul(a[14]));
    let c3x10x12x13 = a[3].spec_mul(a[10]).spec_mul(a[12].spec_mul(a[13]));
    let c0x10x13x15 = a[0].spec_mul(a[10]).spec_mul(a[13].spec_mul(a[15]));
    let c0x11x13x14 = a[0].spec_mul(a[11]).spec_mul(a[13].spec_mul(a[14]));
    let c2x8x13x15 = a[2].spec_mul(a[8]).spec_mul(a[13].spec_mul(a[15]));
    let c3x8x13x14 = a[3].spec_mul(a[8]).spec_mul(a[13].spec_mul(a[14]));
    let c1x8x14x15 = a[1].spec_mul(a[8]).spec_mul(a[14].spec_mul(a[15]));
    let c0x9x14x15 = a[0].spec_mul(a[9]).spec_mul(a[14].spec_mul(a[15]));
    lemma_distrib2(a[2].spec_mul(a[12]), a[9].spec_mul(a[15]), a[11].spec_mul(a[13]));
    lemma_distrib2(a[1].spec_mul(a[12]), a[10].spec_mul(a[15]), a[11].spec_mul(a[14]));
    lemma_distrib2(a[3].spec_mul(a[12]), a[9].spec_mul(a[14]), a[10].spec_mul(a[13]));
    lemma_distrib2(a[0].spec_mul(a[13]), a[10].spec_mul(a[15]), a[11].spec_mul(a[14]));
    lemma_distrib2(a[2].spec_mul(a[13]), a[8].spec_mul(a[15]), a[11].spec_mul(a[12]));
    lemma_distrib2(a[3].spec_mul(a[13]), a[8].spec_mul(a[14]), a[10].spec_mul(a[12]));
    lemma_distrib2(a[1].spec_mul(a[14]), a[8].spec_mul(a[15]), a[11].spec_mul(a[12]));
    lemma_distrib2(a[0].spec_mul(a[14]), a[9].spec_mul(a[15]), a[11].spec_mul(a[13]));
    lemma_distrib2(a[3].spec_mul(a[14]), a[8].spec_mul(a[13]), a[9].spec_mul(a[12]));
    lemma_distrib2(a[0].spec_mul(a[15]), a[9].spec_mul(a[14]), a[10].spec_mul(a[13]));
    lemma_distrib2(a[1].spec_mul(a[15]), a[8].spec_mul(a[14]), a[10].spec_mul(a[12]));
    lemma_distrib2(a[2].spec_mul(a[15]), a[8].spec_mul(a[13]), a[9].spec_mul(a[12]));
    lemma_mul4_rearrange(a[2], a[12], a[9], a[15]);
    lemma_mul4_rearrange(a[2], a[12], a[11], a[13]);
    lemma_mul4_rearrange(a[1], a[12], a[10], a[15]);
    lemma_mul4_rearrange(a[1], a[12], a[11], a[14]);
    lemma_mul4_rearrange(a[3], a[12], a[9], a[14]);
    lemma_mul4_rearrange(a[3], a[12], a[10], a[13]);
    lemma_mul4_rearrange(a[0], a[13], a[10], a[15]);
    lemma_mul4_rearrange(a[0], a[13], a[11], a[14]);
    lemma_mul4_rearrange(a[2], a[13], a[8], a[15]);
    lemma_mul4_rearrange(a[2], a[13], a[11], a[12]);
    lemma_mul_comm(a[13], a[12]);
    lemma_mul4_rearrange(a[3], a[13], a[8], a[14]);
    lemma_mul4_rearrange(a[3], a[13], a[10], a[12]);
    lemma_mul4_rearrange(a[1], a[14], a[8], a[15]);
    lemma_mul4_rearrange(a[1], a[14], a[11], a[12]);
    lemma_mul_comm(a[14], a[12]);
    lemma_mul4_rearrange(a[0], a[14], a[9], a[15]);
    lemma_mul4_rearrange(a[0], a[14], a[11], a[13]);
    lemma_mul_comm(a[14], a[13]);
    lemma_mul4_rearrange(a[3], a[14], a[8], a[13]);
    lemma_mul4_rearrange(a[3], a[14], a[9], a[12]);
    lemma_mul4_rearrange(a[0], a[15], a[9], a[14]);
    lemma_mul_comm(a[15], a[14]);
    lemma_mul4_rearrange(a[0], a[15], a[10], a[13]);
    lemma_mul_comm(a[15], a[13]);
    lemma_mul4_rearrange(a[1], a[15], a[8], a[14]);
    lemma_mul4_rearrange(a[1], a[15], a[10], a[12]);
    lemma_mul_comm(a[15], a[12]);
    lemma_mul4_rearrange(a[2], a[15], a[8], a[13]);
    lemma_mul4_rearrange(a[2], a[15], a[9], a[12]);
    lemma_append2_neg(
        c2x9x12x15.spec_sub(c2x11x12x13),
        c1x10x12x15,
        c1x11x12x14,
    );
    lemma_append2_neg(
        c2x9x12x15.spec_sub(c2x11x12x13).spec_sub(c1x10x12x15).spec_add(c1x11x12x14),
        c3x9x12x14,
        c3x10x12x13,
    );
    lemma_append2_pos(
        c2x9x12x15.spec_sub(c2x11x12x13).spec_sub(c1x10x12x15).spec_add(c1x11x12x14).spec_sub(c3x9x12x14).spec_add(c3x10x12x13),
        c0x10x13x15,
        c0x11x13x14,
    );
    lemma_append2_neg(
        c2x9x12x15.spec_sub(c2x11x12x13).spec_sub(c1x10x12x15).spec_add(c1x11x12x14).spec_sub(c3x9x12x14).spec_add(c3x10x12x13).spec_add(c0x10x13x15).spec_sub(c0x11x13x14),
        c2x8x13x15,
        c2x11x12x13,
    );
    lemma_append2_pos(
        c2x9x12x15.spec_sub(c2x11x12x13).spec_sub(c1x10x12x15).spec_add(c1x11x12x14).spec_sub(c3x9x12x14).spec_add(c3x10x12x13).spec_add(c0x10x13x15).spec_sub(c0x11x13x14).spec_sub(c2x8x13x15).spec_add(c2x11x12x13),
        c3x8x13x14,
        c3x10x12x13,
    );
    lemma_append2_pos(
        c2x9x12x15.spec_sub(c2x11x12x13).spec_sub(c1x10x12x15).spec_add(c1x11x12x14).spec_sub(c3x9x12x14).spec_add(c3x10x12x13).spec_add(c0x10x13x15).spec_sub(c0x11x13x14).spec_sub(c2x8x13x15).spec_add(c2x11x12x13).spec_add(c3x8x13x14).spec_sub(c3x10x12x13),
        c1x8x14x15,
        c1x11x12x14,
    );
    lemma_append2_neg(
        c2x9x12x15.spec_sub(c2x11x12x13).spec_sub(c1x10x12x15).spec_add(c1x11x12x14).spec_sub(c3x9x12x14).spec_add(c3x10x12x13).spec_add(c0x10x13x15).spec_sub(c0x11x13x14).spec_sub(c2x8x13x15).spec_add(c2x11x12x13).spec_add(c3x8x13x14).spec_sub(c3x10x12x13).spec_add(c1x8x14x15).spec_sub(c1x11x12x14),
        c0x9x14x15,
        c0x11x13x14,
    );
    lemma_append2_neg(
        c2x9x12x15.spec_sub(c2x11x12x13).spec_sub(c1x10x12x15).spec_add(c1x11x12x14).spec_sub(c3x9x12x14).spec_add(c3x10x12x13).spec_add(c0x10x13x15).spec_sub(c0x11x13x14).spec_sub(c2x8x13x15).spec_add(c2x11x12x13).spec_add(c3x8x13x14).spec_sub(c3x10x12x13).spec_add(c1x8x14x15).spec_sub(c1x11x12x14).spec_sub(c0x9x14x15).spec_add(c0x11x13x14),
        c3x8x13x14,
        c3x9x12x14,
    );
    lemma_append2_pos(
        c2x9x12x15.spec_sub(c2x11x12x13).spec_sub(c1x10x12x15).spec_add(c1x11x12x14).spec_sub(c3x9x12x14).spec_add(c3x10x12x13).spec_add(c0x10x13x15).spec_sub(c0x11x13x14).spec_sub(c2x8x13x15).spec_add(c2x11x12x13).spec_add(c3x8x13x14).spec_sub(c3x10x12x13).spec_add(c1x8x14x15).spec_sub(c1x11x12x14).spec_sub(c0x9x14x15).spec_add(c0x11x13x14).spec_sub(c3x8x13x14).spec_add(c3x9x12x14),
        c0x9x14x15,
        c0x10x13x15,
    );
    lemma_append2_neg(
        c2x9x12x15.spec_sub(c2x11x12x13).spec_sub(c1x10x12x15).spec_add(c1x11x12x14).spec_sub(c3x9x12x14).spec_add(c3x10x12x13).spec_add(c0x10x13x15).spec_sub(c0x11x13x14).spec_sub(c2x8x13x15).spec_add(c2x11x12x13).spec_add(c3x8x13x14).spec_sub(c3x10x12x13).spec_add(c1x8x14x15).spec_sub(c1x11x12x14).spec_sub(c0x9x14x15).spec_add(c0x11x13x14).spec_sub(c3x8x13x14).spec_add(c3x9x12x14).spec_add(c0x9x14x15).spec_sub(c0x10x13x15),
        c1x8x14x15,
        c1x10x12x15,
    );
    lemma_append2_pos(
        c2x9x12x15.spec_sub(c2x11x12x13).spec_sub(c1x10x12x15).spec_add(c1x11x12x14).spec_sub(c3x9x12x14).spec_add(c3x10x12x13).spec_add(c0x10x13x15).spec_sub(c0x11x13x14).spec_sub(c2x8x13x15).spec_add(c2x11x12x13).spec_add(c3x8x13x14).spec_sub(c3x10x12x13).spec_add(c1x8x14x15).spec_sub(c1x11x12x14).spec_sub(c0x9x14x15).spec_add(c0x11x13x14).spec_sub(c3x8x13x14).spec_add(c3x9x12x14).spec_add(c0x9x14x15).spec_sub(c0x10x13x15).spec_sub(c1x8x14x15).spec_add(c1x10x12x15),
        c2x8x13x15,
        c2x9x12x15,
    );
    lemma_inv_chain13(c2x9x12x15, c2x11x12x13, c1x10x12x15, c1x11x12x14, c3x9x12x14, c3x10x12x13, c0x10x13x15, c0x11x13x14, c2x8x13x15, c3x8x13x14, c1x8x14x15, c0x9x14x15);
    lemma_zero_mul(inv_d);
    assert(mul_seq(inv, a)[13] == T::spec_zero());
}

proof fn lemma_inv_chain14<T: Scalar>(p1: T, p2: T, p3: T, p4: T, p5: T, p6: T)
    requires
        laws_sealed::<T>(),
    ensures
        p1.spec_sub(p2).spec_add(p3).spec_add(p4).spec_sub(p1).spec_sub(p5).spec_add(p2).spec_sub(p4).spec_add(p6).spec_add(p5).spec_sub(p3).spec_sub(p6) == T::spec_zero(),
{
    lemma_swap_as(p1.spec_sub(p2).spec_add(p3), p4, p1);
    lemma_swap_as(p1.spec_sub(p2), p3, p1);
    lemma_swap_ss(p1, p2, p1);
    lemma_swap_sa(p1.spec_sub(p1).spec_sub(p2).spec_add(p3).spec_add(p4), p5, p2);
    lemma_swap_aa(p1.spec_sub(p1).spec_sub(p2).spec_add(p3), p4, p2);
    lemma_swap_aa(p1.spec_sub(p1).spec_sub(p2), p3, p2);
    lemma_swap_sa(p1.spec_sub(p1), p2, p2);
    lemma_swap_as(p1.spec_sub(p1).spec_add(p2).spec_sub(p2).spec_add(p3).spec_add(p4).spec_sub(p5).spec_sub(p4).spec_add(p6), p5, p3);
    lemma_swap_as(p1.spec_sub(p1).spec_add(p2).spec_sub(p2).spec_add(p3).spec_add(p4).spec_sub(p5).spec_sub(p4), p6, p3);
    lemma_swap_ss(p1.spec_sub(p1).spec_add(p2).spec_sub(p2).spec_add(p3).spec_add(p4).spec_sub(p5), p4, p3);
    lemma_swap_ss(p1.spec_sub(p1).spec_add(p2).spec_sub(p2).spec_add(p3).spec_add(p4), p5, p3);
    lemma_swap_as(p1.spec_sub(p1).spec_add(p2).spec_sub(p2).spec_add(p3), p4, p3);
    lemma_swap_ss(p1.spec_sub(p1).spec_add(p2).spec_sub(p2).spec_add(p3).spec_sub(p3).spec_add(p4), p5, p4);
    lemma_swap_aa(p1.spec_sub(p1).spec_add(p2).spec_sub(p2).spec_add(p3).spec_sub(p3).spec_add(p4).spec_sub(p4).spec_sub(p5), p6, p5);
    lemma_swap_sa(p1.spec_sub(p1).spec_add(p2).spec_sub(p2).spec_add(p3).spec_sub(p3).spec_add(p4).spec_sub(p4), p5, p5);
    lemma_self_cancel(p1);
    lemma_cancel_adj(p1.spec_sub(p1), p2);
    lemma_cancel_adj(p1.spec_sub(p1).spec_add(p2).spec_sub(p2), p3);
    lemma_cancel_adj(p1.spec_sub(p1).spec_add(p2).spec_sub(p2).spec_add(p3).spec_sub(p3), p4);
    lemma_cancel_adj(p1.spec_sub(p1).spec_add(p2).spec_sub(p2).spec_add(p3).spec_sub(p3).spec_add(p4).spec_sub(p4), p5);
    lemma_cancel_adj(p1.spec_sub(p1).spec_add(p2).spec_sub(p2).spec_add(p3).spec_sub(p3).spec_add(p4).spec_sub(p4).spec_add(p5).spec_sub(p5), p6);
}

pub(crate) proof fn lemma_inv_entry14<T: Scalar>(a: Seq<T>)
    requires
        a.len() == 16,
        field_sealed::<T>(),
        !det_seq(a).spec_is_zero(),
    ensures
        mul_seq(inverse_seq(a), a)[14] == T::spec_zero(),
{
    lemma_field_gives_ring::<T>();
    let inv = inverse_seq(a);
    let inv_d = T::spec_one().spec_div(det_seq(a));
    let b00 = minor2(a, 0, 5, 1, 4);
    let b01 = minor2(a, 0, 6, 2, 4);
    let b02 = minor2(a, 0, 7, 3, 4);
    let b03 = minor2(a, 1, 6, 2, 5);
    let b04 = minor2(a, 1, 7, 3, 5);
    let b05 = minor2(a, 2, 7, 3, 6);
    let b06 = minor2(a, 8, 13, 9, 12);
    let b07 = minor2(a, 8, 14, 10, 12);
    let b08 = minor2(a, 8, 15, 11, 12);
    let b09 = minor2(a, 9, 14, 10, 13);
    let b10 = minor2(a, 9, 15, 11, 13);
    let b11 = minor2(a, 10, 15, 11, 14);
    assert(mul_seq(inv, a)[14] == a[12].spec_mul(inv[2]).spec_add(a[13].spec_mul(inv[6])).spec_add(a[14].spec_mul(inv[10])).spec_add(a[15].spec_mul(inv[14])));
    assert(inv[2] == a[13].spec_mul(b05).spec_sub(a[14].spec_mul(b04)).spec_add(a[15].spec_mul(b03)).spec_mul(inv_d));
    assert(inv[6] == a[14].spec_mul(b02).spec_sub(a[12].spec_mul(b05)).spec_sub(a[15].spec_mul(b01)).spec_mul(inv_d));
    assert(inv[10] == a[12].spec_mul(b04).spec_sub(a[13].spec_mul(b02)).spec_add(a[15].spec_mul(b00)).spec_mul(inv_d));
    assert(inv[14] == a[13].spec_mul(b01).spec_sub(a[12].spec_mul(b03)).spec_sub(a[14].spec_mul(b00)).spec_mul(inv_d));
    lemma_mul_assoc(a[12], a[13].spec_mul(b05).spec_sub(a[14].spec_mul(b04)).spec_add(a[15].spec_mul(b03)), inv_d);
    lemma_mul_assoc(a[13], a[14].spec_mul(b02).spec_sub(a[12].spec_mul(b05)).spec_sub(a[15].spec_mul(b01)), inv_d);
    lemma_mul_assoc(a[14], a[12].spec_mul(b04).spec_sub(a[13].spec_mul(b02)).spec_add(a[15].spec_mul(b00)), inv_d);
    lemma_mul_assoc(a[15], a[13].spec_mul(b01).spec_sub(a[12].spec_mul(b03)).spec_sub(a[14].spec_mul(b00)), inv_d);
    lemma_factor4(
        a[12].spec_mul(a[13].spec_mul(b05).spec_sub(a[14].spec_mul(b04)).spec_add(a[15].spec_mul(b03))),
        a[13].spec_mul(a[14].spec_mul(b02).spec_sub(a[12].spec_mul(b05)).spec_sub(a[15].spec_mul(b01))),
        a[14].spec_mul(a[12].spec_mul(b04).spec_sub(a[13].spec_mul(b02)).spec_add(a[15].spec_mul(b00))),
        a[15].spec_mul(a[13].spec_mul(b01).spec_sub(a[12].spec_mul(b03)).spec_sub(a[14].spec_mul(b00))),
        inv_d,
    );
    lemma_distrib3_pmp(a[12], a[13].spec_mul(b05), a[14].spec_mul(b04), a[15].spec_mul(b03));
    lemma_mul_assoc(a[12], a[13], b05);
    lemma_mul_assoc(a[12], a[14], b04);
    lemma_mul_assoc(a[12], a[15], b03);
    lemma_distrib3_pmm(a[13], a[14].spec_mul(b02), a[12].spec_mul(b05), a[15].spec_mul(b01));
    lemma_mul_assoc(a[13], a[14], b02);
    lemma_mul_assoc(a[13], a[12], b05);
    lemma_mul_comm(a[13], a[12]);
    lemma_mul_assoc(a[13], a[15], b01);
    lemma_distrib3_pmp(a[14], a[12].spec_mul(b04), a[13].spec_mul(b02), a[15].spec_mul(b00));
    lemma_mul_assoc(a[14], a[12], b04);
    lemma_mul_comm(a[14], a[12]);
    lemma_mul_assoc(a[14], a[13], b02);
    lemma_mul_comm(a[14], a[13]);
    lemma_mul_assoc(a[14], a[15], b00);
    lemma_distrib3_pmm(a[15], a[13].spec_mul(b01), a[12].spec_mul(b03), a[14].spec_mul(b00));
    lemma_mul_assoc(a[15], a[13], b01);
    lemma_mul_comm(a[15], a[13]);
    lemma_mul_assoc(a[15], a[12], b03);
    lemma_mul_comm(a[15], a[12]);
    lemma_mul_assoc(a[15], a[14], b00);
    lemma_mul_comm(a[15], a[14]);
    lemma_append3_pmm(
        a[12].spec_mul(a[13]).spec_mul(b05).spec_sub(a[12].spec_mul(a[14]).spec_mul(b04)).spec_add(a[12].spec_mul(a[15]).spec_mul(b03)),
        a[13].spec_mul(a[14]).spec_mul(b02),
        a[12].spec_mul(a[13]).spec_mul(b05),
        a[13].spec_mul(a[15]).spec_mul(b01),
    );
    lemma_append3_pmp(
        a[12].spec_mul(a[13]).spec_mul(b05).spec_sub(a[12].spec_mul(a[14]).spec_mul(b04)).spec_add(a[12].spec_mul(a[15]).spec_mul(b03)).spec_add(a[13].spec_mul(a[14]).spec_mul(b02)).spec_sub(a[12].spec_mul(a[13]).spec_mul(b05)).spec_sub(a[13].spec_mul(a[15]).spec_mul(b01)),
        a[12].spec_mul(a[14]).spec_mul(b04),
        a[13].spec_mul(a[14]).spec_mul(b02),
        a[14].spec_mul(a[15]).spec_mul(b00),
    );
    lemma_append3_pmm(
        a[12].spec_mul(a[13]).spec_mul(b05).spec_sub(a[12].spec_mul(a[14]).spec_mul(b04)).spec_add(a[12].spec_mul(a[15]).spec_mul(b03)).spec_add(a[13].spec_mul(a[14]).spec_mul(b02)).spec_sub(a[12].spec_mul(a[13]).spec_mul(b05)).spec_sub(a[13].spec_mul(a[15]).spec_mul(b01)).spec_add(a[12].spec_mul(a[14]).spec_mul(b04)).spec_sub(a[13].spec_mul(a[14]).spec_mul(b02)).spec_add(a[14].spec_mul(a[15]).spec_mul(b00)),
        a[13].spec_mul(a[15]).spec_mul(b01),
        a[12].spec_mul(a[15]).spec_mul(b03),
        a[14].spec_mul(a[15]).spec_mul(b00),
    );
    lemma_inv_chain14(
        a[12].spec_mul(a[13]).spec_mul(b05),
        a[12].spec_mul(a[14]).spec_mul(b04),
        a[12].spec_mul(a[15]).spec_mul(b03),
        a[13].spec_mul(a[14]).spec_mul(b02),
        a[13].spec_mul(a[15]).spec_mul(b01),
        a[14].spec_mul(a[15]).spec_mul(b00)
    );
    lemma_zero_mul(inv_d);
    assert(mul_seq(inv, a)[14] == T::spec_zero());
}

proof fn lemma_inv_chain15<T: Scalar>(p1: T, p2: T, p3: T, p4: T, p5: T, p6: T, p7: T, p8: T, p9: T, p10: T, p11: T, p12: T)
    requires
        laws_sealed::<T>(),
    ensures
        p1.spec_sub(p2).spec_sub(p3).spec_add(p4).spec_sub(p5).spec_add(p6).spec_add(p7).spec_sub(p8).spec_sub(p9).spec_add(p10).spec_sub(p11).spec_add(p12) == p12.spec_sub(p9).spec_sub(p11).spec_add(p6).spec_add(p7).spec_sub(p5).spec_add(p10).spec_sub(p3).spec_sub(p8).spec_add(p1).spec_add(p4).spec_sub(p2),
{
    lemma_swap_sa(p1.spec_sub(p2).spec_sub(p3).spec_add(p4).spec_sub(p5).spec_add(p6).spec_add(p7).spec_sub(p8).spec_sub(p9).spec_add(p10), p11, p12);
    lemma_swap_aa(p1.spec_sub(p2).spec_sub(p3).spec_add(p4).spec_sub(p5).spec_add(p6).spec_add(p7).spec_sub(p8).spec_sub(p9), p10, p12);
    lemma_swap_sa(p1.spec_sub(p2).spec_sub(p3).spec_add(p4).spec_sub(p5).spec_add(p6).spec_add(p7).spec_sub(p8), p9, p12);
    lemma_swap_sa(p1.spec_sub(p2).spec_sub(p3).spec_add(p4).spec_sub(p5).spec_add(p6).spec_add(p7), p8, p12);
    lemma_swap_aa(p1.spec_sub(p2).spec_sub(p3).spec_add(p4).spec_sub(p5).spec_add(p6), p7, p12);
    lemma_swap_aa(p1.spec_sub(p2).spec_sub(p3).spec_add(p4).spec_sub(p5), p6, p12);
    lemma_swap_sa(p1.spec_sub(p2).spec_sub(p3).spec_add(p4), p5, p12);
    lemma_swap_aa(p1.spec_sub(p2).spec_sub(p3), p4, p12);
    lemma_swap_sa(p1.spec_sub(p2), p3, p12);
    lemma_swap_sa(p1, p2, p12);
    lemma_add_comm(p1, p12);
    lemma_swap_ss(p12.spec_add(p1).spec_sub(p2).spec_sub(p3).spec_add(p4).spec_sub(p5).spec_add(p6).spec_add(p7), p8, p9);
    lemma_swap_as(p12.spec_add(p1).spec_sub(p2).spec_sub(p3).spec_add(p4).spec_sub(p5).spec_add(p6), p7, p9);
    lemma_swap_as(p12.spec_add(p1).spec_sub(p2).spec_sub(p3).spec_add(p4).spec_sub(p5), p6, p9);
    lemma_swap_ss(p12.spec_add(p1).spec_sub(p2).spec_sub(p3).spec_add(p4), p5, p9);
    lemma_swap_as(p12.spec_add(p1).spec_sub(p2).spec_sub(p3), p4, p9);
    lemma_swap_ss(p12.spec_add(p1).spec_sub(p2), p3, p9);
    lemma_swap_ss(p12.spec_add(p1), p2, p9);
    lemma_swap_as(p12, p1, p9);
    lemma_swap_as(p12.spec_sub(p9).spec_add(p1).spec_sub(p2).spec_sub(p3).spec_add(p4).spec_sub(p5).spec_add(p6).spec_add(p7).spec_sub(p8), p10, p11);
    lemma_swap_ss(p12.spec_sub(p9).spec_add(p1).spec_sub(p2).spec_sub(p3).spec_add(p4).spec_sub(p5).spec_add(p6).spec_add(p7), p8, p11);
    lemma_swap_as(p12.spec_sub(p9).spec_add(p1).spec_sub(p2).spec_sub(p3).spec_add(p4).spec_sub(p5).spec_add(p6), p7, p11);
    lemma_swap_as(p12.spec_sub(p9).spec_add(p1).spec_sub(p2).spec_sub(p3).spec_add(p4).spec_sub(p5), p6, p11);
    lemma_swap_ss(p12.spec_sub(p9).spec_add(p1).spec_sub(p2).spec_sub(p3).spec_add(p4), p5, p11);
    lemma_swap_as(p12.spec_sub(p9).spec_add(p1).spec_sub(p2).spec_sub(p3), p4, p11);
    lemma_swap_ss(p12.spec_sub(p9).spec_add(p1).spec_sub(p2), p3, p11);
    lemma_swap_ss(p12.spec_sub(p9).spec_add(p1), p2, p11);
    lemma_swap_as(p12.spec_sub(p9), p1, p11);
    lemma_swap_sa(p12.spec_sub(p9).spec_sub(p11).spec_add(p1).spec_sub(p2).spec_sub(p3).spec_add(p4), p5, p6);
    lemma_swap_aa(p12.spec_sub(p9).spec_sub(p11).spec_add(p1).spec_sub(p2).spec_sub(p3), p4, p6);
    lemma_swap_sa(p12.spec_sub(p9).spec_sub(p11).spec_add(p1).spec_sub(p2), p3, p6);
    lemma_swap_sa(p12.spec_sub(p9).spec_sub(p11).spec_add(p1), p2, p6);
    lemma_swap_aa(p12.spec_sub(p9).spec_sub(p11), p1, p6);
    lemma_swap_sa(p12.spec_sub(p9).spec_sub(p11).spec_add(p6).spec_add(p1).spec_sub(p2).spec_sub(p3).spec_add(p4), p5, p7);
    lemma_swap_aa(p12.spec_sub(p9).spec_sub(p11).spec_add(p6).spec_add(p1).spec_sub(p2).spec_sub(p3), p4, p7);
    lemma_swap_sa(p12.spec_sub(p9).spec_sub(p11).spec_add(p6).spec_add(p1).spec_sub(p2), p3, p7);
    lemma_swap_sa(p12.spec_sub(p9).spec_sub(p11).spec_add(p6).spec_add(p1), p2, p7);
    lemma_swap_aa(p12.spec_sub(p9).spec_sub(p11).spec_add(p6), p1, p7);
    lemma_swap_as(p12.spec_sub(p9).spec_sub(p11).spec_add(p6).spec_add(p7).spec_add(p1).spec_sub(p2).spec_sub(p3), p4, p5);
    lemma_swap_ss(p12.spec_sub(p9).spec_sub(p11).spec_add(p6).spec_add(p7).spec_add(p1).spec_sub(p2), p3, p5);
    lemma_swap_ss(p12.spec_sub(p9).spec_sub(p11).spec_add(p6).spec_add(p7).spec_add(p1), p2, p5);
    lemma_swap_as(p12.spec_sub(p9).spec_sub(p11).spec_add(p6).spec_add(p7), p1, p5);
    lemma_swap_sa(p12.spec_sub(p9).spec_sub(p11).spec_add(p6).spec_add(p7).spec_sub(p5).spec_add(p1).spec_sub(p2).spec_sub(p3).spec_add(p4), p8, p10);
    lemma_swap_aa(p12.spec_sub(p9).spec_sub(p11).spec_add(p6).spec_add(p7).spec_sub(p5).spec_add(p1).spec_sub(p2).spec_sub(p3), p4, p10);
    lemma_swap_sa(p12.spec_sub(p9).spec_sub(p11).spec_add(p6).spec_add(p7).spec_sub(p5).spec_add(p1).spec_sub(p2), p3, p10);
    lemma_swap_sa(p12.spec_sub(p9).spec_sub(p11).spec_add(p6).spec_add(p7).spec_sub(p5).spec_add(p1), p2, p10);
    lemma_swap_aa(p12.spec_sub(p9).spec_sub(p11).spec_add(p6).spec_add(p7).spec_sub(p5), p1, p10);
    lemma_swap_ss(p12.spec_sub(p9).spec_sub(p11).spec_add(p6).spec_add(p7).spec_sub(p5).spec_add(p10).spec_add(p1), p2, p3);
    lemma_swap_as(p12.spec_sub(p9).spec_sub(p11).spec_add(p6).spec_add(p7).spec_sub(p5).spec_add(p10), p1, p3);
    lemma_swap_as(p12.spec_sub(p9).spec_sub(p11).spec_add(p6).spec_add(p7).spec_sub(p5).spec_add(p10).spec_sub(p3).spec_add(p1).spec_sub(p2), p4, p8);
    lemma_swap_ss(p12.spec_sub(p9).spec_sub(p11).spec_add(p6).spec_add(p7).spec_sub(p5).spec_add(p10).spec_sub(p3).spec_add(p1), p2, p8);
    lemma_swap_as(p12.spec_sub(p9).spec_sub(p11).spec_add(p6).spec_add(p7).spec_sub(p5).spec_add(p10).spec_sub(p3), p1, p8);
    lemma_swap_sa(p12.spec_sub(p9).spec_sub(p11).spec_add(p6).spec_add(p7).spec_sub(p5).spec_add(p10).spec_sub(p3).spec_sub(p8).spec_add(p1), p2, p4);
}

pub(crate) proof fn lemma_inv_entry15<T: Scalar>(a: Seq<T>)
    requires
        a.len() == 16,
        field_sealed::<T>(),
        !det_seq(a).spec_is_zero(),
    ensures
        mul_seq(inverse_seq(a), a)[15] == T::spec_one(),
{
    lemma_field_gives_ring::<T>();
    let inv = inverse_seq(a);
    let inv_d = T::spec_one().spec_div(det_seq(a));
    let b00 = minor2(a, 0, 5, 1, 4);
    let b01 = minor2(a, 0, 6, 2, 4);
    let b02 = minor2(a, 0, 7, 3, 4);
    let b03 = minor2(a, 1, 6, 2, 5);
    let b04 = minor2(a, 1, 7, 3, 5);
    let b05 = minor2(a, 2, 7, 3, 6);
    let b06 = minor2(a, 8, 13, 9, 12);
    let b07 = minor2(a, 8, 14, 10, 12);
    let b08 = minor2(a, 8, 15, 11, 12);
    let b09 = minor2(a, 9, 14, 10, 13);
    let b10 = minor2(a, 9, 15, 11, 13);
    let b11 = minor2(a, 10, 15, 11, 14);
    assert(mul_seq(inv, a)[15] == a[12].spec_mul(inv[3]).spec_add(a[13].spec_mul(inv[7])).spec_add(a[14].spec_mul(inv[11])).spec_add(a[15].spec_mul(inv[15])));
    assert(inv[3] == a[10].spec_mul(b04).spec_sub(a[9].spec_mul(b05)).spec_sub(a[11].spec_mul(b03)).spec_mul(inv_d));
    assert(inv[7] == a[8].spec_mul(b05).spec_sub(a[10].spec_mul(b02)).spec_add(a[11].spec_mul(b01)).spec_mul(inv_d));
    assert(inv[11] == a[9].spec_mul(b02).spec_sub(a[8].spec_mul(b04)).spec_sub(a[11].spec_mul(b00)).spec_mul(inv_d));
    assert(inv[15] == a[8].spec_mul(b03).spec_sub(a[9].spec_mul(b01)).spec_add(a[10].spec_mul(b00)).spec_mul(inv_d));
    lemma_mul_assoc(a[12], a[10].spec_mul(b04).spec_sub(a[9].spec_mul(b05)).spec_sub(a[11].spec_mul(b03)), inv_d);
    lemma_mul_assoc(a[13], a[8].spec_mul(b05).spec_sub(a[10].spec_mul(b02)).spec_add(a[11].spec_mul(b01)), inv_d);
    lemma_mul_assoc(a[14], a[9].spec_mul(b02).spec_sub(a[8].spec_mul(b04)).spec_sub(a[11].spec_mul(b00)), inv_d);
    lemma_mul_assoc(a[15], a[8].spec_mul(b03).spec_sub(a[9].spec_mul(b01)).spec_add(a[10].spec_mul(b00)), inv_d);
    lemma_factor4(
        a[12].spec_mul(a[10].spec_mul(b04).spec_sub(a[9].spec_mul(b05)).spec_sub(a[11].spec_mul(b03))),
        a[13].spec_mul(a[8].spec_mul(b05).spec_sub(a[10].spec_mul(b02)).spec_add(a[11].spec_mul(b01))),
        a[14].spec_mul(a[9].spec_mul(b02).spec_sub(a[8].spec_mul(b04)).spec_sub(a[11].spec_mul(b00))),
        a[15].spec_mul(a[8].spec_mul(b03).spec_sub(a[9].spec_mul(b01)).spec_add(a[10].spec_mul(b00))),
        inv_d,
    );
    lemma_distrib3_pmm(a[12], a[10].spec_mul(b04), a[9].spec_mul(b05), a[11].spec_mul(b03));
    lemma_mul_assoc(a[12], a[10], b04);
    lemma_mul_comm(a[12], a[10]);
    lemma_mul_assoc(a[12], a[9], b05);
    lemma_mul_comm(a[12], a[9]);
    lemma_mul_assoc(a[12], a[11], b03);
    lemma_mul_comm(a[12], a[11]);
    lemma_distrib3_pmp(a[13], a[8].spec_mul(b05), a[10].spec_mul(b02), a[11].spec_mul(b01));
    lemma_mul_assoc(a[13], a[8], b05);
    lemma_mul_comm(a[13], a[8]);
    lemma_mul_assoc(a[13], a[10], b02);
    lemma_mul_comm(a[13], a[10]);
    lemma_mul_assoc(a[13], a[11], b01);
    lemma_mul_comm(a[13], a[11]);
    lemma_distrib3_pmm(a[14], a[9].spec_mul(b02), a[8].spec_mul(b04), a[11].spec_mul(b00));
    lemma_mul_assoc(a[14], a[9], b02);
    lemma_mul_comm(a[14], a[9]);
    lemma_mul_assoc(a[14], a[8], b04);
    lemma_mul_comm(a[14], a[8]);
    lemma_mul_assoc(a[14], a[11], b00);
    lemma_mul_comm(a[14], a[11]);
    lemma_distrib3_pmp(a[15], a[8].spec_mul(b03), a[9].spec_mul(b01), a[10].spec_mul(b00));
    lemma_mul_assoc(a[15], a[8], b03);
    lemma_mul_comm(a[15], a[8]);
    lemma_mul_assoc(a[15], a[9], b01);
    lemma_mul_comm(a[15], a[9]);
    lemma_mul_assoc(a[15], a[10], b00);
    lemma_mul_comm(a[15], a[10]);
    lemma_append3_pmp(
        a[10].spec_mul(a[12]).spec_mul(b04).spec_sub(a[9].spec_mul(a[12]).spec_mul(b05)).spec_sub(a[11].spec_mul(a[12]).spec_mul(b03)),
        a[8].spec_mul(a[13]).spec_mul(b05),
        a[10].spec_mul(a[13]).spec_mul(b02),
        a[11].spec_mul(a[13]).spec_mul(b01),
    );
    lemma_append3_pmm(
        a[10].spec_mul(a[12]).spec_mul(b04).spec_sub(a[9].spec_mul(a[12]).spec_mul(b05)).spec_sub(a[11].spec_mul(a[12]).spec_mul(b03)).spec_add(a[8].spec_mul(a[13]).spec_mul(b05)).spec_sub(a[10].spec_mul(a[13]).spec_mul(b02)).spec_add(a[11].spec_mul(a[13]).spec_mul(b01)),
        a[9].spec_mul(a[14]).spec_mul(b02),
        a[8].spec_mul(a[14]).spec_mul(b04),
        a[11].spec_mul(a[14]).spec_mul(b00),
    );
    lemma_append3_pmp(
        a[10].spec_mul(a[12]).spec_mul(b04).spec_sub(a[9].spec_mul(a[12]).spec_mul(b05)).spec_sub(a[11].spec_mul(a[12]).spec_mul(b03)).spec_add(a[8].spec_mul(a[13]).spec_mul(b05)).spec_sub(a[10].spec_mul(a[13]).spec_mul(b02)).spec_add(a[11].spec_mul(a[13]).spec_mul(b01)).spec_add(a[9].spec_mul(a[14]).spec_mul(b02)).spec_sub(a[8].spec_mul(a[14]).spec_mul(b04)).spec_sub(a[11].spec_mul(a[14]).spec_mul(b00)),
        a[8].spec_mul(a[15]).spec_mul(b03),
        a[9].spec_mul(a[15]).spec_mul(b01),
        a[10].spec_mul(a[15]).spec_mul(b00),
    );
    lemma_mul_comm(b00, b11);
    lemma_mul_comm(b01, b10);
    lemma_mul_comm(b02, b09);
    lemma_mul_comm(b03, b08);
    lemma_mul_comm(b04, b07);
    lemma_mul_comm(b05, b06);
    lemma_expand_minor_prod(a[10].spec_mul(a[15]), a[11].spec_mul(a[14]), b00);
    lemma_expand_minor_prod(a[9].spec_mul(a[15]), a[11].spec_mul(a[13]), b01);
    lemma_append2_neg(
        a[10].spec_mul(a[15]).spec_mul(b00).spec_sub(a[11].spec_mul(a[14]).spec_mul(b00)),
        a[9].spec_mul(a[15]).spec_mul(b01),
        a[11].spec_mul(a[13]).spec_mul(b01),
    );
    lemma_expand_minor_prod(a[9].spec_mul(a[14]), a[10].spec_mul(a[13]), b02);
    lemma_append2_pos(
        a[10].spec_mul(a[15]).spec_mul(b00).spec_sub(a[11].spec_mul(a[14]).spec_mul(b00)).spec_sub(a[9].spec_mul(a[15]).spec_mul(b01)).spec_add(a[11].spec_mul(a[13]).spec_mul(b01)),
        a[9].spec_mul(a[14]).spec_mul(b02),
        a[10].spec_mul(a[13]).spec_mul(b02),
    );
    lemma_expand_minor_prod(a[8].spec_mul(a[15]), a[11].spec_mul(a[12]), b03);
    lemma_append2_pos(
        a[10].spec_mul(a[15]).spec_mul(b00).spec_sub(a[11].spec_mul(a[14]).spec_mul(b00)).spec_sub(a[9].spec_mul(a[15]).spec_mul(b01)).spec_add(a[11].spec_mul(a[13]).spec_mul(b01)).spec_add(a[9].spec_mul(a[14]).spec_mul(b02)).spec_sub(a[10].spec_mul(a[13]).spec_mul(b02)),
        a[8].spec_mul(a[15]).spec_mul(b03),
        a[11].spec_mul(a[12]).spec_mul(b03),
    );
    lemma_expand_minor_prod(a[8].spec_mul(a[14]), a[10].spec_mul(a[12]), b04);
    lemma_append2_neg(
        a[10].spec_mul(a[15]).spec_mul(b00).spec_sub(a[11].spec_mul(a[14]).spec_mul(b00)).spec_sub(a[9].spec_mul(a[15]).spec_mul(b01)).spec_add(a[11].spec_mul(a[13]).spec_mul(b01)).spec_add(a[9].spec_mul(a[14]).spec_mul(b02)).spec_sub(a[10].spec_mul(a[13]).spec_mul(b02)).spec_add(a[8].spec_mul(a[15]).spec_mul(b03)).spec_sub(a[11].spec_mul(a[12]).spec_mul(b03)),
        a[8].spec_mul(a[14]).spec_mul(b04),
        a[10].spec_mul(a[12]).spec_mul(b04),
    );
    lemma_expand_minor_prod(a[8].spec_mul(a[13]), a[9].spec_mul(a[12]), b05);
    lemma_append2_pos(
        a[10].spec_mul(a[15]).spec_mul(b00).spec_sub(a[11].spec_mul(a[14]).spec_mul(b00)).spec_sub(a[9].spec_mul(a[15]).spec_mul(b01)).spec_add(a[11].spec_mul(a[13]).spec_mul(b01)).spec_add(a[9].spec_mul(a[14]).spec_mul(b02)).spec_sub(a[10].spec_mul(a[13]).spec_mul(b02)).spec_add(a[8].spec_mul(a[15]).spec_mul(b03)).spec_sub(a[11].spec_mul(a[12]).spec_mul(b03)).spec_sub(a[8].spec_mul(a[14]).spec_mul(b04)).spec_add(a[10].spec_mul(a[12]).spec_mul(b04)),
        a[8].spec_mul(a[13]).spec_mul(b05),
        a[9].spec_mul(a[12]).spec_mul(b05),
    );
    lemma_inv_chain15(
        a[10].spec_mul(a[12]).spec_mul(b04),
        a[9].spec_mul(a[12]).spec_mul(b05),
        a[11].spec_mul(a[12]).spec_mul(b03),
        a[8].spec_mul(a[13]).spec_mul(b05),
        a[10].spec_mul(a[13]).spec_mul(b02),
        a[11].spec_mul(a[13]).spec_mul(b01),
        a[9].spec_mul(a[14]).spec_mul(b02),
        a[8].spec_mul(a[14]).spec_mul(b04),
        a[11].spec_mul(a[14]).spec_mul(b00),
        a[8].spec_mul(a[15]).spec_mul(b03),
        a[9].spec_mul(a[15]).spec_mul(b01),
        a[10].spec_mul(a[15]).spec_mul(b00)
    );
    assert(mul_seq(inv, a)[15] == det_seq(a).spec_mul(inv_d));
    lemma_recip(det_seq(a));
    assert(mul_seq(inv, a)[15] == T::spec_one());
}

/// The assembled identity: every element of the product of the inverse with
/// the original matrix equals the corresponding element of the identity
/// matrix.
#[verifier::rlimit(50)]
#[verifier::spinoff_prover]
pub(crate) proof fn lemma_inverse_mul_left_sealed<T: Scalar>(a: Seq<T>)
    requires
        a.len() == 16,
        field_sealed::<T>(),
        !det_seq(a).spec_is_zero(),
    ensures
        mul_seq(inverse_seq(a), a) == identity_seq::<T>(),
{
    assert(mul_seq(inverse_seq(a), a) =~= identity_seq::<T>()) by {
        assert forall|i: int| 0 <= i < 16 implies mul_seq(inverse_seq(a), a)[i]
            == identity_seq::<T>()[i] by {
            if i == 0 {
                lemma_inv_entry0(a);
                assert(mul_seq(inverse_seq(a), a)[0] == T::spec_one());
                assert(identity_seq::<T>()[0] == T::spec_one());
            } else if i == 1 {
                lemma_inv_entry1(a);
                assert(mul_seq(inverse_seq(a), a)[1] == T::spec_zero());
                assert(identity_seq::<T>()[1] == T::spec_zero());
            } else if i == 2 {
                lemma_inv_entry2(a);
                assert(mul_seq(inverse_seq(a), a)[2] == T::spec_zero());
                assert(identity_seq::<T>()[2] == T::spec_zero());
            } else if i == 3 {
                lemma_inv_entry3(a);
                assert(mul_seq(inverse_seq(a), a)[3] == T::spec_zero());
                assert(identity_seq::<T>()[3] == T::spec_zero());
            } else if i == 4 {
                lemma_inv_entry4(a);
                assert(mul_seq(inverse_seq(a), a)[4] == T::spec_zero());
                assert(identity_seq::<T>()[4] == T::spec_zero());
            } else if i == 5 {
                lemma_inv_entry5(a);
                assert(mul_seq(inverse_seq(a), a)[5] == T::spec_one());
                assert(identity_seq::<T>()[5] == T::spec_one());
            } else if i == 6 {
                lemma_inv_entry6(a);
                assert(mul_seq(inverse_seq(a), a)[6] == T::spec_zero());
                assert(identity_seq::<T>()[6] == T::spec_zero());
            } else if i == 7 {
                lemma_inv_entry7(a);
                assert(mul_seq(inverse_seq(a), a)[7] == T::spec_zero());
                assert(identity_seq::<T>()[7] == T::spec_zero());
            } else if i == 8 {
                lemma_inv_entry8(a);
                assert(mul_seq(inverse_seq(a), a)[8] == T::spec_zero());
                assert(identity_seq::<T>()[8] == T::spec_zero());
            } else if i == 9 {
                lemma_inv_entry9(a);
                assert(mul_seq(inverse_seq(a), a)[9] == T::spec_zero());
                assert(identity_seq::<T>()[9] == T::spec_zero());
            } else if i == 10 {
                lemma_inv_entry10(a);
                assert(mul_seq(inverse_seq(a), a)[10] == T::spec_one());
                assert(identity_seq::<T>()[10] == T::spec_one());
            } else if i == 11 {
                lemma_inv_entry11(a);
                assert(mul_seq(inverse_seq(a), a)[11] == T::spec_zero());
                assert(identity_seq::<T>()[11] == T::spec_zero());
            } else if i == 12 {
                lemma_inv_entry12(a);
                assert(mul_seq(inverse_seq(a), a)[12] == T::spec_zero());
                assert(identity_seq::<T>()[12] == T::spec_zero());
            } else if i == 13 {
                lemma_inv_entry13(a);
                assert(mul_seq(inverse_seq(a), a)[13] == T::spec_zero());
                assert(identity_seq::<T>()[13] == T::spec_zero());
            } else if i == 14 {
                lemma_inv_entry14(a);
                assert(mul_seq(inverse_seq(a), a)[14] == T::spec_zero());
                assert(identity_seq::<T>()[14] == T::spec_zero());
            } else if i == 15 {
                lemma_inv_entry15(a);
                assert(mul_seq(inverse_seq(a), a)[15] == T::spec_one());
                assert(identity_seq::<T>()[15] == T::spec_one());
            }
        }
    }
}

proof fn lemma_inv_right_chain0<T: Scalar>(p1: T, p2: T, p3: T, p4: T, p5: T, p6: T, p7: T, p8: T, p9: T, p10: T, p11: T, p12: T)
    requires
        laws_sealed::<T>(),
    ensures
        p1.spec_sub(p2).spec_add(p3).spec_add(p4).spec_sub(p5).spec_sub(p6).spec_add(p7).spec_sub(p8).spec_add(p9).spec_add(p10).spec_sub(p11).spec_sub(p12) == p1.spec_sub(p5).spec_sub(p2).spec_add(p4).spec_add(p3).spec_sub(p6).spec_add(p9).spec_sub(p12).spec_sub(p8).spec_add(p10).spec_add(p7).spec_sub(p11),
{
    lemma_swap_as(p1.spec_sub(p2).spec_add(p3), p4, p5);
    lemma_swap_as(p1.spec_sub(p2), p3, p5);
    lemma_swap_ss(p1, p2, p5);
    lemma_swap_aa(p1.spec_sub(p5).spec_sub(p2), p3, p4);
    lemma_swap_sa(p1.spec_sub(p5).spec_sub(p2).spec_add(p4).spec_add(p3).spec_sub(p6).spec_add(p7), p8, p9);
    lemma_swap_aa(p1.spec_sub(p5).spec_sub(p2).spec_add(p4).spec_add(p3).spec_sub(p6), p7, p9);
    lemma_swap_ss(p1.spec_sub(p5).spec_sub(p2).spec_add(p4).spec_add(p3).spec_sub(p6).spec_add(p9).spec_add(p7).spec_sub(p8).spec_add(p10), p11, p12);
    lemma_swap_as(p1.spec_sub(p5).spec_sub(p2).spec_add(p4).spec_add(p3).spec_sub(p6).spec_add(p9).spec_add(p7).spec_sub(p8), p10, p12);
    lemma_swap_ss(p1.spec_sub(p5).spec_sub(p2).spec_add(p4).spec_add(p3).spec_sub(p6).spec_add(p9).spec_add(p7), p8, p12);
    lemma_swap_as(p1.spec_sub(p5).spec_sub(p2).spec_add(p4).spec_add(p3).spec_sub(p6).spec_add(p9), p7, p12);
    lemma_swap_as(p1.spec_sub(p5).spec_sub(p2).spec_add(p4).spec_add(p3).spec_sub(p6).spec_add(p9).spec_sub(p12), p7, p8);
    lemma_swap_aa(p1.spec_sub(p5).spec_sub(p2).spec_add(p4).spec_add(p3).spec_sub(p6).spec_add(p9).spec_sub(p12).spec_sub(p8), p7, p10);
}

pub(crate) proof fn lemma_inv_right_entry0<T: Scalar>(a: Seq<T>)
    requires
        a.len() == 16,
        field_sealed::<T>(),
        !det_seq(a).spec_is_zero(),
    ensures
        mul_seq(a, inverse_seq(a))[0] == T::spec_one(),
{
    lemma_field_gives_ring::<T>();
    let inv = inverse_seq(a);
    let inv_d = T::spec_one().spec_div(det_seq(a));
    let b00 = minor2(a, 0, 5, 1, 4);
    let b01 = minor2(a, 0, 6, 2, 4);
    let b02 = minor2(a, 0, 7, 3, 4);
    let b03 = minor2(a, 1, 6, 2, 5);
    let b04 = minor2(a, 1, 7, 3, 5);
    let b05 = minor2(a, 2, 7, 3, 6);
    let b06 = minor2(a, 8, 13, 9, 12);
    let b07 = minor2(a, 8, 14, 10, 12);
    let b08 = minor2(a, 8, 15, 11, 12);
    let b09 = minor2(a, 9, 14, 10, 13);
    let b10 = minor2(a, 9, 15, 11, 13);
    let b11 = minor2(a, 10, 15, 11, 14);
    assert(mul_seq(a, inv)[0] == inv[0].spec_mul(a[0]).spec_add(inv[1].spec_mul(a[4])).spec_add(inv[2].spec_mul(a[8])).spec_add(inv[3].spec_mul(a[12])));
    assert(inv[0] == a[5].spec_mul(b11).spec_sub(a[6].spec_mul(b10)).spec_add(a[7].spec_mul(b09)).spec_mul(inv_d));
    assert(inv[1] == a[2].spec_mul(b10).spec_sub(a[1].spec_mul(b11)).spec_sub(a[3].spec_mul(b09)).spec_mul(inv_d));
    assert(inv[2] == a[13].spec_mul(b05).spec_sub(a[14].spec_mul(b04)).spec_add(a[15].spec_mul(b03)).spec_mul(inv_d));
    assert(inv[3] == a[10].spec_mul(b04).spec_sub(a[9].spec_mul(b05)).spec_sub(a[11].spec_mul(b03)).spec_mul(inv_d));
    lemma_mul_comm(a[5].spec_mul(b11).spec_sub(a[6].spec_mul(b10)).spec_add(a[7].spec_mul(b09)).spec_mul(inv_d), a[0]);
    lemma_mul_comm(a[2].spec_mul(b10).spec_sub(a[1].spec_mul(b11)).spec_sub(a[3].spec_mul(b09)).spec_mul(inv_d), a[4]);
    lemma_mul_comm(a[13].spec_mul(b05).spec_sub(a[14].spec_mul(b04)).spec_add(a[15].spec_mul(b03)).spec_mul(inv_d), a[8]);
    lemma_mul_comm(a[10].spec_mul(b04).spec_sub(a[9].spec_mul(b05)).spec_sub(a[11].spec_mul(b03)).spec_mul(inv_d), a[12]);
    lemma_mul_assoc(a[0], a[5].spec_mul(b11).spec_sub(a[6].spec_mul(b10)).spec_add(a[7].spec_mul(b09)), inv_d);
    lemma_mul_assoc(a[4], a[2].spec_mul(b10).spec_sub(a[1].spec_mul(b11)).spec_sub(a[3].spec_mul(b09)), inv_d);
    lemma_mul_assoc(a[8], a[13].spec_mul(b05).spec_sub(a[14].spec_mul(b04)).spec_add(a[15].spec_mul(b03)), inv_d);
    lemma_mul_assoc(a[12], a[10].spec_mul(b04).spec_sub(a[9].spec_mul(b05)).spec_sub(a[11].spec_mul(b03)), inv_d);
    lemma_factor4(
        a[0].spec_mul(a[5].spec_mul(b11).spec_sub(a[6].spec_mul(b10)).spec_add(a[7].spec_mul(b09))),
        a[4].spec_mul(a[2].spec_mul(b10).spec_sub(a[1].spec_mul(b11)).spec_sub(a[3].spec_mul(b09))),
        a[8].spec_mul(a[13].spec_mul(b05).spec_sub(a[14].spec_mul(b04)).spec_add(a[15].spec_mul(b03))),
        a[12].spec_mul(a[10].spec_mul(b04).spec_sub(a[9].spec_mul(b05)).spec_sub(a[11].spec_mul(b03))),
        inv_d,
    );
    lemma_distrib3_pmp(a[0], a[5].spec_mul(b11), a[6].spec_mul(b10), a[7].spec_mul(b09));
    lemma_mul_assoc(a[0], a[5], b11);
    lemma_mul_assoc(a[0], a[6], b10);
    lemma_mul_assoc(a[0], a[7], b09);
    lemma_distrib3_pmm(a[4], a[2].spec_mul(b10), a[1].spec_mul(b11), a[3].spec_mul(b09));
    lemma_mul_assoc(a[4], a[2], b10);
    lemma_mul_comm(a[4], a[2]);
    lemma_mul_assoc(a[4], a[1], b11);
    lemma_mul_comm(a[4], a[1]);
    lemma_mul_assoc(a[4], a[3], b09);
    lemma_mul_comm(a[4], a[3]);
    lemma_distrib3_pmp(a[8], a[13].spec_mul(b05), a[14].spec_mul(b04), a[15].spec_mul(b03));
    lemma_mul_assoc(a[8], a[13], b05);
    lemma_mul_assoc(a[8], a[14], b04);
    lemma_mul_assoc(a[8], a[15], b03);
    lemma_distrib3_pmm(a[12], a[10].spec_mul(b04), a[9].spec_mul(b05), a[11].spec_mul(b03));
    lemma_mul_assoc(a[12], a[10], b04);
    lemma_mul_comm(a[12], a[10]);
    lemma_mul_assoc(a[12], a[9], b05);
    lemma_mul_comm(a[12], a[9]);
    lemma_mul_assoc(a[12], a[11], b03);
    lemma_mul_comm(a[12], a[11]);
    lemma_append3_pmm(
        a[0].spec_mul(a[5]).spec_mul(b11).spec_sub(a[0].spec_mul(a[6]).spec_mul(b10)).spec_add(a[0].spec_mul(a[7]).spec_mul(b09)),
        a[2].spec_mul(a[4]).spec_mul(b10),
        a[1].spec_mul(a[4]).spec_mul(b11),
        a[3].spec_mul(a[4]).spec_mul(b09),
    );
    lemma_append3_pmp(
        a[0].spec_mul(a[5]).spec_mul(b11).spec_sub(a[0].spec_mul(a[6]).spec_mul(b10)).spec_add(a[0].spec_mul(a[7]).spec_mul(b09)).spec_add(a[2].spec_mul(a[4]).spec_mul(b10)).spec_sub(a[1].spec_mul(a[4]).spec_mul(b11)).spec_sub(a[3].spec_mul(a[4]).spec_mul(b09)),
        a[8].spec_mul(a[13]).spec_mul(b05),
        a[8].spec_mul(a[14]).spec_mul(b04),
        a[8].spec_mul(a[15]).spec_mul(b03),
    );
    lemma_append3_pmm(
        a[0].spec_mul(a[5]).spec_mul(b11).spec_sub(a[0].spec_mul(a[6]).spec_mul(b10)).spec_add(a[0].spec_mul(a[7]).spec_mul(b09)).spec_add(a[2].spec_mul(a[4]).spec_mul(b10)).spec_sub(a[1].spec_mul(a[4]).spec_mul(b11)).spec_sub(a[3].spec_mul(a[4]).spec_mul(b09)).spec_add(a[8].spec_mul(a[13]).spec_mul(b05)).spec_sub(a[8].spec_mul(a[14]).spec_mul(b04)).spec_add(a[8].spec_mul(a[15]).spec_mul(b03)),
        a[10].spec_mul(a[12]).spec_mul(b04),
        a[9].spec_mul(a[12]).spec_mul(b05),
        a[11].spec_mul(a[12]).spec_mul(b03),
    );
    lemma_mul_comm(b03, b08);
    lemma_mul_comm(b04, b07);
    lemma_mul_comm(b05, b06);
    lemma_expand_minor_prod(a[0].spec_mul(a[5]), a[1].spec_mul(a[4]), b11);
    lemma_expand_minor_prod(a[0].spec_mul(a[6]), a[2].spec_mul(a[4]), b10);
    lemma_append2_neg(
        a[0].spec_mul(a[5]).spec_mul(b11).spec_sub(a[1].spec_mul(a[4]).spec_mul(b11)),
        a[0].spec_mul(a[6]).spec_mul(b10),
        a[2].spec_mul(a[4]).spec_mul(b10),
    );
    lemma_expand_minor_prod(a[0].spec_mul(a[7]), a[3].spec_mul(a[4]), b09);
    lemma_append2_pos(
        a[0].spec_mul(a[5]).spec_mul(b11).spec_sub(a[1].spec_mul(a[4]).spec_mul(b11)).spec_sub(a[0].spec_mul(a[6]).spec_mul(b10)).spec_add(a[2].spec_mul(a[4]).spec_mul(b10)),
        a[0].spec_mul(a[7]).spec_mul(b09),
        a[3].spec_mul(a[4]).spec_mul(b09),
    );
    lemma_expand_minor_prod(a[8].spec_mul(a[15]), a[11].spec_mul(a[12]), b03);
    lemma_append2_pos(
        a[0].spec_mul(a[5]).spec_mul(b11).spec_sub(a[1].spec_mul(a[4]).spec_mul(b11)).spec_sub(a[0].spec_mul(a[6]).spec_mul(b10)).spec_add(a[2].spec_mul(a[4]).spec_mul(b10)).spec_add(a[0].spec_mul(a[7]).spec_mul(b09)).spec_sub(a[3].spec_mul(a[4]).spec_mul(b09)),
        a[8].spec_mul(a[15]).spec_mul(b03),
        a[11].spec_mul(a[12]).spec_mul(b03),
    );
    lemma_expand_minor_prod(a[8].spec_mul(a[14]), a[10].spec_mul(a[12]), b04);
    lemma_append2_neg(
        a[0].spec_mul(a[5]).spec_mul(b11).spec_sub(a[1].spec_mul(a[4]).spec_mul(b11)).spec_sub(a[0].spec_mul(a[6]).spec_mul(b10)).spec_add(a[2].spec_mul(a[4]).spec_mul(b10)).spec_add(a[0].spec_mul(a[7]).spec_mul(b09)).spec_sub(a[3].spec_mul(a[4]).spec_mul(b09)).spec_add(a[8].spec_mul(a[15]).spec_mul(b03)).spec_sub(a[11].spec_mul(a[12]).spec_mul(b03)),
        a[8].spec_mul(a[14]).spec_mul(b04),
        a[10].spec_mul(a[12]).spec_mul(b04),
    );
    lemma_expand_minor_prod(a[8].spec_mul(a[13]), a[9].spec_mul(a[12]), b05);
    lemma_append2_pos(
        a[0].spec_mul(a[5]).spec_mul(b11).spec_sub(a[1].spec_mul(a[4]).spec_mul(b11)).spec_sub(a[0].spec_mul(a[6]).spec_mul(b10)).spec_add(a[2].spec_mul(a[4]).spec_mul(b10)).spec_add(a[0].spec_mul(a[7]).spec_mul(b09)).spec_sub(a[3].spec_mul(a[4]).spec_mul(b09)).spec_add(a[8].spec_mul(a[15]).spec_mul(b03)).spec_sub(a[11].spec_mul(a[12]).spec_mul(b03)).spec_sub(a[8].spec_mul(a[14]).spec_mul(b04)).spec_add(a[10].spec_mul(a[12]).spec_mul(b04)),
        a[8].spec_mul(a[13]).spec_mul(b05),
        a[9].spec_mul(a[12]).spec_mul(b05),
    );
    lemma_inv_right_chain0(
        a[0].spec_mul(a[5]).spec_mul(b11),
        a[0].spec_mul(a[6]).spec_mul(b10),
        a[0].spec_mul(a[7]).spec_mul(b09),
        a[2].spec_mul(a[4]).spec_mul(b10),
        a[1].spec_mul(a[4]).spec_mul(b11),
        a[3].spec_mul(a[4]).spec_mul(b09),
        a[8].spec_mul(a[13]).spec_mul(b05),
        a[8].spec_mul(a[14]).spec_mul(b04),
        a[8].spec_mul(a[15]).spec_mul(b03),
        a[10].spec_mul(a[12]).spec_mul(b04),
        a[9].spec_mul(a[12]).spec_mul(b05),
        a[11].spec_mul(a[12]).spec_mul(b03)
    );
    assert(mul_seq(a, inv)[0] == det_seq(a).spec_mul(inv_d));
    lemma_recip(det_seq(a));
    assert(mul_seq(a, inv)[0] == T::spec_one());
}

proof fn lemma_inv_right_chain1<T: Scalar>(p1: T, p2: T, p3: T, p4: T, p5: T, p6: T, p7: T, p8: T, p9: T, p10: T, p11: T, p12: T)
    requires
        laws_sealed::<T>(),
    ensures
        p1.spec_sub(p2).spec_sub(p3).spec_add(p4).spec_add(p5).spec_sub(p6).spec_add(p7).spec_sub(p8).spec_sub(p1).spec_add(p2).spec_sub(p9).spec_add(p10).spec_add(p11).spec_sub(p12).spec_sub(p5).spec_add(p9).spec_add(p3).spec_sub(p7).spec_add(p6).spec_sub(p10).spec_sub(p11).spec_add(p12).spec_sub(p4).spec_add(p8) == T::spec_zero(),
{
    lemma_swap_ss(p1.spec_sub(p2).spec_sub(p3).spec_add(p4).spec_add(p5).spec_sub(p6).spec_add(p7), p8, p1);
    lemma_swap_as(p1.spec_sub(p2).spec_sub(p3).spec_add(p4).spec_add(p5).spec_sub(p6), p7, p1);
    lemma_swap_ss(p1.spec_sub(p2).spec_sub(p3).spec_add(p4).spec_add(p5), p6, p1);
    lemma_swap_as(p1.spec_sub(p2).spec_sub(p3).spec_add(p4), p5, p1);
    lemma_swap_as(p1.spec_sub(p2).spec_sub(p3), p4, p1);
    lemma_swap_ss(p1.spec_sub(p2), p3, p1);
    lemma_swap_ss(p1, p2, p1);
    lemma_swap_sa(p1.spec_sub(p1).spec_sub(p2).spec_sub(p3).spec_add(p4).spec_add(p5).spec_sub(p6).spec_add(p7), p8, p2);
    lemma_swap_aa(p1.spec_sub(p1).spec_sub(p2).spec_sub(p3).spec_add(p4).spec_add(p5).spec_sub(p6), p7, p2);
    lemma_swap_sa(p1.spec_sub(p1).spec_sub(p2).spec_sub(p3).spec_add(p4).spec_add(p5), p6, p2);
    lemma_swap_aa(p1.spec_sub(p1).spec_sub(p2).spec_sub(p3).spec_add(p4), p5, p2);
    lemma_swap_aa(p1.spec_sub(p1).spec_sub(p2).spec_sub(p3), p4, p2);
    lemma_swap_sa(p1.spec_sub(p1).spec_sub(p2), p3, p2);
    lemma_swap_sa(p1.spec_sub(p1), p2, p2);
    lemma_swap_aa(p1.spec_sub(p1).spec_add(p2).spec_sub(p2).spec_sub(p3).spec_add(p4).spec_add(p5).spec_sub(p6).spec_add(p7).spec_sub(p8).spec_sub(p9).spec_add(p10).spec_add(p11).spec_sub(p12).spec_sub(p5), p9, p3);
    lemma_swap_sa(p1.spec_sub(p1).spec_add(p2).spec_sub(p2).spec_sub(p3).spec_add(p4).spec_add(p5).spec_sub(p6).spec_add(p7).spec_sub(p8).spec_sub(p9).spec_add(p10).spec_add(p11).spec_sub(p12), p5, p3);
    lemma_swap_sa(p1.spec_sub(p1).spec_add(p2).spec_sub(p2).spec_sub(p3).spec_add(p4).spec_add(p5).spec_sub(p6).spec_add(p7).spec_sub(p8).spec_sub(p9).spec_add(p10).spec_add(p11), p12, p3);
    lemma_swap_aa(p1.spec_sub(p1).spec_add(p2).spec_sub(p2).spec_sub(p3).spec_add(p4).spec_add(p5).spec_sub(p6).spec_add(p7).spec_sub(p8).spec_sub(p9).spec_add(p10), p11, p3);
    lemma_swap_aa(p1.spec_sub(p1).spec_add(p2).spec_sub(p2).spec_sub(p3).spec_add(p4).spec_add(p5).spec_sub(p6).spec_add(p7).spec_sub(p8).spec_sub(p9), p10, p3);
    lemma_swap_sa(p1.spec_sub(p1).spec_add(p2).spec_sub(p2).spec_sub(p3).spec_add(p4).spec_add(p5).spec_sub(p6).spec_add(p7).spec_sub(p8), p9, p3);
    lemma_swap_sa(p1.spec_sub(p1).spec_add(p2).spec_sub(p2).spec_sub(p3).spec_add(p4).spec_add(p5).spec_sub(p6).spec_add(p7), p8, p3);
    lemma_swap_aa(p1.spec_sub(p1).spec_add(p2).spec_sub(p2).spec_sub(p3).spec_add(p4).spec_add(p5).spec_sub(p6), p7, p3);
    lemma_swap_sa(p1.spec_sub(p1).spec_add(p2).spec_sub(p2).spec_sub(p3).spec_add(p4).spec_add(p5), p6, p3);
    lemma_swap_aa(p1.spec_sub(p1).spec_add(p2).spec_sub(p2).spec_sub(p3).spec_add(p4), p5, p3);
    lemma_swap_aa(p1.spec_sub(p1).spec_add(p2).spec_sub(p2).spec_sub(p3), p4, p3);
    lemma_swap_sa(p1.spec_sub(p1).spec_add(p2).spec_sub(p2), p3, p3);
    lemma_swap_as(p1.spec_sub(p1).spec_add(p2).spec_sub(p2).spec_add(p3).spec_sub(p3).spec_add(p4).spec_add(p5).spec_sub(p6).spec_add(p7).spec_sub(p8).spec_sub(p9).spec_add(p10).spec_add(p11).spec_sub(p12).spec_sub(p5).spec_add(p9).spec_sub(p7).spec_add(p6).spec_sub(p10).spec_sub(p11), p12, p4);
    lemma_swap_ss(p1.spec_sub(p1).spec_add(p2).spec_sub(p2).spec_add(p3).spec_sub(p3).spec_add(p4).spec_add(p5).spec_sub(p6).spec_add(p7).spec_sub(p8).spec_sub(p9).spec_add(p10).spec_add(p11).spec_sub(p12).spec_sub(p5).spec_add(p9).spec_sub(p7).spec_add(p6).spec_sub(p10), p11, p4);
    lemma_swap_ss(p1.spec_sub(p1).spec_add(p2).spec_sub(p2).spec_add(p3).spec_sub(p3).spec_add(p4).spec_add(p5).spec_sub(p6).spec_add(p7).spec_sub(p8).spec_sub(p9).spec_add(p10).spec_add(p11).spec_sub(p12).spec_sub(p5).spec_add(p9).spec_sub(p7).spec_add(p6), p10, p4);
    lemma_swap_as(p1.spec_sub(p1).spec_add(p2).spec_sub(p2).spec_add(p3).spec_sub(p3).spec_add(p4).spec_add(p5).spec_sub(p6).spec_add(p7).spec_sub(p8).spec_sub(p9).spec_add(p10).spec_add(p11).spec_sub(p12).spec_sub(p5).spec_add(p9).spec_sub(p7), p6, p4);
    lemma_swap_ss(p1.spec_sub(p1).spec_add(p2).spec_sub(p2).spec_add(p3).spec_sub(p3).spec_add(p4).spec_add(p5).spec_sub(p6).spec_add(p7).spec_sub(p8).spec_sub(p9).spec_add(p10).spec_add(p11).spec_sub(p12).spec_sub(p5).spec_add(p9), p7, p4);
    lemma_swap_as(p1.spec_sub(p1).spec_add(p2).spec_sub(p2).spec_add(p3).spec_sub(p3).spec_add(p4).spec_add(p5).spec_sub(p6).spec_add(p7).spec_sub(p8).spec_sub(p9).spec_add(p10).spec_add(p11).spec_sub(p12).spec_sub(p5), p9, p4);
    lemma_swap_ss(p1.spec_sub(p1).spec_add(p2).spec_sub(p2).spec_add(p3).spec_sub(p3).spec_add(p4).spec_add(p5).spec_sub(p6).spec_add(p7).spec_sub(p8).spec_sub(p9).spec_add(p10).spec_add(p11).spec_sub(p12), p5, p4);
    lemma_swap_ss(p1.spec_sub(p1).spec_add(p2).spec_sub(p2).spec_add(p3).spec_sub(p3).spec_add(p4).spec_add(p5).spec_sub(p6).spec_add(p7).spec_sub(p8).spec_sub(p9).spec_add(p10).spec_add(p11), p12, p4);
    lemma_swap_as(p1.spec_sub(p1).spec_add(p2).spec_sub(p2).spec_add(p3).spec_sub(p3).spec_add(p4).spec_add(p5).spec_sub(p6).spec_add(p7).spec_sub(p8).spec_sub(p9).spec_add(p10), p11, p4);
    lemma_swap_as(p1.spec_sub(p1).spec_add(p2).spec_sub(p2).spec_add(p3).spec_sub(p3).spec_add(p4).spec_add(p5).spec_sub(p6).spec_add(p7).spec_sub(p8).spec_sub(p9), p10, p4);
    lemma_swap_ss(p1.spec_sub(p1).spec_add(p2).spec_sub(p2).spec_add(p3).spec_sub(p3).spec_add(p4).spec_add(p5).spec_sub(p6).spec_add(p7).spec_sub(p8), p9, p4);
    lemma_swap_ss(p1.spec_sub(p1).spec_add(p2).spec_sub(p2).spec_add(p3).spec_sub(p3).spec_add(p4).spec_add(p5).spec_sub(p6).spec_add(p7), p8, p4);
    lemma_swap_as(p1.spec_sub(p1).spec_add(p2).spec_sub(p2).spec_add(p3).spec_sub(p3).spec_add(p4).spec_add(p5).spec_sub(p6), p7, p4);
    lemma_swap_ss(p1.spec_sub(p1).spec_add(p2).spec_sub(p2).spec_add(p3).spec_sub(p3).spec_add(p4).spec_add(p5), p6, p4);
    lemma_swap_as(p1.spec_sub(p1).spec_add(p2).spec_sub(p2).spec_add(p3).spec_sub(p3).spec_add(p4), p5, p4);
    lemma_swap_ss(p1.spec_sub(p1).spec_add(p2).spec_sub(p2).spec_add(p3).spec_sub(p3).spec_add(p4).spec_sub(p4).spec_add(p5).spec_sub(p6).spec_add(p7).spec_sub(p8).spec_sub(p9).spec_add(p10).spec_add(p11), p12, p5);
    lemma_swap_as(p1.spec_sub(p1).spec_add(p2).spec_sub(p2).spec_add(p3).spec_sub(p3).spec_add(p4).spec_sub(p4).spec_add(p5).spec_sub(p6).spec_add(p7).spec_sub(p8).spec_sub(p9).spec_add(p10), p11, p5);
    lemma_swap_as(p1.spec_sub(p1).spec_add(p2).spec_sub(p2).spec_add(p3).spec_sub(p3).spec_add(p4).spec_sub(p4).spec_add(p5).spec_sub(p6).spec_add(p7).spec_sub(p8).spec_sub(p9), p10, p5);
    lemma_swap_ss(p1.spec_sub(p1).spec_add(p2).spec_sub(p2).spec_add(p3).spec_sub(p3).spec_add(p4).spec_sub(p4).spec_add(p5).spec_sub(p6).spec_add(p7).spec_sub(p8), p9, p5);
    lemma_swap_ss(p1.spec_sub(p1).spec_add(p2).spec_sub(p2).spec_add(p3).spec_sub(p3).spec_add(p4).spec_sub(p4).spec_add(p5).spec_sub(p6).spec_add(p7), p8, p5);
    lemma_swap_as(p1.spec_sub(p1).spec_add(p2).spec_sub(p2).spec_add(p3).spec_sub(p3).spec_add(p4).spec_sub(p4).spec_add(p5).spec_sub(p6), p7, p5);
    lemma_swap_ss(p1.spec_sub(p1).spec_add(p2).spec_sub(p2).spec_add(p3).spec_sub(p3).spec_add(p4).spec_sub(p4).spec_add(p5), p6, p5);
    lemma_swap_sa(p1.spec_sub(p1).spec_add(p2).spec_sub(p2).spec_add(p3).spec_sub(p3).spec_add(p4).spec_sub(p4).spec_add(p5).spec_sub(p5).spec_sub(p6).spec_add(p7).spec_sub(p8).spec_sub(p9).spec_add(p10).spec_add(p11).spec_sub(p12).spec_add(p9), p7, p6);
    lemma_swap_aa(p1.spec_sub(p1).spec_add(p2).spec_sub(p2).spec_add(p3).spec_sub(p3).spec_add(p4).spec_sub(p4).spec_add(p5).spec_sub(p5).spec_sub(p6).spec_add(p7).spec_sub(p8).spec_sub(p9).spec_add(p10).spec_add(p11).spec_sub(p12), p9, p6);
    lemma_swap_sa(p1.spec_sub(p1).spec_add(p2).spec_sub(p2).spec_add(p3).spec_sub(p3).spec_add(p4).spec_sub(p4).spec_add(p5).spec_sub(p5).spec_sub(p6).spec_add(p7).spec_sub(p8).spec_sub(p9).spec_add(p10).spec_add(p11), p12, p6);
    lemma_swap_aa(p1.spec_sub(p1).spec_add(p2).spec_sub(p2).spec_add(p3).spec_sub(p3).spec_add(p4).spec_sub(p4).spec_add(p5).spec_sub(p5).spec_sub(p6).spec_add(p7).spec_sub(p8).spec_sub(p9).spec_add(p10), p11, p6);
    lemma_swap_aa(p1.spec_sub(p1).spec_add(p2).spec_sub(p2).spec_add(p3).spec_sub(p3).spec_add(p4).spec_sub(p4).spec_add(p5).spec_sub(p5).spec_sub(p6).spec_add(p7).spec_sub(p8).spec_sub(p9), p10, p6);
    lemma_swap_sa(p1.spec_sub(p1).spec_add(p2).spec_sub(p2).spec_add(p3).spec_sub(p3).spec_add(p4).spec_sub(p4).spec_add(p5).spec_sub(p5).spec_sub(p6).spec_add(p7).spec_sub(p8), p9, p6);
    lemma_swap_sa(p1.spec_sub(p1).spec_add(p2).spec_sub(p2).spec_add(p3).spec_sub(p3).spec_add(p4).spec_sub(p4).spec_add(p5).spec_sub(p5).spec_sub(p6).spec_add(p7), p8, p6);
    lemma_swap_aa(p1.spec_sub(p1).spec_add(p2).spec_sub(p2).spec_add(p3).spec_sub(p3).spec_add(p4).spec_sub(p4).spec_add(p5).spec_sub(p5).spec_sub(p6), p7, p6);
    lemma_swap_sa(p1.spec_sub(p1).spec_add(p2).spec_sub(p2).spec_add(p3).spec_sub(p3).spec_add(p4).spec_sub(p4).spec_add(p5).spec_sub(p5), p6, p6);
    lemma_swap_as(p1.spec_sub(p1).spec_add(p2).spec_sub(p2).spec_add(p3).spec_sub(p3).spec_add(p4).spec_sub(p4).spec_add(p5).spec_sub(p5).spec_add(p6).spec_sub(p6).spec_add(p7).spec_sub(p8).spec_sub(p9).spec_add(p10).spec_add(p11).spec_sub(p12), p9, p7);
    lemma_swap_ss(p1.spec_sub(p1).spec_add(p2).spec_sub(p2).spec_add(p3).spec_sub(p3).spec_add(p4).spec_sub(p4).spec_add(p5).spec_sub(p5).spec_add(p6).spec_sub(p6).spec_add(p7).spec_sub(p8).spec_sub(p9).spec_add(p10).spec_add(p11), p12, p7);
    lemma_swap_as(p1.spec_sub(p1).spec_add(p2).spec_sub(p2).spec_add(p3).spec_sub(p3).spec_add(p4).spec_sub(p4).spec_add(p5).spec_sub(p5).spec_add(p6).spec_sub(p6).spec_add(p7).spec_sub(p8).spec_sub(p9).spec_add(p10), p11, p7);
    lemma_swap_as(p1.spec_sub(p1).spec_add(p2).spec_sub(p2).spec_add(p3).spec_sub(p3).spec_add(p4).spec_sub(p4).spec_add(p5).spec_sub(p5).spec_add(p6).spec_sub(p6).spec_add(p7).spec_sub(p8).spec_sub(p9), p10, p7);
    lemma_swap_ss(p1.spec_sub(p1).spec_add(p2).spec_sub(p2).spec_add(p3).spec_sub(p3).spec_add(p4).spec_sub(p4).spec_add(p5).spec_sub(p5).spec_add(p6).spec_sub(p6).spec_add(p7).spec_sub(p8), p9, p7);
    lemma_swap_ss(p1.spec_sub(p1).spec_add(p2).spec_sub(p2).spec_add(p3).spec_sub(p3).spec_add(p4).spec_sub(p4).spec_add(p5).spec_sub(p5).spec_add(p6).spec_sub(p6).spec_add(p7), p8, p7);
    lemma_swap_aa(p1.spec_sub(p1).spec_add(p2).spec_sub(p2).spec_add(p3).spec_sub(p3).spec_add(p4).spec_sub(p4).spec_add(p5).spec_sub(p5).spec_add(p6).spec_sub(p6).spec_add(p7).spec_sub(p7).spec_sub(p8).spec_sub(p9).spec_add(p10).spec_add(p11).spec_sub(p12).spec_add(p9).spec_sub(p10).spec_sub(p11), p12, p8);
    lemma_swap_sa(p1.spec_sub(p1).spec_add(p2).spec_sub(p2).spec_add(p3).spec_sub(p3).spec_add(p4).spec_sub(p4).spec_add(p5).spec_sub(p5).spec_add(p6).spec_sub(p6).spec_add(p7).spec_sub(p7).spec_sub(p8).spec_sub(p9).spec_add(p10).spec_add(p11).spec_sub(p12).spec_add(p9).spec_sub(p10), p11, p8);
    lemma_swap_sa(p1.spec_sub(p1).spec_add(p2).spec_sub(p2).spec_add(p3).spec_sub(p3).spec_add(p4).spec_sub(p4).spec_add(p5).spec_sub(p5).spec_add(p6).spec_sub(p6).spec_add(p7).spec_sub(p7).spec_sub(p8).spec_sub(p9).spec_add(p10).spec_add(p11).spec_sub(p12).spec_add(p9), p10, p8);
    lemma_swap_aa(p1.spec_sub(p1).spec_add(p2).spec_sub(p2).spec_add(p3).spec_sub(p3).spec_add(p4).spec_sub(p4).spec_add(p5).spec_sub(p5).spec_add(p6).spec_sub(p6).spec_add(p7).spec_sub(p7).spec_sub(p8).spec_sub(p9).spec_add(p10).spec_add(p11).spec_sub(p12), p9, p8);
    lemma_swap_sa(p1.spec_sub(p1).spec_add(p2).spec_sub(p2).spec_add(p3).spec_sub(p3).spec_add(p4).spec_sub(p4).spec_add(p5).spec_sub(p5).spec_add(p6).spec_sub(p6).spec_add(p7).spec_sub(p7).spec_sub(p8).spec_sub(p9).spec_add(p10).spec_add(p11), p12, p8);
    lemma_swap_aa(p1.spec_sub(p1).spec_add(p2).spec_sub(p2).spec_add(p3).spec_sub(p3).spec_add(p4).spec_sub(p4).spec_add(p5).spec_sub(p5).spec_add(p6).spec_sub(p6).spec_add(p7).spec_sub(p7).spec_sub(p8).spec_sub(p9).spec_add(p10), p11, p8);
    lemma_swap_aa(p1.spec_sub(p1).spec_add(p2).spec_sub(p2).spec_add(p3).spec_sub(p3).spec_add(p4).spec_sub(p4).spec_add(p5).spec_sub(p5).spec_add(p6).spec_sub(p6).spec_add(p7).spec_sub(p7).spec_sub(p8).spec_sub(p9), p10, p8);
    lemma_swap_sa(p1.spec_sub(p1).spec_add(p2).spec_sub(p2).spec_add(p3).spec_sub(p3).spec_add(p4).spec_sub(p4).spec_add(p5).spec_sub(p5).spec_add(p6).spec_sub(p6).spec_add(p7).spec_sub(p7).spec_sub(p8), p9, p8);
    lemma_swap_sa(p1.spec_sub(p1).spec_add(p2).spec_sub(p2).spec_add(p3).spec_sub(p3).spec_add(p4).spec_sub(p4).spec_add(p5).spec_sub(p5).spec_add(p6).spec_sub(p6).spec_add(p7).spec_sub(p7), p8, p8);
    lemma_swap_sa(p1.spec_sub(p1).spec_add(p2).spec_sub(p2).spec_add(p3).spec_sub(p3).spec_add(p4).spec_sub(p4).spec_add(p5).spec_sub(p5).spec_add(p6).spec_sub(p6).spec_add(p7).spec_sub(p7).spec_add(p8).spec_sub(p8).spec_sub(p9).spec_add(p10).spec_add(p11), p12, p9);
    lemma_swap_aa(p1.spec_sub(p1).spec_add(p2).spec_sub(p2).spec_add(p3).spec_sub(p3).spec_add(p4).spec_sub(p4).spec_add(p5).spec_sub(p5).spec_add(p6).spec_sub(p6).spec_add(p7).spec_sub(p7).spec_add(p8).spec_sub(p8).spec_sub(p9).spec_add(p10), p11, p9);
    lemma_swap_aa(p1.spec_sub(p1).spec_add(p2).spec_sub(p2).spec_add(p3).spec_sub(p3).spec_add(p4).spec_sub(p4).spec_add(p5).spec_sub(p5).spec_add(p6).spec_sub(p6).spec_add(p7).spec_sub(p7).spec_add(p8).spec_sub(p8).spec_sub(p9), p10, p9);
    lemma_swap_sa(p1.spec_sub(p1).spec_add(p2).spec_sub(p2).spec_add(p3).spec_sub(p3).spec_add(p4).spec_sub(p4).spec_add(p5).spec_sub(p5).spec_add(p6).spec_sub(p6).spec_add(p7).spec_sub(p7).spec_add(p8).spec_sub(p8), p9, p9);
    lemma_swap_ss(p1.spec_sub(p1).spec_add(p2).spec_sub(p2).spec_add(p3).spec_sub(p3).spec_add(p4).spec_sub(p4).spec_add(p5).spec_sub(p5).spec_add(p6).spec_sub(p6).spec_add(p7).spec_sub(p7).spec_add(p8).spec_sub(p8).spec_add(p9).spec_sub(p9).spec_add(p10).spec_add(p11), p12, p10);
    lemma_swap_as(p1.spec_sub(p1).spec_add(p2).spec_sub(p2).spec_add(p3).spec_sub(p3).spec_add(p4).spec_sub(p4).spec_add(p5).spec_sub(p5).spec_add(p6).spec_sub(p6).spec_add(p7).spec_sub(p7).spec_add(p8).spec_sub(p8).spec_add(p9).spec_sub(p9).spec_add(p10), p11, p10);
    lemma_swap_ss(p1.spec_sub(p1).spec_add(p2).spec_sub(p2).spec_add(p3).spec_sub(p3).spec_add(p4).spec_sub(p4).spec_add(p5).spec_sub(p5).spec_add(p6).spec_sub(p6).spec_add(p7).spec_sub(p7).spec_add(p8).spec_sub(p8).spec_add(p9).spec_sub(p9).spec_add(p10).spec_sub(p10).spec_add(p11), p12, p11);
    lemma_swap_sa(p1.spec_sub(p1).spec_add(p2).spec_sub(p2).spec_add(p3).spec_sub(p3).spec_add(p4).spec_sub(p4).spec_add(p5).spec_sub(p5).spec_add(p6).spec_sub(p6).spec_add(p7).spec_sub(p7).spec_add(p8).spec_sub(p8).spec_add(p9).spec_sub(p9).spec_add(p10).spec_sub(p10).spec_add(p11).spec_sub(p11), p12, p12);
    lemma_self_cancel(p1);
    lemma_cancel_adj(p1.spec_sub(p1), p2);
    lemma_cancel_adj(p1.spec_sub(p1).spec_add(p2).spec_sub(p2), p3);
    lemma_cancel_adj(p1.spec_sub(p1).spec_add(p2).spec_sub(p2).spec_add(p3).spec_sub(p3), p4);
    lemma_cancel_adj(p1.spec_sub(p1).spec_add(p2).spec_sub(p2).spec_add(p3).spec_sub(p3).spec_add(p4).spec_sub(p4), p5);
    lemma_cancel_adj(p1.spec_sub(p1).spec_add(p2).spec_sub(p2).spec_add(p3).spec_sub(p3).spec_add(p4).spec_sub(p4).spec_add(p5).spec_sub(p5), p6);
    lemma_cancel_adj(p1.spec_sub(p1).spec_add(p2).spec_sub(p2).spec_add(p3).spec_sub(p3).spec_add(p4).spec_sub(p4).spec_add(p5).spec_sub(p5).spec_add(p6).spec_sub(p6), p7);
    lemma_cancel_adj(p1.spec_sub(p1).spec_add(p2).spec_sub(p2).spec_add(p3).spec_sub(p3).spec_add(p4).spec_sub(p4).spec_add(p5).spec_sub(p5).spec_add(p6).spec_sub(p6).spec_add(p7).spec_sub(p7), p8);
    lemma_cancel_adj(p1.spec_sub(p1).spec_add(p2).spec_sub(p2).spec_add(p3).spec_sub(p3).spec_add(p4).spec_sub(p4).spec_add(p5).spec_sub(p5).spec_add(p6).spec_sub(p6).spec_add(p7).spec_sub(p7).spec_add(p8).spec_sub(p8), p9);
    lemma_cancel_adj(p1.spec_sub(p1).spec_add(p2).spec_sub(p2).spec_add(p3).spec_sub(p3).spec_add(p4).spec_sub(p4).spec_add(p5).spec_sub(p5).spec_add(p6).spec_sub(p6).spec_add(p7).spec_sub(p7).spec_add(p8).spec_sub(p8).spec_add(p9).spec_sub(p9), p10);
    lemma_cancel_adj(p1.spec_sub(p1).spec_add(p2).spec_sub(p2).spec_add(p3).spec_sub(p3).spec_add(p4).spec_sub(p4).spec_add(p5).spec_sub(p5).spec_add(p6).spec_sub(p6).spec_add(p7).spec_sub(p7).spec_add(p8).spec_sub(p8).spec_add(p9).spec_sub(p9).spec_add(p10).spec_sub(p10), p11);
    lemma_cancel_adj(p1.spec_sub(p1).spec_add(p2).spec_sub(p2).spec_add(p3).spec_sub(p3).spec_add(p4).spec_sub(p4).spec_add(p5).spec_sub(p5).spec_add(p6).spec_sub(p6).spec_add(p7).spec_sub(p7).spec_add(p8).spec_sub(p8).spec_add(p9).spec_sub(p9).spec_add(p10).spec_sub(p10).spec_add(p11).spec_sub(p11), p12);
}

pub(crate) proof fn lemma_inv_right_entry1<T: Scalar>(a: Seq<T>)
    requires
        a.len() == 16,
        field_sealed::<T>(),
        !det_seq(a).spec_is_zero(),
    ensures
        mul_seq(a, inverse_seq(a))[1] == T::spec_zero(),
{
    lemma_field_gives_ring::<T>();
    let inv = inverse_seq(a);
    let inv_d = T::spec_one().spec_div(det_seq(a));
    let b00 = minor2(a, 0, 5, 1, 4);
    let b01 = minor2(a, 0, 6, 2, 4);
    let b02 = minor2(a, 0, 7, 3, 4);
    let b03 = minor2(a, 1, 6, 2, 5);
    let b04 = minor2(a, 1, 7, 3, 5);
    let b05 = minor2(a, 2, 7, 3, 6);
    let b06 = minor2(a, 8, 13, 9, 12);
    let b07 = minor2(a, 8, 14, 10, 12);
    let b08 = minor2(a, 8, 15, 11, 12);
    let b09 = minor2(a, 9, 14, 10, 13);
    let b10 = minor2(a, 9, 15, 11, 13);
    let b11 = minor2(a, 10, 15, 11, 14);
    assert(mul_seq(a, inv)[1] == inv[0].spec_mul(a[1]).spec_add(inv[1].spec_mul(a[5])).spec_add(inv[2].spec_mul(a[9])).spec_add(inv[3].spec_mul(a[13])));
    assert(inv[0] == a[5].spec_mul(b11).spec_sub(a[6].spec_mul(b10)).spec_add(a[7].spec_mul(b09)).spec_mul(inv_d));
    assert(inv[1] == a[2].spec_mul(b10).spec_sub(a[1].spec_mul(b11)).spec_sub(a[3].spec_mul(b09)).spec_mul(inv_d));
    assert(inv[2] == a[13].spec_mul(b05).spec_sub(a[14].spec_mul(b04)).spec_add(a[15].spec_mul(b03)).spec_mul(inv_d));
    assert(inv[3] == a[10].spec_mul(b04).spec_sub(a[9].spec_mul(b05)).spec_sub(a[11].spec_mul(b03)).spec_mul(inv_d));
    lemma_mul_comm(a[5].spec_mul(b11).spec_sub(a[6].spec_mul(b10)).spec_add(a[7].spec_mul(b09)).spec_mul(inv_d), a[1]);
    lemma_mul_comm(a[2].spec_mul(b10).spec_sub(a[1].spec_mul(b11)).spec_sub(a[3].spec_mul(b09)).spec_mul(inv_d), a[5]);
    lemma_mul_comm(a[13].spec_mul(b05).spec_sub(a[14].spec_mul(b04)).spec_add(a[15].spec_mul(b03)).spec_mul(inv_d), a[9]);
    lemma_mul_comm(a[10].spec_mul(b04).spec_sub(a[9].spec_mul(b05)).spec_sub(a[11].spec_mul(b03)).spec_mul(inv_d), a[13]);
    lemma_mul_assoc(a[1], a[5].spec_mul(b11).spec_sub(a[6].spec_mul(b10)).spec_add(a[7].spec_mul(b09)), inv_d);
    lemma_mul_assoc(a[5], a[2].spec_mul(b10).spec_sub(a[1].spec_mul(b11)).spec_sub(a[3].spec_mul(b09)), inv_d);
    lemma_mul_assoc(a[9], a[13].spec_mul(b05).spec_sub(a[14].spec_mul(b04)).spec_add(a[15].spec_mul(b03)), inv_d);
    lemma_mul_assoc(a[13], a[10].spec_mul(b04).spec_sub(a[9].spec_mul(b05)).spec_sub(a[11].spec_mul(b03)), inv_d);
    lemma_factor4(
        a[1].spec_mul(a[5].spec_mul(b11).spec_sub(a[6].spec_mul(b10)).spec_add(a[7].spec_mul(b09))),
        a[5].spec_mul(a[2].spec_mul(b10).spec_sub(a[1].spec_mul(b11)).spec_sub(a[3].spec_mul(b09))),
        a[9].spec_mul(a[13].spec_mul(b05).spec_sub(a[14].spec_mul(b04)).spec_add(a[15].spec_mul(b03))),
        a[13].spec_mul(a[10].spec_mul(b04).spec_sub(a[9].spec_mul(b05)).spec_sub(a[11].spec_mul(b03))),
        inv_d,
    );
    lemma_distrib3_pmp(a[1], a[5].spec_mul(b11), a[6].spec_mul(b10), a[7].spec_mul(b09));
    lemma_mul_assoc(a[1], a[5], b11);
    lemma_mul_assoc(a[1], a[6], b10);
    lemma_mul_assoc(a[1], a[7], b09);
    lemma_distrib3_pmm(a[5], a[2].spec_mul(b10), a[1].spec_mul(b11), a[3].spec_mul(b09));
    lemma_mul_assoc(a[5], a[2], b10);
    lemma_mul_comm(a[5], a[2]);
    lemma_mul_assoc(a[5], a[1], b11);
    lemma_mul_comm(a[5], a[1]);
    lemma_mul_assoc(a[5], a[3], b09);
    lemma_mul_comm(a[5], a[3]);
    lemma_distrib3_pmp(a[9], a[13].spec_mul(b05), a[14].spec_mul(b04), a[15].spec_mul(b03));
    lemma_mul_assoc(a[9], a[13], b05);
    lemma_mul_assoc(a[9], a[14], b04);
    lemma_mul_assoc(a[9], a[15], b03);
    lemma_distrib3_pmm(a[13], a[10].spec_mul(b04), a[9].spec_mul(b05), a[11].spec_mul(b03));
    lemma_mul_assoc(a[13], a[10], b04);
    lemma_mul_comm(a[13], a[10]);
    lemma_mul_assoc(a[13], a[9], b05);
    lemma_mul_comm(a[13], a[9]);
    lemma_mul_assoc(a[13], a[11], b03);
    lemma_mul_comm(a[13], a[11]);
    lemma_append3_pmm(
        a[1].spec_mul(a[5]).spec_mul(b11).spec_sub(a[1].spec_mul(a[6]).spec_mul(b10)).spec_add(a[1].spec_mul(a[7]).spec_mul(b09)),
        a[2].spec_mul(a[5]).spec_mul(b10),
        a[1].spec_mul(a[5]).spec_mul(b11),
        a[3].spec_mul(a[5]).spec_mul(b09),
    );
    lemma_append3_pmp(
        a[1].spec_mul(a[5]).spec_mul(b11).spec_sub(a[1].spec_mul(a[6]).spec_mul(b10)).spec_add(a[1].spec_mul(a[7]).spec_mul(b09)).spec_add(a[2].spec_mul(a[5]).spec_mul(b10)).spec_sub(a[1].spec_mul(a[5]).spec_mul(b11)).spec_sub(a[3].spec_mul(a[5]).spec_mul(b09)),
        a[9].spec_mul(a[13]).spec_mul(b05),
        a[9].spec_mul(a[14]).spec_mul(b04),
        a[9].spec_mul(a[15]).spec_mul(b03),
    );
    lemma_append3_pmm(
        a[1].spec_mul(a[5]).spec_mul(b11).spec_sub(a[1].spec_mul(a[6]).spec_mul(b10)).spec_add(a[1].spec_mul(a[7]).spec_mul(b09)).spec_add(a[2].spec_mul(a[5]).spec_mul(b10)).spec_sub(a[1].spec_mul(a[5]).spec_mul(b11)).spec_sub(a[3].spec_mul(a[5]).spec_mul(b09)).spec_add(a[9].spec_mul(a[13]).spec_mul(b05)).spec_sub(a[9].spec_mul(a[14]).spec_mul(b04)).spec_add(a[9].spec_mul(a[15]).spec_mul(b03)),
        a[10].spec_mul(a[13]).spec_mul(b04),
        a[9].spec_mul(a[13]).spec_mul(b05),
        a[11].spec_mul(a[13]).spec_mul(b03),
    );
    let c1x5x10x15 = a[1].spec_mul(a[5]).spec_mul(a[10].spec_mul(a[15]));
    let c1x5x11x14 = a[1].spec_mul(a[5]).spec_mul(a[11].spec_mul(a[14]));
    let c1x6x9x15 = a[1].spec_mul(a[6]).spec_mul(a[9].spec_mul(a[15]));
    let c1x6x11x13 = a[1].spec_mul(a[6]).spec_mul(a[11].spec_mul(a[13]));
    let c1x7x9x14 = a[1].spec_mul(a[7]).spec_mul(a[9].spec_mul(a[14]));
    let c1x7x10x13 = a[1].spec_mul(a[7]).spec_mul(a[10].spec_mul(a[13]));
    let c2x5x9x15 = a[2].spec_mul(a[5]).spec_mul(a[9].spec_mul(a[15]));
    let c2x5x11x13 = a[2].spec_mul(a[5]).spec_mul(a[11].spec_mul(a[13]));
    let c3x5x9x14 = a[3].spec_mul(a[5]).spec_mul(a[9].spec_mul(a[14]));
    let c3x5x10x13 = a[3].spec_mul(a[5]).spec_mul(a[10].spec_mul(a[13]));
    let c2x7x9x13 = a[2].spec_mul(a[7]).spec_mul(a[9].spec_mul(a[13]));
    let c3x6x9x13 = a[3].spec_mul(a[6]).spec_mul(a[9].spec_mul(a[13]));
    lemma_distrib2(a[1].spec_mul(a[5]), a[10].spec_mul(a[15]), a[11].spec_mul(a[14]));
    lemma_distrib2(a[1].spec_mul(a[6]), a[9].spec_mul(a[15]), a[11].spec_mul(a[13]));
    lemma_distrib2(a[1].spec_mul(a[7]), a[9].spec_mul(a[14]), a[10].spec_mul(a[13]));
    lemma_distrib2(a[2].spec_mul(a[5]), a[9].spec_mul(a[15]), a[11].spec_mul(a[13]));
    lemma_distrib2(a[1].spec_mul(a[5]), a[10].spec_mul(a[15]), a[11].spec_mul(a[14]));
    lemma_distrib2(a[3].spec_mul(a[5]), a[9].spec_mul(a[14]), a[10].spec_mul(a[13]));
    lemma_distrib2(a[9].spec_mul(a[13]), a[2].spec_mul(a[7]), a[3].spec_mul(a[6]));
    lemma_distrib2(a[9].spec_mul(a[14]), a[1].spec_mul(a[7]), a[3].spec_mul(a[5]));
    lemma_distrib2(a[9].spec_mul(a[15]), a[1].spec_mul(a[6]), a[2].spec_mul(a[5]));
    lemma_distrib2(a[10].spec_mul(a[13]), a[1].spec_mul(a[7]), a[3].spec_mul(a[5]));
    lemma_distrib2(a[9].spec_mul(a[13]), a[2].spec_mul(a[7]), a[3].spec_mul(a[6]));
    lemma_distrib2(a[11].spec_mul(a[13]), a[1].spec_mul(a[6]), a[2].spec_mul(a[5]));
    lemma_mul_comm(a[9].spec_mul(a[13]), a[2].spec_mul(a[7]));
    lemma_mul_comm(a[9].spec_mul(a[13]), a[3].spec_mul(a[6]));
    lemma_mul_comm(a[9].spec_mul(a[14]), a[1].spec_mul(a[7]));
    lemma_mul_comm(a[9].spec_mul(a[14]), a[3].spec_mul(a[5]));
    lemma_mul_comm(a[9].spec_mul(a[15]), a[1].spec_mul(a[6]));
    lemma_mul_comm(a[9].spec_mul(a[15]), a[2].spec_mul(a[5]));
    lemma_mul_comm(a[10].spec_mul(a[13]), a[1].spec_mul(a[7]));
    lemma_mul_comm(a[10].spec_mul(a[13]), a[3].spec_mul(a[5]));
    lemma_mul_comm(a[11].spec_mul(a[13]), a[1].spec_mul(a[6]));
    lemma_mul_comm(a[11].spec_mul(a[13]), a[2].spec_mul(a[5]));
    lemma_append2_neg(
        c1x5x10x15.spec_sub(c1x5x11x14),
        c1x6x9x15,
        c1x6x11x13,
    );
    lemma_append2_pos(
        c1x5x10x15.spec_sub(c1x5x11x14).spec_sub(c1x6x9x15).spec_add(c1x6x11x13),
        c1x7x9x14,
        c1x7x10x13,
    );
    lemma_append2_pos(
        c1x5x10x15.spec_sub(c1x5x11x14).spec_sub(c1x6x9x15).spec_add(c1x6x11x13).spec_add(c1x7x9x14).spec_sub(c1x7x10x13),
        c2x5x9x15,
        c2x5x11x13,
    );
    lemma_append2_neg(
        c1x5x10x15.spec_sub(c1x5x11x14).spec_sub(c1x6x9x15).spec_add(c1x6x11x13).spec_add(c1x7x9x14).spec_sub(c1x7x10x13).spec_add(c2x5x9x15).spec_sub(c2x5x11x13),
        c1x5x10x15,
        c1x5x11x14,
    );
    lemma_append2_neg(
        c1x5x10x15.spec_sub(c1x5x11x14).spec_sub(c1x6x9x15).spec_add(c1x6x11x13).spec_add(c1x7x9x14).spec_sub(c1x7x10x13).spec_add(c2x5x9x15).spec_sub(c2x5x11x13).spec_sub(c1x5x10x15).spec_add(c1x5x11x14),
        c3x5x9x14,
        c3x5x10x13,
    );
    lemma_append2_pos(
        c1x5x10x15.spec_sub(c1x5x11x14).spec_sub(c1x6x9x15).spec_add(c1x6x11x13).spec_add(c1x7x9x14).spec_sub(c1x7x10x13).spec_add(c2x5x9x15).spec_sub(c2x5x11x13).spec_sub(c1x5x10x15).spec_add(c1x5x11x14).spec_sub(c3x5x9x14).spec_add(c3x5x10x13),
        c2x7x9x13,
        c3x6x9x13,
    );
    lemma_append2_neg(
        c1x5x10x15.spec_sub(c1x5x11x14).spec_sub(c1x6x9x15).spec_add(c1x6x11x13).spec_add(c1x7x9x14).spec_sub(c1x7x10x13).spec_add(c2x5x9x15).spec_sub(c2x5x11x13).spec_sub(c1x5x10x15).spec_add(c1x5x11x14).spec_sub(c3x5x9x14).spec_add(c3x5x10x13).spec_add(c2x7x9x13).spec_sub(c3x6x9x13),
        c1x7x9x14,
        c3x5x9x14,
    );
    lemma_append2_pos(
        c1x5x10x15.spec_sub(c1x5x11x14).spec_sub(c1x6x9x15).spec_add(c1x6x11x13).spec_add(c1x7x9x14).spec_sub(c1x7x10x13).spec_add(c2x5x9x15).spec_sub(c2x5x11x13).spec_sub(c1x5x10x15).spec_add(c1x5x11x14).spec_sub(c3x5x9x14).spec_add(c3x5x10x13).spec_add(c2x7x9x13).spec_sub(c3x6x9x13).spec_sub(c1x7x9x14).spec_add(c3x5x9x14),
        c1x6x9x15,
        c2x5x9x15,
    );
    lemma_append2_pos(
        c1x5x10x15.spec_sub(c1x5x11x14).spec_sub(c1x6x9x15).spec_add(c1x6x11x13).spec_add(c1x7x9x14).spec_sub(c1x7x10x13).spec_add(c2x5x9x15).spec_sub(c2x5x11x13).spec_sub(c1x5x10x15).spec_add(c1x5x11x14).spec_sub(c3x5x9x14).spec_add(c3x5x10x13).spec_add(c2x7x9x13).spec_sub(c3x6x9x13).spec_sub(c1x7x9x14).spec_add(c3x5x9x14).spec_add(c1x6x9x15).spec_sub(c2x5x9x15),
        c1x7x10x13,
        c3x5x10x13,
    );
    lemma_append2_neg(
        c1x5x10x15.spec_sub(c1x5x11x14).spec_sub(c1x6x9x15).spec_add(c1x6x11x13).spec_add(c1x7x9x14).spec_sub(c1x7x10x13).spec_add(c2x5x9x15).spec_sub(c2x5x11x13).spec_sub(c1x5x10x15).spec_add(c1x5x11x14).spec_sub(c3x5x9x14).spec_add(c3x5x10x13).spec_add(c2x7x9x13).spec_sub(c3x6x9x13).spec_sub(c1x7x9x14).spec_add(c3x5x9x14).spec_add(c1x6x9x15).spec_sub(c2x5x9x15).spec_add(c1x7x10x13).spec_sub(c3x5x10x13),
        c2x7x9x13,
        c3x6x9x13,
    );
    lemma_append2_neg(
        c1x5x10x15.spec_sub(c1x5x11x14).spec_sub(c1x6x9x15).spec_add(c1x6x11x13).spec_add(c1x7x9x14).spec_sub(c1x7x10x13).spec_add(c2x5x9x15).spec_sub(c2x5x11x13).spec_sub(c1x5x10x15).spec_add(c1x5x11x14).spec_sub(c3x5x9x14).spec_add(c3x5x10x13).spec_add(c2x7x9x13).spec_sub(c3x6x9x13).spec_sub(c1x7x9x14).spec_add(c3x5x9x14).spec_add(c1x6x9x15).spec_sub(c2x5x9x15).spec_add(c1x7x10x13).spec_sub(c3x5x10x13).spec_sub(c2x7x9x13).spec_add(c3x6x9x13),
        c1x6x11x13,
        c2x5x11x13,
    );
    lemma_inv_right_chain1(c1x5x10x15, c1x5x11x14, c1x6x9x15, c1x6x11x13, c1x7x9x14, c1x7x10x13, c2x5x9x15, c2x5x11x13, c3x5x9x14, c3x5x10x13, c2x7x9x13, c3x6x9x13);
    lemma_zero_mul(inv_d);
    assert(mul_seq(a, inv)[1] == T::spec_zero());
}

proof fn lemma_inv_right_chain2<T: Scalar>(p1: T, p2: T, p3: T, p4: T, p5: T, p6: T, p7: T, p8: T, p9: T, p10: T, p11: T, p12: T)
    requires
        laws_sealed::<T>(),
    ensures
        p1.spec_sub(p2).spec_sub(p3).spec_add(p4).spec_add(p5).spec_sub(p6).spec_add(p3).spec_sub(p4).spec_sub(p7).spec_add(p8).spec_sub(p9).spec_add(p10).spec_add(p6).spec_sub(p10).spec_sub(p11).spec_add(p12).spec_add(p7).spec_sub(p1).spec_add(p11).spec_sub(p12).spec_sub(p5).spec_add(p9).spec_sub(p8).spec_add(p2) == T::spec_zero(),
{
    lemma_swap_as(p1.spec_sub(p2).spec_sub(p3).spec_add(p4).spec_add(p5).spec_sub(p6).spec_add(p3).spec_sub(p4).spec_sub(p7).spec_add(p8).spec_sub(p9).spec_add(p10).spec_add(p6).spec_sub(p10).spec_sub(p11).spec_add(p12), p7, p1);
    lemma_swap_as(p1.spec_sub(p2).spec_sub(p3).spec_add(p4).spec_add(p5).spec_sub(p6).spec_add(p3).spec_sub(p4).spec_sub(p7).spec_add(p8).spec_sub(p9).spec_add(p10).spec_add(p6).spec_sub(p10).spec_sub(p11), p12, p1);
    lemma_swap_ss(p1.spec_sub(p2).spec_sub(p3).spec_add(p4).spec_add(p5).spec_sub(p6).spec_add(p3).spec_sub(p4).spec_sub(p7).spec_add(p8).spec_sub(p9).spec_add(p10).spec_add(p6).spec_sub(p10), p11, p1);
    lemma_swap_ss(p1.spec_sub(p2).spec_sub(p3).spec_add(p4).spec_add(p5).spec_sub(p6).spec_add(p3).spec_sub(p4).spec_sub(p7).spec_add(p8).spec_sub(p9).spec_add(p10).spec_add(p6), p10, p1);
    lemma_swap_as(p1.spec_sub(p2).spec_sub(p3).spec_add(p4).spec_add(p5).spec_sub(p6).spec_add(p3).spec_sub(p4).spec_sub(p7).spec_add(p8).spec_sub(p9).spec_add(p10), p6, p1);
    lemma_swap_as(p1.spec_sub(p2).spec_sub(p3).spec_add(p4).spec_add(p5).spec_sub(p6).spec_add(p3).spec_sub(p4).spec_sub(p7).spec_add(p8).spec_sub(p9), p10, p1);
    lemma_swap_ss(p1.spec_sub(p2).spec_sub(p3).spec_add(p4).spec_add(p5).spec_sub(p6).spec_add(p3).spec_sub(p4).spec_sub(p7).spec_add(p8), p9, p1);
    lemma_swap_as(p1.spec_sub(p2).spec_sub(p3).spec_add(p4).spec_add(p5).spec_sub(p6).spec_add(p3).spec_sub(p4).spec_sub(p7), p8, p1);
    lemma_swap_ss(p1.spec_sub(p2).spec_sub(p3).spec_add(p4).spec_add(p5).spec_sub(p6).spec_add(p3).spec_sub(p4), p7, p1);
    lemma_swap_ss(p1.spec_sub(p2).spec_sub(p3).spec_add(p4).spec_add(p5).spec_sub(p6).spec_add(p3), p4, p1);
    lemma_swap_as(p1.spec_sub(p2).spec_sub(p3).spec_add(p4).spec_add(p5).spec_sub(p6), p3, p1);
    lemma_swap_ss(p1.spec_sub(p2).spec_sub(p3).spec_add(p4).spec_add(p5), p6, p1);
    lemma_swap_as(p1.spec_sub(p2).spec_sub(p3).spec_add(p4), p5, p1);
    lemma_swap_as(p1.spec_sub(p2).spec_sub(p3), p4, p1);
    lemma_swap_ss(p1.spec_sub(p2), p3, p1);
    lemma_swap_ss(p1, p2, p1);
    lemma_swap_sa(p1.spec_sub(p1).spec_sub(p2).spec_sub(p3).spec_add(p4).spec_add(p5).spec_sub(p6).spec_add(p3).spec_sub(p4).spec_sub(p7).spec_add(p8).spec_sub(p9).spec_add(p10).spec_add(p6).spec_sub(p10).spec_sub(p11).spec_add(p12).spec_add(p7).spec_add(p11).spec_sub(p12).spec_sub(p5).spec_add(p9), p8, p2);
    lemma_swap_aa(p1.spec_sub(p1).spec_sub(p2).spec_sub(p3).spec_add(p4).spec_add(p5).spec_sub(p6).spec_add(p3).spec_sub(p4).spec_sub(p7).spec_add(p8).spec_sub(p9).spec_add(p10).spec_add(p6).spec_sub(p10).spec_sub(p11).spec_add(p12).spec_add(p7).spec_add(p11).spec_sub(p12).spec_sub(p5), p9, p2);
    lemma_swap_sa(p1.spec_sub(p1).spec_sub(p2).spec_sub(p3).spec_add(p4).spec_add(p5).spec_sub(p6).spec_add(p3).spec_sub(p4).spec_sub(p7).spec_add(p8).spec_sub(p9).spec_add(p10).spec_add(p6).spec_sub(p10).spec_sub(p11).spec_add(p12).spec_add(p7).spec_add(p11).spec_sub(p12), p5, p2);
    lemma_swap_sa(p1.spec_sub(p1).spec_sub(p2).spec_sub(p3).spec_add(p4).spec_add(p5).spec_sub(p6).spec_add(p3).spec_sub(p4).spec_sub(p7).spec_add(p8).spec_sub(p9).spec_add(p10).spec_add(p6).spec_sub(p10).spec_sub(p11).spec_add(p12).spec_add(p7).spec_add(p11), p12, p2);
    lemma_swap_aa(p1.spec_sub(p1).spec_sub(p2).spec_sub(p3).spec_add(p4).spec_add(p5).spec_sub(p6).spec_add(p3).spec_sub(p4).spec_sub(p7).spec_add(p8).spec_sub(p9).spec_add(p10).spec_add(p6).spec_sub(p10).spec_sub(p11).spec_add(p12).spec_add(p7), p11, p2);
    lemma_swap_aa(p1.spec_sub(p1).spec_sub(p2).spec_sub(p3).spec_add(p4).spec_add(p5).spec_sub(p6).spec_add(p3).spec_sub(p4).spec_sub(p7).spec_add(p8).spec_sub(p9).spec_add(p10).spec_add(p6).spec_sub(p10).spec_sub(p11).spec_add(p12), p7, p2);
    lemma_swap_aa(p1.spec_sub(p1).spec_sub(p2).spec_sub(p3).spec_add(p4).spec_add(p5).spec_sub(p6).spec_add(p3).spec_sub(p4).spec_sub(p7).spec_add(p8).spec_sub(p9).spec_add(p10).spec_add(p6).spec_sub(p10).spec_sub(p11), p12, p2);
    lemma_swap_sa(p1.spec_sub(p1).spec_sub(p2).spec_sub(p3).spec_add(p4).spec_add(p5).spec_sub(p6).spec_add(p3).spec_sub(p4).spec_sub(p7).spec_add(p8).spec_sub(p9).spec_add(p10).spec_add(p6).spec_sub(p10), p11, p2);
    lemma_swap_sa(p1.spec_sub(p1).spec_sub(p2).spec_sub(p3).spec_add(p4).spec_add(p5).spec_sub(p6).spec_add(p3).spec_sub(p4).spec_sub(p7).spec_add(p8).spec_sub(p9).spec_add(p10).spec_add(p6), p10, p2);
    lemma_swap_aa(p1.spec_sub(p1).spec_sub(p2).spec_sub(p3).spec_add(p4).spec_add(p5).spec_sub(p6).spec_add(p3).spec_sub(p4).spec_sub(p7).spec_add(p8).spec_sub(p9).spec_add(p10), p6, p2);
    lemma_swap_aa(p1.spec_sub(p1).spec_sub(p2).spec_sub(p3).spec_add(p4).spec_add(p5).spec_sub(p6).spec_add(p3).spec_sub(p4).spec_sub(p7).spec_add(p8).spec_sub(p9), p10, p2);
    lemma_swap_sa(p1.spec_sub(p1).spec_sub(p2).spec_sub(p3).spec_add(p4).spec_add(p5).spec_sub(p6).spec_add(p3).spec_sub(p4).spec_sub(p7).spec_add(p8), p9, p2);
    lemma_swap_aa(p1.spec_sub(p1).spec_sub(p2).spec_sub(p3).spec_add(p4).spec_add(p5).spec_sub(p6).spec_add(p3).spec_sub(p4).spec_sub(p7), p8, p2);
    lemma_swap_sa(p1.spec_sub(p1).spec_sub(p2).spec_sub(p3).spec_add(p4).spec_add(p5).spec_sub(p6).spec_add(p3).spec_sub(p4), p7, p2);
    lemma_swap_sa(p1.spec_sub(p1).spec_sub(p2).spec_sub(p3).spec_add(p4).spec_add(p5).spec_sub(p6).spec_add(p3), p4, p2);
    lemma_swap_aa(p1.spec_sub(p1).spec_sub(p2).spec_sub(p3).spec_add(p4).spec_add(p5).spec_sub(p6), p3, p2);
    lemma_swap_sa(p1.spec_sub(p1).spec_sub(p2).spec_sub(p3).spec_add(p4).spec_add(p5), p6, p2);
    lemma_swap_aa(p1.spec_sub(p1).spec_sub(p2).spec_sub(p3).spec_add(p4), p5, p2);
    lemma_swap_aa(p1.spec_sub(p1).spec_sub(p2).spec_sub(p3), p4, p2);
    lemma_swap_sa(p1.spec_sub(p1).spec_sub(p2), p3, p2);
    lemma_swap_sa(p1.spec_sub(p1), p2, p2);
    lemma_swap_sa(p1.spec_sub(p1).spec_add(p2).spec_sub(p2).spec_sub(p3).spec_add(p4).spec_add(p5), p6, p3);
    lemma_swap_aa(p1.spec_sub(p1).spec_add(p2).spec_sub(p2).spec_sub(p3).spec_add(p4), p5, p3);
    lemma_swap_aa(p1.spec_sub(p1).spec_add(p2).spec_sub(p2).spec_sub(p3), p4, p3);
    lemma_swap_sa(p1.spec_sub(p1).spec_add(p2).spec_sub(p2), p3, p3);
    lemma_swap_ss(p1.spec_sub(p1).spec_add(p2).spec_sub(p2).spec_add(p3).spec_sub(p3).spec_add(p4).spec_add(p5), p6, p4);
    lemma_swap_as(p1.spec_sub(p1).spec_add(p2).spec_sub(p2).spec_add(p3).spec_sub(p3).spec_add(p4), p5, p4);
    lemma_swap_ss(p1.spec_sub(p1).spec_add(p2).spec_sub(p2).spec_add(p3).spec_sub(p3).spec_add(p4).spec_sub(p4).spec_add(p5).spec_sub(p6).spec_sub(p7).spec_add(p8).spec_sub(p9).spec_add(p10).spec_add(p6).spec_sub(p10).spec_sub(p11).spec_add(p12).spec_add(p7).spec_add(p11), p12, p5);
    lemma_swap_as(p1.spec_sub(p1).spec_add(p2).spec_sub(p2).spec_add(p3).spec_sub(p3).spec_add(p4).spec_sub(p4).spec_add(p5).spec_sub(p6).spec_sub(p7).spec_add(p8).spec_sub(p9).spec_add(p10).spec_add(p6).spec_sub(p10).spec_sub(p11).spec_add(p12).spec_add(p7), p11, p5);
    lemma_swap_as(p1.spec_sub(p1).spec_add(p2).spec_sub(p2).spec_add(p3).spec_sub(p3).spec_add(p4).spec_sub(p4).spec_add(p5).spec_sub(p6).spec_sub(p7).spec_add(p8).spec_sub(p9).spec_add(p10).spec_add(p6).spec_sub(p10).spec_sub(p11).spec_add(p12), p7, p5);
    lemma_swap_as(p1.spec_sub(p1).spec_add(p2).spec_sub(p2).spec_add(p3).spec_sub(p3).spec_add(p4).spec_sub(p4).spec_add(p5).spec_sub(p6).spec_sub(p7).spec_add(p8).spec_sub(p9).spec_add(p10).spec_add(p6).spec_sub(p10).spec_sub(p11), p12, p5);
    lemma_swap_ss(p1.spec_sub(p1).spec_add(p2).spec_sub(p2).spec_add(p3).spec_sub(p3).spec_add(p4).spec_sub(p4).spec_add(p5).spec_sub(p6).spec_sub(p7).spec_add(p8).spec_sub(p9).spec_add(p10).spec_add(p6).spec_sub(p10), p11, p5);
    lemma_swap_ss(p1.spec_sub(p1).spec_add(p2).spec_sub(p2).spec_add(p3).spec_sub(p3).spec_add(p4).spec_sub(p4).spec_add(p5).spec_sub(p6).spec_sub(p7).spec_add(p8).spec_sub(p9).spec_add(p10).spec_add(p6), p10, p5);
    lemma_swap_as(p1.spec_sub(p1).spec_add(p2).spec_sub(p2).spec_add(p3).spec_sub(p3).spec_add(p4).spec_sub(p4).spec_add(p5).spec_sub(p6).spec_sub(p7).spec_add(p8).spec_sub(p9).spec_add(p10), p6, p5);
    lemma_swap_as(p1.spec_sub(p1).spec_add(p2).spec_sub(p2).spec_add(p3).spec_sub(p3).spec_add(p4).spec_sub(p4).spec_add(p5).spec_sub(p6).spec_sub(p7).spec_add(p8).spec_sub(p9), p10, p5);
    lemma_swap_ss(p1.spec_sub(p1).spec_add(p2).spec_sub(p2).spec_add(p3).spec_sub(p3).spec_add(p4).spec_sub(p4).spec_add(p5).spec_sub(p6).spec_sub(p7).spec_add(p8), p9, p5);
    lemma_swap_as(p1.spec_sub(p1).spec_add(p2).spec_sub(p2).spec_add(p3).spec_sub(p3).spec_add(p4).spec_sub(p4).spec_add(p5).spec_sub(p6).spec_sub(p7), p8, p5);
    lemma_swap_ss(p1.spec_sub(p1).spec_add(p2).spec_sub(p2).spec_add(p3).spec_sub(p3).spec_add(p4).spec_sub(p4).spec_add(p5).spec_sub(p6), p7, p5);
    lemma_swap_ss(p1.spec_sub(p1).spec_add(p2).spec_sub(p2).spec_add(p3).spec_sub(p3).spec_add(p4).spec_sub(p4).spec_add(p5), p6, p5);
    lemma_swap_aa(p1.spec_sub(p1).spec_add(p2).spec_sub(p2).spec_add(p3).spec_sub(p3).spec_add(p4).spec_sub(p4).spec_add(p5).spec_sub(p5).spec_sub(p6).spec_sub(p7).spec_add(p8).spec_sub(p9), p10, p6);
    lemma_swap_sa(p1.spec_sub(p1).spec_add(p2).spec_sub(p2).spec_add(p3).spec_sub(p3).spec_add(p4).spec_sub(p4).spec_add(p5).spec_sub(p5).spec_sub(p6).spec_sub(p7).spec_add(p8), p9, p6);
    lemma_swap_aa(p1.spec_sub(p1).spec_add(p2).spec_sub(p2).spec_add(p3).spec_sub(p3).spec_add(p4).spec_sub(p4).spec_add(p5).spec_sub(p5).spec_sub(p6).spec_sub(p7), p8, p6);
    lemma_swap_sa(p1.spec_sub(p1).spec_add(p2).spec_sub(p2).spec_add(p3).spec_sub(p3).spec_add(p4).spec_sub(p4).spec_add(p5).spec_sub(p5).spec_sub(p6), p7, p6);
    lemma_swap_sa(p1.spec_sub(p1).spec_add(p2).spec_sub(p2).spec_add(p3).spec_sub(p3).spec_add(p4).spec_sub(p4).spec_add(p5).spec_sub(p5), p6, p6);
    lemma_swap_aa(p1.spec_sub(p1).spec_add(p2).spec_sub(p2).spec_add(p3).spec_sub(p3).spec_add(p4).spec_sub(p4).spec_add(p5).spec_sub(p5).spec_add(p6).spec_sub(p6).spec_sub(p7).spec_add(p8).spec_sub(p9).spec_add(p10).spec_sub(p10).spec_sub(p11), p12, p7);
    lemma_swap_sa(p1.spec_sub(p1).spec_add(p2).spec_sub(p2).spec_add(p3).spec_sub(p3).spec_add(p4).spec_sub(p4).spec_add(p5).spec_sub(p5).spec_add(p6).spec_sub(p6).spec_sub(p7).spec_add(p8).spec_sub(p9).spec_add(p10).spec_sub(p10), p11, p7);
    lemma_swap_sa(p1.spec_sub(p1).spec_add(p2).spec_sub(p2).spec_add(p3).spec_sub(p3).spec_add(p4).spec_sub(p4).spec_add(p5).spec_sub(p5).spec_add(p6).spec_sub(p6).spec_sub(p7).spec_add(p8).spec_sub(p9).spec_add(p10), p10, p7);
    lemma_swap_aa(p1.spec_sub(p1).spec_add(p2).spec_sub(p2).spec_add(p3).spec_sub(p3).spec_add(p4).spec_sub(p4).spec_add(p5).spec_sub(p5).spec_add(p6).spec_sub(p6).spec_sub(p7).spec_add(p8).spec_sub(p9), p10, p7);
    lemma_swap_sa(p1.spec_sub(p1).spec_add(p2).spec_sub(p2).spec_add(p3).spec_sub(p3).spec_add(p4).spec_sub(p4).spec_add(p5).spec_sub(p5).spec_add(p6).spec_sub(p6).spec_sub(p7).spec_add(p8), p9, p7);
    lemma_swap_aa(p1.spec_sub(p1).spec_add(p2).spec_sub(p2).spec_add(p3).spec_sub(p3).spec_add(p4).spec_sub(p4).spec_add(p5).spec_sub(p5).spec_add(p6).spec_sub(p6).spec_sub(p7), p8, p7);
    lemma_swap_sa(p1.spec_sub(p1).spec_add(p2).spec_sub(p2).spec_add(p3).spec_sub(p3).spec_add(p4).spec_sub(p4).spec_add(p5).spec_sub(p5).spec_add(p6).spec_sub(p6), p7, p7);
    lemma_swap_as(p1.spec_sub(p1).spec_add(p2).spec_sub(p2).spec_add(p3).spec_sub(p3).spec_add(p4).spec_sub(p4).spec_add(p5).spec_sub(p5).spec_add(p6).spec_sub(p6).spec_add(p7).spec_sub(p7).spec_add(p8).spec_sub(p9).spec_add(p10).spec_sub(p10).spec_sub(p11).spec_add(p12).spec_add(p11).spec_sub(p12), p9, p8);
    lemma_swap_ss(p1.spec_sub(p1).spec_add(p2).spec_sub(p2).spec_add(p3).spec_sub(p3).spec_add(p4).spec_sub(p4).spec_add(p5).spec_sub(p5).spec_add(p6).spec_sub(p6).spec_add(p7).spec_sub(p7).spec_add(p8).spec_sub(p9).spec_add(p10).spec_sub(p10).spec_sub(p11).spec_add(p12).spec_add(p11), p12, p8);
    lemma_swap_as(p1.spec_sub(p1).spec_add(p2).spec_sub(p2).spec_add(p3).spec_sub(p3).spec_add(p4).spec_sub(p4).spec_add(p5).spec_sub(p5).spec_add(p6).spec_sub(p6).spec_add(p7).spec_sub(p7).spec_add(p8).spec_sub(p9).spec_add(p10).spec_sub(p10).spec_sub(p11).spec_add(p12), p11, p8);
    lemma_swap_as(p1.spec_sub(p1).spec_add(p2).spec_sub(p2).spec_add(p3).spec_sub(p3).spec_add(p4).spec_sub(p4).spec_add(p5).spec_sub(p5).spec_add(p6).spec_sub(p6).spec_add(p7).spec_sub(p7).spec_add(p8).spec_sub(p9).spec_add(p10).spec_sub(p10).spec_sub(p11), p12, p8);
    lemma_swap_ss(p1.spec_sub(p1).spec_add(p2).spec_sub(p2).spec_add(p3).spec_sub(p3).spec_add(p4).spec_sub(p4).spec_add(p5).spec_sub(p5).spec_add(p6).spec_sub(p6).spec_add(p7).spec_sub(p7).spec_add(p8).spec_sub(p9).spec_add(p10).spec_sub(p10), p11, p8);
    lemma_swap_ss(p1.spec_sub(p1).spec_add(p2).spec_sub(p2).spec_add(p3).spec_sub(p3).spec_add(p4).spec_sub(p4).spec_add(p5).spec_sub(p5).spec_add(p6).spec_sub(p6).spec_add(p7).spec_sub(p7).spec_add(p8).spec_sub(p9).spec_add(p10), p10, p8);
    lemma_swap_as(p1.spec_sub(p1).spec_add(p2).spec_sub(p2).spec_add(p3).spec_sub(p3).spec_add(p4).spec_sub(p4).spec_add(p5).spec_sub(p5).spec_add(p6).spec_sub(p6).spec_add(p7).spec_sub(p7).spec_add(p8).spec_sub(p9), p10, p8);
    lemma_swap_ss(p1.spec_sub(p1).spec_add(p2).spec_sub(p2).spec_add(p3).spec_sub(p3).spec_add(p4).spec_sub(p4).spec_add(p5).spec_sub(p5).spec_add(p6).spec_sub(p6).spec_add(p7).spec_sub(p7).spec_add(p8), p9, p8);
    lemma_swap_sa(p1.spec_sub(p1).spec_add(p2).spec_sub(p2).spec_add(p3).spec_sub(p3).spec_add(p4).spec_sub(p4).spec_add(p5).spec_sub(p5).spec_add(p6).spec_sub(p6).spec_add(p7).spec_sub(p7).spec_add(p8).spec_sub(p8).spec_sub(p9).spec_add(p10).spec_sub(p10).spec_sub(p11).spec_add(p12).spec_add(p11), p12, p9);
    lemma_swap_aa(p1.spec_sub(p1).spec_add(p2).spec_sub(p2).spec_add(p3).spec_sub(p3).spec_add(p4).spec_sub(p4).spec_add(p5).spec_sub(p5).spec_add(p6).spec_sub(p6).spec_add(p7).spec_sub(p7).spec_add(p8).spec_sub(p8).spec_sub(p9).spec_add(p10).spec_sub(p10).spec_sub(p11).spec_add(p12), p11, p9);
    lemma_swap_aa(p1.spec_sub(p1).spec_add(p2).spec_sub(p2).spec_add(p3).spec_sub(p3).spec_add(p4).spec_sub(p4).spec_add(p5).spec_sub(p5).spec_add(p6).spec_sub(p6).spec_add(p7).spec_sub(p7).spec_add(p8).spec_sub(p8).spec_sub(p9).spec_add(p10).spec_sub(p10).spec_sub(p11), p12, p9);
    lemma_swap_sa(p1.spec_sub(p1).spec_add(p2).spec_sub(p2).spec_add(p3).spec_sub(p3).spec_add(p4).spec_sub(p4).spec_add(p5).spec_sub(p5).spec_add(p6).spec_sub(p6).spec_add(p7).spec_sub(p7).spec_add(p8).spec_sub(p8).spec_sub(p9).spec_add(p10).spec_sub(p10), p11, p9);
    lemma_swap_sa(p1.spec_sub(p1).spec_add(p2).spec_sub(p2).spec_add(p3).spec_sub(p3).spec_add(p4).spec_sub(p4).spec_add(p5).spec_sub(p5).spec_add(p6).spec_sub(p6).spec_add(p7).spec_sub(p7).spec_add(p8).spec_sub(p8).spec_sub(p9).spec_add(p10), p10, p9);
    lemma_swap_aa(p1.spec_sub(p1).spec_add(p2).spec_sub(p2).spec_add(p3).spec_sub(p3).spec_add(p4).spec_sub(p4).spec_add(p5).spec_sub(p5).spec_add(p6).spec_sub(p6).spec_add(p7).spec_sub(p7).spec_add(p8).spec_sub(p8).spec_sub(p9), p10, p9);
    lemma_swap_sa(p1.spec_sub(p1).spec_add(p2).spec_sub(p2).spec_add(p3).spec_sub(p3).spec_add(p4).spec_sub(p4).spec_add(p5).spec_sub(p5).spec_add(p6).spec_sub(p6).spec_add(p7).spec_sub(p7).spec_add(p8).spec_sub(p8), p9, p9);
    lemma_swap_aa(p1.spec_sub(p1).spec_add(p2).spec_sub(p2).spec_add(p3).spec_sub(p3).spec_add(p4).spec_sub(p4).spec_add(p5).spec_sub(p5).spec_add(p6).spec_sub(p6).spec_add(p7).spec_sub(p7).spec_add(p8).spec_sub(p8).spec_add(p9).spec_sub(p9).spec_add(p10).spec_sub(p10).spec_sub(p11), p12, p11);
    lemma_swap_sa(p1.spec_sub(p1).spec_add(p2).spec_sub(p2).spec_add(p3).spec_sub(p3).spec_add(p4).spec_sub(p4).spec_add(p5).spec_sub(p5).spec_add(p6).spec_sub(p6).spec_add(p7).spec_sub(p7).spec_add(p8).spec_sub(p8).spec_add(p9).spec_sub(p9).spec_add(p10).spec_sub(p10), p11, p11);
    lemma_self_cancel(p1);
    lemma_cancel_adj(p1.spec_sub(p1), p2);
    lemma_cancel_adj(p1.spec_sub(p1).spec_add(p2).spec_sub(p2), p3);
    lemma_cancel_adj(p1.spec_sub(p1).spec_add(p2).spec_sub(p2).spec_add(p3).spec_sub(p3), p4);
    lemma_cancel_adj(p1.spec_sub(p1).spec_add(p2).spec_sub(p2).spec_add(p3).spec_sub(p3).spec_add(p4).spec_sub(p4), p5);
    lemma_cancel_adj(p1.spec_sub(p1).spec_add(p2).spec_sub(p2).spec_add(p3).spec_sub(p3).spec_add(p4).spec_sub(p4).spec_add(p5).spec_sub(p5), p6);
    lemma_cancel_adj(p1.spec_sub(p1).spec_add(p2).spec_sub(p2).spec_add(p3).spec_sub(p3).spec_add(p4).spec_sub(p4).spec_add(p5).spec_sub(p5).spec_add(p6).spec_sub(p6), p7);
    lemma_cancel_adj(p1.spec_sub(p1).spec_add(p2).spec_sub(p2).spec_add(p3).spec_sub(p3).spec_add(p4).spec_sub(p4).spec_add(p5).spec_sub(p5).spec_add(p6).spec_sub(p6).spec_add(p7).spec_sub(p7), p8);
    lemma_cancel_adj(p1.spec_sub(p1).spec_add(p2).spec_sub(p2).spec_add(p3).spec_sub(p3).spec_add(p4).spec_sub(p4).spec_add(p5).spec_sub(p5).spec_add(p6).spec_sub(p6).spec_add(p7).spec_sub(p7).spec_add(p8).spec_sub(p8), p9);
    lemma_cancel_adj(p1.spec_sub(p1).spec_add(p2).spec_sub(p2).spec_add(p3).spec_sub(p3).spec_add(p4).spec_sub(p4).spec_add(p5).spec_sub(p5).spec_add(p6).spec_sub(p6).spec_add(p7).spec_sub(p7).spec_add(p8).spec_sub(p8).spec_add(p9).spec_sub(p9), p10);
    lemma_cancel_adj(p1.spec_sub(p1).spec_add(p2).spec_sub(p2).spec_add(p3).spec_sub(p3).spec_add(p4).spec_sub(p4).spec_add(p5).spec_sub(p5).spec_add(p6).spec_sub(p6).spec_add(p7).spec_sub(p7).spec_add(p8).spec_sub(p8).spec_add(p9).spec_sub(p9).spec_add(p10).spec_sub(p10), p11);
    lemma_cancel_adj(p1.spec_sub(p1).spec_add(p2).spec_sub(p2).spec_add(p3).spec_sub(p3).spec_add(p4).spec_sub(p4).spec_add(p5).spec_sub(p5).spec_add(p6).spec_sub(p6).spec_add(p7).spec_sub(p7).spec_add(p8).spec_sub(p8).spec_add(p9).spec_sub(p9).spec_add(p10).spec_sub(p10).spec_add(p11).spec_sub(p11), p12);
}

pub(crate) proof fn lemma_inv_right_entry2<T: Scalar>(a: Seq<T>)
    requires
        a.len() == 16,
        field_sealed::<T>(),
        !det_seq(a).spec_is_zero(),
    ensures
        mul_seq(a, inverse_seq(a))[2] == T::spec_zero(),
{
    lemma_field_gives_ring::<T>();
    let inv = inverse_seq(a);
    let inv_d = T::spec_one().spec_div(det_seq(a));
    let b00 = minor2(a, 0, 5, 1, 4);
    let b01 = minor2(a, 0, 6, 2, 4);
    let b02 = minor2(a, 0, 7, 3, 4);
    let b03 = minor2(a, 1, 6, 2, 5);
    let b04 = minor2(a, 1, 7, 3, 5);
    let b05 = minor2(a, 2, 7, 3, 6);
    let b06 = minor2(a, 8, 13, 9, 12);
    let b07 = minor2(a, 8, 14, 10, 12);
    let b08 = minor2(a, 8, 15, 11, 12);
    let b09 = minor2(a, 9, 14, 10, 13);
    let b10 = minor2(a, 9, 15, 11, 13);
    let b11 = minor2(a, 10, 15, 11, 14);
    assert(mul_seq(a, inv)[2] == inv[0].spec_mul(a[2]).spec_add(inv[1].spec_mul(a[6])).spec_add(inv[2].spec_mul(a[10])).spec_add(inv[3].spec_mul(a[14])));
    assert(inv[0] == a[5].spec_mul(b11).spec_sub(a[6].spec_mul(b10)).spec_add(a[7].spec_mul(b09)).spec_mul(inv_d));
    assert(inv[1] == a[2].spec_mul(b10).spec_sub(a[1].spec_mul(b11)).spec_sub(a[3].spec_mul(b09)).spec_mul(inv_d));
    assert(inv[2] == a[13].spec_mul(b05).spec_sub(a[14].spec_mul(b04)).spec_add(a[15].spec_mul(b03)).spec_mul(inv_d));
    assert(inv[3] == a[10].spec_mul(b04).spec_sub(a[9].spec_mul(b05)).spec_sub(a[11].spec_mul(b03)).spec_mul(inv_d));
    lemma_mul_comm(a[5].spec_mul(b11).spec_sub(a[6].spec_mul(b10)).spec_add(a[7].spec_mul(b09)).spec_mul(inv_d), a[2]);
    lemma_mul_comm(a[2].spec_mul(b10).spec_sub(a[1].spec_mul(b11)).spec_sub(a[3].spec_mul(b09)).spec_mul(inv_d), a[6]);
    lemma_mul_comm(a[13].spec_mul(b05).spec_sub(a[14].spec_mul(b04)).spec_add(a[15].spec_mul(b03)).spec_mul(inv_d), a[10]);
    lemma_mul_comm(a[10].spec_mul(b04).spec_sub(a[9].spec_mul(b05)).spec_sub(a[11].spec_mul(b03)).spec_mul(inv_d), a[14]);
    lemma_mul_assoc(a[2], a[5].spec_mul(b11).spec_sub(a[6].spec_mul(b10)).spec_add(a[7].spec_mul(b09)), inv_d);
    lemma_mul_assoc(a[6], a[2].spec_mul(b10).spec_sub(a[1].spec_mul(b11)).spec_sub(a[3].spec_mul(b09)), inv_d);
    lemma_mul_assoc(a[10], a[13].spec_mul(b05).spec_sub(a[14].spec_mul(b04)).spec_add(a[15].spec_mul(b03)), inv_d);
    lemma_mul_assoc(a[14], a[10].spec_mul(b04).spec_sub(a[9].spec_mul(b05)).spec_sub(a[11].spec_mul(b03)), inv_d);
    lemma_factor4(
        a[2].spec_mul(a[5].spec_mul(b11).spec_sub(a[6].spec_mul(b10)).spec_add(a[7].spec_mul(b09))),
        a[6].spec_mul(a[2].spec_mul(b10).spec_sub(a[1].spec_mul(b11)).spec_sub(a[3].spec_mul(b09))),
        a[10].spec_mul(a[13].spec_mul(b05).spec_sub(a[14].spec_mul(b04)).spec_add(a[15].spec_mul(b03))),
        a[14].spec_mul(a[10].spec_mul(b04).spec_sub(a[9].spec_mul(b05)).spec_sub(a[11].spec_mul(b03))),
        inv_d,
    );
    lemma_distrib3_pmp(a[2], a[5].spec_mul(b11), a[6].spec_mul(b10), a[7].spec_mul(b09));
    lemma_mul_assoc(a[2], a[5], b11);
    lemma_mul_assoc(a[2], a[6], b10);
    lemma_mul_assoc(a[2], a[7], b09);
    lemma_distrib3_pmm(a[6], a[2].spec_mul(b10), a[1].spec_mul(b11), a[3].spec_mul(b09));
    lemma_mul_assoc(a[6], a[2], b10);
    lemma_mul_comm(a[6], a[2]);
    lemma_mul_assoc(a[6], a[1], b11);
    lemma_mul_comm(a[6], a[1]);
    lemma_mul_assoc(a[6], a[3], b09);
    lemma_mul_comm(a[6], a[3]);
    lemma_distrib3_pmp(a[10], a[13].spec_mul(b05), a[14].spec_mul(b04), a[15].spec_mul(b03));
    lemma_mul_assoc(a[10], a[13], b05);
    lemma_mul_assoc(a[10], a[14], b04);
    lemma_mul_assoc(a[10], a[15], b03);
    lemma_distrib3_pmm(a[14], a[10].spec_mul(b04), a[9].spec_mul(b05), a[11].spec_mul(b03));
    lemma_mul_assoc(a[14], a[10], b04);
    lemma_mul_comm(a[14], a[10]);
    lemma_mul_assoc(a[14], a[9], b05);
    lemma_mul_comm(a[14], a[9]);
    lemma_mul_assoc(a[14], a[11], b03);
    lemma_mul_comm(a[14], a[11]);
    lemma_append3_pmm(
        a[2].spec_mul(a[5]).spec_mul(b11).spec_sub(a[2].spec_mul(a[6]).spec_mul(b10)).spec_add(a[2].spec_mul(a[7]).spec_mul(b09)),
        a[2].spec_mul(a[6]).spec_mul(b10),
        a[1].spec_mul(a[6]).spec_mul(b11),
        a[3].spec_mul(a[6]).spec_mul(b09),
    );
    lemma_append3_pmp(
        a[2].spec_mul(a[5]).spec_mul(b11).spec_sub(a[2].spec_mul(a[6]).spec_mul(b10)).spec_add(a[2].spec_mul(a[7]).spec_mul(b09)).spec_add(a[2].spec_mul(a[6]).spec_mul(b10)).spec_sub(a[1].spec_mul(a[6]).spec_mul(b11)).spec_sub(a[3].spec_mul(a[6]).spec_mul(b09)),
        a[10].spec_mul(a[13]).spec_mul(b05),
        a[10].spec_mul(a[14]).spec_mul(b04),
        a[10].spec_mul(a[15]).spec_mul(b03),
    );
    lemma_append3_pmm(
        a[2].spec_mul(a[5]).spec_mul(b11).spec_sub(a[2].spec_mul(a[6]).spec_mul(b10)).spec_add(a[2].spec_mul(a[7]).spec_mul(b09)).spec_add(a[2].spec_mul(a[6]).spec_mul(b10)).spec_sub(a[1].spec_mul(a[6]).spec_mul(b11)).spec_sub(a[3].spec_mul(a[6]).spec_mul(b09)).spec_add(a[10].spec_mul(a[13]).spec_mul(b05)).spec_sub(a[10].spec_mul(a[14]).spec_mul(b04)).spec_add(a[10].spec_mul(a[15]).spec_mul(b03)),
        a[10].spec_mul(a[14]).spec_mul(b04),
        a[9].spec_mul(a[14]).spec_mul(b05),
        a[11].spec_mul(a[14]).spec_mul(b03),
    );
    let c2x5x10x15 = a[2].spec_mul(a[5]).spec_mul(a[10].spec_mul(a[15]));
    let c2x5x11x14 = a[2].spec_mul(a[5]).spec_mul(a[11].spec_mul(a[14]));
    let c2x6x9x15 = a[2].spec_mul(a[6]).spec_mul(a[9].spec_mul(a[15]));
    let c2x6x11x13 = a[2].spec_mul(a[6]).spec_mul(a[11].spec_mul(a[13]));
    let c2x7x9x14 = a[2].spec_mul(a[7]).spec_mul(a[9].spec_mul(a[14]));
    let c2x7x10x13 = a[2].spec_mul(a[7]).spec_mul(a[10].spec_mul(a[13]));
    let c1x6x10x15 = a[1].spec_mul(a[6]).spec_mul(a[10].spec_mul(a[15]));
    let c1x6x11x14 = a[1].spec_mul(a[6]).spec_mul(a[11].spec_mul(a[14]));
    let c3x6x9x14 = a[3].spec_mul(a[6]).spec_mul(a[9].spec_mul(a[14]));
    let c3x6x10x13 = a[3].spec_mul(a[6]).spec_mul(a[10].spec_mul(a[13]));
    let c1x7x10x14 = a[1].spec_mul(a[7]).spec_mul(a[10].spec_mul(a[14]));
    let c3x5x10x14 = a[3].spec_mul(a[5]).spec_mul(a[10].spec_mul(a[14]));
    lemma_distrib2(a[2].spec_mul(a[5]), a[10].spec_mul(a[15]), a[11].spec_mul(a[14]));
    lemma_distrib2(a[2].spec_mul(a[6]), a[9].spec_mul(a[15]), a[11].spec_mul(a[13]));
    lemma_distrib2(a[2].spec_mul(a[7]), a[9].spec_mul(a[14]), a[10].spec_mul(a[13]));
    lemma_distrib2(a[2].spec_mul(a[6]), a[9].spec_mul(a[15]), a[11].spec_mul(a[13]));
    lemma_distrib2(a[1].spec_mul(a[6]), a[10].spec_mul(a[15]), a[11].spec_mul(a[14]));
    lemma_distrib2(a[3].spec_mul(a[6]), a[9].spec_mul(a[14]), a[10].spec_mul(a[13]));
    lemma_distrib2(a[10].spec_mul(a[13]), a[2].spec_mul(a[7]), a[3].spec_mul(a[6]));
    lemma_distrib2(a[10].spec_mul(a[14]), a[1].spec_mul(a[7]), a[3].spec_mul(a[5]));
    lemma_distrib2(a[10].spec_mul(a[15]), a[1].spec_mul(a[6]), a[2].spec_mul(a[5]));
    lemma_distrib2(a[10].spec_mul(a[14]), a[1].spec_mul(a[7]), a[3].spec_mul(a[5]));
    lemma_distrib2(a[9].spec_mul(a[14]), a[2].spec_mul(a[7]), a[3].spec_mul(a[6]));
    lemma_distrib2(a[11].spec_mul(a[14]), a[1].spec_mul(a[6]), a[2].spec_mul(a[5]));
    lemma_mul_comm(a[10].spec_mul(a[13]), a[2].spec_mul(a[7]));
    lemma_mul_comm(a[10].spec_mul(a[13]), a[3].spec_mul(a[6]));
    lemma_mul_comm(a[10].spec_mul(a[14]), a[1].spec_mul(a[7]));
    lemma_mul_comm(a[10].spec_mul(a[14]), a[3].spec_mul(a[5]));
    lemma_mul_comm(a[10].spec_mul(a[15]), a[1].spec_mul(a[6]));
    lemma_mul_comm(a[10].spec_mul(a[15]), a[2].spec_mul(a[5]));
    lemma_mul_comm(a[9].spec_mul(a[14]), a[2].spec_mul(a[7]));
    lemma_mul_comm(a[9].spec_mul(a[14]), a[3].spec_mul(a[6]));
    lemma_mul_comm(a[11].spec_mul(a[14]), a[1].spec_mul(a[6]));
    lemma_mul_comm(a[11].spec_mul(a[14]), a[2].spec_mul(a[5]));
    lemma_append2_neg(
        c2x5x10x15.spec_sub(c2x5x11x14),
        c2x6x9x15,
        c2x6x11x13,
    );
    lemma_append2_pos(
        c2x5x10x15.spec_sub(c2x5x11x14).spec_sub(c2x6x9x15).spec_add(c2x6x11x13),
        c2x7x9x14,
        c2x7x10x13,
    );
    lemma_append2_pos(
        c2x5x10x15.spec_sub(c2x5x11x14).spec_sub(c2x6x9x15).spec_add(c2x6x11x13).spec_add(c2x7x9x14).spec_sub(c2x7x10x13),
        c2x6x9x15,
        c2x6x11x13,
    );
    lemma_append2_neg(
        c2x5x10x15.spec_sub(c2x5x11x14).spec_sub(c2x6x9x15).spec_add(c2x6x11x13).spec_add(c2x7x9x14).spec_sub(c2x7x10x13).spec_add(c2x6x9x15).spec_sub(c2x6x11x13),
        c1x6x10x15,
        c1x6x11x14,
    );
    lemma_append2_neg(
        c2x5x10x15.spec_sub(c2x5x11x14).spec_sub(c2x6x9x15).spec_add(c2x6x11x13).spec_add(c2x7x9x14).spec_sub(c2x7x10x13).spec_add(c2x6x9x15).spec_sub(c2x6x11x13).spec_sub(c1x6x10x15).spec_add(c1x6x11x14),
        c3x6x9x14,
        c3x6x10x13,
    );
    lemma_append2_pos(
        c2x5x10x15.spec_sub(c2x5x11x14).spec_sub(c2x6x9x15).spec_add(c2x6x11x13).spec_add(c2x7x9x14).spec_sub(c2x7x10x13).spec_add(c2x6x9x15).spec_sub(c2x6x11x13).spec_sub(c1x6x10x15).spec_add(c1x6x11x14).spec_sub(c3x6x9x14).spec_add(c3x6x10x13),
        c2x7x10x13,
        c3x6x10x13,
    );
    lemma_append2_neg(
        c2x5x10x15.spec_sub(c2x5x11x14).spec_sub(c2x6x9x15).spec_add(c2x6x11x13).spec_add(c2x7x9x14).spec_sub(c2x7x10x13).spec_add(c2x6x9x15).spec_sub(c2x6x11x13).spec_sub(c1x6x10x15).spec_add(c1x6x11x14).spec_sub(c3x6x9x14).spec_add(c3x6x10x13).spec_add(c2x7x10x13).spec_sub(c3x6x10x13),
        c1x7x10x14,
        c3x5x10x14,
    );
    lemma_append2_pos(
        c2x5x10x15.spec_sub(c2x5x11x14).spec_sub(c2x6x9x15).spec_add(c2x6x11x13).spec_add(c2x7x9x14).spec_sub(c2x7x10x13).spec_add(c2x6x9x15).spec_sub(c2x6x11x13).spec_sub(c1x6x10x15).spec_add(c1x6x11x14).spec_sub(c3x6x9x14).spec_add(c3x6x10x13).spec_add(c2x7x10x13).spec_sub(c3x6x10x13).spec_sub(c1x7x10x14).spec_add(c3x5x10x14),
        c1x6x10x15,
        c2x5x10x15,
    );
    lemma_append2_pos(
        c2x5x10x15.spec_sub(c2x5x11x14).spec_sub(c2x6x9x15).spec_add(c2x6x11x13).spec_add(c2x7x9x14).spec_sub(c2x7x10x13).spec_add(c2x6x9x15).spec_sub(c2x6x11x13).spec_sub(c1x6x10x15).spec_add(c1x6x11x14).spec_sub(c3x6x9x14).spec_add(c3x6x10x13).spec_add(c2x7x10x13).spec_sub(c3x6x10x13).spec_sub(c1x7x10x14).spec_add(c3x5x10x14).spec_add(c1x6x10x15).spec_sub(c2x5x10x15),
        c1x7x10x14,
        c3x5x10x14,
    );
    lemma_append2_neg(
        c2x5x10x15.spec_sub(c2x5x11x14).spec_sub(c2x6x9x15).spec_add(c2x6x11x13).spec_add(c2x7x9x14).spec_sub(c2x7x10x13).spec_add(c2x6x9x15).spec_sub(c2x6x11x13).spec_sub(c1x6x10x15).spec_add(c1x6x11x14).spec_sub(c3x6x9x14).spec_add(c3x6x10x13).spec_add(c2x7x10x13).spec_sub(c3x6x10x13).spec_sub(c1x7x10x14).spec_add(c3x5x10x14).spec_add(c1x6x10x15).spec_sub(c2x5x10x15).spec_add(c1x7x10x14).spec_sub(c3x5x10x14),
        c2x7x9x14,
        c3x6x9x14,
    );
    lemma_append2_neg(
        c2x5x10x15.spec_sub(c2x5x11x14).spec_sub(c2x6x9x15).spec_add(c2x6x11x13).spec_add(c2x7x9x14).spec_sub(c2x7x10x13).spec_add(c2x6x9x15).spec_sub(c2x6x11x13).spec_sub(c1x6x10x15).spec_add(c1x6x11x14).spec_sub(c3x6x9x14).spec_add(c3x6x10x13).spec_add(c2x7x10x13).spec_sub(c3x6x10x13).spec_sub(c1x7x10x14).spec_add(c3x5x10x14).spec_add(c1x6x10x15).spec_sub(c2x5x10x15).spec_add(c1x7x10x14).spec_sub(c3x5x10x14).spec_sub(c2x7x9x14).spec_add(c3x6x9x14),
        c1x6x11x14,
        c2x5x11x14,
    );
    lemma_inv_right_chain2(c2x5x10x15, c2x5x11x14, c2x6x9x15, c2x6x11x13, c2x7x9x14, c2x7x10x13, c1x6x10x15, c1x6x11x14, c3x6x9x14, c3x6x10x13, c1x7x10x14, c3x5x10x14);
    lemma_zero_mul(inv_d);
    assert(mul_seq(a, inv)[2] == T::spec_zero());
}

proof fn lemma_inv_right_chain3<T: Scalar>(p1: T, p2: T, p3: T, p4: T, p5: T, p6: T, p7: T, p8: T, p9: T, p10: T, p11: T, p12: T)
    requires
        laws_sealed::<T>(),
    ensures
        p1.spec_sub(p2).spec_sub(p3).spec_add(p4).spec_add(p5).spec_sub(p6).spec_add(p7).spec_sub(p8).spec_sub(p9).spec_add(p10).spec_sub(p5).spec_add(p6).spec_add(p8).spec_sub(p4).spec_sub(p10).spec_add(p2).spec_add(p11).spec_sub(p12).spec_add(p9).spec_sub(p1).spec_sub(p7).spec_add(p3).spec_sub(p11).spec_add(p12) == T::spec_zero(),
{
    lemma_swap_as(p1.spec_sub(p2).spec_sub(p3).spec_add(p4).spec_add(p5).spec_sub(p6).spec_add(p7).spec_sub(p8).spec_sub(p9).spec_add(p10).spec_sub(p5).spec_add(p6).spec_add(p8).spec_sub(p4).spec_sub(p10).spec_add(p2).spec_add(p11).spec_sub(p12), p9, p1);
    lemma_swap_ss(p1.spec_sub(p2).spec_sub(p3).spec_add(p4).spec_add(p5).spec_sub(p6).spec_add(p7).spec_sub(p8).spec_sub(p9).spec_add(p10).spec_sub(p5).spec_add(p6).spec_add(p8).spec_sub(p4).spec_sub(p10).spec_add(p2).spec_add(p11), p12, p1);
    lemma_swap_as(p1.spec_sub(p2).spec_sub(p3).spec_add(p4).spec_add(p5).spec_sub(p6).spec_add(p7).spec_sub(p8).spec_sub(p9).spec_add(p10).spec_sub(p5).spec_add(p6).spec_add(p8).spec_sub(p4).spec_sub(p10).spec_add(p2), p11, p1);
    lemma_swap_as(p1.spec_sub(p2).spec_sub(p3).spec_add(p4).spec_add(p5).spec_sub(p6).spec_add(p7).spec_sub(p8).spec_sub(p9).spec_add(p10).spec_sub(p5).spec_add(p6).spec_add(p8).spec_sub(p4).spec_sub(p10), p2, p1);
    lemma_swap_ss(p1.spec_sub(p2).spec_sub(p3).spec_add(p4).spec_add(p5).spec_sub(p6).spec_add(p7).spec_sub(p8).spec_sub(p9).spec_add(p10).spec_sub(p5).spec_add(p6).spec_add(p8).spec_sub(p4), p10, p1);
    lemma_swap_ss(p1.spec_sub(p2).spec_sub(p3).spec_add(p4).spec_add(p5).spec_sub(p6).spec_add(p7).spec_sub(p8).spec_sub(p9).spec_add(p10).spec_sub(p5).spec_add(p6).spec_add(p8), p4, p1);
    lemma_swap_as(p1.spec_sub(p2).spec_sub(p3).spec_add(p4).spec_add(p5).spec_sub(p6).spec_add(p7).spec_sub(p8).spec_sub(p9).spec_add(p10).spec_sub(p5).spec_add(p6), p8, p1);
    lemma_swap_as(p1.spec_sub(p2).spec_sub(p3).spec_add(p4).spec_add(p5).spec_sub(p6).spec_add(p7).spec_sub(p8).spec_sub(p9).spec_add(p10).spec_sub(p5), p6, p1);
    lemma_swap_ss(p1.spec_sub(p2).spec_sub(p3).spec_add(p4).spec_add(p5).spec_sub(p6).spec_add(p7).spec_sub(p8).spec_sub(p9).spec_add(p10), p5, p1);
    lemma_swap_as(p1.spec_sub(p2).spec_sub(p3).spec_add(p4).spec_add(p5).spec_sub(p6).spec_add(p7).spec_sub(p8).spec_sub(p9), p10, p1);
    lemma_swap_ss(p1.spec_sub(p2).spec_sub(p3).spec_add(p4).spec_add(p5).spec_sub(p6).spec_add(p7).spec_sub(p8), p9, p1);
    lemma_swap_ss(p1.spec_sub(p2).spec_sub(p3).spec_add(p4).spec_add(p5).spec_sub(p6).spec_add(p7), p8, p1);
    lemma_swap_as(p1.spec_sub(p2).spec_sub(p3).spec_add(p4).spec_add(p5).spec_sub(p6), p7, p1);
    lemma_swap_ss(p1.spec_sub(p2).spec_sub(p3).spec_add(p4).spec_add(p5), p6, p1);
    lemma_swap_as(p1.spec_sub(p2).spec_sub(p3).spec_add(p4), p5, p1);
    lemma_swap_as(p1.spec_sub(p2).spec_sub(p3), p4, p1);
    lemma_swap_ss(p1.spec_sub(p2), p3, p1);
    lemma_swap_ss(p1, p2, p1);
    lemma_swap_sa(p1.spec_sub(p1).spec_sub(p2).spec_sub(p3).spec_add(p4).spec_add(p5).spec_sub(p6).spec_add(p7).spec_sub(p8).spec_sub(p9).spec_add(p10).spec_sub(p5).spec_add(p6).spec_add(p8).spec_sub(p4), p10, p2);
    lemma_swap_sa(p1.spec_sub(p1).spec_sub(p2).spec_sub(p3).spec_add(p4).spec_add(p5).spec_sub(p6).spec_add(p7).spec_sub(p8).spec_sub(p9).spec_add(p10).spec_sub(p5).spec_add(p6).spec_add(p8), p4, p2);
    lemma_swap_aa(p1.spec_sub(p1).spec_sub(p2).spec_sub(p3).spec_add(p4).spec_add(p5).spec_sub(p6).spec_add(p7).spec_sub(p8).spec_sub(p9).spec_add(p10).spec_sub(p5).spec_add(p6), p8, p2);
    lemma_swap_aa(p1.spec_sub(p1).spec_sub(p2).spec_sub(p3).spec_add(p4).spec_add(p5).spec_sub(p6).spec_add(p7).spec_sub(p8).spec_sub(p9).spec_add(p10).spec_sub(p5), p6, p2);
    lemma_swap_sa(p1.spec_sub(p1).spec_sub(p2).spec_sub(p3).spec_add(p4).spec_add(p5).spec_sub(p6).spec_add(p7).spec_sub(p8).spec_sub(p9).spec_add(p10), p5, p2);
    lemma_swap_aa(p1.spec_sub(p1).spec_sub(p2).spec_sub(p3).spec_add(p4).spec_add(p5).spec_sub(p6).spec_add(p7).spec_sub(p8).spec_sub(p9), p10, p2);
    lemma_swap_sa(p1.spec_sub(p1).spec_sub(p2).spec_sub(p3).spec_add(p4).spec_add(p5).spec_sub(p6).spec_add(p7).spec_sub(p8), p9, p2);
    lemma_swap_sa(p1.spec_sub(p1).spec_sub(p2).spec_sub(p3).spec_add(p4).spec_add(p5).spec_sub(p6).spec_add(p7), p8, p2);
    lemma_swap_aa(p1.spec_sub(p1).spec_sub(p2).spec_sub(p3).spec_add(p4).spec_add(p5).spec_sub(p6), p7, p2);
    lemma_swap_sa(p1.spec_sub(p1).spec_sub(p2).spec_sub(p3).spec_add(p4).spec_add(p5), p6, p2);
    lemma_swap_aa(p1.spec_sub(p1).spec_sub(p2).spec_sub(p3).spec_add(p4), p5, p2);
    lemma_swap_aa(p1.spec_sub(p1).spec_sub(p2).spec_sub(p3), p4, p2);
    lemma_swap_sa(p1.spec_sub(p1).spec_sub(p2), p3, p2);
    lemma_swap_sa(p1.spec_sub(p1), p2, p2);
    lemma_swap_sa(p1.spec_sub(p1).spec_add(p2).spec_sub(p2).spec_sub(p3).spec_add(p4).spec_add(p5).spec_sub(p6).spec_add(p7).spec_sub(p8).spec_sub(p9).spec_add(p10).spec_sub(p5).spec_add(p6).spec_add(p8).spec_sub(p4).spec_sub(p10).spec_add(p11).spec_sub(p12).spec_add(p9), p7, p3);
    lemma_swap_aa(p1.spec_sub(p1).spec_add(p2).spec_sub(p2).spec_sub(p3).spec_add(p4).spec_add(p5).spec_sub(p6).spec_add(p7).spec_sub(p8).spec_sub(p9).spec_add(p10).spec_sub(p5).spec_add(p6).spec_add(p8).spec_sub(p4).spec_sub(p10).spec_add(p11).spec_sub(p12), p9, p3);
    lemma_swap_sa(p1.spec_sub(p1).spec_add(p2).spec_sub(p2).spec_sub(p3).spec_add(p4).spec_add(p5).spec_sub(p6).spec_add(p7).spec_sub(p8).spec_sub(p9).spec_add(p10).spec_sub(p5).spec_add(p6).spec_add(p8).spec_sub(p4).spec_sub(p10).spec_add(p11), p12, p3);
    lemma_swap_aa(p1.spec_sub(p1).spec_add(p2).spec_sub(p2).spec_sub(p3).spec_add(p4).spec_add(p5).spec_sub(p6).spec_add(p7).spec_sub(p8).spec_sub(p9).spec_add(p10).spec_sub(p5).spec_add(p6).spec_add(p8).spec_sub(p4).spec_sub(p10), p11, p3);
    lemma_swap_sa(p1.spec_sub(p1).spec_add(p2).spec_sub(p2).spec_sub(p3).spec_add(p4).spec_add(p5).spec_sub(p6).spec_add(p7).spec_sub(p8).spec_sub(p9).spec_add(p10).spec_sub(p5).spec_add(p6).spec_add(p8).spec_sub(p4), p10, p3);
    lemma_swap_sa(p1.spec_sub(p1).spec_add(p2).spec_sub(p2).spec_sub(p3).spec_add(p4).spec_add(p5).spec_sub(p6).spec_add(p7).spec_sub(p8).spec_sub(p9).spec_add(p10).spec_sub(p5).spec_add(p6).spec_add(p8), p4, p3);
    lemma_swap_aa(p1.spec_sub(p1).spec_add(p2).spec_sub(p2).spec_sub(p3).spec_add(p4).spec_add(p5).spec_sub(p6).spec_add(p7).spec_sub(p8).spec_sub(p9).spec_add(p10).spec_sub(p5).spec_add(p6), p8, p3);
    lemma_swap_aa(p1.spec_sub(p1).spec_add(p2).spec_sub(p2).spec_sub(p3).spec_add(p4).spec_add(p5).spec_sub(p6).spec_add(p7).spec_sub(p8).spec_sub(p9).spec_add(p10).spec_sub(p5), p6, p3);
    lemma_swap_sa(p1.spec_sub(p1).spec_add(p2).spec_sub(p2).spec_sub(p3).spec_add(p4).spec_add(p5).spec_sub(p6).spec_add(p7).spec_sub(p8).spec_sub(p9).spec_add(p10), p5, p3);
    lemma_swap_aa(p1.spec_sub(p1).spec_add(p2).spec_sub(p2).spec_sub(p3).spec_add(p4).spec_add(p5).spec_sub(p6).spec_add(p7).spec_sub(p8).spec_sub(p9), p10, p3);
    lemma_swap_sa(p1.spec_sub(p1).spec_add(p2).spec_sub(p2).spec_sub(p3).spec_add(p4).spec_add(p5).spec_sub(p6).spec_add(p7).spec_sub(p8), p9, p3);
    lemma_swap_sa(p1.spec_sub(p1).spec_add(p2).spec_sub(p2).spec_sub(p3).spec_add(p4).spec_add(p5).spec_sub(p6).spec_add(p7), p8, p3);
    lemma_swap_aa(p1.spec_sub(p1).spec_add(p2).spec_sub(p2).spec_sub(p3).spec_add(p4).spec_add(p5).spec_sub(p6), p7, p3);
    lemma_swap_sa(p1.spec_sub(p1).spec_add(p2).spec_sub(p2).spec_sub(p3).spec_add(p4).spec_add(p5), p6, p3);
    lemma_swap_aa(p1.spec_sub(p1).spec_add(p2).spec_sub(p2).spec_sub(p3).spec_add(p4), p5, p3);
    lemma_swap_aa(p1.spec_sub(p1).spec_add(p2).spec_sub(p2).spec_sub(p3), p4, p3);
    lemma_swap_sa(p1.spec_sub(p1).spec_add(p2).spec_sub(p2), p3, p3);
    lemma_swap_as(p1.spec_sub(p1).spec_add(p2).spec_sub(p2).spec_add(p3).spec_sub(p3).spec_add(p4).spec_add(p5).spec_sub(p6).spec_add(p7).spec_sub(p8).spec_sub(p9).spec_add(p10).spec_sub(p5).spec_add(p6), p8, p4);
    lemma_swap_as(p1.spec_sub(p1).spec_add(p2).spec_sub(p2).spec_add(p3).spec_sub(p3).spec_add(p4).spec_add(p5).spec_sub(p6).spec_add(p7).spec_sub(p8).spec_sub(p9).spec_add(p10).spec_sub(p5), p6, p4);
    lemma_swap_ss(p1.spec_sub(p1).spec_add(p2).spec_sub(p2).spec_add(p3).spec_sub(p3).spec_add(p4).spec_add(p5).spec_sub(p6).spec_add(p7).spec_sub(p8).spec_sub(p9).spec_add(p10), p5, p4);
    lemma_swap_as(p1.spec_sub(p1).spec_add(p2).spec_sub(p2).spec_add(p3).spec_sub(p3).spec_add(p4).spec_add(p5).spec_sub(p6).spec_add(p7).spec_sub(p8).spec_sub(p9), p10, p4);
    lemma_swap_ss(p1.spec_sub(p1).spec_add(p2).spec_sub(p2).spec_add(p3).spec_sub(p3).spec_add(p4).spec_add(p5).spec_sub(p6).spec_add(p7).spec_sub(p8), p9, p4);
    lemma_swap_ss(p1.spec_sub(p1).spec_add(p2).spec_sub(p2).spec_add(p3).spec_sub(p3).spec_add(p4).spec_add(p5).spec_sub(p6).spec_add(p7), p8, p4);
    lemma_swap_as(p1.spec_sub(p1).spec_add(p2).spec_sub(p2).spec_add(p3).spec_sub(p3).spec_add(p4).spec_add(p5).spec_sub(p6), p7, p4);
    lemma_swap_ss(p1.spec_sub(p1).spec_add(p2).spec_sub(p2).spec_add(p3).spec_sub(p3).spec_add(p4).spec_add(p5), p6, p4);
    lemma_swap_as(p1.spec_sub(p1).spec_add(p2).spec_sub(p2).spec_add(p3).spec_sub(p3).spec_add(p4), p5, p4);
    lemma_swap_as(p1.spec_sub(p1).spec_add(p2).spec_sub(p2).spec_add(p3).spec_sub(p3).spec_add(p4).spec_sub(p4).spec_add(p5).spec_sub(p6).spec_add(p7).spec_sub(p8).spec_sub(p9), p10, p5);
    lemma_swap_ss(p1.spec_sub(p1).spec_add(p2).spec_sub(p2).spec_add(p3).spec_sub(p3).spec_add(p4).spec_sub(p4).spec_add(p5).spec_sub(p6).spec_add(p7).spec_sub(p8), p9, p5);
    lemma_swap_ss(p1.spec_sub(p1).spec_add(p2).spec_sub(p2).spec_add(p3).spec_sub(p3).spec_add(p4).spec_sub(p4).spec_add(p5).spec_sub(p6).spec_add(p7), p8, p5);
    lemma_swap_as(p1.spec_sub(p1).spec_add(p2).spec_sub(p2).spec_add(p3).spec_sub(p3).spec_add(p4).spec_sub(p4).spec_add(p5).spec_sub(p6), p7, p5);
    lemma_swap_ss(p1.spec_sub(p1).spec_add(p2).spec_sub(p2).spec_add(p3).spec_sub(p3).spec_add(p4).spec_sub(p4).spec_add(p5), p6, p5);
    lemma_swap_aa(p1.spec_sub(p1).spec_add(p2).spec_sub(p2).spec_add(p3).spec_sub(p3).spec_add(p4).spec_sub(p4).spec_add(p5).spec_sub(p5).spec_sub(p6).spec_add(p7).spec_sub(p8).spec_sub(p9), p10, p6);
    lemma_swap_sa(p1.spec_sub(p1).spec_add(p2).spec_sub(p2).spec_add(p3).spec_sub(p3).spec_add(p4).spec_sub(p4).spec_add(p5).spec_sub(p5).spec_sub(p6).spec_add(p7).spec_sub(p8), p9, p6);
    lemma_swap_sa(p1.spec_sub(p1).spec_add(p2).spec_sub(p2).spec_add(p3).spec_sub(p3).spec_add(p4).spec_sub(p4).spec_add(p5).spec_sub(p5).spec_sub(p6).spec_add(p7), p8, p6);
    lemma_swap_aa(p1.spec_sub(p1).spec_add(p2).spec_sub(p2).spec_add(p3).spec_sub(p3).spec_add(p4).spec_sub(p4).spec_add(p5).spec_sub(p5).spec_sub(p6), p7, p6);
    lemma_swap_sa(p1.spec_sub(p1).spec_add(p2).spec_sub(p2).spec_add(p3).spec_sub(p3).spec_add(p4).spec_sub(p4).spec_add(p5).spec_sub(p5), p6, p6);
    lemma_swap_as(p1.spec_sub(p1).spec_add(p2).spec_sub(p2).spec_add(p3).spec_sub(p3).spec_add(p4).spec_sub(p4).spec_add(p5).spec_sub(p5).spec_add(p6).spec_sub(p6).spec_add(p7).spec_sub(p8).spec_sub(p9).spec_add(p10).spec_add(p8).spec_sub(p10).spec_add(p11).spec_sub(p12), p9, p7);
    lemma_swap_ss(p1.spec_sub(p1).spec_add(p2).spec_sub(p2).spec_add(p3).spec_sub(p3).spec_add(p4).spec_sub(p4).spec_add(p5).spec_sub(p5).spec_add(p6).spec_sub(p6).spec_add(p7).spec_sub(p8).spec_sub(p9).spec_add(p10).spec_add(p8).spec_sub(p10).spec_add(p11), p12, p7);
    lemma_swap_as(p1.spec_sub(p1).spec_add(p2).spec_sub(p2).spec_add(p3).spec_sub(p3).spec_add(p4).spec_sub(p4).spec_add(p5).spec_sub(p5).spec_add(p6).spec_sub(p6).spec_add(p7).spec_sub(p8).spec_sub(p9).spec_add(p10).spec_add(p8).spec_sub(p10), p11, p7);
    lemma_swap_ss(p1.spec_sub(p1).spec_add(p2).spec_sub(p2).spec_add(p3).spec_sub(p3).spec_add(p4).spec_sub(p4).spec_add(p5).spec_sub(p5).spec_add(p6).spec_sub(p6).spec_add(p7).spec_sub(p8).spec_sub(p9).spec_add(p10).spec_add(p8), p10, p7);
    lemma_swap_as(p1.spec_sub(p1).spec_add(p2).spec_sub(p2).spec_add(p3).spec_sub(p3).spec_add(p4).spec_sub(p4).spec_add(p5).spec_sub(p5).spec_add(p6).spec_sub(p6).spec_add(p7).spec_sub(p8).spec_sub(p9).spec_add(p10), p8, p7);
    lemma_swap_as(p1.spec_sub(p1).spec_add(p2).spec_sub(p2).spec_add(p3).spec_sub(p3).spec_add(p4).spec_sub(p4).spec_add(p5).spec_sub(p5).spec_add(p6).spec_sub(p6).spec_add(p7).spec_sub(p8).spec_sub(p9), p10, p7);
    lemma_swap_ss(p1.spec_sub(p1).spec_add(p2).spec_sub(p2).spec_add(p3).spec_sub(p3).spec_add(p4).spec_sub(p4).spec_add(p5).spec_sub(p5).spec_add(p6).spec_sub(p6).spec_add(p7).spec_sub(p8), p9, p7);
    lemma_swap_ss(p1.spec_sub(p1).spec_add(p2).spec_sub(p2).spec_add(p3).spec_sub(p3).spec_add(p4).spec_sub(p4).spec_add(p5).spec_sub(p5).spec_add(p6).spec_sub(p6).spec_add(p7), p8, p7);
    lemma_swap_aa(p1.spec_sub(p1).spec_add(p2).spec_sub(p2).spec_add(p3).spec_sub(p3).spec_add(p4).spec_sub(p4).spec_add(p5).spec_sub(p5).spec_add(p6).spec_sub(p6).spec_add(p7).spec_sub(p7).spec_sub(p8).spec_sub(p9), p10, p8);
    lemma_swap_sa(p1.spec_sub(p1).spec_add(p2).spec_sub(p2).spec_add(p3).spec_sub(p3).spec_add(p4).spec_sub(p4).spec_add(p5).spec_sub(p5).spec_add(p6).spec_sub(p6).spec_add(p7).spec_sub(p7).spec_sub(p8), p9, p8);
    lemma_swap_sa(p1.spec_sub(p1).spec_add(p2).spec_sub(p2).spec_add(p3).spec_sub(p3).spec_add(p4).spec_sub(p4).spec_add(p5).spec_sub(p5).spec_add(p6).spec_sub(p6).spec_add(p7).spec_sub(p7), p8, p8);
    lemma_swap_sa(p1.spec_sub(p1).spec_add(p2).spec_sub(p2).spec_add(p3).spec_sub(p3).spec_add(p4).spec_sub(p4).spec_add(p5).spec_sub(p5).spec_add(p6).spec_sub(p6).spec_add(p7).spec_sub(p7).spec_add(p8).spec_sub(p8).spec_sub(p9).spec_add(p10).spec_sub(p10).spec_add(p11), p12, p9);
    lemma_swap_aa(p1.spec_sub(p1).spec_add(p2).spec_sub(p2).spec_add(p3).spec_sub(p3).spec_add(p4).spec_sub(p4).spec_add(p5).spec_sub(p5).spec_add(p6).spec_sub(p6).spec_add(p7).spec_sub(p7).spec_add(p8).spec_sub(p8).spec_sub(p9).spec_add(p10).spec_sub(p10), p11, p9);
    lemma_swap_sa(p1.spec_sub(p1).spec_add(p2).spec_sub(p2).spec_add(p3).spec_sub(p3).spec_add(p4).spec_sub(p4).spec_add(p5).spec_sub(p5).spec_add(p6).spec_sub(p6).spec_add(p7).spec_sub(p7).spec_add(p8).spec_sub(p8).spec_sub(p9).spec_add(p10), p10, p9);
    lemma_swap_aa(p1.spec_sub(p1).spec_add(p2).spec_sub(p2).spec_add(p3).spec_sub(p3).spec_add(p4).spec_sub(p4).spec_add(p5).spec_sub(p5).spec_add(p6).spec_sub(p6).spec_add(p7).spec_sub(p7).spec_add(p8).spec_sub(p8).spec_sub(p9), p10, p9);
    lemma_swap_sa(p1.spec_sub(p1).spec_add(p2).spec_sub(p2).spec_add(p3).spec_sub(p3).spec_add(p4).spec_sub(p4).spec_add(p5).spec_sub(p5).spec_add(p6).spec_sub(p6).spec_add(p7).spec_sub(p7).spec_add(p8).spec_sub(p8), p9, p9);
    lemma_swap_ss(p1.spec_sub(p1).spec_add(p2).spec_sub(p2).spec_add(p3).spec_sub(p3).spec_add(p4).spec_sub(p4).spec_add(p5).spec_sub(p5).spec_add(p6).spec_sub(p6).spec_add(p7).spec_sub(p7).spec_add(p8).spec_sub(p8).spec_add(p9).spec_sub(p9).spec_add(p10).spec_sub(p10).spec_add(p11), p12, p11);
    lemma_swap_sa(p1.spec_sub(p1).spec_add(p2).spec_sub(p2).spec_add(p3).spec_sub(p3).spec_add(p4).spec_sub(p4).spec_add(p5).spec_sub(p5).spec_add(p6).spec_sub(p6).spec_add(p7).spec_sub(p7).spec_add(p8).spec_sub(p8).spec_add(p9).spec_sub(p9).spec_add(p10).spec_sub(p10).spec_add(p11).spec_sub(p11), p12, p12);
    lemma_self_cancel(p1);
    lemma_cancel_adj(p1.spec_sub(p1), p2);
    lemma_cancel_adj(p1.spec_sub(p1).spec_add(p2).spec_sub(p2), p3);
    lemma_cancel_adj(p1.spec_sub(p1).spec_add(p2).spec_sub(p2).spec_add(p3).spec_sub(p3), p4);
    lemma_cancel_adj(p1.spec_sub(p1).spec_add(p2).spec_sub(p2).spec_add(p3).spec_sub(p3).spec_add(p4).spec_sub(p4), p5);
    lemma_cancel_adj(p1.spec_sub(p1).spec_add(p2).spec_sub(p2).spec_add(p3).spec_sub(p3).spec_add(p4).spec_sub(p4).spec_add(p5).spec_sub(p5), p6);
    lemma_cancel_adj(p1.spec_sub(p1).spec_add(p2).spec_sub(p2).spec_add(p3).spec_sub(p3).spec_add(p4).spec_sub(p4).spec_add(p5).spec_sub(p5).spec_add(p6).spec_sub(p6), p7);
    lemma_cancel_adj(p1.spec_sub(p1).spec_add(p2).spec_sub(p2).spec_add(p3).spec_sub(p3).spec_add(p4).spec_sub(p4).spec_add(p5).spec_sub(p5).spec_add(p6).spec_sub(p6).spec_add(p7).spec_sub(p7), p8);
    lemma_cancel_adj(p1.spec_sub(p1).spec_add(p2).spec_sub(p2).spec_add(p3).spec_sub(p3).spec_add(p4).spec_sub(p4).spec_add(p5).spec_sub(p5).spec_add(p6).spec_sub(p6).spec_add(p7).spec_sub(p7).spec_add(p8).spec_sub(p8), p9);
    lemma_cancel_adj(p1.spec_sub(p1).spec_add(p2).spec_sub(p2).spec_add(p3).spec_sub(p3).spec_add(p4).spec_sub(p4).spec_add(p5).spec_sub(p5).spec_add(p6).spec_sub(p6).spec_add(p7).spec_sub(p7).spec_add(p8).spec_sub(p8).spec_add(p9).spec_sub(p9), p10);
    lemma_cancel_adj(p1.spec_sub(p1).spec_add(p2).spec_sub(p2).spec_add(p3).spec_sub(p3).spec_add(p4).spec_sub(p4).spec_add(p5).spec_sub(p5).spec_add(p6).spec_sub(p6).spec_add(p7).spec_sub(p7).spec_add(p8).spec_sub(p8).spec_add(p9).spec_sub(p9).spec_add(p10).spec_sub(p10), p11);
    lemma_cancel_adj(p1.spec_sub(p1).spec_add(p2).spec_sub(p2).spec_add(p3).spec_sub(p3).spec_add(p4).spec_sub(p4).spec_add(p5).spec_sub(p5).spec_add(p6).spec_sub(p6).spec_add(p7).spec_sub(p7).spec_add(p8).spec_sub(p8).spec_add(p9).spec_sub(p9).spec_add(p10).spec_sub(p10).spec_add(p11).spec_sub(p11), p12);
}

pub(crate) proof fn lemma_inv_right_entry3<T: Scalar>(a: Seq<T>)
    requires
        a.len() == 16,
        field_sealed::<T>(),
        !det_seq(a).spec_is_zero(),
    ensures
        mul_seq(a, inverse_seq(a))[3] == T::spec_zero(),
{
    lemma_field_gives_ring::<T>();
    let inv = inverse_seq(a);
    let inv_d = T::spec_one().spec_div(det_seq(a));
    let b00 = minor2(a, 0, 5, 1, 4);
    let b01 = minor2(a, 0, 6, 2, 4);
    let b02 = minor2(a, 0, 7, 3, 4);
    let b03 = minor2(a, 1, 6, 2, 5);
    let b04 = minor2(a, 1, 7, 3, 5);
    let b05 = minor2(a, 2, 7, 3, 6);
    let b06 = minor2(a, 8, 13, 9, 12);
    let b07 = minor2(a, 8, 14, 10, 12);
    let b08 = minor2(a, 8, 15, 11, 12);
    let b09 = minor2(a, 9, 14, 10, 13);
    let b10 = minor2(a, 9, 15, 11, 13);
    let b11 = minor2(a, 10, 15, 11, 14);
    assert(mul_seq(a, inv)[3] == inv[0].spec_mul(a[3]).spec_add(inv[1].spec_mul(a[7])).spec_add(inv[2].spec_mul(a[11])).spec_add(inv[3].spec_mul(a[15])));
    assert(inv[0] == a[5].spec_mul(b11).spec_sub(a[6].spec_mul(b10)).spec_add(a[7].spec_mul(b09)).spec_mul(inv_d));
    assert(inv[1] == a[2].spec_mul(b10).spec_sub(a[1].spec_mul(b11)).spec_sub(a[3].spec_mul(b09)).spec_mul(inv_d));
    assert(inv[2] == a[13].spec_mul(b05).spec_sub(a[14].spec_mul(b04)).spec_add(a[15].spec_mul(b03)).spec_mul(inv_d));
    assert(inv[3] == a[10].spec_mul(b04).spec_sub(a[9].spec_mul(b05)).spec_sub(a[11].spec_mul(b03)).spec_mul(inv_d));
    lemma_mul_comm(a[5].spec_mul(b11).spec_sub(a[6].spec_mul(b10)).spec_add(a[7].spec_mul(b09)).spec_mul(inv_d), a[3]);
    lemma_mul_comm(a[2].spec_mul(b10).spec_sub(a[1].spec_mul(b11)).spec_sub(a[3].spec_mul(b09)).spec_mul(inv_d), a[7]);
    lemma_mul_comm(a[13].spec_mul(b05).spec_sub(a[14].spec_mul(b04)).spec_add(a[15].spec_mul(b03)).spec_mul(inv_d), a[11]);
    lemma_mul_comm(a[10].spec_mul(b04).spec_sub(a[9].spec_mul(b05)).spec_sub(a[11].spec_mul(b03)).spec_mul(inv_d), a[15]);
    lemma_mul_assoc(a[3], a[5].spec_mul(b11).spec_sub(a[6].spec_mul(b10)).spec_add(a[7].spec_mul(b09)), inv_d);
    lemma_mul_assoc(a[7], a[2].spec_mul(b10).spec_sub(a[1].spec_mul(b11)).spec_sub(a[3].spec_mul(b09)), inv_d);
    lemma_mul_assoc(a[11], a[13].spec_mul(b05).spec_sub(a[14].spec_mul(b04)).spec_add(a[15].spec_mul(b03)), inv_d);
    lemma_mul_assoc(a[15], a[10].spec_mul(b04).spec_sub(a[9].spec_mul(b05)).spec_sub(a[11].spec_mul(b03)), inv_d);
    lemma_factor4(
        a[3].spec_mul(a[5].spec_mul(b11).spec_sub(a[6].spec_mul(b10)).spec_add(a[7].spec_mul(b09))),
        a[7].spec_mul(a[2].spec_mul(b10).spec_sub(a[1].spec_mul(b11)).spec_sub(a[3].spec_mul(b09))),
        a[11].spec_mul(a[13].spec_mul(b05).spec_sub(a[14].spec_mul(b04)).spec_add(a[15].spec_mul(b03))),
        a[15].spec_mul(a[10].spec_mul(b04).spec_sub(a[9].spec_mul(b05)).spec_sub(a[11].spec_mul(b03))),
        inv_d,
    );
    lemma_distrib3_pmp(a[3], a[5].spec_mul(b11), a[6].spec_mul(b10), a[7].spec_mul(b09));
    lemma_mul_assoc(a[3], a[5], b11);
    lemma_mul_assoc(a[3], a[6], b10);
    lemma_mul_assoc(a[3], a[7], b09);
    lemma_distrib3_pmm(a[7], a[2].spec_mul(b10), a[1].spec_mul(b11), a[3].spec_mul(b09));
    lemma_mul_assoc(a[7], a[2], b10);
    lemma_mul_comm(a[7], a[2]);
    lemma_mul_assoc(a[7], a[1], b11);
    lemma_mul_comm(a[7], a[1]);
    lemma_mul_assoc(a[7], a[3], b09);
    lemma_mul_comm(a[7], a[3]);
    lemma_distrib3_pmp(a[11], a[13].spec_mul(b05), a[14].spec_mul(b04), a[15].spec_mul(b03));
    lemma_mul_assoc(a[11], a[13], b05);
    lemma_mul_assoc(a[11], a[14], b04);
    lemma_mul_assoc(a[11], a[15], b03);
    lemma_distrib3_pmm(a[15], a[10].spec_mul(b04), a[9].spec_mul(b05), a[11].spec_mul(b03));
    lemma_mul_assoc(a[15], a[10], b04);
    lemma_mul_comm(a[15], a[10]);
    lemma_mul_assoc(a[15], a[9], b05);
    lemma_mul_comm(a[15], a[9]);
    lemma_mul_assoc(a[15], a[11], b03);
    lemma_mul_comm(a[15], a[11]);
    lemma_append3_pmm(
        a[3].spec_mul(a[5]).spec_mul(b11).spec_sub(a[3].spec_mul(a[6]).spec_mul(b10)).spec_add(a[3].spec_mul(a[7]).spec_mul(b09)),
        a[2].spec_mul(a[7]).spec_mul(b10),
        a[1].spec_mul(a[7]).spec_mul(b11),
        a[3].spec_mul(a[7]).spec_mul(b09),
    );
    lemma_append3_pmp(
        a[3].spec_mul(a[5]).spec_mul(b11).spec_sub(a[3].spec_mul(a[6]).spec_mul(b10)).spec_add(a[3].spec_mul(a[7]).spec_mul(b09)).spec_add(a[2].spec_mul(a[7]).spec_mul(b10)).spec_sub(a[1].spec_mul(a[7]).spec_mul(b11)).spec_sub(a[3].spec_mul(a[7]).spec_mul(b09)),
        a[11].spec_mul(a[13]).spec_mul(b05),
        a[11].spec_mul(a[14]).spec_mul(b04),
        a[11].spec_mul(a[15]).spec_mul(b03),
    );
    lemma_append3_pmm(
        a[3].spec_mul(a[5]).spec_mul(b11).spec_sub(a[3].spec_mul(a[6]).spec_mul(b10)).spec_add(a[3].spec_mul(a[7]).spec_mul(b09)).spec_add(a[2].spec_mul(a[7]).spec_mul(b10)).spec_sub(a[1].spec_mul(a[7]).spec_mul(b11)).spec_sub(a[3].spec_mul(a[7]).spec_mul(b09)).spec_add(a[11].spec_mul(a[13]).spec_mul(b05)).spec_sub(a[11].spec_mul(a[14]).spec_mul(b04)).spec_add(a[11].spec_mul(a[15]).spec_mul(b03)),
        a[10].spec_mul(a[15]).spec_mul(b04),
        a[9].spec_mul(a[15]).spec_mul(b05),
        a[11].spec_mul(a[15]).spec_mul(b03),
    );
    let c3x5x10x15 = a[3].spec_mul(a[5]).spec_mul(a[10].spec_mul(a[15]));
    let c3x5x11x14 = a[3].spec_mul(a[5]).spec_mul(a[11].spec_mul(a[14]));
    let c3x6x9x15 = a[3].spec_mul(a[6]).spec_mul(a[9].spec_mul(a[15]));
    let c3x6x11x13 = a[3].spec_mul(a[6]).spec_mul(a[11].spec_mul(a[13]));
    let c3x7x9x14 = a[3].spec_mul(a[7]).spec_mul(a[9].spec_mul(a[14]));
    let c3x7x10x13 = a[3].spec_mul(a[7]).spec_mul(a[10].spec_mul(a[13]));
    let c2x7x9x15 = a[2].spec_mul(a[7]).spec_mul(a[9].spec_mul(a[15]));
    let c2x7x11x13 = a[2].spec_mul(a[7]).spec_mul(a[11].spec_mul(a[13]));
    let c1x7x10x15 = a[1].spec_mul(a[7]).spec_mul(a[10].spec_mul(a[15]));
    let c1x7x11x14 = a[1].spec_mul(a[7]).spec_mul(a[11].spec_mul(a[14]));
    let c1x6x11x15 = a[1].spec_mul(a[6]).spec_mul(a[11].spec_mul(a[15]));
    let c2x5x11x15 = a[2].spec_mul(a[5]).spec_mul(a[11].spec_mul(a[15]));
    lemma_distrib2(a[3].spec_mul(a[5]), a[10].spec_mul(a[15]), a[11].spec_mul(a[14]));
    lemma_distrib2(a[3].spec_mul(a[6]), a[9].spec_mul(a[15]), a[11].spec_mul(a[13]));
    lemma_distrib2(a[3].spec_mul(a[7]), a[9].spec_mul(a[14]), a[10].spec_mul(a[13]));
    lemma_distrib2(a[2].spec_mul(a[7]), a[9].spec_mul(a[15]), a[11].spec_mul(a[13]));
    lemma_distrib2(a[1].spec_mul(a[7]), a[10].spec_mul(a[15]), a[11].spec_mul(a[14]));
    lemma_distrib2(a[3].spec_mul(a[7]), a[9].spec_mul(a[14]), a[10].spec_mul(a[13]));
    lemma_distrib2(a[11].spec_mul(a[13]), a[2].spec_mul(a[7]), a[3].spec_mul(a[6]));
    lemma_distrib2(a[11].spec_mul(a[14]), a[1].spec_mul(a[7]), a[3].spec_mul(a[5]));
    lemma_distrib2(a[11].spec_mul(a[15]), a[1].spec_mul(a[6]), a[2].spec_mul(a[5]));
    lemma_distrib2(a[10].spec_mul(a[15]), a[1].spec_mul(a[7]), a[3].spec_mul(a[5]));
    lemma_distrib2(a[9].spec_mul(a[15]), a[2].spec_mul(a[7]), a[3].spec_mul(a[6]));
    lemma_distrib2(a[11].spec_mul(a[15]), a[1].spec_mul(a[6]), a[2].spec_mul(a[5]));
    lemma_mul_comm(a[11].spec_mul(a[13]), a[2].spec_mul(a[7]));
    lemma_mul_comm(a[11].spec_mul(a[13]), a[3].spec_mul(a[6]));
    lemma_mul_comm(a[11].spec_mul(a[14]), a[1].spec_mul(a[7]));
    lemma_mul_comm(a[11].spec_mul(a[14]), a[3].spec_mul(a[5]));
    lemma_mul_comm(a[11].spec_mul(a[15]), a[1].spec_mul(a[6]));
    lemma_mul_comm(a[11].spec_mul(a[15]), a[2].spec_mul(a[5]));
    lemma_mul_comm(a[10].spec_mul(a[15]), a[1].spec_mul(a[7]));
    lemma_mul_comm(a[10].spec_mul(a[15]), a[3].spec_mul(a[5]));
    lemma_mul_comm(a[9].spec_mul(a[15]), a[2].spec_mul(a[7]));
    lemma_mul_comm(a[9].spec_mul(a[15]), a[3].spec_mul(a[6]));
    lemma_append2_neg(
        c3x5x10x15.spec_sub(c3x5x11x14),
        c3x6x9x15,
        c3x6x11x13,
    );
    lemma_append2_pos(
        c3x5x10x15.spec_sub(c3x5x11x14).spec_sub(c3x6x9x15).spec_add(c3x6x11x13),
        c3x7x9x14,
        c3x7x10x13,
    );
    lemma_append2_pos(
        c3x5x10x15.spec_sub(c3x5x11x14).spec_sub(c3x6x9x15).spec_add(c3x6x11x13).spec_add(c3x7x9x14).spec_sub(c3x7x10x13),
        c2x7x9x15,
        c2x7x11x13,
    );
    lemma_append2_neg(
        c3x5x10x15.spec_sub(c3x5x11x14).spec_sub(c3x6x9x15).spec_add(c3x6x11x13).spec_add(c3x7x9x14).spec_sub(c3x7x10x13).spec_add(c2x7x9x15).spec_sub(c2x7x11x13),
        c1x7x10x15,
        c1x7x11x14,
    );
    lemma_append2_neg(
        c3x5x10x15.spec_sub(c3x5x11x14).spec_sub(c3x6x9x15).spec_add(c3x6x11x13).spec_add(c3x7x9x14).spec_sub(c3x7x10x13).spec_add(c2x7x9x15).spec_sub(c2x7x11x13).spec_sub(c1x7x10x15).spec_add(c1x7x11x14),
        c3x7x9x14,
        c3x7x10x13,
    );
    lemma_append2_pos(
        c3x5x10x15.spec_sub(c3x5x11x14).spec_sub(c3x6x9x15).spec_add(c3x6x11x13).spec_add(c3x7x9x14).spec_sub(c3x7x10x13).spec_add(c2x7x9x15).spec_sub(c2x7x11x13).spec_sub(c1x7x10x15).spec_add(c1x7x11x14).spec_sub(c3x7x9x14).spec_add(c3x7x10x13),
        c2x7x11x13,
        c3x6x11x13,
    );
    lemma_append2_neg(
        c3x5x10x15.spec_sub(c3x5x11x14).spec_sub(c3x6x9x15).spec_add(c3x6x11x13).spec_add(c3x7x9x14).spec_sub(c3x7x10x13).spec_add(c2x7x9x15).spec_sub(c2x7x11x13).spec_sub(c1x7x10x15).spec_add(c1x7x11x14).spec_sub(c3x7x9x14).spec_add(c3x7x10x13).spec_add(c2x7x11x13).spec_sub(c3x6x11x13),
        c1x7x11x14,
        c3x5x11x14,
    );
    lemma_append2_pos(
        c3x5x10x15.spec_sub(c3x5x11x14).spec_sub(c3x6x9x15).spec_add(c3x6x11x13).spec_add(c3x7x9x14).spec_sub(c3x7x10x13).spec_add(c2x7x9x15).spec_sub(c2x7x11x13).spec_sub(c1x7x10x15).spec_add(c1x7x11x14).spec_sub(c3x7x9x14).spec_add(c3x7x10x13).spec_add(c2x7x11x13).spec_sub(c3x6x11x13).spec_sub(c1x7x11x14).spec_add(c3x5x11x14),
        c1x6x11x15,
        c2x5x11x15,
    );
    lemma_append2_pos(
        c3x5x10x15.spec_sub(c3x5x11x14).spec_sub(c3x6x9x15).spec_add(c3x6x11x13).spec_add(c3x7x9x14).spec_sub(c3x7x10x13).spec_add(c2x7x9x15).spec_sub(c2x7x11x13).spec_sub(c1x7x10x15).spec_add(c1x7x11x14).spec_sub(c3x7x9x14).spec_add(c3x7x10x13).spec_add(c2x7x11x13).spec_sub(c3x6x11x13).spec_sub(c1x7x11x14).spec_add(c3x5x11x14).spec_add(c1x6x11x15).spec_sub(c2x5x11x15),
        c1x7x10x15,
        c3x5x10x15,
    );
    lemma_append2_neg(
        c3x5x10x15.spec_sub(c3x5x11x14).spec_sub(c3x6x9x15).spec_add(c3x6x11x13).spec_add(c3x7x9x14).spec_sub(c3x7x10x13).spec_add(c2x7x9x15).spec_sub(c2x7x11x13).spec_sub(c1x7x10x15).spec_add(c1x7x11x14).spec_sub(c3x7x9x14).spec_add(c3x7x10x13).spec_add(c2x7x11x13).spec_sub(c3x6x11x13).spec_sub(c1x7x11x14).spec_add(c3x5x11x14).spec_add(c1x6x11x15).spec_sub(c2x5x11x15).spec_add(c1x7x10x15).spec_sub(c3x5x10x15),
        c2x7x9x15,
        c3x6x9x15,
    );
    lemma_append2_neg(
        c3x5x10x15.spec_sub(c3x5x11x14).spec_sub(c3x6x9x15).spec_add(c3x6x11x13).spec_add(c3x7x9x14).spec_sub(c3x7x10x13).spec_add(c2x7x9x15).spec_sub(c2x7x11x13).spec_sub(c1x7x10x15).spec_add(c1x7x11x14).spec_sub(c3x7x9x14).spec_add(c3x7x10x13).spec_add(c2x7x11x13).spec_sub(c3x6x11x13).spec_sub(c1x7x11x14).spec_add(c3x5x11x14).spec_add(c1x6x11x15).spec_sub(c2x5x11x15).spec_add(c1x7x10x15).spec_sub(c3x5x10x15).spec_sub(c2x7x9x15).spec_add(c3x6x9x15),
        c1x6x11x15,
        c2x5x11x15,
    );
    lemma_inv_right_chain3(c3x5x10x15, c3x5x11x14, c3x6x9x15, c3x6x11x13, c3x7x9x14, c3x7x10x13, c2x7x9x15, c2x7x11x13, c1x7x10x15, c1x7x11x14, c1x6x11x15, c2x5x11x15);
    lemma_zero_mul(inv_d);
    assert(mul_seq(a, inv)[3] == T::spec_zero());
}

proof fn lemma_inv_right_chain4<T: Scalar>(p1: T, p2: T, p3: T, p4: T, p5: T, p6: T, p7: T, p8: T, p9: T, p10: T, p11: T, p12: T)
    requires
        laws_sealed::<T>(),
    ensures
        p1.spec_sub(p2).spec_sub(p3).spec_add(p4).spec_sub(p5).spec_add(p6).spec_add(p3).spec_sub(p4).spec_sub(p7).spec_add(p8).spec_add(p9).spec_sub(p10).spec_add(p5).spec_sub(p9).spec_sub(p11).spec_add(p12).spec_sub(p1).spec_add(p7).spec_add(p11).spec_sub(p12).spec_sub(p6).spec_add(p10).spec_add(p2).spec_sub(p8) == T::spec_zero(),
{
    lemma_swap_as(p1.spec_sub(p2).spec_sub(p3).spec_add(p4).spec_sub(p5).spec_add(p6).spec_add(p3).spec_sub(p4).spec_sub(p7).spec_add(p8).spec_add(p9).spec_sub(p10).spec_add(p5).spec_sub(p9).spec_sub(p11), p12, p1);
    lemma_swap_ss(p1.spec_sub(p2).spec_sub(p3).spec_add(p4).spec_sub(p5).spec_add(p6).spec_add(p3).spec_sub(p4).spec_sub(p7).spec_add(p8).spec_add(p9).spec_sub(p10).spec_add(p5).spec_sub(p9), p11, p1);
    lemma_swap_ss(p1.spec_sub(p2).spec_sub(p3).spec_add(p4).spec_sub(p5).spec_add(p6).spec_add(p3).spec_sub(p4).spec_sub(p7).spec_add(p8).spec_add(p9).spec_sub(p10).spec_add(p5), p9, p1);
    lemma_swap_as(p1.spec_sub(p2).spec_sub(p3).spec_add(p4).spec_sub(p5).spec_add(p6).spec_add(p3).spec_sub(p4).spec_sub(p7).spec_add(p8).spec_add(p9).spec_sub(p10), p5, p1);
    lemma_swap_ss(p1.spec_sub(p2).spec_sub(p3).spec_add(p4).spec_sub(p5).spec_add(p6).spec_add(p3).spec_sub(p4).spec_sub(p7).spec_add(p8).spec_add(p9), p10, p1);
    lemma_swap_as(p1.spec_sub(p2).spec_sub(p3).spec_add(p4).spec_sub(p5).spec_add(p6).spec_add(p3).spec_sub(p4).spec_sub(p7).spec_add(p8), p9, p1);
    lemma_swap_as(p1.spec_sub(p2).spec_sub(p3).spec_add(p4).spec_sub(p5).spec_add(p6).spec_add(p3).spec_sub(p4).spec_sub(p7), p8, p1);
    lemma_swap_ss(p1.spec_sub(p2).spec_sub(p3).spec_add(p4).spec_sub(p5).spec_add(p6).spec_add(p3).spec_sub(p4), p7, p1);
    lemma_swap_ss(p1.spec_sub(p2).spec_sub(p3).spec_add(p4).spec_sub(p5).spec_add(p6).spec_add(p3), p4, p1);
    lemma_swap_as(p1.spec_sub(p2).spec_sub(p3).spec_add(p4).spec_sub(p5).spec_add(p6), p3, p1);
    lemma_swap_as(p1.spec_sub(p2).spec_sub(p3).spec_add(p4).spec_sub(p5), p6, p1);
    lemma_swap_ss(p1.spec_sub(p2).spec_sub(p3).spec_add(p4), p5, p1);
    lemma_swap_as(p1.spec_sub(p2).spec_sub(p3), p4, p1);
    lemma_swap_ss(p1.spec_sub(p2), p3, p1);
    lemma_swap_ss(p1, p2, p1);
    lemma_swap_aa(p1.spec_sub(p1).spec_sub(p2).spec_sub(p3).spec_add(p4).spec_sub(p5).spec_add(p6).spec_add(p3).spec_sub(p4).spec_sub(p7).spec_add(p8).spec_add(p9).spec_sub(p10).spec_add(p5).spec_sub(p9).spec_sub(p11).spec_add(p12).spec_add(p7).spec_add(p11).spec_sub(p12).spec_sub(p6), p10, p2);
    lemma_swap_sa(p1.spec_sub(p1).spec_sub(p2).spec_sub(p3).spec_add(p4).spec_sub(p5).spec_add(p6).spec_add(p3).spec_sub(p4).spec_sub(p7).spec_add(p8).spec_add(p9).spec_sub(p10).spec_add(p5).spec_sub(p9).spec_sub(p11).spec_add(p12).spec_add(p7).spec_add(p11).spec_sub(p12), p6, p2);
    lemma_swap_sa(p1.spec_sub(p1).spec_sub(p2).spec_sub(p3).spec_add(p4).spec_sub(p5).spec_add(p6).spec_add(p3).spec_sub(p4).spec_sub(p7).spec_add(p8).spec_add(p9).spec_sub(p10).spec_add(p5).spec_sub(p9).spec_sub(p11).spec_add(p12).spec_add(p7).spec_add(p11), p12, p2);
    lemma_swap_aa(p1.spec_sub(p1).spec_sub(p2).spec_sub(p3).spec_add(p4).spec_sub(p5).spec_add(p6).spec_add(p3).spec_sub(p4).spec_sub(p7).spec_add(p8).spec_add(p9).spec_sub(p10).spec_add(p5).spec_sub(p9).spec_sub(p11).spec_add(p12).spec_add(p7), p11, p2);
    lemma_swap_aa(p1.spec_sub(p1).spec_sub(p2).spec_sub(p3).spec_add(p4).spec_sub(p5).spec_add(p6).spec_add(p3).spec_sub(p4).spec_sub(p7).spec_add(p8).spec_add(p9).spec_sub(p10).spec_add(p5).spec_sub(p9).spec_sub(p11).spec_add(p12), p7, p2);
    lemma_swap_aa(p1.spec_sub(p1).spec_sub(p2).spec_sub(p3).spec_add(p4).spec_sub(p5).spec_add(p6).spec_add(p3).spec_sub(p4).spec_sub(p7).spec_add(p8).spec_add(p9).spec_sub(p10).spec_add(p5).spec_sub(p9).spec_sub(p11), p12, p2);
    lemma_swap_sa(p1.spec_sub(p1).spec_sub(p2).spec_sub(p3).spec_add(p4).spec_sub(p5).spec_add(p6).spec_add(p3).spec_sub(p4).spec_sub(p7).spec_add(p8).spec_add(p9).spec_sub(p10).spec_add(p5).spec_sub(p9), p11, p2);
    lemma_swap_sa(p1.spec_sub(p1).spec_sub(p2).spec_sub(p3).spec_add(p4).spec_sub(p5).spec_add(p6).spec_add(p3).spec_sub(p4).spec_sub(p7).spec_add(p8).spec_add(p9).spec_sub(p10).spec_add(p5), p9, p2);
    lemma_swap_aa(p1.spec_sub(p1).spec_sub(p2).spec_sub(p3).spec_add(p4).spec_sub(p5).spec_add(p6).spec_add(p3).spec_sub(p4).spec_sub(p7).spec_add(p8).spec_add(p9).spec_sub(p10), p5, p2);
    lemma_swap_sa(p1.spec_sub(p1).spec_sub(p2).spec_sub(p3).spec_add(p4).spec_sub(p5).spec_add(p6).spec_add(p3).spec_sub(p4).spec_sub(p7).spec_add(p8).spec_add(p9), p10, p2);
    lemma_swap_aa(p1.spec_sub(p1).spec_sub(p2).spec_sub(p3).spec_add(p4).spec_sub(p5).spec_add(p6).spec_add(p3).spec_sub(p4).spec_sub(p7).spec_add(p8), p9, p2);
    lemma_swap_aa(p1.spec_sub(p1).spec_sub(p2).spec_sub(p3).spec_add(p4).spec_sub(p5).spec_add(p6).spec_add(p3).spec_sub(p4).spec_sub(p7), p8, p2);
    lemma_swap_sa(p1.spec_sub(p1).spec_sub(p2).spec_sub(p3).spec_add(p4).spec_sub(p5).spec_add(p6).spec_add(p3).spec_sub(p4), p7, p2);
    lemma_swap_sa(p1.spec_sub(p1).spec_sub(p2).spec_sub(p3).spec_add(p4).spec_sub(p5).spec_add(p6).spec_add(p3), p4, p2);
    lemma_swap_aa(p1.spec_sub(p1).spec_sub(p2).spec_sub(p3).spec_add(p4).spec_sub(p5).spec_add(p6), p3, p2);
    lemma_swap_aa(p1.spec_sub(p1).spec_sub(p2).spec_sub(p3).spec_add(p4).spec_sub(p5), p6, p2);
    lemma_swap_sa(p1.spec_sub(p1).spec_sub(p2).spec_sub(p3).spec_add(p4), p5, p2);
    lemma_swap_aa(p1.spec_sub(p1).spec_sub(p2).spec_sub(p3), p4, p2);
    lemma_swap_sa(p1.spec_sub(p1).spec_sub(p2), p3, p2);
    lemma_swap_sa(p1.spec_sub(p1), p2, p2);
    lemma_swap_aa(p1.spec_sub(p1).spec_add(p2).spec_sub(p2).spec_sub(p3).spec_add(p4).spec_sub(p5), p6, p3);
    lemma_swap_sa(p1.spec_sub(p1).spec_add(p2).spec_sub(p2).spec_sub(p3).spec_add(p4), p5, p3);
    lemma_swap_aa(p1.spec_sub(p1).spec_add(p2).spec_sub(p2).spec_sub(p3), p4, p3);
    lemma_swap_sa(p1.spec_sub(p1).spec_add(p2).spec_sub(p2), p3, p3);
    lemma_swap_as(p1.spec_sub(p1).spec_add(p2).spec_sub(p2).spec_add(p3).spec_sub(p3).spec_add(p4).spec_sub(p5), p6, p4);
    lemma_swap_ss(p1.spec_sub(p1).spec_add(p2).spec_sub(p2).spec_add(p3).spec_sub(p3).spec_add(p4), p5, p4);
    lemma_swap_sa(p1.spec_sub(p1).spec_add(p2).spec_sub(p2).spec_add(p3).spec_sub(p3).spec_add(p4).spec_sub(p4).spec_sub(p5).spec_add(p6).spec_sub(p7).spec_add(p8).spec_add(p9), p10, p5);
    lemma_swap_aa(p1.spec_sub(p1).spec_add(p2).spec_sub(p2).spec_add(p3).spec_sub(p3).spec_add(p4).spec_sub(p4).spec_sub(p5).spec_add(p6).spec_sub(p7).spec_add(p8), p9, p5);
    lemma_swap_aa(p1.spec_sub(p1).spec_add(p2).spec_sub(p2).spec_add(p3).spec_sub(p3).spec_add(p4).spec_sub(p4).spec_sub(p5).spec_add(p6).spec_sub(p7), p8, p5);
    lemma_swap_sa(p1.spec_sub(p1).spec_add(p2).spec_sub(p2).spec_add(p3).spec_sub(p3).spec_add(p4).spec_sub(p4).spec_sub(p5).spec_add(p6), p7, p5);
    lemma_swap_aa(p1.spec_sub(p1).spec_add(p2).spec_sub(p2).spec_add(p3).spec_sub(p3).spec_add(p4).spec_sub(p4).spec_sub(p5), p6, p5);
    lemma_swap_sa(p1.spec_sub(p1).spec_add(p2).spec_sub(p2).spec_add(p3).spec_sub(p3).spec_add(p4).spec_sub(p4), p5, p5);
    lemma_swap_ss(p1.spec_sub(p1).spec_add(p2).spec_sub(p2).spec_add(p3).spec_sub(p3).spec_add(p4).spec_sub(p4).spec_add(p5).spec_sub(p5).spec_add(p6).spec_sub(p7).spec_add(p8).spec_add(p9).spec_sub(p10).spec_sub(p9).spec_sub(p11).spec_add(p12).spec_add(p7).spec_add(p11), p12, p6);
    lemma_swap_as(p1.spec_sub(p1).spec_add(p2).spec_sub(p2).spec_add(p3).spec_sub(p3).spec_add(p4).spec_sub(p4).spec_add(p5).spec_sub(p5).spec_add(p6).spec_sub(p7).spec_add(p8).spec_add(p9).spec_sub(p10).spec_sub(p9).spec_sub(p11).spec_add(p12).spec_add(p7), p11, p6);
    lemma_swap_as(p1.spec_sub(p1).spec_add(p2).spec_sub(p2).spec_add(p3).spec_sub(p3).spec_add(p4).spec_sub(p4).spec_add(p5).spec_sub(p5).spec_add(p6).spec_sub(p7).spec_add(p8).spec_add(p9).spec_sub(p10).spec_sub(p9).spec_sub(p11).spec_add(p12), p7, p6);
    lemma_swap_as(p1.spec_sub(p1).spec_add(p2).spec_sub(p2).spec_add(p3).spec_sub(p3).spec_add(p4).spec_sub(p4).spec_add(p5).spec_sub(p5).spec_add(p6).spec_sub(p7).spec_add(p8).spec_add(p9).spec_sub(p10).spec_sub(p9).spec_sub(p11), p12, p6);
    lemma_swap_ss(p1.spec_sub(p1).spec_add(p2).spec_sub(p2).spec_add(p3).spec_sub(p3).spec_add(p4).spec_sub(p4).spec_add(p5).spec_sub(p5).spec_add(p6).spec_sub(p7).spec_add(p8).spec_add(p9).spec_sub(p10).spec_sub(p9), p11, p6);
    lemma_swap_ss(p1.spec_sub(p1).spec_add(p2).spec_sub(p2).spec_add(p3).spec_sub(p3).spec_add(p4).spec_sub(p4).spec_add(p5).spec_sub(p5).spec_add(p6).spec_sub(p7).spec_add(p8).spec_add(p9).spec_sub(p10), p9, p6);
    lemma_swap_ss(p1.spec_sub(p1).spec_add(p2).spec_sub(p2).spec_add(p3).spec_sub(p3).spec_add(p4).spec_sub(p4).spec_add(p5).spec_sub(p5).spec_add(p6).spec_sub(p7).spec_add(p8).spec_add(p9), p10, p6);
    lemma_swap_as(p1.spec_sub(p1).spec_add(p2).spec_sub(p2).spec_add(p3).spec_sub(p3).spec_add(p4).spec_sub(p4).spec_add(p5).spec_sub(p5).spec_add(p6).spec_sub(p7).spec_add(p8), p9, p6);
    lemma_swap_as(p1.spec_sub(p1).spec_add(p2).spec_sub(p2).spec_add(p3).spec_sub(p3).spec_add(p4).spec_sub(p4).spec_add(p5).spec_sub(p5).spec_add(p6).spec_sub(p7), p8, p6);
    lemma_swap_ss(p1.spec_sub(p1).spec_add(p2).spec_sub(p2).spec_add(p3).spec_sub(p3).spec_add(p4).spec_sub(p4).spec_add(p5).spec_sub(p5).spec_add(p6), p7, p6);
    lemma_swap_aa(p1.spec_sub(p1).spec_add(p2).spec_sub(p2).spec_add(p3).spec_sub(p3).spec_add(p4).spec_sub(p4).spec_add(p5).spec_sub(p5).spec_add(p6).spec_sub(p6).spec_sub(p7).spec_add(p8).spec_add(p9).spec_sub(p10).spec_sub(p9).spec_sub(p11), p12, p7);
    lemma_swap_sa(p1.spec_sub(p1).spec_add(p2).spec_sub(p2).spec_add(p3).spec_sub(p3).spec_add(p4).spec_sub(p4).spec_add(p5).spec_sub(p5).spec_add(p6).spec_sub(p6).spec_sub(p7).spec_add(p8).spec_add(p9).spec_sub(p10).spec_sub(p9), p11, p7);
    lemma_swap_sa(p1.spec_sub(p1).spec_add(p2).spec_sub(p2).spec_add(p3).spec_sub(p3).spec_add(p4).spec_sub(p4).spec_add(p5).spec_sub(p5).spec_add(p6).spec_sub(p6).spec_sub(p7).spec_add(p8).spec_add(p9).spec_sub(p10), p9, p7);
    lemma_swap_sa(p1.spec_sub(p1).spec_add(p2).spec_sub(p2).spec_add(p3).spec_sub(p3).spec_add(p4).spec_sub(p4).spec_add(p5).spec_sub(p5).spec_add(p6).spec_sub(p6).spec_sub(p7).spec_add(p8).spec_add(p9), p10, p7);
    lemma_swap_aa(p1.spec_sub(p1).spec_add(p2).spec_sub(p2).spec_add(p3).spec_sub(p3).spec_add(p4).spec_sub(p4).spec_add(p5).spec_sub(p5).spec_add(p6).spec_sub(p6).spec_sub(p7).spec_add(p8), p9, p7);
    lemma_swap_aa(p1.spec_sub(p1).spec_add(p2).spec_sub(p2).spec_add(p3).spec_sub(p3).spec_add(p4).spec_sub(p4).spec_add(p5).spec_sub(p5).spec_add(p6).spec_sub(p6).spec_sub(p7), p8, p7);
    lemma_swap_sa(p1.spec_sub(p1).spec_add(p2).spec_sub(p2).spec_add(p3).spec_sub(p3).spec_add(p4).spec_sub(p4).spec_add(p5).spec_sub(p5).spec_add(p6).spec_sub(p6), p7, p7);
    lemma_swap_as(p1.spec_sub(p1).spec_add(p2).spec_sub(p2).spec_add(p3).spec_sub(p3).spec_add(p4).spec_sub(p4).spec_add(p5).spec_sub(p5).spec_add(p6).spec_sub(p6).spec_add(p7).spec_sub(p7).spec_add(p8).spec_add(p9).spec_sub(p10).spec_sub(p9).spec_sub(p11).spec_add(p12).spec_add(p11).spec_sub(p12), p10, p8);
    lemma_swap_ss(p1.spec_sub(p1).spec_add(p2).spec_sub(p2).spec_add(p3).spec_sub(p3).spec_add(p4).spec_sub(p4).spec_add(p5).spec_sub(p5).spec_add(p6).spec_sub(p6).spec_add(p7).spec_sub(p7).spec_add(p8).spec_add(p9).spec_sub(p10).spec_sub(p9).spec_sub(p11).spec_add(p12).spec_add(p11), p12, p8);
    lemma_swap_as(p1.spec_sub(p1).spec_add(p2).spec_sub(p2).spec_add(p3).spec_sub(p3).spec_add(p4).spec_sub(p4).spec_add(p5).spec_sub(p5).spec_add(p6).spec_sub(p6).spec_add(p7).spec_sub(p7).spec_add(p8).spec_add(p9).spec_sub(p10).spec_sub(p9).spec_sub(p11).spec_add(p12), p11, p8);
    lemma_swap_as(p1.spec_sub(p1).spec_add(p2).spec_sub(p2).spec_add(p3).spec_sub(p3).spec_add(p4).spec_sub(p4).spec_add(p5).spec_sub(p5).spec_add(p6).spec_sub(p6).spec_add(p7).spec_sub(p7).spec_add(p8).spec_add(p9).spec_sub(p10).spec_sub(p9).spec_sub(p11), p12, p8);
    lemma_swap_ss(p1.spec_sub(p1).spec_add(p2).spec_sub(p2).spec_add(p3).spec_sub(p3).spec_add(p4).spec_sub(p4).spec_add(p5).spec_sub(p5).spec_add(p6).spec_sub(p6).spec_add(p7).spec_sub(p7).spec_add(p8).spec_add(p9).spec_sub(p10).spec_sub(p9), p11, p8);
    lemma_swap_ss(p1.spec_sub(p1).spec_add(p2).spec_sub(p2).spec_add(p3).spec_sub(p3).spec_add(p4).spec_sub(p4).spec_add(p5).spec_sub(p5).spec_add(p6).spec_sub(p6).spec_add(p7).spec_sub(p7).spec_add(p8).spec_add(p9).spec_sub(p10), p9, p8);
    lemma_swap_ss(p1.spec_sub(p1).spec_add(p2).spec_sub(p2).spec_add(p3).spec_sub(p3).spec_add(p4).spec_sub(p4).spec_add(p5).spec_sub(p5).spec_add(p6).spec_sub(p6).spec_add(p7).spec_sub(p7).spec_add(p8).spec_add(p9), p10, p8);
    lemma_swap_as(p1.spec_sub(p1).spec_add(p2).spec_sub(p2).spec_add(p3).spec_sub(p3).spec_add(p4).spec_sub(p4).spec_add(p5).spec_sub(p5).spec_add(p6).spec_sub(p6).spec_add(p7).spec_sub(p7).spec_add(p8), p9, p8);
    lemma_swap_ss(p1.spec_sub(p1).spec_add(p2).spec_sub(p2).spec_add(p3).spec_sub(p3).spec_add(p4).spec_sub(p4).spec_add(p5).spec_sub(p5).spec_add(p6).spec_sub(p6).spec_add(p7).spec_sub(p7).spec_add(p8).spec_sub(p8).spec_add(p9), p10, p9);
    lemma_swap_sa(p1.spec_sub(p1).spec_add(p2).spec_sub(p2).spec_add(p3).spec_sub(p3).spec_add(p4).spec_sub(p4).spec_add(p5).spec_sub(p5).spec_add(p6).spec_sub(p6).spec_add(p7).spec_sub(p7).spec_add(p8).spec_sub(p8).spec_add(p9).spec_sub(p9).spec_sub(p10).spec_sub(p11).spec_add(p12).spec_add(p11), p12, p10);
    lemma_swap_aa(p1.spec_sub(p1).spec_add(p2).spec_sub(p2).spec_add(p3).spec_sub(p3).spec_add(p4).spec_sub(p4).spec_add(p5).spec_sub(p5).spec_add(p6).spec_sub(p6).spec_add(p7).spec_sub(p7).spec_add(p8).spec_sub(p8).spec_add(p9).spec_sub(p9).spec_sub(p10).spec_sub(p11).spec_add(p12), p11, p10);
    lemma_swap_aa(p1.spec_sub(p1).spec_add(p2).spec_sub(p2).spec_add(p3).spec_sub(p3).spec_add(p4).spec_sub(p4).spec_add(p5).spec_sub(p5).spec_add(p6).spec_sub(p6).spec_add(p7).spec_sub(p7).spec_add(p8).spec_sub(p8).spec_add(p9).spec_sub(p9).spec_sub(p10).spec_sub(p11), p12, p10);
    lemma_swap_sa(p1.spec_sub(p1).spec_add(p2).spec_sub(p2).spec_add(p3).spec_sub(p3).spec_add(p4).spec_sub(p4).spec_add(p5).spec_sub(p5).spec_add(p6).spec_sub(p6).spec_add(p7).spec_sub(p7).spec_add(p8).spec_sub(p8).spec_add(p9).spec_sub(p9).spec_sub(p10), p11, p10);
    lemma_swap_sa(p1.spec_sub(p1).spec_add(p2).spec_sub(p2).spec_add(p3).spec_sub(p3).spec_add(p4).spec_sub(p4).spec_add(p5).spec_sub(p5).spec_add(p6).spec_sub(p6).spec_add(p7).spec_sub(p7).spec_add(p8).spec_sub(p8).spec_add(p9).spec_sub(p9), p10, p10);
    lemma_swap_aa(p1.spec_sub(p1).spec_add(p2).spec_sub(p2).spec_add(p3).spec_sub(p3).spec_add(p4).spec_sub(p4).spec_add(p5).spec_sub(p5).spec_add(p6).spec_sub(p6).spec_add(p7).spec_sub(p7).spec_add(p8).spec_sub(p8).spec_add(p9).spec_sub(p9).spec_add(p10).spec_sub(p10).spec_sub(p11), p12, p11);
    lemma_swap_sa(p1.spec_sub(p1).spec_add(p2).spec_sub(p2).spec_add(p3).spec_sub(p3).spec_add(p4).spec_sub(p4).spec_add(p5).spec_sub(p5).spec_add(p6).spec_sub(p6).spec_add(p7).spec_sub(p7).spec_add(p8).spec_sub(p8).spec_add(p9).spec_sub(p9).spec_add(p10).spec_sub(p10), p11, p11);
    lemma_self_cancel(p1);
    lemma_cancel_adj(p1.spec_sub(p1), p2);
    lemma_cancel_adj(p1.spec_sub(p1).spec_add(p2).spec_sub(p2), p3);
    lemma_cancel_adj(p1.spec_sub(p1).spec_add(p2).spec_sub(p2).spec_add(p3).spec_sub(p3), p4);
    lemma_cancel_adj(p1.spec_sub(p1).spec_add(p2).spec_sub(p2).spec_add(p3).spec_sub(p3).spec_add(p4).spec_sub(p4), p5);
    lemma_cancel_adj(p1.spec_sub(p1).spec_add(p2).spec_sub(p2).spec_add(p3).spec_sub(p3).spec_add(p4).spec_sub(p4).spec_add(p5).spec_sub(p5), p6);
    lemma_cancel_adj(p1.spec_sub(p1).spec_add(p2).spec_sub(p2).spec_add(p3).spec_sub(p3).spec_add(p4).spec_sub(p4).spec_add(p5).spec_sub(p5).spec_add(p6).spec_sub(p6), p7);
    lemma_cancel_adj(p1.spec_sub(p1).spec_add(p2).spec_sub(p2).spec_add(p3).spec_sub(p3).spec_add(p4).spec_sub(p4).spec_add(p5).spec_sub(p5).spec_add(p6).spec_sub(p6).spec_add(p7).spec_sub(p7), p8);
    lemma_cancel_adj(p1.spec_sub(p1).spec_add(p2).spec_sub(p2).spec_add(p3).spec_sub(p3).spec_add(p4).spec_sub(p4).spec_add(p5).spec_sub(p5).spec_add(p6).spec_sub(p6).spec_add(p7).spec_sub(p7).spec_add(p8).spec_sub(p8), p9);
    lemma_cancel_adj(p1.spec_sub(p1).spec_add(p2).spec_sub(p2).spec_add(p3).spec_sub(p3).spec_add(p4).spec_sub(p4).spec_add(p5).spec_sub(p5).spec_add(p6).spec_sub(p6).spec_add(p7).spec_sub(p7).spec_add(p8).spec_sub(p8).spec_add(p9).spec_sub(p9), p10);
    lemma_cancel_adj(p1.spec_sub(p1).spec_add(p2).spec_sub(p2).spec_add(p3).spec_sub(p3).spec_add(p4).spec_sub(p4).spec_add(p5).spec_sub(p5).spec_add(p6).spec_sub(p6).spec_add(p7).spec_sub(p7).spec_add(p8).spec_sub(p8).spec_add(p9).spec_sub(p9).spec_add(p10).spec_sub(p10), p11);
    lemma_cancel_adj(p1.spec_sub(p1).spec_add(p2).spec_sub(p2).spec_add(p3).spec_sub(p3).spec_add(p4).spec_sub(p4).spec_add(p5).spec_sub(p5).spec_add(p6).spec_sub(p6).spec_add(p7).spec_sub(p7).spec_add(p8).spec_sub(p8).spec_add(p9).spec_sub(p9).spec_add(p10).spec_sub(p10).spec_add(p11).spec_sub(p11), p12);
}

pub(crate) proof fn lemma_inv_right_entry4<T: Scalar>(a: Seq<T>)
    requires
        a.len() == 16,
        field_sealed::<T>(),
        !det_seq(a).spec_is_zero(),
    ensures
        mul_seq(a, inverse_seq(a))[4] == T::spec_zero(),
{
    lemma_field_gives_ring::<T>();
    let inv = inverse_seq(a);
    let inv_d = T::spec_one().spec_div(det_seq(a));
    let b00 = minor2(a, 0, 5, 1, 4);
    let b01 = minor2(a, 0, 6, 2, 4);
    let b02 = minor2(a, 0, 7, 3, 4);
    let b03 = minor2(a, 1, 6, 2, 5);
    let b04 = minor2(a, 1, 7, 3, 5);
    let b05 = minor2(a, 2, 7, 3, 6);
    let b06 = minor2(a, 8, 13, 9, 12);
    let b07 = minor2(a, 8, 14, 10, 12);
    let b08 = minor2(a, 8, 15, 11, 12);
    let b09 = minor2(a, 9, 14, 10, 13);
    let b10 = minor2(a, 9, 15, 11, 13);
    let b11 = minor2(a, 10, 15, 11, 14);
    assert(mul_seq(a, inv)[4] == inv[4].spec_mul(a[0]).spec_add(inv[5].spec_mul(a[4])).spec_add(inv[6].spec_mul(a[8])).spec_add(inv[7].spec_mul(a[12])));
    assert(inv[4] == a[6].spec_mul(b08).spec_sub(a[4].spec_mul(b11)).spec_sub(a[7].spec_mul(b07)).spec_mul(inv_d));
    assert(inv[5] == a[0].spec_mul(b11).spec_sub(a[2].spec_mul(b08)).spec_add(a[3].spec_mul(b07)).spec_mul(inv_d));
    assert(inv[6] == a[14].spec_mul(b02).spec_sub(a[12].spec_mul(b05)).spec_sub(a[15].spec_mul(b01)).spec_mul(inv_d));
    assert(inv[7] == a[8].spec_mul(b05).spec_sub(a[10].spec_mul(b02)).spec_add(a[11].spec_mul(b01)).spec_mul(inv_d));
    lemma_mul_comm(a[6].spec_mul(b08).spec_sub(a[4].spec_mul(b11)).spec_sub(a[7].spec_mul(b07)).spec_mul(inv_d), a[0]);
    lemma_mul_comm(a[0].spec_mul(b11).spec_sub(a[2].spec_mul(b08)).spec_add(a[3].spec_mul(b07)).spec_mul(inv_d), a[4]);
    lemma_mul_comm(a[14].spec_mul(b02).spec_sub(a[12].spec_mul(b05)).spec_sub(a[15].spec_mul(b01)).spec_mul(inv_d), a[8]);
    lemma_mul_comm(a[8].spec_mul(b05).spec_sub(a[10].spec_mul(b02)).spec_add(a[11].spec_mul(b01)).spec_mul(inv_d), a[12]);
    lemma_mul_assoc(a[0], a[6].spec_mul(b08).spec_sub(a[4].spec_mul(b11)).spec_sub(a[7].spec_mul(b07)), inv_d);
    lemma_mul_assoc(a[4], a[0].spec_mul(b11).spec_sub(a[2].spec_mul(b08)).spec_add(a[3].spec_mul(b07)), inv_d);
    lemma_mul_assoc(a[8], a[14].spec_mul(b02).spec_sub(a[12].spec_mul(b05)).spec_sub(a[15].spec_mul(b01)), inv_d);
    lemma_mul_assoc(a[12], a[8].spec_mul(b05).spec_sub(a[10].spec_mul(b02)).spec_add(a[11].spec_mul(b01)), inv_d);
    lemma_factor4(
        a[0].spec_mul(a[6].spec_mul(b08).spec_sub(a[4].spec_mul(b11)).spec_sub(a[7].spec_mul(b07))),
        a[4].spec_mul(a[0].spec_mul(b11).spec_sub(a[2].spec_mul(b08)).spec_add(a[3].spec_mul(b07))),
        a[8].spec_mul(a[14].spec_mul(b02).spec_sub(a[12].spec_mul(b05)).spec_sub(a[15].spec_mul(b01))),
        a[12].spec_mul(a[8].spec_mul(b05).spec_sub(a[10].spec_mul(b02)).spec_add(a[11].spec_mul(b01))),
        inv_d,
    );
    lemma_distrib3_pmm(a[0], a[6].spec_mul(b08), a[4].spec_mul(b11), a[7].spec_mul(b07));
    lemma_mul_assoc(a[0], a[6], b08);
    lemma_mul_assoc(a[0], a[4], b11);
    lemma_mul_assoc(a[0], a[7], b07);
    lemma_distrib3_pmp(a[4], a[0].spec_mul(b11), a[2].spec_mul(b08), a[3].spec_mul(b07));
    lemma_mul_assoc(a[4], a[0], b11);
    lemma_mul_comm(a[4], a[0]);
    lemma_mul_assoc(a[4], a[2], b08);
    lemma_mul_comm(a[4], a[2]);
    lemma_mul_assoc(a[4], a[3], b07);
    lemma_mul_comm(a[4], a[3]);
    lemma_distrib3_pmm(a[8], a[14].spec_mul(b02), a[12].spec_mul(b05), a[15].spec_mul(b01));
    lemma_mul_assoc(a[8], a[14], b02);
    lemma_mul_assoc(a[8], a[12], b05);
    lemma_mul_assoc(a[8], a[15], b01);
    lemma_distrib3_pmp(a[12], a[8].spec_mul(b05), a[10].spec_mul(b02), a[11].spec_mul(b01));
    lemma_mul_assoc(a[12], a[8], b05);
    lemma_mul_comm(a[12], a[8]);
    lemma_mul_assoc(a[12], a[10], b02);
    lemma_mul_comm(a[12], a[10]);
    lemma_mul_assoc(a[12], a[11], b01);
    lemma_mul_comm(a[12], a[11]);
    lemma_append3_pmp(
        a[0].spec_mul(a[6]).spec_mul(b08).spec_sub(a[0].spec_mul(a[4]).spec_mul(b11)).spec_sub(a[0].spec_mul(a[7]).spec_mul(b07)),
        a[0].spec_mul(a[4]).spec_mul(b11),
        a[2].spec_mul(a[4]).spec_mul(b08),
        a[3].spec_mul(a[4]).spec_mul(b07),
    );
    lemma_append3_pmm(
        a[0].spec_mul(a[6]).spec_mul(b08).spec_sub(a[0].spec_mul(a[4]).spec_mul(b11)).spec_sub(a[0].spec_mul(a[7]).spec_mul(b07)).spec_add(a[0].spec_mul(a[4]).spec_mul(b11)).spec_sub(a[2].spec_mul(a[4]).spec_mul(b08)).spec_add(a[3].spec_mul(a[4]).spec_mul(b07)),
        a[8].spec_mul(a[14]).spec_mul(b02),
        a[8].spec_mul(a[12]).spec_mul(b05),
        a[8].spec_mul(a[15]).spec_mul(b01),
    );
    lemma_append3_pmp(
        a[0].spec_mul(a[6]).spec_mul(b08).spec_sub(a[0].spec_mul(a[4]).spec_mul(b11)).spec_sub(a[0].spec_mul(a[7]).spec_mul(b07)).spec_add(a[0].spec_mul(a[4]).spec_mul(b11)).spec_sub(a[2].spec_mul(a[4]).spec_mul(b08)).spec_add(a[3].spec_mul(a[4]).spec_mul(b07)).spec_add(a[8].spec_mul(a[14]).spec_mul(b02)).spec_sub(a[8].spec_mul(a[12]).spec_mul(b05)).spec_sub(a[8].spec_mul(a[15]).spec_mul(b01)),
        a[8].spec_mul(a[12]).spec_mul(b05),
        a[10].spec_mul(a[12]).spec_mul(b02),
        a[11].spec_mul(a[12]).spec_mul(b01),
    );
    let c0x6x8x15 = a[0].spec_mul(a[6]).spec_mul(a[8].spec_mul(a[15]));
    let c0x6x11x12 = a[0].spec_mul(a[6]).spec_mul(a[11].spec_mul(a[12]));
    let c0x4x10x15 = a[0].spec_mul(a[4]).spec_mul(a[10].spec_mul(a[15]));
    let c0x4x11x14 = a[0].spec_mul(a[4]).spec_mul(a[11].spec_mul(a[14]));
    let c0x7x8x14 = a[0].spec_mul(a[7]).spec_mul(a[8].spec_mul(a[14]));
    let c0x7x10x12 = a[0].spec_mul(a[7]).spec_mul(a[10].spec_mul(a[12]));
    let c2x4x8x15 = a[2].spec_mul(a[4]).spec_mul(a[8].spec_mul(a[15]));
    let c2x4x11x12 = a[2].spec_mul(a[4]).spec_mul(a[11].spec_mul(a[12]));
    let c3x4x8x14 = a[3].spec_mul(a[4]).spec_mul(a[8].spec_mul(a[14]));
    let c3x4x10x12 = a[3].spec_mul(a[4]).spec_mul(a[10].spec_mul(a[12]));
    let c2x7x8x12 = a[2].spec_mul(a[7]).spec_mul(a[8].spec_mul(a[12]));
    let c3x6x8x12 = a[3].spec_mul(a[6]).spec_mul(a[8].spec_mul(a[12]));
    lemma_distrib2(a[0].spec_mul(a[6]), a[8].spec_mul(a[15]), a[11].spec_mul(a[12]));
    lemma_distrib2(a[0].spec_mul(a[4]), a[10].spec_mul(a[15]), a[11].spec_mul(a[14]));
    lemma_distrib2(a[0].spec_mul(a[7]), a[8].spec_mul(a[14]), a[10].spec_mul(a[12]));
    lemma_distrib2(a[0].spec_mul(a[4]), a[10].spec_mul(a[15]), a[11].spec_mul(a[14]));
    lemma_distrib2(a[2].spec_mul(a[4]), a[8].spec_mul(a[15]), a[11].spec_mul(a[12]));
    lemma_distrib2(a[3].spec_mul(a[4]), a[8].spec_mul(a[14]), a[10].spec_mul(a[12]));
    lemma_distrib2(a[8].spec_mul(a[14]), a[0].spec_mul(a[7]), a[3].spec_mul(a[4]));
    lemma_distrib2(a[8].spec_mul(a[12]), a[2].spec_mul(a[7]), a[3].spec_mul(a[6]));
    lemma_distrib2(a[8].spec_mul(a[15]), a[0].spec_mul(a[6]), a[2].spec_mul(a[4]));
    lemma_distrib2(a[8].spec_mul(a[12]), a[2].spec_mul(a[7]), a[3].spec_mul(a[6]));
    lemma_distrib2(a[10].spec_mul(a[12]), a[0].spec_mul(a[7]), a[3].spec_mul(a[4]));
    lemma_distrib2(a[11].spec_mul(a[12]), a[0].spec_mul(a[6]), a[2].spec_mul(a[4]));
    lemma_mul_comm(a[8].spec_mul(a[14]), a[0].spec_mul(a[7]));
    lemma_mul_comm(a[8].spec_mul(a[14]), a[3].spec_mul(a[4]));
    lemma_mul_comm(a[8].spec_mul(a[12]), a[2].spec_mul(a[7]));
    lemma_mul_comm(a[8].spec_mul(a[12]), a[3].spec_mul(a[6]));
    lemma_mul_comm(a[8].spec_mul(a[15]), a[0].spec_mul(a[6]));
    lemma_mul_comm(a[8].spec_mul(a[15]), a[2].spec_mul(a[4]));
    lemma_mul_comm(a[10].spec_mul(a[12]), a[0].spec_mul(a[7]));
    lemma_mul_comm(a[10].spec_mul(a[12]), a[3].spec_mul(a[4]));
    lemma_mul_comm(a[11].spec_mul(a[12]), a[0].spec_mul(a[6]));
    lemma_mul_comm(a[11].spec_mul(a[12]), a[2].spec_mul(a[4]));
    lemma_append2_neg(
        c0x6x8x15.spec_sub(c0x6x11x12),
        c0x4x10x15,
        c0x4x11x14,
    );
    lemma_append2_neg(
        c0x6x8x15.spec_sub(c0x6x11x12).spec_sub(c0x4x10x15).spec_add(c0x4x11x14),
        c0x7x8x14,
        c0x7x10x12,
    );
    lemma_append2_pos(
        c0x6x8x15.spec_sub(c0x6x11x12).spec_sub(c0x4x10x15).spec_add(c0x4x11x14).spec_sub(c0x7x8x14).spec_add(c0x7x10x12),
        c0x4x10x15,
        c0x4x11x14,
    );
    lemma_append2_neg(
        c0x6x8x15.spec_sub(c0x6x11x12).spec_sub(c0x4x10x15).spec_add(c0x4x11x14).spec_sub(c0x7x8x14).spec_add(c0x7x10x12).spec_add(c0x4x10x15).spec_sub(c0x4x11x14),
        c2x4x8x15,
        c2x4x11x12,
    );
    lemma_append2_pos(
        c0x6x8x15.spec_sub(c0x6x11x12).spec_sub(c0x4x10x15).spec_add(c0x4x11x14).spec_sub(c0x7x8x14).spec_add(c0x7x10x12).spec_add(c0x4x10x15).spec_sub(c0x4x11x14).spec_sub(c2x4x8x15).spec_add(c2x4x11x12),
        c3x4x8x14,
        c3x4x10x12,
    );
    lemma_append2_pos(
        c0x6x8x15.spec_sub(c0x6x11x12).spec_sub(c0x4x10x15).spec_add(c0x4x11x14).spec_sub(c0x7x8x14).spec_add(c0x7x10x12).spec_add(c0x4x10x15).spec_sub(c0x4x11x14).spec_sub(c2x4x8x15).spec_add(c2x4x11x12).spec_add(c3x4x8x14).spec_sub(c3x4x10x12),
        c0x7x8x14,
        c3x4x8x14,
    );
    lemma_append2_neg(
        c0x6x8x15.spec_sub(c0x6x11x12).spec_sub(c0x4x10x15).spec_add(c0x4x11x14).spec_sub(c0x7x8x14).spec_add(c0x7x10x12).spec_add(c0x4x10x15).spec_sub(c0x4x11x14).spec_sub(c2x4x8x15).spec_add(c2x4x11x12).spec_add(c3x4x8x14).spec_sub(c3x4x10x12).spec_add(c0x7x8x14).spec_sub(c3x4x8x14),
        c2x7x8x12,
        c3x6x8x12,
    );
    lemma_append2_neg(
        c0x6x8x15.spec_sub(c0x6x11x12).spec_sub(c0x4x10x15).spec_add(c0x4x11x14).spec_sub(c0x7x8x14).spec_add(c0x7x10x12).spec_add(c0x4x10x15).spec_sub(c0x4x11x14).spec_sub(c2x4x8x15).spec_add(c2x4x11x12).spec_add(c3x4x8x14).spec_sub(c3x4x10x12).spec_add(c0x7x8x14).spec_sub(c3x4x8x14).spec_sub(c2x7x8x12).spec_add(c3x6x8x12),
        c0x6x8x15,
        c2x4x8x15,
    );
    lemma_append2_pos(
        c0x6x8x15.spec_sub(c0x6x11x12).spec_sub(c0x4x10x15).spec_add(c0x4x11x14).spec_sub(c0x7x8x14).spec_add(c0x7x10x12).spec_add(c0x4x10x15).spec_sub(c0x4x11x14).spec_sub(c2x4x8x15).spec_add(c2x4x11x12).spec_add(c3x4x8x14).spec_sub(c3x4x10x12).spec_add(c0x7x8x14).spec_sub(c3x4x8x14).spec_sub(c2x7x8x12).spec_add(c3x6x8x12).spec_sub(c0x6x8x15).spec_add(c2x4x8x15),
        c2x7x8x12,
        c3x6x8x12,
    );
    lemma_append2_neg(
        c0x6x8x15.spec_sub(c0x6x11x12).spec_sub(c0x4x10x15).spec_add(c0x4x11x14).spec_sub(c0x7x8x14).spec_add(c0x7x10x12).spec_add(c0x4x10x15).spec_sub(c0x4x11x14).spec_sub(c2x4x8x15).spec_add(c2x4x11x12).spec_add(c3x4x8x14).spec_sub(c3x4x10x12).spec_add(c0x7x8x14).spec_sub(c3x4x8x14).spec_sub(c2x7x8x12).spec_add(c3x6x8x12).spec_sub(c0x6x8x15).spec_add(c2x4x8x15).spec_add(c2x7x8x12).spec_sub(c3x6x8x12),
        c0x7x10x12,
        c3x4x10x12,
    );
    lemma_append2_pos(
        c0x6x8x15.spec_sub(c0x6x11x12).spec_sub(c0x4x10x15).spec_add(c0x4x11x14).spec_sub(c0x7x8x14).spec_add(c0x7x10x12).spec_add(c0x4x10x15).spec_sub(c0x4x11x14).spec_sub(c2x4x8x15).spec_add(c2x4x11x12).spec_add(c3x4x8x14).spec_sub(c3x4x10x12).spec_add(c0x7x8x14).spec_sub(c3x4x8x14).spec_sub(c2x7x8x12).spec_add(c3x6x8x12).spec_sub(c0x6x8x15).spec_add(c2x4x8x15).spec_add(c2x7x8x12).spec_sub(c3x6x8x12).spec_sub(c0x7x10x12).spec_add(c3x4x10x12),
        c0x6x11x12,
        c2x4x11x12,
    );
    lemma_inv_right_chain4(c0x6x8x15, c0x6x11x12, c0x4x10x15, c0x4x11x14, c0x7x8x14, c0x7x10x12, c2x4x8x15, c2x4x11x12, c3x4x8x14, c3x4x10x12, c2x7x8x12, c3x6x8x12);
    lemma_zero_mul(inv_d);
    assert(mul_seq(a, inv)[4] == T::spec_zero());
}

proof fn lemma_inv_right_chain5<T: Scalar>(p1: T, p2: T, p3: T, p4: T, p5: T, p6: T, p7: T, p8: T, p9: T, p10: T, p11: T, p12: T)
    requires
        laws_sealed::<T>(),
    ensures
        p1.spec_sub(p2).spec_sub(p3).spec_add(p4).spec_sub(p5).spec_add(p6).spec_add(p7).spec_sub(p8).spec_sub(p9).spec_add(p10).spec_sub(p11).spec_add(p12) == p4.spec_sub(p2).spec_sub(p9).spec_add(p12).spec_add(p7).spec_sub(p11).spec_add(p1).spec_sub(p5).spec_sub(p3).spec_add(p6).spec_add(p10).spec_sub(p8),
{
    lemma_swap_sa(p1.spec_sub(p2), p3, p4);
    lemma_swap_sa(p1, p2, p4);
    lemma_add_comm(p1, p4);
    lemma_swap_as(p4, p1, p2);
    lemma_swap_ss(p4.spec_sub(p2).spec_add(p1).spec_sub(p3).spec_sub(p5).spec_add(p6).spec_add(p7), p8, p9);
    lemma_swap_as(p4.spec_sub(p2).spec_add(p1).spec_sub(p3).spec_sub(p5).spec_add(p6), p7, p9);
    lemma_swap_as(p4.spec_sub(p2).spec_add(p1).spec_sub(p3).spec_sub(p5), p6, p9);
    lemma_swap_ss(p4.spec_sub(p2).spec_add(p1).spec_sub(p3), p5, p9);
    lemma_swap_ss(p4.spec_sub(p2).spec_add(p1), p3, p9);
    lemma_swap_as(p4.spec_sub(p2), p1, p9);
    lemma_swap_sa(p4.spec_sub(p2).spec_sub(p9).spec_add(p1).spec_sub(p3).spec_sub(p5).spec_add(p6).spec_add(p7).spec_sub(p8).spec_add(p10), p11, p12);
    lemma_swap_aa(p4.spec_sub(p2).spec_sub(p9).spec_add(p1).spec_sub(p3).spec_sub(p5).spec_add(p6).spec_add(p7).spec_sub(p8), p10, p12);
    lemma_swap_sa(p4.spec_sub(p2).spec_sub(p9).spec_add(p1).spec_sub(p3).spec_sub(p5).spec_add(p6).spec_add(p7), p8, p12);
    lemma_swap_aa(p4.spec_sub(p2).spec_sub(p9).spec_add(p1).spec_sub(p3).spec_sub(p5).spec_add(p6), p7, p12);
    lemma_swap_aa(p4.spec_sub(p2).spec_sub(p9).spec_add(p1).spec_sub(p3).spec_sub(p5), p6, p12);
    lemma_swap_sa(p4.spec_sub(p2).spec_sub(p9).spec_add(p1).spec_sub(p3), p5, p12);
    lemma_swap_sa(p4.spec_sub(p2).spec_sub(p9).spec_add(p1), p3, p12);
    lemma_swap_aa(p4.spec_sub(p2).spec_sub(p9), p1, p12);
    lemma_swap_aa(p4.spec_sub(p2).spec_sub(p9).spec_add(p12).spec_add(p1).spec_sub(p3).spec_sub(p5), p6, p7);
    lemma_swap_sa(p4.spec_sub(p2).spec_sub(p9).spec_add(p12).spec_add(p1).spec_sub(p3), p5, p7);
    lemma_swap_sa(p4.spec_sub(p2).spec_sub(p9).spec_add(p12).spec_add(p1), p3, p7);
    lemma_swap_aa(p4.spec_sub(p2).spec_sub(p9).spec_add(p12), p1, p7);
    lemma_swap_as(p4.spec_sub(p2).spec_sub(p9).spec_add(p12).spec_add(p7).spec_add(p1).spec_sub(p3).spec_sub(p5).spec_add(p6).spec_sub(p8), p10, p11);
    lemma_swap_ss(p4.spec_sub(p2).spec_sub(p9).spec_add(p12).spec_add(p7).spec_add(p1).spec_sub(p3).spec_sub(p5).spec_add(p6), p8, p11);
    lemma_swap_as(p4.spec_sub(p2).spec_sub(p9).spec_add(p12).spec_add(p7).spec_add(p1).spec_sub(p3).spec_sub(p5), p6, p11);
    lemma_swap_ss(p4.spec_sub(p2).spec_sub(p9).spec_add(p12).spec_add(p7).spec_add(p1).spec_sub(p3), p5, p11);
    lemma_swap_ss(p4.spec_sub(p2).spec_sub(p9).spec_add(p12).spec_add(p7).spec_add(p1), p3, p11);
    lemma_swap_as(p4.spec_sub(p2).spec_sub(p9).spec_add(p12).spec_add(p7), p1, p11);
    lemma_swap_ss(p4.spec_sub(p2).spec_sub(p9).spec_add(p12).spec_add(p7).spec_sub(p11).spec_add(p1), p3, p5);
    lemma_swap_sa(p4.spec_sub(p2).spec_sub(p9).spec_add(p12).spec_add(p7).spec_sub(p11).spec_add(p1).spec_sub(p5).spec_sub(p3).spec_add(p6), p8, p10);
}

pub(crate) proof fn lemma_inv_right_entry5<T: Scalar>(a: Seq<T>)
    requires
        a.len() == 16,
        field_sealed::<T>(),
        !det_seq(a).spec_is_zero(),
    ensures
        mul_seq(a, inverse_seq(a))[5] == T::spec_one(),
{
    lemma_field_gives_ring::<T>();
    let inv = inverse_seq(a);
    let inv_d = T::spec_one().spec_div(det_seq(a));
    let b00 = minor2(a, 0, 5, 1, 4);
    let b01 = minor2(a, 0, 6, 2, 4);
    let b02 = minor2(a, 0, 7, 3, 4);
    let b03 = minor2(a, 1, 6, 2, 5);
    let b04 = minor2(a, 1, 7, 3, 5);
    let b05 = minor2(a, 2, 7, 3, 6);
    let b06 = minor2(a, 8, 13, 9, 12);
    let b07 = minor2(a, 8, 14, 10, 12);
    let b08 = minor2(a, 8, 15, 11, 12);
    let b09 = minor2(a, 9, 14, 10, 13);
    let b10 = minor2(a, 9, 15, 11, 13);
    let b11 = minor2(a, 10, 15, 11, 14);
    assert(mul_seq(a, inv)[5] == inv[4].spec_mul(a[1]).spec_add(inv[5].spec_mul(a[5])).spec_add(inv[6].spec_mul(a[9])).spec_add(inv[7].spec_mul(a[13])));
    assert(inv[4] == a[6].spec_mul(b08).spec_sub(a[4].spec_mul(b11)).spec_sub(a[7].spec_mul(b07)).spec_mul(inv_d));
    assert(inv[5] == a[0].spec_mul(b11).spec_sub(a[2].spec_mul(b08)).spec_add(a[3].spec_mul(b07)).spec_mul(inv_d));
    assert(inv[6] == a[14].spec_mul(b02).spec_sub(a[12].spec_mul(b05)).spec_sub(a[15].spec_mul(b01)).spec_mul(inv_d));
    assert(inv[7] == a[8].spec_mul(b05).spec_sub(a[10].spec_mul(b02)).spec_add(a[11].spec_mul(b01)).spec_mul(inv_d));
    lemma_mul_comm(a[6].spec_mul(b08).spec_sub(a[4].spec_mul(b11)).spec_sub(a[7].spec_mul(b07)).spec_mul(inv_d), a[1]);
    lemma_mul_comm(a[0].spec_mul(b11).spec_sub(a[2].spec_mul(b08)).spec_add(a[3].spec_mul(b07)).spec_mul(inv_d), a[5]);
    lemma_mul_comm(a[14].spec_mul(b02).spec_sub(a[12].spec_mul(b05)).spec_sub(a[15].spec_mul(b01)).spec_mul(inv_d), a[9]);
    lemma_mul_comm(a[8].spec_mul(b05).spec_sub(a[10].spec_mul(b02)).spec_add(a[11].spec_mul(b01)).spec_mul(inv_d), a[13]);
    lemma_mul_assoc(a[1], a[6].spec_mul(b08).spec_sub(a[4].spec_mul(b11)).spec_sub(a[7].spec_mul(b07)), inv_d);
    lemma_mul_assoc(a[5], a[0].spec_mul(b11).spec_sub(a[2].spec_mul(b08)).spec_add(a[3].spec_mul(b07)), inv_d);
    lemma_mul_assoc(a[9], a[14].spec_mul(b02).spec_sub(a[12].spec_mul(b05)).spec_sub(a[15].spec_mul(b01)), inv_d);
    lemma_mul_assoc(a[13], a[8].spec_mul(b05).spec_sub(a[10].spec_mul(b02)).spec_add(a[11].spec_mul(b01)), inv_d);
    lemma_factor4(
        a[1].spec_mul(a[6].spec_mul(b08).spec_sub(a[4].spec_mul(b11)).spec_sub(a[7].spec_mul(b07))),
        a[5].spec_mul(a[0].spec_mul(b11).spec_sub(a[2].spec_mul(b08)).spec_add(a[3].spec_mul(b07))),
        a[9].spec_mul(a[14].spec_mul(b02).spec_sub(a[12].spec_mul(b05)).spec_sub(a[15].spec_mul(b01))),
        a[13].spec_mul(a[8].spec_mul(b05).spec_sub(a[10].spec_mul(b02)).spec_add(a[11].spec_mul(b01))),
        inv_d,
    );
    lemma_distrib3_pmm(a[1], a[6].spec_mul(b08), a[4].spec_mul(b11), a[7].spec_mul(b07));
    lemma_mul_assoc(a[1], a[6], b08);
    lemma_mul_assoc(a[1], a[4], b11);
    lemma_mul_assoc(a[1], a[7], b07);
    lemma_distrib3_pmp(a[5], a[0].spec_mul(b11), a[2].spec_mul(b08), a[3].spec_mul(b07));
    lemma_mul_assoc(a[5], a[0], b11);
    lemma_mul_comm(a[5], a[0]);
    lemma_mul_assoc(a[5], a[2], b08);
    lemma_mul_comm(a[5], a[2]);
    lemma_mul_assoc(a[5], a[3], b07);
    lemma_mul_comm(a[5], a[3]);
    lemma_distrib3_pmm(a[9], a[14].spec_mul(b02), a[12].spec_mul(b05), a[15].spec_mul(b01));
    lemma_mul_assoc(a[9], a[14], b02);
    lemma_mul_assoc(a[9], a[12], b05);
    lemma_mul_assoc(a[9], a[15], b01);
    lemma_distrib3_pmp(a[13], a[8].spec_mul(b05), a[10].spec_mul(b02), a[11].spec_mul(b01));
    lemma_mul_assoc(a[13], a[8], b05);
    lemma_mul_comm(a[13], a[8]);
    lemma_mul_assoc(a[13], a[10], b02);
    lemma_mul_comm(a[13], a[10]);
    lemma_mul_assoc(a[13], a[11], b01);
    lemma_mul_comm(a[13], a[11]);
    lemma_append3_pmp(
        a[1].spec_mul(a[6]).spec_mul(b08).spec_sub(a[1].spec_mul(a[4]).spec_mul(b11)).spec_sub(a[1].spec_mul(a[7]).spec_mul(b07)),
        a[0].spec_mul(a[5]).spec_mul(b11),
        a[2].spec_mul(a[5]).spec_mul(b08),
        a[3].spec_mul(a[5]).spec_mul(b07),
    );
    lemma_append3_pmm(
        a[1].spec_mul(a[6]).spec_mul(b08).spec_sub(a[1].spec_mul(a[4]).spec_mul(b11)).spec_sub(a[1].spec_mul(a[7]).spec_mul(b07)).spec_add(a[0].spec_mul(a[5]).spec_mul(b11)).spec_sub(a[2].spec_mul(a[5]).spec_mul(b08)).spec_add(a[3].spec_mul(a[5]).spec_mul(b07)),
        a[9].spec_mul(a[14]).spec_mul(b02),
        a[9].spec_mul(a[12]).spec_mul(b05),
        a[9].spec_mul(a[15]).spec_mul(b01),
    );
    lemma_append3_pmp(
        a[1].spec_mul(a[6]).spec_mul(b08).spec_sub(a[1].spec_mul(a[4]).spec_mul(b11)).spec_sub(a[1].spec_mul(a[7]).spec_mul(b07)).spec_add(a[0].spec_mul(a[5]).spec_mul(b11)).spec_sub(a[2].spec_mul(a[5]).spec_mul(b08)).spec_add(a[3].spec_mul(a[5]).spec_mul(b07)).spec_add(a[9].spec_mul(a[14]).spec_mul(b02)).spec_sub(a[9].spec_mul(a[12]).spec_mul(b05)).spec_sub(a[9].spec_mul(a[15]).spec_mul(b01)),
        a[8].spec_mul(a[13]).spec_mul(b05),
        a[10].spec_mul(a[13]).spec_mul(b02),
        a[11].spec_mul(a[13]).spec_mul(b01),
    );
    lemma_mul_comm(b01, b10);
    lemma_mul_comm(b02, b09);
    lemma_mul_comm(b05, b06);
    lemma_expand_minor_prod(a[0].spec_mul(a[5]), a[1].spec_mul(a[4]), b11);
    lemma_expand_minor_prod(a[9].spec_mul(a[15]), a[11].spec_mul(a[13]), b01);
    lemma_append2_neg(
        a[0].spec_mul(a[5]).spec_mul(b11).spec_sub(a[1].spec_mul(a[4]).spec_mul(b11)),
        a[9].spec_mul(a[15]).spec_mul(b01),
        a[11].spec_mul(a[13]).spec_mul(b01),
    );
    lemma_expand_minor_prod(a[9].spec_mul(a[14]), a[10].spec_mul(a[13]), b02);
    lemma_append2_pos(
        a[0].spec_mul(a[5]).spec_mul(b11).spec_sub(a[1].spec_mul(a[4]).spec_mul(b11)).spec_sub(a[9].spec_mul(a[15]).spec_mul(b01)).spec_add(a[11].spec_mul(a[13]).spec_mul(b01)),
        a[9].spec_mul(a[14]).spec_mul(b02),
        a[10].spec_mul(a[13]).spec_mul(b02),
    );
    lemma_expand_minor_prod(a[1].spec_mul(a[6]), a[2].spec_mul(a[5]), b08);
    lemma_append2_pos(
        a[0].spec_mul(a[5]).spec_mul(b11).spec_sub(a[1].spec_mul(a[4]).spec_mul(b11)).spec_sub(a[9].spec_mul(a[15]).spec_mul(b01)).spec_add(a[11].spec_mul(a[13]).spec_mul(b01)).spec_add(a[9].spec_mul(a[14]).spec_mul(b02)).spec_sub(a[10].spec_mul(a[13]).spec_mul(b02)),
        a[1].spec_mul(a[6]).spec_mul(b08),
        a[2].spec_mul(a[5]).spec_mul(b08),
    );
    lemma_expand_minor_prod(a[1].spec_mul(a[7]), a[3].spec_mul(a[5]), b07);
    lemma_append2_neg(
        a[0].spec_mul(a[5]).spec_mul(b11).spec_sub(a[1].spec_mul(a[4]).spec_mul(b11)).spec_sub(a[9].spec_mul(a[15]).spec_mul(b01)).spec_add(a[11].spec_mul(a[13]).spec_mul(b01)).spec_add(a[9].spec_mul(a[14]).spec_mul(b02)).spec_sub(a[10].spec_mul(a[13]).spec_mul(b02)).spec_add(a[1].spec_mul(a[6]).spec_mul(b08)).spec_sub(a[2].spec_mul(a[5]).spec_mul(b08)),
        a[1].spec_mul(a[7]).spec_mul(b07),
        a[3].spec_mul(a[5]).spec_mul(b07),
    );
    lemma_expand_minor_prod(a[8].spec_mul(a[13]), a[9].spec_mul(a[12]), b05);
    lemma_append2_pos(
        a[0].spec_mul(a[5]).spec_mul(b11).spec_sub(a[1].spec_mul(a[4]).spec_mul(b11)).spec_sub(a[9].spec_mul(a[15]).spec_mul(b01)).spec_add(a[11].spec_mul(a[13]).spec_mul(b01)).spec_add(a[9].spec_mul(a[14]).spec_mul(b02)).spec_sub(a[10].spec_mul(a[13]).spec_mul(b02)).spec_add(a[1].spec_mul(a[6]).spec_mul(b08)).spec_sub(a[2].spec_mul(a[5]).spec_mul(b08)).spec_sub(a[1].spec_mul(a[7]).spec_mul(b07)).spec_add(a[3].spec_mul(a[5]).spec_mul(b07)),
        a[8].spec_mul(a[13]).spec_mul(b05),
        a[9].spec_mul(a[12]).spec_mul(b05),
    );
    lemma_inv_right_chain5(
        a[1].spec_mul(a[6]).spec_mul(b08),
        a[1].spec_mul(a[4]).spec_mul(b11),
        a[1].spec_mul(a[7]).spec_mul(b07),
        a[0].spec_mul(a[5]).spec_mul(b11),
        a[2].spec_mul(a[5]).spec_mul(b08),
        a[3].spec_mul(a[5]).spec_mul(b07),
        a[9].spec_mul(a[14]).spec_mul(b02),
        a[9].spec_mul(a[12]).spec_mul(b05),
        a[9].spec_mul(a[15]).spec_mul(b01),
        a[8].spec_mul(a[13]).spec_mul(b05),
        a[10].spec_mul(a[13]).spec_mul(b02),
        a[11].spec_mul(a[13]).spec_mul(b01)
    );
    assert(mul_seq(a, inv)[5] == det_seq(a).spec_mul(inv_d));
    lemma_recip(det_seq(a));
    assert(mul_seq(a, inv)[5] == T::spec_one());
}

proof fn lemma_inv_right_chain6<T: Scalar>(p1: T, p2: T, p3: T, p4: T, p5: T, p6: T, p7: T, p8: T, p9: T, p10: T, p11: T, p12: T)
    requires
        laws_sealed::<T>(),
    ensures
        p1.spec_sub(p2).spec_sub(p3).spec_add(p4).spec_sub(p5).spec_add(p6).spec_add(p7).spec_sub(p8).spec_sub(p1).spec_add(p2).spec_add(p9).spec_sub(p10).spec_add(p11).spec_sub(p12).spec_sub(p6).spec_add(p10).spec_sub(p7).spec_add(p3).spec_add(p5).spec_sub(p9).spec_sub(p11).spec_add(p12).spec_add(p8).spec_sub(p4) == T::spec_zero(),
{
    lemma_swap_ss(p1.spec_sub(p2).spec_sub(p3).spec_add(p4).spec_sub(p5).spec_add(p6).spec_add(p7), p8, p1);
    lemma_swap_as(p1.spec_sub(p2).spec_sub(p3).spec_add(p4).spec_sub(p5).spec_add(p6), p7, p1);
    lemma_swap_as(p1.spec_sub(p2).spec_sub(p3).spec_add(p4).spec_sub(p5), p6, p1);
    lemma_swap_ss(p1.spec_sub(p2).spec_sub(p3).spec_add(p4), p5, p1);
    lemma_swap_as(p1.spec_sub(p2).spec_sub(p3), p4, p1);
    lemma_swap_ss(p1.spec_sub(p2), p3, p1);
    lemma_swap_ss(p1, p2, p1);
    lemma_swap_sa(p1.spec_sub(p1).spec_sub(p2).spec_sub(p3).spec_add(p4).spec_sub(p5).spec_add(p6).spec_add(p7), p8, p2);
    lemma_swap_aa(p1.spec_sub(p1).spec_sub(p2).spec_sub(p3).spec_add(p4).spec_sub(p5).spec_add(p6), p7, p2);
    lemma_swap_aa(p1.spec_sub(p1).spec_sub(p2).spec_sub(p3).spec_add(p4).spec_sub(p5), p6, p2);
    lemma_swap_sa(p1.spec_sub(p1).spec_sub(p2).spec_sub(p3).spec_add(p4), p5, p2);
    lemma_swap_aa(p1.spec_sub(p1).spec_sub(p2).spec_sub(p3), p4, p2);
    lemma_swap_sa(p1.spec_sub(p1).spec_sub(p2), p3, p2);
    lemma_swap_sa(p1.spec_sub(p1), p2, p2);
    lemma_swap_sa(p1.spec_sub(p1).spec_add(p2).spec_sub(p2).spec_sub(p3).spec_add(p4).spec_sub(p5).spec_add(p6).spec_add(p7).spec_sub(p8).spec_add(p9).spec_sub(p10).spec_add(p11).spec_sub(p12).spec_sub(p6).spec_add(p10), p7, p3);
    lemma_swap_aa(p1.spec_sub(p1).spec_add(p2).spec_sub(p2).spec_sub(p3).spec_add(p4).spec_sub(p5).spec_add(p6).spec_add(p7).spec_sub(p8).spec_add(p9).spec_sub(p10).spec_add(p11).spec_sub(p12).spec_sub(p6), p10, p3);
    lemma_swap_sa(p1.spec_sub(p1).spec_add(p2).spec_sub(p2).spec_sub(p3).spec_add(p4).spec_sub(p5).spec_add(p6).spec_add(p7).spec_sub(p8).spec_add(p9).spec_sub(p10).spec_add(p11).spec_sub(p12), p6, p3);
    lemma_swap_sa(p1.spec_sub(p1).spec_add(p2).spec_sub(p2).spec_sub(p3).spec_add(p4).spec_sub(p5).spec_add(p6).spec_add(p7).spec_sub(p8).spec_add(p9).spec_sub(p10).spec_add(p11), p12, p3);
    lemma_swap_aa(p1.spec_sub(p1).spec_add(p2).spec_sub(p2).spec_sub(p3).spec_add(p4).spec_sub(p5).spec_add(p6).spec_add(p7).spec_sub(p8).spec_add(p9).spec_sub(p10), p11, p3);
    lemma_swap_sa(p1.spec_sub(p1).spec_add(p2).spec_sub(p2).spec_sub(p3).spec_add(p4).spec_sub(p5).spec_add(p6).spec_add(p7).spec_sub(p8).spec_add(p9), p10, p3);
    lemma_swap_aa(p1.spec_sub(p1).spec_add(p2).spec_sub(p2).spec_sub(p3).spec_add(p4).spec_sub(p5).spec_add(p6).spec_add(p7).spec_sub(p8), p9, p3);
    lemma_swap_sa(p1.spec_sub(p1).spec_add(p2).spec_sub(p2).spec_sub(p3).spec_add(p4).spec_sub(p5).spec_add(p6).spec_add(p7), p8, p3);
    lemma_swap_aa(p1.spec_sub(p1).spec_add(p2).spec_sub(p2).spec_sub(p3).spec_add(p4).spec_sub(p5).spec_add(p6), p7, p3);
    lemma_swap_aa(p1.spec_sub(p1).spec_add(p2).spec_sub(p2).spec_sub(p3).spec_add(p4).spec_sub(p5), p6, p3);
    lemma_swap_sa(p1.spec_sub(p1).spec_add(p2).spec_sub(p2).spec_sub(p3).spec_add(p4), p5, p3);
    lemma_swap_aa(p1.spec_sub(p1).spec_add(p2).spec_sub(p2).spec_sub(p3), p4, p3);
    lemma_swap_sa(p1.spec_sub(p1).spec_add(p2).spec_sub(p2), p3, p3);
    lemma_swap_as(p1.spec_sub(p1).spec_add(p2).spec_sub(p2).spec_add(p3).spec_sub(p3).spec_add(p4).spec_sub(p5).spec_add(p6).spec_add(p7).spec_sub(p8).spec_add(p9).spec_sub(p10).spec_add(p11).spec_sub(p12).spec_sub(p6).spec_add(p10).spec_sub(p7).spec_add(p5).spec_sub(p9).spec_sub(p11).spec_add(p12), p8, p4);
    lemma_swap_as(p1.spec_sub(p1).spec_add(p2).spec_sub(p2).spec_add(p3).spec_sub(p3).spec_add(p4).spec_sub(p5).spec_add(p6).spec_add(p7).spec_sub(p8).spec_add(p9).spec_sub(p10).spec_add(p11).spec_sub(p12).spec_sub(p6).spec_add(p10).spec_sub(p7).spec_add(p5).spec_sub(p9).spec_sub(p11), p12, p4);
    lemma_swap_ss(p1.spec_sub(p1).spec_add(p2).spec_sub(p2).spec_add(p3).spec_sub(p3).spec_add(p4).spec_sub(p5).spec_add(p6).spec_add(p7).spec_sub(p8).spec_add(p9).spec_sub(p10).spec_add(p11).spec_sub(p12).spec_sub(p6).spec_add(p10).spec_sub(p7).spec_add(p5).spec_sub(p9), p11, p4);
    lemma_swap_ss(p1.spec_sub(p1).spec_add(p2).spec_sub(p2).spec_add(p3).spec_sub(p3).spec_add(p4).spec_sub(p5).spec_add(p6).spec_add(p7).spec_sub(p8).spec_add(p9).spec_sub(p10).spec_add(p11).spec_sub(p12).spec_sub(p6).spec_add(p10).spec_sub(p7).spec_add(p5), p9, p4);
    lemma_swap_as(p1.spec_sub(p1).spec_add(p2).spec_sub(p2).spec_add(p3).spec_sub(p3).spec_add(p4).spec_sub(p5).spec_add(p6).spec_add(p7).spec_sub(p8).spec_add(p9).spec_sub(p10).spec_add(p11).spec_sub(p12).spec_sub(p6).spec_add(p10).spec_sub(p7), p5, p4);
    lemma_swap_ss(p1.spec_sub(p1).spec_add(p2).spec_sub(p2).spec_add(p3).spec_sub(p3).spec_add(p4).spec_sub(p5).spec_add(p6).spec_add(p7).spec_sub(p8).spec_add(p9).spec_sub(p10).spec_add(p11).spec_sub(p12).spec_sub(p6).spec_add(p10), p7, p4);
    lemma_swap_as(p1.spec_sub(p1).spec_add(p2).spec_sub(p2).spec_add(p3).spec_sub(p3).spec_add(p4).spec_sub(p5).spec_add(p6).spec_add(p7).spec_sub(p8).spec_add(p9).spec_sub(p10).spec_add(p11).spec_sub(p12).spec_sub(p6), p10, p4);
    lemma_swap_ss(p1.spec_sub(p1).spec_add(p2).spec_sub(p2).spec_add(p3).spec_sub(p3).spec_add(p4).spec_sub(p5).spec_add(p6).spec_add(p7).spec_sub(p8).spec_add(p9).spec_sub(p10).spec_add(p11).spec_sub(p12), p6, p4);
    lemma_swap_ss(p1.spec_sub(p1).spec_add(p2).spec_sub(p2).spec_add(p3).spec_sub(p3).spec_add(p4).spec_sub(p5).spec_add(p6).spec_add(p7).spec_sub(p8).spec_add(p9).spec_sub(p10).spec_add(p11), p12, p4);
    lemma_swap_as(p1.spec_sub(p1).spec_add(p2).spec_sub(p2).spec_add(p3).spec_sub(p3).spec_add(p4).spec_sub(p5).spec_add(p6).spec_add(p7).spec_sub(p8).spec_add(p9).spec_sub(p10), p11, p4);
    lemma_swap_ss(p1.spec_sub(p1).spec_add(p2).spec_sub(p2).spec_add(p3).spec_sub(p3).spec_add(p4).spec_sub(p5).spec_add(p6).spec_add(p7).spec_sub(p8).spec_add(p9), p10, p4);
    lemma_swap_as(p1.spec_sub(p1).spec_add(p2).spec_sub(p2).spec_add(p3).spec_sub(p3).spec_add(p4).spec_sub(p5).spec_add(p6).spec_add(p7).spec_sub(p8), p9, p4);
    lemma_swap_ss(p1.spec_sub(p1).spec_add(p2).spec_sub(p2).spec_add(p3).spec_sub(p3).spec_add(p4).spec_sub(p5).spec_add(p6).spec_add(p7), p8, p4);
    lemma_swap_as(p1.spec_sub(p1).spec_add(p2).spec_sub(p2).spec_add(p3).spec_sub(p3).spec_add(p4).spec_sub(p5).spec_add(p6), p7, p4);
    lemma_swap_as(p1.spec_sub(p1).spec_add(p2).spec_sub(p2).spec_add(p3).spec_sub(p3).spec_add(p4).spec_sub(p5), p6, p4);
    lemma_swap_ss(p1.spec_sub(p1).spec_add(p2).spec_sub(p2).spec_add(p3).spec_sub(p3).spec_add(p4), p5, p4);
    lemma_swap_sa(p1.spec_sub(p1).spec_add(p2).spec_sub(p2).spec_add(p3).spec_sub(p3).spec_add(p4).spec_sub(p4).spec_sub(p5).spec_add(p6).spec_add(p7).spec_sub(p8).spec_add(p9).spec_sub(p10).spec_add(p11).spec_sub(p12).spec_sub(p6).spec_add(p10), p7, p5);
    lemma_swap_aa(p1.spec_sub(p1).spec_add(p2).spec_sub(p2).spec_add(p3).spec_sub(p3).spec_add(p4).spec_sub(p4).spec_sub(p5).spec_add(p6).spec_add(p7).spec_sub(p8).spec_add(p9).spec_sub(p10).spec_add(p11).spec_sub(p12).spec_sub(p6), p10, p5);
    lemma_swap_sa(p1.spec_sub(p1).spec_add(p2).spec_sub(p2).spec_add(p3).spec_sub(p3).spec_add(p4).spec_sub(p4).spec_sub(p5).spec_add(p6).spec_add(p7).spec_sub(p8).spec_add(p9).spec_sub(p10).spec_add(p11).spec_sub(p12), p6, p5);
    lemma_swap_sa(p1.spec_sub(p1).spec_add(p2).spec_sub(p2).spec_add(p3).spec_sub(p3).spec_add(p4).spec_sub(p4).spec_sub(p5).spec_add(p6).spec_add(p7).spec_sub(p8).spec_add(p9).spec_sub(p10).spec_add(p11), p12, p5);
    lemma_swap_aa(p1.spec_sub(p1).spec_add(p2).spec_sub(p2).spec_add(p3).spec_sub(p3).spec_add(p4).spec_sub(p4).spec_sub(p5).spec_add(p6).spec_add(p7).spec_sub(p8).spec_add(p9).spec_sub(p10), p11, p5);
    lemma_swap_sa(p1.spec_sub(p1).spec_add(p2).spec_sub(p2).spec_add(p3).spec_sub(p3).spec_add(p4).spec_sub(p4).spec_sub(p5).spec_add(p6).spec_add(p7).spec_sub(p8).spec_add(p9), p10, p5);
    lemma_swap_aa(p1.spec_sub(p1).spec_add(p2).spec_sub(p2).spec_add(p3).spec_sub(p3).spec_add(p4).spec_sub(p4).spec_sub(p5).spec_add(p6).spec_add(p7).spec_sub(p8), p9, p5);
    lemma_swap_sa(p1.spec_sub(p1).spec_add(p2).spec_sub(p2).spec_add(p3).spec_sub(p3).spec_add(p4).spec_sub(p4).spec_sub(p5).spec_add(p6).spec_add(p7), p8, p5);
    lemma_swap_aa(p1.spec_sub(p1).spec_add(p2).spec_sub(p2).spec_add(p3).spec_sub(p3).spec_add(p4).spec_sub(p4).spec_sub(p5).spec_add(p6), p7, p5);
    lemma_swap_aa(p1.spec_sub(p1).spec_add(p2).spec_sub(p2).spec_add(p3).spec_sub(p3).spec_add(p4).spec_sub(p4).spec_sub(p5), p6, p5);
    lemma_swap_sa(p1.spec_sub(p1).spec_add(p2).spec_sub(p2).spec_add(p3).spec_sub(p3).spec_add(p4).spec_sub(p4), p5, p5);
    lemma_swap_ss(p1.spec_sub(p1).spec_add(p2).spec_sub(p2).spec_add(p3).spec_sub(p3).spec_add(p4).spec_sub(p4).spec_add(p5).spec_sub(p5).spec_add(p6).spec_add(p7).spec_sub(p8).spec_add(p9).spec_sub(p10).spec_add(p11), p12, p6);
    lemma_swap_as(p1.spec_sub(p1).spec_add(p2).spec_sub(p2).spec_add(p3).spec_sub(p3).spec_add(p4).spec_sub(p4).spec_add(p5).spec_sub(p5).spec_add(p6).spec_add(p7).spec_sub(p8).spec_add(p9).spec_sub(p10), p11, p6);
    lemma_swap_ss(p1.spec_sub(p1).spec_add(p2).spec_sub(p2).spec_add(p3).spec_sub(p3).spec_add(p4).spec_sub(p4).spec_add(p5).spec_sub(p5).spec_add(p6).spec_add(p7).spec_sub(p8).spec_add(p9), p10, p6);
    lemma_swap_as(p1.spec_sub(p1).spec_add(p2).spec_sub(p2).spec_add(p3).spec_sub(p3).spec_add(p4).spec_sub(p4).spec_add(p5).spec_sub(p5).spec_add(p6).spec_add(p7).spec_sub(p8), p9, p6);
    lemma_swap_ss(p1.spec_sub(p1).spec_add(p2).spec_sub(p2).spec_add(p3).spec_sub(p3).spec_add(p4).spec_sub(p4).spec_add(p5).spec_sub(p5).spec_add(p6).spec_add(p7), p8, p6);
    lemma_swap_as(p1.spec_sub(p1).spec_add(p2).spec_sub(p2).spec_add(p3).spec_sub(p3).spec_add(p4).spec_sub(p4).spec_add(p5).spec_sub(p5).spec_add(p6), p7, p6);
    lemma_swap_as(p1.spec_sub(p1).spec_add(p2).spec_sub(p2).spec_add(p3).spec_sub(p3).spec_add(p4).spec_sub(p4).spec_add(p5).spec_sub(p5).spec_add(p6).spec_sub(p6).spec_add(p7).spec_sub(p8).spec_add(p9).spec_sub(p10).spec_add(p11).spec_sub(p12), p10, p7);
    lemma_swap_ss(p1.spec_sub(p1).spec_add(p2).spec_sub(p2).spec_add(p3).spec_sub(p3).spec_add(p4).spec_sub(p4).spec_add(p5).spec_sub(p5).spec_add(p6).spec_sub(p6).spec_add(p7).spec_sub(p8).spec_add(p9).spec_sub(p10).spec_add(p11), p12, p7);
    lemma_swap_as(p1.spec_sub(p1).spec_add(p2).spec_sub(p2).spec_add(p3).spec_sub(p3).spec_add(p4).spec_sub(p4).spec_add(p5).spec_sub(p5).spec_add(p6).spec_sub(p6).spec_add(p7).spec_sub(p8).spec_add(p9).spec_sub(p10), p11, p7);
    lemma_swap_ss(p1.spec_sub(p1).spec_add(p2).spec_sub(p2).spec_add(p3).spec_sub(p3).spec_add(p4).spec_sub(p4).spec_add(p5).spec_sub(p5).spec_add(p6).spec_sub(p6).spec_add(p7).spec_sub(p8).spec_add(p9), p10, p7);
    lemma_swap_as(p1.spec_sub(p1).spec_add(p2).spec_sub(p2).spec_add(p3).spec_sub(p3).spec_add(p4).spec_sub(p4).spec_add(p5).spec_sub(p5).spec_add(p6).spec_sub(p6).spec_add(p7).spec_sub(p8), p9, p7);
    lemma_swap_ss(p1.spec_sub(p1).spec_add(p2).spec_sub(p2).spec_add(p3).spec_sub(p3).spec_add(p4).spec_sub(p4).spec_add(p5).spec_sub(p5).spec_add(p6).spec_sub(p6).spec_add(p7), p8, p7);
    lemma_swap_aa(p1.spec_sub(p1).spec_add(p2).spec_sub(p2).spec_add(p3).spec_sub(p3).spec_add(p4).spec_sub(p4).spec_add(p5).spec_sub(p5).spec_add(p6).spec_sub(p6).spec_add(p7).spec_sub(p7).spec_sub(p8).spec_add(p9).spec_sub(p10).spec_add(p11).spec_sub(p12).spec_add(p10).spec_sub(p9).spec_sub(p11), p12, p8);
    lemma_swap_sa(p1.spec_sub(p1).spec_add(p2).spec_sub(p2).spec_add(p3).spec_sub(p3).spec_add(p4).spec_sub(p4).spec_add(p5).spec_sub(p5).spec_add(p6).spec_sub(p6).spec_add(p7).spec_sub(p7).spec_sub(p8).spec_add(p9).spec_sub(p10).spec_add(p11).spec_sub(p12).spec_add(p10).spec_sub(p9), p11, p8);
    lemma_swap_sa(p1.spec_sub(p1).spec_add(p2).spec_sub(p2).spec_add(p3).spec_sub(p3).spec_add(p4).spec_sub(p4).spec_add(p5).spec_sub(p5).spec_add(p6).spec_sub(p6).spec_add(p7).spec_sub(p7).spec_sub(p8).spec_add(p9).spec_sub(p10).spec_add(p11).spec_sub(p12).spec_add(p10), p9, p8);
    lemma_swap_aa(p1.spec_sub(p1).spec_add(p2).spec_sub(p2).spec_add(p3).spec_sub(p3).spec_add(p4).spec_sub(p4).spec_add(p5).spec_sub(p5).spec_add(p6).spec_sub(p6).spec_add(p7).spec_sub(p7).spec_sub(p8).spec_add(p9).spec_sub(p10).spec_add(p11).spec_sub(p12), p10, p8);
    lemma_swap_sa(p1.spec_sub(p1).spec_add(p2).spec_sub(p2).spec_add(p3).spec_sub(p3).spec_add(p4).spec_sub(p4).spec_add(p5).spec_sub(p5).spec_add(p6).spec_sub(p6).spec_add(p7).spec_sub(p7).spec_sub(p8).spec_add(p9).spec_sub(p10).spec_add(p11), p12, p8);
    lemma_swap_aa(p1.spec_sub(p1).spec_add(p2).spec_sub(p2).spec_add(p3).spec_sub(p3).spec_add(p4).spec_sub(p4).spec_add(p5).spec_sub(p5).spec_add(p6).spec_sub(p6).spec_add(p7).spec_sub(p7).spec_sub(p8).spec_add(p9).spec_sub(p10), p11, p8);
    lemma_swap_sa(p1.spec_sub(p1).spec_add(p2).spec_sub(p2).spec_add(p3).spec_sub(p3).spec_add(p4).spec_sub(p4).spec_add(p5).spec_sub(p5).spec_add(p6).spec_sub(p6).spec_add(p7).spec_sub(p7).spec_sub(p8).spec_add(p9), p10, p8);
    lemma_swap_aa(p1.spec_sub(p1).spec_add(p2).spec_sub(p2).spec_add(p3).spec_sub(p3).spec_add(p4).spec_sub(p4).spec_add(p5).spec_sub(p5).spec_add(p6).spec_sub(p6).spec_add(p7).spec_sub(p7).spec_sub(p8), p9, p8);
    lemma_swap_sa(p1.spec_sub(p1).spec_add(p2).spec_sub(p2).spec_add(p3).spec_sub(p3).spec_add(p4).spec_sub(p4).spec_add(p5).spec_sub(p5).spec_add(p6).spec_sub(p6).spec_add(p7).spec_sub(p7), p8, p8);
    lemma_swap_as(p1.spec_sub(p1).spec_add(p2).spec_sub(p2).spec_add(p3).spec_sub(p3).spec_add(p4).spec_sub(p4).spec_add(p5).spec_sub(p5).spec_add(p6).spec_sub(p6).spec_add(p7).spec_sub(p7).spec_add(p8).spec_sub(p8).spec_add(p9).spec_sub(p10).spec_add(p11).spec_sub(p12), p10, p9);
    lemma_swap_ss(p1.spec_sub(p1).spec_add(p2).spec_sub(p2).spec_add(p3).spec_sub(p3).spec_add(p4).spec_sub(p4).spec_add(p5).spec_sub(p5).spec_add(p6).spec_sub(p6).spec_add(p7).spec_sub(p7).spec_add(p8).spec_sub(p8).spec_add(p9).spec_sub(p10).spec_add(p11), p12, p9);
    lemma_swap_as(p1.spec_sub(p1).spec_add(p2).spec_sub(p2).spec_add(p3).spec_sub(p3).spec_add(p4).spec_sub(p4).spec_add(p5).spec_sub(p5).spec_add(p6).spec_sub(p6).spec_add(p7).spec_sub(p7).spec_add(p8).spec_sub(p8).spec_add(p9).spec_sub(p10), p11, p9);
    lemma_swap_ss(p1.spec_sub(p1).spec_add(p2).spec_sub(p2).spec_add(p3).spec_sub(p3).spec_add(p4).spec_sub(p4).spec_add(p5).spec_sub(p5).spec_add(p6).spec_sub(p6).spec_add(p7).spec_sub(p7).spec_add(p8).spec_sub(p8).spec_add(p9), p10, p9);
    lemma_swap_sa(p1.spec_sub(p1).spec_add(p2).spec_sub(p2).spec_add(p3).spec_sub(p3).spec_add(p4).spec_sub(p4).spec_add(p5).spec_sub(p5).spec_add(p6).spec_sub(p6).spec_add(p7).spec_sub(p7).spec_add(p8).spec_sub(p8).spec_add(p9).spec_sub(p9).spec_sub(p10).spec_add(p11), p12, p10);
    lemma_swap_aa(p1.spec_sub(p1).spec_add(p2).spec_sub(p2).spec_add(p3).spec_sub(p3).spec_add(p4).spec_sub(p4).spec_add(p5).spec_sub(p5).spec_add(p6).spec_sub(p6).spec_add(p7).spec_sub(p7).spec_add(p8).spec_sub(p8).spec_add(p9).spec_sub(p9).spec_sub(p10), p11, p10);
    lemma_swap_sa(p1.spec_sub(p1).spec_add(p2).spec_sub(p2).spec_add(p3).spec_sub(p3).spec_add(p4).spec_sub(p4).spec_add(p5).spec_sub(p5).spec_add(p6).spec_sub(p6).spec_add(p7).spec_sub(p7).spec_add(p8).spec_sub(p8).spec_add(p9).spec_sub(p9), p10, p10);
    lemma_swap_ss(p1.spec_sub(p1).spec_add(p2).spec_sub(p2).spec_add(p3).spec_sub(p3).spec_add(p4).spec_sub(p4).spec_add(p5).spec_sub(p5).spec_add(p6).spec_sub(p6).spec_add(p7).spec_sub(p7).spec_add(p8).spec_sub(p8).spec_add(p9).spec_sub(p9).spec_add(p10).spec_sub(p10).spec_add(p11), p12, p11);
    lemma_swap_sa(p1.spec_sub(p1).spec_add(p2).spec_sub(p2).spec_add(p3).spec_sub(p3).spec_add(p4).spec_sub(p4).spec_add(p5).spec_sub(p5).spec_add(p6).spec_sub(p6).spec_add(p7).spec_sub(p7).spec_add(p8).spec_sub(p8).spec_add(p9).spec_sub(p9).spec_add(p10).spec_sub(p10).spec_add(p11).spec_sub(p11), p12, p12);
    lemma_self_cancel(p1);
    lemma_cancel_adj(p1.spec_sub(p1), p2);
    lemma_cancel_adj(p1.spec_sub(p1).spec_add(p2).spec_sub(p2), p3);
    lemma_cancel_adj(p1.spec_sub(p1).spec_add(p2).spec_sub(p2).spec_add(p3).spec_sub(p3), p4);
    lemma_cancel_adj(p1.spec_sub(p1).spec_add(p2).spec_sub(p2).spec_add(p3).spec_sub(p3).spec_add(p4).spec_sub(p4), p5);
    lemma_cancel_adj(p1.spec_sub(p1).spec_add(p2).spec_sub(p2).spec_add(p3).spec_sub(p3).spec_add(p4).spec_sub(p4).spec_add(p5).spec_sub(p5), p6);
    lemma_cancel_adj(p1.spec_sub(p1).spec_add(p2).spec_sub(p2).spec_add(p3).spec_sub(p3).spec_add(p4).spec_sub(p4).spec_add(p5).spec_sub(p5).spec_add(p6).spec_sub(p6), p7);
    lemma_cancel_adj(p1.spec_sub(p1).spec_add(p2).spec_sub(p2).spec_add(p3).spec_sub(p3).spec_add(p4).spec_sub(p4).spec_add(p5).spec_sub(p5).spec_add(p6).spec_sub(p6).spec_add(p7).spec_sub(p7), p8);
    lemma_cancel_adj(p1.spec_sub(p1).spec_add(p2).spec_sub(p2).spec_add(p3).spec_sub(p3).spec_add(p4).spec_sub(p4).spec_add(p5).spec_sub(p5).spec_add(p6).spec_sub(p6).spec_add(p7).spec_sub(p7).spec_add(p8).spec_sub(p8), p9);
    lemma_cancel_adj(p1.spec_sub(p1).spec_add(p2).spec_sub(p2).spec_add(p3).spec_sub(p3).spec_add(p4).spec_sub(p4).spec_add(p5).spec_sub(p5).spec_add(p6).spec_sub(p6).spec_add(p7).spec_sub(p7).spec_add(p8).spec_sub(p8).spec_add(p9).spec_sub(p9), p10);
    lemma_cancel_adj(p1.spec_sub(p1).spec_add(p2).spec_sub(p2).spec_add(p3).spec_sub(p3).spec_add(p4).spec_sub(p4).spec_add(p5).spec_sub(p5).spec_add(p6).spec_sub(p6).spec_add(p7).spec_sub(p7).spec_add(p8).spec_sub(p8).spec_add(p9).spec_sub(p9).spec_add(p10).spec_sub(p10), p11);
    lemma_cancel_adj(p1.spec_sub(p1).spec_add(p2).spec_sub(p2).spec_add(p3).spec_sub(p3).spec_add(p4).spec_sub(p4).spec_add(p5).spec_sub(p5).spec_add(p6).spec_sub(p6).spec_add(p7).spec_sub(p7).spec_add(p8).spec_sub(p8).spec_add(p9).spec_sub(p9).spec_add(p10).spec_sub(p10).spec_add(p11).spec_sub(p11), p12);
}

pub(crate) proof fn lemma_inv_right_entry6<T: Scalar>(a: Seq<T>)
    requires
        a.len() == 16,
        field_sealed::<T>(),
        !det_seq(a).spec_is_zero(),
    ensures
        mul_seq(a, inverse_seq(a))[6] == T::spec_zero(),
{
    lemma_field_gives_ring::<T>();
    let inv = inverse_seq(a);
    let inv_d = T::spec_one().spec_div(det_seq(a));
    let b00 = minor2(a, 0, 5, 1, 4);
    let b01 = minor2(a, 0, 6, 2, 4);
    let b02 = minor2(a, 0, 7, 3, 4);
    let b03 = minor2(a, 1, 6, 2, 5);
    let b04 = minor2(a, 1, 7, 3, 5);
    let b05 = minor2(a, 2, 7, 3, 6);
    let b06 = minor2(a, 8, 13, 9, 12);
    let b07 = minor2(a, 8, 14, 10, 12);
    let b08 = minor2(a, 8, 15, 11, 12);
    let b09 = minor2(a, 9, 14, 10, 13);
    let b10 = minor2(a, 9, 15, 11, 13);
    let b11 = minor2(a, 10, 15, 11, 14);
    assert(mul_seq(a, inv)[6] == inv[4].spec_mul(a[2]).spec_add(inv[5].spec_mul(a[6])).spec_add(inv[6].spec_mul(a[10])).spec_add(inv[7].spec_mul(a[14])));
    assert(inv[4] == a[6].spec_mul(b08).spec_sub(a[4].spec_mul(b11)).spec_sub(a[7].spec_mul(b07)).spec_mul(inv_d));
    assert(inv[5] == a[0].spec_mul(b11).spec_sub(a[2].spec_mul(b08)).spec_add(a[3].spec_mul(b07)).spec_mul(inv_d));
    assert(inv[6] == a[14].spec_mul(b02).spec_sub(a[12].spec_mul(b05)).spec_sub(a[15].spec_mul(b01)).spec_mul(inv_d));
    assert(inv[7] == a[8].spec_mul(b05).spec_sub(a[10].spec_mul(b02)).spec_add(a[11].spec_mul(b01)).spec_mul(inv_d));
    lemma_mul_comm(a[6].spec_mul(b08).spec_sub(a[4].spec_mul(b11)).spec_sub(a[7].spec_mul(b07)).spec_mul(inv_d), a[2]);
    lemma_mul_comm(a[0].spec_mul(b11).spec_sub(a[2].spec_mul(b08)).spec_add(a[3].spec_mul(b07)).spec_mul(inv_d), a[6]);
    lemma_mul_comm(a[14].spec_mul(b02).spec_sub(a[12].spec_mul(b05)).spec_sub(a[15].spec_mul(b01)).spec_mul(inv_d), a[10]);
    lemma_mul_comm(a[8].spec_mul(b05).spec_sub(a[10].spec_mul(b02)).spec_add(a[11].spec_mul(b01)).spec_mul(inv_d), a[14]);
    lemma_mul_assoc(a[2], a[6].spec_mul(b08).spec_sub(a[4].spec_mul(b11)).spec_sub(a[7].spec_mul(b07)), inv_d);
    lemma_mul_assoc(a[6], a[0].spec_mul(b11).spec_sub(a[2].spec_mul(b08)).spec_add(a[3].spec_mul(b07)), inv_d);
    lemma_mul_assoc(a[10], a[14].spec_mul(b02).spec_sub(a[12].spec_mul(b05)).spec_sub(a[15].spec_mul(b01)), inv_d);
    lemma_mul_assoc(a[14], a[8].spec_mul(b05).spec_sub(a[10].spec_mul(b02)).spec_add(a[11].spec_mul(b01)), inv_d);
    lemma_factor4(
        a[2].spec_mul(a[6].spec_mul(b08).spec_sub(a[4].spec_mul(b11)).spec_sub(a[7].spec_mul(b07))),
        a[6].spec_mul(a[0].spec_mul(b11).spec_sub(a[2].spec_mul(b08)).spec_add(a[3].spec_mul(b07))),
        a[10].spec_mul(a[14].spec_mul(b02).spec_sub(a[12].spec_mul(b05)).spec_sub(a[15].spec_mul(b01))),
        a[14].spec_mul(a[8].spec_mul(b05).spec_sub(a[10].spec_mul(b02)).spec_add(a[11].spec_mul(b01))),
        inv_d,
    );
    lemma_distrib3_pmm(a[2], a[6].spec_mul(b08), a[4].spec_mul(b11), a[7].spec_mul(b07));
    lemma_mul_assoc(a[2], a[6], b08);
    lemma_mul_assoc(a[2], a[4], b11);
    lemma_mul_assoc(a[2], a[7], b07);
    lemma_distrib3_pmp(a[6], a[0].spec_mul(b11), a[2].spec_mul(b08), a[3].spec_mul(b07));
    lemma_mul_assoc(a[6], a[0], b11);
    lemma_mul_comm(a[6], a[0]);
    lemma_mul_assoc(a[6], a[2], b08);
    lemma_mul_comm(a[6], a[2]);
    lemma_mul_assoc(a[6], a[3], b07);
    lemma_mul_comm(a[6], a[3]);
    lemma_distrib3_pmm(a[10], a[14].spec_mul(b02), a[12].spec_mul(b05), a[15].spec_mul(b01));
    lemma_mul_assoc(a[10], a[14], b02);
    lemma_mul_assoc(a[10], a[12], b05);
    lemma_mul_assoc(a[10], a[15], b01);
    lemma_distrib3_pmp(a[14], a[8].spec_mul(b05), a[10].spec_mul(b02), a[11].spec_mul(b01));
    lemma_mul_assoc(a[14], a[8], b05);
    lemma_mul_comm(a[14], a[8]);
    lemma_mul_assoc(a[14], a[10], b02);
    lemma_mul_comm(a[14], a[10]);
    lemma_mul_assoc(a[14], a[11], b01);
    lemma_mul_comm(a[14], a[11]);
    lemma_append3_pmp(
        a[2].spec_mul(a[6]).spec_mul(b08).spec_sub(a[2].spec_mul(a[4]).spec_mul(b11)).spec_sub(a[2].spec_mul(a[7]).spec_mul(b07)),
        a[0].spec_mul(a[6]).spec_mul(b11),
        a[2].spec_mul(a[6]).spec_mul(b08),
        a[3].spec_mul(a[6]).spec_mul(b07),
    );
    lemma_append3_pmm(
        a[2].spec_mul(a[6]).spec_mul(b08).spec_sub(a[2].spec_mul(a[4]).spec_mul(b11)).spec_sub(a[2].spec_mul(a[7]).spec_mul(b07)).spec_add(a[0].spec_mul(a[6]).spec_mul(b11)).spec_sub(a[2].spec_mul(a[6]).spec_mul(b08)).spec_add(a[3].spec_mul(a[6]).spec_mul(b07)),
        a[10].spec_mul(a[14]).spec_mul(b02),
        a[10].spec_mul(a[12]).spec_mul(b05),
        a[10].spec_mul(a[15]).spec_mul(b01),
    );
    lemma_append3_pmp(
        a[2].spec_mul(a[6]).spec_mul(b08).spec_sub(a[2].spec_mul(a[4]).spec_mul(b11)).spec_sub(a[2].spec_mul(a[7]).spec_mul(b07)).spec_add(a[0].spec_mul(a[6]).spec_mul(b11)).spec_sub(a[2].spec_mul(a[6]).spec_mul(b08)).spec_add(a[3].spec_mul(a[6]).spec_mul(b07)).spec_add(a[10].spec_mul(a[14]).spec_mul(b02)).spec_sub(a[10].spec_mul(a[12]).spec_mul(b05)).spec_sub(a[10].spec_mul(a[15]).spec_mul(b01)),
        a[8].spec_mul(a[14]).spec_mul(b05),
        a[10].spec_mul(a[14]).spec_mul(b02),
        a[11].spec_mul(a[14]).spec_mul(b01),
    );
    let c2x6x8x15 = a[2].spec_mul(a[6]).spec_mul(a[8].spec_mul(a[15]));
    let c2x6x11x12 = a[2].spec_mul(a[6]).spec_mul(a[11].spec_mul(a[12]));
    let c2x4x10x15 = a[2].spec_mul(a[4]).spec_mul(a[10].spec_mul(a[15]));
    let c2x4x11x14 = a[2].spec_mul(a[4]).spec_mul(a[11].spec_mul(a[14]));
    let c2x7x8x14 = a[2].spec_mul(a[7]).spec_mul(a[8].spec_mul(a[14]));
    let c2x7x10x12 = a[2].spec_mul(a[7]).spec_mul(a[10].spec_mul(a[12]));
    let c0x6x10x15 = a[0].spec_mul(a[6]).spec_mul(a[10].spec_mul(a[15]));
    let c0x6x11x14 = a[0].spec_mul(a[6]).spec_mul(a[11].spec_mul(a[14]));
    let c3x6x8x14 = a[3].spec_mul(a[6]).spec_mul(a[8].spec_mul(a[14]));
    let c3x6x10x12 = a[3].spec_mul(a[6]).spec_mul(a[10].spec_mul(a[12]));
    let c0x7x10x14 = a[0].spec_mul(a[7]).spec_mul(a[10].spec_mul(a[14]));
    let c3x4x10x14 = a[3].spec_mul(a[4]).spec_mul(a[10].spec_mul(a[14]));
    lemma_distrib2(a[2].spec_mul(a[6]), a[8].spec_mul(a[15]), a[11].spec_mul(a[12]));
    lemma_distrib2(a[2].spec_mul(a[4]), a[10].spec_mul(a[15]), a[11].spec_mul(a[14]));
    lemma_distrib2(a[2].spec_mul(a[7]), a[8].spec_mul(a[14]), a[10].spec_mul(a[12]));
    lemma_distrib2(a[0].spec_mul(a[6]), a[10].spec_mul(a[15]), a[11].spec_mul(a[14]));
    lemma_distrib2(a[2].spec_mul(a[6]), a[8].spec_mul(a[15]), a[11].spec_mul(a[12]));
    lemma_distrib2(a[3].spec_mul(a[6]), a[8].spec_mul(a[14]), a[10].spec_mul(a[12]));
    lemma_distrib2(a[10].spec_mul(a[14]), a[0].spec_mul(a[7]), a[3].spec_mul(a[4]));
    lemma_distrib2(a[10].spec_mul(a[12]), a[2].spec_mul(a[7]), a[3].spec_mul(a[6]));
    lemma_distrib2(a[10].spec_mul(a[15]), a[0].spec_mul(a[6]), a[2].spec_mul(a[4]));
    lemma_distrib2(a[8].spec_mul(a[14]), a[2].spec_mul(a[7]), a[3].spec_mul(a[6]));
    lemma_distrib2(a[10].spec_mul(a[14]), a[0].spec_mul(a[7]), a[3].spec_mul(a[4]));
    lemma_distrib2(a[11].spec_mul(a[14]), a[0].spec_mul(a[6]), a[2].spec_mul(a[4]));
    lemma_mul_comm(a[10].spec_mul(a[14]), a[0].spec_mul(a[7]));
    lemma_mul_comm(a[10].spec_mul(a[14]), a[3].spec_mul(a[4]));
    lemma_mul_comm(a[10].spec_mul(a[12]), a[2].spec_mul(a[7]));
    lemma_mul_comm(a[10].spec_mul(a[12]), a[3].spec_mul(a[6]));
    lemma_mul_comm(a[10].spec_mul(a[15]), a[0].spec_mul(a[6]));
    lemma_mul_comm(a[10].spec_mul(a[15]), a[2].spec_mul(a[4]));
    lemma_mul_comm(a[8].spec_mul(a[14]), a[2].spec_mul(a[7]));
    lemma_mul_comm(a[8].spec_mul(a[14]), a[3].spec_mul(a[6]));
    lemma_mul_comm(a[11].spec_mul(a[14]), a[0].spec_mul(a[6]));
    lemma_mul_comm(a[11].spec_mul(a[14]), a[2].spec_mul(a[4]));
    lemma_append2_neg(
        c2x6x8x15.spec_sub(c2x6x11x12),
        c2x4x10x15,
        c2x4x11x14,
    );
    lemma_append2_neg(
        c2x6x8x15.spec_sub(c2x6x11x12).spec_sub(c2x4x10x15).spec_add(c2x4x11x14),
        c2x7x8x14,
        c2x7x10x12,
    );
    lemma_append2_pos(
        c2x6x8x15.spec_sub(c2x6x11x12).spec_sub(c2x4x10x15).spec_add(c2x4x11x14).spec_sub(c2x7x8x14).spec_add(c2x7x10x12),
        c0x6x10x15,
        c0x6x11x14,
    );
    lemma_append2_neg(
        c2x6x8x15.spec_sub(c2x6x11x12).spec_sub(c2x4x10x15).spec_add(c2x4x11x14).spec_sub(c2x7x8x14).spec_add(c2x7x10x12).spec_add(c0x6x10x15).spec_sub(c0x6x11x14),
        c2x6x8x15,
        c2x6x11x12,
    );
    lemma_append2_pos(
        c2x6x8x15.spec_sub(c2x6x11x12).spec_sub(c2x4x10x15).spec_add(c2x4x11x14).spec_sub(c2x7x8x14).spec_add(c2x7x10x12).spec_add(c0x6x10x15).spec_sub(c0x6x11x14).spec_sub(c2x6x8x15).spec_add(c2x6x11x12),
        c3x6x8x14,
        c3x6x10x12,
    );
    lemma_append2_pos(
        c2x6x8x15.spec_sub(c2x6x11x12).spec_sub(c2x4x10x15).spec_add(c2x4x11x14).spec_sub(c2x7x8x14).spec_add(c2x7x10x12).spec_add(c0x6x10x15).spec_sub(c0x6x11x14).spec_sub(c2x6x8x15).spec_add(c2x6x11x12).spec_add(c3x6x8x14).spec_sub(c3x6x10x12),
        c0x7x10x14,
        c3x4x10x14,
    );
    lemma_append2_neg(
        c2x6x8x15.spec_sub(c2x6x11x12).spec_sub(c2x4x10x15).spec_add(c2x4x11x14).spec_sub(c2x7x8x14).spec_add(c2x7x10x12).spec_add(c0x6x10x15).spec_sub(c0x6x11x14).spec_sub(c2x6x8x15).spec_add(c2x6x11x12).spec_add(c3x6x8x14).spec_sub(c3x6x10x12).spec_add(c0x7x10x14).spec_sub(c3x4x10x14),
        c2x7x10x12,
        c3x6x10x12,
    );
    lemma_append2_neg(
        c2x6x8x15.spec_sub(c2x6x11x12).spec_sub(c2x4x10x15).spec_add(c2x4x11x14).spec_sub(c2x7x8x14).spec_add(c2x7x10x12).spec_add(c0x6x10x15).spec_sub(c0x6x11x14).spec_sub(c2x6x8x15).spec_add(c2x6x11x12).spec_add(c3x6x8x14).spec_sub(c3x6x10x12).spec_add(c0x7x10x14).spec_sub(c3x4x10x14).spec_sub(c2x7x10x12).spec_add(c3x6x10x12),
        c0x6x10x15,
        c2x4x10x15,
    );
    lemma_append2_pos(
        c2x6x8x15.spec_sub(c2x6x11x12).spec_sub(c2x4x10x15).spec_add(c2x4x11x14).spec_sub(c2x7x8x14).spec_add(c2x7x10x12).spec_add(c0x6x10x15).spec_sub(c0x6x11x14).spec_sub(c2x6x8x15).spec_add(c2x6x11x12).spec_add(c3x6x8x14).spec_sub(c3x6x10x12).spec_add(c0x7x10x14).spec_sub(c3x4x10x14).spec_sub(c2x7x10x12).spec_add(c3x6x10x12).spec_sub(c0x6x10x15).spec_add(c2x4x10x15),
        c2x7x8x14,
        c3x6x8x14,
    );
    lemma_append2_neg(
        c2x6x8x15.spec_sub(c2x6x11x12).spec_sub(c2x4x10x15).spec_add(c2x4x11x14).spec_sub(c2x7x8x14).spec_add(c2x7x10x12).spec_add(c0x6x10x15).spec_sub(c0x6x11x14).spec_sub(c2x6x8x15).spec_add(c2x6x11x12).spec_add(c3x6x8x14).spec_sub(c3x6x10x12).spec_add(c0x7x10x14).spec_sub(c3x4x10x14).spec_sub(c2x7x10x12).spec_add(c3x6x10x12).spec_sub(c0x6x10x15).spec_add(c2x4x10x15).spec_add(c2x7x8x14).spec_sub(c3x6x8x14),
        c0x7x10x14,
        c3x4x10x14,
    );
    lemma_append2_pos(
        c2x6x8x15.spec_sub(c2x6x11x12).spec_sub(c2x4x10x15).spec_add(c2x4x11x14).spec_sub(c2x7x8x14).spec_add(c2x7x10x12).spec_add(c0x6x10x15).spec_sub(c0x6x11x14).spec_sub(c2x6x8x15).spec_add(c2x6x11x12).spec_add(c3x6x8x14).spec_sub(c3x6x10x12).spec_add(c0x7x10x14).spec_sub(c3x4x10x14).spec_sub(c2x7x10x12).spec_add(c3x6x10x12).spec_sub(c0x6x10x15).spec_add(c2x4x10x15).spec_add(c2x7x8x14).spec_sub(c3x6x8x14).spec_sub(c0x7x10x14).spec_add(c3x4x10x14),
        c0x6x11x14,
        c2x4x11x14,
    );
    lemma_inv_right_chain6(c2x6x8x15, c2x6x11x12, c2x4x10x15, c2x4x11x14, c2x7x8x14, c2x7x10x12, c0x6x10x15, c0x6x11x14, c3x6x8x14, c3x6x10x12, c0x7x10x14, c3x4x10x14);
    lemma_zero_mul(inv_d);
    assert(mul_seq(a, inv)[6] == T::spec_zero());
}

proof fn lemma_inv_right_chain7<T: Scalar>(p1: T, p2: T, p3: T, p4: T, p5: T, p6: T, p7: T, p8: T, p9: T, p10: T, p11: T, p12: T)
    requires
        laws_sealed::<T>(),
    ensures
        p1.spec_sub(p2).spec_sub(p3).spec_add(p4).spec_sub(p5).spec_add(p6).spec_add(p7).spec_sub(p8).spec_sub(p9).spec_add(p10).spec_add(p5).spec_sub(p6).spec_add(p8).spec_sub(p4).spec_sub(p10).spec_add(p2).spec_sub(p11).spec_add(p12).spec_add(p9).spec_sub(p1).spec_sub(p7).spec_add(p3).spec_add(p11).spec_sub(p12) == T::spec_zero(),
{
    lemma_swap_as(p1.spec_sub(p2).spec_sub(p3).spec_add(p4).spec_sub(p5).spec_add(p6).spec_add(p7).spec_sub(p8).spec_sub(p9).spec_add(p10).spec_add(p5).spec_sub(p6).spec_add(p8).spec_sub(p4).spec_sub(p10).spec_add(p2).spec_sub(p11).spec_add(p12), p9, p1);
    lemma_swap_as(p1.spec_sub(p2).spec_sub(p3).spec_add(p4).spec_sub(p5).spec_add(p6).spec_add(p7).spec_sub(p8).spec_sub(p9).spec_add(p10).spec_add(p5).spec_sub(p6).spec_add(p8).spec_sub(p4).spec_sub(p10).spec_add(p2).spec_sub(p11), p12, p1);
    lemma_swap_ss(p1.spec_sub(p2).spec_sub(p3).spec_add(p4).spec_sub(p5).spec_add(p6).spec_add(p7).spec_sub(p8).spec_sub(p9).spec_add(p10).spec_add(p5).spec_sub(p6).spec_add(p8).spec_sub(p4).spec_sub(p10).spec_add(p2), p11, p1);
    lemma_swap_as(p1.spec_sub(p2).spec_sub(p3).spec_add(p4).spec_sub(p5).spec_add(p6).spec_add(p7).spec_sub(p8).spec_sub(p9).spec_add(p10).spec_add(p5).spec_sub(p6).spec_add(p8).spec_sub(p4).spec_sub(p10), p2, p1);
    lemma_swap_ss(p1.spec_sub(p2).spec_sub(p3).spec_add(p4).spec_sub(p5).spec_add(p6).spec_add(p7).spec_sub(p8).spec_sub(p9).spec_add(p10).spec_add(p5).spec_sub(p6).spec_add(p8).spec_sub(p4), p10, p1);
    lemma_swap_ss(p1.spec_sub(p2).spec_sub(p3).spec_add(p4).spec_sub(p5).spec_add(p6).spec_add(p7).spec_sub(p8).spec_sub(p9).spec_add(p10).spec_add(p5).spec_sub(p6).spec_add(p8), p4, p1);
    lemma_swap_as(p1.spec_sub(p2).spec_sub(p3).spec_add(p4).spec_sub(p5).spec_add(p6).spec_add(p7).spec_sub(p8).spec_sub(p9).spec_add(p10).spec_add(p5).spec_sub(p6), p8, p1);
    lemma_swap_ss(p1.spec_sub(p2).spec_sub(p3).spec_add(p4).spec_sub(p5).spec_add(p6).spec_add(p7).spec_sub(p8).spec_sub(p9).spec_add(p10).spec_add(p5), p6, p1);
    lemma_swap_as(p1.spec_sub(p2).spec_sub(p3).spec_add(p4).spec_sub(p5).spec_add(p6).spec_add(p7).spec_sub(p8).spec_sub(p9).spec_add(p10), p5, p1);
    lemma_swap_as(p1.spec_sub(p2).spec_sub(p3).spec_add(p4).spec_sub(p5).spec_add(p6).spec_add(p7).spec_sub(p8).spec_sub(p9), p10, p1);
    lemma_swap_ss(p1.spec_sub(p2).spec_sub(p3).spec_add(p4).spec_sub(p5).spec_add(p6).spec_add(p7).spec_sub(p8), p9, p1);
    lemma_swap_ss(p1.spec_sub(p2).spec_sub(p3).spec_add(p4).spec_sub(p5).spec_add(p6).spec_add(p7), p8, p1);
    lemma_swap_as(p1.spec_sub(p2).spec_sub(p3).spec_add(p4).spec_sub(p5).spec_add(p6), p7, p1);
    lemma_swap_as(p1.spec_sub(p2).spec_sub(p3).spec_add(p4).spec_sub(p5), p6, p1);
    lemma_swap_ss(p1.spec_sub(p2).spec_sub(p3).spec_add(p4), p5, p1);
    lemma_swap_as(p1.spec_sub(p2).spec_sub(p3), p4, p1);
    lemma_swap_ss(p1.spec_sub(p2), p3, p1);
    lemma_swap_ss(p1, p2, p1);
    lemma_swap_sa(p1.spec_sub(p1).spec_sub(p2).spec_sub(p3).spec_add(p4).spec_sub(p5).spec_add(p6).spec_add(p7).spec_sub(p8).spec_sub(p9).spec_add(p10).spec_add(p5).spec_sub(p6).spec_add(p8).spec_sub(p4), p10, p2);
    lemma_swap_sa(p1.spec_sub(p1).spec_sub(p2).spec_sub(p3).spec_add(p4).spec_sub(p5).spec_add(p6).spec_add(p7).spec_sub(p8).spec_sub(p9).spec_add(p10).spec_add(p5).spec_sub(p6).spec_add(p8), p4, p2);
    lemma_swap_aa(p1.spec_sub(p1).spec_sub(p2).spec_sub(p3).spec_add(p4).spec_sub(p5).spec_add(p6).spec_add(p7).spec_sub(p8).spec_sub(p9).spec_add(p10).spec_add(p5).spec_sub(p6), p8, p2);
    lemma_swap_sa(p1.spec_sub(p1).spec_sub(p2).spec_sub(p3).spec_add(p4).spec_sub(p5).spec_add(p6).spec_add(p7).spec_sub(p8).spec_sub(p9).spec_add(p10).spec_add(p5), p6, p2);
    lemma_swap_aa(p1.spec_sub(p1).spec_sub(p2).spec_sub(p3).spec_add(p4).spec_sub(p5).spec_add(p6).spec_add(p7).spec_sub(p8).spec_sub(p9).spec_add(p10), p5, p2);
    lemma_swap_aa(p1.spec_sub(p1).spec_sub(p2).spec_sub(p3).spec_add(p4).spec_sub(p5).spec_add(p6).spec_add(p7).spec_sub(p8).spec_sub(p9), p10, p2);
    lemma_swap_sa(p1.spec_sub(p1).spec_sub(p2).spec_sub(p3).spec_add(p4).spec_sub(p5).spec_add(p6).spec_add(p7).spec_sub(p8), p9, p2);
    lemma_swap_sa(p1.spec_sub(p1).spec_sub(p2).spec_sub(p3).spec_add(p4).spec_sub(p5).spec_add(p6).spec_add(p7), p8, p2);
    lemma_swap_aa(p1.spec_sub(p1).spec_sub(p2).spec_sub(p3).spec_add(p4).spec_sub(p5).spec_add(p6), p7, p2);
    lemma_swap_aa(p1.spec_sub(p1).spec_sub(p2).spec_sub(p3).spec_add(p4).spec_sub(p5), p6, p2);
    lemma_swap_sa(p1.spec_sub(p1).spec_sub(p2).spec_sub(p3).spec_add(p4), p5, p2);
    lemma_swap_aa(p1.spec_sub(p1).spec_sub(p2).spec_sub(p3), p4, p2);
    lemma_swap_sa(p1.spec_sub(p1).spec_sub(p2), p3, p2);
    lemma_swap_sa(p1.spec_sub(p1), p2, p2);
    lemma_swap_sa(p1.spec_sub(p1).spec_add(p2).spec_sub(p2).spec_sub(p3).spec_add(p4).spec_sub(p5).spec_add(p6).spec_add(p7).spec_sub(p8).spec_sub(p9).spec_add(p10).spec_add(p5).spec_sub(p6).spec_add(p8).spec_sub(p4).spec_sub(p10).spec_sub(p11).spec_add(p12).spec_add(p9), p7, p3);
    lemma_swap_aa(p1.spec_sub(p1).spec_add(p2).spec_sub(p2).spec_sub(p3).spec_add(p4).spec_sub(p5).spec_add(p6).spec_add(p7).spec_sub(p8).spec_sub(p9).spec_add(p10).spec_add(p5).spec_sub(p6).spec_add(p8).spec_sub(p4).spec_sub(p10).spec_sub(p11).spec_add(p12), p9, p3);
    lemma_swap_aa(p1.spec_sub(p1).spec_add(p2).spec_sub(p2).spec_sub(p3).spec_add(p4).spec_sub(p5).spec_add(p6).spec_add(p7).spec_sub(p8).spec_sub(p9).spec_add(p10).spec_add(p5).spec_sub(p6).spec_add(p8).spec_sub(p4).spec_sub(p10).spec_sub(p11), p12, p3);
    lemma_swap_sa(p1.spec_sub(p1).spec_add(p2).spec_sub(p2).spec_sub(p3).spec_add(p4).spec_sub(p5).spec_add(p6).spec_add(p7).spec_sub(p8).spec_sub(p9).spec_add(p10).spec_add(p5).spec_sub(p6).spec_add(p8).spec_sub(p4).spec_sub(p10), p11, p3);
    lemma_swap_sa(p1.spec_sub(p1).spec_add(p2).spec_sub(p2).spec_sub(p3).spec_add(p4).spec_sub(p5).spec_add(p6).spec_add(p7).spec_sub(p8).spec_sub(p9).spec_add(p10).spec_add(p5).spec_sub(p6).spec_add(p8).spec_sub(p4), p10, p3);
    lemma_swap_sa(p1.spec_sub(p1).spec_add(p2).spec_sub(p2).spec_sub(p3).spec_add(p4).spec_sub(p5).spec_add(p6).spec_add(p7).spec_sub(p8).spec_sub(p9).spec_add(p10).spec_add(p5).spec_sub(p6).spec_add(p8), p4, p3);
    lemma_swap_aa(p1.spec_sub(p1).spec_add(p2).spec_sub(p2).spec_sub(p3).spec_add(p4).spec_sub(p5).spec_add(p6).spec_add(p7).spec_sub(p8).spec_sub(p9).spec_add(p10).spec_add(p5).spec_sub(p6), p8, p3);
    lemma_swap_sa(p1.spec_sub(p1).spec_add(p2).spec_sub(p2).spec_sub(p3).spec_add(p4).spec_sub(p5).spec_add(p6).spec_add(p7).spec_sub(p8).spec_sub(p9).spec_add(p10).spec_add(p5), p6, p3);
    lemma_swap_aa(p1.spec_sub(p1).spec_add(p2).spec_sub(p2).spec_sub(p3).spec_add(p4).spec_sub(p5).spec_add(p6).spec_add(p7).spec_sub(p8).spec_sub(p9).spec_add(p10), p5, p3);
    lemma_swap_aa(p1.spec_sub(p1).spec_add(p2).spec_sub(p2).spec_sub(p3).spec_add(p4).spec_sub(p5).spec_add(p6).spec_add(p7).spec_sub(p8).spec_sub(p9), p10, p3);
    lemma_swap_sa(p1.spec_sub(p1).spec_add(p2).spec_sub(p2).spec_sub(p3).spec_add(p4).spec_sub(p5).spec_add(p6).spec_add(p7).spec_sub(p8), p9, p3);
    lemma_swap_sa(p1.spec_sub(p1).spec_add(p2).spec_sub(p2).spec_sub(p3).spec_add(p4).spec_sub(p5).spec_add(p6).spec_add(p7), p8, p3);
    lemma_swap_aa(p1.spec_sub(p1).spec_add(p2).spec_sub(p2).spec_sub(p3).spec_add(p4).spec_sub(p5).spec_add(p6), p7, p3);
    lemma_swap_aa(p1.spec_sub(p1).spec_add(p2).spec_sub(p2).spec_sub(p3).spec_add(p4).spec_sub(p5), p6, p3);
    lemma_swap_sa(p1.spec_sub(p1).spec_add(p2).spec_sub(p2).spec_sub(p3).spec_add(p4), p5, p3);
    lemma_swap_aa(p1.spec_sub(p1).spec_add(p2).spec_sub(p2).spec_sub(p3), p4, p3);
    lemma_swap_sa(p1.spec_sub(p1).spec_add(p2).spec_sub(p2), p3, p3);
    lemma_swap_as(p1.spec_sub(p1).spec_add(p2).spec_sub(p2).spec_add(p3).spec_sub(p3).spec_add(p4).spec_sub(p5).spec_add(p6).spec_add(p7).spec_sub(p8).spec_sub(p9).spec_add(p10).spec_add(p5).spec_sub(p6), p8, p4);
    lemma_swap_ss(p1.spec_sub(p1).spec_add(p2).spec_sub(p2).spec_add(p3).spec_sub(p3).spec_add(p4).spec_sub(p5).spec_add(p6).spec_add(p7).spec_sub(p8).spec_sub(p9).spec_add(p10).spec_add(p5), p6, p4);
    lemma_swap_as(p1.spec_sub(p1).spec_add(p2).spec_sub(p2).spec_add(p3).spec_sub(p3).spec_add(p4).spec_sub(p5).spec_add(p6).spec_add(p7).spec_sub(p8).spec_sub(p9).spec_add(p10), p5, p4);
    lemma_swap_as(p1.spec_sub(p1).spec_add(p2).spec_sub(p2).spec_add(p3).spec_sub(p3).spec_add(p4).spec_sub(p5).spec_add(p6).spec_add(p7).spec_sub(p8).spec_sub(p9), p10, p4);
    lemma_swap_ss(p1.spec_sub(p1).spec_add(p2).spec_sub(p2).spec_add(p3).spec_sub(p3).spec_add(p4).spec_sub(p5).spec_add(p6).spec_add(p7).spec_sub(p8), p9, p4);
    lemma_swap_ss(p1.spec_sub(p1).spec_add(p2).spec_sub(p2).spec_add(p3).spec_sub(p3).spec_add(p4).spec_sub(p5).spec_add(p6).spec_add(p7), p8, p4);
    lemma_swap_as(p1.spec_sub(p1).spec_add(p2).spec_sub(p2).spec_add(p3).spec_sub(p3).spec_add(p4).spec_sub(p5).spec_add(p6), p7, p4);
    lemma_swap_as(p1.spec_sub(p1).spec_add(p2).spec_sub(p2).spec_add(p3).spec_sub(p3).spec_add(p4).spec_sub(p5), p6, p4);
    lemma_swap_ss(p1.spec_sub(p1).spec_add(p2).spec_sub(p2).spec_add(p3).spec_sub(p3).spec_add(p4), p5, p4);
    lemma_swap_aa(p1.spec_sub(p1).spec_add(p2).spec_sub(p2).spec_add(p3).spec_sub(p3).spec_add(p4).spec_sub(p4).spec_sub(p5).spec_add(p6).spec_add(p7).spec_sub(p8).spec_sub(p9), p10, p5);
    lemma_swap_sa(p1.spec_sub(p1).spec_add(p2).spec_sub(p2).spec_add(p3).spec_sub(p3).spec_add(p4).spec_sub(p4).spec_sub(p5).spec_add(p6).spec_add(p7).spec_sub(p8), p9, p5);
    lemma_swap_sa(p1.spec_sub(p1).spec_add(p2).spec_sub(p2).spec_add(p3).spec_sub(p3).spec_add(p4).spec_sub(p4).spec_sub(p5).spec_add(p6).spec_add(p7), p8, p5);
    lemma_swap_aa(p1.spec_sub(p1).spec_add(p2).spec_sub(p2).spec_add(p3).spec_sub(p3).spec_add(p4).spec_sub(p4).spec_sub(p5).spec_add(p6), p7, p5);
    lemma_swap_aa(p1.spec_sub(p1).spec_add(p2).spec_sub(p2).spec_add(p3).spec_sub(p3).spec_add(p4).spec_sub(p4).spec_sub(p5), p6, p5);
    lemma_swap_sa(p1.spec_sub(p1).spec_add(p2).spec_sub(p2).spec_add(p3).spec_sub(p3).spec_add(p4).spec_sub(p4), p5, p5);
    lemma_swap_as(p1.spec_sub(p1).spec_add(p2).spec_sub(p2).spec_add(p3).spec_sub(p3).spec_add(p4).spec_sub(p4).spec_add(p5).spec_sub(p5).spec_add(p6).spec_add(p7).spec_sub(p8).spec_sub(p9), p10, p6);
    lemma_swap_ss(p1.spec_sub(p1).spec_add(p2).spec_sub(p2).spec_add(p3).spec_sub(p3).spec_add(p4).spec_sub(p4).spec_add(p5).spec_sub(p5).spec_add(p6).spec_add(p7).spec_sub(p8), p9, p6);
    lemma_swap_ss(p1.spec_sub(p1).spec_add(p2).spec_sub(p2).spec_add(p3).spec_sub(p3).spec_add(p4).spec_sub(p4).spec_add(p5).spec_sub(p5).spec_add(p6).spec_add(p7), p8, p6);
    lemma_swap_as(p1.spec_sub(p1).spec_add(p2).spec_sub(p2).spec_add(p3).spec_sub(p3).spec_add(p4).spec_sub(p4).spec_add(p5).spec_sub(p5).spec_add(p6), p7, p6);
    lemma_swap_as(p1.spec_sub(p1).spec_add(p2).spec_sub(p2).spec_add(p3).spec_sub(p3).spec_add(p4).spec_sub(p4).spec_add(p5).spec_sub(p5).spec_add(p6).spec_sub(p6).spec_add(p7).spec_sub(p8).spec_sub(p9).spec_add(p10).spec_add(p8).spec_sub(p10).spec_sub(p11).spec_add(p12), p9, p7);
    lemma_swap_as(p1.spec_sub(p1).spec_add(p2).spec_sub(p2).spec_add(p3).spec_sub(p3).spec_add(p4).spec_sub(p4).spec_add(p5).spec_sub(p5).spec_add(p6).spec_sub(p6).spec_add(p7).spec_sub(p8).spec_sub(p9).spec_add(p10).spec_add(p8).spec_sub(p10).spec_sub(p11), p12, p7);
    lemma_swap_ss(p1.spec_sub(p1).spec_add(p2).spec_sub(p2).spec_add(p3).spec_sub(p3).spec_add(p4).spec_sub(p4).spec_add(p5).spec_sub(p5).spec_add(p6).spec_sub(p6).spec_add(p7).spec_sub(p8).spec_sub(p9).spec_add(p10).spec_add(p8).spec_sub(p10), p11, p7);
    lemma_swap_ss(p1.spec_sub(p1).spec_add(p2).spec_sub(p2).spec_add(p3).spec_sub(p3).spec_add(p4).spec_sub(p4).spec_add(p5).spec_sub(p5).spec_add(p6).spec_sub(p6).spec_add(p7).spec_sub(p8).spec_sub(p9).spec_add(p10).spec_add(p8), p10, p7);
    lemma_swap_as(p1.spec_sub(p1).spec_add(p2).spec_sub(p2).spec_add(p3).spec_sub(p3).spec_add(p4).spec_sub(p4).spec_add(p5).spec_sub(p5).spec_add(p6).spec_sub(p6).spec_add(p7).spec_sub(p8).spec_sub(p9).spec_add(p10), p8, p7);
    lemma_swap_as(p1.spec_sub(p1).spec_add(p2).spec_sub(p2).spec_add(p3).spec_sub(p3).spec_add(p4).spec_sub(p4).spec_add(p5).spec_sub(p5).spec_add(p6).spec_sub(p6).spec_add(p7).spec_sub(p8).spec_sub(p9), p10, p7);
    lemma_swap_ss(p1.spec_sub(p1).spec_add(p2).spec_sub(p2).spec_add(p3).spec_sub(p3).spec_add(p4).spec_sub(p4).spec_add(p5).spec_sub(p5).spec_add(p6).spec_sub(p6).spec_add(p7).spec_sub(p8), p9, p7);
    lemma_swap_ss(p1.spec_sub(p1).spec_add(p2).spec_sub(p2).spec_add(p3).spec_sub(p3).spec_add(p4).spec_sub(p4).spec_add(p5).spec_sub(p5).spec_add(p6).spec_sub(p6).spec_add(p7), p8, p7);
    lemma_swap_aa(p1.spec_sub(p1).spec_add(p2).spec_sub(p2).spec_add(p3).spec_sub(p3).spec_add(p4).spec_sub(p4).spec_add(p5).spec_sub(p5).spec_add(p6).spec_sub(p6).spec_add(p7).spec_sub(p7).spec_sub(p8).spec_sub(p9), p10, p8);
    lemma_swap_sa(p1.spec_sub(p1).spec_add(p2).spec_sub(p2).spec_add(p3).spec_sub(p3).spec_add(p4).spec_sub(p4).spec_add(p5).spec_sub(p5).spec_add(p6).spec_sub(p6).spec_add(p7).spec_sub(p7).spec_sub(p8), p9, p8);
    lemma_swap_sa(p1.spec_sub(p1).spec_add(p2).spec_sub(p2).spec_add(p3).spec_sub(p3).spec_add(p4).spec_sub(p4).spec_add(p5).spec_sub(p5).spec_add(p6).spec_sub(p6).spec_add(p7).spec_sub(p7), p8, p8);
    lemma_swap_aa(p1.spec_sub(p1).spec_add(p2).spec_sub(p2).spec_add(p3).spec_sub(p3).spec_add(p4).spec_sub(p4).spec_add(p5).spec_sub(p5).spec_add(p6).spec_sub(p6).spec_add(p7).spec_sub(p7).spec_add(p8).spec_sub(p8).spec_sub(p9).spec_add(p10).spec_sub(p10).spec_sub(p11), p12, p9);
    lemma_swap_sa(p1.spec_sub(p1).spec_add(p2).spec_sub(p2).spec_add(p3).spec_sub(p3).spec_add(p4).spec_sub(p4).spec_add(p5).spec_sub(p5).spec_add(p6).spec_sub(p6).spec_add(p7).spec_sub(p7).spec_add(p8).spec_sub(p8).spec_sub(p9).spec_add(p10).spec_sub(p10), p11, p9);
    lemma_swap_sa(p1.spec_sub(p1).spec_add(p2).spec_sub(p2).spec_add(p3).spec_sub(p3).spec_add(p4).spec_sub(p4).spec_add(p5).spec_sub(p5).spec_add(p6).spec_sub(p6).spec_add(p7).spec_sub(p7).spec_add(p8).spec_sub(p8).spec_sub(p9).spec_add(p10), p10, p9);
    lemma_swap_aa(p1.spec_sub(p1).spec_add(p2).spec_sub(p2).spec_add(p3).spec_sub(p3).spec_add(p4).spec_sub(p4).spec_add(p5).spec_sub(p5).spec_add(p6).spec_sub(p6).spec_add(p7).spec_sub(p7).spec_add(p8).spec_sub(p8).spec_sub(p9), p10, p9);
    lemma_swap_sa(p1.spec_sub(p1).spec_add(p2).spec_sub(p2).spec_add(p3).spec_sub(p3).spec_add(p4).spec_sub(p4).spec_add(p5).spec_sub(p5).spec_add(p6).spec_sub(p6).spec_add(p7).spec_sub(p7).spec_add(p8).spec_sub(p8), p9, p9);
    lemma_swap_aa(p1.spec_sub(p1).spec_add(p2).spec_sub(p2).spec_add(p3).spec_sub(p3).spec_add(p4).spec_sub(p4).spec_add(p5).spec_sub(p5).spec_add(p6).spec_sub(p6).spec_add(p7).spec_sub(p7).spec_add(p8).spec_sub(p8).spec_add(p9).spec_sub(p9).spec_add(p10).spec_sub(p10).spec_sub(p11), p12, p11);
    lemma_swap_sa(p1.spec_sub(p1).spec_add(p2).spec_sub(p2).spec_add(p3).spec_sub(p3).spec_add(p4).spec_sub(p4).spec_add(p5).spec_sub(p5).spec_add(p6).spec_sub(p6).spec_add(p7).spec_sub(p7).spec_add(p8).spec_sub(p8).spec_add(p9).spec_sub(p9).spec_add(p10).spec_sub(p10), p11, p11);
    lemma_self_cancel(p1);
    lemma_cancel_adj(p1.spec_sub(p1), p2);
    lemma_cancel_adj(p1.spec_sub(p1).spec_add(p2).spec_sub(p2), p3);
    lemma_cancel_adj(p1.spec_sub(p1).spec_add(p2).spec_sub(p2).spec_add(p3).spec_sub(p3), p4);
    lemma_cancel_adj(p1.spec_sub(p1).spec_add(p2).spec_sub(p2).spec_add(p3).spec_sub(p3).spec_add(p4).spec_sub(p4), p5);
    lemma_cancel_adj(p1.spec_sub(p1).spec_add(p2).spec_sub(p2).spec_add(p3).spec_sub(p3).spec_add(p4).spec_sub(p4).spec_add(p5).spec_sub(p5), p6);
    lemma_cancel_adj(p1.spec_sub(p1).spec_add(p2).spec_sub(p2).spec_add(p3).spec_sub(p3).spec_add(p4).spec_sub(p4).spec_add(p5).spec_sub(p5).spec_add(p6).spec_sub(p6), p7);
    lemma_cancel_adj(p1.spec_sub(p1).spec_add(p2).spec_sub(p2).spec_add(p3).spec_sub(p3).spec_add(p4).spec_sub(p4).spec_add(p5).spec_sub(p5).spec_add(p6).spec_sub(p6).spec_add(p7).spec_sub(p7), p8);
    lemma_cancel_adj(p1.spec_sub(p1).spec_add(p2).spec_sub(p2).spec_add(p3).spec_sub(p3).spec_add(p4).spec_sub(p4).spec_add(p5).spec_sub(p5).spec_add(p6).spec_sub(p6).spec_add(p7).spec_sub(p7).spec_add(p8).spec_sub(p8), p9);
    lemma_cancel_adj(p1.spec_sub(p1).spec_add(p2).spec_sub(p2).spec_add(p3).spec_sub(p3).spec_add(p4).spec_sub(p4).spec_add(p5).spec_sub(p5).spec_add(p6).spec_sub(p6).spec_add(p7).spec_sub(p7).spec_add(p8).spec_sub(p8).spec_add(p9).spec_sub(p9), p10);
    lemma_cancel_adj(p1.spec_sub(p1).spec_add(p2).spec_sub(p2).spec_add(p3).spec_sub(p3).spec_add(p4).spec_sub(p4).spec_add(p5).spec_sub(p5).spec_add(p6).spec_sub(p6).spec_add(p7).spec_sub(p7).spec_add(p8).spec_sub(p8).spec_add(p9).spec_sub(p9).spec_add(p10).spec_sub(p10), p11);
    lemma_cancel_adj(p1.spec_sub(p1).spec_add(p2).spec_sub(p2).spec_add(p3).spec_sub(p3).spec_add(p4).spec_sub(p4).spec_add(p5).spec_sub(p5).spec_add(p6).spec_sub(p6).spec_add(p7).spec_sub(p7).spec_add(p8).spec_sub(p8).spec_add(p9).spec_sub(p9).spec_add(p10).spec_sub(p10).spec_add(p11).spec_sub(p11), p12);
}

pub(crate) proof fn lemma_inv_right_entry7<T: Scalar>(a: Seq<T>)
    requires
        a.len() == 16,
        field_sealed::<T>(),
        !det_seq(a).spec_is_zero(),
    ensures
        mul_seq(a, inverse_seq(a))[7] == T::spec_zero(),
{
    lemma_field_gives_ring::<T>();
    let inv = inverse_seq(a);
    let inv_d = T::spec_one().spec_div(det_seq(a));
    let b00 = minor2(a, 0, 5, 1, 4);
    let b01 = minor2(a, 0, 6, 2, 4);
    let b02 = minor2(a, 0, 7, 3, 4);
    let b03 = minor2(a, 1, 6, 2, 5);
    let b04 = minor2(a, 1, 7, 3, 5);
    let b05 = minor2(a, 2, 7, 3, 6);
    let b06 = minor2(a, 8, 13, 9, 12);
    let b07 = minor2(a, 8, 14, 10, 12);
    let b08 = minor2(a, 8, 15, 11, 12);
    let b09 = minor2(a, 9, 14, 10, 13);
    let b10 = minor2(a, 9, 15, 11, 13);
    let b11 = minor2(a, 10, 15, 11, 14);
    assert(mul_seq(a, inv)[7] == inv[4].spec_mul(a[3]).spec_add(inv[5].spec_mul(a[7])).spec_add(inv[6].spec_mul(a[11])).spec_add(inv[7].spec_mul(a[15])));
    assert(inv[4] == a[6].spec_mul(b08).spec_sub(a[4].spec_mul(b11)).spec_sub(a[7].spec_mul(b07)).spec_mul(inv_d));
    assert(inv[5] == a[0].spec_mul(b11).spec_sub(a[2].spec_mul(b08)).spec_add(a[3].spec_mul(b07)).spec_mul(inv_d));
    assert(inv[6] == a[14].spec_mul(b02).spec_sub(a[12].spec_mul(b05)).spec_sub(a[15].spec_mul(b01)).spec_mul(inv_d));
    assert(inv[7] == a[8].spec_mul(b05).spec_sub(a[10].spec_mul(b02)).spec_add(a[11].spec_mul(b01)).spec_mul(inv_d));
    lemma_mul_comm(a[6].spec_mul(b08).spec_sub(a[4].spec_mul(b11)).spec_sub(a[7].spec_mul(b07)).spec_mul(inv_d), a[3]);
    lemma_mul_comm(a[0].spec_mul(b11).spec_sub(a[2].spec_mul(b08)).spec_add(a[3].spec_mul(b07)).spec_mul(inv_d), a[7]);
    lemma_mul_comm(a[14].spec_mul(b02).spec_sub(a[12].spec_mul(b05)).spec_sub(a[15].spec_mul(b01)).spec_mul(inv_d), a[11]);
    lemma_mul_comm(a[8].spec_mul(b05).spec_sub(a[10].spec_mul(b02)).spec_add(a[11].spec_mul(b01)).spec_mul(inv_d), a[15]);
    lemma_mul_assoc(a[3], a[6].spec_mul(b08).spec_sub(a[4].spec_mul(b11)).spec_sub(a[7].spec_mul(b07)), inv_d);
    lemma_mul_assoc(a[7], a[0].spec_mul(b11).spec_sub(a[2].spec_mul(b08)).spec_add(a[3].spec_mul(b07)), inv_d);
    lemma_mul_assoc(a[11], a[14].spec_mul(b02).spec_sub(a[12].spec_mul(b05)).spec_sub(a[15].spec_mul(b01)), inv_d);
    lemma_mul_assoc(a[15], a[8].spec_mul(b05).spec_sub(a[10].spec_mul(b02)).spec_add(a[11].spec_mul(b01)), inv_d);
    lemma_factor4(
        a[3].spec_mul(a[6].spec_mul(b08).spec_sub(a[4].spec_mul(b11)).spec_sub(a[7].spec_mul(b07))),
        a[7].spec_mul(a[0].spec_mul(b11).spec_sub(a[2].spec_mul(b08)).spec_add(a[3].spec_mul(b07))),
        a[11].spec_mul(a[14].spec_mul(b02).spec_sub(a[12].spec_mul(b05)).spec_sub(a[15].spec_mul(b01))),
        a[15].spec_mul(a[8].spec_mul(b05).spec_sub(a[10].spec_mul(b02)).spec_add(a[11].spec_mul(b01))),
        inv_d,
    );
    lemma_distrib3_pmm(a[3], a[6].spec_mul(b08), a[4].spec_mul(b11), a[7].spec_mul(b07));
    lemma_mul_assoc(a[3], a[6], b08);
    lemma_mul_assoc(a[3], a[4], b11);
    lemma_mul_assoc(a[3], a[7], b07);
    lemma_distrib3_pmp(a[7], a[0].spec_mul(b11), a[2].spec_mul(b08), a[3].spec_mul(b07));
    lemma_mul_assoc(a[7], a[0], b11);
    lemma_mul_comm(a[7], a[0]);
    lemma_mul_assoc(a[7], a[2], b08);
    lemma_mul_comm(a[7], a[2]);
    lemma_mul_assoc(a[7], a[3], b07);
    lemma_mul_comm(a[7], a[3]);
    lemma_distrib3_pmm(a[11], a[14].spec_mul(b02), a[12].spec_mul(b05), a[15].spec_mul(b01));
    lemma_mul_assoc(a[11], a[14], b02);
    lemma_mul_assoc(a[11], a[12], b05);
    lemma_mul_assoc(a[11], a[15], b01);
    lemma_distrib3_pmp(a[15], a[8].spec_mul(b05), a[10].spec_mul(b02), a[11].spec_mul(b01));
    lemma_mul_assoc(a[15], a[8], b05);
    lemma_mul_comm(a[15], a[8]);
    lemma_mul_assoc(a[15], a[10], b02);
    lemma_mul_comm(a[15], a[10]);
    lemma_mul_assoc(a[15], a[11], b01);
    lemma_mul_comm(a[15], a[11]);
    lemma_append3_pmp(
        a[3].spec_mul(a[6]).spec_mul(b08).spec_sub(a[3].spec_mul(a[4]).spec_mul(b11)).spec_sub(a[3].spec_mul(a[7]).spec_mul(b07)),
        a[0].spec_mul(a[7]).spec_mul(b11),
        a[2].spec_mul(a[7]).spec_mul(b08),
        a[3].spec_mul(a[7]).spec_mul(b07),
    );
    lemma_append3_pmm(
        a[3].spec_mul(a[6]).spec_mul(b08).spec_sub(a[3].spec_mul(a[4]).spec_mul(b11)).spec_sub(a[3].spec_mul(a[7]).spec_mul(b07)).spec_add(a[0].spec_mul(a[7]).spec_mul(b11)).spec_sub(a[2].spec_mul(a[7]).spec_mul(b08)).spec_add(a[3].spec_mul(a[7]).spec_mul(b07)),
        a[11].spec_mul(a[14]).spec_mul(b02),
        a[11].spec_mul(a[12]).spec_mul(b05),
        a[11].spec_mul(a[15]).spec_mul(b01),
    );
    lemma_append3_pmp(
        a[3].spec_mul(a[6]).spec_mul(b08).spec_sub(a[3].spec_mul(a[4]).spec_mul(b11)).spec_sub(a[3].spec_mul(a[7]).spec_mul(b07)).spec_add(a[0].spec_mul(a[7]).spec_mul(b11)).spec_sub(a[2].spec_mul(a[7]).spec_mul(b08)).spec_add(a[3].spec_mul(a[7]).spec_mul(b07)).spec_add(a[11].spec_mul(a[14]).spec_mul(b02)).spec_sub(a[11].spec_mul(a[12]).spec_mul(b05)).spec_sub(a[11].spec_mul(a[15]).spec_mul(b01)),
        a[8].spec_mul(a[15]).spec_mul(b05),
        a[10].spec_mul(a[15]).spec_mul(b02),
        a[11].spec_mul(a[15]).spec_mul(b01),
    );
    let c3x6x8x15 = a[3].spec_mul(a[6]).spec_mul(a[8].spec_mul(a[15]));
    let c3x6x11x12 = a[3].spec_mul(a[6]).spec_mul(a[11].spec_mul(a[12]));
    let c3x4x10x15 = a[3].spec_mul(a[4]).spec_mul(a[10].spec_mul(a[15]));
    let c3x4x11x14 = a[3].spec_mul(a[4]).spec_mul(a[11].spec_mul(a[14]));
    let c3x7x8x14 = a[3].spec_mul(a[7]).spec_mul(a[8].spec_mul(a[14]));
    let c3x7x10x12 = a[3].spec_mul(a[7]).spec_mul(a[10].spec_mul(a[12]));
    let c0x7x10x15 = a[0].spec_mul(a[7]).spec_mul(a[10].spec_mul(a[15]));
    let c0x7x11x14 = a[0].spec_mul(a[7]).spec_mul(a[11].spec_mul(a[14]));
    let c2x7x8x15 = a[2].spec_mul(a[7]).spec_mul(a[8].spec_mul(a[15]));
    let c2x7x11x12 = a[2].spec_mul(a[7]).spec_mul(a[11].spec_mul(a[12]));
    let c0x6x11x15 = a[0].spec_mul(a[6]).spec_mul(a[11].spec_mul(a[15]));
    let c2x4x11x15 = a[2].spec_mul(a[4]).spec_mul(a[11].spec_mul(a[15]));
    lemma_distrib2(a[3].spec_mul(a[6]), a[8].spec_mul(a[15]), a[11].spec_mul(a[12]));
    lemma_distrib2(a[3].spec_mul(a[4]), a[10].spec_mul(a[15]), a[11].spec_mul(a[14]));
    lemma_distrib2(a[3].spec_mul(a[7]), a[8].spec_mul(a[14]), a[10].spec_mul(a[12]));
    lemma_distrib2(a[0].spec_mul(a[7]), a[10].spec_mul(a[15]), a[11].spec_mul(a[14]));
    lemma_distrib2(a[2].spec_mul(a[7]), a[8].spec_mul(a[15]), a[11].spec_mul(a[12]));
    lemma_distrib2(a[3].spec_mul(a[7]), a[8].spec_mul(a[14]), a[10].spec_mul(a[12]));
    lemma_distrib2(a[11].spec_mul(a[14]), a[0].spec_mul(a[7]), a[3].spec_mul(a[4]));
    lemma_distrib2(a[11].spec_mul(a[12]), a[2].spec_mul(a[7]), a[3].spec_mul(a[6]));
    lemma_distrib2(a[11].spec_mul(a[15]), a[0].spec_mul(a[6]), a[2].spec_mul(a[4]));
    lemma_distrib2(a[8].spec_mul(a[15]), a[2].spec_mul(a[7]), a[3].spec_mul(a[6]));
    lemma_distrib2(a[10].spec_mul(a[15]), a[0].spec_mul(a[7]), a[3].spec_mul(a[4]));
    lemma_distrib2(a[11].spec_mul(a[15]), a[0].spec_mul(a[6]), a[2].spec_mul(a[4]));
    lemma_mul_comm(a[11].spec_mul(a[14]), a[0].spec_mul(a[7]));
    lemma_mul_comm(a[11].spec_mul(a[14]), a[3].spec_mul(a[4]));
    lemma_mul_comm(a[11].spec_mul(a[12]), a[2].spec_mul(a[7]));
    lemma_mul_comm(a[11].spec_mul(a[12]), a[3].spec_mul(a[6]));
    lemma_mul_comm(a[11].spec_mul(a[15]), a[0].spec_mul(a[6]));
    lemma_mul_comm(a[11].spec_mul(a[15]), a[2].spec_mul(a[4]));
    lemma_mul_comm(a[8].spec_mul(a[15]), a[2].spec_mul(a[7]));
    lemma_mul_comm(a[8].spec_mul(a[15]), a[3].spec_mul(a[6]));
    lemma_mul_comm(a[10].spec_mul(a[15]), a[0].spec_mul(a[7]));
    lemma_mul_comm(a[10].spec_mul(a[15]), a[3].spec_mul(a[4]));
    lemma_append2_neg(
        c3x6x8x15.spec_sub(c3x6x11x12),
        c3x4x10x15,
        c3x4x11x14,
    );
    lemma_append2_neg(
        c3x6x8x15.spec_sub(c3x6x11x12).spec_sub(c3x4x10x15).spec_add(c3x4x11x14),
        c3x7x8x14,
        c3x7x10x12,
    );
    lemma_append2_pos(
        c3x6x8x15.spec_sub(c3x6x11x12).spec_sub(c3x4x10x15).spec_add(c3x4x11x14).spec_sub(c3x7x8x14).spec_add(c3x7x10x12),
        c0x7x10x15,
        c0x7x11x14,
    );
    lemma_append2_neg(
        c3x6x8x15.spec_sub(c3x6x11x12).spec_sub(c3x4x10x15).spec_add(c3x4x11x14).spec_sub(c3x7x8x14).spec_add(c3x7x10x12).spec_add(c0x7x10x15).spec_sub(c0x7x11x14),
        c2x7x8x15,
        c2x7x11x12,
    );
    lemma_append2_pos(
        c3x6x8x15.spec_sub(c3x6x11x12).spec_sub(c3x4x10x15).spec_add(c3x4x11x14).spec_sub(c3x7x8x14).spec_add(c3x7x10x12).spec_add(c0x7x10x15).spec_sub(c0x7x11x14).spec_sub(c2x7x8x15).spec_add(c2x7x11x12),
        c3x7x8x14,
        c3x7x10x12,
    );
    lemma_append2_pos(
        c3x6x8x15.spec_sub(c3x6x11x12).spec_sub(c3x4x10x15).spec_add(c3x4x11x14).spec_sub(c3x7x8x14).spec_add(c3x7x10x12).spec_add(c0x7x10x15).spec_sub(c0x7x11x14).spec_sub(c2x7x8x15).spec_add(c2x7x11x12).spec_add(c3x7x8x14).spec_sub(c3x7x10x12),
        c0x7x11x14,
        c3x4x11x14,
    );
    lemma_append2_neg(
        c3x6x8x15.spec_sub(c3x6x11x12).spec_sub(c3x4x10x15).spec_add(c3x4x11x14).spec_sub(c3x7x8x14).spec_add(c3x7x10x12).spec_add(c0x7x10x15).spec_sub(c0x7x11x14).spec_sub(c2x7x8x15).spec_add(c2x7x11x12).spec_add(c3x7x8x14).spec_sub(c3x7x10x12).spec_add(c0x7x11x14).spec_sub(c3x4x11x14),
        c2x7x11x12,
        c3x6x11x12,
    );
    lemma_append2_neg(
        c3x6x8x15.spec_sub(c3x6x11x12).spec_sub(c3x4x10x15).spec_add(c3x4x11x14).spec_sub(c3x7x8x14).spec_add(c3x7x10x12).spec_add(c0x7x10x15).spec_sub(c0x7x11x14).spec_sub(c2x7x8x15).spec_add(c2x7x11x12).spec_add(c3x7x8x14).spec_sub(c3x7x10x12).spec_add(c0x7x11x14).spec_sub(c3x4x11x14).spec_sub(c2x7x11x12).spec_add(c3x6x11x12),
        c0x6x11x15,
        c2x4x11x15,
    );
    lemma_append2_pos(
        c3x6x8x15.spec_sub(c3x6x11x12).spec_sub(c3x4x10x15).spec_add(c3x4x11x14).spec_sub(c3x7x8x14).spec_add(c3x7x10x12).spec_add(c0x7x10x15).spec_sub(c0x7x11x14).spec_sub(c2x7x8x15).spec_add(c2x7x11x12).spec_add(c3x7x8x14).spec_sub(c3x7x10x12).spec_add(c0x7x11x14).spec_sub(c3x4x11x14).spec_sub(c2x7x11x12).spec_add(c3x6x11x12).spec_sub(c0x6x11x15).spec_add(c2x4x11x15),
        c2x7x8x15,
        c3x6x8x15,
    );
    lemma_append2_neg(
        c3x6x8x15.spec_sub(c3x6x11x12).spec_sub(c3x4x10x15).spec_add(c3x4x11x14).spec_sub(c3x7x8x14).spec_add(c3x7x10x12).spec_add(c0x7x10x15).spec_sub(c0x7x11x14).spec_sub(c2x7x8x15).spec_add(c2x7x11x12).spec_add(c3x7x8x14).spec_sub(c3x7x10x12).spec_add(c0x7x11x14).spec_sub(c3x4x11x14).spec_sub(c2x7x11x12).spec_add(c3x6x11x12).spec_sub(c0x6x11x15).spec_add(c2x4x11x15).spec_add(c2x7x8x15).spec_sub(c3x6x8x15),
        c0x7x10x15,
        c3x4x10x15,
    );
    lemma_append2_pos(
        c3x6x8x15.spec_sub(c3x6x11x12).spec_sub(c3x4x10x15).spec_add(c3x4x11x14).spec_sub(c3x7x8x14).spec_add(c3x7x10x12).spec_add(c0x7x10x15).spec_sub(c0x7x11x14).spec_sub(c2x7x8x15).spec_add(c2x7x11x12).spec_add(c3x7x8x14).spec_sub(c3x7x10x12).spec_add(c0x7x11x14).spec_sub(c3x4x11x14).spec_sub(c2x7x11x12).spec_add(c3x6x11x12).spec_sub(c0x6x11x15).spec_add(c2x4x11x15).spec_add(c2x7x8x15).spec_sub(c3x6x8x15).spec_sub(c0x7x10x15).spec_add(c3x4x10x15),
        c0x6x11x15,
        c2x4x11x15,
    );
    lemma_inv_right_chain7(c3x6x8x15, c3x6x11x12, c3x4x10x15, c3x4x11x14, c3x7x8x14, c3x7x10x12, c0x7x10x15, c0x7x11x14, c2x7x8x15, c2x7x11x12, c0x6x11x15, c2x4x11x15);
    lemma_zero_mul(inv_d);
    assert(mul_seq(a, inv)[7] == T::spec_zero());
}

proof fn lemma_inv_right_chain8<T: Scalar>(p1: T, p2: T, p3: T, p4: T, p5: T, p6: T, p7: T, p8: T, p9: T, p10: T, p11: T, p12: T)
    requires
        laws_sealed::<T>(),
    ensures
        p1.spec_sub(p2).spec_sub(p3).spec_add(p4).spec_add(p5).spec_sub(p6).spec_add(p7).spec_sub(p8).spec_sub(p1).spec_add(p2).spec_sub(p9).spec_add(p10).spec_add(p11).spec_sub(p12).spec_sub(p5).spec_add(p9).spec_add(p3).spec_sub(p7).spec_add(p6).spec_sub(p10).spec_sub(p11).spec_add(p12).spec_sub(p4).spec_add(p8) == T::spec_zero(),
{
    lemma_swap_ss(p1.spec_sub(p2).spec_sub(p3).spec_add(p4).spec_add(p5).spec_sub(p6).spec_add(p7), p8, p1);
    lemma_swap_as(p1.spec_sub(p2).spec_sub(p3).spec_add(p4).spec_add(p5).spec_sub(p6), p7, p1);
    lemma_swap_ss(p1.spec_sub(p2).spec_sub(p3).spec_add(p4).spec_add(p5), p6, p1);
    lemma_swap_as(p1.spec_sub(p2).spec_sub(p3).spec_add(p4), p5, p1);
    lemma_swap_as(p1.spec_sub(p2).spec_sub(p3), p4, p1);
    lemma_swap_ss(p1.spec_sub(p2), p3, p1);
    lemma_swap_ss(p1, p2, p1);
    lemma_swap_sa(p1.spec_sub(p1).spec_sub(p2).spec_sub(p3).spec_add(p4).spec_add(p5).spec_sub(p6).spec_add(p7), p8, p2);
    lemma_swap_aa(p1.spec_sub(p1).spec_sub(p2).spec_sub(p3).spec_add(p4).spec_add(p5).spec_sub(p6), p7, p2);
    lemma_swap_sa(p1.spec_sub(p1).spec_sub(p2).spec_sub(p3).spec_add(p4).spec_add(p5), p6, p2);
    lemma_swap_aa(p1.spec_sub(p1).spec_sub(p2).spec_sub(p3).spec_add(p4), p5, p2);
    lemma_swap_aa(p1.spec_sub(p1).spec_sub(p2).spec_sub(p3), p4, p2);
    lemma_swap_sa(p1.spec_sub(p1).spec_sub(p2), p3, p2);
    lemma_swap_sa(p1.spec_sub(p1), p2, p2);
    lemma_swap_aa(p1.spec_sub(p1).spec_add(p2).spec_sub(p2).spec_sub(p3).spec_add(p4).spec_add(p5).spec_sub(p6).spec_add(p7).spec_sub(p8).spec_sub(p9).spec_add(p10).spec_add(p11).spec_sub(p12).spec_sub(p5), p9, p3);
    lemma_swap_sa(p1.spec_sub(p1).spec_add(p2).spec_sub(p2).spec_sub(p3).spec_add(p4).spec_add(p5).spec_sub(p6).spec_add(p7).spec_sub(p8).spec_sub(p9).spec_add(p10).spec_add(p11).spec_sub(p12), p5, p3);
    lemma_swap_sa(p1.spec_sub(p1).spec_add(p2).spec_sub(p2).spec_sub(p3).spec_add(p4).spec_add(p5).spec_sub(p6).spec_add(p7).spec_sub(p8).spec_sub(p9).spec_add(p10).spec_add(p11), p12, p3);
    lemma_swap_aa(p1.spec_sub(p1).spec_add(p2).spec_sub(p2).spec_sub(p3).spec_add(p4).spec_add(p5).spec_sub(p6).spec_add(p7).spec_sub(p8).spec_sub(p9).spec_add(p10), p11, p3);
    lemma_swap_aa(p1.spec_sub(p1).spec_add(p2).spec_sub(p2).spec_sub(p3).spec_add(p4).spec_add(p5).spec_sub(p6).spec_add(p7).spec_sub(p8).spec_sub(p9), p10, p3);
    lemma_swap_sa(p1.spec_sub(p1).spec_add(p2).spec_sub(p2).spec_sub(p3).spec_add(p4).spec_add(p5).spec_sub(p6).spec_add(p7).spec_sub(p8), p9, p3);
    lemma_swap_sa(p1.spec_sub(p1).spec_add(p2).spec_sub(p2).spec_sub(p3).spec_add(p4).spec_add(p5).spec_sub(p6).spec_add(p7), p8, p3);
    lemma_swap_aa(p1.spec_sub(p1).spec_add(p2).spec_sub(p2).spec_sub(p3).spec_add(p4).spec_add(p5).spec_sub(p6), p7, p3);
    lemma_swap_sa(p1.spec_sub(p1).spec_add(p2).spec_sub(p2).spec_sub(p3).spec_add(p4).spec_add(p5), p6, p3);
    lemma_swap_aa(p1.spec_sub(p1).spec_add(p2).spec_sub(p2).spec_sub(p3).spec_add(p4), p5, p3);
    lemma_swap_aa(p1.spec_sub(p1).spec_add(p2).spec_sub(p2).spec_sub(p3), p4, p3);
    lemma_swap_sa(p1.spec_sub(p1).spec_add(p2).spec_sub(p2), p3, p3);
    lemma_swap_as(p1.spec_sub(p1).spec_add(p2).spec_sub(p2).spec_add(p3).spec_sub(p3).spec_add(p4).spec_add(p5).spec_sub(p6).spec_add(p7).spec_sub(p8).spec_sub(p9).spec_add(p10).spec_add(p11).spec_sub(p12).spec_sub(p5).spec_add(p9).spec_sub(p7).spec_add(p6).spec_sub(p10).spec_sub(p11), p12, p4);
    lemma_swap_ss(p1.spec_sub(p1).spec_add(p2).spec_sub(p2).spec_add(p3).spec_sub(p3).spec_add(p4).spec_add(p5).spec_sub(p6).spec_add(p7).spec_sub(p8).spec_sub(p9).spec_add(p10).spec_add(p11).spec_sub(p12).spec_sub(p5).spec_add(p9).spec_sub(p7).spec_add(p6).spec_sub(p10), p11, p4);
    lemma_swap_ss(p1.spec_sub(p1).spec_add(p2).spec_sub(p2).spec_add(p3).spec_sub(p3).spec_add(p4).spec_add(p5).spec_sub(p6).spec_add(p7).spec_sub(p8).spec_sub(p9).spec_add(p10).spec_add(p11).spec_sub(p12).spec_sub(p5).spec_add(p9).spec_sub(p7).spec_add(p6), p10, p4);
    lemma_swap_as(p1.spec_sub(p1).spec_add(p2).spec_sub(p2).spec_add(p3).spec_sub(p3).spec_add(p4).spec_add(p5).spec_sub(p6).spec_add(p7).spec_sub(p8).spec_sub(p9).spec_add(p10).spec_add(p11).spec_sub(p12).spec_sub(p5).spec_add(p9).spec_sub(p7), p6, p4);
    lemma_swap_ss(p1.spec_sub(p1).spec_add(p2).spec_sub(p2).spec_add(p3).spec_sub(p3).spec_add(p4).spec_add(p5).spec_sub(p6).spec_add(p7).spec_sub(p8).spec_sub(p9).spec_add(p10).spec_add(p11).spec_sub(p12).spec_sub(p5).spec_add(p9), p7, p4);
    lemma_swap_as(p1.spec_sub(p1).spec_add(p2).spec_sub(p2).spec_add(p3).spec_sub(p3).spec_add(p4).spec_add(p5).spec_sub(p6).spec_add(p7).spec_sub(p8).spec_sub(p9).spec_add(p10).spec_add(p11).spec_sub(p12).spec_sub(p5), p9, p4);
    lemma_swap_ss(p1.spec_sub(p1).spec_add(p2).spec_sub(p2).spec_add(p3).spec_sub(p3).spec_add(p4).spec_add(p5).spec_sub(p6).spec_add(p7).spec_sub(p8).spec_sub(p9).spec_add(p10).spec_add(p11).spec_sub(p12), p5, p4);
    lemma_swap_ss(p1.spec_sub(p1).spec_add(p2).spec_sub(p2).spec_add(p3).spec_sub(p3).spec_add(p4).spec_add(p5).spec_sub(p6).spec_add(p7).spec_sub(p8).spec_sub(p9).spec_add(p10).spec_add(p11), p12, p4);
    lemma_swap_as(p1.spec_sub(p1).spec_add(p2).spec_sub(p2).spec_add(p3).spec_sub(p3).spec_add(p4).spec_add(p5).spec_sub(p6).spec_add(p7).spec_sub(p8).spec_sub(p9).spec_add(p10), p11, p4);
    lemma_swap_as(p1.spec_sub(p1).spec_add(p2).spec_sub(p2).spec_add(p3).spec_sub(p3).spec_add(p4).spec_add(p5).spec_sub(p6).spec_add(p7).spec_sub(p8).spec_sub(p9), p10, p4);
    lemma_swap_ss(p1.spec_sub(p1).spec_add(p2).spec_sub(p2).spec_add(p3).spec_sub(p3).spec_add(p4).spec_add(p5).spec_sub(p6).spec_add(p7).spec_sub(p8), p9, p4);
    lemma_swap_ss(p1.spec_sub(p1).spec_add(p2).spec_sub(p2).spec_add(p3).spec_sub(p3).spec_add(p4).spec_add(p5).spec_sub(p6).spec_add(p7), p8, p4);
    lemma_swap_as(p1.spec_sub(p1).spec_add(p2).spec_sub(p2).spec_add(p3).spec_sub(p3).spec_add(p4).spec_add(p5).spec_sub(p6), p7, p4);
    lemma_swap_ss(p1.spec_sub(p1).spec_add(p2).spec_sub(p2).spec_add(p3).spec_sub(p3).spec_add(p4).spec_add(p5), p6, p4);
    lemma_swap_as(p1.spec_sub(p1).spec_add(p2).spec_sub(p2).spec_add(p3).spec_sub(p3).spec_add(p4), p5, p4);
    lemma_swap_ss(p1.spec_sub(p1).spec_add(p2).spec_sub(p2).spec_add(p3).spec_sub(p3).spec_add(p4).spec_sub(p4).spec_add(p5).spec_sub(p6).spec_add(p7).spec_sub(p8).spec_sub(p9).spec_add(p10).spec_add(p11), p12, p5);
    lemma_swap_as(p1.spec_sub(p1).spec_add(p2).spec_sub(p2).spec_add(p3).spec_sub(p3).spec_add(p4).spec_sub(p4).spec_add(p5).spec_sub(p6).spec_add(p7).spec_sub(p8).spec_sub(p9).spec_add(p10), p11, p5);
    lemma_swap_as(p1.spec_sub(p1).spec_add(p2).spec_sub(p2).spec_add(p3).spec_sub(p3).spec_add(p4).spec_sub(p4).spec_add(p5).spec_sub(p6).spec_add(p7).spec_sub(p8).spec_sub(p9), p10, p5);
    lemma_swap_ss(p1.spec_sub(p1).spec_add(p2).spec_sub(p2).spec_add(p3).spec_sub(p3).spec_add(p4).spec_sub(p4).spec_add(p5).spec_sub(p6).spec_add(p7).spec_sub(p8), p9, p5);
    lemma_swap_ss(p1.spec_sub(p1).spec_add(p2).spec_sub(p2).spec_add(p3).spec_sub(p3).spec_add(p4).spec_sub(p4).spec_add(p5).spec_sub(p6).spec_add(p7), p8, p5);
    lemma_swap_as(p1.spec_sub(p1).spec_add(p2).spec_sub(p2).spec_add(p3).spec_sub(p3).spec_add(p4).spec_sub(p4).spec_add(p5).spec_sub(p6), p7, p5);
    lemma_swap_ss(p1.spec_sub(p1).spec_add(p2).spec_sub(p2).spec_add(p3).spec_sub(p3).spec_add(p4).spec_sub(p4).spec_add(p5), p6, p5);
    lemma_swap_sa(p1.spec_sub(p1).spec_add(p2).spec_sub(p2).spec_add(p3).spec_sub(p3).spec_add(p4).spec_sub(p4).spec_add(p5).spec_sub(p5).spec_sub(p6).spec_add(p7).spec_sub(p8).spec_sub(p9).spec_add(p10).spec_add(p11).spec_sub(p12).spec_add(p9), p7, p6);
    lemma_swap_aa(p1.spec_sub(p1).spec_add(p2).spec_sub(p2).spec_add(p3).spec_sub(p3).spec_add(p4).spec_sub(p4).spec_add(p5).spec_sub(p5).spec_sub(p6).spec_add(p7).spec_sub(p8).spec_sub(p9).spec_add(p10).spec_add(p11).spec_sub(p12), p9, p6);
    lemma_swap_sa(p1.spec_sub(p1).spec_add(p2).spec_sub(p2).spec_add(p3).spec_sub(p3).spec_add(p4).spec_sub(p4).spec_add(p5).spec_sub(p5).spec_sub(p6).spec_add(p7).spec_sub(p8).spec_sub(p9).spec_add(p10).spec_add(p11), p12, p6);
    lemma_swap_aa(p1.spec_sub(p1).spec_add(p2).spec_sub(p2).spec_add(p3).spec_sub(p3).spec_add(p4).spec_sub(p4).spec_add(p5).spec_sub(p5).spec_sub(p6).spec_add(p7).spec_sub(p8).spec_sub(p9).spec_add(p10), p11, p6);
    lemma_swap_aa(p1.spec_sub(p1).spec_add(p2).spec_sub(p2).spec_add(p3).spec_sub(p3).spec_add(p4).spec_sub(p4).spec_add(p5).spec_sub(p5).spec_sub(p6).spec_add(p7).spec_sub(p8).spec_sub(p9), p10, p6);
    lemma_swap_sa(p1.spec_sub(p1).spec_add(p2).spec_sub(p2).spec_add(p3).spec_sub(p3).spec_add(p4).spec_sub(p4).spec_add(p5).spec_sub(p5).spec_sub(p6).spec_add(p7).spec_sub(p8), p9, p6);
    lemma_swap_sa(p1.spec_sub(p1).spec_add(p2).spec_sub(p2).spec_add(p3).spec_sub(p3).spec_add(p4).spec_sub(p4).spec_add(p5).spec_sub(p5).spec_sub(p6).spec_add(p7), p8, p6);
    lemma_swap_aa(p1.spec_sub(p1).spec_add(p2).spec_sub(p2).spec_add(p3).spec_sub(p3).spec_add(p4).spec_sub(p4).spec_add(p5).spec_sub(p5).spec_sub(p6), p7, p6);
    lemma_swap_sa(p1.spec_sub(p1).spec_add(p2).spec_sub(p2).spec_add(p3).spec_sub(p3).spec_add(p4).spec_sub(p4).spec_add(p5).spec_sub(p5), p6, p6);
    lemma_swap_as(p1.spec_sub(p1).spec_add(p2).spec_sub(p2).spec_add(p3).spec_sub(p3).spec_add(p4).spec_sub(p4).spec_add(p5).spec_sub(p5).spec_add(p6).spec_sub(p6).spec_add(p7).spec_sub(p8).spec_sub(p9).spec_add(p10).spec_add(p11).spec_sub(p12), p9, p7);
    lemma_swap_ss(p1.spec_sub(p1).spec_add(p2).spec_sub(p2).spec_add(p3).spec_sub(p3).spec_add(p4).spec_sub(p4).spec_add(p5).spec_sub(p5).spec_add(p6).spec_sub(p6).spec_add(p7).spec_sub(p8).spec_sub(p9).spec_add(p10).spec_add(p11), p12, p7);
    lemma_swap_as(p1.spec_sub(p1).spec_add(p2).spec_sub(p2).spec_add(p3).spec_sub(p3).spec_add(p4).spec_sub(p4).spec_add(p5).spec_sub(p5).spec_add(p6).spec_sub(p6).spec_add(p7).spec_sub(p8).spec_sub(p9).spec_add(p10), p11, p7);
    lemma_swap_as(p1.spec_sub(p1).spec_add(p2).spec_sub(p2).spec_add(p3).spec_sub(p3).spec_add(p4).spec_sub(p4).spec_add(p5).spec_sub(p5).spec_add(p6).spec_sub(p6).spec_add(p7).spec_sub(p8).spec_sub(p9), p10, p7);
    lemma_swap_ss(p1.spec_sub(p1).spec_add(p2).spec_sub(p2).spec_add(p3).spec_sub(p3).spec_add(p4).spec_sub(p4).spec_add(p5).spec_sub(p5).spec_add(p6).spec_sub(p6).spec_add(p7).spec_sub(p8), p9, p7);
    lemma_swap_ss(p1.spec_sub(p1).spec_add(p2).spec_sub(p2).spec_add(p3).spec_sub(p3).spec_add(p4).spec_sub(p4).spec_add(p5).spec_sub(p5).spec_add(p6).spec_sub(p6).spec_add(p7), p8, p7);
    lemma_swap_aa(p1.spec_sub(p1).spec_add(p2).spec_sub(p2).spec_add(p3).spec_sub(p3).spec_add(p4).spec_sub(p4).spec_add(p5).spec_sub(p5).spec_add(p6).spec_sub(p6).spec_add(p7).spec_sub(p7).spec_sub(p8).spec_sub(p9).spec_add(p10).spec_add(p11).spec_sub(p12).spec_add(p9).spec_sub(p10).spec_sub(p11), p12, p8);
    lemma_swap_sa(p1.spec_sub(p1).spec_add(p2).spec_sub(p2).spec_add(p3).spec_sub(p3).spec_add(p4).spec_sub(p4).spec_add(p5).spec_sub(p5).spec_add(p6).spec_sub(p6).spec_add(p7).spec_sub(p7).spec_sub(p8).spec_sub(p9).spec_add(p10).spec_add(p11).spec_sub(p12).spec_add(p9).spec_sub(p10), p11, p8);
    lemma_swap_sa(p1.spec_sub(p1).spec_add(p2).spec_sub(p2).spec_add(p3).spec_sub(p3).spec_add(p4).spec_sub(p4).spec_add(p5).spec_sub(p5).spec_add(p6).spec_sub(p6).spec_add(p7).spec_sub(p7).spec_sub(p8).spec_sub(p9).spec_add(p10).spec_add(p11).spec_sub(p12).spec_add(p9), p10, p8);
    lemma_swap_aa(p1.spec_sub(p1).spec_add(p2).spec_sub(p2).spec_add(p3).spec_sub(p3).spec_add(p4).spec_sub(p4).spec_add(p5).spec_sub(p5).spec_add(p6).spec_sub(p6).spec_add(p7).spec_sub(p7).spec_sub(p8).spec_sub(p9).spec_add(p10).spec_add(p11).spec_sub(p12), p9, p8);
    lemma_swap_sa(p1.spec_sub(p1).spec_add(p2).spec_sub(p2).spec_add(p3).spec_sub(p3).spec_add(p4).spec_sub(p4).spec_add(p5).spec_sub(p5).spec_add(p6).spec_sub(p6).spec_add(p7).spec_sub(p7).spec_sub(p8).spec_sub(p9).spec_add(p10).spec_add(p11), p12, p8);
    lemma_swap_aa(p1.spec_sub(p1).spec_add(p2).spec_sub(p2).spec_add(p3).spec_sub(p3).spec_add(p4).spec_sub(p4).spec_add(p5).spec_sub(p5).spec_add(p6).spec_sub(p6).spec_add(p7).spec_sub(p7).spec_sub(p8).spec_sub(p9).spec_add(p10), p11, p8);
    lemma_swap_aa(p1.spec_sub(p1).spec_add(p2).spec_sub(p2).spec_add(p3).spec_sub(p3).spec_add(p4).spec_sub(p4).spec_add(p5).spec_sub(p5).spec_add(p6).spec_sub(p6).spec_add(p7).spec_sub(p7).spec_sub(p8).spec_sub(p9), p10, p8);
    lemma_swap_sa(p1.spec_sub(p1).spec_add(p2).spec_sub(p2).spec_add(p3).spec_sub(p3).spec_add(p4).spec_sub(p4).spec_add(p5).spec_sub(p5).spec_add(p6).spec_sub(p6).spec_add(p7).spec_sub(p7).spec_sub(p8), p9, p8);
    lemma_swap_sa(p1.spec_sub(p1).spec_add(p2).spec_sub(p2).spec_add(p3).spec_sub(p3).spec_add(p4).spec_sub(p4).spec_add(p5).spec_sub(p5).spec_add(p6).spec_sub(p6).spec_add(p7).spec_sub(p7), p8, p8);
    lemma_swap_sa(p1.spec_sub(p1).spec_add(p2).spec_sub(p2).spec_add(p3).spec_sub(p3).spec_add(p4).spec_sub(p4).spec_add(p5).spec_sub(p5).spec_add(p6).spec_sub(p6).spec_add(p7).spec_sub(p7).spec_add(p8).spec_sub(p8).spec_sub(p9).spec_add(p10).spec_add(p11), p12, p9);
    lemma_swap_aa(p1.spec_sub(p1).spec_add(p2).spec_sub(p2).spec_add(p3).spec_sub(p3).spec_add(p4).spec_sub(p4).spec_add(p5).spec_sub(p5).spec_add(p6).spec_sub(p6).spec_add(p7).spec_sub(p7).spec_add(p8).spec_sub(p8).spec_sub(p9).spec_add(p10), p11, p9);
    lemma_swap_aa(p1.spec_sub(p1).spec_add(p2).spec_sub(p2).spec_add(p3).spec_sub(p3).spec_add(p4).spec_sub(p4).spec_add(p5).spec_sub(p5).spec_add(p6).spec_sub(p6).spec_add(p7).spec_sub(p7).spec_add(p8).spec_sub(p8).spec_sub(p9), p10, p9);
    lemma_swap_sa(p1.spec_sub(p1).spec_add(p2).spec_sub(p2).spec_add(p3).spec_sub(p3).spec_add(p4).spec_sub(p4).spec_add(p5).spec_sub(p5).spec_add(p6).spec_sub(p6).spec_add(p7).spec_sub(p7).spec_add(p8).spec_sub(p8), p9, p9);
    lemma_swap_ss(p1.spec_sub(p1).spec_add(p2).spec_sub(p2).spec_add(p3).spec_sub(p3).spec_add(p4).spec_sub(p4).spec_add(p5).spec_sub(p5).spec_add(p6).spec_sub(p6).spec_add(p7).spec_sub(p7).spec_add(p8).spec_sub(p8).spec_add(p9).spec_sub(p9).spec_add(p10).spec_add(p11), p12, p10);
    lemma_swap_as(p1.spec_sub(p1).spec_add(p2).spec_sub(p2).spec_add(p3).spec_sub(p3).spec_add(p4).spec_sub(p4).spec_add(p5).spec_sub(p5).spec_add(p6).spec_sub(p6).spec_add(p7).spec_sub(p7).spec_add(p8).spec_sub(p8).spec_add(p9).spec_sub(p9).spec_add(p10), p11, p10);
    lemma_swap_ss(p1.spec_sub(p1).spec_add(p2).spec_sub(p2).spec_add(p3).spec_sub(p3).spec_add(p4).spec_sub(p4).spec_add(p5).spec_sub(p5).spec_add(p6).spec_sub(p6).spec_add(p7).spec_sub(p7).spec_add(p8).spec_sub(p8).spec_add(p9).spec_sub(p9).spec_add(p10).spec_sub(p10).spec_add(p11), p12, p11);
    lemma_swap_sa(p1.spec_sub(p1).spec_add(p2).spec_sub(p2).spec_add(p3).spec_sub(p3).spec_add(p4).spec_sub(p4).spec_add(p5).spec_sub(p5).spec_add(p6).spec_sub(p6).spec_add(p7).spec_sub(p7).spec_add(p8).spec_sub(p8).spec_add(p9).spec_sub(p9).spec_add(p10).spec_sub(p10).spec_add(p11).spec_sub(p11), p12, p12);
    lemma_self_cancel(p1);
    lemma_cancel_adj(p1.spec_sub(p1), p2);
    lemma_cancel_adj(p1.spec_sub(p1).spec_add(p2).spec_sub(p2), p3);
    lemma_cancel_adj(p1.spec_sub(p1).spec_add(p2).spec_sub(p2).spec_add(p3).spec_sub(p3), p4);
    lemma_cancel_adj(p1.spec_sub(p1).spec_add(p2).spec_sub(p2).spec_add(p3).spec_sub(p3).spec_add(p4).spec_sub(p4), p5);
    lemma_cancel_adj(p1.spec_sub(p1).spec_add(p2).spec_sub(p2).spec_add(p3).spec_sub(p3).spec_add(p4).spec_sub(p4).spec_add(p5).spec_sub(p5), p6);
    lemma_cancel_adj(p1.spec_sub(p1).spec_add(p2).spec_sub(p2).spec_add(p3).spec_sub(p3).spec_add(p4).spec_sub(p4).spec_add(p5).spec_sub(p5).spec_add(p6).spec_sub(p6), p7);
    lemma_cancel_adj(p1.spec_sub(p1).spec_add(p2).spec_sub(p2).spec_add(p3).spec_sub(p3).spec_add(p4).spec_sub(p4).spec_add(p5).spec_sub(p5).spec_add(p6).spec_sub(p6).spec_add(p7).spec_sub(p7), p8);
    lemma_cancel_adj(p1.spec_sub(p1).spec_add(p2).spec_sub(p2).spec_add(p3).spec_sub(p3).spec_add(p4).spec_sub(p4).spec_add(p5).spec_sub(p5).spec_add(p6).spec_sub(p6).spec_add(p7).spec_sub(p7).spec_add(p8).spec_sub(p8), p9);
    lemma_cancel_adj(p1.spec_sub(p1).spec_add(p2).spec_sub(p2).spec_add(p3).spec_sub(p3).spec_add(p4).spec_sub(p4).spec_add(p5).spec_sub(p5).spec_add(p6).spec_sub(p6).spec_add(p7).spec_sub(p7).spec_add(p8).spec_sub(p8).spec_add(p9).spec_sub(p9), p10);
    lemma_cancel_adj(p1.spec_sub(p1).spec_add(p2).spec_sub(p2).spec_add(p3).spec_sub(p3).spec_add(p4).spec_sub(p4).spec_add(p5).spec_sub(p5).spec_add(p6).spec_sub(p6).spec_add(p7).spec_sub(p7).spec_add(p8).spec_sub(p8).spec_add(p9).spec_sub(p9).spec_add(p10).spec_sub(p10), p11);
    lemma_cancel_adj(p1.spec_sub(p1).spec_add(p2).spec_sub(p2).spec_add(p3).spec_sub(p3).spec_add(p4).spec_sub(p4).spec_add(p5).spec_sub(p5).spec_add(p6).spec_sub(p6).spec_add(p7).spec_sub(p7).spec_add(p8).spec_sub(p8).spec_add(p9).spec_sub(p9).spec_add(p10).spec_sub(p10).spec_add(p11).spec_sub(p11), p12);
}

pub(crate) proof fn lemma_inv_right_entry8<T: Scalar>(a: Seq<T>)
    requires
        a.len() == 16,
        field_sealed::<T>(),
        !det_seq(a).spec_is_zero(),
    ensures
        mul_seq(a, inverse_seq(a))[8] == T::spec_zero(),
{
    lemma_field_gives_ring::<T>();
    let inv = inverse_seq(a);
    let inv_d = T::spec_one().spec_div(det_seq(a));
    let b00 = minor2(a, 0, 5, 1, 4);
    let b01 = minor2(a, 0, 6, 2, 4);
    let b02 = minor2(a, 0, 7, 3, 4);
    let b03 = minor2(a, 1, 6, 2, 5);
    let b04 = minor2(a, 1, 7, 3, 5);
    let b05 = minor2(a, 2, 7, 3, 6);
    let b06 = minor2(a, 8, 13, 9, 12);
    let b07 = minor2(a, 8, 14, 10, 12);
    let b08 = minor2(a, 8, 15, 11, 12);
    let b09 = minor2(a, 9, 14, 10, 13);
    let b10 = minor2(a, 9, 15, 11, 13);
    let b11 = minor2(a, 10, 15, 11, 14);
    assert(mul_seq(a, inv)[8] == inv[8].spec_mul(a[0]).spec_add(inv[9].spec_mul(a[4])).spec_add(inv[10].spec_mul(a[8])).spec_add(inv[11].spec_mul(a[12])));
    assert(inv[8] == a[4].spec_mul(b10).spec_sub(a[5].spec_mul(b08)).spec_add(a[7].spec_mul(b06)).spec_mul(inv_d));
    assert(inv[9] == a[1].spec_mul(b08).spec_sub(a[0].spec_mul(b10)).spec_sub(a[3].spec_mul(b06)).spec_mul(inv_d));
    assert(inv[10] == a[12].spec_mul(b04).spec_sub(a[13].spec_mul(b02)).spec_add(a[15].spec_mul(b00)).spec_mul(inv_d));
    assert(inv[11] == a[9].spec_mul(b02).spec_sub(a[8].spec_mul(b04)).spec_sub(a[11].spec_mul(b00)).spec_mul(inv_d));
    lemma_mul_comm(a[4].spec_mul(b10).spec_sub(a[5].spec_mul(b08)).spec_add(a[7].spec_mul(b06)).spec_mul(inv_d), a[0]);
    lemma_mul_comm(a[1].spec_mul(b08).spec_sub(a[0].spec_mul(b10)).spec_sub(a[3].spec_mul(b06)).spec_mul(inv_d), a[4]);
    lemma_mul_comm(a[12].spec_mul(b04).spec_sub(a[13].spec_mul(b02)).spec_add(a[15].spec_mul(b00)).spec_mul(inv_d), a[8]);
    lemma_mul_comm(a[9].spec_mul(b02).spec_sub(a[8].spec_mul(b04)).spec_sub(a[11].spec_mul(b00)).spec_mul(inv_d), a[12]);
    lemma_mul_assoc(a[0], a[4].spec_mul(b10).spec_sub(a[5].spec_mul(b08)).spec_add(a[7].spec_mul(b06)), inv_d);
    lemma_mul_assoc(a[4], a[1].spec_mul(b08).spec_sub(a[0].spec_mul(b10)).spec_sub(a[3].spec_mul(b06)), inv_d);
    lemma_mul_assoc(a[8], a[12].spec_mul(b04).spec_sub(a[13].spec_mul(b02)).spec_add(a[15].spec_mul(b00)), inv_d);
    lemma_mul_assoc(a[12], a[9].spec_mul(b02).spec_sub(a[8].spec_mul(b04)).spec_sub(a[11].spec_mul(b00)), inv_d);
    lemma_factor4(
        a[0].spec_mul(a[4].spec_mul(b10).spec_sub(a[5].spec_mul(b08)).spec_add(a[7].spec_mul(b06))),
        a[4].spec_mul(a[1].spec_mul(b08).spec_sub(a[0].spec_mul(b10)).spec_sub(a[3].spec_mul(b06))),
        a[8].spec_mul(a[12].spec_mul(b04).spec_sub(a[13].spec_mul(b02)).spec_add(a[15].spec_mul(b00))),
        a[12].spec_mul(a[9].spec_mul(b02).spec_sub(a[8].spec_mul(b04)).spec_sub(a[11].spec_mul(b00))),
        inv_d,
    );
    lemma_distrib3_pmp(a[0], a[4].spec_mul(b10), a[5].spec_mul(b08), a[7].spec_mul(b06));
    lemma_mul_assoc(a[0], a[4], b10);
    lemma_mul_assoc(a[0], a[5], b08);
    lemma_mul_assoc(a[0], a[7], b06);
    lemma_distrib3_pmm(a[4], a[1].spec_mul(b08), a[0].spec_mul(b10), a[3].spec_mul(b06));
    lemma_mul_assoc(a[4], a[1], b08);
    lemma_mul_comm(a[4], a[1]);
    lemma_mul_assoc(a[4], a[0], b10);
    lemma_mul_comm(a[4], a[0]);
    lemma_mul_assoc(a[4], a[3], b06);
    lemma_mul_comm(a[4], a[3]);
    lemma_distrib3_pmp(a[8], a[12].spec_mul(b04), a[13].spec_mul(b02), a[15].spec_mul(b00));
    lemma_mul_assoc(a[8], a[12], b04);
    lemma_mul_assoc(a[8], a[13], b02);
    lemma_mul_assoc(a[8], a[15], b00);
    lemma_distrib3_pmm(a[12], a[9].spec_mul(b02), a[8].spec_mul(b04), a[11].spec_mul(b00));
    lemma_mul_assoc(a[12], a[9], b02);
    lemma_mul_comm(a[12], a[9]);
    lemma_mul_assoc(a[12], a[8], b04);
    lemma_mul_comm(a[12], a[8]);
    lemma_mul_assoc(a[12], a[11], b00);
    lemma_mul_comm(a[12], a[11]);
    lemma_append3_pmm(
        a[0].spec_mul(a[4]).spec_mul(b10).spec_sub(a[0].spec_mul(a[5]).spec_mul(b08)).spec_add(a[0].spec_mul(a[7]).spec_mul(b06)),
        a[1].spec_mul(a[4]).spec_mul(b08),
        a[0].spec_mul(a[4]).spec_mul(b10),
        a[3].spec_mul(a[4]).spec_mul(b06),
    );
    lemma_append3_pmp(
        a[0].spec_mul(a[4]).spec_mul(b10).spec_sub(a[0].spec_mul(a[5]).spec_mul(b08)).spec_add(a[0].spec_mul(a[7]).spec_mul(b06)).spec_add(a[1].spec_mul(a[4]).spec_mul(b08)).spec_sub(a[0].spec_mul(a[4]).spec_mul(b10)).spec_sub(a[3].spec_mul(a[4]).spec_mul(b06)),
        a[8].spec_mul(a[12]).spec_mul(b04),
        a[8].spec_mul(a[13]).spec_mul(b02),
        a[8].spec_mul(a[15]).spec_mul(b00),
    );
    lemma_append3_pmm(
        a[0].spec_mul(a[4]).spec_mul(b10).spec_sub(a[0].spec_mul(a[5]).spec_mul(b08)).spec_add(a[0].spec_mul(a[7]).spec_mul(b06)).spec_add(a[1].spec_mul(a[4]).spec_mul(b08)).spec_sub(a[0].spec_mul(a[4]).spec_mul(b10)).spec_sub(a[3].spec_mul(a[4]).spec_mul(b06)).spec_add(a[8].spec_mul(a[12]).spec_mul(b04)).spec_sub(a[8].spec_mul(a[13]).spec_mul(b02)).spec_add(a[8].spec_mul(a[15]).spec_mul(b00)),
        a[9].spec_mul(a[12]).spec_mul(b02),
        a[8].spec_mul(a[12]).spec_mul(b04),
        a[11].spec_mul(a[12]).spec_mul(b00),
    );
    let c0x4x9x15 = a[0].spec_mul(a[4]).spec_mul(a[9].spec_mul(a[15]));
    let c0x4x11x13 = a[0].spec_mul(a[4]).spec_mul(a[11].spec_mul(a[13]));
    let c0x5x8x15 = a[0].spec_mul(a[5]).spec_mul(a[8].spec_mul(a[15]));
    let c0x5x11x12 = a[0].spec_mul(a[5]).spec_mul(a[11].spec_mul(a[12]));
    let c0x7x8x13 = a[0].spec_mul(a[7]).spec_mul(a[8].spec_mul(a[13]));
    let c0x7x9x12 = a[0].spec_mul(a[7]).spec_mul(a[9].spec_mul(a[12]));
    let c1x4x8x15 = a[1].spec_mul(a[4]).spec_mul(a[8].spec_mul(a[15]));
    let c1x4x11x12 = a[1].spec_mul(a[4]).spec_mul(a[11].spec_mul(a[12]));
    let c3x4x8x13 = a[3].spec_mul(a[4]).spec_mul(a[8].spec_mul(a[13]));
    let c3x4x9x12 = a[3].spec_mul(a[4]).spec_mul(a[9].spec_mul(a[12]));
    let c1x7x8x12 = a[1].spec_mul(a[7]).spec_mul(a[8].spec_mul(a[12]));
    let c3x5x8x12 = a[3].spec_mul(a[5]).spec_mul(a[8].spec_mul(a[12]));
    lemma_distrib2(a[0].spec_mul(a[4]), a[9].spec_mul(a[15]), a[11].spec_mul(a[13]));
    lemma_distrib2(a[0].spec_mul(a[5]), a[8].spec_mul(a[15]), a[11].spec_mul(a[12]));
    lemma_distrib2(a[0].spec_mul(a[7]), a[8].spec_mul(a[13]), a[9].spec_mul(a[12]));
    lemma_distrib2(a[1].spec_mul(a[4]), a[8].spec_mul(a[15]), a[11].spec_mul(a[12]));
    lemma_distrib2(a[0].spec_mul(a[4]), a[9].spec_mul(a[15]), a[11].spec_mul(a[13]));
    lemma_distrib2(a[3].spec_mul(a[4]), a[8].spec_mul(a[13]), a[9].spec_mul(a[12]));
    lemma_distrib2(a[8].spec_mul(a[12]), a[1].spec_mul(a[7]), a[3].spec_mul(a[5]));
    lemma_distrib2(a[8].spec_mul(a[13]), a[0].spec_mul(a[7]), a[3].spec_mul(a[4]));
    lemma_distrib2(a[8].spec_mul(a[15]), a[0].spec_mul(a[5]), a[1].spec_mul(a[4]));
    lemma_distrib2(a[9].spec_mul(a[12]), a[0].spec_mul(a[7]), a[3].spec_mul(a[4]));
    lemma_distrib2(a[8].spec_mul(a[12]), a[1].spec_mul(a[7]), a[3].spec_mul(a[5]));
    lemma_distrib2(a[11].spec_mul(a[12]), a[0].spec_mul(a[5]), a[1].spec_mul(a[4]));
    lemma_mul_comm(a[8].spec_mul(a[12]), a[1].spec_mul(a[7]));
    lemma_mul_comm(a[8].spec_mul(a[12]), a[3].spec_mul(a[5]));
    lemma_mul_comm(a[8].spec_mul(a[13]), a[0].spec_mul(a[7]));
    lemma_mul_comm(a[8].spec_mul(a[13]), a[3].spec_mul(a[4]));
    lemma_mul_comm(a[8].spec_mul(a[15]), a[0].spec_mul(a[5]));
    lemma_mul_comm(a[8].spec_mul(a[15]), a[1].spec_mul(a[4]));
    lemma_mul_comm(a[9].spec_mul(a[12]), a[0].spec_mul(a[7]));
    lemma_mul_comm(a[9].spec_mul(a[12]), a[3].spec_mul(a[4]));
    lemma_mul_comm(a[11].spec_mul(a[12]), a[0].spec_mul(a[5]));
    lemma_mul_comm(a[11].spec_mul(a[12]), a[1].spec_mul(a[4]));
    lemma_append2_neg(
        c0x4x9x15.spec_sub(c0x4x11x13),
        c0x5x8x15,
        c0x5x11x12,
    );
    lemma_append2_pos(
        c0x4x9x15.spec_sub(c0x4x11x13).spec_sub(c0x5x8x15).spec_add(c0x5x11x12),
        c0x7x8x13,
        c0x7x9x12,
    );
    lemma_append2_pos(
        c0x4x9x15.spec_sub(c0x4x11x13).spec_sub(c0x5x8x15).spec_add(c0x5x11x12).spec_add(c0x7x8x13).spec_sub(c0x7x9x12),
        c1x4x8x15,
        c1x4x11x12,
    );
    lemma_append2_neg(
        c0x4x9x15.spec_sub(c0x4x11x13).spec_sub(c0x5x8x15).spec_add(c0x5x11x12).spec_add(c0x7x8x13).spec_sub(c0x7x9x12).spec_add(c1x4x8x15).spec_sub(c1x4x11x12),
        c0x4x9x15,
        c0x4x11x13,
    );
    lemma_append2_neg(
        c0x4x9x15.spec_sub(c0x4x11x13).spec_sub(c0x5x8x15).spec_add(c0x5x11x12).spec_add(c0x7x8x13).spec_sub(c0x7x9x12).spec_add(c1x4x8x15).spec_sub(c1x4x11x12).spec_sub(c0x4x9x15).spec_add(c0x4x11x13),
        c3x4x8x13,
        c3x4x9x12,
    );
    lemma_append2_pos(
        c0x4x9x15.spec_sub(c0x4x11x13).spec_sub(c0x5x8x15).spec_add(c0x5x11x12).spec_add(c0x7x8x13).spec_sub(c0x7x9x12).spec_add(c1x4x8x15).spec_sub(c1x4x11x12).spec_sub(c0x4x9x15).spec_add(c0x4x11x13).spec_sub(c3x4x8x13).spec_add(c3x4x9x12),
        c1x7x8x12,
        c3x5x8x12,
    );
    lemma_append2_neg(
        c0x4x9x15.spec_sub(c0x4x11x13).spec_sub(c0x5x8x15).spec_add(c0x5x11x12).spec_add(c0x7x8x13).spec_sub(c0x7x9x12).spec_add(c1x4x8x15).spec_sub(c1x4x11x12).spec_sub(c0x4x9x15).spec_add(c0x4x11x13).spec_sub(c3x4x8x13).spec_add(c3x4x9x12).spec_add(c1x7x8x12).spec_sub(c3x5x8x12),
        c0x7x8x13,
        c3x4x8x13,
    );
    lemma_append2_pos(
        c0x4x9x15.spec_sub(c0x4x11x13).spec_sub(c0x5x8x15).spec_add(c0x5x11x12).spec_add(c0x7x8x13).spec_sub(c0x7x9x12).spec_add(c1x4x8x15).spec_sub(c1x4x11x12).spec_sub(c0x4x9x15).spec_add(c0x4x11x13).spec_sub(c3x4x8x13).spec_add(c3x4x9x12).spec_add(c1x7x8x12).spec_sub(c3x5x8x12).spec_sub(c0x7x8x13).spec_add(c3x4x8x13),
        c0x5x8x15,
        c1x4x8x15,
    );
    lemma_append2_pos(
        c0x4x9x15.spec_sub(c0x4x11x13).spec_sub(c0x5x8x15).spec_add(c0x5x11x12).spec_add(c0x7x8x13).spec_sub(c0x7x9x12).spec_add(c1x4x8x15).spec_sub(c1x4x11x12).spec_sub(c0x4x9x15).spec_add(c0x4x11x13).spec_sub(c3x4x8x13).spec_add(c3x4x9x12).spec_add(c1x7x8x12).spec_sub(c3x5x8x12).spec_sub(c0x7x8x13).spec_add(c3x4x8x13).spec_add(c0x5x8x15).spec_sub(c1x4x8x15),
        c0x7x9x12,
        c3x4x9x12,
    );
    lemma_append2_neg(
        c0x4x9x15.spec_sub(c0x4x11x13).spec_sub(c0x5x8x15).spec_add(c0x5x11x12).spec_add(c0x7x8x13).spec_sub(c0x7x9x12).spec_add(c1x4x8x15).spec_sub(c1x4x11x12).spec_sub(c0x4x9x15).spec_add(c0x4x11x13).spec_sub(c3x4x8x13).spec_add(c3x4x9x12).spec_add(c1x7x8x12).spec_sub(c3x5x8x12).spec_sub(c0x7x8x13).spec_add(c3x4x8x13).spec_add(c0x5x8x15).spec_sub(c1x4x8x15).spec_add(c0x7x9x12).spec_sub(c3x4x9x12),
        c1x7x8x12,
        c3x5x8x12,
    );
    lemma_append2_neg(
        c0x4x9x15.spec_sub(c0x4x11x13).spec_sub(c0x5x8x15).spec_add(c0x5x11x12).spec_add(c0x7x8x13).spec_sub(c0x7x9x12).spec_add(c1x4x8x15).spec_sub(c1x4x11x12).spec_sub(c0x4x9x15).spec_add(c0x4x11x13).spec_sub(c3x4x8x13).spec_add(c3x4x9x12).spec_add(c1x7x8x12).spec_sub(c3x5x8x12).spec_sub(c0x7x8x13).spec_add(c3x4x8x13).spec_add(c0x5x8x15).spec_sub(c1x4x8x15).spec_add(c0x7x9x12).spec_sub(c3x4x9x12).spec_sub(c1x7x8x12).spec_add(c3x5x8x12),
        c0x5x11x12,
        c1x4x11x12,
    );
    lemma_inv_right_chain8(c0x4x9x15, c0x4x11x13, c0x5x8x15, c0x5x11x12, c0x7x8x13, c0x7x9x12, c1x4x8x15, c1x4x11x12, c3x4x8x13, c3x4x9x12, c1x7x8x12, c3x5x8x12);
    lemma_zero_mul(inv_d);
    assert(mul_seq(a, inv)[8] == T::spec_zero());
}

proof fn lemma_inv_right_chain9<T: Scalar>(p1: T, p2: T, p3: T, p4: T, p5: T, p6: T, p7: T, p8: T, p9: T, p10: T, p11: T, p12: T)
    requires
        laws_sealed::<T>(),
    ensures
        p1.spec_sub(p2).spec_sub(p3).spec_add(p4).spec_add(p5).spec_sub(p6).spec_add(p3).spec_sub(p4).spec_sub(p7).spec_add(p8).spec_sub(p9).spec_add(p10).spec_add(p6).spec_sub(p10).spec_sub(p11).spec_add(p12).spec_add(p7).spec_sub(p1).spec_add(p11).spec_sub(p12).spec_sub(p5).spec_add(p9).spec_sub(p8).spec_add(p2) == T::spec_zero(),
{
    lemma_swap_as(p1.spec_sub(p2).spec_sub(p3).spec_add(p4).spec_add(p5).spec_sub(p6).spec_add(p3).spec_sub(p4).spec_sub(p7).spec_add(p8).spec_sub(p9).spec_add(p10).spec_add(p6).spec_sub(p10).spec_sub(p11).spec_add(p12), p7, p1);
    lemma_swap_as(p1.spec_sub(p2).spec_sub(p3).spec_add(p4).spec_add(p5).spec_sub(p6).spec_add(p3).spec_sub(p4).spec_sub(p7).spec_add(p8).spec_sub(p9).spec_add(p10).spec_add(p6).spec_sub(p10).spec_sub(p11), p12, p1);
    lemma_swap_ss(p1.spec_sub(p2).spec_sub(p3).spec_add(p4).spec_add(p5).spec_sub(p6).spec_add(p3).spec_sub(p4).spec_sub(p7).spec_add(p8).spec_sub(p9).spec_add(p10).spec_add(p6).spec_sub(p10), p11, p1);
    lemma_swap_ss(p1.spec_sub(p2).spec_sub(p3).spec_add(p4).spec_add(p5).spec_sub(p6).spec_add(p3).spec_sub(p4).spec_sub(p7).spec_add(p8).spec_sub(p9).spec_add(p10).spec_add(p6), p10, p1);
    lemma_swap_as(p1.spec_sub(p2).spec_sub(p3).spec_add(p4).spec_add(p5).spec_sub(p6).spec_add(p3).spec_sub(p4).spec_sub(p7).spec_add(p8).spec_sub(p9).spec_add(p10), p6, p1);
    lemma_swap_as(p1.spec_sub(p2).spec_sub(p3).spec_add(p4).spec_add(p5).spec_sub(p6).spec_add(p3).spec_sub(p4).spec_sub(p7).spec_add(p8).spec_sub(p9), p10, p1);
    lemma_swap_ss(p1.spec_sub(p2).spec_sub(p3).spec_add(p4).spec_add(p5).spec_sub(p6).spec_add(p3).spec_sub(p4).spec_sub(p7).spec_add(p8), p9, p1);
    lemma_swap_as(p1.spec_sub(p2).spec_sub(p3).spec_add(p4).spec_add(p5).spec_sub(p6).spec_add(p3).spec_sub(p4).spec_sub(p7), p8, p1);
    lemma_swap_ss(p1.spec_sub(p2).spec_sub(p3).spec_add(p4).spec_add(p5).spec_sub(p6).spec_add(p3).spec_sub(p4), p7, p1);
    lemma_swap_ss(p1.spec_sub(p2).spec_sub(p3).spec_add(p4).spec_add(p5).spec_sub(p6).spec_add(p3), p4, p1);
    lemma_swap_as(p1.spec_sub(p2).spec_sub(p3).spec_add(p4).spec_add(p5).spec_sub(p6), p3, p1);
    lemma_swap_ss(p1.spec_sub(p2).spec_sub(p3).spec_add(p4).spec_add(p5), p6, p1);
    lemma_swap_as(p1.spec_sub(p2).spec_sub(p3).spec_add(p4), p5, p1);
    lemma_swap_as(p1.spec_sub(p2).spec_sub(p3), p4, p1);
    lemma_swap_ss(p1.spec_sub(p2), p3, p1);
    lemma_swap_ss(p1, p2, p1);
    lemma_swap_sa(p1.spec_sub(p1).spec_sub(p2).spec_sub(p3).spec_add(p4).spec_add(p5).spec_sub(p6).spec_add(p3).spec_sub(p4).spec_sub(p7).spec_add(p8).spec_sub(p9).spec_add(p10).spec_add(p6).spec_sub(p10).spec_sub(p11).spec_add(p12).spec_add(p7).spec_add(p11).spec_sub(p12).spec_sub(p5).spec_add(p9), p8, p2);
    lemma_swap_aa(p1.spec_sub(p1).spec_sub(p2).spec_sub(p3).spec_add(p4).spec_add(p5).spec_sub(p6).spec_add(p3).spec_sub(p4).spec_sub(p7).spec_add(p8).spec_sub(p9).spec_add(p10).spec_add(p6).spec_sub(p10).spec_sub(p11).spec_add(p12).spec_add(p7).spec_add(p11).spec_sub(p12).spec_sub(p5), p9, p2);
    lemma_swap_sa(p1.spec_sub(p1).spec_sub(p2).spec_sub(p3).spec_add(p4).spec_add(p5).spec_sub(p6).spec_add(p3).spec_sub(p4).spec_sub(p7).spec_add(p8).spec_sub(p9).spec_add(p10).spec_add(p6).spec_sub(p10).spec_sub(p11).spec_add(p12).spec_add(p7).spec_add(p11).spec_sub(p12), p5, p2);
    lemma_swap_sa(p1.spec_sub(p1).spec_sub(p2).spec_sub(p3).spec_add(p4).spec_add(p5).spec_sub(p6).spec_add(p3).spec_sub(p4).spec_sub(p7).spec_add(p8).spec_sub(p9).spec_add(p10).spec_add(p6).spec_sub(p10).spec_sub(p11).spec_add(p12).spec_add(p7).spec_add(p11), p12, p2);
    lemma_swap_aa(p1.spec_sub(p1).spec_sub(p2).spec_sub(p3).spec_add(p4).spec_add(p5).spec_sub(p6).spec_add(p3).spec_sub(p4).spec_sub(p7).spec_add(p8).spec_sub(p9).spec_add(p10).spec_add(p6).spec_sub(p10).spec_sub(p11).spec_add(p12).spec_add(p7), p11, p2);
    lemma_swap_aa(p1.spec_sub(p1).spec_sub(p2).spec_sub(p3).spec_add(p4).spec_add(p5).spec_sub(p6).spec_add(p3).spec_sub(p4).spec_sub(p7).spec_add(p8).spec_sub(p9).spec_add(p10).spec_add(p6).spec_sub(p10).spec_sub(p11).spec_add(p12), p7, p2);
    lemma_swap_aa(p1.spec_sub(p1).spec_sub(p2).spec_sub(p3).spec_add(p4).spec_add(p5).spec_sub(p6).spec_add(p3).spec_sub(p4).spec_sub(p7).spec_add(p8).spec_sub(p9).spec_add(p10).spec_add(p6).spec_sub(p10).spec_sub(p11), p12, p2);
    lemma_swap_sa(p1.spec_sub(p1).spec_sub(p2).spec_sub(p3).spec_add(p4).spec_add(p5).spec_sub(p6).spec_add(p3).spec_sub(p4).spec_sub(p7).spec_add(p8).spec_sub(p9).spec_add(p10).spec_add(p6).spec_sub(p10), p11, p2);
    lemma_swap_sa(p1.spec_sub(p1).spec_sub(p2).spec_sub(p3).spec_add(p4).spec_add(p5).spec_sub(p6).spec_add(p3).spec_sub(p4).spec_sub(p7).spec_add(p8).spec_sub(p9).spec_add(p10).spec_add(p6), p10, p2);
    lemma_swap_aa(p1.spec_sub(p1).spec_sub(p2).spec_sub(p3).spec_add(p4).spec_add(p5).spec_sub(p6).spec_add(p3).spec_sub(p4).spec_sub(p7).spec_add(p8).spec_sub(p9).spec_add(p10), p6, p2);
    lemma_swap_aa(p1.spec_sub(p1).spec_sub(p2).spec_sub(p3).spec_add(p4).spec_add(p5).spec_sub(p6).spec_add(p3).spec_sub(p4).spec_sub(p7).spec_add(p8).spec_sub(p9), p10, p2);
    lemma_swap_sa(p1.spec_sub(p1).spec_sub(p2).spec_sub(p3).spec_add(p4).spec_add(p5).spec_sub(p6).spec_add(p3).spec_sub(p4).spec_sub(p7).spec_add(p8), p9, p2);
    lemma_swap_aa(p1.spec_sub(p1).spec_sub(p2).spec_sub(p3).spec_add(p4).spec_add(p5).spec_sub(p6).spec_add(p3).spec_sub(p4).spec_sub(p7), p8, p2);
    lemma_swap_sa(p1.spec_sub(p1).spec_sub(p2).spec_sub(p3).spec_add(p4).spec_add(p5).spec_sub(p6).spec_add(p3).spec_sub(p4), p7, p2);
    lemma_swap_sa(p1.spec_sub(p1).spec_sub(p2).spec_sub(p3).spec_add(p4).spec_add(p5).spec_sub(p6).spec_add(p3), p4, p2);
    lemma_swap_aa(p1.spec_sub(p1).spec_sub(p2).spec_sub(p3).spec_add(p4).spec_add(p5).spec_sub(p6), p3, p2);
    lemma_swap_sa(p1.spec_sub(p1).spec_sub(p2).spec_sub(p3).spec_add(p4).spec_add(p5), p6, p2);
    lemma_swap_aa(p1.spec_sub(p1).spec_sub(p2).spec_sub(p3).spec_add(p4), p5, p2);
    lemma_swap_aa(p1.spec_sub(p1).spec_sub(p2).spec_sub(p3), p4, p2);
    lemma_swap_sa(p1.spec_sub(p1).spec_sub(p2), p3, p2);
    lemma_swap_sa(p1.spec_sub(p1), p2, p2);
    lemma_swap_sa(p1.spec_sub(p1).spec_add(p2).spec_sub(p2).spec_sub(p3).spec_add(p4).spec_add(p5), p6, p3);
    lemma_swap_aa(p1.spec_sub(p1).spec_add(p2).spec_sub(p2).spec_sub(p3).spec_add(p4), p5, p3);
    lemma_swap_aa(p1.spec_sub(p1).spec_add(p2).spec_sub(p2).spec_sub(p3), p4, p3);
    lemma_swap_sa(p1.spec_sub(p1).spec_add(p2).spec_sub(p2), p3, p3);
    lemma_swap_ss(p1.spec_sub(p1).spec_add(p2).spec_sub(p2).spec_add(p3).spec_sub(p3).spec_add(p4).spec_add(p5), p6, p4);
    lemma_swap_as(p1.spec_sub(p1).spec_add(p2).spec_sub(p2).spec_add(p3).spec_sub(p3).spec_add(p4), p5, p4);
    lemma_swap_ss(p1.spec_sub(p1).spec_add(p2).spec_sub(p2).spec_add(p3).spec_sub(p3).spec_add(p4).spec_sub(p4).spec_add(p5).spec_sub(p6).spec_sub(p7).spec_add(p8).spec_sub(p9).spec_add(p10).spec_add(p6).spec_sub(p10).spec_sub(p11).spec_add(p12).spec_add(p7).spec_add(p11), p12, p5);
    lemma_swap_as(p1.spec_sub(p1).spec_add(p2).spec_sub(p2).spec_add(p3).spec_sub(p3).spec_add(p4).spec_sub(p4).spec_add(p5).spec_sub(p6).spec_sub(p7).spec_add(p8).spec_sub(p9).spec_add(p10).spec_add(p6).spec_sub(p10).spec_sub(p11).spec_add(p12).spec_add(p7), p11, p5);
    lemma_swap_as(p1.spec_sub(p1).spec_add(p2).spec_sub(p2).spec_add(p3).spec_sub(p3).spec_add(p4).spec_sub(p4).spec_add(p5).spec_sub(p6).spec_sub(p7).spec_add(p8).spec_sub(p9).spec_add(p10).spec_add(p6).spec_sub(p10).spec_sub(p11).spec_add(p12), p7, p5);
    lemma_swap_as(p1.spec_sub(p1).spec_add(p2).spec_sub(p2).spec_add(p3).spec_sub(p3).spec_add(p4).spec_sub(p4).spec_add(p5).spec_sub(p6).spec_sub(p7).spec_add(p8).spec_sub(p9).spec_add(p10).spec_add(p6).spec_sub(p10).spec_sub(p11), p12, p5);
    lemma_swap_ss(p1.spec_sub(p1).spec_add(p2).spec_sub(p2).spec_add(p3).spec_sub(p3).spec_add(p4).spec_sub(p4).spec_add(p5).spec_sub(p6).spec_sub(p7).spec_add(p8).spec_sub(p9).spec_add(p10).spec_add(p6).spec_sub(p10), p11, p5);
    lemma_swap_ss(p1.spec_sub(p1).spec_add(p2).spec_sub(p2).spec_add(p3).spec_sub(p3).spec_add(p4).spec_sub(p4).spec_add(p5).spec_sub(p6).spec_sub(p7).spec_add(p8).spec_sub(p9).spec_add(p10).spec_add(p6), p10, p5);
    lemma_swap_as(p1.spec_sub(p1).spec_add(p2).spec_sub(p2).spec_add(p3).spec_sub(p3).spec_add(p4).spec_sub(p4).spec_add(p5).spec_sub(p6).spec_sub(p7).spec_add(p8).spec_sub(p9).spec_add(p10), p6, p5);
    lemma_swap_as(p1.spec_sub(p1).spec_add(p2).spec_sub(p2).spec_add(p3).spec_sub(p3).spec_add(p4).spec_sub(p4).spec_add(p5).spec_sub(p6).spec_sub(p7).spec_add(p8).spec_sub(p9), p10, p5);
    lemma_swap_ss(p1.spec_sub(p1).spec_add(p2).spec_sub(p2).spec_add(p3).spec_sub(p3).spec_add(p4).spec_sub(p4).spec_add(p5).spec_sub(p6).spec_sub(p7).spec_add(p8), p9, p5);
    lemma_swap_as(p1.spec_sub(p1).spec_add(p2).spec_sub(p2).spec_add(p3).spec_sub(p3).spec_add(p4).spec_sub(p4).spec_add(p5).spec_sub(p6).spec_sub(p7), p8, p5);
    lemma_swap_ss(p1.spec_sub(p1).spec_add(p2).spec_sub(p2).spec_add(p3).spec_sub(p3).spec_add(p4).spec_sub(p4).spec_add(p5).spec_sub(p6), p7, p5);
    lemma_swap_ss(p1.spec_sub(p1).spec_add(p2).spec_sub(p2).spec_add(p3).spec_sub(p3).spec_add(p4).spec_sub(p4).spec_add(p5), p6, p5);
    lemma_swap_aa(p1.spec_sub(p1).spec_add(p2).spec_sub(p2).spec_add(p3).spec_sub(p3).spec_add(p4).spec_sub(p4).spec_add(p5).spec_sub(p5).spec_sub(p6).spec_sub(p7).spec_add(p8).spec_sub(p9), p10, p6);
    lemma_swap_sa(p1.spec_sub(p1).spec_add(p2).spec_sub(p2).spec_add(p3).spec_sub(p3).spec_add(p4).spec_sub(p4).spec_add(p5).spec_sub(p5).spec_sub(p6).spec_sub(p7).spec_add(p8), p9, p6);
    lemma_swap_aa(p1.spec_sub(p1).spec_add(p2).spec_sub(p2).spec_add(p3).spec_sub(p3).spec_add(p4).spec_sub(p4).spec_add(p5).spec_sub(p5).spec_sub(p6).spec_sub(p7), p8, p6);
    lemma_swap_sa(p1.spec_sub(p1).spec_add(p2).spec_sub(p2).spec_add(p3).spec_sub(p3).spec_add(p4).spec_sub(p4).spec_add(p5).spec_sub(p5).spec_sub(p6), p7, p6);
    lemma_swap_sa(p1.spec_sub(p1).spec_add(p2).spec_sub(p2).spec_add(p3).spec_sub(p3).spec_add(p4).spec_sub(p4).spec_add(p5).spec_sub(p5), p6, p6);
    lemma_swap_aa(p1.spec_sub(p1).spec_add(p2).spec_sub(p2).spec_add(p3).spec_sub(p3).spec_add(p4).spec_sub(p4).spec_add(p5).spec_sub(p5).spec_add(p6).spec_sub(p6).spec_sub(p7).spec_add(p8).spec_sub(p9).spec_add(p10).spec_sub(p10).spec_sub(p11), p12, p7);
    lemma_swap_sa(p1.spec_sub(p1).spec_add(p2).spec_sub(p2).spec_add(p3).spec_sub(p3).spec_add(p4).spec_sub(p4).spec_add(p5).spec_sub(p5).spec_add(p6).spec_sub(p6).spec_sub(p7).spec_add(p8).spec_sub(p9).spec_add(p10).spec_sub(p10), p11, p7);
    lemma_swap_sa(p1.spec_sub(p1).spec_add(p2).spec_sub(p2).spec_add(p3).spec_sub(p3).spec_add(p4).spec_sub(p4).spec_add(p5).spec_sub(p5).spec_add(p6).spec_sub(p6).spec_sub(p7).spec_add(p8).spec_sub(p9).spec_add(p10), p10, p7);
    lemma_swap_aa(p1.spec_sub(p1).spec_add(p2).spec_sub(p2).spec_add(p3).spec_sub(p3).spec_add(p4).spec_sub(p4).spec_add(p5).spec_sub(p5).spec_add(p6).spec_sub(p6).spec_sub(p7).spec_add(p8).spec_sub(p9), p10, p7);
    lemma_swap_sa(p1.spec_sub(p1).spec_add(p2).spec_sub(p2).spec_add(p3).spec_sub(p3).spec_add(p4).spec_sub(p4).spec_add(p5).spec_sub(p5).spec_add(p6).spec_sub(p6).spec_sub(p7).spec_add(p8), p9, p7);
    lemma_swap_aa(p1.spec_sub(p1).spec_add(p2).spec_sub(p2).spec_add(p3).spec_sub(p3).spec_add(p4).spec_sub(p4).spec_add(p5).spec_sub(p5).spec_add(p6).spec_sub(p6).spec_sub(p7), p8, p7);
    lemma_swap_sa(p1.spec_sub(p1).spec_add(p2).spec_sub(p2).spec_add(p3).spec_sub(p3).spec_add(p4).spec_sub(p4).spec_add(p5).spec_sub(p5).spec_add(p6).spec_sub(p6), p7, p7);
    lemma_swap_as(p1.spec_sub(p1).spec_add(p2).spec_sub(p2).spec_add(p3).spec_sub(p3).spec_add(p4).spec_sub(p4).spec_add(p5).spec_sub(p5).spec_add(p6).spec_sub(p6).spec_add(p7).spec_sub(p7).spec_add(p8).spec_sub(p9).spec_add(p10).spec_sub(p10).spec_sub(p11).spec_add(p12).spec_add(p11).spec_sub(p12), p9, p8);
    lemma_swap_ss(p1.spec_sub(p1).spec_add(p2).spec_sub(p2).spec_add(p3).spec_sub(p3).spec_add(p4).spec_sub(p4).spec_add(p5).spec_sub(p5).spec_add(p6).spec_sub(p6).spec_add(p7).spec_sub(p7).spec_add(p8).spec_sub(p9).spec_add(p10).spec_sub(p10).spec_sub(p11).spec_add(p12).spec_add(p11), p12, p8);
    lemma_swap_as(p1.spec_sub(p1).spec_add(p2).spec_sub(p2).spec_add(p3).spec_sub(p3).spec_add(p4).spec_sub(p4).spec_add(p5).spec_sub(p5).spec_add(p6).spec_sub(p6).spec_add(p7).spec_sub(p7).spec_add(p8).spec_sub(p9).spec_add(p10).spec_sub(p10).spec_sub(p11).spec_add(p12), p11, p8);
    lemma_swap_as(p1.spec_sub(p1).spec_add(p2).spec_sub(p2).spec_add(p3).spec_sub(p3).spec_add(p4).spec_sub(p4).spec_add(p5).spec_sub(p5).spec_add(p6).spec_sub(p6).spec_add(p7).spec_sub(p7).spec_add(p8).spec_sub(p9).spec_add(p10).spec_sub(p10).spec_sub(p11), p12, p8);
    lemma_swap_ss(p1.spec_sub(p1).spec_add(p2).spec_sub(p2).spec_add(p3).spec_sub(p3).spec_add(p4).spec_sub(p4).spec_add(p5).spec_sub(p5).spec_add(p6).spec_sub(p6).spec_add(p7).spec_sub(p7).spec_add(p8).spec_sub(p9).spec_add(p10).spec_sub(p10), p11, p8);
    lemma_swap_ss(p1.spec_sub(p1).spec_add(p2).spec_sub(p2).spec_add(p3).spec_sub(p3).spec_add(p4).spec_sub(p4).spec_add(p5).spec_sub(p5).spec_add(p6).spec_sub(p6).spec_add(p7).spec_sub(p7).spec_add(p8).spec_sub(p9).spec_add(p10), p10, p8);
    lemma_swap_as(p1.spec_sub(p1).spec_add(p2).spec_sub(p2).spec_add(p3).spec_sub(p3).spec_add(p4).spec_sub(p4).spec_add(p5).spec_sub(p5).spec_add(p6).spec_sub(p6).spec_add(p7).spec_sub(p7).spec_add(p8).spec_sub(p9), p10, p8);
    lemma_swap_ss(p1.spec_sub(p1).spec_add(p2).spec_sub(p2).spec_add(p3).spec_sub(p3).spec_add(p4).spec_sub(p4).spec_add(p5).spec_sub(p5).spec_add(p6).spec_sub(p6).spec_add(p7).spec_sub(p7).spec_add(p8), p9, p8);
    lemma_swap_sa(p1.spec_sub(p1).spec_add(p2).spec_sub(p2).spec_add(p3).spec_sub(p3).spec_add(p4).spec_sub(p4).spec_add(p5).spec_sub(p5).spec_add(p6).spec_sub(p6).spec_add(p7).spec_sub(p7).spec_add(p8).spec_sub(p8).spec_sub(p9).spec_add(p10).spec_sub(p10).spec_sub(p11).spec_add(p12).spec_add(p11), p12, p9);
    lemma_swap_aa(p1.spec_sub(p1).spec_add(p2).spec_sub(p2).spec_add(p3).spec_sub(p3).spec_add(p4).spec_sub(p4).spec_add(p5).spec_sub(p5).spec_add(p6).spec_sub(p6).spec_add(p7).spec_sub(p7).spec_add(p8).spec_sub(p8).spec_sub(p9).spec_add(p10).spec_sub(p10).spec_sub(p11).spec_add(p12), p11, p9);
    lemma_swap_aa(p1.spec_sub(p1).spec_add(p2).spec_sub(p2).spec_add(p3).spec_sub(p3).spec_add(p4).spec_sub(p4).spec_add(p5).spec_sub(p5).spec_add(p6).spec_sub(p6).spec_add(p7).spec_sub(p7).spec_add(p8).spec_sub(p8).spec_sub(p9).spec_add(p10).spec_sub(p10).spec_sub(p11), p12, p9);
    lemma_swap_sa(p1.spec_sub(p1).spec_add(p2).spec_sub(p2).spec_add(p3).spec_sub(p3).spec_add(p4).spec_sub(p4).spec_add(p5).spec_sub(p5).spec_add(p6).spec_sub(p6).spec_add(p7).spec_sub(p7).spec_add(p8).spec_sub(p8).spec_sub(p9).spec_add(p10).spec_sub(p10), p11, p9);
    lemma_swap_sa(p1.spec_sub(p1).spec_add(p2).spec_sub(p2).spec_add(p3).spec_sub(p3).spec_add(p4).spec_sub(p4).spec_add(p5).spec_sub(p5).spec_add(p6).spec_sub(p6).spec_add(p7).spec_sub(p7).spec_add(p8).spec_sub(p8).spec_sub(p9).spec_add(p10), p10, p9);
    lemma_swap_aa(p1.spec_sub(p1).spec_add(p2).spec_sub(p2).spec_add(p3).spec_sub(p3).spec_add(p4).spec_sub(p4).spec_add(p5).spec_sub(p5).spec_add(p6).spec_sub(p6).spec_add(p7).spec_sub(p7).spec_add(p8).spec_sub(p8).spec_sub(p9), p10, p9);
    lemma_swap_sa(p1.spec_sub(p1).spec_add(p2).spec_sub(p2).spec_add(p3).spec_sub(p3).spec_add(p4).spec_sub(p4).spec_add(p5).spec_sub(p5).spec_add(p6).spec_sub(p6).spec_add(p7).spec_sub(p7).spec_add(p8).spec_sub(p8), p9, p9);
    lemma_swap_aa(p1.spec_sub(p1).spec_add(p2).spec_sub(p2).spec_add(p3).spec_sub(p3).spec_add(p4).spec_sub(p4).spec_add(p5).spec_sub(p5).spec_add(p6).spec_sub(p6).spec_add(p7).spec_sub(p7).spec_add(p8).spec_sub(p8).spec_add(p9).spec_sub(p9).spec_add(p10).spec_sub(p10).spec_sub(p11), p12, p11);
    lemma_swap_sa(p1.spec_sub(p1).spec_add(p2).spec_sub(p2).spec_add(p3).spec_sub(p3).spec_add(p4).spec_sub(p4).spec_add(p5).spec_sub(p5).spec_add(p6).spec_sub(p6).spec_add(p7).spec_sub(p7).spec_add(p8).spec_sub(p8).spec_add(p9).spec_sub(p9).spec_add(p10).spec_sub(p10), p11, p11);
    lemma_self_cancel(p1);
    lemma_cancel_adj(p1.spec_sub(p1), p2);
    lemma_cancel_adj(p1.spec_sub(p1).spec_add(p2).spec_sub(p2), p3);
    lemma_cancel_adj(p1.spec_sub(p1).spec_add(p2).spec_sub(p2).spec_add(p3).spec_sub(p3), p4);
    lemma_cancel_adj(p1.spec_sub(p1).spec_add(p2).spec_sub(p2).spec_add(p3).spec_sub(p3).spec_add(p4).spec_sub(p4), p5);
    lemma_cancel_adj(p1.spec_sub(p1).spec_add(p2).spec_sub(p2).spec_add(p3).spec_sub(p3).spec_add(p4).spec_sub(p4).spec_add(p5).spec_sub(p5), p6);
    lemma_cancel_adj(p1.spec_sub(p1).spec_add(p2).spec_sub(p2).spec_add(p3).spec_sub(p3).spec_add(p4).spec_sub(p4).spec_add(p5).spec_sub(p5).spec_add(p6).spec_sub(p6), p7);
    lemma_cancel_adj(p1.spec_sub(p1).spec_add(p2).spec_sub(p2).spec_add(p3).spec_sub(p3).spec_add(p4).spec_sub(p4).spec_add(p5).spec_sub(p5).spec_add(p6).spec_sub(p6).spec_add(p7).spec_sub(p7), p8);
    lemma_cancel_adj(p1.spec_sub(p1).spec_add(p2).spec_sub(p2).spec_add(p3).spec_sub(p3).spec_add(p4).spec_sub(p4).spec_add(p5).spec_sub(p5).spec_add(p6).spec_sub(p6).spec_add(p7).spec_sub(p7).spec_add(p8).spec_sub(p8), p9);
    lemma_cancel_adj(p1.spec_sub(p1).spec_add(p2).spec_sub(p2).spec_add(p3).spec_sub(p3).spec_add(p4).spec_sub(p4).spec_add(p5).spec_sub(p5).spec_add(p6).spec_sub(p6).spec_add(p7).spec_sub(p7).spec_add(p8).spec_sub(p8).spec_add(p9).spec_sub(p9), p10);
    lemma_cancel_adj(p1.spec_sub(p1).spec_add(p2).spec_sub(p2).spec_add(p3).spec_sub(p3).spec_add(p4).spec_sub(p4).spec_add(p5).spec_sub(p5).spec_add(p6).spec_sub(p6).spec_add(p7).spec_sub(p7).spec_add(p8).spec_sub(p8).spec_add(p9).spec_sub(p9).spec_add(p10).spec_sub(p10), p11);
    lemma_cancel_adj(p1.spec_sub(p1).spec_add(p2).spec_sub(p2).spec_add(p3).spec_sub(p3).spec_add(p4).spec_sub(p4).spec_add(p5).spec_sub(p5).spec_add(p6).spec_sub(p6).spec_add(p7).spec_sub(p7).spec_add(p8).spec_sub(p8).spec_add(p9).spec_sub(p9).spec_add(p10).spec_sub(p10).spec_add(p11).spec_sub(p11), p12);
}

pub(crate) proof fn lemma_inv_right_entry9<T: Scalar>(a: Seq<T>)
    requires
        a.len() == 16,
        field_sealed::<T>(),
        !det_seq(a).spec_is_zero(),
    ensures
        mul_seq(a, inverse_seq(a))[9] == T::spec_zero(),
{
    lemma_field_gives_ring::<T>();
    let inv = inverse_seq(a);
    let inv_d = T::spec_one().spec_div(det_seq(a));
    let b00 = minor2(a, 0, 5, 1, 4);
    let b01 = minor2(a, 0, 6, 2, 4);
    let b02 = minor2(a, 0, 7, 3, 4);
    let b03 = minor2(a, 1, 6, 2, 5);
    let b04 = minor2(a, 1, 7, 3, 5);
    let b05 = minor2(a, 2, 7, 3, 6);
    let b06 = minor2(a, 8, 13, 9, 12);
    let b07 = minor2(a, 8, 14, 10, 12);
    let b08 = minor2(a, 8, 15, 11, 12);
    let b09 = minor2(a, 9, 14, 10, 13);
    let b10 = minor2(a, 9, 15, 11, 13);
    let b11 = minor2(a, 10, 15, 11, 14);
    assert(mul_seq(a, inv)[9] == inv[8].spec_mul(a[1]).spec_add(inv[9].spec_mul(a[5])).spec_add(inv[10].spec_mul(a[9])).spec_add(inv[11].spec_mul(a[13])));
    assert(inv[8] == a[4].spec_mul(b10).spec_sub(a[5].spec_mul(b08)).spec_add(a[7].spec_mul(b06)).spec_mul(inv_d));
    assert(inv[9] == a[1].spec_mul(b08).spec_sub(a[0].spec_mul(b10)).spec_sub(a[3].spec_mul(b06)).spec_mul(inv_d));
    assert(inv[10] == a[12].spec_mul(b04).spec_sub(a[13].spec_mul(b02)).spec_add(a[15].spec_mul(b00)).spec_mul(inv_d));
    assert(inv[11] == a[9].spec_mul(b02).spec_sub(a[8].spec_mul(b04)).spec_sub(a[11].spec_mul(b00)).spec_mul(inv_d));
    lemma_mul_comm(a[4].spec_mul(b10).spec_sub(a[5].spec_mul(b08)).spec_add(a[7].spec_mul(b06)).spec_mul(inv_d), a[1]);
    lemma_mul_comm(a[1].spec_mul(b08).spec_sub(a[0].spec_mul(b10)).spec_sub(a[3].spec_mul(b06)).spec_mul(inv_d), a[5]);
    lemma_mul_comm(a[12].spec_mul(b04).spec_sub(a[13].spec_mul(b02)).spec_add(a[15].spec_mul(b00)).spec_mul(inv_d), a[9]);
    lemma_mul_comm(a[9].spec_mul(b02).spec_sub(a[8].spec_mul(b04)).spec_sub(a[11].spec_mul(b00)).spec_mul(inv_d), a[13]);
    lemma_mul_assoc(a[1], a[4].spec_mul(b10).spec_sub(a[5].spec_mul(b08)).spec_add(a[7].spec_mul(b06)), inv_d);
    lemma_mul_assoc(a[5], a[1].spec_mul(b08).spec_sub(a[0].spec_mul(b10)).spec_sub(a[3].spec_mul(b06)), inv_d);
    lemma_mul_assoc(a[9], a[12].spec_mul(b04).spec_sub(a[13].spec_mul(b02)).spec_add(a[15].spec_mul(b00)), inv_d);
    lemma_mul_assoc(a[13], a[9].spec_mul(b02).spec_sub(a[8].spec_mul(b04)).spec_sub(a[11].spec_mul(b00)), inv_d);
    lemma_factor4(
        a[1].spec_mul(a[4].spec_mul(b10).spec_sub(a[5].spec_mul(b08)).spec_add(a[7].spec_mul(b06))),
        a[5].spec_mul(a[1].spec_mul(b08).spec_sub(a[0].spec_mul(b10)).spec_sub(a[3].spec_mul(b06))),
        a[9].spec_mul(a[12].spec_mul(b04).spec_sub(a[13].spec_mul(b02)).spec_add(a[15].spec_mul(b00))),
        a[13].spec_mul(a[9].spec_mul(b02).spec_sub(a[8].spec_mul(b04)).spec_sub(a[11].spec_mul(b00))),
        inv_d,
    );
    lemma_distrib3_pmp(a[1], a[4].spec_mul(b10), a[5].spec_mul(b08), a[7].spec_mul(b06));
    lemma_mul_assoc(a[1], a[4], b10);
    lemma_mul_assoc(a[1], a[5], b08);
    lemma_mul_assoc(a[1], a[7], b06);
    lemma_distrib3_pmm(a[5], a[1].spec_mul(b08), a[0].spec_mul(b10), a[3].spec_mul(b06));
    lemma_mul_assoc(a[5], a[1], b08);
    lemma_mul_comm(a[5], a[1]);
    lemma_mul_assoc(a[5], a[0], b10);
    lemma_mul_comm(a[5], a[0]);
    lemma_mul_assoc(a[5], a[3], b06);
    lemma_mul_comm(a[5], a[3]);
    lemma_distrib3_pmp(a[9], a[12].spec_mul(b04), a[13].spec_mul(b02), a[15].spec_mul(b00));
    lemma_mul_assoc(a[9], a[12], b04);
    lemma_mul_assoc(a[9], a[13], b02);
    lemma_mul_assoc(a[9], a[15], b00);
    lemma_distrib3_pmm(a[13], a[9].spec_mul(b02), a[8].spec_mul(b04), a[11].spec_mul(b00));
    lemma_mul_assoc(a[13], a[9], b02);
    lemma_mul_comm(a[13], a[9]);
    lemma_mul_assoc(a[13], a[8], b04);
    lemma_mul_comm(a[13], a[8]);
    lemma_mul_assoc(a[13], a[11], b00);
    lemma_mul_comm(a[13], a[11]);
    lemma_append3_pmm(
        a[1].spec_mul(a[4]).spec_mul(b10).spec_sub(a[1].spec_mul(a[5]).spec_mul(b08)).spec_add(a[1].spec_mul(a[7]).spec_mul(b06)),
        a[1].spec_mul(a[5]).spec_mul(b08),
        a[0].spec_mul(a[5]).spec_mul(b10),
        a[3].spec_mul(a[5]).spec_mul(b06),
    );
    lemma_append3_pmp(
        a[1].spec_mul(a[4]).spec_mul(b10).spec_sub(a[1].spec_mul(a[5]).spec_mul(b08)).spec_add(a[1].spec_mul(a[7]).spec_mul(b06)).spec_add(a[1].spec_mul(a[5]).spec_mul(b08)).spec_sub(a[0].spec_mul(a[5]).spec_mul(b10)).spec_sub(a[3].spec_mul(a[5]).spec_mul(b06)),
        a[9].spec_mul(a[12]).spec_mul(b04),
        a[9].spec_mul(a[13]).spec_mul(b02),
        a[9].spec_mul(a[15]).spec_mul(b00),
    );
    lemma_append3_pmm(
        a[1].spec_mul(a[4]).spec_mul(b10).spec_sub(a[1].spec_mul(a[5]).spec_mul(b08)).spec_add(a[1].spec_mul(a[7]).spec_mul(b06)).spec_add(a[1].spec_mul(a[5]).spec_mul(b08)).spec_sub(a[0].spec_mul(a[5]).spec_mul(b10)).spec_sub(a[3].spec_mul(a[5]).spec_mul(b06)).spec_add(a[9].spec_mul(a[12]).spec_mul(b04)).spec_sub(a[9].spec_mul(a[13]).spec_mul(b02)).spec_add(a[9].spec_mul(a[15]).spec_mul(b00)),
        a[9].spec_mul(a[13]).spec_mul(b02),
        a[8].spec_mul(a[13]).spec_mul(b04),
        a[11].spec_mul(a[13]).spec_mul(b00),
    );
    let c1x4x9x15 = a[1].spec_mul(a[4]).spec_mul(a[9].spec_mul(a[15]));
    let c1x4x11x13 = a[1].spec_mul(a[4]).spec_mul(a[11].spec_mul(a[13]));
    let c1x5x8x15 = a[1].spec_mul(a[5]).spec_mul(a[8].spec_mul(a[15]));
    let c1x5x11x12 = a[1].spec_mul(a[5]).spec_mul(a[11].spec_mul(a[12]));
    let c1x7x8x13 = a[1].spec_mul(a[7]).spec_mul(a[8].spec_mul(a[13]));
    let c1x7x9x12 = a[1].spec_mul(a[7]).spec_mul(a[9].spec_mul(a[12]));
    let c0x5x9x15 = a[0].spec_mul(a[5]).spec_mul(a[9].spec_mul(a[15]));
    let c0x5x11x13 = a[0].spec_mul(a[5]).spec_mul(a[11].spec_mul(a[13]));
    let c3x5x8x13 = a[3].spec_mul(a[5]).spec_mul(a[8].spec_mul(a[13]));
    let c3x5x9x12 = a[3].spec_mul(a[5]).spec_mul(a[9].spec_mul(a[12]));
    let c0x7x9x13 = a[0].spec_mul(a[7]).spec_mul(a[9].spec_mul(a[13]));
    let c3x4x9x13 = a[3].spec_mul(a[4]).spec_mul(a[9].spec_mul(a[13]));
    lemma_distrib2(a[1].spec_mul(a[4]), a[9].spec_mul(a[15]), a[11].spec_mul(a[13]));
    lemma_distrib2(a[1].spec_mul(a[5]), a[8].spec_mul(a[15]), a[11].spec_mul(a[12]));
    lemma_distrib2(a[1].spec_mul(a[7]), a[8].spec_mul(a[13]), a[9].spec_mul(a[12]));
    lemma_distrib2(a[1].spec_mul(a[5]), a[8].spec_mul(a[15]), a[11].spec_mul(a[12]));
    lemma_distrib2(a[0].spec_mul(a[5]), a[9].spec_mul(a[15]), a[11].spec_mul(a[13]));
    lemma_distrib2(a[3].spec_mul(a[5]), a[8].spec_mul(a[13]), a[9].spec_mul(a[12]));
    lemma_distrib2(a[9].spec_mul(a[12]), a[1].spec_mul(a[7]), a[3].spec_mul(a[5]));
    lemma_distrib2(a[9].spec_mul(a[13]), a[0].spec_mul(a[7]), a[3].spec_mul(a[4]));
    lemma_distrib2(a[9].spec_mul(a[15]), a[0].spec_mul(a[5]), a[1].spec_mul(a[4]));
    lemma_distrib2(a[9].spec_mul(a[13]), a[0].spec_mul(a[7]), a[3].spec_mul(a[4]));
    lemma_distrib2(a[8].spec_mul(a[13]), a[1].spec_mul(a[7]), a[3].spec_mul(a[5]));
    lemma_distrib2(a[11].spec_mul(a[13]), a[0].spec_mul(a[5]), a[1].spec_mul(a[4]));
    lemma_mul_comm(a[9].spec_mul(a[12]), a[1].spec_mul(a[7]));
    lemma_mul_comm(a[9].spec_mul(a[12]), a[3].spec_mul(a[5]));
    lemma_mul_comm(a[9].spec_mul(a[13]), a[0].spec_mul(a[7]));
    lemma_mul_comm(a[9].spec_mul(a[13]), a[3].spec_mul(a[4]));
    lemma_mul_comm(a[9].spec_mul(a[15]), a[0].spec_mul(a[5]));
    lemma_mul_comm(a[9].spec_mul(a[15]), a[1].spec_mul(a[4]));
    lemma_mul_comm(a[8].spec_mul(a[13]), a[1].spec_mul(a[7]));
    lemma_mul_comm(a[8].spec_mul(a[13]), a[3].spec_mul(a[5]));
    lemma_mul_comm(a[11].spec_mul(a[13]), a[0].spec_mul(a[5]));
    lemma_mul_comm(a[11].spec_mul(a[13]), a[1].spec_mul(a[4]));
    lemma_append2_neg(
        c1x4x9x15.spec_sub(c1x4x11x13),
        c1x5x8x15,
        c1x5x11x12,
    );
    lemma_append2_pos(
        c1x4x9x15.spec_sub(c1x4x11x13).spec_sub(c1x5x8x15).spec_add(c1x5x11x12),
        c1x7x8x13,
        c1x7x9x12,
    );
    lemma_append2_pos(
        c1x4x9x15.spec_sub(c1x4x11x13).spec_sub(c1x5x8x15).spec_add(c1x5x11x12).spec_add(c1x7x8x13).spec_sub(c1x7x9x12),
        c1x5x8x15,
        c1x5x11x12,
    );
    lemma_append2_neg(
        c1x4x9x15.spec_sub(c1x4x11x13).spec_sub(c1x5x8x15).spec_add(c1x5x11x12).spec_add(c1x7x8x13).spec_sub(c1x7x9x12).spec_add(c1x5x8x15).spec_sub(c1x5x11x12),
        c0x5x9x15,
        c0x5x11x13,
    );
    lemma_append2_neg(
        c1x4x9x15.spec_sub(c1x4x11x13).spec_sub(c1x5x8x15).spec_add(c1x5x11x12).spec_add(c1x7x8x13).spec_sub(c1x7x9x12).spec_add(c1x5x8x15).spec_sub(c1x5x11x12).spec_sub(c0x5x9x15).spec_add(c0x5x11x13),
        c3x5x8x13,
        c3x5x9x12,
    );
    lemma_append2_pos(
        c1x4x9x15.spec_sub(c1x4x11x13).spec_sub(c1x5x8x15).spec_add(c1x5x11x12).spec_add(c1x7x8x13).spec_sub(c1x7x9x12).spec_add(c1x5x8x15).spec_sub(c1x5x11x12).spec_sub(c0x5x9x15).spec_add(c0x5x11x13).spec_sub(c3x5x8x13).spec_add(c3x5x9x12),
        c1x7x9x12,
        c3x5x9x12,
    );
    lemma_append2_neg(
        c1x4x9x15.spec_sub(c1x4x11x13).spec_sub(c1x5x8x15).spec_add(c1x5x11x12).spec_add(c1x7x8x13).spec_sub(c1x7x9x12).spec_add(c1x5x8x15).spec_sub(c1x5x11x12).spec_sub(c0x5x9x15).spec_add(c0x5x11x13).spec_sub(c3x5x8x13).spec_add(c3x5x9x12).spec_add(c1x7x9x12).spec_sub(c3x5x9x12),
        c0x7x9x13,
        c3x4x9x13,
    );
    lemma_append2_pos(
        c1x4x9x15.spec_sub(c1x4x11x13).spec_sub(c1x5x8x15).spec_add(c1x5x11x12).spec_add(c1x7x8x13).spec_sub(c1x7x9x12).spec_add(c1x5x8x15).spec_sub(c1x5x11x12).spec_sub(c0x5x9x15).spec_add(c0x5x11x13).spec_sub(c3x5x8x13).spec_add(c3x5x9x12).spec_add(c1x7x9x12).spec_sub(c3x5x9x12).spec_sub(c0x7x9x13).spec_add(c3x4x9x13),
        c0x5x9x15,
        c1x4x9x15,
    );
    lemma_append2_pos(
        c1x4x9x15.spec_sub(c1x4x11x13).spec_sub(c1x5x8x15).spec_add(c1x5x11x12).spec_add(c1x7x8x13).spec_sub(c1x7x9x12).spec_add(c1x5x8x15).spec_sub(c1x5x11x12).spec_sub(c0x5x9x15).spec_add(c0x5x11x13).spec_sub(c3x5x8x13).spec_add(c3x5x9x12).spec_add(c1x7x9x12).spec_sub(c3x5x9x12).spec_sub(c0x7x9x13).spec_add(c3x4x9x13).spec_add(c0x5x9x15).spec_sub(c1x4x9x15),
        c0x7x9x13,
        c3x4x9x13,
    );
    lemma_append2_neg(
        c1x4x9x15.spec_sub(c1x4x11x13).spec_sub(c1x5x8x15).spec_add(c1x5x11x12).spec_add(c1x7x8x13).spec_sub(c1x7x9x12).spec_add(c1x5x8x15).spec_sub(c1x5x11x12).spec_sub(c0x5x9x15).spec_add(c0x5x11x13).spec_sub(c3x5x8x13).spec_add(c3x5x9x12).spec_add(c1x7x9x12).spec_sub(c3x5x9x12).spec_sub(c0x7x9x13).spec_add(c3x4x9x13).spec_add(c0x5x9x15).spec_sub(c1x4x9x15).spec_add(c0x7x9x13).spec_sub(c3x4x9x13),
        c1x7x8x13,
        c3x5x8x13,
    );
    lemma_append2_neg(
        c1x4x9x15.spec_sub(c1x4x11x13).spec_sub(c1x5x8x15).spec_add(c1x5x11x12).spec_add(c1x7x8x13).spec_sub(c1x7x9x12).spec_add(c1x5x8x15).spec_sub(c1x5x11x12).spec_sub(c0x5x9x15).spec_add(c0x5x11x13).spec_sub(c3x5x8x13).spec_add(c3x5x9x12).spec_add(c1x7x9x12).spec_sub(c3x5x9x12).spec_sub(c0x7x9x13).spec_add(c3x4x9x13).spec_add(c0x5x9x15).spec_sub(c1x4x9x15).spec_add(c0x7x9x13).spec_sub(c3x4x9x13).spec_sub(c1x7x8x13).spec_add(c3x5x8x13),
        c0x5x11x13,
        c1x4x11x13,
    );
    lemma_inv_right_chain9(c1x4x9x15, c1x4x11x13, c1x5x8x15, c1x5x11x12, c1x7x8x13, c1x7x9x12, c0x5x9x15, c0x5x11x13, c3x5x8x13, c3x5x9x12, c0x7x9x13, c3x4x9x13);
    lemma_zero_mul(inv_d);
    assert(mul_seq(a, inv)[9] == T::spec_zero());
}

proof fn lemma_inv_right_chain10<T: Scalar>(p1: T, p2: T, p3: T, p4: T, p5: T, p6: T, p7: T, p8: T, p9: T, p10: T, p11: T, p12: T)
    requires
        laws_sealed::<T>(),
    ensures
        p1.spec_sub(p2).spec_add(p3).spec_add(p4).spec_sub(p5).spec_sub(p6).spec_add(p7).spec_sub(p8).spec_add(p9).spec_add(p10).spec_sub(p11).spec_sub(p12) == p9.spec_sub(p12).spec_sub(p5).spec_add(p1).spec_add(p10).spec_sub(p8).spec_add(p4).spec_sub(p2).spec_sub(p11).spec_add(p7).spec_add(p3).spec_sub(p6),
{
    lemma_swap_sa(p1.spec_sub(p2).spec_add(p3).spec_add(p4).spec_sub(p5).spec_sub(p6).spec_add(p7), p8, p9);
    lemma_swap_aa(p1.spec_sub(p2).spec_add(p3).spec_add(p4).spec_sub(p5).spec_sub(p6), p7, p9);
    lemma_swap_sa(p1.spec_sub(p2).spec_add(p3).spec_add(p4).spec_sub(p5), p6, p9);
    lemma_swap_sa(p1.spec_sub(p2).spec_add(p3).spec_add(p4), p5, p9);
    lemma_swap_aa(p1.spec_sub(p2).spec_add(p3), p4, p9);
    lemma_swap_aa(p1.spec_sub(p2), p3, p9);
    lemma_swap_sa(p1, p2, p9);
    lemma_add_comm(p1, p9);
    lemma_swap_ss(p9.spec_add(p1).spec_sub(p2).spec_add(p3).spec_add(p4).spec_sub(p5).spec_sub(p6).spec_add(p7).spec_sub(p8).spec_add(p10), p11, p12);
    lemma_swap_as(p9.spec_add(p1).spec_sub(p2).spec_add(p3).spec_add(p4).spec_sub(p5).spec_sub(p6).spec_add(p7).spec_sub(p8), p10, p12);
    lemma_swap_ss(p9.spec_add(p1).spec_sub(p2).spec_add(p3).spec_add(p4).spec_sub(p5).spec_sub(p6).spec_add(p7), p8, p12);
    lemma_swap_as(p9.spec_add(p1).spec_sub(p2).spec_add(p3).spec_add(p4).spec_sub(p5).spec_sub(p6), p7, p12);
    lemma_swap_ss(p9.spec_add(p1).spec_sub(p2).spec_add(p3).spec_add(p4).spec_sub(p5), p6, p12);
    lemma_swap_ss(p9.spec_add(p1).spec_sub(p2).spec_add(p3).spec_add(p4), p5, p12);
    lemma_swap_as(p9.spec_add(p1).spec_sub(p2).spec_add(p3), p4, p12);
    lemma_swap_as(p9.spec_add(p1).spec_sub(p2), p3, p12);
    lemma_swap_ss(p9.spec_add(p1), p2, p12);
    lemma_swap_as(p9, p1, p12);
    lemma_swap_as(p9.spec_sub(p12).spec_add(p1).spec_sub(p2).spec_add(p3), p4, p5);
    lemma_swap_as(p9.spec_sub(p12).spec_add(p1).spec_sub(p2), p3, p5);
    lemma_swap_ss(p9.spec_sub(p12).spec_add(p1), p2, p5);
    lemma_swap_as(p9.spec_sub(p12), p1, p5);
    lemma_swap_sa(p9.spec_sub(p12).spec_sub(p5).spec_add(p1).spec_sub(p2).spec_add(p3).spec_add(p4).spec_sub(p6).spec_add(p7), p8, p10);
    lemma_swap_aa(p9.spec_sub(p12).spec_sub(p5).spec_add(p1).spec_sub(p2).spec_add(p3).spec_add(p4).spec_sub(p6), p7, p10);
    lemma_swap_sa(p9.spec_sub(p12).spec_sub(p5).spec_add(p1).spec_sub(p2).spec_add(p3).spec_add(p4), p6, p10);
    lemma_swap_aa(p9.spec_sub(p12).spec_sub(p5).spec_add(p1).spec_sub(p2).spec_add(p3), p4, p10);
    lemma_swap_aa(p9.spec_sub(p12).spec_sub(p5).spec_add(p1).spec_sub(p2), p3, p10);
    lemma_swap_sa(p9.spec_sub(p12).spec_sub(p5).spec_add(p1), p2, p10);
    lemma_swap_as(p9.spec_sub(p12).spec_sub(p5).spec_add(p1).spec_add(p10).spec_sub(p2).spec_add(p3).spec_add(p4).spec_sub(p6), p7, p8);
    lemma_swap_ss(p9.spec_sub(p12).spec_sub(p5).spec_add(p1).spec_add(p10).spec_sub(p2).spec_add(p3).spec_add(p4), p6, p8);
    lemma_swap_as(p9.spec_sub(p12).spec_sub(p5).spec_add(p1).spec_add(p10).spec_sub(p2).spec_add(p3), p4, p8);
    lemma_swap_as(p9.spec_sub(p12).spec_sub(p5).spec_add(p1).spec_add(p10).spec_sub(p2), p3, p8);
    lemma_swap_ss(p9.spec_sub(p12).spec_sub(p5).spec_add(p1).spec_add(p10), p2, p8);
    lemma_swap_aa(p9.spec_sub(p12).spec_sub(p5).spec_add(p1).spec_add(p10).spec_sub(p8).spec_sub(p2), p3, p4);
    lemma_swap_sa(p9.spec_sub(p12).spec_sub(p5).spec_add(p1).spec_add(p10).spec_sub(p8), p2, p4);
    lemma_swap_as(p9.spec_sub(p12).spec_sub(p5).spec_add(p1).spec_add(p10).spec_sub(p8).spec_add(p4).spec_sub(p2).spec_add(p3).spec_sub(p6), p7, p11);
    lemma_swap_ss(p9.spec_sub(p12).spec_sub(p5).spec_add(p1).spec_add(p10).spec_sub(p8).spec_add(p4).spec_sub(p2).spec_add(p3), p6, p11);
    lemma_swap_as(p9.spec_sub(p12).spec_sub(p5).spec_add(p1).spec_add(p10).spec_sub(p8).spec_add(p4).spec_sub(p2), p3, p11);
    lemma_swap_sa(p9.spec_sub(p12).spec_sub(p5).spec_add(p1).spec_add(p10).spec_sub(p8).spec_add(p4).spec_sub(p2).spec_sub(p11).spec_add(p3), p6, p7);
    lemma_swap_aa(p9.spec_sub(p12).spec_sub(p5).spec_add(p1).spec_add(p10).spec_sub(p8).spec_add(p4).spec_sub(p2).spec_sub(p11), p3, p7);
}

pub(crate) proof fn lemma_inv_right_entry10<T: Scalar>(a: Seq<T>)
    requires
        a.len() == 16,
        field_sealed::<T>(),
        !det_seq(a).spec_is_zero(),
    ensures
        mul_seq(a, inverse_seq(a))[10] == T::spec_one(),
{
    lemma_field_gives_ring::<T>();
    let inv = inverse_seq(a);
    let inv_d = T::spec_one().spec_div(det_seq(a));
    let b00 = minor2(a, 0, 5, 1, 4);
    let b01 = minor2(a, 0, 6, 2, 4);
    let b02 = minor2(a, 0, 7, 3, 4);
    let b03 = minor2(a, 1, 6, 2, 5);
    let b04 = minor2(a, 1, 7, 3, 5);
    let b05 = minor2(a, 2, 7, 3, 6);
    let b06 = minor2(a, 8, 13, 9, 12);
    let b07 = minor2(a, 8, 14, 10, 12);
    let b08 = minor2(a, 8, 15, 11, 12);
    let b09 = minor2(a, 9, 14, 10, 13);
    let b10 = minor2(a, 9, 15, 11, 13);
    let b11 = minor2(a, 10, 15, 11, 14);
    assert(mul_seq(a, inv)[10] == inv[8].spec_mul(a[2]).spec_add(inv[9].spec_mul(a[6])).spec_add(inv[10].spec_mul(a[10])).spec_add(inv[11].spec_mul(a[14])));
    assert(inv[8] == a[4].spec_mul(b10).spec_sub(a[5].spec_mul(b08)).spec_add(a[7].spec_mul(b06)).spec_mul(inv_d));
    assert(inv[9] == a[1].spec_mul(b08).spec_sub(a[0].spec_mul(b10)).spec_sub(a[3].spec_mul(b06)).spec_mul(inv_d));
    assert(inv[10] == a[12].spec_mul(b04).spec_sub(a[13].spec_mul(b02)).spec_add(a[15].spec_mul(b00)).spec_mul(inv_d));
    assert(inv[11] == a[9].spec_mul(b02).spec_sub(a[8].spec_mul(b04)).spec_sub(a[11].spec_mul(b00)).spec_mul(inv_d));
    lemma_mul_comm(a[4].spec_mul(b10).spec_sub(a[5].spec_mul(b08)).spec_add(a[7].spec_mul(b06)).spec_mul(inv_d), a[2]);
    lemma_mul_comm(a[1].spec_mul(b08).spec_sub(a[0].spec_mul(b10)).spec_sub(a[3].spec_mul(b06)).spec_mul(inv_d), a[6]);
    lemma_mul_comm(a[12].spec_mul(b04).spec_sub(a[13].spec_mul(b02)).spec_add(a[15].spec_mul(b00)).spec_mul(inv_d), a[10]);
    lemma_mul_comm(a[9].spec_mul(b02).spec_sub(a[8].spec_mul(b04)).spec_sub(a[11].spec_mul(b00)).spec_mul(inv_d), a[14]);
    lemma_mul_assoc(a[2], a[4].spec_mul(b10).spec_sub(a[5].spec_mul(b08)).spec_add(a[7].spec_mul(b06)), inv_d);
    lemma_mul_assoc(a[6], a[1].spec_mul(b08).spec_sub(a[0].spec_mul(b10)).spec_sub(a[3].spec_mul(b06)), inv_d);
    lemma_mul_assoc(a[10], a[12].spec_mul(b04).spec_sub(a[13].spec_mul(b02)).spec_add(a[15].spec_mul(b00)), inv_d);
    lemma_mul_assoc(a[14], a[9].spec_mul(b02).spec_sub(a[8].spec_mul(b04)).spec_sub(a[11].spec_mul(b00)), inv_d);
    lemma_factor4(
        a[2].spec_mul(a[4].spec_mul(b10).spec_sub(a[5].spec_mul(b08)).spec_add(a[7].spec_mul(b06))),
        a[6].spec_mul(a[1].spec_mul(b08).spec_sub(a[0].spec_mul(b10)).spec_sub(a[3].spec_mul(b06))),
        a[10].spec_mul(a[12].spec_mul(b04).spec_sub(a[13].spec_mul(b02)).spec_add(a[15].spec_mul(b00))),
        a[14].spec_mul(a[9].spec_mul(b02).spec_sub(a[8].spec_mul(b04)).spec_sub(a[11].spec_mul(b00))),
        inv_d,
    );
    lemma_distrib3_pmp(a[2], a[4].spec_mul(b10), a[5].spec_mul(b08), a[7].spec_mul(b06));
    lemma_mul_assoc(a[2], a[4], b10);
    lemma_mul_assoc(a[2], a[5], b08);
    lemma_mul_assoc(a[2], a[7], b06);
    lemma_distrib3_pmm(a[6], a[1].spec_mul(b08), a[0].spec_mul(b10), a[3].spec_mul(b06));
    lemma_mul_assoc(a[6], a[1], b08);
    lemma_mul_comm(a[6], a[1]);
    lemma_mul_assoc(a[6], a[0], b10);
    lemma_mul_comm(a[6], a[0]);
    lemma_mul_assoc(a[6], a[3], b06);
    lemma_mul_comm(a[6], a[3]);
    lemma_distrib3_pmp(a[10], a[12].spec_mul(b04), a[13].spec_mul(b02), a[15].spec_mul(b00));
    lemma_mul_assoc(a[10], a[12], b04);
    lemma_mul_assoc(a[10], a[13], b02);
    lemma_mul_assoc(a[10], a[15], b00);
    lemma_distrib3_pmm(a[14], a[9].spec_mul(b02), a[8].spec_mul(b04), a[11].spec_mul(b00));
    lemma_mul_assoc(a[14], a[9], b02);
    lemma_mul_comm(a[14], a[9]);
    lemma_mul_assoc(a[14], a[8], b04);
    lemma_mul_comm(a[14], a[8]);
    lemma_mul_assoc(a[14], a[11], b00);
    lemma_mul_comm(a[14], a[11]);
    lemma_append3_pmm(
        a[2].spec_mul(a[4]).spec_mul(b10).spec_sub(a[2].spec_mul(a[5]).spec_mul(b08)).spec_add(a[2].spec_mul(a[7]).spec_mul(b06)),
        a[1].spec_mul(a[6]).spec_mul(b08),
        a[0].spec_mul(a[6]).spec_mul(b10),
        a[3].spec_mul(a[6]).spec_mul(b06),
    );
    lemma_append3_pmp(
        a[2].spec_mul(a[4]).spec_mul(b10).spec_sub(a[2].spec_mul(a[5]).spec_mul(b08)).spec_add(a[2].spec_mul(a[7]).spec_mul(b06)).spec_add(a[1].spec_mul(a[6]).spec_mul(b08)).spec_sub(a[0].spec_mul(a[6]).spec_mul(b10)).spec_sub(a[3].spec_mul(a[6]).spec_mul(b06)),
        a[10].spec_mul(a[12]).spec_mul(b04),
        a[10].spec_mul(a[13]).spec_mul(b02),
        a[10].spec_mul(a[15]).spec_mul(b00),
    );
    lemma_append3_pmm(
        a[2].spec_mul(a[4]).spec_mul(b10).spec_sub(a[2].spec_mul(a[5]).spec_mul(b08)).spec_add(a[2].spec_mul(a[7]).spec_mul(b06)).spec_add(a[1].spec_mul(a[6]).spec_mul(b08)).spec_sub(a[0].spec_mul(a[6]).spec_mul(b10)).spec_sub(a[3].spec_mul(a[6]).spec_mul(b06)).spec_add(a[10].spec_mul(a[12]).spec_mul(b04)).spec_sub(a[10].spec_mul(a[13]).spec_mul(b02)).spec_add(a[10].spec_mul(a[15]).spec_mul(b00)),
        a[9].spec_mul(a[14]).spec_mul(b02),
        a[8].spec_mul(a[14]).spec_mul(b04),
        a[11].spec_mul(a[14]).spec_mul(b00),
    );
    lemma_mul_comm(b00, b11);
    lemma_mul_comm(b02, b09);
    lemma_mul_comm(b04, b07);
    lemma_expand_minor_prod(a[10].spec_mul(a[15]), a[11].spec_mul(a[14]), b00);
    lemma_expand_minor_prod(a[0].spec_mul(a[6]), a[2].spec_mul(a[4]), b10);
    lemma_append2_neg(
        a[10].spec_mul(a[15]).spec_mul(b00).spec_sub(a[11].spec_mul(a[14]).spec_mul(b00)),
        a[0].spec_mul(a[6]).spec_mul(b10),
        a[2].spec_mul(a[4]).spec_mul(b10),
    );
    lemma_expand_minor_prod(a[9].spec_mul(a[14]), a[10].spec_mul(a[13]), b02);
    lemma_append2_pos(
        a[10].spec_mul(a[15]).spec_mul(b00).spec_sub(a[11].spec_mul(a[14]).spec_mul(b00)).spec_sub(a[0].spec_mul(a[6]).spec_mul(b10)).spec_add(a[2].spec_mul(a[4]).spec_mul(b10)),
        a[9].spec_mul(a[14]).spec_mul(b02),
        a[10].spec_mul(a[13]).spec_mul(b02),
    );
    lemma_expand_minor_prod(a[1].spec_mul(a[6]), a[2].spec_mul(a[5]), b08);
    lemma_append2_pos(
        a[10].spec_mul(a[15]).spec_mul(b00).spec_sub(a[11].spec_mul(a[14]).spec_mul(b00)).spec_sub(a[0].spec_mul(a[6]).spec_mul(b10)).spec_add(a[2].spec_mul(a[4]).spec_mul(b10)).spec_add(a[9].spec_mul(a[14]).spec_mul(b02)).spec_sub(a[10].spec_mul(a[13]).spec_mul(b02)),
        a[1].spec_mul(a[6]).spec_mul(b08),
        a[2].spec_mul(a[5]).spec_mul(b08),
    );
    lemma_expand_minor_prod(a[8].spec_mul(a[14]), a[10].spec_mul(a[12]), b04);
    lemma_append2_neg(
        a[10].spec_mul(a[15]).spec_mul(b00).spec_sub(a[11].spec_mul(a[14]).spec_mul(b00)).spec_sub(a[0].spec_mul(a[6]).spec_mul(b10)).spec_add(a[2].spec_mul(a[4]).spec_mul(b10)).spec_add(a[9].spec_mul(a[14]).spec_mul(b02)).spec_sub(a[10].spec_mul(a[13]).spec_mul(b02)).spec_add(a[1].spec_mul(a[6]).spec_mul(b08)).spec_sub(a[2].spec_mul(a[5]).spec_mul(b08)),
        a[8].spec_mul(a[14]).spec_mul(b04),
        a[10].spec_mul(a[12]).spec_mul(b04),
    );
    lemma_expand_minor_prod(a[2].spec_mul(a[7]), a[3].spec_mul(a[6]), b06);
    lemma_append2_pos(
        a[10].spec_mul(a[15]).spec_mul(b00).spec_sub(a[11].spec_mul(a[14]).spec_mul(b00)).spec_sub(a[0].spec_mul(a[6]).spec_mul(b10)).spec_add(a[2].spec_mul(a[4]).spec_mul(b10)).spec_add(a[9].spec_mul(a[14]).spec_mul(b02)).spec_sub(a[10].spec_mul(a[13]).spec_mul(b02)).spec_add(a[1].spec_mul(a[6]).spec_mul(b08)).spec_sub(a[2].spec_mul(a[5]).spec_mul(b08)).spec_sub(a[8].spec_mul(a[14]).spec_mul(b04)).spec_add(a[10].spec_mul(a[12]).spec_mul(b04)),
        a[2].spec_mul(a[7]).spec_mul(b06),
        a[3].spec_mul(a[6]).spec_mul(b06),
    );
    lemma_inv_right_chain10(
        a[2].spec_mul(a[4]).spec_mul(b10),
        a[2].spec_mul(a[5]).spec_mul(b08),
        a[2].spec_mul(a[7]).spec_mul(b06),
        a[1].spec_mul(a[6]).spec_mul(b08),
        a[0].spec_mul(a[6]).spec_mul(b10),
        a[3].spec_mul(a[6]).spec_mul(b06),
        a[10].spec_mul(a[12]).spec_mul(b04),
        a[10].spec_mul(a[13]).spec_mul(b02),
        a[10].spec_mul(a[15]).spec_mul(b00),
        a[9].spec_mul(a[14]).spec_mul(b02),
        a[8].spec_mul(a[14]).spec_mul(b04),
        a[11].spec_mul(a[14]).spec_mul(b00)
    );
    assert(mul_seq(a, inv)[10] == det_seq(a).spec_mul(inv_d));
    lemma_recip(det_seq(a));
    assert(mul_seq(a, inv)[10] == T::spec_one());
}

proof fn lemma_inv_right_chain11<T: Scalar>(p1: T, p2: T, p3: T, p4: T, p5: T, p6: T, p7: T, p8: T, p9: T, p10: T, p11: T, p12: T)
    requires
        laws_sealed::<T>(),
    ensures
        p1.spec_sub(p2).spec_sub(p3).spec_add(p4).spec_add(p5).spec_sub(p6).spec_add(p7).spec_sub(p8).spec_sub(p9).spec_add(p10).spec_sub(p5).spec_add(p6).spec_add(p8).spec_sub(p4).spec_sub(p10).spec_add(p2).spec_add(p11).spec_sub(p12).spec_add(p9).spec_sub(p1).spec_sub(p7).spec_add(p3).spec_sub(p11).spec_add(p12) == T::spec_zero(),
{
    lemma_swap_as(p1.spec_sub(p2).spec_sub(p3).spec_add(p4).spec_add(p5).spec_sub(p6).spec_add(p7).spec_sub(p8).spec_sub(p9).spec_add(p10).spec_sub(p5).spec_add(p6).spec_add(p8).spec_sub(p4).spec_sub(p10).spec_add(p2).spec_add(p11).spec_sub(p12), p9, p1);
    lemma_swap_ss(p1.spec_sub(p2).spec_sub(p3).spec_add(p4).spec_add(p5).spec_sub(p6).spec_add(p7).spec_sub(p8).spec_sub(p9).spec_add(p10).spec_sub(p5).spec_add(p6).spec_add(p8).spec_sub(p4).spec_sub(p10).spec_add(p2).spec_add(p11), p12, p1);
    lemma_swap_as(p1.spec_sub(p2).spec_sub(p3).spec_add(p4).spec_add(p5).spec_sub(p6).spec_add(p7).spec_sub(p8).spec_sub(p9).spec_add(p10).spec_sub(p5).spec_add(p6).spec_add(p8).spec_sub(p4).spec_sub(p10).spec_add(p2), p11, p1);
    lemma_swap_as(p1.spec_sub(p2).spec_sub(p3).spec_add(p4).spec_add(p5).spec_sub(p6).spec_add(p7).spec_sub(p8).spec_sub(p9).spec_add(p10).spec_sub(p5).spec_add(p6).spec_add(p8).spec_sub(p4).spec_sub(p10), p2, p1);
    lemma_swap_ss(p1.spec_sub(p2).spec_sub(p3).spec_add(p4).spec_add(p5).spec_sub(p6).spec_add(p7).spec_sub(p8).spec_sub(p9).spec_add(p10).spec_sub(p5).spec_add(p6).spec_add(p8).spec_sub(p4), p10, p1);
    lemma_swap_ss(p1.spec_sub(p2).spec_sub(p3).spec_add(p4).spec_add(p5).spec_sub(p6).spec_add(p7).spec_sub(p8).spec_sub(p9).spec_add(p10).spec_sub(p5).spec_add(p6).spec_add(p8), p4, p1);
    lemma_swap_as(p1.spec_sub(p2).spec_sub(p3).spec_add(p4).spec_add(p5).spec_sub(p6).spec_add(p7).spec_sub(p8).spec_sub(p9).spec_add(p10).spec_sub(p5).spec_add(p6), p8, p1);
    lemma_swap_as(p1.spec_sub(p2).spec_sub(p3).spec_add(p4).spec_add(p5).spec_sub(p6).spec_add(p7).spec_sub(p8).spec_sub(p9).spec_add(p10).spec_sub(p5), p6, p1);
    lemma_swap_ss(p1.spec_sub(p2).spec_sub(p3).spec_add(p4).spec_add(p5).spec_sub(p6).spec_add(p7).spec_sub(p8).spec_sub(p9).spec_add(p10), p5, p1);
    lemma_swap_as(p1.spec_sub(p2).spec_sub(p3).spec_add(p4).spec_add(p5).spec_sub(p6).spec_add(p7).spec_sub(p8).spec_sub(p9), p10, p1);
    lemma_swap_ss(p1.spec_sub(p2).spec_sub(p3).spec_add(p4).spec_add(p5).spec_sub(p6).spec_add(p7).spec_sub(p8), p9, p1);
    lemma_swap_ss(p1.spec_sub(p2).spec_sub(p3).spec_add(p4).spec_add(p5).spec_sub(p6).spec_add(p7), p8, p1);
    lemma_swap_as(p1.spec_sub(p2).spec_sub(p3).spec_add(p4).spec_add(p5).spec_sub(p6), p7, p1);
    lemma_swap_ss(p1.spec_sub(p2).spec_sub(p3).spec_add(p4).spec_add(p5), p6, p1);
    lemma_swap_as(p1.spec_sub(p2).spec_sub(p3).spec_add(p4), p5, p1);
    lemma_swap_as(p1.spec_sub(p2).spec_sub(p3), p4, p1);
    lemma_swap_ss(p1.spec_sub(p2), p3, p1);
    lemma_swap_ss(p1, p2, p1);
    lemma_swap_sa(p1.spec_sub(p1).spec_sub(p2).spec_sub(p3).spec_add(p4).spec_add(p5).spec_sub(p6).spec_add(p7).spec_sub(p8).spec_sub(p9).spec_add(p10).spec_sub(p5).spec_add(p6).spec_add(p8).spec_sub(p4), p10, p2);
    lemma_swap_sa(p1.spec_sub(p1).spec_sub(p2).spec_sub(p3).spec_add(p4).spec_add(p5).spec_sub(p6).spec_add(p7).spec_sub(p8).spec_sub(p9).spec_add(p10).spec_sub(p5).spec_add(p6).spec_add(p8), p4, p2);
    lemma_swap_aa(p1.spec_sub(p1).spec_sub(p2).spec_sub(p3).spec_add(p4).spec_add(p5).spec_sub(p6).spec_add(p7).spec_sub(p8).spec_sub(p9).spec_add(p10).spec_sub(p5).spec_add(p6), p8, p2);
    lemma_swap_aa(p1.spec_sub(p1).spec_sub(p2).spec_sub(p3).spec_add(p4).spec_add(p5).spec_sub(p6).spec_add(p7).spec_sub(p8).spec_sub(p9).spec_add(p10).spec_sub(p5), p6, p2);
    lemma_swap_sa(p1.spec_sub(p1).spec_sub(p2).spec_sub(p3).spec_add(p4).spec_add(p5).spec_sub(p6).spec_add(p7).spec_sub(p8).spec_sub(p9).spec_add(p10), p5, p2);
    lemma_swap_aa(p1.spec_sub(p1).spec_sub(p2).spec_sub(p3).spec_add(p4).spec_add(p5).spec_sub(p6).spec_add(p7).spec_sub(p8).spec_sub(p9), p10, p2);
    lemma_swap_sa(p1.spec_sub(p1).spec_sub(p2).spec_sub(p3).spec_add(p4).spec_add(p5).spec_sub(p6).spec_add(p7).spec_sub(p8), p9, p2);
    lemma_swap_sa(p1.spec_sub(p1).spec_sub(p2).spec_sub(p3).spec_add(p4).spec_add(p5).spec_sub(p6).spec_add(p7), p8, p2);
    lemma_swap_aa(p1.spec_sub(p1).spec_sub(p2).spec_sub(p3).spec_add(p4).spec_add(p5).spec_sub(p6), p7, p2);
    lemma_swap_sa(p1.spec_sub(p1).spec_sub(p2).spec_sub(p3).spec_add(p4).spec_add(p5), p6, p2);
    lemma_swap_aa(p1.spec_sub(p1).spec_sub(p2).spec_sub(p3).spec_add(p4), p5, p2);
    lemma_swap_aa(p1.spec_sub(p1).spec_sub(p2).spec_sub(p3), p4, p2);
    lemma_swap_sa(p1.spec_sub(p1).spec_sub(p2), p3, p2);
    lemma_swap_sa(p1.spec_sub(p1), p2, p2);
    lemma_swap_sa(p1.spec_sub(p1).spec_add(p2).spec_sub(p2).spec_sub(p3).spec_add(p4).spec_add(p5).spec_sub(p6).spec_add(p7).spec_sub(p8).spec_sub(p9).spec_add(p10).spec_sub(p5).spec_add(p6).spec_add(p8).spec_sub(p4).spec_sub(p10).spec_add(p11).spec_sub(p12).spec_add(p9), p7, p3);
    lemma_swap_aa(p1.spec_sub(p1).spec_add(p2).spec_sub(p2).spec_sub(p3).spec_add(p4).spec_add(p5).spec_sub(p6).spec_add(p7).spec_sub(p8).spec_sub(p9).spec_add(p10).spec_sub(p5).spec_add(p6).spec_add(p8).spec_sub(p4).spec_sub(p10).spec_add(p11).spec_sub(p12), p9, p3);
    lemma_swap_sa(p1.spec_sub(p1).spec_add(p2).spec_sub(p2).spec_sub(p3).spec_add(p4).spec_add(p5).spec_sub(p6).spec_add(p7).spec_sub(p8).spec_sub(p9).spec_add(p10).spec_sub(p5).spec_add(p6).spec_add(p8).spec_sub(p4).spec_sub(p10).spec_add(p11), p12, p3);
    lemma_swap_aa(p1.spec_sub(p1).spec_add(p2).spec_sub(p2).spec_sub(p3).spec_add(p4).spec_add(p5).spec_sub(p6).spec_add(p7).spec_sub(p8).spec_sub(p9).spec_add(p10).spec_sub(p5).spec_add(p6).spec_add(p8).spec_sub(p4).spec_sub(p10), p11, p3);
    lemma_swap_sa(p1.spec_sub(p1).spec_add(p2).spec_sub(p2).spec_sub(p3).spec_add(p4).spec_add(p5).spec_sub(p6).spec_add(p7).spec_sub(p8).spec_sub(p9).spec_add(p10).spec_sub(p5).spec_add(p6).spec_add(p8).spec_sub(p4), p10, p3);
    lemma_swap_sa(p1.spec_sub(p1).spec_add(p2).spec_sub(p2).spec_sub(p3).spec_add(p4).spec_add(p5).spec_sub(p6).spec_add(p7).spec_sub(p8).spec_sub(p9).spec_add(p10).spec_sub(p5).spec_add(p6).spec_add(p8), p4, p3);
    lemma_swap_aa(p1.spec_sub(p1).spec_add(p2).spec_sub(p2).spec_sub(p3).spec_add(p4).spec_add(p5).spec_sub(p6).spec_add(p7).spec_sub(p8).spec_sub(p9).spec_add(p10).spec_sub(p5).spec_add(p6), p8, p3);
    lemma_swap_aa(p1.spec_sub(p1).spec_add(p2).spec_sub(p2).spec_sub(p3).spec_add(p4).spec_add(p5).spec_sub(p6).spec_add(p7).spec_sub(p8).spec_sub(p9).spec_add(p10).spec_sub(p5), p6, p3);
    lemma_swap_sa(p1.spec_sub(p1).spec_add(p2).spec_sub(p2).spec_sub(p3).spec_add(p4).spec_add(p5).spec_sub(p6).spec_add(p7).spec_sub(p8).spec_sub(p9).spec_add(p10), p5, p3);
    lemma_swap_aa(p1.spec_sub(p1).spec_add(p2).spec_sub(p2).spec_sub(p3).spec_add(p4).spec_add(p5).spec_sub(p6).spec_add(p7).spec_sub(p8).spec_sub(p9), p10, p3);
    lemma_swap_sa(p1.spec_sub(p1).spec_add(p2).spec_sub(p2).spec_sub(p3).spec_add(p4).spec_add(p5).spec_sub(p6).spec_add(p7).spec_sub(p8), p9, p3);
    lemma_swap_sa(p1.spec_sub(p1).spec_add(p2).spec_sub(p2).spec_sub(p3).spec_add(p4).spec_add(p5).spec_sub(p6).spec_add(p7), p8, p3);
    lemma_swap_aa(p1.spec_sub(p1).spec_add(p2).spec_sub(p2).spec_sub(p3).spec_add(p4).spec_add(p5).spec_sub(p6), p7, p3);
    lemma_swap_sa(p1.spec_sub(p1).spec_add(p2).spec_sub(p2).spec_sub(p3).spec_add(p4).spec_add(p5), p6, p3);
    lemma_swap_aa(p1.spec_sub(p1).spec_add(p2).spec_sub(p2).spec_sub(p3).spec_add(p4), p5, p3);
    lemma_swap_aa(p1.spec_sub(p1).spec_add(p2).spec_sub(p2).spec_sub(p3), p4, p3);
    lemma_swap_sa(p1.spec_sub(p1).spec_add(p2).spec_sub(p2), p3, p3);
    lemma_swap_as(p1.spec_sub(p1).spec_add(p2).spec_sub(p2).spec_add(p3).spec_sub(p3).spec_add(p4).spec_add(p5).spec_sub(p6).spec_add(p7).spec_sub(p8).spec_sub(p9).spec_add(p10).spec_sub(p5).spec_add(p6), p8, p4);
    lemma_swap_as(p1.spec_sub(p1).spec_add(p2).spec_sub(p2).spec_add(p3).spec_sub(p3).spec_add(p4).spec_add(p5).spec_sub(p6).spec_add(p7).spec_sub(p8).spec_sub(p9).spec_add(p10).spec_sub(p5), p6, p4);
    lemma_swap_ss(p1.spec_sub(p1).spec_add(p2).spec_sub(p2).spec_add(p3).spec_sub(p3).spec_add(p4).spec_add(p5).spec_sub(p6).spec_add(p7).spec_sub(p8).spec_sub(p9).spec_add(p10), p5, p4);
    lemma_swap_as(p1.spec_sub(p1).spec_add(p2).spec_sub(p2).spec_add(p3).spec_sub(p3).spec_add(p4).spec_add(p5).spec_sub(p6).spec_add(p7).spec_sub(p8).spec_sub(p9), p10, p4);
    lemma_swap_ss(p1.spec_sub(p1).spec_add(p2).spec_sub(p2).spec_add(p3).spec_sub(p3).spec_add(p4).spec_add(p5).spec_sub(p6).spec_add(p7).spec_sub(p8), p9, p4);
    lemma_swap_ss(p1.spec_sub(p1).spec_add(p2).spec_sub(p2).spec_add(p3).spec_sub(p3).spec_add(p4).spec_add(p5).spec_sub(p6).spec_add(p7), p8, p4);
    lemma_swap_as(p1.spec_sub(p1).spec_add(p2).spec_sub(p2).spec_add(p3).spec_sub(p3).spec_add(p4).spec_add(p5).spec_sub(p6), p7, p4);
    lemma_swap_ss(p1.spec_sub(p1).spec_add(p2).spec_sub(p2).spec_add(p3).spec_sub(p3).spec_add(p4).spec_add(p5), p6, p4);
    lemma_swap_as(p1.spec_sub(p1).spec_add(p2).spec_sub(p2).spec_add(p3).spec_sub(p3).spec_add(p4), p5, p4);
    lemma_swap_as(p1.spec_sub(p1).spec_add(p2).spec_sub(p2).spec_add(p3).spec_sub(p3).spec_add(p4).spec_sub(p4).spec_add(p5).spec_sub(p6).spec_add(p7).spec_sub(p8).spec_sub(p9), p10, p5);
    lemma_swap_ss(p1.spec_sub(p1).spec_add(p2).spec_sub(p2).spec_add(p3).spec_sub(p3).spec_add(p4).spec_sub(p4).spec_add(p5).spec_sub(p6).spec_add(p7).spec_sub(p8), p9, p5);
    lemma_swap_ss(p1.spec_sub(p1).spec_add(p2).spec_sub(p2).spec_add(p3).spec_sub(p3).spec_add(p4).spec_sub(p4).spec_add(p5).spec_sub(p6).spec_add(p7), p8, p5);
    lemma_swap_as(p1.spec_sub(p1).spec_add(p2).spec_sub(p2).spec_add(p3).spec_sub(p3).spec_add(p4).spec_sub(p4).spec_add(p5).spec_sub(p6), p7, p5);
    lemma_swap_ss(p1.spec_sub(p1).spec_add(p2).spec_sub(p2).spec_add(p3).spec_sub(p3).spec_add(p4).spec_sub(p4).spec_add(p5), p6, p5);
    lemma_swap_aa(p1.spec_sub(p1).spec_add(p2).spec_sub(p2).spec_add(p3).spec_sub(p3).spec_add(p4).spec_sub(p4).spec_add(p5).spec_sub(p5).spec_sub(p6).spec_add(p7).spec_sub(p8).spec_sub(p9), p10, p6);
    lemma_swap_sa(p1.spec_sub(p1).spec_add(p2).spec_sub(p2).spec_add(p3).spec_sub(p3).spec_add(p4).spec_sub(p4).spec_add(p5).spec_sub(p5).spec_sub(p6).spec_add(p7).spec_sub(p8), p9, p6);
    lemma_swap_sa(p1.spec_sub(p1).spec_add(p2).spec_sub(p2).spec_add(p3).spec_sub(p3).spec_add(p4).spec_sub(p4).spec_add(p5).spec_sub(p5).spec_sub(p6).spec_add(p7), p8, p6);
    lemma_swap_aa(p1.spec_sub(p1).spec_add(p2).spec_sub(p2).spec_add(p3).spec_sub(p3).spec_add(p4).spec_sub(p4).spec_add(p5).spec_sub(p5).spec_sub(p6), p7, p6);
    lemma_swap_sa(p1.spec_sub(p1).spec_add(p2).spec_sub(p2).spec_add(p3).spec_sub(p3).spec_add(p4).spec_sub(p4).spec_add(p5).spec_sub(p5), p6, p6);
    lemma_swap_as(p1.spec_sub(p1).spec_add(p2).spec_sub(p2).spec_add(p3).spec_sub(p3).spec_add(p4).spec_sub(p4).spec_add(p5).spec_sub(p5).spec_add(p6).spec_sub(p6).spec_add(p7).spec_sub(p8).spec_sub(p9).spec_add(p10).spec_add(p8).spec_sub(p10).spec_add(p11).spec_sub(p12), p9, p7);
    lemma_swap_ss(p1.spec_sub(p1).spec_add(p2).spec_sub(p2).spec_add(p3).spec_sub(p3).spec_add(p4).spec_sub(p4).spec_add(p5).spec_sub(p5).spec_add(p6).spec_sub(p6).spec_add(p7).spec_sub(p8).spec_sub(p9).spec_add(p10).spec_add(p8).spec_sub(p10).spec_add(p11), p12, p7);
    lemma_swap_as(p1.spec_sub(p1).spec_add(p2).spec_sub(p2).spec_add(p3).spec_sub(p3).spec_add(p4).spec_sub(p4).spec_add(p5).spec_sub(p5).spec_add(p6).spec_sub(p6).spec_add(p7).spec_sub(p8).spec_sub(p9).spec_add(p10).spec_add(p8).spec_sub(p10), p11, p7);
    lemma_swap_ss(p1.spec_sub(p1).spec_add(p2).spec_sub(p2).spec_add(p3).spec_sub(p3).spec_add(p4).spec_sub(p4).spec_add(p5).spec_sub(p5).spec_add(p6).spec_sub(p6).spec_add(p7).spec_sub(p8).spec_sub(p9).spec_add(p10).spec_add(p8), p10, p7);
    lemma_swap_as(p1.spec_sub(p1).spec_add(p2).spec_sub(p2).spec_add(p3).spec_sub(p3).spec_add(p4).spec_sub(p4).spec_add(p5).spec_sub(p5).spec_add(p6).spec_sub(p6).spec_add(p7).spec_sub(p8).spec_sub(p9).spec_add(p10), p8, p7);
    lemma_swap_as(p1.spec_sub(p1).spec_add(p2).spec_sub(p2).spec_add(p3).spec_sub(p3).spec_add(p4).spec_sub(p4).spec_add(p5).spec_sub(p5).spec_add(p6).spec_sub(p6).spec_add(p7).spec_sub(p8).spec_sub(p9), p10, p7);
    lemma_swap_ss(p1.spec_sub(p1).spec_add(p2).spec_sub(p2).spec_add(p3).spec_sub(p3).spec_add(p4).spec_sub(p4).spec_add(p5).spec_sub(p5).spec_add(p6).spec_sub(p6).spec_add(p7).spec_sub(p8), p9, p7);
    lemma_swap_ss(p1.spec_sub(p1).spec_add(p2).spec_sub(p2).spec_add(p3).spec_sub(p3).spec_add(p4).spec_sub(p4).spec_add(p5).spec_sub(p5).spec_add(p6).spec_sub(p6).spec_add(p7), p8, p7);
    lemma_swap_aa(p1.spec_sub(p1).spec_add(p2).spec_sub(p2).spec_add(p3).spec_sub(p3).spec_add(p4).spec_sub(p4).spec_add(p5).spec_sub(p5).spec_add(p6).spec_sub(p6).spec_add(p7).spec_sub(p7).spec_sub(p8).spec_sub(p9), p10, p8);
    lemma_swap_sa(p1.spec_sub(p1).spec_add(p2).spec_sub(p2).spec_add(p3).spec_sub(p3).spec_add(p4).spec_sub(p4).spec_add(p5).spec_sub(p5).spec_add(p6).spec_sub(p6).spec_add(p7).spec_sub(p7).spec_sub(p8), p9, p8);
    lemma_swap_sa(p1.spec_sub(p1).spec_add(p2).spec_sub(p2).spec_add(p3).spec_sub(p3).spec_add(p4).spec_sub(p4).spec_add(p5).spec_sub(p5).spec_add(p6).spec_sub(p6).spec_add(p7).spec_sub(p7), p8, p8);
    lemma_swap_sa(p1.spec_sub(p1).spec_add(p2).spec_sub(p2).spec_add(p3).spec_sub(p3).spec_add(p4).spec_sub(p4).spec_add(p5).spec_sub(p5).spec_add(p6).spec_sub(p6).spec_add(p7).spec_sub(p7).spec_add(p8).spec_sub(p8).spec_sub(p9).spec_add(p10).spec_sub(p10).spec_add(p11), p12, p9);
    lemma_swap_aa(p1.spec_sub(p1).spec_add(p2).spec_sub(p2).spec_add(p3).spec_sub(p3).spec_add(p4).spec_sub(p4).spec_add(p5).spec_sub(p5).spec_add(p6).spec_sub(p6).spec_add(p7).spec_sub(p7).spec_add(p8).spec_sub(p8).spec_sub(p9).spec_add(p10).spec_sub(p10), p11, p9);
    lemma_swap_sa(p1.spec_sub(p1).spec_add(p2).spec_sub(p2).spec_add(p3).spec_sub(p3).spec_add(p4).spec_sub(p4).spec_add(p5).spec_sub(p5).spec_add(p6).spec_sub(p6).spec_add(p7).spec_sub(p7).spec_add(p8).spec_sub(p8).spec_sub(p9).spec_add(p10), p10, p9);
    lemma_swap_aa(p1.spec_sub(p1).spec_add(p2).spec_sub(p2).spec_add(p3).spec_sub(p3).spec_add(p4).spec_sub(p4).spec_add(p5).spec_sub(p5).spec_add(p6).spec_sub(p6).spec_add(p7).spec_sub(p7).spec_add(p8).spec_sub(p8).spec_sub(p9), p10, p9);
    lemma_swap_sa(p1.spec_sub(p1).spec_add(p2).spec_sub(p2).spec_add(p3).spec_sub(p3).spec_add(p4).spec_sub(p4).spec_add(p5).spec_sub(p5).spec_add(p6).spec_sub(p6).spec_add(p7).spec_sub(p7).spec_add(p8).spec_sub(p8), p9, p9);
    lemma_swap_ss(p1.spec_sub(p1).spec_add(p2).spec_sub(p2).spec_add(p3).spec_sub(p3).spec_add(p4).spec_sub(p4).spec_add(p5).spec_sub(p5).spec_add(p6).spec_sub(p6).spec_add(p7).spec_sub(p7).spec_add(p8).spec_sub(p8).spec_add(p9).spec_sub(p9).spec_add(p10).spec_sub(p10).spec_add(p11), p12, p11);
    lemma_swap_sa(p1.spec_sub(p1).spec_add(p2).spec_sub(p2).spec_add(p3).spec_sub(p3).spec_add(p4).spec_sub(p4).spec_add(p5).spec_sub(p5).spec_add(p6).spec_sub(p6).spec_add(p7).spec_sub(p7).spec_add(p8).spec_sub(p8).spec_add(p9).spec_sub(p9).spec_add(p10).spec_sub(p10).spec_add(p11).spec_sub(p11), p12, p12);
    lemma_self_cancel(p1);
    lemma_cancel_adj(p1.spec_sub(p1), p2);
    lemma_cancel_adj(p1.spec_sub(p1).spec_add(p2).spec_sub(p2), p3);
    lemma_cancel_adj(p1.spec_sub(p1).spec_add(p2).spec_sub(p2).spec_add(p3).spec_sub(p3), p4);
    lemma_cancel_adj(p1.spec_sub(p1).spec_add(p2).spec_sub(p2).spec_add(p3).spec_sub(p3).spec_add(p4).spec_sub(p4), p5);
    lemma_cancel_adj(p1.spec_sub(p1).spec_add(p2).spec_sub(p2).spec_add(p3).spec_sub(p3).spec_add(p4).spec_sub(p4).spec_add(p5).spec_sub(p5), p6);
    lemma_cancel_adj(p1.spec_sub(p1).spec_add(p2).spec_sub(p2).spec_add(p3).spec_sub(p3).spec_add(p4).spec_sub(p4).spec_add(p5).spec_sub(p5).spec_add(p6).spec_sub(p6), p7);
    lemma_cancel_adj(p1.spec_sub(p1).spec_add(p2).spec_sub(p2).spec_add(p3).spec_sub(p3).spec_add(p4).spec_sub(p4).spec_add(p5).spec_sub(p5).spec_add(p6).spec_sub(p6).spec_add(p7).spec_sub(p7), p8);
    lemma_cancel_adj(p1.spec_sub(p1).spec_add(p2).spec_sub(p2).spec_add(p3).spec_sub(p3).spec_add(p4).spec_sub(p4).spec_add(p5).spec_sub(p5).spec_add(p6).spec_sub(p6).spec_add(p7).spec_sub(p7).spec_add(p8).spec_sub(p8), p9);
    lemma_cancel_adj(p1.spec_sub(p1).spec_add(p2).spec_sub(p2).spec_add(p3).spec_sub(p3).spec_add(p4).spec_sub(p4).spec_add(p5).spec_sub(p5).spec_add(p6).spec_sub(p6).spec_add(p7).spec_sub(p7).spec_add(p8).spec_sub(p8).spec_add(p9).spec_sub(p9), p10);
    lemma_cancel_adj(p1.spec_sub(p1).spec_add(p2).spec_sub(p2).spec_add(p3).spec_sub(p3).spec_add(p4).spec_sub(p4).spec_add(p5).spec_sub(p5).spec_add(p6).spec_sub(p6).spec_add(p7).spec_sub(p7).spec_add(p8).spec_sub(p8).spec_add(p9).spec_sub(p9).spec_add(p10).spec_sub(p10), p11);
    lemma_cancel_adj(p1.spec_sub(p1).spec_add(p2).spec_sub(p2).spec_add(p3).spec_sub(p3).spec_add(p4).spec_sub(p4).spec_add(p5).spec_sub(p5).spec_add(p6).spec_sub(p6).spec_add(p7).spec_sub(p7).spec_add(p8).spec_sub(p8).spec_add(p9).spec_sub(p9).spec_add(p10).spec_sub(p10).spec_add(p11).spec_sub(p11), p12);
}

pub(crate) proof fn lemma_inv_right_entry11<T: Scalar>(a: Seq<T>)
    requires
        a.len() == 16,
        field_sealed::<T>(),
        !det_seq(a).spec_is_zero(),
    ensures
        mul_seq(a, inverse_seq(a))[11] == T::spec_zero(),
{
    lemma_field_gives_ring::<T>();
    let inv = inverse_seq(a);
    let inv_d = T::spec_one().spec_div(det_seq(a));
    let b00 = minor2(a, 0, 5, 1, 4);
    let b01 = minor2(a, 0, 6, 2, 4);
    let b02 = minor2(a, 0, 7, 3, 4);
    let b03 = minor2(a, 1, 6, 2, 5);
    let b04 = minor2(a, 1, 7, 3, 5);
    let b05 = minor2(a, 2, 7, 3, 6);
    let b06 = minor2(a, 8, 13, 9, 12);
    let b07 = minor2(a, 8, 14, 10, 12);
    let b08 = minor2(a, 8, 15, 11, 12);
    let b09 = minor2(a, 9, 14, 10, 13);
    let b10 = minor2(a, 9, 15, 11, 13);
    let b11 = minor2(a, 10, 15, 11, 14);
    assert(mul_seq(a, inv)[11] == inv[8].spec_mul(a[3]).spec_add(inv[9].spec_mul(a[7])).spec_add(inv[10].spec_mul(a[11])).spec_add(inv[11].spec_mul(a[15])));
    assert(inv[8] == a[4].spec_mul(b10).spec_sub(a[5].spec_mul(b08)).spec_add(a[7].spec_mul(b06)).spec_mul(inv_d));
    assert(inv[9] == a[1].spec_mul(b08).spec_sub(a[0].spec_mul(b10)).spec_sub(a[3].spec_mul(b06)).spec_mul(inv_d));
    assert(inv[10] == a[12].spec_mul(b04).spec_sub(a[13].spec_mul(b02)).spec_add(a[15].spec_mul(b00)).spec_mul(inv_d));
    assert(inv[11] == a[9].spec_mul(b02).spec_sub(a[8].spec_mul(b04)).spec_sub(a[11].spec_mul(b00)).spec_mul(inv_d));
    lemma_mul_comm(a[4].spec_mul(b10).spec_sub(a[5].spec_mul(b08)).spec_add(a[7].spec_mul(b06)).spec_mul(inv_d), a[3]);
    lemma_mul_comm(a[1].spec_mul(b08).spec_sub(a[0].spec_mul(b10)).spec_sub(a[3].spec_mul(b06)).spec_mul(inv_d), a[7]);
    lemma_mul_comm(a[12].spec_mul(b04).spec_sub(a[13].spec_mul(b02)).spec_add(a[15].spec_mul(b00)).spec_mul(inv_d), a[11]);
    lemma_mul_comm(a[9].spec_mul(b02).spec_sub(a[8].spec_mul(b04)).spec_sub(a[11].spec_mul(b00)).spec_mul(inv_d), a[15]);
    lemma_mul_assoc(a[3], a[4].spec_mul(b10).spec_sub(a[5].spec_mul(b08)).spec_add(a[7].spec_mul(b06)), inv_d);
    lemma_mul_assoc(a[7], a[1].spec_mul(b08).spec_sub(a[0].spec_mul(b10)).spec_sub(a[3].spec_mul(b06)), inv_d);
    lemma_mul_assoc(a[11], a[12].spec_mul(b04).spec_sub(a[13].spec_mul(b02)).spec_add(a[15].spec_mul(b00)), inv_d);
    lemma_mul_assoc(a[15], a[9].spec_mul(b02).spec_sub(a[8].spec_mul(b04)).spec_sub(a[11].spec_mul(b00)), inv_d);
    lemma_factor4(
        a[3].spec_mul(a[4].spec_mul(b10).spec_sub(a[5].spec_mul(b08)).spec_add(a[7].spec_mul(b06))),
        a[7].spec_mul(a[1].spec_mul(b08).spec_sub(a[0].spec_mul(b10)).spec_sub(a[3].spec_mul(b06))),
        a[11].spec_mul(a[12].spec_mul(b04).spec_sub(a[13].spec_mul(b02)).spec_add(a[15].spec_mul(b00))),
        a[15].spec_mul(a[9].spec_mul(b02).spec_sub(a[8].spec_mul(b04)).spec_sub(a[11].spec_mul(b00))),
        inv_d,
    );
    lemma_distrib3_pmp(a[3], a[4].spec_mul(b10), a[5].spec_mul(b08), a[7].spec_mul(b06));
    lemma_mul_assoc(a[3], a[4], b10);
    lemma_mul_assoc(a[3], a[5], b08);
    lemma_mul_assoc(a[3], a[7], b06);
    lemma_distrib3_pmm(a[7], a[1].spec_mul(b08), a[0].spec_mul(b10), a[3].spec_mul(b06));
    lemma_mul_assoc(a[7], a[1], b08);
    lemma_mul_comm(a[7], a[1]);
    lemma_mul_assoc(a[7], a[0], b10);
    lemma_mul_comm(a[7], a[0]);
    lemma_mul_assoc(a[7], a[3], b06);
    lemma_mul_comm(a[7], a[3]);
    lemma_distrib3_pmp(a[11], a[12].spec_mul(b04), a[13].spec_mul(b02), a[15].spec_mul(b00));
    lemma_mul_assoc(a[11], a[12], b04);
    lemma_mul_assoc(a[11], a[13], b02);
    lemma_mul_assoc(a[11], a[15], b00);
    lemma_distrib3_pmm(a[15], a[9].spec_mul(b02), a[8].spec_mul(b04), a[11].spec_mul(b00));
    lemma_mul_assoc(a[15], a[9], b02);
    lemma_mul_comm(a[15], a[9]);
    lemma_mul_assoc(a[15], a[8], b04);
    lemma_mul_comm(a[15], a[8]);
    lemma_mul_assoc(a[15], a[11], b00);
    lemma_mul_comm(a[15], a[11]);
    lemma_append3_pmm(
        a[3].spec_mul(a[4]).spec_mul(b10).spec_sub(a[3].spec_mul(a[5]).spec_mul(b08)).spec_add(a[3].spec_mul(a[7]).spec_mul(b06)),
        a[1].spec_mul(a[7]).spec_mul(b08),
        a[0].spec_mul(a[7]).spec_mul(b10),
        a[3].spec_mul(a[7]).spec_mul(b06),
    );
    lemma_append3_pmp(
        a[3].spec_mul(a[4]).spec_mul(b10).spec_sub(a[3].spec_mul(a[5]).spec_mul(b08)).spec_add(a[3].spec_mul(a[7]).spec_mul(b06)).spec_add(a[1].spec_mul(a[7]).spec_mul(b08)).spec_sub(a[0].spec_mul(a[7]).spec_mul(b10)).spec_sub(a[3].spec_mul(a[7]).spec_mul(b06)),
        a[11].spec_mul(a[12]).spec_mul(b04),
        a[11].spec_mul(a[13]).spec_mul(b02),
        a[11].spec_mul(a[15]).spec_mul(b00),
    );
    lemma_append3_pmm(
        a[3].spec_mul(a[4]).spec_mul(b10).spec_sub(a[3].spec_mul(a[5]).spec_mul(b08)).spec_add(a[3].spec_mul(a[7]).spec_mul(b06)).spec_add(a[1].spec_mul(a[7]).spec_mul(b08)).spec_sub(a[0].spec_mul(a[7]).spec_mul(b10)).spec_sub(a[3].spec_mul(a[7]).spec_mul(b06)).spec_add(a[11].spec_mul(a[12]).spec_mul(b04)).spec_sub(a[11].spec_mul(a[13]).spec_mul(b02)).spec_add(a[11].spec_mul(a[15]).spec_mul(b00)),
        a[9].spec_mul(a[15]).spec_mul(b02),
        a[8].spec_mul(a[15]).spec_mul(b04),
        a[11].spec_mul(a[15]).spec_mul(b00),
    );
    let c3x4x9x15 = a[3].spec_mul(a[4]).spec_mul(a[9].spec_mul(a[15]));
    let c3x4x11x13 = a[3].spec_mul(a[4]).spec_mul(a[11].spec_mul(a[13]));
    let c3x5x8x15 = a[3].spec_mul(a[5]).spec_mul(a[8].spec_mul(a[15]));
    let c3x5x11x12 = a[3].spec_mul(a[5]).spec_mul(a[11].spec_mul(a[12]));
    let c3x7x8x13 = a[3].spec_mul(a[7]).spec_mul(a[8].spec_mul(a[13]));
    let c3x7x9x12 = a[3].spec_mul(a[7]).spec_mul(a[9].spec_mul(a[12]));
    let c1x7x8x15 = a[1].spec_mul(a[7]).spec_mul(a[8].spec_mul(a[15]));
    let c1x7x11x12 = a[1].spec_mul(a[7]).spec_mul(a[11].spec_mul(a[12]));
    let c0x7x9x15 = a[0].spec_mul(a[7]).spec_mul(a[9].spec_mul(a[15]));
    let c0x7x11x13 = a[0].spec_mul(a[7]).spec_mul(a[11].spec_mul(a[13]));
    let c0x5x11x15 = a[0].spec_mul(a[5]).spec_mul(a[11].spec_mul(a[15]));
    let c1x4x11x15 = a[1].spec_mul(a[4]).spec_mul(a[11].spec_mul(a[15]));
    lemma_distrib2(a[3].spec_mul(a[4]), a[9].spec_mul(a[15]), a[11].spec_mul(a[13]));
    lemma_distrib2(a[3].spec_mul(a[5]), a[8].spec_mul(a[15]), a[11].spec_mul(a[12]));
    lemma_distrib2(a[3].spec_mul(a[7]), a[8].spec_mul(a[13]), a[9].spec_mul(a[12]));
    lemma_distrib2(a[1].spec_mul(a[7]), a[8].spec_mul(a[15]), a[11].spec_mul(a[12]));
    lemma_distrib2(a[0].spec_mul(a[7]), a[9].spec_mul(a[15]), a[11].spec_mul(a[13]));
    lemma_distrib2(a[3].spec_mul(a[7]), a[8].spec_mul(a[13]), a[9].spec_mul(a[12]));
    lemma_distrib2(a[11].spec_mul(a[12]), a[1].spec_mul(a[7]), a[3].spec_mul(a[5]));
    lemma_distrib2(a[11].spec_mul(a[13]), a[0].spec_mul(a[7]), a[3].spec_mul(a[4]));
    lemma_distrib2(a[11].spec_mul(a[15]), a[0].spec_mul(a[5]), a[1].spec_mul(a[4]));
    lemma_distrib2(a[9].spec_mul(a[15]), a[0].spec_mul(a[7]), a[3].spec_mul(a[4]));
    lemma_distrib2(a[8].spec_mul(a[15]), a[1].spec_mul(a[7]), a[3].spec_mul(a[5]));
    lemma_distrib2(a[11].spec_mul(a[15]), a[0].spec_mul(a[5]), a[1].spec_mul(a[4]));
    lemma_mul_comm(a[11].spec_mul(a[12]), a[1].spec_mul(a[7]));
    lemma_mul_comm(a[11].spec_mul(a[12]), a[3].spec_mul(a[5]));
    lemma_mul_comm(a[11].spec_mul(a[13]), a[0].spec_mul(a[7]));
    lemma_mul_comm(a[11].spec_mul(a[13]), a[3].spec_mul(a[4]));
    lemma_mul_comm(a[11].spec_mul(a[15]), a[0].spec_mul(a[5]));
    lemma_mul_comm(a[11].spec_mul(a[15]), a[1].spec_mul(a[4]));
    lemma_mul_comm(a[9].spec_mul(a[15]), a[0].spec_mul(a[7]));
    lemma_mul_comm(a[9].spec_mul(a[15]), a[3].spec_mul(a[4]));
    lemma_mul_comm(a[8].spec_mul(a[15]), a[1].spec_mul(a[7]));
    lemma_mul_comm(a[8].spec_mul(a[15]), a[3].spec_mul(a[5]));
    lemma_append2_neg(
        c3x4x9x15.spec_sub(c3x4x11x13),
        c3x5x8x15,
        c3x5x11x12,
    );
    lemma_append2_pos(
        c3x4x9x15.spec_sub(c3x4x11x13).spec_sub(c3x5x8x15).spec_add(c3x5x11x12),
        c3x7x8x13,
        c3x7x9x12,
    );
    lemma_append2_pos(
        c3x4x9x15.spec_sub(c3x4x11x13).spec_sub(c3x5x8x15).spec_add(c3x5x11x12).spec_add(c3x7x8x13).spec_sub(c3x7x9x12),
        c1x7x8x15,
        c1x7x11x12,
    );
    lemma_append2_neg(
        c3x4x9x15.spec_sub(c3x4x11x13).spec_sub(c3x5x8x15).spec_add(c3x5x11x12).spec_add(c3x7x8x13).spec_sub(c3x7x9x12).spec_add(c1x7x8x15).spec_sub(c1x7x11x12),
        c0x7x9x15,
        c0x7x11x13,
    );
    lemma_append2_neg(
        c3x4x9x15.spec_sub(c3x4x11x13).spec_sub(c3x5x8x15).spec_add(c3x5x11x12).spec_add(c3x7x8x13).spec_sub(c3x7x9x12).spec_add(c1x7x8x15).spec_sub(c1x7x11x12).spec_sub(c0x7x9x15).spec_add(c0x7x11x13),
        c3x7x8x13,
        c3x7x9x12,
    );
    lemma_append2_pos(
        c3x4x9x15.spec_sub(c3x4x11x13).spec_sub(c3x5x8x15).spec_add(c3x5x11x12).spec_add(c3x7x8x13).spec_sub(c3x7x9x12).spec_add(c1x7x8x15).spec_sub(c1x7x11x12).spec_sub(c0x7x9x15).spec_add(c0x7x11x13).spec_sub(c3x7x8x13).spec_add(c3x7x9x12),
        c1x7x11x12,
        c3x5x11x12,
    );
    lemma_append2_neg(
        c3x4x9x15.spec_sub(c3x4x11x13).spec_sub(c3x5x8x15).spec_add(c3x5x11x12).spec_add(c3x7x8x13).spec_sub(c3x7x9x12).spec_add(c1x7x8x15).spec_sub(c1x7x11x12).spec_sub(c0x7x9x15).spec_add(c0x7x11x13).spec_sub(c3x7x8x13).spec_add(c3x7x9x12).spec_add(c1x7x11x12).spec_sub(c3x5x11x12),
        c0x7x11x13,
        c3x4x11x13,
    );
    lemma_append2_pos(
        c3x4x9x15.spec_sub(c3x4x11x13).spec_sub(c3x5x8x15).spec_add(c3x5x11x12).spec_add(c3x7x8x13).spec_sub(c3x7x9x12).spec_add(c1x7x8x15).spec_sub(c1x7x11x12).spec_sub(c0x7x9x15).spec_add(c0x7x11x13).spec_sub(c3x7x8x13).spec_add(c3x7x9x12).spec_add(c1x7x11x12).spec_sub(c3x5x11x12).spec_sub(c0x7x11x13).spec_add(c3x4x11x13),
        c0x5x11x15,
        c1x4x11x15,
    );
    lemma_append2_pos(
        c3x4x9x15.spec_sub(c3x4x11x13).spec_sub(c3x5x8x15).spec_add(c3x5x11x12).spec_add(c3x7x8x13).spec_sub(c3x7x9x12).spec_add(c1x7x8x15).spec_sub(c1x7x11x12).spec_sub(c0x7x9x15).spec_add(c0x7x11x13).spec_sub(c3x7x8x13).spec_add(c3x7x9x12).spec_add(c1x7x11x12).spec_sub(c3x5x11x12).spec_sub(c0x7x11x13).spec_add(c3x4x11x13).spec_add(c0x5x11x15).spec_sub(c1x4x11x15),
        c0x7x9x15,
        c3x4x9x15,
    );
    lemma_append2_neg(
        c3x4x9x15.spec_sub(c3x4x11x13).spec_sub(c3x5x8x15).spec_add(c3x5x11x12).spec_add(c3x7x8x13).spec_sub(c3x7x9x12).spec_add(c1x7x8x15).spec_sub(c1x7x11x12).spec_sub(c0x7x9x15).spec_add(c0x7x11x13).spec_sub(c3x7x8x13).spec_add(c3x7x9x12).spec_add(c1x7x11x12).spec_sub(c3x5x11x12).spec_sub(c0x7x11x13).spec_add(c3x4x11x13).spec_add(c0x5x11x15).spec_sub(c1x4x11x15).spec_add(c0x7x9x15).spec_sub(c3x4x9x15),
        c1x7x8x15,
        c3x5x8x15,
    );
    lemma_append2_neg(
        c3x4x9x15.spec_sub(c3x4x11x13).spec_sub(c3x5x8x15).spec_add(c3x5x11x12).spec_add(c3x7x8x13).spec_sub(c3x7x9x12).spec_add(c1x7x8x15).spec_sub(c1x7x11x12).spec_sub(c0x7x9x15).spec_add(c0x7x11x13).spec_sub(c3x7x8x13).spec_add(c3x7x9x12).spec_add(c1x7x11x12).spec_sub(c3x5x11x12).spec_sub(c0x7x11x13).spec_add(c3x4x11x13).spec_add(c0x5x11x15).spec_sub(c1x4x11x15).spec_add(c0x7x9x15).spec_sub(c3x4x9x15).spec_sub(c1x7x8x15).spec_add(c3x5x8x15),
        c0x5x11x15,
        c1x4x11x15,
    );
    lemma_inv_right_chain11(c3x4x9x15, c3x4x11x13, c3x5x8x15, c3x5x11x12, c3x7x8x13, c3x7x9x12, c1x7x8x15, c1x7x11x12, c0x7x9x15, c0x7x11x13, c0x5x11x15, c1x4x11x15);
    lemma_zero_mul(inv_d);
    assert(mul_seq(a, inv)[11] == T::spec_zero());
}

proof fn lemma_inv_right_chain12<T: Scalar>(p1: T, p2: T, p3: T, p4: T, p5: T, p6: T, p7: T, p8: T, p9: T, p10: T, p11: T, p12: T)
    requires
        laws_sealed::<T>(),
    ensures
        p1.spec_sub(p2).spec_sub(p3).spec_add(p4).spec_sub(p5).spec_add(p6).spec_add(p3).spec_sub(p4).spec_sub(p7).spec_add(p8).spec_add(p9).spec_sub(p10).spec_add(p5).spec_sub(p9).spec_sub(p11).spec_add(p12).spec_sub(p1).spec_add(p7).spec_add(p11).spec_sub(p12).spec_sub(p6).spec_add(p10).spec_add(p2).spec_sub(p8) == T::spec_zero(),
{
    lemma_swap_as(p1.spec_sub(p2).spec_sub(p3).spec_add(p4).spec_sub(p5).spec_add(p6).spec_add(p3).spec_sub(p4).spec_sub(p7).spec_add(p8).spec_add(p9).spec_sub(p10).spec_add(p5).spec_sub(p9).spec_sub(p11), p12, p1);
    lemma_swap_ss(p1.spec_sub(p2).spec_sub(p3).spec_add(p4).spec_sub(p5).spec_add(p6).spec_add(p3).spec_sub(p4).spec_sub(p7).spec_add(p8).spec_add(p9).spec_sub(p10).spec_add(p5).spec_sub(p9), p11, p1);
    lemma_swap_ss(p1.spec_sub(p2).spec_sub(p3).spec_add(p4).spec_sub(p5).spec_add(p6).spec_add(p3).spec_sub(p4).spec_sub(p7).spec_add(p8).spec_add(p9).spec_sub(p10).spec_add(p5), p9, p1);
    lemma_swap_as(p1.spec_sub(p2).spec_sub(p3).spec_add(p4).spec_sub(p5).spec_add(p6).spec_add(p3).spec_sub(p4).spec_sub(p7).spec_add(p8).spec_add(p9).spec_sub(p10), p5, p1);
    lemma_swap_ss(p1.spec_sub(p2).spec_sub(p3).spec_add(p4).spec_sub(p5).spec_add(p6).spec_add(p3).spec_sub(p4).spec_sub(p7).spec_add(p8).spec_add(p9), p10, p1);
    lemma_swap_as(p1.spec_sub(p2).spec_sub(p3).spec_add(p4).spec_sub(p5).spec_add(p6).spec_add(p3).spec_sub(p4).spec_sub(p7).spec_add(p8), p9, p1);
    lemma_swap_as(p1.spec_sub(p2).spec_sub(p3).spec_add(p4).spec_sub(p5).spec_add(p6).spec_add(p3).spec_sub(p4).spec_sub(p7), p8, p1);
    lemma_swap_ss(p1.spec_sub(p2).spec_sub(p3).spec_add(p4).spec_sub(p5).spec_add(p6).spec_add(p3).spec_sub(p4), p7, p1);
    lemma_swap_ss(p1.spec_sub(p2).spec_sub(p3).spec_add(p4).spec_sub(p5).spec_add(p6).spec_add(p3), p4, p1);
    lemma_swap_as(p1.spec_sub(p2).spec_sub(p3).spec_add(p4).spec_sub(p5).spec_add(p6), p3, p1);
    lemma_swap_as(p1.spec_sub(p2).spec_sub(p3).spec_add(p4).spec_sub(p5), p6, p1);
    lemma_swap_ss(p1.spec_sub(p2).spec_sub(p3).spec_add(p4), p5, p1);
    lemma_swap_as(p1.spec_sub(p2).spec_sub(p3), p4, p1);
    lemma_swap_ss(p1.spec_sub(p2), p3, p1);
    lemma_swap_ss(p1, p2, p1);
    lemma_swap_aa(p1.spec_sub(p1).spec_sub(p2).spec_sub(p3).spec_add(p4).spec_sub(p5).spec_add(p6).spec_add(p3).spec_sub(p4).spec_sub(p7).spec_add(p8).spec_add(p9).spec_sub(p10).spec_add(p5).spec_sub(p9).spec_sub(p11).spec_add(p12).spec_add(p7).spec_add(p11).spec_sub(p12).spec_sub(p6), p10, p2);
    lemma_swap_sa(p1.spec_sub(p1).spec_sub(p2).spec_sub(p3).spec_add(p4).spec_sub(p5).spec_add(p6).spec_add(p3).spec_sub(p4).spec_sub(p7).spec_add(p8).spec_add(p9).spec_sub(p10).spec_add(p5).spec_sub(p9).spec_sub(p11).spec_add(p12).spec_add(p7).spec_add(p11).spec_sub(p12), p6, p2);
    lemma_swap_sa(p1.spec_sub(p1).spec_sub(p2).spec_sub(p3).spec_add(p4).spec_sub(p5).spec_add(p6).spec_add(p3).spec_sub(p4).spec_sub(p7).spec_add(p8).spec_add(p9).spec_sub(p10).spec_add(p5).spec_sub(p9).spec_sub(p11).spec_add(p12).spec_add(p7).spec_add(p11), p12, p2);
    lemma_swap_aa(p1.spec_sub(p1).spec_sub(p2).spec_sub(p3).spec_add(p4).spec_sub(p5).spec_add(p6).spec_add(p3).spec_sub(p4).spec_sub(p7).spec_add(p8).spec_add(p9).spec_sub(p10).spec_add(p5).spec_sub(p9).spec_sub(p11).spec_add(p12).spec_add(p7), p11, p2);
    lemma_swap_aa(p1.spec_sub(p1).spec_sub(p2).spec_sub(p3).spec_add(p4).spec_sub(p5).spec_add(p6).spec_add(p3).spec_sub(p4).spec_sub(p7).spec_add(p8).spec_add(p9).spec_sub(p10).spec_add(p5).spec_sub(p9).spec_sub(p11).spec_add(p12), p7, p2);
    lemma_swap_aa(p1.spec_sub(p1).spec_sub(p2).spec_sub(p3).spec_add(p4).spec_sub(p5).spec_add(p6).spec_add(p3).spec_sub(p4).spec_sub(p7).spec_add(p8).spec_add(p9).spec_sub(p10).spec_add(p5).spec_sub(p9).spec_sub(p11), p12, p2);
    lemma_swap_sa(p1.spec_sub(p1).spec_sub(p2).spec_sub(p3).spec_add(p4).spec_sub(p5).spec_add(p6).spec_add(p3).spec_sub(p4).spec_sub(p7).spec_add(p8).spec_add(p9).spec_sub(p10).spec_add(p5).spec_sub(p9), p11, p2);
    lemma_swap_sa(p1.spec_sub(p1).spec_sub(p2).spec_sub(p3).spec_add(p4).spec_sub(p5).spec_add(p6).spec_add(p3).spec_sub(p4).spec_sub(p7).spec_add(p8).spec_add(p9).spec_sub(p10).spec_add(p5), p9, p2);
    lemma_swap_aa(p1.spec_sub(p1).spec_sub(p2).spec_sub(p3).spec_add(p4).spec_sub(p5).spec_add(p6).spec_add(p3).spec_sub(p4).spec_sub(p7).spec_add(p8).spec_add(p9).spec_sub(p10), p5, p2);
    lemma_swap_sa(p1.spec_sub(p1).spec_sub(p2).spec_sub(p3).spec_add(p4).spec_sub(p5).spec_add(p6).spec_add(p3).spec_sub(p4).spec_sub(p7).spec_add(p8).spec_add(p9), p10, p2);
    lemma_swap_aa(p1.spec_sub(p1).spec_sub(p2).spec_sub(p3).spec_add(p4).spec_sub(p5).spec_add(p6).spec_add(p3).spec_sub(p4).spec_sub(p7).spec_add(p8), p9, p2);
    lemma_swap_aa(p1.spec_sub(p1).spec_sub(p2).spec_sub(p3).spec_add(p4).spec_sub(p5).spec_add(p6).spec_add(p3).spec_sub(p4).spec_sub(p7), p8, p2);
    lemma_swap_sa(p1.spec_sub(p1).spec_sub(p2).spec_sub(p3).spec_add(p4).spec_sub(p5).spec_add(p6).spec_add(p3).spec_sub(p4), p7, p2);
    lemma_swap_sa(p1.spec_sub(p1).spec_sub(p2).spec_sub(p3).spec_add(p4).spec_sub(p5).spec_add(p6).spec_add(p3), p4, p2);
    lemma_swap_aa(p1.spec_sub(p1).spec_sub(p2).spec_sub(p3).spec_add(p4).spec_sub(p5).spec_add(p6), p3, p2);
    lemma_swap_aa(p1.spec_sub(p1).spec_sub(p2).spec_sub(p3).spec_add(p4).spec_sub(p5), p6, p2);
    lemma_swap_sa(p1.spec_sub(p1).spec_sub(p2).spec_sub(p3).spec_add(p4), p5, p2);
    lemma_swap_aa(p1.spec_sub(p1).spec_sub(p2).spec_sub(p3), p4, p2);
    lemma_swap_sa(p1.spec_sub(p1).spec_sub(p2), p3, p2);
    lemma_swap_sa(p1.spec_sub(p1), p2, p2);
    lemma_swap_aa(p1.spec_sub(p1).spec_add(p2).spec_sub(p2).spec_sub(p3).spec_add(p4).spec_sub(p5), p6, p3);
    lemma_swap_sa(p1.spec_sub(p1).spec_add(p2).spec_sub(p2).spec_sub(p3).spec_add(p4), p5, p3);
    lemma_swap_aa(p1.spec_sub(p1).spec_add(p2).spec_sub(p2).spec_sub(p3), p4, p3);
    lemma_swap_sa(p1.spec_sub(p1).spec_add(p2).spec_sub(p2), p3, p3);
    lemma_swap_as(p1.spec_sub(p1).spec_add(p2).spec_sub(p2).spec_add(p3).spec_sub(p3).spec_add(p4).spec_sub(p5), p6, p4);
    lemma_swap_ss(p1.spec_sub(p1).spec_add(p2).spec_sub(p2).spec_add(p3).spec_sub(p3).spec_add(p4), p5, p4);
    lemma_swap_sa(p1.spec_sub(p1).spec_add(p2).spec_sub(p2).spec_add(p3).spec_sub(p3).spec_add(p4).spec_sub(p4).spec_sub(p5).spec_add(p6).spec_sub(p7).spec_add(p8).spec_add(p9), p10, p5);
    lemma_swap_aa(p1.spec_sub(p1).spec_add(p2).spec_sub(p2).spec_add(p3).spec_sub(p3).spec_add(p4).spec_sub(p4).spec_sub(p5).spec_add(p6).spec_sub(p7).spec_add(p8), p9, p5);
    lemma_swap_aa(p1.spec_sub(p1).spec_add(p2).spec_sub(p2).spec_add(p3).spec_sub(p3).spec_add(p4).spec_sub(p4).spec_sub(p5).spec_add(p6).spec_sub(p7), p8, p5);
    lemma_swap_sa(p1.spec_sub(p1).spec_add(p2).spec_sub(p2).spec_add(p3).spec_sub(p3).spec_add(p4).spec_sub(p4).spec_sub(p5).spec_add(p6), p7, p5);
    lemma_swap_aa(p1.spec_sub(p1).spec_add(p2).spec_sub(p2).spec_add(p3).spec_sub(p3).spec_add(p4).spec_sub(p4).spec_sub(p5), p6, p5);
    lemma_swap_sa(p1.spec_sub(p1).spec_add(p2).spec_sub(p2).spec_add(p3).spec_sub(p3).spec_add(p4).spec_sub(p4), p5, p5);
    lemma_swap_ss(p1.spec_sub(p1).spec_add(p2).spec_sub(p2).spec_add(p3).spec_sub(p3).spec_add(p4).spec_sub(p4).spec_add(p5).spec_sub(p5).spec_add(p6).spec_sub(p7).spec_add(p8).spec_add(p9).spec_sub(p10).spec_sub(p9).spec_sub(p11).spec_add(p12).spec_add(p7).spec_add(p11), p12, p6);
    lemma_swap_as(p1.spec_sub(p1).spec_add(p2).spec_sub(p2).spec_add(p3).spec_sub(p3).spec_add(p4).spec_sub(p4).spec_add(p5).spec_sub(p5).spec_add(p6).spec_sub(p7).spec_add(p8).spec_add(p9).spec_sub(p10).spec_sub(p9).spec_sub(p11).spec_add(p12).spec_add(p7), p11, p6);
    lemma_swap_as(p1.spec_sub(p1).spec_add(p2).spec_sub(p2).spec_add(p3).spec_sub(p3).spec_add(p4).spec_sub(p4).spec_add(p5).spec_sub(p5).spec_add(p6).spec_sub(p7).spec_add(p8).spec_add(p9).spec_sub(p10).spec_sub(p9).spec_sub(p11).spec_add(p12), p7, p6);
    lemma_swap_as(p1.spec_sub(p1).spec_add(p2).spec_sub(p2).spec_add(p3).spec_sub(p3).spec_add(p4).spec_sub(p4).spec_add(p5).spec_sub(p5).spec_add(p6).spec_sub(p7).spec_add(p8).spec_add(p9).spec_sub(p10).spec_sub(p9).spec_sub(p11), p12, p6);
    lemma_swap_ss(p1.spec_sub(p1).spec_add(p2).spec_sub(p2).spec_add(p3).spec_sub(p3).spec_add(p4).spec_sub(p4).spec_add(p5).spec_sub(p5).spec_add(p6).spec_sub(p7).spec_add(p8).spec_add(p9).spec_sub(p10).spec_sub(p9), p11, p6);
    lemma_swap_ss(p1.spec_sub(p1).spec_add(p2).spec_sub(p2).spec_add(p3).spec_sub(p3).spec_add(p4).spec_sub(p4).spec_add(p5).spec_sub(p5).spec_add(p6).spec_sub(p7).spec_add(p8).spec_add(p9).spec_sub(p10), p9, p6);
    lemma_swap_ss(p1.spec_sub(p1).spec_add(p2).spec_sub(p2).spec_add(p3).spec_sub(p3).spec_add(p4).spec_sub(p4).spec_add(p5).spec_sub(p5).spec_add(p6).spec_sub(p7).spec_add(p8).spec_add(p9), p10, p6);
    lemma_swap_as(p1.spec_sub(p1).spec_add(p2).spec_sub(p2).spec_add(p3).spec_sub(p3).spec_add(p4).spec_sub(p4).spec_add(p5).spec_sub(p5).spec_add(p6).spec_sub(p7).spec_add(p8), p9, p6);
    lemma_swap_as(p1.spec_sub(p1).spec_add(p2).spec_sub(p2).spec_add(p3).spec_sub(p3).spec_add(p4).spec_sub(p4).spec_add(p5).spec_sub(p5).spec_add(p6).spec_sub(p7), p8, p6);
    lemma_swap_ss(p1.spec_sub(p1).spec_add(p2).spec_sub(p2).spec_add(p3).spec_sub(p3).spec_add(p4).spec_sub(p4).spec_add(p5).spec_sub(p5).spec_add(p6), p7, p6);
    lemma_swap_aa(p1.spec_sub(p1).spec_add(p2).spec_sub(p2).spec_add(p3).spec_sub(p3).spec_add(p4).spec_sub(p4).spec_add(p5).spec_sub(p5).spec_add(p6).spec_sub(p6).spec_sub(p7).spec_add(p8).spec_add(p9).spec_sub(p10).spec_sub(p9).spec_sub(p11), p12, p7);
    lemma_swap_sa(p1.spec_sub(p1).spec_add(p2).spec_sub(p2).spec_add(p3).spec_sub(p3).spec_add(p4).spec_sub(p4).spec_add(p5).spec_sub(p5).spec_add(p6).spec_sub(p6).spec_sub(p7).spec_add(p8).spec_add(p9).spec_sub(p10).spec_sub(p9), p11, p7);
    lemma_swap_sa(p1.spec_sub(p1).spec_add(p2).spec_sub(p2).spec_add(p3).spec_sub(p3).spec_add(p4).spec_sub(p4).spec_add(p5).spec_sub(p5).spec_add(p6).spec_sub(p6).spec_sub(p7).spec_add(p8).spec_add(p9).spec_sub(p10), p9, p7);
    lemma_swap_sa(p1.spec_sub(p1).spec_add(p2).spec_sub(p2).spec_add(p3).spec_sub(p3).spec_add(p4).spec_sub(p4).spec_add(p5).spec_sub(p5).spec_add(p6).spec_sub(p6).spec_sub(p7).spec_add(p8).spec_add(p9), p10, p7);
    lemma_swap_aa(p1.spec_sub(p1).spec_add(p2).spec_sub(p2).spec_add(p3).spec_sub(p3).spec_add(p4).spec_sub(p4).spec_add(p5).spec_sub(p5).spec_add(p6).spec_sub(p6).spec_sub(p7).spec_add(p8), p9, p7);
    lemma_swap_aa(p1.spec_sub(p1).spec_add(p2).spec_sub(p2).spec_add(p3).spec_sub(p3).spec_add(p4).spec_sub(p4).spec_add(p5).spec_sub(p5).spec_add(p6).spec_sub(p6).spec_sub(p7), p8, p7);
    lemma_swap_sa(p1.spec_sub(p1).spec_add(p2).spec_sub(p2).spec_add(p3).spec_sub(p3).spec_add(p4).spec_sub(p4).spec_add(p5).spec_sub(p5).spec_add(p6).spec_sub(p6), p7, p7);
    lemma_swap_as(p1.spec_sub(p1).spec_add(p2).spec_sub(p2).spec_add(p3).spec_sub(p3).spec_add(p4).spec_sub(p4).spec_add(p5).spec_sub(p5).spec_add(p6).spec_sub(p6).spec_add(p7).spec_sub(p7).spec_add(p8).spec_add(p9).spec_sub(p10).spec_sub(p9).spec_sub(p11).spec_add(p12).spec_add(p11).spec_sub(p12), p10, p8);
    lemma_swap_ss(p1.spec_sub(p1).spec_add(p2).spec_sub(p2).spec_add(p3).spec_sub(p3).spec_add(p4).spec_sub(p4).spec_add(p5).spec_sub(p5).spec_add(p6).spec_sub(p6).spec_add(p7).spec_sub(p7).spec_add(p8).spec_add(p9).spec_sub(p10).spec_sub(p9).spec_sub(p11).spec_add(p12).spec_add(p11), p12, p8);
    lemma_swap_as(p1.spec_sub(p1).spec_add(p2).spec_sub(p2).spec_add(p3).spec_sub(p3).spec_add(p4).spec_sub(p4).spec_add(p5).spec_sub(p5).spec_add(p6).spec_sub(p6).spec_add(p7).spec_sub(p7).spec_add(p8).spec_add(p9).spec_sub(p10).spec_sub(p9).spec_sub(p11).spec_add(p12), p11, p8);
    lemma_swap_as(p1.spec_sub(p1).spec_add(p2).spec_sub(p2).spec_add(p3).spec_sub(p3).spec_add(p4).spec_sub(p4).spec_add(p5).spec_sub(p5).spec_add(p6).spec_sub(p6).spec_add(p7).spec_sub(p7).spec_add(p8).spec_add(p9).spec_sub(p10).spec_sub(p9).spec_sub(p11), p12, p8);
    lemma_swap_ss(p1.spec_sub(p1).spec_add(p2).spec_sub(p2).spec_add(p3).spec_sub(p3).spec_add(p4).spec_sub(p4).spec_add(p5).spec_sub(p5).spec_add(p6).spec_sub(p6).spec_add(p7).spec_sub(p7).spec_add(p8).spec_add(p9).spec_sub(p10).spec_sub(p9), p11, p8);
    lemma_swap_ss(p1.spec_sub(p1).spec_add(p2).spec_sub(p2).spec_add(p3).spec_sub(p3).spec_add(p4).spec_sub(p4).spec_add(p5).spec_sub(p5).spec_add(p6).spec_sub(p6).spec_add(p7).spec_sub(p7).spec_add(p8).spec_add(p9).spec_sub(p10), p9, p8);
    lemma_swap_ss(p1.spec_sub(p1).spec_add(p2).spec_sub(p2).spec_add(p3).spec_sub(p3).spec_add(p4).spec_sub(p4).spec_add(p5).spec_sub(p5).spec_add(p6).spec_sub(p6).spec_add(p7).spec_sub(p7).spec_add(p8).spec_add(p9), p10, p8);
    lemma_swap_as(p1.spec_sub(p1).spec_add(p2).spec_sub(p2).spec_add(p3).spec_sub(p3).spec_add(p4).spec_sub(p4).spec_add(p5).spec_sub(p5).spec_add(p6).spec_sub(p6).spec_add(p7).spec_sub(p7).spec_add(p8), p9, p8);
    lemma_swap_ss(p1.spec_sub(p1).spec_add(p2).spec_sub(p2).spec_add(p3).spec_sub(p3).spec_add(p4).spec_sub(p4).spec_add(p5).spec_sub(p5).spec_add(p6).spec_sub(p6).spec_add(p7).spec_sub(p7).spec_add(p8).spec_sub(p8).spec_add(p9), p10, p9);
    lemma_swap_sa(p1.spec_sub(p1).spec_add(p2).spec_sub(p2).spec_add(p3).spec_sub(p3).spec_add(p4).spec_sub(p4).spec_add(p5).spec_sub(p5).spec_add(p6).spec_sub(p6).spec_add(p7).spec_sub(p7).spec_add(p8).spec_sub(p8).spec_add(p9).spec_sub(p9).spec_sub(p10).spec_sub(p11).spec_add(p12).spec_add(p11), p12, p10);
    lemma_swap_aa(p1.spec_sub(p1).spec_add(p2).spec_sub(p2).spec_add(p3).spec_sub(p3).spec_add(p4).spec_sub(p4).spec_add(p5).spec_sub(p5).spec_add(p6).spec_sub(p6).spec_add(p7).spec_sub(p7).spec_add(p8).spec_sub(p8).spec_add(p9).spec_sub(p9).spec_sub(p10).spec_sub(p11).spec_add(p12), p11, p10);
    lemma_swap_aa(p1.spec_sub(p1).spec_add(p2).spec_sub(p2).spec_add(p3).spec_sub(p3).spec_add(p4).spec_sub(p4).spec_add(p5).spec_sub(p5).spec_add(p6).spec_sub(p6).spec_add(p7).spec_sub(p7).spec_add(p8).spec_sub(p8).spec_add(p9).spec_sub(p9).spec_sub(p10).spec_sub(p11), p12, p10);
    lemma_swap_sa(p1.spec_sub(p1).spec_add(p2).spec_sub(p2).spec_add(p3).spec_sub(p3).spec_add(p4).spec_sub(p4).spec_add(p5).spec_sub(p5).spec_add(p6).spec_sub(p6).spec_add(p7).spec_sub(p7).spec_add(p8).spec_sub(p8).spec_add(p9).spec_sub(p9).spec_sub(p10), p11, p10);
    lemma_swap_sa(p1.spec_sub(p1).spec_add(p2).spec_sub(p2).spec_add(p3).spec_sub(p3).spec_add(p4).spec_sub(p4).spec_add(p5).spec_sub(p5).spec_add(p6).spec_sub(p6).spec_add(p7).spec_sub(p7).spec_add(p8).spec_sub(p8).spec_add(p9).spec_sub(p9), p10, p10);
    lemma_swap_aa(p1.spec_sub(p1).spec_add(p2).spec_sub(p2).spec_add(p3).spec_sub(p3).spec_add(p4).spec_sub(p4).spec_add(p5).spec_sub(p5).spec_add(p6).spec_sub(p6).spec_add(p7).spec_sub(p7).spec_add(p8).spec_sub(p8).spec_add(p9).spec_sub(p9).spec_add(p10).spec_sub(p10).spec_sub(p11), p12, p11);
    lemma_swap_sa(p1.spec_sub(p1).spec_add(p2).spec_sub(p2).spec_add(p3).spec_sub(p3).spec_add(p4).spec_sub(p4).spec_add(p5).spec_sub(p5).spec_add(p6).spec_sub(p6).spec_add(p7).spec_sub(p7).spec_add(p8).spec_sub(p8).spec_add(p9).spec_sub(p9).spec_add(p10).spec_sub(p10), p11, p11);
    lemma_self_cancel(p1);
    lemma_cancel_adj(p1.spec_sub(p1), p2);
    lemma_cancel_adj(p1.spec_sub(p1).spec_add(p2).spec_sub(p2), p3);
    lemma_cancel_adj(p1.spec_sub(p1).spec_add(p2).spec_sub(p2).spec_add(p3).spec_sub(p3), p4);
    lemma_cancel_adj(p1.spec_sub(p1).spec_add(p2).spec_sub(p2).spec_add(p3).spec_sub(p3).spec_add(p4).spec_sub(p4), p5);
    lemma_cancel_adj(p1.spec_sub(p1).spec_add(p2).spec_sub(p2).spec_add(p3).spec_sub(p3).spec_add(p4).spec_sub(p4).spec_add(p5).spec_sub(p5), p6);
    lemma_cancel_adj(p1.spec_sub(p1).spec_add(p2).spec_sub(p2).spec_add(p3).spec_sub(p3).spec_add(p4).spec_sub(p4).spec_add(p5).spec_sub(p5).spec_add(p6).spec_sub(p6), p7);
    lemma_cancel_adj(p1.spec_sub(p1).spec_add(p2).spec_sub(p2).spec_add(p3).spec_sub(p3).spec_add(p4).spec_sub(p4).spec_add(p5).spec_sub(p5).spec_add(p6).spec_sub(p6).spec_add(p7).spec_sub(p7), p8);
    lemma_cancel_adj(p1.spec_sub(p1).spec_add(p2).spec_sub(p2).spec_add(p3).spec_sub(p3).spec_add(p4).spec_sub(p4).spec_add(p5).spec_sub(p5).spec_add(p6).spec_sub(p6).spec_add(p7).spec_sub(p7).spec_add(p8).spec_sub(p8), p9);
    lemma_cancel_adj(p1.spec_sub(p1).spec_add(p2).spec_sub(p2).spec_add(p3).spec_sub(p3).spec_add(p4).spec_sub(p4).spec_add(p5).spec_sub(p5).spec_add(p6).spec_sub(p6).spec_add(p7).spec_sub(p7).spec_add(p8).spec_sub(p8).spec_add(p9).spec_sub(p9), p10);
    lemma_cancel_adj(p1.spec_sub(p1).spec_add(p2).spec_sub(p2).spec_add(p3).spec_sub(p3).spec_add(p4).spec_sub(p4).spec_add(p5).spec_sub(p5).spec_add(p6).spec_sub(p6).spec_add(p7).spec_sub(p7).spec_add(p8).spec_sub(p8).spec_add(p9).spec_sub(p9).spec_add(p10).spec_sub(p10), p11);
    lemma_cancel_adj(p1.spec_sub(p1).spec_add(p2).spec_sub(p2).spec_add(p3).spec_sub(p3).spec_add(p4).spec_sub(p4).spec_add(p5).spec_sub(p5).spec_add(p6).spec_sub(p6).spec_add(p7).spec_sub(p7).spec_add(p8).spec_sub(p8).spec_add(p9).spec_sub(p9).spec_add(p10).spec_sub(p10).spec_add(p11).spec_sub(p11), p12);
}

pub(crate) proof fn lemma_inv_right_entry12<T: Scalar>(a: Seq<T>)
    requires
        a.len() == 16,
        field_sealed::<T>(),
        !det_seq(a).spec_is_zero(),
    ensures
        mul_seq(a, inverse_seq(a))[12] == T::spec_zero(),
{
    lemma_field_gives_ring::<T>();
    let inv = inverse_seq(a);
    let inv_d = T::spec_one().spec_div(det_seq(a));
    let b00 = minor2(a, 0, 5, 1, 4);
    let b01 = minor2(a, 0, 6, 2, 4);
    let b02 = minor2(a, 0, 7, 3, 4);
    let b03 = minor2(a, 1, 6, 2, 5);
    let b04 = minor2(a, 1, 7, 3, 5);
    let b05 = minor2(a, 2, 7, 3, 6);
    let b06 = minor2(a, 8, 13, 9, 12);
    let b07 = minor2(a, 8, 14, 10, 12);
    let b08 = minor2(a, 8, 15, 11, 12);
    let b09 = minor2(a, 9, 14, 10, 13);
    let b10 = minor2(a, 9, 15, 11, 13);
    let b11 = minor2(a, 10, 15, 11, 14);
    assert(mul_seq(a, inv)[12] == inv[12].spec_mul(a[0]).spec_add(inv[13].spec_mul(a[4])).spec_add(inv[14].spec_mul(a[8])).spec_add(inv[15].spec_mul(a[12])));
    assert(inv[12] == a[5].spec_mul(b07).spec_sub(a[4].spec_mul(b09)).spec_sub(a[6].spec_mul(b06)).spec_mul(inv_d));
    assert(inv[13] == a[0].spec_mul(b09).spec_sub(a[1].spec_mul(b07)).spec_add(a[2].spec_mul(b06)).spec_mul(inv_d));
    assert(inv[14] == a[13].spec_mul(b01).spec_sub(a[12].spec_mul(b03)).spec_sub(a[14].spec_mul(b00)).spec_mul(inv_d));
    assert(inv[15] == a[8].spec_mul(b03).spec_sub(a[9].spec_mul(b01)).spec_add(a[10].spec_mul(b00)).spec_mul(inv_d));
    lemma_mul_comm(a[5].spec_mul(b07).spec_sub(a[4].spec_mul(b09)).spec_sub(a[6].spec_mul(b06)).spec_mul(inv_d), a[0]);
    lemma_mul_comm(a[0].spec_mul(b09).spec_sub(a[1].spec_mul(b07)).spec_add(a[2].spec_mul(b06)).spec_mul(inv_d), a[4]);
    lemma_mul_comm(a[13].spec_mul(b01).spec_sub(a[12].spec_mul(b03)).spec_sub(a[14].spec_mul(b00)).spec_mul(inv_d), a[8]);
    lemma_mul_comm(a[8].spec_mul(b03).spec_sub(a[9].spec_mul(b01)).spec_add(a[10].spec_mul(b00)).spec_mul(inv_d), a[12]);
    lemma_mul_assoc(a[0], a[5].spec_mul(b07).spec_sub(a[4].spec_mul(b09)).spec_sub(a[6].spec_mul(b06)), inv_d);
    lemma_mul_assoc(a[4], a[0].spec_mul(b09).spec_sub(a[1].spec_mul(b07)).spec_add(a[2].spec_mul(b06)), inv_d);
    lemma_mul_assoc(a[8], a[13].spec_mul(b01).spec_sub(a[12].spec_mul(b03)).spec_sub(a[14].spec_mul(b00)), inv_d);
    lemma_mul_assoc(a[12], a[8].spec_mul(b03).spec_sub(a[9].spec_mul(b01)).spec_add(a[10].spec_mul(b00)), inv_d);
    lemma_factor4(
        a[0].spec_mul(a[5].spec_mul(b07).spec_sub(a[4].spec_mul(b09)).spec_sub(a[6].spec_mul(b06))),
        a[4].spec_mul(a[0].spec_mul(b09).spec_sub(a[1].spec_mul(b07)).spec_add(a[2].spec_mul(b06))),
        a[8].spec_mul(a[13].spec_mul(b01).spec_sub(a[12].spec_mul(b03)).spec_sub(a[14].spec_mul(b00))),
        a[12].spec_mul(a[8].spec_mul(b03).spec_sub(a[9].spec_mul(b01)).spec_add(a[10].spec_mul(b00))),
        inv_d,
    );
    lemma_distrib3_pmm(a[0], a[5].spec_mul(b07), a[4].spec_mul(b09), a[6].spec_mul(b06));
    lemma_mul_assoc(a[0], a[5], b07);
    lemma_mul_assoc(a[0], a[4], b09);
    lemma_mul_assoc(a[0], a[6], b06);
    lemma_distrib3_pmp(a[4], a[0].spec_mul(b09), a[1].spec_mul(b07), a[2].spec_mul(b06));
    lemma_mul_assoc(a[4], a[0], b09);
    lemma_mul_comm(a[4], a[0]);
    lemma_mul_assoc(a[4], a[1], b07);
    lemma_mul_comm(a[4], a[1]);
    lemma_mul_assoc(a[4], a[2], b06);
    lemma_mul_comm(a[4], a[2]);
    lemma_distrib3_pmm(a[8], a[13].spec_mul(b01), a[12].spec_mul(b03), a[14].spec_mul(b00));
    lemma_mul_assoc(a[8], a[13], b01);
    lemma_mul_assoc(a[8], a[12], b03);
    lemma_mul_assoc(a[8], a[14], b00);
    lemma_distrib3_pmp(a[12], a[8].spec_mul(b03), a[9].spec_mul(b01), a[10].spec_mul(b00));
    lemma_mul_assoc(a[12], a[8], b03);
    lemma_mul_comm(a[12], a[8]);
    lemma_mul_assoc(a[12], a[9], b01);
    lemma_mul_comm(a[12], a[9]);
    lemma_mul_assoc(a[12], a[10], b00);
    lemma_mul_comm(a[12], a[10]);
    lemma_append3_pmp(
        a[0].spec_mul(a[5]).spec_mul(b07).spec_sub(a[0].spec_mul(a[4]).spec_mul(b09)).spec_sub(a[0].spec_mul(a[6]).spec_mul(b06)),
        a[0].spec_mul(a[4]).spec_mul(b09),
        a[1].spec_mul(a[4]).spec_mul(b07),
        a[2].spec_mul(a[4]).spec_mul(b06),
    );
    lemma_append3_pmm(
        a[0].spec_mul(a[5]).spec_mul(b07).spec_sub(a[0].spec_mul(a[4]).spec_mul(b09)).spec_sub(a[0].spec_mul(a[6]).spec_mul(b06)).spec_add(a[0].spec_mul(a[4]).spec_mul(b09)).spec_sub(a[1].spec_mul(a[4]).spec_mul(b07)).spec_add(a[2].spec_mul(a[4]).spec_mul(b06)),
        a[8].spec_mul(a[13]).spec_mul(b01),
        a[8].spec_mul(a[12]).spec_mul(b03),
        a[8].spec_mul(a[14]).spec_mul(b00),
    );
    lemma_append3_pmp(
        a[0].spec_mul(a[5]).spec_mul(b07).spec_sub(a[0].spec_mul(a[4]).spec_mul(b09)).spec_sub(a[0].spec_mul(a[6]).spec_mul(b06)).spec_add(a[0].spec_mul(a[4]).spec_mul(b09)).spec_sub(a[1].spec_mul(a[4]).spec_mul(b07)).spec_add(a[2].spec_mul(a[4]).spec_mul(b06)).spec_add(a[8].spec_mul(a[13]).spec_mul(b01)).spec_sub(a[8].spec_mul(a[12]).spec_mul(b03)).spec_sub(a[8].spec_mul(a[14]).spec_mul(b00)),
        a[8].spec_mul(a[12]).spec_mul(b03),
        a[9].spec_mul(a[12]).spec_mul(b01),
        a[10].spec_mul(a[12]).spec_mul(b00),
    );
    let c0x5x8x14 = a[0].spec_mul(a[5]).spec_mul(a[8].spec_mul(a[14]));
    let c0x5x10x12 = a[0].spec_mul(a[5]).spec_mul(a[10].spec_mul(a[12]));
    let c0x4x9x14 = a[0].spec_mul(a[4]).spec_mul(a[9].spec_mul(a[14]));
    let c0x4x10x13 = a[0].spec_mul(a[4]).spec_mul(a[10].spec_mul(a[13]));
    let c0x6x8x13 = a[0].spec_mul(a[6]).spec_mul(a[8].spec_mul(a[13]));
    let c0x6x9x12 = a[0].spec_mul(a[6]).spec_mul(a[9].spec_mul(a[12]));
    let c1x4x8x14 = a[1].spec_mul(a[4]).spec_mul(a[8].spec_mul(a[14]));
    let c1x4x10x12 = a[1].spec_mul(a[4]).spec_mul(a[10].spec_mul(a[12]));
    let c2x4x8x13 = a[2].spec_mul(a[4]).spec_mul(a[8].spec_mul(a[13]));
    let c2x4x9x12 = a[2].spec_mul(a[4]).spec_mul(a[9].spec_mul(a[12]));
    let c1x6x8x12 = a[1].spec_mul(a[6]).spec_mul(a[8].spec_mul(a[12]));
    let c2x5x8x12 = a[2].spec_mul(a[5]).spec_mul(a[8].spec_mul(a[12]));
    lemma_distrib2(a[0].spec_mul(a[5]), a[8].spec_mul(a[14]), a[10].spec_mul(a[12]));
    lemma_distrib2(a[0].spec_mul(a[4]), a[9].spec_mul(a[14]), a[10].spec_mul(a[13]));
    lemma_distrib2(a[0].spec_mul(a[6]), a[8].spec_mul(a[13]), a[9].spec_mul(a[12]));
    lemma_distrib2(a[0].spec_mul(a[4]), a[9].spec_mul(a[14]), a[10].spec_mul(a[13]));
    lemma_distrib2(a[1].spec_mul(a[4]), a[8].spec_mul(a[14]), a[10].spec_mul(a[12]));
    lemma_distrib2(a[2].spec_mul(a[4]), a[8].spec_mul(a[13]), a[9].spec_mul(a[12]));
    lemma_distrib2(a[8].spec_mul(a[13]), a[0].spec_mul(a[6]), a[2].spec_mul(a[4]));
    lemma_distrib2(a[8].spec_mul(a[12]), a[1].spec_mul(a[6]), a[2].spec_mul(a[5]));
    lemma_distrib2(a[8].spec_mul(a[14]), a[0].spec_mul(a[5]), a[1].spec_mul(a[4]));
    lemma_distrib2(a[8].spec_mul(a[12]), a[1].spec_mul(a[6]), a[2].spec_mul(a[5]));
    lemma_distrib2(a[9].spec_mul(a[12]), a[0].spec_mul(a[6]), a[2].spec_mul(a[4]));
    lemma_distrib2(a[10].spec_mul(a[12]), a[0].spec_mul(a[5]), a[1].spec_mul(a[4]));
    lemma_mul_comm(a[8].spec_mul(a[13]), a[0].spec_mul(a[6]));
    lemma_mul_comm(a[8].spec_mul(a[13]), a[2].spec_mul(a[4]));
    lemma_mul_comm(a[8].spec_mul(a[12]), a[1].spec_mul(a[6]));
    lemma_mul_comm(a[8].spec_mul(a[12]), a[2].spec_mul(a[5]));
    lemma_mul_comm(a[8].spec_mul(a[14]), a[0].spec_mul(a[5]));
    lemma_mul_comm(a[8].spec_mul(a[14]), a[1].spec_mul(a[4]));
    lemma_mul_comm(a[9].spec_mul(a[12]), a[0].spec_mul(a[6]));
    lemma_mul_comm(a[9].spec_mul(a[12]), a[2].spec_mul(a[4]));
    lemma_mul_comm(a[10].spec_mul(a[12]), a[0].spec_mul(a[5]));
    lemma_mul_comm(a[10].spec_mul(a[12]), a[1].spec_mul(a[4]));
    lemma_append2_neg(
        c0x5x8x14.spec_sub(c0x5x10x12),
        c0x4x9x14,
        c0x4x10x13,
    );
    lemma_append2_neg(
        c0x5x8x14.spec_sub(c0x5x10x12).spec_sub(c0x4x9x14).spec_add(c0x4x10x13),
        c0x6x8x13,
        c0x6x9x12,
    );
    lemma_append2_pos(
        c0x5x8x14.spec_sub(c0x5x10x12).spec_sub(c0x4x9x14).spec_add(c0x4x10x13).spec_sub(c0x6x8x13).spec_add(c0x6x9x12),
        c0x4x9x14,
        c0x4x10x13,
    );
    lemma_append2_neg(
        c0x5x8x14.spec_sub(c0x5x10x12).spec_sub(c0x4x9x14).spec_add(c0x4x10x13).spec_sub(c0x6x8x13).spec_add(c0x6x9x12).spec_add(c0x4x9x14).spec_sub(c0x4x10x13),
        c1x4x8x14,
        c1x4x10x12,
    );
    lemma_append2_pos(
        c0x5x8x14.spec_sub(c0x5x10x12).spec_sub(c0x4x9x14).spec_add(c0x4x10x13).spec_sub(c0x6x8x13).spec_add(c0x6x9x12).spec_add(c0x4x9x14).spec_sub(c0x4x10x13).spec_sub(c1x4x8x14).spec_add(c1x4x10x12),
        c2x4x8x13,
        c2x4x9x12,
    );
    lemma_append2_pos(
        c0x5x8x14.spec_sub(c0x5x10x12).spec_sub(c0x4x9x14).spec_add(c0x4x10x13).spec_sub(c0x6x8x13).spec_add(c0x6x9x12).spec_add(c0x4x9x14).spec_sub(c0x4x10x13).spec_sub(c1x4x8x14).spec_add(c1x4x10x12).spec_add(c2x4x8x13).spec_sub(c2x4x9x12),
        c0x6x8x13,
        c2x4x8x13,
    );
    lemma_append2_neg(
        c0x5x8x14.spec_sub(c0x5x10x12).spec_sub(c0x4x9x14).spec_add(c0x4x10x13).spec_sub(c0x6x8x13).spec_add(c0x6x9x12).spec_add(c0x4x9x14).spec_sub(c0x4x10x13).spec_sub(c1x4x8x14).spec_add(c1x4x10x12).spec_add(c2x4x8x13).spec_sub(c2x4x9x12).spec_add(c0x6x8x13).spec_sub(c2x4x8x13),
        c1x6x8x12,
        c2x5x8x12,
    );
    lemma_append2_neg(
        c0x5x8x14.spec_sub(c0x5x10x12).spec_sub(c0x4x9x14).spec_add(c0x4x10x13).spec_sub(c0x6x8x13).spec_add(c0x6x9x12).spec_add(c0x4x9x14).spec_sub(c0x4x10x13).spec_sub(c1x4x8x14).spec_add(c1x4x10x12).spec_add(c2x4x8x13).spec_sub(c2x4x9x12).spec_add(c0x6x8x13).spec_sub(c2x4x8x13).spec_sub(c1x6x8x12).spec_add(c2x5x8x12),
        c0x5x8x14,
        c1x4x8x14,
    );
    lemma_append2_pos(
        c0x5x8x14.spec_sub(c0x5x10x12).spec_sub(c0x4x9x14).spec_add(c0x4x10x13).spec_sub(c0x6x8x13).spec_add(c0x6x9x12).spec_add(c0x4x9x14).spec_sub(c0x4x10x13).spec_sub(c1x4x8x14).spec_add(c1x4x10x12).spec_add(c2x4x8x13).spec_sub(c2x4x9x12).spec_add(c0x6x8x13).spec_sub(c2x4x8x13).spec_sub(c1x6x8x12).spec_add(c2x5x8x12).spec_sub(c0x5x8x14).spec_add(c1x4x8x14),
        c1x6x8x12,
        c2x5x8x12,
    );
    lemma_append2_neg(
        c0x5x8x14.spec_sub(c0x5x10x12).spec_sub(c0x4x9x14).spec_add(c0x4x10x13).spec_sub(c0x6x8x13).spec_add(c0x6x9x12).spec_add(c0x4x9x14).spec_sub(c0x4x10x13).spec_sub(c1x4x8x14).spec_add(c1x4x10x12).spec_add(c2x4x8x13).spec_sub(c2x4x9x12).spec_add(c0x6x8x13).spec_sub(c2x4x8x13).spec_sub(c1x6x8x12).spec_add(c2x5x8x12).spec_sub(c0x5x8x14).spec_add(c1x4x8x14).spec_add(c1x6x8x12).spec_sub(c2x5x8x12),
        c0x6x9x12,
        c2x4x9x12,
    );
    lemma_append2_pos(
        c0x5x8x14.spec_sub(c0x5x10x12).spec_sub(c0x4x9x14).spec_add(c0x4x10x13).spec_sub(c0x6x8x13).spec_add(c0x6x9x12).spec_add(c0x4x9x14).spec_sub(c0x4x10x13).spec_sub(c1x4x8x14).spec_add(c1x4x10x12).spec_add(c2x4x8x13).spec_sub(c2x4x9x12).spec_add(c0x6x8x13).spec_sub(c2x4x8x13).spec_sub(c1x6x8x12).spec_add(c2x5x8x12).spec_sub(c0x5x8x14).spec_add(c1x4x8x14).spec_add(c1x6x8x12).spec_sub(c2x5x8x12).spec_sub(c0x6x9x12).spec_add(c2x4x9x12),
        c0x5x10x12,
        c1x4x10x12,
    );
    lemma_inv_right_chain12(c0x5x8x14, c0x5x10x12, c0x4x9x14, c0x4x10x13, c0x6x8x13, c0x6x9x12, c1x4x8x14, c1x4x10x12, c2x4x8x13, c2x4x9x12, c1x6x8x12, c2x5x8x12);
    lemma_zero_mul(inv_d);
    assert(mul_seq(a, inv)[12] == T::spec_zero());
}

proof fn lemma_inv_right_chain13<T: Scalar>(p1: T, p2: T, p3: T, p4: T, p5: T, p6: T, p7: T, p8: T, p9: T, p10: T, p11: T, p12: T)
    requires
        laws_sealed::<T>(),
    ensures
        p1.spec_sub(p2).spec_sub(p3).spec_add(p4).spec_sub(p5).spec_add(p6).spec_add(p7).spec_sub(p8).spec_sub(p1).spec_add(p2).spec_add(p9).spec_sub(p10).spec_add(p11).spec_sub(p12).spec_sub(p6).spec_add(p10).spec_sub(p7).spec_add(p3).spec_add(p5).spec_sub(p9).spec_sub(p11).spec_add(p12).spec_add(p8).spec_sub(p4) == T::spec_zero(),
{
    lemma_swap_ss(p1.spec_sub(p2).spec_sub(p3).spec_add(p4).spec_sub(p5).spec_add(p6).spec_add(p7), p8, p1);
    lemma_swap_as(p1.spec_sub(p2).spec_sub(p3).spec_add(p4).spec_sub(p5).spec_add(p6), p7, p1);
    lemma_swap_as(p1.spec_sub(p2).spec_sub(p3).spec_add(p4).spec_sub(p5), p6, p1);
    lemma_swap_ss(p1.spec_sub(p2).spec_sub(p3).spec_add(p4), p5, p1);
    lemma_swap_as(p1.spec_sub(p2).spec_sub(p3), p4, p1);
    lemma_swap_ss(p1.spec_sub(p2), p3, p1);
    lemma_swap_ss(p1, p2, p1);
    lemma_swap_sa(p1.spec_sub(p1).spec_sub(p2).spec_sub(p3).spec_add(p4).spec_sub(p5).spec_add(p6).spec_add(p7), p8, p2);
    lemma_swap_aa(p1.spec_sub(p1).spec_sub(p2).spec_sub(p3).spec_add(p4).spec_sub(p5).spec_add(p6), p7, p2);
    lemma_swap_aa(p1.spec_sub(p1).spec_sub(p2).spec_sub(p3).spec_add(p4).spec_sub(p5), p6, p2);
    lemma_swap_sa(p1.spec_sub(p1).spec_sub(p2).spec_sub(p3).spec_add(p4), p5, p2);
    lemma_swap_aa(p1.spec_sub(p1).spec_sub(p2).spec_sub(p3), p4, p2);
    lemma_swap_sa(p1.spec_sub(p1).spec_sub(p2), p3, p2);
    lemma_swap_sa(p1.spec_sub(p1), p2, p2);
    lemma_swap_sa(p1.spec_sub(p1).spec_add(p2).spec_sub(p2).spec_sub(p3).spec_add(p4).spec_sub(p5).spec_add(p6).spec_add(p7).spec_sub(p8).spec_add(p9).spec_sub(p10).spec_add(p11).spec_sub(p12).spec_sub(p6).spec_add(p10), p7, p3);
    lemma_swap_aa(p1.spec_sub(p1).spec_add(p2).spec_sub(p2).spec_sub(p3).spec_add(p4).spec_sub(p5).spec_add(p6).spec_add(p7).spec_sub(p8).spec_add(p9).spec_sub(p10).spec_add(p11).spec_sub(p12).spec_sub(p6), p10, p3);
    lemma_swap_sa(p1.spec_sub(p1).spec_add(p2).spec_sub(p2).spec_sub(p3).spec_add(p4).spec_sub(p5).spec_add(p6).spec_add(p7).spec_sub(p8).spec_add(p9).spec_sub(p10).spec_add(p11).spec_sub(p12), p6, p3);
    lemma_swap_sa(p1.spec_sub(p1).spec_add(p2).spec_sub(p2).spec_sub(p3).spec_add(p4).spec_sub(p5).spec_add(p6).spec_add(p7).spec_sub(p8).spec_add(p9).spec_sub(p10).spec_add(p11), p12, p3);
    lemma_swap_aa(p1.spec_sub(p1).spec_add(p2).spec_sub(p2).spec_sub(p3).spec_add(p4).spec_sub(p5).spec_add(p6).spec_add(p7).spec_sub(p8).spec_add(p9).spec_sub(p10), p11, p3);
    lemma_swap_sa(p1.spec_sub(p1).spec_add(p2).spec_sub(p2).spec_sub(p3).spec_add(p4).spec_sub(p5).spec_add(p6).spec_add(p7).spec_sub(p8).spec_add(p9), p10, p3);
    lemma_swap_aa(p1.spec_sub(p1).spec_add(p2).spec_sub(p2).spec_sub(p3).spec_add(p4).spec_sub(p5).spec_add(p6).spec_add(p7).spec_sub(p8), p9, p3);
    lemma_swap_sa(p1.spec_sub(p1).spec_add(p2).spec_sub(p2).spec_sub(p3).spec_add(p4).spec_sub(p5).spec_add(p6).spec_add(p7), p8, p3);
    lemma_swap_aa(p1.spec_sub(p1).spec_add(p2).spec_sub(p2).spec_sub(p3).spec_add(p4).spec_sub(p5).spec_add(p6), p7, p3);
    lemma_swap_aa(p1.spec_sub(p1).spec_add(p2).spec_sub(p2).spec_sub(p3).spec_add(p4).spec_sub(p5), p6, p3);
    lemma_swap_sa(p1.spec_sub(p1).spec_add(p2).spec_sub(p2).spec_sub(p3).spec_add(p4), p5, p3);
    lemma_swap_aa(p1.spec_sub(p1).spec_add(p2).spec_sub(p2).spec_sub(p3), p4, p3);
    lemma_swap_sa(p1.spec_sub(p1).spec_add(p2).spec_sub(p2), p3, p3);
    lemma_swap_as(p1.spec_sub(p1).spec_add(p2).spec_sub(p2).spec_add(p3).spec_sub(p3).spec_add(p4).spec_sub(p5).spec_add(p6).spec_add(p7).spec_sub(p8).spec_add(p9).spec_sub(p10).spec_add(p11).spec_sub(p12).spec_sub(p6).spec_add(p10).spec_sub(p7).spec_add(p5).spec_sub(p9).spec_sub(p11).spec_add(p12), p8, p4);
    lemma_swap_as(p1.spec_sub(p1).spec_add(p2).spec_sub(p2).spec_add(p3).spec_sub(p3).spec_add(p4).spec_sub(p5).spec_add(p6).spec_add(p7).spec_sub(p8).spec_add(p9).spec_sub(p10).spec_add(p11).spec_sub(p12).spec_sub(p6).spec_add(p10).spec_sub(p7).spec_add(p5).spec_sub(p9).spec_sub(p11), p12, p4);
    lemma_swap_ss(p1.spec_sub(p1).spec_add(p2).spec_sub(p2).spec_add(p3).spec_sub(p3).spec_add(p4).spec_sub(p5).spec_add(p6).spec_add(p7).spec_sub(p8).spec_add(p9).spec_sub(p10).spec_add(p11).spec_sub(p12).spec_sub(p6).spec_add(p10).spec_sub(p7).spec_add(p5).spec_sub(p9), p11, p4);
    lemma_swap_ss(p1.spec_sub(p1).spec_add(p2).spec_sub(p2).spec_add(p3).spec_sub(p3).spec_add(p4).spec_sub(p5).spec_add(p6).spec_add(p7).spec_sub(p8).spec_add(p9).spec_sub(p10).spec_add(p11).spec_sub(p12).spec_sub(p6).spec_add(p10).spec_sub(p7).spec_add(p5), p9, p4);
    lemma_swap_as(p1.spec_sub(p1).spec_add(p2).spec_sub(p2).spec_add(p3).spec_sub(p3).spec_add(p4).spec_sub(p5).spec_add(p6).spec_add(p7).spec_sub(p8).spec_add(p9).spec_sub(p10).spec_add(p11).spec_sub(p12).spec_sub(p6).spec_add(p10).spec_sub(p7), p5, p4);
    lemma_swap_ss(p1.spec_sub(p1).spec_add(p2).spec_sub(p2).spec_add(p3).spec_sub(p3).spec_add(p4).spec_sub(p5).spec_add(p6).spec_add(p7).spec_sub(p8).spec_add(p9).spec_sub(p10).spec_add(p11).spec_sub(p12).spec_sub(p6).spec_add(p10), p7, p4);
    lemma_swap_as(p1.spec_sub(p1).spec_add(p2).spec_sub(p2).spec_add(p3).spec_sub(p3).spec_add(p4).spec_sub(p5).spec_add(p6).spec_add(p7).spec_sub(p8).spec_add(p9).spec_sub(p10).spec_add(p11).spec_sub(p12).spec_sub(p6), p10, p4);
    lemma_swap_ss(p1.spec_sub(p1).spec_add(p2).spec_sub(p2).spec_add(p3).spec_sub(p3).spec_add(p4).spec_sub(p5).spec_add(p6).spec_add(p7).spec_sub(p8).spec_add(p9).spec_sub(p10).spec_add(p11).spec_sub(p12), p6, p4);
    lemma_swap_ss(p1.spec_sub(p1).spec_add(p2).spec_sub(p2).spec_add(p3).spec_sub(p3).spec_add(p4).spec_sub(p5).spec_add(p6).spec_add(p7).spec_sub(p8).spec_add(p9).spec_sub(p10).spec_add(p11), p12, p4);
    lemma_swap_as(p1.spec_sub(p1).spec_add(p2).spec_sub(p2).spec_add(p3).spec_sub(p3).spec_add(p4).spec_sub(p5).spec_add(p6).spec_add(p7).spec_sub(p8).spec_add(p9).spec_sub(p10), p11, p4);
    lemma_swap_ss(p1.spec_sub(p1).spec_add(p2).spec_sub(p2).spec_add(p3).spec_sub(p3).spec_add(p4).spec_sub(p5).spec_add(p6).spec_add(p7).spec_sub(p8).spec_add(p9), p10, p4);
    lemma_swap_as(p1.spec_sub(p1).spec_add(p2).spec_sub(p2).spec_add(p3).spec_sub(p3).spec_add(p4).spec_sub(p5).spec_add(p6).spec_add(p7).spec_sub(p8), p9, p4);
    lemma_swap_ss(p1.spec_sub(p1).spec_add(p2).spec_sub(p2).spec_add(p3).spec_sub(p3).spec_add(p4).spec_sub(p5).spec_add(p6).spec_add(p7), p8, p4);
    lemma_swap_as(p1.spec_sub(p1).spec_add(p2).spec_sub(p2).spec_add(p3).spec_sub(p3).spec_add(p4).spec_sub(p5).spec_add(p6), p7, p4);
    lemma_swap_as(p1.spec_sub(p1).spec_add(p2).spec_sub(p2).spec_add(p3).spec_sub(p3).spec_add(p4).spec_sub(p5), p6, p4);
    lemma_swap_ss(p1.spec_sub(p1).spec_add(p2).spec_sub(p2).spec_add(p3).spec_sub(p3).spec_add(p4), p5, p4);
    lemma_swap_sa(p1.spec_sub(p1).spec_add(p2).spec_sub(p2).spec_add(p3).spec_sub(p3).spec_add(p4).spec_sub(p4).spec_sub(p5).spec_add(p6).spec_add(p7).spec_sub(p8).spec_add(p9).spec_sub(p10).spec_add(p11).spec_sub(p12).spec_sub(p6).spec_add(p10), p7, p5);
    lemma_swap_aa(p1.spec_sub(p1).spec_add(p2).spec_sub(p2).spec_add(p3).spec_sub(p3).spec_add(p4).spec_sub(p4).spec_sub(p5).spec_add(p6).spec_add(p7).spec_sub(p8).spec_add(p9).spec_sub(p10).spec_add(p11).spec_sub(p12).spec_sub(p6), p10, p5);
    lemma_swap_sa(p1.spec_sub(p1).spec_add(p2).spec_sub(p2).spec_add(p3).spec_sub(p3).spec_add(p4).spec_sub(p4).spec_sub(p5).spec_add(p6).spec_add(p7).spec_sub(p8).spec_add(p9).spec_sub(p10).spec_add(p11).spec_sub(p12), p6, p5);
    lemma_swap_sa(p1.spec_sub(p1).spec_add(p2).spec_sub(p2).spec_add(p3).spec_sub(p3).spec_add(p4).spec_sub(p4).spec_sub(p5).spec_add(p6).spec_add(p7).spec_sub(p8).spec_add(p9).spec_sub(p10).spec_add(p11), p12, p5);
    lemma_swap_aa(p1.spec_sub(p1).spec_add(p2).spec_sub(p2).spec_add(p3).spec_sub(p3).spec_add(p4).spec_sub(p4).spec_sub(p5).spec_add(p6).spec_add(p7).spec_sub(p8).spec_add(p9).spec_sub(p10), p11, p5);
    lemma_swap_sa(p1.spec_sub(p1).spec_add(p2).spec_sub(p2).spec_add(p3).spec_sub(p3).spec_add(p4).spec_sub(p4).spec_sub(p5).spec_add(p6).spec_add(p7).spec_sub(p8).spec_add(p9), p10, p5);
    lemma_swap_aa(p1.spec_sub(p1).spec_add(p2).spec_sub(p2).spec_add(p3).spec_sub(p3).spec_add(p4).spec_sub(p4).spec_sub(p5).spec_add(p6).spec_add(p7).spec_sub(p8), p9, p5);
    lemma_swap_sa(p1.spec_sub(p1).spec_add(p2).spec_sub(p2).spec_add(p3).spec_sub(p3).spec_add(p4).spec_sub(p4).spec_sub(p5).spec_add(p6).spec_add(p7), p8, p5);
    lemma_swap_aa(p1.spec_sub(p1).spec_add(p2).spec_sub(p2).spec_add(p3).spec_sub(p3).spec_add(p4).spec_sub(p4).spec_sub(p5).spec_add(p6), p7, p5);
    lemma_swap_aa(p1.spec_sub(p1).spec_add(p2).spec_sub(p2).spec_add(p3).spec_sub(p3).spec_add(p4).spec_sub(p4).spec_sub(p5), p6, p5);
    lemma_swap_sa(p1.spec_sub(p1).spec_add(p2).spec_sub(p2).spec_add(p3).spec_sub(p3).spec_add(p4).spec_sub(p4), p5, p5);
    lemma_swap_ss(p1.spec_sub(p1).spec_add(p2).spec_sub(p2).spec_add(p3).spec_sub(p3).spec_add(p4).spec_sub(p4).spec_add(p5).spec_sub(p5).spec_add(p6).spec_add(p7).spec_sub(p8).spec_add(p9).spec_sub(p10).spec_add(p11), p12, p6);
    lemma_swap_as(p1.spec_sub(p1).spec_add(p2).spec_sub(p2).spec_add(p3).spec_sub(p3).spec_add(p4).spec_sub(p4).spec_add(p5).spec_sub(p5).spec_add(p6).spec_add(p7).spec_sub(p8).spec_add(p9).spec_sub(p10), p11, p6);
    lemma_swap_ss(p1.spec_sub(p1).spec_add(p2).spec_sub(p2).spec_add(p3).spec_sub(p3).spec_add(p4).spec_sub(p4).spec_add(p5).spec_sub(p5).spec_add(p6).spec_add(p7).spec_sub(p8).spec_add(p9), p10, p6);
    lemma_swap_as(p1.spec_sub(p1).spec_add(p2).spec_sub(p2).spec_add(p3).spec_sub(p3).spec_add(p4).spec_sub(p4).spec_add(p5).spec_sub(p5).spec_add(p6).spec_add(p7).spec_sub(p8), p9, p6);
    lemma_swap_ss(p1.spec_sub(p1).spec_add(p2).spec_sub(p2).spec_add(p3).spec_sub(p3).spec_add(p4).spec_sub(p4).spec_add(p5).spec_sub(p5).spec_add(p6).spec_add(p7), p8, p6);
    lemma_swap_as(p1.spec_sub(p1).spec_add(p2).spec_sub(p2).spec_add(p3).spec_sub(p3).spec_add(p4).spec_sub(p4).spec_add(p5).spec_sub(p5).spec_add(p6), p7, p6);
    lemma_swap_as(p1.spec_sub(p1).spec_add(p2).spec_sub(p2).spec_add(p3).spec_sub(p3).spec_add(p4).spec_sub(p4).spec_add(p5).spec_sub(p5).spec_add(p6).spec_sub(p6).spec_add(p7).spec_sub(p8).spec_add(p9).spec_sub(p10).spec_add(p11).spec_sub(p12), p10, p7);
    lemma_swap_ss(p1.spec_sub(p1).spec_add(p2).spec_sub(p2).spec_add(p3).spec_sub(p3).spec_add(p4).spec_sub(p4).spec_add(p5).spec_sub(p5).spec_add(p6).spec_sub(p6).spec_add(p7).spec_sub(p8).spec_add(p9).spec_sub(p10).spec_add(p11), p12, p7);
    lemma_swap_as(p1.spec_sub(p1).spec_add(p2).spec_sub(p2).spec_add(p3).spec_sub(p3).spec_add(p4).spec_sub(p4).spec_add(p5).spec_sub(p5).spec_add(p6).spec_sub(p6).spec_add(p7).spec_sub(p8).spec_add(p9).spec_sub(p10), p11, p7);
    lemma_swap_ss(p1.spec_sub(p1).spec_add(p2).spec_sub(p2).spec_add(p3).spec_sub(p3).spec_add(p4).spec_sub(p4).spec_add(p5).spec_sub(p5).spec_add(p6).spec_sub(p6).spec_add(p7).spec_sub(p8).spec_add(p9), p10, p7);
    lemma_swap_as(p1.spec_sub(p1).spec_add(p2).spec_sub(p2).spec_add(p3).spec_sub(p3).spec_add(p4).spec_sub(p4).spec_add(p5).spec_sub(p5).spec_add(p6).spec_sub(p6).spec_add(p7).spec_sub(p8), p9, p7);
    lemma_swap_ss(p1.spec_sub(p1).spec_add(p2).spec_sub(p2).spec_add(p3).spec_sub(p3).spec_add(p4).spec_sub(p4).spec_add(p5).spec_sub(p5).spec_add(p6).spec_sub(p6).spec_add(p7), p8, p7);
    lemma_swap_aa(p1.spec_sub(p1).spec_add(p2).spec_sub(p2).spec_add(p3).spec_sub(p3).spec_add(p4).spec_sub(p4).spec_add(p5).spec_sub(p5).spec_add(p6).spec_sub(p6).spec_add(p7).spec_sub(p7).spec_sub(p8).spec_add(p9).spec_sub(p10).spec_add(p11).spec_sub(p12).spec_add(p10).spec_sub(p9).spec_sub(p11), p12, p8);
    lemma_swap_sa(p1.spec_sub(p1).spec_add(p2).spec_sub(p2).spec_add(p3).spec_sub(p3).spec_add(p4).spec_sub(p4).spec_add(p5).spec_sub(p5).spec_add(p6).spec_sub(p6).spec_add(p7).spec_sub(p7).spec_sub(p8).spec_add(p9).spec_sub(p10).spec_add(p11).spec_sub(p12).spec_add(p10).spec_sub(p9), p11, p8);
    lemma_swap_sa(p1.spec_sub(p1).spec_add(p2).spec_sub(p2).spec_add(p3).spec_sub(p3).spec_add(p4).spec_sub(p4).spec_add(p5).spec_sub(p5).spec_add(p6).spec_sub(p6).spec_add(p7).spec_sub(p7).spec_sub(p8).spec_add(p9).spec_sub(p10).spec_add(p11).spec_sub(p12).spec_add(p10), p9, p8);
    lemma_swap_aa(p1.spec_sub(p1).spec_add(p2).spec_sub(p2).spec_add(p3).spec_sub(p3).spec_add(p4).spec_sub(p4).spec_add(p5).spec_sub(p5).spec_add(p6).spec_sub(p6).spec_add(p7).spec_sub(p7).spec_sub(p8).spec_add(p9).spec_sub(p10).spec_add(p11).spec_sub(p12), p10, p8);
    lemma_swap_sa(p1.spec_sub(p1).spec_add(p2).spec_sub(p2).spec_add(p3).spec_sub(p3).spec_add(p4).spec_sub(p4).spec_add(p5).spec_sub(p5).spec_add(p6).spec_sub(p6).spec_add(p7).spec_sub(p7).spec_sub(p8).spec_add(p9).spec_sub(p10).spec_add(p11), p12, p8);
    lemma_swap_aa(p1.spec_sub(p1).spec_add(p2).spec_sub(p2).spec_add(p3).spec_sub(p3).spec_add(p4).spec_sub(p4).spec_add(p5).spec_sub(p5).spec_add(p6).spec_sub(p6).spec_add(p7).spec_sub(p7).spec_sub(p8).spec_add(p9).spec_sub(p10), p11, p8);
    lemma_swap_sa(p1.spec_sub(p1).spec_add(p2).spec_sub(p2).spec_add(p3).spec_sub(p3).spec_add(p4).spec_sub(p4).spec_add(p5).spec_sub(p5).spec_add(p6).spec_sub(p6).spec_add(p7).spec_sub(p7).spec_sub(p8).spec_add(p9), p10, p8);
    lemma_swap_aa(p1.spec_sub(p1).spec_add(p2).spec_sub(p2).spec_add(p3).spec_sub(p3).spec_add(p4).spec_sub(p4).spec_add(p5).spec_sub(p5).spec_add(p6).spec_sub(p6).spec_add(p7).spec_sub(p7).spec_sub(p8), p9, p8);
    lemma_swap_sa(p1.spec_sub(p1).spec_add(p2).spec_sub(p2).spec_add(p3).spec_sub(p3).spec_add(p4).spec_sub(p4).spec_add(p5).spec_sub(p5).spec_add(p6).spec_sub(p6).spec_add(p7).spec_sub(p7), p8, p8);
    lemma_swap_as(p1.spec_sub(p1).spec_add(p2).spec_sub(p2).spec_add(p3).spec_sub(p3).spec_add(p4).spec_sub(p4).spec_add(p5).spec_sub(p5).spec_add(p6).spec_sub(p6).spec_add(p7).spec_sub(p7).spec_add(p8).spec_sub(p8).spec_add(p9).spec_sub(p10).spec_add(p11).spec_sub(p12), p10, p9);
    lemma_swap_ss(p1.spec_sub(p1).spec_add(p2).spec_sub(p2).spec_add(p3).spec_sub(p3).spec_add(p4).spec_sub(p4).spec_add(p5).spec_sub(p5).spec_add(p6).spec_sub(p6).spec_add(p7).spec_sub(p7).spec_add(p8).spec_sub(p8).spec_add(p9).spec_sub(p10).spec_add(p11), p12, p9);
    lemma_swap_as(p1.spec_sub(p1).spec_add(p2).spec_sub(p2).spec_add(p3).spec_sub(p3).spec_add(p4).spec_sub(p4).spec_add(p5).spec_sub(p5).spec_add(p6).spec_sub(p6).spec_add(p7).spec_sub(p7).spec_add(p8).spec_sub(p8).spec_add(p9).spec_sub(p10), p11, p9);
    lemma_swap_ss(p1.spec_sub(p1).spec_add(p2).spec_sub(p2).spec_add(p3).spec_sub(p3).spec_add(p4).spec_sub(p4).spec_add(p5).spec_sub(p5).spec_add(p6).spec_sub(p6).spec_add(p7).spec_sub(p7).spec_add(p8).spec_sub(p8).spec_add(p9), p10, p9);
    lemma_swap_sa(p1.spec_sub(p1).spec_add(p2).spec_sub(p2).spec_add(p3).spec_sub(p3).spec_add(p4).spec_sub(p4).spec_add(p5).spec_sub(p5).spec_add(p6).spec_sub(p6).spec_add(p7).spec_sub(p7).spec_add(p8).spec_sub(p8).spec_add(p9).spec_sub(p9).spec_sub(p10).spec_add(p11), p12, p10);
    lemma_swap_aa(p1.spec_sub(p1).spec_add(p2).spec_sub(p2).spec_add(p3).spec_sub(p3).spec_add(p4).spec_sub(p4).spec_add(p5).spec_sub(p5).spec_add(p6).spec_sub(p6).spec_add(p7).spec_sub(p7).spec_add(p8).spec_sub(p8).spec_add(p9).spec_sub(p9).spec_sub(p10), p11, p10);
    lemma_swap_sa(p1.spec_sub(p1).spec_add(p2).spec_sub(p2).spec_add(p3).spec_sub(p3).spec_add(p4).spec_sub(p4).spec_add(p5).spec_sub(p5).spec_add(p6).spec_sub(p6).spec_add(p7).spec_sub(p7).spec_add(p8).spec_sub(p8).spec_add(p9).spec_sub(p9), p10, p10);
    lemma_swap_ss(p1.spec_sub(p1).spec_add(p2).spec_sub(p2).spec_add(p3).spec_sub(p3).spec_add(p4).spec_sub(p4).spec_add(p5).spec_sub(p5).spec_add(p6).spec_sub(p6).spec_add(p7).spec_sub(p7).spec_add(p8).spec_sub(p8).spec_add(p9).spec_sub(p9).spec_add(p10).spec_sub(p10).spec_add(p11), p12, p11);
    lemma_swap_sa(p1.spec_sub(p1).spec_add(p2).spec_sub(p2).spec_add(p3).spec_sub(p3).spec_add(p4).spec_sub(p4).spec_add(p5).spec_sub(p5).spec_add(p6).spec_sub(p6).spec_add(p7).spec_sub(p7).spec_add(p8).spec_sub(p8).spec_add(p9).spec_sub(p9).spec_add(p10).spec_sub(p10).spec_add(p11).spec_sub(p11), p12, p12);
    lemma_self_cancel(p1);
    lemma_cancel_adj(p1.spec_sub(p1), p2);
    lemma_cancel_adj(p1.spec_sub(p1).spec_add(p2).spec_sub(p2), p3);
    lemma_cancel_adj(p1.spec_sub(p1).spec_add(p2).spec_sub(p2).spec_add(p3).spec_sub(p3), p4);
    lemma_cancel_adj(p1.spec_sub(p1).spec_add(p2).spec_sub(p2).spec_add(p3).spec_sub(p3).spec_add(p4).spec_sub(p4), p5);
    lemma_cancel_adj(p1.spec_sub(p1).spec_add(p2).spec_sub(p2).spec_add(p3).spec_sub(p3).spec_add(p4).spec_sub(p4).spec_add(p5).spec_sub(p5), p6);
    lemma_cancel_adj(p1.spec_sub(p1).spec_add(p2).spec_sub(p2).spec_add(p3).spec_sub(p3).spec_add(p4).spec_sub(p4).spec_add(p5).spec_sub(p5).spec_add(p6).spec_sub(p6), p7);
    lemma_cancel_adj(p1.spec_sub(p1).spec_add(p2).spec_sub(p2).spec_add(p3).spec_sub(p3).spec_add(p4).spec_sub(p4).spec_add(p5).spec_sub(p5).spec_add(p6).spec_sub(p6).spec_add(p7).spec_sub(p7), p8);
    lemma_cancel_adj(p1.spec_sub(p1).spec_add(p2).spec_sub(p2).spec_add(p3).spec_sub(p3).spec_add(p4).spec_sub(p4).spec_add(p5).spec_sub(p5).spec_add(p6).spec_sub(p6).spec_add(p7).spec_sub(p7).spec_add(p8).spec_sub(p8), p9);
    lemma_cancel_adj(p1.spec_sub(p1).spec_add(p2).spec_sub(p2).spec_add(p3).spec_sub(p3).spec_add(p4).spec_sub(p4).spec_add(p5).spec_sub(p5).spec_add(p6).spec_sub(p6).spec_add(p7).spec_sub(p7).spec_add(p8).spec_sub(p8).spec_add(p9).spec_sub(p9), p10);
    lemma_cancel_adj(p1.spec_sub(p1).spec_add(p2).spec_sub(p2).spec_add(p3).spec_sub(p3).spec_add(p4).spec_sub(p4).spec_add(p5).spec_sub(p5).spec_add(p6).spec_sub(p6).spec_add(p7).spec_sub(p7).spec_add(p8).spec_sub(p8).spec_add(p9).spec_sub(p9).spec_add(p10).spec_sub(p10), p11);
    lemma_cancel_adj(p1.spec_sub(p1).spec_add(p2).spec_sub(p2).spec_add(p3).spec_sub(p3).spec_add(p4).spec_sub(p4).spec_add(p5).spec_sub(p5).spec_add(p6).spec_sub(p6).spec_add(p7).spec_sub(p7).spec_add(p8).spec_sub(p8).spec_add(p9).spec_sub(p9).spec_add(p10).spec_sub(p10).spec_add(p11).spec_sub(p11), p12);
}

pub(crate) proof fn lemma_inv_right_entry13<T: Scalar>(a: Seq<T>)
    requires
        a.len() == 16,
        field_sealed::<T>(),
        !det_seq(a).spec_is_zero(),
    ensures
        mul_seq(a, inverse_seq(a))[13] == T::spec_zero(),
{
    lemma_field_gives_ring::<T>();
    let inv = inverse_seq(a);
    let inv_d = T::spec_one().spec_div(det_seq(a));
    let b00 = minor2(a, 0, 5, 1, 4);
    let b01 = minor2(a, 0, 6, 2, 4);
    let b02 = minor2(a, 0, 7, 3, 4);
    let b03 = minor2(a, 1, 6, 2, 5);
    let b04 = minor2(a, 1, 7, 3, 5);
    let b05 = minor2(a, 2, 7, 3, 6);
    let b06 = minor2(a, 8, 13, 9, 12);
    let b07 = minor2(a, 8, 14, 10, 12);
    let b08 = minor2(a, 8, 15, 11, 12);
    let b09 = minor2(a, 9, 14, 10, 13);
    let b10 = minor2(a, 9, 15, 11, 13);
    let b11 = minor2(a, 10, 15, 11, 14);
    assert(mul_seq(a, inv)[13] == inv[12].spec_mul(a[1]).spec_add(inv[13].spec_mul(a[5])).spec_add(inv[14].spec_mul(a[9])).spec_add(inv[15].spec_mul(a[13])));
    assert(inv[12] == a[5].spec_mul(b07).spec_sub(a[4].spec_mul(b09)).spec_sub(a[6].spec_mul(b06)).spec_mul(inv_d));
    assert(inv[13] == a[0].spec_mul(b09).spec_sub(a[1].spec_mul(b07)).spec_add(a[2].spec_mul(b06)).spec_mul(inv_d));
    assert(inv[14] == a[13].spec_mul(b01).spec_sub(a[12].spec_mul(b03)).spec_sub(a[14].spec_mul(b00)).spec_mul(inv_d));
    assert(inv[15] == a[8].spec_mul(b03).spec_sub(a[9].spec_mul(b01)).spec_add(a[10].spec_mul(b00)).spec_mul(inv_d));
    lemma_mul_comm(a[5].spec_mul(b07).spec_sub(a[4].spec_mul(b09)).spec_sub(a[6].spec_mul(b06)).spec_mul(inv_d), a[1]);
    lemma_mul_comm(a[0].spec_mul(b09).spec_sub(a[1].spec_mul(b07)).spec_add(a[2].spec_mul(b06)).spec_mul(inv_d), a[5]);
    lemma_mul_comm(a[13].spec_mul(b01).spec_sub(a[12].spec_mul(b03)).spec_sub(a[14].spec_mul(b00)).spec_mul(inv_d), a[9]);
    lemma_mul_comm(a[8].spec_mul(b03).spec_sub(a[9].spec_mul(b01)).spec_add(a[10].spec_mul(b00)).spec_mul(inv_d), a[13]);
    lemma_mul_assoc(a[1], a[5].spec_mul(b07).spec_sub(a[4].spec_mul(b09)).spec_sub(a[6].spec_mul(b06)), inv_d);
    lemma_mul_assoc(a[5], a[0].spec_mul(b09).spec_sub(a[1].spec_mul(b07)).spec_add(a[2].spec_mul(b06)), inv_d);
    lemma_mul_assoc(a[9], a[13].spec_mul(b01).spec_sub(a[12].spec_mul(b03)).spec_sub(a[14].spec_mul(b00)), inv_d);
    lemma_mul_assoc(a[13], a[8].spec_mul(b03).spec_sub(a[9].spec_mul(b01)).spec_add(a[10].spec_mul(b00)), inv_d);
    lemma_factor4(
        a[1].spec_mul(a[5].spec_mul(b07).spec_sub(a[4].spec_mul(b09)).spec_sub(a[6].spec_mul(b06))),
        a[5].spec_mul(a[0].spec_mul(b09).spec_sub(a[1].spec_mul(b07)).spec_add(a[2].spec_mul(b06))),
        a[9].spec_mul(a[13].spec_mul(b01).spec_sub(a[12].spec_mul(b03)).spec_sub(a[14].spec_mul(b00))),
        a[13].spec_mul(a[8].spec_mul(b03).spec_sub(a[9].spec_mul(b01)).spec_add(a[10].spec_mul(b00))),
        inv_d,
    );
    lemma_distrib3_pmm(a[1], a[5].spec_mul(b07), a[4].spec_mul(b09), a[6].spec_mul(b06));
    lemma_mul_assoc(a[1], a[5], b07);
    lemma_mul_assoc(a[1], a[4], b09);
    lemma_mul_assoc(a[1], a[6], b06);
    lemma_distrib3_pmp(a[5], a[0].spec_mul(b09), a[1].spec_mul(b07), a[2].spec_mul(b06));
    lemma_mul_assoc(a[5], a[0], b09);
    lemma_mul_comm(a[5], a[0]);
    lemma_mul_assoc(a[5], a[1], b07);
    lemma_mul_comm(a[5], a[1]);
    lemma_mul_assoc(a[5], a[2], b06);
    lemma_mul_comm(a[5], a[2]);
    lemma_distrib3_pmm(a[9], a[13].spec_mul(b01), a[12].spec_mul(b03), a[14].spec_mul(b00));
    lemma_mul_assoc(a[9], a[13], b01);
    lemma_mul_assoc(a[9], a[12], b03);
    lemma_mul_assoc(a[9], a[14], b00);
    lemma_distrib3_pmp(a[13], a[8].spec_mul(b03), a[9].spec_mul(b01), a[10].spec_mul(b00));
    lemma_mul_assoc(a[13], a[8], b03);
    lemma_mul_comm(a[13], a[8]);
    lemma_mul_assoc(a[13], a[9], b01);
    lemma_mul_comm(a[13], a[9]);
    lemma_mul_assoc(a[13], a[10], b00);
    lemma_mul_comm(a[13], a[10]);
    lemma_append3_pmp(
        a[1].spec_mul(a[5]).spec_mul(b07).spec_sub(a[1].spec_mul(a[4]).spec_mul(b09)).spec_sub(a[1].spec_mul(a[6]).spec_mul(b06)),
        a[0].spec_mul(a[5]).spec_mul(b09),
        a[1].spec_mul(a[5]).spec_mul(b07),
        a[2].spec_mul(a[5]).spec_mul(b06),
    );
    lemma_append3_pmm(
        a[1].spec_mul(a[5]).spec_mul(b07).spec_sub(a[1].spec_mul(a[4]).spec_mul(b09)).spec_sub(a[1].spec_mul(a[6]).spec_mul(b06)).spec_add(a[0].spec_mul(a[5]).spec_mul(b09)).spec_sub(a[1].spec_mul(a[5]).spec_mul(b07)).spec_add(a[2].spec_mul(a[5]).spec_mul(b06)),
        a[9].spec_mul(a[13]).spec_mul(b01),
        a[9].spec_mul(a[12]).spec_mul(b03),
        a[9].spec_mul(a[14]).spec_mul(b00),
    );
    lemma_append3_pmp(
        a[1].spec_mul(a[5]).spec_mul(b07).spec_sub(a[1].spec_mul(a[4]).spec_mul(b09)).spec_sub(a[1].spec_mul(a[6]).spec_mul(b06)).spec_add(a[0].spec_mul(a[5]).spec_mul(b09)).spec_sub(a[1].spec_mul(a[5]).spec_mul(b07)).spec_add(a[2].spec_mul(a[5]).spec_mul(b06)).spec_add(a[9].spec_mul(a[13]).spec_mul(b01)).spec_sub(a[9].spec_mul(a[12]).spec_mul(b03)).spec_sub(a[9].spec_mul(a[14]).spec_mul(b00)),
        a[8].spec_mul(a[13]).spec_mul(b03),
        a[9].spec_mul(a[13]).spec_mul(b01),
        a[10].spec_mul(a[13]).spec_mul(b00),
    );
    let c1x5x8x14 = a[1].spec_mul(a[5]).spec_mul(a[8].spec_mul(a[14]));
    let c1x5x10x12 = a[1].spec_mul(a[5]).spec_mul(a[10].spec_mul(a[12]));
    let c1x4x9x14 = a[1].spec_mul(a[4]).spec_mul(a[9].spec_mul(a[14]));
    let c1x4x10x13 = a[1].spec_mul(a[4]).spec_mul(a[10].spec_mul(a[13]));
    let c1x6x8x13 = a[1].spec_mul(a[6]).spec_mul(a[8].spec_mul(a[13]));
    let c1x6x9x12 = a[1].spec_mul(a[6]).spec_mul(a[9].spec_mul(a[12]));
    let c0x5x9x14 = a[0].spec_mul(a[5]).spec_mul(a[9].spec_mul(a[14]));
    let c0x5x10x13 = a[0].spec_mul(a[5]).spec_mul(a[10].spec_mul(a[13]));
    let c2x5x8x13 = a[2].spec_mul(a[5]).spec_mul(a[8].spec_mul(a[13]));
    let c2x5x9x12 = a[2].spec_mul(a[5]).spec_mul(a[9].spec_mul(a[12]));
    let c0x6x9x13 = a[0].spec_mul(a[6]).spec_mul(a[9].spec_mul(a[13]));
    let c2x4x9x13 = a[2].spec_mul(a[4]).spec_mul(a[9].spec_mul(a[13]));
    lemma_distrib2(a[1].spec_mul(a[5]), a[8].spec_mul(a[14]), a[10].spec_mul(a[12]));
    lemma_distrib2(a[1].spec_mul(a[4]), a[9].spec_mul(a[14]), a[10].spec_mul(a[13]));
    lemma_distrib2(a[1].spec_mul(a[6]), a[8].spec_mul(a[13]), a[9].spec_mul(a[12]));
    lemma_distrib2(a[0].spec_mul(a[5]), a[9].spec_mul(a[14]), a[10].spec_mul(a[13]));
    lemma_distrib2(a[1].spec_mul(a[5]), a[8].spec_mul(a[14]), a[10].spec_mul(a[12]));
    lemma_distrib2(a[2].spec_mul(a[5]), a[8].spec_mul(a[13]), a[9].spec_mul(a[12]));
    lemma_distrib2(a[9].spec_mul(a[13]), a[0].spec_mul(a[6]), a[2].spec_mul(a[4]));
    lemma_distrib2(a[9].spec_mul(a[12]), a[1].spec_mul(a[6]), a[2].spec_mul(a[5]));
    lemma_distrib2(a[9].spec_mul(a[14]), a[0].spec_mul(a[5]), a[1].spec_mul(a[4]));
    lemma_distrib2(a[8].spec_mul(a[13]), a[1].spec_mul(a[6]), a[2].spec_mul(a[5]));
    lemma_distrib2(a[9].spec_mul(a[13]), a[0].spec_mul(a[6]), a[2].spec_mul(a[4]));
    lemma_distrib2(a[10].spec_mul(a[13]), a[0].spec_mul(a[5]), a[1].spec_mul(a[4]));
    lemma_mul_comm(a[9].spec_mul(a[13]), a[0].spec_mul(a[6]));
    lemma_mul_comm(a[9].spec_mul(a[13]), a[2].spec_mul(a[4]));
    lemma_mul_comm(a[9].spec_mul(a[12]), a[1].spec_mul(a[6]));
    lemma_mul_comm(a[9].spec_mul(a[12]), a[2].spec_mul(a[5]));
    lemma_mul_comm(a[9].spec_mul(a[14]), a[0].spec_mul(a[5]));
    lemma_mul_comm(a[9].spec_mul(a[14]), a[1].spec_mul(a[4]));
    lemma_mul_comm(a[8].spec_mul(a[13]), a[1].spec_mul(a[6]));
    lemma_mul_comm(a[8].spec_mul(a[13]), a[2].spec_mul(a[5]));
    lemma_mul_comm(a[10].spec_mul(a[13]), a[0].spec_mul(a[5]));
    lemma_mul_comm(a[10].spec_mul(a[13]), a[1].spec_mul(a[4]));
    lemma_append2_neg(
        c1x5x8x14.spec_sub(c1x5x10x12),
        c1x4x9x14,
        c1x4x10x13,
    );
    lemma_append2_neg(
        c1x5x8x14.spec_sub(c1x5x10x12).spec_sub(c1x4x9x14).spec_add(c1x4x10x13),
        c1x6x8x13,
        c1x6x9x12,
    );
    lemma_append2_pos(
        c1x5x8x14.spec_sub(c1x5x10x12).spec_sub(c1x4x9x14).spec_add(c1x4x10x13).spec_sub(c1x6x8x13).spec_add(c1x6x9x12),
        c0x5x9x14,
        c0x5x10x13,
    );
    lemma_append2_neg(
        c1x5x8x14.spec_sub(c1x5x10x12).spec_sub(c1x4x9x14).spec_add(c1x4x10x13).spec_sub(c1x6x8x13).spec_add(c1x6x9x12).spec_add(c0x5x9x14).spec_sub(c0x5x10x13),
        c1x5x8x14,
        c1x5x10x12,
    );
    lemma_append2_pos(
        c1x5x8x14.spec_sub(c1x5x10x12).spec_sub(c1x4x9x14).spec_add(c1x4x10x13).spec_sub(c1x6x8x13).spec_add(c1x6x9x12).spec_add(c0x5x9x14).spec_sub(c0x5x10x13).spec_sub(c1x5x8x14).spec_add(c1x5x10x12),
        c2x5x8x13,
        c2x5x9x12,
    );
    lemma_append2_pos(
        c1x5x8x14.spec_sub(c1x5x10x12).spec_sub(c1x4x9x14).spec_add(c1x4x10x13).spec_sub(c1x6x8x13).spec_add(c1x6x9x12).spec_add(c0x5x9x14).spec_sub(c0x5x10x13).spec_sub(c1x5x8x14).spec_add(c1x5x10x12).spec_add(c2x5x8x13).spec_sub(c2x5x9x12),
        c0x6x9x13,
        c2x4x9x13,
    );
    lemma_append2_neg(
        c1x5x8x14.spec_sub(c1x5x10x12).spec_sub(c1x4x9x14).spec_add(c1x4x10x13).spec_sub(c1x6x8x13).spec_add(c1x6x9x12).spec_add(c0x5x9x14).spec_sub(c0x5x10x13).spec_sub(c1x5x8x14).spec_add(c1x5x10x12).spec_add(c2x5x8x13).spec_sub(c2x5x9x12).spec_add(c0x6x9x13).spec_sub(c2x4x9x13),
        c1x6x9x12,
        c2x5x9x12,
    );
    lemma_append2_neg(
        c1x5x8x14.spec_sub(c1x5x10x12).spec_sub(c1x4x9x14).spec_add(c1x4x10x13).spec_sub(c1x6x8x13).spec_add(c1x6x9x12).spec_add(c0x5x9x14).spec_sub(c0x5x10x13).spec_sub(c1x5x8x14).spec_add(c1x5x10x12).spec_add(c2x5x8x13).spec_sub(c2x5x9x12).spec_add(c0x6x9x13).spec_sub(c2x4x9x13).spec_sub(c1x6x9x12).spec_add(c2x5x9x12),
        c0x5x9x14,
        c1x4x9x14,
    );
    lemma_append2_pos(
        c1x5x8x14.spec_sub(c1x5x10x12).spec_sub(c1x4x9x14).spec_add(c1x4x10x13).spec_sub(c1x6x8x13).spec_add(c1x6x9x12).spec_add(c0x5x9x14).spec_sub(c0x5x10x13).spec_sub(c1x5x8x14).spec_add(c1x5x10x12).spec_add(c2x5x8x13).spec_sub(c2x5x9x12).spec_add(c0x6x9x13).spec_sub(c2x4x9x13).spec_sub(c1x6x9x12).spec_add(c2x5x9x12).spec_sub(c0x5x9x14).spec_add(c1x4x9x14),
        c1x6x8x13,
        c2x5x8x13,
    );
    lemma_append2_neg(
        c1x5x8x14.spec_sub(c1x5x10x12).spec_sub(c1x4x9x14).spec_add(c1x4x10x13).spec_sub(c1x6x8x13).spec_add(c1x6x9x12).spec_add(c0x5x9x14).spec_sub(c0x5x10x13).spec_sub(c1x5x8x14).spec_add(c1x5x10x12).spec_add(c2x5x8x13).spec_sub(c2x5x9x12).spec_add(c0x6x9x13).spec_sub(c2x4x9x13).spec_sub(c1x6x9x12).spec_add(c2x5x9x12).spec_sub(c0x5x9x14).spec_add(c1x4x9x14).spec_add(c1x6x8x13).spec_sub(c2x5x8x13),
        c0x6x9x13,
        c2x4x9x13,
    );
    lemma_append2_pos(
        c1x5x8x14.spec_sub(c1x5x10x12).spec_sub(c1x4x9x14).spec_add(c1x4x10x13).spec_sub(c1x6x8x13).spec_add(c1x6x9x12).spec_add(c0x5x9x14).spec_sub(c0x5x10x13).spec_sub(c1x5x8x14).spec_add(c1x5x10x12).spec_add(c2x5x8x13).spec_sub(c2x5x9x12).spec_add(c0x6x9x13).spec_sub(c2x4x9x13).spec_sub(c1x6x9x12).spec_add(c2x5x9x12).spec_sub(c0x5x9x14).spec_add(c1x4x9x14).spec_add(c1x6x8x13).spec_sub(c2x5x8x13).spec_sub(c0x6x9x13).spec_add(c2x4x9x13),
        c0x5x10x13,
        c1x4x10x13,
    );
    lemma_inv_right_chain13(c1x5x8x14, c1x5x10x12, c1x4x9x14, c1x4x10x13, c1x6x8x13, c1x6x9x12, c0x5x9x14, c0x5x10x13, c2x5x8x13, c2x5x9x12, c0x6x9x13, c2x4x9x13);
    lemma_zero_mul(inv_d);
    assert(mul_seq(a, inv)[13] == T::spec_zero());
}

proof fn lemma_inv_right_chain14<T: Scalar>(p1: T, p2: T, p3: T, p4: T, p5: T, p6: T, p7: T, p8: T, p9: T, p10: T, p11: T, p12: T)
    requires
        laws_sealed::<T>(),
    ensures
        p1.spec_sub(p2).spec_sub(p3).spec_add(p4).spec_sub(p5).spec_add(p6).spec_add(p7).spec_sub(p8).spec_sub(p9).spec_add(p10).spec_add(p5).spec_sub(p6).spec_add(p8).spec_sub(p4).spec_sub(p10).spec_add(p2).spec_sub(p11).spec_add(p12).spec_add(p9).spec_sub(p1).spec_sub(p7).spec_add(p3).spec_add(p11).spec_sub(p12) == T::spec_zero(),
{
    lemma_swap_as(p1.spec_sub(p2).spec_sub(p3).spec_add(p4).spec_sub(p5).spec_add(p6).spec_add(p7).spec_sub(p8).spec_sub(p9).spec_add(p10).spec_add(p5).spec_sub(p6).spec_add(p8).spec_sub(p4).spec_sub(p10).spec_add(p2).spec_sub(p11).spec_add(p12), p9, p1);
    lemma_swap_as(p1.spec_sub(p2).spec_sub(p3).spec_add(p4).spec_sub(p5).spec_add(p6).spec_add(p7).spec_sub(p8).spec_sub(p9).spec_add(p10).spec_add(p5).spec_sub(p6).spec_add(p8).spec_sub(p4).spec_sub(p10).spec_add(p2).spec_sub(p11), p12, p1);
    lemma_swap_ss(p1.spec_sub(p2).spec_sub(p3).spec_add(p4).spec_sub(p5).spec_add(p6).spec_add(p7).spec_sub(p8).spec_sub(p9).spec_add(p10).spec_add(p5).spec_sub(p6).spec_add(p8).spec_sub(p4).spec_sub(p10).spec_add(p2), p11, p1);
    lemma_swap_as(p1.spec_sub(p2).spec_sub(p3).spec_add(p4).spec_sub(p5).spec_add(p6).spec_add(p7).spec_sub(p8).spec_sub(p9).spec_add(p10).spec_add(p5).spec_sub(p6).spec_add(p8).spec_sub(p4).spec_sub(p10), p2, p1);
    lemma_swap_ss(p1.spec_sub(p2).spec_sub(p3).spec_add(p4).spec_sub(p5).spec_add(p6).spec_add(p7).spec_sub(p8).spec_sub(p9).spec_add(p10).spec_add(p5).spec_sub(p6).spec_add(p8).spec_sub(p4), p10, p1);
    lemma_swap_ss(p1.spec_sub(p2).spec_sub(p3).spec_add(p4).spec_sub(p5).spec_add(p6).spec_add(p7).spec_sub(p8).spec_sub(p9).spec_add(p10).spec_add(p5).spec_sub(p6).spec_add(p8), p4, p1);
    lemma_swap_as(p1.spec_sub(p2).spec_sub(p3).spec_add(p4).spec_sub(p5).spec_add(p6).spec_add(p7).spec_sub(p8).spec_sub(p9).spec_add(p10).spec_add(p5).spec_sub(p6), p8, p1);
    lemma_swap_ss(p1.spec_sub(p2).spec_sub(p3).spec_add(p4).spec_sub(p5).spec_add(p6).spec_add(p7).spec_sub(p8).spec_sub(p9).spec_add(p10).spec_add(p5), p6, p1);
    lemma_swap_as(p1.spec_sub(p2).spec_sub(p3).spec_add(p4).spec_sub(p5).spec_add(p6).spec_add(p7).spec_sub(p8).spec_sub(p9).spec_add(p10), p5, p1);
    lemma_swap_as(p1.spec_sub(p2).spec_sub(p3).spec_add(p4).spec_sub(p5).spec_add(p6).spec_add(p7).spec_sub(p8).spec_sub(p9), p10, p1);
    lemma_swap_ss(p1.spec_sub(p2).spec_sub(p3).spec_add(p4).spec_sub(p5).spec_add(p6).spec_add(p7).spec_sub(p8), p9, p1);
    lemma_swap_ss(p1.spec_sub(p2).spec_sub(p3).spec_add(p4).spec_sub(p5).spec_add(p6).spec_add(p7), p8, p1);
    lemma_swap_as(p1.spec_sub(p2).spec_sub(p3).spec_add(p4).spec_sub(p5).spec_add(p6), p7, p1);
    lemma_swap_as(p1.spec_sub(p2).spec_sub(p3).spec_add(p4).spec_sub(p5), p6, p1);
    lemma_swap_ss(p1.spec_sub(p2).spec_sub(p3).spec_add(p4), p5, p1);
    lemma_swap_as(p1.spec_sub(p2).spec_sub(p3), p4, p1);
    lemma_swap_ss(p1.spec_sub(p2), p3, p1);
    lemma_swap_ss(p1, p2, p1);
    lemma_swap_sa(p1.spec_sub(p1).spec_sub(p2).spec_sub(p3).spec_add(p4).spec_sub(p5).spec_add(p6).spec_add(p7).spec_sub(p8).spec_sub(p9).spec_add(p10).spec_add(p5).spec_sub(p6).spec_add(p8).spec_sub(p4), p10, p2);
    lemma_swap_sa(p1.spec_sub(p1).spec_sub(p2).spec_sub(p3).spec_add(p4).spec_sub(p5).spec_add(p6).spec_add(p7).spec_sub(p8).spec_sub(p9).spec_add(p10).spec_add(p5).spec_sub(p6).spec_add(p8), p4, p2);
    lemma_swap_aa(p1.spec_sub(p1).spec_sub(p2).spec_sub(p3).spec_add(p4).spec_sub(p5).spec_add(p6).spec_add(p7).spec_sub(p8).spec_sub(p9).spec_add(p10).spec_add(p5).spec_sub(p6), p8, p2);
    lemma_swap_sa(p1.spec_sub(p1).spec_sub(p2).spec_sub(p3).spec_add(p4).spec_sub(p5).spec_add(p6).spec_add(p7).spec_sub(p8).spec_sub(p9).spec_add(p10).spec_add(p5), p6, p2);
    lemma_swap_aa(p1.spec_sub(p1).spec_sub(p2).spec_sub(p3).spec_add(p4).spec_sub(p5).spec_add(p6).spec_add(p7).spec_sub(p8).spec_sub(p9).spec_add(p10), p5, p2);
    lemma_swap_aa(p1.spec_sub(p1).spec_sub(p2).spec_sub(p3).spec_add(p4).spec_sub(p5).spec_add(p6).spec_add(p7).spec_sub(p8).spec_sub(p9), p10, p2);
    lemma_swap_sa(p1.spec_sub(p1).spec_sub(p2).spec_sub(p3).spec_add(p4).spec_sub(p5).spec_add(p6).spec_add(p7).spec_sub(p8), p9, p2);
    lemma_swap_sa(p1.spec_sub(p1).spec_sub(p2).spec_sub(p3).spec_add(p4).spec_sub(p5).spec_add(p6).spec_add(p7), p8, p2);
    lemma_swap_aa(p1.spec_sub(p1).spec_sub(p2).spec_sub(p3).spec_add(p4).spec_sub(p5).spec_add(p6), p7, p2);
    lemma_swap_aa(p1.spec_sub(p1).spec_sub(p2).spec_sub(p3).spec_add(p4).spec_sub(p5), p6, p2);
    lemma_swap_sa(p1.spec_sub(p1).spec_sub(p2).spec_sub(p3).spec_add(p4), p5, p2);
    lemma_swap_aa(p1.spec_sub(p1).spec_sub(p2).spec_sub(p3), p4, p2);
    lemma_swap_sa(p1.spec_sub(p1).spec_sub(p2), p3, p2);
    lemma_swap_sa(p1.spec_sub(p1), p2, p2);
    lemma_swap_sa(p1.spec_sub(p1).spec_add(p2).spec_sub(p2).spec_sub(p3).spec_add(p4).spec_sub(p5).spec_add(p6).spec_add(p7).spec_sub(p8).spec_sub(p9).spec_add(p10).spec_add(p5).spec_sub(p6).spec_add(p8).spec_sub(p4).spec_sub(p10).spec_sub(p11).spec_add(p12).spec_add(p9), p7, p3);
    lemma_swap_aa(p1.spec_sub(p1).spec_add(p2).spec_sub(p2).spec_sub(p3).spec_add(p4).spec_sub(p5).spec_add(p6).spec_add(p7).spec_sub(p8).spec_sub(p9).spec_add(p10).spec_add(p5).spec_sub(p6).spec_add(p8).spec_sub(p4).spec_sub(p10).spec_sub(p11).spec_add(p12), p9, p3);
    lemma_swap_aa(p1.spec_sub(p1).spec_add(p2).spec_sub(p2).spec_sub(p3).spec_add(p4).spec_sub(p5).spec_add(p6).spec_add(p7).spec_sub(p8).spec_sub(p9).spec_add(p10).spec_add(p5).spec_sub(p6).spec_add(p8).spec_sub(p4).spec_sub(p10).spec_sub(p11), p12, p3);
    lemma_swap_sa(p1.spec_sub(p1).spec_add(p2).spec_sub(p2).spec_sub(p3).spec_add(p4).spec_sub(p5).spec_add(p6).spec_add(p7).spec_sub(p8).spec_sub(p9).spec_add(p10).spec_add(p5).spec_sub(p6).spec_add(p8).spec_sub(p4).spec_sub(p10), p11, p3);
    lemma_swap_sa(p1.spec_sub(p1).spec_add(p2).spec_sub(p2).spec_sub(p3).spec_add(p4).spec_sub(p5).spec_add(p6).spec_add(p7).spec_sub(p8).spec_sub(p9).spec_add(p10).spec_add(p5).spec_sub(p6).spec_add(p8).spec_sub(p4), p10, p3);
    lemma_swap_sa(p1.spec_sub(p1).spec_add(p2).spec_sub(p2).spec_sub(p3).spec_add(p4).spec_sub(p5).spec_add(p6).spec_add(p7).spec_sub(p8).spec_sub(p9).spec_add(p10).spec_add(p5).spec_sub(p6).spec_add(p8), p4, p3);
    lemma_swap_aa(p1.spec_sub(p1).spec_add(p2).spec_sub(p2).spec_sub(p3).spec_add(p4).spec_sub(p5).spec_add(p6).spec_add(p7).spec_sub(p8).spec_sub(p9).spec_add(p10).spec_add(p5).spec_sub(p6), p8, p3);
    lemma_swap_sa(p1.spec_sub(p1).spec_add(p2).spec_sub(p2).spec_sub(p3).spec_add(p4).spec_sub(p5).spec_add(p6).spec_add(p7).spec_sub(p8).spec_sub(p9).spec_add(p10).spec_add(p5), p6, p3);
    lemma_swap_aa(p1.spec_sub(p1).spec_add(p2).spec_sub(p2).spec_sub(p3).spec_add(p4).spec_sub(p5).spec_add(p6).spec_add(p7).spec_sub(p8).spec_sub(p9).spec_add(p10), p5, p3);
    lemma_swap_aa(p1.spec_sub(p1).spec_add(p2).spec_sub(p2).spec_sub(p3).spec_add(p4).spec_sub(p5).spec_add(p6).spec_add(p7).spec_sub(p8).spec_sub(p9), p10, p3);
    lemma_swap_sa(p1.spec_sub(p1).spec_add(p2).spec_sub(p2).spec_sub(p3).spec_add(p4).spec_sub(p5).spec_add(p6).spec_add(p7).spec_sub(p8), p9, p3);
    lemma_swap_sa(p1.spec_sub(p1).spec_add(p2).spec_sub(p2).spec_sub(p3).spec_add(p4).spec_sub(p5).spec_add(p6).spec_add(p7), p8, p3);
    lemma_swap_aa(p1.spec_sub(p1).spec_add(p2).spec_sub(p2).spec_sub(p3).spec_add(p4).spec_sub(p5).spec_add(p6), p7, p3);
    lemma_swap_aa(p1.spec_sub(p1).spec_add(p2).spec_sub(p2).spec_sub(p3).spec_add(p4).spec_sub(p5), p6, p3);
    lemma_swap_sa(p1.spec_sub(p1).spec_add(p2).spec_sub(p2).spec_sub(p3).spec_add(p4), p5, p3);
    lemma_swap_aa(p1.spec_sub(p1).spec_add(p2).spec_sub(p2).spec_sub(p3), p4, p3);
    lemma_swap_sa(p1.spec_sub(p1).spec_add(p2).spec_sub(p2), p3, p3);
    lemma_swap_as(p1.spec_sub(p1).spec_add(p2).spec_sub(p2).spec_add(p3).spec_sub(p3).spec_add(p4).spec_sub(p5).spec_add(p6).spec_add(p7).spec_sub(p8).spec_sub(p9).spec_add(p10).spec_add(p5).spec_sub(p6), p8, p4);
    lemma_swap_ss(p1.spec_sub(p1).spec_add(p2).spec_sub(p2).spec_add(p3).spec_sub(p3).spec_add(p4).spec_sub(p5).spec_add(p6).spec_add(p7).spec_sub(p8).spec_sub(p9).spec_add(p10).spec_add(p5), p6, p4);
    lemma_swap_as(p1.spec_sub(p1).spec_add(p2).spec_sub(p2).spec_add(p3).spec_sub(p3).spec_add(p4).spec_sub(p5).spec_add(p6).spec_add(p7).spec_sub(p8).spec_sub(p9).spec_add(p10), p5, p4);
    lemma_swap_as(p1.spec_sub(p1).spec_add(p2).spec_sub(p2).spec_add(p3).spec_sub(p3).spec_add(p4).spec_sub(p5).spec_add(p6).spec_add(p7).spec_sub(p8).spec_sub(p9), p10, p4);
    lemma_swap_ss(p1.spec_sub(p1).spec_add(p2).spec_sub(p2).spec_add(p3).spec_sub(p3).spec_add(p4).spec_sub(p5).spec_add(p6).spec_add(p7).spec_sub(p8), p9, p4);
    lemma_swap_ss(p1.spec_sub(p1).spec_add(p2).spec_sub(p2).spec_add(p3).spec_sub(p3).spec_add(p4).spec_sub(p5).spec_add(p6).spec_add(p7), p8, p4);
    lemma_swap_as(p1.spec_sub(p1).spec_add(p2).spec_sub(p2).spec_add(p3).spec_sub(p3).spec_add(p4).spec_sub(p5).spec_add(p6), p7, p4);
    lemma_swap_as(p1.spec_sub(p1).spec_add(p2).spec_sub(p2).spec_add(p3).spec_sub(p3).spec_add(p4).spec_sub(p5), p6, p4);
    lemma_swap_ss(p1.spec_sub(p1).spec_add(p2).spec_sub(p2).spec_add(p3).spec_sub(p3).spec_add(p4), p5, p4);
    lemma_swap_aa(p1.spec_sub(p1).spec_add(p2).spec_sub(p2).spec_add(p3).spec_sub(p3).spec_add(p4).spec_sub(p4).spec_sub(p5).spec_add(p6).spec_add(p7).spec_sub(p8).spec_sub(p9), p10, p5);
    lemma_swap_sa(p1.spec_sub(p1).spec_add(p2).spec_sub(p2).spec_add(p3).spec_sub(p3).spec_add(p4).spec_sub(p4).spec_sub(p5).spec_add(p6).spec_add(p7).spec_sub(p8), p9, p5);
    lemma_swap_sa(p1.spec_sub(p1).spec_add(p2).spec_sub(p2).spec_add(p3).spec_sub(p3).spec_add(p4).spec_sub(p4).spec_sub(p5).spec_add(p6).spec_add(p7), p8, p5);
    lemma_swap_aa(p1.spec_sub(p1).spec_add(p2).spec_sub(p2).spec_add(p3).spec_sub(p3).spec_add(p4).spec_sub(p4).spec_sub(p5).spec_add(p6), p7, p5);
    lemma_swap_aa(p1.spec_sub(p1).spec_add(p2).spec_sub(p2).spec_add(p3).spec_sub(p3).spec_add(p4).spec_sub(p4).spec_sub(p5), p6, p5);
    lemma_swap_sa(p1.spec_sub(p1).spec_add(p2).spec_sub(p2).spec_add(p3).spec_sub(p3).spec_add(p4).spec_sub(p4), p5, p5);
    lemma_swap_as(p1.spec_sub(p1).spec_add(p2).spec_sub(p2).spec_add(p3).spec_sub(p3).spec_add(p4).spec_sub(p4).spec_add(p5).spec_sub(p5).spec_add(p6).spec_add(p7).spec_sub(p8).spec_sub(p9), p10, p6);
    lemma_swap_ss(p1.spec_sub(p1).spec_add(p2).spec_sub(p2).spec_add(p3).spec_sub(p3).spec_add(p4).spec_sub(p4).spec_add(p5).spec_sub(p5).spec_add(p6).spec_add(p7).spec_sub(p8), p9, p6);
    lemma_swap_ss(p1.spec_sub(p1).spec_add(p2).spec_sub(p2).spec_add(p3).spec_sub(p3).spec_add(p4).spec_sub(p4).spec_add(p5).spec_sub(p5).spec_add(p6).spec_add(p7), p8, p6);
    lemma_swap_as(p1.spec_sub(p1).spec_add(p2).spec_sub(p2).spec_add(p3).spec_sub(p3).spec_add(p4).spec_sub(p4).spec_add(p5).spec_sub(p5).spec_add(p6), p7, p6);
    lemma_swap_as(p1.spec_sub(p1).spec_add(p2).spec_sub(p2).spec_add(p3).spec_sub(p3).spec_add(p4).spec_sub(p4).spec_add(p5).spec_sub(p5).spec_add(p6).spec_sub(p6).spec_add(p7).spec_sub(p8).spec_sub(p9).spec_add(p10).spec_add(p8).spec_sub(p10).spec_sub(p11).spec_add(p12), p9, p7);
    lemma_swap_as(p1.spec_sub(p1).spec_add(p2).spec_sub(p2).spec_add(p3).spec_sub(p3).spec_add(p4).spec_sub(p4).spec_add(p5).spec_sub(p5).spec_add(p6).spec_sub(p6).spec_add(p7).spec_sub(p8).spec_sub(p9).spec_add(p10).spec_add(p8).spec_sub(p10).spec_sub(p11), p12, p7);
    lemma_swap_ss(p1.spec_sub(p1).spec_add(p2).spec_sub(p2).spec_add(p3).spec_sub(p3).spec_add(p4).spec_sub(p4).spec_add(p5).spec_sub(p5).spec_add(p6).spec_sub(p6).spec_add(p7).spec_sub(p8).spec_sub(p9).spec_add(p10).spec_add(p8).spec_sub(p10), p11, p7);
    lemma_swap_ss(p1.spec_sub(p1).spec_add(p2).spec_sub(p2).spec_add(p3).spec_sub(p3).spec_add(p4).spec_sub(p4).spec_add(p5).spec_sub(p5).spec_add(p6).spec_sub(p6).spec_add(p7).spec_sub(p8).spec_sub(p9).spec_add(p10).spec_add(p8), p10, p7);
    lemma_swap_as(p1.spec_sub(p1).spec_add(p2).spec_sub(p2).spec_add(p3).spec_sub(p3).spec_add(p4).spec_sub(p4).spec_add(p5).spec_sub(p5).spec_add(p6).spec_sub(p6).spec_add(p7).spec_sub(p8).spec_sub(p9).spec_add(p10), p8, p7);
    lemma_swap_as(p1.spec_sub(p1).spec_add(p2).spec_sub(p2).spec_add(p3).spec_sub(p3).spec_add(p4).spec_sub(p4).spec_add(p5).spec_sub(p5).spec_add(p6).spec_sub(p6).spec_add(p7).spec_sub(p8).spec_sub(p9), p10, p7);
    lemma_swap_ss(p1.spec_sub(p1).spec_add(p2).spec_sub(p2).spec_add(p3).spec_sub(p3).spec_add(p4).spec_sub(p4).spec_add(p5).spec_sub(p5).spec_add(p6).spec_sub(p6).spec_add(p7).spec_sub(p8), p9, p7);
    lemma_swap_ss(p1.spec_sub(p1).spec_add(p2).spec_sub(p2).spec_add(p3).spec_sub(p3).spec_add(p4).spec_sub(p4).spec_add(p5).spec_sub(p5).spec_add(p6).spec_sub(p6).spec_add(p7), p8, p7);
    lemma_swap_aa(p1.spec_sub(p1).spec_add(p2).spec_sub(p2).spec_add(p3).spec_sub(p3).spec_add(p4).spec_sub(p4).spec_add(p5).spec_sub(p5).spec_add(p6).spec_sub(p6).spec_add(p7).spec_sub(p7).spec_sub(p8).spec_sub(p9), p10, p8);
    lemma_swap_sa(p1.spec_sub(p1).spec_add(p2).spec_sub(p2).spec_add(p3).spec_sub(p3).spec_add(p4).spec_sub(p4).spec_add(p5).spec_sub(p5).spec_add(p6).spec_sub(p6).spec_add(p7).spec_sub(p7).spec_sub(p8), p9, p8);
    lemma_swap_sa(p1.spec_sub(p1).spec_add(p2).spec_sub(p2).spec_add(p3).spec_sub(p3).spec_add(p4).spec_sub(p4).spec_add(p5).spec_sub(p5).spec_add(p6).spec_sub(p6).spec_add(p7).spec_sub(p7), p8, p8);
    lemma_swap_aa(p1.spec_sub(p1).spec_add(p2).spec_sub(p2).spec_add(p3).spec_sub(p3).spec_add(p4).spec_sub(p4).spec_add(p5).spec_sub(p5).spec_add(p6).spec_sub(p6).spec_add(p7).spec_sub(p7).spec_add(p8).spec_sub(p8).spec_sub(p9).spec_add(p10).spec_sub(p10).spec_sub(p11), p12, p9);
    lemma_swap_sa(p1.spec_sub(p1).spec_add(p2).spec_sub(p2).spec_add(p3).spec_sub(p3).spec_add(p4).spec_sub(p4).spec_add(p5).spec_sub(p5).spec_add(p6).spec_sub(p6).spec_add(p7).spec_sub(p7).spec_add(p8).spec_sub(p8).spec_sub(p9).spec_add(p10).spec_sub(p10), p11, p9);
    lemma_swap_sa(p1.spec_sub(p1).spec_add(p2).spec_sub(p2).spec_add(p3).spec_sub(p3).spec_add(p4).spec_sub(p4).spec_add(p5).spec_sub(p5).spec_add(p6).spec_sub(p6).spec_add(p7).spec_sub(p7).spec_add(p8).spec_sub(p8).spec_sub(p9).spec_add(p10), p10, p9);
    lemma_swap_aa(p1.spec_sub(p1).spec_add(p2).spec_sub(p2).spec_add(p3).spec_sub(p3).spec_add(p4).spec_sub(p4).spec_add(p5).spec_sub(p5).spec_add(p6).spec_sub(p6).spec_add(p7).spec_sub(p7).spec_add(p8).spec_sub(p8).spec_sub(p9), p10, p9);
    lemma_swap_sa(p1.spec_sub(p1).spec_add(p2).spec_sub(p2).spec_add(p3).spec_sub(p3).spec_add(p4).spec_sub(p4).spec_add(p5).spec_sub(p5).spec_add(p6).spec_sub(p6).spec_add(p7).spec_sub(p7).spec_add(p8).spec_sub(p8), p9, p9);
    lemma_swap_aa(p1.spec_sub(p1).spec_add(p2).spec_sub(p2).spec_add(p3).spec_sub(p3).spec_add(p4).spec_sub(p4).spec_add(p5).spec_sub(p5).spec_add(p6).spec_sub(p6).spec_add(p7).spec_sub(p7).spec_add(p8).spec_sub(p8).spec_add(p9).spec_sub(p9).spec_add(p10).spec_sub(p10).spec_sub(p11), p12, p11);
    lemma_swap_sa(p1.spec_sub(p1).spec_add(p2).spec_sub(p2).spec_add(p3).spec_sub(p3).spec_add(p4).spec_sub(p4).spec_add(p5).spec_sub(p5).spec_add(p6).spec_sub(p6).spec_add(p7).spec_sub(p7).spec_add(p8).spec_sub(p8).spec_add(p9).spec_sub(p9).spec_add(p10).spec_sub(p10), p11, p11);
    lemma_self_cancel(p1);
    lemma_cancel_adj(p1.spec_sub(p1), p2);
    lemma_cancel_adj(p1.spec_sub(p1).spec_add(p2).spec_sub(p2), p3);
    lemma_cancel_adj(p1.spec_sub(p1).spec_add(p2).spec_sub(p2).spec_add(p3).spec_sub(p3), p4);
    lemma_cancel_adj(p1.spec_sub(p1).spec_add(p2).spec_sub(p2).spec_add(p3).spec_sub(p3).spec_add(p4).spec_sub(p4), p5);
    lemma_cancel_adj(p1.spec_sub(p1).spec_add(p2).spec_sub(p2).spec_add(p3).spec_sub(p3).spec_add(p4).spec_sub(p4).spec_add(p5).spec_sub(p5), p6);
    lemma_cancel_adj(p1.spec_sub(p1).spec_add(p2).spec_sub(p2).spec_add(p3).spec_sub(p3).spec_add(p4).spec_sub(p4).spec_add(p5).spec_sub(p5).spec_add(p6).spec_sub(p6), p7);
    lemma_cancel_adj(p1.spec_sub(p1).spec_add(p2).spec_sub(p2).spec_add(p3).spec_sub(p3).spec_add(p4).spec_sub(p4).spec_add(p5).spec_sub(p5).spec_add(p6).spec_sub(p6).spec_add(p7).spec_sub(p7), p8);
    lemma_cancel_adj(p1.spec_sub(p1).spec_add(p2).spec_sub(p2).spec_add(p3).spec_sub(p3).spec_add(p4).spec_sub(p4).spec_add(p5).spec_sub(p5).spec_add(p6).spec_sub(p6).spec_add(p7).spec_sub(p7).spec_add(p8).spec_sub(p8), p9);
    lemma_cancel_adj(p1.spec_sub(p1).spec_add(p2).spec_sub(p2).spec_add(p3).spec_sub(p3).spec_add(p4).spec_sub(p4).spec_add(p5).spec_sub(p5).spec_add(p6).spec_sub(p6).spec_add(p7).spec_sub(p7).spec_add(p8).spec_sub(p8).spec_add(p9).spec_sub(p9), p10);
    lemma_cancel_adj(p1.spec_sub(p1).spec_add(p2).spec_sub(p2).spec_add(p3).spec_sub(p3).spec_add(p4).spec_sub(p4).spec_add(p5).spec_sub(p5).spec_add(p6).spec_sub(p6).spec_add(p7).spec_sub(p7).spec_add(p8).spec_sub(p8).spec_add(p9).spec_sub(p9).spec_add(p10).spec_sub(p10), p11);
    lemma_cancel_adj(p1.spec_sub(p1).spec_add(p2).spec_sub(p2).spec_add(p3).spec_sub(p3).spec_add(p4).spec_sub(p4).spec_add(p5).spec_sub(p5).spec_add(p6).spec_sub(p6).spec_add(p7).spec_sub(p7).spec_add(p8).spec_sub(p8).spec_add(p9).spec_sub(p9).spec_add(p10).spec_sub(p10).spec_add(p11).spec_sub(p11), p12);
}

pub(crate) proof fn lemma_inv_right_entry14<T: Scalar>(a: Seq<T>)
    requires
        a.len() == 16,
        field_sealed::<T>(),
        !det_seq(a).spec_is_zero(),
    ensures
        mul_seq(a, inverse_seq(a))[14] == T::spec_zero(),
{
    lemma_field_gives_ring::<T>();
    let inv = inverse_seq(a);
    let inv_d = T::spec_one().spec_div(det_seq(a));
    let b00 = minor2(a, 0, 5, 1, 4);
    let b01 = minor2(a, 0, 6, 2, 4);
    let b02 = minor2(a, 0, 7, 3, 4);
    let b03 = minor2(a, 1, 6, 2, 5);
    let b04 = minor2(a, 1, 7, 3, 5);
    let b05 = minor2(a, 2, 7, 3, 6);
    let b06 = minor2(a, 8, 13, 9, 12);
    let b07 = minor2(a, 8, 14, 10, 12);
    let b08 = minor2(a, 8, 15, 11, 12);
    let b09 = minor2(a, 9, 14, 10, 13);
    let b10 = minor2(a, 9, 15, 11, 13);
    let b11 = minor2(a, 10, 15, 11, 14);
    assert(mul_seq(a, inv)[14] == inv[12].spec_mul(a[2]).spec_add(inv[13].spec_mul(a[6])).spec_add(inv[14].spec_mul(a[10])).spec_add(inv[15].spec_mul(a[14])));
    assert(inv[12] == a[5].spec_mul(b07).spec_sub(a[4].spec_mul(b09)).spec_sub(a[6].spec_mul(b06)).spec_mul(inv_d));
    assert(inv[13] == a[0].spec_mul(b09).spec_sub(a[1].spec_mul(b07)).spec_add(a[2].spec_mul(b06)).spec_mul(inv_d));
    assert(inv[14] == a[13].spec_mul(b01).spec_sub(a[12].spec_mul(b03)).spec_sub(a[14].spec_mul(b00)).spec_mul(inv_d));
    assert(inv[15] == a[8].spec_mul(b03).spec_sub(a[9].spec_mul(b01)).spec_add(a[10].spec_mul(b00)).spec_mul(inv_d));
    lemma_mul_comm(a[5].spec_mul(b07).spec_sub(a[4].spec_mul(b09)).spec_sub(a[6].spec_mul(b06)).spec_mul(inv_d), a[2]);
    lemma_mul_comm(a[0].spec_mul(b09).spec_sub(a[1].spec_mul(b07)).spec_add(a[2].spec_mul(b06)).spec_mul(inv_d), a[6]);
    lemma_mul_comm(a[13].spec_mul(b01).spec_sub(a[12].spec_mul(b03)).spec_sub(a[14].spec_mul(b00)).spec_mul(inv_d), a[10]);
    lemma_mul_comm(a[8].spec_mul(b03).spec_sub(a[9].spec_mul(b01)).spec_add(a[10].spec_mul(b00)).spec_mul(inv_d), a[14]);
    lemma_mul_assoc(a[2], a[5].spec_mul(b07).spec_sub(a[4].spec_mul(b09)).spec_sub(a[6].spec_mul(b06)), inv_d);
    lemma_mul_assoc(a[6], a[0].spec_mul(b09).spec_sub(a[1].spec_mul(b07)).spec_add(a[2].spec_mul(b06)), inv_d);
    lemma_mul_assoc(a[10], a[13].spec_mul(b01).spec_sub(a[12].spec_mul(b03)).spec_sub(a[14].spec_mul(b00)), inv_d);
    lemma_mul_assoc(a[14], a[8].spec_mul(b03).spec_sub(a[9].spec_mul(b01)).spec_add(a[10].spec_mul(b00)), inv_d);
    lemma_factor4(
        a[2].spec_mul(a[5].spec_mul(b07).spec_sub(a[4].spec_mul(b09)).spec_sub(a[6].spec_mul(b06))),
        a[6].spec_mul(a[0].spec_mul(b09).spec_sub(a[1].spec_mul(b07)).spec_add(a[2].spec_mul(b06))),
        a[10].spec_mul(a[13].spec_mul(b01).spec_sub(a[12].spec_mul(b03)).spec_sub(a[14].spec_mul(b00))),
        a[14].spec_mul(a[8].spec_mul(b03).spec_sub(a[9].spec_mul(b01)).spec_add(a[10].spec_mul(b00))),
        inv_d,
    );
    lemma_distrib3_pmm(a[2], a[5].spec_mul(b07), a[4].spec_mul(b09), a[6].spec_mul(b06));
    lemma_mul_assoc(a[2], a[5], b07);
    lemma_mul_assoc(a[2], a[4], b09);
    lemma_mul_assoc(a[2], a[6], b06);
    lemma_distrib3_pmp(a[6], a[0].spec_mul(b09), a[1].spec_mul(b07), a[2].spec_mul(b06));
    lemma_mul_assoc(a[6], a[0], b09);
    lemma_mul_comm(a[6], a[0]);
    lemma_mul_assoc(a[6], a[1], b07);
    lemma_mul_comm(a[6], a[1]);
    lemma_mul_assoc(a[6], a[2], b06);
    lemma_mul_comm(a[6], a[2]);
    lemma_distrib3_pmm(a[10], a[13].spec_mul(b01), a[12].spec_mul(b03), a[14].spec_mul(b00));
    lemma_mul_assoc(a[10], a[13], b01);
    lemma_mul_assoc(a[10], a[12], b03);
    lemma_mul_assoc(a[10], a[14], b00);
    lemma_distrib3_pmp(a[14], a[8].spec_mul(b03), a[9].spec_mul(b01), a[10].spec_mul(b00));
    lemma_mul_assoc(a[14], a[8], b03);
    lemma_mul_comm(a[14], a[8]);
    lemma_mul_assoc(a[14], a[9], b01);
    lemma_mul_comm(a[14], a[9]);
    lemma_mul_assoc(a[14], a[10], b00);
    lemma_mul_comm(a[14], a[10]);
    lemma_append3_pmp(
        a[2].spec_mul(a[5]).spec_mul(b07).spec_sub(a[2].spec_mul(a[4]).spec_mul(b09)).spec_sub(a[2].spec_mul(a[6]).spec_mul(b06)),
        a[0].spec_mul(a[6]).spec_mul(b09),
        a[1].spec_mul(a[6]).spec_mul(b07),
        a[2].spec_mul(a[6]).spec_mul(b06),
    );
    lemma_append3_pmm(
        a[2].spec_mul(a[5]).spec_mul(b07).spec_sub(a[2].spec_mul(a[4]).spec_mul(b09)).spec_sub(a[2].spec_mul(a[6]).spec_mul(b06)).spec_add(a[0].spec_mul(a[6]).spec_mul(b09)).spec_sub(a[1].spec_mul(a[6]).spec_mul(b07)).spec_add(a[2].spec_mul(a[6]).spec_mul(b06)),
        a[10].spec_mul(a[13]).spec_mul(b01),
        a[10].spec_mul(a[12]).spec_mul(b03),
        a[10].spec_mul(a[14]).spec_mul(b00),
    );
    lemma_append3_pmp(
        a[2].spec_mul(a[5]).spec_mul(b07).spec_sub(a[2].spec_mul(a[4]).spec_mul(b09)).spec_sub(a[2].spec_mul(a[6]).spec_mul(b06)).spec_add(a[0].spec_mul(a[6]).spec_mul(b09)).spec_sub(a[1].spec_mul(a[6]).spec_mul(b07)).spec_add(a[2].spec_mul(a[6]).spec_mul(b06)).spec_add(a[10].spec_mul(a[13]).spec_mul(b01)).spec_sub(a[10].spec_mul(a[12]).spec_mul(b03)).spec_sub(a[10].spec_mul(a[14]).spec_mul(b00)),
        a[8].spec_mul(a[14]).spec_mul(b03),
        a[9].spec_mul(a[14]).spec_mul(b01),
        a[10].spec_mul(a[14]).spec_mul(b00),
    );
    let c2x5x8x14 = a[2].spec_mul(a[5]).spec_mul(a[8].spec_mul(a[14]));
    let c2x5x10x12 = a[2].spec_mul(a[5]).spec_mul(a[10].spec_mul(a[12]));
    let c2x4x9x14 = a[2].spec_mul(a[4]).spec_mul(a[9].spec_mul(a[14]));
    let c2x4x10x13 = a[2].spec_mul(a[4]).spec_mul(a[10].spec_mul(a[13]));
    let c2x6x8x13 = a[2].spec_mul(a[6]).spec_mul(a[8].spec_mul(a[13]));
    let c2x6x9x12 = a[2].spec_mul(a[6]).spec_mul(a[9].spec_mul(a[12]));
    let c0x6x9x14 = a[0].spec_mul(a[6]).spec_mul(a[9].spec_mul(a[14]));
    let c0x6x10x13 = a[0].spec_mul(a[6]).spec_mul(a[10].spec_mul(a[13]));
    let c1x6x8x14 = a[1].spec_mul(a[6]).spec_mul(a[8].spec_mul(a[14]));
    let c1x6x10x12 = a[1].spec_mul(a[6]).spec_mul(a[10].spec_mul(a[12]));
    let c0x5x10x14 = a[0].spec_mul(a[5]).spec_mul(a[10].spec_mul(a[14]));
    let c1x4x10x14 = a[1].spec_mul(a[4]).spec_mul(a[10].spec_mul(a[14]));
    lemma_distrib2(a[2].spec_mul(a[5]), a[8].spec_mul(a[14]), a[10].spec_mul(a[12]));
    lemma_distrib2(a[2].spec_mul(a[4]), a[9].spec_mul(a[14]), a[10].spec_mul(a[13]));
    lemma_distrib2(a[2].spec_mul(a[6]), a[8].spec_mul(a[13]), a[9].spec_mul(a[12]));
    lemma_distrib2(a[0].spec_mul(a[6]), a[9].spec_mul(a[14]), a[10].spec_mul(a[13]));
    lemma_distrib2(a[1].spec_mul(a[6]), a[8].spec_mul(a[14]), a[10].spec_mul(a[12]));
    lemma_distrib2(a[2].spec_mul(a[6]), a[8].spec_mul(a[13]), a[9].spec_mul(a[12]));
    lemma_distrib2(a[10].spec_mul(a[13]), a[0].spec_mul(a[6]), a[2].spec_mul(a[4]));
    lemma_distrib2(a[10].spec_mul(a[12]), a[1].spec_mul(a[6]), a[2].spec_mul(a[5]));
    lemma_distrib2(a[10].spec_mul(a[14]), a[0].spec_mul(a[5]), a[1].spec_mul(a[4]));
    lemma_distrib2(a[8].spec_mul(a[14]), a[1].spec_mul(a[6]), a[2].spec_mul(a[5]));
    lemma_distrib2(a[9].spec_mul(a[14]), a[0].spec_mul(a[6]), a[2].spec_mul(a[4]));
    lemma_distrib2(a[10].spec_mul(a[14]), a[0].spec_mul(a[5]), a[1].spec_mul(a[4]));
    lemma_mul_comm(a[10].spec_mul(a[13]), a[0].spec_mul(a[6]));
    lemma_mul_comm(a[10].spec_mul(a[13]), a[2].spec_mul(a[4]));
    lemma_mul_comm(a[10].spec_mul(a[12]), a[1].spec_mul(a[6]));
    lemma_mul_comm(a[10].spec_mul(a[12]), a[2].spec_mul(a[5]));
    lemma_mul_comm(a[10].spec_mul(a[14]), a[0].spec_mul(a[5]));
    lemma_mul_comm(a[10].spec_mul(a[14]), a[1].spec_mul(a[4]));
    lemma_mul_comm(a[8].spec_mul(a[14]), a[1].spec_mul(a[6]));
    lemma_mul_comm(a[8].spec_mul(a[14]), a[2].spec_mul(a[5]));
    lemma_mul_comm(a[9].spec_mul(a[14]), a[0].spec_mul(a[6]));
    lemma_mul_comm(a[9].spec_mul(a[14]), a[2].spec_mul(a[4]));
    lemma_append2_neg(
        c2x5x8x14.spec_sub(c2x5x10x12),
        c2x4x9x14,
        c2x4x10x13,
    );
    lemma_append2_neg(
        c2x5x8x14.spec_sub(c2x5x10x12).spec_sub(c2x4x9x14).spec_add(c2x4x10x13),
        c2x6x8x13,
        c2x6x9x12,
    );
    lemma_append2_pos(
        c2x5x8x14.spec_sub(c2x5x10x12).spec_sub(c2x4x9x14).spec_add(c2x4x10x13).spec_sub(c2x6x8x13).spec_add(c2x6x9x12),
        c0x6x9x14,
        c0x6x10x13,
    );
    lemma_append2_neg(
        c2x5x8x14.spec_sub(c2x5x10x12).spec_sub(c2x4x9x14).spec_add(c2x4x10x13).spec_sub(c2x6x8x13).spec_add(c2x6x9x12).spec_add(c0x6x9x14).spec_sub(c0x6x10x13),
        c1x6x8x14,
        c1x6x10x12,
    );
    lemma_append2_pos(
        c2x5x8x14.spec_sub(c2x5x10x12).spec_sub(c2x4x9x14).spec_add(c2x4x10x13).spec_sub(c2x6x8x13).spec_add(c2x6x9x12).spec_add(c0x6x9x14).spec_sub(c0x6x10x13).spec_sub(c1x6x8x14).spec_add(c1x6x10x12),
        c2x6x8x13,
        c2x6x9x12,
    );
    lemma_append2_pos(
        c2x5x8x14.spec_sub(c2x5x10x12).spec_sub(c2x4x9x14).spec_add(c2x4x10x13).spec_sub(c2x6x8x13).spec_add(c2x6x9x12).spec_add(c0x6x9x14).spec_sub(c0x6x10x13).spec_sub(c1x6x8x14).spec_add(c1x6x10x12).spec_add(c2x6x8x13).spec_sub(c2x6x9x12),
        c0x6x10x13,
        c2x4x10x13,
    );
    lemma_append2_neg(
        c2x5x8x14.spec_sub(c2x5x10x12).spec_sub(c2x4x9x14).spec_add(c2x4x10x13).spec_sub(c2x6x8x13).spec_add(c2x6x9x12).spec_add(c0x6x9x14).spec_sub(c0x6x10x13).spec_sub(c1x6x8x14).spec_add(c1x6x10x12).spec_add(c2x6x8x13).spec_sub(c2x6x9x12).spec_add(c0x6x10x13).spec_sub(c2x4x10x13),
        c1x6x10x12,
        c2x5x10x12,
    );
    lemma_append2_neg(
        c2x5x8x14.spec_sub(c2x5x10x12).spec_sub(c2x4x9x14).spec_add(c2x4x10x13).spec_sub(c2x6x8x13).spec_add(c2x6x9x12).spec_add(c0x6x9x14).spec_sub(c0x6x10x13).spec_sub(c1x6x8x14).spec_add(c1x6x10x12).spec_add(c2x6x8x13).spec_sub(c2x6x9x12).spec_add(c0x6x10x13).spec_sub(c2x4x10x13).spec_sub(c1x6x10x12).spec_add(c2x5x10x12),
        c0x5x10x14,
        c1x4x10x14,
    );
    lemma_append2_pos(
        c2x5x8x14.spec_sub(c2x5x10x12).spec_sub(c2x4x9x14).spec_add(c2x4x10x13).spec_sub(c2x6x8x13).spec_add(c2x6x9x12).spec_add(c0x6x9x14).spec_sub(c0x6x10x13).spec_sub(c1x6x8x14).spec_add(c1x6x10x12).spec_add(c2x6x8x13).spec_sub(c2x6x9x12).spec_add(c0x6x10x13).spec_sub(c2x4x10x13).spec_sub(c1x6x10x12).spec_add(c2x5x10x12).spec_sub(c0x5x10x14).spec_add(c1x4x10x14),
        c1x6x8x14,
        c2x5x8x14,
    );
    lemma_append2_neg(
        c2x5x8x14.spec_sub(c2x5x10x12).spec_sub(c2x4x9x14).spec_add(c2x4x10x13).spec_sub(c2x6x8x13).spec_add(c2x6x9x12).spec_add(c0x6x9x14).spec_sub(c0x6x10x13).spec_sub(c1x6x8x14).spec_add(c1x6x10x12).spec_add(c2x6x8x13).spec_sub(c2x6x9x12).spec_add(c0x6x10x13).spec_sub(c2x4x10x13).spec_sub(c1x6x10x12).spec_add(c2x5x10x12).spec_sub(c0x5x10x14).spec_add(c1x4x10x14).spec_add(c1x6x8x14).spec_sub(c2x5x8x14),
        c0x6x9x14,
        c2x4x9x14,
    );
    lemma_append2_pos(
        c2x5x8x14.spec_sub(c2x5x10x12).spec_sub(c2x4x9x14).spec_add(c2x4x10x13).spec_sub(c2x6x8x13).spec_add(c2x6x9x12).spec_add(c0x6x9x14).spec_sub(c0x6x10x13).spec_sub(c1x6x8x14).spec_add(c1x6x10x12).spec_add(c2x6x8x13).spec_sub(c2x6x9x12).spec_add(c0x6x10x13).spec_sub(c2x4x10x13).spec_sub(c1x6x10x12).spec_add(c2x5x10x12).spec_sub(c0x5x10x14).spec_add(c1x4x10x14).spec_add(c1x6x8x14).spec_sub(c2x5x8x14).spec_sub(c0x6x9x14).spec_add(c2x4x9x14),
        c0x5x10x14,
        c1x4x10x14,
    );
    lemma_inv_right_chain14(c2x5x8x14, c2x5x10x12, c2x4x9x14, c2x4x10x13, c2x6x8x13, c2x6x9x12, c0x6x9x14, c0x6x10x13, c1x6x8x14, c1x6x10x12, c0x5x10x14, c1x4x10x14);
    lemma_zero_mul(inv_d);
    assert(mul_seq(a, inv)[14] == T::spec_zero());
}

proof fn lemma_inv_right_chain15<T: Scalar>(p1: T, p2: T, p3: T, p4: T, p5: T, p6: T, p7: T, p8: T, p9: T, p10: T, p11: T, p12: T)
    requires
        laws_sealed::<T>(),
    ensures
        p1.spec_sub(p2).spec_sub(p3).spec_add(p4).spec_sub(p5).spec_add(p6).spec_add(p7).spec_sub(p8).spec_sub(p9).spec_add(p10).spec_sub(p11).spec_add(p12) == p12.spec_sub(p9).spec_sub(p11).spec_add(p7).spec_add(p4).spec_sub(p2).spec_add(p10).spec_sub(p8).spec_sub(p5).spec_add(p1).spec_add(p6).spec_sub(p3),
{
    lemma_swap_sa(p1.spec_sub(p2).spec_sub(p3).spec_add(p4).spec_sub(p5).spec_add(p6).spec_add(p7).spec_sub(p8).spec_sub(p9).spec_add(p10), p11, p12);
    lemma_swap_aa(p1.spec_sub(p2).spec_sub(p3).spec_add(p4).spec_sub(p5).spec_add(p6).spec_add(p7).spec_sub(p8).spec_sub(p9), p10, p12);
    lemma_swap_sa(p1.spec_sub(p2).spec_sub(p3).spec_add(p4).spec_sub(p5).spec_add(p6).spec_add(p7).spec_sub(p8), p9, p12);
    lemma_swap_sa(p1.spec_sub(p2).spec_sub(p3).spec_add(p4).spec_sub(p5).spec_add(p6).spec_add(p7), p8, p12);
    lemma_swap_aa(p1.spec_sub(p2).spec_sub(p3).spec_add(p4).spec_sub(p5).spec_add(p6), p7, p12);
    lemma_swap_aa(p1.spec_sub(p2).spec_sub(p3).spec_add(p4).spec_sub(p5), p6, p12);
    lemma_swap_sa(p1.spec_sub(p2).spec_sub(p3).spec_add(p4), p5, p12);
    lemma_swap_aa(p1.spec_sub(p2).spec_sub(p3), p4, p12);
    lemma_swap_sa(p1.spec_sub(p2), p3, p12);
    lemma_swap_sa(p1, p2, p12);
    lemma_add_comm(p1, p12);
    lemma_swap_ss(p12.spec_add(p1).spec_sub(p2).spec_sub(p3).spec_add(p4).spec_sub(p5).spec_add(p6).spec_add(p7), p8, p9);
    lemma_swap_as(p12.spec_add(p1).spec_sub(p2).spec_sub(p3).spec_add(p4).spec_sub(p5).spec_add(p6), p7, p9);
    lemma_swap_as(p12.spec_add(p1).spec_sub(p2).spec_sub(p3).spec_add(p4).spec_sub(p5), p6, p9);
    lemma_swap_ss(p12.spec_add(p1).spec_sub(p2).spec_sub(p3).spec_add(p4), p5, p9);
    lemma_swap_as(p12.spec_add(p1).spec_sub(p2).spec_sub(p3), p4, p9);
    lemma_swap_ss(p12.spec_add(p1).spec_sub(p2), p3, p9);
    lemma_swap_ss(p12.spec_add(p1), p2, p9);
    lemma_swap_as(p12, p1, p9);
    lemma_swap_as(p12.spec_sub(p9).spec_add(p1).spec_sub(p2).spec_sub(p3).spec_add(p4).spec_sub(p5).spec_add(p6).spec_add(p7).spec_sub(p8), p10, p11);
    lemma_swap_ss(p12.spec_sub(p9).spec_add(p1).spec_sub(p2).spec_sub(p3).spec_add(p4).spec_sub(p5).spec_add(p6).spec_add(p7), p8, p11);
    lemma_swap_as(p12.spec_sub(p9).spec_add(p1).spec_sub(p2).spec_sub(p3).spec_add(p4).spec_sub(p5).spec_add(p6), p7, p11);
    lemma_swap_as(p12.spec_sub(p9).spec_add(p1).spec_sub(p2).spec_sub(p3).spec_add(p4).spec_sub(p5), p6, p11);
    lemma_swap_ss(p12.spec_sub(p9).spec_add(p1).spec_sub(p2).spec_sub(p3).spec_add(p4), p5, p11);
    lemma_swap_as(p12.spec_sub(p9).spec_add(p1).spec_sub(p2).spec_sub(p3), p4, p11);
    lemma_swap_ss(p12.spec_sub(p9).spec_add(p1).spec_sub(p2), p3, p11);
    lemma_swap_ss(p12.spec_sub(p9).spec_add(p1), p2, p11);
    lemma_swap_as(p12.spec_sub(p9), p1, p11);
    lemma_swap_aa(p12.spec_sub(p9).spec_sub(p11).spec_add(p1).spec_sub(p2).spec_sub(p3).spec_add(p4).spec_sub(p5), p6, p7);
    lemma_swap_sa(p12.spec_sub(p9).spec_sub(p11).spec_add(p1).spec_sub(p2).spec_sub(p3).spec_add(p4), p5, p7);
    lemma_swap_aa(p12.spec_sub(p9).spec_sub(p11).spec_add(p1).spec_sub(p2).spec_sub(p3), p4, p7);
    lemma_swap_sa(p12.spec_sub(p9).spec_sub(p11).spec_add(p1).spec_sub(p2), p3, p7);
    lemma_swap_sa(p12.spec_sub(p9).spec_sub(p11).spec_add(p1), p2, p7);
    lemma_swap_aa(p12.spec_sub(p9).spec_sub(p11), p1, p7);
    lemma_swap_sa(p12.spec_sub(p9).spec_sub(p11).spec_add(p7).spec_add(p1).spec_sub(p2), p3, p4);
    lemma_swap_sa(p12.spec_sub(p9).spec_sub(p11).spec_add(p7).spec_add(p1), p2, p4);
    lemma_swap_aa(p12.spec_sub(p9).spec_sub(p11).spec_add(p7), p1, p4);
    lemma_swap_as(p12.spec_sub(p9).spec_sub(p11).spec_add(p7).spec_add(p4), p1, p2);
    lemma_swap_sa(p12.spec_sub(p9).spec_sub(p11).spec_add(p7).spec_add(p4).spec_sub(p2).spec_add(p1).spec_sub(p3).spec_sub(p5).spec_add(p6), p8, p10);
    lemma_swap_aa(p12.spec_sub(p9).spec_sub(p11).spec_add(p7).spec_add(p4).spec_sub(p2).spec_add(p1).spec_sub(p3).spec_sub(p5), p6, p10);
    lemma_swap_sa(p12.spec_sub(p9).spec_sub(p11).spec_add(p7).spec_add(p4).spec_sub(p2).spec_add(p1).spec_sub(p3), p5, p10);
    lemma_swap_sa(p12.spec_sub(p9).spec_sub(p11).spec_add(p7).spec_add(p4).spec_sub(p2).spec_add(p1), p3, p10);
    lemma_swap_aa(p12.spec_sub(p9).spec_sub(p11).spec_add(p7).spec_add(p4).spec_sub(p2), p1, p10);
    lemma_swap_as(p12.spec_sub(p9).spec_sub(p11).spec_add(p7).spec_add(p4).spec_sub(p2).spec_add(p10).spec_add(p1).spec_sub(p3).spec_sub(p5), p6, p8);
    lemma_swap_ss(p12.spec_sub(p9).spec_sub(p11).spec_add(p7).spec_add(p4).spec_sub(p2).spec_add(p10).spec_add(p1).spec_sub(p3), p5, p8);
    lemma_swap_ss(p12.spec_sub(p9).spec_sub(p11).spec_add(p7).spec_add(p4).spec_sub(p2).spec_add(p10).spec_add(p1), p3, p8);
    lemma_swap_as(p12.spec_sub(p9).spec_sub(p11).spec_add(p7).spec_add(p4).spec_sub(p2).spec_add(p10), p1, p8);
    lemma_swap_ss(p12.spec_sub(p9).spec_sub(p11).spec_add(p7).spec_add(p4).spec_sub(p2).spec_add(p10).spec_sub(p8).spec_add(p1), p3, p5);
    lemma_swap_as(p12.spec_sub(p9).spec_sub(p11).spec_add(p7).spec_add(p4).spec_sub(p2).spec_add(p10).spec_sub(p8), p1, p5);
    lemma_swap_sa(p12.spec_sub(p9).spec_sub(p11).spec_add(p7).spec_add(p4).spec_sub(p2).spec_add(p10).spec_sub(p8).spec_sub(p5).spec_add(p1), p3, p6);
}

pub(crate) proof fn lemma_inv_right_entry15<T: Scalar>(a: Seq<T>)
    requires
        a.len() == 16,
        field_sealed::<T>(),
        !det_seq(a).spec_is_zero(),
    ensures
        mul_seq(a, inverse_seq(a))[15] == T::spec_one(),
{
    lemma_field_gives_ring::<T>();
    let inv = inverse_seq(a);
    let inv_d = T::spec_one().spec_div(det_seq(a));
    let b00 = minor2(a, 0, 5, 1, 4);
    let b01 = minor2(a, 0, 6, 2, 4);
    let b02 = minor2(a, 0, 7, 3, 4);
    let b03 = minor2(a, 1, 6, 2, 5);
    let b04 = minor2(a, 1, 7, 3, 5);
    let b05 = minor2(a, 2, 7, 3, 6);
    let b06 = minor2(a, 8, 13, 9, 12);
    let b07 = minor2(a, 8, 14, 10, 12);
    let b08 = minor2(a, 8, 15, 11, 12);
    let b09 = minor2(a, 9, 14, 10, 13);
    let b10 = minor2(a, 9, 15, 11, 13);
    let b11 = minor2(a, 10, 15, 11, 14);
    assert(mul_seq(a, inv)[15] == inv[12].spec_mul(a[3]).spec_add(inv[13].spec_mul(a[7])).spec_add(inv[14].spec_mul(a[11])).spec_add(inv[15].spec_mul(a[15])));
    assert(inv[12] == a[5].spec_mul(b07).spec_sub(a[4].spec_mul(b09)).spec_sub(a[6].spec_mul(b06)).spec_mul(inv_d));
    assert(inv[13] == a[0].spec_mul(b09).spec_sub(a[1].spec_mul(b07)).spec_add(a[2].spec_mul(b06)).spec_mul(inv_d));
    assert(inv[14] == a[13].spec_mul(b01).spec_sub(a[12].spec_mul(b03)).spec_sub(a[14].spec_mul(b00)).spec_mul(inv_d));
    assert(inv[15] == a[8].spec_mul(b03).spec_sub(a[9].spec_mul(b01)).spec_add(a[10].spec_mul(b00)).spec_mul(inv_d));
    lemma_mul_comm(a[5].spec_mul(b07).spec_sub(a[4].spec_mul(b09)).spec_sub(a[6].spec_mul(b06)).spec_mul(inv_d), a[3]);
    lemma_mul_comm(a[0].spec_mul(b09).spec_sub(a[1].spec_mul(b07)).spec_add(a[2].spec_mul(b06)).spec_mul(inv_d), a[7]);
    lemma_mul_comm(a[13].spec_mul(b01).spec_sub(a[12].spec_mul(b03)).spec_sub(a[14].spec_mul(b00)).spec_mul(inv_d), a[11]);
    lemma_mul_comm(a[8].spec_mul(b03).spec_sub(a[9].spec_mul(b01)).spec_add(a[10].spec_mul(b00)).spec_mul(inv_d), a[15]);
    lemma_mul_assoc(a[3], a[5].spec_mul(b07).spec_sub(a[4].spec_mul(b09)).spec_sub(a[6].spec_mul(b06)), inv_d);
    lemma_mul_assoc(a[7], a[0].spec_mul(b09).spec_sub(a[1].spec_mul(b07)).spec_add(a[2].spec_mul(b06)), inv_d);
    lemma_mul_assoc(a[11], a[13].spec_mul(b01).spec_sub(a[12].spec_mul(b03)).spec_sub(a[14].spec_mul(b00)), inv_d);
    lemma_mul_assoc(a[15], a[8].spec_mul(b03).spec_sub(a[9].spec_mul(b01)).spec_add(a[10].spec_mul(b00)), inv_d);
    lemma_factor4(
        a[3].spec_mul(a[5].spec_mul(b07).spec_sub(a[4].spec_mul(b09)).spec_sub(a[6].spec_mul(b06))),
        a[7].spec_mul(a[0].spec_mul(b09).spec_sub(a[1].spec_mul(b07)).spec_add(a[2].spec_mul(b06))),
        a[11].spec_mul(a[13].spec_mul(b01).spec_sub(a[12].spec_mul(b03)).spec_sub(a[14].spec_mul(b00))),
        a[15].spec_mul(a[8].spec_mul(b03).spec_sub(a[9].spec_mul(b01)).spec_add(a[10].spec_mul(b00))),
        inv_d,
    );
    lemma_distrib3_pmm(a[3], a[5].spec_mul(b07), a[4].spec_mul(b09), a[6].spec_mul(b06));
    lemma_mul_assoc(a[3], a[5], b07);
    lemma_mul_assoc(a[3], a[4], b09);
    lemma_mul_assoc(a[3], a[6], b06);
    lemma_distrib3_pmp(a[7], a[0].spec_mul(b09), a[1].spec_mul(b07), a[2].spec_mul(b06));
    lemma_mul_assoc(a[7], a[0], b09);
    lemma_mul_comm(a[7], a[0]);
    lemma_mul_assoc(a[7], a[1], b07);
    lemma_mul_comm(a[7], a[1]);
    lemma_mul_assoc(a[7], a[2], b06);
    lemma_mul_comm(a[7], a[2]);
    lemma_distrib3_pmm(a[11], a[13].spec_mul(b01), a[12].spec_mul(b03), a[14].spec_mul(b00));
    lemma_mul_assoc(a[11], a[13], b01);
    lemma_mul_assoc(a[11], a[12], b03);
    lemma_mul_assoc(a[11], a[14], b00);
    lemma_distrib3_pmp(a[15], a[8].spec_mul(b03), a[9].spec_mul(b01), a[10].spec_mul(b00));
    lemma_mul_assoc(a[15], a[8], b03);
    lemma_mul_comm(a[15], a[8]);
    lemma_mul_assoc(a[15], a[9], b01);
    lemma_mul_comm(a[15], a[9]);
    lemma_mul_assoc(a[15], a[10], b00);
    lemma_mul_comm(a[15], a[10]);
    lemma_append3_pmp(
        a[3].spec_mul(a[5]).spec_mul(b07).spec_sub(a[3].spec_mul(a[4]).spec_mul(b09)).spec_sub(a[3].spec_mul(a[6]).spec_mul(b06)),
        a[0].spec_mul(a[7]).spec_mul(b09),
        a[1].spec_mul(a[7]).spec_mul(b07),
        a[2].spec_mul(a[7]).spec_mul(b06),
    );
    lemma_append3_pmm(
        a[3].spec_mul(a[5]).spec_mul(b07).spec_sub(a[3].spec_mul(a[4]).spec_mul(b09)).spec_sub(a[3].spec_mul(a[6]).spec_mul(b06)).spec_add(a[0].spec_mul(a[7]).spec_mul(b09)).spec_sub(a[1].spec_mul(a[7]).spec_mul(b07)).spec_add(a[2].spec_mul(a[7]).spec_mul(b06)),
        a[11].spec_mul(a[13]).spec_mul(b01),
        a[11].spec_mul(a[12]).spec_mul(b03),
        a[11].spec_mul(a[14]).spec_mul(b00),
    );
    lemma_append3_pmp(
        a[3].spec_mul(a[5]).spec_mul(b07).spec_sub(a[3].spec_mul(a[4]).spec_mul(b09)).spec_sub(a[3].spec_mul(a[6]).spec_mul(b06)).spec_add(a[0].spec_mul(a[7]).spec_mul(b09)).spec_sub(a[1].spec_mul(a[7]).spec_mul(b07)).spec_add(a[2].spec_mul(a[7]).spec_mul(b06)).spec_add(a[11].spec_mul(a[13]).spec_mul(b01)).spec_sub(a[11].spec_mul(a[12]).spec_mul(b03)).spec_sub(a[11].spec_mul(a[14]).spec_mul(b00)),
        a[8].spec_mul(a[15]).spec_mul(b03),
        a[9].spec_mul(a[15]).spec_mul(b01),
        a[10].spec_mul(a[15]).spec_mul(b00),
    );
    lemma_mul_comm(b00, b11);
    lemma_mul_comm(b01, b10);
    lemma_mul_comm(b03, b08);
    lemma_expand_minor_prod(a[10].spec_mul(a[15]), a[11].spec_mul(a[14]), b00);
    lemma_expand_minor_prod(a[9].spec_mul(a[15]), a[11].spec_mul(a[13]), b01);
    lemma_append2_neg(
        a[10].spec_mul(a[15]).spec_mul(b00).spec_sub(a[11].spec_mul(a[14]).spec_mul(b00)),
        a[9].spec_mul(a[15]).spec_mul(b01),
        a[11].spec_mul(a[13]).spec_mul(b01),
    );
    lemma_expand_minor_prod(a[0].spec_mul(a[7]), a[3].spec_mul(a[4]), b09);
    lemma_append2_pos(
        a[10].spec_mul(a[15]).spec_mul(b00).spec_sub(a[11].spec_mul(a[14]).spec_mul(b00)).spec_sub(a[9].spec_mul(a[15]).spec_mul(b01)).spec_add(a[11].spec_mul(a[13]).spec_mul(b01)),
        a[0].spec_mul(a[7]).spec_mul(b09),
        a[3].spec_mul(a[4]).spec_mul(b09),
    );
    lemma_expand_minor_prod(a[8].spec_mul(a[15]), a[11].spec_mul(a[12]), b03);
    lemma_append2_pos(
        a[10].spec_mul(a[15]).spec_mul(b00).spec_sub(a[11].spec_mul(a[14]).spec_mul(b00)).spec_sub(a[9].spec_mul(a[15]).spec_mul(b01)).spec_add(a[11].spec_mul(a[13]).spec_mul(b01)).spec_add(a[0].spec_mul(a[7]).spec_mul(b09)).spec_sub(a[3].spec_mul(a[4]).spec_mul(b09)),
        a[8].spec_mul(a[15]).spec_mul(b03),
        a[11].spec_mul(a[12]).spec_mul(b03),
    );
    lemma_expand_minor_prod(a[1].spec_mul(a[7]), a[3].spec_mul(a[5]), b07);
    lemma_append2_neg(
        a[10].spec_mul(a[15]).spec_mul(b00).spec_sub(a[11].spec_mul(a[14]).spec_mul(b00)).spec_sub(a[9].spec_mul(a[15]).spec_mul(b01)).spec_add(a[11].spec_mul(a[13]).spec_mul(b01)).spec_add(a[0].spec_mul(a[7]).spec_mul(b09)).spec_sub(a[3].spec_mul(a[4]).spec_mul(b09)).spec_add(a[8].spec_mul(a[15]).spec_mul(b03)).spec_sub(a[11].spec_mul(a[12]).spec_mul(b03)),
        a[1].spec_mul(a[7]).spec_mul(b07),
        a[3].spec_mul(a[5]).spec_mul(b07),
    );
    lemma_expand_minor_prod(a[2].spec_mul(a[7]), a[3].spec_mul(a[6]), b06);
    lemma_append2_pos(
        a[10].spec_mul(a[15]).spec_mul(b00).spec_sub(a[11].spec_mul(a[14]).spec_mul(b00)).spec_sub(a[9].spec_mul(a[15]).spec_mul(b01)).spec_add(a[11].spec_mul(a[13]).spec_mul(b01)).spec_add(a[0].spec_mul(a[7]).spec_mul(b09)).spec_sub(a[3].spec_mul(a[4]).spec_mul(b09)).spec_add(a[8].spec_mul(a[15]).spec_mul(b03)).spec_sub(a[11].spec_mul(a[12]).spec_mul(b03)).spec_sub(a[1].spec_mul(a[7]).spec_mul(b07)).spec_add(a[3].spec_mul(a[5]).spec_mul(b07)),
        a[2].spec_mul(a[7]).spec_mul(b06),
        a[3].spec_mul(a[6]).spec_mul(b06),
    );
    lemma_inv_right_chain15(
        a[3].spec_mul(a[5]).spec_mul(b07),
        a[3].spec_mul(a[4]).spec_mul(b09),
        a[3].spec_mul(a[6]).spec_mul(b06),
        a[0].spec_mul(a[7]).spec_mul(b09),
        a[1].spec_mul(a[7]).spec_mul(b07),
        a[2].spec_mul(a[7]).spec_mul(b06),
        a[11].spec_mul(a[13]).spec_mul(b01),
        a[11].spec_mul(a[12]).spec_mul(b03),
        a[11].spec_mul(a[14]).spec_mul(b00),
        a[8].spec_mul(a[15]).spec_mul(b03),
        a[9].spec_mul(a[15]).spec_mul(b01),
        a[10].spec_mul(a[15]).spec_mul(b00)
    );
    assert(mul_seq(a, inv)[15] == det_seq(a).spec_mul(inv_d));
    lemma_recip(det_seq(a));
    assert(mul_seq(a, inv)[15] == T::spec_one());
}


/// The assembled identity on the other side: every element of the product
/// of the original matrix with its inverse equals the corresponding element
/// of the identity matrix.
#[verifier::rlimit(50)]
#[verifier::spinoff_prover]
pub(crate) proof fn lemma_inverse_mul_right_sealed<T: Scalar>(a: Seq<T>)
    requires
        a.len() == 16,
        field_sealed::<T>(),
        !det_seq(a).spec_is_zero(),
    ensures
        mul_seq(a, inverse_seq(a)) == identity_seq::<T>(),
{
    assert(mul_seq(a, inverse_seq(a)) =~= identity_seq::<T>()) by {
        assert forall|i: int| 0 <= i < 16 implies mul_seq(a, inverse_seq(a))[i]
            == identity_seq::<T>()[i] by {
            if i == 0 {
                lemma_inv_right_entry0(a);
                assert(mul_seq(a, inverse_seq(a))[0] == T::spec_one());
                assert(identity_seq::<T>()[0] == T::spec_one());
            } else if i == 1 {
                lemma_inv_right_entry1(a);
                assert(mul_seq(a, inverse_seq(a))[1] == T::spec_zero());
                assert(identity_seq::<T>()[1] == T::spec_zero());
            } else if i == 2 {
                lemma_inv_right_entry2(a);
                assert(mul_seq(a, inverse_seq(a))[2] == T::spec_zero());
                assert(identity_seq::<T>()[2] == T::spec_zero());
            } else if i == 3 {
                lemma_inv_right_entry3(a);
                assert(mul_seq(a, inverse_seq(a))[3] == T::spec_zero());
                assert(identity_seq::<T>()[3] == T::spec_zero());
            } else if i == 4 {
                lemma_inv_right_entry4(a);
                assert(mul_seq(a, inverse_seq(a))[4] == T::spec_zero());
                assert(identity_seq::<T>()[4] == T::spec_zero());
            } else if i == 5 {
                lemma_inv_right_entry5(a);
                assert(mul_seq(a, inverse_seq(a))[5] == T::spec_one());
                assert(identity_seq::<T>()[5] == T::spec_one());
            } else if i == 6 {
                lemma_inv_right_entry6(a);
                assert(mul_seq(a, inverse_seq(a))[6] == T::spec_zero());
                assert(identity_seq::<T>()[6] == T::spec_zero());
            } else if i == 7 {
                lemma_inv_right_entry7(a);
                assert(mul_seq(a, inverse_seq(a))[7] == T::spec_zero());
                assert(identity_seq::<T>()[7] == T::spec_zero());
            } else if i == 8 {
                lemma_inv_right_entry8(a);
                assert(mul_seq(a, inverse_seq(a))[8] == T::spec_zero());
                assert(identity_seq::<T>()[8] == T::spec_zero());
            } else if i == 9 {
                lemma_inv_right_entry9(a);
                assert(mul_seq(a, inverse_seq(a))[9] == T::spec_zero());
                assert(identity_seq::<T>()[9] == T::spec_zero());
            } else if i == 10 {
                lemma_inv_right_entry10(a);
                assert(mul_seq(a, inverse_seq(a))[10] == T::spec_one());
                assert(identity_seq::<T>()[10] == T::spec_one());
            } else if i == 11 {
                lemma_inv_right_entry11(a);
                assert(mul_seq(a, inverse_seq(a))[11] == T::spec_zero());
                assert(identity_seq::<T>()[11] == T::spec_zero());
            } else if i == 12 {
                lemma_inv_right_entry12(a);
                assert(mul_seq(a, inverse_seq(a))[12] == T::spec_zero());
                assert(identity_seq::<T>()[12] == T::spec_zero());
            } else if i == 13 {
                lemma_inv_right_entry13(a);
                assert(mul_seq(a, inverse_seq(a))[13] == T::spec_zero());
                assert(identity_seq::<T>()[13] == T::spec_zero());
            } else if i == 14 {
                lemma_inv_right_entry14(a);
                assert(mul_seq(a, inverse_seq(a))[14] == T::spec_zero());
                assert(identity_seq::<T>()[14] == T::spec_zero());
            } else if i == 15 {
                lemma_inv_right_entry15(a);
                assert(mul_seq(a, inverse_seq(a))[15] == T::spec_one());
                assert(identity_seq::<T>()[15] == T::spec_one());
            }
        }
    }
}

} // verus!
