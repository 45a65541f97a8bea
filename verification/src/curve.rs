//! The three pairing groups of BLS12-381 and the pairing between them.
//!
//! G1, G2 and Gt are cyclic groups of the same prime order
//! [`group_order`], written additively. Each has a fixed generator: those of
//! G1 and G2 are the ones of `dusk_bls12_381`, and the generator of Gt is their
//! pairing. An element is therefore `k` times its group's generator for
//! exactly one `k` below the group order, and that `k` is the element's model
//! here. Nothing can compute `k` from an element; it only serves to say what
//! the group operations do.
//!
//! The arithmetic itself is that of `dusk_bls12_381` and is trusted. Each
//! operation is believed to return the element that the group laws and the
//! bilinearity of the pairing give: its contract names the multiple `k` of the
//! generator that the result is, says that the result's encoding is that of
//! `k` times the generator, and says that `k` is the only multiple below the
//! group order with this encoding.

use crate::scalar::{add_mod, group_order, le_value, mul_mod, scalar_repr, sub_mod, Scalar};
use dusk_bls12_381::{BlsScalar, G1Affine, G1Projective, G2Affine, G2Projective, Gt};
use vstd::prelude::*;

verus! {

/// `G1Affine` of `dusk_bls12_381`, an element of G1 in affine coordinates.
/// Verified code only carries such a value from one call to the next.
#[verifier::external_type_specification]
#[verifier::external_body]
pub struct ExG1Affine(G1Affine);

/// `G2Affine` of `dusk_bls12_381`, an element of G2 in affine coordinates.
#[verifier::external_type_specification]
#[verifier::external_body]
pub struct ExG2Affine(G2Affine);

/// `Gt` of `dusk_bls12_381`, an element of the target group. The crate offers
/// no way to read one from bytes, and no way to write one but as text.
#[verifier::external_type_specification]
#[verifier::external_body]
pub struct ExGt(Gt);

/// The 48 bytes that `G1Affine::to_compressed` writes for `p`.
pub uninterp spec fn g1_repr(p: G1Affine) -> Seq<u8>;

/// The 96 bytes that `G2Affine::to_compressed` writes for `p`.
pub uninterp spec fn g2_repr(p: G2Affine) -> Seq<u8>;

/// The text that `Gt`'s `Display` writes for `t`, as UTF-8 bytes: the twelve
/// base-field coefficients of the element, each as `0x` and 96 hexadecimal
/// digits, most significant first.
pub uninterp spec fn gt_repr(t: Gt) -> Seq<u8>;

/// The compressed encoding of `k` times the generator of G1: what
/// `to_compressed` writes for `G1Affine::generator() * k`.
pub uninterp spec fn g1_multiple(k: nat) -> Seq<u8>;

/// The compressed encoding of `k` times the generator of G2: what
/// `to_compressed` writes for `G2Affine::generator() * k`.
pub uninterp spec fn g2_multiple(k: nat) -> Seq<u8>;

/// The encoding of `k` times the generator of Gt: what `Display` writes for
/// `pairing(&G1Affine::generator(), &G2Affine::generator()) * k`.
pub uninterp spec fn gt_multiple(k: nat) -> Seq<u8>;

/// Whether `bytes` is the compressed encoding of an element of G1.
pub open spec fn is_g1_encoding(bytes: Seq<u8>) -> bool {
    exists|k: nat| k < group_order() && #[trigger] g1_multiple(k) == bytes
}

/// The multiple of the generator that a compressed encoding of G1 stands for.
/// Distinct multiples below the group order have distinct encodings, so for an
/// encoding of G1 this is the one `k` with `g1_multiple(k) == bytes`.
pub open spec fn g1_log(bytes: Seq<u8>) -> nat {
    choose|k: nat| k < group_order() && #[trigger] g1_multiple(k) == bytes
}

/// Whether `bytes` is the compressed encoding of an element of G2.
pub open spec fn is_g2_encoding(bytes: Seq<u8>) -> bool {
    exists|k: nat| k < group_order() && #[trigger] g2_multiple(k) == bytes
}

/// The multiple of the generator that a compressed encoding of G2 stands for.
/// Distinct multiples below the group order have distinct encodings, so for an
/// encoding of G2 this is the one `k` with `g2_multiple(k) == bytes`.
pub open spec fn g2_log(bytes: Seq<u8>) -> nat {
    choose|k: nat| k < group_order() && #[trigger] g2_multiple(k) == bytes
}

/// Whether `bytes` is the encoding of an element of Gt.
pub open spec fn is_gt_encoding(bytes: Seq<u8>) -> bool {
    exists|k: nat| k < group_order() && #[trigger] gt_multiple(k) == bytes
}

/// The multiple of the generator that an encoding of Gt stands for. Distinct
/// multiples below the group order have distinct encodings, so for an encoding
/// of Gt this is the one `k` with `gt_multiple(k) == bytes`.
pub open spec fn gt_log(bytes: Seq<u8>) -> nat {
    choose|k: nat| k < group_order() && #[trigger] gt_multiple(k) == bytes
}

/// Calls `G1Affine::generator`. Trusted: the result is the generator itself,
/// the multiple 1.
#[verifier::external_body]
fn g1_generator() -> (r: G1Affine)
    ensures
        g1_repr(r) == g1_multiple(1),
        g1_log(g1_repr(r)) == 1,
{
    G1Affine::generator()
}

/// Calls the multiplication of a `G1Affine` by a `BlsScalar` and brings the
/// product back to affine form. Trusted: `s` times `k` times the generator is
/// `k * s` times the generator, counted modulo the group order.
#[verifier::external_body]
fn g1_scale(p: &G1Affine, s: &BlsScalar) -> (r: G1Affine)
    requires
        is_g1_encoding(g1_repr(*p)),
        le_value(scalar_repr(*s)) < group_order(),
    ensures
        g1_repr(r) == g1_multiple(mul_mod(g1_log(g1_repr(*p)), le_value(scalar_repr(*s)))),
        g1_log(g1_repr(r)) == mul_mod(g1_log(g1_repr(*p)), le_value(scalar_repr(*s))),
{
    G1Affine::from(p * s)
}

/// Calls the addition of a `G1Projective` and a `G1Affine` and brings the sum
/// back to affine form. Trusted: `j` times the generator plus `k` times the
/// generator is `j + k` times the generator, counted modulo the group order.
#[verifier::external_body]
fn g1_sum(p: &G1Affine, q: &G1Affine) -> (r: G1Affine)
    requires
        is_g1_encoding(g1_repr(*p)),
        is_g1_encoding(g1_repr(*q)),
    ensures
        g1_repr(r) == g1_multiple(add_mod(g1_log(g1_repr(*p)), g1_log(g1_repr(*q)))),
        g1_log(g1_repr(r)) == add_mod(g1_log(g1_repr(*p)), g1_log(g1_repr(*q))),
{
    G1Affine::from(G1Projective::from(p) + q)
}

/// Calls `G1Affine::from_compressed`. Trusted: it accepts exactly the
/// compressed encodings of the elements of G1 (it checks the flags, that the
/// coordinate is reduced, that the point is on the curve and in the subgroup),
/// and `to_compressed` writes the accepted bytes again.
#[verifier::external_body]
fn g1_decode(bytes: &[u8; 48]) -> (r: Option<G1Affine>)
    ensures
        r is Some <==> is_g1_encoding(bytes@),
        r matches Some(p) ==> g1_repr(p) == bytes@,
{
    G1Affine::from_compressed(bytes).into()
}

/// Calls `G1Affine::to_compressed`. Trusted: only that the result is what
/// [`g1_repr`] names.
#[verifier::external_body]
fn g1_encode(p: &G1Affine) -> (r: [u8; 48])
    ensures
        r@ == g1_repr(*p),
{
    p.to_compressed()
}

/// Calls `G2Affine::generator`. Trusted: the result is the generator itself,
/// the multiple 1.
#[verifier::external_body]
fn g2_generator() -> (r: G2Affine)
    ensures
        g2_repr(r) == g2_multiple(1),
        g2_log(g2_repr(r)) == 1,
{
    G2Affine::generator()
}

/// Calls the multiplication of a `G2Affine` by a `BlsScalar` and brings the
/// product back to affine form. Trusted: `s` times `k` times the generator is
/// `k * s` times the generator, counted modulo the group order.
#[verifier::external_body]
fn g2_scale(p: &G2Affine, s: &BlsScalar) -> (r: G2Affine)
    requires
        is_g2_encoding(g2_repr(*p)),
        le_value(scalar_repr(*s)) < group_order(),
    ensures
        g2_repr(r) == g2_multiple(mul_mod(g2_log(g2_repr(*p)), le_value(scalar_repr(*s)))),
        g2_log(g2_repr(r)) == mul_mod(g2_log(g2_repr(*p)), le_value(scalar_repr(*s))),
{
    G2Affine::from(p * s)
}

/// Calls the addition of a `G2Projective` and a `G2Affine` and brings the sum
/// back to affine form. Trusted: `j` times the generator plus `k` times the
/// generator is `j + k` times the generator, counted modulo the group order.
#[verifier::external_body]
fn g2_sum(p: &G2Affine, q: &G2Affine) -> (r: G2Affine)
    requires
        is_g2_encoding(g2_repr(*p)),
        is_g2_encoding(g2_repr(*q)),
    ensures
        g2_repr(r) == g2_multiple(add_mod(g2_log(g2_repr(*p)), g2_log(g2_repr(*q)))),
        g2_log(g2_repr(r)) == add_mod(g2_log(g2_repr(*p)), g2_log(g2_repr(*q))),
{
    G2Affine::from(G2Projective::from(p) + q)
}

/// Calls `G2Affine::from_compressed`. Trusted: it accepts exactly the
/// compressed encodings of the elements of G2 (it checks the flags, that the
/// coordinates are reduced, that the point is on the curve and in the
/// subgroup), and `to_compressed` writes the accepted bytes again.
#[verifier::external_body]
fn g2_decode(bytes: &[u8; 96]) -> (r: Option<G2Affine>)
    ensures
        r is Some <==> is_g2_encoding(bytes@),
        r matches Some(p) ==> g2_repr(p) == bytes@,
{
    G2Affine::from_compressed(bytes).into()
}

/// Calls `G2Affine::to_compressed`. Trusted: only that the result is what
/// [`g2_repr`] names.
#[verifier::external_body]
fn g2_encode(p: &G2Affine) -> (r: [u8; 96])
    ensures
        r@ == g2_repr(*p),
{
    p.to_compressed()
}

/// Calls `dusk_bls12_381::pairing`. Trusted: the pairing is bilinear and maps
/// the two generators to the generator of Gt, so the pairing of `j` times the
/// one generator with `k` times the other is `j * k` times the generator of Gt.
#[verifier::external_body]
fn gt_pairing(p: &G1Affine, q: &G2Affine) -> (r: Gt)
    requires
        is_g1_encoding(g1_repr(*p)),
        is_g2_encoding(g2_repr(*q)),
    ensures
        gt_repr(r) == gt_multiple(mul_mod(g1_log(g1_repr(*p)), g2_log(g2_repr(*q)))),
        gt_log(gt_repr(r)) == mul_mod(g1_log(g1_repr(*p)), g2_log(g2_repr(*q))),
{
    dusk_bls12_381::pairing(p, q)
}

/// Calls the multiplication of a `Gt` by a `BlsScalar`. Trusted: `s` times `k`
/// times the generator is `k * s` times the generator, counted modulo the
/// group order.
#[verifier::external_body]
fn gt_scale(t: &Gt, s: &BlsScalar) -> (r: Gt)
    requires
        is_gt_encoding(gt_repr(*t)),
        le_value(scalar_repr(*s)) < group_order(),
    ensures
        gt_repr(r) == gt_multiple(mul_mod(gt_log(gt_repr(*t)), le_value(scalar_repr(*s)))),
        gt_log(gt_repr(r)) == mul_mod(gt_log(gt_repr(*t)), le_value(scalar_repr(*s))),
{
    t * s
}

/// Calls the subtraction of Gt. Trusted: `j` times the generator minus `k`
/// times the generator is `j - k` times the generator, counted modulo the
/// group order.
#[verifier::external_body]
fn gt_difference(a: &Gt, b: &Gt) -> (r: Gt)
    requires
        is_gt_encoding(gt_repr(*a)),
        is_gt_encoding(gt_repr(*b)),
    ensures
        gt_repr(r) == gt_multiple(sub_mod(gt_log(gt_repr(*a)), gt_log(gt_repr(*b)))),
        gt_log(gt_repr(r)) == sub_mod(gt_log(gt_repr(*a)), gt_log(gt_repr(*b))),
{
    a - b
}

/// Formats a `Gt` with its `Display`. Trusted: only that the result is what
/// [`gt_repr`] names.
#[verifier::external_body]
fn gt_encode(t: &Gt) -> (r: Vec<u8>)
    ensures
        r@ == gt_repr(*t),
{
    format!("{}", t).into_bytes()
}

/// An element of G1.
#[derive(Clone, Copy, Debug, PartialEq, Eq)]
pub struct G1Point {
    inner: G1Affine,
}

impl View for G1Point {
    type V = nat;

    /// How many times the generator this element is.
    open spec fn view(&self) -> nat {
        g1_log(self.encoding())
    }
}

impl G1Point {
    /// The element's compressed encoding, 48 bytes.
    pub closed spec fn encoding(self) -> Seq<u8> {
        g1_repr(self.inner)
    }

    /// Every value of the type is an element of the group.
    #[verifier::type_invariant]
    pub open spec fn wf(self) -> bool {
        is_g1_encoding(self.encoding())
    }

    /// The fixed generator of G1.
    pub fn generator() -> (r: G1Point)
        ensures
            r.wf(),
            r@ == 1,
    {
        G1Point { inner: g1_generator() }
    }

    /// This element `s` times.
    pub fn scale(&self, s: &Scalar) -> (r: G1Point)
        ensures
            r.wf(),
            r@ == mul_mod(self@, s@),
    {
        proof {
            use_type_invariant(self);
        }
        G1Point { inner: g1_scale(&self.inner, s.raw()) }
    }

    /// The sum of this element and `other`.
    pub fn plus(&self, other: &G1Point) -> (r: G1Point)
        ensures
            r.wf(),
            r@ == add_mod(self@, other@),
    {
        proof {
            use_type_invariant(self);
            use_type_invariant(other);
        }
        G1Point { inner: g1_sum(&self.inner, &other.inner) }
    }

    /// Reads a compressed encoding; `None` where the bytes are not one.
    pub fn from_compressed(bytes: &[u8; 48]) -> (r: Option<G1Point>)
        ensures
            r is Some <==> is_g1_encoding(bytes@),
            r matches Some(p) ==> p.wf() && p.encoding() == bytes@,
    {
        match g1_decode(bytes) {
            Some(inner) => Some(G1Point { inner }),
            None => None,
        }
    }

    /// Writes the compressed encoding.
    pub fn to_compressed(&self) -> (r: [u8; 48])
        ensures
            r@ == self.encoding(),
    {
        g1_encode(&self.inner)
    }
}

/// An element of G2.
#[derive(Clone, Copy, Debug, PartialEq, Eq)]
pub struct G2Point {
    inner: G2Affine,
}

impl View for G2Point {
    type V = nat;

    /// How many times the generator this element is.
    open spec fn view(&self) -> nat {
        g2_log(self.encoding())
    }
}

impl G2Point {
    /// The element's compressed encoding, 96 bytes.
    pub closed spec fn encoding(self) -> Seq<u8> {
        g2_repr(self.inner)
    }

    /// Every value of the type is an element of the group.
    #[verifier::type_invariant]
    pub open spec fn wf(self) -> bool {
        is_g2_encoding(self.encoding())
    }

    /// The fixed generator of G2.
    pub fn generator() -> (r: G2Point)
        ensures
            r.wf(),
            r@ == 1,
    {
        G2Point { inner: g2_generator() }
    }

    /// This element `s` times.
    pub fn scale(&self, s: &Scalar) -> (r: G2Point)
        ensures
            r.wf(),
            r@ == mul_mod(self@, s@),
    {
        proof {
            use_type_invariant(self);
        }
        G2Point { inner: g2_scale(&self.inner, s.raw()) }
    }

    /// The sum of this element and `other`.
    pub fn plus(&self, other: &G2Point) -> (r: G2Point)
        ensures
            r.wf(),
            r@ == add_mod(self@, other@),
    {
        proof {
            use_type_invariant(self);
            use_type_invariant(other);
        }
        G2Point { inner: g2_sum(&self.inner, &other.inner) }
    }

    /// Reads a compressed encoding; `None` where the bytes are not one.
    pub fn from_compressed(bytes: &[u8; 96]) -> (r: Option<G2Point>)
        ensures
            r is Some <==> is_g2_encoding(bytes@),
            r matches Some(p) ==> p.wf() && p.encoding() == bytes@,
    {
        match g2_decode(bytes) {
            Some(inner) => Some(G2Point { inner }),
            None => None,
        }
    }

    /// Writes the compressed encoding.
    pub fn to_compressed(&self) -> (r: [u8; 96])
        ensures
            r@ == self.encoding(),
    {
        g2_encode(&self.inner)
    }
}

/// An element of the target group Gt.
#[derive(Clone, Copy, Debug, PartialEq, Eq)]
pub struct GtElement {
    inner: Gt,
}

impl View for GtElement {
    type V = nat;

    /// How many times the generator this element is.
    open spec fn view(&self) -> nat {
        gt_log(self.encoding())
    }
}

impl GtElement {
    /// The element's encoding: its twelve base-field coefficients as text.
    pub closed spec fn encoding(self) -> Seq<u8> {
        gt_repr(self.inner)
    }

    /// Every value of the type is an element of the group.
    #[verifier::type_invariant]
    pub open spec fn wf(self) -> bool {
        is_gt_encoding(self.encoding())
    }

    /// This element `s` times.
    pub fn scale(&self, s: &Scalar) -> (r: GtElement)
        ensures
            r.wf(),
            r@ == mul_mod(self@, s@),
    {
        proof {
            use_type_invariant(self);
        }
        GtElement { inner: gt_scale(&self.inner, s.raw()) }
    }

    /// This element less `other`.
    pub fn minus(&self, other: &GtElement) -> (r: GtElement)
        ensures
            r.wf(),
            r@ == sub_mod(self@, other@),
    {
        proof {
            use_type_invariant(self);
            use_type_invariant(other);
        }
        GtElement { inner: gt_difference(&self.inner, &other.inner) }
    }

    /// Writes the encoding.
    pub fn to_bytes(&self) -> (r: Vec<u8>)
        ensures
            r@ == self.encoding(),
    {
        gt_encode(&self.inner)
    }
}

/// The pairing of an element of G1 with an element of G2.
pub fn pairing(p: &G1Point, q: &G2Point) -> (r: GtElement)
    ensures
        r.wf(),
        r@ == mul_mod(p@, q@),
{
    proof {
        use_type_invariant(p);
        use_type_invariant(q);
    }
    GtElement { inner: gt_pairing(&p.inner, &q.inner) }
}

} // verus!
