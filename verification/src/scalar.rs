//! Scalars: the integers modulo the order of the pairing groups.
//!
//! A [`Scalar`] keeps a `BlsScalar` of `dusk_bls12_381` and is modelled by the
//! natural number below [`group_order`] that it stands for.

use dusk_bls12_381::BlsScalar;
use vstd::prelude::*;

verus! {

/// `BlsScalar` of `dusk_bls12_381`, an element of the scalar field.
#[verifier::external_type_specification]
#[verifier::external_body]
pub struct ExBlsScalar(BlsScalar);

/// The 32 bytes that `BlsScalar::to_bytes` writes for `s`.
pub uninterp spec fn scalar_repr(s: BlsScalar) -> Seq<u8>;

/// The prime order of the groups G1, G2 and Gt, which is the size of the
/// scalar field.
pub open spec fn group_order() -> nat {
    0x73eda753299d7d483339d80809a1d80553bda402fffe5bfeffffffff00000001nat
}

/// The product of two residues modulo the group order.
pub open spec fn mul_mod(a: nat, b: nat) -> nat {
    (a * b) % group_order()
}

/// The sum of two residues modulo the group order.
pub open spec fn add_mod(a: nat, b: nat) -> nat {
    (a + b) % group_order()
}

/// The difference of two residues modulo the group order.
pub open spec fn sub_mod(a: nat, b: nat) -> nat {
    ((a - b) % (group_order() as int)) as nat
}

/// The number that `bytes` writes, least significant byte first.
pub open spec fn le_value(bytes: Seq<u8>) -> nat
    decreases bytes.len(),
{
    if bytes.len() == 0 {
        0
    } else {
        bytes[0] as nat + 256 * le_value(bytes.skip(1))
    }
}

/// Calls `BlsScalar::from(u64)`. Trusted: the result is the field element of
/// the number `x`, which `to_bytes` writes in little-endian order.
#[verifier::external_body]
fn scalar_from_u64(x: u64) -> (r: BlsScalar)
    ensures
        le_value(scalar_repr(r)) == x,
{
    BlsScalar::from(x)
}

/// Calls `BlsScalar::from_bytes_wide`. Trusted: the result is the 512-bit
/// little-endian number in `bytes`, reduced modulo the group order.
#[verifier::external_body]
fn scalar_from_bytes_wide(bytes: &[u8; 64]) -> (r: BlsScalar)
    ensures
        le_value(scalar_repr(r)) == le_value(bytes@) % group_order(),
{
    BlsScalar::from_bytes_wide(bytes)
}

/// An integer modulo the group order.
#[derive(Clone, Copy, Debug, PartialEq, Eq)]
pub struct Scalar {
    inner: BlsScalar,
}

impl View for Scalar {
    type V = nat;

    /// The number in `0..group_order()` that this scalar stands for.
    closed spec fn view(&self) -> nat {
        le_value(scalar_repr(self.inner))
    }
}

impl Scalar {
    /// Every scalar is reduced: its number lies below the group order.
    #[verifier::type_invariant]
    pub open spec fn wf(self) -> bool {
        self@ < group_order()
    }

    /// The scalar of the number `x`.
    pub fn from_u64(x: u64) -> (r: Scalar)
        ensures
            r.wf(),
            r@ == x,
    {
        Scalar { inner: scalar_from_u64(x) }
    }

    /// Turns 64 bytes of randomness into a scalar: the 512-bit little-endian
    /// number they write, reduced modulo the group order.
    pub fn from_bytes_wide(bytes: &[u8; 64]) -> (r: Scalar)
        ensures
            r.wf(),
            r@ == le_value(bytes@) % group_order(),
    {
        Scalar { inner: scalar_from_bytes_wide(bytes) }
    }

    /// The outside value, for the group operations.
    pub(crate) fn raw(&self) -> (r: &BlsScalar)
        ensures
            le_value(scalar_repr(*r)) == self@,
            self@ < group_order(),
    {
        proof {
            use_type_invariant(self);
        }
        &self.inner
    }
}

} // verus!
