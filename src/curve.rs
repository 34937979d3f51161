//! The group of Curve25519 in Edwards form, its scalar field, and the hash
//! that turns bytes into scalars.
//!
//! The full group of rational points is `Z/8 × Z/ℓ`: a cyclic torsion part
//! of order 8 and the prime-order subgroup generated by the base point `B`.
//! A point is modelled by its two coordinates in that decomposition, a scalar
//! by its integer value in `[0, ℓ)`.
use vstd::prelude::*;
use vstd::string::StringExecFns;

verus! {

#[verifier::external_type_specification]
#[verifier::external_body]
pub struct ExDalekScalar(curve25519_dalek::scalar::Scalar);

#[verifier::external_type_specification]
#[verifier::external_body]
pub struct ExEdwardsPoint(curve25519_dalek::edwards::EdwardsPoint);

/// The order of the base point.
pub open spec fn group_order() -> int {
    pow2_252() + 27742317777372353535851937790883648493int
}

/// `2^252`.
pub open spec fn pow2_252() -> int {
    0x1000000000000000000000000000000000000000000000000000000000000000int
}

/// The value of a little-endian byte string.
pub open spec fn le_value(b: Seq<u8>) -> nat
    decreases b.len(),
{
    if b.len() == 0 {
        0
    } else {
        b[0] as nat + 256 * le_value(b.subrange(1, b.len() as int))
    }
}

/// Scalar addition in the field.
pub open spec fn sc_add(a: int, b: int) -> int {
    (a + b) % group_order()
}

/// Scalar subtraction in the field.
pub open spec fn sc_sub(a: int, b: int) -> int {
    (a - b) % group_order()
}

/// Scalar multiplication in the field.
pub open spec fn sc_mul(a: int, b: int) -> int {
    (a * b) % group_order()
}

/// A point model: torsion coordinate mod 8, coordinate along `B` mod `ℓ`.
pub open spec fn valid_point(p: (int, int)) -> bool {
    0 <= p.0 < 8 && 0 <= p.1 < group_order()
}

/// `s·B`.
pub open spec fn base_mul(s: int) -> (int, int) {
    (0, s % group_order())
}

pub open spec fn pt_add(p: (int, int), q: (int, int)) -> (int, int) {
    ((p.0 + q.0) % 8, (p.1 + q.1) % group_order())
}

pub open spec fn pt_sub(p: (int, int), q: (int, int)) -> (int, int) {
    ((p.0 - q.0) % 8, (p.1 - q.1) % group_order())
}

/// `s·P` for a scalar of value `s`.
pub open spec fn pt_mul(p: (int, int), s: int) -> (int, int) {
    ((p.0 * s) % 8, (p.1 * s) % group_order())
}

/// The canonical 32-byte encoding of the point with the given coordinates.
pub uninterp spec fn encoding_of(t: int, x: int) -> Seq<u8>;

/// The point that a 32-byte string decodes to, if any.
pub uninterp spec fn decoding_of(b: Seq<u8>) -> Option<(int, int)>;

/// The SHA-512 digest of a byte string.
pub uninterp spec fn sha512_of(m: Seq<u8>) -> Seq<u8>;

/// The standard base64 text, with padding, of a byte string.
pub uninterp spec fn base64_of(b: Seq<u8>) -> Seq<char>;

/// A 64-byte hash of `m`, reduced to a scalar.
pub open spec fn hash_scalar(m: Seq<u8>) -> int {
    le_value(sha512_of(m)) as int % group_order()
}

pub open spec fn encode(p: (int, int)) -> Seq<u8> {
    encoding_of(p.0, p.1)
}

/// `b` is the encoding of `x·B`, and decodes back to it.
pub open spec fn commits_to(b: Seq<u8>, x: int) -> bool {
    b == encode(base_mul(x)) && decoding_of(b) == Some(base_mul(x))
}

/// An element of the scalar field.
#[derive(Clone, Copy)]
pub struct ScalarValue {
    inner: curve25519_dalek::scalar::Scalar,
    val: Ghost<int>,
}

/// A point of the curve.
#[derive(Clone, Copy)]
pub struct CurvePoint {
    inner: curve25519_dalek::edwards::EdwardsPoint,
    coords: Ghost<(int, int)>,
}

impl ScalarValue {
    /// The integer in `[0, ℓ)` that this scalar stands for.
    pub closed spec fn value(self) -> int {
        self.val@ % group_order()
    }

    /// A scalar's value lies in `[0, ℓ)`.
    pub proof fn lemma_range(self)
        ensures
            0 <= self.value() < group_order(),
    {
    }

    /// Relies on `Scalar::from_bytes_mod_order`: the little-endian integer
    /// reduced modulo `ℓ`.
    #[verifier::external_body]
    pub fn from_bytes_mod_order(bytes: [u8; 32]) -> (r: ScalarValue)
        ensures
            r.value() == le_value(bytes@) as int % group_order(),
    {
        ScalarValue {
            inner: curve25519_dalek::scalar::Scalar::from_bytes_mod_order(bytes),
            val: Ghost(le_value(bytes@) as int % group_order()),
        }
    }

    /// Relies on `Scalar::to_bytes`: the canonical little-endian encoding.
    #[verifier::external_body]
    pub fn to_bytes(&self) -> (r: [u8; 32])
        ensures
            le_value(r@) == self.value(),
    {
        self.inner.to_bytes()
    }

    /// The scalar's canonical encoding in standard base64.
    pub fn to_base64(&self) -> (r: String)
        ensures
            r@ == base64_of(scalar_bytes(self.value())),
    {
        let b = self.to_bytes();
        proof {
            lemma_scalar_bytes(b@);
        }
        base64_encode(&b)
    }
}

impl CurvePoint {
    /// The coordinates of this point.
    pub closed spec fn model(self) -> (int, int) {
        (self.coords@.0 % 8, self.coords@.1 % group_order())
    }

    /// A point's coordinates lie in their ranges.
    pub proof fn lemma_valid(self)
        ensures
            valid_point(self.model()),
    {
    }

    /// The point's canonical 32-byte encoding.
    pub fn compress(&self) -> (r: [u8; 32])
        ensures
            r@ == encode(self.model()),
            decoding_of(r@) == Some(self.model()),
    {
        compress_point(self)
    }
}

/// Appends the base64 text of `b` to `s`.
pub(crate) fn append_base64(s: &mut String, b: &[u8; 32])
    ensures
        final(s)@ == old(s)@ + base64_of(b@),
{
    let t = base64_encode(b);
    s.append(t.as_str());
}

/// Appends the base64 text of a scalar's canonical encoding to `s`.
pub(crate) fn append_scalar_base64(s: &mut String, x: &ScalarValue)
    ensures
        final(s)@ == old(s)@ + base64_of(scalar_bytes(x.value())),
{
    let t = x.to_base64();
    s.append(t.as_str());
}

/// The 32 little-endian bytes whose value is `v`.
pub open spec fn scalar_bytes(v: int) -> Seq<u8> {
    choose|b: Seq<u8>| b.len() == 32 && le_value(b) == v
}

/// Two byte strings of one length with the same little-endian value are equal.
pub proof fn lemma_le_value_injective(a: Seq<u8>, b: Seq<u8>)
    requires
        a.len() == b.len(),
        le_value(a) == le_value(b),
    ensures
        a == b,
    decreases a.len(),
{
    if a.len() > 0 {
        let ra = a.subrange(1, a.len() as int);
        let rb = b.subrange(1, b.len() as int);
        let x = le_value(ra) as int;
        let y = le_value(rb) as int;
        let a0 = a[0] as int;
        let b0 = b[0] as int;
        assert(a0 == b0 && x == y) by (nonlinear_arith)
            requires
                a0 + 256 * x == b0 + 256 * y,
                0 <= a0 < 256,
                0 <= b0 < 256,
                x >= 0,
                y >= 0,
        ;
        lemma_le_value_injective(ra, rb);
        assert(a =~= b) by {
            assert forall|i: int| 0 <= i < a.len() implies a[i] == b[i] by {
                if i > 0 {
                    assert(a[i] == ra[i - 1]);
                    assert(b[i] == rb[i - 1]);
                }
            }
        }
    } else {
        assert(a =~= b);
    }
}

/// A 32-byte string is the one that `scalar_bytes` picks for its value.
pub proof fn lemma_scalar_bytes(b: Seq<u8>)
    requires
        b.len() == 32,
    ensures
        scalar_bytes(le_value(b) as int) == b,
{
    let v = le_value(b) as int;
    assert(b.len() == 32 && le_value(b) == v);
    let c = scalar_bytes(v);
    lemma_le_value_injective(c, b);
}

/// Relies on `Scalar::random` over the operating system's generator: a
/// uniformly drawn scalar, of which nothing more is promised.
#[verifier::external_body]
pub(crate) fn random_scalar() -> (r: ScalarValue) {
    let s = curve25519_dalek::scalar::Scalar::random(&mut rand::rngs::OsRng);
    ScalarValue { inner: s, val: Ghost(arbitrary()) }
}

/// Relies on `Scalar + Scalar`: addition modulo `ℓ`.
#[verifier::external_body]
pub(crate) fn scalar_add(a: &ScalarValue, b: &ScalarValue) -> (r: ScalarValue)
    ensures
        r.value() == sc_add(a.value(), b.value()),
{
    ScalarValue { inner: a.inner + b.inner, val: Ghost(sc_add(a.value(), b.value())) }
}

/// Relies on `Scalar - Scalar`: subtraction modulo `ℓ`.
#[verifier::external_body]
pub(crate) fn scalar_sub(a: &ScalarValue, b: &ScalarValue) -> (r: ScalarValue)
    ensures
        r.value() == sc_sub(a.value(), b.value()),
{
    ScalarValue { inner: a.inner - b.inner, val: Ghost(sc_sub(a.value(), b.value())) }
}

/// Relies on `Scalar * Scalar`: multiplication modulo `ℓ`.
#[verifier::external_body]
pub(crate) fn scalar_mul(a: &ScalarValue, b: &ScalarValue) -> (r: ScalarValue)
    ensures
        r.value() == sc_mul(a.value(), b.value()),
{
    ScalarValue { inner: a.inner * b.inner, val: Ghost(sc_mul(a.value(), b.value())) }
}

/// Relies on `-Scalar`: negation modulo `ℓ`.
#[verifier::external_body]
pub(crate) fn scalar_neg(a: &ScalarValue) -> (r: ScalarValue)
    ensures
        r.value() == sc_sub(0, a.value()),
{
    ScalarValue { inner: -a.inner, val: Ghost(sc_sub(0, a.value())) }
}

/// Relies on `Scalar::hash_from_bytes::<Sha512>`: the SHA-512 digest of the
/// input, read as a 512-bit little-endian integer and reduced modulo `ℓ`.
#[verifier::external_body]
pub(crate) fn hash_to_scalar(input: &Vec<u8>) -> (r: ScalarValue)
    ensures
        r.value() == le_value(sha512_of(input@)) as int % group_order(),
{
    let s = curve25519_dalek::scalar::Scalar::hash_from_bytes::<sha2::Sha512>(input.as_slice());
    ScalarValue { inner: s, val: Ghost(le_value(sha512_of(input@)) as int % group_order()) }
}

/// Relies on `EdwardsPoint::mul_base`: the multiple `s·B` of the base point.
#[verifier::external_body]
pub(crate) fn mul_base(s: &ScalarValue) -> (r: CurvePoint)
    ensures
        r.model() == base_mul(s.value()),
{
    let p = curve25519_dalek::edwards::EdwardsPoint::mul_base(&s.inner);
    CurvePoint { inner: p, coords: Ghost(base_mul(s.value())) }
}

/// Relies on `EdwardsPoint + EdwardsPoint`: the group law.
#[verifier::external_body]
pub(crate) fn point_add(p: &CurvePoint, q: &CurvePoint) -> (r: CurvePoint)
    ensures
        r.model() == pt_add(p.model(), q.model()),
{
    CurvePoint { inner: p.inner + q.inner, coords: Ghost(pt_add(p.model(), q.model())) }
}

/// Relies on `EdwardsPoint - EdwardsPoint`: the group law with the inverse.
#[verifier::external_body]
pub(crate) fn point_sub(p: &CurvePoint, q: &CurvePoint) -> (r: CurvePoint)
    ensures
        r.model() == pt_sub(p.model(), q.model()),
{
    CurvePoint { inner: p.inner - q.inner, coords: Ghost(pt_sub(p.model(), q.model())) }
}

/// Relies on `EdwardsPoint * Scalar`: the multiple `s·P` of a point.
#[verifier::external_body]
pub(crate) fn point_mul(p: &CurvePoint, s: &ScalarValue) -> (r: CurvePoint)
    ensures
        r.model() == pt_mul(p.model(), s.value()),
{
    CurvePoint { inner: p.inner * s.inner, coords: Ghost(pt_mul(p.model(), s.value())) }
}

/// Relies on `EdwardsPoint == EdwardsPoint`: equality of group elements.
#[verifier::external_body]
pub(crate) fn points_equal(p: &CurvePoint, q: &CurvePoint) -> (r: bool)
    ensures
        r == (p.model() == q.model()),
{
    p.inner == q.inner
}

/// Relies on `EdwardsPoint::compress`: the canonical encoding, which
/// `CompressedEdwardsY::decompress` maps back to the same point.
#[verifier::external_body]
pub(crate) fn compress_point(p: &CurvePoint) -> (r: [u8; 32])
    ensures
        r@ == encoding_of(p.model().0, p.model().1),
        decoding_of(r@) == Some(p.model()),
{
    p.inner.compress().to_bytes()
}

/// Relies on `CompressedEdwardsY::decompress`: the point encoded by the
/// bytes, or nothing where they encode none.
#[verifier::external_body]
pub(crate) fn decompress_point(b: &[u8; 32]) -> (r: Option<CurvePoint>)
    ensures
        r.is_some() == decoding_of(b@).is_some(),
        r.is_some() ==> Some(r.unwrap().model()) == decoding_of(b@),
{
    match curve25519_dalek::edwards::CompressedEdwardsY(*b).decompress() {
        Some(p) => Some(CurvePoint { inner: p, coords: Ghost(decoding_of(b@).unwrap()) }),
        None => None,
    }
}

/// Relies on `base64::engine::general_purpose::STANDARD.encode`: standard
/// alphabet with padding, 44 characters for 32 bytes.
#[verifier::external_body]
pub(crate) fn base64_encode(b: &[u8; 32]) -> (r: String)
    ensures
        r@ == base64_of(b@),
        r@.len() == 44,
{
    base64::Engine::encode(&base64::engine::general_purpose::STANDARD, b)
}

} // verus!
