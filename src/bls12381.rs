//! BLS12-381 keys in the min-sig setting (signatures in G1, public keys in
//! G2), backed by the blst library. Keys and signatures are held as their
//! byte encodings; blst does the curve arithmetic.
use vstd::prelude::*;
use vstd::string::StringSliceAdditionalSpecFns;

use crate::domain::Bls12381PublicKey;

verus! {

/// The domain separation tag of the proof-of-possession-free scheme.
pub const DST_G1: &'static str = "BLS_SIG_BLS12381G1_XMD:SHA-256_SSWU_RO_NUL_";

/// The unsigned integer that `b` encodes, most significant byte first.
pub open spec fn big_endian_value(b: Seq<u8>) -> nat
    decreases b.len(),
{
    if b.len() == 0 {
        0
    } else {
        big_endian_value(b.drop_last()) * 256 + b.last() as nat
    }
}

/// The order r of the BLS12-381 groups.
pub open spec fn group_order() -> nat {
    (0x73eda753299d7d483339d80809a1d805u128 as nat) * 0x10000000000000000 * 0x10000000000000000
        + 0x53bda402fffe5bfeffffffff00000001u128 as nat
}

/// 32 bytes that encode, big-endian, a scalar in `1 .. r`: what blst accepts
/// as a secret key.
pub open spec fn secret_scalar_valid(b: Seq<u8>) -> bool {
    &&& b.len() == 32
    &&& 0 < big_endian_value(b)
    &&& big_endian_value(b) < group_order()
}

/// The compressed public key of a secret scalar.
pub uninterp spec fn bls_public_key_of(secret: Seq<u8>) -> Seq<u8>;

/// The compressed signature of `msg` under a secret scalar and a tag.
pub uninterp spec fn bls_signature_of(secret: Seq<u8>, msg: Seq<u8>, dst: Seq<u8>) -> Seq<u8>;

/// The secret scalar that key generation derives from input key material.
pub uninterp spec fn bls_key_gen(ikm: Seq<u8>) -> Seq<u8>;

/// Whether blst decodes `b` as a compressed public key.
pub uninterp spec fn bls_public_key_accepted(b: Seq<u8>) -> bool;

/// blst's status code for verifying a signature of `msg` under a public key.
pub uninterp spec fn bls_verify_code(public_key: Seq<u8>, msg: Seq<u8>, sig: Seq<u8>, dst: Seq<u8>) -> u32;

/// Relies on blst's `SecretKey::from_bytes`: it accepts exactly 32 bytes whose
/// big-endian value is a nonzero scalar below the group order.
#[verifier::external_body]
fn secret_key_accepted(bytes: &[u8; 32]) -> (r: bool)
    ensures
        r == secret_scalar_valid(bytes@),
{
    blst::min_sig::SecretKey::from_bytes(bytes).is_ok()
}

/// Relies on blst's `SecretKey::sk_to_pk` and `PublicKey::to_bytes`: the
/// compressed public key of the secret, which depends on the secret alone
/// and which `PublicKey::from_bytes` decodes again.
#[verifier::external_body]
fn public_key_of(secret: &[u8; 32]) -> (r: [u8; 96])
    requires
        secret_scalar_valid(secret@),
    ensures
        r@ == bls_public_key_of(secret@),
        bls_public_key_accepted(r@),
{
    blst::min_sig::SecretKey::from_bytes(secret).unwrap().sk_to_pk().to_bytes()
}

/// Relies on blst's `SecretKey::sign` and `Signature::to_bytes`: the
/// compressed signature, which depends on the secret, message and tag alone.
#[verifier::external_body]
fn signature_of(secret: &[u8; 32], msg: &[u8], dst: &[u8]) -> (r: [u8; 48])
    requires
        secret_scalar_valid(secret@),
    ensures
        r@ == bls_signature_of(secret@, msg@, dst@),
{
    blst::min_sig::SecretKey::from_bytes(secret).unwrap().sign(msg, dst, &[]).to_bytes()
}

/// Relies on blst's `SecretKey::key_gen`: with at least 32 bytes of key
/// material it succeeds and yields a nonzero scalar reduced modulo r.
#[verifier::external_body]
fn key_gen(ikm: &[u8; 32]) -> (r: [u8; 32])
    ensures
        r@ == bls_key_gen(ikm@),
        secret_scalar_valid(r@),
{
    blst::min_sig::SecretKey::key_gen(ikm, &[]).unwrap().to_bytes()
}

/// Relies on blst's `PublicKey::from_bytes`: whether the bytes decode, and
/// the status code when they do not.
#[verifier::external_body]
fn public_key_status(bytes: &[u8; 96]) -> (r: Result<(), u32>)
    ensures
        r is Ok <==> bls_public_key_accepted(bytes@),
        r matches Err(code) ==> 0 < code <= 7,
{
    match blst::min_sig::PublicKey::from_bytes(bytes) {
        Ok(_) => Ok(()),
        Err(e) => Err(e as u32),
    }
}

/// Relies on blst's `Signature::from_bytes` and `Signature::verify`, with the
/// signature checked to lie in its group and the key not re-validated: the
/// status code, zero for a valid signature.
#[verifier::external_body]
fn verify_status(public_key: &[u8; 96], msg: &[u8], sig: &[u8; 48], dst: &[u8]) -> (r: u32)
    requires
        bls_public_key_accepted(public_key@),
    ensures
        r == bls_verify_code(public_key@, msg@, sig@, dst@),
        r <= 7,
{
    let pk = blst::min_sig::PublicKey::from_bytes(public_key).unwrap();
    match blst::min_sig::Signature::from_bytes(sig) {
        Ok(s) => s.verify(true, msg, dst, &[], &pk, false) as u32,
        Err(e) => e as u32,
    }
}

/// What blst reports when it rejects a key or a signature.
#[derive(Debug, Clone, Copy, PartialEq, Eq, Structural)]
pub enum BlstError {
    BadEncoding,
    PointNotOnCurve,
    PointNotInGroup,
    AggregateTypeMismatch,
    VerifyFail,
    PublicKeyIsInfinity,
    BadScalar,
}

/// The error for a nonzero blst status code.
pub open spec fn blst_error_of(code: u32) -> BlstError {
    if code == 2 {
        BlstError::PointNotOnCurve
    } else if code == 3 {
        BlstError::PointNotInGroup
    } else if code == 4 {
        BlstError::AggregateTypeMismatch
    } else if code == 5 {
        BlstError::VerifyFail
    } else if code == 6 {
        BlstError::PublicKeyIsInfinity
    } else if code == 7 {
        BlstError::BadScalar
    } else {
        BlstError::BadEncoding
    }
}

impl BlstError {
    pub fn from_code(code: u32) -> (r: Self)
        ensures
            r == blst_error_of(code),
    {
        if code == 2 {
            BlstError::PointNotOnCurve
        } else if code == 3 {
            BlstError::PointNotInGroup
        } else if code == 4 {
            BlstError::AggregateTypeMismatch
        } else if code == 5 {
            BlstError::VerifyFail
        } else if code == 6 {
            BlstError::PublicKeyIsInfinity
        } else if code == 7 {
            BlstError::BadScalar
        } else {
            BlstError::BadEncoding
        }
    }
}

/// The failure of a signature operation.
#[derive(Debug, Clone, Copy, PartialEq, Eq, Structural)]
pub struct SignatureError {
    pub source: BlstError,
}

impl SignatureError {
    pub fn from_source(source: BlstError) -> (r: Self)
        ensures
            r.source == source,
    {
        SignatureError { source }
    }
}

/// The signature schemes that keys and signatures are tagged with.
#[derive(Debug, Clone, Copy, PartialEq, Eq, Structural)]
pub enum SignatureScheme {
    Ed25519,
    Secp256k1,
    Secp256r1,
    Multisig,
    Bls12381,
    ZkLogin,
    Passkey,
}

/// A compressed BLS12-381 signature in G1.
#[derive(Debug, Clone, Copy, PartialEq, Eq)]
pub struct Bls12381Signature(pub [u8; 48]);

/// A BLS12-381 secret key: always a valid scalar.
pub struct Bls12381PrivateKey {
    bytes: [u8; 32],
}

impl Bls12381PrivateKey {
    #[verifier::type_invariant]
    spec fn inv(self) -> bool {
        secret_scalar_valid(self.bytes@)
    }

    /// The big-endian encoding of the secret scalar.
    pub closed spec fn secret(self) -> Seq<u8> {
        self.bytes@
    }

    /// Accepts exactly the encodings of scalars in `1 .. r`.
    pub fn new(bytes: [u8; 32]) -> (r: Result<Self, SignatureError>)
        ensures
            r is Ok <==> secret_scalar_valid(bytes@),
            r matches Ok(k) ==> k.secret() == bytes@,
            r matches Err(e) ==> e.source == BlstError::BadEncoding,
    {
        if secret_key_accepted(&bytes) {
            Ok(Bls12381PrivateKey { bytes })
        } else {
            Err(SignatureError::from_source(BlstError::BadEncoding))
        }
    }

    pub fn scheme(&self) -> (r: SignatureScheme)
        ensures
            r == SignatureScheme::Bls12381,
    {
        SignatureScheme::Bls12381
    }

    /// Derives a key from 32 bytes of key material.
    pub fn generate(ikm: [u8; 32]) -> (r: Self)
        ensures
            r.secret() == bls_key_gen(ikm@),
    {
        Bls12381PrivateKey { bytes: key_gen(&ikm) }
    }

    pub fn verifying_key(&self) -> (r: Bls12381VerifyingKey)
        ensures
            r.public_key_bytes() == bls_public_key_of(self.secret()),
    {
        proof {
            use_type_invariant(self);
        }
        Bls12381VerifyingKey { public_key: public_key_of(&self.bytes) }
    }

    pub fn public_key(&self) -> (r: Bls12381PublicKey)
        ensures
            r.0@ == bls_public_key_of(self.secret()),
    {
        proof {
            use_type_invariant(self);
        }
        Bls12381PublicKey(public_key_of(&self.bytes))
    }

    /// Signs `msg` under the tag of the scheme; this never fails.
    pub fn try_sign(&self, msg: &[u8]) -> (r: Result<Bls12381Signature, SignatureError>)
        ensures
            r matches Ok(s) && s.0@ == bls_signature_of(self.secret(), msg@, DST_G1.spec_bytes()),
    {
        proof {
            use_type_invariant(self);
        }
        Ok(Bls12381Signature(signature_of(&self.bytes, msg, DST_G1.as_bytes())))
    }
}

/// A BLS12-381 public key that blst decodes.
pub struct Bls12381VerifyingKey {
    public_key: [u8; 96],
}

impl Bls12381VerifyingKey {
    #[verifier::type_invariant]
    spec fn inv(self) -> bool {
        bls_public_key_accepted(self.public_key@)
    }

    /// The compressed encoding of the key.
    pub closed spec fn public_key_bytes(self) -> Seq<u8> {
        self.public_key@
    }

    /// Accepts exactly the keys that blst decodes.
    pub fn new(public_key: &Bls12381PublicKey) -> (r: Result<Self, SignatureError>)
        ensures
            r is Ok <==> bls_public_key_accepted(public_key.0@),
            r matches Ok(k) ==> k.public_key_bytes() == public_key.0@,
    {
        match public_key_status(&public_key.0) {
            Ok(()) => Ok(Bls12381VerifyingKey { public_key: public_key.0 }),
            Err(code) => Err(SignatureError::from_source(BlstError::from_code(code))),
        }
    }

    pub fn public_key(&self) -> (r: Bls12381PublicKey)
        ensures
            r.0@ == self.public_key_bytes(),
    {
        Bls12381PublicKey(self.public_key)
    }

    /// Succeeds exactly when blst reports success for the signature of
    /// `message` under this key; otherwise fails with blst's status.
    pub fn verify(&self, message: &[u8], signature: &Bls12381Signature) -> (r: Result<(), SignatureError>)
        ensures
            r is Ok <==> bls_verify_code(self.public_key_bytes(), message@, signature.0@, DST_G1.spec_bytes()) == 0,
            r matches Err(e) ==> e.source == blst_error_of(
                bls_verify_code(self.public_key_bytes(), message@, signature.0@, DST_G1.spec_bytes()),
            ),
    {
        proof {
            use_type_invariant(self);
        }
        let code = verify_status(&self.public_key, message, &signature.0, DST_G1.as_bytes());
        if code == 0 {
            Ok(())
        } else {
            Err(SignatureError::from_source(BlstError::from_code(code)))
        }
    }
}

} // verus!
