//! Fixed-length identifiers, UTF-8 text and timestamps.
use vstd::prelude::*;
use vstd::utf8::{encode_utf8, valid_utf8};

use crate::domain::{
    Address, Bls12381PublicKey, CheckpointContentsDigest, CheckpointDigest, ConsensusCommitDigest,
    Digest, EffectsAuxiliaryDataDigest, ObjectDigest, ObjectId, TransactionDigest,
    TransactionEffectsDigest, TransactionEventsDigest,
};
use crate::error::{ConversionFailure, SourceError, TryFromProtoError};
use crate::wire;

verus! {

broadcast use vstd::array::group_array_axioms;

//
// Fixed-length byte strings
//

/// The failure of reading `n` bytes from a buffer that holds `b`.
pub open spec fn fixed_length_error(b: Seq<u8>, n: nat) -> Option<ConversionFailure> {
    if b.len() == n {
        None
    } else {
        Some(ConversionFailure::Source(SourceError::WrongLength))
    }
}

/// Copies the `N` bytes into a buffer.
pub fn fixed_bytes_to_wire<const N: usize>(a: &[u8; N]) -> (b: Vec<u8>)
    ensures
        b@ == a@,
{
    let mut b: Vec<u8> = Vec::new();
    let mut i: usize = 0;
    while i < N
        invariant
            i <= N,
            a@.len() == N,
            b@ == a@.subrange(0, i as int),
        decreases N - i,
    {
        b.push(a[i]);
        i += 1;
    }
    b
}

/// Reads exactly `N` bytes; any other length is a wrapped length failure.
pub fn fixed_bytes_from_wire<const N: usize>(b: &Vec<u8>) -> (r: Result<[u8; N], TryFromProtoError>)
    ensures
        match r {
            Ok(a) => fixed_length_error(b@, N as nat) is None && a@ == b@,
            Err(e) => fixed_length_error(b@, N as nat) == Some(e@),
        },
{
    if b.len() != N {
        return Err(TryFromProtoError::from_error(SourceError::WrongLength));
    }
    let mut a: [u8; N] = [0u8; N];
    let mut i: usize = 0;
    while i < N
        invariant
            i <= N,
            b@.len() == N,
            a@.len() == N,
            forall|j: int| 0 <= j < i ==> a@[j] == b@[j],
        decreases N - i,
    {
        a[i] = b[i];
        i += 1;
    }
    assert(a@ =~= b@);
    Ok(a)
}

//
// Byte buffers and text
//

/// Copies a byte buffer.
pub fn bytes_to_wire(b: &Vec<u8>) -> (r: Vec<u8>)
    ensures
        r@ == b@,
{
    let r = b.clone();
    assert(r@ =~= b@);
    r
}

/// Copies each of a list of byte buffers.
pub fn byte_lists_to_wire(bs: &Vec<Vec<u8>>) -> (r: Vec<Vec<u8>>)
    ensures
        r@.len() == bs@.len(),
        forall|i: int| 0 <= i < bs@.len() ==> #[trigger] r@[i]@ == bs@[i]@,
{
    let mut r: Vec<Vec<u8>> = Vec::new();
    let mut i: usize = 0;
    while i < bs.len()
        invariant
            i <= bs@.len(),
            r@.len() == i,
            forall|j: int| 0 <= j < i ==> #[trigger] r@[j]@ == bs@[j]@,
        decreases bs@.len() - i,
    {
        r.push(bytes_to_wire(&bs[i]));
        i += 1;
    }
    r
}

/// `b` holds the UTF-8 encoding of `s`.
pub open spec fn text_carried(s: Seq<char>, b: Seq<u8>) -> bool {
    b == encode_utf8(s)
}

/// The failure of reading text from `b`.
pub open spec fn text_error(b: Seq<u8>) -> Option<ConversionFailure> {
    if valid_utf8(b) {
        None
    } else {
        Some(ConversionFailure::Source(SourceError::InvalidUtf8))
    }
}

/// The UTF-8 bytes of `s`.
pub fn text_to_wire(s: &String) -> (b: Vec<u8>)
    ensures
        text_carried(s@, b@),
{
    vstd::slice::slice_to_vec(s.as_str().as_bytes())
}

/// The error of `std::str::from_utf8`, carried through opaque.
#[verifier::external_type_specification]
#[verifier::external_body]
pub struct ExUtf8Error(std::str::Utf8Error);

/// Relies on `std::str::from_utf8`: it returns the string slice whose bytes
/// are `b` when `b` is valid UTF-8, and an error otherwise.
#[verifier::external_body]
fn str_from_utf8(b: &[u8]) -> (r: Result<&str, std::str::Utf8Error>)
    ensures
        match r {
            Ok(s) => encode_utf8(s@) == b@,
            Err(_) => !valid_utf8(b@),
        },
{
    std::str::from_utf8(b)
}

/// Reads text from UTF-8 bytes; invalid UTF-8 is a wrapped failure.
pub fn text_from_wire(b: &Vec<u8>) -> (r: Result<String, TryFromProtoError>)
    ensures
        match r {
            Ok(s) => text_error(b@) is None && text_carried(s@, b@),
            Err(e) => text_error(b@) == Some(e@),
        },
{
    match str_from_utf8(b.as_slice()) {
        Ok(s) => {
            proof {
                vstd::utf8::encode_utf8_valid_utf8(s@);
            }
            Ok(s.to_owned())
        },
        Err(_) => Err(TryFromProtoError::from_error(SourceError::InvalidUtf8)),
    }
}

/// Text that was written reads back without error, as the same characters.
pub proof fn lemma_text_round_trip(s: Seq<char>, b: Seq<u8>, t: Seq<char>)
    requires
        text_carried(s, b),
    ensures
        text_error(b) is None,
        text_carried(t, b) ==> t == s,
{
    vstd::utf8::encode_utf8_valid_utf8(s);
    vstd::utf8::encode_utf8_decode_utf8(s);
    vstd::utf8::encode_utf8_decode_utf8(t);
}

//
// Timestamps
//

/// The wire form of a millisecond timestamp: whole seconds and the
/// remaining nanoseconds.
pub open spec fn timestamp_of_ms(ms: u64) -> wire::Timestamp {
    wire::Timestamp { seconds: (ms / 1000) as i64, nanos: ((ms % 1000) * 1_000_000) as i32 }
}

/// The milliseconds that a wire timestamp stands for, truncated; none when a
/// component is negative or the value does not fit in 64 bits.
pub open spec fn ms_of_timestamp(t: wire::Timestamp) -> Option<u64> {
    if t.seconds < 0 || t.nanos < 0 {
        None
    } else if t.seconds * 1000 + t.nanos / 1_000_000 > u64::MAX {
        None
    } else {
        Some((t.seconds * 1000 + t.nanos / 1_000_000) as u64)
    }
}

/// The failure of reading a wire timestamp.
pub open spec fn timestamp_error(t: wire::Timestamp) -> Option<ConversionFailure> {
    if ms_of_timestamp(t) is None {
        Some(ConversionFailure::Source(SourceError::IntegerOutOfRange))
    } else {
        None
    }
}

/// `t` carries `ms`: as written (`exact`), or as read back.
pub open spec fn timestamp_carried(ms: u64, t: wire::Timestamp, exact: bool) -> bool {
    if exact {
        t == timestamp_of_ms(ms)
    } else {
        ms_of_timestamp(t) == Some(ms)
    }
}

/// Splits milliseconds into seconds and nanoseconds.
pub fn timestamp_ms_to_proto(timestamp_ms: u64) -> (t: wire::Timestamp)
    ensures
        t == timestamp_of_ms(timestamp_ms),
{
    let seconds: u64 = timestamp_ms / 1000;
    let nanos: u64 = (timestamp_ms % 1000) * 1_000_000;
    wire::Timestamp { seconds: seconds as i64, nanos: nanos as i32 }
}

/// Joins seconds and nanoseconds into milliseconds, truncating; fails when a
/// component is negative or the sum overflows 64 bits.
pub fn proto_to_timestamp_ms(timestamp: wire::Timestamp) -> (r: Result<u64, TryFromProtoError>)
    ensures
        match r {
            Ok(ms) => ms_of_timestamp(timestamp) == Some(ms),
            Err(e) => ms_of_timestamp(timestamp) is None && e@ == ConversionFailure::Source(
                SourceError::IntegerOutOfRange,
            ),
        },
{
    if timestamp.seconds < 0 || timestamp.nanos < 0 {
        return Err(TryFromProtoError::from_error(SourceError::IntegerOutOfRange));
    }
    let total: u128 = (timestamp.seconds as u128) * 1000 + (timestamp.nanos as u128) / 1_000_000;
    if total > u64::MAX as u128 {
        return Err(TryFromProtoError::from_error(SourceError::IntegerOutOfRange));
    }
    Ok(total as u64)
}

/// A timestamp written from milliseconds reads back as the same milliseconds.
pub proof fn lemma_timestamp_round_trip(ms: u64)
    ensures
        ms_of_timestamp(timestamp_of_ms(ms)) == Some(ms),
{
    assert((ms / 1000) * 1000 + ((ms % 1000) * 1_000_000) / 1_000_000 == ms) by (nonlinear_arith);
}

/// A timestamp as written is also a timestamp as read.
pub proof fn lemma_timestamp_exact_is_read(ms: u64, t: wire::Timestamp)
    requires
        timestamp_carried(ms, t, true),
    ensures
        timestamp_carried(ms, t, false),
        timestamp_error(t) is None,
{
    lemma_timestamp_round_trip(ms);
}

//
// Identifiers
//

impl Address {
    /// `w` holds exactly the bytes of this identifier.
    pub open spec fn carried_by(self, w: wire::Address) -> bool {
        w.address@ == self.0@
    }

    /// The failure of reading this identifier from `w`.
    pub open spec fn wire_error(w: wire::Address) -> Option<ConversionFailure> {
        fixed_length_error(w.address@, 32)
    }

    pub fn to_wire(&self) -> (w: wire::Address)
        ensures
            self.carried_by(w),
    {
        wire::Address { address: fixed_bytes_to_wire(&self.0) }
    }

    pub fn from_wire(w: &wire::Address) -> (r: Result<Self, TryFromProtoError>)
        ensures
            match r {
                Ok(d) => Self::wire_error(*w) is None && d.carried_by(*w),
                Err(e) => Self::wire_error(*w) == Some(e@),
            },
    {
        match fixed_bytes_from_wire::<32>(&w.address) {
            Ok(a) => Ok(Address(a)),
            Err(e) => Err(e),
        }
    }

    /// The wire form of an identifier reads back without error.
    pub proof fn lemma_wire_round_trip()
        ensures
            forall|d: Self, w: wire::Address| #[trigger] d.carried_by(w) ==> Self::wire_error(w) is None,
    {
    }
}

impl ObjectId {
    /// `w` holds exactly the bytes of this identifier.
    pub open spec fn carried_by(self, w: wire::ObjectId) -> bool {
        w.object_id@ == self.0@
    }

    /// The failure of reading this identifier from `w`.
    pub open spec fn wire_error(w: wire::ObjectId) -> Option<ConversionFailure> {
        fixed_length_error(w.object_id@, 32)
    }

    pub fn to_wire(&self) -> (w: wire::ObjectId)
        ensures
            self.carried_by(w),
    {
        wire::ObjectId { object_id: fixed_bytes_to_wire(&self.0) }
    }

    pub fn from_wire(w: &wire::ObjectId) -> (r: Result<Self, TryFromProtoError>)
        ensures
            match r {
                Ok(d) => Self::wire_error(*w) is None && d.carried_by(*w),
                Err(e) => Self::wire_error(*w) == Some(e@),
            },
    {
        match fixed_bytes_from_wire::<32>(&w.object_id) {
            Ok(a) => Ok(ObjectId(a)),
            Err(e) => Err(e),
        }
    }

    /// The wire form of an identifier reads back without error.
    pub proof fn lemma_wire_round_trip()
        ensures
            forall|d: Self, w: wire::ObjectId| #[trigger] d.carried_by(w) ==> Self::wire_error(w) is None,
    {
    }
}

impl Digest {
    /// `w` holds exactly the bytes of this identifier.
    pub open spec fn carried_by(self, w: wire::Digest) -> bool {
        w.digest@ == self.0@
    }

    /// The failure of reading this identifier from `w`.
    pub open spec fn wire_error(w: wire::Digest) -> Option<ConversionFailure> {
        fixed_length_error(w.digest@, 32)
    }

    pub fn to_wire(&self) -> (w: wire::Digest)
        ensures
            self.carried_by(w),
    {
        wire::Digest { digest: fixed_bytes_to_wire(&self.0) }
    }

    pub fn from_wire(w: &wire::Digest) -> (r: Result<Self, TryFromProtoError>)
        ensures
            match r {
                Ok(d) => Self::wire_error(*w) is None && d.carried_by(*w),
                Err(e) => Self::wire_error(*w) == Some(e@),
            },
    {
        match fixed_bytes_from_wire::<32>(&w.digest) {
            Ok(a) => Ok(Digest(a)),
            Err(e) => Err(e),
        }
    }

    /// The wire form of an identifier reads back without error.
    pub proof fn lemma_wire_round_trip()
        ensures
            forall|d: Self, w: wire::Digest| #[trigger] d.carried_by(w) ==> Self::wire_error(w) is None,
    {
    }
}

impl CheckpointDigest {
    /// `w` holds exactly the bytes of this identifier.
    pub open spec fn carried_by(self, w: wire::Digest) -> bool {
        w.digest@ == self.0@
    }

    /// The failure of reading this identifier from `w`.
    pub open spec fn wire_error(w: wire::Digest) -> Option<ConversionFailure> {
        fixed_length_error(w.digest@, 32)
    }

    pub fn to_wire(&self) -> (w: wire::Digest)
        ensures
            self.carried_by(w),
    {
        wire::Digest { digest: fixed_bytes_to_wire(&self.0) }
    }

    pub fn from_wire(w: &wire::Digest) -> (r: Result<Self, TryFromProtoError>)
        ensures
            match r {
                Ok(d) => Self::wire_error(*w) is None && d.carried_by(*w),
                Err(e) => Self::wire_error(*w) == Some(e@),
            },
    {
        match fixed_bytes_from_wire::<32>(&w.digest) {
            Ok(a) => Ok(CheckpointDigest(a)),
            Err(e) => Err(e),
        }
    }

    /// The wire form of an identifier reads back without error.
    pub proof fn lemma_wire_round_trip()
        ensures
            forall|d: Self, w: wire::Digest| #[trigger] d.carried_by(w) ==> Self::wire_error(w) is None,
    {
    }
}

impl CheckpointContentsDigest {
    /// `w` holds exactly the bytes of this identifier.
    pub open spec fn carried_by(self, w: wire::Digest) -> bool {
        w.digest@ == self.0@
    }

    /// The failure of reading this identifier from `w`.
    pub open spec fn wire_error(w: wire::Digest) -> Option<ConversionFailure> {
        fixed_length_error(w.digest@, 32)
    }

    pub fn to_wire(&self) -> (w: wire::Digest)
        ensures
            self.carried_by(w),
    {
        wire::Digest { digest: fixed_bytes_to_wire(&self.0) }
    }

    pub fn from_wire(w: &wire::Digest) -> (r: Result<Self, TryFromProtoError>)
        ensures
            match r {
                Ok(d) => Self::wire_error(*w) is None && d.carried_by(*w),
                Err(e) => Self::wire_error(*w) == Some(e@),
            },
    {
        match fixed_bytes_from_wire::<32>(&w.digest) {
            Ok(a) => Ok(CheckpointContentsDigest(a)),
            Err(e) => Err(e),
        }
    }

    /// The wire form of an identifier reads back without error.
    pub proof fn lemma_wire_round_trip()
        ensures
            forall|d: Self, w: wire::Digest| #[trigger] d.carried_by(w) ==> Self::wire_error(w) is None,
    {
    }
}

impl TransactionDigest {
    /// `w` holds exactly the bytes of this identifier.
    pub open spec fn carried_by(self, w: wire::Digest) -> bool {
        w.digest@ == self.0@
    }

    /// The failure of reading this identifier from `w`.
    pub open spec fn wire_error(w: wire::Digest) -> Option<ConversionFailure> {
        fixed_length_error(w.digest@, 32)
    }

    pub fn to_wire(&self) -> (w: wire::Digest)
        ensures
            self.carried_by(w),
    {
        wire::Digest { digest: fixed_bytes_to_wire(&self.0) }
    }

    pub fn from_wire(w: &wire::Digest) -> (r: Result<Self, TryFromProtoError>)
        ensures
            match r {
                Ok(d) => Self::wire_error(*w) is None && d.carried_by(*w),
                Err(e) => Self::wire_error(*w) == Some(e@),
            },
    {
        match fixed_bytes_from_wire::<32>(&w.digest) {
            Ok(a) => Ok(TransactionDigest(a)),
            Err(e) => Err(e),
        }
    }

    /// The wire form of an identifier reads back without error.
    pub proof fn lemma_wire_round_trip()
        ensures
            forall|d: Self, w: wire::Digest| #[trigger] d.carried_by(w) ==> Self::wire_error(w) is None,
    {
    }
}

impl TransactionEffectsDigest {
    /// `w` holds exactly the bytes of this identifier.
    pub open spec fn carried_by(self, w: wire::Digest) -> bool {
        w.digest@ == self.0@
    }

    /// The failure of reading this identifier from `w`.
    pub open spec fn wire_error(w: wire::Digest) -> Option<ConversionFailure> {
        fixed_length_error(w.digest@, 32)
    }

    pub fn to_wire(&self) -> (w: wire::Digest)
        ensures
            self.carried_by(w),
    {
        wire::Digest { digest: fixed_bytes_to_wire(&self.0) }
    }

    pub fn from_wire(w: &wire::Digest) -> (r: Result<Self, TryFromProtoError>)
        ensures
            match r {
                Ok(d) => Self::wire_error(*w) is None && d.carried_by(*w),
                Err(e) => Self::wire_error(*w) == Some(e@),
            },
    {
        match fixed_bytes_from_wire::<32>(&w.digest) {
            Ok(a) => Ok(TransactionEffectsDigest(a)),
            Err(e) => Err(e),
        }
    }

    /// The wire form of an identifier reads back without error.
    pub proof fn lemma_wire_round_trip()
        ensures
            forall|d: Self, w: wire::Digest| #[trigger] d.carried_by(w) ==> Self::wire_error(w) is None,
    {
    }
}

impl TransactionEventsDigest {
    /// `w` holds exactly the bytes of this identifier.
    pub open spec fn carried_by(self, w: wire::Digest) -> bool {
        w.digest@ == self.0@
    }

    /// The failure of reading this identifier from `w`.
    pub open spec fn wire_error(w: wire::Digest) -> Option<ConversionFailure> {
        fixed_length_error(w.digest@, 32)
    }

    pub fn to_wire(&self) -> (w: wire::Digest)
        ensures
            self.carried_by(w),
    {
        wire::Digest { digest: fixed_bytes_to_wire(&self.0) }
    }

    pub fn from_wire(w: &wire::Digest) -> (r: Result<Self, TryFromProtoError>)
        ensures
            match r {
                Ok(d) => Self::wire_error(*w) is None && d.carried_by(*w),
                Err(e) => Self::wire_error(*w) == Some(e@),
            },
    {
        match fixed_bytes_from_wire::<32>(&w.digest) {
            Ok(a) => Ok(TransactionEventsDigest(a)),
            Err(e) => Err(e),
        }
    }

    /// The wire form of an identifier reads back without error.
    pub proof fn lemma_wire_round_trip()
        ensures
            forall|d: Self, w: wire::Digest| #[trigger] d.carried_by(w) ==> Self::wire_error(w) is None,
    {
    }
}

impl ObjectDigest {
    /// `w` holds exactly the bytes of this identifier.
    pub open spec fn carried_by(self, w: wire::Digest) -> bool {
        w.digest@ == self.0@
    }

    /// The failure of reading this identifier from `w`.
    pub open spec fn wire_error(w: wire::Digest) -> Option<ConversionFailure> {
        fixed_length_error(w.digest@, 32)
    }

    pub fn to_wire(&self) -> (w: wire::Digest)
        ensures
            self.carried_by(w),
    {
        wire::Digest { digest: fixed_bytes_to_wire(&self.0) }
    }

    pub fn from_wire(w: &wire::Digest) -> (r: Result<Self, TryFromProtoError>)
        ensures
            match r {
                Ok(d) => Self::wire_error(*w) is None && d.carried_by(*w),
                Err(e) => Self::wire_error(*w) == Some(e@),
            },
    {
        match fixed_bytes_from_wire::<32>(&w.digest) {
            Ok(a) => Ok(ObjectDigest(a)),
            Err(e) => Err(e),
        }
    }

    /// The wire form of an identifier reads back without error.
    pub proof fn lemma_wire_round_trip()
        ensures
            forall|d: Self, w: wire::Digest| #[trigger] d.carried_by(w) ==> Self::wire_error(w) is None,
    {
    }
}

impl ConsensusCommitDigest {
    /// `w` holds exactly the bytes of this identifier.
    pub open spec fn carried_by(self, w: wire::Digest) -> bool {
        w.digest@ == self.0@
    }

    /// The failure of reading this identifier from `w`.
    pub open spec fn wire_error(w: wire::Digest) -> Option<ConversionFailure> {
        fixed_length_error(w.digest@, 32)
    }

    pub fn to_wire(&self) -> (w: wire::Digest)
        ensures
            self.carried_by(w),
    {
        wire::Digest { digest: fixed_bytes_to_wire(&self.0) }
    }

    pub fn from_wire(w: &wire::Digest) -> (r: Result<Self, TryFromProtoError>)
        ensures
            match r {
                Ok(d) => Self::wire_error(*w) is None && d.carried_by(*w),
                Err(e) => Self::wire_error(*w) == Some(e@),
            },
    {
        match fixed_bytes_from_wire::<32>(&w.digest) {
            Ok(a) => Ok(ConsensusCommitDigest(a)),
            Err(e) => Err(e),
        }
    }

    /// The wire form of an identifier reads back without error.
    pub proof fn lemma_wire_round_trip()
        ensures
            forall|d: Self, w: wire::Digest| #[trigger] d.carried_by(w) ==> Self::wire_error(w) is None,
    {
    }
}

impl EffectsAuxiliaryDataDigest {
    /// `w` holds exactly the bytes of this identifier.
    pub open spec fn carried_by(self, w: wire::Digest) -> bool {
        w.digest@ == self.0@
    }

    /// The failure of reading this identifier from `w`.
    pub open spec fn wire_error(w: wire::Digest) -> Option<ConversionFailure> {
        fixed_length_error(w.digest@, 32)
    }

    pub fn to_wire(&self) -> (w: wire::Digest)
        ensures
            self.carried_by(w),
    {
        wire::Digest { digest: fixed_bytes_to_wire(&self.0) }
    }

    pub fn from_wire(w: &wire::Digest) -> (r: Result<Self, TryFromProtoError>)
        ensures
            match r {
                Ok(d) => Self::wire_error(*w) is None && d.carried_by(*w),
                Err(e) => Self::wire_error(*w) == Some(e@),
            },
    {
        match fixed_bytes_from_wire::<32>(&w.digest) {
            Ok(a) => Ok(EffectsAuxiliaryDataDigest(a)),
            Err(e) => Err(e),
        }
    }

    /// The wire form of an identifier reads back without error.
    pub proof fn lemma_wire_round_trip()
        ensures
            forall|d: Self, w: wire::Digest| #[trigger] d.carried_by(w) ==> Self::wire_error(w) is None,
    {
    }
}

impl Bls12381PublicKey {
    /// `b` holds exactly the bytes of this key.
    pub open spec fn carried_by(self, b: Seq<u8>) -> bool {
        b == self.0@
    }

    /// The failure of reading a key from `b`.
    pub open spec fn wire_error(b: Seq<u8>) -> Option<ConversionFailure> {
        fixed_length_error(b, 96)
    }

    pub fn to_wire(&self) -> (b: Vec<u8>)
        ensures
            self.carried_by(b@),
    {
        fixed_bytes_to_wire(&self.0)
    }

    pub fn from_wire(b: &Vec<u8>) -> (r: Result<Self, TryFromProtoError>)
        ensures
            match r {
                Ok(d) => Self::wire_error(b@) is None && d.carried_by(b@),
                Err(e) => Self::wire_error(b@) == Some(e@),
            },
    {
        match fixed_bytes_from_wire::<96>(b) {
            Ok(a) => Ok(Bls12381PublicKey(a)),
            Err(e) => Err(e),
        }
    }
}

} // verus!
