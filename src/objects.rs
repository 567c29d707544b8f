//! Object references, owners, execution status and other leaves that the
//! transaction, effects and checkpoint conversions share.
use vstd::prelude::*;

use crate::domain::{
    Bls12381PublicKey, ExecutionStatus, GasCostSummary, Identifier, Object, ObjectDigest, ObjectId,
    ObjectReference, Owner, TypeTag, UserSignature, ValidatorCommitteeMember, Address,
};
use crate::error::{either, missing, required, ConversionFailure, TryFromProtoError};
use crate::scalar::{bytes_to_wire, lemma_text_round_trip, text_carried, text_error, text_from_wire, text_to_wire};
use crate::wire;

verus! {

impl ObjectReference {
    pub open spec fn carried_by(self, w: wire::ObjectReference) -> bool {
        &&& w.object_id matches Some(id) && self.object_id.carried_by(id)
        &&& w.version == self.version
        &&& w.digest matches Some(dg) && self.digest.carried_by(dg)
    }

    pub open spec fn wire_error(w: wire::ObjectReference) -> Option<ConversionFailure> {
        either(
            required(w.object_id, "object_id", |x| ObjectId::wire_error(x)),
            required(w.digest, "digest", |x| ObjectDigest::wire_error(x)),
        )
    }

    pub fn to_wire(&self) -> (w: wire::ObjectReference)
        ensures
            self.carried_by(w),
    {
        wire::ObjectReference {
            object_id: Some(self.object_id.to_wire()),
            version: self.version,
            digest: Some(self.digest.to_wire()),
        }
    }

    pub fn from_wire(w: &wire::ObjectReference) -> (r: Result<Self, TryFromProtoError>)
        ensures
            match r {
                Ok(d) => Self::wire_error(*w) is None && d.carried_by(*w),
                Err(e) => Self::wire_error(*w) == Some(e@),
            },
    {
        let object_id = match &w.object_id {
            None => return Err(TryFromProtoError::missing("object_id")),
            Some(x) => ObjectId::from_wire(x)?,
        };
        let digest = match &w.digest {
            None => return Err(TryFromProtoError::missing("digest")),
            Some(x) => ObjectDigest::from_wire(x)?,
        };
        Ok(ObjectReference { object_id, version: w.version, digest })
    }

    pub proof fn lemma_wire_round_trip()
        ensures
            forall|d: Self, w: wire::ObjectReference| #[trigger] d.carried_by(w) ==> Self::wire_error(w) is None,
    {
        ObjectId::lemma_wire_round_trip();
        ObjectDigest::lemma_wire_round_trip();
    }
}

impl Owner {
    pub open spec fn carried_by(self, w: wire::Owner) -> bool {
        match (self, w.kind) {
            (Owner::Address(a), Some(wire::OwnerKind::Address(wa))) => a.carried_by(wa),
            (Owner::Object(id), Some(wire::OwnerKind::Object(wid))) => id.carried_by(wid),
            (Owner::Shared(v), Some(wire::OwnerKind::Shared(wv))) => v == wv,
            (Owner::Immutable, Some(wire::OwnerKind::Immutable(_))) => true,
            _ => false,
        }
    }

    pub open spec fn wire_error(w: wire::Owner) -> Option<ConversionFailure> {
        match w.kind {
            None => missing("kind"),
            Some(wire::OwnerKind::Address(a)) => Address::wire_error(a),
            Some(wire::OwnerKind::Object(id)) => ObjectId::wire_error(id),
            Some(_) => None,
        }
    }

    pub fn to_wire(&self) -> (w: wire::Owner)
        ensures
            self.carried_by(w),
    {
        let kind = match self {
            Owner::Address(a) => wire::OwnerKind::Address(a.to_wire()),
            Owner::Object(id) => wire::OwnerKind::Object(id.to_wire()),
            Owner::Shared(v) => wire::OwnerKind::Shared(*v),
            Owner::Immutable => wire::OwnerKind::Immutable(wire::Empty {}),
        };
        wire::Owner { kind: Some(kind) }
    }

    pub fn from_wire(w: &wire::Owner) -> (r: Result<Self, TryFromProtoError>)
        ensures
            match r {
                Ok(d) => Self::wire_error(*w) is None && d.carried_by(*w),
                Err(e) => Self::wire_error(*w) == Some(e@),
            },
    {
        match &w.kind {
            None => Err(TryFromProtoError::missing("kind")),
            Some(wire::OwnerKind::Address(a)) => Ok(Owner::Address(Address::from_wire(a)?)),
            Some(wire::OwnerKind::Object(id)) => Ok(Owner::Object(ObjectId::from_wire(id)?)),
            Some(wire::OwnerKind::Shared(v)) => Ok(Owner::Shared(*v)),
            Some(wire::OwnerKind::Immutable(_)) => Ok(Owner::Immutable),
        }
    }

    pub proof fn lemma_wire_round_trip()
        ensures
            forall|d: Self, w: wire::Owner| #[trigger] d.carried_by(w) ==> Self::wire_error(w) is None,
    {
        Address::lemma_wire_round_trip();
        ObjectId::lemma_wire_round_trip();
    }
}

impl Object {
    pub open spec fn carried_by(self, w: wire::Object) -> bool {
        w.bcs@ == self.0@
    }

    /// Reading never fails.
    pub open spec fn wire_error(w: wire::Object) -> Option<ConversionFailure> {
        None
    }

    pub proof fn lemma_wire_round_trip()
        ensures
            forall|d: Self, w: wire::Object| #[trigger] d.carried_by(w) ==> Self::wire_error(w) is None,
    {
    }

        pub fn to_wire(&self) -> (w: wire::Object)
        ensures
            self.carried_by(w),
    {
        wire::Object { bcs: bytes_to_wire(&self.0) }
    }

    pub fn from_wire(w: &wire::Object) -> (r: Result<Self, TryFromProtoError>)
        ensures
            match r {
                Ok(d) => Self::wire_error(*w) is None && d.carried_by(*w),
                Err(e) => Self::wire_error(*w) == Some(e@),
            },
    {
        Ok(Object(bytes_to_wire(&w.bcs)))
    }
}

impl UserSignature {
    pub open spec fn carried_by(self, w: wire::UserSignature) -> bool {
        w.bcs@ == self.0@
    }

    /// Reading never fails.
    pub open spec fn wire_error(w: wire::UserSignature) -> Option<ConversionFailure> {
        None
    }

    pub proof fn lemma_wire_round_trip()
        ensures
            forall|d: Self, w: wire::UserSignature| #[trigger] d.carried_by(w) ==> Self::wire_error(w) is None,
    {
    }

        pub fn to_wire(&self) -> (w: wire::UserSignature)
        ensures
            self.carried_by(w),
    {
        wire::UserSignature { bcs: bytes_to_wire(&self.0) }
    }

    pub fn from_wire(w: &wire::UserSignature) -> (r: Result<Self, TryFromProtoError>)
        ensures
            match r {
                Ok(d) => Self::wire_error(*w) is None && d.carried_by(*w),
                Err(e) => Self::wire_error(*w) == Some(e@),
            },
    {
        Ok(UserSignature(bytes_to_wire(&w.bcs)))
    }
}

impl Identifier {
    pub open spec fn carried_by(self, w: wire::Identifier) -> bool {
        text_carried(self.0@, w.identifier@)
    }

    pub open spec fn wire_error(w: wire::Identifier) -> Option<ConversionFailure> {
        text_error(w.identifier@)
    }

    pub fn to_wire(&self) -> (w: wire::Identifier)
        ensures
            self.carried_by(w),
    {
        wire::Identifier { identifier: text_to_wire(&self.0) }
    }

    pub fn from_wire(w: &wire::Identifier) -> (r: Result<Self, TryFromProtoError>)
        ensures
            match r {
                Ok(d) => Self::wire_error(*w) is None && d.carried_by(*w),
                Err(e) => Self::wire_error(*w) == Some(e@),
            },
    {
        Ok(Identifier(text_from_wire(&w.identifier)?))
    }

    pub proof fn lemma_wire_round_trip()
        ensures
            forall|d: Self, w: wire::Identifier| #[trigger] d.carried_by(w) ==> Self::wire_error(w) is None,
    {
        assert forall|d: Self, w: wire::Identifier| #[trigger] d.carried_by(w) implies Self::wire_error(w) is None by {
            lemma_text_round_trip(d.0@, w.identifier@, d.0@);
        }
    }
}

impl TypeTag {
    pub open spec fn carried_by(self, w: wire::TypeTag) -> bool {
        text_carried(self.0@, w.type_tag@)
    }

    pub open spec fn wire_error(w: wire::TypeTag) -> Option<ConversionFailure> {
        text_error(w.type_tag@)
    }

    pub fn to_wire(&self) -> (w: wire::TypeTag)
        ensures
            self.carried_by(w),
    {
        wire::TypeTag { type_tag: text_to_wire(&self.0) }
    }

    pub fn from_wire(w: &wire::TypeTag) -> (r: Result<Self, TryFromProtoError>)
        ensures
            match r {
                Ok(d) => Self::wire_error(*w) is None && d.carried_by(*w),
                Err(e) => Self::wire_error(*w) == Some(e@),
            },
    {
        Ok(TypeTag(text_from_wire(&w.type_tag)?))
    }

    pub proof fn lemma_wire_round_trip()
        ensures
            forall|d: Self, w: wire::TypeTag| #[trigger] d.carried_by(w) ==> Self::wire_error(w) is None,
    {
        assert forall|d: Self, w: wire::TypeTag| #[trigger] d.carried_by(w) implies Self::wire_error(w) is None by {
            lemma_text_round_trip(d.0@, w.type_tag@, d.0@);
        }
    }
}

impl ExecutionStatus {
    pub open spec fn carried_by(self, w: wire::ExecutionStatus) -> bool {
        match (self, w.kind) {
            (ExecutionStatus::Success, Some(wire::ExecutionStatusKind::Success(_))) => true,
            (
                ExecutionStatus::Failure { command },
                Some(wire::ExecutionStatusKind::Failure(f)),
            ) => f.command == command,
            _ => false,
        }
    }

    pub open spec fn wire_error(w: wire::ExecutionStatus) -> Option<ConversionFailure> {
        if w.kind is None {
            missing("kind")
        } else {
            None
        }
    }

    pub fn to_wire(&self) -> (w: wire::ExecutionStatus)
        ensures
            self.carried_by(w),
    {
        let kind = match self {
            ExecutionStatus::Success => wire::ExecutionStatusKind::Success(wire::Empty {}),
            ExecutionStatus::Failure { command } => wire::ExecutionStatusKind::Failure(
                wire::ExecutionFailure { command: *command },
            ),
        };
        wire::ExecutionStatus { kind: Some(kind) }
    }

    pub fn from_wire(w: &wire::ExecutionStatus) -> (r: Result<Self, TryFromProtoError>)
        ensures
            match r {
                Ok(d) => Self::wire_error(*w) is None && d.carried_by(*w),
                Err(e) => Self::wire_error(*w) == Some(e@),
            },
    {
        match &w.kind {
            None => Err(TryFromProtoError::missing("kind")),
            Some(wire::ExecutionStatusKind::Success(_)) => Ok(ExecutionStatus::Success),
            Some(wire::ExecutionStatusKind::Failure(f)) => Ok(
                ExecutionStatus::Failure { command: f.command },
            ),
        }
    }

    pub proof fn lemma_wire_round_trip()
        ensures
            forall|d: Self, w: wire::ExecutionStatus| #[trigger] d.carried_by(w) ==> Self::wire_error(w) is None,
    {
    }
}

impl ValidatorCommitteeMember {
    pub open spec fn carried_by(self, w: wire::ValidatorCommitteeMember) -> bool {
        self.public_key.carried_by(w.public_key@) && w.stake == self.stake
    }

    pub open spec fn wire_error(w: wire::ValidatorCommitteeMember) -> Option<ConversionFailure> {
        Bls12381PublicKey::wire_error(w.public_key@)
    }

    pub fn to_wire(&self) -> (w: wire::ValidatorCommitteeMember)
        ensures
            self.carried_by(w),
    {
        wire::ValidatorCommitteeMember { public_key: self.public_key.to_wire(), stake: self.stake }
    }

    pub fn from_wire(w: &wire::ValidatorCommitteeMember) -> (r: Result<Self, TryFromProtoError>)
        ensures
            match r {
                Ok(d) => Self::wire_error(*w) is None && d.carried_by(*w),
                Err(e) => Self::wire_error(*w) == Some(e@),
            },
    {
        let public_key = Bls12381PublicKey::from_wire(&w.public_key)?;
        Ok(ValidatorCommitteeMember { public_key, stake: w.stake })
    }

    pub proof fn lemma_wire_round_trip()
        ensures
            forall|d: Self, w: wire::ValidatorCommitteeMember| #[trigger] d.carried_by(w) ==> Self::wire_error(w) is None,
    {
    }
}

impl GasCostSummary {
    pub open spec fn carried_by(self, w: wire::GasCostSummary) -> bool {
        &&& w.computation_cost == self.computation_cost
        &&& w.storage_cost == self.storage_cost
        &&& w.storage_rebate == self.storage_rebate
        &&& w.non_refundable_storage_fee == self.non_refundable_storage_fee
    }

    /// Reading never fails.
    pub open spec fn wire_error(w: wire::GasCostSummary) -> Option<ConversionFailure> {
        None
    }

    pub proof fn lemma_wire_round_trip()
        ensures
            forall|d: Self, w: wire::GasCostSummary| #[trigger] d.carried_by(w) ==> Self::wire_error(w) is None,
    {
    }

        pub fn to_wire(&self) -> (w: wire::GasCostSummary)
        ensures
            self.carried_by(w),
    {
        wire::GasCostSummary {
            computation_cost: self.computation_cost,
            storage_cost: self.storage_cost,
            storage_rebate: self.storage_rebate,
            non_refundable_storage_fee: self.non_refundable_storage_fee,
        }
    }

    pub fn from_wire(w: &wire::GasCostSummary) -> (r: Result<Self, TryFromProtoError>)
        ensures
            match r {
                Ok(d) => Self::wire_error(*w) is None && d.carried_by(*w),
                Err(e) => Self::wire_error(*w) == Some(e@),
            },
    {
        Ok(GasCostSummary {
            computation_cost: w.computation_cost,
            storage_cost: w.storage_cost,
            storage_rebate: w.storage_rebate,
            non_refundable_storage_fee: w.non_refundable_storage_fee,
        })
    }
}

} // verus!
