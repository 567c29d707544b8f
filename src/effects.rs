//! Transaction effects in both of their generations, and the object changes
//! they record.
use vstd::prelude::*;

use crate::domain::{
    ChangedObject, EffectsAuxiliaryDataDigest, EffectsObjectChange, ExecutionStatus,
    GasCostSummary, IdOperation, ModifiedAtVersion, ObjectDigest, ObjectId, ObjectIn, ObjectOut,
    ObjectReference, ObjectReferenceWithOwner, Owner, TransactionDigest, TransactionEffects,
    TransactionEffectsV1, TransactionEffectsV2, TransactionEventsDigest, UnchangedSharedKind,
    UnchangedSharedObject,
};
use crate::error::{either, missing, optional, required, ConversionFailure, TryFromProtoError};
use crate::seqs::{all_carried, first_error, lemma_carried_has_no_error, map_to_wire, try_map_from_wire};
use crate::wire;

verus! {

impl ModifiedAtVersion {
    pub open spec fn carried_by(self, w: wire::ModifiedAtVersion) -> bool {
        &&& w.object_id matches Some(id) && self.object_id.carried_by(id)
        &&& w.version == self.version
    }

    pub open spec fn wire_error(w: wire::ModifiedAtVersion) -> Option<ConversionFailure> {
        required(w.object_id, "object_id", |x| ObjectId::wire_error(x))
    }

    pub fn to_wire(&self) -> (w: wire::ModifiedAtVersion)
        ensures
            self.carried_by(w),
    {
        wire::ModifiedAtVersion { object_id: Some(self.object_id.to_wire()), version: self.version }
    }

    pub fn from_wire(w: &wire::ModifiedAtVersion) -> (r: Result<Self, TryFromProtoError>)
        ensures
            match r {
                Ok(d) => Self::wire_error(*w) is None && d.carried_by(*w),
                Err(e) => Self::wire_error(*w) == Some(e@),
            },
    {
        let object_id = match &w.object_id {
            None => return Err(TryFromProtoError::missing("object_id")),
            Some(x) => ObjectId::from_wire(x)?,
        };
        Ok(ModifiedAtVersion { object_id, version: w.version })
    }

    pub proof fn lemma_wire_round_trip()
        ensures
            forall|d: Self, w: wire::ModifiedAtVersion| #[trigger] d.carried_by(w) ==> Self::wire_error(w) is None,
    {
        ObjectId::lemma_wire_round_trip();
    }
}

impl ObjectReferenceWithOwner {
    pub open spec fn carried_by(self, w: wire::ObjectReferenceWithOwner) -> bool {
        &&& w.reference matches Some(x) && self.reference.carried_by(x)
        &&& w.owner matches Some(x) && self.owner.carried_by(x)
    }

    pub open spec fn wire_error(w: wire::ObjectReferenceWithOwner) -> Option<ConversionFailure> {
        either(
            required(w.reference, "reference", |x| ObjectReference::wire_error(x)),
            required(w.owner, "owner", |x| Owner::wire_error(x)),
        )
    }

    pub fn to_wire(&self) -> (w: wire::ObjectReferenceWithOwner)
        ensures
            self.carried_by(w),
    {
        wire::ObjectReferenceWithOwner {
            reference: Some(self.reference.to_wire()),
            owner: Some(self.owner.to_wire()),
        }
    }

    pub fn from_wire(w: &wire::ObjectReferenceWithOwner) -> (r: Result<Self, TryFromProtoError>)
        ensures
            match r {
                Ok(d) => Self::wire_error(*w) is None && d.carried_by(*w),
                Err(e) => Self::wire_error(*w) == Some(e@),
            },
    {
        let reference = match &w.reference {
            None => return Err(TryFromProtoError::missing("reference")),
            Some(x) => ObjectReference::from_wire(x)?,
        };
        let owner = match &w.owner {
            None => return Err(TryFromProtoError::missing("owner")),
            Some(x) => Owner::from_wire(x)?,
        };
        Ok(ObjectReferenceWithOwner { reference, owner })
    }

    pub proof fn lemma_wire_round_trip()
        ensures
            forall|d: Self, w: wire::ObjectReferenceWithOwner| #[trigger] d.carried_by(w) ==> Self::wire_error(w) is None,
    {
        ObjectReference::lemma_wire_round_trip();
        Owner::lemma_wire_round_trip();
    }
}

impl ObjectIn {
    pub open spec fn carried_by(self, w: wire::InputState) -> bool {
        match (self, w) {
            (ObjectIn::NotExist, wire::InputState::NotExist(_)) => true,
            (ObjectIn::Exist { version, digest, owner }, wire::InputState::Exist(e)) => {
                &&& e.version == version
                &&& e.digest matches Some(x) && digest.carried_by(x)
                &&& e.owner matches Some(x) && owner.carried_by(x)
            },
            _ => false,
        }
    }

    pub open spec fn wire_error(w: wire::InputState) -> Option<ConversionFailure> {
        match w {
            wire::InputState::NotExist(_) => None,
            wire::InputState::Exist(e) => either(
                required(e.digest, "digest", |x| ObjectDigest::wire_error(x)),
                required(e.owner, "owner", |x| Owner::wire_error(x)),
            ),
        }
    }

    pub fn to_wire(&self) -> (w: wire::InputState)
        ensures
            self.carried_by(w),
    {
        match self {
            ObjectIn::NotExist => wire::InputState::NotExist(wire::Empty {}),
            ObjectIn::Exist { version, digest, owner } => wire::InputState::Exist(
                wire::ObjectExist {
                    version: *version,
                    digest: Some(digest.to_wire()),
                    owner: Some(owner.to_wire()),
                },
            ),
        }
    }

    pub fn from_wire(w: &wire::InputState) -> (r: Result<Self, TryFromProtoError>)
        ensures
            match r {
                Ok(d) => Self::wire_error(*w) is None && d.carried_by(*w),
                Err(e) => Self::wire_error(*w) == Some(e@),
            },
    {
        match w {
            wire::InputState::NotExist(_) => Ok(ObjectIn::NotExist),
            wire::InputState::Exist(e) => {
                let digest = match &e.digest {
                    None => return Err(TryFromProtoError::missing("digest")),
                    Some(x) => ObjectDigest::from_wire(x)?,
                };
                let owner = match &e.owner {
                    None => return Err(TryFromProtoError::missing("owner")),
                    Some(x) => Owner::from_wire(x)?,
                };
                Ok(ObjectIn::Exist { version: e.version, digest, owner })
            },
        }
    }

    pub proof fn lemma_wire_round_trip()
        ensures
            forall|d: Self, w: wire::InputState| #[trigger] d.carried_by(w) ==> Self::wire_error(w) is None,
    {
        ObjectDigest::lemma_wire_round_trip();
        Owner::lemma_wire_round_trip();
    }
}

impl ObjectOut {
    pub open spec fn carried_by(self, w: wire::OutputState) -> bool {
        match (self, w) {
            (ObjectOut::NotExist, wire::OutputState::Removed(_)) => true,
            (ObjectOut::ObjectWrite { digest, owner }, wire::OutputState::ObjectWrite(o)) => {
                &&& o.digest matches Some(x) && digest.carried_by(x)
                &&& o.owner matches Some(x) && owner.carried_by(x)
            },
            (ObjectOut::PackageWrite { version, digest }, wire::OutputState::PackageWrite(p)) => {
                &&& p.version == version
                &&& p.digest matches Some(x) && digest.carried_by(x)
            },
            _ => false,
        }
    }

    pub open spec fn wire_error(w: wire::OutputState) -> Option<ConversionFailure> {
        match w {
            wire::OutputState::Removed(_) => None,
            wire::OutputState::ObjectWrite(o) => either(
                required(o.digest, "digest", |x| ObjectDigest::wire_error(x)),
                required(o.owner, "owner", |x| Owner::wire_error(x)),
            ),
            wire::OutputState::PackageWrite(p) => required(
                p.digest,
                "digest",
                |x| ObjectDigest::wire_error(x),
            ),
        }
    }

    pub fn to_wire(&self) -> (w: wire::OutputState)
        ensures
            self.carried_by(w),
    {
        match self {
            ObjectOut::NotExist => wire::OutputState::Removed(wire::Empty {}),
            ObjectOut::ObjectWrite { digest, owner } => wire::OutputState::ObjectWrite(
                wire::ObjectWrite { digest: Some(digest.to_wire()), owner: Some(owner.to_wire()) },
            ),
            ObjectOut::PackageWrite { version, digest } => wire::OutputState::PackageWrite(
                wire::PackageWrite { version: *version, digest: Some(digest.to_wire()) },
            ),
        }
    }

    pub fn from_wire(w: &wire::OutputState) -> (r: Result<Self, TryFromProtoError>)
        ensures
            match r {
                Ok(d) => Self::wire_error(*w) is None && d.carried_by(*w),
                Err(e) => Self::wire_error(*w) == Some(e@),
            },
    {
        match w {
            wire::OutputState::Removed(_) => Ok(ObjectOut::NotExist),
            wire::OutputState::ObjectWrite(o) => {
                let digest = match &o.digest {
                    None => return Err(TryFromProtoError::missing("digest")),
                    Some(x) => ObjectDigest::from_wire(x)?,
                };
                let owner = match &o.owner {
                    None => return Err(TryFromProtoError::missing("owner")),
                    Some(x) => Owner::from_wire(x)?,
                };
                Ok(ObjectOut::ObjectWrite { digest, owner })
            },
            wire::OutputState::PackageWrite(p) => {
                let digest = match &p.digest {
                    None => return Err(TryFromProtoError::missing("digest")),
                    Some(x) => ObjectDigest::from_wire(x)?,
                };
                Ok(ObjectOut::PackageWrite { version: p.version, digest })
            },
        }
    }

    pub proof fn lemma_wire_round_trip()
        ensures
            forall|d: Self, w: wire::OutputState| #[trigger] d.carried_by(w) ==> Self::wire_error(w) is None,
    {
        ObjectDigest::lemma_wire_round_trip();
        Owner::lemma_wire_round_trip();
    }
}

/// The wire enumeration that a bare integer stands for: zero and unknown
/// values read as `Unknown`.
pub open spec fn id_operation_of_code(code: i32) -> wire::IdOperation {
    if code == 1 {
        wire::IdOperation::NoOperation
    } else if code == 2 {
        wire::IdOperation::Created
    } else if code == 3 {
        wire::IdOperation::Deleted
    } else {
        wire::IdOperation::Unknown
    }
}

/// The integer that stands for a wire enumeration value.
pub open spec fn code_of_id_operation(op: wire::IdOperation) -> i32 {
    match op {
        wire::IdOperation::Unknown => 0,
        wire::IdOperation::NoOperation => 1,
        wire::IdOperation::Created => 2,
        wire::IdOperation::Deleted => 3,
    }
}

pub fn id_operation_from_code(code: i32) -> (op: wire::IdOperation)
    ensures
        op == id_operation_of_code(code),
{
    if code == 1 {
        wire::IdOperation::NoOperation
    } else if code == 2 {
        wire::IdOperation::Created
    } else if code == 3 {
        wire::IdOperation::Deleted
    } else {
        wire::IdOperation::Unknown
    }
}

pub fn id_operation_code(op: wire::IdOperation) -> (code: i32)
    ensures
        code == code_of_id_operation(op),
{
    match op {
        wire::IdOperation::Unknown => 0,
        wire::IdOperation::NoOperation => 1,
        wire::IdOperation::Created => 2,
        wire::IdOperation::Deleted => 3,
    }
}

impl IdOperation {
    pub open spec fn carried_by(self, w: wire::IdOperation) -> bool {
        match self {
            IdOperation::NoOperation => w == wire::IdOperation::NoOperation,
            IdOperation::Created => w == wire::IdOperation::Created,
            IdOperation::Deleted => w == wire::IdOperation::Deleted,
        }
    }

    /// The reserved `Unknown` value is rejected.
    pub open spec fn wire_error(w: wire::IdOperation) -> Option<ConversionFailure> {
        if w == wire::IdOperation::Unknown {
            missing("unknown id operation")
        } else {
            None
        }
    }

    pub fn to_wire(&self) -> (w: wire::IdOperation)
        ensures
            self.carried_by(w),
    {
        match self {
            IdOperation::NoOperation => wire::IdOperation::NoOperation,
            IdOperation::Created => wire::IdOperation::Created,
            IdOperation::Deleted => wire::IdOperation::Deleted,
        }
    }

    pub fn from_wire(w: wire::IdOperation) -> (r: Result<Self, TryFromProtoError>)
        ensures
            match r {
                Ok(d) => Self::wire_error(w) is None && d.carried_by(w),
                Err(e) => Self::wire_error(w) == Some(e@),
            },
    {
        match w {
            wire::IdOperation::Unknown => Err(TryFromProtoError::missing("unknown id operation")),
            wire::IdOperation::NoOperation => Ok(IdOperation::NoOperation),
            wire::IdOperation::Created => Ok(IdOperation::Created),
            wire::IdOperation::Deleted => Ok(IdOperation::Deleted),
        }
    }
}

impl ChangedObject {
    pub open spec fn carried_by(self, w: wire::ChangedObject) -> bool {
        &&& w.object_id matches Some(x) && self.object_id.carried_by(x)
        &&& w.input_state matches Some(x) && self.change.input_state.carried_by(x)
        &&& w.output_state matches Some(x) && self.change.output_state.carried_by(x)
        &&& self.change.id_operation.carried_by(id_operation_of_code(w.id_operation))
    }

    pub open spec fn wire_error(w: wire::ChangedObject) -> Option<ConversionFailure> {
        either(
            required(w.object_id, "object_id", |x| ObjectId::wire_error(x)),
            either(
                required(w.input_state, "input_state", |x| ObjectIn::wire_error(x)),
                either(
                    required(w.output_state, "output_state", |x| ObjectOut::wire_error(x)),
                    IdOperation::wire_error(id_operation_of_code(w.id_operation)),
                ),
            ),
        )
    }

    pub fn to_wire(&self) -> (w: wire::ChangedObject)
        ensures
            self.carried_by(w),
    {
        let op = self.change.id_operation.to_wire();
        wire::ChangedObject {
            object_id: Some(self.object_id.to_wire()),
            input_state: Some(self.change.input_state.to_wire()),
            output_state: Some(self.change.output_state.to_wire()),
            id_operation: id_operation_code(op),
        }
    }

    pub fn from_wire(w: &wire::ChangedObject) -> (r: Result<Self, TryFromProtoError>)
        ensures
            match r {
                Ok(d) => Self::wire_error(*w) is None && d.carried_by(*w),
                Err(e) => Self::wire_error(*w) == Some(e@),
            },
    {
        let object_id = match &w.object_id {
            None => return Err(TryFromProtoError::missing("object_id")),
            Some(x) => ObjectId::from_wire(x)?,
        };
        let input_state = match &w.input_state {
            None => return Err(TryFromProtoError::missing("input_state")),
            Some(x) => ObjectIn::from_wire(x)?,
        };
        let output_state = match &w.output_state {
            None => return Err(TryFromProtoError::missing("output_state")),
            Some(x) => ObjectOut::from_wire(x)?,
        };
        let id_operation = IdOperation::from_wire(id_operation_from_code(w.id_operation))?;
        Ok(ChangedObject {
            object_id,
            change: EffectsObjectChange { input_state, output_state, id_operation },
        })
    }

    pub proof fn lemma_wire_round_trip()
        ensures
            forall|d: Self, w: wire::ChangedObject| #[trigger] d.carried_by(w) ==> Self::wire_error(w) is None,
    {
        ObjectId::lemma_wire_round_trip();
        ObjectIn::lemma_wire_round_trip();
        ObjectOut::lemma_wire_round_trip();
    }
}

impl UnchangedSharedKind {
    pub open spec fn carried_by(self, w: wire::UnchangedSharedKind) -> bool {
        match (self, w) {
            (
                UnchangedSharedKind::ReadOnlyRoot { version, digest },
                wire::UnchangedSharedKind::ReadOnlyRoot(r),
            ) => r.version == version && (r.digest matches Some(x) && digest.carried_by(x)),
            (
                UnchangedSharedKind::MutateDeleted { version },
                wire::UnchangedSharedKind::MutateDeleted(v),
            ) => v == version,
            (
                UnchangedSharedKind::ReadDeleted { version },
                wire::UnchangedSharedKind::ReadDeleted(v),
            ) => v == version,
            (UnchangedSharedKind::Cancelled { version }, wire::UnchangedSharedKind::Cancelled(v)) => v
                == version,
            (UnchangedSharedKind::PerEpochConfig, wire::UnchangedSharedKind::PerEpochConfig(_)) => true,
            _ => false,
        }
    }

    pub open spec fn wire_error(w: wire::UnchangedSharedKind) -> Option<ConversionFailure> {
        match w {
            wire::UnchangedSharedKind::ReadOnlyRoot(r) => required(
                r.digest,
                "digest",
                |x| ObjectDigest::wire_error(x),
            ),
            _ => None,
        }
    }

    pub fn to_wire(&self) -> (w: wire::UnchangedSharedKind)
        ensures
            self.carried_by(w),
    {
        match self {
            UnchangedSharedKind::ReadOnlyRoot { version, digest } => wire::UnchangedSharedKind::ReadOnlyRoot(
                wire::ReadOnlyRoot { version: *version, digest: Some(digest.to_wire()) },
            ),
            UnchangedSharedKind::MutateDeleted { version } => wire::UnchangedSharedKind::MutateDeleted(
                *version,
            ),
            UnchangedSharedKind::ReadDeleted { version } => wire::UnchangedSharedKind::ReadDeleted(
                *version,
            ),
            UnchangedSharedKind::Cancelled { version } => wire::UnchangedSharedKind::Cancelled(
                *version,
            ),
            UnchangedSharedKind::PerEpochConfig => wire::UnchangedSharedKind::PerEpochConfig(
                wire::Empty {},
            ),
        }
    }

    pub fn from_wire(w: &wire::UnchangedSharedKind) -> (r: Result<Self, TryFromProtoError>)
        ensures
            match r {
                Ok(d) => Self::wire_error(*w) is None && d.carried_by(*w),
                Err(e) => Self::wire_error(*w) == Some(e@),
            },
    {
        match w {
            wire::UnchangedSharedKind::ReadOnlyRoot(r) => {
                let digest = match &r.digest {
                    None => return Err(TryFromProtoError::missing("digest")),
                    Some(x) => ObjectDigest::from_wire(x)?,
                };
                Ok(UnchangedSharedKind::ReadOnlyRoot { version: r.version, digest })
            },
            wire::UnchangedSharedKind::MutateDeleted(v) => Ok(
                UnchangedSharedKind::MutateDeleted { version: *v },
            ),
            wire::UnchangedSharedKind::ReadDeleted(v) => Ok(
                UnchangedSharedKind::ReadDeleted { version: *v },
            ),
            wire::UnchangedSharedKind::Cancelled(v) => Ok(
                UnchangedSharedKind::Cancelled { version: *v },
            ),
            wire::UnchangedSharedKind::PerEpochConfig(_) => Ok(UnchangedSharedKind::PerEpochConfig),
        }
    }

    pub proof fn lemma_wire_round_trip()
        ensures
            forall|d: Self, w: wire::UnchangedSharedKind| #[trigger] d.carried_by(w) ==> Self::wire_error(w) is None,
    {
        ObjectDigest::lemma_wire_round_trip();
    }
}

impl UnchangedSharedObject {
    pub open spec fn carried_by(self, w: wire::UnchangedSharedObject) -> bool {
        &&& w.object_id matches Some(x) && self.object_id.carried_by(x)
        &&& w.kind matches Some(x) && self.kind.carried_by(x)
    }

    pub open spec fn wire_error(w: wire::UnchangedSharedObject) -> Option<ConversionFailure> {
        either(
            required(w.object_id, "object_id", |x| ObjectId::wire_error(x)),
            required(w.kind, "kind", |x| UnchangedSharedKind::wire_error(x)),
        )
    }

    pub fn to_wire(&self) -> (w: wire::UnchangedSharedObject)
        ensures
            self.carried_by(w),
    {
        wire::UnchangedSharedObject {
            object_id: Some(self.object_id.to_wire()),
            kind: Some(self.kind.to_wire()),
        }
    }

    pub fn from_wire(w: &wire::UnchangedSharedObject) -> (r: Result<Self, TryFromProtoError>)
        ensures
            match r {
                Ok(d) => Self::wire_error(*w) is None && d.carried_by(*w),
                Err(e) => Self::wire_error(*w) == Some(e@),
            },
    {
        let object_id = match &w.object_id {
            None => return Err(TryFromProtoError::missing("object_id")),
            Some(x) => ObjectId::from_wire(x)?,
        };
        let kind = match &w.kind {
            None => return Err(TryFromProtoError::missing("kind")),
            Some(x) => UnchangedSharedKind::from_wire(x)?,
        };
        Ok(UnchangedSharedObject { object_id, kind })
    }

    pub proof fn lemma_wire_round_trip()
        ensures
            forall|d: Self, w: wire::UnchangedSharedObject| #[trigger] d.carried_by(w) ==> Self::wire_error(w) is None,
    {
        ObjectId::lemma_wire_round_trip();
        UnchangedSharedKind::lemma_wire_round_trip();
    }
}

impl TransactionEffectsV1 {
    pub open spec fn carried_by(self, w: wire::TransactionEffectsV1) -> bool {
        &&& w.status matches Some(x) && self.status.carried_by(x)
        &&& w.epoch == self.epoch
        &&& w.gas_used matches Some(x) && self.gas_used.carried_by(x)
        &&& all_carried(
            self.modified_at_versions@,
            w.modified_at_versions@,
            |d: ModifiedAtVersion, x: wire::ModifiedAtVersion| d.carried_by(x),
        )
        &&& all_carried(
            self.shared_objects@,
            w.shared_objects@,
            |d: ObjectReference, x: wire::ObjectReference| d.carried_by(x),
        )
        &&& w.transaction_digest matches Some(x) && self.transaction_digest.carried_by(x)
        &&& all_carried(
            self.created@,
            w.created@,
            |d: ObjectReferenceWithOwner, x: wire::ObjectReferenceWithOwner| d.carried_by(x),
        )
        &&& all_carried(
            self.mutated@,
            w.mutated@,
            |d: ObjectReferenceWithOwner, x: wire::ObjectReferenceWithOwner| d.carried_by(x),
        )
        &&& all_carried(
            self.unwrapped@,
            w.unwrapped@,
            |d: ObjectReferenceWithOwner, x: wire::ObjectReferenceWithOwner| d.carried_by(x),
        )
        &&& all_carried(
            self.deleted@,
            w.deleted@,
            |d: ObjectReference, x: wire::ObjectReference| d.carried_by(x),
        )
        &&& all_carried(
            self.unwrapped_then_deleted@,
            w.unwrapped_then_deleted@,
            |d: ObjectReference, x: wire::ObjectReference| d.carried_by(x),
        )
        &&& all_carried(
            self.wrapped@,
            w.wrapped@,
            |d: ObjectReference, x: wire::ObjectReference| d.carried_by(x),
        )
        &&& w.gas_object matches Some(x) && self.gas_object.carried_by(x)
        &&& match (self.events_digest, w.events_digest) {
            (None, None) => true,
            (Some(d), Some(x)) => d.carried_by(x),
            _ => false,
        }
        &&& all_carried(
            self.dependencies@,
            w.dependencies@,
            |d: TransactionDigest, x: wire::Digest| d.carried_by(x),
        )
    }

    /// The first failure, checking the fields in order.
    pub open spec fn wire_error(w: wire::TransactionEffectsV1) -> Option<ConversionFailure> {
        either(
            required(w.status, "status", |x| ExecutionStatus::wire_error(x)),
            either(
                required(w.gas_used, "gas_used", |x| GasCostSummary::wire_error(x)),
                either(
                    required(w.transaction_digest, "transaction_digest", |x| TransactionDigest::wire_error(x)),
                    either(
                        first_error(w.modified_at_versions@, |x| ModifiedAtVersion::wire_error(x)),
                        either(
                            first_error(w.shared_objects@, |x| ObjectReference::wire_error(x)),
                            either(
                                first_error(w.created@, |x| ObjectReferenceWithOwner::wire_error(x)),
                                either(
                                    first_error(w.mutated@, |x| ObjectReferenceWithOwner::wire_error(x)),
                                    either(
                                        first_error(w.unwrapped@, |x| ObjectReferenceWithOwner::wire_error(x)),
                                        either(
                                            first_error(w.deleted@, |x| ObjectReference::wire_error(x)),
                                            either(
                                                first_error(w.unwrapped_then_deleted@, |x| ObjectReference::wire_error(x)),
                                                either(
                                                    first_error(w.wrapped@, |x| ObjectReference::wire_error(x)),
                                                    either(
                                                        required(w.gas_object, "gas_object", |x| ObjectReferenceWithOwner::wire_error(x)),
                                                        either(
                                                            optional(w.events_digest, |x| TransactionEventsDigest::wire_error(x)),
                                                            first_error(w.dependencies@, |x| TransactionDigest::wire_error(x)),
                                                        ),
                                                    ),
                                                ),
                                            ),
                                        ),
                                    ),
                                ),
                            ),
                        ),
                    ),
                ),
            ),
        )
    }

    pub fn to_wire(&self) -> (w: wire::TransactionEffectsV1)
        ensures
            self.carried_by(w),
    {
        wire::TransactionEffectsV1 {
            status: Some(self.status.to_wire()),
            epoch: self.epoch,
            gas_used: Some(self.gas_used.to_wire()),
            modified_at_versions: map_to_wire(
                &self.modified_at_versions,
                ModifiedAtVersion::to_wire,
                Ghost(|d: ModifiedAtVersion, x: wire::ModifiedAtVersion| d.carried_by(x)),
            ),
            shared_objects: map_to_wire(
                &self.shared_objects,
                ObjectReference::to_wire,
                Ghost(|d: ObjectReference, x: wire::ObjectReference| d.carried_by(x)),
            ),
            transaction_digest: Some(self.transaction_digest.to_wire()),
            created: map_to_wire(
                &self.created,
                ObjectReferenceWithOwner::to_wire,
                Ghost(|d: ObjectReferenceWithOwner, x: wire::ObjectReferenceWithOwner| d.carried_by(x)),
            ),
            mutated: map_to_wire(
                &self.mutated,
                ObjectReferenceWithOwner::to_wire,
                Ghost(|d: ObjectReferenceWithOwner, x: wire::ObjectReferenceWithOwner| d.carried_by(x)),
            ),
            unwrapped: map_to_wire(
                &self.unwrapped,
                ObjectReferenceWithOwner::to_wire,
                Ghost(|d: ObjectReferenceWithOwner, x: wire::ObjectReferenceWithOwner| d.carried_by(x)),
            ),
            deleted: map_to_wire(
                &self.deleted,
                ObjectReference::to_wire,
                Ghost(|d: ObjectReference, x: wire::ObjectReference| d.carried_by(x)),
            ),
            unwrapped_then_deleted: map_to_wire(
                &self.unwrapped_then_deleted,
                ObjectReference::to_wire,
                Ghost(|d: ObjectReference, x: wire::ObjectReference| d.carried_by(x)),
            ),
            wrapped: map_to_wire(
                &self.wrapped,
                ObjectReference::to_wire,
                Ghost(|d: ObjectReference, x: wire::ObjectReference| d.carried_by(x)),
            ),
            gas_object: Some(self.gas_object.to_wire()),
            events_digest: match &self.events_digest {
                None => None,
                Some(d) => Some(d.to_wire()),
            },
            dependencies: map_to_wire(
                &self.dependencies,
                TransactionDigest::to_wire,
                Ghost(|d: TransactionDigest, x: wire::Digest| d.carried_by(x)),
            ),
        }
    }

    pub fn from_wire(w: &wire::TransactionEffectsV1) -> (r: Result<Self, TryFromProtoError>)
        ensures
            match r {
                Ok(d) => Self::wire_error(*w) is None && d.carried_by(*w),
                Err(e) => Self::wire_error(*w) == Some(e@),
            },
    {
        let status = match &w.status {
            None => return Err(TryFromProtoError::missing("status")),
            Some(x) => ExecutionStatus::from_wire(x)?,
        };
        let gas_used = match &w.gas_used {
            None => return Err(TryFromProtoError::missing("gas_used")),
            Some(x) => GasCostSummary::from_wire(x)?,
        };
        let transaction_digest = match &w.transaction_digest {
            None => return Err(TryFromProtoError::missing("transaction_digest")),
            Some(x) => TransactionDigest::from_wire(x)?,
        };
        let modified_at_versions = try_map_from_wire(
            &w.modified_at_versions,
            ModifiedAtVersion::from_wire,
            Ghost(|x| ModifiedAtVersion::wire_error(x)),
            Ghost(|d: ModifiedAtVersion, x: wire::ModifiedAtVersion| d.carried_by(x)),
        )?;
        let shared_objects = try_map_from_wire(
            &w.shared_objects,
            ObjectReference::from_wire,
            Ghost(|x| ObjectReference::wire_error(x)),
            Ghost(|d: ObjectReference, x: wire::ObjectReference| d.carried_by(x)),
        )?;
        let created = try_map_from_wire(
            &w.created,
            ObjectReferenceWithOwner::from_wire,
            Ghost(|x| ObjectReferenceWithOwner::wire_error(x)),
            Ghost(|d: ObjectReferenceWithOwner, x: wire::ObjectReferenceWithOwner| d.carried_by(x)),
        )?;
        let mutated = try_map_from_wire(
            &w.mutated,
            ObjectReferenceWithOwner::from_wire,
            Ghost(|x| ObjectReferenceWithOwner::wire_error(x)),
            Ghost(|d: ObjectReferenceWithOwner, x: wire::ObjectReferenceWithOwner| d.carried_by(x)),
        )?;
        let unwrapped = try_map_from_wire(
            &w.unwrapped,
            ObjectReferenceWithOwner::from_wire,
            Ghost(|x| ObjectReferenceWithOwner::wire_error(x)),
            Ghost(|d: ObjectReferenceWithOwner, x: wire::ObjectReferenceWithOwner| d.carried_by(x)),
        )?;
        let deleted = try_map_from_wire(
            &w.deleted,
            ObjectReference::from_wire,
            Ghost(|x| ObjectReference::wire_error(x)),
            Ghost(|d: ObjectReference, x: wire::ObjectReference| d.carried_by(x)),
        )?;
        let unwrapped_then_deleted = try_map_from_wire(
            &w.unwrapped_then_deleted,
            ObjectReference::from_wire,
            Ghost(|x| ObjectReference::wire_error(x)),
            Ghost(|d: ObjectReference, x: wire::ObjectReference| d.carried_by(x)),
        )?;
        let wrapped = try_map_from_wire(
            &w.wrapped,
            ObjectReference::from_wire,
            Ghost(|x| ObjectReference::wire_error(x)),
            Ghost(|d: ObjectReference, x: wire::ObjectReference| d.carried_by(x)),
        )?;
        let gas_object = match &w.gas_object {
            None => return Err(TryFromProtoError::missing("gas_object")),
            Some(x) => ObjectReferenceWithOwner::from_wire(x)?,
        };
        let events_digest = match &w.events_digest {
            None => None,
            Some(x) => Some(TransactionEventsDigest::from_wire(x)?),
        };
        let dependencies = try_map_from_wire(
            &w.dependencies,
            TransactionDigest::from_wire,
            Ghost(|x| TransactionDigest::wire_error(x)),
            Ghost(|d: TransactionDigest, x: wire::Digest| d.carried_by(x)),
        )?;
        Ok(TransactionEffectsV1 {
            status,
            epoch: w.epoch,
            gas_used,
            modified_at_versions,
            shared_objects,
            transaction_digest,
            created,
            mutated,
            unwrapped,
            deleted,
            unwrapped_then_deleted,
            wrapped,
            gas_object,
            events_digest,
            dependencies,
        })
    }

    pub proof fn lemma_wire_round_trip()
        ensures
            forall|d: Self, w: wire::TransactionEffectsV1| #[trigger] d.carried_by(w) ==> Self::wire_error(w) is None,
    {
        ExecutionStatus::lemma_wire_round_trip();
        TransactionDigest::lemma_wire_round_trip();
        TransactionEventsDigest::lemma_wire_round_trip();
        ModifiedAtVersion::lemma_wire_round_trip();
        ObjectReference::lemma_wire_round_trip();
        ObjectReferenceWithOwner::lemma_wire_round_trip();
        assert forall|d: Self, w: wire::TransactionEffectsV1| #[trigger] d.carried_by(w) implies Self::wire_error(w) is None by {
            lemma_carried_has_no_error(
                d.modified_at_versions@,
                w.modified_at_versions@,
                |d: ModifiedAtVersion, x: wire::ModifiedAtVersion| d.carried_by(x),
                |x| ModifiedAtVersion::wire_error(x),
            );
            lemma_carried_has_no_error(
                d.shared_objects@,
                w.shared_objects@,
                |d: ObjectReference, x: wire::ObjectReference| d.carried_by(x),
                |x| ObjectReference::wire_error(x),
            );
            lemma_carried_has_no_error(
                d.created@,
                w.created@,
                |d: ObjectReferenceWithOwner, x: wire::ObjectReferenceWithOwner| d.carried_by(x),
                |x| ObjectReferenceWithOwner::wire_error(x),
            );
            lemma_carried_has_no_error(
                d.mutated@,
                w.mutated@,
                |d: ObjectReferenceWithOwner, x: wire::ObjectReferenceWithOwner| d.carried_by(x),
                |x| ObjectReferenceWithOwner::wire_error(x),
            );
            lemma_carried_has_no_error(
                d.unwrapped@,
                w.unwrapped@,
                |d: ObjectReferenceWithOwner, x: wire::ObjectReferenceWithOwner| d.carried_by(x),
                |x| ObjectReferenceWithOwner::wire_error(x),
            );
            lemma_carried_has_no_error(
                d.deleted@,
                w.deleted@,
                |d: ObjectReference, x: wire::ObjectReference| d.carried_by(x),
                |x| ObjectReference::wire_error(x),
            );
            lemma_carried_has_no_error(
                d.unwrapped_then_deleted@,
                w.unwrapped_then_deleted@,
                |d: ObjectReference, x: wire::ObjectReference| d.carried_by(x),
                |x| ObjectReference::wire_error(x),
            );
            lemma_carried_has_no_error(
                d.wrapped@,
                w.wrapped@,
                |d: ObjectReference, x: wire::ObjectReference| d.carried_by(x),
                |x| ObjectReference::wire_error(x),
            );
            lemma_carried_has_no_error(
                d.dependencies@,
                w.dependencies@,
                |d: TransactionDigest, x: wire::Digest| d.carried_by(x),
                |x| TransactionDigest::wire_error(x),
            );
        }
    }
}

impl TransactionEffectsV2 {
    pub open spec fn carried_by(self, w: wire::TransactionEffectsV2) -> bool {
        &&& w.status matches Some(x) && self.status.carried_by(x)
        &&& w.epoch == self.epoch
        &&& w.gas_used matches Some(x) && self.gas_used.carried_by(x)
        &&& w.transaction_digest matches Some(x) && self.transaction_digest.carried_by(x)
        &&& w.gas_object_index == self.gas_object_index
        &&& match (self.events_digest, w.events_digest) {
            (None, None) => true,
            (Some(d), Some(x)) => d.carried_by(x),
            _ => false,
        }
        &&& all_carried(
            self.dependencies@,
            w.dependencies@,
            |d: TransactionDigest, x: wire::Digest| d.carried_by(x),
        )
        &&& w.lamport_version == self.lamport_version
        &&& all_carried(
            self.changed_objects@,
            w.changed_objects@,
            |d: ChangedObject, x: wire::ChangedObject| d.carried_by(x),
        )
        &&& all_carried(
            self.unchanged_shared_objects@,
            w.unchanged_shared_objects@,
            |d: UnchangedSharedObject, x: wire::UnchangedSharedObject| d.carried_by(x),
        )
        &&& match (self.auxiliary_data_digest, w.auxiliary_data_digest) {
            (None, None) => true,
            (Some(d), Some(x)) => d.carried_by(x),
            _ => false,
        }
    }

    /// The first failure, checking the fields in order.
    pub open spec fn wire_error(w: wire::TransactionEffectsV2) -> Option<ConversionFailure> {
        either(
            required(w.status, "status", |x| ExecutionStatus::wire_error(x)),
            either(
                required(w.gas_used, "gas_used", |x| GasCostSummary::wire_error(x)),
                either(
                    required(w.transaction_digest, "transaction_digest", |x| TransactionDigest::wire_error(x)),
                    either(
                        optional(w.events_digest, |x| TransactionEventsDigest::wire_error(x)),
                        either(
                            first_error(w.dependencies@, |x| TransactionDigest::wire_error(x)),
                            either(
                                first_error(w.changed_objects@, |x| ChangedObject::wire_error(x)),
                                either(
                                    first_error(w.unchanged_shared_objects@, |x| UnchangedSharedObject::wire_error(x)),
                                    optional(w.auxiliary_data_digest, |x| EffectsAuxiliaryDataDigest::wire_error(x)),
                                ),
                            ),
                        ),
                    ),
                ),
            ),
        )
    }

    pub fn to_wire(&self) -> (w: wire::TransactionEffectsV2)
        ensures
            self.carried_by(w),
    {
        wire::TransactionEffectsV2 {
            status: Some(self.status.to_wire()),
            epoch: self.epoch,
            gas_used: Some(self.gas_used.to_wire()),
            transaction_digest: Some(self.transaction_digest.to_wire()),
            gas_object_index: self.gas_object_index,
            events_digest: match &self.events_digest {
                None => None,
                Some(d) => Some(d.to_wire()),
            },
            dependencies: map_to_wire(
                &self.dependencies,
                TransactionDigest::to_wire,
                Ghost(|d: TransactionDigest, x: wire::Digest| d.carried_by(x)),
            ),
            lamport_version: self.lamport_version,
            changed_objects: map_to_wire(
                &self.changed_objects,
                ChangedObject::to_wire,
                Ghost(|d: ChangedObject, x: wire::ChangedObject| d.carried_by(x)),
            ),
            unchanged_shared_objects: map_to_wire(
                &self.unchanged_shared_objects,
                UnchangedSharedObject::to_wire,
                Ghost(|d: UnchangedSharedObject, x: wire::UnchangedSharedObject| d.carried_by(x)),
            ),
            auxiliary_data_digest: match &self.auxiliary_data_digest {
                None => None,
                Some(d) => Some(d.to_wire()),
            },
        }
    }

    pub fn from_wire(w: &wire::TransactionEffectsV2) -> (r: Result<Self, TryFromProtoError>)
        ensures
            match r {
                Ok(d) => Self::wire_error(*w) is None && d.carried_by(*w),
                Err(e) => Self::wire_error(*w) == Some(e@),
            },
    {
        let status = match &w.status {
            None => return Err(TryFromProtoError::missing("status")),
            Some(x) => ExecutionStatus::from_wire(x)?,
        };
        let gas_used = match &w.gas_used {
            None => return Err(TryFromProtoError::missing("gas_used")),
            Some(x) => GasCostSummary::from_wire(x)?,
        };
        let transaction_digest = match &w.transaction_digest {
            None => return Err(TryFromProtoError::missing("transaction_digest")),
            Some(x) => TransactionDigest::from_wire(x)?,
        };
        let events_digest = match &w.events_digest {
            None => None,
            Some(x) => Some(TransactionEventsDigest::from_wire(x)?),
        };
        let dependencies = try_map_from_wire(
            &w.dependencies,
            TransactionDigest::from_wire,
            Ghost(|x| TransactionDigest::wire_error(x)),
            Ghost(|d: TransactionDigest, x: wire::Digest| d.carried_by(x)),
        )?;
        let changed_objects = try_map_from_wire(
            &w.changed_objects,
            ChangedObject::from_wire,
            Ghost(|x| ChangedObject::wire_error(x)),
            Ghost(|d: ChangedObject, x: wire::ChangedObject| d.carried_by(x)),
        )?;
        let unchanged_shared_objects = try_map_from_wire(
            &w.unchanged_shared_objects,
            UnchangedSharedObject::from_wire,
            Ghost(|x| UnchangedSharedObject::wire_error(x)),
            Ghost(|d: UnchangedSharedObject, x: wire::UnchangedSharedObject| d.carried_by(x)),
        )?;
        let auxiliary_data_digest = match &w.auxiliary_data_digest {
            None => None,
            Some(x) => Some(EffectsAuxiliaryDataDigest::from_wire(x)?),
        };
        Ok(TransactionEffectsV2 { status, epoch: w.epoch, gas_used, transaction_digest, gas_object_index: w.gas_object_index, events_digest, dependencies, lamport_version: w.lamport_version, changed_objects, unchanged_shared_objects, auxiliary_data_digest })
    }

    /// The wire form reads back without error.
    pub proof fn lemma_wire_round_trip()
        ensures
            forall|d: Self, w: wire::TransactionEffectsV2| #[trigger] d.carried_by(w) ==> Self::wire_error(w) is None,
    {
        ChangedObject::lemma_wire_round_trip();
        EffectsAuxiliaryDataDigest::lemma_wire_round_trip();
        ExecutionStatus::lemma_wire_round_trip();
        GasCostSummary::lemma_wire_round_trip();
        TransactionDigest::lemma_wire_round_trip();
        TransactionEventsDigest::lemma_wire_round_trip();
        UnchangedSharedObject::lemma_wire_round_trip();
        assert forall|d: Self, w: wire::TransactionEffectsV2| #[trigger] d.carried_by(w) implies Self::wire_error(w) is None by {
            lemma_carried_has_no_error(
                d.dependencies@,
                w.dependencies@,
                |d: TransactionDigest, x: wire::Digest| d.carried_by(x),
                |x| TransactionDigest::wire_error(x),
            );
            lemma_carried_has_no_error(
                d.changed_objects@,
                w.changed_objects@,
                |d: ChangedObject, x: wire::ChangedObject| d.carried_by(x),
                |x| ChangedObject::wire_error(x),
            );
            lemma_carried_has_no_error(
                d.unchanged_shared_objects@,
                w.unchanged_shared_objects@,
                |d: UnchangedSharedObject, x: wire::UnchangedSharedObject| d.carried_by(x),
                |x| UnchangedSharedObject::wire_error(x),
            );
        }
    }
}

impl TransactionEffects {
    pub open spec fn carried_by(self, w: wire::TransactionEffects) -> bool {
        match (self, w.version) {
            (TransactionEffects::V1(d), Some(wire::EffectsVersion::V1(x))) => (*d).carried_by(x),
            (TransactionEffects::V2(d), Some(wire::EffectsVersion::V2(x))) => (*d).carried_by(x),
            _ => false,
        }
    }

    pub open spec fn wire_error(w: wire::TransactionEffects) -> Option<ConversionFailure> {
        match w.version {
            None => missing("version"),
            Some(wire::EffectsVersion::V1(x)) => TransactionEffectsV1::wire_error(x),
            Some(wire::EffectsVersion::V2(x)) => TransactionEffectsV2::wire_error(x),
        }
    }

    pub fn to_wire(&self) -> (w: wire::TransactionEffects)
        ensures
            self.carried_by(w),
    {
        let version = match self {
            TransactionEffects::V1(d) => wire::EffectsVersion::V1(d.to_wire()),
            TransactionEffects::V2(d) => wire::EffectsVersion::V2(d.to_wire()),
        };
        wire::TransactionEffects { version: Some(version) }
    }

    pub fn from_wire(w: &wire::TransactionEffects) -> (r: Result<Self, TryFromProtoError>)
        ensures
            match r {
                Ok(d) => Self::wire_error(*w) is None && d.carried_by(*w),
                Err(e) => Self::wire_error(*w) == Some(e@),
            },
    {
        match &w.version {
            None => Err(TryFromProtoError::missing("version")),
            Some(wire::EffectsVersion::V1(x)) => Ok(
                TransactionEffects::V1(Box::new(TransactionEffectsV1::from_wire(x)?)),
            ),
            Some(wire::EffectsVersion::V2(x)) => Ok(
                TransactionEffects::V2(Box::new(TransactionEffectsV2::from_wire(x)?)),
            ),
        }
    }

    pub proof fn lemma_wire_round_trip()
        ensures
            forall|d: Self, w: wire::TransactionEffects| #[trigger] d.carried_by(w) ==> Self::wire_error(w) is None,
    {
        TransactionEffectsV1::lemma_wire_round_trip();
        TransactionEffectsV2::lemma_wire_round_trip();
    }
}

} // verus!
