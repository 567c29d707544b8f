//! Transactions and their kinds, including the system transactions and the
//! three generations of the consensus commit prologue.
use vstd::prelude::*;

use crate::domain::{
    ActiveJwk, Address, AuthenticatorStateExpire, AuthenticatorStateUpdate, CancelledTransaction,
    ChangeEpoch, CheckpointDigest, ConsensusCommitDigest, ConsensusCommitPrologue,
    ConsensusCommitPrologueV2, ConsensusCommitPrologueV3, ConsensusDeterminedVersionAssignments,
    EndOfEpochTransactionKind, GasPayment, GenesisTransaction, Jwk, JwkId, Object, ObjectId,
    ObjectReference, ProgrammableTransaction, RandomnessStateUpdate, SystemPackage, Transaction,
    TransactionDigest, TransactionExpiration, TransactionKind, VersionAssignment,
};
use crate::error::{either, missing, required, ConversionFailure, TryFromProtoError};
use crate::scalar::{
    byte_lists_to_wire, bytes_to_wire, lemma_text_round_trip, lemma_timestamp_exact_is_read,
    proto_to_timestamp_ms, text_carried, text_error, text_from_wire, text_to_wire,
    timestamp_carried, timestamp_error, timestamp_ms_to_proto,
};
use crate::seqs::{
    all_carried, first_error, lemma_all_carried_weaken, lemma_carried_has_no_error, map_to_wire, try_map_from_wire,
};
use crate::wire;

verus! {

impl GasPayment {
    pub open spec fn carried_by(self, w: wire::GasPayment) -> bool {
        &&& all_carried(
            self.objects@,
            w.objects@,
            |d: ObjectReference, x: wire::ObjectReference| d.carried_by(x),
        )
        &&& w.owner matches Some(x) && self.owner.carried_by(x)
        &&& w.price == self.price
        &&& w.budget == self.budget
    }

    /// The first failure, checking the fields in order.
    pub open spec fn wire_error(w: wire::GasPayment) -> Option<ConversionFailure> {
        either(
            first_error(w.objects@, |x| ObjectReference::wire_error(x)),
            required(w.owner, "owner", |x| Address::wire_error(x)),
        )
    }

    pub fn to_wire(&self) -> (w: wire::GasPayment)
        ensures
            self.carried_by(w),
    {
        wire::GasPayment {
            objects: map_to_wire(
                &self.objects,
                ObjectReference::to_wire,
                Ghost(|d: ObjectReference, x: wire::ObjectReference| d.carried_by(x)),
            ),
            owner: Some(self.owner.to_wire()),
            price: self.price,
            budget: self.budget,
        }
    }

    pub fn from_wire(w: &wire::GasPayment) -> (r: Result<Self, TryFromProtoError>)
        ensures
            match r {
                Ok(d) => Self::wire_error(*w) is None && d.carried_by(*w),
                Err(e) => Self::wire_error(*w) == Some(e@),
            },
    {
        let objects = try_map_from_wire(
            &w.objects,
            ObjectReference::from_wire,
            Ghost(|x| ObjectReference::wire_error(x)),
            Ghost(|d: ObjectReference, x: wire::ObjectReference| d.carried_by(x)),
        )?;
        let owner = match &w.owner {
            None => return Err(TryFromProtoError::missing("owner")),
            Some(x) => Address::from_wire(x)?,
        };
        Ok(GasPayment { objects, owner, price: w.price, budget: w.budget })
    }

    /// The wire form reads back without error.
    pub proof fn lemma_wire_round_trip()
        ensures
            forall|d: Self, w: wire::GasPayment| #[trigger] d.carried_by(w) ==> Self::wire_error(w) is None,
    {
        Address::lemma_wire_round_trip();
        ObjectReference::lemma_wire_round_trip();
        assert forall|d: Self, w: wire::GasPayment| #[trigger] d.carried_by(w) implies Self::wire_error(w) is None by {
            lemma_carried_has_no_error(
                d.objects@,
                w.objects@,
                |d: ObjectReference, x: wire::ObjectReference| d.carried_by(x),
                |x| ObjectReference::wire_error(x),
            );
        }
    }
}

impl TransactionExpiration {
    pub open spec fn carried_by(self, w: wire::TransactionExpiration) -> bool {
        match (self, w.expiration) {
            (TransactionExpiration::NoExpiration, Some(wire::Expiration::NoExpiration(_))) => true,
            (TransactionExpiration::Epoch(e), Some(wire::Expiration::Epoch(x))) => x == e,
            _ => false,
        }
    }

    pub open spec fn wire_error(w: wire::TransactionExpiration) -> Option<ConversionFailure> {
        if w.expiration is None {
            missing("expiration")
        } else {
            None
        }
    }

    pub fn to_wire(&self) -> (w: wire::TransactionExpiration)
        ensures
            self.carried_by(w),
    {
        let expiration = match self {
            TransactionExpiration::NoExpiration => wire::Expiration::NoExpiration(wire::Empty {}),
            TransactionExpiration::Epoch(e) => wire::Expiration::Epoch(*e),
        };
        wire::TransactionExpiration { expiration: Some(expiration) }
    }

    pub fn from_wire(w: &wire::TransactionExpiration) -> (r: Result<Self, TryFromProtoError>)
        ensures
            match r {
                Ok(d) => Self::wire_error(*w) is None && d.carried_by(*w),
                Err(e) => Self::wire_error(*w) == Some(e@),
            },
    {
        match &w.expiration {
            None => Err(TryFromProtoError::missing("expiration")),
            Some(wire::Expiration::NoExpiration(_)) => Ok(TransactionExpiration::NoExpiration),
            Some(wire::Expiration::Epoch(e)) => Ok(TransactionExpiration::Epoch(*e)),
        }
    }

    pub proof fn lemma_wire_round_trip()
        ensures
            forall|d: Self, w: wire::TransactionExpiration| #[trigger] d.carried_by(w) ==> Self::wire_error(w) is None,
    {
    }
}

impl ConsensusCommitPrologue {
    /// `w` carries this first-generation prologue. As written, the fields of
    /// later generations are absent; as read, they are ignored.
    pub open spec fn carried_by(self, w: wire::ConsensusCommitPrologue, exact: bool) -> bool {
        &&& w.epoch == self.epoch
        &&& w.round == self.round
        &&& w.commit_timestamp matches Some(t) && timestamp_carried(self.commit_timestamp_ms, t, exact)
        &&& exact ==> w.consensus_commit_digest is None
        &&& exact ==> w.sub_dag_index is None
        &&& exact ==> w.consensus_determined_version_assignments is None
    }

    pub open spec fn wire_error(w: wire::ConsensusCommitPrologue) -> Option<ConversionFailure> {
        required(w.commit_timestamp, "timestamp", |t| timestamp_error(t))
    }

    pub fn to_wire(&self) -> (w: wire::ConsensusCommitPrologue)
        ensures
            self.carried_by(w, true),
    {
        wire::ConsensusCommitPrologue {
            epoch: self.epoch,
            round: self.round,
            commit_timestamp: Some(timestamp_ms_to_proto(self.commit_timestamp_ms)),
            consensus_commit_digest: None,
            sub_dag_index: None,
            consensus_determined_version_assignments: None,
        }
    }

    /// Reads only what the first generation has.
    pub fn from_wire(w: &wire::ConsensusCommitPrologue) -> (r: Result<Self, TryFromProtoError>)
        ensures
            match r {
                Ok(d) => Self::wire_error(*w) is None && d.carried_by(*w, false),
                Err(e) => Self::wire_error(*w) == Some(e@),
            },
    {
        let commit_timestamp_ms = match w.commit_timestamp {
            None => return Err(TryFromProtoError::missing("timestamp")),
            Some(t) => proto_to_timestamp_ms(t)?,
        };
        Ok(ConsensusCommitPrologue { epoch: w.epoch, round: w.round, commit_timestamp_ms })
    }

    pub proof fn lemma_wire_round_trip()
        ensures
            forall|d: Self, w: wire::ConsensusCommitPrologue, exact: bool| #[trigger] d.carried_by(w, exact) ==> Self::wire_error(w) is None,
            forall|d: Self, w: wire::ConsensusCommitPrologue| #[trigger] d.carried_by(w, true) ==> d.carried_by(w, false),
    {
        assert forall|ms: u64, t: wire::Timestamp| #[trigger] timestamp_carried(ms, t, true) implies timestamp_carried(ms, t, false) by {
            lemma_timestamp_exact_is_read(ms, t);
        }
    }
}

impl ConsensusCommitPrologueV2 {
    /// `w` carries this second-generation prologue. As written, the fields of
    /// the third generation are absent; as read, they are ignored.
    pub open spec fn carried_by(self, w: wire::ConsensusCommitPrologue, exact: bool) -> bool {
        &&& w.epoch == self.epoch
        &&& w.round == self.round
        &&& w.commit_timestamp matches Some(t) && timestamp_carried(self.commit_timestamp_ms, t, exact)
        &&& w.consensus_commit_digest matches Some(x) && self.consensus_commit_digest.carried_by(x)
        &&& exact ==> w.sub_dag_index is None
        &&& exact ==> w.consensus_determined_version_assignments is None
    }

    pub open spec fn wire_error(w: wire::ConsensusCommitPrologue) -> Option<ConversionFailure> {
        either(
            required(w.commit_timestamp, "timestamp", |t| timestamp_error(t)),
            required(
                w.consensus_commit_digest,
                "consensus_commit_digest",
                |x| ConsensusCommitDigest::wire_error(x),
            ),
        )
    }

    pub fn to_wire(&self) -> (w: wire::ConsensusCommitPrologue)
        ensures
            self.carried_by(w, true),
    {
        wire::ConsensusCommitPrologue {
            epoch: self.epoch,
            round: self.round,
            commit_timestamp: Some(timestamp_ms_to_proto(self.commit_timestamp_ms)),
            consensus_commit_digest: Some(self.consensus_commit_digest.to_wire()),
            sub_dag_index: None,
            consensus_determined_version_assignments: None,
        }
    }

    /// Reads what the second generation has; the digest must be present.
    pub fn from_wire(w: &wire::ConsensusCommitPrologue) -> (r: Result<Self, TryFromProtoError>)
        ensures
            match r {
                Ok(d) => Self::wire_error(*w) is None && d.carried_by(*w, false),
                Err(e) => Self::wire_error(*w) == Some(e@),
            },
    {
        let commit_timestamp_ms = match w.commit_timestamp {
            None => return Err(TryFromProtoError::missing("timestamp")),
            Some(t) => proto_to_timestamp_ms(t)?,
        };
        let consensus_commit_digest = match &w.consensus_commit_digest {
            None => return Err(TryFromProtoError::missing("consensus_commit_digest")),
            Some(x) => ConsensusCommitDigest::from_wire(x)?,
        };
        Ok(
            ConsensusCommitPrologueV2 {
                epoch: w.epoch,
                round: w.round,
                commit_timestamp_ms,
                consensus_commit_digest,
            },
        )
    }

    pub proof fn lemma_wire_round_trip()
        ensures
            forall|d: Self, w: wire::ConsensusCommitPrologue, exact: bool| #[trigger] d.carried_by(w, exact) ==> Self::wire_error(w) is None,
            forall|d: Self, w: wire::ConsensusCommitPrologue| #[trigger] d.carried_by(w, true) ==> d.carried_by(w, false),
    {
        ConsensusCommitDigest::lemma_wire_round_trip();
        assert forall|ms: u64, t: wire::Timestamp| #[trigger] timestamp_carried(ms, t, true) implies timestamp_carried(ms, t, false) by {
            lemma_timestamp_exact_is_read(ms, t);
        }
    }
}

impl ConsensusCommitPrologueV3 {
    pub open spec fn carried_by(self, w: wire::ConsensusCommitPrologue, exact: bool) -> bool {
        &&& w.epoch == self.epoch
        &&& w.round == self.round
        &&& w.commit_timestamp matches Some(t) && timestamp_carried(self.commit_timestamp_ms, t, exact)
        &&& w.consensus_commit_digest matches Some(x) && self.consensus_commit_digest.carried_by(x)
        &&& w.sub_dag_index == self.sub_dag_index
        &&& w.consensus_determined_version_assignments matches Some(x)
            && self.consensus_determined_version_assignments.carried_by(x)
    }

    pub open spec fn wire_error(w: wire::ConsensusCommitPrologue) -> Option<ConversionFailure> {
        either(
            required(w.commit_timestamp, "timestamp", |t| timestamp_error(t)),
            either(
                required(
                    w.consensus_commit_digest,
                    "consensus_commit_digest",
                    |x| ConsensusCommitDigest::wire_error(x),
                ),
                required(
                    w.consensus_determined_version_assignments,
                    "consensus_determined_version_assignments",
                    |x| ConsensusDeterminedVersionAssignments::wire_error(x),
                ),
            ),
        )
    }

    pub fn to_wire(&self) -> (w: wire::ConsensusCommitPrologue)
        ensures
            self.carried_by(w, true),
    {
        wire::ConsensusCommitPrologue {
            epoch: self.epoch,
            round: self.round,
            commit_timestamp: Some(timestamp_ms_to_proto(self.commit_timestamp_ms)),
            consensus_commit_digest: Some(self.consensus_commit_digest.to_wire()),
            sub_dag_index: self.sub_dag_index,
            consensus_determined_version_assignments: Some(
                self.consensus_determined_version_assignments.to_wire(),
            ),
        }
    }

    /// Reads every field; the digest and the version assignments must be
    /// present.
    pub fn from_wire(w: &wire::ConsensusCommitPrologue) -> (r: Result<Self, TryFromProtoError>)
        ensures
            match r {
                Ok(d) => Self::wire_error(*w) is None && d.carried_by(*w, false),
                Err(e) => Self::wire_error(*w) == Some(e@),
            },
    {
        let commit_timestamp_ms = match w.commit_timestamp {
            None => return Err(TryFromProtoError::missing("timestamp")),
            Some(t) => proto_to_timestamp_ms(t)?,
        };
        let consensus_commit_digest = match &w.consensus_commit_digest {
            None => return Err(TryFromProtoError::missing("consensus_commit_digest")),
            Some(x) => ConsensusCommitDigest::from_wire(x)?,
        };
        let consensus_determined_version_assignments = match &w.consensus_determined_version_assignments {
            None => return Err(TryFromProtoError::missing("consensus_determined_version_assignments")),
            Some(x) => ConsensusDeterminedVersionAssignments::from_wire(x)?,
        };
        Ok(
            ConsensusCommitPrologueV3 {
                epoch: w.epoch,
                round: w.round,
                commit_timestamp_ms,
                sub_dag_index: w.sub_dag_index,
                consensus_commit_digest,
                consensus_determined_version_assignments,
            },
        )
    }

    pub proof fn lemma_wire_round_trip()
        ensures
            forall|d: Self, w: wire::ConsensusCommitPrologue, exact: bool| #[trigger] d.carried_by(w, exact) ==> Self::wire_error(w) is None,
            forall|d: Self, w: wire::ConsensusCommitPrologue| #[trigger] d.carried_by(w, true) ==> d.carried_by(w, false),
    {
        ConsensusCommitDigest::lemma_wire_round_trip();
        ConsensusDeterminedVersionAssignments::lemma_wire_round_trip();
        assert forall|ms: u64, t: wire::Timestamp| #[trigger] timestamp_carried(ms, t, true) implies timestamp_carried(ms, t, false) by {
            lemma_timestamp_exact_is_read(ms, t);
        }
    }
}

impl ConsensusDeterminedVersionAssignments {
    pub open spec fn carried_by(self, w: wire::ConsensusDeterminedVersionAssignments) -> bool {
        match (self, w.kind) {
            (
                ConsensusDeterminedVersionAssignments::CancelledTransactions { cancelled_transactions },
                Some(wire::VersionAssignmentsKind::CancelledTransactions(x)),
            ) => all_carried(
                cancelled_transactions@,
                x.cancelled_transactions@,
                |d: CancelledTransaction, x: wire::CancelledTransaction| d.carried_by(x),
            ),
            _ => false,
        }
    }

    pub open spec fn wire_error(w: wire::ConsensusDeterminedVersionAssignments) -> Option<ConversionFailure> {
        match w.kind {
            None => missing("kind"),
            Some(wire::VersionAssignmentsKind::CancelledTransactions(x)) => first_error(
                x.cancelled_transactions@,
                |x| CancelledTransaction::wire_error(x),
            ),
        }
    }

    pub fn to_wire(&self) -> (w: wire::ConsensusDeterminedVersionAssignments)
        ensures
            self.carried_by(w),
    {
        let kind = match self {
            ConsensusDeterminedVersionAssignments::CancelledTransactions { cancelled_transactions } => {
                wire::VersionAssignmentsKind::CancelledTransactions(
                    wire::CancelledTransactions {
                        cancelled_transactions: map_to_wire(
                            cancelled_transactions,
                            CancelledTransaction::to_wire,
                            Ghost(|d: CancelledTransaction, x: wire::CancelledTransaction| d.carried_by(x)),
                        ),
                    },
                )
            },
        };
        wire::ConsensusDeterminedVersionAssignments { kind: Some(kind) }
    }

    pub fn from_wire(w: &wire::ConsensusDeterminedVersionAssignments) -> (r: Result<Self, TryFromProtoError>)
        ensures
            match r {
                Ok(d) => Self::wire_error(*w) is None && d.carried_by(*w),
                Err(e) => Self::wire_error(*w) == Some(e@),
            },
    {
        match &w.kind {
            None => Err(TryFromProtoError::missing("kind")),
            Some(wire::VersionAssignmentsKind::CancelledTransactions(x)) => {
                let cancelled_transactions = try_map_from_wire(
                    &x.cancelled_transactions,
                    CancelledTransaction::from_wire,
                    Ghost(|x| CancelledTransaction::wire_error(x)),
                    Ghost(|d: CancelledTransaction, x: wire::CancelledTransaction| d.carried_by(x)),
                )?;
                Ok(ConsensusDeterminedVersionAssignments::CancelledTransactions { cancelled_transactions })
            },
        }
    }

    pub proof fn lemma_wire_round_trip()
        ensures
            forall|d: Self, w: wire::ConsensusDeterminedVersionAssignments| #[trigger] d.carried_by(w) ==> Self::wire_error(w) is None,
    {
        CancelledTransaction::lemma_wire_round_trip();
        assert forall|d: Self, w: wire::ConsensusDeterminedVersionAssignments| #[trigger] d.carried_by(w) implies Self::wire_error(w) is None by {
            let ConsensusDeterminedVersionAssignments::CancelledTransactions { cancelled_transactions } = d;
            let wire::VersionAssignmentsKind::CancelledTransactions(x) = w.kind->0;
            lemma_carried_has_no_error(
                cancelled_transactions@,
                x.cancelled_transactions@,
                |d: CancelledTransaction, x: wire::CancelledTransaction| d.carried_by(x),
                |x| CancelledTransaction::wire_error(x),
            );
        }
    }
}

impl CancelledTransaction {
    pub open spec fn carried_by(self, w: wire::CancelledTransaction) -> bool {
        &&& w.digest matches Some(x) && self.digest.carried_by(x)
        &&& all_carried(
            self.version_assignments@,
            w.version_assignments@,
            |d: VersionAssignment, x: wire::VersionAssignment| d.carried_by(x),
        )
    }

    /// The first failure, checking the fields in order.
    pub open spec fn wire_error(w: wire::CancelledTransaction) -> Option<ConversionFailure> {
        either(
            required(w.digest, "digest", |x| TransactionDigest::wire_error(x)),
            first_error(w.version_assignments@, |x| VersionAssignment::wire_error(x)),
        )
    }

    pub fn to_wire(&self) -> (w: wire::CancelledTransaction)
        ensures
            self.carried_by(w),
    {
        wire::CancelledTransaction {
            digest: Some(self.digest.to_wire()),
            version_assignments: map_to_wire(
                &self.version_assignments,
                VersionAssignment::to_wire,
                Ghost(|d: VersionAssignment, x: wire::VersionAssignment| d.carried_by(x)),
            ),
        }
    }

    pub fn from_wire(w: &wire::CancelledTransaction) -> (r: Result<Self, TryFromProtoError>)
        ensures
            match r {
                Ok(d) => Self::wire_error(*w) is None && d.carried_by(*w),
                Err(e) => Self::wire_error(*w) == Some(e@),
            },
    {
        let digest = match &w.digest {
            None => return Err(TryFromProtoError::missing("digest")),
            Some(x) => TransactionDigest::from_wire(x)?,
        };
        let version_assignments = try_map_from_wire(
            &w.version_assignments,
            VersionAssignment::from_wire,
            Ghost(|x| VersionAssignment::wire_error(x)),
            Ghost(|d: VersionAssignment, x: wire::VersionAssignment| d.carried_by(x)),
        )?;
        Ok(CancelledTransaction { digest, version_assignments })
    }

    /// The wire form reads back without error.
    pub proof fn lemma_wire_round_trip()
        ensures
            forall|d: Self, w: wire::CancelledTransaction| #[trigger] d.carried_by(w) ==> Self::wire_error(w) is None,
    {
        TransactionDigest::lemma_wire_round_trip();
        VersionAssignment::lemma_wire_round_trip();
        assert forall|d: Self, w: wire::CancelledTransaction| #[trigger] d.carried_by(w) implies Self::wire_error(w) is None by {
            lemma_carried_has_no_error(
                d.version_assignments@,
                w.version_assignments@,
                |d: VersionAssignment, x: wire::VersionAssignment| d.carried_by(x),
                |x| VersionAssignment::wire_error(x),
            );
        }
    }
}

impl VersionAssignment {
    pub open spec fn carried_by(self, w: wire::VersionAssignment) -> bool {
        &&& w.object_id matches Some(x) && self.object_id.carried_by(x)
        &&& w.version == self.version
    }

    /// The first failure, checking the fields in order.
    pub open spec fn wire_error(w: wire::VersionAssignment) -> Option<ConversionFailure> {
        required(w.object_id, "object_id", |x| ObjectId::wire_error(x))
    }

    pub fn to_wire(&self) -> (w: wire::VersionAssignment)
        ensures
            self.carried_by(w),
    {
        wire::VersionAssignment {
            object_id: Some(self.object_id.to_wire()),
            version: self.version,
        }
    }

    pub fn from_wire(w: &wire::VersionAssignment) -> (r: Result<Self, TryFromProtoError>)
        ensures
            match r {
                Ok(d) => Self::wire_error(*w) is None && d.carried_by(*w),
                Err(e) => Self::wire_error(*w) == Some(e@),
            },
    {
        let object_id = match &w.object_id {
            None => return Err(TryFromProtoError::missing("object_id")),
            Some(x) => ObjectId::from_wire(x)?,
        };
        Ok(VersionAssignment { object_id, version: w.version })
    }

    /// The wire form reads back without error.
    pub proof fn lemma_wire_round_trip()
        ensures
            forall|d: Self, w: wire::VersionAssignment| #[trigger] d.carried_by(w) ==> Self::wire_error(w) is None,
    {
        ObjectId::lemma_wire_round_trip();
    }
}

impl GenesisTransaction {
    pub open spec fn carried_by(self, w: wire::GenesisTransaction) -> bool {
        &&& all_carried(
            self.objects@,
            w.objects@,
            |d: Object, x: wire::Object| d.carried_by(x),
        )
    }

    /// The first failure, checking the fields in order.
    pub open spec fn wire_error(w: wire::GenesisTransaction) -> Option<ConversionFailure> {
        first_error(w.objects@, |x| Object::wire_error(x))
    }

    pub fn to_wire(&self) -> (w: wire::GenesisTransaction)
        ensures
            self.carried_by(w),
    {
        wire::GenesisTransaction {
            objects: map_to_wire(
                &self.objects,
                Object::to_wire,
                Ghost(|d: Object, x: wire::Object| d.carried_by(x)),
            ),
        }
    }

    pub fn from_wire(w: &wire::GenesisTransaction) -> (r: Result<Self, TryFromProtoError>)
        ensures
            match r {
                Ok(d) => Self::wire_error(*w) is None && d.carried_by(*w),
                Err(e) => Self::wire_error(*w) == Some(e@),
            },
    {
        let objects = try_map_from_wire(
            &w.objects,
            Object::from_wire,
            Ghost(|x| Object::wire_error(x)),
            Ghost(|d: Object, x: wire::Object| d.carried_by(x)),
        )?;
        Ok(GenesisTransaction { objects })
    }

    /// The wire form reads back without error.
    pub proof fn lemma_wire_round_trip()
        ensures
            forall|d: Self, w: wire::GenesisTransaction| #[trigger] d.carried_by(w) ==> Self::wire_error(w) is None,
    {
        Object::lemma_wire_round_trip();
        assert forall|d: Self, w: wire::GenesisTransaction| #[trigger] d.carried_by(w) implies Self::wire_error(w) is None by {
            lemma_carried_has_no_error(
                d.objects@,
                w.objects@,
                |d: Object, x: wire::Object| d.carried_by(x),
                |x| Object::wire_error(x),
            );
        }
    }
}

impl RandomnessStateUpdate {
    pub open spec fn carried_by(self, w: wire::RandomnessStateUpdate) -> bool {
        &&& w.epoch == self.epoch
        &&& w.randomness_round == self.randomness_round
        &&& w.random_bytes@ == self.random_bytes@
        &&& w.randomness_object_initial_shared_version == self.randomness_obj_initial_shared_version
    }

    /// The first failure, checking the fields in order.
    pub open spec fn wire_error(w: wire::RandomnessStateUpdate) -> Option<ConversionFailure> {
        None
    }

    pub fn to_wire(&self) -> (w: wire::RandomnessStateUpdate)
        ensures
            self.carried_by(w),
    {
        wire::RandomnessStateUpdate {
            epoch: self.epoch,
            randomness_round: self.randomness_round,
            random_bytes: bytes_to_wire(&self.random_bytes),
            randomness_object_initial_shared_version: self.randomness_obj_initial_shared_version,
        }
    }

    pub fn from_wire(w: &wire::RandomnessStateUpdate) -> (r: Result<Self, TryFromProtoError>)
        ensures
            match r {
                Ok(d) => Self::wire_error(*w) is None && d.carried_by(*w),
                Err(e) => Self::wire_error(*w) == Some(e@),
            },
    {
        let random_bytes = bytes_to_wire(&w.random_bytes);
        Ok(RandomnessStateUpdate { epoch: w.epoch, randomness_round: w.randomness_round, random_bytes, randomness_obj_initial_shared_version: w.randomness_object_initial_shared_version })
    }

    /// The wire form reads back without error.
    pub proof fn lemma_wire_round_trip()
        ensures
            forall|d: Self, w: wire::RandomnessStateUpdate| #[trigger] d.carried_by(w) ==> Self::wire_error(w) is None,
    {
    }
}

impl AuthenticatorStateUpdate {
    pub open spec fn carried_by(self, w: wire::AuthenticatorStateUpdate) -> bool {
        &&& w.epoch == self.epoch
        &&& w.round == self.round
        &&& all_carried(
            self.new_active_jwks@,
            w.new_active_jwks@,
            |d: ActiveJwk, x: wire::ActiveJwk| d.carried_by(x),
        )
        &&& w.authenticator_object_initial_shared_version == self.authenticator_obj_initial_shared_version
    }

    /// The first failure, checking the fields in order.
    pub open spec fn wire_error(w: wire::AuthenticatorStateUpdate) -> Option<ConversionFailure> {
        first_error(w.new_active_jwks@, |x| ActiveJwk::wire_error(x))
    }

    pub fn to_wire(&self) -> (w: wire::AuthenticatorStateUpdate)
        ensures
            self.carried_by(w),
    {
        wire::AuthenticatorStateUpdate {
            epoch: self.epoch,
            round: self.round,
            new_active_jwks: map_to_wire(
                &self.new_active_jwks,
                ActiveJwk::to_wire,
                Ghost(|d: ActiveJwk, x: wire::ActiveJwk| d.carried_by(x)),
            ),
            authenticator_object_initial_shared_version: self.authenticator_obj_initial_shared_version,
        }
    }

    pub fn from_wire(w: &wire::AuthenticatorStateUpdate) -> (r: Result<Self, TryFromProtoError>)
        ensures
            match r {
                Ok(d) => Self::wire_error(*w) is None && d.carried_by(*w),
                Err(e) => Self::wire_error(*w) == Some(e@),
            },
    {
        let new_active_jwks = try_map_from_wire(
            &w.new_active_jwks,
            ActiveJwk::from_wire,
            Ghost(|x| ActiveJwk::wire_error(x)),
            Ghost(|d: ActiveJwk, x: wire::ActiveJwk| d.carried_by(x)),
        )?;
        Ok(AuthenticatorStateUpdate { epoch: w.epoch, round: w.round, new_active_jwks, authenticator_obj_initial_shared_version: w.authenticator_object_initial_shared_version })
    }

    /// The wire form reads back without error.
    pub proof fn lemma_wire_round_trip()
        ensures
            forall|d: Self, w: wire::AuthenticatorStateUpdate| #[trigger] d.carried_by(w) ==> Self::wire_error(w) is None,
    {
        ActiveJwk::lemma_wire_round_trip();
        assert forall|d: Self, w: wire::AuthenticatorStateUpdate| #[trigger] d.carried_by(w) implies Self::wire_error(w) is None by {
            lemma_carried_has_no_error(
                d.new_active_jwks@,
                w.new_active_jwks@,
                |d: ActiveJwk, x: wire::ActiveJwk| d.carried_by(x),
                |x| ActiveJwk::wire_error(x),
            );
        }
    }
}

impl Jwk {
    pub open spec fn carried_by(self, w: wire::Jwk) -> bool {
        &&& text_carried(self.kty@, w.kty@)
        &&& text_carried(self.e@, w.e@)
        &&& text_carried(self.n@, w.n@)
        &&& text_carried(self.alg@, w.alg@)
    }

    /// The first failure, checking the fields in order.
    pub open spec fn wire_error(w: wire::Jwk) -> Option<ConversionFailure> {
        either(
            text_error(w.kty@),
            either(
                text_error(w.e@),
                either(
                    text_error(w.n@),
                    text_error(w.alg@),
                ),
            ),
        )
    }

    pub fn to_wire(&self) -> (w: wire::Jwk)
        ensures
            self.carried_by(w),
    {
        wire::Jwk {
            kty: text_to_wire(&self.kty),
            e: text_to_wire(&self.e),
            n: text_to_wire(&self.n),
            alg: text_to_wire(&self.alg),
        }
    }

    pub fn from_wire(w: &wire::Jwk) -> (r: Result<Self, TryFromProtoError>)
        ensures
            match r {
                Ok(d) => Self::wire_error(*w) is None && d.carried_by(*w),
                Err(e) => Self::wire_error(*w) == Some(e@),
            },
    {
        let kty = text_from_wire(&w.kty)?;
        let e = text_from_wire(&w.e)?;
        let n = text_from_wire(&w.n)?;
        let alg = text_from_wire(&w.alg)?;
        Ok(Jwk { kty, e, n, alg })
    }

    /// The wire form reads back without error.
    pub proof fn lemma_wire_round_trip()
        ensures
            forall|d: Self, w: wire::Jwk| #[trigger] d.carried_by(w) ==> Self::wire_error(w) is None,
    {
        assert forall|d: Self, w: wire::Jwk| #[trigger] d.carried_by(w) implies Self::wire_error(w) is None by {
            lemma_text_round_trip(d.kty@, w.kty@, d.kty@);
            lemma_text_round_trip(d.e@, w.e@, d.e@);
            lemma_text_round_trip(d.n@, w.n@, d.n@);
            lemma_text_round_trip(d.alg@, w.alg@, d.alg@);
        }
    }
}

impl JwkId {
    pub open spec fn carried_by(self, w: wire::JwkId) -> bool {
        &&& text_carried(self.iss@, w.iss@)
        &&& text_carried(self.kid@, w.kid@)
    }

    /// The first failure, checking the fields in order.
    pub open spec fn wire_error(w: wire::JwkId) -> Option<ConversionFailure> {
        either(
            text_error(w.iss@),
            text_error(w.kid@),
        )
    }

    pub fn to_wire(&self) -> (w: wire::JwkId)
        ensures
            self.carried_by(w),
    {
        wire::JwkId {
            iss: text_to_wire(&self.iss),
            kid: text_to_wire(&self.kid),
        }
    }

    pub fn from_wire(w: &wire::JwkId) -> (r: Result<Self, TryFromProtoError>)
        ensures
            match r {
                Ok(d) => Self::wire_error(*w) is None && d.carried_by(*w),
                Err(e) => Self::wire_error(*w) == Some(e@),
            },
    {
        let iss = text_from_wire(&w.iss)?;
        let kid = text_from_wire(&w.kid)?;
        Ok(JwkId { iss, kid })
    }

    /// The wire form reads back without error.
    pub proof fn lemma_wire_round_trip()
        ensures
            forall|d: Self, w: wire::JwkId| #[trigger] d.carried_by(w) ==> Self::wire_error(w) is None,
    {
        assert forall|d: Self, w: wire::JwkId| #[trigger] d.carried_by(w) implies Self::wire_error(w) is None by {
            lemma_text_round_trip(d.iss@, w.iss@, d.iss@);
            lemma_text_round_trip(d.kid@, w.kid@, d.kid@);
        }
    }
}

impl ActiveJwk {
    pub open spec fn carried_by(self, w: wire::ActiveJwk) -> bool {
        &&& w.id matches Some(x) && self.jwk_id.carried_by(x)
        &&& w.jwk matches Some(x) && self.jwk.carried_by(x)
        &&& w.epoch == self.epoch
    }

    /// The first failure, checking the fields in order.
    pub open spec fn wire_error(w: wire::ActiveJwk) -> Option<ConversionFailure> {
        either(
            required(w.id, "id", |x| JwkId::wire_error(x)),
            required(w.jwk, "jwk", |x| Jwk::wire_error(x)),
        )
    }

    pub fn to_wire(&self) -> (w: wire::ActiveJwk)
        ensures
            self.carried_by(w),
    {
        wire::ActiveJwk {
            id: Some(self.jwk_id.to_wire()),
            jwk: Some(self.jwk.to_wire()),
            epoch: self.epoch,
        }
    }

    pub fn from_wire(w: &wire::ActiveJwk) -> (r: Result<Self, TryFromProtoError>)
        ensures
            match r {
                Ok(d) => Self::wire_error(*w) is None && d.carried_by(*w),
                Err(e) => Self::wire_error(*w) == Some(e@),
            },
    {
        let jwk_id = match &w.id {
            None => return Err(TryFromProtoError::missing("id")),
            Some(x) => JwkId::from_wire(x)?,
        };
        let jwk = match &w.jwk {
            None => return Err(TryFromProtoError::missing("jwk")),
            Some(x) => Jwk::from_wire(x)?,
        };
        Ok(ActiveJwk { jwk_id, jwk, epoch: w.epoch })
    }

    /// The wire form reads back without error.
    pub proof fn lemma_wire_round_trip()
        ensures
            forall|d: Self, w: wire::ActiveJwk| #[trigger] d.carried_by(w) ==> Self::wire_error(w) is None,
    {
        Jwk::lemma_wire_round_trip();
        JwkId::lemma_wire_round_trip();
    }
}

impl ChangeEpoch {
    pub open spec fn carried_by(self, w: wire::ChangeEpoch, exact: bool) -> bool {
        &&& w.epoch == self.epoch
        &&& w.protocol_version == self.protocol_version
        &&& w.storage_charge == self.storage_charge
        &&& w.computation_charge == self.computation_charge
        &&& w.storage_rebate == self.storage_rebate
        &&& w.non_refundable_storage_fee == self.non_refundable_storage_fee
        &&& w.epoch_start_timestamp matches Some(t) && timestamp_carried(self.epoch_start_timestamp_ms, t, exact)
        &&& all_carried(
            self.system_packages@,
            w.system_packages@,
            |d: SystemPackage, x: wire::SystemPackage| d.carried_by(x),
        )
    }

    /// The first failure, checking the fields in order.
    pub open spec fn wire_error(w: wire::ChangeEpoch) -> Option<ConversionFailure> {
        either(
            required(w.epoch_start_timestamp, "epoch_state_timestamp", |t| timestamp_error(t)),
            first_error(w.system_packages@, |x| SystemPackage::wire_error(x)),
        )
    }

    pub fn to_wire(&self) -> (w: wire::ChangeEpoch)
        ensures
            self.carried_by(w, true),
    {
        wire::ChangeEpoch {
            epoch: self.epoch,
            protocol_version: self.protocol_version,
            storage_charge: self.storage_charge,
            computation_charge: self.computation_charge,
            storage_rebate: self.storage_rebate,
            non_refundable_storage_fee: self.non_refundable_storage_fee,
            epoch_start_timestamp: Some(timestamp_ms_to_proto(self.epoch_start_timestamp_ms)),
            system_packages: map_to_wire(
                &self.system_packages,
                SystemPackage::to_wire,
                Ghost(|d: SystemPackage, x: wire::SystemPackage| d.carried_by(x)),
            ),
        }
    }

    pub fn from_wire(w: &wire::ChangeEpoch) -> (r: Result<Self, TryFromProtoError>)
        ensures
            match r {
                Ok(d) => Self::wire_error(*w) is None && d.carried_by(*w, false),
                Err(e) => Self::wire_error(*w) == Some(e@),
            },
    {
        let epoch_start_timestamp_ms = match w.epoch_start_timestamp {
            None => return Err(TryFromProtoError::missing("epoch_state_timestamp")),
            Some(t) => proto_to_timestamp_ms(t)?,
        };
        let system_packages = try_map_from_wire(
            &w.system_packages,
            SystemPackage::from_wire,
            Ghost(|x| SystemPackage::wire_error(x)),
            Ghost(|d: SystemPackage, x: wire::SystemPackage| d.carried_by(x)),
        )?;
        Ok(ChangeEpoch { epoch: w.epoch, protocol_version: w.protocol_version, storage_charge: w.storage_charge, computation_charge: w.computation_charge, storage_rebate: w.storage_rebate, non_refundable_storage_fee: w.non_refundable_storage_fee, epoch_start_timestamp_ms, system_packages })
    }

    /// The wire form reads back without error and, as written, is also as read.
    pub proof fn lemma_wire_round_trip()
        ensures
            forall|d: Self, w: wire::ChangeEpoch, exact: bool| #[trigger] d.carried_by(w, exact) ==> Self::wire_error(w) is None,
            forall|d: Self, w: wire::ChangeEpoch| #[trigger] d.carried_by(w, true) ==> d.carried_by(w, false),
    {
        SystemPackage::lemma_wire_round_trip();
        assert forall|ms: u64, t: wire::Timestamp| #[trigger] timestamp_carried(ms, t, true) implies timestamp_carried(ms, t, false) by {
            lemma_timestamp_exact_is_read(ms, t);
        }
        assert forall|d: Self, w: wire::ChangeEpoch, exact: bool| #[trigger] d.carried_by(w, exact) implies Self::wire_error(w) is None by {
            lemma_carried_has_no_error(
                d.system_packages@,
                w.system_packages@,
                |d: SystemPackage, x: wire::SystemPackage| d.carried_by(x),
                |x| SystemPackage::wire_error(x),
            );
        }
    }
}

impl SystemPackage {
    pub open spec fn carried_by(self, w: wire::SystemPackage) -> bool {
        &&& w.version == self.version
        &&& w.modules@.len() == self.modules@.len()
        &&& forall|i: int| 0 <= i < self.modules@.len() ==> #[trigger] w.modules@[i]@ == self.modules@[i]@
        &&& all_carried(
            self.dependencies@,
            w.dependencies@,
            |d: ObjectId, x: wire::ObjectId| d.carried_by(x),
        )
    }

    /// The first failure, checking the fields in order.
    pub open spec fn wire_error(w: wire::SystemPackage) -> Option<ConversionFailure> {
        first_error(w.dependencies@, |x| ObjectId::wire_error(x))
    }

    pub fn to_wire(&self) -> (w: wire::SystemPackage)
        ensures
            self.carried_by(w),
    {
        wire::SystemPackage {
            version: self.version,
            modules: byte_lists_to_wire(&self.modules),
            dependencies: map_to_wire(
                &self.dependencies,
                ObjectId::to_wire,
                Ghost(|d: ObjectId, x: wire::ObjectId| d.carried_by(x)),
            ),
        }
    }

    pub fn from_wire(w: &wire::SystemPackage) -> (r: Result<Self, TryFromProtoError>)
        ensures
            match r {
                Ok(d) => Self::wire_error(*w) is None && d.carried_by(*w),
                Err(e) => Self::wire_error(*w) == Some(e@),
            },
    {
        let modules = byte_lists_to_wire(&w.modules);
        let dependencies = try_map_from_wire(
            &w.dependencies,
            ObjectId::from_wire,
            Ghost(|x| ObjectId::wire_error(x)),
            Ghost(|d: ObjectId, x: wire::ObjectId| d.carried_by(x)),
        )?;
        Ok(SystemPackage { version: w.version, modules, dependencies })
    }

    /// The wire form reads back without error.
    pub proof fn lemma_wire_round_trip()
        ensures
            forall|d: Self, w: wire::SystemPackage| #[trigger] d.carried_by(w) ==> Self::wire_error(w) is None,
    {
        ObjectId::lemma_wire_round_trip();
        assert forall|d: Self, w: wire::SystemPackage| #[trigger] d.carried_by(w) implies Self::wire_error(w) is None by {
            lemma_carried_has_no_error(
                d.dependencies@,
                w.dependencies@,
                |d: ObjectId, x: wire::ObjectId| d.carried_by(x),
                |x| ObjectId::wire_error(x),
            );
        }
    }
}

impl AuthenticatorStateExpire {
    pub open spec fn carried_by(self, w: wire::AuthenticatorStateExpire) -> bool {
        &&& w.min_epoch == self.min_epoch
        &&& w.authenticator_object_initial_shared_version == self.authenticator_object_initial_shared_version
    }

    /// The first failure, checking the fields in order.
    pub open spec fn wire_error(w: wire::AuthenticatorStateExpire) -> Option<ConversionFailure> {
        None
    }

    pub fn to_wire(&self) -> (w: wire::AuthenticatorStateExpire)
        ensures
            self.carried_by(w),
    {
        wire::AuthenticatorStateExpire {
            min_epoch: self.min_epoch,
            authenticator_object_initial_shared_version: self.authenticator_object_initial_shared_version,
        }
    }

    pub fn from_wire(w: &wire::AuthenticatorStateExpire) -> (r: Result<Self, TryFromProtoError>)
        ensures
            match r {
                Ok(d) => Self::wire_error(*w) is None && d.carried_by(*w),
                Err(e) => Self::wire_error(*w) == Some(e@),
            },
    {
        Ok(AuthenticatorStateExpire { min_epoch: w.min_epoch, authenticator_object_initial_shared_version: w.authenticator_object_initial_shared_version })
    }

    /// The wire form reads back without error.
    pub proof fn lemma_wire_round_trip()
        ensures
            forall|d: Self, w: wire::AuthenticatorStateExpire| #[trigger] d.carried_by(w) ==> Self::wire_error(w) is None,
    {
    }
}

impl EndOfEpochTransactionKind {
    pub open spec fn carried_by(self, w: wire::EndOfEpochTransactionKind, exact: bool) -> bool {
        match (self, w.kind) {
            (EndOfEpochTransactionKind::ChangeEpoch(d), Some(wire::EndOfEpochKind::ChangeEpoch(x))) => d.carried_by(x, exact),
            (EndOfEpochTransactionKind::AuthenticatorStateCreate, Some(wire::EndOfEpochKind::AuthenticatorStateCreate(_))) => true,
            (EndOfEpochTransactionKind::AuthenticatorStateExpire(d), Some(wire::EndOfEpochKind::AuthenticatorStateExpire(x))) => d.carried_by(x),
            (EndOfEpochTransactionKind::RandomnessStateCreate, Some(wire::EndOfEpochKind::RandomnessStateCreate(_))) => true,
            (EndOfEpochTransactionKind::DenyListStateCreate, Some(wire::EndOfEpochKind::DenyListStateCreate(_))) => true,
            (EndOfEpochTransactionKind::BridgeStateCreate { chain_id }, Some(wire::EndOfEpochKind::BridgeStateCreate(x))) => chain_id.carried_by(x),
            (EndOfEpochTransactionKind::BridgeCommitteeInit { bridge_object_version }, Some(wire::EndOfEpochKind::BridgeCommitteeInit(x))) => x == bridge_object_version,
            _ => false,
        }
    }

    pub open spec fn wire_error(w: wire::EndOfEpochTransactionKind) -> Option<ConversionFailure> {
        match w.kind {
            None => missing("kind"),
            Some(wire::EndOfEpochKind::ChangeEpoch(x)) => ChangeEpoch::wire_error(x),
            Some(wire::EndOfEpochKind::AuthenticatorStateCreate(_)) => None,
            Some(wire::EndOfEpochKind::AuthenticatorStateExpire(x)) => AuthenticatorStateExpire::wire_error(x),
            Some(wire::EndOfEpochKind::RandomnessStateCreate(_)) => None,
            Some(wire::EndOfEpochKind::DenyListStateCreate(_)) => None,
            Some(wire::EndOfEpochKind::BridgeStateCreate(x)) => CheckpointDigest::wire_error(x),
            Some(wire::EndOfEpochKind::BridgeCommitteeInit(x)) => None,
        }
    }

    pub fn to_wire(&self) -> (w: wire::EndOfEpochTransactionKind)
        ensures
            self.carried_by(w, true),
    {
        let kind = match self {
            EndOfEpochTransactionKind::ChangeEpoch(d) => wire::EndOfEpochKind::ChangeEpoch(d.to_wire()),
            EndOfEpochTransactionKind::AuthenticatorStateCreate => wire::EndOfEpochKind::AuthenticatorStateCreate(wire::Empty {}),
            EndOfEpochTransactionKind::AuthenticatorStateExpire(d) => wire::EndOfEpochKind::AuthenticatorStateExpire(d.to_wire()),
            EndOfEpochTransactionKind::RandomnessStateCreate => wire::EndOfEpochKind::RandomnessStateCreate(wire::Empty {}),
            EndOfEpochTransactionKind::DenyListStateCreate => wire::EndOfEpochKind::DenyListStateCreate(wire::Empty {}),
            EndOfEpochTransactionKind::BridgeStateCreate { chain_id } => wire::EndOfEpochKind::BridgeStateCreate(chain_id.to_wire()),
            EndOfEpochTransactionKind::BridgeCommitteeInit { bridge_object_version } => wire::EndOfEpochKind::BridgeCommitteeInit(*bridge_object_version),
        };
        wire::EndOfEpochTransactionKind { kind: Some(kind) }
    }

    pub fn from_wire(w: &wire::EndOfEpochTransactionKind) -> (r: Result<Self, TryFromProtoError>)
        ensures
            match r {
                Ok(d) => Self::wire_error(*w) is None && d.carried_by(*w, false),
                Err(e) => Self::wire_error(*w) == Some(e@),
            },
    {
        match &w.kind {
            None => Err(TryFromProtoError::missing("kind")),
            Some(wire::EndOfEpochKind::ChangeEpoch(x)) => Ok(EndOfEpochTransactionKind::ChangeEpoch(ChangeEpoch::from_wire(x)?)),
            Some(wire::EndOfEpochKind::AuthenticatorStateCreate(_)) => Ok(EndOfEpochTransactionKind::AuthenticatorStateCreate),
            Some(wire::EndOfEpochKind::AuthenticatorStateExpire(x)) => Ok(EndOfEpochTransactionKind::AuthenticatorStateExpire(AuthenticatorStateExpire::from_wire(x)?)),
            Some(wire::EndOfEpochKind::RandomnessStateCreate(_)) => Ok(EndOfEpochTransactionKind::RandomnessStateCreate),
            Some(wire::EndOfEpochKind::DenyListStateCreate(_)) => Ok(EndOfEpochTransactionKind::DenyListStateCreate),
            Some(wire::EndOfEpochKind::BridgeStateCreate(x)) => Ok(EndOfEpochTransactionKind::BridgeStateCreate { chain_id: CheckpointDigest::from_wire(x)? }),
            Some(wire::EndOfEpochKind::BridgeCommitteeInit(x)) => Ok(EndOfEpochTransactionKind::BridgeCommitteeInit { bridge_object_version: *x }),
        }
    }

    pub proof fn lemma_wire_round_trip()
        ensures
            forall|d: Self, w: wire::EndOfEpochTransactionKind, exact: bool| #[trigger] d.carried_by(w, exact) ==> Self::wire_error(w) is None,
            forall|d: Self, w: wire::EndOfEpochTransactionKind| #[trigger] d.carried_by(w, true) ==> d.carried_by(w, false),
    {
        ChangeEpoch::lemma_wire_round_trip();
        AuthenticatorStateExpire::lemma_wire_round_trip();
        CheckpointDigest::lemma_wire_round_trip();
    }
}

impl TransactionKind {
    pub open spec fn carried_by(self, w: wire::TransactionKind, exact: bool) -> bool {
        match (self, w.kind) {
            (TransactionKind::ProgrammableTransaction(d), Some(wire::Kind::ProgrammableTransaction(x))) => d.carried_by(x),
            (TransactionKind::ChangeEpoch(d), Some(wire::Kind::ChangeEpoch(x))) => d.carried_by(x, exact),
            (TransactionKind::Genesis(d), Some(wire::Kind::Genesis(x))) => d.carried_by(x),
            (TransactionKind::ConsensusCommitPrologue(d), Some(wire::Kind::ConsensusCommitPrologueV1(x))) => d.carried_by(x, exact),
            (TransactionKind::AuthenticatorStateUpdate(d), Some(wire::Kind::AuthenticatorStateUpdate(x))) => d.carried_by(x),
            (TransactionKind::EndOfEpoch(d), Some(wire::Kind::EndOfEpoch(x))) => all_carried(d@, x.transactions@, |d: EndOfEpochTransactionKind, x: wire::EndOfEpochTransactionKind| d.carried_by(x, exact)),
            (TransactionKind::RandomnessStateUpdate(d), Some(wire::Kind::RandomnessStateUpdate(x))) => d.carried_by(x),
            (TransactionKind::ConsensusCommitPrologueV2(d), Some(wire::Kind::ConsensusCommitPrologueV2(x))) => d.carried_by(x, exact),
            (TransactionKind::ConsensusCommitPrologueV3(d), Some(wire::Kind::ConsensusCommitPrologueV3(x))) => d.carried_by(x, exact),
            _ => false,
        }
    }

    pub open spec fn wire_error(w: wire::TransactionKind) -> Option<ConversionFailure> {
        match w.kind {
            None => missing("kind"),
            Some(wire::Kind::ProgrammableTransaction(x)) => ProgrammableTransaction::wire_error(x),
            Some(wire::Kind::ChangeEpoch(x)) => ChangeEpoch::wire_error(x),
            Some(wire::Kind::Genesis(x)) => GenesisTransaction::wire_error(x),
            Some(wire::Kind::ConsensusCommitPrologueV1(x)) => ConsensusCommitPrologue::wire_error(x),
            Some(wire::Kind::AuthenticatorStateUpdate(x)) => AuthenticatorStateUpdate::wire_error(x),
            Some(wire::Kind::EndOfEpoch(x)) => first_error(x.transactions@, |x| EndOfEpochTransactionKind::wire_error(x)),
            Some(wire::Kind::RandomnessStateUpdate(x)) => RandomnessStateUpdate::wire_error(x),
            Some(wire::Kind::ConsensusCommitPrologueV2(x)) => ConsensusCommitPrologueV2::wire_error(x),
            Some(wire::Kind::ConsensusCommitPrologueV3(x)) => ConsensusCommitPrologueV3::wire_error(x),
        }
    }

    pub fn to_wire(&self) -> (w: wire::TransactionKind)
        ensures
            self.carried_by(w, true),
    {
        let kind = match self {
            TransactionKind::ProgrammableTransaction(d) => wire::Kind::ProgrammableTransaction(d.to_wire()),
            TransactionKind::ChangeEpoch(d) => wire::Kind::ChangeEpoch(d.to_wire()),
            TransactionKind::Genesis(d) => wire::Kind::Genesis(d.to_wire()),
            TransactionKind::ConsensusCommitPrologue(d) => wire::Kind::ConsensusCommitPrologueV1(d.to_wire()),
            TransactionKind::AuthenticatorStateUpdate(d) => wire::Kind::AuthenticatorStateUpdate(d.to_wire()),
            TransactionKind::EndOfEpoch(d) => wire::Kind::EndOfEpoch(
                wire::EndOfEpochTransaction {
                    transactions: map_to_wire(
                        d,
                        EndOfEpochTransactionKind::to_wire,
                        Ghost(|d: EndOfEpochTransactionKind, x: wire::EndOfEpochTransactionKind| d.carried_by(x, true)),
                    ),
                },
            ),
            TransactionKind::RandomnessStateUpdate(d) => wire::Kind::RandomnessStateUpdate(d.to_wire()),
            TransactionKind::ConsensusCommitPrologueV2(d) => wire::Kind::ConsensusCommitPrologueV2(d.to_wire()),
            TransactionKind::ConsensusCommitPrologueV3(d) => wire::Kind::ConsensusCommitPrologueV3(d.to_wire()),
        };
        wire::TransactionKind { kind: Some(kind) }
    }

    pub fn from_wire(w: &wire::TransactionKind) -> (r: Result<Self, TryFromProtoError>)
        ensures
            match r {
                Ok(d) => Self::wire_error(*w) is None && d.carried_by(*w, false),
                Err(e) => Self::wire_error(*w) == Some(e@),
            },
    {
        match &w.kind {
            None => Err(TryFromProtoError::missing("kind")),
            Some(wire::Kind::ProgrammableTransaction(x)) => Ok(TransactionKind::ProgrammableTransaction(ProgrammableTransaction::from_wire(x)?)),
            Some(wire::Kind::ChangeEpoch(x)) => Ok(TransactionKind::ChangeEpoch(ChangeEpoch::from_wire(x)?)),
            Some(wire::Kind::Genesis(x)) => Ok(TransactionKind::Genesis(GenesisTransaction::from_wire(x)?)),
            Some(wire::Kind::ConsensusCommitPrologueV1(x)) => Ok(TransactionKind::ConsensusCommitPrologue(ConsensusCommitPrologue::from_wire(x)?)),
            Some(wire::Kind::AuthenticatorStateUpdate(x)) => Ok(TransactionKind::AuthenticatorStateUpdate(AuthenticatorStateUpdate::from_wire(x)?)),
            Some(wire::Kind::EndOfEpoch(x)) => {
                let transactions = try_map_from_wire(
                    &x.transactions,
                    EndOfEpochTransactionKind::from_wire,
                    Ghost(|x| EndOfEpochTransactionKind::wire_error(x)),
                    Ghost(|d: EndOfEpochTransactionKind, x: wire::EndOfEpochTransactionKind| d.carried_by(x, false)),
                )?;
                Ok(TransactionKind::EndOfEpoch(transactions))
            },
            Some(wire::Kind::RandomnessStateUpdate(x)) => Ok(TransactionKind::RandomnessStateUpdate(RandomnessStateUpdate::from_wire(x)?)),
            Some(wire::Kind::ConsensusCommitPrologueV2(x)) => Ok(TransactionKind::ConsensusCommitPrologueV2(ConsensusCommitPrologueV2::from_wire(x)?)),
            Some(wire::Kind::ConsensusCommitPrologueV3(x)) => Ok(TransactionKind::ConsensusCommitPrologueV3(ConsensusCommitPrologueV3::from_wire(x)?)),
        }
    }

    pub proof fn lemma_wire_round_trip()
        ensures
            forall|d: Self, w: wire::TransactionKind, exact: bool| #[trigger] d.carried_by(w, exact) ==> Self::wire_error(w) is None,
            forall|d: Self, w: wire::TransactionKind| #[trigger] d.carried_by(w, true) ==> d.carried_by(w, false),
    {
        ProgrammableTransaction::lemma_wire_round_trip();
        ChangeEpoch::lemma_wire_round_trip();
        GenesisTransaction::lemma_wire_round_trip();
        ConsensusCommitPrologue::lemma_wire_round_trip();
        AuthenticatorStateUpdate::lemma_wire_round_trip();
        EndOfEpochTransactionKind::lemma_wire_round_trip();
        RandomnessStateUpdate::lemma_wire_round_trip();
        ConsensusCommitPrologueV2::lemma_wire_round_trip();
        ConsensusCommitPrologueV3::lemma_wire_round_trip();
        assert forall|d: Self, w: wire::TransactionKind, exact: bool| #[trigger] d.carried_by(w, exact) implies Self::wire_error(w) is None by {
            if let (TransactionKind::EndOfEpoch(v), Some(wire::Kind::EndOfEpoch(x))) = (d, w.kind) {
                lemma_carried_has_no_error(
                    v@,
                    x.transactions@,
                    |d: EndOfEpochTransactionKind, x: wire::EndOfEpochTransactionKind| d.carried_by(x, exact),
                    |x| EndOfEpochTransactionKind::wire_error(x),
                );
            }
        }
        assert forall|d: Self, w: wire::TransactionKind| #[trigger] d.carried_by(w, true) implies d.carried_by(w, false) by {
            if let (TransactionKind::EndOfEpoch(v), Some(wire::Kind::EndOfEpoch(x))) = (d, w.kind) {
                lemma_all_carried_weaken(
                    v@,
                    x.transactions@,
                    |d: EndOfEpochTransactionKind, x: wire::EndOfEpochTransactionKind| d.carried_by(x, true),
                    |d: EndOfEpochTransactionKind, x: wire::EndOfEpochTransactionKind| d.carried_by(x, false),
                );
            }
        }
    }
}

impl Transaction {
    /// `w` carries this transaction in the first-generation message.
    pub open spec fn carried_by_v1(self, w: wire::TransactionV1, exact: bool) -> bool {
        &&& w.kind matches Some(x) && self.kind.carried_by(x, exact)
        &&& w.sender matches Some(x) && self.sender.carried_by(x)
        &&& w.gas_payment matches Some(x) && self.gas_payment.carried_by(x)
        &&& w.expiration matches Some(x) && self.expiration.carried_by(x)
    }

    /// The first failure of the first-generation message, checking the fields in order.
    pub open spec fn v1_wire_error(w: wire::TransactionV1) -> Option<ConversionFailure> {
        either(
            required(w.kind, "kind", |x| TransactionKind::wire_error(x)),
            either(
                required(w.sender, "sender", |x| Address::wire_error(x)),
                either(
                    required(w.gas_payment, "gas_payment", |x| GasPayment::wire_error(x)),
                    required(w.expiration, "expiration", |x| TransactionExpiration::wire_error(x)),
                ),
            ),
        )
    }

    pub fn to_wire_v1(&self) -> (w: wire::TransactionV1)
        ensures
            self.carried_by_v1(w, true),
    {
        wire::TransactionV1 {
            kind: Some(self.kind.to_wire()),
            sender: Some(self.sender.to_wire()),
            gas_payment: Some(self.gas_payment.to_wire()),
            expiration: Some(self.expiration.to_wire()),
        }
    }

    pub fn from_wire_v1(w: &wire::TransactionV1) -> (r: Result<Self, TryFromProtoError>)
        ensures
            match r {
                Ok(d) => Self::v1_wire_error(*w) is None && d.carried_by_v1(*w, false),
                Err(e) => Self::v1_wire_error(*w) == Some(e@),
            },
    {
        let kind = match &w.kind {
            None => return Err(TryFromProtoError::missing("kind")),
            Some(x) => TransactionKind::from_wire(x)?,
        };
        let sender = match &w.sender {
            None => return Err(TryFromProtoError::missing("sender")),
            Some(x) => Address::from_wire(x)?,
        };
        let gas_payment = match &w.gas_payment {
            None => return Err(TryFromProtoError::missing("gas_payment")),
            Some(x) => GasPayment::from_wire(x)?,
        };
        let expiration = match &w.expiration {
            None => return Err(TryFromProtoError::missing("expiration")),
            Some(x) => TransactionExpiration::from_wire(x)?,
        };
        Ok(Transaction { kind, sender, gas_payment, expiration })
    }

    /// The wire form reads back without error and, as written, is also as read.
    pub proof fn lemma_v1_round_trip()
        ensures
            forall|d: Self, w: wire::TransactionV1, exact: bool| #[trigger] d.carried_by_v1(w, exact) ==> Self::v1_wire_error(w) is None,
            forall|d: Self, w: wire::TransactionV1| #[trigger] d.carried_by_v1(w, true) ==> d.carried_by_v1(w, false),
    {
        Address::lemma_wire_round_trip();
        GasPayment::lemma_wire_round_trip();
        TransactionExpiration::lemma_wire_round_trip();
        TransactionKind::lemma_wire_round_trip();
    }
}

impl Transaction {
    pub open spec fn carried_by(self, w: wire::Transaction, exact: bool) -> bool {
        w.version matches Some(wire::TransactionVersion::V1(x)) && self.carried_by_v1(x, exact)
    }

    pub open spec fn wire_error(w: wire::Transaction) -> Option<ConversionFailure> {
        match w.version {
            None => missing("version"),
            Some(wire::TransactionVersion::V1(x)) => Self::v1_wire_error(x),
        }
    }

    pub fn to_wire(&self) -> (w: wire::Transaction)
        ensures
            self.carried_by(w, true),
    {
        wire::Transaction { version: Some(wire::TransactionVersion::V1(self.to_wire_v1())) }
    }

    pub fn from_wire(w: &wire::Transaction) -> (r: Result<Self, TryFromProtoError>)
        ensures
            match r {
                Ok(d) => Self::wire_error(*w) is None && d.carried_by(*w, false),
                Err(e) => Self::wire_error(*w) == Some(e@),
            },
    {
        match &w.version {
            None => Err(TryFromProtoError::missing("version")),
            Some(wire::TransactionVersion::V1(x)) => Transaction::from_wire_v1(x),
        }
    }

    pub proof fn lemma_wire_round_trip()
        ensures
            forall|d: Self, w: wire::Transaction, exact: bool| #[trigger] d.carried_by(w, exact) ==> Self::wire_error(w) is None,
            forall|d: Self, w: wire::Transaction| #[trigger] d.carried_by(w, true) ==> d.carried_by(w, false),
    {
        Self::lemma_v1_round_trip();
    }
}

} // verus!
