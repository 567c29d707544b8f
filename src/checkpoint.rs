//! Checkpoints: their summaries and their contents.
use vstd::prelude::*;

use crate::domain::{
    CheckpointCommitment, CheckpointContents, CheckpointContentsDigest, CheckpointDigest,
    CheckpointSummary, CheckpointTransactionInfo, Digest, EndOfEpochData, GasCostSummary,
    Transaction, TransactionEffects, UserSignature, ValidatorCommitteeMember,
};
use crate::error::{either, missing, optional, required, ConversionFailure, TryFromProtoError};
use crate::scalar::{
    bytes_to_wire, lemma_timestamp_exact_is_read, proto_to_timestamp_ms, timestamp_carried,
    timestamp_error, timestamp_ms_to_proto,
};
use crate::seqs::{
    all_carried, first_error, lemma_all_carried_weaken, lemma_carried_has_no_error, map_to_wire,
    try_map_from_wire,
};
use crate::wire;

verus! {

impl CheckpointCommitment {
    pub open spec fn carried_by(self, w: wire::CheckpointCommitment) -> bool {
        match (self, w.commitment) {
            (
                CheckpointCommitment::EcmhLiveObjectSet { digest },
                Some(wire::Commitment::EcmhLiveObjectSet(x)),
            ) => digest.carried_by(x),
            _ => false,
        }
    }

    pub open spec fn wire_error(w: wire::CheckpointCommitment) -> Option<ConversionFailure> {
        match w.commitment {
            None => missing("commitment"),
            Some(wire::Commitment::EcmhLiveObjectSet(x)) => Digest::wire_error(x),
        }
    }

    pub fn to_wire(&self) -> (w: wire::CheckpointCommitment)
        ensures
            self.carried_by(w),
    {
        let commitment = match self {
            CheckpointCommitment::EcmhLiveObjectSet { digest } => wire::Commitment::EcmhLiveObjectSet(
                digest.to_wire(),
            ),
        };
        wire::CheckpointCommitment { commitment: Some(commitment) }
    }

    pub fn from_wire(w: &wire::CheckpointCommitment) -> (r: Result<Self, TryFromProtoError>)
        ensures
            match r {
                Ok(d) => Self::wire_error(*w) is None && d.carried_by(*w),
                Err(e) => Self::wire_error(*w) == Some(e@),
            },
    {
        match &w.commitment {
            None => Err(TryFromProtoError::missing("commitment")),
            Some(wire::Commitment::EcmhLiveObjectSet(x)) => Ok(
                CheckpointCommitment::EcmhLiveObjectSet { digest: Digest::from_wire(x)? },
            ),
        }
    }

    pub proof fn lemma_wire_round_trip()
        ensures
            forall|d: Self, w: wire::CheckpointCommitment| #[trigger] d.carried_by(w) ==> Self::wire_error(w) is None,
    {
        Digest::lemma_wire_round_trip();
    }
}

impl EndOfEpochData {
    pub open spec fn carried_by(self, w: wire::EndOfEpochData) -> bool {
        &&& all_carried(
            self.next_epoch_committee@,
            w.next_epoch_committee@,
            |d: ValidatorCommitteeMember, x: wire::ValidatorCommitteeMember| d.carried_by(x),
        )
        &&& w.next_epoch_protocol_version == self.next_epoch_protocol_version
        &&& all_carried(
            self.epoch_commitments@,
            w.epoch_commitments@,
            |d: CheckpointCommitment, x: wire::CheckpointCommitment| d.carried_by(x),
        )
    }

    /// The first failure, checking the fields in order.
    pub open spec fn wire_error(w: wire::EndOfEpochData) -> Option<ConversionFailure> {
        either(
            first_error(w.next_epoch_committee@, |x| ValidatorCommitteeMember::wire_error(x)),
            first_error(w.epoch_commitments@, |x| CheckpointCommitment::wire_error(x)),
        )
    }

    pub fn to_wire(&self) -> (w: wire::EndOfEpochData)
        ensures
            self.carried_by(w),
    {
        wire::EndOfEpochData {
            next_epoch_committee: map_to_wire(
                &self.next_epoch_committee,
                ValidatorCommitteeMember::to_wire,
                Ghost(|d: ValidatorCommitteeMember, x: wire::ValidatorCommitteeMember| d.carried_by(x)),
            ),
            next_epoch_protocol_version: self.next_epoch_protocol_version,
            epoch_commitments: map_to_wire(
                &self.epoch_commitments,
                CheckpointCommitment::to_wire,
                Ghost(|d: CheckpointCommitment, x: wire::CheckpointCommitment| d.carried_by(x)),
            ),
        }
    }

    pub fn from_wire(w: &wire::EndOfEpochData) -> (r: Result<Self, TryFromProtoError>)
        ensures
            match r {
                Ok(d) => Self::wire_error(*w) is None && d.carried_by(*w),
                Err(e) => Self::wire_error(*w) == Some(e@),
            },
    {
        let next_epoch_committee = try_map_from_wire(
            &w.next_epoch_committee,
            ValidatorCommitteeMember::from_wire,
            Ghost(|x| ValidatorCommitteeMember::wire_error(x)),
            Ghost(|d: ValidatorCommitteeMember, x: wire::ValidatorCommitteeMember| d.carried_by(x)),
        )?;
        let epoch_commitments = try_map_from_wire(
            &w.epoch_commitments,
            CheckpointCommitment::from_wire,
            Ghost(|x| CheckpointCommitment::wire_error(x)),
            Ghost(|d: CheckpointCommitment, x: wire::CheckpointCommitment| d.carried_by(x)),
        )?;
        Ok(EndOfEpochData { next_epoch_committee, next_epoch_protocol_version: w.next_epoch_protocol_version, epoch_commitments })
    }

    /// The wire form reads back without error.
    pub proof fn lemma_wire_round_trip()
        ensures
            forall|d: Self, w: wire::EndOfEpochData| #[trigger] d.carried_by(w) ==> Self::wire_error(w) is None,
    {
        CheckpointCommitment::lemma_wire_round_trip();
        ValidatorCommitteeMember::lemma_wire_round_trip();
        assert forall|d: Self, w: wire::EndOfEpochData| #[trigger] d.carried_by(w) implies Self::wire_error(w) is None by {
            lemma_carried_has_no_error(
                d.next_epoch_committee@,
                w.next_epoch_committee@,
                |d: ValidatorCommitteeMember, x: wire::ValidatorCommitteeMember| d.carried_by(x),
                |x| ValidatorCommitteeMember::wire_error(x),
            );
            lemma_carried_has_no_error(
                d.epoch_commitments@,
                w.epoch_commitments@,
                |d: CheckpointCommitment, x: wire::CheckpointCommitment| d.carried_by(x),
                |x| CheckpointCommitment::wire_error(x),
            );
        }
    }
}

impl CheckpointSummary {
    pub open spec fn carried_by(self, w: wire::CheckpointSummary, exact: bool) -> bool {
        &&& w.epoch == self.epoch
        &&& w.sequence_number == self.sequence_number
        &&& w.total_network_transactions == self.network_total_transactions
        &&& w.content_digest matches Some(x) && self.content_digest.carried_by(x)
        &&& match (self.previous_digest, w.previous_digest) {
            (None, None) => true,
            (Some(d), Some(x)) => d.carried_by(x),
            _ => false,
        }
        &&& w.epoch_rolling_gas_cost_summary matches Some(x) && self.epoch_rolling_gas_cost_summary.carried_by(x)
        &&& w.timestamp matches Some(t) && timestamp_carried(self.timestamp_ms, t, exact)
        &&& all_carried(
            self.checkpoint_commitments@,
            w.commitments@,
            |d: CheckpointCommitment, x: wire::CheckpointCommitment| d.carried_by(x),
        )
        &&& match (self.end_of_epoch_data, w.end_of_epoch_data) {
            (None, None) => true,
            (Some(d), Some(x)) => d.carried_by(x),
            _ => false,
        }
        &&& w.version_specific_data@ == self.version_specific_data@
    }

    /// The first failure, checking the fields in order.
    pub open spec fn wire_error(w: wire::CheckpointSummary) -> Option<ConversionFailure> {
        either(
            required(w.content_digest, "content_digest", |x| CheckpointContentsDigest::wire_error(x)),
            either(
                optional(w.previous_digest, |x| CheckpointDigest::wire_error(x)),
                either(
                    required(w.epoch_rolling_gas_cost_summary, "epoch_rolling_gas_cost_summary", |x| GasCostSummary::wire_error(x)),
                    either(
                        required(w.timestamp, "timestamp", |t| timestamp_error(t)),
                        either(
                            first_error(w.commitments@, |x| CheckpointCommitment::wire_error(x)),
                            optional(w.end_of_epoch_data, |x| EndOfEpochData::wire_error(x)),
                        ),
                    ),
                ),
            ),
        )
    }

    pub fn to_wire(&self) -> (w: wire::CheckpointSummary)
        ensures
            self.carried_by(w, true),
    {
        wire::CheckpointSummary {
            epoch: self.epoch,
            sequence_number: self.sequence_number,
            total_network_transactions: self.network_total_transactions,
            content_digest: Some(self.content_digest.to_wire()),
            previous_digest: match &self.previous_digest {
                None => None,
                Some(d) => Some(d.to_wire()),
            },
            epoch_rolling_gas_cost_summary: Some(self.epoch_rolling_gas_cost_summary.to_wire()),
            timestamp: Some(timestamp_ms_to_proto(self.timestamp_ms)),
            commitments: map_to_wire(
                &self.checkpoint_commitments,
                CheckpointCommitment::to_wire,
                Ghost(|d: CheckpointCommitment, x: wire::CheckpointCommitment| d.carried_by(x)),
            ),
            end_of_epoch_data: match &self.end_of_epoch_data {
                None => None,
                Some(d) => Some(d.to_wire()),
            },
            version_specific_data: bytes_to_wire(&self.version_specific_data),
        }
    }

    pub fn from_wire(w: &wire::CheckpointSummary) -> (r: Result<Self, TryFromProtoError>)
        ensures
            match r {
                Ok(d) => Self::wire_error(*w) is None && d.carried_by(*w, false),
                Err(e) => Self::wire_error(*w) == Some(e@),
            },
    {
        let content_digest = match &w.content_digest {
            None => return Err(TryFromProtoError::missing("content_digest")),
            Some(x) => CheckpointContentsDigest::from_wire(x)?,
        };
        let previous_digest = match &w.previous_digest {
            None => None,
            Some(x) => Some(CheckpointDigest::from_wire(x)?),
        };
        let epoch_rolling_gas_cost_summary = match &w.epoch_rolling_gas_cost_summary {
            None => return Err(TryFromProtoError::missing("epoch_rolling_gas_cost_summary")),
            Some(x) => GasCostSummary::from_wire(x)?,
        };
        let timestamp_ms = match w.timestamp {
            None => return Err(TryFromProtoError::missing("timestamp")),
            Some(t) => proto_to_timestamp_ms(t)?,
        };
        let checkpoint_commitments = try_map_from_wire(
            &w.commitments,
            CheckpointCommitment::from_wire,
            Ghost(|x| CheckpointCommitment::wire_error(x)),
            Ghost(|d: CheckpointCommitment, x: wire::CheckpointCommitment| d.carried_by(x)),
        )?;
        let end_of_epoch_data = match &w.end_of_epoch_data {
            None => None,
            Some(x) => Some(EndOfEpochData::from_wire(x)?),
        };
        let version_specific_data = bytes_to_wire(&w.version_specific_data);
        Ok(CheckpointSummary { epoch: w.epoch, sequence_number: w.sequence_number, network_total_transactions: w.total_network_transactions, content_digest, previous_digest, epoch_rolling_gas_cost_summary, timestamp_ms, checkpoint_commitments, end_of_epoch_data, version_specific_data })
    }

    /// The wire form reads back without error and, as written, is also as read.
    pub proof fn lemma_wire_round_trip()
        ensures
            forall|d: Self, w: wire::CheckpointSummary, exact: bool| #[trigger] d.carried_by(w, exact) ==> Self::wire_error(w) is None,
            forall|d: Self, w: wire::CheckpointSummary| #[trigger] d.carried_by(w, true) ==> d.carried_by(w, false),
    {
        CheckpointCommitment::lemma_wire_round_trip();
        CheckpointContentsDigest::lemma_wire_round_trip();
        CheckpointDigest::lemma_wire_round_trip();
        EndOfEpochData::lemma_wire_round_trip();
        GasCostSummary::lemma_wire_round_trip();
        assert forall|ms: u64, t: wire::Timestamp| #[trigger] timestamp_carried(ms, t, true) implies timestamp_carried(ms, t, false) by {
            lemma_timestamp_exact_is_read(ms, t);
        }
        assert forall|d: Self, w: wire::CheckpointSummary, exact: bool| #[trigger] d.carried_by(w, exact) implies Self::wire_error(w) is None by {
            lemma_carried_has_no_error(
                d.checkpoint_commitments@,
                w.commitments@,
                |d: CheckpointCommitment, x: wire::CheckpointCommitment| d.carried_by(x),
                |x| CheckpointCommitment::wire_error(x),
            );
        }
    }
}

impl CheckpointTransactionInfo {
    pub open spec fn carried_by(self, w: wire::CheckpointedTransactionInfo, exact: bool) -> bool {
        &&& w.transaction matches Some(x) && self.transaction.carried_by(x, exact)
        &&& w.effects matches Some(x) && self.effects.carried_by(x)
        &&& all_carried(
            self.signatures@,
            w.signatures@,
            |d: UserSignature, x: wire::UserSignature| d.carried_by(x),
        )
    }

    /// The first failure, checking the fields in order.
    pub open spec fn wire_error(w: wire::CheckpointedTransactionInfo) -> Option<ConversionFailure> {
        either(
            required(w.transaction, "transaction", |x| Transaction::wire_error(x)),
            either(
                required(w.effects, "effects", |x| TransactionEffects::wire_error(x)),
                first_error(w.signatures@, |x| UserSignature::wire_error(x)),
            ),
        )
    }

    pub fn to_wire(&self) -> (w: wire::CheckpointedTransactionInfo)
        ensures
            self.carried_by(w, true),
    {
        wire::CheckpointedTransactionInfo {
            transaction: Some(self.transaction.to_wire()),
            effects: Some(self.effects.to_wire()),
            signatures: map_to_wire(
                &self.signatures,
                UserSignature::to_wire,
                Ghost(|d: UserSignature, x: wire::UserSignature| d.carried_by(x)),
            ),
        }
    }

    pub fn from_wire(w: &wire::CheckpointedTransactionInfo) -> (r: Result<Self, TryFromProtoError>)
        ensures
            match r {
                Ok(d) => Self::wire_error(*w) is None && d.carried_by(*w, false),
                Err(e) => Self::wire_error(*w) == Some(e@),
            },
    {
        let transaction = match &w.transaction {
            None => return Err(TryFromProtoError::missing("transaction")),
            Some(x) => Transaction::from_wire(x)?,
        };
        let effects = match &w.effects {
            None => return Err(TryFromProtoError::missing("effects")),
            Some(x) => TransactionEffects::from_wire(x)?,
        };
        let signatures = try_map_from_wire(
            &w.signatures,
            UserSignature::from_wire,
            Ghost(|x| UserSignature::wire_error(x)),
            Ghost(|d: UserSignature, x: wire::UserSignature| d.carried_by(x)),
        )?;
        Ok(CheckpointTransactionInfo { transaction, effects, signatures })
    }

    /// The wire form reads back without error and, as written, is also as read.
    pub proof fn lemma_wire_round_trip()
        ensures
            forall|d: Self, w: wire::CheckpointedTransactionInfo, exact: bool| #[trigger] d.carried_by(w, exact) ==> Self::wire_error(w) is None,
            forall|d: Self, w: wire::CheckpointedTransactionInfo| #[trigger] d.carried_by(w, true) ==> d.carried_by(w, false),
    {
        Transaction::lemma_wire_round_trip();
        TransactionEffects::lemma_wire_round_trip();
        UserSignature::lemma_wire_round_trip();
        assert forall|d: Self, w: wire::CheckpointedTransactionInfo, exact: bool| #[trigger] d.carried_by(w, exact) implies Self::wire_error(w) is None by {
            lemma_carried_has_no_error(
                d.signatures@,
                w.signatures@,
                |d: UserSignature, x: wire::UserSignature| d.carried_by(x),
                |x| UserSignature::wire_error(x),
            );
        }
    }
}

impl CheckpointContents {
    pub open spec fn carried_by(self, w: wire::CheckpointContents, exact: bool) -> bool {
        w.contents matches Some(wire::Contents::V1(v1)) && all_carried(
            self.0@,
            v1.transactions@,
            |d: CheckpointTransactionInfo, x: wire::CheckpointedTransactionInfo| d.carried_by(x, exact),
        )
    }

    pub open spec fn wire_error(w: wire::CheckpointContents) -> Option<ConversionFailure> {
        match w.contents {
            None => missing("commitment"),
            Some(wire::Contents::V1(v1)) => first_error(
                v1.transactions@,
                |x| CheckpointTransactionInfo::wire_error(x),
            ),
        }
    }

    pub fn to_wire(&self) -> (w: wire::CheckpointContents)
        ensures
            self.carried_by(w, true),
    {
        let transactions = map_to_wire(
            &self.0,
            CheckpointTransactionInfo::to_wire,
            Ghost(|d: CheckpointTransactionInfo, x: wire::CheckpointedTransactionInfo| d.carried_by(x, true)),
        );
        wire::CheckpointContents {
            contents: Some(wire::Contents::V1(wire::CheckpointContentsV1 { transactions })),
        }
    }

    pub fn from_wire(w: &wire::CheckpointContents) -> (r: Result<Self, TryFromProtoError>)
        ensures
            match r {
                Ok(d) => Self::wire_error(*w) is None && d.carried_by(*w, false),
                Err(e) => Self::wire_error(*w) == Some(e@),
            },
    {
        match &w.contents {
            None => Err(TryFromProtoError::missing("commitment")),
            Some(wire::Contents::V1(v1)) => {
                let transactions = try_map_from_wire(
                    &v1.transactions,
                    CheckpointTransactionInfo::from_wire,
                    Ghost(|x| CheckpointTransactionInfo::wire_error(x)),
                    Ghost(|d: CheckpointTransactionInfo, x: wire::CheckpointedTransactionInfo| d.carried_by(x, false)),
                )?;
                Ok(CheckpointContents(transactions))
            },
        }
    }

    pub proof fn lemma_wire_round_trip()
        ensures
            forall|d: Self, w: wire::CheckpointContents, exact: bool| #[trigger] d.carried_by(w, exact) ==> Self::wire_error(w) is None,
            forall|d: Self, w: wire::CheckpointContents| #[trigger] d.carried_by(w, true) ==> d.carried_by(w, false),
    {
        CheckpointTransactionInfo::lemma_wire_round_trip();
        assert forall|d: Self, w: wire::CheckpointContents, exact: bool| #[trigger] d.carried_by(w, exact) implies Self::wire_error(w) is None by {
            if let Some(wire::Contents::V1(v1)) = w.contents {
                lemma_carried_has_no_error(
                    d.0@,
                    v1.transactions@,
                    |d: CheckpointTransactionInfo, x: wire::CheckpointedTransactionInfo| d.carried_by(x, exact),
                    |x| CheckpointTransactionInfo::wire_error(x),
                );
            }
        }
        assert forall|d: Self, w: wire::CheckpointContents| #[trigger] d.carried_by(w, true) implies d.carried_by(w, false) by {
            if let Some(wire::Contents::V1(v1)) = w.contents {
                lemma_all_carried_weaken(
                    d.0@,
                    v1.transactions@,
                    |d: CheckpointTransactionInfo, x: wire::CheckpointedTransactionInfo| d.carried_by(x, true),
                    |d: CheckpointTransactionInfo, x: wire::CheckpointedTransactionInfo| d.carried_by(x, false),
                );
            }
        }
    }
}

} // verus!
