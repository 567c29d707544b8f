//! Properties that relate the conversions to one another.
use vstd::prelude::*;

use crate::domain::{
    Argument, ChangedObject, ObjectIn, ObjectOut, ObjectReference, Owner, CancelledTransaction, CheckpointContents, CheckpointSummary, ConsensusCommitPrologue,
    ConsensusCommitPrologueV2, ConsensusCommitPrologueV3, ConsensusDeterminedVersionAssignments,
    Digest, IdOperation, Transaction, TransactionEffects, TransactionEffectsV1,
    TransactionEffectsV2, TransactionKind, VersionAssignment,
};
use crate::error::{missing, ConversionFailure, SourceError};
use crate::scalar::lemma_timestamp_round_trip;
use crate::seqs::lemma_all_carried_at;
use crate::wire;

verus! {

broadcast use vstd::array::group_array_axioms;

/// Round trip: the wire form that `to_wire` writes for a checkpoint summary
/// reads back without error, and is then also the wire form of the value read.
pub proof fn lemma_checkpoint_summary_round_trip(d: CheckpointSummary, w: wire::CheckpointSummary)
    requires
        d.carried_by(w, true),
    ensures
        CheckpointSummary::wire_error(w) is None,
        d.carried_by(w, false),
{
    CheckpointSummary::lemma_wire_round_trip();
}

/// Round trip for checkpoint contents.
pub proof fn lemma_checkpoint_contents_round_trip(d: CheckpointContents, w: wire::CheckpointContents)
    requires
        d.carried_by(w, true),
    ensures
        CheckpointContents::wire_error(w) is None,
        d.carried_by(w, false),
{
    CheckpointContents::lemma_wire_round_trip();
}

/// Round trip for transactions.
pub proof fn lemma_transaction_round_trip(d: Transaction, w: wire::Transaction)
    requires
        d.carried_by(w, true),
    ensures
        Transaction::wire_error(w) is None,
        d.carried_by(w, false),
{
    Transaction::lemma_wire_round_trip();
}

/// Round trip for transaction effects of either generation.
pub proof fn lemma_transaction_effects_round_trip(d: TransactionEffects, w: wire::TransactionEffects)
    requires
        d.carried_by(w),
    ensures
        TransactionEffects::wire_error(w) is None,
{
    TransactionEffects::lemma_wire_round_trip();
}

/// A first-generation prologue reads back as the first generation, but the
/// same wire value read as the second generation fails: it lacks the digest.
pub proof fn lemma_first_prologue_is_not_second(d: ConsensusCommitPrologue, w: wire::ConsensusCommitPrologue)
    requires
        d.carried_by(w, true),
    ensures
        ConsensusCommitPrologue::wire_error(w) is None,
        d.carried_by(w, false),
        ConsensusCommitPrologueV2::wire_error(w) == missing("consensus_commit_digest"),
{
    ConsensusCommitPrologue::lemma_wire_round_trip();
}

/// A checkpoint summary without its content digest fails on that field.
pub proof fn lemma_summary_missing_content_digest(w: wire::CheckpointSummary)
    requires
        w.content_digest is None,
    ensures
        CheckpointSummary::wire_error(w) == missing("content_digest"),
{
}

/// Effects of the first generation fail on the first of status, gas used and
/// transaction digest that is absent, when the fields before it are well formed.
pub proof fn lemma_effects_v1_missing_fields(w: wire::TransactionEffectsV1)
    ensures
        w.status is None ==> TransactionEffectsV1::wire_error(w) == missing("status"),
        w.status matches Some(s) && s.kind is Some && w.gas_used is None
            ==> TransactionEffectsV1::wire_error(w) == missing("gas_used"),
        w.status matches Some(s) && s.kind is Some && w.gas_used is Some && w.transaction_digest is None
            ==> TransactionEffectsV1::wire_error(w) == missing("transaction_digest"),
{
}

/// Effects of the second generation fail on the first of status, gas used and
/// transaction digest that is absent, when the fields before it are well formed.
pub proof fn lemma_effects_v2_missing_fields(w: wire::TransactionEffectsV2)
    ensures
        w.status is None ==> TransactionEffectsV2::wire_error(w) == missing("status"),
        w.status matches Some(s) && s.kind is Some && w.gas_used is None
            ==> TransactionEffectsV2::wire_error(w) == missing("gas_used"),
        w.status matches Some(s) && s.kind is Some && w.gas_used is Some && w.transaction_digest is None
            ==> TransactionEffectsV2::wire_error(w) == missing("transaction_digest"),
{
}

/// A union without its discriminant fails on it: `version` for effects and
/// transactions, `kind` for transaction kinds.
pub proof fn lemma_union_missing_discriminant(
    e: wire::TransactionEffects,
    t: wire::Transaction,
    k: wire::TransactionKind,
)
    ensures
        e.version is None ==> TransactionEffects::wire_error(e) == missing("version"),
        t.version is None ==> Transaction::wire_error(t) == missing("version"),
        k.kind is None ==> TransactionKind::wire_error(k) == missing("kind"),
{
}

/// A digest buffer reads exactly when it holds 32 bytes; any other length is a
/// wrapped length failure.
pub proof fn lemma_digest_length(w: wire::Digest)
    ensures
        w.digest@.len() == 32 ==> Digest::wire_error(w) is None,
        w.digest@.len() != 32 ==> Digest::wire_error(w) == Some(
            ConversionFailure::Source(SourceError::WrongLength),
        ),
{
}

/// The reserved unknown id operation is rejected; the three others read one
/// to one.
pub proof fn lemma_id_operation_unknown_rejected(w: wire::IdOperation)
    ensures
        w == wire::IdOperation::Unknown <==> IdOperation::wire_error(w) is Some,
        IdOperation::NoOperation.carried_by(w) <==> w == wire::IdOperation::NoOperation,
        IdOperation::Created.carried_by(w) <==> w == wire::IdOperation::Created,
        IdOperation::Deleted.carried_by(w) <==> w == wire::IdOperation::Deleted,
{
}

/// Round trip to the very value, for a reference: any object reference that
/// the wire form of `d` carries is `d`.
pub proof fn lemma_object_reference_read_back(d: ObjectReference, w: wire::ObjectReference, back: ObjectReference)
    requires
        d.carried_by(w),
        back.carried_by(w),
    ensures
        back == d,
{
    assert(back.object_id.0 =~= d.object_id.0);
    assert(back.digest.0 =~= d.digest.0);
}

/// Any owner that the wire form of `d` carries is `d`.
pub proof fn lemma_owner_read_back(d: Owner, w: wire::Owner, back: Owner)
    requires
        d.carried_by(w),
        back.carried_by(w),
    ensures
        back == d,
{
    match (d, back) {
        (Owner::Address(a), Owner::Address(b)) => {
            assert(a.0 =~= b.0);
        },
        (Owner::Object(a), Owner::Object(b)) => {
            assert(a.0 =~= b.0);
        },
        _ => {},
    }
}

/// Any changed object that the wire form of `d` carries is `d`.
pub proof fn lemma_changed_object_read_back(d: ChangedObject, w: wire::ChangedObject, back: ChangedObject)
    requires
        d.carried_by(w),
        back.carried_by(w),
    ensures
        back == d,
{
    assert(back.object_id.0 =~= d.object_id.0);
    match (d.change.input_state, back.change.input_state, w.input_state->0) {
        (
            ObjectIn::Exist { digest: a, owner: oa, .. },
            ObjectIn::Exist { digest: b, owner: ob, .. },
            wire::InputState::Exist(e),
        ) => {
            assert(a.0 =~= b.0);
            lemma_owner_read_back(oa, e.owner->0, ob);
        },
        _ => {},
    }
    match (d.change.output_state, back.change.output_state, w.output_state->0) {
        (
            ObjectOut::ObjectWrite { digest: a, owner: oa },
            ObjectOut::ObjectWrite { digest: b, owner: ob },
            wire::OutputState::ObjectWrite(o),
        ) => {
            assert(a.0 =~= b.0);
            lemma_owner_read_back(oa, o.owner->0, ob);
        },
        (ObjectOut::PackageWrite { digest: a, .. }, ObjectOut::PackageWrite { digest: b, .. }, _) => {
            assert(a.0 =~= b.0);
        },
        _ => {},
    }
}

/// Any argument that the wire form of `d` carries is `d`.
pub proof fn lemma_argument_read_back(d: Argument, w: wire::Argument, back: Argument)
    requires
        d.carried_by(w),
        back.carried_by(w),
    ensures
        back == d,
{
}

/// Round trip to the very value for the first two prologue generations: the
/// value read from the wire form that `to_wire` writes is the value written.
pub proof fn lemma_prologue_read_back(
    d1: ConsensusCommitPrologue,
    w1: wire::ConsensusCommitPrologue,
    back1: ConsensusCommitPrologue,
    d2: ConsensusCommitPrologueV2,
    w2: wire::ConsensusCommitPrologue,
    back2: ConsensusCommitPrologueV2,
)
    requires
        d1.carried_by(w1, true),
        back1.carried_by(w1, false),
        d2.carried_by(w2, true),
        back2.carried_by(w2, false),
    ensures
        back1 == d1,
        back2 == d2,
{
    lemma_timestamp_round_trip(d1.commit_timestamp_ms);
    lemma_timestamp_round_trip(d2.commit_timestamp_ms);
    assert(back2.consensus_commit_digest.0 =~= d2.consensus_commit_digest.0);
}

/// Two version assignments carried by one wire value are equal.
pub proof fn lemma_version_assignment_unique(a: VersionAssignment, b: VersionAssignment, w: wire::VersionAssignment)
    requires
        a.carried_by(w),
        b.carried_by(w),
    ensures
        a == b,
{
    assert(a.object_id.0 =~= b.object_id.0);
}

/// Two cancelled transactions carried by one wire value have the same digest
/// and the same version assignments.
pub proof fn lemma_cancelled_transaction_unique(
    a: CancelledTransaction,
    b: CancelledTransaction,
    w: wire::CancelledTransaction,
)
    requires
        a.carried_by(w),
        b.carried_by(w),
    ensures
        a.digest == b.digest,
        a.version_assignments@ == b.version_assignments@,
{
    assert(a.digest.0 =~= b.digest.0);
    assert forall|i: int| 0 <= i < a.version_assignments@.len() implies a.version_assignments@[i]
        == b.version_assignments@[i] by {
        let x = w.version_assignments@[i];
        let carried = |d: VersionAssignment, x: wire::VersionAssignment| d.carried_by(x);
        lemma_all_carried_at(a.version_assignments@, w.version_assignments@, carried, i);
        lemma_all_carried_at(b.version_assignments@, w.version_assignments@, carried, i);
        lemma_version_assignment_unique(a.version_assignments@[i], b.version_assignments@[i], x);
    }
    assert(a.version_assignments@ =~= b.version_assignments@);
}

/// Version dispatch: a third-generation prologue, written to the wire, reads
/// back as the third generation with the same sub-dag index and the same
/// cancelled transactions; read as the first generation it ignores those
/// fields and succeeds with the same epoch, round and time.
pub proof fn lemma_third_prologue_dispatch(
    d: ConsensusCommitPrologueV3,
    w: wire::ConsensusCommitPrologue,
    back: ConsensusCommitPrologueV3,
    first: ConsensusCommitPrologue,
)
    requires
        d.carried_by(w, true),
        back.carried_by(w, false),
        first.carried_by(w, false),
    ensures
        ConsensusCommitPrologueV3::wire_error(w) is None,
        ConsensusCommitPrologue::wire_error(w) is None,
        back.sub_dag_index == d.sub_dag_index,
        back.epoch == d.epoch && back.round == d.round,
        back.commit_timestamp_ms == d.commit_timestamp_ms,
        match (back.consensus_determined_version_assignments, d.consensus_determined_version_assignments) {
            (
                ConsensusDeterminedVersionAssignments::CancelledTransactions { cancelled_transactions: bs },
                ConsensusDeterminedVersionAssignments::CancelledTransactions { cancelled_transactions: ds },
            ) => bs@.len() == ds@.len() && forall|i: int| 0 <= i < bs@.len() ==> #[trigger] bs@[i].digest
                == ds@[i].digest && bs@[i].version_assignments@ == ds@[i].version_assignments@,
        },
        first.epoch == d.epoch && first.round == d.round,
        first.commit_timestamp_ms == d.commit_timestamp_ms,
{
    ConsensusCommitPrologueV3::lemma_wire_round_trip();
    ConsensusCommitPrologue::lemma_wire_round_trip();
    let ConsensusDeterminedVersionAssignments::CancelledTransactions { cancelled_transactions: bs } =
        back.consensus_determined_version_assignments;
    let ConsensusDeterminedVersionAssignments::CancelledTransactions { cancelled_transactions: ds } =
        d.consensus_determined_version_assignments;
    let wire::VersionAssignmentsKind::CancelledTransactions(x) =
        w.consensus_determined_version_assignments->0.kind->0;
    assert forall|i: int| 0 <= i < bs@.len() implies #[trigger] bs@[i].digest == ds@[i].digest
        && bs@[i].version_assignments@ == ds@[i].version_assignments@ by {
        let xi = x.cancelled_transactions@[i];
        let carried = |d: CancelledTransaction, x: wire::CancelledTransaction| d.carried_by(x);
        lemma_all_carried_at(bs@, x.cancelled_transactions@, carried, i);
        lemma_all_carried_at(ds@, x.cancelled_transactions@, carried, i);
        lemma_cancelled_transaction_unique(bs@[i], ds@[i], xi);
    }
}

} // verus!
