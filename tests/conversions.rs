use sui_proto::domain::{
    ActiveJwk, Address, Argument, AuthenticatorStateExpire, AuthenticatorStateUpdate,
    Bls12381PublicKey, CancelledTransaction, ChangeEpoch, ChangedObject, CheckpointCommitment,
    CheckpointContents, CheckpointContentsDigest, CheckpointDigest, CheckpointSummary,
    CheckpointTransactionInfo, Command, ConsensusCommitDigest, ConsensusCommitPrologue,
    ConsensusCommitPrologueV2, ConsensusCommitPrologueV3, ConsensusDeterminedVersionAssignments,
    Digest, EffectsAuxiliaryDataDigest, EffectsObjectChange, EndOfEpochData,
    EndOfEpochTransactionKind, ExecutionStatus, GasCostSummary, GasPayment, GenesisTransaction,
    IdOperation, Identifier, Input, Jwk, JwkId, MakeMoveVector, MergeCoins, ModifiedAtVersion,
    MoveCall, Object, ObjectDigest, ObjectId, ObjectIn, ObjectOut, ObjectReference,
    ObjectReferenceWithOwner, Owner, ProgrammableTransaction, Publish, RandomnessStateUpdate,
    SplitCoins, SystemPackage, Transaction, TransactionDigest, TransactionEffects,
    TransactionEffectsV1, TransactionEffectsV2, TransactionEventsDigest, TransactionExpiration,
    TransactionKind, TransferObjects, TypeTag, UnchangedSharedKind, UnchangedSharedObject,
    Upgrade, UserSignature, ValidatorCommitteeMember, VersionAssignment,
};
use sui_proto::wire;
use sui_proto::{proto_to_timestamp_ms, timestamp_ms_to_proto, SourceError, TryFromProtoError};

fn bytes32(seed: u8) -> [u8; 32] {
    let mut b = [0u8; 32];
    for (i, x) in b.iter_mut().enumerate() {
        *x = seed.wrapping_add(i as u8);
    }
    b
}

fn object_ref(seed: u8) -> ObjectReference {
    ObjectReference {
        object_id: ObjectId(bytes32(seed)),
        version: seed as u64 * 10,
        digest: ObjectDigest(bytes32(seed + 1)),
    }
}

fn gas() -> GasCostSummary {
    GasCostSummary {
        computation_cost: 1,
        storage_cost: 2,
        storage_rebate: 3,
        non_refundable_storage_fee: 4,
    }
}

fn effects_v1() -> TransactionEffectsV1 {
    TransactionEffectsV1 {
        status: ExecutionStatus::Failure { command: Some(2) },
        epoch: 7,
        gas_used: gas(),
        modified_at_versions: vec![ModifiedAtVersion { object_id: ObjectId(bytes32(3)), version: 9 }],
        shared_objects: vec![object_ref(4)],
        transaction_digest: TransactionDigest(bytes32(5)),
        created: vec![ObjectReferenceWithOwner {
            reference: object_ref(6),
            owner: Owner::Address(Address(bytes32(7))),
        }],
        mutated: vec![ObjectReferenceWithOwner { reference: object_ref(8), owner: Owner::Shared(12) }],
        unwrapped: vec![ObjectReferenceWithOwner {
            reference: object_ref(9),
            owner: Owner::Object(ObjectId(bytes32(10))),
        }],
        deleted: vec![object_ref(11)],
        unwrapped_then_deleted: vec![],
        wrapped: vec![object_ref(12), object_ref(13)],
        gas_object: ObjectReferenceWithOwner { reference: object_ref(14), owner: Owner::Immutable },
        events_digest: Some(TransactionEventsDigest(bytes32(15))),
        dependencies: vec![TransactionDigest(bytes32(16)), TransactionDigest(bytes32(17))],
    }
}

fn effects_v2() -> TransactionEffectsV2 {
    TransactionEffectsV2 {
        status: ExecutionStatus::Success,
        epoch: 8,
        gas_used: gas(),
        transaction_digest: TransactionDigest(bytes32(20)),
        gas_object_index: Some(0),
        events_digest: None,
        dependencies: vec![TransactionDigest(bytes32(21))],
        lamport_version: 99,
        changed_objects: vec![
            ChangedObject {
                object_id: ObjectId(bytes32(22)),
                change: EffectsObjectChange {
                    input_state: ObjectIn::NotExist,
                    output_state: ObjectOut::ObjectWrite {
                        digest: ObjectDigest(bytes32(23)),
                        owner: Owner::Address(Address(bytes32(24))),
                    },
                    id_operation: IdOperation::Created,
                },
            },
            ChangedObject {
                object_id: ObjectId(bytes32(25)),
                change: EffectsObjectChange {
                    input_state: ObjectIn::Exist {
                        version: 3,
                        digest: ObjectDigest(bytes32(26)),
                        owner: Owner::Immutable,
                    },
                    output_state: ObjectOut::PackageWrite { version: 4, digest: ObjectDigest(bytes32(27)) },
                    id_operation: IdOperation::NoOperation,
                },
            },
            ChangedObject {
                object_id: ObjectId(bytes32(28)),
                change: EffectsObjectChange {
                    input_state: ObjectIn::NotExist,
                    output_state: ObjectOut::NotExist,
                    id_operation: IdOperation::Deleted,
                },
            },
        ],
        unchanged_shared_objects: vec![
            UnchangedSharedObject {
                object_id: ObjectId(bytes32(29)),
                kind: UnchangedSharedKind::ReadOnlyRoot { version: 5, digest: ObjectDigest(bytes32(30)) },
            },
            UnchangedSharedObject { object_id: ObjectId(bytes32(31)), kind: UnchangedSharedKind::MutateDeleted { version: 6 } },
            UnchangedSharedObject { object_id: ObjectId(bytes32(32)), kind: UnchangedSharedKind::ReadDeleted { version: 7 } },
            UnchangedSharedObject { object_id: ObjectId(bytes32(33)), kind: UnchangedSharedKind::Cancelled { version: 8 } },
            UnchangedSharedObject { object_id: ObjectId(bytes32(34)), kind: UnchangedSharedKind::PerEpochConfig },
        ],
        auxiliary_data_digest: Some(EffectsAuxiliaryDataDigest(bytes32(35))),
    }
}

fn programmable() -> ProgrammableTransaction {
    ProgrammableTransaction {
        inputs: vec![
            Input::Pure { value: vec![1, 2, 3] },
            Input::ImmutableOrOwned(object_ref(40)),
            Input::Shared { object_id: ObjectId(bytes32(41)), initial_shared_version: 2, mutable: true },
            Input::Receiving(object_ref(42)),
        ],
        commands: vec![
            Command::MoveCall(MoveCall {
                package: ObjectId(bytes32(43)),
                module: Identifier("coin".to_string()),
                function: Identifier("split".to_string()),
                type_arguments: vec![TypeTag("0x2::sui::SUI".to_string())],
                arguments: vec![Argument::Gas, Argument::Input(0), Argument::Result(1), Argument::NestedResult(2, 3)],
            }),
            Command::TransferObjects(TransferObjects { objects: vec![Argument::Result(0)], address: Argument::Input(1) }),
            Command::SplitCoins(SplitCoins { coin: Argument::Gas, amounts: vec![Argument::Input(2)] }),
            Command::MergeCoins(MergeCoins { coin: Argument::Input(3), coins_to_merge: vec![Argument::Input(4)] }),
            Command::Publish(Publish { modules: vec![vec![0xa1, 0x1c], vec![]], dependencies: vec![ObjectId(bytes32(44))] }),
            Command::MakeMoveVector(MakeMoveVector { type_: Some(TypeTag("u64".to_string())), elements: vec![] }),
            Command::MakeMoveVector(MakeMoveVector { type_: None, elements: vec![Argument::Input(5)] }),
            Command::Upgrade(Upgrade {
                modules: vec![vec![7]],
                dependencies: vec![],
                package: ObjectId(bytes32(45)),
                ticket: Argument::Result(6),
            }),
        ],
    }
}

fn transaction(kind: TransactionKind) -> Transaction {
    Transaction {
        kind,
        sender: Address(bytes32(50)),
        gas_payment: GasPayment { objects: vec![object_ref(51)], owner: Address(bytes32(52)), price: 1000, budget: 5_000_000 },
        expiration: TransactionExpiration::Epoch(12),
    }
}

fn change_epoch() -> ChangeEpoch {
    ChangeEpoch {
        epoch: 3,
        protocol_version: 40,
        storage_charge: 1,
        computation_charge: 2,
        storage_rebate: 3,
        non_refundable_storage_fee: 4,
        epoch_start_timestamp_ms: 1_700_000_000_123,
        system_packages: vec![SystemPackage { version: 1, modules: vec![vec![1, 2]], dependencies: vec![ObjectId(bytes32(60))] }],
    }
}

fn prologue_v3() -> ConsensusCommitPrologueV3 {
    ConsensusCommitPrologueV3 {
        epoch: 10,
        round: 11,
        commit_timestamp_ms: 1500,
        sub_dag_index: Some(77),
        consensus_commit_digest: ConsensusCommitDigest(bytes32(70)),
        consensus_determined_version_assignments: ConsensusDeterminedVersionAssignments::CancelledTransactions {
            cancelled_transactions: vec![CancelledTransaction {
                digest: TransactionDigest(bytes32(71)),
                version_assignments: vec![
                    VersionAssignment { object_id: ObjectId(bytes32(72)), version: 1 },
                    VersionAssignment { object_id: ObjectId(bytes32(73)), version: 2 },
                ],
            }],
        },
    }
}

fn all_kinds() -> Vec<TransactionKind> {
    vec![
        TransactionKind::ProgrammableTransaction(programmable()),
        TransactionKind::ChangeEpoch(change_epoch()),
        TransactionKind::Genesis(GenesisTransaction { objects: vec![Object(vec![9, 9]), Object(vec![])] }),
        TransactionKind::ConsensusCommitPrologue(ConsensusCommitPrologue { epoch: 1, round: 2, commit_timestamp_ms: 3 }),
        TransactionKind::AuthenticatorStateUpdate(AuthenticatorStateUpdate {
            epoch: 1,
            round: 2,
            new_active_jwks: vec![ActiveJwk {
                jwk_id: JwkId { iss: "https://accounts.example.com".to_string(), kid: "k1".to_string() },
                jwk: Jwk { kty: "RSA".to_string(), e: "AQAB".to_string(), n: "ünï".to_string(), alg: "RS256".to_string() },
                epoch: 4,
            }],
            authenticator_obj_initial_shared_version: 5,
        }),
        TransactionKind::EndOfEpoch(vec![
            EndOfEpochTransactionKind::ChangeEpoch(change_epoch()),
            EndOfEpochTransactionKind::AuthenticatorStateCreate,
            EndOfEpochTransactionKind::AuthenticatorStateExpire(AuthenticatorStateExpire {
                min_epoch: 1,
                authenticator_object_initial_shared_version: 2,
            }),
            EndOfEpochTransactionKind::RandomnessStateCreate,
            EndOfEpochTransactionKind::DenyListStateCreate,
            EndOfEpochTransactionKind::BridgeStateCreate { chain_id: CheckpointDigest(bytes32(80)) },
            EndOfEpochTransactionKind::BridgeCommitteeInit { bridge_object_version: 81 },
        ]),
        TransactionKind::RandomnessStateUpdate(RandomnessStateUpdate {
            epoch: 1,
            randomness_round: 2,
            random_bytes: vec![5, 6, 7],
            randomness_obj_initial_shared_version: 3,
        }),
        TransactionKind::ConsensusCommitPrologueV2(ConsensusCommitPrologueV2 {
            epoch: 1,
            round: 2,
            commit_timestamp_ms: 3,
            consensus_commit_digest: ConsensusCommitDigest(bytes32(90)),
        }),
        TransactionKind::ConsensusCommitPrologueV3(prologue_v3()),
    ]
}

fn summary() -> CheckpointSummary {
    CheckpointSummary {
        epoch: 1,
        sequence_number: 2,
        network_total_transactions: 3,
        content_digest: CheckpointContentsDigest(bytes32(100)),
        previous_digest: Some(CheckpointDigest(bytes32(101))),
        epoch_rolling_gas_cost_summary: gas(),
        timestamp_ms: 1_234_567,
        checkpoint_commitments: vec![CheckpointCommitment::EcmhLiveObjectSet { digest: Digest(bytes32(102)) }],
        end_of_epoch_data: Some(EndOfEpochData {
            next_epoch_committee: vec![ValidatorCommitteeMember { public_key: Bls12381PublicKey([3u8; 96]), stake: 10 }],
            next_epoch_protocol_version: 41,
            epoch_commitments: vec![],
        }),
        version_specific_data: vec![1, 2, 3],
    }
}

fn missing_of(e: TryFromProtoError) -> Option<&'static str> {
    e.missing_field()
}

#[test]
fn effects_round_trip_both_generations() {
    for d in [TransactionEffects::V1(Box::new(effects_v1())), TransactionEffects::V2(Box::new(effects_v2()))] {
        let w = d.to_wire();
        assert_eq!(TransactionEffects::from_wire(&w).unwrap(), d);
    }
}

#[test]
fn transaction_round_trip_every_kind() {
    for kind in all_kinds() {
        let d = transaction(kind);
        let w = d.to_wire();
        assert_eq!(Transaction::from_wire(&w).unwrap(), d);
    }
}

#[test]
fn checkpoint_summary_round_trip() {
    let d = summary();
    let w = d.to_wire();
    assert_eq!(w.timestamp, Some(wire::Timestamp { seconds: 1234, nanos: 567_000_000 }));
    assert_eq!(CheckpointSummary::from_wire(&w).unwrap(), d);
    let mut bare = summary();
    bare.previous_digest = None;
    bare.end_of_epoch_data = None;
    let w = bare.to_wire();
    assert!(w.previous_digest.is_none() && w.end_of_epoch_data.is_none());
    assert_eq!(CheckpointSummary::from_wire(&w).unwrap(), bare);
}

#[test]
fn checkpoint_contents_round_trip() {
    let d = CheckpointContents(vec![
        CheckpointTransactionInfo {
            transaction: transaction(TransactionKind::ProgrammableTransaction(programmable())),
            effects: TransactionEffects::V2(Box::new(effects_v2())),
            signatures: vec![UserSignature(vec![0, 1, 2]), UserSignature(vec![])],
        },
        CheckpointTransactionInfo {
            transaction: transaction(TransactionKind::ConsensusCommitPrologueV3(prologue_v3())),
            effects: TransactionEffects::V1(Box::new(effects_v1())),
            signatures: vec![],
        },
    ]);
    let w = d.to_wire();
    assert_eq!(CheckpointContents::from_wire(&w).unwrap(), d);
    assert_eq!(CheckpointContents::from_wire(&wire::CheckpointContents { contents: None }).unwrap_err().missing_field(), Some("commitment"));
}

#[test]
fn first_prologue_read_as_second_fails() {
    let d = ConsensusCommitPrologue { epoch: 4, round: 5, commit_timestamp_ms: 6 };
    let w = d.to_wire();
    assert!(w.consensus_commit_digest.is_none() && w.sub_dag_index.is_none());
    assert_eq!(ConsensusCommitPrologue::from_wire(&w).unwrap(), d);
    let e = ConsensusCommitPrologueV2::from_wire(&w).unwrap_err();
    assert_eq!(missing_of(e), Some("consensus_commit_digest"));
}

#[test]
fn third_prologue_version_dispatch() {
    let d = prologue_v3();
    let w = d.to_wire();
    let back = ConsensusCommitPrologueV3::from_wire(&w).unwrap();
    assert_eq!(back.sub_dag_index, Some(77));
    assert_eq!(back.consensus_determined_version_assignments, d.consensus_determined_version_assignments);
    assert_eq!(back, d);
    let first = ConsensusCommitPrologue::from_wire(&w).unwrap();
    assert_eq!(first, ConsensusCommitPrologue { epoch: 10, round: 11, commit_timestamp_ms: 1500 });
    let second = ConsensusCommitPrologueV2::from_wire(&w).unwrap();
    assert_eq!(second.consensus_commit_digest, d.consensus_commit_digest);
    let mut no_assignments = w.clone();
    no_assignments.consensus_determined_version_assignments = None;
    let e = ConsensusCommitPrologueV3::from_wire(&no_assignments).unwrap_err();
    assert_eq!(e.missing_field(), Some("consensus_determined_version_assignments"));
}

#[test]
fn summary_missing_content_digest() {
    let mut w = summary().to_wire();
    w.content_digest = None;
    assert_eq!(CheckpointSummary::from_wire(&w).unwrap_err().missing_field(), Some("content_digest"));
    let mut w = summary().to_wire();
    w.timestamp = None;
    assert_eq!(CheckpointSummary::from_wire(&w).unwrap_err().missing_field(), Some("timestamp"));
    let mut w = summary().to_wire();
    w.epoch_rolling_gas_cost_summary = None;
    assert_eq!(CheckpointSummary::from_wire(&w).unwrap_err().missing_field(), Some("epoch_rolling_gas_cost_summary"));
}

#[test]
fn effects_missing_fields() {
    let base = effects_v1().to_wire();
    let mut w = base.clone();
    w.gas_used = None;
    assert_eq!(TransactionEffectsV1::from_wire(&w).unwrap_err().missing_field(), Some("gas_used"));
    let mut w = base.clone();
    w.status = None;
    assert_eq!(TransactionEffectsV1::from_wire(&w).unwrap_err().missing_field(), Some("status"));
    let mut w = base.clone();
    w.transaction_digest = None;
    assert_eq!(TransactionEffectsV1::from_wire(&w).unwrap_err().missing_field(), Some("transaction_digest"));
    let mut w = base;
    w.gas_object = None;
    assert_eq!(TransactionEffectsV1::from_wire(&w).unwrap_err().missing_field(), Some("gas_object"));

    let base = effects_v2().to_wire();
    let mut w = base.clone();
    w.status = None;
    assert_eq!(TransactionEffectsV2::from_wire(&w).unwrap_err().missing_field(), Some("status"));
    let mut w = base.clone();
    w.gas_used = None;
    assert_eq!(TransactionEffectsV2::from_wire(&w).unwrap_err().missing_field(), Some("gas_used"));
    let mut w = base;
    w.transaction_digest = None;
    assert_eq!(TransactionEffectsV2::from_wire(&w).unwrap_err().missing_field(), Some("transaction_digest"));
}

#[test]
fn union_missing_discriminants() {
    let e = TransactionEffects::from_wire(&wire::TransactionEffects { version: None }).unwrap_err();
    assert_eq!(e.missing_field(), Some("version"));
    let e = Transaction::from_wire(&wire::Transaction { version: None }).unwrap_err();
    assert_eq!(e.missing_field(), Some("version"));
    let e = TransactionKind::from_wire(&wire::TransactionKind { kind: None }).unwrap_err();
    assert_eq!(e.missing_field(), Some("kind"));
    let e = Argument::from_wire(&wire::Argument { kind: None }).unwrap_err();
    assert_eq!(e.missing_field(), Some("kind"));
    let e = Command::from_wire(&wire::Command { command: None }).unwrap_err();
    assert_eq!(e.missing_field(), Some("command"));
    let e = TransactionExpiration::from_wire(&wire::TransactionExpiration { expiration: None }).unwrap_err();
    assert_eq!(e.missing_field(), Some("expiration"));
    let e = CheckpointCommitment::from_wire(&wire::CheckpointCommitment { commitment: None }).unwrap_err();
    assert_eq!(e.missing_field(), Some("commitment"));
}

#[test]
fn digest_length_validation() {
    for n in [31usize, 33, 0] {
        let e = Digest::from_wire(&wire::Digest { digest: vec![7u8; n] }).unwrap_err();
        assert_eq!(e.source(), Some(SourceError::WrongLength));
        assert_eq!(e.missing_field(), None);
    }
    let bytes: Vec<u8> = (0u8..32).collect();
    let d = Digest::from_wire(&wire::Digest { digest: bytes.clone() }).unwrap();
    assert_eq!(d.0.to_vec(), bytes);
    assert_eq!(d.to_wire().digest, bytes);
    let e = Address::from_wire(&wire::Address { address: vec![1u8; 20] }).unwrap_err();
    assert_eq!(e.source(), Some(SourceError::WrongLength));
    let e = ValidatorCommitteeMember::from_wire(&wire::ValidatorCommitteeMember { public_key: vec![0u8; 48], stake: 1 }).unwrap_err();
    assert_eq!(e.source(), Some(SourceError::WrongLength));
}

#[test]
fn id_operation_unknown_rejected() {
    let mut w = effects_v2().changed_objects[0].to_wire();
    assert_eq!(w.id_operation, 2);
    for (code, op) in [(1, IdOperation::NoOperation), (2, IdOperation::Created), (3, IdOperation::Deleted)] {
        w.id_operation = code;
        assert_eq!(ChangedObject::from_wire(&w).unwrap().change.id_operation, op);
    }
    for code in [0, 4, -1] {
        w.id_operation = code;
        let e = ChangedObject::from_wire(&w).unwrap_err();
        assert_eq!(e.missing_field(), Some("unknown id operation"));
    }
    assert!(IdOperation::from_wire(wire::IdOperation::Unknown).is_err());
    assert_eq!(IdOperation::Deleted.to_wire(), wire::IdOperation::Deleted);
}

#[test]
fn timestamp_boundaries() {
    assert_eq!(timestamp_ms_to_proto(1500), wire::Timestamp { seconds: 1, nanos: 500_000_000 });
    assert_eq!(proto_to_timestamp_ms(wire::Timestamp { seconds: 1, nanos: 500_000_000 }).unwrap(), 1500);
    let e = proto_to_timestamp_ms(wire::Timestamp { seconds: -1, nanos: 0 }).unwrap_err();
    assert_eq!(e.source(), Some(SourceError::IntegerOutOfRange));
    assert!(proto_to_timestamp_ms(wire::Timestamp { seconds: 0, nanos: -1 }).is_err());
    assert_eq!(proto_to_timestamp_ms(wire::Timestamp { seconds: 0, nanos: 1_999_999 }).unwrap(), 1);
    assert_eq!(proto_to_timestamp_ms(wire::Timestamp { seconds: 2, nanos: 1_500_000_000 }).unwrap(), 3500);
    assert!(proto_to_timestamp_ms(wire::Timestamp { seconds: i64::MAX, nanos: 0 }).is_err());
    let t = timestamp_ms_to_proto(u64::MAX);
    assert_eq!(t, wire::Timestamp { seconds: 18_446_744_073_709_551, nanos: 615_000_000 });
    assert_eq!(proto_to_timestamp_ms(t).unwrap(), u64::MAX);
    assert_eq!(timestamp_ms_to_proto(0), wire::Timestamp { seconds: 0, nanos: 0 });
}

#[test]
fn text_fields_reject_invalid_utf8() {
    let w = wire::Jwk { kty: b"RSA".to_vec(), e: vec![0xff, 0xfe], n: b"n".to_vec(), alg: b"RS256".to_vec() };
    let e = Jwk::from_wire(&w).unwrap_err();
    assert_eq!(e.source(), Some(SourceError::InvalidUtf8));
    let w = wire::JwkId { iss: "é€𝄞".as_bytes().to_vec(), kid: vec![] };
    let d = JwkId::from_wire(&w).unwrap();
    assert_eq!(d.iss, "é€𝄞");
    assert_eq!(d.kid, "");
    assert_eq!(d.to_wire(), w);
    let e = Identifier::from_wire(&wire::Identifier { identifier: vec![0xc0, 0x80] }).unwrap_err();
    assert_eq!(e.source(), Some(SourceError::InvalidUtf8));
}

#[test]
fn argument_index_out_of_range() {
    let w = wire::Argument { kind: Some(wire::ArgumentKind::Input(70_000)) };
    assert_eq!(Argument::from_wire(&w).unwrap_err().source(), Some(SourceError::IntegerOutOfRange));
    let w = wire::Argument { kind: Some(wire::ArgumentKind::NestedResult(wire::NestedResult { result: 1, subresult: 65_536 })) };
    assert_eq!(Argument::from_wire(&w).unwrap_err().source(), Some(SourceError::IntegerOutOfRange));
    let w = wire::Argument { kind: Some(wire::ArgumentKind::Result(65_535)) };
    assert_eq!(Argument::from_wire(&w).unwrap(), Argument::Result(65_535));
}

#[test]
fn sequence_stops_at_first_failure() {
    let mut w = effects_v1().to_wire();
    w.wrapped[0].object_id = None;
    w.wrapped[1].digest = Some(wire::Digest { digest: vec![1] });
    assert_eq!(TransactionEffectsV1::from_wire(&w).unwrap_err().missing_field(), Some("object_id"));
    let mut w = effects_v1().to_wire();
    w.wrapped[1].object_id = None;
    w.dependencies[0].digest = vec![];
    assert_eq!(TransactionEffectsV1::from_wire(&w).unwrap_err().missing_field(), Some("object_id"));
    let mut w = effects_v1().to_wire();
    w.dependencies[1].digest = vec![0; 3];
    assert_eq!(TransactionEffectsV1::from_wire(&w).unwrap_err().source(), Some(SourceError::WrongLength));
}

#[test]
fn union_payloads_are_explicit() {
    let w = ExecutionStatus::Success.to_wire();
    assert_eq!(w.kind, Some(wire::ExecutionStatusKind::Success(wire::Empty {})));
    let w = Owner::Immutable.to_wire();
    assert_eq!(w.kind, Some(wire::OwnerKind::Immutable(wire::Empty {})));
    let w = TransactionExpiration::NoExpiration.to_wire();
    assert_eq!(w.expiration, Some(wire::Expiration::NoExpiration(wire::Empty {})));
    let e = Owner::from_wire(&wire::Owner { kind: None }).unwrap_err();
    assert_eq!(e.missing_field(), Some("kind"));
}

#[test]
fn change_epoch_missing_timestamp() {
    let mut w = change_epoch().to_wire();
    w.epoch_start_timestamp = None;
    assert_eq!(ChangeEpoch::from_wire(&w).unwrap_err().missing_field(), Some("epoch_state_timestamp"));
}

#[test]
fn error_constructors() {
    let e = TryFromProtoError::missing("x");
    assert_eq!(e.missing_field(), Some("x"));
    assert_eq!(e.source(), None);
    let e = TryFromProtoError::from_error(SourceError::InvalidUtf8);
    assert_eq!(e.missing_field(), None);
    assert_eq!(e.source(), Some(SourceError::InvalidUtf8));
}
