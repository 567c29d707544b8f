//! The canonical domain model. Every field is either always present or an
//! explicit `Option` or enum, and every identifier has its exact length.
use vstd::prelude::*;

verus! {

//
// Identifiers: each kind is its own type over exactly 32 bytes.
//

#[derive(Debug, Clone, Copy, PartialEq, Eq)]
pub struct Address(pub [u8; 32]);

#[derive(Debug, Clone, Copy, PartialEq, Eq)]
pub struct ObjectId(pub [u8; 32]);

#[derive(Debug, Clone, Copy, PartialEq, Eq)]
pub struct Digest(pub [u8; 32]);

#[derive(Debug, Clone, Copy, PartialEq, Eq)]
pub struct CheckpointDigest(pub [u8; 32]);

#[derive(Debug, Clone, Copy, PartialEq, Eq)]
pub struct CheckpointContentsDigest(pub [u8; 32]);

#[derive(Debug, Clone, Copy, PartialEq, Eq)]
pub struct TransactionDigest(pub [u8; 32]);

#[derive(Debug, Clone, Copy, PartialEq, Eq)]
pub struct TransactionEffectsDigest(pub [u8; 32]);

#[derive(Debug, Clone, Copy, PartialEq, Eq)]
pub struct TransactionEventsDigest(pub [u8; 32]);

#[derive(Debug, Clone, Copy, PartialEq, Eq)]
pub struct ObjectDigest(pub [u8; 32]);

#[derive(Debug, Clone, Copy, PartialEq, Eq)]
pub struct ConsensusCommitDigest(pub [u8; 32]);

#[derive(Debug, Clone, Copy, PartialEq, Eq)]
pub struct EffectsAuxiliaryDataDigest(pub [u8; 32]);

/// A validator's public key: a compressed point of 96 bytes.
#[derive(Debug, Clone, Copy, PartialEq, Eq)]
pub struct Bls12381PublicKey(pub [u8; 96]);

//
// Objects
//

#[derive(Debug, Clone, Copy, PartialEq, Eq)]
pub struct ObjectReference {
    pub object_id: ObjectId,
    pub version: u64,
    pub digest: ObjectDigest,
}

#[derive(Debug, Clone, Copy, PartialEq, Eq)]
pub enum Owner {
    Address(Address),
    Object(ObjectId),
    Shared(u64),
    Immutable,
}

/// A serialized object, carried as it is.
#[derive(Debug, Clone, PartialEq, Eq)]
pub struct Object(pub Vec<u8>);

/// A serialized user signature, carried as it is.
#[derive(Debug, Clone, PartialEq, Eq)]
pub struct UserSignature(pub Vec<u8>);

/// A Move identifier.
#[derive(Debug, Clone, PartialEq, Eq)]
pub struct Identifier(pub String);

/// A Move type tag, in its text form.
#[derive(Debug, Clone, PartialEq, Eq)]
pub struct TypeTag(pub String);

#[derive(Debug, Clone, Copy, PartialEq, Eq)]
pub enum ExecutionStatus {
    Success,
    Failure { command: Option<u64> },
}

#[derive(Debug, Clone, Copy, PartialEq, Eq)]
pub struct ValidatorCommitteeMember {
    pub public_key: Bls12381PublicKey,
    pub stake: u64,
}

//
// Checkpoints
//

#[derive(Debug, Clone, Copy, PartialEq, Eq)]
pub struct GasCostSummary {
    pub computation_cost: u64,
    pub storage_cost: u64,
    pub storage_rebate: u64,
    pub non_refundable_storage_fee: u64,
}

#[derive(Debug, Clone, Copy, PartialEq, Eq)]
pub enum CheckpointCommitment {
    EcmhLiveObjectSet { digest: Digest },
}

#[derive(Debug, Clone, PartialEq, Eq)]
pub struct EndOfEpochData {
    pub next_epoch_committee: Vec<ValidatorCommitteeMember>,
    pub next_epoch_protocol_version: u64,
    pub epoch_commitments: Vec<CheckpointCommitment>,
}

#[derive(Debug, Clone, PartialEq, Eq)]
pub struct CheckpointSummary {
    pub epoch: u64,
    pub sequence_number: u64,
    pub network_total_transactions: u64,
    pub content_digest: CheckpointContentsDigest,
    pub previous_digest: Option<CheckpointDigest>,
    pub epoch_rolling_gas_cost_summary: GasCostSummary,
    pub timestamp_ms: u64,
    pub checkpoint_commitments: Vec<CheckpointCommitment>,
    pub end_of_epoch_data: Option<EndOfEpochData>,
    pub version_specific_data: Vec<u8>,
}

#[derive(Debug, Clone, PartialEq, Eq)]
pub struct CheckpointTransactionInfo {
    pub transaction: Transaction,
    pub effects: TransactionEffects,
    pub signatures: Vec<UserSignature>,
}

#[derive(Debug, Clone, PartialEq, Eq)]
pub struct CheckpointContents(pub Vec<CheckpointTransactionInfo>);

//
// Effects
//

#[derive(Debug, Clone, PartialEq, Eq)]
pub enum TransactionEffects {
    V1(Box<TransactionEffectsV1>),
    V2(Box<TransactionEffectsV2>),
}

#[derive(Debug, Clone, PartialEq, Eq)]
pub struct TransactionEffectsV1 {
    pub status: ExecutionStatus,
    pub epoch: u64,
    pub gas_used: GasCostSummary,
    pub modified_at_versions: Vec<ModifiedAtVersion>,
    pub shared_objects: Vec<ObjectReference>,
    pub transaction_digest: TransactionDigest,
    pub created: Vec<ObjectReferenceWithOwner>,
    pub mutated: Vec<ObjectReferenceWithOwner>,
    pub unwrapped: Vec<ObjectReferenceWithOwner>,
    pub deleted: Vec<ObjectReference>,
    pub unwrapped_then_deleted: Vec<ObjectReference>,
    pub wrapped: Vec<ObjectReference>,
    pub gas_object: ObjectReferenceWithOwner,
    pub events_digest: Option<TransactionEventsDigest>,
    pub dependencies: Vec<TransactionDigest>,
}

#[derive(Debug, Clone, PartialEq, Eq)]
pub struct TransactionEffectsV2 {
    pub status: ExecutionStatus,
    pub epoch: u64,
    pub gas_used: GasCostSummary,
    pub transaction_digest: TransactionDigest,
    pub gas_object_index: Option<u32>,
    pub events_digest: Option<TransactionEventsDigest>,
    pub dependencies: Vec<TransactionDigest>,
    pub lamport_version: u64,
    pub changed_objects: Vec<ChangedObject>,
    pub unchanged_shared_objects: Vec<UnchangedSharedObject>,
    pub auxiliary_data_digest: Option<EffectsAuxiliaryDataDigest>,
}

#[derive(Debug, Clone, Copy, PartialEq, Eq)]
pub struct ModifiedAtVersion {
    pub object_id: ObjectId,
    pub version: u64,
}

#[derive(Debug, Clone, Copy, PartialEq, Eq)]
pub struct ObjectReferenceWithOwner {
    pub reference: ObjectReference,
    pub owner: Owner,
}

#[derive(Debug, Clone, Copy, PartialEq, Eq)]
pub enum ObjectIn {
    NotExist,
    Exist { version: u64, digest: ObjectDigest, owner: Owner },
}

#[derive(Debug, Clone, Copy, PartialEq, Eq)]
pub enum ObjectOut {
    NotExist,
    ObjectWrite { digest: ObjectDigest, owner: Owner },
    PackageWrite { version: u64, digest: ObjectDigest },
}

#[derive(Debug, Clone, Copy, PartialEq, Eq)]
pub enum IdOperation {
    NoOperation,
    Created,
    Deleted,
}

#[derive(Debug, Clone, Copy, PartialEq, Eq)]
pub struct EffectsObjectChange {
    pub input_state: ObjectIn,
    pub output_state: ObjectOut,
    pub id_operation: IdOperation,
}

#[derive(Debug, Clone, Copy, PartialEq, Eq)]
pub struct ChangedObject {
    pub object_id: ObjectId,
    pub change: EffectsObjectChange,
}

#[derive(Debug, Clone, Copy, PartialEq, Eq)]
pub enum UnchangedSharedKind {
    ReadOnlyRoot { version: u64, digest: ObjectDigest },
    MutateDeleted { version: u64 },
    ReadDeleted { version: u64 },
    Cancelled { version: u64 },
    PerEpochConfig,
}

#[derive(Debug, Clone, Copy, PartialEq, Eq)]
pub struct UnchangedSharedObject {
    pub object_id: ObjectId,
    pub kind: UnchangedSharedKind,
}

//
// Transactions
//

#[derive(Debug, Clone, PartialEq, Eq)]
pub struct Transaction {
    pub kind: TransactionKind,
    pub sender: Address,
    pub gas_payment: GasPayment,
    pub expiration: TransactionExpiration,
}

#[derive(Debug, Clone, PartialEq, Eq)]
pub struct GasPayment {
    pub objects: Vec<ObjectReference>,
    pub owner: Address,
    pub price: u64,
    pub budget: u64,
}

#[derive(Debug, Clone, Copy, PartialEq, Eq)]
pub enum TransactionExpiration {
    NoExpiration,
    Epoch(u64),
}

#[derive(Debug, Clone, PartialEq, Eq)]
pub enum TransactionKind {
    ProgrammableTransaction(ProgrammableTransaction),
    ChangeEpoch(ChangeEpoch),
    Genesis(GenesisTransaction),
    ConsensusCommitPrologue(ConsensusCommitPrologue),
    AuthenticatorStateUpdate(AuthenticatorStateUpdate),
    EndOfEpoch(Vec<EndOfEpochTransactionKind>),
    RandomnessStateUpdate(RandomnessStateUpdate),
    ConsensusCommitPrologueV2(ConsensusCommitPrologueV2),
    ConsensusCommitPrologueV3(ConsensusCommitPrologueV3),
}

#[derive(Debug, Clone, Copy, PartialEq, Eq)]
pub struct ConsensusCommitPrologue {
    pub epoch: u64,
    pub round: u64,
    pub commit_timestamp_ms: u64,
}

#[derive(Debug, Clone, Copy, PartialEq, Eq)]
pub struct ConsensusCommitPrologueV2 {
    pub epoch: u64,
    pub round: u64,
    pub commit_timestamp_ms: u64,
    pub consensus_commit_digest: ConsensusCommitDigest,
}

#[derive(Debug, Clone, PartialEq, Eq)]
pub struct ConsensusCommitPrologueV3 {
    pub epoch: u64,
    pub round: u64,
    pub commit_timestamp_ms: u64,
    pub sub_dag_index: Option<u64>,
    pub consensus_commit_digest: ConsensusCommitDigest,
    pub consensus_determined_version_assignments: ConsensusDeterminedVersionAssignments,
}

#[derive(Debug, Clone, PartialEq, Eq)]
pub enum ConsensusDeterminedVersionAssignments {
    CancelledTransactions { cancelled_transactions: Vec<CancelledTransaction> },
}

#[derive(Debug, Clone, PartialEq, Eq)]
pub struct CancelledTransaction {
    pub digest: TransactionDigest,
    pub version_assignments: Vec<VersionAssignment>,
}

#[derive(Debug, Clone, Copy, PartialEq, Eq)]
pub struct VersionAssignment {
    pub object_id: ObjectId,
    pub version: u64,
}

#[derive(Debug, Clone, PartialEq, Eq)]
pub struct GenesisTransaction {
    pub objects: Vec<Object>,
}

#[derive(Debug, Clone, PartialEq, Eq)]
pub struct RandomnessStateUpdate {
    pub epoch: u64,
    pub randomness_round: u64,
    pub random_bytes: Vec<u8>,
    pub randomness_obj_initial_shared_version: u64,
}

#[derive(Debug, Clone, PartialEq, Eq)]
pub struct AuthenticatorStateUpdate {
    pub epoch: u64,
    pub round: u64,
    pub new_active_jwks: Vec<ActiveJwk>,
    pub authenticator_obj_initial_shared_version: u64,
}

#[derive(Debug, Clone, PartialEq, Eq)]
pub struct Jwk {
    pub kty: String,
    pub e: String,
    pub n: String,
    pub alg: String,
}

#[derive(Debug, Clone, PartialEq, Eq)]
pub struct JwkId {
    pub iss: String,
    pub kid: String,
}

#[derive(Debug, Clone, PartialEq, Eq)]
pub struct ActiveJwk {
    pub jwk_id: JwkId,
    pub jwk: Jwk,
    pub epoch: u64,
}

#[derive(Debug, Clone, PartialEq, Eq)]
pub struct ChangeEpoch {
    pub epoch: u64,
    pub protocol_version: u64,
    pub storage_charge: u64,
    pub computation_charge: u64,
    pub storage_rebate: u64,
    pub non_refundable_storage_fee: u64,
    pub epoch_start_timestamp_ms: u64,
    pub system_packages: Vec<SystemPackage>,
}

#[derive(Debug, Clone, PartialEq, Eq)]
pub struct SystemPackage {
    pub version: u64,
    pub modules: Vec<Vec<u8>>,
    pub dependencies: Vec<ObjectId>,
}

#[derive(Debug, Clone, PartialEq, Eq)]
pub enum EndOfEpochTransactionKind {
    ChangeEpoch(ChangeEpoch),
    AuthenticatorStateCreate,
    AuthenticatorStateExpire(AuthenticatorStateExpire),
    RandomnessStateCreate,
    DenyListStateCreate,
    BridgeStateCreate { chain_id: CheckpointDigest },
    BridgeCommitteeInit { bridge_object_version: u64 },
}

#[derive(Debug, Clone, Copy, PartialEq, Eq)]
pub struct AuthenticatorStateExpire {
    pub min_epoch: u64,
    pub authenticator_object_initial_shared_version: u64,
}

//
// Programmable transactions
//

#[derive(Debug, Clone, PartialEq, Eq)]
pub struct ProgrammableTransaction {
    pub inputs: Vec<Input>,
    pub commands: Vec<Command>,
}

#[derive(Debug, Clone, PartialEq, Eq)]
pub enum Input {
    Pure { value: Vec<u8> },
    ImmutableOrOwned(ObjectReference),
    Shared { object_id: ObjectId, initial_shared_version: u64, mutable: bool },
    Receiving(ObjectReference),
}

#[derive(Debug, Clone, Copy, PartialEq, Eq)]
pub enum Argument {
    Gas,
    Input(u16),
    Result(u16),
    NestedResult(u16, u16),
}

#[derive(Debug, Clone, PartialEq, Eq)]
pub enum Command {
    MoveCall(MoveCall),
    TransferObjects(TransferObjects),
    SplitCoins(SplitCoins),
    MergeCoins(MergeCoins),
    Publish(Publish),
    MakeMoveVector(MakeMoveVector),
    Upgrade(Upgrade),
}

#[derive(Debug, Clone, PartialEq, Eq)]
pub struct MoveCall {
    pub package: ObjectId,
    pub module: Identifier,
    pub function: Identifier,
    pub type_arguments: Vec<TypeTag>,
    pub arguments: Vec<Argument>,
}

#[derive(Debug, Clone, PartialEq, Eq)]
pub struct TransferObjects {
    pub objects: Vec<Argument>,
    pub address: Argument,
}

#[derive(Debug, Clone, PartialEq, Eq)]
pub struct SplitCoins {
    pub coin: Argument,
    pub amounts: Vec<Argument>,
}

#[derive(Debug, Clone, PartialEq, Eq)]
pub struct MergeCoins {
    pub coin: Argument,
    pub coins_to_merge: Vec<Argument>,
}

#[derive(Debug, Clone, PartialEq, Eq)]
pub struct Publish {
    pub modules: Vec<Vec<u8>>,
    pub dependencies: Vec<ObjectId>,
}

#[derive(Debug, Clone, PartialEq, Eq)]
pub struct MakeMoveVector {
    pub type_: Option<TypeTag>,
    pub elements: Vec<Argument>,
}

#[derive(Debug, Clone, PartialEq, Eq)]
pub struct Upgrade {
    pub modules: Vec<Vec<u8>>,
    pub dependencies: Vec<ObjectId>,
    pub package: ObjectId,
    pub ticket: Argument,
}

} // verus!
