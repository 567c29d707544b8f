//! The wire schema: the messages that travel over the network and sit in
//! storage. Every submessage is optional, fixed-length identifiers are plain
//! byte buffers, and each union is an optional tag with its payload.
use vstd::prelude::*;

verus! {

/// The payload of a union variant that carries nothing.
#[derive(Debug, Clone, Copy, PartialEq, Eq, Structural)]
pub struct Empty {}

#[derive(Debug, Clone, PartialEq, Eq)]
pub struct Address {
    pub address: Vec<u8>,
}

#[derive(Debug, Clone, PartialEq, Eq)]
pub struct ObjectId {
    pub object_id: Vec<u8>,
}

#[derive(Debug, Clone, PartialEq, Eq)]
pub struct Digest {
    pub digest: Vec<u8>,
}

/// A point in time as whole seconds and nanoseconds since the epoch.
#[derive(Debug, Clone, Copy, PartialEq, Eq, Structural)]
pub struct Timestamp {
    pub seconds: i64,
    pub nanos: i32,
}

//
// Objects
//

#[derive(Debug, Clone, PartialEq, Eq)]
pub struct ObjectReference {
    pub object_id: Option<ObjectId>,
    pub version: u64,
    pub digest: Option<Digest>,
}

#[derive(Debug, Clone, PartialEq, Eq)]
pub enum OwnerKind {
    Address(Address),
    Object(ObjectId),
    Shared(u64),
    Immutable(Empty),
}

#[derive(Debug, Clone, PartialEq, Eq)]
pub struct Owner {
    pub kind: Option<OwnerKind>,
}

/// A serialized object, carried as it is.
#[derive(Debug, Clone, PartialEq, Eq)]
pub struct Object {
    pub bcs: Vec<u8>,
}

/// A serialized user signature, carried as it is.
#[derive(Debug, Clone, PartialEq, Eq)]
pub struct UserSignature {
    pub bcs: Vec<u8>,
}

/// A Move identifier as UTF-8 text.
#[derive(Debug, Clone, PartialEq, Eq)]
pub struct Identifier {
    pub identifier: Vec<u8>,
}

/// A Move type tag as UTF-8 text.
#[derive(Debug, Clone, PartialEq, Eq)]
pub struct TypeTag {
    pub type_tag: Vec<u8>,
}

#[derive(Debug, Clone, PartialEq, Eq)]
pub struct ExecutionFailure {
    pub command: Option<u64>,
}

#[derive(Debug, Clone, PartialEq, Eq)]
pub enum ExecutionStatusKind {
    Success(Empty),
    Failure(ExecutionFailure),
}

#[derive(Debug, Clone, PartialEq, Eq)]
pub struct ExecutionStatus {
    pub kind: Option<ExecutionStatusKind>,
}

#[derive(Debug, Clone, PartialEq, Eq)]
pub struct ValidatorCommitteeMember {
    pub public_key: Vec<u8>,
    pub stake: u64,
}

//
// Checkpoints
//

#[derive(Debug, Clone, PartialEq, Eq)]
pub struct GasCostSummary {
    pub computation_cost: u64,
    pub storage_cost: u64,
    pub storage_rebate: u64,
    pub non_refundable_storage_fee: u64,
}

#[derive(Debug, Clone, PartialEq, Eq)]
pub enum Commitment {
    EcmhLiveObjectSet(Digest),
}

#[derive(Debug, Clone, PartialEq, Eq)]
pub struct CheckpointCommitment {
    pub commitment: Option<Commitment>,
}

#[derive(Debug, Clone, PartialEq, Eq)]
pub struct EndOfEpochData {
    pub next_epoch_committee: Vec<ValidatorCommitteeMember>,
    pub next_epoch_protocol_version: u64,
    pub epoch_commitments: Vec<CheckpointCommitment>,
}

#[derive(Debug, Clone, PartialEq, Eq)]
pub struct CheckpointSummary {
    pub epoch: u64,
    pub sequence_number: u64,
    pub total_network_transactions: u64,
    pub content_digest: Option<Digest>,
    pub previous_digest: Option<Digest>,
    pub epoch_rolling_gas_cost_summary: Option<GasCostSummary>,
    pub timestamp: Option<Timestamp>,
    pub commitments: Vec<CheckpointCommitment>,
    pub end_of_epoch_data: Option<EndOfEpochData>,
    pub version_specific_data: Vec<u8>,
}

#[derive(Debug, Clone, PartialEq, Eq)]
pub struct CheckpointedTransactionInfo {
    pub transaction: Option<Transaction>,
    pub effects: Option<TransactionEffects>,
    pub signatures: Vec<UserSignature>,
}

#[derive(Debug, Clone, PartialEq, Eq)]
pub struct CheckpointContentsV1 {
    pub transactions: Vec<CheckpointedTransactionInfo>,
}

#[derive(Debug, Clone, PartialEq, Eq)]
pub enum Contents {
    V1(CheckpointContentsV1),
}

#[derive(Debug, Clone, PartialEq, Eq)]
pub struct CheckpointContents {
    pub contents: Option<Contents>,
}

//
// Effects
//

#[derive(Debug, Clone, PartialEq, Eq)]
pub enum EffectsVersion {
    V1(TransactionEffectsV1),
    V2(TransactionEffectsV2),
}

#[derive(Debug, Clone, PartialEq, Eq)]
pub struct TransactionEffects {
    pub version: Option<EffectsVersion>,
}

#[derive(Debug, Clone, PartialEq, Eq)]
pub struct TransactionEffectsV1 {
    pub status: Option<ExecutionStatus>,
    pub epoch: u64,
    pub gas_used: Option<GasCostSummary>,
    pub modified_at_versions: Vec<ModifiedAtVersion>,
    pub shared_objects: Vec<ObjectReference>,
    pub transaction_digest: Option<Digest>,
    pub created: Vec<ObjectReferenceWithOwner>,
    pub mutated: Vec<ObjectReferenceWithOwner>,
    pub unwrapped: Vec<ObjectReferenceWithOwner>,
    pub deleted: Vec<ObjectReference>,
    pub unwrapped_then_deleted: Vec<ObjectReference>,
    pub wrapped: Vec<ObjectReference>,
    pub gas_object: Option<ObjectReferenceWithOwner>,
    pub events_digest: Option<Digest>,
    pub dependencies: Vec<Digest>,
}

#[derive(Debug, Clone, PartialEq, Eq)]
pub struct TransactionEffectsV2 {
    pub status: Option<ExecutionStatus>,
    pub epoch: u64,
    pub gas_used: Option<GasCostSummary>,
    pub transaction_digest: Option<Digest>,
    pub gas_object_index: Option<u32>,
    pub events_digest: Option<Digest>,
    pub dependencies: Vec<Digest>,
    pub lamport_version: u64,
    pub changed_objects: Vec<ChangedObject>,
    pub unchanged_shared_objects: Vec<UnchangedSharedObject>,
    pub auxiliary_data_digest: Option<Digest>,
}

#[derive(Debug, Clone, PartialEq, Eq)]
pub struct ModifiedAtVersion {
    pub object_id: Option<ObjectId>,
    pub version: u64,
}

#[derive(Debug, Clone, PartialEq, Eq)]
pub struct ObjectReferenceWithOwner {
    pub reference: Option<ObjectReference>,
    pub owner: Option<Owner>,
}

#[derive(Debug, Clone, PartialEq, Eq)]
pub struct ObjectExist {
    pub version: u64,
    pub digest: Option<Digest>,
    pub owner: Option<Owner>,
}

#[derive(Debug, Clone, PartialEq, Eq)]
pub enum InputState {
    NotExist(Empty),
    Exist(ObjectExist),
}

#[derive(Debug, Clone, PartialEq, Eq)]
pub struct ObjectWrite {
    pub digest: Option<Digest>,
    pub owner: Option<Owner>,
}

#[derive(Debug, Clone, PartialEq, Eq)]
pub struct PackageWrite {
    pub version: u64,
    pub digest: Option<Digest>,
}

#[derive(Debug, Clone, PartialEq, Eq)]
pub enum OutputState {
    Removed(Empty),
    ObjectWrite(ObjectWrite),
    PackageWrite(PackageWrite),
}

/// What happened to an object's id. On the wire the field is a bare integer;
/// zero, and any value this schema does not know, read as `Unknown`.
#[derive(Debug, Clone, Copy, PartialEq, Eq, Structural)]
pub enum IdOperation {
    Unknown,
    NoOperation,
    Created,
    Deleted,
}

#[derive(Debug, Clone, PartialEq, Eq)]
pub struct ChangedObject {
    pub object_id: Option<ObjectId>,
    pub input_state: Option<InputState>,
    pub output_state: Option<OutputState>,
    pub id_operation: i32,
}

#[derive(Debug, Clone, PartialEq, Eq)]
pub struct ReadOnlyRoot {
    pub version: u64,
    pub digest: Option<Digest>,
}

#[derive(Debug, Clone, PartialEq, Eq)]
pub enum UnchangedSharedKind {
    ReadOnlyRoot(ReadOnlyRoot),
    MutateDeleted(u64),
    ReadDeleted(u64),
    Cancelled(u64),
    PerEpochConfig(Empty),
}

#[derive(Debug, Clone, PartialEq, Eq)]
pub struct UnchangedSharedObject {
    pub object_id: Option<ObjectId>,
    pub kind: Option<UnchangedSharedKind>,
}

//
// Transactions
//

#[derive(Debug, Clone, PartialEq, Eq)]
pub struct TransactionV1 {
    pub kind: Option<TransactionKind>,
    pub sender: Option<Address>,
    pub gas_payment: Option<GasPayment>,
    pub expiration: Option<TransactionExpiration>,
}

#[derive(Debug, Clone, PartialEq, Eq)]
pub enum TransactionVersion {
    V1(TransactionV1),
}

#[derive(Debug, Clone, PartialEq, Eq)]
pub struct Transaction {
    pub version: Option<TransactionVersion>,
}

#[derive(Debug, Clone, PartialEq, Eq)]
pub struct GasPayment {
    pub objects: Vec<ObjectReference>,
    pub owner: Option<Address>,
    pub price: u64,
    pub budget: u64,
}

#[derive(Debug, Clone, PartialEq, Eq)]
pub enum Expiration {
    NoExpiration(Empty),
    Epoch(u64),
}

#[derive(Debug, Clone, PartialEq, Eq)]
pub struct TransactionExpiration {
    pub expiration: Option<Expiration>,
}

#[derive(Debug, Clone, PartialEq, Eq)]
pub struct EndOfEpochTransaction {
    pub transactions: Vec<EndOfEpochTransactionKind>,
}

#[derive(Debug, Clone, PartialEq, Eq)]
pub enum Kind {
    ProgrammableTransaction(ProgrammableTransaction),
    ChangeEpoch(ChangeEpoch),
    Genesis(GenesisTransaction),
    ConsensusCommitPrologueV1(ConsensusCommitPrologue),
    AuthenticatorStateUpdate(AuthenticatorStateUpdate),
    EndOfEpoch(EndOfEpochTransaction),
    RandomnessStateUpdate(RandomnessStateUpdate),
    ConsensusCommitPrologueV2(ConsensusCommitPrologue),
    ConsensusCommitPrologueV3(ConsensusCommitPrologue),
}

#[derive(Debug, Clone, PartialEq, Eq)]
pub struct TransactionKind {
    pub kind: Option<Kind>,
}

/// One message for every generation of the prologue; later generations fill
/// more of its optional fields.
#[derive(Debug, Clone, PartialEq, Eq)]
pub struct ConsensusCommitPrologue {
    pub epoch: u64,
    pub round: u64,
    pub commit_timestamp: Option<Timestamp>,
    pub consensus_commit_digest: Option<Digest>,
    pub sub_dag_index: Option<u64>,
    pub consensus_determined_version_assignments: Option<ConsensusDeterminedVersionAssignments>,
}

#[derive(Debug, Clone, PartialEq, Eq)]
pub struct CancelledTransactions {
    pub cancelled_transactions: Vec<CancelledTransaction>,
}

#[derive(Debug, Clone, PartialEq, Eq)]
pub enum VersionAssignmentsKind {
    CancelledTransactions(CancelledTransactions),
}

#[derive(Debug, Clone, PartialEq, Eq)]
pub struct ConsensusDeterminedVersionAssignments {
    pub kind: Option<VersionAssignmentsKind>,
}

#[derive(Debug, Clone, PartialEq, Eq)]
pub struct CancelledTransaction {
    pub digest: Option<Digest>,
    pub version_assignments: Vec<VersionAssignment>,
}

#[derive(Debug, Clone, PartialEq, Eq)]
pub struct VersionAssignment {
    pub object_id: Option<ObjectId>,
    pub version: u64,
}

#[derive(Debug, Clone, PartialEq, Eq)]
pub struct GenesisTransaction {
    pub objects: Vec<Object>,
}

#[derive(Debug, Clone, PartialEq, Eq)]
pub struct RandomnessStateUpdate {
    pub epoch: u64,
    pub randomness_round: u64,
    pub random_bytes: Vec<u8>,
    pub randomness_object_initial_shared_version: u64,
}

#[derive(Debug, Clone, PartialEq, Eq)]
pub struct AuthenticatorStateUpdate {
    pub epoch: u64,
    pub round: u64,
    pub new_active_jwks: Vec<ActiveJwk>,
    pub authenticator_object_initial_shared_version: u64,
}

#[derive(Debug, Clone, PartialEq, Eq)]
pub struct Jwk {
    pub kty: Vec<u8>,
    pub e: Vec<u8>,
    pub n: Vec<u8>,
    pub alg: Vec<u8>,
}

#[derive(Debug, Clone, PartialEq, Eq)]
pub struct JwkId {
    pub iss: Vec<u8>,
    pub kid: Vec<u8>,
}

#[derive(Debug, Clone, PartialEq, Eq)]
pub struct ActiveJwk {
    pub id: Option<JwkId>,
    pub jwk: Option<Jwk>,
    pub epoch: u64,
}

#[derive(Debug, Clone, PartialEq, Eq)]
pub struct ChangeEpoch {
    pub epoch: u64,
    pub protocol_version: u64,
    pub storage_charge: u64,
    pub computation_charge: u64,
    pub storage_rebate: u64,
    pub non_refundable_storage_fee: u64,
    pub epoch_start_timestamp: Option<Timestamp>,
    pub system_packages: Vec<SystemPackage>,
}

#[derive(Debug, Clone, PartialEq, Eq)]
pub struct SystemPackage {
    pub version: u64,
    pub modules: Vec<Vec<u8>>,
    pub dependencies: Vec<ObjectId>,
}

#[derive(Debug, Clone, PartialEq, Eq)]
pub enum EndOfEpochKind {
    ChangeEpoch(ChangeEpoch),
    AuthenticatorStateCreate(Empty),
    AuthenticatorStateExpire(AuthenticatorStateExpire),
    RandomnessStateCreate(Empty),
    DenyListStateCreate(Empty),
    BridgeStateCreate(Digest),
    BridgeCommitteeInit(u64),
}

#[derive(Debug, Clone, PartialEq, Eq)]
pub struct EndOfEpochTransactionKind {
    pub kind: Option<EndOfEpochKind>,
}

#[derive(Debug, Clone, PartialEq, Eq)]
pub struct AuthenticatorStateExpire {
    pub min_epoch: u64,
    pub authenticator_object_initial_shared_version: u64,
}

//
// Programmable transactions
//

#[derive(Debug, Clone, PartialEq, Eq)]
pub struct ProgrammableTransaction {
    pub inputs: Vec<Input>,
    pub commands: Vec<Command>,
}

#[derive(Debug, Clone, PartialEq, Eq)]
pub struct SharedObjectInput {
    pub object_id: Option<ObjectId>,
    pub initial_shared_version: u64,
    pub mutable: bool,
}

#[derive(Debug, Clone, PartialEq, Eq)]
pub enum InputKind {
    Pure(Vec<u8>),
    ImmutableOrOwned(ObjectReference),
    Shared(SharedObjectInput),
    Receiving(ObjectReference),
}

#[derive(Debug, Clone, PartialEq, Eq)]
pub struct Input {
    pub kind: Option<InputKind>,
}

#[derive(Debug, Clone, Copy, PartialEq, Eq, Structural)]
pub struct NestedResult {
    pub result: u32,
    pub subresult: u32,
}

#[derive(Debug, Clone, Copy, PartialEq, Eq)]
pub enum ArgumentKind {
    Gas(Empty),
    Input(u32),
    Result(u32),
    NestedResult(NestedResult),
}

#[derive(Debug, Clone, Copy, PartialEq, Eq)]
pub struct Argument {
    pub kind: Option<ArgumentKind>,
}

#[derive(Debug, Clone, PartialEq, Eq)]
pub enum CommandKind {
    MoveCall(MoveCall),
    TransferObjects(TransferObjects),
    SplitCoins(SplitCoins),
    MergeCoins(MergeCoins),
    Publish(Publish),
    MakeMoveVector(MakeMoveVector),
    Upgrade(Upgrade),
}

#[derive(Debug, Clone, PartialEq, Eq)]
pub struct Command {
    pub command: Option<CommandKind>,
}

#[derive(Debug, Clone, PartialEq, Eq)]
pub struct MoveCall {
    pub package: Option<ObjectId>,
    pub module: Option<Identifier>,
    pub function: Option<Identifier>,
    pub type_arguments: Vec<TypeTag>,
    pub arguments: Vec<Argument>,
}

#[derive(Debug, Clone, PartialEq, Eq)]
pub struct TransferObjects {
    pub objects: Vec<Argument>,
    pub address: Option<Argument>,
}

#[derive(Debug, Clone, PartialEq, Eq)]
pub struct SplitCoins {
    pub coin: Option<Argument>,
    pub amounts: Vec<Argument>,
}

#[derive(Debug, Clone, PartialEq, Eq)]
pub struct MergeCoins {
    pub coin: Option<Argument>,
    pub coins_to_merge: Vec<Argument>,
}

#[derive(Debug, Clone, PartialEq, Eq)]
pub struct Publish {
    pub modules: Vec<Vec<u8>>,
    pub dependencies: Vec<ObjectId>,
}

#[derive(Debug, Clone, PartialEq, Eq)]
pub struct MakeMoveVector {
    pub element_type: Option<TypeTag>,
    pub elements: Vec<Argument>,
}

#[derive(Debug, Clone, PartialEq, Eq)]
pub struct Upgrade {
    pub modules: Vec<Vec<u8>>,
    pub dependencies: Vec<ObjectId>,
    pub package: Option<ObjectId>,
    pub ticket: Option<Argument>,
}

} // verus!
