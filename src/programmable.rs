//! Programmable transactions: their inputs, arguments and commands.
use vstd::prelude::*;

use crate::domain::{
    Argument, Command, Identifier, Input, MakeMoveVector, MergeCoins, MoveCall, ObjectId,
    ObjectReference, ProgrammableTransaction, Publish, SplitCoins, TransferObjects, TypeTag,
    Upgrade,
};
use crate::error::{either, missing, optional, required, ConversionFailure, SourceError, TryFromProtoError};
use crate::scalar::{byte_lists_to_wire, bytes_to_wire};
use crate::seqs::{all_carried, first_error, lemma_carried_has_no_error, map_to_wire, try_map_from_wire};
use crate::wire;

verus! {

/// The failure of narrowing a wire index to the domain's 16 bits.
pub open spec fn index_error(i: u32) -> Option<ConversionFailure> {
    if i > u16::MAX {
        Some(ConversionFailure::Source(SourceError::IntegerOutOfRange))
    } else {
        None
    }
}

/// Narrows a wire index to 16 bits; a larger one is a wrapped range failure.
pub fn index_from_wire(i: u32) -> (r: Result<u16, TryFromProtoError>)
    ensures
        match r {
            Ok(v) => index_error(i) is None && v == i,
            Err(e) => index_error(i) == Some(e@),
        },
{
    if i > u16::MAX as u32 {
        Err(TryFromProtoError::from_error(SourceError::IntegerOutOfRange))
    } else {
        Ok(i as u16)
    }
}

impl Argument {
    pub open spec fn carried_by(self, w: wire::Argument) -> bool {
        match (self, w.kind) {
            (Argument::Gas, Some(wire::ArgumentKind::Gas(_))) => true,
            (Argument::Input(i), Some(wire::ArgumentKind::Input(x))) => x == i,
            (Argument::Result(i), Some(wire::ArgumentKind::Result(x))) => x == i,
            (Argument::NestedResult(i, j), Some(wire::ArgumentKind::NestedResult(n))) => n.result
                == i && n.subresult == j,
            _ => false,
        }
    }

    pub open spec fn wire_error(w: wire::Argument) -> Option<ConversionFailure> {
        match w.kind {
            None => missing("kind"),
            Some(wire::ArgumentKind::Gas(_)) => None,
            Some(wire::ArgumentKind::Input(x)) => index_error(x),
            Some(wire::ArgumentKind::Result(x)) => index_error(x),
            Some(wire::ArgumentKind::NestedResult(n)) => either(
                index_error(n.result),
                index_error(n.subresult),
            ),
        }
    }

    pub fn to_wire(&self) -> (w: wire::Argument)
        ensures
            self.carried_by(w),
    {
        let kind = match self {
            Argument::Gas => wire::ArgumentKind::Gas(wire::Empty {}),
            Argument::Input(i) => wire::ArgumentKind::Input(*i as u32),
            Argument::Result(i) => wire::ArgumentKind::Result(*i as u32),
            Argument::NestedResult(i, j) => wire::ArgumentKind::NestedResult(
                wire::NestedResult { result: *i as u32, subresult: *j as u32 },
            ),
        };
        wire::Argument { kind: Some(kind) }
    }

    pub fn from_wire(w: &wire::Argument) -> (r: Result<Self, TryFromProtoError>)
        ensures
            match r {
                Ok(d) => Self::wire_error(*w) is None && d.carried_by(*w),
                Err(e) => Self::wire_error(*w) == Some(e@),
            },
    {
        match &w.kind {
            None => Err(TryFromProtoError::missing("kind")),
            Some(wire::ArgumentKind::Gas(_)) => Ok(Argument::Gas),
            Some(wire::ArgumentKind::Input(x)) => Ok(Argument::Input(index_from_wire(*x)?)),
            Some(wire::ArgumentKind::Result(x)) => Ok(Argument::Result(index_from_wire(*x)?)),
            Some(wire::ArgumentKind::NestedResult(n)) => {
                let result = index_from_wire(n.result)?;
                let subresult = index_from_wire(n.subresult)?;
                Ok(Argument::NestedResult(result, subresult))
            },
        }
    }

    pub proof fn lemma_wire_round_trip()
        ensures
            forall|d: Self, w: wire::Argument| #[trigger] d.carried_by(w) ==> Self::wire_error(w) is None,
    {
    }
}

impl Input {
    pub open spec fn carried_by(self, w: wire::Input) -> bool {
        match (self, w.kind) {
            (Input::Pure { value }, Some(wire::InputKind::Pure(x))) => x@ == value@,
            (Input::ImmutableOrOwned(r), Some(wire::InputKind::ImmutableOrOwned(x))) => r.carried_by(x),
            (
                Input::Shared { object_id, initial_shared_version, mutable },
                Some(wire::InputKind::Shared(x)),
            ) => {
                &&& x.object_id matches Some(id) && object_id.carried_by(id)
                &&& x.initial_shared_version == initial_shared_version
                &&& x.mutable == mutable
            },
            (Input::Receiving(r), Some(wire::InputKind::Receiving(x))) => r.carried_by(x),
            _ => false,
        }
    }

    pub open spec fn wire_error(w: wire::Input) -> Option<ConversionFailure> {
        match w.kind {
            None => missing("kind"),
            Some(wire::InputKind::Pure(_)) => None,
            Some(wire::InputKind::ImmutableOrOwned(x)) => ObjectReference::wire_error(x),
            Some(wire::InputKind::Shared(x)) => required(x.object_id, "object_id", |id| ObjectId::wire_error(id)),
            Some(wire::InputKind::Receiving(x)) => ObjectReference::wire_error(x),
        }
    }

    pub fn to_wire(&self) -> (w: wire::Input)
        ensures
            self.carried_by(w),
    {
        let kind = match self {
            Input::Pure { value } => wire::InputKind::Pure(bytes_to_wire(value)),
            Input::ImmutableOrOwned(r) => wire::InputKind::ImmutableOrOwned(r.to_wire()),
            Input::Shared { object_id, initial_shared_version, mutable } => wire::InputKind::Shared(
                wire::SharedObjectInput {
                    object_id: Some(object_id.to_wire()),
                    initial_shared_version: *initial_shared_version,
                    mutable: *mutable,
                },
            ),
            Input::Receiving(r) => wire::InputKind::Receiving(r.to_wire()),
        };
        wire::Input { kind: Some(kind) }
    }

    pub fn from_wire(w: &wire::Input) -> (r: Result<Self, TryFromProtoError>)
        ensures
            match r {
                Ok(d) => Self::wire_error(*w) is None && d.carried_by(*w),
                Err(e) => Self::wire_error(*w) == Some(e@),
            },
    {
        match &w.kind {
            None => Err(TryFromProtoError::missing("kind")),
            Some(wire::InputKind::Pure(x)) => Ok(Input::Pure { value: bytes_to_wire(x) }),
            Some(wire::InputKind::ImmutableOrOwned(x)) => Ok(
                Input::ImmutableOrOwned(ObjectReference::from_wire(x)?),
            ),
            Some(wire::InputKind::Shared(x)) => {
                let object_id = match &x.object_id {
                    None => return Err(TryFromProtoError::missing("object_id")),
                    Some(id) => ObjectId::from_wire(id)?,
                };
                Ok(
                    Input::Shared {
                        object_id,
                        initial_shared_version: x.initial_shared_version,
                        mutable: x.mutable,
                    },
                )
            },
            Some(wire::InputKind::Receiving(x)) => Ok(
                Input::Receiving(ObjectReference::from_wire(x)?),
            ),
        }
    }

    pub proof fn lemma_wire_round_trip()
        ensures
            forall|d: Self, w: wire::Input| #[trigger] d.carried_by(w) ==> Self::wire_error(w) is None,
    {
        ObjectReference::lemma_wire_round_trip();
        ObjectId::lemma_wire_round_trip();
    }
}

impl MoveCall {
    pub open spec fn carried_by(self, w: wire::MoveCall) -> bool {
        &&& w.package matches Some(x) && self.package.carried_by(x)
        &&& w.module matches Some(x) && self.module.carried_by(x)
        &&& w.function matches Some(x) && self.function.carried_by(x)
        &&& all_carried(
            self.type_arguments@,
            w.type_arguments@,
            |d: TypeTag, x: wire::TypeTag| d.carried_by(x),
        )
        &&& all_carried(
            self.arguments@,
            w.arguments@,
            |d: Argument, x: wire::Argument| d.carried_by(x),
        )
    }

    /// The first failure, checking the fields in order.
    pub open spec fn wire_error(w: wire::MoveCall) -> Option<ConversionFailure> {
        either(
            required(w.package, "package", |x| ObjectId::wire_error(x)),
            either(
                required(w.module, "module", |x| Identifier::wire_error(x)),
                either(
                    required(w.function, "function", |x| Identifier::wire_error(x)),
                    either(
                        first_error(w.type_arguments@, |x| TypeTag::wire_error(x)),
                        first_error(w.arguments@, |x| Argument::wire_error(x)),
                    ),
                ),
            ),
        )
    }

    pub fn to_wire(&self) -> (w: wire::MoveCall)
        ensures
            self.carried_by(w),
    {
        wire::MoveCall {
            package: Some(self.package.to_wire()),
            module: Some(self.module.to_wire()),
            function: Some(self.function.to_wire()),
            type_arguments: map_to_wire(
                &self.type_arguments,
                TypeTag::to_wire,
                Ghost(|d: TypeTag, x: wire::TypeTag| d.carried_by(x)),
            ),
            arguments: map_to_wire(
                &self.arguments,
                Argument::to_wire,
                Ghost(|d: Argument, x: wire::Argument| d.carried_by(x)),
            ),
        }
    }

    pub fn from_wire(w: &wire::MoveCall) -> (r: Result<Self, TryFromProtoError>)
        ensures
            match r {
                Ok(d) => Self::wire_error(*w) is None && d.carried_by(*w),
                Err(e) => Self::wire_error(*w) == Some(e@),
            },
    {
        let package = match &w.package {
            None => return Err(TryFromProtoError::missing("package")),
            Some(x) => ObjectId::from_wire(x)?,
        };
        let module = match &w.module {
            None => return Err(TryFromProtoError::missing("module")),
            Some(x) => Identifier::from_wire(x)?,
        };
        let function = match &w.function {
            None => return Err(TryFromProtoError::missing("function")),
            Some(x) => Identifier::from_wire(x)?,
        };
        let type_arguments = try_map_from_wire(
            &w.type_arguments,
            TypeTag::from_wire,
            Ghost(|x| TypeTag::wire_error(x)),
            Ghost(|d: TypeTag, x: wire::TypeTag| d.carried_by(x)),
        )?;
        let arguments = try_map_from_wire(
            &w.arguments,
            Argument::from_wire,
            Ghost(|x| Argument::wire_error(x)),
            Ghost(|d: Argument, x: wire::Argument| d.carried_by(x)),
        )?;
        Ok(MoveCall { package, module, function, type_arguments, arguments })
    }

    /// The wire form reads back without error.
    pub proof fn lemma_wire_round_trip()
        ensures
            forall|d: Self, w: wire::MoveCall| #[trigger] d.carried_by(w) ==> Self::wire_error(w) is None,
    {
        Argument::lemma_wire_round_trip();
        Identifier::lemma_wire_round_trip();
        ObjectId::lemma_wire_round_trip();
        TypeTag::lemma_wire_round_trip();
        assert forall|d: Self, w: wire::MoveCall| #[trigger] d.carried_by(w) implies Self::wire_error(w) is None by {
            lemma_carried_has_no_error(
                d.type_arguments@,
                w.type_arguments@,
                |d: TypeTag, x: wire::TypeTag| d.carried_by(x),
                |x| TypeTag::wire_error(x),
            );
            lemma_carried_has_no_error(
                d.arguments@,
                w.arguments@,
                |d: Argument, x: wire::Argument| d.carried_by(x),
                |x| Argument::wire_error(x),
            );
        }
    }
}

impl TransferObjects {
    pub open spec fn carried_by(self, w: wire::TransferObjects) -> bool {
        &&& all_carried(
            self.objects@,
            w.objects@,
            |d: Argument, x: wire::Argument| d.carried_by(x),
        )
        &&& w.address matches Some(x) && self.address.carried_by(x)
    }

    /// The first failure, checking the fields in order.
    pub open spec fn wire_error(w: wire::TransferObjects) -> Option<ConversionFailure> {
        either(
            first_error(w.objects@, |x| Argument::wire_error(x)),
            required(w.address, "address", |x| Argument::wire_error(x)),
        )
    }

    pub fn to_wire(&self) -> (w: wire::TransferObjects)
        ensures
            self.carried_by(w),
    {
        wire::TransferObjects {
            objects: map_to_wire(
                &self.objects,
                Argument::to_wire,
                Ghost(|d: Argument, x: wire::Argument| d.carried_by(x)),
            ),
            address: Some(self.address.to_wire()),
        }
    }

    pub fn from_wire(w: &wire::TransferObjects) -> (r: Result<Self, TryFromProtoError>)
        ensures
            match r {
                Ok(d) => Self::wire_error(*w) is None && d.carried_by(*w),
                Err(e) => Self::wire_error(*w) == Some(e@),
            },
    {
        let objects = try_map_from_wire(
            &w.objects,
            Argument::from_wire,
            Ghost(|x| Argument::wire_error(x)),
            Ghost(|d: Argument, x: wire::Argument| d.carried_by(x)),
        )?;
        let address = match &w.address {
            None => return Err(TryFromProtoError::missing("address")),
            Some(x) => Argument::from_wire(x)?,
        };
        Ok(TransferObjects { objects, address })
    }

    /// The wire form reads back without error.
    pub proof fn lemma_wire_round_trip()
        ensures
            forall|d: Self, w: wire::TransferObjects| #[trigger] d.carried_by(w) ==> Self::wire_error(w) is None,
    {
        Argument::lemma_wire_round_trip();
        assert forall|d: Self, w: wire::TransferObjects| #[trigger] d.carried_by(w) implies Self::wire_error(w) is None by {
            lemma_carried_has_no_error(
                d.objects@,
                w.objects@,
                |d: Argument, x: wire::Argument| d.carried_by(x),
                |x| Argument::wire_error(x),
            );
        }
    }
}

impl SplitCoins {
    pub open spec fn carried_by(self, w: wire::SplitCoins) -> bool {
        &&& w.coin matches Some(x) && self.coin.carried_by(x)
        &&& all_carried(
            self.amounts@,
            w.amounts@,
            |d: Argument, x: wire::Argument| d.carried_by(x),
        )
    }

    /// The first failure, checking the fields in order.
    pub open spec fn wire_error(w: wire::SplitCoins) -> Option<ConversionFailure> {
        either(
            required(w.coin, "coin", |x| Argument::wire_error(x)),
            first_error(w.amounts@, |x| Argument::wire_error(x)),
        )
    }

    pub fn to_wire(&self) -> (w: wire::SplitCoins)
        ensures
            self.carried_by(w),
    {
        wire::SplitCoins {
            coin: Some(self.coin.to_wire()),
            amounts: map_to_wire(
                &self.amounts,
                Argument::to_wire,
                Ghost(|d: Argument, x: wire::Argument| d.carried_by(x)),
            ),
        }
    }

    pub fn from_wire(w: &wire::SplitCoins) -> (r: Result<Self, TryFromProtoError>)
        ensures
            match r {
                Ok(d) => Self::wire_error(*w) is None && d.carried_by(*w),
                Err(e) => Self::wire_error(*w) == Some(e@),
            },
    {
        let coin = match &w.coin {
            None => return Err(TryFromProtoError::missing("coin")),
            Some(x) => Argument::from_wire(x)?,
        };
        let amounts = try_map_from_wire(
            &w.amounts,
            Argument::from_wire,
            Ghost(|x| Argument::wire_error(x)),
            Ghost(|d: Argument, x: wire::Argument| d.carried_by(x)),
        )?;
        Ok(SplitCoins { coin, amounts })
    }

    /// The wire form reads back without error.
    pub proof fn lemma_wire_round_trip()
        ensures
            forall|d: Self, w: wire::SplitCoins| #[trigger] d.carried_by(w) ==> Self::wire_error(w) is None,
    {
        Argument::lemma_wire_round_trip();
        assert forall|d: Self, w: wire::SplitCoins| #[trigger] d.carried_by(w) implies Self::wire_error(w) is None by {
            lemma_carried_has_no_error(
                d.amounts@,
                w.amounts@,
                |d: Argument, x: wire::Argument| d.carried_by(x),
                |x| Argument::wire_error(x),
            );
        }
    }
}

impl MergeCoins {
    pub open spec fn carried_by(self, w: wire::MergeCoins) -> bool {
        &&& w.coin matches Some(x) && self.coin.carried_by(x)
        &&& all_carried(
            self.coins_to_merge@,
            w.coins_to_merge@,
            |d: Argument, x: wire::Argument| d.carried_by(x),
        )
    }

    /// The first failure, checking the fields in order.
    pub open spec fn wire_error(w: wire::MergeCoins) -> Option<ConversionFailure> {
        either(
            required(w.coin, "coin", |x| Argument::wire_error(x)),
            first_error(w.coins_to_merge@, |x| Argument::wire_error(x)),
        )
    }

    pub fn to_wire(&self) -> (w: wire::MergeCoins)
        ensures
            self.carried_by(w),
    {
        wire::MergeCoins {
            coin: Some(self.coin.to_wire()),
            coins_to_merge: map_to_wire(
                &self.coins_to_merge,
                Argument::to_wire,
                Ghost(|d: Argument, x: wire::Argument| d.carried_by(x)),
            ),
        }
    }

    pub fn from_wire(w: &wire::MergeCoins) -> (r: Result<Self, TryFromProtoError>)
        ensures
            match r {
                Ok(d) => Self::wire_error(*w) is None && d.carried_by(*w),
                Err(e) => Self::wire_error(*w) == Some(e@),
            },
    {
        let coin = match &w.coin {
            None => return Err(TryFromProtoError::missing("coin")),
            Some(x) => Argument::from_wire(x)?,
        };
        let coins_to_merge = try_map_from_wire(
            &w.coins_to_merge,
            Argument::from_wire,
            Ghost(|x| Argument::wire_error(x)),
            Ghost(|d: Argument, x: wire::Argument| d.carried_by(x)),
        )?;
        Ok(MergeCoins { coin, coins_to_merge })
    }

    /// The wire form reads back without error.
    pub proof fn lemma_wire_round_trip()
        ensures
            forall|d: Self, w: wire::MergeCoins| #[trigger] d.carried_by(w) ==> Self::wire_error(w) is None,
    {
        Argument::lemma_wire_round_trip();
        assert forall|d: Self, w: wire::MergeCoins| #[trigger] d.carried_by(w) implies Self::wire_error(w) is None by {
            lemma_carried_has_no_error(
                d.coins_to_merge@,
                w.coins_to_merge@,
                |d: Argument, x: wire::Argument| d.carried_by(x),
                |x| Argument::wire_error(x),
            );
        }
    }
}

impl Publish {
    pub open spec fn carried_by(self, w: wire::Publish) -> bool {
        &&& w.modules@.len() == self.modules@.len()
        &&& forall|i: int| 0 <= i < self.modules@.len() ==> #[trigger] w.modules@[i]@ == self.modules@[i]@
        &&& all_carried(
            self.dependencies@,
            w.dependencies@,
            |d: ObjectId, x: wire::ObjectId| d.carried_by(x),
        )
    }

    /// The first failure, checking the fields in order.
    pub open spec fn wire_error(w: wire::Publish) -> Option<ConversionFailure> {
        first_error(w.dependencies@, |x| ObjectId::wire_error(x))
    }

    pub fn to_wire(&self) -> (w: wire::Publish)
        ensures
            self.carried_by(w),
    {
        wire::Publish {
            modules: byte_lists_to_wire(&self.modules),
            dependencies: map_to_wire(
                &self.dependencies,
                ObjectId::to_wire,
                Ghost(|d: ObjectId, x: wire::ObjectId| d.carried_by(x)),
            ),
        }
    }

    pub fn from_wire(w: &wire::Publish) -> (r: Result<Self, TryFromProtoError>)
        ensures
            match r {
                Ok(d) => Self::wire_error(*w) is None && d.carried_by(*w),
                Err(e) => Self::wire_error(*w) == Some(e@),
            },
    {
        let modules = byte_lists_to_wire(&w.modules);
        let dependencies = try_map_from_wire(
            &w.dependencies,
            ObjectId::from_wire,
            Ghost(|x| ObjectId::wire_error(x)),
            Ghost(|d: ObjectId, x: wire::ObjectId| d.carried_by(x)),
        )?;
        Ok(Publish { modules, dependencies })
    }

    /// The wire form reads back without error.
    pub proof fn lemma_wire_round_trip()
        ensures
            forall|d: Self, w: wire::Publish| #[trigger] d.carried_by(w) ==> Self::wire_error(w) is None,
    {
        ObjectId::lemma_wire_round_trip();
        assert forall|d: Self, w: wire::Publish| #[trigger] d.carried_by(w) implies Self::wire_error(w) is None by {
            lemma_carried_has_no_error(
                d.dependencies@,
                w.dependencies@,
                |d: ObjectId, x: wire::ObjectId| d.carried_by(x),
                |x| ObjectId::wire_error(x),
            );
        }
    }
}

impl MakeMoveVector {
    pub open spec fn carried_by(self, w: wire::MakeMoveVector) -> bool {
        &&& match (self.type_, w.element_type) {
            (None, None) => true,
            (Some(d), Some(x)) => d.carried_by(x),
            _ => false,
        }
        &&& all_carried(
            self.elements@,
            w.elements@,
            |d: Argument, x: wire::Argument| d.carried_by(x),
        )
    }

    /// The first failure, checking the fields in order.
    pub open spec fn wire_error(w: wire::MakeMoveVector) -> Option<ConversionFailure> {
        either(
            optional(w.element_type, |x| TypeTag::wire_error(x)),
            first_error(w.elements@, |x| Argument::wire_error(x)),
        )
    }

    pub fn to_wire(&self) -> (w: wire::MakeMoveVector)
        ensures
            self.carried_by(w),
    {
        wire::MakeMoveVector {
            element_type: match &self.type_ {
                None => None,
                Some(d) => Some(d.to_wire()),
            },
            elements: map_to_wire(
                &self.elements,
                Argument::to_wire,
                Ghost(|d: Argument, x: wire::Argument| d.carried_by(x)),
            ),
        }
    }

    pub fn from_wire(w: &wire::MakeMoveVector) -> (r: Result<Self, TryFromProtoError>)
        ensures
            match r {
                Ok(d) => Self::wire_error(*w) is None && d.carried_by(*w),
                Err(e) => Self::wire_error(*w) == Some(e@),
            },
    {
        let type_ = match &w.element_type {
            None => None,
            Some(x) => Some(TypeTag::from_wire(x)?),
        };
        let elements = try_map_from_wire(
            &w.elements,
            Argument::from_wire,
            Ghost(|x| Argument::wire_error(x)),
            Ghost(|d: Argument, x: wire::Argument| d.carried_by(x)),
        )?;
        Ok(MakeMoveVector { type_, elements })
    }

    /// The wire form reads back without error.
    pub proof fn lemma_wire_round_trip()
        ensures
            forall|d: Self, w: wire::MakeMoveVector| #[trigger] d.carried_by(w) ==> Self::wire_error(w) is None,
    {
        Argument::lemma_wire_round_trip();
        TypeTag::lemma_wire_round_trip();
        assert forall|d: Self, w: wire::MakeMoveVector| #[trigger] d.carried_by(w) implies Self::wire_error(w) is None by {
            lemma_carried_has_no_error(
                d.elements@,
                w.elements@,
                |d: Argument, x: wire::Argument| d.carried_by(x),
                |x| Argument::wire_error(x),
            );
        }
    }
}

impl Upgrade {
    pub open spec fn carried_by(self, w: wire::Upgrade) -> bool {
        &&& w.modules@.len() == self.modules@.len()
        &&& forall|i: int| 0 <= i < self.modules@.len() ==> #[trigger] w.modules@[i]@ == self.modules@[i]@
        &&& all_carried(
            self.dependencies@,
            w.dependencies@,
            |d: ObjectId, x: wire::ObjectId| d.carried_by(x),
        )
        &&& w.package matches Some(x) && self.package.carried_by(x)
        &&& w.ticket matches Some(x) && self.ticket.carried_by(x)
    }

    /// The first failure, checking the fields in order.
    pub open spec fn wire_error(w: wire::Upgrade) -> Option<ConversionFailure> {
        either(
            first_error(w.dependencies@, |x| ObjectId::wire_error(x)),
            either(
                required(w.package, "package", |x| ObjectId::wire_error(x)),
                required(w.ticket, "ticket", |x| Argument::wire_error(x)),
            ),
        )
    }

    pub fn to_wire(&self) -> (w: wire::Upgrade)
        ensures
            self.carried_by(w),
    {
        wire::Upgrade {
            modules: byte_lists_to_wire(&self.modules),
            dependencies: map_to_wire(
                &self.dependencies,
                ObjectId::to_wire,
                Ghost(|d: ObjectId, x: wire::ObjectId| d.carried_by(x)),
            ),
            package: Some(self.package.to_wire()),
            ticket: Some(self.ticket.to_wire()),
        }
    }

    pub fn from_wire(w: &wire::Upgrade) -> (r: Result<Self, TryFromProtoError>)
        ensures
            match r {
                Ok(d) => Self::wire_error(*w) is None && d.carried_by(*w),
                Err(e) => Self::wire_error(*w) == Some(e@),
            },
    {
        let modules = byte_lists_to_wire(&w.modules);
        let dependencies = try_map_from_wire(
            &w.dependencies,
            ObjectId::from_wire,
            Ghost(|x| ObjectId::wire_error(x)),
            Ghost(|d: ObjectId, x: wire::ObjectId| d.carried_by(x)),
        )?;
        let package = match &w.package {
            None => return Err(TryFromProtoError::missing("package")),
            Some(x) => ObjectId::from_wire(x)?,
        };
        let ticket = match &w.ticket {
            None => return Err(TryFromProtoError::missing("ticket")),
            Some(x) => Argument::from_wire(x)?,
        };
        Ok(Upgrade { modules, dependencies, package, ticket })
    }

    /// The wire form reads back without error.
    pub proof fn lemma_wire_round_trip()
        ensures
            forall|d: Self, w: wire::Upgrade| #[trigger] d.carried_by(w) ==> Self::wire_error(w) is None,
    {
        Argument::lemma_wire_round_trip();
        ObjectId::lemma_wire_round_trip();
        assert forall|d: Self, w: wire::Upgrade| #[trigger] d.carried_by(w) implies Self::wire_error(w) is None by {
            lemma_carried_has_no_error(
                d.dependencies@,
                w.dependencies@,
                |d: ObjectId, x: wire::ObjectId| d.carried_by(x),
                |x| ObjectId::wire_error(x),
            );
        }
    }
}

impl Command {
    pub open spec fn carried_by(self, w: wire::Command) -> bool {
        match (self, w.command) {
            (Command::MoveCall(d), Some(wire::CommandKind::MoveCall(x))) => d.carried_by(x),
            (Command::TransferObjects(d), Some(wire::CommandKind::TransferObjects(x))) => d.carried_by(x),
            (Command::SplitCoins(d), Some(wire::CommandKind::SplitCoins(x))) => d.carried_by(x),
            (Command::MergeCoins(d), Some(wire::CommandKind::MergeCoins(x))) => d.carried_by(x),
            (Command::Publish(d), Some(wire::CommandKind::Publish(x))) => d.carried_by(x),
            (Command::MakeMoveVector(d), Some(wire::CommandKind::MakeMoveVector(x))) => d.carried_by(x),
            (Command::Upgrade(d), Some(wire::CommandKind::Upgrade(x))) => d.carried_by(x),
            _ => false,
        }
    }

    pub open spec fn wire_error(w: wire::Command) -> Option<ConversionFailure> {
        match w.command {
            None => missing("command"),
            Some(wire::CommandKind::MoveCall(x)) => MoveCall::wire_error(x),
            Some(wire::CommandKind::TransferObjects(x)) => TransferObjects::wire_error(x),
            Some(wire::CommandKind::SplitCoins(x)) => SplitCoins::wire_error(x),
            Some(wire::CommandKind::MergeCoins(x)) => MergeCoins::wire_error(x),
            Some(wire::CommandKind::Publish(x)) => Publish::wire_error(x),
            Some(wire::CommandKind::MakeMoveVector(x)) => MakeMoveVector::wire_error(x),
            Some(wire::CommandKind::Upgrade(x)) => Upgrade::wire_error(x),
        }
    }

    pub fn to_wire(&self) -> (w: wire::Command)
        ensures
            self.carried_by(w),
    {
        let command = match self {
            Command::MoveCall(d) => wire::CommandKind::MoveCall(d.to_wire()),
            Command::TransferObjects(d) => wire::CommandKind::TransferObjects(d.to_wire()),
            Command::SplitCoins(d) => wire::CommandKind::SplitCoins(d.to_wire()),
            Command::MergeCoins(d) => wire::CommandKind::MergeCoins(d.to_wire()),
            Command::Publish(d) => wire::CommandKind::Publish(d.to_wire()),
            Command::MakeMoveVector(d) => wire::CommandKind::MakeMoveVector(d.to_wire()),
            Command::Upgrade(d) => wire::CommandKind::Upgrade(d.to_wire()),
        };
        wire::Command { command: Some(command) }
    }

    pub fn from_wire(w: &wire::Command) -> (r: Result<Self, TryFromProtoError>)
        ensures
            match r {
                Ok(d) => Self::wire_error(*w) is None && d.carried_by(*w),
                Err(e) => Self::wire_error(*w) == Some(e@),
            },
    {
        match &w.command {
            None => Err(TryFromProtoError::missing("command")),
            Some(wire::CommandKind::MoveCall(x)) => Ok(Command::MoveCall(MoveCall::from_wire(x)?)),
            Some(wire::CommandKind::TransferObjects(x)) => Ok(Command::TransferObjects(TransferObjects::from_wire(x)?)),
            Some(wire::CommandKind::SplitCoins(x)) => Ok(Command::SplitCoins(SplitCoins::from_wire(x)?)),
            Some(wire::CommandKind::MergeCoins(x)) => Ok(Command::MergeCoins(MergeCoins::from_wire(x)?)),
            Some(wire::CommandKind::Publish(x)) => Ok(Command::Publish(Publish::from_wire(x)?)),
            Some(wire::CommandKind::MakeMoveVector(x)) => Ok(Command::MakeMoveVector(MakeMoveVector::from_wire(x)?)),
            Some(wire::CommandKind::Upgrade(x)) => Ok(Command::Upgrade(Upgrade::from_wire(x)?)),
        }
    }

    pub proof fn lemma_wire_round_trip()
        ensures
            forall|d: Self, w: wire::Command| #[trigger] d.carried_by(w) ==> Self::wire_error(w) is None,
    {
        MoveCall::lemma_wire_round_trip();
        TransferObjects::lemma_wire_round_trip();
        SplitCoins::lemma_wire_round_trip();
        MergeCoins::lemma_wire_round_trip();
        Publish::lemma_wire_round_trip();
        MakeMoveVector::lemma_wire_round_trip();
        Upgrade::lemma_wire_round_trip();
    }
}

impl ProgrammableTransaction {
    pub open spec fn carried_by(self, w: wire::ProgrammableTransaction) -> bool {
        &&& all_carried(
            self.inputs@,
            w.inputs@,
            |d: Input, x: wire::Input| d.carried_by(x),
        )
        &&& all_carried(
            self.commands@,
            w.commands@,
            |d: Command, x: wire::Command| d.carried_by(x),
        )
    }

    /// The first failure, checking the fields in order.
    pub open spec fn wire_error(w: wire::ProgrammableTransaction) -> Option<ConversionFailure> {
        either(
            first_error(w.inputs@, |x| Input::wire_error(x)),
            first_error(w.commands@, |x| Command::wire_error(x)),
        )
    }

    pub fn to_wire(&self) -> (w: wire::ProgrammableTransaction)
        ensures
            self.carried_by(w),
    {
        wire::ProgrammableTransaction {
            inputs: map_to_wire(
                &self.inputs,
                Input::to_wire,
                Ghost(|d: Input, x: wire::Input| d.carried_by(x)),
            ),
            commands: map_to_wire(
                &self.commands,
                Command::to_wire,
                Ghost(|d: Command, x: wire::Command| d.carried_by(x)),
            ),
        }
    }

    pub fn from_wire(w: &wire::ProgrammableTransaction) -> (r: Result<Self, TryFromProtoError>)
        ensures
            match r {
                Ok(d) => Self::wire_error(*w) is None && d.carried_by(*w),
                Err(e) => Self::wire_error(*w) == Some(e@),
            },
    {
        let inputs = try_map_from_wire(
            &w.inputs,
            Input::from_wire,
            Ghost(|x| Input::wire_error(x)),
            Ghost(|d: Input, x: wire::Input| d.carried_by(x)),
        )?;
        let commands = try_map_from_wire(
            &w.commands,
            Command::from_wire,
            Ghost(|x| Command::wire_error(x)),
            Ghost(|d: Command, x: wire::Command| d.carried_by(x)),
        )?;
        Ok(ProgrammableTransaction { inputs, commands })
    }

    /// The wire form reads back without error.
    pub proof fn lemma_wire_round_trip()
        ensures
            forall|d: Self, w: wire::ProgrammableTransaction| #[trigger] d.carried_by(w) ==> Self::wire_error(w) is None,
    {
        Command::lemma_wire_round_trip();
        Input::lemma_wire_round_trip();
        assert forall|d: Self, w: wire::ProgrammableTransaction| #[trigger] d.carried_by(w) implies Self::wire_error(w) is None by {
            lemma_carried_has_no_error(
                d.inputs@,
                w.inputs@,
                |d: Input, x: wire::Input| d.carried_by(x),
                |x| Input::wire_error(x),
            );
            lemma_carried_has_no_error(
                d.commands@,
                w.commands@,
                |d: Command, x: wire::Command| d.carried_by(x),
                |x| Command::wire_error(x),
            );
        }
    }
}

} // verus!
