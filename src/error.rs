use crate::base_types::{
    AuthorityName, EpochId, ObjectDigest, ObjectID, ObjectRef, SequenceNumber, TransactionDigest,
    VersionNumber,
};
use crate::execution::{ExecutionError, ExecutionErrorKind};
use vstd::prelude::*;
use vstd::string::StringExecFns;

verus! {

/// Status of a failed remote call, carried through as the transport gives it.
#[verifier::external_type_specification]
#[verifier::external_body]
pub struct ExStatus(tonic::Status);

/// Status code of a remote call.
#[verifier::external_type_specification]
#[verifier::external_body]
pub struct ExCode(tonic::Code);

/// The text message that a status holds.
pub uninterp spec fn status_message_of(s: tonic::Status) -> Seq<char>;

/// The code that a status holds.
pub uninterp spec fn status_code_of(s: tonic::Status) -> tonic::Code;

/// The short fixed text that describes a code.
pub uninterp spec fn code_description_of(c: tonic::Code) -> Seq<char>;

/// The `Debug` rendering of an execution error.
pub uninterp spec fn execution_error_debug_of(e: ExecutionError) -> Seq<char>;

/// Relies on `tonic::Status::message`: it returns the message field of the status.
pub assume_specification[ tonic::Status::message ](status: &tonic::Status) -> (r: &str)
    ensures
        r@ == status_message_of(*status),
;

/// Relies on `tonic::Status::code`: it returns the code field of the status.
pub assume_specification[ tonic::Status::code ](status: &tonic::Status) -> (r: tonic::Code)
    ensures
        r == status_code_of(*status),
;

/// Relies on `tonic::Code::description`: a fixed text for each code.
pub assume_specification[ tonic::Code::description ](code: &tonic::Code) -> (r: &'static str)
    ensures
        r@ == code_description_of(*code),
;

/// Relies on `format!` with the derived `Debug` of an execution error (which renders
/// the module id through its own derived `Debug`): the text depends on the error alone.
#[verifier::external_body]
fn execution_error_debug(e: &ExecutionError) -> (r: String)
    ensures
        r@ == execution_error_debug_of(*e),
{
    format!("{:?}", e)
}

/// Failures of the typed key-value store.
#[derive(Clone, Debug, PartialEq, Eq, Hash)]
pub enum TypedStoreError {
    RocksDBError(String),
    SerializationError(String),
    UnregisteredColumn(String),
    CrossDBBatch,
}

/// Every failure that the runtime reports, as one closed set of categories.
/// The categories that gather several failures keep them in the order given.
#[derive(Eq, PartialEq, Debug, Hash)]
#[allow(clippy::large_enum_variant)]
pub enum SuiError {
    // Object misuse issues
    ObjectErrors { errors: Vec<SuiError> },
    TransferUnownedError,
    TransferObjectWithoutPublicTransferError,
    MoveObjectAsPackage { object_id: ObjectID },
    TransferInsufficientBalance { balance: u64, required: u64 },
    MovePackageAsObject { object_id: ObjectID },
    UnexpectedOwnerType,
    UnsupportedSharedObjectError,
    NotSharedObjectError,
    DeleteObjectOwnedObject,
    SharedObjectLockNotSetObject,
    InvalidBatchTransaction { error: String },
    MissingObjectOwner {
        child_id: ObjectID,
        parent_id: ObjectID,
    },

    // Signature verification
    InvalidSignature { error: String },
    SenderSigUnbatchable,
    IncorrectSigner { error: String },
    UnknownSigner,
    // Certificate verification
    WrongEpoch { expected_epoch: EpochId },
    CertificateRequiresQuorum,
    UnexpectedSequenceNumber {
        object_id: ObjectID,
        expected_sequence: SequenceNumber,
        given_sequence: SequenceNumber,
    },
    InvalidAuthorityBitmap { error: String },
    ConflictingTransaction {
        pending_transaction: TransactionDigest,
    },
    ErrorWhileProcessingTransactionTransaction { err: String },
    ErrorWhileProcessingConfirmationTransaction { err: String },
    QuorumFailedToExecuteCertificate { errors: Vec<SuiError> },
    ErrorWhileProcessingPublish { err: String },
    ErrorWhileProcessingMoveCall { err: String },
    ErrorWhileRequestingInformation,
    ObjectFetchFailed { object_id: ObjectID, err: String },
    MissingEarlierConfirmations {
        object_id: ObjectID,
        current_sequence_number: VersionNumber,
    },
    InvalidSystemTransaction,
    // Synchronization validation
    UnexpectedTransactionIndex,
    ConcurrentIteratorError,
    ClosedNotifierError,

    // Account access
    CertificateNotfound {
        certificate_digest: TransactionDigest,
    },
    ParentNotfound {
        object_id: ObjectID,
        sequence: SequenceNumber,
    },
    UnknownSenderAccount,
    CertificateAuthorityReuse,
    InvalidSequenceNumber,
    SequenceOverflow,
    SequenceUnderflow,
    WrongShard,
    InvalidCrossShardUpdate,
    InvalidAuthenticator,
    InvalidAddress,
    InvalidTransactionDigest,
    InvalidObjectDigest {
        object_id: ObjectID,
        expected_digest: ObjectDigest,
    },
    InvalidDecoding,
    UnexpectedMessage,
    DuplicateObjectRefInput,
    ClientIoError { error: String },
    TransferImmutableError,

    // Errors related to batches
    InvalidSequenceRangeError,
    NoBatchesFoundError,
    CannotSendClientMessageError,
    SubscriptionItemsDroppedError(u64),
    SubscriptionServiceClosed,
    CheckpointingError { error: String },
    ExecutionDriverError {
        digest: TransactionDigest,
        msg: String,
        errors: Vec<SuiError>,
    },

    // Move module publishing related errors
    ModuleLoadFailure { error: String },
    ModuleVerificationFailure { error: String },
    ModuleDeserializationFailure { error: String },
    ModulePublishFailure { error: String },
    ModuleBuildFailure { error: String },
    DependentPackageNotFound { package_id: ObjectID },
    MoveUnitTestFailure { error: String },

    // Move call related errors
    FunctionNotFound { error: String },
    ModuleNotFound { module_name: String },
    InvalidFunctionSignature { error: String },
    InvalidNonEntryFunction { error: String },
    TypeError { error: String },
    AbortedExecution { error: String },
    InvalidMoveEvent { error: String },
    CircularObjectOwnership,
    InvalidSharedChildUse {
        child: ObjectID,
        child_module: String,
        ancestor: ObjectID,
        ancestor_module: String,
        current_module: String,
    },

    // Gas related errors
    GasBudgetTooHigh { error: String },
    InsufficientGas { error: String },

    // Internal state errors
    InvalidTxUpdate,
    TransactionLockExists { refs: Vec<ObjectRef> },
    TransactionLockDoesNotExist,
    TransactionLockReset,
    TransactionNotFound { digest: TransactionDigest },
    ObjectNotFound { object_id: ObjectID },
    ObjectVersionNotFound {
        object_id: ObjectID,
        version: SequenceNumber,
    },
    ObjectSequenceNumberTooHigh {
        object_id: ObjectID,
        asked_version: SequenceNumber,
        latest_version: SequenceNumber,
    },
    ObjectDeleted { object_ref: ObjectRef },
    BadObjectType { error: String },
    MoveExecutionFailure,
    ObjectInputArityViolation,
    ExecutionInvariantViolation,
    AuthorityInformationUnavailable,
    AuthorityUpdateFailure,
    ByzantineAuthoritySuspicion {
        authority: AuthorityName,
        reason: String,
    },
    PairwiseSyncFailed {
        xsource: AuthorityName,
        destination: AuthorityName,
        tx_digest: TransactionDigest,
        error: Box<SuiError>,
    },
    StorageError(TypedStoreError),
    GenericStorageError(String),

    StorageMissingFieldError(String),
    StorageCorruptedFieldError(String),

    BatchErrorSender,
    GenericAuthorityError { error: String },

    EventFailedToDispatch { error: String },

    OwnerFailedToSerialize { error: String },

    ExtraFieldFailedToDeserialize { error: String },

    QuorumNotReached { errors: Vec<SuiError> },

    // Errors returned by authority and client read API's
    ObjectSerializationError { error: String },
    NoEventStore,

    // Client side error
    ConcurrentTransactionError,
    IncorrectRecipientError,
    TooManyIncorrectAuthorities {
        errors: Vec<(AuthorityName, SuiError)>,
        action: &'static str,
    },
    InconsistentGatewayResult { error: String },
    GatewayInvalidTxRangeQuery { error: String },
    GatewayTransactionPrepError { error: String },

    // Errors related to the authority-consensus interface.
    OnlyOneConsensusClientPermitted,
    ConsensusConnectionBroken(String),
    FailedToHearBackFromConsensus(String),
    SharedObjectLockingFailure(String),
    ListenerCapacityExceeded,
    ConsensusSuiSerializationError(String),
    NotASharedObjectTransaction,

    // Cryptography errors.
    SignatureSeedInvalidLength(usize),
    HkdfError(String),
    SignatureKeyGenError(String),
    KeyConversionError(String),
    InvalidPrivateKey,

    // Epoch related errors.
    ValidatorHaltedAtEpochEnd,
    InconsistentEpochState { error: String },

    // These are errors that occur when an RPC fails and is simply the utf8 message sent in a
    // Tonic::Status
    RpcError(String, &'static str),

    UnsupportedFeatureError { error: String },

    QuorumDriverCommunicationError { error: String },

    TimeoutError,

    ExecutionError(String),

    InvalidCommittee(String),

    InvalidAuthenticatedEpoch(String),

    InvalidEpochResponse(String),
}


/// The failures that a gathering category holds, in the order they were given;
/// empty for every other category.
pub open spec fn nested_errors_of(e: SuiError) -> Seq<SuiError> {
    match e {
        SuiError::ObjectErrors { errors } => errors@,
        SuiError::QuorumFailedToExecuteCertificate { errors } => errors@,
        SuiError::ExecutionDriverError { errors, .. } => errors@,
        SuiError::QuorumNotReached { errors } => errors@,
        _ => Seq::empty(),
    }
}

/// The failures that the authorities of a too-many-authorities failure reported,
/// with who reported each, in the order given; empty for every other category.
pub open spec fn authority_errors_of(e: SuiError) -> Seq<(AuthorityName, SuiError)> {
    match e {
        SuiError::TooManyIncorrectAuthorities { errors, .. } => errors@,
        _ => Seq::empty(),
    }
}

impl SuiError {
    /// The failures that this category gathers, if it gathers any.
    pub fn nested_errors(&self) -> (r: Option<&Vec<SuiError>>)
        ensures
            r matches Some(v) ==> v@ == nested_errors_of(*self),
            r is Some <==> (self is ObjectErrors || self is QuorumFailedToExecuteCertificate
                || self is ExecutionDriverError || self is QuorumNotReached),
    {
        match self {
            SuiError::ObjectErrors { errors } => Some(errors),
            SuiError::QuorumFailedToExecuteCertificate { errors } => Some(errors),
            SuiError::ExecutionDriverError { errors, .. } => Some(errors),
            SuiError::QuorumNotReached { errors } => Some(errors),
            _ => None,
        }
    }

    /// The failures of a too-many-authorities failure, each with its authority.
    pub fn authority_errors(&self) -> (r: Option<&Vec<(AuthorityName, SuiError)>>)
        ensures
            r matches Some(v) ==> v@ == authority_errors_of(*self),
            r is Some <==> self is TooManyIncorrectAuthorities,
    {
        match self {
            SuiError::TooManyIncorrectAuthorities { errors, .. } => Some(errors),
            _ => None,
        }
    }

    /// A failure of a partial virtual-machine error, from its rendered text. The
    /// category is provisional: every such failure counts as a verification failure.
    pub fn from_partial_vm_error(message: String) -> (r: SuiError)
        ensures
            r == (SuiError::ModuleVerificationFailure { error: message }),
    {
        SuiError::ModuleVerificationFailure { error: message }
    }

    /// A failure of a virtual-machine error, from its rendered text. The category is
    /// provisional: every such failure counts as a verification failure.
    pub fn from_vm_error(message: String) -> (r: SuiError)
        ensures
            r == (SuiError::ModuleVerificationFailure { error: message }),
    {
        SuiError::ModuleVerificationFailure { error: message }
    }

    /// A failure of an execution, which keeps the rendering of the execution error
    /// after a fixed label.
    pub fn from_execution_error(e: ExecutionError) -> (r: SuiError)
        ensures
            r is ExecutionError,
            r->ExecutionError_0@ == "ExecutionError: "@ + execution_error_debug_of(e),
    {
        let label = String::from_str("ExecutionError: ");
        let rendered = execution_error_debug(&e);
        SuiError::ExecutionError(label.concat(rendered.as_str()))
    }

    /// A failure of an execution that has a kind and no further cause.
    pub fn from_execution_error_kind(kind: ExecutionErrorKind) -> (r: SuiError)
        ensures
            r is ExecutionError,
            r->ExecutionError_0@ == "ExecutionError: "@ + execution_error_debug_of(
                ExecutionError::spec_new(kind, None),
            ),
    {
        Self::from_execution_error(ExecutionError::from_kind(kind))
    }

    /// A failure of the consensus subscriber, from its rendered text: it counts as a
    /// failure to lock shared objects.
    pub fn from_subscriber_error(message: String) -> (r: SuiError)
        ensures
            r == SuiError::SharedObjectLockingFailure(message),
    {
        SuiError::SharedObjectLockingFailure(message)
    }

    /// A failure of a remote call, from the call's message and a short description of
    /// its status code.
    pub fn rpc_error(message: &str, description: &'static str) -> (r: SuiError)
        ensures
            r is RpcError,
            r->RpcError_0@ == message@,
            r->RpcError_1 == description,
    {
        SuiError::RpcError(message.to_owned(), description)
    }

    /// A failure of a remote call: the status's message and the description of its code.
    pub fn from_rpc_status(status: &tonic::Status) -> (r: SuiError)
        ensures
            r is RpcError,
            r->RpcError_0@ == status_message_of(*status),
            r->RpcError_1@ == code_description_of(status_code_of(*status)),
    {
        let code = status.code();
        Self::rpc_error(status.message(), code.description())
    }

    /// A failure of the store, kept whole.
    pub fn from_store_error(e: TypedStoreError) -> (r: SuiError)
        ensures
            r == SuiError::StorageError(e),
    {
        SuiError::StorageError(e)
    }

    /// An ad hoc failure of an authority, from a message.
    pub fn from_message(error: &str) -> (r: SuiError)
        ensures
            r is GenericAuthorityError,
            r->GenericAuthorityError_error@ == error@,
    {
        SuiError::GenericAuthorityError { error: String::from_str(error) }
    }
}

/// `Ok` when the condition holds, else the given error.
pub fn ensure(cond: bool, e: SuiError) -> (r: SuiResult)
    ensures
        cond ==> r is Ok,
        !cond ==> r == Err::<(), SuiError>(e),
{
    if !cond {
        return Err(e);
    }
    Ok(())
}

/// A gathering category holds its failures exactly as given, in order, with
/// duplicates kept.
pub proof fn lemma_gathered_errors_keep_order(errors: Vec<SuiError>)
    ensures
        nested_errors_of(SuiError::QuorumNotReached { errors }) == errors@,
        nested_errors_of(SuiError::QuorumFailedToExecuteCertificate { errors }) == errors@,
        nested_errors_of(SuiError::ObjectErrors { errors }) == errors@,
{
}

/// Result of an operation that can fail with a runtime error.
pub type SuiResult<T = ()> = Result<T, SuiError>;

} // verus!
