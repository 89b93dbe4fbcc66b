use crate::messages::{ExecutionFailureStatus, VmLocation};
use crate::status::{status_type, status_type_of, StatusType, ABORTED, EXECUTED, OUT_OF_GAS};
use vstd::prelude::*;

verus! {

/// The classified kind of an execution error.
pub type ExecutionErrorKind = ExecutionFailureStatus;

/// The kind that a status code's category alone gives.
pub open spec fn kind_of_status_type(t: StatusType) -> ExecutionFailureStatus {
    match t {
        StatusType::Execution => ExecutionFailureStatus::MovePrimitiveRuntimeError,
        StatusType::InvariantViolation => ExecutionFailureStatus::VMInvariantViolation,
        _ => ExecutionFailureStatus::VMVerificationOrDeserializationError,
    }
}

/// How a virtual-machine status is classified; the first case that applies decides.
/// A success code, an abort without a code and an abort raised in a script cannot
/// come from a sound virtual machine and count as invariant violations.
pub open spec fn classification(
    major_status: u64,
    sub_status: Option<u64>,
    location: VmLocation,
) -> ExecutionFailureStatus {
    if major_status == EXECUTED {
        ExecutionFailureStatus::VMInvariantViolation
    } else if major_status == ABORTED && sub_status is None {
        ExecutionFailureStatus::VMInvariantViolation
    } else if major_status == ABORTED && location is Script {
        ExecutionFailureStatus::VMInvariantViolation
    } else if major_status == ABORTED && location is Module {
        ExecutionFailureStatus::MoveAbort(location->Module_0, sub_status->Some_0)
    } else if major_status == OUT_OF_GAS {
        ExecutionFailureStatus::InsufficientGas
    } else {
        kind_of_status_type(status_type_of(major_status))
    }
}

/// Maps a status category to the kind it gives.
fn kind_for_status_type(t: StatusType) -> (r: ExecutionFailureStatus)
    ensures
        r == kind_of_status_type(t),
{
    match t {
        StatusType::Execution => ExecutionFailureStatus::MovePrimitiveRuntimeError,
        StatusType::InvariantViolation => ExecutionFailureStatus::VMInvariantViolation,
        StatusType::Validation
        | StatusType::Verification
        | StatusType::Deserialization
        | StatusType::Unknown => ExecutionFailureStatus::VMVerificationOrDeserializationError,
    }
}

/// Classifies a virtual-machine status: its major code, its optional sub-status
/// (the abort code of an abort) and where it was raised. Total: every input gives
/// exactly one kind.
pub fn classify(major_status: u64, sub_status: Option<u64>, location: VmLocation) -> (r:
    ExecutionFailureStatus)
    ensures
        r == classification(major_status, sub_status, location),
{
    if major_status == EXECUTED {
        return ExecutionFailureStatus::VMInvariantViolation;
    }
    if major_status == ABORTED {
        match (sub_status, location) {
            (None, _) => {
                return ExecutionFailureStatus::VMInvariantViolation;
            },
            (Some(_), VmLocation::Script) => {
                return ExecutionFailureStatus::VMInvariantViolation;
            },
            (Some(code), VmLocation::Module(id)) => {
                return ExecutionFailureStatus::MoveAbort(id, code);
            },
            (Some(_), VmLocation::Undefined) => {},
        }
    }
    if major_status == OUT_OF_GAS {
        return ExecutionFailureStatus::InsufficientGas;
    }
    kind_for_status_type(status_type(major_status))
}

/// Whether a status breaks what a sound virtual machine promises: a success code,
/// an abort without an abort code, or an abort raised in a script. The classifier
/// maps these to an invariant violation rather than failing; a caller that wants
/// to treat them as fatal asks this first.
pub open spec fn is_contract_breach(
    major_status: u64,
    sub_status: Option<u64>,
    location: VmLocation,
) -> bool {
    major_status == EXECUTED || (major_status == ABORTED && (sub_status is None
        || location is Script))
}

/// Tells whether a status is one that a sound virtual machine never reports.
pub fn is_vm_contract_breach(major_status: u64, sub_status: Option<u64>, location: &VmLocation) -> (r:
    bool)
    ensures
        r == is_contract_breach(major_status, sub_status, *location),
{
    if major_status == EXECUTED {
        return true;
    }
    if major_status == ABORTED {
        match (sub_status, location) {
            (None, _) => true,
            (Some(_), VmLocation::Script) => true,
            _ => false,
        }
    } else {
        false
    }
}

/// A status that a sound virtual machine never reports is classified as an
/// invariant violation.
pub proof fn lemma_breach_is_invariant_violation(
    major_status: u64,
    sub_status: Option<u64>,
    location: VmLocation,
)
    requires
        is_contract_breach(major_status, sub_status, location),
    ensures
        classification(major_status, sub_status, location)
            == ExecutionFailureStatus::VMInvariantViolation,
{
}

/// Running out of gas gives insufficient gas, whatever the sub-status and location.
pub proof fn lemma_out_of_gas_dominates(sub_status: Option<u64>, location: VmLocation)
    ensures
        classification(OUT_OF_GAS, sub_status, location) == ExecutionFailureStatus::InsufficientGas,
{
}

/// A deliberate abort with a code, raised in a module, keeps that module and code.
pub proof fn lemma_module_abort_kept(code: u64, location: VmLocation)
    requires
        location is Module,
    ensures
        classification(ABORTED, Some(code), location)
            == ExecutionFailureStatus::MoveAbort(location->Module_0, code),
{
}

#[derive(Debug)]
struct ExecutionErrorInner {
    kind: ExecutionErrorKind,
    source: Option<String>,
}

/// An execution failure: a classified kind, and the message of the error that
/// caused it where there was one. Both sit behind one box, so the value itself
/// is a single pointer.
#[derive(Debug)]
pub struct ExecutionError {
    inner: Box<ExecutionErrorInner>,
}

impl ExecutionError {
    /// The classified kind.
    pub closed spec fn spec_kind(&self) -> ExecutionErrorKind {
        self.inner.kind
    }

    /// The message of the underlying cause, if any.
    pub closed spec fn spec_source(&self) -> Option<String> {
        self.inner.source
    }

    /// The error with the given kind and cause.
    pub closed spec fn spec_new(kind: ExecutionErrorKind, source: Option<String>) -> ExecutionError {
        ExecutionError { inner: Box::new(ExecutionErrorInner { kind, source }) }
    }

    /// An error built from a kind and a cause has that kind and that cause.
    pub proof fn lemma_spec_new(kind: ExecutionErrorKind, source: Option<String>)
        ensures
            Self::spec_new(kind, source).spec_kind() == kind,
            Self::spec_new(kind, source).spec_source() == source,
    {
    }

    pub fn new(kind: ExecutionErrorKind, source: Option<String>) -> (r: Self)
        ensures
            r == Self::spec_new(kind, source),
            r.spec_kind() == kind,
            r.spec_source() == source,
    {
        ExecutionError { inner: Box::new(ExecutionErrorInner { kind, source }) }
    }

    pub fn new_with_source(kind: ExecutionErrorKind, source: String) -> (r: Self)
        ensures
            r == Self::spec_new(kind, Some(source)),
            r.spec_kind() == kind,
            r.spec_source() == Some(source),
    {
        Self::new(kind, Some(source))
    }

    pub fn from_kind(kind: ExecutionErrorKind) -> (r: Self)
        ensures
            r == Self::spec_new(kind, None),
            r.spec_kind() == kind,
            r.spec_source() is None,
    {
        Self::new(kind, None)
    }

    pub fn kind(&self) -> (r: &ExecutionErrorKind)
        ensures
            *r == self.spec_kind(),
    {
        &self.inner.kind
    }

    pub fn to_execution_status(&self) -> (r: ExecutionFailureStatus)
        ensures
            r == self.spec_kind(),
    {
        self.kind().duplicate()
    }

    /// The message of the cause, for tools that walk a chain of causes.
    pub fn source(&self) -> (r: Option<&String>)
        ensures
            r matches Some(s) ==> self.spec_source() == Some(*s),
            r is None <==> self.spec_source() is None,
    {
        match &self.inner.source {
            Some(s) => Some(s),
            None => None,
        }
    }

    /// The error for a status of the virtual machine: the status is classified, and
    /// the rendered virtual-machine error is kept as the cause.
    pub fn from_vm_error(
        major_status: u64,
        sub_status: Option<u64>,
        location: VmLocation,
        message: String,
    ) -> (r: Self)
        ensures
            r == Self::spec_new(classification(major_status, sub_status, location), Some(message)),
            r.spec_kind() == classification(major_status, sub_status, location),
            r.spec_source() == Some(message),
    {
        let kind = classify(major_status, sub_status, location);
        Self::new_with_source(kind, message)
    }
}

impl From<ExecutionErrorKind> for ExecutionError {
    fn from(kind: ExecutionErrorKind) -> (r: Self) {
        Self::from_kind(kind)
    }
}

impl vstd::std_specs::convert::FromSpecImpl<ExecutionErrorKind> for ExecutionError {
    open spec fn obeys_from_spec() -> bool {
        true
    }

    open spec fn from_spec(kind: ExecutionErrorKind) -> ExecutionError {
        ExecutionError::spec_new(kind, None)
    }
}

/// Converting a kind into an execution error gives an error of that kind with no
/// cause.
pub proof fn lemma_from_kind(kind: ExecutionErrorKind)
    ensures
        <ExecutionError as vstd::std_specs::convert::FromSpec<ExecutionErrorKind>>::from_spec(
            kind,
        ).spec_kind() == kind,
        <ExecutionError as vstd::std_specs::convert::FromSpec<ExecutionErrorKind>>::from_spec(
            kind,
        ).spec_source() is None,
{
    ExecutionError::lemma_spec_new(kind, None);
}

/// The rendered virtual-machine error never changes the classification: two errors
/// for the same status, location and sub-status have the same kind, whatever their
/// messages are, the empty message included.
pub proof fn lemma_vm_message_does_not_change_kind(
    major_status: u64,
    sub_status: Option<u64>,
    location: VmLocation,
    first: String,
    second: String,
)
    ensures
        ExecutionError::spec_new(classification(major_status, sub_status, location), Some(first)).spec_kind()
            == ExecutionError::spec_new(
            classification(major_status, sub_status, location),
            Some(second),
        ).spec_kind(),
{
    ExecutionError::lemma_spec_new(classification(major_status, sub_status, location), Some(first));
    ExecutionError::lemma_spec_new(classification(major_status, sub_status, location), Some(second));
}

} // verus!
