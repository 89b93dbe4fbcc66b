use vstd::prelude::*;

verus! {

/// Status code of a run that completed successfully.
pub const EXECUTED: u64 = 4001;

/// Status code of a run that ran out of gas.
pub const OUT_OF_GAS: u64 = 4002;

/// Status code of a deliberate abort raised by a module.
pub const ABORTED: u64 = 4016;

/// Broad category of a virtual-machine status code.
#[derive(Clone, Copy, Debug, PartialEq, Eq, Structural, Hash)]
pub enum StatusType {
    Validation,
    Verification,
    InvariantViolation,
    Deserialization,
    Execution,
    Unknown,
}

/// The category of a status code: each category owns a range of a thousand codes.
pub open spec fn status_type_of(code: u64) -> StatusType {
    if code <= 999 {
        StatusType::Validation
    } else if 1000 <= code && code <= 1999 {
        StatusType::Verification
    } else if 2000 <= code && code <= 2999 {
        StatusType::InvariantViolation
    } else if 3000 <= code && code <= 3999 {
        StatusType::Deserialization
    } else if 4000 <= code && code <= 4999 {
        StatusType::Execution
    } else {
        StatusType::Unknown
    }
}

/// The category of a status code, as `move_core_types::vm_status::StatusCode::status_type`
/// computes it from the code's number.
pub fn status_type(code: u64) -> (r: StatusType)
    ensures
        r == status_type_of(code),
{
    if code <= 999 {
        StatusType::Validation
    } else if code <= 1999 {
        StatusType::Verification
    } else if code <= 2999 {
        StatusType::InvariantViolation
    } else if code <= 3999 {
        StatusType::Deserialization
    } else if code <= 4999 {
        StatusType::Execution
    } else {
        StatusType::Unknown
    }
}

} // verus!
