use vstd::prelude::*;

verus! {

/// Number of an epoch of the committee.
pub type EpochId = u64;

/// Identity of an object.
#[derive(Clone, Copy, Debug, PartialEq, Eq, Hash)]
pub struct ObjectID(pub [u8; 20]);

/// Version of an object.
#[derive(Clone, Copy, Debug, PartialEq, Eq, Structural, Hash)]
pub struct SequenceNumber(pub u64);

/// Versions and sequence numbers are one thing.
pub type VersionNumber = SequenceNumber;

/// Digest of a transaction.
#[derive(Clone, Copy, Debug, PartialEq, Eq, Hash)]
pub struct TransactionDigest(pub [u8; 32]);

/// Digest of an object's contents.
#[derive(Clone, Copy, Debug, PartialEq, Eq, Hash)]
pub struct ObjectDigest(pub [u8; 32]);

/// Public key bytes that name an authority.
#[derive(Clone, Copy, Debug, PartialEq, Eq, Hash)]
pub struct AuthorityName(pub [u8; 32]);

/// A reference to one version of an object: its id, its version and the digest
/// of its contents at that version.
#[derive(Clone, Copy, Debug, PartialEq, Eq, Hash)]
pub struct ObjectRef(pub ObjectID, pub SequenceNumber, pub ObjectDigest);

} // verus!
