use vstd::prelude::*;

verus! {

/// Typed failure codes for the two operations.
///
/// Every failure is terminal for the invocation that raised it: no record is
/// created and no counter moves.  The first two variants report invalid
/// caller-supplied data; the rest surface store-level, authorization and
/// arithmetic failures.
#[derive(Clone, Copy, Debug, PartialEq, Eq, Structural)]
pub enum SolDojoError {
    /// The course identifier is longer than 32 bytes.
    SlugTooLong,
    /// The XP award exceeds the per-course maximum of 10,000.
    XPTooHigh,
    /// The derived address is already occupied: the record was created before.
    DuplicateAddress,
    /// The profile record at the derived address is owned by someone else.
    OwnerMismatch,
    /// No profile record exists at the derived address for this signer.
    ProfileMissing,
    /// A profile counter increment would exceed its representable range.
    Overflow,
    /// Address probing found no usable derivation proof (statistically
    /// negligible, but the prober can report it).
    AddressUnavailable,
}

impl SolDojoError {
    /// A human-readable description of the failure (observability only).
    pub fn message(&self) -> &'static str {
        match self {
            SolDojoError::SlugTooLong => "Course slug must be 32 characters or fewer",
            SolDojoError::XPTooHigh => "XP reward exceeds maximum allowed",
            SolDojoError::DuplicateAddress => "Record already exists at the derived address",
            SolDojoError::OwnerMismatch => "Profile is owned by a different authority",
            SolDojoError::ProfileMissing => "No profile record exists for this authority",
            SolDojoError::Overflow => "Profile counter increment would overflow",
            SolDojoError::AddressUnavailable => "No usable derivation proof was found",
        }
    }
}

} // verus!
