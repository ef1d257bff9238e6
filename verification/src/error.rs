use vstd::prelude::*;

verus! {

/// The five entity families whose encrypted key material is rolled over
/// during an account key rotation.
#[derive(Clone, Copy, Debug, PartialEq, Eq, Structural)]
pub enum RotationFamily {
    Ciphers,
    Folders,
    EmergencyAccess,
    ResetPassword,
    Sends,
}

/// Reasons for rejecting a request whose shape or content is invalid.
#[derive(Clone, Copy, Debug, PartialEq, Eq, Structural)]
pub enum ValidationReason {
    /// A display name longer than 50 bytes.
    NameTooLong,
    /// An avatar color that is not a 7-byte `#rrggbb` code.
    MalformedAvatarColor,
    /// A rotation payload that declares KDF parameters or an email other
    /// than the ones currently stored.
    RotationChangesKdfOrEmail,
    /// A rotation payload that declares a public key other than the one
    /// currently stored.
    RotationChangesKeypair,
    /// A registration request whose verification tokens do not form one of
    /// the accepted combinations.
    RegistrationIncomplete,
    /// A verification claim that does not match the account it was made for.
    ClaimMismatch,
    /// The requested address is already taken by another account.
    EmailInUse,
    /// The requested address is outside the allowed domains.
    EmailDomainNotAllowed,
    /// A change was confirmed for an address other than the pending one.
    EmailChangeMismatch,
    /// No email change is pending for this account.
    NoEmailChangePending,
    /// The supplied email-change token does not match the issued one.
    EmailTokenMismatch,
}

/// Reasons for refusing a request that a server setting or a security
/// floor forbids.
#[derive(Clone, Copy, Debug, PartialEq, Eq, Structural)]
pub enum PolicyReason {
    /// PBKDF2 selected with fewer than 100 000 iterations.
    Pbkdf2IterationsTooLow,
    /// Argon2id selected with fewer than 1 iteration.
    Argon2IterationsTooLow,
    /// Argon2id selected without a memory parameter.
    Argon2MemoryMissing,
    /// Argon2id memory outside 15..=1024 MiB.
    Argon2MemoryOutOfRange,
    /// Argon2id selected without a parallelism parameter.
    Argon2ParallelismMissing,
    /// Argon2id parallelism outside 1..=16.
    Argon2ParallelismOutOfRange,
    /// The administrator has disabled password hints.
    PasswordHintsDisabled,
    /// Hint lookup is refused because no delivery channel is configured.
    HintLookupNotConfigured,
    /// The administrator has disabled email changes.
    EmailChangeDisabled,
    /// Registration is not open for this address.
    RegistrationNotAllowed,
    /// Emergency access is not enabled on this server.
    EmergencyAccessDisabled,
    /// Account deletion by mail recovery requires mail delivery.
    DeleteRecoveryUnavailable,
}

/// Every failure an account-security operation can report.
#[derive(Clone, Copy, Debug, PartialEq, Eq, Structural)]
pub enum SecurityError {
    /// Bad input shape or content; the caller can correct and resubmit.
    ValidationFailed(ValidationReason),
    /// A server setting or a security floor forbids the request.
    PolicyViolation(PolicyReason),
    /// The presented master-password hash does not match the stored one.
    AuthenticationFailed,
    /// A rotation payload omits at least one entity of the named family.
    IncompleteRotation(RotationFamily),
    /// The auth request is already in a terminal state.
    StateConflict,
    /// The entity does not exist or is not visible to the caller; served
    /// generically so that existence of other users' data never leaks.
    NotFound,
}

} // verus!
