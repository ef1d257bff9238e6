use vstd::prelude::*;

use crate::error::{PolicyReason, SecurityError};

verus! {

/// The two supported key-derivation algorithms.
#[derive(Clone, Copy, Debug, PartialEq, Eq, Structural)]
pub enum KdfType {
    Pbkdf2,
    Argon2id,
}

/// A full KDF selection: algorithm plus its cost parameters.  Memory and
/// parallelism are meaningful for Argon2id only.
#[derive(Clone, Copy, Debug, PartialEq, Eq, Structural)]
pub struct Kdf {
    pub kdf_type: KdfType,
    pub iterations: i32,
    pub memory: Option<i32>,
    pub parallelism: Option<i32>,
}

/// Cost parameters a validated selection always satisfies: the security
/// floors, and memory/parallelism present exactly when Argon2id needs them.
pub open spec fn kdf_accepted(k: Kdf) -> bool {
    match k.kdf_type {
        KdfType::Pbkdf2 => k.iterations >= 100000 && k.memory is None && k.parallelism is None,
        KdfType::Argon2id => {
            &&& k.iterations >= 1
            &&& k.memory matches Some(m) && 15 <= m <= 1024
            &&& k.parallelism matches Some(p) && 1 <= p <= 16
        },
    }
}

/// The exact outcome the validator owes for a given selection: the first
/// violated floor, or the selection itself with the parameters PBKDF2
/// ignores cleared.
pub open spec fn validate_kdf_spec(k: Kdf) -> Result<Kdf, SecurityError> {
    match k.kdf_type {
        KdfType::Pbkdf2 => {
            if k.iterations < 100000 {
                Err(SecurityError::PolicyViolation(PolicyReason::Pbkdf2IterationsTooLow))
            } else {
                Ok(Kdf { kdf_type: KdfType::Pbkdf2, iterations: k.iterations, memory: None, parallelism: None })
            }
        },
        KdfType::Argon2id => {
            if k.iterations < 1 {
                Err(SecurityError::PolicyViolation(PolicyReason::Argon2IterationsTooLow))
            } else {
                match k.memory {
                    None => Err(SecurityError::PolicyViolation(PolicyReason::Argon2MemoryMissing)),
                    Some(m) => {
                        if !(15 <= m <= 1024) {
                            Err(SecurityError::PolicyViolation(PolicyReason::Argon2MemoryOutOfRange))
                        } else {
                            match k.parallelism {
                                None => Err(
                                    SecurityError::PolicyViolation(PolicyReason::Argon2ParallelismMissing),
                                ),
                                Some(p) => {
                                    if !(1 <= p <= 16) {
                                        Err(
                                            SecurityError::PolicyViolation(
                                                PolicyReason::Argon2ParallelismOutOfRange,
                                            ),
                                        )
                                    } else {
                                        Ok(k)
                                    }
                                },
                            }
                        }
                    },
                }
            }
        },
    }
}

impl Kdf {
    /// Enforce the security floors on a requested KDF selection before any
    /// field of the account is written.  On acceptance the returned
    /// selection is the one to store: for PBKDF2 the memory and
    /// parallelism parameters are cleared, for Argon2id they are kept.
    pub fn validate(&self) -> (r: Result<Kdf, SecurityError>)
        ensures
            r == validate_kdf_spec(*self),
            r matches Ok(v) ==> kdf_accepted(v),
    {
        match self.kdf_type {
            KdfType::Pbkdf2 => {
                if self.iterations < 100000 {
                    Err(SecurityError::PolicyViolation(PolicyReason::Pbkdf2IterationsTooLow))
                } else {
                    Ok(Kdf { kdf_type: KdfType::Pbkdf2, iterations: self.iterations, memory: None, parallelism: None })
                }
            },
            KdfType::Argon2id => {
                if self.iterations < 1 {
                    return Err(SecurityError::PolicyViolation(PolicyReason::Argon2IterationsTooLow));
                }
                match self.memory {
                    None => Err(SecurityError::PolicyViolation(PolicyReason::Argon2MemoryMissing)),
                    Some(m) => {
                        if m < 15 || m > 1024 {
                            return Err(SecurityError::PolicyViolation(PolicyReason::Argon2MemoryOutOfRange));
                        }
                        match self.parallelism {
                            None => Err(SecurityError::PolicyViolation(PolicyReason::Argon2ParallelismMissing)),
                            Some(p) => {
                                if p < 1 || p > 16 {
                                    return Err(
                                        SecurityError::PolicyViolation(PolicyReason::Argon2ParallelismOutOfRange),
                                    );
                                }
                                Ok(*self)
                            },
                        }
                    },
                }
            },
        }
    }
}

/// Every accepted selection satisfies the floors, and every selection that
/// satisfies them is accepted unchanged up to the cleared PBKDF2
/// parameters; values at the exact boundaries are accepted.
pub proof fn lemma_validate_kdf_exact(k: Kdf)
    ensures
        validate_kdf_spec(k) matches Ok(v) ==> kdf_accepted(v),
        kdf_accepted(k) ==> validate_kdf_spec(k) == Ok::<Kdf, SecurityError>(k),
{
}

} // verus!
