use account_security::error::{PolicyReason, SecurityError};
use account_security::kdf::{Kdf, KdfType};

fn argon2(iterations: i32, memory: Option<i32>, parallelism: Option<i32>) -> Kdf {
    Kdf { kdf_type: KdfType::Argon2id, iterations, memory, parallelism }
}

fn pbkdf2(iterations: i32) -> Kdf {
    Kdf { kdf_type: KdfType::Pbkdf2, iterations, memory: None, parallelism: None }
}

#[test]
fn pbkdf2_boundary_accepted() {
    let k = pbkdf2(100000);
    assert_eq!(k.validate(), Ok(k));
}

#[test]
fn pbkdf2_below_floor_rejected() {
    assert_eq!(
        pbkdf2(99999).validate(),
        Err(SecurityError::PolicyViolation(PolicyReason::Pbkdf2IterationsTooLow))
    );
}

#[test]
fn pbkdf2_clears_ignored_parameters() {
    let k = Kdf { kdf_type: KdfType::Pbkdf2, iterations: 600000, memory: Some(64), parallelism: Some(4) };
    assert_eq!(k.validate(), Ok(pbkdf2(600000)));
}

#[test]
fn argon2_boundaries_accepted() {
    let low = argon2(1, Some(15), Some(1));
    assert_eq!(low.validate(), Ok(low));
    let high = argon2(1, Some(1024), Some(16));
    assert_eq!(high.validate(), Ok(high));
}

#[test]
fn argon2_iterations_floor() {
    assert_eq!(
        argon2(0, Some(64), Some(4)).validate(),
        Err(SecurityError::PolicyViolation(PolicyReason::Argon2IterationsTooLow))
    );
}

#[test]
fn argon2_memory_out_of_range_rejected() {
    assert_eq!(
        argon2(3, Some(14), Some(4)).validate(),
        Err(SecurityError::PolicyViolation(PolicyReason::Argon2MemoryOutOfRange))
    );
    assert_eq!(
        argon2(3, Some(1025), Some(4)).validate(),
        Err(SecurityError::PolicyViolation(PolicyReason::Argon2MemoryOutOfRange))
    );
}

#[test]
fn argon2_memory_required() {
    assert_eq!(
        argon2(3, None, Some(4)).validate(),
        Err(SecurityError::PolicyViolation(PolicyReason::Argon2MemoryMissing))
    );
}

#[test]
fn argon2_parallelism_out_of_range_rejected() {
    assert_eq!(
        argon2(3, Some(64), Some(0)).validate(),
        Err(SecurityError::PolicyViolation(PolicyReason::Argon2ParallelismOutOfRange))
    );
    assert_eq!(
        argon2(3, Some(64), Some(17)).validate(),
        Err(SecurityError::PolicyViolation(PolicyReason::Argon2ParallelismOutOfRange))
    );
}

#[test]
fn argon2_parallelism_required() {
    assert_eq!(
        argon2(3, Some(64), None).validate(),
        Err(SecurityError::PolicyViolation(PolicyReason::Argon2ParallelismMissing))
    );
}
