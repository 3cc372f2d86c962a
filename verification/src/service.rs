use vstd::prelude::*;

verus! {

/// Why a service could not answer.
#[derive(Debug)]
pub struct ServiceError {
    pub message: String,
}

/// Password hashing, supplied by the application.
pub trait AuthService: Send + Sync {
    /// The PHC-format hash of `password`.
    fn hash_password(&self, password: &str) -> Result<String, ServiceError>;

    /// Whether `password` matches the PHC-format hash `phc`.
    fn verify_password(&self, password: &str, phc: &str) -> Result<bool, ServiceError>;
}

} // verus!
