//! Drone management rules: creation validation, token issuance, and
//! the checks of the lookup and delete handlers.
//!
//! The persistence layer stays outside; it hands this module lookup
//! counts and takes the decisions back.

use vstd::prelude::*;

use crate::handler::ApiError;
use crate::randgen::random_alphanumeric;

verus! {

/// The request to create a new drone.
pub struct CreateDroneRequest {
    /// The unique name of the drone
    pub name: String,
    /// The repository the drone will back up to
    pub repository: String,
    /// The passphrase for the repository
    pub passphrase: String,
}

/// A registered drone, as the collector knows it.
#[derive(Clone, Debug)]
pub struct DroneRecord {
    /// The name of the drone; unique
    pub name: String,
    /// Whether the drone is active
    pub active: bool,
    /// The bearer token the drone authenticates with; unique
    pub token: String,
    /// The repository the drone backs up to; unique
    pub repository: String,
    /// The passphrase for the repository
    pub passphrase: String,
}

/// Validate a creation request against the existing drones: an empty
/// name is invalid; a taken name or a taken repository is refused; the
/// counts are how many existing drones hold the requested name and
/// repository.
pub fn validate_create_drone(
    req: &CreateDroneRequest,
    name_count: i64,
    repository_count: i64,
) -> (r: Result<(), ApiError>)
    ensures
        req.name@.len() == 0 ==> r == Err::<(), ApiError>(ApiError::InvalidName),
        req.name@.len() > 0 && name_count != 0 ==> r == Err::<(), ApiError>(
            ApiError::NameAlreadyExists,
        ),
        req.name@.len() > 0 && name_count == 0 && repository_count != 0 ==> r == Err::<
            (),
            ApiError,
        >(ApiError::RepositoryAlreadyExists),
        req.name@.len() > 0 && name_count == 0 && repository_count == 0 ==> r is Ok,
{
    if req.name.as_str().is_empty() {
        return Err(ApiError::InvalidName);
    }
    if name_count != 0 {
        return Err(ApiError::NameAlreadyExists);
    }
    if repository_count != 0 {
        return Err(ApiError::RepositoryAlreadyExists);
    }
    Ok(())
}

/// Issue the bearer token of a new drone: 255 random alphanumeric
/// characters, safe inside an authorization header value.
pub fn generate_drone_token() -> (r: String)
    ensures
        r@.len() == 255,
        forall|i: int| 0 <= i < r@.len() ==> crate::randgen::ascii_alphanumeric(#[trigger] r@[i]),
{
    random_alphanumeric(255)
}

/// The check of the delete handler: a uuid no drone holds is refused;
/// the count is how many drones hold the given uuid.
pub fn delete_drone_check(count: i64) -> (r: Result<(), ApiError>)
    ensures
        count == 0 ==> r == Err::<(), ApiError>(ApiError::InvalidUuid),
        count != 0 ==> r is Ok,
{
    if count == 0 {
        Err(ApiError::InvalidUuid)
    } else {
        Ok(())
    }
}

/// The check of the lookup handlers: a drone that was not found turns
/// into an invalid-uuid error, a found one is handed through.
pub fn lookup_drone_check(found: Option<DroneRecord>) -> (r: Result<DroneRecord, ApiError>)
    ensures
        found is Some ==> (r matches Ok(d) && d == found->Some_0),
        found is None ==> r == Err::<DroneRecord, ApiError>(ApiError::InvalidUuid),
{
    match found {
        Some(d) => Ok(d),
        None => Err(ApiError::InvalidUuid),
    }
}

/// The check of the drone API's authentication: a drone that no token
/// matched is unauthenticated.
pub fn auth_drone_check(found: Option<DroneRecord>) -> (r: Result<DroneRecord, ApiError>)
    ensures
        found is Some ==> (r matches Ok(d) && d == found->Some_0),
        found is None ==> r == Err::<DroneRecord, ApiError>(ApiError::Unauthenticated),
{
    match found {
        Some(d) => Ok(d),
        None => Err(ApiError::Unauthenticated),
    }
}

/// The response to a get-key request.
pub struct GetKeyResponse {
    /// The public key of the collector, openssh-encoded
    pub public_key: String,
}

/// Whether the mode bits of the private-key file are insecure: any
/// permission beyond the owner's read and write (0600) is refused.
pub fn key_file_mode_insecure(mode: u32) -> (r: bool)
    ensures
        r == (mode & 0o177 != 0),
{
    mode & 0o177 != 0
}

} // verus!
