use vstd::prelude::*;
use crate::error::JudgeError;

verus! {

/// `uuid::Uuid`, carried through the library as an opaque value.
#[verifier::external_type_specification]
#[verifier::external_body]
pub struct ExUuid(uuid::Uuid);

/// `Clone` of `uuid::Uuid`, which derives `Clone` beside `Copy`: a clone is
/// the same id.
pub assume_specification[ <uuid::Uuid as Clone>::clone ](id: &uuid::Uuid) -> (res: uuid::Uuid)
    ensures
        res == *id,
;

/// Calls `uuid::Uuid::from_slice` and hands back the id's bytes: the call
/// succeeds exactly on a 16-byte slice, and the id holds those bytes.
#[verifier::external_body]
fn uuid_bytes_from_slice(data: &[u8]) -> (res: Option<[u8; 16]>)
    ensures
        res is Some <==> data@.len() == 16,
        res matches Some(bytes) ==> bytes@ == data@,
{
    match uuid::Uuid::from_slice(data) {
        Ok(id) => Some(*id.as_bytes()),
        Err(_) => None,
    }
}

/// Reads a submission id from a queued message: the message must be exactly
/// the id's 16 bytes.
pub fn parse_submission_id(data: &[u8]) -> (res: Result<[u8; 16], JudgeError>)
    ensures
        res is Ok <==> data@.len() == 16,
        res matches Ok(bytes) ==> bytes@ == data@,
        res is Err ==> res == Err::<[u8; 16], JudgeError>(JudgeError::InvalidSubmissionId),
{
    match uuid_bytes_from_slice(data) {
        Some(bytes) => Ok(bytes),
        None => Err(JudgeError::InvalidSubmissionId),
    }
}

} // verus!
