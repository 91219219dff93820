//! The response classifier: success or failure is decided by the status
//! code alone, never by the body.

use vstd::prelude::*;

use crate::codec::decode_project;
use crate::codec::decode_projects;
use crate::codec::project_of_text;
use crate::codec::projects_of_text;
use crate::codec::Project;
use crate::error::Error;

verus! {

/// The status code the list and create operations expect on success.
pub const STATUS_OK: u16 = 200;

/// The status code the delete operation expects on success.
pub const STATUS_NO_CONTENT: u16 = 204;

/// Decides success from the actual status code and the one the operation
/// expects: success exactly on a match, and any other actual code comes
/// back inside `BadStatus`. No body is looked at.
pub fn classify(actual: u16, expected: u16) -> (r: Result<(), Error>)
    ensures
        r is Ok <==> actual == expected,
        r matches Err(e) ==> e == Error::BadStatus(actual),
{
    if actual == expected {
        Ok(())
    } else {
        Err(Error::BadStatus(actual))
    }
}

/// The whole response side of the list operation: classify the status
/// against the expected one, then decode the body as a project sequence.
/// On any other status the body is discarded unread.
pub fn list_outcome(status: u16, body: &str) -> (r: Result<Vec<Project>, Error>)
    ensures
        status != STATUS_OK ==> (r matches Err(e) && e == Error::BadStatus(status)),
        status == STATUS_OK ==> match r {
            Ok(v) => projects_of_text(body@) == Some(v@.map_values(|p: Project| p@)),
            Err(e) => projects_of_text(body@) is None && e is DecodeFailure,
        },
{
    match classify(status, STATUS_OK) {
        Ok(_) => decode_projects(body),
        Err(e) => Err(e),
    }
}

/// The whole response side of the create operation: classify the status,
/// then decode the body as a single project. On any other status the body
/// is discarded unread, whatever message it may carry.
pub fn create_outcome(status: u16, body: &str) -> (r: Result<Project, Error>)
    ensures
        status != STATUS_OK ==> (r matches Err(e) && e == Error::BadStatus(status)),
        status == STATUS_OK ==> match r {
            Ok(p) => project_of_text(body@) == Some(p@),
            Err(e) => project_of_text(body@) is None && e is DecodeFailure,
        },
{
    match classify(status, STATUS_OK) {
        Ok(_) => decode_project(body),
        Err(e) => Err(e),
    }
}

/// The whole response side of the delete operation: only the no-content
/// status counts as success, and there is no body to decode.
pub fn delete_outcome(status: u16) -> (r: Result<(), Error>)
    ensures
        r is Ok <==> status == STATUS_NO_CONTENT,
        r matches Err(e) ==> e == Error::BadStatus(status),
{
    classify(status, STATUS_NO_CONTENT)
}

} // verus!
