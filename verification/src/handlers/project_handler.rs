//! Project request handlers: decode the path identifier, invoke the
//! project service, and hand the result or the failure back for
//! rendering.

use vstd::prelude::*;
use crate::error::ApiError;
use crate::id::{ObjectId, hex_value, is_id_hex};
use crate::models::project::Project;
use crate::service::project_service::{ProjectService, project_field_fault};
use crate::repository::project_repository::{entry_of, has_id, index_of_id};

verus! {

/// Creates a project from a decoded request body.
pub fn create_project(service: &mut ProjectService, project: Project) -> (r: Result<
    Project,
    ApiError,
>)
    requires
        old(service).inv(),
    ensures
        final(service).inv(),
        project_field_fault(project@) matches Some(m) ==> ({
            &&& r matches Err(e) && (e matches ApiError::BadRequest(msg) && msg@ == m)
            &&& final(service)@ == old(service)@
        }),
        project_field_fault(project@) is None && old(service).can_assign_id() ==> ({
            &&& r matches Ok(p)
            &&& p@.id == Some(old(service).next_id_val())
            &&& p@.created_at == p@.updated_at
            &&& p@.name == project@.name
            &&& p@.telegram_chat_id == project@.telegram_chat_id
            &&& p@.facebook_credentials == project@.facebook_credentials
            &&& p@.package == project@.package
            &&& p@.expires_at == project@.expires_at
            &&& p@.is_active == project@.is_active
            &&& p@.is_logging == project@.is_logging
            &&& !has_id(old(service)@, old(service).next_id_val())
            &&& final(service)@ == old(service)@.push(p@)
        }),
{
    service.create_project(project)
}

/// Updates the project named by the path identifier from a decoded
/// request body; a malformed identifier is a client fault.
pub fn update_project(service: &mut ProjectService, id: &str, project: Project) -> (r: Result<
    Project,
    ApiError,
>)
    requires
        old(service).inv(),
    ensures
        final(service).inv(),
        !is_id_hex(id@) ==> ({
            &&& r matches Err(e) && (e matches ApiError::BadRequest(m) && m@
                == "Invalid ID format"@)
            &&& final(service)@ == old(service)@
        }),
        is_id_hex(id@) ==> (project_field_fault(project@) matches Some(m) ==> ({
            &&& r matches Err(e) && (e matches ApiError::BadRequest(msg) && msg@ == m)
            &&& final(service)@ == old(service)@
        })),
        is_id_hex(id@) && project_field_fault(project@) is None && !has_id(
            old(service)@,
            hex_value(id@),
        ) ==> ({
            &&& r matches Err(e) && e is NotFound
            &&& final(service)@ == old(service)@
        }),
        is_id_hex(id@) && project_field_fault(project@) is None && has_id(
            old(service)@,
            hex_value(id@),
        ) ==> ({
            let j = index_of_id(old(service)@, hex_value(id@));
            &&& r matches Ok(p)
            &&& p@.id == Some(hex_value(id@))
            &&& p@.created_at == old(service)@[j].created_at
            &&& p@.name == project@.name
            &&& p@.telegram_chat_id == project@.telegram_chat_id
            &&& p@.facebook_credentials == project@.facebook_credentials
            &&& p@.package == project@.package
            &&& p@.expires_at == project@.expires_at
            &&& p@.is_active == project@.is_active
            &&& p@.is_logging == project@.is_logging
            &&& final(service)@ == old(service)@.update(j, p@)
        }),
{
    let object_id = match ObjectId::parse_str(id) {
        Ok(o) => o,
        Err(e) => {
            return Err(e);
        },
    };
    service.update_project(&object_id, project)
}

/// Deletes the project named by the path identifier; reports whether one
/// was removed. A malformed identifier is a client fault.
pub fn delete_project(service: &mut ProjectService, id: &str) -> (r: Result<bool, ApiError>)
    requires
        old(service).inv(),
    ensures
        final(service).inv(),
        !is_id_hex(id@) ==> ({
            &&& r matches Err(e) && (e matches ApiError::BadRequest(m) && m@
                == "Invalid ID format"@)
            &&& final(service)@ == old(service)@
        }),
        is_id_hex(id@) ==> ({
            &&& r matches Ok(b) && b == has_id(old(service)@, hex_value(id@))
            &&& has_id(old(service)@, hex_value(id@)) ==> final(service)@ == old(service)@.remove(
                index_of_id(old(service)@, hex_value(id@)),
            )
            &&& !has_id(old(service)@, hex_value(id@)) ==> final(service)@ == old(service)@
        }),
{
    let object_id = match ObjectId::parse_str(id) {
        Ok(o) => o,
        Err(e) => {
            return Err(e);
        },
    };
    service.delete_project(&object_id)
}

/// Fetches the project named by the path identifier. A malformed
/// identifier is a client fault, never a store fault.
pub fn get_project(service: &ProjectService, id: &str) -> (r: Result<Project, ApiError>)
    requires
        service.inv(),
    ensures
        !is_id_hex(id@) ==> (r matches Err(e) && (e matches ApiError::BadRequest(m) && m@
            == "Invalid ID format"@)),
        is_id_hex(id@) && has_id(service@, hex_value(id@)) ==> (r matches Ok(p) && p@ == entry_of(
            service@,
            hex_value(id@),
        )),
        is_id_hex(id@) && !has_id(service@, hex_value(id@)) ==> (r matches Err(e)
            && e is NotFound),
{
    let object_id = match ObjectId::parse_str(id) {
        Ok(o) => o,
        Err(e) => {
            return Err(e);
        },
    };
    service.get_project(&object_id)
}

/// Returns every stored project.
pub fn get_all_projects(service: &ProjectService) -> (r: Result<Vec<Project>, ApiError>)
    requires
        service.inv(),
    ensures
        r matches Ok(v) && v@.map_values(|p: Project| p@) == service@,
{
    service.get_all_projects()
}

} // verus!
