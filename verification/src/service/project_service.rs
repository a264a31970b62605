//! The project service: field validation and timestamp bookkeeping in
//! front of the project collection.

use vstd::prelude::*;
use crate::clock::now_millis;
use crate::error::ApiError;
use crate::id::ObjectId;
use crate::models::project::{Project, ProjectV};
use crate::repository::project_repository::{
    ProjectRepository, project_stored, project_merged, entries_wf, entry_of, has_id, index_of_id,
    lemma_update_then_get,
};

verus! {

/// The field-validation verdict on a project: the rejection message for
/// an empty name, if the name is empty.
pub open spec fn project_field_fault(p: ProjectV) -> Option<Seq<char>> {
    if p.name.len() == 0 {
        Some("Project name cannot be empty"@)
    } else {
        None
    }
}

/// The project as created: the caller's fields under a fresh identifier,
/// with both timestamps set to the creation time.
pub open spec fn project_created(p: ProjectV, id: int, now: int) -> ProjectV {
    ProjectV { id: Some(id), created_at: now, updated_at: now, ..p }
}

/// The project as updated: the caller's fields under the stored
/// identifier, keeping the stored creation timestamp, with the update
/// timestamp set to the update time.
pub open spec fn project_updated(p: ProjectV, id: int, created_at: int, now: int) -> ProjectV {
    ProjectV { id: Some(id), created_at, updated_at: now, ..p }
}

/// Checks the required project fields, returning the client fault for
/// an empty name.
pub fn validate_project_fields(project: &Project) -> (r: Option<ApiError>)
    ensures
        match project_field_fault(project@) {
            Some(m) => r matches Some(e) && (e matches ApiError::BadRequest(msg) && msg@ == m),
            None => r is None,
        },
{
    if project.name.as_str().is_empty() {
        Some(ApiError::BadRequest(String::from_str("Project name cannot be empty")))
    } else {
        None
    }
}

/// Validation and timestamping in front of the project collection.
pub struct ProjectService {
    repository: ProjectRepository,
}

impl View for ProjectService {
    type V = Seq<ProjectV>;

    closed spec fn view(&self) -> Seq<ProjectV> {
        self.repository@
    }
}

impl ProjectService {
    /// Invariant of the underlying collection.
    pub closed spec fn inv(&self) -> bool {
        self.repository.inv()
    }

    /// The next identifier value the collection will assign.
    pub closed spec fn next_id_val(&self) -> int {
        self.repository.next_id_val()
    }

    /// Whether the identifier space is not exhausted.
    pub open spec fn can_assign_id(&self) -> bool {
        self.next_id_val() < u64::MAX as int
    }

    /// Wraps a collection.
    pub fn new(repository: ProjectRepository) -> (r: ProjectService)
        requires
            repository.inv(),
        ensures
            r.inv(),
            r@ == repository@,
            r.next_id_val() == repository.next_id_val(),
    {
        ProjectService { repository }
    }

    /// Validates the name, stamps both timestamps with `now`, and stores
    /// the project under a fresh identifier.
    pub fn create_project_at(&mut self, project: Project, now: i64) -> (r: Result<
        Project,
        ApiError,
    >)
        requires
            old(self).inv(),
        ensures
            final(self).inv(),
            project_field_fault(project@) matches Some(m) ==> ({
                &&& r matches Err(e) && (e matches ApiError::BadRequest(msg) && msg@ == m)
                &&& final(self)@ == old(self)@
                &&& final(self).next_id_val() == old(self).next_id_val()
            }),
            project_field_fault(project@) is None && old(self).can_assign_id() ==> ({
                &&& r matches Ok(p)
                &&& p@ == project_created(project@, old(self).next_id_val(), now as int)
                &&& !has_id(old(self)@, old(self).next_id_val())
                &&& final(self)@ == old(self)@.push(p@)
                &&& final(self).next_id_val() == old(self).next_id_val() + 1
            }),
            project_field_fault(project@) is None && !old(self).can_assign_id() ==> ({
                &&& r matches Err(e) && e is Internal
                &&& final(self)@ == old(self)@
                &&& final(self).next_id_val() == old(self).next_id_val()
            }),
    {
        let mut project = project;
        project.created_at = now;
        project.updated_at = now;
        if let Some(e) = validate_project_fields(&project) {
            return Err(e);
        }
        let ghost stamped = project@;
        let r = self.repository.create(project);
        proof {
            if old(self).can_assign_id() {
                assert(project_stored(stamped, old(self).next_id_val()) =~= project_created(
                    project@,
                    old(self).next_id_val(),
                    now as int,
                ));
            }
        }
        r
    }

    /// Validates the name, stamps the update timestamp with `now`, and
    /// replaces the stored project, keeping its identifier and creation
    /// timestamp.
    pub fn update_project_at(&mut self, id: &ObjectId, project: Project, now: i64) -> (r: Result<
        Project,
        ApiError,
    >)
        requires
            old(self).inv(),
        ensures
            final(self).inv(),
            final(self).next_id_val() == old(self).next_id_val(),
            project_field_fault(project@) matches Some(m) ==> ({
                &&& r matches Err(e) && (e matches ApiError::BadRequest(msg) && msg@ == m)
                &&& final(self)@ == old(self)@
            }),
            project_field_fault(project@) is None && !has_id(old(self)@, id@) ==> ({
                &&& r matches Err(e) && e is NotFound
                &&& final(self)@ == old(self)@
            }),
            project_field_fault(project@) is None && has_id(old(self)@, id@) ==> ({
                let j = index_of_id(old(self)@, id@);
                &&& r matches Ok(p)
                &&& p@ == project_updated(project@, id@, old(self)@[j].created_at, now as int)
                &&& final(self)@ == old(self)@.update(j, p@)
            }),
    {
        let mut project = project;
        project.updated_at = now;
        if let Some(e) = validate_project_fields(&project) {
            return Err(e);
        }
        let ghost stamped = project@;
        let r = self.repository.update(id, project);
        proof {
            if has_id(old(self)@, id@) {
                let j = index_of_id(old(self)@, id@);
                assert(project_merged(stamped, id@, old(self)@[j].created_at) =~= project_updated(
                    project@,
                    id@,
                    old(self)@[j].created_at,
                    now as int,
                ));
            }
        }
        r
    }

    /// Removes the project matching `id`; reports whether one was
    /// removed.
    pub fn delete_project(&mut self, id: &ObjectId) -> (r: Result<bool, ApiError>)
        requires
            old(self).inv(),
        ensures
            final(self).inv(),
            final(self).next_id_val() == old(self).next_id_val(),
            r matches Ok(b) && b == has_id(old(self)@, id@),
            has_id(old(self)@, id@) ==> final(self)@ == old(self)@.remove(
                index_of_id(old(self)@, id@),
            ),
            !has_id(old(self)@, id@) ==> final(self)@ == old(self)@,
    {
        self.repository.delete(id)
    }

    /// Fetches the project matching `id`.
    pub fn get_project(&self, id: &ObjectId) -> (r: Result<Project, ApiError>)
        requires
            self.inv(),
        ensures
            has_id(self@, id@) ==> (r matches Ok(p) && p@ == entry_of(self@, id@)),
            !has_id(self@, id@) ==> (r matches Err(e) && e is NotFound),
    {
        self.repository.get_by_id(id)
    }

    /// Returns every stored project, in insertion order.
    pub fn get_all_projects(&self) -> (r: Result<Vec<Project>, ApiError>)
        requires
            self.inv(),
        ensures
            r matches Ok(v) && v@.map_values(|p: Project| p@) == self@,
    {
        self.repository.get_all()
    }

    /// Stamps the project with the current time and creates it.
    pub fn create_project(&mut self, project: Project) -> (r: Result<Project, ApiError>)
        requires
            old(self).inv(),
        ensures
            final(self).inv(),
            project_field_fault(project@) matches Some(m) ==> ({
                &&& r matches Err(e) && (e matches ApiError::BadRequest(msg) && msg@ == m)
                &&& final(self)@ == old(self)@
                &&& final(self).next_id_val() == old(self).next_id_val()
            }),
            project_field_fault(project@) is None && old(self).can_assign_id() ==> ({
                &&& r matches Ok(p)
                &&& p@.id == Some(old(self).next_id_val())
                &&& p@.created_at == p@.updated_at
                &&& p@.name == project@.name
                &&& p@.telegram_chat_id == project@.telegram_chat_id
                &&& p@.facebook_credentials == project@.facebook_credentials
                &&& p@.package == project@.package
                &&& p@.expires_at == project@.expires_at
                &&& p@.is_active == project@.is_active
                &&& p@.is_logging == project@.is_logging
                &&& !has_id(old(self)@, old(self).next_id_val())
                &&& final(self)@ == old(self)@.push(p@)
                &&& final(self).next_id_val() == old(self).next_id_val() + 1
            }),
            project_field_fault(project@) is None && !old(self).can_assign_id() ==> ({
                &&& r matches Err(e) && e is Internal
                &&& final(self)@ == old(self)@
            }),
    {
        let now = now_millis();
        self.create_project_at(project, now)
    }

    /// Stamps the project with the current time and updates it.
    pub fn update_project(&mut self, id: &ObjectId, project: Project) -> (r: Result<
        Project,
        ApiError,
    >)
        requires
            old(self).inv(),
        ensures
            final(self).inv(),
            final(self).next_id_val() == old(self).next_id_val(),
            project_field_fault(project@) matches Some(m) ==> ({
                &&& r matches Err(e) && (e matches ApiError::BadRequest(msg) && msg@ == m)
                &&& final(self)@ == old(self)@
            }),
            project_field_fault(project@) is None && !has_id(old(self)@, id@) ==> ({
                &&& r matches Err(e) && e is NotFound
                &&& final(self)@ == old(self)@
            }),
            project_field_fault(project@) is None && has_id(old(self)@, id@) ==> ({
                let j = index_of_id(old(self)@, id@);
                &&& r matches Ok(p)
                &&& p@.id == Some(id@)
                &&& p@.created_at == old(self)@[j].created_at
                &&& p@.name == project@.name
                &&& p@.telegram_chat_id == project@.telegram_chat_id
                &&& p@.facebook_credentials == project@.facebook_credentials
                &&& p@.package == project@.package
                &&& p@.expires_at == project@.expires_at
                &&& p@.is_active == project@.is_active
                &&& p@.is_logging == project@.is_logging
                &&& final(self)@ == old(self)@.update(j, p@)
            }),
    {
        let now = now_millis();
        self.update_project_at(id, project, now)
    }
}

/// An updated project is read back exactly: every field equals the
/// incoming entity's, except the identifier and the creation timestamp,
/// which keep their stored values, and the update timestamp, which is
/// at least the stored one whenever the update time is.
pub proof fn lemma_update_round_trip(s: Seq<ProjectV>, id: int, p: ProjectV, now: int)
    requires
        entries_wf(s),
        has_id(s, id),
        now >= entry_of(s, id).updated_at,
    ensures
        ({
            let j = index_of_id(s, id);
            let m = project_updated(p, id, s[j].created_at, now);
            &&& entries_wf(s.update(j, m))
            &&& has_id(s.update(j, m), id)
            &&& entry_of(s.update(j, m), id) == m
            &&& m.id == entry_of(s, id).id
            &&& m.created_at == entry_of(s, id).created_at
            &&& m.updated_at >= entry_of(s, id).updated_at
            &&& m.name == p.name
            &&& m.telegram_chat_id == p.telegram_chat_id
            &&& m.facebook_credentials == p.facebook_credentials
            &&& m.package == p.package
            &&& m.expires_at == p.expires_at
            &&& m.is_active == p.is_active
            &&& m.is_logging == p.is_logging
        }),
{
    let j = index_of_id(s, id);
    let m = project_updated(p, id, s[j].created_at, now);
    lemma_update_then_get(s, j, m);
}

} // verus!
