//! The project collection: single-document operations keyed by
//! store-generated identifiers, over an in-memory document store.

use vstd::prelude::*;
use crate::error::ApiError;
use crate::id::ObjectId;
use crate::models::project::{Project, ProjectV};

verus! {

/// Whether some stored entry carries the identifier `id`.
pub open spec fn has_id(s: Seq<ProjectV>, id: int) -> bool {
    exists|i: int| 0 <= i < s.len() && (#[trigger] s[i]).id == Some(id)
}

/// The index of the entry carrying `id`, when one exists.
pub open spec fn index_of_id(s: Seq<ProjectV>, id: int) -> int {
    choose|i: int| 0 <= i < s.len() && (#[trigger] s[i]).id == Some(id)
}

/// The stored entry carrying `id`, when one exists.
pub open spec fn entry_of(s: Seq<ProjectV>, id: int) -> ProjectV {
    s[index_of_id(s, id)]
}

/// Stored entries carry assigned, pairwise distinct identifiers.
pub open spec fn entries_wf(s: Seq<ProjectV>) -> bool {
    &&& forall|i: int| 0 <= i < s.len() ==> (#[trigger] s[i]).id is Some
    &&& forall|i: int, j: int|
        #![trigger s[i].id, s[j].id]
        0 <= i < s.len() && 0 <= j < s.len() && i != j ==> s[i].id != s[j].id
}

/// The entity as stored: the incoming fields with the identifier set.
pub open spec fn project_stored(a: ProjectV, id: int) -> ProjectV {
    ProjectV { id: Some(id), ..a }
}

/// The result of replacing a stored entry: every field of the incoming
/// entity overwrites the stored one, except the identifier and the
/// creation timestamp, which keep their stored values.
pub open spec fn project_merged(a: ProjectV, id: int, created_at: int) -> ProjectV {
    ProjectV { id: Some(id), created_at, ..a }
}

/// If an entry at `i` carries `id` and identifiers are distinct, then
/// `i` is the index that the lookup functions name.
pub proof fn lemma_entry_at(s: Seq<ProjectV>, id: int, i: int)
    requires
        entries_wf(s),
        0 <= i < s.len(),
        s[i].id == Some(id),
    ensures
        has_id(s, id),
        index_of_id(s, id) == i,
        entry_of(s, id) == s[i],
{
    assert(has_id(s, id));
    let j = index_of_id(s, id);
    assert(0 <= j < s.len() && s[j].id == Some(id));
    if j != i {
        assert(s[i].id != s[j].id);
    }
}

/// A created entry is found again under its identifier, equal in every
/// field, and the store stays well formed.
pub proof fn lemma_create_then_get(s: Seq<ProjectV>, a: ProjectV)
    requires
        entries_wf(s),
        a.id is Some,
        !has_id(s, a.id->0),
    ensures
        entries_wf(s.push(a)),
        has_id(s.push(a), a.id->0),
        entry_of(s.push(a), a.id->0) == a,
{
    let s2 = s.push(a);
    assert forall|i: int, j: int|
        #![trigger s2[i].id, s2[j].id]
        0 <= i < s2.len() && 0 <= j < s2.len() && i != j implies s2[i].id != s2[j].id by {
        if i < s.len() && j < s.len() {
            assert(s2[i] == s[i] && s2[j] == s[j]);
        } else if i < s.len() {
            assert(s2[j] == a && s2[i] == s[i]);
            if s[i].id == a.id {
                assert(has_id(s, a.id->0));
            }
        } else {
            assert(s2[i] == a && s2[j] == s[j]);
            if s[j].id == a.id {
                assert(has_id(s, a.id->0));
            }
        }
    }
    assert(forall|i: int| 0 <= i < s2.len() ==> (#[trigger] s2[i]).id is Some);
    lemma_entry_at(s2, a.id->0, s.len() as int);
}

/// A replaced entry is found again under its identifier, equal in every
/// field to what was stored, and the store stays well formed.
pub proof fn lemma_update_then_get(s: Seq<ProjectV>, j: int, a: ProjectV)
    requires
        entries_wf(s),
        0 <= j < s.len(),
        a.id == s[j].id,
    ensures
        entries_wf(s.update(j, a)),
        has_id(s.update(j, a), a.id->0),
        index_of_id(s.update(j, a), a.id->0) == j,
        entry_of(s.update(j, a), a.id->0) == a,
{
    let s2 = s.update(j, a);
    assert forall|i: int, k: int|
        #![trigger s2[i].id, s2[k].id]
        0 <= i < s2.len() && 0 <= k < s2.len() && i != k implies s2[i].id != s2[k].id by {
        assert(s2[i] == if i == j { a } else { s[i] });
        assert(s2[k] == if k == j { a } else { s[k] });
        assert(s[i].id != s[k].id);
    }
    assert(forall|i: int| 0 <= i < s2.len() ==> (#[trigger] s2[i]).id is Some);
    lemma_entry_at(s2, a.id->0, j);
}

/// After an entry is removed, no entry carries its identifier any more,
/// every other entry is still present, and the store stays well formed.
pub proof fn lemma_delete_removes(s: Seq<ProjectV>, id: int)
    requires
        entries_wf(s),
        has_id(s, id),
    ensures
        entries_wf(s.remove(index_of_id(s, id))),
        !has_id(s.remove(index_of_id(s, id)), id),
        forall|x: int|
            x != id && has_id(s, x) ==> has_id(s.remove(index_of_id(s, id)), x)
                && entry_of(s.remove(index_of_id(s, id)), x) == entry_of(s, x),
{
    let j = index_of_id(s, id);
    let s2 = s.remove(j);
    assert forall|i: int, k: int|
        #![trigger s2[i].id, s2[k].id]
        0 <= i < s2.len() && 0 <= k < s2.len() && i != k implies s2[i].id != s2[k].id by {
        assert(s2[i] == if i < j { s[i] } else { s[i + 1] });
        assert(s2[k] == if k < j { s[k] } else { s[k + 1] });
    }
    assert(forall|i: int| 0 <= i < s2.len() ==> (#[trigger] s2[i]).id is Some);
    assert forall|i: int| 0 <= i < s2.len() implies (#[trigger] s2[i]).id != Some(id) by {
        assert(s2[i] == if i < j { s[i] } else { s[i + 1] });
        assert(s[j].id == Some(id));
    }
    assert forall|x: int| x != id && has_id(s, x) implies has_id(s2, x) && entry_of(s2, x)
        == entry_of(s, x) by {
        let i = index_of_id(s, x);
        assert(s[i].id == Some(x));
        assert(i != j);
        if i < j {
            assert(s2[i] == s[i]);
            lemma_entry_at(s2, x, i);
        } else {
            assert(s2[i - 1] == s[i]);
            lemma_entry_at(s2, x, i - 1);
        }
    }
}

/// The project collection. Entries hold assigned, pairwise distinct
/// identifiers drawn from a counter that the store owns.
pub struct ProjectRepository {
    docs: Vec<Project>,
    next_id: u64,
}

impl View for ProjectRepository {
    type V = Seq<ProjectV>;

    closed spec fn view(&self) -> Seq<ProjectV> {
        self.docs@.map_values(|p: Project| p@)
    }
}

impl ProjectRepository {
    /// The next identifier value the store will assign.
    pub closed spec fn next_id_val(&self) -> int {
        self.next_id as int
    }

    /// Whether the identifier space is not exhausted.
    pub open spec fn can_assign_id(&self) -> bool {
        self.next_id_val() < u64::MAX as int
    }

    /// Invariant: entries are well formed and every assigned identifier
    /// value is positive and below the counter.
    pub closed spec fn inv(&self) -> bool {
        &&& entries_wf(self@)
        &&& 1 <= self.next_id
        &&& forall|i: int| 0 <= i < self@.len() ==> 1 <= (#[trigger] self@[i]).id->0
            < self.next_id_val()
    }

    /// An empty collection.
    pub fn new() -> (r: ProjectRepository)
        ensures
            r.inv(),
            r@ == Seq::<ProjectV>::empty(),
            r.next_id_val() == 1,
    {
        let r = ProjectRepository { docs: Vec::new(), next_id: 1 };
        proof {
            assert(r@ =~= Seq::<ProjectV>::empty());
        }
        r
    }

    /// The position of the entry carrying `id`, scanning the documents.
    fn find_index(&self, id: &ObjectId) -> (r: Option<usize>)
        requires
            self.inv(),
        ensures
            has_id(self@, id@) ==> (r matches Some(i) && i == index_of_id(self@, id@)),
            !has_id(self@, id@) ==> r is None,
    {
        let mut i: usize = 0;
        while i < self.docs.len()
            invariant
                self.inv(),
                0 <= i <= self.docs.len(),
                self@.len() == self.docs.len(),
                forall|j: int| 0 <= j < i ==> (#[trigger] self@[j]).id != Some(id@),
            decreases self.docs.len() - i,
        {
            let found = match &self.docs[i].id {
                Some(o) => o.equals(id),
                None => false,
            };
            if found {
                proof {
                    lemma_entry_at(self@, id@, i as int);
                }
                return Some(i);
            }
            i += 1;
        }
        None
    }

    /// Stores the entity under a fresh identifier (any identifier the
    /// caller supplied is ignored) and returns it as stored. Fails with
    /// `Internal` only if the store cannot assign an identifier.
    pub fn create(&mut self, project: Project) -> (r: Result<Project, ApiError>)
        requires
            old(self).inv(),
        ensures
            final(self).inv(),
            old(self).can_assign_id() ==> ({
                &&& r matches Ok(a)
                &&& a@ == project_stored(project@, old(self).next_id_val())
                &&& !has_id(old(self)@, old(self).next_id_val())
                &&& final(self)@ == old(self)@.push(a@)
                &&& final(self).next_id_val() == old(self).next_id_val() + 1
            }),
            !old(self).can_assign_id() ==> ({
                &&& r matches Err(e) && e is Internal
                &&& final(self)@ == old(self)@
                &&& final(self).next_id_val() == old(self).next_id_val()
            }),
    {
        if self.next_id == u64::MAX {
            return Err(ApiError::Internal(String::from_str("Failed to get inserted ID")));
        }
        let ghost prev = self@;
        let id = ObjectId::from_value(self.next_id as u128);
        let mut stored = project;
        stored.id = Some(id);
        let result = stored.clone();
        proof {
            assert(stored@ == project_stored(project@, self.next_id_val()));
            if has_id(prev, self.next_id_val()) {
                let i = index_of_id(prev, self.next_id_val());
                assert(prev[i].id->0 < self.next_id_val());
            }
        }
        self.docs.push(stored);
        self.next_id = self.next_id + 1;
        proof {
            assert(self@ =~= prev.push(result@));
            lemma_create_then_get(prev, result@);
            assert forall|i: int| 0 <= i < self@.len() implies 1 <= (#[trigger] self@[i]).id->0
                < self.next_id_val() by {
                if i < prev.len() {
                    assert(self@[i] == prev[i]);
                }
            }
        }
        Ok(result)
    }

    /// Replaces the entry matching `id` field by field, keeping the
    /// stored identifier and creation timestamp, and returns the entry
    /// as stored; fails with `NotFound` if no entry matches.
    pub fn update(&mut self, id: &ObjectId, project: Project) -> (r: Result<Project, ApiError>)
        requires
            old(self).inv(),
        ensures
            final(self).inv(),
            final(self).next_id_val() == old(self).next_id_val(),
            !has_id(old(self)@, id@) ==> ({
                &&& r matches Err(e) && e is NotFound
                &&& final(self)@ == old(self)@
            }),
            has_id(old(self)@, id@) ==> ({
                let j = index_of_id(old(self)@, id@);
                &&& r matches Ok(a)
                &&& a@ == project_merged(project@, id@, old(self)@[j].created_at)
                &&& final(self)@ == old(self)@.update(j, a@)
            }),
    {
        let ghost prev = self@;
        match self.find_index(id) {
            Some(i) => {
                let mut stored = project;
                stored.id = Some(*id);
                stored.created_at = self.docs[i].created_at;
                let result = stored.clone();
                self.docs.set(i, stored);
                proof {
                    assert(self@ =~= prev.update(i as int, result@));
                    assert(result@ == project_merged(project@, id@, prev[i as int].created_at));
                    lemma_update_then_get(prev, i as int, result@);
                    assert forall|k: int| 0 <= k < self@.len() implies 1 <= (
                    #[trigger] self@[k]).id->0 < self.next_id_val() by {
                        if k != i {
                            assert(self@[k] == prev[k]);
                        } else {
                            assert(self@[k].id == prev[k].id);
                        }
                    }
                }
                Ok(result)
            },
            None => Err(ApiError::NotFound),
        }
    }

    /// Removes the entry matching `id`; reports whether one was removed,
    /// and never fails merely because none was.
    pub fn delete(&mut self, id: &ObjectId) -> (r: Result<bool, ApiError>)
        requires
            old(self).inv(),
        ensures
            final(self).inv(),
            final(self).next_id_val() == old(self).next_id_val(),
            r matches Ok(b) && b == has_id(old(self)@, id@),
            has_id(old(self)@, id@) ==> final(self)@ == old(self)@.remove(
                index_of_id(old(self)@, id@),
            ),
            !has_id(old(self)@, id@) ==> final(self)@ == old(self)@,
    {
        let ghost prev = self@;
        match self.find_index(id) {
            Some(i) => {
                self.docs.remove(i);
                proof {
                    assert(self@ =~= prev.remove(i as int));
                    lemma_delete_removes(prev, id@);
                    assert forall|k: int| 0 <= k < self@.len() implies 1 <= (
                    #[trigger] self@[k]).id->0 < self.next_id_val() by {
                        assert(self@[k] == if k < i as int { prev[k] } else { prev[k + 1] });
                    }
                }
                Ok(true)
            },
            None => Ok(false),
        }
    }

    /// Fetches the entry matching `id`; fails with `NotFound` if none
    /// exists.
    pub fn get_by_id(&self, id: &ObjectId) -> (r: Result<Project, ApiError>)
        requires
            self.inv(),
        ensures
            has_id(self@, id@) ==> (r matches Ok(a) && a@ == entry_of(self@, id@)),
            !has_id(self@, id@) ==> (r matches Err(e) && e is NotFound),
    {
        match self.find_index(id) {
            Some(i) => Ok(self.docs[i].clone()),
            None => Err(ApiError::NotFound),
        }
    }

    /// Returns every stored entry, in insertion order.
    pub fn get_all(&self) -> (r: Result<Vec<Project>, ApiError>)
        requires
            self.inv(),
        ensures
            r matches Ok(v) && v@.map_values(|p: Project| p@) == self@,
    {
        let mut out: Vec<Project> = Vec::new();
        let mut i: usize = 0;
        while i < self.docs.len()
            invariant
                0 <= i <= self.docs.len(),
                self@.len() == self.docs.len(),
                out@.map_values(|p: Project| p@) =~= self@.subrange(0, i as int),
            decreases self.docs.len() - i,
        {
            let c = self.docs[i].clone();
            proof {
                assert(c@ == self@[i as int]);
            }
            out.push(c);
            proof {
                assert(self@.subrange(0, i + 1) =~= self@.subrange(0, i as int).push(
                    self@[i as int],
                ));
                assert(out@.map_values(|p: Project| p@) =~= self@.subrange(0, i + 1));
            }
            i += 1;
        }
        proof {
            assert(out@.map_values(|p: Project| p@) =~= self@);
        }
        Ok(out)
    }
}

} // verus!
