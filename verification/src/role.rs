//! Roles: the entity, its request DTOs, the repository view of its table
//! and the usecase rules (validation, partial update, idempotent delete).

use vstd::prelude::*;

use crate::errors::{failed, ErrorResponse, BAD_REQUEST, NOT_FOUND};
use crate::pagination::check_pagination;
use crate::providers::{fresh_id, now_millis};
use crate::store::{
    find_live, has_clash, has_clash_besides, has_id, id_index, lemma_find_live, window, Entity,
    RepoError, Table,
};
use crate::text::{is_blank, is_blank_str, trim_str, trimmed};

verus! {

/// A role row: unique name, timestamps, soft-delete marker.
pub struct Role {
    pub id: u128,
    pub name: String,
    pub created_at: i64,
    pub updated_at: i64,
    pub deleted_at: Option<i64>,
}

/// Body of `POST /roles`.
pub struct CreateRoleDto {
    pub name: String,
}

/// Body of `PUT /roles/{id}`; an unset field keeps the stored value.
pub struct UpdateRoleDto {
    pub name: Option<String>,
}

impl Entity for Role {
    open spec fn sid(self) -> u128 {
        self.id
    }

    open spec fn sdeleted(self) -> Option<i64> {
        self.deleted_at
    }

    open spec fn clashes(self, other: Self) -> bool {
        self.name@ == other.name@
    }

    fn id(&self) -> u128 {
        self.id
    }

    fn is_live(&self) -> bool {
        self.deleted_at.is_none()
    }

    fn clashes_with(&self, other: &Self) -> bool {
        self.name == other.name
    }

    fn clone_row(&self) -> Self {
        Role {
            id: self.id,
            name: self.name.clone(),
            created_at: self.created_at,
            updated_at: self.updated_at,
            deleted_at: self.deleted_at,
        }
    }
}

/// The roles table.
pub type RoleRepositoryImpl = Table<Role>;

/// The row a successful create stores: the given name verbatim, both
/// timestamps set to the request time, not deleted.
pub open spec fn role_row(name: String, id: u128, now: i64) -> Role {
    Role { id, name, created_at: now, updated_at: now, deleted_at: None }
}

/// Whether some row of `s` already uses `name` (the uniqueness constraint
/// on role names).
pub open spec fn role_name_taken(s: Seq<Role>, name: Seq<char>) -> bool {
    exists|i: int| 0 <= i < s.len() && s[i].name@ == name
}

/// Whether a row of `s` other than the one identified by `id` uses `name`.
pub open spec fn role_name_taken_besides(s: Seq<Role>, id: u128, name: Seq<char>) -> bool {
    exists|i: int| 0 <= i < s.len() && s[i].id != id && s[i].name@ == name
}

/// A clash on the roles table is exactly a reused name.
pub proof fn lemma_role_clash(s: Seq<Role>, row: Role)
    ensures
        has_clash(s, row) <==> role_name_taken(s, row.name@),
        has_clash_besides(s, row) <==> role_name_taken_besides(s, row.id, row.name@),
{
    if has_clash(s, row) {
        let i = choose|i: int| 0 <= i < s.len() && (s[i].clashes(row) || row.clashes(s[i]));
        assert(s[i].name@ == row.name@);
    }
    if role_name_taken(s, row.name@) {
        let i = choose|i: int| 0 <= i < s.len() && s[i].name@ == row.name@;
        assert(s[i].clashes(row));
    }
    if has_clash_besides(s, row) {
        let i = choose|i: int|
            0 <= i < s.len() && s[i].sid() != row.sid() && (s[i].clashes(row) || row.clashes(
                s[i],
            ));
        assert(s[i].name@ == row.name@ && s[i].id != row.id);
    }
    if role_name_taken_besides(s, row.id, row.name@) {
        let i = choose|i: int| 0 <= i < s.len() && s[i].id != row.id && s[i].name@ == row.name@;
        assert(s[i].clashes(row) && s[i].sid() != row.sid());
    }
}

/// The stored name after an update: the trimmed given name, or the stored
/// one when the field is unset.
pub open spec fn role_updated_name(cur: Role, dto: UpdateRoleDto) -> Seq<char> {
    match dto.name {
        Some(n) => trimmed(n@),
        None => cur.name@,
    }
}

/// Whether the update carries a name that is blank once trimmed — the one
/// update input the usecase rejects.
pub open spec fn role_update_blank(dto: UpdateRoleDto) -> bool {
    dto.name matches Some(n) && is_blank(n@)
}

/// The first live row of `s` carrying `name`, if any.
pub open spec fn find_live_by_name(s: Seq<Role>, name: Seq<char>) -> Option<Role>
    decreases s.len(),
{
    if s.len() == 0 {
        None
    } else if s[0].sdeleted() is None && s[0].name@ == name {
        Some(s[0])
    } else {
        find_live_by_name(s.drop_first(), name)
    }
}

pub proof fn lemma_find_live_by_name(s: Seq<Role>, name: Seq<char>)
    ensures
        (find_live_by_name(s, name) is Some) <==> exists|i: int|
            0 <= i < s.len() && s[i].sdeleted() is None && s[i].name@ == name,
        find_live_by_name(s, name) matches Some(r) ==> r.sdeleted() is None && r.name@ == name
            && s.contains(r),
    decreases s.len(),
{
    if s.len() > 0 {
        if s[0].sdeleted() is None && s[0].name@ == name {
        } else {
            lemma_find_live_by_name(s.drop_first(), name);
            if find_live_by_name(s, name) is Some {
                let j = choose|j: int|
                    0 <= j < s.drop_first().len() && s.drop_first()[j].sdeleted() is None
                        && s.drop_first()[j].name@ == name;
                assert(s[j + 1] == s.drop_first()[j]);
                assert(s.drop_first().contains(find_live_by_name(s, name)->Some_0));
                let k = choose|k: int|
                    0 <= k < s.drop_first().len() && s.drop_first()[k] == find_live_by_name(
                        s,
                        name,
                    )->Some_0;
                assert(s[k + 1] == s.drop_first()[k]);
            } else {
                assert forall|i: int|
                    0 <= i < s.len() && s[i].sdeleted() is None && s[i].name@
                        == name implies false by {
                    assert(i > 0);
                    assert(s.drop_first()[i - 1] == s[i]);
                }
            }
        }
    }
}

impl Table<Role> {
    /// The first live role carrying `name`, as the repository's query by
    /// name returns it; used to look up the default role at registration.
    pub fn get_by_name(&self, name: &String) -> (r: Result<Role, RepoError>)
        ensures
            r matches Ok(row) ==> find_live_by_name(self.rows@, name@) == Some(row),
            r is Err ==> r == Err::<Role, RepoError>(RepoError::RowNotFound) && find_live_by_name(
                self.rows@,
                name@,
            ) is None,
    {
        let n = self.rows.len();
        let mut i: usize = 0;
        proof {
            assert(self.rows@.skip(0) =~= self.rows@);
        }
        while i < n
            invariant
                0 <= i <= n,
                n == self.rows@.len(),
                find_live_by_name(self.rows@, name@) == find_live_by_name(
                    self.rows@.skip(i as int),
                    name@,
                ),
            decreases n - i,
        {
            proof {
                assert(self.rows@.skip(i as int)[0] == self.rows@[i as int]);
                assert(self.rows@.skip(i as int).drop_first() =~= self.rows@.skip(i as int + 1));
            }
            let candidate = &self.rows[i];
            if candidate.is_live() && candidate.name == *name {
                return Ok(candidate.clone_row());
            }
            i = i + 1;
        }
        proof {
            assert(self.rows@.skip(n as int) =~= Seq::<Role>::empty());
        }
        Err(RepoError::RowNotFound)
    }
}

/// The usecase over the roles table.
pub struct RoleUseCaseImpl;

impl RoleUseCaseImpl {
    /// One page of roles with the total count; `page` and `page_size` must
    /// both be at least one, and the offset is `(page - 1) * page_size`.
    pub fn list(repository: &RoleRepositoryImpl, page: u32, page_size: u32) -> (r: Result<
        (Vec<Role>, u64),
        ErrorResponse,
    >)
        requires
            repository.rows@.len() <= u64::MAX,
        ensures
            r is Ok <==> page >= 1 && page_size >= 1,
            r matches Err(e) ==> e.err_type == BAD_REQUEST,
            r matches Ok(page_rows) ==> page_rows.0@ == window(
                repository.live_rows(),
                (page - 1) * page_size,
                page_size as int,
            ) && page_rows.1 == repository.live_rows().len(),
    {
        let offset = match check_pagination(page, page_size) {
            Ok(offset) => offset,
            Err(e) => {
                return Err(e);
            },
        };
        Ok(repository.list(offset, page_size as u64))
    }

    /// Creates a role with a server-generated identifier and the request
    /// time.  A blank name is rejected before any write; a reused name is
    /// rejected by the table's uniqueness constraint.
    pub fn create(
        repository: &mut RoleRepositoryImpl,
        dto: &CreateRoleDto,
        id: u128,
        now: i64,
    ) -> (r: Result<(), ErrorResponse>)
        requires
            old(repository).wf(),
        ensures
            final(repository).wf(),
            r is Ok <==> !is_blank(dto.name@) && !has_id(old(repository).rows@, id)
                && !role_name_taken(old(repository).rows@, dto.name@),
            r is Ok ==> final(repository).rows@ == old(repository).rows@.push(
                role_row(dto.name, id, now),
            ),
            r is Err ==> *final(repository) == *old(repository),
            r matches Err(e) ==> e.err_type == BAD_REQUEST,
            is_blank(dto.name@) ==> (r matches Err(e) && e.message matches Some(m) && m@
                == "Invalid role name"@),
    {
        if is_blank_str(dto.name.as_str()) {
            return Err(failed(BAD_REQUEST, "Invalid role name"));
        }
        let role = Role {
            id,
            name: dto.name.clone(),
            created_at: now,
            updated_at: now,
            deleted_at: None,
        };
        proof {
            lemma_role_clash(repository.rows@, role);
        }
        match repository.insert(role) {
            Ok(()) => Ok(()),
            Err(_) => Err(failed(BAD_REQUEST, "Role name already used")),
        }
    }

    /// Updates the live role carrying `id`.  An unset name keeps the stored
    /// one; a given name is trimmed and must not be blank; `updated_at` is
    /// refreshed and the deletion marker reset.
    pub fn update(
        repository: &mut RoleRepositoryImpl,
        id: u128,
        dto: &UpdateRoleDto,
        now: i64,
    ) -> (r: Result<(), ErrorResponse>)
        requires
            old(repository).wf(),
        ensures
            final(repository).wf(),
            r is Ok <==> find_live(old(repository).rows@, id) is Some && !role_update_blank(*dto)
                && !role_name_taken_besides(
                old(repository).rows@,
                id,
                role_updated_name(find_live(old(repository).rows@, id)->Some_0, *dto),
            ),
            r is Err ==> *final(repository) == *old(repository),
            find_live(old(repository).rows@, id) is None ==> (r matches Err(e) && e.err_type
                == NOT_FOUND),
            r is Err && find_live(old(repository).rows@, id) is Some ==> r->Err_0.err_type
                == BAD_REQUEST,
            r is Ok ==> {
                let cur = find_live(old(repository).rows@, id)->Some_0;
                let idx = id_index(old(repository).rows@, id);
                let u = final(repository).rows@[idx];
                &&& final(repository).rows@ == old(repository).rows@.update(idx, u)
                &&& u.id == cur.id
                &&& u.name@ == role_updated_name(cur, *dto)
                &&& (dto.name is None ==> u.name == cur.name)
                &&& u.created_at == cur.created_at
                &&& u.updated_at == now
                &&& u.deleted_at is None
            },
    {
        proof {
            lemma_find_live(repository.rows@, id);
        }
        let cur = match repository.get_by_id(id) {
            Ok(cur) => cur,
            Err(_) => {
                return Err(failed(NOT_FOUND, "Role not found"));
            },
        };
        let new_name = match &dto.name {
            Some(n) => trim_str(n.as_str()),
            None => cur.name.clone(),
        };
        if dto.name.is_some() && new_name.as_str().unicode_len() == 0 {
            return Err(failed(BAD_REQUEST, "Invalid role name"));
        }
        let updated = Role {
            id: cur.id,
            name: new_name,
            created_at: cur.created_at,
            updated_at: now,
            deleted_at: None,
        };
        proof {
            lemma_role_clash(repository.rows@, updated);
            if dto.name is None && role_name_taken_besides(
                repository.rows@,
                id,
                role_updated_name(cur, *dto),
            ) {
                // impossible: the stored name cannot also belong to another
                // row, by the table's uniqueness constraint
                let s = repository.rows@;
                let j = choose|j: int| 0 <= j < s.len() && s[j].id != id && s[j].name@ == cur.name@;
                let k = choose|k: int| 0 <= k < s.len() && s[k] == cur;
                assert(s.contains(cur));
                assert(s[k] == cur);
                assert(!s[j].clashes(s[k]));
            }
        }
        match repository.replace(updated) {
            Ok(()) => Ok(()),
            Err(_) => Err(failed(BAD_REQUEST, "Role name already used")),
        }
    }

    /// Creates a role under a fresh server-generated identifier, stamped
    /// with the current time.
    pub fn create_now(repository: &mut RoleRepositoryImpl, dto: &CreateRoleDto) -> (r: Result<
        (),
        ErrorResponse,
    >)
        requires
            old(repository).wf(),
        ensures
            final(repository).wf(),
            r is Err ==> *final(repository) == *old(repository),
            r matches Err(e) ==> e.err_type == BAD_REQUEST,
            is_blank(dto.name@) ==> r is Err,
            role_name_taken(old(repository).rows@, dto.name@) ==> r is Err,
            r is Ok ==> {
                let u = final(repository).rows@.last();
                &&& final(repository).rows@ == old(repository).rows@.push(u)
                &&& u.name == dto.name
                &&& u.deleted_at is None
            },
    {
        let id = fresh_id();
        let now = now_millis();
        Self::create(repository, dto, id, now)
    }

    /// Updates the live role carrying `id`, stamped with the current time.
    pub fn update_now(repository: &mut RoleRepositoryImpl, id: u128, dto: &UpdateRoleDto) -> (r:
        Result<(), ErrorResponse>)
        requires
            old(repository).wf(),
        ensures
            final(repository).wf(),
            r is Err ==> *final(repository) == *old(repository),
            find_live(old(repository).rows@, id) is None ==> (r matches Err(e) && e.err_type
                == NOT_FOUND),
            role_update_blank(*dto) ==> r is Err,
            r is Ok ==> {
                let cur = find_live(old(repository).rows@, id)->Some_0;
                let idx = id_index(old(repository).rows@, id);
                let u = final(repository).rows@[idx];
                &&& final(repository).rows@ == old(repository).rows@.update(idx, u)
                &&& u.id == cur.id
                &&& u.name@ == role_updated_name(cur, *dto)
                &&& u.created_at == cur.created_at
                &&& u.deleted_at is None
            },
    {
        let now = now_millis();
        Self::update(repository, id, dto, now)
    }

    /// Deletes the role carrying `id`: one unconditional delete statement,
    /// so a missing row is not an error and changes nothing.
    pub fn delete(repository: &mut RoleRepositoryImpl, id: u128) -> (r: Result<(), ErrorResponse>)
        requires
            old(repository).wf(),
        ensures
            final(repository).wf(),
            r is Ok,
            !has_id(old(repository).rows@, id) ==> *final(repository) == *old(repository),
            has_id(old(repository).rows@, id) ==> final(repository).rows@ == old(
                repository,
            ).rows@.remove(id_index(old(repository).rows@, id)),
    {
        repository.delete(id);
        Ok(())
    }
}

} // verus!
