//! Users: the entity, its DTOs, the repository view of its table and the
//! usecase rules.  A user references a role and a school; the plaintext
//! password is one-way hashed before storage and never stored as given.

use vstd::prelude::*;

use crate::errors::{failed, ErrorResponse, BAD_REQUEST, INTERNAL_SERVER_ERROR, NOT_FOUND};
use crate::pagination::check_pagination;
use crate::providers::{fresh_id, hash_password, now_millis};
use crate::role::RoleRepositoryImpl;
use crate::school::SchoolRepositoryImpl;
use crate::store::{
    find_live, has_clash, has_clash_besides, has_id, id_index, lemma_find_live, window, Entity,
    Table,
};
use crate::text::{is_blank, is_blank_str};

verus! {

/// Whether a user's address is verified or still pending.
#[derive(PartialEq, Eq, Structural, Clone, Copy, Debug)]
pub enum UserStatus {
    Verified,
    Pending,
}

/// A user row: unique email and phone number, a hashed password, and
/// references to a role and a school.
pub struct User {
    pub id: u128,
    pub name: String,
    pub email: String,
    pub password: String,
    pub phone_number: String,
    pub title: String,
    pub status: UserStatus,
    pub role_id: u128,
    pub school_id: u128,
    pub created_at: i64,
    pub updated_at: i64,
    pub deleted_at: Option<i64>,
}

/// Body of `POST /users`.
pub struct CreateUserDto {
    pub name: String,
    pub email: String,
    pub phone_number: String,
    pub password: String,
    pub title: Option<String>,
    pub role_id: Option<u128>,
    pub school_id: Option<u128>,
}

/// Body of `PUT /users/{id}`; an unset field keeps the stored value.
pub struct UpdateUserDto {
    pub name: Option<String>,
    pub email: Option<String>,
    pub phone_number: Option<String>,
    pub password: Option<String>,
    pub title: Option<String>,
    pub status: Option<UserStatus>,
    pub role_id: Option<u128>,
    pub school_id: Option<u128>,
}

impl Entity for User {
    open spec fn sid(self) -> u128 {
        self.id
    }

    open spec fn sdeleted(self) -> Option<i64> {
        self.deleted_at
    }

    open spec fn clashes(self, other: Self) -> bool {
        self.email@ == other.email@ || self.phone_number@ == other.phone_number@
    }

    fn id(&self) -> u128 {
        self.id
    }

    fn is_live(&self) -> bool {
        self.deleted_at.is_none()
    }

    fn clashes_with(&self, other: &Self) -> bool {
        self.email == other.email || self.phone_number == other.phone_number
    }

    fn clone_row(&self) -> Self {
        User {
            id: self.id,
            name: self.name.clone(),
            email: self.email.clone(),
            password: self.password.clone(),
            phone_number: self.phone_number.clone(),
            title: self.title.clone(),
            status: self.status,
            role_id: self.role_id,
            school_id: self.school_id,
            created_at: self.created_at,
            updated_at: self.updated_at,
            deleted_at: self.deleted_at,
        }
    }
}

/// The users table.
pub type UserRepositoryImpl = Table<User>;

/// Whether some row of `s` already uses `email` or `phone` (the uniqueness
/// constraints on the users table).
pub open spec fn user_contact_taken(s: Seq<User>, email: Seq<char>, phone: Seq<char>) -> bool {
    exists|i: int| 0 <= i < s.len() && (s[i].email@ == email || s[i].phone_number@ == phone)
}

/// Whether a row of `s` other than the one identified by `id` uses `email`
/// or `phone`.
pub open spec fn user_contact_taken_besides(
    s: Seq<User>,
    id: u128,
    email: Seq<char>,
    phone: Seq<char>,
) -> bool {
    exists|i: int|
        0 <= i < s.len() && s[i].id != id && (s[i].email@ == email || s[i].phone_number@ == phone)
}

/// A clash on the users table is exactly a reused email or phone number.
pub proof fn lemma_user_clash(s: Seq<User>, row: User)
    ensures
        has_clash(s, row) <==> user_contact_taken(s, row.email@, row.phone_number@),
        has_clash_besides(s, row) <==> user_contact_taken_besides(
            s,
            row.id,
            row.email@,
            row.phone_number@,
        ),
{
    if has_clash(s, row) {
        let i = choose|i: int| 0 <= i < s.len() && (s[i].clashes(row) || row.clashes(s[i]));
        assert(s[i].email@ == row.email@ || s[i].phone_number@ == row.phone_number@);
    }
    if user_contact_taken(s, row.email@, row.phone_number@) {
        let i = choose|i: int|
            0 <= i < s.len() && (s[i].email@ == row.email@ || s[i].phone_number@
                == row.phone_number@);
        assert(s[i].clashes(row));
    }
    if has_clash_besides(s, row) {
        let i = choose|i: int|
            0 <= i < s.len() && s[i].sid() != row.sid() && (s[i].clashes(row) || row.clashes(
                s[i],
            ));
        assert(s[i].id != row.id && (s[i].email@ == row.email@ || s[i].phone_number@
            == row.phone_number@));
    }
    if user_contact_taken_besides(s, row.id, row.email@, row.phone_number@) {
        let i = choose|i: int|
            0 <= i < s.len() && s[i].id != row.id && (s[i].email@ == row.email@
                || s[i].phone_number@ == row.phone_number@);
        assert(s[i].clashes(row) && s[i].sid() != row.sid());
    }
}

/// Whether some live row of `s` uses `email`.
pub open spec fn user_email_used(s: Seq<User>, email: Seq<char>) -> bool {
    exists|i: int| 0 <= i < s.len() && s[i].deleted_at is None && s[i].email@ == email
}

/// Whether some live row of `s` uses `phone`.
pub open spec fn user_phone_used(s: Seq<User>, phone: Seq<char>) -> bool {
    exists|i: int| 0 <= i < s.len() && s[i].deleted_at is None && s[i].phone_number@ == phone
}

impl Table<User> {
    /// Whether a live row uses `email`, as the repository's query by email
    /// reports it.
    pub fn email_used(&self, email: &String) -> (r: bool)
        ensures
            r == user_email_used(self.rows@, email@),
    {
        let n = self.rows.len();
        let mut i: usize = 0;
        while i < n
            invariant
                0 <= i <= n,
                n == self.rows@.len(),
                forall|k: int|
                    0 <= k < i ==> !((#[trigger] self.rows@[k]).deleted_at is None
                        && self.rows@[k].email@ == email@),
            decreases n - i,
        {
            let candidate = &self.rows[i];
            if candidate.is_live() && candidate.email == *email {
                return true;
            }
            i = i + 1;
        }
        false
    }

    /// Whether a live row uses `phone`, as the repository's query by phone
    /// number reports it.
    pub fn phone_used(&self, phone: &String) -> (r: bool)
        ensures
            r == user_phone_used(self.rows@, phone@),
    {
        let n = self.rows.len();
        let mut i: usize = 0;
        while i < n
            invariant
                0 <= i <= n,
                n == self.rows@.len(),
                forall|k: int|
                    0 <= k < i ==> !((#[trigger] self.rows@[k]).deleted_at is None
                        && self.rows@[k].phone_number@ == phone@),
            decreases n - i,
        {
            let candidate = &self.rows[i];
            if candidate.is_live() && candidate.phone_number == *phone {
                return true;
            }
            i = i + 1;
        }
        false
    }
}

/// Whether a required field of the create body is blank once trimmed.
pub open spec fn user_create_blank(dto: CreateUserDto) -> bool {
    is_blank(dto.name@) || is_blank(dto.email@) || is_blank(dto.phone_number@) || is_blank(
        dto.password@,
    )
}

/// Whether a required field given by the update body is blank once trimmed.
pub open spec fn user_update_blank(dto: UpdateUserDto) -> bool {
    ||| dto.name matches Some(n) && is_blank(n@)
    ||| dto.email matches Some(e) && is_blank(e@)
    ||| dto.phone_number matches Some(p) && is_blank(p@)
}

/// Whether the referenced role and school exist as live rows, where given.
pub open spec fn user_refs_exist(
    roles: Seq<crate::role::Role>,
    schools: Seq<crate::school::School>,
    role_id: Option<u128>,
    school_id: Option<u128>,
) -> bool {
    &&& (role_id matches Some(rid) ==> find_live(roles, rid) is Some)
    &&& (school_id matches Some(sid) ==> find_live(schools, sid) is Some)
}

/// The usecase over the users table.
pub struct UserUseCaseImpl;

impl UserUseCaseImpl {
    /// One page of users with the total count.
    pub fn list(repository: &UserRepositoryImpl, page: u32, page_size: u32) -> (r: Result<
        (Vec<User>, u64),
        ErrorResponse,
    >)
        requires
            repository.rows@.len() <= u64::MAX,
        ensures
            r is Ok <==> page >= 1 && page_size >= 1,
            r matches Err(e) ==> e.err_type == BAD_REQUEST,
            r matches Ok(page_rows) ==> page_rows.0@ == window(
                repository.live_rows(),
                (page - 1) * page_size,
                page_size as int,
            ) && page_rows.1 == repository.live_rows().len(),
    {
        let offset = match check_pagination(page, page_size) {
            Ok(offset) => offset,
            Err(e) => {
                return Err(e);
            },
        };
        Ok(repository.list(offset, page_size as u64))
    }

    /// The deterministic tail of the create path, once the password hash is
    /// in hand: validates the fields and the references, then inserts.
    pub fn create_with_hash(
        repository: &mut UserRepositoryImpl,
        roles: &RoleRepositoryImpl,
        schools: &SchoolRepositoryImpl,
        dto: &CreateUserDto,
        hashed: String,
        id: u128,
        now: i64,
    ) -> (r: Result<User, ErrorResponse>)
        requires
            old(repository).wf(),
        ensures
            final(repository).wf(),
            r is Ok <==> !user_create_blank(*dto) && user_refs_exist(
                roles.rows@,
                schools.rows@,
                dto.role_id,
                dto.school_id,
            ) && !has_id(old(repository).rows@, id) && !user_contact_taken(
                old(repository).rows@,
                dto.email@,
                dto.phone_number@,
            ),
            r is Err ==> *final(repository) == *old(repository),
            r matches Err(e) ==> e.err_type == BAD_REQUEST,
            user_create_blank(*dto) ==> (r matches Err(e) && e.message matches Some(m) && m@
                == "Missing required fields"@),
            r is Ok ==> {
                let u = r->Ok_0;
                &&& final(repository).rows@ == old(repository).rows@.push(u)
                &&& u.id == id
                &&& u.name == dto.name
                &&& u.email == dto.email
                &&& u.phone_number == dto.phone_number
                &&& u.password == hashed
                &&& u.title@ == (match dto.title {
                    Some(t) => t@,
                    None => Seq::<char>::empty(),
                })
                &&& u.status == UserStatus::Pending
                &&& u.role_id == dto.role_id.unwrap_or(0u128)
                &&& u.school_id == dto.school_id.unwrap_or(0u128)
                &&& u.created_at == now
                &&& u.updated_at == now
                &&& u.deleted_at is None
            },
    {
        if is_blank_str(dto.name.as_str()) || is_blank_str(dto.email.as_str()) || is_blank_str(
            dto.phone_number.as_str(),
        ) || is_blank_str(dto.password.as_str()) {
            return Err(failed(BAD_REQUEST, "Missing required fields"));
        }
        if let Some(rid) = dto.role_id {
            if let Err(_) = roles.get_by_id(rid) {
                return Err(failed(BAD_REQUEST, "Role ID not found"));
            }
        }
        if let Some(sid) = dto.school_id {
            if let Err(_) = schools.get_by_id(sid) {
                return Err(failed(BAD_REQUEST, "School ID not found"));
            }
        }
        let user = User {
            id,
            name: dto.name.clone(),
            email: dto.email.clone(),
            password: hashed,
            phone_number: dto.phone_number.clone(),
            title: match &dto.title {
                Some(t) => t.clone(),
                None => String::new(),
            },
            status: UserStatus::Pending,
            role_id: match dto.role_id {
                Some(rid) => rid,
                None => 0,
            },
            school_id: match dto.school_id {
                Some(sid) => sid,
                None => 0,
            },
            created_at: now,
            updated_at: now,
            deleted_at: None,
        };
        proof {
            lemma_user_clash(repository.rows@, user);
        }
        match repository.insert(user) {
            Ok(()) => {
                let stored = self_last(repository);
                Ok(stored)
            },
            Err(_) => Err(failed(BAD_REQUEST, "Email or phone already used")),
        }
    }

    /// Creates a user: hashes the password with the outside hasher, then
    /// runs the deterministic create path.  A hashing failure is a server
    /// error; every other outcome matches `create_with_hash`.
    pub fn create(
        repository: &mut UserRepositoryImpl,
        roles: &RoleRepositoryImpl,
        schools: &SchoolRepositoryImpl,
        dto: &CreateUserDto,
        id: u128,
        now: i64,
    ) -> (r: Result<User, ErrorResponse>)
        requires
            old(repository).wf(),
        ensures
            final(repository).wf(),
            r is Err ==> *final(repository) == *old(repository),
            user_create_blank(*dto) ==> (r matches Err(e) && e.err_type == BAD_REQUEST),
            r is Ok ==> !user_create_blank(*dto) && user_refs_exist(
                roles.rows@,
                schools.rows@,
                dto.role_id,
                dto.school_id,
            ) && !has_id(old(repository).rows@, id) && !user_contact_taken(
                old(repository).rows@,
                dto.email@,
                dto.phone_number@,
            ),
            r is Ok ==> {
                let u = r->Ok_0;
                &&& final(repository).rows@ == old(repository).rows@.push(u)
                &&& u.id == id
                &&& u.name == dto.name
                &&& u.email == dto.email
                &&& u.phone_number == dto.phone_number
                &&& u.status == UserStatus::Pending
                &&& u.role_id == dto.role_id.unwrap_or(0u128)
                &&& u.school_id == dto.school_id.unwrap_or(0u128)
                &&& u.created_at == now
                &&& u.updated_at == now
                &&& u.deleted_at is None
            },
            r matches Err(e) ==> e.err_type == BAD_REQUEST || e.err_type == INTERNAL_SERVER_ERROR,
            (r matches Err(e) && e.err_type == INTERNAL_SERVER_ERROR) ==> !user_create_blank(*dto),
            // success is owed whenever the input passes every check; only
            // a failure of the outside hasher stands between it and `Ok`
            !user_create_blank(*dto) && user_refs_exist(
                roles.rows@,
                schools.rows@,
                dto.role_id,
                dto.school_id,
            ) && !has_id(old(repository).rows@, id) && !user_contact_taken(
                old(repository).rows@,
                dto.email@,
                dto.phone_number@,
            ) ==> (r is Ok || (r matches Err(e) && e.err_type == INTERNAL_SERVER_ERROR)),
    {
        if is_blank_str(dto.name.as_str()) || is_blank_str(dto.email.as_str()) || is_blank_str(
            dto.phone_number.as_str(),
        ) || is_blank_str(dto.password.as_str()) {
            return Err(failed(BAD_REQUEST, "Missing required fields"));
        }
        let hashed = match hash_password(dto.password.as_str()) {
            Some(h) => h,
            None => {
                return Err(failed(INTERNAL_SERVER_ERROR, "Failed to hash password"));
            },
        };
        Self::create_with_hash(repository, roles, schools, dto, hashed, id, now)
    }

    /// The deterministic tail of the update path: `hashed` is the one-way
    /// hash of the given password, where one was given.
    pub fn update_with_hash(
        repository: &mut UserRepositoryImpl,
        roles: &RoleRepositoryImpl,
        schools: &SchoolRepositoryImpl,
        id: u128,
        dto: &UpdateUserDto,
        hashed: Option<String>,
        now: i64,
    ) -> (r: Result<User, ErrorResponse>)
        requires
            old(repository).wf(),
            dto.password is Some <==> hashed is Some,
        ensures
            final(repository).wf(),
            r is Ok <==> user_refs_exist(
                roles.rows@,
                schools.rows@,
                dto.role_id,
                dto.school_id,
            ) && find_live(old(repository).rows@, id) is Some && !user_update_blank(*dto)
                && !user_contact_taken_besides(
                old(repository).rows@,
                id,
                match dto.email {
                    Some(e) => e@,
                    None => find_live(old(repository).rows@, id)->Some_0.email@,
                },
                match dto.phone_number {
                    Some(p) => p@,
                    None => find_live(old(repository).rows@, id)->Some_0.phone_number@,
                },
            ),
            r is Err ==> *final(repository) == *old(repository),
            user_refs_exist(roles.rows@, schools.rows@, dto.role_id, dto.school_id) && find_live(
                old(repository).rows@,
                id,
            ) is None ==> (r matches Err(e) && e.err_type == NOT_FOUND),
            r is Ok ==> {
                let cur = find_live(old(repository).rows@, id)->Some_0;
                let idx = id_index(old(repository).rows@, id);
                let u = r->Ok_0;
                &&& final(repository).rows@ == old(repository).rows@.update(idx, u)
                &&& u.id == cur.id
                &&& u.name == (match dto.name {
                    Some(n) => n,
                    None => cur.name,
                })
                &&& u.email == (match dto.email {
                    Some(e) => e,
                    None => cur.email,
                })
                &&& u.phone_number == (match dto.phone_number {
                    Some(p) => p,
                    None => cur.phone_number,
                })
                &&& u.password == (match hashed {
                    Some(h) => h,
                    None => cur.password,
                })
                &&& u.title == (match dto.title {
                    Some(t) => t,
                    None => cur.title,
                })
                &&& u.status == (match dto.status {
                    Some(st) => st,
                    None => cur.status,
                })
                &&& u.role_id == dto.role_id.unwrap_or(cur.role_id)
                &&& u.school_id == dto.school_id.unwrap_or(cur.school_id)
                &&& u.created_at == cur.created_at
                &&& u.updated_at == now
                &&& u.deleted_at is None
            },
    {
        if let Some(rid) = dto.role_id {
            if let Err(_) = roles.get_by_id(rid) {
                return Err(failed(BAD_REQUEST, "Role ID not found"));
            }
        }
        if let Some(sid) = dto.school_id {
            if let Err(_) = schools.get_by_id(sid) {
                return Err(failed(BAD_REQUEST, "School ID not found"));
            }
        }
        proof {
            lemma_find_live(repository.rows@, id);
        }
        let cur = match repository.get_by_id(id) {
            Ok(cur) => cur,
            Err(_) => {
                return Err(failed(NOT_FOUND, "User not found"));
            },
        };
        if let Some(n) = &dto.name {
            if is_blank_str(n.as_str()) {
                return Err(failed(BAD_REQUEST, "Missing required fields"));
            }
        }
        if let Some(e) = &dto.email {
            if is_blank_str(e.as_str()) {
                return Err(failed(BAD_REQUEST, "Missing required fields"));
            }
        }
        if let Some(p) = &dto.phone_number {
            if is_blank_str(p.as_str()) {
                return Err(failed(BAD_REQUEST, "Missing required fields"));
            }
        }
        let updated = User {
            id: cur.id,
            name: match &dto.name {
                Some(n) => n.clone(),
                None => cur.name,
            },
            email: match &dto.email {
                Some(e) => e.clone(),
                None => cur.email,
            },
            password: match hashed {
                Some(h) => h,
                None => cur.password,
            },
            phone_number: match &dto.phone_number {
                Some(p) => p.clone(),
                None => cur.phone_number,
            },
            title: match &dto.title {
                Some(t) => t.clone(),
                None => cur.title,
            },
            status: match dto.status {
                Some(st) => st,
                None => cur.status,
            },
            role_id: match dto.role_id {
                Some(rid) => rid,
                None => cur.role_id,
            },
            school_id: match dto.school_id {
                Some(sid) => sid,
                None => cur.school_id,
            },
            created_at: cur.created_at,
            updated_at: now,
            deleted_at: None,
        };
        proof {
            lemma_user_clash(repository.rows@, updated);
        }
        let persisted = updated.clone_row();
        match repository.replace(updated) {
            Ok(()) => Ok(persisted),
            Err(_) => Err(failed(BAD_REQUEST, "Email or phone already used")),
        }
    }

    /// Updates a user: hashes the given password with the outside hasher
    /// where one was given, then runs the deterministic update path.  A
    /// hashing failure is a server error.
    pub fn update(
        repository: &mut UserRepositoryImpl,
        roles: &RoleRepositoryImpl,
        schools: &SchoolRepositoryImpl,
        id: u128,
        dto: &UpdateUserDto,
        now: i64,
    ) -> (r: Result<User, ErrorResponse>)
        requires
            old(repository).wf(),
        ensures
            final(repository).wf(),
            r is Err ==> *final(repository) == *old(repository),
            r is Ok ==> find_live(old(repository).rows@, id) is Some && !user_update_blank(*dto)
                && user_refs_exist(roles.rows@, schools.rows@, dto.role_id, dto.school_id),
            // success is owed whenever the input passes every check; only
            // a failure of the outside hasher stands between it and `Ok`
            user_refs_exist(roles.rows@, schools.rows@, dto.role_id, dto.school_id) && find_live(
                old(repository).rows@,
                id,
            ) is Some && !user_update_blank(*dto) && !user_contact_taken_besides(
                old(repository).rows@,
                id,
                match dto.email {
                    Some(e) => e@,
                    None => find_live(old(repository).rows@, id)->Some_0.email@,
                },
                match dto.phone_number {
                    Some(p) => p@,
                    None => find_live(old(repository).rows@, id)->Some_0.phone_number@,
                },
            ) ==> (r is Ok || (r matches Err(e) && e.err_type == INTERNAL_SERVER_ERROR)),
            r is Ok ==> {
                let cur = find_live(old(repository).rows@, id)->Some_0;
                let idx = id_index(old(repository).rows@, id);
                let u = r->Ok_0;
                &&& final(repository).rows@ == old(repository).rows@.update(idx, u)
                &&& u.id == cur.id
                &&& u.name == (match dto.name {
                    Some(n) => n,
                    None => cur.name,
                })
                &&& u.email == (match dto.email {
                    Some(e) => e,
                    None => cur.email,
                })
                &&& u.phone_number == (match dto.phone_number {
                    Some(p) => p,
                    None => cur.phone_number,
                })
                &&& (dto.password is None ==> u.password == cur.password)
                &&& u.title == (match dto.title {
                    Some(t) => t,
                    None => cur.title,
                })
                &&& u.status == (match dto.status {
                    Some(st) => st,
                    None => cur.status,
                })
                &&& u.role_id == dto.role_id.unwrap_or(cur.role_id)
                &&& u.school_id == dto.school_id.unwrap_or(cur.school_id)
                &&& u.created_at == cur.created_at
                &&& u.updated_at == now
                &&& u.deleted_at is None
            },
    {
        let hashed = match &dto.password {
            Some(p) => match hash_password(p.as_str()) {
                Some(h) => Some(h),
                None => {
                    return Err(failed(INTERNAL_SERVER_ERROR, "Failed to hash password"));
                },
            },
            None => None,
        };
        Self::update_with_hash(repository, roles, schools, id, dto, hashed, now)
    }

    /// Creates a user under a fresh server-generated identifier, stamped
    /// with the current time.
    pub fn create_now(
        repository: &mut UserRepositoryImpl,
        roles: &RoleRepositoryImpl,
        schools: &SchoolRepositoryImpl,
        dto: &CreateUserDto,
    ) -> (r: Result<User, ErrorResponse>)
        requires
            old(repository).wf(),
        ensures
            final(repository).wf(),
            r is Err ==> *final(repository) == *old(repository),
            user_create_blank(*dto) ==> (r matches Err(e) && e.err_type == BAD_REQUEST),
            r is Ok ==> {
                let u = r->Ok_0;
                &&& final(repository).rows@ == old(repository).rows@.push(u)
                &&& u.name == dto.name
                &&& u.email == dto.email
                &&& u.phone_number == dto.phone_number
                &&& u.status == UserStatus::Pending
                &&& u.deleted_at is None
            },
    {
        let id = fresh_id();
        let now = now_millis();
        Self::create(repository, roles, schools, dto, id, now)
    }

    /// Updates the live user carrying `id`, stamped with the current time.
    pub fn update_now(
        repository: &mut UserRepositoryImpl,
        roles: &RoleRepositoryImpl,
        schools: &SchoolRepositoryImpl,
        id: u128,
        dto: &UpdateUserDto,
    ) -> (r: Result<User, ErrorResponse>)
        requires
            old(repository).wf(),
        ensures
            final(repository).wf(),
            r is Err ==> *final(repository) == *old(repository),
            r is Ok ==> {
                let cur = find_live(old(repository).rows@, id)->Some_0;
                let idx = id_index(old(repository).rows@, id);
                let u = r->Ok_0;
                &&& find_live(old(repository).rows@, id) is Some
                &&& final(repository).rows@ == old(repository).rows@.update(idx, u)
                &&& u.id == cur.id
                &&& u.name == (match dto.name {
                    Some(n) => n,
                    None => cur.name,
                })
                &&& u.email == (match dto.email {
                    Some(e) => e,
                    None => cur.email,
                })
                &&& (dto.password is None ==> u.password == cur.password)
                &&& u.created_at == cur.created_at
                &&& u.deleted_at is None
            },
    {
        let now = now_millis();
        Self::update(repository, roles, schools, id, dto, now)
    }

    /// Deletes the user carrying `id`: one unconditional delete statement,
    /// so a missing row is not an error and changes nothing.
    pub fn delete(repository: &mut UserRepositoryImpl, id: u128) -> (r: Result<(), ErrorResponse>)
        requires
            old(repository).wf(),
        ensures
            final(repository).wf(),
            r is Ok,
            !has_id(old(repository).rows@, id) ==> *final(repository) == *old(repository),
            has_id(old(repository).rows@, id) ==> final(repository).rows@ == old(
                repository,
            ).rows@.remove(id_index(old(repository).rows@, id)),
    {
        repository.delete(id);
        Ok(())
    }
}

/// The row just appended to the table, as the persisted-row return of the
/// create statement.
fn self_last(repository: &UserRepositoryImpl) -> (r: User)
    requires
        repository.rows@.len() > 0,
    ensures
        r == repository.rows@.last(),
{
    let n = repository.rows.len();
    repository.rows[n - 1].clone_row()
}

} // verus!
