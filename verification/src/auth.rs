//! Registration: the one usecase that composes several repositories.  The
//! checks run first and the two writes — a school shell and the user — are
//! applied only when both must succeed, so a failing registration leaves
//! both tables untouched.

use vstd::prelude::*;

use crate::errors::{failed, ErrorResponse, BAD_REQUEST, INTERNAL_SERVER_ERROR};
use crate::providers::{fresh_id, hash_password, now_millis};
use crate::role::{find_live_by_name, RoleRepositoryImpl};
use crate::school::{School, SchoolRepositoryImpl};
use crate::store::{has_id, Entity};
use crate::text::{is_blank, is_blank_str};
use crate::user::{
    lemma_user_clash, user_contact_taken, user_email_used, user_phone_used, User,
    UserRepositoryImpl, UserStatus,
};

verus! {

/// Body of `POST /auth/register`.
pub struct RegisterDto {
    pub name: String,
    pub email: String,
    pub phone_number: String,
    pub password: String,
    pub school_name: String,
}

/// Whether a required field of the registration body is blank once trimmed.
pub open spec fn register_blank(dto: RegisterDto) -> bool {
    is_blank(dto.name@) || is_blank(dto.email@) || is_blank(dto.phone_number@) || is_blank(
        dto.password@,
    ) || is_blank(dto.school_name@)
}

/// The registration usecase.
pub struct AuthUseCaseImpl;

impl AuthUseCaseImpl {
    /// The deterministic tail of registration, once the password hash is in
    /// hand: validation, uniqueness checks, default-role lookup, then the
    /// school shell and the user — both writes or neither.
    pub fn register_with_hash(
        users: &mut UserRepositoryImpl,
        roles: &RoleRepositoryImpl,
        schools: &mut SchoolRepositoryImpl,
        dto: &RegisterDto,
        hashed: String,
        school_id: u128,
        user_id: u128,
        now: i64,
    ) -> (r: Result<User, ErrorResponse>)
        requires
            old(users).wf(),
            old(schools).wf(),
        ensures
            final(users).wf(),
            final(schools).wf(),
            r is Err ==> *final(users) == *old(users) && *final(schools) == *old(schools),
            r matches Err(e) ==> e.err_type == BAD_REQUEST,
            register_blank(*dto) ==> (r matches Err(e) && e.message matches Some(m) && m@
                == "Missing required fields"@),
            !register_blank(*dto) && user_email_used(old(users).rows@, dto.email@) ==> (
            r matches Err(e) && e.message matches Some(m) && m@ == "Email is already used"@),
            !register_blank(*dto) && !user_email_used(old(users).rows@, dto.email@)
                && user_phone_used(old(users).rows@, dto.phone_number@) ==> (r matches Err(e)
                && e.message matches Some(m) && m@ == "Phone is already used"@),
            r is Ok <==> !register_blank(*dto) && !user_email_used(old(users).rows@, dto.email@)
                && !user_phone_used(old(users).rows@, dto.phone_number@) && find_live_by_name(
                roles.rows@,
                "user"@,
            ) is Some && !has_id(old(schools).rows@, school_id) && !has_id(
                old(users).rows@,
                user_id,
            ) && !user_contact_taken(old(users).rows@, dto.email@, dto.phone_number@),
            r is Ok ==> {
                let school = final(schools).rows@.last();
                let u = r->Ok_0;
                &&& final(schools).rows@ == old(schools).rows@.push(school)
                &&& school.id == school_id
                &&& school.name == dto.school_name
                &&& school.address@ == Seq::<char>::empty()
                &&& school.logo_path@ == Seq::<char>::empty()
                &&& school.subscription_id is None
                &&& school.province_id is None
                &&& school.city_id is None
                &&& school.created_at == now
                &&& school.updated_at == now
                &&& school.deleted_at is None
                &&& final(users).rows@ == old(users).rows@.push(u)
                &&& u.id == user_id
                &&& u.name == dto.name
                &&& u.email == dto.email
                &&& u.phone_number == dto.phone_number
                &&& u.password == hashed
                &&& u.title@ == Seq::<char>::empty()
                &&& u.status == UserStatus::Pending
                &&& u.role_id == find_live_by_name(roles.rows@, "user"@)->Some_0.id
                &&& u.school_id == school_id
                &&& u.created_at == now
                &&& u.updated_at == now
                &&& u.deleted_at is None
            },
    {
        if is_blank_str(dto.name.as_str()) || is_blank_str(dto.email.as_str()) || is_blank_str(
            dto.phone_number.as_str(),
        ) || is_blank_str(dto.password.as_str()) || is_blank_str(dto.school_name.as_str()) {
            return Err(failed(BAD_REQUEST, "Missing required fields"));
        }
        if users.email_used(&dto.email) {
            return Err(failed(BAD_REQUEST, "Email is already used"));
        }
        if users.phone_used(&dto.phone_number) {
            return Err(failed(BAD_REQUEST, "Phone is already used"));
        }
        let default_role = "user".to_owned();
        let user_role = match roles.get_by_name(&default_role) {
            Ok(role) => role,
            Err(_) => {
                return Err(failed(BAD_REQUEST, "Default role not found"));
            },
        };
        let school = School {
            id: school_id,
            name: dto.school_name.clone(),
            address: String::new(),
            logo_path: String::new(),
            subscription_id: None,
            province_id: None,
            city_id: None,
            created_at: now,
            updated_at: now,
            deleted_at: None,
        };
        let user = User {
            id: user_id,
            name: dto.name.clone(),
            email: dto.email.clone(),
            password: hashed,
            phone_number: dto.phone_number.clone(),
            title: String::new(),
            status: UserStatus::Pending,
            role_id: user_role.id,
            school_id,
            created_at: now,
            updated_at: now,
            deleted_at: None,
        };
        proof {
            lemma_user_clash(users.rows@, user);
        }
        // both writes must be possible before either is applied
        if !schools.can_accept(&school) {
            return Err(failed(BAD_REQUEST, "School could not be created"));
        }
        if !users.can_accept(&user) {
            return Err(failed(BAD_REQUEST, "User could not be created"));
        }
        let persisted = user.clone_row();
        match schools.insert(school) {
            Ok(()) => {},
            Err(_) => {
                return Err(failed(BAD_REQUEST, "School could not be created"));
            },
        }
        match users.insert(user) {
            Ok(()) => {},
            Err(_) => {
                return Err(failed(BAD_REQUEST, "User could not be created"));
            },
        }
        Ok(persisted)
    }

    /// Registers a user: validates, checks uniqueness, hashes the password
    /// with the outside hasher and applies the two writes atomically.  A
    /// hashing failure is a server error and leaves both tables untouched.
    pub fn register(
        users: &mut UserRepositoryImpl,
        roles: &RoleRepositoryImpl,
        schools: &mut SchoolRepositoryImpl,
        dto: &RegisterDto,
    ) -> (r: Result<User, ErrorResponse>)
        requires
            old(users).wf(),
            old(schools).wf(),
        ensures
            final(users).wf(),
            final(schools).wf(),
            r is Err ==> *final(users) == *old(users) && *final(schools) == *old(schools),
            register_blank(*dto) ==> (r matches Err(e) && e.err_type == BAD_REQUEST),
            !register_blank(*dto) && user_email_used(old(users).rows@, dto.email@) ==> (
            r matches Err(e) && e.message matches Some(m) && e.err_type == BAD_REQUEST && m@
                == "Email is already used"@),
            !register_blank(*dto) && !user_email_used(old(users).rows@, dto.email@)
                && user_phone_used(old(users).rows@, dto.phone_number@) ==> (r matches Err(e)
                && e.message matches Some(m) && e.err_type == BAD_REQUEST && m@
                == "Phone is already used"@),
            r is Ok ==> !register_blank(*dto) && !user_email_used(old(users).rows@, dto.email@)
                && !user_phone_used(old(users).rows@, dto.phone_number@) && find_live_by_name(
                roles.rows@,
                "user"@,
            ) is Some,
            r matches Err(e) ==> e.err_type == BAD_REQUEST || e.err_type == INTERNAL_SERVER_ERROR,
            r is Ok ==> {
                let school = final(schools).rows@.last();
                let u = r->Ok_0;
                &&& final(schools).rows@ == old(schools).rows@.push(school)
                &&& school.name == dto.school_name
                &&& school.deleted_at is None
                &&& final(users).rows@ == old(users).rows@.push(u)
                &&& u.name == dto.name
                &&& u.email == dto.email
                &&& u.phone_number == dto.phone_number
                &&& u.status == UserStatus::Pending
                &&& u.role_id == find_live_by_name(roles.rows@, "user"@)->Some_0.id
                &&& u.school_id == school.id
                &&& u.deleted_at is None
            },
    {
        if is_blank_str(dto.name.as_str()) || is_blank_str(dto.email.as_str()) || is_blank_str(
            dto.phone_number.as_str(),
        ) || is_blank_str(dto.password.as_str()) || is_blank_str(dto.school_name.as_str()) {
            return Err(failed(BAD_REQUEST, "Missing required fields"));
        }
        if users.email_used(&dto.email) {
            return Err(failed(BAD_REQUEST, "Email is already used"));
        }
        if users.phone_used(&dto.phone_number) {
            return Err(failed(BAD_REQUEST, "Phone is already used"));
        }
        let hashed = match hash_password(dto.password.as_str()) {
            Some(h) => h,
            None => {
                return Err(failed(INTERNAL_SERVER_ERROR, "Failed to hash password"));
            },
        };
        let school_id = fresh_id();
        let user_id = fresh_id();
        let now = now_millis();
        Self::register_with_hash(users, roles, schools, dto, hashed, school_id, user_id, now)
    }
}

} // verus!
