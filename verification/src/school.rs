//! Schools: the entity, its DTOs, the repository view of its table and the
//! usecase rules.  A school's logo is uploaded to object storage by the
//! shell; the usecase receives the resulting path and records it.

use vstd::prelude::*;

use crate::errors::{failed, ErrorResponse, BAD_REQUEST, NOT_FOUND};
use crate::pagination::check_pagination;
use crate::providers::{fresh_id, now_millis};
use crate::store::{
    find_live, has_id, id_index, lemma_filter_push, lemma_find_live, window, Entity, Table,
};
use crate::text::{is_blank, is_blank_str};

verus! {

/// A school row: name, address, logo path and optional references to a
/// subscription, a province and a city.
pub struct School {
    pub id: u128,
    pub name: String,
    pub address: String,
    pub logo_path: String,
    pub subscription_id: Option<u128>,
    pub province_id: Option<String>,
    pub city_id: Option<String>,
    pub created_at: i64,
    pub updated_at: i64,
    pub deleted_at: Option<i64>,
}

/// Body of `POST /schools`, once the shell has decoded the multipart form
/// and uploaded the logo.
pub struct CreateSchoolDto {
    pub name: String,
    pub address: Option<String>,
    pub subscription_id: Option<u128>,
    pub province_id: Option<String>,
    pub city_id: Option<String>,
}

/// Body of `PUT /schools/{id}`; an unset field keeps the stored value.
pub struct UpdateSchoolDto {
    pub name: Option<String>,
    pub address: Option<String>,
    pub logo_path: Option<String>,
    pub subscription_id: Option<u128>,
    pub province_id: Option<String>,
    pub city_id: Option<String>,
}

impl Entity for School {
    open spec fn sid(self) -> u128 {
        self.id
    }

    open spec fn sdeleted(self) -> Option<i64> {
        self.deleted_at
    }

    open spec fn clashes(self, other: Self) -> bool {
        false
    }

    fn id(&self) -> u128 {
        self.id
    }

    fn is_live(&self) -> bool {
        self.deleted_at.is_none()
    }

    fn clashes_with(&self, other: &Self) -> bool {
        false
    }

    fn clone_row(&self) -> Self {
        School {
            id: self.id,
            name: self.name.clone(),
            address: self.address.clone(),
            logo_path: self.logo_path.clone(),
            subscription_id: self.subscription_id,
            province_id: match &self.province_id {
                Some(p) => Some(p.clone()),
                None => None,
            },
            city_id: match &self.city_id {
                Some(c) => Some(c.clone()),
                None => None,
            },
            created_at: self.created_at,
            updated_at: self.updated_at,
            deleted_at: self.deleted_at,
        }
    }
}

/// The schools table.
pub type SchoolRepositoryImpl = Table<School>;

/// The live schools attached to one subscription, in stored order.
pub open spec fn schools_of_subscription(s: Seq<School>, subscription_id: u128) -> Seq<School> {
    s.filter(
        |r: School| r.sdeleted() is None && r.subscription_id == Some(subscription_id),
    )
}

impl Table<School> {
    /// The live rows referencing `subscription_id`, as the repository's
    /// query by foreign key returns them.
    pub fn get_by_subscription_id(&self, subscription_id: u128) -> (r: Vec<School>)
        ensures
            r@ == schools_of_subscription(self.rows@, subscription_id),
    {
        let n = self.rows.len();
        let mut out: Vec<School> = Vec::new();
        let mut i: usize = 0;
        proof {
            assert(self.rows@.subrange(0, 0) =~= Seq::<School>::empty());
            reveal_with_fuel(Seq::filter, 1);
        }
        while i < n
            invariant
                0 <= i <= n,
                n == self.rows@.len(),
                out@ == schools_of_subscription(self.rows@.subrange(0, i as int), subscription_id),
            decreases n - i,
        {
            proof {
                let prefix = self.rows@.subrange(0, i as int);
                assert(self.rows@.subrange(0, i as int + 1) =~= prefix.push(
                    self.rows@[i as int],
                ));
                lemma_filter_push(
                    prefix,
                    self.rows@[i as int],
                    |r: School| r.sdeleted() is None && r.subscription_id == Some(
                        subscription_id,
                    ),
                );
            }
            let candidate = &self.rows[i];
            let attached = match candidate.subscription_id {
                Some(sid) => sid == subscription_id,
                None => false,
            };
            if candidate.is_live() && attached {
                out.push(candidate.clone_row());
            }
            i = i + 1;
        }
        proof {
            assert(self.rows@.subrange(0, n as int) =~= self.rows@);
        }
        out
    }
}

/// The usecase over the schools table.
pub struct SchoolUseCaseImpl;

impl SchoolUseCaseImpl {
    /// One page of schools with the total count.
    pub fn list(repository: &SchoolRepositoryImpl, page: u32, page_size: u32) -> (r: Result<
        (Vec<School>, u64),
        ErrorResponse,
    >)
        requires
            repository.rows@.len() <= u64::MAX,
        ensures
            r is Ok <==> page >= 1 && page_size >= 1,
            r matches Err(e) ==> e.err_type == BAD_REQUEST,
            r matches Ok(page_rows) ==> page_rows.0@ == window(
                repository.live_rows(),
                (page - 1) * page_size,
                page_size as int,
            ) && page_rows.1 == repository.live_rows().len(),
    {
        let offset = match check_pagination(page, page_size) {
            Ok(offset) => offset,
            Err(e) => {
                return Err(e);
            },
        };
        Ok(repository.list(offset, page_size as u64))
    }

    /// Creates a school.  The shell uploads the logo first and hands in the
    /// stored path; a blank name is rejected before any write.
    pub fn create(
        repository: &mut SchoolRepositoryImpl,
        dto: CreateSchoolDto,
        logo_path: String,
        id: u128,
        now: i64,
    ) -> (r: Result<(), ErrorResponse>)
        requires
            old(repository).wf(),
        ensures
            final(repository).wf(),
            r is Ok <==> !is_blank(dto.name@) && !has_id(old(repository).rows@, id),
            r is Err ==> *final(repository) == *old(repository),
            r matches Err(e) ==> e.err_type == BAD_REQUEST,
            is_blank(dto.name@) ==> (r matches Err(e) && e.message matches Some(m) && m@
                == "Invalid school name"@),
            r is Ok ==> {
                let u = final(repository).rows@.last();
                &&& final(repository).rows@ == old(repository).rows@.push(u)
                &&& u.id == id
                &&& u.name == dto.name
                &&& u.address@ == (match dto.address {
                    Some(a) => a@,
                    None => Seq::<char>::empty(),
                })
                &&& u.logo_path == logo_path
                &&& u.subscription_id == dto.subscription_id
                &&& u.province_id == dto.province_id
                &&& u.city_id == dto.city_id
                &&& u.created_at == now
                &&& u.updated_at == now
                &&& u.deleted_at is None
            },
    {
        if is_blank_str(dto.name.as_str()) {
            return Err(failed(BAD_REQUEST, "Invalid school name"));
        }
        let address = match dto.address {
            Some(a) => a,
            None => String::new(),
        };
        let school = School {
            id,
            name: dto.name,
            address,
            logo_path,
            subscription_id: dto.subscription_id,
            province_id: dto.province_id,
            city_id: dto.city_id,
            created_at: now,
            updated_at: now,
            deleted_at: None,
        };
        match repository.insert(school) {
            Ok(()) => Ok(()),
            Err(_) => Err(failed(BAD_REQUEST, "School ID already used")),
        }
    }

    /// Updates the live school carrying `id`.  Unset fields keep the stored
    /// values; a given name must not be blank; `updated_at` is refreshed
    /// and the deletion marker reset.
    pub fn update(
        repository: &mut SchoolRepositoryImpl,
        id: u128,
        dto: &UpdateSchoolDto,
        now: i64,
    ) -> (r: Result<(), ErrorResponse>)
        requires
            old(repository).wf(),
        ensures
            final(repository).wf(),
            r is Ok <==> find_live(old(repository).rows@, id) is Some && !(
            dto.name matches Some(n) && is_blank(n@)),
            r is Err ==> *final(repository) == *old(repository),
            find_live(old(repository).rows@, id) is None ==> (r matches Err(e) && e.err_type
                == NOT_FOUND),
            r is Err && find_live(old(repository).rows@, id) is Some ==> r->Err_0.err_type
                == BAD_REQUEST,
            r is Ok ==> {
                let cur = find_live(old(repository).rows@, id)->Some_0;
                let idx = id_index(old(repository).rows@, id);
                let u = final(repository).rows@[idx];
                &&& final(repository).rows@ == old(repository).rows@.update(idx, u)
                &&& u.id == cur.id
                &&& u.name == (match dto.name {
                    Some(n) => n,
                    None => cur.name,
                })
                &&& u.address == (match dto.address {
                    Some(a) => a,
                    None => cur.address,
                })
                &&& u.logo_path == (match dto.logo_path {
                    Some(p) => p,
                    None => cur.logo_path,
                })
                &&& u.subscription_id == (match dto.subscription_id {
                    Some(sid) => Some(sid),
                    None => cur.subscription_id,
                })
                &&& u.province_id == (match dto.province_id {
                    Some(p) => Some(p),
                    None => cur.province_id,
                })
                &&& u.city_id == (match dto.city_id {
                    Some(c) => Some(c),
                    None => cur.city_id,
                })
                &&& u.created_at == cur.created_at
                &&& u.updated_at == now
                &&& u.deleted_at is None
            },
    {
        proof {
            lemma_find_live(repository.rows@, id);
        }
        let cur = match repository.get_by_id(id) {
            Ok(cur) => cur,
            Err(_) => {
                return Err(failed(NOT_FOUND, "School not found"));
            },
        };
        if let Some(n) = &dto.name {
            if is_blank_str(n.as_str()) {
                return Err(failed(BAD_REQUEST, "Invalid school name"));
            }
        }
        let updated = School {
            id: cur.id,
            name: match &dto.name {
                Some(n) => n.clone(),
                None => cur.name,
            },
            address: match &dto.address {
                Some(a) => a.clone(),
                None => cur.address,
            },
            logo_path: match &dto.logo_path {
                Some(p) => p.clone(),
                None => cur.logo_path,
            },
            subscription_id: match dto.subscription_id {
                Some(sid) => Some(sid),
                None => cur.subscription_id,
            },
            province_id: match &dto.province_id {
                Some(p) => Some(p.clone()),
                None => cur.province_id,
            },
            city_id: match &dto.city_id {
                Some(c) => Some(c.clone()),
                None => cur.city_id,
            },
            created_at: cur.created_at,
            updated_at: now,
            deleted_at: None,
        };
        match repository.replace(updated) {
            Ok(()) => Ok(()),
            Err(_) => Err(failed(BAD_REQUEST, "School could not be updated")),
        }
    }

    /// Creates a school under a fresh server-generated identifier, stamped
    /// with the current time; the shell uploads the logo first and hands in
    /// the stored path.
    pub fn create_now(
        repository: &mut SchoolRepositoryImpl,
        dto: CreateSchoolDto,
        logo_path: String,
    ) -> (r: Result<(), ErrorResponse>)
        requires
            old(repository).wf(),
        ensures
            final(repository).wf(),
            r is Err ==> *final(repository) == *old(repository),
            r matches Err(e) ==> e.err_type == BAD_REQUEST,
            is_blank(dto.name@) ==> r is Err,
            r is Ok ==> {
                let u = final(repository).rows@.last();
                &&& final(repository).rows@ == old(repository).rows@.push(u)
                &&& u.name == dto.name
                &&& u.logo_path == logo_path
                &&& u.subscription_id == dto.subscription_id
                &&& u.deleted_at is None
            },
    {
        let id = fresh_id();
        let now = now_millis();
        Self::create(repository, dto, logo_path, id, now)
    }

    /// Updates the live school carrying `id`, stamped with the current
    /// time.
    pub fn update_now(repository: &mut SchoolRepositoryImpl, id: u128, dto: &UpdateSchoolDto) -> (r:
        Result<(), ErrorResponse>)
        requires
            old(repository).wf(),
        ensures
            final(repository).wf(),
            r is Err ==> *final(repository) == *old(repository),
            find_live(old(repository).rows@, id) is None ==> (r matches Err(e) && e.err_type
                == NOT_FOUND),
            r is Ok ==> {
                let cur = find_live(old(repository).rows@, id)->Some_0;
                let idx = id_index(old(repository).rows@, id);
                let u = final(repository).rows@[idx];
                &&& final(repository).rows@ == old(repository).rows@.update(idx, u)
                &&& u.id == cur.id
                &&& u.name == (match dto.name {
                    Some(n) => n,
                    None => cur.name,
                })
                &&& u.created_at == cur.created_at
                &&& u.deleted_at is None
            },
    {
        let now = now_millis();
        Self::update(repository, id, dto, now)
    }

    /// Deletes the school carrying `id`: one unconditional delete
    /// statement, so a missing row is not an error and changes nothing.
    pub fn delete(repository: &mut SchoolRepositoryImpl, id: u128) -> (r: Result<(), ErrorResponse>)
        requires
            old(repository).wf(),
        ensures
            final(repository).wf(),
            r is Ok,
            !has_id(old(repository).rows@, id) ==> *final(repository) == *old(repository),
            has_id(old(repository).rows@, id) ==> final(repository).rows@ == old(
                repository,
            ).rows@.remove(id_index(old(repository).rows@, id)),
    {
        repository.delete(id);
        Ok(())
    }
}

} // verus!
