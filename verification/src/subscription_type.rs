//! Subscription types: the entity, its DTOs, the repository view of its
//! table and the usecase rules.  The list endpoint joins each type with the
//! live subscriptions that reference it.

use vstd::prelude::*;

use crate::errors::{failed, ErrorResponse, BAD_REQUEST, NOT_FOUND};
use crate::pagination::check_pagination;
use crate::providers::{fresh_id, now_millis};
use crate::store::{
    find_live, has_clash, has_clash_besides, has_id, id_index, lemma_find_live, window, Entity,
    Table,
};
use crate::subscription::{subscriptions_of, Subscription, SubscriptionRepositoryImpl};
use crate::text::{is_blank, is_blank_str, trim_str, trimmed};

verus! {

/// A subscription type row: unique name, timestamps, soft-delete marker.
pub struct SubscriptionType {
    pub id: u128,
    pub name: String,
    pub created_at: i64,
    pub updated_at: i64,
    pub deleted_at: Option<i64>,
}

/// One element of the list response: a subscription type together with the
/// live subscriptions referencing it.
pub struct SubscriptionTypeResponse {
    pub id: u128,
    pub name: String,
    pub created_at: i64,
    pub updated_at: i64,
    pub deleted_at: Option<i64>,
    pub subscriptions: Vec<Subscription>,
}

/// Body of `POST /subscription_types`.
pub struct CreateSubscriptionTypeDto {
    pub name: String,
}

/// Body of `PUT /subscription_types/{id}`; an unset field keeps the stored
/// value.
pub struct UpdateSubscriptionTypeDto {
    pub name: Option<String>,
}

impl Entity for SubscriptionType {
    open spec fn sid(self) -> u128 {
        self.id
    }

    open spec fn sdeleted(self) -> Option<i64> {
        self.deleted_at
    }

    open spec fn clashes(self, other: Self) -> bool {
        self.name@ == other.name@
    }

    fn id(&self) -> u128 {
        self.id
    }

    fn is_live(&self) -> bool {
        self.deleted_at.is_none()
    }

    fn clashes_with(&self, other: &Self) -> bool {
        self.name == other.name
    }

    fn clone_row(&self) -> Self {
        SubscriptionType {
            id: self.id,
            name: self.name.clone(),
            created_at: self.created_at,
            updated_at: self.updated_at,
            deleted_at: self.deleted_at,
        }
    }
}

/// The subscription types table.
pub type SubscriptionTypeRepositoryImpl = Table<SubscriptionType>;

/// The row a successful create stores.
pub open spec fn subscription_type_row(name: String, id: u128, now: i64) -> SubscriptionType {
    SubscriptionType { id, name, created_at: now, updated_at: now, deleted_at: None }
}

/// Whether some row of `s` already uses `name` (the uniqueness constraint
/// on subscription type names).
pub open spec fn subscription_type_name_taken(s: Seq<SubscriptionType>, name: Seq<char>) -> bool {
    exists|i: int| 0 <= i < s.len() && s[i].name@ == name
}

/// Whether a row of `s` other than the one identified by `id` uses `name`.
pub open spec fn subscription_type_name_taken_besides(
    s: Seq<SubscriptionType>,
    id: u128,
    name: Seq<char>,
) -> bool {
    exists|i: int| 0 <= i < s.len() && s[i].id != id && s[i].name@ == name
}

/// A clash on the subscription types table is exactly a reused name.
pub proof fn lemma_subscription_type_clash(s: Seq<SubscriptionType>, row: SubscriptionType)
    ensures
        has_clash(s, row) <==> subscription_type_name_taken(s, row.name@),
        has_clash_besides(s, row) <==> subscription_type_name_taken_besides(s, row.id, row.name@),
{
    if has_clash(s, row) {
        let i = choose|i: int| 0 <= i < s.len() && (s[i].clashes(row) || row.clashes(s[i]));
        assert(s[i].name@ == row.name@);
    }
    if subscription_type_name_taken(s, row.name@) {
        let i = choose|i: int| 0 <= i < s.len() && s[i].name@ == row.name@;
        assert(s[i].clashes(row));
    }
    if has_clash_besides(s, row) {
        let i = choose|i: int|
            0 <= i < s.len() && s[i].sid() != row.sid() && (s[i].clashes(row) || row.clashes(
                s[i],
            ));
        assert(s[i].name@ == row.name@ && s[i].id != row.id);
    }
    if subscription_type_name_taken_besides(s, row.id, row.name@) {
        let i = choose|i: int| 0 <= i < s.len() && s[i].id != row.id && s[i].name@ == row.name@;
        assert(s[i].clashes(row) && s[i].sid() != row.sid());
    }
}

/// The stored name after an update.
pub open spec fn subscription_type_updated_name(
    cur: SubscriptionType,
    dto: UpdateSubscriptionTypeDto,
) -> Seq<char> {
    match dto.name {
        Some(n) => trimmed(n@),
        None => cur.name@,
    }
}

/// Whether the update carries a name that is blank once trimmed.
pub open spec fn subscription_type_update_blank(dto: UpdateSubscriptionTypeDto) -> bool {
    dto.name matches Some(n) && is_blank(n@)
}

/// Whether a response element joins one type row with the live
/// subscriptions referencing it.
pub open spec fn joined_response(
    resp: SubscriptionTypeResponse,
    row: SubscriptionType,
    subscriptions: Seq<Subscription>,
) -> bool {
    &&& resp.id == row.id
    &&& resp.name == row.name
    &&& resp.created_at == row.created_at
    &&& resp.updated_at == row.updated_at
    &&& resp.deleted_at == row.deleted_at
    &&& resp.subscriptions@ == subscriptions_of(subscriptions, row.id)
}

/// The usecase over the subscription types table.
pub struct SubscriptionTypeUseCaseImpl;

impl SubscriptionTypeUseCaseImpl {
    /// One page of subscription types with the total count, each joined
    /// with the live subscriptions referencing it.
    pub fn list(
        repository: &SubscriptionTypeRepositoryImpl,
        subscriptions: &SubscriptionRepositoryImpl,
        page: u32,
        page_size: u32,
    ) -> (r: Result<(Vec<SubscriptionTypeResponse>, u64), ErrorResponse>)
        requires
            repository.rows@.len() <= u64::MAX,
        ensures
            r is Ok <==> page >= 1 && page_size >= 1,
            r matches Err(e) ==> e.err_type == BAD_REQUEST,
            r matches Ok(page_rows) ==> {
                let rows = window(
                    repository.live_rows(),
                    (page - 1) * page_size,
                    page_size as int,
                );
                &&& page_rows.1 == repository.live_rows().len()
                &&& page_rows.0@.len() == rows.len()
                &&& forall|i: int|
                    0 <= i < rows.len() ==> joined_response(
                        #[trigger] page_rows.0@[i],
                        rows[i],
                        subscriptions.rows@,
                    )
            },
    {
        let offset = match check_pagination(page, page_size) {
            Ok(offset) => offset,
            Err(e) => {
                return Err(e);
            },
        };
        let (rows, total) = repository.list(offset, page_size as u64);
        let n = rows.len();
        let mut out: Vec<SubscriptionTypeResponse> = Vec::new();
        let mut i: usize = 0;
        while i < n
            invariant
                0 <= i <= n,
                n == rows@.len(),
                out@.len() == i,
                forall|k: int|
                    0 <= k < i ==> joined_response(
                        #[trigger] out@[k],
                        rows@[k],
                        subscriptions.rows@,
                    ),
            decreases n - i,
        {
            let row = &rows[i];
            let joined = row.clone_row();
            out.push(
                SubscriptionTypeResponse {
                    id: joined.id,
                    name: joined.name,
                    created_at: joined.created_at,
                    updated_at: joined.updated_at,
                    deleted_at: joined.deleted_at,
                    subscriptions: subscriptions.get_by_subscription_type_id(row.id()),
                },
            );
            i = i + 1;
        }
        Ok((out, total))
    }

    /// Creates a subscription type.  A blank name is rejected before any
    /// write; a reused name is rejected by the uniqueness constraint.
    pub fn create(
        repository: &mut SubscriptionTypeRepositoryImpl,
        dto: &CreateSubscriptionTypeDto,
        id: u128,
        now: i64,
    ) -> (r: Result<(), ErrorResponse>)
        requires
            old(repository).wf(),
        ensures
            final(repository).wf(),
            r is Ok <==> !is_blank(dto.name@) && !has_id(old(repository).rows@, id)
                && !subscription_type_name_taken(old(repository).rows@, dto.name@),
            r is Ok ==> final(repository).rows@ == old(repository).rows@.push(
                subscription_type_row(dto.name, id, now),
            ),
            r is Err ==> *final(repository) == *old(repository),
            r matches Err(e) ==> e.err_type == BAD_REQUEST,
            is_blank(dto.name@) ==> (r matches Err(e) && e.message matches Some(m) && m@
                == "Invalid subscription_type name"@),
    {
        if is_blank_str(dto.name.as_str()) {
            return Err(failed(BAD_REQUEST, "Invalid subscription_type name"));
        }
        let row = SubscriptionType {
            id,
            name: dto.name.clone(),
            created_at: now,
            updated_at: now,
            deleted_at: None,
        };
        proof {
            lemma_subscription_type_clash(repository.rows@, row);
        }
        match repository.insert(row) {
            Ok(()) => Ok(()),
            Err(_) => Err(failed(BAD_REQUEST, "Subscription type name already used")),
        }
    }

    /// Updates the live subscription type carrying `id`.  An unset name
    /// keeps the stored one; a given name is trimmed and must not be blank;
    /// `updated_at` is refreshed and the deletion marker reset.
    pub fn update(
        repository: &mut SubscriptionTypeRepositoryImpl,
        id: u128,
        dto: &UpdateSubscriptionTypeDto,
        now: i64,
    ) -> (r: Result<(), ErrorResponse>)
        requires
            old(repository).wf(),
        ensures
            final(repository).wf(),
            r is Ok <==> find_live(old(repository).rows@, id) is Some
                && !subscription_type_update_blank(*dto) && !subscription_type_name_taken_besides(
                old(repository).rows@,
                id,
                subscription_type_updated_name(find_live(old(repository).rows@, id)->Some_0, *dto),
            ),
            r is Err ==> *final(repository) == *old(repository),
            find_live(old(repository).rows@, id) is None ==> (r matches Err(e) && e.err_type
                == NOT_FOUND),
            r is Err && find_live(old(repository).rows@, id) is Some ==> r->Err_0.err_type
                == BAD_REQUEST,
            r is Ok ==> {
                let cur = find_live(old(repository).rows@, id)->Some_0;
                let idx = id_index(old(repository).rows@, id);
                let u = final(repository).rows@[idx];
                &&& final(repository).rows@ == old(repository).rows@.update(idx, u)
                &&& u.id == cur.id
                &&& u.name@ == subscription_type_updated_name(cur, *dto)
                &&& (dto.name is None ==> u.name == cur.name)
                &&& u.created_at == cur.created_at
                &&& u.updated_at == now
                &&& u.deleted_at is None
            },
    {
        proof {
            lemma_find_live(repository.rows@, id);
        }
        let cur = match repository.get_by_id(id) {
            Ok(cur) => cur,
            Err(_) => {
                return Err(failed(NOT_FOUND, "Subscription type not found"));
            },
        };
        let new_name = match &dto.name {
            Some(n) => trim_str(n.as_str()),
            None => cur.name.clone(),
        };
        if dto.name.is_some() && new_name.as_str().unicode_len() == 0 {
            return Err(failed(BAD_REQUEST, "Invalid subscription_type name"));
        }
        let updated = SubscriptionType {
            id: cur.id,
            name: new_name,
            created_at: cur.created_at,
            updated_at: now,
            deleted_at: None,
        };
        proof {
            lemma_subscription_type_clash(repository.rows@, updated);
            if dto.name is None && subscription_type_name_taken_besides(
                repository.rows@,
                id,
                subscription_type_updated_name(cur, *dto),
            ) {
                // impossible: the stored name cannot also belong to another
                // row, by the table's uniqueness constraint
                let s = repository.rows@;
                let j = choose|j: int| 0 <= j < s.len() && s[j].id != id && s[j].name@ == cur.name@;
                let k = choose|k: int| 0 <= k < s.len() && s[k] == cur;
                assert(s.contains(cur));
                assert(s[k] == cur);
                assert(!s[j].clashes(s[k]));
            }
        }
        match repository.replace(updated) {
            Ok(()) => Ok(()),
            Err(_) => Err(failed(BAD_REQUEST, "Subscription type name already used")),
        }
    }

    /// Creates a subscription type under a fresh server-generated
    /// identifier, stamped with the current time.
    pub fn create_now(
        repository: &mut SubscriptionTypeRepositoryImpl,
        dto: &CreateSubscriptionTypeDto,
    ) -> (r: Result<(), ErrorResponse>)
        requires
            old(repository).wf(),
        ensures
            final(repository).wf(),
            r is Err ==> *final(repository) == *old(repository),
            r matches Err(e) ==> e.err_type == BAD_REQUEST,
            is_blank(dto.name@) ==> r is Err,
            subscription_type_name_taken(old(repository).rows@, dto.name@) ==> r is Err,
            r is Ok ==> {
                let u = final(repository).rows@.last();
                &&& final(repository).rows@ == old(repository).rows@.push(u)
                &&& u.name == dto.name
                &&& u.deleted_at is None
            },
    {
        let id = fresh_id();
        let now = now_millis();
        Self::create(repository, dto, id, now)
    }

    /// Updates the live subscription type carrying `id`, stamped with the
    /// current time.
    pub fn update_now(
        repository: &mut SubscriptionTypeRepositoryImpl,
        id: u128,
        dto: &UpdateSubscriptionTypeDto,
    ) -> (r: Result<(), ErrorResponse>)
        requires
            old(repository).wf(),
        ensures
            final(repository).wf(),
            r is Err ==> *final(repository) == *old(repository),
            find_live(old(repository).rows@, id) is None ==> (r matches Err(e) && e.err_type
                == NOT_FOUND),
            subscription_type_update_blank(*dto) ==> r is Err,
            r is Ok ==> {
                let cur = find_live(old(repository).rows@, id)->Some_0;
                let idx = id_index(old(repository).rows@, id);
                let u = final(repository).rows@[idx];
                &&& final(repository).rows@ == old(repository).rows@.update(idx, u)
                &&& u.id == cur.id
                &&& u.name@ == subscription_type_updated_name(cur, *dto)
                &&& u.created_at == cur.created_at
                &&& u.deleted_at is None
            },
    {
        let now = now_millis();
        Self::update(repository, id, dto, now)
    }

    /// Deletes the subscription type carrying `id`: one unconditional
    /// delete statement, so a missing row is not an error and changes
    /// nothing.
    pub fn delete(repository: &mut SubscriptionTypeRepositoryImpl, id: u128) -> (r: Result<
        (),
        ErrorResponse,
    >)
        requires
            old(repository).wf(),
        ensures
            final(repository).wf(),
            r is Ok,
            !has_id(old(repository).rows@, id) ==> *final(repository) == *old(repository),
            has_id(old(repository).rows@, id) ==> final(repository).rows@ == old(
                repository,
            ).rows@.remove(id_index(old(repository).rows@, id)),
    {
        repository.delete(id);
        Ok(())
    }
}

} // verus!
