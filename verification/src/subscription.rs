//! Subscriptions: the entity, its DTOs, the repository view of its table
//! and the usecase rules.  A subscription references a subscription type;
//! the usecase verifies that reference against the types table before any
//! write.

use vstd::prelude::*;

use crate::errors::{failed, ErrorResponse, BAD_REQUEST, NOT_FOUND};
use crate::pagination::check_pagination;
use crate::providers::{fresh_id, now_millis};
use crate::store::{
    find_live, has_id, id_index, lemma_filter_push, lemma_find_live, window, Entity, Table,
};
use crate::subscription_type::SubscriptionTypeRepositoryImpl;
use crate::text::{is_blank, is_blank_str, trim_str, trimmed};

verus! {

/// A subscription row: name, positive price in the smallest currency unit,
/// and a reference to its subscription type.
pub struct Subscription {
    pub id: u128,
    pub name: String,
    pub price: i32,
    pub subscription_type_id: u128,
    pub created_at: i64,
    pub updated_at: i64,
    pub deleted_at: Option<i64>,
}

/// Body of `POST /subscriptions`.
pub struct CreateSubscriptionDto {
    pub name: String,
    pub price: i32,
    pub subscription_type_id: u128,
}

/// Body of `PUT /subscriptions/{id}`; an unset field keeps the stored value.
pub struct UpdateSubscriptionDto {
    pub name: Option<String>,
    pub price: Option<i32>,
    pub subscription_type_id: Option<u128>,
}

impl Entity for Subscription {
    open spec fn sid(self) -> u128 {
        self.id
    }

    open spec fn sdeleted(self) -> Option<i64> {
        self.deleted_at
    }

    open spec fn clashes(self, other: Self) -> bool {
        false
    }

    fn id(&self) -> u128 {
        self.id
    }

    fn is_live(&self) -> bool {
        self.deleted_at.is_none()
    }

    fn clashes_with(&self, other: &Self) -> bool {
        false
    }

    fn clone_row(&self) -> Self {
        Subscription {
            id: self.id,
            name: self.name.clone(),
            price: self.price,
            subscription_type_id: self.subscription_type_id,
            created_at: self.created_at,
            updated_at: self.updated_at,
            deleted_at: self.deleted_at,
        }
    }
}

/// The subscriptions table.
pub type SubscriptionRepositoryImpl = Table<Subscription>;

/// The row a successful create stores.
pub open spec fn subscription_row(
    name: String,
    price: i32,
    subscription_type_id: u128,
    id: u128,
    now: i64,
) -> Subscription {
    Subscription {
        id,
        name,
        price,
        subscription_type_id,
        created_at: now,
        updated_at: now,
        deleted_at: None,
    }
}

/// The live subscriptions of one subscription type, in stored order.
pub open spec fn subscriptions_of(s: Seq<Subscription>, type_id: u128) -> Seq<Subscription> {
    s.filter(|r: Subscription| r.sdeleted() is None && r.subscription_type_id == type_id)
}

/// A row just created under a type is retrievable through that type's
/// derived list, and the lists of other types do not change.
pub proof fn lemma_created_subscription_listed(
    s: Seq<Subscription>,
    row: Subscription,
    type_id: u128,
)
    requires
        row.deleted_at is None,
    ensures
        subscriptions_of(s.push(row), row.subscription_type_id) == subscriptions_of(
            s,
            row.subscription_type_id,
        ).push(row),
        type_id != row.subscription_type_id ==> subscriptions_of(s.push(row), type_id)
            == subscriptions_of(s, type_id),
{
    lemma_filter_push(
        s,
        row,
        |r: Subscription| r.sdeleted() is None && r.subscription_type_id
            == row.subscription_type_id,
    );
    if type_id != row.subscription_type_id {
        lemma_filter_push(
            s,
            row,
            |r: Subscription| r.sdeleted() is None && r.subscription_type_id == type_id,
        );
    }
}

impl Table<Subscription> {
    /// The live rows referencing `type_id`, as the repository's query by
    /// foreign key returns them.
    pub fn get_by_subscription_type_id(&self, type_id: u128) -> (r: Vec<Subscription>)
        ensures
            r@ == subscriptions_of(self.rows@, type_id),
    {
        let n = self.rows.len();
        let mut out: Vec<Subscription> = Vec::new();
        let mut i: usize = 0;
        proof {
            assert(self.rows@.subrange(0, 0) =~= Seq::<Subscription>::empty());
            reveal_with_fuel(Seq::filter, 1);
        }
        while i < n
            invariant
                0 <= i <= n,
                n == self.rows@.len(),
                out@ == subscriptions_of(self.rows@.subrange(0, i as int), type_id),
            decreases n - i,
        {
            proof {
                let prefix = self.rows@.subrange(0, i as int);
                assert(self.rows@.subrange(0, i as int + 1) =~= prefix.push(
                    self.rows@[i as int],
                ));
                lemma_filter_push(
                    prefix,
                    self.rows@[i as int],
                    |r: Subscription| r.sdeleted() is None && r.subscription_type_id == type_id,
                );
            }
            let candidate = &self.rows[i];
            if candidate.is_live() && candidate.subscription_type_id == type_id {
                out.push(candidate.clone_row());
            }
            i = i + 1;
        }
        proof {
            assert(self.rows@.subrange(0, n as int) =~= self.rows@);
        }
        out
    }
}

/// The stored name after an update.
pub open spec fn subscription_updated_name(cur: Subscription, dto: UpdateSubscriptionDto) -> Seq<
    char,
> {
    match dto.name {
        Some(n) => trimmed(n@),
        None => cur.name@,
    }
}

/// Whether the update carries a name that is blank once trimmed.
pub open spec fn subscription_update_blank(dto: UpdateSubscriptionDto) -> bool {
    dto.name matches Some(n) && is_blank(n@)
}

/// The usecase over the subscriptions table.
pub struct SubscriptionUseCaseImpl;

impl SubscriptionUseCaseImpl {
    /// One page of subscriptions with the total count.
    pub fn list(repository: &SubscriptionRepositoryImpl, page: u32, page_size: u32) -> (r: Result<
        (Vec<Subscription>, u64),
        ErrorResponse,
    >)
        requires
            repository.rows@.len() <= u64::MAX,
        ensures
            r is Ok <==> page >= 1 && page_size >= 1,
            r matches Err(e) ==> e.err_type == BAD_REQUEST,
            r matches Ok(page_rows) ==> page_rows.0@ == window(
                repository.live_rows(),
                (page - 1) * page_size,
                page_size as int,
            ) && page_rows.1 == repository.live_rows().len(),
    {
        let offset = match check_pagination(page, page_size) {
            Ok(offset) => offset,
            Err(e) => {
                return Err(e);
            },
        };
        Ok(repository.list(offset, page_size as u64))
    }

    /// Creates a subscription.  Rejected before any write when the name is
    /// blank, the price is not positive, or the referenced subscription
    /// type does not exist as a live row.
    pub fn create(
        repository: &mut SubscriptionRepositoryImpl,
        types: &SubscriptionTypeRepositoryImpl,
        dto: &CreateSubscriptionDto,
        id: u128,
        now: i64,
    ) -> (r: Result<(), ErrorResponse>)
        requires
            old(repository).wf(),
        ensures
            final(repository).wf(),
            r is Ok <==> !is_blank(dto.name@) && dto.price >= 1 && find_live(
                types.rows@,
                dto.subscription_type_id,
            ) is Some && !has_id(old(repository).rows@, id),
            r is Ok ==> final(repository).rows@ == old(repository).rows@.push(
                subscription_row(dto.name, dto.price, dto.subscription_type_id, id, now),
            ),
            r is Err ==> *final(repository) == *old(repository),
            r matches Err(e) ==> e.err_type == BAD_REQUEST,
            is_blank(dto.name@) ==> (r matches Err(e) && e.message matches Some(m) && m@
                == "Invalid subscription name"@),
            !is_blank(dto.name@) && dto.price <= 0 ==> (r matches Err(e) && e.message matches Some(
                m,
            ) && m@ == "Invalid subscription price"@),
            !is_blank(dto.name@) && dto.price >= 1 && find_live(
                types.rows@,
                dto.subscription_type_id,
            ) is None ==> (r matches Err(e) && e.message matches Some(m) && m@
                == "Subscription type ID not found"@),
    {
        if is_blank_str(dto.name.as_str()) {
            return Err(failed(BAD_REQUEST, "Invalid subscription name"));
        }
        if dto.price <= 0 {
            return Err(failed(BAD_REQUEST, "Invalid subscription price"));
        }
        match types.get_by_id(dto.subscription_type_id) {
            Ok(_) => {},
            Err(_) => {
                return Err(failed(BAD_REQUEST, "Subscription type ID not found"));
            },
        }
        let subscription = Subscription {
            id,
            name: dto.name.clone(),
            price: dto.price,
            subscription_type_id: dto.subscription_type_id,
            created_at: now,
            updated_at: now,
            deleted_at: None,
        };
        match repository.insert(subscription) {
            Ok(()) => Ok(()),
            Err(_) => Err(failed(BAD_REQUEST, "Subscription ID already used")),
        }
    }

    /// Updates the live subscription carrying `id`.  Unset fields keep the
    /// stored values; a given name is trimmed and must not be blank; a
    /// given price must be positive; a given type reference must exist.
    pub fn update(
        repository: &mut SubscriptionRepositoryImpl,
        types: &SubscriptionTypeRepositoryImpl,
        id: u128,
        dto: &UpdateSubscriptionDto,
        now: i64,
    ) -> (r: Result<(), ErrorResponse>)
        requires
            old(repository).wf(),
        ensures
            final(repository).wf(),
            r is Ok <==> find_live(old(repository).rows@, id) is Some && !subscription_update_blank(
                *dto,
            ) && (dto.price matches Some(p) ==> p >= 1) && (dto.subscription_type_id matches Some(
                t,
            ) ==> find_live(types.rows@, t) is Some),
            r is Err ==> *final(repository) == *old(repository),
            find_live(old(repository).rows@, id) is None ==> (r matches Err(e) && e.err_type
                == NOT_FOUND),
            r is Err && find_live(old(repository).rows@, id) is Some ==> r->Err_0.err_type
                == BAD_REQUEST,
            r is Ok ==> {
                let cur = find_live(old(repository).rows@, id)->Some_0;
                let idx = id_index(old(repository).rows@, id);
                let u = final(repository).rows@[idx];
                &&& final(repository).rows@ == old(repository).rows@.update(idx, u)
                &&& u.id == cur.id
                &&& u.name@ == subscription_updated_name(cur, *dto)
                &&& (dto.name is None ==> u.name == cur.name)
                &&& u.price == dto.price.unwrap_or(cur.price)
                &&& u.subscription_type_id == dto.subscription_type_id.unwrap_or(
                    cur.subscription_type_id,
                )
                &&& u.created_at == cur.created_at
                &&& u.updated_at == now
                &&& u.deleted_at is None
            },
    {
        proof {
            lemma_find_live(repository.rows@, id);
        }
        let cur = match repository.get_by_id(id) {
            Ok(cur) => cur,
            Err(_) => {
                return Err(failed(NOT_FOUND, "Subscription not found"));
            },
        };
        let new_name = match &dto.name {
            Some(n) => trim_str(n.as_str()),
            None => cur.name.clone(),
        };
        if dto.name.is_some() && new_name.as_str().unicode_len() == 0 {
            return Err(failed(BAD_REQUEST, "Invalid subscription name"));
        }
        if let Some(p) = dto.price {
            if p <= 0 {
                return Err(failed(BAD_REQUEST, "Invalid subscription price"));
            }
        }
        if let Some(t) = dto.subscription_type_id {
            if let Err(_) = types.get_by_id(t) {
                return Err(failed(BAD_REQUEST, "Subscription type ID not found"));
            }
        }
        let updated = Subscription {
            id: cur.id,
            name: new_name,
            price: match dto.price {
                Some(p) => p,
                None => cur.price,
            },
            subscription_type_id: match dto.subscription_type_id {
                Some(t) => t,
                None => cur.subscription_type_id,
            },
            created_at: cur.created_at,
            updated_at: now,
            deleted_at: None,
        };
        match repository.replace(updated) {
            Ok(()) => Ok(()),
            Err(_) => Err(failed(BAD_REQUEST, "Subscription could not be updated")),
        }
    }

    /// Creates a subscription under a fresh server-generated identifier,
    /// stamped with the current time.
    pub fn create_now(
        repository: &mut SubscriptionRepositoryImpl,
        types: &SubscriptionTypeRepositoryImpl,
        dto: &CreateSubscriptionDto,
    ) -> (r: Result<(), ErrorResponse>)
        requires
            old(repository).wf(),
        ensures
            final(repository).wf(),
            r is Err ==> *final(repository) == *old(repository),
            r matches Err(e) ==> e.err_type == BAD_REQUEST,
            is_blank(dto.name@) ==> r is Err,
            dto.price <= 0 ==> r is Err,
            find_live(types.rows@, dto.subscription_type_id) is None ==> r is Err,
            r is Ok ==> {
                let u = final(repository).rows@.last();
                &&& final(repository).rows@ == old(repository).rows@.push(u)
                &&& u.name == dto.name
                &&& u.price == dto.price
                &&& u.subscription_type_id == dto.subscription_type_id
                &&& u.deleted_at is None
            },
    {
        let id = fresh_id();
        let now = now_millis();
        Self::create(repository, types, dto, id, now)
    }

    /// Updates the live subscription carrying `id`, stamped with the
    /// current time.
    pub fn update_now(
        repository: &mut SubscriptionRepositoryImpl,
        types: &SubscriptionTypeRepositoryImpl,
        id: u128,
        dto: &UpdateSubscriptionDto,
    ) -> (r: Result<(), ErrorResponse>)
        requires
            old(repository).wf(),
        ensures
            final(repository).wf(),
            r is Err ==> *final(repository) == *old(repository),
            find_live(old(repository).rows@, id) is None ==> (r matches Err(e) && e.err_type
                == NOT_FOUND),
            subscription_update_blank(*dto) ==> r is Err,
            r is Ok ==> {
                let cur = find_live(old(repository).rows@, id)->Some_0;
                let idx = id_index(old(repository).rows@, id);
                let u = final(repository).rows@[idx];
                &&& final(repository).rows@ == old(repository).rows@.update(idx, u)
                &&& u.id == cur.id
                &&& u.name@ == subscription_updated_name(cur, *dto)
                &&& u.price == dto.price.unwrap_or(cur.price)
                &&& u.subscription_type_id == dto.subscription_type_id.unwrap_or(
                    cur.subscription_type_id,
                )
                &&& u.created_at == cur.created_at
                &&& u.deleted_at is None
            },
    {
        let now = now_millis();
        Self::update(repository, types, id, dto, now)
    }

    /// Deletes the subscription carrying `id`: one unconditional delete
    /// statement, so a missing row is not an error and changes nothing.
    pub fn delete(repository: &mut SubscriptionRepositoryImpl, id: u128) -> (r: Result<
        (),
        ErrorResponse,
    >)
        requires
            old(repository).wf(),
        ensures
            final(repository).wf(),
            r is Ok,
            !has_id(old(repository).rows@, id) ==> *final(repository) == *old(repository),
            has_id(old(repository).rows@, id) ==> final(repository).rows@ == old(
                repository,
            ).rows@.remove(id_index(old(repository).rows@, id)),
    {
        repository.delete(id);
        Ok(())
    }
}

} // verus!
