//! Cities: reference data synced from the external geographic API, one
//! remote list per province.  The shell fetches each province's snapshot;
//! the usecase applies it with the same create-if-absent loop as the
//! provinces, keyed by the natural city code.

use vstd::prelude::*;

use crate::errors::{failed, ErrorResponse, INTERNAL_SERVER_ERROR};
use crate::store::RepoError;

verus! {

/// A city row, keyed by its natural code and referencing its province.
pub struct City {
    pub code: String,
    pub name: String,
    pub province_id: String,
    pub created_at: i64,
    pub updated_at: i64,
    pub deleted_at: Option<i64>,
}

/// One record of the external API's city list.
pub struct CityResponse {
    pub code: String,
    pub name: String,
}

/// The body of the external API's city list.
pub struct CityDataResponse {
    pub data: Vec<CityResponse>,
}

/// Whether some row of `s` carries the natural code `code`.
pub open spec fn has_city_code(s: Seq<City>, code: Seq<char>) -> bool {
    exists|i: int| 0 <= i < s.len() && s[i].code@ == code
}

/// The cities table, keyed by natural code.
pub struct CityRepositoryImpl {
    pub rows: Vec<City>,
}

impl CityRepositoryImpl {
    /// No two rows share a code.
    pub open spec fn wf(self) -> bool {
        forall|i: int, j: int|
            0 <= i < self.rows@.len() && 0 <= j < self.rows@.len() && i != j ==> (
            #[trigger] self.rows@[i].code@) != (#[trigger] self.rows@[j].code@)
    }

    /// An empty table.
    pub fn new() -> (r: Self)
        ensures
            r.rows@ =~= Seq::<City>::empty(),
            r.wf(),
    {
        CityRepositoryImpl { rows: Vec::new() }
    }

    /// Whether any row carries `code`, as the repository's get by natural
    /// code reports it.
    pub fn contains_code(&self, code: &String) -> (r: bool)
        ensures
            r == has_city_code(self.rows@, code@),
    {
        let n = self.rows.len();
        let mut i: usize = 0;
        while i < n
            invariant
                0 <= i <= n,
                n == self.rows@.len(),
                forall|k: int| 0 <= k < i ==> (#[trigger] self.rows@[k].code@) != code@,
            decreases n - i,
        {
            if self.rows[i].code == *code {
                return true;
            }
            i = i + 1;
        }
        false
    }

    /// One statement of the create path: appends the row, or reports the
    /// code uniqueness constraint it would violate.
    pub fn create(&mut self, row: City) -> (r: Result<(), RepoError>)
        requires
            old(self).wf(),
        ensures
            final(self).wf(),
            r is Ok <==> !has_city_code(old(self).rows@, row.code@),
            r is Ok ==> final(self).rows@ == old(self).rows@.push(row),
            r is Err ==> *final(self) == *old(self),
    {
        if self.contains_code(&row.code) {
            return Err(RepoError::UniqueViolation);
        }
        self.rows.push(row);
        Ok(())
    }

    /// Every stored city, in stored order.
    pub fn list(&self) -> (r: Vec<City>)
        ensures
            r@ == self.rows@,
    {
        let n = self.rows.len();
        let mut out: Vec<City> = Vec::new();
        let mut i: usize = 0;
        while i < n
            invariant
                0 <= i <= n,
                n == self.rows@.len(),
                out@ == self.rows@.subrange(0, i as int),
            decreases n - i,
        {
            proof {
                assert(self.rows@.subrange(0, i as int + 1) =~= self.rows@.subrange(
                    0,
                    i as int,
                ).push(self.rows@[i as int]));
            }
            let row = &self.rows[i];
            out.push(
                City {
                    code: row.code.clone(),
                    name: row.name.clone(),
                    province_id: row.province_id.clone(),
                    created_at: row.created_at,
                    updated_at: row.updated_at,
                    deleted_at: row.deleted_at,
                },
            );
            i = i + 1;
        }
        proof {
            assert(self.rows@.subrange(0, n as int) =~= self.rows@);
        }
        out
    }
}

/// The row one remote record creates under a province.
pub open spec fn city_of(rec: CityResponse, province_id: String, now: i64) -> City {
    City {
        code: rec.code,
        name: rec.name,
        province_id,
        created_at: now,
        updated_at: now,
        deleted_at: None,
    }
}

/// One step of the sync loop: insert the record if its code is absent,
/// skip it otherwise.
pub open spec fn city_sync_step(rows: Seq<City>, rec: CityResponse, province_id: String, now: i64) -> Seq<
    City,
> {
    if has_city_code(rows, rec.code@) {
        rows
    } else {
        rows.push(city_of(rec, province_id, now))
    }
}

/// One province's snapshot applied record by record.
pub open spec fn sync_cities(
    rows: Seq<City>,
    snap: Seq<CityResponse>,
    province_id: String,
    now: i64,
) -> Seq<City>
    decreases snap.len(),
{
    if snap.len() == 0 {
        rows
    } else {
        sync_cities(city_sync_step(rows, snap[0], province_id, now), snap.drop_first(), province_id, now)
    }
}

/// Syncing never removes a code.
pub proof fn lemma_sync_cities_keeps(
    rows: Seq<City>,
    snap: Seq<CityResponse>,
    province_id: String,
    now: i64,
    code: Seq<char>,
)
    requires
        has_city_code(rows, code),
    ensures
        has_city_code(sync_cities(rows, snap, province_id, now), code),
    decreases snap.len(),
{
    if snap.len() > 0 {
        let stepped = city_sync_step(rows, snap[0], province_id, now);
        if !has_city_code(rows, snap[0].code@) {
            let i = choose|i: int| 0 <= i < rows.len() && rows[i].code@ == code;
            assert(stepped[i].code@ == code);
        }
        lemma_sync_cities_keeps(stepped, snap.drop_first(), province_id, now, code);
    }
}

/// After a sync, every code of the snapshot is present.
pub proof fn lemma_sync_cities_adds_all(
    rows: Seq<City>,
    snap: Seq<CityResponse>,
    province_id: String,
    now: i64,
)
    ensures
        forall|i: int|
            0 <= i < snap.len() ==> has_city_code(
                sync_cities(rows, snap, province_id, now),
                #[trigger] snap[i].code@,
            ),
    decreases snap.len(),
{
    if snap.len() > 0 {
        let stepped = city_sync_step(rows, snap[0], province_id, now);
        assert(has_city_code(stepped, snap[0].code@)) by {
            if !has_city_code(rows, snap[0].code@) {
                assert(stepped.last().code@ == snap[0].code@);
            }
        }
        lemma_sync_cities_keeps(stepped, snap.drop_first(), province_id, now, snap[0].code@);
        lemma_sync_cities_adds_all(stepped, snap.drop_first(), province_id, now);
        assert forall|i: int|
            0 <= i < snap.len() implies has_city_code(
            sync_cities(rows, snap, province_id, now),
            #[trigger] snap[i].code@,
        ) by {
            if i > 0 {
                assert(snap.drop_first()[i - 1] == snap[i]);
            }
        }
    }
}

/// Syncing a snapshot whose codes are all present changes nothing.
pub proof fn lemma_sync_cities_noop(
    rows: Seq<City>,
    snap: Seq<CityResponse>,
    province_id: String,
    now: i64,
)
    requires
        forall|i: int| 0 <= i < snap.len() ==> has_city_code(rows, #[trigger] snap[i].code@),
    ensures
        sync_cities(rows, snap, province_id, now) == rows,
    decreases snap.len(),
{
    if snap.len() > 0 {
        assert(has_city_code(rows, snap[0].code@));
        assert(city_sync_step(rows, snap[0], province_id, now) == rows);
        assert forall|i: int|
            0 <= i < snap.drop_first().len() implies has_city_code(
            rows,
            #[trigger] snap.drop_first()[i].code@,
        ) by {
            assert(snap.drop_first()[i] == snap[i + 1]);
        }
        lemma_sync_cities_noop(rows, snap.drop_first(), province_id, now);
    }
}

/// The sync is idempotent: running one province's snapshot twice gives the
/// same row set as running it once, whatever the two request times.
pub proof fn lemma_sync_cities_idempotent(
    rows: Seq<City>,
    snap: Seq<CityResponse>,
    province_id: String,
    now1: i64,
    now2: i64,
)
    ensures
        sync_cities(sync_cities(rows, snap, province_id, now1), snap, province_id, now2)
            == sync_cities(rows, snap, province_id, now1),
{
    lemma_sync_cities_adds_all(rows, snap, province_id, now1);
    lemma_sync_cities_noop(sync_cities(rows, snap, province_id, now1), snap, province_id, now2);
}

/// The usecase over the cities table.
pub struct CityUseCaseImpl;

impl CityUseCaseImpl {
    /// Every stored city, as the list endpoint returns them.
    pub fn list(repository: &CityRepositoryImpl) -> (r: Result<Vec<City>, ErrorResponse>)
        ensures
            r is Ok,
            r matches Ok(rows) ==> rows@ == repository.rows@,
    {
        Ok(repository.list())
    }

    /// Applies one province's remote snapshot: each record whose code is
    /// absent is inserted under that province, the rest are skipped.
    pub fn sync_for_province(
        repository: &mut CityRepositoryImpl,
        province_id: &String,
        snapshot: &Vec<CityResponse>,
        now: i64,
    ) -> (r: Result<(), ErrorResponse>)
        requires
            old(repository).wf(),
        ensures
            final(repository).wf(),
            r is Ok,
            final(repository).rows@ == sync_cities(
                old(repository).rows@,
                snapshot@,
                *province_id,
                now,
            ),
    {
        let n = snapshot.len();
        let mut i: usize = 0;
        proof {
            assert(snapshot@.skip(0) =~= snapshot@);
        }
        while i < n
            invariant
                0 <= i <= n,
                n == snapshot@.len(),
                repository.wf(),
                sync_cities(old(repository).rows@, snapshot@, *province_id, now) == sync_cities(
                    repository.rows@,
                    snapshot@.skip(i as int),
                    *province_id,
                    now,
                ),
            decreases n - i,
        {
            proof {
                assert(snapshot@.skip(i as int)[0] == snapshot@[i as int]);
                assert(snapshot@.skip(i as int).drop_first() =~= snapshot@.skip(i as int + 1));
            }
            let rec = &snapshot[i];
            if !repository.contains_code(&rec.code) {
                let row = City {
                    code: rec.code.clone(),
                    name: rec.name.clone(),
                    province_id: province_id.clone(),
                    created_at: now,
                    updated_at: now,
                    deleted_at: None,
                };
                match repository.create(row) {
                    Ok(()) => {},
                    Err(_) => {
                        return Err(failed(INTERNAL_SERVER_ERROR, "City could not be stored"));
                    },
                }
            }
            i = i + 1;
        }
        proof {
            assert(snapshot@.skip(n as int) =~= Seq::<CityResponse>::empty());
        }
        Ok(())
    }
}

} // verus!
