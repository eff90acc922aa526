//! Provinces: reference data synced from the external geographic API.  The
//! shell fetches the remote snapshot; the usecase applies it with a
//! create-if-absent loop keyed by the natural province code, which makes
//! the sync idempotent.

use vstd::prelude::*;

use crate::errors::{failed, ErrorResponse, INTERNAL_SERVER_ERROR};
use crate::store::RepoError;

verus! {

/// A province row, keyed by its natural code.
pub struct Province {
    pub code: String,
    pub name: String,
    pub created_at: i64,
    pub updated_at: i64,
    pub deleted_at: Option<i64>,
}

/// A province as the provinces table itself exposes it: the natural code
/// stands in the table's identifier column.
pub struct ProvinceFromTable {
    pub id: String,
    pub name: String,
    pub created_at: i64,
    pub updated_at: i64,
    pub deleted_at: Option<i64>,
}

/// One record of the external API's province list.
pub struct ProvinceResponse {
    pub code: String,
    pub name: String,
}

/// The body of the external API's province list.
pub struct ProvinceDataResponse {
    pub data: Vec<ProvinceResponse>,
}

/// Whether some row of `s` carries the natural code `code`.
pub open spec fn has_province_code(s: Seq<Province>, code: Seq<char>) -> bool {
    exists|i: int| 0 <= i < s.len() && s[i].code@ == code
}

/// The provinces table, keyed by natural code.
pub struct ProvinceRepositoryImpl {
    pub rows: Vec<Province>,
}

impl ProvinceRepositoryImpl {
    /// No two rows share a code.
    pub open spec fn wf(self) -> bool {
        forall|i: int, j: int|
            0 <= i < self.rows@.len() && 0 <= j < self.rows@.len() && i != j ==> (
            #[trigger] self.rows@[i].code@) != (#[trigger] self.rows@[j].code@)
    }

    /// An empty table.
    pub fn new() -> (r: Self)
        ensures
            r.rows@ =~= Seq::<Province>::empty(),
            r.wf(),
    {
        ProvinceRepositoryImpl { rows: Vec::new() }
    }

    /// Whether any row carries `code`, as the repository's get by natural
    /// code reports it.
    pub fn contains_code(&self, code: &String) -> (r: bool)
        ensures
            r == has_province_code(self.rows@, code@),
    {
        let n = self.rows.len();
        let mut i: usize = 0;
        while i < n
            invariant
                0 <= i <= n,
                n == self.rows@.len(),
                forall|k: int| 0 <= k < i ==> (#[trigger] self.rows@[k].code@) != code@,
            decreases n - i,
        {
            if self.rows[i].code == *code {
                return true;
            }
            i = i + 1;
        }
        false
    }

    /// One statement of the create path: appends the row, or reports the
    /// code uniqueness constraint it would violate.
    pub fn create(&mut self, row: Province) -> (r: Result<(), RepoError>)
        requires
            old(self).wf(),
        ensures
            final(self).wf(),
            r is Ok <==> !has_province_code(old(self).rows@, row.code@),
            r is Ok ==> final(self).rows@ == old(self).rows@.push(row),
            r is Err ==> *final(self) == *old(self),
    {
        if self.contains_code(&row.code) {
            return Err(RepoError::UniqueViolation);
        }
        self.rows.push(row);
        Ok(())
    }

    /// Every stored province, in stored order, through the table's own
    /// identifier column.
    pub fn list(&self) -> (r: Vec<ProvinceFromTable>)
        ensures
            r@.len() == self.rows@.len(),
            forall|i: int|
                0 <= i < self.rows@.len() ==> {
                    let row = self.rows@[i];
                    &&& (#[trigger] r@[i]).id == row.code
                    &&& r@[i].name == row.name
                    &&& r@[i].created_at == row.created_at
                    &&& r@[i].updated_at == row.updated_at
                    &&& r@[i].deleted_at == row.deleted_at
                },
    {
        let n = self.rows.len();
        let mut out: Vec<ProvinceFromTable> = Vec::new();
        let mut i: usize = 0;
        while i < n
            invariant
                0 <= i <= n,
                n == self.rows@.len(),
                out@.len() == i,
                forall|k: int|
                    0 <= k < i ==> {
                        let row = self.rows@[k];
                        &&& (#[trigger] out@[k]).id == row.code
                        &&& out@[k].name == row.name
                        &&& out@[k].created_at == row.created_at
                        &&& out@[k].updated_at == row.updated_at
                        &&& out@[k].deleted_at == row.deleted_at
                    },
            decreases n - i,
        {
            let row = &self.rows[i];
            out.push(
                ProvinceFromTable {
                    id: row.code.clone(),
                    name: row.name.clone(),
                    created_at: row.created_at,
                    updated_at: row.updated_at,
                    deleted_at: row.deleted_at,
                },
            );
            i = i + 1;
        }
        out
    }
}

/// The row one remote record creates.
pub open spec fn province_of(rec: ProvinceResponse, now: i64) -> Province {
    Province {
        code: rec.code,
        name: rec.name,
        created_at: now,
        updated_at: now,
        deleted_at: None,
    }
}

/// One step of the sync loop: insert the record if its code is absent,
/// skip it otherwise.
pub open spec fn sync_step(rows: Seq<Province>, rec: ProvinceResponse, now: i64) -> Seq<Province> {
    if has_province_code(rows, rec.code@) {
        rows
    } else {
        rows.push(province_of(rec, now))
    }
}

/// The whole sync: the snapshot applied record by record.
pub open spec fn sync_provinces(rows: Seq<Province>, snap: Seq<ProvinceResponse>, now: i64) -> Seq<
    Province,
>
    decreases snap.len(),
{
    if snap.len() == 0 {
        rows
    } else {
        sync_provinces(sync_step(rows, snap[0], now), snap.drop_first(), now)
    }
}

/// Syncing never removes a code.
pub proof fn lemma_sync_provinces_keeps(
    rows: Seq<Province>,
    snap: Seq<ProvinceResponse>,
    now: i64,
    code: Seq<char>,
)
    requires
        has_province_code(rows, code),
    ensures
        has_province_code(sync_provinces(rows, snap, now), code),
    decreases snap.len(),
{
    if snap.len() > 0 {
        let stepped = sync_step(rows, snap[0], now);
        if !has_province_code(rows, snap[0].code@) {
            let i = choose|i: int| 0 <= i < rows.len() && rows[i].code@ == code;
            assert(stepped[i].code@ == code);
        }
        lemma_sync_provinces_keeps(stepped, snap.drop_first(), now, code);
    }
}

/// After a sync, every code of the snapshot is present.
pub proof fn lemma_sync_provinces_adds_all(
    rows: Seq<Province>,
    snap: Seq<ProvinceResponse>,
    now: i64,
)
    ensures
        forall|i: int|
            0 <= i < snap.len() ==> has_province_code(
                sync_provinces(rows, snap, now),
                #[trigger] snap[i].code@,
            ),
    decreases snap.len(),
{
    if snap.len() > 0 {
        let stepped = sync_step(rows, snap[0], now);
        assert(has_province_code(stepped, snap[0].code@)) by {
            if !has_province_code(rows, snap[0].code@) {
                assert(stepped.last().code@ == snap[0].code@);
            }
        }
        lemma_sync_provinces_keeps(stepped, snap.drop_first(), now, snap[0].code@);
        lemma_sync_provinces_adds_all(stepped, snap.drop_first(), now);
        assert forall|i: int|
            0 <= i < snap.len() implies has_province_code(
            sync_provinces(rows, snap, now),
            #[trigger] snap[i].code@,
        ) by {
            if i > 0 {
                assert(snap.drop_first()[i - 1] == snap[i]);
            }
        }
    }
}

/// Syncing a snapshot whose codes are all present changes nothing.
pub proof fn lemma_sync_provinces_noop(rows: Seq<Province>, snap: Seq<ProvinceResponse>, now: i64)
    requires
        forall|i: int|
            0 <= i < snap.len() ==> has_province_code(rows, #[trigger] snap[i].code@),
    ensures
        sync_provinces(rows, snap, now) == rows,
    decreases snap.len(),
{
    if snap.len() > 0 {
        assert(has_province_code(rows, snap[0].code@));
        assert(sync_step(rows, snap[0], now) == rows);
        assert forall|i: int|
            0 <= i < snap.drop_first().len() implies has_province_code(
            rows,
            #[trigger] snap.drop_first()[i].code@,
        ) by {
            assert(snap.drop_first()[i] == snap[i + 1]);
        }
        lemma_sync_provinces_noop(rows, snap.drop_first(), now);
    }
}

/// The sync is idempotent: running it twice with the same snapshot gives
/// the same row set as running it once, whatever the two request times.
pub proof fn lemma_sync_provinces_idempotent(
    rows: Seq<Province>,
    snap: Seq<ProvinceResponse>,
    now1: i64,
    now2: i64,
)
    ensures
        sync_provinces(sync_provinces(rows, snap, now1), snap, now2) == sync_provinces(
            rows,
            snap,
            now1,
        ),
{
    lemma_sync_provinces_adds_all(rows, snap, now1);
    lemma_sync_provinces_noop(sync_provinces(rows, snap, now1), snap, now2);
}

/// The usecase over the provinces table.
pub struct ProvinceUseCaseImpl;

impl ProvinceUseCaseImpl {
    /// Every stored province, as the list endpoint returns them.
    pub fn list(repository: &ProvinceRepositoryImpl) -> (r: Result<
        Vec<ProvinceFromTable>,
        ErrorResponse,
    >)
        ensures
            r is Ok,
            r matches Ok(rows) ==> rows@.len() == repository.rows@.len() && forall|i: int|
                0 <= i < repository.rows@.len() ==> (#[trigger] rows@[i]).id
                    == repository.rows@[i].code && rows@[i].name == repository.rows@[i].name,
    {
        Ok(repository.list())
    }

    /// Applies one remote snapshot: each record whose code is absent is
    /// inserted, the rest are skipped.
    pub fn create(
        repository: &mut ProvinceRepositoryImpl,
        snapshot: &Vec<ProvinceResponse>,
        now: i64,
    ) -> (r: Result<(), ErrorResponse>)
        requires
            old(repository).wf(),
        ensures
            final(repository).wf(),
            r is Ok,
            final(repository).rows@ == sync_provinces(old(repository).rows@, snapshot@, now),
    {
        let n = snapshot.len();
        let mut i: usize = 0;
        proof {
            assert(snapshot@.skip(0) =~= snapshot@);
        }
        while i < n
            invariant
                0 <= i <= n,
                n == snapshot@.len(),
                repository.wf(),
                sync_provinces(old(repository).rows@, snapshot@, now) == sync_provinces(
                    repository.rows@,
                    snapshot@.skip(i as int),
                    now,
                ),
            decreases n - i,
        {
            proof {
                assert(snapshot@.skip(i as int)[0] == snapshot@[i as int]);
                assert(snapshot@.skip(i as int).drop_first() =~= snapshot@.skip(i as int + 1));
            }
            let rec = &snapshot[i];
            if !repository.contains_code(&rec.code) {
                let row = Province {
                    code: rec.code.clone(),
                    name: rec.name.clone(),
                    created_at: now,
                    updated_at: now,
                    deleted_at: None,
                };
                match repository.create(row) {
                    Ok(()) => {},
                    Err(_) => {
                        return Err(failed(INTERNAL_SERVER_ERROR, "Province could not be stored"));
                    },
                }
            }
            i = i + 1;
        }
        proof {
            assert(snapshot@.skip(n as int) =~= Seq::<ProvinceResponse>::empty());
        }
        Ok(())
    }
}

} // verus!
