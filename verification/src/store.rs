//! The in-memory row store behind every repository.
//!
//! One [`Table`] models one database table: a sequence of rows in insertion
//! order, with the two constraints the schema declares — a unique identifier
//! per row and the entity's own uniqueness columns.  Reads filter out
//! soft-deleted rows; `delete` removes the row outright, mirroring the
//! single unconditional delete statement the repositories issue.

use vstd::prelude::*;

verus! {

/// Why a repository call fails: the row was not found, or a uniqueness
/// constraint was violated.  The two are distinguishable; callers treat
/// "no row found" as a valid state (for example during a sync).
#[derive(PartialEq, Eq, Structural, Clone, Copy, Debug)]
pub enum RepoError {
    RowNotFound,
    UniqueViolation,
}

/// A row of one table: a server-generated identifier, a deletion timestamp,
/// and zero or more columns under a uniqueness constraint.
pub trait Entity: Sized {
    /// The identifier column.
    spec fn sid(self) -> u128;

    /// The deletion timestamp column.
    spec fn sdeleted(self) -> Option<i64>;

    /// Whether two rows collide on a column the schema declares unique
    /// (identifiers aside).
    spec fn clashes(self, other: Self) -> bool;

    fn id(&self) -> (r: u128)
        ensures
            r == self.sid(),
    ;

    fn is_live(&self) -> (r: bool)
        ensures
            r == (self.sdeleted() is None),
    ;

    fn clashes_with(&self, other: &Self) -> (r: bool)
        ensures
            r == self.clashes(*other),
    ;

    fn clone_row(&self) -> (r: Self)
        ensures
            r == *self,
    ;
}

/// Whether some row of `s` carries the identifier `id`.
pub open spec fn has_id<R: Entity>(s: Seq<R>, id: u128) -> bool {
    exists|i: int| 0 <= i < s.len() && s[i].sid() == id
}

/// Whether some row of `s` collides with `row` on a uniqueness column.
pub open spec fn has_clash<R: Entity>(s: Seq<R>, row: R) -> bool {
    exists|i: int| 0 <= i < s.len() && (s[i].clashes(row) || row.clashes(s[i]))
}

/// Whether an insert of `row` into `s` passes both schema constraints.
pub open spec fn can_insert<R: Entity>(s: Seq<R>, row: R) -> bool {
    !has_id(s, row.sid()) && !has_clash(s, row)
}

/// The first live row of `s` carrying the identifier `id`, if any.
pub open spec fn find_live<R: Entity>(s: Seq<R>, id: u128) -> Option<R>
    decreases s.len(),
{
    if s.len() == 0 {
        None
    } else if s[0].sdeleted() is None && s[0].sid() == id {
        Some(s[0])
    } else {
        find_live(s.drop_first(), id)
    }
}

/// The index of the row of `s` carrying the identifier `id`; meaningful
/// only under [`has_id`], and unique under [`Table::unique_ids`].
pub open spec fn id_index<R: Entity>(s: Seq<R>, id: u128) -> int {
    choose|i: int| 0 <= i < s.len() && s[i].sid() == id
}

pub proof fn lemma_find_live<R: Entity>(s: Seq<R>, id: u128)
    ensures
        (find_live(s, id) is Some) <==> exists|i: int|
            0 <= i < s.len() && s[i].sdeleted() is None && s[i].sid() == id,
        find_live(s, id) matches Some(r) ==> r.sdeleted() is None && r.sid() == id && s.contains(
            r,
        ),
    decreases s.len(),
{
    if s.len() > 0 {
        if s[0].sdeleted() is None && s[0].sid() == id {
        } else {
            lemma_find_live(s.drop_first(), id);
            if find_live(s, id) is Some {
                let j = choose|j: int|
                    0 <= j < s.drop_first().len() && s.drop_first()[j].sdeleted() is None
                        && s.drop_first()[j].sid() == id;
                assert(s[j + 1] == s.drop_first()[j]);
                assert(s.drop_first().contains(find_live(s, id)->Some_0));
                let k = choose|k: int|
                    0 <= k < s.drop_first().len() && s.drop_first()[k] == find_live(s, id)->Some_0;
                assert(s[k + 1] == s.drop_first()[k]);
            } else {
                assert forall|i: int|
                    0 <= i < s.len() && s[i].sdeleted() is None && s[i].sid()
                        == id implies false by {
                    assert(i > 0);
                    assert(s.drop_first()[i - 1] == s[i]);
                }
            }
        }
    }
}

/// Filtering distributes over appending one element.
pub proof fn lemma_filter_push<A>(s: Seq<A>, x: A, p: spec_fn(A) -> bool)
    ensures
        s.push(x).filter(p) == if p(x) {
            s.filter(p).push(x)
        } else {
            s.filter(p)
        },
{
    assert(s.push(x) =~= s + seq![x]);
    Seq::<A>::filter_distributes_over_add(s, seq![x], p);
    reveal_with_fuel(Seq::filter, 2);
    assert(seq![x].drop_last() =~= Seq::<A>::empty());
    if p(x) {
        assert(s.filter(p) + seq![x].filter(p) =~= s.filter(p).push(x));
    } else {
        assert(s.filter(p) + seq![x].filter(p) =~= s.filter(p));
    }
}

/// One table of the store: rows in insertion order.
pub struct Table<R> {
    pub rows: Vec<R>,
}

impl<R: Entity> Table<R> {
    /// No two rows share an identifier.
    pub open spec fn unique_ids(self) -> bool {
        forall|i: int, j: int|
            0 <= i < self.rows@.len() && 0 <= j < self.rows@.len() && i != j ==> (
            #[trigger] self.rows@[i].sid()) != (#[trigger] self.rows@[j].sid())
    }

    /// No two rows collide on a uniqueness column.
    pub open spec fn no_clashes(self) -> bool {
        forall|i: int, j: int|
            0 <= i < self.rows@.len() && 0 <= j < self.rows@.len() && i != j ==> !(
            #[trigger] self.rows@[i].clashes(self.rows@[j]))
    }

    /// The schema constraints the store maintains.
    pub open spec fn wf(self) -> bool {
        self.unique_ids() && self.no_clashes()
    }

    /// The live (not soft-deleted) rows, in stored order.
    pub open spec fn live_rows(self) -> Seq<R> {
        self.rows@.filter(|r: R| r.sdeleted() is None)
    }

    /// An empty table.
    pub fn new() -> (r: Self)
        ensures
            r.rows@ =~= Seq::<R>::empty(),
            r.wf(),
    {
        Table { rows: Vec::new() }
    }

    /// Whether any row (live or soft-deleted) carries `id`.
    pub fn contains_id(&self, id: u128) -> (r: bool)
        ensures
            r == has_id(self.rows@, id),
    {
        let n = self.rows.len();
        let mut i: usize = 0;
        while i < n
            invariant
                0 <= i <= n,
                n == self.rows@.len(),
                forall|k: int| 0 <= k < i ==> (#[trigger] self.rows@[k].sid()) != id,
            decreases n - i,
        {
            if self.rows[i].id() == id {
                return true;
            }
            i = i + 1;
        }
        false
    }

    /// Whether any row collides with `row` on a uniqueness column.
    pub fn contains_clash(&self, row: &R) -> (r: bool)
        ensures
            r == has_clash(self.rows@, *row),
    {
        let n = self.rows.len();
        let mut i: usize = 0;
        while i < n
            invariant
                0 <= i <= n,
                n == self.rows@.len(),
                forall|k: int|
                    0 <= k < i ==> !((#[trigger] self.rows@[k]).clashes(*row) || row.clashes(
                        self.rows@[k],
                    )),
            decreases n - i,
        {
            if self.rows[i].clashes_with(row) || row.clashes_with(&self.rows[i]) {
                return true;
            }
            i = i + 1;
        }
        false
    }

    /// Whether an insert of `row` would pass both schema constraints.
    pub fn can_accept(&self, row: &R) -> (r: bool)
        ensures
            r == can_insert(self.rows@, *row),
    {
        !self.contains_id(row.id()) && !self.contains_clash(row)
    }

    /// The index of the row (live or soft-deleted) carrying `id`, if any.
    pub fn index_of_id(&self, id: u128) -> (r: Option<usize>)
        requires
            self.wf(),
        ensures
            r matches Some(i) ==> i < self.rows@.len() && self.rows@[i as int].sid() == id
                && id_index(self.rows@, id) == i as int && has_id(self.rows@, id),
            r is None ==> !has_id(self.rows@, id),
    {
        let n = self.rows.len();
        let mut i: usize = 0;
        while i < n
            invariant
                0 <= i <= n,
                n == self.rows@.len(),
                self.wf(),
                forall|k: int| 0 <= k < i ==> (#[trigger] self.rows@[k].sid()) != id,
            decreases n - i,
        {
            if self.rows[i].id() == id {
                proof {
                    assert(has_id(self.rows@, id));
                    let k = id_index(self.rows@, id);
                    assert(0 <= k < self.rows@.len() && self.rows@[k].sid() == id);
                    if k != i as int {
                        assert(self.rows@[k].sid() != self.rows@[i as int].sid());
                    }
                }
                return Some(i);
            }
            i = i + 1;
        }
        None
    }

    /// One statement of the create path: appends the row, or reports the
    /// uniqueness constraint it would violate.
    pub fn insert(&mut self, row: R) -> (r: Result<(), RepoError>)
        requires
            old(self).wf(),
        ensures
            final(self).wf(),
            r is Ok <==> can_insert(old(self).rows@, row),
            r is Ok ==> final(self).rows@ == old(self).rows@.push(row),
            r is Err ==> *final(self) == *old(self) && r == Err::<(), RepoError>(
                RepoError::UniqueViolation,
            ),
    {
        if !self.can_accept(&row) {
            return Err(RepoError::UniqueViolation);
        }
        self.rows.push(row);
        Ok(())
    }

    /// One query of the read path: the first live row carrying `id`, or the
    /// distinguishable "no row found" error.
    pub fn get_by_id(&self, id: u128) -> (r: Result<R, RepoError>)
        ensures
            r matches Ok(row) ==> find_live(self.rows@, id) == Some(row),
            r is Err ==> r == Err::<R, RepoError>(RepoError::RowNotFound) && find_live(
                self.rows@,
                id,
            ) is None,
    {
        let n = self.rows.len();
        let mut i: usize = 0;
        proof {
            assert(self.rows@.skip(0) =~= self.rows@);
        }
        while i < n
            invariant
                0 <= i <= n,
                n == self.rows@.len(),
                find_live(self.rows@, id) == find_live(self.rows@.skip(i as int), id),
            decreases n - i,
        {
            proof {
                assert(self.rows@.skip(i as int)[0] == self.rows@[i as int]);
                assert(self.rows@.skip(i as int).drop_first() =~= self.rows@.skip(i as int + 1));
            }
            let candidate = &self.rows[i];
            if candidate.is_live() && candidate.id() == id {
                return Ok(candidate.clone_row());
            }
            i = i + 1;
        }
        proof {
            assert(self.rows@.skip(n as int) =~= Seq::<R>::empty());
        }
        Err(RepoError::RowNotFound)
    }

    /// One statement of the update path: replaces the row carrying the same
    /// identifier, or reports why it cannot.
    pub fn replace(&mut self, row: R) -> (r: Result<(), RepoError>)
        requires
            old(self).wf(),
        ensures
            final(self).wf(),
            r is Ok <==> has_id(old(self).rows@, row.sid()) && !has_clash_besides(
                old(self).rows@,
                row,
            ),
            r is Ok ==> final(self).rows@ == old(self).rows@.update(
                id_index(old(self).rows@, row.sid()),
                row,
            ),
            r is Err ==> *final(self) == *old(self),
            r matches Err(e) ==> (e == RepoError::RowNotFound <==> !has_id(
                old(self).rows@,
                row.sid(),
            )),
    {
        let i = match self.index_of_id(row.id()) {
            Some(i) => i,
            None => {
                return Err(RepoError::RowNotFound);
            },
        };
        let n = self.rows.len();
        // the row may keep its own unique columns, but must not steal another's
        let mut j: usize = 0;
        while j < n
            invariant
                0 <= j <= n,
                i < n,
                n == self.rows@.len(),
                *self == *old(self),
                self.wf(),
                self.rows@[i as int].sid() == row.sid(),
                id_index(self.rows@, row.sid()) == i as int,
                forall|k: int|
                    0 <= k < j && k != i ==> !((#[trigger] self.rows@[k]).clashes(row)
                        || row.clashes(self.rows@[k])),
            decreases n - j,
        {
            if j != i && (self.rows[j].clashes_with(&row) || row.clashes_with(&self.rows[j])) {
                proof {
                    assert(self.rows@[j as int].sid() != self.rows@[i as int].sid());
                    assert(has_clash_besides(self.rows@, row));
                }
                return Err(RepoError::UniqueViolation);
            }
            j = j + 1;
        }
        let ghost prev = self.rows@;
        self.rows.remove(i);
        self.rows.insert(i, row);
        proof {
            assert(self.rows@ =~= prev.update(i as int, row));
            let cur = self.rows@;
            assert forall|k: int, l: int|
                0 <= k < cur.len() && 0 <= l < cur.len() && k != l implies (
            #[trigger] cur[k].sid()) != (#[trigger] cur[l].sid()) by {
                assert(prev[k].sid() != prev[l].sid());
            }
            assert forall|k: int, l: int|
                0 <= k < cur.len() && 0 <= l < cur.len() && k != l implies !(
            #[trigger] cur[k].clashes(cur[l])) by {
                assert(!prev[k].clashes(prev[l]));
            }
            assert(!has_clash_besides(prev, row));
        }
        Ok(())
    }

    /// The single unconditional delete statement: removes the row carrying
    /// `id` if it exists, and does nothing otherwise.
    pub fn delete(&mut self, id: u128)
        requires
            old(self).wf(),
        ensures
            final(self).wf(),
            !has_id(old(self).rows@, id) ==> *final(self) == *old(self),
            has_id(old(self).rows@, id) ==> final(self).rows@ == old(self).rows@.remove(
                id_index(old(self).rows@, id),
            ),
    {
        if let Some(i) = self.index_of_id(id) {
            let ghost prev = self.rows@;
            self.rows.remove(i);
            proof {
                prev.remove_ensures(i as int);
                let cur = self.rows@;
                assert forall|k: int, l: int|
                    0 <= k < cur.len() && 0 <= l < cur.len() && k != l implies (
                #[trigger] cur[k].sid()) != (#[trigger] cur[l].sid()) by {
                    let k0: int = if k < i { k } else { k + 1 };
                    let l0: int = if l < i { l } else { l + 1 };
                    assert(cur[k] == prev[k0] && cur[l] == prev[l0]);
                    assert(prev[k0].sid() != prev[l0].sid());
                }
                assert forall|k: int, l: int|
                    0 <= k < cur.len() && 0 <= l < cur.len() && k != l implies !(
                #[trigger] cur[k].clashes(cur[l])) by {
                    let k0: int = if k < i { k } else { k + 1 };
                    let l0: int = if l < i { l } else { l + 1 };
                    assert(cur[k] == prev[k0] && cur[l] == prev[l0]);
                    assert(!prev[k0].clashes(prev[l0]));
                }
            }
        }
    }

    /// Total number of live rows, as the count query reports it.
    pub fn total(&self) -> (r: u64)
        requires
            self.rows@.len() <= u64::MAX,
        ensures
            r == self.live_rows().len(),
    {
        let n = self.rows.len();
        let mut i: usize = 0;
        let mut count: u64 = 0;
        proof {
            assert(self.rows@.subrange(0, 0) =~= Seq::<R>::empty());
            reveal_with_fuel(Seq::filter, 1);
        }
        while i < n
            invariant
                0 <= i <= n,
                n == self.rows@.len(),
                count == self.rows@.subrange(0, i as int).filter(
                    |r: R| r.sdeleted() is None,
                ).len(),
                count <= i,
            decreases n - i,
        {
            proof {
                let prefix = self.rows@.subrange(0, i as int);
                assert(self.rows@.subrange(0, i as int + 1) =~= prefix.push(
                    self.rows@[i as int],
                ));
                lemma_filter_push(prefix, self.rows@[i as int], |r: R| r.sdeleted() is None);
            }
            if self.rows[i].is_live() {
                count = count + 1;
            }
            i = i + 1;
        }
        proof {
            assert(self.rows@.subrange(0, n as int) =~= self.rows@);
        }
        count
    }

    /// The live rows in stored order — the deterministic order every list
    /// query returns.
    pub fn live_vec(&self) -> (r: Vec<R>)
        ensures
            r@ == self.live_rows(),
    {
        let n = self.rows.len();
        let mut out: Vec<R> = Vec::new();
        let mut i: usize = 0;
        proof {
            assert(self.rows@.subrange(0, 0) =~= Seq::<R>::empty());
            reveal_with_fuel(Seq::filter, 1);
        }
        while i < n
            invariant
                0 <= i <= n,
                n == self.rows@.len(),
                out@ == self.rows@.subrange(0, i as int).filter(|r: R| r.sdeleted() is None),
            decreases n - i,
        {
            proof {
                let prefix = self.rows@.subrange(0, i as int);
                assert(self.rows@.subrange(0, i as int + 1) =~= prefix.push(
                    self.rows@[i as int],
                ));
                lemma_filter_push(prefix, self.rows@[i as int], |r: R| r.sdeleted() is None);
            }
            let candidate = &self.rows[i];
            if candidate.is_live() {
                out.push(candidate.clone_row());
            }
            i = i + 1;
        }
        proof {
            assert(self.rows@.subrange(0, n as int) =~= self.rows@);
        }
        out
    }

    /// One page of live rows together with the total count, as the paired
    /// list/count queries report them.
    pub fn list(&self, offset: u64, limit: u64) -> (r: (Vec<R>, u64))
        requires
            self.rows@.len() <= u64::MAX,
        ensures
            r.1 == self.live_rows().len(),
            r.0@ == window(self.live_rows(), offset as int, limit as int),
    {
        let live = self.live_vec();
        proof {
            Seq::<R>::lemma_filter_len(self.rows@, |r: R| r.sdeleted() is None);
        }
        let total = live.len() as u64;
        let lo: usize = if offset <= total {
            offset as usize
        } else {
            live.len()
        };
        let mut out: Vec<R> = Vec::new();
        let mut i: usize = lo;
        while i < live.len() && (out.len() as u64) < limit
            invariant
                lo <= i <= live.len(),
                out@ == live@.subrange(lo as int, i as int),
                out@.len() == i - lo,
                i - lo <= limit,
            decreases live.len() - i,
        {
            proof {
                assert(live@.subrange(lo as int, i as int + 1) =~= live@.subrange(
                    lo as int,
                    i as int,
                ).push(live@[i as int]));
            }
            out.push(live[i].clone_row());
            i = i + 1;
        }
        proof {
            assert(out@ =~= window(self.live_rows(), offset as int, limit as int));
        }
        (out, total)
    }
}

/// Whether a row of `s` other than the one carrying `row`'s identifier
/// collides with `row` on a uniqueness column.
pub open spec fn has_clash_besides<R: Entity>(s: Seq<R>, row: R) -> bool {
    exists|i: int|
        0 <= i < s.len() && s[i].sid() != row.sid() && (s[i].clashes(row) || row.clashes(s[i]))
}

/// The page a list query returns: the rows of `s` from `offset` on, at most
/// `limit` of them.
pub open spec fn window<R>(s: Seq<R>, offset: int, limit: int) -> Seq<R>
    recommends
        offset >= 0,
        limit >= 0,
{
    let lo = if offset <= s.len() {
        offset
    } else {
        s.len() as int
    };
    let hi = if offset + limit <= s.len() {
        offset + limit
    } else {
        s.len() as int
    };
    s.subrange(lo, hi)
}

} // verus!
