//! Pagination: validation of the `page`/`page_size` query parameters, the
//! row offset they select, and the page count a list endpoint reports.

use vstd::arithmetic::div_mod::{
    lemma_fundamental_div_mod, lemma_fundamental_div_mod_converse, lemma_mod_bound,
};
use vstd::prelude::*;

use crate::errors::{failed, ErrorResponse, BAD_REQUEST};

verus! {

/// The `page`/`page_size` query parameters of a list endpoint, as the shell
/// decodes them; either may be absent or unparsable.
pub struct PaginationParams {
    pub page: Option<u32>,
    pub page_size: Option<u32>,
}

/// The envelope in which a list endpoint wraps its rows.
pub struct PaginatedResponse<T> {
    pub data: T,
    pub page: u32,
    pub page_size: u32,
    pub total_pages: u32,
    pub total_data: u32,
}

/// The envelope in which a non-list endpoint wraps its payload.
pub struct Response<T> {
    pub data: T,
}

/// The page count a list endpoint reports: `total / page_size`, rounded up.
pub open spec fn spec_total_pages(total: int, page_size: int) -> int {
    (total + page_size - 1) / page_size
}

/// The rounded-up quotient covers every row, and one page fewer does not.
pub proof fn lemma_total_pages_bounds(total: int, page_size: int)
    requires
        total >= 0,
        page_size >= 1,
    ensures
        spec_total_pages(total, page_size) * page_size >= total,
        total > 0 ==> (spec_total_pages(total, page_size) - 1) * page_size < total,
        total == 0 ==> spec_total_pages(total, page_size) == 0,
        0 <= spec_total_pages(total, page_size) <= total,
{
    let q = spec_total_pages(total, page_size);
    lemma_fundamental_div_mod(total + page_size - 1, page_size);
    lemma_mod_bound(total + page_size - 1, page_size);
    let r = (total + page_size - 1) % page_size;
    assert(total + page_size - 1 == page_size * q + r);
    assert(q * page_size == total + page_size - 1 - r && (q - 1) * page_size == total - 1 - r)
        by (nonlinear_arith)
        requires
            total + page_size - 1 == page_size * q + r,
    ;
    if total == 0 {
        assert(page_size - 1 == 0 * page_size + (page_size - 1)) by (nonlinear_arith);
        lemma_fundamental_div_mod_converse(page_size - 1, page_size, 0, page_size - 1);
    }
    if q > total {
        // one page fewer would already cover every row: contradiction
        assert((q - 1) * page_size >= q - 1) by (nonlinear_arith)
            requires
                page_size >= 1,
                q >= 1,
        ;
    }
}

/// Defaults applied by every list handler: page 1 and page size 10 when a
/// parameter is absent.
pub fn effective_pagination(params: &PaginationParams) -> (r: (u32, u32))
    ensures
        r.0 == params.page.unwrap_or(1u32),
        r.1 == params.page_size.unwrap_or(10u32),
{
    (params.page.unwrap_or(1), params.page_size.unwrap_or(10))
}

/// Validates the pagination parameters and computes the row offset they
/// select.  Rejected with a validation error exactly when either parameter
/// is zero; otherwise the offset is `(page - 1) * page_size`.
pub fn check_pagination(page: u32, page_size: u32) -> (r: Result<u64, ErrorResponse>)
    ensures
        r is Ok <==> page >= 1 && page_size >= 1,
        r matches Ok(offset) ==> offset == (page - 1) * page_size,
        r matches Err(e) ==> e.err_type == BAD_REQUEST,
{
    if page == 0 || page_size == 0 {
        return Err(failed(BAD_REQUEST, "Invalid pagination parameters"));
    }
    proof {
        assert(((page - 1) as u64) * (page_size as u64) <= u64::MAX) by (nonlinear_arith)
            requires
                page >= 1,
                page <= u32::MAX,
                page_size <= u32::MAX,
        ;
    }
    Ok(((page - 1) as u64) * (page_size as u64))
}

/// The page count over `total` rows: `total / page_size`, rounded up.
pub fn total_pages(total: u64, page_size: u64) -> (r: u64)
    requires
        page_size >= 1,
    ensures
        r == spec_total_pages(total as int, page_size as int),
{
    let q = total / page_size;
    let rem = total % page_size;
    proof {
        lemma_fundamental_div_mod(total as int, page_size as int);
        lemma_mod_bound(total as int, page_size as int);
        assert(total == page_size * (q as int) + rem);
        if rem == 0 {
            assert((q as int) * (page_size as int) == page_size * (q as int)) by (nonlinear_arith);
            lemma_fundamental_div_mod_converse(
                total + page_size - 1,
                page_size as int,
                q as int,
                page_size - 1,
            );
        } else {
            assert((q as int + 1) * (page_size as int) == page_size * (q as int) + page_size)
                by (nonlinear_arith);
            lemma_fundamental_div_mod_converse(
                total + page_size - 1,
                page_size as int,
                q as int + 1,
                rem - 1,
            );
            // `q + 1` stays within bounds: a non-zero remainder needs a
            // divisor of at least two
            assert(page_size * (q as int) >= 2 * (q as int)) by (nonlinear_arith)
                requires
                    page_size >= 2,
                    q >= 0,
            ;
        }
    }
    if rem == 0 {
        q
    } else {
        q + 1
    }
}

/// Wraps one page of rows in the list envelope; `total_pages` is the
/// rounded-up quotient of the total row count by the page size.
pub fn paginated<T>(data: T, page: u32, page_size: u32, total: u64) -> (r: PaginatedResponse<T>)
    requires
        page_size >= 1,
        total <= u32::MAX,
    ensures
        r.data == data,
        r.page == page,
        r.page_size == page_size,
        r.total_data == total,
        r.total_pages == spec_total_pages(total as int, page_size as int),
{
    proof {
        lemma_total_pages_bounds(total as int, page_size as int);
        lemma_fundamental_div_mod(total as int, page_size as int);
    }
    let pages = total_pages(total, page_size as u64);
    PaginatedResponse {
        data,
        page,
        page_size,
        total_pages: pages as u32,
        total_data: total as u32,
    }
}

} // verus!
