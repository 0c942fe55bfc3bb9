//! Page arithmetic of the listing service.

use vstd::prelude::*;
use crate::headers::Header;
use crate::types::Counts;

verus! {

/// The number of rows on a page when a request names none.
pub const DEFAULT_LIMIT: usize = 10;

/// Quotient of `n` by `d`, rounded up. For `d == 0` it is `0`.
pub open spec fn ceil_div(n: nat, d: nat) -> nat {
    if d == 0 {
        0
    } else if n % d == 0 {
        n / d
    } else {
        n / d + 1
    }
}

/// The page count of a listing of `total_count` rows cut into pages of
/// `limit` rows. A limit of zero leaves no page for an empty listing and
/// more pages than can be counted for any other.
pub open spec fn total_pages_spec(total_count: usize, limit: usize) -> nat {
    if limit == 0 {
        if total_count == 0 {
            0
        } else {
            usize::MAX as nat
        }
    } else {
        ceil_div(total_count as nat, limit as nat)
    }
}

/// The page of a listing that a request asks for.
#[derive(Clone, Copy, Debug, PartialEq, Eq, Structural)]
pub struct Pagination {
    pub page: usize,
    pub limit: usize,
}

impl Default for Pagination {
    fn default() -> (r: Self)
        ensures
            r.page == 1,
            r.limit == DEFAULT_LIMIT,
    {
        Pagination { page: 1, limit: DEFAULT_LIMIT }
    }
}

impl Pagination {
    /// The number of rows that lie before the page. Pages count from one;
    /// page zero starts where page one does.
    pub open spec fn offset(&self) -> nat {
        if self.page == 0 {
            0
        } else {
            ((self.page - 1) * self.limit) as nat
        }
    }

    /// The limit and the offset of the rows of this page.
    pub fn to_limit_offset(&self) -> (r: (usize, usize))
        requires
            self.offset() <= usize::MAX,
        ensures
            r.0 == self.limit,
            r.1 == self.offset(),
    {
        let before: usize = if self.page == 0 { 0 } else { self.page - 1 };
        (self.limit, before * self.limit)
    }
}

/// The number of pages of a listing.
pub fn total_pages(total_count: usize, limit: usize) -> (pages: usize)
    ensures
        pages == total_pages_spec(total_count, limit),
{
    if limit == 0 {
        if total_count == 0 { 0 } else { usize::MAX }
    } else {
        let whole: usize = total_count / limit;
        if total_count % limit == 0 {
            whole
        } else {
            assert(whole < total_count) by (nonlinear_arith)
                requires
                    whole == total_count / limit,
                    limit > 0,
                    total_count % limit != 0,
            ;
            whole + 1
        }
    }
}

/// Rounding up gives the least number of pages that hold every row: the
/// pages hold at least `n` rows, and one page fewer would not.
pub proof fn lemma_ceil_div_is_least(n: nat, d: nat)
    requires
        d > 0,
    ensures
        ceil_div(n, d) * d >= n,
        ceil_div(n, d) > 0 ==> (ceil_div(n, d) - 1) * d < n,
        n == 0 <==> ceil_div(n, d) == 0,
{
    assert(n == d * (n / d) + n % d) by (nonlinear_arith)
        requires
            d > 0,
    ;
    assert(0 <= n % d < d) by (nonlinear_arith)
        requires
            d > 0,
    ;
    let q = ceil_div(n, d);
    assert(q * d >= n) by (nonlinear_arith)
        requires
            n == d * (n / d) + n % d,
            0 <= n % d < d,
            q == if n % d == 0 { n / d } else { n / d + 1 },
    ;
    assert(q > 0 ==> (q - 1) * d < n) by (nonlinear_arith)
        requires
            n == d * (n / d) + n % d,
            0 <= n % d < d,
            d > 0,
            n / d >= 0,
            q == if n % d == 0 { n / d } else { n / d + 1 },
    ;
    assert(n == 0 <==> q == 0) by (nonlinear_arith)
        requires
            n == d * (n / d) + n % d,
            0 <= n % d < d,
            d > 0,
            n / d >= 0,
            q == if n % d == 0 { n / d } else { n / d + 1 },
    ;
}

/// The paging headers of a page, in the order in which they are sent, each
/// with its number: the rows on the page, the rows of the whole listing, the
/// page, the limit, and the number of pages.
pub open spec fn pagination_headers_spec(
    pagination: Pagination,
    count: usize,
    total_count: usize,
) -> Seq<(Header, usize)> {
    seq![
        (Header::PaginationCount, count),
        (Header::PaginationTotalCount, total_count),
        (Header::PaginationPage, pagination.page),
        (Header::PaginationLimit, pagination.limit),
        (
            Header::PaginationTotalPages,
            total_pages_spec(total_count, pagination.limit) as usize,
        ),
    ]
}

/// The paging headers that go with a page of `count` rows out of
/// `total_count`.
pub fn pagination_headers(pagination: Pagination, count: usize, total_count: usize) -> (r: Vec<
    (Header, usize),
>)
    ensures
        r@ == pagination_headers_spec(pagination, count, total_count),
{
    let pages = total_pages(total_count, pagination.limit);
    let r = vec![
        (Header::PaginationCount, count),
        (Header::PaginationTotalCount, total_count),
        (Header::PaginationPage, pagination.page),
        (Header::PaginationLimit, pagination.limit),
        (Header::PaginationTotalPages, pages),
    ];
    assert(r@ =~= pagination_headers_spec(pagination, count, total_count));
    r
}

/// The count headers of a single entity, in the order in which they are
/// sent, each with its number.
pub open spec fn count_headers_spec(counts: Counts) -> Seq<(Header, usize)> {
    match counts {
        Counts::Country { states, cities } => seq![
            (Header::StatesCount, states),
            (Header::CitiesCount, cities),
        ],
        Counts::State { cities } => seq![(Header::CitiesCount, cities)],
        Counts::Region { countries, subregions } => seq![
            (Header::CountriesCount, countries),
            (Header::SubregionsCount, subregions),
        ],
        Counts::Subregion { countries } => seq![(Header::CountriesCount, countries)],
        Counts::Currency { countries } => seq![(Header::CountriesCount, countries)],
    }
}

/// The count headers that go with a single entity.
pub fn count_headers(counts: Counts) -> (r: Vec<(Header, usize)>)
    ensures
        r@ == count_headers_spec(counts),
{
    let r = match counts {
        Counts::Country { states, cities } => vec![
            (Header::StatesCount, states),
            (Header::CitiesCount, cities),
        ],
        Counts::State { cities } => vec![(Header::CitiesCount, cities)],
        Counts::Region { countries, subregions } => vec![
            (Header::CountriesCount, countries),
            (Header::SubregionsCount, subregions),
        ],
        Counts::Subregion { countries } => vec![(Header::CountriesCount, countries)],
        Counts::Currency { countries } => vec![(Header::CountriesCount, countries)],
    };
    assert(r@ =~= count_headers_spec(counts));
    r
}

} // verus!
