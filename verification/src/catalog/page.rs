//! The pagination protocol.
//!
//! A listing operation hands an already access-filtered, ordered sequence
//! plus a caller-supplied [`Pagination`] request to [`paginate_response`],
//! which returns one [`Page`]: a slice of the sequence plus an optional
//! continuation token. The token is the decimal numeral of the offset at
//! which the next page starts.

use crate::catalog::error::{CatalogError, CatalogErrorKind};
use crate::text::{
    dec_seq, is_digit, lemma_dec_round_trip, numeral_digits, numeral_valid, numeral_value,
    parse_dec, to_dec_string,
};
use vstd::prelude::*;

verus! {

/// Caller-supplied pagination parameters: an optional page size and an
/// optional continuation token from an earlier page.
#[derive(Debug, Clone)]
pub struct Pagination {
    max_results: Option<u32>,
    page_token: Option<String>,
}

/// The mathematical content of a [`Pagination`] request.
pub struct PaginationView {
    /// The requested page size, if any.
    pub max_results: Option<u32>,
    /// View of the continuation token, if any.
    pub page_token: Option<Seq<char>>,
}

impl View for Pagination {
    type V = PaginationView;

    closed spec fn view(&self) -> PaginationView {
        PaginationView { max_results: self.max_results, page_token: self.page_token.deep_view() }
    }
}

impl Pagination {
    /// Create a new pagination request with the given page size and
    /// continuation token.
    pub fn new(max_results: Option<u32>, page_token: Option<String>) -> (r: Self)
        ensures
            r@ == (PaginationView { max_results, page_token: page_token.deep_view() }),
    {
        Self { max_results, page_token }
    }

    /// Return the maximum amount of results to be returned in a single page.
    pub fn max_results(&self) -> (r: Option<u32>)
        ensures
            r == self@.max_results,
    {
        self.max_results
    }

    /// Return the continuation token, if any.
    pub fn page_token(&self) -> (r: Option<&str>)
        ensures
            r.deep_view() == self@.page_token,
    {
        match &self.page_token {
            Some(t) => Some(t.as_str()),
            None => None,
        }
    }
}

impl Default for Pagination {
    /// The default request has no page size and no continuation token.
    fn default() -> (r: Self)
        ensures
            r@ == (PaginationView { max_results: None, page_token: None }),
    {
        Pagination { max_results: None, page_token: None }
    }
}

/// One page of a listing: an ordered slice of the filtered sequence, plus
/// the token with which the listing resumes. `None` signals the final page.
#[derive(Debug, Clone, PartialEq)]
pub struct Page<T> {
    items: Vec<T>,
    next_page_token: Option<String>,
}

impl<T> Page<T> {
    /// The items of this page.
    pub closed spec fn spec_items(self) -> Seq<T> {
        self.items@
    }

    /// View of the continuation token of this page.
    pub closed spec fn spec_token(self) -> Option<Seq<char>> {
        self.next_page_token.deep_view()
    }

    /// Create a new page with the given items and token.
    pub fn new(items: Vec<T>, next_page_token: Option<String>) -> (r: Self)
        ensures
            r.spec_items() == items@,
            r.spec_token() == next_page_token.deep_view(),
    {
        Self { items, next_page_token }
    }

    /// Return the items of the page.
    pub fn items(&self) -> (r: &Vec<T>)
        ensures
            r@ == self.spec_items(),
    {
        &self.items
    }

    /// Return the token with which the listing resumes, if any.
    pub fn next_page_token(&self) -> (r: Option<&str>)
        ensures
            r.deep_view() == self.spec_token(),
    {
        match &self.next_page_token {
            Some(t) => Some(t.as_str()),
            None => None,
        }
    }

    /// Return the amount of items in the page.
    pub fn len(&self) -> (r: usize)
        ensures
            r == self.spec_items().len(),
    {
        self.items.len()
    }

    /// Return whether the page holds no items.
    pub fn is_empty(&self) -> (r: bool)
        ensures
            r == (self.spec_items().len() == 0),
    {
        self.items.is_empty()
    }

    /// Return whether the page is the last page of the listing.
    pub fn is_last_page(&self) -> (r: bool)
        ensures
            r == (self.spec_token() is None),
    {
        self.next_page_token.is_none()
    }

    /// Convert the page into its parts: items and token.
    pub fn into_parts(self) -> (r: (Vec<T>, Option<String>))
        ensures
            r.0@ == self.spec_items(),
            r.1.deep_view() == self.spec_token(),
    {
        (self.items, self.next_page_token)
    }
}

/// The views of a sequence of values, element by element.
pub open spec fn deep_seq<T: DeepView>(s: Seq<T>) -> Seq<T::V> {
    s.map_values(|x: T| x.deep_view())
}

/// The page size in effect: the requested one, or 500 by default.
pub open spec fn spec_limit(p: PaginationView) -> nat {
    match p.max_results {
        Some(m) => m as nat,
        None => 500,
    }
}

/// Whether a continuation token is well-formed: a decimal numeral as
/// `str::parse::<usize>` reads it — one optional leading plus sign, then at
/// least one digit — whose value fits the platform's index type.
pub open spec fn token_valid(t: Seq<char>) -> bool {
    numeral_valid(t)
}

/// Whether the pagination request as a whole is acceptable: either no token,
/// or a well-formed one.
pub open spec fn pagination_ok(p: PaginationView) -> bool {
    match p.page_token {
        Some(t) => token_valid(t),
        None => true,
    }
}

/// The offset the request asks to resume at: the token's value, or zero.
pub open spec fn spec_offset(p: PaginationView) -> nat {
    match p.page_token {
        Some(t) => numeral_value(t),
        None => 0,
    }
}

/// The slice of `items` one page covers: up to `lim` items starting at
/// `off`, clipped to the sequence. An offset at or beyond the end yields an
/// empty slice.
pub open spec fn spec_page_items<T>(items: Seq<T>, off: nat, lim: nat) -> Seq<T> {
    let start = if off <= items.len() {
        off as int
    } else {
        items.len() as int
    };
    let end = if off + lim <= items.len() {
        (off + lim) as int
    } else {
        items.len() as int
    };
    items.subrange(start, end)
}

/// The continuation token of the page: absent when the page reaches the end
/// of the sequence, else the numeral of the next offset.
pub open spec fn spec_next_token(len: nat, off: nat, lim: nat) -> Option<Seq<char>> {
    if off + lim >= len {
        None
    } else {
        Some(dec_seq(off + lim))
    }
}

/// What paginating `items` under the request `p` returns: one page and its
/// token, or the error kind of a malformed token.
pub open spec fn spec_paginate<T>(items: Seq<T>, p: PaginationView) -> Result<
    (Seq<T>, Option<Seq<char>>),
    CatalogErrorKind,
> {
    if pagination_ok(p) {
        Ok(
            (
                spec_page_items(items, spec_offset(p), spec_limit(p)),
                spec_next_token(items.len(), spec_offset(p), spec_limit(p)),
            ),
        )
    } else {
        Err(CatalogErrorKind::MalformedPagination)
    }
}

/// Slice one page out of an ordered, already access-filtered sequence.
///
/// The offset is the token's value (zero without a token); the page size is
/// `max_results` (500 without one). A malformed token is rejected; an offset
/// at or beyond the end of the sequence yields an empty final page.
pub fn paginate_response<T>(items: Vec<T>, pagination: &Pagination) -> (r: Result<
    Page<T>,
    CatalogError,
>)
    ensures
        match spec_paginate(items@, pagination@) {
            Ok(pair) => r matches Ok(page) && page.spec_items() == pair.0 && page.spec_token()
                == pair.1,
            Err(k) => r matches Err(e) && e.spec_kind() == k,
        },
{
    let offset: usize = match pagination.page_token() {
        None => 0,
        Some(t) => match parse_dec(t) {
            Some(n) => n,
            None => {
                return Err(CatalogError::malformed_pagination("Invalid page token"));
            },
        },
    };
    let limit: usize = match pagination.max_results() {
        Some(m) => m as usize,
        None => 500,
    };
    let mut items = items;
    let ghost orig = items@;
    let len = items.len();
    let start = if offset <= len {
        offset
    } else {
        len
    };
    let mut page_items = items.split_off(start);
    if limit < page_items.len() {
        proof {
            assert(offset + limit < len);
            assert(page_items@.subrange(0, limit as int) =~= orig.subrange(
                offset as int,
                offset as int + limit as int,
            ));
        }
        page_items.truncate(limit);
        let token = to_dec_string(offset + limit);
        Ok(Page::new(page_items, Some(token)))
    } else {
        Ok(Page::new(page_items, None))
    }
}

/// Taking the views of a page's items is the same as paginating the views.
pub proof fn lemma_deep_page_items<T: DeepView>(s: Seq<T>, off: nat, lim: nat)
    ensures
        deep_seq(spec_page_items(s, off, lim)) == spec_page_items(deep_seq(s), off, lim),
{
    assert(deep_seq(spec_page_items(s, off, lim)) =~= spec_page_items(deep_seq(s), off, lim));
}

/// Every page of a paginated listing, from offset `off` on, concatenated in
/// the order the continuation tokens produce them.
pub open spec fn spec_collect_pages<T>(items: Seq<T>, off: nat, lim: nat) -> Seq<T>
    decreases items.len() - off,
    when 1 <= lim && off <= items.len()
{
    if off + lim >= items.len() {
        spec_page_items(items, off, lim)
    } else {
        spec_page_items(items, off, lim) + spec_collect_pages(items, off + lim, lim)
    }
}

/// Pagination round-trip: for a page size of at least one, following every
/// continuation token until the final page yields the rest of the sequence
/// from the starting offset on, in order, with no duplicates and no
/// omissions. From offset zero this is the full sequence.
pub proof fn lemma_pagination_round_trip<T>(items: Seq<T>, off: nat, lim: nat)
    requires
        1 <= lim,
        off <= items.len(),
    ensures
        spec_collect_pages(items, off, lim) == items.skip(off as int),
    decreases items.len() - off,
{
    if off + lim >= items.len() {
        assert(spec_page_items(items, off, lim) =~= items.skip(off as int));
    } else {
        lemma_pagination_round_trip(items, off + lim, lim);
        assert(spec_page_items(items, off, lim) + items.skip((off + lim) as int) =~= items.skip(
            off as int,
        ));
    }
}

/// The continuation token of a non-final page is well-formed and resumes
/// exactly at the next offset, so the chain of pages modelled by
/// `spec_collect_pages` is the chain a caller walks by resubmitting each
/// returned token.
pub proof fn lemma_next_token_resumes(len: nat, off: nat, lim: nat)
    requires
        off + lim < len,
        len <= usize::MAX,
    ensures
        spec_next_token(len, off, lim) matches Some(t) && token_valid(t) && numeral_value(t)
            == off + lim,
{
    lemma_dec_round_trip(off + lim);
    let t = dec_seq(off + lim);
    assert(is_digit(t[0]));
    assert(t[0] != '+');
    assert(numeral_digits(t) == t);
}

/// Idempotence: the outcome of paginating is a function of the item
/// sequence and the request alone, so two calls with identical scope,
/// recipient filtering and pagination against an unchanged sequence return
/// identical pages.
pub proof fn lemma_paginate_idempotent<T>(
    items: Seq<T>,
    p: PaginationView,
    r1: Result<(Seq<T>, Option<Seq<char>>), CatalogErrorKind>,
    r2: Result<(Seq<T>, Option<Seq<char>>), CatalogErrorKind>,
)
    requires
        r1 == spec_paginate(items, p),
        r2 == spec_paginate(items, p),
    ensures
        r1 == r2,
{
}

/// Exhausted offset: a well-formed token whose value equals the sequence
/// length yields an empty page and no continuation token.
pub proof fn lemma_paginate_exhausted<T>(items: Seq<T>, p: PaginationView)
    requires
        pagination_ok(p),
        spec_offset(p) == items.len(),
    ensures
        spec_paginate(items, p) matches Ok(pair) && pair.0 == Seq::<T>::empty() && pair.1
            is None,
{
    assert(spec_page_items(items, spec_offset(p), spec_limit(p)) =~= Seq::<T>::empty());
}

} // verus!
