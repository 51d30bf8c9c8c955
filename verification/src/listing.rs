//! Paging, sorting and filtering of the tables.

use vstd::prelude::*;
use crate::model::{InstanceRole, User, UserLifecycle};
use crate::text;

verus! {

// ---- Sorting parameters ----------------------------------------------------------------------

/// Sortable column of the members table.
#[derive(Clone, Copy, Debug, PartialEq, Eq, Structural)]
pub enum SortColumn {
    Name,
    Role,
    Status,
    Joined,
}

#[derive(Clone, Copy, Debug, PartialEq, Eq, Structural)]
pub enum SortDirection {
    Asc,
    Desc,
}

#[derive(Clone, Copy, Debug, PartialEq, Eq, Structural)]
pub struct SortState {
    pub column: SortColumn,
    pub direction: SortDirection,
}

impl Default for SortState {
    /// By joining date, oldest first.
    fn default() -> (r: SortState)
        ensures
            r == (SortState { column: SortColumn::Joined, direction: SortDirection::Asc }),
    {
        SortState { column: SortColumn::Joined, direction: SortDirection::Asc }
    }
}

pub open spec fn sort_column_token(c: SortColumn) -> Seq<char> {
    match c {
        SortColumn::Name => "name"@,
        SortColumn::Role => "role"@,
        SortColumn::Status => "status"@,
        SortColumn::Joined => "joined"@,
    }
}

pub open spec fn sort_direction_token(d: SortDirection) -> Seq<char> {
    match d {
        SortDirection::Asc => "asc"@,
        SortDirection::Desc => "desc"@,
    }
}

impl SortColumn {
    /// URL token for `?sort=...`.
    pub fn as_str(self) -> (r: &'static str)
        ensures
            r@ == sort_column_token(self),
    {
        match self {
            SortColumn::Name => "name",
            SortColumn::Role => "role",
            SortColumn::Status => "status",
            SortColumn::Joined => "joined",
        }
    }
}

pub open spec fn flipped(d: SortDirection) -> SortDirection {
    match d {
        SortDirection::Asc => SortDirection::Desc,
        SortDirection::Desc => SortDirection::Asc,
    }
}

impl SortDirection {
    /// URL token for `?dir=...`.
    pub fn as_str(self) -> (r: &'static str)
        ensures
            r@ == sort_direction_token(self),
    {
        match self {
            SortDirection::Asc => "asc",
            SortDirection::Desc => "desc",
        }
    }

    /// The other direction.
    pub fn flip(self) -> (r: SortDirection)
        ensures
            r == flipped(self),
    {
        match self {
            SortDirection::Asc => SortDirection::Desc,
            SortDirection::Desc => SortDirection::Asc,
        }
    }
}

/// The column a `?sort=` token names; an unknown or missing token means the joining date.
pub open spec fn sort_column_of(token: Option<Seq<char>>) -> SortColumn {
    match token {
        Some(t) => if t == "name"@ {
            SortColumn::Name
        } else if t == "role"@ {
            SortColumn::Role
        } else if t == "status"@ {
            SortColumn::Status
        } else {
            SortColumn::Joined
        },
        None => SortColumn::Joined,
    }
}

pub fn parse_sort_column(s: Option<&str>) -> (r: SortColumn)
    ensures
        r == sort_column_of(text::opt(s)),
{
    match s {
        Some(t) => if text::same(t, "name") {
            SortColumn::Name
        } else if text::same(t, "role") {
            SortColumn::Role
        } else if text::same(t, "status") {
            SortColumn::Status
        } else {
            SortColumn::Joined
        },
        None => SortColumn::Joined,
    }
}

/// The direction a `?dir=` token names; anything but `desc` means ascending.
pub open spec fn sort_direction_of(token: Option<Seq<char>>) -> SortDirection {
    match token {
        Some(t) => if t == "desc"@ {
            SortDirection::Desc
        } else {
            SortDirection::Asc
        },
        None => SortDirection::Asc,
    }
}

pub fn parse_sort_direction(s: Option<&str>) -> (r: SortDirection)
    ensures
        r == sort_direction_of(text::opt(s)),
{
    match s {
        Some(t) => if text::same(t, "desc") {
            SortDirection::Desc
        } else {
            SortDirection::Asc
        },
        None => SortDirection::Asc,
    }
}

/// Flipping a direction twice gives it back.
pub proof fn law_flip_involution(d: SortDirection)
    ensures
        flipped(flipped(d)) == d,
        flipped(d) != d,
{
}

/// The sort tokens read back as what they were written for.
pub proof fn law_sort_tokens_round_trip(c: SortColumn, d: SortDirection)
    ensures
        sort_column_of(Some(sort_column_token(c))) == c,
        sort_direction_of(Some(sort_direction_token(d))) == d,
{
    reveal_strlit("name");
    reveal_strlit("role");
    reveal_strlit("status");
    reveal_strlit("joined");
    reveal_strlit("asc");
    reveal_strlit("desc");
    assert("name"@[0] == 'n' && "role"@[0] == 'r' && "status"@[0] == 's' && "joined"@[0] == 'j');
    assert("asc"@.len() != "desc"@.len());
}

// ---- Member filter ---------------------------------------------------------------------------

/// Filter of the members table.
#[derive(Clone, Copy, Debug, PartialEq, Eq, Structural)]
pub enum MemberFilter {
    All,
    Role(InstanceRole),
    Status(UserLifecycle),
}

pub open spec fn filter_token(f: MemberFilter) -> Seq<char> {
    match f {
        MemberFilter::All => "all"@,
        MemberFilter::Role(InstanceRole::Owner) => "role:owner"@,
        MemberFilter::Role(InstanceRole::Admin) => "role:admin"@,
        MemberFilter::Role(InstanceRole::Member) => "role:member"@,
        MemberFilter::Status(UserLifecycle::Active) => "status:active"@,
        MemberFilter::Status(UserLifecycle::PendingInvite) => "status:pending"@,
        MemberFilter::Status(UserLifecycle::Deactivated) => "status:deactivated"@,
        MemberFilter::Status(UserLifecycle::Anonymized) => "status:anonymized"@,
    }
}

/// The filter a `?filter=` token names; an unknown token means no filter.
pub open spec fn filter_of(token: Seq<char>) -> MemberFilter {
    if token == "role:owner"@ {
        MemberFilter::Role(InstanceRole::Owner)
    } else if token == "role:admin"@ {
        MemberFilter::Role(InstanceRole::Admin)
    } else if token == "role:member"@ {
        MemberFilter::Role(InstanceRole::Member)
    } else if token == "status:active"@ {
        MemberFilter::Status(UserLifecycle::Active)
    } else if token == "status:pending"@ {
        MemberFilter::Status(UserLifecycle::PendingInvite)
    } else if token == "status:deactivated"@ {
        MemberFilter::Status(UserLifecycle::Deactivated)
    } else if token == "status:anonymized"@ {
        MemberFilter::Status(UserLifecycle::Anonymized)
    } else {
        MemberFilter::All
    }
}

pub open spec fn filter_label(f: MemberFilter) -> Seq<char> {
    match f {
        MemberFilter::All => "View all"@,
        MemberFilter::Role(InstanceRole::Owner) => "Owners"@,
        MemberFilter::Role(InstanceRole::Admin) => "Admins"@,
        MemberFilter::Role(InstanceRole::Member) => "Members"@,
        MemberFilter::Status(UserLifecycle::Active) => "Active"@,
        MemberFilter::Status(UserLifecycle::PendingInvite) => "Pending invite"@,
        MemberFilter::Status(UserLifecycle::Deactivated) => "Deactivated"@,
        MemberFilter::Status(UserLifecycle::Anonymized) => "Anonymized"@,
    }
}

impl MemberFilter {
    /// URL token for `?filter=...`.
    pub fn as_str(self) -> (r: &'static str)
        ensures
            r@ == filter_token(self),
    {
        match self {
            MemberFilter::All => "all",
            MemberFilter::Role(InstanceRole::Owner) => "role:owner",
            MemberFilter::Role(InstanceRole::Admin) => "role:admin",
            MemberFilter::Role(InstanceRole::Member) => "role:member",
            MemberFilter::Status(UserLifecycle::Active) => "status:active",
            MemberFilter::Status(UserLifecycle::PendingInvite) => "status:pending",
            MemberFilter::Status(UserLifecycle::Deactivated) => "status:deactivated",
            MemberFilter::Status(UserLifecycle::Anonymized) => "status:anonymized",
        }
    }

    /// Reads a `?filter=...` token.
    pub fn parse_token(s: &str) -> (r: MemberFilter)
        ensures
            r == filter_of(s@),
    {
        if text::same(s, "role:owner") {
            MemberFilter::Role(InstanceRole::Owner)
        } else if text::same(s, "role:admin") {
            MemberFilter::Role(InstanceRole::Admin)
        } else if text::same(s, "role:member") {
            MemberFilter::Role(InstanceRole::Member)
        } else if text::same(s, "status:active") {
            MemberFilter::Status(UserLifecycle::Active)
        } else if text::same(s, "status:pending") {
            MemberFilter::Status(UserLifecycle::PendingInvite)
        } else if text::same(s, "status:deactivated") {
            MemberFilter::Status(UserLifecycle::Deactivated)
        } else if text::same(s, "status:anonymized") {
            MemberFilter::Status(UserLifecycle::Anonymized)
        } else {
            MemberFilter::All
        }
    }

    /// Human-readable label.
    pub fn label(self) -> (r: &'static str)
        ensures
            r@ == filter_label(self),
    {
        match self {
            MemberFilter::All => "View all",
            MemberFilter::Role(InstanceRole::Owner) => "Owners",
            MemberFilter::Role(InstanceRole::Admin) => "Admins",
            MemberFilter::Role(InstanceRole::Member) => "Members",
            MemberFilter::Status(UserLifecycle::Active) => "Active",
            MemberFilter::Status(UserLifecycle::PendingInvite) => "Pending invite",
            MemberFilter::Status(UserLifecycle::Deactivated) => "Deactivated",
            MemberFilter::Status(UserLifecycle::Anonymized) => "Anonymized",
        }
    }
}

impl Default for MemberFilter {
    fn default() -> (r: MemberFilter)
        ensures
            r == MemberFilter::All,
    {
        MemberFilter::All
    }
}

/// Every filter reads back from its token.
pub proof fn law_filter_token_round_trip(f: MemberFilter)
    ensures
        filter_of(filter_token(f)) == f,
{
    reveal_strlit("all");
    reveal_strlit("role:owner");
    reveal_strlit("role:admin");
    reveal_strlit("role:member");
    reveal_strlit("status:active");
    reveal_strlit("status:pending");
    reveal_strlit("status:deactivated");
    reveal_strlit("status:anonymized");
    // The tokens differ in length, but for two that differ behind the colon.
    assert("all"@.len() == 3 && "role:owner"@.len() == 10 && "role:admin"@.len() == 10);
    assert("role:member"@.len() == 11 && "status:active"@.len() == 13);
    assert("status:pending"@.len() == 14 && "status:deactivated"@.len() == 18);
    assert("status:anonymized"@.len() == 17);
    assert("role:owner"@[5] == 'o' && "role:admin"@[5] == 'a');
}

/// The filter of a request: that of its token, or none.
pub open spec fn requested_filter(token: Option<Seq<char>>) -> MemberFilter {
    match token {
        Some(t) => filter_of(t),
        None => MemberFilter::All,
    }
}

pub fn filter_from_query(token: Option<&str>) -> (r: MemberFilter)
    ensures
        r == requested_filter(text::opt(token)),
{
    match token {
        Some(t) => MemberFilter::parse_token(t),
        None => MemberFilter::All,
    }
}

/// Which accounts a filter asks the store for.
#[derive(Clone, Copy, Debug, PartialEq, Eq, Structural)]
pub enum MemberFetch {
    /// None: only invitations are shown.
    Nothing,
    /// The accounts of the unfiltered listing.
    Listed,
    /// The accounts in one state.
    InLifecycle(UserLifecycle),
}

pub open spec fn member_fetch_of(f: MemberFilter) -> MemberFetch {
    match f {
        MemberFilter::Status(UserLifecycle::PendingInvite) => MemberFetch::Nothing,
        MemberFilter::Status(lc) => MemberFetch::InLifecycle(lc),
        _ => MemberFetch::Listed,
    }
}

/// What to fetch for a filter.
pub fn member_fetch(f: MemberFilter) -> (r: MemberFetch)
    ensures
        r == member_fetch_of(f),
{
    match f {
        MemberFilter::Status(UserLifecycle::PendingInvite) => MemberFetch::Nothing,
        MemberFilter::Status(lc) => MemberFetch::InLifecycle(lc),
        _ => MemberFetch::Listed,
    }
}

pub open spec fn shows_invitations(f: MemberFilter) -> bool {
    f == MemberFilter::All || f == MemberFilter::Status(UserLifecycle::PendingInvite)
}

/// Whether open invitations are listed under a filter.
pub fn fetches_invitations(f: MemberFilter) -> (r: bool)
    ensures
        r == shows_invitations(f),
{
    match f {
        MemberFilter::All => true,
        MemberFilter::Status(UserLifecycle::PendingInvite) => true,
        _ => false,
    }
}

pub open spec fn passes_filter(u: User, f: MemberFilter) -> bool {
    match f {
        MemberFilter::Role(role) => u.instance_role == role,
        _ => true,
    }
}

/// Keeps the accounts that a role filter names, in their order.
pub fn retain_by_role(users: Vec<User>, f: MemberFilter) -> (r: Vec<User>)
    ensures
        r@ == users@.filter(|u: User| passes_filter(u, f)),
{
    let mut rest = users;
    let mut back: Vec<User> = Vec::new();
    let ghost keep = |u: User| passes_filter(u, f);
    let ghost all = rest@;
    while rest.len() > 0
        invariant
            rest@.len() <= all.len(),
            rest@ == all.take(rest@.len() as int),
            back@.reverse() == all.skip(rest@.len() as int).filter(keep),
            keep == (|u: User| passes_filter(u, f)),
        decreases rest@.len(),
    {
        let ghost n = rest@.len() as int;
        let u = rest.pop().unwrap();
        let ghost tail = all.skip(n);
        proof {
            assert(all.skip(n - 1) =~= seq![u] + tail);
            Seq::filter_distributes_over_add(seq![u], tail, keep);
            lemma_filter_one(u, keep);
        }
        let kept: bool = match f {
            MemberFilter::Role(role) => u.instance_role == role,
            _ => true,
        };
        if kept {
            let ghost prev = back@;
            back.push(u);
            assert(back@.reverse() =~= seq![u] + prev.reverse());
        } else {
            assert(seq![u].filter(keep) + tail.filter(keep) =~= tail.filter(keep));
        }
    }
    assert(all.skip(0) =~= all);
    reverse(back)
}

pub proof fn lemma_filter_one<A>(u: A, keep: spec_fn(A) -> bool)
    ensures
        seq![u].filter(keep) == (if keep(u) {
            seq![u]
        } else {
            Seq::empty()
        }),
{
    reveal(Seq::filter);
    assert(seq![u].drop_last() =~= Seq::<A>::empty());
    assert(Seq::<A>::empty().filter(keep) =~= Seq::<A>::empty());
}

pub(crate) fn reverse<T>(v: Vec<T>) -> (r: Vec<T>)
    ensures
        r@ == v@.reverse(),
{
    let mut rest = v;
    let mut out: Vec<T> = Vec::new();
    let ghost all = rest@;
    while rest.len() > 0
        invariant
            rest@ == all.take(rest@.len() as int),
            rest@.len() <= all.len(),
            out@ == all.reverse().take(all.len() - rest@.len()),
        decreases rest@.len(),
    {
        let u = rest.pop().unwrap();
        out.push(u);
        assert(out@ =~= all.reverse().take(all.len() - rest@.len()));
    }
    assert(out@ =~= all.reverse());
    out
}

// ---- Paging ----------------------------------------------------------------------------------

pub const DEFAULT_ROWS_PER_PAGE: u32 = 10;

/// The page sizes a table offers.
pub open spec fn rows_per_page_options() -> Seq<u32> {
    seq![10, 25, 50, 100]
}

/// The page sizes a table offers.
pub fn rows_options() -> (r: Vec<u32>)
    ensures
        r@ == rows_per_page_options(),
{
    let r: Vec<u32> = vec![10, 25, 50, 100];
    assert(r@ =~= rows_per_page_options());
    r
}

/// The page size of a request: the one asked for where it is offered, else the default.
pub open spec fn rows_per_page_of(asked: Option<u32>) -> u32 {
    match asked {
        Some(n) => if rows_per_page_options().contains(n) {
            n
        } else {
            DEFAULT_ROWS_PER_PAGE
        },
        None => DEFAULT_ROWS_PER_PAGE,
    }
}

pub fn parse_rows_per_page(s: Option<u32>) -> (r: u32)
    ensures
        r == rows_per_page_of(s),
        10 <= r <= 100,
{
    proof {
        let o = rows_per_page_options();
        assert(o[0] == 10 && o[1] == 25 && o[2] == 50 && o[3] == 100);
    }
    match s {
        Some(n) => if n == 10 || n == 25 || n == 50 || n == 100 {
            n
        } else {
            DEFAULT_ROWS_PER_PAGE
        },
        None => DEFAULT_ROWS_PER_PAGE,
    }
}

/// Where a table stands in its pages.
#[derive(Clone, Copy, Debug, PartialEq, Eq, Structural)]
pub struct PaginationState {
    pub current_page: u32,
    pub total_pages: u32,
    pub rows_per_page: u32,
    pub total_rows: u32,
}

/// Number of pages that hold `total` rows: at least one.
pub open spec fn page_count(total: int, rows: int) -> int {
    if total == 0 {
        1
    } else {
        (total + rows - 1) / rows
    }
}

/// The page shown for a requested one: the nearest that exists, the first by default.
pub open spec fn shown_page(asked: Option<u32>, pages: int) -> int {
    match asked {
        Some(p) => if p < 1 {
            1
        } else if p > pages {
            pages
        } else {
            p as int
        },
        None => 1,
    }
}

/// The paging of a table of `total` rows for a requested page and page size.
pub open spec fn pagination_of(total: u32, asked_page: Option<u32>, asked_rows: Option<u32>) -> PaginationState {
    let rows = rows_per_page_of(asked_rows);
    let pages = page_count(total as int, rows as int);
    PaginationState {
        current_page: shown_page(asked_page, pages) as u32,
        total_pages: pages as u32,
        rows_per_page: rows,
        total_rows: total,
    }
}

/// Index of the first row of the shown page.
pub open spec fn first_row(p: PaginationState) -> int {
    (p.current_page - 1) * p.rows_per_page
}

/// Index behind the last row of the shown page.
pub open spec fn end_row(p: PaginationState) -> int {
    if first_row(p) + p.rows_per_page < p.total_rows {
        first_row(p) + p.rows_per_page
    } else {
        p.total_rows as int
    }
}

proof fn lemma_page_count(total: int, rows: int)
    requires
        0 <= total,
        1 <= rows,
    ensures
        1 <= page_count(total, rows),
        total > 0 ==> page_count(total, rows) <= total,
        total > 0 ==> (page_count(total, rows) - 1) * rows < total,
        total <= page_count(total, rows) * rows,
{
    if total > 0 {
        let q = (total + rows - 1) / rows;
        vstd::arithmetic::div_mod::lemma_fundamental_div_mod(total + rows - 1, rows);
        let r = (total + rows - 1) % rows;
        assert(rows * q + r == total + rows - 1);
        assert((q - 1) * rows == rows * q - rows) by (nonlinear_arith);
        assert(q * rows == rows * q) by (nonlinear_arith);
        assert(q >= 1) by (nonlinear_arith)
            requires
                rows * q + r == total + rows - 1,
                0 <= r < rows,
                total > 0,
                rows >= 1,
        ;
        assert(q <= total) by (nonlinear_arith)
            requires
                rows * q + r == total + rows - 1,
                0 <= r,
                total > 0,
                rows >= 1,
                q >= 1,
        {
            if q > total {
                assert(rows * q >= rows * (total + 1));
                assert(rows * (total + 1) == rows * total + rows);
                assert(rows * total >= total);
            }
        }
    }
}

/// The paging of a table.
pub fn paginate(total: u32, asked_page: Option<u32>, asked_rows: Option<u32>) -> (r: PaginationState)
    ensures
        r == pagination_of(total, asked_page, asked_rows),
        1 <= r.current_page <= r.total_pages,
        10 <= r.rows_per_page <= 100,
        r.current_page < u32::MAX,
{
    let rows: u32 = parse_rows_per_page(asked_rows);
    proof {
        lemma_page_count(total as int, rows as int);
    }
    let pages: u32 = if total == 0 {
        1
    } else {
        ((total as u64 + rows as u64 - 1) / rows as u64) as u32
    };
    let page: u32 = match asked_page {
        Some(p) => if p < 1 {
            1
        } else if p > pages {
            pages
        } else {
            p
        },
        None => 1,
    };
    proof {
        assert((pages - 1) * rows >= (pages - 1) * 10) by (nonlinear_arith)
            requires
                rows >= 10,
                pages >= 1,
        ;
    }
    PaginationState { current_page: page, total_pages: pages, rows_per_page: rows, total_rows: total }
}

/// The shown page lies inside the table: it starts at a row of it (or at its end where it is
/// empty), ends in it, and holds no more rows than the page size.
pub proof fn law_page_in_table(total: u32, asked_page: Option<u32>, asked_rows: Option<u32>)
    ensures
        ({
            let p = pagination_of(total, asked_page, asked_rows);
            &&& 1 <= p.current_page <= p.total_pages
            &&& 0 <= first_row(p) <= end_row(p) <= total
            &&& end_row(p) - first_row(p) <= p.rows_per_page
            &&& total > 0 ==> first_row(p) < end_row(p)
        }),
{
    let rows = rows_per_page_of(asked_rows);
    let o = rows_per_page_options();
    assert(o[0] == 10 && o[1] == 25 && o[2] == 50 && o[3] == 100);
    lemma_page_count(total as int, rows as int);
    let pages = page_count(total as int, rows as int);
    let page = shown_page(asked_page, pages);
    assert(0 <= (page - 1) * rows <= (pages - 1) * rows) by (nonlinear_arith)
        requires
            1 <= page <= pages,
            rows >= 1,
    ;
    let p = pagination_of(total, asked_page, asked_rows);
    assert(p.current_page == page && p.total_pages == pages);
    if total == 0 {
        assert((page - 1) * rows == 0) by (nonlinear_arith)
            requires
                page == 1,
        ;
    }
}

/// Every row stands on exactly one page: it is shown where, and only where, the page it falls on
/// is asked for.
pub proof fn law_pages_partition_rows(total: u32, asked_rows: Option<u32>, row: int, page: u32)
    requires
        0 <= row < total,
        1 <= page <= page_count(total as int, rows_per_page_of(asked_rows) as int),
    ensures
        ({
            let p = pagination_of(total, Some(page), asked_rows);
            first_row(p) <= row < end_row(p) <==> page == row / rows_per_page_of(asked_rows) as int + 1
        }),
{
    let rows = rows_per_page_of(asked_rows);
    let o = rows_per_page_options();
    assert(o[0] == 10 && o[1] == 25 && o[2] == 50 && o[3] == 100);
    lemma_page_count(total as int, rows as int);
    let p = pagination_of(total, Some(page), asked_rows);
    assert(p.current_page == page);
    let k = (page - 1) as int;
    let q = row / rows as int;
    vstd::arithmetic::div_mod::lemma_fundamental_div_mod(row, rows as int);
    let r = row % rows as int;
    assert(k * rows <= row < k * rows + rows <==> k == q) by (nonlinear_arith)
        requires
            rows as int * q + r == row,
            0 <= r < rows,
    ;
}

/// A counter of the store as a number of rows: negative counts mean none, and only the low
/// 32 bits are kept.
pub fn row_count(n: i64) -> (r: u32)
    ensures
        r == (if n < 0 {
            0u32
        } else {
            n as u32
        }),
{
    if n < 0 {
        0
    } else {
        #[verifier::truncate]
        (n as u32)
    }
}

/// One slot of the page-number row.
#[derive(Clone, Copy, Debug, PartialEq, Eq, Structural)]
pub enum PageItem {
    Number(u32),
    Ellipsis,
}

/// The page-number row: every page up to seven; beyond that the first and the last page and
/// those around the current one, with an ellipsis for each gap.
pub open spec fn page_slots(current: u32, total: u32) -> Seq<PageItem> {
    if total == 0 {
        seq![PageItem::Number(1)]
    } else if total <= 7 {
        Seq::new(total as nat, |i: int| PageItem::Number((i + 1) as u32))
    } else if current <= 4 {
        seq![
            PageItem::Number(1),
            PageItem::Number(2),
            PageItem::Number(3),
            PageItem::Number(4),
            PageItem::Number(5),
            PageItem::Ellipsis,
            PageItem::Number(total),
        ]
    } else if current >= total - 3 {
        seq![
            PageItem::Number(1),
            PageItem::Ellipsis,
            PageItem::Number((total - 4) as u32),
            PageItem::Number((total - 3) as u32),
            PageItem::Number((total - 2) as u32),
            PageItem::Number((total - 1) as u32),
            PageItem::Number(total),
        ]
    } else {
        seq![
            PageItem::Number(1),
            PageItem::Ellipsis,
            PageItem::Number((current - 1) as u32),
            PageItem::Number(current),
            PageItem::Number((current + 1) as u32),
            PageItem::Ellipsis,
            PageItem::Number(total),
        ]
    }
}

pub fn page_items(current: u32, total: u32) -> (items: Vec<PageItem>)
    ensures
        items@ == page_slots(current, total),
{
    let mut items: Vec<PageItem> = Vec::new();
    if total == 0 {
        items.push(PageItem::Number(1));
    } else if total <= 7 {
        let mut p: u32 = 1;
        while p <= total
            invariant
                1 <= p <= total + 1,
                total <= 7,
                items@ == Seq::new((p - 1) as nat, |i: int| PageItem::Number((i + 1) as u32)),
            decreases total + 1 - p,
        {
            items.push(PageItem::Number(p));
            p += 1;
            assert(items@ =~= Seq::new((p - 1) as nat, |i: int| PageItem::Number((i + 1) as u32)));
        }
    } else if current <= 4 {
        items.push(PageItem::Number(1));
        items.push(PageItem::Number(2));
        items.push(PageItem::Number(3));
        items.push(PageItem::Number(4));
        items.push(PageItem::Number(5));
        items.push(PageItem::Ellipsis);
        items.push(PageItem::Number(total));
    } else if current >= total - 3 {
        items.push(PageItem::Number(1));
        items.push(PageItem::Ellipsis);
        items.push(PageItem::Number(total - 4));
        items.push(PageItem::Number(total - 3));
        items.push(PageItem::Number(total - 2));
        items.push(PageItem::Number(total - 1));
        items.push(PageItem::Number(total));
    } else {
        items.push(PageItem::Number(1));
        items.push(PageItem::Ellipsis);
        items.push(PageItem::Number(current - 1));
        items.push(PageItem::Number(current));
        items.push(PageItem::Number(current + 1));
        items.push(PageItem::Ellipsis);
        items.push(PageItem::Number(total));
    }
    assert(items@ =~= page_slots(current, total));
    items
}

/// Whether a slot shows no page but one of `total` pages.
pub open spec fn slot_in_range(item: PageItem, total: u32) -> bool {
    item matches PageItem::Number(n) ==> 1 <= n <= total
}

/// Whether two page numbers ascend.
pub open spec fn slots_ascend(a: PageItem, b: PageItem) -> bool {
    match (a, b) {
        (PageItem::Number(m), PageItem::Number(n)) => m < n,
        _ => true,
    }
}

/// The page-number row has at most seven slots, and exactly seven where there are more pages
/// than that.
pub proof fn law_page_slots_bounded(current: u32, total: u32)
    ensures
        1 <= page_slots(current, total).len() <= 7,
        total >= 7 ==> page_slots(current, total).len() == 7,
{
}

/// The page-number row starts with page one, ends with the last page and holds the current page;
/// its page numbers exist and ascend.
pub proof fn law_page_slots_navigate(current: u32, total: u32)
    requires
        1 <= current <= total,
    ensures
        page_slots(current, total).first() == PageItem::Number(1),
        page_slots(current, total).last() == PageItem::Number(total),
        page_slots(current, total).contains(PageItem::Number(current)),
        forall|i: int|
            0 <= i < page_slots(current, total).len() ==> slot_in_range(
                #[trigger] page_slots(current, total)[i],
                total,
            ),
        forall|i: int, j: int|
            0 <= i < j < page_slots(current, total).len() ==> slots_ascend(
                #[trigger] page_slots(current, total)[i],
                #[trigger] page_slots(current, total)[j],
            ),
{
    let s = page_slots(current, total);
    if total <= 7 {
        assert(s[current - 1] == PageItem::Number(current));
    } else if current <= 4 {
        assert(s[current - 1] == PageItem::Number(current));
    } else if current >= total - 3 {
        assert(s[6 - (total - current)] == PageItem::Number(current));
    } else {
        assert(s[3] == PageItem::Number(current));
    }
}

/// A list, or the empty one where it could not be looked up.
pub open spec fn or_none<T>(list: Option<Vec<T>>) -> Seq<T> {
    match list {
        Some(items) => items@,
        None => Seq::empty(),
    }
}

pub(crate) fn or_empty<T>(list: Option<Vec<T>>) -> (r: Vec<T>)
    ensures
        r@ == or_none(list),
{
    match list {
        Some(items) => items,
        None => Vec::new(),
    }
}

} // verus!
