//! Listing identifiers page by page.

use vstd::prelude::*;
use crate::datalith_errors::DatalithReadError;
use crate::datalith_errors::IoErrorKind;
use crate::datalith_errors::SqlErrorKind;
use crate::operation::Operation;
use crate::step::ListOrder;
use crate::step::ListWindow;
use crate::step::Reply;
use crate::step::ReplyView;
use crate::step::Statement;
use crate::step::StatementView;
use crate::step::Step;
use crate::step::StepView;

verus! {

/// Where a page lies among the pages of a listing.
#[derive(Clone, Copy, Debug, PartialEq, Eq, Structural)]
pub struct Pagination {
    /// The number of the page, from one.
    pub page: usize,
    pub total_pages: usize,
    /// The number of items on a page; zero puts all items on one page.
    pub items_per_page: usize,
    pub total_items: usize,
}

/// The number of pages that a number of items fills.
pub open spec fn total_pages_of(items_per_page: usize, total_items: usize) -> int {
    if items_per_page == 0 {
        1
    } else if items_per_page == 1 {
        total_items as int
    } else if total_items % items_per_page == 0 {
        (total_items / items_per_page) as int
    } else {
        total_items / items_per_page + 1
    }
}

/// The page that a page number stands for: the first page for zero and
/// where there is no page, the last page for a number beyond it.
pub open spec fn normal_page(page: usize, total_pages: int) -> int {
    if page == 0 || total_pages == 0 {
        1
    } else if page > total_pages {
        total_pages
    } else {
        page as int
    }
}

/// The place of a page among the pages of a listing.
pub open spec fn pagination_of(items_per_page: usize, total_items: usize, page: usize) -> Pagination {
    let total_pages = total_pages_of(items_per_page, total_items);
    Pagination {
        page: normal_page(page, total_pages) as usize,
        total_pages: total_pages as usize,
        items_per_page,
        total_items,
    }
}

/// Works out where a page lies among the pages of a listing.
///
/// Trusted: wraps `rdb_pagination::Pagination` (`new`, `items_per_page`,
/// `total_items`, `page`, and the four getters). The number of pages is one
/// where all items go on one page, and else the number of items divided by the
/// items per page, rounded up; the page is brought into the range of the
/// pages.
#[verifier::external_body]
pub(crate) fn paginate(items_per_page: usize, total_items: usize, page: usize) -> (r: Pagination)
    ensures
        r == pagination_of(items_per_page, total_items, page),
{
    let p = rdb_pagination::Pagination::new().items_per_page(items_per_page).total_items(
        total_items,
    ).page(page);
    Pagination {
        page: p.get_page(),
        total_pages: p.get_total_pages(),
        items_per_page: p.get_items_per_page(),
        total_items: p.get_total_items(),
    }
}

/// What is listed.
#[derive(Clone, Copy, Debug, PartialEq, Eq, Structural)]
pub enum ListKind {
    /// The files that are live.
    Files,
    Resources,
    Images,
}

/// Which page of a listing is asked for, and in which order.
#[derive(Clone, Copy, Debug, PartialEq, Eq, Structural)]
pub struct PaginationOptions {
    /// The number of the page, from one.
    pub page: usize,
    /// The number of items on a page; zero puts all items on one page.
    pub items_per_page: usize,
    pub order_by: ListOrder,
}

/// The order in which identifiers are listed unless another is asked for:
/// newest first, then by identifier.
pub open spec fn default_order() -> ListOrder {
    ListOrder {
        id: 102i8,
        created_at: (-101) as i8,
        expired_at: 0i8,
        file_size: 0i8,
        file_type: 0i8,
        file_name: 0i8,
    }
}

/// The columns by which files are listed, each with its direction and
/// rank, as in `ListOrder`.
#[derive(Clone, Copy, Debug, PartialEq, Eq, Structural)]
pub struct DatalithFileOrderBy {
    pub id: i8,
    pub created_at: i8,
    pub expired_at: i8,
    pub file_size: i8,
    pub file_type: i8,
    pub file_name: i8,
}

impl Default for DatalithFileOrderBy {
    /// Newest first, then by identifier.
    fn default() -> (r: DatalithFileOrderBy)
        ensures
            r.order_spec() == default_order(),
    {
        DatalithFileOrderBy {
            id: 102,
            created_at: -101,
            expired_at: 0,
            file_size: 0,
            file_type: 0,
            file_name: 0,
        }
    }
}

impl DatalithFileOrderBy {
    /// The order of a listing by these columns.
    pub open spec fn order_spec(self) -> ListOrder {
        ListOrder {
            id: self.id,
            created_at: self.created_at,
            expired_at: self.expired_at,
            file_size: self.file_size,
            file_type: self.file_type,
            file_name: self.file_name,
        }
    }

    /// Gives the order of a listing by these columns.
    pub fn order(&self) -> (r: ListOrder)
        ensures
            r == self.order_spec(),
    {
        ListOrder {
            id: self.id,
            created_at: self.created_at,
            expired_at: self.expired_at,
            file_size: self.file_size,
            file_type: self.file_type,
            file_name: self.file_name,
        }
    }
}

/// The columns by which resources are listed, each with its direction and
/// rank, as in `ListOrder`.
#[derive(Clone, Copy, Debug, PartialEq, Eq, Structural)]
pub struct DatalithResourceOrderBy {
    pub id: i8,
    pub created_at: i8,
}

impl Default for DatalithResourceOrderBy {
    /// Newest first, then by identifier.
    fn default() -> (r: DatalithResourceOrderBy)
        ensures
            r.order_spec() == default_order(),
    {
        DatalithResourceOrderBy { id: 102, created_at: -101 }
    }
}

impl DatalithResourceOrderBy {
    /// The order of a listing by these columns.
    pub open spec fn order_spec(self) -> ListOrder {
        ListOrder {
            id: self.id,
            created_at: self.created_at,
            expired_at: 0i8,
            file_size: 0i8,
            file_type: 0i8,
            file_name: 0i8,
        }
    }

    /// Gives the order of a listing by these columns.
    pub fn order(&self) -> (r: ListOrder)
        ensures
            r == self.order_spec(),
    {
        ListOrder {
            id: self.id,
            created_at: self.created_at,
            expired_at: 0,
            file_size: 0,
            file_type: 0,
            file_name: 0,
        }
    }
}

/// The columns by which images are listed, each with its direction and
/// rank, as in `ListOrder`.
#[derive(Clone, Copy, Debug, PartialEq, Eq, Structural)]
pub struct DatalithImageOrderBy {
    pub id: i8,
    pub created_at: i8,
}

impl Default for DatalithImageOrderBy {
    /// Newest first, then by identifier.
    fn default() -> (r: DatalithImageOrderBy)
        ensures
            r.order_spec() == default_order(),
    {
        DatalithImageOrderBy { id: 102, created_at: -101 }
    }
}

impl DatalithImageOrderBy {
    /// The order of a listing by these columns.
    pub open spec fn order_spec(self) -> ListOrder {
        ListOrder {
            id: self.id,
            created_at: self.created_at,
            expired_at: 0i8,
            file_size: 0i8,
            file_type: 0i8,
            file_name: 0i8,
        }
    }

    /// Gives the order of a listing by these columns.
    pub fn order(&self) -> (r: ListOrder)
        ensures
            r == self.order_spec(),
    {
        ListOrder {
            id: self.id,
            created_at: self.created_at,
            expired_at: 0,
            file_size: 0,
            file_type: 0,
            file_name: 0,
        }
    }
}

impl PaginationOptions {
    /// The first page of a listing, all items on it, in the default order.
    pub fn new() -> (r: PaginationOptions)
        ensures
            r == (PaginationOptions { page: 1, items_per_page: 0, order_by: default_order() }),
    {
        PaginationOptions {
            page: 1,
            items_per_page: 0,
            order_by: ListOrder {
                id: 102,
                created_at: -101,
                expired_at: 0,
                file_size: 0,
                file_type: 0,
                file_name: 0,
            },
        }
    }

    /// The rows to select for the page: none are skipped where all items go
    /// on one page or the page is the first; else as many as the pages before
    /// hold, as far as a count of 64 bits holds the number.
    pub open spec fn window_spec(self) -> ListWindow {
        let offset = if self.items_per_page == 0 || self.page <= 1 {
            0
        } else {
            self.items_per_page * (self.page - 1)
        };
        ListWindow {
            order: self.order_by,
            limit: self.items_per_page as u64,
            offset: if offset > u64::MAX {
                u64::MAX
            } else {
                offset as u64
            },
        }
    }

    /// Works out the rows to select for the page.
    pub fn window(&self) -> (r: ListWindow)
        ensures
            r == self.window_spec(),
    {
        let offset: u64 = if self.items_per_page == 0 || self.page <= 1 {
            0
        } else {
            let a: u128 = self.items_per_page as u128;
            let b: u128 = (self.page - 1) as u128;
            assert(a * b <= 0xffff_ffff_ffff_ffff * 0xffff_ffff_ffff_ffff) by (nonlinear_arith)
                requires
                    a <= 0xffff_ffff_ffff_ffff,
                    b <= 0xffff_ffff_ffff_ffff,
            ;
            let product: u128 = a * b;
            if product > u64::MAX as u128 {
                u64::MAX
            } else {
                product as u64
            }
        };
        ListWindow { order: self.order_by, limit: self.items_per_page as u64, offset }
    }
}

/// A page of identifiers with its place in the listing.
pub struct Page {
    pub ids: Vec<u128>,
    pub pagination: Pagination,
}

/// The mathematical value of a page.
pub struct PageView {
    pub ids: Seq<u128>,
    pub pagination: Pagination,
}

impl View for Page {
    type V = PageView;

    open spec fn view(&self) -> PageView {
        PageView { ids: self.ids@, pagination: self.pagination }
    }
}

/// The mathematical value of the result of a listing.
pub open spec fn page_result_view(r: Result<Page, DatalithReadError>) -> Result<
    PageView,
    DatalithReadError,
> {
    match r {
        Ok(page) => Ok(page@),
        Err(e) => Err(e),
    }
}

/// Listing a page of identifiers. The items are counted and the page is
/// selected within one transaction. Where a page beyond the last is asked
/// for, the last page is selected instead, once.
pub enum ListIds {
    /// Asked to open a transaction.
    Beginning { kind: ListKind, options: PaginationOptions, now: i64, retried: bool },
    /// Asked for the number of items.
    Counting { kind: ListKind, options: PaginationOptions, now: i64, retried: bool },
    /// Asked for the page.
    Selecting { kind: ListKind, options: PaginationOptions, now: i64, retried: bool, total: usize },
    /// Asked to end the transaction.
    Ending {
        kind: ListKind,
        options: PaginationOptions,
        now: i64,
        retried: bool,
        total: usize,
        ids: Vec<u128>,
    },
    /// Asked to end the transaction after a failure.
    Failing { error: DatalithReadError },
    /// Ended.
    Finished,
}

/// The mathematical value of the state of a listing.
pub enum ListIdsView {
    Beginning { kind: ListKind, options: PaginationOptions, now: i64, retried: bool },
    Counting { kind: ListKind, options: PaginationOptions, now: i64, retried: bool },
    Selecting { kind: ListKind, options: PaginationOptions, now: i64, retried: bool, total: usize },
    Ending {
        kind: ListKind,
        options: PaginationOptions,
        now: i64,
        retried: bool,
        total: usize,
        ids: Seq<u128>,
    },
    Failing { error: DatalithReadError },
    Finished,
}

impl View for ListIds {
    type V = ListIdsView;

    open spec fn view(&self) -> ListIdsView {
        match *self {
            ListIds::Beginning { kind, options, now, retried } => ListIdsView::Beginning {
                kind,
                options,
                now,
                retried,
            },
            ListIds::Counting { kind, options, now, retried } => ListIdsView::Counting {
                kind,
                options,
                now,
                retried,
            },
            ListIds::Selecting { kind, options, now, retried, total } => ListIdsView::Selecting {
                kind,
                options,
                now,
                retried,
                total,
            },
            ListIds::Ending { kind, options, now, retried, total, ids } => ListIdsView::Ending {
                kind,
                options,
                now,
                retried,
                total,
                ids: ids@,
            },
            ListIds::Failing { error } => ListIdsView::Failing { error },
            ListIds::Finished => ListIdsView::Finished,
        }
    }
}

/// A state of a listing and the request it waits on, as mathematical
/// values.
pub type ListTurn = (ListIdsView, StepView<Result<PageView, DatalithReadError>>);

/// The statement that counts the items of a kind.
pub open spec fn count_statement(kind: ListKind) -> StatementView {
    match kind {
        ListKind::Files => StatementView::CountFiles,
        ListKind::Resources => StatementView::CountResources,
        ListKind::Images => StatementView::CountImages,
    }
}

/// The statement that selects a window of the items of a kind.
pub open spec fn select_statement(kind: ListKind, now: i64, window: ListWindow) -> StatementView {
    match kind {
        ListKind::Files => StatementView::SelectLiveFileIds { now, window },
        ListKind::Resources => StatementView::SelectResourceIds { window },
        ListKind::Images => StatementView::SelectImageIds { window },
    }
}

/// The number of items that a count stands for, as far as the size of the
/// machine holds it.
pub open spec fn total_of(count: u64) -> usize {
    if count > usize::MAX {
        usize::MAX
    } else {
        count as usize
    }
}

impl ListIdsView {
    /// The first state and request of a listing.
    pub open spec fn begin(kind: ListKind, options: PaginationOptions, now: i64, retried: bool) -> ListTurn {
        (
            ListIdsView::Beginning { kind, options, now, retried },
            StepView::Query(StatementView::Begin),
        )
    }

    /// The state in which the transaction is ended after a failure.
    pub open spec fn fail(error: DatalithReadError) -> ListTurn {
        (ListIdsView::Failing { error }, StepView::Query(StatementView::Rollback))
    }

    /// The error of a reply to a statement that tells a failure or does not
    /// answer it.
    pub open spec fn failure(reply: ReplyView) -> DatalithReadError {
        match reply {
            ReplyView::SqlFailed(kind) => DatalithReadError::SQLError(kind),
            ReplyView::IoFailed(kind) => DatalithReadError::IOError(kind),
            _ => DatalithReadError::SQLError(SqlErrorKind::Other),
        }
    }

    /// The state and the request that follow a state and the reply to its
    /// request.
    pub open spec fn advance(self, reply: ReplyView) -> ListTurn {
        match self {
            ListIdsView::Beginning { kind, options, now, retried } => match reply {
                ReplyView::Done => (
                    ListIdsView::Counting { kind, options, now, retried },
                    StepView::Query(count_statement(kind)),
                ),
                _ => (
                    ListIdsView::Finished,
                    StepView::Finish(Err(ListIdsView::failure(reply))),
                ),
            },
            ListIdsView::Counting { kind, options, now, retried } => match reply {
                ReplyView::Count(count) => (
                    ListIdsView::Selecting { kind, options, now, retried, total: total_of(count) },
                    StepView::Query(select_statement(kind, now, options.window_spec())),
                ),
                _ => ListIdsView::fail(ListIdsView::failure(reply)),
            },
            ListIdsView::Selecting { kind, options, now, retried, total } => match reply {
                ReplyView::Ids(ids) => (
                    ListIdsView::Ending { kind, options, now, retried, total, ids },
                    StepView::Query(StatementView::Rollback),
                ),
                _ => ListIdsView::fail(ListIdsView::failure(reply)),
            },
            ListIdsView::Ending { kind, options, now, retried, total, ids } => {
                let pagination = pagination_of(options.items_per_page, total, options.page);
                if ids.len() == 0 && total > 0 && options.page > 1 && !retried {
                    ListIdsView::begin(
                        kind,
                        PaginationOptions { page: pagination.total_pages, ..options },
                        now,
                        true,
                    )
                } else {
                    (ListIdsView::Finished, StepView::Finish(Ok(PageView { ids, pagination })))
                }
            },
            ListIdsView::Failing { error } => (ListIdsView::Finished, StepView::Finish(Err(error))),
            ListIdsView::Finished => (
                ListIdsView::Finished,
                StepView::Finish(Err(DatalithReadError::IOError(IoErrorKind::Other))),
            ),
        }
    }
}

/// A state of a listing and the request it waits on.
pub type ListNext = (ListIds, Step<Result<Page, DatalithReadError>>);

/// Whether a state and a request have the given mathematical values.
pub open spec fn list_turn_is(next: ListNext, turn: ListTurn) -> bool {
    &&& next.0@ == turn.0
    &&& next.1.view_with(|o| page_result_view(o)) == turn.1
}

fn begin(kind: ListKind, options: PaginationOptions, now: i64, retried: bool) -> (r: ListNext)
    ensures
        list_turn_is(r, ListIdsView::begin(kind, options, now, retried)),
{
    (ListIds::Beginning { kind, options, now, retried }, Step::Query(Statement::Begin))
}

fn fail(error: DatalithReadError) -> (r: ListNext)
    ensures
        list_turn_is(r, ListIdsView::fail(error)),
{
    (ListIds::Failing { error }, Step::Query(Statement::Rollback))
}

fn failure(reply: &Reply) -> (e: DatalithReadError)
    ensures
        e == ListIdsView::failure(reply@),
{
    match reply {
        Reply::SqlFailed(kind) => DatalithReadError::SQLError(*kind),
        Reply::IoFailed(kind) => DatalithReadError::IOError(*kind),
        _ => DatalithReadError::SQLError(SqlErrorKind::Other),
    }
}

impl ListIds {
    /// Begins to list the files that are live at `now`.
    pub fn list_file_ids(options: PaginationOptions, now: i64) -> (r: ListNext)
        ensures
            list_turn_is(r, ListIdsView::begin(ListKind::Files, options, now, false)),
    {
        begin(ListKind::Files, options, now, false)
    }

    /// Begins to list the resources.
    pub fn list_resource_ids(options: PaginationOptions) -> (r: ListNext)
        ensures
            list_turn_is(r, ListIdsView::begin(ListKind::Resources, options, 0, false)),
    {
        begin(ListKind::Resources, options, 0, false)
    }

    /// Begins to list the images.
    pub fn list_image_ids(options: PaginationOptions) -> (r: ListNext)
        ensures
            list_turn_is(r, ListIdsView::begin(ListKind::Images, options, 0, false)),
    {
        begin(ListKind::Images, options, 0, false)
    }
}

impl Operation for ListIds {
    type Output = Result<Page, DatalithReadError>;

    type OutputView = Result<PageView, DatalithReadError>;

    open spec fn output_view(output: Self::Output) -> Self::OutputView {
        page_result_view(output)
    }

    open spec fn advance(state: ListIdsView, reply: ReplyView) -> ListTurn {
        state.advance(reply)
    }

    fn resume(self, reply: Reply) -> (r: ListNext) {
        match self {
            ListIds::Beginning { kind, options, now, retried } => match reply {
                Reply::Done => {
                    let statement = match kind {
                        ListKind::Files => Statement::CountFiles,
                        ListKind::Resources => Statement::CountResources,
                        ListKind::Images => Statement::CountImages,
                    };
                    (ListIds::Counting { kind, options, now, retried }, Step::Query(statement))
                },
                _ => (ListIds::Finished, Step::Finish(Err(failure(&reply)))),
            },
            ListIds::Counting { kind, options, now, retried } => match reply {
                Reply::Count(count) => {
                    let total: usize = if count > usize::MAX as u64 {
                        usize::MAX
                    } else {
                        count as usize
                    };
                    let window = options.window();
                    let statement = match kind {
                        ListKind::Files => Statement::SelectLiveFileIds { now, window },
                        ListKind::Resources => Statement::SelectResourceIds { window },
                        ListKind::Images => Statement::SelectImageIds { window },
                    };
                    (
                        ListIds::Selecting { kind, options, now, retried, total },
                        Step::Query(statement),
                    )
                },
                _ => fail(failure(&reply)),
            },
            ListIds::Selecting { kind, options, now, retried, total } => match reply {
                Reply::Ids(ids) => (
                    ListIds::Ending { kind, options, now, retried, total, ids },
                    Step::Query(Statement::Rollback),
                ),
                _ => fail(failure(&reply)),
            },
            ListIds::Ending { kind, options, now, retried, total, ids } => {
                let pagination = paginate(options.items_per_page, total, options.page);
                if ids.len() == 0 && total > 0 && options.page > 1 && !retried {
                    let options = PaginationOptions {
                        page: pagination.total_pages,
                        items_per_page: options.items_per_page,
                        order_by: options.order_by,
                    };
                    begin(kind, options, now, true)
                } else {
                    (ListIds::Finished, Step::Finish(Ok(Page { ids, pagination })))
                }
            },
            ListIds::Failing { error } => (ListIds::Finished, Step::Finish(Err(error))),
            ListIds::Finished => (
                ListIds::Finished,
                Step::Finish(Err(DatalithReadError::IOError(IoErrorKind::Other))),
            ),
        }
    }
}

} // verus!
