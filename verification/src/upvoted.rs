//! The demand-driven pagination and authentication engine.
//!
//! A stream of upvoted items is produced by pulling: the consumer takes
//! buffered items one at a time, and only when the buffer is empty does a
//! new page fetch begin. The engine itself performs no network calls; it
//! decides which call the driver must make next ([`FetchAction`]) and
//! folds each outcome back into its state. One fetch invocation is the
//! round `begin_fetch` → (`on_login_result` if a login was required) →
//! `on_page_result`.
//!
//! Retry policy: a fetch invocation that starts without a session logs in
//! first and then issues exactly one page request. If that page request
//! fails, the error propagates; no second login is attempted. If login
//! itself fails, no page request is attempted at all.
//!
//! End of feed: the platform never signals a definitive end of data in
//! this design. When a page omits its continuation token the cursor keeps
//! the previous token and the count keeps growing; the engine does not
//! invent a termination condition. This is a known quirk, preserved
//! deliberately.

use vstd::prelude::*;

use crate::configs::Config;
use crate::credentials::RedditCredentials;
use crate::items::ItemModel;
use crate::items::RawRecord;
use crate::items::UpvotedItem;
use crate::items::normalize_spec;
use crate::items::opt_view;

verus! {

/// The opaque authenticated handle, created by a successful login. The
/// live platform handle is held by the driver; within the engine a session
/// is only the evidence that login succeeded, held at most once and never
/// replaced.
#[derive(Clone, Copy, Debug, PartialEq, Eq, Structural)]
pub struct Session {}

/// Where the engine stands within one fetch invocation.
#[derive(Clone, Copy, Debug, PartialEq, Eq, Structural)]
pub enum FetchPhase {
    /// No fetch invocation is in flight.
    Idle,
    /// A login call was issued and its outcome is awaited.
    AwaitingLogin,
    /// A page request was issued and its outcome is awaited.
    AwaitingPage,
}

/// The single outside call the driver must perform next.
#[derive(Clone, Copy, Debug, PartialEq, Eq, Structural)]
pub enum FetchAction {
    /// Perform the login call with the stored credentials.
    Login,
    /// Perform the page request with the current cursor.
    FetchPage,
}

/// The two error kinds that surface to the stream consumer. Both are
/// terminal for the stream instance.
#[derive(Clone, Copy, Debug, PartialEq, Eq, Structural)]
pub enum UpvotedError {
    /// Login failed: bad credentials, network failure, or platform-side
    /// rejection.
    Auth,
    /// A page request failed after a session existed, or failed again
    /// after the single permitted re-login.
    Fetch,
}

/// Where the next page starts. `after` is the opaque token returned by the
/// server (absent for the first page), `count` the running total of
/// records seen across all fetched pages, `limit` the fixed page size from
/// configuration.
#[derive(Debug, Clone)]
pub struct PaginationCursor {
    pub after: Option<String>,
    pub count: u64,
    pub limit: u32,
}

/// One page of results: raw records in server order, plus the server's
/// continuation token if it sent one.
#[derive(Debug, Clone)]
pub struct Page {
    pub records: Vec<RawRecord>,
    pub next_after: Option<String>,
}

/// Mathematical model of a [`PaginationCursor`].
#[verifier::ext_equal]
pub struct CursorModel {
    pub after: Option<Seq<char>>,
    pub count: int,
    pub limit: int,
}

impl View for PaginationCursor {
    type V = CursorModel;

    open spec fn view(&self) -> CursorModel {
        CursorModel {
            after: opt_view(self.after),
            count: self.count as int,
            limit: self.limit as int,
        }
    }
}

/// Mathematical model of a [`Page`].
#[verifier::ext_equal]
pub struct PageModel {
    pub records: Seq<RawRecord>,
    pub next_after: Option<Seq<char>>,
}

impl View for Page {
    type V = PageModel;

    open spec fn view(&self) -> PageModel {
        PageModel { records: self.records@, next_after: opt_view(self.next_after) }
    }
}

/// The models of a sequence of buffered items.
pub open spec fn items_model(s: Seq<UpvotedItem>) -> Seq<ItemModel> {
    s.map_values(|it: UpvotedItem| it@)
}

/// The models of the items a record sequence normalizes to, in order.
pub open spec fn records_model(s: Seq<RawRecord>) -> Seq<ItemModel> {
    s.map_values(|r: RawRecord| normalize_spec(r))
}

/// Mathematical model of the engine state.
#[verifier::ext_equal]
pub struct StreamModel {
    /// Whether a session is held (login has succeeded once).
    pub has_session: bool,
    pub phase: FetchPhase,
    pub cursor: CursorModel,
    /// Already-fetched, not yet emitted items, front first.
    pub buffer: Seq<ItemModel>,
    /// Terminal: set by an error, never cleared.
    pub stopped: bool,
}

/// The upvoted-items stream engine: credentials, the lazily established
/// session, the evolving cursor, and the buffer of items fetched but not
/// yet emitted.
#[derive(Clone)]
pub struct Upvotes {
    pub credentials: RedditCredentials,
    pub config: Config,
    pub me: Option<Session>,
    pub phase: FetchPhase,
    pub cursor: PaginationCursor,
    pub buffer: Vec<UpvotedItem>,
    pub stopped: bool,
}

impl View for Upvotes {
    type V = StreamModel;

    open spec fn view(&self) -> StreamModel {
        StreamModel {
            has_session: self.me is Some,
            phase: self.phase,
            cursor: self.cursor@,
            buffer: items_model(self.buffer@),
            stopped: self.stopped,
        }
    }
}

/// Opening step of one fetch invocation: with no session on hand the
/// driver must log in first; with a session the page request is issued
/// directly and the session is reused without side effects.
pub open spec fn spec_begin_fetch(m: StreamModel) -> (StreamModel, FetchAction) {
    if !m.has_session {
        (
            StreamModel {
                has_session: m.has_session,
                phase: FetchPhase::AwaitingLogin,
                cursor: m.cursor,
                buffer: m.buffer,
                stopped: m.stopped,
            },
            FetchAction::Login,
        )
    } else {
        (
            StreamModel {
                has_session: m.has_session,
                phase: FetchPhase::AwaitingPage,
                cursor: m.cursor,
                buffer: m.buffer,
                stopped: m.stopped,
            },
            FetchAction::FetchPage,
        )
    }
}

/// Folding a login outcome into the state: success stores the session and
/// issues the single retried page request; failure ends the invocation
/// with `Auth` and stops the stream, with no page request attempted.
pub open spec fn spec_on_login_result(m: StreamModel, ok: bool) -> (
    StreamModel,
    Result<FetchAction, UpvotedError>,
) {
    if ok {
        (
            StreamModel {
                has_session: true,
                phase: FetchPhase::AwaitingPage,
                cursor: m.cursor,
                buffer: m.buffer,
                stopped: m.stopped,
            },
            Ok(FetchAction::FetchPage),
        )
    } else {
        (
            StreamModel {
                has_session: m.has_session,
                phase: FetchPhase::Idle,
                cursor: m.cursor,
                buffer: m.buffer,
                stopped: true,
            },
            Err(UpvotedError::Auth),
        )
    }
}

/// Cursor evolution between pages: the continuation token is taken from
/// the page when the server sent one and kept unchanged otherwise, and the
/// count grows by the number of records in the page.
pub open spec fn spec_advance_cursor(c: CursorModel, pm: PageModel) -> CursorModel {
    CursorModel {
        after: if pm.next_after is Some {
            pm.next_after
        } else {
            c.after
        },
        count: c.count + pm.records.len(),
        limit: c.limit,
    }
}

/// Folding a page outcome into the state: success advances the cursor and
/// appends the page's records, normalized and in server order, to the
/// buffer; failure ends the invocation with `Fetch` and stops the stream,
/// retaining whatever session is held (no second login).
pub open spec fn spec_on_page_result(m: StreamModel, page: Option<PageModel>) -> (
    StreamModel,
    Result<(), UpvotedError>,
) {
    match page {
        Some(pm) => (
            StreamModel {
                has_session: m.has_session,
                phase: FetchPhase::Idle,
                cursor: spec_advance_cursor(m.cursor, pm),
                buffer: m.buffer + records_model(pm.records),
                stopped: m.stopped,
            },
            Ok(()),
        ),
        None => (
            StreamModel {
                has_session: m.has_session,
                phase: FetchPhase::Idle,
                cursor: m.cursor,
                buffer: m.buffer,
                stopped: true,
            },
            Err(UpvotedError::Fetch),
        ),
    }
}

/// The model of an optional page outcome.
pub open spec fn page_model_opt(page: Option<Page>) -> Option<PageModel> {
    match page {
        Some(p) => Some(p@),
        None => None,
    }
}

impl Upvotes {
    /// A fresh stream instance: no session yet, first-page cursor with a
    /// zero count and the configured page size, empty buffer.
    pub fn new(credentials: RedditCredentials, config: Config) -> (u: Upvotes)
        ensures
            u.credentials == credentials,
            u.config == config,
            u.me is None,
            u.phase is Idle,
            !u.stopped,
            u.buffer@.len() == 0,
            u.cursor.after is None,
            u.cursor.count == 0,
            u.cursor.limit == config.reddit.page_size,
    {
        let limit = config.reddit.page_size;
        Upvotes {
            credentials,
            config,
            me: None,
            phase: FetchPhase::Idle,
            cursor: PaginationCursor { after: None, count: 0, limit },
            buffer: Vec::new(),
            stopped: false,
        }
    }

    /// Emits the next already-fetched item, front first, without any
    /// outside work; returns nothing when the buffer is exhausted, which
    /// is the one situation in which a new fetch invocation may begin.
    pub fn take_buffered(&mut self) -> (r: Option<UpvotedItem>)
        ensures
            old(self).buffer@.len() == 0 ==> r is None && *final(self) == *old(self),
            old(self).buffer@.len() > 0 ==> r == Some(old(self).buffer@[0])
                && final(self).buffer@ == old(self).buffer@.subrange(
                1,
                old(self).buffer@.len() as int,
            ),
            final(self).credentials == old(self).credentials,
            final(self).config == old(self).config,
            final(self).me == old(self).me,
            final(self).phase == old(self).phase,
            final(self).cursor == old(self).cursor,
            final(self).stopped == old(self).stopped,
    {
        if self.buffer.len() > 0 {
            let item = self.buffer.remove(0);
            proof {
                assert(self.buffer@ =~= old(self).buffer@.subrange(
                    1,
                    old(self).buffer@.len() as int,
                ));
            }
            Some(item)
        } else {
            None
        }
    }

    /// Opens one fetch invocation. Demand-driven: only allowed once the
    /// buffer is exhausted, and never after the stream has stopped.
    pub fn begin_fetch(&mut self) -> (a: FetchAction)
        requires
            old(self).phase is Idle,
            !old(self).stopped,
            old(self).buffer@.len() == 0,
        ensures
            final(self)@ == spec_begin_fetch(old(self)@).0,
            a == spec_begin_fetch(old(self)@).1,
            final(self).credentials == old(self).credentials,
            final(self).config == old(self).config,
            final(self).me == old(self).me,
            final(self).cursor == old(self).cursor,
            final(self).buffer == old(self).buffer,
            a is Login <==> old(self).me is None,
    {
        match self.me {
            None => {
                self.phase = FetchPhase::AwaitingLogin;
                FetchAction::Login
            },
            Some(_) => {
                self.phase = FetchPhase::AwaitingPage;
                FetchAction::FetchPage
            },
        }
    }

    /// Folds the driver's login outcome into the state. On success the
    /// session is stored (created once, replaced never) and the single
    /// retried page request is issued; on failure the invocation ends with
    /// `Auth`, the stream stops, and no page request is attempted.
    pub fn on_login_result(&mut self, session: Option<Session>) -> (r: Result<
        FetchAction,
        UpvotedError,
    >)
        requires
            old(self).phase is AwaitingLogin,
        ensures
            final(self)@ == spec_on_login_result(old(self)@, session is Some).0,
            r == spec_on_login_result(old(self)@, session is Some).1,
            final(self).credentials == old(self).credentials,
            final(self).config == old(self).config,
            final(self).cursor == old(self).cursor,
            final(self).buffer == old(self).buffer,
            session is Some ==> final(self).me == session,
            session is None ==> final(self).me == old(self).me,
    {
        match session {
            Some(s) => {
                self.me = Some(s);
                self.phase = FetchPhase::AwaitingPage;
                Ok(FetchAction::FetchPage)
            },
            None => {
                self.phase = FetchPhase::Idle;
                self.stopped = true;
                Err(UpvotedError::Auth)
            },
        }
    }

    /// Folds the driver's page outcome into the state. On success the
    /// cursor advances and the page's records are normalized and buffered
    /// in server order; on failure the invocation ends with `Fetch`, the
    /// stream stops, and no further login is attempted.
    pub fn on_page_result(&mut self, page: Option<Page>) -> (r: Result<(), UpvotedError>)
        requires
            old(self).phase is AwaitingPage,
            page matches Some(p) ==> old(self).cursor.count + p.records@.len() <= u64::MAX,
        ensures
            final(self)@ == spec_on_page_result(old(self)@, page_model_opt(page)).0,
            r == spec_on_page_result(old(self)@, page_model_opt(page)).1,
            final(self).credentials == old(self).credentials,
            final(self).config == old(self).config,
            final(self).me == old(self).me,
            page matches Some(p) ==> final(self).cursor.count == old(self).cursor.count
                + p.records@.len(),
            page matches Some(p) ==> (if p.next_after is Some {
                final(self).cursor.after == p.next_after
            } else {
                final(self).cursor.after == old(self).cursor.after
            }),
            final(self).cursor.limit == old(self).cursor.limit,
            page is None ==> r == Err::<(), UpvotedError>(UpvotedError::Fetch),
    {
        match page {
            Some(p) => {
                let ghost page_ghost = p;
                let Page { records, next_after } = p;
                let n = records.len();
                match next_after {
                    Some(a) => {
                        self.cursor.after = Some(a);
                    },
                    None => {},
                }
                self.cursor.count = self.cursor.count + (n as u64);
                self.phase = FetchPhase::Idle;

                let mut records = records;
                let ghost orig: Seq<RawRecord> = records@;
                let ghost buf0: Seq<ItemModel> = items_model(self.buffer@);
                let ghost mid: Upvotes = *self;
                while records.len() > 0
                    invariant
                        records@.len() <= orig.len(),
                        records@ == orig.subrange(
                            orig.len() - records@.len(),
                            orig.len() as int,
                        ),
                        items_model(self.buffer@) == buf0 + records_model(
                            orig.subrange(0, orig.len() - records@.len()),
                        ),
                        self.credentials == mid.credentials,
                        self.config == mid.config,
                        self.me == mid.me,
                        self.phase == mid.phase,
                        self.cursor == mid.cursor,
                        self.stopped == mid.stopped,
                    decreases records@.len(),
                {
                    let ghost k: int = orig.len() - records@.len();
                    let ghost before: Seq<UpvotedItem> = self.buffer@;
                    let r = records.remove(0);
                    let item = UpvotedItem::from_record(r);
                    self.buffer.push(item);
                    proof {
                        assert(r == orig[k]);
                        assert(records@ =~= orig.subrange(k + 1, orig.len() as int));
                        assert(items_model(self.buffer@) =~= items_model(before).push(item@));
                        assert(records_model(orig.subrange(0, k + 1)) =~= records_model(
                            orig.subrange(0, k),
                        ).push(normalize_spec(orig[k])));
                        assert(items_model(self.buffer@) =~= buf0 + records_model(
                            orig.subrange(0, k + 1),
                        ));
                    }
                }
                proof {
                    assert(orig.subrange(0, orig.len() as int) =~= orig);
                    assert(self@ =~~= spec_on_page_result(
                        old(self)@,
                        page_model_opt(Some(page_ghost)),
                    ).0);
                }
                Ok(())
            },
            None => {
                self.phase = FetchPhase::Idle;
                self.stopped = true;
                Err(UpvotedError::Fetch)
            },
        }
    }
}

/// Cursor evolution between pages: the next cursor takes the page's
/// continuation token when the server sent one and keeps the previous
/// token otherwise, its count grows by exactly the number of records in
/// the page, and the page size never changes.
pub proof fn lemma_cursor_evolution(c: CursorModel, pm: PageModel)
    ensures
        pm.next_after is Some ==> spec_advance_cursor(c, pm).after == pm.next_after,
        pm.next_after is None ==> spec_advance_cursor(c, pm).after == c.after,
        spec_advance_cursor(c, pm).count == c.count + pm.records.len(),
        spec_advance_cursor(c, pm).limit == c.limit,
{
}

/// With no session on hand, one fetch invocation performs exactly one
/// login followed by exactly one page request: the opening step issues
/// `Login` and nothing else, and a successful login stores the session and
/// issues `FetchPage` and nothing else. The page step returns only a
/// terminal result, so no further action of any kind — in particular no
/// second login — can occur within the invocation.
pub proof fn lemma_fetch_single_login_then_single_page(m: StreamModel)
    requires
        m.phase is Idle,
        !m.has_session,
    ensures
        spec_begin_fetch(m).1 is Login,
        spec_on_login_result(spec_begin_fetch(m).0, true).1 == Ok::<FetchAction, UpvotedError>(
            FetchAction::FetchPage,
        ),
        spec_on_login_result(spec_begin_fetch(m).0, true).0.has_session,
        spec_on_login_result(spec_begin_fetch(m).0, true).0.phase is AwaitingPage,
{
}

/// A login is issued only by the opening step of an invocation that holds
/// no session: with a session present the opening step reuses it and goes
/// straight to the page request, and no login outcome ever gives rise to
/// another `Login` action.
pub proof fn lemma_login_only_when_sessionless(m: StreamModel)
    ensures
        spec_begin_fetch(m).1 is Login <==> !m.has_session,
        spec_begin_fetch(m).0.has_session == m.has_session,
        forall|ok: bool| #![auto] spec_on_login_result(m, ok).1 != Ok::<
            FetchAction,
            UpvotedError,
        >(FetchAction::Login),
{
}

/// If login fails, the fetch invocation returns `Auth` and no page
/// request is attempted: the failing step yields an error instead of a
/// `FetchPage` action, leaves the machine without a session, and stops the
/// stream terminally.
pub proof fn lemma_login_failure_aborts(m: StreamModel)
    requires
        m.phase is Idle,
        !m.has_session,
    ensures
        ({
            let (m1, a1) = spec_begin_fetch(m);
            let (m2, r2) = spec_on_login_result(m1, false);
            &&& a1 is Login
            &&& r2 == Err::<FetchAction, UpvotedError>(UpvotedError::Auth)
            &&& !(m2.phase is AwaitingPage)
            &&& !m2.has_session
            &&& m2.stopped
        }),
{
}

/// If the page fetch fails right after a successful login, the error
/// surfaces as `Fetch` and propagates without a second login attempt: the
/// invocation ends stopped, the freshly stored session is retained, and a
/// stopped stream admits no further fetch invocation, so a fresh stream
/// instance is required to retry from scratch.
pub proof fn lemma_no_second_login_after_fetch_failure(m: StreamModel)
    requires
        m.phase is Idle,
        !m.has_session,
    ensures
        ({
            let (m1, a1) = spec_begin_fetch(m);
            let (m2, r2) = spec_on_login_result(m1, true);
            let (m3, r3) = spec_on_page_result(m2, None);
            &&& r3 == Err::<(), UpvotedError>(UpvotedError::Fetch)
            &&& m3.has_session
            &&& m3.stopped
            &&& !(m3.phase is AwaitingLogin)
        }),
{
}

} // verus!
