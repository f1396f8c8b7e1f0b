//! Cursor pagination as a lazy sequence.
//!
//! A [`Paginator`] hands out the items of a list endpoint one at a time. It
//! asks for a page only when the items of the previous page are used up and
//! the consumer asks for more; the transport fetches that page and hands it
//! back. A page without a next cursor ends the sequence.
use vstd::prelude::*;
use vstd::string::StringExecFns;
use crate::request::{owned, pairs_view};
use vstd::arithmetic::div_mod::lemma_fundamental_div_mod_converse;

verus! {

/// The decimal digits of `n`, most significant first.
pub open spec fn decimal(n: nat) -> Seq<char>
    decreases n,
{
    if n < 10 {
        seq![digit_char(n)]
    } else {
        decimal(n / 10).push(digit_char(n % 10))
    }
}

pub open spec fn digit_char(d: nat) -> char {
    if d == 0 { '0' }
    else if d == 1 { '1' }
    else if d == 2 { '2' }
    else if d == 3 { '3' }
    else if d == 4 { '4' }
    else if d == 5 { '5' }
    else if d == 6 { '6' }
    else if d == 7 { '7' }
    else if d == 8 { '8' }
    else { '9' }
}

/// The one-digit text of `d`.
fn digit_text(d: u64) -> (r: &'static str)
    requires
        d < 10,
    ensures
        r@ =~= seq![digit_char(d as nat)],
{
    proof {
        reveal_strlit("0");
        reveal_strlit("1");
        reveal_strlit("2");
        reveal_strlit("3");
        reveal_strlit("4");
        reveal_strlit("5");
        reveal_strlit("6");
        reveal_strlit("7");
        reveal_strlit("8");
        reveal_strlit("9");
    }
    if d == 0 {
        "0"
    } else if d == 1 {
        "1"
    } else if d == 2 {
        "2"
    } else if d == 3 {
        "3"
    } else if d == 4 {
        "4"
    } else if d == 5 {
        "5"
    } else if d == 6 {
        "6"
    } else if d == 7 {
        "7"
    } else if d == 8 {
        "8"
    } else {
        "9"
    }
}

/// The decimal text of `n`.
fn decimal_text(n: u64) -> (r: String)
    ensures
        r@ == decimal(n as nat),
    decreases n,
{
    if n < 10 {
        owned(digit_text(n))
    } else {
        let r = decimal_text(n / 10).concat(digit_text(n % 10));
        proof {
            assert(r@ =~= decimal((n / 10) as nat).push(digit_char((n % 10) as nat)));
        }
        r
    }
}

/// The query pairs that ask for one page: the page size, and the cursor that
/// the previous page returned, if any.
pub open spec fn page_query(page_size: u64, cursor: Option<Seq<char>>) -> Seq<(Seq<char>, Seq<char>)> {
    let limit = seq![("limit"@, decimal(page_size as nat))];
    match cursor {
        Some(c) => limit.push(("cursor"@, c)),
        None => limit,
    }
}

/// Where the sequence stands between two pages.
pub enum PagerPhase {
    /// The next page can be fetched, with this cursor (none for the first page).
    Ready { cursor: Option<Seq<char>> },
    /// A page was asked for and has not been handed back yet.
    Awaiting,
    /// No page remains.
    Done,
}

/// The mathematical value of a [`Paginator`].
pub struct PagerState<T> {
    pub page_size: u64,
    /// Items of the current page not yet handed out, in page order.
    pub buffer: Seq<T>,
    pub phase: PagerPhase,
}

/// What the consumer gets when it asks for the next element.
pub enum PageStep<T> {
    /// Fetch the next page, adding these query pairs to the list request.
    Fetch { query: Vec<(String, String)> },
    /// The next item of the sequence.
    Item { item: T },
    /// The sequence is exhausted.
    Finished,
}

/// The mathematical value of a [`PageStep`].
pub enum StepView<T> {
    Fetch { query: Seq<(Seq<char>, Seq<char>)> },
    Item { item: T },
    Finished,
}

impl<T> View for PageStep<T> {
    type V = StepView<T>;

    open spec fn view(&self) -> StepView<T> {
        match self {
            PageStep::Fetch { query } => StepView::Fetch { query: pairs_view(query@) },
            PageStep::Item { item } => StepView::Item { item: *item },
            PageStep::Finished => StepView::Finished,
        }
    }
}

/// The state of a new sequence: nothing fetched yet.
pub open spec fn initial_pager<T>(page_size: u64) -> PagerState<T> {
    PagerState { page_size, buffer: Seq::empty(), phase: PagerPhase::Ready { cursor: None } }
}

/// The consumer asks for the next element: a buffered item if there is one,
/// else a request for the next page if one remains, else the end.
pub open spec fn pager_next<T>(s: PagerState<T>) -> (PagerState<T>, StepView<T>) {
    if s.buffer.len() > 0 {
        (PagerState { buffer: s.buffer.drop_first(), ..s }, StepView::Item { item: s.buffer[0] })
    } else {
        match s.phase {
            PagerPhase::Ready { cursor } => (
                PagerState { phase: PagerPhase::Awaiting, ..s },
                StepView::Fetch { query: page_query(s.page_size, cursor) },
            ),
            _ => (s, StepView::Finished),
        }
    }
}

/// A fetched page is handed back: its items are buffered in array order, and
/// its next cursor decides whether another page follows.
pub open spec fn pager_receive<T>(
    s: PagerState<T>,
    data: Seq<T>,
    next_cursor: Option<Seq<char>>,
) -> PagerState<T> {
    PagerState {
        buffer: data,
        phase: match next_cursor {
            Some(c) => PagerPhase::Ready { cursor: Some(c) },
            None => PagerPhase::Done,
        },
        ..s
    }
}

/// A page could not be fetched: the sequence ends, and the items handed out
/// before stay valid.
pub open spec fn pager_fail<T>(s: PagerState<T>) -> PagerState<T> {
    PagerState { buffer: Seq::empty(), phase: PagerPhase::Done, ..s }
}

enum Phase {
    Ready { cursor: Option<String> },
    Awaiting,
    Done,
}

/// A lazy, ordered sequence over the pages of one list request.
pub struct Paginator<T> {
    page_size: u64,
    buffer: Vec<T>,
    phase: Phase,
}

impl<T> View for Paginator<T> {
    type V = PagerState<T>;

    closed spec fn view(&self) -> PagerState<T> {
        PagerState {
            page_size: self.page_size,
            buffer: self.buffer@,
            phase: match self.phase {
                Phase::Ready { cursor } => PagerPhase::Ready {
                    cursor: match cursor {
                        Some(c) => Some(c@),
                        None => None,
                    },
                },
                Phase::Awaiting => PagerPhase::Awaiting,
                Phase::Done => PagerPhase::Done,
            },
        }
    }
}

impl<T> Paginator<T> {
    /// A sequence whose pages hold at most `page_size` items.
    pub fn new(page_size: u64) -> (r: Paginator<T>)
        ensures
            r@ == initial_pager::<T>(page_size),
    {
        let r = Paginator { page_size, buffer: Vec::new(), phase: Phase::Ready { cursor: None } };
        proof {
            assert(r@.buffer =~= Seq::<T>::empty());
        }
        r
    }

    /// Whether a page was asked for and not handed back yet.
    pub fn is_awaiting(&self) -> (r: bool)
        ensures
            r == (self@.phase is Awaiting),
    {
        match self.phase {
            Phase::Awaiting => true,
            _ => false,
        }
    }

    /// The next element: an item, a page to fetch, or the end.
    ///
    /// Asked for while a page is awaited, it reports the end.
    pub fn next_step(&mut self) -> (r: PageStep<T>)
        ensures
            (final(self)@, r@) == pager_next(old(self)@),
    {
        if self.buffer.len() > 0 {
            let item = self.buffer.remove(0);
            PageStep::Item { item }
        } else {
            match &self.phase {
                Phase::Ready { cursor } => {
                    let mut query: Vec<(String, String)> = Vec::new();
                    query.push(("limit".to_owned(), decimal_text(self.page_size)));
                    match cursor {
                        Some(c) => {
                            query.push(("cursor".to_owned(), c.clone()));
                        },
                        None => {},
                    }
                    proof {
                        let expected = page_query(self.page_size, self@.phase->Ready_cursor);
                        assert(pairs_view(query@) =~= expected);
                    }
                    self.phase = Phase::Awaiting;
                    PageStep::Fetch { query }
                },
                _ => PageStep::Finished,
            }
        }
    }

    /// Hands back the page that the last `Fetch` asked for.
    pub fn receive_page(&mut self, data: Vec<T>, next_cursor: Option<String>)
        ensures
            final(self)@ == pager_receive(
                old(self)@,
                data@,
                match next_cursor {
                    Some(c) => Some(c@),
                    None => None,
                },
            ),
    {
        self.buffer = data;
        self.phase = match next_cursor {
            Some(c) => Phase::Ready { cursor: Some(c) },
            None => Phase::Done,
        };
    }

    /// Reports that the page that the last `Fetch` asked for could not be had.
    pub fn receive_error(&mut self)
        ensures
            final(self)@ == pager_fail(old(self)@),
    {
        self.buffer = Vec::new();
        self.phase = Phase::Done;
        proof {
            assert(self@.buffer =~= Seq::<T>::empty());
        }
    }
}

/// Distinct pages get distinct cursors.
pub open spec fn cursors_distinct(cursor: spec_fn(nat) -> Seq<char>) -> bool {
    forall|i: nat, j: nat| #[trigger] cursor(i) == #[trigger] cursor(j) ==> i == j
}

/// The page that a request asks for: the first without a cursor, else the
/// page that the cursor names.
pub open spec fn page_of(cursor: spec_fn(nat) -> Seq<char>, c: Option<Seq<char>>) -> nat {
    match c {
        Some(c) => choose|i: nat| #[trigger] cursor(i) == c,
        None => 0,
    }
}

pub open spec fn min_nat(a: nat, b: nat) -> nat {
    if a <= b {
        a
    } else {
        b
    }
}

/// A server that holds `items` in order and serves pages of `p` items, page
/// `i` under the cursor `cursor(i)`: page `i` holds the items from `i * p` on,
/// and its next cursor is absent exactly when no item follows it.
pub open spec fn model_reply<T>(
    items: Seq<T>,
    p: nat,
    cursor: spec_fn(nat) -> Seq<char>,
    c: Option<Seq<char>>,
) -> (Seq<T>, Option<Seq<char>>) {
    let i = page_of(cursor, c);
    let o = i * p;
    let end = min_nat(o + p, items.len());
    (
        items.subrange(o as int, end as int),
        if o + p < items.len() {
            Some(cursor(i + 1))
        } else {
            None
        },
    )
}

/// A consumer driving a sequence against the model server: what the
/// sequence has handed out, how many pages it fetched, and whether the last
/// request for an element returned an item.
pub struct PagerRun<T> {
    pub pager: PagerState<T>,
    pub yielded: Seq<T>,
    pub fetches: nat,
    pub last_was_item: bool,
}

/// The consumer asks for one more element; a page that is asked for is
/// fetched from the model server and handed back at once.
pub open spec fn run_step<T>(
    r: PagerRun<T>,
    items: Seq<T>,
    cursor: spec_fn(nat) -> Seq<char>,
) -> PagerRun<T> {
    let (s1, step) = pager_next(r.pager);
    match step {
        StepView::Fetch { .. } => {
            let c = r.pager.phase->Ready_cursor;
            let (data, next) = model_reply(items, r.pager.page_size as nat, cursor, c);
            PagerRun {
                pager: pager_receive(s1, data, next),
                yielded: r.yielded,
                fetches: r.fetches + 1,
                last_was_item: false,
            }
        },
        StepView::Item { item } => PagerRun {
            pager: s1,
            yielded: r.yielded.push(item),
            fetches: r.fetches,
            last_was_item: true,
        },
        StepView::Finished => PagerRun { pager: s1, last_was_item: false, ..r },
    }
}

/// The state after the consumer asked for `steps` elements.
pub open spec fn run_pages<T>(
    items: Seq<T>,
    page_size: u64,
    cursor: spec_fn(nat) -> Seq<char>,
    steps: nat,
) -> PagerRun<T>
    decreases steps,
{
    if steps == 0 {
        PagerRun {
            pager: initial_pager(page_size),
            yielded: Seq::empty(),
            fetches: 0,
            last_was_item: false,
        }
    } else {
        run_step(run_pages(items, page_size, cursor, (steps - 1) as nat), items, cursor)
    }
}

/// The sequence is exhausted: nothing buffered and no page left.
pub open spec fn run_finished<T>(r: PagerRun<T>) -> bool {
    r.pager.buffer.len() == 0 && r.pager.phase is Done
}

/// The number of pages that `n` items fill, `p` to a page.
pub open spec fn pages_for(n: nat, p: nat) -> nat {
    ((n + p - 1) as nat) / p
}

spec fn times(f: nat, p: nat) -> nat
    decreases f,
{
    if f == 0 {
        0
    } else {
        times((f - 1) as nat, p) + p
    }
}

spec fn run_inv<T>(
    r: PagerRun<T>,
    items: Seq<T>,
    p: nat,
    cursor: spec_fn(nat) -> Seq<char>,
) -> bool {
    let n = items.len();
    let f = r.fetches;
    let y = r.yielded.len();
    &&& r.pager.page_size == p
    &&& y <= n
    &&& r.yielded == items.subrange(0, y as int)
    &&& !(r.pager.phase is Awaiting)
    &&& f == 0 ==> (r.pager.phase == PagerPhase::Ready { cursor: None } && y == 0
        && r.pager.buffer.len() == 0 && !r.last_was_item)
    &&& f > 0 ==> {
        let o = times((f - 1) as nat, p);
        let end = min_nat(o + p, n);
        &&& o < n
        &&& o <= y <= end
        &&& r.pager.buffer == items.subrange(y as int, end as int)
        &&& r.pager.phase == (if o + p < n {
            PagerPhase::Ready { cursor: Some(cursor(f)) }
        } else {
            PagerPhase::Done
        })
        &&& r.last_was_item ==> o < y
    }
}

spec fn potential<T>(r: PagerRun<T>, n: nat) -> int {
    (n - r.yielded.len()) + (n - (r.yielded.len() + r.pager.buffer.len())) + (if r.pager.phase is Ready {
        1int
    } else {
        0int
    })
}

proof fn lemma_run_step<T>(
    r: PagerRun<T>,
    items: Seq<T>,
    p: nat,
    cursor: spec_fn(nat) -> Seq<char>,
)
    requires
        p > 0,
        items.len() > 0,
        cursors_distinct(cursor),
        run_inv(r, items, p, cursor),
    ensures
        run_inv(run_step(r, items, cursor), items, p, cursor),
        run_finished(r) ==> run_finished(run_step(r, items, cursor)) && potential(r, items.len()) == 0,
        !run_finished(r) ==> potential(run_step(r, items, cursor), items.len()) < potential(
            r,
            items.len(),
        ),
        potential(run_step(r, items, cursor), items.len()) >= 0,
        run_step(r, items, cursor).yielded.len() >= r.yielded.len(),
{
    let n = items.len();
    let y = r.yielded.len();
    let r2 = run_step(r, items, cursor);
    if r.pager.buffer.len() > 0 {
        assert(r.fetches > 0);
        assert(r2.yielded =~= items.subrange(0, (y + 1) as int));
        let o = times((r.fetches - 1) as nat, p);
        let end = min_nat(o + p, n);
        assert(r2.pager.buffer =~= items.subrange((y + 1) as int, end as int));
    } else {
        match r.pager.phase {
            PagerPhase::Ready { cursor: c } => {
                let f = r.fetches;
                lemma_times_is_product(f, p);
                if f > 0 {
                    assert(times(f, p) == times((f - 1) as nat, p) + p);
                    assert(c == Some(cursor(f)));
                    let i = choose|i: nat| #[trigger] cursor(i) == cursor(f);
                    assert(cursor(i) == cursor(f));
                    assert(page_of(cursor, c) == f);
                } else {
                    assert(page_of(cursor, c) == 0);
                }
                assert(r2.fetches == r.fetches + 1);
                assert(times((r2.fetches - 1) as nat, p) == times(r.fetches, p));
            },
            _ => {},
        }
    }
}

proof fn lemma_run<T>(items: Seq<T>, page_size: u64, cursor: spec_fn(nat) -> Seq<char>, steps: nat)
    requires
        page_size > 0,
        items.len() > 0,
        cursors_distinct(cursor),
    ensures
        run_inv(run_pages(items, page_size, cursor, steps), items, page_size as nat, cursor),
        potential(run_pages(items, page_size, cursor, steps), items.len()) >= 0,
        potential(run_pages(items, page_size, cursor, steps), items.len()) + steps <= 2 * items.len() + 1
            || run_finished(run_pages(items, page_size, cursor, steps)),
    decreases steps,
{
    if steps > 0 {
        lemma_run(items, page_size, cursor, (steps - 1) as nat);
        lemma_run_step(
            run_pages(items, page_size, cursor, (steps - 1) as nat),
            items,
            page_size as nat,
            cursor,
        );
    } else {
        let r = run_pages(items, page_size, cursor, 0);
        assert(r.yielded =~= items.subrange(0, 0));
    }
}

proof fn lemma_times_is_product(f: nat, p: nat)
    ensures
        times(f, p) == f * p,
    decreases f,
{
    if f > 0 {
        let g = (f - 1) as nat;
        lemma_times_is_product(g, p);
        assert(f * p == g * p + p) by (nonlinear_arith)
            requires
                g + 1 == f,
        ;
        assert(times(f, p) == times(g, p) + p);
    } else {
        assert(f * p == 0) by (nonlinear_arith)
            requires
                f == 0,
        ;
    }
}

proof fn lemma_pages_for(f: nat, p: nat, y: nat)
    requires
        p > 0,
        f > 0,
        times((f - 1) as nat, p) < y <= times((f - 1) as nat, p) + p,
    ensures
        f == pages_for(y, p),
{
    lemma_times_is_product((f - 1) as nat, p);
    let q = (f - 1) * p;
    assert(f * p == q + p) by (nonlinear_arith)
        requires
            q == (f - 1) * p,
            f > 0,
    ;
    let rem = y + p - 1 - f * p;
    lemma_fundamental_div_mod_converse(y + p - 1, p as int, f as int, rem);
}

/// Consuming the whole sequence over `n > 0` items served `p` to a page,
/// under any cursors that tell pages apart, yields
/// exactly the `n` items in server order, after exactly `ceil(n / p)` page
/// fetches; `2n + 1` requests for an element always suffice to exhaust it.
pub proof fn lemma_pagination_exhaustion<T>(
    items: Seq<T>,
    page_size: u64,
    cursor: spec_fn(nat) -> Seq<char>,
    steps: nat,
)
    requires
        page_size > 0,
        items.len() > 0,
        cursors_distinct(cursor),
    ensures
        run_finished(run_pages(items, page_size, cursor, 2 * items.len() + 1)),
        run_finished(run_pages(items, page_size, cursor, steps)) ==> {
            &&& run_pages(items, page_size, cursor, steps).yielded == items
            &&& run_pages(items, page_size, cursor, steps).fetches == pages_for(
                items.len(),
                page_size as nat,
            )
        },
{
    lemma_run(items, page_size, cursor, 2 * items.len() + 1);
    lemma_run(items, page_size, cursor, steps);
    let r = run_pages(items, page_size, cursor, steps);
    if run_finished(r) {
        let p = page_size as nat;
        assert(r.yielded =~= items);
        lemma_pages_for(r.fetches, p, items.len());
    }
}

/// Under any cursors that tell pages apart, a consumer that stops right
/// after taking its `k`-th item has caused
/// exactly `ceil(k / p)` page fetches, never more; the items it took are the
/// first `k` in server order.
pub proof fn lemma_pagination_early_stop<T>(
    items: Seq<T>,
    page_size: u64,
    cursor: spec_fn(nat) -> Seq<char>,
    steps: nat,
)
    requires
        page_size > 0,
        items.len() > 0,
        cursors_distinct(cursor),
        run_pages(items, page_size, cursor, steps).last_was_item,
    ensures
        run_pages(items, page_size, cursor, steps).fetches == pages_for(
            run_pages(items, page_size, cursor, steps).yielded.len(),
            page_size as nat,
        ),
        run_pages(items, page_size, cursor, steps).yielded == items.subrange(
            0,
            run_pages(items, page_size, cursor, steps).yielded.len() as int,
        ),
{
    lemma_run(items, page_size, cursor, steps);
    let r = run_pages(items, page_size, cursor, steps);
    lemma_pages_for(r.fetches, page_size as nat, r.yielded.len());
}

/// The state after the consumer asked for `n` elements without any page
/// being handed back.
pub open spec fn after_requests<T>(s: PagerState<T>, n: nat) -> PagerState<T>
    decreases n,
{
    if n == 0 {
        s
    } else {
        pager_next(after_requests(s, (n - 1) as nat)).0
    }
}

/// A page whose next cursor is absent ends the sequence, whether its data is
/// empty or not: its items come out in order, and every later request gets
/// the end, never another fetch.
pub proof fn lemma_cursor_termination<T>(s: PagerState<T>, data: Seq<T>, n: nat)
    ensures
        n < data.len() ==> pager_next(after_requests(pager_receive(s, data, None), n)).1
            == (StepView::Item { item: data[n as int] }),
        n >= data.len() ==> pager_next(after_requests(pager_receive(s, data, None), n)).1
            == StepView::<T>::Finished,
    decreases n,
{
    let s1 = pager_receive(s, data, None);
    lemma_after_requests_done(s1, n);
}

proof fn lemma_after_requests_done<T>(s: PagerState<T>, n: nat)
    requires
        s.phase is Done,
    ensures
        after_requests(s, n).phase is Done,
        n <= s.buffer.len() ==> after_requests(s, n).buffer == s.buffer.subrange(
            n as int,
            s.buffer.len() as int,
        ),
        n >= s.buffer.len() ==> after_requests(s, n).buffer.len() == 0,
    decreases n,
{
    if n == 0 {
        assert(s.buffer.subrange(0, s.buffer.len() as int) =~= s.buffer);
    } else {
        lemma_after_requests_done(s, (n - 1) as nat);
        let prev = after_requests(s, (n - 1) as nat);
        if n <= s.buffer.len() {
            assert(prev.buffer.drop_first() =~= s.buffer.subrange(n as int, s.buffer.len() as int));
        }
    }
}

} // verus!
