use vstd::prelude::*;

use crate::envelope::settle;
use crate::errors::{is_error_status, status_failure, MastodonError};
use crate::link::{find_link, rel_target};
use crate::text::opt_view;

verus! {

/// The URL that an optional `Link` header gives for the relation `rel`.
pub open spec fn header_target(link: Option<Seq<char>>, rel: Seq<char>) -> Option<Seq<char>> {
    match link {
        Some(h) => rel_target(h, rel),
        None => None,
    }
}

/// View of an optional string slice.
pub open spec fn opt_str_view(s: Option<&str>) -> Option<Seq<char>> {
    match s {
        Some(v) => Some(v@),
        None => None,
    }
}

/// A batch of items with the links to the batches beside it.
pub struct PageView<T> {
    pub items: Seq<T>,
    pub next: Option<Seq<char>>,
    pub prev: Option<Seq<char>>,
}

/// The page that a response with these items and this `Link` header makes.
pub open spec fn page_of<T>(items: Seq<T>, link: Option<Seq<char>>) -> PageView<T> {
    PageView { items, next: header_target(link, "next"@), prev: header_target(link, "prev"@) }
}

/// One batch of a list that the instance hands out in batches, with the
/// URLs of the batches after and before it. Loading another batch replaces
/// the items and both URLs at once.
#[derive(Debug)]
pub struct Page<T> {
    items: Vec<T>,
    next: Option<String>,
    prev: Option<String>,
}

impl<T> View for Page<T> {
    type V = PageView<T>;

    closed spec fn view(&self) -> PageView<T> {
        PageView { items: self.items@, next: opt_view(self.next), prev: opt_view(self.prev) }
    }
}

/// The outcome of a response whose body decodes, with `decode`, into a batch.
pub open spec fn batch_outcome<T, D: FnOnce() -> Result<Vec<T>, MastodonError>>(
    status: u16,
    decode: D,
    r: Result<Vec<T>, MastodonError>,
) -> bool {
    match status_failure(status) {
        Some(e) => r == Err::<Vec<T>, MastodonError>(e),
        None => decode.ensures((), r),
    }
}

impl<T> Page<T> {
    /// The page made of a decoded batch and the response's `Link` header.
    pub fn from_batch(items: Vec<T>, link: Option<&str>) -> (r: Page<T>)
        ensures
            r@ == page_of(items@, opt_str_view(link)),
    {
        let (next, prev) = match link {
            Some(h) => (find_link(h, "next"), find_link(h, "prev")),
            None => (None, None),
        };
        Page { items, next, prev }
    }

    /// The first page of a list, from the response to its request: the
    /// status's failure for a 4xx or 5xx status, with the body left
    /// undecoded; else the decoded batch with the links of the `Link` header.
    pub fn new<D>(status: u16, link: Option<&str>, decode: D) -> (r: Result<Page<T>, MastodonError>) where
        D: FnOnce() -> Result<Vec<T>, MastodonError>,

        requires
            !is_error_status(status) ==> decode.requires(()),
        ensures
            exists|b: Result<Vec<T>, MastodonError>|
                batch_outcome(status, decode, b) && match b {
                    Ok(v) => r matches Ok(p) && p@ == page_of(v@, opt_str_view(link)),
                    Err(e) => r == Err::<Page<T>, MastodonError>(e),
                },
    {
        let batch = settle(status, decode);
        let ghost b = batch;
        assert(batch_outcome(status, decode, b));
        match batch {
            Ok(v) => Ok(Page::from_batch(v, link)),
            Err(e) => Err(e),
        }
    }

    /// The items of the batch.
    pub fn items(&self) -> (r: &Vec<T>)
        ensures
            r@ == self@.items,
    {
        &self.items
    }

    /// Takes the items of the batch out of the page.
    pub fn into_items(self) -> (r: Vec<T>)
        ensures
            r@ == self@.items,
    {
        self.items
    }

    /// The URL of the next batch; none at the end of the list, where moving
    /// on needs no request and yields nothing.
    pub fn next_url(&self) -> (r: Option<String>)
        ensures
            opt_view(r) == self@.next,
    {
        match &self.next {
            Some(u) => Some(u.clone()),
            None => None,
        }
    }

    /// The URL of the previous batch; none at the start of the list.
    pub fn prev_url(&self) -> (r: Option<String>)
        ensures
            opt_view(r) == self@.prev,
    {
        match &self.prev {
            Some(u) => Some(u.clone()),
            None => None,
        }
    }

    /// Takes in the response to the request for the next or the previous
    /// batch. On success the items and both links are those of the response;
    /// on failure the page is left as it was.
    pub fn load<D>(&mut self, status: u16, link: Option<&str>, decode: D) -> (r: Result<(), MastodonError>) where
        D: FnOnce() -> Result<Vec<T>, MastodonError>,

        requires
            !is_error_status(status) ==> decode.requires(()),
        ensures
            exists|b: Result<Vec<T>, MastodonError>|
                batch_outcome(status, decode, b) && match b {
                    Ok(v) => r is Ok && final(self)@ == page_of(v@, opt_str_view(link)),
                    Err(e) => r == Err::<(), MastodonError>(e) && final(self)@ == old(self)@,
                },
    {
        let batch = settle(status, decode);
        let ghost b = batch;
        assert(batch_outcome(status, decode, b));
        match batch {
            Ok(v) => {
                *self = Page::from_batch(v, link);
                Ok(())
            },
            Err(e) => Err(e),
        }
    }
}

/// `s` in the opposite order.
pub open spec fn rev<T>(s: Seq<T>) -> Seq<T> {
    Seq::new(s.len(), |i: int| s[s.len() - 1 - i])
}

/// The items still to come from a lazy sequence over a whole list, and the
/// URL of the batch that comes after them.
pub struct StreamView<T> {
    pub queue: Seq<T>,
    pub next: Option<Seq<char>>,
}

/// What one step of a lazy sequence over a whole list does.
pub enum StepView<T> {
    /// Yields this item.
    Item(T),
    /// Needs the batch at this URL before it can go on.
    Fetch(Seq<char>),
    /// Has nothing more to give.
    End,
}

/// One step of a lazy sequence over a whole list, and the state after it:
/// the first waiting item if there is one; else the request for the next
/// batch if there is such a batch; else the end.
pub open spec fn step_of<T>(v: StreamView<T>) -> (StepView<T>, StreamView<T>) {
    if v.queue.len() > 0 {
        (StepView::Item(v.queue[0]), StreamView { queue: v.queue.drop_first(), next: v.next })
    } else {
        match v.next {
            Some(u) => (StepView::Fetch(u), v),
            None => (StepView::End, v),
        }
    }
}

/// The state after a batch arrives with this `Link` header: its items wait
/// behind those still waiting, and its `next` link is the one to follow.
pub open spec fn fed<T>(v: StreamView<T>, items: Seq<T>, link: Option<Seq<char>>) -> StreamView<T> {
    StreamView { queue: v.queue + items, next: header_target(link, "next"@) }
}

/// The state of a lazy sequence that starts at a page.
pub open spec fn stream_of<T>(p: PageView<T>) -> StreamView<T> {
    StreamView { queue: p.items, next: p.next }
}

/// One step of a lazy sequence.
#[derive(Debug)]
pub enum Step<T> {
    /// The next item of the list.
    Item(T),
    /// The batch at this URL is needed before the sequence can go on.
    Fetch(String),
    /// The list has no more items.
    End,
}

/// View of a step.
pub open spec fn step_view<T>(s: Step<T>) -> StepView<T> {
    match s {
        Step::Item(t) => StepView::Item(t),
        Step::Fetch(u) => StepView::Fetch(u@),
        Step::End => StepView::End,
    }
}

/// A lazy, forward-only sequence of all the items of a list, batch after
/// batch, in the order in which the instance sends them. It yields the
/// items it holds, asks for the next batch when it runs out, and ends when
/// no batch follows. It cannot be restarted.
#[derive(Debug)]
pub struct ItemStream<T> {
    pending: Vec<T>,
    next: Option<String>,
}

impl<T> View for ItemStream<T> {
    type V = StreamView<T>;

    closed spec fn view(&self) -> StreamView<T> {
        StreamView { queue: rev(self.pending@), next: opt_view(self.next) }
    }
}

/// `v` reversed into a new vector.
fn reversed<T>(v: Vec<T>) -> (r: Vec<T>)
    ensures
        r@ == rev(v@),
{
    let mut v = v;
    let ghost orig = v@;
    let mut r: Vec<T> = Vec::new();
    while v.len() > 0
        invariant
            v@.len() <= orig.len(),
            v@ == orig.subrange(0, v@.len() as int),
            r@ == rev(orig.subrange(v@.len() as int, orig.len() as int)),
        decreases v@.len(),
    {
        let ghost k = v@.len();
        let x = v.pop().unwrap();
        r.push(x);
        assert(v@ =~= orig.subrange(0, v@.len() as int));
        assert(r@ =~= rev(orig.subrange(v@.len() as int, orig.len() as int)));
    }
    assert(orig.subrange(0, orig.len() as int) =~= orig);
    r
}

impl<T> Page<T> {
    /// The lazy sequence of all the items of the list from this page on.
    pub fn items_iter(self) -> (r: ItemStream<T>)
        ensures
            r@ == stream_of(self@),
    {
        let pending = reversed(self.items);
        proof {
            let it = self.items@;
            assert(rev(rev(it)) =~= it);
        }
        ItemStream { pending, next: self.next }
    }
}

impl<T> ItemStream<T> {
    /// Moves the sequence on by one step: yields the next waiting item;
    /// with none waiting, asks for the batch at the next URL and stays as it
    /// is; with no next URL either, ends.
    pub fn step(&mut self) -> (r: Step<T>)
        ensures
            (step_view(r), final(self)@) == step_of(old(self)@),
    {
        match self.pending.pop() {
            Some(x) => {
                proof {
                    let q = rev(old(self).pending@);
                    assert(rev(self.pending@) =~= q.drop_first());
                }
                Step::Item(x)
            },
            None => match &self.next {
                Some(u) => Step::Fetch(u.clone()),
                None => Step::End,
            },
        }
    }

    /// Takes in the response to the request for the next batch. On success
    /// its items wait behind those still waiting and its `next` link is the
    /// one to follow; on failure the sequence is left as it was.
    pub fn load<D>(&mut self, status: u16, link: Option<&str>, decode: D) -> (r: Result<(), MastodonError>) where
        D: FnOnce() -> Result<Vec<T>, MastodonError>,

        requires
            !is_error_status(status) ==> decode.requires(()),
        ensures
            exists|b: Result<Vec<T>, MastodonError>|
                batch_outcome(status, decode, b) && match b {
                    Ok(v) => r is Ok && final(self)@ == fed(old(self)@, v@, opt_str_view(link)),
                    Err(e) => r == Err::<(), MastodonError>(e) && final(self)@ == old(self)@,
                },
    {
        let batch = settle(status, decode);
        let ghost b = batch;
        assert(batch_outcome(status, decode, b));
        match batch {
            Ok(v) => {
                let page = Page::from_batch(v, link);
                let ghost items = page.items@;
                let ghost old_pending = self.pending@;
                let mut pending = reversed(page.items);
                pending.append(&mut self.pending);
                assert(rev(pending@) =~= rev(old_pending) + items);
                self.pending = pending;
                self.next = page.next;
                Ok(())
            },
            Err(e) => Err(e),
        }
    }
}

/// The items of a run of batches, one batch after the other.
pub open spec fn batches<T>(replies: Seq<(Seq<T>, Option<Seq<char>>)>) -> Seq<T>
    decreases replies.len(),
{
    if replies.len() == 0 {
        Seq::empty()
    } else {
        replies[0].0 + batches(replies.drop_first())
    }
}

/// Each batch of the run is the one that the `next` link before it points
/// to, and the last has no `next` link: `link` is the `Link` header of the
/// first page, and each reply a batch with its own `Link` header.
pub open spec fn chained<T>(link: Option<Seq<char>>, replies: Seq<(Seq<T>, Option<Seq<char>>)>) -> bool
    decreases replies.len(),
{
    if replies.len() == 0 {
        header_target(link, "next"@) is None
    } else {
        header_target(link, "next"@) is Some && chained(replies[0].1, replies.drop_first())
    }
}

/// What a lazy sequence in state `v` yields when each batch it asks for is
/// answered by the next of `replies`, and whether it then ends (rather than
/// asking for a batch beyond the replies).
pub open spec fn drain<T>(v: StreamView<T>, replies: Seq<(Seq<T>, Option<Seq<char>>)>) -> (Seq<T>, bool)
    decreases replies.len(), v.queue.len(),
{
    let (s, w) = step_of(v);
    match s {
        StepView::Item(t) => {
            let (rest, ended) = drain(w, replies);
            (seq![t] + rest, ended)
        },
        StepView::Fetch(_) => if replies.len() == 0 {
            (Seq::empty(), false)
        } else {
            drain(fed(w, replies[0].0, replies[0].1), replies.drop_first())
        },
        StepView::End => (Seq::empty(), true),
    }
}

proof fn lemma_drain_queue<T>(v: StreamView<T>, replies: Seq<(Seq<T>, Option<Seq<char>>)>)
    ensures
        drain(v, replies) == (v.queue + drain(StreamView { queue: Seq::empty(), next: v.next }, replies).0,
            drain(StreamView { queue: Seq::empty(), next: v.next }, replies).1),
    decreases v.queue.len(),
{
    if v.queue.len() == 0 {
        assert(v.queue =~= Seq::<T>::empty());
        assert(v == StreamView { queue: Seq::<T>::empty(), next: v.next });
    } else {
        let w = StreamView { queue: v.queue.drop_first(), next: v.next };
        lemma_drain_queue(w, replies);
        assert(seq![v.queue[0]] + v.queue.drop_first() =~= v.queue);
        assert(seq![v.queue[0]] + (w.queue + drain(StreamView { queue: Seq::empty(), next: v.next }, replies).0)
            =~= v.queue + drain(StreamView { queue: Seq::empty(), next: v.next }, replies).0);
    }
}

/// A lazy sequence started on a page whose batches run, through their
/// `next` links, to a batch without one yields exactly the items of all the
/// batches, in the order of the batches and of the items within each, and
/// then ends.
pub proof fn lemma_stream_yields_all<T>(
    first: Seq<T>,
    link: Option<Seq<char>>,
    replies: Seq<(Seq<T>, Option<Seq<char>>)>,
)
    requires
        chained(link, replies),
    ensures
        drain(stream_of(page_of(first, link)), replies) == (first + batches(replies), true),
    decreases replies.len(),
{
    let v = stream_of(page_of(first, link));
    let e = StreamView { queue: Seq::<T>::empty(), next: v.next };
    lemma_drain_queue(v, replies);
    if replies.len() == 0 {
        assert(first + Seq::<T>::empty() =~= first);
    } else {
        let r0 = replies[0];
        lemma_stream_yields_all(r0.0, r0.1, replies.drop_first());
        assert(fed(e, r0.0, r0.1).queue =~= r0.0);
        assert(fed(e, r0.0, r0.1) == stream_of(page_of(r0.0, r0.1)));
        assert(first + (r0.0 + batches(replies.drop_first())) =~= first + batches(replies));
    }
}

/// A response without a `Link` header makes a page with neither a next nor
/// a previous URL: moving on from it needs no request.
pub proof fn lemma_no_link_ends<T>(items: Seq<T>)
    ensures
        page_of(items, None).next is None,
        page_of(items, None).prev is None,
        page_of(items, None).items == items,
        step_of(StreamView { queue: Seq::<T>::empty(), next: page_of(items, None).next }).0
            is End,
{
}

/// The page after moving from `p` along its `next` link (`forward`) or its
/// `prev` link, when the instance answers each URL `u` with the batch and
/// `Link` header `server(u)`: what `Page::load` makes of that response. With
/// no such link no request is made and the page stays as it is.
pub open spec fn follow<T>(
    p: PageView<T>,
    forward: bool,
    server: spec_fn(Seq<char>) -> (Seq<T>, Option<Seq<char>>),
) -> PageView<T> {
    match (if forward { p.next } else { p.prev }) {
        Some(u) => page_of(server(u).0, server(u).1),
        None => p,
    }
}

/// Where the instance answers A's URL with A's batch and a `Link` header
/// that points to B's URL as `next`, and answers B's URL with a `Link`
/// header that points back to A's URL as `prev`: from the page made of A's
/// response, moving to the next page and then to the previous one brings
/// back that same page, A's items and links.
pub proof fn lemma_next_then_prev<T>(
    server: spec_fn(Seq<char>) -> (Seq<T>, Option<Seq<char>>),
    a_url: Seq<char>,
    b_url: Seq<char>,
)
    requires
        header_target(server(a_url).1, "next"@) == Some(b_url),
        header_target(server(b_url).1, "prev"@) == Some(a_url),
    ensures
        follow(follow(page_of(server(a_url).0, server(a_url).1), true, server), false, server)
            == page_of(server(a_url).0, server(a_url).1),
        follow(follow(page_of(server(a_url).0, server(a_url).1), true, server), false, server).items
            == server(a_url).0,
{
}

} // verus!
