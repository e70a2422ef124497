//! The reactor: the slab of registered sources, and the step that turns the
//! events of one `epoll_wait` into cached readiness and wakers to wake.

use vstd::prelude::*;
use std::io;
use std::task::Poll;
use std::task::Waker;
use slab::Slab;
use super::epoll::ctl;
use super::epoll::CtlRequest;
use super::epoll::Epoll;
use super::epoll::Event;
use super::epoll::Interest;
use super::epoll::RawFd;
use super::epoll::Token;
use super::epoll::WaitRequest;
use super::io_source::Direction;
use super::io_source::IoSource;
use super::io_source::IoSourceView;
use super::io_source::reports;

verus! {

/// `slab::Slab`, opaque.
#[verifier::external_type_specification]
#[verifier::external_body]
#[verifier::reject_recursive_types(T)]
pub struct ExSlab<T>(slab::Slab<T>);

/// The values that a slab of sources holds, each under its key.
pub uninterp spec fn slab_entries(slab: Slab<IoSource>) -> Map<usize, IoSource>;

/// The key that the slab's next insertion will use.
pub uninterp spec fn slab_vacant_key(slab: Slab<IoSource>) -> usize;

/// `Slab::new`: a slab that holds nothing and whose first insertion gets the
/// key 0.
#[verifier::external_body]
fn slab_new() -> (fresh: Slab<IoSource>)
    ensures
        slab_entries(fresh) =~= Map::empty(),
        slab_vacant_key(fresh) == 0,
{
    Slab::new()
}

/// `Slab::vacant_key`: the key of the next insertion, under which the slab
/// holds nothing.
#[verifier::external_body]
fn slab_next_key(slab: &Slab<IoSource>) -> (key: usize)
    ensures
        key == slab_vacant_key(*slab),
        !slab_entries(*slab).dom().contains(key),
{
    slab.vacant_key()
}

/// `Slab::insert`: stores the value under the vacant key and returns that
/// key; what the slab held stays, and the key of the next insertion is again
/// one under which the slab holds nothing. The crate's function panics when
/// its storage would exceed `isize::MAX` bytes; as with `Vec::push`, that
/// limit of memory is outside what the contract describes.
#[verifier::external_body]
fn slab_insert(slab: &mut Slab<IoSource>, source: IoSource) -> (key: usize)
    ensures
        key == slab_vacant_key(*old(slab)),
        !slab_entries(*old(slab)).dom().contains(key),
        slab_entries(*final(slab)) == slab_entries(*old(slab)).insert(key, source),
        !slab_entries(*final(slab)).dom().contains(slab_vacant_key(*final(slab))),
{
    slab.insert(source)
}

/// `Slab::contains`: whether a value stands under the key.
#[verifier::external_body]
fn slab_contains(slab: &Slab<IoSource>, key: usize) -> (b: bool)
    ensures
        b == slab_entries(*slab).dom().contains(key),
{
    slab.contains(key)
}

/// `Slab::get`: the value under the key, if there is one.
#[verifier::external_body]
fn slab_get(slab: &Slab<IoSource>, key: usize) -> (source: Option<&IoSource>)
    ensures
        source is Some == slab_entries(*slab).dom().contains(key),
        source is Some ==> *source->0 == slab_entries(*slab)[key],
{
    slab.get(key)
}

/// `Slab::get_mut`: the value under the key, if there is one, to be changed
/// in place; the slab then holds what the caller leaves there, and everything
/// else as before.
#[verifier::external_body]
fn slab_get_mut(slab: &mut Slab<IoSource>, key: usize) -> (source: Option<&mut IoSource>)
    ensures
        match source {
            Some(entry) => slab_entries(*old(slab)).dom().contains(key)
                && *entry == slab_entries(*old(slab))[key]
                && slab_entries(*final(slab)) == slab_entries(*old(slab)).insert(key, *final(entry))
                && slab_vacant_key(*final(slab)) == slab_vacant_key(*old(slab)),
            None => !slab_entries(*old(slab)).dom().contains(key)
                && slab_entries(*final(slab)) == slab_entries(*old(slab))
                && slab_vacant_key(*final(slab)) == slab_vacant_key(*old(slab)),
        },
{
    slab.get_mut(key)
}

/// `Slab::remove`: takes out and returns the value under the key, which is
/// then the key of the next insertion. The crate's function panics where the
/// key holds nothing, so that is required.
#[verifier::external_body]
fn slab_remove(slab: &mut Slab<IoSource>, key: usize) -> (source: IoSource)
    requires
        slab_entries(*old(slab)).dom().contains(key),
    ensures
        source == slab_entries(*old(slab))[key],
        slab_entries(*final(slab)) == slab_entries(*old(slab)).remove(key),
        slab_vacant_key(*final(slab)) == key,
{
    slab.remove(key)
}

/// The sources after the reactor has seen `event`: the source under the
/// event's token, if there is one, takes the event's readiness and loses the
/// wakers that the event fires. An event for a token that names no source
/// changes nothing.
pub open spec fn react_one(sources: Map<usize, IoSourceView>, event: Event) -> Map<
    usize,
    IoSourceView,
> {
    let key = event@.token().0;
    if sources.dom().contains(key) {
        sources.insert(key, sources[key].reacted(event@))
    } else {
        sources
    }
}

/// The wakers that `event` fires among `sources`.
pub open spec fn fired_by(sources: Map<usize, IoSourceView>, event: Event) -> Seq<Waker> {
    let key = event@.token().0;
    if sources.dom().contains(key) {
        sources[key].with_readiness_of(event@).fired(event@)
    } else {
        Seq::<Waker>::empty()
    }
}

/// The sources after the reactor has seen `events`, first to last.
pub open spec fn reacted(sources: Map<usize, IoSourceView>, events: Seq<Event>) -> Map<
    usize,
    IoSourceView,
>
    decreases events.len(),
{
    if events.len() == 0 {
        sources
    } else {
        react_one(reacted(sources, events.drop_last()), events.last())
    }
}

/// The wakers that `events` fire among `sources`, in the order of the events
/// and, within one event, reader before writer.
pub open spec fn fired(sources: Map<usize, IoSourceView>, events: Seq<Event>) -> Seq<Waker>
    decreases events.len(),
{
    if events.len() == 0 {
        Seq::<Waker>::empty()
    } else {
        fired(sources, events.drop_last()) + fired_by(
            reacted(sources, events.drop_last()),
            events.last(),
        )
    }
}

/// What the reactor and its handles share: the event queue and the sources
/// registered in it.
pub struct Inner {
    /// The event queue.
    poll: Epoll,
    /// The I/O sources registered in the event queue, each under its token.
    sources: Slab<IoSource>,
}

impl Inner {
    /// The registered sources, each under the number of its token.
    pub closed spec fn sources(&self) -> Map<usize, IoSourceView> {
        slab_entries(self.sources).map_values(|source: IoSource| source@)
    }

    /// The descriptor of the event queue.
    pub closed spec fn epfd(&self) -> RawFd {
        self.poll@
    }

    /// The number of the token that the next registration gets.
    pub closed spec fn vacant_key(&self) -> usize {
        slab_vacant_key(self.sources)
    }

    /// Every source carries the token of its own slot, and the slot of the
    /// next registration is free.
    pub open spec fn wf(&self) -> bool {
        &&& forall|key: usize| #[trigger]
            self.sources().dom().contains(key) ==> self.sources()[key].token == Token(key)
        &&& !self.sources().dom().contains(self.vacant_key())
    }

    /// A reactor state without any source.
    pub fn new(poll: Epoll) -> (inner: Inner)
        ensures
            inner.wf(),
            inner.epfd() == poll@,
            inner.sources() == Map::<usize, IoSourceView>::empty(),
            inner.vacant_key() == 0,
    {
        let sources = slab_new();
        let inner = Inner { poll, sources };
        assert(inner.sources() =~= Map::<usize, IoSourceView>::empty());
        inner
    }

    /// The event queue.
    pub fn poll(&self) -> (poll: &Epoll)
        ensures
            poll@ == self.epfd(),
    {
        &self.poll
    }

    /// The `epoll_ctl` call that the next registration has to make before it
    /// goes into the slab: it adds `io` under the token of the vacant slot.
    pub fn registration(&self, io: RawFd, interest: Interest) -> (request: CtlRequest)
        ensures
            request.epfd == self.epfd(),
            request.op == super::epoll::CtlOp::ADD,
            request.fd == io,
            request.event is Some,
            request.event->0@ == (super::epoll::EventView {
                interest: interest@,
                data: self.vacant_key() as u64,
            }),
    {
        let token = Token(slab_next_key(&self.sources));
        self.poll.add(io, interest, token)
    }

    /// Registers `io` once `epoll_ctl` has answered the call of
    /// `registration` with `added`. On success the vacant slot holds a new
    /// source for `io`, whose token is returned. On failure the slab is as it
    /// was and the operating system's error is returned.
    pub fn register(&mut self, io: RawFd, added: i32) -> (r: io::Result<Token>)
        requires
            old(self).wf(),
        ensures
            final(self).wf(),
            final(self).epfd() == old(self).epfd(),
            added < 0 ==> r is Err && final(self).sources() == old(self).sources()
                && final(self).vacant_key() == old(self).vacant_key(),
            added >= 0 ==> r == Ok::<Token, io::Error>(Token(old(self).vacant_key()))
                && final(self).sources() == old(self).sources().insert(
                old(self).vacant_key(),
                IoSourceView {
                    io,
                    tick: 0,
                    token: Token(old(self).vacant_key()),
                    readable: false,
                    writable: false,
                    reader: None,
                    writer: None,
                },
            ),
    {
        match ctl(added) {
            Ok(()) => {},
            Err(e) => {
                return Err(e);
            },
        }
        let token = Token(slab_next_key(&self.sources));
        let source = IoSource::new(io, token);
        let key = slab_insert(&mut self.sources, source);
        proof {
            assert(final(self).sources() =~= old(self).sources().insert(key, source@));
        }
        Ok(token)
    }

    /// Whether a source is registered under `token`.
    pub fn contains(&self, token: Token) -> (b: bool)
        ensures
            b == self.sources().dom().contains(token.0),
    {
        slab_contains(&self.sources, token.0)
    }

    /// The source registered under `token`, if there is one.
    pub fn source(&self, token: Token) -> (source: Option<&IoSource>)
        ensures
            source is Some == self.sources().dom().contains(token.0),
            source is Some ==> source->0@ == self.sources()[token.0],
    {
        slab_get(&self.sources, token.0)
    }

    /// Takes the source of `token` out of the slab and returns the
    /// `epoll_ctl` call that removes its descriptor from the event queue. The
    /// slab entry goes first, so that no event that is still under way finds
    /// the source.
    pub fn deregister(&mut self, token: Token) -> (request: CtlRequest)
        requires
            old(self).wf(),
            old(self).sources().dom().contains(token.0),
        ensures
            final(self).wf(),
            final(self).epfd() == old(self).epfd(),
            final(self).sources() == old(self).sources().remove(token.0),
            final(self).vacant_key() == token.0,
            request.epfd == old(self).epfd(),
            request.op == super::epoll::CtlOp::DEL,
            request.fd == old(self).sources()[token.0].io,
            request.event is None,
    {
        let source = slab_remove(&mut self.sources, token.0);
        proof {
            assert(final(self).sources() =~= old(self).sources().remove(token.0));
        }
        self.poll.delete(source.io)
    }

    /// `deregister` where a source stands under `token`; nothing, and no
    /// change, where none does.
    pub fn try_deregister(&mut self, token: Token) -> (request: Option<CtlRequest>)
        requires
            old(self).wf(),
        ensures
            final(self).wf(),
            final(self).epfd() == old(self).epfd(),
            final(self).sources() == old(self).sources().remove(token.0),
            request is Some == old(self).sources().dom().contains(token.0),
            request is None ==> final(self).vacant_key() == old(self).vacant_key(),
            request is Some ==> {
                &&& final(self).vacant_key() == token.0
                &&& request->0.epfd == old(self).epfd()
                &&& request->0.op == super::epoll::CtlOp::DEL
                &&& request->0.fd == old(self).sources()[token.0].io
                &&& request->0.event is None
            },
    {
        if self.contains(token) {
            Some(self.deregister(token))
        } else {
            proof {
                assert(self.sources() =~= self.sources().remove(token.0));
            }
            None
        }
    }

    /// `IoSource::poll_ready` on the source of `token`.
    pub fn poll_ready(&mut self, token: Token, direction: Direction, waker: &Waker) -> (r: Poll<
        io::Result<()>,
    >)
        requires
            old(self).wf(),
            old(self).sources().dom().contains(token.0),
        ensures
            final(self).wf(),
            final(self).epfd() == old(self).epfd(),
            final(self).vacant_key() == old(self).vacant_key(),
            old(self).sources()[token.0].ready(direction) ==> r == Poll::Ready(
                Ok::<(), io::Error>(()),
            ) && final(self).sources() == old(self).sources(),
            !old(self).sources()[token.0].ready(direction) ==> r is Pending
                && final(self).sources() == old(self).sources().insert(
                token.0,
                old(self).sources()[token.0].with_waiter(direction, *waker),
            ),
    {
        match slab_get_mut(&mut self.sources, token.0) {
            Some(source) => {
                let r = source.poll_ready(direction, waker);
                proof {
                    assert(final(self).sources() =~= old(self).sources().insert(
                        token.0,
                        final(source)@,
                    ));
                    assert(old(self).sources().insert(token.0, old(self).sources()[token.0])
                        =~= old(self).sources());
                }
                r
            },
            None => Poll::Pending,
        }
    }

    /// `IoSource::clear_readiness` on the source of `token`.
    pub fn clear_readiness(&mut self, token: Token, direction: Direction)
        requires
            old(self).wf(),
            old(self).sources().dom().contains(token.0),
        ensures
            final(self).wf(),
            final(self).epfd() == old(self).epfd(),
            final(self).vacant_key() == old(self).vacant_key(),
            final(self).sources() == old(self).sources().insert(
                token.0,
                old(self).sources()[token.0].cleared(direction),
            ),
    {
        match slab_get_mut(&mut self.sources, token.0) {
            Some(source) => {
                source.clear_readiness(direction);
                proof {
                    assert(final(self).sources() =~= old(self).sources().insert(
                        token.0,
                        final(source)@,
                    ));
                }
            },
            None => {},
        }
    }

    /// Takes in the events of one wait, first to last: each source that an
    /// event names gets the event's readiness and gives up the wakers that
    /// the event fires. An event whose token names no source is passed over:
    /// its source was deregistered while the event was under way. Returns the
    /// wakers to wake, in the order in which they were fired.
    pub fn dispatch(&mut self, events: &Vec<Event>) -> (wakers: Vec<Waker>)
        requires
            old(self).wf(),
        ensures
            final(self).wf(),
            final(self).epfd() == old(self).epfd(),
            final(self).vacant_key() == old(self).vacant_key(),
            final(self).sources() == reacted(old(self).sources(), events@),
            wakers@ == fired(old(self).sources(), events@),
    {
        let mut wakers: Vec<Waker> = Vec::new();
        let mut i: usize = 0;
        while i < events.len()
            invariant
                i <= events@.len(),
                self.wf(),
                self.epfd() == old(self).epfd(),
                self.vacant_key() == old(self).vacant_key(),
                self.sources() == reacted(old(self).sources(), events@.take(i as int)),
                wakers@ == fired(old(self).sources(), events@.take(i as int)),
            decreases events@.len() - i,
        {
            let ghost before = self.sources();
            let ghost fired_before = wakers@;
            assert(events@.take(i + 1).drop_last() =~= events@.take(i as int));
            assert(events@.take(i + 1).last() == events@[i as int]);
            let event = &events[i];
            let token = event.token();
            match slab_get_mut(&mut self.sources, token.0) {
                Some(source) => {
                    source.set_readiness(event);
                    let mut more = source.take_wakers(event);
                    wakers.append(&mut more);
                    proof {
                        assert(before.dom().contains(token.0));
                        assert(final(source)@.token == before[token.0].token);
                        assert(self.sources() =~= before.insert(token.0, final(source)@));
                        assert forall|key: usize| #[trigger]
                            self.sources().dom().contains(key) implies self.sources()[key].token
                            == Token(key) by {
                            assert(before.dom().contains(key));
                        }
                    }
                },
                None => {
                    proof {
                        assert(self.sources() =~= before);
                        assert(wakers@ =~= fired_before + Seq::<Waker>::empty());
                    }
                },
            }
            i += 1;
        }
        assert(events@.take(events@.len() as int) =~= events@);
        wakers
    }
}

/// The reactor: the buffer that takes the events of each wait, and the
/// sources that the events are for.
pub struct Reactor {
    /// The events of the last wait.
    events: Vec<Event>,
    /// The event queue and the sources.
    inner: Inner,
}

impl Reactor {
    /// The reactor's event queue and sources.
    pub closed spec fn inner(&self) -> Inner {
        self.inner
    }

    /// The events of the last wait.
    pub closed spec fn events(&self) -> Seq<Event> {
        self.events@
    }

    /// A reactor on the event queue that `epoll_create1` has answered with
    /// `created`, without sources; the operating system's error where
    /// `created` is negative.
    pub fn new(created: i32) -> (r: io::Result<Reactor>)
        ensures
            created < 0 ==> r is Err,
            created >= 0 ==> r is Ok && r->Ok_0.inner().wf() && r->Ok_0.inner().epfd() == created
                && r->Ok_0.inner().sources() == Map::<usize, IoSourceView>::empty()
                && r->Ok_0.inner().vacant_key() == 0
                && r->Ok_0.events().len() == 0,
    {
        match Epoll::new(created) {
            Ok(poll) => Ok(Reactor { events: Vec::new(), inner: Inner::new(poll) }),
            Err(e) => Err(e),
        }
    }

    /// The event queue and the sources.
    pub fn handle(&self) -> (inner: &Inner)
        ensures
            *inner == self.inner(),
    {
        &self.inner
    }

    /// The event queue and the sources, to register and deregister with.
    pub fn handle_mut(&mut self) -> (inner: &mut Inner)
        ensures
            *inner == old(self).inner(),
            final(self).inner() == *final(inner),
            final(self).events() == old(self).events(),
    {
        &mut self.inner
    }

    /// The `epoll_wait` call of one turn, into a buffer with room for
    /// `capacity` events.
    pub fn wait(&self, capacity: usize, timeout: Option<u128>) -> (request: WaitRequest)
        ensures
            request.epfd == self.inner().epfd(),
            request.maxevents == capacity as i32,
            request.timeout == super::epoll::timeout_millis(timeout),
    {
        self.inner.poll().wait(capacity, timeout)
    }

    /// Processes one wait, which `epoll_wait` has answered with `result`
    /// after writing `received`. A negative result is the kernel's error: it
    /// goes to the caller, and no source changes. Otherwise the first `result`
    /// events are taken in as `Inner::dispatch` does, and the wakers to wake
    /// are returned.
    pub fn react(&mut self, received: &Vec<Event>, result: i32) -> (r: io::Result<Vec<Waker>>)
        requires
            old(self).inner().wf(),
        ensures
            final(self).inner().wf(),
            final(self).inner().epfd() == old(self).inner().epfd(),
            final(self).inner().vacant_key() == old(self).inner().vacant_key(),
            result < 0 ==> r is Err && final(self).inner().sources() == old(self).inner().sources(),
            result >= 0 ==> r is Ok && final(self).events() == delivered(received@, result)
                && final(self).inner().sources() == reacted(
                old(self).inner().sources(),
                delivered(received@, result),
            ) && r->Ok_0@ == fired(old(self).inner().sources(), delivered(received@, result)),
    {
        match Epoll::poll(&mut self.events, received, result) {
            Ok(()) => {},
            Err(e) => {
                return Err(e);
            },
        }
        let wakers = self.inner.dispatch(&self.events);
        Ok(wakers)
    }
}

/// The events that a wait delivered: the first `result` of what the kernel
/// wrote, or all of it where `result` claims more.
pub open spec fn delivered(received: Seq<Event>, result: i32) -> Seq<Event> {
    received.take(
        if result <= received.len() {
            result as int
        } else {
            received.len() as int
        },
    )
}

/// An event whose token names no source changes nothing and wakes nobody:
/// once a source is deregistered, an event for it that is still under way
/// finds no slot.
pub proof fn lemma_miss_is_ignored(sources: Map<usize, IoSourceView>, event: Event)
    requires
        !sources.dom().contains(event@.token().0),
    ensures
        react_one(sources, event) == sources,
        fired_by(sources, event) == Seq::<Waker>::empty(),
{
}

/// Events change sources in place: none is added, none is removed.
pub proof fn lemma_reacted_keeps_keys(sources: Map<usize, IoSourceView>, events: Seq<Event>)
    ensures
        reacted(sources, events).dom() == sources.dom(),
    decreases events.len(),
{
    if events.len() > 0 {
        lemma_reacted_keeps_keys(sources, events.drop_last());
        assert(reacted(sources, events).dom() =~= sources.dom());
    }
}

/// The cache holds what the last event for a source has reported: after a
/// wait, a source is ready to be read exactly if the last event that named it
/// said so, and likewise to be written. A poll of the source for that
/// direction is then ready at once.
pub proof fn lemma_last_event_decides_readiness(
    sources: Map<usize, IoSourceView>,
    events: Seq<Event>,
    i: int,
)
    requires
        0 <= i < events.len(),
        sources.dom().contains(events[i]@.token().0),
        forall|j: int|
            i < j < events.len() ==> (#[trigger] events[j])@.token().0 != events[i]@.token().0,
    ensures
        reacted(sources, events).dom().contains(events[i]@.token().0),
        reacted(sources, events)[events[i]@.token().0].readable == events[i]@.is_readable(),
        reacted(sources, events)[events[i]@.token().0].writable == events[i]@.is_writable(),
        forall|direction: Direction|
            reports(events[i]@, direction) ==> #[trigger] reacted(
                sources,
                events,
            )[events[i]@.token().0].ready(direction),
    decreases events.len(),
{
    let front = events.drop_last();
    lemma_reacted_keeps_keys(sources, front);
    if i < events.len() - 1 {
        assert(front[i] == events[i]);
        assert forall|j: int| i < j < front.len() implies (#[trigger] front[j])@.token().0
            != front[i]@.token().0 by {
            assert(front[j] == events[j]);
        }
        lemma_last_event_decides_readiness(sources, front, i);
        assert(events.last() == events[events.len() - 1]);
    }
}

/// What the first events of a wait have fired stays fired when the rest of
/// the events are taken in.
pub proof fn lemma_fired_grows(
    sources: Map<usize, IoSourceView>,
    events: Seq<Event>,
    n: int,
    waker: Waker,
)
    requires
        0 <= n <= events.len(),
        fired(sources, events.take(n)).contains(waker),
    ensures
        fired(sources, events).contains(waker),
    decreases events.len() - n,
{
    if n == events.len() {
        assert(events.take(n) =~= events);
    } else {
        assert(events.drop_last().take(n) =~= events.take(n));
        lemma_fired_grows(sources, events.drop_last(), n, waker);
        let head = fired(sources, events.drop_last());
        let tail = fired_by(reacted(sources, events.drop_last()), events.last());
        let at = choose|at: int| 0 <= at < head.len() && head[at] == waker;
        assert((head + tail)[at] == waker);
    }
}

/// A waiter stays in its slot as long as no event for its source reports its
/// direction.
proof fn lemma_waiter_stays(
    sources: Map<usize, IoSourceView>,
    events: Seq<Event>,
    key: usize,
    direction: Direction,
)
    requires
        sources.dom().contains(key),
        forall|j: int|
            0 <= j < events.len() ==> !(events[j]@.token().0 == key && reports(
                #[trigger] events[j]@,
                direction,
            )),
    ensures
        reacted(sources, events).dom().contains(key),
        reacted(sources, events)[key].waiter(direction) == sources[key].waiter(direction),
    decreases events.len(),
{
    if events.len() > 0 {
        let front = events.drop_last();
        assert forall|j: int| 0 <= j < front.len() implies !(front[j]@.token().0 == key && reports(
            #[trigger] front[j]@,
            direction,
        )) by {
            assert(front[j] == events[j]);
        }
        lemma_waiter_stays(sources, front, key, direction);
        assert(events.last() == events[events.len() - 1]);
    }
}

/// Every event for a registered source wakes whoever waited on that source
/// for what the event reports: if `waker` stood in the source's slot of
/// `direction` when the wait began, and one of the events names the source
/// and reports that direction, then `waker` is among the wakers fired.
pub proof fn lemma_event_wakes_waiter(
    sources: Map<usize, IoSourceView>,
    events: Seq<Event>,
    i: int,
    direction: Direction,
    waker: Waker,
)
    requires
        0 <= i < events.len(),
        sources.dom().contains(events[i]@.token().0),
        sources[events[i]@.token().0].waiter(direction) == Some(waker),
        reports(events[i]@, direction),
    ensures
        fired(sources, events).contains(waker),
    decreases i,
{
    let key = events[i]@.token().0;
    if exists|j: int| 0 <= j < i && events[j]@.token().0 == key && reports(events[j]@, direction) {
        let j = choose|j: int|
            0 <= j < i && events[j]@.token().0 == key && reports(events[j]@, direction);
        lemma_event_wakes_waiter(sources, events, j, direction, waker);
    } else {
        let front = events.take(i);
        assert forall|j: int| 0 <= j < front.len() implies !(front[j]@.token().0 == key && reports(
            #[trigger] front[j]@,
            direction,
        )) by {
            assert(front[j] == events[j]);
        }
        lemma_waiter_stays(sources, front, key, direction);
        let upto = events.take(i + 1);
        assert(upto.drop_last() =~= front);
        assert(upto.last() == events[i]);
        let now = reacted(sources, front);
        let tail = fired_by(now, events[i]);
        let head = fired(sources, front);
        assert(fired(sources, upto) == head + tail);
        match direction {
            Direction::Read => {
                assert(tail[0] == waker);
            },
            Direction::Write => {
                assert(tail[tail.len() - 1] == waker);
            },
        }
        assert(tail.contains(waker));
        let at = choose|at: int| 0 <= at < tail.len() && tail[at] == waker;
        assert((head + tail)[head.len() + at] == waker);
        lemma_fired_grows(sources, events, i + 1, waker);
    }
}

} // verus!
