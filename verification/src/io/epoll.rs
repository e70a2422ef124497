//! The vocabulary of `epoll`: interests, tokens, event records, the control
//! operations, and the arguments of the system calls. The calls themselves
//! are made by the caller; this module says what goes into them and what
//! their results mean.

use vstd::prelude::*;
use vstd::bytes::spec_u32_from_le_bytes;
use vstd::bytes::spec_u32_to_le_bytes;
use vstd::bytes::spec_u64_from_le_bytes;
use vstd::bytes::spec_u64_to_le_bytes;
use vstd::bytes::u32_from_le_bytes;
use vstd::bytes::u32_to_le_bytes;
use vstd::bytes::u64_from_le_bytes;
use vstd::bytes::u64_to_le_bytes;
use vstd::slice::slice_subrange;
use std::io;

verus! {

/// A raw file descriptor.
pub type RawFd = i32;

/// Data can be read.
pub const EPOLLIN: u32 = 0x0000_0001;

/// Data can be written.
pub const EPOLLOUT: u32 = 0x0000_0004;

/// The peer closed its end, or shut down the writing half.
pub const EPOLLRDHUP: u32 = 0x0000_2000;

/// Report once and disarm until the descriptor is modified.
pub const EPOLLONESHOT: u32 = 0x4000_0000;

/// Report changes of readiness, not readiness itself (edge-triggered).
pub const EPOLLET: u32 = 0x8000_0000;

/// The bits of `Interest::readable()`: `EPOLLET | EPOLLIN | EPOLLRDHUP`.
pub const READABLE_BITS: u32 = 0x8000_2001;

/// The bits of `Interest::writable()`: `EPOLLET | EPOLLOUT`.
pub const WRITABLE_BITS: u32 = 0x8000_0004;

/// Every bit that an `Interest` can hold.
pub const INTEREST_BITS: u32 = 0x8000_2005;

/// The bits by which the kernel reports that a descriptor can be read. The
/// trigger mode is a request, never a report, so it is no part of them.
pub const READ_READY_BITS: u32 = 0x0000_2001;

/// The bits by which the kernel reports that a descriptor can be written.
pub const WRITE_READY_BITS: u32 = 0x0000_0004;

pub const EPOLL_CTL_ADD: i32 = 1;

pub const EPOLL_CTL_DEL: i32 = 2;

pub const EPOLL_CTL_MOD: i32 = 3;

/// Control options for `epoll_ctl`.
#[derive(Debug, Clone, Copy, PartialEq, Eq, Structural)]
pub enum CtlOp {
    /// Adds an entry to the interest list.
    ADD,
    /// Changes the settings of an entry of the interest list.
    MOD,
    /// Removes an entry from the interest list.
    DEL,
}

impl CtlOp {
    /// The number that `epoll_ctl` knows the operation by.
    pub open spec fn spec_code(self) -> i32 {
        match self {
            CtlOp::ADD => EPOLL_CTL_ADD,
            CtlOp::MOD => EPOLL_CTL_MOD,
            CtlOp::DEL => EPOLL_CTL_DEL,
        }
    }

    #[verifier::when_used_as_spec(spec_code)]
    pub fn code(self) -> (code: i32)
        ensures
            code == self.spec_code(),
    {
        match self {
            CtlOp::ADD => EPOLL_CTL_ADD,
            CtlOp::MOD => EPOLL_CTL_MOD,
            CtlOp::DEL => EPOLL_CTL_DEL,
        }
    }
}

/// Ties an event to the slot of the source that it belongs to.
#[derive(Debug, Clone, Copy, PartialEq, Eq, Structural)]
pub struct Token(pub usize);

/// The readiness that a registrant asks for: a set of `epoll` bits.
#[derive(Debug, Clone, Copy, PartialEq, Eq, Structural)]
pub struct Interest {
    bits: u32,
}

impl View for Interest {
    type V = u32;

    closed spec fn view(&self) -> u32 {
        self.bits
    }
}

impl Interest {
    /// Interest in reading, edge-triggered.
    pub fn readable() -> (interest: Interest)
        ensures
            interest@ == READABLE_BITS,
    {
        Interest { bits: READABLE_BITS }
    }

    /// Interest in writing, edge-triggered.
    pub fn writable() -> (interest: Interest)
        ensures
            interest@ == WRITABLE_BITS,
    {
        Interest { bits: WRITABLE_BITS }
    }

    /// No interest at all.
    pub fn empty() -> (interest: Interest)
        ensures
            interest@ == 0,
    {
        Interest { bits: 0 }
    }

    /// Interest in reading and in writing.
    pub fn all() -> (interest: Interest)
        ensures
            interest@ == INTEREST_BITS,
    {
        Interest { bits: INTEREST_BITS }
    }

    /// The raw bits, as `epoll_ctl` takes them.
    pub fn bits(&self) -> (bits: u32)
        ensures
            bits == self@,
    {
        self.bits
    }

    /// The interest with exactly these bits, if every one of them is a bit of
    /// some interest.
    pub fn from_bits(bits: u32) -> (interest: Option<Interest>)
        ensures
            bits & !INTEREST_BITS == 0 ==> interest is Some && interest->0@ == bits,
            bits & !INTEREST_BITS != 0 ==> interest is None,
    {
        if bits & !INTEREST_BITS == 0 {
            Some(Interest { bits })
        } else {
            None
        }
    }

    /// The interest with these bits, without those that belong to no interest.
    pub fn from_bits_truncate(bits: u32) -> (interest: Interest)
        ensures
            interest@ == bits & INTEREST_BITS,
    {
        Interest { bits: bits & INTEREST_BITS }
    }

    pub fn is_empty(&self) -> (b: bool)
        ensures
            b == (self@ == 0),
    {
        self.bits == 0
    }

    /// Whether every bit of `other` is in `self`.
    pub fn contains(&self, other: Interest) -> (b: bool)
        ensures
            b == (self@ & other@ == other@),
    {
        self.bits & other.bits == other.bits
    }

    /// Whether `self` and `other` share a bit.
    pub fn intersects(&self, other: Interest) -> (b: bool)
        ensures
            b == (self@ & other@ != 0),
    {
        self.bits & other.bits != 0
    }

    /// The bits of either.
    pub fn union(self, other: Interest) -> (interest: Interest)
        ensures
            interest@ == self@ | other@,
    {
        Interest { bits: self.bits | other.bits }
    }

    /// The bits of both.
    pub fn intersection(self, other: Interest) -> (interest: Interest)
        ensures
            interest@ == self@ & other@,
    {
        Interest { bits: self.bits & other.bits }
    }

    /// The bits of `self` that are not in `other`.
    pub fn difference(self, other: Interest) -> (interest: Interest)
        ensures
            interest@ == self@ & !other@,
    {
        Interest { bits: self.bits & !other.bits }
    }
}

/// The size in bytes of an event in the kernel's layout: 32 bits of interest
/// and 64 bits of data, with nothing in between.
pub const EVENT_SIZE: usize = 12;

/// What an event record holds.
pub struct EventView {
    /// The `epoll` bits: what is asked for, or what the kernel reports.
    pub interest: u32,
    /// The token, widened to the kernel's 64-bit data field.
    pub data: u64,
}

/// An event as `epoll` exchanges it: 32 bits of interest followed by a 64-bit
/// data field that carries the token.
#[derive(Debug, Clone, Copy)]
pub struct Event {
    interest: u32,
    data: u64,
}

impl View for Event {
    type V = EventView;

    closed spec fn view(&self) -> EventView {
        EventView { interest: self.interest, data: self.data }
    }
}

impl EventView {
    /// The token that the data field carries.
    pub open spec fn token(self) -> Token {
        Token(self.data as usize)
    }

    /// Whether the event reports that the descriptor can be read.
    pub open spec fn is_readable(self) -> bool {
        self.interest & READ_READY_BITS != 0
    }

    /// Whether the event reports that the descriptor can be written.
    pub open spec fn is_writable(self) -> bool {
        self.interest & WRITE_READY_BITS != 0
    }

    /// The event as the kernel lays it out in memory on a little-endian
    /// machine that packs the record: the four bytes of the interest, lowest
    /// first, then the eight bytes of the data, lowest first.
    pub open spec fn bytes(self) -> Seq<u8> {
        spec_u32_to_le_bytes(self.interest) + spec_u64_to_le_bytes(self.data)
    }

    /// The event that twelve bytes of the kernel's layout hold.
    pub open spec fn of_bytes(bytes: Seq<u8>) -> EventView {
        EventView {
            interest: spec_u32_from_le_bytes(bytes.subrange(0, 4)),
            data: spec_u64_from_le_bytes(bytes.subrange(4, 12)),
        }
    }
}

impl Event {
    /// The event that registers `interest` under `token`.
    pub fn new(interest: Interest, token: Token) -> (event: Event)
        ensures
            event@ == (EventView { interest: interest@, data: token.0 as u64 }),
            event@.token() == token,
    {
        Event { interest: interest.bits(), data: token.0 as u64 }
    }

    /// The event with these bits and this data field, as the kernel hands
    /// one back.
    pub fn from_raw(interest: u32, data: u64) -> (event: Event)
        ensures
            event@ == (EventView { interest, data }),
    {
        Event { interest, data }
    }

    /// The event without interest or token.
    pub fn empty() -> (event: Event)
        ensures
            event@ == (EventView { interest: 0, data: 0 }),
    {
        Event { interest: 0, data: 0 }
    }

    /// The event in the kernel's layout.
    pub fn to_bytes(&self) -> (bytes: Vec<u8>)
        ensures
            bytes@ == self@.bytes(),
            bytes@.len() == EVENT_SIZE,
    {
        let mut bytes = u32_to_le_bytes(self.interest);
        let mut data = u64_to_le_bytes(self.data);
        bytes.append(&mut data);
        bytes
    }

    /// The event that `bytes` hold in the kernel's layout; none unless they
    /// are the bytes of exactly one event.
    pub fn from_bytes(bytes: &[u8]) -> (event: Option<Event>)
        ensures
            event is Some == (bytes@.len() == EVENT_SIZE),
            event is Some ==> event->0@ == EventView::of_bytes(bytes@),
    {
        if bytes.len() != EVENT_SIZE {
            return None;
        }
        let interest = u32_from_le_bytes(slice_subrange(bytes, 0, 4));
        let data = u64_from_le_bytes(slice_subrange(bytes, 4, 12));
        Some(Event { interest, data })
    }

    /// The first `count` events of a buffer that the kernel has written, one
    /// event after the other; fewer where the buffer holds fewer.
    pub fn decode(buffer: &[u8], count: usize) -> (events: Vec<Event>)
        ensures
            events@.len() == if count <= buffer@.len() / 12 {
                count as int
            } else {
                buffer@.len() as int / 12
            },
            forall|i: int|
                0 <= i < events@.len() ==> (#[trigger] events@[i])@ == EventView::of_bytes(
                    buffer@.subrange(12 * i, 12 * i + 12),
                ),
    {
        let mut events: Vec<Event> = Vec::new();
        let whole: usize = buffer.len() / EVENT_SIZE;
        let mut i: usize = 0;
        let mut offset: usize = 0;
        while i < count && i < whole
            invariant
                i <= count,
                i <= whole,
                whole == buffer@.len() / 12,
                buffer@.len() <= usize::MAX,
                offset == 12 * i,
                events@.len() == i,
                forall|j: int|
                    0 <= j < i ==> (#[trigger] events@[j])@ == EventView::of_bytes(
                        buffer@.subrange(12 * j, 12 * j + 12),
                    ),
            decreases whole - i,
        {
            assert(12 * (i + 1) <= 12 * whole <= buffer@.len());
            let record = slice_subrange(buffer, offset, offset + EVENT_SIZE);
            match Event::from_bytes(record) {
                Some(event) => {
                    events.push(event);
                },
                None => {},
            }
            i += 1;
            offset += EVENT_SIZE;
        }
        events
    }

    /// The token that the event carries.
    pub fn token(&self) -> (token: Token)
        ensures
            token == self@.token(),
    {
        Token(#[verifier::truncate] (self.data as usize))
    }

    /// The `epoll` bits of the event.
    pub fn interest(&self) -> (bits: u32)
        ensures
            bits == self@.interest,
    {
        self.interest
    }

    /// The data field of the event.
    pub fn data(&self) -> (data: u64)
        ensures
            data == self@.data,
    {
        self.data
    }

    /// Whether the event reports that the descriptor can be read: data has
    /// come, or the peer has closed.
    pub fn is_readable(&self) -> (b: bool)
        ensures
            b == self@.is_readable(),
    {
        self.interest & READ_READY_BITS != 0
    }

    /// Whether the event reports that the descriptor can be written.
    pub fn is_writable(&self) -> (b: bool)
        ensures
            b == self@.is_writable(),
    {
        self.interest & WRITE_READY_BITS != 0
    }
}

/// The bits of the interests are made of the kernel's bits as their names
/// say, and the bits that report readiness are those of the interest without
/// the trigger mode.
pub proof fn lemma_interest_bits()
    ensures
        READABLE_BITS == EPOLLET | EPOLLIN | EPOLLRDHUP,
        WRITABLE_BITS == EPOLLET | EPOLLOUT,
        INTEREST_BITS == READABLE_BITS | WRITABLE_BITS,
        READ_READY_BITS == READABLE_BITS & !EPOLLET,
        WRITE_READY_BITS == WRITABLE_BITS & !EPOLLET,
{
    assert(0x8000_2001u32 == 0x8000_0000u32 | 0x0000_0001u32 | 0x0000_2000u32) by (bit_vector);
    assert(0x8000_0004u32 == 0x8000_0000u32 | 0x0000_0004u32) by (bit_vector);
    assert(0x8000_2005u32 == 0x8000_2001u32 | 0x8000_0004u32) by (bit_vector);
    assert(0x0000_2001u32 == 0x8000_2001u32 & !0x8000_0000u32) by (bit_vector);
    assert(0x0000_0004u32 == 0x8000_0004u32 & !0x8000_0000u32) by (bit_vector);
}

/// The kernel's layout loses nothing: an event laid out in bytes takes twelve
/// of them, and read back from them it is the same event.
pub proof fn lemma_event_bytes_round_trip(event: EventView)
    ensures
        event.bytes().len() == EVENT_SIZE,
        EventView::of_bytes(event.bytes()) == event,
{
    vstd::bytes::lemma_auto_spec_u32_to_from_le_bytes();
    vstd::bytes::lemma_auto_spec_u64_to_from_le_bytes();
    let head = spec_u32_to_le_bytes(event.interest);
    let tail = spec_u64_to_le_bytes(event.data);
    assert(event.bytes().subrange(0, 4) =~= head);
    assert(event.bytes().subrange(4, 12) =~= tail);
}

/// What an interest asks for is what its event reports once the kernel hands
/// it back: an event with the bits of `Interest::readable()` is readable and
/// not writable, one with the bits of `Interest::writable()` is writable and
/// not readable, one with both is both, and the empty event is neither.
pub proof fn lemma_interest_readiness(data: u64)
    ensures
        (EventView { interest: READABLE_BITS, data }).is_readable(),
        !(EventView { interest: READABLE_BITS, data }).is_writable(),
        (EventView { interest: WRITABLE_BITS, data }).is_writable(),
        !(EventView { interest: WRITABLE_BITS, data }).is_readable(),
        (EventView { interest: READABLE_BITS | WRITABLE_BITS, data }).is_readable(),
        (EventView { interest: READABLE_BITS | WRITABLE_BITS, data }).is_writable(),
        !(EventView { interest: 0, data }).is_readable(),
        !(EventView { interest: 0, data }).is_writable(),
{
    assert(0x8000_2001u32 & 0x0000_2001u32 != 0 && 0x8000_2001u32 & 0x0000_0004u32 == 0)
        by (bit_vector);
    assert(0x8000_0004u32 & 0x0000_2001u32 == 0 && 0x8000_0004u32 & 0x0000_0004u32 != 0)
        by (bit_vector);
    assert((0x8000_2001u32 | 0x8000_0004u32) & 0x0000_2001u32 != 0 && (0x8000_2001u32
        | 0x8000_0004u32) & 0x0000_0004u32 != 0) by (bit_vector);
    assert(0u32 & 0x0000_2001u32 == 0 && 0u32 & 0x0000_0004u32 == 0) by (bit_vector);
}

/// Turns the result of a system call into a `Result`: a negative result is
/// the failure that the operating system last recorded, any other result is
/// handed on.
pub fn cvt(result: i32) -> (r: io::Result<i32>)
    ensures
        result >= 0 ==> r == Ok::<i32, io::Error>(result),
        result < 0 ==> r is Err,
{
    if result < 0 {
        Err(io::Error::last_os_error())
    } else {
        Ok(result)
    }
}

/// Anything that the reactor can watch: what yields a raw file descriptor.
pub trait Source {
    /// The descriptor that `raw_fd` returns.
    spec fn fd(&self) -> RawFd;

    fn raw_fd(&self) -> (fd: RawFd)
        ensures
            fd == self.fd(),
    ;
}

impl Source for RawFd {
    open spec fn fd(&self) -> RawFd {
        *self
    }

    fn raw_fd(&self) -> (fd: RawFd) {
        *self
    }
}

/// The arguments of one call of `epoll_ctl`.
#[derive(Debug, Clone, Copy)]
pub struct CtlRequest {
    /// The `epoll` instance.
    pub epfd: RawFd,
    pub op: CtlOp,
    /// The descriptor that the operation is about.
    pub fd: RawFd,
    /// The event to register; none where the operation takes none.
    pub event: Option<Event>,
}

/// The arguments of one call of `epoll_wait`, but for the buffer.
#[derive(Debug, Clone, Copy, PartialEq, Eq, Structural)]
pub struct WaitRequest {
    /// The `epoll` instance.
    pub epfd: RawFd,
    /// How many events the buffer can take.
    pub maxevents: i32,
    /// How long to wait, in milliseconds; `-1` waits without limit.
    pub timeout: i32,
}

/// The timeout of `epoll_wait` for a wait of `timeout` milliseconds: `-1`, which
/// blocks without limit, where there is none, else the milliseconds cut to 32
/// bits.
pub open spec fn timeout_millis(timeout: Option<u128>) -> i32 {
    match timeout {
        Some(millis) => millis as i32,
        None => -1i32,
    }
}

/// An `epoll` instance, known by its descriptor.
#[derive(Debug)]
pub struct Epoll {
    fd: RawFd,
}

impl View for Epoll {
    type V = RawFd;

    closed spec fn view(&self) -> RawFd {
        self.fd
    }
}

impl Epoll {
    /// The instance that `epoll_create1` has answered with `created`, or the
    /// operating system's error where that is negative.
    pub fn new(created: i32) -> (r: io::Result<Epoll>)
        ensures
            created >= 0 ==> r is Ok && r->Ok_0@ == created,
            created < 0 ==> r is Err,
    {
        match cvt(created) {
            Ok(fd) => Ok(Epoll { fd }),
            Err(e) => Err(e),
        }
    }

    /// The descriptor of the instance, which is also what `close` takes.
    pub fn fd(&self) -> (fd: RawFd)
        ensures
            fd == self@,
    {
        self.fd
    }

    /// The call that adds `source` to the interest list, to be reported under
    /// `token`.
    pub fn add<S: Source>(&self, source: S, interest: Interest, token: Token) -> (request:
        CtlRequest)
        ensures
            request.epfd == self@,
            request.op == CtlOp::ADD,
            request.fd == source.fd(),
            request.event is Some,
            request.event->0@ == (EventView { interest: interest@, data: token.0 as u64 }),
    {
        let event = Event::new(interest, token);
        CtlRequest { epfd: self.fd, op: CtlOp::ADD, fd: source.raw_fd(), event: Some(event) }
    }

    /// The call that removes `source` from the interest list.
    pub fn delete<S: Source>(&self, source: S) -> (request: CtlRequest)
        ensures
            request.epfd == self@,
            request.op == CtlOp::DEL,
            request.fd == source.fd(),
            request.event is None,
    {
        CtlRequest { epfd: self.fd, op: CtlOp::DEL, fd: source.raw_fd(), event: None }
    }

    /// The call that changes what `source` is watched for.
    pub fn modify<S: Source>(&self, source: S, interest: Interest, token: Token) -> (request:
        CtlRequest)
        ensures
            request.epfd == self@,
            request.op == CtlOp::MOD,
            request.fd == source.fd(),
            request.event is Some,
            request.event->0@ == (EventView { interest: interest@, data: token.0 as u64 }),
    {
        let event = Event::new(interest, token);
        CtlRequest { epfd: self.fd, op: CtlOp::MOD, fd: source.raw_fd(), event: Some(event) }
    }

    /// The call that waits for events into a buffer with room for `capacity`
    /// of them, for `timeout` milliseconds or, without a timeout, until one
    /// comes.
    pub fn wait(&self, capacity: usize, timeout: Option<u128>) -> (request: WaitRequest)
        ensures
            request.epfd == self@,
            request.maxevents == capacity as i32,
            request.timeout == timeout_millis(timeout),
    {
        let timeout: i32 = match timeout {
            Some(millis) => #[verifier::truncate] (millis as i32),
            None => -1,
        };
        WaitRequest { epfd: self.fd, maxevents: #[verifier::truncate] (capacity as i32), timeout }
    }

    /// Fills the caller's buffer after `epoll_wait` has answered `result`: the
    /// buffer is cleared, then holds the first `result` events of `received`,
    /// which is what the kernel wrote. A negative result is the operating
    /// system's error and leaves the buffer empty.
    pub fn poll(events: &mut Vec<Event>, received: &Vec<Event>, result: i32) -> (r: io::Result<()>)
        ensures
            result < 0 ==> r is Err && final(events)@.len() == 0,
            result >= 0 ==> r is Ok && final(events)@ == received@.take(
                if result <= received@.len() {
                    result as int
                } else {
                    received@.len() as int
                },
            ),
    {
        events.clear();
        let n: i32 = match cvt(result) {
            Ok(n) => n,
            Err(e) => {
                return Err(e);
            },
        };
        let n: usize = n as usize;
        let mut i: usize = 0;
        while i < n && i < received.len()
            invariant
                i <= n,
                i <= received@.len(),
                events@ == received@.take(i as int),
            decreases received@.len() - i,
        {
            events.push(received[i]);
            i += 1;
        }
        Ok(())
    }
}

/// What `epoll_ctl` or `close` has answered with `result`: nothing on
/// success, the operating system's error where it is negative.
pub fn ctl(result: i32) -> (r: io::Result<()>)
    ensures
        (result >= 0) == (r is Ok),
{
    match cvt(result) {
        Ok(_) => Ok(()),
        Err(e) => Err(e),
    }
}

} // verus!
