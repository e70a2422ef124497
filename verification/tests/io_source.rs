use std::sync::Arc;
use std::sync::Mutex;
use std::task::Poll;
use std::task::Wake;
use std::task::Waker;
use woi::io::epoll::Event;
use woi::io::epoll::Token;
use woi::io::epoll::EPOLLIN;
use woi::io::epoll::EPOLLOUT;
use woi::io::io_source::wake_all;
use woi::io::io_source::Direction;
use woi::io::io_source::IoSource;

struct Count(Mutex<usize>);

impl Wake for Count {
    fn wake(self: Arc<Self>) {
        *self.0.lock().unwrap() += 1;
    }
}

fn counting_waker() -> (Arc<Count>, Waker) {
    let count = Arc::new(Count(Mutex::new(0)));
    (count.clone(), Waker::from(count))
}

fn woken(count: &Arc<Count>) -> usize {
    *count.0.lock().unwrap()
}

#[test]
fn new_source_is_ready_for_nothing() {
    let source = IoSource::new(4, Token(2));
    assert_eq!(source.io, 4);
    assert_eq!(source.token, Token(2));
    assert_eq!(source.tick, 0);
    assert!(!source.readable());
    assert!(!source.writable());
    assert!(source.reader.is_none());
    assert!(source.writer.is_none());
}

#[test]
fn set_readiness_replaces_the_cache() {
    let mut source = IoSource::new(4, Token(2));
    source.set_readiness(&Event::from_raw(EPOLLIN, 2));
    assert!(source.readable() && !source.writable());
    source.set_readiness(&Event::from_raw(EPOLLOUT, 2));
    assert!(!source.readable() && source.writable());
    source.set_readiness(&Event::from_raw(EPOLLIN | EPOLLOUT, 2));
    assert!(source.readable() && source.writable());
}

#[test]
fn clear_readiness_clears_one_direction() {
    let mut source = IoSource::new(4, Token(2));
    source.set_readiness(&Event::from_raw(EPOLLIN | EPOLLOUT, 2));
    source.clear_readiness(Direction::Read);
    assert!(!source.readable() && source.writable());
    source.clear_readiness(Direction::Write);
    assert!(!source.readable() && !source.writable());
}

#[test]
fn poll_ready_on_ready_source_registers_nothing() {
    let (_count, waker) = counting_waker();
    let mut source = IoSource::new(4, Token(2));
    source.set_readiness(&Event::from_raw(EPOLLIN, 2));
    assert!(matches!(
        source.poll_ready(Direction::Read, &waker),
        Poll::Ready(Ok(()))
    ));
    assert!(source.reader.is_none());
    assert!(matches!(source.poll_readable(&waker), Poll::Ready(Ok(()))));
}

#[test]
fn poll_ready_registers_the_waker_of_the_direction() {
    let (_rc, reader) = counting_waker();
    let (_wc, writer) = counting_waker();
    let mut source = IoSource::new(4, Token(2));
    assert!(source.poll_readable(&reader).is_pending());
    assert!(source.reader.as_ref().unwrap().will_wake(&reader));
    assert!(source.writer.is_none());
    assert!(source.poll_writable(&writer).is_pending());
    assert!(source.writer.as_ref().unwrap().will_wake(&writer));
    assert!(source.reader.as_ref().unwrap().will_wake(&reader));
}

#[test]
fn later_waker_replaces_earlier() {
    let (first_count, first) = counting_waker();
    let (second_count, second) = counting_waker();
    let mut source = IoSource::new(4, Token(2));
    assert!(source.poll_readable(&first).is_pending());
    assert!(source.poll_readable(&second).is_pending());
    source.wake(&Event::from_raw(EPOLLIN, 2));
    assert_eq!(woken(&first_count), 0);
    assert_eq!(woken(&second_count), 1);
}

#[test]
fn wake_fires_reader_on_readable_event() {
    let (rc, reader) = counting_waker();
    let (wc, writer) = counting_waker();
    let mut source = IoSource::new(4, Token(2));
    assert!(source.poll_readable(&reader).is_pending());
    assert!(source.poll_writable(&writer).is_pending());
    source.wake(&Event::from_raw(EPOLLIN, 2));
    assert_eq!(woken(&rc), 1);
    assert_eq!(woken(&wc), 0);
    assert!(source.reader.is_none());
    assert!(source.writer.is_some());
}

#[test]
fn wake_fires_both_on_event_for_both() {
    let (rc, reader) = counting_waker();
    let (wc, writer) = counting_waker();
    let mut source = IoSource::new(4, Token(2));
    assert!(source.poll_readable(&reader).is_pending());
    assert!(source.poll_writable(&writer).is_pending());
    source.wake(&Event::from_raw(EPOLLIN | EPOLLOUT, 2));
    assert_eq!(woken(&rc), 1);
    assert_eq!(woken(&wc), 1);
    assert!(source.reader.is_none());
    assert!(source.writer.is_none());
    source.wake(&Event::from_raw(EPOLLIN | EPOLLOUT, 2));
    assert_eq!(woken(&rc), 1);
    assert_eq!(woken(&wc), 1);
}

#[test]
fn take_wakers_orders_reader_before_writer() {
    let (_rc, reader) = counting_waker();
    let (_wc, writer) = counting_waker();
    let mut source = IoSource::new(4, Token(2));
    assert!(source.poll_writable(&writer).is_pending());
    assert!(source.poll_readable(&reader).is_pending());
    let wakers = source.take_wakers(&Event::from_raw(EPOLLIN | EPOLLOUT, 2));
    assert_eq!(wakers.len(), 2);
    assert!(wakers[0].will_wake(&reader));
    assert!(wakers[1].will_wake(&writer));
    assert!(source
        .take_wakers(&Event::from_raw(EPOLLIN | EPOLLOUT, 2))
        .is_empty());
}

#[test]
fn take_wakers_leaves_the_other_direction() {
    let (_rc, reader) = counting_waker();
    let mut source = IoSource::new(4, Token(2));
    assert!(source.poll_readable(&reader).is_pending());
    assert!(source.take_wakers(&Event::from_raw(EPOLLOUT, 2)).is_empty());
    assert!(source.reader.is_some());
    assert!(source.take_wakers(&Event::empty()).is_empty());
    assert!(source.reader.is_some());
}

#[test]
fn wake_all_wakes_each_once() {
    let (first_count, first) = counting_waker();
    let (second_count, second) = counting_waker();
    wake_all(vec![first.clone(), second, first]);
    assert_eq!(woken(&first_count), 2);
    assert_eq!(woken(&second_count), 1);
    wake_all(Vec::new());
}
