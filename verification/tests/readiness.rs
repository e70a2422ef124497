use woi::io::epoll::Event;
use woi::io::epoll::Interest;
use woi::io::epoll::Token;
use woi::io::epoll::EPOLLIN;
use woi::io::epoll::EPOLLOUT;
use woi::io::readiness::Readiness;

#[test]
fn empty_readiness() {
    let r = Readiness::empty();
    assert!(r.is_empty());
    assert!(!r.is_readable());
    assert!(!r.is_writable());
}

#[test]
fn readiness_from_event() {
    let r = Readiness::from_event(&Event::from_raw(EPOLLIN, 0));
    assert!(r.is_readable() && !r.is_writable());
    let r = Readiness::from_event(&Event::from_raw(EPOLLOUT, 0));
    assert!(!r.is_readable() && r.is_writable());
    let r = Readiness::from_event(&Event::from_raw(EPOLLIN | EPOLLOUT, 0));
    assert!(r.is_readable() && r.is_writable());
    let r = Readiness::from_event(&Event::empty());
    assert!(r.is_empty());
    let r = Readiness::from_event(&Event::new(Interest::readable(), Token(0)));
    assert!(r.is_readable() && !r.is_writable());
}

#[test]
fn readiness_subset_checks() {
    let both = Readiness::readable().union(Readiness::writable());
    assert!(both.contains(Readiness::readable()));
    assert!(both.contains(Readiness::writable()));
    assert!(both.contains(both));
    assert!(both.contains(Readiness::empty()));
    assert!(!Readiness::readable().contains(Readiness::writable()));
    assert!(!Readiness::readable().contains(both));
    assert!(!Readiness::empty().contains(Readiness::readable()));
}

#[test]
fn readiness_removal() {
    let both = Readiness::readable().union(Readiness::writable());
    let r = both.difference(Readiness::readable());
    assert!(!r.is_readable() && r.is_writable());
    let r = r.difference(Readiness::readable());
    assert!(!r.is_readable() && r.is_writable());
    let r = r.difference(Readiness::writable());
    assert!(r.is_empty());
}

#[test]
fn readiness_is_idempotent() {
    let r = Readiness::readable();
    let twice = r.union(r);
    assert!(twice.is_readable() && !twice.is_writable());
    let both = r.intersection(r);
    assert!(both.is_readable() && !both.is_writable());
    assert!(r.intersection(Readiness::writable()).is_empty());
}
