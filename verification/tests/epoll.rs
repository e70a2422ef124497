use woi::io::epoll::ctl;
use woi::io::epoll::cvt;
use woi::io::epoll::CtlOp;
use woi::io::epoll::Epoll;
use woi::io::epoll::Event;
use woi::io::epoll::Interest;
use woi::io::epoll::Source;
use woi::io::epoll::Token;
use woi::io::epoll::EPOLLET;
use woi::io::epoll::EPOLLIN;
use woi::io::epoll::EPOLLONESHOT;
use woi::io::epoll::EPOLLOUT;
use woi::io::epoll::EPOLLRDHUP;
use woi::io::epoll::EPOLL_CTL_ADD;
use woi::io::epoll::EPOLL_CTL_DEL;
use woi::io::epoll::EPOLL_CTL_MOD;
use woi::io::epoll::INTEREST_BITS;
use woi::io::epoll::READABLE_BITS;
use woi::io::epoll::READ_READY_BITS;
use woi::io::epoll::WRITABLE_BITS;
use woi::io::epoll::WRITE_READY_BITS;

#[test]
fn bits_are_those_of_the_kernel() {
    assert_eq!(EPOLLIN, libc::EPOLLIN as u32);
    assert_eq!(EPOLLOUT, libc::EPOLLOUT as u32);
    assert_eq!(EPOLLRDHUP, libc::EPOLLRDHUP as u32);
    assert_eq!(EPOLLONESHOT, libc::EPOLLONESHOT as u32);
    assert_eq!(EPOLLET, libc::EPOLLET as u32);
    assert_eq!(EPOLL_CTL_ADD, libc::EPOLL_CTL_ADD);
    assert_eq!(EPOLL_CTL_MOD, libc::EPOLL_CTL_MOD);
    assert_eq!(EPOLL_CTL_DEL, libc::EPOLL_CTL_DEL);
}

#[test]
fn interest_bits_are_edge_triggered() {
    assert_eq!(
        READABLE_BITS,
        (libc::EPOLLET | libc::EPOLLIN | libc::EPOLLRDHUP) as u32
    );
    assert_eq!(WRITABLE_BITS, (libc::EPOLLET | libc::EPOLLOUT) as u32);
    assert_eq!(INTEREST_BITS, READABLE_BITS | WRITABLE_BITS);
    assert_eq!(READ_READY_BITS, READABLE_BITS & !EPOLLET);
    assert_eq!(WRITE_READY_BITS, WRITABLE_BITS & !EPOLLET);
    assert_eq!(Interest::readable().bits(), 0x8000_2001);
    assert_eq!(Interest::writable().bits(), 0x8000_0004);
}

#[test]
fn ctl_op_codes() {
    assert_eq!(CtlOp::ADD.code(), 1);
    assert_eq!(CtlOp::MOD.code(), 3);
    assert_eq!(CtlOp::DEL.code(), 2);
}

#[test]
fn interest_set_operations() {
    let both = Interest::readable().union(Interest::writable());
    assert_eq!(both, Interest::all());
    assert_eq!(both.bits(), 0x8000_2005);
    assert!(both.contains(Interest::readable()));
    assert!(both.contains(Interest::writable()));
    assert!(!Interest::readable().contains(Interest::writable()));
    assert!(Interest::readable().intersects(Interest::writable()));
    assert!(!Interest::readable().intersects(Interest::empty()));
    assert_eq!(
        Interest::readable().intersection(Interest::writable()).bits(),
        EPOLLET
    );
    assert_eq!(
        both.difference(Interest::writable()).bits(),
        EPOLLIN | EPOLLRDHUP
    );
    assert!(Interest::empty().is_empty());
    assert!(!Interest::readable().is_empty());
}

#[test]
fn interest_from_bits() {
    assert_eq!(Interest::from_bits(0x8000_2001), Some(Interest::readable()));
    assert_eq!(Interest::from_bits(EPOLLIN).map(|i| i.bits()), Some(EPOLLIN));
    assert_eq!(Interest::from_bits(0), Some(Interest::empty()));
    assert_eq!(Interest::from_bits(EPOLLONESHOT), None);
    assert_eq!(Interest::from_bits(READABLE_BITS | 0x10), None);
    assert_eq!(
        Interest::from_bits_truncate(READABLE_BITS | 0x10),
        Interest::readable()
    );
    assert_eq!(Interest::from_bits_truncate(EPOLLONESHOT), Interest::empty());
}

#[test]
fn event_carries_interest_and_token() {
    let event = Event::new(Interest::readable(), Token(7));
    assert_eq!(event.interest(), 0x8000_2001);
    assert_eq!(event.data(), 7);
    assert_eq!(event.token(), Token(7));
}

#[test]
fn event_token_round_trips() {
    for token in [0usize, 1, 41, usize::MAX] {
        let event = Event::new(Interest::writable(), Token(token));
        assert_eq!(event.token(), Token(token));
    }
}

#[test]
fn empty_event() {
    let event = Event::empty();
    assert_eq!(event.interest(), 0);
    assert_eq!(event.data(), 0);
    assert_eq!(event.token(), Token(0));
    assert!(!event.is_readable());
    assert!(!event.is_writable());
}

#[test]
fn event_readiness() {
    assert!(Event::from_raw(EPOLLIN, 0).is_readable());
    assert!(!Event::from_raw(EPOLLIN, 0).is_writable());
    assert!(Event::from_raw(EPOLLRDHUP, 0).is_readable());
    assert!(Event::from_raw(EPOLLOUT, 0).is_writable());
    assert!(!Event::from_raw(EPOLLOUT, 0).is_readable());
    assert!(!Event::from_raw(EPOLLET, 0).is_readable());
    assert!(!Event::from_raw(EPOLLET, 0).is_writable());
    assert!(Event::new(Interest::readable(), Token(1)).is_readable());
    assert!(!Event::new(Interest::readable(), Token(1)).is_writable());
    assert!(Event::new(Interest::writable(), Token(1)).is_writable());
    assert!(!Event::new(Interest::writable(), Token(1)).is_readable());
    let both = Event::new(Interest::all(), Token(1));
    assert!(both.is_readable() && both.is_writable());
}

#[test]
fn cvt_passes_results_on() {
    assert_eq!(cvt(0).unwrap(), 0);
    assert_eq!(cvt(3).unwrap(), 3);
    assert_eq!(cvt(i32::MAX).unwrap(), i32::MAX);
}

#[test]
fn cvt_turns_negative_results_into_errors() {
    assert!(cvt(-1).is_err());
    assert!(cvt(i32::MIN).is_err());
    assert!(ctl(-1).is_err());
    assert!(ctl(0).is_ok());
}

#[test]
fn create_epoll_instance() {
    // What the kernel answers when it creates an instance, then when it
    // closes it.
    let epoll = Epoll::new(3).unwrap();
    let _ = ctl(0);
    assert_eq!(epoll.fd(), 3);
}

#[test]
fn epoll_from_descriptor() {
    let epoll = Epoll::new(5).unwrap();
    assert_eq!(epoll.fd(), 5);
    assert!(Epoll::new(-1).is_err());
}

#[test]
fn raw_fd_is_its_own_source() {
    let fd: i32 = 9;
    assert_eq!(fd.raw_fd(), 9);
}

#[test]
fn add_request() {
    let epoll = Epoll::new(5).unwrap();
    let request = epoll.add(9, Interest::readable(), Token(3));
    assert_eq!(request.epfd, 5);
    assert_eq!(request.op, CtlOp::ADD);
    assert_eq!(request.fd, 9);
    let event = request.event.unwrap();
    assert_eq!(event.interest(), READABLE_BITS);
    assert_eq!(event.token(), Token(3));
}

#[test]
fn modify_request() {
    let epoll = Epoll::new(5).unwrap();
    let request = epoll.modify(9, Interest::writable(), Token(4));
    assert_eq!(request.epfd, 5);
    assert_eq!(request.op, CtlOp::MOD);
    assert_eq!(request.fd, 9);
    let event = request.event.unwrap();
    assert_eq!(event.interest(), WRITABLE_BITS);
    assert_eq!(event.data(), 4);
}

#[test]
fn delete_request() {
    let epoll = Epoll::new(5).unwrap();
    let request = epoll.delete(9);
    assert_eq!(request.epfd, 5);
    assert_eq!(request.op, CtlOp::DEL);
    assert_eq!(request.fd, 9);
    assert!(request.event.is_none());
}

#[test]
fn wait_without_timeout_blocks() {
    let epoll = Epoll::new(5).unwrap();
    let request = epoll.wait(10, None);
    assert_eq!(request.epfd, 5);
    assert_eq!(request.maxevents, 10);
    assert_eq!(request.timeout, -1);
}

#[test]
fn wait_timeout_is_in_milliseconds() {
    let epoll = Epoll::new(5).unwrap();
    let millis = std::time::Duration::from_micros(1_500_999).as_millis();
    assert_eq!(epoll.wait(1, Some(millis)).timeout, 1500);
    assert_eq!(epoll.wait(1, Some(0)).timeout, 0);
    assert_eq!(epoll.wait(1, Some(i32::MAX as u128)).timeout, i32::MAX);
    assert_eq!(epoll.wait(1, Some(1u128 << 32)).timeout, 0);
    assert_eq!(epoll.wait(1, Some((1u128 << 31) + 5)).timeout, i32::MIN + 5);
}

#[test]
fn poll_fills_the_buffer_with_what_was_delivered() {
    let received = vec![
        Event::from_raw(EPOLLIN, 1),
        Event::from_raw(EPOLLOUT, 2),
        Event::from_raw(EPOLLIN, 3),
    ];
    let mut events = vec![Event::empty(); 5];
    Epoll::poll(&mut events, &received, 2).unwrap();
    assert_eq!(events.len(), 2);
    assert_eq!(events[0].token(), Token(1));
    assert_eq!(events[1].token(), Token(2));
    assert_eq!(events[1].interest(), EPOLLOUT);
}

#[test]
fn poll_clears_the_buffer() {
    let mut events = vec![Event::empty(); 5];
    Epoll::poll(&mut events, &Vec::new(), 0).unwrap();
    assert!(events.is_empty());
    let mut events = vec![Event::empty(); 5];
    assert!(Epoll::poll(&mut events, &vec![Event::empty()], -1).is_err());
    assert!(events.is_empty());
}

#[test]
fn poll_takes_no_more_than_was_received() {
    let received = vec![Event::from_raw(EPOLLIN, 1)];
    let mut events = Vec::new();
    Epoll::poll(&mut events, &received, 4).unwrap();
    assert_eq!(events.len(), 1);
    assert_eq!(events[0].data(), 1);
}

#[test]
fn event_layout_is_the_kernels() {
    assert_eq!(
        woi::io::epoll::EVENT_SIZE,
        std::mem::size_of::<libc::epoll_event>()
    );
    let event = Event::new(Interest::readable(), Token(0x0102_0304));
    assert_eq!(
        event.to_bytes(),
        vec![0x01, 0x20, 0x00, 0x80, 0x04, 0x03, 0x02, 0x01, 0, 0, 0, 0]
    );
    let event = Event::from_raw(EPOLLOUT, 0x0102_0304_0506_0708);
    assert_eq!(
        event.to_bytes(),
        vec![0x04, 0, 0, 0, 0x08, 0x07, 0x06, 0x05, 0x04, 0x03, 0x02, 0x01]
    );
}

#[test]
fn event_bytes_round_trip() {
    for (interest, data) in [(0u32, 0u64), (EPOLLIN, 1), (READABLE_BITS, u64::MAX), (u32::MAX, 1 << 40)] {
        let event = Event::from_raw(interest, data);
        let back = Event::from_bytes(&event.to_bytes()).unwrap();
        assert_eq!(back.interest(), interest);
        assert_eq!(back.data(), data);
    }
}

#[test]
fn from_bytes_wants_exactly_one_event() {
    assert!(Event::from_bytes(&[0; 11]).is_none());
    assert!(Event::from_bytes(&[0; 13]).is_none());
    assert!(Event::from_bytes(&[]).is_none());
    let event = Event::from_bytes(&[1, 0, 0, 0, 9, 0, 0, 0, 0, 0, 0, 0]).unwrap();
    assert_eq!(event.interest(), EPOLLIN);
    assert_eq!(event.token(), Token(9));
}

#[test]
fn decode_reads_the_delivered_prefix() {
    let mut buffer = Vec::new();
    buffer.extend(Event::from_raw(EPOLLIN, 1).to_bytes());
    buffer.extend(Event::from_raw(EPOLLOUT, 2).to_bytes());
    buffer.extend(Event::from_raw(EPOLLIN, 3).to_bytes());
    buffer.extend([0u8; 5]);
    let events = Event::decode(&buffer, 2);
    assert_eq!(events.len(), 2);
    assert_eq!(events[0].data(), 1);
    assert_eq!(events[1].data(), 2);
    assert_eq!(events[1].interest(), EPOLLOUT);
    assert_eq!(Event::decode(&buffer, 9).len(), 3);
    assert_eq!(Event::decode(&buffer, 0).len(), 0);
    assert_eq!(Event::decode(&[], 4).len(), 0);
}
