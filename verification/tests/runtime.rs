use std::cell::Cell;
use std::rc::Rc;
use std::sync::Arc;
use std::sync::Mutex;
use std::task::Poll;
use std::task::Wake;
use std::task::Waker;
use woi::runtime::context::Context;
use woi::runtime::context::Handle;
use woi::runtime::runtime::Runtime;
use woi::runtime::runtime::Turn;
use woi::task::raw::Status;
use woi::task::spawn::spawn;
use woi::task::task::Task;

struct Count(Mutex<usize>);

impl Wake for Count {
    fn wake(self: Arc<Self>) {
        *self.0.lock().unwrap() += 1;
    }
}

fn counting_waker() -> (Arc<Count>, Waker) {
    let count = Arc::new(Count(Mutex::new(0)));
    (count.clone(), Waker::from(count))
}

struct Sentinel(Rc<Cell<usize>>);

impl Drop for Sentinel {
    fn drop(&mut self) {
        self.0.set(self.0.get() + 1);
    }
}

#[test]
fn immediate_completion_never_parks() {
    let runtime: Runtime<(), ()> = Runtime::new();
    let polled = Poll::Ready(42);
    assert_eq!(runtime.turn(&polled), Turn::Finish);
    assert_eq!(runtime.queued(), 0);
}

#[test]
fn parks_only_when_pending_and_queue_empty() {
    let mut runtime: Runtime<(), ()> = Runtime::new();
    let pending: Poll<u32> = Poll::Pending;
    assert_eq!(runtime.turn(&pending), Turn::Park);
    let handle = runtime.spawn(());
    assert_eq!(runtime.turn(&pending), Turn::Drain);
    assert_eq!(runtime.turn(&Poll::Ready(1)), Turn::Finish);
    let task = runtime.next_task().unwrap();
    assert_eq!(task.id(), handle.id());
    runtime.finish_poll(task, Poll::Pending);
    assert_eq!(runtime.turn(&pending), Turn::Park);
}

#[test]
fn spawn_and_join() {
    let (_count, waker) = counting_waker();
    let mut runtime: Runtime<&str, &str> = Runtime::new();
    let handle = runtime.spawn("returns ok");
    assert!(runtime.contains(handle.id()));
    assert_eq!(runtime.task(handle.id()).unwrap().ref_count(), 2);

    let pending = runtime.poll_join(&handle, waker.clone());
    assert!(pending.result.is_pending());
    assert!(pending.spare.is_none());

    let task = runtime.next_task().unwrap();
    assert_eq!(*runtime.future(&task), "returns ok");
    let done = runtime.finish_poll(task, Poll::Ready("ok")).unwrap();
    assert_eq!(done.future, "returns ok");
    assert!(done.join_waker.unwrap().will_wake(&waker));
    assert!(done.released.is_none());

    let joined = runtime.poll_join(&handle, waker.clone());
    assert_eq!(joined.result, Poll::Ready("ok"));
    assert!(joined.spare.unwrap().will_wake(&waker));

    let id = handle.id();
    let detached = runtime.drop_join_handle(handle);
    assert!(detached.waker.is_none());
    let record = detached.released.unwrap();
    assert_eq!(record.ref_count(), 0);
    assert!(matches!(record.status, Status::Consumed));
    assert!(!runtime.contains(id));
}

#[test]
fn joined_output_is_taken_for_good() {
    let (_count, waker) = counting_waker();
    let mut runtime: Runtime<(), u32> = Runtime::new();
    let handle = runtime.spawn(());
    let task = runtime.next_task().unwrap();
    runtime.finish_poll(task, Poll::Ready(5));
    assert!(runtime.task(handle.id()).unwrap().has_output());
    assert_eq!(handle.poll(&mut runtime, waker).result, Poll::Ready(5));
    let record = runtime.task(handle.id()).unwrap();
    assert!(record.is_complete());
    assert!(!record.has_output());
    assert!(matches!(record.status, Status::Consumed));
}

#[test]
fn later_join_waker_displaces_earlier() {
    let (_a, first) = counting_waker();
    let (_b, second) = counting_waker();
    let mut runtime: Runtime<(), u32> = Runtime::new();
    let handle = runtime.spawn(());
    assert!(runtime.poll_join(&handle, first.clone()).spare.is_none());
    let displaced = runtime.poll_join(&handle, second.clone()).spare.unwrap();
    assert!(displaced.will_wake(&first));
    let task = runtime.next_task().unwrap();
    let done = runtime.finish_poll(task, Poll::Ready(5)).unwrap();
    assert!(done.join_waker.unwrap().will_wake(&second));
}

#[test]
fn tasks_run_in_spawn_order() {
    let mut runtime: Runtime<u32, ()> = Runtime::new();
    let a = runtime.spawn(10);
    let b = spawn(&mut runtime, 20);
    let c = runtime.spawn(30);
    assert_eq!(runtime.queued(), 3);
    for (handle, future) in [(&a, 10), (&b, 20), (&c, 30)] {
        let task = runtime.next_task().unwrap();
        assert_eq!(task, Task { raw: handle.id() });
        assert_eq!(*runtime.future(&task), future);
        runtime.finish_poll(task, Poll::Pending);
    }
    assert!(runtime.next_task().is_none());
}

#[test]
fn wakes_between_polls_coalesce() {
    let mut runtime: Runtime<(), ()> = Runtime::new();
    let handle = runtime.spawn(());
    let id = handle.id();
    let task = runtime.next_task().unwrap();
    runtime.finish_poll(task, Poll::Pending);
    assert_eq!(runtime.queued(), 0);
    for _ in 0..5 {
        runtime.wake_by_ref(id);
    }
    assert_eq!(runtime.queued(), 1);
    assert_eq!(runtime.next_task(), Some(Task { raw: id }));
    assert!(runtime.task(id).unwrap().header.state.is_running());
    runtime.finish_poll(Task { raw: id }, Poll::Pending);
    assert!(runtime.next_task().is_none());
}

#[test]
fn wake_of_scheduled_task_does_not_enqueue() {
    let mut runtime: Runtime<(), ()> = Runtime::new();
    let handle = runtime.spawn(());
    runtime.wake_by_ref(handle.id());
    Task { raw: handle.id() }.schedule(&mut runtime);
    assert_eq!(runtime.queued(), 1);
}

#[test]
fn wake_during_poll_requeues() {
    let mut runtime: Runtime<(), ()> = Runtime::new();
    let handle = runtime.spawn(());
    let id = handle.id();
    let task = runtime.next_task().unwrap();
    runtime.wake_by_ref(id);
    runtime.wake_by_ref(id);
    assert_eq!(runtime.queued(), 1);
    runtime.finish_poll(task, Poll::Pending);
    assert_eq!(runtime.queued(), 1);
    assert!(runtime.task(id).unwrap().header.state.is_scheduled());
    assert_eq!(runtime.next_task(), Some(Task { raw: id }));
}

#[test]
fn task_that_completes_while_scheduled_leaves_the_queue() {
    let mut runtime: Runtime<(), u32> = Runtime::new();
    let first = runtime.spawn(());
    let second = runtime.spawn(());
    let task = runtime.next_task().unwrap();
    runtime.wake_by_ref(first.id());
    assert_eq!(runtime.queued(), 2);
    runtime.finish_poll(task, Poll::Ready(1));
    assert_eq!(runtime.queued(), 1);
    assert_eq!(runtime.next_task(), Some(Task { raw: second.id() }));
}

#[test]
fn wake_of_complete_task_does_nothing() {
    let mut runtime: Runtime<(), u32> = Runtime::new();
    let handle = runtime.spawn(());
    let task = runtime.next_task().unwrap();
    runtime.finish_poll(task, Poll::Ready(1));
    runtime.wake_by_ref(handle.id());
    assert_eq!(runtime.queued(), 0);
    assert_eq!(runtime.task(handle.id()).unwrap().ref_count(), 1);
}

#[test]
fn waker_references_are_counted() {
    let mut runtime: Runtime<(), u32> = Runtime::new();
    let handle = runtime.spawn(());
    let id = handle.id();
    runtime.clone_waker(id);
    runtime.clone_waker(id);
    assert_eq!(runtime.task(id).unwrap().ref_count(), 4);
    assert!(runtime.drop_waker(id).is_none());
    assert_eq!(runtime.task(id).unwrap().ref_count(), 3);
    let task = runtime.next_task().unwrap();
    runtime.finish_poll(task, Poll::Pending);
    assert!(runtime.wake(id).is_none());
    assert_eq!(runtime.task(id).unwrap().ref_count(), 2);
    assert_eq!(runtime.queued(), 1);
}

#[test]
fn record_is_released_exactly_when_the_count_reaches_zero() {
    let mut runtime: Runtime<(), u32> = Runtime::new();
    let handle = runtime.spawn(());
    let id = handle.id();
    runtime.clone_waker(id);
    let task = runtime.next_task().unwrap();
    assert!(runtime
        .finish_poll(task, Poll::Ready(3))
        .unwrap()
        .released
        .is_none());
    assert!(runtime.drop_join_handle(handle).released.is_none());
    assert!(runtime.contains(id));
    let record = runtime.drop_waker(id).unwrap();
    assert_eq!(record.ref_count(), 0);
    assert!(!runtime.contains(id));
    assert!(runtime.task(id).is_none());
}

#[test]
fn freed_number_is_reused() {
    let mut runtime: Runtime<u32, u32> = Runtime::new();
    let first = runtime.spawn(1);
    let second = runtime.spawn(2);
    let id = first.id();
    runtime.drop_join_handle(first);
    let task = runtime.next_task().unwrap();
    assert!(runtime
        .finish_poll(task, Poll::Ready(3))
        .unwrap()
        .released
        .is_some());
    let third = runtime.spawn(3);
    assert_eq!(third.id(), id);
    assert_ne!(third.id(), second.id());
    assert_eq!(runtime.task(third.id()).unwrap().ref_count(), 2);
    assert_eq!(runtime.next_task(), Some(Task { raw: second.id() }));
    runtime.finish_poll(Task { raw: second.id() }, Poll::Pending);
    assert_eq!(runtime.next_task(), Some(Task { raw: third.id() }));
    assert_eq!(*runtime.future(&Task { raw: third.id() }), 3);
}

#[test]
fn drop_before_complete_does_not_leak_the_output() {
    let drops = Rc::new(Cell::new(0));
    let mut runtime: Runtime<(), Sentinel> = Runtime::new();
    let handle = runtime.spawn(());
    let id = handle.id();
    let detached = runtime.drop_join_handle(handle);
    assert!(detached.released.is_none());
    assert!(runtime.contains(id));

    let unrelated: Poll<u32> = Poll::Pending;
    assert_eq!(runtime.turn(&unrelated), Turn::Drain);
    let task = runtime.next_task().unwrap();
    let done = runtime
        .finish_poll(task, Poll::Ready(Sentinel(drops.clone())))
        .unwrap();
    assert!(done.join_waker.is_none());
    assert!(!runtime.contains(id));
    assert_eq!(drops.get(), 0);
    assert!(matches!(
        done.released.as_ref().unwrap().status,
        Status::Finished(_)
    ));
    drop(done);
    assert_eq!(drops.get(), 1);
    assert_eq!(runtime.turn(&Poll::Ready(7)), Turn::Finish);
}

#[test]
fn output_taken_by_join_is_dropped_by_the_joiner() {
    let (_count, waker) = counting_waker();
    let drops = Rc::new(Cell::new(0));
    let mut runtime: Runtime<(), Sentinel> = Runtime::new();
    let handle = runtime.spawn(());
    let task = runtime.next_task().unwrap();
    runtime.finish_poll(task, Poll::Ready(Sentinel(drops.clone())));
    let joined = runtime.poll_join(&handle, waker);
    assert_eq!(drops.get(), 0);
    drop(joined);
    assert_eq!(drops.get(), 1);
    drop(handle.detach(&mut runtime));
    assert_eq!(drops.get(), 1);
}

#[test]
fn context_holds_the_active_handle() {
    let mut context: Context<u32, &str> = Context::new();
    assert!(!context.is_active());
    let guard = context.enter(Handle { spawner: 1, io: "reactor" });
    assert!(context.is_active());
    assert_eq!(*context.spawner(), 1);
    assert_eq!(*context.io(), "reactor");
    let left = context.exit(guard).unwrap();
    assert_eq!(left.spawner, 1);
    assert!(!context.is_active());
}

#[test]
fn interrupted_park_is_retried() {
    let interrupted: std::io::Result<u32> =
        Err(std::io::Error::from(std::io::ErrorKind::Interrupted));
    assert!(matches!(
        woi::runtime::runtime::after_park(interrupted),
        Ok(None)
    ));
    assert!(matches!(
        woi::runtime::runtime::after_park(Ok::<u32, std::io::Error>(3)),
        Ok(Some(3))
    ));
    let failed: std::io::Result<u32> =
        Err(std::io::Error::from(std::io::ErrorKind::InvalidInput));
    match woi::runtime::runtime::after_park(failed) {
        Err(e) => assert_eq!(e.kind(), std::io::ErrorKind::InvalidInput),
        _ => panic!("a failure of the kernel is no retry"),
    }
}
