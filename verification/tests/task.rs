use std::sync::Arc;
use std::sync::Mutex;
use std::task::Poll;
use std::task::Wake;
use std::task::Waker;
use woi::task::header::Header;
use woi::task::layout::Layout;
use woi::task::raw::RawTask;
use woi::task::raw::Status;
use woi::task::state::INITIAL_STATE;

struct Count(Mutex<usize>);

impl Wake for Count {
    fn wake(self: Arc<Self>) {
        *self.0.lock().unwrap() += 1;
    }
}

fn counting_waker() -> (Arc<Count>, Waker) {
    let count = Arc::new(Count(Mutex::new(0)));
    (count.clone(), Waker::from(count))
}

fn woken(count: &Arc<Count>) -> usize {
    *count.0.lock().unwrap()
}

#[test]
fn new_header_has_initial_state_and_no_waker() {
    let header = Header::new();
    assert_eq!(header.state.bits(), INITIAL_STATE);
    assert!(header.waker.is_none());
}

#[test]
fn register_waker_stores_a_clone() {
    let (count, waker) = counting_waker();
    let mut header = Header::new();
    header.register_waker(&waker);
    assert!(header.waker.as_ref().unwrap().will_wake(&waker));
    header.wake_join_handle();
    assert_eq!(woken(&count), 1);
    header.wake_join_handle();
    assert_eq!(woken(&count), 2);
    assert!(header.waker.is_some());
}

#[test]
fn replace_waker_hands_back_the_displaced() {
    let (_a, first) = counting_waker();
    let (_b, second) = counting_waker();
    let mut header = Header::new();
    assert!(header.replace_waker(first.clone()).is_none());
    let displaced = header.replace_waker(second.clone()).unwrap();
    assert!(displaced.will_wake(&first));
    assert!(header.take_waker().unwrap().will_wake(&second));
    assert!(header.take_waker().is_none());
}

#[test]
fn new_task_holds_two_references_and_its_future() {
    let task: RawTask<&str, u32> = RawTask::new("future");
    assert_eq!(task.ref_count(), 2);
    assert!(!task.is_complete());
    assert!(task.header.state.is_scheduled());
    assert!(task.header.state.has_join_handle());
    assert_eq!(*task.future(), "future");
    assert!(matches!(task.status, Status::Running("future")));
}

#[test]
fn waker_clone_and_drop_move_the_count() {
    let mut task: RawTask<(), u32> = RawTask::new(());
    task.clone_waker();
    task.clone_waker();
    assert_eq!(task.ref_count(), 4);
    assert!(!task.drop_waker());
    assert!(!task.drop_waker());
    assert_eq!(task.ref_count(), 2);
}

#[test]
fn wake_by_ref_schedules_an_idle_task_once() {
    let mut task: RawTask<(), u32> = RawTask::new(());
    assert!(!task.wake_by_ref());
    task.start();
    assert!(task.poll(Poll::Pending).is_none());
    assert!(!task.header.state.is_scheduled());
    assert!(task.wake_by_ref());
    assert!(task.header.state.is_scheduled());
    assert!(!task.wake_by_ref());
    assert!(!task.wake_by_ref());
    assert_eq!(task.ref_count(), 2);
}

#[test]
fn wake_takes_one_reference() {
    let mut task: RawTask<(), u32> = RawTask::new(());
    task.start();
    assert!(task.poll(Poll::Pending).is_none());
    task.clone_waker();
    assert_eq!(task.ref_count(), 3);
    assert_eq!(task.wake(), (true, false));
    assert_eq!(task.ref_count(), 2);
    task.clone_waker();
    assert_eq!(task.wake(), (false, false));
    assert_eq!(task.ref_count(), 2);
}

#[test]
fn wake_during_poll_keeps_the_task_scheduled() {
    let mut task: RawTask<(), u32> = RawTask::new(());
    task.start();
    assert!(task.header.state.is_running());
    assert!(task.wake_by_ref());
    assert!(task.poll(Poll::Pending).is_none());
    assert!(task.header.state.is_scheduled());
    assert!(!task.header.state.is_running());
}

#[test]
fn ready_poll_completes_the_task() {
    let mut task: RawTask<&str, u32> = RawTask::new("future");
    task.start();
    let finished = task.poll(Poll::Ready(42)).unwrap();
    assert_eq!(finished.future, "future");
    assert!(finished.join_waker.is_none());
    assert!(!finished.dealloc);
    assert!(task.is_complete());
    assert!(!task.header.state.is_running());
    assert_eq!(task.ref_count(), 1);
    assert!(matches!(task.status, Status::Finished(42)));
}

#[test]
fn output_is_read_once() {
    let mut task: RawTask<(), &str> = RawTask::new(());
    assert!(!task.has_output());
    task.start();
    task.poll(Poll::Ready("ok"));
    assert!(task.has_output());
    assert_eq!(task.get_output(), "ok");
    assert!(matches!(task.status, Status::Consumed));
    assert!(!task.has_output());
}

#[test]
fn dropping_a_reference_counts_down_to_zero_once() {
    let mut task: RawTask<(), u32> = RawTask::new(());
    task.clone_waker();
    assert_eq!(task.ref_count(), 3);
    assert!(!task.drop_waker());
    assert_eq!(task.ref_count(), 2);
    assert!(!task.drop_waker());
    assert_eq!(task.ref_count(), 1);
    let bits = task.header.state.bits();
    assert!(task.drop_waker());
    assert_eq!(task.ref_count(), 0);
    assert_eq!(task.header.state.bits() + woi::task::state::REF_ONE, bits);
    assert!(matches!(task.status, Status::Running(())));
}

#[test]
fn completion_hands_out_the_join_waker() {
    let (_count, waker) = counting_waker();
    let mut task: RawTask<(), u32> = RawTask::new(());
    assert!(task.register_join_waker(waker.clone()).is_none());
    assert!(task.header.state.has_join_waker());
    task.start();
    let finished = task.poll(Poll::Ready(1)).unwrap();
    assert!(finished.join_waker.unwrap().will_wake(&waker));
    assert!(!task.header.state.has_join_waker());
    assert!(task.header.waker.is_none());
}

#[test]
fn wake_of_complete_task_is_a_no_op() {
    let mut task: RawTask<(), u32> = RawTask::new(());
    task.start();
    task.poll(Poll::Ready(1));
    let bits = task.header.state.bits();
    assert!(!task.wake_by_ref());
    assert_eq!(task.header.state.bits(), bits);
}

#[test]
fn detached_task_is_deallocated_on_completion() {
    let mut task: RawTask<(), u32> = RawTask::new(());
    let (waker, dealloc) = task.drop_join_handle();
    assert!(waker.is_none());
    assert!(!dealloc);
    assert_eq!(task.ref_count(), 1);
    assert!(!task.header.state.has_join_handle());
    task.start();
    let finished = task.poll(Poll::Ready(9)).unwrap();
    assert!(finished.dealloc);
    assert_eq!(task.ref_count(), 0);
    assert!(matches!(task.status, Status::Finished(9)));
}

#[test]
fn join_handle_dropped_after_completion_deallocates() {
    let mut task: RawTask<(), u32> = RawTask::new(());
    task.start();
    assert!(!task.poll(Poll::Ready(9)).unwrap().dealloc);
    let (_waker, dealloc) = task.drop_join_handle();
    assert!(dealloc);
}

#[test]
fn last_waker_deallocates() {
    let mut task: RawTask<(), u32> = RawTask::new(());
    task.clone_waker();
    task.drop_join_handle();
    task.start();
    assert!(!task.poll(Poll::Ready(9)).unwrap().dealloc);
    assert_eq!(task.ref_count(), 1);
    assert!(task.drop_waker());
}

#[test]
fn drop_join_handle_returns_its_waker() {
    let (_count, waker) = counting_waker();
    let mut task: RawTask<(), u32> = RawTask::new(());
    task.register_join_waker(waker.clone());
    let (registered, dealloc) = task.drop_join_handle();
    assert!(registered.unwrap().will_wake(&waker));
    assert!(!dealloc);
    assert!(!task.header.state.has_join_waker());
}

#[test]
fn layout_rejects_what_is_no_layout() {
    assert_eq!(Layout::from_size_align(8, 0), None);
    assert_eq!(Layout::from_size_align(8, 3), None);
    assert_eq!(Layout::from_size_align(isize::MAX as usize, 2), None);
    assert_eq!(
        Layout::from_size_align(8, 4),
        Some(Layout { size: 8, align: 4 })
    );
    assert_eq!(
        Layout::from_size_align(isize::MAX as usize, 1),
        Some(Layout { size: isize::MAX as usize, align: 1 })
    );
}

#[test]
fn layout_matches_std() {
    for (size, align) in [(0usize, 1usize), (1, 1), (3, 2), (24, 8), (7, 16), (100, 64)] {
        let ours = Layout::from_size_align(size, align).unwrap();
        let std_layout = std::alloc::Layout::from_size_align(size, align).unwrap();
        for (next_size, next_align) in [(0usize, 1usize), (5, 4), (16, 8), (1, 32)] {
            let next = Layout::from_size_align(next_size, next_align).unwrap();
            let std_next = std::alloc::Layout::from_size_align(next_size, next_align).unwrap();
            let (extended, offset) = ours.extend(next).unwrap();
            let (std_extended, std_offset) = std_layout.extend(std_next).unwrap();
            assert_eq!(offset, std_offset);
            assert_eq!(extended.size, std_extended.size());
            assert_eq!(extended.align, std_extended.align());
            assert_eq!(ours.padding_needed_for(next_align), std_offset - size);
        }
    }
}

#[test]
fn extend_overflow_is_none() {
    let big = Layout::from_size_align(isize::MAX as usize - 7, 8).unwrap();
    let next = Layout::from_size_align(8, 8).unwrap();
    assert_eq!(big.extend(next), None);
    let fits = Layout::from_size_align(isize::MAX as usize - 15, 8).unwrap();
    assert!(fits.extend(next).is_some());
}

#[test]
fn task_layout_offsets() {
    let header = Layout { size: 24, align: 8 };
    let scheduler = Layout { size: 8, align: 8 };
    let status = Layout { size: 33, align: 16 };
    let layout = RawTask::<(), ()>::layout(header, scheduler, status).unwrap();
    assert_eq!(layout.offset_schedule, 24);
    assert_eq!(layout.offset_status, 32);
    assert_eq!(layout.layout, Layout { size: 65, align: 16 });
}

#[test]
fn task_layout_pads_between_parts() {
    let header = Layout { size: 17, align: 8 };
    let scheduler = Layout { size: 1, align: 4 };
    let status = Layout { size: 2, align: 2 };
    let layout = RawTask::<(), ()>::layout(header, scheduler, status).unwrap();
    assert_eq!(layout.offset_schedule, 20);
    assert_eq!(layout.offset_status, 22);
    assert_eq!(layout.layout, Layout { size: 24, align: 8 });
}

#[test]
fn task_layout_overflow_is_none() {
    let header = Layout { size: 24, align: 8 };
    let scheduler = Layout { size: isize::MAX as usize - 31, align: 8 };
    let status = Layout { size: 8, align: 8 };
    assert_eq!(RawTask::<(), ()>::layout(header, scheduler, status), None);
    assert_eq!(RawTask::<(), ()>::layout(scheduler, header, status), None);
}
