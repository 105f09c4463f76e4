use imputio::executor::{next_handle_index, TaskQueues};
use imputio::Priority;

#[test]
fn empty_queues_give_no_task() {
    let mut q: TaskQueues<u32> = TaskQueues::new();
    assert_eq!(q.get_task(), None);
}

#[test]
fn higher_priority_is_served_first() {
    let mut q = TaskQueues::new();
    q.spawn("low", Priority::Low);
    q.spawn("best-effort", Priority::BestEffort);
    q.spawn("high", Priority::High);
    q.spawn("medium", Priority::Medium);
    assert_eq!(q.get_task(), Some("high"));
    assert_eq!(q.get_task(), Some("medium"));
    assert_eq!(q.get_task(), Some("low"));
    assert_eq!(q.get_task(), Some("best-effort"));
    assert_eq!(q.get_task(), None);
}

#[test]
fn same_priority_is_first_in_first_out() {
    let mut q = TaskQueues::new();
    q.spawn(1, Priority::Medium);
    q.spawn(2, Priority::Medium);
    q.spawn(3, Priority::Medium);
    assert_eq!(q.get_task(), Some(1));
    assert_eq!(q.get_task(), Some(2));
    assert_eq!(q.get_task(), Some(3));
}

#[test]
fn pending_task_goes_to_the_back_of_its_queue() {
    let mut q = TaskQueues::new();
    q.spawn(1, Priority::Low);
    q.spawn(2, Priority::Low);
    let t = q.get_task().unwrap();
    q.finish_poll(t, Priority::Low, false);
    assert_eq!(q.get_task(), Some(2));
    assert_eq!(q.get_task(), Some(1));
    q.finish_poll(7, Priority::Low, true);
    assert_eq!(q.get_task(), None);
}

#[test]
fn fair_take_skips_the_two_highest_queues() {
    let mut q = TaskQueues::new();
    q.spawn("high", Priority::High);
    q.spawn("low", Priority::Low);
    assert_eq!(q.get_task_from_middle_if(true), Some("low"));
    // only the high priority task is left: the fair start finds nothing
    assert_eq!(q.get_task_from_middle_if(true), None);
    assert_eq!(q.get_task_from_middle_if(false), Some("high"));
}

#[test]
fn fair_take_gives_one_of_the_two_choices() {
    let mut q = TaskQueues::new();
    q.spawn("high", Priority::High);
    q.spawn("medium", Priority::Medium);
    let t = q.get_task_fair();
    assert!(t == Some("high") || t == Some("medium"));
}

#[test]
fn round_robin_cycles_through_handles() {
    assert_eq!(next_handle_index(0, 3), 1);
    assert_eq!(next_handle_index(1, 3), 2);
    assert_eq!(next_handle_index(2, 3), 0);
    assert_eq!(next_handle_index(0, 1), 0);
}
