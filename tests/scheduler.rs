use kernel_core::executor::init;
use kernel_core::{run_until_idle, CountdownTask, InterruptState, Runnable, ScheduleInfo, TaskQueue};

fn task(id: u64, remaining: u64, yields: bool) -> CountdownTask {
    CountdownTask { id, remaining, yields }
}

fn ready_queue(irq: &mut InterruptState) -> TaskQueue<CountdownTask> {
    let mut q = TaskQueue::new();
    init(&mut q, irq);
    q
}

#[test]
fn push_is_fifo_and_preempt_goes_first() {
    let mut irq = InterruptState { enabled: true };
    let mut q = ready_queue(&mut irq);
    q.push(&mut irq, task(1, 0, true));
    q.push(&mut irq, task(2, 0, true));
    q.push_preempt(&mut irq, task(3, 0, true));
    assert!(irq.enabled);
    assert_eq!(q.fetch(&mut irq).map(|t| t.id), Some(3));
    assert_eq!(q.fetch(&mut irq).map(|t| t.id), Some(1));
    assert_eq!(q.fetch(&mut irq).map(|t| t.id), Some(2));
    assert_eq!(q.fetch(&mut irq), None);
    assert!(irq.enabled);
}

#[test]
fn externally_woken_runs_before_yielded_in_either_order() {
    for yield_first in [true, false] {
        let mut irq = InterruptState { enabled: true };
        let mut q = ready_queue(&mut irq);
        q.push(&mut irq, task(10, 0, true));
        let yielded = (task(1, 0, true), ScheduleInfo { woken_while_running: true });
        let woken = (task(2, 0, false), ScheduleInfo { woken_while_running: false });
        let order = if yield_first { [yielded, woken] } else { [woken, yielded] };
        for (t, info) in order {
            q.schedule(&mut irq, t, info);
        }
        let mut ids = Vec::new();
        while let Some(t) = q.fetch(&mut irq) {
            ids.push(t.id);
        }
        assert_eq!(ids, vec![2, 10, 1]);
    }
}

#[test]
fn countdown_task_runs_remaining_plus_one_times() {
    let t = task(4, 1, true);
    let (t, info) = t.run().expect("one more run");
    assert!(info.woken_while_running);
    assert_eq!(t.remaining, 0);
    assert!(t.run().is_none());
}

#[test]
fn run_until_idle_counts_every_step() {
    let mut irq = InterruptState { enabled: false };
    let mut q = ready_queue(&mut irq);
    q.push(&mut irq, task(1, 2, true));
    q.push(&mut irq, task(2, 0, true));
    q.push(&mut irq, task(3, 3, false));
    let n = run_until_idle(&mut q, &mut irq);
    assert_eq!(n, 3 + 1 + 4);
    assert_eq!(q.fetch(&mut irq), None);
    assert!(!irq.enabled);
}

#[test]
fn run_until_idle_on_empty_queue() {
    let mut irq = InterruptState { enabled: true };
    let mut q = ready_queue(&mut irq);
    assert_eq!(run_until_idle(&mut q, &mut irq), 0);
}

#[test]
fn run_next_runs_the_front_task_and_places_it() {
    let mut irq = InterruptState { enabled: true };
    let mut q = ready_queue(&mut irq);
    q.push(&mut irq, task(1, 1, false));
    q.push(&mut irq, task(2, 1, true));
    assert!(q.run_next(&mut irq));
    // task 1 was woken from outside: back at the front
    assert!(q.run_next(&mut irq));
    // task 1 completed; task 2 runs and yields to the back
    assert!(q.run_next(&mut irq));
    assert_eq!(q.fetch(&mut irq), Some(task(2, 0, true)));
    assert!(!q.run_next(&mut irq));
    assert!(irq.enabled);
}
