use crate::irq::{masked, InterruptState};
use crate::spin::{MutexGuard, NoInterruptSpin, SpinMutex};
use std::collections::VecDeque;
use vstd::prelude::*;

verus! {

/// Why a suspended task is being put back on the run-queue.
#[derive(Clone, Copy, Debug, PartialEq, Eq)]
pub struct ScheduleInfo {
    /// The task woke itself while it was running (it yielded).
    pub woken_while_running: bool,
}

/// The run-queue after `r` is scheduled with `info`: a task that yielded
/// goes to the back, a task woken from outside goes to the front.
pub open spec fn placed<R>(q: Seq<R>, r: R, info: ScheduleInfo) -> Seq<R> {
    if info.woken_while_running {
        q.push(r)
    } else {
        seq![r] + q
    }
}

/// A schedulable unit that completes after a bounded number of runs.
pub trait Runnable: Sized {
    /// How many more times the task will be run before it completes.
    spec fn steps_left(&self) -> nat;

    /// What one run of the task gives back.
    spec fn after_run(&self) -> Option<(Self, ScheduleInfo)>;

    /// A run ends the task exactly on its last step, and otherwise leaves
    /// one step fewer.
    proof fn lemma_after_run(&self)
        requires
            self.steps_left() > 0,
        ensures
            self.after_run() is None <==> self.steps_left() == 1,
            self.after_run() matches Some((t, _)) ==> t.steps_left() == self.steps_left() - 1,
    ;

    /// Runs the task to its next suspension point. `None`: it completed.
    /// `Some`: it suspended and was woken again, as `info` says.
    fn run(self) -> (r: Option<(Self, ScheduleInfo)>)
        requires
            self.steps_left() > 0,
        ensures
            r == self.after_run(),
            r is None <==> self.steps_left() == 1,
            r matches Some((t, _)) ==> t.steps_left() == self.steps_left() - 1,
    ;
}

/// Run steps still owed to the tasks of `q`.
pub open spec fn total_steps<R: Runnable>(q: Seq<R>) -> nat
    decreases q.len(),
{
    if q.len() == 0 {
        0
    } else {
        q[0].steps_left() + total_steps(q.drop_first())
    }
}

/// The run-queue after its front task has been run once: the task leaves the
/// queue, and if it was woken again it is placed by [`placed`].
pub open spec fn next_queue<R: Runnable>(q: Seq<R>) -> Seq<R> {
    if q.len() == 0 {
        q
    } else {
        match q[0].after_run() {
            None => q.drop_first(),
            Some((t, info)) => placed(q.drop_first(), t, info),
        }
    }
}

/// The run-queue after `n` runs of its front task.
pub open spec fn after_steps<R: Runnable>(q: Seq<R>, n: nat) -> Seq<R>
    decreases n,
{
    if n == 0 {
        q
    } else {
        next_queue(after_steps(q, (n - 1) as nat))
    }
}

/// The tasks run, in order, during the first `n` runs of the queue `q`: each
/// is the front of the queue at its turn.
pub open spec fn run_order<R: Runnable>(q: Seq<R>, n: nat) -> Seq<R>
    decreases n,
{
    if n == 0 {
        Seq::empty()
    } else {
        run_order(q, (n - 1) as nat).push(after_steps(q, (n - 1) as nat)[0])
    }
}

/// Every task of `q` still has a run ahead of it.
pub open spec fn all_pending<R: Runnable>(q: Seq<R>) -> bool {
    forall|i: int| 0 <= i < q.len() ==> #[trigger] q[i].steps_left() > 0
}

proof fn lemma_total_push<R: Runnable>(q: Seq<R>, r: R)
    ensures
        total_steps(q.push(r)) == total_steps(q) + r.steps_left(),
    decreases q.len(),
{
    if q.len() == 0 {
        assert(q.push(r).drop_first() =~= seq![]);
        assert(total_steps(q.push(r).drop_first()) == 0);
        assert(q.push(r)[0] == r);
    } else {
        assert(q.push(r).drop_first() =~= q.drop_first().push(r));
        assert(q.push(r)[0] == q[0]);
        lemma_total_push(q.drop_first(), r);
    }
}

proof fn lemma_total_front<R: Runnable>(q: Seq<R>, r: R)
    ensures
        total_steps(seq![r] + q) == total_steps(q) + r.steps_left(),
{
    assert((seq![r] + q).drop_first() =~= q);
}

/// The process-wide run-queue, guarded by an interrupt-masking lock. It holds
/// no queue until `init` runs.
pub struct TaskQueue<R> {
    queue: SpinMutex<Option<VecDeque<R>>, NoInterruptSpin>,
    history: Ghost<Seq<R>>,
}

impl<R> TaskQueue<R> {
    /// The lock is free between operations.
    pub closed spec fn wf(&self) -> bool {
        !self.queue.is_locked()
    }

    /// `init` has run.
    pub closed spec fn is_init(&self) -> bool {
        self.queue.value() is Some
    }

    /// The queued tasks, front first.
    pub closed spec fn tasks(&self) -> Seq<R> {
        self.queue.value()->0@
    }

    /// The tasks taken off this queue by [`TaskQueue::run_next`] and run,
    /// in order.
    pub closed spec fn ran(&self) -> Seq<R> {
        self.history@
    }

    /// A queue that is not initialised yet.
    pub fn new() -> (r: Self)
        ensures
            r.wf(),
            !r.is_init(),
            r.ran() == Seq::<R>::empty(),
    {
        TaskQueue { queue: SpinMutex::new(None), history: Ghost(Seq::empty()) }
    }

    /// Takes the queue's lock, which is free between operations.
    fn acquire(&mut self, irq: &mut InterruptState) -> (g: MutexGuard<NoInterruptSpin>)
        requires
            old(self).wf(),
        ensures
            final(self).queue.is_locked(),
            final(self).queue.value() == old(self).queue.value(),
            final(self).queue.id() == old(self).queue.id(),
            final(self).history == old(self).history,
            g.id() == old(self).queue.id(),
            g.prior() == old(irq).enabled,
            *final(irq) == masked(*old(irq)),
    {
        match self.queue.lock(irq) {
            Ok(g) => g,
            Err(_) => vstd::pervasive::unreached(),
        }
    }

    /// Installs an empty queue.
    pub fn init(&mut self, irq: &mut InterruptState)
        requires
            old(self).wf(),
        ensures
            final(self).wf(),
            final(self).is_init(),
            final(self).tasks() == Seq::<R>::empty(),
            final(self).ran() == old(self).ran(),
            *final(irq) == *old(irq),
    {
        let guard = self.acquire(irq);
        self.queue.replace(&guard, Some(VecDeque::new()));
        self.queue.unlock(guard, irq);
    }

    /// Appends `runnable` at the back.
    pub fn push(&mut self, irq: &mut InterruptState, runnable: R)
        requires
            old(self).wf(),
            old(self).is_init(),
        ensures
            final(self).wf(),
            final(self).is_init(),
            final(self).tasks() == old(self).tasks().push(runnable),
            final(self).ran() == old(self).ran(),
            *final(irq) == *old(irq),
    {
        let guard = self.acquire(irq);
        let mut q = self.queue.replace(&guard, None).unwrap();
        q.push_back(runnable);
        self.queue.replace(&guard, Some(q));
        self.queue.unlock(guard, irq);
    }

    /// Puts `runnable` at the front.
    pub fn push_preempt(&mut self, irq: &mut InterruptState, runnable: R)
        requires
            old(self).wf(),
            old(self).is_init(),
        ensures
            final(self).wf(),
            final(self).is_init(),
            final(self).tasks() == seq![runnable] + old(self).tasks(),
            final(self).ran() == old(self).ran(),
            *final(irq) == *old(irq),
    {
        let guard = self.acquire(irq);
        let mut q = self.queue.replace(&guard, None).unwrap();
        q.push_front(runnable);
        self.queue.replace(&guard, Some(q));
        self.queue.unlock(guard, irq);
    }

    /// Takes the front task, if any.
    pub fn fetch(&mut self, irq: &mut InterruptState) -> (r: Option<R>)
        requires
            old(self).wf(),
            old(self).is_init(),
        ensures
            final(self).wf(),
            final(self).is_init(),
            old(self).tasks().len() == 0 ==> r is None && final(self).tasks() == old(self).tasks(),
            old(self).tasks().len() > 0 ==> r == Some(old(self).tasks()[0])
                && final(self).tasks() == old(self).tasks().drop_first(),
            final(self).ran() == old(self).ran(),
            *final(irq) == *old(irq),
    {
        let guard = self.acquire(irq);
        let mut q = self.queue.replace(&guard, None).unwrap();
        let r = q.pop_front();
        self.queue.replace(&guard, Some(q));
        self.queue.unlock(guard, irq);
        r
    }

    /// Puts a woken task back: at the back if it yielded, at the front if
    /// it was woken from outside.
    pub fn schedule(&mut self, irq: &mut InterruptState, runnable: R, info: ScheduleInfo)
        requires
            old(self).wf(),
            old(self).is_init(),
        ensures
            final(self).wf(),
            final(self).is_init(),
            final(self).tasks() == placed(old(self).tasks(), runnable, info),
            final(self).ran() == old(self).ran(),
            *final(irq) == *old(irq),
    {
        if info.woken_while_running {
            self.push(irq, runnable);
        } else {
            self.push_preempt(irq, runnable);
        }
    }
}

/// Installs the run-queue; tasks can be spawned from then on.
pub fn init<R>(queue: &mut TaskQueue<R>, irq: &mut InterruptState)
    requires
        old(queue).wf(),
    ensures
        final(queue).wf(),
        final(queue).is_init(),
        final(queue).tasks() == Seq::<R>::empty(),
        final(queue).ran() == old(queue).ran(),
        *final(irq) == *old(irq),
{
    queue.init(irq);
}

impl<R: Runnable> TaskQueue<R> {
    /// Takes the front task, runs it once and, if it was woken again, puts
    /// it back by the placement rule. Returns whether a task was run.
    pub fn run_next(&mut self, irq: &mut InterruptState) -> (r: bool)
        requires
            old(self).wf(),
            old(self).is_init(),
            old(self).tasks().len() > 0 ==> old(self).tasks()[0].steps_left() > 0,
        ensures
            final(self).wf(),
            final(self).is_init(),
            r == (old(self).tasks().len() > 0),
            final(self).tasks() == next_queue(old(self).tasks()),
            r ==> final(self).ran() == old(self).ran().push(old(self).tasks()[0]),
            !r ==> final(self).ran() == old(self).ran(),
            *final(irq) == *old(irq),
    {
        match self.fetch(irq) {
            Some(task) => {
                let ghost t0 = task;
                self.history = Ghost(self.history@.push(t0));
                match task.run() {
                    Some((t, info)) => {
                        self.schedule(irq, t, info);
                    },
                    None => {},
                }
                true
            },
            None => false,
        }
    }
}

proof fn lemma_next_queue_pending<R: Runnable>(q: Seq<R>)
    requires
        q.len() > 0,
        all_pending(q),
    ensures
        all_pending(next_queue(q)),
        total_steps(next_queue(q)) + 1 == total_steps(q),
{
    let rest = q.drop_first();
    assert(q[0].steps_left() > 0);
    q[0].lemma_after_run();
    assert(total_steps(q) == q[0].steps_left() + total_steps(rest));
    match q[0].after_run() {
        None => {
            assert(all_pending(rest)) by {
                assert forall|i: int| 0 <= i < rest.len() implies #[trigger] rest[i].steps_left() > 0 by {
                    assert(rest[i] == q[i + 1]);
                    assert(q[i + 1].steps_left() > 0);
                }
            }
        },
        Some((t, info)) => {
            lemma_total_push(rest, t);
            lemma_total_front(rest, t);
            let nq = placed(rest, t, info);
            assert(all_pending(nq)) by {
                assert forall|i: int| 0 <= i < nq.len() implies #[trigger] nq[i].steps_left() > 0 by {
                    if info.woken_while_running {
                        if i < rest.len() {
                            assert(nq[i] == q[i + 1]);
                            assert(q[i + 1].steps_left() > 0);
                        }
                    } else {
                        if i > 0 {
                            assert(nq[i] == q[i]);
                            assert(q[i].steps_left() > 0);
                        }
                    }
                }
            }
        },
    }
}

/// Runs queued tasks from the front until the queue is empty and returns
/// the number of run steps taken, which is every step still owed to the
/// tasks that were queued. Each run takes the task then at the front, so the
/// tasks run in [`run_order`].
pub fn run_until_idle<R: Runnable>(queue: &mut TaskQueue<R>, irq: &mut InterruptState) -> (r: usize)
    requires
        old(queue).wf(),
        old(queue).is_init(),
        all_pending(old(queue).tasks()),
        total_steps(old(queue).tasks()) <= usize::MAX,
    ensures
        final(queue).wf(),
        final(queue).is_init(),
        final(queue).tasks().len() == 0,
        r == total_steps(old(queue).tasks()),
        final(queue).tasks() == after_steps(old(queue).tasks(), r as nat),
        final(queue).ran() == old(queue).ran() + run_order(old(queue).tasks(), r as nat),
        *final(irq) == *old(irq),
{
    let mut n: usize = 0;
    loop
        invariant
            queue.wf(),
            queue.is_init(),
            all_pending(queue.tasks()),
            queue.tasks() == after_steps(old(queue).tasks(), n as nat),
            queue.ran() == old(queue).ran() + run_order(old(queue).tasks(), n as nat),
            n + total_steps(queue.tasks()) == total_steps(old(queue).tasks()),
            total_steps(old(queue).tasks()) <= usize::MAX,
            *irq == *old(irq),
        ensures
            queue.wf(),
            queue.is_init(),
            queue.tasks().len() == 0,
            queue.tasks() == after_steps(old(queue).tasks(), n as nat),
            queue.ran() == old(queue).ran() + run_order(old(queue).tasks(), n as nat),
            n == total_steps(old(queue).tasks()),
            *irq == *old(irq),
        decreases total_steps(queue.tasks()),
    {
        let ghost before = queue.tasks();
        proof {
            if before.len() > 0 {
                lemma_next_queue_pending(before);
            }
        }
        if !queue.run_next(irq) {
            break;
        }
        proof {
            let q0 = old(queue).tasks();
            assert(after_steps(q0, (n + 1) as nat) == next_queue(after_steps(q0, n as nat)));
            assert(run_order(q0, (n + 1) as nat) == run_order(q0, n as nat).push(
                after_steps(q0, n as nat)[0],
            ));
            assert(queue.ran() =~= old(queue).ran() + run_order(q0, (n + 1) as nat));
        }
        n += 1;
    }
    n
}

/// Placement policy: whatever the order in which a yielded task and an
/// externally woken task are put back, the externally woken one is at the
/// front of the queue and the yielded one at the back, so the woken one is
/// run first.
pub proof fn lemma_external_wake_runs_first<R>(q: Seq<R>, yielded: R, woken: R, yield_first: bool)
    ensures
        ({
            let y = ScheduleInfo { woken_while_running: true };
            let w = ScheduleInfo { woken_while_running: false };
            let after = if yield_first {
                placed(placed(q, yielded, y), woken, w)
            } else {
                placed(placed(q, woken, w), yielded, y)
            };
            &&& after.len() == q.len() + 2
            &&& after[0] == woken
            &&& after[after.len() - 1] == yielded
        }),
{
    let y = ScheduleInfo { woken_while_running: true };
    let w = ScheduleInfo { woken_while_running: false };
    if yield_first {
        let after = placed(placed(q, yielded, y), woken, w);
        assert(after[0] == woken && after[after.len() - 1] == yielded);
    } else {
        let after = placed(placed(q, woken, w), yielded, y);
        assert(after[0] == woken && after[after.len() - 1] == yielded);
    }
}

/// A task that is run `1 + remaining` times: each run but the last ends in
/// a wake-up of the given kind.
#[derive(Clone, Copy, Debug, PartialEq, Eq)]
pub struct CountdownTask {
    pub id: u64,
    pub remaining: u64,
    pub yields: bool,
}

impl Runnable for CountdownTask {
    open spec fn steps_left(&self) -> nat {
        self.remaining as nat + 1
    }

    proof fn lemma_after_run(&self) {
    }

    open spec fn after_run(&self) -> Option<(CountdownTask, ScheduleInfo)> {
        if self.remaining == 0 {
            None
        } else {
            Some((
                CountdownTask { remaining: (self.remaining - 1) as u64, ..*self },
                ScheduleInfo { woken_while_running: self.yields },
            ))
        }
    }

    fn run(self) -> (r: Option<(CountdownTask, ScheduleInfo)>) {
        if self.remaining == 0 {
            None
        } else {
            Some((
                CountdownTask { remaining: self.remaining - 1, ..self },
                ScheduleInfo { woken_while_running: self.yields },
            ))
        }
    }
}

} // verus!
