//! The executor's scheduling decisions: one FIFO queue of tasks per
//! priority, served highest priority first, and the round-robin choice of
//! the executor that takes the next request.

use std::collections::VecDeque;

use rand::Rng;
use vstd::prelude::*;

use crate::priority::{Priority, NUM_QUEUES};

verus! {

/// Index of the first queue served when fairness starts in the middle.
pub const FAIR_START: usize = 2;

/// The index of the first non-empty queue at or after `start`, if any.
pub open spec fn first_nonempty<T>(queues: Seq<Seq<T>>, start: int) -> Option<int> {
    if exists|i: int| start <= i < queues.len() && queues[i].len() > 0 {
        Some(
            choose|i: int|
                start <= i < queues.len() && queues[i].len() > 0 && forall|j: int|
                    start <= j < i ==> queues[j].len() == 0,
        )
    } else {
        None
    }
}

/// The queues after taking the front task of the first non-empty queue at
/// or after `start`, with the task taken.
pub open spec fn take_first<T>(queues: Seq<Seq<T>>, start: int) -> (Seq<Seq<T>>, Option<T>) {
    match first_nonempty(queues, start) {
        Some(i) => (queues.update(i, queues[i].drop_first()), Some(queues[i][0])),
        None => (queues, None),
    }
}

/// Tasks waiting to be polled, one FIFO queue per priority.
pub struct TaskQueues<T> {
    tasks: Vec<VecDeque<T>>,
}

impl<T> TaskQueues<T> {
    /// The queues, by index; index 0 is reserved for system work.
    pub closed spec fn queues(&self) -> Seq<Seq<T>> {
        self.tasks@.map_values(|q: VecDeque<T>| q@)
    }

    /// There is one queue per index, and the system queue holds no user task.
    pub open spec fn wf(&self) -> bool {
        &&& self.queues().len() == NUM_QUEUES
        &&& self.queues()[0].len() == 0
    }

    /// Empty queues.
    pub fn new() -> (q: Self)
        ensures
            q.wf(),
            forall|i: int| 0 <= i < NUM_QUEUES ==> (#[trigger] q.queues()[i]).len() == 0,
    {
        let mut tasks: Vec<VecDeque<T>> = Vec::new();
        let mut i: usize = 0;
        while i < NUM_QUEUES
            invariant
                i <= NUM_QUEUES,
                tasks@.len() == i,
                forall|j: int| 0 <= j < i ==> (#[trigger] tasks@[j])@.len() == 0,
            decreases NUM_QUEUES - i,
        {
            tasks.push(VecDeque::new());
            i = i + 1;
        }
        TaskQueues { tasks }
    }

    /// Queues a task behind the tasks of its priority.
    pub fn spawn(&mut self, task: T, priority: Priority)
        requires
            old(self).wf(),
        ensures
            final(self).wf(),
            final(self).queues() == old(self).queues().update(
                priority.spec_index() as int,
                old(self).queues()[priority.spec_index() as int].push(task),
            ),
    {
        let i = priority.index();
        self.tasks[i].push_back(task);
        assert(self.queues() =~= old(self).queues().update(
            i as int,
            old(self).queues()[i as int].push(task),
        ));
    }

    /// Takes the front task of the first non-empty queue at or after
    /// `start`.
    fn take_from(&mut self, start: usize) -> (r: Option<T>)
        requires
            old(self).wf(),
            start <= NUM_QUEUES,
        ensures
            final(self).wf(),
            (final(self).queues(), r) == take_first(old(self).queues(), start as int),
            final(self).queues().len() == old(self).queues().len(),
            r is None ==> final(self).queues() == old(self).queues(),
            r is Some ==> exists|i: int|
                {
                    &&& start <= i < old(self).queues().len()
                    &&& forall|j: int| start <= j < i ==> (#[trigger] old(self).queues()[j]).len() == 0
                    &&& #[trigger] old(self).queues()[i] == seq![r->0] + final(self).queues()[i]
                    &&& forall|j: int|
                        0 <= j < old(self).queues().len() && j != i ==> final(self).queues()[j]
                            == old(self).queues()[j]
                },
    {
        let mut i = start;
        while i < NUM_QUEUES
            invariant
                start <= i <= NUM_QUEUES,
                self.wf(),
                self.queues() == old(self).queues(),
                forall|j: int| start <= j < i ==> (#[trigger] self.queues()[j]).len() == 0,
            decreases NUM_QUEUES - i,
        {
            let item = self.tasks[i].pop_front();
            match item {
                Some(task) => {
                    proof {
                        let qs = old(self).queues();
                        assert(qs[i as int].len() > 0);
                        let k = choose|k: int|
                            start <= k < qs.len() && qs[k].len() > 0 && forall|j: int|
                                start <= j < k ==> qs[j].len() == 0;
                        assert(k == i) by {
                            if k < i {
                                assert(self.queues()[k].len() == 0);
                            } else if k > i {
                                assert(qs[i as int].len() == 0);
                            }
                        }
                        assert(self.queues() =~= qs.update(i as int, qs[i as int].drop_first()));
                        assert(qs[i as int] =~= seq![task] + self.queues()[i as int]);
                    }
                    return Some(task);
                },
                None => {
                    assert(self.queues() =~= old(self).queues());
                },
            }
            i = i + 1;
        }
        None
    }

    /// Takes the front task of the highest-priority non-empty queue.
    pub fn get_task(&mut self) -> (r: Option<T>)
        requires
            old(self).wf(),
        ensures
            final(self).wf(),
            (final(self).queues(), r) == take_first(old(self).queues(), 0),
            final(self).queues().len() == old(self).queues().len(),
            r is None ==> final(self).queues() == old(self).queues(),
            r is Some ==> exists|i: int|
                {
                    &&& 0 <= i < old(self).queues().len()
                    &&& forall|j: int| 0 <= j < i ==> (#[trigger] old(self).queues()[j]).len() == 0
                    &&& #[trigger] old(self).queues()[i] == seq![r->0] + final(self).queues()[i]
                    &&& forall|j: int|
                        0 <= j < old(self).queues().len() && j != i ==> final(self).queues()[j]
                            == old(self).queues()[j]
                },
    {
        self.take_from(0)
    }

    /// Takes a task the fair way: when `start_in_middle` is set, the search
    /// starts at the medium-priority queue, so the two highest queues are
    /// passed over (and nothing is taken if only they hold tasks).
    pub fn get_task_from_middle_if(&mut self, start_in_middle: bool) -> (r: Option<T>)
        requires
            old(self).wf(),
        ensures
            final(self).wf(),
            (final(self).queues(), r) == take_first(
                old(self).queues(),
                if start_in_middle {
                    FAIR_START as int
                } else {
                    0
                },
            ),
    {
        if start_in_middle {
            self.take_from(FAIR_START)
        } else {
            self.take_from(0)
        }
    }

    /// Takes a task with randomized fairness: on a coin flip the search
    /// starts at the medium-priority queue instead of the top.
    pub fn get_task_fair(&mut self) -> (r: Option<T>)
        requires
            old(self).wf(),
        ensures
            final(self).wf(),
            (final(self).queues(), r) == take_first(old(self).queues(), 0) || (
            final(self).queues(),
            r,
            ) == take_first(old(self).queues(), FAIR_START as int),
    {
        let coin = random_bool();
        self.get_task_from_middle_if(coin)
    }

    /// After a task was polled: a task that is not finished goes back to the
    /// end of its priority's queue; a finished one is dropped.
    pub fn finish_poll(&mut self, task: T, priority: Priority, ready: bool)
        requires
            old(self).wf(),
        ensures
            final(self).wf(),
            final(self).queues() == if ready {
                old(self).queues()
            } else {
                old(self).queues().update(
                    priority.spec_index() as int,
                    old(self).queues()[priority.spec_index() as int].push(task),
                )
            },
    {
        if !ready {
            self.spawn(task, priority);
        }
    }
}

/// `rand::rng().random::<bool>()`: a boolean drawn from the thread-local
/// random generator.  Nothing is claimed of its value.
#[verifier::external_body]
fn random_bool() -> bool {
    rand::rng().random::<bool>()
}

/// The index of the executor handle that takes the next request, after
/// the one at `index`: the handles are served in turn.
pub fn next_handle_index(index: usize, len: usize) -> (next: usize)
    requires
        len > 0,
        index < usize::MAX,
    ensures
        next == (index + 1) % (len as int),
        next < len,
{
    (index + 1) % len
}

/// A task is taken only from the first non-empty queue in priority
/// order: no queue before it holds a task, and everything else stays.
pub proof fn lemma_highest_priority_first<T>(queues: Seq<Seq<T>>, start: int)
    requires
        0 <= start,
    ensures
        match first_nonempty(queues, start) {
            Some(i) => {
                &&& start <= i < queues.len()
                &&& queues[i].len() > 0
                &&& forall|j: int| start <= j < i ==> queues[j].len() == 0
                &&& take_first(queues, start).1 == Some(queues[i][0])
            },
            None => {
                &&& forall|j: int| start <= j < queues.len() ==> queues[j].len() == 0
                &&& take_first(queues, start) == (queues, None::<T>)
            },
        },
{
    if exists|i: int| start <= i < queues.len() && queues[i].len() > 0 {
        let w = choose|i: int| start <= i < queues.len() && queues[i].len() > 0;
        lemma_least_witness(queues, start, w);
    }
}

proof fn lemma_least_witness<T>(queues: Seq<Seq<T>>, start: int, w: int)
    requires
        start <= w < queues.len(),
        queues[w].len() > 0,
    ensures
        exists|i: int|
            start <= i < queues.len() && queues[i].len() > 0 && forall|j: int|
                start <= j < i ==> queues[j].len() == 0,
    decreases w - start,
{
    if exists|j: int| start <= j < w && queues[j].len() > 0 {
        let j = choose|j: int| start <= j < w && queues[j].len() > 0;
        lemma_least_witness(queues, start, j);
    } else {
        assert(forall|j: int| start <= j < w ==> queues[j].len() == 0);
    }
}

/// The handle chosen after `k` turns of the round robin, starting at
/// `start`.
pub open spec fn after_turns(start: int, len: int, k: nat) -> int
    decreases k,
{
    if k == 0 {
        start
    } else {
        (after_turns(start, len, (k - 1) as nat) + 1) % len
    }
}

proof fn lemma_after_turns_is_offset(start: int, len: int, k: nat)
    requires
        0 <= start < len,
    ensures
        after_turns(start, len, k) == (start + k) % len,
    decreases k,
{
    if k > 0 {
        lemma_after_turns_is_offset(start, len, (k - 1) as nat);
        vstd::arithmetic::div_mod::lemma_add_mod_noop_right(1, start + k - 1, len);
    } else {
        vstd::arithmetic::div_mod::lemma_small_mod(start as nat, len as nat);
    }
}

/// The round robin serves every handle: from any handle, each of the
/// `len` handles is chosen within `len` turns.
pub proof fn lemma_round_robin_reaches_every_handle(start: int, len: int, target: int)
    requires
        0 <= start < len,
        0 <= target < len,
    ensures
        exists|k: nat| 1 <= k <= len && after_turns(start, len, k) == target,
{
    let k: nat = if target > start {
        (target - start) as nat
    } else {
        (target - start + len) as nat
    };
    lemma_after_turns_is_offset(start, len, k);
    if target > start {
        vstd::arithmetic::div_mod::lemma_small_mod(target as nat, len as nat);
    } else {
        vstd::arithmetic::div_mod::lemma_mod_add_multiples_vanish(target, len);
        vstd::arithmetic::div_mod::lemma_small_mod(target as nat, len as nat);
    }
    assert(after_turns(start, len, k) == target);
}

/// A task spawned into empty queues is the next task taken.
pub proof fn lemma_spawn_into_empty_then_take<T>(queues: Seq<Seq<T>>, task: T, p: Priority)
    requires
        queues.len() == NUM_QUEUES,
        forall|i: int| 0 <= i < NUM_QUEUES ==> (#[trigger] queues[i]).len() == 0,
    ensures
        take_first(queues.update(p.spec_index() as int, queues[p.spec_index() as int].push(task)), 0).1
            == Some(task),
{
    let q = queues.update(p.spec_index() as int, queues[p.spec_index() as int].push(task));
    lemma_highest_priority_first(q, 0);
    assert(q[p.spec_index() as int].len() > 0);
    match first_nonempty(q, 0) {
        Some(i) => {
            if i != p.spec_index() {
                assert(q[i] == queues[i]);
            }
            assert(q[p.spec_index() as int] =~= seq![task]);
        },
        None => {
            assert(q[p.spec_index() as int].len() == 0);
        },
    }
}

/// Taking a task removes exactly that task: it was the front of the first
/// non-empty queue at or after `start`, that queue loses only its front,
/// and every other queue stays as it was; when nothing is taken, nothing
/// changes.
pub proof fn lemma_take_removes_exactly_the_front<T>(queues: Seq<Seq<T>>, start: int)
    requires
        0 <= start,
    ensures
        take_first(queues, start).0.len() == queues.len(),
        take_first(queues, start).1 is None ==> take_first(queues, start).0 == queues,
        take_first(queues, start).1 matches Some(t) ==> exists|i: int|
            {
                &&& start <= i < queues.len()
                &&& forall|j: int| start <= j < i ==> (#[trigger] queues[j]).len() == 0
                &&& #[trigger] queues[i] == seq![t] + take_first(queues, start).0[i]
                &&& forall|j: int|
                    0 <= j < queues.len() && j != i ==> take_first(queues, start).0[j]
                        == queues[j]
            },
{
    lemma_highest_priority_first(queues, start);
    match first_nonempty(queues, start) {
        Some(i) => {
            let nq = take_first(queues, start).0;
            assert(queues[i] =~= seq![queues[i][0]] + nq[i]);
        },
        None => {},
    }
}

} // verus!
