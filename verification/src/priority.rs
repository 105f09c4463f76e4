use vstd::prelude::*;

verus! {

/// Number of priority queues an executor keeps; queue 0 is reserved for
/// system work and is never handed to user tasks.
pub const NUM_QUEUES: usize = 5;

/// Priority is used to enqueue tasks onto priority queues.
/// Index 0 is reserved for system priority work.
#[derive(Clone, Copy, Debug, PartialEq, Eq, Structural)]
pub enum Priority {
    BestEffort,
    Low,
    Medium,
    High,
}

impl Priority {
    /// The queue index that a task of this priority is placed in.
    pub open spec fn spec_index(self) -> nat {
        match self {
            Priority::BestEffort => 4,
            Priority::Low => 3,
            Priority::Medium => 2,
            Priority::High => 1,
        }
    }

    /// The queue index that a task of this priority is placed in
    /// (smaller indices are served first).
    pub fn index(&self) -> (i: usize)
        ensures
            i == self.spec_index(),
            1 <= i < NUM_QUEUES,
    {
        match self {
            Priority::BestEffort => 4,
            Priority::Low => 3,
            Priority::Medium => 2,
            Priority::High => 1,
        }
    }

    /// The priority whose queue has the given index, if any.
    pub fn from_index(i: usize) -> (p: Option<Priority>)
        ensures
            match p {
                Some(q) => q.spec_index() == i,
                None => i == 0 || i >= NUM_QUEUES,
            },
    {
        if i == 1 {
            Some(Priority::High)
        } else if i == 2 {
            Some(Priority::Medium)
        } else if i == 3 {
            Some(Priority::Low)
        } else if i == 4 {
            Some(Priority::BestEffort)
        } else {
            None
        }
    }
}

impl Default for Priority {
    fn default() -> (p: Self)
        ensures
            p == Priority::Low,
    {
        Priority::Low
    }
}

} // verus!
