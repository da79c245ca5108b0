//! The scheduler of the two USB tasks.
//!
//! The transport has control transfers of its own to serve, and the echo
//! service has its packets. Both run on one stack and give way only where
//! they wait, so whoever resumes them decides how long each one waits. This
//! scheduler takes turns: of two tasks that can go on, the one that ran last
//! waits. It ends when a task exits, which a task does only on an error that
//! it cannot recover from.

use vstd::prelude::*;

verus! {

/// The two tasks.
#[derive(Clone, Copy, Debug, PartialEq, Eq, Structural)]
pub enum Task {
    /// The control processing of the transport.
    Transport,
    /// The echo service.
    Echo,
}

impl Task {
    /// The task that this one shares the processor with.
    pub open spec fn spec_other(self) -> Task {
        match self {
            Task::Transport => Task::Echo,
            Task::Echo => Task::Transport,
        }
    }

    /// The task that this one shares the processor with.
    #[verifier::when_used_as_spec(spec_other)]
    pub fn other(self) -> (task: Task)
        ensures
            task == self.spec_other(),
    {
        match self {
            Task::Transport => Task::Echo,
            Task::Echo => Task::Transport,
        }
    }
}

/// How a task came back from its turn.
#[derive(Clone, Copy, Debug, PartialEq, Eq, Structural)]
pub enum TaskStatus {
    /// It waits for something and will be woken.
    Suspended,
    /// It has ended, on an error that it could not recover from.
    Exited,
}

/// Which task can go on, whose turn it is, and whether all is over.
#[derive(Clone, Copy, Debug, PartialEq, Eq, Structural)]
pub struct Scheduler {
    /// The transport has been woken since its last turn.
    pub transport_ready: bool,
    /// The echo service has been woken since its last turn.
    pub echo_ready: bool,
    /// The task that goes first if both are ready.
    pub turn: Task,
    /// A task has exited: no task runs any more.
    pub finished: bool,
}

impl Scheduler {
    /// `task` has been woken since its last turn.
    pub open spec fn is_ready(self, task: Task) -> bool {
        match task {
            Task::Transport => self.transport_ready,
            Task::Echo => self.echo_ready,
        }
    }

    /// The scheduler after `task` was woken.
    pub open spec fn woken(self, task: Task) -> Scheduler {
        match task {
            Task::Transport => Scheduler { transport_ready: true, ..self },
            Task::Echo => Scheduler { echo_ready: true, ..self },
        }
    }

    /// The task that runs next: none once a task has exited, else the task
    /// whose turn it is if that one is ready, else the other one if it is.
    pub open spec fn chosen(self) -> Option<Task> {
        if self.finished {
            None
        } else if self.is_ready(self.turn) {
            Some(self.turn)
        } else if self.is_ready(self.turn.spec_other()) {
            Some(self.turn.spec_other())
        } else {
            None
        }
    }

    /// The scheduler after it has sent `task` off: the task is no longer
    /// ready, and the next turn is the other task's.
    pub open spec fn dispatched(self, task: Task) -> Scheduler {
        match task {
            Task::Transport => Scheduler { transport_ready: false, turn: Task::Echo, ..self },
            Task::Echo => Scheduler { echo_ready: false, turn: Task::Transport, ..self },
        }
    }

    /// The scheduler after its next choice.
    pub open spec fn selected(self) -> Scheduler {
        match self.chosen() {
            Some(task) => self.dispatched(task),
            None => self,
        }
    }

    /// The scheduler after a task came back with `status`.
    pub open spec fn reported(self, status: TaskStatus) -> Scheduler {
        match status {
            TaskStatus::Suspended => self,
            TaskStatus::Exited => Scheduler { finished: true, ..self },
        }
    }

    /// `self` is what `earlier` has become while no task ran: nothing has
    /// ended, the turn is the same, and a task that was ready still is.
    pub open spec fn follows(self, earlier: Scheduler) -> bool {
        &&& !self.finished
        &&& self.turn == earlier.turn
        &&& earlier.transport_ready ==> self.transport_ready
        &&& earlier.echo_ready ==> self.echo_ready
    }

    /// No task is starved. A task that is ready runs at the next choice or at
    /// the one after it, whichever tasks are woken in between, as long as
    /// nothing has ended by then.
    pub proof fn lemma_no_starvation(self, task: Task, later: Scheduler)
        requires
            !self.finished,
            self.is_ready(task),
            later.follows(self.selected()),
        ensures
            self.chosen() == Some(task) || (self.chosen() == Some(task.spec_other())
                && later.chosen() == Some(task)),
    {
    }

    /// Two ready tasks both run within two choices, one after the other.
    pub proof fn lemma_both_run(self)
        requires
            !self.finished,
            self.transport_ready,
            self.echo_ready,
        ensures
            self.chosen() == Some(self.turn),
            self.selected().chosen() == Some(self.turn.spec_other()),
            self.selected().selected().chosen() is None,
    {
    }

    /// Once a task has exited nothing runs, whatever is woken.
    pub proof fn lemma_exit_ends_all(self, task: Task)
        ensures
            self.reported(TaskStatus::Exited).chosen() is None,
            self.reported(TaskStatus::Exited).woken(task).chosen() is None,
            self.reported(TaskStatus::Exited).selected() == self.reported(TaskStatus::Exited),
    {
    }

    /// A scheduler at the start: both tasks are to run, the transport first.
    pub fn new() -> (scheduler: Scheduler)
        ensures
            scheduler == (Scheduler {
                transport_ready: true,
                echo_ready: true,
                turn: Task::Transport,
                finished: false,
            }),
    {
        Scheduler { transport_ready: true, echo_ready: true, turn: Task::Transport, finished: false }
    }

    /// Notes that `task` can go on.
    pub fn wake(&mut self, task: Task)
        ensures
            *final(self) == old(self).woken(task),
    {
        match task {
            Task::Transport => {
                self.transport_ready = true;
            },
            Task::Echo => {
                self.echo_ready = true;
            },
        }
    }

    /// Chooses the task that runs next, if any can.
    pub fn select(&mut self) -> (task: Option<Task>)
        ensures
            task == old(self).chosen(),
            *final(self) == old(self).selected(),
    {
        if self.finished {
            return None;
        }
        let first = self.turn;
        let second = first.other();
        let task = if self.ready(first) {
            first
        } else if self.ready(second) {
            second
        } else {
            return None;
        };
        match task {
            Task::Transport => {
                self.transport_ready = false;
            },
            Task::Echo => {
                self.echo_ready = false;
            },
        }
        self.turn = task.other();
        Some(task)
    }

    /// Takes in how the task that ran came back.
    pub fn report(&mut self, status: TaskStatus)
        ensures
            *final(self) == old(self).reported(status),
    {
        match status {
            TaskStatus::Suspended => {},
            TaskStatus::Exited => {
                self.finished = true;
            },
        }
    }

    /// Whether `task` has been woken since its last turn.
    pub fn ready(&self, task: Task) -> (ready: bool)
        ensures
            ready == self.is_ready(task),
    {
        match task {
            Task::Transport => self.transport_ready,
            Task::Echo => self.echo_ready,
        }
    }

    /// Whether a task has exited, and the whole with it.
    pub fn is_finished(&self) -> (finished: bool)
        ensures
            finished == self.finished,
    {
        self.finished
    }
}

} // verus!
