use vstd::prelude::*;

verus! {

/// The long-lived tasks of the process.
#[derive(Debug, Clone, Copy, PartialEq, Eq, Structural)]
pub enum Task {
    Network,
    Http,
}

/// What the process learns while its tasks run.
#[derive(Debug, Clone, Copy, PartialEq, Eq, Structural)]
pub enum LifecycleEvent {
    /// The operating system asked the process to stop.
    Interrupt,
    /// A task returned, successfully or not.
    TaskEnded { task: Task, ok: bool },
}

/// What the process does next.
#[derive(Debug, Clone, Copy, PartialEq, Eq, Structural)]
pub enum LifecycleAction {
    /// Send the one shutdown notification to both tasks.
    BroadcastShutdown,
    /// Keep waiting for the tasks still running.
    Wait,
    /// Both tasks have returned; exit, failing if either failed.
    Exit { ok: bool },
}

/// The process-level coordination of the network task and the HTTP task,
/// which share one shutdown broadcast.
#[derive(Debug)]
pub struct Lifecycle {
    shutdown_sent: bool,
    network_running: bool,
    http_running: bool,
    failed: bool,
}

impl Lifecycle {
    /// Whether the shutdown notification has gone out.
    pub closed spec fn sent(&self) -> bool {
        self.shutdown_sent
    }

    /// Whether `task` is still running.
    pub closed spec fn running(&self, task: Task) -> bool {
        match task {
            Task::Network => self.network_running,
            Task::Http => self.http_running,
        }
    }

    /// Whether a task has returned an error.
    pub closed spec fn any_failed(&self) -> bool {
        self.failed
    }

    /// Both tasks running, no shutdown sent.
    pub fn new() -> (r: Lifecycle)
        ensures
            !r.sent(),
            r.running(Task::Network),
            r.running(Task::Http),
            !r.any_failed(),
    {
        Lifecycle { shutdown_sent: false, network_running: true, http_running: true, failed: false }
    }

    /// Whether the shutdown notification has gone out.
    pub fn shutdown_sent(&self) -> (r: bool)
        ensures
            r == self.sent(),
    {
        self.shutdown_sent
    }

    /// Whether `task` is still running.
    pub fn is_running(&self, task: Task) -> (r: bool)
        ensures
            r == self.running(task),
    {
        match task {
            Task::Network => self.network_running,
            Task::Http => self.http_running,
        }
    }

    /// Reacts to an event. The first interrupt broadcasts the shutdown, and
    /// no later one does again; a task that returns is never restarted, and
    /// its error is kept for the exit; once both have returned the process
    /// exits.
    pub fn on_event(&mut self, event: LifecycleEvent) -> (r: LifecycleAction)
        ensures
            event is Interrupt ==> {
                &&& final(self).sent()
                &&& final(self).running(Task::Network) == old(self).running(Task::Network)
                &&& final(self).running(Task::Http) == old(self).running(Task::Http)
                &&& final(self).any_failed() == old(self).any_failed()
            },
            event matches LifecycleEvent::TaskEnded { task, ok } ==> {
                &&& final(self).sent() == old(self).sent()
                &&& !final(self).running(task)
                &&& final(self).running(other_task(task)) == old(self).running(other_task(task))
                &&& final(self).any_failed() == (old(self).any_failed() || !ok)
            },
            r == if event is Interrupt && !old(self).sent() {
                LifecycleAction::BroadcastShutdown
            } else if !final(self).running(Task::Network) && !final(self).running(Task::Http) {
                LifecycleAction::Exit { ok: !final(self).any_failed() }
            } else {
                LifecycleAction::Wait
            },
    {
        match event {
            LifecycleEvent::Interrupt => {
                if !self.shutdown_sent {
                    self.shutdown_sent = true;
                    return LifecycleAction::BroadcastShutdown;
                }
            },
            LifecycleEvent::TaskEnded { task, ok } => {
                match task {
                    Task::Network => {
                        self.network_running = false;
                    },
                    Task::Http => {
                        self.http_running = false;
                    },
                }
                if !ok {
                    self.failed = true;
                }
            },
        }
        if !self.network_running && !self.http_running {
            LifecycleAction::Exit { ok: !self.failed }
        } else {
            LifecycleAction::Wait
        }
    }
}

/// The task that is not `t`.
pub open spec fn other_task(t: Task) -> Task {
    match t {
        Task::Network => Task::Http,
        Task::Http => Task::Network,
    }
}

} // verus!
