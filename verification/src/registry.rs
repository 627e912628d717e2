//! The registry of running tasks: one slot per role, each holding at most
//! one cancellation handle.
//!
//! A handle is a number; the caller keeps the channel that belongs to it.

use crate::lifecycle::Role;
use vstd::prelude::*;

verus! {

/// The slots of the two roles. One registry serves one process.
#[derive(Debug)]
pub struct TaskRegistry {
    client: Option<u64>,
    server: Option<u64>,
    next: u64,
}

/// What starting a task asks of the caller, in this order: signal `cancel`,
/// where there is one; for the server role wait until the task behind it
/// has let go of its port; then run the new task under `handle`.
#[derive(Debug, Clone, Copy, PartialEq, Eq, Structural)]
pub struct StartPlan {
    /// The handle of the task that was running, to be cancelled first.
    pub cancel: Option<u64>,
    /// The handle of the new task.
    pub handle: u64,
    /// Whether the new task must wait for the cancelled one to end before
    /// it binds its port.
    pub await_previous: bool,
}

/// One thing to do when a task starts.
#[derive(Debug, Clone, Copy, PartialEq, Eq, Structural)]
pub enum StartStep {
    /// Signal the task under this handle to stop.
    Cancel(u64),
    /// Wait until the task under this handle has ended and let go of its
    /// port, or until the wait for it runs out.
    AwaitEnd(u64),
    /// Run the new task under this handle, its first cycle first.
    Launch(u64),
}

/// The steps of `plan`, in order: the task that was running is cancelled
/// before the new one is launched.
pub open spec fn steps_of(plan: StartPlan) -> Seq<StartStep> {
    match plan.cancel {
        Some(old) => if plan.await_previous {
            seq![StartStep::Cancel(old), StartStep::AwaitEnd(old), StartStep::Launch(plan.handle)]
        } else {
            seq![StartStep::Cancel(old), StartStep::Launch(plan.handle)]
        },
        None => seq![StartStep::Launch(plan.handle)],
    }
}

impl StartPlan {
    /// What the caller does, in order.
    pub fn steps(&self) -> (steps: Vec<StartStep>)
        ensures
            steps@ == steps_of(*self),
    {
        let mut steps: Vec<StartStep> = Vec::new();
        match self.cancel {
            Some(old) => {
                steps.push(StartStep::Cancel(old));
                if self.await_previous {
                    steps.push(StartStep::AwaitEnd(old));
                }
            },
            None => {},
        }
        steps.push(StartStep::Launch(self.handle));
        steps
    }
}

impl TaskRegistry {
    #[verifier::type_invariant]
    spec fn inv(self) -> bool {
        &&& self.client matches Some(h) ==> h < self.next
        &&& self.server matches Some(h) ==> h < self.next
        &&& self.client is Some && self.server is Some ==> self.client != self.server
    }

    /// The handle in the slot of `role`.
    pub closed spec fn active(self, role: Role) -> Option<u64> {
        match role {
            Role::Client => self.client,
            Role::Server => self.server,
        }
    }

    /// The handle that the next start hands out.
    pub closed spec fn upcoming(self) -> u64 {
        self.next
    }

    /// A registry with both slots empty.
    pub fn new() -> (r: TaskRegistry)
        ensures
            r.active(Role::Client) is None,
            r.active(Role::Server) is None,
            r.upcoming() == 0,
    {
        TaskRegistry { client: None, server: None, next: 0 }
    }

    /// The handle of the task of `role`, if one is registered.
    pub fn current(&self, role: Role) -> (h: Option<u64>)
        ensures
            h == self.active(role),
    {
        match role {
            Role::Client => self.client,
            Role::Server => self.server,
        }
    }

    /// Registers a new task of `role`. The slot takes a handle that was
    /// never handed out before; the handle it held, if any, comes back as
    /// the one to cancel first, so at most one task of a role is under
    /// way. The other role's slot stays as it is. `None`, with nothing
    /// changed, only where the handles have run out.
    pub fn start(&mut self, role: Role) -> (plan: Option<StartPlan>)
        ensures
            match plan {
                Some(p) => {
                    &&& old(self).upcoming() < u64::MAX
                    &&& p.cancel == old(self).active(role)
                    &&& p.handle == old(self).upcoming()
                    &&& p.cancel != Some(p.handle)
                    &&& p.await_previous == (role == Role::Server && p.cancel is Some)
                    &&& final(self).active(role) == Some(p.handle)
                    &&& final(self).upcoming() == p.handle + 1
                    &&& forall|other: Role|
                        other != role ==> final(self).active(other) == old(self).active(other)
                            && final(self).active(other) != Some(p.handle)
                },
                None => old(self).upcoming() == u64::MAX && *final(self) == *old(self),
            },
    {
        proof {
            use_type_invariant(&*self);
        }
        if self.next == u64::MAX {
            return None;
        }
        let handle = self.next;
        let cancel = self.current(role);
        let await_previous = match role {
            Role::Server => cancel.is_some(),
            Role::Client => false,
        };
        let (client, server) = match role {
            Role::Client => (Some(handle), self.server),
            Role::Server => (self.client, Some(handle)),
        };
        *self = TaskRegistry { client, server, next: handle + 1 };
        Some(StartPlan { cancel, handle, await_previous })
    }

    /// Empties the slot of `role` and gives back the handle to cancel, if
    /// the slot held one. The other role's slot stays as it is.
    pub fn stop(&mut self, role: Role) -> (cancel: Option<u64>)
        ensures
            cancel == old(self).active(role),
            final(self).active(role) is None,
            final(self).upcoming() == old(self).upcoming(),
            forall|other: Role|
                other != role ==> final(self).active(other) == old(self).active(other),
    {
        proof {
            use_type_invariant(&*self);
        }
        let cancel = self.current(role);
        let (client, server) = match role {
            Role::Client => (None, self.server),
            Role::Server => (self.client, None),
        };
        *self = TaskRegistry { client, server, next: self.next };
        cancel
    }

    /// Notes that the task under `handle` has ended by itself. Its slot is
    /// emptied if it still holds that handle; a slot that a newer task has
    /// taken stays as it is.
    pub fn finished(&mut self, role: Role, handle: u64)
        ensures
            final(self).active(role) == if old(self).active(role) == Some(handle) {
                None
            } else {
                old(self).active(role)
            },
            final(self).upcoming() == old(self).upcoming(),
            forall|other: Role|
                other != role ==> final(self).active(other) == old(self).active(other),
    {
        proof {
            use_type_invariant(&*self);
        }
        let held = match self.current(role) {
            Some(h) => h == handle,
            None => false,
        };
        if held {
            let (client, server) = match role {
                Role::Client => (None, self.server),
                Role::Server => (self.client, None),
            };
            *self = TaskRegistry { client, server, next: self.next };
        }
    }
}

} // verus!
