use vstd::prelude::*;

verus! {

/// What the supervisor holds of the background service process.
#[derive(Clone, Copy, Debug, PartialEq, Eq, Structural)]
pub enum ProcessSlot {
    /// No process has been created yet, or creating it failed.
    Empty,
    /// A process was created and is owned here; its OS identifier.
    Live(u32),
    /// The process was handed out for termination; the slot is never reused.
    Reaped,
}

/// Owns the one background service process of a run.
///
/// It records how many spawns and termination attempts it has asked for, so
/// that at most one of each can ever be requested.
#[derive(Clone, Copy, Debug, PartialEq, Eq, Structural)]
pub struct ServiceSupervisor {
    pub slot: ProcessSlot,
    pub spawn_requests: u8,
    pub terminate_requests: u8,
}

impl ServiceSupervisor {
    pub open spec fn wf(self) -> bool {
        &&& self.spawn_requests <= 1
        &&& self.terminate_requests <= 1
        &&& match self.slot {
            ProcessSlot::Empty => self.terminate_requests == 0,
            ProcessSlot::Live(_) => self.spawn_requests == 1 && self.terminate_requests == 0,
            ProcessSlot::Reaped => self.spawn_requests == 1 && self.terminate_requests == 1,
        }
    }

    pub open spec fn initial() -> ServiceSupervisor {
        ServiceSupervisor { slot: ProcessSlot::Empty, spawn_requests: 0, terminate_requests: 0 }
    }

    pub fn new() -> (s: ServiceSupervisor)
        ensures
            s == ServiceSupervisor::initial(),
            s.wf(),
    {
        ServiceSupervisor { slot: ProcessSlot::Empty, spawn_requests: 0, terminate_requests: 0 }
    }

    /// Asks for permission to spawn the service. Only the first call in the
    /// life of the supervisor is granted; later ones change nothing.
    pub fn request_spawn(&mut self) -> (granted: bool)
        requires
            old(self).wf(),
        ensures
            granted == (old(self).spawn_requests == 0),
            granted ==> *final(self) == (ServiceSupervisor { spawn_requests: 1, ..*old(self) }),
            !granted ==> *final(self) == *old(self),
            final(self).wf(),
    {
        if self.spawn_requests == 0 {
            self.spawn_requests = 1;
            true
        } else {
            false
        }
    }

    /// Takes ownership of the process that a granted spawn created.
    pub fn record_spawned(&mut self, pid: u32)
        requires
            old(self).wf(),
            old(self).spawn_requests == 1,
            old(self).slot == ProcessSlot::Empty,
        ensures
            *final(self) == (ServiceSupervisor { slot: ProcessSlot::Live(pid), ..*old(self) }),
            final(self).wf(),
    {
        self.slot = ProcessSlot::Live(pid);
    }

    /// Idempotent termination: a live process is handed out once to be
    /// terminated and the slot is marked reaped; otherwise nothing happens.
    pub fn take_for_termination(&mut self) -> (r: Option<u32>)
        requires
            old(self).wf(),
        ensures
            final(self).wf(),
            match old(self).slot {
                ProcessSlot::Live(pid) => {
                    &&& r == Some(pid)
                    &&& *final(self) == (ServiceSupervisor {
                        slot: ProcessSlot::Reaped,
                        terminate_requests: 1,
                        ..*old(self)
                    })
                },
                _ => r.is_none() && *final(self) == *old(self),
            },
    {
        match self.slot {
            ProcessSlot::Live(pid) => {
                self.slot = ProcessSlot::Reaped;
                self.terminate_requests = 1;
                Some(pid)
            },
            _ => None,
        }
    }

    /// Whether the supervisor still owns a process that has not been handed
    /// out for termination.
    pub fn is_live(&self) -> (r: bool)
        ensures
            r == (self.slot is Live),
    {
        match self.slot {
            ProcessSlot::Live(_) => true,
            _ => false,
        }
    }
}

} // verus!
