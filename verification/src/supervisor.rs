//! The supervisor of the one worker process: the state it keeps and the
//! decisions it takes. Launching, writing and killing are left to the owner
//! of the process handle type `H`.

use vstd::prelude::*;
use crate::error::SidecarError;
use crate::protocol::SidecarCommand;
use crate::protocol::encode;
use crate::protocol::is_record_of;
use crate::reader::Notice;
use crate::reader::WorkerOutput;
use crate::reader::handle_worker_output;
use crate::reader::notice_models;
use crate::reader::notices_of;

verus! {

/// Owns the handle of the worker process, if one is attached, and whether
/// the worker counts as ready. There is never more than one handle.
pub struct SidecarManager<H> {
    child: Option<H>,
    is_ready: bool,
}

impl<H> SidecarManager<H> {
    /// A worker counts as ready exactly while its handle is held.
    #[verifier::type_invariant]
    spec fn coherent(&self) -> bool {
        self.is_ready == self.child is Some
    }

    /// The handle of the attached worker, if there is one.
    pub closed spec fn child(&self) -> Option<H> {
        self.child
    }

    /// Whether a worker counts as ready.
    pub closed spec fn ready(&self) -> bool {
        self.is_ready
    }

    /// A supervisor without a worker.
    pub fn new() -> (r: Self)
        ensures
            r.child() is None,
            !r.ready(),
    {
        SidecarManager { child: None, is_ready: false }
    }

    /// Whether a worker is attached and counts as ready.
    pub fn is_running(&self) -> (r: bool)
        ensures
            r == self.child() is Some,
            r == self.ready(),
    {
        proof {
            use_type_invariant(self);
        }
        self.child.is_some() && self.is_ready
    }

    /// Whether a worker has to be launched before a command can be sent.
    pub fn needs_spawn(&self) -> (r: bool)
        ensures
            r == self.child() is None,
    {
        self.child.is_none()
    }

    /// Takes in the outcome of a launch. While a worker is attached nothing
    /// changes, the call succeeds, and a handle that was launched all the
    /// same is handed back. Otherwise a launched handle is attached and
    /// counts as ready at once, and a failed launch is reported.
    pub fn spawn(&mut self, launched: Result<H, String>) -> (r: Result<Option<H>, SidecarError>)
        ensures
            old(self).child() is Some ==> {
                &&& final(self).child() == old(self).child()
                &&& final(self).ready() == old(self).ready()
                &&& match launched {
                    Ok(handle) => r == Ok::<Option<H>, SidecarError>(Some(handle)),
                    Err(_) => r == Ok::<Option<H>, SidecarError>(None),
                }
            },
            old(self).child() is None ==> match launched {
                Ok(handle) => {
                    &&& r == Ok::<Option<H>, SidecarError>(None)
                    &&& final(self).child() == Some(handle)
                    &&& final(self).ready()
                },
                Err(reason) => {
                    &&& r matches Err(SidecarError::Spawn(why))
                    &&& why@ == reason@
                    &&& final(self).child() is None
                    &&& !final(self).ready()
                },
            },
    {
        proof {
            use_type_invariant(&*self);
        }
        if self.child.is_some() {
            match launched {
                Ok(handle) => Ok(Some(handle)),
                Err(_) => Ok(None),
            }
        } else {
            match launched {
                Ok(handle) => {
                    *self = SidecarManager { child: Some(handle), is_ready: true };
                    Ok(None)
                },
                Err(reason) => Err(SidecarError::Spawn(reason)),
            }
        }
    }

    /// Prepares a command for the worker: the line to write to its input
    /// stream. Without a worker the command is refused and nothing is
    /// printed; with a worker the line is always had.
    pub fn send_command(&self, cmd: &SidecarCommand) -> (r: Result<String, SidecarError>)
        ensures
            self.child() is None ==> r matches Err(SidecarError::NotRunning),
            self.child() is Some ==> (r matches Ok(line) && is_record_of(line@, cmd.json())),
    {
        if self.child.is_none() {
            return Err(SidecarError::NotRunning);
        }
        encode(cmd)
    }

    /// The handle of the attached worker, to write a prepared line to.
    pub fn worker(&self) -> (r: Option<&H>)
        ensures
            match r {
                Some(handle) => self.child() == Some(*handle),
                None => self.child() is None,
            },
    {
        self.child.as_ref()
    }

    /// Detaches the worker: its handle, if there was one, is handed to the
    /// caller to be terminated.
    pub fn stop(&mut self) -> (r: Option<H>)
        ensures
            r == old(self).child(),
            final(self).child() is None,
            !final(self).ready(),
    {
        let mut detached = SidecarManager { child: None, is_ready: false };
        core::mem::swap(self, &mut detached);
        detached.child
    }

    /// Takes in what a reader got from the worker and gives the notices to
    /// hand on. When the worker has exited its handle is let go, so that the
    /// supervisor no longer counts it as running.
    pub fn handle_output(&mut self, output: WorkerOutput) -> (out: Vec<Notice>)
        ensures
            notice_models(out@) == notices_of(output),
            output is Terminated ==> final(self).child() is None && !final(self).ready(),
            !(output is Terminated) ==> final(self).child() == old(self).child(),
            !(output is Terminated) ==> final(self).ready() == old(self).ready(),
    {
        match &output {
            WorkerOutput::Terminated { .. } => {
                *self = SidecarManager { child: None, is_ready: false };
            },
            _ => {},
        }
        handle_worker_output(output)
    }
}

impl<H> Default for SidecarManager<H> {
    /// A supervisor without a worker.
    fn default() -> (r: Self)
        ensures
            r.child() is None,
            !r.ready(),
    {
        SidecarManager::new()
    }
}

} // verus!
