//! The life of the mesher's process, as far as it can be decided without
//! touching a process.
//!
//! At most one run of the mesher is alive, and with it the script file it
//! was started on. The supervisor says what has to be stopped and deleted
//! before anything new is written or started; the caller does the stopping,
//! the deleting, the writing and the starting.

use vstd::prelude::*;
use crate::script::MeshScript;

verus! {

/// Whether a run of the mesher is alive, and on which script file.
pub struct Supervisor {
    running: Option<String>,
}

/// What the caller is to do to start a run of the mesher.
#[derive(Debug)]
pub struct Launch {
    /// The script file of the run that is alive: that run is to be stopped
    /// and this file deleted before anything else is done.
    pub stop_first: Option<String>,
    /// The script to write and to start the mesher on.
    pub script: MeshScript,
}

/// The text of a name that may be missing.
pub open spec fn name_of(name: Option<String>) -> Option<Seq<char>> {
    match name {
        Some(n) => Some(n@),
        None => None,
    }
}

impl View for Supervisor {
    type V = Option<Seq<char>>;

    closed spec fn view(&self) -> Option<Seq<char>> {
        name_of(self.running)
    }
}

impl Supervisor {
    /// A supervisor with no run alive.
    pub fn new() -> (sup: Supervisor)
        ensures
            sup@ is None,
    {
        Supervisor { running: None }
    }

    /// Whether a run is alive.
    pub fn is_running(&self) -> (yes: bool)
        ensures
            yes == self@ is Some,
    {
        self.running.is_some()
    }

    /// Takes note of a new run on `script`. The run that was alive, if any,
    /// is handed out to be stopped first; afterwards the new run is the one
    /// that is alive.
    pub fn start(&mut self, script: MeshScript) -> (launch: Launch)
        ensures
            name_of(launch.stop_first) == old(self)@,
            launch.script == script,
            final(self)@ == Some(script.file_name@),
    {
        let stop_first = self.running.take();
        self.running = Some(script.file_name.clone());
        Launch { stop_first, script }
    }

    /// Ends the supervision. The script file of the run that was alive, if
    /// any, is handed out: that run is to be stopped and the file deleted.
    pub fn shutdown(&mut self) -> (stop: Option<String>)
        ensures
            name_of(stop) == old(self)@,
            final(self)@ is None,
    {
        self.running.take()
    }
}

} // verus!
