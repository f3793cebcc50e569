//! The tracer: the configuration from which a traced process is started or
//! attached to.

use crate::tracee::{Tracee, TraceeState};
use vstd::prelude::*;

verus! {

/// How a trace is to be made: how instructions are decoded, how unsupported
/// memory operations and faults are treated, and which process is traced.
#[derive(Debug)]
pub struct Tracer {
    /// Skip memory uses of unsupported size instead of failing the step.
    pub ignore_unsupported_memops: bool,
    /// Suspend and detach the tracee when one of its memory operands cannot
    /// be read.
    pub debug_on_fault: bool,
    /// The CPU mode to decode instructions with: 32 or 64.
    pub bitness: u32,
    /// The process to attach to, where none is spawned.
    pub tracee_pid: Option<i32>,
    /// The program to spawn.
    pub tracee_name: Option<String>,
    /// The command-line arguments of the spawned program.
    pub tracee_args: Vec<String>,
}

/// How the traced process comes under debug control.
#[derive(Debug)]
pub enum Launch<'a> {
    /// Spawn `program` with `args`, stopped before its first instruction.
    Spawn { program: &'a String, args: &'a Vec<String> },
    /// Attach to the running process `pid`.
    Attach { pid: i32 },
}

impl Tracer {
    /// The decoder has a mode for the configured bitness.
    pub open spec fn wf(&self) -> bool {
        self.bitness == 32 || self.bitness == 64
    }

    /// Whether the configuration names a process to trace.
    pub open spec fn has_target(&self) -> bool {
        self.tracee_name is Some || self.tracee_pid is Some
    }

    /// How the traced process comes under debug control: a program to spawn
    /// takes precedence over a process to attach to.
    pub fn launch(&self) -> (launch: Launch<'_>)
        requires
            self.has_target(),
        ensures
            self.tracee_name is Some ==> launch == (Launch::Spawn {
                program: &self.tracee_name->Some_0,
                args: &self.tracee_args,
            }),
            self.tracee_name is None ==> launch == (Launch::Attach {
                pid: self.tracee_pid->Some_0,
            }),
    {
        match &self.tracee_name {
            Some(program) => Launch::Spawn { program, args: &self.tracee_args },
            None => match self.tracee_pid {
                Some(pid) => Launch::Attach { pid },
                None => vstd::pervasive::unreached(),
            },
        }
    }

    /// The controller of the process `tracee_pid`, which has come under debug
    /// control as `launch` says and is stopped: it keeps this configuration
    /// and has traced nothing yet.
    pub fn trace(&self, tracee_pid: i32) -> (tracee: Tracee)
        requires
            self.wf(),
        ensures
            tracee.wf(),
            tracee@ == TraceeState::initial(
                tracee_pid,
                self.bitness,
                self.ignore_unsupported_memops,
                self.debug_on_fault,
            ),
    {
        Tracee::new(tracee_pid, self)
    }
}

} // verus!
