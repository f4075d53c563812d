//! The supervisor's startup phases.  Loading the three credential files
//! is the collaborators' work; the decisions — abort on any missing
//! credential, otherwise configure and run forever — are made here.

use vstd::prelude::*;

verus! {

/// The top-level phases of the process.
#[derive(Clone, Copy, PartialEq, Eq, Structural, Debug)]
pub enum Phase {
    /// Reading the credential files.
    Boot,
    /// Transport and session built; tasks not yet started.
    Configured,
    /// The request driver is spawned and the pump loop runs; this phase
    /// is left only by killing the process.
    Running,
}

/// Whether startup may proceed, given which credential buffers could be
/// read.  All three are required; any failure is fatal before any
/// network activity, with no retry.
pub fn boot_may_proceed(cert_loaded: bool, key_loaded: bool, ca_loaded: bool) -> (ok: bool)
    ensures
        ok == (cert_loaded && key_loaded && ca_loaded),
{
    cert_loaded && key_loaded && ca_loaded
}

/// The next phase: booting proceeds to `Configured` only when all
/// credentials loaded (otherwise the process aborts, `None`); a
/// configured process starts running; a running process stays running.
pub fn next_phase(p: Phase, boot_ok: bool) -> (n: Option<Phase>)
    ensures
        p is Boot && boot_ok ==> n == Some(Phase::Configured),
        p is Boot && !boot_ok ==> n is None,
        p is Configured ==> n == Some(Phase::Running),
        p is Running ==> n == Some(Phase::Running),
{
    match p {
        Phase::Boot => if boot_ok {
            Some(Phase::Configured)
        } else {
            None
        },
        Phase::Configured => Some(Phase::Running),
        Phase::Running => Some(Phase::Running),
    }
}

} // verus!
