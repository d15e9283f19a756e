use vstd::prelude::*;

verus! {

/// Relies on `nix::sys::ptrace::traceme` (PTRACE_TRACEME): asks the kernel
/// to make this process a tracee of its parent. The request is rejected
/// exactly when a tracer is already attached; on success the process is
/// left as a tracee, so the attempt is consumed, not undone. The outcome
/// depends on the process's trace state at call time, so nothing is
/// promised of which variant comes back; the raw `errno` value is carried
/// on rejection.
#[verifier::external_body]
pub(crate) fn traceme_probe() -> (r: Result<(), i32>) {
    match nix::sys::ptrace::traceme() {
        Ok(()) => Ok(()),
        Err(e) => Err(e as i32),
    }
}

/// Reads a probe outcome: a rejected self-trace request means a tracer was
/// already attached to the process.
pub fn tracer_present(probe: &Result<(), i32>) -> (r: bool)
    ensures
        r == (probe matches Err(_)),
{
    match probe {
        Ok(()) => false,
        Err(_) => true,
    }
}

} // verus!
