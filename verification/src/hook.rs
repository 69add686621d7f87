//! Hook registration lifecycle and dispatch decisions.
//!
//! Installing a low-level hook, calling the next hook in the chain and
//! draining the message queue are operating-system calls made by the shell
//! around the library. The decisions those calls hinge on are verified
//! here: what a registration attempt's raw result means, when a callback
//! may run application logic at all, when the message pump should keep
//! going, and the single-release lifecycle of an installed hook.

use vstd::prelude::*;

verus! {

/// Message code that asks the thread to quit its message loop.
pub const WM_QUIT: u32 = 0x0012;

/// Hook registration refused by the operating system; carries the error
/// code the system reported.
#[derive(Clone, Copy, PartialEq, Eq, Structural, Debug)]
pub struct InstallError {
    pub code: u32,
}

/// Owner of one installed hook registration.
///
/// The handle starts armed; releasing it yields the raw registration value
/// exactly once, so the owner can uninstall the hook, and disarms it. A
/// second release is a no-op — never a double uninstall.
pub struct Hook {
    handle: isize,
    armed: bool,
}

impl Hook {
    /// The raw registration value this handle owns.
    pub closed spec fn spec_handle(&self) -> isize {
        self.handle
    }

    /// Whether the registration has not been released yet.
    pub closed spec fn spec_armed(&self) -> bool {
        self.armed
    }

    /// Take ownership of a live registration. The raw value is non-zero by
    /// construction: zero means the install call failed and no handle
    /// exists to own.
    pub fn from_registration(handle: isize) -> (hook: Hook)
        requires
            handle != 0,
        ensures
            hook.spec_armed(),
            hook.spec_handle() == handle,
    {
        Hook { handle, armed: true }
    }

    /// The raw registration value, for the shell that uninstalls it.
    pub fn raw_handle(&self) -> (handle: isize)
        ensures
            handle == self.spec_handle(),
    {
        self.handle
    }

    /// Release the registration. The first call disarms the handle and
    /// hands back the raw value to uninstall; every later call changes
    /// nothing and hands back `None`.
    pub fn release(&mut self) -> (taken: Option<isize>)
        ensures
            !final(self).spec_armed(),
            final(self).spec_handle() == old(self).spec_handle(),
            old(self).spec_armed() ==> taken == Some(old(self).spec_handle()),
            !old(self).spec_armed() ==> taken is None,
    {
        if self.armed {
            self.armed = false;
            Some(self.handle)
        } else {
            None
        }
    }
}

/// Interpret the raw result of an install call: a non-zero value is the
/// live registration, zero means the system refused and `last_error` says
/// why.
pub fn register_outcome(raw_handle: isize, last_error: u32) -> (r: Result<Hook, InstallError>)
    ensures
        raw_handle != 0 ==> (r matches Ok(hook) && hook.spec_armed() && hook.spec_handle()
            == raw_handle),
        raw_handle == 0 ==> r == Err::<Hook, InstallError>(InstallError { code: last_error }),
{
    if raw_handle != 0 {
        Ok(Hook::from_registration(raw_handle))
    } else {
        Err(InstallError { code: last_error })
    }
}

/// Whether a hook callback may run application logic for this code. A
/// negative code is informational: the system requires it to be forwarded
/// to the next hook in the chain untouched.
pub fn invokes_application(code: i32) -> (b: bool)
    ensures
        b == (code >= 0),
{
    code >= 0
}

/// Whether the message pump should keep running after draining a message:
/// everything but a quit message keeps the pump alive.
pub fn pump_continues(last_message: u32) -> (b: bool)
    ensures
        b == (last_message != WM_QUIT),
{
    last_message != WM_QUIT
}

} // verus!
