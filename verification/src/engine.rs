//! The book-keeping of hook installation: one hook at most, installed once,
//! with the address of the displaced original kept for the replacement
//! routine. The patching of code is not done here: its outcome is handed
//! in.

use vstd::prelude::*;

verus! {

/// A hook that is in place.
#[derive(Clone, Copy, Debug, PartialEq, Eq, Structural)]
pub struct InstalledHook {
    /// The address whose code was redirected.
    pub target_address: usize,
    /// The address through which the displaced original is called.
    pub original_fn: usize,
}

/// Why a hook was not installed.
#[derive(Clone, Copy, Debug, PartialEq, Eq, Structural)]
pub enum HookError {
    /// A hook is in place already.
    AlreadyInstalled,
    /// The target is no code address.
    InvalidTarget,
    /// The code at the target could not be patched.
    PatchFailed,
}

/// The state of installation: no hook at first, one hook at most.
pub struct HookEngine {
    installed: Option<InstalledHook>,
}

impl View for HookEngine {
    type V = Option<InstalledHook>;

    closed spec fn view(&self) -> Option<InstalledHook> {
        self.installed
    }
}

impl HookEngine {
    /// The engine with no hook in place.
    pub fn new() -> (engine: HookEngine)
        ensures
            engine@ is None,
    {
        HookEngine { installed: None }
    }

    /// The hook that is in place, if any.
    pub fn installed(&self) -> (hook: Option<InstalledHook>)
        ensures
            hook == self@,
    {
        self.installed
    }

    /// The address through which the replacement routine calls the
    /// original, once a hook is in place.
    pub fn original(&self) -> (address: Option<usize>)
        ensures
            address == match self@ {
                Some(hook) => Some(hook.original_fn),
                None => None,
            },
    {
        match self.installed {
            Some(hook) => Some(hook.original_fn),
            None => None,
        }
    }

    /// What stands against patching the code at `target`, if anything.
    pub open spec fn refusal(self, target: usize) -> Option<HookError> {
        if self@ is Some {
            Some(HookError::AlreadyInstalled)
        } else if target == 0 {
            Some(HookError::InvalidTarget)
        } else {
            None
        }
    }

    /// Decides whether the code at `target` may be patched: not while a
    /// hook is in place, and not at address 0.
    pub fn check_target(&self, target: usize) -> (verdict: Result<(), HookError>)
        ensures
            verdict == match self.refusal(target) {
                Some(e) => Err::<(), HookError>(e),
                None => Ok::<(), HookError>(()),
            },
    {
        if self.installed.is_some() {
            Err(HookError::AlreadyInstalled)
        } else if target == 0 {
            Err(HookError::InvalidTarget)
        } else {
            Ok(())
        }
    }

    /// Records the outcome of patching the code at `target`. `patched` is
    /// the address of the displaced original, or `None` where patching
    /// failed. Returns that address where the hook is now in place.
    pub fn install(&mut self, target: usize, patched: Option<usize>) -> (original: Result<
        usize,
        HookError,
    >)
        ensures
            original == match old(self).refusal(target) {
                Some(e) => Err::<usize, HookError>(e),
                None => match patched {
                    Some(address) if address != 0 => Ok::<usize, HookError>(address),
                    _ => Err::<usize, HookError>(HookError::PatchFailed),
                },
            },
            final(self)@ == match original {
                Ok(address) => Some(InstalledHook { target_address: target, original_fn: address }),
                Err(_) => old(self)@,
            },
    {
        if let Err(e) = self.check_target(target) {
            return Err(e);
        }
        match patched {
            Some(address) => {
                if address != 0 {
                    self.installed = Some(
                        InstalledHook { target_address: target, original_fn: address },
                    );
                    Ok(address)
                } else {
                    Err(HookError::PatchFailed)
                }
            },
            None => Err(HookError::PatchFailed),
        }
    }
}

} // verus!
