use vstd::prelude::*;

verus! {

/// Setup failed: a sink was already installed in this slot. The first
/// installation is never overwritten.
#[derive(Clone, Copy, PartialEq, Eq, Structural, Debug)]
pub enum SetupError {
    AlreadyInstalled,
}

/// A write-once installation slot: the process-wide registry cell that holds
/// whether a sink has been installed. Installation is the only transition and
/// there is no teardown.
pub struct SinkSlot {
    is_installed: bool,
}

impl SinkSlot {
    /// Whether a sink has been installed through this slot.
    pub closed spec fn installed(&self) -> bool {
        self.is_installed
    }

    /// A fresh slot, with nothing installed yet.
    pub fn new() -> (r: Self)
        ensures
            !r.installed(),
    {
        SinkSlot { is_installed: false }
    }

    /// Claims the slot. Succeeds exactly when nothing was installed before;
    /// afterwards the slot is installed either way.
    pub fn claim(&mut self) -> (r: Result<(), SetupError>)
        ensures
            r is Ok <==> !old(self).installed(),
            r is Err ==> r == Result::<(), SetupError>::Err(SetupError::AlreadyInstalled),
            final(self).installed(),
    {
        if self.is_installed {
            Err(SetupError::AlreadyInstalled)
        } else {
            self.is_installed = true;
            Ok(())
        }
    }
}

} // verus!
