use vstd::prelude::*;

verus! {

/// Whether a context owns the subsystem connection, given the status that its
/// initialization request returned: only a fresh initialization (status 0) is
/// owned. A subsystem that was already initialized (a positive status) belongs
/// to whoever initialized it, and a failure (a negative status) set up nothing.
pub open spec fn owns_after_init(status: i32) -> bool {
    status == 0
}

/// What releasing a context with ownership `owned` does: whether the subsystem
/// must be torn down now, and whether the context still owns it afterwards.
pub open spec fn release_outcome(owned: bool) -> (bool, bool) {
    (owned, false)
}

/// The audio subsystem lifecycle manager: remembers whether this instance
/// performed the subsystem initialization and must therefore undo it.
pub struct WinMix {
    com_initialized: bool,
}

impl View for WinMix {
    type V = bool;

    closed spec fn view(&self) -> bool {
        self.com_initialized
    }
}

impl WinMix {
    /// A context whose initialization request returned `status`.
    pub fn from_init_status(status: i32) -> (r: WinMix)
        ensures
            r@ == owns_after_init(status),
    {
        WinMix { com_initialized: status == 0 }
    }

    /// Whether this context still has to tear the subsystem down.
    pub fn owns_init(&self) -> (r: bool)
        ensures
            r == self@,
    {
        self.com_initialized
    }

    /// Gives up ownership. Returns `true` exactly when the caller must now tear
    /// the subsystem down; afterwards the context owns nothing, so a second
    /// release returns `false`.
    pub fn release(&mut self) -> (deinit: bool)
        ensures
            (deinit, final(self)@) == release_outcome(old(self)@),
    {
        let deinit = self.com_initialized;
        self.com_initialized = false;
        deinit
    }
}

/// A context tears the subsystem down on its first release exactly when its own
/// initialization succeeded, and never on a later release.
pub proof fn lemma_teardown_only_by_owner(status: i32)
    ensures
        release_outcome(owns_after_init(status)).0 == owns_after_init(status),
        !release_outcome(release_outcome(owns_after_init(status)).1).0,
{
}

} // verus!
