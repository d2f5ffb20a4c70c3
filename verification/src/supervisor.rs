use vstd::prelude::*;

verus! {

/// The single shared holder of the current live child-process handle.
///
/// The slot is empty at startup, populated at most once by a successful
/// spawn, and emptied by the first terminate call; it stays empty for
/// the rest of the application's life.  The host keeps the slot behind a
/// mutual-exclusion lock, so every operation here runs serialized: the
/// exclusive borrow in each method is exactly the critical section.
pub struct SupervisorSlot<H> {
    handle: Option<H>,
}

/// The slot transition that installing a freshly spawned handle makes.
pub open spec fn spec_install<H>(slot: Option<H>, h: H) -> Option<H> {
    Some(h)
}

/// The take-and-clear transition: the new slot contents, paired with
/// what the caller now owns (and is responsible for killing).
pub open spec fn spec_take<H>(slot: Option<H>) -> (Option<H>, Option<H>) {
    (None::<H>, slot)
}

impl<H> SupervisorSlot<H> {
    /// The tracked handle, if one is installed.
    pub closed spec fn tracked_handle(self) -> Option<H> {
        self.handle
    }

    pub open spec fn is_empty(self) -> bool {
        self.tracked_handle() is None
    }

    /// A fresh slot tracks nothing.
    pub fn new() -> (s: Self)
        ensures
            s.is_empty(),
    {
        SupervisorSlot { handle: None }
    }

    /// Whether a handle is currently tracked.
    pub fn occupied(&self) -> (b: bool)
        ensures
            b == !self.is_empty(),
    {
        self.handle.is_some()
    }

    /// Install a freshly spawned handle.  Callers only install into an
    /// empty slot: at most one live child is tracked at a time.
    pub fn install(&mut self, h: H)
        requires
            old(self).is_empty(),
        ensures
            final(self).tracked_handle() == spec_install(old(self).tracked_handle(), h),
            final(self).tracked_handle() == Some(h),
    {
        self.handle = Some(h);
    }

    /// Atomically take and clear the slot.  The caller becomes the sole
    /// owner of whatever handle was present and must kill and reap it;
    /// any later caller sees an empty slot and has nothing to do.
    pub fn take(&mut self) -> (victim: Option<H>)
        ensures
            final(self).tracked_handle() == spec_take(old(self).tracked_handle()).0,
            victim == spec_take(old(self).tracked_handle()).1,
            final(self).is_empty(),
            victim == old(self).tracked_handle(),
    {
        self.handle.take()
    }
}

/// Record the outcome of one spawn attempt.  On success the handle is
/// installed and no notification is owed; on failure the slot is left
/// empty and the returned value is the one failure notification the
/// host must deliver — exactly one per failed attempt, none otherwise.
pub fn on_spawn_result<H>(slot: &mut SupervisorSlot<H>, outcome: Result<H, String>) -> (note: Option<
    String,
>)
    requires
        old(slot).is_empty(),
    ensures
        (match outcome {
            Ok(h) => final(slot).tracked_handle() == Some(h) && note is None,
            Err(e) => final(slot).is_empty() && note == Some(e),
        }),
{
    match outcome {
        Ok(h) => {
            slot.install(h);
            None
        },
        Err(e) => Some(e),
    }
}

/// The line the diagnostics log gets when a spawn attempt fails.
pub fn spawn_failure_message(err: &str) -> (m: String)
    ensures
        m@ == "Failed to start backend: "@ + err@,
{
    String::from_str("Failed to start backend: ").concat(err)
}

/// The line the diagnostics log gets when a spawn attempt begins.
pub fn spawn_attempt_message(backend_dir: &str) -> (m: String)
    ensures
        m@ == "Spawning backend from dir "@ + backend_dir@,
{
    String::from_str("Spawning backend from dir ").concat(backend_dir)
}

/// Terminating with nothing tracked is a true no-op: the caller gets no
/// victim to kill, and the slot is left exactly as it was — empty.
pub proof fn lemma_terminate_on_empty_is_noop<H>(slot: Option<H>)
    requires
        slot is None,
    ensures
        spec_take(slot).1 is None,
        spec_take(slot).0 == slot,
{
}

/// Two takes in a row — including two shutdown callers whose critical
/// sections the host's lock serializes — hand out the tracked handle at
/// most once: the second caller observes an empty slot and gets nothing.
pub proof fn lemma_take_twice_kills_at_most_once<H>(slot: Option<H>)
    ensures
        ({
            let (after_first, first) = spec_take(slot);
            let (after_second, second) = spec_take(after_first);
            first == slot && second is None && after_second is None
        }),
{
}

/// A successful spawn followed by a terminate leaves the slot empty and
/// hands the terminator exactly the handle that was installed, so the
/// kill-and-reap that follows acts on the spawned process and no other.
pub proof fn lemma_spawn_then_terminate_clears<H>(slot: Option<H>, h: H)
    requires
        slot is None,
    ensures
        spec_take(spec_install(slot, h)).1 == Some(h),
        spec_take(spec_install(slot, h)).0 is None,
{
}

} // verus!
