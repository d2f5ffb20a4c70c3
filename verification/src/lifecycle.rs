use vstd::prelude::*;

verus! {

/// A moment in the host application's life that the core reacts to.
#[derive(Clone, Copy, PartialEq, Eq, Structural, Debug)]
pub enum LifecycleEvent {
    /// The application finished setting up and the backend should start.
    Setup,
    /// The user asked the main window to close.
    WindowCloseRequested,
    /// The host asked the application to exit.
    ExitRequested,
    /// The application is exiting for good.
    Exit,
}

/// What the core asks the host to do in response to an event.
#[derive(Clone, Copy, PartialEq, Eq, Structural, Debug)]
pub enum LifecycleAction {
    /// Resolve the backend location, locate an interpreter, and spawn.
    StartBackend,
    /// Take the tracked child, kill it, and wait for it to exit.
    Terminate,
}

/// The supervisor operation each host event triggers: setup starts the
/// backend; every shutdown-flavoured event terminates it, so whichever
/// of the three fires first does the real work and the rest are no-ops.
pub fn action_for_event(e: LifecycleEvent) -> (a: LifecycleAction)
    ensures
        a == (match e {
            LifecycleEvent::Setup => LifecycleAction::StartBackend,
            _ => LifecycleAction::Terminate,
        }),
{
    match e {
        LifecycleEvent::Setup => LifecycleAction::StartBackend,
        LifecycleEvent::WindowCloseRequested => LifecycleAction::Terminate,
        LifecycleEvent::ExitRequested => LifecycleAction::Terminate,
        LifecycleEvent::Exit => LifecycleAction::Terminate,
    }
}

} // verus!
