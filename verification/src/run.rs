use vstd::prelude::*;

verus! {

/// The size of the window surface, in physical pixels.
#[derive(Clone, Copy, Debug, PartialEq, Eq, Structural)]
pub struct SurfaceSize {
    pub width: u32,
    pub height: u32,
}

/// The window events the run loop reacts to.
#[derive(Clone, Copy, Debug, PartialEq, Eq, Structural)]
pub enum LoopEvent {
    /// The window was resized to the given size.
    Resized(SurfaceSize),
    /// The user asked to close the window.
    CloseRequested,
    /// The window system asked for a new frame.
    RedrawRequested,
    /// The event queue is drained and the loop is about to wait.
    AboutToWait,
    /// Any other event.
    Other,
}

/// What the run loop does in answer to an event.
#[derive(Clone, Copy, Debug, PartialEq, Eq, Structural)]
pub enum LoopAction {
    /// Reconfigure the surface with the (new) surface size.
    Reconfigure,
    /// Leave the event loop.
    Exit,
    /// Acquire the next surface texture, draw every widget and present it.
    Render,
    /// Advance and lay out the widgets for the current surface size, then ask
    /// the window for a redraw.
    UpdateAndRequestRedraw,
    /// Nothing to do.
    Ignore,
}

/// The run loop's answer to `event` when the surface has size `size`: the
/// new surface size and the action to perform.
pub open spec fn loop_step(size: SurfaceSize, event: LoopEvent) -> (SurfaceSize, LoopAction) {
    match event {
        LoopEvent::Resized(new_size) => (new_size, LoopAction::Reconfigure),
        LoopEvent::CloseRequested => (size, LoopAction::Exit),
        LoopEvent::RedrawRequested => (size, LoopAction::Render),
        LoopEvent::AboutToWait => (size, LoopAction::UpdateAndRequestRedraw),
        LoopEvent::Other => (size, LoopAction::Ignore),
    }
}

/// Decides the run loop's reaction to one event, updating the configured
/// surface size on a resize.
pub fn handle_event(size: &mut SurfaceSize, event: LoopEvent) -> (action: LoopAction)
    ensures
        (*final(size), action) == loop_step(*old(size), event),
        event matches LoopEvent::Resized(s) ==> (*final(size) == s && action == LoopAction::Reconfigure),
        !(event is Resized) ==> *final(size) == *old(size),
{
    match event {
        LoopEvent::Resized(new_size) => {
            *size = new_size;
            LoopAction::Reconfigure
        },
        LoopEvent::CloseRequested => LoopAction::Exit,
        LoopEvent::RedrawRequested => LoopAction::Render,
        LoopEvent::AboutToWait => LoopAction::UpdateAndRequestRedraw,
        LoopEvent::Other => LoopAction::Ignore,
    }
}

/// What to do after acquiring the next surface texture failed.
#[derive(Clone, Copy, Debug, PartialEq, Eq, Structural)]
pub enum AcquireRecovery {
    /// Reconfigure the surface and try once more.
    ReconfigureAndRetry,
    /// Give up on the frame: the failure is fatal.
    GiveUp,
}

/// Decides how to recover after `failed_attempts` failed attempts (at least
/// one) to acquire the frame's surface texture: the first failure is answered
/// by reconfiguring the surface and trying again, a second one is fatal.
pub fn after_acquire_failure(failed_attempts: u32) -> (recovery: AcquireRecovery)
    requires
        failed_attempts >= 1,
    ensures
        recovery == (if failed_attempts == 1 { AcquireRecovery::ReconfigureAndRetry } else { AcquireRecovery::GiveUp }),
{
    if failed_attempts == 1 {
        AcquireRecovery::ReconfigureAndRetry
    } else {
        AcquireRecovery::GiveUp
    }
}

/// A resize event always takes the size the window reported, whether or not
/// it differs from the current one, and asks for a reconfiguration; every
/// other event leaves the size as it is, and each kind of event has its own
/// fixed action.
pub proof fn lemma_resize_takes_reported_size(size: SurfaceSize, event: LoopEvent)
    ensures
        event matches LoopEvent::Resized(s) ==> loop_step(size, event) == (s, LoopAction::Reconfigure),
        !(event is Resized) ==> loop_step(size, event).0 == size,
        event == LoopEvent::CloseRequested ==> loop_step(size, event).1 == LoopAction::Exit,
        event == LoopEvent::RedrawRequested ==> loop_step(size, event).1 == LoopAction::Render,
        event == LoopEvent::AboutToWait ==> loop_step(size, event).1 == LoopAction::UpdateAndRequestRedraw,
        event == LoopEvent::Other ==> loop_step(size, event).1 == LoopAction::Ignore,
{
}

/// Only a resize changes the surface size, and it takes exactly the size the
/// window reported.
pub proof fn lemma_only_resize_changes_size(size: SurfaceSize, event: LoopEvent)
    ensures
        loop_step(size, event).0 != size ==> (event matches LoopEvent::Resized(s) && loop_step(size, event).0 == s),
{
}

/// The loop is left exactly when the window asked to be closed.
pub proof fn lemma_exit_only_on_close(size: SurfaceSize, event: LoopEvent)
    ensures
        (loop_step(size, event).1 == LoopAction::Exit) <==> (event == LoopEvent::CloseRequested),
{
}

/// Every redraw that the loop asks for is preceded, in the same step, by an
/// update of the widgets, and every surface change is followed by a
/// reconfiguration of the surface.
pub proof fn lemma_redraw_follows_update(size: SurfaceSize, event: LoopEvent)
    ensures
        loop_step(size, event).1 == LoopAction::UpdateAndRequestRedraw <==> event == LoopEvent::AboutToWait,
        loop_step(size, event).0 != size ==> loop_step(size, event).1 == LoopAction::Reconfigure,
{
}

} // verus!
