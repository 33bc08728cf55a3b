//! The life of a window's surface, apart from the events of any platform:
//! which signal makes, resizes, draws or drops the surface.

use vstd::prelude::*;

verus! {

/// Where the owner of a window stands.
#[derive(Clone, Copy, Debug, PartialEq, Eq, Structural)]
pub enum Lifecycle {
    /// No surface was made yet.
    Uninitialized,
    /// The window has its surface.
    Surfaced,
    /// The surface was dropped; the window is kept for the resume.
    Suspended,
}

/// What the platform reports.
#[derive(Clone, Copy, Debug, PartialEq, Eq, Structural)]
pub enum Signal {
    /// The window has a new size, in pixels.
    Resize { width: u32, height: u32 },
    /// The application is sent to the background.
    Suspend,
    /// The application is started or brought back.
    Resume,
    /// A frame is due.
    FrameTick,
}

/// What the owner does on a signal.
#[derive(Clone, Copy, Debug, PartialEq, Eq, Structural)]
pub enum Effect {
    /// Nothing.
    Idle,
    /// Make the surface for the window.
    CreateSurface,
    /// Drop the surface and keep the window.
    DropSurface,
    /// Give the surface this size.
    ResizeSurface { width: u32, height: u32 },
    /// Run one present cycle.
    RenderFrame,
}

/// The state after `signal` and what is to be done on it. A resume makes
/// the surface unless there is one; a suspend drops the one that is there;
/// a new size and a frame reach the surface only while there is one.
pub open spec fn next(state: Lifecycle, signal: Signal) -> (Lifecycle, Effect) {
    match (state, signal) {
        (Lifecycle::Surfaced, Signal::Resume) => (Lifecycle::Surfaced, Effect::Idle),
        (_, Signal::Resume) => (Lifecycle::Surfaced, Effect::CreateSurface),
        (Lifecycle::Surfaced, Signal::Suspend) => (Lifecycle::Suspended, Effect::DropSurface),
        (Lifecycle::Surfaced, Signal::Resize { width, height }) => (
            Lifecycle::Surfaced,
            Effect::ResizeSurface { width, height },
        ),
        (Lifecycle::Surfaced, Signal::FrameTick) => (Lifecycle::Surfaced, Effect::RenderFrame),
        (other, _) => (other, Effect::Idle),
    }
}

/// Takes one signal.
pub fn step(state: Lifecycle, signal: Signal) -> (r: (Lifecycle, Effect))
    ensures
        r == next(state, signal),
{
    match signal {
        Signal::Resume => match state {
            Lifecycle::Surfaced => (Lifecycle::Surfaced, Effect::Idle),
            _ => (Lifecycle::Surfaced, Effect::CreateSurface),
        },
        Signal::Suspend => match state {
            Lifecycle::Surfaced => (Lifecycle::Suspended, Effect::DropSurface),
            other => (other, Effect::Idle),
        },
        Signal::Resize { width, height } => match state {
            Lifecycle::Surfaced => (Lifecycle::Surfaced, Effect::ResizeSurface { width, height }),
            other => (other, Effect::Idle),
        },
        Signal::FrameTick => match state {
            Lifecycle::Surfaced => (Lifecycle::Surfaced, Effect::RenderFrame),
            other => (other, Effect::Idle),
        },
    }
}

/// The state after a run of signals, taken in order.
pub open spec fn state_after(state: Lifecycle, signals: Seq<Signal>) -> Lifecycle
    decreases signals.len(),
{
    if signals.len() == 0 {
        state
    } else {
        next(state_after(state, signals.drop_last()), signals.last()).0
    }
}

/// The number of surfaces that exist after a run of signals from `state`,
/// where `before` existed: each `CreateSurface` adds one and each
/// `DropSurface` takes one away.
pub open spec fn surfaces_after(state: Lifecycle, before: int, signals: Seq<Signal>) -> int
    decreases signals.len(),
{
    if signals.len() == 0 {
        before
    } else {
        let earlier = signals.drop_last();
        surfaces_after(state, before, earlier) + match next(
            state_after(state, earlier),
            signals.last(),
        ).1 {
            Effect::CreateSurface => 1int,
            Effect::DropSurface => -1int,
            _ => 0int,
        }
    }
}

/// The number of surfaces that a state stands for: one while surfaced.
pub open spec fn surfaces_of(state: Lifecycle) -> int {
    if state == Lifecycle::Surfaced {
        1
    } else {
        0
    }
}

/// Only a window with a surface is resized or drawn, only such a window
/// loses its surface, and no window gets a second one.
pub proof fn law_effects_fit_the_state(state: Lifecycle, signal: Signal)
    ensures
        (next(state, signal).1 is ResizeSurface || next(state, signal).1 is RenderFrame || next(
            state,
            signal,
        ).1 is DropSurface) ==> state == Lifecycle::Surfaced,
        next(state, signal).1 is CreateSurface ==> state != Lifecycle::Surfaced,
        next(state, signal).0 == Lifecycle::Uninitialized ==> state == Lifecycle::Uninitialized,
{
}

/// Whatever the platform reports, and in whatever order: after the effects
/// of a run that began before any surface was made, the window has one
/// surface while surfaced and none otherwise.
pub proof fn law_one_surface_while_surfaced(signals: Seq<Signal>)
    ensures
        surfaces_after(Lifecycle::Uninitialized, 0, signals) == surfaces_of(
            state_after(Lifecycle::Uninitialized, signals),
        ),
    decreases signals.len(),
{
    if signals.len() > 0 {
        law_one_surface_while_surfaced(signals.drop_last());
    }
}

} // verus!
