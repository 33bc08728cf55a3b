//! The frame controller: one surface, and the policy of a present cycle.
//!
//! The controller decides; its owner performs. The owner acquires the next
//! texture from the platform surface and reports what came back; the
//! controller answers what to do with the frame.

use crate::surface::{PresentMode, Surface, SurfaceAction, SurfaceConfig};
use vstd::prelude::*;

verus! {

/// Why the platform surface gave no texture.
#[derive(Clone, Copy, Debug, PartialEq, Eq, Structural)]
pub enum AcquireError {
    /// No texture came in time.
    Timeout,
    /// The surface has changed underneath and must be configured again.
    Outdated,
    /// The swap chain is lost and must be made again.
    Lost,
    /// No memory is left for another frame.
    OutOfMemory,
}

/// A failure that costs at most a frame.
#[derive(Clone, Copy, Debug, PartialEq, Eq, Structural)]
pub enum RecoverableFrameError {
    /// The swap chain was lost.
    Lost,
    /// The surface was outdated.
    Outdated,
    /// The acquisition timed out.
    Timeout,
}

/// A failure that ends the render loop.
#[derive(Clone, Copy, Debug, PartialEq, Eq, Structural)]
pub enum FatalFrameError {
    /// No memory is left for another frame.
    OutOfMemory,
}

/// Why a frame was not presented.
#[derive(Clone, Copy, Debug, PartialEq, Eq, Structural)]
pub enum FrameError {
    /// The next frame may succeed.
    Recoverable(RecoverableFrameError),
    /// No further frame is to be tried.
    Fatal(FatalFrameError),
}

/// What the owner does with the frame at hand.
#[derive(Clone, Copy, Debug, PartialEq, Eq, Structural)]
pub enum FrameOutcome {
    /// The texture is there: record the commands, submit them to the
    /// device's queue, and present.
    Present,
    /// The frame is skipped and the next one is tried as usual, after
    /// `action` was carried out on the surface.
    Retry { error: RecoverableFrameError, action: SurfaceAction },
    /// The render loop ends.
    Stop(FatalFrameError),
}

/// The kind of failure that an acquisition error is: only the lack of memory
/// is fatal.
pub open spec fn classified(e: AcquireError) -> FrameError {
    match e {
        AcquireError::Timeout => FrameError::Recoverable(RecoverableFrameError::Timeout),
        AcquireError::Outdated => FrameError::Recoverable(RecoverableFrameError::Outdated),
        AcquireError::Lost => FrameError::Recoverable(RecoverableFrameError::Lost),
        AcquireError::OutOfMemory => FrameError::Fatal(FatalFrameError::OutOfMemory),
    }
}

/// Sorts an acquisition error into the recoverable and the fatal.
pub fn classify(e: AcquireError) -> (r: FrameError)
    ensures
        r == classified(e),
{
    match e {
        AcquireError::Timeout => FrameError::Recoverable(RecoverableFrameError::Timeout),
        AcquireError::Outdated => FrameError::Recoverable(RecoverableFrameError::Outdated),
        AcquireError::Lost => FrameError::Recoverable(RecoverableFrameError::Lost),
        AcquireError::OutOfMemory => FrameError::Fatal(FatalFrameError::OutOfMemory),
    }
}

/// What a running controller answers to an acquisition, for a surface that
/// the device `dev_id` owns. A lost swap chain has the surface configured
/// again, to its present parameters; the other recoverable failures only
/// skip the frame.
pub open spec fn outcome_of(acquired: Result<(), AcquireError>, dev_id: usize) -> FrameOutcome {
    match acquired {
        Ok(_) => FrameOutcome::Present,
        Err(e) => match classified(e) {
            FrameError::Fatal(fatal) => FrameOutcome::Stop(fatal),
            FrameError::Recoverable(error) => FrameOutcome::Retry {
                error,
                action: if error == RecoverableFrameError::Lost {
                    SurfaceAction::Reconfigure { wait_for: dev_id }
                } else {
                    SurfaceAction::Keep
                },
            },
        },
    }
}

/// The controller of one surface's frames. It runs until a fatal failure
/// stops it, and a stopped controller stays stopped.
pub struct WgpuRenderer<B> {
    surface: Surface<B>,
    stopped: Option<FatalFrameError>,
}

impl<B> WgpuRenderer<B> {
    /// The surface that the frames go to.
    pub closed spec fn spec_surface(&self) -> Surface<B> {
        self.surface
    }

    /// The failure that stopped the controller, if one did.
    pub closed spec fn spec_stopped(&self) -> Option<FatalFrameError> {
        self.stopped
    }

    /// No fatal failure has occurred.
    pub open spec fn is_running(&self) -> bool {
        self.spec_stopped() is None
    }

    /// A running controller for `surface`.
    pub fn new(surface: Surface<B>) -> (r: Self)
        ensures
            r.spec_surface() == surface,
            r.is_running(),
    {
        WgpuRenderer { surface, stopped: None }
    }

    /// The surface that the frames go to.
    pub fn surface(&self) -> (s: &Surface<B>)
        ensures
            *s == self.spec_surface(),
    {
        &self.surface
    }

    /// The presentation parameters asked for last.
    pub fn config(&self) -> (c: &SurfaceConfig)
        ensures
            *c == self.spec_surface().spec_config(),
            c.width > 0,
            c.height > 0,
    {
        self.surface.config()
    }

    /// Whether the render loop goes on.
    pub fn running(&self) -> (b: bool)
        ensures
            b == self.is_running(),
    {
        self.stopped.is_none()
    }

    /// Takes new dimensions for the surface. A zero width or height is
    /// ignored: nothing changes and nothing is to be applied.
    pub fn resize(&mut self, width: u32, height: u32) -> (action: SurfaceAction)
        ensures
            final(self).spec_stopped() == old(self).spec_stopped(),
            final(self).spec_surface().spec_dev_id() == old(self).spec_surface().spec_dev_id(),
            final(self).spec_surface().spec_binding() == old(self).spec_surface().spec_binding(),
            width == 0 || height == 0 ==> {
                &&& action == SurfaceAction::Keep
                &&& *final(self) == *old(self)
            },
            width > 0 && height > 0 ==> {
                &&& action == (SurfaceAction::Reconfigure {
                    wait_for: old(self).spec_surface().spec_dev_id(),
                })
                &&& final(self).spec_surface().spec_config() == (SurfaceConfig {
                    width,
                    height,
                    ..old(self).spec_surface().spec_config()
                })
            },
    {
        self.surface.resize(width, height)
    }

    /// Takes a new present mode for the surface.
    pub fn set_present_mode(&mut self, mode: PresentMode) -> (action: SurfaceAction)
        ensures
            action == (SurfaceAction::Reconfigure {
                wait_for: old(self).spec_surface().spec_dev_id(),
            }),
            final(self).spec_stopped() == old(self).spec_stopped(),
            final(self).spec_surface().spec_dev_id() == old(self).spec_surface().spec_dev_id(),
            final(self).spec_surface().spec_binding() == old(self).spec_surface().spec_binding(),
            final(self).spec_surface().spec_config() == (SurfaceConfig {
                present_mode: mode,
                ..old(self).spec_surface().spec_config()
            }),
    {
        self.surface.set_present_mode(mode)
    }

    /// Decides one present cycle from what the acquisition of the next
    /// texture gave. The surface keeps its parameters whatever happened. A
    /// fatal failure stops the controller; a stopped controller answers
    /// every later frame with the failure that stopped it.
    pub fn render(&mut self, acquired: Result<(), AcquireError>) -> (r: FrameOutcome)
        ensures
            final(self).spec_surface() == old(self).spec_surface(),
            match old(self).spec_stopped() {
                Some(fatal) => {
                    &&& r == FrameOutcome::Stop(fatal)
                    &&& final(self).spec_stopped() == Some(fatal)
                },
                None => {
                    &&& r == outcome_of(acquired, old(self).spec_surface().spec_dev_id())
                    &&& final(self).spec_stopped() == match r {
                        FrameOutcome::Stop(fatal) => Some(fatal),
                        _ => None,
                    }
                },
            },
    {
        if let Some(fatal) = self.stopped {
            return FrameOutcome::Stop(fatal);
        }
        match acquired {
            Ok(_) => FrameOutcome::Present,
            Err(e) => match classify(e) {
                FrameError::Fatal(fatal) => {
                    self.stopped = Some(fatal);
                    FrameOutcome::Stop(fatal)
                },
                FrameError::Recoverable(error) => {
                    let action = match error {
                        RecoverableFrameError::Lost => self.surface.configure(),
                        _ => SurfaceAction::Keep,
                    };
                    FrameOutcome::Retry { error, action }
                },
            },
        }
    }

    /// Whether an input event changed what is to be drawn: none does.
    pub fn input(&mut self) -> (redraw: bool)
        ensures
            !redraw,
            *final(self) == *old(self),
    {
        false
    }

    /// Brings the scene up to date before a frame: there is nothing to do.
    pub fn update(&mut self)
        ensures
            *final(self) == *old(self),
    {
    }
}

/// Whatever the acquisition gave: the frame is presented exactly when a
/// texture came, the loop ends exactly when memory ran out, and the
/// surface is configured again exactly when the swap chain was lost.
pub proof fn law_frame_policy(acquired: Result<(), AcquireError>, dev_id: usize)
    ensures
        outcome_of(acquired, dev_id) is Present <==> acquired is Ok,
        outcome_of(acquired, dev_id) is Stop <==> acquired == Err::<(), AcquireError>(
            AcquireError::OutOfMemory,
        ),
        (outcome_of(acquired, dev_id) is Retry && outcome_of(acquired, dev_id)->action
            == (SurfaceAction::Reconfigure { wait_for: dev_id })) <==> acquired == Err::<
            (),
            AcquireError,
        >(AcquireError::Lost),
        (outcome_of(acquired, dev_id) is Retry && outcome_of(acquired, dev_id)->action
            == SurfaceAction::Keep) <==> (acquired == Err::<(), AcquireError>(
            AcquireError::Outdated,
        ) || acquired == Err::<(), AcquireError>(AcquireError::Timeout)),
{
}

} // verus!
