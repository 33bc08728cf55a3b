use piet_wgpu::lifecycle::{step, Effect, Lifecycle, Signal};

const RESIZE: Signal = Signal::Resize {
    width: 640,
    height: 480,
};

#[test]
fn resume_makes_the_surface() {
    assert_eq!(
        step(Lifecycle::Uninitialized, Signal::Resume),
        (Lifecycle::Surfaced, Effect::CreateSurface)
    );
    assert_eq!(
        step(Lifecycle::Suspended, Signal::Resume),
        (Lifecycle::Surfaced, Effect::CreateSurface)
    );
}

#[test]
fn resume_with_a_surface_does_nothing() {
    assert_eq!(
        step(Lifecycle::Surfaced, Signal::Resume),
        (Lifecycle::Surfaced, Effect::Idle)
    );
}

#[test]
fn suspend_drops_the_surface() {
    assert_eq!(
        step(Lifecycle::Surfaced, Signal::Suspend),
        (Lifecycle::Suspended, Effect::DropSurface)
    );
}

#[test]
fn suspend_without_a_surface_does_nothing() {
    assert_eq!(
        step(Lifecycle::Uninitialized, Signal::Suspend),
        (Lifecycle::Uninitialized, Effect::Idle)
    );
    assert_eq!(
        step(Lifecycle::Suspended, Signal::Suspend),
        (Lifecycle::Suspended, Effect::Idle)
    );
}

#[test]
fn resize_reaches_the_surface() {
    assert_eq!(
        step(Lifecycle::Surfaced, RESIZE),
        (
            Lifecycle::Surfaced,
            Effect::ResizeSurface {
                width: 640,
                height: 480
            }
        )
    );
    assert_eq!(
        step(
            Lifecycle::Surfaced,
            Signal::Resize {
                width: 0,
                height: 480
            }
        ),
        (
            Lifecycle::Surfaced,
            Effect::ResizeSurface {
                width: 0,
                height: 480
            }
        )
    );
}

#[test]
fn resize_without_a_surface_does_nothing() {
    assert_eq!(
        step(Lifecycle::Uninitialized, RESIZE),
        (Lifecycle::Uninitialized, Effect::Idle)
    );
    assert_eq!(
        step(Lifecycle::Suspended, RESIZE),
        (Lifecycle::Suspended, Effect::Idle)
    );
}

#[test]
fn frame_tick_draws_on_the_surface() {
    assert_eq!(
        step(Lifecycle::Surfaced, Signal::FrameTick),
        (Lifecycle::Surfaced, Effect::RenderFrame)
    );
}

#[test]
fn frame_tick_without_a_surface_does_nothing() {
    assert_eq!(
        step(Lifecycle::Uninitialized, Signal::FrameTick),
        (Lifecycle::Uninitialized, Effect::Idle)
    );
    assert_eq!(
        step(Lifecycle::Suspended, Signal::FrameTick),
        (Lifecycle::Suspended, Effect::Idle)
    );
}

#[test]
fn a_run_keeps_one_surface_while_surfaced() {
    let signals = [
        Signal::FrameTick,
        RESIZE,
        Signal::Resume,
        Signal::Resume,
        Signal::FrameTick,
        RESIZE,
        Signal::Suspend,
        Signal::Suspend,
        Signal::FrameTick,
        Signal::Resume,
        Signal::FrameTick,
        Signal::Suspend,
    ];
    let mut state = Lifecycle::Uninitialized;
    let mut surfaces = 0i32;
    let mut frames = 0;
    for signal in signals {
        let (next, effect) = step(state, signal);
        match effect {
            Effect::CreateSurface => surfaces += 1,
            Effect::DropSurface => surfaces -= 1,
            Effect::RenderFrame => frames += 1,
            _ => {}
        }
        state = next;
        assert_eq!(surfaces, if state == Lifecycle::Surfaced { 1 } else { 0 });
    }
    assert_eq!(state, Lifecycle::Suspended);
    assert_eq!(surfaces, 0);
    assert_eq!(frames, 2);
}
