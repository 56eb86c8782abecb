//! How a window is asked to be, and the steps that bring it about.

use crate::dimen::UVec2;
use crate::placement::{compute_window_size, window_size, ScaledToPhysical, WindowPosition, WindowSize};
use vstd::prelude::*;

verus! {

/// Whether a window starts out as a window or covers the screen.
#[derive(Clone, Copy, Debug)]
pub enum WindowCreationMode<V> {
    Windowed { size: WindowSize<V>, position: Option<WindowPosition> },
    FullscreenBorderless,
}

/// The fullscreen state that a running window can be put in.
#[derive(Clone, Copy, Debug, PartialEq, Eq, Structural)]
pub enum WindowFullscreenMode {
    Windowed,
    FullscreenBorderless,
}

/// The options that a window is created with.
#[derive(Clone, Copy, Debug)]
pub struct WindowCreationOptions<V> {
    pub mode: WindowCreationMode<V>,
    pub multisampling: u16,
    pub vsync: bool,
    pub always_on_top: bool,
    pub resizable: bool,
    pub maximized: bool,
    pub transparent: bool,
    pub decorations: bool,
}

/// How a window is stacked among others.
#[derive(Clone, Copy, Debug, PartialEq, Eq, Structural)]
pub enum WindowLevel {
    Normal,
    AlwaysOnTop,
}

/// A size that the window system can apply when it creates a window.
#[derive(Clone, Copy, Debug)]
pub enum InnerSize<V> {
    Physical(UVec2),
    Logical(V),
}

/// What the window system is told when it creates a window.
#[derive(Debug)]
pub struct WindowAttributes<V> {
    pub title: String,
    pub resizable: bool,
    pub window_level: WindowLevel,
    pub maximized: bool,
    pub visible: bool,
    pub transparent: bool,
    pub decorations: bool,
    /// `None` leaves the size to the window system.
    pub inner_size: Option<InnerSize<V>>,
}

/// The size to create the window with. Margins and fullscreen need to know the
/// monitor, which is known only once there is a window.
pub open spec fn initial_inner_size<V>(mode: WindowCreationMode<V>) -> Option<InnerSize<V>> {
    match mode {
        WindowCreationMode::Windowed { size: WindowSize::PhysicalPixels(size), .. } => Some(
            InnerSize::Physical(size),
        ),
        WindowCreationMode::Windowed { size: WindowSize::ScaledPixels(size), .. } => Some(
            InnerSize::Logical(size),
        ),
        _ => None,
    }
}

/// The attributes that a window with this title and these options is created
/// with. It stays hidden until it is in its place.
pub fn build_window_attributes<V: Copy>(title: &str, options: &WindowCreationOptions<V>) -> (result:
    WindowAttributes<V>)
    ensures
        result.title@ == title@,
        result.resizable == options.resizable,
        result.window_level == (if options.always_on_top {
            WindowLevel::AlwaysOnTop
        } else {
            WindowLevel::Normal
        }),
        result.maximized == options.maximized,
        !result.visible,
        result.transparent == options.transparent,
        result.decorations == options.decorations,
        result.inner_size == initial_inner_size(options.mode),
{
    let inner_size = match &options.mode {
        WindowCreationMode::Windowed { size, .. } => match size {
            WindowSize::PhysicalPixels(size) => Some(InnerSize::Physical(*size)),
            WindowSize::ScaledPixels(size) => Some(InnerSize::Logical(*size)),
            WindowSize::MarginPhysicalPixels(_) | WindowSize::MarginScaledPixels(_) => None,
        },
        WindowCreationMode::FullscreenBorderless => None,
    };
    WindowAttributes {
        title: title.to_owned(),
        resizable: options.resizable,
        window_level: if options.always_on_top {
            WindowLevel::AlwaysOnTop
        } else {
            WindowLevel::Normal
        },
        maximized: options.maximized,
        visible: false,
        transparent: options.transparent,
        decorations: options.decorations,
        inner_size,
    }
}

/// One step in bringing a new window, still hidden, into its place.
#[derive(Clone, Copy, Debug)]
pub enum SetupAction {
    RequestInnerSize(UVec2),
    /// Cover the monitor that was chosen for the window.
    SetBorderlessFullscreen,
    /// Bring the size of the GL surface in line with that of the window.
    ResizeSurface,
    /// Move the window to the place that its outer size of the moment gives.
    Place(WindowPosition),
    Show,
}

/// The step that gives a window the size which could not be applied when it was
/// created, if there is one.
pub open spec fn sizing_steps<V>(
    mode: WindowCreationMode<V>,
    monitor_size: UVec2,
    scaled: ScaledToPhysical,
) -> Seq<SetupAction> {
    match mode {
        WindowCreationMode::Windowed { size, .. } => if initial_inner_size(mode) is Some {
            seq![]
        } else {
            let (x, y) = window_size(monitor_size, size, scaled);
            seq![SetupAction::RequestInnerSize(UVec2 { x: x as u32, y: y as u32 })]
        },
        WindowCreationMode::FullscreenBorderless => seq![SetupAction::SetBorderlessFullscreen],
    }
}

/// The step that moves a window to its place, if it was given one.
pub open spec fn placing_steps<V>(mode: WindowCreationMode<V>) -> Seq<SetupAction> {
    match mode {
        WindowCreationMode::Windowed { position: Some(position), .. } => seq![
            SetupAction::Place(position),
        ],
        _ => seq![],
    }
}

/// The steps between the creation of a window and its first frame: it is sized
/// and placed out of sight, shown, and placed once more.
pub open spec fn setup_steps<V>(
    mode: WindowCreationMode<V>,
    monitor_size: UVec2,
    scaled: ScaledToPhysical,
) -> Seq<SetupAction> {
    sizing_steps(mode, monitor_size, scaled) + seq![SetupAction::ResizeSurface] + placing_steps(
        mode,
    ) + seq![SetupAction::Show] + placing_steps(mode)
}

fn push_placing_step<V>(steps: &mut Vec<SetupAction>, mode: &WindowCreationMode<V>)
    ensures
        final(steps)@ == old(steps)@ + placing_steps(*mode),
{
    if let WindowCreationMode::Windowed { position: Some(position), .. } = mode {
        steps.push(SetupAction::Place(*position));
    }
}

/// The steps to take with a window that has been created with the attributes of
/// [`build_window_attributes`]. Some window systems lose a position that was set
/// while the window was hidden, so it is set again afterwards.
pub fn window_setup<V>(
    mode: &WindowCreationMode<V>,
    monitor_size: UVec2,
    scaled: &ScaledToPhysical,
) -> (steps: Vec<SetupAction>)
    ensures
        steps@ == setup_steps(*mode, monitor_size, *scaled),
{
    let mut steps: Vec<SetupAction> = Vec::new();
    match mode {
        WindowCreationMode::Windowed { size, .. } => match size {
            WindowSize::MarginPhysicalPixels(_) | WindowSize::MarginScaledPixels(_) => {
                steps.push(
                    SetupAction::RequestInnerSize(compute_window_size(monitor_size, size, scaled)),
                );
            },
            WindowSize::PhysicalPixels(_) | WindowSize::ScaledPixels(_) => {},
        },
        WindowCreationMode::FullscreenBorderless => {
            steps.push(SetupAction::SetBorderlessFullscreen);
        },
    }
    assert(steps@ == sizing_steps(*mode, monitor_size, *scaled));
    steps.push(SetupAction::ResizeSurface);
    push_placing_step(&mut steps, mode);
    steps.push(SetupAction::Show);
    push_placing_step(&mut steps, mode);
    steps
}

/// A window becomes visible exactly once, after its surface has its size, and
/// whatever its options are.
pub proof fn law_shown_once_after_sizing<V>(
    mode: WindowCreationMode<V>,
    monitor_size: UVec2,
    scaled: ScaledToPhysical,
)
    ensures
        ({
            let steps = setup_steps(mode, monitor_size, scaled);
            exists|shown: int|
                {
                    &&& 0 <= shown < steps.len()
                    &&& #[trigger] steps[shown] is Show
                    &&& steps.take(shown).contains(SetupAction::ResizeSurface)
                    &&& forall|i: int|
                        0 <= i < steps.len() && i != shown ==> !(#[trigger] steps[i] is Show)
                    &&& forall|i: int|
                        shown <= i < steps.len() ==> !(#[trigger] steps[i] is RequestInnerSize)
                }
        }),
{
    let steps = setup_steps(mode, monitor_size, scaled);
    let sizing = sizing_steps(mode, monitor_size, scaled);
    let placing = placing_steps(mode);
    let shown = (sizing.len() + 1 + placing.len()) as int;
    assert(steps.len() == shown + 1 + placing.len());
    assert(steps[shown] is Show);
    assert(steps.take(shown)[sizing.len() as int] == SetupAction::ResizeSurface);
    assert forall|i: int| 0 <= i < steps.len() && i != shown implies !(#[trigger] steps[i] is Show)
        && (shown <= i ==> !(steps[i] is RequestInnerSize)) by {
        if i < sizing.len() {
            assert(steps[i] == sizing[i]);
        } else if i == sizing.len() {
            assert(steps[i] == SetupAction::ResizeSurface);
        } else if i < shown {
            assert(steps[i] == placing[i - sizing.len() - 1]);
        } else {
            assert(steps[i] == placing[i - shown - 1]);
        }
    }
}

/// The size that is asked for takes effect in one way only: when the window is
/// created, or by one request afterwards.
pub proof fn law_sized_in_one_way<V>(
    mode: WindowCreationMode<V>,
    monitor_size: UVec2,
    scaled: ScaledToPhysical,
)
    ensures
        (initial_inner_size(mode) is Some) <==> sizing_steps(mode, monitor_size, scaled).len() == 0,
        sizing_steps(mode, monitor_size, scaled).len() <= 1,
{
}

/// A window is created with the very size that it was asked to have, whether or not
/// it was given a position too. Where the size depends on the monitor, it is
/// created with none.
pub proof fn law_created_with_the_size_asked_for<V>(
    size: UVec2,
    scaled_size: V,
    margin: u32,
    position: Option<WindowPosition>,
)
    ensures
        initial_inner_size(
            WindowCreationMode::<V>::Windowed { size: WindowSize::PhysicalPixels(size), position },
        ) == Some(InnerSize::<V>::Physical(UVec2 { x: size.x, y: size.y })),
        initial_inner_size(
            WindowCreationMode::<V>::Windowed {
                size: WindowSize::ScaledPixels(scaled_size),
                position,
            },
        ) == Some(InnerSize::<V>::Logical(scaled_size)),
        initial_inner_size(
            WindowCreationMode::<V>::Windowed {
                size: WindowSize::MarginPhysicalPixels(margin),
                position,
            },
        ) == None::<InnerSize<V>>,
        initial_inner_size(
            WindowCreationMode::<V>::Windowed {
                size: WindowSize::MarginScaledPixels(margin),
                position,
            },
        ) == None::<InnerSize<V>>,
        initial_inner_size(WindowCreationMode::<V>::FullscreenBorderless) == None::<InnerSize<V>>,
{
}

/// A window that was created with its size is shown at once, or is placed where it
/// was asked to be both before and after it is shown.
pub proof fn law_setup_of_a_sized_window<V>(
    size: UVec2,
    scaled_size: V,
    position: WindowPosition,
    monitor_size: UVec2,
    scaled: ScaledToPhysical,
)
    ensures
        ({
            let plain = seq![SetupAction::ResizeSurface, SetupAction::Show];
            let placed = seq![
                SetupAction::ResizeSurface,
                SetupAction::Place(position),
                SetupAction::Show,
                SetupAction::Place(position),
            ];
            let physical = WindowSize::<V>::PhysicalPixels(size);
            let logical = WindowSize::<V>::ScaledPixels(scaled_size);
            let none = None::<WindowPosition>;
            let some = Some(position);
            &&& setup_steps(
                WindowCreationMode::Windowed { size: physical, position: none },
                monitor_size,
                scaled,
            ) == plain
            &&& setup_steps(
                WindowCreationMode::Windowed { size: logical, position: none },
                monitor_size,
                scaled,
            ) == plain
            &&& setup_steps(
                WindowCreationMode::Windowed { size: physical, position: some },
                monitor_size,
                scaled,
            ) == placed
            &&& setup_steps(
                WindowCreationMode::Windowed { size: logical, position: some },
                monitor_size,
                scaled,
            ) == placed
        }),
{
}

/// A window that leaves a margin of its monitor is given the size for that first,
/// and is then shown or placed like any other. A window that covers the screen is
/// made to do so first, and is not placed.
pub proof fn law_setup_by_the_monitor<V>(
    margin: u32,
    position: WindowPosition,
    monitor_size: UVec2,
    scaled: ScaledToPhysical,
)
    ensures
        ({
            let physical = WindowSize::<V>::MarginPhysicalPixels(margin);
            let logical = WindowSize::<V>::MarginScaledPixels(margin);
            let (x, y) = window_size(monitor_size, physical, scaled);
            let (scaled_x, scaled_y) = window_size(monitor_size, logical, scaled);
            let sized = SetupAction::RequestInnerSize(UVec2 { x: x as u32, y: y as u32 });
            let scaled_sized = SetupAction::RequestInnerSize(
                UVec2 { x: scaled_x as u32, y: scaled_y as u32 },
            );
            let none = None::<WindowPosition>;
            let some = Some(position);
            &&& setup_steps(
                WindowCreationMode::Windowed { size: physical, position: none },
                monitor_size,
                scaled,
            ) == seq![sized, SetupAction::ResizeSurface, SetupAction::Show]
            &&& setup_steps(
                WindowCreationMode::Windowed { size: physical, position: some },
                monitor_size,
                scaled,
            ) == seq![
                sized,
                SetupAction::ResizeSurface,
                SetupAction::Place(position),
                SetupAction::Show,
                SetupAction::Place(position),
            ]
            &&& setup_steps(
                WindowCreationMode::Windowed { size: logical, position: none },
                monitor_size,
                scaled,
            ) == seq![scaled_sized, SetupAction::ResizeSurface, SetupAction::Show]
            &&& setup_steps(
                WindowCreationMode::Windowed { size: logical, position: some },
                monitor_size,
                scaled,
            ) == seq![
                scaled_sized,
                SetupAction::ResizeSurface,
                SetupAction::Place(position),
                SetupAction::Show,
                SetupAction::Place(position),
            ]
            &&& setup_steps(
                WindowCreationMode::<V>::FullscreenBorderless,
                monitor_size,
                scaled,
            ) == seq![
                SetupAction::SetBorderlessFullscreen,
                SetupAction::ResizeSurface,
                SetupAction::Show,
            ]
        }),
{
}

} // verus!
