use windowing::dimen::{IVec2, UVec2};
use windowing::options::{
    build_window_attributes, window_setup, InnerSize, SetupAction, WindowCreationMode,
    WindowCreationOptions, WindowLevel,
};
use windowing::placement::{ScaledToPhysical, WindowPosition, WindowSize};

fn options(mode: WindowCreationMode<(u32, u32)>) -> WindowCreationOptions<(u32, u32)> {
    WindowCreationOptions {
        mode,
        multisampling: 4,
        vsync: true,
        always_on_top: false,
        resizable: true,
        maximized: false,
        transparent: false,
        decorations: true,
    }
}

fn windowed(
    size: WindowSize<(u32, u32)>,
    position: Option<WindowPosition>,
) -> WindowCreationMode<(u32, u32)> {
    WindowCreationMode::Windowed { size, position }
}

fn setup(mode: &WindowCreationMode<(u32, u32)>) -> Vec<SetupAction> {
    let scaled = ScaledToPhysical {
        size: UVec2::new(0, 0),
        margin: 30,
    };
    window_setup(mode, UVec2::new(1000, 800), &scaled)
}

#[test]
fn attributes_follow_the_options() {
    let mode = windowed(WindowSize::PhysicalPixels(UVec2::new(800, 600)), None);
    let attributes = build_window_attributes("Title", &options(mode));
    assert_eq!(attributes.title, "Title");
    assert!(attributes.resizable);
    assert_eq!(attributes.window_level, WindowLevel::Normal);
    assert!(!attributes.maximized);
    assert!(!attributes.visible);
    assert!(!attributes.transparent);
    assert!(attributes.decorations);
    assert!(matches!(
        attributes.inner_size,
        Some(InnerSize::Physical(UVec2 { x: 800, y: 600 }))
    ));
}

#[test]
fn attributes_follow_the_opposite_options() {
    let mode = windowed(WindowSize::ScaledPixels((800, 600)), None);
    let options = WindowCreationOptions {
        always_on_top: true,
        resizable: false,
        maximized: true,
        transparent: true,
        decorations: false,
        ..options(mode)
    };
    let attributes = build_window_attributes("", &options);
    assert_eq!(attributes.title, "");
    assert!(!attributes.resizable);
    assert_eq!(attributes.window_level, WindowLevel::AlwaysOnTop);
    assert!(attributes.maximized);
    assert!(!attributes.visible);
    assert!(attributes.transparent);
    assert!(!attributes.decorations);
    assert!(matches!(
        attributes.inner_size,
        Some(InnerSize::Logical((800, 600)))
    ));
}

#[test]
fn sizes_that_need_the_monitor_come_later() {
    for mode in [
        windowed(WindowSize::MarginPhysicalPixels(10), None),
        windowed(WindowSize::MarginScaledPixels(10), None),
        WindowCreationMode::FullscreenBorderless,
    ] {
        let attributes = build_window_attributes("Title", &options(mode));
        assert!(attributes.inner_size.is_none());
    }
}

#[test]
fn plain_window_is_shown_as_created() {
    let steps = setup(&windowed(WindowSize::ScaledPixels((1, 1)), None));
    assert!(matches!(
        steps.as_slice(),
        [SetupAction::ResizeSurface, SetupAction::Show]
    ));
}

#[test]
fn placed_window_is_placed_before_and_after_it_is_shown() {
    let mode = windowed(
        WindowSize::PhysicalPixels(UVec2::new(10, 10)),
        Some(WindowPosition::Center),
    );
    assert!(matches!(
        setup(&mode).as_slice(),
        [
            SetupAction::ResizeSurface,
            SetupAction::Place(WindowPosition::Center),
            SetupAction::Show,
            SetupAction::Place(WindowPosition::Center)
        ]
    ));
}

#[test]
fn window_with_margin_is_sized_first() {
    let position = WindowPosition::PrimaryMonitorPixelsFromTopLeft(IVec2::new(1, 2));
    let mode = windowed(WindowSize::MarginScaledPixels(20), Some(position));
    assert!(matches!(
        setup(&mode).as_slice(),
        [
            SetupAction::RequestInnerSize(UVec2 { x: 940, y: 740 }),
            SetupAction::ResizeSurface,
            SetupAction::Place(_),
            SetupAction::Show,
            SetupAction::Place(_)
        ]
    ));
    let mode = windowed(WindowSize::MarginPhysicalPixels(20), None);
    assert!(matches!(
        setup(&mode).as_slice(),
        [
            SetupAction::RequestInnerSize(UVec2 { x: 960, y: 760 }),
            SetupAction::ResizeSurface,
            SetupAction::Show
        ]
    ));
}

#[test]
fn fullscreen_window_is_not_placed() {
    assert!(matches!(
        setup(&WindowCreationMode::FullscreenBorderless).as_slice(),
        [
            SetupAction::SetBorderlessFullscreen,
            SetupAction::ResizeSurface,
            SetupAction::Show
        ]
    ));
}
