use windowing::dimen::{to_signed, IVec2, UVec2};
use windowing::placement::{
    can_position_window, choose_monitor, compute_window_size, position_window, Monitor,
    ScaledToPhysical, WindowPosition, WindowSize,
};

const SCALED: ScaledToPhysical = ScaledToPhysical {
    size: UVec2 { x: 1500, y: 900 },
    margin: 75,
};

fn monitor() -> Monitor {
    Monitor {
        position: IVec2::new(100, -50),
        size: UVec2::new(1920, 1080),
    }
}

fn size_on(width: u32, height: u32, size: WindowSize<(u32, u32)>) -> UVec2 {
    compute_window_size(UVec2::new(width, height), &size, &SCALED)
}

#[test]
fn centered_on_the_monitor() {
    let size = UVec2::new(640, 480);
    let position = position_window(&monitor(), size, &WindowPosition::Center, None);
    assert_eq!(position, IVec2::new(100 + 640, -50 + 300));
}

#[test]
fn odd_gaps_are_halved_towards_zero() {
    let monitor = Monitor {
        position: IVec2::new(0, 0),
        size: UVec2::new(101, 100),
    };
    let size = UVec2::new(50, 103);
    let position = position_window(&monitor, size, &WindowPosition::Center, None);
    assert_eq!(position, IVec2::new(25, -1));
}

#[test]
fn larger_window_hangs_out_on_both_sides() {
    let monitor = Monitor {
        position: IVec2::new(10, 10),
        size: UVec2::new(100, 100),
    };
    let size = UVec2::new(300, 160);
    let position = position_window(&monitor, size, &WindowPosition::Center, None);
    assert_eq!(position, IVec2::new(-90, -20));
}

#[test]
fn centered_on_the_parent() {
    let parent = Some((IVec2::new(200, 300), UVec2::new(400, 200)));
    let size = UVec2::new(100, 50);
    let position = position_window(&monitor(), size, &WindowPosition::CenterOnParent, parent);
    assert_eq!(position, IVec2::new(350, 375));
}

#[test]
fn center_ignores_the_parent() {
    let parent = Some((IVec2::new(200, 300), UVec2::new(400, 200)));
    let size = UVec2::new(640, 480);
    let position = position_window(&monitor(), size, &WindowPosition::Center, parent);
    assert_eq!(position, IVec2::new(740, 250));
}

#[test]
fn without_parent_centered_on_the_monitor() {
    let size = UVec2::new(640, 480);
    let position = position_window(&monitor(), size, &WindowPosition::CenterOnParent, None);
    assert_eq!(position, IVec2::new(740, 250));
}

#[test]
fn offset_from_the_top_left_of_the_monitor() {
    let position = WindowPosition::PrimaryMonitorPixelsFromTopLeft(IVec2::new(7, -9));
    let size = UVec2::new(640, 480);
    assert_eq!(
        position_window(&monitor(), size, &position, None),
        IVec2::new(107, -59)
    );
}

#[test]
fn positions_out_of_range_are_recognised() {
    let far = Monitor {
        position: IVec2::new(i32::MAX, 0),
        size: UVec2::new(1920, 1080),
    };
    let size = UVec2::new(640, 480);
    let offset = WindowPosition::PrimaryMonitorPixelsFromTopLeft(IVec2::new(1, 0));
    let back = WindowPosition::PrimaryMonitorPixelsFromTopLeft(IVec2::new(-1, 0));
    assert!(!can_position_window(&far, size, &WindowPosition::Center, None));
    assert!(!can_position_window(&far, size, &offset, None));
    assert!(can_position_window(&far, size, &back, None));
    assert!(can_position_window(&monitor(), size, &WindowPosition::Center, None));
    let huge = UVec2::new(u32::MAX - i32::MAX as u32, 1);
    assert!(!can_position_window(&monitor(), huge, &WindowPosition::Center, None));
}

#[test]
fn sizes_are_read_as_signed_numbers() {
    assert_eq!(to_signed(0), 0);
    assert_eq!(to_signed(0x7fff_ffff), i32::MAX);
    assert_eq!(to_signed(0x8000_0000), i32::MIN);
    assert_eq!(to_signed(u32::MAX), -1);
}

#[test]
fn middle_of_a_size() {
    assert_eq!(UVec2::new(641, 480).center(), IVec2::new(320, 240));
    assert_eq!(UVec2::new(u32::MAX, 0).center(), IVec2::new(i32::MAX, 0));
}

#[test]
fn plain_sizes() {
    let physical = WindowSize::PhysicalPixels(UVec2::new(800, 600));
    assert_eq!(size_on(1920, 1080, physical), UVec2::new(800, 600));
    let scaled = WindowSize::ScaledPixels((1000, 600));
    assert_eq!(size_on(1920, 1080, scaled), UVec2::new(1500, 900));
}

#[test]
fn margins_are_taken_off_both_sides() {
    let physical = WindowSize::MarginPhysicalPixels(100);
    assert_eq!(size_on(1920, 1080, physical), UVec2::new(1720, 880));
    let scaled = WindowSize::MarginScaledPixels(50);
    assert_eq!(size_on(1920, 1080, scaled), UVec2::new(1770, 930));
}

#[test]
fn margins_are_capped_at_a_quarter_of_the_shorter_side() {
    let size = WindowSize::MarginPhysicalPixels(400);
    assert_eq!(size_on(1920, 1080, size), UVec2::new(1380, 540));
    let size = WindowSize::MarginPhysicalPixels(u32::MAX);
    assert_eq!(size_on(1080, 1920, size), UVec2::new(540, 1380));
    let size = WindowSize::MarginPhysicalPixels(u32::MAX);
    assert_eq!(size_on(3, 5, size), UVec2::new(3, 5));
    let size = WindowSize::MarginScaledPixels(50);
    assert_eq!(size_on(200, 200, size), UVec2::new(100, 100));
}

#[test]
fn margins_leave_half_of_each_side() {
    for margin in [0, 1, 10, 1000, u32::MAX] {
        let size = size_on(1001, 77, WindowSize::MarginPhysicalPixels(margin));
        assert!(2 * size.x >= 1001 && 2 * size.y >= 77);
        let smaller = size_on(1001, 77, WindowSize::MarginPhysicalPixels(margin.saturating_add(1)));
        assert!(smaller.x <= size.x && smaller.y <= size.y);
    }
}

#[test]
fn the_primary_monitor_is_preferred() {
    assert_eq!(choose_monitor(Some('p'), vec!['a', 'b']), Some('p'));
    assert_eq!(choose_monitor(None, vec!['a', 'b']), Some('a'));
    assert_eq!(choose_monitor::<char>(None, vec![]), None);
}
