//! Where a window goes on its monitor, and how large it is made there.

use crate::dimen::{as_signed, half, to_signed, IVec2, UVec2};
use vstd::prelude::*;

verus! {

/// The size that a window is asked to have. `V` is the vector type in which
/// sizes in scaled pixels are given; it is carried through unread.
#[derive(Clone, Copy, Debug)]
pub enum WindowSize<V> {
    PhysicalPixels(UVec2),
    ScaledPixels(V),
    /// The monitor's size, less this margin on each side.
    MarginPhysicalPixels(u32),
    /// As above, with the margin in scaled pixels.
    MarginScaledPixels(u32),
}

/// Where a window is asked to be.
#[derive(Clone, Copy, Debug)]
pub enum WindowPosition {
    Center,
    /// Over the window that created this one; like `Center` if there is none.
    CenterOnParent,
    PrimaryMonitorPixelsFromTopLeft(IVec2),
}

/// A monitor's place on the desktop and its size, in physical pixels.
#[derive(Clone, Copy, Debug)]
pub struct Monitor {
    pub position: IVec2,
    pub size: UVec2,
}

/// What the scaled quantities of a [`WindowSize`] come to in physical pixels at
/// the scale factor of the monitor.
#[derive(Clone, Copy, Debug)]
pub struct ScaledToPhysical {
    /// The size given in scaled pixels.
    pub size: UVec2,
    /// The margin given in scaled pixels, rounded to the nearest pixel.
    pub margin: u32,
}

/// The coordinate at which an extent of `inner` is centred in an extent of
/// `outer` that begins at `origin`.
pub open spec fn centered(origin: int, outer: u32, inner: u32) -> int {
    origin + half(as_signed(outer) - as_signed(inner))
}

/// The computation of [`centered`] stays within 32 bits at each step.
pub open spec fn centering_fits(origin: int, outer: u32, inner: u32) -> bool {
    &&& i32::MIN <= as_signed(outer) - as_signed(inner) <= i32::MAX
    &&& i32::MIN <= centered(origin, outer, inner) <= i32::MAX
}

/// The rectangle in which a window is centred: its parent where it is to be
/// centred on one and has one, and its monitor otherwise.
pub open spec fn centering_area(
    monitor: Monitor,
    position: WindowPosition,
    parent_rect: Option<(IVec2, UVec2)>,
) -> (IVec2, UVec2) {
    match (position, parent_rect) {
        (WindowPosition::CenterOnParent, Some(rect)) => rect,
        _ => (monitor.position, monitor.size),
    }
}

/// No step in working out the position leaves the range of `i32`.
pub open spec fn position_fits(
    monitor: Monitor,
    outer_size: UVec2,
    position: WindowPosition,
    parent_rect: Option<(IVec2, UVec2)>,
) -> bool {
    match position {
        WindowPosition::PrimaryMonitorPixelsFromTopLeft(offset) => {
            &&& i32::MIN <= monitor.position.x + offset.x <= i32::MAX
            &&& i32::MIN <= monitor.position.y + offset.y <= i32::MAX
        },
        _ => {
            let (origin, area) = centering_area(monitor, position, parent_rect);
            &&& centering_fits(origin.x as int, area.x, outer_size.x)
            &&& centering_fits(origin.y as int, area.y, outer_size.y)
        },
    }
}

/// The position of the window's outer top left corner.
pub open spec fn target_position(
    monitor: Monitor,
    outer_size: UVec2,
    position: WindowPosition,
    parent_rect: Option<(IVec2, UVec2)>,
) -> (int, int) {
    match position {
        WindowPosition::PrimaryMonitorPixelsFromTopLeft(offset) => (
            monitor.position.x + offset.x,
            monitor.position.y + offset.y,
        ),
        _ => {
            let (origin, area) = centering_area(monitor, position, parent_rect);
            (
                centered(origin.x as int, area.x, outer_size.x),
                centered(origin.y as int, area.y, outer_size.y),
            )
        },
    }
}

fn half_of(value: i32) -> (result: i32)
    ensures
        result == half(value as int),
{
    value / 2
}

fn center_within(origin: i32, outer: u32, inner: u32) -> (result: i32)
    requires
        centering_fits(origin as int, outer, inner),
    ensures
        result == centered(origin as int, outer, inner),
{
    origin + half_of(to_signed(outer) - to_signed(inner))
}

fn can_center_within(origin: i32, outer: u32, inner: u32) -> (result: bool)
    ensures
        result == centering_fits(origin as int, outer, inner),
{
    match to_signed(outer).checked_sub(to_signed(inner)) {
        Some(gap) => origin.checked_add(half_of(gap)).is_some(),
        None => false,
    }
}

/// Whether [`position_window`] can work out a position for the window.
pub fn can_position_window(
    monitor: &Monitor,
    outer_size: UVec2,
    position: &WindowPosition,
    parent_rect: Option<(IVec2, UVec2)>,
) -> (result: bool)
    ensures
        result == position_fits(*monitor, outer_size, *position, parent_rect),
{
    let (origin, area) = match (position, parent_rect) {
        (WindowPosition::PrimaryMonitorPixelsFromTopLeft(offset), _) => {
            return monitor.position.x.checked_add(offset.x).is_some()
                && monitor.position.y.checked_add(offset.y).is_some();
        },
        (WindowPosition::CenterOnParent, Some(rect)) => rect,
        _ => (monitor.position, monitor.size),
    };
    can_center_within(origin.x, area.x, outer_size.x) && can_center_within(
        origin.y,
        area.y,
        outer_size.y,
    )
}

/// The position for a window with the given outer size. `parent_rect` is the
/// outer position and size of the window that created it.
pub fn position_window(
    monitor: &Monitor,
    outer_size: UVec2,
    position: &WindowPosition,
    parent_rect: Option<(IVec2, UVec2)>,
) -> (result: IVec2)
    requires
        position_fits(*monitor, outer_size, *position, parent_rect),
    ensures
        (result.x as int, result.y as int) == target_position(
            *monitor,
            outer_size,
            *position,
            parent_rect,
        ),
{
    let (origin, area) = match (position, parent_rect) {
        (WindowPosition::PrimaryMonitorPixelsFromTopLeft(offset), _) => {
            return IVec2::new(monitor.position.x + offset.x, monitor.position.y + offset.y);
        },
        (WindowPosition::CenterOnParent, Some(rect)) => rect,
        _ => (monitor.position, monitor.size),
    };
    IVec2::new(
        center_within(origin.x, area.x, outer_size.x),
        center_within(origin.y, area.y, outer_size.y),
    )
}

pub open spec fn smaller(a: int, b: int) -> int {
    if a <= b {
        a
    } else {
        b
    }
}

/// The margin that is applied where `margin` is asked for: at most a quarter of
/// the monitor's shorter side.
pub open spec fn applied_margin(monitor_size: UVec2, margin: u32) -> int {
    smaller(margin as int, smaller(monitor_size.x as int, monitor_size.y as int) / 4)
}

/// The monitor's size, less the applied margin on each side.
pub open spec fn size_within_margin(monitor_size: UVec2, margin: u32) -> (int, int) {
    (
        monitor_size.x - 2 * applied_margin(monitor_size, margin),
        monitor_size.y - 2 * applied_margin(monitor_size, margin),
    )
}

/// The inner size, in physical pixels, of a window that is asked to have `size`.
pub open spec fn window_size<V>(
    monitor_size: UVec2,
    size: WindowSize<V>,
    scaled: ScaledToPhysical,
) -> (int, int) {
    match size {
        WindowSize::PhysicalPixels(size) => (size.x as int, size.y as int),
        WindowSize::ScaledPixels(_) => (scaled.size.x as int, scaled.size.y as int),
        WindowSize::MarginPhysicalPixels(margin) => size_within_margin(monitor_size, margin),
        WindowSize::MarginScaledPixels(_) => size_within_margin(monitor_size, scaled.margin),
    }
}

fn shrink_by_margin(monitor_size: UVec2, margin: u32) -> (result: UVec2)
    ensures
        (result.x as int, result.y as int) == size_within_margin(monitor_size, margin),
{
    let shorter_side: u32 = if monitor_size.x <= monitor_size.y {
        monitor_size.x
    } else {
        monitor_size.y
    };
    let margin_physical_px: u32 = if margin <= shorter_side / 4 {
        margin
    } else {
        shorter_side / 4
    };
    UVec2::new(
        monitor_size.x - 2 * margin_physical_px,
        monitor_size.y - 2 * margin_physical_px,
    )
}

/// The inner size in physical pixels that answers to `size` on a monitor.
pub fn compute_window_size<V>(
    monitor_size: UVec2,
    size: &WindowSize<V>,
    scaled: &ScaledToPhysical,
) -> (result: UVec2)
    ensures
        (result.x as int, result.y as int) == window_size(monitor_size, *size, *scaled),
{
    match size {
        WindowSize::PhysicalPixels(size) => *size,
        WindowSize::ScaledPixels(_) => scaled.size,
        WindowSize::MarginPhysicalPixels(margin) => shrink_by_margin(monitor_size, *margin),
        WindowSize::MarginScaledPixels(_) => shrink_by_margin(monitor_size, scaled.margin),
    }
}

/// The monitor that a new window goes by: the primary one where the system names
/// one, and otherwise the first that is there.
pub fn choose_monitor<M>(primary: Option<M>, available: Vec<M>) -> (result: Option<M>)
    ensures
        result == (match primary {
            Some(monitor) => Some(monitor),
            None => if available@.len() > 0 {
                Some(available@[0])
            } else {
                None
            },
        }),
{
    match primary {
        Some(monitor) => Some(monitor),
        None => {
            let mut available = available;
            if available.len() > 0 {
                Some(available.remove(0))
            } else {
                None
            }
        },
    }
}

/// A centred window leaves the same room on both sides, up to one pixel, however
/// large it is.
pub proof fn law_centered_evenly(origin: int, outer: u32, inner: u32)
    requires
        outer <= i32::MAX,
        inner <= i32::MAX,
    ensures
        ({
            let before = centered(origin, outer, inner) - origin;
            let after = (origin + outer) - (centered(origin, outer, inner) + inner);
            -1 <= after - before <= 1
        }),
{
}

/// A window that is no larger than the area it is centred in lies inside it.
pub proof fn law_centered_inside(origin: int, outer: u32, inner: u32)
    requires
        inner <= outer <= i32::MAX,
    ensures
        origin <= centered(origin, outer, inner),
        centered(origin, outer, inner) + inner <= origin + outer,
{
}

/// Without a parent, centring on the parent is centring on the monitor.
pub proof fn law_center_without_parent(monitor: Monitor, outer_size: UVec2)
    ensures
        target_position(monitor, outer_size, WindowPosition::CenterOnParent, None)
            == target_position(monitor, outer_size, WindowPosition::Center, None),
{
}

/// A margin never takes more than half of either side of the monitor.
pub proof fn law_margin_leaves_half(monitor_size: UVec2, margin: u32)
    ensures
        2 * size_within_margin(monitor_size, margin).0 >= monitor_size.x,
        2 * size_within_margin(monitor_size, margin).1 >= monitor_size.y,
        size_within_margin(monitor_size, margin).0 <= monitor_size.x,
        size_within_margin(monitor_size, margin).1 <= monitor_size.y,
{
}

/// A larger margin never makes a larger window.
pub proof fn law_margin_monotonic(monitor_size: UVec2, margin: u32, larger: u32)
    requires
        margin <= larger,
    ensures
        size_within_margin(monitor_size, larger).0 <= size_within_margin(monitor_size, margin).0,
        size_within_margin(monitor_size, larger).1 <= size_within_margin(monitor_size, margin).1,
{
}

/// A window that was asked to have a size has that size, whatever the monitor. In
/// scaled pixels it is what they come to there.
pub proof fn law_size_is_the_one_asked_for<V>(
    monitor_size: UVec2,
    size: UVec2,
    scaled_size: V,
    scaled: ScaledToPhysical,
)
    ensures
        window_size(monitor_size, WindowSize::<V>::PhysicalPixels(size), scaled) == (
            size.x as int,
            size.y as int,
        ),
        window_size(monitor_size, WindowSize::<V>::ScaledPixels(scaled_size), scaled) == (
            scaled.size.x as int,
            scaled.size.y as int,
        ),
{
}

/// A margin of up to a quarter of the monitor's shorter side is taken off each of
/// the four sides. A wider one counts as that quarter, rounded down. In scaled
/// pixels it is what they come to on the monitor.
pub proof fn law_margin_is_taken_off<V>(
    monitor_size: UVec2,
    margin: u32,
    quarter: int,
    scaled: ScaledToPhysical,
)
    requires
        4 * quarter <= monitor_size.x,
        4 * quarter <= monitor_size.y,
        monitor_size.x < 4 * quarter + 4 || monitor_size.y < 4 * quarter + 4,
    ensures
        ({
            let physical = window_size(
                monitor_size,
                WindowSize::<V>::MarginPhysicalPixels(margin),
                scaled,
            );
            let logical = window_size(
                monitor_size,
                WindowSize::<V>::MarginScaledPixels(margin),
                scaled,
            );
            &&& margin <= quarter ==> physical == (
                monitor_size.x - 2 * margin,
                monitor_size.y - 2 * margin,
            )
            &&& margin > quarter ==> physical == (
                monitor_size.x - 2 * quarter,
                monitor_size.y - 2 * quarter,
            )
            &&& scaled.margin <= quarter ==> logical == (
                monitor_size.x - 2 * scaled.margin,
                monitor_size.y - 2 * scaled.margin,
            )
            &&& scaled.margin > quarter ==> logical == (
                monitor_size.x - 2 * quarter,
                monitor_size.y - 2 * quarter,
            )
        }),
{
}

/// The start of a centred window is half the room that is left away from the start
/// of its area. Where the room is odd the half is rounded towards the area's start,
/// and where the window is larger than the area it starts before it.
pub proof fn law_half_of_the_room(origin: int, outer: u32, inner: u32)
    ensures
        ({
            let room = as_signed(outer) - as_signed(inner);
            let start = centered(origin, outer, inner) - origin;
            &&& room >= 0 ==> 2 * start <= room <= 2 * start + 1
            &&& room < 0 ==> 2 * start - 1 <= room <= 2 * start
        }),
{
}

/// A window is centred in its monitor, in both directions, and whether or not it
/// has a parent. On its parent it is centred in the parent's rectangle where there
/// is one, and in the monitor where there is none. An offset counts from the
/// monitor's top left corner.
pub proof fn law_target_position(
    monitor: Monitor,
    outer_size: UVec2,
    parent_rect: Option<(IVec2, UVec2)>,
    parent_position: IVec2,
    parent_size: UVec2,
    offset: IVec2,
)
    ensures
        ({
            let on_monitor = (
                centered(monitor.position.x as int, monitor.size.x, outer_size.x),
                centered(monitor.position.y as int, monitor.size.y, outer_size.y),
            );
            let on_parent = (
                centered(parent_position.x as int, parent_size.x, outer_size.x),
                centered(parent_position.y as int, parent_size.y, outer_size.y),
            );
            let center = WindowPosition::Center;
            let over = WindowPosition::CenterOnParent;
            let at = WindowPosition::PrimaryMonitorPixelsFromTopLeft(offset);
            let parent = Some((parent_position, parent_size));
            &&& target_position(monitor, outer_size, center, parent_rect) == on_monitor
            &&& target_position(monitor, outer_size, over, None) == on_monitor
            &&& target_position(monitor, outer_size, over, parent) == on_parent
            &&& target_position(monitor, outer_size, at, parent_rect) == (
                monitor.position.x + offset.x,
                monitor.position.y + offset.y,
            )
        }),
{
}

/// A position can be worked out wherever neither it nor the room that is left is out
/// of range, in either direction.
pub proof fn law_position_fits_in_range(
    monitor: Monitor,
    outer_size: UVec2,
    position: WindowPosition,
    parent_rect: Option<(IVec2, UVec2)>,
)
    ensures
        ({
            let (x, y) = target_position(monitor, outer_size, position, parent_rect);
            let area = match (position, parent_rect) {
                (WindowPosition::CenterOnParent, Some((_, size))) => size,
                _ => monitor.size,
            };
            let room_x = as_signed(area.x) - as_signed(outer_size.x);
            let room_y = as_signed(area.y) - as_signed(outer_size.y);
            position_fits(monitor, outer_size, position, parent_rect) <==> {
                &&& -0x8000_0000 <= x < 0x8000_0000
                &&& -0x8000_0000 <= y < 0x8000_0000
                &&& position is PrimaryMonitorPixelsFromTopLeft || (-0x8000_0000 <= room_x
                    < 0x8000_0000 && -0x8000_0000 <= room_y < 0x8000_0000)
            }
        }),
{
}

} // verus!
