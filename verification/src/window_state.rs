//! The small decisions of a window: which cursor comes next, how the cursor
//! is grabbed, and in which direction a drag at the border resizes.

use vstd::arithmetic::div_mod::{lemma_add_mod_noop, lemma_small_mod};
use vstd::prelude::*;

verus! {

/// How many named cursors a window cycles through.
pub const CURSOR_COUNT: usize = 34;

/// How the cursor is held to the window.
#[derive(Clone, Copy, Debug, PartialEq, Eq, Structural)]
pub enum CursorGrabMode {
    /// The cursor is not held.
    Free,
    Confined,
    Locked,
}

/// Where the cursor stands between the left and the right border.
#[derive(Clone, Copy, Debug, PartialEq, Eq, Structural)]
pub enum HorizontalZone {
    /// Within the border strip on the left.
    West,
    Middle,
    /// Within the border strip on the right.
    East,
}

/// Where the cursor stands between the upper and the lower border.
#[derive(Clone, Copy, Debug, PartialEq, Eq, Structural)]
pub enum VerticalZone {
    /// Within the border strip at the top.
    North,
    Middle,
    /// Within the border strip at the bottom.
    South,
}

#[derive(Clone, Copy, Debug, PartialEq, Eq, Structural)]
pub enum ResizeDirection {
    East,
    North,
    NorthEast,
    NorthWest,
    South,
    SouthEast,
    SouthWest,
    West,
}

/// The direction in which a drag resizes the window, from the zones the
/// cursor stands in; none where it stands in no border strip.
pub open spec fn direction_of(x: HorizontalZone, y: VerticalZone) -> Option<ResizeDirection> {
    match (x, y) {
        (HorizontalZone::West, VerticalZone::North) => Some(ResizeDirection::NorthWest),
        (HorizontalZone::West, VerticalZone::South) => Some(ResizeDirection::SouthWest),
        (HorizontalZone::West, VerticalZone::Middle) => Some(ResizeDirection::West),
        (HorizontalZone::East, VerticalZone::North) => Some(ResizeDirection::NorthEast),
        (HorizontalZone::East, VerticalZone::South) => Some(ResizeDirection::SouthEast),
        (HorizontalZone::East, VerticalZone::Middle) => Some(ResizeDirection::East),
        (HorizontalZone::Middle, VerticalZone::South) => Some(ResizeDirection::South),
        (HorizontalZone::Middle, VerticalZone::North) => Some(ResizeDirection::North),
        (HorizontalZone::Middle, VerticalZone::Middle) => None,
    }
}

/// The direction of a drag-resize that starts with the cursor in zones `x` and `y`.
pub fn drag_resize_window(x: HorizontalZone, y: VerticalZone) -> (r: Option<ResizeDirection>)
    ensures
        r == direction_of(x, y),
{
    match (x, y) {
        (HorizontalZone::West, VerticalZone::North) => Some(ResizeDirection::NorthWest),
        (HorizontalZone::West, VerticalZone::South) => Some(ResizeDirection::SouthWest),
        (HorizontalZone::West, _) => Some(ResizeDirection::West),
        (HorizontalZone::East, VerticalZone::North) => Some(ResizeDirection::NorthEast),
        (HorizontalZone::East, VerticalZone::South) => Some(ResizeDirection::SouthEast),
        (HorizontalZone::East, _) => Some(ResizeDirection::East),
        (_, VerticalZone::South) => Some(ResizeDirection::South),
        (_, VerticalZone::North) => Some(ResizeDirection::North),
        _ => None,
    }
}

/// The grab mode that follows `mode`: confined after free, free after
/// anything else.
pub fn cycle_cursor_grab(mode: CursorGrabMode) -> (r: CursorGrabMode)
    ensures
        r == if mode == CursorGrabMode::Free {
            CursorGrabMode::Confined
        } else {
            CursorGrabMode::Free
        },
{
    match mode {
        CursorGrabMode::Free => CursorGrabMode::Confined,
        CursorGrabMode::Confined => CursorGrabMode::Free,
        _ => CursorGrabMode::Free,
    }
}

/// The place of the named cursor that follows the one at `named_idx`; after
/// the last comes the first.
pub fn next_cursor(named_idx: usize) -> (r: usize)
    ensures
        r == (named_idx + 1) % (CURSOR_COUNT as int),
        r < CURSOR_COUNT,
{
    proof {
        lemma_add_mod_noop(named_idx as int, 1, CURSOR_COUNT as int);
    }
    ((named_idx % CURSOR_COUNT) + 1) % CURSOR_COUNT
}

/// The place of the custom cursor that follows the one at `custom_idx`,
/// among `count` custom cursors; after the last comes the first. `None`
/// where there is no custom cursor.
pub fn next_custom_cursor(custom_idx: usize, count: usize) -> (r: Option<usize>)
    ensures
        count == 0 ==> r.is_none(),
        count > 0 ==> r == Some(((custom_idx + 1) % (count as int)) as usize),
{
    if count == 0 {
        None
    } else if count == 1 {
        Some(0)
    } else {
        proof {
            lemma_add_mod_noop(custom_idx as int, 1, count as int);
            lemma_small_mod(1, count as nat);
        }
        Some(((custom_idx % count) + 1) % count)
    }
}

/// Width and height of a size, the one for the other.
pub fn swap_dimensions(size: (u32, u32)) -> (r: (u32, u32))
    ensures
        r == (size.1, size.0),
{
    (size.1, size.0)
}

} // verus!
