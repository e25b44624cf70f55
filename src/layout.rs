use vstd::prelude::*;

verus! {

/// A rectangle on the window, in pixels from the top left corner.
#[derive(PartialEq, Eq, Structural, Clone, Copy, Debug)]
pub struct Rect {
    pub x: i64,
    pub y: i64,
    pub width: i64,
    pub height: i64,
}

/// Margin around the track list.
pub const LIST_MARGIN: i64 = 20;

/// Height kept free below the track list for the bottom bar.
pub const BOTTOM_BAR: i64 = 55;

/// Height of a slider in the bottom bar.
pub const SLIDER_HEIGHT: i64 = 15;

/// Distance from a slider's top to the window's bottom.
pub const SLIDER_RISE: i64 = 25;

/// Gap between an icon button and the window's edges.
pub const ICON_GAP: i64 = 5;

/// Width of the volume slider.
pub const VOLUME_SLIDER_WIDTH: i64 = 100;

/// Offset of the volume slider from the last quarter of the window.
pub const VOLUME_SLIDER_OFFSET: i64 = 50;

/// Offset of the mute button from the last quarter of the window.
pub const VOLUME_BUTTON_OFFSET: i64 = 20;

/// Where the message of an empty player stands: a text `text_width` wide,
/// centred across a window `width` by `height`.
pub fn empty_message_rect(width: i32, height: i32, text_width: i32) -> (r: Rect)
    requires
        width >= 0,
        height >= 0,
        text_width >= 0,
    ensures
        r.x == width / 2 - text_width / 2,
        r.y == 0,
        r.width == width as i64,
        r.height == height as i64,
{
    Rect { x: (width / 2) as i64 - (text_width / 2) as i64, y: 0, width: width as i64, height: height as i64 }
}

/// Where the track list stands.
pub fn list_rect(width: i32, height: i32) -> (r: Rect)
    requires
        width >= 0,
        height >= 0,
    ensures
        r.x == LIST_MARGIN,
        r.y == LIST_MARGIN,
        r.width == width - 2 * LIST_MARGIN,
        r.height == height - BOTTOM_BAR,
{
    Rect {
        x: LIST_MARGIN,
        y: LIST_MARGIN,
        width: width as i64 - 2 * LIST_MARGIN,
        height: height as i64 - BOTTOM_BAR,
    }
}

/// Where the bar that shows how far the track has played stands: the middle
/// half of the bottom bar.
pub fn progress_rect(width: i32, height: i32) -> (r: Rect)
    requires
        width >= 0,
        height >= 0,
    ensures
        r.x == width / 4,
        r.y == height - SLIDER_RISE,
        r.width == width / 2,
        r.height == SLIDER_HEIGHT,
{
    Rect {
        x: (width / 4) as i64,
        y: height as i64 - SLIDER_RISE,
        width: (width / 2) as i64,
        height: SLIDER_HEIGHT,
    }
}

/// Where the play button stands: left of the progress bar, for an icon
/// `icon_width` by `icon_height`.
pub fn play_button_rect(width: i32, height: i32, icon_width: i32, icon_height: i32) -> (r: Rect)
    requires
        width >= 0,
        height >= 0,
        icon_width >= 0,
        icon_height >= 0,
    ensures
        r.x == width / 4 - icon_width - ICON_GAP,
        r.y == height - icon_height - ICON_GAP,
        r.width == icon_width as i64,
        r.height == icon_height as i64,
{
    Rect {
        x: (width / 4) as i64 - icon_width as i64 - ICON_GAP,
        y: height as i64 - icon_height as i64 - ICON_GAP,
        width: icon_width as i64,
        height: icon_height as i64,
    }
}

/// Where the volume slider stands: right of the progress bar.
pub fn volume_slider_rect(width: i32, height: i32) -> (r: Rect)
    requires
        width >= 0,
        height >= 0,
    ensures
        r.x == (width / 4) * 3 + VOLUME_SLIDER_OFFSET,
        r.y == height - SLIDER_RISE,
        r.width == VOLUME_SLIDER_WIDTH,
        r.height == SLIDER_HEIGHT,
{
    Rect {
        x: (width / 4) as i64 * 3 + VOLUME_SLIDER_OFFSET,
        y: height as i64 - SLIDER_RISE,
        width: VOLUME_SLIDER_WIDTH,
        height: SLIDER_HEIGHT,
    }
}

/// Where the mute button stands: just left of the volume slider, for an icon
/// `icon_width` by `icon_height`.
pub fn volume_button_rect(width: i32, height: i32, icon_width: i32, icon_height: i32) -> (r: Rect)
    requires
        width >= 0,
        height >= 0,
        icon_width >= 0,
        icon_height >= 0,
    ensures
        r.x == (width / 4) * 3 + VOLUME_BUTTON_OFFSET,
        r.y == height - icon_height - ICON_GAP,
        r.width == icon_width as i64,
        r.height == icon_height as i64,
{
    Rect {
        x: (width / 4) as i64 * 3 + VOLUME_BUTTON_OFFSET,
        y: height as i64 - icon_height as i64 - ICON_GAP,
        width: icon_width as i64,
        height: icon_height as i64,
    }
}

} // verus!
