//! Cursor and viewport arithmetic for the editor window.
//!
//! The editor draws its world view into a viewport inside the window, and
//! window cursor positions are measured from the opposite vertical corner
//! than viewport positions. These helpers pin down the offset arithmetic
//! that turns a window cursor position into a viewport-local one, the
//! bounds test on it, and the viewport's center for recentering the cursor.

use vstd::prelude::*;

verus! {

/// A viewport's placement in physical window pixels.
#[derive(PartialEq, Eq, Structural, Clone, Copy, Debug)]
pub struct Viewport {
    pub pos_x: u32,
    pub pos_y: u32,
    pub size_x: u32,
    pub size_y: u32,
}

impl Viewport {
    /// The viewport lies inside a window of this height.
    pub open spec fn fits_height(self, window_height: u32) -> bool {
        self.pos_y + self.size_y <= window_height
    }
}

/// Where the viewport's lower-left corner sits in cursor coordinates: the
/// horizontal position is shared, the vertical one measures from the other
/// end of the window.
pub fn viewport_cursor_offset(viewport: &Viewport, window_height: u32) -> (r: (u32, u32))
    requires
        viewport.fits_height(window_height),
    ensures
        r.0 == viewport.pos_x,
        r.1 == window_height - (viewport.pos_y + viewport.size_y),
{
    (viewport.pos_x, window_height - (viewport.pos_y + viewport.size_y))
}

/// A window cursor position, moved into viewport-local coordinates.
pub fn cursor_to_viewport(cursor: (i64, i64), viewport: &Viewport, window_height: u32) -> (r: (
    i64,
    i64,
))
    requires
        viewport.fits_height(window_height),
        -0x8000_0000 <= cursor.0 <= 0x8000_0000,
        -0x8000_0000 <= cursor.1 <= 0x8000_0000,
    ensures
        r.0 == cursor.0 - viewport.pos_x,
        r.1 == cursor.1 - (window_height - (viewport.pos_y + viewport.size_y)),
{
    let off = viewport_cursor_offset(viewport, window_height);
    (cursor.0 - off.0 as i64, cursor.1 - off.1 as i64)
}

/// Whether a viewport-local position lies on the viewport; the editor treats
/// a cursor outside it as hovering nothing.
pub fn in_viewport(local: (i64, i64), viewport: &Viewport) -> (r: bool)
    ensures
        r == (0 <= local.0 <= viewport.size_x && 0 <= local.1 <= viewport.size_y),
{
    0 <= local.0 && local.0 <= viewport.size_x as i64 && 0 <= local.1 && local.1
        <= viewport.size_y as i64
}

/// The viewport's center in cursor coordinates, where the editor parks the
/// cursor after a rotate drag ends.
pub fn viewport_center_cursor(viewport: &Viewport, window_height: u32) -> (r: (u32, i64))
    requires
        viewport.pos_x + viewport.size_x / 2 <= u32::MAX,
    ensures
        r.0 == viewport.pos_x + viewport.size_x / 2,
        r.1 == window_height - (viewport.pos_y + viewport.size_y / 2),
{
    let cx = viewport.pos_x + viewport.size_x / 2;
    let cy = viewport.pos_y as u64 + (viewport.size_y / 2) as u64;
    (cx, window_height as i64 - cy as i64)
}

} // verus!
