//! The size of the overlay and the layout of its pixel buffer.
use vstd::prelude::*;
use crate::window::MonitorInfo;

verus! {

/// Screen width assumed when the window manager lists no monitor.
pub const DEFAULT_SCREEN_WIDTH: i64 = 1920;

/// Screen height assumed when the window manager lists no monitor.
pub const DEFAULT_SCREEN_HEIGHT: i64 = 1080;

/// Bytes per pixel of a 32-bit ARGB buffer.
pub const BYTES_PER_PIXEL: i64 = 4;

/// The right edge of a monitor.
pub open spec fn right_edge(m: MonitorInfo) -> int {
    m.x + m.width
}

/// The bottom edge of a monitor.
pub open spec fn bottom_edge(m: MonitorInfo) -> int {
    m.y + m.height
}

/// The size of a screen that spans all monitors: the furthest right edge and
/// the furthest bottom edge, or the default size where there is no monitor.
pub fn screen_size(monitors: &Vec<MonitorInfo>) -> (r: (i64, i64))
    ensures
        monitors@.len() == 0 ==> r == (DEFAULT_SCREEN_WIDTH, DEFAULT_SCREEN_HEIGHT),
        monitors@.len() > 0 ==> {
            &&& forall|i: int| 0 <= i < monitors@.len() ==> right_edge(#[trigger] monitors@[i]) <= r.0
            &&& exists|i: int| 0 <= i < monitors@.len() && right_edge(#[trigger] monitors@[i]) == r.0
            &&& forall|i: int| 0 <= i < monitors@.len() ==> bottom_edge(#[trigger] monitors@[i]) <= r.1
            &&& exists|i: int| 0 <= i < monitors@.len() && bottom_edge(#[trigger] monitors@[i]) == r.1
        },
{
    if monitors.len() == 0 {
        return (DEFAULT_SCREEN_WIDTH, DEFAULT_SCREEN_HEIGHT);
    }
    let mut width: i64 = monitors[0].x as i64 + monitors[0].width as i64;
    let mut height: i64 = monitors[0].y as i64 + monitors[0].height as i64;
    let mut i: usize = 1;
    while i < monitors.len()
        invariant
            1 <= i <= monitors.len(),
            forall|j: int| 0 <= j < i ==> right_edge(#[trigger] monitors@[j]) <= width,
            exists|j: int| 0 <= j < i && right_edge(#[trigger] monitors@[j]) == width,
            forall|j: int| 0 <= j < i ==> bottom_edge(#[trigger] monitors@[j]) <= height,
            exists|j: int| 0 <= j < i && bottom_edge(#[trigger] monitors@[j]) == height,
        decreases monitors.len() - i,
    {
        let m = &monitors[i];
        let right = m.x as i64 + m.width as i64;
        let bottom = m.y as i64 + m.height as i64;
        if right > width {
            width = right;
        }
        if bottom > height {
            height = bottom;
        }
        i += 1;
    }
    (width, height)
}

/// The layout of a full-screen ARGB pixel buffer, in the 32-bit sizes that
/// shared-memory buffers are described with.
#[derive(Clone, Copy, Debug, PartialEq, Eq, Structural)]
pub struct FrameLayout {
    pub width: i32,
    pub height: i32,
    /// Bytes per row.
    pub stride: i32,
    /// Bytes in all.
    pub size: i32,
}

/// The layout of a `width` by `height` buffer with rows of `4 * width` bytes,
/// where the size is positive and its byte count fits in an `i32`.
pub fn frame_layout(width: i64, height: i64) -> (r: Option<FrameLayout>)
    ensures
        r is Some <==> (0 < width && 0 < height && BYTES_PER_PIXEL * width * height <= i32::MAX),
        r matches Some(f) ==> {
            &&& f.width == width
            &&& f.height == height
            &&& f.stride == BYTES_PER_PIXEL * width
            &&& f.size == BYTES_PER_PIXEL * width * height
        },
{
    if width <= 0 || height <= 0 {
        return None;
    }
    if width > i32::MAX as i64 / BYTES_PER_PIXEL || height > i32::MAX as i64 {
        assert(BYTES_PER_PIXEL * width * height > i32::MAX) by (nonlinear_arith)
            requires
                width > 0,
                height > 0,
                width > 0x1fff_ffffint || height > 0x7fff_ffffint,
        ;
        return None;
    }
    let stride: i64 = BYTES_PER_PIXEL * width;
    assert(0 < stride * height <= 0x7fff_ffff * 0x7fff_ffff) by (nonlinear_arith)
        requires
            0 < stride <= 0x7fff_ffff,
            0 < height <= 0x7fff_ffff,
    ;
    let size: i64 = stride * height;
    if size > i32::MAX as i64 {
        return None;
    }
    assert(stride <= size) by (nonlinear_arith)
        requires
            stride > 0,
            height >= 1,
            size == stride * height,
    ;
    Some(FrameLayout { width: width as i32, height: height as i32, stride: stride as i32, size: size as i32 })
}

} // verus!
