//! The render target's size and the scissor rectangle of a clipped mesh.

use vstd::prelude::*;
use crate::units::Scalar;

verus! {

/// Information about the screen used for rendering.
#[derive(Clone, Copy, Debug, PartialEq, Eq, Structural)]
pub struct ScreenDescriptor {
    /// Width of the target in physical pixels.
    pub physical_width: u32,
    /// Height of the target in physical pixels.
    pub physical_height: u32,
    /// Physical pixels per logical unit.
    pub scale_factor: Scalar,
}

impl ScreenDescriptor {
    /// A descriptor is valid when its scale factor is greater than zero.
    pub open spec fn spec_is_valid(self) -> bool {
        self.scale_factor.spec_is_positive()
    }

    #[verifier::when_used_as_spec(spec_is_valid)]
    pub fn is_valid(self) -> (b: bool)
        ensures
            b == self.spec_is_valid(),
    {
        self.scale_factor.is_positive()
    }
}

/// A clip rectangle in physical pixels.
///
/// Each corner is the logical corner multiplied by the scale factor and
/// rounded to the nearest whole pixel. The rectangle may reach beyond the
/// target on any side, and its corners may be in any order.
///
/// The corners are rounded before they are clamped to the target. Rounding
/// keeps the order of two numbers and leaves whole numbers alone, so this
/// gives the same pixels as clamping first and rounding afterwards.
#[derive(Clone, Copy, Debug, PartialEq, Eq, Structural)]
pub struct ClipRect {
    pub min_x: i64,
    pub min_y: i64,
    pub max_x: i64,
    pub max_y: i64,
}

/// A scissor rectangle in physical pixels, as the GPU pass takes it.
#[derive(Clone, Copy, Debug, PartialEq, Eq, Structural)]
pub struct ScissorRect {
    pub x: u32,
    pub y: u32,
    pub width: u32,
    pub height: u32,
}

/// `v` moved into `[lo, hi]`: values below `lo` become `lo`, values above `hi`
/// become `hi`.
pub open spec fn clamp_to(v: int, lo: int, hi: int) -> int {
    if v < lo {
        lo
    } else if v > hi {
        hi
    } else {
        v
    }
}

/// Where the scissor interval starts on one axis: the lower corner clamped to
/// `[0, extent]`.
pub open spec fn axis_start(min: int, extent: int) -> int {
    clamp_to(min, 0, extent)
}

/// How long the scissor interval is on one axis.
///
/// The upper corner is clamped to `[start, extent]`. The length is the
/// distance between the clamped corners, raised to one pixel where it would
/// be less, and cut down to what is left of the target after `start`.
pub open spec fn axis_len(min: int, max: int, extent: int) -> int {
    let start = axis_start(min, extent);
    let end = clamp_to(max, start, extent);
    let len = if end - start >= 1 {
        end - start
    } else {
        1
    };
    if len <= extent - start {
        len
    } else {
        extent - start
    }
}

/// The scissor rectangle of a clip rectangle on a target of the given size,
/// or `None` where nothing of the target is left to draw on.
pub open spec fn scissor_of(clip: ClipRect, screen: ScreenDescriptor) -> Option<ScissorRect> {
    let width = axis_len(clip.min_x as int, clip.max_x as int, screen.physical_width as int);
    let height = axis_len(clip.min_y as int, clip.max_y as int, screen.physical_height as int);
    if width == 0 || height == 0 {
        None
    } else {
        Some(
            ScissorRect {
                x: axis_start(clip.min_x as int, screen.physical_width as int) as u32,
                y: axis_start(clip.min_y as int, screen.physical_height as int) as u32,
                width: width as u32,
                height: height as u32,
            },
        )
    }
}

/// Start and length of the scissor interval on one axis.
fn scissor_axis(min: i64, max: i64, extent: u32) -> (r: (u32, u32))
    ensures
        r.0 == axis_start(min as int, extent as int),
        r.1 == axis_len(min as int, max as int, extent as int),
        r.0 + r.1 <= extent,
{
    let ext: i64 = extent as i64;
    let start: i64 = if min < 0 {
        0
    } else if min > ext {
        ext
    } else {
        min
    };
    let end: i64 = if max < start {
        start
    } else if max > ext {
        ext
    } else {
        max
    };
    let span: i64 = end - start;
    let room: i64 = ext - start;
    let len: i64 = if span >= 1 {
        span
    } else {
        1
    };
    let len: i64 = if len <= room {
        len
    } else {
        room
    };
    (start as u32, len as u32)
}

impl ScreenDescriptor {
    /// Computes the scissor rectangle for a mesh clipped to `clip`.
    ///
    /// Returns `None` exactly where the mesh must be skipped: the target has
    /// no pixels, or the clip rectangle starts at or beyond the target's right
    /// or bottom edge. A rectangle that is returned lies inside the target and
    /// is at least one pixel wide and high.
    pub fn scissor(&self, clip: &ClipRect) -> (r: Option<ScissorRect>)
        ensures
            r == scissor_of(*clip, *self),
            r is None <==> (self.physical_width == 0 || self.physical_height == 0
                || clip.min_x >= self.physical_width || clip.min_y >= self.physical_height),
            r matches Some(s) ==> s.width >= 1 && s.height >= 1
                && s.x + s.width <= self.physical_width
                && s.y + s.height <= self.physical_height,
    {
        let (x, width) = scissor_axis(clip.min_x, clip.max_x, self.physical_width);
        let (y, height) = scissor_axis(clip.min_y, clip.max_y, self.physical_height);
        if width == 0 || height == 0 {
            None
        } else {
            Some(ScissorRect { x, y, width, height })
        }
    }
}

/// Every scissor rectangle lies inside the target and is at least one pixel
/// wide and one pixel high, whatever the clip rectangle was.
pub proof fn lemma_scissor_within_target(clip: ClipRect, screen: ScreenDescriptor)
    ensures
        scissor_of(clip, screen) matches Some(s) ==> {
            &&& 0 <= s.x
            &&& 0 <= s.y
            &&& s.x + s.width <= screen.physical_width
            &&& s.y + s.height <= screen.physical_height
            &&& s.width >= 1
            &&& s.height >= 1
        },
{
}

/// A clip rectangle that starts at or beyond the target's right or bottom
/// edge has no scissor rectangle, and neither has any clip rectangle on a
/// target without pixels. These are the only clip rectangles without one.
pub proof fn lemma_scissor_none_iff_beyond_far_edge(clip: ClipRect, screen: ScreenDescriptor)
    ensures
        scissor_of(clip, screen) is None <==> (screen.physical_width == 0
            || screen.physical_height == 0 || clip.min_x >= screen.physical_width || clip.min_y
            >= screen.physical_height),
{
}

/// A clip rectangle that already lies inside the target, with its corners in
/// order and at least one pixel apart, is its own scissor rectangle.
pub proof fn lemma_scissor_of_inner_rect(clip: ClipRect, screen: ScreenDescriptor)
    requires
        0 <= clip.min_x < clip.max_x <= screen.physical_width,
        0 <= clip.min_y < clip.max_y <= screen.physical_height,
    ensures
        scissor_of(clip, screen) == Some(
            ScissorRect {
                x: clip.min_x as u32,
                y: clip.min_y as u32,
                width: (clip.max_x - clip.min_x) as u32,
                height: (clip.max_y - clip.min_y) as u32,
            },
        ),
{
}

} // verus!
