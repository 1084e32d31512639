//! Turning an untrusted drawn selection into crop bounds that fit an image.
use vstd::prelude::*;

verus! {

/// A rectangle drawn by the user over an image, in image pixels. Each of
/// `x`, `y`, `width` and `height` is the drawn value rounded down to a whole
/// pixel; `width_positive` and `height_positive` tell whether the drawn
/// extent, before rounding, was above zero.
#[derive(Debug, Clone, Copy, PartialEq, Eq, Structural)]
pub struct PixelSelection {
    pub x: i64,
    pub y: i64,
    pub width: i64,
    pub height: i64,
    pub width_positive: bool,
    pub height_positive: bool,
}

/// A rectangle that lies inside the image it was computed for, with a
/// non-zero width and height.
#[derive(Debug, Clone, Copy, PartialEq, Eq, Structural)]
pub struct CropBounds {
    pub x: u32,
    pub y: u32,
    pub width: u32,
    pub height: u32,
}

impl PixelSelection {
    /// Whether the rounded values agree with the signs recorded for the
    /// drawn extents.
    pub open spec fn wf(self) -> bool {
        &&& (self.width >= 1 ==> self.width_positive)
        &&& (self.width_positive ==> self.width >= 0)
        &&& (self.height >= 1 ==> self.height_positive)
        &&& (self.height_positive ==> self.height >= 0)
    }

    /// A selection drawn on whole pixels.
    pub fn whole(x: i64, y: i64, width: i64, height: i64) -> (r: PixelSelection)
        ensures
            r.wf(),
            r == (PixelSelection {
                x,
                y,
                width,
                height,
                width_positive: width > 0,
                height_positive: height > 0,
            }),
    {
        PixelSelection { x, y, width, height, width_positive: width > 0, height_positive: height > 0 }
    }
}

pub open spec fn max0(v: int) -> int {
    if v < 0 {
        0
    } else {
        v
    }
}

pub open spec fn min(a: int, b: int) -> int {
    if a < b {
        a
    } else {
        b
    }
}

pub open spec fn degenerate_message() -> Seq<char> {
    "Selection must have a non-zero width and height"@
}

pub open spec fn out_of_bounds_message() -> Seq<char> {
    "Selection is outside the image bounds"@
}

pub open spec fn empty_after_clamping_message() -> Seq<char> {
    "Selection has no drawable area after clamping"@
}

/// What resolving `s` against an image of `image_width` by `image_height`
/// yields: the origin clamped to zero, the extents clamped to the image's
/// right and bottom edges; or the reason the selection is refused.
pub open spec fn crop_outcome(image_width: u32, image_height: u32, s: PixelSelection) -> Result<
    CropBounds,
    Seq<char>,
> {
    let x = max0(s.x as int);
    let y = max0(s.y as int);
    let w = min(max0(s.width as int), image_width - x);
    let h = min(max0(s.height as int), image_height - y);
    if !s.width_positive || !s.height_positive {
        Err(degenerate_message())
    } else if x >= image_width || y >= image_height {
        Err(out_of_bounds_message())
    } else if w == 0 || h == 0 {
        Err(empty_after_clamping_message())
    } else {
        Ok(CropBounds { x: x as u32, y: y as u32, width: w as u32, height: h as u32 })
    }
}

/// Clamps `selection` to an image of `image_width` by `image_height`.
/// Fails when a drawn extent is not above zero, when the clamped origin lies
/// outside the image, or when nothing is left after clamping.
pub fn resolve_crop_bounds(image_width: u32, image_height: u32, selection: &PixelSelection) -> (r:
    Result<CropBounds, String>)
    ensures
        crate::geometry::message_view(r) == crop_outcome(image_width, image_height, *selection),
{
    if !selection.width_positive || !selection.height_positive {
        return Err(String::from_str("Selection must have a non-zero width and height"));
    }
    let x: i64 = if selection.x < 0 {
        0
    } else {
        selection.x
    };
    let y: i64 = if selection.y < 0 {
        0
    } else {
        selection.y
    };
    if x >= image_width as i64 || y >= image_height as i64 {
        return Err(String::from_str("Selection is outside the image bounds"));
    }
    let room_x: i64 = image_width as i64 - x;
    let room_y: i64 = image_height as i64 - y;
    let w: i64 = if selection.width < 0 {
        0
    } else {
        selection.width
    };
    let h: i64 = if selection.height < 0 {
        0
    } else {
        selection.height
    };
    let clamped_width: i64 = if w < room_x {
        w
    } else {
        room_x
    };
    let clamped_height: i64 = if h < room_y {
        h
    } else {
        room_y
    };
    if clamped_width == 0 || clamped_height == 0 {
        return Err(String::from_str("Selection has no drawable area after clamping"));
    }
    Ok(CropBounds {
        x: x as u32,
        y: y as u32,
        width: clamped_width as u32,
        height: clamped_height as u32,
    })
}

/// Any crop bounds that resolving a selection yields lie inside the image
/// and cover at least one pixel.
pub proof fn lemma_crop_within_image(image_width: u32, image_height: u32, s: PixelSelection)
    ensures
        crop_outcome(image_width, image_height, s) matches Ok(c) ==> {
            &&& c.x < image_width
            &&& c.y < image_height
            &&& c.x + c.width <= image_width
            &&& c.y + c.height <= image_height
            &&& c.width > 0
            &&& c.height > 0
        },
{
}

/// Where resolving succeeds, the crop bounds are exactly the part of the
/// drawn rectangle, taken from its clamped origin, that lies on the image.
pub proof fn lemma_crop_is_overlap(image_width: u32, image_height: u32, s: PixelSelection)
    ensures
        crop_outcome(image_width, image_height, s) matches Ok(c) ==> {
            &&& c.x == max0(s.x as int)
            &&& c.y == max0(s.y as int)
            &&& c.x + c.width == min(max0(s.x as int) + max0(s.width as int), image_width as int)
            &&& c.y + c.height == min(max0(s.y as int) + max0(s.height as int), image_height as int)
        },
{
}

} // verus!
