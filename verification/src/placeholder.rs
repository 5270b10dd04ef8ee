//! The synthetic thumbnail: a square of one colour that tells the kind of
//! the file, with a play button drawn on it for videos.

use vstd::prelude::*;
use crate::media::MediaKind;
use crate::raster::{Canvas, blank_canvas, canvas_height, canvas_pixels, canvas_width, put_pixel};

verus! {

/// The placeholder is a square of this many pixels a side.
pub const SIDE: u32 = 250;

/// The colour of the play button.
pub open spec fn white() -> (u8, u8, u8, u8) {
    (255u8, 255u8, 255u8, 255u8)
}

/// The colour that fills the placeholder of a kind: blue for videos, green
/// for images, grey for anything else.
pub open spec fn fill_color(kind: MediaKind) -> (u8, u8, u8, u8) {
    match kind {
        MediaKind::Video => (120u8, 120u8, 255u8, 255u8),
        MediaKind::Image => (120u8, 255u8, 120u8, 255u8),
        MediaKind::Other => (200u8, 200u8, 200u8, 255u8),
    }
}

/// The square of the distance of a pixel from the centre of the placeholder.
pub open spec fn squared_distance(x: int, y: int) -> int {
    (x - 125) * (x - 125) + (y - 125) * (y - 125)
}

/// The ring of the play button: the pixels whose distance from the centre
/// lies between 35 and 40.
pub open spec fn on_ring(x: int, y: int) -> bool {
    1225 <= squared_distance(x, y) <= 1600
}

/// The arrow of the play button: from the centre column rightwards, within
/// a distance of 30 from the centre, a band 19 pixels high that rises by
/// one pixel every two columns.
pub open spec fn in_arrow(x: int, y: int) -> bool {
    &&& squared_distance(x, y) < 900
    &&& 125 <= x < 140
    &&& 110 < y < 140
    &&& 115 - (x - 125) / 2 < y < 135 - (x - 125) / 2
}

/// Whether the play button covers a pixel.
pub open spec fn on_glyph(x: int, y: int) -> bool {
    on_ring(x, y) || in_arrow(x, y)
}

/// The colour of one pixel of the placeholder of a kind.
pub open spec fn placeholder_pixel(kind: MediaKind, x: int, y: int) -> (u8, u8, u8, u8) {
    if kind == MediaKind::Video && on_glyph(x, y) {
        white()
    } else {
        fill_color(kind)
    }
}

/// The pixels of the placeholder of a kind, row after row.
pub open spec fn placeholder_pixels(kind: MediaKind) -> Seq<(u8, u8, u8, u8)> {
    Seq::new(62500, |i: int| placeholder_pixel(kind, i % 250, i / 250))
}

/// The placeholder of a video holds white pixels, those of the play button,
/// beside pixels of its fill colour.
pub proof fn lemma_video_placeholder_shows_glyph()
    ensures
        white() != fill_color(MediaKind::Video),
        exists|i: int|
            0 <= i < 62500 && #[trigger] placeholder_pixels(MediaKind::Video)[i] == white(),
        exists|i: int|
            0 <= i < 62500 && #[trigger] placeholder_pixels(MediaKind::Video)[i] == fill_color(
                MediaKind::Video,
            ),
{
    let ring: int = 31415;
    assert(ring % 250 == 165 && ring / 250 == 125);
    assert(squared_distance(165, 125) == 1600) by (nonlinear_arith);
    assert(placeholder_pixels(MediaKind::Video)[ring] == white());
    assert(squared_distance(0, 0) == 31250) by (nonlinear_arith);
    assert(placeholder_pixels(MediaKind::Video)[0] == fill_color(MediaKind::Video));
}

/// The placeholder of anything but a video holds its fill colour and nothing
/// else: the play button is drawn for videos only.
pub proof fn lemma_plain_placeholder_is_uniform(kind: MediaKind)
    requires
        kind != MediaKind::Video,
    ensures
        forall|i: int|
            0 <= i < 62500 ==> #[trigger] placeholder_pixels(kind)[i] == fill_color(kind),
        white() != fill_color(kind),
{
}

/// Whether the play button covers the pixel in column `x` of row `y`.
pub fn covers(x: u32, y: u32) -> (r: bool)
    requires
        x < SIDE,
        y < SIDE,
    ensures
        r == on_glyph(x as int, y as int),
{
    let dx: i64 = x as i64 - 125;
    let dy: i64 = y as i64 - 125;
    assert(-125 <= dx < 125 && -125 <= dy < 125);
    assert(0 <= dx * dx <= 15625 && 0 <= dy * dy <= 15625) by (nonlinear_arith)
        requires
            -125 <= dx < 125,
            -125 <= dy < 125,
    ;
    let d2: i64 = dx * dx + dy * dy;
    assert(d2 == squared_distance(x as int, y as int));
    let ring = 1225 <= d2 && d2 <= 1600;
    let arrow = d2 < 900 && 125 <= x && x < 140 && 110 < y && y < 140 && 115 - dx / 2 < (y as i64)
        && (y as i64) < 135 - dx / 2;
    ring || arrow
}

/// The colour of the pixel in column `x` of row `y` of a placeholder.
pub fn pixel_at(kind: MediaKind, x: u32, y: u32) -> (r: (u8, u8, u8, u8))
    requires
        x < SIDE,
        y < SIDE,
    ensures
        r == placeholder_pixel(kind, x as int, y as int),
{
    if kind == MediaKind::Video && covers(x, y) {
        (255, 255, 255, 255)
    } else {
        match kind {
            MediaKind::Video => (120, 120, 255, 255),
            MediaKind::Image => (120, 255, 120, 255),
            MediaKind::Other => (200, 200, 200, 255),
        }
    }
}

/// Draws the placeholder of a kind.
pub fn placeholder_canvas(kind: MediaKind) -> (c: Canvas)
    ensures
        canvas_width(c) == SIDE,
        canvas_height(c) == SIDE,
        canvas_pixels(c) == placeholder_pixels(kind),
{
    let mut c = blank_canvas(SIDE, SIDE);
    let mut y: u32 = 0;
    while y < SIDE
        invariant
            y <= SIDE,
            canvas_width(c) == 250,
            canvas_height(c) == 250,
            canvas_pixels(c).len() == 62500,
            forall|i: int|
                0 <= i < y * 250 ==> #[trigger] canvas_pixels(c)[i] == placeholder_pixel(
                    kind,
                    i % 250,
                    i / 250,
                ),
        decreases SIDE - y,
    {
        let mut x: u32 = 0;
        while x < SIDE
            invariant
                x <= SIDE,
                y < SIDE,
                canvas_width(c) == 250,
                canvas_height(c) == 250,
                canvas_pixels(c).len() == 62500,
                forall|i: int|
                    0 <= i < y * 250 + x ==> #[trigger] canvas_pixels(c)[i] == placeholder_pixel(
                        kind,
                        i % 250,
                        i / 250,
                    ),
            decreases SIDE - x,
        {
            let color = pixel_at(kind, x, y);
            let ghost at: int = y * 250 + x;
            assert(at % 250 == x && at / 250 == y);
            put_pixel(&mut c, x, y, color);
            x += 1;
        }
        y += 1;
    }
    assert(canvas_pixels(c) =~= placeholder_pixels(kind));
    c
}

} // verus!
