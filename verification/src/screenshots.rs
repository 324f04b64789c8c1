//! Screenshot crops of a step and the files they are saved to.
//!
//! Three screenshots are taken per step: the full screen, a 400x300 crop
//! centered on the event, and a crop of the active window (or, failing that,
//! the full screen again). Coordinates here are in image space: pixels of the
//! captured monitor image, origin at its top-left corner.
use vstd::prelude::*;

use crate::events::StepScreenshots;
use crate::raster::{crop_rgba, is_crop_of, Image};

verus! {

/// Width of the crop taken around a click.
pub const CLICK_CROP_WIDTH: u32 = 400;

/// Height of the crop taken around a click.
pub const CLICK_CROP_HEIGHT: u32 = 300;

/// A rectangle of an image: its top-left corner and its size, in pixels.
#[derive(Debug, Clone, Copy, PartialEq, Eq, Structural)]
pub struct CropRect {
    pub left: u32,
    pub top: u32,
    pub width: u32,
    pub height: u32,
}

/// The smaller of two integers.
pub open spec fn min_int(a: int, b: int) -> int {
    if a <= b {
        a
    } else {
        b
    }
}

/// Where a span of `size` pixels centered on `point` starts, pushed back
/// inside an extent of `extent` pixels (and to 0 when it does not fit).
pub open spec fn centered_start(point: int, extent: int, size: int) -> int {
    let start: int = min_int(point - size / 2, extent - size);
    if start < 0 {
        0
    } else {
        start
    }
}

/// The crop around a click at `(x, y)` in an image of `image_width` by
/// `image_height` pixels: 400x300 centered on the click, shifted to stay inside
/// the image, and cut to the image where it is smaller than that.
pub open spec fn click_crop_spec(x: u32, y: u32, image_width: u32, image_height: u32) -> CropRect {
    let left: int = centered_start(x as int, image_width as int, CLICK_CROP_WIDTH as int);
    let top: int = centered_start(y as int, image_height as int, CLICK_CROP_HEIGHT as int);
    CropRect {
        left: left as u32,
        top: top as u32,
        width: min_int(CLICK_CROP_WIDTH as int, image_width - left) as u32,
        height: min_int(CLICK_CROP_HEIGHT as int, image_height - top) as u32,
    }
}

fn min_u32(a: u32, b: u32) -> (r: u32)
    ensures
        r == min_int(a as int, b as int),
{
    if a <= b {
        a
    } else {
        b
    }
}

/// Computes the crop around a click at `(x, y)` of an image of
/// `image_width` by `image_height` pixels.
pub fn click_crop_rect(x: u32, y: u32, image_width: u32, image_height: u32) -> (r: CropRect)
    ensures
        r == click_crop_spec(x, y, image_width, image_height),
{
    let half_w: u32 = CLICK_CROP_WIDTH / 2;
    let half_h: u32 = CLICK_CROP_HEIGHT / 2;
    let left: u32 = if x >= half_w {
        min_u32(x - half_w, image_width.saturating_sub(CLICK_CROP_WIDTH))
    } else {
        0
    };
    let top: u32 = if y >= half_h {
        min_u32(y - half_h, image_height.saturating_sub(CLICK_CROP_HEIGHT))
    } else {
        0
    };
    let width: u32 = min_u32(CLICK_CROP_WIDTH, image_width - left);
    let height: u32 = min_u32(CLICK_CROP_HEIGHT, image_height - top);
    CropRect { left, top, width, height }
}

/// The bounds of the active window in image space.
#[derive(Debug, Clone, Copy, PartialEq, Eq, Structural)]
pub struct WindowBounds {
    pub x: u32,
    pub y: u32,
    pub width: u32,
    pub height: u32,
}

/// The crop of the active window: the window's rectangle with its corner
/// pulled inside the image and its size cut to the image. `None`, meaning that
/// the full screenshot stands in, when no window was detected, the window is
/// degenerate, or the image is empty.
pub open spec fn window_crop_spec(
    window: Option<WindowBounds>,
    image_width: u32,
    image_height: u32,
) -> Option<CropRect> {
    match window {
        None => None,
        Some(w) => if w.width == 0 || w.height == 0 || image_width == 0 || image_height == 0 {
            None
        } else {
            let left: int = min_int(w.x as int, image_width - 1);
            let top: int = min_int(w.y as int, image_height - 1);
            Some(
                CropRect {
                    left: left as u32,
                    top: top as u32,
                    width: min_int(w.width as int, image_width - left) as u32,
                    height: min_int(w.height as int, image_height - top) as u32,
                },
            )
        },
    }
}

/// Computes the crop of the active window, or `None` where the full screenshot
/// stands in for it.
pub fn window_crop_rect(window: Option<WindowBounds>, image_width: u32, image_height: u32) -> (r:
    Option<CropRect>)
    ensures
        r == window_crop_spec(window, image_width, image_height),
{
    match window {
        None => None,
        Some(w) => {
            if w.width == 0 || w.height == 0 {
                return None;
            }
            let left: u32 = min_u32(w.x, image_width.saturating_sub(1));
            let top: u32 = min_u32(w.y, image_height.saturating_sub(1));
            let width: u32 = min_u32(w.width, image_width.saturating_sub(left));
            let height: u32 = min_u32(w.height, image_height.saturating_sub(top));
            if width == 0 || height == 0 {
                return None;
            }
            Some(CropRect { left, top, width, height })
        },
    }
}

} // verus!

verus! {

/// The click crop lies inside the image and is at most 400x300.
pub proof fn law_click_crop_inside_image(x: u32, y: u32, image_width: u32, image_height: u32)
    ensures
        ({
            let r = click_crop_spec(x, y, image_width, image_height);
            &&& r.left + r.width <= image_width
            &&& r.top + r.height <= image_height
            &&& r.width <= CLICK_CROP_WIDTH
            &&& r.height <= CLICK_CROP_HEIGHT
        }),
{
}

/// On an image of at least 400x300 the click crop has the full 400x300 size.
pub proof fn law_click_crop_full_size(x: u32, y: u32, image_width: u32, image_height: u32)
    ensures
        image_width >= CLICK_CROP_WIDTH ==> click_crop_spec(x, y, image_width, image_height).width
            == CLICK_CROP_WIDTH,
        image_height >= CLICK_CROP_HEIGHT ==> click_crop_spec(
            x,
            y,
            image_width,
            image_height,
        ).height == CLICK_CROP_HEIGHT,
{
}

/// A click inside the image lies inside its crop.
pub proof fn law_click_crop_contains_click(x: u32, y: u32, image_width: u32, image_height: u32)
    ensures
        ({
            let r = click_crop_spec(x, y, image_width, image_height);
            &&& x < image_width ==> r.left <= x < r.left + r.width
            &&& y < image_height ==> r.top <= y < r.top + r.height
        }),
{
}

/// Away from the image's edges the crop is centered on the click: it starts
/// 200 pixels left of and 150 pixels above it.
pub proof fn law_click_crop_centered(x: u32, y: u32, image_width: u32, image_height: u32)
    ensures
        ({
            let r = click_crop_spec(x, y, image_width, image_height);
            &&& (x >= CLICK_CROP_WIDTH / 2 && x + CLICK_CROP_WIDTH / 2 <= image_width) ==> r.left
                == x - CLICK_CROP_WIDTH / 2
            &&& (y >= CLICK_CROP_HEIGHT / 2 && y + CLICK_CROP_HEIGHT / 2 <= image_height) ==> r.top
                == y - CLICK_CROP_HEIGHT / 2
        }),
{
}

/// A window crop, where there is one, is non-empty, inside the image and no
/// larger than the window.
pub proof fn law_window_crop_inside_image(
    window: Option<WindowBounds>,
    image_width: u32,
    image_height: u32,
)
    ensures
        window_crop_spec(window, image_width, image_height) matches Some(r) ==> {
            &&& 0 < r.width <= window.unwrap().width
            &&& 0 < r.height <= window.unwrap().height
            &&& r.left + r.width <= image_width
            &&& r.top + r.height <= image_height
        },
{
}

/// A non-degenerate window that lies wholly inside the image is cropped exactly.
pub proof fn law_window_crop_exact_inside_image(w: WindowBounds, image_width: u32, image_height: u32)
    requires
        w.width > 0,
        w.height > 0,
        w.x + w.width <= image_width,
        w.y + w.height <= image_height,
    ensures
        window_crop_spec(Some(w), image_width, image_height) == Some(
            CropRect { left: w.x, top: w.y, width: w.width, height: w.height },
        ),
{
}

/// Only a detected, non-degenerate window on a non-empty image gets a crop of
/// its own; otherwise the full screenshot stands in.
pub proof fn law_window_crop_fallback(
    window: Option<WindowBounds>,
    image_width: u32,
    image_height: u32,
)
    ensures
        window_crop_spec(window, image_width, image_height) is None <==> (window is None
            || window.unwrap().width == 0 || window.unwrap().height == 0 || image_width == 0
            || image_height == 0),
{
}

/// The distance between two positions on a line.
pub open spec fn distance(a: int, b: int) -> int {
    if a >= b {
        a - b
    } else {
        b - a
    }
}

/// Of all placements of a crop of the same size inside the image, the click
/// crop is the one whose center lies closest to the click: it is centered on
/// the click and shifted only as far as it must be to stay inside the image.
pub proof fn law_click_crop_nearest_to_centered(
    x: u32,
    y: u32,
    image_width: u32,
    image_height: u32,
    other_left: int,
    other_top: int,
)
    ensures
        ({
            let r = click_crop_spec(x, y, image_width, image_height);
            &&& (0 <= other_left && other_left + r.width <= image_width) ==> distance(
                r.left + CLICK_CROP_WIDTH / 2,
                x as int,
            ) <= distance(other_left + CLICK_CROP_WIDTH / 2, x as int)
            &&& (0 <= other_top && other_top + r.height <= image_height) ==> distance(
                r.top + CLICK_CROP_HEIGHT / 2,
                y as int,
            ) <= distance(other_top + CLICK_CROP_HEIGHT / 2, y as int)
        }),
{
}

/// A click closer than half a crop to an edge of the image puts the crop
/// against that edge: left of x = 200 the crop starts at column 0, above
/// y = 150 at row 0, and within 200 (150) pixels of the right (bottom) edge of
/// an image at least 400 (300) pixels wide (high) it ends at that edge.
pub proof fn law_click_crop_against_edges(x: u32, y: u32, image_width: u32, image_height: u32)
    ensures
        ({
            let r = click_crop_spec(x, y, image_width, image_height);
            &&& x < CLICK_CROP_WIDTH / 2 ==> r.left == 0
            &&& y < CLICK_CROP_HEIGHT / 2 ==> r.top == 0
            &&& (image_width >= CLICK_CROP_WIDTH && x + CLICK_CROP_WIDTH / 2 >= image_width)
                ==> r.left + r.width == image_width
            &&& (image_height >= CLICK_CROP_HEIGHT && y + CLICK_CROP_HEIGHT / 2 >= image_height)
                ==> r.top + r.height == image_height
        }),
{
}

/// When the window's corner lies inside the image, the window crop is exactly
/// the visible part of the window: a column (row) is in the crop if and only
/// if it is in the window and in the image.
pub proof fn law_window_crop_is_visible_part(
    w: WindowBounds,
    image_width: u32,
    image_height: u32,
    column: int,
    row: int,
)
    requires
        w.width > 0,
        w.height > 0,
        w.x < image_width,
        w.y < image_height,
    ensures
        window_crop_spec(Some(w), image_width, image_height) is Some,
        ({
            let r = window_crop_spec(Some(w), image_width, image_height).unwrap();
            &&& (r.left <= column < r.left + r.width) <==> (w.x <= column < w.x + w.width
                && column < image_width)
            &&& (r.top <= row < r.top + r.height) <==> (w.y <= row < w.y + w.height && row
                < image_height)
        }),
{
}

/// A window whose corner lies right of (below) the image is cut down to the
/// image's last column (row), one pixel wide (high); otherwise the crop starts
/// at the window's own corner.
pub proof fn law_window_crop_corner(w: WindowBounds, image_width: u32, image_height: u32)
    requires
        window_crop_spec(Some(w), image_width, image_height) is Some,
    ensures
        ({
            let r = window_crop_spec(Some(w), image_width, image_height).unwrap();
            &&& w.x < image_width ==> r.left == w.x
            &&& w.x >= image_width ==> r.left == image_width - 1 && r.width == 1
            &&& w.y < image_height ==> r.top == w.y
            &&& w.y >= image_height ==> r.top == image_height - 1 && r.height == 1
        }),
{
}

} // verus!

verus! {

/// Crops the 400x300 region around a click at `(x, y)` out of the full screenshot.
pub fn click_crop(full: &Image, x: u32, y: u32) -> (out: Image)
    ensures
        is_crop_of(out@, full@, click_crop_spec(x, y, full@.width, full@.height)),
{
    let r = click_crop_rect(x, y, full.width(), full.height());
    proof {
        law_click_crop_inside_image(x, y, full@.width, full@.height);
    }
    crop_rgba(full, r)
}

/// Crops the active window out of the full screenshot; `None` where the full
/// screenshot stands in for the window crop.
pub fn window_crop(full: &Image, window: Option<WindowBounds>) -> (out: Option<Image>)
    ensures
        match window_crop_spec(window, full@.width, full@.height) {
            None => out is None,
            Some(r) => out matches Some(img) && is_crop_of(img@, full@, r),
        },
{
    match window_crop_rect(window, full.width(), full.height()) {
        None => None,
        Some(r) => {
            proof {
                law_window_crop_inside_image(window, full@.width, full@.height);
            }
            Some(crop_rgba(full, r))
        },
    }
}

/// Capture result holding the three screenshot relative paths and fallback flag.
pub struct CaptureResult {
    pub screenshots: StepScreenshots,
}

} // verus!

verus! {

/// The character of the decimal digit `d`.
pub open spec fn digit_char(d: int) -> char {
    if d == 0 {
        '0'
    } else if d == 1 {
        '1'
    } else if d == 2 {
        '2'
    } else if d == 3 {
        '3'
    } else if d == 4 {
        '4'
    } else if d == 5 {
        '5'
    } else if d == 6 {
        '6'
    } else if d == 7 {
        '7'
    } else if d == 8 {
        '8'
    } else {
        '9'
    }
}

/// The decimal text of `n`, without sign or leading zeros.
pub open spec fn decimal_text(n: nat) -> Seq<char>
    decreases n,
{
    if n < 10 {
        seq![digit_char(n as int)]
    } else {
        decimal_text(n / 10).push(digit_char((n % 10) as int))
    }
}

/// Renders `n` in decimal with its `Display` impl (`ToString::to_string`),
/// which writes the digits without sign, padding or leading zeros.
#[verifier::external_body]
fn decimal_usize(n: usize) -> (s: String)
    ensures
        s@ == decimal_text(n as nat),
{
    n.to_string()
}

/// The file name of screenshot `kind` of step `step`, e.g. `0_full.png`.
pub open spec fn shot_file_name(step: nat, kind: Seq<char>) -> Seq<char> {
    decimal_text(step) + "_"@ + kind + ".png"@
}

/// The path of that file relative to the session directory, e.g. `shots/0_full.png`.
pub open spec fn shot_path(step: nat, kind: Seq<char>) -> Seq<char> {
    "shots/"@ + shot_file_name(step, kind)
}

/// The file name of screenshot `kind` (`full`, `click` or `window`) of step
/// `step_index`.
pub fn screenshot_file_name(step_index: usize, kind: &str) -> (s: String)
    ensures
        s@ == shot_file_name(step_index as nat, kind@),
{
    decimal_usize(step_index).concat("_").concat(kind).concat(".png")
}

fn relative_shot_path(step_index: usize, kind: &str) -> (s: String)
    ensures
        s@ == shot_path(step_index as nat, kind@),
{
    let name = screenshot_file_name(step_index, kind);
    String::from_str("shots/").concat(name.as_str())
}

/// The screenshot paths recorded for step `step_index`, relative to the session
/// directory.
pub fn step_screenshots(step_index: usize, window_crop_fallback: bool) -> (s: StepScreenshots)
    ensures
        s.full_screen@ == shot_path(step_index as nat, "full"@),
        s.click_crop@ == shot_path(step_index as nat, "click"@),
        s.window_crop@ == shot_path(step_index as nat, "window"@),
        s.window_crop_fallback == window_crop_fallback,
{
    StepScreenshots {
        full_screen: relative_shot_path(step_index, "full"),
        window_crop: relative_shot_path(step_index, "window"),
        click_crop: relative_shot_path(step_index, "click"),
        window_crop_fallback,
    }
}

/// The paths recorded for a step whose screenshots could not be taken: all
/// empty, with the window crop marked as a fallback.
pub fn placeholder_screenshots() -> (s: StepScreenshots)
    ensures
        s.full_screen@ == Seq::<char>::empty(),
        s.click_crop@ == Seq::<char>::empty(),
        s.window_crop@ == Seq::<char>::empty(),
        s.window_crop_fallback,
{
    StepScreenshots {
        full_screen: String::new(),
        window_crop: String::new(),
        click_crop: String::new(),
        window_crop_fallback: true,
    }
}

/// A decimal digit character.
pub open spec fn is_digit_char(c: char) -> bool {
    '0' <= c && c <= '9'
}

proof fn lemma_decimal_digits(n: nat)
    ensures
        decimal_text(n).len() >= 1,
        forall|i: int| 0 <= i < decimal_text(n).len() ==> is_digit_char(#[trigger] decimal_text(n)[i]),
    decreases n,
{
    if n >= 10 {
        lemma_decimal_digits(n / 10);
    }
}

proof fn lemma_digit_char_injective(d1: int, d2: int)
    requires
        0 <= d1 < 10,
        0 <= d2 < 10,
        digit_char(d1) == digit_char(d2),
    ensures
        d1 == d2,
{
}

proof fn lemma_decimal_injective(a: nat, b: nat)
    requires
        decimal_text(a) == decimal_text(b),
    ensures
        a == b,
    decreases a,
{
    lemma_decimal_digits(a);
    lemma_decimal_digits(b);
    if a < 10 && b < 10 {
        assert(decimal_text(a) == seq![digit_char(a as int)]);
        assert(decimal_text(b) == seq![digit_char(b as int)]);
        assert(seq![digit_char(a as int)][0] == digit_char(a as int));
        assert(seq![digit_char(b as int)][0] == digit_char(b as int));
        lemma_digit_char_injective(a as int, b as int);
    } else if a < 10 {
        lemma_decimal_digits(b / 10);
        assert(decimal_text(b).len() == decimal_text(b / 10).len() + 1);
    } else if b < 10 {
        lemma_decimal_digits(a / 10);
        assert(decimal_text(a).len() == decimal_text(a / 10).len() + 1);
    } else {
        let da = decimal_text(a / 10);
        let db = decimal_text(b / 10);
        assert(decimal_text(a) == da.push(digit_char((a % 10) as int)));
        assert(decimal_text(b) == db.push(digit_char((b % 10) as int)));
        assert(da == decimal_text(a).drop_last());
        assert(db == decimal_text(b).drop_last());
        lemma_decimal_injective(a / 10, b / 10);
        assert(decimal_text(a).last() == digit_char((a % 10) as int));
        assert(decimal_text(b).last() == digit_char((b % 10) as int));
        lemma_digit_char_injective((a % 10) as int, (b % 10) as int);
    }
}

/// One of the three screenshot kinds of a step.
pub open spec fn is_shot_kind(kind: Seq<char>) -> bool {
    kind == "full"@ || kind == "click"@ || kind == "window"@
}

/// Every screenshot of a session is saved under a name of its own: two
/// screenshot paths are equal only for the same step and the same kind.
pub proof fn law_screenshot_paths_distinct(i: nat, j: nat, k1: Seq<char>, k2: Seq<char>)
    requires
        is_shot_kind(k1),
        is_shot_kind(k2),
        shot_path(i, k1) == shot_path(j, k2),
    ensures
        i == j,
        k1 == k2,
{
    reveal_strlit("shots/");
    reveal_strlit("_");
    reveal_strlit(".png");
    reveal_strlit("full");
    reveal_strlit("click");
    reveal_strlit("window");
    let d1 = decimal_text(i);
    let d2 = decimal_text(j);
    lemma_decimal_digits(i);
    lemma_decimal_digits(j);
    let n1 = shot_file_name(i, k1);
    let n2 = shot_file_name(j, k2);
    assert(n1 == shot_path(i, k1).subrange(6, shot_path(i, k1).len() as int));
    assert(n2 == shot_path(j, k2).subrange(6, shot_path(j, k2).len() as int));
    assert(n1 == n2);
    if d1.len() < d2.len() {
        assert(n1[d1.len() as int] == '_');
        assert(n2[d1.len() as int] == d2[d1.len() as int]);
        assert(is_digit_char(d2[d1.len() as int]));
    } else if d2.len() < d1.len() {
        assert(n2[d2.len() as int] == '_');
        assert(n1[d2.len() as int] == d1[d2.len() as int]);
        assert(is_digit_char(d1[d2.len() as int]));
    } else {
        assert(d1 == n1.subrange(0, d1.len() as int));
        assert(d2 == n2.subrange(0, d2.len() as int));
        lemma_decimal_injective(i, j);
        assert(k1.len() == k2.len());
    }
}

} // verus!

verus! {

/// The crops of one step and the paths recorded for its screenshots.
pub struct StepCrops {
    /// The region around the event.
    pub click: Image,
    /// The active window, or `None` where the full screenshot stands in.
    pub window: Option<Image>,
    /// The paths of the three files, relative to the session directory.
    pub screenshots: StepScreenshots,
}

/// Computes, from the full screenshot of step `step_index`, the crop around the
/// event at `(x, y)` and the crop of the active window `window` (when one was
/// detected), with the screenshot paths to record for the step.
pub fn crop_step(
    step_index: usize,
    full: &Image,
    x: u32,
    y: u32,
    window: Option<WindowBounds>,
) -> (r: StepCrops)
    ensures
        is_crop_of(r.click@, full@, click_crop_spec(x, y, full@.width, full@.height)),
        match window_crop_spec(window, full@.width, full@.height) {
            None => r.window is None,
            Some(rect) => r.window matches Some(img) && is_crop_of(img@, full@, rect),
        },
        r.screenshots.full_screen@ == shot_path(step_index as nat, "full"@),
        r.screenshots.click_crop@ == shot_path(step_index as nat, "click"@),
        r.screenshots.window_crop@ == shot_path(step_index as nat, "window"@),
        r.screenshots.window_crop_fallback == window_crop_spec(
            window,
            full@.width,
            full@.height,
        ) is None,
{
    let click = click_crop(full, x, y);
    let window = window_crop(full, window);
    let fallback: bool = window.is_none();
    StepCrops { click, window, screenshots: step_screenshots(step_index, fallback) }
}

} // verus!
