//! System tray: the menu actions, the tray icon pixels (decoded from the embedded PNG,
//! with a drawn fallback when decoding fails).

use vstd::prelude::*;

verus! {

/// What the user picked in the tray menu.
#[derive(Debug, Clone, Copy, PartialEq, Eq, Structural)]
pub enum TrayAction {
    ShowWindow,
    Quit,
}

/// The action of a menu event: the show item, the quit item, or neither.
pub fn menu_action(event_id: &str, show_id: &str, quit_id: &str) -> (r: Option<TrayAction>)
    ensures
        r == (if event_id@ == show_id@ {
            Some(TrayAction::ShowWindow)
        } else if event_id@ == quit_id@ {
            Some(TrayAction::Quit)
        } else {
            None
        }),
{
    let e = String::from_str(event_id);
    if e == String::from_str(show_id) {
        Some(TrayAction::ShowWindow)
    } else if e == String::from_str(quit_id) {
        Some(TrayAction::Quit)
    } else {
        None
    }
}

/// Side of the fallback icon, in pixels.
pub const FALLBACK_SIDE: u32 = 16;

/// The fallback pixel at (x, y) lies in the dot: a disc of radius 6 around (7, 7).
pub open spec fn in_dot(x: int, y: int) -> bool {
    (x - 7) * (x - 7) + (y - 7) * (y - 7) <= 36
}

/// Byte `i` of the fallback icon: RGBA rows of 16 pixels, blue dot on transparency.
pub open spec fn fallback_byte(i: int) -> u8 {
    let p = i / 4;
    let c = i % 4;
    if in_dot(p % 16, p / 16) {
        if c == 0 { 0x4f } else if c == 1 { 0x7c } else { 0xff }
    } else {
        0
    }
}

/// The fallback tray icon: 16×16 RGBA pixels, a blue dot on transparency.
pub fn fallback_icon_rgba() -> (v: Vec<u8>)
    ensures
        v@.len() == 16 * 16 * 4,
        forall|i: int| 0 <= i < v@.len() ==> #[trigger] v@[i] == fallback_byte(i),
{
    let mut v: Vec<u8> = Vec::new();
    let mut y: u32 = 0;
    while y < 16
        invariant
            y <= 16,
            v@.len() == 64 * y,
            forall|i: int| 0 <= i < v@.len() ==> #[trigger] v@[i] == fallback_byte(i),
        decreases 16 - y,
    {
        let mut x: u32 = 0;
        while x < 16
            invariant
                y < 16,
                x <= 16,
                v@.len() == 64 * y + 4 * x,
                forall|i: int| 0 <= i < v@.len() ==> #[trigger] v@[i] == fallback_byte(i),
            decreases 16 - x,
        {
            let dx: i32 = x as i32 - 7;
            let dy: i32 = y as i32 - 7;
            assert(-7 <= dx <= 8 && -7 <= dy <= 8);
            assert(dx * dx <= 64 && dy * dy <= 64 && dx * dx >= 0 && dy * dy >= 0) by (nonlinear_arith)
                requires
                    -7 <= dx <= 8,
                    -7 <= dy <= 8,
            ;
            let inside = dx * dx + dy * dy <= 36;
            assert(inside == in_dot(x as int, y as int));
            let base = v.len();
            let ghost p = (64 * y + 4 * x) / 4;
            assert(p == 16 * y + x);
            assert(p % 16 == x && p / 16 == y);
            if inside {
                v.push(0x4f);
                v.push(0x7c);
                v.push(0xff);
                v.push(0xff);
            } else {
                v.push(0);
                v.push(0);
                v.push(0);
                v.push(0);
            }
            assert forall|i: int| base <= i < v@.len() implies #[trigger] v@[i] == fallback_byte(i)
                by {
                assert(i / 4 == p);
                assert(i % 4 == i - base);
            }
            x = x + 1;
        }
        y = y + 1;
    }
    v
}

/// What `image::load_from_memory` followed by `to_rgba8` / `into_raw` gives for
/// encoded bytes: the RGBA bytes with width and height, or none when decoding fails.
pub uninterp spec fn png_rgba(bytes: Seq<u8>) -> Option<(Seq<u8>, u32, u32)>;

/// Decodes an encoded image into RGBA bytes (`image::load_from_memory`, converted
/// with `to_rgba8`). The byte buffer of an `ImageBuffer` holds at least
/// width × height × 4 bytes.
#[verifier::external_body]
fn decode_rgba(bytes: &[u8]) -> (r: Option<(Vec<u8>, u32, u32)>)
    ensures
        match r {
            Some(d) => png_rgba(bytes@) == Some((d.0@, d.1, d.2)) && d.0@.len() >= 4 * d.1 * d.2,
            None => png_rgba(bytes@) is None,
        },
{
    let img = image::load_from_memory(bytes).ok()?;
    let rgba = img.to_rgba8();
    let (w, h) = (rgba.width(), rgba.height());
    Some((rgba.into_raw(), w, h))
}

/// The tray icon pixels from the embedded PNG: RGBA bytes with width and height as
/// `i32`, or none when the PNG does not decode.
pub fn tray_rgba(png: &[u8]) -> (r: Option<(Vec<u8>, i32, i32)>)
    ensures
        match r {
            Some(d) => png_rgba(png@) matches Some(p) && d.0@ == p.0 && d.1 == p.1 as i32 && d.2
                == p.2 as i32,
            None => png_rgba(png@) is None,
        },
{
    match decode_rgba(png) {
        Some((raw, w, h)) => {
            assert(png_rgba(png@) == Some((raw@, w, h)));
            Some((raw, w as i32, h as i32))
        },
        None => None,
    }
}

/// The icon the tray is built with: the decoded PNG, or the drawn 16×16 dot when
/// decoding fails (the flag reports the fallback).
pub fn tray_icon_image(png: &[u8]) -> (r: (Vec<u8>, u32, u32, bool))
    ensures
        match png_rgba(png@) {
            Some(d) => r.0@ == d.0 && r.1 == d.1 && r.2 == d.2 && !r.3,
            None => r.3 && r.1 == 16 && r.2 == 16 && r.0@.len() == 1024 && forall|i: int|
                0 <= i < 1024 ==> #[trigger] r.0@[i] == fallback_byte(i),
        },
{
    match tray_rgba(png) {
        Some((raw, w, h)) => {
            let wu = w as u32;
            let hu = h as u32;
            proof {
                let p = png_rgba(png@).unwrap();
                let ww = p.1;
                let hh = p.2;
                assert((ww as i32) as u32 == ww) by (bit_vector);
                assert((hh as i32) as u32 == hh) by (bit_vector);
            }
            (raw, wu, hu, false)
        },
        None => (fallback_icon_rgba(), 16, 16, true),
    }
}

} // verus!
