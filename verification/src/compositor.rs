//! The pixel compositor: paints a destination frame from a source image, a
//! placement and a background colour.
//!
//! Every destination pixel is decided on its own. A pixel that the placement
//! covers shows the nearest source pixel; every other pixel shows the
//! background. Nothing of what the frame held before survives except a
//! trailing fragment shorter than one pixel.

use vstd::prelude::*;
use vstd::arithmetic::div_mod::lemma_fundamental_div_mod_converse;
use crate::scaling::{area, spec_placement, Placement, ScaleMode};

verus! {

/// Bytes per pixel of an RGBA image.
pub const BYTES_PER_PIXEL: usize = 4;

/// Whether the placement rectangle contains the target pixel `(dx, dy)`.
pub open spec fn spec_covers(p: Placement, dx: int, dy: int) -> bool {
    &&& p.offset_x <= dx < p.offset_x + p.width
    &&& p.offset_y <= dy < p.offset_y + p.height
}

/// Nearest-neighbour inverse mapping along one axis: the source coordinate
/// shown at `local`, where `extent` destination pixels show `source` source
/// pixels. It is `floor(local * source / extent)`, kept within the source.
pub open spec fn spec_nearest(local: int, source: int, extent: int) -> int
    recommends
        0 <= local < extent,
        source > 0,
{
    let raw = (local * source) / extent;
    if raw > source - 1 {
        source - 1
    } else {
        raw
    }
}

/// The index of the source pixel shown at target pixel `(dx, dy)`, if there
/// is one: the pixel must lie inside the target and inside the placement,
/// and the sampled pixel must lie inside the `source_pixels` whole pixels
/// that the source buffer holds.
pub open spec fn spec_source_pixel(
    dx: int,
    dy: int,
    source_pixels: int,
    sw: u32,
    sh: u32,
    tw: u32,
    th: u32,
    p: Placement,
) -> Option<int> {
    if 0 <= dx < tw && 0 <= dy < th && spec_covers(p, dx, dy) && sw > 0 && sh > 0 {
        let sx = spec_nearest(dx - p.offset_x, sw as int, p.width as int);
        let sy = spec_nearest(dy - p.offset_y, sh as int, p.height as int);
        let sp = sy * sw + sx;
        if sp < source_pixels {
            Some(sp)
        } else {
            None
        }
    } else {
        None
    }
}

/// The source pixel shown at the destination pixel with row-major index
/// `pixel`, rows being `tw` pixels long.
pub open spec fn spec_source_pixel_at(
    pixel: int,
    source_pixels: int,
    sw: u32,
    sh: u32,
    tw: u32,
    th: u32,
    p: Placement,
) -> Option<int> {
    if tw == 0 {
        None
    } else {
        spec_source_pixel(pixel % (tw as int), pixel / (tw as int), source_pixels, sw, sh, tw, th, p)
    }
}

/// Byte `i` of the painted RGBA frame.
pub open spec fn spec_composite_byte(
    i: int,
    before: Seq<u8>,
    source: Seq<u8>,
    sw: u32,
    sh: u32,
    tw: u32,
    th: u32,
    p: Placement,
    background: Seq<u8>,
) -> u8 {
    if i >= (before.len() / 4) * 4 {
        before[i]
    } else {
        match spec_source_pixel_at(i / 4, source.len() as int / 4, sw, sh, tw, th, p) {
            Some(sp) => source[sp * 4 + i % 4],
            None => background[i % 4],
        }
    }
}

/// The painted RGBA frame: as long as the frame was before, every whole
/// pixel decided by [`spec_source_pixel_at`].
pub open spec fn spec_composite(
    before: Seq<u8>,
    source: Seq<u8>,
    sw: u32,
    sh: u32,
    tw: u32,
    th: u32,
    p: Placement,
    background: Seq<u8>,
) -> Seq<u8> {
    Seq::new(
        before.len(),
        |i: int| spec_composite_byte(i, before, source, sw, sh, tw, th, p, background),
    )
}

/// Byte `i` of a frame onto which the image was laid without a background.
pub open spec fn spec_overlay_byte(
    i: int,
    before: Seq<u8>,
    source: Seq<u8>,
    sw: u32,
    sh: u32,
    tw: u32,
    th: u32,
    p: Placement,
) -> u8 {
    if i >= (before.len() / 4) * 4 {
        before[i]
    } else {
        match spec_source_pixel_at(i / 4, source.len() as int / 4, sw, sh, tw, th, p) {
            Some(sp) => source[sp * 4 + i % 4],
            None => before[i],
        }
    }
}

/// The frame after the image was laid onto it: every pixel that
/// [`spec_source_pixel_at`] finds a source pixel for shows that pixel, every
/// other byte is as before.
pub open spec fn spec_overlay(
    before: Seq<u8>,
    source: Seq<u8>,
    sw: u32,
    sh: u32,
    tw: u32,
    th: u32,
    p: Placement,
) -> Seq<u8> {
    Seq::new(before.len(), |i: int| spec_overlay_byte(i, before, source, sw, sh, tw, th, p))
}

/// The packed word of an opaque pixel: alpha 255 in the top byte, then red,
/// green and blue.
pub open spec fn spec_pack(r: u8, g: u8, b: u8) -> u32 {
    (0xFF00_0000 + r * 0x1_0000 + g * 0x100 + b) as u32
}

/// Word `i` of the painted packed frame.
pub open spec fn spec_composite_word(
    i: int,
    source: Seq<u8>,
    sw: u32,
    sh: u32,
    tw: u32,
    th: u32,
    p: Placement,
    background: Seq<u8>,
) -> u32 {
    match spec_source_pixel_at(i, source.len() as int / 4, sw, sh, tw, th, p) {
        Some(sp) => spec_pack(source[sp * 4], source[sp * 4 + 1], source[sp * 4 + 2]),
        None => spec_pack(background[0], background[1], background[2]),
    }
}

/// The painted packed frame of `len` words. Source alpha is dropped: every
/// word is opaque.
pub open spec fn spec_composite_packed(
    len: nat,
    source: Seq<u8>,
    sw: u32,
    sh: u32,
    tw: u32,
    th: u32,
    p: Placement,
    background: Seq<u8>,
) -> Seq<u32> {
    Seq::new(len, |i: int| spec_composite_word(i, source, sw, sh, tw, th, p, background))
}

/// Word `i` of a packed frame onto which the image was laid without a
/// background.
pub open spec fn spec_overlay_word(
    i: int,
    before: Seq<u32>,
    source: Seq<u8>,
    sw: u32,
    sh: u32,
    tw: u32,
    th: u32,
    p: Placement,
) -> u32 {
    match spec_source_pixel_at(i, source.len() as int / 4, sw, sh, tw, th, p) {
        Some(sp) => spec_pack(source[sp * 4], source[sp * 4 + 1], source[sp * 4 + 2]),
        None => before[i],
    }
}

/// The packed frame after the image was laid onto it: every pixel that
/// [`spec_source_pixel_at`] finds a source pixel for shows that pixel,
/// opaque; every other word is as before.
pub open spec fn spec_overlay_packed(
    before: Seq<u32>,
    source: Seq<u8>,
    sw: u32,
    sh: u32,
    tw: u32,
    th: u32,
    p: Placement,
) -> Seq<u32> {
    Seq::new(before.len(), |i: int| spec_overlay_word(i, before, source, sw, sh, tw, th, p))
}

/// Samples one axis; see [`spec_nearest`].
fn nearest(local: u32, source: u32, extent: u32) -> (r: u32)
    requires
        local < extent,
        source > 0,
    ensures
        r == spec_nearest(local as int, source as int, extent as int),
        r < source,
{
    let raw: u64 = area(local, source) / extent as u64;
    if raw > (source - 1) as u64 {
        source - 1
    } else {
        raw as u32
    }
}

/// Finds the source pixel for target pixel `(col, row)`; see
/// [`spec_source_pixel`].
fn source_pixel(
    col: u32,
    row: usize,
    source_pixels: usize,
    sw: u32,
    sh: u32,
    tw: u32,
    th: u32,
    p: Placement,
) -> (r: Option<usize>)
    requires
        col < tw,
    ensures
        match r {
            Some(sp) => spec_source_pixel(col as int, row as int, source_pixels as int, sw, sh, tw, th, p)
                == Some(sp as int) && sp < source_pixels,
            None => spec_source_pixel(col as int, row as int, source_pixels as int, sw, sh, tw, th, p)
                is None,
        },
{
    if row >= th as usize || sw == 0 || sh == 0 {
        return None;
    }
    let line: u32 = row as u32;
    if col < p.offset_x || col - p.offset_x >= p.width {
        return None;
    }
    if line < p.offset_y || line - p.offset_y >= p.height {
        return None;
    }
    let sx: u32 = nearest(col - p.offset_x, sw, p.width);
    let sy: u32 = nearest(line - p.offset_y, sh, p.height);
    let start: u64 = area(sy, sw);
    assert(sy * sw <= (u32::MAX - 1) * u32::MAX) by (nonlinear_arith)
        requires
            sy <= u32::MAX - 1,
            sw <= u32::MAX,
    ;
    let sp: u64 = start + sx as u64;
    if sp < source_pixels as u64 {
        Some(sp as usize)
    } else {
        None
    }
}

/// Steps a row-major position one pixel forward.
proof fn lemma_next_position(index: int, row: int, col: int, tw: int)
    by (nonlinear_arith)
    requires
        tw > 0,
        0 <= col < tw,
        0 <= row,
        index == row * tw + col,
    ensures
        col + 1 < tw ==> index + 1 == row * tw + (col + 1),
        col + 1 == tw ==> index + 1 == (row + 1) * tw + 0,
        row <= index,
{
}

/// Paints an RGBA frame.
///
/// `frame` is the destination, row-major with `target_w` pixels per row and
/// four bytes per pixel; `source` is the image, `source_w` pixels per row, in
/// the same layout. Every whole pixel of `frame` is overwritten: with the
/// nearest source pixel where `placement` covers it, inside the
/// `target_w`×`target_h` target, and the sampled pixel exists in `source`;
/// with `background` everywhere else. A position that falls outside either
/// buffer is skipped, never a fault.
pub fn composite(
    frame: &mut [u8],
    source: &[u8],
    source_w: u32,
    source_h: u32,
    target_w: u32,
    target_h: u32,
    placement: Placement,
    background: [u8; 4],
)
    ensures
        final(frame)@.len() == old(frame)@.len(),
        final(frame)@ == spec_composite(
            old(frame)@,
            source@,
            source_w,
            source_h,
            target_w,
            target_h,
            placement,
            background@,
        ),
{
    let pixels: usize = frame.len() / BYTES_PER_PIXEL;
    let source_pixels: usize = source.len() / BYTES_PER_PIXEL;
    let ghost before = frame@;
    let ghost painted = spec_composite(
        before,
        source@,
        source_w,
        source_h,
        target_w,
        target_h,
        placement,
        background@,
    );
    let mut index: usize = 0;
    let mut col: u32 = 0;
    let mut row: usize = 0;
    while index < pixels
        invariant
            frame@.len() == before.len(),
            before.len() <= usize::MAX,
            source@.len() <= usize::MAX,
            pixels == before.len() / 4,
            source_pixels == source@.len() / 4,
            index <= pixels,
            target_w > 0 ==> index == row * target_w + col && col < target_w,
            painted == spec_composite(
                before,
                source@,
                source_w,
                source_h,
                target_w,
                target_h,
                placement,
                background@,
            ),
            forall|j: int| 0 <= j < 4 * index ==> frame@[j] == painted[j],
            forall|j: int| 4 * index <= j < before.len() ==> frame@[j] == before[j],
        decreases pixels - index,
    {
        let sampled: Option<usize> = if target_w == 0 {
            None
        } else {
            proof {
                lemma_fundamental_div_mod_converse(
                    index as int,
                    target_w as int,
                    row as int,
                    col as int,
                );
            }
            source_pixel(
                col,
                row,
                source_pixels,
                source_w,
                source_h,
                target_w,
                target_h,
                placement,
            )
        };
        assert(match sampled {
            Some(sp) => spec_source_pixel_at(
                index as int,
                source_pixels as int,
                source_w,
                source_h,
                target_w,
                target_h,
                placement,
            ) == Some(sp as int) && sp < source_pixels,
            None => spec_source_pixel_at(
                index as int,
                source_pixels as int,
                source_w,
                source_h,
                target_w,
                target_h,
                placement,
            ) is None,
        });
        let base: usize = index * BYTES_PER_PIXEL;
        match sampled {
            Some(sp) => {
                let from: usize = sp * BYTES_PER_PIXEL;
                frame[base] = source[from];
                frame[base + 1] = source[from + 1];
                frame[base + 2] = source[from + 2];
                frame[base + 3] = source[from + 3];
            },
            None => {
                frame[base] = background[0];
                frame[base + 1] = background[1];
                frame[base + 2] = background[2];
                frame[base + 3] = background[3];
            },
        }
        assert forall|j: int| base <= j < base + 4 implies frame@[j] == painted[j] by {
            assert(j / 4 == index as int);
            assert(j % 4 == j - base);
        }
        if target_w > 0 {
            proof {
                lemma_next_position(index as int, row as int, col as int, target_w as int);
            }
            if col + 1 == target_w {
                col = 0;
                row = row + 1;
            } else {
                col = col + 1;
            }
        }
        index = index + 1;
    }
    assert(frame@ =~= painted);
}

/// Lays the image onto an RGBA frame and leaves the rest of the frame alone.
///
/// The geometry is that of [`composite`]: a pixel of `frame` that
/// `placement` covers, inside the `target_w`×`target_h` target, takes the
/// nearest source pixel if that pixel exists in `source`. Every other byte
/// keeps its value; no background is painted.
pub fn overlay(
    frame: &mut [u8],
    source: &[u8],
    source_w: u32,
    source_h: u32,
    target_w: u32,
    target_h: u32,
    placement: Placement,
)
    ensures
        final(frame)@.len() == old(frame)@.len(),
        final(frame)@ == spec_overlay(
            old(frame)@,
            source@,
            source_w,
            source_h,
            target_w,
            target_h,
            placement,
        ),
{
    let pixels: usize = frame.len() / BYTES_PER_PIXEL;
    let source_pixels: usize = source.len() / BYTES_PER_PIXEL;
    let ghost before = frame@;
    let ghost laid = spec_overlay(
        before,
        source@,
        source_w,
        source_h,
        target_w,
        target_h,
        placement,
    );
    let mut index: usize = 0;
    let mut col: u32 = 0;
    let mut row: usize = 0;
    while index < pixels
        invariant
            frame@.len() == before.len(),
            before.len() <= usize::MAX,
            source@.len() <= usize::MAX,
            pixels == before.len() / 4,
            source_pixels == source@.len() / 4,
            index <= pixels,
            target_w > 0 ==> index == row * target_w + col && col < target_w,
            laid == spec_overlay(
                before,
                source@,
                source_w,
                source_h,
                target_w,
                target_h,
                placement,
            ),
            forall|j: int| 0 <= j < 4 * index ==> frame@[j] == laid[j],
            forall|j: int| 4 * index <= j < before.len() ==> frame@[j] == before[j],
        decreases pixels - index,
    {
        let sampled: Option<usize> = if target_w == 0 {
            None
        } else {
            proof {
                lemma_fundamental_div_mod_converse(
                    index as int,
                    target_w as int,
                    row as int,
                    col as int,
                );
            }
            source_pixel(
                col,
                row,
                source_pixels,
                source_w,
                source_h,
                target_w,
                target_h,
                placement,
            )
        };
        assert(match sampled {
            Some(sp) => spec_source_pixel_at(
                index as int,
                source_pixels as int,
                source_w,
                source_h,
                target_w,
                target_h,
                placement,
            ) == Some(sp as int) && sp < source_pixels,
            None => spec_source_pixel_at(
                index as int,
                source_pixels as int,
                source_w,
                source_h,
                target_w,
                target_h,
                placement,
            ) is None,
        });
        let base: usize = index * BYTES_PER_PIXEL;
        match sampled {
            Some(sp) => {
                let from: usize = sp * BYTES_PER_PIXEL;
                frame[base] = source[from];
                frame[base + 1] = source[from + 1];
                frame[base + 2] = source[from + 2];
                frame[base + 3] = source[from + 3];
            },
            None => {},
        }
        assert forall|j: int| base <= j < base + 4 implies frame@[j] == laid[j] by {
            assert(j / 4 == index as int);
            assert(j % 4 == j - base);
        }
        if target_w > 0 {
            proof {
                lemma_next_position(index as int, row as int, col as int, target_w as int);
            }
            if col + 1 == target_w {
                col = 0;
                row = row + 1;
            } else {
                col = col + 1;
            }
        }
        index = index + 1;
    }
    assert(frame@ =~= laid);
}

/// Packs an opaque pixel into one word; see [`spec_pack`].
pub fn pack_opaque(r: u8, g: u8, b: u8) -> (word: u32)
    ensures
        word == spec_pack(r, g, b),
{
    0xFF00_0000u32 + (r as u32) * 0x1_0000u32 + (g as u32) * 0x100u32 + (b as u32)
}

/// Paints a frame of packed pixels, one 32-bit word each.
///
/// The geometry is that of [`composite`]. Each word written is opaque and
/// holds red, green and blue in that order below the alpha byte; the
/// source's alpha channel, and the background's, are not used. Every word of
/// `frame` is overwritten.
pub fn composite_packed(
    frame: &mut [u32],
    source: &[u8],
    source_w: u32,
    source_h: u32,
    target_w: u32,
    target_h: u32,
    placement: Placement,
    background: [u8; 4],
)
    ensures
        final(frame)@.len() == old(frame)@.len(),
        final(frame)@ == spec_composite_packed(
            old(frame)@.len(),
            source@,
            source_w,
            source_h,
            target_w,
            target_h,
            placement,
            background@,
        ),
{
    let pixels: usize = frame.len();
    let source_pixels: usize = source.len() / BYTES_PER_PIXEL;
    let ghost painted = spec_composite_packed(
        frame@.len(),
        source@,
        source_w,
        source_h,
        target_w,
        target_h,
        placement,
        background@,
    );
    let clear: u32 = pack_opaque(background[0], background[1], background[2]);
    let mut index: usize = 0;
    let mut col: u32 = 0;
    let mut row: usize = 0;
    while index < pixels
        invariant
            frame@.len() == pixels,
            source@.len() <= usize::MAX,
            source_pixels == source@.len() / 4,
            index <= pixels,
            target_w > 0 ==> index == row * target_w + col && col < target_w,
            clear == spec_pack(background@[0], background@[1], background@[2]),
            painted == spec_composite_packed(
                pixels as nat,
                source@,
                source_w,
                source_h,
                target_w,
                target_h,
                placement,
                background@,
            ),
            forall|j: int| 0 <= j < index ==> frame@[j] == painted[j],
        decreases pixels - index,
    {
        let sampled: Option<usize> = if target_w == 0 {
            None
        } else {
            proof {
                lemma_fundamental_div_mod_converse(
                    index as int,
                    target_w as int,
                    row as int,
                    col as int,
                );
            }
            source_pixel(
                col,
                row,
                source_pixels,
                source_w,
                source_h,
                target_w,
                target_h,
                placement,
            )
        };
        match sampled {
            Some(sp) => {
                let from: usize = sp * BYTES_PER_PIXEL;
                frame[index] = pack_opaque(source[from], source[from + 1], source[from + 2]);
            },
            None => {
                frame[index] = clear;
            },
        }
        if target_w > 0 {
            proof {
                lemma_next_position(index as int, row as int, col as int, target_w as int);
            }
            if col + 1 == target_w {
                col = 0;
                row = row + 1;
            } else {
                col = col + 1;
            }
        }
        index = index + 1;
    }
    assert(frame@ =~= painted);
}

/// Lays the image onto a frame of packed pixels and leaves the rest of the
/// frame alone.
///
/// The geometry is that of [`overlay`], the words are those of
/// [`composite_packed`]: each word written is opaque, and the source's alpha
/// channel is not used. A word that the image does not reach keeps its
/// value.
pub fn overlay_packed(
    frame: &mut [u32],
    source: &[u8],
    source_w: u32,
    source_h: u32,
    target_w: u32,
    target_h: u32,
    placement: Placement,
)
    ensures
        final(frame)@.len() == old(frame)@.len(),
        final(frame)@ == spec_overlay_packed(
            old(frame)@,
            source@,
            source_w,
            source_h,
            target_w,
            target_h,
            placement,
        ),
{
    let pixels: usize = frame.len();
    let source_pixels: usize = source.len() / BYTES_PER_PIXEL;
    let ghost before = frame@;
    let ghost painted = spec_overlay_packed(
        before,
        source@,
        source_w,
        source_h,
        target_w,
        target_h,
        placement,
    );
    let mut index: usize = 0;
    let mut col: u32 = 0;
    let mut row: usize = 0;
    while index < pixels
        invariant
            frame@.len() == pixels,
            source@.len() <= usize::MAX,
            source_pixels == source@.len() / 4,
            index <= pixels,
            target_w > 0 ==> index == row * target_w + col && col < target_w,
            before.len() == pixels,
            painted == spec_overlay_packed(
                before,
                source@,
                source_w,
                source_h,
                target_w,
                target_h,
                placement,
            ),
            forall|j: int| 0 <= j < index ==> frame@[j] == painted[j],
            forall|j: int| index <= j < pixels ==> frame@[j] == before[j],
        decreases pixels - index,
    {
        let sampled: Option<usize> = if target_w == 0 {
            None
        } else {
            proof {
                lemma_fundamental_div_mod_converse(
                    index as int,
                    target_w as int,
                    row as int,
                    col as int,
                );
            }
            source_pixel(
                col,
                row,
                source_pixels,
                source_w,
                source_h,
                target_w,
                target_h,
                placement,
            )
        };
        match sampled {
            Some(sp) => {
                let from: usize = sp * BYTES_PER_PIXEL;
                frame[index] = pack_opaque(source[from], source[from + 1], source[from + 2]);
            },
            None => {},
        }
        if target_w > 0 {
            proof {
                lemma_next_position(index as int, row as int, col as int, target_w as int);
            }
            if col + 1 == target_w {
                col = 0;
                row = row + 1;
            } else {
                col = col + 1;
            }
        }
        index = index + 1;
    }
    assert(frame@ =~= painted);
}

/// A sampled coordinate lies inside the source.
pub proof fn lemma_nearest_in_source(local: int, source: int, extent: int)
    by (nonlinear_arith)
    requires
        0 <= local < extent,
        source > 0,
    ensures
        0 <= spec_nearest(local, source, extent) < source,
{
}

/// Sampling an axis at its own scale is the identity.
pub proof fn lemma_nearest_unscaled(local: int, extent: int)
    by (nonlinear_arith)
    requires
        0 <= local < extent,
    ensures
        spec_nearest(local, extent, extent) == local,
{
}

/// Where the image is enlarged by a whole factor, every source pixel becomes
/// a block of `factor` destination pixels along the axis.
pub proof fn lemma_nearest_whole_factor(local: int, source: int, factor: int)
    by (nonlinear_arith)
    requires
        factor >= 1,
        source > 0,
        0 <= local < source * factor,
    ensures
        spec_nearest(local, source, source * factor) == local / factor,
{
    assert((local * source) / (source * factor) == local / factor) by {
        vstd::arithmetic::div_mod::lemma_div_denominator(local * source, source, factor);
        vstd::arithmetic::div_mod::lemma_div_multiples_vanish(local, source);
        assert((local * source) / source == local) by {
            vstd::arithmetic::mul::lemma_mul_is_commutative(local, source);
        }
    }
    assert(local / factor < source) by {
        vstd::arithmetic::div_mod::lemma_div_by_multiple_is_strongly_ordered(
            local,
            source * factor,
            source,
            factor,
        );
        vstd::arithmetic::div_mod::lemma_div_multiples_vanish(source, factor);
        vstd::arithmetic::mul::lemma_mul_is_commutative(source, factor);
    }
}

/// Sampling never runs backwards: a destination pixel further along shows a
/// source pixel at least as far along.
pub proof fn lemma_nearest_monotonic(first: int, second: int, source: int, extent: int)
    by (nonlinear_arith)
    requires
        0 <= first <= second,
        second < extent,
        source > 0,
    ensures
        spec_nearest(first, source, extent) <= spec_nearest(second, source, extent),
{
    assert(first * source <= second * source);
    assert((first * source) / extent <= (second * source) / extent) by {
        vstd::arithmetic::div_mod::lemma_div_is_ordered(first * source, second * source, extent);
    }
}

/// A sampled pixel index is never negative and lies inside the source's
/// `sw * sh` pixels.
pub proof fn lemma_source_pixel_in_image(
    dx: int,
    dy: int,
    source_pixels: int,
    sw: u32,
    sh: u32,
    tw: u32,
    th: u32,
    p: Placement,
)
    ensures
        match spec_source_pixel(dx, dy, source_pixels, sw, sh, tw, th, p) {
            Some(sp) => 0 <= sp < source_pixels && sp < sw * sh,
            None => true,
        },
{
    if spec_source_pixel(dx, dy, source_pixels, sw, sh, tw, th, p) is Some {
        let sx = spec_nearest(dx - p.offset_x, sw as int, p.width as int);
        let sy = spec_nearest(dy - p.offset_y, sh as int, p.height as int);
        lemma_nearest_in_source(dx - p.offset_x, sw as int, p.width as int);
        lemma_nearest_in_source(dy - p.offset_y, sh as int, p.height as int);
        assert(0 <= sy * sw + sx < sw * sh) by (nonlinear_arith)
            requires
                0 <= sx < sw,
                0 <= sy < sh,
        ;
    }
}

/// A source that holds all of its `sw * sh` pixels is sampled at every
/// target pixel that the placement covers: the pixel shown is the one at
/// column `spec_nearest(dx - offset_x, ..)` and row
/// `spec_nearest(dy - offset_y, ..)`.
pub proof fn lemma_complete_source_is_sampled(
    dx: int,
    dy: int,
    source_pixels: int,
    sw: u32,
    sh: u32,
    tw: u32,
    th: u32,
    p: Placement,
)
    requires
        0 <= dx < tw,
        0 <= dy < th,
        spec_covers(p, dx, dy),
        sw > 0,
        sh > 0,
        source_pixels >= sw * sh,
    ensures
        spec_source_pixel(dx, dy, source_pixels, sw, sh, tw, th, p) == Some(
            spec_nearest(dy - p.offset_y, sh as int, p.height as int) * sw + spec_nearest(
                dx - p.offset_x,
                sw as int,
                p.width as int,
            ),
        ),
        0 <= spec_nearest(dx - p.offset_x, sw as int, p.width as int) < sw,
        0 <= spec_nearest(dy - p.offset_y, sh as int, p.height as int) < sh,
{
    let sx = spec_nearest(dx - p.offset_x, sw as int, p.width as int);
    let sy = spec_nearest(dy - p.offset_y, sh as int, p.height as int);
    lemma_nearest_in_source(dx - p.offset_x, sw as int, p.width as int);
    lemma_nearest_in_source(dy - p.offset_y, sh as int, p.height as int);
    assert(0 <= sy * sw + sx < sw * sh) by (nonlinear_arith)
        requires
            0 <= sx < sw,
            0 <= sy < sh,
    ;
}

/// The byte index of channel `c` of target pixel `(dx, dy)`, rows being `tw`
/// pixels long.
pub open spec fn spec_byte_index(dx: int, dy: int, c: int, tw: u32) -> int {
    (dy * tw + dx) * 4 + c
}

/// Reading a frame by column and row: byte `spec_byte_index(dx, dy, c, tw)`
/// belongs to pixel `dy * tw + dx`, whose column is `dx` and whose row is
/// `dy`.
pub proof fn lemma_byte_index(dx: int, dy: int, c: int, tw: u32)
    requires
        0 <= dx < tw,
        0 <= dy,
        0 <= c < 4,
    ensures
        spec_byte_index(dx, dy, c, tw) >= 0,
        spec_byte_index(dx, dy, c, tw) / 4 == dy * tw + dx,
        spec_byte_index(dx, dy, c, tw) % 4 == c,
        (dy * tw + dx) % (tw as int) == dx,
        (dy * tw + dx) / (tw as int) == dy,
{
    assert(dy * tw >= 0) by (nonlinear_arith)
        requires
            dy >= 0,
            tw > 0,
    ;
    lemma_fundamental_div_mod_converse(dy * tw + dx, tw as int, dy, dx);
}

/// What an overlaid frame shows at channel `c` of target pixel `(dx, dy)`:
/// the sampled source pixel's channel where there is one, the old byte where
/// there is none.
pub proof fn lemma_overlay_at(
    before: Seq<u8>,
    source: Seq<u8>,
    sw: u32,
    sh: u32,
    tw: u32,
    th: u32,
    p: Placement,
    dx: int,
    dy: int,
    c: int,
)
    requires
        0 <= dx < tw,
        0 <= dy,
        0 <= c < 4,
        spec_byte_index(dx, dy, c, tw) < (before.len() / 4) * 4,
    ensures
        spec_overlay(before, source, sw, sh, tw, th, p)[spec_byte_index(dx, dy, c, tw)]
            == match spec_source_pixel(dx, dy, source.len() as int / 4, sw, sh, tw, th, p) {
            Some(sp) => source[sp * 4 + c],
            None => before[spec_byte_index(dx, dy, c, tw)],
        },
{
    lemma_byte_index(dx, dy, c, tw);
}

/// What a painted frame shows at channel `c` of target pixel `(dx, dy)`: the
/// sampled source pixel's channel where there is one, the background's where
/// there is none.
pub proof fn lemma_composite_at(
    before: Seq<u8>,
    source: Seq<u8>,
    sw: u32,
    sh: u32,
    tw: u32,
    th: u32,
    p: Placement,
    background: Seq<u8>,
    dx: int,
    dy: int,
    c: int,
)
    requires
        0 <= dx < tw,
        0 <= dy,
        0 <= c < 4,
        spec_byte_index(dx, dy, c, tw) < (before.len() / 4) * 4,
    ensures
        spec_composite(before, source, sw, sh, tw, th, p, background)[spec_byte_index(
            dx,
            dy,
            c,
            tw,
        )] == match spec_source_pixel(dx, dy, source.len() as int / 4, sw, sh, tw, th, p) {
            Some(sp) => source[sp * 4 + c],
            None => background[c],
        },
{
    lemma_byte_index(dx, dy, c, tw);
}

/// Painting is laying the image onto a frame that holds the background:
/// where every whole pixel of the frame is the background colour, overlay
/// and composite agree.
pub proof fn lemma_overlay_on_background_is_composite(
    before: Seq<u8>,
    source: Seq<u8>,
    sw: u32,
    sh: u32,
    tw: u32,
    th: u32,
    p: Placement,
    background: Seq<u8>,
)
    requires
        forall|i: int| 0 <= i < (before.len() / 4) * 4 ==> before[i] == background[i % 4],
    ensures
        spec_overlay(before, source, sw, sh, tw, th, p) == spec_composite(
            before,
            source,
            sw,
            sh,
            tw,
            th,
            p,
            background,
        ),
{
    assert(spec_overlay(before, source, sw, sh, tw, th, p) =~= spec_composite(
        before,
        source,
        sw,
        sh,
        tw,
        th,
        p,
        background,
    ));
}

/// Row and column of a pixel index inside a `w`×`h` image.
proof fn lemma_position_in_image(pixel: int, w: int, h: int)
    by (nonlinear_arith)
    requires
        0 <= pixel < w * h,
        0 <= w,
        0 <= h,
    ensures
        w > 0,
        h > 0,
        0 <= pixel % w < w,
        0 <= pixel / w < h,
        (pixel / w) * w + pixel % w == pixel,
{
}

/// Painting is idempotent: painting a painted frame again with the same
/// arguments changes nothing.
pub proof fn lemma_composite_idempotent(
    before: Seq<u8>,
    source: Seq<u8>,
    sw: u32,
    sh: u32,
    tw: u32,
    th: u32,
    p: Placement,
    background: Seq<u8>,
)
    ensures
        spec_composite(
            spec_composite(before, source, sw, sh, tw, th, p, background),
            source,
            sw,
            sh,
            tw,
            th,
            p,
            background,
        ) == spec_composite(before, source, sw, sh, tw, th, p, background),
{
    let once = spec_composite(before, source, sw, sh, tw, th, p, background);
    let twice = spec_composite(once, source, sw, sh, tw, th, p, background);
    assert(twice =~= once);
}

/// A frame made of whole pixels is painted without regard to what it held:
/// two frames of the same length come out equal.
pub proof fn lemma_composite_overwrites_whole_pixels(
    first: Seq<u8>,
    second: Seq<u8>,
    source: Seq<u8>,
    sw: u32,
    sh: u32,
    tw: u32,
    th: u32,
    p: Placement,
    background: Seq<u8>,
)
    requires
        first.len() == second.len(),
        first.len() % 4 == 0,
    ensures
        spec_composite(first, source, sw, sh, tw, th, p, background) == spec_composite(
            second,
            source,
            sw,
            sh,
            tw,
            th,
            p,
            background,
        ),
{
    assert(spec_composite(first, source, sw, sh, tw, th, p, background) =~= spec_composite(
        second,
        source,
        sw,
        sh,
        tw,
        th,
        p,
        background,
    ));
}

/// Stretching an image onto a frame of exactly its own dimensions reproduces
/// the image byte for byte: no background remains.
pub proof fn lemma_stretch_same_size_reproduces_source(
    before: Seq<u8>,
    source: Seq<u8>,
    w: u32,
    h: u32,
    background: Seq<u8>,
)
    requires
        source.len() == w * h * 4,
        before.len() == source.len(),
    ensures
        spec_composite(
            before,
            source,
            w,
            h,
            w,
            h,
            spec_placement(w, h, w, h, ScaleMode::Stretch),
            background,
        ) == source,
{
    let p = spec_placement(w, h, w, h, ScaleMode::Stretch);
    let painted = spec_composite(before, source, w, h, w, h, p, background);
    assert forall|i: int| 0 <= i < source.len() implies painted[i] == source[i] by {
        let pixel = i / 4;
        lemma_position_in_image(pixel, w as int, h as int);
        lemma_nearest_unscaled(pixel % (w as int), w as int);
        lemma_nearest_unscaled(pixel / (w as int), h as int);
        assert(spec_source_pixel_at(pixel, source.len() as int / 4, w, h, w, h, p) == Some(pixel));
    }
    assert(painted =~= source);
}

/// A source that holds no whole pixel leaves every whole pixel of the frame
/// equal to the background, whatever the placement.
pub proof fn lemma_empty_source_leaves_background(
    before: Seq<u8>,
    source: Seq<u8>,
    sw: u32,
    sh: u32,
    tw: u32,
    th: u32,
    p: Placement,
    background: Seq<u8>,
)
    requires
        source.len() < 4,
    ensures
        forall|i: int|
            0 <= i < (before.len() / 4) * 4 ==> #[trigger] spec_composite(
                before,
                source,
                sw,
                sh,
                tw,
                th,
                p,
                background,
            )[i] == background[i % 4],
{
    let painted = spec_composite(before, source, sw, sh, tw, th, p, background);
    assert forall|i: int| 0 <= i < (before.len() / 4) * 4 implies #[trigger] painted[i]
        == background[i % 4] by {
        if tw > 0 {
            lemma_source_pixel_in_image(
                (i / 4) % (tw as int),
                (i / 4) / (tw as int),
                0,
                sw,
                sh,
                tw,
                th,
                p,
            );
        }
    }
}

/// A pixel that the placement does not cover, or that lies outside the
/// target, shows the background.
pub proof fn lemma_uncovered_pixel_is_background(
    before: Seq<u8>,
    source: Seq<u8>,
    sw: u32,
    sh: u32,
    tw: u32,
    th: u32,
    p: Placement,
    background: Seq<u8>,
    i: int,
)
    requires
        0 <= i < (before.len() / 4) * 4,
        tw == 0 || (i / 4) / (tw as int) >= th || !spec_covers(
            p,
            (i / 4) % (tw as int),
            (i / 4) / (tw as int),
        ),
    ensures
        spec_composite(before, source, sw, sh, tw, th, p, background)[i] == background[i % 4],
{
}

/// The channels of a packed word, read back with shifts and masks.
pub proof fn lemma_pack_channels(r: u8, g: u8, b: u8)
    ensures
        spec_pack(r, g, b) >> 24 == 0xFF,
        (spec_pack(r, g, b) >> 16) & 0xFF == r,
        (spec_pack(r, g, b) >> 8) & 0xFF == g,
        spec_pack(r, g, b) & 0xFF == b,
{
    let word: u32 = spec_pack(r, g, b);
    let wide_r: u32 = r as u32;
    let wide_g: u32 = g as u32;
    let wide_b: u32 = b as u32;
    assert(word == 0xFF00_0000u32 + wide_r * 0x1_0000u32 + wide_g * 0x100u32 + wide_b);
    assert(word >> 24 == 0xFF && (word >> 16) & 0xFF == wide_r && (word >> 8) & 0xFF == wide_g
        && word & 0xFF == wide_b) by (bit_vector)
        requires
            wide_r <= 0xFF,
            wide_g <= 0xFF,
            wide_b <= 0xFF,
            word == 0xFF00_0000u32 + wide_r * 0x1_0000u32 + wide_g * 0x100u32 + wide_b,
    ;
}

} // verus!
