//! Copies of a source buffer into a frame, by the window's geometry.
//!
//! A frame handed to these functions is one of two things. A window-sized
//! frame holds `window_width * window_height` RGBA pixels: the image is laid
//! onto it at its placement, sampled by nearest neighbour and clipped to the
//! window, and every byte that the image does not reach keeps its value. A
//! frame that is not window-sized but has the buffer's own size is one that
//! the presentation layer scales by itself: it takes the buffer whole. Any
//! other frame is left alone.

use vstd::prelude::*;
use crate::compositor::{
    lemma_complete_source_is_sampled,
    lemma_nearest_unscaled,
    lemma_overlay_at,
    overlay,
    spec_byte_index,
    spec_covers,
    spec_nearest,
    spec_overlay,
};
use crate::scaling::{
    area,
    compute_placement,
    lemma_fill_covers_target,
    spec_placement,
    Placement,
    ScaleMode,
};

verus! {

/// Geometry of a copy: the source's size, the window's size and the
/// placement of the scaled image in the window.
#[derive(Clone, Copy, Debug)]
pub struct CopyBufferParams {
    pub buffer_width: u32,
    pub buffer_height: u32,
    pub window_width: u32,
    pub window_height: u32,
    pub offset_x: u32,
    pub offset_y: u32,
    pub scaled_width: u32,
    pub scaled_height: u32,
}

impl CopyBufferParams {
    /// The placement that the parameters describe.
    pub open spec fn spec_placement(&self) -> Placement {
        Placement {
            offset_x: self.offset_x,
            offset_y: self.offset_y,
            width: self.scaled_width,
            height: self.scaled_height,
        }
    }
}

/// The number of bytes in a `width`×`height` RGBA image.
pub open spec fn spec_expected_len(width: u32, height: u32) -> int {
    width * height * 4
}

/// What a frame holds after a whole-buffer copy: the source, if source and
/// frame both have the expected length; what it held before, if not.
pub open spec fn spec_copied(before: Seq<u8>, buffer: Seq<u8>, width: u32, height: u32) -> Seq<u8> {
    if buffer.len() == spec_expected_len(width, height) && before.len() == spec_expected_len(
        width,
        height,
    ) {
        buffer
    } else {
        before
    }
}

/// What a frame holds after a scaled copy. A window-sized frame shows, at
/// each pixel inside the placement of `params` and inside the window, the
/// nearest source pixel; a frame of another length is copied whole or left
/// alone, see [`spec_copied`].
pub open spec fn spec_scaled_copy(
    before: Seq<u8>,
    buffer: Seq<u8>,
    params: CopyBufferParams,
) -> Seq<u8> {
    if before.len() == spec_expected_len(params.window_width, params.window_height) {
        spec_overlay(
            before,
            buffer,
            params.buffer_width,
            params.buffer_height,
            params.window_width,
            params.window_height,
            params.spec_placement(),
        )
    } else {
        spec_copied(before, buffer, params.buffer_width, params.buffer_height)
    }
}

/// What a frame holds after a centred copy. A window-sized frame shows the
/// unscaled image in the middle of the window, or its top-left part where
/// the image is larger than the window; a frame of another length is copied
/// whole or left alone, see [`spec_copied`].
pub open spec fn spec_centered_copy(
    before: Seq<u8>,
    buffer: Seq<u8>,
    buffer_width: u32,
    buffer_height: u32,
    window_width: u32,
    window_height: u32,
) -> Seq<u8> {
    if before.len() == spec_expected_len(window_width, window_height) {
        spec_overlay(
            before,
            buffer,
            buffer_width,
            buffer_height,
            window_width,
            window_height,
            spec_placement(
                buffer_width,
                buffer_height,
                window_width,
                window_height,
                ScaleMode::Unscaled,
            ),
        )
    } else {
        spec_copied(before, buffer, buffer_width, buffer_height)
    }
}

/// What a frame holds after a filling copy. A window-sized frame is covered
/// by the image at its `Fill` placement; an image without area has no such
/// placement and leaves the frame as it was. A frame of another length is
/// copied whole or left alone, see [`spec_copied`].
pub open spec fn spec_fill_copy(
    before: Seq<u8>,
    buffer: Seq<u8>,
    buffer_width: u32,
    buffer_height: u32,
    window_width: u32,
    window_height: u32,
) -> Seq<u8> {
    if before.len() == spec_expected_len(window_width, window_height) {
        if buffer_width == 0 || buffer_height == 0 {
            before
        } else {
            spec_overlay(
                before,
                buffer,
                buffer_width,
                buffer_height,
                window_width,
                window_height,
                spec_placement(
                    buffer_width,
                    buffer_height,
                    window_width,
                    window_height,
                    ScaleMode::Fill,
                ),
            )
        }
    } else {
        spec_copied(before, buffer, buffer_width, buffer_height)
    }
}

/// Tells whether `len` bytes are exactly a `width`×`height` RGBA image. The
/// product is taken without overflow.
pub fn has_expected_len(len: usize, width: u32, height: u32) -> (r: bool)
    ensures
        r == (len == spec_expected_len(width, height)),
{
    let pixels: u64 = area(width, height);
    len % 4 == 0 && (len / 4) as u64 == pixels
}

/// Copies `buffer` over `frame` if both are `width`×`height` images.
fn copy_if_sized(frame: &mut [u8], buffer: &[u8], width: u32, height: u32)
    ensures
        final(frame)@ == spec_copied(old(frame)@, buffer@, width, height),
{
    let len: usize = frame.len();
    if !has_expected_len(buffer.len(), width, height) || !has_expected_len(len, width, height) {
        return ;
    }
    let mut i: usize = 0;
    while i < len
        invariant
            frame@.len() == len,
            buffer@.len() == len,
            i <= len,
            forall|j: int| 0 <= j < i ==> frame@[j] == buffer@[j],
        decreases len - i,
    {
        frame[i] = buffer[i];
        i = i + 1;
    }
    assert(frame@ =~= buffer@);
}

/// Copies a source into a frame at the placement that `params` gives.
///
/// In a window-sized frame, pixel `(offset_x + x, offset_y + y)`, for
/// `x < scaled_width` and `y < scaled_height` inside the window, takes the
/// source pixel at column `floor(x * buffer_width / scaled_width)` and row
/// `floor(y * buffer_height / scaled_height)`; every other byte keeps its
/// value. A frame that only has the buffer's size takes the buffer whole.
pub fn copy_buffer_scaled(frame: &mut [u8], buffer: &[u8], params: CopyBufferParams)
    ensures
        final(frame)@ == spec_scaled_copy(old(frame)@, buffer@, params),
{
    if has_expected_len(frame.len(), params.window_width, params.window_height) {
        overlay(
            frame,
            buffer,
            params.buffer_width,
            params.buffer_height,
            params.window_width,
            params.window_height,
            Placement {
                offset_x: params.offset_x,
                offset_y: params.offset_y,
                width: params.scaled_width,
                height: params.scaled_height,
            },
        );
    } else {
        copy_if_sized(frame, buffer, params.buffer_width, params.buffer_height);
    }
}

/// Copies a source into a frame without scaling, centred in the window.
///
/// In a window-sized frame the image sits at offset
/// `((window_width - buffer_width) / 2, (window_height - buffer_height) / 2)`,
/// each difference floored at zero, and what reaches beyond the window is
/// cut off; every other byte keeps its value. A frame that only has the
/// buffer's size takes the buffer whole.
pub fn copy_buffer_centered(
    frame: &mut [u8],
    buffer: &[u8],
    buffer_width: u32,
    buffer_height: u32,
    window_width: u32,
    window_height: u32,
)
    ensures
        final(frame)@ == spec_centered_copy(
            old(frame)@,
            buffer@,
            buffer_width,
            buffer_height,
            window_width,
            window_height,
        ),
{
    if has_expected_len(frame.len(), window_width, window_height) {
        match compute_placement(
            buffer_width,
            buffer_height,
            window_width,
            window_height,
            ScaleMode::Unscaled,
        ) {
            Ok(placement) => {
                overlay(
                    frame,
                    buffer,
                    buffer_width,
                    buffer_height,
                    window_width,
                    window_height,
                    placement,
                );
            },
            Err(_) => {},
        }
    } else {
        copy_if_sized(frame, buffer, buffer_width, buffer_height);
    }
}

/// Copies a source into a frame so that it covers the window.
///
/// In a window-sized frame every pixel takes the source pixel that the
/// `Fill` placement and the nearest-neighbour mapping give it; an image
/// without area changes nothing. A frame that only has the buffer's size
/// takes the buffer whole.
pub fn copy_buffer_fill(
    frame: &mut [u8],
    buffer: &[u8],
    buffer_width: u32,
    buffer_height: u32,
    window_width: u32,
    window_height: u32,
)
    ensures
        final(frame)@ == spec_fill_copy(
            old(frame)@,
            buffer@,
            buffer_width,
            buffer_height,
            window_width,
            window_height,
        ),
{
    if has_expected_len(frame.len(), window_width, window_height) {
        match compute_placement(
            buffer_width,
            buffer_height,
            window_width,
            window_height,
            ScaleMode::Fill,
        ) {
            Ok(placement) => {
                overlay(
                    frame,
                    buffer,
                    buffer_width,
                    buffer_height,
                    window_width,
                    window_height,
                    placement,
                );
            },
            Err(_) => {},
        }
    } else {
        copy_if_sized(frame, buffer, buffer_width, buffer_height);
    }
}

/// A window-sized frame holds a byte for every channel of every pixel of the
/// window.
pub proof fn lemma_window_sized_frame_holds(dx: int, dy: int, c: int, len: nat, ww: u32, wh: u32)
    requires
        len == spec_expected_len(ww, wh),
        0 <= dx < ww,
        0 <= dy < wh,
        0 <= c < 4,
    ensures
        0 <= spec_byte_index(dx, dy, c, ww) < (len / 4) * 4,
{
    assert(0 <= dy * ww + dx < wh * ww) by (nonlinear_arith)
        requires
            0 <= dx < ww,
            0 <= dy < wh,
    ;
    assert(ww * wh * 4 == (wh * ww) * 4) by (nonlinear_arith);
}

/// The scaled copy, pixel by pixel. In a window-sized frame and with a
/// complete buffer, the pixel at `(offset_x + x, offset_y + y)` inside the
/// placement and inside the window is the source pixel at column
/// `spec_nearest(x, buffer_width, scaled_width)` and row
/// `spec_nearest(y, buffer_height, scaled_height)`.
pub proof fn lemma_scaled_copy_places_pixel(
    before: Seq<u8>,
    buffer: Seq<u8>,
    params: CopyBufferParams,
    x: int,
    y: int,
    c: int,
)
    requires
        before.len() == spec_expected_len(params.window_width, params.window_height),
        buffer.len() == spec_expected_len(params.buffer_width, params.buffer_height),
        params.buffer_width > 0,
        params.buffer_height > 0,
        0 <= x < params.scaled_width,
        0 <= y < params.scaled_height,
        params.offset_x + x < params.window_width,
        params.offset_y + y < params.window_height,
        0 <= c < 4,
    ensures
        spec_scaled_copy(before, buffer, params)[spec_byte_index(
            params.offset_x + x,
            params.offset_y + y,
            c,
            params.window_width,
        )] == buffer[(spec_nearest(
            y,
            params.buffer_height as int,
            params.scaled_height as int,
        ) * params.buffer_width + spec_nearest(
            x,
            params.buffer_width as int,
            params.scaled_width as int,
        )) * 4 + c],
{
    let dx = params.offset_x + x;
    let dy = params.offset_y + y;
    let p = params.spec_placement();
    lemma_window_sized_frame_holds(
        dx,
        dy,
        c,
        before.len(),
        params.window_width,
        params.window_height,
    );
    lemma_overlay_at(
        before,
        buffer,
        params.buffer_width,
        params.buffer_height,
        params.window_width,
        params.window_height,
        p,
        dx,
        dy,
        c,
    );
    assert(spec_covers(p, dx, dy));
    lemma_complete_source_is_sampled(
        dx,
        dy,
        buffer.len() as int / 4,
        params.buffer_width,
        params.buffer_height,
        params.window_width,
        params.window_height,
        p,
    );
}

/// The scaled copy leaves alone what the placement does not cover: in a
/// window-sized frame, a pixel of the window outside the placement keeps its
/// bytes.
pub proof fn lemma_scaled_copy_keeps_the_rest(
    before: Seq<u8>,
    buffer: Seq<u8>,
    params: CopyBufferParams,
    dx: int,
    dy: int,
    c: int,
)
    requires
        before.len() == spec_expected_len(params.window_width, params.window_height),
        0 <= dx < params.window_width,
        0 <= dy < params.window_height,
        0 <= c < 4,
        !spec_covers(params.spec_placement(), dx, dy),
    ensures
        spec_scaled_copy(before, buffer, params)[spec_byte_index(
            dx,
            dy,
            c,
            params.window_width,
        )] == before[spec_byte_index(dx, dy, c, params.window_width)],
{
    lemma_window_sized_frame_holds(
        dx,
        dy,
        c,
        before.len(),
        params.window_width,
        params.window_height,
    );
    lemma_overlay_at(
        before,
        buffer,
        params.buffer_width,
        params.buffer_height,
        params.window_width,
        params.window_height,
        params.spec_placement(),
        dx,
        dy,
        c,
    );
}

/// The centred copy, pixel by pixel. In a window-sized frame and with a
/// complete buffer, source pixel `(x, y)` appears at
/// `(offset_x + x, offset_y + y)` wherever that lies inside the window, the
/// offsets being those of the `Unscaled` placement.
pub proof fn lemma_centered_copy_places_pixel(
    before: Seq<u8>,
    buffer: Seq<u8>,
    bw: u32,
    bh: u32,
    ww: u32,
    wh: u32,
    x: int,
    y: int,
    c: int,
)
    requires
        before.len() == spec_expected_len(ww, wh),
        buffer.len() == spec_expected_len(bw, bh),
        0 <= x < bw,
        0 <= y < bh,
        spec_placement(bw, bh, ww, wh, ScaleMode::Unscaled).offset_x + x < ww,
        spec_placement(bw, bh, ww, wh, ScaleMode::Unscaled).offset_y + y < wh,
        0 <= c < 4,
    ensures
        spec_centered_copy(before, buffer, bw, bh, ww, wh)[spec_byte_index(
            spec_placement(bw, bh, ww, wh, ScaleMode::Unscaled).offset_x + x,
            spec_placement(bw, bh, ww, wh, ScaleMode::Unscaled).offset_y + y,
            c,
            ww,
        )] == buffer[(y * bw + x) * 4 + c],
{
    let p = spec_placement(bw, bh, ww, wh, ScaleMode::Unscaled);
    let dx = p.offset_x + x;
    let dy = p.offset_y + y;
    lemma_window_sized_frame_holds(dx, dy, c, before.len(), ww, wh);
    lemma_overlay_at(before, buffer, bw, bh, ww, wh, p, dx, dy, c);
    assert(spec_covers(p, dx, dy));
    lemma_complete_source_is_sampled(dx, dy, buffer.len() as int / 4, bw, bh, ww, wh, p);
    lemma_nearest_unscaled(x, bw as int);
    lemma_nearest_unscaled(y, bh as int);
}

/// The centred copy leaves alone what the image does not reach: in a
/// window-sized frame, a pixel of the window outside the centred placement
/// keeps its bytes.
pub proof fn lemma_centered_copy_keeps_the_rest(
    before: Seq<u8>,
    buffer: Seq<u8>,
    bw: u32,
    bh: u32,
    ww: u32,
    wh: u32,
    dx: int,
    dy: int,
    c: int,
)
    requires
        before.len() == spec_expected_len(ww, wh),
        0 <= dx < ww,
        0 <= dy < wh,
        0 <= c < 4,
        !spec_covers(spec_placement(bw, bh, ww, wh, ScaleMode::Unscaled), dx, dy),
    ensures
        spec_centered_copy(before, buffer, bw, bh, ww, wh)[spec_byte_index(dx, dy, c, ww)]
            == before[spec_byte_index(dx, dy, c, ww)],
{
    lemma_window_sized_frame_holds(dx, dy, c, before.len(), ww, wh);
    lemma_overlay_at(
        before,
        buffer,
        bw,
        bh,
        ww,
        wh,
        spec_placement(bw, bh, ww, wh, ScaleMode::Unscaled),
        dx,
        dy,
        c,
    );
}

/// The filling copy covers the window: in a window-sized frame and with a
/// complete buffer of an image that has area, every pixel of the window
/// shows a source pixel, the one that the `Fill` placement gives it.
pub proof fn lemma_fill_copy_covers_window(
    before: Seq<u8>,
    buffer: Seq<u8>,
    bw: u32,
    bh: u32,
    ww: u32,
    wh: u32,
    dx: int,
    dy: int,
    c: int,
)
    requires
        before.len() == spec_expected_len(ww, wh),
        buffer.len() == spec_expected_len(bw, bh),
        bw > 0,
        bh > 0,
        0 <= dx < ww,
        0 <= dy < wh,
        0 <= c < 4,
    ensures
        0 <= spec_nearest(
            dx,
            bw as int,
            spec_placement(bw, bh, ww, wh, ScaleMode::Fill).width as int,
        ) < bw,
        0 <= spec_nearest(
            dy,
            bh as int,
            spec_placement(bw, bh, ww, wh, ScaleMode::Fill).height as int,
        ) < bh,
        spec_fill_copy(before, buffer, bw, bh, ww, wh)[spec_byte_index(dx, dy, c, ww)]
            == buffer[(spec_nearest(
            dy,
            bh as int,
            spec_placement(bw, bh, ww, wh, ScaleMode::Fill).height as int,
        ) * bw + spec_nearest(
            dx,
            bw as int,
            spec_placement(bw, bh, ww, wh, ScaleMode::Fill).width as int,
        )) * 4 + c],
{
    let p = spec_placement(bw, bh, ww, wh, ScaleMode::Fill);
    lemma_fill_covers_target(bw, bh, ww, wh);
    lemma_window_sized_frame_holds(dx, dy, c, before.len(), ww, wh);
    lemma_overlay_at(before, buffer, bw, bh, ww, wh, p, dx, dy, c);
    assert(spec_covers(p, dx, dy));
    lemma_complete_source_is_sampled(dx, dy, buffer.len() as int / 4, bw, bh, ww, wh, p);
}

} // verus!
