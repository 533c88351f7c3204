//! The renderer: configuration, input validation, and painting one frame.
//!
//! A renderer never touches a window. The caller resolves the window's
//! physical size, obtains a frame from its presentable surface (see
//! [`crate::cache`]), lets the renderer paint it and presents it.

use vstd::prelude::*;
use crate::buffer_ops::{has_expected_len, spec_expected_len};
use crate::compositor::{
    composite,
    composite_packed,
    lemma_composite_idempotent,
    lemma_composite_overwrites_whole_pixels,
    lemma_empty_source_leaves_background,
    lemma_stretch_same_size_reproduces_source,
    spec_composite,
    spec_composite_packed,
};
use crate::error::RenderError;
use crate::scaling::{
    compute_placement,
    spec_divides_by_zero,
    spec_placement,
    Placement,
    ScaleMode,
};

verus! {

/// Options from which a renderer is built. Absent fields take defaults.
#[derive(Debug, Clone)]
pub struct RenderOptions {
    /// Width of the source buffer in pixels.
    pub buffer_width: u32,
    /// Height of the source buffer in pixels.
    pub buffer_height: u32,
    /// Scale mode; `Fit` if absent.
    pub scale_mode: Option<ScaleMode>,
    /// Background colour as R, G, B, A; opaque black if absent or shorter
    /// than four bytes. Bytes after the fourth are ignored.
    pub background_color: Option<Vec<u8>>,
}

impl Default for RenderOptions {
    fn default() -> (r: Self)
        ensures
            r.buffer_width == 800,
            r.buffer_height == 600,
            r.scale_mode == Some(ScaleMode::Fit),
            r.background_color is Some,
            r.background_color->0@ == seq![0u8, 0u8, 0u8, 255u8],
    {
        RenderOptions {
            buffer_width: 800,
            buffer_height: 600,
            scale_mode: Some(ScaleMode::Fit),
            background_color: Some(vec![0u8, 0u8, 0u8, 255u8]),
        }
    }
}

/// Opaque black, the default background.
pub open spec fn spec_default_background() -> Seq<u8> {
    seq![0u8, 0u8, 0u8, 255u8]
}

/// The background that `options` asks for.
pub open spec fn spec_background_of(options: RenderOptions) -> Seq<u8> {
    match options.background_color {
        Some(color) => if color@.len() >= 4 {
            color@.subrange(0, 4)
        } else {
            spec_default_background()
        },
        None => spec_default_background(),
    }
}

/// The scale mode that `options` asks for.
pub open spec fn spec_scale_mode_of(options: RenderOptions) -> ScaleMode {
    match options.scale_mode {
        Some(mode) => mode,
        None => ScaleMode::Fit,
    }
}

/// Paints RGBA source buffers of one fixed size into frames of any size.
#[derive(Debug, Clone, Copy)]
pub struct PixelRenderer {
    buffer_width: u32,
    buffer_height: u32,
    scale_mode: ScaleMode,
    bg_color: [u8; 4],
}

impl PixelRenderer {
    /// Width of the source buffers this renderer accepts.
    pub closed spec fn spec_buffer_width(&self) -> u32 {
        self.buffer_width
    }

    /// Height of the source buffers this renderer accepts.
    pub closed spec fn spec_buffer_height(&self) -> u32 {
        self.buffer_height
    }

    /// The scale mode in force.
    pub closed spec fn spec_scale_mode(&self) -> ScaleMode {
        self.scale_mode
    }

    /// The background colour in force: four bytes, R, G, B, A.
    pub closed spec fn spec_background(&self) -> Seq<u8> {
        self.bg_color@
    }

    /// The background always has four channels.
    pub proof fn lemma_background_len(&self)
        ensures
            self.spec_background().len() == 4,
    {
    }

    /// The placement this renderer uses in a `window_width`×`window_height`
    /// window, where it has one.
    pub open spec fn spec_placement_in(&self, window_width: u32, window_height: u32) -> Placement {
        spec_placement(
            self.spec_buffer_width(),
            self.spec_buffer_height(),
            window_width,
            window_height,
            self.spec_scale_mode(),
        )
    }

    /// Whether a render request is refused: the buffer's length is not
    /// `width * height * 4`, or the source or the window has no area.
    pub open spec fn spec_rejects(
        &self,
        buffer_len: nat,
        window_width: u32,
        window_height: u32,
    ) -> bool {
        ||| buffer_len != spec_expected_len(self.spec_buffer_width(), self.spec_buffer_height())
        ||| self.spec_buffer_width() == 0
        ||| self.spec_buffer_height() == 0
        ||| window_width == 0
        ||| window_height == 0
    }

    /// The RGBA frame after a render request: untouched if the request is
    /// refused, painted otherwise.
    pub open spec fn spec_rendered(
        &self,
        before: Seq<u8>,
        buffer: Seq<u8>,
        window_width: u32,
        window_height: u32,
    ) -> Seq<u8> {
        if self.spec_rejects(buffer.len(), window_width, window_height) {
            before
        } else {
            self.spec_painted(before, buffer, window_width, window_height)
        }
    }

    /// The packed frame after a render request: untouched if the request is
    /// refused, painted otherwise.
    pub open spec fn spec_rendered_packed(
        &self,
        before: Seq<u32>,
        buffer: Seq<u8>,
        window_width: u32,
        window_height: u32,
    ) -> Seq<u32> {
        if self.spec_rejects(buffer.len(), window_width, window_height) {
            before
        } else {
            self.spec_painted_packed(before.len(), buffer, window_width, window_height)
        }
    }

    /// Creates a renderer for `buffer_width`×`buffer_height` buffers with
    /// the `Fit` mode and an opaque black background.
    pub fn new(buffer_width: u32, buffer_height: u32) -> (r: Self)
        ensures
            r.spec_buffer_width() == buffer_width,
            r.spec_buffer_height() == buffer_height,
            r.spec_scale_mode() == ScaleMode::Fit,
            r.spec_background() == spec_default_background(),
    {
        let r = PixelRenderer {
            buffer_width,
            buffer_height,
            scale_mode: ScaleMode::Fit,
            bg_color: [0u8, 0u8, 0u8, 255u8],
        };
        assert(r.bg_color@ =~= spec_default_background());
        r
    }

    /// Creates a renderer from options.
    pub fn with_options(options: RenderOptions) -> (r: Self)
        ensures
            r.spec_buffer_width() == options.buffer_width,
            r.spec_buffer_height() == options.buffer_height,
            r.spec_scale_mode() == spec_scale_mode_of(options),
            r.spec_background() == spec_background_of(options),
    {
        let bg_color: [u8; 4] = match &options.background_color {
            Some(color) => {
                if color.len() >= 4 {
                    [color[0], color[1], color[2], color[3]]
                } else {
                    [0u8, 0u8, 0u8, 255u8]
                }
            },
            None => [0u8, 0u8, 0u8, 255u8],
        };
        let scale_mode: ScaleMode = match options.scale_mode {
            Some(mode) => mode,
            None => ScaleMode::Fit,
        };
        assert(bg_color@ =~= spec_background_of(options));
        PixelRenderer {
            buffer_width: options.buffer_width,
            buffer_height: options.buffer_height,
            scale_mode,
            bg_color,
        }
    }

    /// Sets the scale mode for later renders.
    pub fn set_scale_mode(&mut self, mode: ScaleMode)
        ensures
            final(self).spec_scale_mode() == mode,
            final(self).spec_buffer_width() == old(self).spec_buffer_width(),
            final(self).spec_buffer_height() == old(self).spec_buffer_height(),
            final(self).spec_background() == old(self).spec_background(),
    {
        self.scale_mode = mode;
    }

    /// Sets the background colour for later renders.
    pub fn set_background_color(&mut self, r: u8, g: u8, b: u8, a: u8)
        ensures
            final(self).spec_background() == seq![r, g, b, a],
            final(self).spec_buffer_width() == old(self).spec_buffer_width(),
            final(self).spec_buffer_height() == old(self).spec_buffer_height(),
            final(self).spec_scale_mode() == old(self).spec_scale_mode(),
    {
        self.bg_color = [r, g, b, a];
        assert(self.bg_color@ =~= seq![r, g, b, a]);
    }

    /// Sets the size of the source buffers for later renders.
    pub fn set_buffer_size(&mut self, buffer_width: u32, buffer_height: u32)
        ensures
            final(self).spec_buffer_width() == buffer_width,
            final(self).spec_buffer_height() == buffer_height,
            final(self).spec_scale_mode() == old(self).spec_scale_mode(),
            final(self).spec_background() == old(self).spec_background(),
    {
        self.buffer_width = buffer_width;
        self.buffer_height = buffer_height;
    }

    /// Width of the source buffers this renderer accepts.
    pub fn buffer_width(&self) -> (w: u32)
        ensures
            w == self.spec_buffer_width(),
    {
        self.buffer_width
    }

    /// Height of the source buffers this renderer accepts.
    pub fn buffer_height(&self) -> (h: u32)
        ensures
            h == self.spec_buffer_height(),
    {
        self.buffer_height
    }

    /// The scale mode in force.
    pub fn scale_mode(&self) -> (mode: ScaleMode)
        ensures
            mode == self.spec_scale_mode(),
    {
        self.scale_mode
    }

    /// The background colour in force.
    pub fn background_color(&self) -> (color: [u8; 4])
        ensures
            color@ == self.spec_background(),
    {
        self.bg_color
    }

    /// Checks a render request before any surface is touched.
    ///
    /// Returns `Err(InvalidInput)` exactly when [`Self::spec_rejects`] holds
    /// of the buffer's length and the window's size.
    pub fn validate(&self, buffer_len: usize, window_width: u32, window_height: u32) -> (r: Result<
        (),
        RenderError,
    >)
        ensures
            self.spec_rejects(buffer_len as nat, window_width, window_height) ==> r == Err::<
                (),
                RenderError,
            >(RenderError::InvalidInput),
            !self.spec_rejects(buffer_len as nat, window_width, window_height) ==> r is Ok,
    {
        if !has_expected_len(buffer_len, self.buffer_width, self.buffer_height) {
            return Err(RenderError::InvalidInput);
        }
        if self.buffer_width == 0 || self.buffer_height == 0 {
            return Err(RenderError::InvalidInput);
        }
        if window_width == 0 || window_height == 0 {
            return Err(RenderError::InvalidInput);
        }
        Ok(())
    }

    /// Whether this renderer has no placement: its scale mode needs a ratio
    /// and its source has no area.
    pub open spec fn spec_has_no_placement(&self) -> bool {
        spec_divides_by_zero(
            self.spec_buffer_width(),
            self.spec_buffer_height(),
            self.spec_scale_mode(),
        )
    }

    /// The RGBA frame painted for a `window_width`×`window_height` window by
    /// a renderer that has a placement.
    pub open spec fn spec_painted(
        &self,
        before: Seq<u8>,
        buffer: Seq<u8>,
        window_width: u32,
        window_height: u32,
    ) -> Seq<u8>
        recommends
            !self.spec_has_no_placement(),
    {
        spec_composite(
            before,
            buffer,
            self.spec_buffer_width(),
            self.spec_buffer_height(),
            window_width,
            window_height,
            self.spec_placement_in(window_width, window_height),
            self.spec_background(),
        )
    }

    /// The packed frame painted for a `window_width`×`window_height` window
    /// by a renderer that has a placement.
    pub open spec fn spec_painted_packed(
        &self,
        len: nat,
        buffer: Seq<u8>,
        window_width: u32,
        window_height: u32,
    ) -> Seq<u32>
        recommends
            !self.spec_has_no_placement(),
    {
        spec_composite_packed(
            len,
            buffer,
            self.spec_buffer_width(),
            self.spec_buffer_height(),
            window_width,
            window_height,
            self.spec_placement_in(window_width, window_height),
            self.spec_background(),
        )
    }

    /// Paints `buffer` into an RGBA frame without judging the buffer's
    /// length or the window's size.
    ///
    /// Where the scale mode needs a ratio and the source has no area, the
    /// result is `Err(InvalidInput)` and the frame is untouched. Otherwise
    /// the placement is computed for the window's size and the whole frame
    /// is painted, background first, the scaled image over it; positions
    /// that fall outside the frame or the buffer are skipped.
    pub fn paint(
        &self,
        frame: &mut [u8],
        window_width: u32,
        window_height: u32,
        buffer: &[u8],
    ) -> (r: Result<(), RenderError>)
        ensures
            final(frame)@.len() == old(frame)@.len(),
            self.spec_has_no_placement() ==> r == Err::<(), RenderError>(
                RenderError::InvalidInput,
            ) && final(frame)@ == old(frame)@,
            !self.spec_has_no_placement() ==> r is Ok && final(frame)@ == self.spec_painted(
                old(frame)@,
                buffer@,
                window_width,
                window_height,
            ),
    {
        match compute_placement(
            self.buffer_width,
            self.buffer_height,
            window_width,
            window_height,
            self.scale_mode,
        ) {
            Err(e) => Err(e),
            Ok(placement) => {
                composite(
                    frame,
                    buffer,
                    self.buffer_width,
                    self.buffer_height,
                    window_width,
                    window_height,
                    placement,
                    self.bg_color,
                );
                Ok(())
            },
        }
    }

    /// Paints `buffer` into a frame of packed pixels without judging the
    /// buffer's length or the window's size; see [`Self::paint`].
    pub fn paint_packed(
        &self,
        frame: &mut [u32],
        window_width: u32,
        window_height: u32,
        buffer: &[u8],
    ) -> (r: Result<(), RenderError>)
        ensures
            final(frame)@.len() == old(frame)@.len(),
            self.spec_has_no_placement() ==> r == Err::<(), RenderError>(
                RenderError::InvalidInput,
            ) && final(frame)@ == old(frame)@,
            !self.spec_has_no_placement() ==> r is Ok && final(frame)@
                == self.spec_painted_packed(
                old(frame)@.len(),
                buffer@,
                window_width,
                window_height,
            ),
    {
        match compute_placement(
            self.buffer_width,
            self.buffer_height,
            window_width,
            window_height,
            self.scale_mode,
        ) {
            Err(e) => Err(e),
            Ok(placement) => {
                composite_packed(
                    frame,
                    buffer,
                    self.buffer_width,
                    self.buffer_height,
                    window_width,
                    window_height,
                    placement,
                    self.bg_color,
                );
                Ok(())
            },
        }
    }

    /// Renders `buffer` into an RGBA frame of a window that is
    /// `window_width`×`window_height` pixels.
    ///
    /// A refused request returns `Err(InvalidInput)` and leaves the frame
    /// untouched. An accepted one computes the placement for the window's
    /// size and paints the whole frame: background first, the scaled image
    /// over it.
    pub fn render(
        &self,
        frame: &mut [u8],
        window_width: u32,
        window_height: u32,
        buffer: &[u8],
    ) -> (r: Result<(), RenderError>)
        ensures
            self.spec_rejects(buffer@.len(), window_width, window_height) ==> r == Err::<
                (),
                RenderError,
            >(RenderError::InvalidInput),
            !self.spec_rejects(buffer@.len(), window_width, window_height) ==> r is Ok,
            r is Err ==> final(frame)@ == old(frame)@,
            final(frame)@ == self.spec_rendered(old(frame)@, buffer@, window_width, window_height),
    {
        match self.validate(buffer.len(), window_width, window_height) {
            Err(e) => {
                return Err(e);
            },
            Ok(_) => {},
        }
        self.paint(frame, window_width, window_height, buffer)
    }

    /// Renders `buffer` into a frame of packed pixels, for surfaces whose
    /// format is one opaque 32-bit word per pixel.
    ///
    /// Requests are accepted and refused as by [`Self::render`].
    pub fn render_packed(
        &self,
        frame: &mut [u32],
        window_width: u32,
        window_height: u32,
        buffer: &[u8],
    ) -> (r: Result<(), RenderError>)
        ensures
            self.spec_rejects(buffer@.len(), window_width, window_height) ==> r == Err::<
                (),
                RenderError,
            >(RenderError::InvalidInput),
            !self.spec_rejects(buffer@.len(), window_width, window_height) ==> r is Ok,
            r is Err ==> final(frame)@ == old(frame)@,
            final(frame)@ == self.spec_rendered_packed(
                old(frame)@,
                buffer@,
                window_width,
                window_height,
            ),
    {
        match self.validate(buffer.len(), window_width, window_height) {
            Err(e) => {
                return Err(e);
            },
            Ok(_) => {},
        }
        self.paint_packed(frame, window_width, window_height, buffer)
    }
}

/// Rendering is idempotent: a second render of the same buffer at the same
/// window size leaves the frame exactly as the first one left it.
pub proof fn lemma_render_idempotent(
    renderer: PixelRenderer,
    before: Seq<u8>,
    buffer: Seq<u8>,
    window_width: u32,
    window_height: u32,
)
    ensures
        renderer.spec_rendered(
            renderer.spec_rendered(before, buffer, window_width, window_height),
            buffer,
            window_width,
            window_height,
        ) == renderer.spec_rendered(before, buffer, window_width, window_height),
{
    if !renderer.spec_rejects(buffer.len(), window_width, window_height) {
        lemma_composite_idempotent(
            before,
            buffer,
            renderer.spec_buffer_width(),
            renderer.spec_buffer_height(),
            window_width,
            window_height,
            renderer.spec_placement_in(window_width, window_height),
            renderer.spec_background(),
        );
    }
}

/// Two accepted renders of the same buffer at the same window size produce
/// the same bytes in any two frames of the same whole number of pixels,
/// whatever the frames held.
pub proof fn lemma_render_repeatable(
    renderer: PixelRenderer,
    first: Seq<u8>,
    second: Seq<u8>,
    buffer: Seq<u8>,
    window_width: u32,
    window_height: u32,
)
    requires
        first.len() == second.len(),
        first.len() % 4 == 0,
        !renderer.spec_rejects(buffer.len(), window_width, window_height),
    ensures
        renderer.spec_rendered(first, buffer, window_width, window_height)
            == renderer.spec_rendered(second, buffer, window_width, window_height),
{
    lemma_composite_overwrites_whole_pixels(
        first,
        second,
        buffer,
        renderer.spec_buffer_width(),
        renderer.spec_buffer_height(),
        window_width,
        window_height,
        renderer.spec_placement_in(window_width, window_height),
        renderer.spec_background(),
    );
}

/// Under `Stretch`, rendering a buffer into a frame of a window that has
/// exactly the buffer's dimensions reproduces the buffer byte for byte.
pub proof fn lemma_stretch_round_trip(
    renderer: PixelRenderer,
    before: Seq<u8>,
    buffer: Seq<u8>,
)
    requires
        renderer.spec_scale_mode() == ScaleMode::Stretch,
        buffer.len() == spec_expected_len(
            renderer.spec_buffer_width(),
            renderer.spec_buffer_height(),
        ),
        before.len() == buffer.len(),
    ensures
        renderer.spec_rendered(
            before,
            buffer,
            renderer.spec_buffer_width(),
            renderer.spec_buffer_height(),
        ) == buffer,
{
    let w = renderer.spec_buffer_width();
    let h = renderer.spec_buffer_height();
    if renderer.spec_rejects(buffer.len(), w, h) {
        assert(w * h * 4 == 0) by (nonlinear_arith)
            requires
                w == 0 || h == 0,
        ;
        assert(before =~= buffer);
    } else {
        lemma_stretch_same_size_reproduces_source(before, buffer, w, h, renderer.spec_background());
    }
}

/// A buffer without pixels paints nothing but background: where the
/// renderer has a placement, as it always has under `Unscaled` and
/// `Stretch`, every whole pixel of the frame comes out in the background
/// colour.
pub proof fn lemma_empty_buffer_paints_background(
    renderer: PixelRenderer,
    before: Seq<u8>,
    buffer: Seq<u8>,
    window_width: u32,
    window_height: u32,
)
    requires
        buffer.len() == 0,
        !renderer.spec_has_no_placement(),
    ensures
        forall|i: int|
            0 <= i < (before.len() / 4) * 4 ==> #[trigger] renderer.spec_painted(
                before,
                buffer,
                window_width,
                window_height,
            )[i] == renderer.spec_background()[i % 4],
{
    lemma_empty_source_leaves_background(
        before,
        buffer,
        renderer.spec_buffer_width(),
        renderer.spec_buffer_height(),
        window_width,
        window_height,
        renderer.spec_placement_in(window_width, window_height),
        renderer.spec_background(),
    );
}

/// A refused request never touches the frame, and an accepted one comes
/// from a renderer whose source has area: no accepted render divides by
/// zero.
pub proof fn lemma_accepted_render_has_area(
    renderer: PixelRenderer,
    before: Seq<u8>,
    buffer: Seq<u8>,
    window_width: u32,
    window_height: u32,
)
    ensures
        renderer.spec_rejects(buffer.len(), window_width, window_height)
            ==> renderer.spec_rendered(before, buffer, window_width, window_height) == before,
        !renderer.spec_rejects(buffer.len(), window_width, window_height) ==> {
            &&& renderer.spec_buffer_width() > 0
            &&& renderer.spec_buffer_height() > 0
            &&& window_width > 0
            &&& window_height > 0
            &&& buffer.len() >= 4
            &&& !renderer.spec_has_no_placement()
        },
{
    let w = renderer.spec_buffer_width();
    let h = renderer.spec_buffer_height();
    if w > 0 && h > 0 {
        assert(w * h * 4 >= 4) by (nonlinear_arith)
            requires
                w >= 1,
                h >= 1,
        ;
    }
}

/// Whether the one-shot render refuses a request: the buffer's length is
/// not `buffer_width * buffer_height * 4`, or the source or the window has
/// no area.
pub open spec fn spec_one_shot_rejects(
    buffer_len: nat,
    buffer_width: u32,
    buffer_height: u32,
    window_width: u32,
    window_height: u32,
) -> bool {
    ||| buffer_len != spec_expected_len(buffer_width, buffer_height)
    ||| buffer_width == 0
    ||| buffer_height == 0
    ||| window_width == 0
    ||| window_height == 0
}

/// Renders one buffer with a renderer made for the occasion: `Fit` mode,
/// opaque black background.
///
/// The result is that of [`PixelRenderer::render`] on a renderer fresh from
/// [`PixelRenderer::new`].
pub fn render_pixels(
    frame: &mut [u8],
    window_width: u32,
    window_height: u32,
    buffer: &[u8],
    buffer_width: u32,
    buffer_height: u32,
) -> (r: Result<(), RenderError>)
    ensures
        spec_one_shot_rejects(
            buffer@.len(),
            buffer_width,
            buffer_height,
            window_width,
            window_height,
        ) ==> r == Err::<(), RenderError>(RenderError::InvalidInput) && final(frame)@ == old(
            frame,
        )@,
        !spec_one_shot_rejects(
            buffer@.len(),
            buffer_width,
            buffer_height,
            window_width,
            window_height,
        ) ==> r is Ok && final(frame)@ == spec_composite(
            old(frame)@,
            buffer@,
            buffer_width,
            buffer_height,
            window_width,
            window_height,
            spec_placement(
                buffer_width,
                buffer_height,
                window_width,
                window_height,
                ScaleMode::Fit,
            ),
            spec_default_background(),
        ),
{
    let renderer = PixelRenderer::new(buffer_width, buffer_height);
    renderer.render(frame, window_width, window_height, buffer)
}

} // verus!
