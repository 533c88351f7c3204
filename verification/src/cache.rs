//! The per-window surface cache.
//!
//! A presentable surface is expensive to create, so one is kept per live
//! window, together with the size it was made for. The cache owns the
//! surfaces but never looks inside them: `S` is whatever pairs a graphics
//! context with its surface.
//!
//! A render is a conversation. [`SurfaceCache::begin`] takes the window's
//! entry out of the cache and answers with a [`Step`]: create a surface, or
//! paint into the one handed out. The caller does what the step says and
//! reports back, with [`RenderAttempt::presented`] when the frame is on
//! screen, with [`RenderAttempt::refused`] when the renderer refused to
//! paint, or with [`RenderAttempt::faulted`] when the surface failed, which
//! answers with the next step. A render that ends without a usable surface
//! leaves the window without an entry, so the next one starts from a clean
//! slate.

use vstd::prelude::*;
use std::collections::HashMap;
use crate::error::RenderError;

verus! {

broadcast use vstd::std_specs::hash::group_hash_axioms;

/// A cached surface and the window size it was made for.
pub struct CacheEntry<S> {
    pub surface: S,
    pub width: u32,
    pub height: u32,
}

/// What the cache hands out for a render.
pub enum Checkout<S> {
    /// The window's surface, made for the window's current size: use it.
    Ready(S),
    /// The window's surface, made for another size: release it and create a
    /// new one.
    Stale(S),
    /// The window has no surface: create one.
    Absent,
}

/// The step of a render at which a surface failed.
#[derive(Clone, Copy, Debug, PartialEq, Eq, Structural)]
pub enum SurfaceFault {
    /// Creating the context or the surface.
    Create,
    /// Resizing the surface.
    Resize,
    /// Obtaining the frame.
    Frame,
    /// Presenting the frame.
    Present,
}

/// What a render does after a surface failed.
#[derive(Clone, Copy, Debug, PartialEq, Eq, Structural)]
pub enum Recovery {
    /// Release the surface and create a new one, once.
    Recreate,
    /// Release the surface, leave the window without an entry and report
    /// the error: the next render starts from a clean slate.
    Discard(RenderError),
    /// Store the surface again and report the error.
    Keep(RenderError),
}

/// The recovery policy. A surface taken from the cache that cannot be
/// resized or read is rebuilt from scratch once; a surface that was created
/// during this render gets no second chance and is discarded; a failed
/// presentation is reported and never retried, and the surface stays.
pub open spec fn spec_recovery(fault: SurfaceFault, created_now: bool) -> Recovery {
    match fault {
        SurfaceFault::Present => Recovery::Keep(RenderError::PresentationFailed),
        SurfaceFault::Create => Recovery::Discard(RenderError::ResourceAcquisitionFailed),
        _ => if created_now {
            Recovery::Discard(RenderError::ResourceAcquisitionFailed)
        } else {
            Recovery::Recreate
        },
    }
}

/// Decides what to do after `fault`; `created_now` tells whether the surface
/// was created during this render. See [`spec_recovery`].
pub fn recovery_for(fault: SurfaceFault, created_now: bool) -> (r: Recovery)
    ensures
        r == spec_recovery(fault, created_now),
{
    match fault {
        SurfaceFault::Present => Recovery::Keep(RenderError::PresentationFailed),
        SurfaceFault::Create => Recovery::Discard(RenderError::ResourceAcquisitionFailed),
        _ => {
            if created_now {
                Recovery::Discard(RenderError::ResourceAcquisitionFailed)
            } else {
                Recovery::Recreate
            }
        },
    }
}

/// A render recreates a surface at most once: whatever fails after a
/// recreation ends the render.
pub proof fn lemma_no_second_recreation(fault: SurfaceFault)
    ensures
        spec_recovery(fault, true) != Recovery::Recreate,
{
}

/// What a checkout for window `id` at size `width`×`height` hands out of
/// `entries`.
pub open spec fn spec_checkout<S>(
    entries: Map<u64, CacheEntry<S>>,
    id: u64,
    width: u32,
    height: u32,
) -> Checkout<S> {
    if entries.contains_key(id) {
        if entries[id].width == width && entries[id].height == height {
            Checkout::Ready(entries[id].surface)
        } else {
            Checkout::Stale(entries[id].surface)
        }
    } else {
        Checkout::Absent
    }
}

/// The surface that leaves `entries` when window `id` is removed or
/// overwritten.
pub open spec fn spec_displaced<S>(entries: Map<u64, CacheEntry<S>>, id: u64) -> Option<S> {
    if entries.contains_key(id) {
        Some(entries[id].surface)
    } else {
        None
    }
}

/// One surface per live window, keyed by the window's identifier.
pub struct SurfaceCache<S> {
    entries: HashMap<u64, CacheEntry<S>>,
}

impl<S> View for SurfaceCache<S> {
    type V = Map<u64, CacheEntry<S>>;

    closed spec fn view(&self) -> Map<u64, CacheEntry<S>> {
        self.entries@
    }
}

impl<S> SurfaceCache<S> {
    /// Creates a cache without entries.
    pub fn new() -> (cache: Self)
        ensures
            cache@ == Map::<u64, CacheEntry<S>>::empty(),
    {
        SurfaceCache { entries: HashMap::new() }
    }

    /// The number of windows that have a surface.
    pub fn len(&self) -> (n: usize)
        ensures
            n == self@.len(),
            self@.dom().finite(),
    {
        self.entries.len()
    }

    /// Tells whether no window has a surface.
    pub fn is_empty(&self) -> (r: bool)
        ensures
            r == (self@.len() == 0),
            self@.dom().finite(),
    {
        self.entries.len() == 0
    }

    /// Tells whether window `window_id` has a surface.
    pub fn contains(&self, window_id: u64) -> (r: bool)
        ensures
            r == self@.contains_key(window_id),
    {
        self.entries.contains_key(&window_id)
    }

    /// The size that the surface of window `window_id` was made for.
    pub fn recorded_size(&self, window_id: u64) -> (r: Option<(u32, u32)>)
        ensures
            r == if self@.contains_key(window_id) {
                Some((self@[window_id].width, self@[window_id].height))
            } else {
                None
            },
    {
        match self.entries.get(&window_id) {
            Some(entry) => Some((entry.width, entry.height)),
            None => None,
        }
    }

    /// Takes the surface of window `window_id` out of the cache for a render
    /// at the window's current size.
    ///
    /// The entry leaves the cache in every case. The surface comes back as
    /// `Ready` if it was made for `width`×`height`, as `Stale` if it was made
    /// for another size; a window without an entry gives `Absent`.
    pub fn checkout(&mut self, window_id: u64, width: u32, height: u32) -> (r: Checkout<S>)
        ensures
            r == spec_checkout(old(self)@, window_id, width, height),
            final(self)@ == old(self)@.remove(window_id),
    {
        match self.entries.remove(&window_id) {
            Some(entry) => {
                if entry.width == width && entry.height == height {
                    Checkout::Ready(entry.surface)
                } else {
                    Checkout::Stale(entry.surface)
                }
            },
            None => Checkout::Absent,
        }
    }

    /// Records `surface`, made for a `width`×`height` window, as the surface
    /// of window `window_id`. A surface that the window still had is handed
    /// back for release.
    pub fn store(&mut self, window_id: u64, surface: S, width: u32, height: u32) -> (displaced:
        Option<S>)
        ensures
            final(self)@ == old(self)@.insert(window_id, CacheEntry { surface, width, height }),
            displaced == spec_displaced(old(self)@, window_id),
    {
        match self.entries.insert(window_id, CacheEntry { surface, width, height }) {
            Some(entry) => Some(entry.surface),
            None => None,
        }
    }

    /// Removes every entry, releasing all surfaces at once.
    pub fn clear(&mut self)
        ensures
            final(self)@ == Map::<u64, CacheEntry<S>>::empty(),
    {
        self.entries.clear();
    }

    /// Begins a render of window `window_id`, whose size is now
    /// `width`×`height`.
    ///
    /// The window's entry leaves the cache. A surface made for this size is
    /// handed out to be painted; a surface made for another size is handed
    /// out to be released and replaced; a window without an entry needs a new
    /// surface.
    pub fn begin(&mut self, window_id: u64, width: u32, height: u32) -> (r: (
        RenderAttempt,
        Step<S>,
    ))
        ensures
            r.1 == spec_first_step(old(self)@, window_id, width, height),
            final(self)@ == old(self)@.remove(window_id),
            r.0.spec_window_id() == window_id,
            r.0.spec_width() == width,
            r.0.spec_height() == height,
            r.0.spec_created_now() == (r.1 is Create),
    {
        match self.checkout(window_id, width, height) {
            Checkout::Ready(surface) => (
                RenderAttempt { window_id, width, height, created_now: false },
                Step::Paint { surface },
            ),
            Checkout::Stale(surface) => (
                RenderAttempt { window_id, width, height, created_now: true },
                Step::Create { release: Some(surface) },
            ),
            Checkout::Absent => (
                RenderAttempt { window_id, width, height, created_now: true },
                Step::Create { release: None },
            ),
        }
    }

    /// Removes the entry of a window that was closed and hands its surface
    /// back for release. Other windows keep theirs.
    pub fn remove_render_surface(&mut self, window_id: u64) -> (released: Option<S>)
        ensures
            final(self)@ == old(self)@.remove(window_id),
            released == spec_displaced(old(self)@, window_id),
    {
        match self.entries.remove(&window_id) {
            Some(entry) => Some(entry.surface),
            None => None,
        }
    }
}

/// What the caller of a render does next.
pub enum Step<S> {
    /// Release `release`, if there is one, then create a context and a
    /// surface for the window at the attempt's size. Go on with
    /// [`Step::Paint`] on the new surface, or report
    /// [`SurfaceFault::Create`].
    Create { release: Option<S> },
    /// Obtain the frame of `surface`, paint it and present it. Report
    /// success, or the fault.
    Paint { surface: S },
    /// The render has failed: release `release`, if there is one, and
    /// report `error`.
    Failed { error: RenderError, release: Option<S> },
}

/// One render of one window, from the moment its entry left the cache.
pub struct RenderAttempt {
    window_id: u64,
    width: u32,
    height: u32,
    created_now: bool,
}

/// The first step of a render of window `id` at size `width`×`height`.
pub open spec fn spec_first_step<S>(
    entries: Map<u64, CacheEntry<S>>,
    id: u64,
    width: u32,
    height: u32,
) -> Step<S> {
    match spec_checkout(entries, id, width, height) {
        Checkout::Ready(surface) => Step::Paint { surface },
        Checkout::Stale(surface) => Step::Create { release: Some(surface) },
        Checkout::Absent => Step::Create { release: None },
    }
}

/// Whether a fault is reported without the surface it happened on. Only a
/// failed creation has no surface to show.
pub open spec fn spec_surface_missing<S>(fault: SurfaceFault, surface: Option<S>) -> bool {
    fault != SurfaceFault::Create && surface is None
}

/// The step that follows a fault. `surface` is the surface that failed, if
/// one exists. A fault on a surface that is not there ends the render with
/// `StateUnavailable`; otherwise [`spec_recovery`] decides.
pub open spec fn spec_step_after<S>(
    fault: SurfaceFault,
    created_now: bool,
    surface: Option<S>,
) -> Step<S> {
    if spec_surface_missing(fault, surface) {
        Step::Failed { error: RenderError::StateUnavailable, release: None }
    } else {
        match spec_recovery(fault, created_now) {
            Recovery::Recreate => Step::Create { release: surface },
            Recovery::Discard(error) => Step::Failed { error, release: surface },
            Recovery::Keep(error) => Step::Failed { error, release: None },
        }
    }
}

/// The entries after a fault: a surface that is kept goes back under its
/// window; nothing else changes.
pub open spec fn spec_entries_after<S>(
    entries: Map<u64, CacheEntry<S>>,
    fault: SurfaceFault,
    created_now: bool,
    surface: Option<S>,
    id: u64,
    width: u32,
    height: u32,
) -> Map<u64, CacheEntry<S>> {
    match (spec_recovery(fault, created_now), surface) {
        (Recovery::Keep(_), Some(kept)) => entries.insert(
            id,
            CacheEntry { surface: kept, width, height },
        ),
        _ => entries,
    }
}

impl RenderAttempt {
    /// The window being rendered.
    pub closed spec fn spec_window_id(&self) -> u64 {
        self.window_id
    }

    /// The window's width when the render began.
    pub closed spec fn spec_width(&self) -> u32 {
        self.width
    }

    /// The window's height when the render began.
    pub closed spec fn spec_height(&self) -> u32 {
        self.height
    }

    /// Whether this render has been told to create a surface.
    pub closed spec fn spec_created_now(&self) -> bool {
        self.created_now
    }

    /// The window being rendered.
    pub fn window_id(&self) -> (id: u64)
        ensures
            id == self.spec_window_id(),
    {
        self.window_id
    }

    /// The size the render began with.
    pub fn size(&self) -> (size: (u32, u32))
        ensures
            size == (self.spec_width(), self.spec_height()),
    {
        (self.width, self.height)
    }

    /// Whether this render has been told to create a surface.
    pub fn created_now(&self) -> (r: bool)
        ensures
            r == self.spec_created_now(),
    {
        self.created_now
    }

    /// Ends a render whose frame was presented: `surface` becomes the
    /// window's entry, recorded with the size the render began with. A
    /// surface that had taken the window's place in the meantime is handed
    /// back for release.
    pub fn presented<S>(self, cache: &mut SurfaceCache<S>, surface: S) -> (displaced: Option<S>)
        ensures
            final(cache)@ == old(cache)@.insert(
                self.spec_window_id(),
                CacheEntry { surface, width: self.spec_width(), height: self.spec_height() },
            ),
            displaced == spec_displaced(old(cache)@, self.spec_window_id()),
    {
        cache.store(self.window_id, surface, self.width, self.height)
    }

    /// Ends a render that the renderer refused to paint while the surface
    /// was out of the cache. The surface is sound, so it becomes the
    /// window's entry again, recorded with the size the render began with;
    /// a surface that had taken the window's place in the meantime is
    /// handed back for release.
    pub fn refused<S>(self, cache: &mut SurfaceCache<S>, surface: S) -> (displaced: Option<S>)
        ensures
            final(cache)@ == old(cache)@.insert(
                self.spec_window_id(),
                CacheEntry { surface, width: self.spec_width(), height: self.spec_height() },
            ),
            displaced == spec_displaced(old(cache)@, self.spec_window_id()),
    {
        cache.store(self.window_id, surface, self.width, self.height)
    }

    /// Answers a fault with the next step; `surface` is the surface that
    /// failed, absent when creation failed.
    ///
    /// A surface from the cache that cannot be resized or read is replaced
    /// once; after that, and when creation fails, the render fails with
    /// `ResourceAcquisitionFailed` and the window stays without an entry. A
    /// failed presentation fails the render with `PresentationFailed`; the
    /// surface goes back into the cache. A fault other than a failed
    /// creation that comes without its surface fails the render with
    /// `StateUnavailable`.
    pub fn faulted<S>(
        &mut self,
        cache: &mut SurfaceCache<S>,
        fault: SurfaceFault,
        surface: Option<S>,
    ) -> (step: Step<S>)
        ensures
            step == spec_step_after(fault, old(self).spec_created_now(), surface),
            final(cache)@ == spec_entries_after(
                old(cache)@,
                fault,
                old(self).spec_created_now(),
                surface,
                old(self).spec_window_id(),
                old(self).spec_width(),
                old(self).spec_height(),
            ),
            final(self).spec_window_id() == old(self).spec_window_id(),
            final(self).spec_width() == old(self).spec_width(),
            final(self).spec_height() == old(self).spec_height(),
            final(self).spec_created_now() == (old(self).spec_created_now() || step is Create),
    {
        let missing: bool = match (&fault, &surface) {
            (SurfaceFault::Create, _) => false,
            (_, None) => true,
            _ => false,
        };
        if missing {
            return Step::Failed { error: RenderError::StateUnavailable, release: None };
        }
        match recovery_for(fault, self.created_now) {
            Recovery::Recreate => {
                self.created_now = true;
                Step::Create { release: surface }
            },
            Recovery::Discard(error) => Step::Failed { error, release: surface },
            Recovery::Keep(error) => {
                match surface {
                    Some(kept) => {
                        let _ = cache.store(self.window_id, kept, self.width, self.height);
                    },
                    None => {},
                }
                Step::Failed { error, release: None }
            },
        }
    }
}

/// After a render has stored its surface, the next render of the same window
/// at the same size gets that very surface back: nothing is recreated.
pub proof fn lemma_same_size_reuses_surface<S>(
    entries: Map<u64, CacheEntry<S>>,
    id: u64,
    surface: S,
    width: u32,
    height: u32,
)
    ensures
        spec_checkout(
            entries.insert(id, CacheEntry { surface, width, height }),
            id,
            width,
            height,
        ) == Checkout::Ready(surface),
{
}

/// A size change between two renders forces exactly one recreation: the
/// first render at the new size finds the surface stale, and once it has
/// stored the replacement, the next render at that size reuses it.
pub proof fn lemma_size_change_recreates_once<S>(
    entries: Map<u64, CacheEntry<S>>,
    id: u64,
    surface: S,
    width: u32,
    height: u32,
    replacement: S,
    new_width: u32,
    new_height: u32,
)
    requires
        new_width != width || new_height != height,
    ensures
        spec_checkout(
            entries.insert(id, CacheEntry { surface, width, height }),
            id,
            new_width,
            new_height,
        ) == Checkout::Stale(surface),
        spec_checkout(
            entries.insert(id, CacheEntry { surface, width, height }).remove(id).insert(
                id,
                CacheEntry { surface: replacement, width: new_width, height: new_height },
            ),
            id,
            new_width,
            new_height,
        ) == Checkout::Ready(replacement),
{
}

/// Renders of one window never disturb the entry of another.
pub proof fn lemma_other_windows_untouched<S>(
    entries: Map<u64, CacheEntry<S>>,
    id: u64,
    other: u64,
    surface: S,
    width: u32,
    height: u32,
    other_width: u32,
    other_height: u32,
)
    requires
        id != other,
    ensures
        spec_checkout(entries.remove(id), other, other_width, other_height) == spec_checkout(
            entries,
            other,
            other_width,
            other_height,
        ),
        spec_checkout(
            entries.insert(id, CacheEntry { surface, width, height }),
            other,
            other_width,
            other_height,
        ) == spec_checkout(entries, other, other_width, other_height),
{
}

/// After a close notification the window has no entry, so a later render
/// creates a surface anew.
pub proof fn lemma_removed_window_is_absent<S>(
    entries: Map<u64, CacheEntry<S>>,
    id: u64,
    width: u32,
    height: u32,
)
    ensures
        spec_checkout(entries.remove(id), id, width, height) == Checkout::<S>::Absent,
{
}

/// A render replaces a surface at most once: once it has been told to
/// create one, no fault makes it create another.
pub proof fn lemma_one_recreation_per_render<S>(fault: SurfaceFault, surface: Option<S>)
    ensures
        !(spec_step_after(fault, true, surface) is Create),
{
}

/// Two renders in a row at one size: the second paints into the surface
/// that the first presented.
pub proof fn lemma_second_render_paints_same_surface<S>(
    entries: Map<u64, CacheEntry<S>>,
    id: u64,
    surface: S,
    width: u32,
    height: u32,
)
    ensures
        spec_first_step(
            entries.insert(id, CacheEntry { surface, width, height }),
            id,
            width,
            height,
        ) == (Step::Paint { surface }),
{
}

/// A render after a change of size releases the old surface and creates
/// one; the render after that, at the new size, creates none.
pub proof fn lemma_resize_creates_one_surface<S>(
    entries: Map<u64, CacheEntry<S>>,
    id: u64,
    surface: S,
    width: u32,
    height: u32,
    replacement: S,
    new_width: u32,
    new_height: u32,
)
    requires
        new_width != width || new_height != height,
    ensures
        spec_first_step(
            entries.insert(id, CacheEntry { surface, width, height }),
            id,
            new_width,
            new_height,
        ) == (Step::Create { release: Some(surface) }),
        spec_first_step(
            entries.insert(id, CacheEntry { surface, width, height }).remove(id).insert(
                id,
                CacheEntry { surface: replacement, width: new_width, height: new_height },
            ),
            id,
            new_width,
            new_height,
        ) == (Step::Paint { surface: replacement }),
{
}

/// A render that fails for want of a surface leaves the window without an
/// entry, so the next render begins by creating one.
pub proof fn lemma_failed_acquisition_leaves_no_entry<S>(
    entries: Map<u64, CacheEntry<S>>,
    fault: SurfaceFault,
    created_now: bool,
    surface: Option<S>,
    id: u64,
    width: u32,
    height: u32,
)
    requires
        spec_recovery(fault, created_now) == Recovery::Discard(
            RenderError::ResourceAcquisitionFailed,
        ),
    ensures
        spec_first_step(
            spec_entries_after(entries.remove(id), fault, created_now, surface, id, width, height),
            id,
            width,
            height,
        ) == (Step::<S>::Create { release: None }),
{
}

} // verus!
