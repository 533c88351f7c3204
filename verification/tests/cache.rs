//! The surface cache: one entry per window, recreated only when needed.

use pixel_compositor::cache::{
    recovery_for, Checkout, Recovery, Step, SurfaceCache, SurfaceFault,
};
use pixel_compositor::RenderError;

/// Stands for a context and its surface.
#[derive(Debug, PartialEq)]
struct Surface(u32);

fn ready(c: Checkout<Surface>) -> Surface {
    match c {
        Checkout::Ready(s) => s,
        _ => panic!("expected a ready surface"),
    }
}

fn stale(c: Checkout<Surface>) -> Surface {
    match c {
        Checkout::Stale(s) => s,
        _ => panic!("expected a stale surface"),
    }
}

fn is_absent(c: Checkout<Surface>) -> bool {
    matches!(c, Checkout::Absent)
}

#[test]
fn new_cache_is_empty() {
    let cache: SurfaceCache<Surface> = SurfaceCache::new();
    assert!(cache.is_empty());
    assert_eq!(cache.len(), 0);
    assert!(!cache.contains(1));
    assert_eq!(cache.recorded_size(1), None);
}

#[test]
fn first_render_finds_nothing() {
    let mut cache: SurfaceCache<Surface> = SurfaceCache::new();
    assert!(is_absent(cache.checkout(7, 800, 600)));
    assert!(cache.is_empty());
}

#[test]
fn store_records_surface_and_size() {
    let mut cache = SurfaceCache::new();
    assert_eq!(cache.store(7, Surface(1), 800, 600), None);
    assert!(cache.contains(7));
    assert_eq!(cache.len(), 1);
    assert!(!cache.is_empty());
    assert_eq!(cache.recorded_size(7), Some((800, 600)));
    assert_eq!(cache.recorded_size(8), None);
}

#[test]
fn same_size_reuses_the_same_surface() {
    let mut cache = SurfaceCache::new();
    cache.store(7, Surface(1), 800, 600);
    for _ in 0..3 {
        let surface = ready(cache.checkout(7, 800, 600));
        assert_eq!(surface, Surface(1));
        assert!(!cache.contains(7));
        cache.store(7, surface, 800, 600);
    }
    assert_eq!(cache.len(), 1);
}

#[test]
fn size_change_forces_exactly_one_recreation() {
    let mut cache = SurfaceCache::new();
    cache.store(7, Surface(1), 800, 600);
    let mut created = 0;
    for _ in 0..4 {
        let surface = match cache.checkout(7, 1024, 768) {
            Checkout::Ready(s) => s,
            Checkout::Stale(old) => {
                assert_eq!(old, Surface(1));
                created += 1;
                Surface(2)
            }
            Checkout::Absent => panic!("the entry was lost"),
        };
        cache.store(7, surface, 1024, 768);
    }
    assert_eq!(created, 1);
    assert_eq!(cache.recorded_size(7), Some((1024, 768)));
    assert_eq!(ready(cache.checkout(7, 1024, 768)), Surface(2));
}

#[test]
fn change_of_one_dimension_is_a_change() {
    let mut cache = SurfaceCache::new();
    cache.store(1, Surface(1), 800, 600);
    assert_eq!(stale(cache.checkout(1, 800, 601)), Surface(1));
    cache.store(1, Surface(2), 800, 600);
    assert_eq!(stale(cache.checkout(1, 801, 600)), Surface(2));
}

#[test]
fn checkout_takes_the_entry_out() {
    let mut cache = SurfaceCache::new();
    cache.store(7, Surface(1), 800, 600);
    let _surface = ready(cache.checkout(7, 800, 600));
    // a render that fails to put the surface back leaves the window absent
    assert!(is_absent(cache.checkout(7, 800, 600)));
    assert!(cache.is_empty());
}

#[test]
fn windows_do_not_disturb_each_other() {
    let mut cache = SurfaceCache::new();
    cache.store(1, Surface(10), 100, 100);
    cache.store(2, Surface(20), 200, 200);
    assert_eq!(cache.len(), 2);
    assert_eq!(stale(cache.checkout(1, 150, 150)), Surface(10));
    assert_eq!(cache.recorded_size(2), Some((200, 200)));
    cache.store(1, Surface(11), 150, 150);
    assert_eq!(ready(cache.checkout(2, 200, 200)), Surface(20));
    assert_eq!(ready(cache.checkout(1, 150, 150)), Surface(11));
}

#[test]
fn store_hands_back_what_it_displaces() {
    let mut cache = SurfaceCache::new();
    assert_eq!(cache.store(1, Surface(1), 10, 10), None);
    assert_eq!(cache.store(1, Surface(2), 20, 20), Some(Surface(1)));
    assert_eq!(cache.len(), 1);
    assert_eq!(cache.recorded_size(1), Some((20, 20)));
}

#[test]
fn closed_window_is_removed() {
    let mut cache = SurfaceCache::new();
    cache.store(1, Surface(1), 10, 10);
    cache.store(2, Surface(2), 20, 20);
    assert_eq!(cache.remove_render_surface(1), Some(Surface(1)));
    assert!(!cache.contains(1));
    assert!(cache.contains(2));
    assert_eq!(cache.len(), 1);
    assert_eq!(cache.remove_render_surface(1), None);
    assert!(is_absent(cache.checkout(1, 10, 10)));
    assert_eq!(cache.remove_render_surface(3), None);
    assert_eq!(cache.len(), 1);
}

#[test]
fn extreme_identifiers_and_sizes() {
    let mut cache = SurfaceCache::new();
    cache.store(u64::MAX, Surface(1), u32::MAX, 0);
    cache.store(0, Surface(2), 0, u32::MAX);
    assert_eq!(cache.recorded_size(u64::MAX), Some((u32::MAX, 0)));
    assert_eq!(ready(cache.checkout(0, 0, u32::MAX)), Surface(2));
    assert_eq!(stale(cache.checkout(u64::MAX, 0, u32::MAX)), Surface(1));
}

#[test]
fn cached_surface_that_fails_is_recreated_once() {
    assert_eq!(recovery_for(SurfaceFault::Resize, false), Recovery::Recreate);
    assert_eq!(recovery_for(SurfaceFault::Frame, false), Recovery::Recreate);
    assert_eq!(
        recovery_for(SurfaceFault::Resize, true),
        Recovery::Discard(RenderError::ResourceAcquisitionFailed)
    );
    assert_eq!(
        recovery_for(SurfaceFault::Frame, true),
        Recovery::Discard(RenderError::ResourceAcquisitionFailed)
    );
}

#[test]
fn failed_creation_is_reported() {
    for created_now in [false, true] {
        assert_eq!(
            recovery_for(SurfaceFault::Create, created_now),
            Recovery::Discard(RenderError::ResourceAcquisitionFailed)
        );
    }
}

#[test]
fn failed_presentation_is_reported_and_not_retried() {
    for created_now in [false, true] {
        assert_eq!(
            recovery_for(SurfaceFault::Present, created_now),
            Recovery::Keep(RenderError::PresentationFailed)
        );
    }
}

// ---- a render, step by step ----

/// Runs one render the way a caller does. `outcomes` says how each step on
/// a surface ends, in order; a step without an outcome succeeds. Surfaces
/// are numbered from `next` in the order of their creation.
fn render(
    cache: &mut SurfaceCache<Surface>,
    id: u64,
    width: u32,
    height: u32,
    outcomes: &[Option<SurfaceFault>],
    next: &mut u32,
    released: &mut Vec<Surface>,
) -> Result<(), RenderError> {
    let mut outcomes = outcomes.iter();
    let (mut attempt, mut step) = cache.begin(id, width, height);
    assert_eq!(attempt.window_id(), id);
    assert_eq!(attempt.size(), (width, height));
    loop {
        step = match step {
            Step::Create { release } => {
                released.extend(release);
                assert!(attempt.created_now());
                match outcomes.next().copied().flatten() {
                    Some(fault) => attempt.faulted(cache, fault, None),
                    None => {
                        *next += 1;
                        Step::Paint { surface: Surface(*next) }
                    }
                }
            }
            Step::Paint { surface } => match outcomes.next().copied().flatten() {
                Some(fault) => attempt.faulted(cache, fault, Some(surface)),
                None => {
                    released.extend(attempt.presented(cache, surface));
                    return Ok(());
                }
            },
            Step::Failed { error, release } => {
                released.extend(release);
                return Err(error);
            }
        };
    }
}

#[test]
fn first_render_creates_and_later_ones_reuse() {
    let mut cache = SurfaceCache::new();
    let mut next = 0;
    let mut released = Vec::new();
    for _ in 0..3 {
        assert_eq!(render(&mut cache, 7, 800, 600, &[], &mut next, &mut released), Ok(()));
    }
    assert_eq!(next, 1);
    assert!(released.is_empty());
    assert_eq!(cache.recorded_size(7), Some((800, 600)));
    assert_eq!(ready(cache.checkout(7, 800, 600)), Surface(1));
}

#[test]
fn resize_releases_the_old_surface_and_creates_one() {
    let mut cache = SurfaceCache::new();
    let mut next = 0;
    let mut released = Vec::new();
    assert_eq!(render(&mut cache, 7, 800, 600, &[], &mut next, &mut released), Ok(()));
    assert_eq!(render(&mut cache, 7, 1024, 768, &[], &mut next, &mut released), Ok(()));
    assert_eq!(render(&mut cache, 7, 1024, 768, &[], &mut next, &mut released), Ok(()));
    assert_eq!(next, 2);
    assert_eq!(released, vec![Surface(1)]);
    assert_eq!(cache.recorded_size(7), Some((1024, 768)));
    assert_eq!(cache.len(), 1);
}

#[test]
fn failed_creation_leaves_the_window_absent_for_a_clean_retry() {
    let mut cache = SurfaceCache::new();
    let mut next = 0;
    let mut released = Vec::new();
    let create_fails = [Some(SurfaceFault::Create)];
    assert_eq!(
        render(&mut cache, 7, 800, 600, &create_fails, &mut next, &mut released),
        Err(RenderError::ResourceAcquisitionFailed)
    );
    assert!(!cache.contains(7));
    assert_eq!(next, 0);
    assert_eq!(render(&mut cache, 7, 800, 600, &[], &mut next, &mut released), Ok(()));
    assert_eq!(next, 1);
    assert!(cache.contains(7));
}

#[test]
fn cached_surface_that_cannot_be_read_is_replaced_once() {
    let mut cache = SurfaceCache::new();
    let mut next = 0;
    let mut released = Vec::new();
    assert_eq!(render(&mut cache, 7, 800, 600, &[], &mut next, &mut released), Ok(()));
    // the cached surface fails, its replacement works
    let frame_fails = [Some(SurfaceFault::Frame)];
    assert_eq!(render(&mut cache, 7, 800, 600, &frame_fails, &mut next, &mut released), Ok(()));
    assert_eq!(next, 2);
    assert_eq!(released, vec![Surface(1)]);
    assert_eq!(ready(cache.checkout(7, 800, 600)), Surface(2));
}

#[test]
fn replacement_that_fails_too_ends_the_render() {
    let mut cache = SurfaceCache::new();
    let mut next = 0;
    let mut released = Vec::new();
    assert_eq!(render(&mut cache, 7, 800, 600, &[], &mut next, &mut released), Ok(()));
    // the cached surface fails, creation succeeds, the new surface fails too
    let both_fail = [Some(SurfaceFault::Resize), None, Some(SurfaceFault::Resize)];
    assert_eq!(
        render(&mut cache, 7, 800, 600, &both_fail, &mut next, &mut released),
        Err(RenderError::ResourceAcquisitionFailed)
    );
    assert_eq!(next, 2);
    assert_eq!(released, vec![Surface(1), Surface(2)]);
    assert!(!cache.contains(7));
}

#[test]
fn replacement_that_cannot_be_created_ends_the_render() {
    let mut cache = SurfaceCache::new();
    let mut next = 0;
    let mut released = Vec::new();
    assert_eq!(render(&mut cache, 7, 800, 600, &[], &mut next, &mut released), Ok(()));
    let outcomes = [Some(SurfaceFault::Frame), Some(SurfaceFault::Create)];
    assert_eq!(
        render(&mut cache, 7, 800, 600, &outcomes, &mut next, &mut released),
        Err(RenderError::ResourceAcquisitionFailed)
    );
    assert_eq!(released, vec![Surface(1)]);
    assert!(!cache.contains(7));
}

#[test]
fn failed_presentation_keeps_the_surface() {
    let mut cache = SurfaceCache::new();
    let mut next = 0;
    let mut released = Vec::new();
    let present_fails = [None, Some(SurfaceFault::Present)];
    assert_eq!(
        render(&mut cache, 7, 800, 600, &present_fails, &mut next, &mut released),
        Err(RenderError::PresentationFailed)
    );
    assert!(released.is_empty());
    assert_eq!(cache.recorded_size(7), Some((800, 600)));
    // the next render needs no new surface
    assert_eq!(render(&mut cache, 7, 800, 600, &[], &mut next, &mut released), Ok(()));
    assert_eq!(next, 1);
}

#[test]
fn begin_takes_the_entry_out() {
    let mut cache = SurfaceCache::new();
    cache.store(7, Surface(1), 800, 600);
    let (attempt, step) = cache.begin(7, 800, 600);
    assert!(!attempt.created_now());
    assert!(matches!(step, Step::Paint { surface: Surface(1) }));
    assert!(!cache.contains(7));
    let (attempt, step) = cache.begin(7, 800, 600);
    assert!(attempt.created_now());
    assert!(matches!(step, Step::Create { release: None }));
}

#[test]
fn renders_of_other_windows_are_independent() {
    let mut cache = SurfaceCache::new();
    let mut next = 0;
    let mut released = Vec::new();
    assert_eq!(render(&mut cache, 1, 100, 100, &[], &mut next, &mut released), Ok(()));
    assert_eq!(render(&mut cache, 2, 100, 100, &[], &mut next, &mut released), Ok(()));
    assert_eq!(next, 2);
    let create_fails = [Some(SurfaceFault::Create)];
    assert_eq!(
        render(&mut cache, 1, 200, 200, &create_fails, &mut next, &mut released),
        Err(RenderError::ResourceAcquisitionFailed)
    );
    assert_eq!(released, vec![Surface(1)]);
    assert!(!cache.contains(1));
    assert_eq!(cache.recorded_size(2), Some((100, 100)));
}

#[test]
fn clear_releases_everything() {
    let mut cache = SurfaceCache::new();
    cache.store(1, Surface(1), 10, 10);
    cache.store(2, Surface(2), 20, 20);
    cache.clear();
    assert!(cache.is_empty());
    assert!(!cache.contains(1));
    assert!(is_absent(cache.checkout(2, 20, 20)));
}

#[test]
fn fault_without_its_surface_is_a_state_error() {
    for fault in [SurfaceFault::Resize, SurfaceFault::Frame, SurfaceFault::Present] {
        let mut cache: SurfaceCache<Surface> = SurfaceCache::new();
        cache.store(7, Surface(1), 800, 600);
        let (mut attempt, step) = cache.begin(7, 800, 600);
        drop(step);
        let next = attempt.faulted(&mut cache, fault, None);
        assert!(matches!(
            next,
            Step::Failed { error: RenderError::StateUnavailable, release: None }
        ));
        assert!(!cache.contains(7));
        assert!(!attempt.created_now());
    }
}

#[test]
fn creation_fault_hands_back_a_half_made_surface() {
    let mut cache: SurfaceCache<Surface> = SurfaceCache::new();
    let (mut attempt, _step) = cache.begin(7, 800, 600);
    let next = attempt.faulted(&mut cache, SurfaceFault::Create, Some(Surface(5)));
    assert!(matches!(
        next,
        Step::Failed {
            error: RenderError::ResourceAcquisitionFailed,
            release: Some(Surface(5))
        }
    ));
    assert!(cache.is_empty());
}

#[test]
fn presented_hands_back_a_surface_that_took_the_place() {
    let mut cache = SurfaceCache::new();
    let (attempt, _step) = cache.begin(7, 800, 600);
    cache.store(7, Surface(1), 640, 480);
    assert_eq!(attempt.presented(&mut cache, Surface(2)), Some(Surface(1)));
    assert_eq!(cache.recorded_size(7), Some((800, 600)));
    assert_eq!(ready(cache.checkout(7, 800, 600)), Surface(2));
}

#[test]
fn refused_render_keeps_the_surface() {
    let mut cache = SurfaceCache::new();
    cache.store(7, Surface(1), 800, 600);
    let (attempt, step) = cache.begin(7, 800, 600);
    let surface = match step {
        Step::Paint { surface } => surface,
        _ => panic!("expected a surface to paint"),
    };
    assert_eq!(attempt.refused(&mut cache, surface), None);
    assert_eq!(cache.recorded_size(7), Some((800, 600)));
    assert_eq!(ready(cache.checkout(7, 800, 600)), Surface(1));
}
