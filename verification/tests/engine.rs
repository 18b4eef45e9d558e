//! Scenario tests driving the presentation engine with simulated display
//! answers.

use swbuf::action::Action;
use swbuf::engine::{Engine, FrameResult, Outcomes, Plan, SegmentPlan};
use swbuf::error::Error;
use swbuf::segment::{AllocOutcome, SegmentManager};

fn engine(fast: bool) -> Engine {
    Engine::new(true, true, 1, fast, fast).unwrap()
}

fn all_ok(alloc: AllocOutcome) -> Outcomes {
    Outcomes {
        alloc,
        fast_create_ok: true,
        fast_draw_ok: true,
        fallback_create_ok: true,
        fallback_draw_ok: true,
    }
}

fn alloc_calls(acts: &[Action]) -> usize {
    acts.iter()
        .filter(|a| matches!(a, Action::AllocateSegment { .. }))
        .count()
}

fn release_calls(acts: &[Action]) -> usize {
    acts.iter()
        .filter(|a| matches!(a, Action::ReleaseId { .. }))
        .count()
}

#[test]
fn construction_requires_loaded_library() {
    let r = Engine::new(false, true, 1, true, true);
    assert!(matches!(r, Err(Error::PlatformUnavailable)));
}

#[test]
fn construction_requires_display() {
    let r = Engine::new(true, false, 1, true, true);
    assert!(matches!(r, Err(Error::IncompleteDisplayHandle)));
}

#[test]
fn construction_requires_window() {
    let r = Engine::new(true, true, 0, true, true);
    assert!(matches!(r, Err(Error::IncompleteWindowHandle)));
}

#[test]
fn capability_needs_library_and_support() {
    assert!(engine(true).fast_path);
    assert!(!engine(false).fast_path);
    let half = Engine::new(true, true, 1, true, false).unwrap();
    assert!(!half.fast_path);
    let other = Engine::new(true, true, 1, false, true).unwrap();
    assert!(!other.fast_path);
}

#[test]
fn screen_zero_means_default() {
    assert_eq!(Engine::effective_screen(0, 3), 3);
    assert_eq!(Engine::effective_screen(2, 3), 2);
    assert_eq!(Engine::effective_screen(-1, 3), -1);
}

#[test]
fn fast_path_present_succeeds() {
    let mut e = engine(true);
    let buf = vec![0u32; 4];
    let (acts, res) = e.present(&buf, 2, 2, &all_ok(AllocOutcome::Granted { id: 1 }));
    assert_eq!(res, Ok(FrameResult::FastDrawn));
    assert_eq!(
        acts,
        vec![
            Action::AllocateSegment { size: 16 },
            Action::WritePixels { size: 16 },
            Action::CreateSharedImage { id: 1, width: 2, height: 2 },
            Action::DrawShared { width: 2, height: 2 },
        ]
    );
}

#[test]
fn fallback_scenario_exact_requests() {
    let mut e = engine(false);
    let buf = vec![0xFFFFFFFFu32; 4];
    let (acts, res) = e.present(&buf, 2, 2, &all_ok(AllocOutcome::Denied));
    assert_eq!(res, Ok(FrameResult::FallbackDrawn));
    assert_eq!(
        acts,
        vec![
            Action::CreateImageFromBytes { width: 2, height: 2, stride: 8 },
            Action::Draw { width: 2, height: 2 },
            Action::DestroyImage,
        ]
    );
}

#[test]
fn no_capability_never_allocates() {
    let mut e = engine(false);
    let buf = vec![0u32; 100];
    let (acts, _) = e.present(&buf, 10, 10, &all_ok(AllocOutcome::Granted { id: 9 }));
    assert_eq!(alloc_calls(&acts), 0);
    assert!(e.mgr.seg.is_none());
}

#[test]
fn zero_area_present_is_a_no_op() {
    let mut e = engine(true);
    let buf: Vec<u32> = vec![];
    let (acts, res) = e.present(&buf, 0, 5, &all_ok(AllocOutcome::Granted { id: 1 }));
    assert!(acts.is_empty());
    assert_eq!(res, Ok(FrameResult::Skipped));
    let (acts, res) = e.present(&buf, 5, 0, &all_ok(AllocOutcome::Granted { id: 1 }));
    assert!(acts.is_empty());
    assert_eq!(res, Ok(FrameResult::Skipped));
    assert!(e.mgr.seg.is_none());
}

#[test]
fn sequential_presents_reuse_and_grow() {
    let mut e = engine(true);
    let buf100 = vec![0u32; 100];
    let buf400 = vec![0u32; 400];
    let buf25 = vec![0u32; 25];

    let (acts1, res1) = e.present(&buf100, 10, 10, &all_ok(AllocOutcome::Granted { id: 1 }));
    assert_eq!(res1, Ok(FrameResult::FastDrawn));
    assert_eq!(alloc_calls(&acts1), 1);
    assert!(acts1.contains(&Action::AllocateSegment { size: 400 }));

    let (acts2, res2) = e.present(&buf100, 10, 10, &all_ok(AllocOutcome::Granted { id: 8 }));
    assert_eq!(res2, Ok(FrameResult::FastDrawn));
    assert_eq!(alloc_calls(&acts2), 0);

    let (acts3, res3) = e.present(&buf400, 20, 20, &all_ok(AllocOutcome::Granted { id: 2 }));
    assert_eq!(res3, Ok(FrameResult::FastDrawn));
    assert_eq!(alloc_calls(&acts3), 1);
    assert_eq!(release_calls(&acts3), 1);
    assert!(acts3.contains(&Action::UnmapSegment { id: 1 }));
    assert!(acts3.contains(&Action::ReleaseId { id: 1 }));
    assert!(acts3.contains(&Action::AllocateSegment { size: 1600 }));

    let (acts4, res4) = e.present(&buf25, 5, 5, &all_ok(AllocOutcome::Granted { id: 3 }));
    assert_eq!(res4, Ok(FrameResult::FastDrawn));
    assert_eq!(alloc_calls(&acts4), 0);
    let seg = e.mgr.seg.unwrap();
    assert_eq!(seg.id, 2);
    assert_eq!(seg.size, 1600);
    assert!(acts4.contains(&Action::WritePixels { size: 100 }));
}

#[test]
fn map_failure_releases_fresh_id() {
    let mut e = engine(true);
    let buf = vec![0u32; 4];
    let (acts, res) = e.present(&buf, 2, 2, &all_ok(AllocOutcome::MapDenied { id: 7 }));
    assert_eq!(res, Ok(FrameResult::FallbackDrawn));
    assert!(acts.contains(&Action::ReleaseId { id: 7 }));
    assert!(e.mgr.seg.is_none());
    assert_eq!(
        acts,
        vec![
            Action::AllocateSegment { size: 16 },
            Action::ReleaseId { id: 7 },
            Action::CreateImageFromBytes { width: 2, height: 2, stride: 8 },
            Action::Draw { width: 2, height: 2 },
            Action::DestroyImage,
        ]
    );
}

#[test]
fn allocation_denied_falls_back() {
    let mut e = engine(true);
    let buf = vec![0u32; 4];
    let (acts, res) = e.present(&buf, 2, 2, &all_ok(AllocOutcome::Denied));
    assert_eq!(res, Ok(FrameResult::FallbackDrawn));
    assert_eq!(alloc_calls(&acts), 1);
    assert!(e.mgr.seg.is_none());
    assert!(acts.contains(&Action::Draw { width: 2, height: 2 }));
}

#[test]
fn shared_image_failure_falls_back_and_keeps_segment() {
    let mut e = engine(true);
    let buf = vec![0u32; 4];
    let mut out = all_ok(AllocOutcome::Granted { id: 3 });
    out.fast_create_ok = false;
    let (acts, res) = e.present(&buf, 2, 2, &out);
    assert_eq!(res, Ok(FrameResult::FallbackDrawn));
    assert!(!acts.contains(&Action::DrawShared { width: 2, height: 2 }));
    assert!(acts.contains(&Action::Draw { width: 2, height: 2 }));
    let seg = e.mgr.seg.unwrap();
    assert_eq!(seg.id, 3);
    assert_eq!(seg.size, 16);
}

#[test]
fn shared_draw_failure_falls_back() {
    let mut e = engine(true);
    let buf = vec![0u32; 4];
    let mut out = all_ok(AllocOutcome::Granted { id: 3 });
    out.fast_draw_ok = false;
    let (acts, res) = e.present(&buf, 2, 2, &out);
    assert_eq!(res, Ok(FrameResult::FallbackDrawn));
    assert!(acts.contains(&Action::DrawShared { width: 2, height: 2 }));
    assert!(acts.contains(&Action::Draw { width: 2, height: 2 }));
}

#[test]
fn fallback_create_failure_is_surfaced() {
    let mut e = engine(false);
    let buf = vec![0u32; 4];
    let mut out = all_ok(AllocOutcome::Denied);
    out.fallback_create_ok = false;
    let (acts, res) = e.present(&buf, 2, 2, &out);
    assert_eq!(res, Err(Error::ProtocolFailure));
    assert_eq!(
        acts,
        vec![Action::CreateImageFromBytes { width: 2, height: 2, stride: 8 }]
    );
}

#[test]
fn fallback_draw_failure_still_destroys_image() {
    let mut e = engine(false);
    let buf = vec![0u32; 4];
    let mut out = all_ok(AllocOutcome::Denied);
    out.fallback_draw_ok = false;
    let (acts, res) = e.present(&buf, 2, 2, &out);
    assert_eq!(res, Err(Error::ProtocolFailure));
    assert_eq!(acts.last(), Some(&Action::DestroyImage));
}

#[test]
fn plan_reports_each_path() {
    let e = engine(true);
    assert_eq!(e.plan_present(0, 9), Plan::Skip);
    assert_eq!(
        e.plan_present(2, 2),
        Plan::Fast { need: 16, seg: SegmentPlan::Fresh }
    );
    let slow = engine(false);
    assert_eq!(slow.plan_present(2, 2), Plan::Fallback);
}

#[test]
fn plan_reuses_or_replaces_held_segment() {
    let mut e = engine(true);
    e.mgr.install(5, 400);
    assert_eq!(
        e.plan_present(10, 10),
        Plan::Fast { need: 400, seg: SegmentPlan::Reuse { id: 5 } }
    );
    assert_eq!(
        e.plan_present(20, 20),
        Plan::Fast { need: 1600, seg: SegmentPlan::Replace { old_id: 5 } }
    );
}

#[test]
fn teardown_hands_back_the_segment_once() {
    let mut e = engine(true);
    let buf = vec![0u32; 4];
    let _ = e.present(&buf, 2, 2, &all_ok(AllocOutcome::Granted { id: 11 }));
    let seg = e.teardown().unwrap();
    assert_eq!(seg.id, 11);
    assert_eq!(seg.size, 16);
    assert!(e.teardown().is_none());
    assert!(e.mgr.seg.is_none());
}

#[test]
fn manager_acquire_reports_exhaustion() {
    let mut mgr = SegmentManager::new();
    let mut acts: Vec<Action> = Vec::new();
    let r = mgr.acquire(&mut acts, 64, AllocOutcome::Denied);
    assert_eq!(r, Err(Error::ResourceExhausted));
    assert!(mgr.seg.is_none());
    let r = mgr.acquire(&mut acts, 64, AllocOutcome::MapDenied { id: 4 });
    assert_eq!(r, Err(Error::ResourceExhausted));
    assert!(acts.contains(&Action::ReleaseId { id: 4 }));
}

#[test]
fn manager_reuses_without_requests() {
    let mut mgr = SegmentManager::new();
    let mut acts: Vec<Action> = Vec::new();
    let s = mgr
        .acquire(&mut acts, 100, AllocOutcome::Granted { id: 6 })
        .unwrap();
    assert_eq!(s.size, 100);
    let before = acts.len();
    let again = mgr.acquire(&mut acts, 50, AllocOutcome::Denied).unwrap();
    assert_eq!(again.id, 6);
    assert_eq!(again.size, 100);
    assert_eq!(acts.len(), before);
}
