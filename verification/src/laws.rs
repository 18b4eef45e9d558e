//! Engine-wide guarantees, stated and proved over [`present_model`].

use vstd::prelude::*;

use crate::action::Action;
use crate::engine::{fallback_actions, fast_actions, present_model, Engine, FrameResult, Outcomes};
use crate::error::Error;
use crate::frame::{frame_bytes, lemma_frame_bytes_bounds};
use crate::segment::{acquire_model, seg_fits, AllocOutcome, Segment};

verus! {

/// How many fresh segment allocations a run of requests asks for.
pub open spec fn alloc_count(s: Seq<Action>) -> int
    decreases s.len(),
{
    if s.len() == 0 {
        0
    } else {
        alloc_count(s.drop_last()) + if s.last() is AllocateSegment {
            1int
        } else {
            0int
        }
    }
}

/// How many segment-id releases a run of requests asks for.
pub open spec fn release_count(s: Seq<Action>) -> int
    decreases s.len(),
{
    if s.len() == 0 {
        0
    } else {
        release_count(s.drop_last()) + if s.last() is ReleaseId {
            1int
        } else {
            0int
        }
    }
}

/// Both counts distribute over concatenation.
pub proof fn lemma_counts_concat(a: Seq<Action>, b: Seq<Action>)
    ensures
        alloc_count(a + b) == alloc_count(a) + alloc_count(b),
        release_count(a + b) == release_count(a) + release_count(b),
    decreases b.len(),
{
    if b.len() == 0 {
        assert(a + b =~= a);
    } else {
        lemma_counts_concat(a, b.drop_last());
        assert((a + b).drop_last() =~= a + b.drop_last());
        assert((a + b).last() == b.last());
    }
}

/// Both counts over a pushed element.
pub proof fn lemma_counts_push(s: Seq<Action>, a: Action)
    ensures
        alloc_count(s.push(a)) == alloc_count(s) + if a is AllocateSegment {
            1int
        } else {
            0int
        },
        release_count(s.push(a)) == release_count(s) + if a is ReleaseId {
            1int
        } else {
            0int
        },
{
    assert(s.push(a).drop_last() =~= s);
    assert(s.push(a).last() == a);
}

/// A fallback draw neither allocates nor releases a segment.
pub proof fn lemma_fallback_counts(width: u16, height: u16, out: Outcomes)
    ensures
        alloc_count(fallback_actions(width, height, out)) == 0,
        release_count(fallback_actions(width, height, out)) == 0,
{
    let c = Action::CreateImageFromBytes { width, height, stride: (width * 4) as u32 };
    let d = Action::Draw { width, height };
    let e = Action::DestroyImage;
    let empty = Seq::<Action>::empty();
    lemma_counts_push(empty, c);
    lemma_counts_push(empty.push(c), d);
    lemma_counts_push(empty.push(c).push(d), e);
    assert(fallback_actions(width, height, out) =~= if out.fallback_create_ok {
        empty.push(c).push(d).push(e)
    } else {
        empty.push(c)
    });
}

/// A fast-path attempt on an already-held region neither allocates nor
/// releases a segment.
pub proof fn lemma_fast_counts(id: u64, need: u64, width: u16, height: u16, out: Outcomes)
    ensures
        alloc_count(fast_actions(id, need, width, height, out)) == 0,
        release_count(fast_actions(id, need, width, height, out)) == 0,
{
    let w = Action::WritePixels { size: need };
    let c = Action::CreateSharedImage { id, width, height };
    let d = Action::DrawShared { width, height };
    let empty = Seq::<Action>::empty();
    lemma_counts_push(empty, w);
    lemma_counts_push(empty.push(w), c);
    lemma_counts_push(empty.push(w).push(c), d);
    assert(fast_actions(id, need, width, height, out) =~= if out.fast_create_ok {
        empty.push(w).push(c).push(d)
    } else {
        empty.push(w).push(c)
    });
}

/// A zero-area present is a complete no-op: the engine is unchanged, no
/// request is issued — in particular no allocation and no draw — and the
/// frame is reported as skipped.
pub proof fn lemma_zero_area_noop(e: Engine, width: u16, height: u16, out: Outcomes)
    requires
        width == 0 || height == 0,
    ensures
        present_model(e, width, height, out).0 == e,
        present_model(e, width, height, out).1 == Seq::<Action>::empty(),
        present_model(e, width, height, out).2 == Ok::<FrameResult, Error>(FrameResult::Skipped),
{
}

/// Without the fast-path capability a present never touches the segment
/// manager: no allocation, no release, and the engine — the held region
/// included — is unchanged.
pub proof fn lemma_no_capability_no_allocation(e: Engine, width: u16, height: u16, out: Outcomes)
    requires
        !e.fast_path,
    ensures
        alloc_count(present_model(e, width, height, out).1) == 0,
        release_count(present_model(e, width, height, out).1) == 0,
        present_model(e, width, height, out).0 == e,
{
    if !(width == 0 || height == 0) {
        lemma_fallback_counts(width, height, out);
    }
}

/// With the fast path available, a frame of the right length, and a display
/// service and system that grant every request, a present completes without
/// surfacing an error.
pub proof fn lemma_fast_path_present_succeeds(e: Engine, width: u16, height: u16, out: Outcomes)
    requires
        e.fast_path,
        out.fast_create_ok,
        out.fast_draw_ok,
        seg_fits(e.mgr.seg, frame_bytes(width, height) as u64) || out.alloc is Granted,
    ensures
        present_model(e, width, height, out).2 is Ok,
{
}

/// A second present at the same dimensions reuses the held region: the
/// segment manager's allocation path is not entered again.
pub proof fn lemma_same_size_reuses_segment(
    e: Engine,
    width: u16,
    height: u16,
    out1: Outcomes,
    out2: Outcomes,
)
    requires
        e.fast_path,
        width > 0,
        height > 0,
        seg_fits(e.mgr.seg, frame_bytes(width, height) as u64) || out1.alloc is Granted,
    ensures
        ({
            let m1 = present_model(e, width, height, out1);
            let m2 = present_model(m1.0, width, height, out2);
            &&& alloc_count(m2.1) == 0
            &&& release_count(m2.1) == 0
            &&& m2.0 == m1.0
        }),
{
    let need = frame_bytes(width, height) as u64;
    let m1 = present_model(e, width, height, out1);
    assert(seg_fits(m1.0.mgr.seg, need));
    let m2 = present_model(m1.0, width, height, out2);
    let s = m1.0.mgr.seg->Some_0;
    lemma_fast_counts(s.id, need, width, height, out2);
    lemma_fallback_counts(width, height, out2);
    assert(Seq::<Action>::empty() + fast_actions(s.id, need, width, height, out2) =~= fast_actions(
        s.id,
        need,
        width,
        height,
        out2,
    ));
    lemma_counts_concat(
        Seq::<Action>::empty() + fast_actions(s.id, need, width, height, out2),
        fallback_actions(width, height, out2),
    );
}

/// Per-frame errors on the fast path are absorbed by the fallback: a present
/// surfaces an error only when the fallback transport itself failed, and
/// then it is a protocol failure.
pub proof fn lemma_only_fallback_failures_surface(e: Engine, width: u16, height: u16, out: Outcomes)
    ensures
        present_model(e, width, height, out).2 is Err ==> !(out.fallback_create_ok
            && out.fallback_draw_ok),
        present_model(e, width, height, out).2 is Err ==> present_model(e, width, height, out).2
            == Err::<FrameResult, Error>(Error::ProtocolFailure),
{
}

/// The held region's capacity is a high-water mark: as long as a region is
/// held, acquiring never shrinks it.
pub proof fn lemma_capacity_never_shrinks(s0: Segment, need: u64, alloc: AllocOutcome)
    ensures
        acquire_model(Some(s0), need, alloc).0 matches Some(s1) ==> s1.size >= s0.size,
{
}

/// The fast-path capability is probed once at construction: no present
/// operation changes it.
pub proof fn lemma_capability_is_constant(e: Engine, width: u16, height: u16, out: Outcomes)
    ensures
        present_model(e, width, height, out).0.fast_path == e.fast_path,
{
}

/// A present whose frame no longer fits the held region replaces it: exactly
/// one new allocation is asked for, and exactly one release — that of the
/// previously held region's id — when the new allocation maps successfully.
/// The old region is unmapped before its id is released, and both happen
/// before the fresh allocation.
pub proof fn lemma_larger_size_reallocates(
    e: Engine,
    s: Segment,
    width: u16,
    height: u16,
    out: Outcomes,
)
    requires
        e.fast_path,
        width > 0,
        height > 0,
        e.mgr.seg == Some(s),
        s.size < frame_bytes(width, height),
        out.alloc is Granted,
    ensures
        alloc_count(present_model(e, width, height, out).1) == 1,
        release_count(present_model(e, width, height, out).1) == 1,
        present_model(e, width, height, out).1.contains(Action::ReleaseId { id: s.id }),
        present_model(e, width, height, out).1.contains(Action::UnmapSegment { id: s.id }),
        present_model(e, width, height, out).1[0] == (Action::UnmapSegment { id: s.id }),
        present_model(e, width, height, out).1[1] == (Action::ReleaseId { id: s.id }),
        present_model(e, width, height, out).1[2] == (Action::AllocateSegment {
            size: frame_bytes(width, height) as u64,
        }),
{
    lemma_frame_bytes_bounds(width, height);
    let need = frame_bytes(width, height) as u64;
    let u = Action::UnmapSegment { id: s.id };
    let r = Action::ReleaseId { id: s.id };
    let a = Action::AllocateSegment { size: need };
    let empty = Seq::<Action>::empty();
    let pre = seq![u, r];
    assert(pre =~= empty.push(u).push(r));
    lemma_counts_push(empty, u);
    lemma_counts_push(empty.push(u), r);
    lemma_counts_push(pre, a);
    let acq_acts = pre.push(a);
    let id = out.alloc->Granted_id;
    let m = present_model(e, width, height, out);
    let acq = acquire_model(e.mgr.seg, need, out.alloc);
    assert(acq.1 =~= acq_acts);
    let fa = fast_actions(id, need, width, height, out);
    let fb = fallback_actions(width, height, out);
    lemma_fast_counts(id, need, width, height, out);
    lemma_fallback_counts(width, height, out);
    lemma_counts_concat(acq_acts, fa);
    lemma_counts_concat(acq_acts + fa, fb);
    assert(acq_acts[0] == u);
    assert(acq_acts[1] == r);
    if out.fast_create_ok && out.fast_draw_ok {
        assert(m.1 == acq_acts + fa);
    } else {
        assert(m.1 == (acq_acts + fa) + fb);
        assert((acq_acts + fa)[0] == u);
        assert((acq_acts + fa)[1] == r);
    }
    assert(m.1[0] == u);
    assert(m.1[1] == r);
}

/// When mapping a freshly allocated region fails, its system id is released
/// before the frame falls back, and no region — in particular no
/// allocated-but-unreleased id — is retained by the engine.
pub proof fn lemma_map_failure_releases_id(
    e: Engine,
    width: u16,
    height: u16,
    out: Outcomes,
    id: u64,
)
    requires
        e.fast_path,
        width > 0,
        height > 0,
        !seg_fits(e.mgr.seg, frame_bytes(width, height) as u64),
        out.alloc == (AllocOutcome::MapDenied { id }),
    ensures
        present_model(e, width, height, out).1.contains(Action::ReleaseId { id }),
        present_model(e, width, height, out).0.mgr.seg is None,
{
    let need = frame_bytes(width, height) as u64;
    let m = present_model(e, width, height, out);
    let pre = match e.mgr.seg {
        Some(s) => seq![Action::UnmapSegment { id: s.id }, Action::ReleaseId { id: s.id }],
        None => Seq::<Action>::empty(),
    };
    let acq_acts = pre.push(Action::AllocateSegment { size: need }).push(
        Action::ReleaseId { id },
    );
    assert(acq_acts[acq_acts.len() - 1] == Action::ReleaseId { id });
    assert(m.1 == acq_acts + fallback_actions(width, height, out));
    assert(m.1[acq_acts.len() - 1] == Action::ReleaseId { id });
}

} // verus!
