//! The presentation engine: path selection and the per-frame state machine.

use vstd::prelude::*;

use crate::action::Action;
use crate::error::Error;
use crate::frame::{frame_bytes, frame_size_bytes, stride_bytes, zero_area};
use crate::segment::{acquire_model, AllocOutcome, Segment, SegmentManager};

verus! {

/// What the display service and the system answered during one present
/// operation. The engine consults only the answers its decisions reach:
/// a reused segment ignores `alloc`, a successful fast path ignores the
/// fallback answers.
#[derive(Clone, Copy, Debug, PartialEq, Eq, Structural)]
pub struct Outcomes {
    /// The system's answer to a fresh segment allocation, if one is needed.
    pub alloc: AllocOutcome,
    /// Whether creating the shared image descriptor succeeded.
    pub fast_create_ok: bool,
    /// Whether the shared-memory draw request succeeded.
    pub fast_draw_ok: bool,
    /// Whether creating the byte-backed fallback image succeeded.
    pub fallback_create_ok: bool,
    /// Whether the fallback draw request succeeded.
    pub fallback_draw_ok: bool,
}

/// How one present operation ended.
#[derive(Clone, Copy, Debug, PartialEq, Eq, Structural)]
pub enum FrameResult {
    /// The frame had zero area; nothing was drawn and nothing was asked for.
    Skipped,
    /// The frame was drawn through the shared-memory fast path.
    FastDrawn,
    /// The frame was drawn by serialising its bytes into a protocol request.
    FallbackDrawn,
}

/// What to do about the held segment before a fast-path frame.
#[derive(Clone, Copy, Debug, PartialEq, Eq, Structural)]
pub enum SegmentPlan {
    /// The held region is already large enough; use it as it stands.
    Reuse { id: u64 },
    /// No region is held; allocate a fresh one.
    Fresh,
    /// The held region is too small: unmap it, release `old_id`, then
    /// allocate a fresh one.
    Replace { old_id: u64 },
}

/// The engine's decision for a frame, taken before any foreign call.
#[derive(Clone, Copy, Debug, PartialEq, Eq, Structural)]
pub enum Plan {
    /// Zero-area frame: present is a no-op.
    Skip,
    /// The fast path is unavailable: draw over the protocol directly.
    Fallback,
    /// Attempt the fast path with a region of at least `need` bytes.
    Fast { need: u64, seg: SegmentPlan },
}

/// Presents pixel buffers to a drawable, preferring the shared-memory
/// transport and falling back to the protocol transport when it is
/// unavailable or fails.
#[derive(Debug)]
pub struct Engine {
    /// Whether the shared-memory transport is available on this display
    /// connection; probed once at construction and never re-probed.
    pub fast_path: bool,
    /// The segment manager, owner of the one reusable shared-memory region.
    pub mgr: SegmentManager,
}

/// The segment decision for a frame of `need` bytes against the held region.
pub open spec fn segment_plan_of(seg: Option<Segment>, need: u64) -> SegmentPlan {
    match seg {
        Some(s) => if s.size >= need {
            SegmentPlan::Reuse { id: s.id }
        } else {
            SegmentPlan::Replace { old_id: s.id }
        },
        None => SegmentPlan::Fresh,
    }
}

/// The requests a fast-path attempt issues once a region of `need` bytes is
/// held under `id`: write the pixels, create the shared image, and, if that
/// succeeded, ask for the shared draw.
pub open spec fn fast_actions(id: u64, need: u64, width: u16, height: u16, out: Outcomes) -> Seq<
    Action,
> {
    if out.fast_create_ok {
        seq![
            Action::WritePixels { size: need },
            Action::CreateSharedImage { id, width, height },
            Action::DrawShared { width, height },
        ]
    } else {
        seq![Action::WritePixels { size: need }, Action::CreateSharedImage { id, width, height }]
    }
}

/// The requests a fallback draw issues: build a byte-backed image with the
/// frame's row stride, and, if that succeeded, draw it and then destroy the
/// transient descriptor — the descriptor never outlives the call, even when
/// the draw itself failed.
pub open spec fn fallback_actions(width: u16, height: u16, out: Outcomes) -> Seq<Action> {
    if out.fallback_create_ok {
        seq![
            Action::CreateImageFromBytes { width, height, stride: (width * 4) as u32 },
            Action::Draw { width, height },
            Action::DestroyImage,
        ]
    } else {
        seq![Action::CreateImageFromBytes { width, height, stride: (width * 4) as u32 }]
    }
}

/// How a fallback draw ends: success only when both the image creation and
/// the draw request succeeded; otherwise the frame is lost and the failure
/// propagates as a protocol failure.
pub open spec fn fallback_result(out: Outcomes) -> Result<FrameResult, Error> {
    if out.fallback_create_ok && out.fallback_draw_ok {
        Ok(FrameResult::FallbackDrawn)
    } else {
        Err(Error::ProtocolFailure)
    }
}

/// The complete model of one present operation: the engine afterwards, the
/// requests issued in order, and the outcome for the frame.
///
/// A zero-area frame asks for nothing. Without the fast-path capability the
/// frame goes straight to the fallback transport, untouched by the segment
/// manager. Otherwise the segment manager acquires a large-enough region;
/// if that or any later fast-path step fails, the frame is retried over the
/// fallback transport, and only a fallback failure is surfaced.
pub open spec fn present_model(e: Engine, width: u16, height: u16, out: Outcomes) -> (
    Engine,
    Seq<Action>,
    Result<FrameResult, Error>,
) {
    if zero_area(width, height) {
        (e, Seq::<Action>::empty(), Ok(FrameResult::Skipped))
    } else if !e.fast_path {
        (e, fallback_actions(width, height, out), fallback_result(out))
    } else {
        let need = frame_bytes(width, height) as u64;
        let acq = acquire_model(e.mgr.seg, need, out.alloc);
        let e2 = Engine { fast_path: e.fast_path, mgr: SegmentManager { seg: acq.0 } };
        match acq.0 {
            Some(s) => if out.fast_create_ok && out.fast_draw_ok {
                (e2, acq.1 + fast_actions(s.id, need, width, height, out), Ok(
                    FrameResult::FastDrawn,
                ))
            } else {
                (
                    e2,
                    acq.1 + fast_actions(s.id, need, width, height, out) + fallback_actions(
                        width,
                        height,
                        out,
                    ),
                    fallback_result(out),
                )
            },
            None => (e2, acq.1 + fallback_actions(width, height, out), fallback_result(out)),
        }
    }
}

impl Engine {
    /// Decide a new engine from what construction-time probing found.
    ///
    /// Construction fails when the windowing library could not be loaded or
    /// when the display or window identification is incomplete, in that
    /// order. Absence of the shared-memory extension is not an error: the
    /// engine is built with the fallback transport only.
    pub fn new(
        xlib_loaded: bool,
        display_present: bool,
        window_id: u64,
        shm_lib_loaded: bool,
        shm_supported: bool,
    ) -> (r: Result<Engine, Error>)
        ensures
            !xlib_loaded ==> r == Err::<Engine, Error>(Error::PlatformUnavailable),
            xlib_loaded && !display_present ==> r == Err::<Engine, Error>(
                Error::IncompleteDisplayHandle,
            ),
            xlib_loaded && display_present && window_id == 0 ==> r == Err::<Engine, Error>(
                Error::IncompleteWindowHandle,
            ),
            xlib_loaded && display_present && window_id != 0 ==> (r matches Ok(e) && e.fast_path
                == (shm_lib_loaded && shm_supported) && e.mgr.seg is None),
    {
        if !xlib_loaded {
            return Err(Error::PlatformUnavailable);
        }
        if !display_present {
            return Err(Error::IncompleteDisplayHandle);
        }
        if window_id == 0 {
            return Err(Error::IncompleteWindowHandle);
        }
        Ok(Engine { fast_path: shm_lib_loaded && shm_supported, mgr: SegmentManager::new() })
    }

    /// The screen to draw on: a requested screen of zero cannot be told from
    /// an unset one, so it is read as "use the connection's default screen".
    pub fn effective_screen(requested: i32, default_screen: i32) -> (r: i32)
        ensures
            r == (if requested == 0 {
                default_screen
            } else {
                requested
            }),
    {
        if requested == 0 {
            default_screen
        } else {
            requested
        }
    }

    /// The engine's decision for a frame, taken before any foreign call:
    /// skip it, draw it over the fallback transport, or attempt the fast
    /// path with the stated segment plan.
    pub fn plan_present(&self, width: u16, height: u16) -> (p: Plan)
        ensures
            zero_area(width, height) ==> p == Plan::Skip,
            !zero_area(width, height) && !self.fast_path ==> p == Plan::Fallback,
            !zero_area(width, height) && self.fast_path ==> p == (Plan::Fast {
                need: frame_bytes(width, height) as u64,
                seg: segment_plan_of(self.mgr.seg, frame_bytes(width, height) as u64),
            }),
    {
        if width == 0 || height == 0 {
            return Plan::Skip;
        }
        if !self.fast_path {
            return Plan::Fallback;
        }
        let need = frame_size_bytes(width, height);
        let seg = match self.mgr.seg {
            Some(s) => if s.size >= need {
                SegmentPlan::Reuse { id: s.id }
            } else {
                SegmentPlan::Replace { old_id: s.id }
            },
            None => SegmentPlan::Fresh,
        };
        Plan::Fast { need, seg }
    }

    /// Run the fallback transport for a frame, appending its requests.
    fn run_fallback(acts: &mut Vec<Action>, width: u16, height: u16, out: &Outcomes) -> (r: Result<
        FrameResult,
        Error,
    >)
        ensures
            final(acts)@ == old(acts)@ + fallback_actions(width, height, *out),
            r == fallback_result(*out),
    {
        let stride = stride_bytes(width);
        acts.push(Action::CreateImageFromBytes { width, height, stride });
        if !out.fallback_create_ok {
            proof {
                assert(acts@ =~= old(acts)@ + fallback_actions(width, height, *out));
            }
            return Err(Error::ProtocolFailure);
        }
        acts.push(Action::Draw { width, height });
        acts.push(Action::DestroyImage);
        proof {
            assert(acts@ =~= old(acts)@ + fallback_actions(width, height, *out));
        }
        if out.fallback_draw_ok {
            Ok(FrameResult::FallbackDrawn)
        } else {
            Err(Error::ProtocolFailure)
        }
    }

    /// Present one frame.
    ///
    /// The caller must supply a buffer of exactly `width * height` pixels; a
    /// mismatch is a misuse of the engine, not a runtime error. The answers
    /// of the display service and the system are taken as `out`; the engine
    /// afterwards, the requests issued and the frame's outcome are exactly
    /// those of [`present_model`].
    pub fn present(&mut self, buffer: &Vec<u32>, width: u16, height: u16, out: &Outcomes) -> (r: (
        Vec<Action>,
        Result<FrameResult, Error>,
    ))
        requires
            buffer@.len() == width * height,
        ensures
            ({
                let m = present_model(*old(self), width, height, *out);
                &&& *final(self) == m.0
                &&& r.0@ == m.1
                &&& r.1 == m.2
            }),
    {
        let ghost m = present_model(*self, width, height, *out);
        let mut acts: Vec<Action> = Vec::new();
        if width == 0 || height == 0 {
            proof {
                assert(acts@ =~= m.1);
            }
            return (acts, Ok(FrameResult::Skipped));
        }
        if !self.fast_path {
            let res = Self::run_fallback(&mut acts, width, height, out);
            proof {
                assert(acts@ =~= m.1);
            }
            return (acts, res);
        }
        let need = frame_size_bytes(width, height);
        let acquired = self.mgr.acquire(&mut acts, need, out.alloc);
        match acquired {
            Ok(s) => {
                acts.push(Action::WritePixels { size: need });
                acts.push(Action::CreateSharedImage { id: s.id, width, height });
                if out.fast_create_ok {
                    acts.push(Action::DrawShared { width, height });
                    if out.fast_draw_ok {
                        proof {
                            assert(acts@ =~= m.1);
                        }
                        return (acts, Ok(FrameResult::FastDrawn));
                    }
                }
                let res = Self::run_fallback(&mut acts, width, height, out);
                proof {
                    assert(acts@ =~= m.1);
                }
                (acts, res)
            },
            Err(_) => {
                let res = Self::run_fallback(&mut acts, width, height, out);
                proof {
                    assert(acts@ =~= m.1);
                }
                (acts, res)
            },
        }
    }

    /// Tear the engine down: hand back the held region, if any, for the
    /// driver to unmap and release. Afterwards no system id is retained.
    pub fn teardown(&mut self) -> (r: Option<Segment>)
        ensures
            final(self).mgr.seg is None,
            final(self).fast_path == old(self).fast_path,
            r == old(self).mgr.seg,
    {
        self.mgr.take()
    }
}

} // verus!
