//! The segment manager: lifecycle of the one reusable shared-memory region.

use vstd::prelude::*;

use crate::action::Action;
use crate::error::Error;

verus! {

/// A shared-memory region held by the segment manager: the system-assigned
/// identifier it was allocated under and its capacity in bytes.
#[derive(Clone, Copy, Debug, PartialEq, Eq, Structural)]
pub struct Segment {
    /// The system identifier of the region.
    pub id: u64,
    /// The capacity of the region in bytes.
    pub size: u64,
}

/// What the system answered when a fresh shared-memory region was requested.
#[derive(Clone, Copy, Debug, PartialEq, Eq, Structural)]
pub enum AllocOutcome {
    /// The region was allocated and mapped; `id` is its system identifier.
    Granted { id: u64 },
    /// The system denied the allocation outright; nothing was created.
    Denied,
    /// The region was allocated under `id`, but mapping it into this process
    /// failed; the id is outstanding and must be released.
    MapDenied { id: u64 },
}

/// Owns at most one shared-memory region at a time, reusing it across frames
/// and recreating it when a larger frame arrives.
#[derive(Debug)]
pub struct SegmentManager {
    /// The region currently held, if any.
    pub seg: Option<Segment>,
}

/// Whether a held region can serve a frame of `need` bytes as it stands.
pub open spec fn seg_fits(seg: Option<Segment>, need: u64) -> bool {
    seg matches Some(s) && s.size >= need
}

/// What acquiring a region of at least `need` bytes does: the region held
/// afterwards (`None` when the system refused) and the requests issued, in
/// order. A region that is too small is unmapped and its id released before
/// the fresh allocation; an id whose mapping failed is released at once.
pub open spec fn acquire_model(seg: Option<Segment>, need: u64, alloc: AllocOutcome) -> (Option<
    Segment,
>, Seq<Action>) {
    if seg_fits(seg, need) {
        (seg, Seq::<Action>::empty())
    } else {
        let pre = match seg {
            Some(s) => seq![Action::UnmapSegment { id: s.id }, Action::ReleaseId { id: s.id }],
            None => Seq::<Action>::empty(),
        };
        match alloc {
            AllocOutcome::Granted { id } => (
                Some(Segment { id, size: need }),
                pre.push(Action::AllocateSegment { size: need }),
            ),
            AllocOutcome::Denied => (None, pre.push(Action::AllocateSegment { size: need })),
            AllocOutcome::MapDenied { id } => (
                None,
                pre.push(Action::AllocateSegment { size: need }).push(Action::ReleaseId { id }),
            ),
        }
    }
}

impl SegmentManager {
    /// A manager holding no region yet.
    pub fn new() -> (r: SegmentManager)
        ensures
            r.seg is None,
    {
        SegmentManager { seg: None }
    }

    /// Make the held region at least `need` bytes large: reuse it when it
    /// already is, otherwise release it and install the outcome of a fresh
    /// allocation. On a mapping failure the fresh id is released before the
    /// error is returned, so no allocated-but-unreleased id is ever left
    /// outstanding.
    pub fn acquire(&mut self, acts: &mut Vec<Action>, need: u64, alloc: AllocOutcome) -> (r: Result<
        Segment,
        Error,
    >)
        ensures
            ({
                let m = acquire_model(old(self).seg, need, alloc);
                &&& final(self).seg == m.0
                &&& final(acts)@ == old(acts)@ + m.1
                &&& (m.0 matches Some(s) ==> r == Ok::<Segment, Error>(s) && s.size >= need)
                &&& (m.0 is None ==> r == Err::<Segment, Error>(Error::ResourceExhausted))
            }),
    {
        let ghost m = acquire_model(self.seg, need, alloc);
        if let Some(s) = self.seg {
            if s.size >= need {
                proof {
                    assert(acts@ =~= acts@ + m.1);
                }
                return Ok(s);
            }
            acts.push(Action::UnmapSegment { id: s.id });
            acts.push(Action::ReleaseId { id: s.id });
        }
        acts.push(Action::AllocateSegment { size: need });
        match alloc {
            AllocOutcome::Granted { id } => {
                let s = Segment { id, size: need };
                self.seg = Some(s);
                proof {
                    assert(acts@ =~= old(acts)@ + m.1);
                }
                Ok(s)
            },
            AllocOutcome::Denied => {
                self.seg = None;
                proof {
                    assert(acts@ =~= old(acts)@ + m.1);
                }
                Err(Error::ResourceExhausted)
            },
            AllocOutcome::MapDenied { id } => {
                acts.push(Action::ReleaseId { id });
                self.seg = None;
                proof {
                    assert(acts@ =~= old(acts)@ + m.1);
                }
                Err(Error::ResourceExhausted)
            },
        }
    }

    /// Record a freshly allocated and mapped region of `size` bytes held
    /// under the system id `id`.
    pub fn install(&mut self, id: u64, size: u64)
        ensures
            final(self).seg == Some((Segment { id, size })),
    {
        self.seg = Some(Segment { id, size });
    }

    /// Hand the held region back for teardown. The caller must unmap it and
    /// then release its id; afterwards the manager holds nothing, so no
    /// system id outlives the engine.
    pub fn take(&mut self) -> (r: Option<Segment>)
        ensures
            final(self).seg is None,
            r == old(self).seg,
    {
        let r = self.seg;
        self.seg = None;
        r
    }
}

} // verus!
