//! The trim marks of a clip: the sub-range of the medium that playback and
//! seeking stay in.

use vstd::prelude::*;
use crate::units::{scaled, Millis, Percent, FULL_SCALE};

verus! {

/// The least distance between the start mark and the end mark: one second.
pub const MARGIN: Millis = 1_000;

/// The end mark of a clip whose medium has not reported its length yet.
pub const UNBOUNDED: Millis = u64::MAX;

/// The start and end marks of a clip, each as a fraction of the medium and as
/// the time that fraction stood for when the mark was set.
#[derive(Debug, Clone, Copy, PartialEq, Eq, Structural)]
pub struct ClipBounds {
    min_percent: Percent,
    max_percent: Percent,
    min_time: Millis,
    max_time: Millis,
}

/// The marks as plain numbers: fractions in millionths, times in
/// milliseconds.
pub struct ClipBoundsView {
    pub min_percent: int,
    pub max_percent: int,
    pub min_time: int,
    pub max_time: int,
}

impl ClipBoundsView {
    /// The start mark lies more than the margin before the end mark, and both
    /// fractions lie between zero and one.
    pub open spec fn wf(self) -> bool {
        &&& 0 <= self.min_percent <= FULL_SCALE
        &&& 0 <= self.max_percent <= FULL_SCALE
        &&& 0 <= self.min_time
        &&& self.min_time + MARGIN < self.max_time
        &&& self.max_time <= u64::MAX
    }

    /// The marks of a fresh session: the whole medium, with no end known.
    pub open spec fn initial() -> ClipBoundsView {
        ClipBoundsView {
            min_percent: 0,
            max_percent: FULL_SCALE as int,
            min_time: 0,
            max_time: UNBOUNDED as int,
        }
    }

    /// Whether the start mark may move to `percent` of a medium of `length`.
    pub open spec fn accepts_min(self, percent: int, length: int) -> bool {
        scaled(length, percent) + MARGIN < self.max_time
    }

    /// Whether the end mark may move to `percent` of a medium of `length`.
    pub open spec fn accepts_max(self, percent: int, length: int) -> bool {
        scaled(length, percent) - MARGIN > self.min_time
    }

    /// The marks after an attempt to move the start mark: moved where the
    /// margin is kept, unchanged otherwise.
    pub open spec fn with_min(self, percent: int, length: int) -> ClipBoundsView {
        if self.accepts_min(percent, length) {
            ClipBoundsView { min_percent: percent, min_time: scaled(length, percent), ..self }
        } else {
            self
        }
    }

    /// The marks after an attempt to move the end mark: moved where the
    /// margin is kept, unchanged otherwise.
    pub open spec fn with_max(self, percent: int, length: int) -> ClipBoundsView {
        if self.accepts_max(percent, length) {
            ClipBoundsView { max_percent: percent, max_time: scaled(length, percent), ..self }
        } else {
            self
        }
    }

    /// The time nearest to `time` that lies between the marks.
    pub open spec fn clamp(self, time: int) -> int {
        if time >= self.max_time {
            self.max_time
        } else if time <= self.min_time {
            self.min_time
        } else {
            time
        }
    }
}

impl View for ClipBounds {
    type V = ClipBoundsView;

    closed spec fn view(&self) -> ClipBoundsView {
        ClipBoundsView {
            min_percent: self.min_percent@,
            max_percent: self.max_percent@,
            min_time: self.min_time as int,
            max_time: self.max_time as int,
        }
    }
}

impl ClipBounds {
    #[verifier::type_invariant]
    closed spec fn margin_kept(self) -> bool {
        &&& self.min_percent.wf()
        &&& self.max_percent.wf()
        &&& self.min_time + MARGIN < self.max_time
    }

    /// The marks of a fresh session.
    pub fn new() -> (bounds: ClipBounds)
        ensures
            bounds@ == ClipBoundsView::initial(),
            bounds@.wf(),
    {
        ClipBounds {
            min_percent: Percent::zero(),
            max_percent: Percent::full(),
            min_time: 0,
            max_time: UNBOUNDED,
        }
    }

    /// The start mark as a fraction of the medium.
    pub fn min_percent(&self) -> (p: Percent)
        ensures
            p@ == self@.min_percent,
            p.wf(),
            self@.wf(),
    {
        proof {
            use_type_invariant(self);
        }
        self.min_percent
    }

    /// The end mark as a fraction of the medium.
    pub fn max_percent(&self) -> (p: Percent)
        ensures
            p@ == self@.max_percent,
            p.wf(),
            self@.wf(),
    {
        proof {
            use_type_invariant(self);
        }
        self.max_percent
    }

    /// The time of the start mark.
    pub fn min_time(&self) -> (t: Millis)
        ensures
            t == self@.min_time,
            self@.wf(),
    {
        proof {
            use_type_invariant(self);
        }
        self.min_time
    }

    /// The time of the end mark.
    pub fn max_time(&self) -> (t: Millis)
        ensures
            t == self@.max_time,
            self@.wf(),
    {
        proof {
            use_type_invariant(self);
        }
        self.max_time
    }

    /// Moves the start mark to `percent` of a medium of `length`, unless that
    /// would bring it within the margin of the end mark: then the marks stay
    /// as they are. Says whether the mark moved.
    pub fn set_min_progress(&mut self, percent: Percent, length: Millis) -> (moved: bool)
        ensures
            old(self)@.wf(),
            final(self)@.wf(),
            final(self)@ == old(self)@.with_min(percent@, length as int),
            moved <==> old(self)@.accepts_min(percent@, length as int),
    {
        proof {
            use_type_invariant(&*self);
        }
        let time = percent.of(length);
        if time < self.max_time && self.max_time - time > MARGIN {
            self.min_percent = percent;
            self.min_time = time;
            true
        } else {
            false
        }
    }

    /// Moves the end mark to `percent` of a medium of `length`, unless that
    /// would bring it within the margin of the start mark: then the marks
    /// stay as they are. Says whether the mark moved.
    pub fn set_max_progress(&mut self, percent: Percent, length: Millis) -> (moved: bool)
        ensures
            old(self)@.wf(),
            final(self)@.wf(),
            final(self)@ == old(self)@.with_max(percent@, length as int),
            moved <==> old(self)@.accepts_max(percent@, length as int),
    {
        proof {
            use_type_invariant(&*self);
        }
        let time = percent.of(length);
        if time > self.min_time && time - self.min_time > MARGIN {
            self.max_percent = percent;
            self.max_time = time;
            true
        } else {
            false
        }
    }

    /// The time nearest to `time` that lies between the marks.
    pub fn clamp_time(&self, time: Millis) -> (t: Millis)
        ensures
            self@.wf(),
            t == self@.clamp(time as int),
            self@.min_time <= t <= self@.max_time,
    {
        proof {
            use_type_invariant(self);
        }
        if time >= self.max_time {
            self.max_time
        } else if time <= self.min_time {
            self.min_time
        } else {
            time
        }
    }
}

/// Whatever fraction and length an update of either mark is tried with, the
/// start mark stays more than the margin before the end mark.
pub proof fn lemma_updates_keep_margin(
    bounds: ClipBoundsView,
    percent: int,
    length: int,
)
    requires
        bounds.wf(),
        0 <= percent <= FULL_SCALE,
        0 <= length <= u64::MAX,
    ensures
        bounds.with_min(percent, length).wf(),
        bounds.with_max(percent, length).wf(),
{
    crate::units::lemma_scaled_bounds(length, percent);
}

/// One attempted update of the trim marks: which mark, to what fraction, of a
/// medium of what length.
pub struct BoundsUpdate {
    pub start_mark: bool,
    pub percent: int,
    pub length: int,
}

impl BoundsUpdate {
    /// The fraction lies between zero and one and the length fits the
    /// machine.
    pub open spec fn wf(self) -> bool {
        &&& 0 <= self.percent <= FULL_SCALE
        &&& 0 <= self.length <= u64::MAX
    }

    /// The marks after this update was tried on `bounds`.
    pub open spec fn apply(self, bounds: ClipBoundsView) -> ClipBoundsView {
        if self.start_mark {
            bounds.with_min(self.percent, self.length)
        } else {
            bounds.with_max(self.percent, self.length)
        }
    }
}

/// The marks after the updates were tried in order, the first one first.
pub open spec fn apply_updates(bounds: ClipBoundsView, updates: Seq<BoundsUpdate>) -> ClipBoundsView
    decreases updates.len(),
{
    if updates.len() == 0 {
        bounds
    } else {
        updates.last().apply(apply_updates(bounds, updates.drop_last()))
    }
}

/// After any burst of updates, in any order and of either mark, the start
/// mark lies more than the margin before the end mark.
pub proof fn lemma_burst_keeps_margin(bounds: ClipBoundsView, updates: Seq<BoundsUpdate>)
    requires
        bounds.wf(),
        forall|i: int| 0 <= i < updates.len() ==> (#[trigger] updates[i]).wf(),
    ensures
        apply_updates(bounds, updates).wf(),
    decreases updates.len(),
{
    if updates.len() > 0 {
        let before = updates.drop_last();
        assert forall|i: int| 0 <= i < before.len() implies (#[trigger] before[i]).wf() by {
            assert(before[i] == updates[i]);
        }
        lemma_burst_keeps_margin(bounds, before);
        let last = updates.last();
        assert(last == updates[updates.len() - 1]);
        lemma_updates_keep_margin(apply_updates(bounds, before), last.percent, last.length);
    }
}

} // verus!
