//! The drag-and-seek engine: where on a bar the pointer is, which bars are
//! being dragged, and what a gesture sets.

use vstd::prelude::*;
use crate::errors::PlayerError;
use crate::events::CallbackEvent;
use crate::shared::{SessionView, SharedVideoPlayer};
use crate::units::{ratio, Percent, FULL_SCALE};

verus! {

/// The fraction of a bar that lies left of the pointer, in millionths: zero
/// at and left of the bar's left edge, one at and right of its right edge.
pub open spec fn spec_pointer_percent(pointer_x: int, left: int, width: int) -> int {
    if pointer_x <= left {
        0
    } else {
        ratio(pointer_x - left, width)
    }
}

/// Maps the pointer to the fraction of a bar that lies left of it. The bar
/// starts at `left` and is `width` wide, in the units of `pointer_x`. A bar
/// without width has no such fraction.
pub fn pointer_percent(pointer_x: i64, left: i64, width: u64) -> (r: Result<Percent, PlayerError>)
    ensures
        r is Err <==> width == 0,
        r matches Err(e) ==> e == PlayerError::DegenerateGeometry,
        r matches Ok(p) ==> p.wf() && p@ == spec_pointer_percent(
            pointer_x as int,
            left as int,
            width as int,
        ) && p == Percent::spec_new(p@),
        r matches Ok(p) ==> (pointer_x <= left ==> p@ == 0) && (pointer_x - left >= width ==> p@
            == FULL_SCALE),
{
    if width == 0 {
        Err(PlayerError::DegenerateGeometry)
    } else if pointer_x <= left {
        Ok(Percent::zero())
    } else {
        let offset: i128 = pointer_x as i128 - left as i128;
        let part: u64 = offset as u64;
        match Percent::from_ratio(part, width) {
            Some(p) => Ok(p),
            None => Err(PlayerError::DegenerateGeometry),
        }
    }
}

/// Outside the bar the fraction is exactly zero or exactly one, and inside
/// it lies between them.
pub proof fn lemma_pointer_percent_clamped(pointer_x: int, left: int, width: int)
    requires
        0 < width <= u64::MAX,
    ensures
        0 <= spec_pointer_percent(pointer_x, left, width) <= FULL_SCALE,
        pointer_x <= left ==> spec_pointer_percent(pointer_x, left, width) == 0,
        pointer_x >= left + width ==> spec_pointer_percent(pointer_x, left, width) == FULL_SCALE,
{
    if pointer_x > left && pointer_x - left < width {
        crate::units::lemma_ratio_bounds(pointer_x - left, width);
    }
}

/// What can be dragged.
#[derive(Debug, Clone, Copy, PartialEq, Eq, Structural)]
pub enum DragTarget {
    ProgressBar,
    VolumeBar,
    StartTrim,
    EndTrim,
}

impl DragTarget {
    /// The identifier of the element that stands for this target.
    pub open spec fn spec_id(self) -> Seq<char> {
        match self {
            DragTarget::ProgressBar => "progress-bar"@,
            DragTarget::VolumeBar => "volume-slider"@,
            DragTarget::StartTrim => "start-dot"@,
            DragTarget::EndTrim => "end-dot"@,
        }
    }

    /// The target that the element with this identifier stands for.
    pub open spec fn spec_from_id(id: Seq<char>) -> Option<DragTarget> {
        if id == "progress-bar"@ {
            Some(DragTarget::ProgressBar)
        } else if id == "start-dot"@ {
            Some(DragTarget::StartTrim)
        } else if id == "end-dot"@ {
            Some(DragTarget::EndTrim)
        } else if id == "volume-slider"@ {
            Some(DragTarget::VolumeBar)
        } else {
            None
        }
    }

    /// The identifier of the element that stands for this target.
    pub fn id(&self) -> (id: &'static str)
        ensures
            id@ == self.spec_id(),
    {
        match self {
            DragTarget::ProgressBar => "progress-bar",
            DragTarget::VolumeBar => "volume-slider",
            DragTarget::StartTrim => "start-dot",
            DragTarget::EndTrim => "end-dot",
        }
    }

    /// The target that the element with this identifier stands for, if it
    /// stands for one.
    pub fn from_id(id: &str) -> (target: Option<DragTarget>)
        ensures
            target == Self::spec_from_id(id@),
    {
        let id = String::from_str(id);
        if id == String::from_str("progress-bar") {
            Some(DragTarget::ProgressBar)
        } else if id == String::from_str("start-dot") {
            Some(DragTarget::StartTrim)
        } else if id == String::from_str("end-dot") {
            Some(DragTarget::EndTrim)
        } else if id == String::from_str("volume-slider") {
            Some(DragTarget::VolumeBar)
        } else {
            None
        }
    }

    /// Each target is found again by its identifier.
    pub proof fn lemma_id_round_trip(self)
        ensures
            Self::spec_from_id(self.spec_id()) == Some(self),
    {
        reveal_strlit("progress-bar");
        reveal_strlit("volume-slider");
        reveal_strlit("start-dot");
        reveal_strlit("end-dot");
        assert("progress-bar"@.len() == 12);
        assert("volume-slider"@.len() == 13);
        assert("start-dot"@.len() == 9);
        assert("end-dot"@.len() == 7);
    }
}

/// Which targets are being dragged.
#[derive(Debug, Clone, Copy, PartialEq, Eq, Structural)]
pub struct DragFlags {
    pub progress_bar: bool,
    pub volume_bar: bool,
    pub start_trim: bool,
    pub end_trim: bool,
}

impl DragFlags {
    /// No target is being dragged.
    pub open spec fn spec_none() -> DragFlags {
        DragFlags { progress_bar: false, volume_bar: false, start_trim: false, end_trim: false }
    }

    /// Whether `target` is being dragged.
    pub open spec fn spec_get(self, target: DragTarget) -> bool {
        match target {
            DragTarget::ProgressBar => self.progress_bar,
            DragTarget::VolumeBar => self.volume_bar,
            DragTarget::StartTrim => self.start_trim,
            DragTarget::EndTrim => self.end_trim,
        }
    }

    /// The flags with that of `target` set to `dragging`.
    pub open spec fn spec_set(self, target: DragTarget, dragging: bool) -> DragFlags {
        match target {
            DragTarget::ProgressBar => DragFlags { progress_bar: dragging, ..self },
            DragTarget::VolumeBar => DragFlags { volume_bar: dragging, ..self },
            DragTarget::StartTrim => DragFlags { start_trim: dragging, ..self },
            DragTarget::EndTrim => DragFlags { end_trim: dragging, ..self },
        }
    }

    /// No target is being dragged.
    pub fn none() -> (flags: DragFlags)
        ensures
            flags == Self::spec_none(),
    {
        DragFlags { progress_bar: false, volume_bar: false, start_trim: false, end_trim: false }
    }

    /// Whether `target` is being dragged.
    pub fn get(&self, target: DragTarget) -> (dragging: bool)
        ensures
            dragging == self.spec_get(target),
    {
        match target {
            DragTarget::ProgressBar => self.progress_bar,
            DragTarget::VolumeBar => self.volume_bar,
            DragTarget::StartTrim => self.start_trim,
            DragTarget::EndTrim => self.end_trim,
        }
    }

    /// Sets the flag of `target` and leaves the others.
    pub fn set(&mut self, target: DragTarget, dragging: bool)
        ensures
            *final(self) == old(self).spec_set(target, dragging),
    {
        match target {
            DragTarget::ProgressBar => self.progress_bar = dragging,
            DragTarget::VolumeBar => self.volume_bar = dragging,
            DragTarget::StartTrim => self.start_trim = dragging,
            DragTarget::EndTrim => self.end_trim = dragging,
        }
    }
}

/// The context of a pointer gesture: the cell of the session, which targets
/// are being dragged, and the target and fraction of the pointer event at
/// hand.
#[derive(Debug)]
pub struct DragEventCtx {
    pub video_player: SharedVideoPlayer,
    pub currently_moving: DragFlags,
    pub percent: Percent,
    pub clicked: Option<DragTarget>,
}

/// The context of a gesture as plain data.
pub struct DragView {
    pub player: SessionView,
    pub dragging: DragFlags,
    pub percent: Percent,
    pub clicked: Option<DragTarget>,
}

impl View for DragEventCtx {
    type V = DragView;

    open spec fn view(&self) -> DragView {
        DragView {
            player: self.video_player@,
            dragging: self.currently_moving,
            percent: self.percent,
            clicked: self.clicked,
        }
    }
}

impl DragView {
    /// The cell after `percent` was applied to what `target` is bound to:
    /// the position, the volume, or one of the trim marks, which stays
    /// where it is if the margin would be lost.
    pub open spec fn applied(self, target: DragTarget, percent: Percent) -> SessionView {
        match target {
            DragTarget::ProgressBar => self.player.sought(percent),
            DragTarget::VolumeBar => self.player.with_volume(percent),
            DragTarget::StartTrim => self.player.with_min(percent),
            DragTarget::EndTrim => self.player.with_max(percent),
        }
    }

    /// The context after pointer-down on its target: the fraction is
    /// applied and the target is being dragged.
    pub open spec fn down(self) -> DragView {
        match self.clicked {
            Some(target) => DragView {
                player: self.applied(target, self.percent),
                dragging: self.dragging.spec_set(target, true),
                ..self
            },
            None => self,
        }
    }

    /// The context after a pointer move for its target: the fraction is
    /// applied if that target is being dragged, and nothing changes if it
    /// is not.
    pub open spec fn moved(self) -> DragView {
        match self.clicked {
            Some(target) => if self.dragging.spec_get(target) {
                DragView { player: self.applied(target, self.percent), ..self }
            } else {
                self
            },
            None => self,
        }
    }

    /// The context after pointer-up: no target is being dragged.
    pub open spec fn up(self) -> DragView {
        DragView { dragging: DragFlags::spec_none(), ..self }
    }
}

impl DragEventCtx {
    /// The context of a session on which no gesture has begun.
    pub fn new(video_player: SharedVideoPlayer) -> (ctx: DragEventCtx)
        ensures
            ctx@ == (DragView {
                player: video_player@,
                dragging: DragFlags::spec_none(),
                percent: Percent::spec_zero(),
                clicked: None,
            }),
    {
        DragEventCtx {
            video_player,
            currently_moving: DragFlags::none(),
            percent: Percent::zero(),
            clicked: None,
        }
    }

    /// Records the fraction of the pointer event at hand.
    pub fn set_percent(&mut self, percent: Percent)
        ensures
            final(self)@ == (DragView { percent, ..old(self)@ }),
    {
        self.percent = percent
    }

    /// Records whether `target` is being dragged.
    pub fn set_moving(&mut self, target: DragTarget, moving: bool)
        ensures
            final(self)@ == (DragView {
                dragging: old(self)@.dragging.spec_set(target, moving),
                ..old(self)@
            }),
    {
        self.currently_moving.set(target, moving)
    }

    /// Records the target of the pointer event at hand.
    pub fn set_clicked(&mut self, clicked: Option<DragTarget>)
        ensures
            final(self)@ == (DragView { clicked, ..old(self)@ }),
    {
        self.clicked = clicked
    }

    /// Whether any target is being dragged.
    pub fn is_clicked(&self) -> (any: bool)
        ensures
            any == (self@.dragging != DragFlags::spec_none()),
    {
        self.currently_moving.progress_bar || self.currently_moving.volume_bar
            || self.currently_moving.start_trim || self.currently_moving.end_trim
    }

    /// Applies `percent` to what `target` is bound to. A trim mark that
    /// would lose its margin stays where it is, and nothing is said of it.
    fn apply(&mut self, target: DragTarget, percent: Percent)
        ensures
            final(self)@ == (DragView {
                player: old(self)@.applied(target, percent),
                ..old(self)@
            }),
    {
        match target {
            DragTarget::ProgressBar => {
                self.video_player.set_video_progress(percent);
            },
            DragTarget::VolumeBar => {
                self.video_player.set_volume(percent);
            },
            DragTarget::StartTrim => {
                let _ = self.video_player.set_min_progress(percent);
            },
            DragTarget::EndTrim => {
                let _ = self.video_player.set_max_progress(percent);
            },
        }
    }
}

/// Pointer-down on a target.
#[derive(Debug, Clone, Copy, PartialEq, Eq, Structural)]
pub struct DragClickEvent {}

impl DragClickEvent {
    pub fn new() -> (event: DragClickEvent) {
        DragClickEvent {  }
    }
}

impl CallbackEvent<DragEventCtx> for DragClickEvent {
    /// Begins a drag of the target in the context: the fraction in the
    /// context is applied at once and the target is being dragged from now
    /// on. Other targets keep their flags. It never fails.
    fn trigger(&mut self, ctx: &mut DragEventCtx) -> (r: Result<(), PlayerError>)
        ensures
            r is Ok,
            final(ctx)@ == old(ctx)@.down(),
    {
        match ctx.clicked {
            Some(target) => {
                ctx.set_moving(target, true);
                let percent = ctx.percent;
                ctx.apply(target, percent);
            },
            None => {},
        }
        Ok(())
    }
}

/// A pointer move for a target.
#[derive(Debug, Clone, Copy, PartialEq, Eq, Structural)]
pub struct DragMoveEvent {}

impl DragMoveEvent {
    pub fn new() -> (event: DragMoveEvent) {
        DragMoveEvent {  }
    }
}

impl CallbackEvent<DragEventCtx> for DragMoveEvent {
    /// Applies the fraction in the context if the target in the context is
    /// being dragged, and does nothing if it is not, whatever else is being
    /// dragged. It never fails.
    fn trigger(&mut self, ctx: &mut DragEventCtx) -> (r: Result<(), PlayerError>)
        ensures
            r is Ok,
            final(ctx)@ == old(ctx)@.moved(),
    {
        match ctx.clicked {
            Some(target) => {
                if ctx.currently_moving.get(target) {
                    let percent = ctx.percent;
                    ctx.apply(target, percent);
                }
            },
            None => {},
        }
        Ok(())
    }
}

/// Pointer-up, anywhere.
#[derive(Debug, Clone, Copy, PartialEq, Eq, Structural)]
pub struct DragExitEvent {}

impl DragExitEvent {
    pub fn new() -> (event: DragExitEvent) {
        DragExitEvent {  }
    }
}

impl CallbackEvent<DragEventCtx> for DragExitEvent {
    /// Ends every drag at once. It never fails.
    fn trigger(&mut self, ctx: &mut DragEventCtx) -> (r: Result<(), PlayerError>)
        ensures
            r is Ok,
            final(ctx)@ == old(ctx)@.up(),
    {
        ctx.currently_moving = DragFlags::none();
        Ok(())
    }
}

/// Where a bar is: its left edge and its width, in the units of the pointer
/// position.
#[derive(Debug, Clone, Copy, PartialEq, Eq, Structural)]
pub struct DragSliderElement {
    pub slider_left: i64,
    pub slider_width: u64,
}

impl DragSliderElement {
    /// The fraction of this bar that lies left of the pointer.
    pub open spec fn spec_percent(self, pointer_x: i64) -> Percent {
        Percent::spec_new(
            spec_pointer_percent(
                pointer_x as int,
                self.slider_left as int,
                self.slider_width as int,
            ),
        )
    }
}

/// The handler of pointer-down on one target.
#[derive(Debug, Clone, Copy, PartialEq, Eq, Structural)]
pub struct DragClickClosure {
    pub slider: DragSliderElement,
    pub slider_type: Option<DragTarget>,
    pub callback: DragClickEvent,
}

impl DragClickClosure {
    /// The handler for `target` on a bar that starts at `left` and is
    /// `width` wide.
    pub fn new(target: Option<DragTarget>, left: i64, width: u64) -> (handler: DragClickClosure)
        ensures
            handler.slider == (DragSliderElement { slider_left: left, slider_width: width }),
            handler.slider_type == target,
    {
        DragClickClosure {
            slider: DragSliderElement { slider_left: left, slider_width: width },
            slider_type: target,
            callback: DragClickEvent::new(),
        }
    }

    /// The handler for `target` that measures the pointer against `bar`,
    /// which need not be the element of the target itself: a trim handle is
    /// measured against the progress bar.
    pub fn new_dom_rec(target: Option<DragTarget>, bar: DragSliderElement) -> (handler:
        DragClickClosure)
        ensures
            handler.slider == bar,
            handler.slider_type == target,
    {
        DragClickClosure { slider: bar, slider_type: target, callback: DragClickEvent::new() }
    }

    /// The context after pointer-down at `pointer_x`: unchanged on a bar
    /// without width; otherwise the fraction of the bar left of the pointer
    /// and the target are recorded and the drag begins.
    pub open spec fn spec_pointer_down(self, ctx: DragView, pointer_x: i64) -> DragView {
        if self.slider.slider_width == 0 {
            ctx
        } else {
            (DragView {
                percent: self.slider.spec_percent(pointer_x),
                clicked: self.slider_type,
                ..ctx
            }).down()
        }
    }

    /// Takes pointer-down at `pointer_x`: the pointer is mapped to a
    /// fraction of the bar, the fraction is applied to what the target is
    /// bound to, and the target is being dragged. On a bar without width
    /// nothing happens at all, and the degenerate geometry is returned.
    pub fn closure(&self, ctx: &mut DragEventCtx, pointer_x: i64) -> (r: Result<
        (),
        PlayerError,
    >)
        ensures
            r is Err <==> self.slider.slider_width == 0,
            r matches Err(e) ==> e == PlayerError::DegenerateGeometry,
            final(ctx)@ == self.spec_pointer_down(old(ctx)@, pointer_x),
    {
        match pointer_percent(pointer_x, self.slider.slider_left, self.slider.slider_width) {
            Ok(percent) => {
                ctx.set_percent(percent);
                ctx.set_clicked(self.slider_type);
                let mut callback = self.callback;
                callback.trigger(ctx)
            },
            Err(e) => Err(e),
        }
    }
}

/// The handler of pointer moves: it knows where the bar of each target is.
#[derive(Debug, Clone, Copy, PartialEq, Eq, Structural)]
pub struct DragMoveClosure {
    pub progress_bar: Option<DragSliderElement>,
    pub volume_bar: Option<DragSliderElement>,
    pub start_trim: Option<DragSliderElement>,
    pub end_trim: Option<DragSliderElement>,
    pub callback: DragMoveEvent,
}

impl DragMoveClosure {
    /// The bar that `target` is measured against, if one was given.
    pub open spec fn spec_slider(self, target: DragTarget) -> Option<DragSliderElement> {
        match target {
            DragTarget::ProgressBar => self.progress_bar,
            DragTarget::VolumeBar => self.volume_bar,
            DragTarget::StartTrim => self.start_trim,
            DragTarget::EndTrim => self.end_trim,
        }
    }

    /// The handler that knows no bar yet.
    pub fn new() -> (handler: DragMoveClosure)
        ensures
            forall|target: DragTarget| handler.spec_slider(target) is None,
    {
        DragMoveClosure {
            progress_bar: None,
            volume_bar: None,
            start_trim: None,
            end_trim: None,
            callback: DragMoveEvent::new(),
        }
    }

    /// Records the bar that `target` is measured against.
    pub fn insert(&mut self, target: DragTarget, bar: DragSliderElement)
        ensures
            final(self).spec_slider(target) == Some(bar),
            forall|other: DragTarget|
                other != target ==> final(self).spec_slider(other) == old(self).spec_slider(other),
    {
        match target {
            DragTarget::ProgressBar => self.progress_bar = Some(bar),
            DragTarget::VolumeBar => self.volume_bar = Some(bar),
            DragTarget::StartTrim => self.start_trim = Some(bar),
            DragTarget::EndTrim => self.end_trim = Some(bar),
        }
    }

    /// The bar that `target` is measured against, if one was given.
    pub fn get(&self, target: DragTarget) -> (bar: Option<DragSliderElement>)
        ensures
            bar == self.spec_slider(target),
    {
        match target {
            DragTarget::ProgressBar => self.progress_bar,
            DragTarget::VolumeBar => self.volume_bar,
            DragTarget::StartTrim => self.start_trim,
            DragTarget::EndTrim => self.end_trim,
        }
    }

    /// The context after a pointer move at `pointer_x` for `target`:
    /// unchanged while the target is not being dragged, has no bar, or has a
    /// bar without width; otherwise the fraction of the bar left of the
    /// pointer and the target are recorded and the fraction is applied.
    pub open spec fn spec_pointer_moved(
        self,
        ctx: DragView,
        target: DragTarget,
        pointer_x: i64,
    ) -> DragView {
        if !ctx.dragging.spec_get(target) {
            ctx
        } else {
            match self.spec_slider(target) {
                Some(bar) => if bar.slider_width == 0 {
                    ctx
                } else {
                    (DragView {
                        percent: bar.spec_percent(pointer_x),
                        clicked: Some(target),
                        ..ctx
                    }).moved()
                },
                None => ctx,
            }
        }
    }

    /// Whether a pointer move for `target` meets a bar without width while
    /// the target is being dragged.
    pub open spec fn spec_degenerate(self, ctx: DragView, target: DragTarget) -> bool {
        ctx.dragging.spec_get(target) && (self.spec_slider(target) matches Some(bar)
            && bar.slider_width == 0)
    }

    /// Takes a pointer move at `pointer_x` for `target`. While the target
    /// is not being dragged, or has no bar, nothing happens at all; on a
    /// bar without width nothing happens either, and the degenerate
    /// geometry is returned. Otherwise the pointer is mapped to a fraction
    /// of the bar and the fraction is applied to what the target is bound
    /// to.
    pub fn handle_closure(&self, ctx: &mut DragEventCtx, target: DragTarget, pointer_x: i64) -> (r:
        Result<(), PlayerError>)
        ensures
            r is Err <==> self.spec_degenerate(old(ctx)@, target),
            r matches Err(e) ==> e == PlayerError::DegenerateGeometry,
            final(ctx)@ == self.spec_pointer_moved(old(ctx)@, target, pointer_x),
    {
        if !ctx.currently_moving.get(target) {
            return Ok(());
        }
        match self.get(target) {
            Some(bar) => {
                match pointer_percent(pointer_x, bar.slider_left, bar.slider_width) {
                    Ok(percent) => {
                        ctx.set_percent(percent);
                        ctx.set_clicked(Some(target));
                        let mut callback = self.callback;
                callback.trigger(ctx)
                    },
                    Err(e) => Err(e),
                }
            },
            None => Ok(()),
        }
    }
}

/// The handler of pointer-up.
#[derive(Debug, Clone, Copy, PartialEq, Eq, Structural)]
pub struct DragExitClosure {
    pub callback: DragExitEvent,
}

impl DragExitClosure {
    pub fn new() -> (handler: DragExitClosure) {
        DragExitClosure { callback: DragExitEvent::new() }
    }

    /// Takes pointer-up: no target is being dragged any more.
    pub fn closure(&self, ctx: &mut DragEventCtx) -> (r: Result<(), PlayerError>)
        ensures
            r is Ok,
            final(ctx)@ == old(ctx)@.up(),
    {
        let mut callback = self.callback;
        callback.trigger(ctx)
    }
}

/// A pointer move for a target that is not being dragged changes nothing,
/// whichever other targets are being dragged: neither the move event nor
/// the handler that maps the pointer for it touches the context.
pub proof fn lemma_move_without_drag_is_ignored(
    ctx: DragView,
    target: DragTarget,
    handler: DragMoveClosure,
    pointer_x: i64,
)
    requires
        !ctx.dragging.spec_get(target),
    ensures
        ctx.clicked == Some(target) ==> ctx.moved() == ctx,
        handler.spec_pointer_moved(ctx, target, pointer_x) == ctx,
{
}

/// Pointer-down on one target leaves the flags of the others as they were,
/// and pointer-up clears them all.
pub proof fn lemma_down_sets_one_flag(ctx: DragView, target: DragTarget, other: DragTarget)
    requires
        ctx.clicked == Some(target),
    ensures
        ctx.down().dragging.spec_get(target),
        other != target ==> ctx.down().dragging.spec_get(other) == ctx.dragging.spec_get(other),
        !ctx.down().up().dragging.spec_get(other),
        !ctx.up().dragging.spec_get(other),
{
}

} // verus!
