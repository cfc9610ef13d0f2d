//! The events that input sources fire: each is a small behaviour object
//! that changes a context when it is triggered.

use std::marker::PhantomData;
use vstd::prelude::*;
use crate::errors::PlayerError;
use crate::player::Lifecycle;
use crate::shared::{SessionView, SharedVideoPlayer};
use crate::surface::Command;
use crate::units::Millis;

verus! {

/// A behaviour that an input source triggers on a context of type `T`.
///
/// An error says what the event could not do; the context is valid either
/// way, and the source goes on with the next event.
pub trait CallbackEvent<T> {
    /// Fires the event on `ctx`.
    fn trigger(&mut self, ctx: &mut T) -> (r: Result<(), PlayerError>);
}

/// Play, pause or restart, whichever the state of the session calls for.
#[derive(Debug, Clone, Copy, PartialEq, Eq, Structural)]
pub struct PlayPauseEvent {}

impl PlayPauseEvent {
    pub fn new() -> (event: PlayPauseEvent) {
        PlayPauseEvent {  }
    }
}

impl CallbackEvent<SharedVideoPlayer> for PlayPauseEvent {
    /// Dispatches play/pause on the cell. It never fails: a surface that
    /// refuses to resume leaves the session paused.
    fn trigger(&mut self, ctx: &mut SharedVideoPlayer) -> (r: Result<(), PlayerError>)
        ensures
            r is Ok,
            *final(self) == *old(self),
            final(ctx)@ == old(ctx)@.play_pause(),
    {
        ctx.play_pause()
    }
}

/// Switches the sound off and on in turn.
#[derive(Debug, Clone, Copy, PartialEq, Eq, Structural)]
pub struct MuteUnmuteEvent {
    muted: bool,
}

impl MuteUnmuteEvent {
    /// Whether the sound is on, as far as this event has switched it.
    pub closed spec fn spec_is_unmuted(&self) -> bool {
        !self.muted
    }

    /// The event after it has fired once more.
    pub closed spec fn spec_toggled(self) -> MuteUnmuteEvent {
        MuteUnmuteEvent { muted: !self.muted }
    }

    /// What the event issues when it fires: mute where the sound is on,
    /// unmute where it is off.
    pub open spec fn spec_commands(self) -> Seq<Command> {
        if self.spec_is_unmuted() {
            seq![Command::Mute(true), Command::SwapMuteButton]
        } else {
            seq![Command::Mute(false), Command::SwapUnmuteButton]
        }
    }

    /// Firing flips the event between muted and unmuted.
    pub proof fn lemma_toggled(self)
        ensures
            self.spec_toggled().spec_is_unmuted() == !self.spec_is_unmuted(),
            self.spec_toggled().spec_toggled() == self,
    {
    }

    /// The event of a session whose sound is on.
    pub closed spec fn spec_new() -> MuteUnmuteEvent {
        MuteUnmuteEvent { muted: false }
    }

    /// The event of a session whose sound is on.
    pub fn new() -> (event: MuteUnmuteEvent)
        ensures
            event == Self::spec_new(),
            event.spec_is_unmuted(),
    {
        MuteUnmuteEvent { muted: false }
    }

    /// Whether the sound is on, as far as this event has switched it.
    pub fn is_unmuted(&self) -> (unmuted: bool)
        ensures
            unmuted == self.spec_is_unmuted(),
    {
        !self.muted
    }
}

impl CallbackEvent<SharedVideoPlayer> for MuteUnmuteEvent {
    /// Mutes where the sound is on and unmutes where it is off. It never
    /// fails.
    fn trigger(&mut self, ctx: &mut SharedVideoPlayer) -> (r: Result<(), PlayerError>)
        ensures
            r is Ok,
            *final(self) == old(self).spec_toggled(),
            final(self).spec_is_unmuted() == !old(self).spec_is_unmuted(),
            final(ctx)@ == old(ctx)@.issue(old(self).spec_commands()),
    {
        if self.is_unmuted() {
            ctx.mute();
            self.muted = true;
        } else {
            ctx.unmute();
            self.muted = false;
        }
        Ok(())
    }
}

/// The tick of the surface: its position has advanced.
#[derive(Debug, Clone, Copy, PartialEq, Eq, Structural)]
pub struct ProgressBarChangeEvent {}

impl ProgressBarChangeEvent {
    pub fn new() -> (event: ProgressBarChangeEvent) {
        ProgressBarChangeEvent {  }
    }
}

impl CallbackEvent<SharedVideoPlayer> for ProgressBarChangeEvent {
    /// Takes the tick on a playing session; on any other it is an invalid
    /// state transition and nothing changes.
    fn trigger(&mut self, ctx: &mut SharedVideoPlayer) -> (r: Result<(), PlayerError>)
        ensures
            *final(self) == *old(self),
            r is Ok <==> old(ctx)@.tag() == Lifecycle::Playing,
            r is Ok ==> final(ctx)@ == old(ctx)@.ticked(),
            r matches Err(e) ==> e == PlayerError::InvalidStateTransition && final(ctx)@ == old(ctx)@,
    {
        ctx.set_video_time()
    }
}

/// The settings control. It has no effect on the session.
#[derive(Debug, Clone, Copy, PartialEq, Eq, Structural)]
pub struct SettingsEvent {}

impl SettingsEvent {
    pub fn new() -> (event: SettingsEvent) {
        SettingsEvent {  }
    }
}

impl CallbackEvent<SharedVideoPlayer> for SettingsEvent {
    /// Leaves the session as it is.
    fn trigger(&mut self, ctx: &mut SharedVideoPlayer) -> (r: Result<(), PlayerError>)
        ensures
            r is Ok,
            *final(self) == *old(self),
            final(ctx)@ == old(ctx)@,
    {
        Ok(())
    }
}

/// The full-screen control. It has no effect on the session.
#[derive(Debug, Clone, Copy, PartialEq, Eq, Structural)]
pub struct FullScreenEvent {}

impl FullScreenEvent {
    pub fn new() -> (event: FullScreenEvent) {
        FullScreenEvent {  }
    }
}

impl CallbackEvent<SharedVideoPlayer> for FullScreenEvent {
    /// Leaves the session as it is.
    fn trigger(&mut self, ctx: &mut SharedVideoPlayer) -> (r: Result<(), PlayerError>)
        ensures
            r is Ok,
            *final(self) == *old(self),
            final(ctx)@ == old(ctx)@,
    {
        Ok(())
    }
}

/// A skip of five seconds back.
#[derive(Debug, Clone, Copy, PartialEq, Eq, Structural)]
pub struct RewindEvent {}

impl RewindEvent {
    pub fn new() -> (event: RewindEvent) {
        RewindEvent {  }
    }
}

impl CallbackEvent<SharedVideoPlayer> for RewindEvent {
    /// Seeks five seconds back, but not before the start of the medium. It
    /// never fails.
    fn trigger(&mut self, ctx: &mut SharedVideoPlayer) -> (r: Result<(), PlayerError>)
        ensures
            r is Ok,
            *final(self) == *old(self),
            final(ctx)@ == old(ctx)@.issue(
                seq![Command::Seek(old(ctx)@.report.spec_rewind_target() as Millis)],
            ),
    {
        ctx.rewind();
        Ok(())
    }
}

/// A skip of five seconds forward.
#[derive(Debug, Clone, Copy, PartialEq, Eq, Structural)]
pub struct FastForwardEvent {}

impl FastForwardEvent {
    pub fn new() -> (event: FastForwardEvent) {
        FastForwardEvent {  }
    }
}

impl CallbackEvent<SharedVideoPlayer> for FastForwardEvent {
    /// Seeks five seconds forward, but not beyond the end of the medium. It
    /// never fails.
    fn trigger(&mut self, ctx: &mut SharedVideoPlayer) -> (r: Result<(), PlayerError>)
        ensures
            r is Ok,
            *final(self) == *old(self),
            final(ctx)@ == old(ctx)@.issue(
                seq![Command::Seek(old(ctx)@.report.spec_fast_forward_target() as Millis)],
            ),
    {
        ctx.fast_forward();
        Ok(())
    }
}

/// The direction of a step on the speed ladder, as a type.
pub trait PlaybackSpeedAction {
    /// Whether the step goes up.
    spec fn spec_increases() -> bool;

    /// Whether the step goes up.
    fn increases() -> (up: bool)
        ensures
            up == Self::spec_increases(),
    ;
}

/// A step up the speed ladder.
#[derive(Debug, Clone, Copy)]
pub enum PlaybackIncreaseAction {
    Action,
}

/// A step down the speed ladder.
#[derive(Debug, Clone, Copy)]
pub enum PlaybackDecreaseAction {
    Action,
}

impl PlaybackSpeedAction for PlaybackIncreaseAction {
    open spec fn spec_increases() -> bool {
        true
    }

    fn increases() -> (up: bool) {
        true
    }
}

impl PlaybackSpeedAction for PlaybackDecreaseAction {
    open spec fn spec_increases() -> bool {
        false
    }

    fn increases() -> (up: bool) {
        false
    }
}

/// One step on the speed ladder, in the direction `A`.
#[derive(Debug)]
pub struct PlaybackSpeedEvent<A: PlaybackSpeedAction> {
    marker: PhantomData<A>,
}

impl<A: PlaybackSpeedAction> Clone for PlaybackSpeedEvent<A> {
    fn clone(&self) -> (copy: Self)
        ensures
            copy == *self,
    {
        PlaybackSpeedEvent { marker: PhantomData }
    }
}

impl<A: PlaybackSpeedAction> Copy for PlaybackSpeedEvent<A> {

}

impl<A: PlaybackSpeedAction> PlaybackSpeedEvent<A> {
    /// The step in the direction `A`.
    pub closed spec fn spec_new() -> PlaybackSpeedEvent<A> {
        PlaybackSpeedEvent { marker: PhantomData }
    }

    /// The step in the direction `A`.
    pub fn new() -> (event: PlaybackSpeedEvent<A>)
        ensures
            event == Self::spec_new(),
    {
        PlaybackSpeedEvent { marker: PhantomData }
    }
}

impl<A: PlaybackSpeedAction> CallbackEvent<SharedVideoPlayer> for PlaybackSpeedEvent<A> {
    /// Moves the session one rung up or down the speed ladder, staying on
    /// the last rung, and hands the surface the speed of the rung reached.
    /// It never fails.
    fn trigger(&mut self, ctx: &mut SharedVideoPlayer) -> (r: Result<(), PlayerError>)
        ensures
            r is Ok,
            *final(self) == *old(self),
            final(ctx)@ == old(ctx)@.with_speed(
                if A::spec_increases() {
                    old(ctx)@.player.core.speed.spec_increment()
                } else {
                    old(ctx)@.player.core.speed.spec_decrement()
                },
            ),
    {
        if A::increases() {
            ctx.increment_video_speed();
        } else {
            ctx.decrement_video_speed();
        }
        Ok(())
    }
}

/// Any of the events that act on the cell of a session, so that events of
/// different kinds can stand in one table.
#[derive(Debug, Clone, Copy)]
pub enum VideoEvent {
    PlayPause(PlayPauseEvent),
    MuteUnmute(MuteUnmuteEvent),
    ProgressBarChange(ProgressBarChangeEvent),
    Settings(SettingsEvent),
    FullScreen(FullScreenEvent),
    Rewind(RewindEvent),
    FastForward(FastForwardEvent),
    PlaybackIncrease(PlaybackSpeedEvent<PlaybackIncreaseAction>),
    PlaybackDecrease(PlaybackSpeedEvent<PlaybackDecreaseAction>),
}

impl VideoEvent {
    /// The event after it has fired: only the mute event changes.
    pub open spec fn spec_next(self) -> VideoEvent {
        match self {
            VideoEvent::MuteUnmute(event) => VideoEvent::MuteUnmute(event.spec_toggled()),
            _ => self,
        }
    }

    /// Whether the event does its work on `ctx`, or why it does not: only
    /// the tick can fail, on a session that is not playing.
    pub open spec fn spec_outcome(self, ctx: SessionView) -> Result<(), PlayerError> {
        match self {
            VideoEvent::ProgressBarChange(_) => if ctx.tag() == Lifecycle::Playing {
                Ok(())
            } else {
                Err(PlayerError::InvalidStateTransition)
            },
            _ => Ok(()),
        }
    }

    /// Whether the event, fired on `ctx`, invokes the surface's resume
    /// primitive: the play/pause event does, on a cell that wants to resume.
    pub open spec fn spec_wants_resume(self, ctx: SessionView) -> bool {
        self is PlayPause && ctx.wants_resume()
    }

    /// The cell after the event has fired on `ctx`.
    pub open spec fn spec_fired(self, ctx: SessionView) -> SessionView {
        match self {
            VideoEvent::PlayPause(_) => ctx.play_pause(),
            VideoEvent::MuteUnmute(event) => ctx.issue(event.spec_commands()),
            VideoEvent::ProgressBarChange(_) => if ctx.tag() == Lifecycle::Playing {
                ctx.ticked()
            } else {
                ctx
            },
            VideoEvent::Settings(_) => ctx,
            VideoEvent::FullScreen(_) => ctx,
            VideoEvent::Rewind(_) => ctx.issue(
                seq![Command::Seek(ctx.report.spec_rewind_target() as Millis)],
            ),
            VideoEvent::FastForward(_) => ctx.issue(
                seq![Command::Seek(ctx.report.spec_fast_forward_target() as Millis)],
            ),
            VideoEvent::PlaybackIncrease(_) => ctx.with_speed(
                ctx.player.core.speed.spec_increment(),
            ),
            VideoEvent::PlaybackDecrease(_) => ctx.with_speed(
                ctx.player.core.speed.spec_decrement(),
            ),
        }
    }
}

impl VideoEvent {
    /// Whether this event, fired on `ctx`, invokes the surface's resume
    /// primitive, so that the answer of the primitive has to stand in the
    /// report before the event fires.
    pub fn wants_resume(&self, ctx: &SharedVideoPlayer) -> (wanted: bool)
        ensures
            wanted == self.spec_wants_resume(ctx@),
    {
        match self {
            VideoEvent::PlayPause(_) => ctx.wants_resume(),
            _ => false,
        }
    }
}

/// The answer of the resume primitive is read only by an event that wants
/// to resume: on any other event the cell's player and the commands issued
/// are the same whatever the answer in the report is.
pub proof fn lemma_resume_answer_read_only_when_wanted(
    event: VideoEvent,
    ctx: SessionView,
    answer: bool,
)
    requires
        !event.spec_wants_resume(ctx),
    ensures
        ({
            let other = SessionView {
                report: crate::surface::SurfaceReport { play_accepted: answer, ..ctx.report },
                ..ctx
            };
            &&& event.spec_fired(other).player == event.spec_fired(ctx).player
            &&& event.spec_fired(other).outbox == event.spec_fired(ctx).outbox
            &&& event.spec_outcome(other) == event.spec_outcome(ctx)
        }),
{
}

impl CallbackEvent<SharedVideoPlayer> for VideoEvent {
    /// Fires whichever event this is.
    fn trigger(&mut self, ctx: &mut SharedVideoPlayer) -> (r: Result<(), PlayerError>)
        ensures
            r == old(self).spec_outcome(old(ctx)@),
            *final(self) == old(self).spec_next(),
            final(ctx)@ == old(self).spec_fired(old(ctx)@),
    {
        let r = match self {
            VideoEvent::PlayPause(event) => event.trigger(ctx),
            VideoEvent::MuteUnmute(event) => event.trigger(ctx),
            VideoEvent::ProgressBarChange(event) => event.trigger(ctx),
            VideoEvent::Settings(event) => event.trigger(ctx),
            VideoEvent::FullScreen(event) => event.trigger(ctx),
            VideoEvent::Rewind(event) => event.trigger(ctx),
            VideoEvent::FastForward(event) => event.trigger(ctx),
            VideoEvent::PlaybackIncrease(event) => event.trigger(ctx),
            VideoEvent::PlaybackDecrease(event) => event.trigger(ctx),
        };
        match r {
            Ok(_) => Ok(()),
            Err(e) => Err(e),
        }
    }
}

} // verus!
