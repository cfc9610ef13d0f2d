//! The playback state machine: a player whose type says which lifecycle
//! state it is in, so that a transition exists only where it is legal.

use std::marker::PhantomData;
use vstd::prelude::*;
use crate::bounds::{ClipBounds, ClipBoundsView};
use crate::errors::PlayerError;
use crate::speed::VideoPlaybackSpeed;
use crate::surface::{Command, SurfaceReport};
use crate::units::{Millis, Percent, FULL_SCALE};

verus! {

/// The lifecycle tag of a session: which of its five states it is in.
#[derive(Debug, Clone, Copy, PartialEq, Eq, Structural)]
pub enum Lifecycle {
    Uninitialized,
    Ready,
    Playing,
    Paused,
    Finished,
}

/// A lifecycle state as a type.
pub trait VideoPlayerTypeState {
    /// The state in which a transition into this one leaves the player when
    /// the operation behind it fails.
    type FallbackState;

    /// The tag of this state.
    spec fn spec_tag() -> Lifecycle;

    /// The tag of this state.
    fn tag() -> (tag: Lifecycle)
        ensures
            tag == Self::spec_tag(),
    ;
}

/// The state of a player whose surface has not been found ready yet.
#[derive(Debug, Clone, Copy)]
pub enum Uninitialized {
    State,
}

/// The state of a player that can start.
#[derive(Debug, Clone, Copy)]
pub enum Ready {
    State,
}

/// The state of a player that plays.
#[derive(Debug, Clone, Copy)]
pub enum Playing {
    State,
}

/// The state of a player that was stopped while playing.
#[derive(Debug, Clone, Copy)]
pub enum Paused {
    State,
}

/// The state of a player that has reached the end of its clip.
#[derive(Debug, Clone, Copy)]
pub enum Finished {
    State,
}

impl VideoPlayerTypeState for Uninitialized {
    type FallbackState = Uninitialized;

    open spec fn spec_tag() -> Lifecycle {
        Lifecycle::Uninitialized
    }

    fn tag() -> (tag: Lifecycle) {
        Lifecycle::Uninitialized
    }
}

impl VideoPlayerTypeState for Ready {
    type FallbackState = Uninitialized;

    open spec fn spec_tag() -> Lifecycle {
        Lifecycle::Ready
    }

    fn tag() -> (tag: Lifecycle) {
        Lifecycle::Ready
    }
}

impl VideoPlayerTypeState for Playing {
    type FallbackState = Paused;

    open spec fn spec_tag() -> Lifecycle {
        Lifecycle::Playing
    }

    fn tag() -> (tag: Lifecycle) {
        Lifecycle::Playing
    }
}

impl VideoPlayerTypeState for Paused {
    type FallbackState = Playing;

    open spec fn spec_tag() -> Lifecycle {
        Lifecycle::Paused
    }

    fn tag() -> (tag: Lifecycle) {
        Lifecycle::Paused
    }
}

impl VideoPlayerTypeState for Finished {
    type FallbackState = Paused;

    open spec fn spec_tag() -> Lifecycle {
        Lifecycle::Finished
    }

    fn tag() -> (tag: Lifecycle) {
        Lifecycle::Finished
    }
}

/// Marks what takes part in a session before its surface is initialised.
pub trait VideoNotInit {

}

/// A state from which playback can be resumed.
pub trait Playable: VideoPlayerTypeState {

}

impl Playable for Ready {

}

impl Playable for Paused {

}

/// What a player holds in every lifecycle state: the trim marks, the rung
/// of the speed ladder and the volume.
#[derive(Debug, Clone, Copy, PartialEq, Eq, Structural)]
pub struct PlayerCore {
    bounds: ClipBounds,
    speed: VideoPlaybackSpeed,
    volume: Percent,
}

/// What a player holds, as plain data.
pub struct CoreData {
    pub bounds: ClipBoundsView,
    pub speed: VideoPlaybackSpeed,
    pub volume: Percent,
}

impl View for PlayerCore {
    type V = CoreData;

    closed spec fn view(&self) -> CoreData {
        CoreData { bounds: self.bounds@, speed: self.speed, volume: self.volume }
    }
}

/// A player in the lifecycle state `S`.
#[derive(Debug)]
pub struct VideoPlayer<S: VideoPlayerTypeState> {
    core: PlayerCore,
    marker: PhantomData<S>,
}

impl<S: VideoPlayerTypeState> Clone for VideoPlayer<S> {
    fn clone(&self) -> (copy: Self)
        ensures
            copy == *self,
    {
        VideoPlayer { core: self.core, marker: PhantomData }
    }
}

impl<S: VideoPlayerTypeState> Copy for VideoPlayer<S> {

}

/// A player as plain data: its lifecycle tag and what it holds.
pub struct PlayerView {
    pub tag: Lifecycle,
    pub core: CoreData,
}

impl<S: VideoPlayerTypeState> View for VideoPlayer<S> {
    type V = PlayerView;

    closed spec fn view(&self) -> PlayerView {
        PlayerView { tag: S::spec_tag(), core: self.core@ }
    }
}

impl CoreData {
    /// The marks keep their margin and the volume is a fraction.
    pub open spec fn wf(self) -> bool {
        self.bounds.wf() && self.volume.wf()
    }

    /// What a fresh player holds: the whole medium, normal speed, full
    /// volume.
    pub open spec fn initial() -> CoreData {
        CoreData {
            bounds: ClipBoundsView::initial(),
            speed: VideoPlaybackSpeed::Normal,
            volume: Percent::spec_full(),
        }
    }

    /// The time that a seek to `percent` of a medium of `length` lands on:
    /// the time of that fraction, moved between the trim marks.
    pub open spec fn seek_target(self, percent: Percent, length: Millis) -> Millis {
        self.bounds.clamp(crate::units::scaled(length as int, percent@)) as Millis
    }

    /// What is held after the surface was found ready: the end mark is
    /// pinned to the full length where the margin allows it.
    pub open spec fn probed(self, length: Millis) -> CoreData {
        CoreData { bounds: self.bounds.with_max(FULL_SCALE as int, length as int), ..self }
    }

    /// What a successful probe issues: the new place of the end handle where
    /// the end mark moved, then a seek to the start mark and its display.
    pub open spec fn probe_commands(self, length: Millis) -> Seq<Command> {
        let start = self.bounds.min_time as Millis;
        let shown = seq![
            Command::Seek(start),
            Command::UpdateProgress { position: start, duration: length },
        ];
        if self.bounds.accepts_max(FULL_SCALE as int, length as int) {
            seq![Command::UpdateEndTrimPosition(Percent::spec_full())] + shown
        } else {
            shown
        }
    }

    /// What a restart issues: a seek to the start mark and its display.
    pub open spec fn restart_commands(self, length: Millis) -> Seq<Command> {
        let start = self.bounds.min_time as Millis;
        seq![Command::Seek(start), Command::UpdateProgress { position: start, duration: length }]
    }

    /// Whether a tick at `position` ends the clip.
    pub open spec fn clip_ended(self, position: Millis) -> bool {
        position >= self.bounds.max_time
    }
}

impl PlayerView {
    /// The marks keep their margin and the volume is a fraction.
    pub open spec fn wf(self) -> bool {
        self.core.wf()
    }

    /// A fresh player: not initialised, whole medium, normal speed, full
    /// volume.
    pub open spec fn initial() -> PlayerView {
        PlayerView { tag: Lifecycle::Uninitialized, core: CoreData::initial() }
    }

    /// The same player in another lifecycle state.
    pub open spec fn with_tag(self, tag: Lifecycle) -> PlayerView {
        PlayerView { tag, ..self }
    }
}

/// What comes of a transition into the state `S`: the player in `S`, or the
/// player in the fallback state of `S`.
pub type VideoPlayerResult<S> = Result<
    VideoPlayer<S>,
    VideoPlayer<<S as VideoPlayerTypeState>::FallbackState>,
>;

/// What every player can do, whatever state it is in.
impl PlayerCore {
    /// What a fresh player holds.
    pub fn new() -> (core: PlayerCore)
        ensures
            core@ == CoreData::initial(),
            core@.wf(),
    {
        PlayerCore {
            bounds: ClipBounds::new(),
            speed: VideoPlaybackSpeed::new(),
            volume: Percent::full(),
        }
    }

    /// Recalls that the marks keep their margin and that the volume is a
    /// fraction.
    pub(crate) fn recall_wf(&self)
        ensures
            self@.wf(),
    {
        let _ = self.bounds.min_time();
        let _ = self.volume.millionths();
    }

    /// Switches the sound off and shows the muted glyph.
    pub fn mute(&self, outbox: &mut Vec<Command>)
        ensures
            final(outbox)@ == old(outbox)@ + seq![Command::Mute(true), Command::SwapMuteButton],
    {
        outbox.push(Command::Mute(true));
        outbox.push(Command::SwapMuteButton);
    }

    /// Switches the sound on and shows the volume glyph.
    pub fn unmute(&self, outbox: &mut Vec<Command>)
        ensures
            final(outbox)@ == old(outbox)@ + seq![
                Command::Mute(false),
                Command::SwapUnmuteButton,
            ],
    {
        outbox.push(Command::Mute(false));
        outbox.push(Command::SwapUnmuteButton);
    }

    /// Skips five seconds forward, but not beyond the end of the medium.
    pub fn fast_forward(&self, report: &SurfaceReport, outbox: &mut Vec<Command>)
        ensures
            final(outbox)@ == old(outbox)@.push(
                Command::Seek(report.spec_fast_forward_target() as Millis),
            ),
    {
        outbox.push(Command::Seek(report.fast_forward_target()));
    }

    /// Skips five seconds back, but not before the start of the medium.
    pub fn rewind(&self, report: &SurfaceReport, outbox: &mut Vec<Command>)
        ensures
            final(outbox)@ == old(outbox)@.push(
                Command::Seek(report.spec_rewind_target() as Millis),
            ),
    {
        outbox.push(Command::Seek(report.rewind_target()));
    }

    /// Seeks to `progress` of the medium, without leaving the clip: the
    /// surface is moved to the time of that fraction, or to the trim mark
    /// that it lies beyond, and that position is shown.
    pub fn set_video_progress(
        &self,
        progress: Percent,
        report: &SurfaceReport,
        outbox: &mut Vec<Command>,
    ) -> (time: Millis)
        ensures
            self@.wf(),
            time == self@.seek_target(progress, report.length),
            self@.bounds.min_time <= time <= self@.bounds.max_time,
            final(outbox)@ == old(outbox)@ + seq![
                Command::Seek(time),
                Command::UpdateProgress { position: time, duration: report.length },
            ],
    {
        self.recall_wf();
        let time = self.bounds.clamp_time(progress.of(report.length));
        outbox.push(Command::Seek(time));
        outbox.push(Command::UpdateProgress { position: time, duration: report.length });
        time
    }

    /// Sets the volume on the surface and shows it.
    pub fn set_volume(&mut self, volume: Percent, outbox: &mut Vec<Command>)
        ensures
            final(self)@ == (CoreData { volume, ..old(self)@ }),
            final(outbox)@ == old(outbox)@ + seq![
                Command::SetVolume(volume),
                Command::UpdateVolume(volume),
            ],
    {
        self.volume = volume;
        outbox.push(Command::SetVolume(volume));
        outbox.push(Command::UpdateVolume(volume));
    }

    /// The volume that was set last; full volume at first.
    pub fn get_volume(&self) -> (volume: Percent)
        ensures
            volume == self@.volume,
            volume.wf(),
    {
        let _ = self.volume.millionths();
        self.volume
    }

    /// Moves the start trim mark to `percent` of the medium and shows the
    /// handle there. Where that would bring it within the margin of the
    /// end mark, nothing changes and nothing is issued. Says whether the
    /// mark moved.
    pub fn set_min_progress(
        &mut self,
        percent: Percent,
        report: &SurfaceReport,
        outbox: &mut Vec<Command>,
    ) -> (moved: bool)
        ensures
            old(self)@.wf(),
            final(self)@.wf(),
            moved <==> old(self)@.bounds.accepts_min(percent@, report.length as int),
            final(self)@ == (CoreData {
                bounds: old(self)@.bounds.with_min(percent@, report.length as int),
                ..old(self)@
            }),
            moved ==> final(outbox)@ == old(outbox)@.push(
                Command::UpdateStartTrimPosition(percent),
            ),
            !moved ==> final(self)@ == old(self)@ && final(outbox)@ == old(outbox)@,
    {
        self.recall_wf();
        let moved = self.bounds.set_min_progress(percent, report.length);
        if moved {
            outbox.push(Command::UpdateStartTrimPosition(percent));
        }
        moved
    }

    /// The time of the start trim mark.
    pub fn get_min_progress(&self) -> (time: Millis)
        ensures
            time == self@.bounds.min_time,
            self@.wf(),
    {
        self.recall_wf();
        self.bounds.min_time()
    }

    /// Moves the end trim mark to `percent` of the medium and shows the
    /// handle there. Where that would bring it within the margin of the
    /// start mark, nothing changes and nothing is issued. Says whether the
    /// mark moved.
    pub fn set_max_progress(
        &mut self,
        percent: Percent,
        report: &SurfaceReport,
        outbox: &mut Vec<Command>,
    ) -> (moved: bool)
        ensures
            old(self)@.wf(),
            final(self)@.wf(),
            moved <==> old(self)@.bounds.accepts_max(percent@, report.length as int),
            final(self)@ == (CoreData {
                bounds: old(self)@.bounds.with_max(percent@, report.length as int),
                ..old(self)@
            }),
            moved ==> final(outbox)@ == old(outbox)@.push(
                Command::UpdateEndTrimPosition(percent),
            ),
            !moved ==> final(self)@ == old(self)@ && final(outbox)@ == old(outbox)@,
    {
        self.recall_wf();
        let moved = self.bounds.set_max_progress(percent, report.length);
        if moved {
            outbox.push(Command::UpdateEndTrimPosition(percent));
        }
        moved
    }

    /// The time of the end trim mark.
    pub fn get_max_progress(&self) -> (time: Millis)
        ensures
            time == self@.bounds.max_time,
            self@.wf(),
    {
        self.recall_wf();
        self.bounds.max_time()
    }

    /// The trim marks.
    pub fn get_bounds(&self) -> (bounds: ClipBounds)
        ensures
            bounds@ == self@.bounds,
            bounds@.wf(),
    {
        self.recall_wf();
        self.bounds
    }

    /// Moves one rung up the speed ladder and hands the surface the speed
    /// of the rung the player is on then.
    pub fn increment_video_speed(&mut self, outbox: &mut Vec<Command>)
        ensures
            final(self)@ == (CoreData {
                speed: old(self)@.speed.spec_increment(),
                ..old(self)@
            }),
            final(outbox)@ == old(outbox)@.push(
                Command::SetPlaybackSpeed(old(self)@.speed.spec_increment()),
            ),
    {
        self.speed = self.speed.increment();
        outbox.push(Command::SetPlaybackSpeed(self.speed));
    }

    /// Moves one rung down the speed ladder and hands the surface the speed
    /// of the rung the player is on then.
    pub fn decrement_video_speed(&mut self, outbox: &mut Vec<Command>)
        ensures
            final(self)@ == (CoreData {
                speed: old(self)@.speed.spec_decrement(),
                ..old(self)@
            }),
            final(outbox)@ == old(outbox)@.push(
                Command::SetPlaybackSpeed(old(self)@.speed.spec_decrement()),
            ),
    {
        self.speed = self.speed.decrement();
        outbox.push(Command::SetPlaybackSpeed(self.speed));
    }

    /// The rung of the speed ladder that the player is on.
    pub fn get_playback_speed(&self) -> (speed: VideoPlaybackSpeed)
        ensures
            speed == self@.speed,
    {
        self.speed
    }
}

impl<S: VideoPlayerTypeState> VideoPlayer<S> {
    /// The tag in a player's view is the tag of its state.
    pub proof fn lemma_tag(self)
        ensures
            self@.tag == S::spec_tag(),
    {
    }

    /// The lifecycle tag of this player.
    pub fn get_type(&self) -> (tag: Lifecycle)
        ensures
            tag == self@.tag,
            tag == S::spec_tag(),
    {
        S::tag()
    }

    /// What this player holds.
    pub fn get_core(&self) -> (core: PlayerCore)
        ensures
            core@ == self@.core,
            core@.wf(),
            self@.tag == S::spec_tag(),
    {
        self.core.recall_wf();
        self.core
    }

    /// The player in the state `S` that holds `core`, where `tag` is the tag
    /// of `S`; the mismatch is an invalid state transition.
    pub fn from_erased(tag: Lifecycle, core: PlayerCore) -> (r: Result<VideoPlayer<S>, PlayerError>)
        ensures
            r is Ok <==> tag == S::spec_tag(),
            r matches Ok(player) ==> player@ == (PlayerView { tag, core: core@ }),
            r matches Err(e) ==> e == PlayerError::InvalidStateTransition,
    {
        if tag == S::tag() {
            Ok(VideoPlayer { core, marker: PhantomData })
        } else {
            Err(PlayerError::InvalidStateTransition)
        }
    }

    /// The same player in the state `T`.
    fn transition<T: VideoPlayerTypeState>(self) -> (next: VideoPlayer<T>)
        ensures
            next@ == self@.with_tag(T::spec_tag()),
    {
        VideoPlayer { core: self.core, marker: PhantomData }
    }
}

impl VideoPlayer<Uninitialized> {
    /// A fresh player.
    pub fn new() -> (player: VideoPlayer<Uninitialized>)
        ensures
            player@ == PlayerView::initial(),
            player@.wf(),
    {
        VideoPlayer { core: PlayerCore::new(), marker: PhantomData }
    }

    /// Probes the surface. Where it reports data for the current position,
    /// the end mark is pinned to the full length (unless the medium is too
    /// short for the margin: then the end mark stays), the position is moved
    /// to the start mark and the player is ready; where it does not, the
    /// player stays as it is and nothing is issued.
    pub fn ready(self, report: &SurfaceReport, outbox: &mut Vec<Command>) -> (r: VideoPlayerResult<
        Ready,
    >)
        ensures
            self@.wf(),
            r is Ok <==> report.readiness.spec_is_ready(),
            r matches Ok(player) ==> player@ == (PlayerView {
                tag: Lifecycle::Ready,
                core: self@.core.probed(report.length),
            }) && player@.wf() && final(outbox)@ == old(outbox)@ + self@.core.probe_commands(
                report.length,
            ),
            r matches Err(player) ==> player@ == self@ && final(outbox)@ == old(outbox)@,
    {
        let mut player = self;
        player.core.recall_wf();
        if report.ready() {
            let pinned = player.core.bounds.set_max_progress(Percent::full(), report.length);
            if pinned {
                outbox.push(Command::UpdateEndTrimPosition(Percent::full()));
            }
            let start = player.core.bounds.min_time();
            outbox.push(Command::Seek(start));
            outbox.push(Command::UpdateProgress { position: start, duration: report.length });
            Ok(player.transition())
        } else {
            Err(player)
        }
    }
}

impl<S: Playable> VideoPlayer<S> {
    /// Resumes playback. `accepted` is what the surface's resume primitive
    /// answered. Where it succeeded, the pause glyph is shown and the player
    /// plays; where it failed, the player is paused and nothing is issued.
    pub fn play(self, accepted: bool, outbox: &mut Vec<Command>) -> (r: VideoPlayerResult<Playing>)
        ensures
            r is Ok <==> accepted,
            r matches Ok(player) ==> player@ == self@.with_tag(Lifecycle::Playing)
                && final(outbox)@ == old(outbox)@.push(Command::SwapPlayButton),
            r matches Err(player) ==> player@ == self@.with_tag(Lifecycle::Paused)
                && final(outbox)@ == old(outbox)@,
    {
        if accepted {
            outbox.push(Command::SwapPlayButton);
            Ok(self.transition())
        } else {
            Err(self.transition())
        }
    }
}

impl VideoPlayer<Playing> {
    /// Stops playback: the surface is told to stop, the play glyph is shown
    /// and the player is paused.
    pub fn pause(self, outbox: &mut Vec<Command>) -> (next: VideoPlayer<Paused>)
        ensures
            next@ == self@.with_tag(Lifecycle::Paused),
            final(outbox)@ == old(outbox)@ + seq![Command::Pause, Command::SwapPauseButton],
    {
        outbox.push(Command::Pause);
        outbox.push(Command::SwapPauseButton);
        self.transition()
    }

    /// Takes a tick of the playing surface. Where the reported position has
    /// reached the end mark, playback is stopped and the player is finished;
    /// where it has not, the position is shown and the player plays on.
    pub fn set_video_time(self, report: &SurfaceReport, outbox: &mut Vec<Command>) -> (r: Result<
        VideoPlayer<Playing>,
        VideoPlayer<Finished>,
    >)
        ensures
            r is Err <==> self@.core.clip_ended(report.position),
            r matches Ok(player) ==> player@ == self@ && final(outbox)@ == old(outbox)@.push(
                Command::UpdateProgress { position: report.position, duration: report.length },
            ),
            r matches Err(player) ==> player@ == self@.with_tag(Lifecycle::Finished)
                && final(outbox)@ == old(outbox)@ + seq![Command::Pause, Command::SwapPauseButton],
    {
        if report.position >= self.core.bounds.max_time() {
            Err(self.pause(outbox).finish())
        } else {
            outbox.push(
                Command::UpdateProgress { position: report.position, duration: report.length },
            );
            Ok(self)
        }
    }
}

impl VideoPlayer<Paused> {
    /// Ends the clip of a player that was stopped at its end mark.
    fn finish(self) -> (next: VideoPlayer<Finished>)
        ensures
            next@ == self@.with_tag(Lifecycle::Finished),
    {
        self.transition()
    }
}

impl VideoPlayer<Finished> {
    /// Makes a finished player ready again: the position is moved back to
    /// the start mark and shown.
    pub fn restart(self, report: &SurfaceReport, outbox: &mut Vec<Command>) -> (next: VideoPlayer<
        Ready,
    >)
        ensures
            next@ == self@.with_tag(Lifecycle::Ready),
            final(outbox)@ == old(outbox)@ + self@.core.restart_commands(report.length),
    {
        let start = self.core.bounds.min_time();
        outbox.push(Command::Seek(start));
        outbox.push(Command::UpdateProgress { position: start, duration: report.length });
        self.transition()
    }
}

} // verus!
