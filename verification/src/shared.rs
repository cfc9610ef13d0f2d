//! The shared state cell: the one place that holds whichever state the
//! session is in, for handlers that do not know which it is.
//!
//! A handler that needs a particular state takes the player out of the cell
//! as that state, makes its transition and writes the outcome back; a
//! handler that needs none uses what every state can do. Each dispatch reads
//! the surface through the report that the cell holds and leaves its
//! commands in the cell's outbox.

use vstd::prelude::*;
use crate::bounds::ClipBounds;
use crate::errors::PlayerError;
use crate::player::{
    CoreData,
    Lifecycle,
    Paused,
    PlayerCore,
    PlayerView,
    Playing,
    Ready,
    Finished,
    Uninitialized,
    VideoPlayer,
    VideoPlayerTypeState,
};
use crate::speed::VideoPlaybackSpeed;
use crate::surface::{Command, SurfaceReport};
use crate::units::{Millis, Percent};

verus! {

/// The holder of the session's current state, the latest report of the
/// surface and the commands that have been issued and not yet taken.
#[derive(Debug)]
pub struct SharedVideoPlayer {
    tag: Lifecycle,
    core: PlayerCore,
    report: SurfaceReport,
    outbox: Vec<Command>,
}

/// The cell as plain data.
pub struct SessionView {
    pub player: PlayerView,
    pub report: SurfaceReport,
    pub outbox: Seq<Command>,
}

impl View for SharedVideoPlayer {
    type V = SessionView;

    closed spec fn view(&self) -> SessionView {
        SessionView {
            player: PlayerView { tag: self.tag, core: self.core@ },
            report: self.report,
            outbox: self.outbox@,
        }
    }
}

impl SessionView {
    /// The player in the cell keeps its margin and its volume is a fraction.
    pub open spec fn wf(self) -> bool {
        self.player.wf()
    }

    /// The cell of a new session: a fresh player, an empty report, nothing
    /// issued.
    pub open spec fn initial() -> SessionView {
        SessionView {
            player: PlayerView::initial(),
            report: SurfaceReport::spec_empty(),
            outbox: Seq::empty(),
        }
    }

    /// The lifecycle tag of the player in the cell.
    pub open spec fn tag(self) -> Lifecycle {
        self.player.tag
    }

    /// The cell with the player in another state.
    pub open spec fn with_tag(self, tag: Lifecycle) -> SessionView {
        SessionView { player: self.player.with_tag(tag), ..self }
    }

    /// The cell with what the player holds replaced.
    pub open spec fn with_core(self, core: CoreData) -> SessionView {
        SessionView { player: PlayerView { core, ..self.player }, ..self }
    }

    /// The cell with more commands issued.
    pub open spec fn issue(self, commands: Seq<Command>) -> SessionView {
        SessionView { outbox: self.outbox + commands, ..self }
    }

    /// The cell after a probe of a ready surface.
    pub open spec fn probed(self) -> SessionView {
        self.with_core(self.player.core.probed(self.report.length)).with_tag(
            Lifecycle::Ready,
        ).issue(self.player.core.probe_commands(self.report.length))
    }

    /// The cell after playback was resumed from a state that allows it:
    /// playing where the surface accepted, paused where it refused.
    pub open spec fn resumed(self) -> SessionView {
        if self.report.play_accepted {
            self.with_tag(Lifecycle::Playing).issue(seq![Command::SwapPlayButton])
        } else {
            self.with_tag(Lifecycle::Paused)
        }
    }

    /// The cell after playback was stopped.
    pub open spec fn stopped(self) -> SessionView {
        self.with_tag(Lifecycle::Paused).issue(seq![Command::Pause, Command::SwapPauseButton])
    }

    /// The cell after a finished player was made ready again.
    pub open spec fn restarted(self) -> SessionView {
        self.with_tag(Lifecycle::Ready).issue(
            self.player.core.restart_commands(self.report.length),
        )
    }

    /// The cell after a tick of a playing surface: finished where the
    /// position has reached the end mark, playing on otherwise.
    pub open spec fn ticked(self) -> SessionView {
        if self.player.core.clip_ended(self.report.position) {
            self.with_tag(Lifecycle::Finished).issue(
                seq![Command::Pause, Command::SwapPauseButton],
            )
        } else {
            self.issue(
                seq![
                    Command::UpdateProgress {
                        position: self.report.position,
                        duration: self.report.length,
                    },
                ],
            )
        }
    }

    /// Whether a play/pause dispatch invokes the surface's resume primitive:
    /// from ready and paused it does, and from uninitialised where the
    /// surface is ready.
    pub open spec fn wants_resume(self) -> bool {
        match self.player.tag {
            Lifecycle::Uninitialized => self.report.readiness.spec_is_ready(),
            Lifecycle::Ready => true,
            Lifecycle::Paused => true,
            _ => false,
        }
    }

    /// The cell after a probe: ready where the surface is, unchanged where
    /// it is not.
    pub open spec fn probe(self) -> SessionView {
        if self.report.readiness.spec_is_ready() {
            self.probed()
        } else {
            self
        }
    }

    /// The cell after a play/pause dispatch.
    pub open spec fn play_pause(self) -> SessionView {
        match self.player.tag {
            Lifecycle::Uninitialized => if self.report.readiness.spec_is_ready() {
                self.probed().resumed()
            } else {
                self
            },
            Lifecycle::Ready => self.resumed(),
            Lifecycle::Playing => self.stopped(),
            Lifecycle::Paused => self.resumed(),
            Lifecycle::Finished => self.restarted(),
        }
    }

    /// The cell after a seek to `progress` of the medium: the position
    /// sought and its display are issued.
    pub open spec fn sought(self, progress: Percent) -> SessionView {
        let time = self.player.core.seek_target(progress, self.report.length);
        self.issue(
            seq![
                Command::Seek(time),
                Command::UpdateProgress { position: time, duration: self.report.length },
            ],
        )
    }

    /// The cell after the volume was set.
    pub open spec fn with_volume(self, volume: Percent) -> SessionView {
        self.with_core(CoreData { volume, ..self.player.core }).issue(
            seq![Command::SetVolume(volume), Command::UpdateVolume(volume)],
        )
    }

    /// The cell after an attempt to move the start trim mark: moved and
    /// shown where the margin is kept, unchanged otherwise.
    pub open spec fn with_min(self, percent: Percent) -> SessionView {
        let bounds = self.player.core.bounds;
        if bounds.accepts_min(percent@, self.report.length as int) {
            self.with_core(
                CoreData {
                    bounds: bounds.with_min(percent@, self.report.length as int),
                    ..self.player.core
                },
            ).issue(seq![Command::UpdateStartTrimPosition(percent)])
        } else {
            self
        }
    }

    /// The cell after an attempt to move the end trim mark: moved and shown
    /// where the margin is kept, unchanged otherwise.
    pub open spec fn with_max(self, percent: Percent) -> SessionView {
        let bounds = self.player.core.bounds;
        if bounds.accepts_max(percent@, self.report.length as int) {
            self.with_core(
                CoreData {
                    bounds: bounds.with_max(percent@, self.report.length as int),
                    ..self.player.core
                },
            ).issue(seq![Command::UpdateEndTrimPosition(percent)])
        } else {
            self
        }
    }

    /// The cell after a step on the speed ladder to `speed`.
    pub open spec fn with_speed(self, speed: VideoPlaybackSpeed) -> SessionView {
        self.with_core(CoreData { speed, ..self.player.core }).issue(
            seq![Command::SetPlaybackSpeed(speed)],
        )
    }
}

impl SharedVideoPlayer {
    /// The cell of a new session.
    pub fn new() -> (cell: SharedVideoPlayer)
        ensures
            cell@ == SessionView::initial(),
            cell@.wf(),
    {
        SharedVideoPlayer {
            tag: Lifecycle::Uninitialized,
            core: PlayerCore::new(),
            report: SurfaceReport::empty(),
            outbox: Vec::new(),
        }
    }

    /// The lifecycle tag of the player in the cell.
    pub fn get_type(&self) -> (tag: Lifecycle)
        ensures
            tag == self@.tag(),
            self@.wf(),
    {
        self.core.recall_wf();
        self.tag
    }

    /// Puts what the surface says now in the place of the report held.
    pub fn observe(&mut self, report: SurfaceReport)
        ensures
            final(self)@ == (SessionView { report, ..old(self)@ }),
    {
        self.report = report;
    }

    /// The report held.
    pub fn get_report(&self) -> (report: SurfaceReport)
        ensures
            report == self@.report,
    {
        self.report
    }

    /// How many commands wait in the outbox.
    pub fn pending(&self) -> (n: usize)
        ensures
            n == self@.outbox.len(),
    {
        self.outbox.len()
    }

    /// Hands out the commands issued since the last call, in the order in
    /// which they were issued, and empties the outbox.
    pub fn take_commands(&mut self) -> (commands: Vec<Command>)
        ensures
            commands@ == old(self)@.outbox,
            final(self)@ == (SessionView { outbox: Seq::empty(), ..old(self)@ }),
    {
        let mut commands: Vec<Command> = Vec::new();
        std::mem::swap(&mut self.outbox, &mut commands);
        commands
    }

    /// Writes a player back into the cell; the cell is then in the state of
    /// that player.
    pub fn set_state<S: VideoPlayerTypeState>(&mut self, player: VideoPlayer<S>)
        ensures
            final(self)@ == (SessionView { player: player@, ..old(self)@ }),
            player@.tag == S::spec_tag(),
    {
        self.tag = player.get_type();
        self.core = player.get_core();
    }
    /// Whether a play/pause dispatch on this cell invokes the surface's
    /// resume primitive, so that its answer has to stand in the report.
    pub fn wants_resume(&self) -> (wanted: bool)
        ensures
            wanted == self@.wants_resume(),
    {
        match self.tag {
            Lifecycle::Uninitialized => self.report.ready(),
            Lifecycle::Ready => true,
            Lifecycle::Paused => true,
            _ => false,
        }
    }

    /// Dispatches play/pause. An uninitialised player probes the surface
    /// and stays as it is where the surface is not ready; where it is, the
    /// player goes on at once as a ready one. A ready or paused player
    /// resumes, and is paused where the surface refuses. A playing player is
    /// stopped. A finished player is made ready again. It never fails: a
    /// surface that refuses to resume leaves the session paused, and its
    /// error goes no further.
    pub fn play_pause(&mut self) -> (r: Result<(), PlayerError>)
        ensures
            old(self)@.wf(),
            final(self)@ == old(self)@.play_pause(),
            final(self)@.wf(),
            r is Ok,
    {
        self.core.recall_wf();
        let accepted = self.report.play_accepted;
        let report = self.report;
        match self.tag {
            Lifecycle::Uninitialized => {
                let fresh: VideoPlayer<Uninitialized> = VideoPlayer::from_erased(
                    self.tag,
                    self.core,
                ).unwrap();
                match fresh.ready(&report, &mut self.outbox) {
                    Ok(ready) => {
                        match ready.play(accepted, &mut self.outbox) {
                            Ok(playing) => self.set_state(playing),
                            Err(paused) => self.set_state(paused),
                        }
                    },
                    Err(still) => self.set_state(still),
                }
            },
            Lifecycle::Ready => {
                let ready: VideoPlayer<Ready> = VideoPlayer::from_erased(
                    self.tag,
                    self.core,
                ).unwrap();
                match ready.play(accepted, &mut self.outbox) {
                    Ok(playing) => self.set_state(playing),
                    Err(paused) => self.set_state(paused),
                }
            },
            Lifecycle::Playing => {
                let playing: VideoPlayer<Playing> = VideoPlayer::from_erased(
                    self.tag,
                    self.core,
                ).unwrap();
                let paused = playing.pause(&mut self.outbox);
                self.set_state(paused);
            },
            Lifecycle::Paused => {
                let paused: VideoPlayer<Paused> = VideoPlayer::from_erased(
                    self.tag,
                    self.core,
                ).unwrap();
                match paused.play(accepted, &mut self.outbox) {
                    Ok(playing) => self.set_state(playing),
                    Err(again) => self.set_state(again),
                }
            },
            Lifecycle::Finished => {
                let finished: VideoPlayer<Finished> = VideoPlayer::from_erased(
                    self.tag,
                    self.core,
                ).unwrap();
                let ready = finished.restart(&report, &mut self.outbox);
                self.set_state(ready);
            },
        }
        proof {
            assert(self@.outbox =~= old(self)@.play_pause().outbox);
        }
        Ok(())
    }

    /// Probes the surface for an uninitialised player: where the surface
    /// reports data for the current position, the end mark is pinned to the
    /// full length, the position is moved to the start mark and the player
    /// is ready; where it does not, nothing changes. On a player in any
    /// other state this is an invalid state transition and nothing changes.
    pub fn probe(&mut self) -> (r: Result<(), PlayerError>)
        ensures
            old(self)@.wf(),
            final(self)@.wf(),
            r is Ok <==> old(self)@.tag() == Lifecycle::Uninitialized,
            r is Ok ==> final(self)@ == old(self)@.probe(),
            r matches Err(e) ==> e == PlayerError::InvalidStateTransition && final(self)@ == old(self)@,
    {
        self.core.recall_wf();
        let report = self.report;
        match get_state_owned::<Uninitialized>(self) {
            Ok(fresh) => {
                match fresh.ready(&report, &mut self.outbox) {
                    Ok(ready) => self.set_state(ready),
                    Err(still) => self.set_state(still),
                }
                proof {
                    assert(self@.outbox =~= old(self)@.probe().outbox);
                }
                Ok(())
            },
            Err(e) => Err(e),
        }
    }

    /// Takes a tick of the surface. A playing player shows the position, or
    /// is stopped and finished where the position has reached the end mark.
    /// In any other state this is an invalid state transition and nothing
    /// changes.
    pub fn set_video_time(&mut self) -> (r: Result<(), PlayerError>)
        ensures
            r is Ok <==> old(self)@.tag() == Lifecycle::Playing,
            r is Ok ==> final(self)@ == old(self)@.ticked(),
            r matches Err(e) ==> e == PlayerError::InvalidStateTransition && final(self)@ == old(self)@,
    {
        let report = self.report;
        match get_state_owned::<Playing>(self) {
            Ok(playing) => {
                match playing.set_video_time(&report, &mut self.outbox) {
                    Ok(on) => self.set_state(on),
                    Err(finished) => self.set_state(finished),
                }
                proof {
                    assert(self@.outbox =~= old(self)@.ticked().outbox);
                }
                Ok(())
            },
            Err(e) => Err(e),
        }
    }

    /// Switches the sound off and shows the muted glyph.
    pub fn mute(&mut self)
        ensures
            final(self)@ == old(self)@.issue(seq![Command::Mute(true), Command::SwapMuteButton]),
    {
        self.core.mute(&mut self.outbox);
    }

    /// Switches the sound on and shows the volume glyph.
    pub fn unmute(&mut self)
        ensures
            final(self)@ == old(self)@.issue(
                seq![Command::Mute(false), Command::SwapUnmuteButton],
            ),
    {
        self.core.unmute(&mut self.outbox);
    }

    /// Skips five seconds forward, but not beyond the end of the medium.
    pub fn fast_forward(&mut self)
        ensures
            final(self)@ == old(self)@.issue(
                seq![Command::Seek(old(self)@.report.spec_fast_forward_target() as Millis)],
            ),
    {
        let report = self.report;
        self.core.fast_forward(&report, &mut self.outbox);
        proof {
            assert(self@.outbox =~= old(self)@.outbox + seq![
                Command::Seek(report.spec_fast_forward_target() as Millis),
            ]);
        }
    }

    /// Skips five seconds back, but not before the start of the medium.
    pub fn rewind(&mut self)
        ensures
            final(self)@ == old(self)@.issue(
                seq![Command::Seek(old(self)@.report.spec_rewind_target() as Millis)],
            ),
    {
        let report = self.report;
        self.core.rewind(&report, &mut self.outbox);
        proof {
            assert(self@.outbox =~= old(self)@.outbox + seq![
                Command::Seek(report.spec_rewind_target() as Millis),
            ]);
        }
    }

    /// The current position, as the surface reports it.
    pub fn get_progress(&self) -> (position: Millis)
        ensures
            position == self@.report.position,
    {
        self.report.position
    }

    /// The length of the medium, as the surface reports it.
    pub fn get_video_length(&self) -> (length: Millis)
        ensures
            length == self@.report.length,
    {
        self.report.length
    }

    /// Seeks to `progress` of the medium without leaving the clip, and
    /// shows the position sought.
    pub fn set_video_progress(&mut self, progress: Percent)
        ensures
            old(self)@.wf(),
            final(self)@ == old(self)@.sought(progress),
    {
        let report = self.report;
        let _ = self.core.set_video_progress(progress, &report, &mut self.outbox);
    }

    /// Sets the volume on the surface and shows it.
    pub fn set_volume(&mut self, volume: Percent)
        ensures
            final(self)@ == old(self)@.with_volume(volume),
    {
        self.core.set_volume(volume, &mut self.outbox);
    }

    /// The volume that was set last; full volume at first.
    pub fn get_volume(&self) -> (volume: Percent)
        ensures
            volume == self@.player.core.volume,
            volume.wf(),
    {
        self.core.get_volume()
    }

    /// Moves the start trim mark to `percent` of the medium and shows the
    /// handle there, unless that would bring it within the margin of the
    /// end mark: then nothing changes and nothing is issued. Says whether
    /// the mark moved.
    pub fn set_min_progress(&mut self, percent: Percent) -> (moved: bool)
        ensures
            old(self)@.wf(),
            final(self)@.wf(),
            final(self)@ == old(self)@.with_min(percent),
            moved <==> old(self)@.player.core.bounds.accepts_min(
                percent@,
                old(self)@.report.length as int,
            ),
            !moved ==> final(self)@ == old(self)@,
    {
        let report = self.report;
        let moved = self.core.set_min_progress(percent, &report, &mut self.outbox);
        proof {
            assert(self@.outbox =~= old(self)@.with_min(percent).outbox);
        }
        moved
    }

    /// The time of the start trim mark.
    pub fn get_min_progress(&self) -> (time: Millis)
        ensures
            time == self@.player.core.bounds.min_time,
            self@.wf(),
    {
        self.core.get_min_progress()
    }

    /// Moves the end trim mark to `percent` of the medium and shows the
    /// handle there, unless that would bring it within the margin of the
    /// start mark: then nothing changes and nothing is issued. Says whether
    /// the mark moved.
    pub fn set_max_progress(&mut self, percent: Percent) -> (moved: bool)
        ensures
            old(self)@.wf(),
            final(self)@.wf(),
            final(self)@ == old(self)@.with_max(percent),
            moved <==> old(self)@.player.core.bounds.accepts_max(
                percent@,
                old(self)@.report.length as int,
            ),
            !moved ==> final(self)@ == old(self)@,
    {
        let report = self.report;
        let moved = self.core.set_max_progress(percent, &report, &mut self.outbox);
        proof {
            assert(self@.outbox =~= old(self)@.with_max(percent).outbox);
        }
        moved
    }

    /// The time of the end trim mark.
    pub fn get_max_progress(&self) -> (time: Millis)
        ensures
            time == self@.player.core.bounds.max_time,
            self@.wf(),
    {
        self.core.get_max_progress()
    }

    /// The trim marks.
    pub fn get_bounds(&self) -> (bounds: ClipBounds)
        ensures
            bounds@ == self@.player.core.bounds,
            bounds@.wf(),
    {
        self.core.get_bounds()
    }

    /// Moves one rung up the speed ladder and hands the surface the speed
    /// of the rung the player is on then.
    pub fn increment_video_speed(&mut self)
        ensures
            final(self)@ == old(self)@.with_speed(old(self)@.player.core.speed.spec_increment()),
    {
        self.core.increment_video_speed(&mut self.outbox);
        proof {
            assert(self@.outbox =~= old(self)@.outbox + seq![
                Command::SetPlaybackSpeed(old(self)@.player.core.speed.spec_increment()),
            ]);
        }
    }

    /// Moves one rung down the speed ladder and hands the surface the speed
    /// of the rung the player is on then.
    pub fn decrement_video_speed(&mut self)
        ensures
            final(self)@ == old(self)@.with_speed(old(self)@.player.core.speed.spec_decrement()),
    {
        self.core.decrement_video_speed(&mut self.outbox);
        proof {
            assert(self@.outbox =~= old(self)@.outbox + seq![
                Command::SetPlaybackSpeed(old(self)@.player.core.speed.spec_decrement()),
            ]);
        }
    }

    /// The rung of the speed ladder that the player is on.
    pub fn get_playback_speed(&self) -> (speed: VideoPlaybackSpeed)
        ensures
            speed == self@.player.core.speed,
    {
        self.core.get_playback_speed()
    }
}

/// The player in the cell as a player in the state `S`. Where the cell
/// holds another state, that is an invalid state transition.
pub fn get_state_owned<S: VideoPlayerTypeState>(value: &SharedVideoPlayer) -> (r: Result<
    VideoPlayer<S>,
    PlayerError,
>)
    ensures
        value@.wf(),
        r is Ok <==> value@.tag() == S::spec_tag(),
        r matches Ok(player) ==> player@ == value@.player,
        r matches Err(e) ==> e == PlayerError::InvalidStateTransition,
{
    value.core.recall_wf();
    VideoPlayer::from_erased(value.tag, value.core)
}

/// Resumes playback of a ready or paused player; where the surface refuses,
/// the player is paused, and the surface's error goes no further. In any
/// other state this is an invalid state transition and nothing changes.
pub fn play(ctx: &mut SharedVideoPlayer) -> (r: Result<(), PlayerError>)
    ensures
        r is Ok <==> old(ctx)@.tag() == Lifecycle::Ready || old(ctx)@.tag() == Lifecycle::Paused,
        r is Ok ==> final(ctx)@ == old(ctx)@.resumed(),
        r matches Err(e) ==> e == PlayerError::InvalidStateTransition && final(ctx)@ == old(ctx)@,
{
    let accepted = ctx.report.play_accepted;
    match ctx.tag {
        Lifecycle::Ready => {
            let ready: VideoPlayer<Ready> = VideoPlayer::from_erased(ctx.tag, ctx.core).unwrap();
            match ready.play(accepted, &mut ctx.outbox) {
                Ok(playing) => ctx.set_state(playing),
                Err(paused) => ctx.set_state(paused),
            }
            proof {
                assert(ctx@.outbox =~= old(ctx)@.resumed().outbox);
            }
            Ok(())
        },
        Lifecycle::Paused => {
            let paused: VideoPlayer<Paused> = VideoPlayer::from_erased(ctx.tag, ctx.core).unwrap();
            match paused.play(accepted, &mut ctx.outbox) {
                Ok(playing) => ctx.set_state(playing),
                Err(again) => ctx.set_state(again),
            }
            proof {
                assert(ctx@.outbox =~= old(ctx)@.resumed().outbox);
            }
            Ok(())
        },
        _ => Err(PlayerError::InvalidStateTransition),
    }
}

/// Stops a playing player. In any other state this is an invalid state
/// transition and nothing changes.
pub fn pause(ctx: &mut SharedVideoPlayer) -> (r: Result<(), PlayerError>)
    ensures
        r is Ok <==> old(ctx)@.tag() == Lifecycle::Playing,
        r is Ok ==> final(ctx)@ == old(ctx)@.stopped(),
        r matches Err(e) ==> e == PlayerError::InvalidStateTransition && final(ctx)@ == old(ctx)@,
{
    match get_state_owned::<Playing>(ctx) {
        Ok(playing) => {
            let paused = playing.pause(&mut ctx.outbox);
            ctx.set_state(paused);
            Ok(())
        },
        Err(e) => Err(e),
    }
}

/// The cell after one play/pause dispatch for each report in turn, each
/// dispatch reading the surface through its own report.
pub open spec fn play_pause_run(start: SessionView, reports: Seq<SurfaceReport>) -> SessionView
    decreases reports.len(),
{
    if reports.len() == 0 {
        start
    } else {
        (SessionView {
            report: reports.last(),
            ..play_pause_run(start, reports.drop_last())
        }).play_pause()
    }
}

/// However many times play/pause is dispatched on a ready session, and
/// whatever the surface reports each time, every dispatch finds the session
/// ready, playing or paused and leaves it playing or paused. A dispatch on a
/// playing session always pauses it. A dispatch on a session that is not
/// playing makes it play, unless the surface refuses to resume: then it
/// leaves the session paused. So while the surface accepts, the tag
/// alternates between playing and paused and never repeats.
pub proof fn lemma_play_pause_alternates(start: SessionView, reports: Seq<SurfaceReport>)
    requires
        start.tag() == Lifecycle::Ready,
        reports.len() > 0,
    ensures
        ({
            let before = play_pause_run(start, reports.drop_last()).tag();
            let after = play_pause_run(start, reports).tag();
            &&& before == Lifecycle::Ready <==> reports.len() == 1
            &&& before == Lifecycle::Ready || before == Lifecycle::Playing || before
                == Lifecycle::Paused
            &&& after == Lifecycle::Playing || after == Lifecycle::Paused
            &&& before == Lifecycle::Playing ==> after == Lifecycle::Paused
            &&& before != Lifecycle::Playing && reports.last().play_accepted ==> after
                == Lifecycle::Playing
            &&& before != Lifecycle::Playing && !reports.last().play_accepted ==> after
                == Lifecycle::Paused
            &&& reports.last().play_accepted ==> after != before
        }),
    decreases reports.len(),
{
    if reports.len() > 1 {
        lemma_play_pause_alternates(start, reports.drop_last());
    } else {
        assert(reports.drop_last().len() == 0);
    }
}

/// Probing first and dispatching play/pause then leaves an uninitialised
/// session exactly where one play/pause dispatch leaves it, so the probe's
/// commands can be performed before the surface is asked to resume.
pub proof fn lemma_probe_then_play_pause(cell: SessionView)
    requires
        cell.tag() == Lifecycle::Uninitialized,
    ensures
        cell.probe().play_pause() == cell.play_pause(),
        cell.probe().wants_resume() == cell.wants_resume(),
        cell.probe().report == cell.report,
{
}

/// A play/pause dispatch, a tick and every capability leave the trim marks
/// more than the margin apart.
pub proof fn lemma_dispatch_keeps_margin(cell: SessionView, percent: Percent)
    requires
        cell.wf(),
        percent.wf(),
    ensures
        cell.play_pause().wf(),
        cell.ticked().wf(),
        cell.sought(percent).wf(),
        cell.with_min(percent).wf(),
        cell.with_max(percent).wf(),
        cell.with_volume(percent).wf(),
{
    crate::bounds::lemma_updates_keep_margin(
        cell.player.core.bounds,
        percent@,
        cell.report.length as int,
    );
    crate::bounds::lemma_updates_keep_margin(
        cell.player.core.bounds,
        crate::units::FULL_SCALE as int,
        cell.report.length as int,
    );
}

} // verus!