use rehash_player::bounds::{MARGIN, UNBOUNDED};
use rehash_player::errors::PlayerError;
use rehash_player::events::{CallbackEvent, PlayPauseEvent, ProgressBarChangeEvent};
use rehash_player::player::{
    Finished, Lifecycle, Paused, Playing, Ready, Uninitialized, VideoPlayer, VideoPlayerTypeState,
};
use rehash_player::shared::{get_state_owned, pause, play, SharedVideoPlayer};
use rehash_player::surface::{Command, InternalVideoReadiness, SurfaceReport};
use rehash_player::units::Percent;

fn seconds(s: f64) -> u64 {
    (s * 1000.0).round() as u64
}

fn ready_report(length: f64, position: f64, play_accepted: bool) -> SurfaceReport {
    SurfaceReport::new(4, seconds(length), seconds(position), play_accepted)
}

#[test]
fn play_on_surface_that_is_not_ready_stays_uninitialized() {
    let mut cell = SharedVideoPlayer::new();
    assert_eq!(cell.get_type(), Lifecycle::Uninitialized);
    cell.observe(SurfaceReport::new(1, seconds(100.0), 0, true));
    let mut event = PlayPauseEvent::new();
    assert_eq!(event.trigger(&mut cell), Ok(()));
    assert_eq!(cell.get_type(), Lifecycle::Uninitialized);
    assert_eq!(cell.take_commands(), vec![]);
    assert_eq!(cell.get_max_progress(), UNBOUNDED);
    assert!(!cell.wants_resume());
}

#[test]
fn play_on_ready_surface_goes_to_playing_with_full_clip() {
    let mut cell = SharedVideoPlayer::new();
    cell.observe(ready_report(100.0, 0.0, true));
    assert!(cell.wants_resume());
    let mut event = PlayPauseEvent::new();
    assert_eq!(event.trigger(&mut cell), Ok(()));
    assert_eq!(cell.get_type(), Lifecycle::Playing);
    assert_eq!(cell.get_min_progress(), 0);
    assert_eq!(cell.get_max_progress(), 100_000);
    assert_eq!(
        cell.take_commands(),
        vec![
            Command::UpdateEndTrimPosition(Percent::full()),
            Command::Seek(0),
            Command::UpdateProgress { position: 0, duration: 100_000 },
            Command::SwapPlayButton,
        ]
    );
    assert_eq!(cell.pending(), 0);
}

#[test]
fn play_pause_alternates_between_playing_and_paused() {
    let mut cell = SharedVideoPlayer::new();
    cell.observe(ready_report(100.0, 0.0, true));
    let mut event = PlayPauseEvent::new();
    event.trigger(&mut cell).unwrap();
    let mut expected = Lifecycle::Playing;
    for _ in 0..9 {
        assert_eq!(cell.get_type(), expected);
        event.trigger(&mut cell).unwrap();
        expected = if expected == Lifecycle::Playing { Lifecycle::Paused } else { Lifecycle::Playing };
    }
    assert_eq!(cell.get_type(), expected);
}

#[test]
fn pause_issues_stop_and_glyph_swap() {
    let mut cell = SharedVideoPlayer::new();
    cell.observe(ready_report(100.0, 0.0, true));
    let mut event = PlayPauseEvent::new();
    event.trigger(&mut cell).unwrap();
    cell.take_commands();
    event.trigger(&mut cell).unwrap();
    assert_eq!(cell.get_type(), Lifecycle::Paused);
    assert_eq!(cell.take_commands(), vec![Command::Pause, Command::SwapPauseButton]);
    assert!(cell.wants_resume());
    event.trigger(&mut cell).unwrap();
    assert_eq!(cell.get_type(), Lifecycle::Playing);
    assert_eq!(cell.take_commands(), vec![Command::SwapPlayButton]);
}

#[test]
fn refused_resume_falls_back_to_paused() {
    let mut cell = SharedVideoPlayer::new();
    cell.observe(ready_report(100.0, 0.0, false));
    let mut event = PlayPauseEvent::new();
    assert_eq!(event.trigger(&mut cell), Ok(()));
    assert_eq!(cell.get_type(), Lifecycle::Paused);
    assert_eq!(cell.get_max_progress(), 100_000);
    let commands = cell.take_commands();
    assert!(!commands.contains(&Command::SwapPlayButton));
    assert_eq!(event.trigger(&mut cell), Ok(()));
    assert_eq!(cell.get_type(), Lifecycle::Paused);
    assert_eq!(cell.take_commands(), vec![]);
    cell.observe(ready_report(100.0, 0.0, true));
    assert_eq!(event.trigger(&mut cell), Ok(()));
    assert_eq!(cell.get_type(), Lifecycle::Playing);
    cell.observe(ready_report(100.0, 0.0, false));
    assert_eq!(event.trigger(&mut cell), Ok(()));
    assert_eq!(cell.get_type(), Lifecycle::Paused);
}

#[test]
fn explicit_play_on_a_surface_that_refuses_leaves_the_session_paused() {
    let mut cell = SharedVideoPlayer::new();
    cell.observe(ready_report(100.0, 0.0, true));
    PlayPauseEvent::new().trigger(&mut cell).unwrap();
    pause(&mut cell).unwrap();
    cell.take_commands();
    cell.observe(ready_report(100.0, 0.0, false));
    assert_eq!(play(&mut cell), Ok(()));
    assert_eq!(cell.get_type(), Lifecycle::Paused);
    assert_eq!(cell.pending(), 0);
}

#[test]
fn probe_makes_an_uninitialized_session_ready() {
    let mut cell = SharedVideoPlayer::new();
    cell.observe(SurfaceReport::new(1, 0, 0, true));
    assert_eq!(cell.probe(), Ok(()));
    assert_eq!(cell.get_type(), Lifecycle::Uninitialized);
    assert_eq!(cell.pending(), 0);

    cell.observe(ready_report(100.0, 0.0, true));
    assert_eq!(cell.probe(), Ok(()));
    assert_eq!(cell.get_type(), Lifecycle::Ready);
    assert_eq!(cell.get_max_progress(), 100_000);
    assert_eq!(
        cell.take_commands(),
        vec![
            Command::UpdateEndTrimPosition(Percent::full()),
            Command::Seek(0),
            Command::UpdateProgress { position: 0, duration: 100_000 },
        ]
    );
    assert_eq!(cell.probe(), Err(PlayerError::InvalidStateTransition));
    assert_eq!(cell.get_type(), Lifecycle::Ready);
    assert_eq!(cell.pending(), 0);
}

#[test]
fn probe_then_play_pause_ends_where_one_play_pause_ends() {
    let report = ready_report(100.0, 0.0, true);
    let mut at_once = SharedVideoPlayer::new();
    at_once.observe(report);
    at_once.play_pause().unwrap();

    let mut in_steps = SharedVideoPlayer::new();
    in_steps.observe(report);
    in_steps.probe().unwrap();
    assert!(in_steps.wants_resume());
    in_steps.play_pause().unwrap();

    assert_eq!(in_steps.get_type(), at_once.get_type());
    assert_eq!(in_steps.get_bounds(), at_once.get_bounds());
    assert_eq!(in_steps.take_commands(), at_once.take_commands());
}

#[test]
fn not_ready_surface_is_no_failure_even_if_it_would_refuse() {
    let mut cell = SharedVideoPlayer::new();
    cell.observe(SurfaceReport::new(0, 0, 0, false));
    assert_eq!(PlayPauseEvent::new().trigger(&mut cell), Ok(()));
    assert_eq!(cell.get_type(), Lifecycle::Uninitialized);
}

#[test]
fn tick_before_the_end_mark_plays_on_and_at_the_end_mark_finishes() {
    let mut cell = SharedVideoPlayer::new();
    cell.observe(ready_report(100.0, 0.0, true));
    PlayPauseEvent::new().trigger(&mut cell).unwrap();
    cell.take_commands();
    let mut tick = ProgressBarChangeEvent::new();

    cell.observe(ready_report(100.0, 99.5, true));
    assert_eq!(tick.trigger(&mut cell), Ok(()));
    assert_eq!(cell.get_type(), Lifecycle::Playing);
    assert_eq!(
        cell.take_commands(),
        vec![Command::UpdateProgress { position: 99_500, duration: 100_000 }]
    );

    cell.observe(ready_report(100.0, 100.0, true));
    assert_eq!(tick.trigger(&mut cell), Ok(()));
    assert_eq!(cell.get_type(), Lifecycle::Finished);
    assert_eq!(cell.take_commands(), vec![Command::Pause, Command::SwapPauseButton]);
}

#[test]
fn tick_beyond_the_end_mark_finishes() {
    let mut cell = SharedVideoPlayer::new();
    cell.observe(ready_report(100.0, 0.0, true));
    PlayPauseEvent::new().trigger(&mut cell).unwrap();
    cell.observe(ready_report(100.0, 100.001, true));
    assert_eq!(cell.set_video_time(), Ok(()));
    assert_eq!(cell.get_type(), Lifecycle::Finished);
}

#[test]
fn tick_on_a_session_that_is_not_playing_is_an_invalid_transition() {
    let mut cell = SharedVideoPlayer::new();
    cell.observe(ready_report(100.0, 5.0, true));
    let mut tick = ProgressBarChangeEvent::new();
    assert_eq!(tick.trigger(&mut cell), Err(PlayerError::InvalidStateTransition));
    assert_eq!(cell.get_type(), Lifecycle::Uninitialized);
    assert_eq!(cell.pending(), 0);
}

#[test]
fn restart_from_finished_seeks_to_the_start_mark() {
    let mut cell = SharedVideoPlayer::new();
    cell.observe(ready_report(100.0, 0.0, true));
    let mut event = PlayPauseEvent::new();
    event.trigger(&mut cell).unwrap();
    assert!(cell.set_min_progress(Percent::new(200_000)));
    cell.observe(ready_report(100.0, 100.0, true));
    cell.set_video_time().unwrap();
    assert_eq!(cell.get_type(), Lifecycle::Finished);
    assert!(!cell.wants_resume());
    cell.take_commands();
    event.trigger(&mut cell).unwrap();
    assert_eq!(cell.get_type(), Lifecycle::Ready);
    assert_eq!(
        cell.take_commands(),
        vec![
            Command::Seek(20_000),
            Command::UpdateProgress { position: 20_000, duration: 100_000 },
        ]
    );
    event.trigger(&mut cell).unwrap();
    assert_eq!(cell.get_type(), Lifecycle::Playing);
}

#[test]
fn pause_while_uninitialized_is_an_invalid_transition() {
    let mut cell = SharedVideoPlayer::new();
    assert_eq!(pause(&mut cell), Err(PlayerError::InvalidStateTransition));
    assert_eq!(play(&mut cell), Err(PlayerError::InvalidStateTransition));
    assert_eq!(cell.get_type(), Lifecycle::Uninitialized);
    assert_eq!(cell.pending(), 0);
}

#[test]
fn explicit_play_and_pause_follow_the_state() {
    let mut cell = SharedVideoPlayer::new();
    cell.observe(ready_report(100.0, 0.0, true));
    PlayPauseEvent::new().trigger(&mut cell).unwrap();
    assert_eq!(play(&mut cell), Err(PlayerError::InvalidStateTransition));
    assert_eq!(pause(&mut cell), Ok(()));
    assert_eq!(cell.get_type(), Lifecycle::Paused);
    assert_eq!(pause(&mut cell), Err(PlayerError::InvalidStateTransition));
    assert_eq!(play(&mut cell), Ok(()));
    assert_eq!(cell.get_type(), Lifecycle::Playing);
}

#[test]
fn taking_the_player_out_checks_the_tag() {
    let mut cell = SharedVideoPlayer::new();
    assert!(get_state_owned::<Uninitialized>(&cell).is_ok());
    assert_eq!(get_state_owned::<Playing>(&cell).err(), Some(PlayerError::InvalidStateTransition));
    assert_eq!(get_state_owned::<Ready>(&cell).err(), Some(PlayerError::InvalidStateTransition));
    assert_eq!(get_state_owned::<Paused>(&cell).err(), Some(PlayerError::InvalidStateTransition));
    assert_eq!(get_state_owned::<Finished>(&cell).err(), Some(PlayerError::InvalidStateTransition));

    let fresh = get_state_owned::<Uninitialized>(&cell).unwrap();
    let mut outbox = Vec::new();
    let ready = fresh.ready(&ready_report(10.0, 0.0, true), &mut outbox).ok().unwrap();
    cell.set_state(ready);
    assert_eq!(cell.get_type(), Lifecycle::Ready);
    assert!(get_state_owned::<Ready>(&cell).is_ok());
    assert_eq!(cell.get_max_progress(), 10_000);
}

#[test]
fn typed_transitions_return_the_new_state_or_the_fallback() {
    let mut outbox = Vec::new();
    let fresh = VideoPlayer::new();
    assert_eq!(fresh.get_type(), Lifecycle::Uninitialized);
    let waiting = SurfaceReport::new(0, 0, 0, false);
    let still = fresh.ready(&waiting, &mut outbox).err().unwrap();
    assert_eq!(still.get_type(), Lifecycle::Uninitialized);
    assert!(outbox.is_empty());

    let report = ready_report(60.0, 0.0, true);
    let ready = still.ready(&report, &mut outbox).ok().unwrap();
    assert_eq!(ready.get_type(), Lifecycle::Ready);
    let paused = ready.play(false, &mut outbox).err().unwrap();
    assert_eq!(paused.get_type(), Lifecycle::Paused);
    let playing = paused.play(true, &mut outbox).ok().unwrap();
    assert_eq!(playing.get_type(), Lifecycle::Playing);
    let playing = playing.set_video_time(&ready_report(60.0, 59.999, true), &mut outbox).ok().unwrap();
    let finished = playing.set_video_time(&ready_report(60.0, 60.0, true), &mut outbox).err().unwrap();
    assert_eq!(finished.get_type(), Lifecycle::Finished);
    let again = finished.restart(&report, &mut outbox);
    assert_eq!(again.get_type(), Lifecycle::Ready);
    assert_eq!(again.get_core().get_max_progress(), 60_000);
}

#[test]
fn state_tags_match_their_types() {
    assert_eq!(Uninitialized::tag(), Lifecycle::Uninitialized);
    assert_eq!(Ready::tag(), Lifecycle::Ready);
    assert_eq!(Playing::tag(), Lifecycle::Playing);
    assert_eq!(Paused::tag(), Lifecycle::Paused);
    assert_eq!(Finished::tag(), Lifecycle::Finished);
}

#[test]
fn medium_shorter_than_the_margin_keeps_the_clip_unbounded() {
    let mut cell = SharedVideoPlayer::new();
    cell.observe(SurfaceReport::new(2, MARGIN, 0, true));
    PlayPauseEvent::new().trigger(&mut cell).unwrap();
    assert_eq!(cell.get_type(), Lifecycle::Playing);
    assert_eq!(cell.get_max_progress(), UNBOUNDED);
    assert_eq!(
        cell.take_commands(),
        vec![
            Command::Seek(0),
            Command::UpdateProgress { position: 0, duration: MARGIN },
            Command::SwapPlayButton,
        ]
    );
}

#[test]
fn readiness_codes() {
    assert_eq!(InternalVideoReadiness::from_code(0), InternalVideoReadiness::Nothing);
    assert_eq!(InternalVideoReadiness::from_code(1), InternalVideoReadiness::MedaData);
    assert_eq!(InternalVideoReadiness::from_code(2), InternalVideoReadiness::CurrentData);
    assert_eq!(InternalVideoReadiness::from_code(3), InternalVideoReadiness::FutureData);
    assert_eq!(InternalVideoReadiness::from_code(4), InternalVideoReadiness::AllData);
    assert_eq!(InternalVideoReadiness::from_code(9), InternalVideoReadiness::Unknown(9));
    assert!(!InternalVideoReadiness::from_code(0).is_ready());
    assert!(!InternalVideoReadiness::from_code(1).is_ready());
    assert!(InternalVideoReadiness::from_code(2).is_ready());
    assert!(InternalVideoReadiness::from_code(4).is_ready());
    assert!(InternalVideoReadiness::from_code(9).is_ready());
    assert!(!SurfaceReport::empty().ready());
}
