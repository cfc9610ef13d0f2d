use rehash_player::dispatch::{init_video_callback_handler, VideoCallbackHandler};
use rehash_player::drag::{
    pointer_percent, DragClickClosure, DragClickEvent, DragEventCtx, DragExitClosure, DragExitEvent,
    DragFlags, DragMoveClosure, DragMoveEvent, DragSliderElement, DragTarget,
};
use rehash_player::errors::PlayerError;
use rehash_player::invoke::InvokeCommands;
use rehash_player::errors::RehashError;
use rehash_player::events::{
    CallbackEvent, FastForwardEvent, FullScreenEvent, MuteUnmuteEvent, PlaybackDecreaseAction,
    PlaybackIncreaseAction, PlaybackSpeedEvent, RewindEvent, SettingsEvent, VideoEvent,
};
use rehash_player::player::Lifecycle;
use rehash_player::shared::SharedVideoPlayer;
use rehash_player::speed::VideoPlaybackSpeed;
use rehash_player::stream::{VideoState, VideoStreamChunk, VideoStreamMeta, CHUNK_SIZE};
use rehash_player::surface::{Command, SurfaceReport};
use rehash_player::units::Percent;

const ALL_TARGETS: [DragTarget; 4] =
    [DragTarget::ProgressBar, DragTarget::VolumeBar, DragTarget::StartTrim, DragTarget::EndTrim];

fn ready_cell(length: u64) -> SharedVideoPlayer {
    let mut cell = SharedVideoPlayer::new();
    cell.observe(SurfaceReport::new(4, length, 0, true));
    cell.play_pause().unwrap();
    cell.take_commands();
    cell
}

#[test]
fn pointer_percent_inside_the_bar() {
    assert_eq!(pointer_percent(125, 100, 100), Ok(Percent::new(250_000)));
    assert_eq!(pointer_percent(100, 100, 100), Ok(Percent::zero()));
    assert_eq!(pointer_percent(200, 100, 100), Ok(Percent::full()));
    assert_eq!(pointer_percent(101, 100, 3), Ok(Percent::new(333_333)));
    assert_eq!(pointer_percent(-50, -100, 200), Ok(Percent::new(250_000)));
}

#[test]
fn pointer_percent_outside_the_bar_is_exactly_zero_or_one() {
    assert_eq!(pointer_percent(99, 100, 100), Ok(Percent::zero()));
    assert_eq!(pointer_percent(i64::MIN, 100, 100), Ok(Percent::zero()));
    assert_eq!(pointer_percent(201, 100, 100), Ok(Percent::full()));
    assert_eq!(pointer_percent(i64::MAX, 100, 100), Ok(Percent::full()));
    assert_eq!(pointer_percent(i64::MAX, i64::MIN, 1), Ok(Percent::full()));
    assert_eq!(pointer_percent(i64::MAX, i64::MIN, u64::MAX), Ok(Percent::full()));
    assert_eq!(pointer_percent(i64::MAX - 1, i64::MIN, u64::MAX), Ok(Percent::new(999_999)));
}

#[test]
fn pointer_percent_on_a_bar_without_width() {
    assert_eq!(pointer_percent(125, 100, 0), Err(PlayerError::DegenerateGeometry));
    assert_eq!(pointer_percent(0, 100, 0), Err(PlayerError::DegenerateGeometry));
}

#[test]
fn pointer_down_on_volume_slider_sets_volume_and_drags() {
    let left = 40;
    let width = 200;
    let mut ctx = DragEventCtx::new(ready_cell(100_000));
    let down = DragClickClosure::new(Some(DragTarget::VolumeBar), left, width);
    assert_eq!(down.closure(&mut ctx, left + width as i64 / 4), Ok(()));
    assert_eq!(ctx.video_player.get_volume(), Percent::new(250_000));
    assert_eq!(ctx.video_player.get_volume().millionths() as f64 / 1_000_000.0, 0.25);
    assert_eq!(
        ctx.video_player.take_commands(),
        vec![
            Command::SetVolume(Percent::new(250_000)),
            Command::UpdateVolume(Percent::new(250_000)),
        ]
    );
    assert!(ctx.currently_moving.get(DragTarget::VolumeBar));
    assert!(ctx.is_clicked());

    assert_eq!(DragExitClosure::new().closure(&mut ctx), Ok(()));
    for target in ALL_TARGETS {
        assert!(!ctx.currently_moving.get(target));
    }
    assert!(!ctx.is_clicked());
    assert_eq!(ctx.video_player.pending(), 0);
}

#[test]
fn move_for_a_target_that_is_not_dragged_changes_nothing() {
    let mut ctx = DragEventCtx::new(ready_cell(100_000));
    let bar = DragSliderElement { slider_left: 0, slider_width: 100 };
    DragClickClosure::new(Some(DragTarget::ProgressBar), 0, 100).closure(&mut ctx, 10).unwrap();
    ctx.video_player.take_commands();

    let mut moves = DragMoveClosure::new();
    for target in ALL_TARGETS {
        moves.insert(target, bar);
    }
    let volume_before = ctx.video_player.get_volume();
    let bounds_before = ctx.video_player.get_bounds();
    let percent_before = ctx.percent;
    let clicked_before = ctx.clicked;
    for target in [DragTarget::VolumeBar, DragTarget::StartTrim, DragTarget::EndTrim] {
        assert_eq!(moves.handle_closure(&mut ctx, target, 60), Ok(()));
        assert_eq!(ctx.video_player.pending(), 0);
        assert_eq!(ctx.video_player.get_volume(), volume_before);
        assert_eq!(ctx.video_player.get_bounds(), bounds_before);
        assert_eq!(ctx.percent, percent_before);
        assert_eq!(ctx.clicked, clicked_before);
    }
    assert!(ctx.currently_moving.get(DragTarget::ProgressBar));

    assert_eq!(moves.handle_closure(&mut ctx, DragTarget::ProgressBar, 60), Ok(()));
    assert_eq!(
        ctx.video_player.take_commands(),
        vec![
            Command::Seek(60_000),
            Command::UpdateProgress { position: 60_000, duration: 100_000 },
        ]
    );
}

#[test]
fn move_event_reads_the_flag_of_its_own_target() {
    let mut ctx = DragEventCtx::new(ready_cell(100_000));
    ctx.set_moving(DragTarget::VolumeBar, true);
    ctx.set_clicked(Some(DragTarget::ProgressBar));
    ctx.set_percent(Percent::new(500_000));
    assert_eq!(DragMoveEvent::new().trigger(&mut ctx), Ok(()));
    assert_eq!(ctx.video_player.pending(), 0);
    ctx.set_clicked(Some(DragTarget::VolumeBar));
    assert_eq!(DragMoveEvent::new().trigger(&mut ctx), Ok(()));
    assert_eq!(ctx.video_player.get_volume(), Percent::new(500_000));
    ctx.set_clicked(None);
    ctx.video_player.take_commands();
    assert_eq!(DragMoveEvent::new().trigger(&mut ctx), Ok(()));
    assert_eq!(DragClickEvent::new().trigger(&mut ctx), Ok(()));
    assert_eq!(ctx.video_player.pending(), 0);
    assert_eq!(DragExitEvent::new().trigger(&mut ctx), Ok(()));
    assert_eq!(ctx.currently_moving, DragFlags::none());
}

#[test]
fn pointer_down_does_not_clear_a_drag_that_never_ended() {
    let mut ctx = DragEventCtx::new(ready_cell(100_000));
    DragClickClosure::new(Some(DragTarget::VolumeBar), 0, 100).closure(&mut ctx, 10).unwrap();
    DragClickClosure::new(Some(DragTarget::ProgressBar), 0, 100).closure(&mut ctx, 20).unwrap();
    assert!(ctx.currently_moving.get(DragTarget::VolumeBar));
    assert!(ctx.currently_moving.get(DragTarget::ProgressBar));
    assert!(!ctx.currently_moving.get(DragTarget::StartTrim));
    assert!(!ctx.currently_moving.get(DragTarget::EndTrim));
}

#[test]
fn zero_width_bar_is_a_no_op() {
    let mut ctx = DragEventCtx::new(ready_cell(100_000));
    let down = DragClickClosure::new(Some(DragTarget::ProgressBar), 10, 0);
    assert_eq!(down.closure(&mut ctx, 50), Err(PlayerError::DegenerateGeometry));
    assert_eq!(ctx.video_player.pending(), 0);
    assert_eq!(ctx.currently_moving, DragFlags::none());
    assert_eq!(ctx.clicked, None);

    ctx.set_moving(DragTarget::ProgressBar, true);
    let mut moves = DragMoveClosure::new();
    assert_eq!(moves.handle_closure(&mut ctx, DragTarget::ProgressBar, 50), Ok(()));
    moves.insert(DragTarget::ProgressBar, DragSliderElement { slider_left: 10, slider_width: 0 });
    assert_eq!(
        moves.handle_closure(&mut ctx, DragTarget::ProgressBar, 50),
        Err(PlayerError::DegenerateGeometry)
    );
    assert_eq!(ctx.video_player.pending(), 0);
    assert_eq!(moves.get(DragTarget::VolumeBar), None);
}

#[test]
fn trim_handles_move_the_marks_and_rejections_are_silent() {
    let mut ctx = DragEventCtx::new(ready_cell(100_000));
    let bar = DragSliderElement { slider_left: 0, slider_width: 1_000 };
    let end = DragClickClosure::new_dom_rec(Some(DragTarget::EndTrim), bar);
    let start = DragClickClosure::new_dom_rec(Some(DragTarget::StartTrim), bar);
    assert_eq!(end.closure(&mut ctx, 500), Ok(()));
    assert_eq!(ctx.video_player.get_max_progress(), 50_000);
    assert_eq!(
        ctx.video_player.take_commands(),
        vec![Command::UpdateEndTrimPosition(Percent::new(500_000))]
    );
    assert_eq!(start.closure(&mut ctx, 600), Ok(()));
    assert_eq!(ctx.video_player.get_min_progress(), 0);
    assert_eq!(ctx.video_player.get_max_progress(), 50_000);
    assert_eq!(ctx.video_player.pending(), 0);
    assert!(ctx.currently_moving.get(DragTarget::StartTrim));
    assert_eq!(start.closure(&mut ctx, 100), Ok(()));
    assert_eq!(ctx.video_player.get_min_progress(), 10_000);
}

#[test]
fn drag_target_identifiers() {
    assert_eq!(DragTarget::ProgressBar.id(), "progress-bar");
    assert_eq!(DragTarget::VolumeBar.id(), "volume-slider");
    assert_eq!(DragTarget::StartTrim.id(), "start-dot");
    assert_eq!(DragTarget::EndTrim.id(), "end-dot");
    for target in ALL_TARGETS {
        assert_eq!(DragTarget::from_id(target.id()), Some(target));
    }
    assert_eq!(DragTarget::from_id("play-pause"), None);
    assert_eq!(DragTarget::from_id(""), None);
}

#[test]
fn mute_event_toggles() {
    let mut cell = SharedVideoPlayer::new();
    let mut event = MuteUnmuteEvent::new();
    assert!(event.is_unmuted());
    assert_eq!(event.trigger(&mut cell), Ok(()));
    assert!(!event.is_unmuted());
    assert_eq!(cell.take_commands(), vec![Command::Mute(true), Command::SwapMuteButton]);
    assert_eq!(event.trigger(&mut cell), Ok(()));
    assert!(event.is_unmuted());
    assert_eq!(cell.take_commands(), vec![Command::Mute(false), Command::SwapUnmuteButton]);
}

#[test]
fn skip_speed_and_placeholder_events() {
    let mut cell = SharedVideoPlayer::new();
    cell.observe(SurfaceReport::new(4, 100_000, 50_000, true));
    assert_eq!(FastForwardEvent::new().trigger(&mut cell), Ok(()));
    assert_eq!(RewindEvent::new().trigger(&mut cell), Ok(()));
    assert_eq!(cell.take_commands(), vec![Command::Seek(55_000), Command::Seek(45_000)]);
    assert_eq!(SettingsEvent::new().trigger(&mut cell), Ok(()));
    assert_eq!(FullScreenEvent::new().trigger(&mut cell), Ok(()));
    assert_eq!(cell.pending(), 0);
    assert_eq!(PlaybackSpeedEvent::<PlaybackIncreaseAction>::new().trigger(&mut cell), Ok(()));
    assert_eq!(cell.get_playback_speed(), VideoPlaybackSpeed::NormalHalf);
    let mut slower = PlaybackSpeedEvent::<PlaybackDecreaseAction>::new();
    assert_eq!(slower.trigger(&mut cell), Ok(()));
    assert_eq!(slower.trigger(&mut cell), Ok(()));
    assert_eq!(slower.trigger(&mut cell), Ok(()));
    assert_eq!(cell.get_playback_speed(), VideoPlaybackSpeed::Half);
}

#[test]
fn standard_keys_and_controls() {
    let mut handler = init_video_callback_handler();
    let mut cell = SharedVideoPlayer::new();
    cell.observe(SurfaceReport::new(4, 100_000, 50_000, true));

    assert_eq!(handler.key_pressed(&mut cell, "p"), Ok(()));
    assert_eq!(cell.get_type(), Lifecycle::Playing);
    assert_eq!(handler.control_clicked(&mut cell, "play-pause"), Ok(()));
    assert_eq!(cell.get_type(), Lifecycle::Paused);
    cell.take_commands();

    assert_eq!(handler.key_pressed(&mut cell, "ArrowRight"), Ok(()));
    assert_eq!(handler.key_pressed(&mut cell, "ArrowLeft"), Ok(()));
    assert_eq!(handler.control_clicked(&mut cell, "fast-forward"), Ok(()));
    assert_eq!(handler.control_clicked(&mut cell, "rewind"), Ok(()));
    assert_eq!(
        cell.take_commands(),
        vec![
            Command::Seek(55_000),
            Command::Seek(45_000),
            Command::Seek(55_000),
            Command::Seek(45_000),
        ]
    );

    assert_eq!(handler.key_pressed(&mut cell, "ArrowUp"), Ok(()));
    assert_eq!(cell.get_playback_speed(), VideoPlaybackSpeed::NormalHalf);
    assert_eq!(handler.key_pressed(&mut cell, "ArrowDown"), Ok(()));
    assert_eq!(cell.get_playback_speed(), VideoPlaybackSpeed::Normal);
    assert_eq!(handler.control_clicked(&mut cell, "settings"), Ok(()));
    assert_eq!(handler.control_clicked(&mut cell, "fullscreen"), Ok(()));
}

#[test]
fn one_mute_event_stands_under_key_and_button() {
    let mut handler = init_video_callback_handler();
    let mut cell = SharedVideoPlayer::new();
    assert_eq!(handler.key_pressed(&mut cell, "m"), Ok(()));
    assert_eq!(cell.take_commands(), vec![Command::Mute(true), Command::SwapMuteButton]);
    assert_eq!(handler.control_clicked(&mut cell, "volume-btn"), Ok(()));
    assert_eq!(cell.take_commands(), vec![Command::Mute(false), Command::SwapUnmuteButton]);
    match handler.get_event(1) {
        Some(VideoEvent::MuteUnmute(event)) => assert!(event.is_unmuted()),
        other => panic!("unexpected event {:?}", other),
    }
}

#[test]
fn unknown_key_is_a_callback_not_found_and_changes_nothing() {
    let mut handler = init_video_callback_handler();
    let mut cell = SharedVideoPlayer::new();
    cell.observe(SurfaceReport::new(4, 100_000, 0, true));
    assert_eq!(handler.key_pressed(&mut cell, "q"), Err(PlayerError::CallbackNotFound));
    assert_eq!(handler.key_pressed(&mut cell, "P"), Err(PlayerError::CallbackNotFound));
    assert_eq!(handler.control_clicked(&mut cell, "p"), Err(PlayerError::CallbackNotFound));
    assert_eq!(handler.key_pressed(&mut cell, "play-pause"), Err(PlayerError::CallbackNotFound));
    assert_eq!(cell.get_type(), Lifecycle::Uninitialized);
    assert_eq!(cell.pending(), 0);
    assert_eq!(handler.key_pressed(&mut cell, "p"), Ok(()));
    assert_eq!(cell.get_type(), Lifecycle::Playing);
}

#[test]
fn tick_dispatch_and_failing_event_do_not_stop_dispatch() {
    let mut handler = init_video_callback_handler();
    let mut cell = SharedVideoPlayer::new();
    cell.observe(SurfaceReport::new(4, 100_000, 0, true));
    assert_eq!(handler.time_updated(&mut cell), Err(PlayerError::InvalidStateTransition));
    assert_eq!(cell.get_type(), Lifecycle::Uninitialized);
    assert_eq!(handler.key_pressed(&mut cell, "p"), Ok(()));
    cell.take_commands();
    cell.observe(SurfaceReport::new(4, 100_000, 1_000, true));
    assert_eq!(handler.time_updated(&mut cell), Ok(()));
    assert_eq!(
        cell.take_commands(),
        vec![Command::UpdateProgress { position: 1_000, duration: 100_000 }]
    );
}

#[test]
fn registering_events_by_hand() {
    let mut handler = VideoCallbackHandler::new();
    let mut cell = SharedVideoPlayer::new();
    assert_eq!(handler.time_updated(&mut cell), Err(PlayerError::CallbackNotFound));
    assert_eq!(handler.init_keyboard_callback("k", 0), Err(PlayerError::CallbackNotFound));
    assert_eq!(handler.init_control_callback("k", 0), Err(PlayerError::CallbackNotFound));
    assert_eq!(handler.init_progress_callback(0), Err(PlayerError::CallbackNotFound));
    assert!(handler.get_event(0).is_none());

    let mute = handler.add_event(VideoEvent::MuteUnmute(MuteUnmuteEvent::new()));
    let faster = handler.add_event(VideoEvent::PlaybackIncrease(PlaybackSpeedEvent::new()));
    assert_eq!((mute, faster), (0, 1));
    assert_eq!(handler.init_keyboard_callback("k", mute), Ok(()));
    assert_eq!(handler.key_pressed(&mut cell, "k"), Ok(()));
    assert_eq!(cell.take_commands(), vec![Command::Mute(true), Command::SwapMuteButton]);
    assert_eq!(handler.init_keyboard_callback("k", faster), Ok(()));
    assert_eq!(handler.key_pressed(&mut cell, "k"), Ok(()));
    assert_eq!(
        cell.take_commands(),
        vec![Command::SetPlaybackSpeed(VideoPlaybackSpeed::NormalHalf)]
    );
    assert_eq!(handler.init_keyboard_callback("j", 2), Err(PlayerError::CallbackNotFound));
}

#[test]
fn stream_records() {
    let meta = VideoStreamMeta::new("clip.mp4".to_string(), 3, 1_000, 250);
    assert_eq!(meta.file_path, "clip.mp4");
    assert_eq!(meta.current_position, 3);
    assert_eq!(meta.total_size, 1_000);
    assert_eq!(meta.chunk_size, 250);
    let chunk = VideoStreamChunk { bytes: vec![1, 2, 3], position: 0, is_final: true };
    assert_eq!(chunk.bytes.len(), 3);
    assert!(chunk.is_final);
    assert_eq!(chunk.position, 0);
}

#[test]
fn medium_is_handed_out_in_chunks() {
    let mut state = VideoState::new();
    assert_eq!(state.get_bytes(), None);

    let total = 2 * CHUNK_SIZE + 17;
    let bytes: Vec<u8> = (0..total).map(|i| (i % 251) as u8).collect();
    state.set_bytes(bytes.clone());
    let first = state.get_bytes().unwrap();
    let second = state.get_bytes().unwrap();
    let third = state.get_bytes().unwrap();
    assert_eq!(first.len(), CHUNK_SIZE);
    assert_eq!(second.len(), CHUNK_SIZE);
    assert_eq!(third.len(), 17);
    assert_eq!(first[..], bytes[..CHUNK_SIZE]);
    assert_eq!(second[..], bytes[CHUNK_SIZE..2 * CHUNK_SIZE]);
    assert_eq!(third[..], bytes[2 * CHUNK_SIZE..]);
    assert_eq!(state.get_bytes(), Some(vec![]));

    state.set_bytes(vec![9; CHUNK_SIZE]);
    assert_eq!(state.get_bytes().unwrap().len(), CHUNK_SIZE);
    assert_eq!(state.get_bytes(), Some(vec![]));
    state.set_bytes(vec![]);
    assert_eq!(state.get_bytes(), Some(vec![]));
}

#[test]
fn host_commands_by_name() {
    let all = [
        (InvokeCommands::GetDesktopBuild, "get_desktop_build"),
        (InvokeCommands::WasmLog, "wasm_log"),
        (InvokeCommands::WasmError, "wasm_error"),
        (InvokeCommands::CreateVideoStream, "create_video_stream"),
        (InvokeCommands::GetChunk, "get_chunk"),
    ];
    for (command, name) in all {
        assert_eq!(command.name(), name);
        assert_eq!(InvokeCommands::try_from(name).ok(), Some(command));
    }
    let unknown = InvokeCommands::try_from("get_chunks").err().unwrap();
    assert_eq!(unknown.message(), "Unknown invoke command");
    assert!(InvokeCommands::try_from("").is_err());
    assert!(InvokeCommands::try_from("WASM_LOG").is_err());
}

#[test]
fn error_from_its_text() {
    let error = RehashError::from("Failed to get window".to_string());
    assert_eq!(error.0, "Failed to get window");
    assert_eq!(error.message(), "Failed to get window");
}

#[test]
fn refused_resume_through_the_tables_leaves_the_session_paused() {
    let mut handler = init_video_callback_handler();
    let mut cell = SharedVideoPlayer::new();
    cell.observe(SurfaceReport::new(4, 100_000, 0, false));
    let event = handler.key_event("p").unwrap();
    assert!(event.wants_resume(&cell));
    assert!(!handler.key_event("m").unwrap().wants_resume(&cell));
    assert!(handler.key_event("q").is_none());
    assert!(handler.control_event("play-pause").unwrap().wants_resume(&cell));
    assert!(handler.control_event("q").is_none());
    assert_eq!(handler.key_pressed(&mut cell, "p"), Ok(()));
    assert_eq!(cell.get_type(), Lifecycle::Paused);
    assert_eq!(
        handler.control_ids(),
        vec!["play-pause", "volume-btn", "settings", "fullscreen", "fast-forward", "rewind"]
    );
}

#[test]
fn registering_a_key_again_replaces_what_it_stood_for() {
    let mut handler = init_video_callback_handler();
    let mut cell = SharedVideoPlayer::new();
    cell.observe(SurfaceReport::new(4, 100_000, 50_000, true));

    assert_eq!(handler.init_control_callback("rewind", 5), Ok(()));
    assert_eq!(handler.init_control_callback("settings", 1), Ok(()));
    assert_eq!(handler.init_control_callback("extra", 0), Ok(()));
    assert_eq!(
        handler.control_ids(),
        vec!["play-pause", "volume-btn", "settings", "fullscreen", "fast-forward", "rewind", "extra"]
    );
    assert_eq!(handler.control_clicked(&mut cell, "rewind"), Ok(()));
    assert_eq!(cell.take_commands(), vec![Command::Seek(55_000)]);
    assert_eq!(handler.control_clicked(&mut cell, "settings"), Ok(()));
    assert_eq!(cell.take_commands(), vec![Command::Mute(true), Command::SwapMuteButton]);
    assert_eq!(handler.control_clicked(&mut cell, "fast-forward"), Ok(()));
    assert_eq!(cell.take_commands(), vec![Command::Seek(55_000)]);

    assert_eq!(handler.init_keyboard_callback("p", 1), Ok(()));
    assert_eq!(handler.key_pressed(&mut cell, "p"), Ok(()));
    assert_eq!(cell.get_type(), Lifecycle::Uninitialized);
    assert_eq!(cell.take_commands(), vec![Command::Mute(false), Command::SwapUnmuteButton]);
    assert_eq!(handler.key_pressed(&mut cell, "m"), Ok(()));
    assert_eq!(cell.take_commands(), vec![Command::Mute(true), Command::SwapMuteButton]);

    assert_eq!(handler.init_control_callback("rewind", 9), Err(PlayerError::CallbackNotFound));
    assert_eq!(handler.control_ids().len(), 7);
}
