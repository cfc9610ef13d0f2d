//! The dispatch tables: which event a key, a control or the tick of the
//! surface fires.
//!
//! One event can stand under several keys; it is then one instance, and
//! what it remembers is the same whichever key fired it.

use vstd::prelude::*;
use crate::errors::PlayerError;
use crate::events::{
    CallbackEvent,
    FastForwardEvent,
    FullScreenEvent,
    MuteUnmuteEvent,
    PlayPauseEvent,
    PlaybackSpeedEvent,
    ProgressBarChangeEvent,
    RewindEvent,
    SettingsEvent,
    VideoEvent,
};
use crate::shared::{SessionView, SharedVideoPlayer};

verus! {

/// A table from keys to the slots of events, each key once, in the order in
/// which the keys were first registered.
pub type TableView = Seq<(Seq<char>, int)>;

/// Where `key` stands in `table`, if it stands there.
pub open spec fn spec_position(table: TableView, key: Seq<char>) -> Option<int>
    decreases table.len(),
{
    if table.len() == 0 {
        None
    } else if table.last().0 == key {
        Some(table.len() - 1)
    } else {
        spec_position(table.drop_last(), key)
    }
}

/// The slot that `key` stands for in `table`, if it stands for one.
pub open spec fn spec_lookup(table: TableView, key: Seq<char>) -> Option<int> {
    match spec_position(table, key) {
        Some(at) => Some(table[at].1),
        None => None,
    }
}

/// The table after `key` was registered for `slot`: a key that stands in
/// the table keeps its place and stands for `slot` from now on; a new key is
/// put at the end.
pub open spec fn spec_bind(table: TableView, key: Seq<char>, slot: int) -> TableView {
    match spec_position(table, key) {
        Some(at) => table.update(at, (key, slot)),
        None => table.push((key, slot)),
    }
}

/// No key stands in the table twice.
pub open spec fn distinct_keys(table: TableView) -> bool {
    forall|i: int, j: int|
        0 <= i < j < table.len() ==> (#[trigger] table[i]).0 != (#[trigger] table[j]).0
}

/// The tables as plain data.
pub struct HandlerView {
    /// The events, each in its slot.
    pub events: Seq<VideoEvent>,
    /// The slot for each key of the keyboard.
    pub keyboard: TableView,
    /// The slot for each control.
    pub controls: TableView,
    /// The slot of the event that the tick fires.
    pub progress: Option<int>,
}

impl HandlerView {
    /// Every slot that a table names holds an event, and no key stands in
    /// a table twice.
    pub open spec fn wf(self) -> bool {
        &&& distinct_keys(self.keyboard)
        &&& distinct_keys(self.controls)
        &&& forall|i: int|
            0 <= i < self.keyboard.len() ==> 0 <= (#[trigger] self.keyboard[i]).1
                < self.events.len()
        &&& forall|i: int|
            0 <= i < self.controls.len() ==> 0 <= (#[trigger] self.controls[i]).1
                < self.events.len()
        &&& self.progress matches Some(slot) ==> 0 <= slot < self.events.len()
    }

    /// The tables after the event in `slot` has fired.
    pub open spec fn fired(self, slot: int) -> HandlerView {
        HandlerView { events: self.events.update(slot, self.events[slot].spec_next()), ..self }
    }
}

/// The events of a session and the tables that say what fires them.
#[derive(Debug)]
pub struct VideoCallbackHandler {
    events: Vec<VideoEvent>,
    keyboard: Vec<(String, usize)>,
    controls: Vec<(String, usize)>,
    progress: Option<usize>,
}

/// A table as plain data.
pub closed spec fn table_view(table: Seq<(String, usize)>) -> TableView {
    table.map(|i: int, entry: (String, usize)| (entry.0@, entry.1 as int))
}

impl View for VideoCallbackHandler {
    type V = HandlerView;

    closed spec fn view(&self) -> HandlerView {
        HandlerView {
            events: self.events@,
            keyboard: table_view(self.keyboard@),
            controls: table_view(self.controls@),
            progress: match self.progress {
                Some(slot) => Some(slot as int),
                None => None,
            },
        }
    }
}

/// Finds where `key` stands in `table`.
fn position(table: &Vec<(String, usize)>, key: &str) -> (at: Option<usize>)
    ensures
        at matches Some(found) ==> spec_position(table_view(table@), key@) == Some(found as int)
            && found < table@.len(),
        at is None ==> spec_position(table_view(table@), key@) is None,
{
    let wanted = String::from_str(key);
    let mut i: usize = table.len();
    proof {
        assert(table_view(table@).take(i as int) =~= table_view(table@));
    }
    while i > 0
        invariant
            i <= table.len(),
            wanted@ == key@,
            spec_position(table_view(table@), key@) == spec_position(
                table_view(table@).take(i as int),
                key@,
            ),
        decreases i,
    {
        let ghost prefix = table_view(table@).take(i as int);
        proof {
            assert(prefix.last() == (table@[i - 1].0@, table@[i - 1].1 as int));
            assert(prefix.drop_last() =~= table_view(table@).take(i - 1));
        }
        i = i - 1;
        if table[i].0 == wanted {
            return Some(i);
        }
    }
    None
}

/// Registers `key` for `slot` in `table`: in the place where the key stands
/// already, or at the end.
fn bind(table: &mut Vec<(String, usize)>, key: &str, slot: usize)
    ensures
        table_view(final(table)@) == spec_bind(table_view(old(table)@), key@, slot as int),
{
    match position(table, key) {
        Some(at) => {
            table.set(at, (String::from_str(key), slot));
        },
        None => {
            table.push((String::from_str(key), slot));
        },
    }
    proof {
        assert(table_view(table@) =~= spec_bind(table_view(old(table)@), key@, slot as int));
    }
}

impl VideoCallbackHandler {
    #[verifier::type_invariant]
    closed spec fn slots_exist(self) -> bool {
        self@.wf()
    }

    /// The handler with no event and nothing registered.
    pub fn new() -> (handler: VideoCallbackHandler)
        ensures
            handler@ == (HandlerView {
                events: Seq::empty(),
                keyboard: Seq::empty(),
                controls: Seq::empty(),
                progress: None,
            }),
            handler@.wf(),
    {
        let handler = VideoCallbackHandler {
            events: Vec::new(),
            keyboard: Vec::new(),
            controls: Vec::new(),
            progress: None,
        };
        proof {
            assert(handler@.keyboard =~= Seq::empty());
            assert(handler@.controls =~= Seq::empty());
        }
        handler
    }

    /// Takes the tables apart and leaves the handler empty.
    fn take_apart(&mut self) -> (parts: (
        Vec<VideoEvent>,
        Vec<(String, usize)>,
        Vec<(String, usize)>,
        Option<usize>,
    ))
        ensures
            old(self)@.wf(),
            parts.0 == old(self).events,
            parts.1 == old(self).keyboard,
            parts.2 == old(self).controls,
            parts.3 == old(self).progress,
    {
        proof {
            use_type_invariant(&*self);
        }
        let mut taken = VideoCallbackHandler::new();
        std::mem::swap(self, &mut taken);
        let VideoCallbackHandler { events, keyboard, controls, progress } = taken;
        (events, keyboard, controls, progress)
    }

    /// Takes in an event and returns the slot it stands in from now on.
    pub fn add_event(&mut self, event: VideoEvent) -> (slot: usize)
        ensures
            old(self)@.wf(),
            final(self)@.wf(),
            slot == old(self)@.events.len(),
            final(self)@ == (HandlerView { events: old(self)@.events.push(event), ..old(self)@ }),
    {
        let (mut events, keyboard, controls, progress) = self.take_apart();
        let slot = events.len();
        events.push(event);
        *self = VideoCallbackHandler { events, keyboard, controls, progress };
        slot
    }

    /// Registers the event in `slot` under a key of the keyboard. A key
    /// that is registered already stands for `slot` from now on. A slot
    /// that holds no event is an unknown callback, and nothing changes.
    pub fn init_keyboard_callback(&mut self, key: &str, slot: usize) -> (r: Result<
        (),
        PlayerError,
    >)
        ensures
            old(self)@.wf(),
            final(self)@.wf(),
            r is Ok <==> slot < old(self)@.events.len(),
            r is Ok ==> final(self)@ == (HandlerView {
                keyboard: spec_bind(old(self)@.keyboard, key@, slot as int),
                ..old(self)@
            }),
            r matches Err(e) ==> e == PlayerError::CallbackNotFound && final(self)@ == old(self)@,
    {
        proof {
            use_type_invariant(&*self);
        }
        if slot < self.events.len() {
            let (events, mut keyboard, controls, progress) = self.take_apart();
            bind(&mut keyboard, key, slot);
            proof {
                lemma_bind(
                    table_view(old(self).keyboard@),
                    key@,
                    slot as int,
                    events@.len() as int,
                );
            }
            *self = VideoCallbackHandler { events, keyboard, controls, progress };
            Ok(())
        } else {
            Err(PlayerError::CallbackNotFound)
        }
    }

    /// Registers the event in `slot` under the identifier of a control. An
    /// identifier that is registered already stands for `slot` from now on.
    /// A slot that holds no event is an unknown callback, and nothing
    /// changes.
    pub fn init_control_callback(&mut self, id: &str, slot: usize) -> (r: Result<(), PlayerError>)
        ensures
            old(self)@.wf(),
            final(self)@.wf(),
            r is Ok <==> slot < old(self)@.events.len(),
            r is Ok ==> final(self)@ == (HandlerView {
                controls: spec_bind(old(self)@.controls, id@, slot as int),
                ..old(self)@
            }),
            r matches Err(e) ==> e == PlayerError::CallbackNotFound && final(self)@ == old(self)@,
    {
        proof {
            use_type_invariant(&*self);
        }
        if slot < self.events.len() {
            let (events, keyboard, mut controls, progress) = self.take_apart();
            bind(&mut controls, id, slot);
            proof {
                lemma_bind(
                    table_view(old(self).controls@),
                    id@,
                    slot as int,
                    events@.len() as int,
                );
            }
            *self = VideoCallbackHandler { events, keyboard, controls, progress };
            Ok(())
        } else {
            Err(PlayerError::CallbackNotFound)
        }
    }

    /// Makes the event in `slot` the one that the tick of the surface
    /// fires. A slot that holds no event is an unknown callback, and nothing
    /// changes.
    pub fn init_progress_callback(&mut self, slot: usize) -> (r: Result<(), PlayerError>)
        ensures
            old(self)@.wf(),
            final(self)@.wf(),
            r is Ok <==> slot < old(self)@.events.len(),
            r is Ok ==> final(self)@ == (HandlerView {
                progress: Some(slot as int),
                ..old(self)@
            }),
            r matches Err(e) ==> e == PlayerError::CallbackNotFound && final(self)@ == old(self)@,
    {
        proof {
            use_type_invariant(&*self);
        }
        if slot < self.events.len() {
            self.progress = Some(slot);
            Ok(())
        } else {
            Err(PlayerError::CallbackNotFound)
        }
    }

    /// The event in `slot`, if the slot holds one.
    pub fn get_event(&self, slot: usize) -> (event: Option<VideoEvent>)
        ensures
            self@.wf(),
            slot < self@.events.len() ==> event == Some(self@.events[slot as int]),
            slot >= self@.events.len() ==> event is None,
    {
        proof {
            use_type_invariant(self);
        }
        if slot < self.events.len() {
            Some(self.events[slot])
        } else {
            None
        }
    }

    /// The event that a key of the keyboard fires, if one is registered
    /// under it.
    pub fn key_event(&self, key: &str) -> (event: Option<VideoEvent>)
        ensures
            self@.wf(),
            match spec_lookup(self@.keyboard, key@) {
                Some(slot) => event == Some(self@.events[slot]),
                None => event is None,
            },
    {
        proof {
            use_type_invariant(self);
            lemma_position(self@.keyboard, key@);
        }
        match position(&self.keyboard, key) {
            Some(at) => Some(self.events[self.keyboard[at].1]),
            None => None,
        }
    }

    /// The event that a click on a control fires, if one is registered
    /// under its identifier.
    pub fn control_event(&self, id: &str) -> (event: Option<VideoEvent>)
        ensures
            self@.wf(),
            match spec_lookup(self@.controls, id@) {
                Some(slot) => event == Some(self@.events[slot]),
                None => event is None,
            },
    {
        proof {
            use_type_invariant(self);
            lemma_position(self@.controls, id@);
        }
        match position(&self.controls, id) {
            Some(at) => Some(self.events[self.controls[at].1]),
            None => None,
        }
    }

    /// The identifiers of the controls that have an event, each once, in
    /// the order in which they were first registered.
    pub fn control_ids(&self) -> (ids: Vec<String>)
        ensures
            self@.wf(),
            ids@.len() == self@.controls.len(),
            forall|i: int| 0 <= i < ids@.len() ==> (#[trigger] ids@[i])@ == self@.controls[i].0,
            forall|i: int, j: int|
                0 <= i < j < ids@.len() ==> (#[trigger] ids@[i])@ != (#[trigger] ids@[j])@,
    {
        proof {
            use_type_invariant(self);
        }
        let mut ids: Vec<String> = Vec::new();
        let mut i: usize = 0;
        while i < self.controls.len()
            invariant
                i <= self.controls.len(),
                ids@.len() == i,
                forall|j: int|
                    0 <= j < i ==> (#[trigger] ids@[j])@ == table_view(self.controls@)[j].0,
            decreases self.controls.len() - i,
        {
            ids.push(self.controls[i].0.clone());
            i = i + 1;
        }
        ids
    }

    /// Fires the event in `slot` on `ctx` and keeps what the event
    /// remembers.
    fn fire(&mut self, slot: usize, ctx: &mut SharedVideoPlayer) -> (r: Result<(), PlayerError>)
        requires
            slot < old(self)@.events.len(),
        ensures
            old(self)@.wf(),
            final(self)@.wf(),
            r == old(self)@.events[slot as int].spec_outcome(old(ctx)@),
            final(self)@ == old(self)@.fired(slot as int),
            final(ctx)@ == old(self)@.events[slot as int].spec_fired(old(ctx)@),
    {
        proof {
            use_type_invariant(&*self);
        }
        let mut event = self.events[slot];
        let r = event.trigger(ctx);
        let (mut events, keyboard, controls, progress) = self.take_apart();
        events.set(slot, event);
        *self = VideoCallbackHandler { events, keyboard, controls, progress };
        r
    }

    /// What a dispatch of the slot that a table gave does to the tables,
    /// the cell and the result: an unknown key is a callback not found and
    /// changes nothing; a known one fires its event.
    pub open spec fn spec_dispatch(
        before: HandlerView,
        found: Option<int>,
        ctx_before: SessionView,
        after: HandlerView,
        ctx_after: SessionView,
        r: Result<(), PlayerError>,
    ) -> bool {
        match found {
            None => {
                &&& r == Err::<(), PlayerError>(PlayerError::CallbackNotFound)
                &&& after == before
                &&& ctx_after == ctx_before
            },
            Some(slot) => {
                &&& r == before.events[slot].spec_outcome(ctx_before)
                &&& after == before.fired(slot)
                &&& ctx_after == before.events[slot].spec_fired(ctx_before)
            },
        }
    }

    /// Dispatches a key of the keyboard: fires the event registered under
    /// it. An unregistered key is a callback not found, and nothing changes.
    /// An event that fails leaves its error; the cell is valid either way.
    pub fn key_pressed(&mut self, ctx: &mut SharedVideoPlayer, key: &str) -> (r: Result<
        (),
        PlayerError,
    >)
        ensures
            old(self)@.wf(),
            final(self)@.wf(),
            Self::spec_dispatch(
                old(self)@,
                spec_lookup(old(self)@.keyboard, key@),
                old(ctx)@,
                final(self)@,
                final(ctx)@,
                r,
            ),
    {
        proof {
            use_type_invariant(&*self);
            lemma_position(self@.keyboard, key@);
        }
        match position(&self.keyboard, key) {
            Some(at) => {
                let slot = self.keyboard[at].1;
                self.fire(slot, ctx)
            },
            None => Err(PlayerError::CallbackNotFound),
        }
    }

    /// Dispatches a click on a control: fires the event registered under
    /// its identifier. An unregistered identifier is a callback not found,
    /// and nothing changes.
    pub fn control_clicked(&mut self, ctx: &mut SharedVideoPlayer, id: &str) -> (r: Result<
        (),
        PlayerError,
    >)
        ensures
            old(self)@.wf(),
            final(self)@.wf(),
            Self::spec_dispatch(
                old(self)@,
                spec_lookup(old(self)@.controls, id@),
                old(ctx)@,
                final(self)@,
                final(ctx)@,
                r,
            ),
    {
        proof {
            use_type_invariant(&*self);
            lemma_position(self@.controls, id@);
        }
        match position(&self.controls, id) {
            Some(at) => {
                let slot = self.controls[at].1;
                self.fire(slot, ctx)
            },
            None => Err(PlayerError::CallbackNotFound),
        }
    }

    /// Dispatches the tick of the surface: fires the event registered for
    /// it. With none registered it is a callback not found, and nothing
    /// changes.
    pub fn time_updated(&mut self, ctx: &mut SharedVideoPlayer) -> (r: Result<(), PlayerError>)
        ensures
            old(self)@.wf(),
            final(self)@.wf(),
            Self::spec_dispatch(
                old(self)@,
                old(self)@.progress,
                old(ctx)@,
                final(self)@,
                final(ctx)@,
                r,
            ),
    {
        proof {
            use_type_invariant(&*self);
        }
        match self.progress {
            Some(slot) => self.fire(slot, ctx),
            None => Err(PlayerError::CallbackNotFound),
        }
    }
}

impl HandlerView {
    /// The events of a player with the usual controls, each in its slot.
    pub open spec fn standard_events() -> Seq<VideoEvent> {
        seq![
            VideoEvent::PlayPause(PlayPauseEvent {  }),
            VideoEvent::MuteUnmute(MuteUnmuteEvent::spec_new()),
            VideoEvent::ProgressBarChange(ProgressBarChangeEvent {  }),
            VideoEvent::Settings(SettingsEvent {  }),
            VideoEvent::FullScreen(FullScreenEvent {  }),
            VideoEvent::FastForward(FastForwardEvent {  }),
            VideoEvent::Rewind(RewindEvent {  }),
            VideoEvent::PlaybackIncrease(PlaybackSpeedEvent::spec_new()),
            VideoEvent::PlaybackDecrease(PlaybackSpeedEvent::spec_new()),
        ]
    }

    /// The usual keys: `p` plays and pauses, `m` mutes and unmutes, the
    /// arrows right and left skip, the arrows up and down change the speed.
    pub open spec fn standard_keyboard() -> TableView {
        seq![
            ("p"@, 0int),
            ("m"@, 1int),
            ("ArrowRight"@, 5int),
            ("ArrowLeft"@, 6int),
            ("ArrowUp"@, 7int),
            ("ArrowDown"@, 8int),
        ]
    }

    /// The usual controls, by the identifiers of their elements.
    pub open spec fn standard_controls() -> TableView {
        seq![
            ("play-pause"@, 0int),
            ("volume-btn"@, 1int),
            ("settings"@, 3int),
            ("fullscreen"@, 4int),
            ("fast-forward"@, 5int),
            ("rewind"@, 6int),
        ]
    }

    /// The tables of a player with the usual keys and controls. The
    /// play/pause event and the mute event each stand under a key and under
    /// a control; the tick fires the progress event.
    pub open spec fn standard() -> HandlerView {
        HandlerView {
            events: Self::standard_events(),
            keyboard: Self::standard_keyboard(),
            controls: Self::standard_controls(),
            progress: Some(2int),
        }
    }
}

/// The handler of a player with the usual keys and controls.
pub fn init_video_callback_handler() -> (handler: VideoCallbackHandler)
    ensures
        handler@ == HandlerView::standard(),
        handler@.wf(),
{
    let mut handler = VideoCallbackHandler::new();
    let play_pause = handler.add_event(VideoEvent::PlayPause(PlayPauseEvent::new()));
    let mute_unmute = handler.add_event(VideoEvent::MuteUnmute(MuteUnmuteEvent::new()));
    let progress = handler.add_event(VideoEvent::ProgressBarChange(ProgressBarChangeEvent::new()));
    let settings = handler.add_event(VideoEvent::Settings(SettingsEvent::new()));
    let fullscreen = handler.add_event(VideoEvent::FullScreen(FullScreenEvent::new()));
    let fast_forward = handler.add_event(VideoEvent::FastForward(FastForwardEvent::new()));
    let rewind = handler.add_event(VideoEvent::Rewind(RewindEvent::new()));
    let faster = handler.add_event(VideoEvent::PlaybackIncrease(PlaybackSpeedEvent::new()));
    let slower = handler.add_event(VideoEvent::PlaybackDecrease(PlaybackSpeedEvent::new()));
    proof {
        assert(handler@.events =~= HandlerView::standard_events());
        lemma_standard_keys_differ();
    }
    let ghost keys = HandlerView::standard_keyboard();
    let _ = handler.init_keyboard_callback("p", play_pause);
    proof {
        lemma_bind_fresh(keys.take(0), "p"@, 0);
        assert(handler@.keyboard =~= keys.take(1));
    }
    let _ = handler.init_keyboard_callback("m", mute_unmute);
    proof {
        lemma_bind_fresh(keys.take(1), "m"@, 1);
        assert(handler@.keyboard =~= keys.take(2));
    }
    let _ = handler.init_keyboard_callback("ArrowRight", fast_forward);
    proof {
        lemma_bind_fresh(keys.take(2), "ArrowRight"@, 5);
        assert(handler@.keyboard =~= keys.take(3));
    }
    let _ = handler.init_keyboard_callback("ArrowLeft", rewind);
    proof {
        lemma_bind_fresh(keys.take(3), "ArrowLeft"@, 6);
        assert(handler@.keyboard =~= keys.take(4));
    }
    let _ = handler.init_keyboard_callback("ArrowUp", faster);
    proof {
        lemma_bind_fresh(keys.take(4), "ArrowUp"@, 7);
        assert(handler@.keyboard =~= keys.take(5));
    }
    let _ = handler.init_keyboard_callback("ArrowDown", slower);
    proof {
        lemma_bind_fresh(keys.take(5), "ArrowDown"@, 8);
        assert(handler@.keyboard =~= keys);
    }
    let ghost ids = HandlerView::standard_controls();
    let _ = handler.init_control_callback("play-pause", play_pause);
    proof {
        lemma_bind_fresh(ids.take(0), "play-pause"@, 0);
        assert(handler@.controls =~= ids.take(1));
    }
    let _ = handler.init_control_callback("volume-btn", mute_unmute);
    proof {
        lemma_bind_fresh(ids.take(1), "volume-btn"@, 1);
        assert(handler@.controls =~= ids.take(2));
    }
    let _ = handler.init_control_callback("settings", settings);
    proof {
        lemma_bind_fresh(ids.take(2), "settings"@, 3);
        assert(handler@.controls =~= ids.take(3));
    }
    let _ = handler.init_control_callback("fullscreen", fullscreen);
    proof {
        lemma_bind_fresh(ids.take(3), "fullscreen"@, 4);
        assert(handler@.controls =~= ids.take(4));
    }
    let _ = handler.init_control_callback("fast-forward", fast_forward);
    proof {
        lemma_bind_fresh(ids.take(4), "fast-forward"@, 5);
        assert(handler@.controls =~= ids.take(5));
    }
    let _ = handler.init_control_callback("rewind", rewind);
    proof {
        lemma_bind_fresh(ids.take(5), "rewind"@, 6);
        assert(handler@.controls =~= ids);
    }
    let _ = handler.init_progress_callback(progress);
    handler
}

/// The usual keys differ from one another, and so do the identifiers of the
/// usual controls.
pub proof fn lemma_standard_keys_differ()
    ensures
        distinct_keys(HandlerView::standard_keyboard()),
        distinct_keys(HandlerView::standard_controls()),
{
    reveal_strlit("p");
    reveal_strlit("m");
    reveal_strlit("ArrowRight");
    reveal_strlit("ArrowLeft");
    reveal_strlit("ArrowUp");
    reveal_strlit("ArrowDown");
    assert("p"@.len() == 1 && "p"@[0] == 'p');
    assert("m"@.len() == 1 && "m"@[0] == 'm');
    assert("ArrowRight"@.len() == 10);
    assert("ArrowLeft"@.len() == 9 && "ArrowLeft"@[5] == 'L');
    assert("ArrowUp"@.len() == 7);
    assert("ArrowDown"@.len() == 9 && "ArrowDown"@[5] == 'D');
    reveal_strlit("play-pause");
    reveal_strlit("volume-btn");
    reveal_strlit("settings");
    reveal_strlit("fullscreen");
    reveal_strlit("fast-forward");
    reveal_strlit("rewind");
    assert("play-pause"@.len() == 10 && "play-pause"@[0] == 'p');
    assert("volume-btn"@.len() == 10 && "volume-btn"@[0] == 'v');
    assert("settings"@.len() == 8);
    assert("fullscreen"@.len() == 10 && "fullscreen"@[0] == 'f');
    assert("fast-forward"@.len() == 12);
    assert("rewind"@.len() == 6);
}

/// Where a key is found, it stands; where it is not found, it stands
/// nowhere in the table.
pub proof fn lemma_position(table: TableView, key: Seq<char>)
    ensures
        spec_position(table, key) matches Some(at) ==> 0 <= at < table.len() && table[at].0 == key,
        spec_position(table, key) is None ==> forall|i: int|
            0 <= i < table.len() ==> (#[trigger] table[i]).0 != key,
    decreases table.len(),
{
    if table.len() > 0 {
        assert(table.last() == table[table.len() - 1]);
        if table.last().0 != key {
            let rest = table.drop_last();
            lemma_position(rest, key);
            if spec_position(rest, key) is None {
                assert forall|i: int| 0 <= i < table.len() implies (#[trigger] table[i]).0
                    != key by {
                    if i < rest.len() {
                        assert(rest[i] == table[i]);
                    }
                }
            } else {
                assert(rest[spec_position(rest, key)->Some_0] == table[spec_position(
                    rest,
                    key,
                )->Some_0]);
            }
        }
    }
}

/// A key that stands nowhere in a table is registered at its end.
pub proof fn lemma_bind_fresh(table: TableView, key: Seq<char>, slot: int)
    requires
        forall|i: int| 0 <= i < table.len() ==> (#[trigger] table[i]).0 != key,
    ensures
        spec_bind(table, key, slot) == table.push((key, slot)),
{
    lemma_position(table, key);
}

/// Registering a key leaves no key standing in the table twice.
pub proof fn lemma_bind_distinct(table: TableView, key: Seq<char>, slot: int)
    requires
        distinct_keys(table),
    ensures
        distinct_keys(spec_bind(table, key, slot)),
{
    lemma_position(table, key);
    let bound = spec_bind(table, key, slot);
    assert forall|i: int, j: int| 0 <= i < j < bound.len() implies (#[trigger] bound[i]).0 != (
    #[trigger] bound[j]).0 by {
        match spec_position(table, key) {
            Some(at) => {
                assert(bound[i].0 == table[i].0);
                assert(bound[j].0 == table[j].0);
            },
            None => {
                assert(bound[i] == table[i]);
                if j < table.len() {
                    assert(bound[j] == table[j]);
                }
            },
        }
    }
}

/// Registering a key keeps a table in order: no key stands in it twice, and
/// every slot it names is in range where the new slot is.
pub proof fn lemma_bind(table: TableView, key: Seq<char>, slot: int, slots: int)
    requires
        distinct_keys(table),
        forall|i: int| 0 <= i < table.len() ==> 0 <= (#[trigger] table[i]).1 < slots,
        0 <= slot < slots,
    ensures
        distinct_keys(spec_bind(table, key, slot)),
        forall|i: int|
            0 <= i < spec_bind(table, key, slot).len() ==> 0 <= (#[trigger] spec_bind(
                table,
                key,
                slot,
            )[i]).1 < slots,
{
    lemma_position(table, key);
    lemma_bind_distinct(table, key, slot);
    let bound = spec_bind(table, key, slot);
    assert forall|i: int| 0 <= i < bound.len() implies 0 <= (#[trigger] bound[i]).1 < slots by {
        match spec_position(table, key) {
            Some(at) => {
                if i != at {
                    assert(bound[i] == table[i]);
                }
            },
            None => {
                if i < table.len() {
                    assert(bound[i] == table[i]);
                }
            },
        }
    }
}

/// A key stands for the slot it was registered for last, and registering it
/// changes what no other key stands for.
pub proof fn lemma_bind_lookup(table: TableView, key: Seq<char>, slot: int, other: Seq<char>)
    requires
        distinct_keys(table),
    ensures
        spec_lookup(spec_bind(table, key, slot), key) == Some(slot),
        other != key ==> spec_lookup(spec_bind(table, key, slot), other) == spec_lookup(
            table,
            other,
        ),
{
    let bound = spec_bind(table, key, slot);
    lemma_position(table, key);
    lemma_position(table, other);
    lemma_position(bound, key);
    lemma_position(bound, other);
    lemma_bind_distinct(table, key, slot);
    match spec_position(table, key) {
        Some(at) => {
            assert(bound[at] == (key, slot));
            if spec_position(bound, key) is Some {
                let found = spec_position(bound, key)->Some_0;
                if found != at {
                    assert(bound[found].0 == bound[at].0);
                }
            }
            if other != key {
                if spec_position(table, other) is Some {
                    let was = spec_position(table, other)->Some_0;
                    assert(bound[was] == table[was]);
                    if spec_position(bound, other) is Some {
                        let now = spec_position(bound, other)->Some_0;
                        if now != was {
                            assert(bound[now].0 == bound[was].0);
                        }
                    }
                } else if spec_position(bound, other) is Some {
                    let now = spec_position(bound, other)->Some_0;
                    assert(bound[now].0 == table[now].0);
                }
            }
        },
        None => {
            assert(bound.last() == (key, slot));
            assert(bound.drop_last() =~= table);
        },
    }
}

} // verus!
