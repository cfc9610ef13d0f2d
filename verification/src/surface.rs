//! What the controller reads from the media surface and what it tells the
//! surface and the user interface to do.
//!
//! The controller never touches a surface itself. Whoever dispatches an
//! event hands it a [`SurfaceReport`] of what the surface says at that
//! moment, and afterwards performs, in order, the [`Command`]s that the
//! dispatch has issued.

use vstd::prelude::*;
use crate::speed::VideoPlaybackSpeed;
use crate::units::{Millis, Percent};

verus! {

/// How far fast-forward and rewind move the position: five seconds.
pub const SKIP_INCREMENT: Millis = 5_000;

/// How much of the medium a surface has buffered, as media elements count it.
#[derive(Debug, Clone, Copy, PartialEq, Eq, Structural)]
pub enum InternalVideoReadiness {
    Nothing,
    MedaData,
    CurrentData,
    FutureData,
    AllData,
    Unknown(u16),
}

impl InternalVideoReadiness {
    /// The readiness that the code `value` stands for.
    pub open spec fn spec_from_code(value: u16) -> InternalVideoReadiness {
        if value == 0 {
            InternalVideoReadiness::Nothing
        } else if value == 1 {
            InternalVideoReadiness::MedaData
        } else if value == 2 {
            InternalVideoReadiness::CurrentData
        } else if value == 3 {
            InternalVideoReadiness::FutureData
        } else if value == 4 {
            InternalVideoReadiness::AllData
        } else {
            InternalVideoReadiness::Unknown(value)
        }
    }

    /// Whether data for the current position is there, so that play can
    /// start: every readiness but `Nothing` and `MedaData`.
    pub open spec fn spec_is_ready(self) -> bool {
        !(self is Nothing) && !(self is MedaData)
    }

    /// The readiness that the ready-state code of a media element stands for.
    pub fn from_code(value: u16) -> (state: InternalVideoReadiness)
        ensures
            state == Self::spec_from_code(value),
            state.spec_is_ready() <==> value >= 2,
    {
        match value {
            0 => InternalVideoReadiness::Nothing,
            1 => InternalVideoReadiness::MedaData,
            2 => InternalVideoReadiness::CurrentData,
            3 => InternalVideoReadiness::FutureData,
            4 => InternalVideoReadiness::AllData,
            other => InternalVideoReadiness::Unknown(other),
        }
    }

    /// Whether the surface has buffered at least the data for the current
    /// position.
    pub fn is_ready(&self) -> (ready: bool)
        ensures
            ready == self.spec_is_ready(),
    {
        match self {
            InternalVideoReadiness::Nothing => false,
            InternalVideoReadiness::MedaData => false,
            _ => true,
        }
    }
}

/// The readiness that a ready-state code stands for.
impl From<u16> for InternalVideoReadiness {
    fn from(value: u16) -> (state: InternalVideoReadiness) {
        InternalVideoReadiness::from_code(value)
    }
}

impl vstd::std_specs::convert::FromSpecImpl<u16> for InternalVideoReadiness {
    open spec fn obeys_from_spec() -> bool {
        true
    }

    open spec fn from_spec(value: u16) -> InternalVideoReadiness {
        Self::spec_from_code(value)
    }
}

/// What the media surface says when an event is dispatched.
#[derive(Debug, Clone, Copy, PartialEq, Eq, Structural)]
pub struct SurfaceReport {
    /// How much the surface has buffered.
    pub readiness: InternalVideoReadiness,
    /// The length of the medium.
    pub length: Millis,
    /// The current position.
    pub position: Millis,
    /// Whether the surface's resume primitive succeeds. It is read only by a
    /// dispatch that resumes playback.
    pub play_accepted: bool,
}

impl SurfaceReport {
    /// The report of a surface that has loaded nothing.
    pub open spec fn spec_empty() -> SurfaceReport {
        SurfaceReport {
            readiness: InternalVideoReadiness::Nothing,
            length: 0,
            position: 0,
            play_accepted: false,
        }
    }

    /// The position after a skip forward: five seconds on, but not beyond
    /// the end of the medium.
    pub open spec fn spec_fast_forward_target(self) -> int {
        if self.position + SKIP_INCREMENT <= self.length {
            self.position + SKIP_INCREMENT
        } else {
            self.length as int
        }
    }

    /// The position after a skip back: five seconds back, but not before the
    /// start of the medium.
    pub open spec fn spec_rewind_target(self) -> int {
        if self.position >= SKIP_INCREMENT {
            self.position - SKIP_INCREMENT
        } else {
            0
        }
    }

    /// The report of a surface that has loaded nothing.
    pub fn empty() -> (report: SurfaceReport)
        ensures
            report == Self::spec_empty(),
    {
        SurfaceReport {
            readiness: InternalVideoReadiness::Nothing,
            length: 0,
            position: 0,
            play_accepted: false,
        }
    }

    /// A report from the plain values that a surface gives.
    pub fn new(ready_state: u16, length: Millis, position: Millis, play_accepted: bool) -> (report:
        SurfaceReport)
        ensures
            report == (SurfaceReport {
                readiness: InternalVideoReadiness::spec_from_code(ready_state),
                length,
                position,
                play_accepted,
            }),
    {
        SurfaceReport {
            readiness: InternalVideoReadiness::from_code(ready_state),
            length,
            position,
            play_accepted,
        }
    }

    /// Whether the surface is ready to play.
    pub fn ready(&self) -> (ready: bool)
        ensures
            ready == self.readiness.spec_is_ready(),
    {
        self.readiness.is_ready()
    }

    /// Where a skip forward lands.
    pub fn fast_forward_target(&self) -> (time: Millis)
        ensures
            time == self.spec_fast_forward_target(),
    {
        if self.position <= self.length && self.length - self.position >= SKIP_INCREMENT {
            self.position + SKIP_INCREMENT
        } else {
            self.length
        }
    }

    /// Where a skip back lands.
    pub fn rewind_target(&self) -> (time: Millis)
        ensures
            time == self.spec_rewind_target(),
    {
        if self.position >= SKIP_INCREMENT {
            self.position - SKIP_INCREMENT
        } else {
            0
        }
    }
}

/// One thing for the media surface or the user interface to do.
#[derive(Debug, Clone, Copy, PartialEq, Eq, Structural)]
pub enum Command {
    /// Surface: switch the sound off (`true`) or on (`false`).
    Mute(bool),
    /// Surface: move the position to this time.
    Seek(Millis),
    /// Surface: stop playing.
    Pause,
    /// Surface: set the volume.
    SetVolume(Percent),
    /// Surface: set the playback speed.
    SetPlaybackSpeed(VideoPlaybackSpeed),
    /// Interface: show the pause glyph in place of the play glyph.
    SwapPlayButton,
    /// Interface: show the play glyph in place of the pause glyph.
    SwapPauseButton,
    /// Interface: show the muted glyph.
    SwapMuteButton,
    /// Interface: show the volume glyph.
    SwapUnmuteButton,
    /// Interface: show this position of a medium of this duration.
    UpdateProgress { position: Millis, duration: Millis },
    /// Interface: show this volume.
    UpdateVolume(Percent),
    /// Interface: put the start trim handle at this fraction of the bar.
    UpdateStartTrimPosition(Percent),
    /// Interface: put the end trim handle at this fraction of the bar.
    UpdateEndTrimPosition(Percent),
}

} // verus!
