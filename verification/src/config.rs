//! Settings: what is stored, what replaces a file that cannot be used, and
//! what the options menu does to them.
//!
//! Volumes are held in thousandths of a percent and the resolution in
//! thousandths of a pixel.

use vstd::prelude::*;
use crate::ui::Action;

verus! {

/// Width and height of the window.
#[derive(Clone, Copy, PartialEq, Eq, Structural, Debug)]
pub struct Resolution {
    pub width: i64,
    pub height: i64,
}

/// The settings of the window.
#[derive(Clone, Copy, PartialEq, Eq, Structural, Debug)]
pub struct VideoSettings {
    pub vsync: bool,
    pub fullscreen: bool,
    pub resolution: Resolution,
}

/// The volumes of music and effects.
#[derive(Clone, Copy, PartialEq, Eq, Structural, Debug)]
pub struct AudioSettings {
    pub bgm: i64,
    pub sfx: i64,
}

/// All that the settings file holds.
#[derive(Clone, Copy, PartialEq, Eq, Structural, Debug)]
pub struct Settings {
    pub bgm: i64,
    pub sfx: i64,
    pub vsync: bool,
    pub fullscreen: bool,
    pub resolution: Resolution,
}

/// What reading the settings file gave.
#[derive(Clone, Copy, PartialEq, Eq, Structural, Debug)]
pub enum SettingsFile {
    /// There is no file, or it cannot be read.
    Missing,
    /// The file does not hold settings.
    Malformed,
    /// The file holds these settings.
    Parsed(Settings),
}

/// The settings were changed and are to be stored.
#[derive(Clone, Copy, PartialEq, Eq, Structural, Debug)]
pub struct ConfigUpdateEvent;

/// Whether the options menu is open.
#[derive(Clone, Copy, PartialEq, Eq, Structural, Debug)]
pub struct OptionsUiState {
    pub show: bool,
}

/// The two buttons that close the options menu.
#[derive(Clone, Copy, PartialEq, Eq, Structural, Debug)]
pub enum OptionsButton {
    /// Forget what was changed.
    Back,
    /// Keep what was changed.
    Apply,
}

/// What the options menu holds on to while it is open: the video settings
/// being edited, and the audio settings to go back to.
#[derive(Clone, Copy, PartialEq, Eq, Structural, Debug)]
pub struct OptionsDraft {
    pub video_to_apply: VideoSettings,
    pub audio_if_revert: AudioSettings,
}

/// When frames are presented.
#[derive(Clone, Copy, PartialEq, Eq, Structural, Debug)]
pub enum PresentMode {
    AutoVsync,
    AutoNoVsync,
}

/// How the window takes up the screen.
#[derive(Clone, Copy, PartialEq, Eq, Structural, Debug)]
pub enum WindowMode {
    Windowed,
    SizedFullscreen,
}

/// One step of a volume, in thousandths of a percent.
pub const VOLUME_STEP: i64 = 1000;

impl Settings {
    /// The settings of a fresh installation: both volumes at 50 percent, a
    /// window of 1920 by 1080, no vsync, not fullscreen.
    pub open spec fn fresh() -> Settings {
        Settings {
            bgm: 50_000,
            sfx: 50_000,
            vsync: false,
            fullscreen: false,
            resolution: Resolution { width: 1_920_000, height: 1_080_000 },
        }
    }

    /// The settings a file stands for: its own where it holds some, the
    /// fresh ones where it is missing or malformed.
    pub open spec fn of(file: SettingsFile) -> Settings {
        match file {
            SettingsFile::Parsed(settings) => settings,
            _ => Settings::fresh(),
        }
    }

    /// These settings with the window's replaced.
    pub open spec fn with_video(self, video: VideoSettings) -> Settings {
        Settings {
            vsync: video.vsync,
            fullscreen: video.fullscreen,
            resolution: video.resolution,
            ..self
        }
    }

    /// These settings with the volumes replaced.
    pub open spec fn with_audio(self, audio: AudioSettings) -> Settings {
        Settings { bgm: audio.bgm, sfx: audio.sfx, ..self }
    }

    /// What is stored when the settings were updated: the file's settings
    /// with whatever has changed since laid over them.
    pub open spec fn stored(
        file: SettingsFile,
        video: Option<VideoSettings>,
        audio: Option<AudioSettings>,
    ) -> Settings {
        let base = Settings::of(file);
        let with_video = match video {
            Some(video) => base.with_video(video),
            None => base,
        };
        match audio {
            Some(audio) => with_video.with_audio(audio),
            None => with_video,
        }
    }
}

impl Default for Settings {
    fn default() -> (settings: Self)
        ensures
            settings == Settings::fresh(),
    {
        Settings {
            bgm: 50_000,
            sfx: 50_000,
            vsync: false,
            fullscreen: false,
            resolution: Resolution { width: 1_920_000, height: 1_080_000 },
        }
    }
}

/// The settings to go by, given what reading the file gave.
pub fn fetch_settings(file: SettingsFile) -> (settings: Settings)
    ensures
        settings == Settings::of(file),
{
    match file {
        SettingsFile::Parsed(settings) => settings,
        _ => Settings::default(),
    }
}

impl VideoSettings {
    /// The window's part of what the file gave.
    pub fn from_config(file: SettingsFile) -> (video: Self)
        ensures
            video == (VideoSettings {
                vsync: Settings::of(file).vsync,
                fullscreen: Settings::of(file).fullscreen,
                resolution: Settings::of(file).resolution,
            }),
    {
        let settings = fetch_settings(file);
        VideoSettings {
            vsync: settings.vsync,
            fullscreen: settings.fullscreen,
            resolution: settings.resolution,
        }
    }
}

/// What the window is set to under these settings.
pub fn update_window_helper(video: &VideoSettings) -> (window: (PresentMode, WindowMode, Resolution))
    ensures
        window.0 == if video.vsync {
            PresentMode::AutoVsync
        } else {
            PresentMode::AutoNoVsync
        },
        window.1 == if video.fullscreen {
            WindowMode::SizedFullscreen
        } else {
            WindowMode::Windowed
        },
        window.2 == video.resolution,
{
    let present = if video.vsync {
        PresentMode::AutoVsync
    } else {
        PresentMode::AutoNoVsync
    };
    let mode = if video.fullscreen {
        WindowMode::SizedFullscreen
    } else {
        WindowMode::Windowed
    };
    (present, mode, video.resolution)
}

impl AudioSettings {
    /// The volumes of what the file gave.
    pub fn from_config(file: SettingsFile) -> (audio: Self)
        ensures
            audio == (AudioSettings { bgm: Settings::of(file).bgm, sfx: Settings::of(file).sfx }),
    {
        let settings = fetch_settings(file);
        AudioSettings { bgm: settings.bgm, sfx: settings.sfx }
    }

    /// The volumes after a button's action: the four volume actions move
    /// their volume by one step, as far as the number goes; the others leave
    /// both alone.
    pub open spec fn after(self, action: Action) -> AudioSettings {
        match action {
            Action::RaiseVolumeBGM => AudioSettings { bgm: stepped(self.bgm, true), ..self },
            Action::LowerVolumeBGM => AudioSettings { bgm: stepped(self.bgm, false), ..self },
            Action::RaiseVolumeSFX => AudioSettings { sfx: stepped(self.sfx, true), ..self },
            Action::LowerVolumeSFX => AudioSettings { sfx: stepped(self.sfx, false), ..self },
            _ => self,
        }
    }

    /// Applies a button's action to the volumes.
    pub fn apply(&mut self, action: &Action)
        ensures
            *final(self) == old(self).after(*action),
    {
        match action {
            Action::RaiseVolumeBGM => {
                self.bgm = step_volume(self.bgm, true);
            },
            Action::LowerVolumeBGM => {
                self.bgm = step_volume(self.bgm, false);
            },
            Action::RaiseVolumeSFX => {
                self.sfx = step_volume(self.sfx, true);
            },
            Action::LowerVolumeSFX => {
                self.sfx = step_volume(self.sfx, false);
            },
            _ => {},
        }
    }
}

/// A volume one step up or down, held at the ends of the number range.
pub open spec fn stepped(volume: i64, up: bool) -> i64 {
    if up {
        if volume + VOLUME_STEP > i64::MAX {
            i64::MAX
        } else {
            (volume + VOLUME_STEP) as i64
        }
    } else {
        if volume - VOLUME_STEP < i64::MIN {
            i64::MIN
        } else {
            (volume - VOLUME_STEP) as i64
        }
    }
}

/// Moves a volume one step up or down.
fn step_volume(volume: i64, up: bool) -> (moved: i64)
    ensures
        moved == stepped(volume, up),
{
    if up {
        if volume > i64::MAX - VOLUME_STEP {
            i64::MAX
        } else {
            volume + VOLUME_STEP
        }
    } else {
        if volume < i64::MIN + VOLUME_STEP {
            i64::MIN
        } else {
            volume - VOLUME_STEP
        }
    }
}

/// What to write to the settings file. Nothing is written unless an update
/// was announced; then the file's settings are taken, the fresh ones where it
/// cannot be used, and `video` and `audio` are laid over them where they are
/// given, which is where they have changed.
pub fn save_config_to_file(
    updated: bool,
    file: SettingsFile,
    video: Option<VideoSettings>,
    audio: Option<AudioSettings>,
) -> (stored: Option<Settings>)
    ensures
        stored == if updated {
            Some(Settings::stored(file, video, audio))
        } else {
            None
        },
{
    if !updated {
        return None;
    }
    let mut settings = fetch_settings(file);
    if let Some(video) = video {
        settings.fullscreen = video.fullscreen;
        settings.vsync = video.vsync;
        settings.resolution = video.resolution;
    }
    if let Some(audio) = audio {
        settings.bgm = audio.bgm;
        settings.sfx = audio.sfx;
    }
    Some(settings)
}

/// Closes the options menu. Going back restores the draft of the video
/// settings from the ones in force and the volumes from the ones kept for
/// that; applying puts the draft in force, keeps the volumes as the ones to
/// go back to, and announces the update.
pub fn close_options(
    button: OptionsButton,
    state: &mut OptionsUiState,
    draft: &mut OptionsDraft,
    video: &mut VideoSettings,
    audio: &mut AudioSettings,
) -> (event: Option<ConfigUpdateEvent>)
    ensures
        !final(state).show,
        button is Back ==> {
            &&& event is None
            &&& *final(video) == *old(video)
            &&& *final(audio) == old(draft).audio_if_revert
            &&& final(draft).video_to_apply == *old(video)
            &&& final(draft).audio_if_revert == old(draft).audio_if_revert
        },
        button is Apply ==> {
            &&& event is Some
            &&& *final(video) == old(draft).video_to_apply
            &&& *final(audio) == *old(audio)
            &&& final(draft).video_to_apply == old(draft).video_to_apply
            &&& final(draft).audio_if_revert == *old(audio)
        },
{
    state.show = false;
    match button {
        OptionsButton::Back => {
            draft.video_to_apply = *video;
            *audio = draft.audio_if_revert;
            None
        },
        OptionsButton::Apply => {
            *video = draft.video_to_apply;
            draft.audio_if_revert = *audio;
            Some(ConfigUpdateEvent)
        },
    }
}

} // verus!
