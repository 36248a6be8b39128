//! The lighting state machine: darkness, the player's lantern, daylight.
//!
//! Two things move it, and within one frame they are applied in this order:
//! first a change of the global light, then a toggle of the lantern.

use vstd::prelude::*;

verus! {

/// How the scene is lit.
#[derive(Clone, Copy, PartialEq, Eq, Structural, Debug)]
pub enum LightingMode {
    Dark,
    Lantern,
    Light,
}

/// The one lighting state of the game.
#[derive(Clone, Copy, PartialEq, Eq, Structural, Debug)]
pub struct Lighting(pub LightingMode);

/// Full daylight. While it is on, the lantern does not matter, enemies are
/// hidden and none are spawned.
#[derive(Clone, Copy, PartialEq, Eq, Structural, Debug)]
pub struct GlobalLight(pub bool);

/// Whether the player's lantern is lit.
#[derive(Clone, Copy, PartialEq, Eq, Structural, Debug)]
pub struct Lantern(pub bool);

/// The overlay that darkens the screen: which frame of its sheet it shows and
/// whether it is drawn at all.
#[derive(Clone, Copy, PartialEq, Eq, Structural, Debug)]
pub struct LightingSprite {
    pub index: usize,
    pub visible: bool,
}

/// How hard the enemies press towards the player.
#[derive(Clone, Copy, PartialEq, Eq, Structural, Debug)]
pub enum Pace {
    /// At their full speed.
    Full,
    /// At half their speed.
    Half,
    /// Not at all.
    Still,
}

/// One frame's triggers.
#[derive(Clone, Copy, PartialEq, Eq, Structural, Debug)]
pub struct LightingFrame {
    /// The global light was switched this frame.
    pub global_changed: bool,
    /// The lantern was toggled this frame.
    pub lantern_changed: bool,
    /// Whether the lantern is lit after the toggle.
    pub lantern_on: bool,
}

impl LightingMode {
    /// The mode after the global light changed: daylight ends in the mode the
    /// lantern asks for, and anything else becomes daylight.
    pub open spec fn after_global_light(self, lantern_on: bool) -> LightingMode {
        match self {
            LightingMode::Light => if lantern_on {
                LightingMode::Lantern
            } else {
                LightingMode::Dark
            },
            LightingMode::Dark => LightingMode::Light,
            LightingMode::Lantern => LightingMode::Light,
        }
    }

    /// The mode after the lantern was toggled: no effect in daylight.
    pub open spec fn after_lantern(self) -> LightingMode {
        match self {
            LightingMode::Dark => LightingMode::Lantern,
            LightingMode::Lantern => LightingMode::Dark,
            LightingMode::Light => LightingMode::Light,
        }
    }

    /// The mode after one frame: the global-light trigger first, then the
    /// lantern trigger.
    pub open spec fn after_frame(self, frame: LightingFrame) -> LightingMode {
        let lit = if frame.global_changed {
            self.after_global_light(frame.lantern_on)
        } else {
            self
        };
        if frame.lantern_changed {
            lit.after_lantern()
        } else {
            lit
        }
    }

    /// The mode after a run of frames.
    pub open spec fn after_frames(self, frames: Seq<LightingFrame>) -> LightingMode
        decreases frames.len(),
    {
        if frames.len() == 0 {
            self
        } else {
            self.after_frames(frames.drop_last()).after_frame(frames.last())
        }
    }

    /// How the overlay looks in this mode, given how it looked before: frame
    /// 1 in the dark, frame 0 by lantern, hidden in daylight.
    pub open spec fn sprite(self, before: LightingSprite) -> LightingSprite {
        match self {
            LightingMode::Dark => LightingSprite { index: 1, visible: true },
            LightingMode::Lantern => LightingSprite { index: 0, visible: true },
            LightingMode::Light => LightingSprite { index: before.index, visible: false },
        }
    }

    /// How hard the enemies press in this mode.
    pub open spec fn pace(self) -> Pace {
        match self {
            LightingMode::Dark => Pace::Full,
            LightingMode::Lantern => Pace::Half,
            LightingMode::Light => Pace::Still,
        }
    }
}

/// The lighting at the start of a game: dark, under a global light that is on.
pub fn setup() -> (start: (Lighting, GlobalLight))
    ensures
        start.0 == Lighting(LightingMode::Dark),
        start.1 == GlobalLight(true),
{
    (Lighting(LightingMode::Dark), GlobalLight(true))
}

/// Applies a change of the global light.
pub fn global_light_trigger(lighting: &mut Lighting, lantern: &Lantern)
    ensures
        final(lighting).0 == old(lighting).0.after_global_light(lantern.0),
{
    match lighting.0 {
        LightingMode::Light => {
            lighting.0 = if lantern.0 {
                LightingMode::Lantern
            } else {
                LightingMode::Dark
            };
        },
        LightingMode::Dark => {
            lighting.0 = LightingMode::Light;
        },
        LightingMode::Lantern => {
            lighting.0 = LightingMode::Light;
        },
    }
}

/// Applies a toggle of the lantern.
pub fn lantern_light_trigger(lighting: &mut Lighting)
    ensures
        final(lighting).0 == old(lighting).0.after_lantern(),
{
    match lighting.0 {
        LightingMode::Dark => {
            lighting.0 = LightingMode::Lantern;
        },
        LightingMode::Lantern => {
            lighting.0 = LightingMode::Dark;
        },
        LightingMode::Light => {},
    }
}

/// Applies one frame's triggers in the fixed order and says whether the mode
/// changed.
pub fn update_lighting(lighting: &mut Lighting, frame: &LightingFrame) -> (changed: bool)
    ensures
        final(lighting).0 == old(lighting).0.after_frame(*frame),
        changed == (final(lighting).0 != old(lighting).0),
{
    let before = lighting.0;
    if frame.global_changed {
        global_light_trigger(lighting, &Lantern(frame.lantern_on));
    }
    if frame.lantern_changed {
        lantern_light_trigger(lighting);
    }
    lighting.0 != before
}

/// Brings the overlay in line with the lighting.
pub fn update_lighting_sprite(sprite: &mut LightingSprite, lighting: &Lighting)
    ensures
        *final(sprite) == lighting.0.sprite(*old(sprite)),
{
    match lighting.0 {
        LightingMode::Dark => {
            sprite.index = 1;
            sprite.visible = true;
        },
        LightingMode::Lantern => {
            sprite.index = 0;
            sprite.visible = true;
        },
        LightingMode::Light => {
            sprite.visible = false;
        },
    }
}

/// The debug key flips the global light.
pub fn debug_global(pressed: bool, global_light: &mut GlobalLight)
    ensures
        final(global_light).0 == (old(global_light).0 != pressed),
{
    if pressed {
        global_light.0 = !global_light.0;
    }
}

/// The lantern key flips the lantern.
pub fn lantern_toggle(pressed: bool, lantern: &mut Lantern)
    ensures
        final(lantern).0 == (old(lantern).0 != pressed),
{
    if pressed {
        lantern.0 = !lantern.0;
    }
}

/// Enemies are drawn only while the global light is off.
pub fn hide_in_light(global_light: &GlobalLight) -> (visible: bool)
    ensures
        visible == !global_light.0,
{
    !global_light.0
}

/// How hard the enemies press towards the player under this lighting.
pub fn enemy_pace(lighting: &Lighting) -> (pace: Pace)
    ensures
        pace == lighting.0.pace(),
{
    match lighting.0 {
        LightingMode::Dark => Pace::Full,
        LightingMode::Lantern => Pace::Half,
        LightingMode::Light => Pace::Still,
    }
}

/// What the player thinks of the lighting.
pub fn light_thoughts(lighting: &Lighting) -> (thought: &'static str)
    ensures
        thought@ == match lighting.0 {
            LightingMode::Dark => "I'd better light my lantern... [RMB]"@,
            LightingMode::Lantern => "I need to be mindful of the battery..."@,
            LightingMode::Light => "Phew... safe for now!"@,
        },
{
    match lighting.0 {
        LightingMode::Dark => "I'd better light my lantern... [RMB]",
        LightingMode::Lantern => "I need to be mindful of the battery...",
        LightingMode::Light => "Phew... safe for now!",
    }
}

/// Daylight comes only from the global light: a frame ends in daylight
/// exactly when the global light changed in the dark or by lantern, or did
/// not change in daylight.
pub proof fn lemma_light_needs_global_light(mode: LightingMode, frame: LightingFrame)
    ensures
        mode.after_frame(frame) is Light <==> (mode is Light) != frame.global_changed,
        !(mode is Light) && mode.after_frame(frame) is Light ==> frame.global_changed,
{
}

/// Without a change of the global light a frame leaves daylight as it is and
/// otherwise only follows the lantern toggle.
pub proof fn lemma_frame_without_global_light(mode: LightingMode, frame: LightingFrame)
    requires
        !frame.global_changed,
    ensures
        mode is Light ==> mode.after_frame(frame) is Light,
        !frame.lantern_changed ==> mode.after_frame(frame) == mode,
        frame.lantern_changed && mode is Dark ==> mode.after_frame(frame) is Lantern,
        frame.lantern_changed && mode is Lantern ==> mode.after_frame(frame) is Dark,
{
}

/// Over any run of frames in which the global light never changes, a scene
/// that is not in daylight never gets there.
pub proof fn lemma_no_light_without_global_light(mode: LightingMode, frames: Seq<LightingFrame>)
    requires
        !(mode is Light),
        forall|i: int| 0 <= i < frames.len() ==> !(#[trigger] frames[i]).global_changed,
    ensures
        !(mode.after_frames(frames) is Light),
    decreases frames.len(),
{
    if frames.len() > 0 {
        lemma_no_light_without_global_light(mode, frames.drop_last());
        lemma_light_needs_global_light(mode.after_frames(frames.drop_last()), frames.last());
    }
}

/// The mode agrees with the lantern: out of daylight the scene is lit by
/// lantern exactly when the lantern is lit.
pub open spec fn agrees(mode: LightingMode, lantern: Lantern) -> bool {
    mode is Light || (mode is Lantern <==> lantern.0)
}

/// A frame keeps the mode in agreement with the lantern, with one exception
/// that the order of the triggers brings about: when daylight ends in the
/// very frame in which the lantern is toggled, the toggle is applied to the
/// mode that the lantern has just chosen and undoes the choice.
pub proof fn lemma_mode_follows_lantern(mode: LightingMode, before: Lantern, frame: LightingFrame)
    requires
        agrees(mode, before),
        frame.lantern_on == (before.0 != frame.lantern_changed),
        !(mode is Light && frame.global_changed && frame.lantern_changed),
    ensures
        agrees(mode.after_frame(frame), Lantern(frame.lantern_on)),
{
}

/// The exception itself: when daylight ends in the frame in which the
/// lantern is toggled, the mode ends up opposite to the lantern.
pub proof fn lemma_toggle_at_dusk(frame: LightingFrame)
    requires
        frame.global_changed,
        frame.lantern_changed,
    ensures
        LightingMode::Light.after_frame(frame) == if frame.lantern_on {
            LightingMode::Dark
        } else {
            LightingMode::Lantern
        },
        !agrees(LightingMode::Light.after_frame(frame), Lantern(frame.lantern_on)),
{
}

} // verus!
