use contour::lighting::{
    debug_global, enemy_pace, global_light_trigger, hide_in_light, lantern_light_trigger, light_thoughts,
    lantern_toggle, setup, update_lighting, update_lighting_sprite, GlobalLight, Lantern, Lighting,
    LightingFrame, LightingMode, LightingSprite, Pace,
};

fn frame(global_changed: bool, lantern_changed: bool, lantern_on: bool) -> LightingFrame {
    LightingFrame { global_changed, lantern_changed, lantern_on }
}

fn after(mode: LightingMode, f: LightingFrame) -> LightingMode {
    let mut lighting = Lighting(mode);
    update_lighting(&mut lighting, &f);
    lighting.0
}

#[test]
fn lighting_starts_dark_under_a_global_light() {
    assert_eq!(setup(), (Lighting(LightingMode::Dark), GlobalLight(true)));
}

#[test]
fn global_light_change_ends_daylight_by_the_lantern() {
    let mut lighting = Lighting(LightingMode::Light);
    global_light_trigger(&mut lighting, &Lantern(true));
    assert_eq!(lighting.0, LightingMode::Lantern);
    let mut lighting = Lighting(LightingMode::Light);
    global_light_trigger(&mut lighting, &Lantern(false));
    assert_eq!(lighting.0, LightingMode::Dark);
}

#[test]
fn global_light_change_turns_anything_else_into_daylight() {
    for lantern in [false, true] {
        let mut lighting = Lighting(LightingMode::Dark);
        global_light_trigger(&mut lighting, &Lantern(lantern));
        assert_eq!(lighting.0, LightingMode::Light);
        let mut lighting = Lighting(LightingMode::Lantern);
        global_light_trigger(&mut lighting, &Lantern(lantern));
        assert_eq!(lighting.0, LightingMode::Light);
    }
}

#[test]
fn lantern_toggle_flips_dark_and_lantern_only() {
    let mut lighting = Lighting(LightingMode::Dark);
    lantern_light_trigger(&mut lighting);
    assert_eq!(lighting.0, LightingMode::Lantern);
    lantern_light_trigger(&mut lighting);
    assert_eq!(lighting.0, LightingMode::Dark);
    let mut lighting = Lighting(LightingMode::Light);
    lantern_light_trigger(&mut lighting);
    assert_eq!(lighting.0, LightingMode::Light);
}

#[test]
fn both_triggers_in_one_frame_apply_global_light_first() {
    assert_eq!(after(LightingMode::Light, frame(true, true, true)), LightingMode::Dark);
    assert_eq!(after(LightingMode::Light, frame(true, true, false)), LightingMode::Lantern);
    assert_eq!(after(LightingMode::Dark, frame(true, true, true)), LightingMode::Light);
    assert_eq!(after(LightingMode::Lantern, frame(true, true, false)), LightingMode::Light);
}

#[test]
fn light_is_reached_only_by_a_global_light_change() {
    let modes = [LightingMode::Dark, LightingMode::Lantern, LightingMode::Light];
    for mode in modes {
        for global_changed in [false, true] {
            for lantern_changed in [false, true] {
                for lantern_on in [false, true] {
                    let next = after(mode, frame(global_changed, lantern_changed, lantern_on));
                    assert!(modes.contains(&next));
                    if next == LightingMode::Light && mode != LightingMode::Light {
                        assert!(global_changed);
                    }
                    assert_eq!(
                        next == LightingMode::Light,
                        (mode == LightingMode::Light) != global_changed
                    );
                }
            }
        }
    }
}

#[test]
fn update_lighting_says_whether_the_mode_changed() {
    let mut lighting = Lighting(LightingMode::Dark);
    assert!(!update_lighting(&mut lighting, &frame(false, false, true)));
    assert!(update_lighting(&mut lighting, &frame(false, true, true)));
    assert_eq!(lighting.0, LightingMode::Lantern);
    let mut lighting = Lighting(LightingMode::Light);
    assert!(!update_lighting(&mut lighting, &frame(false, true, true)));
}

#[test]
fn overlay_shows_frame_one_in_the_dark_zero_by_lantern_and_hides_in_light() {
    let mut sprite = LightingSprite { index: 0, visible: false };
    update_lighting_sprite(&mut sprite, &Lighting(LightingMode::Dark));
    assert_eq!(sprite, LightingSprite { index: 1, visible: true });
    update_lighting_sprite(&mut sprite, &Lighting(LightingMode::Light));
    assert_eq!(sprite, LightingSprite { index: 1, visible: false });
    update_lighting_sprite(&mut sprite, &Lighting(LightingMode::Lantern));
    assert_eq!(sprite, LightingSprite { index: 0, visible: true });
    update_lighting_sprite(&mut sprite, &Lighting(LightingMode::Light));
    assert_eq!(sprite, LightingSprite { index: 0, visible: false });
}

#[test]
fn debug_key_and_lantern_key_flip_their_flags() {
    let mut global_light = GlobalLight(true);
    debug_global(false, &mut global_light);
    assert_eq!(global_light, GlobalLight(true));
    debug_global(true, &mut global_light);
    assert_eq!(global_light, GlobalLight(false));
    let mut lantern = Lantern(false);
    lantern_toggle(true, &mut lantern);
    assert_eq!(lantern, Lantern(true));
    lantern_toggle(false, &mut lantern);
    assert_eq!(lantern, Lantern(true));
}

#[test]
fn enemies_hide_in_daylight() {
    assert!(!hide_in_light(&GlobalLight(true)));
    assert!(hide_in_light(&GlobalLight(false)));
}

#[test]
fn enemies_slow_down_by_lantern_and_stop_in_light() {
    assert_eq!(enemy_pace(&Lighting(LightingMode::Dark)), Pace::Full);
    assert_eq!(enemy_pace(&Lighting(LightingMode::Lantern)), Pace::Half);
    assert_eq!(enemy_pace(&Lighting(LightingMode::Light)), Pace::Still);
}

#[test]
fn the_player_has_a_thought_for_every_lighting() {
    assert_eq!(light_thoughts(&Lighting(LightingMode::Dark)), "I'd better light my lantern... [RMB]");
    assert_eq!(light_thoughts(&Lighting(LightingMode::Lantern)), "I need to be mindful of the battery...");
    assert_eq!(light_thoughts(&Lighting(LightingMode::Light)), "Phew... safe for now!");
}

#[test]
fn the_mode_follows_the_lantern_unless_it_is_toggled_at_dusk() {
    // Out of daylight the mode is `Lantern` exactly when the lantern is lit.
    let mut lighting = Lighting(LightingMode::Dark);
    let mut lantern = false;
    let frames = [
        (false, true),
        (true, false),
        (false, true),
        (false, true),
        (true, false),
        (false, false),
        (false, true),
        (true, true),
        (true, false),
    ];
    for (global_changed, lantern_changed) in frames {
        lantern = lantern != lantern_changed;
        update_lighting(&mut lighting, &frame(global_changed, lantern_changed, lantern));
        if lighting.0 != LightingMode::Light {
            assert_eq!(lighting.0 == LightingMode::Lantern, lantern);
        }
    }
    // Toggled in the frame in which daylight ends, the mode ends up opposite.
    assert_eq!(after(LightingMode::Light, frame(true, true, true)), LightingMode::Dark);
}
