use contour::animation::{Anim, Animations, Clip, ClipKind, PlayerAnimations, PlayerState};
use contour::lighting::Lantern;
use contour::state::GameState;

#[test]
fn anim_walks_its_frames_and_wraps() {
    let mut anim = Anim::new(8, 10);
    assert_eq!(anim.step(), 8);
    assert_eq!(anim.step(), 9);
    assert_eq!(anim.step(), 10);
    assert_eq!(anim.step(), 8);
}

#[test]
fn anim_of_one_frame_stays_on_it() {
    let mut anim = Anim::new(17, 17);
    assert_eq!(anim.step(), 17);
    assert_eq!(anim.step(), 17);
}

#[test]
fn anim_with_end_before_start_stays_on_start() {
    let mut anim = Anim::new(5, 2);
    assert_eq!(anim.step(), 5);
    assert_eq!(anim.step(), 5);
}

#[test]
fn anim_at_the_largest_frame_does_not_overflow() {
    let mut anim = Anim::new(usize::MAX - 1, usize::MAX);
    assert_eq!(anim.step(), usize::MAX - 1);
    assert_eq!(anim.step(), usize::MAX);
    assert_eq!(anim.step(), usize::MAX - 1);
}

#[test]
fn anim_resumes_only_inside_its_range() {
    let mut anim = Anim::resume(9, 8, 10).unwrap();
    assert_eq!(anim.step(), 9);
    assert_eq!(anim.step(), 10);
    assert_eq!(anim.step(), 8);
    assert!(Anim::resume(7, 8, 10).is_none());
    assert!(Anim::resume(11, 8, 10).is_none());
    assert!(Anim::resume(5, 5, 2).is_none());
}

#[test]
fn clip_is_a_frame_cursor() {
    let mut clip = Clip::new(0, 1);
    assert_eq!(clip.step(), 0);
    assert_eq!(clip.step(), 1);
    assert_eq!(clip.step(), 0);
}

#[test]
fn clip_kind_follows_movement_and_lantern() {
    assert_eq!(ClipKind::pick(true, &Lantern(true)), ClipKind::WalkLight);
    assert_eq!(ClipKind::pick(true, &Lantern(false)), ClipKind::Walk);
    assert_eq!(ClipKind::pick(false, &Lantern(true)), ClipKind::IdleLight);
    assert_eq!(ClipKind::pick(false, &Lantern(false)), ClipKind::Idle);
    assert_eq!(ClipKind::WalkLight.name(), "walk_light");
    assert_eq!(ClipKind::Walk.name(), "walk");
    assert_eq!(ClipKind::IdleLight.name(), "idle_light");
    assert_eq!(ClipKind::Idle.name(), "idle");
}

#[test]
fn player_clips_step_one_at_a_time() {
    let mut clips = PlayerAnimations::new();
    assert_eq!(clips.step(ClipKind::WalkLight), 0);
    assert_eq!(clips.step(ClipKind::WalkLight), 1);
    assert_eq!(clips.step(ClipKind::Walk), 8);
    assert_eq!(clips.step(ClipKind::IdleLight), 16);
    assert_eq!(clips.step(ClipKind::IdleLight), 16);
    assert_eq!(clips.step(ClipKind::Idle), 17);
    assert_eq!(clips.step(ClipKind::Walk), 9);
    assert_eq!(clips.step(ClipKind::WalkLight), 2);
}

#[test]
fn player_animation_waits_for_the_timer_only_while_walking() {
    let mut clips = PlayerAnimations::new();
    let playing = GameState::InGame;
    assert_eq!(clips.sprite_animation(&playing, true, &Lantern(false), false), None);
    assert_eq!(clips.sprite_animation(&playing, true, &Lantern(false), true), Some(8));
    assert_eq!(clips.sprite_animation(&playing, true, &Lantern(false), true), Some(9));
    assert_eq!(clips.sprite_animation(&playing, true, &Lantern(true), true), Some(0));
    assert_eq!(clips.sprite_animation(&playing, false, &Lantern(true), false), Some(16));
    assert_eq!(clips.sprite_animation(&playing, false, &Lantern(false), false), Some(17));
    assert_eq!(clips.sprite_animation(&GameState::GameOver, true, &Lantern(true), false), Some(17));
}

#[test]
fn animations_run_while_unpaused() {
    let mut animations = Animations { active: true, clips: PlayerAnimations::new() };
    animations.component_status_on_state_change(&PlayerState::Paused);
    assert!(!animations.active);
    animations.component_status_on_state_change(&PlayerState::Unpaused);
    assert!(animations.active);
}

#[test]
fn anim_counts_modulo_the_length_of_its_cycle() {
    let (start, end) = (8usize, 15usize);
    for current in start..=end {
        let mut anim = Anim::resume(current, start, end).unwrap();
        for steps in 0..40usize {
            let expected = start + (current - start + steps) % (end - start + 1);
            assert_eq!(anim.step(), expected);
        }
    }
}

#[test]
fn anim_is_restored_inside_its_range_or_at_its_start() {
    let mut anim = Anim::restored(9, 8, 10);
    assert_eq!(anim.step(), 9);
    let mut anim = Anim::restored(11, 8, 10);
    assert_eq!(anim.step(), 8);
    let mut anim = Anim::restored(0, 8, 10);
    assert_eq!(anim.step(), 8);
    let mut anim = Anim::restored(3, 5, 2);
    assert_eq!(anim.step(), 5);
}
