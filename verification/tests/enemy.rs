use contour::timer::TimerStep;
use contour::enemy::{
    draw_enemy, growth, spawn_due, spawn_enemies, spawn_period, Enemy, EnemySpawn, Horde,
    MergeOutcome, SpawnDue, SpawnStep, MERGE_BOUND,
};
use contour::lighting::GlobalLight;
use contour::text::Score;

fn horde_of(enemies: &[(u64, i32, usize)]) -> Horde {
    let mut horde = Horde::new();
    for &(id, speed, merges) in enemies {
        horde.spawn(id, &EnemySpawn { angle: 0, distance: 20_000, speed });
        horde.make_dangerous(id);
        // Feed it fresh enemies until it has absorbed as many as asked for.
        for n in 0..merges {
            let food = 1_000_000 + id * 100 + n as u64;
            horde.spawn(food, &EnemySpawn { angle: 0, distance: 20_000, speed: 0 });
            horde.make_dangerous(food);
            let outcome = horde.merge_pair(id, food).unwrap();
            assert_eq!(outcome.absorber, id);
            assert_eq!(outcome.merges, n + 1);
        }
    }
    horde
}

#[test]
fn spawn_period_shrinks_with_the_score() {
    assert_eq!(spawn_period(&Score(0)), 1_000_000_000);
    assert_eq!(spawn_period(&Score(25_000_000_000)), 750_000_000);
    assert_eq!(spawn_period(&Score(99_000_000_000)), 10_000_000);
    assert_eq!(spawn_period(&Score(100_000_000_000)), 0);
    assert_eq!(spawn_period(&Score(u64::MAX)), 0);
    assert_eq!(spawn_period(&Score(199)), 999_999_999);
}

#[test]
fn spawner_rests_in_daylight_and_without_player() {
    assert_eq!(spawn_due(&GlobalLight(true), true, true), SpawnDue::Idle);
    assert_eq!(spawn_due(&GlobalLight(true), true, false), SpawnDue::Idle);
    assert_eq!(spawn_due(&GlobalLight(false), false, true), SpawnDue::Idle);
    assert_eq!(spawn_due(&GlobalLight(false), true, false), SpawnDue::Tick);
    assert_eq!(spawn_due(&GlobalLight(false), true, true), SpawnDue::Spawn);
    assert_eq!(spawn_enemies(&GlobalLight(true), true, true, &Score(0)), SpawnStep::Idle);
    assert_eq!(spawn_enemies(&GlobalLight(false), true, false, &Score(0)), SpawnStep::Tick);
}

#[test]
fn spawned_enemies_lie_in_their_ranges() {
    let mut angles = std::collections::HashSet::new();
    let mut distances = std::collections::HashSet::new();
    let mut speeds = std::collections::HashSet::new();
    for _ in 0..200 {
        match spawn_enemies(&GlobalLight(false), true, true, &Score(50_000_000_000)) {
            SpawnStep::Spawn { period, enemy } => {
                assert_eq!(period, 500_000_000);
                assert!(enemy.angle < 6_283_185);
                assert!(enemy.distance >= 20_000 && enemy.distance < 100_000);
                assert!(enemy.speed >= 1_000 && enemy.speed < 18_000);
                angles.insert(enemy.angle);
                distances.insert(enemy.distance);
                speeds.insert(enemy.speed);
            }
            other => panic!("no spawn: {:?}", other),
        }
    }
    // The draws are not the bounds handed back.
    assert!(angles.len() > 1);
    assert!(distances.len() > 1);
    assert!(speeds.len() > 1);
}

#[test]
fn drawn_enemy_lies_in_its_ranges() {
    for _ in 0..50 {
        let enemy = draw_enemy();
        assert!(enemy.angle < 6_283_185);
        assert!((20_000..100_000).contains(&enemy.distance));
        assert!((1_000..18_000).contains(&enemy.speed));
    }
}

#[test]
fn growth_is_eleven_tenths_per_merge() {
    assert_eq!(growth(0), Some((1, 1)));
    assert_eq!(growth(1), Some((11, 10)));
    assert_eq!(growth(2), Some((121, 100)));
    assert_eq!(growth(3), Some((1331, 1000)));
    assert_eq!(growth(4), Some((14641, 10000)));
    assert_eq!(growth(5), Some((161051, 100000)));
    assert_eq!(growth(6), None);
    assert_eq!(growth(usize::MAX), None);
}

#[test]
fn a_spawned_enemy_has_absorbed_nothing_and_is_harmless() {
    let mut horde = Horde::new();
    assert_eq!(horde.len(), 0);
    horde.spawn(7, &EnemySpawn { angle: 1, distance: 20_000, speed: 4_500 });
    assert_eq!(horde.len(), 1);
    assert_eq!(horde.get(7), Some(Enemy { speed: 4_500, merges: 0, dangerous: false }));
    assert_eq!(horde.get(8), None);
}

#[test]
fn grace_timer_makes_an_enemy_dangerous() {
    let mut horde = Horde::new();
    horde.spawn(7, &EnemySpawn { angle: 1, distance: 20_000, speed: 4_500 });
    assert_eq!(horde.tick_grace(7, false), TimerStep::Tick);
    assert_eq!(horde.get(7).unwrap().dangerous, false);
    assert_eq!(horde.tick_grace(7, true), TimerStep::Fire);
    assert_eq!(horde.get(7), Some(Enemy { speed: 4_500, merges: 0, dangerous: true }));
    assert_eq!(horde.tick_grace(99, true), TimerStep::Fire);
    assert_eq!(horde.len(), 1);
    assert!(!horde.make_dangerous(99));
}

#[test]
fn the_more_merged_enemy_absorbs_the_other() {
    let mut horde = horde_of(&[(1, 3_000, 1), (2, 9_000, 2)]);
    let before = horde.len();
    let outcome = horde.merge_pair(1, 2);
    assert_eq!(
        outcome,
        Some(MergeOutcome { absorber: 2, absorbed: 1, speed: 9_000, merges: 3, numerator: 1331, denominator: 1000 })
    );
    assert_eq!(horde.len(), before - 1);
    assert_eq!(horde.get(1), None);
    assert_eq!(horde.get(2), Some(Enemy { speed: 9_000, merges: 3, dangerous: true }));
}

#[test]
fn the_absorber_takes_the_larger_speed() {
    let mut horde = horde_of(&[(1, 3_000, 2), (2, 9_000, 0)]);
    let outcome = horde.merge_pair(1, 2);
    assert_eq!(
        outcome,
        Some(MergeOutcome { absorber: 1, absorbed: 2, speed: 9_000, merges: 3, numerator: 1331, denominator: 1000 })
    );
    assert_eq!(horde.get(1), Some(Enemy { speed: 9_000, merges: 3, dangerous: true }));
}

#[test]
fn on_a_tie_the_first_absorbs() {
    let mut horde = horde_of(&[(1, 3_000, 1), (2, 2_000, 1)]);
    assert_eq!(
        horde.merge_pair(1, 2),
        Some(MergeOutcome { absorber: 1, absorbed: 2, speed: 3_000, merges: 2, numerator: 121, denominator: 100 })
    );
    let mut horde = horde_of(&[(1, 3_000, 1), (2, 2_000, 1)]);
    assert_eq!(
        horde.merge_pair(2, 1),
        Some(MergeOutcome { absorber: 2, absorbed: 1, speed: 3_000, merges: 2, numerator: 121, denominator: 100 })
    );
}

#[test]
fn an_enemy_at_the_bound_absorbs_no_more() {
    let mut horde = horde_of(&[(1, 3_000, 5), (2, 2_000, 0)]);
    let before = horde.len();
    assert_eq!(horde.get(1).unwrap().merges, MERGE_BOUND);
    assert_eq!(horde.merge_pair(1, 2), None);
    assert_eq!(horde.merge_pair(2, 1), None);
    assert_eq!(horde.len(), before);
    assert_eq!(horde.get(1).unwrap().merges, 5);
    assert_eq!(horde.get(2).unwrap().merges, 0);
}

#[test]
fn an_enemy_one_below_the_bound_reaches_it() {
    let mut horde = horde_of(&[(1, 3_000, 4), (2, 2_000, 0)]);
    let outcome = horde.merge_pair(2, 1).unwrap();
    assert_eq!(outcome.absorber, 1);
    assert_eq!(outcome.merges, 5);
}

#[test]
fn the_same_contact_again_is_a_no_op() {
    let mut horde = horde_of(&[(1, 3_000, 0), (2, 2_000, 0)]);
    assert!(horde.merge_pair(1, 2).is_some());
    let len = horde.len();
    assert_eq!(horde.merge_pair(1, 2), None);
    assert_eq!(horde.merge_pair(2, 1), None);
    assert_eq!(horde.len(), len);
    assert_eq!(horde.get(1), Some(Enemy { speed: 3_000, merges: 1, dangerous: true }));
}

#[test]
fn harmless_unknown_and_self_contacts_lead_to_nothing() {
    let mut horde = Horde::new();
    horde.spawn(1, &EnemySpawn { angle: 0, distance: 20_000, speed: 1_000 });
    horde.spawn(2, &EnemySpawn { angle: 0, distance: 20_000, speed: 2_000 });
    assert_eq!(horde.merge_pair(1, 2), None);
    horde.make_dangerous(1);
    assert_eq!(horde.merge_pair(1, 2), None);
    assert_eq!(horde.merge_pair(1, 1), None);
    assert_eq!(horde.merge_pair(1, 3), None);
    assert_eq!(horde.merge_pair(3, 1), None);
    assert_eq!(horde.len(), 2);
}

#[test]
fn a_frame_of_contacts_is_handled_in_order() {
    let mut horde = horde_of(&[(1, 1_000, 0), (2, 2_000, 0), (3, 3_000, 0), (4, 500, 0)]);
    let outcomes = horde.merge(&vec![(1, 2), (2, 3), (3, 1), (1, 2), (4, 1)]);
    assert_eq!(
        outcomes,
        vec![
            MergeOutcome { absorber: 1, absorbed: 2, speed: 2_000, merges: 1, numerator: 11, denominator: 10 },
            MergeOutcome { absorber: 1, absorbed: 3, speed: 3_000, merges: 2, numerator: 121, denominator: 100 },
            MergeOutcome { absorber: 1, absorbed: 4, speed: 3_000, merges: 3, numerator: 1331, denominator: 1000 },
        ]
    );
    assert_eq!(horde.len(), 1);
    assert_eq!(horde.get(1), Some(Enemy { speed: 3_000, merges: 3, dangerous: true }));
}

#[test]
fn no_run_of_merges_takes_an_enemy_past_the_bound() {
    let mut horde = Horde::new();
    for id in 0..40u64 {
        horde.spawn(id, &EnemySpawn { angle: 0, distance: 20_000, speed: id as i32 });
        horde.make_dangerous(id);
    }
    let mut pairs = Vec::new();
    for round in 1..40u64 {
        for id in 0..40u64 {
            pairs.push((id, (id + round) % 40));
        }
    }
    let before = horde.len();
    let outcomes = horde.merge(&pairs);
    assert_eq!(horde.len() + outcomes.len(), before);
    for outcome in &outcomes {
        assert!(outcome.merges <= MERGE_BOUND);
        assert_ne!(outcome.absorber, outcome.absorbed);
    }
    for id in 0..40u64 {
        if let Some(enemy) = horde.get(id) {
            assert!(enemy.merges <= MERGE_BOUND);
        }
    }
}

#[test]
fn despawn_takes_an_enemy_out() {
    let mut horde = horde_of(&[(1, 1_000, 0)]);
    assert!(horde.despawn(1));
    assert!(!horde.despawn(1));
    assert_eq!(horde.len(), 0);
}

#[test]
fn a_higher_score_never_lengthens_the_spawn_period() {
    let scores = [0u64, 1, 99, 100, 5_000_000_000, 99_999_999_999, 100_000_000_000, u64::MAX];
    for pair in scores.windows(2) {
        assert!(spawn_period(&Score(pair[1])) <= spawn_period(&Score(pair[0])));
    }
}
