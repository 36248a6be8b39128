//! Enemies: when they are spawned and how two of them merge.
//!
//! Speeds are held in thousandths of a world unit per second, distances in
//! thousandths of a world unit, angles in millionths of a radian.

use vstd::prelude::*;
use std::collections::HashMap;
use crate::lighting::GlobalLight;
use crate::random::random_in;
use crate::text::Score;
use crate::timer::TimerStep;

verus! {

broadcast use vstd::std_specs::hash::group_hash_axioms;

/// An enemy that has absorbed this many others absorbs no more.
pub const MERGE_BOUND: usize = 5;

/// A full turn, in millionths of a radian, rounded down.
pub const TAU_MICRO: u32 = 6_283_185;

/// Nearest an enemy is spawned to the player.
pub const SPAWN_DISTANCE_MIN: u32 = 20_000;

/// Spawn distances stay below this.
pub const SPAWN_DISTANCE_MAX: u32 = 100_000;

/// Slowest speed an enemy is spawned with.
pub const SPAWN_SPEED_MIN: u32 = 1_000;

/// Spawn speeds stay below this.
pub const SPAWN_SPEED_MAX: u32 = 18_000;

/// The spawn timer's period at a score of zero, in nanoseconds.
pub const SPAWN_PERIOD: u64 = 1_000_000_000;

/// How long a new enemy is harmless, in nanoseconds.
pub const GRACE_PERIOD: u64 = 500_000_000;

/// What the rules know of one enemy.
#[derive(Clone, Copy, PartialEq, Eq, Structural, Debug)]
pub struct Enemy {
    /// Thousandths of a world unit per second.
    pub speed: i32,
    /// How many enemies this one has absorbed.
    pub merges: usize,
    /// Whether its grace period after the spawn is over. Only then does it
    /// take part in merges.
    pub dangerous: bool,
}

/// Where and how fast a new enemy starts, relative to the player.
#[derive(Clone, Copy, PartialEq, Eq, Structural, Debug)]
pub struct EnemySpawn {
    /// Direction from the player, in millionths of a radian.
    pub angle: u32,
    /// Distance from the player, in thousandths of a world unit.
    pub distance: u32,
    /// Thousandths of a world unit per second.
    pub speed: i32,
}

/// What the spawner does this frame.
#[derive(Clone, Copy, PartialEq, Eq, Structural, Debug)]
pub enum SpawnDue {
    /// Nothing: it is daylight, or there is no player.
    Idle,
    /// The spawn timer runs on.
    Tick,
    /// The spawn timer has fired: it gets its new period and is reset, and
    /// an enemy appears.
    Spawn,
}

/// What the spawner did this frame.
#[derive(Clone, Copy, PartialEq, Eq, Structural, Debug)]
pub enum SpawnStep {
    /// Nothing: it is daylight, or there is no player.
    Idle,
    /// The spawn timer is to run on.
    Tick,
    /// The spawn timer is to get `period` and be reset, and `enemy` appears.
    Spawn { period: u64, enemy: EnemySpawn },
}

/// One merge: `absorber` took in `absorbed`, which is gone; `speed` and
/// `merges` are the absorber's new values, and `numerator` over `denominator`
/// is how many times as large as a new enemy it now is, sprite and collider
/// alike.
#[derive(Clone, Copy, PartialEq, Eq, Structural, Debug)]
pub struct MergeOutcome {
    pub absorber: u64,
    pub absorbed: u64,
    pub speed: i32,
    pub merges: usize,
    pub numerator: u32,
    pub denominator: u32,
}

impl EnemySpawn {
    /// The ranges a spawn is drawn from: any direction, 20 to 100 units
    /// away, at a speed of 1 to 18 units per second, upper ends excluded.
    pub open spec fn in_range(self) -> bool {
        &&& self.angle < TAU_MICRO
        &&& SPAWN_DISTANCE_MIN <= self.distance < SPAWN_DISTANCE_MAX
        &&& SPAWN_SPEED_MIN <= self.speed < SPAWN_SPEED_MAX
    }

    /// The enemy as the rules track it: nothing absorbed yet, not yet
    /// dangerous.
    pub open spec fn enemy(self) -> Enemy {
        Enemy { speed: self.speed, merges: 0, dangerous: false }
    }
}

/// The spawn timer's period at `score`: a second less a hundredth of a second
/// per point, and never below nothing.
pub open spec fn spawn_period_at(score: Score) -> u64 {
    if score.0 / 100 >= SPAWN_PERIOD {
        0
    } else {
        (SPAWN_PERIOD - score.0 / 100) as u64
    }
}

/// What the spawner does in a frame.
pub open spec fn spawn_due_at(global_light: GlobalLight, has_player: bool, timer_finished: bool) -> SpawnDue {
    if global_light.0 || !has_player {
        SpawnDue::Idle
    } else if timer_finished {
        SpawnDue::Spawn
    } else {
        SpawnDue::Tick
    }
}

/// The spawn timer's period at `score`.
pub fn spawn_period(score: &Score) -> (period: u64)
    ensures
        period == spawn_period_at(*score),
        period <= SPAWN_PERIOD,
{
    let shortened = score.0 / 100;
    if shortened >= SPAWN_PERIOD {
        0
    } else {
        SPAWN_PERIOD - shortened
    }
}

/// Decides what the spawner does this frame, from the global light, whether
/// there is a player, and whether the spawn timer has just fired.
pub fn spawn_due(global_light: &GlobalLight, has_player: bool, timer_finished: bool) -> (due: SpawnDue)
    ensures
        due == spawn_due_at(*global_light, has_player, timer_finished),
{
    if global_light.0 || !has_player {
        SpawnDue::Idle
    } else if timer_finished {
        SpawnDue::Spawn
    } else {
        SpawnDue::Tick
    }
}

/// Draws where and how fast a new enemy starts.
pub fn draw_enemy() -> (spawn: EnemySpawn)
    ensures
        spawn.in_range(),
{
    let angle = random_in(0, TAU_MICRO);
    let distance = random_in(SPAWN_DISTANCE_MIN, SPAWN_DISTANCE_MAX);
    let speed = random_in(SPAWN_SPEED_MIN, SPAWN_SPEED_MAX);
    EnemySpawn { angle, distance, speed: speed as i32 }
}

/// One frame of the spawner. An enemy is drawn only when one is due.
pub fn spawn_enemies(
    global_light: &GlobalLight,
    has_player: bool,
    timer_finished: bool,
    score: &Score,
) -> (step: SpawnStep)
    ensures
        match spawn_due_at(*global_light, has_player, timer_finished) {
            SpawnDue::Idle => step is Idle,
            SpawnDue::Tick => step is Tick,
            SpawnDue::Spawn => step matches SpawnStep::Spawn { period, enemy } && period
                == spawn_period_at(*score) && enemy.in_range(),
        },
{
    match spawn_due(global_light, has_player, timer_finished) {
        SpawnDue::Idle => SpawnStep::Idle,
        SpawnDue::Tick => SpawnStep::Tick,
        SpawnDue::Spawn => SpawnStep::Spawn { period: spawn_period(score), enemy: draw_enemy() },
    }
}

/// Daylight suppresses spawning: while the global light is on the spawner
/// does nothing, and the spawn timer does not even run on.
pub proof fn lemma_no_spawn_in_daylight(has_player: bool, timer_finished: bool)
    ensures
        spawn_due_at(GlobalLight(true), has_player, timer_finished) is Idle,
        spawn_due_at(GlobalLight(false), true, timer_finished) is Spawn <==> timer_finished,
{
}

/// The higher the score, the shorter the spawn timer's period.
pub proof fn lemma_spawn_period_shrinks(lower: Score, higher: Score)
    requires
        lower.0 <= higher.0,
    ensures
        spawn_period_at(higher) <= spawn_period_at(lower) <= SPAWN_PERIOD,
        spawn_period_at(Score(0)) == SPAWN_PERIOD,
{
}

/// `base` to the power `exponent`.
pub open spec fn power(base: nat, exponent: nat) -> nat
    decreases exponent,
{
    if exponent == 0 {
        1
    } else {
        base * power(base, (exponent - 1) as nat)
    }
}

/// By how much an enemy has grown after `merges` merges, as a fraction: each
/// merge multiplies its size by eleven tenths. No enemy has more merges than
/// the bound, and beyond it there is no answer.
pub fn growth(merges: usize) -> (ratio: Option<(u32, u32)>)
    ensures
        match ratio {
            Some((numerator, denominator)) => merges <= MERGE_BOUND && numerator == power(
                11,
                merges as nat,
            ) && denominator == power(10, merges as nat),
            None => merges > MERGE_BOUND,
        },
{
    if merges > MERGE_BOUND {
        return None;
    }
    let mut ratio: (u32, u32) = (1, 1);
    let mut done: usize = 0;
    while done < merges
        invariant
            done <= merges <= MERGE_BOUND,
            ratio.0 == power(11, done as nat),
            ratio.1 == power(10, done as nat),
        decreases merges - done,
    {
        proof {
            lemma_power_bounds(done as nat);
        }
        ratio = (ratio.0 * 11, ratio.1 * 10);
        done += 1;
    }
    Some(ratio)
}

/// One more merge makes an enemy eleven tenths as large as it was: the
/// numerator of its growth is multiplied by 11 and the denominator by 10.
pub proof fn lemma_growth_step(merges: nat)
    ensures
        power(11, merges + 1) == 11 * power(11, merges),
        power(10, merges + 1) == 10 * power(10, merges),
{
    reveal_with_fuel(power, 2);
}

/// The powers of ten and eleven up to the merge bound.
proof fn lemma_power_bounds(exponent: nat)
    requires
        exponent < 5,
    ensures
        power(11, exponent) * 11 <= 161051,
        power(10, exponent) * 10 <= 100000,
{
    reveal_with_fuel(power, 6);
    assert(exponent == 0 || exponent == 1 || exponent == 2 || exponent == 3 || exponent == 4);
}

/// Every enemy has absorbed at most [`MERGE_BOUND`] others.
pub open spec fn bounded(horde: Map<u64, Enemy>) -> bool {
    forall|id: u64| horde.contains_key(id) ==> (#[trigger] horde[id]).merges <= MERGE_BOUND
}

/// The larger of two speeds.
pub open spec fn faster(first: i32, second: i32) -> i32 {
    if first >= second {
        first
    } else {
        second
    }
}

/// What the contact of `first` and `second` leads to. Both must be alive,
/// distinct and dangerous. The one that has absorbed more does the absorbing,
/// the first of the two when they are level, and only while it is below the
/// bound; it keeps the larger of the two speeds.
pub open spec fn merge_outcome(horde: Map<u64, Enemy>, first: u64, second: u64) -> Option<
    MergeOutcome,
> {
    if first != second && horde.contains_key(first) && horde.contains_key(second)
        && horde[first].dangerous && horde[second].dangerous {
        let absorber = if horde[first].merges >= horde[second].merges {
            first
        } else {
            second
        };
        let absorbed = if absorber == first {
            second
        } else {
            first
        };
        if horde[absorber].merges < MERGE_BOUND {
            Some(
                MergeOutcome {
                    absorber,
                    absorbed,
                    speed: faster(horde[first].speed, horde[second].speed),
                    merges: (horde[absorber].merges + 1) as usize,
                    numerator: power(11, (horde[absorber].merges + 1) as nat) as u32,
                    denominator: power(10, (horde[absorber].merges + 1) as nat) as u32,
                },
            )
        } else {
            None
        }
    } else {
        None
    }
}

/// The enemies after the contact of `first` and `second`.
pub open spec fn merged(horde: Map<u64, Enemy>, first: u64, second: u64) -> Map<u64, Enemy> {
    match merge_outcome(horde, first, second) {
        Some(outcome) => horde.remove(outcome.absorbed).insert(
            outcome.absorber,
            Enemy { speed: outcome.speed, merges: outcome.merges, dangerous: true },
        ),
        None => horde,
    }
}

/// The enemies after a run of contacts, taken in order.
pub open spec fn merged_all(horde: Map<u64, Enemy>, pairs: Seq<(u64, u64)>) -> Map<u64, Enemy>
    decreases pairs.len(),
{
    if pairs.len() == 0 {
        horde
    } else {
        merged(merged_all(horde, pairs.drop_last()), pairs.last().0, pairs.last().1)
    }
}

/// The merges that a run of contacts leads to, in order.
pub open spec fn merge_outcomes(horde: Map<u64, Enemy>, pairs: Seq<(u64, u64)>) -> Seq<
    MergeOutcome,
>
    decreases pairs.len(),
{
    if pairs.len() == 0 {
        Seq::empty()
    } else {
        let earlier = merge_outcomes(horde, pairs.drop_last());
        match merge_outcome(merged_all(horde, pairs.drop_last()), pairs.last().0, pairs.last().1) {
            Some(outcome) => earlier.push(outcome),
            None => earlier,
        }
    }
}

/// The enemies alive, by entity.
pub struct Horde {
    enemies: HashMap<u64, Enemy>,
}

impl View for Horde {
    type V = Map<u64, Enemy>;

    closed spec fn view(&self) -> Map<u64, Enemy> {
        self.enemies@
    }
}

impl Horde {
    /// No enemies.
    pub fn new() -> (horde: Self)
        ensures
            horde@ == Map::<u64, Enemy>::empty(),
    {
        Horde { enemies: HashMap::new() }
    }

    /// How many enemies are alive.
    pub fn len(&self) -> (count: usize)
        ensures
            count == self@.len(),
    {
        self.enemies.len()
    }

    /// The enemy `id`, if it is alive.
    pub fn get(&self, id: u64) -> (enemy: Option<Enemy>)
        ensures
            enemy == if self@.contains_key(id) {
                Some(self@[id])
            } else {
                None
            },
    {
        match self.enemies.get(&id) {
            Some(enemy) => Some(*enemy),
            None => None,
        }
    }

    /// Takes in a new enemy: nothing absorbed yet, not yet dangerous.
    pub fn spawn(&mut self, id: u64, spawn: &EnemySpawn)
        ensures
            final(self)@ == old(self)@.insert(id, spawn.enemy()),
            bounded(old(self)@) ==> bounded(final(self)@),
    {
        self.enemies.insert(id, Enemy { speed: spawn.speed, merges: 0, dangerous: false });
    }

    /// Ends the grace period of `id`. Returns whether there is such an enemy.
    pub fn make_dangerous(&mut self, id: u64) -> (alive: bool)
        ensures
            alive == old(self)@.contains_key(id),
            final(self)@ == if alive {
                old(self)@.insert(id, Enemy { dangerous: true, ..old(self)@[id] })
            } else {
                old(self)@
            },
            bounded(old(self)@) ==> bounded(final(self)@),
    {
        let enemy = match self.enemies.get(&id) {
            Some(enemy) => *enemy,
            None => {
                return false;
            },
        };
        self.enemies.insert(id, Enemy { dangerous: true, ..enemy });
        true
    }

    /// One frame of the grace timer of `id`: once it has fired the enemy is
    /// dangerous and the timer starts over, until then it runs on.
    pub fn tick_grace(&mut self, id: u64, timer_finished: bool) -> (step: TimerStep)
        ensures
            step == TimerStep::of(timer_finished),
            final(self)@ == if timer_finished && old(self)@.contains_key(id) {
                old(self)@.insert(id, Enemy { dangerous: true, ..old(self)@[id] })
            } else {
                old(self)@
            },
            bounded(old(self)@) ==> bounded(final(self)@),
    {
        if timer_finished {
            self.make_dangerous(id);
            TimerStep::Fire
        } else {
            TimerStep::Tick
        }
    }

    /// Takes `id` out. Returns whether there was such an enemy.
    pub fn despawn(&mut self, id: u64) -> (alive: bool)
        ensures
            alive == old(self)@.contains_key(id),
            final(self)@ == old(self)@.remove(id),
            bounded(old(self)@) ==> bounded(final(self)@),
    {
        self.enemies.remove(&id).is_some()
    }

    /// Handles the contact of `first` and `second`. Where it leads to a
    /// merge, the absorber is updated, the other is taken out, and the merge
    /// is handed back so that the world can follow.
    pub fn merge_pair(&mut self, first: u64, second: u64) -> (outcome: Option<MergeOutcome>)
        ensures
            outcome == merge_outcome(old(self)@, first, second),
            final(self)@ == merged(old(self)@, first, second),
            bounded(old(self)@) ==> bounded(final(self)@),
    {
        if first == second {
            return None;
        }
        let one = match self.enemies.get(&first) {
            Some(enemy) => *enemy,
            None => {
                return None;
            },
        };
        let two = match self.enemies.get(&second) {
            Some(enemy) => *enemy,
            None => {
                return None;
            },
        };
        if !one.dangerous || !two.dangerous {
            return None;
        }
        let first_absorbs = one.merges >= two.merges;
        let absorber = if first_absorbs {
            first
        } else {
            second
        };
        let absorbed = if first_absorbs {
            second
        } else {
            first
        };
        let before = if first_absorbs {
            one.merges
        } else {
            two.merges
        };
        if before >= MERGE_BOUND {
            return None;
        }
        let speed = if one.speed >= two.speed {
            one.speed
        } else {
            two.speed
        };
        let merges = before + 1;
        let (numerator, denominator) = match growth(merges) {
            Some(ratio) => ratio,
            None => {
                return None;
            },
        };
        self.enemies.remove(&absorbed);
        self.enemies.insert(absorber, Enemy { speed, merges, dangerous: true });
        Some(MergeOutcome { absorber, absorbed, speed, merges, numerator, denominator })
    }

    /// Handles a frame's contacts in order and hands back the merges they
    /// led to.
    pub fn merge(&mut self, pairs: &Vec<(u64, u64)>) -> (outcomes: Vec<MergeOutcome>)
        ensures
            final(self)@ == merged_all(old(self)@, pairs@),
            outcomes@ == merge_outcomes(old(self)@, pairs@),
            bounded(old(self)@) ==> bounded(final(self)@),
    {
        let mut outcomes: Vec<MergeOutcome> = Vec::new();
        let mut i: usize = 0;
        while i < pairs.len()
            invariant
                i <= pairs@.len(),
                self@ == merged_all(old(self)@, pairs@.take(i as int)),
                outcomes@ == merge_outcomes(old(self)@, pairs@.take(i as int)),
                bounded(old(self)@) ==> bounded(self@),
            decreases pairs@.len() - i,
        {
            let pair = pairs[i];
            proof {
                assert(pairs@.take(i + 1).drop_last() == pairs@.take(i as int));
                assert(pairs@.take(i + 1).last() == pair);
            }
            if let Some(outcome) = self.merge_pair(pair.0, pair.1) {
                outcomes.push(outcome);
            }
            i += 1;
        }
        proof {
            assert(pairs@.take(pairs@.len() as int) == pairs@);
        }
        outcomes
    }
}

/// A merge keeps every enemy within the bound.
pub proof fn lemma_merge_keeps_bound(horde: Map<u64, Enemy>, first: u64, second: u64)
    requires
        bounded(horde),
    ensures
        bounded(merged(horde, first, second)),
{
    let after = merged(horde, first, second);
    assert forall|id: u64| after.contains_key(id) implies (#[trigger] after[id]).merges
        <= MERGE_BOUND by {
        if horde.contains_key(id) {
            assert(horde[id].merges <= MERGE_BOUND);
        }
    }
}

/// Whatever contacts come, in whatever order, no enemy ever gets beyond the
/// bound.
pub proof fn lemma_merges_keep_bound(horde: Map<u64, Enemy>, pairs: Seq<(u64, u64)>)
    requires
        bounded(horde),
    ensures
        bounded(merged_all(horde, pairs)),
    decreases pairs.len(),
{
    if pairs.len() > 0 {
        lemma_merges_keep_bound(horde, pairs.drop_last());
        lemma_merge_keeps_bound(
            merged_all(horde, pairs.drop_last()),
            pairs.last().0,
            pairs.last().1,
        );
    }
}

/// An absorber that starts more than one short of the bound ends short of it.
pub proof fn lemma_merge_below_bound(horde: Map<u64, Enemy>, first: u64, second: u64)
    requires
        merge_outcome(horde, first, second) is Some,
        horde[merge_outcome(horde, first, second)->0.absorber].merges + 1 < MERGE_BOUND,
    ensures
        merge_outcome(horde, first, second)->0.merges < MERGE_BOUND,
        merged(horde, first, second)[merge_outcome(horde, first, second)->0.absorber].merges
            < MERGE_BOUND,
{
}

/// A merge takes out exactly one of the two enemies in contact: the other
/// of the two stays, with one more merge to its name and the larger of the
/// two speeds, and every enemy beside the two is as it was.
pub proof fn lemma_merge_takes_one(horde: Map<u64, Enemy>, first: u64, second: u64)
    requires
        merge_outcome(horde, first, second) is Some,
    ensures
        ({
            let outcome = merge_outcome(horde, first, second)->0;
            let after = merged(horde, first, second);
            &&& (outcome.absorber == first && outcome.absorbed == second) || (outcome.absorber
                == second && outcome.absorbed == first)
            &&& outcome.absorber != outcome.absorbed
            &&& horde.contains_key(outcome.absorber) && horde.contains_key(outcome.absorbed)
            &&& horde[outcome.absorber].merges >= horde[outcome.absorbed].merges
            &&& after.dom() == horde.dom().remove(outcome.absorbed)
            &&& after[outcome.absorber].merges == horde[outcome.absorber].merges + 1
            &&& outcome.numerator == 11 * power(11, horde[outcome.absorber].merges as nat)
            &&& outcome.denominator == 10 * power(10, horde[outcome.absorber].merges as nat)
            &&& after[outcome.absorber].speed == faster(horde[first].speed, horde[second].speed)
            &&& forall|id: u64|
                id != outcome.absorber && #[trigger] after.contains_key(id) ==> after[id]
                    == horde[id]
            &&& horde.dom().finite() ==> after.dom().finite() && after.len() + 1 == horde.len()
        }),
{
    let outcome = merge_outcome(horde, first, second)->0;
    let after = merged(horde, first, second);
    assert(after.dom() =~= horde.dom().remove(outcome.absorbed));
    lemma_growth_step(horde[outcome.absorber].merges as nat);
    lemma_power_bounds(horde[outcome.absorber].merges as nat);
}

/// A contact that leads to no merge changes nothing.
pub proof fn lemma_no_merge_no_change(horde: Map<u64, Enemy>, first: u64, second: u64)
    requires
        merge_outcome(horde, first, second) is None,
    ensures
        merged(horde, first, second) == horde,
{
}

/// The same contact a second time is a no-op: the absorbed enemy is gone.
pub proof fn lemma_merge_once(horde: Map<u64, Enemy>, first: u64, second: u64)
    requires
        merge_outcome(horde, first, second) is Some,
    ensures
        merge_outcome(merged(horde, first, second), first, second) is None,
        merged(merged(horde, first, second), first, second) == merged(horde, first, second),
{
}

/// Merging never lowers what an enemy has: whoever is alive after a contact
/// was alive before, with no more merges and no more speed than now.
pub proof fn lemma_merge_monotone(horde: Map<u64, Enemy>, first: u64, second: u64, id: u64)
    requires
        merged(horde, first, second).contains_key(id),
    ensures
        horde.contains_key(id),
        horde[id].merges <= merged(horde, first, second)[id].merges,
        horde[id].speed <= merged(horde, first, second)[id].speed,
{
}

/// Over any run of contacts, whoever is alive at the end was alive at the
/// start, with no more merges and no more speed than at the end.
pub proof fn lemma_merges_monotone(horde: Map<u64, Enemy>, pairs: Seq<(u64, u64)>, id: u64)
    requires
        merged_all(horde, pairs).contains_key(id),
    ensures
        horde.contains_key(id),
        horde[id].merges <= merged_all(horde, pairs)[id].merges,
        horde[id].speed <= merged_all(horde, pairs)[id].speed,
    decreases pairs.len(),
{
    if pairs.len() > 0 {
        let earlier = merged_all(horde, pairs.drop_last());
        lemma_merge_monotone(earlier, pairs.last().0, pairs.last().1, id);
        lemma_merges_monotone(horde, pairs.drop_last(), id);
    }
}

/// Over any run of contacts, as many enemies are gone as merges took place.
pub proof fn lemma_one_gone_per_merge(horde: Map<u64, Enemy>, pairs: Seq<(u64, u64)>)
    requires
        horde.dom().finite(),
    ensures
        merged_all(horde, pairs).dom().finite(),
        merged_all(horde, pairs).len() + merge_outcomes(horde, pairs).len() == horde.len(),
    decreases pairs.len(),
{
    if pairs.len() > 0 {
        let earlier = merged_all(horde, pairs.drop_last());
        lemma_one_gone_per_merge(horde, pairs.drop_last());
        if merge_outcome(earlier, pairs.last().0, pairs.last().1) is Some {
            lemma_merge_takes_one(earlier, pairs.last().0, pairs.last().1);
        }
    }
}

} // verus!
