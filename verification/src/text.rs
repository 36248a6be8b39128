//! The score and the texts in the middle of the screen.

use vstd::prelude::*;
use crate::timer::TimerStep;
use crate::lighting::Lantern;
use crate::state::GameState;

verus! {

/// One score point, in the unit [`Score`] counts in.
pub const POINT: u64 = 1_000_000_000;

/// The score, in billionths of a point. A second survived by lantern is
/// worth one point, a second survived without it two.
#[derive(Clone, Copy, PartialEq, Eq, Structural, Debug)]
pub struct Score(pub u64);

/// Whether an enemy has reached the player.
#[derive(Clone, Copy, PartialEq, Eq, Structural, Debug)]
pub struct GameOver(pub bool);

impl Score {
    /// The score after `delta` nanoseconds, held at the largest value that
    /// can be counted.
    pub open spec fn after(self, delta: u64, lantern: Lantern) -> Score {
        let gain = if lantern.0 {
            delta as int
        } else {
            2 * delta
        };
        if self.0 + gain > u64::MAX {
            Score(u64::MAX)
        } else {
            Score((self.0 + gain) as u64)
        }
    }

    /// The score in whole points, halves rounded up.
    pub open spec fn rounded(self) -> u64 {
        ((self.0 + POINT / 2) / POINT as int) as u64
    }

    /// The score in whole points, halves rounded up.
    pub fn round(&self) -> (points: u64)
        ensures
            points == self.rounded(),
    {
        let whole = self.0 / POINT;
        if self.0 % POINT >= POINT / 2 {
            whole + 1
        } else {
            whole
        }
    }
}

/// The score never falls, and without the lantern it gains twice as much as
/// with it, as far as the number goes.
pub proof fn lemma_score_never_falls(score: Score, delta: u64, lantern: Lantern)
    ensures
        score.0 <= score.after(delta, lantern).0,
        score.after(delta, Lantern(true)).0 <= score.after(delta, Lantern(false)).0,
        score.0 + 2 * delta <= u64::MAX ==> score.after(delta, Lantern(false)).0 - score.0 == 2 * (
        score.after(delta, Lantern(true)).0 - score.0),
{
}

/// Counts the time survived. `player` holds the lantern and the game-over
/// flag of the one player, or nothing when there is no such player; the score
/// stands still then, and once the game is over.
pub fn update_score_by_time(score: &mut Score, player: Option<(Lantern, GameOver)>, delta: u64)
    ensures
        *final(score) == match player {
            Some((lantern, game_over)) => if game_over.0 {
                *old(score)
            } else {
                old(score).after(delta, lantern)
            },
            None => *old(score),
        },
{
    if let Some((lantern, game_over)) = player {
        if !game_over.0 {
            let gain = if lantern.0 {
                delta
            } else if delta > u64::MAX / 2 {
                u64::MAX
            } else {
                2 * delta
            };
            if gain > u64::MAX - score.0 {
                score.0 = u64::MAX;
            } else {
                score.0 = score.0 + gain;
            }
        }
    }
}

/// One of the opening texts: the line, the key to press, and whether the
/// player has moved past it.
#[derive(Clone, Copy, Debug)]
pub struct ExpositionText {
    pub shown: bool,
    pub main: &'static str,
    pub sub: &'static str,
}

/// The opening texts, in the order they are shown.
#[derive(Debug)]
pub struct ExpositionTexts {
    pub inner: [ExpositionText; 4],
}

/// The keys that move the opening along, as pressed this frame.
#[derive(Clone, Copy, PartialEq, Eq, Structural, Debug)]
pub struct PreludeKeys {
    /// Space went down this frame.
    pub space: bool,
    /// G went down this frame.
    pub g: bool,
    /// F went down this frame.
    pub f: bool,
    /// One of W, A, S, D is held.
    pub wasd: bool,
}

/// What an enemy's touch does to the screen.
#[derive(Clone, Copy, PartialEq, Eq, Structural, Debug)]
pub struct GameOverScreen {
    /// The score to show, in whole points.
    pub points: u64,
}

/// Index of the first text at or after `start` that has not been shown.
pub open spec fn unshown_from(texts: Seq<ExpositionText>, start: int) -> Option<int>
    decreases texts.len() - start,
{
    if start < 0 || start >= texts.len() {
        None
    } else if !texts[start].shown {
        Some(start)
    } else {
        unshown_from(texts, start + 1)
    }
}

/// Which text the key pressed at `stage` moves past, if it is pressed. The
/// stages 0, 1 and 2 wait for Space, G and F; every later stage waits for a
/// movement key.
pub open spec fn prelude_advances(stage: usize, keys: PreludeKeys) -> bool {
    if stage == 0 {
        keys.space
    } else if stage == 1 {
        keys.g
    } else if stage == 2 {
        keys.f
    } else {
        keys.wasd
    }
}

impl ExpositionTexts {
    /// The four opening texts, none shown yet.
    pub fn new() -> (texts: Self)
        ensures
            forall|i: int| 0 <= i < 4 ==> !(#[trigger] texts.inner@[i]).shown,
            texts.inner@[0].main@ == "CONTOUR"@ && texts.inner@[0].sub@ == "<space>"@,
            texts.inner@[1].main@
                == "They are stronger together, and that is meant literally."@
                && texts.inner@[1].sub@ == "<g>"@,
            texts.inner@[2].main@ == "Your light will slow them down."@ && texts.inner@[2].sub@
                == "<f>"@,
            texts.inner@[3].main@ == "But in time, they will consume you."@
                && texts.inner@[3].sub@ == "<wasd>"@,
    {
        ExpositionTexts {
            inner: [
                ExpositionText { shown: false, main: "CONTOUR", sub: "<space>" },
                ExpositionText {
                    shown: false,
                    main: "They are stronger together, and that is meant literally.",
                    sub: "<g>",
                },
                ExpositionText { shown: false, main: "Your light will slow them down.", sub: "<f>" },
                ExpositionText {
                    shown: false,
                    main: "But in time, they will consume you.",
                    sub: "<wasd>",
                },
            ],
        }
    }

    /// The first text that has not been shown, if any is left.
    pub fn show_exposition_texts(&self) -> (next: Option<ExpositionText>)
        ensures
            match unshown_from(self.inner@, 0) {
                Some(index) => next == Some(self.inner@[index]) && 0 <= index < 4
                    && !self.inner@[index].shown,
                None => next is None,
            },
    {
        let mut i: usize = 0;
        while i < 4
            invariant
                i <= 4,
                self.inner@.len() == 4,
                unshown_from(self.inner@, 0) == unshown_from(self.inner@, i as int),
            decreases 4 - i,
        {
            if !self.inner[i].shown {
                return Some(self.inner[i]);
            }
            i += 1;
        }
        None
    }

    /// Marks the text at `index` as shown.
    fn mark(&mut self, index: usize)
        requires
            index < 4,
        ensures
            final(self).inner@ == old(self).inner@.update(
                index as int,
                ExpositionText { shown: true, ..old(self).inner@[index as int] },
            ),
    {
        let text = self.inner[index];
        self.inner[index] = ExpositionText { shown: true, ..text };
    }
}

/// One frame of the opening. `stage` counts the texts the player has moved
/// past. The key that the stage waits for marks its text as shown; the first
/// three move on to the next stage, the last one starts the game.
pub fn step_through_prelude(
    state: &mut GameState,
    stage: &mut usize,
    keys: &PreludeKeys,
    texts: &mut ExpositionTexts,
)
    ensures
        !prelude_advances(*old(stage), *keys) ==> *final(state) == *old(state) && *final(stage)
            == *old(stage) && *final(texts) == *old(texts),
        prelude_advances(*old(stage), *keys) ==> {
            let index = if *old(stage) < 3 {
                *old(stage) as int
            } else {
                3int
            };
            &&& final(texts).inner@ == old(texts).inner@.update(
                index,
                ExpositionText { shown: true, ..old(texts).inner@[index] },
            )
            &&& *final(stage) == if *old(stage) < 3 {
                (*old(stage) + 1) as usize
            } else {
                *old(stage)
            }
            &&& *final(state) == if *old(stage) < 3 {
                *old(state)
            } else {
                GameState::InGame
            }
        },
{
    if *stage == 0 {
        if keys.space {
            *stage = 1;
            texts.mark(0);
        }
    } else if *stage == 1 {
        if keys.g {
            *stage = 2;
            texts.mark(1);
        }
    } else if *stage == 2 {
        if keys.f {
            *stage = 3;
            texts.mark(2);
        }
    } else {
        if keys.wasd {
            *state = GameState::InGame;
            texts.mark(3);
        }
    }
}

/// An enemy touching the player ends the game. `intersections` is the number
/// of enemies in contact with the player. Hands out what the screen is to
/// show when the game has just been lost.
pub fn enemy_intersecting_player(
    intersections: usize,
    score: &Score,
    game_over: &mut GameOver,
    state: &mut GameState,
) -> (screen: Option<GameOverScreen>)
    ensures
        intersections == 0 ==> screen is None && *final(game_over) == *old(game_over)
            && *final(state) == *old(state),
        intersections > 0 ==> screen == Some(GameOverScreen { points: score.rounded() })
            && final(game_over).0 && *final(state) == GameState::GameOver,
{
    if intersections > 0 {
        game_over.0 = true;
        *state = GameState::GameOver;
        Some(GameOverScreen { points: score.round() })
    } else {
        None
    }
}

/// The line in the middle of the screen.
#[derive(Debug)]
pub struct MainText(pub String);

/// The line below it.
#[derive(Debug)]
pub struct SubText(pub String);

/// One frame of the timer that clears the screen texts: once it has fired
/// both lines are emptied and the timer starts over, until then it runs on.
pub fn clear_screen_text(main: &mut MainText, sub: &mut SubText, timer_finished: bool) -> (step:
    TimerStep)
    ensures
        step == TimerStep::of(timer_finished),
        timer_finished ==> final(main).0@ == Seq::<char>::empty() && final(sub).0@ == Seq::<
            char,
        >::empty(),
        !timer_finished ==> *final(main) == *old(main) && *final(sub) == *old(sub),
{
    if timer_finished {
        main.0 = String::new();
        sub.0 = String::new();
        TimerStep::Fire
    } else {
        TimerStep::Tick
    }
}

/// The lines below the main text.
#[derive(Clone, Copy, Debug)]
pub struct CenterText<'a> {
    /// The line for the score: the sub text once the game is over, and
    /// nothing before.
    pub score: Option<&'a str>,
    /// The line for the key to press: the sub text while the game runs, and
    /// the hint to restart once it is over.
    pub input: &'a str,
}

/// Picks the lines to show below the main text.
pub fn show_center_text<'a>(state: &GameState, sub: &'a str) -> (lines: CenterText<'a>)
    ensures
        *state is GameOver ==> lines.score == Some(sub) && lines.input@
            == "<refresh page to restart>"@,
        !(*state is GameOver) ==> lines.score is None && lines.input == sub,
{
    match state {
        GameState::GameOver => CenterText { score: Some(sub), input: "<refresh page to restart>" },
        _ => CenterText { score: None, input: sub },
    }
}

} // verus!
