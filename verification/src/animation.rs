//! Frame counters for sprite sheets.

use vstd::prelude::*;
use crate::lighting::Lantern;
use crate::state::GameState;

verus! {

/// A cursor that walks the frames `start..=end` of a sprite sheet and wraps
/// back to `start`.
pub struct Anim {
    current: usize,
    start: usize,
    end: usize,
}

impl Anim {
    #[verifier::type_invariant]
    spec fn in_range(self) -> bool {
        if self.start <= self.end {
            self.start <= self.current <= self.end
        } else {
            self.current == self.start
        }
    }

    /// The frame that the next `step` hands out.
    pub closed spec fn current(&self) -> usize {
        self.current
    }

    /// First frame of the cycle.
    pub closed spec fn start(&self) -> usize {
        self.start
    }

    /// Last frame of the cycle.
    pub closed spec fn end(&self) -> usize {
        self.end
    }

    /// The frame that follows `current` in the cycle `start..=end`.
    pub open spec fn next_frame(current: usize, start: usize, end: usize) -> usize {
        if current < end {
            (current + 1) as usize
        } else {
            start
        }
    }

    /// A cursor at `start`.
    pub fn new(start: usize, end: usize) -> (anim: Self)
        ensures
            anim.current() == start,
            anim.start() == start,
            anim.end() == end,
    {
        Anim { current: start, start, end }
    }

    /// A cursor that is already on its way: at `current` if that lies in
    /// `start..=end`, and nothing otherwise.
    pub fn resume(current: usize, start: usize, end: usize) -> (anim: Option<Self>)
        ensures
            match anim {
                Some(anim) => start <= current <= end && anim.current() == current && anim.start()
                    == start && anim.end() == end,
                None => !(start <= current <= end),
            },
    {
        if start <= current && current <= end {
            Some(Anim { current, start, end })
        } else {
            None
        }
    }

    /// A cursor as a file holds it: at `current` if that lies in
    /// `start..=end`, and at `start` otherwise.
    pub fn restored(current: usize, start: usize, end: usize) -> (anim: Self)
        ensures
            anim.start() == start,
            anim.end() == end,
            anim.current() == if start <= current <= end {
                current
            } else {
                start
            },
    {
        if start <= current && current <= end {
            Anim { current, start, end }
        } else {
            Anim { current: start, start, end }
        }
    }

    /// Hands out the current frame and moves to the next one.
    pub fn step(&mut self) -> (frame: usize)
        ensures
            frame == old(self).current(),
            final(self).start() == old(self).start(),
            final(self).end() == old(self).end(),
            final(self).current() == Self::next_frame(
                old(self).current(),
                old(self).start(),
                old(self).end(),
            ),
            old(self).start() <= old(self).end() ==> old(self).start() <= frame <= old(self).end(),
    {
        proof {
            use_type_invariant(&*self);
        }
        let frame = self.current;
        if self.current < self.end {
            self.current = self.current + 1;
        } else {
            self.current = self.start;
        }
        frame
    }
}

/// The frame a cursor is on after `steps` more steps.
pub open spec fn frame_after(current: usize, start: usize, end: usize, steps: nat) -> usize
    decreases steps,
{
    if steps == 0 {
        current
    } else {
        Anim::next_frame(frame_after(current, start, end, (steps - 1) as nat), start, end)
    }
}

/// A cursor counts modulo the length of its cycle: after `steps` steps it is
/// on frame `start + (current - start + steps) mod (end - start + 1)`.
pub proof fn lemma_frame_after(current: usize, start: usize, end: usize, steps: nat)
    requires
        start <= current <= end,
    ensures
        frame_after(current, start, end, steps) == start + (current - start + steps) % (end - start
            + 1),
        start <= frame_after(current, start, end, steps) <= end,
    decreases steps,
{
    let length = end - start + 1;
    if steps == 0 {
        assert((current - start) % length == current - start) by (nonlinear_arith)
            requires
                0 <= current - start < length,
        ;
    } else {
        lemma_frame_after(current, start, end, (steps - 1) as nat);
        let before = current - start + steps - 1;
        assert((before + 1) % length == if before % length + 1 < length {
            before % length + 1
        } else {
            0
        }) by (nonlinear_arith)
            requires
                0 <= before,
                0 < length,
        ;
        assert(0 <= before % length < length) by (nonlinear_arith)
            requires
                0 <= before,
                0 < length,
        ;
    }
}

/// A cursor is back where it was after as many steps as its cycle has frames.
pub proof fn lemma_full_cycle(current: usize, start: usize, end: usize)
    requires
        start <= current <= end,
    ensures
        frame_after(current, start, end, (end - start + 1) as nat) == current,
{
    let length = end - start + 1;
    lemma_frame_after(current, start, end, length as nat);
    assert((current - start + length) % length == current - start) by (nonlinear_arith)
        requires
            0 <= current - start < length,
    ;
}

/// A clip of a sprite sheet is a frame cursor.
pub type Clip = Anim;

/// Which of the player's clips plays.
#[derive(Clone, Copy, PartialEq, Eq, Structural, Debug)]
pub enum ClipKind {
    Idle,
    Walk,
    IdleLight,
    WalkLight,
}

/// Whether the player's animations run.
#[derive(Clone, Copy, PartialEq, Eq, Structural, Debug, Hash)]
pub enum PlayerState {
    Paused,
    Unpaused,
}

/// The player's four clips.
pub struct PlayerAnimations {
    pub idle: Anim,
    pub walk: Anim,
    pub idle_light: Anim,
    pub walk_light: Anim,
}

/// The player's clips and whether they run.
pub struct Animations {
    pub active: bool,
    pub clips: PlayerAnimations,
}

impl ClipKind {
    /// The clip for a player who moves or not, with the lantern lit or not.
    pub open spec fn of(moving: bool, lantern: Lantern) -> ClipKind {
        if moving {
            if lantern.0 {
                ClipKind::WalkLight
            } else {
                ClipKind::Walk
            }
        } else if lantern.0 {
            ClipKind::IdleLight
        } else {
            ClipKind::Idle
        }
    }

    /// The clip for a player who moves or not, with the lantern lit or not.
    pub fn pick(moving: bool, lantern: &Lantern) -> (kind: ClipKind)
        ensures
            kind == Self::of(moving, *lantern),
    {
        if moving {
            if lantern.0 {
                ClipKind::WalkLight
            } else {
                ClipKind::Walk
            }
        } else if lantern.0 {
            ClipKind::IdleLight
        } else {
            ClipKind::Idle
        }
    }

    /// The name the clip goes by in an animation file.
    pub fn name(&self) -> (name: &'static str)
        ensures
            name@ == match *self {
                ClipKind::Idle => "idle"@,
                ClipKind::Walk => "walk"@,
                ClipKind::IdleLight => "idle_light"@,
                ClipKind::WalkLight => "walk_light"@,
            },
    {
        match self {
            ClipKind::Idle => "idle",
            ClipKind::Walk => "walk",
            ClipKind::IdleLight => "idle_light",
            ClipKind::WalkLight => "walk_light",
        }
    }
}

impl PlayerAnimations {
    /// The clip of the given kind.
    pub open spec fn clip(&self, kind: ClipKind) -> Anim {
        match kind {
            ClipKind::Idle => self.idle,
            ClipKind::Walk => self.walk,
            ClipKind::IdleLight => self.idle_light,
            ClipKind::WalkLight => self.walk_light,
        }
    }

    /// The clips as the player's sprite sheet lays them out: walking by
    /// lantern on frames 0 to 7, walking on 8 to 15, then one frame each for
    /// standing by lantern and standing.
    pub fn new() -> (clips: Self)
        ensures
            clips.walk_light.start() == 0 && clips.walk_light.end() == 7,
            clips.walk.start() == 8 && clips.walk.end() == 15,
            clips.idle_light.start() == 16 && clips.idle_light.end() == 16,
            clips.idle.start() == 17 && clips.idle.end() == 17,
            forall|kind: ClipKind| #[trigger] clips.clip(kind).current() == clips.clip(kind).start(),
    {
        PlayerAnimations {
            walk_light: Anim::new(0, 7),
            walk: Anim::new(8, 15),
            idle_light: Anim::new(16, 16),
            idle: Anim::new(17, 17),
        }
    }

    /// Steps the clip of the given kind and leaves the others alone.
    pub fn step(&mut self, kind: ClipKind) -> (frame: usize)
        ensures
            frame == old(self).clip(kind).current(),
            final(self).clip(kind).start() == old(self).clip(kind).start(),
            final(self).clip(kind).end() == old(self).clip(kind).end(),
            final(self).clip(kind).current() == Anim::next_frame(
                old(self).clip(kind).current(),
                old(self).clip(kind).start(),
                old(self).clip(kind).end(),
            ),
            forall|other: ClipKind| other != kind ==> #[trigger] final(self).clip(other) == old(
                self,
            ).clip(other),
    {
        match kind {
            ClipKind::Idle => self.idle.step(),
            ClipKind::Walk => self.walk.step(),
            ClipKind::IdleLight => self.idle_light.step(),
            ClipKind::WalkLight => self.walk_light.step(),
        }
    }

    /// Which clip a frame steps, if any: once the game is over the standing
    /// clip; a walking clip only when the animation timer has fired; a
    /// standing clip every frame.
    pub open spec fn due(state: GameState, moving: bool, lantern: Lantern, timer_finished: bool) -> Option<
        ClipKind,
    > {
        if state is GameOver {
            Some(ClipKind::Idle)
        } else if moving && !timer_finished {
            None
        } else {
            Some(ClipKind::of(moving, lantern))
        }
    }

    /// One frame of the player's animation. Hands out the sprite frame to
    /// show, or nothing where the sprite stays as it is.
    pub fn sprite_animation(
        &mut self,
        state: &GameState,
        moving: bool,
        lantern: &Lantern,
        timer_finished: bool,
    ) -> (frame: Option<usize>)
        ensures
            match Self::due(*state, moving, *lantern, timer_finished) {
                Some(kind) => {
                    &&& frame == Some(old(self).clip(kind).current())
                    &&& final(self).clip(kind).current() == Anim::next_frame(
                        old(self).clip(kind).current(),
                        old(self).clip(kind).start(),
                        old(self).clip(kind).end(),
                    )
                    &&& forall|other: ClipKind|
                        other != kind ==> #[trigger] final(self).clip(other) == old(self).clip(
                            other,
                        )
                },
                None => frame is None && forall|other: ClipKind| #[trigger]
                    final(self).clip(other) == old(self).clip(other),
            },
    {
        let due = match state {
            GameState::GameOver => Some(ClipKind::Idle),
            _ => {
                if moving && !timer_finished {
                    None
                } else {
                    Some(ClipKind::pick(moving, lantern))
                }
            },
        };
        match due {
            Some(kind) => Some(self.step(kind)),
            None => None,
        }
    }
}

impl Animations {
    /// The animations run while the player is not paused.
    pub fn component_status_on_state_change(&mut self, state: &PlayerState)
        ensures
            final(self).active == (*state is Unpaused),
            final(self).clips == old(self).clips,
    {
        self.active = match state {
            PlayerState::Paused => false,
            PlayerState::Unpaused => true,
        };
    }
}

} // verus!
