//! The level-gate sequencer: fade out, swap the level, put the player at the
//! matching entry gate, fade in.
//!
//! Opacity is held in billionths ([`ALPHA_FULL`] is fully opaque) and time in
//! nanoseconds, so one second at a speed of 1000 covers the whole range.

use vstd::prelude::*;
use crate::gate::Gate;
use crate::gate::GateSite;
use crate::gate::LevelSelection;
use crate::gate::first_entry;
use crate::state::GameState;

verus! {

/// Opacity of a fully opaque fade sprite.
pub const ALPHA_FULL: u32 = 1_000_000_000;

/// Where the level swap stands.
#[derive(Clone, Copy, PartialEq, Eq, Structural, Debug, Hash)]
pub enum LevelState {
    /// No swap in progress.
    Idle,
    /// Fading out towards the level with this index.
    Requested(usize),
    /// The new level is selected; fading back in.
    Loaded,
}

/// Whether the player still has to be put at an entry gate.
#[derive(Clone, Copy, PartialEq, Eq, Structural, Debug, Hash)]
pub enum TeleportState {
    /// The player waits for the entry gate that leads back to this level.
    Pending(usize),
    /// Nothing to do.
    Idle,
}

/// A request to leave level `from` for level `to`.
#[derive(Clone, Copy, PartialEq, Eq, Structural, Debug)]
pub struct StartTransition {
    pub from: usize,
    pub to: usize,
}

/// The fade-out is complete: the level with this index is to be selected.
#[derive(Clone, Copy, PartialEq, Eq, Structural, Debug)]
pub struct LevelChange(pub usize);

/// The level the player left last.
#[derive(Clone, Copy, PartialEq, Eq, Structural, Debug)]
pub struct LastLevelIndex(pub usize);

/// The screen-covering sprite; `alpha` runs from 0 to [`ALPHA_FULL`].
#[derive(Clone, Copy, PartialEq, Eq, Structural, Debug)]
pub struct Fade {
    pub alpha: u32,
}

/// How fast the fade runs, in thousandths of full opacity per second.
#[derive(Clone, Copy, PartialEq, Eq, Structural, Debug)]
pub struct FadeData {
    pub speed: u32,
}

/// What the teleport step found.
#[derive(Clone, Copy, PartialEq, Eq, Structural, Debug)]
pub enum Teleport {
    /// No teleport was pending.
    NotPending,
    /// A teleport is pending but there is no player to move.
    NoPlayer,
    /// A teleport is pending and no entry gate for this origin has appeared.
    NoEntry(usize),
    /// The player was moved to the entry at this index in the list.
    Arrived(usize),
}

/// Opacity gained or lost in `delta` nanoseconds at `speed`, capped at
/// [`ALPHA_FULL`].
pub open spec fn fade_amount(delta: u64, speed: u32) -> u32 {
    if delta * speed / 1000 >= ALPHA_FULL {
        ALPHA_FULL
    } else {
        (delta * speed / 1000) as u32
    }
}

/// `alpha` raised by `amount`, capped at [`ALPHA_FULL`].
pub open spec fn raised(alpha: u32, amount: u32) -> u32 {
    if alpha + amount >= ALPHA_FULL {
        ALPHA_FULL
    } else {
        (alpha + amount) as u32
    }
}

/// `alpha` lowered by `amount`, stopping at 0.
pub open spec fn lowered(alpha: u32, amount: u32) -> u32 {
    if amount >= alpha {
        0
    } else {
        (alpha - amount) as u32
    }
}

impl FadeData {
    /// Three times full opacity per second.
    pub fn new() -> (data: Self)
        ensures
            data.speed == 3000,
    {
        FadeData { speed: 3000 }
    }

    /// Opacity covered in `delta` nanoseconds.
    pub fn amount(&self, delta: u64) -> (amount: u32)
        ensures
            amount == fade_amount(delta, self.speed),
            amount <= ALPHA_FULL,
    {
        assert(delta * self.speed <= 0xffff_ffff_ffff_ffff * 0xffff_ffff) by (nonlinear_arith)
            requires
                delta <= 0xffff_ffff_ffff_ffff,
                self.speed <= 0xffff_ffff,
        ;
        let covered: u128 = (delta as u128) * (self.speed as u128) / 1000;
        if covered >= ALPHA_FULL as u128 {
            ALPHA_FULL
        } else {
            covered as u32
        }
    }
}

/// All the state of the sequencer.
#[derive(Clone, Copy, PartialEq, Eq, Structural, Debug)]
pub struct LevelTransition {
    pub state: LevelState,
    pub teleport: TeleportState,
    pub selection: LevelSelection,
    pub last_level: LastLevelIndex,
    pub fade: Fade,
    pub game: GameState,
}

impl LevelTransition {
    /// The fade never exceeds full opacity, and the screen is clear whenever
    /// no swap is in progress.
    pub open spec fn wf(self) -> bool {
        &&& self.fade.alpha <= ALPHA_FULL
        &&& self.state is Idle ==> self.fade.alpha == 0
    }

    /// The state a game starts in: level 0 selected, nothing pending, the
    /// fade sprite clear.
    pub open spec fn initial() -> Self {
        LevelTransition {
            state: LevelState::Idle,
            teleport: TeleportState::Idle,
            selection: LevelSelection::Index(0),
            last_level: LastLevelIndex(0),
            fade: Fade { alpha: 0 },
            game: GameState::Loading,
        }
    }

    /// The state after one request: taken up only from `Idle`.
    pub open spec fn after_request(self, request: StartTransition) -> Self {
        if self.state is Idle {
            LevelTransition {
                state: LevelState::Requested(request.to),
                last_level: LastLevelIndex(request.from),
                game: GameState::Loading,
                ..self
            }
        } else {
            self
        }
    }

    /// The state after one frame of fading out.
    pub open spec fn after_fade_out(self, amount: u32) -> Self {
        if self.state is Requested {
            LevelTransition { fade: Fade { alpha: raised(self.fade.alpha, amount) }, ..self }
        } else {
            self
        }
    }

    /// The state after the level swap.
    pub open spec fn after_level_change(self, change: LevelChange) -> Self {
        LevelTransition {
            state: LevelState::Loaded,
            teleport: TeleportState::Pending(self.last_level.0),
            selection: LevelSelection::Index(change.0),
            ..self
        }
    }

    /// The state after one frame of fading in.
    pub open spec fn after_fade_in(self, amount: u32) -> Self {
        if self.state is Loaded {
            let alpha = lowered(self.fade.alpha, amount);
            LevelTransition {
                state: if alpha == 0 {
                    LevelState::Idle
                } else {
                    LevelState::Loaded
                },
                fade: Fade { alpha },
                ..self
            }
        } else {
            self
        }
    }

    /// What the teleport step finds among `gates`: the first entry from the
    /// level left, if a teleport is pending and there is a player.
    pub open spec fn teleport_found<P>(self, has_player: bool, gates: Seq<GateSite<P>>) -> Teleport {
        match self.teleport {
            TeleportState::Idle => Teleport::NotPending,
            TeleportState::Pending(origin) => if !has_player {
                Teleport::NoPlayer
            } else {
                match first_entry(gates, origin) {
                    Some(index) => Teleport::Arrived(index as usize),
                    None => Teleport::NoEntry(origin),
                }
            },
        }
    }

    /// The state after the frame's requests: the first one counts.
    pub open spec fn after_requests(self, requests: Seq<StartTransition>) -> Self {
        if requests.len() > 0 {
            self.after_request(requests[0])
        } else {
            self
        }
    }

    /// The state after the player has been put at an entry gate.
    pub open spec fn after_arrival(self) -> Self {
        LevelTransition { teleport: TeleportState::Idle, game: GameState::InGame, ..self }
    }

    /// The sequencer at the start of a game.
    pub fn new() -> (transition: Self)
        ensures
            transition == Self::initial(),
            transition.wf(),
    {
        LevelTransition {
            state: LevelState::Idle,
            teleport: TeleportState::Idle,
            selection: LevelSelection::Index(0),
            last_level: LastLevelIndex(0),
            fade: Fade { alpha: 0 },
            game: GameState::Loading,
        }
    }

    /// Takes up the first of this frame's requests if no swap is in progress,
    /// and drops the others. Returns whether one was taken up.
    pub fn handle_level_transition_events(&mut self, events: &Vec<StartTransition>) -> (taken: bool)
        ensures
            taken == (old(self).state is Idle && events@.len() > 0),
            *final(self) == old(self).after_requests(events@),
            !taken ==> *final(self) == *old(self),
            old(self).wf() ==> final(self).wf(),
    {
        match self.state {
            LevelState::Idle => {
                if events.len() > 0 {
                    let request = events[0];
                    self.state = LevelState::Requested(request.to);
                    self.last_level = LastLevelIndex(request.from);
                    self.game = GameState::Loading;
                    true
                } else {
                    false
                }
            },
            _ => false,
        }
    }

    /// One frame of fading out. While a swap is requested the fade gains
    /// `delta` nanoseconds' worth of opacity; once it is fully opaque the
    /// level change is announced.
    pub fn start_transition(&mut self, delta: u64, fade: &FadeData) -> (change: Option<LevelChange>)
        ensures
            *final(self) == old(self).after_fade_out(fade_amount(delta, fade.speed)),
            change == final(self).change_due(),
            old(self).wf() ==> final(self).wf() && old(self).fade.alpha <= final(self).fade.alpha,
    {
        match self.state {
            LevelState::Requested(next) => {
                let amount = fade.amount(delta);
                let alpha = self.fade.alpha;
                if alpha >= ALPHA_FULL || amount >= ALPHA_FULL - alpha {
                    self.fade.alpha = ALPHA_FULL;
                } else {
                    self.fade.alpha = alpha + amount;
                }
                if self.fade.alpha == ALPHA_FULL {
                    Some(LevelChange(next))
                } else {
                    None
                }
            },
            _ => None,
        }
    }

    /// Selects the announced level, marks it loaded, and leaves the player
    /// waiting for the entry gate that leads back to the level just left.
    pub fn perform_level_change(&mut self, change: LevelChange)
        ensures
            *final(self) == old(self).after_level_change(change),
            old(self).wf() ==> final(self).wf(),
    {
        self.selection = LevelSelection::Index(change.0);
        self.state = LevelState::Loaded;
        self.teleport = TeleportState::Pending(self.last_level.0);
    }

    /// Puts the player at the first of the newly appeared gates that is an
    /// entry from the level just left. `player` is `None` when there is no
    /// player to move; `gates` are the gates that appeared since the last
    /// call. When no gate matches, the teleport stays pending and the result
    /// names the origin that was looked for.
    pub fn teleport_player_on_level_change<P: Copy>(
        &mut self,
        player: &mut Option<P>,
        gates: &Vec<GateSite<P>>,
    ) -> (found: Teleport)
        ensures
            found == old(self).teleport_found(*old(player) is Some, gates@),
            found matches Teleport::Arrived(index) ==> {
                &&& index < gates@.len()
                &&& gates@[index as int].gate == Gate::Entry(old(self).teleport->Pending_0)
                &&& *final(player) == Some(gates@[index as int].position)
                &&& *final(self) == old(self).after_arrival()
            },
            !(found is Arrived) ==> *final(player) == *old(player) && *final(self) == *old(self),
            old(self).wf() ==> final(self).wf(),
    {
        match self.teleport {
            TeleportState::Idle => Teleport::NotPending,
            TeleportState::Pending(origin) => {
                if player.is_none() {
                    Teleport::NoPlayer
                } else {
                    match crate::gate::find_entry(gates, origin) {
                        Some(index) => {
                            *player = Some(gates[index].position);
                            self.teleport = TeleportState::Idle;
                            self.game = GameState::InGame;
                            Teleport::Arrived(index)
                        },
                        None => Teleport::NoEntry(origin),
                    }
                }
            },
        }
    }

    /// One frame of fading in. While the new level is loaded the fade loses
    /// `delta` nanoseconds' worth of opacity; once it is clear the sequencer
    /// is idle again.
    pub fn end_transition(&mut self, delta: u64, fade: &FadeData)
        ensures
            *final(self) == old(self).after_fade_in(fade_amount(delta, fade.speed)),
            final(self).fade.alpha <= old(self).fade.alpha,
            old(self).wf() ==> final(self).wf(),
    {
        match self.state {
            LevelState::Loaded => {
                let amount = fade.amount(delta);
                let alpha = self.fade.alpha;
                if amount >= alpha {
                    self.fade.alpha = 0;
                    self.state = LevelState::Idle;
                } else {
                    self.fade.alpha = alpha - amount;
                }
            },
            _ => {},
        }
    }
}

/// What one frame of the sequencer did.
#[derive(Clone, Copy, PartialEq, Eq, Structural, Debug)]
pub struct FrameReport {
    /// A request was taken up.
    pub taken: bool,
    /// The fade-out was complete and this level was selected.
    pub change: Option<LevelChange>,
    /// What the teleport step found.
    pub teleport: Teleport,
}

impl LevelTransition {
    /// The level change that is due after a frame of fading out: the
    /// requested level, once the fade is fully opaque.
    pub open spec fn change_due(self) -> Option<LevelChange> {
        match self.state {
            LevelState::Requested(next) => if self.fade.alpha == ALPHA_FULL {
                Some(LevelChange(next))
            } else {
                None
            },
            _ => None,
        }
    }

    /// The state after the level change that is due, if one is.
    pub open spec fn after_change_due(self) -> Self {
        match self.change_due() {
            Some(change) => self.after_level_change(change),
            None => self,
        }
    }

    /// The state after one whole frame. The steps are taken in a fixed
    /// order: the frame's first request, the fade-out, the level change if
    /// it is due, the teleport, the fade-in.
    pub open spec fn after_frame<P>(
        self,
        amount: u32,
        requests: Seq<StartTransition>,
        has_player: bool,
        appeared: Seq<GateSite<P>>,
    ) -> Self {
        let changed = self.after_requests(requests).after_fade_out(amount).after_change_due();
        let arrived = if changed.teleport_found(has_player, appeared) is Arrived {
            changed.after_arrival()
        } else {
            changed
        };
        arrived.after_fade_in(amount)
    }

    /// One whole frame of the sequencer, its steps in the fixed order.
    /// `requests` are the requests of this frame, `player` the player's
    /// position if there is a player, `appeared` the gates that appeared
    /// since the last frame.
    pub fn frame<P: Copy>(
        &mut self,
        fade: &FadeData,
        delta: u64,
        requests: &Vec<StartTransition>,
        player: &mut Option<P>,
        appeared: &Vec<GateSite<P>>,
    ) -> (report: FrameReport)
        ensures
            *final(self) == old(self).after_frame(
                fade_amount(delta, fade.speed),
                requests@,
                *old(player) is Some,
                appeared@,
            ),
            report.taken == (old(self).state is Idle && requests@.len() > 0),
            report.change == old(self).after_requests(requests@).after_fade_out(
                fade_amount(delta, fade.speed),
            ).change_due(),
            report.teleport == old(self).after_requests(requests@).after_fade_out(
                fade_amount(delta, fade.speed),
            ).after_change_due().teleport_found(*old(player) is Some, appeared@),
            report.teleport matches Teleport::Arrived(index) ==> index < appeared@.len()
                && *final(player) == Some(appeared@[index as int].position),
            !(report.teleport is Arrived) ==> *final(player) == *old(player),
            old(self).wf() ==> final(self).wf(),
    {
        let taken = self.handle_level_transition_events(requests);
        let change = self.start_transition(delta, fade);
        if let Some(change) = change {
            self.perform_level_change(change);
        }
        let teleport = self.teleport_player_on_level_change(player, appeared);
        self.end_transition(delta, fade);
        FrameReport { taken, change, teleport }
    }
}

/// The debug key: each press asks for the way 0 → 1 and the way 1 → 0 in
/// turn, beginning with 0 → 1.
pub fn debug_transition(toggle: &mut bool, pressed: bool) -> (request: Option<StartTransition>)
    ensures
        *final(toggle) == (*old(toggle) != pressed),
        request == if !pressed {
            None
        } else if *old(toggle) {
            Some(StartTransition { from: 1, to: 0 })
        } else {
            Some(StartTransition { from: 0, to: 1 })
        },
{
    if pressed {
        let request = if *toggle {
            StartTransition { from: 1, to: 0 }
        } else {
            StartTransition { from: 0, to: 1 }
        };
        *toggle = !*toggle;
        Some(request)
    } else {
        None
    }
}

/// One thing that can happen to the sequencer.
#[derive(Clone, Copy, PartialEq, Eq, Structural, Debug)]
pub enum Step {
    /// A transition is asked for.
    Request(StartTransition),
    /// A frame of fading out by this much.
    FadeOut(u32),
    /// The announced level is selected.
    Change(LevelChange),
    /// The player is put at an entry gate.
    Arrive,
    /// A frame of fading in by this much.
    FadeIn(u32),
}

impl LevelTransition {
    /// The state after `step`.
    pub open spec fn after(self, step: Step) -> Self {
        match step {
            Step::Request(request) => self.after_request(request),
            Step::FadeOut(amount) => self.after_fade_out(amount),
            Step::Change(change) => self.after_level_change(change),
            Step::Arrive => self.after_arrival(),
            Step::FadeIn(amount) => self.after_fade_in(amount),
        }
    }

    /// The state after a run of fade-out frames.
    pub open spec fn after_fade_outs(self, amounts: Seq<u32>) -> Self
        decreases amounts.len(),
    {
        if amounts.len() == 0 {
            self
        } else {
            self.after_fade_outs(amounts.drop_last()).after_fade_out(amounts.last())
        }
    }

    /// The state after a run of fade-in frames.
    pub open spec fn after_fade_ins(self, amounts: Seq<u32>) -> Self
        decreases amounts.len(),
    {
        if amounts.len() == 0 {
            self
        } else {
            self.after_fade_ins(amounts.drop_last()).after_fade_in(amounts.last())
        }
    }

    /// The state after a run of steps.
    pub open spec fn after_all(self, steps: Seq<Step>) -> Self
        decreases steps.len(),
    {
        if steps.len() == 0 {
            self
        } else {
            self.after_all(steps.drop_last()).after(steps.last())
        }
    }
}

/// Single flight: while a swap is requested or loaded, a further request
/// changes nothing, and so leaves the pending target as it is.
pub proof fn lemma_single_flight(transition: LevelTransition, request: StartTransition)
    requires
        transition.state is Requested || transition.state is Loaded,
    ensures
        transition.after_request(request) == transition,
{
}

/// Of two requests in a row the second is dropped, whatever the state was.
pub proof fn lemma_second_request_dropped(
    transition: LevelTransition,
    first: StartTransition,
    second: StartTransition,
)
    ensures
        transition.after_request(first).after_request(second) == transition.after_request(first),
{
}

/// Fading out never lowers the opacity, never passes full opacity, gains
/// ground on every frame that brings some until it is full, and touches
/// nothing but the opacity.
pub proof fn lemma_fade_out_rises(transition: LevelTransition, amount: u32)
    requires
        transition.wf(),
    ensures
        transition.fade.alpha <= transition.after_fade_out(amount).fade.alpha <= ALPHA_FULL,
        transition.state is Requested && amount > 0 && transition.fade.alpha < ALPHA_FULL
            ==> transition.fade.alpha < transition.after_fade_out(amount).fade.alpha,
        transition.after_fade_out(amount) == (LevelTransition {
            fade: transition.after_fade_out(amount).fade,
            ..transition
        }),
{
}

/// Fading in never raises the opacity, loses ground on every frame that
/// takes some until the screen is clear, and ends the swap exactly when it is.
pub proof fn lemma_fade_in_falls(transition: LevelTransition, amount: u32)
    ensures
        transition.after_fade_in(amount).fade.alpha <= transition.fade.alpha,
        transition.state is Loaded && amount > 0 && transition.fade.alpha > 0
            ==> transition.after_fade_in(amount).fade.alpha < transition.fade.alpha,
        transition.state is Loaded ==> (transition.after_fade_in(amount).state is Idle
            <==> transition.after_fade_in(amount).fade.alpha == 0),
{
}

/// Over any run of fade-out frames the opacity at an earlier frame is at most
/// the opacity at a later one, and never more than full.
pub proof fn lemma_fade_out_monotone(
    transition: LevelTransition,
    amounts: Seq<u32>,
    earlier: int,
    later: int,
)
    requires
        transition.wf(),
        0 <= earlier <= later <= amounts.len(),
    ensures
        transition.after_fade_outs(amounts.take(earlier)).fade.alpha
            <= transition.after_fade_outs(amounts.take(later)).fade.alpha <= ALPHA_FULL,
    decreases later,
{
    lemma_fade_outs_keep_wf(transition, amounts.take(later));
    if earlier < later {
        lemma_fade_out_monotone(transition, amounts, earlier, later - 1);
        lemma_fade_outs_keep_wf(transition, amounts.take(later - 1));
        assert(amounts.take(later).drop_last() == amounts.take(later - 1));
    }
}

/// A run of fade-out frames keeps the sequencer well formed.
proof fn lemma_fade_outs_keep_wf(transition: LevelTransition, amounts: Seq<u32>)
    requires
        transition.wf(),
    ensures
        transition.after_fade_outs(amounts).wf(),
    decreases amounts.len(),
{
    if amounts.len() > 0 {
        lemma_fade_outs_keep_wf(transition, amounts.drop_last());
    }
}

/// Over any run of fade-in frames the opacity at an earlier frame is at least
/// the opacity at a later one.
pub proof fn lemma_fade_in_monotone(
    transition: LevelTransition,
    amounts: Seq<u32>,
    earlier: int,
    later: int,
)
    requires
        0 <= earlier <= later <= amounts.len(),
    ensures
        transition.after_fade_ins(amounts.take(later)).fade.alpha <= transition.after_fade_ins(
            amounts.take(earlier),
        ).fade.alpha,
    decreases later,
{
    if earlier < later {
        lemma_fade_in_monotone(transition, amounts, earlier, later - 1);
        assert(amounts.take(later).drop_last() == amounts.take(later - 1));
    }
}

/// The sum of a run of amounts.
pub open spec fn total(amounts: Seq<u32>) -> int
    decreases amounts.len(),
{
    if amounts.len() == 0 {
        0
    } else {
        total(amounts.drop_last()) + amounts.last()
    }
}

/// The fade-out is linear: while a swap is requested, the opacity after a
/// run of frames is the opacity before plus all that the frames brought,
/// capped at full. Nothing else changes.
pub proof fn lemma_fade_out_linear(transition: LevelTransition, amounts: Seq<u32>)
    requires
        transition.wf(),
        transition.state is Requested,
    ensures
        transition.after_fade_outs(amounts).fade.alpha == if transition.fade.alpha + total(amounts)
            >= ALPHA_FULL {
            ALPHA_FULL as int
        } else {
            transition.fade.alpha + total(amounts)
        },
        transition.after_fade_outs(amounts) == (LevelTransition {
            fade: transition.after_fade_outs(amounts).fade,
            ..transition
        }),
    decreases amounts.len(),
{
    if amounts.len() > 0 {
        lemma_fade_out_linear(transition, amounts.drop_last());
    }
}

/// The fade-in is linear: once the new level is loaded, the opacity after a
/// run of frames is the opacity before less all that the frames took,
/// stopping at nothing; the swap is over exactly when nothing is left, and
/// nothing else changes.
pub proof fn lemma_fade_in_linear(transition: LevelTransition, amounts: Seq<u32>)
    requires
        transition.state is Loaded,
        transition.fade.alpha > 0,
    ensures
        transition.after_fade_ins(amounts).fade.alpha == if total(amounts)
            >= transition.fade.alpha {
            0
        } else {
            transition.fade.alpha - total(amounts)
        },
        transition.after_fade_ins(amounts).state == if total(amounts) >= transition.fade.alpha {
            LevelState::Idle
        } else {
            LevelState::Loaded
        },
        transition.after_fade_ins(amounts) == (LevelTransition {
            fade: transition.after_fade_ins(amounts).fade,
            state: transition.after_fade_ins(amounts).state,
            ..transition
        }),
    decreases amounts.len(),
{
    if amounts.len() > 0 {
        lemma_fade_in_linear(transition, amounts.drop_last());
    }
}

/// A whole swap. From rest, a request followed by enough fading out makes
/// the requested level due; selecting it leaves the player waiting for the
/// entry from the level left; and once the player has arrived, enough fading
/// in brings the sequencer back to rest, on the new level, with a clear
/// screen and the game in play.
pub proof fn lemma_whole_swap(
    transition: LevelTransition,
    request: StartTransition,
    out: Seq<u32>,
    back: Seq<u32>,
)
    requires
        transition.wf(),
        transition.state is Idle,
        total(out) >= ALPHA_FULL,
        total(back) >= ALPHA_FULL,
    ensures
        ({
            let opaque = transition.after_request(request).after_fade_outs(out);
            let loaded = opaque.after_change_due();
            let rest = loaded.after_arrival().after_fade_ins(back);
            &&& opaque.state == LevelState::Requested(request.to)
            &&& opaque.fade.alpha == ALPHA_FULL
            &&& opaque.change_due() == Some(LevelChange(request.to))
            &&& loaded.state is Loaded
            &&& loaded.selection == LevelSelection::Index(request.to)
            &&& loaded.teleport == TeleportState::Pending(request.from)
            &&& rest.state is Idle
            &&& rest.fade.alpha == 0
            &&& rest.selection == LevelSelection::Index(request.to)
            &&& rest.teleport is Idle
            &&& rest.game is InGame
            &&& rest.wf()
        }),
{
    let asked = transition.after_request(request);
    lemma_fade_out_linear(asked, out);
    let loaded = asked.after_fade_outs(out).after_change_due();
    lemma_fade_in_linear(loaded.after_arrival(), back);
}

/// Every step keeps the sequencer well formed.
pub proof fn lemma_step_keeps_wf(transition: LevelTransition, step: Step)
    requires
        transition.wf(),
    ensures
        transition.after(step).wf(),
{
}

/// Every state that a run of steps reaches from a well-formed one is well
/// formed; so is every state reached from the start of a game.
pub proof fn lemma_run_keeps_wf(transition: LevelTransition, steps: Seq<Step>)
    requires
        transition.wf(),
    ensures
        transition.after_all(steps).wf(),
        LevelTransition::initial().after_all(steps).wf(),
    decreases steps.len(),
{
    if steps.len() > 0 {
        lemma_run_keeps_wf(transition, steps.drop_last());
        lemma_step_keeps_wf(transition.after_all(steps.drop_last()), steps.last());
        lemma_step_keeps_wf(
            LevelTransition::initial().after_all(steps.drop_last()),
            steps.last(),
        );
    }
}

} // verus!
