//! Dialogues: lines that are revealed byte by byte and lead on to one
//! another.

use vstd::prelude::*;
use vstd::utf8::encode_utf8;
use vstd::string::StringSliceAdditionalSpecFns;
use std::collections::HashMap;
use crate::timer::TimerStep;
use crate::state::GameState;

verus! {

broadcast use vstd::std_specs::hash::group_hash_axioms;

/// A thing that can change hands in a dialogue.
#[derive(Clone, Copy, PartialEq, Eq, Structural, Debug)]
pub struct Item;

/// What a line does beside being said.
#[derive(Clone, Copy, PartialEq, Eq, Structural, Debug)]
pub enum DialogueEvent {
    ItemReceived(Item),
    ItemLost(Item),
}

/// What follows a line.
#[derive(Clone, Copy, PartialEq, Eq, Structural, Debug)]
pub enum NextDialogue {
    /// The dialogue is over.
    End,
    /// The node with this number.
    Id(i32),
}

/// One line of a dialogue.
#[derive(Debug)]
pub struct DialogueData {
    pub text: String,
    pub event: Option<DialogueEvent>,
    pub next: NextDialogue,
}

/// One node of a dialogue.
#[derive(Debug)]
pub enum DialogueNode {
    /// Nothing is said.
    Empty,
    /// A line is said.
    Line(DialogueData),
    /// The player picks one of several lines.
    Choice(Vec<DialogueData>),
}

/// How many bytes of the current line are on screen.
#[derive(Clone, Copy, PartialEq, Eq, Structural, Debug)]
pub struct DialogueProgress(pub usize);

/// What to do with the timer that reveals the text.
#[derive(Clone, Copy, PartialEq, Eq, Structural, Debug)]
pub enum TimerSwitch {
    /// Leave it as it is.
    Keep,
    /// Hold it.
    Pause,
    /// Start it over and let it run.
    Restart,
}

/// Length of a text in bytes.
pub open spec fn byte_len(text: Seq<char>) -> usize {
    encode_utf8(text).len() as usize
}

/// The line that is being said, if one is.
pub open spec fn line_at(dialogues: Map<i32, DialogueNode>, current: Option<i32>) -> Option<
    DialogueData,
> {
    match current {
        Some(id) => if dialogues.contains_key(id) {
            match dialogues[id] {
                DialogueNode::Line(data) => Some(data),
                _ => None,
            }
        } else {
            None
        },
        None => None,
    }
}

/// The node that follows a line: the one it names, if there is such a node.
pub open spec fn follow(dialogues: Map<i32, DialogueNode>, next: NextDialogue) -> Option<i32> {
    match next {
        NextDialogue::Id(id) => if dialogues.contains_key(id) {
            Some(id)
        } else {
            None
        },
        NextDialogue::End => None,
    }
}

/// Whether anything is being said: the current node exists and is not empty.
pub open spec fn speaking(dialogues: Map<i32, DialogueNode>, current: Option<i32>) -> bool {
    match current {
        Some(id) => dialogues.contains_key(id) && !(dialogues[id] is Empty),
        None => false,
    }
}

/// The node a game opens with: number 0, if there is one.
pub fn add_dummy_dialogue(dialogues: &HashMap<i32, DialogueNode>) -> (current: Option<i32>)
    ensures
        current == follow(dialogues@, NextDialogue::Id(0)),
{
    if dialogues.contains_key(&0) {
        Some(0)
    } else {
        None
    }
}

/// The line that is being said, if one is.
fn current_line<'a>(dialogues: &'a HashMap<i32, DialogueNode>, current: &Option<i32>) -> (line:
    Option<&'a DialogueData>)
    ensures
        match line {
            Some(data) => line_at(dialogues@, *current) == Some(*data),
            None => line_at(dialogues@, *current) is None,
        },
{
    match current {
        Some(id) => match dialogues.get(id) {
            Some(DialogueNode::Line(data)) => Some(data),
            _ => None,
        },
        None => None,
    }
}

/// The advance key. While a line is being said, letting go of the key first
/// brings the whole line on screen, and once it is, moves to the node that
/// follows, with nothing of it on screen yet.
pub fn step_through_dialogue(
    progress: &mut DialogueProgress,
    current: &mut Option<i32>,
    dialogues: &HashMap<i32, DialogueNode>,
    released: bool,
)
    ensures
        match line_at(dialogues@, *old(current)) {
            Some(data) => if !released {
                *final(progress) == *old(progress) && *final(current) == *old(current)
            } else if old(progress).0 < byte_len(data.text@) {
                final(progress).0 == byte_len(data.text@) && *final(current) == *old(current)
            } else {
                final(progress).0 == 0 && *final(current) == follow(dialogues@, data.next)
            },
            None => *final(progress) == *old(progress) && *final(current) == *old(current),
        },
{
    if !released {
        return ;
    }
    let (length, next) = match current_line(dialogues, current) {
        Some(data) => (data.text.as_str().len(), data.next),
        None => {
            return ;
        },
    };
    if progress.0 < length {
        progress.0 = length;
    } else {
        *current = match next {
            NextDialogue::End => None,
            NextDialogue::Id(id) => {
                if dialogues.contains_key(&id) {
                    Some(id)
                } else {
                    None
                }
            },
        };
        progress.0 = 0;
    }
}

/// One more byte of the line comes on screen each time the timer fires,
/// until the whole line is there.
pub fn animate_dialogue_text(
    progress: &mut DialogueProgress,
    current: &Option<i32>,
    dialogues: &HashMap<i32, DialogueNode>,
    timer_finished: bool,
)
    ensures
        final(progress).0 == match line_at(dialogues@, *current) {
            Some(data) => if timer_finished && old(progress).0 < byte_len(data.text@) {
                (old(progress).0 + 1) as usize
            } else {
                old(progress).0
            },
            None => old(progress).0,
        },
{
    if let Some(data) = current_line(dialogues, current) {
        if timer_finished && progress.0 < data.text.as_str().len() {
            progress.0 = progress.0 + 1;
        }
    }
}

/// Whether anything is being said.
fn is_speaking(dialogues: &HashMap<i32, DialogueNode>, current: &Option<i32>) -> (speaks: bool)
    ensures
        speaks == speaking(dialogues@, *current),
{
    match current {
        Some(id) => match dialogues.get(id) {
            Some(DialogueNode::Empty) => false,
            Some(_) => true,
            None => false,
        },
        None => false,
    }
}

/// When the dialogue has changed, the game is in a menu while something is
/// being said and back in play when nothing is.
pub fn set_game_state_on_dialogue_change(
    changed: bool,
    current: &Option<i32>,
    dialogues: &HashMap<i32, DialogueNode>,
    state: &mut GameState,
)
    ensures
        *final(state) == if !changed {
            *old(state)
        } else if speaking(dialogues@, *current) {
            GameState::UI
        } else {
            GameState::InGame
        },
{
    if changed {
        *state = if is_speaking(dialogues, current) {
            GameState::UI
        } else {
            GameState::InGame
        };
    }
}

/// When the dialogue has changed, the reveal timer starts over while
/// something is being said and is held when nothing is.
pub fn set_timer_state_on_dialogue_change(
    changed: bool,
    current: &Option<i32>,
    dialogues: &HashMap<i32, DialogueNode>,
) -> (switch: TimerSwitch)
    ensures
        switch == if !changed {
            TimerSwitch::Keep
        } else if speaking(dialogues@, *current) {
            TimerSwitch::Restart
        } else {
            TimerSwitch::Pause
        },
{
    if !changed {
        TimerSwitch::Keep
    } else if is_speaking(dialogues, current) {
        TimerSwitch::Restart
    } else {
        TimerSwitch::Pause
    }
}

/// One frame of the reveal timer: it starts over when it has fired and runs
/// on otherwise.
pub fn tick_dialogue_timer(timer_finished: bool) -> (step: TimerStep)
    ensures
        step == TimerStep::of(timer_finished),
{
    TimerStep::poll(timer_finished)
}

/// The part of a line that is on screen: its first `progress` bytes, where
/// that many bytes end on a whole character, and nothing otherwise.
pub fn shown_text<'a>(text: &'a str, progress: &DialogueProgress) -> (shown: Option<&'a str>)
    ensures
        shown is Some <==> vstd::utf8::is_char_boundary(text.spec_bytes(), progress.0 as int),
        shown matches Some(part) ==> part.spec_bytes() == text.spec_bytes().subrange(
            0,
            progress.0 as int,
        ),
{
    if text.is_char_boundary(progress.0) {
        let (part, _) = text.split_at(progress.0);
        Some(part)
    } else {
        None
    }
}

} // verus!
