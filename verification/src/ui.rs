//! Buttons and the cursor.

use vstd::prelude::*;
use crate::state::GameState;

verus! {

/// What the pointer does to a button.
#[derive(Clone, Copy, PartialEq, Eq, Structural, Debug)]
pub enum Interaction {
    Clicked,
    Hovered,
    /// The pointer is elsewhere.
    Away,
}

/// What a button stands for.
#[derive(Clone, Copy, PartialEq, Eq, Structural, Debug)]
pub enum Action {
    GameStart,
    GameQuit,
    OptionsOpen,
    OptionsClose,
    RaiseVolumeBGM,
    LowerVolumeBGM,
    RaiseVolumeSFX,
    LowerVolumeSFX,
}

/// A button together with the interaction it was last seen in.
#[derive(Clone, Copy, PartialEq, Eq, Structural, Debug)]
pub struct ActionButton {
    pub action: Action,
    pub last: Interaction,
}

/// What the cursor looks like.
#[derive(Clone, Copy, PartialEq, Eq, Structural, Debug)]
pub enum Icon {
    Idle,
    Examine,
    Talk,
}

/// What can be done with the thing under the cursor.
#[derive(Clone, Copy, PartialEq, Eq, Structural, Debug)]
pub enum InteractableKind {
    Examine,
    Talk,
}

impl Icon {
    /// The frame of the cursor sheet that shows this icon.
    pub open spec fn frame(self) -> usize {
        match self {
            Icon::Idle => 0,
            Icon::Examine => 1,
            Icon::Talk => 2,
        }
    }

    /// The frame of the cursor sheet that shows this icon.
    pub fn change_cursor_icon(&self) -> (index: usize)
        ensures
            index == self.frame(),
    {
        match self {
            Icon::Idle => 0,
            Icon::Examine => 1,
            Icon::Talk => 2,
        }
    }

    /// The icon for a thing that can be interacted with.
    pub fn for_interactable(kind: &InteractableKind) -> (icon: Self)
        ensures
            icon == match *kind {
                InteractableKind::Examine => Icon::Examine,
                InteractableKind::Talk => Icon::Talk,
            },
    {
        match kind {
            InteractableKind::Examine => Icon::Examine,
            InteractableKind::Talk => Icon::Talk,
        }
    }
}

impl Default for Icon {
    fn default() -> (icon: Self)
        ensures
            icon == Icon::Idle,
    {
        Icon::Idle
    }
}

/// The actions of the buttons that were let go of over themselves: clicked
/// when last seen and hovered now. `buttons` pairs each button with its
/// interaction now.
pub open spec fn released(buttons: Seq<(ActionButton, Interaction)>) -> Seq<Action>
    decreases buttons.len(),
{
    if buttons.len() == 0 {
        Seq::empty()
    } else {
        let earlier = released(buttons.drop_last());
        let (button, now) = buttons.last();
        if button.last == Interaction::Clicked && now == Interaction::Hovered {
            earlier.push(button.action)
        } else {
            earlier
        }
    }
}

/// Collects the actions of the buttons that were let go of this frame.
pub fn fire_button_release_events(buttons: &Vec<(ActionButton, Interaction)>) -> (actions: Vec<
    Action,
>)
    ensures
        actions@ == released(buttons@),
{
    let mut actions: Vec<Action> = Vec::new();
    let mut i: usize = 0;
    while i < buttons.len()
        invariant
            i <= buttons@.len(),
            actions@ == released(buttons@.take(i as int)),
        decreases buttons@.len() - i,
    {
        let (button, now) = buttons[i];
        proof {
            assert(buttons@.take(i + 1).drop_last() == buttons@.take(i as int));
            assert(buttons@.take(i + 1).last() == (button, now));
        }
        if button.last == Interaction::Clicked && now == Interaction::Hovered {
            actions.push(button.action);
        }
        i += 1;
    }
    proof {
        assert(buttons@.take(buttons@.len() as int) == buttons@);
    }
    actions
}

/// The system pointer is shown in menus only, and the drawn cursor
/// everywhere else.
pub fn set_cursor_visual_mode(state: &GameState) -> (shown: (bool, bool))
    ensures
        shown.0 == (*state is UI),
        shown.1 == !(*state is UI),
{
    match state {
        GameState::UI => (true, false),
        _ => (false, true),
    }
}

/// Whether `wanted` is among the actions fired this frame.
pub fn fired(actions: &Vec<Action>, wanted: Action) -> (found: bool)
    ensures
        found == actions@.contains(wanted),
{
    let mut i: usize = 0;
    while i < actions.len()
        invariant
            i <= actions@.len(),
            forall|j: int| 0 <= j < i ==> actions@[j] != wanted,
        decreases actions@.len() - i,
    {
        if actions[i] == wanted {
            return true;
        }
        i += 1;
    }
    false
}

} // verus!
