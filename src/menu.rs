//! Menu buttons: their tint and what a click on each one does.
use vstd::prelude::*;

use crate::states::{transition, AppState, StackOp, StateError, StateEvent, StateStack};

verus! {

/// How the pointer relates to a button.
#[derive(Clone, Copy, Debug, PartialEq, Eq, Structural)]
pub enum Interaction {
    Untouched,
    Hovered,
    Clicked,
}

/// The tint of a button.
#[derive(Clone, Copy, Debug, PartialEq, Eq, Structural)]
pub enum ButtonColor {
    Normal,
    Hovered,
    Pressed,
}

/// What a menu button does.
#[derive(Clone, Copy, Debug, PartialEq, Eq, Structural)]
pub enum MenuButtonAction {
    StartOnePlayerGame,
    StartTwoPlayerGame,
    ExitApp,
    ResumeGame,
    QuitGame,
}

/// What became of a button's interaction.
#[derive(Clone, Debug)]
pub enum MenuEffect {
    /// Nothing: the button was not clicked.
    Nothing,
    /// The application is asked to exit.
    Exit,
    /// The state stack changed, with these scene events.
    Changed(Vec<StateEvent>),
}

pub open spec fn color_of(i: Interaction) -> ButtonColor {
    match i {
        Interaction::Untouched => ButtonColor::Normal,
        Interaction::Hovered => ButtonColor::Hovered,
        Interaction::Clicked => ButtonColor::Pressed,
    }
}

/// The stack operation that a click on a button asks for; none for the exit button.
pub open spec fn stack_op_of(a: MenuButtonAction) -> Option<StackOp> {
    match a {
        MenuButtonAction::StartOnePlayerGame => Some(StackOp::Switch(AppState::InOnePlayerGame)),
        MenuButtonAction::StartTwoPlayerGame => Some(StackOp::Switch(AppState::InTwoPlayerGame)),
        MenuButtonAction::ExitApp => None,
        MenuButtonAction::ResumeGame => Some(StackOp::Pop),
        MenuButtonAction::QuitGame => Some(StackOp::Replace(AppState::MainMenu)),
    }
}

/// The tint of a button in the given interaction.
pub fn menu_button_dynamic_colors(i: Interaction) -> (r: ButtonColor)
    ensures
        r == color_of(i),
{
    match i {
        Interaction::Untouched => ButtonColor::Normal,
        Interaction::Hovered => ButtonColor::Hovered,
        Interaction::Clicked => ButtonColor::Pressed,
    }
}

/// Reacts to a change of a button's interaction. Only a click acts: the
/// exit button asks the application to exit, the others change the state
/// stack as [`stack_op_of`] says.
pub fn menu_button_action(
    states: &mut StateStack,
    interaction: Interaction,
    action: MenuButtonAction,
) -> (r: Result<MenuEffect, StateError>)
    requires
        old(states).wf(),
    ensures
        final(states).wf(),
        interaction != Interaction::Clicked ==> final(states)@ == old(states)@ && r matches Ok(
            MenuEffect::Nothing,
        ),
        interaction == Interaction::Clicked ==> match stack_op_of(action) {
            None => final(states)@ == old(states)@ && r matches Ok(MenuEffect::Exit),
            Some(op) => match transition(old(states)@, op) {
                Ok((st, ev)) => final(states)@ == st && (r matches Ok(MenuEffect::Changed(v))
                    && v@ == ev),
                Err(e) => final(states)@ == old(states)@ && r == Err::<MenuEffect, StateError>(e),
            },
        },
{
    if interaction != Interaction::Clicked {
        return Ok(MenuEffect::Nothing);
    }
    let op = match action {
        MenuButtonAction::StartOnePlayerGame => StackOp::Switch(AppState::InOnePlayerGame),
        MenuButtonAction::StartTwoPlayerGame => StackOp::Switch(AppState::InTwoPlayerGame),
        MenuButtonAction::ExitApp => {
            return Ok(MenuEffect::Exit);
        },
        MenuButtonAction::ResumeGame => StackOp::Pop,
        MenuButtonAction::QuitGame => StackOp::Replace(AppState::MainMenu),
    };
    let res = states.apply(op);
    match res {
        Ok(ev) => Ok(MenuEffect::Changed(ev)),
        Err(e) => Err(e),
    }
}

} // verus!
