//! How the controls look and what they say, as plain values for a user
//! interface to turn into its own.

use vstd::prelude::*;
use crate::machine::RunState;

verus! {

/// A colour by its red, green and blue parts, each in percent of full intensity.
#[derive(Clone, Copy, Debug, PartialEq, Eq, Structural)]
pub struct Rgb {
    pub red: u8,
    pub green: u8,
    pub blue: u8,
}

/// The looks of a button.
#[derive(Clone, Copy, Debug, PartialEq, Eq, Structural)]
pub struct ButtonStyle {
    /// The colour of the button's face.
    pub background: Rgb,
    /// The colour of the button's label.
    pub text_color: Rgb,
    /// The radius of the button's corners.
    pub border_radius: u16,
    /// How far the button's shadow lies to the right of it.
    pub shadow_right: u16,
    /// How far the button's shadow lies below it.
    pub shadow_down: u16,
}

/// The kinds of button.
#[derive(Clone, Copy, Debug, PartialEq, Eq, Structural)]
pub enum Button {
    /// The button for the main action.
    Primary,
    /// A button for a lesser action.
    Secondary,
    /// The button for an action that ends something.
    Destructive,
}

impl Button {
    /// The colour of the face of a button of this kind.
    pub open spec fn face(self) -> Rgb {
        match self {
            Button::Primary => Rgb { red: 11, green: 42, blue: 87 },
            Button::Secondary => Rgb { red: 50, green: 50, blue: 50 },
            Button::Destructive => Rgb { red: 80, green: 20, blue: 20 },
        }
    }

    /// The looks of a button of this kind while it is neither pressed nor
    /// hovered over.
    pub open spec fn active_style(self) -> ButtonStyle {
        ButtonStyle {
            background: self.face(),
            text_color: Rgb { red: 100, green: 100, blue: 100 },
            border_radius: 12,
            shadow_right: 1,
            shadow_down: 1,
        }
    }

    /// The looks of a button of this kind while it is neither pressed nor
    /// hovered over: its own face colour, a white label, round corners and a
    /// small shadow.
    pub fn active(&self) -> (style: ButtonStyle)
        ensures
            style == self.active_style(),
    {
        let background = match self {
            Button::Primary => Rgb { red: 11, green: 42, blue: 87 },
            Button::Secondary => Rgb { red: 50, green: 50, blue: 50 },
            Button::Destructive => Rgb { red: 80, green: 20, blue: 20 },
        };
        ButtonStyle {
            background,
            text_color: Rgb { red: 100, green: 100, blue: 100 },
            border_radius: 12,
            shadow_right: 1,
            shadow_down: 1,
        }
    }
}

/// The kind of the start/stop button: the main action while idle, an ending
/// one while sampling.
pub open spec fn toggle_kind(state: RunState) -> Button {
    match state {
        RunState::Idle => Button::Primary,
        RunState::Ticking => Button::Destructive,
    }
}

/// The label of the start/stop button.
pub open spec fn toggle_text(state: RunState) -> Seq<char> {
    match state {
        RunState::Idle => seq!['S', 't', 'a', 'r', 't'],
        RunState::Ticking => seq!['S', 't', 'o', 'p'],
    }
}

/// The label and the kind of the start/stop button: `Start` as the main
/// action while idle, `Stop` as an ending one while sampling.
pub fn toggle_control(state: RunState) -> (control: (&'static str, Button))
    ensures
        control.0@ == toggle_text(state),
        control.1 == toggle_kind(state),
{
    proof {
        reveal_strlit("Start");
        reveal_strlit("Stop");
    }
    let control = match state {
        RunState::Idle => ("Start", Button::Primary),
        RunState::Ticking => ("Stop", Button::Destructive),
    };
    assert(control.0@ =~= toggle_text(state));
    control
}

} // verus!
