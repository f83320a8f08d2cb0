//! The discrete events that a recording holds, and how each is worded.

use vstd::prelude::*;
use vstd::string::*;
use crate::geometry::Position;
use crate::text::{push_signed_decimal, signed_decimal};

verus! {

/// The three classes of event.
#[derive(Clone, Copy, Debug, PartialEq, Eq, Structural)]
pub enum EventKind {
    MouseMoved,
    MouseClicked,
    KeyPressed,
}

/// One detected input event.
#[derive(Clone, Debug, PartialEq, Eq)]
pub enum InputEvent {
    /// The cursor went from `from` to `to`. `inside_window` tells whether
    /// `to` lies in the host window, when the window's rectangle was known.
    MouseMoved { from: Position, to: Position, inside_window: Option<bool> },
    /// The set of held mouse buttons changed and is not empty. `buttons`
    /// holds the level of every button after the change.
    MouseClicked { buttons: Vec<bool> },
    /// The key named `key` went down.
    KeyPressed { key: String },
}

/// The mathematical content of an [`InputEvent`].
pub enum InputEventView {
    MouseMoved { from: Position, to: Position, inside_window: Option<bool> },
    MouseClicked { buttons: Seq<bool> },
    KeyPressed { key: Seq<char> },
}

impl View for InputEvent {
    type V = InputEventView;

    open spec fn view(&self) -> InputEventView {
        match self {
            InputEvent::MouseMoved { from, to, inside_window } => InputEventView::MouseMoved {
                from: *from,
                to: *to,
                inside_window: *inside_window,
            },
            InputEvent::MouseClicked { buttons } => InputEventView::MouseClicked {
                buttons: buttons@,
            },
            InputEvent::KeyPressed { key } => InputEventView::KeyPressed { key: key@ },
        }
    }
}

/// The wording of a position: `(x, y)`.
pub open spec fn position_text(p: Position) -> Seq<char> {
    "("@ + signed_decimal(p.x as int) + ", "@ + signed_decimal(p.y as int) + ")"@
}

/// The wording of one button level.
pub open spec fn level_text(level: bool) -> Seq<char> {
    if level {
        "true"@
    } else {
        "false"@
    }
}

/// The wording of the levels one after another, separated by `, `.
pub open spec fn levels_listing(levels: Seq<bool>) -> Seq<char>
    decreases levels.len(),
{
    if levels.len() == 0 {
        Seq::empty()
    } else if levels.len() == 1 {
        level_text(levels[0])
    } else {
        levels_listing(levels.drop_last()) + ", "@ + level_text(levels.last())
    }
}

/// The wording of a list of button levels: `[false, true]`, or `[]` for
/// the empty list.
pub open spec fn levels_text(levels: Seq<bool>) -> Seq<char> {
    "["@ + levels_listing(levels) + "]"@
}

/// The note that follows a move when the window's rectangle was known.
pub open spec fn window_note(inside_window: Option<bool>) -> Seq<char> {
    match inside_window {
        Some(true) => " (inside window)"@,
        Some(false) => " (outside window)"@,
        None => Seq::empty(),
    }
}

impl InputEventView {
    /// The class of the event.
    pub open spec fn kind(self) -> EventKind {
        match self {
            InputEventView::MouseMoved { .. } => EventKind::MouseMoved,
            InputEventView::MouseClicked { .. } => EventKind::MouseClicked,
            InputEventView::KeyPressed { .. } => EventKind::KeyPressed,
        }
    }

    /// The text under which the event is logged.
    pub open spec fn description(self) -> Seq<char> {
        match self {
            InputEventView::MouseMoved { from, to, inside_window } => "Mouse moved from "@
                + position_text(from) + " to "@ + position_text(to) + window_note(inside_window),
            InputEventView::MouseClicked { buttons } => "Mouse clicked: "@ + levels_text(buttons),
            InputEventView::KeyPressed { key } => "Key pressed: "@ + key,
        }
    }
}

fn push_position(out: &mut String, p: Position)
    ensures
        final(out)@ == old(out)@ + position_text(p),
{
    out.append("(");
    push_signed_decimal(out, p.x);
    out.append(", ");
    push_signed_decimal(out, p.y);
    out.append(")");
    assert(out@ =~= old(out)@ + position_text(p));
}

fn push_levels(out: &mut String, levels: &Vec<bool>)
    ensures
        final(out)@ == old(out)@ + levels_text(levels@),
{
    out.append("[");
    let mut i: usize = 0;
    while i < levels.len()
        invariant
            i <= levels.len(),
            out@ == old(out)@ + "["@ + levels_listing(levels@.take(i as int)),
        decreases levels.len() - i,
    {
        assert(levels@.take(i + 1).drop_last() =~= levels@.take(i as int));
        if i > 0 {
            out.append(", ");
        }
        if levels[i] {
            out.append("true");
        } else {
            out.append("false");
        }
        i += 1;
        assert(out@ =~= old(out)@ + "["@ + levels_listing(levels@.take(i as int)));
    }
    assert(levels@.take(levels.len() as int) =~= levels@);
    out.append("]");
    assert(out@ =~= old(out)@ + levels_text(levels@));
}

impl InputEvent {
    /// The class of the event.
    pub fn kind(&self) -> (kind: EventKind)
        ensures
            kind == self@.kind(),
    {
        match self {
            InputEvent::MouseMoved { .. } => EventKind::MouseMoved,
            InputEvent::MouseClicked { .. } => EventKind::MouseClicked,
            InputEvent::KeyPressed { .. } => EventKind::KeyPressed,
        }
    }

    /// The text under which the event is logged:
    /// `Mouse moved from (0, 0) to (3, -4) (inside window)`,
    /// `Mouse clicked: [false, true]` or `Key pressed: A`.
    pub fn description(&self) -> (text: String)
        ensures
            text@ == self@.description(),
    {
        let mut text = String::new();
        match self {
            InputEvent::MouseMoved { from, to, inside_window } => {
                text.append("Mouse moved from ");
                push_position(&mut text, *from);
                text.append(" to ");
                push_position(&mut text, *to);
                match inside_window {
                    Some(true) => {
                        text.append(" (inside window)");
                    },
                    Some(false) => {
                        text.append(" (outside window)");
                    },
                    None => {},
                }
            },
            InputEvent::MouseClicked { buttons } => {
                text.append("Mouse clicked: ");
                push_levels(&mut text, buttons);
            },
            InputEvent::KeyPressed { key } => {
                text.append("Key pressed: ");
                text.append(key.as_str());
            },
        }
        assert(text@ =~= self@.description());
        text
    }
}

} // verus!
