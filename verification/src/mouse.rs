//! Pointer events: what they do to the selection, and what they ask of
//! the host.

use vstd::prelude::*;
use crate::cell::HyperlinkId;
use crate::keys::KeyModifiers;
use crate::screen::{Screen, ScreenView, SelectionCoordinate, SelectionRange, VisibleRowIndex};

verus! {

/// The buttons of the pointer. A move is reported with `NoButton`.
#[derive(Debug, Clone, Copy, PartialEq, Eq, Structural)]
pub enum MouseButton {
    Left,
    Right,
    Middle,
    NoButton,
}

/// What the pointer did.
#[derive(Debug, Clone, Copy, PartialEq, Eq, Structural)]
pub enum MouseEventKind {
    Press,
    Release,
    Move,
}

/// A pointer event, with the cell of the visible screen it happened over.
#[derive(Debug, Clone, Copy, PartialEq, Eq, Structural)]
pub struct MouseEvent {
    pub kind: MouseEventKind,
    pub x: usize,
    pub y: VisibleRowIndex,
    pub button: MouseButton,
    pub modifiers: KeyModifiers,
}

/// The press that a click streak is counted from.
#[derive(Debug, Clone, Copy, PartialEq, Eq, Structural)]
pub struct Click {
    pub button: MouseButton,
    /// When the button was pressed, in milliseconds on the host's clock.
    pub time: u64,
    /// 1 for a single click, 2 for a double click, 3 for a triple click
    /// and all that follow it.
    pub streak: u8,
}

/// Something the host is asked to do after a pointer event.
#[derive(Debug, Clone, PartialEq, Eq)]
pub enum HostAction {
    /// Put the text on the clipboard.
    SetClipboard(String),
    /// Follow the hyperlink with this index in the terminal's table.
    ClickLink(HyperlinkId),
}

/// What a `HostAction` holds.
pub enum HostActionView {
    SetClipboard(Seq<char>),
    ClickLink(HyperlinkId),
}

impl View for HostAction {
    type V = HostActionView;

    open spec fn view(&self) -> HostActionView {
        match *self {
            HostAction::SetClipboard(text) => HostActionView::SetClipboard(text@),
            HostAction::ClickLink(link) => HostActionView::ClickLink(link),
        }
    }
}

/// The views of a run of host actions.
pub open spec fn actions_view(actions: Seq<HostAction>) -> Seq<HostActionView> {
    Seq::new(actions.len(), |i: int| actions[i]@)
}

/// Two presses of one button count as one streak if they are no more
/// than this many milliseconds apart.
pub const CLICK_INTERVAL: u64 = 500;

/// The streak that a press of `button` at the time `now` has after the
/// press `last`: one more than that of `last`, up to three, if `last` was
/// a press of the same button no more than `CLICK_INTERVAL` before, and
/// one otherwise.
pub open spec fn click_streak(last: Option<Click>, button: MouseButton, now: u64) -> u8 {
    match last {
        Some(click) => if click.button == button && click.time <= now && now - click.time
            <= CLICK_INTERVAL {
            if click.streak >= 3 {
                3u8
            } else {
                (click.streak + 1) as u8
            }
        } else {
            1u8
        },
        None => 1u8,
    }
}

/// What the terminal remembers of the pointer.
#[derive(Debug, Clone, Copy, PartialEq, Eq, Structural)]
pub struct MouseState {
    /// The button that is held down, or `NoButton`.
    pub current_button: MouseButton,
    /// The last press.
    pub last_click: Option<Click>,
    /// Where the left button was pressed last.
    pub selection_start: Option<SelectionCoordinate>,
    /// What a drag with the left button has selected since.
    pub selection: Option<SelectionRange>,
}

impl MouseState {
    /// No button held, no click seen, nothing selected.
    pub open spec fn idle() -> MouseState {
        MouseState {
            current_button: MouseButton::NoButton,
            last_click: None,
            selection_start: None,
            selection: None,
        }
    }

    /// The state after the pointer event `event` at the time `now`.
    ///
    /// A press starts or continues a click streak; a press of the left
    /// button also drops the selection and marks where a new one would
    /// start. A move while the left button is held extends the selection
    /// from there to the cell under the pointer. A release lets go of the
    /// button.
    pub open spec fn after(self, event: MouseEvent, now: u64) -> MouseState {
        match event.kind {
            MouseEventKind::Press => {
                let click = Click {
                    button: event.button,
                    time: now,
                    streak: click_streak(self.last_click, event.button, now),
                };
                if event.button == MouseButton::Left {
                    MouseState {
                        current_button: event.button,
                        last_click: Some(click),
                        selection_start: Some(SelectionCoordinate { x: event.x, y: event.y }),
                        selection: None,
                    }
                } else {
                    MouseState { current_button: event.button, last_click: Some(click), ..self }
                }
            },
            MouseEventKind::Move => match self.selection_start {
                Some(start) => if self.current_button == MouseButton::Left {
                    MouseState {
                        selection: Some(
                            SelectionRange {
                                start,
                                end: SelectionCoordinate { x: event.x, y: event.y },
                            },
                        ),
                        ..self
                    }
                } else {
                    self
                },
                None => self,
            },
            MouseEventKind::Release => MouseState { current_button: MouseButton::NoButton, ..self },
        }
    }

    /// Whether the last press was a single click.
    pub open spec fn single_click(self) -> bool {
        match self.last_click {
            Some(click) => click.streak == 1,
            None => false,
        }
    }

    /// What the host is asked to do on the pointer event `event` over the
    /// screen `screen`: on the release of the left button, to put the
    /// selected text on the clipboard, or, where nothing is selected and
    /// a single click ends over a linked cell, to follow that link. All
    /// other events ask for nothing.
    pub open spec fn requests(self, event: MouseEvent, screen: ScreenView) -> Seq<HostActionView> {
        if event.kind == MouseEventKind::Release && event.button == MouseButton::Left {
            match self.selection {
                Some(range) => seq![HostActionView::SetClipboard(screen.selection_text(range))],
                None => match screen.hyperlink_at(event.x as int, event.y as int) {
                    Some(link) => if self.single_click() {
                        seq![HostActionView::ClickLink(link)]
                    } else {
                        Seq::empty()
                    },
                    None => Seq::empty(),
                },
            }
        } else {
            Seq::empty()
        }
    }

    /// No button held, no click seen, nothing selected.
    pub fn new() -> (state: MouseState)
        ensures
            state == MouseState::idle(),
    {
        MouseState {
            current_button: MouseButton::NoButton,
            last_click: None,
            selection_start: None,
            selection: None,
        }
    }

    /// The streak of a press of `button` at the time `now`.
    pub fn streak_of(&self, button: MouseButton, now: u64) -> (streak: u8)
        ensures
            streak == click_streak(self.last_click, button, now),
    {
        match self.last_click {
            Some(click) => {
                if click.button == button && click.time <= now && now - click.time
                    <= CLICK_INTERVAL {
                    if click.streak >= 3 {
                        3
                    } else {
                        click.streak + 1
                    }
                } else {
                    1
                }
            },
            None => 1,
        }
    }

    /// Take note of the pointer event `event`, which the host saw at the
    /// time `now` on its clock, and say what the host is to do about it.
    pub fn handle(&mut self, event: MouseEvent, now: u64, screen: &Screen) -> (actions: Vec<
        HostAction,
    >)
        requires
            screen@.wf(),
        ensures
            *final(self) == old(self).after(event, now),
            actions_view(actions@) == old(self).requests(event, screen@),
    {
        let mut actions: Vec<HostAction> = Vec::new();
        match event.kind {
            MouseEventKind::Press => {
                let streak = self.streak_of(event.button, now);
                self.last_click = Some(Click { button: event.button, time: now, streak });
                self.current_button = event.button;
                if event.button == MouseButton::Left {
                    self.selection_start = Some(SelectionCoordinate { x: event.x, y: event.y });
                    self.selection = None;
                }
            },
            MouseEventKind::Move => {
                match self.selection_start {
                    Some(start) => {
                        if self.current_button == MouseButton::Left {
                            self.selection = Some(
                                SelectionRange {
                                    start,
                                    end: SelectionCoordinate { x: event.x, y: event.y },
                                },
                            );
                        }
                    },
                    None => {},
                }
            },
            MouseEventKind::Release => {
                if event.button == MouseButton::Left {
                    match self.selection {
                        Some(range) => {
                            actions.push(HostAction::SetClipboard(screen.selection_text(&range)));
                        },
                        None => {
                            match screen.hyperlink_at(event.x, event.y) {
                                Some(link) => {
                                    let single = match self.last_click {
                                        Some(click) => click.streak == 1,
                                        None => false,
                                    };
                                    if single {
                                        actions.push(HostAction::ClickLink(link));
                                    }
                                },
                                None => {},
                            }
                        },
                    }
                }
                self.current_button = MouseButton::NoButton;
            },
        }
        assert(actions_view(actions@) =~= old(self).requests(event, screen@));
        actions
    }
}

} // verus!
