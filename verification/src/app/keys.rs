//! Routing of keys: the active mode alone decides what a key means.

use vstd::prelude::*;
use crate::app::fetch::Request;
use crate::app::modal::Mode;
use crate::app::session::App;

verus! {

/// A key as the session sees it.
#[derive(Clone, Copy, PartialEq, Eq, Structural, Debug)]
pub enum Key {
    Char(char),
    Esc,
    Enter,
    Up,
    Down,
    /// Any other key.
    Other,
}

/// What a key asks of the session.
#[derive(Clone, Copy, PartialEq, Eq, Structural, Debug)]
pub enum Command {
    /// Leave the program.
    Quit,
    /// Go back from the quit confirmation to the mode below it.
    DenyQuit,
    /// Open the quit confirmation.
    AskQuit,
    CloseDetail,
    ScrollDown,
    ScrollUp,
    /// Open or close the service picker.
    TogglePicker,
    PickerNext,
    PickerPrevious,
    /// Switch to the service under the picker's cursor.
    PickerCommit,
    ToggleFavorite,
    ShowDetails,
    Refresh,
    NextRow,
    PreviousRow,
    /// Activate the row under the cursor.
    Activate,
    /// The key means nothing in this mode.
    Nothing,
}

/// What the driver has to do after a key was handled.
pub enum Effect {
    /// Go on with the next key.
    Continue,
    /// End the program.
    Quit,
    /// Perform this backend call and hand its outcome to the session.
    Fetch(Request),
}

/// `key` is the letter `lower`, in either case.
pub open spec fn is_letter(key: Key, lower: char, upper: char) -> bool {
    key == Key::Char(lower) || key == Key::Char(upper)
}

/// Moving down: the arrow or `j`.
pub open spec fn is_down(key: Key) -> bool {
    key == Key::Down || key == Key::Char('j')
}

/// Moving up: the arrow or `k`.
pub open spec fn is_up(key: Key) -> bool {
    key == Key::Up || key == Key::Char('k')
}

/// The meaning of `key` in `mode`.
///
/// The quit confirmation takes yes and no only. Every other mode opens the
/// quit confirmation on `q`. The detail pane closes and scrolls; the service
/// picker closes, moves its cursor, commits and toggles favorites; the main
/// view opens the picker, asks for details, refreshes, moves the cursor and
/// activates.
pub open spec fn meaning(mode: Mode, key: Key) -> Command {
    match mode {
        Mode::QuitConfirm => if is_letter(key, 'y', 'Y') {
            Command::Quit
        } else if is_letter(key, 'n', 'N') || key == Key::Esc {
            Command::DenyQuit
        } else {
            Command::Nothing
        },
        Mode::DetailView => if key == Key::Esc || is_letter(key, 'i', 'I') {
            Command::CloseDetail
        } else if is_down(key) {
            Command::ScrollDown
        } else if is_up(key) {
            Command::ScrollUp
        } else if is_letter(key, 'q', 'Q') {
            Command::AskQuit
        } else {
            Command::Nothing
        },
        Mode::ServicePicker(_) => if key == Key::Esc || key == Key::Char(' ') {
            Command::TogglePicker
        } else if is_down(key) {
            Command::PickerNext
        } else if is_up(key) {
            Command::PickerPrevious
        } else if key == Key::Enter {
            Command::PickerCommit
        } else if is_letter(key, 'f', 'F') {
            Command::ToggleFavorite
        } else if is_letter(key, 'q', 'Q') {
            Command::AskQuit
        } else {
            Command::Nothing
        },
        Mode::Normal => if is_letter(key, 'q', 'Q') {
            Command::AskQuit
        } else if key == Key::Char(' ') {
            Command::TogglePicker
        } else if is_letter(key, 'i', 'I') {
            Command::ShowDetails
        } else if is_letter(key, 'r', 'R') {
            Command::Refresh
        } else if is_down(key) {
            Command::NextRow
        } else if is_up(key) {
            Command::PreviousRow
        } else if key == Key::Enter {
            Command::Activate
        } else {
            Command::Nothing
        },
    }
}

fn letter(key: Key, lower: char, upper: char) -> (b: bool)
    ensures
        b == is_letter(key, lower, upper),
{
    match key {
        Key::Char(c) => c == lower || c == upper,
        _ => false,
    }
}

fn down(key: Key) -> (b: bool)
    ensures
        b == is_down(key),
{
    match key {
        Key::Down => true,
        Key::Char(c) => c == 'j',
        _ => false,
    }
}

fn up(key: Key) -> (b: bool)
    ensures
        b == is_up(key),
{
    match key {
        Key::Up => true,
        Key::Char(c) => c == 'k',
        _ => false,
    }
}

fn esc(key: Key) -> (b: bool)
    ensures
        b == (key == Key::Esc),
{
    matches!(key, Key::Esc)
}

fn enter(key: Key) -> (b: bool)
    ensures
        b == (key == Key::Enter),
{
    matches!(key, Key::Enter)
}

fn space(key: Key) -> (b: bool)
    ensures
        b == (key == Key::Char(' ')),
{
    match key {
        Key::Char(c) => c == ' ',
        _ => false,
    }
}

/// The meaning of `key` in `mode`.
pub fn command_for(mode: Mode, key: Key) -> (command: Command)
    ensures
        command == meaning(mode, key),
{
    match mode {
        Mode::QuitConfirm => {
            if letter(key, 'y', 'Y') {
                Command::Quit
            } else if letter(key, 'n', 'N') || esc(key) {
                Command::DenyQuit
            } else {
                Command::Nothing
            }
        },
        Mode::DetailView => {
            if esc(key) || letter(key, 'i', 'I') {
                Command::CloseDetail
            } else if down(key) {
                Command::ScrollDown
            } else if up(key) {
                Command::ScrollUp
            } else if letter(key, 'q', 'Q') {
                Command::AskQuit
            } else {
                Command::Nothing
            }
        },
        Mode::ServicePicker(_) => {
            if esc(key) || space(key) {
                Command::TogglePicker
            } else if down(key) {
                Command::PickerNext
            } else if up(key) {
                Command::PickerPrevious
            } else if enter(key) {
                Command::PickerCommit
            } else if letter(key, 'f', 'F') {
                Command::ToggleFavorite
            } else if letter(key, 'q', 'Q') {
                Command::AskQuit
            } else {
                Command::Nothing
            }
        },
        Mode::Normal => {
            if letter(key, 'q', 'Q') {
                Command::AskQuit
            } else if space(key) {
                Command::TogglePicker
            } else if letter(key, 'i', 'I') {
                Command::ShowDetails
            } else if letter(key, 'r', 'R') {
                Command::Refresh
            } else if down(key) {
                Command::NextRow
            } else if up(key) {
                Command::PreviousRow
            } else if enter(key) {
                Command::Activate
            } else {
                Command::Nothing
            }
        },
    }
}

impl App {
    /// `after` and `effect` are what carrying out `command` makes of
    /// `self`: each command is one operation of the session, and only
    /// refreshing, asking for details and activating a row can ask for a
    /// backend call.
    pub open spec fn carried_out(&self, command: Command, after: &App, effect: Effect) -> bool {
        match command {
            Command::Quit => effect is Quit && *after == *self,
            Command::Nothing => effect is Continue && *after == *self,
            Command::Refresh => match effect {
                Effect::Fetch(Request::List(r)) => self.refresh_started(after, Some(r)),
                Effect::Continue => self.refresh_started(after, None),
                _ => false,
            },
            Command::ShowDetails => match effect {
                Effect::Fetch(Request::Detail(r)) => self.details_requested(after, Some(r)),
                Effect::Continue => self.details_requested(after, None),
                _ => false,
            },
            Command::Activate => match effect {
                Effect::Fetch(r) => self.activated(after, Some(r)),
                Effect::Continue => self.activated(after, None),
                _ => false,
            },
            _ => effect is Continue && self.changed_by(command, after),
        }
    }

    /// `after` is `self` after a command that asks nothing of the backend.
    pub open spec fn changed_by(&self, command: Command, after: &App) -> bool {
        match command {
            Command::DenyQuit => *after == (App { show_quit_confirm: false, ..*self }),
            Command::AskQuit => *after == (App { show_quit_confirm: true, ..*self }),
            Command::CloseDetail => *after == (App {
                show_detail_popup: false,
                detail_content: after.detail_content,
                detail_scroll: 0,
                ..*self
            }) && after.detail_content@.len() == 0,
            Command::ScrollDown => *after == (App {
                detail_scroll: if self.detail_scroll + 1 < self.detail_content.len() {
                    (self.detail_scroll + 1) as usize
                } else {
                    self.detail_scroll
                },
                ..*self
            }),
            Command::ScrollUp => *after == (App {
                detail_scroll: if self.detail_scroll > 0 {
                    (self.detail_scroll - 1) as usize
                } else {
                    0
                },
                ..*self
            }),
            Command::TogglePicker => *after == (App {
                show_service_popup: !self.show_service_popup,
                popup_selected_index: if self.show_service_popup {
                    self.popup_selected_index
                } else {
                    self.active_service
                },
                ..*self
            }),
            Command::PickerNext => *after == (App {
                popup_selected_index: after.popup_selected_index,
                ..*self
            }) && after.popup_selected_index == (self.popup_selected_index + 1) % (
            self.services.len() as int),
            Command::PickerPrevious => *after == (App {
                popup_selected_index: if self.popup_selected_index > 0 {
                    (self.popup_selected_index - 1) as usize
                } else {
                    (self.services.len() - 1) as usize
                },
                ..*self
            }),
            Command::PickerCommit => self.service_switched(after),
            Command::ToggleFavorite => self.favorite_toggled(after),
            Command::NextRow => *after == (App { selected_index: after.selected_index, ..*self })
                && self.moved_forward(after.selected_index as int),
            Command::PreviousRow => *after == (App {
                selected_index: after.selected_index,
                ..*self
            }) && self.moved_backward(after.selected_index as int),
            _ => *after == *self,
        }
    }

    /// Carries out `command`.
    pub fn perform(&mut self, command: Command) -> (effect: Effect)
        requires
            old(self).wf(),
        ensures
            final(self).wf(),
            old(self).carried_out(command, final(self), effect),
            effect is Fetch ==> !old(self).in_flight() && final(self).in_flight(),
    {
        match command {
            Command::Quit => {
                return Effect::Quit;
            },
            Command::DenyQuit => self.hide_quit_confirmation(),
            Command::AskQuit => self.show_quit_confirmation(),
            Command::CloseDetail => self.close_detail_popup(),
            Command::ScrollDown => self.detail_scroll_down(),
            Command::ScrollUp => self.detail_scroll_up(),
            Command::TogglePicker => self.toggle_service_popup(),
            Command::PickerNext => self.popup_next(),
            Command::PickerPrevious => self.popup_previous(),
            Command::PickerCommit => self.select_popup_service(),
            Command::ToggleFavorite => self.toggle_favorite(),
            Command::ShowDetails => {
                return match self.show_resource_details() {
                    Some(r) => Effect::Fetch(Request::Detail(r)),
                    None => Effect::Continue,
                };
            },
            Command::Refresh => {
                return match self.refresh_resources() {
                    Some(r) => Effect::Fetch(Request::List(r)),
                    None => Effect::Continue,
                };
            },
            Command::NextRow => self.next_item(),
            Command::PreviousRow => self.previous_item(),
            Command::Activate => {
                return match self.select_item() {
                    Some(r) => Effect::Fetch(r),
                    None => Effect::Continue,
                };
            },
            Command::Nothing => {},
        }
        Effect::Continue
    }

    /// Handles one key: the active mode gives the key its meaning, and the
    /// command is carried out. The modes below the active one see nothing of
    /// the key.
    pub fn handle_key(&mut self, key: Key) -> (effect: Effect)
        requires
            old(self).wf(),
        ensures
            final(self).wf(),
            old(self).carried_out(meaning(old(self).active_mode(), key), final(self), effect),
            effect is Fetch ==> !old(self).in_flight() && final(self).in_flight(),
            effect is Quit <==> old(self).show_quit_confirm && is_letter(key, 'y', 'Y'),
    {
        let command = command_for(self.mode(), key);
        self.perform(command)
    }

    /// Advances the animation while a fetch is outstanding; once for each
    /// round of the driver's loop.
    pub fn animate(&mut self)
        ensures
            *final(self) == (App {
                animation_frame: if old(self).in_flight() {
                    ((old(self).animation_frame + 1) % 10) as usize
                } else {
                    old(self).animation_frame
                },
                ..*old(self)
            }),
            old(self).wf() ==> final(self).wf(),
    {
        if self.is_loading() {
            self.tick_animation();
        }
    }
}

} // verus!
