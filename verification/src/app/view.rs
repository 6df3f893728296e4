//! What a renderer needs to know of the session beyond its fields: how each
//! row is to be shown and what the titles read.

use vstd::prelude::*;
use vstd::string::*;
use crate::app::service::LoadingState;
use crate::app::session::App;
use crate::text::concat;

verus! {

/// How a row of the main view is shown.
#[derive(Clone, Copy, PartialEq, Eq, Structural, Debug)]
pub enum RowStyle {
    /// Heading or rule.
    Decoration,
    /// The row under the cursor.
    Cursor,
    /// Any other row.
    Plain,
}

/// The mark that follows the title of the main view in each loading state.
pub open spec fn state_mark(state: LoadingState) -> Seq<char> {
    match state {
        LoadingState::Loading => " [LOADING...]"@,
        LoadingState::Error => " [ERROR]"@,
        LoadingState::Loaded => " [READY]"@,
        LoadingState::Idle => ""@,
    }
}

/// The shares, in percent, into which a span is cut for a popup that takes
/// `percent` of it in the middle: the margin before it, the popup, and the
/// margin behind it. An odd remainder leaves a percent unused.
pub fn centered_shares(percent: u16) -> (shares: (u16, u16, u16))
    requires
        percent <= 100,
    ensures
        shares.0 == (100 - percent) / 2,
        shares.1 == percent,
        shares.2 == (100 - percent) / 2,
{
    let margin: u16 = (100 - percent) / 2;
    (margin, percent, margin)
}

impl App {
    /// How row `i` is shown: decoration wins over the cursor.
    pub open spec fn style_of(&self, i: int) -> RowStyle {
        if !self.selectable(i) {
            RowStyle::Decoration
        } else if i == self.selected_index {
            RowStyle::Cursor
        } else {
            RowStyle::Plain
        }
    }

    /// How row `i` is shown.
    pub fn row_style(&self, i: usize) -> (style: RowStyle)
        requires
            self.active_service < self.services.len(),
        ensures
            style == self.style_of(i as int),
    {
        if !self.is_selectable(i) {
            RowStyle::Decoration
        } else if i == self.selected_index {
            RowStyle::Cursor
        } else {
            RowStyle::Plain
        }
    }

    /// The title of the main view: the active service and the mark of the
    /// loading state.
    pub fn main_title(&self) -> (title: String)
        requires
            self.active_service < self.services.len(),
        ensures
            title@ == self.title() + state_mark(self.loading_state),
    {
        let mark = match self.loading_state {
            LoadingState::Loading => " [LOADING...]",
            LoadingState::Error => " [ERROR]",
            LoadingState::Loaded => " [READY]",
            LoadingState::Idle => "",
        };
        concat(self.get_active_service().as_str(), mark)
    }

    /// The title of the detail pane.
    pub fn detail_title(&self) -> (title: &str)
        ensures
            title@ == (if self.detail_loading {
                "Loading Details..."@
            } else if self.selected_index < self.items.len() {
                "Resource Details"@
            } else {
                "Details"@
            }),
    {
        if self.detail_loading {
            "Loading Details..."
        } else if self.selected_index < self.items.len() {
            "Resource Details"
        } else {
            "Details"
        }
    }

    /// The line of service `i` in the service picker: a star for a
    /// favorite, and the title.
    pub fn picker_line(&self, i: usize) -> (line: String)
        requires
            i < self.services.len(),
        ensures
            line@ == (if self.services[i as int].favorite {
                "★ "@
            } else {
                "  "@
            }) + self.services[i as int].service_type.title(),
    {
        let mark = if self.services[i].favorite { "★ " } else { "  " };
        concat(mark, self.services[i].as_str())
    }
}

} // verus!
