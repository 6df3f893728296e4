//! The popups: service picker, detail pane and quit confirmation. Each is a
//! flag of the session; the one of highest rank that is set is the active
//! mode and receives the input.

use vstd::prelude::*;
use vstd::string::*;
use vstd::arithmetic::div_mod::*;
use crate::app::service::{LoadingState, ServiceInfo};
use crate::app::session::App;
use crate::text::concat3;

verus! {

/// The mode that receives input, from lowest to highest rank.
#[derive(Clone, Copy, PartialEq, Eq, Structural, Debug)]
pub enum Mode {
    Normal,
    /// The service picker, with the position of its cursor.
    ServicePicker(usize),
    DetailView,
    QuitConfirm,
}

/// The favorites among the first `n` services, each with its position in the
/// catalog, in catalog order.
pub open spec fn favorites_among(services: Seq<ServiceInfo>, n: int) -> Seq<(usize, ServiceInfo)>
    decreases n,
{
    if n <= 0 {
        Seq::empty()
    } else if services[n - 1].favorite {
        favorites_among(services, n - 1).push(((n - 1) as usize, services[n - 1]))
    } else {
        favorites_among(services, n - 1)
    }
}

/// The frame that animates a pending fetch at step `i`.
pub open spec fn spinner_frame(i: int) -> Seq<char> {
    if i == 0 {
        "⠋"@
    } else if i == 1 {
        "⠙"@
    } else if i == 2 {
        "⠹"@
    } else if i == 3 {
        "⠸"@
    } else if i == 4 {
        "⠼"@
    } else if i == 5 {
        "⠴"@
    } else if i == 6 {
        "⠦"@
    } else if i == 7 {
        "⠧"@
    } else if i == 8 {
        "⠇"@
    } else {
        "⠏"@
    }
}

impl App {
    /// The active mode: quit confirmation before detail pane before service
    /// picker; with none of them open, the main view.
    pub open spec fn active_mode(&self) -> Mode {
        if self.show_quit_confirm {
            Mode::QuitConfirm
        } else if self.show_detail_popup {
            Mode::DetailView
        } else if self.show_service_popup {
            Mode::ServicePicker(self.popup_selected_index)
        } else {
            Mode::Normal
        }
    }

    /// The mode that receives the next key.
    pub fn mode(&self) -> (m: Mode)
        ensures
            m == self.active_mode(),
    {
        if self.show_quit_confirm {
            Mode::QuitConfirm
        } else if self.show_detail_popup {
            Mode::DetailView
        } else if self.show_service_popup {
            Mode::ServicePicker(self.popup_selected_index)
        } else {
            Mode::Normal
        }
    }

    /// Opens the service picker with its cursor on the active service, or
    /// closes it.
    pub fn toggle_service_popup(&mut self)
        ensures
            *final(self) == (App {
                show_service_popup: !old(self).show_service_popup,
                popup_selected_index: if old(self).show_service_popup {
                    old(self).popup_selected_index
                } else {
                    old(self).active_service
                },
                ..*old(self)
            }),
            old(self).wf() ==> final(self).wf(),
    {
        self.show_service_popup = !self.show_service_popup;
        if self.show_service_popup {
            self.popup_selected_index = self.active_service;
        }
    }

    /// Moves the picker's cursor one service down, from the last to the
    /// first.
    pub fn popup_next(&mut self)
        ensures
            *final(self) == (App {
                popup_selected_index: final(self).popup_selected_index,
                ..*old(self)
            }),
            old(self).services.len() == 0 ==> final(self).popup_selected_index == old(
                self,
            ).popup_selected_index,
            old(self).services.len() > 0 ==> final(self).popup_selected_index == (old(
                self,
            ).popup_selected_index + 1) % (old(self).services.len() as int),
            old(self).wf() ==> final(self).wf(),
    {
        let n = self.services.len();
        if n > 0 {
            proof {
                lemma_add_mod_noop(self.popup_selected_index as int, 1, n as int);
                lemma_mod_bound(self.popup_selected_index as int, n as int);
                if n > 1 {
                    lemma_small_mod(1, n as nat);
                }
            }
            self.popup_selected_index = (self.popup_selected_index % n + 1) % n;
        }
    }

    /// Moves the picker's cursor one service up, from the first to the
    /// last.
    pub fn popup_previous(&mut self)
        ensures
            *final(self) == (App {
                popup_selected_index: final(self).popup_selected_index,
                ..*old(self)
            }),
            old(self).services.len() == 0 ==> final(self).popup_selected_index == old(
                self,
            ).popup_selected_index,
            old(self).services.len() > 0 ==> final(self).popup_selected_index == (if old(
                self,
            ).popup_selected_index > 0 {
                old(self).popup_selected_index - 1
            } else {
                old(self).services.len() - 1
            }),
            old(self).wf() ==> final(self).wf(),
    {
        if self.services.len() > 0 {
            if self.popup_selected_index > 0 {
                self.popup_selected_index -= 1;
            } else {
                self.popup_selected_index = self.services.len() - 1;
            }
        }
    }

    /// `after` is `self` after the service under the picker's cursor was
    /// committed: it is the active one, the picker is closed, the path is
    /// back at the root, the view idle, the cursor on the first row, and a
    /// single row without role invites to refresh. The catalog, the other
    /// popups and the detail pane are as they were.
    pub open spec fn service_switched(&self, after: &App) -> bool {
        &&& *after == (App {
            active_service: self.popup_selected_index,
            show_service_popup: false,
            selected_index: 0,
            loading_state: LoadingState::Idle,
            current_path: None,
            items: after.items,
            s3_items: after.s3_items,
            iam_items: after.iam_items,
            dynamodb_items: after.dynamodb_items,
            status_message: after.status_message,
            ..*self
        })
        &&& after.items.deep_view() == seq!["Press 'r' to load "@ + after.title() + " resources"@]
        &&& after.no_roles()
        &&& after.status_message@ == "Switched to "@ + after.title() + ". Press r to refresh."@
    }

    /// `after` is `self` after the favorite flag under the picker's cursor
    /// was toggled. With the picker open and its cursor in the catalog, the
    /// flag of that one service is flipped and the status line says so;
    /// every other service, the picker and its cursor are as they were.
    /// Otherwise nothing has changed.
    pub open spec fn favorite_toggled(&self, after: &App) -> bool {
        if self.show_service_popup && self.popup_selected_index < self.services.len() {
            let at = self.popup_selected_index as int;
            let was = self.services[at];
            &&& *after == (App {
                services: after.services,
                status_message: after.status_message,
                ..*self
            })
            &&& after.services@ == self.services@.update(
                at,
                ServiceInfo { favorite: !was.favorite, ..was },
            )
            &&& after.status_message@ == (if was.favorite {
                "Removed from favorites"@
            } else {
                "Added to favorites"@
            })
        } else {
            *after == *self
        }
    }

    /// Commits the service under the picker's cursor.
    pub fn select_popup_service(&mut self)
        requires
            old(self).wf(),
        ensures
            final(self).wf(),
            old(self).service_switched(final(self)),
            final(self).cursor_ok(),
    {
        self.active_service = self.popup_selected_index;
        self.show_service_popup = false;
        self.selected_index = 0;
        self.loading_state = LoadingState::Idle;
        let name = self.services[self.active_service].as_str();
        let rows = vec![concat3("Press 'r' to load ", name, " resources")];
        let status = concat3("Switched to ", name, ". Press r to refresh.");
        assert(rows.deep_view() =~= seq!["Press 'r' to load "@ + self.title() + " resources"@]);
        self.items = rows;
        self.s3_items = Vec::new();
        self.iam_items = Vec::new();
        self.dynamodb_items = Vec::new();
        self.status_message = status;
        self.current_path = None;
    }

    /// Flips the favorite flag of the service under the picker's cursor.
    pub fn toggle_favorite(&mut self)
        ensures
            old(self).favorite_toggled(final(self)),
            old(self).wf() ==> final(self).wf(),
    {
        if self.show_service_popup && self.popup_selected_index < self.services.len() {
            let at = self.popup_selected_index;
            let was = self.services[at];
            self.services.set(at, ServiceInfo::new(was.service_type, !was.favorite));
            self.status_message = if was.favorite {
                String::from_str("Removed from favorites")
            } else {
                String::from_str("Added to favorites")
            };
        }
    }

    /// The favorites of the catalog, each with its position, in catalog
    /// order.
    pub fn get_favorite_services(&self) -> (favorites: Vec<(usize, &ServiceInfo)>)
        ensures
            favorites.len() == favorites_among(self.services@, self.services.len() as int).len(),
            forall|j: int|
                0 <= j < favorites.len() ==> (#[trigger] favorites[j]).0 == favorites_among(
                    self.services@,
                    self.services.len() as int,
                )[j].0 && *favorites[j].1 == favorites_among(
                    self.services@,
                    self.services.len() as int,
                )[j].1,
    {
        let mut favorites: Vec<(usize, &ServiceInfo)> = Vec::new();
        let mut i: usize = 0;
        while i < self.services.len()
            invariant
                i <= self.services.len(),
                favorites.len() == favorites_among(self.services@, i as int).len(),
                forall|j: int|
                    0 <= j < favorites.len() ==> (#[trigger] favorites[j]).0 == favorites_among(
                        self.services@,
                        i as int,
                    )[j].0 && *favorites[j].1 == favorites_among(self.services@, i as int)[j].1,
            decreases self.services.len() - i,
        {
            if self.services[i].favorite {
                favorites.push((i, &self.services[i]));
            }
            i += 1;
        }
        favorites
    }

    /// Closes the detail pane and clears it. Whether the pane waits for its
    /// fetch is not touched: that goes with the outstanding describe call,
    /// and ends when its outcome arrives.
    pub fn close_detail_popup(&mut self)
        ensures
            *final(self) == (App {
                show_detail_popup: false,
                detail_content: final(self).detail_content,
                detail_scroll: 0,
                ..*old(self)
            }),
            final(self).detail_content@.len() == 0,
            old(self).wf() ==> final(self).wf(),
    {
        self.show_detail_popup = false;
        self.detail_content.clear();
        self.detail_scroll = 0;
    }

    /// Scrolls the detail pane one line up, unless it is at the top.
    pub fn detail_scroll_up(&mut self)
        ensures
            *final(self) == (App {
                detail_scroll: if old(self).detail_scroll > 0 {
                    (old(self).detail_scroll - 1) as usize
                } else {
                    0
                },
                ..*old(self)
            }),
            old(self).wf() ==> final(self).wf(),
    {
        if self.detail_scroll > 0 {
            self.detail_scroll -= 1;
        }
    }

    /// Scrolls the detail pane one line down, unless its last line is at
    /// the top.
    pub fn detail_scroll_down(&mut self)
        ensures
            *final(self) == (App {
                detail_scroll: if old(self).detail_scroll + 1 < old(self).detail_content.len() {
                    (old(self).detail_scroll + 1) as usize
                } else {
                    old(self).detail_scroll
                },
                ..*old(self)
            }),
            old(self).wf() ==> final(self).wf(),
    {
        let n = self.detail_content.len();
        if n > 0 && self.detail_scroll < n - 1 {
            self.detail_scroll += 1;
        }
    }

    /// Advances the animation by one of its ten frames.
    pub fn tick_animation(&mut self)
        ensures
            *final(self) == (App {
                animation_frame: ((old(self).animation_frame + 1) % 10) as usize,
                ..*old(self)
            }),
            final(self).animation_frame < 10,
            old(self).wf() ==> final(self).wf(),
    {
        proof {
            lemma_add_mod_noop(self.animation_frame as int, 1, 10);
        }
        self.animation_frame = (self.animation_frame % 10 + 1) % 10;
    }

    /// The frame to draw for a pending fetch.
    pub fn get_loading_spinner(&self) -> (frame: &str)
        requires
            self.animation_frame < 10,
        ensures
            frame@ == spinner_frame(self.animation_frame as int),
    {
        let i = self.animation_frame;
        if i == 0 {
            "⠋"
        } else if i == 1 {
            "⠙"
        } else if i == 2 {
            "⠹"
        } else if i == 3 {
            "⠸"
        } else if i == 4 {
            "⠼"
        } else if i == 5 {
            "⠴"
        } else if i == 6 {
            "⠦"
        } else if i == 7 {
            "⠧"
        } else if i == 8 {
            "⠇"
        } else {
            "⠏"
        }
    }

    /// Asks for confirmation before quitting. What lies below stays as it
    /// is.
    pub fn show_quit_confirmation(&mut self)
        ensures
            *final(self) == (App { show_quit_confirm: true, ..*old(self) }),
            old(self).wf() ==> final(self).wf(),
    {
        self.show_quit_confirm = true;
    }

    /// Takes the quit confirmation away: the mode below it is active again,
    /// with all it held.
    pub fn hide_quit_confirmation(&mut self)
        ensures
            *final(self) == (App { show_quit_confirm: false, ..*old(self) }),
            old(self).wf() ==> final(self).wf(),
    {
        self.show_quit_confirm = false;
    }
}

} // verus!
