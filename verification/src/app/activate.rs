//! Activation of the row under the cursor: in the object store it descends
//! into a container, ascends through the parent link, or opens the details
//! of a leaf; elsewhere it only names the row in the status line.

use vstd::prelude::*;
use vstd::string::*;
use crate::app::fetch::{DetailRequest, Request};
use crate::app::service::ServiceType;
use crate::app::session::App;
use crate::aws::s3::{S3NavigationAction, S3Service};
use crate::path::{parent_of, parent_path};
use crate::text::concat;

verus! {

/// What activating a row leads to.
pub enum Activation {
    /// Nothing changes.
    Ignore,
    /// Only the status line changes, to this text.
    Hint(Seq<char>),
    /// The path becomes this one, and the view is refreshed there.
    MoveTo(Option<Seq<char>>),
    /// The details of the row are asked for.
    ShowDetail,
}

impl App {
    /// What activating the row under the cursor leads to.
    ///
    /// Nothing, where the cursor is on no row. Outside the object store the
    /// row is named in the status line. In it, a bucket is entered at
    /// `name/`; a folder is entered at the path extended by its name, and an
    /// object is inspected, where the listing stands below a bucket; the
    /// parent link leads to the path one level up. Any other row gives a
    /// hint at the root and does nothing below it.
    ///
    /// Only what asks for a backend call waits for an outstanding fetch: a
    /// move is not made while one is outstanding, and details are not asked
    /// for. The hints are given all the same.
    pub open spec fn activation(&self) -> Activation {
        let i = self.selected_index as int;
        let line = self.items[i]@;
        let role = self.s3_items[i];
        let path = self.current_path;
        if i >= self.items.len() {
            Activation::Ignore
        } else if self.active_kind() != ServiceType::S3 {
            Activation::Hint("Selected: "@ + line)
        } else if i < self.s3_items.len() && role is Bucket {
            self.unless_in_flight(Activation::MoveTo(Some(role->Bucket_0@ + "/"@)))
        } else if i < self.s3_items.len() && role is Folder && path is Some {
            self.unless_in_flight(Activation::MoveTo(Some(path->0@ + role->Folder_0@)))
        } else if i < self.s3_items.len() && role is Object && path is Some {
            Activation::ShowDetail
        } else if i < self.s3_items.len() && role is ParentDir {
            if path is Some {
                self.unless_in_flight(Activation::MoveTo(parent_of(path->0@)))
            } else {
                Activation::Hint("Selected: "@ + line)
            }
        } else if path is None {
            Activation::Hint("Please select a bucket row"@)
        } else {
            Activation::Ignore
        }
    }

    /// `wanted`, or nothing while a fetch is outstanding.
    pub open spec fn unless_in_flight(&self, wanted: Activation) -> Activation {
        if self.in_flight() {
            Activation::Ignore
        } else {
            wanted
        }
    }

    /// `after` and `request` are what activating the row under the cursor
    /// makes of `self`: the outcome of `activation`, and nothing besides. A
    /// move changes the path and then starts a refresh as
    /// `refresh_started` says; details are asked for as
    /// `details_requested` says.
    pub open spec fn activated(&self, after: &App, request: Option<Request>) -> bool {
        match self.activation() {
            Activation::Ignore => request is None && *after == *self,
            Activation::Hint(text) => {
                &&& request is None
                &&& *after == (App { status_message: after.status_message, ..*self })
                &&& after.status_message@ == text
            },
            Activation::MoveTo(path) => {
                let moved = App { current_path: after.current_path, ..*self };
                &&& after.current_path.deep_view() == path
                &&& match request {
                    Some(Request::List(r)) => moved.refresh_started(after, Some(r)),
                    Some(Request::Detail(_)) => false,
                    None => moved.refresh_started(after, None),
                }
            },
            Activation::ShowDetail => match request {
                Some(Request::Detail(r)) => self.details_requested(after, Some(r)),
                Some(Request::List(_)) => false,
                None => self.details_requested(after, None),
            },
        }
    }

    fn move_to(&mut self, path: Option<String>) -> (request: Option<Request>)
        requires
            old(self).wf(),
            old(self).active_kind() == ServiceType::S3,
        ensures
            final(self).wf(),
            final(self).current_path == path,
            request is Some ==> !old(self).in_flight() && final(self).in_flight(),
            match request {
                Some(Request::List(r)) => (App { current_path: path, ..*old(self) }).refresh_started(
                    final(self),
                    Some(r),
                ),
                Some(Request::Detail(_)) => false,
                None => (App { current_path: path, ..*old(self) }).refresh_started(final(self), None),
            },
    {
        self.current_path = path;
        match self.refresh_resources() {
            Some(r) => Some(Request::List(r)),
            None => None,
        }
    }

    /// Activates the row under the cursor and returns the backend call to
    /// perform, if one is needed.
    pub fn select_item(&mut self) -> (request: Option<Request>)
        requires
            old(self).wf(),
        ensures
            final(self).wf(),
            old(self).activated(final(self), request),
            request is Some ==> !old(self).in_flight() && final(self).in_flight(),
    {
        if self.selected_index >= self.items.len() {
            return None;
        }
        let i = self.selected_index;
        if matches!(self.get_active_service().service_type, ServiceType::S3) {
            let busy = self.is_loading();
            let action = if i < self.s3_items.len() {
                S3Service::handle_selection(&self.s3_items[i], &self.current_path)
            } else {
                S3NavigationAction::NoAction
            };
            match action {
                S3NavigationAction::EnterBucket(path) => {
                    if busy {
                        return None;
                    }
                    return self.move_to(Some(path));
                },
                S3NavigationAction::EnterFolder(path) => {
                    if busy {
                        return None;
                    }
                    return self.move_to(Some(path));
                },
                S3NavigationAction::GoBack => {
                    let parent = match &self.current_path {
                        Some(path) => Some(parent_path(path.as_str())),
                        None => None,
                    };
                    match parent {
                        Some(p) => {
                            if busy {
                                return None;
                            }
                            return self.move_to(p);
                        },
                        None => {},
                    }
                },
                S3NavigationAction::ShowDetails(key) => {
                    let asked = self.show_resource_details();
                    // The call that is asked for names the object by the key
                    // that the row's role gives.
                    assert(asked matches Some(r) ==> r matches DetailRequest::Object { key: k, .. }
                        && k@ == key@);
                    return match asked {
                        Some(r) => Some(Request::Detail(r)),
                        None => None,
                    };
                },
                S3NavigationAction::NoAction => {
                    if self.current_path.is_none() {
                        self.status_message = String::from_str("Please select a bucket row");
                    }
                    return None;
                },
            }
        }
        self.status_message = concat("Selected: ", self.items[i].as_str());
        None
    }
}

} // verus!
