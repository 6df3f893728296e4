//! The refresh cycle of the main view: a list call is issued, the view
//! shows a placeholder while it runs, and its outcome replaces the rows.

use vstd::prelude::*;
use vstd::string::*;
use crate::app::fetch::{ListRequest, Listing, lists};
use crate::app::service::{LoadingState, ServiceType};
use crate::app::session::App;
use crate::aws::dynamodb::{DynamoDbItem, DynamoDbService, table_roles, table_rows};
use crate::aws::iam::{IamItem, IamService, user_roles, user_rows};
use crate::aws::s3::{S3Item, S3Service, bucket_roles, bucket_rows, object_roles, object_rows};
use crate::path::split_path;
use crate::text::{concat, concat3, count_string, decimal};

verus! {

/// The rows shown after a failed list call for the service titled `title`:
/// what failed, the backend's message, and the likely causes.
pub open spec fn error_rows(title: Seq<char>, message: Seq<char>) -> Seq<Seq<char>> {
    seq![
        "Error loading "@ + title,
        "Details: "@ + message,
        ""@,
        "Possible causes:"@,
        "- Invalid AWS credentials"@,
        "- Insufficient IAM permissions"@,
        "- Network connectivity issues"@,
    ]
}

/// The rows that show `listing` in a view titled `title`.
pub open spec fn listing_rows(listing: Listing, title: Seq<char>) -> Seq<Seq<char>> {
    match listing {
        Listing::Lines(lines) => if lines.len() == 0 {
            seq!["No "@ + title + " found"@]
        } else {
            lines.deep_view()
        },
        Listing::Buckets(buckets) => bucket_rows(buckets.deep_view()),
        Listing::Objects { objects, .. } => object_rows(objects.deep_view()),
        Listing::Users(users) => user_rows(users.deep_view()),
        Listing::Tables(tables) => table_rows(tables.deep_view()),
    }
}

/// The status line for `n` resources of the service titled `title`.
pub open spec fn resources_status(n: nat, title: Seq<char>) -> Seq<char> {
    if n == 0 {
        "No resources found for "@ + title
    } else {
        "Loaded "@ + decimal(n) + " resources ("@ + title + ")"@
    }
}

/// The status line after `listing` has arrived in a view titled `title`:
/// where the view stands in the object store, or how much was found.
pub open spec fn listing_status(listing: Listing, title: Seq<char>) -> Seq<char> {
    match listing {
        Listing::Objects { bucket, prefix, .. } => "Browsing s3://"@ + bucket@ + "/"@ + prefix@,
        Listing::Buckets(buckets) => if buckets.len() == 0 {
            "No resources found for "@ + title
        } else {
            "Loaded "@ + decimal(buckets.len() as nat) + " buckets"@
        },
        Listing::Tables(tables) => if tables.len() == 0 {
            "No resources found for "@ + title
        } else {
            "Loaded "@ + decimal(tables.len() as nat) + " tables"@
        },
        Listing::Users(users) => resources_status(users.len() as nat, title),
        Listing::Lines(lines) => resources_status(lines.len() as nat, title),
    }
}

/// Where the cursor is put after `listing` has arrived: behind heading and
/// rule where the listing has them, else on the first row.
pub open spec fn listing_cursor(listing: Listing) -> usize {
    match listing {
        Listing::Lines(_) => 0,
        Listing::Objects { .. } => 2,
        _ => if listing.is_empty() {
            0
        } else {
            2
        },
    }
}

/// `s3`, `iam` and `dynamodb` are the roles that `listing` brings: those of
/// its own rows in the list of its service, and none in the others.
pub open spec fn listing_roles(
    listing: Listing,
    s3: Seq<S3Item>,
    iam: Seq<IamItem>,
    dynamodb: Seq<DynamoDbItem>,
) -> bool {
    match listing {
        Listing::Lines(_) => s3.len() == 0 && iam.len() == 0 && dynamodb.len() == 0,
        Listing::Buckets(buckets) => bucket_roles(s3, buckets.deep_view()) && iam.len() == 0
            && dynamodb.len() == 0,
        Listing::Objects { objects, .. } => object_roles(s3, objects.deep_view()) && iam.len() == 0
            && dynamodb.len() == 0,
        Listing::Users(users) => s3.len() == 0 && user_roles(iam, users.deep_view())
            && dynamodb.len() == 0,
        Listing::Tables(tables) => s3.len() == 0 && iam.len() == 0 && table_roles(
            dynamodb,
            tables.deep_view(),
        ),
    }
}

impl App {
    /// Whether a fetch is outstanding, for the main view or the detail pane.
    pub open spec fn in_flight(&self) -> bool {
        self.loading_state == LoadingState::Loading || self.detail_loading
    }

    /// The title of the active service.
    pub open spec fn title(&self) -> Seq<char> {
        self.active_kind().title()
    }

    /// `self` is `before` with new rows: the rows, their roles and the
    /// status line are replaced; the cursor, the loading state and the
    /// recorded error may change; the catalog, the path, the connection, the
    /// popups and the detail pane stay as they are.
    pub open spec fn rows_replaced(&self, before: &App) -> bool {
        *self == (App {
            items: self.items,
            s3_items: self.s3_items,
            iam_items: self.iam_items,
            dynamodb_items: self.dynamodb_items,
            status_message: self.status_message,
            selected_index: self.selected_index,
            loading_state: self.loading_state,
            error_message: self.error_message,
            ..*before
        })
    }

    /// No row carries a role.
    pub open spec fn no_roles(&self) -> bool {
        self.s3_items.len() == 0 && self.iam_items.len() == 0 && self.dynamodb_items.len() == 0
    }

    /// Whether a fetch is outstanding.
    pub fn is_loading(&self) -> (b: bool)
        ensures
            b == self.in_flight(),
    {
        matches!(self.loading_state, LoadingState::Loading) || self.detail_loading
    }

    /// Replaces the rows by rows without roles.
    fn set_plain_rows(&mut self, rows: Vec<String>)
        ensures
            *final(self) == (App {
                items: rows,
                s3_items: final(self).s3_items,
                iam_items: final(self).iam_items,
                dynamodb_items: final(self).dynamodb_items,
                ..*old(self)
            }),
            final(self).no_roles(),
    {
        self.items = rows;
        self.s3_items = Vec::new();
        self.iam_items = Vec::new();
        self.dynamodb_items = Vec::new();
    }

    /// `after` and `request` are what the start of a refresh makes of
    /// `self`.
    ///
    /// Without a backend connection only the status line changes. While a
    /// fetch is outstanding nothing happens, so that at most one fetch is in
    /// flight. Otherwise the view enters the loading state, a placeholder
    /// without role replaces the rows, and `request` is the list call for
    /// the active service at the current path; the path, the cursor and the
    /// recorded error stay as they are.
    pub open spec fn refresh_started(&self, after: &App, request: Option<ListRequest>) -> bool {
        if !self.connected {
            &&& request is None
            &&& *after == (App { status_message: after.status_message, ..*self })
            &&& after.status_message@ == "AWS client not initialized"@
        } else if self.in_flight() {
            request is None && *after == *self
        } else {
            &&& request matches Some(r) && lists(
                r,
                self.active_kind(),
                self.current_path.deep_view(),
            )
            &&& after.rows_replaced(self)
            &&& after.loading_state == LoadingState::Loading
            &&& after.items.deep_view() == seq!["Loading..."@]
            &&& after.no_roles()
            &&& after.status_message@ == "Loading "@ + self.title() + " resources..."@
            &&& after.selected_index == self.selected_index
            &&& after.error_message == self.error_message
        }
    }

    /// Starts a refresh of the main view and returns the list call to
    /// perform, if one is to be made.
    pub fn refresh_resources(&mut self) -> (request: Option<ListRequest>)
        requires
            old(self).wf(),
        ensures
            final(self).wf(),
            old(self).refresh_started(final(self), request),
            request is Some ==> !old(self).in_flight() && final(self).in_flight(),
    {
        if !self.connected {
            self.status_message = String::from_str("AWS client not initialized");
            return None;
        }
        if self.is_loading() {
            return None;
        }
        let status = concat3("Loading ", self.get_active_service().as_str(), " resources...");
        let request = match self.get_active_service().service_type {
            ServiceType::EC2 => ListRequest::Instances,
            ServiceType::S3 => match &self.current_path {
                Some(path) => {
                    let parts = split_path(path.as_str());
                    ListRequest::Objects { bucket: parts.0, prefix: parts.1 }
                },
                None => ListRequest::Buckets,
            },
            ServiceType::IAM => ListRequest::Users,
            ServiceType::CloudWatch => ListRequest::Alarms,
            ServiceType::DynamoDB => ListRequest::Tables,
        };
        let rows = vec![String::from_str("Loading...")];
        assert(rows.deep_view() =~= seq!["Loading..."@]);
        self.loading_state = LoadingState::Loading;
        self.set_plain_rows(rows);
        self.status_message = status;
        Some(request)
    }

    /// `after` is `self` after a list call failed with `message`: the view
    /// is in the error state, the message is recorded, and the rows are the
    /// fixed diagnostic, without roles, with the message in its second line.
    /// The path and the cursor are where they were.
    pub open spec fn refresh_failed(&self, after: &App, message: Seq<char>) -> bool {
        &&& after.rows_replaced(self)
        &&& after.loading_state == LoadingState::Error
        &&& after.error_message.deep_view() == Some(message)
        &&& after.items.deep_view() == error_rows(self.title(), message)
        &&& after.no_roles()
        &&& after.status_message@ == "Error: Failed to load resources"@
        &&& after.selected_index == self.selected_index
    }

    /// `after` is `self` after `listing` arrived: the view is loaded, no
    /// error is recorded, the rows and roles are those of the listing, and
    /// the cursor stands behind heading and rule. The path is where it was.
    pub open spec fn listing_applied(&self, after: &App, listing: Listing) -> bool {
        &&& after.rows_replaced(self)
        &&& after.loading_state == LoadingState::Loaded
        &&& after.error_message is None
        &&& after.items.deep_view() == listing_rows(listing, self.title())
        &&& listing_roles(listing, after.s3_items@, after.iam_items@, after.dynamodb_items@)
        &&& after.status_message@ == listing_status(listing, self.title())
        &&& after.selected_index == listing_cursor(listing)
    }

    /// Takes the failure of a list call into the session, so that the same
    /// level can be tried again.
    pub fn handle_resource_error(&mut self, message: &str)
        requires
            old(self).wf(),
        ensures
            final(self).wf(),
            old(self).refresh_failed(final(self), message@),
            final(self).current_path == old(self).current_path,
    {
        let title = self.get_active_service().as_str();
        let rows = vec![
            concat("Error loading ", title),
            concat("Details: ", message),
            String::from_str(""),
            String::from_str("Possible causes:"),
            String::from_str("- Invalid AWS credentials"),
            String::from_str("- Insufficient IAM permissions"),
            String::from_str("- Network connectivity issues"),
        ];
        assert(rows.deep_view() =~= error_rows(self.title(), message@));
        self.loading_state = LoadingState::Error;
        self.error_message = Some(String::from_str(message));
        self.set_plain_rows(rows);
        self.status_message = String::from_str("Error: Failed to load resources");
    }

    /// Takes the result of a list call into the session.
    ///
    /// Where the listing holds something and its roles are those the active
    /// service reads, the cursor then stands on the first selectable row.
    pub fn resources_loaded(&mut self, listing: Listing)
        requires
            old(self).wf(),
        ensures
            final(self).wf(),
            old(self).listing_applied(final(self), listing),
            final(self).current_path == old(self).current_path,
            final(self).cursor_ok(),
            !listing.is_empty() && listing.fits(old(self).active_kind()) ==> {
                &&& final(self).selected_index < final(self).items.len()
                &&& final(self).selectable(final(self).selected_index as int)
                &&& forall|j: int| 0 <= j < final(self).selected_index ==> !final(self).selectable(j)
            },
    {
        let ghost title = self.title();
        self.loading_state = LoadingState::Loaded;
        self.error_message = None;
        match listing {
            Listing::Lines(lines) => {
                let n = lines.len();
                let name = self.get_active_service().as_str();
                if n == 0 {
                    let rows = vec![concat3("No ", name, " found")];
                    assert(rows.deep_view() =~= seq!["No "@ + title + " found"@]);
                    let status = concat("No resources found for ", name);
                    self.set_plain_rows(rows);
                    self.status_message = status;
                } else {
                    let mut status = concat("Loaded ", count_string(n).as_str());
                    status.append(" resources (");
                    status.append(name);
                    status.append(")");
                    self.set_plain_rows(lines);
                    self.status_message = status;
                }
                self.selected_index = 0;
            },
            Listing::Buckets(buckets) => {
                let n = buckets.len();
                let name = self.get_active_service().as_str();
                let status = if n == 0 {
                    concat("No resources found for ", name)
                } else {
                    concat3("Loaded ", count_string(n).as_str(), " buckets")
                };
                let (rows, roles) = S3Service::format_bucket_list(buckets.as_slice());
                self.items = rows;
                self.s3_items = roles;
                self.iam_items = Vec::new();
                self.dynamodb_items = Vec::new();
                self.status_message = status;
                self.selected_index = if n == 0 { 0 } else { 2 };
                assert(self.items.len() == self.items.deep_view().len());
            },
            Listing::Objects { objects, bucket, prefix } => {
                let mut status = concat("Browsing s3://", bucket.as_str());
                status.append("/");
                status.append(prefix.as_str());
                let (rows, roles) = S3Service::format_object_list(
                    objects.as_slice(),
                    bucket.as_str(),
                    prefix.as_str(),
                );
                self.items = rows;
                self.s3_items = roles;
                self.iam_items = Vec::new();
                self.dynamodb_items = Vec::new();
                self.status_message = status;
                self.selected_index = 2;
                assert(self.items.len() == self.items.deep_view().len());
            },
            Listing::Users(users) => {
                let n = users.len();
                let name = self.get_active_service().as_str();
                let status = if n == 0 {
                    concat("No resources found for ", name)
                } else {
                    let mut s = concat("Loaded ", count_string(n).as_str());
                    s.append(" resources (");
                    s.append(name);
                    s.append(")");
                    s
                };
                let (rows, roles) = IamService::format_user_list(users.as_slice());
                self.items = rows;
                self.s3_items = Vec::new();
                self.iam_items = roles;
                self.dynamodb_items = Vec::new();
                self.status_message = status;
                self.selected_index = if n == 0 { 0 } else { 2 };
                assert(self.items.len() == self.items.deep_view().len());
            },
            Listing::Tables(tables) => {
                let n = tables.len();
                let name = self.get_active_service().as_str();
                let status = if n == 0 {
                    concat("No resources found for ", name)
                } else {
                    concat3("Loaded ", count_string(n).as_str(), " tables")
                };
                let (rows, roles) = DynamoDbService::format_table_list(tables.as_slice());
                self.items = rows;
                self.s3_items = Vec::new();
                self.iam_items = Vec::new();
                self.dynamodb_items = roles;
                self.status_message = status;
                self.selected_index = if n == 0 { 0 } else { 2 };
                assert(self.items.len() == self.items.deep_view().len());
            },
        }
    }
}

} // verus!
