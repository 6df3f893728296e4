//! Establishing the backend connection at the start of a session.

use vstd::prelude::*;
use vstd::string::*;
use crate::app::service::LoadingState;
use crate::app::session::App;
use crate::text::concat;

verus! {

/// The rows shown after the connection could not be established.
pub open spec fn connect_failure_rows(message: Seq<char>) -> Seq<Seq<char>> {
    seq![
        "Failed to initialize AWS client"@,
        "Please check your AWS credentials and configuration"@,
        "Error: "@ + message,
    ]
}

impl App {
    /// Announces that the backend connection is being established and says
    /// whether the driver shall go on to connect: not while a fetch is
    /// outstanding, in which case nothing changes.
    pub fn initialize_aws_client(&mut self) -> (connect: bool)
        ensures
            connect == !old(self).in_flight(),
            !connect ==> *final(self) == *old(self),
            connect ==> *final(self) == (App {
                loading_state: LoadingState::Loading,
                status_message: final(self).status_message,
                ..*old(self)
            }) && final(self).status_message@ == "Connecting to AWS..."@,
            old(self).wf() ==> final(self).wf(),
    {
        if self.is_loading() {
            return false;
        }
        self.loading_state = LoadingState::Loading;
        self.status_message = String::from_str("Connecting to AWS...");
        true
    }

    /// Records that the backend connection stands: the view is loaded, and
    /// a single row without role invites to refresh.
    pub fn client_connected(&mut self)
        ensures
            *final(self) == (App {
                connected: true,
                loading_state: LoadingState::Loaded,
                items: final(self).items,
                s3_items: final(self).s3_items,
                iam_items: final(self).iam_items,
                dynamodb_items: final(self).dynamodb_items,
                status_message: final(self).status_message,
                ..*old(self)
            }),
            final(self).items.deep_view() == seq!["Press 'r' to refresh and load resources"@],
            final(self).no_roles(),
            final(self).status_message@ == "AWS client initialized. Press r to load resources."@,
            old(self).wf() ==> final(self).wf(),
    {
        let rows = vec![String::from_str("Press 'r' to refresh and load resources")];
        assert(rows.deep_view() =~= seq!["Press 'r' to refresh and load resources"@]);
        self.connected = true;
        self.loading_state = LoadingState::Loaded;
        self.status_message = String::from_str(
            "AWS client initialized. Press r to load resources.",
        );
        self.items = rows;
        self.s3_items = Vec::new();
        self.iam_items = Vec::new();
        self.dynamodb_items = Vec::new();
    }

    /// Records that the backend connection could not be established: the
    /// view enters the error state, and the rows say what failed, where to
    /// look, and the backend's message. The session stays unconnected.
    pub fn client_failed(&mut self, message: &str)
        ensures
            *final(self) == (App {
                loading_state: LoadingState::Error,
                error_message: final(self).error_message,
                items: final(self).items,
                s3_items: final(self).s3_items,
                iam_items: final(self).iam_items,
                dynamodb_items: final(self).dynamodb_items,
                status_message: final(self).status_message,
                ..*old(self)
            }),
            final(self).error_message.deep_view() == Some(
                "Failed to initialize AWS client: "@ + message@,
            ),
            final(self).items.deep_view() == connect_failure_rows(message@),
            final(self).no_roles(),
            final(self).status_message@
                == "Error: Failed to connect to AWS. Check credentials."@,
            old(self).wf() ==> final(self).wf(),
    {
        let rows = vec![
            String::from_str("Failed to initialize AWS client"),
            String::from_str("Please check your AWS credentials and configuration"),
            concat("Error: ", message),
        ];
        assert(rows.deep_view() =~= connect_failure_rows(message@));
        self.loading_state = LoadingState::Error;
        self.error_message = Some(concat("Failed to initialize AWS client: ", message));
        self.status_message = String::from_str(
            "Error: Failed to connect to AWS. Check credentials.",
        );
        self.items = rows;
        self.s3_items = Vec::new();
        self.iam_items = Vec::new();
        self.dynamodb_items = Vec::new();
    }
}

} // verus!
