//! Session state and its validity.

use vstd::prelude::*;
use vstd::string::*;
use crate::app::service::{LoadingState, ServiceInfo, ServiceType};
use crate::aws::dynamodb::DynamoDbItem;
use crate::aws::iam::IamItem;
use crate::aws::s3::S3Item;

verus! {

/// Everything the browser remembers between two keystrokes.
pub struct App {
    /// The fixed service catalog.
    pub services: Vec<ServiceInfo>,
    /// Index of the service whose resources are shown.
    pub active_service: usize,
    /// The cursor: index of the highlighted row.
    pub selected_index: usize,
    /// The rows on screen.
    pub items: Vec<String>,
    /// The line at the foot of the screen.
    pub status_message: String,
    /// Status of the main view's last fetch.
    pub loading_state: LoadingState,
    /// Whether a backend connection has been established.
    pub connected: bool,
    /// The message of the last failure, until a listing arrives.
    pub error_message: Option<String>,
    /// Whether the service picker is open.
    pub show_service_popup: bool,
    /// The cursor of the service picker.
    pub popup_selected_index: usize,
    /// The credentials profile the session runs under.
    pub profile_name: String,
    /// Whether the detail pane is open.
    pub show_detail_popup: bool,
    /// Attributes of the inspected resource, as key and value.
    pub detail_content: Vec<(String, String)>,
    /// Whether the detail pane waits for its fetch.
    pub detail_loading: bool,
    /// The first line of the detail pane that is shown.
    pub detail_scroll: usize,
    /// The frame of the animation that marks a pending fetch, below 10.
    pub animation_frame: usize,
    /// Whether the quit confirmation is open.
    pub show_quit_confirm: bool,
    /// Where in the object store the listing stands: `None` at the root,
    /// else the bucket, a slash, and the prefix inside it.
    pub current_path: Option<String>,
    /// Roles of the rows, where the rows are an object-store listing.
    pub s3_items: Vec<S3Item>,
    /// Roles of the rows, where the rows are a user listing.
    pub iam_items: Vec<IamItem>,
    /// Roles of the rows, where the rows are a table listing.
    pub dynamodb_items: Vec<DynamoDbItem>,
}

/// The catalog every session starts with: compute and object store are
/// favorites.
pub open spec fn initial_catalog() -> Seq<ServiceInfo> {
    seq![
        ServiceInfo { service_type: ServiceType::EC2, favorite: true },
        ServiceInfo { service_type: ServiceType::S3, favorite: true },
        ServiceInfo { service_type: ServiceType::IAM, favorite: false },
        ServiceInfo { service_type: ServiceType::CloudWatch, favorite: false },
        ServiceInfo { service_type: ServiceType::DynamoDB, favorite: false },
    ]
}

impl App {
    /// The kind of the active service.
    pub open spec fn active_kind(&self) -> ServiceType {
        self.services[self.active_service as int].service_type
    }

    /// Each list of roles is either empty or runs parallel to the rows.
    pub open spec fn roles_aligned(&self) -> bool {
        &&& self.s3_items.len() == 0 || self.s3_items.len() == self.items.len()
        &&& self.iam_items.len() == 0 || self.iam_items.len() == self.items.len()
        &&& self.dynamodb_items.len() == 0 || self.dynamodb_items.len() == self.items.len()
    }

    /// Only the object store has a hierarchy: with any other service active
    /// the path stands at the root.
    pub open spec fn path_at_home(&self) -> bool {
        self.current_path is Some ==> self.active_kind() == ServiceType::S3
    }

    /// Validity of a session: both catalog indices are in range, the
    /// animation counter is a frame number, roles run parallel to rows, and
    /// a path is held in the object store only.
    pub open spec fn wf(&self) -> bool {
        &&& self.active_service < self.services.len()
        &&& self.popup_selected_index < self.services.len()
        &&& self.animation_frame < 10
        &&& self.roles_aligned()
        &&& self.path_at_home()
    }

    /// Whether the session is valid, for callers outside verified code.
    pub fn is_valid(&self) -> (b: bool)
        ensures
            b == self.wf(),
    {
        let n = self.items.len();
        if !(self.active_service < self.services.len() && self.popup_selected_index
            < self.services.len() && self.animation_frame < 10) {
            return false;
        }
        let aligned = (self.s3_items.len() == 0 || self.s3_items.len() == n) && (
        self.iam_items.len() == 0 || self.iam_items.len() == n) && (self.dynamodb_items.len() == 0
            || self.dynamodb_items.len() == n);
        let at_home = self.current_path.is_none() || matches!(
            self.services[self.active_service].service_type,
            ServiceType::S3
        );
        aligned && at_home
    }

    /// A fresh session for the given credentials profile: the compute service
    /// active, one placeholder row, nothing loaded and no popup open.
    pub fn new(profile_name: String) -> (app: Self)
        ensures
            app.wf(),
            app.services@ == initial_catalog(),
            app.active_service == 0,
            app.selected_index == 0,
            app.items.deep_view() == seq!["Initializing AWS client..."@],
            app.status_message@ == "Press Space for services, r to refresh, q to quit"@,
            app.loading_state == LoadingState::Idle,
            !app.connected,
            app.error_message is None,
            !app.show_service_popup,
            app.popup_selected_index == 0,
            app.profile_name == profile_name,
            !app.show_detail_popup,
            app.detail_content@.len() == 0,
            !app.detail_loading,
            app.detail_scroll == 0,
            app.animation_frame == 0,
            !app.show_quit_confirm,
            app.current_path is None,
            app.s3_items@.len() == 0,
            app.iam_items@.len() == 0,
            app.dynamodb_items@.len() == 0,
    {
        let services = vec![
            ServiceInfo::new(ServiceType::EC2, true),
            ServiceInfo::new(ServiceType::S3, true),
            ServiceInfo::new(ServiceType::IAM, false),
            ServiceInfo::new(ServiceType::CloudWatch, false),
            ServiceInfo::new(ServiceType::DynamoDB, false),
        ];
        assert(services@ =~= initial_catalog());
        let items = vec![String::from_str("Initializing AWS client...")];
        assert(items.deep_view() =~= seq!["Initializing AWS client..."@]);
        Self {
            services,
            active_service: 0,
            selected_index: 0,
            items,
            status_message: String::from_str("Press Space for services, r to refresh, q to quit"),
            loading_state: LoadingState::Idle,
            connected: false,
            error_message: None,
            show_service_popup: false,
            popup_selected_index: 0,
            profile_name,
            show_detail_popup: false,
            detail_content: Vec::new(),
            detail_loading: false,
            detail_scroll: 0,
            animation_frame: 0,
            show_quit_confirm: false,
            current_path: None,
            s3_items: Vec::new(),
            iam_items: Vec::new(),
            dynamodb_items: Vec::new(),
        }
    }

    /// The catalog entry of the active service.
    pub fn get_active_service(&self) -> (info: &ServiceInfo)
        requires
            self.active_service < self.services.len(),
        ensures
            *info == self.services[self.active_service as int],
    {
        &self.services[self.active_service]
    }
}

} // verus!
