//! The detail pane: which resource a request for details means, what is
//! known of it without asking the backend, and how the backend's answer
//! fills the pane.

use vstd::prelude::*;
use vstd::string::*;
use crate::app::fetch::DetailRequest;
use crate::app::service::ServiceType;
use crate::app::session::App;
use crate::aws::dynamodb::DynamoDbItem;
use crate::aws::iam::IamItem;
use crate::aws::s3::S3Item;
use crate::path::{bucket_of, prefix_of, split_path};
use crate::text::{concat, first_word, first_word_of};

verus! {

/// What a request for details of the row under the cursor leads to.
pub enum DetailPlan {
    /// Nothing changes.
    Ignore,
    /// Only the status line changes, to this text.
    Hint(Seq<char>),
    /// The pane opens with content that needs no fetch.
    Local { content: Seq<(Seq<char>, Seq<char>)>, status: Seq<char> },
    /// The pane opens in its loading state and the bucket is described.
    FetchBucket(Seq<char>),
    /// The pane opens in its loading state and the object is described.
    FetchObject { bucket: Seq<char>, key: Seq<char> },
    /// The pane opens in its loading state and the table is described.
    FetchTable(Seq<char>),
}

/// The single attribute shown for a resource that is known by its row alone.
pub open spec fn one_attribute(key: Seq<char>, value: Seq<char>, line: Seq<char>) -> DetailPlan {
    DetailPlan::Local { content: seq![(key, value)], status: "Viewing details for "@ + line }
}

/// The content of the pane while its fetch runs.
pub open spec fn loading_content() -> Seq<(Seq<char>, Seq<char>)> {
    seq![("Loading..."@, ""@)]
}

/// The content of the pane after a failed fetch.
pub open spec fn failure_content(message: Seq<char>) -> Seq<(Seq<char>, Seq<char>)> {
    seq![("Error"@, "Failed to load details"@), ("Details"@, message)]
}

impl DetailRequest {
    /// The name under which the described resource appears in the status
    /// line: the bucket, the object's key, or the table.
    pub open spec fn subject(&self) -> Seq<char> {
        match self {
            DetailRequest::Bucket(name) => name@,
            DetailRequest::Object { key, .. } => key@,
            DetailRequest::Table(name) => name@,
        }
    }

    /// `self` carries out `plan`.
    pub open spec fn carries_out(&self, plan: DetailPlan) -> bool {
        match plan {
            DetailPlan::FetchBucket(name) => *self matches DetailRequest::Bucket(b) && b@ == name,
            DetailPlan::FetchObject { bucket, key } => *self matches DetailRequest::Object {
                bucket: b,
                key: k,
            } && b@ == bucket && k@ == key,
            DetailPlan::FetchTable(name) => *self matches DetailRequest::Table(t) && t@ == name,
            _ => false,
        }
    }
}

impl App {
    /// What a request for details leads to in the object store, for the row
    /// at `i` whose text is `line`.
    ///
    /// A row with a role is taken by its role. A bucket is described under
    /// the name its role holds; an object under the path's prefix followed by
    /// the name its role holds, whatever characters the name is made of. A
    /// folder is shown without a fetch; the parent link and decoration have
    /// no details, and neither has an object where the listing stands at the
    /// root.
    ///
    /// A row without a role stands for the resource that its first word
    /// names: below a bucket an object, at the root a bucket, where the first
    /// two rows count as heading and rule.
    pub open spec fn object_store_plan(&self, i: int, line: Seq<char>) -> DetailPlan {
        if 0 <= i < self.s3_items.len() {
            match self.s3_items[i] {
                S3Item::Folder(name) => DetailPlan::Local {
                    content: seq![("Name"@, name@), ("Type"@, "Folder"@)],
                    status: "Viewing details for folder "@ + name@,
                },
                S3Item::ParentDir => DetailPlan::Hint("Parent Directory"@),
                S3Item::Header => DetailPlan::Ignore,
                S3Item::Separator => DetailPlan::Ignore,
                S3Item::Bucket(name) => DetailPlan::FetchBucket(name@),
                S3Item::Object(name) => match self.current_path {
                    Some(path) => DetailPlan::FetchObject {
                        bucket: bucket_of(path@),
                        key: prefix_of(path@) + name@,
                    },
                    None => DetailPlan::Hint("Please select a bucket row"@),
                },
            }
        } else {
            match self.current_path {
                Some(path) => DetailPlan::FetchObject {
                    bucket: bucket_of(path@),
                    key: prefix_of(path@) + first_word(line),
                },
                None => if i <= 1 {
                    DetailPlan::Hint("Please select a bucket row"@)
                } else {
                    DetailPlan::FetchBucket(first_word(line))
                },
            }
        }
    }

    /// What the row under the cursor offers of details, whatever else the
    /// session is busy with.
    ///
    /// Instances, users and alarms are known by their row alone; buckets,
    /// objects and tables are described by the backend. A row that stands
    /// for no resource, as the heading and the rule of a listing of users or
    /// tables do, gives a hint.
    pub open spec fn wanted_details(&self) -> DetailPlan {
        let i = self.selected_index as int;
        let line = self.items[i]@;
        match self.active_kind() {
            ServiceType::S3 => self.object_store_plan(i, line),
            ServiceType::DynamoDB => if i < self.dynamodb_items.len() {
                match self.dynamodb_items[i] {
                    DynamoDbItem::Table(name) => DetailPlan::FetchTable(name@),
                    _ => DetailPlan::Hint("Please select a table row"@),
                }
            } else {
                DetailPlan::FetchTable(line)
            },
            ServiceType::EC2 => one_attribute("Instance ID"@, line, line),
            ServiceType::IAM => if i < self.iam_items.len() {
                match self.iam_items[i] {
                    IamItem::User(name) => one_attribute("User Name"@, name@, line),
                    _ => DetailPlan::Hint("Please select a user row"@),
                }
            } else {
                one_attribute("User Name"@, line, line)
            },
            ServiceType::CloudWatch => one_attribute("Alarm Name"@, line, line),
        }
    }

    /// What a request for details of the row under the cursor leads to.
    ///
    /// Nothing, where the cursor is on no row; a hint, where there is no
    /// backend connection. Else what the row offers, with two exceptions
    /// that keep at most one fetch in flight: no describe call is asked for
    /// while any fetch is outstanding, and the pane is not filled from the
    /// row while it waits for its own fetch. Hints are given all the same.
    pub open spec fn detail_plan(&self) -> DetailPlan {
        if self.selected_index >= self.items.len() {
            DetailPlan::Ignore
        } else if !self.connected {
            DetailPlan::Hint("AWS client not initialized"@)
        } else {
            match self.wanted_details() {
                DetailPlan::Ignore => DetailPlan::Ignore,
                DetailPlan::Hint(text) => DetailPlan::Hint(text),
                DetailPlan::Local { content, status } => if self.detail_loading {
                    DetailPlan::Ignore
                } else {
                    DetailPlan::Local { content, status }
                },
                fetch => if self.in_flight() {
                    DetailPlan::Ignore
                } else {
                    fetch
                },
            }
        }
    }

    /// `after` and `request` are what a request for details makes of
    /// `self`: the outcome of `detail_plan`, and nothing besides. Neither
    /// the rows, the loading state of the main view nor the path change.
    pub open spec fn details_requested(&self, after: &App, request: Option<DetailRequest>) -> bool {
        match self.detail_plan() {
            DetailPlan::Ignore => request is None && *after == *self,
            DetailPlan::Hint(text) => {
                &&& request is None
                &&& *after == (App { status_message: after.status_message, ..*self })
                &&& after.status_message@ == text
            },
            DetailPlan::Local { content, status } => {
                &&& request is None
                &&& *after == (App {
                    show_detail_popup: true,
                    detail_loading: false,
                    detail_content: after.detail_content,
                    status_message: after.status_message,
                    ..*self
                })
                &&& after.detail_content.deep_view() == content
                &&& after.status_message@ == status
            },
            plan => {
                &&& request matches Some(r) && r.carries_out(plan)
                &&& *after == (App {
                    show_detail_popup: true,
                    detail_loading: true,
                    detail_content: after.detail_content,
                    ..*self
                })
                &&& after.detail_content.deep_view() == loading_content()
            },
        }
    }

    fn hint(&mut self, text: &str)
        ensures
            *final(self) == (App { status_message: final(self).status_message, ..*old(self) }),
            final(self).status_message@ == text@,
    {
        self.status_message = String::from_str(text);
    }

    fn show_local(&mut self, key: &str, value: &str, line: &str)
        ensures
            *final(self) == (App {
                show_detail_popup: true,
                detail_loading: false,
                detail_content: final(self).detail_content,
                status_message: final(self).status_message,
                ..*old(self)
            }),
            final(self).detail_content.deep_view() == seq![(key@, value@)],
            final(self).status_message@ == "Viewing details for "@ + line@,
    {
        let content = vec![(String::from_str(key), String::from_str(value))];
        assert(content.deep_view() =~= seq![(key@, value@)]);
        self.show_detail_popup = true;
        self.detail_loading = false;
        self.detail_content = content;
        self.status_message = concat("Viewing details for ", line);
    }

    fn show_loading(&mut self)
        ensures
            *final(self) == (App {
                show_detail_popup: true,
                detail_loading: true,
                detail_content: final(self).detail_content,
                ..*old(self)
            }),
            final(self).detail_content.deep_view() == loading_content(),
    {
        let content = vec![(String::from_str("Loading..."), String::from_str(""))];
        assert(content.deep_view() =~= loading_content());
        self.show_detail_popup = true;
        self.detail_loading = true;
        self.detail_content = content;
    }

    /// Asks for the details of the row under the cursor and returns the
    /// describe call to perform, if one is needed.
    pub fn show_resource_details(&mut self) -> (request: Option<DetailRequest>)
        requires
            old(self).wf(),
        ensures
            final(self).wf(),
            old(self).details_requested(final(self), request),
            request is Some ==> !old(self).in_flight() && final(self).in_flight(),
    {
        if self.selected_index >= self.items.len() {
            return None;
        }
        if !self.connected {
            self.hint("AWS client not initialized");
            return None;
        }
        let busy = self.is_loading();
        let waiting = self.detail_loading;
        let i = self.selected_index;
        let line = self.items[i].clone();
        match self.get_active_service().service_type {
            ServiceType::S3 => {
                if i < self.s3_items.len() {
                    match &self.s3_items[i] {
                        S3Item::Folder(name) => {
                            if waiting {
                                return None;
                            }
                            let content = vec![
                                (String::from_str("Name"), name.clone()),
                                (String::from_str("Type"), String::from_str("Folder")),
                            ];
                            assert(content.deep_view() =~= seq![
                                ("Name"@, name@),
                                ("Type"@, "Folder"@),
                            ]);
                            let status = concat("Viewing details for folder ", name.as_str());
                            self.show_detail_popup = true;
                            self.detail_loading = false;
                            self.detail_content = content;
                            self.status_message = status;
                            return None;
                        },
                        S3Item::ParentDir => {
                            self.hint("Parent Directory");
                            return None;
                        },
                        S3Item::Header => {
                            return None;
                        },
                        S3Item::Separator => {
                            return None;
                        },
                        S3Item::Bucket(name) => {
                            if busy {
                                return None;
                            }
                            let request = DetailRequest::Bucket(name.clone());
                            self.show_loading();
                            return Some(request);
                        },
                        S3Item::Object(name) => {
                            let request = match &self.current_path {
                                Some(path) => {
                                    let parts = split_path(path.as_str());
                                    Some(
                                        DetailRequest::Object {
                                            bucket: parts.0,
                                            key: concat(parts.1.as_str(), name.as_str()),
                                        },
                                    )
                                },
                                None => None,
                            };
                            match request {
                                Some(r) => {
                                    if busy {
                                        return None;
                                    }
                                    self.show_loading();
                                    return Some(r);
                                },
                                None => {
                                    self.hint("Please select a bucket row");
                                    return None;
                                },
                            }
                        },
                    }
                }
                let name = first_word_of(line.as_str());
                let request = match &self.current_path {
                    Some(path) => {
                        let parts = split_path(path.as_str());
                        DetailRequest::Object {
                            bucket: parts.0,
                            key: concat(parts.1.as_str(), name.as_str()),
                        }
                    },
                    None => {
                        if i <= 1 {
                            self.hint("Please select a bucket row");
                            return None;
                        }
                        DetailRequest::Bucket(name)
                    },
                };
                if busy {
                    return None;
                }
                self.show_loading();
                Some(request)
            },
            ServiceType::DynamoDB => {
                let table = if i < self.dynamodb_items.len() {
                    match &self.dynamodb_items[i] {
                        DynamoDbItem::Table(name) => name.clone(),
                        _ => {
                            self.hint("Please select a table row");
                            return None;
                        },
                    }
                } else {
                    line
                };
                if busy {
                    return None;
                }
                self.show_loading();
                Some(DetailRequest::Table(table))
            },
            ServiceType::EC2 => {
                if waiting {
                    return None;
                }
                self.show_local("Instance ID", line.as_str(), line.as_str());
                None
            },
            ServiceType::IAM => {
                let name = if i < self.iam_items.len() {
                    match &self.iam_items[i] {
                        IamItem::User(name) => name.clone(),
                        _ => {
                            self.hint("Please select a user row");
                            return None;
                        },
                    }
                } else {
                    line.clone()
                };
                if waiting {
                    return None;
                }
                self.show_local("User Name", name.as_str(), line.as_str());
                None
            },
            ServiceType::CloudWatch => {
                if waiting {
                    return None;
                }
                self.show_local("Alarm Name", line.as_str(), line.as_str());
                None
            },
        }
    }

    /// Fills the detail pane with what the backend returned for `request`
    /// and says in the status line whose details are shown. Only the pane
    /// and the status line change.
    pub fn details_loaded(&mut self, request: &DetailRequest, details: Vec<(String, String)>)
        ensures
            *final(self) == (App {
                detail_content: details,
                detail_loading: false,
                status_message: final(self).status_message,
                ..*old(self)
            }),
            final(self).status_message@ == "Viewing details for "@ + request.subject(),
            old(self).wf() ==> final(self).wf(),
    {
        let status = match request {
            DetailRequest::Bucket(name) => concat("Viewing details for ", name.as_str()),
            DetailRequest::Object { key, .. } => concat("Viewing details for ", key.as_str()),
            DetailRequest::Table(name) => concat("Viewing details for ", name.as_str()),
        };
        self.detail_content = details;
        self.detail_loading = false;
        self.status_message = status;
    }

    /// Fills the detail pane with the failure of its fetch: a fixed first
    /// line and the backend's message. Only the pane and the status line
    /// change.
    pub fn details_failed(&mut self, message: &str)
        ensures
            *final(self) == (App {
                detail_content: final(self).detail_content,
                detail_loading: false,
                status_message: final(self).status_message,
                ..*old(self)
            }),
            final(self).detail_content.deep_view() == failure_content(message@),
            final(self).status_message@ == "Error loading details: "@ + message@,
            old(self).wf() ==> final(self).wf(),
    {
        let content = vec![
            (String::from_str("Error"), String::from_str("Failed to load details")),
            (String::from_str("Details"), String::from_str(message)),
        ];
        assert(content.deep_view() =~= failure_content(message@));
        self.detail_content = content;
        self.detail_loading = false;
        self.status_message = concat("Error loading details: ", message);
    }
}

} // verus!
