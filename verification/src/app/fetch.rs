//! What the session asks of the backend, and what comes back.

use vstd::prelude::*;
use crate::app::service::ServiceType;
use crate::path::{bucket_of, prefix_of};

verus! {

/// A list call for the driver to perform.
pub enum ListRequest {
    Instances,
    Buckets,
    /// The entries of `bucket` under `prefix`.
    Objects { bucket: String, prefix: String },
    Users,
    Alarms,
    Tables,
}

/// A describe call for the driver to perform.
pub enum DetailRequest {
    /// The bucket of this name.
    Bucket(String),
    /// The object `key` of `bucket`.
    Object { bucket: String, key: String },
    /// The table of this name.
    Table(String),
}

/// A backend call for the driver to perform.
pub enum Request {
    List(ListRequest),
    Detail(DetailRequest),
}

/// What a list call returned.
pub enum Listing {
    /// Rows that are ready to show, without roles.
    Lines(Vec<String>),
    /// Buckets: name and creation date.
    Buckets(Vec<(String, String)>),
    /// Entries of `bucket` under `prefix`: name, size (`DIR` for a folder)
    /// and date of the last change.
    Objects { objects: Vec<(String, String, String)>, bucket: String, prefix: String },
    /// Users: name, identifier and creation date.
    Users(Vec<(String, String, String)>),
    /// Tables: name, status, number of items and size.
    Tables(Vec<(String, String, String, String)>),
}

/// `request` is the list call for a service of `kind` standing at `path`:
/// the object store lists buckets at the root and, below it, the entries of
/// the path's bucket under the path's prefix.
pub open spec fn lists(request: ListRequest, kind: ServiceType, path: Option<Seq<char>>) -> bool {
    match kind {
        ServiceType::EC2 => request is Instances,
        ServiceType::S3 => match path {
            Some(at) => request matches ListRequest::Objects { bucket, prefix } && bucket@
                == bucket_of(at) && prefix@ == prefix_of(at),
            None => request is Buckets,
        },
        ServiceType::IAM => request is Users,
        ServiceType::CloudWatch => request is Alarms,
        ServiceType::DynamoDB => request is Tables,
    }
}

impl Listing {
    /// Whether the backend found nothing. A listing below a bucket is never
    /// empty: it holds at least the link to the parent.
    pub open spec fn is_empty(&self) -> bool {
        match self {
            Listing::Lines(lines) => lines.len() == 0,
            Listing::Buckets(buckets) => buckets.len() == 0,
            Listing::Objects { .. } => false,
            Listing::Users(users) => users.len() == 0,
            Listing::Tables(tables) => tables.len() == 0,
        }
    }

    /// Whether a service of `kind` reads the roles that this listing
    /// brings. Plain lines bring none and fit any service.
    pub open spec fn fits(&self, kind: ServiceType) -> bool {
        match self {
            Listing::Lines(_) => true,
            Listing::Buckets(_) => kind == ServiceType::S3,
            Listing::Objects { .. } => kind == ServiceType::S3,
            Listing::Users(_) => kind == ServiceType::IAM,
            Listing::Tables(_) => kind == ServiceType::DynamoDB,
        }
    }
}

} // verus!
