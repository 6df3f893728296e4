//! The service catalog: which resource kinds can be browsed.

use vstd::prelude::*;

verus! {

/// A resource kind the browser can list.
#[derive(Clone, Copy, PartialEq, Eq, Structural)]
pub enum ServiceType {
    EC2,
    S3,
    IAM,
    CloudWatch,
    DynamoDB,
}

impl ServiceType {
    /// The title under which the service's resources are shown.
    pub open spec fn title(self) -> Seq<char> {
        match self {
            ServiceType::EC2 => "EC2 Instances"@,
            ServiceType::S3 => "S3 Buckets"@,
            ServiceType::IAM => "IAM Users"@,
            ServiceType::CloudWatch => "CloudWatch Alarms"@,
            ServiceType::DynamoDB => "DynamoDB Tables"@,
        }
    }

    /// The short label used where space is scarce.
    pub open spec fn label(self) -> Seq<char> {
        match self {
            ServiceType::EC2 => "EC2"@,
            ServiceType::S3 => "S3"@,
            ServiceType::IAM => "IAM"@,
            ServiceType::CloudWatch => "CloudWatch"@,
            ServiceType::DynamoDB => "DynamoDB"@,
        }
    }

    /// The title under which the service's resources are shown.
    pub fn as_str(&self) -> (s: &str)
        ensures
            s@ == self.title(),
    {
        match self {
            ServiceType::EC2 => "EC2 Instances",
            ServiceType::S3 => "S3 Buckets",
            ServiceType::IAM => "IAM Users",
            ServiceType::CloudWatch => "CloudWatch Alarms",
            ServiceType::DynamoDB => "DynamoDB Tables",
        }
    }

    /// The short label.
    pub fn short_name(&self) -> (s: &str)
        ensures
            s@ == self.label(),
    {
        match self {
            ServiceType::EC2 => "EC2",
            ServiceType::S3 => "S3",
            ServiceType::IAM => "IAM",
            ServiceType::CloudWatch => "CloudWatch",
            ServiceType::DynamoDB => "DynamoDB",
        }
    }
}

/// One entry of the service catalog. Only `favorite` ever changes.
#[derive(Clone, Copy)]
pub struct ServiceInfo {
    pub service_type: ServiceType,
    pub favorite: bool,
}

impl ServiceInfo {
    /// An entry for a service of the given kind.
    pub fn new(service_type: ServiceType, favorite: bool) -> (info: Self)
        ensures
            info == (ServiceInfo { service_type, favorite }),
    {
        Self { service_type, favorite }
    }

    /// The title of the service.
    pub fn as_str(&self) -> (s: &str)
        ensures
            s@ == self.service_type.title(),
    {
        self.service_type.as_str()
    }

    /// The short label of the service.
    pub fn short_name(&self) -> (s: &str)
        ensures
            s@ == self.service_type.label(),
    {
        self.service_type.short_name()
    }
}

/// Coarse status of the main view's last fetch.
#[derive(Clone, Copy, PartialEq, Eq, Structural, Debug)]
pub enum LoadingState {
    Idle,
    Loading,
    Loaded,
    Error,
}

} // verus!
