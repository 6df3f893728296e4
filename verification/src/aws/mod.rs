//! Per-service row models: how the records of each backend become rows, and
//! what activating a row means.

pub mod attrs;
pub mod cloudwatch;
pub mod dynamodb;
pub mod dynamodb_records;
pub mod ec2;
pub mod ecs;
pub mod iam;
pub mod lambda;
pub mod mwaa;
pub mod role;
pub mod s3;
pub mod s3_records;
pub mod table;
pub mod time;
pub mod utils;

pub use cloudwatch::CloudwatchService;
pub use dynamodb::{DynamoDbItem, DynamoDbService};
pub use ec2::{Ec2Item, Ec2Service};
pub use ecs::{EcsItem, EcsService};
pub use iam::{IamItem, IamService};
pub use lambda::{LambdaItem, LambdaService};
pub use mwaa::{MwaaItem, MwaaService};
pub use role::Role;
pub use s3::{S3Item, S3NavigationAction, S3Service};
