//! The role of a row, whatever service it belongs to.

use vstd::prelude::*;
use crate::aws::dynamodb::DynamoDbItem;
use crate::aws::iam::IamItem;
use crate::aws::s3::S3Item;

verus! {

/// What a row is to the cursor.
#[derive(Clone, Copy, PartialEq, Eq, Structural, Debug)]
pub enum Role {
    /// The heading of a listing, or a notice in its place.
    Header,
    /// The rule under the heading.
    Separator,
    /// The link that leads one level up.
    ParentLink,
    /// A row that stands for one resource.
    Entry,
}

impl Role {
    /// The cursor rests on entries and on the parent link only.
    pub open spec fn selectable(self) -> bool {
        self == Role::Entry || self == Role::ParentLink
    }

    /// Whether the cursor may rest on a row of this role.
    pub fn is_selectable(self) -> (b: bool)
        ensures
            b == self.selectable(),
    {
        match self {
            Role::Entry => true,
            Role::ParentLink => true,
            _ => false,
        }
    }
}

impl S3Item {
    /// The role of a row of the object store: buckets, folders and objects
    /// are entries.
    pub open spec fn role_of(&self) -> Role {
        match self {
            S3Item::Header => Role::Header,
            S3Item::Separator => Role::Separator,
            S3Item::ParentDir => Role::ParentLink,
            _ => Role::Entry,
        }
    }

    /// The role of the row.
    pub fn role(&self) -> (r: Role)
        ensures
            r == self.role_of(),
            r.selectable() == self.selectable(),
    {
        match self {
            S3Item::Header => Role::Header,
            S3Item::Separator => Role::Separator,
            S3Item::ParentDir => Role::ParentLink,
            _ => Role::Entry,
        }
    }
}

impl IamItem {
    /// The role of a row of users.
    pub open spec fn role_of(&self) -> Role {
        match self {
            IamItem::Header => Role::Header,
            IamItem::Separator => Role::Separator,
            IamItem::User(_) => Role::Entry,
        }
    }

    /// The role of the row.
    pub fn role(&self) -> (r: Role)
        ensures
            r == self.role_of(),
            r.selectable() == self.selectable(),
    {
        match self {
            IamItem::Header => Role::Header,
            IamItem::Separator => Role::Separator,
            IamItem::User(_) => Role::Entry,
        }
    }
}

impl DynamoDbItem {
    /// The role of a row of tables.
    pub open spec fn role_of(&self) -> Role {
        match self {
            DynamoDbItem::Header => Role::Header,
            DynamoDbItem::Separator => Role::Separator,
            DynamoDbItem::Table(_) => Role::Entry,
        }
    }

    /// The role of the row.
    pub fn role(&self) -> (r: Role)
        ensures
            r == self.role_of(),
            r.selectable() == self.selectable(),
    {
        match self {
            DynamoDbItem::Header => Role::Header,
            DynamoDbItem::Separator => Role::Separator,
            DynamoDbItem::Table(_) => Role::Entry,
        }
    }
}

} // verus!
