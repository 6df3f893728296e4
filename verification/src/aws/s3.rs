//! Object store: buckets at the root, folders and objects below.

use vstd::prelude::*;
use vstd::string::*;
use crate::path::{prefix_of, split_path};
use crate::text::{append_padded, concat, padded, repeat_char, repeated, widen, widest};

verus! {

/// Role of one row of an object-store listing.
#[derive(Clone, Debug)]
pub enum S3Item {
    Header,
    Separator,
    Bucket(String),
    Folder(String),
    Object(String),
    ParentDir,
}

impl S3Item {
    /// Rows the cursor may rest on: everything but the decoration.
    pub open spec fn selectable(&self) -> bool {
        !(self is Header || self is Separator)
    }

    /// Whether the cursor may rest on a row of this role.
    pub fn is_selectable(&self) -> (b: bool)
        ensures
            b == self.selectable(),
    {
        match self {
            S3Item::Header => false,
            S3Item::Separator => false,
            _ => true,
        }
    }
}

/// What activating a row of an object-store listing asks for.
pub enum S3NavigationAction {
    /// Descend into a folder; the new path.
    EnterFolder(String),
    /// Ascend one level.
    GoBack,
    /// Inspect an object; its full key.
    ShowDetails(String),
    /// Descend into a bucket; the new path.
    EnterBucket(String),
    /// Nothing to do for this row.
    NoAction,
}

/// Names of the buckets, in order.
pub open spec fn bucket_names(buckets: Seq<(Seq<char>, Seq<char>)>) -> Seq<Seq<char>> {
    Seq::new(buckets.len(), |i: int| buckets[i].0)
}

/// Heading of a bucket listing whose name column is `w` wide.
pub open spec fn bucket_header(w: usize) -> Seq<char> {
    padded("Bucket Name"@, w as nat) + "  Creation Date"@
}

/// Row of one bucket in a listing whose name column is `w` wide.
pub open spec fn bucket_row(bucket: (Seq<char>, Seq<char>), w: usize) -> Seq<char> {
    padded(bucket.0, w as nat) + "  "@ + bucket.1
}

/// The rows of a bucket listing: one line of notice where there is no
/// bucket; else a heading, a rule, and one row for each bucket, the name
/// column as wide as the longest name and at least 20.
pub open spec fn bucket_rows(buckets: Seq<(Seq<char>, Seq<char>)>) -> Seq<Seq<char>> {
    let w = widest(bucket_names(buckets), 20);
    if buckets.len() == 0 {
        seq!["No S3 Buckets found"@]
    } else {
        seq![bucket_header(w), repeated('-', w.saturating_add(25) as nat)] + Seq::new(
            buckets.len(),
            |i: int| bucket_row(buckets[i], w),
        )
    }
}

/// `roles` are the roles of the rows of a bucket listing: the notice counts
/// as a heading; else heading, rule, and each bucket under its name.
pub open spec fn bucket_roles(roles: Seq<S3Item>, buckets: Seq<(Seq<char>, Seq<char>)>) -> bool {
    if buckets.len() == 0 {
        roles.len() == 1 && roles[0] is Header
    } else {
        &&& roles.len() == buckets.len() + 2
        &&& roles[0] is Header
        &&& roles[1] is Separator
        &&& forall|j: int|
            2 <= j < roles.len() ==> (#[trigger] roles[j] matches S3Item::Bucket(name) && name@
                == buckets[j - 2].0)
    }
}

/// Names of the entries, in order.
pub open spec fn object_names(objects: Seq<(Seq<char>, Seq<char>, Seq<char>)>) -> Seq<Seq<char>> {
    Seq::new(objects.len(), |i: int| objects[i].0)
}

/// Heading of an object listing whose name column is `w` wide.
pub open spec fn object_header(w: usize) -> Seq<char> {
    padded("Name"@, w as nat) + "  "@ + padded("Size"@, 10) + "  Last Modified"@
}

/// Row of one entry in a listing whose name column is `w` wide.
pub open spec fn object_row(object: (Seq<char>, Seq<char>, Seq<char>), w: usize) -> Seq<char> {
    padded(object.0, w as nat) + "  "@ + padded(object.1, 10) + "  "@ + object.2
}

/// The rows of an object listing: a heading, a rule, the link to the parent,
/// and one row for each entry.
pub open spec fn object_rows(objects: Seq<(Seq<char>, Seq<char>, Seq<char>)>) -> Seq<Seq<char>> {
    let w = widest(object_names(objects), 20);
    seq![object_header(w), repeated('-', w.saturating_add(30) as nat), ".."@] + Seq::new(
        objects.len(),
        |i: int| object_row(objects[i], w),
    )
}

/// `role` is the role of the row of `object`: it carries the entry's name, as
/// a folder where the size reads `DIR` and as an object otherwise.
pub open spec fn object_role(role: S3Item, object: (Seq<char>, Seq<char>, Seq<char>)) -> bool {
    if object.1 == "DIR"@ {
        role matches S3Item::Folder(name) && name@ == object.0
    } else {
        role matches S3Item::Object(name) && name@ == object.0
    }
}

/// `roles` are the roles of the rows of an object listing: heading, rule,
/// parent link, and the role of each entry.
pub open spec fn object_roles(
    roles: Seq<S3Item>,
    objects: Seq<(Seq<char>, Seq<char>, Seq<char>)>,
) -> bool {
    &&& roles.len() == objects.len() + 3
    &&& roles[0] is Header
    &&& roles[1] is Separator
    &&& roles[2] is ParentDir
    &&& forall|j: int| 3 <= j < roles.len() ==> object_role(#[trigger] roles[j], objects[j - 3])
}

/// `action` is what activating `item` asks for while the listing stands at
/// `path`: a bucket is entered; a folder is entered and an object inspected
/// only below a bucket; the parent link leads up; decoration does nothing.
pub open spec fn selection_of(
    item: S3Item,
    path: Option<Seq<char>>,
    action: S3NavigationAction,
) -> bool {
    match item {
        S3Item::Bucket(name) => action matches S3NavigationAction::EnterBucket(p) && p@ == name@
            + "/"@,
        S3Item::Folder(name) => match path {
            Some(at) => action matches S3NavigationAction::EnterFolder(p) && p@ == at + name@,
            None => action is NoAction,
        },
        S3Item::Object(key) => match path {
            Some(at) => action matches S3NavigationAction::ShowDetails(k) && k@ == prefix_of(at)
                + key@,
            None => action is NoAction,
        },
        S3Item::ParentDir => action is GoBack,
        _ => action is NoAction,
    }
}

/// Row formatting and navigation rules of the object store.
pub struct S3Service {}

impl S3Service {
    /// Rows and roles for the buckets at the root.
    pub fn format_bucket_list(buckets: &[(String, String)]) -> (out: (Vec<String>, Vec<S3Item>))
        ensures
            out.0.deep_view() == bucket_rows(buckets.deep_view()),
            bucket_roles(out.1@, buckets.deep_view()),
            out.0.len() == out.1.len(),
    {
        let ghost recs = buckets.deep_view();
        if buckets.len() == 0 {
            let items = vec![String::from_str("No S3 Buckets found")];
            let roles = vec![S3Item::Header];
            assert(items.deep_view() =~= bucket_rows(recs));
            return (items, roles);
        }
        let mut w: usize = 20;
        let mut i: usize = 0;
        while i < buckets.len()
            invariant
                i <= buckets.len(),
                recs == buckets.deep_view(),
                w == widest(bucket_names(recs).take(i as int), 20),
            decreases buckets.len() - i,
        {
            w = widen(w, buckets[i].0.as_str());
            i += 1;
            proof {
                let col = bucket_names(recs);
                assert(col.take(i as int).drop_last() =~= col.take(i - 1));
                assert(col.take(i as int).last() == recs[i - 1].0);
            }
        }
        assert(bucket_names(recs).take(i as int) =~= bucket_names(recs));
        let mut header = String::new();
        append_padded(&mut header, "Bucket Name", w);
        header.append("  Creation Date");
        let separator = repeat_char('-', w.saturating_add(25));
        let mut items = vec![header, separator];
        let mut roles = vec![S3Item::Header, S3Item::Separator];
        let mut k: usize = 0;
        while k < buckets.len()
            invariant
                k <= buckets.len(),
                recs == buckets.deep_view(),
                buckets.len() > 0,
                w == widest(bucket_names(recs), 20),
                items.len() == k + 2,
                roles.len() == k + 2,
                items.deep_view() =~= bucket_rows(recs).take(k + 2),
                roles[0] is Header,
                roles[1] is Separator,
                forall|j: int|
                    2 <= j < roles.len() ==> (#[trigger] roles[j] matches S3Item::Bucket(name)
                        && name@ == recs[j - 2].0),
            decreases buckets.len() - k,
        {
            let mut row = String::new();
            append_padded(&mut row, buckets[k].0.as_str(), w);
            row.append("  ");
            row.append(buckets[k].1.as_str());
            assert(row@ == bucket_row(recs[k as int], w));
            items.push(row);
            roles.push(S3Item::Bucket(buckets[k].0.clone()));
            k += 1;
        }
        assert(bucket_rows(recs).take(k + 2) =~= bucket_rows(recs));
        (items, roles)
    }

    /// Rows and roles for the entries below a bucket. A link to the parent
    /// always comes first.
    pub fn format_object_list(objects: &[(String, String, String)], _bucket: &str, _prefix: &str) -> (out: (
        Vec<String>,
        Vec<S3Item>,
    ))
        ensures
            out.0.deep_view() == object_rows(objects.deep_view()),
            object_roles(out.1@, objects.deep_view()),
            out.0.len() == out.1.len(),
    {
        let ghost recs = objects.deep_view();
        let mut w: usize = 20;
        let mut i: usize = 0;
        while i < objects.len()
            invariant
                i <= objects.len(),
                recs == objects.deep_view(),
                w == widest(object_names(recs).take(i as int), 20),
            decreases objects.len() - i,
        {
            w = widen(w, objects[i].0.as_str());
            i += 1;
            proof {
                let col = object_names(recs);
                assert(col.take(i as int).drop_last() =~= col.take(i - 1));
                assert(col.take(i as int).last() == recs[i - 1].0);
            }
        }
        assert(object_names(recs).take(i as int) =~= object_names(recs));
        let mut header = String::new();
        append_padded(&mut header, "Name", w);
        header.append("  ");
        append_padded(&mut header, "Size", 10);
        header.append("  Last Modified");
        let separator = repeat_char('-', w.saturating_add(30));
        let mut items = vec![header, separator, String::from_str("..")];
        let mut roles = vec![S3Item::Header, S3Item::Separator, S3Item::ParentDir];
        let dir = String::from_str("DIR");
        let mut k: usize = 0;
        while k < objects.len()
            invariant
                k <= objects.len(),
                recs == objects.deep_view(),
                dir@ == "DIR"@,
                w == widest(object_names(recs), 20),
                items.len() == k + 3,
                roles.len() == k + 3,
                items.deep_view() =~= object_rows(recs).take(k + 3),
                roles[0] is Header,
                roles[1] is Separator,
                roles[2] is ParentDir,
                forall|j: int| 3 <= j < roles.len() ==> object_role(#[trigger] roles[j], recs[j - 3]),
            decreases objects.len() - k,
        {
            let mut row = String::new();
            append_padded(&mut row, objects[k].0.as_str(), w);
            row.append("  ");
            append_padded(&mut row, objects[k].1.as_str(), 10);
            row.append("  ");
            row.append(objects[k].2.as_str());
            assert(row@ == object_row(recs[k as int], w));
            items.push(row);
            if objects[k].1 == dir {
                roles.push(S3Item::Folder(objects[k].0.clone()));
            } else {
                roles.push(S3Item::Object(objects[k].0.clone()));
            }
            k += 1;
        }
        assert(object_rows(recs).take(k + 3) =~= object_rows(recs));
        (items, roles)
    }

    /// What activating `item` asks for while the listing stands at
    /// `current_path`.
    pub fn handle_selection(item: &S3Item, current_path: &Option<String>) -> (action:
        S3NavigationAction)
        ensures
            selection_of(*item, current_path.deep_view(), action),
    {
        match item {
            S3Item::Bucket(name) => S3NavigationAction::EnterBucket(concat(name.as_str(), "/")),
            S3Item::Folder(name) => {
                match current_path {
                    Some(path) => S3NavigationAction::EnterFolder(
                        concat(path.as_str(), name.as_str()),
                    ),
                    None => S3NavigationAction::NoAction,
                }
            },
            S3Item::Object(key) => {
                match current_path {
                    Some(path) => {
                        let parts = split_path(path.as_str());
                        S3NavigationAction::ShowDetails(concat(parts.1.as_str(), key.as_str()))
                    },
                    None => S3NavigationAction::NoAction,
                }
            },
            S3Item::ParentDir => S3NavigationAction::GoBack,
            _ => S3NavigationAction::NoAction,
        }
    }
}

} // verus!
