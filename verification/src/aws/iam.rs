//! Identity principals.

use vstd::prelude::*;
use vstd::string::*;
use crate::aws::time::Timestamp;
use crate::text::{append_padded, padded, repeat_char, repeated, widen, widest};

verus! {

/// Role of one row of a user listing.
#[derive(Clone, Debug, PartialEq)]
pub enum IamItem {
    Header,
    Separator,
    User(String),
}

impl IamItem {
    /// Rows the cursor may rest on: everything but the decoration.
    pub open spec fn selectable(&self) -> bool {
        self is User
    }

    /// Whether the cursor may rest on a row of this role.
    pub fn is_selectable(&self) -> (b: bool)
        ensures
            b == self.selectable(),
    {
        match self {
            IamItem::User(_) => true,
            _ => false,
        }
    }
}

/// Names of the users, in order.
pub open spec fn user_names(users: Seq<(Seq<char>, Seq<char>, Seq<char>)>) -> Seq<Seq<char>> {
    Seq::new(users.len(), |i: int| users[i].0)
}

/// Identifiers of the users, in order.
pub open spec fn user_ids(users: Seq<(Seq<char>, Seq<char>, Seq<char>)>) -> Seq<Seq<char>> {
    Seq::new(users.len(), |i: int| users[i].1)
}

/// Heading of a user listing with columns `wn` and `wi` wide.
pub open spec fn user_header(wn: usize, wi: usize) -> Seq<char> {
    padded("User Name"@, wn as nat) + "  "@ + padded("User ID"@, wi as nat) + "  Creation Date"@
}

/// Row of one user: name, identifier, creation date.
pub open spec fn user_row(user: (Seq<char>, Seq<char>, Seq<char>), wn: usize, wi: usize) -> Seq<
    char,
> {
    padded(user.0, wn as nat) + "  "@ + padded(user.1, wi as nat) + "  "@ + user.2
}

/// The rows of a user listing: one line of notice where there is no user;
/// else a heading, a rule, and one row for each user, the name and
/// identifier columns as wide as their longest value and at least 20.
pub open spec fn user_rows(users: Seq<(Seq<char>, Seq<char>, Seq<char>)>) -> Seq<Seq<char>> {
    let wn = widest(user_names(users), 20);
    let wi = widest(user_ids(users), 20);
    if users.len() == 0 {
        seq!["No IAM Users found"@]
    } else {
        seq![user_header(wn, wi), repeated('-', wn.saturating_add(wi).saturating_add(20) as nat)]
            + Seq::new(users.len(), |i: int| user_row(users[i], wn, wi))
    }
}

/// `roles` are the roles of the rows of a user listing: the notice counts as
/// a heading; else heading, rule, and each user under its name.
pub open spec fn user_roles(roles: Seq<IamItem>, users: Seq<(Seq<char>, Seq<char>, Seq<char>)>) -> bool {
    if users.len() == 0 {
        roles.len() == 1 && roles[0] is Header
    } else {
        &&& roles.len() == users.len() + 2
        &&& roles[0] is Header
        &&& roles[1] is Separator
        &&& forall|j: int|
            2 <= j < roles.len() ==> (#[trigger] roles[j] matches IamItem::User(name) && name@
                == users[j - 2].0)
    }
}

/// The record of one user: name, identifier, and the text of the creation
/// date.
pub open spec fn user_record(raw: (String, String, Timestamp)) -> (
    Seq<char>,
    Seq<char>,
    Seq<char>,
) {
    (raw.0@, raw.1@, raw.2.text_of())
}

/// Row formatting of the identity service.
pub struct IamService {}

impl IamService {
    /// The records of the users that the backend listed, in order.
    pub fn list_users(raw: &[(String, String, Timestamp)]) -> (users: Vec<(String, String, String)>)
        ensures
            users.deep_view() == Seq::new(raw.len() as nat, |i: int| user_record(raw[i])),
    {
        let ghost target = Seq::new(raw.len() as nat, |i: int| user_record(raw[i]));
        let mut users: Vec<(String, String, String)> = Vec::new();
        let mut i: usize = 0;
        while i < raw.len()
            invariant
                i <= raw.len(),
                users.len() == i,
                target == Seq::new(raw.len() as nat, |i: int| user_record(raw[i])),
                users.deep_view() =~= target.take(i as int),
            decreases raw.len() - i,
        {
            let record = (raw[i].0.clone(), raw[i].1.clone(), raw[i].2.text());
            assert(record.deep_view() == target[i as int]);
            users.push(record);
            i += 1;
        }
        assert(target.take(i as int) =~= target);
        users
    }

    /// Rows and roles for the users.
    pub fn format_user_list(users: &[(String, String, String)]) -> (out: (Vec<String>, Vec<IamItem>))
        ensures
            out.0.deep_view() == user_rows(users.deep_view()),
            user_roles(out.1@, users.deep_view()),
            out.0.len() == out.1.len(),
    {
        let ghost recs = users.deep_view();
        if users.len() == 0 {
            let items = vec![String::from_str("No IAM Users found")];
            let roles = vec![IamItem::Header];
            assert(items.deep_view() =~= user_rows(recs));
            return (items, roles);
        }
        let mut wn: usize = 20;
        let mut wi: usize = 20;
        let mut i: usize = 0;
        while i < users.len()
            invariant
                i <= users.len(),
                recs == users.deep_view(),
                wn == widest(user_names(recs).take(i as int), 20),
                wi == widest(user_ids(recs).take(i as int), 20),
            decreases users.len() - i,
        {
            wn = widen(wn, users[i].0.as_str());
            wi = widen(wi, users[i].1.as_str());
            i += 1;
            proof {
                let names = user_names(recs);
                assert(names.take(i as int).drop_last() =~= names.take(i - 1));
                assert(names.take(i as int).last() == recs[i - 1].0);
                let ids = user_ids(recs);
                assert(ids.take(i as int).drop_last() =~= ids.take(i - 1));
                assert(ids.take(i as int).last() == recs[i - 1].1);
            }
        }
        assert(user_names(recs).take(i as int) =~= user_names(recs));
        assert(user_ids(recs).take(i as int) =~= user_ids(recs));
        let mut header = String::new();
        append_padded(&mut header, "User Name", wn);
        header.append("  ");
        append_padded(&mut header, "User ID", wi);
        header.append("  Creation Date");
        let separator = repeat_char('-', wn.saturating_add(wi).saturating_add(20));
        let mut items = vec![header, separator];
        let mut roles = vec![IamItem::Header, IamItem::Separator];
        let mut k: usize = 0;
        while k < users.len()
            invariant
                k <= users.len(),
                recs == users.deep_view(),
                users.len() > 0,
                wn == widest(user_names(recs), 20),
                wi == widest(user_ids(recs), 20),
                items.len() == k + 2,
                roles.len() == k + 2,
                items.deep_view() =~= user_rows(recs).take(k + 2),
                roles[0] is Header,
                roles[1] is Separator,
                forall|j: int|
                    2 <= j < roles.len() ==> (#[trigger] roles[j] matches IamItem::User(name)
                        && name@ == recs[j - 2].0),
            decreases users.len() - k,
        {
            let mut row = String::new();
            append_padded(&mut row, users[k].0.as_str(), wn);
            row.append("  ");
            append_padded(&mut row, users[k].1.as_str(), wi);
            row.append("  ");
            row.append(users[k].2.as_str());
            assert(row@ == user_row(recs[k as int], wn, wi));
            items.push(row);
            roles.push(IamItem::User(users[k].0.clone()));
            k += 1;
        }
        assert(user_rows(recs).take(k + 2) =~= user_rows(recs));
        (items, roles)
    }
}

} // verus!
