//! Table store.

use vstd::prelude::*;
use vstd::string::*;
use crate::text::{append_padded, padded, repeat_char, repeated, widen, widest};

verus! {

/// Role of one row of a table listing.
#[derive(Clone, Debug)]
pub enum DynamoDbItem {
    Header,
    Separator,
    Table(String),
}

impl DynamoDbItem {
    /// Rows the cursor may rest on: everything but the decoration.
    pub open spec fn selectable(&self) -> bool {
        self is Table
    }

    /// Whether the cursor may rest on a row of this role.
    pub fn is_selectable(&self) -> (b: bool)
        ensures
            b == self.selectable(),
    {
        match self {
            DynamoDbItem::Table(_) => true,
            _ => false,
        }
    }
}

/// Names of the tables, in order.
pub open spec fn table_names(tables: Seq<(Seq<char>, Seq<char>, Seq<char>, Seq<char>)>) -> Seq<
    Seq<char>,
> {
    Seq::new(tables.len(), |i: int| tables[i].0)
}

/// Heading of a table listing whose name column is `w` wide.
pub open spec fn table_header(w: usize) -> Seq<char> {
    padded("Table Name"@, w as nat) + "  "@ + padded("Status"@, 10) + "  "@ + padded("Items"@, 12)
        + "  Size"@
}

/// Row of one table: name, status, number of items, size.
pub open spec fn table_row(table: (Seq<char>, Seq<char>, Seq<char>, Seq<char>), w: usize) -> Seq<
    char,
> {
    padded(table.0, w as nat) + "  "@ + padded(table.1, 10) + "  "@ + padded(table.2, 12) + "  "@
        + table.3
}

/// The rows of a table listing: one line of notice where there is no table;
/// else a heading, a rule, and one row for each table, the name column as
/// wide as the longest name and at least 20.
pub open spec fn table_rows(tables: Seq<(Seq<char>, Seq<char>, Seq<char>, Seq<char>)>) -> Seq<
    Seq<char>,
> {
    let w = widest(table_names(tables), 20);
    if tables.len() == 0 {
        seq!["No DynamoDB Tables found"@]
    } else {
        seq![table_header(w), repeated('-', w.saturating_add(40) as nat)] + Seq::new(
            tables.len(),
            |i: int| table_row(tables[i], w),
        )
    }
}

/// `roles` are the roles of the rows of a table listing: the notice counts
/// as a heading; else heading, rule, and each table under its name.
pub open spec fn table_roles(
    roles: Seq<DynamoDbItem>,
    tables: Seq<(Seq<char>, Seq<char>, Seq<char>, Seq<char>)>,
) -> bool {
    if tables.len() == 0 {
        roles.len() == 1 && roles[0] is Header
    } else {
        &&& roles.len() == tables.len() + 2
        &&& roles[0] is Header
        &&& roles[1] is Separator
        &&& forall|j: int|
            2 <= j < roles.len() ==> (#[trigger] roles[j] matches DynamoDbItem::Table(name)
                && name@ == tables[j - 2].0)
    }
}

/// Row formatting of the table store.
pub struct DynamoDbService {}

impl DynamoDbService {
    /// Rows and roles for the tables.
    pub fn format_table_list(tables: &[(String, String, String, String)]) -> (out: (
        Vec<String>,
        Vec<DynamoDbItem>,
    ))
        ensures
            out.0.deep_view() == table_rows(tables.deep_view()),
            table_roles(out.1@, tables.deep_view()),
            out.0.len() == out.1.len(),
    {
        let ghost recs = tables.deep_view();
        if tables.len() == 0 {
            let items = vec![String::from_str("No DynamoDB Tables found")];
            let roles = vec![DynamoDbItem::Header];
            assert(items.deep_view() =~= table_rows(recs));
            return (items, roles);
        }
        let mut w: usize = 20;
        let mut i: usize = 0;
        while i < tables.len()
            invariant
                i <= tables.len(),
                recs == tables.deep_view(),
                w == widest(table_names(recs).take(i as int), 20),
            decreases tables.len() - i,
        {
            w = widen(w, tables[i].0.as_str());
            i += 1;
            proof {
                let col = table_names(recs);
                assert(col.take(i as int).drop_last() =~= col.take(i - 1));
                assert(col.take(i as int).last() == recs[i - 1].0);
            }
        }
        assert(table_names(recs).take(i as int) =~= table_names(recs));
        let mut header = String::new();
        append_padded(&mut header, "Table Name", w);
        header.append("  ");
        append_padded(&mut header, "Status", 10);
        header.append("  ");
        append_padded(&mut header, "Items", 12);
        header.append("  Size");
        let separator = repeat_char('-', w.saturating_add(40));
        let mut items = vec![header, separator];
        let mut roles = vec![DynamoDbItem::Header, DynamoDbItem::Separator];
        let mut k: usize = 0;
        while k < tables.len()
            invariant
                k <= tables.len(),
                recs == tables.deep_view(),
                tables.len() > 0,
                w == widest(table_names(recs), 20),
                items.len() == k + 2,
                roles.len() == k + 2,
                items.deep_view() =~= table_rows(recs).take(k + 2),
                roles[0] is Header,
                roles[1] is Separator,
                forall|j: int|
                    2 <= j < roles.len() ==> (#[trigger] roles[j] matches DynamoDbItem::Table(name)
                        && name@ == recs[j - 2].0),
            decreases tables.len() - k,
        {
            let mut row = String::new();
            append_padded(&mut row, tables[k].0.as_str(), w);
            row.append("  ");
            append_padded(&mut row, tables[k].1.as_str(), 10);
            row.append("  ");
            append_padded(&mut row, tables[k].2.as_str(), 12);
            row.append("  ");
            row.append(tables[k].3.as_str());
            assert(row@ == table_row(recs[k as int], w));
            items.push(row);
            roles.push(DynamoDbItem::Table(tables[k].0.clone()));
            k += 1;
        }
        assert(table_rows(recs).take(k + 2) =~= table_rows(recs));
        (items, roles)
    }
}

} // verus!
