//! Table store: from the backend's answers to the records and attributes
//! that are shown.

use vstd::prelude::*;
use vstd::string::*;
use crate::aws::attrs::{extend, or_text, pair, text_or};
use crate::aws::dynamodb::DynamoDbService;
use crate::aws::time::{or_time, time_or, Timestamp};
use crate::aws::utils::{format_size, size_text};
use crate::text::{
    append_padded, concat, join, joined, padded, repeat_char, repeated, signed_decimal,
    signed_decimal_string,
};

verus! {

/// What the backend tells of a table in a listing.
pub struct TableSummary {
    pub status: Option<String>,
    pub item_count: Option<i64>,
    /// In bytes.
    pub size_bytes: Option<i64>,
}

/// What the backend tells of one secondary index.
pub struct IndexSummary {
    pub index_name: Option<String>,
    /// Global indexes only.
    pub index_status: Option<String>,
    pub item_count: Option<i64>,
}

/// What the backend tells of one table.
pub struct TableDescription {
    pub table_name: Option<String>,
    pub table_status: Option<String>,
    pub item_count: Option<i64>,
    /// In bytes.
    pub table_size_bytes: Option<i64>,
    pub creation_date_time: Option<Timestamp>,
    /// Attribute name and key type of each key.
    pub key_schema: Option<Vec<(String, String)>>,
    pub global_secondary_indexes: Option<Vec<IndexSummary>>,
    pub local_secondary_indexes: Option<Vec<IndexSummary>>,
}

/// The number, or 0 where there is none.
pub open spec fn or_zero(value: Option<i64>) -> int {
    match value {
        Some(n) => n as int,
        None => 0,
    }
}

/// The record of a table in a listing: name, status, number of items and
/// size. A table that could not be described is listed with unknown
/// details; one of which the backend says nothing is left out.
pub open spec fn table_record(name: String, described: Result<Option<TableSummary>, String>) -> Option<
    (Seq<char>, Seq<char>, Seq<char>, Seq<char>),
> {
    match described {
        Ok(Some(table)) => Some(
            (
                name@,
                or_text(table.status, "UNKNOWN"@),
                signed_decimal(or_zero(table.item_count)),
                size_text(or_zero(table.size_bytes)),
            ),
        ),
        Ok(None) => None,
        Err(_) => Some((name@, "UNKNOWN"@, "?"@, "?"@)),
    }
}

/// The records of the tables, in order.
pub open spec fn table_records(described: Seq<(String, Result<Option<TableSummary>, String>)>) -> Seq<
    (Seq<char>, Seq<char>, Seq<char>, Seq<char>),
>
    decreases described.len(),
{
    if described.len() == 0 {
        Seq::empty()
    } else {
        let rest = table_records(described.drop_last());
        match table_record(described.last().0, described.last().1) {
            Some(record) => rest.push(record),
            None => rest,
        }
    }
}

/// Each key as its attribute name and, in brackets, its type.
pub open spec fn key_texts(keys: Seq<(String, String)>) -> Seq<Seq<char>> {
    Seq::new(keys.len(), |i: int| keys[i].0@ + " ("@ + keys[i].1@ + ")"@)
}

/// The key schema of a table on one line, where the backend gave one.
pub open spec fn key_schema_part(keys: Option<Vec<(String, String)>>) -> Seq<
    (Seq<char>, Seq<char>),
> {
    match keys {
        Some(list) => seq![("Key Schema"@, joined(key_texts(list@), ", "@))],
        None => Seq::empty(),
    }
}

/// One line of the table of global indexes: name, status and items in
/// columns 30, 15 and 10 wide.
pub open spec fn global_index_line(name: Seq<char>, status: Seq<char>, items: Seq<char>) -> Seq<
    char,
> {
    padded(name, 30) + " "@ + padded(status, 15) + " "@ + padded(items, 10)
}

/// One line of the table of local indexes: name and items in columns 30
/// and 10 wide.
pub open spec fn local_index_line(name: Seq<char>, items: Seq<char>) -> Seq<char> {
    padded(name, 30) + " "@ + padded(items, 10)
}

/// The line of one index; what the backend left out reads `?`, a missing
/// count 0.
pub open spec fn index_line(index: IndexSummary, global: bool) -> Seq<char> {
    if global {
        global_index_line(
            or_text(index.index_name, "?"@),
            or_text(index.index_status, "?"@),
            signed_decimal(or_zero(index.item_count)),
        )
    } else {
        local_index_line(
            or_text(index.index_name, "?"@),
            signed_decimal(or_zero(index.item_count)),
        )
    }
}

/// The table of the indexes of one kind: nothing where there is no index;
/// else an empty line, a title, a heading, a rule, and one line for each
/// index, all but the title without a key.
pub open spec fn indexes_part(indexes: Option<Vec<IndexSummary>>, global: bool) -> Seq<
    (Seq<char>, Seq<char>),
> {
    match indexes {
        Some(list) => if list.len() == 0 {
            Seq::empty()
        } else {
            seq![
                (""@, ""@),
                (
                    if global {
                        "Global Secondary Indexes"@
                    } else {
                        "Local Secondary Indexes"@
                    },
                    ""@,
                ),
                (
                    ""@,
                    if global {
                        global_index_line("Index Name"@, "Status"@, "Items"@)
                    } else {
                        local_index_line("Index Name"@, "Items"@)
                    },
                ),
                (
                    ""@,
                    repeated(
                        '-',
                        if global {
                            60
                        } else {
                            45
                        },
                    ),
                ),
            ] + Seq::new(list.len() as nat, |i: int| (""@, index_line(list[i], global)))
        },
        None => Seq::empty(),
    }
}

/// The attributes of a table, in order: name, status, number of items,
/// size, creation date, key schema, and the tables of its global and local
/// indexes. Nothing where the backend says nothing of the table.
pub open spec fn table_details(table: Option<TableDescription>) -> Seq<(Seq<char>, Seq<char>)> {
    match table {
        Some(t) => seq![
            ("Table Name"@, or_text(t.table_name, ""@)),
            ("Status"@, or_text(t.table_status, ""@)),
            ("Item Count"@, signed_decimal(or_zero(t.item_count))),
            ("Size"@, size_text(or_zero(t.table_size_bytes))),
            ("Creation Date"@, or_time(t.creation_date_time, ""@)),
        ] + key_schema_part(t.key_schema) + indexes_part(t.global_secondary_indexes, true)
            + indexes_part(t.local_secondary_indexes, false),
        None => Seq::empty(),
    }
}

fn zero_or(value: Option<i64>) -> (n: i64)
    ensures
        n == or_zero(value),
{
    match value {
        Some(n) => n,
        None => 0,
    }
}

fn global_line(name: &str, status: &str, items: &str) -> (line: String)
    ensures
        line@ == global_index_line(name@, status@, items@),
{
    let mut line = String::new();
    append_padded(&mut line, name, 30);
    line.append(" ");
    append_padded(&mut line, status, 15);
    line.append(" ");
    append_padded(&mut line, items, 10);
    line
}

fn local_line(name: &str, items: &str) -> (line: String)
    ensures
        line@ == local_index_line(name@, items@),
{
    let mut line = String::new();
    append_padded(&mut line, name, 30);
    line.append(" ");
    append_padded(&mut line, items, 10);
    line
}

fn key_schema(keys: &Option<Vec<(String, String)>>) -> (part: Vec<(String, String)>)
    ensures
        part.deep_view() == key_schema_part(*keys),
{
    match keys {
        Some(list) => {
            let mut texts: Vec<String> = Vec::new();
            let mut i: usize = 0;
            while i < list.len()
                invariant
                    i <= list.len(),
                    texts.len() == i,
                    texts.deep_view() =~= key_texts(list@).take(i as int),
                decreases list.len() - i,
            {
                let mut text = concat(list[i].0.as_str(), " (");
                text.append(list[i].1.as_str());
                text.append(")");
                assert(text@ == key_texts(list@)[i as int]);
                texts.push(text);
                i += 1;
            }
            assert(key_texts(list@).take(i as int) =~= key_texts(list@));
            let part = vec![(String::from_str("Key Schema"), join(&texts, ", "))];
            assert(part.deep_view() =~= key_schema_part(*keys));
            part
        },
        None => {
            let part: Vec<(String, String)> = Vec::new();
            assert(part.deep_view() =~= key_schema_part(*keys));
            part
        },
    }
}

fn index_table(given: &Option<Vec<IndexSummary>>, global: bool) -> (part: Vec<(String, String)>)
    ensures
        part.deep_view() == indexes_part(*given, global),
{
    let mut part: Vec<(String, String)> = Vec::new();
    match given {
        Some(list) => {
            if list.len() == 0 {
                assert(part.deep_view() =~= indexes_part(*given, global));
                return part;
            }
            part.push(pair("", ""));
            if global {
                part.push(pair("Global Secondary Indexes", ""));
                part.push((String::from_str(""), global_line("Index Name", "Status", "Items")));
                part.push((String::from_str(""), repeat_char('-', 60)));
            } else {
                part.push(pair("Local Secondary Indexes", ""));
                part.push((String::from_str(""), local_line("Index Name", "Items")));
                part.push((String::from_str(""), repeat_char('-', 45)));
            }
            let mut i: usize = 0;
            assert(part.deep_view() =~= indexes_part(*given, global).take(4));
            while i < list.len()
                invariant
                    i <= list.len(),
                    list.len() > 0,
                    *given == Some(*list),
                    part.len() == i + 4,
                    part.deep_view() =~= indexes_part(*given, global).take(i + 4),
                decreases list.len() - i,
            {
                let name = text_or(&list[i].index_name, "?");
                let items = signed_decimal_string(zero_or(list[i].item_count));
                let line = if global {
                    let status = text_or(&list[i].index_status, "?");
                    global_line(name.as_str(), status.as_str(), items.as_str())
                } else {
                    local_line(name.as_str(), items.as_str())
                };
                assert(line@ == index_line(list@[i as int], global));
                part.push((String::from_str(""), line));
                i += 1;
            }
            assert(indexes_part(*given, global).take(i + 4) =~= indexes_part(*given, global));
        },
        None => {
            assert(part.deep_view() =~= indexes_part(*given, global));
        },
    }
    part
}

impl DynamoDbService {
    /// The records of the listed tables, each with the answer to the
    /// question that described it.
    pub fn list_tables_with_details(
        described: &[(String, Result<Option<TableSummary>, String>)],
    ) -> (tables: Vec<(String, String, String, String)>)
        ensures
            tables.deep_view() == table_records(described@),
    {
        let mut tables: Vec<(String, String, String, String)> = Vec::new();
        let mut i: usize = 0;
        assert(tables.deep_view() =~= table_records(described@.take(0)));
        while i < described.len()
            invariant
                i <= described.len(),
                tables.deep_view() == table_records(described@.take(i as int)),
            decreases described.len() - i,
        {
            proof {
                assert(described@.take(i + 1).drop_last() =~= described@.take(i as int));
                assert(described@.take(i + 1).last() == described@[i as int]);
            }
            let name = &described[i].0;
            match &described[i].1 {
                Ok(Some(table)) => {
                    tables.push(
                        (
                            name.clone(),
                            text_or(&table.status, "UNKNOWN"),
                            signed_decimal_string(zero_or(table.item_count)),
                            format_size(zero_or(table.size_bytes)),
                        ),
                    );
                    assert(tables.deep_view() =~= table_records(described@.take(i + 1)));
                },
                Ok(None) => {},
                Err(_) => {
                    tables.push(
                        (
                            name.clone(),
                            String::from_str("UNKNOWN"),
                            String::from_str("?"),
                            String::from_str("?"),
                        ),
                    );
                    assert(tables.deep_view() =~= table_records(described@.take(i + 1)));
                },
            }
            i += 1;
        }
        assert(described@.take(i as int) =~= described@);
        tables
    }

    /// The attributes of a table, from what the backend tells of it.
    pub fn describe_table(table: &Option<TableDescription>) -> (details: Vec<(String, String)>)
        ensures
            details.deep_view() == table_details(*table),
    {
        match table {
            Some(t) => {
                let mut details = vec![
                    (String::from_str("Table Name"), text_or(&t.table_name, "")),
                    (String::from_str("Status"), text_or(&t.table_status, "")),
                    (
                        String::from_str("Item Count"),
                        signed_decimal_string(zero_or(t.item_count)),
                    ),
                    (String::from_str("Size"), format_size(zero_or(t.table_size_bytes))),
                    (String::from_str("Creation Date"), time_or(&t.creation_date_time, "")),
                ];
                assert(details.deep_view() =~= seq![
                    ("Table Name"@, or_text(t.table_name, ""@)),
                    ("Status"@, or_text(t.table_status, ""@)),
                    ("Item Count"@, signed_decimal(or_zero(t.item_count))),
                    ("Size"@, size_text(or_zero(t.table_size_bytes))),
                    ("Creation Date"@, or_time(t.creation_date_time, ""@)),
                ]);
                extend(&mut details, key_schema(&t.key_schema));
                extend(&mut details, index_table(&t.global_secondary_indexes, true));
                extend(&mut details, index_table(&t.local_secondary_indexes, false));
                details
            },
            None => {
                let details: Vec<(String, String)> = Vec::new();
                assert(details.deep_view() =~= table_details(*table));
                details
            },
        }
    }
}

} // verus!
