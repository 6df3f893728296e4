//! Listings of one column: a heading, a rule, and a name on each row.

use vstd::prelude::*;
use vstd::string::*;
use crate::text::{pad_right, padded, repeat_char, repeated, widen, widest};

verus! {

/// The rows of a listing of `names` under `heading`, the column as wide as
/// the longest name and at least 20: heading, rule, the link to the parent
/// where the listing has one, and the names.
pub open spec fn name_rows(names: Seq<Seq<char>>, heading: Seq<char>, parent_link: bool) -> Seq<
    Seq<char>,
> {
    let w = widest(names, 20);
    let top = seq![padded(heading, w as nat), repeated('-', w.saturating_add(5) as nat)];
    let body = Seq::new(names.len(), |i: int| padded(names[i], w as nat));
    if parent_link {
        top.push(".."@) + body
    } else {
        top + body
    }
}

/// Width of a column that holds `names`: the longest one, and at least
/// `floor`.
pub fn column_width(names: &[String], floor: usize) -> (w: usize)
    ensures
        w == widest(names.deep_view(), floor),
{
    let ghost col = names.deep_view();
    let mut w: usize = floor;
    let mut i: usize = 0;
    while i < names.len()
        invariant
            i <= names.len(),
            col == names.deep_view(),
            w == widest(col.take(i as int), floor),
        decreases names.len() - i,
    {
        w = widen(w, names[i].as_str());
        i += 1;
        proof {
            assert(col.take(i as int).drop_last() =~= col.take(i - 1));
            assert(col.take(i as int).last() == names[i - 1]@);
        }
    }
    assert(col.take(i as int) =~= col);
    w
}

/// The rows of a listing of `names` under `heading`.
pub fn name_list(names: &[String], heading: &str, parent_link: bool) -> (rows: Vec<String>)
    ensures
        rows.deep_view() == name_rows(names.deep_view(), heading@, parent_link),
{
    let ghost col = names.deep_view();
    let w = column_width(names, 20);
    let mut rows = vec![pad_right(heading, w), repeat_char('-', w.saturating_add(5))];
    if parent_link {
        rows.push(String::from_str(".."));
    }
    let top = rows.len();
    let mut k: usize = 0;
    while k < names.len()
        invariant
            k <= names.len(),
            col == names.deep_view(),
            w == widest(col, 20),
            top == (if parent_link { 3usize } else { 2usize }),
            rows.len() == top + k,
            rows.deep_view() =~= name_rows(col, heading@, parent_link).take(top + k),
        decreases names.len() - k,
    {
        rows.push(pad_right(names[k].as_str(), w));
        k += 1;
    }
    assert(name_rows(col, heading@, parent_link).take(top + k) =~= name_rows(
        col,
        heading@,
        parent_link,
    ));
    rows
}

} // verus!
