//! Functions.

use vstd::prelude::*;
use vstd::string::*;
use crate::aws::attrs::{amount, attribute, or_amount, or_text, text_or};
use crate::text::{append_padded, byte_len, padded, repeat_char, repeated, widen, widest};

verus! {

/// Role of one row of a function listing.
#[derive(Clone, Debug, PartialEq)]
pub enum LambdaItem {
    Header,
    Separator,
    Function(String),
}

/// What the backend tells of one function; `None` where it is silent.
/// Runtime and state are held as the text the backend writes them in.
pub struct FunctionConfiguration {
    pub function_name: Option<String>,
    pub function_arn: Option<String>,
    pub runtime: Option<String>,
    pub handler: Option<String>,
    pub description: Option<String>,
    /// In megabytes.
    pub memory_size: Option<i32>,
    /// In seconds.
    pub timeout: Option<i32>,
    pub last_modified: Option<String>,
    pub role: Option<String>,
    pub state: Option<String>,
}

/// Names of the functions, in order.
pub open spec fn function_names(functions: Seq<(Seq<char>, Seq<char>, Seq<char>)>) -> Seq<
    Seq<char>,
> {
    Seq::new(functions.len(), |i: int| functions[i].0)
}

/// Runtimes of the functions, in order.
pub open spec fn function_runtimes(functions: Seq<(Seq<char>, Seq<char>, Seq<char>)>) -> Seq<
    Seq<char>,
> {
    Seq::new(functions.len(), |i: int| functions[i].1)
}

/// Row of one function: name, runtime and date of the last change, in
/// columns `wn`, `wr` and 25 wide.
pub open spec fn function_row(function: (Seq<char>, Seq<char>, Seq<char>), wn: usize, wr: usize) -> Seq<
    char,
> {
    padded(function.0, wn as nat) + "  "@ + padded(function.1, wr as nat) + "  "@ + padded(
        function.2,
        25,
    )
}

/// The rows of a function listing: one line of notice where there is no
/// function; else a heading, a rule as long as the heading, and one row for
/// each function. The name column is as wide as the longest name and at
/// least 20, the runtime column as the longest runtime and at least 10.
pub open spec fn function_rows(functions: Seq<(Seq<char>, Seq<char>, Seq<char>)>) -> Seq<
    Seq<char>,
> {
    let wn = widest(function_names(functions), 20);
    let wr = widest(function_runtimes(functions), 10);
    let header = function_row(("Function Name"@, "Runtime"@, "Last Modified"@), wn, wr);
    if functions.len() == 0 {
        seq!["No Lambda Functions found"@]
    } else {
        seq![header, repeated('-', byte_len(header) as nat)] + Seq::new(
            functions.len(),
            |i: int| function_row(functions[i], wn, wr),
        )
    }
}

/// `roles` are the roles of the rows of a function listing: the notice
/// counts as a heading; else heading, rule, and each function under its
/// name.
pub open spec fn function_roles(
    roles: Seq<LambdaItem>,
    functions: Seq<(Seq<char>, Seq<char>, Seq<char>)>,
) -> bool {
    if functions.len() == 0 {
        roles.len() == 1 && roles[0] is Header
    } else {
        &&& roles.len() == functions.len() + 2
        &&& roles[0] is Header
        &&& roles[1] is Separator
        &&& forall|j: int|
            2 <= j < roles.len() ==> (#[trigger] roles[j] matches LambdaItem::Function(name)
                && name@ == functions[j - 2].0)
    }
}

/// The attributes shown for a function, in order. What the backend left out
/// reads `unknown`; a missing description is empty.
pub open spec fn function_details(config: FunctionConfiguration) -> Seq<(Seq<char>, Seq<char>)> {
    seq![
        ("Name"@, or_text(config.function_name, "unknown"@)),
        ("ARN"@, or_text(config.function_arn, "unknown"@)),
        ("Runtime"@, or_text(config.runtime, "unknown"@)),
        ("Handler"@, or_text(config.handler, "unknown"@)),
        ("Description"@, or_text(config.description, ""@)),
        ("Memory Size"@, or_amount(config.memory_size, " MB"@, "unknown"@)),
        ("Timeout"@, or_amount(config.timeout, " s"@, "unknown"@)),
        ("Last Modified"@, or_text(config.last_modified, "unknown"@)),
        ("Role"@, or_text(config.role, "unknown"@)),
        ("State"@, or_text(config.state, "unknown"@)),
    ]
}

/// One function as the backend lists it: name, runtime and date of the last
/// change, each of which it may leave out.
pub type RawFunction = (Option<String>, Option<String>, Option<String>);

/// The records of the functions that have a name, in order; an unknown
/// runtime or date reads `unknown`.
pub open spec fn function_records(raw: Seq<RawFunction>) -> Seq<(Seq<char>, Seq<char>, Seq<char>)>
    decreases raw.len(),
{
    if raw.len() == 0 {
        Seq::empty()
    } else {
        let rest = function_records(raw.drop_last());
        match raw.last().0 {
            Some(name) => rest.push(
                (name@, or_text(raw.last().1, "unknown"@), or_text(raw.last().2, "unknown"@)),
            ),
            None => rest,
        }
    }
}

fn function_line(name: &str, runtime: &str, modified: &str, wn: usize, wr: usize) -> (row: String)
    ensures
        row@ == function_row((name@, runtime@, modified@), wn, wr),
{
    let mut row = String::new();
    append_padded(&mut row, name, wn);
    row.append("  ");
    append_padded(&mut row, runtime, wr);
    row.append("  ");
    append_padded(&mut row, modified, 25);
    row
}

/// Row formatting of the function service.
pub struct LambdaService {}

impl LambdaService {
    /// The records of the functions that the backend listed.
    pub fn list_functions(raw: &[(Option<String>, Option<String>, Option<String>)]) -> (functions:
        Vec<(String, String, String)>)
        ensures
            functions.deep_view() == function_records(raw@),
    {
        let mut functions: Vec<(String, String, String)> = Vec::new();
        let mut i: usize = 0;
        assert(functions.deep_view() =~= function_records(raw@.take(0)));
        while i < raw.len()
            invariant
                i <= raw.len(),
                functions.deep_view() == function_records(raw@.take(i as int)),
            decreases raw.len() - i,
        {
            proof {
                assert(raw@.take(i + 1).drop_last() =~= raw@.take(i as int));
            }
            match &raw[i].0 {
                Some(name) => {
                    functions.push(
                        (
                            name.clone(),
                            text_or(&raw[i].1, "unknown"),
                            text_or(&raw[i].2, "unknown"),
                        ),
                    );
                    assert(functions.deep_view() =~= function_records(raw@.take(i + 1)));
                },
                None => {},
            }
            i += 1;
        }
        assert(raw@.take(i as int) =~= raw@);
        functions
    }

    /// Rows and roles for the functions.
    pub fn format_function_list(functions: &[(String, String, String)]) -> (out: (
        Vec<String>,
        Vec<LambdaItem>,
    ))
        ensures
            out.0.deep_view() == function_rows(functions.deep_view()),
            function_roles(out.1@, functions.deep_view()),
            out.0.len() == out.1.len(),
    {
        let ghost recs = functions.deep_view();
        if functions.len() == 0 {
            let items = vec![String::from_str("No Lambda Functions found")];
            assert(items.deep_view() =~= function_rows(recs));
            return (items, vec![LambdaItem::Header]);
        }
        let mut wn: usize = 20;
        let mut wr: usize = 10;
        let mut i: usize = 0;
        while i < functions.len()
            invariant
                i <= functions.len(),
                recs == functions.deep_view(),
                wn == widest(function_names(recs).take(i as int), 20),
                wr == widest(function_runtimes(recs).take(i as int), 10),
            decreases functions.len() - i,
        {
            wn = widen(wn, functions[i].0.as_str());
            wr = widen(wr, functions[i].1.as_str());
            i += 1;
            proof {
                let names = function_names(recs);
                assert(names.take(i as int).drop_last() =~= names.take(i - 1));
                assert(names.take(i as int).last() == recs[i - 1].0);
                let runtimes = function_runtimes(recs);
                assert(runtimes.take(i as int).drop_last() =~= runtimes.take(i - 1));
                assert(runtimes.take(i as int).last() == recs[i - 1].1);
            }
        }
        assert(function_names(recs).take(i as int) =~= function_names(recs));
        assert(function_runtimes(recs).take(i as int) =~= function_runtimes(recs));
        let header = function_line("Function Name", "Runtime", "Last Modified", wn, wr);
        let separator = repeat_char('-', header.as_str().len());
        let mut items = vec![header, separator];
        let mut roles = vec![LambdaItem::Header, LambdaItem::Separator];
        let mut k: usize = 0;
        while k < functions.len()
            invariant
                k <= functions.len(),
                recs == functions.deep_view(),
                functions.len() > 0,
                wn == widest(function_names(recs), 20),
                wr == widest(function_runtimes(recs), 10),
                items.len() == k + 2,
                roles.len() == k + 2,
                items.deep_view() =~= function_rows(recs).take(k + 2),
                roles[0] is Header,
                roles[1] is Separator,
                forall|j: int|
                    2 <= j < roles.len() ==> (#[trigger] roles[j] matches LambdaItem::Function(
                        name,
                    ) && name@ == recs[j - 2].0),
            decreases functions.len() - k,
        {
            let row = function_line(
                functions[k].0.as_str(),
                functions[k].1.as_str(),
                functions[k].2.as_str(),
                wn,
                wr,
            );
            assert(row@ == function_row(recs[k as int], wn, wr));
            items.push(row);
            roles.push(LambdaItem::Function(functions[k].0.clone()));
            k += 1;
        }
        assert(function_rows(recs).take(k + 2) =~= function_rows(recs));
        (items, roles)
    }

    /// The attributes shown for a function.
    pub fn get_function_details_pairs(config: &FunctionConfiguration) -> (details: Vec<
        (String, String),
    >)
        ensures
            details.deep_view() == function_details(*config),
    {
        let details = vec![
            attribute("Name", &config.function_name, "unknown"),
            attribute("ARN", &config.function_arn, "unknown"),
            attribute("Runtime", &config.runtime, "unknown"),
            attribute("Handler", &config.handler, "unknown"),
            attribute("Description", &config.description, ""),
            amount("Memory Size", config.memory_size, " MB", "unknown"),
            amount("Timeout", config.timeout, " s", "unknown"),
            attribute("Last Modified", &config.last_modified, "unknown"),
            attribute("Role", &config.role, "unknown"),
            attribute("State", &config.state, "unknown"),
        ];
        assert(details.deep_view() =~= function_details(*config));
        details
    }
}

} // verus!
