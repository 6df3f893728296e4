//! Compute instances.

use vstd::prelude::*;
use vstd::string::*;
use crate::aws::attrs::{or_text, text_or};
use crate::text::{append_padded, concat3, padded, repeat_char, repeated, same_text, widen, widest};

verus! {

/// Role of one row of an instance listing.
#[derive(Clone, Debug, PartialEq)]
pub enum Ec2Item {
    Header,
    Separator,
    Instance(String),
}

/// One instance as a row shows it: identifier, name, state, type and public
/// address.
pub type InstanceRow = (Seq<char>, Seq<char>, Seq<char>, Seq<char>, Seq<char>);

/// The four widths of an instance listing: identifier, name, state, type.
pub struct InstanceWidths {
    pub id: usize,
    pub name: usize,
    pub state: usize,
    pub kind: usize,
}

/// The widths that hold the first `n` of `instances`: each column as wide as
/// its longest value, the name column at least 20 and the others at least
/// 10.
pub open spec fn instance_widths(instances: Seq<InstanceRow>, n: int) -> InstanceWidths {
    InstanceWidths {
        id: widest(Seq::new(n as nat, |i: int| instances[i].0), 10),
        name: widest(Seq::new(n as nat, |i: int| instances[i].1), 20),
        state: widest(Seq::new(n as nat, |i: int| instances[i].2), 10),
        kind: widest(Seq::new(n as nat, |i: int| instances[i].3), 10),
    }
}

/// Row of one instance in columns of the widths `w`.
pub open spec fn instance_row(instance: InstanceRow, w: InstanceWidths) -> Seq<char> {
    padded(instance.0, w.id as nat) + "  "@ + padded(instance.1, w.name as nat) + "  "@ + padded(
        instance.2,
        w.state as nat,
    ) + "  "@ + padded(instance.3, w.kind as nat) + "  "@ + instance.4
}

/// Length of the rule under the heading: the four widths and 25 more.
pub open spec fn instance_rule(w: InstanceWidths) -> usize {
    w.id.saturating_add(w.name).saturating_add(w.state).saturating_add(w.kind).saturating_add(25)
}

/// The rows of an instance listing: one line of notice where there is no
/// instance; else a heading, a rule, and one row for each instance.
pub open spec fn instance_rows(instances: Seq<InstanceRow>) -> Seq<Seq<char>> {
    let w = instance_widths(instances, instances.len() as int);
    if instances.len() == 0 {
        seq!["No EC2 Instances found"@]
    } else {
        seq![
            instance_row(("Instance ID"@, "Name"@, "State"@, "Type"@, "Public IP"@), w),
            repeated('-', instance_rule(w) as nat),
        ] + Seq::new(instances.len(), |i: int| instance_row(instances[i], w))
    }
}

/// `roles` are the roles of the rows of an instance listing: the notice
/// counts as a heading; else heading, rule, and each instance under its
/// identifier.
pub open spec fn instance_roles(roles: Seq<Ec2Item>, instances: Seq<InstanceRow>) -> bool {
    if instances.len() == 0 {
        roles.len() == 1 && roles[0] is Header
    } else {
        &&& roles.len() == instances.len() + 2
        &&& roles[0] is Header
        &&& roles[1] is Separator
        &&& forall|j: int|
            2 <= j < roles.len() ==> (#[trigger] roles[j] matches Ec2Item::Instance(id) && id@
                == instances[j - 2].0)
    }
}

/// What the backend tells of one instance; `None` where it is silent.
/// State and type are held as the text the backend writes them in.
pub struct RawInstance {
    pub instance_id: Option<String>,
    /// The tags, as key and value.
    pub tags: Vec<(Option<String>, Option<String>)>,
    pub state: Option<String>,
    pub instance_type: Option<String>,
    pub public_ip_address: Option<String>,
}

/// The value of the first tag whose key is `Name`; `None` where there is
/// no such tag or it has no value.
pub open spec fn name_tag(tags: Seq<(Option<String>, Option<String>)>) -> Option<String>
    decreases tags.len(),
{
    if tags.len() == 0 {
        None
    } else if is_name_tag(tags[0]) {
        tags[0].1
    } else {
        name_tag(tags.drop_first())
    }
}

/// Whether the key of `tag` is `Name`.
pub open spec fn is_name_tag(tag: (Option<String>, Option<String>)) -> bool {
    tag.0 matches Some(key) && key@ == "Name"@
}

/// The record of one instance: identifier, name, state, type and public
/// address. An unknown identifier, state or type reads `unknown`; a missing
/// name or address is a dash.
pub open spec fn instance_record(raw: RawInstance) -> InstanceRow {
    (
        or_text(raw.instance_id, "unknown"@),
        or_text(name_tag(raw.tags@), "-"@),
        or_text(raw.state, "unknown"@),
        or_text(raw.instance_type, "unknown"@),
        or_text(raw.public_ip_address, "-"@),
    )
}

/// One instance on one line: identifier and state, `unknown` where the
/// backend is silent, with a dash between them.
pub open spec fn instance_summary(id: Option<String>, state: Option<String>) -> Seq<char> {
    or_text(id, "unknown"@) + " - "@ + or_text(state, "unknown"@)
}

/// One instance on one line, for a listing without roles.
pub fn summary_line(id: &Option<String>, state: &Option<String>) -> (line: String)
    ensures
        line@ == instance_summary(*id, *state),
{
    concat3(text_or(id, "unknown").as_str(), " - ", text_or(state, "unknown").as_str())
}

fn find_name(tags: &Vec<(Option<String>, Option<String>)>) -> (name: String)
    ensures
        name@ == or_text(name_tag(tags@), "-"@),
{
    let mut i: usize = 0;
    assert(tags@.skip(0) =~= tags@);
    while i < tags.len()
        invariant
            i <= tags.len(),
            name_tag(tags@) == name_tag(tags@.skip(i as int)),
        decreases tags.len() - i,
    {
        let found = match &tags[i].0 {
            Some(key) => same_text(key.as_str(), "Name"),
            None => false,
        };
        if found {
            return text_or(&tags[i].1, "-");
        }
        assert(tags@.skip(i as int).drop_first() =~= tags@.skip(i + 1));
        i += 1;
    }
    String::from_str("-")
}

fn instance_line(
    id: &str,
    name: &str,
    state: &str,
    kind: &str,
    address: &str,
    w: &InstanceWidths,
) -> (row: String)
    ensures
        row@ == instance_row((id@, name@, state@, kind@, address@), *w),
{
    let mut row = String::new();
    append_padded(&mut row, id, w.id);
    row.append("  ");
    append_padded(&mut row, name, w.name);
    row.append("  ");
    append_padded(&mut row, state, w.state);
    row.append("  ");
    append_padded(&mut row, kind, w.kind);
    row.append("  ");
    row.append(address);
    row
}

/// Row formatting of the compute service.
pub struct Ec2Service {}

impl Ec2Service {
    /// The records of the instances that the backend listed, in order.
    pub fn list_instances(raw: &[RawInstance]) -> (instances: Vec<
        (String, String, String, String, String),
    >)
        ensures
            instances.deep_view() == Seq::new(raw.len() as nat, |i: int| instance_record(raw[i])),
    {
        let ghost target = Seq::new(raw.len() as nat, |i: int| instance_record(raw[i]));
        let mut instances: Vec<(String, String, String, String, String)> = Vec::new();
        let mut i: usize = 0;
        while i < raw.len()
            invariant
                i <= raw.len(),
                instances.len() == i,
                target == Seq::new(raw.len() as nat, |i: int| instance_record(raw[i])),
                instances.deep_view() =~= target.take(i as int),
            decreases raw.len() - i,
        {
            let record = (
                text_or(&raw[i].instance_id, "unknown"),
                find_name(&raw[i].tags),
                text_or(&raw[i].state, "unknown"),
                text_or(&raw[i].instance_type, "unknown"),
                text_or(&raw[i].public_ip_address, "-"),
            );
            assert(record.deep_view() == target[i as int]);
            instances.push(record);
            i += 1;
        }
        assert(target.take(i as int) =~= target);
        instances
    }

    /// Rows and roles for the instances.
    pub fn format_instance_list(instances: &[(String, String, String, String, String)]) -> (out: (
        Vec<String>,
        Vec<Ec2Item>,
    ))
        ensures
            out.0.deep_view() == instance_rows(instances.deep_view()),
            instance_roles(out.1@, instances.deep_view()),
            out.0.len() == out.1.len(),
    {
        let ghost recs = instances.deep_view();
        if instances.len() == 0 {
            let items = vec![String::from_str("No EC2 Instances found")];
            assert(items.deep_view() =~= instance_rows(recs));
            return (items, vec![Ec2Item::Header]);
        }
        let mut w = InstanceWidths { id: 10, name: 20, state: 10, kind: 10 };
        let mut i: usize = 0;
        while i < instances.len()
            invariant
                i <= instances.len(),
                recs == instances.deep_view(),
                w == instance_widths(recs, i as int),
            decreases instances.len() - i,
        {
            let ghost before = w;
            w.id = widen(w.id, instances[i].0.as_str());
            w.name = widen(w.name, instances[i].1.as_str());
            w.state = widen(w.state, instances[i].2.as_str());
            w.kind = widen(w.kind, instances[i].3.as_str());
            proof {
                let n = i as int;
                assert(Seq::new((n + 1) as nat, |i: int| recs[i].0).drop_last() =~= Seq::new(
                    n as nat,
                    |i: int| recs[i].0,
                ));
                assert(Seq::new((n + 1) as nat, |i: int| recs[i].1).drop_last() =~= Seq::new(
                    n as nat,
                    |i: int| recs[i].1,
                ));
                assert(Seq::new((n + 1) as nat, |i: int| recs[i].2).drop_last() =~= Seq::new(
                    n as nat,
                    |i: int| recs[i].2,
                ));
                assert(Seq::new((n + 1) as nat, |i: int| recs[i].3).drop_last() =~= Seq::new(
                    n as nat,
                    |i: int| recs[i].3,
                ));
            }
            i += 1;
        }
        let header = instance_line("Instance ID", "Name", "State", "Type", "Public IP", &w);
        let rule = w.id.saturating_add(w.name).saturating_add(w.state).saturating_add(
            w.kind,
        ).saturating_add(25);
        let mut items = vec![header, repeat_char('-', rule)];
        let mut roles = vec![Ec2Item::Header, Ec2Item::Separator];
        let mut k: usize = 0;
        while k < instances.len()
            invariant
                k <= instances.len(),
                recs == instances.deep_view(),
                instances.len() > 0,
                w == instance_widths(recs, recs.len() as int),
                items.len() == k + 2,
                roles.len() == k + 2,
                items.deep_view() =~= instance_rows(recs).take(k + 2),
                roles[0] is Header,
                roles[1] is Separator,
                forall|j: int|
                    2 <= j < roles.len() ==> (#[trigger] roles[j] matches Ec2Item::Instance(id)
                        && id@ == recs[j - 2].0),
            decreases instances.len() - k,
        {
            let row = instance_line(
                instances[k].0.as_str(),
                instances[k].1.as_str(),
                instances[k].2.as_str(),
                instances[k].3.as_str(),
                instances[k].4.as_str(),
                &w,
            );
            assert(row@ == instance_row(recs[k as int], w));
            items.push(row);
            roles.push(Ec2Item::Instance(instances[k].0.clone()));
            k += 1;
        }
        assert(instance_rows(recs).take(k + 2) =~= instance_rows(recs));
        (items, roles)
    }
}

} // verus!
