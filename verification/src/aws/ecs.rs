//! Container clusters, their services and tasks.

use vstd::prelude::*;
use vstd::string::*;
use crate::aws::attrs::{or_text, text_or};
use crate::aws::table::{name_list, name_rows};
use crate::aws::time::{or_time, time_or, Timestamp};
use crate::text::{
    append_padded, byte_len, concat, last_segment, last_segment_of, padded, repeat_char, repeated,
    widen, widest,
};

verus! {

/// Role of one row of a cluster, service or task listing.
#[derive(Clone, Debug, PartialEq)]
pub enum EcsItem {
    Header,
    Separator,
    Cluster(String),
    Service(String),
    Task(String),
    ParentDir,
}

/// One task as a row shows it: identifier, definition, last and desired
/// status, and start time.
pub type TaskRow = (Seq<char>, Seq<char>, Seq<char>, Seq<char>, Seq<char>);

/// What a task listing is a listing of: the service where one is given, else
/// the cluster.
pub open spec fn task_context(cluster: Seq<char>, service: Option<Seq<char>>) -> Seq<char> {
    match service {
        Some(name) => "Service "@ + name,
        None => "Cluster "@ + cluster,
    }
}

/// Row of one task, in columns `wi`, `wd`, 12 and 12 wide.
pub open spec fn task_row(task: TaskRow, wi: usize, wd: usize) -> Seq<char> {
    padded(task.0, wi as nat) + "  "@ + padded(task.1, wd as nat) + "  "@ + padded(task.2, 12)
        + "  "@ + padded(task.3, 12) + "  "@ + task.4
}

/// Width of the identifier column for the first `n` tasks: the longest
/// identifier, and at least 32.
pub open spec fn task_id_width(tasks: Seq<TaskRow>, n: int) -> usize {
    widest(Seq::new(n as nat, |i: int| tasks[i].0), 32)
}

/// Width of the definition column for the first `n` tasks: the longest
/// definition, and at least 20.
pub open spec fn task_definition_width(tasks: Seq<TaskRow>, n: int) -> usize {
    widest(Seq::new(n as nat, |i: int| tasks[i].1), 20)
}

/// The rows of a task listing: a notice and the link to the parent where
/// there is no task; else a heading, a rule as long as the heading, the
/// link to the parent, and one row for each task.
pub open spec fn task_rows(tasks: Seq<TaskRow>, cluster: Seq<char>, service: Option<Seq<char>>) -> Seq<
    Seq<char>,
> {
    let wi = task_id_width(tasks, tasks.len() as int);
    let wd = task_definition_width(tasks, tasks.len() as int);
    let header = task_row(
        ("Task ID"@, "Definition"@, "Last Status"@, "Desired"@, "Started At"@),
        wi,
        wd,
    );
    if tasks.len() == 0 {
        seq!["No Tasks found in "@ + task_context(cluster, service), ".."@]
    } else {
        seq![header, repeated('-', byte_len(header) as nat), ".."@] + Seq::new(
            tasks.len(),
            |i: int| task_row(tasks[i], wi, wd),
        )
    }
}

/// `roles` are the roles of the rows of a task listing.
pub open spec fn task_roles(roles: Seq<EcsItem>, tasks: Seq<TaskRow>) -> bool {
    if tasks.len() == 0 {
        roles.len() == 2 && roles[0] is Header && roles[1] is ParentDir
    } else {
        &&& roles.len() == tasks.len() + 3
        &&& roles[0] is Header
        &&& roles[1] is Separator
        &&& roles[2] is ParentDir
        &&& forall|j: int|
            3 <= j < roles.len() ==> (#[trigger] roles[j] matches EcsItem::Task(id) && id@
                == tasks[j - 3].0)
    }
}

/// The rows of a cluster listing: one line of notice where there is none;
/// else heading, rule and the names.
pub open spec fn cluster_rows(clusters: Seq<Seq<char>>) -> Seq<Seq<char>> {
    if clusters.len() == 0 {
        seq!["No ECS Clusters found"@]
    } else {
        name_rows(clusters, "Cluster Name"@, false)
    }
}

/// `roles` are the roles of the rows of a cluster listing.
pub open spec fn cluster_roles(roles: Seq<EcsItem>, clusters: Seq<Seq<char>>) -> bool {
    if clusters.len() == 0 {
        roles.len() == 1 && roles[0] is Header
    } else {
        &&& roles.len() == clusters.len() + 2
        &&& roles[0] is Header
        &&& roles[1] is Separator
        &&& forall|j: int|
            2 <= j < roles.len() ==> (#[trigger] roles[j] matches EcsItem::Cluster(name) && name@
                == clusters[j - 2])
    }
}

/// The rows of the listing of a cluster's services: a notice and the link
/// to the parent where there is none; else heading, rule, the link to the
/// parent and the names.
pub open spec fn service_rows(services: Seq<Seq<char>>, cluster: Seq<char>) -> Seq<Seq<char>> {
    if services.len() == 0 {
        seq!["No Services found in cluster "@ + cluster, ".."@]
    } else {
        name_rows(services, "Service Name"@, true)
    }
}

/// `roles` are the roles of the rows of a service listing.
pub open spec fn service_roles(roles: Seq<EcsItem>, services: Seq<Seq<char>>) -> bool {
    if services.len() == 0 {
        roles.len() == 2 && roles[0] is Header && roles[1] is ParentDir
    } else {
        &&& roles.len() == services.len() + 3
        &&& roles[0] is Header
        &&& roles[1] is Separator
        &&& roles[2] is ParentDir
        &&& forall|j: int|
            3 <= j < roles.len() ==> (#[trigger] roles[j] matches EcsItem::Service(name) && name@
                == services[j - 3])
    }
}

/// What the backend tells of one task; `None` where it is silent.
pub struct RawTask {
    pub task_arn: Option<String>,
    pub task_definition_arn: Option<String>,
    pub last_status: Option<String>,
    pub desired_status: Option<String>,
    pub started_at: Option<Timestamp>,
}

/// The name in a resource's full identifier: what stands behind its last
/// slash.
pub open spec fn short_name(arn: Seq<char>) -> Seq<char> {
    last_segment(arn, '/')
}

/// The record of one task: the short names of the task and of its
/// definition, last and desired status, and start time. An unknown status
/// reads `unknown`; a task that has not started is `pending`.
pub open spec fn task_record(raw: RawTask) -> TaskRow {
    (
        short_name(or_text(raw.task_arn, ""@)),
        short_name(or_text(raw.task_definition_arn, ""@)),
        or_text(raw.last_status, "unknown"@),
        or_text(raw.desired_status, "unknown"@),
        or_time(raw.started_at, "pending"@),
    )
}

/// How many tasks can be described with one question.
pub const DESCRIBE_LIMIT: usize = 100;

fn short_names(arns: &[String]) -> (names: Vec<String>)
    ensures
        names.deep_view() == Seq::new(arns.len() as nat, |i: int| short_name(arns[i]@)),
{
    let ghost target = Seq::new(arns.len() as nat, |i: int| short_name(arns[i]@));
    let mut names: Vec<String> = Vec::new();
    let mut i: usize = 0;
    while i < arns.len()
        invariant
            i <= arns.len(),
            names.len() == i,
            target == Seq::new(arns.len() as nat, |i: int| short_name(arns[i]@)),
            names.deep_view() =~= target.take(i as int),
        decreases arns.len() - i,
    {
        names.push(last_segment_of(arns[i].as_str(), '/'));
        i += 1;
    }
    assert(target.take(i as int) =~= target);
    names
}

fn task_line(id: &str, definition: &str, last: &str, desired: &str, started: &str, wi: usize, wd: usize) -> (row:
    String)
    ensures
        row@ == task_row((id@, definition@, last@, desired@, started@), wi, wd),
{
    let mut row = String::new();
    append_padded(&mut row, id, wi);
    row.append("  ");
    append_padded(&mut row, definition, wd);
    row.append("  ");
    append_padded(&mut row, last, 12);
    row.append("  ");
    append_padded(&mut row, desired, 12);
    row.append("  ");
    row.append(started);
    row
}

/// Row formatting of the container service.
pub struct EcsService {}

impl EcsService {
    /// The names of the clusters with the given identifiers, in order.
    pub fn list_clusters(cluster_arns: &[String]) -> (names: Vec<String>)
        ensures
            names.deep_view() == Seq::new(
                cluster_arns.len() as nat,
                |i: int| short_name(cluster_arns[i]@),
            ),
    {
        short_names(cluster_arns)
    }

    /// The names of the services with the given identifiers, in order.
    pub fn list_services(service_arns: &[String]) -> (names: Vec<String>)
        ensures
            names.deep_view() == Seq::new(
                service_arns.len() as nat,
                |i: int| short_name(service_arns[i]@),
            ),
    {
        short_names(service_arns)
    }

    /// The tasks to describe among those listed: the first hundred, which
    /// is as many as one question takes.
    pub fn tasks_to_describe(task_arns: &[String]) -> (batch: Vec<String>)
        ensures
            batch.deep_view() == task_arns.deep_view().take(
                if task_arns.len() < DESCRIBE_LIMIT {
                    task_arns.len() as int
                } else {
                    DESCRIBE_LIMIT as int
                },
            ),
    {
        let n = if task_arns.len() < DESCRIBE_LIMIT { task_arns.len() } else { DESCRIBE_LIMIT };
        let mut batch: Vec<String> = Vec::new();
        let mut i: usize = 0;
        while i < n
            invariant
                i <= n <= task_arns.len(),
                batch.len() == i,
                batch.deep_view() =~= task_arns.deep_view().take(i as int),
            decreases n - i,
        {
            batch.push(task_arns[i].clone());
            i += 1;
        }
        batch
    }

    /// The records of the tasks that the backend described, in order.
    pub fn list_tasks(raw: &[RawTask]) -> (tasks: Vec<(String, String, String, String, String)>)
        ensures
            tasks.deep_view() == Seq::new(raw.len() as nat, |i: int| task_record(raw[i])),
    {
        let ghost target = Seq::new(raw.len() as nat, |i: int| task_record(raw[i]));
        let mut tasks: Vec<(String, String, String, String, String)> = Vec::new();
        let mut i: usize = 0;
        while i < raw.len()
            invariant
                i <= raw.len(),
                tasks.len() == i,
                target == Seq::new(raw.len() as nat, |i: int| task_record(raw[i])),
                tasks.deep_view() =~= target.take(i as int),
            decreases raw.len() - i,
        {
            let record = (
                last_segment_of(text_or(&raw[i].task_arn, "").as_str(), '/'),
                last_segment_of(text_or(&raw[i].task_definition_arn, "").as_str(), '/'),
                text_or(&raw[i].last_status, "unknown"),
                text_or(&raw[i].desired_status, "unknown"),
                time_or(&raw[i].started_at, "pending"),
            );
            assert(record.deep_view() == target[i as int]);
            tasks.push(record);
            i += 1;
        }
        assert(target.take(i as int) =~= target);
        tasks
    }

    /// Rows and roles for the tasks of a cluster, or of one of its services.
    pub fn format_task_list(
        tasks: &[(String, String, String, String, String)],
        cluster: &str,
        service: Option<&str>,
    ) -> (out: (Vec<String>, Vec<EcsItem>))
        ensures
            out.0.deep_view() == task_rows(tasks.deep_view(), cluster@, service.deep_view()),
            task_roles(out.1@, tasks.deep_view()),
            out.0.len() == out.1.len(),
    {
        let ghost recs = tasks.deep_view();
        if tasks.len() == 0 {
            let context = match service {
                Some(name) => concat("Service ", name),
                None => concat("Cluster ", cluster),
            };
            let items = vec![
                concat("No Tasks found in ", context.as_str()),
                String::from_str(".."),
            ];
            assert(items.deep_view() =~= task_rows(recs, cluster@, service.deep_view()));
            return (items, vec![EcsItem::Header, EcsItem::ParentDir]);
        }
        let mut wi: usize = 32;
        let mut wd: usize = 20;
        let mut i: usize = 0;
        while i < tasks.len()
            invariant
                i <= tasks.len(),
                recs == tasks.deep_view(),
                wi == task_id_width(recs, i as int),
                wd == task_definition_width(recs, i as int),
            decreases tasks.len() - i,
        {
            wi = widen(wi, tasks[i].0.as_str());
            wd = widen(wd, tasks[i].1.as_str());
            proof {
                let n = i as int;
                assert(Seq::new((n + 1) as nat, |i: int| recs[i].0).drop_last() =~= Seq::new(
                    n as nat,
                    |i: int| recs[i].0,
                ));
                assert(Seq::new((n + 1) as nat, |i: int| recs[i].1).drop_last() =~= Seq::new(
                    n as nat,
                    |i: int| recs[i].1,
                ));
            }
            i += 1;
        }
        let header = task_line("Task ID", "Definition", "Last Status", "Desired", "Started At", wi, wd);
        let separator = repeat_char('-', header.as_str().len());
        let mut items = vec![header, separator, String::from_str("..")];
        let mut roles = vec![EcsItem::Header, EcsItem::Separator, EcsItem::ParentDir];
        let mut k: usize = 0;
        while k < tasks.len()
            invariant
                k <= tasks.len(),
                recs == tasks.deep_view(),
                tasks.len() > 0,
                wi == task_id_width(recs, recs.len() as int),
                wd == task_definition_width(recs, recs.len() as int),
                items.len() == k + 3,
                roles.len() == k + 3,
                items.deep_view() =~= task_rows(recs, cluster@, service.deep_view()).take(k + 3),
                roles[0] is Header,
                roles[1] is Separator,
                roles[2] is ParentDir,
                forall|j: int|
                    3 <= j < roles.len() ==> (#[trigger] roles[j] matches EcsItem::Task(id) && id@
                        == recs[j - 3].0),
            decreases tasks.len() - k,
        {
            let row = task_line(
                tasks[k].0.as_str(),
                tasks[k].1.as_str(),
                tasks[k].2.as_str(),
                tasks[k].3.as_str(),
                tasks[k].4.as_str(),
                wi,
                wd,
            );
            assert(row@ == task_row(recs[k as int], wi, wd));
            items.push(row);
            roles.push(EcsItem::Task(tasks[k].0.clone()));
            k += 1;
        }
        assert(task_rows(recs, cluster@, service.deep_view()).take(k + 3) =~= task_rows(
            recs,
            cluster@,
            service.deep_view(),
        ));
        (items, roles)
    }

    /// Rows and roles for the clusters.
    pub fn format_cluster_list(clusters: &[String]) -> (out: (Vec<String>, Vec<EcsItem>))
        ensures
            out.0.deep_view() == cluster_rows(clusters.deep_view()),
            cluster_roles(out.1@, clusters.deep_view()),
            out.0.len() == out.1.len(),
    {
        if clusters.len() == 0 {
            let items = vec![String::from_str("No ECS Clusters found")];
            assert(items.deep_view() =~= cluster_rows(clusters.deep_view()));
            return (items, vec![EcsItem::Header]);
        }
        let items = name_list(clusters, "Cluster Name", false);
        assert(items.len() == items.deep_view().len());
        let mut roles = vec![EcsItem::Header, EcsItem::Separator];
        let mut k: usize = 0;
        while k < clusters.len()
            invariant
                k <= clusters.len(),
                roles.len() == k + 2,
                roles[0] is Header,
                roles[1] is Separator,
                forall|j: int|
                    2 <= j < roles.len() ==> (#[trigger] roles[j] matches EcsItem::Cluster(name)
                        && name@ == clusters.deep_view()[j - 2]),
            decreases clusters.len() - k,
        {
            roles.push(EcsItem::Cluster(clusters[k].clone()));
            k += 1;
        }
        (items, roles)
    }

    /// Rows and roles for the services of a cluster.
    pub fn format_service_list(services: &[String], cluster: &str) -> (out: (
        Vec<String>,
        Vec<EcsItem>,
    ))
        ensures
            out.0.deep_view() == service_rows(services.deep_view(), cluster@),
            service_roles(out.1@, services.deep_view()),
            out.0.len() == out.1.len(),
    {
        if services.len() == 0 {
            let items = vec![
                concat("No Services found in cluster ", cluster),
                String::from_str(".."),
            ];
            assert(items.deep_view() =~= service_rows(services.deep_view(), cluster@));
            return (items, vec![EcsItem::Header, EcsItem::ParentDir]);
        }
        let items = name_list(services, "Service Name", true);
        assert(items.len() == items.deep_view().len());
        let mut roles = vec![EcsItem::Header, EcsItem::Separator, EcsItem::ParentDir];
        let mut k: usize = 0;
        while k < services.len()
            invariant
                k <= services.len(),
                roles.len() == k + 3,
                roles[0] is Header,
                roles[1] is Separator,
                roles[2] is ParentDir,
                forall|j: int|
                    3 <= j < roles.len() ==> (#[trigger] roles[j] matches EcsItem::Service(name)
                        && name@ == services.deep_view()[j - 3]),
            decreases services.len() - k,
        {
            roles.push(EcsItem::Service(services[k].clone()));
            k += 1;
        }
        (items, roles)
    }
}

} // verus!
