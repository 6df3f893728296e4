//! Managed workflow environments.

use vstd::prelude::*;
use vstd::string::*;
use crate::aws::attrs::{attribute, or_text};
use crate::aws::table::{name_list, name_rows};
use crate::aws::time::{or_time, time_or, Timestamp};

verus! {

/// Role of one row of an environment listing.
#[derive(Clone, Debug, PartialEq)]
pub enum MwaaItem {
    Header,
    Separator,
    Environment(String),
}

/// The rows of an environment listing: one line of notice where there is
/// none; else heading, rule and the names.
pub open spec fn environment_rows(envs: Seq<Seq<char>>) -> Seq<Seq<char>> {
    if envs.len() == 0 {
        seq!["No MWAA Environments found"@]
    } else {
        name_rows(envs, "Environment Name"@, false)
    }
}

/// `roles` are the roles of the rows of an environment listing: the notice
/// counts as a heading; else heading, rule, and each environment under its
/// name.
pub open spec fn environment_roles(roles: Seq<MwaaItem>, envs: Seq<Seq<char>>) -> bool {
    if envs.len() == 0 {
        roles.len() == 1 && roles[0] is Header
    } else {
        &&& roles.len() == envs.len() + 2
        &&& roles[0] is Header
        &&& roles[1] is Separator
        &&& forall|j: int|
            2 <= j < roles.len() ==> (#[trigger] roles[j] matches MwaaItem::Environment(name)
                && name@ == envs[j - 2])
    }
}

/// What the backend tells of one environment; `None` where it is silent.
/// The status is held as the text the backend writes it in.
pub struct Environment {
    pub name: Option<String>,
    pub arn: Option<String>,
    pub status: Option<String>,
    pub airflow_version: Option<String>,
    pub execution_role_arn: Option<String>,
    pub service_role_arn: Option<String>,
    pub kms_key: Option<String>,
    pub webserver_url: Option<String>,
    pub created_at: Option<Timestamp>,
}

/// The attributes shown for an environment, in order. What the backend left
/// out reads `unknown`; a missing key reads `None`.
pub open spec fn environment_details(env: Environment) -> Seq<(Seq<char>, Seq<char>)> {
    seq![
        ("Name"@, or_text(env.name, "unknown"@)),
        ("ARN"@, or_text(env.arn, "unknown"@)),
        ("Status"@, or_text(env.status, "unknown"@)),
        ("Airflow Version"@, or_text(env.airflow_version, "unknown"@)),
        ("Execution Role"@, or_text(env.execution_role_arn, "unknown"@)),
        ("Service Role"@, or_text(env.service_role_arn, "unknown"@)),
        ("KMS Key"@, or_text(env.kms_key, "None"@)),
        ("Webserver URL"@, or_text(env.webserver_url, "unknown"@)),
        ("Created At"@, or_time(env.created_at, "unknown"@)),
    ]
}

/// Row formatting of the workflow service.
pub struct MwaaService {}

impl MwaaService {
    /// Rows and roles for the environments.
    pub fn format_environment_list(envs: &[String]) -> (out: (Vec<String>, Vec<MwaaItem>))
        ensures
            out.0.deep_view() == environment_rows(envs.deep_view()),
            environment_roles(out.1@, envs.deep_view()),
            out.0.len() == out.1.len(),
    {
        if envs.len() == 0 {
            let items = vec![String::from_str("No MWAA Environments found")];
            assert(items.deep_view() =~= environment_rows(envs.deep_view()));
            return (items, vec![MwaaItem::Header]);
        }
        let items = name_list(envs, "Environment Name", false);
        assert(items.len() == items.deep_view().len());
        let mut roles = vec![MwaaItem::Header, MwaaItem::Separator];
        let mut k: usize = 0;
        while k < envs.len()
            invariant
                k <= envs.len(),
                roles.len() == k + 2,
                roles[0] is Header,
                roles[1] is Separator,
                forall|j: int|
                    2 <= j < roles.len() ==> (#[trigger] roles[j] matches MwaaItem::Environment(
                        name,
                    ) && name@ == envs.deep_view()[j - 2]),
            decreases envs.len() - k,
        {
            roles.push(MwaaItem::Environment(envs[k].clone()));
            k += 1;
        }
        (items, roles)
    }

    /// The attributes shown for an environment.
    pub fn get_environment_details_pairs(env: &Environment) -> (details: Vec<(String, String)>)
        ensures
            details.deep_view() == environment_details(*env),
    {
        let details = vec![
            attribute("Name", &env.name, "unknown"),
            attribute("ARN", &env.arn, "unknown"),
            attribute("Status", &env.status, "unknown"),
            attribute("Airflow Version", &env.airflow_version, "unknown"),
            attribute("Execution Role", &env.execution_role_arn, "unknown"),
            attribute("Service Role", &env.service_role_arn, "unknown"),
            attribute("KMS Key", &env.kms_key, "None"),
            attribute("Webserver URL", &env.webserver_url, "unknown"),
            (String::from_str("Created At"), time_or(&env.created_at, "unknown")),
        ];
        assert(details.deep_view() =~= environment_details(*env));
        details
    }
}

} // verus!
