use awsome::aws::dynamodb_records::{IndexSummary, TableDescription, TableSummary};
use awsome::aws::ec2::{summary_line, RawInstance};
use awsome::aws::ecs::RawTask;
use awsome::aws::s3_records::{BucketAcl, BucketAnswers, ObjectHead, PublicAccessBlock, RawObject};
use awsome::aws::time::Timestamp;
use awsome::aws::{
    CloudwatchService, DynamoDbService, Ec2Service, EcsService, IamService, LambdaService, S3Service,
};

fn s(text: &str) -> String {
    text.to_string()
}

fn some(text: &str) -> Option<String> {
    Some(text.to_string())
}

fn at(seconds: i64) -> Option<Timestamp> {
    Timestamp::new(seconds, 0)
}

#[test]
fn test_bucket_records() {
    let raw = vec![
        (some("test-bucket-1"), at(1672531200)), // 2023-01-01
        (None, at(1672617600)),                  // 2023-01-02
        (some("test-bucket-2"), None),
    ];
    let buckets = S3Service::list_buckets(&raw);
    assert_eq!(buckets.len(), 2);
    assert_eq!(buckets[0], (s("test-bucket-1"), s("2023-01-01T00:00:00Z")));
    assert_eq!(buckets[1], (s("test-bucket-2"), s("Unknown")));
    assert!(S3Service::list_buckets(&[]).is_empty());
}

#[test]
fn test_object_records() {
    let contents = vec![RawObject {
        key: some("folder/file1.txt"),
        size: Some(1024),
        last_modified: at(1672531200),
    }];
    let objects = S3Service::list_objects("folder/", &[], &contents);
    assert_eq!(objects.len(), 1);
    assert_eq!(objects[0].0, "file1.txt"); // Name should be stripped of prefix
    assert_eq!(objects[0].1, "1.00 KB"); // Size formatted
    assert_eq!(objects[0].2, "2023-01-01T00:00:00Z");
}

#[test]
fn test_object_records_folders_first_and_folder_object_left_out() {
    let common = vec![some("folder/sub/"), None, some("elsewhere/")];
    let contents = vec![
        RawObject { key: some("folder/"), size: Some(0), last_modified: None },
        RawObject { key: None, size: Some(5), last_modified: None },
        RawObject { key: some("folder/a.txt"), size: None, last_modified: None },
        RawObject { key: some("other.txt"), size: Some(1536), last_modified: at(1672617600) },
    ];
    let objects = S3Service::list_objects("folder/", &common, &contents);
    assert_eq!(
        objects,
        vec![
            (s("sub/"), s("DIR"), s("")),
            (s("elsewhere/"), s("DIR"), s("")),
            (s("a.txt"), s("0 B"), s("Unknown")),
            (s("other.txt"), s("1.50 KB"), s("2023-01-02T00:00:00Z")),
        ]
    );
    // with an empty prefix names are kept whole, and no key equals the prefix
    let objects = S3Service::list_objects("", &[some("top/")], &[RawObject { key: some("f"), size: Some(1), last_modified: None }]);
    assert_eq!(objects, vec![(s("top/"), s("DIR"), s("")), (s("f"), s("1 B"), s("Unknown"))]);
}

#[test]
fn test_object_details() {
    let head = Ok(ObjectHead {
        content_length: Some(2048),
        last_modified: at(1672531200),
        e_tag: None,
        storage_class: some("Standard"),
        content_type: some("text/plain"),
    });
    assert_eq!(
        S3Service::get_object_details("docs/readme.md", &head),
        vec![
            (s("Name"), s("docs/readme.md")),
            (s("Size"), s("2.00 KB")),
            (s("Last Modified"), s("2023-01-01T00:00:00Z")),
            (s("Storage Class"), s("Standard")),
            (s("Content Type"), s("text/plain")),
        ]
    );
    let empty = Ok(ObjectHead {
        content_length: None,
        last_modified: None,
        e_tag: some("\"abc\""),
        storage_class: None,
        content_type: None,
    });
    assert_eq!(
        S3Service::get_object_details("k", &empty),
        vec![(s("Name"), s("k")), (s("ETag"), s("\"abc\""))]
    );
    assert_eq!(
        S3Service::get_object_details("k", &Err(s("NotFound"))),
        vec![(s("Name"), s("k")), (s("Error"), s("Failed to get object details: NotFound"))]
    );
}

fn blocked(a: Option<bool>, b: Option<bool>, c: Option<bool>, d: Option<bool>) -> PublicAccessBlock {
    PublicAccessBlock {
        block_public_acls: a,
        ignore_public_acls: b,
        block_public_policy: c,
        restrict_public_buckets: d,
    }
}

#[test]
fn test_bucket_details_all_answers() {
    let answers = BucketAnswers {
        location: Ok(some("EuWest1")),
        versioning: Ok(some("Enabled")),
        encryption: Ok(Some(some("Aes256"))),
        acl: Ok(BucketAcl { grants: 2, owner: some("owner-name") }),
        public_access: Ok(Some(blocked(Some(true), Some(true), Some(true), Some(true)))),
        tagging: Ok(vec![
            (s("env"), s("prod")),
            (s("team"), s("data")),
            (s("cost"), s("42")),
            (s("fourth"), s("hidden")),
        ]),
    };
    assert_eq!(
        S3Service::get_bucket_details("alpha", &answers),
        vec![
            (s("Bucket Name"), s("alpha")),
            (s("Region"), s("EuWest1")),
            (s("Versioning"), s("Enabled")),
            (s("Encryption"), s("Aes256")),
            (s("ACL Grants"), s("2 grant(s)")),
            (s("Owner"), s("owner-name")),
            (s("Public Access"), s("All Blocked")),
            (s("Tags"), s("4 tag(s)")),
            (s("  Tag 1"), s("env = prod")),
            (s("  Tag 2"), s("team = data")),
            (s("  Tag 3"), s("cost = 42")),
        ]
    );
}

#[test]
fn test_bucket_details_defaults() {
    let answers = BucketAnswers {
        location: Ok(None),
        versioning: Ok(None),
        encryption: Ok(None),
        acl: Ok(BucketAcl { grants: 0, owner: None }),
        public_access: Ok(None),
        tagging: Ok(vec![]),
    };
    assert_eq!(
        S3Service::get_bucket_details("alpha", &answers),
        vec![
            (s("Bucket Name"), s("alpha")),
            (s("Region"), s("us-east-1")),
            (s("Versioning"), s("Disabled")),
            (s("Encryption"), s("None")),
            (s("ACL Grants"), s("0 grant(s)")),
            (s("Tags"), s("0 tag(s)")),
        ]
    );
}

#[test]
fn test_bucket_details_failures() {
    let answers = BucketAnswers {
        location: Err(s("denied")),
        versioning: Err(s("timeout")),
        encryption: Err(s("no configuration")),
        acl: Err(s("forbidden")),
        public_access: Err(s("none")),
        tagging: Err(s("no tags")),
    };
    assert_eq!(
        S3Service::get_bucket_details("alpha", &answers),
        vec![
            (s("Bucket Name"), s("alpha")),
            (s("Region"), s("Error: denied")),
            (s("Versioning"), s("Error: timeout")),
            (s("Encryption"), s("None")),
            (s("ACL"), s("Error: forbidden")),
            (s("Public Access"), s("Unknown")),
            (s("Tags"), s("None")),
        ]
    );
}

#[test]
fn test_bucket_details_partial_answers() {
    let answers = BucketAnswers {
        location: Ok(None),
        versioning: Ok(None),
        encryption: Ok(Some(None)),
        acl: Ok(BucketAcl { grants: 1, owner: None }),
        public_access: Ok(Some(blocked(Some(true), Some(true), None, Some(true)))),
        tagging: Ok(vec![(s("only"), s("one"))]),
    };
    let details = S3Service::get_bucket_details("alpha", &answers);
    assert_eq!(details[3], (s("Encryption"), s("Unknown")));
    assert_eq!(details[4], (s("ACL Grants"), s("1 grant(s)")));
    assert_eq!(details[5], (s("Public Access"), s("Partially Blocked")));
    assert_eq!(details[6], (s("Tags"), s("1 tag(s)")));
    assert_eq!(details[7], (s("  Tag 1"), s("only = one")));
    assert_eq!(details.len(), 8);
    let mut answers = answers;
    answers.public_access = Ok(Some(blocked(Some(true), Some(false), Some(true), Some(true))));
    assert_eq!(S3Service::get_bucket_details("alpha", &answers)[5].1, "Partially Blocked");
}

#[test]
fn test_table_records() {
    let described = vec![
        (
            s("orders"),
            Ok(Some(TableSummary { status: some("ACTIVE"), item_count: Some(12), size_bytes: Some(1536) })),
        ),
        (s("gone"), Ok(None)),
        (s("secret"), Err(s("AccessDenied"))),
        (s("fresh"), Ok(Some(TableSummary { status: None, item_count: None, size_bytes: None }))),
    ];
    assert_eq!(
        DynamoDbService::list_tables_with_details(&described),
        vec![
            (s("orders"), s("ACTIVE"), s("12"), s("1.50 KB")),
            (s("secret"), s("UNKNOWN"), s("?"), s("?")),
            (s("fresh"), s("UNKNOWN"), s("0"), s("0 B")),
        ]
    );
}

#[test]
fn test_table_details() {
    assert!(DynamoDbService::describe_table(&None).is_empty());
    let table = TableDescription {
        table_name: some("orders"),
        table_status: some("ACTIVE"),
        item_count: Some(12),
        table_size_bytes: Some(2048),
        creation_date_time: at(1672531200),
        key_schema: Some(vec![(s("id"), s("HASH")), (s("at"), s("RANGE"))]),
        global_secondary_indexes: Some(vec![
            IndexSummary { index_name: some("by-user"), index_status: some("ACTIVE"), item_count: Some(7) },
            IndexSummary { index_name: None, index_status: None, item_count: None },
        ]),
        local_secondary_indexes: Some(vec![IndexSummary {
            index_name: some("by-date"),
            index_status: None,
            item_count: Some(3),
        }]),
    };
    assert_eq!(
        DynamoDbService::describe_table(&Some(table)),
        vec![
            (s("Table Name"), s("orders")),
            (s("Status"), s("ACTIVE")),
            (s("Item Count"), s("12")),
            (s("Size"), s("2.00 KB")),
            (s("Creation Date"), s("2023-01-01T00:00:00Z")),
            (s("Key Schema"), s("id (HASH), at (RANGE)")),
            (s(""), s("")),
            (s("Global Secondary Indexes"), s("")),
            (s(""), format!("{:<30} {:<15} {:<10}", "Index Name", "Status", "Items")),
            (s(""), "-".repeat(60)),
            (s(""), format!("{:<30} {:<15} {:<10}", "by-user", "ACTIVE", 7)),
            (s(""), format!("{:<30} {:<15} {:<10}", "?", "?", 0)),
            (s(""), s("")),
            (s("Local Secondary Indexes"), s("")),
            (s(""), format!("{:<30} {:<10}", "Index Name", "Items")),
            (s(""), "-".repeat(45)),
            (s(""), format!("{:<30} {:<10}", "by-date", 3)),
        ]
    );
}

#[test]
fn test_table_details_without_keys_and_indexes() {
    let table = TableDescription {
        table_name: None,
        table_status: None,
        item_count: None,
        table_size_bytes: None,
        creation_date_time: None,
        key_schema: None,
        global_secondary_indexes: Some(vec![]),
        local_secondary_indexes: None,
    };
    assert_eq!(
        DynamoDbService::describe_table(&Some(table)),
        vec![
            (s("Table Name"), s("")),
            (s("Status"), s("")),
            (s("Item Count"), s("0")),
            (s("Size"), s("0 B")),
            (s("Creation Date"), s("")),
        ]
    );
    let table = TableDescription {
        table_name: None,
        table_status: None,
        item_count: Some(-1),
        table_size_bytes: None,
        creation_date_time: None,
        key_schema: Some(vec![]),
        global_secondary_indexes: None,
        local_secondary_indexes: None,
    };
    let details = DynamoDbService::describe_table(&Some(table));
    assert_eq!(details[2], (s("Item Count"), s("-1")));
    assert_eq!(details[5], (s("Key Schema"), s("")));
    assert_eq!(details.len(), 6);
}

#[test]
fn test_instance_records() {
    let raw = vec![
        RawInstance {
            instance_id: some("i-1"),
            tags: vec![(some("env"), some("prod")), (some("Name"), some("web")), (some("Name"), some("second"))],
            state: some("Running"),
            instance_type: some("T2Micro"),
            public_ip_address: some("1.2.3.4"),
        },
        RawInstance { instance_id: None, tags: vec![], state: None, instance_type: None, public_ip_address: None },
        RawInstance {
            instance_id: some("i-3"),
            tags: vec![(None, some("x")), (some("Name"), None), (some("Name"), some("late"))],
            state: some("Stopped"),
            instance_type: None,
            public_ip_address: None,
        },
    ];
    assert_eq!(
        Ec2Service::list_instances(&raw),
        vec![
            (s("i-1"), s("web"), s("Running"), s("T2Micro"), s("1.2.3.4")),
            (s("unknown"), s("-"), s("unknown"), s("unknown"), s("-")),
            (s("i-3"), s("-"), s("Stopped"), s("unknown"), s("-")),
        ]
    );
}

#[test]
fn test_instance_summary_line() {
    assert_eq!(summary_line(&some("i-1"), &some("Running")), "i-1 - Running");
    assert_eq!(summary_line(&None, &some("Running")), "unknown - Running");
    assert_eq!(summary_line(&some("i-1"), &None), "i-1 - unknown");
}

#[test]
fn test_cluster_and_service_names() {
    let arns = vec![s("arn:aws:ecs:eu-west-1:123456789012:cluster/main"), s("plain"), s("a/b/")];
    assert_eq!(EcsService::list_clusters(&arns), vec![s("main"), s("plain"), s("")]);
    let arns = vec![s("arn:aws:ecs:eu-west-1:123456789012:service/main/web")];
    assert_eq!(EcsService::list_services(&arns), vec![s("web")]);
    assert!(EcsService::list_services(&[]).is_empty());
}

#[test]
fn test_tasks_to_describe_takes_at_most_a_hundred() {
    let arns: Vec<String> = (0..250).map(|i| format!("task/{}", i)).collect();
    let batch = EcsService::tasks_to_describe(&arns);
    assert_eq!(batch.len(), 100);
    assert_eq!(batch[0], "task/0");
    assert_eq!(batch[99], "task/99");
    assert_eq!(EcsService::tasks_to_describe(&arns[..100]).len(), 100);
    assert_eq!(EcsService::tasks_to_describe(&arns[..99]), arns[..99].to_vec());
    assert!(EcsService::tasks_to_describe(&[]).is_empty());
}

#[test]
fn test_task_records() {
    let raw = vec![
        RawTask {
            task_arn: some("arn:aws:ecs:eu-west-1:123456789012:task/main/0123456789abcdef"),
            task_definition_arn: some("arn:aws:ecs:eu-west-1:123456789012:task-definition/web:3"),
            last_status: some("RUNNING"),
            desired_status: some("RUNNING"),
            started_at: at(1672531200),
        },
        RawTask { task_arn: None, task_definition_arn: None, last_status: None, desired_status: None, started_at: None },
    ];
    assert_eq!(
        EcsService::list_tasks(&raw),
        vec![
            (s("0123456789abcdef"), s("web:3"), s("RUNNING"), s("RUNNING"), s("2023-01-01T00:00:00Z")),
            (s(""), s(""), s("unknown"), s("unknown"), s("pending")),
        ]
    );
}

#[test]
fn test_function_records() {
    let raw = vec![
        (some("func1"), some("python3.9"), some("2023-01-01")),
        (None, some("go1.x"), some("2023-01-02")),
        (some("func3"), None, None),
    ];
    assert_eq!(
        LambdaService::list_functions(&raw),
        vec![(s("func1"), s("python3.9"), s("2023-01-01")), (s("func3"), s("unknown"), s("unknown"))]
    );
}

#[test]
fn test_alarm_rows() {
    let names = vec![some("cpu-high"), None, some("disk-full")];
    assert_eq!(CloudwatchService::list_alarms(&names), vec![s("cpu-high"), s("disk-full")]);
    assert!(CloudwatchService::list_alarms(&[None, None]).is_empty());
}

#[test]
fn test_user_records() {
    let raw = vec![
        (s("user1"), s("id1"), Timestamp::new(1672531200, 0).unwrap()),
        (s("user2"), s("id2"), Timestamp::new(1672617600, 0).unwrap()),
    ];
    assert_eq!(
        IamService::list_users(&raw),
        vec![
            (s("user1"), s("id1"), s("2023-01-01T00:00:00Z")),
            (s("user2"), s("id2"), s("2023-01-02T00:00:00Z")),
        ]
    );
    assert!(IamService::list_users(&[]).is_empty());
}

#[test]
fn test_timestamp_validity() {
    assert!(Timestamp::new(0, 0).is_some());
    assert!(Timestamp::new(-1, 999_999_999).is_some());
    assert!(Timestamp::new(0, 1_000_000_000).is_none());
    assert!(Timestamp::new(i64::MAX, u32::MAX).is_none());
}

#[test]
fn test_timestamp_text() {
    assert_eq!(Timestamp::new(0, 0).unwrap().text(), "1970-01-01T00:00:00Z");
    assert_eq!(Timestamp::new(1672531200, 0).unwrap().text(), "2023-01-01T00:00:00Z");
    assert_eq!(Timestamp::new(1672531200, 500_000_000).unwrap().text(), "2023-01-01T00:00:00.5Z");
    assert_eq!(Timestamp::new(-1, 0).unwrap().text(), "1969-12-31T23:59:59Z");
    // beyond the years of four digits the text is the number of seconds
    assert_eq!(Timestamp::new(253402300800, 0).unwrap().text(), "253402300800");
    for (seconds, nanos) in [(0i64, 1u32), (1, 999_999_999), (1700000000, 123_456_789), (i64::MAX, 0), (i64::MIN, 7)] {
        assert_eq!(
            Timestamp::new(seconds, nanos).unwrap().text(),
            aws_smithy_types::DateTime::from_secs_and_nanos(seconds, nanos).to_string()
        );
    }
}
