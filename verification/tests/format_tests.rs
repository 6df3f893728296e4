use awsome::aws::lambda::FunctionConfiguration;
use awsome::aws::mwaa::Environment;
use awsome::aws::{
    DynamoDbItem, DynamoDbService, Ec2Item, Ec2Service, EcsItem, EcsService, IamItem, IamService,
    LambdaItem, LambdaService, MwaaItem, MwaaService, S3Item, S3Service,
};

fn s(text: &str) -> String {
    text.to_string()
}

#[test]
fn test_format_instance_list() {
    // Test empty list
    let (items, ec2_items) = Ec2Service::format_instance_list(&[]);
    assert_eq!(items[0], "No EC2 Instances found");
    assert!(matches!(ec2_items[0], Ec2Item::Header));

    // Test populated list
    let instances = vec![
        ("i-1234567890abcdef0".to_string(), "web-server".to_string(), "running".to_string(), "t2.micro".to_string(), "1.2.3.4".to_string()),
        ("i-0987654321fedcba0".to_string(), "db-server".to_string(), "stopped".to_string(), "m5.large".to_string(), "-".to_string()),
    ];
    let (items, ec2_items) = Ec2Service::format_instance_list(&instances);

    assert_eq!(items.len(), 4); // Header, Separator, 2 instances
    assert!(items[0].contains("Instance ID"));
    assert!(items[0].contains("Name"));
    assert!(items[2].contains("i-1234567890abcdef0"));
    assert!(items[3].contains("db-server"));

    assert!(matches!(ec2_items[2], Ec2Item::Instance(_)));
    if let Ec2Item::Instance(id) = &ec2_items[2] {
        assert_eq!(id, "i-1234567890abcdef0");
    }
}

#[test]
fn test_format_instance_list_exact_rows() {
    let instances = vec![
        (s("i-1234567890abcdef0"), s("web-server"), s("running"), s("t2.micro"), s("1.2.3.4")),
        (s("i-0987654321fedcba0"), s("db-server"), s("stopped"), s("m5.large"), s("-")),
    ];
    let (items, roles) = Ec2Service::format_instance_list(&instances);
    assert_eq!(
        items[0],
        format!("{:<19}  {:<20}  {:<10}  {:<10}  Public IP", "Instance ID", "Name", "State", "Type")
    );
    assert_eq!(items[0], "Instance ID          Name                  State       Type        Public IP");
    assert_eq!(items[1], "-".repeat(19 + 20 + 10 + 10 + 25));
    assert_eq!(items[2], "i-1234567890abcdef0  web-server            running     t2.micro    1.2.3.4");
    assert_eq!(items[3], "i-0987654321fedcba0  db-server             stopped     m5.large    -");
    assert_eq!(roles.len(), 4);
    assert_eq!(roles[0], Ec2Item::Header);
    assert_eq!(roles[1], Ec2Item::Separator);
    assert_eq!(roles[3], Ec2Item::Instance(s("i-0987654321fedcba0")));
}

#[test]
fn test_format_cluster_list() {
    let clusters = vec!["cluster1".to_string(), "cluster2".to_string()];
    let (items, ecs_items) = EcsService::format_cluster_list(&clusters);

    assert_eq!(items.len(), 4); // Header, Separator, 2 clusters
    assert!(items[0].contains("Cluster Name"));
    assert!(items[2].contains("cluster1"));

    assert!(matches!(ecs_items[2], EcsItem::Cluster(_)));
}

#[test]
fn test_format_cluster_list_exact_rows() {
    let (items, roles) = EcsService::format_cluster_list(&[]);
    assert_eq!(items, vec![s("No ECS Clusters found")]);
    assert_eq!(roles, vec![EcsItem::Header]);
    let clusters = vec![s("cluster1"), s("a-cluster-with-a-long-name")];
    let (items, roles) = EcsService::format_cluster_list(&clusters);
    assert_eq!(
        items,
        vec![
            s("Cluster Name              "),
            "-".repeat(31),
            s("cluster1                  "),
            s("a-cluster-with-a-long-name"),
        ]
    );
    assert_eq!(
        roles,
        vec![
            EcsItem::Header,
            EcsItem::Separator,
            EcsItem::Cluster(s("cluster1")),
            EcsItem::Cluster(s("a-cluster-with-a-long-name")),
        ]
    );
}

#[test]
fn test_format_service_list_exact_rows() {
    let (items, roles) = EcsService::format_service_list(&[], "main");
    assert_eq!(items, vec![s("No Services found in cluster main"), s("..")]);
    assert_eq!(roles, vec![EcsItem::Header, EcsItem::ParentDir]);
    let (items, roles) = EcsService::format_service_list(&[s("web"), s("worker")], "main");
    assert_eq!(
        items,
        vec![
            format!("{:<20}", "Service Name"),
            "-".repeat(25),
            s(".."),
            format!("{:<20}", "web"),
            format!("{:<20}", "worker"),
        ]
    );
    assert_eq!(
        roles,
        vec![
            EcsItem::Header,
            EcsItem::Separator,
            EcsItem::ParentDir,
            EcsItem::Service(s("web")),
            EcsItem::Service(s("worker")),
        ]
    );
}

#[test]
fn test_format_task_list() {
    let tasks = vec![
        (
            "task1".to_string(),
            "def1".to_string(),
            "RUNNING".to_string(),
            "RUNNING".to_string(),
            "2023-01-01".to_string(),
        ),
        (
            "task2".to_string(),
            "def2".to_string(),
            "STOPPED".to_string(),
            "STOPPED".to_string(),
            "2023-01-02".to_string(),
        ),
    ];
    let (items, ecs_items) = EcsService::format_task_list(&tasks, "cluster1", Some("service1"));

    assert_eq!(items.len(), 5); // Header, Separator, ParentDir, 2 tasks
    assert!(items[0].contains("Task ID"));
    assert!(items[3].contains("task1"));
    assert!(items[3].contains("RUNNING"));

    assert!(matches!(ecs_items[3], EcsItem::Task(_)));
}

#[test]
fn test_format_task_list_exact_rows() {
    let (items, roles) = EcsService::format_task_list(&[], "cluster1", Some("service1"));
    assert_eq!(items, vec![s("No Tasks found in Service service1"), s("..")]);
    assert_eq!(roles, vec![EcsItem::Header, EcsItem::ParentDir]);
    let (items, _) = EcsService::format_task_list(&[], "cluster1", None);
    assert_eq!(items, vec![s("No Tasks found in Cluster cluster1"), s("..")]);

    let tasks = vec![(s("task1"), s("def1"), s("RUNNING"), s("RUNNING"), s("2023-01-01"))];
    let (items, roles) = EcsService::format_task_list(&tasks, "cluster1", None);
    let header = format!(
        "{:<32}  {:<20}  {:<12}  {:<12}  {}",
        "Task ID", "Definition", "Last Status", "Desired", "Started At"
    );
    assert_eq!(items[0], header);
    assert_eq!(items[1], "-".repeat(header.len()));
    assert_eq!(items[1].len(), 32 + 2 + 20 + 2 + 12 + 2 + 12 + 2 + 10);
    assert_eq!(items[2], "..");
    assert_eq!(
        items[3],
        format!("{:<32}  {:<20}  {:<12}  {:<12}  {}", "task1", "def1", "RUNNING", "RUNNING", "2023-01-01")
    );
    assert_eq!(
        roles,
        vec![EcsItem::Header, EcsItem::Separator, EcsItem::ParentDir, EcsItem::Task(s("task1"))]
    );
}

#[test]
fn test_format_user_list() {
    // Test empty list
    let (items, iam_items) = IamService::format_user_list(&[]);
    assert_eq!(items[0], "No IAM Users found");
    assert!(matches!(iam_items[0], IamItem::Header));

    // Test populated list
    let users = vec![
        ("user1".to_string(), "id1".to_string(), "2023-01-01".to_string()),
        ("user2".to_string(), "id2".to_string(), "2023-01-02".to_string()),
    ];
    let (items, iam_items) = IamService::format_user_list(&users);

    assert_eq!(items.len(), 4); // Header, Separator, 2 users
    assert!(items[0].contains("User Name"));
    assert!(items[0].contains("User ID"));
    assert!(items[2].contains("user1"));
    assert!(items[3].contains("user2"));

    assert!(matches!(iam_items[2], IamItem::User(_)));
    if let IamItem::User(name) = &iam_items[2] {
        assert_eq!(name, "user1");
    }
}

#[test]
fn test_format_user_list_exact_rows() {
    let users = vec![
        (s("user1"), s("AIDAEXAMPLEEXAMPLEEXAMPLE"), s("2023-01-01")),
        (s("user2"), s("id2"), s("2023-01-02")),
    ];
    let (items, roles) = IamService::format_user_list(&users);
    assert_eq!(
        items,
        vec![
            format!("{:<20}  {:<25}  Creation Date", "User Name", "User ID"),
            "-".repeat(20 + 25 + 20),
            format!("{:<20}  {:<25}  {}", "user1", "AIDAEXAMPLEEXAMPLEEXAMPLE", "2023-01-01"),
            format!("{:<20}  {:<25}  {}", "user2", "id2", "2023-01-02"),
        ]
    );
    assert_eq!(
        roles,
        vec![IamItem::Header, IamItem::Separator, IamItem::User(s("user1")), IamItem::User(s("user2"))]
    );
}

#[test]
fn test_format_function_list() {
    let functions = vec![
        (
            "func1".to_string(),
            "python3.9".to_string(),
            "2023-01-01".to_string(),
        ),
        (
            "func2".to_string(),
            "nodejs18.x".to_string(),
            "2023-01-02".to_string(),
        ),
    ];
    let (items, lambda_items) = LambdaService::format_function_list(&functions);

    assert_eq!(items.len(), 4); // Header, Separator, 2 functions
    assert!(items[0].contains("Function Name"));
    assert!(items[0].contains("Runtime"));
    assert!(items[0].contains("Last Modified"));
    assert!(items[2].contains("func1"));
    assert!(items[2].contains("python3.9"));

    assert!(matches!(lambda_items[2], LambdaItem::Function(_)));
}

#[test]
fn test_format_function_list_exact_rows() {
    let (items, roles) = LambdaService::format_function_list(&[]);
    assert_eq!(items, vec![s("No Lambda Functions found")]);
    assert_eq!(roles, vec![LambdaItem::Header]);
    let functions = vec![(s("func1"), s("python3.9"), s("2023-01-01")), (s("func2"), s("nodejs18.x"), s("2023-01-02"))];
    let (items, roles) = LambdaService::format_function_list(&functions);
    assert_eq!(
        items,
        vec![
            format!("{:<20}  {:<10}  {:<25}", "Function Name", "Runtime", "Last Modified"),
            "-".repeat(20 + 2 + 10 + 2 + 25),
            format!("{:<20}  {:<10}  {:<25}", "func1", "python3.9", "2023-01-01"),
            format!("{:<20}  {:<10}  {:<25}", "func2", "nodejs18.x", "2023-01-02"),
        ]
    );
    assert_eq!(
        roles,
        vec![
            LambdaItem::Header,
            LambdaItem::Separator,
            LambdaItem::Function(s("func1")),
            LambdaItem::Function(s("func2")),
        ]
    );
}

#[test]
fn test_get_function_details_pairs() {
    let config = FunctionConfiguration {
        function_name: Some("test-func".to_string()),
        function_arn: Some("arn:aws:lambda:us-east-1:123456789012:function:test-func".to_string()),
        runtime: Some("python3.9".to_string()),
        handler: Some("index.handler".to_string()),
        description: None,
        memory_size: Some(128),
        timeout: Some(30),
        last_modified: None,
        role: None,
        state: None,
    };

    let details = LambdaService::get_function_details_pairs(&config);

    assert_eq!(details.len(), 10);
    assert_eq!(details[0], ("Name".to_string(), "test-func".to_string()));
    assert_eq!(details[2], ("Runtime".to_string(), "python3.9".to_string()));
    assert_eq!(
        details[5],
        ("Memory Size".to_string(), "128 MB".to_string())
    );
}

#[test]
fn test_function_details_all_attributes() {
    let config = FunctionConfiguration {
        function_name: Some(s("f")),
        function_arn: Some(s("arn")),
        runtime: None,
        handler: Some(s("index.handler")),
        description: None,
        memory_size: None,
        timeout: Some(30),
        last_modified: Some(s("2023-01-01")),
        role: Some(s("role")),
        state: Some(s("Active")),
    };
    let details = LambdaService::get_function_details_pairs(&config);
    let expected = vec![
        (s("Name"), s("f")),
        (s("ARN"), s("arn")),
        (s("Runtime"), s("unknown")),
        (s("Handler"), s("index.handler")),
        (s("Description"), s("")),
        (s("Memory Size"), s("unknown")),
        (s("Timeout"), s("30 s")),
        (s("Last Modified"), s("2023-01-01")),
        (s("Role"), s("role")),
        (s("State"), s("Active")),
    ];
    assert_eq!(details, expected);
}

#[test]
fn test_format_environment_list() {
    let envs = vec!["env1".to_string(), "env2".to_string()];
    let (items, mwaa_items) = MwaaService::format_environment_list(&envs);

    assert_eq!(items.len(), 4); // Header, Separator, 2 envs
    assert!(items[0].contains("Environment Name"));
    assert!(items[2].contains("env1"));

    assert!(matches!(mwaa_items[2], MwaaItem::Environment(_)));
}

#[test]
fn test_format_environment_list_exact_rows() {
    let (items, roles) = MwaaService::format_environment_list(&[]);
    assert_eq!(items, vec![s("No MWAA Environments found")]);
    assert_eq!(roles, vec![MwaaItem::Header]);
    let (items, roles) = MwaaService::format_environment_list(&[s("env1")]);
    assert_eq!(items, vec![format!("{:<20}", "Environment Name"), "-".repeat(25), format!("{:<20}", "env1")]);
    assert_eq!(roles, vec![MwaaItem::Header, MwaaItem::Separator, MwaaItem::Environment(s("env1"))]);
}

#[test]
fn test_get_environment_details_pairs() {
    let env = Environment {
        name: Some("test-env".to_string()),
        arn: Some("arn:aws:mwaa:us-east-1:123456789012:environment/test-env".to_string()),
        status: Some("AVAILABLE".to_string()),
        airflow_version: None,
        execution_role_arn: None,
        service_role_arn: None,
        kms_key: None,
        webserver_url: None,
        created_at: None,
    };

    let details = MwaaService::get_environment_details_pairs(&env);

    assert_eq!(details.len(), 9);
    assert_eq!(details[0], ("Name".to_string(), "test-env".to_string()));
    assert_eq!(details[2], ("Status".to_string(), "AVAILABLE".to_string()));
}

#[test]
fn test_environment_details_all_attributes() {
    let env = Environment {
        name: None,
        arn: None,
        status: None,
        airflow_version: Some(s("2.8.1")),
        execution_role_arn: None,
        service_role_arn: None,
        kms_key: None,
        webserver_url: None,
        created_at: awsome::aws::time::Timestamp::new(1672531200, 0),
    };
    let details = MwaaService::get_environment_details_pairs(&env);
    let expected = vec![
        (s("Name"), s("unknown")),
        (s("ARN"), s("unknown")),
        (s("Status"), s("unknown")),
        (s("Airflow Version"), s("2.8.1")),
        (s("Execution Role"), s("unknown")),
        (s("Service Role"), s("unknown")),
        (s("KMS Key"), s("None")),
        (s("Webserver URL"), s("unknown")),
        (s("Created At"), s("2023-01-01T00:00:00Z")),
    ];
    assert_eq!(details, expected);
}

#[test]
fn test_format_bucket_list() {
    // Test empty list
    let (items, s3_items) = S3Service::format_bucket_list(&[]);
    assert_eq!(items[0], "No S3 Buckets found");
    assert!(matches!(s3_items[0], S3Item::Header));

    // Test populated list
    let buckets = vec![
        ("bucket1".to_string(), "2023-01-01".to_string()),
        ("bucket2".to_string(), "2023-01-02".to_string()),
    ];
    let (items, s3_items) = S3Service::format_bucket_list(&buckets);

    assert_eq!(items.len(), 4); // Header, Separator, 2 buckets
    assert!(items[0].contains("Bucket Name"));
    assert!(items[2].contains("bucket1"));
    assert!(items[3].contains("bucket2"));

    assert!(matches!(s3_items[2], S3Item::Bucket(_)));
    if let S3Item::Bucket(name) = &s3_items[2] {
        assert_eq!(name, "bucket1");
    }
}

#[test]
fn test_format_bucket_list_exact_rows() {
    let buckets = vec![(s("bucket1"), s("2023-01-01")), (s("a-bucket-with-quite-a-long-name"), s("2023-01-02"))];
    let (items, roles) = S3Service::format_bucket_list(&buckets);
    assert_eq!(
        items,
        vec![
            format!("{:<31}  Creation Date", "Bucket Name"),
            "-".repeat(31 + 25),
            format!("{:<31}  {}", "bucket1", "2023-01-01"),
            s("a-bucket-with-quite-a-long-name  2023-01-02"),
        ]
    );
    assert_eq!(roles.len(), 4);
    assert!(matches!(roles[0], S3Item::Header));
    assert!(matches!(roles[1], S3Item::Separator));
    assert!(matches!(&roles[3], S3Item::Bucket(name) if name == "a-bucket-with-quite-a-long-name"));
}

#[test]
fn test_column_width_counts_bytes_and_padding_counts_characters() {
    // 21 characters of two bytes each: the column is 42 wide
    let name = "é".repeat(21);
    let buckets = vec![(name.clone(), s("d")), (s("b"), s("e"))];
    let (items, _) = S3Service::format_bucket_list(&buckets);
    assert_eq!(items[0], format!("{:<42}  Creation Date", "Bucket Name"));
    assert_eq!(items[1], "-".repeat(67));
    assert_eq!(items[2], format!("{:<42}  {}", name, "d"));
    assert_eq!(items[2].chars().count(), 42 + 2 + 1);
    assert_eq!(items[3], format!("{:<42}  {}", "b", "e"));
}

#[test]
fn test_format_object_list() {
    let objects = vec![
        ("folder/".to_string(), "DIR".to_string(), "".to_string()),
        ("file.txt".to_string(), "1.00 KB".to_string(), "2023-01-01".to_string()),
    ];

    let (items, s3_items) = S3Service::format_object_list(&objects, "bucket", "");

    assert_eq!(items.len(), 5); // Header, Separator, ParentDir, Folder, File
    assert_eq!(items[2], "..");
    assert!(matches!(s3_items[2], S3Item::ParentDir));

    assert!(items[3].contains("folder/"));
    assert!(matches!(s3_items[3], S3Item::Folder(_)));

    assert!(items[4].contains("file.txt"));
    assert!(matches!(s3_items[4], S3Item::Object(_)));
}

#[test]
fn test_format_object_list_exact_rows() {
    let (items, roles) = S3Service::format_object_list(&[], "bucket", "");
    assert_eq!(
        items,
        vec![format!("{:<20}  {:<10}  Last Modified", "Name", "Size"), "-".repeat(50), s("..")]
    );
    assert_eq!(roles.len(), 3);
    let objects = vec![(s("folder/"), s("DIR"), s("")), (s("file.txt"), s("1.00 KB"), s("2023-01-01"))];
    let (items, roles) = S3Service::format_object_list(&objects, "bucket", "");
    assert_eq!(items[3], format!("{:<20}  {:<10}  {}", "folder/", "DIR", ""));
    assert_eq!(items[3], "folder/               DIR         ");
    assert_eq!(items[4], "file.txt              1.00 KB     2023-01-01");
    assert!(matches!(&roles[3], S3Item::Folder(name) if name == "folder/"));
    assert!(matches!(&roles[4], S3Item::Object(name) if name == "file.txt"));
}

#[test]
fn test_format_table_list_exact_rows() {
    let (items, roles) = DynamoDbService::format_table_list(&[]);
    assert_eq!(items, vec![s("No DynamoDB Tables found")]);
    assert!(matches!(roles[0], DynamoDbItem::Header));
    assert_eq!(roles.len(), 1);
    let tables = vec![(s("orders"), s("ACTIVE"), s("12"), s("1.50 KB"))];
    let (items, roles) = DynamoDbService::format_table_list(&tables);
    assert_eq!(
        items,
        vec![
            format!("{:<20}  {:<10}  {:<12}  Size", "Table Name", "Status", "Items"),
            "-".repeat(60),
            format!("{:<20}  {:<10}  {:<12}  {}", "orders", "ACTIVE", "12", "1.50 KB"),
        ]
    );
    assert_eq!(roles.len(), 3);
    assert!(matches!(roles[1], DynamoDbItem::Separator));
    assert!(matches!(&roles[2], DynamoDbItem::Table(name) if name == "orders"));
}
