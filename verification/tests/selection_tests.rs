use awsome::app::App;
use awsome::aws::{DynamoDbItem, IamItem, Role, S3Item};

fn rows(n: usize) -> Vec<String> {
    (0..n).map(|i| format!("row {}", i)).collect()
}

#[test]
fn test_navigation() {
    let mut app = App::new("default".to_string());
    app.items = vec!["Item 1".to_string(), "Item 2".to_string(), "Item 3".to_string()];

    // Test next_item
    app.next_item();
    assert_eq!(app.selected_index, 1);
    app.next_item();
    assert_eq!(app.selected_index, 2);
    app.next_item();
    assert_eq!(app.selected_index, 0); // Wrap around

    // Test previous_item
    app.previous_item();
    assert_eq!(app.selected_index, 2); // Wrap around
    app.previous_item();
    assert_eq!(app.selected_index, 1);
}

#[test]
fn test_is_selectable_s3() {
    let mut app = App::new("default".to_string());
    // Switch to S3 (index 1)
    app.active_service = 1;

    // Mock S3 items
    app.s3_items = vec![
        S3Item::Header,
        S3Item::Separator,
        S3Item::Bucket("bucket1".to_string()),
    ];
    app.items = vec![
        "Header".to_string(),
        "---".to_string(),
        "bucket1".to_string(),
    ];

    // Header should not be selectable
    assert!(!app.is_selectable(0));
    // Separator should not be selectable
    assert!(!app.is_selectable(1));
    // Bucket should be selectable
    assert!(app.is_selectable(2));

    // Test navigation skipping non-selectable items
    app.selected_index = 2;
    app.next_item(); // Should wrap to 2 because 0 and 1 are not selectable
    assert_eq!(app.selected_index, 2);

    // If we force selection to 0 (which shouldn't happen normally but for test setup)
    app.selected_index = 0;
    app.next_item();
    assert_eq!(app.selected_index, 2);
}

#[test]
fn test_move_on_empty_rows_is_no_op() {
    let mut app = App::new("default".to_string());
    app.items = Vec::new();
    app.selected_index = 7;
    app.next_item();
    assert_eq!(app.selected_index, 7);
    app.previous_item();
    assert_eq!(app.selected_index, 7);
}

#[test]
fn test_move_without_selectable_rows_is_no_op() {
    let mut app = App::new("default".to_string());
    app.active_service = 1;
    app.items = rows(2);
    app.s3_items = vec![S3Item::Header, S3Item::Separator];
    for start in [0usize, 1, 2, 5, 1000] {
        app.selected_index = start;
        app.next_item();
        assert_eq!(app.selected_index, start);
        app.previous_item();
        assert_eq!(app.selected_index, start);
    }
}

#[test]
fn test_notice_row_alone_cannot_be_left() {
    let mut app = App::new("default".to_string());
    app.active_service = 2;
    app.items = vec!["No IAM Users found".to_string()];
    app.iam_items = vec![IamItem::Header];
    app.next_item();
    assert_eq!(app.selected_index, 0);
    app.previous_item();
    assert_eq!(app.selected_index, 0);
}

#[test]
fn test_next_from_any_index_lands_on_selectable_within_len_steps() {
    let mut app = App::new("default".to_string());
    app.active_service = 1;
    app.items = rows(6);
    app.s3_items = vec![
        S3Item::Header,
        S3Item::Separator,
        S3Item::ParentDir,
        S3Item::Folder("a/".to_string()),
        S3Item::Separator,
        S3Item::Object("b".to_string()),
    ];
    let expected_next = [2usize, 2, 3, 5, 5, 2];
    let expected_prev = [5usize, 5, 5, 2, 3, 3];
    for start in 0..6 {
        app.selected_index = start;
        app.next_item();
        assert_eq!(app.selected_index, expected_next[start], "next from {}", start);
        assert!(app.is_selectable(app.selected_index));
        app.selected_index = start;
        app.previous_item();
        assert_eq!(app.selected_index, expected_prev[start], "previous from {}", start);
        assert!(app.is_selectable(app.selected_index));
    }
    // repeated moves never rest on decoration
    app.selected_index = 0;
    for _ in 0..20 {
        app.next_item();
        assert!(matches!(app.selected_index, 2 | 3 | 5));
    }
    for _ in 0..20 {
        app.previous_item();
        assert!(matches!(app.selected_index, 2 | 3 | 5));
    }
}

#[test]
fn test_moves_from_out_of_range_index() {
    let mut app = App::new("default".to_string());
    app.active_service = 1;
    app.items = rows(4);
    app.s3_items = vec![
        S3Item::Header,
        S3Item::Separator,
        S3Item::Bucket("a".to_string()),
        S3Item::Bucket("b".to_string()),
    ];
    // (9 + 1) % 4 = 2
    app.selected_index = 9;
    app.next_item();
    assert_eq!(app.selected_index, 2);
    // (usize::MAX + 1) wraps in the mathematical sense: usize::MAX % 4 = 3, then row 0, 1, 2
    app.selected_index = usize::MAX;
    app.next_item();
    assert_eq!(app.selected_index, 2);
    // 9 % 4 = 1, one step back is 0, then 3
    app.selected_index = 9;
    app.previous_item();
    assert_eq!(app.selected_index, 3);
}

#[test]
fn test_services_without_roles_select_every_row() {
    let mut app = App::new("default".to_string());
    app.items = rows(3);
    // stale roles of other services do not count for the compute service
    app.s3_items = vec![S3Item::Header, S3Item::Separator, S3Item::Header];
    for i in 0..5 {
        assert!(app.is_selectable(i));
    }
    app.active_service = 3;
    for i in 0..5 {
        assert!(app.is_selectable(i));
    }
}

#[test]
fn test_rows_beyond_the_roles_are_selectable() {
    let mut app = App::new("default".to_string());
    app.active_service = 4;
    app.items = rows(3);
    app.dynamodb_items = vec![DynamoDbItem::Header, DynamoDbItem::Separator];
    assert!(!app.is_selectable(0));
    assert!(!app.is_selectable(1));
    assert!(app.is_selectable(2));
    app.dynamodb_items.push(DynamoDbItem::Table("t".to_string()));
    assert!(app.is_selectable(2));
    app.active_service = 2;
    app.iam_items = vec![IamItem::Header, IamItem::Separator, IamItem::User("u".to_string())];
    assert!(!app.is_selectable(0));
    assert!(!app.is_selectable(1));
    assert!(app.is_selectable(2));
    assert!(app.is_selectable(3));
}

#[test]
fn test_item_roles() {
    assert!(!S3Item::Header.is_selectable());
    assert!(!S3Item::Separator.is_selectable());
    assert!(S3Item::ParentDir.is_selectable());
    assert!(S3Item::Bucket("b".to_string()).is_selectable());
    assert!(S3Item::Folder("f/".to_string()).is_selectable());
    assert!(S3Item::Object("o".to_string()).is_selectable());
    assert!(!IamItem::Header.is_selectable());
    assert!(!IamItem::Separator.is_selectable());
    assert!(IamItem::User("u".to_string()).is_selectable());
    assert!(!DynamoDbItem::Header.is_selectable());
    assert!(!DynamoDbItem::Separator.is_selectable());
    assert!(DynamoDbItem::Table("t".to_string()).is_selectable());
}

fn first_selectable_ahead(selectable: &[bool], start: usize) -> usize {
    let n = selectable.len();
    for k in 1..=n {
        let at = (start + k) % n;
        if selectable[at] {
            return at;
        }
    }
    start
}

fn first_selectable_behind(selectable: &[bool], start: usize) -> usize {
    let n = selectable.len();
    let mut at = start;
    for _ in 0..n {
        at = if at > 0 { at - 1 } else { n - 1 };
        if selectable[at] {
            return at;
        }
    }
    start
}

#[test]
fn test_moves_over_every_pattern_of_rows() {
    for n in 1..=7usize {
        for pattern in 0..(1u32 << n) {
            let selectable: Vec<bool> = (0..n).map(|i| pattern & (1 << i) != 0).collect();
            let mut app = App::new("default".to_string());
            app.active_service = 2;
            app.items = rows(n);
            app.iam_items = selectable
                .iter()
                .map(|s| if *s { IamItem::User("u".to_string()) } else { IamItem::Separator })
                .collect();
            for start in 0..n {
                app.selected_index = start;
                app.next_item();
                assert_eq!(app.selected_index, first_selectable_ahead(&selectable, start));
                app.selected_index = start;
                app.previous_item();
                assert_eq!(app.selected_index, first_selectable_behind(&selectable, start));
                if pattern != 0 {
                    assert!(selectable[app.selected_index]);
                } else {
                    assert_eq!(app.selected_index, start);
                }
            }
        }
    }
}

#[test]
fn test_row_roles() {
    assert_eq!(S3Item::Header.role(), Role::Header);
    assert_eq!(S3Item::Separator.role(), Role::Separator);
    assert_eq!(S3Item::ParentDir.role(), Role::ParentLink);
    assert_eq!(S3Item::Bucket("b".to_string()).role(), Role::Entry);
    assert_eq!(S3Item::Folder("f/".to_string()).role(), Role::Entry);
    assert_eq!(S3Item::Object("o".to_string()).role(), Role::Entry);
    assert_eq!(IamItem::Header.role(), Role::Header);
    assert_eq!(IamItem::User("u".to_string()).role(), Role::Entry);
    assert_eq!(DynamoDbItem::Separator.role(), Role::Separator);
    assert_eq!(DynamoDbItem::Table("t".to_string()).role(), Role::Entry);
    assert!(Role::Entry.is_selectable());
    assert!(Role::ParentLink.is_selectable());
    assert!(!Role::Header.is_selectable());
    assert!(!Role::Separator.is_selectable());

    let mut app = App::new("default".to_string());
    app.active_service = 1;
    app.items = rows(4);
    app.s3_items = vec![
        S3Item::Header,
        S3Item::Separator,
        S3Item::ParentDir,
        S3Item::Object("o".to_string()),
    ];
    let roles: Vec<Role> = (0..6).map(|i| app.row_role(i)).collect();
    assert_eq!(
        roles,
        vec![Role::Header, Role::Separator, Role::ParentLink, Role::Entry, Role::Entry, Role::Entry]
    );
    for i in 0..6 {
        assert_eq!(app.row_role(i).is_selectable(), app.is_selectable(i));
    }
    // rows of a service without roles are entries
    app.active_service = 0;
    assert_eq!(app.row_role(0), Role::Entry);
}
