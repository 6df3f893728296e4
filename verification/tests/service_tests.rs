use awsome::app::{App, LoadingState, ServiceInfo, ServiceType};

#[test]
fn test_service_type() {
    assert_eq!(ServiceType::EC2.short_name(), "EC2");
    assert_eq!(ServiceType::S3.short_name(), "S3");
    assert_eq!(ServiceType::IAM.short_name(), "IAM");
    assert_eq!(ServiceType::CloudWatch.short_name(), "CloudWatch");
    assert_eq!(ServiceType::DynamoDB.short_name(), "DynamoDB");

    assert_eq!(ServiceType::EC2.as_str(), "EC2 Instances");
}

#[test]
fn test_service_titles() {
    assert_eq!(ServiceType::S3.as_str(), "S3 Buckets");
    assert_eq!(ServiceType::IAM.as_str(), "IAM Users");
    assert_eq!(ServiceType::CloudWatch.as_str(), "CloudWatch Alarms");
    assert_eq!(ServiceType::DynamoDB.as_str(), "DynamoDB Tables");
}

#[test]
fn test_service_info() {
    let info = ServiceInfo::new(ServiceType::S3, true);
    assert!(info.favorite);
    assert!(info.service_type == ServiceType::S3);
    assert_eq!(info.as_str(), "S3 Buckets");
    assert_eq!(info.short_name(), "S3");
}

#[test]
fn test_app_initialization() {
    let app = App::new("default".to_string());
    assert_eq!(app.active_service, 0);
    assert_eq!(app.selected_index, 0);
    assert_eq!(app.loading_state, LoadingState::Idle);
    assert!(app.services[0].favorite); // EC2 is favorite
}

#[test]
fn test_initial_session() {
    let app = App::new("work".to_string());
    assert!(app.is_valid());
    assert_eq!(app.services.len(), 5);
    assert!(app.services[1].favorite);
    assert!(!app.services[2].favorite);
    assert!(!app.services[3].favorite);
    assert!(!app.services[4].favorite);
    assert_eq!(app.items, vec!["Initializing AWS client...".to_string()]);
    assert_eq!(app.status_message, "Press Space for services, r to refresh, q to quit");
    assert_eq!(app.profile_name, "work");
    assert!(!app.connected);
    assert!(app.error_message.is_none());
    assert!(app.current_path.is_none());
    assert!(app.detail_content.is_empty());
    assert!(!app.is_loading());
}
