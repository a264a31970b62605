use entity_store::error::ApiError;
use entity_store::id::ObjectId;
use entity_store::models::project::{FacebookCredential, Package, Project};
use entity_store::repository::project_repository::ProjectRepository;

fn create_test_project() -> Project {
    let facebook_credentials = vec![(
        "test_page".to_string(),
        FacebookCredential {
            app_id: "test_app_id".to_string(),
            app_secret: "test_app_secret".to_string(),
            access_token: "test_token".to_string(),
            ad_account_id: "test_ad_account_id".to_string(),
            account_suffix: "test_suffix".to_string(),
            pixel_id: None,
            link_url: None,
            page_id: Some("test_page_id".to_string()),
            watermark: None,
        },
    )];

    Project {
        id: None,
        name: "Test Project".to_string(),
        telegram_chat_id: Some("123456789".to_string()),
        facebook_credentials,
        package: Some(Package {
            name: "Test Package".to_string(),
            description: "Test Description".to_string(),
        }),
        expires_at: Some(1_700_000_000_000),
        is_active: true,
        is_logging: false,
        created_at: 1_700_000_000_000,
        updated_at: 1_700_000_000_000,
    }
}

fn nonexistent_id() -> ObjectId {
    ObjectId::parse_str("ffffffffffffffffffffffff").expect("hex id must parse")
}

#[test]
fn project_repository_test_test_crud_operations() {
    let mut repo = ProjectRepository::new();

    // Test Create
    let test_project = create_test_project();
    let created_project = repo.create(test_project.clone()).expect("Failed to create project");

    assert!(created_project.id.is_some());
    assert_eq!(created_project.name, test_project.name);

    // Test Get by ID
    let project_id = created_project.id.unwrap();
    let retrieved_project = repo.get_by_id(&project_id).expect("Failed to get project by ID");

    assert_eq!(retrieved_project.id, Some(project_id));
    assert_eq!(retrieved_project.name, test_project.name);

    // Test Update
    let mut updated_project = retrieved_project.clone();
    updated_project.name = "Updated Test Project".to_string();

    let result = repo.update(&project_id, updated_project.clone()).expect(
        "Failed to update project",
    );

    assert_eq!(result.name, "Updated Test Project");

    // Test Get All
    let all_projects = repo.get_all().expect("Failed to get all projects");

    assert_eq!(all_projects.len(), 1);
    assert_eq!(all_projects[0].id, Some(project_id));

    // Test Delete
    let delete_result = repo.delete(&project_id).expect("Failed to delete project");

    assert!(delete_result);

    // Verify deletion
    let all_projects_after_delete = repo.get_all().expect(
        "Failed to get all projects after delete",
    );

    assert!(all_projects_after_delete.is_empty());
}

#[test]
fn test_get_nonexistent_project() {
    let repo = ProjectRepository::new();

    let result = repo.get_by_id(&nonexistent_id());

    assert!(matches!(result, Err(ApiError::NotFound)));
}

#[test]
fn test_update_nonexistent_project() {
    let mut repo = ProjectRepository::new();

    let test_project = create_test_project();

    let result = repo.update(&nonexistent_id(), test_project);

    assert!(matches!(result, Err(ApiError::NotFound)));
}

#[test]
fn test_delete_nonexistent_project() {
    let mut repo = ProjectRepository::new();

    let result = repo.delete(&nonexistent_id());

    assert!(matches!(result, Ok(false)));
}

#[test]
fn project_fields_survive_storage() {
    let mut repo = ProjectRepository::new();
    let created = repo.create(create_test_project()).expect("create");
    let id = created.id.unwrap();
    let fetched = repo.get_by_id(&id).expect("get");

    assert_eq!(fetched.telegram_chat_id.as_deref(), Some("123456789"));
    assert_eq!(fetched.facebook_credentials.len(), 1);
    assert_eq!(fetched.facebook_credentials[0].0, "test_page");
    assert_eq!(fetched.facebook_credentials[0].1.app_id, "test_app_id");
    assert_eq!(fetched.facebook_credentials[0].1.page_id.as_deref(), Some("test_page_id"));
    assert!(fetched.facebook_credentials[0].1.pixel_id.is_none());
    let package = fetched.package.expect("package kept");
    assert_eq!(package.name, "Test Package");
    assert_eq!(package.description, "Test Description");
    assert_eq!(fetched.expires_at, Some(1_700_000_000_000));
    assert!(fetched.is_active);
    assert!(!fetched.is_logging);
}
